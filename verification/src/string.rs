//! Texts: cutting, joining, and writing numbers in decimal.

use itertools::Itertools;
use vstd::prelude::*;
use vstd::string::*;

verus! {

/// The text `s` cut to at most `max_length` characters: `s` itself where it is
/// short enough, else its first `max_length` characters.
pub open spec fn cut_text(s: Seq<char>, max_length: nat) -> Seq<char> {
    if s.len() <= max_length {
        s
    } else {
        s.take(max_length as int)
    }
}

/// Cuts `str` to at most `max_length` characters, counted as characters and
/// not as bytes, so that the cut never falls inside a character.
pub fn cut(str: String, max_length: usize) -> (result: String)
    ensures
        result@ == cut_text(str@, max_length as nat),
        result@.len() <= max_length,
{
    let length = str.as_str().unicode_len();
    if length <= max_length {
        str
    } else {
        String::from_str(str.as_str().substring_char(0, max_length))
    }
}

/// The character that writes the digit `d`.
pub open spec fn digit_char(d: int) -> char {
    if d == 0 {
        '0'
    } else if d == 1 {
        '1'
    } else if d == 2 {
        '2'
    } else if d == 3 {
        '3'
    } else if d == 4 {
        '4'
    } else if d == 5 {
        '5'
    } else if d == 6 {
        '6'
    } else if d == 7 {
        '7'
    } else if d == 8 {
        '8'
    } else {
        '9'
    }
}

/// The decimal digits of `n`, most significant first, without leading zeros.
pub open spec fn decimal_digits(n: nat) -> Seq<char>
    decreases n,
{
    if n < 10 {
        seq![digit_char(n as int)]
    } else {
        decimal_digits(n / 10).push(digit_char((n % 10) as int))
    }
}

/// The decimal text of `i`: a minus sign where it is negative, then the
/// digits of its magnitude.
pub open spec fn decimal(i: int) -> Seq<char> {
    if i < 0 {
        seq!['-'] + decimal_digits((-i) as nat)
    } else {
        decimal_digits(i as nat)
    }
}

fn digit_text(d: u32) -> (text: &'static str)
    requires
        d < 10,
    ensures
        text@ == seq![digit_char(d as int)],
{
    proof {
        reveal_strlit("0");
        reveal_strlit("1");
        reveal_strlit("2");
        reveal_strlit("3");
        reveal_strlit("4");
        reveal_strlit("5");
        reveal_strlit("6");
        reveal_strlit("7");
        reveal_strlit("8");
        reveal_strlit("9");
    }
    let text = if d == 0 {
        "0"
    } else if d == 1 {
        "1"
    } else if d == 2 {
        "2"
    } else if d == 3 {
        "3"
    } else if d == 4 {
        "4"
    } else if d == 5 {
        "5"
    } else if d == 6 {
        "6"
    } else if d == 7 {
        "7"
    } else if d == 8 {
        "8"
    } else {
        "9"
    };
    assert(text@ =~= seq![digit_char(d as int)]);
    text
}

fn digits_to_string(n: u32) -> (text: String)
    ensures
        text@ == decimal_digits(n as nat),
    decreases n,
{
    if n < 10 {
        String::from_str(digit_text(n))
    } else {
        let mut text = digits_to_string(n / 10);
        text.append(digit_text(n % 10));
        assert(text@ =~= decimal_digits((n / 10) as nat).push(digit_char((n % 10) as int)));
        text
    }
}

/// Writes `value` in decimal.
pub fn unsigned_to_string(value: u32) -> (text: String)
    ensures
        text@ == decimal_digits(value as nat),
{
    digits_to_string(value)
}

/// `head` followed by `tail`.
pub fn joined(head: &str, tail: &str) -> (text: String)
    ensures
        text@ == head@ + tail@,
{
    let mut text = String::from_str(head);
    text.append(tail);
    text
}

/// Writes `value` in decimal.
pub fn number_to_string(value: i32) -> (text: String)
    ensures
        text@ == decimal(value as int),
{
    if value < 0 {
        let magnitude: u32 = if value == i32::MIN {
            2147483648u32
        } else {
            (-value) as u32
        };
        let mut text = String::from_str("-");
        proof {
            reveal_strlit("-");
        }
        let digits = digits_to_string(magnitude);
        text.append(digits.as_str());
        assert(text@ =~= seq!['-'] + decimal_digits((-(value as int)) as nat));
        text
    } else {
        digits_to_string(value as u32)
    }
}

/// The texts of a list.
pub open spec fn texts(list: Vec<String>) -> Seq<Seq<char>> {
    list@.map_values(|text: String| text@)
}

/// The texts of `parts` in their order, with `separator` between every two
/// of them.
pub open spec fn joined_texts(parts: Seq<Seq<char>>, separator: Seq<char>) -> Seq<char>
    decreases parts.len(),
{
    if parts.len() == 0 {
        Seq::empty()
    } else if parts.len() == 1 {
        parts[0]
    } else {
        joined_texts(parts.drop_last(), separator) + separator + parts.last()
    }
}

/// `itertools::Itertools::join` over the texts of a list: the texts in their
/// order, with the separator between every two of them, and the empty text
/// for an empty list.
#[verifier::external_body]
pub(crate) fn join(parts: &Vec<String>, separator: &str) -> (text: String)
    ensures
        text@ == joined_texts(texts(*parts), separator@),
{
    parts.iter().join(separator)
}

/// Whether `c` writes a digit.
pub open spec fn is_digit(c: char) -> bool {
    c == '0' || c == '1' || c == '2' || c == '3' || c == '4' || c == '5' || c == '6' || c == '7'
        || c == '8' || c == '9'
}

/// The digits of a number are at least one, and each of them is a digit.
pub proof fn lemma_decimal_digits(n: nat)
    ensures
        decimal_digits(n).len() >= 1,
        n >= 10 ==> decimal_digits(n).len() >= 2,
        forall|i: int| 0 <= i < decimal_digits(n).len() ==> is_digit(#[trigger] decimal_digits(n)[i]),
    decreases n,
{
    if n >= 10 {
        lemma_decimal_digits(n / 10);
    }
}

/// The decimal text of an integer is not empty and holds no `.`.
pub proof fn lemma_decimal_has_no_dot(i: int)
    ensures
        decimal(i).len() >= 1,
        forall|j: int| 0 <= j < decimal(i).len() ==> #[trigger] decimal(i)[j] != '.',
{
    if i < 0 {
        lemma_decimal_digits((-i) as nat);
        let digits = decimal_digits((-i) as nat);
        assert forall|j: int| 0 <= j < decimal(i).len() implies #[trigger] decimal(i)[j] != '.' by {
            if j > 0 {
                assert(decimal(i)[j] == digits[j - 1]);
                assert(is_digit(digits[j - 1]));
            }
        }
    } else {
        lemma_decimal_digits(i as nat);
        assert forall|j: int| 0 <= j < decimal(i).len() implies #[trigger] decimal(i)[j] != '.' by {
            assert(is_digit(decimal_digits(i as nat)[j]));
        }
    }
}

/// Two numbers with the same digits are the same number.
pub proof fn lemma_decimal_digits_injective(a: nat, b: nat)
    requires
        decimal_digits(a) == decimal_digits(b),
    ensures
        a == b,
    decreases a,
{
    lemma_decimal_digits(a);
    lemma_decimal_digits(b);
    if a < 10 && b < 10 {
        assert(decimal_digits(a)[0] == digit_char(a as int));
        assert(decimal_digits(b)[0] == digit_char(b as int));
    } else if a >= 10 && b >= 10 {
        let head_a = decimal_digits(a / 10);
        let head_b = decimal_digits(b / 10);
        assert(decimal_digits(a).last() == digit_char((a % 10) as int));
        assert(decimal_digits(b).last() == digit_char((b % 10) as int));
        assert(decimal_digits(a).drop_last() =~= head_a);
        assert(decimal_digits(b).drop_last() =~= head_b);
        lemma_decimal_digits_injective(a / 10, b / 10);
    }
}

/// Two integers with the same decimal text are the same integer.
pub proof fn lemma_decimal_injective(a: int, b: int)
    requires
        decimal(a) == decimal(b),
    ensures
        a == b,
{
    let digits_a = decimal_digits((if a < 0 { -a } else { a }) as nat);
    let digits_b = decimal_digits((if b < 0 { -b } else { b }) as nat);
    lemma_decimal_digits((if a < 0 { -a } else { a }) as nat);
    lemma_decimal_digits((if b < 0 { -b } else { b }) as nat);
    if a < 0 && b < 0 {
        assert(decimal(a).drop_first() =~= digits_a);
        assert(decimal(b).drop_first() =~= digits_b);
        lemma_decimal_digits_injective((-a) as nat, (-b) as nat);
    } else if a >= 0 && b >= 0 {
        lemma_decimal_digits_injective(a as nat, b as nat);
    } else if a < 0 {
        assert(decimal(a)[0] == '-');
        assert(is_digit(digits_b[0]));
    } else {
        assert(decimal(b)[0] == '-');
        assert(is_digit(digits_a[0]));
    }
}

/// The decimal text of a number below a hundred: one digit, or two.
pub proof fn lemma_short_decimal(n: int)
    requires
        0 <= n < 100,
    ensures
        n < 10 ==> decimal(n) == seq![digit_char(n)],
        n >= 10 ==> decimal(n) == seq![digit_char(n / 10), digit_char(n % 10)],
{
    if n >= 10 {
        assert(decimal_digits((n / 10) as nat) == seq![digit_char(n / 10)]);
        assert(decimal(n) =~= seq![digit_char(n / 10), digit_char(n % 10)]);
    }
}

} // verus!
