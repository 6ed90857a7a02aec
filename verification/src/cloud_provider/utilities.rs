//! The catalogs of supported versions, and the resolution of a request
//! against a catalog.

use crate::cloud_provider::version_laws::{
    lemma_resolved_version_matches_request, lemma_self_hosted_versions_extend_keys,
    matches_request,
};
use crate::error::{StringError, StringErrorKind, StringErrorView};
use crate::string::{decimal, joined, number_to_string};
use vstd::hash_map::StringHashMap;
use vstd::prelude::*;
use vstd::string::*;

verus! {

/// The versions that an engine supports in one deployment mode: each key is a
/// version as a user may ask for it (`"8"`, `"8.0"` or `"8.0.21"`), its value
/// the concrete version that is deployed for it.
pub struct SupportedVersions {
    entries: StringHashMap<String>,
}

impl View for SupportedVersions {
    type V = Map<Seq<char>, Seq<char>>;

    closed spec fn view(&self) -> Map<Seq<char>, Seq<char>> {
        self.entries@.map_values(|version: String| version@)
    }
}

impl SupportedVersions {
    /// A catalog without entries.
    pub fn new() -> (versions: SupportedVersions)
        ensures
            versions@ == Map::<Seq<char>, Seq<char>>::empty(),
    {
        let versions = SupportedVersions { entries: StringHashMap::new() };
        assert(versions@ =~= Map::<Seq<char>, Seq<char>>::empty());
        versions
    }

    /// Sets the entry of `key` to `version`, whether or not it had one.
    pub fn insert(&mut self, key: String, version: String)
        ensures
            final(self)@ == old(self)@.insert(key@, version@),
    {
        self.entries.insert(key, version);
        assert(self@ =~= old(self)@.insert(key@, version@));
    }

    /// Takes the entry of `key` out, if there is one.
    pub fn remove(&mut self, key: &str)
        ensures
            final(self)@ == old(self)@.remove(key@),
    {
        self.entries.remove(key);
        assert(self@ =~= old(self)@.remove(key@));
    }

    /// The version that `key` maps to, if it has an entry.
    pub fn get(&self, key: &str) -> (version: Option<&String>)
        ensures
            match version {
                Some(v) => self@.contains_key(key@) && v@ == self@[key@],
                None => !self@.contains_key(key@),
            },
    {
        self.entries.get(key)
    }

    /// Whether `key` has an entry.
    pub fn contains_key(&self, key: &str) -> (present: bool)
        ensures
            present == self@.contains_key(key@),
    {
        self.entries.contains_key(key)
    }

    /// The number of entries.
    pub fn len(&self) -> (count: usize)
        ensures
            count == self@.len(),
    {
        proof {
            assert(self@.dom() =~= self.entries@.dom());
        }
        self.entries.len()
    }

    /// Whether the catalog has no entry.
    pub fn is_empty(&self) -> (empty: bool)
        ensures
            empty == self@.is_empty(),
            empty == (self@.dom() == Set::<Seq<char>>::empty()),
    {
        proof {
            assert(self@.dom() =~= self.entries@.dom());
        }
        self.entries.is_empty()
    }

    /// Adds every entry of `other`; where both have an entry for a key, that
    /// of `other` stays.
    pub fn extend(&mut self, other: SupportedVersions)
        ensures
            final(self)@ == old(self)@.union_prefer_right(other@),
    {
        self.entries.union_prefer_right(other.entries);
        assert(self@ =~= old(self)@.union_prefer_right(other@));
    }
}

/// The key `"major.minor"`.
pub open spec fn minor_key(major: int, minor: int) -> Seq<char> {
    decimal(major) + seq!['.'] + decimal(minor)
}

/// The key `"major.minor.update"`.
pub open spec fn patch_key(major: int, minor: int, update: int) -> Seq<char> {
    minor_key(major, minor) + seq!['.'] + decimal(update)
}

/// Whether `key` is `"major.minor"` for a minor from `minor_min` to `minor_max`.
pub open spec fn is_minor_key(key: Seq<char>, major: int, minor_min: int, minor_max: int) -> bool {
    exists|minor: int| minor_min <= minor <= minor_max && key == #[trigger] minor_key(major, minor)
}

/// Whether `key` is `"major.minor.update"` for a minor and an update in the
/// two ranges.
pub open spec fn is_patch_key(
    key: Seq<char>,
    major: int,
    minor_min: int,
    minor_max: int,
    update_min: int,
    update_max: int,
) -> bool {
    exists|minor: int, update: int|
        minor_min <= minor <= minor_max && update_min <= update <= update_max && key
            == #[trigger] patch_key(major, minor, update)
}

/// One entry for each minor of the range: the key `"major.minor"` maps to
/// itself followed by `tail`.
pub open spec fn minor_entries(major: int, minor_min: int, minor_max: int, tail: Seq<char>) -> Map<
    Seq<char>,
    Seq<char>,
> {
    Map::new(
        |key: Seq<char>| is_minor_key(key, major, minor_min, minor_max),
        |key: Seq<char>| key + tail,
    )
}

/// One entry for each minor and update of the two ranges: the key
/// `"major.minor.update"` maps to itself followed by `suffix`.
pub open spec fn patch_entries(
    major: int,
    minor_min: int,
    minor_max: int,
    update_min: int,
    update_max: int,
    suffix: Seq<char>,
) -> Map<Seq<char>, Seq<char>> {
    Map::new(
        |key: Seq<char>| is_patch_key(key, major, minor_min, minor_max, update_min, update_max),
        |key: Seq<char>| key + suffix,
    )
}

/// The range of updates that a pair of optional bounds stands for. Without a
/// lower bound the engine has no updates, whatever the upper bound is.
pub open spec fn update_range(update_min: Option<i32>, update_max: Option<i32>) -> Option<
    (int, int),
> {
    match (update_min, update_max) {
        (Some(low), Some(high)) => Some((low as int, high as int)),
        _ => None,
    }
}

/// The suffix that an optional text stands for: nothing where it is absent.
pub open spec fn suffix_text(suffix_version: Option<String>) -> Seq<char> {
    match suffix_version {
        Some(suffix) => suffix@,
        None => Seq::empty(),
    }
}

/// The catalog that a range of versions of one major line expands to.
///
/// With updates, every `"major.minor.update"` of the two ranges maps to itself
/// with the suffix, every `"major.minor"` to the last update of that minor, and
/// `"major"` to the last update of the last minor. Without updates, every
/// `"major.minor"` maps to itself with the suffix and `"major"` to the last
/// minor.
pub open spec fn generated_versions(
    major: int,
    minor_min: int,
    minor_max: int,
    updates: Option<(int, int)>,
    suffix: Seq<char>,
) -> Map<Seq<char>, Seq<char>> {
    match updates {
        Some((update_min, update_max)) => {
            let tail = seq!['.'] + decimal(update_max) + suffix;
            minor_entries(major, minor_min, minor_max, tail).union_prefer_right(
                patch_entries(major, minor_min, minor_max, update_min, update_max, suffix),
            ).insert(decimal(major), minor_key(major, minor_max) + tail)
        },
        None => minor_entries(major, minor_min, minor_max, suffix).insert(
            decimal(major),
            minor_key(major, minor_max) + suffix,
        ),
    }
}

fn minor_key_text(major: i32, minor: i32) -> (key: String)
    ensures
        key@ == minor_key(major as int, minor as int),
{
    let mut key = number_to_string(major);
    proof {
        reveal_strlit(".");
    }
    key.append(".");
    let minor_text = number_to_string(minor);
    key.append(minor_text.as_str());
    assert(key@ =~= minor_key(major as int, minor as int));
    key
}

fn insert_minor_versions(
    versions: &mut SupportedVersions,
    major: i32,
    minor_min: i32,
    minor_max: i32,
    tail: &str,
)
    ensures
        final(versions)@ == old(versions)@.union_prefer_right(
            minor_entries(major as int, minor_min as int, minor_max as int, tail@),
        ),
{
    let mut minor: i64 = minor_min as i64;
    assert(versions@ =~= old(versions)@.union_prefer_right(
        minor_entries(major as int, minor_min as int, minor - 1, tail@),
    ));
    while minor <= minor_max as i64
        invariant
            minor_min <= minor <= minor_max + 1 || minor_min > minor_max && minor == minor_min,
            versions@ == old(versions)@.union_prefer_right(
                minor_entries(major as int, minor_min as int, minor - 1, tail@),
            ),
        decreases minor_max - minor + 1,
    {
        let key = minor_key_text(major, minor as i32);
        let version = joined(key.as_str(), tail);
        versions.insert(key, version);
        minor = minor + 1;
        assert(versions@ =~= old(versions)@.union_prefer_right(
            minor_entries(major as int, minor_min as int, minor - 1, tail@),
        ));
    }
    assert(versions@ =~= old(versions)@.union_prefer_right(
        minor_entries(major as int, minor_min as int, minor_max as int, tail@),
    ));
}

fn insert_patch_versions(
    versions: &mut SupportedVersions,
    major: i32,
    minor: i32,
    update_min: i32,
    update_max: i32,
    suffix: &str,
)
    ensures
        final(versions)@ == old(versions)@.union_prefer_right(
            patch_entries(
                major as int,
                minor as int,
                minor as int,
                update_min as int,
                update_max as int,
                suffix@,
            ),
        ),
{
    let mut prefix = minor_key_text(major, minor);
    proof {
        reveal_strlit(".");
    }
    prefix.append(".");
    let mut update: i64 = update_min as i64;
    assert(versions@ =~= old(versions)@.union_prefer_right(
        patch_entries(
            major as int,
            minor as int,
            minor as int,
            update_min as int,
            update - 1,
            suffix@,
        ),
    ));
    while update <= update_max as i64
        invariant
            update_min <= update <= update_max + 1 || update_min > update_max && update
                == update_min,
            prefix@ == minor_key(major as int, minor as int) + seq!['.'],
            versions@ == old(versions)@.union_prefer_right(
                patch_entries(
                    major as int,
                    minor as int,
                    minor as int,
                    update_min as int,
                    update - 1,
                    suffix@,
                ),
            ),
        decreases update_max - update + 1,
    {
        let update_text = number_to_string(update as i32);
        let key = joined(prefix.as_str(), update_text.as_str());
        assert(key@ == patch_key(major as int, minor as int, update as int));
        let version = joined(key.as_str(), suffix);
        versions.insert(key, version);
        update = update + 1;
        assert(versions@ =~= old(versions)@.union_prefer_right(
            patch_entries(
                major as int,
                minor as int,
                minor as int,
                update_min as int,
                update - 1,
                suffix@,
            ),
        ));
    }
    assert(versions@ =~= old(versions)@.union_prefer_right(
        patch_entries(
            major as int,
            minor as int,
            minor as int,
            update_min as int,
            update_max as int,
            suffix@,
        ),
    ));
}

/// Expands a range of versions of one major line into a catalog.
///
/// The minors run from `minor_min` to `minor_max`. Where `update_min` is
/// given, the engine has updates, which run from `update_min` to `update_max`
/// within every minor; `update_max` must then be given too. `suffix_version`
/// is appended to every concrete version.
pub fn generate_supported_version(
    major: i32,
    minor_min: i32,
    minor_max: i32,
    update_min: Option<i32>,
    update_max: Option<i32>,
    suffix_version: Option<String>,
) -> (versions: SupportedVersions)
    requires
        update_min is Some ==> update_max is Some,
    ensures
        versions@ == generated_versions(
            major as int,
            minor_min as int,
            minor_max as int,
            update_range(update_min, update_max),
            suffix_text(suffix_version),
        ),
{
    let suffix = match suffix_version {
        Some(suffix) => suffix,
        None => String::new(),
    };
    let mut versions = SupportedVersions::new();
    let last_minor = minor_key_text(major, minor_max);
    let latest_major_version = match update_min {
        Some(first_update) => {
            let last_update = update_max.unwrap();
            proof {
                reveal_strlit(".");
            }
            let mut tail = String::from_str(".");
            let last_update_text = number_to_string(last_update);
            tail.append(last_update_text.as_str());
            tail.append(suffix.as_str());
            assert(tail@ =~= seq!['.'] + decimal(last_update as int) + suffix@);
            insert_minor_versions(&mut versions, major, minor_min, minor_max, tail.as_str());
            let ghost short_keys = versions@;
            let mut minor: i64 = minor_min as i64;
            assert(versions@ =~= short_keys.union_prefer_right(
                patch_entries(
                    major as int,
                    minor_min as int,
                    minor - 1,
                    first_update as int,
                    last_update as int,
                    suffix@,
                ),
            ));
            while minor <= minor_max as i64
                invariant
                    minor_min <= minor <= minor_max + 1 || minor_min > minor_max && minor
                        == minor_min,
                    versions@ == short_keys.union_prefer_right(
                        patch_entries(
                            major as int,
                            minor_min as int,
                            minor - 1,
                            first_update as int,
                            last_update as int,
                            suffix@,
                        ),
                    ),
                decreases minor_max - minor + 1,
            {
                insert_patch_versions(
                    &mut versions,
                    major,
                    minor as i32,
                    first_update,
                    last_update,
                    suffix.as_str(),
                );
                minor = minor + 1;
                assert(versions@ =~= short_keys.union_prefer_right(
                    patch_entries(
                        major as int,
                        minor_min as int,
                        minor - 1,
                        first_update as int,
                        last_update as int,
                        suffix@,
                    ),
                ));
            }
            assert(versions@ =~= minor_entries(
                major as int,
                minor_min as int,
                minor_max as int,
                tail@,
            ).union_prefer_right(
                patch_entries(
                    major as int,
                    minor_min as int,
                    minor_max as int,
                    first_update as int,
                    last_update as int,
                    suffix@,
                ),
            ));
            joined(last_minor.as_str(), tail.as_str())
        },
        None => {
            insert_minor_versions(&mut versions, major, minor_min, minor_max, suffix.as_str());
            assert(versions@ =~= minor_entries(
                major as int,
                minor_min as int,
                minor_max as int,
                suffix@,
            ));
            joined(last_minor.as_str(), suffix.as_str())
        },
    };
    versions.insert(number_to_string(major), latest_major_version);
    versions
}

/// A version as a user asks for it, split into its components. Some engines
/// number their versions otherwise than by three integers, so the components
/// are kept as text.
#[derive(Debug, PartialEq, Eq)]
pub struct VersionsNumber {
    pub major: String,
    pub minor: Option<String>,
    pub patch: Option<String>,
}

pub struct VersionsNumberView {
    pub major: Seq<char>,
    pub minor: Option<Seq<char>>,
    pub patch: Option<Seq<char>>,
}

impl View for VersionsNumber {
    type V = VersionsNumberView;

    open spec fn view(&self) -> VersionsNumberView {
        VersionsNumberView {
            major: self.major@,
            minor: crate::error::optional_text(self.minor),
            patch: crate::error::optional_text(self.patch),
        }
    }
}

/// The position of the first `.` of `text`, or its length where it has none.
pub open spec fn first_dot(text: Seq<char>) -> int
    decreases text.len(),
{
    if text.len() == 0 || text[0] == '.' {
        0
    } else {
        1 + first_dot(text.drop_first())
    }
}

/// What stands before the first `.` of `text`: all of it where it has none.
pub open spec fn head_component(text: Seq<char>) -> Seq<char> {
    text.take(first_dot(text))
}

/// What stands behind the first `.` of `text`, if it has one.
pub open spec fn tail_components(text: Seq<char>) -> Option<Seq<char>> {
    if first_dot(text) < text.len() {
        Some(text.skip(first_dot(text) + 1))
    } else {
        None
    }
}

/// The first three components of `text`, as far as it has them. What follows
/// a third `.` is left out.
pub open spec fn parsed_version(text: Seq<char>) -> VersionsNumberView {
    let after_major = tail_components(text);
    let after_minor = match after_major {
        Some(rest) => tail_components(rest),
        None => None,
    };
    VersionsNumberView {
        major: head_component(text),
        minor: match after_major {
            Some(rest) => Some(head_component(rest)),
            None => None,
        },
        patch: match after_minor {
            Some(rest) => Some(head_component(rest)),
            None => None,
        },
    }
}

/// The key under which a request is looked up: as fine as the request is, and
/// no finer.
pub open spec fn lookup_key(version: VersionsNumberView) -> Seq<char> {
    match (version.minor, version.patch) {
        (Some(minor), Some(patch)) => version.major + seq!['.'] + minor + seq!['.'] + patch,
        (Some(minor), None) => version.major + seq!['.'] + minor,
        _ => version.major,
    }
}

/// The sentence that turns an empty request down.
pub open spec fn invalid_version_message() -> Seq<char> {
    "please check the version you've sent, it can't be checked"@
}

/// The sentence that turns down a request which the catalog lacks. It holds
/// the engine's name and the request as they were given.
pub open spec fn unsupported_version_message(
    database_name: Seq<char>,
    requested: Seq<char>,
) -> Seq<char> {
    "this "@ + database_name + " "@ + requested + " version is not supported"@
}

/// The version that a request resolves to, or the error it is turned down
/// with. Only the key of the request's own granularity is looked up.
pub open spec fn resolved_version(
    database_name: Seq<char>,
    versions: Map<Seq<char>, Seq<char>>,
    requested: Seq<char>,
) -> Result<Seq<char>, StringErrorView> {
    if requested.len() == 0 {
        Err(
            StringErrorView {
                kind: StringErrorKind::InvalidVersion,
                message: invalid_version_message(),
            },
        )
    } else if versions.contains_key(lookup_key(parsed_version(requested))) {
        Ok(versions[lookup_key(parsed_version(requested))])
    } else {
        Err(
            StringErrorView {
                kind: StringErrorKind::UnsupportedVersion,
                message: unsupported_version_message(database_name, requested),
            },
        )
    }
}

/// Whether an outcome is the one that the model gives.
pub open spec fn is_resolution(
    outcome: Result<String, StringError>,
    model: Result<Seq<char>, StringErrorView>,
) -> bool {
    match outcome {
        Ok(version) => model == Ok::<Seq<char>, StringErrorView>(version@),
        Err(error) => model == Err::<Seq<char>, StringErrorView>(error@),
    }
}

/// `first_dot` is within the text, nothing before it is a `.`, and a `.`
/// stands at it unless it is the end.
pub proof fn lemma_first_dot(text: Seq<char>)
    ensures
        0 <= first_dot(text) <= text.len(),
        forall|i: int| 0 <= i < first_dot(text) ==> text[i] != '.',
        first_dot(text) < text.len() ==> text[first_dot(text)] == '.',
    decreases text.len(),
{
    if text.len() == 0 || text[0] == '.' {
    } else {
        let rest = text.drop_first();
        lemma_first_dot(rest);
        assert forall|i: int| 0 <= i < first_dot(text) implies text[i] != '.' by {
            if i > 0 {
                assert(text[i] == rest[i - 1]);
            }
        }
        if first_dot(text) < text.len() {
            assert(text[first_dot(text)] == rest[first_dot(rest)]);
        }
    }
}

/// A position with no `.` before it, and with a `.` at it or the end of the
/// text, is `first_dot`.
pub proof fn lemma_first_dot_is(text: Seq<char>, position: int)
    requires
        0 <= position <= text.len(),
        forall|i: int| 0 <= i < position ==> text[i] != '.',
        position < text.len() ==> text[position] == '.',
    ensures
        first_dot(text) == position,
{
    lemma_first_dot(text);
    if first_dot(text) < position {
        assert(text[first_dot(text)] != '.');
    }
}

fn split_first<'a>(text: &'a str) -> (parts: (&'a str, Option<&'a str>))
    ensures
        parts.0@ == head_component(text@),
        match parts.1 {
            Some(rest) => tail_components(text@) == Some(rest@),
            None => tail_components(text@) is None,
        },
{
    let length = text.unicode_len();
    let mut position: usize = 0;
    while position < length && text.get_char(position) != '.'
        invariant
            length == text@.len(),
            position <= length,
            forall|i: int| 0 <= i < position ==> text@[i] != '.',
        decreases length - position,
    {
        position = position + 1;
    }
    proof {
        lemma_first_dot_is(text@, position as int);
    }
    let head = text.substring_char(0, position);
    if position < length {
        (head, Some(text.substring_char(position + 1, length)))
    } else {
        (head, None)
    }
}

/// Splits a request into major, minor and patch, as far as it has them. Only
/// an empty request is turned down.
pub fn get_version_number(version: &str) -> (parsed: Result<VersionsNumber, StringError>)
    ensures
        match parsed {
            Ok(number) => version@.len() > 0 && number@ == parsed_version(version@),
            Err(error) => version@.len() == 0 && error@ == (StringErrorView {
                kind: StringErrorKind::InvalidVersion,
                message: invalid_version_message(),
            }),
        },
{
    if version.unicode_len() == 0 {
        return Err(
            StringError::new(
                StringErrorKind::InvalidVersion,
                String::from_str("please check the version you've sent, it can't be checked"),
            ),
        );
    }
    let (major, after_major) = split_first(version);
    match after_major {
        None => Ok(VersionsNumber { major: String::from_str(major), minor: None, patch: None }),
        Some(rest) => {
            let (minor, after_minor) = split_first(rest);
            let patch = match after_minor {
                None => None,
                Some(rest) => {
                    let (patch, _) = split_first(rest);
                    Some(String::from_str(patch))
                },
            };
            Ok(
                VersionsNumber {
                    major: String::from_str(major),
                    minor: Some(String::from_str(minor)),
                    patch,
                },
            )
        },
    }
}

fn version_key(version: &VersionsNumber) -> (key: String)
    ensures
        key@ == lookup_key(version@),
{
    proof {
        reveal_strlit(".");
    }
    let mut key = version.major.clone();
    match &version.minor {
        Some(minor) => {
            key.append(".");
            key.append(minor.as_str());
            match &version.patch {
                Some(patch) => {
                    key.append(".");
                    key.append(patch.as_str());
                },
                None => {},
            }
        },
        None => {},
    }
    assert(key@ =~= lookup_key(version@));
    key
}

/// Resolves a request against a catalog.
///
/// The request is looked up under the key of its own granularity: as
/// `"major.minor.patch"` where it names a patch, as `"major.minor"` where it
/// names a minor, else as `"major"`. A request without an entry under that
/// key is unsupported, whatever the catalog holds under coarser or finer keys.
pub fn get_supported_version_to_use(
    database_name: &str,
    all_supported_versions: SupportedVersions,
    version_to_check: &str,
) -> (resolved: Result<String, StringError>)
    ensures
        is_resolution(
            resolved,
            resolved_version(database_name@, all_supported_versions@, version_to_check@),
        ),
{
    let version = match get_version_number(version_to_check) {
        Ok(version) => version,
        Err(error) => {
            return Err(error);
        },
    };
    let key = version_key(&version);
    match all_supported_versions.get(key.as_str()) {
        Some(supported) => Ok(supported.clone()),
        None => {
            let mut message = String::from_str("this ");
            message.append(database_name);
            message.append(" ");
            message.append(version_to_check);
            message.append(" version is not supported");
            Err(StringError::new(StringErrorKind::UnsupportedVersion, message))
        },
    }
}

/// The catalog of PostgreSQL run in the cluster.
pub open spec fn self_hosted_postgres_versions() -> Map<Seq<char>, Seq<char>> {
    generated_versions(10, 1, 14, Some((0int, 0int)), Seq::empty()).union_prefer_right(
        generated_versions(11, 1, 9, Some((0int, 0int)), Seq::empty()),
    ).union_prefer_right(generated_versions(12, 2, 4, Some((0int, 0int)), Seq::empty()))
}

/// The catalog of MySQL run in the cluster.
pub open spec fn self_hosted_mysql_versions() -> Map<Seq<char>, Seq<char>> {
    generated_versions(5, 7, 7, Some((16int, 31int)), Seq::empty()).union_prefer_right(
        generated_versions(8, 0, 0, Some((11int, 21int)), Seq::empty()),
    )
}

/// The catalog of MongoDB run in the cluster.
pub open spec fn self_hosted_mongodb_versions() -> Map<Seq<char>, Seq<char>> {
    generated_versions(3, 6, 6, Some((0int, 21int)), Seq::empty()).union_prefer_right(
        generated_versions(4, 0, 0, Some((0int, 21int)), Seq::empty()),
    ).union_prefer_right(
        generated_versions(4, 2, 2, Some((0int, 11int)), Seq::empty()),
    ).union_prefer_right(generated_versions(4, 4, 4, Some((0int, 2int)), Seq::empty()))
}

/// The catalog of Redis run in the cluster: two major lines, each with one
/// minor and one patch.
pub open spec fn self_hosted_redis_versions() -> Map<Seq<char>, Seq<char>> {
    Map::<Seq<char>, Seq<char>>::empty().insert("6"@, "6.0.9"@).insert("6.0"@, "6.0.9"@).insert(
        "6.0.9"@,
        "6.0.9"@,
    ).insert("5"@, "5.0.10"@).insert("5.0"@, "5.0.10"@).insert("5.0.10"@, "5.0.10"@)
}

/// Resolves a request for PostgreSQL run in the cluster. A version that it
/// resolves to has the components that the request names.
pub fn get_self_hosted_postgres_version(requested_version: &str) -> (resolved: Result<
    String,
    StringError,
>)
    ensures
        is_resolution(
            resolved,
            resolved_version("Postgresql"@, self_hosted_postgres_versions(), requested_version@),
        ),
        resolved matches Ok(version) ==> matches_request(requested_version@, version@),
{
    let mut supported_postgres_versions = SupportedVersions::new();
    let v10 = generate_supported_version(10, 1, 14, Some(0), Some(0), None);
    supported_postgres_versions.extend(v10);
    let v11 = generate_supported_version(11, 1, 9, Some(0), Some(0), None);
    supported_postgres_versions.extend(v11);
    let v12 = generate_supported_version(12, 2, 4, Some(0), Some(0), None);
    supported_postgres_versions.extend(v12);
    assert(supported_postgres_versions@ =~= self_hosted_postgres_versions());
    proof {
        lemma_self_hosted_versions_extend_keys();
        if resolved_version("Postgresql"@, self_hosted_postgres_versions(), requested_version@) is Ok {
            lemma_resolved_version_matches_request(
                "Postgresql"@,
                self_hosted_postgres_versions(),
                requested_version@,
            );
        }
    }
    get_supported_version_to_use("Postgresql", supported_postgres_versions, requested_version)
}

/// Resolves a request for MySQL run in the cluster. A version that it
/// resolves to has the components that the request names.
pub fn get_self_hosted_mysql_version(requested_version: &str) -> (resolved: Result<
    String,
    StringError,
>)
    ensures
        is_resolution(
            resolved,
            resolved_version("MySQL"@, self_hosted_mysql_versions(), requested_version@),
        ),
        resolved matches Ok(version) ==> matches_request(requested_version@, version@),
{
    let mut supported_mysql_versions = SupportedVersions::new();
    let v57 = generate_supported_version(5, 7, 7, Some(16), Some(31), None);
    supported_mysql_versions.extend(v57);
    let v8 = generate_supported_version(8, 0, 0, Some(11), Some(21), None);
    supported_mysql_versions.extend(v8);
    assert(supported_mysql_versions@ =~= self_hosted_mysql_versions());
    proof {
        lemma_self_hosted_versions_extend_keys();
        if resolved_version("MySQL"@, self_hosted_mysql_versions(), requested_version@) is Ok {
            lemma_resolved_version_matches_request(
                "MySQL"@,
                self_hosted_mysql_versions(),
                requested_version@,
            );
        }
    }
    get_supported_version_to_use("MySQL", supported_mysql_versions, requested_version)
}

/// Resolves a request for MongoDB run in the cluster. A version that it
/// resolves to has the components that the request names.
pub fn get_self_hosted_mongodb_version(requested_version: &str) -> (resolved: Result<
    String,
    StringError,
>)
    ensures
        is_resolution(
            resolved,
            resolved_version("MongoDB"@, self_hosted_mongodb_versions(), requested_version@),
        ),
        resolved matches Ok(version) ==> matches_request(requested_version@, version@),
{
    let mut supported_mongodb_versions = SupportedVersions::new();
    let v36 = generate_supported_version(3, 6, 6, Some(0), Some(21), None);
    supported_mongodb_versions.extend(v36);
    let v40 = generate_supported_version(4, 0, 0, Some(0), Some(21), None);
    supported_mongodb_versions.extend(v40);
    let v42 = generate_supported_version(4, 2, 2, Some(0), Some(11), None);
    supported_mongodb_versions.extend(v42);
    let v44 = generate_supported_version(4, 4, 4, Some(0), Some(2), None);
    supported_mongodb_versions.extend(v44);
    assert(supported_mongodb_versions@ =~= self_hosted_mongodb_versions());
    proof {
        lemma_self_hosted_versions_extend_keys();
        if resolved_version("MongoDB"@, self_hosted_mongodb_versions(), requested_version@) is Ok {
            lemma_resolved_version_matches_request(
                "MongoDB"@,
                self_hosted_mongodb_versions(),
                requested_version@,
            );
        }
    }
    get_supported_version_to_use("MongoDB", supported_mongodb_versions, requested_version)
}

/// Resolves a request for Redis run in the cluster. A version that it
/// resolves to has the components that the request names.
pub fn get_self_hosted_redis_version(requested_version: &str) -> (resolved: Result<
    String,
    StringError,
>)
    ensures
        is_resolution(
            resolved,
            resolved_version("Redis"@, self_hosted_redis_versions(), requested_version@),
        ),
        resolved matches Ok(version) ==> matches_request(requested_version@, version@),
{
    let mut supported_redis_versions = SupportedVersions::new();
    supported_redis_versions.insert(String::from_str("6"), String::from_str("6.0.9"));
    supported_redis_versions.insert(String::from_str("6.0"), String::from_str("6.0.9"));
    supported_redis_versions.insert(String::from_str("6.0.9"), String::from_str("6.0.9"));
    supported_redis_versions.insert(String::from_str("5"), String::from_str("5.0.10"));
    supported_redis_versions.insert(String::from_str("5.0"), String::from_str("5.0.10"));
    supported_redis_versions.insert(String::from_str("5.0.10"), String::from_str("5.0.10"));
    proof {
        lemma_self_hosted_versions_extend_keys();
        if resolved_version("Redis"@, self_hosted_redis_versions(), requested_version@) is Ok {
            lemma_resolved_version_matches_request(
                "Redis"@,
                self_hosted_redis_versions(),
                requested_version@,
            );
        }
    }
    get_supported_version_to_use("Redis", supported_redis_versions, requested_version)
}

} // verus!
