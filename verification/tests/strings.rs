use qovery_engine::cloud_provider::aws::databases::utilities::{
    get_tfstate_name, get_tfstate_suffix,
};
use qovery_engine::string::{cut, joined, number_to_string, unsigned_to_string};

#[test]
fn cut_keeps_short_texts_whole() {
    assert_eq!(cut("hello".to_string(), 50), "hello");
    assert_eq!(cut("hello".to_string(), 5), "hello");
    assert_eq!(cut(String::new(), 0), "");
}

#[test]
fn cut_keeps_the_first_characters_of_long_texts() {
    assert_eq!(cut("hello".to_string(), 4), "hell");
    assert_eq!(cut("hello".to_string(), 0), "");
    assert_eq!(cut("héllo wörld".to_string(), 3), "hél");
    assert_eq!(cut("x".repeat(120), 50), "x".repeat(50));
}

#[test]
fn numbers_are_written_as_std_writes_them() {
    for value in [0, 1, 9, 10, 11, 99, 100, 101, 2021, 65535, i32::MAX, -1, -9, -10, -305, i32::MIN] {
        assert_eq!(number_to_string(value), value.to_string());
    }
    for value in [0u32, 7, 10, 3600, 4294967295] {
        assert_eq!(unsigned_to_string(value), value.to_string());
    }
}

#[test]
fn joined_puts_one_text_behind_the_other() {
    assert_eq!(joined("mysql-", "abc"), "mysql-abc");
    assert_eq!(joined("", ""), "");
}

#[test]
fn state_names_are_made_of_the_service_id() {
    assert_eq!(get_tfstate_suffix("db1"), "db1");
    assert_eq!(get_tfstate_name("db1"), "tfstate-default-db1");
    assert_eq!(get_tfstate_name(""), "tfstate-default-");
}
