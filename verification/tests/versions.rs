use qovery_engine::cloud_provider::utilities::{
    generate_supported_version, get_self_hosted_mongodb_version, get_self_hosted_mysql_version,
    get_self_hosted_postgres_version, get_self_hosted_redis_version, get_supported_version_to_use,
    get_version_number, SupportedVersions,
};
use qovery_engine::error::StringErrorKind;

fn entry(versions: &SupportedVersions, key: &str) -> Option<String> {
    versions.get(key).cloned()
}

#[test]
fn range_with_updates_holds_every_granularity() {
    let versions = generate_supported_version(5, 6, 7, Some(3), Some(5), None);
    for minor in 6..=7 {
        for update in 3..=5 {
            let key = format!("5.{}.{}", minor, update);
            assert_eq!(entry(&versions, &key), Some(key.clone()));
        }
        assert_eq!(entry(&versions, &format!("5.{}", minor)), Some(format!("5.{}.5", minor)));
    }
    assert_eq!(entry(&versions, "5"), Some("5.7.5".to_string()));
    assert_eq!(entry(&versions, "5.6.2"), None);
    assert_eq!(entry(&versions, "5.6.6"), None);
    assert_eq!(entry(&versions, "5.5"), None);
    assert_eq!(entry(&versions, "5.8"), None);
    assert_eq!(entry(&versions, "6"), None);
}

#[test]
fn range_without_updates_stops_at_the_minor() {
    let versions = generate_supported_version(6, 0, 2, None, None, None);
    assert_eq!(entry(&versions, "6"), Some("6.2".to_string()));
    assert_eq!(entry(&versions, "6.0"), Some("6.0".to_string()));
    assert_eq!(entry(&versions, "6.1"), Some("6.1".to_string()));
    assert_eq!(entry(&versions, "6.2"), Some("6.2".to_string()));
    assert_eq!(entry(&versions, "6.3"), None);
    assert_eq!(entry(&versions, "6.0.0"), None);
}

#[test]
fn upper_bound_without_lower_bound_means_no_updates() {
    let versions = generate_supported_version(6, 0, 1, None, Some(4), None);
    assert_eq!(entry(&versions, "6"), Some("6.1".to_string()));
    assert_eq!(entry(&versions, "6.1"), Some("6.1".to_string()));
    assert_eq!(entry(&versions, "6.1.4"), None);
}

#[test]
fn suffix_is_appended_to_every_version_and_to_no_key() {
    let versions =
        generate_supported_version(10, 1, 2, Some(0), Some(1), Some("-debian".to_string()));
    assert_eq!(entry(&versions, "10"), Some("10.2.1-debian".to_string()));
    assert_eq!(entry(&versions, "10.1"), Some("10.1.1-debian".to_string()));
    assert_eq!(entry(&versions, "10.2"), Some("10.2.1-debian".to_string()));
    assert_eq!(entry(&versions, "10.1.0"), Some("10.1.0-debian".to_string()));
    assert_eq!(entry(&versions, "10.1.0-debian"), None);
    let coarse = generate_supported_version(6, 0, 0, None, None, Some(".x".to_string()));
    assert_eq!(entry(&coarse, "6"), Some("6.0.x".to_string()));
    assert_eq!(entry(&coarse, "6.0"), Some("6.0.x".to_string()));
}

#[test]
fn empty_ranges_leave_only_the_coarser_keys() {
    let no_minor = generate_supported_version(3, 5, 4, Some(0), Some(1), None);
    assert_eq!(entry(&no_minor, "3"), Some("3.4.1".to_string()));
    assert_eq!(entry(&no_minor, "3.4"), None);
    assert_eq!(entry(&no_minor, "3.5"), None);
    let no_update = generate_supported_version(3, 4, 4, Some(2), Some(1), None);
    assert_eq!(entry(&no_update, "3"), Some("3.4.1".to_string()));
    assert_eq!(entry(&no_update, "3.4"), Some("3.4.1".to_string()));
    assert_eq!(entry(&no_update, "3.4.1"), None);
    assert_eq!(entry(&no_update, "3.4.2"), None);
}

#[test]
fn negative_and_extreme_numbers_are_written_in_decimal() {
    let versions = generate_supported_version(-1, i32::MAX, i32::MAX, Some(i32::MIN), Some(i32::MIN), None);
    assert_eq!(
        entry(&versions, "-1.2147483647.-2147483648"),
        Some("-1.2147483647.-2147483648".to_string())
    );
    assert_eq!(entry(&versions, "-1"), Some("-1.2147483647.-2147483648".to_string()));
}

#[test]
fn removed_update_is_unsupported_and_coarser_keys_still_resolve() {
    let build = || {
        let mut versions = generate_supported_version(5, 6, 6, Some(34), Some(49), None);
        versions.remove("5.6.47");
        versions
    };
    let missing = get_supported_version_to_use("MySQL", build(), "5.6.47").unwrap_err();
    assert_eq!(missing.kind, StringErrorKind::UnsupportedVersion);
    assert_eq!(missing.message, "this MySQL 5.6.47 version is not supported");
    assert_eq!(get_supported_version_to_use("MySQL", build(), "5.6").unwrap(), "5.6.49");
    assert_eq!(get_supported_version_to_use("MySQL", build(), "5").unwrap(), "5.6.49");
    assert_eq!(get_supported_version_to_use("MySQL", build(), "5.6.49").unwrap(), "5.6.49");
    assert_eq!(get_supported_version_to_use("MySQL", build(), "5.6.46").unwrap(), "5.6.46");
}

#[test]
fn resolution_is_the_same_every_time() {
    for requested in ["8", "8.0", "8.0.21", "8.0.99", "", "9", "8.x"] {
        let first = get_self_hosted_mysql_version(requested);
        let second = get_self_hosted_mysql_version(requested);
        assert_eq!(first, second);
    }
}

#[test]
fn resolution_never_falls_back_to_another_granularity() {
    let mut versions = SupportedVersions::new();
    versions.insert("7.1.3".to_string(), "7.1.3".to_string());
    let only_patch = |requested: &str| {
        let mut copy = SupportedVersions::new();
        copy.insert("7.1.3".to_string(), "7.1.3".to_string());
        get_supported_version_to_use("Engine", copy, requested)
    };
    assert!(versions.contains_key("7.1.3"));
    assert_eq!(only_patch("7.1.3").unwrap(), "7.1.3");
    assert_eq!(
        only_patch("7.1").unwrap_err().message,
        "this Engine 7.1 version is not supported"
    );
    assert_eq!(only_patch("7").unwrap_err().message, "this Engine 7 version is not supported");
    let only_major = |requested: &str| {
        let mut copy = SupportedVersions::new();
        copy.insert("7".to_string(), "7.1.3".to_string());
        get_supported_version_to_use("Engine", copy, requested)
    };
    assert_eq!(only_major("7").unwrap(), "7.1.3");
    assert!(only_major("7.1").is_err());
    assert!(only_major("7.1.3").is_err());
}

#[test]
fn empty_request_is_invalid() {
    let error = get_version_number("").err().unwrap();
    assert_eq!(error.kind, StringErrorKind::InvalidVersion);
    assert_eq!(error.message, "please check the version you've sent, it can't be checked");
    let resolved = get_self_hosted_redis_version("").unwrap_err();
    assert_eq!(resolved.kind, StringErrorKind::InvalidVersion);
    assert_eq!(resolved.message, "please check the version you've sent, it can't be checked");
}

#[test]
fn request_is_split_at_its_dots() {
    let major = get_version_number("8").ok().unwrap();
    assert_eq!((major.major.as_str(), major.minor, major.patch), ("8", None, None));
    let minor = get_version_number("8.0").ok().unwrap();
    assert_eq!(
        (minor.major.as_str(), minor.minor.as_deref(), minor.patch),
        ("8", Some("0"), None)
    );
    let patch = get_version_number("8.0.21").ok().unwrap();
    assert_eq!(
        (patch.major.as_str(), patch.minor.as_deref(), patch.patch.as_deref()),
        ("8", Some("0"), Some("21"))
    );
    let longer = get_version_number("8.0.21.4.5").ok().unwrap();
    assert_eq!(
        (longer.major.as_str(), longer.minor.as_deref(), longer.patch.as_deref()),
        ("8", Some("0"), Some("21"))
    );
    let odd = get_version_number("6.x").ok().unwrap();
    assert_eq!((odd.major.as_str(), odd.minor.as_deref(), odd.patch), ("6", Some("x"), None));
    let dots = get_version_number("..").ok().unwrap();
    assert_eq!(
        (dots.major.as_str(), dots.minor.as_deref(), dots.patch.as_deref()),
        ("", Some(""), Some(""))
    );
    let trailing = get_version_number("8.").ok().unwrap();
    assert_eq!(
        (trailing.major.as_str(), trailing.minor.as_deref(), trailing.patch),
        ("8", Some(""), None)
    );
}

#[test]
fn what_follows_the_patch_is_not_looked_up() {
    assert_eq!(get_self_hosted_mysql_version("8.0.21.7").unwrap(), "8.0.21");
}

#[test]
fn postgres_catalog() {
    assert_eq!(get_self_hosted_postgres_version("12").unwrap(), "12.4.0");
    assert_eq!(get_self_hosted_postgres_version("11").unwrap(), "11.9.0");
    assert_eq!(get_self_hosted_postgres_version("10").unwrap(), "10.14.0");
    assert_eq!(get_self_hosted_postgres_version("10.1").unwrap(), "10.1.0");
    assert_eq!(get_self_hosted_postgres_version("12.2.0").unwrap(), "12.2.0");
    assert_eq!(
        get_self_hosted_postgres_version("12.1").unwrap_err().message,
        "this Postgresql 12.1 version is not supported"
    );
    assert_eq!(
        get_self_hosted_postgres_version("12.4.1").unwrap_err().message,
        "this Postgresql 12.4.1 version is not supported"
    );
}

#[test]
fn mysql_self_hosted_catalog() {
    assert_eq!(get_self_hosted_mysql_version("5").unwrap(), "5.7.31");
    assert_eq!(get_self_hosted_mysql_version("5.7.16").unwrap(), "5.7.16");
    assert_eq!(get_self_hosted_mysql_version("8").unwrap(), "8.0.21");
    assert_eq!(get_self_hosted_mysql_version("8.0.11").unwrap(), "8.0.11");
    assert_eq!(
        get_self_hosted_mysql_version("5.6").unwrap_err().message,
        "this MySQL 5.6 version is not supported"
    );
    assert_eq!(
        get_self_hosted_mysql_version("8.0.10").unwrap_err().message,
        "this MySQL 8.0.10 version is not supported"
    );
}

#[test]
fn mongodb_catalog() {
    assert_eq!(get_self_hosted_mongodb_version("3").unwrap(), "3.6.21");
    assert_eq!(get_self_hosted_mongodb_version("4").unwrap(), "4.4.2");
    assert_eq!(get_self_hosted_mongodb_version("4.0").unwrap(), "4.0.21");
    assert_eq!(get_self_hosted_mongodb_version("4.2").unwrap(), "4.2.11");
    assert_eq!(get_self_hosted_mongodb_version("4.4.0").unwrap(), "4.4.0");
    assert_eq!(
        get_self_hosted_mongodb_version("4.4.3").unwrap_err().message,
        "this MongoDB 4.4.3 version is not supported"
    );
    assert_eq!(
        get_self_hosted_mongodb_version("4.1").unwrap_err().message,
        "this MongoDB 4.1 version is not supported"
    );
}

#[test]
fn redis_catalog() {
    assert_eq!(get_self_hosted_redis_version("6").unwrap(), "6.0.9");
    assert_eq!(get_self_hosted_redis_version("6.0").unwrap(), "6.0.9");
    assert_eq!(get_self_hosted_redis_version("5").unwrap(), "5.0.10");
    assert_eq!(get_self_hosted_redis_version("5.0").unwrap(), "5.0.10");
    assert_eq!(get_self_hosted_redis_version("6.0.9").unwrap(), "6.0.9");
    assert_eq!(get_self_hosted_redis_version("5.0.10").unwrap(), "5.0.10");
    assert_eq!(
        get_self_hosted_redis_version("6.0.8").unwrap_err().message,
        "this Redis 6.0.8 version is not supported"
    );
    assert_eq!(
        get_self_hosted_redis_version("5.1").unwrap_err().message,
        "this Redis 5.1 version is not supported"
    );
    assert_eq!(
        get_self_hosted_redis_version("4").unwrap_err().message,
        "this Redis 4 version is not supported"
    );
}

#[test]
fn catalogs_merge_with_the_later_entry_winning() {
    let mut merged = SupportedVersions::new();
    merged.extend(generate_supported_version(5, 6, 6, Some(1), Some(2), None));
    merged.extend(generate_supported_version(5, 7, 7, Some(1), Some(3), None));
    assert_eq!(entry(&merged, "5"), Some("5.7.3".to_string()));
    assert_eq!(entry(&merged, "5.6"), Some("5.6.2".to_string()));
    assert_eq!(entry(&merged, "5.7"), Some("5.7.3".to_string()));
    assert_eq!(entry(&merged, "5.6.1"), Some("5.6.1".to_string()));
}

#[test]
fn version_that_a_request_resolves_to_resolves_to_itself() {
    let requests = [
        "3", "4", "5", "6", "8", "10", "11", "12", "3.6", "4.0", "4.2", "4.4", "5.0", "5.7",
        "6.0", "8.0", "10.1", "10.14", "11.9", "12.2", "12.4", "3.6.0", "4.4.2", "5.7.16",
        "5.0.10", "6.0.9", "8.0.21", "12.4.0",
    ];
    let resolvers: [fn(&str) -> Result<String, qovery_engine::error::StringError>; 4] = [
        get_self_hosted_postgres_version,
        get_self_hosted_mysql_version,
        get_self_hosted_mongodb_version,
        get_self_hosted_redis_version,
    ];
    let mut resolved = 0;
    for resolver in resolvers {
        for requested in requests {
            if let Ok(version) = resolver(requested) {
                assert_eq!(resolver(&version), Ok(version.clone()));
                resolved += 1;
            }
        }
    }
    assert_eq!(resolved, 9 + 6 + 8 + 6);
}

#[test]
fn removing_the_last_update_leaves_the_coarser_keys_pointing_at_it() {
    let build = || {
        let mut versions = generate_supported_version(5, 6, 6, Some(34), Some(49), None);
        versions.remove("5.6.49");
        versions
    };
    let missing = get_supported_version_to_use("MySQL", build(), "5.6.49").unwrap_err();
    assert_eq!(missing.kind, StringErrorKind::UnsupportedVersion);
    assert_eq!(missing.message, "this MySQL 5.6.49 version is not supported");
    assert_eq!(get_supported_version_to_use("MySQL", build(), "5.6").unwrap(), "5.6.49");
    assert_eq!(get_supported_version_to_use("MySQL", build(), "5").unwrap(), "5.6.49");
}

#[test]
fn catalog_counts_its_entries() {
    let mut versions = SupportedVersions::new();
    assert!(versions.is_empty());
    assert_eq!(versions.len(), 0);
    versions.insert("7".to_string(), "7.1.3".to_string());
    assert!(!versions.is_empty());
    assert_eq!(versions.len(), 1);
    versions.insert("7".to_string(), "7.1.4".to_string());
    assert_eq!(versions.len(), 1);
    versions.insert("7.1".to_string(), "7.1.4".to_string());
    assert_eq!(versions.len(), 2);
    versions.remove("7");
    versions.remove("8");
    assert_eq!(versions.len(), 1);
    versions.remove("7.1");
    assert!(versions.is_empty());
    assert_eq!(generate_supported_version(5, 6, 7, Some(3), Some(5), None).len(), 2 * 3 + 2 + 1);
    assert_eq!(generate_supported_version(6, 0, 2, None, None, None).len(), 3 + 1);
    assert_eq!(generate_supported_version(3, 5, 4, Some(0), Some(1), None).len(), 1);
}
