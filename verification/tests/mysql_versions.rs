use qovery_engine::cloud_provider::aws::databases::mysql::get_mysql_version;

#[test]
fn check_mysql_version() {
    // managed version
    assert_eq!(get_mysql_version("8", true).unwrap(), "8.0.21");
    assert_eq!(get_mysql_version("8.0", true).unwrap(), "8.0.21");
    assert_eq!(get_mysql_version("8.0.16", true).unwrap(), "8.0.16");
    assert_eq!(
        get_mysql_version("8.0.18", true)
            .unwrap_err()
            .message
            .as_str(),
        "this RDS MySQL 8.0.18 version is not supported"
    );
    // self-hosted version
    assert_eq!(get_mysql_version("5", false).unwrap(), "5.7.31");
    assert_eq!(get_mysql_version("5.7", false).unwrap(), "5.7.31");
    assert_eq!(get_mysql_version("5.7.31", false).unwrap(), "5.7.31");
    assert_eq!(
        get_mysql_version("1.0", false)
            .unwrap_err()
            .message
            .as_str(),
        "this MySQL 1.0 version is not supported"
    );
}

#[test]
fn managed_catalog_leaves_out_what_the_provider_does_not_offer() {
    for removed in [
        "5.6.47", "5.6.45", "5.6.42", "5.6.38", "5.6.36", "5.7.29", "5.7.27", "5.7.20", "5.7.18",
        "8.0.18", "8.0.14", "8.0.12",
    ] {
        let error = get_mysql_version(removed, true).unwrap_err();
        assert_eq!(error.message, format!("this RDS MySQL {} version is not supported", removed));
        assert_eq!(get_mysql_version(removed, false).unwrap(), removed);
    }
    assert_eq!(get_mysql_version("5.6", true).unwrap(), "5.6.49");
    assert_eq!(get_mysql_version("5.7", true).unwrap(), "5.7.31");
    assert_eq!(get_mysql_version("5", true).unwrap(), "5.7.31");
    assert_eq!(get_mysql_version("5.6.34", true).unwrap(), "5.6.34");
    assert_eq!(get_mysql_version("5.6", false).unwrap(), "5.6.49");
}

#[test]
fn resolved_version_keeps_the_components_of_the_request() {
    for managed in [true, false] {
        for requested in ["5", "5.6", "5.7", "5.6.40", "5.7.16", "8", "8.0", "8.0.21", "8.0.11"] {
            let resolved = get_mysql_version(requested, managed).unwrap();
            let asked: Vec<&str> = requested.split('.').collect();
            let got: Vec<&str> = resolved.split('.').collect();
            assert!(got.len() >= asked.len());
            assert_eq!(&got[..asked.len()], &asked[..]);
        }
    }
}

#[test]
fn mysql_version_that_a_request_resolves_to_resolves_to_itself() {
    for managed in [true, false] {
        for requested in ["5", "5.6", "5.7", "8", "8.0", "5.6.34", "5.7.31", "8.0.11"] {
            let version = get_mysql_version(requested, managed).unwrap();
            assert_eq!(get_mysql_version(&version, managed).unwrap(), version);
        }
    }
}
