use arrow_test_util::locator::LocatorError;
use arrow_test_util::locator::resolution_succeeds;
use arrow_test_util::locator::try_arrow_test_data;
use arrow_test_util::locator::try_parquet_test_data;
use arrow_test_util::arrow_test_data;
use arrow_test_util::parquet_test_data;
use arrow_test_util::random_bytes;
use arrow_test_util::resolve_dir;
use arrow_test_util::BadIterator;

#[test]
fn test_happy() {
    let res = arrow_test_data(None, "/pkg", false, true);
    assert_eq!(res, "/pkg/../testing/data");

    let res = parquet_test_data(None, "/pkg", false, true);
    assert_eq!(res, "/pkg/../parquet-testing/data");
}

#[test]
fn test_data_dir() {
    let udf_env = "get_data_dir";
    let root = "/repo";
    let existing = "/repo/..";
    let non_existing = "/repo/non-existing-dir";

    // variable set to a non-existing dir: fails, whatever the fallback
    let res = resolve_dir(udf_env, Some(non_existing.to_string()), root, "..", false, true);
    assert!(res.is_err());

    // variable empty: the existing fallback wins
    let res = resolve_dir(udf_env, Some(String::new()), root, "..", false, true);
    assert!(res.is_ok());
    assert_eq!(res.unwrap(), existing);

    // variable blank: the existing fallback wins
    let res = resolve_dir(udf_env, Some(" ".to_string()), root, "..", false, true);
    assert!(res.is_ok());
    assert_eq!(res.unwrap(), existing);

    // variable set to an existing dir: that dir wins
    let res = resolve_dir(udf_env, Some(existing.to_string()), root, "..", true, true);
    assert!(res.is_ok());
    assert_eq!(res.unwrap(), existing);

    // variable unset and fallback missing: fails
    let res = resolve_dir(udf_env, None, root, "non-existing-dir", false, false);
    assert!(res.is_err());

    // variable unset and fallback existing: the fallback wins
    let res = resolve_dir(udf_env, None, root, "..", false, true);
    assert!(res.is_ok());
    assert_eq!(res.unwrap(), existing);
}

#[test]
fn resolve_dir_override_wins_over_valid_fallback() {
    let r = resolve_dir(
        "DATA_DIR",
        Some("/data/fixtures".to_string()),
        "/pkg",
        "testing/data",
        true,
        true,
    );
    assert_eq!(r, Ok("/data/fixtures".to_string()));
}

#[test]
fn resolve_dir_trims_the_override() {
    let r = resolve_dir(
        "DATA_DIR",
        Some("  /data/fixtures\t\n".to_string()),
        "/pkg",
        "testing/data",
        true,
        true,
    );
    assert_eq!(r, Ok("/data/fixtures".to_string()));
}

#[test]
fn resolve_dir_configured_path_not_found() {
    let r = resolve_dir(
        "DATA_DIR",
        Some("/missing".to_string()),
        "/pkg",
        "testing/data",
        false,
        true,
    );
    assert_eq!(
        r,
        Err(LocatorError::ConfiguredPathNotFound {
            var_name: "DATA_DIR".to_string(),
            path: "/missing".to_string(),
        })
    );
}

#[test]
fn resolve_dir_no_fallback_available() {
    let r = resolve_dir("DATA_DIR", None, "/pkg", "testing/data", false, false);
    assert_eq!(
        r,
        Err(LocatorError::NoFallbackAvailable {
            var_name: "DATA_DIR".to_string(),
            path: "/pkg/testing/data".to_string(),
        })
    );
}

#[test]
fn resolve_dir_blank_override_falls_back() {
    let r = resolve_dir(
        "DATA_DIR",
        Some("\t  ".to_string()),
        "/pkg",
        "testing/data",
        false,
        true,
    );
    assert_eq!(r, Ok("/pkg/testing/data".to_string()));
}

#[test]
fn resolution_succeeds_matches_resolve_dir() {
    let cases: Vec<(Option<&str>, bool, bool)> = vec![
        (None, false, false),
        (None, false, true),
        (Some("/d"), false, true),
        (Some("/d"), true, false),
        (Some("  "), false, true),
        (Some("  "), true, false),
    ];
    for (env_value, od, fd) in cases {
        let owned = env_value.map(|s| s.to_string());
        let decided = resolution_succeeds(&owned, od, fd);
        let resolved = resolve_dir("V", owned, "/pkg", "sub", od, fd);
        assert_eq!(decided, resolved.is_ok());
    }
}

#[test]
fn try_variants_report_failure_instead_of_requiring() {
    assert_eq!(try_arrow_test_data(None, "/pkg", false, false), None);
    assert_eq!(
        try_arrow_test_data(Some(" ".to_string()), "/pkg", false, true),
        Some("/pkg/../testing/data".to_string())
    );
    assert_eq!(
        try_parquet_test_data(Some("/d".to_string()), "/pkg", true, false),
        Some("/d".to_string())
    );
    assert_eq!(try_parquet_test_data(Some("/d".to_string()), "/pkg", false, true), None);
}

#[test]
fn random_bytes_has_requested_length() {
    assert_eq!(random_bytes(0).len(), 0);
    assert_eq!(random_bytes(1).len(), 1);
    assert_eq!(random_bytes(1024).len(), 1024);
}

#[test]
fn random_bytes_is_deterministic() {
    let a = random_bytes(512);
    let b = random_bytes(512);
    assert_eq!(a, b);

    // equal draws are prefixes of one fixed stream
    let short = random_bytes(16);
    assert_eq!(short[..], a[..16]);
}

#[test]
fn random_bytes_stay_below_255() {
    let a = random_bytes(4096);
    assert!(a.iter().all(|&x| x <= 254));
    // a real generator varies; a constant stream would be a fault
    assert!(a.iter().any(|&x| x != a[0]));
}

#[test]
fn bad_iterator_lies_about_size() {
    let mut it = BadIterator::new(5, 100, vec!['a', 'b', 'c']);
    assert_eq!(it.size_hint(), (0, Some(100)));
    let mut got = Vec::new();
    for _ in 0..5 {
        got.push(it.next().unwrap());
    }
    assert_eq!(got, vec!['a', 'b', 'c', 'a', 'b']);
    assert_eq!(it.next(), None);
    // the hint never corrects itself, exhausted or not
    assert_eq!(it.size_hint(), (0, Some(100)));
    assert_eq!(it.next(), None);
    assert_eq!(it.size_hint(), (0, Some(100)));
}

#[test]
fn bad_iterator_zero_limit_is_exhausted_at_once() {
    let mut it = BadIterator::new(0, 0, vec!['x']);
    assert_eq!(it.next(), None);
    assert_eq!(it.next(), None);
    assert_eq!(it.size_hint(), (0, Some(0)));
}

#[test]
fn bad_iterator_refuses_an_empty_pool() {
    assert!(BadIterator::<char>::try_new(5, 100, Vec::new()).is_none());
    assert!(BadIterator::<char>::try_new(0, 0, Vec::new()).is_none());
    assert!(BadIterator::try_new(3, 7, vec![1u8]).is_some());
}

#[test]
fn bad_iterator_cycles_through_its_pool() {
    let mut it = BadIterator::new(7, 7, vec!['p', 'q']);
    let mut got = Vec::new();
    while let Some(v) = it.next() {
        got.push(v);
    }
    assert_eq!(got, vec!['p', 'q', 'p', 'q', 'p', 'q', 'p']);
    assert_eq!(it.next(), None);
}
