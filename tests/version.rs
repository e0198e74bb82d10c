use fuver::{Version, VersionError};
use std::str::FromStr;

#[test]
fn test_default_version() {
    let version = Version::default();
    assert_eq!(version.major, 0);
    assert_eq!(version.minor, 1);
    assert_eq!(version.patch, 0);
    assert_eq!(version.to_string(), "0.1.0");
}

#[test]
fn test_new_version() {
    let version = Version::new(1, 2, 3);
    assert_eq!(version.major, 1);
    assert_eq!(version.minor, 2);
    assert_eq!(version.patch, 3);
    assert_eq!(version.to_string(), "1.2.3");
}

#[test]
fn test_from_str_valid() {
    let version = Version::from_str("2.3.4").unwrap();
    assert_eq!(version.major, 2);
    assert_eq!(version.minor, 3);
    assert_eq!(version.patch, 4);
}

#[test]
fn test_from_str_invalid() {
    let result = Version::from_str("2.3");
    assert!(result.is_err());

    let result = Version::from_str("2.3.4.5");
    assert!(result.is_err());

    match Version::from_str("invalid") {
        Err(VersionError::Format(s)) => assert_eq!(s, "invalid"),
        _ => panic!("Expected VersionError::Format"),
    }
}

#[test]
fn test_getters_and_setters() {
    let mut version = Version::new(1, 2, 3);

    version.set_major(4);
    assert_eq!(version.get_major(), 4);

    version.set_minor(5);
    assert_eq!(version.get_minor(), 5);

    version.set_patch(6);
    assert_eq!(version.get_patch(), 6);

    assert_eq!(version.to_string(), "4.5.6");
}

#[test]
fn test_increment_major() {
    let mut version = Version::new(1, 2, 3);
    version.increment_major().unwrap();
    assert_eq!(version.major, 2);
    assert_eq!(version.minor, 0);
    assert_eq!(version.patch, 0);
    assert_eq!(version.to_string(), "2.0.0");
}

#[test]
fn test_increment_minor() {
    let mut version = Version::new(1, 2, 3);
    version.increment_minor().unwrap();
    assert_eq!(version.major, 1);
    assert_eq!(version.minor, 3);
    assert_eq!(version.patch, 0);
    assert_eq!(version.to_string(), "1.3.0");
}

#[test]
fn test_increment_patch() {
    let mut version = Version::new(1, 2, 3);
    version.increment_patch().unwrap();
    assert_eq!(version.major, 1);
    assert_eq!(version.minor, 2);
    assert_eq!(version.patch, 4);
    assert_eq!(version.to_string(), "1.2.4");
}

#[test]
fn test_add_assign() {
    let mut version = Version::new(1, 2, 3);

    let increment = Version::new(1, 0, 0);
    version += increment;
    assert_eq!(version.to_string(), "2.0.0");

    let increment = Version::new(0, 2, 0);
    version += increment;
    assert_eq!(version.to_string(), "2.2.0");

    let increment = Version::new(0, 0, 3);
    version += increment;
    assert_eq!(version.to_string(), "2.2.3");
}

#[test]
fn test_increment_mask() {
    let mut version = Version::new(1, 2, 3);

    version.increment_mask("1.0.0").unwrap();
    assert_eq!(version.to_string(), "2.0.0");

    version.increment_mask("0.2.0").unwrap();
    assert_eq!(version.to_string(), "2.2.0");

    version.increment_mask("0.0.3").unwrap();
    assert_eq!(version.to_string(), "2.2.3");

    let result = version.increment_mask("x.y");
    assert!(result.is_err());
}

#[test]
fn test_part_version() {
    let parts = Version::parse_mask("1.2.3").unwrap();
    assert_eq!(vec![parts.major, parts.minor, parts.patch], vec![1, 2, 3]);

    let parts = Version::parse_mask("1.a.3").unwrap();
    assert_eq!(vec![parts.major, parts.minor, parts.patch], vec![1, 0, 3]);

    let result = Version::parse_mask("1.2");
    assert!(result.is_err());
}

#[test]
fn parse_round_trips_printed_versions() {
    for (a, b, c) in [(0, 0, 0), (1, 2, 3), (10, 200, 3000), (usize::MAX, 0, usize::MAX)] {
        let v = Version::new(a, b, c);
        let back = Version::parse(&v.to_string()).unwrap();
        assert_eq!(back, v);
    }
}

#[test]
fn parse_is_strict() {
    assert!(Version::parse("1.a.3").is_err());
    assert!(Version::parse("1..3").is_err());
    assert!(Version::parse("").is_err());
    assert!(Version::parse("1.2.-3").is_err());
    assert!(Version::parse("1.2.99999999999999999999999").is_err());
    assert_eq!(Version::parse("01.2.3").unwrap(), Version::new(1, 2, 3));
    assert_eq!(Version::parse("+1.2.+3").unwrap(), Version::new(1, 2, 3));
    assert!(Version::parse("+.2.3").is_err());
    assert!(Version::parse("++1.2.3").is_err());
}

#[test]
fn increments_on_one_two_three() {
    let mut v = Version::new(1, 2, 3);
    v.increment_major().unwrap();
    assert_eq!(v, Version::new(2, 0, 0));
    let mut v = Version::new(1, 2, 3);
    v.increment_minor().unwrap();
    assert_eq!(v, Version::new(1, 3, 0));
    let mut v = Version::new(1, 2, 3);
    v.increment_patch().unwrap();
    assert_eq!(v, Version::new(1, 2, 4));
}

#[test]
fn masks_on_one_two_three() {
    let mut v = Version::new(1, 2, 3);
    v.increment_mask("1.0.0").unwrap();
    assert_eq!(v, Version::new(2, 0, 0));
    let mut v = Version::new(1, 2, 3);
    v.increment_mask("0.2.0").unwrap();
    assert_eq!(v, Version::new(1, 4, 0));
    let mut v = Version::new(1, 2, 3);
    v.increment_mask("0.0.3").unwrap();
    assert_eq!(v, Version::new(1, 2, 6));
    let mut v = Version::new(1, 2, 3);
    v.increment_mask("x.1.7").unwrap();
    assert_eq!(v, Version::new(1, 3, 0));
}

#[test]
fn mask_with_wrong_segment_count_fails() {
    let mut v = Version::new(1, 2, 3);
    for mask in ["x.y", "1", "1.0.0.0", ""] {
        match v.increment_mask(mask) {
            Err(VersionError::Format(s)) => assert_eq!(s, mask),
            _ => panic!("expected a format error"),
        }
        assert_eq!(v, Version::new(1, 2, 3));
    }
}

#[test]
fn increment_at_the_largest_value_overflows() {
    let mut v = Version::new(usize::MAX, 5, 6);
    match v.increment_major() {
        Err(VersionError::Overflow(n)) => assert_eq!(n, usize::MAX),
        _ => panic!("expected overflow"),
    }
    assert_eq!(v, Version::new(usize::MAX, 5, 6));

    let mut v = Version::new(1, 2, usize::MAX);
    assert!(matches!(v.increment_patch(), Err(VersionError::Overflow(_))));
    assert!(matches!(v.increment_mask("0.0.1"), Err(VersionError::Overflow(_))));
    assert_eq!(v, Version::new(1, 2, usize::MAX));
}

#[test]
fn set_replaces_the_whole_version() {
    let mut v = Version::new(1, 2, 3);
    v.set("4.5.6").unwrap();
    assert_eq!(v, Version::new(4, 5, 6));
    assert!(v.set("4.5").is_err());
    assert_eq!(v, Version::new(4, 5, 6));
}

#[test]
fn version_error_text() {
    assert_eq!(VersionError::Format("x".to_string()).to_string(), "バージョンが不正です: x");
    assert_eq!(VersionError::Overflow(7).to_string(), "数値が指定できる範囲を超えています: 7+1");
}
