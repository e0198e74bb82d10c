use fuver::{PreRelease, PreReleaseError};

#[test]
fn test_default_prerelease() {
    let pre = PreRelease::default();
    assert_eq!(pre.get_tag(), "alpha");
    assert_eq!(pre.get_number(), None);
    assert_eq!(pre.to_string(), "alpha");
}

#[test]
fn test_new_prerelease() {
    let pre = PreRelease::new("beta").unwrap();
    assert_eq!(pre.get_tag(), "beta");
    assert_eq!(pre.get_number(), None);
    assert_eq!(pre.to_string(), "beta");
}

#[test]
fn test_with_number() {
    let pre = PreRelease::with_number("rc", 1).unwrap();
    assert_eq!(pre.get_tag(), "rc");
    assert_eq!(pre.get_number(), Some(1));
    assert_eq!(pre.to_string(), "rc.1");
}

#[test]
fn test_invalid_number() {
    let result = PreRelease::with_number("beta", 0);
    assert!(result.is_err());
}

#[test]
fn test_get_methods() {
    let pre = PreRelease::with_number("beta", 2).unwrap();
    assert_eq!(pre.get_tag(), "beta");
    assert_eq!(pre.get_number(), Some(2));
}

#[test]
fn test_set_tag() {
    let mut pre = PreRelease::default();
    pre.set_tag("beta").unwrap();
    assert_eq!(pre.get_tag(), "beta");
    assert_eq!(pre.to_string(), "beta");
}

#[test]
fn test_set_invalid_tag() {
    let mut pre = PreRelease::default();
    let result = pre.set_tag("");
    assert!(result.is_err());

    assert_eq!(pre.get_tag(), "alpha");
}

#[test]
fn test_set_number() {
    let mut pre = PreRelease::default();
    pre.set_number(3).unwrap();
    assert_eq!(pre.get_number(), Some(3));
    assert_eq!(pre.to_string(), "alpha.3");
}

#[test]
fn test_set_invalid_number() {
    let mut pre = PreRelease::default();
    let result = pre.set_number(0);
    match result {
        Err(PreReleaseError::InvalidNumber(n)) => assert_eq!(n, 0),
        _ => panic!("Expected InvalidNumber error"),
    }

    assert_eq!(pre.get_number(), None);
}

#[test]
fn test_increment_number_from_none() {
    let mut pre = PreRelease::new("beta").unwrap();
    assert_eq!(pre.get_number(), None);

    pre.increment_number().unwrap();
    assert_eq!(pre.get_number(), Some(1));
    assert_eq!(pre.to_string(), "beta.1");
}

#[test]
fn test_increment_number() {
    let mut pre = PreRelease::with_number("rc", 1).unwrap();
    pre.increment_number().unwrap();
    assert_eq!(pre.get_number(), Some(2));
    assert_eq!(pre.to_string(), "rc.2");
}

#[test]
fn test_increment_number_overflow() {
    let mut pre = PreRelease::with_number("rc", usize::MAX).unwrap();
    let result = pre.increment_number();

    match result {
        Err(PreReleaseError::Overflow(n)) => assert_eq!(n, usize::MAX),
        _ => panic!("Expected Overflow error"),
    }

    assert_eq!(pre.get_number(), Some(usize::MAX));
}

#[test]
fn test_set() {
    let mut pre = PreRelease::default();
    pre.set("rc", 2).unwrap();
    assert_eq!(pre.get_tag(), "rc");
    assert_eq!(pre.get_number(), Some(2));
    assert_eq!(pre.to_string(), "rc.2");
}

#[test]
fn test_set_invalid() {
    let mut pre = PreRelease::default();

    let result = pre.set("", 1);
    assert!(result.is_err());

    let result = pre.set("beta", 0);
    assert!(result.is_err());

    assert_eq!(pre.get_tag(), "alpha");
    assert_eq!(pre.get_number(), None);
}

#[test]
fn test_fmt_display() {
    let pre = PreRelease::new("alpha").unwrap();
    assert_eq!(pre.to_string(), "alpha");

    let pre = PreRelease::with_number("beta", 2).unwrap();
    assert_eq!(pre.to_string(), "beta.2");
}

#[test]
fn test_error_display() {
    let err = PreReleaseError::Format("test".to_string());
    assert_eq!(err.to_string(), "フォーマットが不正です: test");

    let err = PreReleaseError::InvalidNumber(0);
    assert_eq!(err.to_string(), "数値に0は指定できません");

    let err = PreReleaseError::Overflow(100);
    assert_eq!(
        err.to_string(),
        "数値が指定できる範囲を超えています: 100+1"
    );
}

#[test]
fn with_number_zero_is_an_invalid_number() {
    for tag in ["alpha", "rc", "x-1"] {
        match PreRelease::with_number(tag, 0) {
            Err(PreReleaseError::InvalidNumber(n)) => assert_eq!(n, 0),
            _ => panic!("expected an invalid number"),
        }
    }
    match PreRelease::with_number("", 0) {
        Err(PreReleaseError::Format(m)) => assert_eq!(m, "空文字列は対応していません"),
        _ => panic!("the tag is checked first"),
    }
}

#[test]
fn bad_tag_names_the_character() {
    match PreRelease::new("be ta") {
        Err(PreReleaseError::Format(m)) => assert_eq!(m, "対応していない文字が含まれています:  "),
        _ => panic!("expected a format error"),
    }
    assert!(PreRelease::new("rc.1").is_err());
}

#[test]
fn overflow_leaves_tag_and_number() {
    let mut pre = PreRelease::with_number("rc", usize::MAX).unwrap();
    assert!(pre.increment_number().is_err());
    assert_eq!(pre.to_string(), format!("rc.{}", usize::MAX));
}
