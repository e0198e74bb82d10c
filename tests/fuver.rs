use fuver::{BuildMetaData, FuVer, FuVerError, PreRelease, Version, DEFAULT_FORMAT};

const HASH: &str = "fef16c61a2b3c4d5e6f708192a3b4c5d6e7f8091";
const DATE: &str = "2025-02-20T12:34:56+09:00";

fn no_repo() -> Result<String, String> {
    Err("no repository".to_string())
}

fn full() -> FuVer {
    FuVer::new(
        Version::new(1, 2, 3),
        Some(PreRelease::with_number("rc", 1).unwrap()),
        Some(BuildMetaData::new(123, DATE.to_string(), HASH.to_string(), DEFAULT_FORMAT.to_string())),
    )
}

#[test]
fn full_display() {
    assert_eq!(full().to_string(), "1.2.3-rc.1+123.20250220.fef16c61");
    assert_eq!(FuVer::default().show_full(), "0.1.0");
}

#[test]
fn reports_describe_changes() {
    let mut v = full();
    let line = v.incr_ver_minor(false).unwrap();
    assert_eq!(line.as_deref(), Some("Increment Minor Version 1.2.3 -> 1.3.0"));
    assert_eq!(v.incr_ver_patch(true).unwrap(), None);
    assert_eq!(v.show_version(), "1.3.1");
    let line = v.incr_build_num(&no_repo(), false).unwrap();
    assert_eq!(line.as_deref(), Some("Increment Build Number 123.20250220.fef16c61 -> 124.20250220.fef16c61"));
}

#[test]
fn prerelease_is_created_on_increment() {
    let mut v = FuVer::default();
    assert!(matches!(v.show_prerelease(), Err(FuVerError::PreReleaseNotDefined)));
    let line = v.incr_pre(false).unwrap();
    assert_eq!(line.as_deref(), Some("Increment Pre-Release alpha -> alpha.1"));
    assert_eq!(v.show_prerelease().unwrap(), "alpha.1");
    v.remove_prerelease();
    assert!(v.pre.is_none());
}

#[test]
fn set_pre_replaces_wholesale() {
    let mut v = full();
    v.set_pre("beta", None, true).unwrap();
    assert_eq!(v.show_prerelease().unwrap(), "beta");
    assert!(v.set_pre("be ta", Some(2), true).is_err());
    assert_eq!(v.show_prerelease().unwrap(), "beta");
    assert!(v.set_pre("beta", Some(0), true).is_err());
    assert_eq!(v.show_prerelease_number().unwrap(), "");
}

#[test]
fn reads_of_absent_build_fail() {
    let v = FuVer::default();
    assert!(matches!(v.show_build(), Err(FuVerError::BuildMetaDataNotDefined)));
    assert!(matches!(v.show_build_hash(), Err(FuVerError::BuildMetaDataNotDefined)));
    assert!(v.build.is_none());
}

#[test]
fn build_is_created_on_set() {
    let mut v = FuVer::default();
    v.set_build_hash(HASH, &no_repo(), true).unwrap();
    v.set_build_date(DATE, &no_repo(), true).unwrap();
    v.set_build_number(7, &no_repo(), true).unwrap();
    assert_eq!(v.show_build().unwrap(), "7.20250220.fef16c61");
    let line = v.set_build_fmt("{n}", &no_repo(), false).unwrap();
    assert_eq!(line.as_deref(), Some("Set Build Format {number}.{date:%Y%m%d}.{hash:8} -> {n}"));
    assert_eq!(v.show_build_all().unwrap(), "7");
    assert_eq!(v.show_build_fmt("{hash:4}").unwrap(), "fef1");
}

#[test]
fn version_setters() {
    let mut v = full();
    assert_eq!(v.set_version("4.5.6", false).unwrap().as_deref(), Some("Set Version 1.2.3 -> 4.5.6"));
    assert!(v.set_version("4.x.6", true).is_err());
    v.set_major(9, true).unwrap();
    assert_eq!(v.show_major().unwrap(), "9");
    assert!(v.incr_ver_mask("1.2", true).is_err());
    v.incr_ver_mask("0.1.0", true).unwrap();
    assert_eq!(v.show_version(), "9.6.0");
    v.increment_version("x.x.2").unwrap();
    assert_eq!(v.show_patch().unwrap(), "2");
}

#[test]
fn commit_hash_outcome() {
    let mut v = full();
    v.incr_build_hash(Ok("0123456789".to_string()), true).unwrap();
    assert_eq!(v.show_build_hash().unwrap(), "0123456789");
    match v.incr_build_hash(Err("no repository".to_string()), true) {
        Err(FuVerError::Error(m)) => assert_eq!(m, "Git情報の取得に失敗しました: no repository"),
        _ => panic!("expected an error"),
    }
    assert_eq!(v.show_build_hash().unwrap(), "0123456789");
}

#[test]
fn increment_all_needs_build_metadata() {
    let mut v = FuVer::default();
    assert!(matches!(v.incr_build_all(Ok("abc".to_string()), true), Err(FuVerError::BuildMetaDataNotDefined)));
    assert!(v.build.is_none());
}

#[test]
fn increment_all_changes_number_date_and_hash() {
    let mut v = full();
    let line = v.incr_build_all(Ok("0a1b2c3d4e".to_string()), false).unwrap().unwrap();
    assert!(line.starts_with("Increment Build 123.20250220.fef16c61 -> 124."));
    assert!(line.ends_with(".0a1b2c3d"));
    assert_eq!(v.show_build_number().unwrap(), "124");
    assert_eq!(v.show_build_hash().unwrap(), "0a1b2c3d4e");
    assert_ne!(v.show_build_date().unwrap(), DATE);

    let mut v = full();
    assert!(v.incr_build_all(Err("no repository".to_string()), true).is_err());
    assert_eq!(v.show_build_number().unwrap(), "124");
    assert_eq!(v.show_build_hash().unwrap(), HASH);
}

#[test]
fn fresh_build_takes_the_commit_hash() {
    let mut v = FuVer::default();
    v.incr_build_num(&Ok(HASH.to_string()), true).unwrap();
    assert_eq!(v.show_build_number().unwrap(), "1");
    assert_eq!(v.show_build_hash().unwrap(), HASH);
    let date = v.show_build_date().unwrap();
    assert!(chrono::DateTime::parse_from_rfc3339(&date).is_ok());
    assert!(v.show_build().unwrap().ends_with(".fef16c61"));

    let mut v = FuVer::default();
    v.incr_build_date(&no_repo(), true).unwrap();
    assert_eq!(v.show_build_hash().unwrap(), "");
    assert!(chrono::DateTime::parse_from_rfc3339(&v.show_build_date().unwrap()).is_ok());

    let mut v = full();
    v.set_build_number(9, &Ok("0000".to_string()), true).unwrap();
    assert_eq!(v.show_build_hash().unwrap(), HASH);
}
