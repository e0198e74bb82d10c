use fuver::{BuildMetaData, BuildMetaError, FormatError, DEFAULT_FORMAT};

const HASH: &str = "fef16c61a2b3c4d5e6f708192a3b4c5d6e7f8091";
const DATE: &str = "2025-02-20T12:34:56+09:00";

fn sample() -> BuildMetaData {
    BuildMetaData::new(123, DATE.to_string(), HASH.to_string(), DEFAULT_FORMAT.to_string())
}

#[test]
fn default_template_renders() {
    assert_eq!(sample().create_string().unwrap(), "123.20250220.fef16c61");
    assert_eq!(sample().show().unwrap(), "123.20250220.fef16c61");
    assert_eq!(sample().show_all(), "123.20250220.fef16c61");
}

#[test]
fn unknown_placeholder_passes_through() {
    let b = sample();
    assert_eq!(b.assemble_string("{foo}"), "{foo}");
    assert_eq!(b.create_fmt_string("{foo}"), Err(FormatError::InvalidChar('{')));
    assert_eq!(b.assemble_string("x.{foo:1}.{n}"), "x.{foo:1}.123");
    match b.show_fmt("{foo}") {
        Err(BuildMetaError::Format(s)) => assert_eq!(s, "{foo}"),
        _ => panic!("expected a format error"),
    }
}

#[test]
fn hash_width() {
    let b = sample();
    assert_eq!(b.create_fmt_string("{hash:4}").unwrap(), "fef1");
    assert_eq!(b.create_fmt_string("{hash:999}").unwrap(), HASH);
    assert_eq!(b.create_fmt_string("{h}").unwrap(), "fef16c61");
    assert_eq!(b.create_fmt_string("{hash:x}").unwrap(), "fef16c61");
    assert_eq!(b.create_fmt_string("{hash:2:9}").unwrap(), "fe");
    assert_eq!(b.create_fmt_string("{hash:+4}").unwrap(), "fef1");
    assert_eq!(b.create_fmt_string("{hash:+}").unwrap(), "fef16c61");
}

#[test]
fn escapes_are_literal() {
    let b = sample();
    assert_eq!(b.assemble_string("a\\{b\\}"), "a{b}");
    assert_eq!(b.assemble_string("a\\.b"), "a.b");
    assert_eq!(b.assemble_string("ab\\"), "ab");
}

#[test]
fn number_heads() {
    let b = sample();
    assert_eq!(b.create_fmt_string("build.{number}").unwrap(), "build.123");
    assert_eq!(b.create_fmt_string("build{num}").unwrap(), "build123");
    assert_eq!(b.create_fmt_string("{n}").unwrap(), "123");
    assert_eq!(b.create_fmt_string("{number").unwrap(), "123");
}

#[test]
fn date_patterns() {
    let b = sample();
    assert_eq!(b.create_fmt_string("{date}").unwrap(), "20250220");
    assert_eq!(b.create_fmt_string("{d:%Y-%m}").unwrap(), "2025-02");
    assert_eq!(b.assemble_string("{date:%H:%M}"), "12:34");
    assert_eq!(b.create_fmt_string("{date:%H:%M}"), Err(FormatError::InvalidChar(':')));
}

#[test]
fn date_that_is_not_rfc3339_is_written_as_stored() {
    let b = BuildMetaData::new(1, "20250220".to_string(), HASH.to_string(), DEFAULT_FORMAT.to_string());
    assert_eq!(b.create_string().unwrap(), "1.20250220.fef16c61");
}

#[test]
fn render_checks_identifiers() {
    let b = sample();
    assert_eq!(b.create_fmt_string(""), Err(FormatError::EmptyTag));
    assert_eq!(b.create_fmt_string("{n}..{h}"), Err(FormatError::EmptyTag));
    assert_eq!(b.show_all(), "123.20250220.fef16c61");
    let mut bad = sample();
    bad.set_format("a b");
    assert_eq!(bad.show_all(), "対応していない文字が含まれています:  ");
}

#[test]
fn build_number_overflow() {
    let mut b = BuildMetaData::new(usize::MAX, DATE.to_string(), HASH.to_string(), DEFAULT_FORMAT.to_string());
    match b.increment_number() {
        Err(BuildMetaError::Overflow(n)) => assert_eq!(n, usize::MAX),
        _ => panic!("expected overflow"),
    }
    assert_eq!(b.get_number(), usize::MAX);
    let mut b = sample();
    b.increment_number().unwrap();
    assert_eq!(b.get_number(), 124);
}

#[test]
fn hash_updates() {
    let mut b = sample();
    b.update_hash(Ok("abc".to_string())).unwrap();
    assert_eq!(b.get_hash(), "abc");
    match b.update_hash(Err("no repository".to_string())) {
        Err(BuildMetaError::Git(m)) => assert_eq!(m, "no repository"),
        _ => panic!("expected a git error"),
    }
    assert_eq!(b.get_hash(), "abc");
}

#[test]
fn date_update_keeps_the_rest() {
    let mut b = sample();
    b.update_date().unwrap();
    assert_eq!(b.get_number(), 123);
    assert_eq!(b.get_hash(), HASH);
    assert_ne!(b.get_date(), DATE);
    assert!(chrono::DateTime::parse_from_rfc3339(&b.get_date()).is_ok());
    let d = BuildMetaData::default();
    assert_eq!(d.get_number(), 0);
    assert_eq!(d.get_format(), DEFAULT_FORMAT);
    assert!(chrono::DateTime::parse_from_rfc3339(&d.get_date()).is_ok());
    let f = BuildMetaData::fresh(&Ok("abc".to_string()));
    assert_eq!(f.get_hash(), "abc");
    assert_eq!(f.get_number(), 0);
    assert!(chrono::DateTime::parse_from_rfc3339(&f.get_date()).is_ok());
}

#[test]
fn build_error_text() {
    assert_eq!(BuildMetaError::Git("x".to_string()).to_string(), "Git情報の取得に失敗しました: x");
    assert_eq!(BuildMetaError::Overflow(3).to_string(), "数値が指定できる範囲を超えています: 3+1");
}
