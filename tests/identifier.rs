use fuver::{check_dot_separated_identifiers, check_identifier, FormatError};

#[test]
fn dot_separated_empty_is_empty_tag() {
    assert_eq!(check_dot_separated_identifiers(""), Err(FormatError::EmptyTag));
}

#[test]
fn dot_separated_accepts_identifiers() {
    assert_eq!(check_dot_separated_identifiers("a.b-c.D3"), Ok(()));
    assert_eq!(check_dot_separated_identifiers("0"), Ok(()));
}

#[test]
fn dot_separated_names_the_space() {
    assert_eq!(check_dot_separated_identifiers("a.b c"), Err(FormatError::InvalidChar(' ')));
}

#[test]
fn dot_separated_empty_segments() {
    assert_eq!(check_dot_separated_identifiers("a..b"), Err(FormatError::EmptyTag));
    assert_eq!(check_dot_separated_identifiers(".a"), Err(FormatError::EmptyTag));
    assert_eq!(check_dot_separated_identifiers("a."), Err(FormatError::EmptyTag));
    assert_eq!(check_dot_separated_identifiers("a.b_c..d"), Err(FormatError::InvalidChar('_')));
}

#[test]
fn identifier_checks() {
    assert_eq!(check_identifier(""), Err(FormatError::EmptyTag));
    assert_eq!(check_identifier("Az09-"), Ok(()));
    assert_eq!(check_identifier("a.b"), Err(FormatError::InvalidChar('.')));
    assert_eq!(check_identifier("aé"), Err(FormatError::InvalidChar('é')));
}

#[test]
fn format_error_text() {
    assert_eq!(FormatError::EmptyTag.to_string(), "空文字列は対応していません");
    assert_eq!(FormatError::InvalidChar('!').to_string(), "対応していない文字が含まれています: !");
}
