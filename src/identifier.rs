//! The identifier grammar of semantic versioning: `[0-9A-Za-z-]+`, and
//! dot-separated runs of such identifiers.
use vstd::prelude::*;
use crate::text::{char_seq, split_chars, split_on, views};

verus! {

/// Why a text is not a (dot-separated) identifier.
#[derive(Debug, Clone, Copy, PartialEq, Eq, Structural)]
pub enum FormatError {
    /// The text, or one of its dot-separated segments, is empty.
    EmptyTag,
    /// The first character outside `[0-9A-Za-z-]`.
    InvalidChar(char),
}

pub open spec fn is_ident_char(c: char) -> bool {
    ('0' <= c && c <= '9') || ('A' <= c && c <= 'Z') || ('a' <= c && c <= 'z') || c == '-'
}

/// The first character of `s` outside the identifier alphabet.
pub open spec fn first_invalid(s: Seq<char>) -> Option<char>
    decreases s.len(),
{
    if s.len() == 0 {
        None
    } else if !is_ident_char(s[0]) {
        Some(s[0])
    } else {
        first_invalid(s.drop_first())
    }
}

/// The verdict on a single identifier.
pub open spec fn identifier_check(s: Seq<char>) -> Result<(), FormatError> {
    if s.len() == 0 {
        Err(FormatError::EmptyTag)
    } else {
        match first_invalid(s) {
            Some(c) => Err(FormatError::InvalidChar(c)),
            None => Ok(()),
        }
    }
}

/// The verdict of the first segment that is not an identifier, if any.
pub open spec fn segments_check(parts: Seq<Seq<char>>) -> Result<(), FormatError>
    decreases parts.len(),
{
    if parts.len() == 0 {
        Ok(())
    } else {
        match identifier_check(parts[0]) {
            Err(e) => Err(e),
            Ok(()) => segments_check(parts.drop_first()),
        }
    }
}

/// The verdict on a dot-separated run of identifiers.
pub open spec fn dot_separated_check(s: Seq<char>) -> Result<(), FormatError> {
    if s.len() == 0 {
        Err(FormatError::EmptyTag)
    } else {
        segments_check(split_on(s, '.'))
    }
}

proof fn lemma_first_invalid(s: Seq<char>, k: int)
    requires
        0 <= k <= s.len(),
        forall|j: int| 0 <= j < k ==> is_ident_char(#[trigger] s[j]),
    ensures
        k < s.len() && !is_ident_char(s[k]) ==> first_invalid(s) == Some(s[k]),
        k == s.len() ==> first_invalid(s) is None,
    decreases k,
{
    if k > 0 {
        lemma_first_invalid(s.drop_first(), k - 1);
    }
}

proof fn lemma_segments_skip(parts: Seq<Seq<char>>, k: int)
    requires
        0 <= k <= parts.len(),
        forall|j: int| 0 <= j < k ==> identifier_check(#[trigger] parts[j]) is Ok,
    ensures
        segments_check(parts) == segments_check(parts.subrange(k, parts.len() as int)),
    decreases k,
{
    if k == 0 {
        assert(parts.subrange(0, parts.len() as int) =~= parts);
    } else {
        lemma_segments_skip(parts.drop_first(), k - 1);
        assert(parts.drop_first().subrange(k - 1, parts.len() - 1) =~= parts.subrange(
            k,
            parts.len() as int,
        ));
    }
}

pub(crate) fn check_identifier_chars(s: &Vec<char>) -> (r: Result<(), FormatError>)
    ensures
        r == identifier_check(s@),
{
    if s.len() == 0 {
        return Err(FormatError::EmptyTag);
    }
    let mut i: usize = 0;
    while i < s.len()
        invariant
            0 <= i <= s.len(),
            forall|j: int| 0 <= j < i ==> is_ident_char(#[trigger] s@[j]),
        decreases s.len() - i,
    {
        let c = s[i];
        if !(('0' <= c && c <= '9') || ('A' <= c && c <= 'Z') || ('a' <= c && c <= 'z') || c
            == '-') {
            proof {
                lemma_first_invalid(s@, i as int);
            }
            return Err(FormatError::InvalidChar(c));
        }
        i = i + 1;
    }
    proof {
        lemma_first_invalid(s@, i as int);
    }
    Ok(())
}

pub(crate) fn check_dot_separated_chars(s: &Vec<char>) -> (r: Result<(), FormatError>)
    ensures
        r == dot_separated_check(s@),
{
    if s.len() == 0 {
        return Err(FormatError::EmptyTag);
    }
    let parts = split_chars(s, '.');
    let ghost p = views(parts@);
    let mut i: usize = 0;
    while i < parts.len()
        invariant
            0 <= i <= parts.len(),
            p == views(parts@),
            p == split_on(s@, '.'),
            forall|j: int| 0 <= j < i ==> identifier_check(#[trigger] p[j]) is Ok,
        decreases parts.len() - i,
    {
        let checked = check_identifier_chars(&parts[i]);
        assert(p[i as int] == parts@[i as int]@);
        if let Err(e) = checked {
            proof {
                lemma_segments_skip(p, i as int);
                assert(p.subrange(i as int, p.len() as int)[0] == p[i as int]);
            }
            return Err(e);
        }
        i = i + 1;
    }
    proof {
        lemma_segments_skip(p, i as int);
    }
    Ok(())
}

/// Checks that `s` is a non-empty run of identifiers separated by single dots.
/// The segments are checked from left to right and the first failure is
/// reported: an empty segment (as in `"a..b"`) gives `EmptyTag`.
pub fn check_dot_separated_identifiers(s: &str) -> (r: Result<(), FormatError>)
    ensures
        r == dot_separated_check(s@),
{
    let chars = char_seq(s);
    check_dot_separated_chars(&chars)
}

/// Checks that `s` is one identifier: non-empty, and every character in
/// `[0-9A-Za-z-]`; otherwise names the first character that is not.
pub fn check_identifier(s: &str) -> (r: Result<(), FormatError>)
    ensures
        r == identifier_check(s@),
{
    let chars = char_seq(s);
    check_identifier_chars(&chars)
}

} // verus!
