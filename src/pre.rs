//! The pre-release descriptor: a tag and an optional counter (`alpha`, `rc.2`).
use vstd::prelude::*;
use vstd::string::StringExecFns;
use crate::identifier::{check_identifier_chars, first_invalid, identifier_check, FormatError};
use crate::text::{char_seq, decimal, push_char, push_decimal};

verus! {

/// What can go wrong with a pre-release.
#[derive(Debug, Clone)]
pub enum PreReleaseError {
    /// There is no pre-release to work on.
    Undefined,
    /// The tag is not an identifier; it carries the reason as text.
    Format(String),
    /// The number given cannot be a pre-release number (it is 0).
    InvalidNumber(usize),
    /// Incrementing would overflow; it carries the value before the increment.
    Overflow(usize),
}

/// The text of a pre-release: `"{tag}"` or `"{tag}.{number}"`.
pub open spec fn pre_text(tag: Seq<char>, number: Option<usize>) -> Seq<char> {
    match number {
        Some(n) => tag + seq!['.'] + decimal(n as nat),
        None => tag,
    }
}

/// The text of an identifier error.
pub open spec fn format_error_text(e: FormatError) -> Seq<char> {
    match e {
        FormatError::EmptyTag => "空文字列は対応していません"@,
        FormatError::InvalidChar(c) => "対応していない文字が含まれています: "@.push(c),
    }
}

impl FormatError {
    /// The reason, as text.
    pub fn to_string(&self) -> (r: String)
        ensures
            r@ == format_error_text(*self),
    {
        match self {
            FormatError::EmptyTag => "空文字列は対応していません".to_owned(),
            FormatError::InvalidChar(c) => {
                let mut r = "対応していない文字が含まれています: ".to_owned();
                push_char(&mut r, *c);
                r
            },
        }
    }
}

impl PreReleaseError {
    pub open spec fn text(&self) -> Seq<char> {
        match self {
            PreReleaseError::Undefined => "プレリリースが定義されていません"@,
            PreReleaseError::Format(s) => "フォーマットが不正です: "@ + s@,
            PreReleaseError::InvalidNumber(n) => "数値に"@ + decimal(*n as nat) + "は指定できません"@,
            PreReleaseError::Overflow(n) => "数値が指定できる範囲を超えています: "@ + decimal(*n as nat) + "+1"@,
        }
    }

    /// The error, as text.
    pub fn to_string(&self) -> (r: String)
        ensures
            r@ == self.text(),
    {
        match self {
            PreReleaseError::Undefined => "プレリリースが定義されていません".to_owned(),
            PreReleaseError::Format(s) => {
                let mut r = "フォーマットが不正です: ".to_owned();
                r.append(s.as_str());
                r
            },
            PreReleaseError::InvalidNumber(n) => {
                let mut r = "数値に".to_owned();
                push_decimal(&mut r, *n);
                r.append("は指定できません");
                r
            },
            PreReleaseError::Overflow(n) => {
                let mut r = "数値が指定できる範囲を超えています: ".to_owned();
                push_decimal(&mut r, *n);
                r.append("+1");
                r
            },
        }
    }
}

/// A pre-release: an identifier tag and an optional positive number.
#[derive(Debug)]
pub struct PreRelease {
    tag: String,
    number: Option<usize>,
}

fn check_tag(tag: &str) -> (r: Result<String, PreReleaseError>)
    ensures
        match r {
            Ok(t) => identifier_check(tag@) is Ok && t@ == tag@,
            Err(PreReleaseError::Format(m)) => identifier_check(tag@) matches Err(e) && m@ == format_error_text(e),
            Err(_) => false,
        },
{
    let chars = char_seq(tag);
    match check_identifier_chars(&chars) {
        Ok(()) => Ok(tag.to_owned()),
        Err(e) => Err(PreReleaseError::Format(e.to_string())),
    }
}

/// A pre-release number must not be 0.
fn check_number(n: usize) -> (r: Result<(), PreReleaseError>)
    ensures
        match r {
            Ok(()) => n != 0,
            Err(PreReleaseError::InvalidNumber(m)) => n == 0 && m == 0,
            Err(_) => false,
        },
{
    if n == 0 {
        return Err(PreReleaseError::InvalidNumber(n));
    }
    Ok(())
}

impl PreRelease {
    #[verifier::type_invariant]
    spec fn inv(&self) -> bool {
        identifier_check(self.tag@) is Ok && self.number != Some(0usize)
    }

    /// The tag.
    pub closed spec fn tag_view(&self) -> Seq<char> {
        self.tag@
    }

    /// The number, if any.
    pub closed spec fn number_view(&self) -> Option<usize> {
        self.number
    }

    pub open spec fn text(&self) -> Seq<char> {
        pre_text(self.tag_view(), self.number_view())
    }

    /// A pre-release with the tag `tag` and no number.
    pub fn new(tag: &str) -> (r: Result<PreRelease, PreReleaseError>)
        ensures
            match r {
                Ok(p) => identifier_check(tag@) is Ok && p.tag_view() == tag@ && p.number_view() is None,
                Err(PreReleaseError::Format(m)) => identifier_check(tag@) matches Err(e) && m@ == format_error_text(e),
                Err(_) => false,
            },
    {
        let tag = check_tag(tag)?;
        Ok(PreRelease { tag, number: None })
    }

    /// A pre-release with the tag `tag` and the number `number`, which must not be 0.
    /// The tag is checked first.
    pub fn with_number(tag: &str, number: usize) -> (r: Result<PreRelease, PreReleaseError>)
        ensures
            match r {
                Ok(p) => identifier_check(tag@) is Ok && number != 0 && p.tag_view() == tag@ && p.number_view() == Some(number),
                Err(PreReleaseError::Format(m)) => identifier_check(tag@) matches Err(e) && m@ == format_error_text(e),
                Err(PreReleaseError::InvalidNumber(n)) => identifier_check(tag@) is Ok && number == 0 && n == 0,
                Err(_) => false,
            },
    {
        let tag = check_tag(tag)?;
        check_number(number)?;
        Ok(PreRelease { tag, number: Some(number) })
    }

    pub fn get_tag(&self) -> (r: String)
        ensures
            r@ == self.tag_view(),
    {
        self.tag.clone()
    }

    pub fn get_number(&self) -> (r: Option<usize>)
        ensures
            r == self.number_view(),
    {
        self.number
    }

    /// Replaces the tag; on error nothing changes.
    pub fn set_tag(&mut self, tag: &str) -> (r: Result<(), PreReleaseError>)
        ensures
            final(self).number_view() == old(self).number_view(),
            match r {
                Ok(()) => identifier_check(tag@) is Ok && final(self).tag_view() == tag@,
                Err(PreReleaseError::Format(m)) => identifier_check(tag@) matches Err(e) && m@ == format_error_text(e)
                    && final(self).tag_view() == old(self).tag_view(),
                Err(_) => false,
            },
    {
        proof {
            use_type_invariant(&*self);
        }
        let tag = check_tag(tag)?;
        self.tag = tag;
        Ok(())
    }

    /// Replaces the number, which must not be 0; on error nothing changes.
    pub fn set_number(&mut self, number: usize) -> (r: Result<(), PreReleaseError>)
        ensures
            final(self).tag_view() == old(self).tag_view(),
            match r {
                Ok(()) => number != 0 && final(self).number_view() == Some(number),
                Err(PreReleaseError::InvalidNumber(n)) => number == 0 && n == 0 && final(self).number_view() == old(self).number_view(),
                Err(_) => false,
            },
    {
        proof {
            use_type_invariant(&*self);
        }
        check_number(number)?;
        self.number = Some(number);
        Ok(())
    }

    /// Adds 1 to the number; a pre-release without a number gets the number 1.
    pub fn increment_number(&mut self) -> (r: Result<(), PreReleaseError>)
        ensures
            final(self).tag_view() == old(self).tag_view(),
            match r {
                Ok(()) => match old(self).number_view() {
                    Some(n) => n < usize::MAX && final(self).number_view() == Some((n + 1) as usize),
                    None => final(self).number_view() == Some(1usize),
                },
                Err(PreReleaseError::Overflow(n)) => old(self).number_view() == Some(usize::MAX) && n == usize::MAX
                    && final(self).number_view() == old(self).number_view(),
                Err(_) => false,
            },
    {
        proof {
            use_type_invariant(&*self);
        }
        let n = match self.number {
            Some(n) => n,
            None => 0,
        };
        if n == usize::MAX {
            return Err(PreReleaseError::Overflow(n));
        }
        self.number = Some(n + 1);
        Ok(())
    }

    /// Replaces tag and number together; the tag is checked first, then the
    /// number, and on either error nothing changes.
    pub fn set(&mut self, tag: &str, number: usize) -> (r: Result<(), PreReleaseError>)
        ensures
            match r {
                Ok(()) => identifier_check(tag@) is Ok && number != 0 && final(self).tag_view() == tag@
                    && final(self).number_view() == Some(number),
                Err(PreReleaseError::Format(m)) => identifier_check(tag@) matches Err(e) && m@ == format_error_text(e)
                    && final(self).tag_view() == old(self).tag_view() && final(self).number_view() == old(self).number_view(),
                Err(PreReleaseError::InvalidNumber(n)) => identifier_check(tag@) is Ok && number == 0 && n == 0
                    && final(self).tag_view() == old(self).tag_view() && final(self).number_view() == old(self).number_view(),
                Err(_) => false,
            },
    {
        proof {
            use_type_invariant(&*self);
        }
        let tag = check_tag(tag)?;
        check_number(number)?;
        self.tag = tag;
        self.number = Some(number);
        Ok(())
    }

    /// The text `"{tag}"` or `"{tag}.{number}"`.
    pub fn to_string(&self) -> (r: String)
        ensures
            r@ == self.text(),
    {
        let mut r = self.tag.clone();
        if let Some(n) = self.number {
            push_char(&mut r, '.');
            push_decimal(&mut r, n);
        }
        assert(r@ =~= self.text());
        r
    }
}

proof fn lemma_alpha()
    ensures
        identifier_check("alpha"@) is Ok,
{
    reveal_strlit("alpha");
    reveal_with_fuel(first_invalid, 6);
}

impl Default for PreRelease {
    /// The tag `alpha` with no number.
    fn default() -> (r: PreRelease)
        ensures
            r.tag_view() == "alpha"@,
            r.number_view() is None,
    {
        proof {
            lemma_alpha();
        }
        PreRelease { tag: "alpha".to_owned(), number: None }
    }
}

} // verus!
