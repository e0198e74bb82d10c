//! The `MAJOR.MINOR.PATCH` core of a semantic version.
use vstd::prelude::*;
use vstd::string::StringExecFns;
use crate::text::{
    char_seq, decimal, is_digit, lemma_number_value_decimal, lemma_decimal, lemma_split_three,
    number_value, parse_number, push_char, push_decimal, split_chars, split_on, views,
};

verus! {

/// What can go wrong with a version.
#[derive(Debug, Clone)]
pub enum VersionError {
    /// The text is not three dot-separated numbers; it carries the text.
    Format(String),
    /// Incrementing would overflow; it carries the value before the increment.
    Overflow(usize),
}

impl VersionError {
    pub open spec fn text(&self) -> Seq<char> {
        match self {
            VersionError::Format(s) => "バージョンが不正です: "@ + s@,
            VersionError::Overflow(n) => "数値が指定できる範囲を超えています: "@ + decimal(*n as nat) + "+1"@,
        }
    }

    /// The error, as text.
    pub fn to_string(&self) -> (r: String)
        ensures
            r@ == self.text(),
    {
        match self {
            VersionError::Format(s) => {
                let mut r = "バージョンが不正です: ".to_owned();
                r.append(s.as_str());
                r
            },
            VersionError::Overflow(n) => {
                let mut r = "数値が指定できる範囲を超えています: ".to_owned();
                push_decimal(&mut r, *n);
                r.append("+1");
                r
            },
        }
    }
}

/// A semantic version core. Its text is `"{major}.{minor}.{patch}"`.
#[derive(Debug, Clone, Copy, PartialEq, Eq, Structural)]
pub struct Version {
    pub major: usize,
    pub minor: usize,
    pub patch: usize,
}

/// The text of a version with the given parts.
pub open spec fn version_text(major: nat, minor: nat, patch: nat) -> Seq<char> {
    decimal(major) + seq!['.'] + decimal(minor) + seq!['.'] + decimal(patch)
}

/// Strict reading of a version: exactly three dot-separated segments, each a number.
pub open spec fn parse_version(s: Seq<char>) -> Option<(usize, usize, usize)> {
    let p = split_on(s, '.');
    if p.len() == 3 && number_value(p[0]) is Some && number_value(p[1]) is Some
        && number_value(p[2]) is Some {
        Some((number_value(p[0])->0, number_value(p[1])->0, number_value(p[2])->0))
    } else {
        None
    }
}

/// A segment of a mask: its number, or 0 where it is not one.
pub open spec fn mask_part(s: Seq<char>) -> usize {
    match number_value(s) {
        Some(n) => n,
        None => 0,
    }
}

/// Lenient reading of a mask: exactly three dot-separated segments, any of
/// which may be a placeholder that counts as 0.
pub open spec fn parse_mask(s: Seq<char>) -> Option<(usize, usize, usize)> {
    let p = split_on(s, '.');
    if p.len() == 3 {
        Some((mask_part(p[0]), mask_part(p[1]), mask_part(p[2])))
    } else {
        None
    }
}

/// The parts of `v` after adding the mask `m`: only the highest non-zero part of
/// the mask counts, and it resets the parts below it.
pub open spec fn bumped(v: Version, m: Version) -> (int, int, int) {
    if m.major > 0 {
        (v.major + m.major, 0, 0)
    } else if m.minor > 0 {
        (v.major as int, v.minor + m.minor, 0)
    } else {
        (v.major as int, v.minor as int, v.patch + m.patch)
    }
}

pub open spec fn fits(t: (int, int, int)) -> bool {
    t.0 <= usize::MAX && t.1 <= usize::MAX && t.2 <= usize::MAX
}

impl Version {
    pub open spec fn text(self) -> Seq<char> {
        version_text(self.major as nat, self.minor as nat, self.patch as nat)
    }

    pub open spec fn parts(self) -> (int, int, int) {
        (self.major as int, self.minor as int, self.patch as int)
    }

    pub fn new(major: usize, minor: usize, patch: usize) -> (r: Version)
        ensures
            r.major == major,
            r.minor == minor,
            r.patch == patch,
    {
        Version { major, minor, patch }
    }

    /// Reads `"{major}.{minor}.{patch}"`; every segment must be a number.
    pub fn parse(s: &str) -> (r: Result<Version, VersionError>)
        ensures
            match r {
                Ok(v) => parse_version(s@) == Some((v.major, v.minor, v.patch)),
                Err(VersionError::Format(t)) => parse_version(s@) is None && t@ == s@,
                Err(VersionError::Overflow(_)) => false,
            },
    {
        let chars = char_seq(s);
        let parts = split_chars(&chars, '.');
        let ghost p = views(parts@);
        if parts.len() == 3 {
            assert(p[0] == parts@[0]@ && p[1] == parts@[1]@ && p[2] == parts@[2]@);
            let major = parse_number(&parts[0]);
            let minor = parse_number(&parts[1]);
            let patch = parse_number(&parts[2]);
            if let (Some(major), Some(minor), Some(patch)) = (major, minor, patch) {
                return Ok(Version { major, minor, patch });
            }
        }
        Err(VersionError::Format(s.to_owned()))
    }

    /// Reads a mask `"x.y.z"`; a segment that is not a number counts as 0.
    pub fn parse_mask(mask: &str) -> (r: Result<Version, VersionError>)
        ensures
            match r {
                Ok(v) => parse_mask(mask@) == Some((v.major, v.minor, v.patch)),
                Err(VersionError::Format(t)) => parse_mask(mask@) is None && t@ == mask@,
                Err(VersionError::Overflow(_)) => false,
            },
    {
        let chars = char_seq(mask);
        let parts = split_chars(&chars, '.');
        let ghost p = views(parts@);
        if parts.len() != 3 {
            return Err(VersionError::Format(mask.to_owned()));
        }
        assert(p[0] == parts@[0]@ && p[1] == parts@[1]@ && p[2] == parts@[2]@);
        let major = match parse_number(&parts[0]) {
            Some(n) => n,
            None => 0,
        };
        let minor = match parse_number(&parts[1]) {
            Some(n) => n,
            None => 0,
        };
        let patch = match parse_number(&parts[2]) {
            Some(n) => n,
            None => 0,
        };
        Ok(Version { major, minor, patch })
    }

    /// The text `"{major}.{minor}.{patch}"`.
    pub fn to_string(&self) -> (r: String)
        ensures
            r@ == self.text(),
    {
        let mut r = String::new();
        push_decimal(&mut r, self.major);
        push_char(&mut r, '.');
        push_decimal(&mut r, self.minor);
        push_char(&mut r, '.');
        push_decimal(&mut r, self.patch);
        assert(r@ =~= self.text());
        r
    }

    /// Replaces the whole version by the one `s` reads as; on error nothing changes.
    pub fn set(&mut self, s: &str) -> (r: Result<(), VersionError>)
        ensures
            match r {
                Ok(()) => parse_version(s@) == Some((final(self).major, final(self).minor, final(self).patch)),
                Err(VersionError::Format(t)) => parse_version(s@) is None && t@ == s@ && *final(self) == *old(self),
                Err(VersionError::Overflow(_)) => false,
            },
    {
        let v = Version::parse(s)?;
        *self = v;
        Ok(())
    }

    pub fn set_major(&mut self, n: usize)
        ensures
            *final(self) == (Version { major: n, ..*old(self) }),
    {
        self.major = n;
    }

    pub fn set_minor(&mut self, n: usize)
        ensures
            *final(self) == (Version { minor: n, ..*old(self) }),
    {
        self.minor = n;
    }

    pub fn set_patch(&mut self, n: usize)
        ensures
            *final(self) == (Version { patch: n, ..*old(self) }),
    {
        self.patch = n;
    }

    pub fn get_major(&self) -> (r: usize)
        ensures
            r == self.major,
    {
        self.major
    }

    pub fn get_minor(&self) -> (r: usize)
        ensures
            r == self.minor,
    {
        self.minor
    }

    pub fn get_patch(&self) -> (r: usize)
        ensures
            r == self.patch,
    {
        self.patch
    }

    /// `major + 1`, with minor and patch reset to 0.
    pub fn increment_major(&mut self) -> (r: Result<(), VersionError>)
        ensures
            match r {
                Ok(()) => old(self).major < usize::MAX && final(self).parts() == (old(self).major + 1, 0int, 0int),
                Err(VersionError::Overflow(n)) => old(self).major == usize::MAX && n == usize::MAX && *final(self) == *old(self),
                Err(VersionError::Format(_)) => false,
            },
    {
        if self.major == usize::MAX {
            return Err(VersionError::Overflow(self.major));
        }
        self.set_major(self.major + 1);
        self.minor = 0;
        self.patch = 0;
        Ok(())
    }

    /// `minor + 1`, with patch reset to 0.
    pub fn increment_minor(&mut self) -> (r: Result<(), VersionError>)
        ensures
            match r {
                Ok(()) => old(self).minor < usize::MAX && final(self).parts() == (old(self).major as int, old(self).minor + 1, 0int),
                Err(VersionError::Overflow(n)) => old(self).minor == usize::MAX && n == usize::MAX && *final(self) == *old(self),
                Err(VersionError::Format(_)) => false,
            },
    {
        if self.minor == usize::MAX {
            return Err(VersionError::Overflow(self.minor));
        }
        self.set_minor(self.minor + 1);
        self.patch = 0;
        Ok(())
    }

    /// `patch + 1`; nothing is reset.
    pub fn increment_patch(&mut self) -> (r: Result<(), VersionError>)
        ensures
            match r {
                Ok(()) => old(self).patch < usize::MAX && final(self).parts() == (old(self).major as int, old(self).minor as int, old(self).patch + 1),
                Err(VersionError::Overflow(n)) => old(self).patch == usize::MAX && n == usize::MAX && *final(self) == *old(self),
                Err(VersionError::Format(_)) => false,
            },
    {
        if self.patch == usize::MAX {
            return Err(VersionError::Overflow(self.patch));
        }
        self.set_patch(self.patch + 1);
        Ok(())
    }

    /// Adds the mask `m`: the highest non-zero part of `m` is added to the same
    /// part of the version and the parts below it are reset to 0. A sum that
    /// does not fit gives `Overflow` with the part's value, and nothing changes.
    pub fn add_mask(&mut self, m: Version) -> (r: Result<(), VersionError>)
        ensures
            match r {
                Ok(()) => fits(bumped(*old(self), m)) && final(self).parts() == bumped(*old(self), m),
                Err(VersionError::Overflow(n)) => !fits(bumped(*old(self), m)) && *final(self) == *old(self)
                    && n == (if m.major > 0 { old(self).major } else if m.minor > 0 { old(self).minor } else { old(self).patch }),
                Err(VersionError::Format(_)) => false,
            },
    {
        if m.major > 0 {
            if self.major > usize::MAX - m.major {
                return Err(VersionError::Overflow(self.major));
            }
            self.major = self.major + m.major;
            self.minor = 0;
            self.patch = 0;
        } else if m.minor > 0 {
            if self.minor > usize::MAX - m.minor {
                return Err(VersionError::Overflow(self.minor));
            }
            self.minor = self.minor + m.minor;
            self.patch = 0;
        } else {
            if self.patch > usize::MAX - m.patch {
                return Err(VersionError::Overflow(self.patch));
            }
            self.patch = self.patch + m.patch;
        }
        Ok(())
    }

    /// Increments by a mask `"x.y.z"` (see `parse_mask` and `add_mask`):
    /// `"0.1.0"` bumps the minor part, `"x.x.1"` the patch.
    pub fn increment_mask(&mut self, mask: &str) -> (r: Result<(), VersionError>)
        ensures
            match r {
                Ok(()) => parse_mask(mask@) matches Some(t) && fits(bumped(*old(self), Version { major: t.0, minor: t.1, patch: t.2 }))
                    && final(self).parts() == bumped(*old(self), Version { major: t.0, minor: t.1, patch: t.2 }),
                Err(VersionError::Format(t)) => parse_mask(mask@) is None && t@ == mask@ && *final(self) == *old(self),
                Err(VersionError::Overflow(_)) => parse_mask(mask@) matches Some(t)
                    && !fits(bumped(*old(self), Version { major: t.0, minor: t.1, patch: t.2 })) && *final(self) == *old(self),
            },
    {
        let m = Version::parse_mask(mask)?;
        self.add_mask(m)
    }
}

impl Default for Version {
    /// `0.1.0`.
    fn default() -> (r: Version)
        ensures
            r.parts() == (0int, 1int, 0int),
    {
        Version { major: 0, minor: 1, patch: 0 }
    }
}

impl core::ops::AddAssign for Version {
    /// `add_mask`, where an addition that does not fit leaves the version as it was.
    fn add_assign(&mut self, rhs: Version) {
        let _ = self.add_mask(rhs);
    }
}

impl core::str::FromStr for Version {
    type Err = VersionError;

    fn from_str(s: &str) -> Result<Version, VersionError> {
        Version::parse(s)
    }
}

/// Reading the text of a version gives the version back.
pub proof fn lemma_parse_text(v: Version)
    ensures
        parse_version(v.text()) == Some((v.major, v.minor, v.patch)),
{
    let a = decimal(v.major as nat);
    let b = decimal(v.minor as nat);
    let c = decimal(v.patch as nat);
    lemma_decimal(v.major as nat);
    lemma_decimal(v.minor as nat);
    lemma_decimal(v.patch as nat);
    assert forall|i: int| 0 <= i < a.len() implies a[i] != '.' by {
        assert(is_digit(a[i]));
    };
    assert forall|i: int| 0 <= i < b.len() implies b[i] != '.' by {
        assert(is_digit(b[i]));
    };
    assert forall|i: int| 0 <= i < c.len() implies c[i] != '.' by {
        assert(is_digit(c[i]));
    };
    lemma_split_three(a, b, c, '.');
    lemma_number_value_decimal(v.major);
    lemma_number_value_decimal(v.minor);
    lemma_number_value_decimal(v.patch);
}

/// A mask is accepted exactly when it has three dot-separated segments.
pub proof fn lemma_mask_segment_count(s: Seq<char>)
    ensures
        parse_mask(s) is None <==> split_on(s, '.').len() != 3,
{
}

/// A text with other than three dot-separated segments, or with a segment that
/// is not a number, is not a version.
pub proof fn lemma_parse_rejects(s: Seq<char>)
    requires
        split_on(s, '.').len() != 3 || (exists|i: int| 0 <= i < 3 && number_value(#[trigger] split_on(s, '.')[i]) is None),
    ensures
        parse_version(s) is None,
{
    if split_on(s, '.').len() == 3 {
        let i = choose|i: int| 0 <= i < 3 && number_value(#[trigger] split_on(s, '.')[i]) is None;
        assert(i == 0 || i == 1 || i == 2);
    }
}

} // verus!
