//! The full version: a core, an optional pre-release and optional build
//! metadata, displayed as `"{version}"`, then `"-{pre}"` and `"+{build}"` where
//! present. Each change can describe itself as `"{label} {before} -> {after}"`.
use vstd::prelude::*;
use vstd::string::StringExecFns;
use crate::buildmeta::{commit_hash, is_rfc3339, BuildMetaData, BuildMetaError, DEFAULT_FORMAT};
use crate::pre::{format_error_text, pre_text, PreRelease, PreReleaseError};
use crate::text::{decimal, decimal_string, push_char};
use crate::version::{Version, VersionError};

verus! {

/// What can go wrong with the full version.
#[derive(Debug)]
pub enum FuVerError {
    /// Setting up a new version record failed; it carries the reason.
    InitError(String),
    /// A version core operation failed.
    Version(VersionError),
    /// A pre-release or build metadata operation failed; it carries the message.
    Error(String),
    /// The operation reads a pre-release, and there is none.
    PreReleaseNotDefined,
    /// The operation reads build metadata, and there is none.
    BuildMetaDataNotDefined,
}

impl FuVerError {
    pub open spec fn text(&self) -> Seq<char> {
        match self {
            FuVerError::InitError(s) => "Initialize Error: "@ + s@,
            FuVerError::Version(e) => "Version Error: "@ + e.text(),
            FuVerError::Error(s) => "Error: "@ + s@,
            FuVerError::PreReleaseNotDefined => "Pre-Release is Not Defined."@,
            FuVerError::BuildMetaDataNotDefined => "BuildMetaData is Not Defined."@,
        }
    }

    /// The error, as text.
    pub fn to_string(&self) -> (r: String)
        ensures
            r@ == self.text(),
    {
        match self {
            FuVerError::InitError(s) => {
                let mut r = "Initialize Error: ".to_owned();
                r.append(s.as_str());
                r
            },
            FuVerError::Version(e) => {
                let mut r = "Version Error: ".to_owned();
                let m = e.to_string();
                r.append(m.as_str());
                r
            },
            FuVerError::Error(s) => {
                let mut r = "Error: ".to_owned();
                r.append(s.as_str());
                r
            },
            FuVerError::PreReleaseNotDefined => "Pre-Release is Not Defined.".to_owned(),
            FuVerError::BuildMetaDataNotDefined => "BuildMetaData is Not Defined.".to_owned(),
        }
    }
}

/// The line describing a change, unless the change is to stay silent.
pub open spec fn change_report(silent: bool, label: Seq<char>, before: Seq<char>, after: Seq<char>) -> Option<Seq<char>> {
    if silent {
        None
    } else {
        Some(label + " "@ + before + " -> "@ + after)
    }
}

pub open spec fn report_view(r: Option<String>) -> Option<Seq<char>> {
    match r {
        Some(s) => Some(s@),
        None => None,
    }
}

/// How build metadata displays: its rendering, or the reason it failed.
pub open spec fn build_text(b: BuildMetaData) -> Seq<char> {
    match b.rendered(b.format@) {
        Ok(s) => s,
        Err(e) => format_error_text(e),
    }
}

/// The tag a pre-release operation works on: the present one, or the default `alpha`.
pub open spec fn tag_or_default(p: Option<PreRelease>) -> Seq<char> {
    match p {
        Some(x) => x.tag_view(),
        None => "alpha"@,
    }
}

/// The number a pre-release operation works on: the present one, or none.
pub open spec fn number_or_default(p: Option<PreRelease>) -> Option<usize> {
    match p {
        Some(x) => x.number_view(),
        None => None,
    }
}

/// `b0` is the build metadata an operation starts from: the present one, or a
/// fresh record holding the hash `hash` (its date is the time it was made).
pub open spec fn starts_from(o: Option<BuildMetaData>, hash: Seq<char>, b0: BuildMetaData) -> bool {
    match o {
        Some(x) => b0 == x,
        None => b0.number == 0 && b0.hash@ == hash && b0.format@ == DEFAULT_FORMAT@ && is_rfc3339(b0.date@),
    }
}

/// `b` with the date `d`.
pub open spec fn with_date(b: BuildMetaData, d: String) -> BuildMetaData {
    BuildMetaData { date: d, ..b }
}

/// `b` with the hash `h`.
pub open spec fn with_hash(b: BuildMetaData, h: String) -> BuildMetaData {
    BuildMetaData { hash: h, ..b }
}

/// Builds the line `"{label} {before} -> {after}"`, or nothing when silent.
fn describe(label: &str, before: &String, after: &String, silent: bool) -> (r: Option<String>)
    ensures
        report_view(r) == change_report(silent, label@, before@, after@),
{
    if silent {
        return None;
    }
    let mut line = label.to_owned();
    push_char(&mut line, ' ');
    line.append(before.as_str());
    line.append(" -> ");
    line.append(after.as_str());
    assert(line@ =~= label@ + " "@ + before@ + " -> "@ + after@) by {
        reveal_strlit(" ");
    };
    Some(line)
}

/// A full version.
#[derive(Debug)]
pub struct FuVer {
    pub version: Version,
    pub pre: Option<PreRelease>,
    pub build: Option<BuildMetaData>,
}

impl Default for FuVer {
    /// Version `0.1.0`, with neither pre-release nor build metadata.
    fn default() -> (r: FuVer)
        ensures
            r.version.parts() == (0int, 1int, 0int),
            r.pre is None,
            r.build is None,
    {
        FuVer { version: Version::default(), pre: None, build: None }
    }
}

impl FuVer {
    /// The display text: `"{version}"`, then `"-{pre}"` and `"+{build}"` where present.
    pub open spec fn text(&self) -> Seq<char> {
        self.version.text() + match self.pre {
            Some(p) => "-"@ + p.text(),
            None => Seq::empty(),
        } + match self.build {
            Some(b) => "+"@ + build_text(b),
            None => Seq::empty(),
        }
    }

    pub fn new(version: Version, pre: Option<PreRelease>, build: Option<BuildMetaData>) -> (r: FuVer)
        ensures
            r.version == version,
            r.pre == pre,
            r.build == build,
    {
        FuVer { version, pre, build }
    }

    /// The display text of the whole version.
    pub fn to_string(&self) -> (r: String)
        ensures
            r@ == self.text(),
    {
        let mut r = self.version.to_string();
        if let Some(p) = &self.pre {
            r.append("-");
            let t = p.to_string();
            r.append(t.as_str());
        }
        if let Some(b) = &self.build {
            r.append("+");
            let t = b.show_all();
            r.append(t.as_str());
        }
        assert(r@ =~= self.text());
        r
    }

    /// Increments the major part and describes the change.
    pub fn incr_ver_major(&mut self, silent: bool) -> (r: Result<Option<String>, FuVerError>)
        ensures
            final(self).pre == old(self).pre,
            final(self).build == old(self).build,
            match r {
                Ok(line) => old(self).version.major < usize::MAX
                    && final(self).version.parts() == (old(self).version.major + 1, 0int, 0int)
                    && report_view(line) == change_report(silent, "Increment Major Version"@, old(self).version.text(), final(self).version.text()),
                Err(FuVerError::Version(VersionError::Overflow(n))) => old(self).version.major == usize::MAX
                    && n == usize::MAX && final(self).version == old(self).version,
                Err(_) => false,
            },
    {
        let before = self.version.to_string();
        match self.version.increment_major() {
            Ok(()) => {
                let after = self.version.to_string();
                Ok(describe("Increment Major Version", &before, &after, silent))
            },
            Err(e) => Err(FuVerError::Version(e)),
        }
    }

    pub fn incr_ver_minor(&mut self, silent: bool) -> (r: Result<Option<String>, FuVerError>)
        ensures
            final(self).pre == old(self).pre,
            final(self).build == old(self).build,
            match r {
                Ok(line) => old(self).version.minor < usize::MAX
                    && final(self).version.parts() == (old(self).version.major as int, old(self).version.minor + 1, 0int)
                    && report_view(line) == change_report(silent, "Increment Minor Version"@, old(self).version.text(), final(self).version.text()),
                Err(FuVerError::Version(VersionError::Overflow(n))) => old(self).version.minor == usize::MAX
                    && n == usize::MAX && final(self).version == old(self).version,
                Err(_) => false,
            },
    {
        let before = self.version.to_string();
        match self.version.increment_minor() {
            Ok(()) => {
                let after = self.version.to_string();
                Ok(describe("Increment Minor Version", &before, &after, silent))
            },
            Err(e) => Err(FuVerError::Version(e)),
        }
    }

    pub fn incr_ver_patch(&mut self, silent: bool) -> (r: Result<Option<String>, FuVerError>)
        ensures
            final(self).pre == old(self).pre,
            final(self).build == old(self).build,
            match r {
                Ok(line) => old(self).version.patch < usize::MAX
                    && final(self).version.parts() == (old(self).version.major as int, old(self).version.minor as int, old(self).version.patch + 1)
                    && report_view(line) == change_report(silent, "Increment Patch Version"@, old(self).version.text(), final(self).version.text()),
                Err(FuVerError::Version(VersionError::Overflow(n))) => old(self).version.patch == usize::MAX
                    && n == usize::MAX && final(self).version == old(self).version,
                Err(_) => false,
            },
    {
        let before = self.version.to_string();
        match self.version.increment_patch() {
            Ok(()) => {
                let after = self.version.to_string();
                Ok(describe("Increment Patch Version", &before, &after, silent))
            },
            Err(e) => Err(FuVerError::Version(e)),
        }
    }
    /// Increments the version core by a mask (see `Version::increment_mask`) and
    /// describes the change.
    pub fn incr_ver_mask(&mut self, mask: &str, silent: bool) -> (r: Result<Option<String>, FuVerError>)
        ensures
            final(self).pre == old(self).pre,
            final(self).build == old(self).build,
            match r {
                Ok(line) => crate::version::parse_mask(mask@) matches Some(t)
                    && final(self).version.parts() == crate::version::bumped(old(self).version, Version { major: t.0, minor: t.1, patch: t.2 })
                    && report_view(line) == change_report(silent, "Increment Version"@, old(self).version.text(), final(self).version.text()),
                Err(FuVerError::Version(VersionError::Format(m))) => crate::version::parse_mask(mask@) is None
                    && m@ == mask@ && final(self).version == old(self).version,
                Err(FuVerError::Version(VersionError::Overflow(_))) => crate::version::parse_mask(mask@) matches Some(t)
                    && !crate::version::fits(crate::version::bumped(old(self).version, Version { major: t.0, minor: t.1, patch: t.2 }))
                    && final(self).version == old(self).version,
                Err(_) => false,
            },
    {
        let before = self.version.to_string();
        match self.version.increment_mask(mask) {
            Ok(()) => {
                let after = self.version.to_string();
                Ok(describe("Increment Version", &before, &after, silent))
            },
            Err(e) => Err(FuVerError::Version(e)),
        }
    }

    /// Increments the version core by a mask, without a description.
    pub fn increment_version(&mut self, mask: &str) -> (r: Result<(), String>)
        ensures
            final(self).pre == old(self).pre,
            final(self).build == old(self).build,
            match r {
                Ok(()) => crate::version::parse_mask(mask@) matches Some(t)
                    && final(self).version.parts() == crate::version::bumped(old(self).version, Version { major: t.0, minor: t.1, patch: t.2 }),
                Err(m) => final(self).version == old(self).version && (crate::version::parse_mask(mask@) matches Some(t)
                    ==> !crate::version::fits(crate::version::bumped(old(self).version, Version { major: t.0, minor: t.1, patch: t.2 }))),
            },
    {
        match self.version.increment_mask(mask) {
            Ok(()) => Ok(()),
            Err(e) => Err(e.to_string()),
        }
    }

    /// Increments the pre-release number, starting from the default pre-release
    /// where there is none; the pre-release is present afterwards either way.
    pub fn incr_pre(&mut self, silent: bool) -> (r: Result<Option<String>, FuVerError>)
        ensures
            final(self).version == old(self).version,
            final(self).build == old(self).build,
            final(self).pre matches Some(p) && p.tag_view() == tag_or_default(old(self).pre)
                && (match r {
                Ok(line) => (match number_or_default(old(self).pre) {
                    Some(n) => n < usize::MAX && p.number_view() == Some((n + 1) as usize),
                    None => p.number_view() == Some(1usize),
                }) && report_view(line) == change_report(silent, "Increment Pre-Release"@,
                    pre_text(tag_or_default(old(self).pre), number_or_default(old(self).pre)), p.text()),
                Err(FuVerError::Error(m)) => number_or_default(old(self).pre) == Some(usize::MAX)
                    && p.number_view() == Some(usize::MAX)
                    && m@ == PreReleaseError::Overflow(usize::MAX).text(),
                Err(_) => false,
            }),
    {
        let mut p = match self.pre.take() {
            Some(p) => p,
            None => PreRelease::default(),
        };
        let before = p.to_string();
        let res = p.increment_number();
        let after = p.to_string();
        self.pre = Some(p);
        match res {
            Ok(()) => Ok(describe("Increment Pre-Release", &before, &after, silent)),
            Err(e) => Err(FuVerError::Error(e.to_string())),
        }
    }

    /// Takes the build metadata out, or a fresh record with the hash of the
    /// commit lookup where there is none.
    fn take_build(&mut self, commit: &Result<String, String>) -> (r: BuildMetaData)
        ensures
            starts_from(old(self).build, commit_hash(*commit), r),
            final(self).build is None,
            final(self).version == old(self).version,
            final(self).pre == old(self).pre,
    {
        match self.build.take() {
            Some(b) => b,
            None => BuildMetaData::fresh(commit),
        }
    }

    /// Increments the build number, starting from a fresh record with the hash of `commit` where
    /// there is none; the record is present afterwards either way.
    pub fn incr_build_num(&mut self, commit: &Result<String, String>, silent: bool) -> (r: Result<Option<String>, FuVerError>)
        ensures
            final(self).version == old(self).version,
            final(self).pre == old(self).pre,
            final(self).build matches Some(b) && starts_from(old(self).build, commit_hash(*commit), BuildMetaData { number: match old(self).build {
                Some(b0) => b0.number,
                None => 0,
            }, ..b }) && (match r {
                Ok(line) => b.number == (match old(self).build {
                    Some(b0) => b0.number,
                    None => 0,
                }) + 1 && report_view(line) == change_report(silent, "Increment Build Number"@,
                    build_text(BuildMetaData { number: (b.number - 1) as usize, ..b }), build_text(b)),
                Err(FuVerError::Error(m)) => b.number == usize::MAX && starts_from(old(self).build, commit_hash(*commit), b)
                    && m@ == BuildMetaError::Overflow(usize::MAX).text(),
                Err(_) => false,
            }),
    {
        let mut b = self.take_build(commit);
        let ghost b0 = b;
        let before = b.show_all();
        let res = b.increment_number();
        let after = b.show_all();
        assert(b0 == BuildMetaData { number: b0.number, ..b });
        self.build = Some(b);
        match res {
            Ok(()) => Ok(describe("Increment Build Number", &before, &after, silent)),
            Err(e) => Err(FuVerError::Error(e.to_string())),
        }
    }

    /// Increments the build number, without a description.
    pub fn increment_build(&mut self, commit: &Result<String, String>) -> (r: Result<(), String>)
        ensures
            final(self).version == old(self).version,
            final(self).pre == old(self).pre,
            final(self).build matches Some(b) && starts_from(old(self).build, commit_hash(*commit), BuildMetaData { number: match old(self).build {
                Some(b0) => b0.number,
                None => 0,
            }, ..b }) && (match r {
                Ok(()) => b.number == (match old(self).build {
                    Some(b0) => b0.number,
                    None => 0,
                }) + 1,
                Err(m) => b.number == usize::MAX && starts_from(old(self).build, commit_hash(*commit), b)
                    && m@ == BuildMetaError::Overflow(usize::MAX).text(),
            }),
    {
        let mut b = self.take_build(commit);
        let ghost b0 = b;
        let res = b.increment_number();
        assert(b0 == BuildMetaData { number: b0.number, ..b });
        self.build = Some(b);
        match res {
            Ok(()) => Ok(()),
            Err(e) => Err(e.to_string()),
        }
    }

    /// Sets the build date to now, starting from a fresh record with the hash of `commit` where
    /// there is none.
    pub fn incr_build_date(&mut self, commit: &Result<String, String>, silent: bool) -> (r: Result<Option<String>, FuVerError>)
        ensures
            final(self).version == old(self).version,
            final(self).pre == old(self).pre,
            r is Ok,
            final(self).build is Some,
            is_rfc3339(final(self).build->0.date@),
            exists|d: String|
                starts_from(old(self).build, commit_hash(*commit), #[trigger] with_date(final(self).build->0, d))
                && report_view(r->Ok_0) == change_report(silent, "Increment Build Date"@,
                    build_text(with_date(final(self).build->0, d)), build_text(final(self).build->0)),
    {
        let mut b = self.take_build(commit);
        let ghost b0 = b;
        let before = b.show_all();
        let _ = b.update_date();
        let after = b.show_all();
        assert(b0 == with_date(b, b0.date));
        self.build = Some(b);
        let line = describe("Increment Build Date", &before, &after, silent);
        assert(starts_from(old(self).build, commit_hash(*commit), with_date(self.build->0, b0.date)));
        assert(report_view(line) == change_report(silent, "Increment Build Date"@, build_text(with_date(self.build->0, b0.date)), build_text(self.build->0)));
        Ok(line)
    }

    /// Takes the outcome of reading the current commit hash and stores the hash,
    /// starting from a fresh record where there is none; a failure is reported
    /// and leaves the hash as it was.
    pub fn incr_build_hash(&mut self, commit: Result<String, String>, silent: bool) -> (r: Result<Option<String>, FuVerError>)
        ensures
            final(self).version == old(self).version,
            final(self).pre == old(self).pre,
            final(self).build matches Some(b) && (match commit {
                Ok(h) => b.hash == h && (r matches Ok(line) && exists|h0: String|
                    starts_from(old(self).build, commit_hash(commit), #[trigger] with_hash(b, h0))
                    && report_view(line) == change_report(silent, "Increment Build Hash"@,
                        build_text(with_hash(b, h0)), build_text(b))),
                Err(m) => starts_from(old(self).build, commit_hash(commit), b) && (r matches Err(FuVerError::Error(t))
                    && t@ == BuildMetaError::Git(m).text()),
            }),
    {
        let mut b = self.take_build(&commit);
        let ghost b0 = b;
        let before = b.show_all();
        let res = b.update_hash(commit);
        assert(b0 == with_hash(b, b0.hash));
        let after = b.show_all();
        self.build = Some(b);
        match res {
            Ok(()) => Ok(describe("Increment Build Hash", &before, &after, silent)),
            Err(e) => Err(FuVerError::Error(e.to_string())),
        }
    }

    fn get_prerelease(&self) -> (r: Result<&PreRelease, FuVerError>)
        ensures
            match r {
                Ok(p) => self.pre == Some(*p),
                Err(e) => self.pre is None && e is PreReleaseNotDefined,
            },
    {
        match &self.pre {
            Some(p) => Ok(p),
            None => Err(FuVerError::PreReleaseNotDefined),
        }
    }

    fn get_build(&self) -> (r: Result<&BuildMetaData, FuVerError>)
        ensures
            match r {
                Ok(b) => self.build == Some(*b),
                Err(e) => self.build is None && e is BuildMetaDataNotDefined,
            },
    {
        match &self.build {
            Some(b) => Ok(b),
            None => Err(FuVerError::BuildMetaDataNotDefined),
        }
    }

    /// The text of the version core.
    pub fn show_version(&self) -> (r: String)
        ensures
            r@ == self.version.text(),
    {
        self.version.to_string()
    }

    pub fn show_major(&self) -> (r: Result<String, FuVerError>)
        ensures
            r matches Ok(s) && s@ == decimal(self.version.major as nat),
    {
        Ok(decimal_string(self.version.major))
    }

    pub fn show_minor(&self) -> (r: Result<String, FuVerError>)
        ensures
            r matches Ok(s) && s@ == decimal(self.version.minor as nat),
    {
        Ok(decimal_string(self.version.minor))
    }

    pub fn show_patch(&self) -> (r: Result<String, FuVerError>)
        ensures
            r matches Ok(s) && s@ == decimal(self.version.patch as nat),
    {
        Ok(decimal_string(self.version.patch))
    }

    /// The text of the pre-release; reading an absent one is an error.
    pub fn show_prerelease(&self) -> (r: Result<String, FuVerError>)
        ensures
            match self.pre {
                Some(p) => r matches Ok(s) && s@ == p.text(),
                None => r matches Err(e) && e is PreReleaseNotDefined,
            },
    {
        let p = self.get_prerelease()?;
        Ok(p.to_string())
    }

    pub fn show_prerelease_tag(&self) -> (r: Result<String, FuVerError>)
        ensures
            match self.pre {
                Some(p) => r matches Ok(s) && s@ == p.tag_view(),
                None => r matches Err(e) && e is PreReleaseNotDefined,
            },
    {
        let p = self.get_prerelease()?;
        Ok(p.get_tag())
    }

    /// The pre-release number in decimal, or empty text where it has none.
    pub fn show_prerelease_number(&self) -> (r: Result<String, FuVerError>)
        ensures
            match self.pre {
                Some(p) => r matches Ok(s) && s@ == match p.number_view() {
                    Some(n) => decimal(n as nat),
                    None => Seq::empty(),
                },
                None => r matches Err(e) && e is PreReleaseNotDefined,
            },
    {
        let p = self.get_prerelease()?;
        match p.get_number() {
            Some(n) => Ok(decimal_string(n)),
            None => Ok(String::new()),
        }
    }

    /// The build metadata rendered with the template `fmt`.
    pub fn show_build_fmt(&self, fmt: &str) -> (r: Result<String, FuVerError>)
        ensures
            match self.build {
                Some(b) => match b.rendered(fmt@) {
                    Ok(t) => r matches Ok(s) && s@ == t,
                    Err(_) => r matches Err(FuVerError::Error(m)) && m@ == "フォーマットが不正です: "@ + b.assembled(fmt@),
                },
                None => r matches Err(e) && e is BuildMetaDataNotDefined,
            },
    {
        let b = self.get_build()?;
        match b.show_fmt(fmt) {
            Ok(s) => Ok(s),
            Err(e) => Err(FuVerError::Error(e.to_string())),
        }
    }

    /// The build metadata rendered with its own template.
    pub fn show_build(&self) -> (r: Result<String, FuVerError>)
        ensures
            match self.build {
                Some(b) => match b.rendered(b.format@) {
                    Ok(t) => r matches Ok(s) && s@ == t,
                    Err(_) => r matches Err(FuVerError::Error(m)) && m@ == "フォーマットが不正です: "@ + b.assembled(b.format@),
                },
                None => r matches Err(e) && e is BuildMetaDataNotDefined,
            },
    {
        let b = self.get_build()?;
        match b.show() {
            Ok(s) => Ok(s),
            Err(e) => Err(FuVerError::Error(e.to_string())),
        }
    }

    pub fn show_build_number(&self) -> (r: Result<String, FuVerError>)
        ensures
            match self.build {
                Some(b) => r matches Ok(s) && s@ == decimal(b.number as nat),
                None => r matches Err(e) && e is BuildMetaDataNotDefined,
            },
    {
        let b = self.get_build()?;
        Ok(decimal_string(b.get_number()))
    }

    pub fn show_build_date(&self) -> (r: Result<String, FuVerError>)
        ensures
            match self.build {
                Some(b) => r matches Ok(s) && s == b.date,
                None => r matches Err(e) && e is BuildMetaDataNotDefined,
            },
    {
        let b = self.get_build()?;
        Ok(b.get_date())
    }

    pub fn show_build_hash(&self) -> (r: Result<String, FuVerError>)
        ensures
            match self.build {
                Some(b) => r matches Ok(s) && s == b.hash,
                None => r matches Err(e) && e is BuildMetaDataNotDefined,
            },
    {
        let b = self.get_build()?;
        Ok(b.get_hash())
    }

    /// How the build metadata displays: its rendering, or the reason it failed.
    pub fn show_build_all(&self) -> (r: Result<String, FuVerError>)
        ensures
            match self.build {
                Some(b) => r matches Ok(s) && s@ == build_text(b),
                None => r matches Err(e) && e is BuildMetaDataNotDefined,
            },
    {
        let b = self.get_build()?;
        Ok(b.show_all())
    }

    /// The display text of the whole version.
    pub fn show_full(&self) -> (r: String)
        ensures
            r@ == self.text(),
    {
        self.to_string()
    }

    /// Replaces the version core by the one `s` reads as, and describes the change.
    pub fn set_version(&mut self, s: &str, silent: bool) -> (r: Result<Option<String>, FuVerError>)
        ensures
            final(self).pre == old(self).pre,
            final(self).build == old(self).build,
            match r {
                Ok(line) => crate::version::parse_version(s@) == Some((final(self).version.major, final(self).version.minor, final(self).version.patch))
                    && report_view(line) == change_report(silent, "Set Version"@, old(self).version.text(), final(self).version.text()),
                Err(FuVerError::Error(m)) => crate::version::parse_version(s@) is None && final(self).version == old(self).version
                    && m@ == "バージョンが不正です: "@ + s@,
                Err(_) => false,
            },
    {
        let before = self.version.to_string();
        match self.version.set(s) {
            Ok(()) => {
                let after = self.version.to_string();
                Ok(describe("Set Version", &before, &after, silent))
            },
            Err(e) => Err(FuVerError::Error(e.to_string())),
        }
    }

    pub fn set_major(&mut self, n: usize, silent: bool) -> (r: Result<Option<String>, FuVerError>)
        ensures
            final(self).pre == old(self).pre,
            final(self).build == old(self).build,
            final(self).version == (Version { major: n, ..old(self).version }),
            r matches Ok(line) && report_view(line) == change_report(silent, "Set Major Version"@, old(self).version.text(), final(self).version.text()),
    {
        let before = self.version.to_string();
        self.version.set_major(n);
        let after = self.version.to_string();
        Ok(describe("Set Major Version", &before, &after, silent))
    }

    pub fn set_minor(&mut self, n: usize, silent: bool) -> (r: Result<Option<String>, FuVerError>)
        ensures
            final(self).pre == old(self).pre,
            final(self).build == old(self).build,
            final(self).version == (Version { minor: n, ..old(self).version }),
            r matches Ok(line) && report_view(line) == change_report(silent, "Set Minor Version"@, old(self).version.text(), final(self).version.text()),
    {
        let before = self.version.to_string();
        self.version.set_minor(n);
        let after = self.version.to_string();
        Ok(describe("Set Minor Version", &before, &after, silent))
    }

    pub fn set_patch(&mut self, n: usize, silent: bool) -> (r: Result<Option<String>, FuVerError>)
        ensures
            final(self).pre == old(self).pre,
            final(self).build == old(self).build,
            final(self).version == (Version { patch: n, ..old(self).version }),
            r matches Ok(line) && report_view(line) == change_report(silent, "Set Patch Version"@, old(self).version.text(), final(self).version.text()),
    {
        let before = self.version.to_string();
        self.version.set_patch(n);
        let after = self.version.to_string();
        Ok(describe("Set Patch Version", &before, &after, silent))
    }

    /// Replaces the pre-release as a whole by `tag` with `number` (none, or a
    /// positive number), starting from the default pre-release where there is
    /// none; on an error the pre-release it started from stays.
    pub fn set_pre(&mut self, tag: &str, number: Option<usize>, silent: bool) -> (r: Result<Option<String>, FuVerError>)
        ensures
            final(self).version == old(self).version,
            final(self).build == old(self).build,
            final(self).pre matches Some(p) && (match r {
                Ok(line) => crate::identifier::identifier_check(tag@) is Ok && number != Some(0usize)
                    && p.tag_view() == tag@ && p.number_view() == number
                    && report_view(line) == change_report(silent, "Set Pre-Release"@,
                        pre_text(tag_or_default(old(self).pre), number_or_default(old(self).pre)), p.text()),
                Err(FuVerError::Error(m)) => p.tag_view() == tag_or_default(old(self).pre)
                    && p.number_view() == number_or_default(old(self).pre)
                    && match crate::identifier::identifier_check(tag@) {
                        Err(e) => m@ == "フォーマットが不正です: "@ + format_error_text(e),
                        Ok(()) => number == Some(0usize) && m@ == PreReleaseError::InvalidNumber(0).text(),
                    },
                Err(_) => false,
            }),
    {
        let p = match self.pre.take() {
            Some(p) => p,
            None => PreRelease::default(),
        };
        let before = p.to_string();
        let made = match number {
            Some(n) => PreRelease::with_number(tag, n),
            None => PreRelease::new(tag),
        };
        match made {
            Ok(q) => {
                let after = q.to_string();
                self.pre = Some(q);
                Ok(describe("Set Pre-Release", &before, &after, silent))
            },
            Err(e) => {
                self.pre = Some(p);
                Err(FuVerError::Error(e.to_string()))
            },
        }
    }

    /// Removes the pre-release.
    pub fn remove_prerelease(&mut self)
        ensures
            final(self).version == old(self).version,
            final(self).build == old(self).build,
            final(self).pre is None,
    {
        self.pre = None;
    }

    /// Sets the build number, starting from a fresh record with the hash of `commit` where there is none.
    pub fn set_build_number(&mut self, n: usize, commit: &Result<String, String>, silent: bool) -> (r: Result<Option<String>, FuVerError>)
        ensures
            final(self).version == old(self).version,
            final(self).pre == old(self).pre,
            final(self).build matches Some(b) && b.number == n && starts_from(old(self).build, commit_hash(*commit), BuildMetaData { number: match old(self).build {
                Some(b0) => b0.number,
                None => 0,
            }, ..b }) && (r matches Ok(line) && report_view(line) == change_report(silent, "Set Build Number"@,
                build_text(BuildMetaData { number: match old(self).build {
                    Some(b0) => b0.number,
                    None => 0,
                }, ..b }), build_text(b))),
    {
        let mut b = self.take_build(commit);
        let ghost b0 = b;
        let before = b.show_all();
        b.set_number(n);
        let after = b.show_all();
        assert(b0 == BuildMetaData { number: b0.number, ..b });
        self.build = Some(b);
        Ok(describe("Set Build Number", &before, &after, silent))
    }

    /// Sets the build date text, starting from a fresh record with the hash of `commit` where there is none.
    pub fn set_build_date(&mut self, date: &str, commit: &Result<String, String>, silent: bool) -> (r: Result<Option<String>, FuVerError>)
        ensures
            final(self).version == old(self).version,
            final(self).pre == old(self).pre,
            r is Ok,
            final(self).build is Some,
            final(self).build->0.date@ == date@,
            exists|d: String|
                starts_from(old(self).build, commit_hash(*commit), #[trigger] with_date(final(self).build->0, d))
                && report_view(r->Ok_0) == change_report(silent, "Set Build Date"@,
                    build_text(with_date(final(self).build->0, d)), build_text(final(self).build->0)),
    {
        let mut b = self.take_build(commit);
        let ghost b0 = b;
        let before = b.show_all();
        b.set_date(date);
        let after = b.show_all();
        assert(b0 == with_date(b, b0.date));
        self.build = Some(b);
        let line = describe("Set Build Date", &before, &after, silent);
        assert(starts_from(old(self).build, commit_hash(*commit), with_date(self.build->0, b0.date)));
        assert(report_view(line) == change_report(silent, "Set Build Date"@, build_text(with_date(self.build->0, b0.date)), build_text(self.build->0)));
        Ok(line)
    }

    /// Sets the build hash, starting from a fresh record with the hash of `commit` where there is none.
    pub fn set_build_hash(&mut self, hash: &str, commit: &Result<String, String>, silent: bool) -> (r: Result<Option<String>, FuVerError>)
        ensures
            final(self).version == old(self).version,
            final(self).pre == old(self).pre,
            r is Ok,
            final(self).build is Some,
            final(self).build->0.hash@ == hash@,
            exists|h: String|
                starts_from(old(self).build, commit_hash(*commit), #[trigger] with_hash(final(self).build->0, h))
                && report_view(r->Ok_0) == change_report(silent, "Set Build Hash"@,
                    build_text(with_hash(final(self).build->0, h)), build_text(final(self).build->0)),
    {
        let mut b = self.take_build(commit);
        let ghost b0 = b;
        let before = b.show_all();
        b.set_hash(hash);
        let after = b.show_all();
        assert(b0 == with_hash(b, b0.hash));
        self.build = Some(b);
        let line = describe("Set Build Hash", &before, &after, silent);
        assert(starts_from(old(self).build, commit_hash(*commit), with_hash(self.build->0, b0.hash)));
        assert(report_view(line) == change_report(silent, "Set Build Hash"@, build_text(with_hash(self.build->0, b0.hash)), build_text(self.build->0)));
        Ok(line)
    }

    /// Sets the build template, starting from a fresh record with the hash of
    /// `commit` where there is none; the change is described by the templates themselves.
    pub fn set_build_fmt(&mut self, fmt: &str, commit: &Result<String, String>, silent: bool) -> (r: Result<Option<String>, FuVerError>)
        ensures
            final(self).version == old(self).version,
            final(self).pre == old(self).pre,
            r is Ok,
            final(self).build is Some,
            final(self).build->0.format@ == fmt@,
            report_view(r->Ok_0) == change_report(silent, "Set Build Format"@, match old(self).build {
                Some(b0) => b0.format@,
                None => DEFAULT_FORMAT@,
            }, fmt@),
            old(self).build matches Some(b0) ==> final(self).build->0.number == b0.number
                && final(self).build->0.date == b0.date && final(self).build->0.hash == b0.hash,
    {
        let mut b = self.take_build(commit);
        let before = b.get_format();
        b.set_format(fmt);
        let after = b.get_format();
        self.build = Some(b);
        Ok(describe("Set Build Format", &before, &after, silent))
    }

    /// Increments the build number, sets the date to now and stores the commit
    /// hash outcome, as one change; it needs build metadata to be present. A
    /// number overflow stops before anything changes; a failed hash read leaves
    /// the hash as it was, after the number and date have changed.
    pub fn incr_build_all(&mut self, commit: Result<String, String>, silent: bool) -> (r: Result<Option<String>, FuVerError>)
        ensures
            final(self).version == old(self).version,
            final(self).pre == old(self).pre,
            match old(self).build {
                None => final(self).build is None && (r matches Err(e) && e is BuildMetaDataNotDefined),
                Some(b0) => final(self).build matches Some(b) && b.format == b0.format && (if b0.number == usize::MAX {
                    b == b0 && (r matches Err(FuVerError::Error(m)) && m@ == BuildMetaError::Overflow(usize::MAX).text())
                } else {
                    b.number == b0.number + 1 && is_rfc3339(b.date@) && match commit {
                        Ok(h) => b.hash == h && (r matches Ok(line)
                            && report_view(line) == change_report(silent, "Increment Build"@, build_text(b0), build_text(b))),
                        Err(m) => b.hash == b0.hash && (r matches Err(FuVerError::Error(t)) && t@ == BuildMetaError::Git(m).text()),
                    }
                }),
            },
    {
        let current = match &self.build {
            Some(b) => b.show_all(),
            None => return Err(FuVerError::BuildMetaDataNotDefined),
        };
        if let Err(e) = self.incr_build_num(&commit, true) {
            return Err(e);
        }
        let _ = self.incr_build_date(&commit, true);
        if let Err(e) = self.incr_build_hash(commit, true) {
            return Err(e);
        }
        let new = match &self.build {
            Some(b) => b.show_all(),
            None => String::new(),
        };
        Ok(describe("Increment Build", &current, &new, silent))
    }
}

} // verus!
