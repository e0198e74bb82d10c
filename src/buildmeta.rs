//! Build metadata: a build counter, a timestamp, a commit hash, and a template
//! that renders them into a dot-separated identifier string.
//!
//! Template syntax: literal text with placeholders in braces. `\` makes the next
//! character literal (a trailing `\` is dropped). A placeholder runs to the first
//! `}` (or to the end of the template); its head is the text before the first `:`.
//! - `number`, `num`, `n`: the build number in decimal;
//! - `date`, `d`: the timestamp written with the strftime pattern after the first
//!   `:` (default `%Y%m%d`); a timestamp that is not RFC 3339 is written as stored;
//! - `hash`, `h`: the first characters of the hash, as many as the number after
//!   the first `:` says (default, and for anything that is not a number, 8); the
//!   whole hash where it is shorter.
//!
//! A placeholder with any other head, or a date pattern that cannot be rendered,
//! stays in the output as written, braces included. The assembled text must then
//! be a dot-separated run of identifiers.
use vstd::prelude::*;
use vstd::string::StringExecFns;
use crate::identifier::{check_dot_separated_chars, dot_separated_check, FormatError};
use crate::pre::format_error_text;
use crate::text::{
    char_seq, chars_eq_str, decimal, decimal_string, find_char, find_from, is_digit, lemma_decimal,
    lemma_find_char, lemma_find_char_bound, lemma_number_value_decimal, number_value, parse_number,
    push_char, push_chars, push_decimal, sub_chars,
};

verus! {

/// The template used where none was configured.
pub const DEFAULT_FORMAT: &'static str = "{number}.{date:%Y%m%d}.{hash:8}";

/// Whether `date` reads as an RFC 3339 timestamp.
pub uninterp spec fn is_rfc3339(date: Seq<char>) -> bool;

/// The RFC 3339 timestamp `date` written with the strftime `pattern`; `None`
/// where the pattern cannot be rendered.
pub uninterp spec fn strftime_text(date: Seq<char>, pattern: Seq<char>) -> Option<Seq<char>>;

/// Relies on chrono: `DateTime::parse_from_rfc3339` decides whether `date` is an
/// RFC 3339 timestamp, and `DelayedFormat::write_to` on `DateTime::format(pattern)`
/// writes it with the strftime pattern, or reports an error for a pattern that
/// holds an item it cannot render.
#[verifier::external_body]
fn format_rfc3339(date: &str, pattern: &str) -> (r: Option<Option<String>>)
    ensures
        r is Some <==> is_rfc3339(date@),
        r matches Some(Some(s)) ==> strftime_text(date@, pattern@) == Some(s@),
        r matches Some(None) ==> strftime_text(date@, pattern@) is None,
{
    match chrono::DateTime::parse_from_rfc3339(date) {
        Ok(dt) => {
            let mut out = String::new();
            match dt.format(pattern).write_to(&mut out) {
                Ok(()) => Some(Some(out)),
                Err(_) => Some(None),
            }
        },
        Err(_) => None,
    }
}

/// Relies on chrono's `Local::now` and `DateTime::to_rfc3339`: the current local
/// time as RFC 3339 text, which `DateTime::parse_from_rfc3339` reads back.
#[verifier::external_body]
fn now_rfc3339() -> (r: String)
    ensures
        is_rfc3339(r@),
{
    chrono::Local::now().to_rfc3339()
}

/// What can go wrong with build metadata.
#[derive(Debug, Clone)]
pub enum BuildMetaError {
    /// The rendered text is not a dot-separated identifier; it carries that text.
    Format(String),
    /// Incrementing would overflow; it carries the value before the increment.
    Overflow(usize),
    /// The commit hash could not be read; it carries the reason.
    Git(String),
    /// The time could not be read.
    Date,
}

impl BuildMetaError {
    pub open spec fn text(&self) -> Seq<char> {
        match self {
            BuildMetaError::Format(s) => "フォーマットが不正です: "@ + s@,
            BuildMetaError::Overflow(n) => "数値が指定できる範囲を超えています: "@ + decimal(*n as nat) + "+1"@,
            BuildMetaError::Git(s) => "Git情報の取得に失敗しました: "@ + s@,
            BuildMetaError::Date => "日時の取得に失敗しました"@,
        }
    }

    /// The error, as text.
    pub fn to_string(&self) -> (r: String)
        ensures
            r@ == self.text(),
    {
        match self {
            BuildMetaError::Format(s) => {
                let mut r = "フォーマットが不正です: ".to_owned();
                r.append(s.as_str());
                r
            },
            BuildMetaError::Overflow(n) => {
                let mut r = "数値が指定できる範囲を超えています: ".to_owned();
                push_decimal(&mut r, *n);
                r.append("+1");
                r
            },
            BuildMetaError::Git(s) => {
                let mut r = "Git情報の取得に失敗しました: ".to_owned();
                r.append(s.as_str());
                r
            },
            BuildMetaError::Date => "日時の取得に失敗しました".to_owned(),
        }
    }
}

/// The head of a placeholder body: the text before the first `:`.
pub open spec fn head_of(body: Seq<char>) -> Seq<char> {
    match find_char(body, ':') {
        Some(k) => body.take(k as int),
        None => body,
    }
}

/// The parameter of a placeholder body: the text after the first `:`, if any.
pub open spec fn args_of(body: Seq<char>) -> Option<Seq<char>> {
    match find_char(body, ':') {
        Some(k) => Some(body.skip(k + 1int)),
        None => None,
    }
}

/// The strftime pattern of a date placeholder.
pub open spec fn date_pattern(args: Option<Seq<char>>) -> Seq<char> {
    match args {
        Some(a) => a,
        None => "%Y%m%d"@,
    }
}

/// The number of hash characters a hash placeholder asks for.
pub open spec fn hash_width(args: Option<Seq<char>>) -> nat {
    match args {
        Some(a) => match number_value(head_of(a)) {
            Some(n) => n as nat,
            None => 8,
        },
        None => 8,
    }
}

/// The first `n` characters of `hash`, or all of it where it is shorter.
pub open spec fn hash_prefix(hash: Seq<char>, n: nat) -> Seq<char> {
    if n <= hash.len() {
        hash.take(n as int)
    } else {
        hash
    }
}

/// What a placeholder body stands for; `None` where it is left as written.
pub open spec fn expansion(number: usize, date: Seq<char>, hash: Seq<char>, body: Seq<char>) -> Option<Seq<char>> {
    let h = head_of(body);
    if h == "number"@ || h == "num"@ || h == "n"@ {
        Some(decimal(number as nat))
    } else if h == "date"@ || h == "d"@ {
        if is_rfc3339(date) {
            strftime_text(date, date_pattern(args_of(body)))
        } else {
            Some(date)
        }
    } else if h == "hash"@ || h == "h"@ {
        Some(hash_prefix(hash, hash_width(args_of(body))))
    } else {
        None
    }
}

/// Index of the `}` closing the placeholder that `f` starts with.
pub open spec fn closing_brace(f: Seq<char>) -> Option<int> {
    match find_char(f.drop_first(), '}') {
        Some(k) => Some(k + 1int),
        None => None,
    }
}

/// The template `f` with escapes and placeholders worked out.
pub open spec fn assemble(number: usize, date: Seq<char>, hash: Seq<char>, f: Seq<char>) -> Seq<char>
    decreases f.len(),
{
    if f.len() == 0 {
        Seq::empty()
    } else if f[0] == '\\' {
        if f.len() == 1 {
            Seq::empty()
        } else {
            seq![f[1]] + assemble(number, date, hash, f.subrange(2, f.len() as int))
        }
    } else if f[0] == '{' {
        proof {
            lemma_find_char_bound(f.drop_first(), '}');
        }
        match closing_brace(f) {
            Some(e) => {
                let piece = match expansion(number, date, hash, f.subrange(1, e)) {
                    Some(x) => x,
                    None => f.subrange(0, e + 1),
                };
                piece + assemble(number, date, hash, f.subrange(e + 1, f.len() as int))
            },
            None => match expansion(number, date, hash, f.drop_first()) {
                Some(x) => x,
                None => f,
            },
        }
    } else {
        seq![f[0]] + assemble(number, date, hash, f.drop_first())
    }
}

/// The rendering of template `f`: the assembled text, if it is a dot-separated
/// run of identifiers, else the reason it is not.
pub open spec fn render(number: usize, date: Seq<char>, hash: Seq<char>, f: Seq<char>) -> Result<Seq<char>, FormatError> {
    let out = assemble(number, date, hash, f);
    match dot_separated_check(out) {
        Ok(()) => Ok(out),
        Err(e) => Err(e),
    }
}

/// A backslash makes the character after it literal: it is copied as it is and
/// starts no placeholder.
pub proof fn lemma_escape(number: usize, date: Seq<char>, hash: Seq<char>, c: char, rest: Seq<char>)
    ensures
        assemble(number, date, hash, seq!['\\', c] + rest) == seq![c] + assemble(number, date, hash, rest),
{
    let f = seq!['\\', c] + rest;
    assert(f[0] == '\\' && f[1] == c);
    assert(f.subrange(2, f.len() as int) =~= rest);
}

/// A closed placeholder is replaced by what it stands for, or left as written,
/// braces included, where it stands for nothing.
pub proof fn lemma_placeholder(number: usize, date: Seq<char>, hash: Seq<char>, body: Seq<char>, rest: Seq<char>)
    requires
        forall|i: int| 0 <= i < body.len() ==> body[i] != '}',
    ensures
        assemble(number, date, hash, seq!['{'] + body + seq!['}'] + rest) == match expansion(number, date, hash, body) {
            Some(x) => x,
            None => seq!['{'] + body + seq!['}'],
        } + assemble(number, date, hash, rest),
{
    let f = seq!['{'] + body + seq!['}'] + rest;
    let t = f.drop_first();
    assert(t =~= body + seq!['}'] + rest);
    lemma_find_char(t, '}', body.len() as int);
    let e: int = body.len() + 1int;
    assert(closing_brace(f) == Some(e));
    assert(f.subrange(1, e) =~= body);
    assert(f.subrange(0, e + 1) =~= seq!['{'] + body + seq!['}']);
    assert(f.subrange(e + 1, f.len() as int) =~= rest);
}

/// A placeholder whose head is none of `number`, `num`, `n`, `date`, `d`, `hash`,
/// `h` is copied to the output unchanged.
pub proof fn lemma_unknown_placeholder(number: usize, date: Seq<char>, hash: Seq<char>, body: Seq<char>, rest: Seq<char>)
    requires
        forall|i: int| 0 <= i < body.len() ==> body[i] != '}',
        head_of(body) != "number"@ && head_of(body) != "num"@ && head_of(body) != "n"@,
        head_of(body) != "date"@ && head_of(body) != "d"@,
        head_of(body) != "hash"@ && head_of(body) != "h"@,
    ensures
        assemble(number, date, hash, seq!['{'] + body + seq!['}'] + rest)
            == seq!['{'] + body + seq!['}'] + assemble(number, date, hash, rest),
{
    lemma_placeholder(number, date, hash, body, rest);
}

/// `{hash:w}` stands for the first `w` characters of the hash, and for the whole
/// hash, unpadded, where `w` is at least its length.
pub proof fn lemma_hash_width(number: usize, date: Seq<char>, hash: Seq<char>, w: usize)
    ensures
        expansion(number, date, hash, "hash:"@ + decimal(w as nat)) == Some(hash_prefix(hash, w as nat)),
        w >= hash.len() ==> expansion(number, date, hash, "hash:"@ + decimal(w as nat)) == Some(hash),
{
    reveal_strlit("hash:");
    reveal_strlit("hash");
    let d = decimal(w as nat);
    let body = "hash:"@ + d;
    lemma_find_char(body, ':', 4);
    assert(body.take(4) =~= "hash"@);
    assert(body.skip(5) =~= d);
    lemma_decimal(w as nat);
    assert forall|j: int| 0 <= j < d.len() implies d[j] != ':' by {
        assert(is_digit(d[j]));
    };
    lemma_find_char(d, ':', d.len() as int);
    lemma_number_value_decimal(w);
    assert(head_of(body) == "hash"@);
    assert(head_of(body) != "number"@) by {
        reveal_strlit("number");
    };
    assert(head_of(body) != "num"@) by {
        reveal_strlit("num");
    };
    assert(head_of(body) != "n"@) by {
        reveal_strlit("n");
    };
    assert(head_of(body) != "date"@) by {
        reveal_strlit("date");
        assert("hash"@[0] != "date"@[0]);
    };
    assert(head_of(body) != "d"@) by {
        reveal_strlit("d");
    };
}

/// A string holding the characters of `v`.
fn chars_to_string(v: &Vec<char>) -> (r: String)
    ensures
        r@ == v@,
{
    let mut r = String::new();
    push_chars(&mut r, v);
    assert(r@ =~= v@);
    r
}

/// Build metadata. No invariant: a template may render to invalid text, which
/// is reported when it is rendered.
#[derive(Debug, Clone)]
pub struct BuildMetaData {
    pub number: usize,
    /// The build time, stored as RFC 3339 text.
    pub date: String,
    pub hash: String,
    pub format: String,
}

impl BuildMetaData {
    pub open spec fn assembled(&self, f: Seq<char>) -> Seq<char> {
        assemble(self.number, self.date@, self.hash@, f)
    }

    pub open spec fn rendered(&self, f: Seq<char>) -> Result<Seq<char>, FormatError> {
        render(self.number, self.date@, self.hash@, f)
    }

    pub fn new(number: usize, date: String, hash: String, format: String) -> (r: BuildMetaData)
        ensures
            r.number == number,
            r.date == date,
            r.hash == hash,
            r.format == format,
    {
        BuildMetaData { number, date, hash, format }
    }

    /// The first `size` characters of the hash, or all of it where it is shorter.
    fn hash_head(&self, size: usize) -> (r: String)
        ensures
            r@ == hash_prefix(self.hash@, size as nat),
    {
        let h = char_seq(self.hash.as_str());
        if size <= h.len() {
            let p = sub_chars(&h, 0, size);
            chars_to_string(&p)
        } else {
            self.hash.clone()
        }
    }

    /// What the placeholder body `body` stands for; `None` where it is left as written.
    fn expand(&self, body: &Vec<char>) -> (r: Option<String>)
        ensures
            match r {
                Some(s) => expansion(self.number, self.date@, self.hash@, body@) == Some(s@),
                None => expansion(self.number, self.date@, self.hash@, body@) is None,
            },
    {
        let colon = find_from(body, 0, ':');
        assert(body@.subrange(0, body@.len() as int) =~= body@);
        proof {
            lemma_find_char_bound(body@, ':');
        }
        let head = match colon {
            Some(k) => sub_chars(body, 0, k),
            None => sub_chars(body, 0, body.len()),
        };
        let args = match colon {
            Some(k) => Some(sub_chars(body, k + 1, body.len())),
            None => None,
        };
        assert(head@ =~= head_of(body@));
        assert(match args {
            Some(a) => args_of(body@) == Some(a@),
            None => args_of(body@) is None,
        });
        if chars_eq_any3(&head, "number", "num", "n") {
            return Some(decimal_string(self.number));
        }
        if chars_eq_any2(&head, "date", "d") {
            let pattern = match &args {
                Some(a) => chars_to_string(a),
                None => "%Y%m%d".to_owned(),
            };
            assert(pattern@ == date_pattern(args_of(body@)));
            return match format_rfc3339(self.date.as_str(), pattern.as_str()) {
                Some(text) => text,
                None => Some(self.date.clone()),
            };
        }
        if chars_eq_any2(&head, "hash", "h") {
            let width = match &args {
                Some(a) => {
                    let c = find_from(a, 0, ':');
                    assert(a@.subrange(0, a@.len() as int) =~= a@);
                    proof {
                        lemma_find_char_bound(a@, ':');
                    }
                    let first = match c {
                        Some(k) => sub_chars(a, 0, k),
                        None => sub_chars(a, 0, a.len()),
                    };
                    assert(first@ =~= head_of(a@));
                    match parse_number(&first) {
                        Some(n) => n,
                        None => 8,
                    }
                },
                None => 8,
            };
            assert(width as nat == hash_width(args_of(body@)));
            return Some(self.hash_head(width));
        }
        None
    }

    /// The template `fmt` with escapes and placeholders worked out, before the
    /// identifier check.
    pub fn assemble_string(&self, fmt: &str) -> (r: String)
        ensures
            r@ == self.assembled(fmt@),
    {
        let f = char_seq(fmt);
        let n = f.len();
        let mut out = String::new();
        let mut i: usize = 0;
        assert(f@.subrange(0, n as int) =~= f@);
        assert(out@ + self.assembled(f@) =~= self.assembled(f@));
        while i < n
            invariant
                n == f.len(),
                i <= n,
                self.assembled(f@) == out@ + self.assembled(f@.subrange(i as int, n as int)),
            decreases n - i,
        {
            let ghost t = f@.subrange(i as int, n as int);
            let ghost before = out@;
            let c = f[i];
            assert(t[0] == c);
            if c == '\\' {
                if i + 1 < n {
                    push_char(&mut out, f[i + 1]);
                    assert(t.subrange(2, t.len() as int) =~= f@.subrange(i + 2, n as int));
                    i = i + 2;
                    assert(out@ + self.assembled(f@.subrange(i as int, n as int)) =~= before + self.assembled(t));
                } else {
                    i = i + 1;
                    assert(f@.subrange(i as int, n as int) =~= Seq::<char>::empty());
                    assert(out@ + self.assembled(f@.subrange(i as int, n as int)) =~= before + self.assembled(t));
                }
            } else if c == '{' {
                let close = find_from(&f, i + 1, '}');
                assert(t.drop_first() =~= f@.subrange(i + 1, n as int));
                proof {
                    lemma_find_char_bound(t.drop_first(), '}');
                }
                match close {
                    Some(e) => {
                        let body = sub_chars(&f, i + 1, e);
                        assert(body@ =~= t.subrange(1, e - i));
                        match self.expand(&body) {
                            Some(s) => {
                                out.append(s.as_str());
                            },
                            None => {
                                let lit = sub_chars(&f, i, e + 1);
                                assert(lit@ =~= t.subrange(0, e - i + 1));
                                push_chars(&mut out, &lit);
                            },
                        }
                        assert(t.subrange(e - i + 1, t.len() as int) =~= f@.subrange(e + 1, n as int));
                        i = e + 1;
                        assert(out@ + self.assembled(f@.subrange(i as int, n as int)) =~= before + self.assembled(t));
                    },
                    None => {
                        let body = sub_chars(&f, i + 1, n);
                        match self.expand(&body) {
                            Some(s) => {
                                out.append(s.as_str());
                            },
                            None => {
                                let lit = sub_chars(&f, i, n);
                                push_chars(&mut out, &lit);
                            },
                        }
                        i = n;
                        assert(f@.subrange(i as int, n as int) =~= Seq::<char>::empty());
                        assert(out@ + self.assembled(f@.subrange(i as int, n as int)) =~= before + self.assembled(t));
                    },
                }
            } else {
                push_char(&mut out, c);
                i = i + 1;
                assert(t.drop_first() =~= f@.subrange(i as int, n as int));
                assert(out@ + self.assembled(f@.subrange(i as int, n as int)) =~= before + self.assembled(t));
            }
        }
        assert(f@.subrange(i as int, n as int) =~= Seq::<char>::empty());
        assert(out@ + self.assembled(f@.subrange(i as int, n as int)) =~= out@);
        out
    }
}

impl BuildMetaData {
    /// Renders the template `fmt`: the assembled text, if it is a dot-separated
    /// run of identifiers.
    pub fn create_fmt_string(&self, fmt: &str) -> (r: Result<String, FormatError>)
        ensures
            match r {
                Ok(s) => self.rendered(fmt@) == Ok::<Seq<char>, FormatError>(s@),
                Err(e) => self.rendered(fmt@) == Err::<Seq<char>, FormatError>(e),
            },
    {
        let out = self.assemble_string(fmt);
        let chars = char_seq(out.as_str());
        match check_dot_separated_chars(&chars) {
            Ok(()) => Ok(out),
            Err(e) => Err(e),
        }
    }

    /// Renders the configured template.
    pub fn create_string(&self) -> (r: Result<String, FormatError>)
        ensures
            match r {
                Ok(s) => self.rendered(self.format@) == Ok::<Seq<char>, FormatError>(s@),
                Err(e) => self.rendered(self.format@) == Err::<Seq<char>, FormatError>(e),
            },
    {
        self.create_fmt_string(self.format.as_str())
    }

    /// Renders the template `fmt`; where the result is not a dot-separated
    /// identifier, the error carries the text that was assembled.
    pub fn show_fmt(&self, fmt: &str) -> (r: Result<String, BuildMetaError>)
        ensures
            match r {
                Ok(s) => dot_separated_check(self.assembled(fmt@)) is Ok && s@ == self.assembled(fmt@),
                Err(BuildMetaError::Format(t)) => dot_separated_check(self.assembled(fmt@)) is Err
                    && t@ == self.assembled(fmt@),
                Err(_) => false,
            },
    {
        let out = self.assemble_string(fmt);
        let chars = char_seq(out.as_str());
        match check_dot_separated_chars(&chars) {
            Ok(()) => Ok(out),
            Err(_) => Err(BuildMetaError::Format(out)),
        }
    }

    /// Renders the configured template, as `show_fmt` does.
    pub fn show(&self) -> (r: Result<String, BuildMetaError>)
        ensures
            match r {
                Ok(s) => dot_separated_check(self.assembled(self.format@)) is Ok && s@ == self.assembled(self.format@),
                Err(BuildMetaError::Format(t)) => dot_separated_check(self.assembled(self.format@)) is Err
                    && t@ == self.assembled(self.format@),
                Err(_) => false,
            },
    {
        self.show_fmt(self.format.as_str())
    }

    /// The rendering of the configured template, or the reason it failed.
    pub fn show_all(&self) -> (r: String)
        ensures
            r@ == match self.rendered(self.format@) {
                Ok(s) => s,
                Err(e) => format_error_text(e),
            },
    {
        match self.create_string() {
            Ok(s) => s,
            Err(e) => e.to_string(),
        }
    }

    /// Adds 1 to the build number; at the largest value it fails and nothing changes.
    pub fn increment_number(&mut self) -> (r: Result<(), BuildMetaError>)
        ensures
            final(self).date == old(self).date,
            final(self).hash == old(self).hash,
            final(self).format == old(self).format,
            match r {
                Ok(()) => old(self).number < usize::MAX && final(self).number == old(self).number + 1,
                Err(BuildMetaError::Overflow(n)) => old(self).number == usize::MAX && n == usize::MAX
                    && final(self).number == old(self).number,
                Err(_) => false,
            },
    {
        if self.number == usize::MAX {
            return Err(BuildMetaError::Overflow(self.number));
        }
        self.number = self.number + 1;
        Ok(())
    }

    /// Sets the date to the current local time, as RFC 3339 text.
    pub fn update_date(&mut self) -> (r: Result<(), BuildMetaError>)
        ensures
            r is Ok,
            is_rfc3339(final(self).date@),
            final(self).number == old(self).number,
            final(self).hash == old(self).hash,
            final(self).format == old(self).format,
    {
        self.date = now_rfc3339();
        Ok(())
    }

    /// Takes the outcome of reading the current commit hash: a hash replaces the
    /// stored one; a failure, with its reason, is reported as `Git` and nothing changes.
    pub fn update_hash(&mut self, commit: Result<String, String>) -> (r: Result<(), BuildMetaError>)
        ensures
            final(self).number == old(self).number,
            final(self).date == old(self).date,
            final(self).format == old(self).format,
            match commit {
                Ok(h) => r is Ok && final(self).hash == h,
                Err(m) => r == Err::<(), BuildMetaError>(BuildMetaError::Git(m)) && final(self).hash == old(self).hash,
            },
    {
        match commit {
            Ok(h) => {
                self.hash = h;
                Ok(())
            },
            Err(m) => Err(BuildMetaError::Git(m)),
        }
    }

    pub fn set_number(&mut self, n: usize)
        ensures
            *final(self) == (BuildMetaData { number: n, ..*old(self) }),
    {
        self.number = n;
    }

    pub fn set_date(&mut self, date: &str)
        ensures
            final(self).date@ == date@,
            final(self).number == old(self).number,
            final(self).hash == old(self).hash,
            final(self).format == old(self).format,
    {
        self.date = date.to_owned();
    }

    pub fn set_hash(&mut self, hash: &str)
        ensures
            final(self).hash@ == hash@,
            final(self).number == old(self).number,
            final(self).date == old(self).date,
            final(self).format == old(self).format,
    {
        self.hash = hash.to_owned();
    }

    /// Replaces the template; it is checked only when it is rendered.
    pub fn set_format(&mut self, format: &str)
        ensures
            final(self).format@ == format@,
            final(self).number == old(self).number,
            final(self).date == old(self).date,
            final(self).hash == old(self).hash,
    {
        self.format = format.to_owned();
    }

    pub fn get_number(&self) -> (r: usize)
        ensures
            r == self.number,
    {
        self.number
    }

    pub fn get_date(&self) -> (r: String)
        ensures
            r == self.date,
    {
        self.date.clone()
    }

    pub fn get_hash(&self) -> (r: String)
        ensures
            r == self.hash,
    {
        self.hash.clone()
    }

    pub fn get_format(&self) -> (r: String)
        ensures
            r == self.format,
    {
        self.format.clone()
    }
}

/// The hash a commit lookup gives: the hash it found, or none where it failed.
pub open spec fn commit_hash(commit: Result<String, String>) -> Seq<char> {
    match commit {
        Ok(h) => h@,
        Err(_) => Seq::empty(),
    }
}

impl BuildMetaData {
    /// A new record: number 0, the current local time, the hash the commit
    /// lookup found (none where it failed), and the default template.
    pub fn fresh(commit: &Result<String, String>) -> (r: BuildMetaData)
        ensures
            r.number == 0,
            is_rfc3339(r.date@),
            r.hash@ == commit_hash(*commit),
            r.format@ == DEFAULT_FORMAT@,
    {
        let hash = match commit {
            Ok(h) => h.clone(),
            Err(_) => String::new(),
        };
        BuildMetaData { number: 0, date: now_rfc3339(), hash, format: DEFAULT_FORMAT.to_owned() }
    }
}

impl Default for BuildMetaData {
    /// Number 0, the current local time, no hash, and the default template.
    /// `fresh` makes such a record with a commit hash.
    fn default() -> (r: BuildMetaData)
        ensures
            r.number == 0,
            is_rfc3339(r.date@),
            r.hash@ == Seq::<char>::empty(),
            r.format@ == DEFAULT_FORMAT@,
    {
        BuildMetaData {
            number: 0,
            date: now_rfc3339(),
            hash: String::new(),
            format: DEFAULT_FORMAT.to_owned(),
        }
    }
}

/// Whether `v` holds exactly one of the three texts.
fn chars_eq_any3(v: &Vec<char>, a: &str, b: &str, c: &str) -> (r: bool)
    ensures
        r == (v@ == a@ || v@ == b@ || v@ == c@),
{
    chars_eq_str(v, a) || chars_eq_str(v, b) || chars_eq_str(v, c)
}

/// Whether `v` holds exactly one of the two texts.
fn chars_eq_any2(v: &Vec<char>, a: &str, b: &str) -> (r: bool)
    ensures
        r == (v@ == a@ || v@ == b@),
{
    chars_eq_str(v, a) || chars_eq_str(v, b)
}

} // verus!
