use crate::text::{trim, trim_of};
use vstd::prelude::*;

verus! {

/// `t` without one pair of matching enclosing quotes, single or double.
pub open spec fn unquoted(t: Seq<char>) -> Seq<char> {
    if t.len() >= 2 && ((t[0] == '"' && t.last() == '"') || (t[0] == '\'' && t.last() == '\'')) {
        t.subrange(1, t.len() - 1)
    } else {
        t
    }
}

/// A stored secret as it is shown back: trimmed, with one pair of enclosing
/// quotes removed, and trimmed again.
pub open spec fn cleaned(s: Seq<char>) -> Seq<char> {
    trim(unquoted(trim(s)))
}

/// Removes the quoting that a stored environment value may carry.
pub fn clean_registry_value(raw_value: &str) -> (r: String)
    ensures
        r@ == cleaned(raw_value@),
{
    let t = trim_of(raw_value);
    let n = t.unicode_len();
    let u = if n >= 2 && ((t.get_char(0) == '"' && t.get_char(n - 1) == '"') || (t.get_char(0)
        == '\'' && t.get_char(n - 1) == '\'')) {
        t.substring_char(1, n - 1)
    } else {
        t
    };
    String::from_str(trim_of(u))
}

/// Whether a cleaned secret counts as set: not empty and not the placeholder `NA`.
pub open spec fn key_present(clean: Seq<char>) -> bool {
    clean.len() > 0 && clean != "NA"@
}

/// How many characters of a secret are shown.
pub const PREVIEW_CHARS: usize = 10;

/// What is shown of a secret: its first characters followed by `...`, or
/// nothing when it is not set.
pub open spec fn preview(clean: Seq<char>) -> Seq<char> {
    if key_present(clean) {
        clean.take(if clean.len() < PREVIEW_CHARS {
            clean.len() as int
        } else {
            PREVIEW_CHARS as int
        }) + "..."@
    } else {
        Seq::empty()
    }
}

/// Whether a cleaned secret is set, and what is shown of it.
pub fn key_preview(clean: &str) -> (r: (bool, String))
    ensures
        r.0 == key_present(clean@),
        r.1@ == preview(clean@),
{
    let n = clean.unicode_len();
    let present = n > 0 && String::from_str(clean) != String::from_str("NA");
    if present {
        let k = if n < PREVIEW_CHARS {
            n
        } else {
            PREVIEW_CHARS
        };
        let head = String::from_str(clean.substring_char(0, k));
        (true, head.concat("..."))
    } else {
        (false, String::new())
    }
}

/// Whether a secret entered by the user is to be stored: it is not empty and
/// not the marker that keeps the stored one.
pub fn should_store_key(key: &str) -> (r: bool)
    ensures
        r == (key@.len() > 0 && key@ != "KEEP_EXISTING"@),
{
    key.unicode_len() > 0 && String::from_str(key) != String::from_str("KEEP_EXISTING")
}

/// What `str::to_uppercase` returns for `s`.
pub uninterp spec fn upper_of(s: Seq<char>) -> Seq<char>;

/// Relies on `str::to_uppercase`: the result depends on the characters alone.
#[verifier::external_body]
fn uppercase(s: &str) -> (r: String)
    ensures
        r@ == upper_of(s@),
{
    s.to_uppercase()
}

/// Longest value, in bytes, handed to the bounded command-line setter.
pub const MAX_SETTER_BYTES: usize = 1000;

/// Why a variable is not to be set through the bounded command-line setter,
/// which silently truncates long values.
#[derive(Clone, Copy, Debug, PartialEq, Eq, Structural)]
pub enum SetterRefusal {
    /// The search path goes through the unbounded store instead.
    SearchPath,
    /// The value has this many bytes, more than the setter keeps safely.
    TooLong(usize),
}

pub open spec fn setter_refusal(upper_name: Seq<char>, value_bytes: nat) -> Option<SetterRefusal> {
    if upper_name == "PATH"@ {
        Some(SetterRefusal::SearchPath)
    } else if value_bytes > MAX_SETTER_BYTES {
        Some(SetterRefusal::TooLong(value_bytes as usize))
    } else {
        None
    }
}

/// The guard of the bounded setter, given the upper-cased variable name.
pub fn bounded_setter_check(upper_name: &str, value: &str) -> (r: Result<(), SetterRefusal>)
    ensures
        match setter_refusal(upper_name@, value.len() as nat) {
            Some(f) => r == Err::<(), SetterRefusal>(f),
            None => r is Ok,
        },
{
    if String::from_str(upper_name) == String::from_str("PATH") {
        return Err(SetterRefusal::SearchPath);
    }
    let n = value.len();
    if n > MAX_SETTER_BYTES {
        return Err(SetterRefusal::TooLong(n));
    }
    Ok(())
}

/// Whether variable `name` may be set to `value` through the bounded setter.
pub fn check_bounded_setter(name: &str, value: &str) -> (r: Result<(), SetterRefusal>)
    ensures
        match setter_refusal(upper_of(name@), value.len() as nat) {
            Some(f) => r == Err::<(), SetterRefusal>(f),
            None => r is Ok,
        },
{
    let upper = uppercase(name);
    bounded_setter_check(upper.as_str(), value)
}

pub open spec fn starts_with(v: Seq<char>, p: Seq<char>) -> bool {
    p.len() <= v.len() && v.take(p.len() as int) == p
}

pub open spec fn ends_with(v: Seq<char>, p: Seq<char>) -> bool {
    p.len() <= v.len() && v.skip(v.len() - p.len()) == p
}

/// `v` without a leading `p`, then without a trailing `p`.
pub open spec fn strip_both(v: Seq<char>, p: Seq<char>) -> Seq<char> {
    let a = if starts_with(v, p) {
        v.skip(p.len() as int)
    } else {
        v
    };
    if ends_with(a, p) {
        a.take(a.len() - p.len())
    } else {
        a
    }
}

/// `v` without one enclosing pair of `q`.
pub open spec fn strip_pair(v: Seq<char>, q: char) -> Seq<char> {
    if v.len() >= 2 && v[0] == q && v.last() == q {
        v.subrange(1, v.len() - 1)
    } else {
        v
    }
}

/// One round of quote removal: each quoting pattern, longest first, at both
/// ends, then one enclosing pair of double and of single quotes.
pub open spec fn quote_round(v: Seq<char>) -> Seq<char> {
    let v = strip_both(v, "\"\\\""@);
    let v = strip_both(v, "\\\""@);
    let v = strip_both(v, "\"'"@);
    let v = strip_both(v, "'\""@);
    let v = strip_both(v, "\"\""@);
    let v = strip_both(v, "''"@);
    let v = strip_both(v, "\""@);
    let v = strip_both(v, "'"@);
    strip_pair(strip_pair(v, '"'), '\'')
}

/// Rounds of quote removal until a round removes nothing.
pub open spec fn unquote_all(v: Seq<char>) -> Seq<char>
    decreases v.len(),
{
    if quote_round(v).len() < v.len() {
        unquote_all(quote_round(v))
    } else {
        v
    }
}

/// `s` with each non-overlapping `f`, from the left, replaced by `t`, as
/// `str::replace` does; `f` is not empty.
pub open spec fn replaced(s: Seq<char>, f: Seq<char>, t: Seq<char>) -> Seq<char>
    decreases s.len(),
{
    if s.len() == 0 || f.len() == 0 {
        s
    } else if starts_with(s, f) {
        t + replaced(s.skip(f.len() as int), f, t)
    } else {
        seq![s[0]] + replaced(s.drop_first(), f, t)
    }
}

/// `s` without its trailing run of `c`.
pub open spec fn strip_trailing(s: Seq<char>, c: char) -> Seq<char>
    decreases s.len(),
{
    if s.len() > 0 && s.last() == c {
        strip_trailing(s.drop_last(), c)
    } else {
        s
    }
}

/// A value read back from the Windows user environment store, cleaned for
/// display: quoting removed round by round, escapes undone, stray trailing
/// backslashes and quotes dropped, and whitespace trimmed.
pub open spec fn cleaned_windows(s: Seq<char>) -> Seq<char> {
    let v = unquote_all(trim(s));
    let v = replaced(v, "\\\""@, "\""@);
    let v = replaced(v, "\\'"@, "'"@);
    let v = replaced(v, "\\\\"@, "\\"@);
    let v = strip_trailing(v, '\\');
    let v = strip_trailing(v, '"');
    let v = strip_trailing(v, '\'');
    trim(v)
}

fn has_prefix(v: &str, p: &str) -> (r: bool)
    ensures
        r == starts_with(v@, p@),
{
    let n = v.unicode_len();
    let m = p.unicode_len();
    m <= n && String::from_str(v.substring_char(0, m)) == String::from_str(p)
}

fn has_suffix(v: &str, p: &str) -> (r: bool)
    ensures
        r == ends_with(v@, p@),
{
    let n = v.unicode_len();
    let m = p.unicode_len();
    m <= n && String::from_str(v.substring_char(n - m, n)) == String::from_str(p)
}

fn strip_both_of<'a>(v: &'a str, p: &str) -> (r: &'a str)
    ensures
        r@ == strip_both(v@, p@),
{
    let m = p.unicode_len();
    let a = if has_prefix(v, p) {
        v.substring_char(m, v.unicode_len())
    } else {
        v
    };
    if has_suffix(a, p) {
        a.substring_char(0, a.unicode_len() - m)
    } else {
        a
    }
}

fn strip_pair_of(v: &str, q: char) -> (r: &str)
    ensures
        r@ == strip_pair(v@, q),
{
    let n = v.unicode_len();
    if n >= 2 && v.get_char(0) == q && v.get_char(n - 1) == q {
        v.substring_char(1, n - 1)
    } else {
        v
    }
}

fn quote_round_of(v: &str) -> (r: &str)
    ensures
        r@ == quote_round(v@),
{
    let v = strip_both_of(v, "\"\\\"");
    let v = strip_both_of(v, "\\\"");
    let v = strip_both_of(v, "\"'");
    let v = strip_both_of(v, "'\"");
    let v = strip_both_of(v, "\"\"");
    let v = strip_both_of(v, "''");
    let v = strip_both_of(v, "\"");
    let v = strip_both_of(v, "'");
    strip_pair_of(strip_pair_of(v, '"'), '\'')
}

fn replace_of(s: &str, f: &str, t: &str) -> (r: String)
    requires
        f@.len() > 0,
    ensures
        r@ == replaced(s@, f@, t@),
{
    let n = s.unicode_len();
    let m = f.unicode_len();
    let mut out = String::new();
    let mut i: usize = 0;
    assert(s@.skip(0) =~= s@);
    while i < n
        invariant
            n == s@.len(),
            m == f@.len(),
            m > 0,
            i <= n,
            out@ + replaced(s@.skip(i as int), f@, t@) == replaced(s@, f@, t@),
        decreases n - i,
    {
        let rest = s.substring_char(i, n);
        assert(rest@ =~= s@.skip(i as int));
        if has_prefix(rest, f) {
            assert(s@.skip(i as int).skip(m as int) =~= s@.skip(i + m));
            assert(out@ + t@ + replaced(s@.skip(i + m), f@, t@) =~= out@ + (t@ + replaced(
                s@.skip(i + m),
                f@,
                t@,
            )));
            out.append(t);
            i = i + m;
        } else {
            let c = s.substring_char(i, i + 1);
            assert(c@ =~= seq![s@.skip(i as int)[0]]);
            assert(s@.skip(i as int).drop_first() =~= s@.skip(i + 1));
            assert(out@ + c@ + replaced(s@.skip(i + 1), f@, t@) =~= out@ + (c@ + replaced(
                s@.skip(i + 1),
                f@,
                t@,
            )));
            out.append(c);
            i = i + 1;
        }
    }
    assert(out@ + replaced(s@.skip(n as int), f@, t@) =~= out@);
    out
}

fn strip_trailing_of(s: &str, c: char) -> (r: &str)
    ensures
        r@ == strip_trailing(s@, c),
{
    let mut j = s.unicode_len();
    assert(s@.take(j as int) =~= s@);
    while j > 0 && s.get_char(j - 1) == c
        invariant
            j <= s@.len(),
            strip_trailing(s@, c) == strip_trailing(s@.take(j as int), c),
        decreases j,
    {
        assert(s@.take(j as int).drop_last() =~= s@.take(j - 1));
        j = j - 1;
    }
    s.substring_char(0, j)
}

/// Cleans a value read back from the Windows user environment store.
pub fn clean_registry_value_windows(raw_value: &str) -> (r: String)
    ensures
        r@ == cleaned_windows(raw_value@),
{
    let mut v = trim_of(raw_value);
    loop
        invariant
            unquote_all(v@) == unquote_all(trim(raw_value@)),
        ensures
            v@ == unquote_all(trim(raw_value@)),
        decreases v@.len(),
    {
        let w = quote_round_of(v);
        if w.unicode_len() < v.unicode_len() {
            v = w;
        } else {
            assert(unquote_all(v@) == v@);
            break;
        }
    }
    proof {
        reveal_strlit("\\\"");
        reveal_strlit("\\'");
        reveal_strlit("\\\\");
    }
    let a = replace_of(v, "\\\"", "\"");
    let b = replace_of(a.as_str(), "\\'", "'");
    let c = replace_of(b.as_str(), "\\\\", "\\");
    let d = strip_trailing_of(c.as_str(), '\\');
    let e = strip_trailing_of(d, '"');
    let f = strip_trailing_of(e, '\'');
    String::from_str(trim_of(f))
}

} // verus!
