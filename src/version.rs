use crate::text::{
    all_digits, digits_value, index_of, is_digit, is_ws, lemma_index_of_at, lemma_run_concat, run,
    unsigned_digits, parse_u32, parse_u32_of, second_word, second_word_of, split_once, split_once_char,
    strip_leading, trim_start_char,
};
use vstd::prelude::*;

verus! {

/// Whether `"name MAJOR.MINOR.PATCH"` names a scripting runtime of version 3.8 or later.
pub open spec fn python_version_ok(s: Seq<char>) -> bool {
    match second_word(s) {
        Some(w) => match split_once(w, '.') {
            Some((major, rest)) => match split_once(rest, '.') {
                Some((minor, _)) => match (parse_u32(major), parse_u32(minor)) {
                    (Some(maj), Some(min)) => maj > 3 || (maj == 3 && min >= 8),
                    _ => false,
                },
                None => false,
            },
            None => false,
        },
        None => false,
    }
}

/// Whether `"vMAJOR.MINOR.PATCH"` names a managed runtime of major version 16 or later.
pub open spec fn nodejs_version_ok(s: Seq<char>) -> bool {
    match split_once(strip_leading(s, 'v'), '.') {
        Some((major, _)) => match parse_u32(major) {
            Some(maj) => maj >= 16,
            None => false,
        },
        None => false,
    }
}

/// Version gate of the scripting runtime: the second word of the probe output
/// must read `MAJOR.MINOR.…` with a version of at least 3.8.
pub fn is_python_version_sufficient(version_string: &str) -> (r: bool)
    ensures
        r == python_version_ok(version_string@),
{
    if let Some(version_part) = second_word_of(version_string) {
        if let Some((major, rest)) = split_once_char(version_part, '.') {
            if let Some((minor, _)) = split_once_char(rest, '.') {
                if let (Some(maj), Some(min)) = (parse_u32_of(major), parse_u32_of(minor)) {
                    return maj > 3 || (maj == 3 && min >= 8);
                }
            }
        }
    }
    false
}

/// Version gate of the managed runtime: after the leading `v`s, the major
/// version must be at least 16.
pub fn is_nodejs_version_sufficient(version_string: &str) -> (r: bool)
    ensures
        r == nodejs_version_ok(version_string@),
{
    let version_clean = trim_start_char(version_string, 'v');
    if let Some((major, _)) = split_once_char(version_clean, '.') {
        if let Some(maj) = parse_u32_of(major) {
            return maj >= 16;
        }
    }
    false
}

/// A well-formed numeric version `MAJOR.MINOR.PATCH`, with `MAJOR` and `MINOR`
/// small enough to read as `u32`.
pub open spec fn numeric_version(major: Seq<char>, minor: Seq<char>, patch: Seq<char>) -> bool {
    &&& major.len() > 0 && all_digits(major) && digits_value(major) <= u32::MAX
    &&& minor.len() > 0 && all_digits(minor) && digits_value(minor) <= u32::MAX
    &&& patch.len() > 0 && all_digits(patch)
}

pub open spec fn dotted(major: Seq<char>, minor: Seq<char>, patch: Seq<char>) -> Seq<char> {
    major + seq!['.'] + minor + seq!['.'] + patch
}

proof fn lemma_digits_nonneg(d: Seq<char>)
    requires
        all_digits(d),
    ensures
        digits_value(d) >= 0,
    decreases d.len(),
{
    if d.len() > 0 {
        assert(is_digit(d[d.len() - 1]));
        assert(all_digits(d.drop_last())) by {
            assert forall|i: int| 0 <= i < d.drop_last().len() implies is_digit(
                #[trigger] d.drop_last()[i],
            ) by {
                assert(d.drop_last()[i] == d[i]);
            }
        }
        lemma_digits_nonneg(d.drop_last());
    }
}

proof fn lemma_digits_parse(d: Seq<char>)
    requires
        d.len() > 0,
        all_digits(d),
        digits_value(d) <= u32::MAX,
    ensures
        parse_u32(d) == Some(digits_value(d) as u32),
        0 <= digits_value(d) <= u32::MAX,
{
    assert(is_digit(d[0]));
    assert(unsigned_digits(d) == d);
    lemma_digits_nonneg(d);
}

/// The two leading dot-separated numbers of a dotted version.
proof fn lemma_dotted_split(major: Seq<char>, minor: Seq<char>, patch: Seq<char>)
    requires
        numeric_version(major, minor, patch),
    ensures
        split_once(dotted(major, minor, patch), '.') == Some(
            (major, minor + seq!['.'] + patch),
        ),
        split_once(minor + seq!['.'] + patch, '.') == Some((minor, patch)),
        parse_u32(major) == Some(digits_value(major) as u32),
        parse_u32(minor) == Some(digits_value(minor) as u32),
        0 <= digits_value(major) <= u32::MAX,
        0 <= digits_value(minor) <= u32::MAX,
{
    let w = dotted(major, minor, patch);
    let rest = minor + seq!['.'] + patch;
    assert(w == major + (seq!['.'] + rest));
    assert(w[major.len() as int] == '.');
    assert forall|j: int| 0 <= j < major.len() implies w[j] != '.' by {
        assert(w[j] == major[j]);
        assert(is_digit(major[j]));
    }
    lemma_index_of_at(w, '.', major.len() as int);
    assert(w.take(major.len() as int) =~= major);
    assert(w.skip(major.len() as int + 1) =~= rest);
    assert(rest[minor.len() as int] == '.');
    assert forall|j: int| 0 <= j < minor.len() implies rest[j] != '.' by {
        assert(rest[j] == minor[j]);
        assert(is_digit(minor[j]));
    }
    lemma_index_of_at(rest, '.', minor.len() as int);
    assert(rest.take(minor.len() as int) =~= minor);
    assert(rest.skip(minor.len() as int + 1) =~= patch);
    lemma_digits_parse(major);
    lemma_digits_parse(minor);
}

/// A version line made of a name, one space and a dotted version
/// `major.minor.patch` passes the scripting-runtime gate exactly when the major
/// number exceeds 3, or is 3 with a minor number of at least 8.
pub proof fn lemma_python_gate(
    name: Seq<char>,
    major: Seq<char>,
    minor: Seq<char>,
    patch: Seq<char>,
)
    requires
        name.len() > 0,
        forall|i: int| 0 <= i < name.len() ==> !is_ws(#[trigger] name[i]),
        numeric_version(major, minor, patch),
    ensures
        python_version_ok(name + seq![' '] + dotted(major, minor, patch)) <==> (digits_value(major)
            > 3 || (digits_value(major) == 3 && digits_value(minor) >= 8)),
{
    let w = dotted(major, minor, patch);
    let s = name + seq![' '] + w;
    assert forall|i: int| 0 <= i < w.len() implies !is_ws(#[trigger] w[i]) by {
        if i < major.len() {
            assert(is_digit(major[i]));
        } else if i > major.len() && i < major.len() + 1 + minor.len() {
            assert(is_digit(minor[i - major.len() - 1]));
        } else if i > major.len() + 1 + minor.len() {
            assert(is_digit(patch[i - major.len() - minor.len() - 2]));
        }
    }
    assert(!is_ws(s[0]));
    assert(run(s, true) == 0);
    assert(s.skip(0) =~= name + (seq![' '] + w));
    lemma_run_concat(name, seq![' '] + w, false);
    let b = name.len() as int;
    assert(s.skip(b) =~= seq![' '] + w);
    lemma_run_concat(seq![' '], w, true);
    assert(s.skip(b + 1) =~= w + Seq::<char>::empty());
    lemma_run_concat(w, Seq::<char>::empty(), false);
    assert(s.subrange(b + 1, s.len() as int) =~= w);
    assert(second_word(s) == Some(w));
    lemma_dotted_split(major, minor, patch);
}

/// A version line made of `v` and a dotted version `major.minor.patch` passes
/// the managed-runtime gate exactly when the major number is at least 16.
pub proof fn lemma_nodejs_gate(major: Seq<char>, minor: Seq<char>, patch: Seq<char>)
    requires
        numeric_version(major, minor, patch),
    ensures
        nodejs_version_ok(seq!['v'] + dotted(major, minor, patch)) <==> digits_value(major) >= 16,
{
    let w = dotted(major, minor, patch);
    let s = seq!['v'] + w;
    assert(s.drop_first() =~= w);
    assert(is_digit(major[0]));
    assert(w[0] == major[0]);
    assert(strip_leading(w, 'v') == w);
    assert(strip_leading(s, 'v') == w);
    lemma_dotted_split(major, minor, patch);
}

} // verus!
