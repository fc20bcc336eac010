use crate::text::{is_ws, lemma_trim_trimmed, lower_of, lowercase, trim, trim_of};
use vstd::prelude::*;

verus! {

/// The platform families whose persistent search path the installer updates.
#[derive(Clone, Copy, Debug, PartialEq, Eq, Structural)]
pub enum Platform {
    /// A user-scoped environment store read and written without a length ceiling;
    /// entries are `;`-separated and compared case-insensitively.
    Windows,
    /// A shell start-up file; entries are `:`-separated and compared exactly.
    Unix,
}

pub open spec fn separator_of(p: Platform) -> char {
    match p {
        Platform::Windows => ';',
        Platform::Unix => ':',
    }
}

pub open spec fn folds_case(p: Platform) -> bool {
    p == Platform::Windows
}

impl Platform {
    pub fn separator(&self) -> (r: char)
        ensures
            r == separator_of(*self),
    {
        match self {
            Platform::Windows => ';',
            Platform::Unix => ':',
        }
    }

    pub fn separator_str(&self) -> (r: &'static str)
        ensures
            r@ == seq![separator_of(*self)],
    {
        match self {
            Platform::Windows => {
                proof {
                    reveal_strlit(";");
                }
                ";"
            },
            Platform::Unix => {
                proof {
                    reveal_strlit(":");
                }
                ":"
            },
        }
    }

    pub fn case_insensitive(&self) -> (r: bool)
        ensures
            r == folds_case(*self),
    {
        match self {
            Platform::Windows => true,
            Platform::Unix => false,
        }
    }
}

/// `v[i..j]` is one of the `sep`-separated segments of `v`.
pub open spec fn is_segment(v: Seq<char>, sep: char, i: int, j: int) -> bool {
    &&& 0 <= i <= j <= v.len()
    &&& i == 0 || v[i - 1] == sep
    &&& j == v.len() || v[j] == sep
    &&& forall|k: int| i <= k < j ==> v[k] != sep
}

/// A stored segment names `entry`: after trimming, equal to it, ignoring case where `ci`.
pub open spec fn names_entry(seg: Seq<char>, entry: Seq<char>, ci: bool) -> bool {
    if ci {
        lower_of(trim(seg)) == lower_of(entry)
    } else {
        trim(seg) == entry
    }
}

pub open spec fn holds_entry(v: Seq<char>, entry: Seq<char>, sep: char, ci: bool) -> bool {
    exists|i: int, j: int|
        is_segment(v, sep, i, j) && #[trigger] names_entry(v.subrange(i, j), entry, ci)
}

/// An entry that can be stored: not empty, free of the separator, and trimmed.
pub open spec fn valid_entry(entry: Seq<char>, sep: char) -> bool {
    &&& entry.len() > 0
    &&& forall|k: int| 0 <= k < entry.len() ==> entry[k] != sep
    &&& !is_ws(entry[0])
    &&& !is_ws(entry.last())
}

/// The store after adding `entry`: unchanged where it is present; otherwise the
/// entry follows the old value, after a separator unless the value is empty
/// or already ends with one.
pub open spec fn appended(v: Seq<char>, entry: Seq<char>, sep: char, ci: bool) -> Seq<char> {
    if holds_entry(v, entry, sep, ci) {
        v
    } else if v.len() == 0 || v.last() == sep {
        v + entry
    } else {
        v + seq![sep] + entry
    }
}

/// Why an entry could not be added to the store.
#[derive(Clone, Debug, PartialEq, Eq)]
pub enum MutationCause {
    /// The entry is empty, holds the separator, or has surrounding whitespace.
    InvalidEntry,
    /// Writing the new value back to the store failed.
    WriteFailed(String),
}

/// A failed update of the store, with the entry it was for.
#[derive(Clone, Debug)]
pub struct MutationError {
    pub entry: String,
    pub cause: MutationCause,
}

/// The persistent search path of one platform, as read in full from its store.
pub struct PathMutator {
    pub platform: Platform,
    pub value: String,
}

fn segment_names(seg: &str, entry: &str, ci: bool) -> (r: bool)
    ensures
        r == names_entry(seg@, entry@, ci),
{
    let t = trim_of(seg);
    if ci {
        lowercase(t) == lowercase(entry)
    } else {
        String::from_str(t) == String::from_str(entry)
    }
}

/// Whether `entry` is one of the segments of `value`.
pub fn path_value_contains(value: &str, entry: &str, platform: Platform) -> (r: bool)
    ensures
        r == holds_entry(value@, entry@, separator_of(platform), folds_case(platform)),
{
    let sep = platform.separator();
    let ci = platform.case_insensitive();
    let v = value;
    let n = v.unicode_len();
    let mut start: usize = 0;
    let mut k: usize = 0;
    while k < n
        invariant
            n == v@.len(),
            v == value,
            sep == separator_of(platform),
            ci == folds_case(platform),
            start <= k <= n,
            start == 0 || v@[start - 1] == sep,
            forall|m: int| start <= m < k ==> v@[m] != sep,
            forall|i: int, j: int|
                is_segment(v@, sep, i, j) && j < k ==> !#[trigger] names_entry(
                    v@.subrange(i, j),
                    entry@,
                    ci,
                ),
        decreases n - k,
    {
        if v.get_char(k) == sep {
            let seg = v.substring_char(start, k);
            if segment_names(seg, entry, ci) {
                assert(is_segment(v@, sep, start as int, k as int));
                assert(names_entry(v@.subrange(start as int, k as int), entry@, ci));
                return true;
            }
            assert forall|i: int, j: int|
                is_segment(v@, sep, i, j) && j < k + 1 implies !#[trigger] names_entry(
                v@.subrange(i, j),
                entry@,
                ci,
            ) by {
                if j == k {
                    if i < start {
                        assert(v@[start - 1] == sep);
                    }
                    if i > start {
                        assert(v@[i - 1] == sep);
                    }
                }
            }
            start = k + 1;
        }
        k = k + 1;
    }
    let seg = v.substring_char(start, n);
    if segment_names(seg, entry, ci) {
        assert(is_segment(v@, sep, start as int, n as int));
        return true;
    }
    assert forall|i: int, j: int| is_segment(v@, sep, i, j) implies !#[trigger] names_entry(
        v@.subrange(i, j),
        entry@,
        ci,
    ) by {
        if j == n {
            if i < start {
                assert(v@[start - 1] == sep);
            }
            if i > start {
                assert(v@[i - 1] == sep);
            }
        }
    }
    false
}

fn entry_is_valid(entry: &str, sep: char) -> (r: bool)
    ensures
        r == valid_entry(entry@, sep),
{
    let n = entry.unicode_len();
    if n == 0 {
        return false;
    }
    let mut k: usize = 0;
    while k < n
        invariant
            n == entry@.len(),
            k <= n,
            forall|m: int| 0 <= m < k ==> entry@[m] != sep,
        decreases n - k,
    {
        if entry.get_char(k) == sep {
            return false;
        }
        k = k + 1;
    }
    !crate::text::is_whitespace(entry.get_char(0)) && !crate::text::is_whitespace(
        entry.get_char(n - 1),
    )
}

impl PathMutator {
    pub open spec fn sep(&self) -> char {
        separator_of(self.platform)
    }

    pub open spec fn ci(&self) -> bool {
        folds_case(self.platform)
    }

    pub open spec fn stored(&self) -> Seq<char> {
        self.value@
    }

    /// A mutator over `value`, the store's full current content.
    pub fn new(platform: Platform, value: String) -> (r: Self)
        ensures
            r.platform == platform,
            r.stored() == value@,
    {
        PathMutator { platform, value }
    }

    /// The store's content, as it is to be written back.
    pub fn value(&self) -> (r: &str)
        ensures
            r@ == self.stored(),
    {
        self.value.as_str()
    }

    pub fn contains(&self, entry: &str) -> (r: bool)
        ensures
            r == holds_entry(self.stored(), entry@, self.sep(), self.ci()),
    {
        path_value_contains(self.value.as_str(), entry, self.platform)
    }

    /// Adds `entry` unless it is already present. `Ok(true)` means the value
    /// changed and must be written back; `Ok(false)` that it was already there.
    pub fn append(&mut self, entry: &str) -> (r: Result<bool, MutationError>)
        ensures
            final(self).platform == old(self).platform,
            valid_entry(entry@, old(self).sep()) ==> {
                &&& r == Ok::<bool, MutationError>(
                    !holds_entry(old(self).stored(), entry@, old(self).sep(), old(self).ci()),
                )
                &&& final(self).stored() == appended(
                    old(self).stored(),
                    entry@,
                    old(self).sep(),
                    old(self).ci(),
                )
            },
            !valid_entry(entry@, old(self).sep()) ==> {
                &&& final(self).stored() == old(self).stored()
                &&& r matches Err(e) && e.entry@ == entry@ && e.cause
                    == MutationCause::InvalidEntry
            },
    {
        let sep = self.platform.separator();
        if !entry_is_valid(entry, sep) {
            return Err(MutationError { entry: String::from_str(entry), cause: MutationCause::InvalidEntry });
        }
        if self.contains(entry) {
            return Ok(false);
        }
        let n = self.value.as_str().unicode_len();
        let mut next = String::from_str(self.value.as_str());
        if n > 0 && self.value.as_str().get_char(n - 1) != sep {
            next.append(self.platform.separator_str());
        }
        next.append(entry);
        self.value = next;
        Ok(true)
    }
}

/// After adding a valid entry the store holds it, and adding it a second time
/// changes nothing.
pub proof fn lemma_append_idempotent(v: Seq<char>, entry: Seq<char>, sep: char, ci: bool)
    requires
        valid_entry(entry, sep),
    ensures
        holds_entry(appended(v, entry, sep, ci), entry, sep, ci),
        appended(appended(v, entry, sep, ci), entry, sep, ci) == appended(v, entry, sep, ci),
{
    if !holds_entry(v, entry, sep, ci) {
        let w = appended(v, entry, sep, ci);
        let p = w.len() - entry.len();
        assert(w.subrange(p, w.len() as int) =~= entry);
        assert forall|k: int| p <= k < w.len() implies w[k] != sep by {
            assert(w[k] == entry[k - p]);
        }
        if p > 0 {
            assert(w[p - 1] == sep);
        }
        lemma_trim_trimmed(entry);
        assert(is_segment(w, sep, p, w.len() as int));
        assert(names_entry(w.subrange(p, w.len() as int), entry, ci));
    }
}

/// Where the store did not hold a valid entry, after adding it the store holds
/// it exactly once: the only segment that names it is the one just added.
pub proof fn lemma_append_single(v: Seq<char>, entry: Seq<char>, sep: char, ci: bool)
    requires
        valid_entry(entry, sep),
        !holds_entry(v, entry, sep, ci),
    ensures
        forall|i: int, j: int|
            is_segment(appended(v, entry, sep, ci), sep, i, j) && #[trigger] names_entry(
                appended(v, entry, sep, ci).subrange(i, j),
                entry,
                ci,
            ) ==> i == appended(v, entry, sep, ci).len() - entry.len() && j == appended(
                v,
                entry,
                sep,
                ci,
            ).len(),
{
    let w = appended(v, entry, sep, ci);
    let p = w.len() - entry.len();
    assert(w.take(v.len() as int) =~= v);
    assert forall|i: int, j: int|
        is_segment(w, sep, i, j) && #[trigger] names_entry(
            w.subrange(i, j),
            entry,
            ci,
        ) implies i == p && j == w.len() by {
        if i < p {
            assert(w[p - 1] == sep);
            assert(j <= p - 1);
            assert forall|k: int| i <= k < j implies v[k] != sep by {
                assert(w[k] == v[k]);
            }
            if j < v.len() {
                assert(w[j] == v[j]);
            }
            if i > 0 {
                assert(w[i - 1] == v[i - 1]);
            }
            assert(is_segment(v, sep, i, j));
            assert(v.subrange(i, j) =~= w.subrange(i, j));
            assert(names_entry(v.subrange(i, j), entry, ci));
        } else {
            if i > p {
                assert(w[i - 1] == entry[i - 1 - p]);
            }
            if j < w.len() {
                assert(w[j] == entry[j - p]);
            }
        }
    }
}

/// Adding an entry never shortens the store or loses what it held, however long
/// the old value: the old value is a prefix of the new one, and each of its
/// non-empty segments is a segment of the new value with the same text.
pub proof fn lemma_append_keeps(v: Seq<char>, entry: Seq<char>, sep: char, ci: bool)
    ensures
        appended(v, entry, sep, ci).len() >= v.len(),
        appended(v, entry, sep, ci).take(v.len() as int) == v,
        forall|i: int, j: int|
            #[trigger] is_segment(v, sep, i, j) && i < j ==> is_segment(
                appended(v, entry, sep, ci),
                sep,
                i,
                j,
            ) && appended(v, entry, sep, ci).subrange(i, j) == v.subrange(i, j),
{
    let w = appended(v, entry, sep, ci);
    assert(w.take(v.len() as int) =~= v);
    assert forall|i: int, j: int| #[trigger] is_segment(v, sep, i, j) && i < j implies is_segment(
        w,
        sep,
        i,
        j,
    ) && w.subrange(i, j) == v.subrange(i, j) by {
        assert(w.subrange(i, j) =~= v.subrange(i, j));
        assert forall|k: int| i <= k < j implies w[k] != sep by {
            assert(w[k] == v[k]);
        }
        if i > 0 {
            assert(w[i - 1] == v[i - 1]);
        }
        if j < v.len() {
            assert(w[j] == v[j]);
        } else {
            assert(v[j - 1] != sep);
        }
    }
}

/// The line appended to a shell start-up file to put `dir` on the search path.
pub fn export_path_line(dir: &str) -> (r: String)
    ensures
        r@ == "export PATH=\"$PATH:"@ + dir@ + "\"\n"@,
{
    let s = String::from_str("export PATH=\"$PATH:");
    let s = s.concat(dir);
    s.concat("\"\n")
}

/// The line appended to a shell start-up file to set `name` to `value`.
pub fn export_variable_line(name: &str, value: &str) -> (r: String)
    ensures
        r@ == "export "@ + name@ + "=\""@ + value@ + "\"\n"@,
{
    let s = String::from_str("export ");
    let s = s.concat(name);
    let s = s.concat("=\"");
    let s = s.concat(value);
    s.concat("\"\n")
}

} // verus!
