//! Character-level helpers: decoding command output, trimming, and
//! searching for a pattern inside a string.
use vstd::prelude::*;
use vstd::string::StrSliceExecFns;

verus! {

/// What `String::from_utf8_lossy` yields for the given bytes.
pub uninterp spec fn utf8_lossy_of(b: Seq<u8>) -> Seq<char>;

/// What `str::trim` yields for the given characters.
pub uninterp spec fn trim_of(s: Seq<char>) -> Seq<char>;

/// Relies on `String::from_utf8_lossy`: decodes bytes, replacing invalid
/// sequences; no bytes give no characters.
#[verifier::external_body]
pub(crate) fn decode_lossy(b: &[u8]) -> (r: String)
    ensures
        r@ == utf8_lossy_of(b@),
        b@.len() == 0 ==> r@.len() == 0,
{
    String::from_utf8_lossy(b).into_owned()
}

/// Relies on `str::trim`: strips leading and trailing whitespace; an empty
/// string stays empty.
#[verifier::external_body]
pub(crate) fn trimmed(s: &str) -> (r: String)
    ensures
        r@ == trim_of(s@),
        s@.len() == 0 ==> r@.len() == 0,
{
    s.trim().to_string()
}

/// The characters of `s`, in order.
pub(crate) fn chars_of(s: &str) -> (r: Vec<char>)
    ensures
        r@ == s@,
{
    let n = s.unicode_len();
    let mut v: Vec<char> = Vec::new();
    let mut i: usize = 0;
    while i < n
        invariant
            n == s@.len(),
            i <= n,
            v@ == s@.subrange(0, i as int),
        decreases n - i,
    {
        v.push(s.get_char(i));
        i += 1;
        assert(v@ =~= s@.subrange(0, i as int));
    }
    assert(v@ =~= s@);
    v
}

/// The decoded and trimmed text of a command's standard output.
pub open spec fn output_text(stdout: Seq<u8>) -> Seq<char> {
    trim_of(utf8_lossy_of(stdout))
}

/// Decodes a command's standard output and trims the surrounding whitespace.
pub fn output_text_of(stdout: &Vec<u8>) -> (r: String)
    ensures
        r@ == output_text(stdout@),
{
    let raw = decode_lossy(stdout.as_slice());
    trimmed(raw.as_str())
}

/// `pat` occurs in `s` starting at index `i`.
pub open spec fn occurs_at(s: Seq<char>, pat: Seq<char>, i: int) -> bool {
    0 <= i && i + pat.len() <= s.len() && s.subrange(i, i + pat.len()) == pat
}

/// The first index at or after `from` where `pat` occurs in `s`, or -1.
pub open spec fn find_from(s: Seq<char>, pat: Seq<char>, from: int) -> int
    decreases s.len() - from,
{
    if from < 0 || from >= s.len() || from + pat.len() > s.len() {
        -1
    } else if occurs_at(s, pat, from) {
        from
    } else {
        find_from(s, pat, from + 1)
    }
}

/// `pat` occurs somewhere in `s`.
pub open spec fn contains(s: Seq<char>, pat: Seq<char>) -> bool {
    find_from(s, pat, 0) >= 0
}

/// A found index is an occurrence, and no earlier one starts at or after `from`.
pub proof fn lemma_find_from_sound(s: Seq<char>, pat: Seq<char>, from: int)
    ensures
        find_from(s, pat, from) >= 0 ==> {
            &&& from <= find_from(s, pat, from)
            &&& occurs_at(s, pat, find_from(s, pat, from))
            &&& forall|j: int| from <= j < find_from(s, pat, from) ==> !occurs_at(s, pat, j)
        },
    decreases s.len() - from,
{
    if from < 0 || from >= s.len() || from + pat.len() > s.len() {
    } else if occurs_at(s, pat, from) {
    } else {
        lemma_find_from_sound(s, pat, from + 1);
    }
}

/// Any occurrence at or after `from` is found, at that index or earlier.
pub proof fn lemma_find_from_complete(s: Seq<char>, pat: Seq<char>, from: int, j: int)
    requires
        0 <= from <= j,
        pat.len() > 0,
        occurs_at(s, pat, j),
    ensures
        0 <= find_from(s, pat, from) <= j,
    decreases j - from,
{
    if from < j && !occurs_at(s, pat, from) {
        lemma_find_from_complete(s, pat, from + 1, j);
    }
}

/// A pattern holding a character that never appears in `s` is not found.
pub proof fn lemma_absent_char(s: Seq<char>, pat: Seq<char>, k: int, from: int)
    requires
        0 <= k < pat.len(),
        forall|i: int| 0 <= i < s.len() ==> s[i] != pat[k],
    ensures
        find_from(s, pat, from) == -1,
    decreases s.len() - from,
{
    if from < 0 || from >= s.len() || from + pat.len() > s.len() {
    } else {
        assert(s.subrange(from, from + pat.len())[k] != pat[k]);
        lemma_absent_char(s, pat, k, from + 1);
    }
}

/// Whether `pat` occurs in `s` at index `i`.
fn matches_at(s: &Vec<char>, pat: &Vec<char>, i: usize) -> (r: bool)
    requires
        i + pat@.len() <= s@.len(),
    ensures
        r == occurs_at(s@, pat@, i as int),
{
    let n = s.len();
    let mut k: usize = 0;
    while k < pat.len()
        invariant
            n == s@.len(),
            k <= pat@.len(),
            i + pat@.len() <= s@.len(),
            forall|t: int| 0 <= t < k ==> s@[i + t] == pat@[t],
        decreases pat@.len() - k,
    {
        if s[i + k] != pat[k] {
            assert(s@.subrange(i as int, i + pat@.len())[k as int] != pat@[k as int]);
            return false;
        }
        k += 1;
    }
    assert(s@.subrange(i as int, i + pat@.len()) =~= pat@);
    true
}

/// The first index at or after `from` where `pat` occurs in `s`.
pub fn find_pattern(s: &Vec<char>, pat: &Vec<char>, from: usize) -> (r: Option<usize>)
    ensures
        match r {
            Some(i) => find_from(s@, pat@, from as int) == i as int,
            None => find_from(s@, pat@, from as int) == -1,
        },
{
    let mut i: usize = from;
    while i < s.len() && pat.len() <= s.len() - i
        invariant
            from <= i,
            find_from(s@, pat@, from as int) == find_from(s@, pat@, i as int),
        decreases s@.len() - i,
    {
        if matches_at(s, pat, i) {
            return Some(i);
        }
        i += 1;
    }
    None
}

/// Whether `pat` occurs anywhere in `s`.
pub fn contains_pattern(s: &Vec<char>, pat: &Vec<char>) -> (r: bool)
    ensures
        r == contains(s@, pat@),
{
    find_pattern(s, pat, 0).is_some()
}

} // verus!
