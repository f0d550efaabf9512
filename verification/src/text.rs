//! Character-level text utilities: whitespace trimming and case-insensitive
//! substring containment, both specified over `Seq<char>`.

use vstd::prelude::*;
use vstd::string::StrSliceExecFns;

verus! {

/// The code points with the Unicode `White_Space` property; these are the
/// characters that trimming strips from both ends of a prompt.
pub open spec fn is_space_char(c: char) -> bool {
    c as u32 == 0x20 || c as u32 == 0x09 || c as u32 == 0x0a || c as u32 == 0x0d || c as u32
        == 0x0b || c as u32 == 0x0c || c as u32 == 0x85 || c as u32 == 0xa0 || c as u32 == 0x1680
        || (0x2000 <= c as u32 && c as u32 <= 0x200a) || c as u32 == 0x2028 || c as u32 == 0x2029
        || c as u32 == 0x202f || c as u32 == 0x205f || c as u32 == 0x3000
}

pub fn char_is_space(c: char) -> (r: bool)
    ensures
        r == is_space_char(c),
{
    let u = c as u32;
    u == 0x20 || u == 0x09 || u == 0x0a || u == 0x0d || u == 0x0b || u == 0x0c || u == 0x85 || u
        == 0xa0 || u == 0x1680 || (0x2000 <= u && u <= 0x200a) || u == 0x2028 || u == 0x2029 || u
        == 0x202f || u == 0x205f || u == 0x3000
}

/// The sequence with leading whitespace removed.
pub open spec fn trim_start_spec(s: Seq<char>) -> Seq<char>
    decreases s.len(),
{
    if s.len() > 0 && is_space_char(s[0]) {
        trim_start_spec(s.subrange(1, s.len() as int))
    } else {
        s
    }
}

/// The sequence with trailing whitespace removed.
pub open spec fn trim_end_spec(s: Seq<char>) -> Seq<char>
    decreases s.len(),
{
    if s.len() > 0 && is_space_char(s[s.len() - 1]) {
        trim_end_spec(s.subrange(0, s.len() - 1))
    } else {
        s
    }
}

/// The sequence with whitespace removed from both ends, as `str::trim` does.
pub open spec fn trim_spec(s: Seq<char>) -> Seq<char> {
    trim_end_spec(trim_start_spec(s))
}

proof fn lemma_trim_start_skip(s: Seq<char>, k: int)
    requires
        0 <= k <= s.len(),
        forall|i: int| 0 <= i < k ==> is_space_char(s[i]),
        k == s.len() || !is_space_char(s[k]),
    ensures
        trim_start_spec(s) == s.subrange(k, s.len() as int),
    decreases k,
{
    if k == 0 {
        assert(s.subrange(0, s.len() as int) =~= s);
    } else {
        let t = s.subrange(1, s.len() as int);
        lemma_trim_start_skip(t, k - 1);
        assert(t.subrange(k - 1, t.len() as int) =~= s.subrange(k, s.len() as int));
    }
}

proof fn lemma_trim_end_skip(s: Seq<char>, m: int)
    requires
        0 <= m <= s.len(),
        forall|i: int| m <= i < s.len() ==> is_space_char(s[i]),
        m == 0 || !is_space_char(s[m - 1]),
    ensures
        trim_end_spec(s) == s.subrange(0, m),
    decreases s.len() - m,
{
    if m == s.len() {
        assert(s.subrange(0, s.len() as int) =~= s);
    } else {
        let t = s.subrange(0, s.len() - 1);
        lemma_trim_end_skip(t, m);
        assert(t.subrange(0, m) =~= s.subrange(0, m));
    }
}

/// Trimming never lengthens a sequence.
pub proof fn lemma_trim_len_le(s: Seq<char>)
    ensures
        trim_spec(s).len() <= s.len(),
{
    lemma_trim_start_len_le(s);
    lemma_trim_end_len_le(trim_start_spec(s));
}

proof fn lemma_trim_start_len_le(s: Seq<char>)
    ensures
        trim_start_spec(s).len() <= s.len(),
    decreases s.len(),
{
    if s.len() > 0 && is_space_char(s[0]) {
        lemma_trim_start_len_le(s.subrange(1, s.len() as int));
    }
}

proof fn lemma_trim_end_len_le(s: Seq<char>)
    ensures
        trim_end_spec(s).len() <= s.len(),
    decreases s.len(),
{
    if s.len() > 0 && is_space_char(s[s.len() - 1]) {
        lemma_trim_end_len_le(s.subrange(0, s.len() - 1));
    }
}

/// Returns the string with leading and trailing whitespace removed.
pub fn trim_str(s: &str) -> (r: String)
    ensures
        r@ == trim_spec(s@),
{
    let n = s.unicode_len();
    let mut lo: usize = 0;
    while lo < n && char_is_space(s.get_char(lo))
        invariant
            n == s@.len(),
            lo <= n,
            forall|i: int| 0 <= i < lo ==> is_space_char(s@[i]),
        decreases n - lo,
    {
        lo = lo + 1;
    }
    let mut hi: usize = n;
    while hi > lo && char_is_space(s.get_char(hi - 1))
        invariant
            n == s@.len(),
            lo <= hi <= n,
            forall|i: int| 0 <= i < lo ==> is_space_char(s@[i]),
            lo == n || !is_space_char(s@[lo as int]),
            forall|i: int| hi <= i < n ==> is_space_char(s@[i]),
        decreases hi,
    {
        hi = hi - 1;
    }
    let sub = s.substring_char(lo, hi);
    let r = sub.to_owned();
    proof {
        lemma_trim_start_skip(s@, lo as int);
        let t = s@.subrange(lo as int, n as int);
        assert forall|i: int| hi - lo <= i < t.len() implies is_space_char(t[i]) by {
            assert(t[i] == s@[lo + i]);
        }
        lemma_trim_end_skip(t, hi - lo);
        assert(t.subrange(0, hi - lo) =~= s@.subrange(lo as int, hi as int));
    }
    r
}

/// The character folded to lower case over the ASCII range, as a code point.
pub open spec fn fold_char(c: char) -> int {
    if 0x41 <= c as u32 && c as u32 <= 0x5a {
        c as u32 + 0x20
    } else {
        c as u32 as int
    }
}

/// Two characters are equal up to ASCII case.
pub open spec fn chars_match_ci(a: char, b: char) -> bool {
    fold_char(a) == fold_char(b)
}

/// `word` occurs in `text` at position `i`, up to ASCII case.
pub open spec fn matches_at(text: Seq<char>, word: Seq<char>, i: int) -> bool {
    0 <= i && i + word.len() <= text.len() && (forall|j: int|
        0 <= j < word.len() ==> chars_match_ci(text[i + j], word[j]))
}

/// `word` occurs somewhere in `text`, up to ASCII case.
pub open spec fn contains_ci(text: Seq<char>, word: Seq<char>) -> bool {
    exists|i: int| matches_at(text, word, i)
}

/// The characters of a string, in order, as a vector.
pub fn chars_of(s: &str) -> (v: Vec<char>)
    ensures
        v@ == s@,
{
    let n = s.unicode_len();
    let mut v: Vec<char> = Vec::new();
    let mut i: usize = 0;
    while i < n
        invariant
            n == s@.len(),
            i <= n,
            v@ == s@.subrange(0, i as int),
        decreases n - i,
    {
        let c = s.get_char(i);
        v.push(c);
        i = i + 1;
        proof {
            assert(v@ =~= s@.subrange(0, i as int));
        }
    }
    proof {
        assert(v@ =~= s@);
    }
    v
}

fn matches_at_exec(text: &Vec<char>, word: &Vec<char>, i: usize) -> (r: bool)
    requires
        i + word@.len() <= text@.len(),
    ensures
        r == matches_at(text@, word@, i as int),
{
    let n = word.len();
    let tn = text.len();
    let mut j: usize = 0;
    while j < n
        invariant
            n == word@.len(),
            tn == text@.len(),
            i + n <= tn,
            j <= n,
            forall|k: int| 0 <= k < j ==> chars_match_ci(text@[i + k], word@[k]),
        decreases n - j,
    {
        let a = text[i + j] as u32;
        let b = word[j] as u32;
        let fa = if 0x41 <= a && a <= 0x5a {
            a + 0x20
        } else {
            a
        };
        let fb = if 0x41 <= b && b <= 0x5a {
            b + 0x20
        } else {
            b
        };
        if fa != fb {
            assert(!chars_match_ci(text@[i + j], word@[j as int]));
            return false;
        }
        j = j + 1;
    }
    true
}

/// Whether `word` occurs in `text` up to ASCII case, by scanning every position.
pub fn contains_term_ci(text: &Vec<char>, word: &Vec<char>) -> (r: bool)
    ensures
        r == contains_ci(text@, word@),
{
    if word.len() > text.len() {
        assert forall|i: int| !matches_at(text@, word@, i) by {}
        return false;
    }
    let last = text.len() - word.len();
    let mut i: usize = 0;
    loop
        invariant
            word@.len() <= text@.len(),
            last == text@.len() - word@.len(),
            i <= last,
            forall|k: int| 0 <= k < i ==> !matches_at(text@, word@, k),
        ensures
            forall|k: int| 0 <= k <= last ==> !matches_at(text@, word@, k),
        decreases last - i,
    {
        if matches_at_exec(text, word, i) {
            assert(matches_at(text@, word@, i as int));
            return true;
        }
        if i == last {
            break;
        }
        i = i + 1;
    }
    assert forall|k: int| !matches_at(text@, word@, k) by {
        if 0 <= k <= last {
            assert(!matches_at(text@, word@, k));
        }
    }
    false
}

} // verus!
