//! Character-level helpers on strings, each with the spec function that says
//! what it computes.
use vstd::prelude::*;

verus! {

/// Index of the last occurrence of `sep` in `s`, or -1 when there is none.
pub open spec fn last_index_of(s: Seq<char>, sep: char) -> int
    decreases s.len(),
{
    if s.len() == 0 {
        -1
    } else if s.last() == sep {
        s.len() - 1
    } else {
        last_index_of(s.drop_last(), sep)
    }
}

/// What follows the last `sep` in `s`; the whole of `s` when `sep` does not occur.
/// This is the last item that `str::split(sep)` yields.
pub open spec fn last_segment(s: Seq<char>, sep: char) -> Seq<char> {
    s.subrange(last_index_of(s, sep) + 1, s.len() as int)
}

/// `s` with every occurrence of `c` taken out.
pub open spec fn without_char(s: Seq<char>, c: char) -> Seq<char>
    decreases s.len(),
{
    if s.len() == 0 {
        s
    } else if s.last() == c {
        without_char(s.drop_last(), c)
    } else {
        without_char(s.drop_last(), c).push(s.last())
    }
}

/// `needle` occurs in `s` starting at position `i`.
pub open spec fn occurs_at(s: Seq<char>, needle: Seq<char>, i: int) -> bool {
    0 <= i && i + needle.len() <= s.len() && s.subrange(i, i + needle.len()) == needle
}

/// `needle` occurs somewhere in `s`, as `str::contains` decides.
pub open spec fn contains_str(s: Seq<char>, needle: Seq<char>) -> bool {
    exists|i: int| occurs_at(s, needle, i)
}

proof fn lemma_last_index_bounds(s: Seq<char>, sep: char)
    ensures
        -1 <= last_index_of(s, sep) < s.len(),
        last_index_of(s, sep) >= 0 ==> s[last_index_of(s, sep)] == sep,
    decreases s.len(),
{
    if s.len() > 0 && s.last() != sep {
        lemma_last_index_bounds(s.drop_last(), sep);
    }
}

/// Index of the last `sep` in `s` (as a char index), or `None`.
pub fn find_last_char(s: &str, sep: char) -> (res: Option<usize>)
    ensures
        match res {
            Some(k) => k as int == last_index_of(s@, sep),
            None => last_index_of(s@, sep) == -1,
        },
{
    let n = s.unicode_len();
    let mut found: Option<usize> = None;
    let mut i: usize = 0;
    while i < n
        invariant
            n == s@.len(),
            i <= n,
            match found {
                Some(k) => k as int == last_index_of(s@.take(i as int), sep),
                None => last_index_of(s@.take(i as int), sep) == -1,
            },
        decreases n - i,
    {
        let c = s.get_char(i);
        assert(s@.take(i + 1).drop_last() =~= s@.take(i as int));
        if c == sep {
            found = Some(i);
        }
        i = i + 1;
    }
    assert(s@.take(n as int) =~= s@);
    found
}

/// The text after the last `sep` in `s` (all of `s` when `sep` is absent).
pub fn last_segment_of(s: &str, sep: char) -> (res: String)
    ensures
        res@ == last_segment(s@, sep),
{
    proof {
        lemma_last_index_bounds(s@, sep);
    }
    let n = s.unicode_len();
    let start: usize = match find_last_char(s, sep) {
        Some(k) => k + 1,
        None => 0,
    };
    s.substring_char(start, n).to_owned()
}

/// `s` with every `c` removed, as `str::replace(c, "")` gives it.
pub fn remove_char(s: &str, c: char) -> (res: String)
    ensures
        res@ == without_char(s@, c),
{
    let n = s.unicode_len();
    let mut out = String::new();
    let mut i: usize = 0;
    while i < n
        invariant
            n == s@.len(),
            i <= n,
            out@ == without_char(s@.take(i as int), c),
        decreases n - i,
    {
        let ch = s.get_char(i);
        assert(s@.take(i + 1).drop_last() =~= s@.take(i as int));
        if ch != c {
            let piece = s.substring_char(i, i + 1);
            assert(piece@ =~= seq![ch]);
            out.append(piece);
        }
        i = i + 1;
    }
    assert(s@.take(n as int) =~= s@);
    out
}

/// Whether `needle` occurs in `s` at char position `i`.
fn occurs_at_exec(s: &str, needle: &str, i: usize) -> (res: bool)
    requires
        i + needle@.len() <= s@.len(),
    ensures
        res == occurs_at(s@, needle@, i as int),
{
    let n = s.unicode_len();
    let m = needle.unicode_len();
    let mut j: usize = 0;
    while j < m
        invariant
            n == s@.len(),
            m == needle@.len(),
            i + m <= s@.len(),
            j <= m,
            forall|k: int| 0 <= k < j ==> s@[i + k] == needle@[k],
        decreases m - j,
    {
        if s.get_char(i + j) != needle.get_char(j) {
            assert(s@.subrange(i as int, i + m)[j as int] != needle@[j as int]);
            return false;
        }
        j = j + 1;
    }
    assert(s@.subrange(i as int, i + m) =~= needle@);
    true
}

/// Whether `needle` occurs somewhere in `s`.
pub fn contains_text(s: &str, needle: &str) -> (res: bool)
    ensures
        res == contains_str(s@, needle@),
{
    let n = s.unicode_len();
    let m = needle.unicode_len();
    if m > n {
        return false;
    }
    if m == 0 {
        assert(s@.subrange(0, 0) =~= needle@);
        assert(occurs_at(s@, needle@, 0));
        return true;
    }
    let mut i: usize = 0;
    while i <= n - m
        invariant
            n == s@.len(),
            m == needle@.len(),
            1 <= m <= n,
            i <= n - m + 1,
            forall|k: int| 0 <= k < i ==> !occurs_at(s@, needle@, k),
        decreases n - m + 1 - i,
    {
        if occurs_at_exec(s, needle, i) {
            return true;
        }
        i = i + 1;
    }
    false
}

} // verus!
