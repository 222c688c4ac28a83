use vstd::prelude::*;

verus! {

/// `needle` occurs in `haystack` at position `i`.
pub open spec fn occurs_at(haystack: Seq<char>, needle: Seq<char>, i: int) -> bool {
    &&& 0 <= i
    &&& i + needle.len() <= haystack.len()
    &&& haystack.subrange(i, i + needle.len()) == needle
}

/// `needle` occurs somewhere in `haystack` (the empty needle occurs everywhere).
pub open spec fn seq_contains(haystack: Seq<char>, needle: Seq<char>) -> bool {
    exists|i: int| occurs_at(haystack, needle, i)
}

/// The characters of a string, in order.
pub fn chars_of(s: &str) -> (v: Vec<char>)
    ensures
        v@ == s@,
{
    let n = s.unicode_len();
    let mut v: Vec<char> = Vec::new();
    let mut i: usize = 0;
    while i < n
        invariant
            n == s@.len(),
            i <= n,
            v@ == s@.subrange(0, i as int),
        decreases n - i,
    {
        let c = s.get_char(i);
        v.push(c);
        i = i + 1;
    }
    v
}

/// Whether `needle` occurs in `haystack` at position `i`.
fn matches_at(haystack: &Vec<char>, needle: &Vec<char>, i: usize) -> (r: bool)
    requires
        i + needle@.len() <= haystack@.len(),
    ensures
        r == occurs_at(haystack@, needle@, i as int),
{
    let m = needle.len();
    let hl = haystack.len();
    let mut j: usize = 0;
    while j < m
        invariant
            m == needle@.len(),
            hl == haystack@.len(),
            i + m <= hl,
            j <= m,
            forall|k: int| 0 <= k < j ==> haystack@[i + k] == needle@[k],
        decreases m - j,
    {
        if haystack[i + j] != needle[j] {
            assert(haystack@.subrange(i as int, i + m)[j as int] != needle@[j as int]);
            return false;
        }
        j = j + 1;
    }
    assert(haystack@.subrange(i as int, i + m) =~= needle@);
    true
}

/// Whether `needle` occurs in `haystack`, as `str::contains` answers it.
pub fn str_contains(haystack: &str, needle: &str) -> (r: bool)
    ensures
        r == seq_contains(haystack@, needle@),
{
    let h = chars_of(haystack);
    let n = chars_of(needle);
    if n.len() > h.len() {
        assert forall|i: int| !occurs_at(haystack@, needle@, i) by {}
        return false;
    }
    let last = h.len() - n.len();
    let mut i: usize = 0;
    loop
        invariant
            h@ == haystack@,
            n@ == needle@,
            last + n@.len() == h@.len(),
            i <= last,
            forall|k: int| 0 <= k < i ==> !occurs_at(haystack@, needle@, k),
        ensures
            forall|k: int| 0 <= k <= last ==> !occurs_at(haystack@, needle@, k),
        decreases last - i,
    {
        if matches_at(&h, &n, i) {
            assert(occurs_at(haystack@, needle@, i as int));
            return true;
        }
        if i == last {
            break;
        }
        i = i + 1;
    }
    assert forall|k: int| !occurs_at(haystack@, needle@, k) by {
        if occurs_at(haystack@, needle@, k) {
            assert(k <= last);
        }
    }
    false
}

} // verus!
