//! Small checks on text that the request rules are made of.
use vstd::prelude::*;

verus! {

/// Whether `s` starts with `prefix`.
pub open spec fn has_prefix(s: Seq<char>, prefix: Seq<char>) -> bool {
    prefix.len() <= s.len() && s.subrange(0, prefix.len() as int) == prefix
}

/// `s` without its leading `prefix`, or `None` when it does not start with it.
pub fn strip_prefix(s: &str, prefix: &str) -> (r: Option<String>)
    ensures
        has_prefix(s@, prefix@) ==> (r matches Some(t) && t@ == s@.subrange(
            prefix@.len() as int,
            s@.len() as int,
        )),
        !has_prefix(s@, prefix@) ==> r is None,
{
    let n = s.unicode_len();
    let m = prefix.unicode_len();
    if m > n {
        return None;
    }
    let mut i: usize = 0;
    while i < m
        invariant
            m <= n,
            n == s@.len(),
            m == prefix@.len(),
            0 <= i <= m,
            forall|k: int| 0 <= k < i ==> s@[k] == prefix@[k],
        decreases m - i,
    {
        if s.get_char(i) != prefix.get_char(i) {
            assert(s@.subrange(0, m as int)[i as int] != prefix@[i as int]);
            return None;
        }
        i = i + 1;
    }
    assert(s@.subrange(0, m as int) =~= prefix@);
    Some(String::from_str(s.substring_char(m, n)))
}

/// Whether `needle` occurs in `haystack`.
pub open spec fn occurs_in(haystack: Seq<char>, needle: Seq<char>) -> bool {
    exists|i: int|
        0 <= i && i + needle.len() <= haystack.len() && #[trigger] haystack.subrange(
            i,
            i + needle.len(),
        ) == needle
}

/// Whether `needle` occurs in `haystack`.
pub fn contains_text(haystack: &str, needle: &str) -> (r: bool)
    ensures
        r == occurs_in(haystack@, needle@),
{
    let n = haystack.unicode_len();
    let m = needle.unicode_len();
    if m > n {
        proof {
            assert forall|i: int|
                0 <= i && i + needle@.len() <= haystack@.len() implies #[trigger] haystack@.subrange(
                i,
                i + needle@.len(),
            ) != needle@ by {}
        }
        return false;
    }
    let mut i: usize = 0;
    while i <= n - m
        invariant
            m <= n,
            n == haystack@.len(),
            m == needle@.len(),
            0 <= i <= n - m + 1,
            forall|k: int| 0 <= k < i ==> #[trigger] haystack@.subrange(k, k + m) != needle@,
        decreases n - m + 1 - i,
    {
        let mut j: usize = 0;
        let mut same = true;
        while j < m
            invariant
                m <= n,
                i <= n - m,
                n == haystack@.len(),
                m == needle@.len(),
                0 <= j <= m,
                same == forall|k: int| 0 <= k < j ==> haystack@[i + k] == needle@[k],
            decreases m - j,
        {
            if haystack.get_char(i + j) != needle.get_char(j) {
                same = false;
            }
            j = j + 1;
        }
        if same {
            assert(haystack@.subrange(i as int, i + m) =~= needle@);
            return true;
        }
        proof {
            let k = choose|k: int| 0 <= k < m && haystack@[i + k] != needle@[k];
            assert(haystack@.subrange(i as int, i + m)[k] != needle@[k]);
        }
        i = i + 1;
    }
    proof {
        assert forall|k: int|
            0 <= k && k + needle@.len() <= haystack@.len() implies #[trigger] haystack@.subrange(
            k,
            k + needle@.len(),
        ) != needle@ by {
            assert(k < i);
        }
    }
    false
}

} // verus!
