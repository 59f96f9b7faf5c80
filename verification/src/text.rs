//! Byte-string helpers shared by the parsing and scaffolding modules.
//!
//! All text handled by this library is kept as byte vectors; the
//! specifications speak about the corresponding `Seq<u8>` views.

use vstd::prelude::*;

verus! {

/// Holds when `sub` occurs in `s` starting at offset `k`.
pub open spec fn matches_at(s: Seq<u8>, sub: Seq<u8>, k: int) -> bool {
    &&& 0 <= k
    &&& k + sub.len() <= s.len()
    &&& s.subrange(k, k + sub.len() as int) == sub
}

/// Holds when `sub` occurs somewhere in `s`.
pub open spec fn contains_sub(s: Seq<u8>, sub: Seq<u8>) -> bool {
    exists|k: int| matches_at(s, sub, k)
}

/// True when the two byte vectors hold the same bytes.
pub fn bytes_eq(a: &Vec<u8>, b: &Vec<u8>) -> (r: bool)
    ensures
        r == (a@ == b@),
{
    if a.len() != b.len() {
        return false;
    }
    let mut i: usize = 0;
    while i < a.len()
        invariant
            i <= a.len(),
            a.len() == b.len(),
            forall|j: int| 0 <= j < i ==> a@[j] == b@[j],
        decreases a.len() - i,
    {
        if a[i] != b[i] {
            return false;
        }
        i = i + 1;
    }
    proof {
        assert(a@ =~= b@);
    }
    true
}

/// True when `sub` occurs in `s` starting at offset `k`.
pub fn bytes_match_at(s: &Vec<u8>, sub: &Vec<u8>, k: usize) -> (r: bool)
    requires
        k + sub@.len() <= s@.len(),
    ensures
        r == matches_at(s@, sub@, k as int),
{
    let n = s.len();
    let mut i: usize = 0;
    while i < sub.len()
        invariant
            i <= sub.len(),
            k + sub@.len() <= s@.len(),
            s@.len() == n,
            forall|j: int| 0 <= j < i ==> s@[k + j] == sub@[j],
        decreases sub.len() - i,
    {
        if s[k + i] != sub[i] {
            proof {
                assert(s@.subrange(k as int, k + sub@.len() as int)[i as int] != sub@[i as int]);
            }
            return false;
        }
        i = i + 1;
    }
    proof {
        assert(s@.subrange(k as int, k + sub@.len() as int) =~= sub@);
    }
    true
}

/// True when the bytes of `s` begin with the bytes of `prefix`.
pub fn bytes_starts_with(s: &Vec<u8>, prefix: &Vec<u8>) -> (r: bool)
    ensures
        r == prefix@.is_prefix_of(s@),
{
    if prefix.len() > s.len() {
        return false;
    }
    let r = bytes_match_at(s, prefix, 0);
    proof {
        if r {
            assert(s@.subrange(0, prefix@.len() as int) =~= s@.take(prefix@.len() as int));
        } else {
            if prefix@.is_prefix_of(s@) {
                assert(s@.subrange(0, prefix@.len() as int) =~= s@.take(prefix@.len() as int));
            }
        }
    }
    r
}

/// True when the bytes of `sub` occur anywhere in `s`.
pub fn bytes_contains(s: &Vec<u8>, sub: &Vec<u8>) -> (r: bool)
    ensures
        r == contains_sub(s@, sub@),
{
    if sub.len() > s.len() {
        proof {
            assert(forall|k: int| !matches_at(s@, sub@, k));
        }
        return false;
    }
    let mut k: usize = 0;
    let last = s.len() - sub.len();
    while k < last
        invariant
            sub@.len() <= s@.len(),
            last == s@.len() - sub@.len(),
            k <= last,
            forall|j: int| 0 <= j < k ==> !matches_at(s@, sub@, j),
        decreases last - k,
    {
        if bytes_match_at(s, sub, k) {
            return true;
        }
        k = k + 1;
    }
    if bytes_match_at(s, sub, last) {
        return true;
    }
    proof {
        assert(forall|j: int| matches_at(s@, sub@, j) ==> 0 <= j <= last);
    }
    false
}

/// Copies `s[lo..hi]` into a fresh vector.
pub fn subrange_to_vec(s: &Vec<u8>, lo: usize, hi: usize) -> (r: Vec<u8>)
    requires
        lo <= hi <= s@.len(),
    ensures
        r@ == s@.subrange(lo as int, hi as int),
{
    let mut r: Vec<u8> = Vec::new();
    let mut i: usize = lo;
    while i < hi
        invariant
            lo <= i <= hi <= s@.len(),
            r@ == s@.subrange(lo as int, i as int),
        decreases hi - i,
    {
        r.push(s[i]);
        proof {
            assert(r@ =~= s@.subrange(lo as int, i + 1 as int));
        }
        i = i + 1;
    }
    r
}

} // verus!
