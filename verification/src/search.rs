//! Compatibility search: binary search over the ordered toolchain version
//! list, with the per-version probe verdict as the oracle.
//!
//! Each probe runs external subprocesses, so the search is kept as a state
//! machine: the caller asks for the next index to probe, performs the probe,
//! and reports the verdict back.  The laws at the end show that, for a
//! monotonic oracle, iterating the machine finds exactly the oldest
//! compatible version, within the expected number of probes.

use vstd::prelude::*;
use crate::version::strictly_ascending_semver;

verus! {

/// The state of one compatibility search over indices `[0, n)` of the
/// version list: `lo..hi` is the range still to be searched, `best` the
/// lowest index so far whose probe compiled.
pub struct SearchState {
    pub lo: usize,
    pub hi: usize,
    pub best: Option<usize>,
}

pub open spec fn start_spec(n: usize) -> SearchState {
    SearchState { lo: 0, hi: n, best: None }
}

/// The midpoint the next probe tests.
pub open spec fn mid_spec(s: SearchState) -> int {
    s.lo + (s.hi - s.lo) / 2
}

pub open spec fn next_probe_spec(s: SearchState) -> Option<usize> {
    if s.lo < s.hi {
        Some(mid_spec(s) as usize)
    } else {
        None
    }
}

/// One search step: a compiled verdict records the midpoint as the new best
/// and continues strictly below it; a did-not-compile verdict continues
/// strictly above it.
pub open spec fn step_spec(s: SearchState, verdict: bool) -> SearchState {
    let m = mid_spec(s);
    if verdict {
        SearchState { lo: s.lo, hi: m as usize, best: Some(m as usize) }
    } else {
        SearchState { lo: (m + 1) as usize, hi: s.hi, best: s.best }
    }
}

/// The index the whole search returns when, from state `s` on, every probe
/// at index `i` answers `p(i)`.
pub open spec fn run_search(p: spec_fn(int) -> bool, s: SearchState) -> Option<usize>
    decreases s.hi - s.lo,
{
    if s.lo < s.hi {
        run_search(p, step_spec(s, p(mid_spec(s))))
    } else {
        s.best
    }
}

/// How many probes the whole search makes from state `s` on.
pub open spec fn probe_count(p: spec_fn(int) -> bool, s: SearchState) -> nat
    decreases s.hi - s.lo,
{
    if s.lo < s.hi {
        1 + probe_count(p, step_spec(s, p(mid_spec(s))))
    } else {
        0
    }
}

/// A monotonic oracle over `[0, n)`: exactly the indices at or above the
/// threshold `t` compile.
pub open spec fn monotonic_threshold(p: spec_fn(int) -> bool, t: int, n: int) -> bool {
    forall|i: int| 0 <= i < n ==> (#[trigger] p(i) <==> i >= t)
}

/// Starts a search over the indices `[0, n)` of the version list.
pub fn search_start(n: usize) -> (s: SearchState)
    ensures
        s == start_spec(n),
{
    SearchState { lo: 0, hi: n, best: None }
}

impl SearchState {
    /// The index to probe next, or `None` when the search has terminated.
    pub fn next_probe(&self) -> (r: Option<usize>)
        ensures
            r == next_probe_spec(*self),
    {
        if self.lo < self.hi {
            Some(self.lo + (self.hi - self.lo) / 2)
        } else {
            None
        }
    }

    /// Consumes the verdict of the probe at the midpoint.
    pub fn step(&mut self, verdict: bool)
        requires
            old(self).lo < old(self).hi,
        ensures
            *final(self) == step_spec(*old(self), verdict),
    {
        let m = self.lo + (self.hi - self.lo) / 2;
        if verdict {
            self.hi = m;
            self.best = Some(m);
        } else {
            self.lo = m + 1;
        }
    }

    /// The best (lowest) compiled index found so far; after termination, the
    /// search's answer.
    pub fn found(&self) -> (r: Option<usize>)
        ensures
            r == self.best,
    {
        self.best
    }
}

/// Invariant tying a search state to the oracle threshold `t` over `[0, n)`.
spec fn search_inv(s: SearchState, t: int, n: int) -> bool {
    &&& s.lo <= s.hi <= n
    &&& s.lo <= t
    &&& (s.best is None ==> s.hi == n)
    &&& (s.best is Some ==> s.best->0 == s.hi && s.hi < n && t <= s.hi)
}

proof fn lemma_run_search_inv(p: spec_fn(int) -> bool, t: int, n: int, s: SearchState)
    requires
        monotonic_threshold(p, t, n),
        0 <= t <= n,
        search_inv(s, t, n),
    ensures
        run_search(p, s) == if t < n {
            Some(t as usize)
        } else {
            None::<usize>
        },
    decreases s.hi - s.lo,
{
    if s.lo < s.hi {
        let m = mid_spec(s);
        assert(s.lo <= m < s.hi);
        let s2 = step_spec(s, p(m));
        assert(search_inv(s2, t, n));
        lemma_run_search_inv(p, t, n, s2);
    }
}

/// Law: for a strictly ascending version list `vs` and a monotonic
/// compiled-oracle `p` whose threshold index is `t`, the search over the
/// indices of `vs` returns exactly `t` — the index of the oldest compatible
/// version, `vs[t]`.
pub proof fn lemma_search_finds_threshold(
    vs: Seq<Seq<u8>>,
    p: spec_fn(int) -> bool,
    t: int,
    n: usize,
)
    requires
        strictly_ascending_semver(vs),
        n == vs.len(),
        0 <= t < n,
        monotonic_threshold(p, t, n as int),
    ensures
        run_search(p, start_spec(n)) == Some(t as usize),
{
    lemma_run_search_inv(p, t, n as int, start_spec(n));
}

/// Law: when no index compiles, the search returns `None`.
pub proof fn lemma_search_none_when_nothing_compiles(p: spec_fn(int) -> bool, n: usize)
    requires
        forall|i: int| 0 <= i < n ==> !#[trigger] p(i),
    ensures
        run_search(p, start_spec(n)) is None,
{
    assert(monotonic_threshold(p, n as int, n as int));
    lemma_run_search_inv(p, n as int, n as int, start_spec(n));
}

/// `2^k`.
pub open spec fn pow2(k: nat) -> nat
    decreases k,
{
    if k == 0 {
        1
    } else {
        2 * pow2((k - 1) as nat)
    }
}

/// Floor of the base-two logarithm (0 for 0 and 1).
pub open spec fn floor_log2(n: nat) -> nat
    decreases n,
{
    if n <= 1 {
        0
    } else {
        1 + floor_log2(n / 2)
    }
}

pub open spec fn is_pow2(n: nat) -> bool {
    n > 0 && pow2(floor_log2(n)) == n
}

/// Ceiling of the base-two logarithm: the least `k` with `n <= 2^k`, for
/// `n >= 1`.
pub open spec fn ceil_log2(n: nat) -> nat {
    if is_pow2(n) {
        floor_log2(n)
    } else {
        floor_log2(n) + 1
    }
}

proof fn lemma_floor_log2_mono(a: nat, b: nat)
    requires
        a <= b,
    ensures
        floor_log2(a) <= floor_log2(b),
    decreases b,
{
    if b <= 1 || a <= 1 {
    } else {
        lemma_floor_log2_mono(a / 2, b / 2);
    }
}

proof fn lemma_probe_count_bound(p: spec_fn(int) -> bool, s: SearchState)
    requires
        s.lo <= s.hi,
    ensures
        s.lo == s.hi ==> probe_count(p, s) == 0,
        s.lo < s.hi ==> probe_count(p, s) <= floor_log2((s.hi - s.lo) as nat) + 1,
    decreases s.hi - s.lo,
{
    if s.lo < s.hi {
        let d = s.hi - s.lo;
        let m = mid_spec(s);
        assert(s.lo <= m < s.hi);
        let s2 = step_spec(s, p(m));
        let d2 = s2.hi - s2.lo;
        assert(d2 <= d / 2);
        lemma_probe_count_bound(p, s2);
        if s2.lo < s2.hi {
            lemma_floor_log2_mono(d2 as nat, (d / 2) as nat);
            assert(floor_log2((d / 2) as nat) + 1 == floor_log2(d as nat));
        }
    }
}

/// Law: the search over `n >= 1` versions makes at most `ceil_log2(n)`
/// probes.  At an exact power of two the worst case takes one probe more, so
/// those sizes are left out.
pub proof fn lemma_search_probe_bound(p: spec_fn(int) -> bool, n: usize)
    requires
        n >= 1,
        !is_pow2(n as nat),
    ensures
        probe_count(p, start_spec(n)) <= ceil_log2(n as nat),
{
    lemma_probe_count_bound(p, start_spec(n));
}

} // verus!
