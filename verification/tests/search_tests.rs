use toolchain_probe::search::{search_start, SearchState};

/// Drives the search machine with the given oracle, counting probes.
fn run_search_with(n: usize, oracle: impl Fn(usize) -> bool) -> (Option<usize>, usize) {
    let mut st: SearchState = search_start(n);
    let mut probes: usize = 0;
    while let Some(mid) = st.next_probe() {
        probes += 1;
        st.step(oracle(mid));
    }
    (st.found(), probes)
}

#[test]
fn finds_threshold_in_middle() {
    let (r, _) = run_search_with(10, |i| i >= 3);
    assert_eq!(r, Some(3));
}

#[test]
fn finds_threshold_at_start() {
    let (r, _) = run_search_with(10, |_| true);
    assert_eq!(r, Some(0));
}

#[test]
fn finds_threshold_at_end() {
    let (r, _) = run_search_with(10, |i| i >= 9);
    assert_eq!(r, Some(9));
}

#[test]
fn none_when_nothing_compiles() {
    let (r, probes) = run_search_with(10, |_| false);
    assert_eq!(r, None);
    assert!(probes <= 4);
}

#[test]
fn empty_range_returns_none_without_probes() {
    let (r, probes) = run_search_with(0, |_| true);
    assert_eq!(r, None);
    assert_eq!(probes, 0);
}

#[test]
fn single_version_compiles() {
    let (r, probes) = run_search_with(1, |_| true);
    assert_eq!(r, Some(0));
    assert_eq!(probes, 1);
}

#[test]
fn probe_count_within_log_bound() {
    // 10 versions is not a power of two, so at most ceil(log2(10)) == 4
    // probes, whatever the threshold.
    for t in 0..=10 {
        let (r, probes) = run_search_with(10, |i| i >= t);
        if t < 10 {
            assert_eq!(r, Some(t));
        } else {
            assert_eq!(r, None);
        }
        assert!(probes <= 4);
    }
}

#[test]
fn every_threshold_found_over_many_sizes() {
    for n in 0..40 {
        for t in 0..n {
            let (r, _) = run_search_with(n, |i| i >= t);
            assert_eq!(r, Some(t));
        }
        let (r, _) = run_search_with(n, |_| false);
        assert_eq!(r, None);
    }
}
