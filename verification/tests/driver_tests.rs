use toolchain_probe::probe::{Probe, ProbePhase};
use toolchain_probe::report::{control_result, crate_result, latest_of};
use toolchain_probe::search::search_start;
use toolchain_probe::version::{command_for_version, BuildCommand};

/// One simulated probe: the given install outcome, then (if it installed)
/// the given build outcome, run through the probe protocol.
fn simulate_probe(version: &[u8], install_ok: bool, build_ok: bool) -> bool {
    let cmd = command_for_version(&version.to_vec()).expect("candidate versions parse");
    let mut probe = Probe::start(cmd);
    assert_eq!(probe.verdict(), None);
    probe.on_install(install_ok);
    if install_ok {
        assert_eq!(probe.verdict(), None);
        probe.on_lock_cleared();
        probe.on_build(build_ok);
    }
    probe.verdict().expect("probe ran to completion")
}

/// Runs one compatibility search over `versions`, probing with `oracle`.
fn search_oldest(versions: &[Vec<u8>], oracle: impl Fn(&[u8]) -> bool) -> Option<Vec<u8>> {
    let mut st = search_start(versions.len());
    while let Some(mid) = st.next_probe() {
        st.step(oracle(&versions[mid]));
    }
    st.found().map(|i| versions[i].clone())
}

#[test]
fn install_failure_is_a_verdict_not_an_error() {
    assert!(!simulate_probe(b"1.20.0", false, true));
    assert!(simulate_probe(b"1.20.0", true, true));
    assert!(!simulate_probe(b"1.20.0", true, false));
}

#[test]
fn probe_protocol_phases_in_order() {
    let mut probe = Probe::start(BuildCommand::LightCheck);
    assert_eq!(probe.phase, ProbePhase::NeedInstall);
    probe.on_install(true);
    assert_eq!(probe.phase, ProbePhase::NeedLockClear);
    probe.on_lock_cleared();
    assert_eq!(probe.phase, ProbePhase::NeedBuild);
    probe.on_build(true);
    assert_eq!(probe.phase, ProbePhase::Done(true));
    assert_eq!(probe.command, BuildCommand::LightCheck);
}

#[test]
fn repeated_probe_gives_the_same_verdict() {
    // The protocol's verdict is a function of the step outcomes alone, so
    // repeating a probe of the same (project, version) pair after clearing
    // the lock artifact — with no external state change — repeats the
    // verdict.
    for &(install_ok, build_ok) in &[(false, false), (true, false), (true, true)] {
        let first = simulate_probe(b"1.30.0", install_ok, build_ok);
        let second = simulate_probe(b"1.30.0", install_ok, build_ok);
        assert_eq!(first, second);
    }
}

#[test]
fn end_to_end_control_and_demo_records() {
    // Catalog [("demo", "1")], a control case that always compiles, and a
    // version list where demo compiles only from the middle version onward.
    let versions = vec![b"1.0.0".to_vec(), b"1.10.0".to_vec(), b"1.20.0".to_vec()];
    let latest = latest_of(&versions);
    assert_eq!(latest, Some(b"1.20.0".to_vec()));

    let control_oldest = search_oldest(&versions, |v| simulate_probe(v, true, true));
    let control = control_result(control_oldest, latest.clone());
    assert_eq!(control.crate_name, b"CONTROL".to_vec());
    assert_eq!(control.oldest_compatible, Some(b"1.0.0".to_vec()));
    assert_eq!(control.latest_compatible, Some(b"1.20.0".to_vec()));
    assert_eq!(control.error, None);

    let demo_oldest = search_oldest(&versions, |v| {
        simulate_probe(v, true, v >= b"1.10.0".as_slice())
    });
    let demo = crate_result(
        b"demo".to_vec(),
        b"1".to_vec(),
        Some(b"1.2.3".to_vec()),
        demo_oldest,
        latest,
    );
    assert_eq!(demo.crate_name, b"demo".to_vec());
    assert_eq!(demo.oldest_compatible, Some(b"1.10.0".to_vec()));
    assert_eq!(demo.latest_compatible, Some(b"1.20.0".to_vec()));
    assert_eq!(demo.error, None);
}

#[test]
fn universal_install_failure_completes_without_error() {
    let versions = vec![b"1.0.0".to_vec(), b"1.10.0".to_vec(), b"1.20.0".to_vec()];
    let oldest = search_oldest(&versions, |v| simulate_probe(v, false, true));
    assert_eq!(oldest, None);
    let r = crate_result(
        b"demo".to_vec(),
        b"1".to_vec(),
        Some(b"1.2.3".to_vec()),
        oldest,
        latest_of(&versions),
    );
    assert_eq!(r.oldest_compatible, None);
    assert_eq!(r.error, None);
}
