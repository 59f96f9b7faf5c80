use toolchain_probe::version::{
    choose_build_command, command_for_version, get_rust_versions, parse_version, BuildCommand,
};

#[test]
fn parses_plain_triples() {
    assert_eq!(parse_version(&b"1.16.0".to_vec()), Some((1, 16, 0)));
    assert_eq!(parse_version(&b"0.1.0".to_vec()), Some((0, 1, 0)));
    assert_eq!(parse_version(&b"10.20.30".to_vec()), Some((10, 20, 30)));
}

#[test]
fn rejects_malformed_versions() {
    assert_eq!(parse_version(&b"".to_vec()), None);
    assert_eq!(parse_version(&b"1".to_vec()), None);
    assert_eq!(parse_version(&b"1.2".to_vec()), None);
    assert_eq!(parse_version(&b"1.2.3.4".to_vec()), None);
    assert_eq!(parse_version(&b"a.b.c".to_vec()), None);
    assert_eq!(parse_version(&b"1..2".to_vec()), None);
    assert_eq!(parse_version(&b"1.2.".to_vec()), None);
    assert_eq!(parse_version(&b"1.2.3-beta".to_vec()), None);
    assert_eq!(parse_version(&b" 1.2.3".to_vec()), None);
}

#[test]
fn rejects_components_that_do_not_fit() {
    // 2^64 - 1 still fits; one more digit group does not.
    assert_eq!(
        parse_version(&b"18446744073709551615.0.0".to_vec()),
        Some((u64::MAX, 0, 0))
    );
    assert_eq!(parse_version(&b"18446744073709551616.0.0".to_vec()), None);
    assert_eq!(parse_version(&b"99999999999999999999999.1.2".to_vec()), None);
}

#[test]
fn old_version_takes_full_build_path() {
    assert_eq!(command_for_version(&b"1.9.0".to_vec()), Some(BuildCommand::FullBuild));
    assert_eq!(command_for_version(&b"1.15.1".to_vec()), Some(BuildCommand::FullBuild));
    assert_eq!(command_for_version(&b"0.99.99".to_vec()), Some(BuildCommand::FullBuild));
}

#[test]
fn threshold_and_newer_take_light_check_path() {
    // The boundary is inclusive at the threshold version.
    assert_eq!(command_for_version(&b"1.16.0".to_vec()), Some(BuildCommand::LightCheck));
    assert_eq!(command_for_version(&b"1.16.1".to_vec()), Some(BuildCommand::LightCheck));
    assert_eq!(command_for_version(&b"1.85.0".to_vec()), Some(BuildCommand::LightCheck));
    assert_eq!(command_for_version(&b"2.0.0".to_vec()), Some(BuildCommand::LightCheck));
}

#[test]
fn numeric_not_lexical_comparison() {
    // Lexically "1.9.0" > "1.16.0"; numerically it is older and must build
    // the full way while "1.16.0" checks the light way.
    assert_eq!(choose_build_command(1, 9, 0), BuildCommand::FullBuild);
    assert_eq!(choose_build_command(1, 16, 0), BuildCommand::LightCheck);
    assert_eq!(command_for_version(&b"not-a-version".to_vec()), None);
}

#[test]
fn version_list_is_strictly_ascending() {
    let versions = get_rust_versions();
    assert_eq!(versions.len(), 10);
    assert_eq!(versions[0], b"1.0.0".to_vec());
    assert_eq!(versions[9], b"1.85.0".to_vec());
    for w in versions.windows(2) {
        let a = parse_version(&w[0]).unwrap();
        let b = parse_version(&w[1]).unwrap();
        assert!(a < b);
    }
}
