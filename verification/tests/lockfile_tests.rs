use toolchain_probe::lockfile::resolved_version_from_lock;

fn resolve(text: &str, name: &str) -> Option<Vec<u8>> {
    resolved_version_from_lock(&text.as_bytes().to_vec(), &name.as_bytes().to_vec())
}

#[test]
fn exact_name_match_not_substring() {
    let lock = "[[package]]\nname = \"http\"\nversion = \"1.2.0\"\n\n[[package]]\nname = \"http-body\"\nversion = \"2.0.0\"\n";
    assert_eq!(resolve(lock, "http"), Some(b"1.2.0".to_vec()));
    assert_eq!(resolve(lock, "http-body"), Some(b"2.0.0".to_vec()));
}

#[test]
fn prefix_of_a_name_matches_nothing() {
    let lock = "[[package]]\nname = \"http-body\"\nversion = \"2.0.0\"\n";
    assert_eq!(resolve(lock, "http"), None);
    assert_eq!(resolve(lock, "ht"), None);
}

#[test]
fn first_match_wins_over_duplicate_blocks() {
    let lock = "[[package]]\nname = \"serde\"\nversion = \"1.0.1\"\n\n[[package]]\nname = \"serde\"\nversion = \"1.0.9\"\n";
    assert_eq!(resolve(lock, "serde"), Some(b"1.0.1".to_vec()));
}

#[test]
fn block_marker_resets_the_match() {
    // The matching name is followed by a new block marker before any version
    // line, so the version of the next block is not attributed to it.
    let lock = "[[package]]\nname = \"left\"\n[[package]]\nversion = \"9.9.9\"\n";
    assert_eq!(resolve(lock, "left"), None);
}

#[test]
fn version_line_before_the_matching_name_is_skipped() {
    let lock = "[[package]]\nversion = \"0.5.0\"\nname = \"odd\"\nversion = \"0.6.0\"\n";
    assert_eq!(resolve(lock, "odd"), Some(b"0.6.0".to_vec()));
}

#[test]
fn missing_package_gives_none() {
    let lock = "[[package]]\nname = \"other\"\nversion = \"3.1.4\"\n";
    assert_eq!(resolve(lock, "wanted"), None);
    assert_eq!(resolve("", "wanted"), None);
}

#[test]
fn version_value_is_unquoted_and_trimmed() {
    let lock = "[[package]]\nname = \"demo\"\nversion = \"0.3.7\"   \n";
    assert_eq!(resolve(lock, "demo"), Some(b"0.3.7".to_vec()));
}

#[test]
fn carriage_returns_are_not_part_of_lines() {
    let lock = "[[package]]\r\nname = \"demo\"\r\nversion = \"0.3.7\"\r\n";
    assert_eq!(resolve(lock, "demo"), Some(b"0.3.7".to_vec()));
}

#[test]
fn realistic_lock_artifact() {
    let lock = "# This file is automatically generated.\nversion = 3\n\n[[package]]\nname = \"bitflags\"\nversion = \"1.3.2\"\nsource = \"registry\"\n\n[[package]]\nname = \"test-bitflags\"\nversion = \"0.1.0\"\ndependencies = [\n \"bitflags\",\n]\n";
    assert_eq!(resolve(lock, "bitflags"), Some(b"1.3.2".to_vec()));
}
