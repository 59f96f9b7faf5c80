use toolchain_probe::report::{
    batch_results_filename, catalog, catalog_constraint, control_result, crate_result,
    error_result, get_version_spec, latest_of, single_result_filename, version_at, ExperimentResult,
    ProbeError,
};

#[test]
fn crate_record_carries_no_error() {
    let r: ExperimentResult = crate_result(
        b"demo".to_vec(),
        b"1".to_vec(),
        Some(b"1.2.3".to_vec()),
        Some(b"1.10.0".to_vec()),
        Some(b"1.20.0".to_vec()),
    );
    assert_eq!(r.crate_name, b"demo".to_vec());
    assert_eq!(r.dependency_spec, b"1".to_vec());
    assert_eq!(r.resolved_version, Some(b"1.2.3".to_vec()));
    assert_eq!(r.oldest_compatible, Some(b"1.10.0".to_vec()));
    assert_eq!(r.latest_compatible, Some(b"1.20.0".to_vec()));
    assert_eq!(r.error, None);
}

#[test]
fn control_record_has_fixed_label_and_no_resolution() {
    let r = control_result(Some(b"1.0.0".to_vec()), Some(b"1.85.0".to_vec()));
    assert_eq!(r.crate_name, b"CONTROL".to_vec());
    assert_eq!(r.dependency_spec, b"none".to_vec());
    assert_eq!(r.resolved_version, None);
    assert_eq!(r.oldest_compatible, Some(b"1.0.0".to_vec()));
    assert_eq!(r.latest_compatible, Some(b"1.85.0".to_vec()));
    assert_eq!(r.error, None);
}

#[test]
fn error_record_has_message_and_absent_fields() {
    let r = error_result(b"demo".to_vec(), b"1".to_vec(), &ProbeError::ResolutionFailed);
    assert_eq!(r.crate_name, b"demo".to_vec());
    assert_eq!(r.dependency_spec, b"1".to_vec());
    assert_eq!(r.resolved_version, None);
    assert_eq!(r.oldest_compatible, None);
    assert_eq!(r.latest_compatible, None);
    assert_eq!(r.error, Some(b"Failed to run cargo check".to_vec()));
}

#[test]
fn each_error_kind_has_its_message() {
    assert_eq!(
        ProbeError::ResolutionFailed.message(),
        b"Failed to run cargo check".to_vec()
    );
    assert_eq!(
        ProbeError::VersionNotFound.message(),
        b"Could not find version in Cargo.lock".to_vec()
    );
    assert_eq!(
        ProbeError::ScaffoldIo(b"permission denied".to_vec()).message(),
        b"permission denied".to_vec()
    );
}

#[test]
fn latest_is_the_last_list_entry() {
    let versions = vec![b"1.0.0".to_vec(), b"1.10.0".to_vec(), b"1.20.0".to_vec()];
    assert_eq!(latest_of(&versions), Some(b"1.20.0".to_vec()));
    assert_eq!(latest_of(&Vec::new()), None);
    assert_eq!(version_at(&versions, 1), b"1.10.0".to_vec());
}

#[test]
fn catalog_lists_the_fixed_candidates() {
    let entries = catalog();
    assert_eq!(entries.len(), 6);
    assert_eq!(entries[0], (b"bitflags".to_vec(), b"1".to_vec()));
    assert_eq!(entries[2], (b"cfg-if".to_vec(), b"1".to_vec()));
    assert_eq!(entries[5], (b"num_cpus".to_vec(), b"1".to_vec()));
}

#[test]
fn catalog_lookup_finds_recorded_constraints() {
    assert_eq!(catalog_constraint(&b"log".to_vec()), Some(b"1".to_vec()));
    assert_eq!(catalog_constraint(&b"not-in-catalog".to_vec()), None);
}

#[test]
fn version_spec_defaults_to_the_major_line() {
    assert_eq!(get_version_spec(&b"bitflags".to_vec()), b"1".to_vec());
    assert_eq!(get_version_spec(&b"anything".to_vec()), b"1".to_vec());
    assert_eq!(get_version_spec(&b"extension-trait".to_vec()), b"1.0".to_vec());
}

#[test]
fn output_file_names() {
    assert_eq!(batch_results_filename(), b"results.json".to_vec());
    assert_eq!(
        single_result_filename(&b"bitflags".to_vec()),
        b"results-bitflags.json".to_vec()
    );
}
