//! Experiment results: the per-library record, the closed set of probe
//! errors that abort one library's probe, the fixed catalog of candidate
//! libraries, and the names of the output files.

use vstd::prelude::*;

verus! {

pub open spec fn control_label_lit() -> Seq<u8> {
    seq!['C' as u8, 'O' as u8, 'N' as u8, 'T' as u8, 'R' as u8, 'O' as u8, 'L' as u8]
}

fn control_label_bytes() -> (r: Vec<u8>)
    ensures
        r@ == control_label_lit(),
{
    vec!['C' as u8, 'O' as u8, 'N' as u8, 'T' as u8, 'R' as u8, 'O' as u8, 'L' as u8]
}

pub open spec fn none_label_lit() -> Seq<u8> {
    seq!['n' as u8, 'o' as u8, 'n' as u8, 'e' as u8]
}

fn none_label_bytes() -> (r: Vec<u8>)
    ensures
        r@ == none_label_lit(),
{
    vec!['n' as u8, 'o' as u8, 'n' as u8, 'e' as u8]
}

pub open spec fn resolution_failed_msg_lit() -> Seq<u8> {
    seq!['F' as u8, 'a' as u8, 'i' as u8, 'l' as u8, 'e' as u8, 'd' as u8, ' ' as u8, 't' as u8, 'o' as u8, ' ' as u8, 'r' as u8, 'u' as u8, 'n' as u8, ' ' as u8, 'c' as u8, 'a' as u8, 'r' as u8, 'g' as u8, 'o' as u8, ' ' as u8, 'c' as u8, 'h' as u8, 'e' as u8, 'c' as u8, 'k' as u8]
}

fn resolution_failed_msg_bytes() -> (r: Vec<u8>)
    ensures
        r@ == resolution_failed_msg_lit(),
{
    vec!['F' as u8, 'a' as u8, 'i' as u8, 'l' as u8, 'e' as u8, 'd' as u8, ' ' as u8, 't' as u8, 'o' as u8, ' ' as u8, 'r' as u8, 'u' as u8, 'n' as u8, ' ' as u8, 'c' as u8, 'a' as u8, 'r' as u8, 'g' as u8, 'o' as u8, ' ' as u8, 'c' as u8, 'h' as u8, 'e' as u8, 'c' as u8, 'k' as u8]
}

pub open spec fn version_not_found_msg_lit() -> Seq<u8> {
    seq!['C' as u8, 'o' as u8, 'u' as u8, 'l' as u8, 'd' as u8, ' ' as u8, 'n' as u8, 'o' as u8, 't' as u8, ' ' as u8, 'f' as u8, 'i' as u8, 'n' as u8, 'd' as u8, ' ' as u8, 'v' as u8, 'e' as u8, 'r' as u8, 's' as u8, 'i' as u8, 'o' as u8, 'n' as u8, ' ' as u8, 'i' as u8, 'n' as u8, ' ' as u8, 'C' as u8, 'a' as u8, 'r' as u8, 'g' as u8, 'o' as u8, '.' as u8, 'l' as u8, 'o' as u8, 'c' as u8, 'k' as u8]
}

fn version_not_found_msg_bytes() -> (r: Vec<u8>)
    ensures
        r@ == version_not_found_msg_lit(),
{
    vec!['C' as u8, 'o' as u8, 'u' as u8, 'l' as u8, 'd' as u8, ' ' as u8, 'n' as u8, 'o' as u8, 't' as u8, ' ' as u8, 'f' as u8, 'i' as u8, 'n' as u8, 'd' as u8, ' ' as u8, 'v' as u8, 'e' as u8, 'r' as u8, 's' as u8, 'i' as u8, 'o' as u8, 'n' as u8, ' ' as u8, 'i' as u8, 'n' as u8, ' ' as u8, 'C' as u8, 'a' as u8, 'r' as u8, 'g' as u8, 'o' as u8, '.' as u8, 'l' as u8, 'o' as u8, 'c' as u8, 'k' as u8]
}

pub open spec fn results_json_lit() -> Seq<u8> {
    seq!['r' as u8, 'e' as u8, 's' as u8, 'u' as u8, 'l' as u8, 't' as u8, 's' as u8, '.' as u8, 'j' as u8, 's' as u8, 'o' as u8, 'n' as u8]
}

fn results_json_bytes() -> (r: Vec<u8>)
    ensures
        r@ == results_json_lit(),
{
    vec!['r' as u8, 'e' as u8, 's' as u8, 'u' as u8, 'l' as u8, 't' as u8, 's' as u8, '.' as u8, 'j' as u8, 's' as u8, 'o' as u8, 'n' as u8]
}

pub open spec fn results_stem_lit() -> Seq<u8> {
    seq!['r' as u8, 'e' as u8, 's' as u8, 'u' as u8, 'l' as u8, 't' as u8, 's' as u8, '-' as u8]
}

fn results_stem_bytes() -> (r: Vec<u8>)
    ensures
        r@ == results_stem_lit(),
{
    vec!['r' as u8, 'e' as u8, 's' as u8, 'u' as u8, 'l' as u8, 't' as u8, 's' as u8, '-' as u8]
}

pub open spec fn json_ext_lit() -> Seq<u8> {
    seq!['.' as u8, 'j' as u8, 's' as u8, 'o' as u8, 'n' as u8]
}

fn json_ext_bytes() -> (r: Vec<u8>)
    ensures
        r@ == json_ext_lit(),
{
    vec!['.' as u8, 'j' as u8, 's' as u8, 'o' as u8, 'n' as u8]
}

pub open spec fn one_lit() -> Seq<u8> {
    seq!['1' as u8]
}

fn one_bytes() -> (r: Vec<u8>)
    ensures
        r@ == one_lit(),
{
    vec!['1' as u8]
}

pub open spec fn one_zero_lit() -> Seq<u8> {
    seq!['1' as u8, '.' as u8, '0' as u8]
}

fn one_zero_bytes() -> (r: Vec<u8>)
    ensures
        r@ == one_zero_lit(),
{
    vec!['1' as u8, '.' as u8, '0' as u8]
}

pub open spec fn extension_trait_lit() -> Seq<u8> {
    seq!['e' as u8, 'x' as u8, 't' as u8, 'e' as u8, 'n' as u8, 's' as u8, 'i' as u8, 'o' as u8, 'n' as u8, '-' as u8, 't' as u8, 'r' as u8, 'a' as u8, 'i' as u8, 't' as u8]
}

fn extension_trait_bytes() -> (r: Vec<u8>)
    ensures
        r@ == extension_trait_lit(),
{
    vec!['e' as u8, 'x' as u8, 't' as u8, 'e' as u8, 'n' as u8, 's' as u8, 'i' as u8, 'o' as u8, 'n' as u8, '-' as u8, 't' as u8, 'r' as u8, 'a' as u8, 'i' as u8, 't' as u8]
}

pub open spec fn bitflags_name_lit() -> Seq<u8> {
    seq!['b' as u8, 'i' as u8, 't' as u8, 'f' as u8, 'l' as u8, 'a' as u8, 'g' as u8, 's' as u8]
}

fn bitflags_name_bytes() -> (r: Vec<u8>)
    ensures
        r@ == bitflags_name_lit(),
{
    vec!['b' as u8, 'i' as u8, 't' as u8, 'f' as u8, 'l' as u8, 'a' as u8, 'g' as u8, 's' as u8]
}

pub open spec fn byteorder_name_lit() -> Seq<u8> {
    seq!['b' as u8, 'y' as u8, 't' as u8, 'e' as u8, 'o' as u8, 'r' as u8, 'd' as u8, 'e' as u8, 'r' as u8]
}

fn byteorder_name_bytes() -> (r: Vec<u8>)
    ensures
        r@ == byteorder_name_lit(),
{
    vec!['b' as u8, 'y' as u8, 't' as u8, 'e' as u8, 'o' as u8, 'r' as u8, 'd' as u8, 'e' as u8, 'r' as u8]
}

pub open spec fn cfg_if_name_lit() -> Seq<u8> {
    seq!['c' as u8, 'f' as u8, 'g' as u8, '-' as u8, 'i' as u8, 'f' as u8]
}

fn cfg_if_name_bytes() -> (r: Vec<u8>)
    ensures
        r@ == cfg_if_name_lit(),
{
    vec!['c' as u8, 'f' as u8, 'g' as u8, '-' as u8, 'i' as u8, 'f' as u8]
}

pub open spec fn futures_name_lit() -> Seq<u8> {
    seq!['f' as u8, 'u' as u8, 't' as u8, 'u' as u8, 'r' as u8, 'e' as u8, 's' as u8]
}

fn futures_name_bytes() -> (r: Vec<u8>)
    ensures
        r@ == futures_name_lit(),
{
    vec!['f' as u8, 'u' as u8, 't' as u8, 'u' as u8, 'r' as u8, 'e' as u8, 's' as u8]
}

pub open spec fn log_name_lit() -> Seq<u8> {
    seq!['l' as u8, 'o' as u8, 'g' as u8]
}

fn log_name_bytes() -> (r: Vec<u8>)
    ensures
        r@ == log_name_lit(),
{
    vec!['l' as u8, 'o' as u8, 'g' as u8]
}

pub open spec fn num_cpus_name_lit() -> Seq<u8> {
    seq!['n' as u8, 'u' as u8, 'm' as u8, '_' as u8, 'c' as u8, 'p' as u8, 'u' as u8, 's' as u8]
}

fn num_cpus_name_bytes() -> (r: Vec<u8>)
    ensures
        r@ == num_cpus_name_lit(),
{
    vec!['n' as u8, 'u' as u8, 'm' as u8, '_' as u8, 'c' as u8, 'p' as u8, 'u' as u8, 's' as u8]
}


/// One per-library record.  The optional fields are absent for the control
/// case, on resolver failure, or when no version in the searched range
/// compiles; `error` is set only by the failures that abort a library's
/// probe.
pub struct ExperimentResult {
    pub crate_name: Vec<u8>,
    pub dependency_spec: Vec<u8>,
    pub resolved_version: Option<Vec<u8>>,
    pub oldest_compatible: Option<Vec<u8>>,
    pub latest_compatible: Option<Vec<u8>>,
    pub error: Option<Vec<u8>>,
}

/// The failures that abort one library's probe.  An uninstallable toolchain
/// or a failed build is not here: those are valid probe verdicts.
pub enum ProbeError {
    /// A directory or file of the throwaway project could not be created or
    /// removed; carries the operating system's message.
    ScaffoldIo(Vec<u8>),
    /// The build tool invocation that resolves dependency versions exited
    /// with failure.
    ResolutionFailed,
    /// The lock artifact was scanned fully and no block matched the library.
    VersionNotFound,
}

pub open spec fn error_message_spec(e: &ProbeError) -> Seq<u8> {
    match e {
        ProbeError::ScaffoldIo(m) => m@,
        ProbeError::ResolutionFailed => resolution_failed_msg_lit(),
        ProbeError::VersionNotFound => version_not_found_msg_lit(),
    }
}

impl ProbeError {
    /// The message recorded for this error.
    pub fn message(&self) -> (r: Vec<u8>)
        ensures
            r@ == error_message_spec(self),
    {
        match self {
            ProbeError::ScaffoldIo(m) => crate::text::subrange_to_vec(m, 0, m.len()),
            ProbeError::ResolutionFailed => resolution_failed_msg_bytes(),
            ProbeError::VersionNotFound => version_not_found_msg_bytes(),
        }
    }
}

/// The record of a completed probe of one library: no error, every other
/// field as handed in.
pub open spec fn crate_record(
    name: Vec<u8>,
    dependency_spec: Vec<u8>,
    resolved: Option<Vec<u8>>,
    oldest: Option<Vec<u8>>,
    latest: Option<Vec<u8>>,
) -> ExperimentResult {
    ExperimentResult {
        crate_name: name,
        dependency_spec,
        resolved_version: resolved,
        oldest_compatible: oldest,
        latest_compatible: latest,
        error: None,
    }
}

/// Builds the record of a completed probe of one library.
pub fn crate_result(
    name: Vec<u8>,
    dependency_spec: Vec<u8>,
    resolved: Option<Vec<u8>>,
    oldest: Option<Vec<u8>>,
    latest: Option<Vec<u8>>,
) -> (r: ExperimentResult)
    ensures
        r == crate_record(name, dependency_spec, resolved, oldest, latest),
{
    ExperimentResult {
        crate_name: name,
        dependency_spec,
        resolved_version: resolved,
        oldest_compatible: oldest,
        latest_compatible: latest,
        error: None,
    }
}

/// Builds the record of a completed control-case probe: labelled `CONTROL`,
/// with constraint `none`, no resolved version and no error.
pub fn control_result(oldest: Option<Vec<u8>>, latest: Option<Vec<u8>>) -> (r: ExperimentResult)
    ensures
        r.crate_name@ == control_label_lit(),
        r.dependency_spec@ == none_label_lit(),
        r.resolved_version is None,
        r.oldest_compatible == oldest,
        r.latest_compatible == latest,
        r.error is None,
{
    ExperimentResult {
        crate_name: control_label_bytes(),
        dependency_spec: none_label_bytes(),
        resolved_version: None,
        oldest_compatible: oldest,
        latest_compatible: latest,
        error: None,
    }
}

/// Builds the record of a library whose probe was aborted by `err`: the
/// error message is recorded and every optional result field is absent.
pub fn error_result(name: Vec<u8>, dependency_spec: Vec<u8>, err: &ProbeError) -> (r:
    ExperimentResult)
    ensures
        r.crate_name == name,
        r.dependency_spec == dependency_spec,
        r.resolved_version is None,
        r.oldest_compatible is None,
        r.latest_compatible is None,
        r.error matches Some(m) && m@ == error_message_spec(err),
{
    ExperimentResult {
        crate_name: name,
        dependency_spec,
        resolved_version: None,
        oldest_compatible: None,
        latest_compatible: None,
        error: Some(err.message()),
    }
}

/// The newest entry of the version list — reported as the latest compatible
/// version whenever the search's monotonicity assumption holds; it is not
/// probed separately.
pub fn latest_of(versions: &Vec<Vec<u8>>) -> (r: Option<Vec<u8>>)
    ensures
        versions@.len() == 0 ==> r is None,
        versions@.len() > 0 ==> (r matches Some(v) && v@ == versions.deep_view().last()),
{
    if versions.len() == 0 {
        None
    } else {
        let last = &versions[versions.len() - 1];
        let copy = crate::text::subrange_to_vec(last, 0, last.len());
        proof {
            assert(versions.deep_view().last() == versions@.last()@);
            assert(last@.subrange(0, last@.len() as int) =~= last@);
        }
        Some(copy)
    }
}

/// The version at a search result index.
pub fn version_at(versions: &Vec<Vec<u8>>, i: usize) -> (r: Vec<u8>)
    requires
        i < versions@.len(),
    ensures
        r@ == versions.deep_view()[i as int],
{
    let v = &versions[i];
    let copy = crate::text::subrange_to_vec(v, 0, v.len());
    proof {
        assert(versions.deep_view()[i as int] == versions@[i as int]@);
        assert(v@.subrange(0, v@.len() as int) =~= v@);
    }
    copy
}

/// The fixed catalog of candidate libraries, as (identifier, version
/// constraint) pairs.
pub open spec fn catalog_spec() -> Seq<(Seq<u8>, Seq<u8>)> {
    seq![
        (bitflags_name_lit(), one_lit()),
        (byteorder_name_lit(), one_lit()),
        (cfg_if_name_lit(), one_lit()),
        (futures_name_lit(), one_lit()),
        (log_name_lit(), one_lit()),
        (num_cpus_name_lit(), one_lit()),
    ]
}

/// The fixed catalog of candidate libraries.
pub fn catalog() -> (r: Vec<(Vec<u8>, Vec<u8>)>)
    ensures
        r.deep_view() == catalog_spec(),
{
    let mut r: Vec<(Vec<u8>, Vec<u8>)> = Vec::new();
    r.push((bitflags_name_bytes(), one_bytes()));
    r.push((byteorder_name_bytes(), one_bytes()));
    r.push((cfg_if_name_bytes(), one_bytes()));
    r.push((futures_name_bytes(), one_bytes()));
    r.push((log_name_bytes(), one_bytes()));
    r.push((num_cpus_name_bytes(), one_bytes()));
    proof {
        assert(r.deep_view() =~~= catalog_spec());
    }
    r
}

/// First catalog entry whose identifier equals `name`, scanned in order.
pub open spec fn lookup_rec(entries: Seq<(Seq<u8>, Seq<u8>)>, name: Seq<u8>) -> Option<Seq<u8>>
    decreases entries.len(),
{
    if entries.len() == 0 {
        None
    } else if entries[0].0 == name {
        Some(entries[0].1)
    } else {
        lookup_rec(entries.drop_first(), name)
    }
}

pub open spec fn catalog_lookup(name: Seq<u8>) -> Option<Seq<u8>> {
    lookup_rec(catalog_spec(), name)
}

/// The version constraint the catalog records for `name`, if `name` is in
/// the catalog.
pub fn catalog_constraint(name: &Vec<u8>) -> (r: Option<Vec<u8>>)
    ensures
        match r {
            Some(c) => catalog_lookup(name@) == Some(c@),
            None => catalog_lookup(name@) is None,
        },
{
    let entries = catalog();
    let mut k: usize = 0;
    proof {
        assert(entries.deep_view().skip(0) =~~= entries.deep_view());
    }
    while k < entries.len()
        invariant
            k <= entries@.len(),
            entries@.len() == entries.deep_view().len(),
            entries.deep_view() == catalog_spec(),
            catalog_lookup(name@) == lookup_rec(entries.deep_view().skip(k as int), name@),
        decreases entries@.len() - k,
    {
        proof {
            assert(entries.deep_view()[k as int] == (entries@[k as int].0@, entries@[k as int].1@));
            assert(entries.deep_view().skip(k as int)[0] == entries.deep_view()[k as int]);
        }
        if crate::text::bytes_eq(&entries[k].0, name) {
            let c = crate::text::subrange_to_vec(&entries[k].1, 0, entries[k].1.len());
            proof {
                assert(entries@[k as int].1@.subrange(0, entries@[k as int].1@.len() as int)
                    =~= entries@[k as int].1@);
            }
            return Some(c);
        }
        proof {
            assert(entries.deep_view().skip(k as int).drop_first() =~~= entries.deep_view().skip(
                k + 1 as int,
            ));
        }
        k = k + 1;
    }
    proof {
        assert(entries.deep_view().skip(k as int) =~~= Seq::<(Seq<u8>, Seq<u8>)>::empty());
    }
    None
}

/// The version constraint used for a library: the recorded one for the one
/// identifier that wants a tighter bound, the current major line for the
/// rest.
pub open spec fn version_spec_for(name: Seq<u8>) -> Seq<u8> {
    if name == extension_trait_lit() {
        one_zero_lit()
    } else {
        one_lit()
    }
}

/// The version constraint used for a library identifier.
pub fn get_version_spec(crate_name: &Vec<u8>) -> (r: Vec<u8>)
    ensures
        r@ == version_spec_for(crate_name@),
{
    let special = extension_trait_bytes();
    if crate::text::bytes_eq(crate_name, &special) {
        one_zero_bytes()
    } else {
        one_bytes()
    }
}

/// The batch-mode output file name.
pub fn batch_results_filename() -> (r: Vec<u8>)
    ensures
        r@ == results_json_lit(),
{
    results_json_bytes()
}

/// The single-library-mode output file name, derived from the library name.
pub open spec fn single_result_filename_spec(name: Seq<u8>) -> Seq<u8> {
    results_stem_lit() + name + json_ext_lit()
}

pub fn single_result_filename(name: &Vec<u8>) -> (r: Vec<u8>)
    ensures
        r@ == single_result_filename_spec(name@),
{
    let mut r = results_stem_bytes();
    r.extend_from_slice(name.as_slice());
    let ext = json_ext_bytes();
    r.extend_from_slice(ext.as_slice());
    proof {
        assert(r@ =~= single_result_filename_spec(name@));
    }
    r
}

} // verus!
