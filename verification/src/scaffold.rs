//! Scaffolding: the text of the throwaway build project that one probing
//! session works in — a manifest declaring at most one dependency, and a
//! minimal source stub that imports the library so the build tool must
//! actually resolve and compile it.

use vstd::prelude::*;

verus! {

pub open spec fn lib_head_lit() -> Seq<u8> {
    seq!['/' as u8, '/' as u8, ' ' as u8, 'T' as u8, 'e' as u8, 's' as u8, 't' as u8, ' ' as u8, 'u' as u8, 's' as u8, 'a' as u8, 'g' as u8, 'e' as u8, ' ' as u8, 'o' as u8, 'f' as u8, ' ' as u8]
}

fn lib_head_bytes() -> (r: Vec<u8>)
    ensures
        r@ == lib_head_lit(),
{
    vec!['/' as u8, '/' as u8, ' ' as u8, 'T' as u8, 'e' as u8, 's' as u8, 't' as u8, ' ' as u8, 'u' as u8, 's' as u8, 'a' as u8, 'g' as u8, 'e' as u8, ' ' as u8, 'o' as u8, 'f' as u8, ' ' as u8]
}

pub open spec fn lib_mid_lit() -> Seq<u8> {
    seq!['\n' as u8, '#' as u8, '[' as u8, 'a' as u8, 'l' as u8, 'l' as u8, 'o' as u8, 'w' as u8, '(' as u8, 'u' as u8, 'n' as u8, 'u' as u8, 's' as u8, 'e' as u8, 'd' as u8, '_' as u8, 'i' as u8, 'm' as u8, 'p' as u8, 'o' as u8, 'r' as u8, 't' as u8, 's' as u8, ')' as u8, ']' as u8, '\n' as u8, 'u' as u8, 's' as u8, 'e' as u8, ' ' as u8]
}

fn lib_mid_bytes() -> (r: Vec<u8>)
    ensures
        r@ == lib_mid_lit(),
{
    vec!['\n' as u8, '#' as u8, '[' as u8, 'a' as u8, 'l' as u8, 'l' as u8, 'o' as u8, 'w' as u8, '(' as u8, 'u' as u8, 'n' as u8, 'u' as u8, 's' as u8, 'e' as u8, 'd' as u8, '_' as u8, 'i' as u8, 'm' as u8, 'p' as u8, 'o' as u8, 'r' as u8, 't' as u8, 's' as u8, ')' as u8, ']' as u8, '\n' as u8, 'u' as u8, 's' as u8, 'e' as u8, ' ' as u8]
}

pub open spec fn lib_tail_lit() -> Seq<u8> {
    seq![';' as u8, '\n' as u8]
}

fn lib_tail_bytes() -> (r: Vec<u8>)
    ensures
        r@ == lib_tail_lit(),
{
    vec![';' as u8, '\n' as u8]
}

pub open spec fn pkg_head_lit() -> Seq<u8> {
    seq!['[' as u8, 'p' as u8, 'a' as u8, 'c' as u8, 'k' as u8, 'a' as u8, 'g' as u8, 'e' as u8, ']' as u8, '\n' as u8, 'n' as u8, 'a' as u8, 'm' as u8, 'e' as u8, ' ' as u8, '=' as u8, ' ' as u8, '"' as u8]
}

fn pkg_head_bytes() -> (r: Vec<u8>)
    ensures
        r@ == pkg_head_lit(),
{
    vec!['[' as u8, 'p' as u8, 'a' as u8, 'c' as u8, 'k' as u8, 'a' as u8, 'g' as u8, 'e' as u8, ']' as u8, '\n' as u8, 'n' as u8, 'a' as u8, 'm' as u8, 'e' as u8, ' ' as u8, '=' as u8, ' ' as u8, '"' as u8]
}

pub open spec fn pkg_mid_lit() -> Seq<u8> {
    seq!['"' as u8, '\n' as u8, 'v' as u8, 'e' as u8, 'r' as u8, 's' as u8, 'i' as u8, 'o' as u8, 'n' as u8, ' ' as u8, '=' as u8, ' ' as u8, '"' as u8, '0' as u8, '.' as u8, '1' as u8, '.' as u8, '0' as u8, '"' as u8, '\n' as u8, 'e' as u8, 'd' as u8, 'i' as u8, 't' as u8, 'i' as u8, 'o' as u8, 'n' as u8, ' ' as u8, '=' as u8, ' ' as u8, '"' as u8, '2' as u8, '0' as u8, '2' as u8, '1' as u8, '"' as u8, '\n' as u8, '\n' as u8, '[' as u8, 'd' as u8, 'e' as u8, 'p' as u8, 'e' as u8, 'n' as u8, 'd' as u8, 'e' as u8, 'n' as u8, 'c' as u8, 'i' as u8, 'e' as u8, 's' as u8, ']' as u8, '\n' as u8]
}

fn pkg_mid_bytes() -> (r: Vec<u8>)
    ensures
        r@ == pkg_mid_lit(),
{
    vec!['"' as u8, '\n' as u8, 'v' as u8, 'e' as u8, 'r' as u8, 's' as u8, 'i' as u8, 'o' as u8, 'n' as u8, ' ' as u8, '=' as u8, ' ' as u8, '"' as u8, '0' as u8, '.' as u8, '1' as u8, '.' as u8, '0' as u8, '"' as u8, '\n' as u8, 'e' as u8, 'd' as u8, 'i' as u8, 't' as u8, 'i' as u8, 'o' as u8, 'n' as u8, ' ' as u8, '=' as u8, ' ' as u8, '"' as u8, '2' as u8, '0' as u8, '2' as u8, '1' as u8, '"' as u8, '\n' as u8, '\n' as u8, '[' as u8, 'd' as u8, 'e' as u8, 'p' as u8, 'e' as u8, 'n' as u8, 'd' as u8, 'e' as u8, 'n' as u8, 'c' as u8, 'i' as u8, 'e' as u8, 's' as u8, ']' as u8, '\n' as u8]
}

pub open spec fn control_name_lit() -> Seq<u8> {
    seq!['c' as u8, 'o' as u8, 'n' as u8, 't' as u8, 'r' as u8, 'o' as u8, 'l' as u8]
}

fn control_name_bytes() -> (r: Vec<u8>)
    ensures
        r@ == control_name_lit(),
{
    vec!['c' as u8, 'o' as u8, 'n' as u8, 't' as u8, 'r' as u8, 'o' as u8, 'l' as u8]
}

pub open spec fn test_prefix_lit() -> Seq<u8> {
    seq!['t' as u8, 'e' as u8, 's' as u8, 't' as u8, '-' as u8]
}

fn test_prefix_bytes() -> (r: Vec<u8>)
    ensures
        r@ == test_prefix_lit(),
{
    vec!['t' as u8, 'e' as u8, 's' as u8, 't' as u8, '-' as u8]
}

pub open spec fn dep_eq_lit() -> Seq<u8> {
    seq![' ' as u8, '=' as u8, ' ' as u8, '"' as u8]
}

fn dep_eq_bytes() -> (r: Vec<u8>)
    ensures
        r@ == dep_eq_lit(),
{
    vec![' ' as u8, '=' as u8, ' ' as u8, '"' as u8]
}

pub open spec fn quote_nl_lit() -> Seq<u8> {
    seq!['"' as u8, '\n' as u8]
}

fn quote_nl_bytes() -> (r: Vec<u8>)
    ensures
        r@ == quote_nl_lit(),
{
    vec!['"' as u8, '\n' as u8]
}

pub open spec fn control_source_lit() -> Seq<u8> {
    seq!['/' as u8, '/' as u8, ' ' as u8, 'C' as u8, 'o' as u8, 'n' as u8, 't' as u8, 'r' as u8, 'o' as u8, 'l' as u8, ' ' as u8, 'c' as u8, 'a' as u8, 's' as u8, 'e' as u8, ' ' as u8, 'w' as u8, 'i' as u8, 't' as u8, 'h' as u8, ' ' as u8, 'n' as u8, 'o' as u8, ' ' as u8, 'd' as u8, 'e' as u8, 'p' as u8, 'e' as u8, 'n' as u8, 'd' as u8, 'e' as u8, 'n' as u8, 'c' as u8, 'i' as u8, 'e' as u8, 's' as u8, '\n' as u8]
}

fn control_source_bytes() -> (r: Vec<u8>)
    ensures
        r@ == control_source_lit(),
{
    vec!['/' as u8, '/' as u8, ' ' as u8, 'C' as u8, 'o' as u8, 'n' as u8, 't' as u8, 'r' as u8, 'o' as u8, 'l' as u8, ' ' as u8, 'c' as u8, 'a' as u8, 's' as u8, 'e' as u8, ' ' as u8, 'w' as u8, 'i' as u8, 't' as u8, 'h' as u8, ' ' as u8, 'n' as u8, 'o' as u8, ' ' as u8, 'd' as u8, 'e' as u8, 'p' as u8, 'e' as u8, 'n' as u8, 'd' as u8, 'e' as u8, 'n' as u8, 'c' as u8, 'i' as u8, 'e' as u8, 's' as u8, '\n' as u8]
}

/// A library identifier in the form import syntax requires: separator
/// hyphens become underscores.
pub open spec fn normalize_spec(name: Seq<u8>) -> Seq<u8> {
    name.map_values(
        |b: u8|
            if b == '-' as u8 {
                '_' as u8
            } else {
                b
            },
    )
}

/// Normalizes a library identifier for use in import syntax.
pub fn normalize_ident(name: &Vec<u8>) -> (r: Vec<u8>)
    ensures
        r@ == normalize_spec(name@),
{
    let mut r: Vec<u8> = Vec::new();
    let mut i: usize = 0;
    while i < name.len()
        invariant
            i <= name@.len(),
            r@.len() == i,
            forall|j: int|
                0 <= j < i ==> r@[j] == (if name@[j] == '-' as u8 {
                    '_' as u8
                } else {
                    name@[j]
                }),
        decreases name@.len() - i,
    {
        let b = name[i];
        if b == '-' as u8 {
            r.push('_' as u8);
        } else {
            r.push(b);
        }
        i = i + 1;
    }
    proof {
        assert(r@ =~= normalize_spec(name@));
    }
    r
}

/// The source stub that forces the build tool to resolve and compile the
/// library, not merely declare it.
pub open spec fn lib_rs_spec(name: Seq<u8>) -> Seq<u8> {
    lib_head_lit() + name + lib_mid_lit() + normalize_spec(name) + lib_tail_lit()
}

/// Source stub text for a probing project on the library `crate_name`.
pub fn generate_lib_rs(crate_name: &Vec<u8>) -> (r: Vec<u8>)
    ensures
        r@ == lib_rs_spec(crate_name@),
{
    let mut r = lib_head_bytes();
    r.extend_from_slice(crate_name.as_slice());
    let mid = lib_mid_bytes();
    r.extend_from_slice(mid.as_slice());
    let norm = normalize_ident(crate_name);
    r.extend_from_slice(norm.as_slice());
    let tail = lib_tail_bytes();
    r.extend_from_slice(tail.as_slice());
    proof {
        assert(r@ =~= lib_rs_spec(crate_name@));
    }
    r
}

/// Manifest text for the control project, which declares no dependency.
pub open spec fn control_manifest_spec() -> Seq<u8> {
    pkg_head_lit() + control_name_lit() + pkg_mid_lit()
}

pub fn control_manifest_text() -> (r: Vec<u8>)
    ensures
        r@ == control_manifest_spec(),
{
    let mut r = pkg_head_bytes();
    let name = control_name_bytes();
    r.extend_from_slice(name.as_slice());
    let mid = pkg_mid_bytes();
    r.extend_from_slice(mid.as_slice());
    proof {
        assert(r@ =~= control_manifest_spec());
    }
    r
}

/// Manifest text for a probing project: one package whose name is derived
/// from the library id, and exactly one dependency entry binding the library
/// to its version constraint.
pub open spec fn crate_manifest_spec(name: Seq<u8>, constraint: Seq<u8>) -> Seq<u8> {
    pkg_head_lit() + test_prefix_lit() + name + pkg_mid_lit() + name + dep_eq_lit() + constraint
        + quote_nl_lit()
}

pub fn crate_manifest_text(crate_name: &Vec<u8>, constraint: &Vec<u8>) -> (r: Vec<u8>)
    ensures
        r@ == crate_manifest_spec(crate_name@, constraint@),
{
    let mut r = pkg_head_bytes();
    let tp = test_prefix_bytes();
    r.extend_from_slice(tp.as_slice());
    r.extend_from_slice(crate_name.as_slice());
    let mid = pkg_mid_bytes();
    r.extend_from_slice(mid.as_slice());
    r.extend_from_slice(crate_name.as_slice());
    let eq = dep_eq_bytes();
    r.extend_from_slice(eq.as_slice());
    r.extend_from_slice(constraint.as_slice());
    let qnl = quote_nl_bytes();
    r.extend_from_slice(qnl.as_slice());
    proof {
        assert(r@ =~= crate_manifest_spec(crate_name@, constraint@));
    }
    r
}

/// Source stub text for the control project: a comment only.
pub fn control_source_text() -> (r: Vec<u8>)
    ensures
        r@ == control_source_lit(),
{
    control_source_bytes()
}

} // verus!
