use toolchain_probe::scaffold::{
    control_manifest_text, control_source_text, crate_manifest_text, generate_lib_rs,
    normalize_ident,
};

#[test]
fn lib_rs_references_the_library() {
    let out = generate_lib_rs(&b"cfg-if".to_vec());
    assert_eq!(
        out,
        b"// Test usage of cfg-if\n#[allow(unused_imports)]\nuse cfg_if;\n".to_vec()
    );
}

#[test]
fn lib_rs_for_plain_name() {
    let out = generate_lib_rs(&b"log".to_vec());
    assert_eq!(
        out,
        b"// Test usage of log\n#[allow(unused_imports)]\nuse log;\n".to_vec()
    );
}

#[test]
fn hyphens_normalize_to_underscores() {
    assert_eq!(normalize_ident(&b"cfg-if".to_vec()), b"cfg_if".to_vec());
    assert_eq!(normalize_ident(&b"a-b-c".to_vec()), b"a_b_c".to_vec());
    assert_eq!(normalize_ident(&b"num_cpus".to_vec()), b"num_cpus".to_vec());
    assert_eq!(normalize_ident(&b"".to_vec()), b"".to_vec());
}

#[test]
fn control_manifest_declares_no_dependency() {
    let out = control_manifest_text();
    assert_eq!(
        out,
        b"[package]\nname = \"control\"\nversion = \"0.1.0\"\nedition = \"2021\"\n\n[dependencies]\n"
            .to_vec()
    );
}

#[test]
fn crate_manifest_binds_the_one_dependency() {
    let out = crate_manifest_text(&b"bitflags".to_vec(), &b"1".to_vec());
    assert_eq!(
        out,
        b"[package]\nname = \"test-bitflags\"\nversion = \"0.1.0\"\nedition = \"2021\"\n\n[dependencies]\nbitflags = \"1\"\n"
            .to_vec()
    );
}

#[test]
fn control_source_is_a_comment_only() {
    assert_eq!(
        control_source_text(),
        b"// Control case with no dependencies\n".to_vec()
    );
}
