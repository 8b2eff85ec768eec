use rubicon::{expand, expand_all, stable_name, DeclKind, Declaration, Role, RoleConflict};

fn decl(vis: &str, name: &str, ty: &str, init: &str, kind: DeclKind) -> Declaration {
    Declaration {
        visibility: vis.to_string(),
        name: name.to_string(),
        ty: ty.to_string(),
        init: init.to_string(),
        kind,
    }
}

fn counter() -> Declaration {
    decl("pub", "PL1", "AtomicU64", "AtomicU64::new(0)", DeclKind::Static)
}

fn dangerous() -> Declaration {
    decl("pub", "DANGEROUS", "u64", "0", DeclKind::StaticMut)
}

fn thread_counter() -> Declaration {
    decl("pub", "TL1", "AtomicU64", "AtomicU64::new(0)", DeclKind::ThreadLocal)
}

#[test]
fn stable_name_appends_suffix() {
    assert_eq!(stable_name("PL1"), "PL1__rubicon_export");
    assert_eq!(stable_name(""), "__rubicon_export");
}

#[test]
fn stable_name_same_in_every_role() {
    let d = counter();
    let sym = stable_name("PL1");
    let exported = expand(&d, Role::Exporting);
    let imported = expand(&d, Role::Importing);
    assert!(exported.contains(&format!("\"{}\"", sym)));
    assert!(imported.contains(&format!("\"{}\"", sym)));
}

#[test]
fn local_static_is_unchanged() {
    assert_eq!(
        expand(&counter(), Role::Local),
        "pub static PL1: AtomicU64 = AtomicU64::new(0);\n"
    );
}

#[test]
fn local_without_visibility() {
    let d = decl("", "X", "u32", "42", DeclKind::Static);
    assert_eq!(expand(&d, Role::Local), "static X: u32 = 42;\n");
}

#[test]
fn local_static_mut() {
    assert_eq!(
        expand(&dangerous(), Role::Local),
        "pub static mut DANGEROUS: u64 = 0;\n"
    );
}

#[test]
fn local_thread_local() {
    assert_eq!(
        expand(&thread_counter(), Role::Local),
        "::std::thread_local! {\n    pub static TL1: AtomicU64 = AtomicU64::new(0);\n}\n"
    );
}

#[test]
fn exporting_static() {
    assert_eq!(
        expand(&counter(), Role::Exporting),
        "#[export_name = \"PL1__rubicon_export\"]\npub static PL1: AtomicU64 = AtomicU64::new(0);\n"
    );
}

#[test]
fn exporting_static_mut() {
    assert_eq!(
        expand(&dangerous(), Role::Exporting),
        "#[export_name = \"DANGEROUS__rubicon_export\"]\npub static mut DANGEROUS: u64 = 0;\n"
    );
}

#[test]
fn exporting_thread_local() {
    assert_eq!(
        expand(&thread_counter(), Role::Exporting),
        "::std::thread_local! {\n    pub static TL1: AtomicU64 = AtomicU64::new(0);\n}\n\
         #[no_mangle]\nstatic TL1__rubicon_export: &::std::thread::LocalKey<AtomicU64> = &TL1;\n"
    );
}

#[test]
fn importing_static() {
    assert_eq!(
        expand(&counter(), Role::Importing),
        "extern \"Rust\" {\n    #[link_name = \"PL1__rubicon_export\"]\n    \
         #[allow(improper_ctypes)]\n    static PL1__rubicon_import: AtomicU64;\n}\n\
         pub static PL1: ::rubicon::TrustedExtern<AtomicU64> = \
         ::rubicon::TrustedExtern(unsafe { &PL1__rubicon_import });\n"
    );
}

#[test]
fn importing_static_mut() {
    assert_eq!(
        expand(&dangerous(), Role::Importing),
        "extern \"Rust\" {\n    #[link_name = \"DANGEROUS__rubicon_export\"]\n    \
         #[allow(improper_ctypes)]\n    pub static mut DANGEROUS: u64;\n}\n"
    );
}

#[test]
fn importing_thread_local() {
    assert_eq!(
        expand(&thread_counter(), Role::Importing),
        "extern \"Rust\" {\n    #[link_name = \"TL1__rubicon_export\"]\n    \
         #[allow(improper_ctypes)]\n    \
         static TL1__rubicon_import: &'static ::std::thread::LocalKey<AtomicU64>;\n}\n\
         pub static TL1: ::rubicon::TrustedExternDouble<::std::thread::LocalKey<AtomicU64>> = \
         ::rubicon::TrustedExternDouble(unsafe { &TL1__rubicon_import });\n"
    );
}

#[test]
fn importer_declares_no_storage_of_its_own() {
    let text = expand(&counter(), Role::Importing);
    assert!(!text.contains("= AtomicU64::new(0)"));
    let text = expand(&thread_counter(), Role::Importing);
    assert!(!text.contains("thread_local!"));
}

#[test]
fn expand_all_concatenates_in_order() {
    let decls = vec![counter(), dangerous()];
    assert_eq!(
        expand_all(&decls, false, false),
        Ok("pub static PL1: AtomicU64 = AtomicU64::new(0);\npub static mut DANGEROUS: u64 = 0;\n"
            .to_string())
    );
    let exported = expand_all(&decls, true, false).unwrap();
    assert_eq!(
        exported,
        format!(
            "{}{}",
            expand(&counter(), Role::Exporting),
            expand(&dangerous(), Role::Exporting)
        )
    );
    let imported = expand_all(&decls, false, true).unwrap();
    assert_eq!(
        imported,
        format!(
            "{}{}",
            expand(&counter(), Role::Importing),
            expand(&dangerous(), Role::Importing)
        )
    );
}

#[test]
fn expand_all_of_nothing_is_empty() {
    assert_eq!(expand_all(&vec![], true, false), Ok(String::new()));
}

#[test]
fn conflicting_roles_fail_for_any_declarations() {
    assert_eq!(expand_all(&vec![], true, true), Err(RoleConflict));
    let decls = vec![counter(), dangerous(), thread_counter()];
    assert_eq!(expand_all(&decls, true, true), Err(RoleConflict));
}
