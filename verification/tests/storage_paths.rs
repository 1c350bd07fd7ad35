use acmed::format::{Format, PersistKind};
use acmed::storage::{HookStage, Storage};

fn storage() -> Storage {
    Storage {
        account_directory: "/etc/acme/accounts".to_string(),
        account_name: "admin".to_string(),
        crt_directory: "/etc/acme/certs".to_string(),
        crt_name: "example".to_string(),
        crt_name_format: String::new(),
        formats: vec![Format::Pem, Format::Der],
        algo: "rsa".to_string(),
        cert_file_mode: 0o644,
        cert_file_owner: Some("1000".to_string()),
        cert_file_group: Some("www-data".to_string()),
        pk_file_mode: 0o600,
        pk_file_owner: None,
        pk_file_group: Some("42".to_string()),
        file_pre_create_hooks: vec![],
        file_post_create_hooks: vec![],
        file_pre_edit_hooks: vec![],
        file_post_edit_hooks: vec![],
    }
}

#[test]
fn extensions_and_suffixes() {
    assert_eq!(Format::Pem.extension(), "pem");
    assert_eq!(Format::Der.extension(), "der");
    assert_eq!(PersistKind::Certificate.suffix(), "crt");
    assert_eq!(PersistKind::PrivateKey.suffix(), "pk");
    assert_eq!(PersistKind::AccountPrivateKey.suffix(), "pk");
}

#[test]
fn certificate_path() {
    let file = storage().get_file_path(PersistKind::Certificate, &Format::Pem);
    assert_eq!(file.file_name, "example_rsa.crt.pem");
    assert_eq!(file.file_directory, "/etc/acme/certs");
    assert_eq!(file.file_path, "/etc/acme/certs/example_rsa.crt.pem");
}

#[test]
fn private_key_path() {
    let file = storage().get_file_path(PersistKind::PrivateKey, &Format::Der);
    assert_eq!(file.file_name, "example_rsa.pk.der");
    assert_eq!(file.file_directory, "/etc/acme/certs");
    assert_eq!(file.file_path, "/etc/acme/certs/example_rsa.pk.der");
}

#[test]
fn account_key_path() {
    let file = storage().get_file_path(PersistKind::AccountPrivateKey, &Format::Pem);
    assert_eq!(file.file_name, "admin.pem");
    assert_eq!(file.file_directory, "/etc/acme/accounts");
    assert_eq!(file.file_path, "/etc/acme/accounts/admin.pem");
}

#[test]
fn path_is_joined_not_copied() {
    let mut s = storage();
    s.crt_directory = "certs/".to_string();
    let file = s.get_file_path(PersistKind::Certificate, &Format::Pem);
    assert_ne!(file.file_path, file.file_directory);
    assert_ne!(file.file_path, file.file_name);
    assert_eq!(file.file_path, "certs/example_rsa.crt.pem");
}

#[test]
fn path_is_repeatable() {
    let s = storage();
    let first = s.get_file_path(PersistKind::Certificate, &Format::Der);
    let second = s.get_file_path(PersistKind::Certificate, &Format::Der);
    assert_eq!(first, second);
    assert_eq!(first.context(), second.context());
}

#[test]
fn names_differ_by_extension_only() {
    let s = storage();
    let pem = s.get_file_path(PersistKind::Certificate, &Format::Pem);
    let der = s.get_file_path(PersistKind::Certificate, &Format::Der);
    assert_eq!(pem.file_name.strip_suffix("pem"), der.file_name.strip_suffix("der"));
    assert_eq!(pem.file_path.strip_suffix("pem"), der.file_path.strip_suffix("der"));
    assert_eq!(pem.file_directory, der.file_directory);
}

#[test]
fn context_fields() {
    let file = storage().get_file_path(PersistKind::Certificate, &Format::Pem);
    assert_eq!(
        file.context(),
        vec![
            ("file_name".to_string(), "example_rsa.crt.pem".to_string()),
            ("file_directory".to_string(), "/etc/acme/certs".to_string()),
            ("file_path".to_string(), "/etc/acme/certs/example_rsa.crt.pem".to_string()),
        ]
    );
}

#[test]
fn mode_by_kind_class() {
    let s = storage();
    assert_eq!(s.get_file_mode(PersistKind::Certificate), 0o644);
    assert_eq!(s.get_file_mode(PersistKind::PrivateKey), 0o600);
    assert_eq!(s.get_file_mode(PersistKind::AccountPrivateKey), 0o600);
}

#[test]
fn owner_by_kind_class() {
    let s = storage();
    assert!(s.is_well_formed());
    assert_eq!(s.resolve_owner(PersistKind::Certificate), (Some(1000), None));
    assert_eq!(s.resolve_owner(PersistKind::PrivateKey), (None, Some(42)));
    assert_eq!(s.resolve_owner(PersistKind::AccountPrivateKey), (None, Some(42)));
}

#[test]
fn well_formedness() {
    let mut s = storage();
    assert!(s.is_well_formed());
    s.formats = vec![];
    assert!(!s.is_well_formed());
}

#[test]
fn unusable_owner_changes_nothing() {
    let mut s = storage();
    s.cert_file_owner = Some(String::new());
    s.cert_file_group = Some("4294967296".to_string());
    s.pk_file_owner = Some("4294967295".to_string());
    s.pk_file_group = Some("staff".to_string());
    assert_eq!(s.resolve_owner(PersistKind::Certificate), (None, None));
    assert_eq!(s.resolve_owner(PersistKind::PrivateKey), (Some(u32::MAX), None));
}

#[test]
fn source_format_falls_back_to_first() {
    let mut s = storage();
    assert_eq!(s.source_format(&Format::Der), Format::Der);
    assert_eq!(s.source_format(&Format::Pem), Format::Pem);
    s.formats = vec![Format::Der];
    assert_eq!(s.source_format(&Format::Pem), Format::Der);
    s.formats = vec![Format::Pem];
    assert_eq!(s.source_format(&Format::Der), Format::Pem);
}

#[test]
fn hooks_by_stage() {
    let mut s = storage();
    let hook = |name: &str| acmed::hooks::Hook {
        name: name.to_string(),
        cmd: "true".to_string(),
        args: None,
        stdin: None,
        stdout: None,
        stderr: None,
    };
    s.file_pre_create_hooks = vec![hook("a")];
    s.file_post_create_hooks = vec![hook("b")];
    s.file_pre_edit_hooks = vec![hook("c")];
    s.file_post_edit_hooks = vec![hook("d")];
    assert_eq!(s.hooks(HookStage::PreCreate)[0].name, "a");
    assert_eq!(s.hooks(HookStage::PostCreate)[0].name, "b");
    assert_eq!(s.hooks(HookStage::PreEdit)[0].name, "c");
    assert_eq!(s.hooks(HookStage::PostEdit)[0].name, "d");
}
