use acmed::format::{Format, PersistKind};
use acmed::storage::{HookStage, Storage};
use acmed::writing::{PutAction, PutEvent, PutStage, PutState};

fn storage(formats: Vec<Format>) -> Storage {
    Storage {
        account_directory: "/accounts".to_string(),
        account_name: "admin".to_string(),
        crt_directory: "/certs".to_string(),
        crt_name: "example".to_string(),
        crt_name_format: String::new(),
        formats,
        algo: "rsa".to_string(),
        cert_file_mode: 0o644,
        cert_file_owner: Some("1000".to_string()),
        cert_file_group: Some("ssl-cert".to_string()),
        pk_file_mode: 0o600,
        pk_file_owner: Some("0".to_string()),
        pk_file_group: Some("0".to_string()),
        file_pre_create_hooks: vec![],
        file_post_create_hooks: vec![],
        file_pre_edit_hooks: vec![],
        file_post_edit_hooks: vec![],
    }
}

/// Drives a whole write; `existing` holds the encodings whose file exists,
/// `fail_at` the position of the action that fails, if any.
fn drive(s: &Storage, kind: PersistKind, existing: &[Format], fail_at: Option<usize>) -> Vec<PutAction> {
    let mut actions = vec![];
    let (mut state, mut action) = s.put(kind, PutState::new(), PutEvent::Start);
    loop {
        actions.push(action);
        let event = if fail_at == Some(actions.len() - 1) {
            PutEvent::Failed
        } else {
            match action {
                PutAction::CheckExists { format } => PutEvent::Exists(existing.contains(&format)),
                PutAction::Complete | PutAction::Abort => break,
                _ => PutEvent::Done,
            }
        };
        let next = s.put(kind, state, event);
        state = next.0;
        action = next.1;
    }
    actions
}

#[test]
fn put_writes_both_encodings_with_create_hooks() {
    let s = storage(vec![Format::Pem, Format::Der]);
    let actions = drive(&s, PersistKind::Certificate, &[], None);
    assert_eq!(
        actions,
        vec![
            PutAction::CheckExists { format: Format::Pem },
            PutAction::RunHooks { format: Format::Pem, stage: HookStage::PreCreate },
            PutAction::Write { format: Format::Pem, mode: 0o644, convert: false },
            PutAction::SetOwner { format: Format::Pem, owner: Some(1000), group: None },
            PutAction::RunHooks { format: Format::Pem, stage: HookStage::PostCreate },
            PutAction::CheckExists { format: Format::Der },
            PutAction::RunHooks { format: Format::Der, stage: HookStage::PreCreate },
            PutAction::Write { format: Format::Der, mode: 0o644, convert: true },
            PutAction::SetOwner { format: Format::Der, owner: Some(1000), group: None },
            PutAction::RunHooks { format: Format::Der, stage: HookStage::PostCreate },
            PutAction::Complete,
        ]
    );
    let names: Vec<String> = actions
        .iter()
        .filter_map(|a| match a {
            PutAction::Write { format, .. } => {
                Some(s.get_file_path(PersistKind::Certificate, format).file_name)
            }
            _ => None,
        })
        .collect();
    assert_eq!(names, vec!["example_rsa.crt.pem", "example_rsa.crt.der"]);
}

#[test]
fn put_create_hook_contexts_differ_by_extension() {
    let s = storage(vec![Format::Pem, Format::Der]);
    let actions = drive(&s, PersistKind::Certificate, &[], None);
    let contexts: Vec<(HookStage, Vec<(String, String)>)> = actions
        .iter()
        .filter_map(|a| match a {
            PutAction::RunHooks { format, stage } => {
                Some((*stage, s.get_file_path(PersistKind::Certificate, format).context()))
            }
            _ => None,
        })
        .collect();
    assert_eq!(contexts.len(), 4);
    assert_eq!(contexts[0].0, HookStage::PreCreate);
    assert_eq!(contexts[1].0, HookStage::PostCreate);
    assert_eq!(contexts[2].0, HookStage::PreCreate);
    assert_eq!(contexts[3].0, HookStage::PostCreate);
    assert_eq!(contexts[0].1, contexts[1].1);
    assert_eq!(contexts[2].1, contexts[3].1);
    assert_eq!(contexts[0].1[0].1, "example_rsa.crt.pem");
    assert_eq!(contexts[2].1[0].1, "example_rsa.crt.der");
    assert_eq!(contexts[0].1[1].1, contexts[2].1[1].1);
    assert_eq!(contexts[0].1[2].1, "/certs/example_rsa.crt.pem");
    assert_eq!(contexts[2].1[2].1, "/certs/example_rsa.crt.der");
}

#[test]
fn put_on_existing_file_runs_edit_hooks() {
    let s = storage(vec![Format::Pem, Format::Der]);
    let actions = drive(&s, PersistKind::PrivateKey, &[Format::Pem], None);
    assert_eq!(
        actions,
        vec![
            PutAction::CheckExists { format: Format::Pem },
            PutAction::RunHooks { format: Format::Pem, stage: HookStage::PreEdit },
            PutAction::Write { format: Format::Pem, mode: 0o600, convert: false },
            PutAction::SetOwner { format: Format::Pem, owner: Some(0), group: Some(0) },
            PutAction::RunHooks { format: Format::Pem, stage: HookStage::PostEdit },
            PutAction::CheckExists { format: Format::Der },
            PutAction::RunHooks { format: Format::Der, stage: HookStage::PreCreate },
            PutAction::Write { format: Format::Der, mode: 0o600, convert: true },
            PutAction::SetOwner { format: Format::Der, owner: Some(0), group: Some(0) },
            PutAction::RunHooks { format: Format::Der, stage: HookStage::PostCreate },
            PutAction::Complete,
        ]
    );
}

#[test]
fn put_follows_configured_order() {
    let s = storage(vec![Format::Der, Format::Pem]);
    let actions = drive(&s, PersistKind::AccountPrivateKey, &[Format::Der, Format::Pem], None);
    assert_eq!(actions.len(), 11);
    assert_eq!(actions[0], PutAction::CheckExists { format: Format::Der });
    assert_eq!(actions[2], PutAction::Write { format: Format::Der, mode: 0o600, convert: true });
    assert_eq!(actions[5], PutAction::CheckExists { format: Format::Pem });
    assert_eq!(actions[7], PutAction::Write { format: Format::Pem, mode: 0o600, convert: false });
    assert_eq!(actions[10], PutAction::Complete);
}

#[test]
fn put_failed_pre_hook_stops_everything() {
    let s = storage(vec![Format::Pem, Format::Der]);
    let actions = drive(&s, PersistKind::Certificate, &[], Some(1));
    assert_eq!(
        actions,
        vec![
            PutAction::CheckExists { format: Format::Pem },
            PutAction::RunHooks { format: Format::Pem, stage: HookStage::PreCreate },
            PutAction::Abort,
        ]
    );
}

#[test]
fn put_failed_post_hook_skips_remaining_encodings() {
    let s = storage(vec![Format::Pem, Format::Der]);
    let actions = drive(&s, PersistKind::Certificate, &[], Some(4));
    assert_eq!(actions.len(), 6);
    assert_eq!(actions[4], PutAction::RunHooks { format: Format::Pem, stage: HookStage::PostCreate });
    assert_eq!(actions[5], PutAction::Abort);
}

#[test]
fn put_stays_aborted() {
    let s = storage(vec![Format::Pem]);
    let (state, _) = s.put(PersistKind::Certificate, PutState::new(), PutEvent::Start);
    let (state, action) = s.put(PersistKind::Certificate, state, PutEvent::Failed);
    assert_eq!(action, PutAction::Abort);
    assert_eq!(state.stage, PutStage::Aborted);
    for event in [PutEvent::Start, PutEvent::Exists(true), PutEvent::Done, PutEvent::Failed] {
        assert_eq!(s.put(PersistKind::Certificate, state, event), (state, PutAction::Abort));
    }
}

#[test]
fn put_rejects_unexpected_event() {
    let s = storage(vec![Format::Pem]);
    let (state, _) = s.put(PersistKind::Certificate, PutState::new(), PutEvent::Start);
    let (state, action) = s.put(PersistKind::Certificate, state, PutEvent::Done);
    assert_eq!(action, PutAction::Abort);
    assert_eq!(state.stage, PutStage::Aborted);
    let (state, action) = s.put(PersistKind::Certificate, PutState::new(), PutEvent::Done);
    assert_eq!(action, PutAction::Abort);
    assert_eq!(state.stage, PutStage::Aborted);
}

#[test]
fn put_stays_completed() {
    let s = storage(vec![Format::Pem]);
    let done = PutState { index: 0, stage: PutStage::Completed, existed: true };
    assert_eq!(s.put(PersistKind::Certificate, done, PutEvent::Failed), (done, PutAction::Complete));
}

#[test]
fn put_state_out_of_range_aborts() {
    let s = storage(vec![Format::Pem]);
    let state = PutState { index: 3, stage: PutStage::Check, existed: false };
    let (next, action) = s.put(PersistKind::Certificate, state, PutEvent::Exists(false));
    assert_eq!(action, PutAction::Abort);
    assert_eq!(next.stage, PutStage::Aborted);
}

#[test]
fn put_then_get_uses_same_file_unconverted() {
    let s = storage(vec![Format::Pem, Format::Der]);
    let actions = drive(&s, PersistKind::Certificate, &[], None);
    assert_eq!(actions[2], PutAction::Write { format: Format::Pem, mode: 0o644, convert: false });
    let written = s.get_file_path(PersistKind::Certificate, &Format::Pem);
    let bytes = b"-----BEGIN CERTIFICATE-----\nAAAA\n-----END CERTIFICATE-----\n".to_vec();
    match s.get(PersistKind::Certificate, acmed::reading::ReadStep::Locate) {
        acmed::reading::ReadAction::Load(file) => assert_eq!(file, written),
        other => panic!("expected a load, got {:?}", other),
    }
    assert_eq!(
        s.get(PersistKind::Certificate, acmed::reading::ReadStep::Loaded(Some(bytes.clone()))),
        acmed::reading::ReadAction::Return(Some(bytes))
    );
}

#[test]
fn put_with_no_encoding_is_complete_at_once() {
    let s = storage(vec![]);
    assert_eq!(drive(&s, PersistKind::Certificate, &[], None), vec![PutAction::Complete]);
    let (state, action) = s.put(PersistKind::Certificate, PutState::new(), PutEvent::Start);
    assert_eq!(action, PutAction::Complete);
    assert_eq!(state.stage, PutStage::Completed);
}

#[test]
fn put_with_unusable_owner_goes_on() {
    let mut s = storage(vec![Format::Pem]);
    s.cert_file_owner = Some(String::new());
    s.cert_file_group = Some("4294967296".to_string());
    let actions = drive(&s, PersistKind::Certificate, &[], None);
    assert_eq!(actions[3], PutAction::SetOwner { format: Format::Pem, owner: None, group: None });
    assert_eq!(actions[5], PutAction::Complete);
}
