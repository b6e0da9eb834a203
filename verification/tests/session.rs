use galion::config::GalionConfig;
use galion::errors::GalionError;
use galion::jobs::{JobState, JobsList, ResultJob, SyncJob, SyncJobData};
use galion::remote::{ConfigOrigin, EditField, RemoteConfiguration};
use galion::ui::{
    constraint_len_calculator, KeyCode, KeyEvent, SaveReason, TuiApp, TuiEffect, TuiMode,
};

fn remote(name: &str, src: Option<&str>, dest: Option<&str>, origin: ConfigOrigin) -> RemoteConfiguration {
    RemoteConfiguration {
        remote_name: name.to_string(),
        remote_src: src.map(String::from),
        remote_dest: dest.map(String::from),
        config_origin: origin,
    }
}

fn backup() -> RemoteConfiguration {
    remote("backup", Some("/data"), Some("remote:bucket"), ConfigOrigin::GalionConfig)
}

fn drive() -> RemoteConfiguration {
    remote("drive", None, Some("drive:"), ConfigOrigin::RcloneConfig)
}

fn session(remotes: Vec<RemoteConfiguration>) -> TuiApp {
    TuiApp::new(GalionConfig { remote_configurations: remotes, config_path: "/tmp/galion.json".to_string() })
}

fn key(code: KeyCode) -> KeyEvent {
    KeyEvent { code, control: false }
}

fn press(app: &mut TuiApp, code: KeyCode) -> TuiEffect {
    app.handle_key_event(key(code))
}

fn error_of(app: &TuiApp) -> String {
    match app.mode() {
        TuiMode::Error(message) => message.clone(),
        other => panic!("no error shown: {:?}", other),
    }
}

#[test]
fn a_session_starts_in_normal_mode_on_the_first_row() {
    let app = session(vec![backup(), drive()]);
    assert_eq!(app.mode(), &TuiMode::Normal);
    assert_eq!(app.selected(), Some(0));
    assert!(!app.should_exit());
    assert!(app.jobs().is_empty());
    assert_eq!(app.config().remotes().len(), 2);
    assert_eq!(app.longest_item_lens(), (20, 5, 13));
}

#[test]
fn trigger_sends_a_submit_command_with_the_placeholder_id() {
    let mut app = session(vec![backup()]);
    let effect = press(&mut app, KeyCode::Right);
    assert_eq!(
        effect,
        TuiEffect::Send(SyncJob::Sync(SyncJobData {
            job_id: 0,
            name: "backup".to_string(),
            src: "/data".to_string(),
            dest: "remote:bucket".to_string(),
        }))
    );
    assert_eq!(app.mode(), &TuiMode::Normal);
}

#[test]
fn trigger_without_destination_shows_an_error_and_sends_nothing() {
    let mut app = session(vec![remote("backup", Some("/data"), None, ConfigOrigin::GalionConfig)]);
    let effect = press(&mut app, KeyCode::Right);
    assert_eq!(effect, TuiEffect::Nothing);
    assert_eq!(error_of(&app), "Remote doesn't have a destination - press e for edit");
}

#[test]
fn trigger_without_source_or_selection_shows_an_error() {
    let mut app = session(vec![drive()]);
    assert_eq!(press(&mut app, KeyCode::Right), TuiEffect::Nothing);
    assert_eq!(error_of(&app), "Remote doesn't have a source - press e for edit");

    let mut app = session(vec![]);
    assert_eq!(press(&mut app, KeyCode::Right), TuiEffect::Nothing);
    assert_eq!(error_of(&app), "No remote configuration at index 0 in remotes");
}

#[test]
fn delete_request_on_a_discovered_entry_is_refused_and_keeps_the_store() {
    let mut app = session(vec![drive(), backup()]);
    let before = app.config().clone();
    assert_eq!(press(&mut app, KeyCode::Char('r')), TuiEffect::Nothing);
    assert_eq!(error_of(&app), "Cannot delete a remote from the rclone config");
    assert_eq!(app.config(), &before);
    assert_eq!(app.config().remotes().len(), 2);
}

#[test]
fn a_refused_action_is_refused_again_after_dismissal() {
    for code in [KeyCode::Char('r'), KeyCode::Delete, KeyCode::Backspace, KeyCode::Char('d'), KeyCode::Right] {
        let mut app = session(vec![drive(), backup()]);
        let before = app.config().clone();
        assert_eq!(press(&mut app, code), TuiEffect::Nothing);
        let first = error_of(&app);
        assert_eq!(press(&mut app, KeyCode::Char('x')), TuiEffect::Nothing);
        assert_eq!(error_of(&app), first);
        assert_eq!(press(&mut app, KeyCode::Esc), TuiEffect::Nothing);
        assert_eq!(app.mode(), &TuiMode::Normal);
        assert_eq!(press(&mut app, code), TuiEffect::Nothing);
        assert_eq!(error_of(&app), first);
        assert_eq!(app.config(), &before);
    }
}

#[test]
fn deletion_needs_confirmation() {
    let mut app = session(vec![backup(), drive()]);
    assert_eq!(press(&mut app, KeyCode::Delete), TuiEffect::Nothing);
    assert_eq!(app.mode(), &TuiMode::Delete);
    assert_eq!(press(&mut app, KeyCode::Char('n')), TuiEffect::Nothing);
    assert_eq!(app.mode(), &TuiMode::Normal);
    assert_eq!(app.config().remotes().len(), 2);

    press(&mut app, KeyCode::Char('r'));
    assert_eq!(press(&mut app, KeyCode::Char('y')), TuiEffect::Save(SaveReason::Deletion));
    assert_eq!(app.config().remotes(), &[drive()]);
    assert_eq!(app.mode(), &TuiMode::Delete);
    app.save_finished(SaveReason::Deletion, Ok(()));
    assert_eq!(app.mode(), &TuiMode::Normal);
}

#[test]
fn a_failed_write_is_shown() {
    let mut app = session(vec![backup()]);
    press(&mut app, KeyCode::Char('r'));
    press(&mut app, KeyCode::Enter);
    app.save_finished(SaveReason::Deletion, Err(GalionError::caused_by("disk full")));
    assert_eq!(
        error_of(&app),
        "Failed to save the config after remote deletion disk full - caused by: disk full"
    );
    press(&mut app, KeyCode::Char('q'));
    assert_eq!(app.mode(), &TuiMode::Normal);
    assert!(!app.should_exit());
    app.save_finished(SaveReason::Edit, Err(GalionError::new("denied")));
    assert_eq!(error_of(&app), "Error save the config denied");
}

#[test]
fn duplicate_puts_a_copy_at_the_head() {
    let mut app = session(vec![drive(), backup()]);
    press(&mut app, KeyCode::Down);
    assert_eq!(app.selected(), Some(1));
    assert_eq!(press(&mut app, KeyCode::Char('d')), TuiEffect::Nothing);
    assert_eq!(app.config().remotes(), &[backup(), drive(), backup()]);
    assert_eq!(app.mode(), &TuiMode::Normal);
    press(&mut app, KeyCode::Char('d'));
    assert_eq!(error_of(&app), "Cannot duplicate a rclone config - try to edit it");
}

#[test]
fn selection_is_clamped_to_the_list() {
    let mut app = session(vec![backup(), drive(), backup()]);
    press(&mut app, KeyCode::Up);
    assert_eq!(app.selected(), Some(0));
    press(&mut app, KeyCode::Char('j'));
    press(&mut app, KeyCode::Down);
    assert_eq!(app.selected(), Some(2));
    press(&mut app, KeyCode::Down);
    assert_eq!(app.selected(), Some(2));
    press(&mut app, KeyCode::Char('k'));
    assert_eq!(app.selected(), Some(1));
    let mut empty = session(vec![]);
    press(&mut empty, KeyCode::Down);
    assert_eq!(empty.selected(), Some(0));
}

#[test]
fn editing_a_user_defined_entry_replaces_it() {
    let mut app = session(vec![backup(), drive()]);
    assert_eq!(press(&mut app, KeyCode::Char('e')), TuiEffect::Nothing);
    press(&mut app, KeyCode::Tab);
    press(&mut app, KeyCode::Char('é'));
    press(&mut app, KeyCode::Down);
    press(&mut app, KeyCode::Down);
    press(&mut app, KeyCode::Backspace);
    press(&mut app, KeyCode::Left);
    press(&mut app, KeyCode::Char('X'));
    match app.mode() {
        TuiMode::EditString(buffer) => {
            assert_eq!(buffer.active_field, EditField::Destination);
            assert_eq!(buffer.remote_src, "/dataé");
            assert_eq!(buffer.remote_dest, "remote:buckXe");
            assert_eq!(buffer.character_index, 12);
        },
        other => panic!("not editing: {:?}", other),
    }
    assert_eq!(press(&mut app, KeyCode::Enter), TuiEffect::Save(SaveReason::Edit));
    let edited = remote("backup", Some("/dataé"), Some("remote:buckXe"), ConfigOrigin::GalionConfig);
    assert_eq!(app.config().remotes(), &[edited, drive()]);
    app.save_finished(SaveReason::Edit, Ok(()));
    assert_eq!(app.mode(), &TuiMode::Normal);
}

#[test]
fn editing_a_discovered_entry_adds_a_user_defined_one_at_the_head() {
    let mut app = session(vec![backup(), drive()]);
    press(&mut app, KeyCode::Down);
    press(&mut app, KeyCode::Char('e'));
    press(&mut app, KeyCode::Right);
    press(&mut app, KeyCode::Char('2'));
    assert_eq!(press(&mut app, KeyCode::Enter), TuiEffect::Save(SaveReason::Edit));
    let added = remote("d2rive", Some(""), Some("drive:"), ConfigOrigin::GalionConfig);
    assert_eq!(app.config().remotes(), &[added, backup(), drive()]);
}

#[test]
fn an_edit_can_be_cancelled_and_committed_unchanged() {
    let mut app = session(vec![backup()]);
    press(&mut app, KeyCode::Char('e'));
    press(&mut app, KeyCode::Char('z'));
    assert_eq!(press(&mut app, KeyCode::Esc), TuiEffect::Nothing);
    assert_eq!(app.mode(), &TuiMode::Normal);
    assert_eq!(app.config().remotes(), &[backup()]);
    press(&mut app, KeyCode::Char('e'));
    press(&mut app, KeyCode::Up);
    assert_eq!(press(&mut app, KeyCode::Enter), TuiEffect::Save(SaveReason::Edit));
    assert_eq!(app.config().remotes(), &[backup()]);
    let mut empty = session(vec![]);
    press(&mut empty, KeyCode::Char('e'));
    assert_eq!(error_of(&empty), "Cannot edit");
}

#[test]
fn quitting_tells_the_worker_to_stop() {
    for event in [key(KeyCode::Char('q')), key(KeyCode::Esc), KeyEvent { code: KeyCode::Char('c'), control: true }] {
        let mut app = session(vec![backup()]);
        assert_eq!(app.handle_key_event(event), TuiEffect::Send(SyncJob::Exit));
        assert!(app.should_exit());
    }
    let mut app = session(vec![backup()]);
    press(&mut app, KeyCode::Char('e'));
    let interrupt = KeyEvent { code: KeyCode::Char('c'), control: true };
    assert_eq!(app.handle_key_event(interrupt), TuiEffect::Send(SyncJob::Exit));
    assert!(app.should_exit());
    let mut app = session(vec![backup()]);
    assert_eq!(press(&mut app, KeyCode::Char('c')), TuiEffect::Nothing);
    assert_eq!(press(&mut app, KeyCode::Other), TuiEffect::Nothing);
    assert!(!app.should_exit());
}

#[test]
fn messages_of_the_worker_replace_the_jobs_or_end_the_session() {
    let mut app = session(vec![backup()]);
    let mut jobs = JobsList::new();
    jobs.insert(
        SyncJobData { job_id: 7, name: "backup".to_string(), src: "/data".to_string(), dest: "remote:bucket".to_string() },
        JobState::Sent,
    );
    app.receive(ResultJob::Sync(jobs.clone()));
    assert_eq!(app.jobs(), &jobs);
    assert!(!app.should_exit());
    app.receive(ResultJob::Exit);
    assert!(app.should_exit());
    assert_eq!(app.into_config().remote_configurations, vec![backup()]);
}

#[test]
fn column_widths_are_the_longest_cells_in_bytes() {
    assert_eq!(constraint_len_calculator(&[]), (0, 0, 0));
    assert_eq!(constraint_len_calculator(&[backup(), drive()]), (20, 5, 13));
    let wide = remote("é", Some(&"x".repeat(70000)), Some("€"), ConfigOrigin::GalionConfig);
    assert_eq!(constraint_len_calculator(&[wide]), (16, 0, 3));
}
