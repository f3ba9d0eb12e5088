use app_ui::archive_member_password::{
    ArchiveMemberOpenOutcome, ArchiveMemberPasswordAction, ArchiveMemberPasswordMessage,
    ArchiveMemberPasswordState, ArchivePasswordDraft,
};
use app_ui::browser::FileBrowser;
use app_ui::operations::{ArchivePassword, QueuedFileOperation};
use app_ui::paths::FsPath;

fn path(text: &str) -> FsPath {
    FsPath::new(
        text.starts_with('/'),
        text.split('/')
            .filter(|part| !part.is_empty())
            .map(str::to_owned)
            .collect(),
    )
}

fn new_browser() -> FileBrowser {
    FileBrowser::new(path("/home/user"), path("/trash"))
}

fn extract_action() -> ArchiveMemberPasswordAction {
    ArchiveMemberPasswordAction::Extract {
        sources: vec![path("/tmp/docs.rar/photo.png")],
        destination: path("/tmp/landing"),
    }
}

fn open_action() -> ArchiveMemberPasswordAction {
    ArchiveMemberPasswordAction::Open {
        path: path("/tmp/docs.rar/photo.png"),
    }
}

fn request_password(browser: &mut FileBrowser, action: ArchiveMemberPasswordAction, invalid: bool) {
    browser.request_archive_member_password(action, invalid);
}

fn type_password(browser: &mut FileBrowser, password: &str) {
    let effect = browser.handle_archive_member_password_message(
        ArchiveMemberPasswordMessage::PasswordChanged(ArchivePasswordDraft::new(
            password.to_owned(),
        )),
    );
    assert!(effect.is_none());
}

fn submit(browser: &mut FileBrowser) -> Option<app_ui::archive_member_password::ArchiveMemberOpenRequest> {
    browser.handle_archive_member_password_message(ArchiveMemberPasswordMessage::Submitted)
}

fn open_finished(browser: &mut FileBrowser, outcome: ArchiveMemberOpenOutcome) {
    let effect = browser.handle_archive_member_password_message(
        ArchiveMemberPasswordMessage::OpenFinished {
            path: path("/tmp/docs.rar/photo.png"),
            outcome,
        },
    );
    assert!(effect.is_none());
}

#[test]
fn requested_dialog_waits_for_password_without_error() {
    let mut browser = new_browser();
    request_password(&mut browser, extract_action(), false);

    let state = browser.archive_member_password.as_ref().unwrap();
    assert_eq!(state.action(), &extract_action());
    assert!(state.can_submit_password());
    assert_eq!(state.validation_error(), None);
}

#[test]
fn invalid_retry_request_shows_incorrect_password_hint() {
    let mut browser = new_browser();
    request_password(&mut browser, extract_action(), true);

    let state = browser.archive_member_password.as_ref().unwrap();
    assert_eq!(
        state.validation_error(),
        Some("Incorrect password. Try again.")
    );
}

#[test]
fn submit_without_password_keeps_dialog_with_validation_error() {
    let mut browser = new_browser();
    request_password(&mut browser, extract_action(), false);
    assert!(submit(&mut browser).is_none());

    let state = browser.archive_member_password.as_ref().unwrap();
    assert_eq!(
        state.validation_error(),
        Some("Enter the archive password.")
    );
}

#[test]
fn extract_submit_enqueues_members_with_password_and_closes_dialog() {
    let mut browser = new_browser();
    request_password(&mut browser, extract_action(), false);
    type_password(&mut browser, "secret");
    assert!(submit(&mut browser).is_none());

    assert!(browser.archive_member_password.is_none());
    assert_eq!(browser.operation_queue.tasks().len(), 1);
    let queued = &browser.operation_queue.tasks()[0];
    let queued_password = match queued {
        QueuedFileOperation::ExtractArchiveMembers {
            sources,
            destination,
            password,
        } => {
            assert_eq!(sources, &vec![path("/tmp/docs.rar/photo.png")]);
            assert_eq!(destination, &path("/tmp/landing"));
            password.clone()
        }
        other => panic!("unexpected queued operation: {other:?}"),
    };
    assert_eq!(queued_password, ArchivePassword::new("secret".to_owned()));
}

#[test]
fn open_submit_starts_retry_and_invalid_result_reprompts() {
    let mut browser = new_browser();
    request_password(&mut browser, open_action(), false);
    type_password(&mut browser, "guess");
    let request = submit(&mut browser).expect("open retry requested");
    assert_eq!(request.path, path("/tmp/docs.rar/photo.png"));
    assert_eq!(request.password.as_str(), "guess");

    let state = browser.archive_member_password.as_ref().unwrap();
    assert!(!state.can_submit_password());

    open_finished(&mut browser, ArchiveMemberOpenOutcome::InvalidPassword);

    let state = browser.archive_member_password.as_ref().unwrap();
    assert!(state.can_submit_password());
    assert_eq!(
        state.validation_error(),
        Some("Incorrect password. Try again.")
    );
}

#[test]
fn open_retry_success_closes_dialog() {
    let mut browser = new_browser();
    request_password(&mut browser, open_action(), false);
    type_password(&mut browser, "secret");
    assert!(submit(&mut browser).is_some());
    open_finished(&mut browser, ArchiveMemberOpenOutcome::Opened);

    assert!(browser.archive_member_password.is_none());
}

#[test]
fn cancelled_dialog_ignores_late_invalid_password_result() {
    let mut browser = new_browser();
    request_password(&mut browser, open_action(), false);
    type_password(&mut browser, "guess");
    assert!(submit(&mut browser).is_some());
    browser.archive_member_password = None;

    open_finished(&mut browser, ArchiveMemberOpenOutcome::InvalidPassword);

    assert!(browser.archive_member_password.is_none());
}

#[test]
fn cancelled_dialog_ignores_late_failed_result() {
    let mut browser = new_browser();
    request_password(&mut browser, open_action(), false);
    type_password(&mut browser, "guess");
    assert!(submit(&mut browser).is_some());
    browser.archive_member_password = None;

    open_finished(
        &mut browser,
        ArchiveMemberOpenOutcome::Failed("member vanished".to_owned()),
    );

    assert!(browser.archive_member_password.is_none());
    assert!(browser.global_error.is_none());
}

#[test]
fn switched_dialog_ignores_open_result_for_other_action() {
    let mut browser = new_browser();
    request_password(&mut browser, open_action(), false);
    type_password(&mut browser, "guess");
    assert!(submit(&mut browser).is_some());

    request_password(&mut browser, extract_action(), true);
    type_password(&mut browser, "typed");

    open_finished(&mut browser, ArchiveMemberOpenOutcome::InvalidPassword);

    let state = browser.archive_member_password.as_ref().unwrap();
    assert_eq!(state.action(), &extract_action());
    assert!(state.can_submit_password());
    assert_eq!(state.password().as_str(), "typed");
}

#[test]
fn extract_dialog_reopens_fresh_after_queue_failure() {
    let mut browser = new_browser();
    request_password(&mut browser, extract_action(), false);
    type_password(&mut browser, "guess");
    assert!(submit(&mut browser).is_none());
    assert!(browser.archive_member_password.is_none());

    request_password(&mut browser, extract_action(), true);

    let state = browser.archive_member_password.as_ref().unwrap();
    assert!(state.can_submit_password());
    assert_eq!(
        state.validation_error(),
        Some("Incorrect password. Try again.")
    );
}

#[test]
fn member_password_dialog_is_cleared_with_archive_extraction_state() {
    let mut browser = new_browser();
    request_password(&mut browser, extract_action(), false);
    assert!(browser.archive_member_password.is_some());

    browser.clear_state_for_archive_extraction();

    assert!(browser.archive_member_password.is_none());
}

#[test]
fn failed_open_retry_closes_dialog_and_shows_error() {
    let mut browser = new_browser();
    request_password(&mut browser, open_action(), false);
    type_password(&mut browser, "secret");
    assert!(submit(&mut browser).is_some());
    open_finished(
        &mut browser,
        ArchiveMemberOpenOutcome::Failed("member vanished".to_owned()),
    );

    assert!(browser.archive_member_password.is_none());
    assert_eq!(browser.global_error.as_deref(), Some("member vanished"));
}

#[test]
fn edits_and_submits_are_ignored_while_an_open_retry_runs() {
    let mut browser = new_browser();
    request_password(&mut browser, open_action(), false);
    type_password(&mut browser, "first");
    assert!(submit(&mut browser).is_some());
    type_password(&mut browser, "second");
    assert!(submit(&mut browser).is_none());

    let state = browser.archive_member_password.as_ref().unwrap();
    assert_eq!(state.password().as_str(), "first");
    assert!(browser.operation_queue.tasks().is_empty());
}

#[test]
fn empty_password_is_not_a_password() {
    assert!(ArchivePassword::new(String::new()).is_none());
    let state = ArchiveMemberPasswordState::requested(open_action(), false);
    assert!(state.password().to_archive_password().is_none());
}
