use app_ui::browser::{DestructiveActionConfirmation, FileBrowser};
use app_ui::paths::FsPath;
use app_ui::transfer::{DeviceInfo, IncomingTransferConfirmation, TransferRuntime, TransferServiceAction, TransferSession};
use app_ui::panes::BrowserPaneId;
use app_ui::windows::{
    AppWindows, DismissEffect, PointerButton, PointerEventStatus, PointerPressContext, PointerPressStep,
    SettingsCategory, WindowEffect, WindowKind,
};

fn path(text: &str) -> FsPath {
    FsPath::new(
        text.starts_with('/'),
        text.split('/')
            .filter(|part| !part.is_empty())
            .map(str::to_owned)
            .collect(),
    )
}

fn browser() -> FileBrowser {
    let mut browser = FileBrowser::new(path("/workspace"), path("/trash"));
    browser.windows = AppWindows::new(1);
    browser
}

#[test]
fn dismissal_closes_the_topmost_layer_first() {
    let mut browser = browser();
    browser.destructive_action_confirmation = Some(DestructiveActionConfirmation::EmptyTrash);
    browser.layers.convert = true;
    browser.renaming = Some(path("/workspace/a.txt"));

    assert_eq!(browser.dismiss_floating(), DismissEffect::Nothing);
    assert_eq!(browser.destructive_action_confirmation, None);
    assert!(browser.layers.convert);

    assert_eq!(browser.dismiss_floating(), DismissEffect::Nothing);
    assert!(!browser.layers.convert);
    assert!(browser.renaming.is_some());

    assert_eq!(
        browser.dismiss_floating(),
        DismissEffect::InteractionsDropped { commit_rename: Some(path("/workspace/a.txt")), escape_expansion: false }
    );
    assert_eq!(browser.renaming, None);

    // With nothing open at all, the icon view's expansion is left.
    assert_eq!(
        browser.dismiss_floating(),
        DismissEffect::InteractionsDropped { commit_rename: None, escape_expansion: true }
    );
}

#[test]
fn dismissing_an_incoming_transfer_rejects_it() {
    let mut browser = browser();
    browser.transfer_runtime = Some(TransferRuntime { devices: vec![], generation: 0 });
    browser.incoming_transfer = Some(IncomingTransferConfirmation {
        device: DeviceInfo { fingerprint: "ff".to_owned(), alias: "Phone".to_owned() },
        session_id: "s9".to_owned(),
        files: vec![],
        remember_device: false,
    });
    assert_eq!(
        browser.dismiss_floating(),
        DismissEffect::RejectIncoming(TransferServiceAction::RejectSession { session_id: "s9".to_owned() })
    );
    assert!(browser.incoming_transfer.is_none());
}

#[test]
fn a_running_checksum_is_cancelled_by_dismissal() {
    let mut browser = browser();
    browser.layers.checksum = true;
    browser.layers.open_with = true;
    assert_eq!(browser.dismiss_floating(), DismissEffect::CancelChecksum);
    assert!(browser.layers.open_with);
}

#[test]
fn windows_open_focus_and_close() {
    let mut browser = browser();
    assert_eq!(browser.ensure_window(WindowKind::Settings), WindowEffect::OpenWindow(WindowKind::Settings));
    browser.window_opened(WindowKind::Settings, 7);
    assert_eq!(browser.windows.focused, 7);
    assert_eq!(browser.window_title(7), "Settings - Bennu");
    assert_eq!(browser.window_title(1), "Bennu");

    browser.handle_window_focused(1);
    assert_eq!(browser.ensure_window(WindowKind::Settings), WindowEffect::GainFocus(7));
    assert_eq!(browser.windows.focused, 7);

    browser.windows.maximized = vec![7, 1];
    assert_eq!(browser.close_settings_window(), Some(WindowEffect::CloseWindow(7)));
    assert_eq!(browser.windows.settings, None);
    assert_eq!(browser.windows.focused, 1);
    assert_eq!(browser.windows.maximized, vec![1]);
}

#[test]
fn escape_in_the_settings_window_steps_back() {
    let mut browser = browser();
    browser.window_opened(WindowKind::Settings, 7);
    browser.windows.search_restart_confirmation = true;
    browser.windows.settings_subpage_open = true;

    assert!(browser.handle_focused_window_escape_pressed().is_empty());
    assert_eq!(browser.handle_focused_window_escape_pressed(), vec![WindowEffect::ResetSettingsScroll]);
    assert_eq!(browser.handle_focused_window_escape_pressed(), vec![WindowEffect::CloseWindow(7)]);
    // Back in the main window, Escape dismisses.
    assert_eq!(
        browser.handle_focused_window_escape_pressed(),
        vec![WindowEffect::Dismissed(DismissEffect::InteractionsDropped { commit_rename: None, escape_expansion: true })]
    );
}

#[test]
fn closing_the_transfer_window_ends_its_session() {
    let mut browser = browser();
    browser.window_opened(WindowKind::Transfer, 9);
    browser.transfer_session = Some(TransferSession::new());
    assert_eq!(
        browser.close_auxiliary_window(9, true),
        vec![WindowEffect::CancelQrSession, WindowEffect::CloseWindow(9)]
    );
    assert!(browser.transfer_session.is_none());
    assert_eq!(browser.close_auxiliary_window(1, true), vec![WindowEffect::BeginShutdown]);
    assert!(browser.close_auxiliary_window(1, false).is_empty());
}

#[test]
fn losing_the_focus_forgets_it_and_hides_the_history_popup() {
    let mut browser = browser();
    browser.layers.search_history_popup = true;
    assert_eq!(browser.handle_window_unfocused(1, false), None);
    assert_eq!(browser.windows.system_focused, None);
    assert!(!browser.layers.search_history_popup);
    assert_eq!(browser.handle_window_unfocused(3, true), Some(WindowEffect::ClosePreview));
    assert_eq!(browser.handle_window_focused(1), Some(WindowEffect::CheckSearchInputFocus));
    assert_eq!(browser.windows.system_focused, Some(1));
}

#[test]
fn opening_the_settings_closes_main_window_interactions() {
    let mut browser = browser();
    browser.renaming = Some(path("/workspace/a.txt"));
    browser.layers.open_with = true;
    browser.windows.settings_category = SettingsCategory::Logs;
    assert_eq!(
        browser.open_settings(),
        vec![
            WindowEffect::CommitRename(path("/workspace/a.txt")),
            WindowEffect::OpenWindow(WindowKind::Settings),
            WindowEffect::RefreshLogs,
        ]
    );
    assert!(!browser.layers.open_with);
    assert_eq!(browser.renaming, None);
}

#[test]
fn picking_a_settings_page_starts_it_from_the_top() {
    let mut browser = browser();
    browser.windows.settings_subpage_open = true;
    assert_eq!(
        browser.select_settings_category(SettingsCategory::Search),
        vec![
            WindowEffect::InvalidateStartupDirectoryValidation,
            WindowEffect::ResetSettingsScroll,
            WindowEffect::RefreshSearchService,
        ]
    );
    assert!(!browser.windows.settings_subpage_open);
    assert_eq!(browser.select_settings_category(SettingsCategory::General), vec![WindowEffect::ResetSettingsScroll]);
}

#[test]
fn settings_sub_pages_open_and_close_from_the_top() {
    let mut browser = browser();
    assert_eq!(browser.select_settings_subpage(), vec![WindowEffect::ResetSettingsScroll]);
    assert!(browser.windows.settings_subpage_open);
    assert_eq!(browser.close_settings_subpage(), vec![WindowEffect::ResetSettingsScroll]);
    assert!(!browser.windows.settings_subpage_open);
}

fn no_outside_state() -> PointerPressContext {
    PointerPressContext { address_editing: None, over_search_history: false, preview_pinned: false }
}

#[test]
fn presses_on_other_windows_are_left_to_them() {
    let mut browser = browser();
    browser.windows.settings = Some(2);
    browser.global_error = Some("boom".to_owned());
    assert_eq!(browser.handle_window_pointer_pressed(2, PointerButton::Left), PointerPressStep::Done);
    assert_eq!(browser.handle_window_pointer_pressed(9, PointerButton::Left), PointerPressStep::Done);
    assert_eq!(browser.global_error, Some("boom".to_owned()));
}

#[test]
fn a_left_press_on_the_main_window_clears_the_error_and_may_drag_panes() {
    let mut browser = browser();
    browser.global_error = Some("boom".to_owned());
    assert_eq!(browser.handle_window_pointer_pressed(1, PointerButton::Right), PointerPressStep::Finish);
    assert_eq!(browser.global_error, Some("boom".to_owned()));
    assert_eq!(browser.handle_window_pointer_pressed(1, PointerButton::Left), PointerPressStep::TryPaneDrag);
    assert_eq!(browser.global_error, None);

    browser.windows.preview = Some(4);
    browser.windows.focused = 4;
    assert_eq!(browser.handle_window_pointer_pressed(1, PointerButton::Middle), PointerPressStep::Done);
}

#[test]
fn a_free_left_press_dismisses_and_closes_an_unpinned_preview() {
    let mut browser = browser();
    browser.windows.preview = Some(4);
    browser.destructive_action_confirmation = Some(DestructiveActionConfirmation::EmptyTrash);
    let effects = browser.finish_window_pointer_press(PointerButton::Left, PointerEventStatus::Ignored, no_outside_state());
    assert_eq!(
        effects,
        vec![
            WindowEffect::ReleaseTerminalFocus,
            WindowEffect::ClosePreview,
            WindowEffect::Dismissed(DismissEffect::Nothing),
            WindowEffect::CheckSearchInputFocus,
        ]
    );
    assert_eq!(browser.destructive_action_confirmation, None);

    let pinned = PointerPressContext { preview_pinned: true, ..no_outside_state() };
    assert_eq!(
        browser.finish_window_pointer_press(PointerButton::Right, PointerEventStatus::Ignored, pinned),
        vec![WindowEffect::ReleaseTerminalFocus, WindowEffect::CheckSearchInputFocus]
    );
}

#[test]
fn a_captured_press_checks_every_field_that_may_hold_the_keyboard() {
    let mut browser = browser();
    browser.renaming = Some(path("/workspace/a.txt"));
    let pane_id = BrowserPaneId { id: 3 };
    let context = PointerPressContext { address_editing: Some(pane_id), ..no_outside_state() };
    assert_eq!(
        browser.finish_window_pointer_press(PointerButton::Middle, PointerEventStatus::Captured, context),
        vec![
            WindowEffect::ReleaseTerminalFocus,
            WindowEffect::CheckRenameInputFocus,
            WindowEffect::CheckAddressInputFocus(pane_id),
            WindowEffect::CheckSearchInputFocus,
        ]
    );
    // A captured press keeps the rename going.
    assert_eq!(browser.renaming, Some(path("/workspace/a.txt")));

    let over_history = PointerPressContext { over_search_history: true, ..no_outside_state() };
    assert_eq!(
        browser.finish_window_pointer_press(PointerButton::Left, PointerEventStatus::Captured, over_history),
        vec![WindowEffect::ReleaseTerminalFocus, WindowEffect::CheckRenameInputFocus]
    );
    assert_eq!(
        browser.finish_window_pointer_press(PointerButton::Other, PointerEventStatus::Ignored, no_outside_state()),
        vec![WindowEffect::ReleaseTerminalFocus]
    );
}
