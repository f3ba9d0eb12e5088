use app_ui::advanced_new_folder::{
    AdvancedNewFolderAfter, AdvancedNewFolderEffect, AdvancedNewFolderMessage, AdvancedNewFolderMode,
    AdvancedNewFolderState,
};
use app_ui::browser::FileBrowser;
use app_ui::operations::QueuedFileOperation;
use app_ui::paths::FsPath;
use app_ui::transfer::{
    default_transfer_device_alias, qr_item_names, stored_trusted_transfer_devices, trim,
    trusted_fingerprint_set, trusted_transfer_devices_from_stored, DeviceInfo,
    StoredTrustedTransferDevice,
    DirectSendState, QrEvent, SendProgress, ServiceEvent, TransferEffect, TransferEnvironment,
    TransferMessage, TransferRuntime, TransferServiceAction, TransferSession, TransferSessionPhase,
    TrustedTransferDevice,
};

fn path(text: &str) -> FsPath {
    FsPath::new(
        text.starts_with('/'),
        text.split('/')
            .filter(|part| !part.is_empty())
            .map(str::to_owned)
            .collect(),
    )
}

fn browser_with_dialog() -> FileBrowser {
    let mut browser = FileBrowser::new(path("/workspace"), path("/trash"));
    browser.advanced_new_folder = Some(AdvancedNewFolderState::new(
        path("/workspace"),
        vec!["taken".to_owned()],
        vec![path("/workspace/report.txt")],
    ));
    browser
}

fn dialog(browser: &FileBrowser) -> &AdvancedNewFolderState {
    browser.advanced_new_folder.as_ref().unwrap()
}

#[test]
fn hovering_the_split_button_opens_the_menu_and_leaving_closes_it_after_the_grace_tick() {
    let mut browser = browser_with_dialog();

    let effect = browser.handle_advanced_new_folder_message(AdvancedNewFolderMessage::SplitButtonHoverChanged(true));
    assert_eq!(effect, AdvancedNewFolderEffect::Nothing);
    assert!(dialog(&browser).after_menu_open);
    assert!(dialog(&browser).split_button_hover);
    assert_eq!(dialog(&browser).menu_generation, 1);

    let effect = browser.handle_advanced_new_folder_message(AdvancedNewFolderMessage::SplitButtonHoverChanged(false));
    assert_eq!(effect, AdvancedNewFolderEffect::CloseMenuAfterGrace(2));
    assert!(dialog(&browser).after_menu_open);

    browser.handle_advanced_new_folder_message(AdvancedNewFolderMessage::MenuCloseTick(2));
    assert!(!dialog(&browser).after_menu_open);
}

#[test]
fn reentering_the_menu_voids_a_pending_close() {
    let mut browser = browser_with_dialog();
    browser.handle_advanced_new_folder_message(AdvancedNewFolderMessage::MenuHoverChanged(true));
    let effect = browser.handle_advanced_new_folder_message(AdvancedNewFolderMessage::MenuHoverChanged(false));
    assert_eq!(effect, AdvancedNewFolderEffect::CloseMenuAfterGrace(2));
    browser.handle_advanced_new_folder_message(AdvancedNewFolderMessage::MenuHoverChanged(true));

    browser.handle_advanced_new_folder_message(AdvancedNewFolderMessage::MenuCloseTick(2));
    assert!(dialog(&browser).after_menu_open);
}

#[test]
fn leaving_a_closed_menu_schedules_nothing() {
    let mut browser = browser_with_dialog();
    let effect = browser.handle_advanced_new_folder_message(AdvancedNewFolderMessage::MenuHoverChanged(false));
    assert_eq!(effect, AdvancedNewFolderEffect::Nothing);
    assert_eq!(dialog(&browser).menu_generation, 0);
}

#[test]
fn explicit_menu_toggle_opens_and_closes_at_once() {
    let mut browser = browser_with_dialog();
    browser.handle_advanced_new_folder_message(AdvancedNewFolderMessage::AfterMenuOpenChanged(true));
    assert!(dialog(&browser).after_menu_open);
    browser.handle_advanced_new_folder_message(AdvancedNewFolderMessage::AfterMenuOpenChanged(false));
    assert!(!dialog(&browser).after_menu_open);
    assert_eq!(dialog(&browser).menu_generation, 2);
}

#[test]
fn edits_update_the_draft_and_nested_snapshots_replace_earlier_ones() {
    let mut browser = browser_with_dialog();
    browser.handle_advanced_new_folder_message(AdvancedNewFolderMessage::ModeSelected(AdvancedNewFolderMode::NumberedSeries));
    browser.handle_advanced_new_folder_message(AdvancedNewFolderMessage::PrefixChanged("Day ".to_owned()));
    browser.handle_advanced_new_folder_message(AdvancedNewFolderMessage::StartNumberChanged("3".to_owned()));
    browser.handle_advanced_new_folder_message(AdvancedNewFolderMessage::CountChanged("5".to_owned()));
    browser.handle_advanced_new_folder_message(AdvancedNewFolderMessage::GatherToggled(true));
    browser.handle_advanced_new_folder_message(AdvancedNewFolderMessage::DraftEdited("a\nb".to_owned()));
    browser.handle_advanced_new_folder_message(AdvancedNewFolderMessage::NestedNamesProbed {
        prefix: "a".to_owned(),
        names: vec!["x".to_owned()],
    });
    browser.handle_advanced_new_folder_message(AdvancedNewFolderMessage::NestedNamesProbed {
        prefix: "a".to_owned(),
        names: vec!["y".to_owned(), "z".to_owned()],
    });

    let state = dialog(&browser);
    assert_eq!(state.mode, AdvancedNewFolderMode::NumberedSeries);
    assert_eq!(state.prefix, "Day ");
    assert_eq!(state.start_number, "3");
    assert_eq!(state.count, "5");
    assert!(state.gather);
    assert_eq!(state.draft, "a\nb");
    assert_eq!(state.taken_deep.len(), 1);
    assert_eq!(state.taken_deep[0].names, vec!["y".to_owned(), "z".to_owned()]);
}

#[test]
fn messages_without_an_open_dialog_change_nothing() {
    let mut browser = FileBrowser::new(path("/workspace"), path("/trash"));
    let effect = browser.handle_advanced_new_folder_message(AdvancedNewFolderMessage::MenuHoverChanged(false));
    assert_eq!(effect, AdvancedNewFolderEffect::Nothing);
    browser.handle_advanced_new_folder_message(AdvancedNewFolderMessage::PrefixChanged("x".to_owned()));
    assert!(browser.advanced_new_folder.is_none());
}

#[test]
fn confirming_hands_over_the_dialog_and_queues_its_folders() {
    let mut browser = browser_with_dialog();
    browser.handle_advanced_new_folder_message(AdvancedNewFolderMessage::GatherToggled(true));
    let effect = browser.handle_advanced_new_folder_message(AdvancedNewFolderMessage::ConfirmedWithAfter(
        AdvancedNewFolderAfter { choice: 1 },
    ));
    assert!(browser.advanced_new_folder.is_none());
    assert_eq!(browser.pending_advanced_new_folder_after, Some(AdvancedNewFolderAfter { choice: 1 }));
    let state = match effect {
        AdvancedNewFolderEffect::Confirm(state) => state,
        other => panic!("expected a confirmation, got {other:?}"),
    };

    browser.create_advanced_new_folders(state.clone(), vec![]);
    assert!(browser.operation_queue.tasks().is_empty());

    browser.create_advanced_new_folders(state, vec!["one".to_owned(), "two".to_owned()]);
    assert_eq!(
        browser.operation_queue.tasks(),
        &vec![QueuedFileOperation::CreateDirectories {
            parent: path("/workspace"),
            names: vec!["one".to_owned(), "two".to_owned()],
            gather_sources: vec![path("/workspace/report.txt")],
        }]
    );
}

#[test]
fn cancel_closes_the_dialog() {
    let mut browser = browser_with_dialog();
    assert_eq!(browser.handle_advanced_new_folder_message(AdvancedNewFolderMessage::Cancel), AdvancedNewFolderEffect::Nothing);
    assert!(browser.advanced_new_folder.is_none());
    assert_eq!(
        browser.handle_advanced_new_folder_message(AdvancedNewFolderMessage::Confirmed),
        AdvancedNewFolderEffect::Nothing
    );
}

fn device(fingerprint: &str) -> TrustedTransferDevice {
    TrustedTransferDevice {
        fingerprint: fingerprint.to_owned(),
        alias: "phone".to_owned(),
        added_at: "2024-01-01T00:00:00+00:00".to_owned(),
    }
}

#[test]
fn trusted_fingerprints_skip_empty_and_repeat_entries() {
    let set = trusted_fingerprint_set(&vec![device("aa"), device(""), device("bb"), device("aa")]);
    assert_eq!(set, vec!["aa".to_owned(), "bb".to_owned()]);
}

#[test]
fn trimming_drops_unicode_whitespace_at_both_ends_only() {
    assert_eq!(trim("  my laptop \t\n"), "my laptop");
    assert_eq!(trim("\u{3000}名前\u{a0}"), "名前");
    assert_eq!(trim(" \u{2003} "), "");
    assert_eq!(trim("x"), "x");
}

#[test]
fn device_alias_prefers_the_setting_then_the_host_name() {
    assert_eq!(default_transfer_device_alias(Some("  desk \n")), "desk");
    assert_eq!(default_transfer_device_alias(Some("   ")), "Bennu");
    assert_eq!(default_transfer_device_alias(None), "Bennu");

    let mut browser = FileBrowser::new(path("/workspace"), path("/trash"));
    assert_eq!(browser.effective_transfer_device_alias(Some("desk")), "desk");
    browser.transfer_device_alias = Some("  ".to_owned());
    assert_eq!(browser.effective_transfer_device_alias(Some("desk")), "desk");
    browser.transfer_device_alias = Some(" Studio ".to_owned());
    assert_eq!(browser.effective_transfer_device_alias(Some("desk")), " Studio ");
}

#[test]
fn committing_the_alias_input_trims_it_and_reports_changes() {
    let mut browser = FileBrowser::new(path("/workspace"), path("/trash"));
    browser.transfer_device_alias_input = "  Studio  ".to_owned();
    assert!(browser.commit_transfer_device_alias());
    assert_eq!(browser.transfer_device_alias.as_deref(), Some("Studio"));
    assert!(!browser.commit_transfer_device_alias());

    browser.transfer_device_alias_input = " ".to_owned();
    assert!(browser.commit_transfer_device_alias());
    assert_eq!(browser.transfer_device_alias, None);
}

#[test]
fn removing_a_trusted_device_forgets_every_copy_of_it() {
    let mut browser = FileBrowser::new(path("/workspace"), path("/trash"));
    browser.transfer_trusted_devices = vec![device("aa"), device("bb"), device("aa")];
    browser.remove_trusted_transfer_device("aa");
    assert_eq!(browser.transfer_trusted_devices, vec![device("bb")]);
}

fn sending_browser() -> FileBrowser {
    let mut browser = FileBrowser::new(path("/workspace"), path("/trash"));
    let mut session = TransferSession::new();
    session.direct_send = Some(DirectSendState {
        fingerprint: "aa".to_owned(),
        alias: "phone".to_owned(),
        file_name: String::new(),
        file_index: 0,
        total_files: 0,
        bytes_sent: 0,
        file_size: 0,
        outcome: None,
    });
    browser.transfer_session = Some(session);
    browser
}

fn progress(bytes_sent: u64) -> SendProgress {
    SendProgress { file_name: "a.jpg".to_owned(), file_index: 1, total_files: 2, bytes_sent, file_size: 100 }
}

fn send(browser: &FileBrowser) -> &DirectSendState {
    browser.transfer_session.as_ref().unwrap().direct_send.as_ref().unwrap()
}

#[test]
fn direct_send_progress_and_outcome_apply_to_the_current_device_only() {
    let mut browser = sending_browser();
    browser.accept_direct_send_progress("bb".to_owned(), progress(10));
    assert_eq!(send(&browser).bytes_sent, 0);

    browser.accept_direct_send_progress("aa".to_owned(), progress(40));
    assert_eq!(send(&browser).bytes_sent, 40);
    assert_eq!(send(&browser).file_name, "a.jpg");

    browser.accept_direct_send_finished("bb".to_owned(), Err("refused".to_owned()));
    assert_eq!(send(&browser).outcome, None);
    browser.accept_direct_send_finished("aa".to_owned(), Ok(()));
    assert_eq!(send(&browser).outcome, Some(Ok(())));

    browser.accept_direct_send_progress("aa".to_owned(), progress(90));
    assert_eq!(send(&browser).bytes_sent, 40);
}

fn nearby(fingerprint: &str, alias: &str) -> app_ui::transfer::DeviceInfo {
    app_ui::transfer::DeviceInfo { fingerprint: fingerprint.to_owned(), alias: alias.to_owned() }
}

#[test]
fn service_events_track_nearby_devices_once_each() {
    let mut browser = FileBrowser::new(path("/workspace"), path("/trash"));
    assert_eq!(browser.accept_local_send_service_event(ServiceEvent::DeviceSeen(nearby("aa", "phone"))), None);
    assert!(browser.transfer_runtime.is_none());

    browser.transfer_runtime = Some(TransferRuntime { devices: vec![], generation: 0 });
    browser.accept_local_send_service_event(ServiceEvent::DeviceSeen(nearby("aa", "phone")));
    browser.accept_local_send_service_event(ServiceEvent::DeviceSeen(nearby("bb", "tablet")));
    browser.accept_local_send_service_event(ServiceEvent::DeviceSeen(nearby("aa", "renamed phone")));
    assert_eq!(
        browser.transfer_runtime.as_ref().unwrap().devices,
        vec![nearby("aa", "renamed phone"), nearby("bb", "tablet")]
    );
    browser.accept_local_send_service_event(ServiceEvent::DeviceLost(nearby("aa", "")));
    assert_eq!(browser.transfer_runtime.as_ref().unwrap().devices, vec![nearby("bb", "tablet")]);

    browser.accept_local_send_service_event(ServiceEvent::ServiceError("port in use".to_owned()));
    assert_eq!(browser.global_error.as_deref(), Some("port in use"));
}

#[test]
fn received_files_are_announced_only_in_the_background() {
    let mut browser = FileBrowser::new(path("/workspace"), path("/trash"));
    let finished = ServiceEvent::ReceiveFinished {
        saved_paths: vec![path("/home/u/Downloads/a.jpg")],
        failed: vec![("b.jpg".to_owned(), "disk full".to_owned())],
    };
    assert_eq!(browser.accept_local_send_service_event(finished.clone()), None);
    browser.windows.system_focused = None;
    assert_eq!(
        browser.accept_local_send_service_event(finished),
        Some(TransferServiceAction::NotifyReceiveFinished { saved: 1, failed: 1 })
    );
    assert_eq!(
        browser.accept_local_send_service_event(ServiceEvent::ReceiveFinished { saved_paths: vec![], failed: vec![] }),
        None
    );
}

#[test]
fn answering_an_incoming_transfer_reaches_the_service_and_remembers_the_device() {
    let mut browser = FileBrowser::new(path("/workspace"), path("/trash"));
    browser.transfer_runtime = Some(TransferRuntime { devices: vec![], generation: 0 });
    browser.accept_local_send_service_event(ServiceEvent::IncomingRequest {
        device: nearby("cc", "laptop"),
        session_id: "s1".to_owned(),
        files: vec!["a.txt".to_owned()],
    });
    assert!(browser.incoming_transfer.is_some());
    browser.incoming_transfer.as_mut().unwrap().remember_device = true;

    let actions = browser.confirm_incoming_transfer(true, "2025-01-01T00:00:00+00:00".to_owned());
    assert_eq!(
        actions,
        vec![
            TransferServiceAction::AcceptSession { session_id: "s1".to_owned(), remember_device: true },
            TransferServiceAction::TrustDevice { fingerprint: "cc".to_owned() },
        ]
    );
    assert_eq!(browser.transfer_trusted_devices.len(), 1);
    assert_eq!(browser.transfer_trusted_devices[0].alias, "laptop");
    assert!(browser.incoming_transfer.is_none());

    browser.accept_local_send_service_event(ServiceEvent::IncomingRequest {
        device: nearby("cc", "laptop"),
        session_id: "s2".to_owned(),
        files: vec![],
    });
    browser.incoming_transfer.as_mut().unwrap().remember_device = true;
    assert_eq!(
        browser.confirm_incoming_transfer(true, "later".to_owned()),
        vec![TransferServiceAction::AcceptSession { session_id: "s2".to_owned(), remember_device: true }]
    );
    assert_eq!(browser.transfer_trusted_devices.len(), 1);

    browser.accept_local_send_service_event(ServiceEvent::IncomingRequest {
        device: nearby("dd", "tv"),
        session_id: "s3".to_owned(),
        files: vec![],
    });
    assert_eq!(
        browser.confirm_incoming_transfer(false, String::new()),
        vec![TransferServiceAction::RejectSession { session_id: "s3".to_owned() }]
    );
    assert!(browser.confirm_incoming_transfer(true, String::new()).is_empty());

    browser.accept_local_send_service_event(ServiceEvent::IncomingRequest {
        device: nearby("dd", "tv"),
        session_id: "s4".to_owned(),
        files: vec![],
    });
    assert_eq!(
        browser.reject_pending_incoming_transfer(),
        Some(TransferServiceAction::RejectSession { session_id: "s4".to_owned() })
    );
}

fn environment(now: u64) -> TransferEnvironment {
    TransferEnvironment {
        now,
        hostname: Some(" studio-pc ".to_owned()),
        added_at: "2025-01-01T00:00:00Z".to_owned(),
    }
}

fn phone() -> DeviceInfo {
    DeviceInfo { fingerprint: "ff".to_owned(), alias: "Phone".to_owned() }
}

#[test]
fn sending_to_a_phone_needs_a_selection() {
    let mut browser = FileBrowser::new(path("/workspace"), path("/trash"));
    let effects = browser.handle_transfer_message(TransferMessage::SendToPhoneRequested, environment(0));
    assert!(effects.is_empty());
    assert!(browser.transfer_session.is_none());
}

#[test]
fn sending_to_a_phone_opens_a_preparing_session_for_the_selection() {
    let mut browser = FileBrowser::new(path("/workspace"), path("/trash"));
    browser.selected_paths = vec![path("/workspace/a.txt"), path("/")];
    let effects = browser.handle_transfer_message(TransferMessage::SendToPhoneRequested, environment(0));
    assert_eq!(
        effects,
        vec![
            TransferEffect::OpenTransferWindow,
            TransferEffect::StartQrSession { items: qr_item_names(&browser.selected_paths) },
        ]
    );
    let items = qr_item_names(&browser.selected_paths);
    assert_eq!(items[0].display_name, "a.txt");
    assert_eq!(items[1].display_name, "/");
    assert_eq!(browser.transfer_session, Some(TransferSession::new()));

    // A second request stops the running session first.
    let effects = browser.handle_transfer_message(TransferMessage::SendToPhoneRequested, environment(0));
    assert_eq!(effects[0], TransferEffect::CancelQrSession);
    assert_eq!(effects.len(), 3);
}

#[test]
fn qr_addresses_are_listed_then_one_is_picked_and_dropped_again() {
    let mut browser = FileBrowser::new(path("/workspace"), path("/trash"));
    browser.transfer_session = Some(TransferSession::new());
    let urls = vec!["http://10.0.0.2:53317/".to_owned(), "http://192.168.1.4:53317/".to_owned()];
    browser.handle_transfer_message(TransferMessage::QrSessionStarted { urls: urls.clone() }, environment(0));
    let phase = |browser: &FileBrowser| browser.transfer_session.as_ref().unwrap().phase.clone();
    assert_eq!(phase(&browser), TransferSessionPhase::Ready { urls: urls.clone(), selected: None });
    browser.handle_transfer_message(TransferMessage::QrAddressSelected(1), environment(0));
    assert_eq!(phase(&browser), TransferSessionPhase::Ready { urls: urls.clone(), selected: Some(1) });
    browser.handle_transfer_message(TransferMessage::QrAddressSelected(2), environment(0));
    assert_eq!(phase(&browser), TransferSessionPhase::Ready { urls: urls.clone(), selected: Some(1) });
    browser.handle_transfer_message(TransferMessage::QrAddressListRequested, environment(0));
    assert_eq!(phase(&browser), TransferSessionPhase::Ready { urls, selected: None });
    browser.handle_transfer_message(TransferMessage::QrSessionFailed("port taken".to_owned()), environment(0));
    assert_eq!(phase(&browser), TransferSessionPhase::Failed("port taken".to_owned()));
}

#[test]
fn qr_progress_measures_the_speed_between_reports() {
    let mut browser = FileBrowser::new(path("/workspace"), path("/trash"));
    browser.transfer_session = Some(TransferSession::new());
    browser.handle_transfer_message(TransferMessage::QrEvent(QrEvent::Connected), environment(0));
    browser.handle_transfer_message(
        TransferMessage::QrEvent(QrEvent::Progress { bytes_sent: 1_000 }),
        environment(1_000_000_000),
    );
    let session = browser.transfer_session.clone().unwrap();
    assert!(session.connected);
    assert_eq!(session.bytes_sent, 1_000);
    assert_eq!(session.speed_bytes_per_second, 0);
    // Half a second later, 4000 more bytes: 8000 bytes per second.
    browser.handle_transfer_message(
        TransferMessage::QrEvent(QrEvent::Progress { bytes_sent: 5_000 }),
        environment(1_500_000_000),
    );
    assert_eq!(browser.transfer_session.clone().unwrap().speed_bytes_per_second, 8_000);
    // Reports closer than 50 ms keep the speed shown.
    browser.handle_transfer_message(
        TransferMessage::QrEvent(QrEvent::Progress { bytes_sent: 9_000 }),
        environment(1_540_000_000),
    );
    let session = browser.transfer_session.clone().unwrap();
    assert_eq!(session.speed_bytes_per_second, 8_000);
    assert_eq!(session.last_progress, Some((9_000, 1_540_000_000)));
    browser.handle_transfer_message(TransferMessage::QrEvent(QrEvent::TimedOut), environment(2_000_000_000));
    assert_eq!(browser.transfer_session.clone().unwrap().finished, Some(QrEvent::TimedOut));
}

#[test]
fn a_direct_send_announces_the_effective_alias() {
    let mut browser = FileBrowser::new(path("/workspace"), path("/trash"));
    browser.selected_paths = vec![path("/workspace/a.txt")];
    let effects =
        browser.handle_transfer_message(TransferMessage::SendToDevicePressed(phone()), environment(0));
    assert!(effects.is_empty(), "no transfer window, no send");

    browser.transfer_session = Some(TransferSession::new());
    let effects =
        browser.handle_transfer_message(TransferMessage::SendToDevicePressed(phone()), environment(0));
    assert_eq!(
        effects,
        vec![TransferEffect::StartDirectSend {
            device: phone(),
            paths: vec![path("/workspace/a.txt")],
            display_alias: "studio-pc".to_owned(),
        }]
    );
    let state = browser.transfer_session.clone().unwrap().direct_send.unwrap();
    assert_eq!(state.fingerprint, "ff");
    assert_eq!(state.alias, "Phone");
    assert_eq!(state.outcome, None);
}

#[test]
fn a_chosen_download_directory_restarts_the_service() {
    let mut browser = FileBrowser::new(path("/workspace"), path("/trash"));
    let effects = browser.handle_transfer_message(
        TransferMessage::DownloadDirChosen(Ok(Some(path("/home/me/Incoming")))),
        environment(0),
    );
    assert_eq!(effects, vec![TransferEffect::RestartService, TransferEffect::PersistPreferences]);
    assert_eq!(browser.transfer_download_dir, Some(path("/home/me/Incoming")));
    assert!(browser
        .handle_transfer_message(TransferMessage::DownloadDirChosen(Ok(None)), environment(0))
        .is_empty());
    browser.handle_transfer_message(TransferMessage::DownloadDirChosen(Err("portal gone".to_owned())), environment(0));
    assert_eq!(browser.global_error.as_deref(), Some("portal gone"));
    assert_eq!(
        browser.handle_transfer_message(TransferMessage::DownloadDirChooserPressed, environment(0)),
        vec![TransferEffect::ChooseDownloadDirectory]
    );
}

#[test]
fn refreshing_devices_clears_the_list_and_scans_again() {
    let mut browser = FileBrowser::new(path("/workspace"), path("/trash"));
    assert!(browser
        .handle_transfer_message(TransferMessage::RefreshDevicesRequested, environment(0))
        .is_empty());
    browser.transfer_runtime = Some(TransferRuntime { devices: vec![phone()], generation: 3 });
    assert_eq!(
        browser.handle_transfer_message(TransferMessage::RefreshDevicesRequested, environment(0)),
        vec![TransferEffect::RefreshDevices]
    );
    assert_eq!(browser.transfer_runtime, Some(TransferRuntime { devices: vec![], generation: 3 }));
}

#[test]
fn alias_and_trust_changes_restart_or_save() {
    let mut browser = FileBrowser::new(path("/workspace"), path("/trash"));
    browser.handle_transfer_message(TransferMessage::DeviceAliasInputChanged(" Desk ".to_owned()), environment(0));
    assert_eq!(
        browser.handle_transfer_message(TransferMessage::DeviceAliasCommitted, environment(0)),
        vec![TransferEffect::RestartService, TransferEffect::PersistPreferences]
    );
    assert!(browser
        .handle_transfer_message(TransferMessage::DeviceAliasCommitted, environment(0))
        .is_empty());
    browser.transfer_runtime = Some(TransferRuntime { devices: vec![], generation: 0 });
    assert_eq!(
        browser.handle_transfer_message(TransferMessage::TrustedDeviceRemoved("aa".to_owned()), environment(0)),
        vec![
            TransferEffect::ForgetTrustedFingerprint { fingerprint: "aa".to_owned() },
            TransferEffect::PersistPreferences,
        ]
    );
}

#[test]
fn confirming_an_incoming_transfer_answers_the_service() {
    let mut browser = FileBrowser::new(path("/workspace"), path("/trash"));
    browser.transfer_runtime = Some(TransferRuntime { devices: vec![], generation: 0 });
    browser.handle_transfer_message(
        TransferMessage::ServiceEvent(ServiceEvent::IncomingRequest {
            device: phone(),
            session_id: "s1".to_owned(),
            files: vec!["a.jpg".to_owned()],
        }),
        environment(0),
    );
    browser.handle_transfer_message(TransferMessage::IncomingRememberToggled(true), environment(0));
    let effects = browser
        .handle_transfer_message(TransferMessage::IncomingConfirmed { accept: true }, environment(0));
    assert_eq!(
        effects,
        vec![
            TransferEffect::Service(TransferServiceAction::AcceptSession {
                session_id: "s1".to_owned(),
                remember_device: true,
            }),
            TransferEffect::Service(TransferServiceAction::TrustDevice { fingerprint: "ff".to_owned() }),
        ]
    );
    assert_eq!(browser.transfer_trusted_devices[0].added_at, "2025-01-01T00:00:00Z");
}

#[test]
fn restarting_the_service_counts_its_starts() {
    let mut browser = FileBrowser::new(path("/workspace"), path("/trash"));
    assert_eq!(browser.begin_transfer_service_restart(), 0);
    browser.accept_transfer_service_start(0, Ok(()));
    assert_eq!(browser.transfer_runtime, Some(TransferRuntime { devices: vec![], generation: 0 }));
    assert_eq!(browser.begin_transfer_service_restart(), 1);
    assert!(browser.transfer_runtime.is_none());
    browser.accept_transfer_service_start(1, Err("address in use".to_owned()));
    assert_eq!(
        browser.global_error.as_deref(),
        Some("Could not start transfer service: address in use")
    );
}

#[test]
fn the_advanced_new_folder_dialog_knows_the_listed_names() {
    let mut browser = FileBrowser::new(path("/workspace"), path("/trash"));
    browser.entries = vec![
        app_ui::browser::DirectoryEntry { path: path("/workspace/a"), kind: app_ui::browser::FileKind::Directory, discovery_index: None },
        app_ui::browser::DirectoryEntry { path: path("/elsewhere/b"), kind: app_ui::browser::FileKind::File, discovery_index: None },
    ];
    browser.selected_paths = vec![path("/workspace/a"), path("/other/c")];
    browser.open_advanced_new_folder(path("/workspace"));
    let state = browser.advanced_new_folder.clone().unwrap();
    assert_eq!(state.taken_names, vec!["a".to_owned()]);
    assert_eq!(state.gather_sources, vec![path("/workspace/a")]);

    let mut trash = FileBrowser::new(path("/trash"), path("/trash"));
    trash.is_trash_view = true;
    trash.open_advanced_new_folder(path("/trash"));
    assert!(trash.advanced_new_folder.is_none());
}

fn trusted(fingerprint: &str, alias: &str, added_at: &str) -> TrustedTransferDevice {
    TrustedTransferDevice {
        fingerprint: fingerprint.to_owned(),
        alias: alias.to_owned(),
        added_at: added_at.to_owned(),
    }
}

#[test]
fn trusted_devices_round_trip_through_the_preferences_file() {
    let devices = vec![trusted("fp-1", "Laptop", "2024-05-01T10:00:00Z"), trusted("fp-2", "Phone", "")];
    let stored = stored_trusted_transfer_devices(&devices);
    assert_eq!(stored.len(), 2);
    assert_eq!(stored[0].fingerprint, "fp-1");
    assert_eq!(stored[1].alias, "Phone");
    assert_eq!(trusted_transfer_devices_from_stored(&stored), devices);
}

#[test]
fn stored_devices_without_a_fingerprint_are_not_trusted() {
    let stored = vec![
        StoredTrustedTransferDevice { fingerprint: String::new(), alias: "Ghost".to_owned(), added_at: String::new() },
        StoredTrustedTransferDevice { fingerprint: "fp-3".to_owned(), alias: String::new(), added_at: "t".to_owned() },
    ];
    assert_eq!(trusted_transfer_devices_from_stored(&stored), vec![trusted("fp-3", "fp-3", "t")]);
}
