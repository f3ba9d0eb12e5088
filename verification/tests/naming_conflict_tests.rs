use app_ui::browser::FileBrowser;
use app_ui::conflict::{
    apply_conflict_choice, apply_keep_both_choice, keep_both_transfer_target, mergeable_conflict_pairs,
    TransferConflictChoice, TransferConflictItem, TransferConflictMessage, TransferConflictMetadata,
    TransferConflictMode, TransferConflictState,
};
use app_ui::naming::{
    accept_smart_extract_destination,
    archive_folder_destination, archive_folder_name, decimal_string, in_place_duplicate_target,
    smart_extraction_destination, unique_duplicated_name,
};
use app_ui::operations::{QueuedFileOperation, QueuedTransfer, TransferConflictStrategy};
use app_ui::paths::{move_is_no_op, FsPath};

fn path(text: &str) -> FsPath {
    FsPath::new(
        text.starts_with('/'),
        text.split('/')
            .filter(|part| !part.is_empty())
            .map(str::to_owned)
            .collect(),
    )
}

fn metadata(is_directory: bool) -> TransferConflictMetadata {
    TransferConflictMetadata { is_directory, len: 3 }
}

fn file_conflict(source: &str, target: &str) -> TransferConflictItem {
    TransferConflictItem {
        source: path(source),
        target: path(target),
        source_metadata: metadata(false),
        target_metadata: metadata(false),
    }
}

fn test_conflict_state() -> TransferConflictState {
    TransferConflictState {
        mode: TransferConflictMode::Copy,
        transfers: vec![QueuedTransfer::new(path("/source/report.txt"), path("/target/report.txt"))],
        conflicts: vec![file_conflict("/source/report.txt", "/target/report.txt")],
        current_index: 0,
        apply_to_all: false,
    }
}

#[test]
fn single_root_extracts_into_archive_parent_directory() {
    let destination =
        smart_extraction_destination(&path("/home/u/docs/photos.zip"), Some("photos".to_owned()), &vec![]);
    assert_eq!(destination, path("/home/u/docs"));
}

#[test]
fn scattered_members_create_archive_named_folder_beside_archive() {
    let destination = smart_extraction_destination(&path("/home/u/docs/photos.zip"), None, &vec![]);
    assert_eq!(destination, path("/home/u/docs/photos"));
}

#[test]
fn duplicate_destination_appends_counter() {
    let existing = vec![path("/home/u/docs/photos"), path("/home/u/docs/photos (2)")];
    let destination = smart_extraction_destination(&path("/home/u/docs/photos.zip"), None, &existing);
    assert_eq!(destination, path("/home/u/docs/photos (3)"));
}

#[test]
fn archive_folder_destination_always_wraps_a_layer() {
    let destination = archive_folder_destination(&path("/home/u/docs/photos.zip"), &vec![]);
    assert_eq!(destination, path("/home/u/docs/photos"));
}

#[test]
fn folder_extraction_matches_smart_extraction_without_a_single_root() {
    for existing in [vec![], vec![path("/home/u/docs/photos")], vec![path("/home/u/docs/photos"), path("/home/u/docs/photos (2)")]] {
        let archive = path("/home/u/docs/photos.zip");
        assert_eq!(
            archive_folder_destination(&archive, &existing),
            smart_extraction_destination(&archive, None, &existing)
        );
    }
    assert_eq!(
        archive_folder_destination(&path("/home/u/docs/photos.zip"), &vec![path("/home/u/docs/photos")]),
        path("/home/u/docs/photos (2)")
    );
}

#[test]
fn keep_both_past_the_last_conflict_changes_nothing() {
    let mut state = test_conflict_state();
    state.current_index = 2;
    let before = state.clone();
    apply_keep_both_choice(&mut state, &vec![path("/target/report.txt")]);
    assert_eq!(state, before);
}

#[test]
fn archive_folder_names_drop_known_archive_extensions() {
    assert_eq!(archive_folder_name(&path("/a/photos.tar.gz")), "photos");
    assert_eq!(archive_folder_name(&path("/a/Photos.ZIP")), "Photos");
    assert_eq!(archive_folder_name(&path("/a/notes.txt")), "notes.txt");
}

#[test]
fn counters_are_written_in_decimal() {
    assert_eq!(decimal_string(0), "0");
    assert_eq!(decimal_string(7), "7");
    assert_eq!(decimal_string(1024), "1024");
}

#[test]
fn duplicate_names_put_the_marker_before_the_extension() {
    let parent = path("/workspace");
    assert_eq!(unique_duplicated_name("report.pdf", false, &parent, &vec![]), "report副本.pdf");
    assert_eq!(unique_duplicated_name("notes", true, &parent, &vec![]), "notes副本");
    assert_eq!(
        unique_duplicated_name("report.pdf", false, &parent, &vec![path("/workspace/report副本.pdf")]),
        "report副本 2.pdf"
    );
    assert_eq!(unique_duplicated_name(".bashrc", false, &parent, &vec![]), ".bashrc副本");
    assert_eq!(unique_duplicated_name("archive.tar.gz", true, &parent, &vec![]), "archive.tar.gz副本");
}

#[test]
fn ctrl_drag_inside_same_directory_plans_in_place_duplicate() {
    let source = path("/tmp/work/report.pdf");
    let existing = vec![source.clone()];
    let target = in_place_duplicate_target(&source, &path("/tmp/work"), false, &existing);
    assert_eq!(target, path("/tmp/work/report副本.pdf"));
    // The target is free: nothing exists there yet.
    assert!(!existing.contains(&target));
}

#[test]
fn moving_into_itself_or_its_parent_is_a_no_op() {
    assert!(move_is_no_op(&path("/workspace/project"), &path("/workspace/project")));
    assert!(move_is_no_op(&path("/workspace/project"), &path("/workspace/project/inner")));
    assert!(move_is_no_op(&path("/workspace/report.txt"), &path("/workspace")));
    assert!(!move_is_no_op(&path("/workspace/root/expanded/report.txt"), &path("/workspace/root")));
}

#[test]
fn transfer_conflict_rename_uses_keep_both_strategy() {
    let mut state = test_conflict_state();

    apply_conflict_choice(&mut state, TransferConflictChoice::Rename);

    assert_eq!(state.transfers[0].conflict_strategy, TransferConflictStrategy::KeepBoth);
}

#[test]
fn keep_both_renames_file_target_with_duplicate_suffix() {
    let conflict = file_conflict("/source/report.txt", "/target/report.txt");
    let taken = vec![path("/target/report副本.txt")];

    let target = keep_both_transfer_target(&conflict, &taken);

    assert_eq!(target, path("/target/report副本 2.txt"));
}

#[test]
fn keep_both_renames_directory_target_by_tail_suffix() {
    let conflict = TransferConflictItem {
        source: path("/source/photos"),
        target: path("/target/photos"),
        source_metadata: metadata(true),
        target_metadata: metadata(true),
    };

    let target = keep_both_transfer_target(&conflict, &vec![]);

    assert_eq!(target, path("/target/photos副本"));
}

#[test]
fn keep_both_choice_rewrites_conflicting_transfer_target_only() {
    let mut state = test_conflict_state();
    state
        .transfers
        .push(QueuedTransfer::new(path("/source/other.txt"), path("/target/other.txt")));

    apply_keep_both_choice(&mut state, &vec![path("/target/report.txt")]);

    assert_eq!(state.transfers[0].target, path("/target/report副本.txt"));
    assert_eq!(state.transfers[1].target, path("/target/other.txt"));
}

#[test]
fn merge_pairs_follow_apply_to_all_scope() {
    let mut state = test_conflict_state();
    state.conflicts.push(TransferConflictItem {
        source: path("/source/archive"),
        target: path("/target/archive"),
        source_metadata: metadata(true),
        target_metadata: metadata(true),
    });

    assert!(mergeable_conflict_pairs(&state).is_empty());
    state.current_index = 1;
    assert_eq!(mergeable_conflict_pairs(&state), vec![(path("/source/archive"), path("/target/archive"))]);

    state.apply_to_all = true;
    state.current_index = 0;
    assert_eq!(mergeable_conflict_pairs(&state), vec![(path("/source/archive"), path("/target/archive"))]);
}

#[test]
fn skipping_the_last_conflict_queues_the_batch() {
    let mut browser = FileBrowser::new(path("/workspace"), path("/trash"));
    browser.transfer_conflict = Some(test_conflict_state());

    let expansion = browser.resolve_transfer_conflict_choice(TransferConflictChoice::Skip, &vec![]);

    assert!(expansion.is_none());
    assert!(browser.transfer_conflict.is_none());
    assert_eq!(browser.operation_queue.tasks().len(), 1);
    match &browser.operation_queue.tasks()[0] {
        QueuedFileOperation::Copy { transfers, .. } => {
            assert_eq!(transfers.len(), 1);
            assert_eq!(transfers[0].conflict_strategy, TransferConflictStrategy::Skip);
        },
        other => panic!("expected a copy, got {other:?}"),
    }
}

#[test]
fn smart_extraction_after_a_failed_listing_gets_its_own_folder() {
    let archive = path("/home/u/docs/photos.zip");
    assert_eq!(accept_smart_extract_destination(&archive, Ok(Some("photos".to_owned())), &vec![]), path("/home/u/docs"));
    assert_eq!(accept_smart_extract_destination(&archive, Ok(None), &vec![]), path("/home/u/docs/photos"));
    assert_eq!(
        accept_smart_extract_destination(&archive, Err("7z missing".to_owned()), &vec![path("/home/u/docs/photos")]),
        path("/home/u/docs/photos (2)")
    );
}

#[test]
fn conflict_dialog_messages_toggle_cancel_and_decide() {
    let mut browser = FileBrowser::new(path("/workspace"), path("/trash"));
    browser.transfer_conflict = Some(test_conflict_state());
    assert!(browser.apply_transfer_conflict_message(TransferConflictMessage::ApplyToAllToggled, &vec![]).is_none());
    assert!(browser.transfer_conflict.as_ref().unwrap().apply_to_all);

    assert!(browser
        .apply_transfer_conflict_message(
            TransferConflictMessage::ChoiceSelected(TransferConflictChoice::Skip),
            &vec![],
        )
        .is_none());
    assert!(browser.transfer_conflict.is_none());
    assert!(matches!(
        &browser.operation_queue.tasks[0],
        QueuedFileOperation::Copy { transfers, .. }
            if transfers[0].conflict_strategy == TransferConflictStrategy::Skip
    ));

    browser.transfer_conflict = Some(test_conflict_state());
    browser.apply_transfer_conflict_message(TransferConflictMessage::CancelRequested, &vec![]);
    assert!(browser.transfer_conflict.is_none());
    assert_eq!(browser.operation_queue.tasks.len(), 1);
}

#[test]
fn expanded_merges_are_checked_again_or_report_their_error() {
    let mut browser = FileBrowser::new(path("/workspace"), path("/trash"));
    let state = test_conflict_state();
    browser.accept_expanded_transfer_conflict_merges(
        TransferConflictMode::Copy,
        Ok((state.transfers.clone(), state.conflicts.clone())),
    );
    assert_eq!(browser.transfer_conflict, Some(state));

    browser.transfer_conflict = None;
    browser.accept_expanded_transfer_conflict_merges(TransferConflictMode::Move, Ok((vec![], vec![])));
    assert!(matches!(&browser.operation_queue.tasks[0], QueuedFileOperation::Move { transfers, .. } if transfers.is_empty()));

    browser.accept_expanded_transfer_conflict_merges(TransferConflictMode::Move, Err("gone".to_owned()));
    assert_eq!(browser.global_error.as_deref(), Some("gone"));
}

fn extraction_browser() -> FileBrowser {
    let mut browser = FileBrowser::new(path("/workspace"), path("/trash"));
    browser.context_menu = Some(app_ui::browser::ContextMenuState { paste_directory: None });
    browser
}

#[test]
fn extract_archive_from_middle_click_noops_in_trash_view() {
    let mut browser = extraction_browser();
    browser.is_trash_view = true;

    let resolve = browser.extract_archive_from_middle_click(path("/workspace/bundle.zip"), true, true);

    assert!(resolve.is_none());
    assert!(browser.context_menu.is_none());
}

#[test]
fn extract_archive_from_middle_click_noops_inside_archive() {
    let mut browser = extraction_browser();
    browser.current_dir = path("/workspace/bundle.zip");

    let resolve = browser.extract_archive_from_middle_click(path("/workspace/bundle.zip"), false, true);

    assert!(resolve.is_none());
}

#[test]
fn extract_archive_from_middle_click_noops_for_non_archive_path() {
    let mut browser = extraction_browser();

    let resolve = browser.extract_archive_from_middle_click(path("/workspace/notes.txt"), true, false);

    assert!(resolve.is_none());
}

#[test]
fn middle_click_on_an_archive_resolves_it_and_keeps_the_selection() {
    let mut browser = extraction_browser();
    browser.selected_paths = vec![path("/workspace/other.txt")];
    let resolve = browser.extract_archive_from_middle_click(path("/workspace/bundle.zip"), true, true);
    assert_eq!(resolve, Some(path("/workspace/bundle.zip")));
    assert!(browser.context_menu.is_none());
    assert_eq!(browser.selected_paths, vec![path("/workspace/other.txt")]);
}

#[test]
fn selection_commands_take_only_the_selected_archives() {
    let mut browser = extraction_browser();
    browser.selected_paths = vec![
        path("/workspace/a.zip"),
        path("/workspace/notes.txt"),
        path("/workspace/b.tar.gz"),
    ];
    let flags = vec![true, false, true];

    assert_eq!(
        browser.smart_extract_selected(true, &flags),
        vec![path("/workspace/a.zip"), path("/workspace/b.tar.gz")]
    );
    assert!(browser.context_menu.is_none());

    let extractions = browser.extract_selected_to_archive_folder(true, &flags, &vec![path("/workspace/a")]);
    assert_eq!(
        extractions,
        vec![
            (path("/workspace/a.zip"), path("/workspace/a (2)")),
            (path("/workspace/b.tar.gz"), path("/workspace/b")),
        ]
    );

    browser.is_trash_view = true;
    assert!(browser.smart_extract_selected(true, &flags).is_empty());
    assert!(browser.extract_selected_to_archive_folder(true, &flags, &Vec::new()).is_empty());
}
