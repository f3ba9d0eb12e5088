use app_ui::browser::{DestructiveActionConfirmation, DirectoryEntry, FileBrowser, FileKind, KeyboardModifiers};
use app_ui::clipboard::{
    split_archive_member_sources, ClipboardEffect, ClipboardPasteStep, DesktopClipboardContent,
    FileClipboardOperation, FileEntryContentModifier, PasteRequest, PastedContents,
    PendingOperation,
};
use app_ui::config::BrowserViewMode;
use app_ui::conflict::TransferConflictMode;
use app_ui::naming::unique_gathered_folder_directory;
use app_ui::operations::{QueuedFileOperation, QueuedTransfer};
use app_ui::paths::FsPath;

fn path(text: &str) -> FsPath {
    FsPath::new(
        text.starts_with('/'),
        text.split('/')
            .filter(|part| !part.is_empty())
            .map(str::to_owned)
            .collect(),
    )
}

fn test_entry(text: &str) -> DirectoryEntry {
    DirectoryEntry { path: path(text), kind: FileKind::File, discovery_index: None }
}

fn browser_with_entries(paths: &[&str]) -> FileBrowser {
    let mut browser = FileBrowser::new(path("/workspace"), path("/trash"));
    browser.entries = paths.iter().map(|p| test_entry(p)).collect();
    browser.selected_paths = paths.iter().map(|p| path(p)).collect();
    browser.selected = paths.first().map(|p| path(p));
    browser
}

fn only_task(browser: &FileBrowser) -> &QueuedFileOperation {
    assert_eq!(browser.operation_queue.tasks.len(), 1);
    &browser.operation_queue.tasks[0]
}

#[test]
fn duplicate_selected_enqueues_in_place_copies_for_whole_selection() {
    let report = path("/workspace/report.pdf");
    let notes = path("/workspace/notes");
    let mut browser = browser_with_entries(&["/workspace/report.pdf", "/workspace/notes"]);

    browser.duplicate_selected(&vec![]);

    assert!(matches!(
        only_task(&browser),
        QueuedFileOperation::Duplicate { transfers, .. }
            if transfers == &vec![
                QueuedTransfer::new(report.clone(), path("/workspace/report副本.pdf")),
                QueuedTransfer::new(notes.clone(), path("/workspace/notes副本")),
            ]
    ));
}

#[test]
fn duplicate_skips_names_that_exist_and_refuses_in_the_trash() {
    let mut browser = browser_with_entries(&["/workspace/report.pdf"]);
    browser.duplicate_selected(&vec![path("/workspace/report副本.pdf")]);
    assert!(matches!(
        only_task(&browser),
        QueuedFileOperation::Duplicate { transfers, .. }
            if transfers[0].target == path("/workspace/report副本 2.pdf")
    ));

    let mut trash = browser_with_entries(&["/trash/old.txt"]);
    trash.is_trash_view = true;
    trash.duplicate_selected(&vec![]);
    assert!(trash.operation_queue.tasks.is_empty());
}

#[test]
fn new_folder_from_selection_enqueues_one_undoable_move_batch() {
    let report = path("/tmp/ws/report.txt");
    let mut browser = browser_with_entries(&["/tmp/ws/report.txt"]);
    browser.current_dir = path("/tmp/ws");

    browser.new_folder_from_selection(&vec![report.clone()]);

    assert!(matches!(
        only_task(&browser),
        QueuedFileOperation::GatherSelectionIntoNewFolder { directory, sources }
            if directory == &path("/tmp/ws/新建文件夹") && sources == &vec![report.clone()]
    ));
}

#[test]
fn gathered_folder_names_count_up_past_taken_ones() {
    let taken = vec![path("/tmp/ws/新建文件夹"), path("/tmp/ws/新建文件夹 2")];
    assert_eq!(unique_gathered_folder_directory(&path("/tmp/ws"), &taken), path("/tmp/ws/新建文件夹 3"));
}

#[test]
fn new_folder_from_selection_gathers_only_the_active_directory() {
    let mut browser = browser_with_entries(&["/workspace/a.txt", "/workspace/project/b.txt"]);
    browser.view_mode = BrowserViewMode::List;
    browser.new_folder_from_selection(&vec![]);
    assert!(matches!(
        only_task(&browser),
        QueuedFileOperation::GatherSelectionIntoNewFolder { sources, .. }
            if sources == &vec![path("/workspace/a.txt")]
    ));

    let mut outside = browser_with_entries(&["/elsewhere/a.txt"]);
    outside.new_folder_from_selection(&vec![]);
    assert!(outside.operation_queue.tasks.is_empty());
}

#[test]
fn copy_and_cut_remember_the_selection_and_write_the_clipboard() {
    let mut browser = browser_with_entries(&["/workspace/a.txt"]);
    assert_eq!(
        browser.copy_selected(),
        Some(ClipboardEffect::WriteFileClipboard {
            operation: FileClipboardOperation::Copy,
            paths: vec![path("/workspace/a.txt")],
        })
    );
    assert_eq!(browser.pending_operation, Some(PendingOperation::Copy(vec![path("/workspace/a.txt")])));
    browser.move_selected();
    assert_eq!(browser.pending_operation, Some(PendingOperation::Move(vec![path("/workspace/a.txt")])));

    browser.is_trash_view = true;
    browser.pending_operation = None;
    assert_eq!(browser.copy_selected(), None);
    assert_eq!(browser.pending_operation, None);
}

#[test]
fn copying_path_text_joins_the_selection() {
    let mut browser = browser_with_entries(&["/workspace/a.txt", "/workspace/b.txt"]);
    assert_eq!(
        browser.copy_selected_path_text(),
        Some(ClipboardEffect::WriteClipboardText("/workspace/a.txt\n/workspace/b.txt".to_owned()))
    );
}

#[test]
fn permanent_delete_asks_first() {
    let mut browser = browser_with_entries(&["/workspace/a.txt"]);
    browser.delete_selected_permanently();
    assert_eq!(
        browser.destructive_action_confirmation,
        Some(DestructiveActionConfirmation::DeletePermanently { paths: vec![path("/workspace/a.txt")] })
    );
}

#[test]
fn new_entries_are_queued_outside_the_trash_only() {
    let mut browser = browser_with_entries(&[]);
    browser.renaming = Some(path("/workspace/old.txt"));
    browser.create_directory_in(path("/workspace"));
    browser.create_empty_file_in(path("/workspace"));
    assert_eq!(
        browser.operation_queue.tasks,
        vec![
            QueuedFileOperation::CreateDirectory { parent: path("/workspace") },
            QueuedFileOperation::CreateEmptyFile { parent: path("/workspace") },
        ]
    );
    assert_eq!(browser.renaming, None);

    browser.is_trash_view = true;
    browser.create_directory_in(path("/trash"));
    assert_eq!(browser.operation_queue.tasks.len(), 2);
}

#[test]
fn copy_paste_extracts_archive_members_and_checks_the_rest() {
    let mut browser = browser_with_entries(&[]);
    let member = path("/data/docs.zip/photos/1.txt");
    let real_file = path("/data/notes.txt");
    let effects = browser.paste_operation(
        path("/workspace"),
        true,
        PendingOperation::Copy(vec![member.clone(), real_file.clone()]),
        &vec![false, true],
    );
    assert_eq!(
        browser.operation_queue.tasks,
        vec![QueuedFileOperation::ExtractArchiveMembers {
            sources: vec![member],
            destination: path("/workspace"),
            password: None,
        }]
    );
    assert_eq!(
        effects,
        vec![ClipboardEffect::CheckTransferConflicts {
            mode: TransferConflictMode::Copy,
            transfers: vec![QueuedTransfer::new(real_file, path("/workspace/notes.txt"))],
        }]
    );
}

#[test]
fn move_paste_uses_up_the_cut_and_nothing_lands_inside_an_archive() {
    let mut browser = browser_with_entries(&[]);
    browser.pending_operation = Some(PendingOperation::Move(vec![path("/data/notes.txt")]));
    let effects = browser.paste_operation(
        path("/data/docs.zip/photos"),
        false,
        PendingOperation::Move(vec![path("/data/notes.txt")]),
        &vec![true],
    );
    assert!(effects.is_empty());
    assert!(browser.pending_operation.is_some());

    let effects = browser.paste_operation(
        path("/workspace"),
        true,
        PendingOperation::Move(vec![path("/data/notes.txt")]),
        &vec![true],
    );
    assert_eq!(browser.pending_operation, None);
    assert_eq!(effects.len(), 1);
}

#[test]
fn archive_split_keeps_order_within_each_side() {
    let sources = vec![path("/a.zip/x"), path("/b"), path("/a.zip/y"), path("/c")];
    let (members, reals) = split_archive_member_sources(&sources, &vec![false, true, false, true]);
    assert_eq!(members, vec![path("/a.zip/x"), path("/a.zip/y")]);
    assert_eq!(reals, vec![path("/b"), path("/c")]);
}

#[test]
fn pasting_reads_the_desktop_clipboard_with_the_pending_fallback() {
    let mut browser = browser_with_entries(&[]);
    browser.pending_operation = Some(PendingOperation::Copy(vec![path("/data/a")]));
    assert_eq!(
        browser.paste_pending(),
        Some(ClipboardEffect::ReadDesktopClipboard {
            paste_directory: path("/workspace"),
            fallback: Some(PendingOperation::Copy(vec![path("/data/a")])),
        })
    );
    browser.is_trash_view = true;
    assert_eq!(browser.paste_pending(), None);
}

#[test]
fn clipboard_text_and_images_become_files() {
    let mut browser = browser_with_entries(&[]);
    assert_eq!(
        browser.paste_desktop_clipboard_content(path("/workspace"), DesktopClipboardContent::Text("hi".to_owned())),
        ClipboardPasteStep::CreateFile {
            target: path("/workspace/Pasted Text.txt"),
            contents: PastedContents::Text("hi".to_owned()),
        }
    );
    assert_eq!(
        browser.paste_desktop_clipboard_content(
            path("/workspace"),
            DesktopClipboardContent::Image { extension: "png".to_owned(), bytes: vec![1, 2] },
        ),
        ClipboardPasteStep::CreateFile {
            target: path("/workspace/Screenshot.png"),
            contents: PastedContents::Bytes(vec![1, 2]),
        }
    );
}

#[test]
fn a_failed_clipboard_read_falls_back_or_reports() {
    let mut browser = browser_with_entries(&[]);
    let fallback = PendingOperation::Move(vec![path("/data/a")]);
    assert_eq!(
        browser.accept_desktop_clipboard_paste(path("/workspace"), Some(fallback.clone()), Err("no portal".to_owned())),
        ClipboardPasteStep::Paste(PasteRequest { paste_directory: path("/workspace"), operation: fallback })
    );
    assert_eq!(browser.global_error, None);
    assert_eq!(
        browser.accept_desktop_clipboard_paste(path("/workspace"), None, Err("no portal".to_owned())),
        ClipboardPasteStep::Nothing
    );
    assert_eq!(browser.global_error.as_deref(), Some("no portal"));
}

#[test]
fn dropped_files_wait_for_copy_or_move() {
    let mut browser = browser_with_entries(&[]);
    browser.request_file_drop_prompt(path("/workspace"), vec![path("/data/a")]);
    assert_eq!(
        browser.apply_file_drop_operation(FileClipboardOperation::Move),
        Some(PasteRequest {
            paste_directory: path("/workspace"),
            operation: PendingOperation::Move(vec![path("/data/a")]),
        })
    );
    assert_eq!(browser.file_drop_prompt, None);

    browser.destructive_action_confirmation = Some(DestructiveActionConfirmation::EmptyTrash);
    browser.request_file_drop_prompt(path("/workspace"), vec![path("/data/a")]);
    assert_eq!(browser.file_drop_prompt, None);
    assert_eq!(
        browser.global_error.as_deref(),
        Some("Finish the current file operation prompt before dropping files")
    );
}

fn modifiers(control: bool, alt: bool) -> KeyboardModifiers {
    KeyboardModifiers { control, shift: false, alt }
}

#[test]
fn move_drag_with_fully_no_op_batch_does_nothing() {
    let mut browser = browser_with_entries(&[]);
    let folder = path("/tmp/d/project");
    let effects = browser.move_dragged_files(vec![folder.clone()], folder, true, &vec![true]);
    assert!(effects.is_empty());
    assert!(browser.operation_queue.tasks.is_empty());
}

#[test]
fn move_drag_of_archive_members_extracts_into_target_directory() {
    let mut browser = browser_with_entries(&[]);
    let member = path("/tmp/d/docs.zip/photos/1.txt");
    let destination = path("/tmp/d/landing");
    browser.move_dragged_files(vec![member.clone()], destination.clone(), true, &vec![false]);
    assert!(matches!(
        only_task(&browser),
        QueuedFileOperation::ExtractArchiveMembers { sources, destination: target, .. }
            if sources == &vec![member.clone()] && target == &destination
    ));
}

#[test]
fn mixed_drag_extracts_members_alongside_real_file_transfers() {
    let mut browser = browser_with_entries(&[]);
    let member = path("/tmp/d/docs.zip/photos/1.txt");
    let real_file = path("/tmp/d/notes.txt");
    let destination = path("/tmp/d/landing");
    let effects =
        browser.move_dragged_files(vec![member.clone(), real_file], destination, true, &vec![false, true]);
    assert!(matches!(
        only_task(&browser),
        QueuedFileOperation::ExtractArchiveMembers { sources, .. } if sources == &vec![member]
    ));
    // The real file goes through the conflict check; the landing directory
    // lies below its directory, so it is revealed first.
    assert_eq!(effects.len(), 2);
    assert_eq!(effects[0], ClipboardEffect::RevealDropTarget(path("/tmp/d/landing")));
}

#[test]
fn ctrl_drag_of_archive_members_extracts_into_target_directory() {
    let mut browser = browser_with_entries(&[]);
    browser.keyboard_modifiers = modifiers(true, false);
    browser.move_dragged_files(vec![path("/tmp/d/docs.zip/report.pdf")], path("/tmp/d/landing"), true, &vec![false]);
    assert!(matches!(only_task(&browser), QueuedFileOperation::ExtractArchiveMembers { .. }));
}

#[test]
fn drag_landing_inside_archive_does_nothing() {
    let mut browser = browser_with_entries(&[]);
    let real_file = path("/tmp/d/notes.txt");
    browser.move_dragged_files(vec![real_file.clone()], path("/tmp/d/docs.zip/photos"), false, &vec![true]);
    assert!(browser.operation_queue.tasks.is_empty());

    browser.keyboard_modifiers = modifiers(true, false);
    let effects = browser.move_dragged_files(vec![real_file], path("/tmp/d/docs.zip"), false, &vec![true]);
    assert!(effects.is_empty());
    assert!(browser.operation_queue.tasks.is_empty());
}

#[test]
fn alt_drag_with_archive_members_queues_nothing() {
    let mut browser = browser_with_entries(&[]);
    browser.keyboard_modifiers = modifiers(false, true);
    let effects = browser.move_dragged_files(
        vec![path("/tmp/d/notes.txt"), path("/tmp/d/docs.zip/report.pdf")],
        path("/tmp/d/landing"),
        true,
        &vec![true, false],
    );
    assert!(effects.is_empty());
    assert!(browser.operation_queue.tasks.is_empty());
}

#[test]
fn alt_drag_links_the_real_sources() {
    let mut browser = browser_with_entries(&[]);
    browser.keyboard_modifiers = modifiers(false, true);
    let effects = browser.move_dragged_files(vec![path("/tmp/d/report.pdf")], path("/tmp/d/archive"), true, &vec![true]);
    assert_eq!(
        effects,
        vec![ClipboardEffect::LinkIntoDirectory {
            sources: vec![path("/tmp/d/report.pdf")],
            directory: path("/tmp/d/archive"),
        }]
    );
}

#[test]
fn moving_below_the_source_directory_reveals_the_target() {
    let mut browser = browser_with_entries(&[]);
    let effects = browser.move_dragged_files(
        vec![path("/tmp/d/report.pdf")],
        path("/tmp/d/sub"),
        true,
        &vec![true],
    );
    assert_eq!(
        effects,
        vec![
            ClipboardEffect::RevealDropTarget(path("/tmp/d/sub")),
            ClipboardEffect::CheckTransferConflicts {
                mode: TransferConflictMode::Move,
                transfers: vec![QueuedTransfer::new(path("/tmp/d/report.pdf"), path("/tmp/d/sub/report.pdf"))],
            },
        ]
    );
}

#[test]
fn a_copy_drop_into_itself_is_refused() {
    let mut browser = browser_with_entries(&[]);
    browser.keyboard_modifiers = modifiers(true, false);
    // Copying a directory into its own directory would target itself.
    let effects = browser.move_dragged_files(vec![path("/tmp/d/project")], path("/tmp/d"), true, &vec![true]);
    assert!(effects.is_empty());
}

#[test]
fn cut_visual_modifier_requires_exact_move_source_membership() {
    let source = path("/workspace/report.txt");
    let move_operation = PendingOperation::Move(vec![source.clone()]);

    assert_eq!(
        move_operation.content_modifier_for_path(&source),
        FileEntryContentModifier::Cut
    );
    assert_eq!(
        move_operation.content_modifier_for_path(&path("/workspace/report.txt.bak")),
        FileEntryContentModifier::Plain
    );
    assert_eq!(
        move_operation.content_modifier_for_path(&path("/archive/report.txt")),
        FileEntryContentModifier::Plain
    );
    assert_eq!(
        PendingOperation::Copy(vec![source.clone()]).content_modifier_for_path(&source),
        FileEntryContentModifier::Copied
    );
    assert_eq!(
        PendingOperation::Copy(vec![source.clone()])
            .content_modifier_for_path(&path("/workspace/report.txt.bak")),
        FileEntryContentModifier::Plain
    );
}

#[test]
fn new_clipboard_operation_replaces_cut_visual_membership() {
    let first = path("/workspace/first.txt");
    let second = path("/workspace/second.txt");
    let mut browser = browser_with_entries(&["/workspace/first.txt", "/workspace/second.txt"]);
    browser.selected_paths = vec![first.clone()];
    drop(browser.move_selected());
    assert_eq!(
        browser.file_entry_content_modifier(&first),
        FileEntryContentModifier::Cut
    );

    browser.selected = Some(second.clone());
    browser.selected_paths = vec![second.clone()];
    drop(browser.move_selected());
    assert_eq!(
        browser.file_entry_content_modifier(&first),
        FileEntryContentModifier::Plain
    );
    assert_eq!(
        browser.file_entry_content_modifier(&second),
        FileEntryContentModifier::Cut
    );

    drop(browser.copy_selected());
    assert_eq!(
        browser.file_entry_content_modifier(&second),
        FileEntryContentModifier::Copied
    );
}

#[test]
fn move_paste_consumes_cut_visual_membership() {
    let source = path("/workspace/report.txt");
    let mut browser = browser_with_entries(&["/workspace/report.txt"]);
    drop(browser.move_selected());
    assert_eq!(
        browser.file_entry_content_modifier(&source),
        FileEntryContentModifier::Cut
    );

    drop(browser.paste_operation(
        path("/destination"),
        true,
        PendingOperation::Move(vec![source.clone()]),
        &vec![true],
    ));
    assert!(browser.pending_operation.is_none());
    assert_eq!(
        browser.file_entry_content_modifier(&source),
        FileEntryContentModifier::Plain
    );
}

#[test]
fn duplicate_completion_selects_the_new_copies() {
    let first_copy = path("/workspace/report副本.pdf");
    let second_copy = path("/workspace/notes副本");
    let mut browser = browser_with_entries(&["/workspace/report.pdf"]);
    let operation = QueuedFileOperation::Duplicate {
        transfers: vec![
            QueuedTransfer::new(path("/workspace/report.pdf"), first_copy.clone()),
            QueuedTransfer::new(path("/workspace/notes"), second_copy.clone()),
        ],
        verification: browser.file_operation_verification,
    };

    let targets = operation.duplicate_selection_targets().unwrap();
    browser.select_operation_result_paths(targets);

    assert!(browser.selected_paths.contains(&first_copy));
    assert!(browser.selected_paths.contains(&second_copy));
    assert_eq!(browser.selected, Some(second_copy));
}

#[test]
fn only_a_duplicate_selects_its_results() {
    let operation = QueuedFileOperation::Trash { paths: vec![path("/workspace/a")] };
    assert_eq!(operation.duplicate_selection_targets(), None);

    let mut browser = browser_with_entries(&["/workspace/a"]);
    browser.select_operation_result_paths(Vec::new());
    assert_eq!(browser.selected, Some(path("/workspace/a")));
    assert_eq!(browser.selected_paths, vec![path("/workspace/a")]);
}

#[test]
fn operation_results_are_selected_once_each() {
    let mut browser = browser_with_entries(&["/workspace/a"]);
    browser.select_operation_result_paths(vec![path("/workspace/b"), path("/workspace/c"), path("/workspace/b")]);
    assert_eq!(browser.selected_paths, vec![path("/workspace/b"), path("/workspace/c")]);
    assert_eq!(browser.selected, Some(path("/workspace/b")));
}
