use app_ui::clipboard::PendingOperation;
use app_ui::browser::{
    DestructiveActionConfirmation, DirectoryEntry, FileBrowser, FileDragState, FileDropSession,
    FileDropTarget, FileKind, KeyboardModifiers,
};
use app_ui::config::BrowserViewMode;
use app_ui::operations::{QueuedFileOperation, QueuedTransfer};
use app_ui::paths::FsPath;
use app_ui::selection::{
    copied_paths_text, file_drag_directory_target_needs_fallback, gather_sources_in_directory,
    move_paste_transfers, resolve_file_drag_target, safe_file_drop_target, FileDragDropIntent,
};

fn path(text: &str) -> FsPath {
    FsPath::new(
        text.starts_with('/'),
        text.split('/')
            .filter(|part| !part.is_empty())
            .map(str::to_owned)
            .collect(),
    )
}

fn entry(text: &str, kind: FileKind) -> DirectoryEntry {
    DirectoryEntry { path: path(text), kind, discovery_index: None }
}

fn browser_with_entries(paths: &[&str]) -> FileBrowser {
    let mut browser = FileBrowser::new(path("/workspace"), path("/trash"));
    browser.entries = paths.iter().map(|p| entry(p, FileKind::File)).collect();
    browser.selected_paths = paths.iter().map(|p| path(p)).collect();
    browser.selected = paths.first().map(|p| path(p));
    browser
}

fn modifiers(control: bool, shift: bool, alt: bool) -> KeyboardModifiers {
    KeyboardModifiers { control, shift, alt }
}

#[test]
fn columns_keyboard_paste_targets_focused_column_not_pointer_hover() {
    let project = path("/workspace/project");
    let mut browser = browser_with_entries(&["/workspace/a.txt"]);
    browser.view_mode = BrowserViewMode::Columns;
    browser.deepest_open_column_directory = Some(project.clone());
    browser.focused_column_directory = Some(project.clone());
    browser.cursor_paste_directory = Some(path("/workspace"));

    assert_eq!(browser.paste_target_directory(), project);
}

#[test]
fn columns_keyboard_paste_falls_back_to_deepest_open_column_without_focus() {
    let project = path("/workspace/project");
    let mut browser = browser_with_entries(&["/workspace/a.txt"]);
    browser.view_mode = BrowserViewMode::Columns;
    browser.deepest_open_column_directory = Some(project.clone());
    browser.cursor_paste_directory = Some(path("/workspace"));

    assert_eq!(browser.paste_target_directory(), project);
}

#[test]
fn columns_keyboard_paste_falls_back_to_current_dir_when_nothing_open() {
    let mut browser = browser_with_entries(&["/workspace/a.txt"]);
    browser.view_mode = BrowserViewMode::Columns;

    assert_eq!(browser.paste_target_directory(), path("/workspace"));
}

#[test]
fn list_view_paste_follows_the_pointer_directory() {
    let mut browser = browser_with_entries(&["/workspace/a.txt"]);
    browser.view_mode = BrowserViewMode::List;
    browser.focused_column_directory = Some(path("/workspace/project"));
    assert_eq!(browser.paste_target_directory(), path("/workspace"));

    browser.cursor_paste_directory = Some(path("/workspace/other"));
    assert_eq!(browser.paste_target_directory(), path("/workspace/other"));
}

#[test]
fn gather_sources_keeps_only_entries_inside_the_target_directory() {
    let in_current = path("/workspace/report.txt");
    let in_other_column = path("/workspace/project/plan.txt");

    let sources = gather_sources_in_directory(&vec![in_current.clone(), in_other_column], &path("/workspace"));

    assert_eq!(sources, vec![in_current]);
}

#[test]
fn move_paste_transfers_skips_no_op_sources_and_keeps_the_rest() {
    let already_there = path("/workspace/project");
    let outsider = path("/other/notes");

    let transfers = move_paste_transfers(&path("/workspace"), &vec![already_there, outsider.clone()]);

    assert_eq!(transfers, vec![QueuedTransfer::new(outsider, path("/workspace/notes"))]);
}

#[test]
fn move_paste_into_own_subtree_enqueues_nothing() {
    let project = path("/workspace/project");
    let mut browser = browser_with_entries(&["/workspace/project"]);

    let effects = browser.paste_operation(
        path("/workspace/project/inner"),
        true,
        PendingOperation::Move(vec![project]),
        &vec![true],
    );

    assert!(effects.is_empty());
    assert!(browser.operation_queue.tasks.is_empty());
}

#[test]
fn local_delete_still_uses_trash_operation() {
    let local_path = path("/workspace/local.txt");
    let mut browser = browser_with_entries(&["/workspace/local.txt"]);

    browser.trash_explicit_paths(vec![local_path.clone()]);

    assert!(browser.destructive_action_confirmation.is_none());
    assert_eq!(browser.operation_queue.tasks().len(), 1);
    assert!(matches!(
        &browser.operation_queue.tasks()[0],
        QueuedFileOperation::Trash { paths } if paths == &vec![local_path]
    ));
}

#[test]
fn network_delete_requests_permanent_delete_confirmation() {
    let mount_path = path("/run/user/1000/gvfs/smb-share:server=server,share=share");
    let network_path = mount_path.join_name("remote.txt");
    let mut browser = browser_with_entries(&[]);
    browser.remote_mount_roots = vec![mount_path];

    browser.trash_explicit_paths(vec![network_path.clone()]);

    assert_eq!(browser.operation_queue.tasks().len(), 0);
    assert!(matches!(
        &browser.destructive_action_confirmation,
        Some(DestructiveActionConfirmation::DeletePermanently { paths }) if paths == &vec![network_path]
    ));
}

#[test]
fn mixed_local_and_network_delete_is_rejected() {
    let mount_path = path("/run/user/1000/gvfs/smb-share:server=server,share=share");
    let network_path = mount_path.join_name("remote.txt");
    let local_path = path("/workspace/local.txt");
    let mut browser = browser_with_entries(&[]);
    browser.remote_mount_roots = vec![mount_path];

    browser.trash_explicit_paths(vec![local_path, network_path]);

    assert_eq!(browser.operation_queue.tasks().len(), 0);
    assert!(browser.destructive_action_confirmation.is_none());
    assert_eq!(
        browser.global_error.as_deref(),
        Some("Delete local and remote items separately so local files can use Trash")
    );
}

#[test]
fn confirming_permanent_delete_queues_it_and_cancel_drops_it() {
    let mut browser = browser_with_entries(&[]);
    let target = path("/workspace/old.txt");
    browser.request_destructive_action_confirmation(DestructiveActionConfirmation::DeletePermanently {
        paths: vec![target.clone()],
    });
    browser.cancel_destructive_action();
    assert!(browser.destructive_action_confirmation.is_none());
    assert!(browser.operation_queue.tasks().is_empty());

    browser.request_destructive_action_confirmation(DestructiveActionConfirmation::DeletePermanently {
        paths: vec![target.clone()],
    });
    browser.confirm_destructive_action();
    assert!(browser.destructive_action_confirmation.is_none());
    assert!(matches!(
        &browser.operation_queue.tasks()[0],
        QueuedFileOperation::DeletePermanently { paths } if paths == &vec![target]
    ));
}

#[test]
fn unsafe_directory_targets_are_rejected_for_every_source_relationship() {
    let file_source = path("/workspace/report.txt");
    let directory_source = path("/workspace/project");

    for (sources, target) in [
        (vec![file_source.clone()], path("/workspace")),
        (vec![directory_source.clone()], directory_source.clone()),
        (vec![directory_source.clone()], directory_source.join_name("nested")),
    ] {
        assert!(safe_file_drop_target(&sources, Some(FileDropTarget::Directory(target))).is_none());
    }
}

#[test]
fn expanded_subdirectory_source_can_move_back_to_tab_root() {
    let source = path("/workspace/root/expanded/report.txt");
    let root = path("/workspace/root");

    assert_eq!(
        safe_file_drop_target(&vec![source], Some(FileDropTarget::Directory(root.clone()))),
        Some(FileDropTarget::Directory(root))
    );
}

#[test]
fn no_op_directory_target_falls_back_to_the_pane_directory() {
    let source = path("/workspace/project");
    let fallback = path("/elsewhere");
    assert!(file_drag_directory_target_needs_fallback(&vec![source.clone()], &path("/workspace")));
    assert_eq!(
        resolve_file_drag_target(
            &vec![source.clone()],
            None,
            Some(FileDropTarget::Directory(path("/workspace/project/inner"))),
            Some(fallback.clone()),
        ),
        Some(FileDropTarget::Directory(fallback))
    );
    assert_eq!(
        resolve_file_drag_target(&vec![source], Some(path("/release")), Some(FileDropTarget::Trash), None),
        Some(FileDropTarget::Directory(path("/release")))
    );
}

#[test]
fn drag_drop_intent_follows_live_modifiers() {
    let mut browser = FileBrowser::new(path("/home/user"), path("/trash"));
    let target = path("/tmp/drag-target");

    assert_eq!(browser.file_drag_drop_intent(&vec![], &target), FileDragDropIntent::Move);

    browser.keyboard_modifiers = modifiers(true, false, false);
    assert_eq!(browser.file_drag_drop_intent(&vec![], &target), FileDragDropIntent::Copy);

    browser.keyboard_modifiers = modifiers(false, true, false);
    assert_eq!(browser.file_drag_drop_intent(&vec![], &target), FileDragDropIntent::Move);
    browser.keyboard_modifiers = modifiers(true, true, false);
    assert_eq!(browser.file_drag_drop_intent(&vec![], &target), FileDragDropIntent::Move);

    browser.keyboard_modifiers = modifiers(false, false, true);
    assert_eq!(browser.file_drag_drop_intent(&vec![], &target), FileDragDropIntent::CreateLink);
    browser.keyboard_modifiers = modifiers(true, false, true);
    assert_eq!(browser.file_drag_drop_intent(&vec![], &target), FileDragDropIntent::Copy);
}

#[test]
fn alt_drag_intent_falls_back_to_move_on_remote_mount() {
    let mut browser = FileBrowser::new(path("/home/user"), path("/trash"));
    browser.remote_mount_roots = vec![path("/run/user/1000/gvfs")];
    browser.keyboard_modifiers = modifiers(false, false, true);

    let remote_source = path("/run/user/1000/gvfs/mtp/DCIM/photo.jpg");
    let local_source = path("/home/user/photo.jpg");
    let local_target = path("/home/user/photos");
    let remote_target = path("/run/user/1000/gvfs/mtp/DCIM");

    assert_eq!(browser.file_drag_drop_intent(&vec![remote_source], &local_target), FileDragDropIntent::Move);
    assert_eq!(
        browser.file_drag_drop_intent(&vec![local_source.clone()], &remote_target),
        FileDragDropIntent::Move
    );
    assert_eq!(
        browser.file_drag_drop_intent(&vec![local_source], &local_target),
        FileDragDropIntent::CreateLink
    );
}

fn dragging_browser(sources: Vec<FsPath>) -> FileBrowser {
    let mut browser = FileBrowser::new(path("/tmp/work"), path("/trash"));
    browser.file_drag = Some(FileDragState { sources, dragging: true });
    browser.file_drop_session = Some(FileDropSession { hovered_target: None });
    browser
}

#[test]
fn drag_action_capsule_label_follows_target_and_intent() {
    let source = path("/tmp/work/report.pdf");
    let project = path("/tmp/work/project");
    let mut browser = FileBrowser::new(path("/tmp/work"), path("/trash"));
    assert!(browser.file_drag_action_capsule_label().is_none());

    browser = dragging_browser(vec![source.clone()]);
    assert!(browser.file_drag_action_capsule_label().is_none());

    browser.set_file_drag_target(project.clone());
    assert_eq!(browser.file_drag_action_capsule_label().as_deref(), Some("Move to project"));

    browser.hovered_entry = Some(source.clone());
    assert!(browser.file_drag_action_capsule_label().is_none());
    browser.hovered_entry = None;

    browser.set_file_drag_target(path("/tmp/work"));
    assert!(browser.file_drag_action_capsule_label().is_none());
    browser.keyboard_modifiers = modifiers(true, false, false);
    assert_eq!(browser.file_drag_action_capsule_label().as_deref(), Some("Copy to work"));
    browser.keyboard_modifiers = modifiers(false, false, false);

    browser.set_file_drag_target(project.clone());
    assert_eq!(browser.file_drag_action_capsule_label().as_deref(), Some("Move to project"));
    browser.keyboard_modifiers = modifiers(true, false, false);
    assert_eq!(browser.file_drag_action_capsule_label().as_deref(), Some("Copy to project"));
    browser.keyboard_modifiers = modifiers(false, false, true);
    assert_eq!(browser.file_drag_action_capsule_label().as_deref(), Some("Create link to project"));

    browser.set_file_drop_target(Some(FileDropTarget::Trash));
    assert_eq!(browser.file_drag_action_capsule_label().as_deref(), Some("Move to Trash"));

    browser.set_file_drop_target(Some(FileDropTarget::SidebarBookmarkSlot(0)));
    assert!(browser.file_drag_action_capsule_label().is_none());
}

#[test]
fn drag_action_capsule_shows_when_batch_partially_no_op() {
    let folder = path("/tmp/work/project");
    let sibling = path("/tmp/work/report.pdf");
    let mut browser = dragging_browser(vec![folder.clone(), sibling]);

    browser.set_file_drag_target(folder);
    assert_eq!(browser.file_drag_action_capsule_label().as_deref(), Some("Move to project"));

    browser.set_file_drag_target(path("/tmp/work"));
    assert!(browser.file_drag_action_capsule_label().is_none());
}

#[test]
fn root_drop_target_is_labelled_with_the_full_path() {
    let mut browser = dragging_browser(vec![path("/tmp/work/report.pdf")]);
    browser.set_file_drag_target(FsPath::root());
    assert_eq!(browser.file_drag_action_capsule_label().as_deref(), Some("Move to /"));
}

#[test]
fn leaving_the_hovered_directory_clears_only_that_target() {
    let mut browser = dragging_browser(vec![path("/tmp/work/report.pdf")]);
    browser.set_file_drag_target(path("/tmp/work/project"));
    browser.clear_file_drag_target_if_matching(&path("/tmp/work/other"));
    assert_eq!(
        browser.file_drop_session.as_ref().unwrap().hovered_target,
        Some(FileDropTarget::Directory(path("/tmp/work/project")))
    );
    browser.clear_file_drag_target_if_matching(&path("/tmp/work/project"));
    assert_eq!(browser.file_drop_session.as_ref().unwrap().hovered_target, None);

    browser.set_file_drop_target(Some(FileDropTarget::Trash));
    browser.clear_file_drag_target_if_matching(&path("/trash"));
    assert_eq!(browser.file_drop_session.as_ref().unwrap().hovered_target, None);
}

#[test]
fn copied_paths_join_in_visible_order_without_uri_prefix() {
    let paths = vec![path("/tmp/a b.txt"), path("/tmp/第二")];

    let text = copied_paths_text(&paths);

    assert_eq!(text, "/tmp/a b.txt\n/tmp/第二");
    assert!(!text.contains("file://"));
}

#[test]
fn single_path_copies_without_trailing_newline() {
    let text = copied_paths_text(&vec![path("/tmp/report.pdf")]);

    assert_eq!(text, "/tmp/report.pdf");
}
