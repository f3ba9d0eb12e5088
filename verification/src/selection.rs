//! Where pastes and drops land, which sources a move would leave untouched,
//! the drag capsule text, and the destructive-action confirmation.

use vstd::prelude::*;
use crate::browser::{
    DestructiveActionConfirmation, FileBrowser, FileDropSession, FileDropTarget,
    TabDropDestination,
};
use crate::config::BrowserViewMode;
use crate::naming::path_views;
use crate::panes::{find_pane, find_pane_from, BrowserPaneId};
use crate::operations::{QueuedFileOperation, QueuedTransfer, TransferModel, transfer_views};
use crate::paths::{
    FsPath, PathModel, file_name_spec, join_spec, move_is_no_op, move_is_no_op_spec, parent_spec,
    path_text, starts_with_spec,
};

verus! {

// ---------------------------------------------------------------------------
// Sources and paste targets
// ---------------------------------------------------------------------------

/// The paths of `paths` whose parent is `directory`, in order.
pub open spec fn children_of(paths: Seq<PathModel>, directory: PathModel) -> Seq<PathModel>
    decreases paths.len(),
{
    if paths.len() == 0 {
        Seq::empty()
    } else {
        let rest = children_of(paths.drop_last(), directory);
        if parent_spec(paths.last()) == Some(directory) {
            rest.push(paths.last())
        } else {
            rest
        }
    }
}

/// `gather_sources_in_directory`: only the selected paths directly inside
/// `directory` are gathered; selections in other columns stay where they are.
pub fn gather_sources_in_directory(selected: &Vec<FsPath>, directory: &FsPath) -> (sources: Vec<FsPath>)
    ensures
        path_views(sources@) == children_of(path_views(selected@), directory@),
{
    let mut sources: Vec<FsPath> = Vec::new();
    let mut i: usize = 0;
    while i < selected.len()
        invariant
            i <= selected@.len(),
            path_views(sources@) == children_of(path_views(selected@).take(i as int), directory@),
        decreases selected@.len() - i,
    {
        let ghost prefix = path_views(selected@).take(i + 1);
        assert(prefix.drop_last() =~= path_views(selected@).take(i as int));
        assert(prefix.last() == selected@[i as int]@);
        if selected[i].parent_is(directory) {
            sources.push(selected[i].duplicate());
            assert(path_views(sources@) =~= children_of(prefix, directory@));
        }
        i = i + 1;
    }
    assert(path_views(selected@).take(selected@.len() as int) =~= path_views(selected@));
    sources
}

/// The transfers a move of `sources` into `directory` queues: each source
/// with a file name goes to `directory/<name>`, skipping sources the move
/// would leave where they are.
pub open spec fn move_transfers_spec(sources: Seq<PathModel>, directory: PathModel) -> Seq<
    TransferModel,
>
    decreases sources.len(),
{
    if sources.len() == 0 {
        Seq::empty()
    } else {
        let rest = move_transfers_spec(sources.drop_last(), directory);
        let source = sources.last();
        match file_name_spec(source) {
            Some(name) => if move_is_no_op_spec(source, directory) {
                rest
            } else {
                rest.push(
                    TransferModel {
                        source: source,
                        target: join_spec(directory, name),
                        conflict_strategy: crate::operations::TransferConflictStrategy::Replace,
                    },
                )
            },
            None => rest,
        }
    }
}

/// `move_paste_transfers`.
pub fn move_paste_transfers(paste_directory: &FsPath, sources: &Vec<FsPath>) -> (transfers: Vec<QueuedTransfer>)
    ensures
        transfer_views(transfers@) == move_transfers_spec(path_views(sources@), paste_directory@),
{
    let mut transfers: Vec<QueuedTransfer> = Vec::new();
    let mut i: usize = 0;
    while i < sources.len()
        invariant
            i <= sources@.len(),
            transfer_views(transfers@) == move_transfers_spec(
                path_views(sources@).take(i as int),
                paste_directory@,
            ),
        decreases sources@.len() - i,
    {
        let ghost prefix = path_views(sources@).take(i + 1);
        assert(prefix.drop_last() =~= path_views(sources@).take(i as int));
        assert(prefix.last() == sources@[i as int]@);
        let source = &sources[i];
        match source.file_name() {
            Some(name) => {
                if !move_is_no_op(source, paste_directory) {
                    let target = paste_directory.join_name(name.as_str());
                    transfers.push(QueuedTransfer::new(source.duplicate(), target));
                    assert(transfer_views(transfers@) =~= move_transfers_spec(
                        prefix,
                        paste_directory@,
                    ));
                }
            },
            None => {},
        }
        i = i + 1;
    }
    assert(path_views(sources@).take(sources@.len() as int) =~= path_views(sources@));
    transfers
}

pub open spec fn option_path_view(path: Option<FsPath>) -> Option<PathModel> {
    match path {
        Some(p) => Some(p@),
        None => None,
    }
}

/// The active column's directory: the focused column, else the deepest open
/// column, else the current directory.
pub open spec fn active_column_directory(browser: FileBrowser) -> PathModel {
    match browser.focused_column_directory {
        Some(p) => p@,
        None => match browser.deepest_open_column_directory {
            Some(p) => p@,
            None => browser.current_dir@,
        },
    }
}

pub open spec fn keyboard_paste_directory_spec(browser: FileBrowser) -> PathModel {
    if browser.view_mode != BrowserViewMode::Columns || browser.search_workspace_open {
        match browser.cursor_paste_directory {
            Some(p) => p@,
            None => browser.current_dir@,
        }
    } else {
        active_column_directory(browser)
    }
}

/// Where a paste lands: the context menu's directory when a menu offering
/// one is open, else the keyboard paste directory.
pub open spec fn paste_target_spec(browser: FileBrowser) -> PathModel {
    match browser.context_menu {
        Some(menu) => match menu.paste_directory {
            Some(p) => p@,
            None => keyboard_paste_directory_spec(browser),
        },
        None => keyboard_paste_directory_spec(browser),
    }
}

impl FileBrowser {
    fn active_column_directory_path(&self) -> (directory: FsPath)
        ensures
            directory@ == active_column_directory(*self),
    {
        match &self.focused_column_directory {
            Some(p) => p.duplicate(),
            None => match &self.deepest_open_column_directory {
                Some(p) => p.duplicate(),
                None => self.current_dir.duplicate(),
            },
        }
    }

    /// Where "new folder from selection" gathers: the active column in the
    /// columns view, the current directory otherwise.
    pub fn gather_target_directory(&self) -> (directory: FsPath)
        ensures
            directory@ == (if self.view_mode != BrowserViewMode::Columns {
                self.current_dir@
            } else {
                active_column_directory(*self)
            }),
    {
        if self.view_mode != BrowserViewMode::Columns {
            return self.current_dir.duplicate();
        }
        self.active_column_directory_path()
    }

    /// Where a keyboard paste lands: the active column in the columns view
    /// (the pointer does not matter there); with the search overlay open or in
    /// the list and icon views, the directory under the pointer, else the
    /// current directory.
    pub fn keyboard_paste_directory(&self) -> (directory: FsPath)
        ensures
            directory@ == keyboard_paste_directory_spec(*self),
    {
        if self.view_mode != BrowserViewMode::Columns || self.search_workspace_open {
            return match &self.cursor_paste_directory {
                Some(p) => p.duplicate(),
                None => self.current_dir.duplicate(),
            };
        }
        self.active_column_directory_path()
    }

    /// Where a paste lands: the context menu's directory when a menu offering
    /// one is open, else the keyboard paste directory.
    pub fn paste_target_directory(&self) -> (directory: FsPath)
        ensures
            directory@ == paste_target_spec(*self),
    {
        match &self.context_menu {
            Some(menu) => match &menu.paste_directory {
                Some(p) => p.duplicate(),
                None => self.keyboard_paste_directory(),
            },
            None => self.keyboard_paste_directory(),
        }
    }
}

// ---------------------------------------------------------------------------
// Destructive actions
// ---------------------------------------------------------------------------

pub open spec fn all_remote(roots: Seq<PathModel>, paths: Seq<PathModel>) -> bool {
    forall|i: int| 0 <= i < paths.len() ==> is_remote_path(roots, #[trigger] paths[i])
}

pub open spec fn all_local(roots: Seq<PathModel>, paths: Seq<PathModel>) -> bool {
    forall|i: int| 0 <= i < paths.len() ==> !is_remote_path(roots, #[trigger] paths[i])
}

/// Whether `path` lies under one of the network mount points.
pub open spec fn is_remote_path(roots: Seq<PathModel>, path: PathModel) -> bool {
    exists|i: int| 0 <= i < roots.len() && starts_with_spec(path, #[trigger] roots[i])
}

impl FileBrowser {
    /// Shows `confirmation`, closing the conflict dialog, the context menu and
    /// the queue panel.
    pub fn request_destructive_action_confirmation(
        &mut self,
        confirmation: DestructiveActionConfirmation,
    )
        ensures
            final(self).destructive_action_confirmation == Some(confirmation),
            final(self).context_menu is None,
            final(self).transfer_conflict is None,
            !final(self).operation_queue.panel_open,
            final(self).operation_queue.tasks == old(self).operation_queue.tasks,
            *final(self) == (FileBrowser {
                destructive_action_confirmation: Some(confirmation),
                context_menu: None,
                transfer_conflict: None,
                operation_queue: final(self).operation_queue,
                ..*old(self)
            }),
    {
        self.destructive_action_confirmation = Some(confirmation);
        self.transfer_conflict = None;
        self.context_menu = None;
        self.operation_queue.close_panel();
    }

    pub fn cancel_destructive_action(&mut self)
        ensures
            *final(self) == (FileBrowser { destructive_action_confirmation: None, ..*old(self) }),
            old(self).collections_well_formed() ==> final(self).collections_well_formed(),
    {
        self.destructive_action_confirmation = None;
    }

    /// Whether `path` is on a network mount.
    pub fn path_is_remote_mount(&self, path: &FsPath) -> (remote: bool)
        ensures
            remote == is_remote_path(path_views(self.remote_mount_roots@), path@),
    {
        let mut i: usize = 0;
        while i < self.remote_mount_roots.len()
            invariant
                i <= self.remote_mount_roots@.len(),
                forall|j: int|
                    0 <= j < i ==> !starts_with_spec(
                        path@,
                        #[trigger] path_views(self.remote_mount_roots@)[j],
                    ),
            decreases self.remote_mount_roots@.len() - i,
        {
            if path.starts_with(&self.remote_mount_roots[i]) {
                assert(starts_with_spec(path@, path_views(self.remote_mount_roots@)[i as int]));
                return true;
            }
            i = i + 1;
        }
        false
    }

    /// Trashes `paths`: local paths go to the trash queue; remote paths, which
    /// have no trash, need confirmation for permanent deletion; a mix of both
    /// is refused with an error so local files keep their trash.
    pub fn trash_explicit_paths(&mut self, paths: Vec<FsPath>)
        ensures
            ({
                let roots = path_views(old(self).remote_mount_roots@);
                let views = path_views(paths@);
                if views.len() == 0 {
                    *final(self) == (FileBrowser { context_menu: None, ..*old(self) })
                } else if all_local(roots, views) {
                    &&& final(self).operation_queue.tasks@ == old(self).operation_queue.tasks@.push(
                        QueuedFileOperation::Trash { paths: paths },
                    )
                    &&& *final(self) == (FileBrowser {
                        context_menu: None,
                        operation_queue: final(self).operation_queue,
                        ..*old(self)
                    })
                    &&& final(self).operation_queue.panel_open == old(self).operation_queue.panel_open
                } else if all_remote(roots, views) {
                    &&& final(self).destructive_action_confirmation == Some(
                        DestructiveActionConfirmation::DeletePermanently { paths: paths },
                    )
                    &&& final(self).operation_queue.tasks == old(self).operation_queue.tasks
                    &&& !final(self).operation_queue.panel_open
                    &&& *final(self) == (FileBrowser {
                        context_menu: None,
                        destructive_action_confirmation: final(self).destructive_action_confirmation,
                        transfer_conflict: None,
                        operation_queue: final(self).operation_queue,
                        ..*old(self)
                    })
                } else {
                    &&& final(self).global_error matches Some(e) && e@
                        == "Delete local and remote items separately so local files can use Trash"@
                    &&& *final(self) == (FileBrowser {
                        context_menu: None,
                        global_error: final(self).global_error,
                        ..*old(self)
                    })
                }
            }),
            old(self).collections_well_formed() ==> final(self).collections_well_formed(),
    {
        self.context_menu = None;
        if paths.len() == 0 {
            return ;
        }
        let mut remote_count: usize = 0;
        let mut i: usize = 0;
        let ghost roots = path_views(self.remote_mount_roots@);
        let ghost views = path_views(paths@);
        while i < paths.len()
            invariant
                i <= paths@.len(),
                roots == path_views(self.remote_mount_roots@),
                views == path_views(paths@),
                remote_count <= i,
                remote_count == 0 ==> forall|j: int|
                    0 <= j < i ==> !is_remote_path(roots, #[trigger] views[j]),
                remote_count == i ==> forall|j: int|
                    0 <= j < i ==> is_remote_path(roots, #[trigger] views[j]),
                (0 < remote_count < i) ==> (exists|a: int|
                    0 <= a < i && is_remote_path(roots, #[trigger] views[a])) && (exists|b: int|
                    0 <= b < i && !is_remote_path(roots, #[trigger] views[b])),
            decreases paths@.len() - i,
        {
            let remote = self.path_is_remote_mount(&paths[i]);
            proof {
                let v = views[i as int];
                assert(v == paths@[i as int]@);
                if remote_count > 0 && remote_count < i {
                    let a = choose|a: int| 0 <= a < i && is_remote_path(roots, #[trigger] views[a]);
                    let b = choose|b: int| 0 <= b < i && !is_remote_path(roots, #[trigger] views[b]);
                    assert(0 <= a < i + 1 && 0 <= b < i + 1);
                }
                if remote && remote_count == 0 && i > 0 {
                    assert(!is_remote_path(roots, views[0]));
                }
                if !remote && remote_count == i && i > 0 {
                    assert(is_remote_path(roots, views[0]));
                }
            }
            if remote {
                remote_count = remote_count + 1;
            }
            i = i + 1;
        }
        proof {
            if remote_count == paths@.len() {
                assert(is_remote_path(roots, views[0]));
            }
            if remote_count == 0 {
                assert(!is_remote_path(roots, views[0]));
            }
        }
        if remote_count == 0 {
            self.operation_queue.enqueue(QueuedFileOperation::Trash { paths });
        } else if remote_count == paths.len() {
            self.request_destructive_action_confirmation(
                DestructiveActionConfirmation::DeletePermanently { paths },
            );
        } else {
            self.show_global_error(
                String::from_str("Delete local and remote items separately so local files can use Trash"),
            );
        }
    }

    /// Carries out the confirmed action: permanent deletion of a non-empty
    /// path list, or emptying the trash.
    pub fn confirm_destructive_action(&mut self)
        ensures
            match old(self).destructive_action_confirmation {
                Some(DestructiveActionConfirmation::DeletePermanently { paths }) => if paths@.len()
                    == 0 {
                    *final(self) == (FileBrowser {
                        destructive_action_confirmation: None,
                        ..*old(self)
                    })
                } else {
                    &&& final(self).operation_queue.tasks@ == old(self).operation_queue.tasks@.push(
                        QueuedFileOperation::DeletePermanently { paths: paths },
                    )
                    &&& final(self).operation_queue.panel_open == old(self).operation_queue.panel_open
                    &&& *final(self) == (FileBrowser {
                        destructive_action_confirmation: None,
                        operation_queue: final(self).operation_queue,
                        ..*old(self)
                    })
                },
                Some(DestructiveActionConfirmation::EmptyTrash) => {
                    &&& final(self).operation_queue.tasks@ == old(self).operation_queue.tasks@.push(
                        QueuedFileOperation::EmptyTrash,
                    )
                    &&& final(self).operation_queue.panel_open == old(self).operation_queue.panel_open
                    &&& *final(self) == (FileBrowser {
                        destructive_action_confirmation: None,
                        operation_queue: final(self).operation_queue,
                        ..*old(self)
                    })
                },
                None => *final(self) == *old(self),
            },
            old(self).collections_well_formed() ==> final(self).collections_well_formed(),
    {
        let confirmation = match self.destructive_action_confirmation.take() {
            Some(confirmation) => confirmation,
            None => return ,
        };
        match confirmation {
            DestructiveActionConfirmation::DeletePermanently { paths } => {
                if paths.len() > 0 {
                    self.operation_queue.enqueue(QueuedFileOperation::DeletePermanently { paths });
                }
            },
            DestructiveActionConfirmation::EmptyTrash => {
                self.operation_queue.enqueue(QueuedFileOperation::EmptyTrash);
            },
        }
    }
}

// ---------------------------------------------------------------------------
// Drop targets
// ---------------------------------------------------------------------------

/// Whether dropping `sources` on `target` would move at least one of them
/// onto itself, into itself, or into the directory it already is in.
pub open spec fn directory_target_needs_fallback(sources: Seq<PathModel>, target: PathModel) -> bool {
    exists|i: int| 0 <= i < sources.len() && move_is_no_op_spec(#[trigger] sources[i], target)
}

/// `file_drag_directory_target_needs_fallback`.
pub fn file_drag_directory_target_needs_fallback(sources: &Vec<FsPath>, target: &FsPath) -> (needs_fallback: bool)
    ensures
        needs_fallback == directory_target_needs_fallback(path_views(sources@), target@),
{
    let mut i: usize = 0;
    while i < sources.len()
        invariant
            i <= sources@.len(),
            forall|j: int|
                0 <= j < i ==> !move_is_no_op_spec(#[trigger] path_views(sources@)[j], target@),
        decreases sources@.len() - i,
    {
        if move_is_no_op(&sources[i], target) {
            assert(move_is_no_op_spec(path_views(sources@)[i as int], target@));
            return true;
        }
        i = i + 1;
    }
    false
}

/// The abstract value of a drop target.
pub enum DropTargetModel {
    Directory(PathModel),
    Trash,
    SidebarBookmarkSlot(usize),
    TabDirectory(usize, PathModel),
    TabTrash(usize),
}

pub open spec fn drop_target_view(target: FileDropTarget) -> DropTargetModel {
    match target {
        FileDropTarget::Directory(p) => DropTargetModel::Directory(p@),
        FileDropTarget::Trash => DropTargetModel::Trash,
        FileDropTarget::SidebarBookmarkSlot(slot) => DropTargetModel::SidebarBookmarkSlot(slot),
        FileDropTarget::Tab { tab_id, destination } => match destination {
            TabDropDestination::Directory(p) => DropTargetModel::TabDirectory(tab_id, p@),
            TabDropDestination::Trash => DropTargetModel::TabTrash(tab_id),
        },
    }
}

pub open spec fn option_drop_target_view(target: Option<FileDropTarget>) -> Option<DropTargetModel> {
    match target {
        Some(t) => Some(drop_target_view(t)),
        None => None,
    }
}

/// `safe_file_drop_target`: a directory target that would be a no-op move for
/// some source is dropped; other targets pass.
pub fn safe_file_drop_target(sources: &Vec<FsPath>, target: Option<FileDropTarget>) -> (safe: Option<FileDropTarget>)
    ensures
        option_drop_target_view(safe) == match target {
            Some(FileDropTarget::Directory(directory)) => if directory_target_needs_fallback(
                path_views(sources@),
                directory@,
            ) {
                None
            } else {
                Some(DropTargetModel::Directory(directory@))
            },
            _ => option_drop_target_view(target),
        },
{
    match target {
        Some(FileDropTarget::Directory(directory)) => {
            if file_drag_directory_target_needs_fallback(sources, &directory) {
                None
            } else {
                Some(FileDropTarget::Directory(directory))
            }
        },
        other => other,
    }
}

/// `resolve_file_drag_target`: a release over a directory wins; a directory
/// target that would be a no-op move falls back to `fallback_directory` when
/// there is one; without a target the fallback directory is used.
pub fn resolve_file_drag_target(
    sources: &Vec<FsPath>,
    release_directory: Option<FsPath>,
    target: Option<FileDropTarget>,
    fallback_directory: Option<FsPath>,
) -> (resolved: Option<FileDropTarget>)
    ensures
        option_drop_target_view(resolved) == match release_directory {
            Some(release) => Some(DropTargetModel::Directory(release@)),
            None => match target {
                Some(FileDropTarget::Directory(directory)) => if directory_target_needs_fallback(
                    path_views(sources@),
                    directory@,
                ) {
                    match fallback_directory {
                        Some(fallback) => Some(DropTargetModel::Directory(fallback@)),
                        None => Some(DropTargetModel::Directory(directory@)),
                    }
                } else {
                    Some(DropTargetModel::Directory(directory@))
                },
                Some(other) => Some(drop_target_view(other)),
                None => match fallback_directory {
                    Some(fallback) => Some(DropTargetModel::Directory(fallback@)),
                    None => None,
                },
            },
        },
{
    if let Some(release_directory) = release_directory {
        return Some(FileDropTarget::Directory(release_directory));
    }
    match target {
        Some(FileDropTarget::Directory(target_directory)) => {
            if file_drag_directory_target_needs_fallback(sources, &target_directory) {
                match fallback_directory {
                    Some(fallback) => Some(FileDropTarget::Directory(fallback)),
                    None => Some(FileDropTarget::Directory(target_directory)),
                }
            } else {
                Some(FileDropTarget::Directory(target_directory))
            }
        },
        Some(other) => Some(other),
        None => match fallback_directory {
            Some(fallback) => Some(FileDropTarget::Directory(fallback)),
            None => None,
        },
    }
}

// ---------------------------------------------------------------------------
// Drop intent and capsule
// ---------------------------------------------------------------------------

/// What dropping dragged files does.
#[derive(Debug, Clone, Copy, PartialEq, Eq, Structural)]
pub enum FileDragDropIntent {
    Move,
    Copy,
    CreateLink,
}

/// Ctrl (without Shift) copies; Alt links when neither side is on a network
/// mount and Shift is up; everything else moves.
pub open spec fn drop_intent_spec(browser: FileBrowser, sources: Seq<PathModel>, target: PathModel) -> FileDragDropIntent {
    let modifiers = browser.keyboard_modifiers;
    let roots = path_views(browser.remote_mount_roots@);
    if modifiers.control && !modifiers.shift {
        FileDragDropIntent::Copy
    } else if modifiers.alt && !modifiers.shift && (forall|i: int|
        0 <= i < sources.len() ==> !is_remote_path(roots, #[trigger] sources[i]))
        && !is_remote_path(roots, target) {
        FileDragDropIntent::CreateLink
    } else {
        FileDragDropIntent::Move
    }
}

/// The label shown for dropping into a directory: its file name, or the
/// whole path when it has none (the root).
pub open spec fn display_directory_name_spec(directory: PathModel) -> Seq<char> {
    match file_name_spec(directory) {
        Some(name) => name,
        None => path_text(directory),
    }
}

pub open spec fn transfer_label_spec(intent: FileDragDropIntent, directory: PathModel) -> Seq<char> {
    let name = display_directory_name_spec(directory);
    match intent {
        FileDragDropIntent::Copy => "Copy to "@ + name,
        FileDragDropIntent::CreateLink => "Create link to "@ + name,
        FileDragDropIntent::Move => "Move to "@ + name,
    }
}

/// `display_directory_name`.
pub fn display_directory_name(directory: &FsPath) -> (name: String)
    ensures
        name@ == display_directory_name_spec(directory@),
{
    match directory.file_name() {
        Some(name) => name,
        None => directory.to_text(),
    }
}

/// `file_drag_transfer_label`: the capsule text for dropping into
/// `directory` (the English message key; display translates it).
pub fn file_drag_transfer_label(intent: FileDragDropIntent, directory: &FsPath) -> (label: String)
    ensures
        label@ == transfer_label_spec(intent, directory@),
{
    let name = display_directory_name(directory);
    let mut label = match intent {
        FileDragDropIntent::Copy => String::from_str("Copy to "),
        FileDragDropIntent::CreateLink => String::from_str("Create link to "),
        FileDragDropIntent::Move => String::from_str("Move to "),
    };
    label.append(name.as_str());
    label
}

/// Every source would stay where it is if moved into `directory`.
pub open spec fn all_moves_are_no_ops(sources: Seq<PathModel>, directory: PathModel) -> bool {
    forall|i: int| 0 <= i < sources.len() ==> move_is_no_op_spec(#[trigger] sources[i], directory)
}

pub open spec fn directory_capsule_spec(browser: FileBrowser, sources: Seq<PathModel>, directory: PathModel) -> Option<Seq<char>> {
    let intent = drop_intent_spec(browser, sources, directory);
    if intent == FileDragDropIntent::Move && all_moves_are_no_ops(sources, directory) {
        None
    } else {
        Some(transfer_label_spec(intent, directory))
    }
}

pub open spec fn option_text_view(text: Option<String>) -> Option<Seq<char>> {
    match text {
        Some(t) => Some(t@),
        None => None,
    }
}

impl FileBrowser {
    /// `file_drag_drop_intent`: the intent read from the modifiers held now.
    pub fn file_drag_drop_intent(&self, sources: &Vec<FsPath>, target_directory: &FsPath) -> (intent: FileDragDropIntent)
        ensures
            intent == drop_intent_spec(*self, path_views(sources@), target_directory@),
    {
        let modifiers = self.keyboard_modifiers;
        if modifiers.control && !modifiers.shift {
            return FileDragDropIntent::Copy;
        }
        if !modifiers.alt || modifiers.shift {
            return FileDragDropIntent::Move;
        }
        let mut i: usize = 0;
        while i < sources.len()
            invariant
                i <= sources@.len(),
                modifiers == self.keyboard_modifiers,
                modifiers.alt && !modifiers.shift && !modifiers.control,
                forall|j: int|
                    0 <= j < i ==> !is_remote_path(
                        path_views(self.remote_mount_roots@),
                        #[trigger] path_views(sources@)[j],
                    ),
            decreases sources@.len() - i,
        {
            if self.path_is_remote_mount(&sources[i]) {
                assert(is_remote_path(
                    path_views(self.remote_mount_roots@),
                    path_views(sources@)[i as int],
                ));
                return FileDragDropIntent::Move;
            }
            i = i + 1;
        }
        if self.path_is_remote_mount(target_directory) {
            return FileDragDropIntent::Move;
        }
        FileDragDropIntent::CreateLink
    }

    /// `file_drag_directory_capsule`: hidden when the drop would move nothing
    /// (every source is the directory, inside it, or already in it).
    pub fn file_drag_directory_capsule(&self, sources: &Vec<FsPath>, directory: &FsPath) -> (capsule: Option<String>)
        ensures
            option_text_view(capsule) == directory_capsule_spec(
                *self,
                path_views(sources@),
                directory@,
            ),
    {
        let intent = self.file_drag_drop_intent(sources, directory);
        if intent == FileDragDropIntent::Move {
            let mut i: usize = 0;
            let mut all_no_op = true;
            while i < sources.len()
                invariant
                    i <= sources@.len(),
                    all_no_op == all_moves_are_no_ops(
                        path_views(sources@).take(i as int),
                        directory@,
                    ),
                decreases sources@.len() - i,
            {
                let ghost before = path_views(sources@).take(i as int);
                let ghost after = path_views(sources@).take(i + 1);
                assert(after[i as int] == sources@[i as int]@);
                if !move_is_no_op(&sources[i], directory) {
                    all_no_op = false;
                }
                proof {
                    if all_no_op {
                        assert forall|j: int| 0 <= j < after.len() implies move_is_no_op_spec(
                            #[trigger] after[j],
                            directory@,
                        ) by {
                            if j < i {
                                assert(after[j] == before[j]);
                            }
                        }
                    } else if !move_is_no_op_spec(after[i as int], directory@) {
                    } else {
                        let k = choose|k: int|
                            0 <= k < before.len() && !move_is_no_op_spec(
                                #[trigger] before[k],
                                directory@,
                            );
                        assert(after[k] == before[k]);
                    }
                }
                i = i + 1;
            }
            assert(path_views(sources@).take(sources@.len() as int) =~= path_views(sources@));
            if all_no_op {
                return None;
            }
        }
        Some(file_drag_transfer_label(intent, directory))
    }

    /// `file_drag_action_capsule_label`: the capsule shown while dragging.
    /// Nothing without an active drag, while the pointer rests on a dragged
    /// source, without a hovered target, or over a sidebar bookmark slot.
    pub fn file_drag_action_capsule_label(&self) -> (label: Option<String>)
        ensures
            option_text_view(label) == capsule_label_spec(*self),
    {
        let drag = match &self.file_drag {
            Some(drag) => drag,
            None => return None,
        };
        if !drag.dragging {
            return None;
        }
        if let Some(hovered) = &self.hovered_entry {
            if crate::naming::contains_path(&drag.sources, hovered) {
                return None;
            }
        }
        let session = match &self.file_drop_session {
            Some(session) => session,
            None => return None,
        };
        match &session.hovered_target {
            Some(FileDropTarget::Directory(directory)) => self.file_drag_directory_capsule(
                &drag.sources,
                directory,
            ),
            Some(FileDropTarget::Trash) => Some(String::from_str("Move to Trash")),
            Some(FileDropTarget::Tab { tab_id: _, destination }) => match destination {
                TabDropDestination::Trash => Some(String::from_str("Move to Trash")),
                TabDropDestination::Directory(directory) => self.file_drag_directory_capsule(
                    &drag.sources,
                    directory,
                ),
            },
            Some(FileDropTarget::SidebarBookmarkSlot(_)) => None,
            None => None,
        }
    }

    /// Sets the hovered drop target of the running drop session.
    pub fn set_file_drop_target(&mut self, target: Option<FileDropTarget>)
        ensures
            *final(self) == (FileBrowser {
                file_drop_session: match old(self).file_drop_session {
                    Some(_) => Some(FileDropSession { hovered_target: target }),
                    None => None,
                },
                ..*old(self)
            }),
            old(self).collections_well_formed() ==> final(self).collections_well_formed(),
    {
        if self.file_drop_session.is_some() {
            self.file_drop_session = Some(FileDropSession { hovered_target: target });
        }
    }

    /// `file_drag_drop_directory_at_cursor`: a file drag over another
    /// pane (`pane_at_cursor`, as the pane layout's geometry finds it) drops
    /// into the directory that pane shows, unless it shows the trash; over
    /// the active pane or no pane this gives nothing.
    pub fn file_drag_drop_directory_at_cursor(&self, pane_at_cursor: Option<BrowserPaneId>) -> (directory: Option<FsPath>)
        ensures
            option_path_view(directory) == match pane_at_cursor {
                Some(id) => if id == self.active_pane_id {
                    None
                } else {
                    match find_pane_from(self.panes@, id, 0) {
                        Some(i) => if self.panes@[i].is_trash_view {
                            None
                        } else {
                            Some(self.panes@[i].current_dir@)
                        },
                        None => None,
                    }
                },
                None => None,
            },
    {
        let id = match pane_at_cursor {
            Some(id) => id,
            None => return None,
        };
        if id == self.active_pane_id {
            return None;
        }
        match find_pane(&self.panes, id) {
            Some(i) => if self.panes[i].is_trash_view {
                None
            } else {
                Some(self.panes[i].current_dir.duplicate())
            },
            None => None,
        }
    }

    pub fn set_file_drag_target(&mut self, directory: FsPath)
        ensures
            *final(self) == (FileBrowser {
                file_drop_session: match old(self).file_drop_session {
                    Some(_) => Some(
                        FileDropSession { hovered_target: Some(FileDropTarget::Directory(directory)) },
                    ),
                    None => None,
                },
                ..*old(self)
            }),
            old(self).collections_well_formed() ==> final(self).collections_well_formed(),
    {
        self.set_file_drop_target(Some(FileDropTarget::Directory(directory)));
    }

    pub fn clear_file_drag_target(&mut self)
        ensures
            *final(self) == (FileBrowser {
                file_drop_session: match old(self).file_drop_session {
                    Some(_) => Some(FileDropSession { hovered_target: None }),
                    None => None,
                },
                ..*old(self)
            }),
            old(self).collections_well_formed() ==> final(self).collections_well_formed(),
    {
        self.set_file_drop_target(None);
    }

    /// Clears the hovered target when the pointer leaves `directory`: the
    /// target is that directory, or it is the trash and `directory` is the
    /// trash location.
    pub fn clear_file_drag_target_if_matching(&mut self, directory: &FsPath)
        ensures
            ({
                let matches = match old(self).file_drop_session {
                    Some(session) => match session.hovered_target {
                        Some(FileDropTarget::Directory(target)) => target@ == directory@,
                        Some(FileDropTarget::Trash) => directory@ == old(self).trash_location@,
                        _ => false,
                    },
                    None => false,
                };
                if matches {
                    *final(self) == (FileBrowser {
                        file_drop_session: Some(FileDropSession { hovered_target: None }),
                        ..*old(self)
                    })
                } else {
                    *final(self) == *old(self)
                }
            }),
            old(self).collections_well_formed() ==> final(self).collections_well_formed(),
    {
        let matches = match &self.file_drop_session {
            Some(session) => match &session.hovered_target {
                Some(FileDropTarget::Directory(target)) => target.same_as(directory),
                Some(FileDropTarget::Trash) => directory.same_as(&self.trash_location),
                _ => false,
            },
            None => false,
        };
        if matches {
            self.set_file_drop_target(None);
        }
    }
}

pub open spec fn capsule_label_spec(browser: FileBrowser) -> Option<Seq<char>> {
    match browser.file_drag {
        None => None,
        Some(drag) => if !drag.dragging {
            None
        } else if (browser.hovered_entry matches Some(h) && path_views(drag.sources@).contains(h@)) {
            None
        } else {
            match browser.file_drop_session {
                None => None,
                Some(session) => match session.hovered_target {
                    Some(FileDropTarget::Directory(directory)) => directory_capsule_spec(
                        browser,
                        path_views(drag.sources@),
                        directory@,
                    ),
                    Some(FileDropTarget::Trash) => Some("Move to Trash"@),
                    Some(FileDropTarget::Tab { tab_id: _, destination }) => match destination {
                        TabDropDestination::Trash => Some("Move to Trash"@),
                        TabDropDestination::Directory(directory) => directory_capsule_spec(
                            browser,
                            path_views(drag.sources@),
                            directory@,
                        ),
                    },
                    Some(FileDropTarget::SidebarBookmarkSlot(_)) => None,
                    None => None,
                },
            }
        },
    }
}

// ---------------------------------------------------------------------------
// Copying paths as text
// ---------------------------------------------------------------------------

/// The paths written out one per line, in order, without a trailing newline.
pub open spec fn paths_text(paths: Seq<PathModel>) -> Seq<char>
    decreases paths.len(),
{
    if paths.len() == 0 {
        Seq::empty()
    } else if paths.len() == 1 {
        path_text(paths[0])
    } else {
        paths_text(paths.drop_last()) + "\n"@ + path_text(paths.last())
    }
}

/// `copied_paths_text`: the text "copy path" puts on the clipboard.
pub fn copied_paths_text(paths: &Vec<FsPath>) -> (text: String)
    ensures
        text@ == paths_text(path_views(paths@)),
{
    let mut text = String::new();
    let mut i: usize = 0;
    while i < paths.len()
        invariant
            i <= paths@.len(),
            text@ == paths_text(path_views(paths@).take(i as int)),
        decreases paths@.len() - i,
    {
        let ghost before = path_views(paths@).take(i as int);
        let ghost after = path_views(paths@).take(i + 1);
        assert(after.drop_last() =~= before);
        assert(after.last() == paths@[i as int]@);
        if i > 0 {
            text.append("\n");
        }
        let line = paths[i].to_text();
        text.append(line.as_str());
        proof {
            if i == 0 {
                assert(text@ =~= paths_text(after));
            } else {
                assert(text@ =~= paths_text(after));
            }
        }
        i = i + 1;
    }
    assert(path_views(paths@).take(paths@.len() as int) =~= path_views(paths@));
    text
}

} // verus!
