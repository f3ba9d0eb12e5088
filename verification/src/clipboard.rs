//! Copy, cut, paste and the commands that act on the selection: what goes
//! on the clipboard, where a paste lands, which sources are read out of an
//! archive instead of transferred, and what gets queued.

use vstd::prelude::*;
use crate::browser::{DestructiveActionConfirmation, FileBrowser, FileKind};
use crate::conflict::TransferConflictMode;
use crate::config::BrowserViewMode;
use crate::naming::{
    contains_path, duplicate_parent, duplicate_source_name, first_free_duplicate, in_place_duplicate_target,
    is_first_free_duplicate, is_first_free_gathered_folder, lemma_first_free_duplicate_unique,
    path_views, unique_gathered_folder_directory,
};
use crate::operations::{
    QueuedFileOperation, QueuedTransfer, TransferConflictStrategy, TransferModel, transfer_views,
};
use crate::paths::{
    FsPath, PathModel, file_name_spec, join_spec, move_is_no_op_spec, parent_spec, starts_with_spec,
};
use crate::selection::{
    FileDragDropIntent, active_column_directory, children_of, copied_paths_text, drop_intent_spec,
    gather_sources_in_directory, move_paste_transfers, move_transfers_spec,
};
use crate::view_modes::entry_kind_spec;

verus! {

/// Whether the files on the clipboard are to be copied or moved.
#[derive(Debug, Clone, Copy, PartialEq, Eq, Structural)]
pub enum FileClipboardOperation {
    Copy,
    Move,
}

/// The browser's own record of the last copy or cut.
#[derive(Debug, Clone, PartialEq, Eq)]
pub enum PendingOperation {
    Copy(Vec<FsPath>),
    Move(Vec<FsPath>),
}

pub open spec fn pending_operation_kind(operation: PendingOperation) -> FileClipboardOperation {
    match operation {
        PendingOperation::Copy(_) => FileClipboardOperation::Copy,
        PendingOperation::Move(_) => FileClipboardOperation::Move,
    }
}

pub open spec fn pending_operation_paths(operation: PendingOperation) -> Seq<PathModel> {
    match operation {
        PendingOperation::Copy(paths) => path_views(paths@),
        PendingOperation::Move(paths) => path_views(paths@),
    }
}

/// How an entry is drawn while it sits on the clipboard.
#[derive(Debug, Clone, Copy, PartialEq, Eq, Structural)]
pub enum FileEntryContentModifier {
    /// Drawn as usual.
    Plain,
    /// Faded: cut, waiting to be moved by a paste.
    Cut,
    /// Marked as copied.
    Copied,
}

/// The modifier of `path` under `operation`: only an exact member of the
/// operation's paths is marked.
pub open spec fn content_modifier_spec(operation: PendingOperation, path: PathModel) -> FileEntryContentModifier {
    if !pending_operation_paths(operation).contains(path) {
        FileEntryContentModifier::Plain
    } else {
        match operation {
            PendingOperation::Copy(_) => FileEntryContentModifier::Copied,
            PendingOperation::Move(_) => FileEntryContentModifier::Cut,
        }
    }
}

impl PendingOperation {
    /// `content_modifier_for_path`.
    pub fn content_modifier_for_path(&self, path: &FsPath) -> (modifier: FileEntryContentModifier)
        ensures
            modifier == content_modifier_spec(*self, path@),
    {
        match self {
            PendingOperation::Copy(paths) => {
                if contains_path(paths, path) {
                    FileEntryContentModifier::Copied
                } else {
                    FileEntryContentModifier::Plain
                }
            },
            PendingOperation::Move(paths) => {
                if contains_path(paths, path) {
                    FileEntryContentModifier::Cut
                } else {
                    FileEntryContentModifier::Plain
                }
            },
        }
    }
}

impl FileBrowser {
    /// `file_entry_content_modifier`: how `path` is drawn under the
    /// clipboard operation waiting for a paste, if any.
    pub fn file_entry_content_modifier(&self, path: &FsPath) -> (modifier: FileEntryContentModifier)
        ensures
            modifier == match self.pending_operation {
                Some(operation) => content_modifier_spec(operation, path@),
                None => FileEntryContentModifier::Plain,
            },
    {
        match &self.pending_operation {
            Some(operation) => operation.content_modifier_for_path(path),
            None => FileEntryContentModifier::Plain,
        }
    }
}

impl FileBrowser {
    /// `select_operation_result_paths`: the paths a finished operation made
    /// become the selection (each once), the last of them the focused entry;
    /// an empty list leaves the selection as it is.
    pub fn select_operation_result_paths(&mut self, paths: Vec<FsPath>)
        ensures
            paths@.len() == 0 ==> *final(self) == *old(self),
            paths@.len() > 0 ==> {
                &&& path_views(final(self).selected_paths@) == first_occurrences(path_views(paths@))
                &&& final(self).selected matches Some(focused) && focused@ == paths@.last()@
                &&& *final(self) == (FileBrowser {
                    selected_paths: final(self).selected_paths,
                    selected: final(self).selected,
                    ..*old(self)
                })
            },
            old(self).collections_well_formed() ==> final(self).collections_well_formed(),
    {
        if paths.len() == 0 {
            return;
        }
        let last = paths[paths.len() - 1].duplicate();
        let mut kept: Vec<FsPath> = Vec::new();
        let mut i: usize = 0;
        while i < paths.len()
            invariant
                i <= paths@.len(),
                path_views(kept@) == first_occurrences(path_views(paths@).take(i as int)),
                path_views(kept@).no_duplicates(),
            decreases paths@.len() - i,
        {
            let ghost before = kept@;
            assert(path_views(paths@).take(i + 1).drop_last() =~= path_views(paths@).take(i as int));
            assert(path_views(paths@).take(i + 1).last() == paths@[i as int]@);
            if !contains_path(&kept, &paths[i]) {
                proof {
                    crate::panes::lemma_push_keeps_no_duplicates(path_views(before), paths@[i as int]@);
                }
                kept.push(paths[i].duplicate());
                assert(path_views(kept@) =~= path_views(before).push(paths@[i as int]@));
            }
            i = i + 1;
        }
        assert(path_views(paths@).take(paths@.len() as int) =~= path_views(paths@));
        self.selected = Some(last);
        self.selected_paths = kept;
    }
}

/// The elements of `items`, each at its first occurrence, in order.
pub open spec fn first_occurrences(items: Seq<PathModel>) -> Seq<PathModel>
    decreases items.len(),
{
    if items.len() == 0 {
        Seq::empty()
    } else {
        let rest = first_occurrences(items.drop_last());
        if rest.contains(items.last()) {
            rest
        } else {
            rest.push(items.last())
        }
    }
}

/// Files dropped on the browser, waiting for the user to pick copy or move.
#[derive(Debug, Clone, PartialEq, Eq)]
pub struct FileDropPrompt {
    pub paste_directory: FsPath,
    pub paths: Vec<FsPath>,
}

/// What the desktop clipboard holds.
#[derive(Debug, Clone, PartialEq, Eq)]
pub enum DesktopClipboardContent {
    Files { operation: FileClipboardOperation, paths: Vec<FsPath> },
    Text(String),
    /// An image, encoded as `extension` says.
    Image { extension: String, bytes: Vec<u8> },
}

/// What the clipboard commands ask of the desktop and the file system.
#[derive(Debug, Clone, PartialEq, Eq)]
pub enum ClipboardEffect {
    /// Put `paths` on the desktop clipboard, to be copied or moved.
    WriteFileClipboard { operation: FileClipboardOperation, paths: Vec<FsPath> },
    /// Put `text` on the desktop clipboard.
    WriteClipboardText(String),
    /// Read the desktop clipboard for a paste into `paste_directory`;
    /// `fallback` is pasted when it holds no files.
    ReadDesktopClipboard { paste_directory: FsPath, fallback: Option<PendingOperation> },
    /// Write `bytes` to a new file at `target` (pasted text or images).
    CreateClipboardFile { target: FsPath, bytes: Vec<u8> },
    /// Look for name clashes among `transfers`, then queue them or ask.
    CheckTransferConflicts { mode: TransferConflictMode, transfers: Vec<QueuedTransfer> },
    /// Reload the listing after `created` appeared.
    ReloadAfterCreating(FsPath),
    /// Select the drop target and open its column, so that the moved
    /// entries stay in sight.
    RevealDropTarget(FsPath),
    /// Queue symbolic links to each of `sources` inside `directory`, named
    /// by the link naming rule.
    LinkIntoDirectory { sources: Vec<FsPath>, directory: FsPath },
}

/// A copy of `paths`.
pub fn duplicate_paths(paths: &Vec<FsPath>) -> (copy: Vec<FsPath>)
    ensures
        path_views(copy@) == path_views(paths@),
{
    let mut copy: Vec<FsPath> = Vec::new();
    let mut i: usize = 0;
    while i < paths.len()
        invariant
            i <= paths@.len(),
            copy@.len() == i,
            forall|j: int| 0 <= j < i ==> (#[trigger] copy@[j])@ == paths@[j]@,
        decreases paths@.len() - i,
    {
        copy.push(paths[i].duplicate());
        i = i + 1;
    }
    assert(path_views(copy@) =~= path_views(paths@));
    copy
}

/// Copy and cut refuse to act in the trash (outside the search overlay).
pub open spec fn clipboard_refused(browser: FileBrowser) -> bool {
    !browser.search_workspace_open && browser.is_trash_view
}

/// Copying or cutting the selection: the context menu closes; in the trash
/// or without a selection nothing else happens; otherwise the selection is
/// remembered as the pending operation and put on the desktop clipboard.
pub open spec fn clipboard_written(
    before: FileBrowser,
    after: FileBrowser,
    operation: FileClipboardOperation,
    effect: Option<ClipboardEffect>,
) -> bool {
    if clipboard_refused(before) || before.selected_paths@.len() == 0 {
        after == (FileBrowser { context_menu: None, ..before }) && effect is None
    } else {
        &&& after == (FileBrowser {
            context_menu: None,
            pending_operation: after.pending_operation,
            ..before
        })
        &&& after.pending_operation matches Some(pending) && pending_operation_kind(pending) == operation
            && pending_operation_paths(pending) == path_views(before.selected_paths@)
        &&& effect matches Some(ClipboardEffect::WriteFileClipboard { operation: written, paths })
            && written == operation && path_views(paths@) == path_views(before.selected_paths@)
    }
}

/// The paths a duplicate of each source goes to: beside the source (in
/// `current_dir` when it has no parent), under the first free duplicate
/// name among `existing`.
pub open spec fn in_place_duplicate_spec(
    source: PathModel,
    fallback_directory: PathModel,
    is_directory: bool,
    existing: Seq<PathModel>,
) -> PathModel {
    let parent = duplicate_parent(source, fallback_directory);
    join_spec(parent, first_free_duplicate(duplicate_source_name(source), is_directory, parent, existing))
}

pub open spec fn duplicate_transfers_ok(
    browser: FileBrowser,
    transfers: Seq<TransferModel>,
    existing: Seq<PathModel>,
) -> bool {
    let sources = path_views(browser.selected_paths@);
    &&& transfers.len() == sources.len()
    &&& forall|i: int|
        0 <= i < sources.len() ==> (#[trigger] transfers[i]).source == sources[i] && transfers[i].target
            == in_place_duplicate_spec(
            sources[i],
            browser.current_dir@,
            entry_kind_spec(browser, sources[i]) == Some(FileKind::Directory),
            existing,
        ) && transfers[i].conflict_strategy == crate::operations::TransferConflictStrategy::Replace
}

/// A command that queues `operation`: the context menu closes and the
/// operation goes to the end of the queue.
pub open spec fn queued_with_menu_closed(before: FileBrowser, after: FileBrowser) -> bool {
    &&& after.operation_queue.tasks@.len() == before.operation_queue.tasks@.len() + 1
    &&& after.operation_queue.tasks@.drop_last() == before.operation_queue.tasks@
    &&& after.operation_queue.panel_open == before.operation_queue.panel_open
}

/// The interactions a new entry interrupts: the rename field, the selection
/// drag and a file drag.
pub open spec fn interactions_cleared(before: FileBrowser) -> FileBrowser {
    FileBrowser {
        context_menu: None,
        renaming: None,
        drag_selection_anchor: None,
        file_drag: None,
        file_drop_session: None,
        ..before
    }
}

impl FileBrowser {
    /// The shared body of `copy_selected` and `move_selected`.
    fn write_selection_to_clipboard(&mut self, operation: FileClipboardOperation) -> (effect: Option<ClipboardEffect>)
        ensures
            clipboard_written(*old(self), *final(self), operation, effect),
    {
        self.context_menu = None;
        if !self.search_workspace_open && self.is_trash_view {
            return None;
        }
        if self.selected_paths.len() == 0 {
            return None;
        }
        let paths = duplicate_paths(&self.selected_paths);
        let written = duplicate_paths(&self.selected_paths);
        self.pending_operation = Some(
            match operation {
                FileClipboardOperation::Copy => PendingOperation::Copy(paths),
                FileClipboardOperation::Move => PendingOperation::Move(paths),
            },
        );
        Some(ClipboardEffect::WriteFileClipboard { operation, paths: written })
    }

    /// `copy_selected`.
    pub fn copy_selected(&mut self) -> (effect: Option<ClipboardEffect>)
        ensures
            clipboard_written(*old(self), *final(self), FileClipboardOperation::Copy, effect),
            old(self).collections_well_formed() ==> final(self).collections_well_formed(),
    {
        self.write_selection_to_clipboard(FileClipboardOperation::Copy)
    }

    /// `move_selected`: cutting, for a later paste.
    pub fn move_selected(&mut self) -> (effect: Option<ClipboardEffect>)
        ensures
            clipboard_written(*old(self), *final(self), FileClipboardOperation::Move, effect),
            old(self).collections_well_formed() ==> final(self).collections_well_formed(),
    {
        self.write_selection_to_clipboard(FileClipboardOperation::Move)
    }

    /// `copy_selected_path_text`: the selected paths, one per line, go on
    /// the desktop clipboard as text.
    pub fn copy_selected_path_text(&mut self) -> (effect: Option<ClipboardEffect>)
        ensures
            *final(self) == (FileBrowser { context_menu: None, ..*old(self) }),
            old(self).selected_paths@.len() == 0 ==> effect is None,
            old(self).selected_paths@.len() > 0 ==> (effect matches Some(ClipboardEffect::WriteClipboardText(text))
                && text@ == crate::selection::paths_text(path_views(old(self).selected_paths@))),
            old(self).collections_well_formed() ==> final(self).collections_well_formed(),
    {
        self.context_menu = None;
        if self.selected_paths.len() == 0 {
            return None;
        }
        Some(ClipboardEffect::WriteClipboardText(copied_paths_text(&self.selected_paths)))
    }

    /// `delete_selected_permanently`: asks for confirmation before deleting
    /// the selection without the trash.
    pub fn delete_selected_permanently(&mut self)
        ensures
            old(self).selected_paths@.len() == 0 ==> *final(self) == (FileBrowser {
                context_menu: None,
                ..*old(self)
            }),
            old(self).selected_paths@.len() > 0 ==> {
                &&& final(self).destructive_action_confirmation matches Some(
                    DestructiveActionConfirmation::DeletePermanently { paths },
                ) && path_views(paths@) == path_views(old(self).selected_paths@)
                &&& !final(self).operation_queue.panel_open
                &&& final(self).operation_queue.tasks == old(self).operation_queue.tasks
                &&& *final(self) == (FileBrowser {
                    context_menu: None,
                    destructive_action_confirmation: final(self).destructive_action_confirmation,
                    transfer_conflict: None,
                    operation_queue: final(self).operation_queue,
                    ..*old(self)
                })
            },
            old(self).collections_well_formed() ==> final(self).collections_well_formed(),
    {
        self.context_menu = None;
        if self.selected_paths.len() == 0 {
            return ;
        }
        let paths = duplicate_paths(&self.selected_paths);
        self.request_destructive_action_confirmation(DestructiveActionConfirmation::DeletePermanently { paths });
    }

    /// The shared body of `create_directory_in` and `create_empty_file_in`.
    fn create_entry_in(&mut self, operation: QueuedFileOperation)
        requires
            !old(self).is_trash_view,
        ensures
            queued_with_menu_closed(*old(self), *final(self)),
            final(self).operation_queue.tasks@.last() == operation,
            *final(self) == (FileBrowser {
                operation_queue: final(self).operation_queue,
                ..interactions_cleared(*old(self))
            }),
    {
        self.context_menu = None;
        self.renaming = None;
        self.drag_selection_anchor = None;
        self.file_drag = None;
        self.file_drop_session = None;
        self.operation_queue.enqueue(operation);
        assert(self.operation_queue.tasks@.drop_last() =~= old(self).operation_queue.tasks@);
    }

    /// `create_directory_in`: a new folder inside `directory` (not in the
    /// trash); the rename field and any drag are dropped first.
    pub fn create_directory_in(&mut self, directory: FsPath)
        ensures
            old(self).is_trash_view ==> *final(self) == (FileBrowser { context_menu: None, ..*old(self) }),
            !old(self).is_trash_view ==> {
                &&& queued_with_menu_closed(*old(self), *final(self))
                &&& final(self).operation_queue.tasks@.last() == (QueuedFileOperation::CreateDirectory {
                    parent: directory,
                })
                &&& *final(self) == (FileBrowser {
                    operation_queue: final(self).operation_queue,
                    ..interactions_cleared(*old(self))
                })
            },
            old(self).collections_well_formed() ==> final(self).collections_well_formed(),
    {
        if self.is_trash_view {
            self.context_menu = None;
            return ;
        }
        self.create_entry_in(QueuedFileOperation::CreateDirectory { parent: directory });
    }

    /// `create_empty_file_in`: a new empty file inside `directory`.
    pub fn create_empty_file_in(&mut self, directory: FsPath)
        ensures
            old(self).is_trash_view ==> *final(self) == (FileBrowser { context_menu: None, ..*old(self) }),
            !old(self).is_trash_view ==> {
                &&& queued_with_menu_closed(*old(self), *final(self))
                &&& final(self).operation_queue.tasks@.last() == (QueuedFileOperation::CreateEmptyFile {
                    parent: directory,
                })
                &&& *final(self) == (FileBrowser {
                    operation_queue: final(self).operation_queue,
                    ..interactions_cleared(*old(self))
                })
            },
            old(self).collections_well_formed() ==> final(self).collections_well_formed(),
    {
        if self.is_trash_view {
            self.context_menu = None;
            return ;
        }
        self.create_entry_in(QueuedFileOperation::CreateEmptyFile { parent: directory });
    }

    /// `duplicate_selected`: each selected entry is copied beside itself
    /// under the first free duplicate name (`existing` lists the paths that
    /// exist on disk), all in one queued operation.
    pub fn duplicate_selected(&mut self, existing: &Vec<FsPath>)
        requires
            existing@.len() + 2 < u32::MAX,
        ensures
            clipboard_refused(*old(self)) || old(self).selected_paths@.len() == 0 ==> *final(self) == (
            FileBrowser { context_menu: None, ..*old(self) }),
            !(clipboard_refused(*old(self)) || old(self).selected_paths@.len() == 0) ==> {
                &&& queued_with_menu_closed(*old(self), *final(self))
                &&& final(self).operation_queue.tasks@.last() matches QueuedFileOperation::Duplicate {
                    transfers,
                    verification,
                } && verification == old(self).file_operation_verification && duplicate_transfers_ok(
                    *old(self),
                    transfer_views(transfers@),
                    path_views(existing@),
                )
                &&& *final(self) == (FileBrowser {
                    context_menu: None,
                    operation_queue: final(self).operation_queue,
                    ..*old(self)
                })
            },
            old(self).collections_well_formed() ==> final(self).collections_well_formed(),
    {
        self.context_menu = None;
        if !self.search_workspace_open && self.is_trash_view {
            return ;
        }
        if self.selected_paths.len() == 0 {
            return ;
        }
        let ghost start = *self;
        let mut transfers: Vec<QueuedTransfer> = Vec::new();
        let mut i: usize = 0;
        while i < self.selected_paths.len()
            invariant
                *self == start,
                existing@.len() + 2 < u32::MAX,
                i <= self.selected_paths@.len(),
                transfers@.len() == i,
                forall|j: int|
                    0 <= j < i ==> {
                        let source = (#[trigger] path_views(self.selected_paths@)[j]);
                        &&& transfers@[j]@.source == source
                        &&& transfers@[j]@.target == in_place_duplicate_spec(
                            source,
                            self.current_dir@,
                            entry_kind_spec(*self, source) == Some(FileKind::Directory),
                            path_views(existing@),
                        )
                        &&& transfers@[j].conflict_strategy
                            == crate::operations::TransferConflictStrategy::Replace
                    },
            decreases self.selected_paths@.len() - i,
        {
            let source = &self.selected_paths[i];
            let is_directory = match self.entry_kind(source) {
                Some(FileKind::Directory) => true,
                _ => false,
            };
            let target = in_place_duplicate_target(source, &self.current_dir, is_directory, existing);
            proof {
                let parent = duplicate_parent(source@, self.current_dir@);
                let name = duplicate_source_name(source@);
                let unique = choose|unique: Seq<char>|
                    #[trigger] is_first_free_duplicate(unique, name, is_directory, parent, path_views(existing@))
                        && target@ == join_spec(parent, unique);
                lemma_first_free_duplicate_unique(unique, name, is_directory, parent, path_views(existing@));
                assert(path_views(self.selected_paths@)[i as int] == source@);
            }
            transfers.push(QueuedTransfer::new(source.duplicate(), target));
            i = i + 1;
        }
        let verification = self.file_operation_verification;
        self.operation_queue.enqueue(QueuedFileOperation::Duplicate { transfers, verification });
        assert(self.operation_queue.tasks@.drop_last() =~= old(self).operation_queue.tasks@);
    }
}


/// The directory "new folder from selection" works in: the active column in
/// the columns view, the current directory otherwise.
pub open spec fn gather_directory_spec(browser: FileBrowser) -> PathModel {
    if browser.view_mode != BrowserViewMode::Columns {
        browser.current_dir@
    } else {
        active_column_directory(browser)
    }
}

impl FileBrowser {
    /// `new_folder_from_selection`: the selected entries directly inside the
    /// active column's directory move, in one queued operation, into a new
    /// folder there named by the first free `新建文件夹` name (`existing`
    /// lists the paths that exist). Selections in other columns stay; the
    /// trash and the search overlay offer no such command.
    pub fn new_folder_from_selection(&mut self, existing: &Vec<FsPath>)
        requires
            existing@.len() + 2 < u32::MAX,
        ensures
            ({
                let sources = children_of(path_views(old(self).selected_paths@), gather_directory_spec(*old(self)));
                if old(self).search_workspace_open || old(self).is_trash_view || sources.len() == 0 {
                    *final(self) == (FileBrowser { context_menu: None, ..*old(self) })
                } else {
                    &&& queued_with_menu_closed(*old(self), *final(self))
                    &&& final(self).operation_queue.tasks@.last() matches QueuedFileOperation::GatherSelectionIntoNewFolder {
                        directory,
                        sources: gathered,
                    } && is_first_free_gathered_folder(
                        directory@,
                        gather_directory_spec(*old(self)),
                        path_views(existing@),
                    ) && path_views(gathered@) == sources
                    &&& *final(self) == (FileBrowser {
                        operation_queue: final(self).operation_queue,
                        ..interactions_cleared(*old(self))
                    })
                }
            }),
            old(self).collections_well_formed() ==> final(self).collections_well_formed(),
    {
        self.context_menu = None;
        if self.search_workspace_open || self.is_trash_view {
            return ;
        }
        let directory = self.gather_target_directory();
        let sources = gather_sources_in_directory(&self.selected_paths, &directory);
        if sources.len() == 0 {
            return ;
        }
        let folder = unique_gathered_folder_directory(&directory, existing);
        self.create_entry_in(QueuedFileOperation::GatherSelectionIntoNewFolder { directory: folder, sources });
    }
}

// ---------------------------------------------------------------------------
// Pasting
// ---------------------------------------------------------------------------

/// The sources whose identity is `want_real` among the first `n`: with
/// `want_real` the real files, else the paths inside archives.
pub open spec fn sources_with_identity(sources: Seq<PathModel>, is_real: Seq<bool>, want_real: bool, n: int) -> Seq<
    PathModel,
>
    decreases n,
{
    if n <= 0 {
        Seq::empty()
    } else {
        let rest = sources_with_identity(sources, is_real, want_real, n - 1);
        if is_real[n - 1] == want_real {
            rest.push(sources[n - 1])
        } else {
            rest
        }
    }
}

pub open spec fn archive_members_of(sources: Seq<PathModel>, is_real: Seq<bool>) -> Seq<PathModel> {
    sources_with_identity(sources, is_real, false, sources.len() as int)
}

pub open spec fn real_sources_of(sources: Seq<PathModel>, is_real: Seq<bool>) -> Seq<PathModel> {
    sources_with_identity(sources, is_real, true, sources.len() as int)
}

/// `split_archive_member_sources`: the sources inside archives (where
/// `is_real` is false) and the real files, each in order. `is_real` says,
/// for each source, whether the file system holds it as a real file rather than
/// as a member of an archive.
pub fn split_archive_member_sources(sources: &Vec<FsPath>, is_real: &Vec<bool>) -> (split: (Vec<FsPath>, Vec<FsPath>))
    requires
        is_real@.len() == sources@.len(),
    ensures
        path_views(split.0@) == archive_members_of(path_views(sources@), is_real@),
        path_views(split.1@) == real_sources_of(path_views(sources@), is_real@),
{
    let ghost views = path_views(sources@);
    let mut members: Vec<FsPath> = Vec::new();
    let mut reals: Vec<FsPath> = Vec::new();
    let mut i: usize = 0;
    while i < sources.len()
        invariant
            i <= sources@.len(),
            is_real@.len() == sources@.len(),
            views == path_views(sources@),
            path_views(members@) == sources_with_identity(views, is_real@, false, i as int),
            path_views(reals@) == sources_with_identity(views, is_real@, true, i as int),
        decreases sources@.len() - i,
    {
        assert(views[i as int] == sources@[i as int]@);
        if is_real[i] {
            reals.push(sources[i].duplicate());
            assert(path_views(reals@) =~= sources_with_identity(views, is_real@, true, i + 1));
        } else {
            members.push(sources[i].duplicate());
            assert(path_views(members@) =~= sources_with_identity(views, is_real@, false, i + 1));
        }
        i = i + 1;
    }
    (members, reals)
}

/// The transfers a copy of `sources` into `directory` queues: each source
/// with a file name goes to `directory/<name>`.
pub open spec fn copy_transfers_spec(sources: Seq<PathModel>, directory: PathModel) -> Seq<TransferModel>
    decreases sources.len(),
{
    if sources.len() == 0 {
        Seq::empty()
    } else {
        let rest = copy_transfers_spec(sources.drop_last(), directory);
        match file_name_spec(sources.last()) {
            Some(name) => rest.push(
                TransferModel {
                    source: sources.last(),
                    target: join_spec(directory, name),
                    conflict_strategy: TransferConflictStrategy::Replace,
                },
            ),
            None => rest,
        }
    }
}

/// The sources of a copy that have a file name, in order.
pub open spec fn named_sources(sources: Seq<PathModel>) -> Seq<PathModel> {
    sources.filter(|path: PathModel| file_name_spec(path) is Some)
}

/// A copy queues one transfer per source that has a file name, in order:
/// the i-th such source goes to `directory/<its name>`, replacing what is
/// there unless the user decides otherwise; sources without a name (the
/// root) are left out.
pub proof fn lemma_copy_queues_one_transfer_per_named_source(sources: Seq<PathModel>, directory: PathModel)
    ensures
        copy_transfers_spec(sources, directory).len() == named_sources(sources).len(),
        forall|i: int|
            0 <= i < named_sources(sources).len() ==> #[trigger] copy_transfers_spec(sources, directory)[i]
                == (TransferModel {
                source: named_sources(sources)[i],
                target: join_spec(directory, file_name_spec(named_sources(sources)[i])->0),
                conflict_strategy: TransferConflictStrategy::Replace,
            }),
    decreases sources.len(),
{
    reveal(Seq::filter);
    if sources.len() > 0 {
        lemma_copy_queues_one_transfer_per_named_source(sources.drop_last(), directory);
    }
}

/// The copy transfers of a paste (see `copy_transfers_spec`).
pub fn copy_paste_transfers(paste_directory: &FsPath, sources: &Vec<FsPath>) -> (transfers: Vec<QueuedTransfer>)
    ensures
        transfer_views(transfers@) == copy_transfers_spec(path_views(sources@), paste_directory@),
        transfers@.len() == named_sources(path_views(sources@)).len(),
        forall|i: int|
            0 <= i < transfers@.len() ==> {
                let source = #[trigger] named_sources(path_views(sources@))[i];
                &&& transfers@[i]@.source == source
                &&& transfers@[i]@.target == join_spec(paste_directory@, file_name_spec(source)->0)
                &&& transfers@[i].conflict_strategy == TransferConflictStrategy::Replace
            },
{
    proof {
        lemma_copy_queues_one_transfer_per_named_source(path_views(sources@), paste_directory@);
    }
    let mut transfers: Vec<QueuedTransfer> = Vec::new();
    let mut i: usize = 0;
    while i < sources.len()
        invariant
            i <= sources@.len(),
            transfer_views(transfers@) == copy_transfers_spec(path_views(sources@).take(i as int), paste_directory@),
        decreases sources@.len() - i,
    {
        let ghost prefix = path_views(sources@).take(i + 1);
        assert(prefix.drop_last() =~= path_views(sources@).take(i as int));
        assert(prefix.last() == sources@[i as int]@);
        match sources[i].file_name() {
            Some(name) => {
                let target = paste_directory.join_name(name.as_str());
                transfers.push(QueuedTransfer::new(sources[i].duplicate(), target));
                assert(transfer_views(transfers@) =~= copy_transfers_spec(prefix, paste_directory@));
            },
            None => {},
        }
        i = i + 1;
    }
    assert(path_views(sources@).take(sources@.len() as int) =~= path_views(sources@));
    assert forall|i: int| 0 <= i < transfers@.len() implies {
        let source = #[trigger] named_sources(path_views(sources@))[i];
        &&& transfers@[i]@.source == source
        &&& transfers@[i]@.target == join_spec(paste_directory@, file_name_spec(source)->0)
        &&& transfers@[i].conflict_strategy == TransferConflictStrategy::Replace
    } by {
        assert(transfer_views(transfers@)[i] == transfers@[i]@);
        assert(copy_transfers_spec(path_views(sources@), paste_directory@)[i] == transfers@[i]@);
    }
    transfers
}

pub open spec fn conflict_mode_of(operation: PendingOperation) -> TransferConflictMode {
    match operation {
        PendingOperation::Copy(_) => TransferConflictMode::Copy,
        PendingOperation::Move(_) => TransferConflictMode::Move,
    }
}

/// What a paste of `operation` into `directory` does. Nothing lands inside
/// an archive. Otherwise archive members are queued for extraction into
/// the directory; the real files are copied or moved there (a move skips
/// the sources it would leave in place), after a check for name clashes;
/// a move also uses up the pending cut.
pub open spec fn paste_outcome(
    before: FileBrowser,
    after: FileBrowser,
    directory: PathModel,
    directory_is_real: bool,
    operation: PendingOperation,
    is_real: Seq<bool>,
    effects: Seq<ClipboardEffect>,
) -> bool {
    if !directory_is_real {
        after == before && effects.len() == 0
    } else {
        let sources = pending_operation_paths(operation);
        let members = archive_members_of(sources, is_real);
        let reals = real_sources_of(sources, is_real);
        let transfers = match operation {
            PendingOperation::Copy(_) => copy_transfers_spec(reals, directory),
            PendingOperation::Move(_) => move_transfers_spec(reals, directory),
        };
        let cleared = match operation {
            PendingOperation::Copy(_) => before,
            PendingOperation::Move(_) => FileBrowser { pending_operation: None, ..before },
        };
        &&& members.len() == 0 ==> after == cleared
        &&& members.len() > 0 ==> {
            &&& queued_with_menu_closed(cleared, after)
            &&& after.operation_queue.tasks@.last() matches QueuedFileOperation::ExtractArchiveMembers {
                sources: extracted,
                destination,
                password,
            } && path_views(extracted@) == members && destination@ == directory && password is None
            &&& after == (FileBrowser { operation_queue: after.operation_queue, ..cleared })
        }
        &&& transfers.len() == 0 ==> effects.len() == 0
        &&& transfers.len() > 0 ==> {
            &&& effects.len() == 1
            &&& effects[0] matches ClipboardEffect::CheckTransferConflicts { mode, transfers: checked }
                && mode == conflict_mode_of(operation) && transfer_views(checked@) == transfers
        }
    }
}

/// A paste to carry out once the caller knows which of its paths lie inside
/// archives.
#[derive(Debug, Clone, PartialEq, Eq)]
pub struct PasteRequest {
    pub paste_directory: FsPath,
    pub operation: PendingOperation,
}

/// What reading the desktop clipboard leads to.
#[derive(Debug, Clone, PartialEq, Eq)]
pub enum ClipboardPasteStep {
    Nothing,
    Paste(PasteRequest),
    /// Create `target` holding the pasted text or image.
    CreateFile { target: FsPath, contents: PastedContents },
}

/// What a file made from the clipboard holds.
#[derive(Debug, Clone, PartialEq, Eq)]
pub enum PastedContents {
    /// Text, written as UTF-8.
    Text(String),
    Bytes(Vec<u8>),
}

pub open spec fn paste_request_matches(request: PasteRequest, directory: PathModel, kind: FileClipboardOperation, paths: Seq<PathModel>) -> bool {
    &&& request.paste_directory@ == directory
    &&& pending_operation_kind(request.operation) == kind
    &&& pending_operation_paths(request.operation) == paths
}

/// Pasting what the desktop clipboard held: files are pasted as copied or
/// cut; text becomes `Pasted Text.txt` and an image `Screenshot.<ext>` in
/// the directory (closing the context menu).
pub open spec fn clipboard_content_step(
    before: FileBrowser,
    after: FileBrowser,
    directory: PathModel,
    content: DesktopClipboardContent,
    step: ClipboardPasteStep,
) -> bool {
    match content {
        DesktopClipboardContent::Files { operation, paths } => {
            &&& after == before
            &&& step matches ClipboardPasteStep::Paste(request) && paste_request_matches(
                request,
                directory,
                operation,
                path_views(paths@),
            )
        },
        DesktopClipboardContent::Text(text) => {
            &&& after == (FileBrowser { context_menu: None, ..before })
            &&& step matches ClipboardPasteStep::CreateFile { target, contents } && target@ == join_spec(
                directory,
                "Pasted Text.txt"@,
            ) && contents == PastedContents::Text(text)
        },
        DesktopClipboardContent::Image { extension, bytes } => {
            &&& after == (FileBrowser { context_menu: None, ..before })
            &&& step matches ClipboardPasteStep::CreateFile { target, contents } && target@ == join_spec(
                directory,
                "Screenshot."@ + extension@,
            ) && contents == PastedContents::Bytes(bytes)
        },
    }
}


/// `paste_file_clipboard_selection`: files from the clipboard are pasted as
/// copied or cut.
pub fn paste_file_clipboard_selection(
    paste_directory: FsPath,
    operation: FileClipboardOperation,
    paths: Vec<FsPath>,
) -> (request: PasteRequest)
    ensures
        request == (PasteRequest {
            paste_directory,
            operation: match operation {
                FileClipboardOperation::Copy => PendingOperation::Copy(paths),
                FileClipboardOperation::Move => PendingOperation::Move(paths),
            },
        }),
{
    let operation = match operation {
        FileClipboardOperation::Copy => PendingOperation::Copy(paths),
        FileClipboardOperation::Move => PendingOperation::Move(paths),
    };
    PasteRequest { paste_directory, operation }
}

/// `paste_optional_operation`: a paste of `operation`, when there is one.
pub fn paste_optional_operation(paste_directory: FsPath, operation: Option<PendingOperation>) -> (request: Option<PasteRequest>)
    ensures
        request == match operation {
            Some(o) => Some(PasteRequest { paste_directory, operation: o }),
            None => None,
        },
{
    match operation {
        Some(operation) => Some(PasteRequest { paste_directory, operation }),
        None => None,
    }
}

/// A copy of a pending operation.
pub fn duplicate_pending(operation: &PendingOperation) -> (copy: PendingOperation)
    ensures
        pending_operation_kind(copy) == pending_operation_kind(*operation),
        pending_operation_paths(copy) == pending_operation_paths(*operation),
{
    match operation {
        PendingOperation::Copy(paths) => PendingOperation::Copy(duplicate_paths(paths)),
        PendingOperation::Move(paths) => PendingOperation::Move(duplicate_paths(paths)),
    }
}

impl FileBrowser {
    /// `paste_operation`: the single way a paste or drop of files lands.
    /// `directory_is_real` says whether `paste_directory` is a real
    /// directory rather than a place inside an archive, and `is_real` the same
    /// of each source; both come from the file system.
    pub fn paste_operation(
        &mut self,
        paste_directory: FsPath,
        directory_is_real: bool,
        operation: PendingOperation,
        is_real: &Vec<bool>,
    ) -> (effects: Vec<ClipboardEffect>)
        requires
            is_real@.len() == pending_operation_paths(operation).len(),
        ensures
            paste_outcome(*old(self), *final(self), paste_directory@, directory_is_real, operation, is_real@, effects@),
    {
        let mut effects: Vec<ClipboardEffect> = Vec::new();
        if !directory_is_real {
            return effects;
        }
        let ghost cleared = match operation {
            PendingOperation::Copy(_) => *self,
            PendingOperation::Move(_) => FileBrowser { pending_operation: None, ..*self },
        };
        let (mode, members, transfers) = match operation {
            PendingOperation::Copy(sources) => {
                let (members, reals) = split_archive_member_sources(&sources, is_real);
                let transfers = copy_paste_transfers(&paste_directory, &reals);
                (TransferConflictMode::Copy, members, transfers)
            },
            PendingOperation::Move(sources) => {
                let (members, reals) = split_archive_member_sources(&sources, is_real);
                let transfers = move_paste_transfers(&paste_directory, &reals);
                self.pending_operation = None;
                (TransferConflictMode::Move, members, transfers)
            },
        };
        assert(*self == cleared);
        if members.len() > 0 {
            self.operation_queue.enqueue(
                QueuedFileOperation::ExtractArchiveMembers {
                    sources: members,
                    destination: paste_directory,
                    password: None,
                },
            );
            assert(self.operation_queue.tasks@.drop_last() =~= cleared.operation_queue.tasks@);
        }
        if transfers.len() > 0 {
            effects.push(ClipboardEffect::CheckTransferConflicts { mode, transfers });
        }
        effects
    }

    /// `paste_pending`: a paste asks the desktop clipboard first, with the
    /// browser's own pending operation as the fallback; nothing in the trash.
    pub fn paste_pending(&mut self) -> (effect: Option<ClipboardEffect>)
        ensures
            *final(self) == (FileBrowser { context_menu: None, ..*old(self) }),
            old(self).is_trash_view ==> effect is None,
            !old(self).is_trash_view ==> (effect matches Some(
                ClipboardEffect::ReadDesktopClipboard { paste_directory, fallback },
            ) && paste_directory@ == crate::selection::paste_target_spec(*old(self)) && match old(self).pending_operation {
                Some(pending) => fallback matches Some(f) && pending_operation_kind(f) == pending_operation_kind(
                    pending,
                ) && pending_operation_paths(f) == pending_operation_paths(pending),
                None => fallback is None,
            }),
            old(self).collections_well_formed() ==> final(self).collections_well_formed(),
    {
        if self.is_trash_view {
            self.context_menu = None;
            return None;
        }
        let paste_directory = self.paste_target_directory();
        self.context_menu = None;
        let fallback = match &self.pending_operation {
            Some(pending) => Some(duplicate_pending(pending)),
            None => None,
        };
        Some(ClipboardEffect::ReadDesktopClipboard { paste_directory, fallback })
    }

    /// `accept_file_clipboard_write`: a failed clipboard write shows its
    /// error; a successful one clears the error banner.
    pub fn accept_file_clipboard_write(&mut self, result: Result<(), String>)
        ensures
            match result {
                Ok(()) => *final(self) == (FileBrowser { global_error: None, ..*old(self) }),
                Err(error) => *final(self) == (FileBrowser { global_error: Some(error), ..*old(self) }),
            },
            old(self).collections_well_formed() ==> final(self).collections_well_formed(),
    {
        match result {
            Ok(()) => self.clear_global_error(),
            Err(error) => self.show_global_error(error),
        }
    }

    /// `paste_desktop_clipboard_content`.
    pub fn paste_desktop_clipboard_content(&mut self, paste_directory: FsPath, content: DesktopClipboardContent) -> (step: ClipboardPasteStep)
        ensures
            clipboard_content_step(*old(self), *final(self), paste_directory@, content, step),
            old(self).collections_well_formed() ==> final(self).collections_well_formed(),
    {
        match content {
            DesktopClipboardContent::Files { operation, paths } => {
                ClipboardPasteStep::Paste(paste_file_clipboard_selection(paste_directory, operation, paths))
            },
            DesktopClipboardContent::Text(text) => {
                self.context_menu = None;
                let target = paste_directory.join_name("Pasted Text.txt");
                ClipboardPasteStep::CreateFile { target, contents: PastedContents::Text(text) }
            },
            DesktopClipboardContent::Image { extension, bytes } => {
                self.context_menu = None;
                let mut name = String::from_str("Screenshot.");
                name.append(extension.as_str());
                let target = paste_directory.join_name(name.as_str());
                ClipboardPasteStep::CreateFile { target, contents: PastedContents::Bytes(bytes) }
            },
        }
    }

    /// `accept_desktop_clipboard_paste`: the clipboard's content is pasted;
    /// with nothing on it the fallback is; when reading it failed, the
    /// fallback is pasted if there is one, else the error is shown.
    pub fn accept_desktop_clipboard_paste(
        &mut self,
        paste_directory: FsPath,
        fallback: Option<PendingOperation>,
        content: Result<Option<DesktopClipboardContent>, String>,
    ) -> (step: ClipboardPasteStep)
        ensures
            match content {
                Ok(Some(c)) => clipboard_content_step(*old(self), *final(self), paste_directory@, c, step),
                Ok(None) => *final(self) == *old(self) && match fallback {
                    Some(f) => step == ClipboardPasteStep::Paste(PasteRequest { paste_directory, operation: f }),
                    None => step == ClipboardPasteStep::Nothing,
                },
                Err(error) => match fallback {
                    Some(f) => *final(self) == *old(self) && step == ClipboardPasteStep::Paste(
                        PasteRequest { paste_directory, operation: f },
                    ),
                    None => *final(self) == (FileBrowser { global_error: Some(error), ..*old(self) })
                        && step == ClipboardPasteStep::Nothing,
                },
            },
    {
        match content {
            Ok(Some(content)) => self.paste_desktop_clipboard_content(paste_directory, content),
            Ok(None) => match paste_optional_operation(paste_directory, fallback) {
                Some(request) => ClipboardPasteStep::Paste(request),
                None => ClipboardPasteStep::Nothing,
            },
            Err(error) => match fallback {
                Some(operation) => ClipboardPasteStep::Paste(PasteRequest { paste_directory, operation }),
                None => {
                    self.show_global_error(error);
                    ClipboardPasteStep::Nothing
                },
            },
        }
    }

    /// `accept_clipboard_file_created`: a file made from the clipboard
    /// reloads the listing; a failure shows its error.
    pub fn accept_clipboard_file_created(&mut self, result: Result<FsPath, String>) -> (effect: Option<ClipboardEffect>)
        ensures
            match result {
                Ok(path) => *final(self) == *old(self) && effect == Some(ClipboardEffect::ReloadAfterCreating(path)),
                Err(error) => *final(self) == (FileBrowser { global_error: Some(error), ..*old(self) })
                    && effect is None,
            },
            old(self).collections_well_formed() ==> final(self).collections_well_formed(),
    {
        match result {
            Ok(path) => Some(ClipboardEffect::ReloadAfterCreating(path)),
            Err(error) => {
                self.show_global_error(error);
                None
            },
        }
    }

    /// `request_file_drop_prompt`: files dropped from outside wait for the
    /// user's choice of copy or move, unless another file prompt is open,
    /// in which case the drop is refused with an error.
    pub fn request_file_drop_prompt(&mut self, paste_directory: FsPath, paths: Vec<FsPath>)
        ensures
            paths@.len() == 0 ==> *final(self) == *old(self),
            paths@.len() > 0 && (old(self).destructive_action_confirmation is Some
                || old(self).file_drop_prompt is Some || old(self).transfer_conflict is Some) ==> (
            final(self).global_error matches Some(e) && e@
                == "Finish the current file operation prompt before dropping files"@) && *final(self)
                == (FileBrowser { global_error: final(self).global_error, ..*old(self) }),
            paths@.len() > 0 && !(old(self).destructive_action_confirmation is Some
                || old(self).file_drop_prompt is Some || old(self).transfer_conflict is Some) ==> *final(self) == (FileBrowser {
                context_menu: None,
                operation_queue: crate::operations::OperationQueue {
                    panel_open: false,
                    ..old(self).operation_queue
                },
                file_drop_prompt: Some(FileDropPrompt { paste_directory, paths }),
                ..*old(self)
            }),
            old(self).collections_well_formed() ==> final(self).collections_well_formed(),
    {
        if paths.len() == 0 {
            return ;
        }
        if self.destructive_action_confirmation.is_some() || self.file_drop_prompt.is_some()
            || self.transfer_conflict.is_some() {
            self.show_global_error(String::from_str("Finish the current file operation prompt before dropping files"));
            return ;
        }
        self.context_menu = None;
        self.operation_queue.close_panel();
        self.file_drop_prompt = Some(FileDropPrompt { paste_directory, paths });
    }

    /// `apply_file_drop_operation`: the user's choice pastes the dropped
    /// files.
    pub fn apply_file_drop_operation(&mut self, operation: FileClipboardOperation) -> (request: Option<PasteRequest>)
        ensures
            *final(self) == (FileBrowser { file_drop_prompt: None, ..*old(self) }),
            match old(self).file_drop_prompt {
                Some(prompt) => request == Some(
                    PasteRequest {
                        paste_directory: prompt.paste_directory,
                        operation: match operation {
                            FileClipboardOperation::Copy => PendingOperation::Copy(prompt.paths),
                            FileClipboardOperation::Move => PendingOperation::Move(prompt.paths),
                        },
                    },
                ),
                None => request is None,
            },
            old(self).collections_well_formed() ==> final(self).collections_well_formed(),
    {
        let prompt = match self.file_drop_prompt.take() {
            Some(prompt) => prompt,
            None => return None,
        };
        let operation = match operation {
            FileClipboardOperation::Copy => PendingOperation::Copy(prompt.paths),
            FileClipboardOperation::Move => PendingOperation::Move(prompt.paths),
        };
        Some(PasteRequest { paste_directory: prompt.paste_directory, operation })
    }

    /// `cancel_file_drop`.
    pub fn cancel_file_drop(&mut self)
        ensures
            *final(self) == (FileBrowser { file_drop_prompt: None, ..*old(self) }),
            old(self).collections_well_formed() ==> final(self).collections_well_formed(),
    {
        self.file_drop_prompt = None;
    }
}


// ---------------------------------------------------------------------------
// Dropping dragged files
// ---------------------------------------------------------------------------

/// Some transfer would copy a directory into itself.
pub open spec fn copies_into_itself(transfers: Seq<TransferModel>) -> bool {
    exists|i: int| 0 <= i < transfers.len() && starts_with_spec(#[trigger] transfers[i].target, transfers[i].source)
}

/// The move of a dropped batch keeps its target in sight when the target
/// lies below the first source's directory.
pub open spec fn drop_reveals_target(reals: Seq<PathModel>, directory: PathModel) -> bool {
    reals.len() > 0 && match parent_spec(reals[0]) {
        Some(parent) => directory != parent && starts_with_spec(directory, parent),
        None => false,
    }
}

/// What dropping `sources` into `directory` asks for (before the archive
/// members, which are queued for extraction).
pub open spec fn drop_transfer_effects(
    intent: FileDragDropIntent,
    reals: Seq<PathModel>,
    directory: PathModel,
    effects: Seq<ClipboardEffect>,
) -> bool {
    if reals.len() == 0 {
        effects.len() == 0
    } else if intent == FileDragDropIntent::Copy {
        let targets = copy_transfers_spec(reals, directory);
        if copies_into_itself(targets) {
            effects.len() == 0
        } else {
            &&& effects.len() == 1
            &&& effects[0] matches ClipboardEffect::CheckTransferConflicts { mode, transfers }
                && mode == TransferConflictMode::Copy && transfer_views(transfers@) == targets
        }
    } else {
        let movable = move_transfers_spec(reals, directory);
        if movable.len() == 0 {
            effects.len() == 0
        } else {
            let rest = if drop_reveals_target(reals, directory) {
                effects.drop_first()
            } else {
                effects
            };
            &&& drop_reveals_target(reals, directory) ==> effects.len() > 0 && (effects[0] matches ClipboardEffect::RevealDropTarget(
                target,
            ) && target@ == directory)
            &&& rest.len() == 1
            &&& rest[0] matches ClipboardEffect::CheckTransferConflicts { mode, transfers }
                && mode == TransferConflictMode::Move && transfer_views(transfers@) == movable
        }
    }
}

/// What `move_dragged_files` does. Nothing lands inside an archive. A link
/// drop links the real sources, or does nothing when archive members are
/// among them. Otherwise the real sources are copied (unless one would go
/// into itself) or moved (skipping the sources that would stay in place),
/// after a check for name clashes, and archive members are queued for
/// extraction into the directory.
pub open spec fn drop_outcome(
    before: FileBrowser,
    after: FileBrowser,
    sources: Seq<PathModel>,
    directory: PathModel,
    directory_is_real: bool,
    is_real: Seq<bool>,
    effects: Seq<ClipboardEffect>,
) -> bool {
    let intent = drop_intent_spec(before, sources, directory);
    let members = archive_members_of(sources, is_real);
    let reals = real_sources_of(sources, is_real);
    if !directory_is_real {
        after == before && effects.len() == 0
    } else if intent == FileDragDropIntent::CreateLink {
        &&& after == before
        &&& members.len() > 0 ==> effects.len() == 0
        &&& members.len() == 0 ==> effects.len() == 1
        &&& members.len() == 0 ==> (effects[0] matches ClipboardEffect::LinkIntoDirectory {
            sources: linked,
            directory: into,
        } && path_views(linked@) == reals && into@ == directory)
    } else {
        &&& drop_transfer_effects(intent, reals, directory, effects)
        &&& members.len() == 0 ==> after == before
        &&& members.len() > 0 ==> {
            &&& queued_with_menu_closed(before, after)
            &&& after.operation_queue.tasks@.last() matches QueuedFileOperation::ExtractArchiveMembers {
                sources: extracted,
                destination,
                password,
            } && path_views(extracted@) == members && destination@ == directory && password is None
            &&& after == (FileBrowser { operation_queue: after.operation_queue, ..before })
        }
    }
}

fn copies_into_itself_now(transfers: &Vec<QueuedTransfer>) -> (found: bool)
    ensures
        found == copies_into_itself(transfer_views(transfers@)),
{
    let mut i: usize = 0;
    while i < transfers.len()
        invariant
            i <= transfers@.len(),
            forall|j: int|
                0 <= j < i ==> !starts_with_spec(
                    #[trigger] transfer_views(transfers@)[j].target,
                    transfer_views(transfers@)[j].source,
                ),
        decreases transfers@.len() - i,
    {
        if transfers[i].target.starts_with(&transfers[i].source) {
            assert(starts_with_spec(
                transfer_views(transfers@)[i as int].target,
                transfer_views(transfers@)[i as int].source,
            ));
            return true;
        }
        i = i + 1;
    }
    false
}

impl FileBrowser {
    /// `move_dragged_files`: drops `sources` into `target_directory` with
    /// the intent the held keys give. `directory_is_real` and `is_real` say
    /// whether the directory and each source are real files rather than
    /// places inside archives (read from the file system).
    pub fn move_dragged_files(
        &mut self,
        sources: Vec<FsPath>,
        target_directory: FsPath,
        directory_is_real: bool,
        is_real: &Vec<bool>,
    ) -> (effects: Vec<ClipboardEffect>)
        requires
            is_real@.len() == sources@.len(),
        ensures
            drop_outcome(
                *old(self),
                *final(self),
                path_views(sources@),
                target_directory@,
                directory_is_real,
                is_real@,
                effects@,
            ),
    {
        let mut effects: Vec<ClipboardEffect> = Vec::new();
        if !directory_is_real {
            return effects;
        }
        let intent = self.file_drag_drop_intent(&sources, &target_directory);
        let (members, reals) = split_archive_member_sources(&sources, is_real);
        if intent == FileDragDropIntent::CreateLink {
            if members.len() > 0 {
                return effects;
            }
            effects.push(ClipboardEffect::LinkIntoDirectory { sources: reals, directory: target_directory });
            return effects;
        }
        if reals.len() > 0 {
            if intent == FileDragDropIntent::Copy {
                let targets = copy_paste_transfers(&target_directory, &reals);
                if !copies_into_itself_now(&targets) {
                    effects.push(
                        ClipboardEffect::CheckTransferConflicts { mode: TransferConflictMode::Copy, transfers: targets },
                    );
                }
            } else {
                let movable = move_paste_transfers(&target_directory, &reals);
                if movable.len() > 0 {
                    let reveal = match reals[0].parent() {
                        Some(parent) => !target_directory.same_as(&parent) && target_directory.starts_with(&parent),
                        None => false,
                    };
                    assert(path_views(reals@)[0] == reals@[0]@);
                    if reveal {
                        effects.push(ClipboardEffect::RevealDropTarget(target_directory.duplicate()));
                    }
                    effects.push(
                        ClipboardEffect::CheckTransferConflicts { mode: TransferConflictMode::Move, transfers: movable },
                    );
                    proof {
                        if reveal {
                            assert(effects@.drop_first() =~= seq![effects@[1]]);
                        }
                    }
                }
            }
        }
        if members.len() > 0 {
            self.operation_queue.enqueue(
                QueuedFileOperation::ExtractArchiveMembers {
                    sources: members,
                    destination: target_directory,
                    password: None,
                },
            );
            assert(self.operation_queue.tasks@.drop_last() =~= old(self).operation_queue.tasks@);
        }
        effects
    }
}


// ---------------------------------------------------------------------------
// Laws
// ---------------------------------------------------------------------------

/// A paste or drop that moves files never queues a transfer that would
/// leave its source where it is: no source goes onto itself, into its own
/// subtree, or into the directory it already is in; each transfer moves a
/// source under its own name into the directory.
pub proof fn lemma_moves_skip_no_op_sources(sources: Seq<PathModel>, directory: PathModel)
    ensures
        forall|i: int|
            0 <= i < move_transfers_spec(sources, directory).len() ==> {
                let t = #[trigger] move_transfers_spec(sources, directory)[i];
                &&& !move_is_no_op_spec(t.source, directory)
                &&& sources.contains(t.source)
                &&& file_name_spec(t.source) matches Some(name) && t.target == join_spec(directory, name)
            },
        move_transfers_spec(sources, directory).len() <= sources.len(),
    decreases sources.len(),
{
    if sources.len() > 0 {
        lemma_moves_skip_no_op_sources(sources.drop_last(), directory);
        let rest = move_transfers_spec(sources.drop_last(), directory);
        assert forall|i: int| 0 <= i < move_transfers_spec(sources, directory).len() implies {
            let t = #[trigger] move_transfers_spec(sources, directory)[i];
            &&& !move_is_no_op_spec(t.source, directory)
            &&& sources.contains(t.source)
            &&& file_name_spec(t.source) matches Some(name) && t.target == join_spec(directory, name)
        } by {
            if i < rest.len() {
                let t = rest[i];
                assert(move_transfers_spec(sources, directory)[i] == t);
                let k = choose|k: int| 0 <= k < sources.drop_last().len() && sources.drop_last()[k] == t.source;
                assert(sources[k] == t.source);
            } else {
                assert(sources[sources.len() - 1] == sources.last());
            }
        }
    }
}

proof fn lemma_identity_split_counts(sources: Seq<PathModel>, is_real: Seq<bool>, n: int)
    requires
        0 <= n <= sources.len(),
        is_real.len() == sources.len(),
    ensures
        sources_with_identity(sources, is_real, false, n).len() + sources_with_identity(sources, is_real, true, n).len()
            == n,
        forall|i: int|
            0 <= i < n ==> (if is_real[i] {
                sources_with_identity(sources, is_real, true, n).contains(#[trigger] sources[i])
            } else {
                sources_with_identity(sources, is_real, false, n).contains(sources[i])
            }),
    decreases n,
{
    if n > 0 {
        lemma_identity_split_counts(sources, is_real, n - 1);
        assert forall|i: int| 0 <= i < n implies (if is_real[i] {
            sources_with_identity(sources, is_real, true, n).contains(#[trigger] sources[i])
        } else {
            sources_with_identity(sources, is_real, false, n).contains(sources[i])
        }) by {
            let want = is_real[i];
            let before = sources_with_identity(sources, is_real, want, n - 1);
            let after = sources_with_identity(sources, is_real, want, n);
            if i < n - 1 {
                let k = choose|k: int| 0 <= k < before.len() && before[k] == sources[i];
                assert(after[k] == sources[i]);
            } else {
                assert(after.last() == sources[i]);
            }
        }
    }
}

/// Splitting a paste's sources loses and invents nothing: every source goes
/// to the archive members or to the real files, as its identity says, and
/// the two lists together are as long as the sources.
pub proof fn lemma_archive_split_partitions_sources(sources: Seq<PathModel>, is_real: Seq<bool>)
    requires
        is_real.len() == sources.len(),
    ensures
        archive_members_of(sources, is_real).len() + real_sources_of(sources, is_real).len() == sources.len(),
        forall|i: int|
            0 <= i < sources.len() && is_real[i] ==> real_sources_of(sources, is_real).contains(#[trigger] sources[i]),
        forall|i: int|
            0 <= i < sources.len() && !is_real[i] ==> archive_members_of(sources, is_real).contains(
                #[trigger] sources[i],
            ),
{
    lemma_identity_split_counts(sources, is_real, sources.len() as int);
    assert forall|i: int| 0 <= i < sources.len() && is_real[i] implies real_sources_of(sources, is_real).contains(
        #[trigger] sources[i],
    ) by {}
    assert forall|i: int| 0 <= i < sources.len() && !is_real[i] implies archive_members_of(sources, is_real).contains(
        #[trigger] sources[i],
    ) by {}
}

} // verus!
