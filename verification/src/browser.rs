//! The browser state that the verified operations read and change.

use vstd::prelude::*;
use crate::advanced_new_folder::{AdvancedNewFolderAfter, AdvancedNewFolderState};
use crate::archive_member_password::ArchiveMemberPasswordState;
use crate::clipboard::{FileDropPrompt, PendingOperation};
use crate::config::{BrowserViewMode, FileOperationVerification, SortDirection, SortField};
use crate::metadata_demand::DirectoryMetadataDemandKey;
use crate::entry_changes::DiscoveredEntry;
use crate::conflict::TransferConflictState;
use crate::view_modes::ListExpansionFollowPlan;
use crate::transfer::{IncomingTransferConfirmation, TransferRuntime, TransferSession, TrustedTransferDevice};
use crate::panes::{BrowserPane, BrowserPaneId, DirectoryOrderPhase, ExpandedDirectory};
use crate::operations::OperationQueue;
use crate::paths::FsPath;
use crate::windows::{AppWindows, FloatingLayers};

verus! {

/// Kind of a directory entry.
#[derive(Debug, Clone, Copy, PartialEq, Eq, Structural)]
pub enum FileKind {
    File,
    Directory,
    Symlink,
    Other,
}

/// One entry of a directory listing.
#[derive(Debug, Clone, PartialEq, Eq)]
pub struct DirectoryEntry {
    pub path: FsPath,
    pub kind: FileKind,
    /// Position of the entry in its directory's discovery, when it has one.
    pub discovery_index: Option<usize>,
}

/// The context menu, as far as pasting is concerned: the directory a paste
/// from the menu lands in, when the menu offers one.
#[derive(Debug, Clone, PartialEq, Eq)]
pub struct ContextMenuState {
    pub paste_directory: Option<FsPath>,
}

/// Modifier keys held right now.
#[derive(Debug, Clone, Copy, PartialEq, Eq, Structural)]
pub struct KeyboardModifiers {
    pub control: bool,
    pub shift: bool,
    pub alt: bool,
}

/// What a tab accepts when files are dropped on it.
#[derive(Debug, Clone, PartialEq, Eq)]
pub enum TabDropDestination {
    Directory(FsPath),
    Trash,
}

/// Where dragged files would land.
#[derive(Debug, Clone, PartialEq, Eq)]
pub enum FileDropTarget {
    Directory(FsPath),
    Trash,
    SidebarBookmarkSlot(usize),
    Tab { tab_id: usize, destination: TabDropDestination },
}

/// The drop interaction of a running file drag.
#[derive(Debug, Clone, PartialEq, Eq)]
pub struct FileDropSession {
    pub hovered_target: Option<FileDropTarget>,
}

/// A file drag: the dragged sources, and whether the pointer has moved far
/// enough for the drag to be active.
#[derive(Debug, Clone, PartialEq, Eq)]
pub struct FileDragState {
    pub sources: Vec<FsPath>,
    pub dragging: bool,
}

/// A destructive action waiting for the user's confirmation.
#[derive(Debug, Clone, PartialEq, Eq)]
pub enum DestructiveActionConfirmation {
    DeletePermanently { paths: Vec<FsPath> },
    EmptyTrash,
}

/// The preferences the browser's own commands change; the application
/// stores them when they change.
#[derive(Debug, Clone, Copy, PartialEq, Eq, Structural)]
pub struct BrowserPreferences {
    /// How many columns the columns view shows side by side.
    pub visible_column_count: usize,
    /// The view new panes open in.
    pub browser_view_mode: BrowserViewMode,
}

pub struct FileBrowser {
    /// Directory shown by the active pane.
    pub current_dir: FsPath,
    pub view_mode: BrowserViewMode,
    pub is_trash_view: bool,
    /// Whether the search results overlay is open.
    pub search_workspace_open: bool,
    /// Entries of `current_dir`, in display order.
    pub entries: Vec<DirectoryEntry>,
    pub selected: Option<FsPath>,
    pub selected_paths: Vec<FsPath>,
    pub context_menu: Option<ContextMenuState>,
    /// Columns view: the focused column, when it is rendered.
    pub focused_column_directory: Option<FsPath>,
    /// Columns view: the deepest open column.
    pub deepest_open_column_directory: Option<FsPath>,
    /// Directory under the pointer that a paste would land in.
    pub cursor_paste_directory: Option<FsPath>,
    pub archive_member_password: Option<ArchiveMemberPasswordState>,
    pub operation_queue: OperationQueue,
    pub global_error: Option<String>,
    pub file_drag: Option<FileDragState>,
    pub file_drop_session: Option<FileDropSession>,
    /// Entry under the pointer.
    pub hovered_entry: Option<FsPath>,
    pub keyboard_modifiers: KeyboardModifiers,
    /// Mount points of network connections; paths inside them are remote.
    pub remote_mount_roots: Vec<FsPath>,
    /// The path that stands for the trash.
    pub trash_location: FsPath,
    pub destructive_action_confirmation: Option<DestructiveActionConfirmation>,
    /// What the last copy or cut put on the clipboard, for a paste when the
    /// desktop clipboard has nothing.
    pub pending_operation: Option<PendingOperation>,
    /// Dropped files waiting for the user to pick copy or move.
    pub file_drop_prompt: Option<FileDropPrompt>,
    /// The entry whose name is being edited.
    pub renaming: Option<FsPath>,
    /// Where a pointer drag that selects entries started.
    pub drag_selection_anchor: Option<FsPath>,
    pub transfer_conflict: Option<TransferConflictState>,
    /// How copies and moves are verified (from the user's settings).
    pub file_operation_verification: FileOperationVerification,
    pub active_pane_id: BrowserPaneId,
    /// Every pane; the active pane's entry here is a stale copy of the
    /// top-level fields.
    pub panes: Vec<BrowserPane>,
    /// Directories expanded in the active pane.
    pub expanded_directories: Vec<ExpandedDirectory>,
    /// Metadata demands sent and not answered yet.
    pub directory_metadata_in_flight: Vec<DirectoryMetadataDemandKey>,
    /// Generation of the load that collected `entries`.
    pub directory_load_generation: u64,
    /// The discovery behind `entries` (entries before metadata), once loaded.
    pub directory_discovery: Option<Vec<DiscoveredEntry>>,
    pub directory_order_phase: DirectoryOrderPhase,
    pub sort_field: SortField,
    pub sort_direction: SortDirection,
    /// Generation handed to the next metadata load.
    pub next_directory_metadata_request_generation: u64,
    pub advanced_new_folder: Option<AdvancedNewFolderState>,
    /// The list view's plan to re-open the directories leading to a selection.
    pub list_expansion_follow: Option<ListExpansionFollowPlan>,
    pub next_list_expansion_follow_session_id: u64,
    /// The active tab of the active pane.
    pub active_tab_id: usize,
    /// The open transfer window.
    pub transfer_session: Option<TransferSession>,
    /// The device alias from the settings (blank means the host name).
    pub transfer_device_alias: Option<String>,
    /// The alias field of the settings page while it is edited.
    pub transfer_device_alias_input: String,
    /// Where received files go (from the settings; unset means the default).
    pub transfer_download_dir: Option<FsPath>,
    pub transfer_trusted_devices: Vec<TrustedTransferDevice>,
    /// The receive service, while it runs.
    pub transfer_runtime: Option<TransferRuntime>,
    /// A transfer from an untrusted device waiting for an answer.
    pub incoming_transfer: Option<IncomingTransferConfirmation>,
    /// The application's windows and which of them has the focus.
    pub windows: AppWindows,
    /// The dialogs and interactions that a dismissal can close.
    pub layers: FloatingLayers,
    /// The follow-up picked when the advanced new-folder dialog was confirmed.
    pub pending_advanced_new_folder_after: Option<AdvancedNewFolderAfter>,
    pub user_config: BrowserPreferences,
    /// The selections (the active pane's, then each pane's) the selection
    /// metadata was last scheduled for.
    pub selection_metadata_snapshot: Option<Vec<Vec<FsPath>>>,
}

impl FileBrowser {
    /// A browser showing `current_dir` in the columns view with nothing open.
    pub fn new(current_dir: FsPath, trash_location: FsPath) -> (browser: FileBrowser)
        ensures
            browser.trash_location@ == trash_location@,
            browser.file_drag is None,
            browser.file_drop_session is None,
            browser.hovered_entry is None,
            browser.keyboard_modifiers == (KeyboardModifiers { control: false, shift: false, alt: false }),
            browser.remote_mount_roots@.len() == 0,
            browser.destructive_action_confirmation is None,
            browser.pending_operation is None,
            browser.file_drop_prompt is None,
            browser.renaming is None,
            browser.drag_selection_anchor is None,
            browser.transfer_conflict is None,
            browser.file_operation_verification == FileOperationVerification::BasicMetadata,
            browser.active_pane_id == (BrowserPaneId { id: 0 }),
            browser.panes@.len() == 0,
            browser.expanded_directories@.len() == 0,
            browser.current_dir@ == current_dir@,
            browser.view_mode == BrowserViewMode::Columns,
            !browser.is_trash_view,
            !browser.search_workspace_open,
            browser.entries@.len() == 0,
            browser.selected is None,
            browser.selected_paths@.len() == 0,
            browser.context_menu is None,
            browser.focused_column_directory is None,
            browser.deepest_open_column_directory is None,
            browser.cursor_paste_directory is None,
            browser.archive_member_password is None,
            browser.operation_queue.tasks@.len() == 0,
            browser.global_error is None,
            browser.advanced_new_folder is None,
            browser.pending_advanced_new_folder_after is None,
            browser.list_expansion_follow is None,
            browser.directory_metadata_in_flight@.len() == 0,
            browser.directory_load_generation == 0,
            browser.directory_discovery is None,
            browser.directory_order_phase == (DirectoryOrderPhase::Ready {
                field: SortField::Name,
                direction: SortDirection::Ascending,
            }),
            browser.sort_field == SortField::Name,
            browser.sort_direction == SortDirection::Ascending,
            browser.next_directory_metadata_request_generation == 0,
            browser.next_list_expansion_follow_session_id == 0,
            browser.active_tab_id == 0,
            browser.transfer_session is None,
            browser.transfer_device_alias is None,
            browser.transfer_device_alias_input@.len() == 0,
            browser.transfer_download_dir is None,
            browser.transfer_trusted_devices@.len() == 0,
            browser.transfer_runtime is None,
            browser.incoming_transfer is None,
            crate::windows::fresh_windows(browser.windows, 0),
            browser.layers == crate::windows::closed_layers(),
            browser.selection_metadata_snapshot is None,
            browser.collections_well_formed(),
            browser.user_config == (BrowserPreferences {
                visible_column_count: crate::config::DEFAULT_VISIBLE_COLUMN_COUNT,
                browser_view_mode: BrowserViewMode::Columns,
            }),
    {
        FileBrowser {
            current_dir,
            view_mode: BrowserViewMode::Columns,
            is_trash_view: false,
            search_workspace_open: false,
            entries: Vec::new(),
            selected: None,
            selected_paths: Vec::new(),
            context_menu: None,
            focused_column_directory: None,
            deepest_open_column_directory: None,
            cursor_paste_directory: None,
            archive_member_password: None,
            operation_queue: OperationQueue::new(),
            global_error: None,
            file_drag: None,
            file_drop_session: None,
            hovered_entry: None,
            keyboard_modifiers: KeyboardModifiers { control: false, shift: false, alt: false },
            remote_mount_roots: Vec::new(),
            trash_location,
            destructive_action_confirmation: None,
            pending_operation: None,
            file_drop_prompt: None,
            renaming: None,
            drag_selection_anchor: None,
            transfer_conflict: None,
            file_operation_verification: FileOperationVerification::BasicMetadata,
            active_pane_id: BrowserPaneId { id: 0 },
            panes: Vec::new(),
            expanded_directories: Vec::new(),
            directory_metadata_in_flight: Vec::new(),
            directory_load_generation: 0,
            directory_discovery: None,
            directory_order_phase: DirectoryOrderPhase::Ready {
                field: SortField::Name,
                direction: SortDirection::Ascending,
            },
            sort_field: SortField::Name,
            sort_direction: SortDirection::Ascending,
            next_directory_metadata_request_generation: 0,
            advanced_new_folder: None,
            pending_advanced_new_folder_after: None,
            list_expansion_follow: None,
            next_list_expansion_follow_session_id: 0,
            active_tab_id: 0,
            transfer_session: None,
            transfer_device_alias: None,
            transfer_device_alias_input: String::new(),
            transfer_download_dir: None,
            transfer_trusted_devices: Vec::new(),
            transfer_runtime: None,
            incoming_transfer: None,
            windows: AppWindows::new(0),
            layers: FloatingLayers::new(),
            user_config: BrowserPreferences {
                visible_column_count: crate::config::DEFAULT_VISIBLE_COLUMN_COUNT,
                browser_view_mode: BrowserViewMode::Columns,
            },
            selection_metadata_snapshot: None,
        }
    }

    pub fn show_global_error(&mut self, error: String)
        ensures
            *final(self) == (FileBrowser { global_error: Some(error), ..*old(self) }),
            old(self).collections_well_formed() ==> final(self).collections_well_formed(),
    {
        self.global_error = Some(error);
    }

    pub fn clear_global_error(&mut self)
        ensures
            *final(self) == (FileBrowser { global_error: None, ..*old(self) }),
            old(self).collections_well_formed() ==> final(self).collections_well_formed(),
    {
        self.global_error = None;
    }
}

} // verus!
