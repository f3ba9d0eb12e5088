//! The application's windows and floating layers: which window has the
//! focus, what Escape closes, and in which order open dialogs and menus are
//! dismissed.

use vstd::prelude::*;
use crate::browser::FileBrowser;
use crate::panes::BrowserPaneId;
use crate::paths::FsPath;
use crate::transfer::{TransferServiceAction, TransferSession};

verus! {

/// The dialogs, popups and pointer interactions of the main window that a
/// dismissal can close, beyond those the browser keeps in fields of its own.
#[derive(Debug, Clone, Copy, PartialEq, Eq, Structural)]
pub struct FloatingLayers {
    pub archive_creation: bool,
    pub convert: bool,
    /// A checksum computation with its dialog.
    pub checksum: bool,
    pub archive_extraction: bool,
    pub batch_rename: bool,
    pub network_connection_editor: bool,
    pub open_with: bool,
    /// The search history popup is showing.
    pub search_history_popup: bool,
    /// The address bar is being edited.
    pub address_editing: bool,
    /// A shortcut is being recorded.
    pub shortcut_capture: bool,
    /// A sidebar bookmark is being dragged (or hovers a drop slot).
    pub sidebar_bookmark_drag: bool,
    /// A rubber-band selection is being drawn.
    pub selection_marquee: bool,
}

impl FloatingLayers {
    pub fn new() -> (layers: FloatingLayers)
        ensures
            layers == closed_layers(),
    {
        FloatingLayers {
            archive_creation: false,
            convert: false,
            checksum: false,
            archive_extraction: false,
            batch_rename: false,
            network_connection_editor: false,
            open_with: false,
            search_history_popup: false,
            address_editing: false,
            shortcut_capture: false,
            sidebar_bookmark_drag: false,
            selection_marquee: false,
        }
    }
}

pub open spec fn closed_layers() -> FloatingLayers {
    FloatingLayers {
        archive_creation: false,
        convert: false,
        checksum: false,
        archive_extraction: false,
        batch_rename: false,
        network_connection_editor: false,
        open_with: false,
        search_history_popup: false,
        address_editing: false,
        shortcut_capture: false,
        sidebar_bookmark_drag: false,
        selection_marquee: false,
    }
}

/// What a dismissal asks for beyond closing layers.
#[derive(Debug, Clone, PartialEq, Eq)]
pub enum DismissEffect {
    Nothing,
    /// Answer the waiting incoming transfer with a rejection.
    RejectIncoming(TransferServiceAction),
    /// Stop the running checksum computation.
    CancelChecksum,
    /// The plain interactions were dropped: commit the rename that was in
    /// progress (when `commit_rename` names its entry), and when nothing at
    /// all was open, leave the icon view's expanded folder.
    InteractionsDropped { commit_rename: Option<FsPath>, escape_expansion: bool },
}

/// Some plain interaction of the main window is going on.
pub open spec fn interaction_open(browser: FileBrowser) -> bool {
    ||| browser.context_menu is Some
    ||| browser.layers.address_editing
    ||| browser.layers.shortcut_capture
    ||| browser.operation_queue.panel_open
    ||| browser.file_drag is Some
    ||| browser.file_drop_session is Some
    ||| browser.layers.sidebar_bookmark_drag
    ||| browser.layers.selection_marquee
    ||| browser.renaming is Some
}

/// A prompt that blocks the file operations is open.
pub open spec fn prompt_open(browser: FileBrowser) -> bool {
    ||| browser.destructive_action_confirmation is Some
    ||| browser.incoming_transfer is Some
    ||| browser.file_drop_prompt is Some
    ||| browser.transfer_conflict is Some
}

/// Dismissing the topmost prompt: the destructive-action confirmation, the
/// incoming-transfer prompt (rejected, when the service runs), the drop
/// prompt, then the conflict dialog.
pub open spec fn prompt_dismissal(before: FileBrowser) -> (FileBrowser, DismissEffect) {
    if before.destructive_action_confirmation is Some {
        (FileBrowser { destructive_action_confirmation: None, ..before }, DismissEffect::Nothing)
    } else if before.incoming_transfer is Some {
        (
            FileBrowser { incoming_transfer: None, ..before },
            if before.transfer_runtime is Some {
                DismissEffect::RejectIncoming(
                    TransferServiceAction::RejectSession { session_id: before.incoming_transfer->0.session_id },
                )
            } else {
                DismissEffect::Nothing
            },
        )
    } else if before.file_drop_prompt is Some {
        (FileBrowser { file_drop_prompt: None, ..before }, DismissEffect::Nothing)
    } else {
        (FileBrowser { transfer_conflict: None, ..before }, DismissEffect::Nothing)
    }
}

/// A dialog or popup is open.
pub open spec fn dialog_open(browser: FileBrowser) -> bool {
    let layers = browser.layers;
    ||| layers.archive_creation
    ||| layers.convert
    ||| layers.checksum
    ||| layers.archive_extraction
    ||| browser.archive_member_password is Some
    ||| layers.batch_rename
    ||| browser.advanced_new_folder is Some
    ||| layers.network_connection_editor
    ||| layers.open_with
    ||| layers.search_history_popup
}

/// The dialogs and popups from the top of the stack down: archive creation,
/// conversion, the checksum, archive extraction, the archive password
/// dialog, batch rename, the advanced new folder dialog, the network
/// connection editor, "open with", the search history popup; each flag says
/// whether it is open.
pub open spec fn dialog_stack(layers: FloatingLayers, password_open: bool, new_folder_open: bool) -> Seq<bool> {
    seq![
        layers.archive_creation,
        layers.convert,
        layers.checksum,
        layers.archive_extraction,
        password_open,
        layers.batch_rename,
        new_folder_open,
        layers.network_connection_editor,
        layers.open_with,
        layers.search_history_popup,
    ]
}

/// The position of the topmost open entry of `stack` at or below `from`,
/// or the stack's length when none is open.
pub open spec fn topmost_open(stack: Seq<bool>, from: int) -> int
    decreases stack.len() - from,
{
    if from < 0 || from >= stack.len() {
        stack.len() as int
    } else if stack[from] {
        from
    } else {
        topmost_open(stack, from + 1)
    }
}

/// The stack position of the topmost open dialog of `browser`.
pub open spec fn top_dialog(browser: FileBrowser) -> int {
    topmost_open(
        dialog_stack(browser.layers, browser.archive_member_password is Some, browser.advanced_new_folder is Some),
        0,
    )
}

/// `layers` with the dialog flags of `stack` (the password and new folder
/// dialogs are not kept among the layers).
pub open spec fn layers_with_stack(layers: FloatingLayers, stack: Seq<bool>) -> FloatingLayers {
    FloatingLayers {
        archive_creation: stack[0],
        convert: stack[1],
        checksum: stack[2],
        archive_extraction: stack[3],
        batch_rename: stack[5],
        network_connection_editor: stack[7],
        open_with: stack[8],
        search_history_popup: stack[9],
        ..layers
    }
}

/// The layers after the topmost open dialog closed: its flag is cleared,
/// every other flag stays.
pub open spec fn dismissed_layers_of(layers: FloatingLayers, password_open: bool, new_folder_open: bool) -> FloatingLayers {
    let stack = dialog_stack(layers, password_open, new_folder_open);
    let top = topmost_open(stack, 0);
    if top < stack.len() {
        layers_with_stack(layers, stack.update(top, false))
    } else {
        layers
    }
}

pub open spec fn dismissed_layers(browser: FileBrowser) -> FloatingLayers {
    dismissed_layers_of(
        browser.layers,
        browser.archive_member_password is Some,
        browser.advanced_new_folder is Some,
    )
}

proof fn lemma_topmost_open_at(stack: Seq<bool>, from: int, k: int)
    requires
        0 <= from <= k <= stack.len(),
        forall|j: int| from <= j < k ==> !stack[j],
        k < stack.len() ==> stack[k],
    ensures
        topmost_open(stack, from) == k,
    decreases k - from,
{
    if from < k {
        lemma_topmost_open_at(stack, from + 1, k);
    }
}

/// The stack position of the topmost open dialog (see `dialog_stack`).
fn top_dialog_position(layers: &FloatingLayers, password_open: bool, new_folder_open: bool) -> (k: usize)
    ensures
        k == topmost_open(dialog_stack(*layers, password_open, new_folder_open), 0),
{
    let k: usize = if layers.archive_creation {
        0
    } else if layers.convert {
        1
    } else if layers.checksum {
        2
    } else if layers.archive_extraction {
        3
    } else if password_open {
        4
    } else if layers.batch_rename {
        5
    } else if new_folder_open {
        6
    } else if layers.network_connection_editor {
        7
    } else if layers.open_with {
        8
    } else if layers.search_history_popup {
        9
    } else {
        10
    };
    proof {
        lemma_topmost_open_at(dialog_stack(*layers, password_open, new_folder_open), 0, k as int);
    }
    k
}

#[verifier::rlimit(40)]
fn close_top_layer(layers: &mut FloatingLayers, password_open: bool, new_folder_open: bool)
    ensures
        *final(layers) == dismissed_layers_of(*old(layers), password_open, new_folder_open),
{
    let ghost stack = dialog_stack(*layers, password_open, new_folder_open);
    let ghost before = *layers;
    let k = top_dialog_position(layers, password_open, new_folder_open);
    if k == 0 {
        layers.archive_creation = false;
    } else if k == 1 {
        layers.convert = false;
    } else if k == 2 {
        layers.checksum = false;
    } else if k == 3 {
        layers.archive_extraction = false;
    } else if k == 5 {
        layers.batch_rename = false;
    } else if k == 7 {
        layers.network_connection_editor = false;
    } else if k == 8 {
        layers.open_with = false;
    } else if k == 9 {
        layers.search_history_popup = false;
    }
    proof {
        if k < 10 {
            assert(*layers == layers_with_stack(before, stack.update(k as int, false)));
        }
    }
}

/// Dismissing the topmost dialog (see `dialog_stack` for the order): it
/// closes, every other stays; closing the checksum dialog cancels its
/// computation.
pub open spec fn dialog_dismissal(before: FileBrowser) -> (FileBrowser, DismissEffect) {
    (
        FileBrowser {
            layers: dismissed_layers(before),
            archive_member_password: if top_dialog(before) == 4 {
                None
            } else {
                before.archive_member_password
            },
            advanced_new_folder: if top_dialog(before) == 6 {
                None
            } else {
                before.advanced_new_folder
            },
            ..before
        },
        if top_dialog(before) == 2 {
            DismissEffect::CancelChecksum
        } else {
            DismissEffect::Nothing
        },
    )
}

/// Dropping every plain interaction at once: menus, the address editor, a
/// shortcut recording, the queue panel, drags and the rename field (whose
/// edit is committed).
pub open spec fn interactions_dismissal(before: FileBrowser) -> (FileBrowser, DismissEffect) {
    (
        FileBrowser {
            context_menu: None,
            layers: FloatingLayers {
                address_editing: false,
                shortcut_capture: false,
                sidebar_bookmark_drag: false,
                selection_marquee: false,
                ..before.layers
            },
            operation_queue: crate::operations::OperationQueue { panel_open: false, ..before.operation_queue },
            file_drag: None,
            file_drop_session: None,
            renaming: None,
            ..before
        },
        DismissEffect::InteractionsDropped { commit_rename: before.renaming, escape_expansion: !interaction_open(before) },
    )
}

/// What one dismissal (Escape, or a click outside) does: the topmost open
/// prompt closes; with none, the topmost dialog; with none either, every
/// plain interaction is dropped at once.
pub open spec fn dismiss_spec(before: FileBrowser) -> (FileBrowser, DismissEffect) {
    if prompt_open(before) {
        prompt_dismissal(before)
    } else if dialog_open(before) {
        dialog_dismissal(before)
    } else {
        interactions_dismissal(before)
    }
}

impl FileBrowser {
    fn dismiss_prompt(&mut self) -> (effect: Option<DismissEffect>)
        ensures
            prompt_open(*old(self)) ==> (effect matches Some(e) && (*final(self), e) == prompt_dismissal(*old(self))),
            !prompt_open(*old(self)) ==> effect is None && *final(self) == *old(self),
    {
        if self.destructive_action_confirmation.is_some() {
            self.destructive_action_confirmation = None;
            return Some(DismissEffect::Nothing);
        }
        if self.incoming_transfer.is_some() {
            return match self.reject_pending_incoming_transfer() {
                Some(action) => Some(DismissEffect::RejectIncoming(action)),
                None => Some(DismissEffect::Nothing),
            };
        }
        if self.file_drop_prompt.is_some() {
            self.file_drop_prompt = None;
            return Some(DismissEffect::Nothing);
        }
        if self.transfer_conflict.is_some() {
            self.transfer_conflict = None;
            return Some(DismissEffect::Nothing);
        }
        None
    }

    fn dismiss_dialog(&mut self) -> (effect: Option<DismissEffect>)
        ensures
            dialog_open(*old(self)) ==> (effect matches Some(e) && (*final(self), e) == dialog_dismissal(*old(self))),
            !dialog_open(*old(self)) ==> effect is None && *final(self) == *old(self),
    {
        let layers = self.layers;
        let password_open = self.archive_member_password.is_some();
        let new_folder_open = self.advanced_new_folder.is_some();
        let open = layers.archive_creation || layers.convert || layers.checksum || layers.archive_extraction
            || password_open || layers.batch_rename || new_folder_open || layers.network_connection_editor
            || layers.open_with || layers.search_history_popup;
        if !open {
            return None;
        }
        let top = top_dialog_position(&layers, password_open, new_folder_open);
        let effect = if top == 2 {
            DismissEffect::CancelChecksum
        } else {
            DismissEffect::Nothing
        };
        let mut next = layers;
        close_top_layer(&mut next, password_open, new_folder_open);
        self.layers = next;
        if top == 4 {
            self.archive_member_password = None;
        }
        if top == 6 {
            self.advanced_new_folder = None;
        }
        Some(effect)
    }

    fn drop_interactions(&mut self) -> (effect: DismissEffect)
        ensures
            (*final(self), effect) == interactions_dismissal(*old(self)),
    {
        let dismissed_existing_interaction = self.context_menu.is_some() || self.layers.address_editing
            || self.layers.shortcut_capture || self.operation_queue.panel_open || self.file_drag.is_some()
            || self.file_drop_session.is_some() || self.layers.sidebar_bookmark_drag
            || self.layers.selection_marquee || self.renaming.is_some();
        let layers = FloatingLayers {
            address_editing: false,
            shortcut_capture: false,
            sidebar_bookmark_drag: false,
            selection_marquee: false,
            ..self.layers
        };
        self.layers = layers;
        self.context_menu = None;
        self.operation_queue.close_panel();
        self.file_drag = None;
        self.file_drop_session = None;
        let commit_rename = self.renaming.take();
        DismissEffect::InteractionsDropped { commit_rename, escape_expansion: !dismissed_existing_interaction }
    }

    /// `dismiss_floating`.
    pub fn dismiss_floating(&mut self) -> (effect: DismissEffect)
        ensures
            (*final(self), effect) == dismiss_spec(*old(self)),
            old(self).collections_well_formed() ==> final(self).collections_well_formed(),
    {
        if let Some(effect) = self.dismiss_prompt() {
            return effect;
        }
        if let Some(effect) = self.dismiss_dialog() {
            return effect;
        }
        self.drop_interactions()
    }
}


// ---------------------------------------------------------------------------
// Windows and focus
// ---------------------------------------------------------------------------

/// The application's windows, by the identifiers the window system gave
/// them, and which of them has the focus.
#[derive(Debug, Clone, PartialEq, Eq)]
pub struct AppWindows {
    pub main: u64,
    pub settings: Option<u64>,
    pub properties: Option<u64>,
    pub preview: Option<u64>,
    pub transfer: Option<u64>,
    /// The window the application treats as focused.
    pub focused: u64,
    /// The window the desktop reports as focused, if any of ours is.
    pub system_focused: Option<u64>,
    pub maximized: Vec<u64>,
    /// The settings window shows one of its sub pages.
    pub settings_subpage_open: bool,
    /// The settings window asks to confirm a restart of the search service.
    pub search_restart_confirmation: bool,
    /// The page the settings window shows.
    pub settings_category: SettingsCategory,
}

/// The pages of the settings window.
#[derive(Debug, Clone, Copy, PartialEq, Eq, Structural)]
pub enum SettingsCategory {
    General,
    Appearance,
    Files,
    Search,
    Transfer,
    Shortcuts,
    Logs,
    About,
}

/// Only the main window is open, and it has the focus.
pub open spec fn fresh_windows(windows: AppWindows, main: u64) -> bool {
    &&& windows.main == main
    &&& windows.settings is None
    &&& windows.properties is None
    &&& windows.preview is None
    &&& windows.transfer is None
    &&& windows.focused == main
    &&& windows.system_focused == Some(main)
    &&& windows.maximized@.len() == 0
    &&& !windows.settings_subpage_open
    &&& !windows.search_restart_confirmation
    &&& windows.settings_category == SettingsCategory::General
}

impl AppWindows {
    pub fn new(main: u64) -> (windows: AppWindows)
        ensures
            fresh_windows(windows, main),
    {
        AppWindows {
            main,
            settings: None,
            properties: None,
            preview: None,
            transfer: None,
            focused: main,
            system_focused: Some(main),
            maximized: Vec::new(),
            settings_subpage_open: false,
            search_restart_confirmation: false,
            settings_category: SettingsCategory::General,
        }
    }
}

/// The auxiliary windows the browser opens itself.
#[derive(Debug, Clone, Copy, PartialEq, Eq, Structural)]
pub enum WindowKind {
    Settings,
    Properties,
    Transfer,
}

/// What the window bookkeeping asks of the window system and the services.
#[derive(Debug, Clone, PartialEq, Eq)]
pub enum WindowEffect {
    GainFocus(u64),
    /// Open a new window of this kind and report it with `window_opened`.
    OpenWindow(WindowKind),
    CloseWindow(u64),
    /// Close the preview window (the preview engine reports which one).
    ClosePreview,
    /// Stop the QR download session of the transfer window.
    CancelQrSession,
    /// Scroll the settings page back to its top.
    ResetSettingsScroll,
    /// Check whether the search field should take the keyboard focus.
    CheckSearchInputFocus,
    /// Close the application.
    BeginShutdown,
    /// Stop editing the address bar.
    CancelAddressEditing,
    /// Take the keyboard from the terminal drawer when the press fell
    /// outside it.
    ReleaseTerminalFocus,
    /// Check whether the rename field kept the keyboard focus.
    CheckRenameInputFocus,
    /// Check whether the address bar of this pane kept the keyboard focus.
    CheckAddressInputFocus(BrowserPaneId),
    /// Commit the rename of this entry that was in progress.
    CommitRename(FsPath),
    /// Refresh the search service's status and its configured paths.
    RefreshSearchService,
    /// Reload the application log shown in the settings.
    RefreshLogs,
    /// Drop the check of the configured startup directory, to be made again.
    InvalidateStartupDirectoryValidation,
    Dismissed(DismissEffect),
}

/// `window` with its focus records cleared: it is no longer maximized, the
/// application focus falls back to the main window, and the desktop focus
/// is forgotten.
pub open spec fn focus_cleared(windows: AppWindows, window: u64, after: AppWindows) -> bool {
    &&& after.maximized@ == windows.maximized@.filter(other_than(window))
    &&& after.focused == if windows.focused == window {
        windows.main
    } else {
        windows.focused
    }
    &&& after.system_focused == if windows.system_focused == Some(window) {
        None
    } else {
        windows.system_focused
    }
    &&& after == (AppWindows {
        maximized: after.maximized,
        focused: after.focused,
        system_focused: after.system_focused,
        ..windows
    })
}

/// The windows other than `window`.
pub open spec fn other_than(window: u64) -> spec_fn(u64) -> bool {
    |w: u64| w != window
}

fn without_window(windows: &Vec<u64>, window: u64) -> (kept: Vec<u64>)
    ensures
        kept@ == windows@.filter(other_than(window)),
{
    let mut kept: Vec<u64> = Vec::new();
    let mut i: usize = 0;
    while i < windows.len()
        invariant
            i <= windows@.len(),
            kept@ == windows@.take(i as int).filter(other_than(window)),
        decreases windows@.len() - i,
    {
        proof {
            reveal(Seq::filter);
            assert(windows@.take(i + 1).drop_last() =~= windows@.take(i as int));
        }
        if windows[i] != window {
            kept.push(windows[i]);
        }
        i = i + 1;
    }
    assert(windows@.take(windows@.len() as int) =~= windows@);
    kept
}

impl AppWindows {
    /// `clear_closed_window_focus`.
    pub fn clear_closed_window_focus(&mut self, window: u64)
        ensures
            focus_cleared(*old(self), window, *final(self)),
    {
        self.maximized = without_window(&self.maximized, window);
        if self.focused == window {
            self.focused = self.main;
        }
        match self.system_focused {
            Some(focused) => {
                if focused == window {
                    self.system_focused = None;
                }
            },
            None => {},
        }
    }

    /// Forgets the window of `kind`, with its focus records; returns it
    /// when it was open.
    pub fn close_window(&mut self, kind: WindowKind) -> (closed: Option<u64>)
        ensures
            closed == window_of(*old(self), kind),
            match closed {
                Some(window) => focus_cleared(with_window(*old(self), kind, None, old(self).focused), window, *final(self)),
                None => *final(self) == *old(self),
            },
    {
        let closed = match kind {
            WindowKind::Settings => self.settings.take(),
            WindowKind::Properties => self.properties.take(),
            WindowKind::Transfer => self.transfer.take(),
        };
        if let Some(window) = closed {
            self.clear_closed_window_focus(window);
        }
        closed
    }

    /// Records the window of `kind` the window system opened, and focuses it.
    pub fn record_opened(&mut self, kind: WindowKind, window: u64)
        ensures
            *final(self) == with_window(*old(self), kind, Some(window), window),
    {
        match kind {
            WindowKind::Settings => self.settings = Some(window),
            WindowKind::Properties => self.properties = Some(window),
            WindowKind::Transfer => self.transfer = Some(window),
        }
        self.focused = window;
    }
}

/// The title message of `window`, before translation.
pub open spec fn window_title_spec(browser: FileBrowser, window: u64) -> Seq<char> {
    let windows = browser.windows;
    if windows.settings == Some(window) {
        "Settings - Bennu"@
    } else if windows.properties == Some(window) {
        "Properties - Bennu"@
    } else if windows.preview == Some(window) {
        "Preview - Bennu"@
    } else if windows.transfer == Some(window) {
        "Send to Phone - Bennu"@
    } else if browser.search_workspace_open {
        "Search - Bennu"@
    } else {
        "Bennu"@
    }
}

impl FileBrowser {
    /// `window_title`: the message key of a window's title (the display
    /// translates it).
    pub fn window_title(&self, window: u64) -> (title: String)
        ensures
            title@ == window_title_spec(*self, window),
    {
        if self.windows.settings == Some(window) {
            String::from_str("Settings - Bennu")
        } else if self.windows.properties == Some(window) {
            String::from_str("Properties - Bennu")
        } else if self.windows.preview == Some(window) {
            String::from_str("Preview - Bennu")
        } else if self.windows.transfer == Some(window) {
            String::from_str("Send to Phone - Bennu")
        } else if self.search_workspace_open {
            String::from_str("Search - Bennu")
        } else {
            String::from_str("Bennu")
        }
    }

    /// `handle_window_focused`: the window becomes the focused one; the
    /// main window getting the focus asks whether the search field should
    /// take the keyboard.
    pub fn handle_window_focused(&mut self, window: u64) -> (effect: Option<WindowEffect>)
        ensures
            *final(self) == (FileBrowser {
                windows: AppWindows { focused: window, system_focused: Some(window), ..old(self).windows },
                ..*old(self)
            }),
            effect == if window == old(self).windows.main {
                Some(WindowEffect::CheckSearchInputFocus)
            } else {
                None
            },
            old(self).collections_well_formed() ==> final(self).collections_well_formed(),
    {
        self.windows.focused = window;
        self.windows.system_focused = Some(window);
        if window == self.windows.main {
            Some(WindowEffect::CheckSearchInputFocus)
        } else {
            None
        }
    }

    /// `handle_window_unfocused`: the desktop focus is forgotten; the main
    /// window losing it hides the search history popup; the preview window
    /// closes when the preview engine says it should (`preview_should_close`).
    pub fn handle_window_unfocused(&mut self, window: u64, preview_should_close: bool) -> (effect: Option<WindowEffect>)
        ensures
            final(self).windows == (AppWindows {
                system_focused: if old(self).windows.system_focused == Some(window) {
                    None
                } else {
                    old(self).windows.system_focused
                },
                ..old(self).windows
            }),
            final(self).layers == if window == old(self).windows.main {
                FloatingLayers { search_history_popup: false, ..old(self).layers }
            } else {
                old(self).layers
            },
            *final(self) == (FileBrowser { windows: final(self).windows, layers: final(self).layers, ..*old(self) }),
            effect == if preview_should_close {
                Some(WindowEffect::ClosePreview)
            } else {
                None
            },
            old(self).collections_well_formed() ==> final(self).collections_well_formed(),
    {
        if self.windows.system_focused == Some(window) {
            self.windows.system_focused = None;
        }
        if window == self.windows.main {
            self.layers = FloatingLayers { search_history_popup: false, ..self.layers };
        }
        if preview_should_close {
            Some(WindowEffect::ClosePreview)
        } else {
            None
        }
    }

    /// Shows the window of `kind` (settings and the other single
    /// windows): an open one gets the focus; otherwise one is to be opened.
    pub fn ensure_window(&mut self, kind: WindowKind) -> (effect: WindowEffect)
        ensures
            match window_of(old(self).windows, kind) {
                Some(window) => *final(self) == (FileBrowser {
                    windows: AppWindows { focused: window, ..old(self).windows },
                    ..*old(self)
                }) && effect == WindowEffect::GainFocus(window),
                None => *final(self) == *old(self) && effect == WindowEffect::OpenWindow(kind),
            },
            old(self).collections_well_formed() ==> final(self).collections_well_formed(),
    {
        let existing = match kind {
            WindowKind::Settings => self.windows.settings,
            WindowKind::Properties => self.windows.properties,
            WindowKind::Transfer => self.windows.transfer,
        };
        match existing {
            Some(window) => {
                self.windows.focused = window;
                WindowEffect::GainFocus(window)
            },
            None => WindowEffect::OpenWindow(kind),
        }
    }

    /// The window of `kind` that the window system opened: recorded, and
    /// focused.
    pub fn window_opened(&mut self, kind: WindowKind, window: u64)
        ensures
            *final(self) == (FileBrowser { windows: with_window(old(self).windows, kind, Some(window), window), ..*old(self) }),
            old(self).collections_well_formed() ==> final(self).collections_well_formed(),
    {
        self.windows.record_opened(kind, window);
    }

    /// `close_settings_window`: a shortcut recording and a pending
    /// confirmation end with it.
    pub fn close_settings_window(&mut self) -> (effect: Option<WindowEffect>)
        ensures
            settings_closed(*old(self), *final(self), effect),
            old(self).collections_well_formed() ==> final(self).collections_well_formed(),
    {
        self.layers = FloatingLayers { shortcut_capture: false, ..self.layers };
        self.windows.search_restart_confirmation = false;
        match self.windows.close_window(WindowKind::Settings) {
            Some(window) => Some(WindowEffect::CloseWindow(window)),
            None => None,
        }
    }

    /// `close_properties_window`.
    pub fn close_properties_window(&mut self) -> (effect: Option<WindowEffect>)
        ensures
            properties_closed(*old(self), *final(self), effect),
            old(self).collections_well_formed() ==> final(self).collections_well_formed(),
    {
        match self.windows.close_window(WindowKind::Properties) {
            Some(window) => Some(WindowEffect::CloseWindow(window)),
            None => None,
        }
    }

    /// `close_transfer_window`: the QR session ends with the window.
    pub fn close_transfer_window(&mut self) -> (effects: Vec<WindowEffect>)
        ensures
            transfer_window_closed(*old(self), *final(self), effects@),
            old(self).collections_well_formed() ==> final(self).collections_well_formed(),
    {
        let mut effects: Vec<WindowEffect> = Vec::new();
        if self.transfer_session.is_some() {
            self.transfer_session = None;
            effects.push(WindowEffect::CancelQrSession);
        }
        if let Some(window) = self.windows.close_window(WindowKind::Transfer) {
            effects.push(WindowEffect::CloseWindow(window));
        }
        effects
    }

    /// The preview engine closed `window`: its focus records go.
    pub fn preview_window_closed(&mut self, window: u64)
        ensures
            focus_cleared(AppWindows { preview: None, ..old(self).windows }, window, final(self).windows),
            *final(self) == (FileBrowser { windows: final(self).windows, ..*old(self) }),
            old(self).collections_well_formed() ==> final(self).collections_well_formed(),
    {
        self.windows.preview = None;
        self.windows.clear_closed_window_focus(window);
    }

    /// `handle_captured_preview_shortcut`: the preview's own shortcut closes
    /// it when it has the focus.
    pub fn handle_captured_preview_shortcut(&self) -> (effect: Option<WindowEffect>)
        ensures
            effect == if self.windows.preview == Some(self.windows.focused) {
                Some(WindowEffect::ClosePreview)
            } else {
                None
            },
    {
        if self.windows.preview == Some(self.windows.focused) {
            Some(WindowEffect::ClosePreview)
        } else {
            None
        }
    }
}

/// The window of `kind`, when it is open.
pub open spec fn window_of(windows: AppWindows, kind: WindowKind) -> Option<u64> {
    match kind {
        WindowKind::Settings => windows.settings,
        WindowKind::Properties => windows.properties,
        WindowKind::Transfer => windows.transfer,
    }
}

/// `windows` with the window of `kind` set to `window` and `focused` focused.
pub open spec fn with_window(windows: AppWindows, kind: WindowKind, window: Option<u64>, focused: u64) -> AppWindows {
    match kind {
        WindowKind::Settings => AppWindows { settings: window, focused, ..windows },
        WindowKind::Properties => AppWindows { properties: window, focused, ..windows },
        WindowKind::Transfer => AppWindows { transfer: window, focused, ..windows },
    }
}


/// Closing the settings window: a shortcut recording and a pending restart
/// confirmation end with it; the window closes, when it is open.
pub open spec fn settings_closed(before: FileBrowser, after: FileBrowser, effect: Option<WindowEffect>) -> bool {
    &&& after.layers == (FloatingLayers { shortcut_capture: false, ..before.layers })
    &&& after.windows.settings is None
    &&& match before.windows.settings {
        Some(window) => focus_cleared(
            AppWindows { settings: None, search_restart_confirmation: false, ..before.windows },
            window,
            after.windows,
        ) && effect == Some(WindowEffect::CloseWindow(window)),
        None => after.windows == (AppWindows { search_restart_confirmation: false, ..before.windows })
            && effect is None,
    }
    &&& after == (FileBrowser { windows: after.windows, layers: after.layers, ..before })
}

/// Closing the properties window, when it is open.
pub open spec fn properties_closed(before: FileBrowser, after: FileBrowser, effect: Option<WindowEffect>) -> bool {
    &&& match before.windows.properties {
        Some(window) => focus_cleared(AppWindows { properties: None, ..before.windows }, window, after.windows)
            && effect == Some(WindowEffect::CloseWindow(window)),
        None => after.windows == before.windows && effect is None,
    }
    &&& after == (FileBrowser { windows: after.windows, ..before })
}

/// Closing the transfer window: its QR session ends, then the window
/// closes, when it is open.
pub open spec fn transfer_window_closed(before: FileBrowser, after: FileBrowser, effects: Seq<WindowEffect>) -> bool {
    let cancel = if before.transfer_session is Some {
        seq![WindowEffect::CancelQrSession]
    } else {
        Seq::<WindowEffect>::empty()
    };
    &&& match before.windows.transfer {
        Some(window) => focus_cleared(AppWindows { transfer: None, ..before.windows }, window, after.windows)
            && effects == cancel.push(WindowEffect::CloseWindow(window)),
        None => after.windows == before.windows && effects == cancel,
    }
    &&& after == (FileBrowser { windows: after.windows, transfer_session: None, ..before })
}

pub open spec fn optional_effect(effect: Option<WindowEffect>) -> Seq<WindowEffect> {
    match effect {
        Some(e) => seq![e],
        None => Seq::empty(),
    }
}

/// What Escape does in the focused window: in the settings window it first
/// drops a pending restart confirmation, then leaves a sub page, then
/// closes the window; the properties and transfer windows close; the
/// preview closes; in the main window it stops editing the address, or
/// else dismisses the topmost floating layer.
pub open spec fn escape_outcome(before: FileBrowser, after: FileBrowser, effects: Seq<WindowEffect>) -> bool {
    let windows = before.windows;
    if windows.settings == Some(windows.focused) {
        if windows.search_restart_confirmation {
            after == (FileBrowser {
                windows: AppWindows { search_restart_confirmation: false, ..windows },
                ..before
            }) && effects.len() == 0
        } else if windows.settings_subpage_open {
            after == (FileBrowser { windows: AppWindows { settings_subpage_open: false, ..windows }, ..before })
                && effects == seq![WindowEffect::ResetSettingsScroll]
        } else {
            exists|effect: Option<WindowEffect>|
                #[trigger] settings_closed(before, after, effect) && effects == optional_effect(effect)
        }
    } else if windows.properties == Some(windows.focused) {
        exists|effect: Option<WindowEffect>|
            #[trigger] properties_closed(before, after, effect) && effects == optional_effect(effect)
    } else if windows.transfer == Some(windows.focused) {
        transfer_window_closed(before, after, effects)
    } else if windows.preview == Some(windows.focused) {
        after == before && effects == seq![WindowEffect::ClosePreview]
    } else if before.layers.address_editing {
        after == (FileBrowser { layers: FloatingLayers { address_editing: false, ..before.layers }, ..before })
            && effects == seq![WindowEffect::CancelAddressEditing]
    } else {
        (after, DismissEffect::Nothing) == (dismiss_spec(before).0, DismissEffect::Nothing) && effects == seq![
            WindowEffect::Dismissed(dismiss_spec(before).1),
        ]
    }
}

/// What a close request of `window` does while the application runs
/// (`running`): the main window shuts the application down; an auxiliary
/// window closes as its close command does; an unknown window is ignored.
pub open spec fn close_request_outcome(
    before: FileBrowser,
    after: FileBrowser,
    window: u64,
    running: bool,
    effects: Seq<WindowEffect>,
) -> bool {
    let windows = before.windows;
    if !running {
        after == before && effects.len() == 0
    } else if window == windows.main {
        after == before && effects == seq![WindowEffect::BeginShutdown]
    } else if windows.settings == Some(window) {
        exists|effect: Option<WindowEffect>|
            #[trigger] settings_closed(before, after, effect) && effects == optional_effect(effect)
    } else if windows.properties == Some(window) {
        exists|effect: Option<WindowEffect>|
            #[trigger] properties_closed(before, after, effect) && effects == optional_effect(effect)
    } else if windows.preview == Some(window) {
        after == before && effects == seq![WindowEffect::ClosePreview]
    } else if windows.transfer == Some(window) {
        transfer_window_closed(before, after, effects)
    } else {
        after == before && effects.len() == 0
    }
}

fn optional_effect_vec(effect: Option<WindowEffect>) -> (effects: Vec<WindowEffect>)
    ensures
        effects@ == optional_effect(effect),
{
    let mut effects: Vec<WindowEffect> = Vec::new();
    if let Some(e) = effect {
        effects.push(e);
    }
    assert(effects@ =~= optional_effect(effect));
    effects
}

impl FileBrowser {
    /// `handle_focused_window_escape_pressed`.
    pub fn handle_focused_window_escape_pressed(&mut self) -> (effects: Vec<WindowEffect>)
        ensures
            escape_outcome(*old(self), *final(self), effects@),
            old(self).collections_well_formed() ==> final(self).collections_well_formed(),
    {
        let focused = self.windows.focused;
        if self.windows.settings == Some(focused) {
            if self.windows.search_restart_confirmation {
                self.windows.search_restart_confirmation = false;
                return Vec::new();
            }
            if self.windows.settings_subpage_open {
                self.windows.settings_subpage_open = false;
                let mut effects: Vec<WindowEffect> = Vec::new();
                effects.push(WindowEffect::ResetSettingsScroll);
                assert(effects@ =~= seq![WindowEffect::ResetSettingsScroll]);
                return effects;
            }
            let effect = self.close_settings_window();
            return optional_effect_vec(effect);
        }
        if self.windows.properties == Some(focused) {
            let effect = self.close_properties_window();
            return optional_effect_vec(effect);
        }
        if self.windows.transfer == Some(focused) {
            return self.close_transfer_window();
        }
        let mut effects: Vec<WindowEffect> = Vec::new();
        if self.windows.preview == Some(focused) {
            effects.push(WindowEffect::ClosePreview);
            assert(effects@ =~= seq![WindowEffect::ClosePreview]);
            return effects;
        }
        if self.layers.address_editing {
            self.layers = FloatingLayers { address_editing: false, ..self.layers };
            effects.push(WindowEffect::CancelAddressEditing);
            assert(effects@ =~= seq![WindowEffect::CancelAddressEditing]);
            return effects;
        }
        let dismissed = self.dismiss_floating();
        effects.push(WindowEffect::Dismissed(dismissed));
        assert(effects@ =~= seq![WindowEffect::Dismissed(dismissed)]);
        effects
    }

    /// `close_auxiliary_window`: a close request of `window`; `running` says
    /// whether the application is still running (not shutting down).
    pub fn close_auxiliary_window(&mut self, window: u64, running: bool) -> (effects: Vec<WindowEffect>)
        ensures
            close_request_outcome(*old(self), *final(self), window, running, effects@),
            old(self).collections_well_formed() ==> final(self).collections_well_formed(),
    {
        let mut effects: Vec<WindowEffect> = Vec::new();
        if !running {
            return effects;
        }
        if window == self.windows.main {
            effects.push(WindowEffect::BeginShutdown);
            assert(effects@ =~= seq![WindowEffect::BeginShutdown]);
            return effects;
        }
        if self.windows.settings == Some(window) {
            let effect = self.close_settings_window();
            return optional_effect_vec(effect);
        }
        if self.windows.properties == Some(window) {
            let effect = self.close_properties_window();
            return optional_effect_vec(effect);
        }
        if self.windows.preview == Some(window) {
            effects.push(WindowEffect::ClosePreview);
            assert(effects@ =~= seq![WindowEffect::ClosePreview]);
            return effects;
        }
        if self.windows.transfer == Some(window) {
            return self.close_transfer_window();
        }
        effects
    }
}



// ---------------------------------------------------------------------------
// Opening the settings and the transfer window
// ---------------------------------------------------------------------------

/// The main window's interactions closed before another window opens:
/// menus, "open with", archive dialogs, a shortcut recording, the queue
/// panel, drags, the address editor and the rename field.
pub open spec fn main_interactions_closed(before: FileBrowser) -> FileBrowser {
    FileBrowser {
        context_menu: None,
        layers: FloatingLayers {
            open_with: false,
            archive_creation: false,
            archive_extraction: false,
            shortcut_capture: false,
            sidebar_bookmark_drag: false,
            selection_marquee: false,
            address_editing: false,
            ..before.layers
        },
        operation_queue: crate::operations::OperationQueue { panel_open: false, ..before.operation_queue },
        file_drag: None,
        file_drop_session: None,
        renaming: None,
        ..before
    }
}

/// The refresh a settings page needs when it is shown.
pub open spec fn category_refresh(category: SettingsCategory) -> Seq<WindowEffect> {
    match category {
        SettingsCategory::Search => seq![WindowEffect::RefreshSearchService],
        SettingsCategory::Logs => seq![WindowEffect::RefreshLogs],
        _ => Seq::empty(),
    }
}

pub open spec fn rename_commit(renaming: Option<FsPath>) -> Seq<WindowEffect> {
    match renaming {
        Some(path) => seq![WindowEffect::CommitRename(path)],
        None => Seq::empty(),
    }
}

fn push_category_refresh(effects: &mut Vec<WindowEffect>, category: SettingsCategory)
    ensures
        final(effects)@ == old(effects)@ + category_refresh(category),
{
    match category {
        SettingsCategory::Search => effects.push(WindowEffect::RefreshSearchService),
        SettingsCategory::Logs => effects.push(WindowEffect::RefreshLogs),
        _ => {},
    }
    assert(final(effects)@ =~= old(effects)@ + category_refresh(category));
}

impl FileBrowser {
    /// `prepare_transfer_window_open`: closes the main window's interactions;
    /// returns the rename to commit, when one was in progress.
    pub fn prepare_transfer_window_open(&mut self) -> (commit_rename: Option<FsPath>)
        ensures
            *final(self) == main_interactions_closed(*old(self)),
            commit_rename == old(self).renaming,
            old(self).collections_well_formed() ==> final(self).collections_well_formed(),
    {
        let layers = FloatingLayers {
            open_with: false,
            archive_creation: false,
            archive_extraction: false,
            shortcut_capture: false,
            sidebar_bookmark_drag: false,
            selection_marquee: false,
            address_editing: false,
            ..self.layers
        };
        self.layers = layers;
        self.context_menu = None;
        self.operation_queue.close_panel();
        self.file_drag = None;
        self.file_drop_session = None;
        self.renaming.take()
    }

    /// `open_settings`: the main window's interactions close (committing a
    /// rename), the settings window opens or gets the focus, and its page
    /// is refreshed when it needs it.
    pub fn open_settings(&mut self) -> (effects: Vec<WindowEffect>)
        ensures
            ({
                let closed = main_interactions_closed(*old(self));
                let window_effect = match old(self).windows.settings {
                    Some(window) => WindowEffect::GainFocus(window),
                    None => WindowEffect::OpenWindow(WindowKind::Settings),
                };
                &&& *final(self) == match old(self).windows.settings {
                    Some(window) => FileBrowser { windows: AppWindows { focused: window, ..closed.windows }, ..closed },
                    None => closed,
                }
                &&& effects@ == rename_commit(old(self).renaming) + seq![window_effect] + category_refresh(
                    old(self).windows.settings_category,
                )
            }),
            old(self).collections_well_formed() ==> final(self).collections_well_formed(),
    {
        let mut effects: Vec<WindowEffect> = Vec::new();
        if let Some(path) = self.prepare_transfer_window_open() {
            effects.push(WindowEffect::CommitRename(path));
        }
        let window_effect = self.ensure_window(WindowKind::Settings);
        effects.push(window_effect);
        push_category_refresh(&mut effects, self.windows.settings_category);
        proof {
            assert(effects@ =~= rename_commit(old(self).renaming) + seq![window_effect] + category_refresh(
                old(self).windows.settings_category,
            ));
        }
        effects
    }

    /// `select_settings_category`: shows `category` from its top, dropping
    /// a shortcut recording, a pending restart confirmation and a sub page;
    /// leaving the general page drops the startup directory check.
    pub fn select_settings_category(&mut self, category: SettingsCategory) -> (effects: Vec<WindowEffect>)
        ensures
            *final(self) == (FileBrowser {
                layers: FloatingLayers { shortcut_capture: false, ..old(self).layers },
                windows: AppWindows {
                    search_restart_confirmation: false,
                    settings_category: category,
                    settings_subpage_open: false,
                    ..old(self).windows
                },
                ..*old(self)
            }),
            effects@ == (if category != SettingsCategory::General {
                seq![WindowEffect::InvalidateStartupDirectoryValidation]
            } else {
                Seq::empty()
            }) + seq![WindowEffect::ResetSettingsScroll] + category_refresh(category),
            old(self).collections_well_formed() ==> final(self).collections_well_formed(),
    {
        let mut effects: Vec<WindowEffect> = Vec::new();
        self.layers = FloatingLayers { shortcut_capture: false, ..self.layers };
        self.windows.search_restart_confirmation = false;
        if category != SettingsCategory::General {
            effects.push(WindowEffect::InvalidateStartupDirectoryValidation);
        }
        self.windows.settings_category = category;
        self.windows.settings_subpage_open = false;
        effects.push(WindowEffect::ResetSettingsScroll);
        let ghost before_refresh = effects@;
        push_category_refresh(&mut effects, category);
        proof {
            assert(before_refresh =~= (if category != SettingsCategory::General {
                seq![WindowEffect::InvalidateStartupDirectoryValidation]
            } else {
                Seq::empty()
            }) + seq![WindowEffect::ResetSettingsScroll]);
        }
        effects
    }
}

impl FileBrowser {
    /// `select_settings_subpage`: opens a sub page of the settings page,
    /// from its top.
    pub fn select_settings_subpage(&mut self) -> (effects: Vec<WindowEffect>)
        ensures
            *final(self) == (FileBrowser {
                windows: AppWindows { settings_subpage_open: true, ..old(self).windows },
                ..*old(self)
            }),
            effects@ == seq![WindowEffect::ResetSettingsScroll],
            old(self).collections_well_formed() ==> final(self).collections_well_formed(),
    {
        self.windows.settings_subpage_open = true;
        vec![WindowEffect::ResetSettingsScroll]
    }

    /// `close_settings_subpage`: back from a sub page to its settings
    /// page, from its top.
    pub fn close_settings_subpage(&mut self) -> (effects: Vec<WindowEffect>)
        ensures
            *final(self) == (FileBrowser {
                windows: AppWindows { settings_subpage_open: false, ..old(self).windows },
                ..*old(self)
            }),
            effects@ == seq![WindowEffect::ResetSettingsScroll],
            old(self).collections_well_formed() ==> final(self).collections_well_formed(),
    {
        self.windows.settings_subpage_open = false;
        vec![WindowEffect::ResetSettingsScroll]
    }
}

// ---------------------------------------------------------------------------
// Pointer presses
// ---------------------------------------------------------------------------

/// The mouse button of a press.
#[derive(Debug, Clone, Copy, PartialEq, Eq, Structural)]
pub enum PointerButton {
    Left,
    Right,
    Middle,
    Other,
}

/// Whether a widget under the pointer already handled the press.
#[derive(Debug, Clone, Copy, PartialEq, Eq, Structural)]
pub enum PointerEventStatus {
    Captured,
    Ignored,
}

/// How a press on a window goes on after the window-level checks.
#[derive(Debug, Clone, Copy, PartialEq, Eq, Structural)]
pub enum PointerPressStep {
    /// Nothing more happens.
    Done,
    /// A left press on the main window: a Ctrl+Shift pane drag may start
    /// from it; when none does, `finish_window_pointer_press` handles it.
    TryPaneDrag,
    /// `finish_window_pointer_press` handles the press.
    Finish,
}

/// What the end of a press reads of state kept outside the browser.
#[derive(Debug, Clone, Copy, PartialEq, Eq, Structural)]
pub struct PointerPressContext {
    /// The pane whose address bar is being edited, if any.
    pub address_editing: Option<BrowserPaneId>,
    /// The pointer is over the search history popup.
    pub over_search_history: bool,
    /// The preview window is pinned, so a press elsewhere keeps it open.
    pub preview_pinned: bool,
}

/// The focus checks a press asks for: after a press that a widget took,
/// whether the rename field, the address bar and (unless the press hit the
/// search history) the search field kept the keyboard; after a free left
/// press, the floating layers are dismissed too.
pub open spec fn press_effects(
    before: FileBrowser,
    button: PointerButton,
    status: PointerEventStatus,
    context: PointerPressContext,
) -> Seq<WindowEffect> {
    match (button, status) {
        (PointerButton::Other, _) => Seq::empty(),
        (_, PointerEventStatus::Captured) => {
            let rename = if before.renaming is Some {
                seq![WindowEffect::CheckRenameInputFocus]
            } else {
                Seq::empty()
            };
            let address = match context.address_editing {
                Some(pane_id) => seq![WindowEffect::CheckAddressInputFocus(pane_id)],
                None => Seq::empty(),
            };
            let search = if context.over_search_history {
                Seq::empty()
            } else {
                seq![WindowEffect::CheckSearchInputFocus]
            };
            rename + address + search
        },
        (PointerButton::Left, PointerEventStatus::Ignored) => seq![
            WindowEffect::Dismissed(dismiss_spec(before).1),
            WindowEffect::CheckSearchInputFocus,
        ],
        (_, PointerEventStatus::Ignored) => seq![WindowEffect::CheckSearchInputFocus],
    }
}

impl FileBrowser {
    /// The first half of `handle_window_pointer_pressed`: presses on the
    /// settings window or on windows other than the main one are left to
    /// them; a left press clears the error shown; while the preview window
    /// has the focus nothing more happens.
    pub fn handle_window_pointer_pressed(&mut self, window: u64, button: PointerButton) -> (step: PointerPressStep)
        ensures
            old(self).windows.settings == Some(window) || window != old(self).windows.main ==> {
                *final(self) == *old(self) && step == PointerPressStep::Done
            },
            !(old(self).windows.settings == Some(window) || window != old(self).windows.main) ==> {
                &&& *final(self) == if button == PointerButton::Left {
                    FileBrowser { global_error: None, ..*old(self) }
                } else {
                    *old(self)
                }
                &&& step == if old(self).windows.preview == Some(old(self).windows.focused) {
                    PointerPressStep::Done
                } else if button == PointerButton::Left {
                    PointerPressStep::TryPaneDrag
                } else {
                    PointerPressStep::Finish
                }
            },
            old(self).collections_well_formed() ==> final(self).collections_well_formed(),
    {
        if self.windows.settings == Some(window) || window != self.windows.main {
            return PointerPressStep::Done;
        }
        if button == PointerButton::Left {
            self.clear_global_error();
        }
        if self.windows.preview == Some(self.windows.focused) {
            return PointerPressStep::Done;
        }
        if button == PointerButton::Left {
            PointerPressStep::TryPaneDrag
        } else {
            PointerPressStep::Finish
        }
    }

    /// The rest of `handle_window_pointer_pressed`: the terminal drawer
    /// gives up the keyboard, an unpinned preview window closes, and the
    /// press asks for its focus checks (a free left press dismisses the
    /// floating layers as `dismiss_floating` does).
    pub fn finish_window_pointer_press(
        &mut self,
        button: PointerButton,
        status: PointerEventStatus,
        context: PointerPressContext,
    ) -> (effects: Vec<WindowEffect>)
        ensures
            *final(self) == if button == PointerButton::Left && status == PointerEventStatus::Ignored {
                dismiss_spec(*old(self)).0
            } else {
                *old(self)
            },
            effects@ == seq![WindowEffect::ReleaseTerminalFocus] + (if old(self).windows.preview is Some
                && !context.preview_pinned {
                seq![WindowEffect::ClosePreview]
            } else {
                Seq::empty()
            }) + press_effects(*old(self), button, status, context),
    {
        let ghost before = *self;
        let mut effects: Vec<WindowEffect> = Vec::new();
        effects.push(WindowEffect::ReleaseTerminalFocus);
        if self.windows.preview.is_some() && !context.preview_pinned {
            effects.push(WindowEffect::ClosePreview);
        }
        let ghost head = effects@;
        match (button, status) {
            (PointerButton::Other, _) => {},
            (_, PointerEventStatus::Captured) => {
                if self.renaming.is_some() {
                    effects.push(WindowEffect::CheckRenameInputFocus);
                }
                match context.address_editing {
                    Some(pane_id) => effects.push(WindowEffect::CheckAddressInputFocus(pane_id)),
                    None => {},
                }
                if !context.over_search_history {
                    effects.push(WindowEffect::CheckSearchInputFocus);
                }
            },
            (PointerButton::Left, PointerEventStatus::Ignored) => {
                let dismissed = self.dismiss_floating();
                effects.push(WindowEffect::Dismissed(dismissed));
                effects.push(WindowEffect::CheckSearchInputFocus);
            },
            (_, PointerEventStatus::Ignored) => {
                effects.push(WindowEffect::CheckSearchInputFocus);
            },
        }
        assert(effects@ =~= head + press_effects(before, button, status, context));
        effects
    }
}

// ---------------------------------------------------------------------------
// Laws
// ---------------------------------------------------------------------------

/// A closed window keeps none of the focus: the application focus moves to
/// the main window, the desktop focus is forgotten, and it is no longer
/// counted as maximized.
pub proof fn lemma_closed_window_keeps_no_focus(before: AppWindows, window: u64, after: AppWindows)
    requires
        focus_cleared(before, window, after),
        window != before.main,
    ensures
        after.focused != window,
        after.system_focused != Some(window),
        !after.maximized@.contains(window),
{
    if after.maximized@.contains(window) {
        let k = choose|k: int| 0 <= k < after.maximized@.len() && after.maximized@[k] == window;
        before.maximized@.filter_lemma(other_than(window));
        assert(other_than(window)(after.maximized@[k]));
    }
}

/// While a prompt or a dialog is open, a dismissal closes only that layer:
/// the rename in progress, drags, menus and the queue panel are left alone,
/// and exactly one layer is closed, so a second dismissal is needed for the
/// next one.
pub proof fn lemma_dismissal_closes_one_layer_at_a_time(before: FileBrowser)
    requires
        prompt_open(before) || dialog_open(before),
    ensures
        dismiss_spec(before).0.renaming == before.renaming,
        dismiss_spec(before).0.context_menu == before.context_menu,
        dismiss_spec(before).0.file_drag == before.file_drag,
        dismiss_spec(before).0.operation_queue == before.operation_queue,
        dismiss_spec(before).1 != (DismissEffect::InteractionsDropped { commit_rename: before.renaming, escape_expansion: true }),
        prompt_open(before) && dialog_open(before) ==> dialog_open(dismiss_spec(before).0),
{
}

} // verus!
