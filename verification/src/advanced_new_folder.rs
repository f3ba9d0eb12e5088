//! The advanced "new folder" dialog: its draft, the follow-up menu of its
//! split button (opened on hover, closed after a grace period), and the
//! hand-over of the confirmed dialog to the operation queue.

use vstd::prelude::*;
use crate::text::text_views;
use crate::browser::{DirectoryEntry, FileBrowser};
use crate::operations::QueuedFileOperation;
use crate::naming::path_views;
use crate::panes::ExpandedDirectory;
use crate::paths::{FsPath, PathModel, file_name_spec, parent_spec};
use crate::selection::{children_of, gather_sources_in_directory};

verus! {

/// How the dialog names the folders: one per line of a typed list, or a
/// numbered series from a prefix.
#[derive(Debug, Clone, Copy, PartialEq, Eq, Structural)]
pub enum AdvancedNewFolderMode {
    NameList,
    NumberedSeries,
}

/// The follow-up action picked in the split button's menu, by its index in
/// that menu.
#[derive(Debug, Clone, Copy, PartialEq, Eq, Structural)]
pub struct AdvancedNewFolderAfter {
    pub choice: u32,
}

/// Names already present in a nested directory that the draft refers to.
#[derive(Debug, Clone, PartialEq, Eq)]
pub struct NestedNames {
    pub prefix: String,
    pub names: Vec<String>,
}

#[derive(Debug, Clone, PartialEq, Eq)]
pub struct AdvancedNewFolderState {
    /// Where the folders are created.
    pub directory: FsPath,
    /// Names already present in `directory`.
    pub taken_names: Vec<String>,
    /// Selected entries of `directory` that can be moved into the new folder.
    pub gather_sources: Vec<FsPath>,
    pub mode: AdvancedNewFolderMode,
    pub draft: String,
    pub prefix: String,
    pub start_number: String,
    pub count: String,
    /// Whether `gather_sources` move into the new folder.
    pub gather: bool,
    pub after_menu_open: bool,
    /// Bumped by every open and close of the menu, so that a delayed close
    /// scheduled before them is recognised as stale.
    pub menu_generation: u64,
    pub split_button_hover: bool,
    /// Snapshots of nested directories, by their prefix; a later snapshot of
    /// a prefix replaces an earlier one.
    pub taken_deep: Vec<NestedNames>,
}

/// The nested-directory snapshots as a map from prefix to names.
pub open spec fn taken_deep_view(snapshots: Seq<NestedNames>) -> Map<Seq<char>, Seq<String>>
    decreases snapshots.len(),
{
    if snapshots.len() == 0 {
        Map::empty()
    } else {
        taken_deep_view(snapshots.drop_last()).insert(
            snapshots.last().prefix@,
            snapshots.last().names@,
        )
    }
}

/// The snapshots of `snapshots` whose prefix is not `prefix`, in order.
pub open spec fn without_prefix(snapshots: Seq<NestedNames>, prefix: Seq<char>) -> Seq<NestedNames>
    decreases snapshots.len(),
{
    if snapshots.len() == 0 {
        Seq::empty()
    } else {
        let rest = without_prefix(snapshots.drop_last(), prefix);
        if snapshots.last().prefix@ == prefix {
            rest
        } else {
            rest.push(snapshots.last())
        }
    }
}

proof fn lemma_without_prefix_view(snapshots: Seq<NestedNames>, prefix: Seq<char>)
    ensures
        taken_deep_view(without_prefix(snapshots, prefix)) == taken_deep_view(snapshots).remove(prefix),
    decreases snapshots.len(),
{
    if snapshots.len() > 0 {
        lemma_without_prefix_view(snapshots.drop_last(), prefix);
        let last = snapshots.last();
        if last.prefix@ == prefix {
            assert(taken_deep_view(snapshots).remove(prefix) =~= taken_deep_view(
                snapshots.drop_last(),
            ).remove(prefix));
        } else {
            let rest = without_prefix(snapshots.drop_last(), prefix);
            assert(rest.push(last).drop_last() =~= rest);
            assert(taken_deep_view(without_prefix(snapshots, prefix)) =~= taken_deep_view(
                snapshots,
            ).remove(prefix));
        }
    } else {
        assert(taken_deep_view(snapshots).remove(prefix) =~= Map::empty());
    }
}

/// The state with the menu opened: a new generation, menu shown.
pub open spec fn menu_opened(state: AdvancedNewFolderState) -> AdvancedNewFolderState {
    AdvancedNewFolderState {
        menu_generation: (state.menu_generation + 1) as u64,
        after_menu_open: true,
        ..state
    }
}

/// The state with the menu closed: a new generation, menu hidden.
pub open spec fn menu_closed(state: AdvancedNewFolderState) -> AdvancedNewFolderState {
    AdvancedNewFolderState {
        menu_generation: (state.menu_generation + 1) as u64,
        after_menu_open: false,
        ..state
    }
}

/// A delayed close fires only if nothing opened or closed the menu since it
/// was scheduled, and the menu is still open.
pub open spec fn close_tick_applied(state: AdvancedNewFolderState, generation: u64) -> AdvancedNewFolderState {
    if state.after_menu_open && state.menu_generation == generation {
        AdvancedNewFolderState { after_menu_open: false, ..state }
    } else {
        state
    }
}

impl AdvancedNewFolderState {
    /// A fresh dialog for `directory`: empty texts, the name-list mode, the
    /// menu closed and nothing gathered yet.
    pub fn new(directory: FsPath, taken_names: Vec<String>, gather_sources: Vec<FsPath>) -> (state: Self)
        ensures
            state.directory == directory,
            state.taken_names == taken_names,
            state.gather_sources == gather_sources,
            state.mode == AdvancedNewFolderMode::NameList,
            state.draft@.len() == 0,
            state.prefix@.len() == 0,
            state.start_number@.len() == 0,
            state.count@.len() == 0,
            !state.gather,
            !state.after_menu_open,
            state.menu_generation == 0,
            !state.split_button_hover,
            state.taken_deep@.len() == 0,
    {
        AdvancedNewFolderState {
            directory,
            taken_names,
            gather_sources,
            mode: AdvancedNewFolderMode::NameList,
            draft: String::new(),
            prefix: String::new(),
            start_number: String::new(),
            count: String::new(),
            gather: false,
            after_menu_open: false,
            menu_generation: 0,
            split_button_hover: false,
            taken_deep: Vec::new(),
        }
    }

    /// Records the names found in the nested directory `prefix`, replacing an
    /// earlier snapshot of it.
    pub fn record_nested_names(&mut self, prefix: String, names: Vec<String>)
        ensures
            taken_deep_view(final(self).taken_deep@) == taken_deep_view(old(self).taken_deep@).insert(
                prefix@,
                names@,
            ),
            *final(self) == (AdvancedNewFolderState { taken_deep: final(self).taken_deep, ..*old(self) }),
    {
        let ghost original = self.taken_deep@;
        let mut rest: Vec<NestedNames> = Vec::new();
        std::mem::swap(&mut rest, &mut self.taken_deep);
        let mut kept: Vec<NestedNames> = Vec::new();
        while rest.len() > 0
            invariant
                rest@.len() <= original.len(),
                rest@ == original.skip(original.len() - rest@.len()),
                kept@ == without_prefix(original.take(original.len() - rest@.len()), prefix@),
            decreases rest@.len(),
        {
            let ghost done = original.len() - rest@.len();
            assert(original.take(done + 1).drop_last() =~= original.take(done));
            assert(original.take(done + 1).last() == rest@[0]);
            let snapshot = rest.remove(0);
            assert(rest@ =~= original.skip(original.len() - rest@.len()));
            if !crate::text::text_eq(snapshot.prefix.as_str(), prefix.as_str()) {
                kept.push(snapshot);
            }
        }
        assert(original.take(original.len() as int) =~= original);
        proof {
            lemma_without_prefix_view(original, prefix@);
        }
        let ghost kept_view = kept@;
        kept.push(NestedNames { prefix, names });
        proof {
            assert(kept@.drop_last() =~= kept_view);
            assert(taken_deep_view(kept@) =~= taken_deep_view(old(self).taken_deep@).insert(
                kept@.last().prefix@,
                kept@.last().names@,
            ));
        }
        self.taken_deep = kept;
    }
}

// ---------------------------------------------------------------------------
// Opening the dialog
// ---------------------------------------------------------------------------

/// The names of the entries of `entries` directly inside `directory`, in
/// order.
pub open spec fn names_in_directory(entries: Seq<DirectoryEntry>, directory: PathModel) -> Seq<Seq<char>>
    decreases entries.len(),
{
    if entries.len() == 0 {
        Seq::empty()
    } else {
        let rest = names_in_directory(entries.drop_last(), directory);
        let path = entries.last().path@;
        match file_name_spec(path) {
            Some(name) => if parent_spec(path) == Some(directory) {
                rest.push(name)
            } else {
                rest
            },
            None => rest,
        }
    }
}

/// The names listed inside `directory` by the expanded directories.
pub open spec fn expanded_names_in_directory(directories: Seq<ExpandedDirectory>, directory: PathModel) -> Seq<Seq<char>>
    decreases directories.len(),
{
    if directories.len() == 0 {
        Seq::empty()
    } else {
        expanded_names_in_directory(directories.drop_last(), directory) + names_in_directory(
            directories.last().entries@,
            directory,
        )
    }
}

/// The names the browser lists inside `directory`: those of its listing,
/// then those of its expanded directories.
pub open spec fn listed_names(browser: FileBrowser, directory: PathModel) -> Seq<Seq<char>> {
    names_in_directory(browser.entries@, directory) + expanded_names_in_directory(
        browser.expanded_directories@,
        directory,
    )
}


fn push_names_in_directory(names: &mut Vec<String>, entries: &Vec<DirectoryEntry>, directory: &FsPath)
    ensures
        text_views(final(names)@) == text_views(old(names)@) + names_in_directory(entries@, directory@),
{
    let ghost start = text_views(names@);
    let mut i: usize = 0;
    while i < entries.len()
        invariant
            i <= entries@.len(),
            text_views(names@) == start + names_in_directory(entries@.take(i as int), directory@),
        decreases entries@.len() - i,
    {
        let ghost prefix = entries@.take(i + 1);
        assert(prefix.drop_last() =~= entries@.take(i as int));
        assert(prefix.last() == entries@[i as int]);
        let path = &entries[i].path;
        match path.file_name() {
            Some(name) => {
                if path.parent_is(directory) {
                    let ghost before = names@;
                    names.push(name);
                    assert(names_in_directory(prefix, directory@) == names_in_directory(
                        entries@.take(i as int),
                        directory@,
                    ).push(name@));
                    assert(text_views(names@) =~= text_views(before).push(name@));
                    assert(text_views(names@) =~= start + names_in_directory(prefix, directory@));
                }
            },
            None => {},
        }
        i = i + 1;
    }
    assert(entries@.take(entries@.len() as int) =~= entries@);
}

impl FileBrowser {
    /// `open_advanced_new_folder` (Shift with "new folder"): opens the
    /// dialog for `directory`, knowing the names listed there and offering
    /// the selected entries directly inside it for gathering. Not in the
    /// trash or the search overlay.
    pub fn open_advanced_new_folder(&mut self, directory: FsPath)
        ensures
            old(self).is_trash_view || old(self).search_workspace_open ==> *final(self) == (FileBrowser {
                context_menu: None,
                ..*old(self)
            }),
            !(old(self).is_trash_view || old(self).search_workspace_open) ==> {
                &&& final(self).advanced_new_folder matches Some(state) && state.directory == directory
                    && text_views(state.taken_names@) == listed_names(*old(self), directory@)
                    && path_views(state.gather_sources@) == children_of(
                    path_views(old(self).selected_paths@),
                    directory@,
                ) && state.mode == AdvancedNewFolderMode::NameList && state.draft@.len() == 0
                    && state.prefix@.len() == 0 && state.start_number@.len() == 0 && state.count@.len() == 0
                    && !state.gather && !state.after_menu_open && state.menu_generation == 0
                    && !state.split_button_hover && state.taken_deep@.len() == 0
                &&& *final(self) == (FileBrowser {
                    context_menu: None,
                    advanced_new_folder: final(self).advanced_new_folder,
                    ..*old(self)
                })
            },
            old(self).collections_well_formed() ==> final(self).collections_well_formed(),
    {
        self.context_menu = None;
        if self.is_trash_view || self.search_workspace_open {
            return ;
        }
        let mut taken_names: Vec<String> = Vec::new();
        push_names_in_directory(&mut taken_names, &self.entries, &directory);
        let mut k: usize = 0;
        while k < self.expanded_directories.len()
            invariant
                k <= self.expanded_directories@.len(),
                text_views(taken_names@) == names_in_directory(self.entries@, directory@)
                    + expanded_names_in_directory(self.expanded_directories@.take(k as int), directory@),
            decreases self.expanded_directories@.len() - k,
        {
            let ghost before = text_views(taken_names@);
            let ghost prefix = self.expanded_directories@.take(k + 1);
            assert(prefix.drop_last() =~= self.expanded_directories@.take(k as int));
            push_names_in_directory(&mut taken_names, &self.expanded_directories[k].entries, &directory);
            assert(text_views(taken_names@) =~= names_in_directory(self.entries@, directory@)
                + expanded_names_in_directory(prefix, directory@));
            k = k + 1;
        }
        assert(self.expanded_directories@.take(self.expanded_directories@.len() as int)
            =~= self.expanded_directories@);
        let gather_sources = gather_sources_in_directory(&self.selected_paths, &directory);
        self.advanced_new_folder = Some(AdvancedNewFolderState::new(directory, taken_names, gather_sources));
    }
}

/// The dialog's messages.
#[derive(Debug, Clone, PartialEq, Eq)]
pub enum AdvancedNewFolderMessage {
    Confirmed,
    ConfirmedWithAfter(AdvancedNewFolderAfter),
    Cancel,
    ModeSelected(AdvancedNewFolderMode),
    /// The draft editor's text after an edit.
    DraftEdited(String),
    PrefixChanged(String),
    StartNumberChanged(String),
    CountChanged(String),
    GatherToggled(bool),
    AfterMenuOpenChanged(bool),
    MenuHoverChanged(bool),
    SplitButtonHoverChanged(bool),
    /// The grace period of a delayed close scheduled at `generation` ended.
    MenuCloseTick(u64),
    NestedNamesProbed { prefix: String, names: Vec<String> },
}

/// A change of the open dialog's state.
#[derive(Debug, Clone, PartialEq, Eq)]
pub enum AdvancedNewFolderEdit {
    Mode(AdvancedNewFolderMode),
    Draft(String),
    Prefix(String),
    StartNumber(String),
    Count(String),
    Gather(bool),
    SplitButtonHover(bool),
    OpenMenu,
    CloseMenu,
    CloseTick(u64),
    NestedNames { prefix: String, names: Vec<String> },
}

/// The state after `edit` (the nested-name snapshot aside, which
/// `record_nested_names` states).
pub open spec fn edit_applied(state: AdvancedNewFolderState, edit: AdvancedNewFolderEdit) -> AdvancedNewFolderState {
    match edit {
        AdvancedNewFolderEdit::Mode(mode) => AdvancedNewFolderState { mode, ..state },
        AdvancedNewFolderEdit::Draft(text) => AdvancedNewFolderState { draft: text, ..state },
        AdvancedNewFolderEdit::Prefix(text) => AdvancedNewFolderState { prefix: text, ..state },
        AdvancedNewFolderEdit::StartNumber(text) => AdvancedNewFolderState { start_number: text, ..state },
        AdvancedNewFolderEdit::Count(text) => AdvancedNewFolderState { count: text, ..state },
        AdvancedNewFolderEdit::Gather(gather) => AdvancedNewFolderState { gather, ..state },
        AdvancedNewFolderEdit::SplitButtonHover(hover) => AdvancedNewFolderState {
            split_button_hover: hover,
            ..state
        },
        AdvancedNewFolderEdit::OpenMenu => menu_opened(state),
        AdvancedNewFolderEdit::CloseMenu => menu_closed(state),
        AdvancedNewFolderEdit::CloseTick(generation) => close_tick_applied(state, generation),
        AdvancedNewFolderEdit::NestedNames { .. } => state,
    }
}

pub open spec fn generation_can_grow(state: Option<AdvancedNewFolderState>) -> bool {
    match state {
        Some(s) => s.menu_generation < u64::MAX,
        None => true,
    }
}

pub open spec fn edit_outcome(
    before: Option<AdvancedNewFolderState>,
    after: Option<AdvancedNewFolderState>,
    edit: AdvancedNewFolderEdit,
) -> bool {
    match before {
        None => after is None,
        Some(state) => match after {
            None => false,
            Some(next) => match edit {
                AdvancedNewFolderEdit::NestedNames { prefix, names } => {
                    &&& next == (AdvancedNewFolderState { taken_deep: next.taken_deep, ..state })
                    &&& taken_deep_view(next.taken_deep@) == taken_deep_view(state.taken_deep@).insert(
                        prefix@,
                        names@,
                    )
                },
                _ => next == edit_applied(state, edit),
            },
        },
    }
}

/// What the browser has to do after a dialog message.
#[derive(Debug, Clone, PartialEq, Eq)]
pub enum AdvancedNewFolderEffect {
    Nothing,
    /// The dialog was confirmed and closed; its folders are to be planned
    /// and queued (`create_advanced_new_folders`).
    Confirm(AdvancedNewFolderState),
    /// Deliver `MenuCloseTick(generation)` after the grace period.
    CloseMenuAfterGrace(u64),
}

/// Applies `edit` to the dialog, when one is open.
fn edit_dialog(dialog: &mut Option<AdvancedNewFolderState>, edit: AdvancedNewFolderEdit)
    requires
        generation_can_grow(*old(dialog)),
    ensures
        edit_outcome(*old(dialog), *final(dialog), edit),
{
        let mut current = dialog.take();
        match &mut current {
            None => {},
            Some(state) => match edit {
                AdvancedNewFolderEdit::Mode(mode) => state.mode = mode,
                AdvancedNewFolderEdit::Draft(text) => state.draft = text,
                AdvancedNewFolderEdit::Prefix(text) => state.prefix = text,
                AdvancedNewFolderEdit::StartNumber(text) => state.start_number = text,
                AdvancedNewFolderEdit::Count(text) => state.count = text,
                AdvancedNewFolderEdit::Gather(gather) => state.gather = gather,
                AdvancedNewFolderEdit::SplitButtonHover(hover) => state.split_button_hover = hover,
                AdvancedNewFolderEdit::OpenMenu => {
                    state.menu_generation = state.menu_generation + 1;
                    state.after_menu_open = true;
                },
                AdvancedNewFolderEdit::CloseMenu => {
                    state.after_menu_open = false;
                    state.menu_generation = state.menu_generation + 1;
                },
                AdvancedNewFolderEdit::CloseTick(generation) => {
                    if state.after_menu_open && state.menu_generation == generation {
                        state.after_menu_open = false;
                    }
                },
                AdvancedNewFolderEdit::NestedNames { prefix, names } => {
                    state.record_nested_names(prefix, names);
                },
            },
        }
        *dialog = current;
}

/// Starts a delayed close of the open menu (see
/// `schedule_advanced_new_folder_menu_close`).
fn schedule_dialog_menu_close(dialog: &mut Option<AdvancedNewFolderState>) -> (generation: Option<u64>)
    requires
        generation_can_grow(*old(dialog)),
    ensures
        match *old(dialog) {
            Some(state) => if state.after_menu_open {
                &&& generation == Some((state.menu_generation + 1) as u64)
                &&& *final(dialog) == Some(
                    AdvancedNewFolderState { menu_generation: (state.menu_generation + 1) as u64, ..state },
                )
            } else {
                generation is None && *final(dialog) == *old(dialog)
            },
            None => generation is None && *final(dialog) is None,
        },
{
    let mut current = dialog.take();
    let mut scheduled: Option<u64> = None;
    match &mut current {
        None => {},
        Some(state) => {
            if state.after_menu_open {
                state.menu_generation = state.menu_generation + 1;
                scheduled = Some(state.menu_generation);
            }
        },
    }
    *dialog = current;
    scheduled
}

/// The dialog's message handling, on the dialog and the picked follow-up.
#[verifier::rlimit(60)]
fn apply_dialog_message(
    dialog: &mut Option<AdvancedNewFolderState>,
    choice: &mut Option<AdvancedNewFolderAfter>,
    message: AdvancedNewFolderMessage,
) -> (effect: AdvancedNewFolderEffect)
    requires
        generation_can_grow(*old(dialog)),
    ensures
        dialog_message_outcome(*old(dialog), *old(choice), *final(dialog), *final(choice), message, effect),
{
    match message {
        AdvancedNewFolderMessage::Confirmed => {
            *choice = None;
            match dialog.take() {
                Some(state) => AdvancedNewFolderEffect::Confirm(state),
                None => AdvancedNewFolderEffect::Nothing,
            }
        },
        AdvancedNewFolderMessage::ConfirmedWithAfter(after) => {
            *choice = Some(after);
            match dialog.take() {
                Some(state) => AdvancedNewFolderEffect::Confirm(state),
                None => AdvancedNewFolderEffect::Nothing,
            }
        },
        AdvancedNewFolderMessage::Cancel => {
            *dialog = None;
            AdvancedNewFolderEffect::Nothing
        },
        AdvancedNewFolderMessage::ModeSelected(mode) => {
            edit_dialog(dialog, AdvancedNewFolderEdit::Mode(mode));
            AdvancedNewFolderEffect::Nothing
        },
        AdvancedNewFolderMessage::DraftEdited(text) => {
            edit_dialog(dialog, AdvancedNewFolderEdit::Draft(text));
            AdvancedNewFolderEffect::Nothing
        },
        AdvancedNewFolderMessage::PrefixChanged(text) => {
            edit_dialog(dialog, AdvancedNewFolderEdit::Prefix(text));
            AdvancedNewFolderEffect::Nothing
        },
        AdvancedNewFolderMessage::StartNumberChanged(text) => {
            edit_dialog(dialog, AdvancedNewFolderEdit::StartNumber(text));
            AdvancedNewFolderEffect::Nothing
        },
        AdvancedNewFolderMessage::CountChanged(text) => {
            edit_dialog(dialog, AdvancedNewFolderEdit::Count(text));
            AdvancedNewFolderEffect::Nothing
        },
        AdvancedNewFolderMessage::GatherToggled(gather) => {
            edit_dialog(dialog, AdvancedNewFolderEdit::Gather(gather));
            AdvancedNewFolderEffect::Nothing
        },
        AdvancedNewFolderMessage::AfterMenuOpenChanged(open) => {
            if open {
                edit_dialog(dialog, AdvancedNewFolderEdit::OpenMenu);
            } else {
                edit_dialog(dialog, AdvancedNewFolderEdit::CloseMenu);
            }
            AdvancedNewFolderEffect::Nothing
        },
        AdvancedNewFolderMessage::MenuHoverChanged(hover) => {
            if hover {
                edit_dialog(dialog, AdvancedNewFolderEdit::OpenMenu);
                AdvancedNewFolderEffect::Nothing
            } else {
                match schedule_dialog_menu_close(dialog) {
                    Some(generation) => AdvancedNewFolderEffect::CloseMenuAfterGrace(generation),
                    None => AdvancedNewFolderEffect::Nothing,
                }
            }
        },
        AdvancedNewFolderMessage::SplitButtonHoverChanged(hover) => {
            edit_dialog(dialog, AdvancedNewFolderEdit::SplitButtonHover(hover));
            if hover {
                edit_dialog(dialog, AdvancedNewFolderEdit::OpenMenu);
                AdvancedNewFolderEffect::Nothing
            } else {
                match schedule_dialog_menu_close(dialog) {
                    Some(generation) => AdvancedNewFolderEffect::CloseMenuAfterGrace(generation),
                    None => AdvancedNewFolderEffect::Nothing,
                }
            }
        },
        AdvancedNewFolderMessage::MenuCloseTick(generation) => {
            edit_dialog(dialog, AdvancedNewFolderEdit::CloseTick(generation));
            AdvancedNewFolderEffect::Nothing
        },
        AdvancedNewFolderMessage::NestedNamesProbed { prefix, names } => {
            edit_dialog(dialog, AdvancedNewFolderEdit::NestedNames { prefix, names });
            AdvancedNewFolderEffect::Nothing
        },
    }
}

impl FileBrowser {
    /// `update_advanced_new_folder`: applies `edit` to the open dialog; with
    /// no dialog open nothing changes.
    pub fn update_advanced_new_folder(&mut self, edit: AdvancedNewFolderEdit)
        requires
            generation_can_grow(old(self).advanced_new_folder),
        ensures
            edit_outcome(old(self).advanced_new_folder, final(self).advanced_new_folder, edit),
            *final(self) == (FileBrowser {
                advanced_new_folder: final(self).advanced_new_folder,
                ..*old(self)
            }),
            old(self).collections_well_formed() ==> final(self).collections_well_formed(),
    {
        edit_dialog(&mut self.advanced_new_folder, edit);
    }

    /// `open_advanced_new_folder_menu`: shows the menu and voids any pending
    /// delayed close.
    pub fn open_advanced_new_folder_menu(&mut self)
        requires
            generation_can_grow(old(self).advanced_new_folder),
        ensures
            final(self).advanced_new_folder == match old(self).advanced_new_folder {
                Some(state) => Some(menu_opened(state)),
                None => None,
            },
            *final(self) == (FileBrowser {
                advanced_new_folder: final(self).advanced_new_folder,
                ..*old(self)
            }),
            old(self).collections_well_formed() ==> final(self).collections_well_formed(),
    {
        self.update_advanced_new_folder(AdvancedNewFolderEdit::OpenMenu);
    }

    /// `close_advanced_new_folder_menu`: hides the menu at once.
    pub fn close_advanced_new_folder_menu(&mut self)
        requires
            generation_can_grow(old(self).advanced_new_folder),
        ensures
            final(self).advanced_new_folder == match old(self).advanced_new_folder {
                Some(state) => Some(menu_closed(state)),
                None => None,
            },
            *final(self) == (FileBrowser {
                advanced_new_folder: final(self).advanced_new_folder,
                ..*old(self)
            }),
            old(self).collections_well_formed() ==> final(self).collections_well_formed(),
    {
        self.update_advanced_new_folder(AdvancedNewFolderEdit::CloseMenu);
    }

    /// `schedule_advanced_new_folder_menu_close`: when the pointer leaves the
    /// button or menu of an open menu, starts a new generation and asks for a
    /// close tick carrying it; hovering again in the meantime voids it.
    pub fn schedule_advanced_new_folder_menu_close(&mut self) -> (generation: Option<u64>)
        requires
            generation_can_grow(old(self).advanced_new_folder),
        ensures
            match old(self).advanced_new_folder {
                Some(state) => if state.after_menu_open {
                    &&& generation == Some((state.menu_generation + 1) as u64)
                    &&& final(self).advanced_new_folder == Some(
                        AdvancedNewFolderState { menu_generation: (state.menu_generation + 1) as u64, ..state },
                    )
                } else {
                    generation is None && final(self).advanced_new_folder == old(self).advanced_new_folder
                },
                None => generation is None && final(self).advanced_new_folder is None,
            },
            *final(self) == (FileBrowser {
                advanced_new_folder: final(self).advanced_new_folder,
                ..*old(self)
            }),
            old(self).collections_well_formed() ==> final(self).collections_well_formed(),
    {
        schedule_dialog_menu_close(&mut self.advanced_new_folder)
    }

    /// `handle_advanced_new_folder_message`.
    pub fn handle_advanced_new_folder_message(&mut self, message: AdvancedNewFolderMessage) -> (effect: AdvancedNewFolderEffect)
        requires
            generation_can_grow(old(self).advanced_new_folder),
        ensures
            advanced_new_folder_message_outcome(*old(self), *final(self), message, effect),
            old(self).collections_well_formed() ==> final(self).collections_well_formed(),
    {
        apply_dialog_message(&mut self.advanced_new_folder, &mut self.pending_advanced_new_folder_after, message)
    }

    /// The rest of confirming the dialog, once its plan gave the folder
    /// `names`: nothing with no names; else the
    /// rename field and the drag are dropped and the folders are queued, with
    /// the gathered sources when gathering is on.
    pub fn create_advanced_new_folders(&mut self, state: AdvancedNewFolderState, names: Vec<String>)
        ensures
            names@.len() == 0 ==> *final(self) == *old(self),
            names@.len() > 0 ==> *final(self) == (FileBrowser {
                renaming: None,
                file_drag: None,
                file_drop_session: None,
                operation_queue: final(self).operation_queue,
                ..*old(self)
            }),
            names@.len() > 0 ==> final(self).operation_queue.tasks@.drop_last() == old(self).operation_queue.tasks@,
            names@.len() > 0 ==> final(self).operation_queue.tasks@.len() == old(self).operation_queue.tasks@.len() + 1,
            names@.len() > 0 ==> queued_folder_creation(final(self).operation_queue.tasks@.last(), state, names@),
            final(self).operation_queue.panel_open == old(self).operation_queue.panel_open,
            old(self).collections_well_formed() ==> final(self).collections_well_formed(),
    {
        if names.len() == 0 {
            return ;
        }
        let gather_sources = if state.gather {
            state.gather_sources
        } else {
            Vec::new()
        };
        self.renaming = None;
        self.file_drag = None;
        self.file_drop_session = None;
        self.operation_queue.enqueue(
            QueuedFileOperation::CreateDirectories { parent: state.directory, names, gather_sources },
        );
    }
}

/// `operation` creates the planned `names` in the dialog's directory and
/// carries the gathered sources exactly when gathering is on.
pub open spec fn queued_folder_creation(operation: QueuedFileOperation, state: AdvancedNewFolderState, names: Seq<String>) -> bool {
    &&& operation matches QueuedFileOperation::CreateDirectories { parent, names: queued, gather_sources }
    &&& parent == state.directory
    &&& queued@ == names
    &&& if state.gather {
        gather_sources == state.gather_sources
    } else {
        gather_sources@.len() == 0
    }
}

/// What `handle_advanced_new_folder_message` does to the dialog and the
/// picked follow-up, message by message.
pub open spec fn dialog_message_outcome(
    dialog: Option<AdvancedNewFolderState>,
    choice: Option<AdvancedNewFolderAfter>,
    next_dialog: Option<AdvancedNewFolderState>,
    next_choice: Option<AdvancedNewFolderAfter>,
    message: AdvancedNewFolderMessage,
    effect: AdvancedNewFolderEffect,
) -> bool {
    let unchanged_but_dialog = next_choice == choice;
    match message {
        AdvancedNewFolderMessage::Confirmed | AdvancedNewFolderMessage::ConfirmedWithAfter(_) => {
            &&& next_dialog is None
            &&& next_choice == match message {
                AdvancedNewFolderMessage::ConfirmedWithAfter(picked) => Some(picked),
                _ => None,
            }
            &&& effect == match dialog {
                Some(state) => AdvancedNewFolderEffect::Confirm(state),
                None => AdvancedNewFolderEffect::Nothing,
            }
        },
        AdvancedNewFolderMessage::Cancel => {
            &&& next_dialog is None && next_choice == choice
            &&& effect == AdvancedNewFolderEffect::Nothing
        },
        AdvancedNewFolderMessage::MenuHoverChanged(false) | AdvancedNewFolderMessage::SplitButtonHoverChanged(
            false,
        ) => {
            let hovered = match message {
                AdvancedNewFolderMessage::SplitButtonHoverChanged(_) => match dialog {
                    Some(state) => Some(AdvancedNewFolderState { split_button_hover: false, ..state }),
                    None => None,
                },
                _ => dialog,
            };
            &&& unchanged_but_dialog
            &&& match hovered {
                Some(state) => if state.after_menu_open {
                    &&& effect == AdvancedNewFolderEffect::CloseMenuAfterGrace((state.menu_generation + 1) as u64)
                    &&& next_dialog == Some(
                        AdvancedNewFolderState { menu_generation: (state.menu_generation + 1) as u64, ..state },
                    )
                } else {
                    effect == AdvancedNewFolderEffect::Nothing && next_dialog == hovered
                },
                None => effect == AdvancedNewFolderEffect::Nothing && next_dialog is None,
            }
        },
        _ => {
            &&& unchanged_but_dialog
            &&& effect == AdvancedNewFolderEffect::Nothing
            &&& match message {
                AdvancedNewFolderMessage::ModeSelected(mode) => edit_outcome(
                    dialog,
                    next_dialog,
                    AdvancedNewFolderEdit::Mode(mode),
                ),
                AdvancedNewFolderMessage::DraftEdited(text) => edit_outcome(
                    dialog,
                    next_dialog,
                    AdvancedNewFolderEdit::Draft(text),
                ),
                AdvancedNewFolderMessage::PrefixChanged(text) => edit_outcome(
                    dialog,
                    next_dialog,
                    AdvancedNewFolderEdit::Prefix(text),
                ),
                AdvancedNewFolderMessage::StartNumberChanged(text) => edit_outcome(
                    dialog,
                    next_dialog,
                    AdvancedNewFolderEdit::StartNumber(text),
                ),
                AdvancedNewFolderMessage::CountChanged(text) => edit_outcome(
                    dialog,
                    next_dialog,
                    AdvancedNewFolderEdit::Count(text),
                ),
                AdvancedNewFolderMessage::GatherToggled(gather) => edit_outcome(
                    dialog,
                    next_dialog,
                    AdvancedNewFolderEdit::Gather(gather),
                ),
                AdvancedNewFolderMessage::AfterMenuOpenChanged(open) => edit_outcome(
                    dialog,
                    next_dialog,
                    if open {
                        AdvancedNewFolderEdit::OpenMenu
                    } else {
                        AdvancedNewFolderEdit::CloseMenu
                    },
                ),
                AdvancedNewFolderMessage::MenuHoverChanged(_) => next_dialog == match dialog {
                    Some(state) => Some(menu_opened(state)),
                    None => None,
                },
                AdvancedNewFolderMessage::SplitButtonHoverChanged(_) => next_dialog == match dialog {
                    Some(state) => Some(menu_opened(AdvancedNewFolderState { split_button_hover: true, ..state })),
                    None => None,
                },
                AdvancedNewFolderMessage::MenuCloseTick(generation) => edit_outcome(
                    dialog,
                    next_dialog,
                    AdvancedNewFolderEdit::CloseTick(generation),
                ),
                AdvancedNewFolderMessage::NestedNamesProbed { prefix, names } => edit_outcome(
                    dialog,
                    next_dialog,
                    AdvancedNewFolderEdit::NestedNames { prefix, names },
                ),
                _ => false,
            }
        },
    }
}

/// What `handle_advanced_new_folder_message` does: only the dialog and the
/// picked follow-up change, as `dialog_message_outcome` says.
pub open spec fn advanced_new_folder_message_outcome(
    before: FileBrowser,
    after: FileBrowser,
    message: AdvancedNewFolderMessage,
    effect: AdvancedNewFolderEffect,
) -> bool {
    &&& after == (FileBrowser {
        advanced_new_folder: after.advanced_new_folder,
        pending_advanced_new_folder_after: after.pending_advanced_new_folder_after,
        ..before
    })
    &&& dialog_message_outcome(
        before.advanced_new_folder,
        before.pending_advanced_new_folder_after,
        after.advanced_new_folder,
        after.pending_advanced_new_folder_after,
        message,
        effect,
    )
}

/// A close tick scheduled before the latest open or close of the menu never
/// closes it: once the menu was reopened after a delayed close was scheduled,
/// the tick of that close leaves the dialog as it is.
pub proof fn lemma_stale_close_tick_is_ignored(state: AdvancedNewFolderState, scheduled: u64)
    requires
        state.menu_generation != scheduled,
    ensures
        close_tick_applied(state, scheduled) == state,
{
}

/// Leaving the button and menu, with nothing touching the menu until the
/// grace period ends, closes it: the tick carries the generation the
/// scheduling set.
pub proof fn lemma_close_tick_after_leaving_closes(state: AdvancedNewFolderState)
    requires
        state.after_menu_open,
        state.menu_generation < u64::MAX,
    ensures
        ({
            let scheduled = AdvancedNewFolderState {
                menu_generation: (state.menu_generation + 1) as u64,
                ..state
            };
            !close_tick_applied(scheduled, scheduled.menu_generation).after_menu_open
        }),
{
}

/// Hovering again after leaving keeps the menu open through the pending
/// tick: reopening moves past the scheduled generation.
pub proof fn lemma_hover_again_keeps_menu_open(state: AdvancedNewFolderState)
    requires
        state.after_menu_open,
        state.menu_generation < u64::MAX - 1,
    ensures
        ({
            let generation = (state.menu_generation + 1) as u64;
            let scheduled = AdvancedNewFolderState { menu_generation: generation, ..state };
            let reopened = menu_opened(scheduled);
            close_tick_applied(reopened, generation).after_menu_open
        }),
{
}

} // verus!
