//! Switching the active pane between the columns, list and icon views: what
//! the selection and the list's expanded directories keep, and which chain
//! of open directories the new view takes over from the old one.

use vstd::prelude::*;
use crate::browser::{BrowserPreferences, DirectoryEntry, FileBrowser};
use crate::config::{clamp_spec, normalize_visible_column_count, MAX_VISIBLE_COLUMN_COUNT, MIN_VISIBLE_COLUMN_COUNT};
use crate::config::BrowserViewMode;
use crate::naming::path_views;
use crate::paths::{FsPath, PathModel};
use crate::selection::option_path_view;
use crate::panes::expanded_paths;
use crate::view_modes::{
    DirectoryExpansionTransfer, ExpandedDirectoryLoadRequest, dropped_for_columns,
    follow_start_outcome, list_transfer_spec, path_seq, synced_to_columns,
};

verus! {

// ---------------------------------------------------------------------------
// Keeping the selection to the current directory's own entries
// ---------------------------------------------------------------------------

/// The paths of `entries`, in order.
pub open spec fn entry_paths(entries: Seq<DirectoryEntry>) -> Seq<PathModel> {
    entries.map_values(|e: DirectoryEntry| e.path@)
}

/// `path` is one of the current directory's own entries (not one shown
/// inside an expanded subdirectory).
pub open spec fn is_direct_entry(entries: Seq<DirectoryEntry>, path: PathModel) -> bool {
    entry_paths(entries).contains(path)
}

/// Keeping the direct entries of a selection is a filter of it.
pub proof fn lemma_direct_selection_is_filter(entries: Seq<DirectoryEntry>, selected: Seq<PathModel>)
    ensures
        direct_selection(entries, selected) == selected.filter(|path: PathModel| is_direct_entry(entries, path)),
    decreases selected.len(),
{
    reveal(Seq::filter);
    if selected.len() > 0 {
        lemma_direct_selection_is_filter(entries, selected.drop_last());
    }
}

/// The members of `selected` that are direct entries, in order.
pub open spec fn direct_selection(entries: Seq<DirectoryEntry>, selected: Seq<PathModel>) -> Seq<PathModel>
    decreases selected.len(),
{
    if selected.len() == 0 {
        seq![]
    } else {
        let rest = direct_selection(entries, selected.drop_last());
        if is_direct_entry(entries, selected.last()) {
            rest.push(selected.last())
        } else {
            rest
        }
    }
}

/// The focused entry after the selection is kept to direct entries.
pub open spec fn direct_focus(entries: Seq<DirectoryEntry>, selected: Option<FsPath>) -> Option<PathModel> {
    match selected {
        Some(path) => if is_direct_entry(entries, path@) {
            Some(path@)
        } else {
            None
        },
        None => None,
    }
}

/// Whether `entries` holds an entry at `path`.
fn entries_contain(entries: &Vec<DirectoryEntry>, path: &FsPath) -> (found: bool)
    ensures
        found == is_direct_entry(entries@, path@),
{
    let mut i: usize = 0;
    while i < entries.len()
        invariant
            i <= entries@.len(),
            forall|j: int| 0 <= j < i ==> entries@[j].path@ != path@,
        decreases entries@.len() - i,
    {
        if entries[i].path.same_as(path) {
            assert(entry_paths(entries@)[i as int] == path@);
            return true;
        }
        i = i + 1;
    }
    proof {
        if entry_paths(entries@).contains(path@) {
            let k = choose|k: int| 0 <= k < entry_paths(entries@).len() && entry_paths(entries@)[k] == path@;
            assert(entries@[k].path@ == path@);
        }
    }
    false
}

impl FileBrowser {
    /// `retain_direct_entry_selection`: the icon view shows no expanded
    /// subdirectories, so a switch into or out of it keeps only the
    /// selected entries that the current directory itself lists.
    pub fn retain_direct_entry_selection(&mut self)
        ensures
            path_views(final(self).selected_paths@) == direct_selection(
                old(self).entries@,
                path_views(old(self).selected_paths@),
            ),
            option_path_view(final(self).selected) == direct_focus(old(self).entries@, old(self).selected),
            *final(self) == (FileBrowser {
                selected_paths: final(self).selected_paths,
                selected: final(self).selected,
                ..*old(self)
            }),
            old(self).collections_well_formed() ==> final(self).collections_well_formed(),
    {
        let ghost original = path_views(self.selected_paths@);
        let mut rest: Vec<FsPath> = Vec::new();
        std::mem::swap(&mut rest, &mut self.selected_paths);
        let ghost all = rest@;
        let mut kept: Vec<FsPath> = Vec::new();
        let mut i: usize = 0;
        while i < rest.len()
            invariant
                i <= rest@.len(),
                rest@ == all,
                original == path_views(all),
                path_views(kept@) == direct_selection(self.entries@, original.take(i as int)),
            decreases rest@.len() - i,
        {
            assert(original.take(i + 1).drop_last() =~= original.take(i as int));
            assert(original.take(i + 1).last() == rest@[i as int]@);
            if entries_contain(&self.entries, &rest[i]) {
                kept.push(rest[i].duplicate());
                assert(path_views(kept@) =~= path_views(kept@.drop_last()).push(kept@.last()@));
            }
            i = i + 1;
        }
        assert(original.take(original.len() as int) =~= original);
        self.selected_paths = kept;
        proof {
            if old(self).collections_well_formed() {
                let entries = self.entries@;
                lemma_direct_selection_is_filter(entries, original);
                crate::panes::lemma_filter_keeps_no_duplicates(
                    original,
                    |path: PathModel| is_direct_entry(entries, path),
                );
            }
        }
        let keep_focus = match &self.selected {
            Some(path) => entries_contain(&self.entries, path),
            None => false,
        };
        if !keep_focus {
            self.selected = None;
        }
    }
}

// ---------------------------------------------------------------------------
// The switch
// ---------------------------------------------------------------------------

/// What the new view does to take over the open directories or the
/// selection of the old one.
#[derive(Debug, Clone, PartialEq, Eq)]
pub enum ViewSwitchTransition {
    /// Open, in the columns view, the column of the selection.
    OpenSelectedColumn,
    /// Re-open `transfer`'s chain of directories in the icon view.
    StartIconGridFollow(DirectoryExpansionTransfer),
    /// Load the first directory of the list view's follow plan.
    LoadExpandedDirectory(ExpandedDirectoryLoadRequest),
}

/// A switch that took place. Besides its transition, every switch drops
/// the icon view's expansion, scrolls the selection into view, stores the
/// preferences, refreshes thumbnails and saves the session.
#[derive(Debug, Clone, PartialEq, Eq)]
pub struct ViewSwitch {
    pub transition: Option<ViewSwitchTransition>,
    /// The list view's directory summaries are to be recomputed.
    pub schedule_list_summaries: bool,
    /// The directories the list dropped, whose loads are to be cancelled.
    pub cancelled_loads: Vec<FsPath>,
}

/// The state a switch starts from: the new mode set (and remembered in the
/// preferences), and the hover, paste target and drag of the old view
/// dropped.
pub open spec fn switched_base(before: FileBrowser, view_mode: BrowserViewMode) -> FileBrowser {
    FileBrowser {
        view_mode,
        user_config: BrowserPreferences { browser_view_mode: view_mode, ..before.user_config },
        hovered_entry: None,
        cursor_paste_directory: None,
        drag_selection_anchor: None,
        file_drag: None,
        file_drop_session: None,
        ..before
    }
}

/// `after` differs from `base` at most in the list view's expansion: its
/// expanded directories, follow plan and follow counter.
pub open spec fn expansion_carried(base: FileBrowser, after: FileBrowser) -> FileBrowser {
    FileBrowser {
        expanded_directories: after.expanded_directories,
        list_expansion_follow: after.list_expansion_follow,
        next_list_expansion_follow_session_id: after.next_list_expansion_follow_session_id,
        ..base
    }
}

pub open spec fn transfer_view(transfer: Option<DirectoryExpansionTransfer>) -> Option<(Seq<PathModel>, PathModel)> {
    match transfer {
        Some(t) => Some((path_seq(t.chain@), t.target_selection@)),
        None => None,
    }
}

/// The list view's expansion across a switch from `previous` to `next`:
/// into the list from the columns it keeps the directories open as
/// columns; from the icon view it follows the icon view's open chain, or
/// starts empty; otherwise it is unchanged.
pub open spec fn expansion_switched(
    base: FileBrowser,
    after: FileBrowser,
    previous: BrowserViewMode,
    next: BrowserViewMode,
    columns: Seq<PathModel>,
    icon_transfer: Option<(Seq<PathModel>, PathModel)>,
    request: Option<ExpandedDirectoryLoadRequest>,
) -> bool {
    &&& after == expansion_carried(base, after)
    &&& if previous == BrowserViewMode::Columns && next == BrowserViewMode::List {
        &&& after.expanded_directories@ == synced_to_columns(
            base.expanded_directories@,
            columns,
            base.current_dir@,
        )
        &&& after.list_expansion_follow == base.list_expansion_follow
        &&& after.next_list_expansion_follow_session_id == base.next_list_expansion_follow_session_id
        &&& request is None
    } else if previous == BrowserViewMode::Icons && next == BrowserViewMode::List {
        match icon_transfer {
            Some((chain, target)) => follow_start_outcome(base, after, chain, target, request),
            None => {
                &&& after.expanded_directories@.len() == 0
                &&& after.list_expansion_follow is None
                &&& after.next_list_expansion_follow_session_id
                    == base.next_list_expansion_follow_session_id
                &&& request is None
            },
        }
    } else {
        after == base && request is None
    }
}

/// The directories whose loads a switch from `previous` to `next` drops:
/// into the list from the columns, those not open as columns; from the
/// icon view, every directory the list had open (unless the icon view hands
/// over an empty chain); otherwise none.
pub open spec fn expansion_cancelled(
    base: FileBrowser,
    previous: BrowserViewMode,
    next: BrowserViewMode,
    columns: Seq<PathModel>,
    icon_transfer: Option<(Seq<PathModel>, PathModel)>,
) -> Seq<PathModel> {
    if previous == BrowserViewMode::Columns && next == BrowserViewMode::List {
        dropped_for_columns(base.expanded_directories@, columns, base.current_dir@)
    } else if previous == BrowserViewMode::Icons && next == BrowserViewMode::List {
        match icon_transfer {
            Some((chain, _)) => if chain.len() == 0 {
                Seq::empty()
            } else {
                expanded_paths(base.expanded_directories@)
            },
            None => expanded_paths(base.expanded_directories@),
        }
    } else {
        Seq::empty()
    }
}

/// The transition of a switch from `previous` to `next`.
pub open spec fn transition_ok(
    before: FileBrowser,
    previous: BrowserViewMode,
    next: BrowserViewMode,
    request: Option<ExpandedDirectoryLoadRequest>,
    transition: Option<ViewSwitchTransition>,
) -> bool {
    if previous == BrowserViewMode::List && next == BrowserViewMode::Icons && list_transfer_spec(
        before,
    ) is Some {
        transition matches Some(ViewSwitchTransition::StartIconGridFollow(t)) && transfer_view(Some(t))
            == list_transfer_spec(before)
    } else if previous == BrowserViewMode::Icons && next == BrowserViewMode::List {
        match request {
            Some(r) => transition == Some(ViewSwitchTransition::LoadExpandedDirectory(r)),
            None => transition is None,
        }
    } else if (previous == BrowserViewMode::List && next == BrowserViewMode::Columns) || (previous
        == BrowserViewMode::Icons && next == BrowserViewMode::Columns && direct_focus(
        before.entries@,
        before.selected,
    ) is Some) {
        transition == Some(ViewSwitchTransition::OpenSelectedColumn)
    } else {
        transition is None
    }
}

/// The load a transition starts, if any.
pub open spec fn requested_load(transition: Option<ViewSwitchTransition>) -> Option<ExpandedDirectoryLoadRequest> {
    match transition {
        Some(ViewSwitchTransition::LoadExpandedDirectory(r)) => Some(r),
        _ => None,
    }
}

/// The selection across a switch: kept to direct entries when the icon
/// view is left or entered, unchanged otherwise.
pub open spec fn selection_switched(
    before: FileBrowser,
    after: FileBrowser,
    previous: BrowserViewMode,
    next: BrowserViewMode,
) -> bool {
    if previous == BrowserViewMode::Icons || next == BrowserViewMode::Icons {
        &&& path_views(after.selected_paths@) == direct_selection(
            before.entries@,
            path_views(before.selected_paths@),
        )
        &&& option_path_view(after.selected) == direct_focus(before.entries@, before.selected)
    } else {
        after.selected_paths == before.selected_paths && after.selected == before.selected
    }
}

impl FileBrowser {
    fn clear_view_interactions(&mut self, view_mode: BrowserViewMode)
        ensures
            *final(self) == switched_base(*old(self), view_mode),
    {
        self.view_mode = view_mode;
        self.user_config.browser_view_mode = view_mode;
        self.hovered_entry = None;
        self.cursor_paste_directory = None;
        self.drag_selection_anchor = None;
        self.file_drag = None;
        self.file_drop_session = None;
    }

    fn switch_list_expansion(
        &mut self,
        previous: BrowserViewMode,
        next: BrowserViewMode,
        icon_grid_transfer: Option<DirectoryExpansionTransfer>,
        column_directories: &Vec<FsPath>,
    ) -> (switched: (Vec<FsPath>, Option<ExpandedDirectoryLoadRequest>))
        ensures
            expansion_switched(
                *old(self),
                *final(self),
                previous,
                next,
                path_views(column_directories@),
                transfer_view(icon_grid_transfer),
                switched.1,
            ),
            path_seq(switched.0@) == expansion_cancelled(
                *old(self),
                previous,
                next,
                path_views(column_directories@),
                transfer_view(icon_grid_transfer),
            ),
    {
        if previous == BrowserViewMode::Columns && next == BrowserViewMode::List {
            let cancelled = self.sync_expanded_directories_to_open_columns(column_directories);
            (cancelled, None)
        } else if previous == BrowserViewMode::Icons && next == BrowserViewMode::List {
            match icon_grid_transfer {
                Some(transfer) => self.start_list_expansion_follow(transfer.chain, transfer.target_selection),
                None => {
                    let cancelled = self.clear_list_expansion_for_follow();
                    (cancelled, None)
                },
            }
        } else {
            let none: Vec<FsPath> = Vec::new();
            assert(path_seq(none@) =~= Seq::<PathModel>::empty());
            (none, None)
        }
    }

    /// `select_browser_view_mode`, for the active pane (the caller makes
    /// the clicked pane active first). `icon_grid_transfer` is the chain the
    /// icon view has open toward its selection, and `column_directories` the
    /// directories the columns view shows. `None` when the pane already
    /// shows `view_mode`.
    pub fn select_browser_view_mode(
        &mut self,
        view_mode: BrowserViewMode,
        icon_grid_transfer: Option<DirectoryExpansionTransfer>,
        column_directories: &Vec<FsPath>,
    ) -> (switch: Option<ViewSwitch>)
        ensures
            old(self).view_mode == view_mode ==> *final(self) == *old(self) && switch is None,
            old(self).view_mode != view_mode ==> {
                let previous = old(self).view_mode;
                let base = switched_base(*old(self), view_mode);
                &&& switch matches Some(s) && s.schedule_list_summaries == (view_mode
                    == BrowserViewMode::List)
                &&& path_seq(switch->0.cancelled_loads@) == expansion_cancelled(
                    *old(self),
                    previous,
                    view_mode,
                    path_views(column_directories@),
                    transfer_view(icon_grid_transfer),
                )
                &&& expansion_switched(
                    base,
                    FileBrowser { selected: base.selected, selected_paths: base.selected_paths, ..*final(self) },
                    previous,
                    view_mode,
                    path_views(column_directories@),
                    transfer_view(icon_grid_transfer),
                    requested_load(switch->0.transition),
                )
                &&& transition_ok(
                    *old(self),
                    previous,
                    view_mode,
                    requested_load(switch->0.transition),
                    switch->0.transition,
                )
                &&& selection_switched(*old(self), *final(self), previous, view_mode)
            },
    {
        if self.view_mode == view_mode {
            return None;
        }
        let previous = self.view_mode;
        let list_transfer = if previous == BrowserViewMode::List && view_mode == BrowserViewMode::Icons {
            self.list_expansion_transfer()
        } else {
            None
        };
        let focus_is_direct = match &self.selected {
            Some(path) => entries_contain(&self.entries, path),
            None => false,
        };
        let ghost before = *self;
        self.clear_view_interactions(view_mode);
        let ghost base = *self;
        let (cancelled_loads, request) = self.switch_list_expansion(
            previous,
            view_mode,
            icon_grid_transfer,
            column_directories,
        );
        let ghost expanded = *self;
        let transition = match list_transfer {
            Some(transfer) => Some(ViewSwitchTransition::StartIconGridFollow(transfer)),
            None => {
                if previous == BrowserViewMode::Icons && view_mode == BrowserViewMode::List {
                    match request {
                        Some(r) => Some(ViewSwitchTransition::LoadExpandedDirectory(r)),
                        None => None,
                    }
                } else if (previous == BrowserViewMode::List && view_mode == BrowserViewMode::Columns)
                    || (previous == BrowserViewMode::Icons && view_mode == BrowserViewMode::Columns
                    && focus_is_direct) {
                    Some(ViewSwitchTransition::OpenSelectedColumn)
                } else {
                    None
                }
            },
        };
        if previous == BrowserViewMode::Icons || view_mode == BrowserViewMode::Icons {
            self.retain_direct_entry_selection();
        }
        proof {
            assert(expanded == (FileBrowser {
                selected: base.selected,
                selected_paths: base.selected_paths,
                ..*self
            }));
        }
        Some(ViewSwitch { transition, schedule_list_summaries: view_mode == BrowserViewMode::List, cancelled_loads })
    }
}

impl FileBrowser {
    /// `select_visible_column_count`: the columns view shows `count`
    /// columns, brought into the allowed range. Says whether the
    /// preferences changed (and are to be stored).
    pub fn select_visible_column_count(&mut self, count: usize) -> (changed: bool)
        ensures
            final(self).user_config.visible_column_count == clamp_spec(
                count as int,
                MIN_VISIBLE_COLUMN_COUNT as int,
                MAX_VISIBLE_COLUMN_COUNT as int,
            ),
            changed == (old(self).user_config.visible_column_count
                != final(self).user_config.visible_column_count),
            *final(self) == (FileBrowser {
                user_config: BrowserPreferences {
                    visible_column_count: final(self).user_config.visible_column_count,
                    ..old(self).user_config
                },
                ..*old(self)
            }),
            old(self).collections_well_formed() ==> final(self).collections_well_formed(),
    {
        let count = normalize_visible_column_count(count);
        if self.user_config.visible_column_count == count {
            return false;
        }
        self.user_config.visible_column_count = count;
        true
    }
}

} // verus!
