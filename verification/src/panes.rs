//! Panes, expanded directories and the bookkeeping that keeps every visible
//! pane in step with file-system changes and metadata loads.

use vstd::prelude::*;
use crate::browser::{DirectoryEntry, FileBrowser};
use crate::config::{SortDirection, SortField};
use crate::paths::{FsPath, PathModel, parent_spec};
use crate::entry_changes::DiscoveredEntry;

verus! {

#[derive(Debug, Clone, Copy, PartialEq, Eq, Structural)]
pub struct BrowserPaneId {
    pub id: u64,
}

#[derive(Debug, Clone, Copy, PartialEq, Eq, Structural)]
pub enum ExpandedDirectoryStatus {
    Loading,
    Loaded,
    Failed,
}

/// Whether a listing is shown in its final sort order, or waits for metadata
/// (sizes, kinds) requested by generation `request_generation`.
#[derive(Debug, Clone, Copy, PartialEq, Eq, Structural)]
pub enum DirectoryOrderPhase {
    Ready { field: SortField, direction: SortDirection },
    WaitingForMetadata { request_generation: u64, field: SortField, direction: SortDirection },
}

/// A directory expanded inline (list view tree, parent columns, icon grid).
/// `animation_progress` runs from 0 (collapsed) to 1000 (fully open).
#[derive(Debug, Clone, PartialEq, Eq)]
pub struct ExpandedDirectory {
    pub path: FsPath,
    pub entries: Vec<DirectoryEntry>,
    pub status: ExpandedDirectoryStatus,
    pub is_expanded: bool,
    pub is_collapsing: bool,
    pub animation_progress: u32,
    pub load_generation: u64,
    /// The listing's discovery (entries before metadata), once it is loaded.
    pub directory_discovery: Option<Vec<DiscoveredEntry>>,
    /// Whether a load of this directory is still running.
    pub load_in_flight: bool,
    pub directory_order_phase: DirectoryOrderPhase,
}

/// An inactive pane's own state; the active pane lives in the browser's
/// top-level fields.
#[derive(Debug, Clone, PartialEq, Eq)]
pub struct BrowserPane {
    pub id: BrowserPaneId,
    pub is_trash_view: bool,
    pub current_dir: FsPath,
    pub entries: Vec<DirectoryEntry>,
    pub selected: Option<FsPath>,
    pub selected_paths: Vec<FsPath>,
    pub expanded_directories: Vec<ExpandedDirectory>,
    pub directory_load_generation: u64,
    pub directory_discovery: Option<Vec<DiscoveredEntry>>,
    pub directory_order_phase: DirectoryOrderPhase,
}

pub open spec fn entry_paths(entries: Seq<DirectoryEntry>) -> Seq<PathModel> {
    entries.map_values(|e: DirectoryEntry| e.path@)
}

/// Index of the first expanded directory for `path`, searching from `from`.
pub open spec fn find_expanded_from(directories: Seq<ExpandedDirectory>, path: PathModel, from: int) -> Option<int>
    decreases directories.len() - from,
{
    if from < 0 || from >= directories.len() {
        None
    } else if directories[from].path@ == path {
        Some(from)
    } else {
        find_expanded_from(directories, path, from + 1)
    }
}

pub open spec fn find_expanded(directories: Seq<ExpandedDirectory>, path: PathModel) -> Option<int> {
    find_expanded_from(directories, path, 0)
}

pub proof fn lemma_find_expanded_from(directories: Seq<ExpandedDirectory>, path: PathModel, from: int)
    requires
        0 <= from,
    ensures
        find_expanded_from(directories, path, from) matches Some(i) ==> from <= i < directories.len()
            && directories[i].path@ == path,
        find_expanded_from(directories, path, from) is None ==> forall|i: int|
            from <= i < directories.len() ==> #[trigger] directories[i].path@ != path,
    decreases directories.len() - from,
{
    if from < directories.len() && directories[from].path@ != path {
        lemma_find_expanded_from(directories, path, from + 1);
    }
}

/// Directories with the same paths are found at the same places.
pub proof fn lemma_find_expanded_same_paths(
    a: Seq<ExpandedDirectory>,
    b: Seq<ExpandedDirectory>,
    path: PathModel,
    from: int,
)
    requires
        a.len() == b.len(),
        forall|k: int| 0 <= k < a.len() ==> #[trigger] a[k].path@ == b[k].path@,
    ensures
        find_expanded_from(a, path, from) == find_expanded_from(b, path, from),
    decreases a.len() - from,
{
    if 0 <= from < a.len() && a[from].path@ != path {
        lemma_find_expanded_same_paths(a, b, path, from + 1);
    }
}

/// `expanded_directories.get(path)`: index of the first expanded directory
/// for `path`.
pub fn find_expanded_directory(directories: &Vec<ExpandedDirectory>, path: &FsPath) -> (index: Option<usize>)
    ensures
        index matches Some(i) ==> find_expanded(directories@, path@) == Some(i as int) && i
            < directories@.len(),
        index is None ==> find_expanded(directories@, path@) is None,
        index is None <==> forall|i: int|
            0 <= i < directories@.len() ==> #[trigger] directories@[i].path@ != path@,
{
    proof {
        lemma_find_expanded_from(directories@, path@, 0);
    }
    let mut i: usize = 0;
    while i < directories.len()
        invariant
            i <= directories@.len(),
            find_expanded(directories@, path@) == find_expanded_from(directories@, path@, i as int),
            forall|j: int| 0 <= j < i ==> #[trigger] directories@[j].path@ != path@,
        decreases directories@.len() - i,
    {
        if directories[i].path.same_as(path) {
            return Some(i);
        }
        i = i + 1;
    }
    None
}

/// Index of the first inactive-or-active pane with `id`.
pub open spec fn find_pane_from(panes: Seq<BrowserPane>, id: BrowserPaneId, from: int) -> Option<int>
    decreases panes.len() - from,
{
    if from < 0 || from >= panes.len() {
        None
    } else if panes[from].id == id {
        Some(from)
    } else {
        find_pane_from(panes, id, from + 1)
    }
}

/// What `find_pane_from` finds is a pane with that id at or after `from`.
pub proof fn lemma_find_pane_from(panes: Seq<BrowserPane>, id: BrowserPaneId, from: int)
    requires
        0 <= from,
    ensures
        find_pane_from(panes, id, from) matches Some(i) ==> from <= i < panes.len() && panes[i].id == id,
    decreases panes.len() - from,
{
    if from < panes.len() && panes[from].id != id {
        lemma_find_pane_from(panes, id, from + 1);
    }
}

pub fn find_pane(panes: &Vec<BrowserPane>, id: BrowserPaneId) -> (index: Option<usize>)
    ensures
        index matches Some(i) ==> find_pane_from(panes@, id, 0) == Some(i as int) && i
            < panes@.len() && panes@[i as int].id == id,
        index is None ==> find_pane_from(panes@, id, 0) is None,
{
    let mut i: usize = 0;
    while i < panes.len()
        invariant
            i <= panes@.len(),
            find_pane_from(panes@, id, 0) == find_pane_from(panes@, id, i as int),
        decreases panes@.len() - i,
    {
        if panes[i].id == id {
            return Some(i);
        }
        i = i + 1;
    }
    None
}

pub open spec fn has_expanded(directories: Seq<ExpandedDirectory>, path: PathModel) -> bool {
    find_expanded(directories, path) is Some
}

// ---------------------------------------------------------------------------
// Entry changes
// ---------------------------------------------------------------------------

/// `remember_pane_for_refresh`: remembers a pane once.
pub fn remember_pane_for_refresh(pane_ids: &mut Vec<BrowserPaneId>, pane_id: BrowserPaneId)
    ensures
        old(pane_ids)@.contains(pane_id) ==> final(pane_ids)@ == old(pane_ids)@,
        !old(pane_ids)@.contains(pane_id) ==> final(pane_ids)@ == old(pane_ids)@.push(pane_id),
{
    let mut i: usize = 0;
    while i < pane_ids.len()
        invariant
            i <= pane_ids@.len(),
            pane_ids@ == old(pane_ids)@,
            forall|j: int| 0 <= j < i ==> pane_ids@[j] != pane_id,
        decreases pane_ids@.len() - i,
    {
        if pane_ids[i] == pane_id {
            return ;
        }
        i = i + 1;
    }
    pane_ids.push(pane_id);
}

#[derive(Debug, Clone, Copy, PartialEq, Eq, Structural)]
pub enum PaneDirectoryRole {
    /// The pane's main listing.
    Root,
    /// One of the pane's loaded expanded directories.
    Expanded,
}

/// Where a change to a directory has to be applied.
#[derive(Debug, Clone, Copy, PartialEq, Eq, Structural)]
pub enum EntryChangeApplicationTarget {
    /// The active pane, held in the browser's top-level fields.
    ActiveMirror(PaneDirectoryRole),
    /// An inactive pane.
    Pane(BrowserPaneId, PaneDirectoryRole),
}

pub open spec fn pane_targets(panes: Seq<BrowserPane>, active: BrowserPaneId, directory: PathModel) -> Seq<EntryChangeApplicationTarget>
    decreases panes.len(),
{
    if panes.len() == 0 {
        Seq::empty()
    } else {
        let rest = pane_targets(panes.drop_last(), active, directory);
        let pane = panes.last();
        if pane.id == active {
            rest
        } else {
            let with_root = if !pane.is_trash_view && pane.current_dir@ == directory {
                rest.push(EntryChangeApplicationTarget::Pane(pane.id, PaneDirectoryRole::Root))
            } else {
                rest
            };
            if has_expanded(pane.expanded_directories@, directory) {
                with_root.push(EntryChangeApplicationTarget::Pane(pane.id, PaneDirectoryRole::Expanded))
            } else {
                with_root
            }
        }
    }
}

/// Every place showing `directory`: the active pane's root listing (not in
/// the trash view) and its expanded copy, then each inactive pane's (the
/// active pane's stale copy among the panes is skipped).
pub open spec fn application_targets_spec(browser: FileBrowser, directory: PathModel) -> Seq<EntryChangeApplicationTarget> {
    let root = if !browser.is_trash_view && directory == browser.current_dir@ {
        seq![EntryChangeApplicationTarget::ActiveMirror(PaneDirectoryRole::Root)]
    } else {
        Seq::empty()
    };
    let mirror = if has_expanded(browser.expanded_directories@, directory) {
        root.push(EntryChangeApplicationTarget::ActiveMirror(PaneDirectoryRole::Expanded))
    } else {
        root
    };
    mirror + pane_targets(browser.panes@, browser.active_pane_id, directory)
}

/// The listings showing `directory` in each pane: the root listing when the
/// pane shows it, else its loaded expanded copy.
pub open spec fn displayed_list(
    current_dir: PathModel,
    entries: Seq<DirectoryEntry>,
    expanded: Seq<ExpandedDirectory>,
    directory: PathModel,
) -> Option<Seq<PathModel>> {
    if directory == current_dir {
        Some(entry_paths(entries))
    } else {
        match find_expanded(expanded, directory) {
            Some(i) => if expanded[i].status == ExpandedDirectoryStatus::Loaded {
                Some(entry_paths(expanded[i].entries@))
            } else {
                None
            },
            None => None,
        }
    }
}

pub open spec fn option_to_seq<A>(value: Option<A>) -> Seq<A> {
    match value {
        Some(v) => seq![v],
        None => Seq::empty(),
    }
}

pub open spec fn pane_lists(panes: Seq<BrowserPane>, active: BrowserPaneId, directory: PathModel) -> Seq<Seq<PathModel>>
    decreases panes.len(),
{
    if panes.len() == 0 {
        Seq::empty()
    } else {
        let rest = pane_lists(panes.drop_last(), active, directory);
        let pane = panes.last();
        if pane.id == active {
            rest
        } else {
            rest + option_to_seq(
                displayed_list(
                    pane.current_dir@,
                    pane.entries@,
                    pane.expanded_directories@,
                    directory,
                ),
            )
        }
    }
}

pub open spec fn displayed_lists_spec(browser: FileBrowser, directory: PathModel) -> Seq<Seq<PathModel>> {
    option_to_seq(
        displayed_list(
            browser.current_dir@,
            browser.entries@,
            browser.expanded_directories@,
            directory,
        ),
    ) + pane_lists(browser.panes@, browser.active_pane_id, directory)
}

/// `path` is absent from every listing of its parent (vacuously true when no
/// pane shows the parent; false for a path without a parent).
pub open spec fn hidden_everywhere(browser: FileBrowser, path: PathModel) -> bool {
    match parent_spec(path) {
        None => false,
        Some(parent) => {
            let lists = displayed_lists_spec(browser, parent);
            forall|i: int| 0 <= i < lists.len() ==> !(#[trigger] lists[i]).contains(path)
        },
    }
}

/// `path` is present in every listing of its parent.
pub open spec fn shown_everywhere(browser: FileBrowser, path: PathModel) -> bool {
    match parent_spec(path) {
        None => false,
        Some(parent) => {
            let lists = displayed_lists_spec(browser, parent);
            forall|i: int| 0 <= i < lists.len() ==> (#[trigger] lists[i]).contains(path)
        },
    }
}

fn entries_contain(entries: &Vec<DirectoryEntry>, path: &FsPath) -> (found: bool)
    ensures
        found == entry_paths(entries@).contains(path@),
{
    let mut i: usize = 0;
    while i < entries.len()
        invariant
            i <= entries@.len(),
            forall|j: int| 0 <= j < i ==> #[trigger] entry_paths(entries@)[j] != path@,
        decreases entries@.len() - i,
    {
        if entries[i].path.same_as(path) {
            assert(entry_paths(entries@)[i as int] == path@);
            return true;
        }
        i = i + 1;
    }
    false
}

/// Checks one pane's listing of `directory`: `Some(ok)` when the pane shows
/// it, where `ok` says whether `path` is present (`want_present`) or absent.
fn check_displayed_list(
    current_dir: &FsPath,
    entries: &Vec<DirectoryEntry>,
    expanded: &Vec<ExpandedDirectory>,
    directory: &FsPath,
    path: &FsPath,
    want_present: bool,
) -> (checked: Option<bool>)
    ensures
        match displayed_list(current_dir@, entries@, expanded@, directory@) {
            Some(list) => checked == Some(list.contains(path@) == want_present),
            None => checked is None,
        },
{
    if directory.same_as(current_dir) {
        return Some(entries_contain(entries, path) == want_present);
    }
    match find_expanded_directory(expanded, directory) {
        Some(i) => {
            if expanded[i].status == ExpandedDirectoryStatus::Loaded {
                Some(entries_contain(&expanded[i].entries, path) == want_present)
            } else {
                None
            }
        },
        None => None,
    }
}

impl FileBrowser {
    pub fn active_pane_id(&self) -> (id: BrowserPaneId)
        ensures
            id == self.active_pane_id,
    {
        self.active_pane_id
    }

    /// `entry_change_application_targets`.
    pub fn entry_change_application_targets(&self, directory: &FsPath) -> (targets: Vec<EntryChangeApplicationTarget>)
        ensures
            targets@ == application_targets_spec(*self, directory@),
    {
        let mut targets: Vec<EntryChangeApplicationTarget> = Vec::new();
        if !self.is_trash_view && directory.same_as(&self.current_dir) {
            targets.push(EntryChangeApplicationTarget::ActiveMirror(PaneDirectoryRole::Root));
        }
        if find_expanded_directory(&self.expanded_directories, directory).is_some() {
            targets.push(EntryChangeApplicationTarget::ActiveMirror(PaneDirectoryRole::Expanded));
        }
        let ghost mirror = targets@;
        let active = self.active_pane_id;
        let mut i: usize = 0;
        while i < self.panes.len()
            invariant
                i <= self.panes@.len(),
                active == self.active_pane_id,
                targets@ == mirror + pane_targets(self.panes@.take(i as int), active, directory@),
            decreases self.panes@.len() - i,
        {
            let ghost prefix = self.panes@.take(i + 1);
            assert(prefix.drop_last() =~= self.panes@.take(i as int));
            assert(prefix.last() == self.panes@[i as int]);
            let pane = &self.panes[i];
            if pane.id != active {
                if !pane.is_trash_view && pane.current_dir.same_as(directory) {
                    targets.push(EntryChangeApplicationTarget::Pane(pane.id, PaneDirectoryRole::Root));
                }
                if find_expanded_directory(&pane.expanded_directories, directory).is_some() {
                    targets.push(EntryChangeApplicationTarget::Pane(pane.id, PaneDirectoryRole::Expanded));
                }
            }
            assert(targets@ =~= mirror + pane_targets(prefix, active, directory@));
            i = i + 1;
        }
        assert(self.panes@.take(self.panes@.len() as int) =~= self.panes@);
        targets
    }

    fn path_checked_in_all_displaying_panes(&self, path: &FsPath, want_present: bool) -> (ok: bool)
        ensures
            want_present ==> ok == shown_everywhere(*self, path@),
            !want_present ==> ok == hidden_everywhere(*self, path@),
    {
        let parent = match path.parent() {
            Some(parent) => parent,
            None => return false,
        };
        let ghost lists = displayed_lists_spec(*self, parent@);
        let first = check_displayed_list(
            &self.current_dir,
            &self.entries,
            &self.expanded_directories,
            &parent,
            path,
            want_present,
        );
        let ghost head = option_to_seq(
            displayed_list(self.current_dir@, self.entries@, self.expanded_directories@, parent@),
        );
        if first == Some(false) {
            proof {
                assert(head.len() == 1);
                assert(lists.len() >= 1);
                assert(lists[0] == head[0]);
                assert(head[0].contains(path@) != want_present);
                assert(parent_spec(path@) == Some(parent@));
                lemma_listing_decides(*self, path@, parent@, 0);
            }
            return false;
        }
        let active = self.active_pane_id;
        let mut i: usize = 0;
        while i < self.panes.len()
            invariant
                i <= self.panes@.len(),
                active == self.active_pane_id,
                lists == head + pane_lists(self.panes@, active, parent@),
                lists == displayed_lists_spec(*self, parent@),
                parent_spec(path@) == Some(parent@),
                forall|j: int| 0 <= j < head.len() ==> (#[trigger] head[j]).contains(path@) == want_present,
                forall|j: int|
                    0 <= j < pane_lists(self.panes@.take(i as int), active, parent@).len() ==> (
                    #[trigger] pane_lists(self.panes@.take(i as int), active, parent@)[j]).contains(path@)
                        == want_present,
            decreases self.panes@.len() - i,
        {
            let ghost before = pane_lists(self.panes@.take(i as int), active, parent@);
            let ghost prefix = self.panes@.take(i + 1);
            proof {
                lemma_pane_lists_prefix(self.panes@, active, parent@, i + 1);
            }
            let pane = &self.panes[i];
            let ghost after = pane_lists(prefix, active, parent@);
            if pane.id != active {
                let checked = check_displayed_list(
                    &pane.current_dir,
                    &pane.entries,
                    &pane.expanded_directories,
                    &parent,
                    path,
                    want_present,
                );
                if checked == Some(false) {
                    proof {
                        assert(after[before.len() as int].contains(path@) != want_present);
                        lemma_pane_lists_is_prefix(self.panes@, active, parent@, i + 1);
                        let k = head.len() + before.len() as int;
                        assert(lists.len() > k);
                        assert(lists[k] == after[before.len() as int]);
                        assert(parent_spec(path@) == Some(parent@));
                        lemma_listing_decides(*self, path@, parent@, k);
                    }
                    return false;
                }
            }
            proof {
                assert forall|j: int| 0 <= j < after.len() implies (#[trigger] after[j]).contains(path@)
                    == want_present by {
                    if j < before.len() {
                        assert(after[j] == before[j]);
                    }
                }
            }
            i = i + 1;
        }
        assert(self.panes@.take(self.panes@.len() as int) =~= self.panes@);
        proof {
            assert forall|j: int| 0 <= j < lists.len() implies (#[trigger] lists[j]).contains(path@)
                == want_present by {
                if j >= head.len() {
                    assert(lists[j] == pane_lists(self.panes@, active, parent@)[j - head.len()]);
                } else {
                    assert(lists[j] == head[j]);
                }
            }
        }
        true
    }

    /// `path_hidden_in_all_displaying_panes`: the source of a finished move is
    /// gone from every pane showing its parent.
    pub fn path_hidden_in_all_displaying_panes(&self, path: &FsPath) -> (hidden: bool)
        ensures
            hidden == hidden_everywhere(*self, path@),
    {
        self.path_checked_in_all_displaying_panes(path, false)
    }

    /// `path_shown_in_all_displaying_panes`: the target of a finished transfer
    /// appears in every pane showing its parent.
    pub fn path_shown_in_all_displaying_panes(&self, path: &FsPath) -> (shown: bool)
        ensures
            shown == shown_everywhere(*self, path@),
    {
        self.path_checked_in_all_displaying_panes(path, true)
    }

    /// `transfers_are_reflected_in_visible_directories`: every source is gone
    /// and every target visible wherever their directories are shown.
    pub fn transfers_are_reflected_in_visible_directories(&self, transfers: &Vec<(FsPath, FsPath)>) -> (reflected: bool)
        ensures
            reflected == forall|i: int|
                0 <= i < transfers@.len() ==> hidden_everywhere(*self, (#[trigger] transfers@[i]).0@)
                    && shown_everywhere(*self, transfers@[i].1@),
    {
        let mut i: usize = 0;
        while i < transfers.len()
            invariant
                i <= transfers@.len(),
                forall|j: int|
                    0 <= j < i ==> hidden_everywhere(*self, (#[trigger] transfers@[j]).0@)
                        && shown_everywhere(*self, transfers@[j].1@),
            decreases transfers@.len() - i,
        {
            if !self.path_hidden_in_all_displaying_panes(&transfers[i].0)
                || !self.path_shown_in_all_displaying_panes(&transfers[i].1) {
                return false;
            }
            i = i + 1;
        }
        true
    }
}

/// One listing of the parent that shows the path refutes "hidden
/// everywhere"; one that lacks it refutes "shown everywhere".
proof fn lemma_listing_decides(browser: FileBrowser, path: PathModel, parent: PathModel, k: int)
    requires
        parent_spec(path) == Some(parent),
        0 <= k < displayed_lists_spec(browser, parent).len(),
    ensures
        displayed_lists_spec(browser, parent)[k].contains(path) ==> !hidden_everywhere(browser, path),
        !displayed_lists_spec(browser, parent)[k].contains(path) ==> !shown_everywhere(browser, path),
{
    let lists = displayed_lists_spec(browser, parent);
    let named = parent_spec(path)->0;
    assert(named == parent);
    if hidden_everywhere(browser, path) {
        assert(!displayed_lists_spec(browser, named)[k].contains(path));
    }
    if shown_everywhere(browser, path) {
        assert(displayed_lists_spec(browser, named)[k].contains(path));
    }
}

proof fn lemma_pane_lists_prefix(panes: Seq<BrowserPane>, active: BrowserPaneId, directory: PathModel, n: int)
    requires
        0 < n <= panes.len(),
    ensures
        ({
            let prefix = panes.take(n);
            let pane = panes[n - 1];
            pane_lists(prefix, active, directory) == if pane.id == active {
                pane_lists(panes.take(n - 1), active, directory)
            } else {
                pane_lists(panes.take(n - 1), active, directory) + option_to_seq(
                    displayed_list(
                        pane.current_dir@,
                        pane.entries@,
                        pane.expanded_directories@,
                        directory,
                    ),
                )
            }
        }),
{
    assert(panes.take(n).drop_last() =~= panes.take(n - 1));
}

/// The lists of the first `n` panes are a prefix of the lists of all panes.
proof fn lemma_pane_lists_is_prefix(panes: Seq<BrowserPane>, active: BrowserPaneId, directory: PathModel, n: int)
    requires
        0 <= n <= panes.len(),
    ensures
        pane_lists(panes.take(n), active, directory).len() <= pane_lists(panes, active, directory).len(),
        forall|j: int|
            0 <= j < pane_lists(panes.take(n), active, directory).len() ==> #[trigger] pane_lists(
                panes.take(n),
                active,
                directory,
            )[j] == pane_lists(panes, active, directory)[j],
    decreases panes.len(),
{
    if n == panes.len() {
        assert(panes.take(n) =~= panes);
    } else {
        let shorter = panes.drop_last();
        assert(shorter.take(n) =~= panes.take(n));
        lemma_pane_lists_is_prefix(shorter, active, directory, n);
    }
}

/// Where some pane shows the parent of `path`, the path cannot be both gone
/// from every listing and present in every listing: the reconciliation of
/// a finished transfer is never satisfied both ways at once.
pub proof fn lemma_hidden_and_shown_exclude_each_other(browser: FileBrowser, path: PathModel)
    requires
        parent_spec(path) matches Some(parent) && displayed_lists_spec(browser, parent).len() > 0,
    ensures
        !(hidden_everywhere(browser, path) && shown_everywhere(browser, path)),
{
    let parent = parent_spec(path)->0;
    lemma_listing_decides(browser, path, parent, 0);
}

// ---------------------------------------------------------------------------
// Well-formedness
// ---------------------------------------------------------------------------

/// The paths of expanded directories, in order.
pub open spec fn expanded_paths(directories: Seq<ExpandedDirectory>) -> Seq<PathModel> {
    directories.map_values(|d: ExpandedDirectory| d.path@)
}

/// A pane's collections keyed by path hold each path once: no directory is
/// expanded twice and no path is selected twice.
pub open spec fn pane_collections_well_formed(pane: BrowserPane) -> bool {
    &&& expanded_paths(pane.expanded_directories@).no_duplicates()
    &&& crate::naming::path_views(pane.selected_paths@).no_duplicates()
}

impl FileBrowser {
    /// The browser's keyed collections hold each key once: in the active
    /// pane and in every pane, no directory is expanded twice and no path is
    /// selected twice; and no two panes share an id.
    pub open spec fn collections_well_formed(self) -> bool {
        &&& expanded_paths(self.expanded_directories@).no_duplicates()
        &&& crate::naming::path_views(self.selected_paths@).no_duplicates()
        &&& forall|i: int| 0 <= i < self.panes@.len() ==> pane_collections_well_formed(#[trigger] self.panes@[i])
        &&& forall|i: int, j: int|
            0 <= i < j < self.panes@.len() ==> #[trigger] self.panes@[i].id != #[trigger] self.panes@[j].id
    }
}

proof fn lemma_filter_within<A>(s: Seq<A>, pred: spec_fn(A) -> bool, x: A)
    requires
        s.filter(pred).contains(x),
    ensures
        s.contains(x),
    decreases s.len(),
{
    reveal(Seq::filter);
    if s.len() > 0 {
        let rest = s.drop_last();
        if rest.filter(pred).contains(x) {
            lemma_filter_within(rest, pred, x);
            let k = choose|k: int| 0 <= k < rest.len() && rest[k] == x;
            assert(s[k] == x);
        } else {
            let i = choose|i: int| 0 <= i < s.filter(pred).len() && s.filter(pred)[i] == x;
            assert(i == rest.filter(pred).len());
            assert(s[s.len() - 1] == x);
        }
    }
}

/// A sequence with `x` added at the end still holds each element once when
/// `x` was not in it.
pub proof fn lemma_push_keeps_no_duplicates<A>(s: Seq<A>, x: A)
    requires
        s.no_duplicates(),
        !s.contains(x),
    ensures
        s.push(x).no_duplicates(),
{
    let t = s.push(x);
    assert forall|i: int, j: int| 0 <= i < t.len() && 0 <= j < t.len() && i != j implies t[i] != t[j] by {
        if i == s.len() {
            assert(s[j] == t[j]);
        } else if j == s.len() {
            assert(s[i] == t[i]);
        } else {
            assert(s[i] == t[i] && s[j] == t[j]);
        }
    }
}

/// Keeping some of a sequence's elements keeps each of them once.
pub proof fn lemma_filter_keeps_no_duplicates<A>(s: Seq<A>, pred: spec_fn(A) -> bool)
    requires
        s.no_duplicates(),
    ensures
        s.filter(pred).no_duplicates(),
    decreases s.len(),
{
    reveal(Seq::filter);
    if s.len() > 0 {
        let rest = s.drop_last();
        assert(rest.no_duplicates());
        lemma_filter_keeps_no_duplicates(rest, pred);
        if pred(s.last()) {
            if rest.filter(pred).contains(s.last()) {
                lemma_filter_within(rest, pred, s.last());
                let k = choose|k: int| 0 <= k < rest.len() && rest[k] == s.last();
                assert(s[k] == s[s.len() - 1]);
            }
            lemma_push_keeps_no_duplicates(rest.filter(pred), s.last());
        }
    }
}

/// Adding an expanded directory (`inserted`: it replaces the one for its
/// path, or comes at the end) keeps each path once.
pub proof fn lemma_inserted_keeps_paths_distinct(directories: Seq<ExpandedDirectory>, expanded: ExpandedDirectory)
    requires
        expanded_paths(directories).no_duplicates(),
    ensures
        expanded_paths(crate::view_modes::inserted(directories, expanded)).no_duplicates(),
{
    lemma_find_expanded_from(directories, expanded.path@, 0);
    match find_expanded(directories, expanded.path@) {
        Some(i) => {
            assert(expanded_paths(crate::view_modes::inserted(directories, expanded)) =~= expanded_paths(directories));
        },
        None => {
            assert(expanded_paths(crate::view_modes::inserted(directories, expanded)) =~= expanded_paths(
                directories,
            ).push(expanded.path@));
            if expanded_paths(directories).contains(expanded.path@) {
                let k = choose|k: int| 0 <= k < directories.len() && expanded_paths(directories)[k] == expanded.path@;
                assert(directories[k].path@ == expanded.path@);
            }
            lemma_push_keeps_no_duplicates(expanded_paths(directories), expanded.path@);
        },
    }
}

/// Dropping an expanded directory keeps each remaining path once.
pub proof fn lemma_removed_keeps_paths_distinct(directories: Seq<ExpandedDirectory>, path: PathModel)
    requires
        expanded_paths(directories).no_duplicates(),
    ensures
        expanded_paths(crate::view_modes::removed(directories, path)).no_duplicates(),
{
    lemma_find_expanded_from(directories, path, 0);
    match find_expanded(directories, path) {
        Some(i) => {
            let before = expanded_paths(directories);
            let after = expanded_paths(crate::view_modes::removed(directories, path));
            assert(after =~= before.remove(i));
            assert forall|a: int, b: int| 0 <= a < after.len() && 0 <= b < after.len() && a != b implies after[a]
                != after[b] by {
                let ia = if a < i { a } else { a + 1 };
                let ib = if b < i { b } else { b + 1 };
                assert(after[a] == before[ia] && after[b] == before[ib]);
            }
        },
        None => {},
    }
}

/// Directories that keep their paths, place by place, keep the same paths.
pub proof fn lemma_same_paths(directories: Seq<ExpandedDirectory>, new_directories: Seq<ExpandedDirectory>)
    requires
        new_directories.len() == directories.len(),
        forall|i: int| 0 <= i < directories.len() ==> #[trigger] new_directories[i].path@ == directories[i].path@,
    ensures
        expanded_paths(new_directories) == expanded_paths(directories),
{
    assert(expanded_paths(new_directories) =~= expanded_paths(directories));
}

/// Dropping the directory at `i` keeps each remaining path once.
pub proof fn lemma_remove_at_keeps_paths_distinct(directories: Seq<ExpandedDirectory>, i: int)
    requires
        0 <= i < directories.len(),
        expanded_paths(directories).no_duplicates(),
    ensures
        expanded_paths(directories.remove(i)).no_duplicates(),
{
    let before = expanded_paths(directories);
    let after = expanded_paths(directories.remove(i));
    assert forall|a: int, b: int| 0 <= a < after.len() && 0 <= b < after.len() && a != b implies after[a] != after[b] by {
        let ia = if a < i { a } else { a + 1 };
        let ib = if b < i { b } else { b + 1 };
        assert(after[a] == before[ia] && after[b] == before[ib]);
    }
}

/// Adding a directory for a path not expanded yet keeps each path once.
pub proof fn lemma_push_new_path_keeps_paths_distinct(directories: Seq<ExpandedDirectory>, expanded: ExpandedDirectory)
    requires
        expanded_paths(directories).no_duplicates(),
        find_expanded(directories, expanded.path@) is None,
    ensures
        expanded_paths(directories.push(expanded)).no_duplicates(),
{
    lemma_find_expanded_from(directories, expanded.path@, 0);
    assert(expanded_paths(directories.push(expanded)) =~= expanded_paths(directories).push(expanded.path@));
    if expanded_paths(directories).contains(expanded.path@) {
        let k = choose|k: int| 0 <= k < directories.len() && expanded_paths(directories)[k] == expanded.path@;
        assert(directories[k].path@ == expanded.path@);
    }
    lemma_push_keeps_no_duplicates(expanded_paths(directories), expanded.path@);
}

proof fn lemma_find_unique_pane_from(panes: Seq<BrowserPane>, i: int, from: int)
    requires
        0 <= from <= i < panes.len(),
        forall|a: int, b: int| 0 <= a < b < panes.len() ==> #[trigger] panes[a].id != #[trigger] panes[b].id,
    ensures
        find_pane_from(panes, panes[i].id, from) == Some(i),
    decreases i - from,
{
    if from < i {
        assert(panes[from].id != panes[i].id);
        lemma_find_unique_pane_from(panes, i, from + 1);
    }
}

/// In a well-formed browser every pane is the one its id finds, so a pane
/// reached by its place in `panes` is the pane its id names.
pub proof fn lemma_pane_found_by_its_id(browser: FileBrowser, i: int)
    requires
        browser.collections_well_formed(),
        0 <= i < browser.panes@.len(),
    ensures
        find_pane_from(browser.panes@, browser.panes@[i].id, 0) == Some(i),
{
    lemma_find_unique_pane_from(browser.panes@, i, 0);
}

} // verus!
