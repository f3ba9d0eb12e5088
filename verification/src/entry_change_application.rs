//! Applying a batch of entry changes to every listing that shows the
//! directory: the active pane's root listing and expanded copy, and each
//! inactive pane's.

use vstd::prelude::*;
use crate::browser::{DirectoryEntry, FileBrowser, FileKind};
use crate::entry_changes::{
    apply_changes_to_discovery, change_views, changes_applied, changes_require_rescan, discovered_views,
    entry_change_removed_paths, forget_removed_paths, position_in, position_of, removed_paths_spec,
    selection_without, ChangeModel, DiscoveredEntry, DiscoveredModel, ResolvedEntryChange,
};
use crate::naming::path_views;
use crate::panes::{
    expanded_paths, find_expanded, find_expanded_directory, lemma_filter_keeps_no_duplicates,
    pane_collections_well_formed, remember_pane_for_refresh, BrowserPane, BrowserPaneId, ExpandedDirectory,
};
use crate::paths::{FsPath, PathModel};

verus! {

/// An entry as a listing shows it.
pub struct ShownModel {
    pub path: PathModel,
    pub kind: FileKind,
    pub discovery_index: Option<usize>,
}

pub open spec fn shown_views(entries: Seq<DirectoryEntry>) -> Seq<ShownModel> {
    entries.map_values(|e: DirectoryEntry| ShownModel { path: e.path@, kind: e.kind, discovery_index: e.discovery_index })
}

/// The discovery's entries in `order`, each with its place in the discovery;
/// a place past the end shows nothing.
pub open spec fn shown_in_order(discovery: Seq<DiscoveredModel>, order: Seq<usize>) -> Seq<ShownModel>
    decreases order.len(),
{
    if order.len() == 0 {
        Seq::empty()
    } else {
        let rest = shown_in_order(discovery, order.drop_last());
        let k = order.last();
        if k < discovery.len() {
            rest.push(ShownModel { path: discovery[k as int].path, kind: discovery[k as int].kind, discovery_index: Some(k) })
        } else {
            rest
        }
    }
}

/// `display_entries_in_discovery_order`: the listing a discovery shows in
/// the order its sort gave.
pub fn display_entries_in_discovery_order(discovery: &Vec<DiscoveredEntry>, order: &Vec<usize>) -> (shown: Vec<DirectoryEntry>)
    ensures
        shown_views(shown@) == shown_in_order(discovered_views(discovery@), order@),
{
    let mut shown: Vec<DirectoryEntry> = Vec::new();
    let mut i: usize = 0;
    while i < order.len()
        invariant
            i <= order@.len(),
            shown_views(shown@) == shown_in_order(discovered_views(discovery@), order@.take(i as int)),
        decreases order@.len() - i,
    {
        let ghost prefix = order@.take(i + 1);
        assert(prefix.drop_last() =~= order@.take(i as int));
        assert(prefix.last() == order@[i as int]);
        let k = order[i];
        let ghost before = shown@;
        if k < discovery.len() {
            let entry = &discovery[k];
            shown.push(DirectoryEntry { path: entry.path.duplicate(), kind: entry.kind, discovery_index: Some(k) });
            assert(shown@.drop_last() =~= before);
        }
        assert(shown_views(shown@) =~= shown_in_order(discovered_views(discovery@), prefix));
        i = i + 1;
    }
    assert(order@.take(order@.len() as int) =~= order@);
    shown
}

fn clone_discovered(entries: &Vec<DiscoveredEntry>) -> (copy: Vec<DiscoveredEntry>)
    ensures
        discovered_views(copy@) == discovered_views(entries@),
{
    let mut copy: Vec<DiscoveredEntry> = Vec::new();
    let mut i: usize = 0;
    while i < entries.len()
        invariant
            i <= entries@.len(),
            discovered_views(copy@) == discovered_views(entries@).take(i as int),
        decreases entries@.len() - i,
    {
        let ghost before = copy@;
        let entry = entries[i].clone_entry();
        copy.push(entry);
        assert(copy@ == before.push(entry));
        assert(discovered_views(copy@) =~= discovered_views(before).push(entries@[i as int]@));
        assert(discovered_views(copy@) =~= discovered_views(entries@).take(i + 1));
        i = i + 1;
    }
    assert(discovered_views(entries@).take(entries@.len() as int) =~= discovered_views(entries@));
    copy
}

/// Whether `changes` take effect on a listing: it has its discovery and one
/// of them changes it.
pub open spec fn listing_changed(discovery: Option<Vec<DiscoveredEntry>>, changes: Seq<ChangeModel>) -> bool {
    match discovery {
        Some(entries) => changes_applied(discovered_views(entries@), changes).1,
        None => false,
    }
}

/// A listing after `changes`: where they take effect, its discovery holds
/// the changed entries and it shows them in an order that `sort` gave for
/// them; elsewhere nothing changed.
pub open spec fn listing_refreshed<F: Fn(&Vec<DiscoveredEntry>) -> Vec<usize>>(
    discovery: Option<Vec<DiscoveredEntry>>,
    shown: Seq<DirectoryEntry>,
    new_discovery: Option<Vec<DiscoveredEntry>>,
    new_shown: Seq<DirectoryEntry>,
    changes: Seq<ChangeModel>,
    sort: F,
) -> bool {
    if listing_changed(discovery, changes) {
        &&& new_discovery is Some
        &&& discovered_views(new_discovery.unwrap()@) == changes_applied(discovered_views(discovery.unwrap()@), changes).0
        &&& exists|order: Vec<usize>|
            #[trigger] call_ensures(sort, (&new_discovery.unwrap(),), order) && shown_views(new_shown)
                == shown_in_order(discovered_views(new_discovery.unwrap()@), order@)
    } else {
        new_discovery == discovery && new_shown == shown
    }
}

/// `apply_changes_to_discovery` on one listing, then the listing shown
/// again in its new order.
fn refresh_listing<F: Fn(&Vec<DiscoveredEntry>) -> Vec<usize>>(
    discovery: &mut Option<Vec<DiscoveredEntry>>,
    shown: &mut Vec<DirectoryEntry>,
    changes: &Vec<ResolvedEntryChange>,
    sort: &F,
) -> (changed: bool)
    requires
        forall|entries: &Vec<DiscoveredEntry>| #[trigger] call_requires(*sort, (entries,)),
    ensures
        changed == listing_changed(*old(discovery), change_views(changes@)),
        listing_refreshed(*old(discovery), old(shown)@, *final(discovery), final(shown)@, change_views(changes@), *sort),
{
    let updated = match discovery {
        Some(entries) => {
            let mut copy = clone_discovered(entries);
            if apply_changes_to_discovery(&mut copy, changes) {
                Some(copy)
            } else {
                None
            }
        },
        None => None,
    };
    match updated {
        Some(entries) => {
            let order = sort(&entries);
            *shown = display_entries_in_discovery_order(&entries, &order);
            *discovery = Some(entries);
            true
        },
        None => false,
    }
}


/// A selection with the `removed` paths dropped: from the selected set, and
/// as the primary selection.
pub open spec fn selection_cleared_of(
    selected: Option<FsPath>,
    selected_paths: Seq<FsPath>,
    new_selected: Option<FsPath>,
    new_selected_paths: Seq<FsPath>,
    removed: Seq<PathModel>,
) -> bool {
    &&& path_views(new_selected_paths) == selection_without(path_views(selected_paths), removed)
    &&& match selected {
        Some(path) => if removed.contains(path@) {
            new_selected is None
        } else {
            new_selected == selected
        },
        None => new_selected is None,
    }
}

/// A pane's root listing after `changes` when it shows their directory
/// (`is_target`): refreshed, and where they took effect the paths they took
/// away are no longer selected. Otherwise nothing changed.
pub open spec fn root_refreshed<F: Fn(&Vec<DiscoveredEntry>) -> Vec<usize>>(
    is_target: bool,
    discovery: Option<Vec<DiscoveredEntry>>,
    shown: Seq<DirectoryEntry>,
    selected: Option<FsPath>,
    selected_paths: Seq<FsPath>,
    new_discovery: Option<Vec<DiscoveredEntry>>,
    new_shown: Seq<DirectoryEntry>,
    new_selected: Option<FsPath>,
    new_selected_paths: Seq<FsPath>,
    changes: Seq<ResolvedEntryChange>,
    sort: F,
) -> bool {
    if is_target && listing_changed(discovery, change_views(changes)) {
        &&& listing_refreshed(discovery, shown, new_discovery, new_shown, change_views(changes), sort)
        &&& selection_cleared_of(selected, selected_paths, new_selected, new_selected_paths, removed_paths_spec(changes))
    } else {
        &&& new_discovery == discovery
        &&& new_shown == shown
        &&& new_selected == selected
        &&& new_selected_paths == selected_paths
    }
}

/// Expanded directories after `changes` to `directory`: the one expanded
/// for it is refreshed, the others are left alone.
pub open spec fn expanded_refreshed<F: Fn(&Vec<DiscoveredEntry>) -> Vec<usize>>(
    directories: Seq<ExpandedDirectory>,
    new_directories: Seq<ExpandedDirectory>,
    directory: PathModel,
    changes: Seq<ChangeModel>,
    sort: F,
) -> bool {
    &&& new_directories.len() == directories.len()
    &&& forall|k: int|
        0 <= k < directories.len() && find_expanded(directories, directory) != Some(k) ==> #[trigger] new_directories[k]
            == directories[k]
    &&& find_expanded(directories, directory) matches Some(j) ==> {
        &&& new_directories[j] == (ExpandedDirectory {
            entries: new_directories[j].entries,
            directory_discovery: new_directories[j].directory_discovery,
            ..directories[j]
        })
        &&& listing_refreshed(
            directories[j].directory_discovery,
            directories[j].entries@,
            new_directories[j].directory_discovery,
            new_directories[j].entries@,
            changes,
            sort,
        )
    }
}

/// The number of entries the expanded copy of `directory` shows after
/// `changes`, when they took effect there.
pub open spec fn expanded_applied_count(
    directories: Seq<ExpandedDirectory>,
    new_directories: Seq<ExpandedDirectory>,
    directory: PathModel,
    changes: Seq<ChangeModel>,
) -> Option<usize> {
    match find_expanded(directories, directory) {
        Some(j) => if listing_changed(directories[j].directory_discovery, changes) {
            Some(new_directories[j].entries@.len() as usize)
        } else {
            None
        },
        None => None,
    }
}

fn refresh_root<F: Fn(&Vec<DiscoveredEntry>) -> Vec<usize>>(
    discovery: &mut Option<Vec<DiscoveredEntry>>,
    shown: &mut Vec<DirectoryEntry>,
    selected: &mut Option<FsPath>,
    selected_paths: &mut Vec<FsPath>,
    changes: &Vec<ResolvedEntryChange>,
    removed: &Vec<FsPath>,
    sort: &F,
) -> (count: Option<usize>)
    requires
        forall|entries: &Vec<DiscoveredEntry>| #[trigger] call_requires(*sort, (entries,)),
        path_views(removed@) == removed_paths_spec(changes@),
    ensures
        root_refreshed(
            true,
            *old(discovery),
            old(shown)@,
            *old(selected),
            old(selected_paths)@,
            *final(discovery),
            final(shown)@,
            *final(selected),
            final(selected_paths)@,
            changes@,
            *sort,
        ),
        count == (if listing_changed(*old(discovery), change_views(changes@)) {
            Some(final(shown)@.len() as usize)
        } else {
            None
        }),
{
    if refresh_listing(discovery, shown, changes, sort) {
        forget_removed_paths(selected, selected_paths, removed);
        Some(shown.len())
    } else {
        None
    }
}

fn refresh_expanded<F: Fn(&Vec<DiscoveredEntry>) -> Vec<usize>>(
    directories: &mut Vec<ExpandedDirectory>,
    directory: &FsPath,
    changes: &Vec<ResolvedEntryChange>,
    sort: &F,
) -> (count: Option<usize>)
    requires
        forall|entries: &Vec<DiscoveredEntry>| #[trigger] call_requires(*sort, (entries,)),
    ensures
        expanded_refreshed(old(directories)@, final(directories)@, directory@, change_views(changes@), *sort),
        count == expanded_applied_count(old(directories)@, final(directories)@, directory@, change_views(changes@)),
{
    match find_expanded_directory(directories, directory) {
        Some(j) => {
            let mut expanded = directories.remove(j);
            let changed = refresh_listing(&mut expanded.directory_discovery, &mut expanded.entries, changes, sort);
            let count = expanded.entries.len();
            let ghost updated = expanded;
            directories.insert(j, expanded);
            assert(directories@ =~= old(directories)@.update(j as int, updated));
            if changed {
                Some(count)
            } else {
                None
            }
        },
        None => None,
    }
}


/// Whether a pane's root listing is where changes to `directory` apply: it
/// shows that directory and is not the trash view.
pub open spec fn pane_root_is_target(pane: BrowserPane, directory: PathModel) -> bool {
    !pane.is_trash_view && pane.current_dir@ == directory
}

/// An inactive pane after `changes` to `directory`: its root listing and its
/// expanded copy refreshed, the rest of it left alone. The active pane's
/// stale copy among the panes is not touched.
pub open spec fn pane_refreshed<F: Fn(&Vec<DiscoveredEntry>) -> Vec<usize>>(
    pane: BrowserPane,
    new_pane: BrowserPane,
    active: BrowserPaneId,
    directory: PathModel,
    changes: Seq<ResolvedEntryChange>,
    sort: F,
) -> bool {
    if pane.id == active {
        new_pane == pane
    } else {
        &&& new_pane == (BrowserPane {
            directory_discovery: new_pane.directory_discovery,
            entries: new_pane.entries,
            selected: new_pane.selected,
            selected_paths: new_pane.selected_paths,
            expanded_directories: new_pane.expanded_directories,
            ..pane
        })
        &&& root_refreshed(
            pane_root_is_target(pane, directory),
            pane.directory_discovery,
            pane.entries@,
            pane.selected,
            pane.selected_paths@,
            new_pane.directory_discovery,
            new_pane.entries@,
            new_pane.selected,
            new_pane.selected_paths@,
            changes,
            sort,
        )
        &&& expanded_refreshed(
            pane.expanded_directories@,
            new_pane.expanded_directories@,
            directory,
            change_views(changes),
            sort,
        )
    }
}

/// `applied` with one more target, when the changes took effect there.
pub open spec fn with_applied(
    applied: Seq<(BrowserPaneId, usize)>,
    pane: BrowserPaneId,
    count: Option<usize>,
) -> Seq<(BrowserPaneId, usize)> {
    match count {
        Some(n) => applied.push((pane, n)),
        None => applied,
    }
}

/// The inactive panes' targets the changes took effect at, in pane order,
/// the root listing before the expanded copy, each with its pane and the
/// number of entries it now shows.
pub open spec fn pane_applied_targets(
    panes: Seq<BrowserPane>,
    new_panes: Seq<BrowserPane>,
    active: BrowserPaneId,
    directory: PathModel,
    changes: Seq<ChangeModel>,
) -> Seq<(BrowserPaneId, usize)>
    decreases panes.len(),
{
    if panes.len() == 0 {
        Seq::empty()
    } else {
        let last = panes.len() - 1;
        let rest = pane_applied_targets(panes.take(last), new_panes.take(last), active, directory, changes);
        let pane = panes[last];
        let new_pane = new_panes[last];
        if pane.id == active {
            rest
        } else {
            let root = if pane_root_is_target(pane, directory) && listing_changed(pane.directory_discovery, changes) {
                Some(new_pane.entries@.len() as usize)
            } else {
                None
            };
            let expanded = expanded_applied_count(
                pane.expanded_directories@,
                new_pane.expanded_directories@,
                directory,
                changes,
            );
            with_applied(with_applied(rest, pane.id, root), pane.id, expanded)
        }
    }
}

/// Every target the changes took effect at, in the order they are visited:
/// the active pane's root listing, its expanded copy, then the inactive
/// panes'.
pub open spec fn applied_targets(before: FileBrowser, after: FileBrowser, directory: PathModel, changes: Seq<ChangeModel>) -> Seq<
    (BrowserPaneId, usize),
> {
    let active = before.active_pane_id;
    let root = if !before.is_trash_view && before.current_dir@ == directory && listing_changed(
        before.directory_discovery,
        changes,
    ) {
        Some(after.entries@.len() as usize)
    } else {
        None
    };
    let expanded = expanded_applied_count(
        before.expanded_directories@,
        after.expanded_directories@,
        directory,
        changes,
    );
    with_applied(with_applied(Seq::empty(), active, root), active, expanded) + pane_applied_targets(
        before.panes@,
        after.panes@,
        active,
        directory,
        changes,
    )
}

/// The panes of `ids`, each once, in the order they first occur.
pub open spec fn distinct_panes(ids: Seq<BrowserPaneId>) -> Seq<BrowserPaneId>
    decreases ids.len(),
{
    if ids.len() == 0 {
        Seq::empty()
    } else {
        let rest = distinct_panes(ids.drop_last());
        if rest.contains(ids.last()) {
            rest
        } else {
            rest.push(ids.last())
        }
    }
}

pub open spec fn target_panes(applied: Seq<(BrowserPaneId, usize)>) -> Seq<BrowserPaneId> {
    applied.map_values(|target: (BrowserPaneId, usize)| target.0)
}

/// What is left to do after a batch of entry changes was applied.
#[derive(Debug, Clone, PartialEq, Eq)]
pub struct EntryChangeEffects {
    /// The directory's summary is recomputed and this direct child count,
    /// taken from the first listing the changes took effect at, is
    /// remembered for it; `None` when there was nothing to apply.
    pub direct_child_count: Option<usize>,
    /// Panes whose visible thumbnails are scheduled again, each once.
    pub thumbnail_panes: Vec<BrowserPaneId>,
}

fn note_applied(
    first_count: &mut Option<usize>,
    panes: &mut Vec<BrowserPaneId>,
    Ghost(applied): Ghost<Seq<(BrowserPaneId, usize)>>,
    pane: BrowserPaneId,
    count: Option<usize>,
)
    requires
        *old(first_count) == (if applied.len() > 0 { Some(applied[0].1) } else { None }),
        old(panes)@ == distinct_panes(target_panes(applied)),
    ensures
        *final(first_count) == (if with_applied(applied, pane, count).len() > 0 {
            Some(with_applied(applied, pane, count)[0].1)
        } else {
            None
        }),
        final(panes)@ == distinct_panes(target_panes(with_applied(applied, pane, count))),
{
    if let Some(n) = count {
        if first_count.is_none() {
            *first_count = Some(n);
        }
        let ghost next = applied.push((pane, n));
        assert(target_panes(next).drop_last() =~= target_panes(applied));
        remember_pane_for_refresh(panes, pane);
    }
}


fn refresh_pane<F: Fn(&Vec<DiscoveredEntry>) -> Vec<usize>>(
    pane: &mut BrowserPane,
    directory: &FsPath,
    changes: &Vec<ResolvedEntryChange>,
    removed: &Vec<FsPath>,
    sort: &F,
) -> (counts: (Option<usize>, Option<usize>))
    requires
        forall|entries: &Vec<DiscoveredEntry>| #[trigger] call_requires(*sort, (entries,)),
        path_views(removed@) == removed_paths_spec(changes@),
    ensures
        *final(pane) == (BrowserPane {
            directory_discovery: final(pane).directory_discovery,
            entries: final(pane).entries,
            selected: final(pane).selected,
            selected_paths: final(pane).selected_paths,
            expanded_directories: final(pane).expanded_directories,
            ..*old(pane)
        }),
        root_refreshed(
            pane_root_is_target(*old(pane), directory@),
            old(pane).directory_discovery,
            old(pane).entries@,
            old(pane).selected,
            old(pane).selected_paths@,
            final(pane).directory_discovery,
            final(pane).entries@,
            final(pane).selected,
            final(pane).selected_paths@,
            changes@,
            *sort,
        ),
        expanded_refreshed(
            old(pane).expanded_directories@,
            final(pane).expanded_directories@,
            directory@,
            change_views(changes@),
            *sort,
        ),
        counts.0 == (if pane_root_is_target(*old(pane), directory@) && listing_changed(
            old(pane).directory_discovery,
            change_views(changes@),
        ) {
            Some(final(pane).entries@.len() as usize)
        } else {
            None
        }),
        counts.1 == expanded_applied_count(
            old(pane).expanded_directories@,
            final(pane).expanded_directories@,
            directory@,
            change_views(changes@),
        ),
{
    let root = if !pane.is_trash_view && pane.current_dir.same_as(directory) {
        refresh_root(
            &mut pane.directory_discovery,
            &mut pane.entries,
            &mut pane.selected,
            &mut pane.selected_paths,
            changes,
            removed,
            sort,
        )
    } else {
        None
    };
    let expanded = refresh_expanded(&mut pane.expanded_directories, directory, changes, sort);
    (root, expanded)
}

/// The browser after `changes` to `directory`: every listing showing it
/// refreshed (`root_refreshed`, `expanded_refreshed`, `pane_refreshed`),
/// nothing else touched.
pub open spec fn entry_changes_applied<F: Fn(&Vec<DiscoveredEntry>) -> Vec<usize>>(
    before: FileBrowser,
    after: FileBrowser,
    directory: PathModel,
    changes: Seq<ResolvedEntryChange>,
    sort: F,
) -> bool {
    &&& after == (FileBrowser {
        directory_discovery: after.directory_discovery,
        entries: after.entries,
        selected: after.selected,
        selected_paths: after.selected_paths,
        expanded_directories: after.expanded_directories,
        panes: after.panes,
        ..before
    })
    &&& root_refreshed(
        !before.is_trash_view && before.current_dir@ == directory,
        before.directory_discovery,
        before.entries@,
        before.selected,
        before.selected_paths@,
        after.directory_discovery,
        after.entries@,
        after.selected,
        after.selected_paths@,
        changes,
        sort,
    )
    &&& expanded_refreshed(
        before.expanded_directories@,
        after.expanded_directories@,
        directory,
        change_views(changes),
        sort,
    )
    &&& after.panes@.len() == before.panes@.len()
    &&& forall|i: int|
        0 <= i < before.panes@.len() ==> pane_refreshed(
            #[trigger] before.panes@[i],
            after.panes@[i],
            before.active_pane_id,
            directory,
            changes,
            sort,
        )
}

/// What `apply_entry_changes` does and answers: an empty batch changes
/// nothing and leaves nothing to do; a batch asking for a rescan changes
/// nothing and is refused; any other batch is applied everywhere it shows,
/// and is refused when it took effect nowhere.
pub open spec fn entry_changes_outcome<F: Fn(&Vec<DiscoveredEntry>) -> Vec<usize>>(
    before: FileBrowser,
    after: FileBrowser,
    directory: PathModel,
    changes: Seq<ResolvedEntryChange>,
    sort: F,
    outcome: Option<EntryChangeEffects>,
) -> bool {
    if changes.len() == 0 {
        &&& after == before
        &&& outcome matches Some(effects)
        &&& effects.direct_child_count is None
        &&& effects.thumbnail_panes@.len() == 0
    } else if exists|i: int| 0 <= i < changes.len() && #[trigger] changes[i] == ResolvedEntryChange::RescanRequired {
        &&& after == before
        &&& outcome is None
    } else {
        let applied = applied_targets(before, after, directory, change_views(changes));
        &&& entry_changes_applied(before, after, directory, changes, sort)
        &&& (outcome is None <==> applied.len() == 0)
        &&& outcome matches Some(effects) ==> {
            &&& effects.direct_child_count == Some(applied[0].1)
            &&& effects.thumbnail_panes@ == distinct_panes(target_panes(applied))
        }
    }
}

proof fn lemma_root_keeps_selection_distinct<F: Fn(&Vec<DiscoveredEntry>) -> Vec<usize>>(
    is_target: bool,
    discovery: Option<Vec<DiscoveredEntry>>,
    shown: Seq<DirectoryEntry>,
    selected: Option<FsPath>,
    selected_paths: Seq<FsPath>,
    new_discovery: Option<Vec<DiscoveredEntry>>,
    new_shown: Seq<DirectoryEntry>,
    new_selected: Option<FsPath>,
    new_selected_paths: Seq<FsPath>,
    changes: Seq<ResolvedEntryChange>,
    sort: F,
)
    requires
        root_refreshed(
            is_target,
            discovery,
            shown,
            selected,
            selected_paths,
            new_discovery,
            new_shown,
            new_selected,
            new_selected_paths,
            changes,
            sort,
        ),
        path_views(selected_paths).no_duplicates(),
    ensures
        path_views(new_selected_paths).no_duplicates(),
{
    if is_target && listing_changed(discovery, change_views(changes)) {
        let removed = removed_paths_spec(changes);
        lemma_filter_keeps_no_duplicates(path_views(selected_paths), |path: PathModel| !removed.contains(path));
    }
}

proof fn lemma_expanded_keeps_paths<F: Fn(&Vec<DiscoveredEntry>) -> Vec<usize>>(
    directories: Seq<ExpandedDirectory>,
    new_directories: Seq<ExpandedDirectory>,
    directory: PathModel,
    changes: Seq<ChangeModel>,
    sort: F,
)
    requires
        expanded_refreshed(directories, new_directories, directory, changes, sort),
    ensures
        expanded_paths(new_directories) == expanded_paths(directories),
{
    assert forall|k: int| 0 <= k < directories.len() implies #[trigger] new_directories[k].path@ == directories[k].path@ by {
        if find_expanded(directories, directory) != Some(k) {
            assert(new_directories[k] == directories[k]);
        }
    }
    assert(expanded_paths(new_directories) =~= expanded_paths(directories));
}

/// Applying entry changes keeps the browser's collections well formed: the
/// selections only lose paths and no expanded directory changes its path.
pub proof fn lemma_entry_changes_keep_collections_well_formed<F: Fn(&Vec<DiscoveredEntry>) -> Vec<usize>>(
    before: FileBrowser,
    after: FileBrowser,
    directory: PathModel,
    changes: Seq<ResolvedEntryChange>,
    sort: F,
)
    requires
        entry_changes_applied(before, after, directory, changes, sort),
        before.collections_well_formed(),
    ensures
        after.collections_well_formed(),
{
    lemma_root_keeps_selection_distinct(
        !before.is_trash_view && before.current_dir@ == directory,
        before.directory_discovery,
        before.entries@,
        before.selected,
        before.selected_paths@,
        after.directory_discovery,
        after.entries@,
        after.selected,
        after.selected_paths@,
        changes,
        sort,
    );
    lemma_expanded_keeps_paths(
        before.expanded_directories@,
        after.expanded_directories@,
        directory,
        change_views(changes),
        sort,
    );
    assert forall|i: int| 0 <= i < after.panes@.len() implies #[trigger] after.panes@[i].id == before.panes@[i].id by {
        assert(pane_refreshed(before.panes@[i], after.panes@[i], before.active_pane_id, directory, changes, sort));
    }
    assert forall|i: int| 0 <= i < after.panes@.len() implies pane_collections_well_formed(#[trigger] after.panes@[i]) by {
        let pane = before.panes@[i];
        let new_pane = after.panes@[i];
        assert(pane_refreshed(pane, new_pane, before.active_pane_id, directory, changes, sort));
        assert(pane_collections_well_formed(pane));
        if pane.id != before.active_pane_id {
            lemma_root_keeps_selection_distinct(
                pane_root_is_target(pane, directory),
                pane.directory_discovery,
                pane.entries@,
                pane.selected,
                pane.selected_paths@,
                new_pane.directory_discovery,
                new_pane.entries@,
                new_pane.selected,
                new_pane.selected_paths@,
                changes,
                sort,
            );
            lemma_expanded_keeps_paths(
                pane.expanded_directories@,
                new_pane.expanded_directories@,
                directory,
                change_views(changes),
                sort,
            );
        }
    }
}

impl FileBrowser {
    /// `apply_entry_changes`: the one way file-watcher events and finished
    /// file operations reach the listings. The batch is applied to every
    /// listing that shows `directory`, in the active pane and in each
    /// inactive one; `sort` orders a changed discovery's entries for
    /// display. `None` asks the caller to list the directory again. The
    /// inactive panes are visited in order; in a well-formed browser each is
    /// the pane its id names (`lemma_pane_found_by_its_id`).
    pub fn apply_entry_changes<F: Fn(&Vec<DiscoveredEntry>) -> Vec<usize>>(
        &mut self,
        directory: &FsPath,
        changes: &Vec<ResolvedEntryChange>,
        sort: F,
    ) -> (outcome: Option<EntryChangeEffects>)
        requires
            forall|entries: &Vec<DiscoveredEntry>| #[trigger] call_requires(sort, (entries,)),
        ensures
            entry_changes_outcome(*old(self), *final(self), directory@, changes@, sort, outcome),
            old(self).collections_well_formed() ==> final(self).collections_well_formed(),
    {
        if changes.len() == 0 {
            return Some(EntryChangeEffects { direct_child_count: None, thumbnail_panes: Vec::new() });
        }
        if changes_require_rescan(changes) {
            return None;
        }
        let removed = entry_change_removed_paths(changes);
        let ghost models = change_views(changes@);
        let active = self.active_pane_id;
        let mut first_count: Option<usize> = None;
        let mut thumbnail_panes: Vec<BrowserPaneId> = Vec::new();
        let ghost mut applied: Seq<(BrowserPaneId, usize)> = Seq::empty();
        assert(target_panes(applied) =~= Seq::<BrowserPaneId>::empty());
        let root = if !self.is_trash_view && directory.same_as(&self.current_dir) {
            refresh_root(
                &mut self.directory_discovery,
                &mut self.entries,
                &mut self.selected,
                &mut self.selected_paths,
                changes,
                &removed,
                &sort,
            )
        } else {
            None
        };
        note_applied(&mut first_count, &mut thumbnail_panes, Ghost(applied), active, root);
        proof {
            applied = with_applied(applied, active, root);
        }
        let expanded = refresh_expanded(&mut self.expanded_directories, directory, changes, &sort);
        note_applied(&mut first_count, &mut thumbnail_panes, Ghost(applied), active, expanded);
        proof {
            applied = with_applied(applied, active, expanded);
        }
        let ghost mirror = *self;
        let ghost mirror_applied = applied;
        assert(old(self).panes@.take(0) =~= Seq::<BrowserPane>::empty());
        assert(self.panes@.take(0) =~= Seq::<BrowserPane>::empty());
        assert(applied =~= mirror_applied + pane_applied_targets(
            old(self).panes@.take(0),
            self.panes@.take(0),
            active,
            directory@,
            models,
        ));
        let mut i: usize = 0;
        while i < self.panes.len()
            invariant
                i <= self.panes@.len(),
                self.panes@.len() == old(self).panes@.len(),
                mirror.panes == old(self).panes,
                *self == (FileBrowser { panes: self.panes, ..mirror }),
                active == old(self).active_pane_id,
                models == change_views(changes@),
                path_views(removed@) == removed_paths_spec(changes@),
                forall|entries: &Vec<DiscoveredEntry>| #[trigger] call_requires(sort, (entries,)),
                forall|k: int|
                    0 <= k < i ==> pane_refreshed(
                        #[trigger] old(self).panes@[k],
                        self.panes@[k],
                        active,
                        directory@,
                        changes@,
                        sort,
                    ),
                forall|k: int| i <= k < self.panes@.len() ==> #[trigger] self.panes@[k] == old(self).panes@[k],
                applied == mirror_applied + pane_applied_targets(
                    old(self).panes@.take(i as int),
                    self.panes@.take(i as int),
                    active,
                    directory@,
                    models,
                ),
                first_count == (if applied.len() > 0 { Some(applied[0].1) } else { None }),
                thumbnail_panes@ == distinct_panes(target_panes(applied)),
            decreases self.panes@.len() - i,
        {
            let ghost before_panes = self.panes@;
            let ghost before_applied = applied;
            let ghost rest = pane_applied_targets(
                old(self).panes@.take(i as int),
                self.panes@.take(i as int),
                active,
                directory@,
                models,
            );
            let pane_id = self.panes[i].id;
            if pane_id != active {
                let mut pane = self.panes.remove(i);
                let (root, expanded) = refresh_pane(&mut pane, directory, changes, &removed, &sort);
                let ghost updated = pane;
                self.panes.insert(i, pane);
                assert(self.panes@ =~= before_panes.update(i as int, updated));
                note_applied(&mut first_count, &mut thumbnail_panes, Ghost(applied), pane_id, root);
                proof {
                    applied = with_applied(applied, pane_id, root);
                }
                note_applied(&mut first_count, &mut thumbnail_panes, Ghost(applied), pane_id, expanded);
                proof {
                    applied = with_applied(applied, pane_id, expanded);
                }
                assert(with_applied(with_applied(rest, pane_id, root), pane_id, expanded) == pane_applied_targets(
                    old(self).panes@.take(i + 1),
                    self.panes@.take(i + 1),
                    active,
                    directory@,
                    models,
                )) by {
                    assert(old(self).panes@.take(i + 1).take(i as int) =~= old(self).panes@.take(i as int));
                    assert(self.panes@.take(i + 1).take(i as int) =~= before_panes.take(i as int));
                };
                assert(applied =~= mirror_applied + with_applied(with_applied(rest, pane_id, root), pane_id, expanded));
            } else {
                assert(rest == pane_applied_targets(
                    old(self).panes@.take(i + 1),
                    self.panes@.take(i + 1),
                    active,
                    directory@,
                    models,
                )) by {
                    assert(old(self).panes@.take(i + 1).take(i as int) =~= old(self).panes@.take(i as int));
                    assert(self.panes@.take(i + 1).take(i as int) =~= self.panes@.take(i as int));
                };
            }
            i = i + 1;
        }
        assert(old(self).panes@.take(i as int) =~= old(self).panes@);
        assert(self.panes@.take(i as int) =~= self.panes@);
        proof {
            if old(self).collections_well_formed() {
                lemma_entry_changes_keep_collections_well_formed(*old(self), *self, directory@, changes@, sort);
            }
        }
        match first_count {
            Some(_) => Some(EntryChangeEffects { direct_child_count: first_count, thumbnail_panes }),
            None => None,
        }
    }
}

// ---------------------------------------------------------------------------
// Looking entries up in the discoveries
// ---------------------------------------------------------------------------

/// The first entry at `path` in a listing's discovery.
pub open spec fn discovered_at(discovery: Option<Vec<DiscoveredEntry>>, path: PathModel) -> Option<DiscoveredModel> {
    match discovery {
        Some(entries) => match position_of(discovered_views(entries@), path, 0) {
            Some(i) => Some(discovered_views(entries@)[i]),
            None => None,
        },
        None => None,
    }
}

/// The entry at `path` in the first of `directories` whose discovery has one.
pub open spec fn discovered_in_expanded(directories: Seq<ExpandedDirectory>, path: PathModel) -> Option<DiscoveredModel>
    decreases directories.len(),
{
    if directories.len() == 0 {
        None
    } else {
        match discovered_in_expanded(directories.drop_last(), path) {
            Some(entry) => Some(entry),
            None => discovered_at(directories.last().directory_discovery, path),
        }
    }
}

/// The entry at `path` in the first inactive pane that has one, its root
/// listing before its expanded directories.
pub open spec fn discovered_in_panes(panes: Seq<BrowserPane>, active: BrowserPaneId, path: PathModel) -> Option<DiscoveredModel>
    decreases panes.len(),
{
    if panes.len() == 0 {
        None
    } else {
        match discovered_in_panes(panes.drop_last(), active, path) {
            Some(entry) => Some(entry),
            None => {
                let pane = panes.last();
                if pane.id == active {
                    None
                } else {
                    match discovered_at(pane.directory_discovery, path) {
                        Some(entry) => Some(entry),
                        None => discovered_in_expanded(pane.expanded_directories@, path),
                    }
                }
            },
        }
    }
}

/// Where `find_discovered_entry` finds `path`: the active pane's root
/// discovery, then its expanded directories', then the inactive panes'.
pub open spec fn discovered_anywhere(browser: FileBrowser, path: PathModel) -> Option<DiscoveredModel> {
    match discovered_at(browser.directory_discovery, path) {
        Some(entry) => Some(entry),
        None => match discovered_in_expanded(browser.expanded_directories@, path) {
            Some(entry) => Some(entry),
            None => discovered_in_panes(browser.panes@, browser.active_pane_id, path),
        },
    }
}

pub open spec fn discovered_view(entry: Option<DiscoveredEntry>) -> Option<DiscoveredModel> {
    match entry {
        Some(e) => Some(e@),
        None => None,
    }
}

fn find_in_discovery(discovery: &Option<Vec<DiscoveredEntry>>, path: &FsPath) -> (found: Option<DiscoveredEntry>)
    ensures
        discovered_view(found) == discovered_at(*discovery, path@),
{
    match discovery {
        Some(entries) => match position_in(entries, path) {
            Some(i) => Some(entries[i].clone_entry()),
            None => None,
        },
        None => None,
    }
}

fn find_in_expanded(directories: &Vec<ExpandedDirectory>, path: &FsPath) -> (found: Option<DiscoveredEntry>)
    ensures
        discovered_view(found) == discovered_in_expanded(directories@, path@),
{
    let mut i: usize = 0;
    while i < directories.len()
        invariant
            i <= directories@.len(),
            discovered_in_expanded(directories@.take(i as int), path@) is None,
        decreases directories@.len() - i,
    {
        assert(directories@.take(i + 1).drop_last() =~= directories@.take(i as int));
        let found = find_in_discovery(&directories[i].directory_discovery, path);
        if found.is_some() {
            proof {
                lemma_discovered_in_expanded_prefix(directories@, path@, i + 1);
            }
            return found;
        }
        i = i + 1;
    }
    assert(directories@.take(i as int) =~= directories@);
    None
}

proof fn lemma_discovered_in_expanded_prefix(directories: Seq<ExpandedDirectory>, path: PathModel, n: int)
    requires
        0 <= n <= directories.len(),
        discovered_in_expanded(directories.take(n), path) is Some,
    ensures
        discovered_in_expanded(directories, path) == discovered_in_expanded(directories.take(n), path),
    decreases directories.len() - n,
{
    if n < directories.len() {
        assert(directories.take(n + 1).drop_last() =~= directories.take(n));
        lemma_discovered_in_expanded_prefix(directories, path, n + 1);
    } else {
        assert(directories.take(n) =~= directories);
    }
}

proof fn lemma_discovered_in_panes_prefix(panes: Seq<BrowserPane>, active: BrowserPaneId, path: PathModel, n: int)
    requires
        0 <= n <= panes.len(),
        discovered_in_panes(panes.take(n), active, path) is Some,
    ensures
        discovered_in_panes(panes, active, path) == discovered_in_panes(panes.take(n), active, path),
    decreases panes.len() - n,
{
    if n < panes.len() {
        assert(panes.take(n + 1).drop_last() =~= panes.take(n));
        lemma_discovered_in_panes_prefix(panes, active, path, n + 1);
    } else {
        assert(panes.take(n) =~= panes);
    }
}

impl FileBrowser {
    /// `find_discovered_entry`: the discovered entry at `path`, looked up in
    /// the active pane's discoveries (its root listing, then its expanded
    /// directories) and then in each inactive pane's, so that a move whose
    /// source only an inactive pane shows is still found.
    pub fn find_discovered_entry(&self, path: &FsPath) -> (found: Option<DiscoveredEntry>)
        ensures
            discovered_view(found) == discovered_anywhere(*self, path@),
    {
        let found = find_in_discovery(&self.directory_discovery, path);
        if found.is_some() {
            return found;
        }
        let found = find_in_expanded(&self.expanded_directories, path);
        if found.is_some() {
            return found;
        }
        let active = self.active_pane_id;
        let mut i: usize = 0;
        while i < self.panes.len()
            invariant
                i <= self.panes@.len(),
                active == self.active_pane_id,
                discovered_at(self.directory_discovery, path@) is None,
                discovered_in_expanded(self.expanded_directories@, path@) is None,
                discovered_in_panes(self.panes@.take(i as int), active, path@) is None,
            decreases self.panes@.len() - i,
        {
            assert(self.panes@.take(i + 1).drop_last() =~= self.panes@.take(i as int));
            assert(self.panes@.take(i + 1).last() == self.panes@[i as int]);
            let pane = &self.panes[i];
            if pane.id != active {
                let found = find_in_discovery(&pane.directory_discovery, path);
                if found.is_some() {
                    proof {
                        lemma_discovered_in_panes_prefix(self.panes@, active, path@, i + 1);
                    }
                    return found;
                }
                let found = find_in_expanded(&pane.expanded_directories, path);
                if found.is_some() {
                    proof {
                        lemma_discovered_in_panes_prefix(self.panes@, active, path@, i + 1);
                    }
                    return found;
                }
            }
            i = i + 1;
        }
        assert(self.panes@.take(i as int) =~= self.panes@);
        None
    }
}

} // verus!
