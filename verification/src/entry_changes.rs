//! Incremental changes of a directory's listing (from the file watcher or a
//! finished file operation): applying them to a directory's discovery and
//! dropping removed paths from the selection.

use vstd::prelude::*;
use crate::browser::{FileBrowser, FileKind};
use crate::naming::path_views;
use crate::paths::{FsPath, PathModel};

verus! {

/// An entry found by listing a directory, before its metadata is known.
#[derive(Debug, Clone, PartialEq, Eq)]
pub struct DiscoveredEntry {
    pub path: FsPath,
    pub kind: FileKind,
    pub hidden: bool,
}

/// The abstract value of a discovered entry.
pub struct DiscoveredModel {
    pub path: PathModel,
    pub kind: FileKind,
    pub hidden: bool,
}

impl View for DiscoveredEntry {
    type V = DiscoveredModel;

    open spec fn view(&self) -> DiscoveredModel {
        DiscoveredModel { path: self.path@, kind: self.kind, hidden: self.hidden }
    }
}

pub open spec fn discovered_views(entries: Seq<DiscoveredEntry>) -> Seq<DiscoveredModel> {
    entries.map_values(|e: DiscoveredEntry| e@)
}

/// The abstract value of a change.
pub enum ChangeModel {
    Upsert(DiscoveredModel),
    Rename(PathModel, DiscoveredModel),
    Remove(PathModel),
    Rescan,
}

pub open spec fn change_view(change: ResolvedEntryChange) -> ChangeModel {
    match change {
        ResolvedEntryChange::Added(entry) => ChangeModel::Upsert(entry@),
        ResolvedEntryChange::ContentChanged(entry) => ChangeModel::Upsert(entry@),
        ResolvedEntryChange::Renamed { from, to } => ChangeModel::Rename(from@, to@),
        ResolvedEntryChange::Removed { path } => ChangeModel::Remove(path@),
        ResolvedEntryChange::RescanRequired => ChangeModel::Rescan,
    }
}

pub open spec fn change_views(changes: Seq<ResolvedEntryChange>) -> Seq<ChangeModel> {
    changes.map_values(|c: ResolvedEntryChange| change_view(c))
}

/// A change of one directory entry, resolved against the file system.
#[derive(Debug, Clone, PartialEq, Eq)]
pub enum ResolvedEntryChange {
    Added(DiscoveredEntry),
    ContentChanged(DiscoveredEntry),
    Renamed { from: FsPath, to: DiscoveredEntry },
    Removed { path: FsPath },
    /// Too much changed to apply piecemeal: the directory is listed again.
    RescanRequired,
}

/// Position of the first entry at `path`, searching from `from`.
pub open spec fn position_of(entries: Seq<DiscoveredModel>, path: PathModel, from: int) -> Option<int>
    decreases entries.len() - from,
{
    if from < 0 || from >= entries.len() {
        None
    } else if entries[from].path == path {
        Some(from)
    } else {
        position_of(entries, path, from + 1)
    }
}

/// `upsert_discovered_entry`: a hidden entry is not taken in; another one
/// replaces the entry at its path, or is added at the end.
pub open spec fn upserted(entries: Seq<DiscoveredModel>, entry: DiscoveredModel) -> (Seq<DiscoveredModel>, bool) {
    if entry.hidden {
        (entries, false)
    } else {
        match position_of(entries, entry.path, 0) {
            Some(i) => (entries.update(i, entry), true),
            None => (entries.push(entry), true),
        }
    }
}

/// `remove_discovered_entry`: removes the first entry at `path`.
pub open spec fn removed_from(entries: Seq<DiscoveredModel>, path: PathModel) -> (Seq<DiscoveredModel>, bool) {
    match position_of(entries, path, 0) {
        Some(i) => (entries.remove(i), true),
        None => (entries, false),
    }
}

/// One change applied: the entries after it and whether they changed.
pub open spec fn change_applied(entries: Seq<DiscoveredModel>, change: ChangeModel) -> (Seq<DiscoveredModel>, bool) {
    match change {
        ChangeModel::Upsert(entry) => upserted(entries, entry),
        ChangeModel::Rename(from, to) => {
            let (without, removed) = removed_from(entries, from);
            let (with, added) = upserted(without, to);
            (with, removed || added)
        },
        ChangeModel::Remove(path) => removed_from(entries, path),
        ChangeModel::Rescan => (entries, false),
    }
}

/// All `changes` applied in order: the entries after them and whether any
/// change took effect.
pub open spec fn changes_applied(entries: Seq<DiscoveredModel>, changes: Seq<ChangeModel>) -> (Seq<DiscoveredModel>, bool)
    decreases changes.len(),
{
    if changes.len() == 0 {
        (entries, false)
    } else {
        let (before_last, changed) = changes_applied(entries, changes.drop_last());
        let (after_last, changed_last) = change_applied(before_last, changes.last());
        (after_last, changed || changed_last)
    }
}

proof fn lemma_position_of_bounds(entries: Seq<DiscoveredModel>, path: PathModel, from: int)
    requires
        0 <= from,
    ensures
        position_of(entries, path, from) matches Some(i) ==> from <= i < entries.len()
            && entries[i].path == path,
    decreases entries.len() - from,
{
    if from < entries.len() && entries[from].path != path {
        lemma_position_of_bounds(entries, path, from + 1);
    }
}

pub(crate) fn position_in(entries: &Vec<DiscoveredEntry>, path: &FsPath) -> (position: Option<usize>)
    ensures
        position matches Some(i) ==> i < entries@.len(),
        match position_of(discovered_views(entries@), path@, 0) {
            Some(i) => position matches Some(p) && p as int == i,
            None => position is None,
        },
{
    proof {
        lemma_position_of_bounds(discovered_views(entries@), path@, 0);
    }
    let mut i: usize = 0;
    while i < entries.len()
        invariant
            i <= entries@.len(),
            position_of(discovered_views(entries@), path@, 0) == position_of(
                discovered_views(entries@),
                path@,
                i as int,
            ),
        decreases entries@.len() - i,
    {
        if entries[i].path.same_as(path) {
            return Some(i);
        }
        i = i + 1;
    }
    None
}

/// `upsert_discovered_entry`.
pub fn upsert_discovered_entry(entries: &mut Vec<DiscoveredEntry>, entry: DiscoveredEntry) -> (changed: bool)
    ensures
        discovered_views(final(entries)@) == upserted(discovered_views(old(entries)@), entry@).0,
        changed == upserted(discovered_views(old(entries)@), entry@).1,
{
    if entry.hidden {
        return false;
    }
    let ghost view = entry@;
    match position_in(entries, &entry.path) {
        Some(i) => {
            entries.set(i, entry);
            assert(discovered_views(entries@) =~= discovered_views(old(entries)@).update(i as int, view));
        },
        None => {
            entries.push(entry);
            assert(discovered_views(entries@) =~= discovered_views(old(entries)@).push(view));
        },
    }
    true
}

/// `remove_discovered_entry`.
pub fn remove_discovered_entry(entries: &mut Vec<DiscoveredEntry>, path: &FsPath) -> (changed: bool)
    ensures
        discovered_views(final(entries)@) == removed_from(discovered_views(old(entries)@), path@).0,
        changed == removed_from(discovered_views(old(entries)@), path@).1,
{
    match position_in(entries, path) {
        Some(i) => {
            entries.remove(i);
            assert(discovered_views(entries@) =~= discovered_views(old(entries)@).remove(i as int));
            true
        },
        None => false,
    }
}

/// `apply_changes_to_discovery`: applies `changes` in order to a
/// discovery's entries and says whether anything changed (then the listing
/// is re-sorted and shown again).
pub fn apply_changes_to_discovery(entries: &mut Vec<DiscoveredEntry>, changes: &Vec<ResolvedEntryChange>) -> (changed: bool)
    ensures
        discovered_views(final(entries)@) == changes_applied(
            discovered_views(old(entries)@),
            change_views(changes@),
        ).0,
        changed == changes_applied(discovered_views(old(entries)@), change_views(changes@)).1,
{
    let mut changed = false;
    let mut i: usize = 0;
    while i < changes.len()
        invariant
            i <= changes@.len(),
            discovered_views(entries@) == changes_applied(
                discovered_views(old(entries)@),
                change_views(changes@.take(i as int)),
            ).0,
            changed == changes_applied(
                discovered_views(old(entries)@),
                change_views(changes@.take(i as int)),
            ).1,
        decreases changes@.len() - i,
    {
        let ghost prefix = change_views(changes@.take(i + 1));
        assert(prefix.drop_last() =~= change_views(changes@.take(i as int)));
        assert(prefix.last() == change_view(changes@[i as int]));
        let step = match &changes[i] {
            ResolvedEntryChange::Added(entry) => upsert_discovered_entry(entries, entry.clone_entry()),
            ResolvedEntryChange::ContentChanged(entry) => upsert_discovered_entry(entries, entry.clone_entry()),
            ResolvedEntryChange::Renamed { from, to } => {
                let removed = remove_discovered_entry(entries, from);
                let added = upsert_discovered_entry(entries, to.clone_entry());
                removed || added
            },
            ResolvedEntryChange::Removed { path } => remove_discovered_entry(entries, path),
            ResolvedEntryChange::RescanRequired => false,
        };
        changed = changed || step;
        i = i + 1;
    }
    assert(changes@.take(changes@.len() as int) =~= changes@);
    changed
}

impl DiscoveredEntry {
    /// A copy equal to this entry.
    pub fn clone_entry(&self) -> (copy: DiscoveredEntry)
        ensures
            copy@ == self@,
    {
        DiscoveredEntry { path: self.path.duplicate(), kind: self.kind, hidden: self.hidden }
    }
}

/// The paths a batch of changes takes away: removed entries and the old
/// names of renamed ones, in order.
pub open spec fn removed_paths_spec(changes: Seq<ResolvedEntryChange>) -> Seq<PathModel>
    decreases changes.len(),
{
    if changes.len() == 0 {
        Seq::empty()
    } else {
        let rest = removed_paths_spec(changes.drop_last());
        match changes.last() {
            ResolvedEntryChange::Removed { path } => rest.push(path@),
            ResolvedEntryChange::Renamed { from, .. } => rest.push(from@),
            _ => rest,
        }
    }
}

pub fn entry_change_removed_paths(changes: &Vec<ResolvedEntryChange>) -> (removed: Vec<FsPath>)
    ensures
        path_views(removed@) == removed_paths_spec(changes@),
{
    let mut removed: Vec<FsPath> = Vec::new();
    let mut i: usize = 0;
    while i < changes.len()
        invariant
            i <= changes@.len(),
            path_views(removed@) == removed_paths_spec(changes@.take(i as int)),
        decreases changes@.len() - i,
    {
        let ghost prefix = changes@.take(i + 1);
        assert(prefix.drop_last() =~= changes@.take(i as int));
        assert(prefix.last() == changes@[i as int]);
        match &changes[i] {
            ResolvedEntryChange::Removed { path } => {
                removed.push(path.duplicate());
                assert(path_views(removed@) =~= removed_paths_spec(prefix));
            },
            ResolvedEntryChange::Renamed { from, .. } => {
                removed.push(from.duplicate());
                assert(path_views(removed@) =~= removed_paths_spec(prefix));
            },
            _ => {},
        }
        i = i + 1;
    }
    assert(changes@.take(changes@.len() as int) =~= changes@);
    removed
}

/// A batch that contains a rescan request cannot be applied piecemeal.
pub fn changes_require_rescan(changes: &Vec<ResolvedEntryChange>) -> (rescan: bool)
    ensures
        rescan == exists|i: int|
            0 <= i < changes@.len() && #[trigger] changes@[i] == ResolvedEntryChange::RescanRequired,
{
    let mut i: usize = 0;
    while i < changes.len()
        invariant
            i <= changes@.len(),
            forall|j: int| 0 <= j < i ==> #[trigger] changes@[j] != ResolvedEntryChange::RescanRequired,
        decreases changes@.len() - i,
    {
        if let ResolvedEntryChange::RescanRequired = &changes[i] {
            assert(changes@[i as int] == ResolvedEntryChange::RescanRequired);
            return true;
        }
        i = i + 1;
    }
    false
}

/// The selection without the paths in `removed`.
pub open spec fn selection_without(selected: Seq<PathModel>, removed: Seq<PathModel>) -> Seq<PathModel> {
    selected.filter(|path: PathModel| !removed.contains(path))
}

/// Drops `removed` from a selection: from the selected set, and as the
/// primary selection.
pub fn forget_removed_paths(selected: &mut Option<FsPath>, selected_paths: &mut Vec<FsPath>, removed: &Vec<FsPath>)
    ensures
        path_views(final(selected_paths)@) == selection_without(path_views(old(selected_paths)@), path_views(removed@)),
        match *old(selected) {
            Some(path) => if path_views(removed@).contains(path@) {
                *final(selected) is None
            } else {
                *final(selected) == *old(selected)
            },
            None => *final(selected) is None,
        },
{
    let ghost original = path_views(selected_paths@);
    let mut rest: Vec<FsPath> = Vec::new();
    std::mem::swap(&mut rest, selected_paths);
    let ghost rest_start = rest@;
    let mut kept: Vec<FsPath> = Vec::new();
    let mut i: usize = 0;
    while i < rest.len()
        invariant
            i <= rest@.len(),
            rest@ == rest_start,
            path_views(rest_start) == original,
            path_views(kept@) == path_views(rest@).take(i as int).filter(
                |path: PathModel| !path_views(removed@).contains(path),
            ),
        decreases rest@.len() - i,
    {
        let ghost prefix = path_views(rest@).take(i + 1);
        assert(prefix.drop_last() =~= path_views(rest@).take(i as int));
        assert(prefix.last() == rest@[i as int]@);
        proof {
            reveal(Seq::filter);
        }
        let ghost before = kept@;
        if !crate::naming::contains_path(removed, &rest[i]) {
            kept.push(rest[i].duplicate());
            assert(path_views(kept@) =~= path_views(before).push(rest@[i as int]@));
        }
        i = i + 1;
    }
    assert(path_views(rest@).take(rest@.len() as int) =~= path_views(rest@));
    *selected_paths = kept;
    let drop_primary = match selected {
        Some(path) => crate::naming::contains_path(removed, path),
        None => false,
    };
    if drop_primary {
        *selected = None;
    }
}

impl FileBrowser {
    /// The part of `apply_entry_changes` that keeps the active pane's
    /// selection consistent: paths the changes removed or renamed away are
    /// no longer selected.
    pub fn forget_removed_selection(&mut self, removed: &Vec<FsPath>)
        ensures
            path_views(final(self).selected_paths@) == selection_without(
                path_views(old(self).selected_paths@),
                path_views(removed@),
            ),
            match old(self).selected {
                Some(path) => if path_views(removed@).contains(path@) {
                    final(self).selected is None
                } else {
                    final(self).selected == old(self).selected
                },
                None => final(self).selected is None,
            },
            *final(self) == (FileBrowser {
                selected: final(self).selected,
                selected_paths: final(self).selected_paths,
                ..*old(self)
            }),
            old(self).collections_well_formed() ==> final(self).collections_well_formed(),
    {
        forget_removed_paths(&mut self.selected, &mut self.selected_paths, removed);
        proof {
            if old(self).collections_well_formed() {
                let gone = path_views(removed@);
                crate::panes::lemma_filter_keeps_no_duplicates(
                    path_views(old(self).selected_paths@),
                    |path: PathModel| !gone.contains(path),
                );
            }
        }
    }
}

// ---------------------------------------------------------------------------
// Laws
// ---------------------------------------------------------------------------

/// No two entries share a path.
pub open spec fn paths_unique(entries: Seq<DiscoveredModel>) -> bool {
    forall|i: int, j: int| 0 <= i < j < entries.len() ==> #[trigger] entries[i].path != #[trigger] entries[j].path
}

pub open spec fn has_path(entries: Seq<DiscoveredModel>, path: PathModel) -> bool {
    exists|i: int| 0 <= i < entries.len() && #[trigger] entries[i].path == path
}

proof fn lemma_position_of_none(entries: Seq<DiscoveredModel>, path: PathModel, from: int)
    requires
        0 <= from,
        position_of(entries, path, from) is None,
    ensures
        forall|i: int| from <= i < entries.len() ==> #[trigger] entries[i].path != path,
    decreases entries.len() - from,
{
    if from < entries.len() {
        lemma_position_of_none(entries, path, from + 1);
    }
}

proof fn lemma_upsert_facts(entries: Seq<DiscoveredModel>, entry: DiscoveredModel)
    requires
        paths_unique(entries),
    ensures
        paths_unique(upserted(entries, entry).0),
        !entry.hidden ==> has_path(upserted(entries, entry).0, entry.path),
        forall|path: PathModel| path != entry.path ==> (has_path(upserted(entries, entry).0, path) <==> has_path(entries, path)),
{
    lemma_position_of_bounds(entries, entry.path, 0);
    if !entry.hidden {
        let after = upserted(entries, entry).0;
        match position_of(entries, entry.path, 0) {
            Some(i) => {
                assert(after[i].path == entry.path);
                assert forall|path: PathModel| path != entry.path implies (has_path(after, path) <==> has_path(entries, path)) by {
                    if has_path(after, path) {
                        let k = choose|k: int| 0 <= k < after.len() && #[trigger] after[k].path == path;
                        assert(entries[k].path == path);
                    }
                    if has_path(entries, path) {
                        let k = choose|k: int| 0 <= k < entries.len() && #[trigger] entries[k].path == path;
                        assert(after[k].path == path);
                    }
                }
            },
            None => {
                lemma_position_of_none(entries, entry.path, 0);
                assert(after[entries.len() as int].path == entry.path);
                assert forall|path: PathModel| path != entry.path implies (has_path(after, path) <==> has_path(entries, path)) by {
                    if has_path(after, path) {
                        let k = choose|k: int| 0 <= k < after.len() && #[trigger] after[k].path == path;
                        assert(entries[k].path == path);
                    }
                    if has_path(entries, path) {
                        let k = choose|k: int| 0 <= k < entries.len() && #[trigger] entries[k].path == path;
                        assert(after[k].path == path);
                    }
                }
            },
        }
    }
}

proof fn lemma_remove_facts(entries: Seq<DiscoveredModel>, path: PathModel)
    requires
        paths_unique(entries),
    ensures
        paths_unique(removed_from(entries, path).0),
        !has_path(removed_from(entries, path).0, path),
        forall|other: PathModel| other != path ==> (has_path(removed_from(entries, path).0, other) <==> has_path(entries, other)),
{
    lemma_position_of_bounds(entries, path, 0);
    let after = removed_from(entries, path).0;
    match position_of(entries, path, 0) {
        Some(i) => {
            assert forall|a: int, b: int| 0 <= a < b < after.len() implies #[trigger] after[a].path != #[trigger] after[b].path by {
                let ia = if a < i { a } else { a + 1 };
                let ib = if b < i { b } else { b + 1 };
                assert(after[a] == entries[ia]);
                assert(after[b] == entries[ib]);
            }
            assert(!has_path(after, path)) by {
                if has_path(after, path) {
                    let k = choose|k: int| 0 <= k < after.len() && #[trigger] after[k].path == path;
                    let ik = if k < i { k } else { k + 1 };
                    assert(after[k] == entries[ik]);
                    assert(entries[i].path == path);
                }
            }
            assert forall|other: PathModel| other != path implies (has_path(after, other) <==> has_path(entries, other)) by {
                if has_path(after, other) {
                    let k = choose|k: int| 0 <= k < after.len() && #[trigger] after[k].path == other;
                    let ik = if k < i { k } else { k + 1 };
                    assert(after[k] == entries[ik]);
                }
                if has_path(entries, other) {
                    let k = choose|k: int| 0 <= k < entries.len() && #[trigger] entries[k].path == other;
                    assert(k != i);
                    let ak = if k < i { k } else { k - 1 };
                    assert(after[ak] == entries[k]);
                }
            }
        },
        None => {
            lemma_position_of_none(entries, path, 0);
        },
    }
}

/// Applying changes to a discovery whose paths are unique keeps them
/// unique: an added or changed entry replaces the one at its path.
pub proof fn lemma_changes_keep_paths_unique(entries: Seq<DiscoveredModel>, changes: Seq<ChangeModel>)
    requires
        paths_unique(entries),
    ensures
        paths_unique(changes_applied(entries, changes).0),
    decreases changes.len(),
{
    if changes.len() > 0 {
        lemma_changes_keep_paths_unique(entries, changes.drop_last());
        let before = changes_applied(entries, changes.drop_last()).0;
        match changes.last() {
            ChangeModel::Upsert(entry) => lemma_upsert_facts(before, entry),
            ChangeModel::Rename(from, to) => {
                lemma_remove_facts(before, from);
                lemma_upsert_facts(removed_from(before, from).0, to);
            },
            ChangeModel::Remove(path) => lemma_remove_facts(before, path),
            ChangeModel::Rescan => {},
        }
    }
}

/// A rename moves the entry: afterwards the new path is listed (unless the
/// entry is hidden) and the old one is gone (unless it is the new one).
pub proof fn lemma_rename_moves_the_entry(entries: Seq<DiscoveredModel>, from: PathModel, to: DiscoveredModel)
    requires
        paths_unique(entries),
    ensures
        !to.hidden ==> has_path(change_applied(entries, ChangeModel::Rename(from, to)).0, to.path),
        from != to.path ==> !has_path(change_applied(entries, ChangeModel::Rename(from, to)).0, from),
{
    lemma_remove_facts(entries, from);
    lemma_upsert_facts(removed_from(entries, from).0, to);
}

} // verus!
