//! Bookkeeping of metadata loads (sizes, kinds, names) for listings: which
//! demands are in flight, which replies still match what a pane shows, and
//! the "waiting for metadata" order phase of a listing sorted by them.

use vstd::prelude::*;
use crate::browser::{DirectoryEntry, FileBrowser};
use crate::config::{SortDirection, SortField};
use crate::panes::{
    BrowserPane, BrowserPaneId, DirectoryOrderPhase, ExpandedDirectory, ExpandedDirectoryStatus,
    find_expanded, find_expanded_directory, find_pane, find_pane_from,
};
use crate::paths::{FsPath, PathModel};
use crate::naming::{contains_path, path_views};

verus! {

/// What a metadata load resolves.
#[derive(Debug, Clone, Copy, PartialEq, Eq, Structural)]
pub enum DirectoryMetadataRequirement {
    /// Sizes, dates and kinds from the file system.
    Filesystem,
    /// Owner and group names.
    IdentityNames,
}

/// `directory_metadata_requirement_label`: the requirement's name in logs.
pub fn directory_metadata_requirement_label(requirement: DirectoryMetadataRequirement) -> (label: &'static str)
    ensures
        label@ == match requirement {
            DirectoryMetadataRequirement::Filesystem => "filesystem"@,
            DirectoryMetadataRequirement::IdentityNames => "identity_names"@,
        },
{
    match requirement {
        DirectoryMetadataRequirement::Filesystem => "filesystem",
        DirectoryMetadataRequirement::IdentityNames => "identity_names",
    }
}

/// The listing a metadata load is for.
#[derive(Debug, Clone, PartialEq, Eq)]
pub enum DirectoryMetadataLoadContext {
    /// A pane's main listing, as collected by load `collection_generation`.
    Root { pane_id: BrowserPaneId, path: FsPath, collection_generation: u64 },
    /// An expanded directory of a pane, as loaded by load `load_generation`.
    Expanded { pane_id: BrowserPaneId, path: FsPath, load_generation: u64 },
}

pub open spec fn context_pane(context: DirectoryMetadataLoadContext) -> BrowserPaneId {
    match context {
        DirectoryMetadataLoadContext::Root { pane_id, .. } => pane_id,
        DirectoryMetadataLoadContext::Expanded { pane_id, .. } => pane_id,
    }
}

impl DirectoryMetadataLoadContext {
    pub fn pane_id(&self) -> (pane_id: BrowserPaneId)
        ensures
            pane_id == context_pane(*self),
    {
        match self {
            DirectoryMetadataLoadContext::Root { pane_id, .. } => *pane_id,
            DirectoryMetadataLoadContext::Expanded { pane_id, .. } => *pane_id,
        }
    }
}

/// One entry's demand: entry `index` of the listing of `context`.
#[derive(Debug, Clone, PartialEq, Eq)]
pub struct DirectoryMetadataDemandKey {
    pub context: DirectoryMetadataLoadContext,
    pub requirement: DirectoryMetadataRequirement,
    pub index: usize,
}

#[derive(Debug, Clone, PartialEq, Eq)]
pub struct DirectoryMetadataLoadRequest {
    pub context: DirectoryMetadataLoadContext,
    pub request_generation: u64,
    pub requirement: DirectoryMetadataRequirement,
    pub targets: Vec<usize>,
}

/// The keys of `keys` outside pane `pane_id`, in order.
pub open spec fn keys_outside_pane(keys: Seq<DirectoryMetadataDemandKey>, pane_id: BrowserPaneId) -> Seq<
    DirectoryMetadataDemandKey,
>
    decreases keys.len(),
{
    if keys.len() == 0 {
        Seq::empty()
    } else {
        let rest = keys_outside_pane(keys.drop_last(), pane_id);
        if context_pane(keys.last().context) == pane_id {
            rest
        } else {
            rest.push(keys.last())
        }
    }
}

/// The expanded directories of pane `pane_id`: the browser's own for the
/// active pane, the pane's for another, none for an unknown pane.
pub open spec fn pane_expanded(browser: FileBrowser, pane_id: BrowserPaneId) -> Option<Seq<ExpandedDirectory>> {
    if pane_id == browser.active_pane_id {
        Some(browser.expanded_directories@)
    } else {
        match find_pane_from(browser.panes@, pane_id, 0) {
            Some(i) => Some(browser.panes@[i].expanded_directories@),
            None => None,
        }
    }
}

/// The reply to `request` still describes what its pane shows: the same
/// directory from the same load, with its discovery present (and, for an
/// expanded directory, loaded).
pub open spec fn request_is_current(browser: FileBrowser, request: DirectoryMetadataLoadRequest) -> bool {
    match request.context {
        DirectoryMetadataLoadContext::Root { pane_id, path, collection_generation } => {
            if pane_id == browser.active_pane_id {
                &&& path@ == browser.current_dir@
                &&& collection_generation == browser.directory_load_generation
                &&& browser.directory_discovery is Some
            } else {
                match find_pane_from(browser.panes@, pane_id, 0) {
                    Some(i) => {
                        &&& path@ == browser.panes@[i].current_dir@
                        &&& collection_generation == browser.panes@[i].directory_load_generation
                        &&& browser.panes@[i].directory_discovery is Some
                    },
                    None => false,
                }
            }
        },
        DirectoryMetadataLoadContext::Expanded { pane_id, path, load_generation } => match pane_expanded(
            browser,
            pane_id,
        ) {
            Some(directories) => match find_expanded(directories, path@) {
                Some(j) => {
                    &&& load_generation == directories[j].load_generation
                    &&& directories[j].status == ExpandedDirectoryStatus::Loaded
                    &&& directories[j].directory_discovery is Some
                },
                None => false,
            },
            None => false,
        },
    }
}

/// The phase a listing enters when a load for its sort order is sent.
pub open spec fn waiting_phase(browser: FileBrowser, request_generation: u64) -> DirectoryOrderPhase {
    DirectoryOrderPhase::WaitingForMetadata {
        request_generation,
        field: browser.sort_field,
        direction: browser.sort_direction,
    }
}

pub open spec fn with_phase(expanded: ExpandedDirectory, phase: DirectoryOrderPhase) -> ExpandedDirectory {
    ExpandedDirectory { directory_order_phase: phase, ..expanded }
}

/// Only pane `i`'s expanded directory `j` changed, to `expanded`.
pub open spec fn pane_expanded_updated(
    before: Seq<BrowserPane>,
    after: Seq<BrowserPane>,
    i: int,
    j: int,
    expanded: ExpandedDirectory,
) -> bool {
    &&& after.len() == before.len()
    &&& forall|k: int| 0 <= k < before.len() && k != i ==> #[trigger] after[k] == before[k]
    &&& after[i] == (BrowserPane { expanded_directories: after[i].expanded_directories, ..before[i] })
    &&& after[i].expanded_directories@ == before[i].expanded_directories@.update(j, expanded)
}

/// What `set_directory_order_waiting` does.
pub open spec fn order_waiting_outcome(
    before: FileBrowser,
    after: FileBrowser,
    context: DirectoryMetadataLoadContext,
    request_generation: u64,
) -> bool {
    let phase = waiting_phase(before, request_generation);
    match context {
        DirectoryMetadataLoadContext::Root { pane_id, .. } => if pane_id == before.active_pane_id {
            after == (FileBrowser { directory_order_phase: phase, ..before })
        } else {
            match find_pane_from(before.panes@, pane_id, 0) {
                Some(i) => {
                    &&& after == (FileBrowser { panes: after.panes, ..before })
                    &&& after.panes@ == before.panes@.update(
                        i,
                        BrowserPane { directory_order_phase: phase, ..before.panes@[i] },
                    )
                },
                None => after == before,
            }
        },
        DirectoryMetadataLoadContext::Expanded { pane_id, path, .. } => if pane_id
            == before.active_pane_id {
            match find_expanded(before.expanded_directories@, path@) {
                Some(j) => {
                    &&& after == (FileBrowser { expanded_directories: after.expanded_directories, ..before })
                    &&& after.expanded_directories@ == before.expanded_directories@.update(
                        j,
                        with_phase(before.expanded_directories@[j], phase),
                    )
                },
                None => after == before,
            }
        } else {
            match find_pane_from(before.panes@, pane_id, 0) {
                Some(i) => match find_expanded(before.panes@[i].expanded_directories@, path@) {
                    Some(j) => {
                        &&& after == (FileBrowser { panes: after.panes, ..before })
                        &&& pane_expanded_updated(
                            before.panes@,
                            after.panes@,
                            i,
                            j,
                            with_phase(before.panes@[i].expanded_directories@[j], phase),
                        )
                    },
                    None => after == before,
                },
                None => after == before,
            }
        },
    }
}

fn expanded_is_current(directories: &Vec<ExpandedDirectory>, path: &FsPath, load_generation: u64) -> (current: bool)
    ensures
        current == match find_expanded(directories@, path@) {
            Some(j) => load_generation == directories@[j].load_generation && directories@[j].status
                == ExpandedDirectoryStatus::Loaded && directories@[j].directory_discovery is Some,
            None => false,
        },
{
    match find_expanded_directory(directories, path) {
        Some(j) => load_generation == directories[j].load_generation && directories[j].status
            == ExpandedDirectoryStatus::Loaded && directories[j].directory_discovery.is_some(),
        None => false,
    }
}

/// Sets the order phase of expanded directory `path` in `directories`.
fn set_expanded_phase(directories: &mut Vec<ExpandedDirectory>, path: &FsPath, phase: DirectoryOrderPhase)
    ensures
        match find_expanded(old(directories)@, path@) {
            Some(j) => final(directories)@ == old(directories)@.update(
                j,
                with_phase(old(directories)@[j], phase),
            ),
            None => *final(directories) == *old(directories),
        },
        crate::panes::expanded_paths(final(directories)@) == crate::panes::expanded_paths(old(directories)@),
{
    match find_expanded_directory(directories, path) {
        Some(j) => {
            let mut expanded = directories.remove(j);
            expanded.directory_order_phase = phase;
            directories.insert(j, expanded);
            assert(directories@ =~= old(directories)@.update(
                j as int,
                with_phase(old(directories)@[j as int], phase),
            ));
            proof {
                crate::panes::lemma_same_paths(old(directories)@, directories@);
            }
        },
        None => {},
    }
}

impl FileBrowser {
    /// `clear_directory_metadata_demands_for_pane`: forgets the in-flight
    /// demands of a pane.
    pub fn clear_directory_metadata_demands_for_pane(&mut self, pane_id: BrowserPaneId)
        ensures
            final(self).directory_metadata_in_flight@ == keys_outside_pane(
                old(self).directory_metadata_in_flight@,
                pane_id,
            ),
            *final(self) == (FileBrowser {
                directory_metadata_in_flight: final(self).directory_metadata_in_flight,
                ..*old(self)
            }),
            old(self).collections_well_formed() ==> final(self).collections_well_formed(),
    {
        let ghost original = self.directory_metadata_in_flight@;
        let mut rest: Vec<DirectoryMetadataDemandKey> = Vec::new();
        std::mem::swap(&mut rest, &mut self.directory_metadata_in_flight);
        let mut kept: Vec<DirectoryMetadataDemandKey> = Vec::new();
        while rest.len() > 0
            invariant
                rest@.len() <= original.len(),
                rest@ == original.skip(original.len() - rest@.len()),
                kept@ == keys_outside_pane(original.take(original.len() - rest@.len()), pane_id),
            decreases rest@.len(),
        {
            let ghost done = original.len() - rest@.len();
            assert(original.take(done + 1).drop_last() =~= original.take(done));
            assert(original.take(done + 1).last() == rest@[0]);
            let key = rest.remove(0);
            assert(rest@ =~= original.skip(original.len() - rest@.len()));
            if key.context.pane_id() != pane_id {
                kept.push(key);
            }
        }
        assert(original.take(original.len() as int) =~= original);
        self.directory_metadata_in_flight = kept;
    }

    /// `directory_metadata_request_is_current`.
    pub fn directory_metadata_request_is_current(&self, request: &DirectoryMetadataLoadRequest) -> (current: bool)
        ensures
            current == request_is_current(*self, *request),
    {
        match &request.context {
            DirectoryMetadataLoadContext::Root { pane_id, path, collection_generation } => {
                if *pane_id == self.active_pane_id {
                    path.same_as(&self.current_dir) && *collection_generation
                        == self.directory_load_generation && self.directory_discovery.is_some()
                } else {
                    match find_pane(&self.panes, *pane_id) {
                        Some(i) => path.same_as(&self.panes[i].current_dir) && *collection_generation
                            == self.panes[i].directory_load_generation && self.panes[i].directory_discovery.is_some(),
                        None => false,
                    }
                }
            },
            DirectoryMetadataLoadContext::Expanded { pane_id, path, load_generation } => {
                if *pane_id == self.active_pane_id {
                    expanded_is_current(&self.expanded_directories, path, *load_generation)
                } else {
                    match find_pane(&self.panes, *pane_id) {
                        Some(i) => expanded_is_current(
                            &self.panes[i].expanded_directories,
                            path,
                            *load_generation,
                        ),
                        None => false,
                    }
                }
            },
        }
    }

    /// `set_directory_order_waiting`: the listing of `context` waits, in the
    /// browser's sort order, for the metadata of load `request_generation`.
    pub fn set_directory_order_waiting(&mut self, context: &DirectoryMetadataLoadContext, request_generation: u64)
        ensures
            order_waiting_outcome(*old(self), *final(self), *context, request_generation),
            old(self).collections_well_formed() ==> final(self).collections_well_formed(),
    {
        let phase = DirectoryOrderPhase::WaitingForMetadata {
            request_generation,
            field: self.sort_field,
            direction: self.sort_direction,
        };
        match context {
            DirectoryMetadataLoadContext::Root { pane_id, .. } => {
                if *pane_id == self.active_pane_id {
                    self.directory_order_phase = phase;
                } else {
                    match find_pane(&self.panes, *pane_id) {
                        Some(i) => {
                            let mut pane = self.panes.remove(i);
                            pane.directory_order_phase = phase;
                            self.panes.insert(i, pane);
                            assert(self.panes@ =~= old(self).panes@.update(
                                i as int,
                                BrowserPane { directory_order_phase: phase, ..old(self).panes@[i as int] },
                            ));
                        },
                        None => {},
                    }
                }
            },
            DirectoryMetadataLoadContext::Expanded { pane_id, path, .. } => {
                if *pane_id == self.active_pane_id {
                    set_expanded_phase(&mut self.expanded_directories, path, phase);
                } else {
                    match find_pane(&self.panes, *pane_id) {
                        Some(i) => {
                            if find_expanded_directory(&self.panes[i].expanded_directories, path).is_some() {
                                let mut pane = self.panes.remove(i);
                                let ghost before_pane = pane;
                                set_expanded_phase(&mut pane.expanded_directories, path, phase);
                                let ghost updated = pane;
                                self.panes.insert(i, pane);
                                assert(self.panes@ =~= old(self).panes@.update(i as int, updated));
                                assert(updated == (BrowserPane {
                                    expanded_directories: updated.expanded_directories,
                                    ..before_pane
                                }));
                                assert(old(self).collections_well_formed() ==> crate::panes::pane_collections_well_formed(
                                    old(self).panes@[i as int],
                                ));
                            }
                        },
                        None => {},
                    }
                }
            },
        }
    }
}

// ---------------------------------------------------------------------------
// Replies
// ---------------------------------------------------------------------------

/// What a metadata load came back with.
#[derive(Debug, Clone, PartialEq, Eq)]
pub enum DirectoryMetadataOutcome {
    /// Resolved for load `request_generation`; `first_warning` is the first
    /// entry that could not be read, if any.
    Resolved {
        request_generation: u64,
        requirement: DirectoryMetadataRequirement,
        first_warning: Option<String>,
    },
    Cancelled,
    ReadFailed(String),
}

/// Two contexts name the same listing of the same load.
pub open spec fn same_context(a: DirectoryMetadataLoadContext, b: DirectoryMetadataLoadContext) -> bool {
    match (a, b) {
        (
            DirectoryMetadataLoadContext::Root { pane_id: pa, path: fa, collection_generation: ga },
            DirectoryMetadataLoadContext::Root { pane_id: pb, path: fb, collection_generation: gb },
        ) => pa == pb && fa@ == fb@ && ga == gb,
        (
            DirectoryMetadataLoadContext::Expanded { pane_id: pa, path: fa, load_generation: ga },
            DirectoryMetadataLoadContext::Expanded { pane_id: pb, path: fb, load_generation: gb },
        ) => pa == pb && fa@ == fb@ && ga == gb,
        _ => false,
    }
}

fn same_context_now(a: &DirectoryMetadataLoadContext, b: &DirectoryMetadataLoadContext) -> (same: bool)
    ensures
        same == same_context(*a, *b),
{
    match (a, b) {
        (
            DirectoryMetadataLoadContext::Root { pane_id: pa, path: fa, collection_generation: ga },
            DirectoryMetadataLoadContext::Root { pane_id: pb, path: fb, collection_generation: gb },
        ) => *pa == *pb && fa.same_as(fb) && *ga == *gb,
        (
            DirectoryMetadataLoadContext::Expanded { pane_id: pa, path: fa, load_generation: ga },
            DirectoryMetadataLoadContext::Expanded { pane_id: pb, path: fb, load_generation: gb },
        ) => *pa == *pb && fa.same_as(fb) && *ga == *gb,
        _ => false,
    }
}

/// `key` is one of the demands `request` answers.
pub open spec fn answered_by(key: DirectoryMetadataDemandKey, request: DirectoryMetadataLoadRequest) -> bool {
    &&& same_context(key.context, request.context)
    &&& key.requirement == request.requirement
    &&& request.targets@.contains(key.index)
}

/// The keys of `keys` that `request` does not answer, in order.
pub open spec fn keys_unanswered(keys: Seq<DirectoryMetadataDemandKey>, request: DirectoryMetadataLoadRequest) -> Seq<
    DirectoryMetadataDemandKey,
>
    decreases keys.len(),
{
    if keys.len() == 0 {
        Seq::empty()
    } else {
        let rest = keys_unanswered(keys.drop_last(), request);
        if answered_by(keys.last(), request) {
            rest
        } else {
            rest.push(keys.last())
        }
    }
}

fn targets_contain(targets: &Vec<usize>, index: usize) -> (found: bool)
    ensures
        found == targets@.contains(index),
{
    let mut i: usize = 0;
    while i < targets.len()
        invariant
            i <= targets@.len(),
            forall|j: int| 0 <= j < i ==> targets@[j] != index,
        decreases targets@.len() - i,
    {
        if targets[i] == index {
            assert(targets@[i as int] == index);
            return true;
        }
        i = i + 1;
    }
    false
}

/// What `accept_directory_metadata_resolution` does: the answered demands
/// leave the in-flight set; a reply for a listing that changed meanwhile, or
/// for another load or requirement, or a cancelled one, is dropped; a failed
/// read is shown as an error; a resolved one shows its first warning and
/// asks for the requested sort to be committed.
pub open spec fn resolution_outcome(
    before: FileBrowser,
    after: FileBrowser,
    request: DirectoryMetadataLoadRequest,
    outcome: DirectoryMetadataOutcome,
    commit: bool,
) -> bool {
    let cleared = FileBrowser {
        directory_metadata_in_flight: after.directory_metadata_in_flight,
        ..before
    };
    &&& after.directory_metadata_in_flight@ == keys_unanswered(
        before.directory_metadata_in_flight@,
        request,
    )
    &&& if !request_is_current(before, request) {
        after == cleared && !commit
    } else {
        match outcome {
            DirectoryMetadataOutcome::Resolved { request_generation, requirement, first_warning } => {
                if request_generation == request.request_generation && requirement
                    == request.requirement {
                    &&& commit
                    &&& after == (FileBrowser {
                        global_error: match first_warning {
                            Some(warning) => Some(warning),
                            None => before.global_error,
                        },
                        ..cleared
                    })
                } else {
                    after == cleared && !commit
                }
            },
            DirectoryMetadataOutcome::Cancelled => after == cleared && !commit,
            DirectoryMetadataOutcome::ReadFailed(message) => {
                after == (FileBrowser { global_error: Some(message), ..cleared }) && !commit
            },
        }
    }
}

/// The order a listing waits for, when load `request_generation` is the one
/// it waits on and its discovery is present.
pub open spec fn awaited_order(
    phase: DirectoryOrderPhase,
    has_discovery: bool,
    request_generation: u64,
) -> Option<(SortField, SortDirection)> {
    match phase {
        DirectoryOrderPhase::WaitingForMetadata { request_generation: expected, field, direction } => {
            if expected == request_generation && has_discovery {
                Some((field, direction))
            } else {
                None
            }
        },
        DirectoryOrderPhase::Ready { .. } => None,
    }
}

/// The sort order a metadata reply for `context` completes, if any.
pub open spec fn sort_order_to_commit(
    browser: FileBrowser,
    context: DirectoryMetadataLoadContext,
    request_generation: u64,
) -> Option<(SortField, SortDirection)> {
    match context {
        DirectoryMetadataLoadContext::Root { pane_id, .. } => if pane_id == browser.active_pane_id {
            awaited_order(
                browser.directory_order_phase,
                browser.directory_discovery is Some,
                request_generation,
            )
        } else {
            match find_pane_from(browser.panes@, pane_id, 0) {
                Some(i) => awaited_order(
                    browser.panes@[i].directory_order_phase,
                    browser.panes@[i].directory_discovery is Some,
                    request_generation,
                ),
                None => None,
            }
        },
        DirectoryMetadataLoadContext::Expanded { pane_id, path, .. } => match pane_expanded(
            browser,
            pane_id,
        ) {
            Some(directories) => match find_expanded(directories, path@) {
                Some(j) => awaited_order(
                    directories[j].directory_order_phase,
                    directories[j].directory_discovery is Some,
                    request_generation,
                ),
                None => None,
            },
            None => None,
        },
    }
}

fn awaited_order_now(phase: DirectoryOrderPhase, has_discovery: bool, request_generation: u64) -> (order: Option<(SortField, SortDirection)>)
    ensures
        order == awaited_order(phase, has_discovery, request_generation),
{
    match phase {
        DirectoryOrderPhase::WaitingForMetadata { request_generation: expected, field, direction } => {
            if expected == request_generation && has_discovery {
                Some((field, direction))
            } else {
                None
            }
        },
        DirectoryOrderPhase::Ready { .. } => None,
    }
}

fn expanded_awaited_order(directories: &Vec<ExpandedDirectory>, path: &FsPath, request_generation: u64) -> (order: Option<(SortField, SortDirection)>)
    ensures
        order == match find_expanded(directories@, path@) {
            Some(j) => awaited_order(
                directories@[j].directory_order_phase,
                directories@[j].directory_discovery is Some,
                request_generation,
            ),
            None => None,
        },
{
    match find_expanded_directory(directories, path) {
        Some(j) => awaited_order_now(
            directories[j].directory_order_phase,
            directories[j].directory_discovery.is_some(),
            request_generation,
        ),
        None => None,
    }
}

/// The listing `expanded` re-sorted into `entries`, in its final order.
pub open spec fn sorted_expanded(expanded: ExpandedDirectory, entries: Vec<DirectoryEntry>, field: SortField, direction: SortDirection) -> ExpandedDirectory {
    ExpandedDirectory {
        entries,
        directory_order_phase: DirectoryOrderPhase::Ready { field, direction },
        ..expanded
    }
}

/// What `commit_metadata_sort` does.
pub open spec fn sort_commit_outcome(
    before: FileBrowser,
    after: FileBrowser,
    context: DirectoryMetadataLoadContext,
    request_generation: u64,
    sorted: Vec<DirectoryEntry>,
    committed: bool,
) -> bool {
    match sort_order_to_commit(before, context, request_generation) {
        None => after == before && !committed,
        Some((field, direction)) => {
            let ready = DirectoryOrderPhase::Ready { field, direction };
            &&& committed
            &&& match context {
                DirectoryMetadataLoadContext::Root { pane_id, .. } => if pane_id
                    == before.active_pane_id {
                    after == (FileBrowser { entries: sorted, directory_order_phase: ready, ..before })
                } else {
                    let i = find_pane_from(before.panes@, pane_id, 0)->0;
                    &&& after == (FileBrowser { panes: after.panes, ..before })
                    &&& after.panes@ == before.panes@.update(
                        i,
                        BrowserPane { entries: sorted, directory_order_phase: ready, ..before.panes@[i] },
                    )
                },
                DirectoryMetadataLoadContext::Expanded { pane_id, path, .. } => if pane_id
                    == before.active_pane_id {
                    let j = find_expanded(before.expanded_directories@, path@)->0;
                    &&& after == (FileBrowser { expanded_directories: after.expanded_directories, ..before })
                    &&& after.expanded_directories@ == before.expanded_directories@.update(
                        j,
                        sorted_expanded(before.expanded_directories@[j], sorted, field, direction),
                    )
                } else {
                    let i = find_pane_from(before.panes@, pane_id, 0)->0;
                    let j = find_expanded(before.panes@[i].expanded_directories@, path@)->0;
                    &&& after == (FileBrowser { panes: after.panes, ..before })
                    &&& pane_expanded_updated(
                        before.panes@,
                        after.panes@,
                        i,
                        j,
                        sorted_expanded(before.panes@[i].expanded_directories@[j], sorted, field, direction),
                    )
                },
            }
        },
    }
}

fn commit_pane_sort(panes: &mut Vec<BrowserPane>, i: usize, sorted: Vec<DirectoryEntry>, ready: DirectoryOrderPhase)
    requires
        i < old(panes)@.len(),
    ensures
        final(panes)@ == old(panes)@.update(
            i as int,
            BrowserPane { entries: sorted, directory_order_phase: ready, ..old(panes)@[i as int] },
        ),
{
    let mut pane = panes.remove(i);
    pane.entries = sorted;
    pane.directory_order_phase = ready;
    let ghost updated = pane;
    panes.insert(i, pane);
    assert(panes@ =~= old(panes)@.update(i as int, updated));
}

fn commit_expanded_sort(
    directories: &mut Vec<ExpandedDirectory>,
    j: usize,
    sorted: Vec<DirectoryEntry>,
    ready: DirectoryOrderPhase,
)
    requires
        j < old(directories)@.len(),
    ensures
        final(directories)@ == old(directories)@.update(
            j as int,
            ExpandedDirectory { entries: sorted, directory_order_phase: ready, ..old(directories)@[j as int] },
        ),
{
    let mut expanded = directories.remove(j);
    expanded.entries = sorted;
    expanded.directory_order_phase = ready;
    let ghost updated = expanded;
    directories.insert(j, expanded);
    assert(directories@ =~= old(directories)@.update(j as int, updated));
}

fn commit_pane_expanded_sort(
    panes: &mut Vec<BrowserPane>,
    i: usize,
    j: usize,
    sorted: Vec<DirectoryEntry>,
    ready: DirectoryOrderPhase,
)
    requires
        i < old(panes)@.len(),
        j < old(panes)@[i as int].expanded_directories@.len(),
    ensures
        final(panes)@.len() == old(panes)@.len(),
        forall|k: int| 0 <= k < old(panes)@.len() && k != i ==> final(panes)@[k] == old(panes)@[k],
        final(panes)@[i as int] == (BrowserPane {
            expanded_directories: final(panes)@[i as int].expanded_directories,
            ..old(panes)@[i as int]
        }),
        final(panes)@[i as int].expanded_directories@ == old(panes)@[i as int].expanded_directories@.update(
            j as int,
            ExpandedDirectory {
                entries: sorted,
                directory_order_phase: ready,
                ..old(panes)@[i as int].expanded_directories@[j as int]
            },
        ),
{
    let mut pane = panes.remove(i);
    let ghost before_pane = pane;
    commit_expanded_sort(&mut pane.expanded_directories, j, sorted, ready);
    let ghost updated = pane;
    panes.insert(i, pane);
    assert(panes@ =~= old(panes)@.update(i as int, updated));
}

impl FileBrowser {
    /// `accept_directory_metadata_resolution`; returns whether the requested
    /// sort of the listing is to be committed (`commit_metadata_sort`).
    pub fn accept_directory_metadata_resolution(
        &mut self,
        request: &DirectoryMetadataLoadRequest,
        outcome: DirectoryMetadataOutcome,
    ) -> (commit: bool)
        ensures
            resolution_outcome(*old(self), *final(self), *request, outcome, commit),
    {
        let ghost original = self.directory_metadata_in_flight@;
        let mut rest: Vec<DirectoryMetadataDemandKey> = Vec::new();
        std::mem::swap(&mut rest, &mut self.directory_metadata_in_flight);
        let mut kept: Vec<DirectoryMetadataDemandKey> = Vec::new();
        while rest.len() > 0
            invariant
                rest@.len() <= original.len(),
                rest@ == original.skip(original.len() - rest@.len()),
                kept@ == keys_unanswered(original.take(original.len() - rest@.len()), *request),
            decreases rest@.len(),
        {
            let ghost done = original.len() - rest@.len();
            assert(original.take(done + 1).drop_last() =~= original.take(done));
            assert(original.take(done + 1).last() == rest@[0]);
            let key = rest.remove(0);
            assert(rest@ =~= original.skip(original.len() - rest@.len()));
            let answered = same_context_now(&key.context, &request.context) && key.requirement
                == request.requirement && targets_contain(&request.targets, key.index);
            if !answered {
                kept.push(key);
            }
        }
        assert(original.take(original.len() as int) =~= original);
        self.directory_metadata_in_flight = kept;
        if !self.directory_metadata_request_is_current(request) {
            return false;
        }
        match outcome {
            DirectoryMetadataOutcome::Resolved { request_generation, requirement, first_warning } => {
                if request_generation != request.request_generation || requirement
                    != request.requirement {
                    return false;
                }
                match first_warning {
                    Some(warning) => self.show_global_error(warning),
                    None => {},
                }
                true
            },
            DirectoryMetadataOutcome::Cancelled => false,
            DirectoryMetadataOutcome::ReadFailed(message) => {
                self.show_global_error(message);
                false
            },
        }
    }

    /// The order a metadata reply for `context` completes: the one its
    /// listing waits for, when it waits for load `request_generation`.
    pub fn metadata_sort_order(&self, context: &DirectoryMetadataLoadContext, request_generation: u64) -> (order: Option<(SortField, SortDirection)>)
        ensures
            order == sort_order_to_commit(*self, *context, request_generation),
    {
        match context {
            DirectoryMetadataLoadContext::Root { pane_id, .. } => {
                if *pane_id == self.active_pane_id {
                    awaited_order_now(
                        self.directory_order_phase,
                        self.directory_discovery.is_some(),
                        request_generation,
                    )
                } else {
                    match find_pane(&self.panes, *pane_id) {
                        Some(i) => awaited_order_now(
                            self.panes[i].directory_order_phase,
                            self.panes[i].directory_discovery.is_some(),
                            request_generation,
                        ),
                        None => None,
                    }
                }
            },
            DirectoryMetadataLoadContext::Expanded { pane_id, path, .. } => {
                if *pane_id == self.active_pane_id {
                    expanded_awaited_order(&self.expanded_directories, path, request_generation)
                } else {
                    match find_pane(&self.panes, *pane_id) {
                        Some(i) => expanded_awaited_order(
                            &self.panes[i].expanded_directories,
                            path,
                            request_generation,
                        ),
                        None => None,
                    }
                }
            },
        }
    }

    /// Commits a metadata sort to a root or expanded listing: when the
    /// listing of `context` waits for load `request_generation` and its discovery is
    /// ready to be sorted in the awaited order (`sort_ready`: every entry
    /// has the metadata the order needs), it takes `sorted` (its discovery
    /// in that order) and is ready in that order; otherwise nothing changes.
    pub fn commit_metadata_sort(
        &mut self,
        context: &DirectoryMetadataLoadContext,
        request_generation: u64,
        sort_ready: bool,
        sorted: Vec<DirectoryEntry>,
    ) -> (committed: bool)
        ensures
            !sort_ready ==> *final(self) == *old(self) && !committed,
            sort_ready ==> sort_commit_outcome(*old(self), *final(self), *context, request_generation, sorted, committed),
    {
        if !sort_ready {
            return false;
        }
        let (field, direction) = match self.metadata_sort_order(context, request_generation) {
            Some(order) => order,
            None => return false,
        };
        let ready = DirectoryOrderPhase::Ready { field, direction };
        match context {
            DirectoryMetadataLoadContext::Root { pane_id, .. } => {
                if *pane_id == self.active_pane_id {
                    self.entries = sorted;
                    self.directory_order_phase = ready;
                } else {
                    let i = match find_pane(&self.panes, *pane_id) {
                        Some(i) => i,
                        None => return false,
                    };
                    commit_pane_sort(&mut self.panes, i, sorted, ready);
                }
            },
            DirectoryMetadataLoadContext::Expanded { pane_id, path, .. } => {
                if *pane_id == self.active_pane_id {
                    let j = match find_expanded_directory(&self.expanded_directories, path) {
                        Some(j) => j,
                        None => return false,
                    };
                    commit_expanded_sort(&mut self.expanded_directories, j, sorted, ready);
                } else {
                    let i = match find_pane(&self.panes, *pane_id) {
                        Some(i) => i,
                        None => return false,
                    };
                    let j = match find_expanded_directory(&self.panes[i].expanded_directories, path) {
                        Some(j) => j,
                        None => return false,
                    };
                    commit_pane_expanded_sort(&mut self.panes, i, j, sorted, ready);
                }
            },
        }
        true
    }
}

// ---------------------------------------------------------------------------
// Scheduling
// ---------------------------------------------------------------------------

/// The demand for entry `index` of `context` is in flight.
pub open spec fn demand_in_flight(
    keys: Seq<DirectoryMetadataDemandKey>,
    context: DirectoryMetadataLoadContext,
    requirement: DirectoryMetadataRequirement,
    index: usize,
) -> bool {
    exists|j: int|
        0 <= j < keys.len() && #[trigger] keys[j].requirement == requirement && keys[j].index == index
            && same_context(keys[j].context, context)
}

/// Entry `index` is requested: named among `targets`, present in the
/// discovery, its metadata still pending, and not already in flight.
pub open spec fn demand_accepted(
    keys: Seq<DirectoryMetadataDemandKey>,
    context: DirectoryMetadataLoadContext,
    requirement: DirectoryMetadataRequirement,
    pending: Seq<bool>,
    targets: Seq<usize>,
    index: int,
) -> bool {
    &&& 0 <= index < pending.len()
    &&& pending[index]
    &&& targets.contains(index as usize)
    &&& !demand_in_flight(keys, context, requirement, index as usize)
}

/// The accepted entries below `n`, in increasing order.
pub open spec fn accepted_below(
    keys: Seq<DirectoryMetadataDemandKey>,
    context: DirectoryMetadataLoadContext,
    requirement: DirectoryMetadataRequirement,
    pending: Seq<bool>,
    targets: Seq<usize>,
    n: int,
) -> Seq<usize>
    decreases n,
{
    if n <= 0 {
        Seq::empty()
    } else {
        let rest = accepted_below(keys, context, requirement, pending, targets, n - 1);
        if demand_accepted(keys, context, requirement, pending, targets, n - 1) {
            rest.push((n - 1) as usize)
        } else {
            rest
        }
    }
}

/// The sort waits for the filesystem metadata it orders by.
pub open spec fn sort_needs_filesystem_metadata(field: SortField) -> bool {
    field == SortField::Size || field == SortField::Modified
}

/// What `schedule_directory_metadata_requirement` does.
pub open spec fn requirement_scheduled(
    before: FileBrowser,
    after: FileBrowser,
    context: DirectoryMetadataLoadContext,
    pending: Seq<bool>,
    requirement: DirectoryMetadataRequirement,
    targets: Seq<usize>,
    request: Option<DirectoryMetadataLoadRequest>,
) -> bool {
    let accepted = accepted_below(
        before.directory_metadata_in_flight@,
        context,
        requirement,
        pending,
        targets,
        pending.len() as int,
    );
    if accepted.len() == 0 {
        after == before && request is None
    } else {
        let generation = before.next_directory_metadata_request_generation;
        let added = after.directory_metadata_in_flight@.skip(before.directory_metadata_in_flight@.len() as int);
        let counted = FileBrowser {
            directory_metadata_in_flight: after.directory_metadata_in_flight,
            next_directory_metadata_request_generation: generation.wrapping_add(1),
            ..before
        };
        &&& after.directory_metadata_in_flight@.len() == before.directory_metadata_in_flight@.len()
            + accepted.len()
        &&& after.directory_metadata_in_flight@.take(before.directory_metadata_in_flight@.len() as int)
            == before.directory_metadata_in_flight@
        &&& added.len() == accepted.len()
        &&& forall|k: int|
            0 <= k < added.len() ==> same_context(#[trigger] added[k].context, context) && added[k].requirement
                == requirement && added[k].index == accepted[k]
        &&& request matches Some(r) && same_context(r.context, context) && r.request_generation
            == generation && r.requirement == requirement && r.targets@ == accepted
        &&& if requirement == DirectoryMetadataRequirement::Filesystem
            && sort_needs_filesystem_metadata(before.sort_field) {
            order_waiting_outcome(counted, after, context, generation)
        } else {
            after == counted
        }
    }
}

fn duplicate_context(context: &DirectoryMetadataLoadContext) -> (copy: DirectoryMetadataLoadContext)
    ensures
        same_context(copy, *context),
        context_pane(copy) == context_pane(*context),
{
    match context {
        DirectoryMetadataLoadContext::Root { pane_id, path, collection_generation } => {
            DirectoryMetadataLoadContext::Root {
                pane_id: *pane_id,
                path: path.duplicate(),
                collection_generation: *collection_generation,
            }
        },
        DirectoryMetadataLoadContext::Expanded { pane_id, path, load_generation } => {
            DirectoryMetadataLoadContext::Expanded {
                pane_id: *pane_id,
                path: path.duplicate(),
                load_generation: *load_generation,
            }
        },
    }
}

fn demand_in_flight_now(
    keys: &Vec<DirectoryMetadataDemandKey>,
    context: &DirectoryMetadataLoadContext,
    requirement: DirectoryMetadataRequirement,
    index: usize,
) -> (found: bool)
    ensures
        found == demand_in_flight(keys@, *context, requirement, index),
{
    let mut j: usize = 0;
    while j < keys.len()
        invariant
            j <= keys@.len(),
            forall|k: int|
                0 <= k < j ==> !(#[trigger] keys@[k].requirement == requirement && keys@[k].index
                    == index && same_context(keys@[k].context, *context)),
        decreases keys@.len() - j,
    {
        if keys[j].requirement == requirement && keys[j].index == index && same_context_now(
            &keys[j].context,
            context,
        ) {
            assert(keys@[j as int].requirement == requirement);
            return true;
        }
        j = j + 1;
    }
    false
}

impl FileBrowser {
    /// `schedule_directory_metadata_requirement`: of `targets` (entry
    /// positions in the listing's discovery, whose entries' metadata for
    /// `requirement` is pending where `pending` says so), requests the
    /// pending ones not already in flight, in increasing order, and marks
    /// them in flight; a filesystem request for a listing sorted by size or
    /// date makes the listing wait for it.
    pub fn schedule_directory_metadata_requirement(
        &mut self,
        context: DirectoryMetadataLoadContext,
        pending: &Vec<bool>,
        requirement: DirectoryMetadataRequirement,
        targets: Vec<usize>,
    ) -> (request: Option<DirectoryMetadataLoadRequest>)
        ensures
            requirement_scheduled(*old(self), *final(self), context, pending@, requirement, targets@, request),
    {
        let ghost keys = self.directory_metadata_in_flight@;
        let mut accepted: Vec<usize> = Vec::new();
        let mut index: usize = 0;
        while index < pending.len()
            invariant
                index <= pending@.len(),
                self.directory_metadata_in_flight@ == keys,
                accepted@ == accepted_below(keys, context, requirement, pending@, targets@, index as int),
            decreases pending@.len() - index,
        {
            if pending[index] && targets_contain(&targets, index) && !demand_in_flight_now(
                &self.directory_metadata_in_flight,
                &context,
                requirement,
                index,
            ) {
                accepted.push(index);
            }
            index = index + 1;
        }
        if accepted.len() == 0 {
            return None;
        }
        let mut k: usize = 0;
        while k < accepted.len()
            invariant
                k <= accepted@.len(),
                self.directory_metadata_in_flight@.len() == keys.len() + k,
                self.directory_metadata_in_flight@.take(keys.len() as int) == keys,
                forall|m: int|
                    0 <= m < k ==> same_context(
                        #[trigger] self.directory_metadata_in_flight@[keys.len() + m].context,
                        context,
                    ) && self.directory_metadata_in_flight@[keys.len() + m].requirement == requirement
                        && self.directory_metadata_in_flight@[keys.len() + m].index == accepted@[m],
                *self == (FileBrowser { directory_metadata_in_flight: self.directory_metadata_in_flight, ..*old(self) }),
            decreases accepted@.len() - k,
        {
            let ghost before = self.directory_metadata_in_flight@;
            self.directory_metadata_in_flight.push(
                DirectoryMetadataDemandKey {
                    context: duplicate_context(&context),
                    requirement,
                    index: accepted[k],
                },
            );
            assert(self.directory_metadata_in_flight@.take(keys.len() as int) =~= keys) by {
                assert(self.directory_metadata_in_flight@.take(keys.len() as int) =~= before.take(keys.len() as int));
            }
            k = k + 1;
        }
        let ghost filled = self.directory_metadata_in_flight@;
        assert forall|m: int|
            0 <= m < accepted@.len() implies same_context(
                #[trigger] filled.skip(keys.len() as int)[m].context,
                context,
            ) && filled.skip(keys.len() as int)[m].requirement == requirement && filled.skip(
                keys.len() as int,
            )[m].index == accepted@[m] by {
            assert(filled.skip(keys.len() as int)[m] == filled[keys.len() + m]);
        }
        let generation = self.next_directory_metadata_request_generation;
        self.next_directory_metadata_request_generation = generation.wrapping_add(1);
        if requirement == DirectoryMetadataRequirement::Filesystem && (self.sort_field
            == SortField::Size || self.sort_field == SortField::Modified) {
            self.set_directory_order_waiting(&context, generation);
        }
        Some(DirectoryMetadataLoadRequest { context, request_generation: generation, requirement, targets: accepted })
    }
}

// ---------------------------------------------------------------------------
// Demands of the selection
// ---------------------------------------------------------------------------

/// The discovery positions of the selected entries of a listing, in listing
/// order.
pub open spec fn selected_targets(entries: Seq<DirectoryEntry>, selected: Seq<crate::paths::PathModel>) -> Seq<usize>
    decreases entries.len(),
{
    if entries.len() == 0 {
        Seq::empty()
    } else {
        let rest = selected_targets(entries.drop_last(), selected);
        let entry = entries.last();
        match entry.discovery_index {
            Some(index) => if selected.contains(entry.path@) {
                rest.push(index)
            } else {
                rest
            },
            None => rest,
        }
    }
}

/// A group of entries of one listing whose metadata is demanded together.
#[derive(Debug, Clone, PartialEq, Eq)]
pub struct MetadataDemandGroup {
    pub context: DirectoryMetadataLoadContext,
    pub targets: Vec<usize>,
}

/// The groups of the loaded expanded directories among `directories`.
pub open spec fn expanded_demand_groups(
    pane_id: BrowserPaneId,
    directories: Seq<ExpandedDirectory>,
    selected: Seq<crate::paths::PathModel>,
) -> Seq<(DirectoryMetadataLoadContext, Seq<usize>)>
    decreases directories.len(),
{
    if directories.len() == 0 {
        Seq::empty()
    } else {
        let rest = expanded_demand_groups(pane_id, directories.drop_last(), selected);
        let expanded = directories.last();
        let targets = selected_targets(expanded.entries@, selected);
        if expanded.status == ExpandedDirectoryStatus::Loaded && expanded.directory_discovery is Some && targets.len()
            > 0 {
            rest.push(
                (
                    DirectoryMetadataLoadContext::Expanded {
                        pane_id,
                        path: expanded.path,
                        load_generation: expanded.load_generation,
                    },
                    targets,
                ),
            )
        } else {
            rest
        }
    }
}

/// The metadata demands of a pane's selection: its selected direct entries
/// (when the listing's discovery is present), then those inside each loaded
/// expanded directory.
pub open spec fn selection_demand_groups(
    pane_id: BrowserPaneId,
    current_dir: FsPath,
    entries: Seq<DirectoryEntry>,
    selected: Seq<crate::paths::PathModel>,
    expanded: Seq<ExpandedDirectory>,
    has_discovery: bool,
    generation: u64,
) -> Seq<(DirectoryMetadataLoadContext, Seq<usize>)> {
    if selected.len() == 0 {
        Seq::empty()
    } else {
        let root_targets = selected_targets(entries, selected);
        let root = if has_discovery && root_targets.len() > 0 {
            seq![
                (
                    DirectoryMetadataLoadContext::Root {
                        pane_id,
                        path: current_dir,
                        collection_generation: generation,
                    },
                    root_targets,
                ),
            ]
        } else {
            Seq::empty()
        };
        root + expanded_demand_groups(pane_id, expanded, selected)
    }
}

/// The demand groups of pane `pane_id` (none for an unknown pane).
pub open spec fn pane_demand_groups(browser: FileBrowser, pane_id: BrowserPaneId) -> Seq<
    (DirectoryMetadataLoadContext, Seq<usize>),
> {
    if pane_id == browser.active_pane_id {
        selection_demand_groups(
            pane_id,
            browser.current_dir,
            browser.entries@,
            crate::naming::path_views(browser.selected_paths@),
            browser.expanded_directories@,
            browser.directory_discovery is Some,
            browser.directory_load_generation,
        )
    } else {
        match find_pane_from(browser.panes@, pane_id, 0) {
            Some(i) => {
                let pane = browser.panes@[i];
                selection_demand_groups(
                    pane_id,
                    pane.current_dir,
                    pane.entries@,
                    crate::naming::path_views(pane.selected_paths@),
                    pane.expanded_directories@,
                    pane.directory_discovery is Some,
                    pane.directory_load_generation,
                )
            },
            None => Seq::empty(),
        }
    }
}

pub open spec fn groups_match(groups: Seq<MetadataDemandGroup>, expected: Seq<(DirectoryMetadataLoadContext, Seq<usize>)>) -> bool {
    &&& groups.len() == expected.len()
    &&& forall|k: int|
        0 <= k < groups.len() ==> same_context(#[trigger] groups[k].context, expected[k].0)
            && groups[k].targets@ == expected[k].1
}

fn selected_targets_now(entries: &Vec<DirectoryEntry>, selected: &Vec<FsPath>) -> (targets: Vec<usize>)
    ensures
        targets@ == selected_targets(entries@, crate::naming::path_views(selected@)),
{
    let mut targets: Vec<usize> = Vec::new();
    let mut i: usize = 0;
    while i < entries.len()
        invariant
            i <= entries@.len(),
            targets@ == selected_targets(entries@.take(i as int), crate::naming::path_views(selected@)),
        decreases entries@.len() - i,
    {
        let ghost prefix = entries@.take(i + 1);
        assert(prefix.drop_last() =~= entries@.take(i as int));
        assert(prefix.last() == entries@[i as int]);
        match entries[i].discovery_index {
            Some(index) => {
                if crate::naming::contains_path(selected, &entries[i].path) {
                    targets.push(index);
                }
            },
            None => {},
        }
        i = i + 1;
    }
    assert(entries@.take(entries@.len() as int) =~= entries@);
    targets
}

fn expanded_groups_now(
    pane_id: BrowserPaneId,
    directories: &Vec<ExpandedDirectory>,
    selected: &Vec<FsPath>,
    groups: &mut Vec<MetadataDemandGroup>,
)
    ensures
        final(groups)@.len() >= old(groups)@.len(),
        final(groups)@.take(old(groups)@.len() as int) == old(groups)@,
        groups_match(
            final(groups)@.skip(old(groups)@.len() as int),
            expanded_demand_groups(pane_id, directories@, crate::naming::path_views(selected@)),
        ),
{
    let ghost start = groups@;
    let mut i: usize = 0;
    while i < directories.len()
        invariant
            i <= directories@.len(),
            groups@.take(start.len() as int) == start,
            groups@.len() >= start.len(),
            groups_match(
                groups@.skip(start.len() as int),
                expanded_demand_groups(
                    pane_id,
                    directories@.take(i as int),
                    crate::naming::path_views(selected@),
                ),
            ),
        decreases directories@.len() - i,
    {
        let ghost prefix = directories@.take(i + 1);
        assert(prefix.drop_last() =~= directories@.take(i as int));
        assert(prefix.last() == directories@[i as int]);
        let ghost before = groups@;
        let expanded = &directories[i];
        if expanded.status == ExpandedDirectoryStatus::Loaded && expanded.directory_discovery.is_some() {
            let targets = selected_targets_now(&expanded.entries, selected);
            if targets.len() > 0 {
                groups.push(
                    MetadataDemandGroup {
                        context: DirectoryMetadataLoadContext::Expanded {
                            pane_id,
                            path: expanded.path.duplicate(),
                            load_generation: expanded.load_generation,
                        },
                        targets,
                    },
                );
                assert(groups@.take(start.len() as int) =~= before.take(start.len() as int));
                assert(groups@.skip(start.len() as int) =~= before.skip(start.len() as int).push(groups@.last()));
            }
        }
        i = i + 1;
    }
    assert(directories@.take(directories@.len() as int) =~= directories@);
}

impl FileBrowser {
    /// `schedule_selected_directory_metadata`: the filesystem-metadata
    /// demands of a pane's selection, grouped by listing, each then handed
    /// to `schedule_directory_metadata_requirement`.
    pub fn schedule_selected_directory_metadata(&self, pane_id: BrowserPaneId) -> (groups: Vec<MetadataDemandGroup>)
        ensures
            groups_match(groups@, pane_demand_groups(*self, pane_id)),
    {
        let (current_dir, entries, selected, expanded, has_discovery, generation) = if pane_id
            == self.active_pane_id {
            (
                &self.current_dir,
                &self.entries,
                &self.selected_paths,
                &self.expanded_directories,
                self.directory_discovery.is_some(),
                self.directory_load_generation,
            )
        } else {
            match find_pane(&self.panes, pane_id) {
                Some(i) => {
                    let pane = &self.panes[i];
                    (
                        &pane.current_dir,
                        &pane.entries,
                        &pane.selected_paths,
                        &pane.expanded_directories,
                        pane.directory_discovery.is_some(),
                        pane.directory_load_generation,
                    )
                },
                None => return Vec::new(),
            }
        };
        let mut groups: Vec<MetadataDemandGroup> = Vec::new();
        if selected.len() == 0 {
            return groups;
        }
        if has_discovery {
            let targets = selected_targets_now(entries, selected);
            if targets.len() > 0 {
                groups.push(
                    MetadataDemandGroup {
                        context: DirectoryMetadataLoadContext::Root {
                            pane_id,
                            path: current_dir.duplicate(),
                            collection_generation: generation,
                        },
                        targets,
                    },
                );
            }
        }
        let ghost root_groups = groups@;
        expanded_groups_now(pane_id, expanded, selected, &mut groups);
        proof {
            let expected = pane_demand_groups(*self, pane_id);
            let tail = expanded_demand_groups(pane_id, expanded@, crate::naming::path_views(selected@));
            assert forall|k: int| 0 <= k < root_groups.len() implies groups@[k] == root_groups[k] by {
                assert(groups@.take(root_groups.len() as int)[k] == groups@[k]);
            }
            assert(groups@ =~= root_groups + groups@.skip(root_groups.len() as int));
            assert forall|k: int| 0 <= k < groups@.len() implies same_context(
                #[trigger] groups@[k].context,
                expected[k].0,
            ) && groups@[k].targets@ == expected[k].1 by {
                if k >= root_groups.len() {
                    assert(groups@[k] == groups@.skip(root_groups.len() as int)[k - root_groups.len()]);
                }
            }
        }
        groups
    }
}

// ---------------------------------------------------------------------------
// Demands of the visible rows of the list view
// ---------------------------------------------------------------------------

/// The columns of the list view.
#[derive(Debug, Clone, Copy, PartialEq, Eq, Structural)]
pub enum ListColumnKind {
    Name,
    Kind,
    Modified,
    Size,
    Permissions,
    Accessed,
    Created,
    Owner,
    Group,
}

pub open spec fn shows_filesystem_metadata(column: ListColumnKind) -> bool {
    match column {
        ListColumnKind::Modified | ListColumnKind::Size | ListColumnKind::Permissions
        | ListColumnKind::Accessed | ListColumnKind::Created => true,
        _ => false,
    }
}

pub open spec fn shows_identity_names(column: ListColumnKind) -> bool {
    column == ListColumnKind::Owner || column == ListColumnKind::Group
}

/// What the visible rows of one listing ask for: the filesystem metadata
/// of every entry when the sort needs it, else of the visible ones when a
/// column shows it; owner and group names of the visible ones when a column
/// shows them.
pub open spec fn visible_requirements_spec(
    sort_field: SortField,
    columns: Seq<ListColumnKind>,
    discovery_len: nat,
    visible: Seq<usize>,
) -> (Seq<usize>, Option<Seq<usize>>) {
    let filesystem = if sort_needs_filesystem_metadata(sort_field) {
        Seq::new(discovery_len, |i: int| i as usize)
    } else if exists|k: int| 0 <= k < columns.len() && shows_filesystem_metadata(#[trigger] columns[k]) {
        visible
    } else {
        Seq::empty()
    };
    let identity = if exists|k: int| 0 <= k < columns.len() && shows_identity_names(#[trigger] columns[k]) {
        Some(visible)
    } else {
        None
    };
    (filesystem, identity)
}

/// Owner and group names are asked for exactly when an Owner or a Group
/// column is shown, and then for exactly the rows on screen; either column
/// alone is enough.
pub proof fn lemma_identity_names_follow_owner_and_group_columns(
    sort_field: SortField,
    columns: Seq<ListColumnKind>,
    discovery_len: nat,
    visible: Seq<usize>,
)
    ensures
        columns.contains(ListColumnKind::Owner) ==> visible_requirements_spec(
            sort_field,
            columns,
            discovery_len,
            visible,
        ).1 == Some(visible),
        columns.contains(ListColumnKind::Group) ==> visible_requirements_spec(
            sort_field,
            columns,
            discovery_len,
            visible,
        ).1 == Some(visible),
        !columns.contains(ListColumnKind::Owner) && !columns.contains(ListColumnKind::Group)
            ==> visible_requirements_spec(sort_field, columns, discovery_len, visible).1 is None,
{
    if columns.contains(ListColumnKind::Owner) {
        let k = choose|k: int| 0 <= k < columns.len() && columns[k] == ListColumnKind::Owner;
        assert(shows_identity_names(columns[k]));
    }
    if columns.contains(ListColumnKind::Group) {
        let k = choose|k: int| 0 <= k < columns.len() && columns[k] == ListColumnKind::Group;
        assert(shows_identity_names(columns[k]));
    }
    if !columns.contains(ListColumnKind::Owner) && !columns.contains(ListColumnKind::Group) {
        assert forall|k: int| 0 <= k < columns.len() implies !shows_identity_names(#[trigger] columns[k]) by {
            if columns[k] == ListColumnKind::Owner {
                assert(columns.contains(ListColumnKind::Owner));
            }
            if columns[k] == ListColumnKind::Group {
                assert(columns.contains(ListColumnKind::Group));
            }
        }
    }
}

/// Whether a column shows filesystem metadata: modification, access or
/// creation time, size or permissions.
pub open spec fn has_filesystem_column(columns: Seq<ListColumnKind>) -> bool {
    ||| columns.contains(ListColumnKind::Modified)
    ||| columns.contains(ListColumnKind::Size)
    ||| columns.contains(ListColumnKind::Permissions)
    ||| columns.contains(ListColumnKind::Accessed)
    ||| columns.contains(ListColumnKind::Created)
}

/// A sort by size or modification time needs the filesystem metadata of
/// every discovered entry; otherwise a column showing such metadata needs
/// it for exactly the rows on screen; otherwise none is asked for.
pub proof fn lemma_filesystem_request_follows_sort_and_columns(
    sort_field: SortField,
    columns: Seq<ListColumnKind>,
    discovery_len: nat,
    visible: Seq<usize>,
)
    ensures
        (sort_field == SortField::Size || sort_field == SortField::Modified) && discovery_len <= usize::MAX ==> {
            let all = visible_requirements_spec(sort_field, columns, discovery_len, visible).0;
            &&& all.len() == discovery_len
            &&& forall|i: int| 0 <= i < discovery_len ==> #[trigger] all[i] == i
        },
        sort_field != SortField::Size && sort_field != SortField::Modified && has_filesystem_column(columns)
            ==> visible_requirements_spec(sort_field, columns, discovery_len, visible).0 == visible,
        sort_field != SortField::Size && sort_field != SortField::Modified && !has_filesystem_column(columns)
            ==> visible_requirements_spec(sort_field, columns, discovery_len, visible).0.len() == 0,
{
    if has_filesystem_column(columns) {
        let k = choose|k: int|
            0 <= k < columns.len() && (columns[k] == ListColumnKind::Modified || columns[k] == ListColumnKind::Size
                || columns[k] == ListColumnKind::Permissions || columns[k] == ListColumnKind::Accessed
                || columns[k] == ListColumnKind::Created);
        assert(shows_filesystem_metadata(columns[k]));
    } else {
        assert forall|k: int| 0 <= k < columns.len() implies !shows_filesystem_metadata(#[trigger] columns[k]) by {
            match columns[k] {
                ListColumnKind::Modified => assert(columns.contains(ListColumnKind::Modified)),
                ListColumnKind::Size => assert(columns.contains(ListColumnKind::Size)),
                ListColumnKind::Permissions => assert(columns.contains(ListColumnKind::Permissions)),
                ListColumnKind::Accessed => assert(columns.contains(ListColumnKind::Accessed)),
                ListColumnKind::Created => assert(columns.contains(ListColumnKind::Created)),
                _ => {},
            }
        }
    }
}

/// What the list view asks for the rows it shows: the targets of the
/// filesystem request, and of the names request when one is
/// due, for a listing with `discovery_len` discovered entries of which
/// `visible` are on screen.
pub fn visible_metadata_requirements(
    sort_field: SortField,
    columns: &Vec<ListColumnKind>,
    discovery_len: usize,
    visible: Vec<usize>,
) -> (targets: (Vec<usize>, Option<Vec<usize>>))
    ensures
        targets.0@ == visible_requirements_spec(sort_field, columns@, discovery_len as nat, visible@).0,
        match visible_requirements_spec(sort_field, columns@, discovery_len as nat, visible@).1 {
            Some(t) => targets.1 matches Some(v) && v@ == t,
            None => targets.1 is None,
        },
        columns@.contains(ListColumnKind::Owner) ==> (targets.1 matches Some(v) && v@ == visible@),
        columns@.contains(ListColumnKind::Group) ==> (targets.1 matches Some(v) && v@ == visible@),
        !columns@.contains(ListColumnKind::Owner) && !columns@.contains(ListColumnKind::Group) ==> targets.1 is None,
        sort_field == SortField::Size || sort_field == SortField::Modified ==> targets.0@.len() == discovery_len
            && forall|i: int| 0 <= i < discovery_len ==> #[trigger] targets.0@[i] == i,
        sort_field != SortField::Size && sort_field != SortField::Modified && has_filesystem_column(columns@)
            ==> targets.0@ == visible@,
        sort_field != SortField::Size && sort_field != SortField::Modified && !has_filesystem_column(columns@)
            ==> targets.0@.len() == 0,
{
    proof {
        lemma_identity_names_follow_owner_and_group_columns(sort_field, columns@, discovery_len as nat, visible@);
        lemma_filesystem_request_follows_sort_and_columns(sort_field, columns@, discovery_len as nat, visible@);
    }
    let mut filesystem_visible = false;
    let mut identity_visible = false;
    let mut k: usize = 0;
    while k < columns.len()
        invariant
            k <= columns@.len(),
            filesystem_visible == exists|j: int| 0 <= j < k && shows_filesystem_metadata(#[trigger] columns@[j]),
            identity_visible == exists|j: int| 0 <= j < k && shows_identity_names(#[trigger] columns@[j]),
        decreases columns@.len() - k,
    {
        let column = columns[k];
        let fs = match column {
            ListColumnKind::Modified | ListColumnKind::Size | ListColumnKind::Permissions
            | ListColumnKind::Accessed | ListColumnKind::Created => true,
            _ => false,
        };
        let names = column == ListColumnKind::Owner || column == ListColumnKind::Group;
        proof {
            if fs {
                assert(shows_filesystem_metadata(columns@[k as int]));
            }
            if names {
                assert(shows_identity_names(columns@[k as int]));
            }
        }
        filesystem_visible = filesystem_visible || fs;
        identity_visible = identity_visible || names;
        k = k + 1;
    }
    let filesystem = if sort_field == SortField::Size || sort_field == SortField::Modified {
        let mut all: Vec<usize> = Vec::new();
        let mut i: usize = 0;
        while i < discovery_len
            invariant
                i <= discovery_len,
                all@ == Seq::new(i as nat, |j: int| j as usize),
            decreases discovery_len - i,
        {
            all.push(i);
            assert(all@ =~= Seq::new((i + 1) as nat, |j: int| j as usize));
            i = i + 1;
        }
        all
    } else if filesystem_visible {
        let mut copy: Vec<usize> = Vec::new();
        let mut i: usize = 0;
        while i < visible.len()
            invariant
                i <= visible@.len(),
                copy@ == visible@.take(i as int),
            decreases visible@.len() - i,
        {
            copy.push(visible[i]);
            assert(copy@ =~= visible@.take(i + 1));
            i = i + 1;
        }
        assert(visible@.take(visible@.len() as int) =~= visible@);
        copy
    } else {
        Vec::new()
    };
    let identity = if identity_visible {
        Some(visible)
    } else {
        None
    };
    (filesystem, identity)
}

/// The listing a visible row belongs to: the root when its parent is the
/// pane's directory, else its loaded expanded parent with its discovery.
pub open spec fn visible_entry_context(
    pane_id: BrowserPaneId,
    current_dir: FsPath,
    generation: u64,
    expanded: Seq<ExpandedDirectory>,
    entry: DirectoryEntry,
) -> Option<DirectoryMetadataLoadContext> {
    match crate::paths::parent_spec(entry.path@) {
        None => None,
        Some(parent) => if parent == current_dir@ {
            Some(DirectoryMetadataLoadContext::Root { pane_id, path: current_dir, collection_generation: generation })
        } else {
            match find_expanded(expanded, parent) {
                Some(j) => if expanded[j].status == ExpandedDirectoryStatus::Loaded && (expanded[j].directory_discovery is Some) {
                    Some(
                        DirectoryMetadataLoadContext::Expanded {
                            pane_id,
                            path: expanded[j].path,
                            load_generation: expanded[j].load_generation,
                        },
                    )
                } else {
                    None
                },
                None => None,
            }
        },
    }
}

/// The visible rows counted for `context`: their discovery positions, in
/// screen order.
pub open spec fn visible_targets_of(
    pane_id: BrowserPaneId,
    current_dir: FsPath,
    generation: u64,
    expanded: Seq<ExpandedDirectory>,
    visible: Seq<DirectoryEntry>,
    context: DirectoryMetadataLoadContext,
) -> Seq<usize>
    decreases visible.len(),
{
    if visible.len() == 0 {
        Seq::empty()
    } else {
        let rest = visible_targets_of(pane_id, current_dir, generation, expanded, visible.drop_last(), context);
        let entry = visible.last();
        match entry.discovery_index {
            Some(index) => match visible_entry_context(pane_id, current_dir, generation, expanded, entry) {
                Some(c) => if same_context(c, context) {
                    rest.push(index)
                } else {
                    rest
                },
                None => rest,
            },
            None => rest,
        }
    }
}

fn visible_entry_context_now(
    pane_id: BrowserPaneId,
    current_dir: &FsPath,
    generation: u64,
    expanded: &Vec<ExpandedDirectory>,
    entry: &DirectoryEntry,
) -> (context: Option<DirectoryMetadataLoadContext>)
    ensures
        match visible_entry_context(pane_id, *current_dir, generation, expanded@, *entry) {
            Some(c) => context matches Some(d) && same_context(d, c),
            None => context is None,
        },
{
    let parent = match entry.path.parent() {
        Some(parent) => parent,
        None => return None,
    };
    if parent.same_as(current_dir) {
        return Some(
            DirectoryMetadataLoadContext::Root {
                pane_id,
                path: current_dir.duplicate(),
                collection_generation: generation,
            },
        );
    }
    match find_expanded_directory(expanded, &parent) {
        Some(j) => {
            if expanded[j].status == ExpandedDirectoryStatus::Loaded && expanded[j].directory_discovery.is_some() {
                Some(
                    DirectoryMetadataLoadContext::Expanded {
                        pane_id,
                        path: expanded[j].path.duplicate(),
                        load_generation: expanded[j].load_generation,
                    },
                )
            } else {
                None
            }
        },
        None => None,
    }
}

proof fn lemma_same_context_equivalence(a: DirectoryMetadataLoadContext, b: DirectoryMetadataLoadContext, c: DirectoryMetadataLoadContext)
    ensures
        same_context(a, a),
        same_context(a, b) ==> same_context(b, a),
        same_context(a, b) && same_context(b, c) ==> same_context(a, c),
        same_context(a, b) && !same_context(b, c) ==> !same_context(a, c),
{
}

proof fn lemma_no_visible_targets(
    pane_id: BrowserPaneId,
    current_dir: FsPath,
    generation: u64,
    expanded: Seq<ExpandedDirectory>,
    visible: Seq<DirectoryEntry>,
    context: DirectoryMetadataLoadContext,
)
    requires
        forall|j: int|
            0 <= j < visible.len() ==> match visible_entry_context(
                pane_id,
                current_dir,
                generation,
                expanded,
                #[trigger] visible[j],
            ) {
                Some(c) => !same_context(c, context) || visible[j].discovery_index is None,
                None => true,
            },
    ensures
        visible_targets_of(pane_id, current_dir, generation, expanded, visible, context).len() == 0,
    decreases visible.len(),
{
    if visible.len() > 0 {
        let shorter = visible.drop_last();
        assert forall|j: int| 0 <= j < shorter.len() implies match visible_entry_context(
            pane_id,
            current_dir,
            generation,
            expanded,
            #[trigger] shorter[j],
        ) {
            Some(c) => !same_context(c, context) || shorter[j].discovery_index is None,
            None => true,
        } by {
            assert(shorter[j] == visible[j]);
        }
        lemma_no_visible_targets(pane_id, current_dir, generation, expanded, shorter, context);
        assert(visible[visible.len() - 1] == visible.last());
    }
}

/// The visible row `entry` needs the metadata of `context`'s listing: it has
/// a discovery position and belongs to that listing.
pub open spec fn row_needs(
    pane_id: BrowserPaneId,
    current_dir: FsPath,
    generation: u64,
    expanded: Seq<ExpandedDirectory>,
    entry: DirectoryEntry,
    context: DirectoryMetadataLoadContext,
) -> bool {
    &&& entry.discovery_index is Some
    &&& match visible_entry_context(pane_id, current_dir, generation, expanded, entry) {
        Some(c) => same_context(c, context),
        None => false,
    }
}

/// Some row of `visible` before position `bound` needs `context`'s listing.
pub open spec fn needed_before(
    pane_id: BrowserPaneId,
    current_dir: FsPath,
    generation: u64,
    expanded: Seq<ExpandedDirectory>,
    visible: Seq<DirectoryEntry>,
    bound: int,
    context: DirectoryMetadataLoadContext,
) -> bool {
    exists|j: int| 0 <= j < bound && j < visible.len() && row_needs(pane_id, current_dir, generation, expanded, #[trigger] visible[j], context)
}

/// Each group after the root's is needed by some visible row, and the
/// groups come in the order their first rows appear.
#[verifier::opaque]
pub open spec fn visible_groups_needed(
    groups: Seq<MetadataDemandGroup>,
    pane_id: BrowserPaneId,
    current_dir: FsPath,
    generation: u64,
    expanded: Seq<ExpandedDirectory>,
    visible: Seq<DirectoryEntry>,
) -> bool {
    &&& forall|k: int|
        1 <= k < groups.len() ==> needed_before(
            pane_id,
            current_dir,
            generation,
            expanded,
            visible,
            visible.len() as int,
            #[trigger] groups[k].context,
        )
    &&& forall|k: int, m: int, j: int|
        #![trigger groups[k], row_needs(pane_id, current_dir, generation, expanded, visible[j], groups[m].context)]
        1 <= k < m < groups.len() && 0 <= j < visible.len() && row_needs(
            pane_id,
            current_dir,
            generation,
            expanded,
            visible[j],
            groups[m].context,
        ) ==> needed_before(pane_id, current_dir, generation, expanded, visible, j, groups[k].context)
}

proof fn lemma_needed_before_grows(
    pane_id: BrowserPaneId,
    current_dir: FsPath,
    generation: u64,
    expanded: Seq<ExpandedDirectory>,
    visible: Seq<DirectoryEntry>,
    row: DirectoryEntry,
    bound: int,
    context: DirectoryMetadataLoadContext,
)
    requires
        needed_before(pane_id, current_dir, generation, expanded, visible, bound, context),
    ensures
        needed_before(pane_id, current_dir, generation, expanded, visible.push(row), bound, context),
        bound <= visible.len() ==> needed_before(
            pane_id,
            current_dir,
            generation,
            expanded,
            visible.push(row),
            (visible.len() + 1) as int,
            context,
        ),
{
    let j = choose|j: int| 0 <= j < bound && j < visible.len() && row_needs(pane_id, current_dir, generation, expanded, #[trigger] visible[j], context);
    assert(visible.push(row)[j] == visible[j]);
}

/// A row that needs none of the groups leaves them needed and in order.
proof fn lemma_needed_row_without_group(
    groups: Seq<MetadataDemandGroup>,
    pane_id: BrowserPaneId,
    current_dir: FsPath,
    generation: u64,
    expanded: Seq<ExpandedDirectory>,
    visible: Seq<DirectoryEntry>,
    row: DirectoryEntry,
)
    requires
        visible_groups_needed(groups, pane_id, current_dir, generation, expanded, visible),
        forall|m: int| 0 <= m < groups.len() ==> !row_needs(pane_id, current_dir, generation, expanded, row, #[trigger] groups[m].context),
    ensures
        visible_groups_needed(groups, pane_id, current_dir, generation, expanded, visible.push(row)),
{
    reveal(visible_groups_needed);
    let next = visible.push(row);
    assert forall|k: int| 1 <= k < groups.len() implies needed_before(
        pane_id, current_dir, generation, expanded, next, next.len() as int, #[trigger] groups[k].context) by {
        lemma_needed_before_grows(pane_id, current_dir, generation, expanded, visible, row, visible.len() as int, groups[k].context);
    }
    assert forall|k: int, m: int, j: int|
        #![trigger groups[k], row_needs(pane_id, current_dir, generation, expanded, next[j], groups[m].context)]
        1 <= k < m < groups.len() && 0 <= j < next.len() && row_needs(pane_id, current_dir, generation, expanded, next[j], groups[m].context)
        implies needed_before(pane_id, current_dir, generation, expanded, next, j, groups[k].context) by {
        if j == visible.len() {
            assert(next[j] == row);
            assert(!row_needs(pane_id, current_dir, generation, expanded, row, groups[m].context));
        } else {
            assert(next[j] == visible[j]);
            assert(groups[k] == groups[k]);
            lemma_needed_before_grows(pane_id, current_dir, generation, expanded, visible, row, j, groups[k].context);
        }
    }
}

/// A row that needs group `f` (with the groups' contexts unchanged) leaves
/// them needed and in order.
proof fn lemma_needed_row_in_group(
    groups: Seq<MetadataDemandGroup>,
    next_groups: Seq<MetadataDemandGroup>,
    pane_id: BrowserPaneId,
    current_dir: FsPath,
    generation: u64,
    expanded: Seq<ExpandedDirectory>,
    visible: Seq<DirectoryEntry>,
    row: DirectoryEntry,
    f: int,
)
    requires
        visible_groups_needed(groups, pane_id, current_dir, generation, expanded, visible),
        next_groups.len() == groups.len(),
        forall|m: int| 0 <= m < groups.len() ==> (#[trigger] next_groups[m]).context == groups[m].context,
        forall|a: int, b: int| 0 <= a < b < groups.len() ==> !same_context(#[trigger] groups[a].context, #[trigger] groups[b].context),
        0 <= f < groups.len(),
        row_needs(pane_id, current_dir, generation, expanded, row, groups[f].context),
    ensures
        visible_groups_needed(next_groups, pane_id, current_dir, generation, expanded, visible.push(row)),
{
    reveal(visible_groups_needed);
    let next = visible.push(row);
    assert forall|k: int| 1 <= k < next_groups.len() implies needed_before(
        pane_id, current_dir, generation, expanded, next, next.len() as int, #[trigger] next_groups[k].context) by {
        assert(next_groups[k].context == groups[k].context);
        lemma_needed_before_grows(pane_id, current_dir, generation, expanded, visible, row, visible.len() as int, groups[k].context);
    }
    assert forall|k: int, m: int, j: int|
        #![trigger next_groups[k], row_needs(pane_id, current_dir, generation, expanded, next[j], next_groups[m].context)]
        1 <= k < m < next_groups.len() && 0 <= j < next.len() && row_needs(pane_id, current_dir, generation, expanded, next[j], next_groups[m].context)
        implies needed_before(pane_id, current_dir, generation, expanded, next, j, next_groups[k].context) by {
        assert(next_groups[k].context == groups[k].context);
        assert(next_groups[m].context == groups[m].context);
        if j == visible.len() {
            assert(next[j] == row);
            let c = visible_entry_context(pane_id, current_dir, generation, expanded, row)->0;
            lemma_same_context_equivalence(c, groups[m].context, groups[f].context);
            lemma_same_context_equivalence(groups[m].context, c, groups[f].context);
            if m != f {
                if m < f {
                    assert(!same_context(groups[m].context, groups[f].context));
                } else {
                    assert(!same_context(groups[f].context, groups[m].context));
                    lemma_same_context_equivalence(groups[f].context, groups[m].context, c);
                }
            }
            assert(m == f);
            assert(groups[m] == groups[m]);
            let j0 = choose|j0: int| 0 <= j0 < visible.len() as int && j0 < visible.len() && row_needs(
                pane_id, current_dir, generation, expanded, #[trigger] visible[j0], groups[m].context);
            assert(groups[k] == groups[k]);
            assert(row_needs(pane_id, current_dir, generation, expanded, visible[j0], groups[m].context));
            lemma_needed_before_grows(pane_id, current_dir, generation, expanded, visible, row, j0, groups[k].context);
            let j2 = choose|j2: int| 0 <= j2 < j0 && j2 < next.len() && row_needs(
                pane_id, current_dir, generation, expanded, #[trigger] next[j2], groups[k].context);
            assert(0 <= j2 < j && j2 < next.len());
        } else {
            assert(next[j] == visible[j]);
            assert(groups[k] == groups[k]);
            assert(row_needs(pane_id, current_dir, generation, expanded, visible[j], groups[m].context));
            lemma_needed_before_grows(pane_id, current_dir, generation, expanded, visible, row, j, groups[k].context);
        }
    }
}

/// A row that opens a new last group, needed by no earlier row, leaves the
/// groups needed and in order.
proof fn lemma_needed_row_opens_group(
    groups: Seq<MetadataDemandGroup>,
    group: MetadataDemandGroup,
    pane_id: BrowserPaneId,
    current_dir: FsPath,
    generation: u64,
    expanded: Seq<ExpandedDirectory>,
    visible: Seq<DirectoryEntry>,
    row: DirectoryEntry,
)
    requires
        visible_groups_needed(groups, pane_id, current_dir, generation, expanded, visible),
        forall|a: int, b: int| 0 <= a < b < groups.push(group).len() ==> !same_context(
            #[trigger] groups.push(group)[a].context,
            #[trigger] groups.push(group)[b].context,
        ),
        row_needs(pane_id, current_dir, generation, expanded, row, group.context),
        forall|j: int| 0 <= j < visible.len() ==> !row_needs(pane_id, current_dir, generation, expanded, #[trigger] visible[j], group.context),
    ensures
        visible_groups_needed(groups.push(group), pane_id, current_dir, generation, expanded, visible.push(row)),
{
    reveal(visible_groups_needed);
    let next = visible.push(row);
    let gs = groups.push(group);
    let n = groups.len() as int;
    assert forall|k: int| 1 <= k < gs.len() implies needed_before(
        pane_id, current_dir, generation, expanded, next, next.len() as int, #[trigger] gs[k].context) by {
        if k == n {
            assert(next[visible.len() as int] == row);
        } else {
            assert(gs[k] == groups[k]);
            lemma_needed_before_grows(pane_id, current_dir, generation, expanded, visible, row, visible.len() as int, groups[k].context);
        }
    }
    assert forall|k: int, m: int, j: int|
        #![trigger gs[k], row_needs(pane_id, current_dir, generation, expanded, next[j], gs[m].context)]
        1 <= k < m < gs.len() && 0 <= j < next.len() && row_needs(pane_id, current_dir, generation, expanded, next[j], gs[m].context)
        implies needed_before(pane_id, current_dir, generation, expanded, next, j, gs[k].context) by {
        assert(gs[k] == groups[k]);
        if m == n {
            if j < visible.len() {
                assert(next[j] == visible[j]);
            }
            assert(j == visible.len());
            lemma_needed_before_grows(pane_id, current_dir, generation, expanded, visible, row, visible.len() as int, groups[k].context);
        } else {
            assert(gs[m] == groups[m]);
            if j == visible.len() {
                assert(next[j] == row);
                let c = visible_entry_context(pane_id, current_dir, generation, expanded, row)->0;
                lemma_same_context_equivalence(c, groups[m].context, group.context);
                lemma_same_context_equivalence(groups[m].context, c, group.context);
                assert(!same_context(gs[m].context, gs[n].context));
            }
            assert(next[j] == visible[j]);
            assert(row_needs(pane_id, current_dir, generation, expanded, visible[j], groups[m].context));
            lemma_needed_before_grows(pane_id, current_dir, generation, expanded, visible, row, j, groups[k].context);
        }
    }
}

/// The groups of the visible rows: the root listing first (also without
/// visible rows), then each expanded listing that some visible row needs,
/// in the order its first row appears.
pub open spec fn visible_groups_ok(
    groups: Seq<MetadataDemandGroup>,
    pane_id: BrowserPaneId,
    current_dir: FsPath,
    generation: u64,
    expanded: Seq<ExpandedDirectory>,
    visible: Seq<DirectoryEntry>,
) -> bool {
    &&& groups.len() > 0
    &&& same_context(
        groups[0].context,
        DirectoryMetadataLoadContext::Root { pane_id, path: current_dir, collection_generation: generation },
    )
    &&& forall|k: int, m: int|
        0 <= k < m < groups.len() ==> !same_context(#[trigger] groups[k].context, #[trigger] groups[m].context)
    &&& forall|k: int|
        0 <= k < groups.len() ==> (#[trigger] groups[k]).targets@ == visible_targets_of(
            pane_id,
            current_dir,
            generation,
            expanded,
            visible,
            groups[k].context,
        )
    &&& forall|j: int|
        0 <= j < visible.len() && (#[trigger] visible[j]).discovery_index is Some ==> match visible_entry_context(
            pane_id,
            current_dir,
            generation,
            expanded,
            visible[j],
        ) {
            Some(c) => exists|k: int| 0 <= k < groups.len() && same_context(#[trigger] groups[k].context, c),
            None => true,
        }
    &&& visible_groups_needed(groups, pane_id, current_dir, generation, expanded, visible)
}

/// The list view's rows on screen (`visible`, as the list view's geometry finds them) grouped by
/// the listing whose metadata they need.
#[verifier::rlimit(60)]
pub fn group_visible_entries(
    pane_id: BrowserPaneId,
    current_dir: &FsPath,
    generation: u64,
    expanded: &Vec<ExpandedDirectory>,
    visible: &Vec<DirectoryEntry>,
) -> (groups: Vec<MetadataDemandGroup>)
    ensures
        visible_groups_ok(groups@, pane_id, *current_dir, generation, expanded@, visible@),
{
    let mut groups: Vec<MetadataDemandGroup> = Vec::new();
    groups.push(
        MetadataDemandGroup {
            context: DirectoryMetadataLoadContext::Root {
                pane_id,
                path: current_dir.duplicate(),
                collection_generation: generation,
            },
            targets: Vec::new(),
        },
    );
    let ghost root = DirectoryMetadataLoadContext::Root {
        pane_id,
        path: *current_dir,
        collection_generation: generation,
    };
    proof {
        lemma_no_visible_targets(pane_id, *current_dir, generation, expanded@, visible@.take(0), groups@[0].context);
        reveal(visible_groups_needed);
    }
    let mut i: usize = 0;
    while i < visible.len()
        invariant
            i <= visible@.len(),
            visible_groups_ok(groups@, pane_id, *current_dir, generation, expanded@, visible@.take(i as int)),
        decreases visible@.len() - i,
    {
        let ghost before = groups@;
        let ghost prefix = visible@.take(i + 1);
        assert(prefix.drop_last() =~= visible@.take(i as int));
        assert(prefix.last() == visible@[i as int]);
        let entry = &visible[i];
        let context = visible_entry_context_now(pane_id, current_dir, generation, expanded, entry);
        match (entry.discovery_index, context) {
            (Some(index), Some(context)) => {
                let mut k: usize = 0;
                let mut found: Option<usize> = None;
                while k < groups.len()
                    invariant
                        k <= groups@.len(),
                        groups@ == before,
                        found matches Some(f) ==> f < k && same_context(groups@[f as int].context, context),
                        found is None ==> forall|m: int| 0 <= m < k ==> !same_context(#[trigger] groups@[m].context, context),
                    decreases groups@.len() - k,
                {
                    if found.is_none() && same_context_now(&groups[k].context, &context) {
                        found = Some(k);
                    }
                    k = k + 1;
                }
                match found {
                    Some(f) => {
                        let mut group = groups.remove(f);
                        group.targets.push(index);
                        groups.insert(f, group);
                        proof {
                            let c = visible_entry_context(pane_id, *current_dir, generation, expanded@, visible@[i as int])->0;
                            assert forall|m: int| 0 <= m < groups@.len() implies (#[trigger] groups@[m]).targets@
                                == visible_targets_of(pane_id, *current_dir, generation, expanded@, prefix, groups@[m].context) by {
                                lemma_same_context_equivalence(c, context, groups@[m].context);
                                lemma_same_context_equivalence(context, groups@[f as int].context, groups@[m].context);
                                lemma_same_context_equivalence(c, context, before[f as int].context);
                                if m != f as int {
                                    assert(groups@[m] == before[m]);
                                    if same_context(c, groups@[m].context) {
                                        lemma_same_context_equivalence(groups@[m].context, c, context);
                                        lemma_same_context_equivalence(before[f as int].context, context, groups@[m].context);
                                        if (m < f as int) {
                                            assert(!same_context(before[m].context, before[f as int].context));
                                        } else {
                                            assert(!same_context(before[f as int].context, before[m].context));
                                        }
                                    }
                                }
                            }
                            assert forall|a: int, b: int| 0 <= a < b < groups@.len() implies !same_context(
                                #[trigger] groups@[a].context,
                                #[trigger] groups@[b].context,
                            ) by {
                                assert(groups@[a].context == before[a].context);
                                assert(groups@[b].context == before[b].context);
                            }
                            assert forall|j: int|
                                0 <= j < prefix.len() && (#[trigger] prefix[j]).discovery_index is Some implies match visible_entry_context(
                                pane_id,
                                *current_dir,
                                generation,
                                expanded@,
                                prefix[j],
                            ) {
                                Some(cc) => exists|k: int| 0 <= k < groups@.len() && same_context(#[trigger] groups@[k].context, cc),
                                None => true,
                            } by {
                                if j < i {
                                    assert(prefix[j] == visible@.take(i as int)[j]);
                                    if let Some(cc) = visible_entry_context(pane_id, *current_dir, generation, expanded@, prefix[j]) {
                                        let k = choose|k: int| 0 <= k < before.len() && same_context(#[trigger] before[k].context, cc);
                                        assert(groups@[k].context == before[k].context);
                                    }
                                } else {
                                    lemma_same_context_equivalence(groups@[f as int].context, context, c);
                                    lemma_same_context_equivalence(context, c, c);
                                }
                            }
                            lemma_same_context_equivalence(c, context, before[f as int].context);
                            lemma_same_context_equivalence(context, before[f as int].context, c);
                            assert(visible@.take(i as int).push(visible@[i as int]) =~= prefix);
                            lemma_needed_row_in_group(
                                before,
                                groups@,
                                pane_id,
                                *current_dir,
                                generation,
                                expanded@,
                                visible@.take(i as int),
                                visible@[i as int],
                                f as int,
                            );
                        }
                    },
                    None => {
                        let mut targets: Vec<usize> = Vec::new();
                        targets.push(index);
                        groups.push(MetadataDemandGroup { context, targets });
                        proof {
                            let c = visible_entry_context(pane_id, *current_dir, generation, expanded@, visible@[i as int])->0;
                            let new_context = groups@.last().context;
                            assert(new_context == context);
                            lemma_same_context_equivalence(c, context, c);
                            assert forall|j: int|
                                0 <= j < i implies match visible_entry_context(
                                pane_id,
                                *current_dir,
                                generation,
                                expanded@,
                                #[trigger] visible@.take(i as int)[j],
                            ) {
                                Some(cc) => !same_context(cc, context) || visible@.take(i as int)[j].discovery_index is None,
                                None => true,
                            } by {
                                if let Some(cc) = visible_entry_context(pane_id, *current_dir, generation, expanded@, visible@.take(i as int)[j]) {
                                    if visible@.take(i as int)[j].discovery_index is Some && same_context(cc, context) {
                                        let k = choose|k: int| 0 <= k < before.len() && same_context(#[trigger] before[k].context, cc);
                                        lemma_same_context_equivalence(before[k].context, cc, context);
                                    }
                                }
                            }
                            lemma_no_visible_targets(pane_id, *current_dir, generation, expanded@, visible@.take(i as int), context);
                            assert forall|m: int| 0 <= m < groups@.len() implies (#[trigger] groups@[m]).targets@
                                == visible_targets_of(pane_id, *current_dir, generation, expanded@, prefix, groups@[m].context) by {
                                if m < before.len() {
                                    assert(groups@[m] == before[m]);
                                    lemma_same_context_equivalence(c, context, before[m].context);
                                    lemma_same_context_equivalence(before[m].context, context, c);
                                } else {
                                    assert(groups@[m].targets@ =~= seq![index]);
                                }
                            }
                            assert forall|a: int, b: int| 0 <= a < b < groups@.len() implies !same_context(
                                #[trigger] groups@[a].context,
                                #[trigger] groups@[b].context,
                            ) by {
                                if b == before.len() {
                                    assert(groups@[a] == before[a]);
                                } else {
                                    assert(groups@[a] == before[a]);
                                    assert(groups@[b] == before[b]);
                                }
                            }
                            assert forall|j: int|
                                0 <= j < prefix.len() && (#[trigger] prefix[j]).discovery_index is Some implies match visible_entry_context(
                                pane_id,
                                *current_dir,
                                generation,
                                expanded@,
                                prefix[j],
                            ) {
                                Some(cc) => exists|k: int| 0 <= k < groups@.len() && same_context(#[trigger] groups@[k].context, cc),
                                None => true,
                            } by {
                                if j < i {
                                    assert(prefix[j] == visible@.take(i as int)[j]);
                                    if let Some(cc) = visible_entry_context(pane_id, *current_dir, generation, expanded@, prefix[j]) {
                                        let k = choose|k: int| 0 <= k < before.len() && same_context(#[trigger] before[k].context, cc);
                                        assert(groups@[k] == before[k]);
                                    }
                                } else {
                                    assert(same_context(groups@[before.len() as int].context, c));
                                }
                            }
                            assert(groups@ =~= before.push(groups@.last()));
                            assert(visible@.take(i as int).push(visible@[i as int]) =~= prefix);
                            assert forall|j: int| 0 <= j < visible@.take(i as int).len() implies !row_needs(
                                pane_id,
                                *current_dir,
                                generation,
                                expanded@,
                                #[trigger] visible@.take(i as int)[j],
                                groups@.last().context,
                            ) by {}
                            lemma_needed_row_opens_group(
                                before,
                                groups@.last(),
                                pane_id,
                                *current_dir,
                                generation,
                                expanded@,
                                visible@.take(i as int),
                                visible@[i as int],
                            );
                        }
                    },
                }
            },
            _ => {
                proof {
                    assert forall|m: int| 0 <= m < groups@.len() implies (#[trigger] groups@[m]).targets@
                        == visible_targets_of(pane_id, *current_dir, generation, expanded@, prefix, groups@[m].context) by {}
                    assert forall|j: int|
                        0 <= j < prefix.len() && (#[trigger] prefix[j]).discovery_index is Some implies match visible_entry_context(
                        pane_id,
                        *current_dir,
                        generation,
                        expanded@,
                        prefix[j],
                    ) {
                        Some(cc) => exists|k: int| 0 <= k < groups@.len() && same_context(#[trigger] groups@[k].context, cc),
                        None => true,
                    } by {
                        if j < i {
                            assert(prefix[j] == visible@.take(i as int)[j]);
                        }
                    }
                    assert(visible@.take(i as int).push(visible@[i as int]) =~= prefix);
                    lemma_needed_row_without_group(
                        groups@,
                        pane_id,
                        *current_dir,
                        generation,
                        expanded@,
                        visible@.take(i as int),
                        visible@[i as int],
                    );
                }
            },
        }
        i = i + 1;
    }
    assert(visible@.take(visible@.len() as int) =~= visible@);
    groups
}

// ---------------------------------------------------------------------------
// Laws
// ---------------------------------------------------------------------------

/// The listing of `context` exists in its pane and has its discovery.
pub open spec fn listing_has_discovery(browser: FileBrowser, context: DirectoryMetadataLoadContext) -> bool {
    match context {
        DirectoryMetadataLoadContext::Root { pane_id, .. } => if pane_id == browser.active_pane_id {
            browser.directory_discovery is Some
        } else {
            match find_pane_from(browser.panes@, pane_id, 0) {
                Some(i) => browser.panes@[i].directory_discovery is Some,
                None => false,
            }
        },
        DirectoryMetadataLoadContext::Expanded { pane_id, path, .. } => match pane_expanded(
            browser,
            pane_id,
        ) {
            Some(directories) => match find_expanded(directories, path@) {
                Some(j) => directories[j].directory_discovery is Some,
                None => false,
            },
            None => false,
        },
    }
}

proof fn lemma_find_pane_same_ids(a: Seq<BrowserPane>, b: Seq<BrowserPane>, id: BrowserPaneId, from: int)
    requires
        a.len() == b.len(),
        forall|k: int| 0 <= k < a.len() ==> #[trigger] a[k].id == b[k].id,
    ensures
        find_pane_from(a, id, from) == find_pane_from(b, id, from),
    decreases a.len() - from,
{
    if 0 <= from < a.len() && a[from].id != id {
        lemma_find_pane_same_ids(a, b, id, from + 1);
    }
}

/// Once a listing waits for the metadata of load `generation`, exactly the
/// reply to that load completes its sort, in the order the browser sorted by
/// when the load was sent; a reply to any other load leaves it waiting.
pub proof fn lemma_waiting_listing_completes_with_its_own_load(
    before: FileBrowser,
    after: FileBrowser,
    context: DirectoryMetadataLoadContext,
    generation: u64,
    reply: u64,
)
    requires
        order_waiting_outcome(before, after, context, generation),
        listing_has_discovery(before, context),
    ensures
        sort_order_to_commit(after, context, reply) == if reply == generation {
            Some((before.sort_field, before.sort_direction))
        } else {
            None
        },
{
    match context {
        DirectoryMetadataLoadContext::Root { pane_id, .. } => {
            if pane_id != before.active_pane_id {
                crate::panes::lemma_find_pane_from(before.panes@, pane_id, 0);
                assert forall|k: int| 0 <= k < before.panes@.len() implies #[trigger] before.panes@[k].id
                    == after.panes@[k].id by {}
                lemma_find_pane_same_ids(before.panes@, after.panes@, pane_id, 0);
            }
        },
        DirectoryMetadataLoadContext::Expanded { pane_id, path, .. } => {
            if pane_id == before.active_pane_id {
                crate::panes::lemma_find_expanded_from(before.expanded_directories@, path@, 0);
                assert forall|k: int| 0 <= k < before.expanded_directories@.len() implies #[trigger] before.expanded_directories@[k].path@
                    == after.expanded_directories@[k].path@ by {}
                crate::panes::lemma_find_expanded_same_paths(
                    before.expanded_directories@,
                    after.expanded_directories@,
                    path@,
                    0,
                );
            } else {
                let i = find_pane_from(before.panes@, pane_id, 0)->0;
                crate::panes::lemma_find_pane_from(before.panes@, pane_id, 0);
                assert forall|k: int| 0 <= k < before.panes@.len() implies #[trigger] before.panes@[k].id
                    == after.panes@[k].id by {}
                lemma_find_pane_same_ids(before.panes@, after.panes@, pane_id, 0);
                let before_dirs = before.panes@[i].expanded_directories@;
                let after_dirs = after.panes@[i].expanded_directories@;
                crate::panes::lemma_find_expanded_from(before_dirs, path@, 0);
                assert forall|k: int| 0 <= k < before_dirs.len() implies #[trigger] before_dirs[k].path@
                    == after_dirs[k].path@ by {}
                crate::panes::lemma_find_expanded_same_paths(before_dirs, after_dirs, path@, 0);
            }
        },
    }
}

proof fn lemma_accepted_below_contains(
    keys: Seq<DirectoryMetadataDemandKey>,
    context: DirectoryMetadataLoadContext,
    requirement: DirectoryMetadataRequirement,
    pending: Seq<bool>,
    targets: Seq<usize>,
    n: int,
    i: int,
)
    requires
        0 <= i < n,
        demand_accepted(keys, context, requirement, pending, targets, i),
    ensures
        accepted_below(keys, context, requirement, pending, targets, n).contains(i as usize),
    decreases n,
{
    let rest = accepted_below(keys, context, requirement, pending, targets, n - 1);
    if i == n - 1 {
        assert(accepted_below(keys, context, requirement, pending, targets, n).last() == i as usize);
    } else {
        lemma_accepted_below_contains(keys, context, requirement, pending, targets, n - 1, i);
        let k = choose|k: int| 0 <= k < rest.len() && rest[k] == i as usize;
        assert(accepted_below(keys, context, requirement, pending, targets, n)[k] == i as usize);
    }
}

proof fn lemma_nothing_accepted_below(
    keys: Seq<DirectoryMetadataDemandKey>,
    context: DirectoryMetadataLoadContext,
    requirement: DirectoryMetadataRequirement,
    pending: Seq<bool>,
    targets: Seq<usize>,
    n: int,
)
    requires
        forall|i: int| 0 <= i < n ==> !#[trigger] demand_accepted(keys, context, requirement, pending, targets, i),
    ensures
        accepted_below(keys, context, requirement, pending, targets, n).len() == 0,
    decreases n,
{
    if n > 0 {
        lemma_nothing_accepted_below(keys, context, requirement, pending, targets, n - 1);
    }
}

/// Scheduling the same demands again right away requests nothing: every
/// entry a schedule asked for is in flight afterwards, so a demand is never
/// sent twice while its reply is outstanding.
pub proof fn lemma_rescheduling_requests_nothing(
    before: FileBrowser,
    middle: FileBrowser,
    after: FileBrowser,
    context: DirectoryMetadataLoadContext,
    pending: Seq<bool>,
    requirement: DirectoryMetadataRequirement,
    targets: Seq<usize>,
    first: Option<DirectoryMetadataLoadRequest>,
    second: Option<DirectoryMetadataLoadRequest>,
)
    requires
        requirement_scheduled(before, middle, context, pending, requirement, targets, first),
        requirement_scheduled(middle, after, context, pending, requirement, targets, second),
    ensures
        second is None,
        after == middle,
{
    let old_keys = before.directory_metadata_in_flight@;
    let keys = middle.directory_metadata_in_flight@;
    let accepted = accepted_below(old_keys, context, requirement, pending, targets, pending.len() as int);
    assert forall|i: int| 0 <= i < pending.len() implies !#[trigger] demand_accepted(
        keys,
        context,
        requirement,
        pending,
        targets,
        i,
    ) by {
        if pending[i] && targets.contains(i as usize) {
            if demand_accepted(old_keys, context, requirement, pending, targets, i) {
                lemma_accepted_below_contains(
                    old_keys,
                    context,
                    requirement,
                    pending,
                    targets,
                    pending.len() as int,
                    i,
                );
                let k = choose|k: int| 0 <= k < accepted.len() && accepted[k] == i as usize;
                let added = keys.skip(old_keys.len() as int);
                let j = old_keys.len() + k;
                assert(added[k] == keys[j]);
                assert(same_context(added[k].context, context) && added[k].requirement == requirement
                    && added[k].index == accepted[k]);
                assert(keys[j].requirement == requirement && keys[j].index == i as usize && same_context(
                    keys[j].context,
                    context,
                ));
                assert(demand_in_flight(keys, context, requirement, i as usize));
            } else {
                assert(demand_in_flight(old_keys, context, requirement, i as usize));
                let j = choose|j: int|
                    0 <= j < old_keys.len() && #[trigger] old_keys[j].requirement == requirement
                        && old_keys[j].index == i as usize && same_context(old_keys[j].context, context);
                if accepted.len() > 0 {
                    assert(keys.take(old_keys.len() as int)[j] == keys[j]);
                }
                assert(keys[j] == old_keys[j]);
                assert(keys[j].requirement == requirement && keys[j].index == i as usize && same_context(
                    keys[j].context,
                    context,
                ));
                assert(demand_in_flight(keys, context, requirement, i as usize));
            }
        }
    }
    lemma_nothing_accepted_below(keys, context, requirement, pending, targets, pending.len() as int);
}

// ---------------------------------------------------------------------------
// Rescheduling when a selection changes
// ---------------------------------------------------------------------------

/// The selections the selection metadata depends on: the active pane's,
/// then each pane's, each as a set of paths.
pub open spec fn selection_sets(browser: FileBrowser) -> Seq<Set<PathModel>> {
    seq![path_views(browser.selected_paths@).to_set()] + browser.panes@.map_values(
        |pane: BrowserPane| path_views(pane.selected_paths@).to_set(),
    )
}

pub open spec fn snapshot_sets(snapshot: Seq<Vec<FsPath>>) -> Seq<Set<PathModel>> {
    snapshot.map_values(|paths: Vec<FsPath>| path_views(paths@).to_set())
}

fn same_path_set(a: &Vec<FsPath>, b: &Vec<FsPath>) -> (same: bool)
    ensures
        same == (path_views(a@).to_set() == path_views(b@).to_set()),
{
    let mut i: usize = 0;
    while i < a.len()
        invariant
            i <= a@.len(),
            forall|j: int| 0 <= j < i ==> path_views(b@).contains(#[trigger] a@[j]@),
        decreases a@.len() - i,
    {
        if !contains_path(b, &a[i]) {
            proof {
                assert(path_views(a@)[i as int] == a@[i as int]@);
                assert(path_views(a@).to_set().contains(a@[i as int]@));
            }
            return false;
        }
        i = i + 1;
    }
    let mut k: usize = 0;
    while k < b.len()
        invariant
            k <= b@.len(),
            forall|j: int| 0 <= j < a@.len() ==> path_views(b@).contains(#[trigger] a@[j]@),
            forall|j: int| 0 <= j < k ==> path_views(a@).contains(#[trigger] b@[j]@),
        decreases b@.len() - k,
    {
        if !contains_path(a, &b[k]) {
            proof {
                assert(path_views(b@)[k as int] == b@[k as int]@);
                assert(path_views(b@).to_set().contains(b@[k as int]@));
            }
            return false;
        }
        k = k + 1;
    }
    proof {
        assert forall|x: PathModel| path_views(a@).to_set().contains(x) implies path_views(b@).to_set().contains(x) by {
            let j = choose|j: int| 0 <= j < path_views(a@).len() && path_views(a@)[j] == x;
            assert(a@[j]@ == x);
        }
        assert forall|x: PathModel| path_views(b@).to_set().contains(x) implies path_views(a@).to_set().contains(x) by {
            let j = choose|j: int| 0 <= j < path_views(b@).len() && path_views(b@)[j] == x;
            assert(b@[j]@ == x);
        }
        assert(path_views(a@).to_set() =~= path_views(b@).to_set());
    }
    true
}

impl FileBrowser {
    fn selection_snapshot(&self) -> (snapshot: Vec<Vec<FsPath>>)
        ensures
            snapshot_sets(snapshot@) == selection_sets(*self),
    {
        let mut snapshot: Vec<Vec<FsPath>> = Vec::new();
        snapshot.push(crate::clipboard::duplicate_paths(&self.selected_paths));
        let mut i: usize = 0;
        while i < self.panes.len()
            invariant
                i <= self.panes@.len(),
                snapshot@.len() == i + 1,
                path_views(snapshot@[0]@) == path_views(self.selected_paths@),
                forall|j: int| 0 <= j < i ==> path_views((#[trigger] snapshot@[j + 1])@) == path_views(
                    self.panes@[j].selected_paths@,
                ),
            decreases self.panes@.len() - i,
        {
            snapshot.push(crate::clipboard::duplicate_paths(&self.panes[i].selected_paths));
            i = i + 1;
        }
        assert(snapshot_sets(snapshot@) =~= selection_sets(*self)) by {
            assert forall|j: int| 0 <= j < snapshot@.len() implies #[trigger] snapshot_sets(snapshot@)[j]
                == selection_sets(*self)[j] by {
                if j > 0 {
                    assert(path_views(snapshot@[(j - 1) + 1]@) == path_views(self.panes@[j - 1].selected_paths@));
                }
            }
        }
        snapshot
    }

    /// `schedule_selected_metadata_if_selection_changed`: when some pane's
    /// selection differs (as a set of paths) from the one last scheduled
    /// for, remembers the selections and schedules each pane's selection
    /// metadata, pane by pane; otherwise does nothing.
    pub fn schedule_selected_metadata_if_selection_changed(&mut self) -> (scheduled: Vec<(BrowserPaneId, Vec<MetadataDemandGroup>)>)
        ensures
            (old(self).selection_metadata_snapshot matches Some(previous) && snapshot_sets(previous@)
                == selection_sets(*old(self))) ==> *final(self) == *old(self) && scheduled@.len() == 0,
            !(old(self).selection_metadata_snapshot matches Some(previous) && snapshot_sets(previous@)
                == selection_sets(*old(self))) ==> {
                &&& final(self).selection_metadata_snapshot matches Some(next) && snapshot_sets(next@)
                    == selection_sets(*old(self))
                &&& *final(self) == (FileBrowser {
                    selection_metadata_snapshot: final(self).selection_metadata_snapshot,
                    ..*old(self)
                })
                &&& scheduled@.len() == old(self).panes@.len()
                &&& forall|i: int|
                    0 <= i < scheduled@.len() ==> (#[trigger] scheduled@[i]).0 == old(self).panes@[i].id
                        && groups_match(scheduled@[i].1@, pane_demand_groups(*old(self), old(self).panes@[i].id))
            },
            old(self).collections_well_formed() ==> final(self).collections_well_formed(),
    {
        let snapshot = self.selection_snapshot();
        let unchanged = match &self.selection_metadata_snapshot {
            Some(previous) => {
                if previous.len() != snapshot.len() {
                    assert(snapshot_sets(previous@).len() != snapshot_sets(snapshot@).len());
                    false
                } else {
                    let mut same = true;
                    let mut i: usize = 0;
                    while i < snapshot.len()
                        invariant
                            i <= snapshot@.len(),
                            previous@.len() == snapshot@.len(),
                            same == forall|j: int| 0 <= j < i ==> #[trigger] snapshot_sets(previous@)[j]
                                == snapshot_sets(snapshot@)[j],
                        decreases snapshot@.len() - i,
                    {
                        let equal = same_path_set(&previous[i], &snapshot[i]);
                        proof {
                            assert(snapshot_sets(previous@)[i as int] == path_views(previous@[i as int]@).to_set());
                            assert(snapshot_sets(snapshot@)[i as int] == path_views(snapshot@[i as int]@).to_set());
                        }
                        same = same && equal;
                        i = i + 1;
                    }
                    proof {
                        if same {
                            assert(snapshot_sets(previous@) =~= snapshot_sets(snapshot@));
                        } else {
                            let j = choose|j: int| 0 <= j < snapshot@.len() && snapshot_sets(previous@)[j]
                                != snapshot_sets(snapshot@)[j];
                            assert(snapshot_sets(previous@)[j] != snapshot_sets(snapshot@)[j]);
                        }
                    }
                    same
                }
            },
            None => false,
        };
        if unchanged {
            return Vec::new();
        }
        let ghost before = *self;
        let mut scheduled: Vec<(BrowserPaneId, Vec<MetadataDemandGroup>)> = Vec::new();
        let mut i: usize = 0;
        while i < self.panes.len()
            invariant
                *self == before,
                i <= self.panes@.len(),
                scheduled@.len() == i,
                forall|j: int|
                    0 <= j < i ==> (#[trigger] scheduled@[j]).0 == before.panes@[j].id && groups_match(
                        scheduled@[j].1@,
                        pane_demand_groups(before, before.panes@[j].id),
                    ),
            decreases self.panes@.len() - i,
        {
            let pane_id = self.panes[i].id;
            let groups = self.schedule_selected_directory_metadata(pane_id);
            scheduled.push((pane_id, groups));
            i = i + 1;
        }
        self.selection_metadata_snapshot = Some(snapshot);
        scheduled
    }
}

} // verus!
