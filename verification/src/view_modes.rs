//! The list view's expanded directories: their open and close animation,
//! and the plan that re-opens, one load at a time, the chain of directories
//! leading to a selection when the browser switches into the list view.

use vstd::prelude::*;
use crate::browser::{DirectoryEntry, FileBrowser, FileKind};
use crate::config::{BrowserViewMode, SortDirection, SortField};
use crate::panes::{
    BrowserPane, BrowserPaneId, DirectoryOrderPhase, ExpandedDirectory, ExpandedDirectoryStatus,
    expanded_paths, find_expanded, find_expanded_directory, lemma_push_new_path_keeps_paths_distinct,
    lemma_remove_at_keeps_paths_distinct, lemma_same_paths, pane_collections_well_formed,
};
use crate::naming::{contains_path, path_views};
use crate::paths::{FsPath, PathModel, parent_spec, starts_with_spec};

verus! {

/// One animation step, in thousandths of the full open height.
pub const LIST_DIRECTORY_ANIMATION_STEP: u32 = 180;

/// The full open height, in thousandths.
pub const LIST_DIRECTORY_FULLY_OPEN: u32 = 1000;

/// What a load of an expanded directory was started for.
#[derive(Debug, Clone, PartialEq, Eq)]
pub enum DirectoryExpansionLoadContext {
    /// An ordinary expansion in a pane's tree.
    BrowserTree { pane_id: BrowserPaneId },
    /// One link of a list-view follow plan.
    ListFollow { pane_id: BrowserPaneId, tab_id: usize, current_dir: FsPath, session_id: u64 },
}

#[derive(Debug, Clone, PartialEq, Eq)]
pub struct ExpandedDirectoryLoadRequest {
    pub context: DirectoryExpansionLoadContext,
    pub path: FsPath,
    pub generation: u64,
}

/// Re-opening the chain of directories to `target_selection` in the list
/// view: `waiting_for` is loading, `remaining_directories` follow in order.
#[derive(Debug, Clone, PartialEq, Eq)]
pub struct ListExpansionFollowPlan {
    pub pane_id: BrowserPaneId,
    pub tab_id: usize,
    pub current_dir: FsPath,
    pub session_id: u64,
    pub remaining_directories: Vec<FsPath>,
    pub waiting_for: FsPath,
    pub target_selection: FsPath,
}

/// The directories to re-open (outermost first) and the selection to reach.
#[derive(Debug, Clone, PartialEq, Eq)]
pub struct DirectoryExpansionTransfer {
    pub chain: Vec<FsPath>,
    pub target_selection: FsPath,
}

pub open spec fn path_seq(paths: Seq<FsPath>) -> Seq<PathModel> {
    paths.map_values(|p: FsPath| p@)
}

// ---------------------------------------------------------------------------
// Animation
// ---------------------------------------------------------------------------

/// Open, not closing, and loaded: a follow plan can continue through it.
pub open spec fn followable(expanded: ExpandedDirectory) -> bool {
    expanded.is_expanded && !expanded.is_collapsing && expanded.status
        == ExpandedDirectoryStatus::Loaded
}

/// `list_directory_is_followable`.
pub fn list_directory_is_followable(expanded: &ExpandedDirectory) -> (followable_now: bool)
    ensures
        followable_now == followable(*expanded),
{
    expanded.is_expanded && !expanded.is_collapsing && expanded.status
        == ExpandedDirectoryStatus::Loaded
}

pub open spec fn animating(expanded: ExpandedDirectory) -> bool {
    (expanded.is_expanded && !expanded.is_collapsing && expanded.animation_progress
        < LIST_DIRECTORY_FULLY_OPEN) || expanded.is_collapsing
}

/// `expanded_directory_is_animating`: still opening, or closing.
pub fn expanded_directory_is_animating(expanded: &ExpandedDirectory) -> (is_animating: bool)
    ensures
        is_animating == animating(*expanded),
{
    (expanded.is_expanded && !expanded.is_collapsing && expanded.animation_progress
        < LIST_DIRECTORY_FULLY_OPEN) || expanded.is_collapsing
}

/// One animation frame: a closing directory shrinks by a step and, once
/// fully shut, stops being expanded; an opening one grows by a step up to
/// fully open.
pub open spec fn advanced(expanded: ExpandedDirectory) -> ExpandedDirectory {
    let progress = expanded.animation_progress;
    if expanded.is_collapsing {
        let next = if progress >= LIST_DIRECTORY_ANIMATION_STEP {
            (progress - LIST_DIRECTORY_ANIMATION_STEP) as u32
        } else {
            0u32
        };
        if next == 0 {
            ExpandedDirectory {
                animation_progress: 0,
                is_expanded: false,
                is_collapsing: false,
                ..expanded
            }
        } else {
            ExpandedDirectory { animation_progress: next, ..expanded }
        }
    } else if expanded.is_expanded && progress < LIST_DIRECTORY_FULLY_OPEN {
        let next = if progress + LIST_DIRECTORY_ANIMATION_STEP > LIST_DIRECTORY_FULLY_OPEN {
            LIST_DIRECTORY_FULLY_OPEN
        } else {
            (progress + LIST_DIRECTORY_ANIMATION_STEP) as u32
        };
        ExpandedDirectory { animation_progress: next, ..expanded }
    } else {
        expanded
    }
}

/// `advance_expanded_directories`: advances every directory one frame and
/// says whether any of them changed, which is exactly when one was
/// animating.
pub fn advance_expanded_directories(expanded_directories: &mut Vec<ExpandedDirectory>) -> (changed: bool)
    ensures
        final(expanded_directories)@.len() == old(expanded_directories)@.len(),
        forall|i: int|
            0 <= i < old(expanded_directories)@.len() ==> #[trigger] final(expanded_directories)@[i]
                == advanced(old(expanded_directories)@[i]),
        changed == exists|i: int|
            0 <= i < old(expanded_directories)@.len() && #[trigger] animating(
                old(expanded_directories)@[i],
            ),
{
    let ghost original = expanded_directories@;
    let mut changed = false;
    let mut i: usize = 0;
    while i < expanded_directories.len()
        invariant
            i <= expanded_directories@.len(),
            expanded_directories@.len() == original.len(),
            forall|j: int| 0 <= j < i ==> #[trigger] expanded_directories@[j] == advanced(original[j]),
            forall|j: int| i <= j < original.len() ==> #[trigger] expanded_directories@[j] == original[j],
            changed == exists|j: int| 0 <= j < i && #[trigger] animating(original[j]),
        decreases original.len() - i,
    {
        let mut expanded = expanded_directories.remove(i);
        assert(expanded == original[i as int]);
        if expanded.is_collapsing {
            let next = if expanded.animation_progress >= LIST_DIRECTORY_ANIMATION_STEP {
                expanded.animation_progress - LIST_DIRECTORY_ANIMATION_STEP
            } else {
                0
            };
            expanded.animation_progress = next;
            if next == 0 {
                expanded.is_expanded = false;
                expanded.is_collapsing = false;
            }
            changed = true;
        } else if expanded.is_expanded && expanded.animation_progress < LIST_DIRECTORY_FULLY_OPEN {
            let next = if expanded.animation_progress > LIST_DIRECTORY_FULLY_OPEN
                - LIST_DIRECTORY_ANIMATION_STEP {
                LIST_DIRECTORY_FULLY_OPEN
            } else {
                expanded.animation_progress + LIST_DIRECTORY_ANIMATION_STEP
            };
            expanded.animation_progress = next;
            changed = true;
        }
        assert(expanded == advanced(original[i as int]));
        proof {
            if animating(original[i as int]) {
                assert(changed);
            } else {
                assert(!(expanded.is_collapsing || (expanded.is_expanded && original[i as int].animation_progress < LIST_DIRECTORY_FULLY_OPEN)));
            }
        }
        expanded_directories.insert(i, expanded);
        i = i + 1;
    }
    changed
}

/// Whether any pane still has an expanded directory opening or closing.
pub open spec fn animation_active(browser: FileBrowser) -> bool {
    ||| exists|i: int|
        0 <= i < browser.expanded_directories@.len() && #[trigger] animating(
            browser.expanded_directories@[i],
        )
    ||| exists|p: int, i: int|
        0 <= p < browser.panes@.len() && 0 <= i < browser.panes@[p].expanded_directories@.len()
            && #[trigger] animating(browser.panes@[p].expanded_directories@[i])
}

/// The ids of the panes with a directory opening or closing, in order.
pub open spec fn animating_pane_ids(panes: Seq<BrowserPane>) -> Seq<BrowserPaneId>
    decreases panes.len(),
{
    if panes.len() == 0 {
        Seq::empty()
    } else {
        let rest = animating_pane_ids(panes.drop_last());
        let pane = panes.last();
        if exists|i: int|
            0 <= i < pane.expanded_directories@.len() && #[trigger] animating(
                pane.expanded_directories@[i],
            ) {
            rest.push(pane.id)
        } else {
            rest
        }
    }
}

fn any_animating(expanded_directories: &Vec<ExpandedDirectory>) -> (any: bool)
    ensures
        any == exists|i: int|
            0 <= i < expanded_directories@.len() && #[trigger] animating(expanded_directories@[i]),
{
    let mut i: usize = 0;
    while i < expanded_directories.len()
        invariant
            i <= expanded_directories@.len(),
            forall|j: int| 0 <= j < i ==> !#[trigger] animating(expanded_directories@[j]),
        decreases expanded_directories@.len() - i,
    {
        if expanded_directory_is_animating(&expanded_directories[i]) {
            return true;
        }
        i = i + 1;
    }
    false
}

impl FileBrowser {
    /// `list_directory_animation_is_active`.
    pub fn list_directory_animation_is_active(&self) -> (active: bool)
        ensures
            active == animation_active(*self),
    {
        if any_animating(&self.expanded_directories) {
            return true;
        }
        let mut p: usize = 0;
        while p < self.panes.len()
            invariant
                p <= self.panes@.len(),
                forall|q: int, i: int|
                    0 <= q < p && 0 <= i < self.panes@[q].expanded_directories@.len() ==> !#[trigger] animating(
                        self.panes@[q].expanded_directories@[i],
                    ),
            decreases self.panes@.len() - p,
        {
            if any_animating(&self.panes[p].expanded_directories) {
                return true;
            }
            p = p + 1;
        }
        false
    }

    /// `advance_list_directory_animations`: one frame for the active pane
    /// and every other pane; says which of them changed.
    pub fn advance_list_directory_animations(&mut self) -> (changed: (bool, Vec<BrowserPaneId>))
        ensures
            final(self).expanded_directories@.len() == old(self).expanded_directories@.len(),
            forall|i: int|
                0 <= i < old(self).expanded_directories@.len() ==> #[trigger] final(self).expanded_directories@[i]
                    == advanced(old(self).expanded_directories@[i]),
            changed.0 == exists|i: int|
                0 <= i < old(self).expanded_directories@.len() && #[trigger] animating(
                    old(self).expanded_directories@[i],
                ),
            final(self).panes@.len() == old(self).panes@.len(),
            forall|p: int|
                0 <= p < old(self).panes@.len() ==> {
                    let before = #[trigger] old(self).panes@[p];
                    let after = final(self).panes@[p];
                    &&& after == (BrowserPane { expanded_directories: after.expanded_directories, ..before })
                    &&& after.expanded_directories@.len() == before.expanded_directories@.len()
                    &&& forall|i: int|
                        0 <= i < before.expanded_directories@.len() ==> #[trigger] after.expanded_directories@[i]
                            == advanced(before.expanded_directories@[i])
                },
            changed.1@ == animating_pane_ids(old(self).panes@),
            *final(self) == (FileBrowser {
                expanded_directories: final(self).expanded_directories,
                panes: final(self).panes,
                ..*old(self)
            }),
            old(self).collections_well_formed() ==> final(self).collections_well_formed(),
    {
        let active_changed = advance_expanded_directories(&mut self.expanded_directories);
        let ghost original = self.panes@;
        let ghost snapshot = *self;
        let mut changed_panes: Vec<BrowserPaneId> = Vec::new();
        let mut p: usize = 0;
        while p < self.panes.len()
            invariant
                p <= self.panes@.len(),
                self.panes@.len() == original.len(),
                original == snapshot.panes@,
                *self == (FileBrowser { panes: self.panes, ..snapshot }),
                forall|q: int| p <= q < original.len() ==> #[trigger] self.panes@[q] == original[q],
                forall|q: int|
                    0 <= q < p ==> {
                        let before = #[trigger] original[q];
                        let after = self.panes@[q];
                        &&& after == (BrowserPane { expanded_directories: after.expanded_directories, ..before })
                        &&& after.expanded_directories@.len() == before.expanded_directories@.len()
                        &&& forall|i: int|
                            0 <= i < before.expanded_directories@.len() ==> #[trigger] after.expanded_directories@[i]
                                == advanced(before.expanded_directories@[i])
                    },
                changed_panes@ == animating_pane_ids(original.take(p as int)),
            decreases original.len() - p,
        {
            let mut pane = self.panes.remove(p);
            assert(pane == original[p as int]);
            let pane_changed = advance_expanded_directories(&mut pane.expanded_directories);
            if pane_changed {
                changed_panes.push(pane.id);
            }
            self.panes.insert(p, pane);
            assert(original.take(p + 1).drop_last() =~= original.take(p as int));
            p = p + 1;
        }
        assert(original.take(original.len() as int) =~= original);
        proof {
            if old(self).collections_well_formed() {
                lemma_same_paths(old(self).expanded_directories@, self.expanded_directories@);
                assert forall|q: int| 0 <= q < self.panes@.len() implies #[trigger] self.panes@[q].id == original[q].id by {}
                assert forall|q: int| 0 <= q < self.panes@.len() implies pane_collections_well_formed(
                    #[trigger] self.panes@[q],
                ) by {
                    assert(pane_collections_well_formed(original[q]));
                    lemma_same_paths(original[q].expanded_directories@, self.panes@[q].expanded_directories@);
                }
            }
        }
        (active_changed, changed_panes)
    }

    /// `selected_is_direct_entry`: the selection is one of the current
    /// directory's own entries.
    pub fn selected_is_direct_entry(&self) -> (direct: bool)
        ensures
            direct == match self.selected {
                Some(selected) => exists|i: int|
                    0 <= i < self.entries@.len() && #[trigger] self.entries@[i].path@ == selected@,
                None => false,
            },
    {
        match &self.selected {
            None => false,
            Some(selected) => {
                let mut i: usize = 0;
                while i < self.entries.len()
                    invariant
                        i <= self.entries@.len(),
                        self.selected == Some(*selected),
                        forall|j: int| 0 <= j < i ==> #[trigger] self.entries@[j].path@ != selected@,
                    decreases self.entries@.len() - i,
                {
                    if self.entries[i].path.same_as(selected) {
                        assert(self.entries@[i as int].path@ == selected@);
                        return true;
                    }
                    i = i + 1;
                }
                false
            },
        }
    }

    /// `next_list_expansion_follow_session_id`: hands out the counter and
    /// moves it on, wrapping at the top.
    pub fn next_list_expansion_follow_session_id(&mut self) -> (session_id: u64)
        ensures
            session_id == old(self).next_list_expansion_follow_session_id,
            *final(self) == (FileBrowser {
                next_list_expansion_follow_session_id: old(
                    self,
                ).next_list_expansion_follow_session_id.wrapping_add(1),
                ..*old(self)
            }),
            old(self).collections_well_formed() ==> final(self).collections_well_formed(),
    {
        let session_id = self.next_list_expansion_follow_session_id;
        self.next_list_expansion_follow_session_id = self.next_list_expansion_follow_session_id.wrapping_add(1);
        session_id
    }
}

// ---------------------------------------------------------------------------
// Loading expanded directories
// ---------------------------------------------------------------------------

/// `loading_list_directory`: expanded, not closing, nothing loaded yet, in
/// name order.
pub fn loading_list_directory(path: FsPath) -> (expanded: ExpandedDirectory)
    ensures
        expanded.path == path,
        expanded.entries@.len() == 0,
        expanded.status == ExpandedDirectoryStatus::Loading,
        expanded.is_expanded,
        !expanded.is_collapsing,
        expanded.animation_progress == 0,
        expanded.load_generation == 0,
        expanded.directory_discovery is None,
        !expanded.load_in_flight,
        expanded.directory_order_phase == (DirectoryOrderPhase::Ready {
            field: SortField::Name,
            direction: SortDirection::Ascending,
        }),
{
    ExpandedDirectory {
        path,
        entries: Vec::new(),
        status: ExpandedDirectoryStatus::Loading,
        is_expanded: true,
        is_collapsing: false,
        animation_progress: 0,
        load_generation: 0,
        directory_discovery: None,
        load_in_flight: false,
        directory_order_phase: DirectoryOrderPhase::Ready {
            field: SortField::Name,
            direction: SortDirection::Ascending,
        },
    }
}

/// Starts a new load of `expanded`: a new generation, a load in flight, and
/// the request that carries both.
pub fn next_expanded_directory_load_request(
    context: DirectoryExpansionLoadContext,
    path: FsPath,
    expanded: &mut ExpandedDirectory,
) -> (request: ExpandedDirectoryLoadRequest)
    ensures
        *final(expanded) == (ExpandedDirectory {
            load_generation: old(expanded).load_generation.wrapping_add(1),
            load_in_flight: true,
            ..*old(expanded)
        }),
        request == (ExpandedDirectoryLoadRequest {
            context,
            path,
            generation: final(expanded).load_generation,
        }),
{
    expanded.load_generation = expanded.load_generation.wrapping_add(1);
    expanded.load_in_flight = true;
    ExpandedDirectoryLoadRequest { context, path, generation: expanded.load_generation }
}

/// `expanded_directories.insert(path, expanded)`: replaces the directory's
/// earlier state, or adds it.
pub open spec fn inserted(directories: Seq<ExpandedDirectory>, expanded: ExpandedDirectory) -> Seq<ExpandedDirectory> {
    match find_expanded(directories, expanded.path@) {
        Some(i) => directories.update(i, expanded),
        None => directories.push(expanded),
    }
}

/// `expanded_directories.remove(path)`.
pub open spec fn removed(directories: Seq<ExpandedDirectory>, path: PathModel) -> Seq<ExpandedDirectory> {
    match find_expanded(directories, path) {
        Some(i) => directories.remove(i),
        None => directories,
    }
}

pub fn insert_expanded_directory(directories: &mut Vec<ExpandedDirectory>, expanded: ExpandedDirectory)
    ensures
        final(directories)@ == inserted(old(directories)@, expanded),
{
    match find_expanded_directory(directories, &expanded.path) {
        Some(i) => {
            directories.set(i, expanded);
        },
        None => {
            directories.push(expanded);
        },
    }
}

// ---------------------------------------------------------------------------
// The follow plan
// ---------------------------------------------------------------------------

/// `context` is the follow context of `plan`.
pub open spec fn is_follow_context_of(context: DirectoryExpansionLoadContext, plan: ListExpansionFollowPlan) -> bool {
    &&& context matches DirectoryExpansionLoadContext::ListFollow {
        pane_id,
        tab_id,
        current_dir,
        session_id,
    }
    &&& pane_id == plan.pane_id
    &&& tab_id == plan.tab_id
    &&& current_dir@ == plan.current_dir@
    &&& session_id == plan.session_id
}

/// The browser still shows what `plan` was made for: the list view, the
/// plan's pane and tab, the plan's directory.
pub open spec fn plan_matches_view(browser: FileBrowser, plan: ListExpansionFollowPlan) -> bool {
    &&& browser.view_mode == BrowserViewMode::List
    &&& browser.active_pane_id == plan.pane_id
    &&& browser.active_tab_id == plan.tab_id
    &&& browser.current_dir@ == plan.current_dir@
}

/// A load reply belongs to the plan's current link while the view still
/// matches the plan.
pub open spec fn follow_request_is_current(browser: FileBrowser, request: ExpandedDirectoryLoadRequest) -> bool {
    match browser.list_expansion_follow {
        Some(plan) => is_follow_context_of(request.context, plan) && plan_matches_view(browser, plan)
            && request.path@ == plan.waiting_for@,
        None => false,
    }
}

fn follow_context(plan: &ListExpansionFollowPlan) -> (context: DirectoryExpansionLoadContext)
    ensures
        is_follow_context_of(context, *plan),
{
    DirectoryExpansionLoadContext::ListFollow {
        pane_id: plan.pane_id,
        tab_id: plan.tab_id,
        current_dir: plan.current_dir.duplicate(),
        session_id: plan.session_id,
    }
}

impl FileBrowser {
    fn plan_matches_view_now(&self, plan: &ListExpansionFollowPlan) -> (matches_view: bool)
        ensures
            matches_view == plan_matches_view(*self, *plan),
    {
        self.view_mode == BrowserViewMode::List && self.active_pane_id == plan.pane_id
            && self.active_tab_id == plan.tab_id && self.current_dir.same_as(&plan.current_dir)
    }

    /// `expanded_directory_load_context`: a load of the directory the plan
    /// waits for, in the plan's pane while the view still matches it, is a
    /// link of the plan; every other load is an ordinary tree expansion.
    pub fn expanded_directory_load_context(&self, pane_id: BrowserPaneId, path: &FsPath) -> (context: DirectoryExpansionLoadContext)
        ensures
            match self.list_expansion_follow {
                Some(plan) => if pane_id == plan.pane_id && plan_matches_view(*self, plan) && path@
                    == plan.waiting_for@ {
                    is_follow_context_of(context, plan)
                } else {
                    context == (DirectoryExpansionLoadContext::BrowserTree { pane_id })
                },
                None => context == (DirectoryExpansionLoadContext::BrowserTree { pane_id }),
            },
    {
        match &self.list_expansion_follow {
            None => DirectoryExpansionLoadContext::BrowserTree { pane_id },
            Some(plan) => {
                if pane_id == plan.pane_id && self.plan_matches_view_now(plan) && path.same_as(
                    &plan.waiting_for,
                ) {
                    follow_context(plan)
                } else {
                    DirectoryExpansionLoadContext::BrowserTree { pane_id }
                }
            },
        }
    }

    /// `list_expansion_follow_request_is_current`: the request is the plan's
    /// current link and the view still matches the plan.
    pub fn list_expansion_follow_request_is_current(&self, request: &ExpandedDirectoryLoadRequest) -> (current: bool)
        ensures
            current == follow_request_is_current(*self, *request),
    {
        match &self.list_expansion_follow {
            None => false,
            Some(plan) => {
                let context_matches = match &request.context {
                    DirectoryExpansionLoadContext::ListFollow {
                        pane_id,
                        tab_id,
                        current_dir,
                        session_id,
                    } => *pane_id == plan.pane_id && *tab_id == plan.tab_id && current_dir.same_as(
                        &plan.current_dir,
                    ) && *session_id == plan.session_id,
                    DirectoryExpansionLoadContext::BrowserTree { .. } => false,
                };
                context_matches && self.plan_matches_view_now(plan) && request.path.same_as(
                    &plan.waiting_for,
                )
            },
        }
    }

    /// `pending_list_expansion_follow_request`: the request the plan's
    /// current link was started with.
    pub fn pending_list_expansion_follow_request(&self) -> (request: Option<ExpandedDirectoryLoadRequest>)
        ensures
            match self.list_expansion_follow {
                Some(plan) => match find_expanded(self.expanded_directories@, plan.waiting_for@) {
                    Some(i) => request matches Some(r) && is_follow_context_of(r.context, plan) && r.path@
                        == plan.waiting_for@ && r.generation
                        == self.expanded_directories@[i].load_generation,
                    None => request is None,
                },
                None => request is None,
            },
    {
        let plan = match &self.list_expansion_follow {
            Some(plan) => plan,
            None => return None,
        };
        match find_expanded_directory(&self.expanded_directories, &plan.waiting_for) {
            None => None,
            Some(i) => Some(
                ExpandedDirectoryLoadRequest {
                    context: follow_context(plan),
                    path: plan.waiting_for.duplicate(),
                    generation: self.expanded_directories[i].load_generation,
                },
            ),
        }
    }

    /// `cancel_list_expansion_follow`: drops the plan and the directory it
    /// was loading.
    /// Returns the directory whose load the application is to cancel.
    pub fn cancel_list_expansion_follow(&mut self) -> (cancelled: Option<FsPath>)
        ensures
            follow_cancelled(*old(self), *final(self)),
            option_paths(cancelled) == follow_cancelled_load(*old(self)),
            old(self).collections_well_formed() ==> final(self).collections_well_formed(),
    {
        let plan = match self.list_expansion_follow.take() {
            Some(plan) => plan,
            None => return None,
        };
        match find_expanded_directory(&self.expanded_directories, &plan.waiting_for) {
            Some(i) => {
                proof {
                    if old(self).collections_well_formed() {
                        lemma_remove_at_keeps_paths_distinct(self.expanded_directories@, i as int);
                    }
                }
                let dropped = self.expanded_directories.remove(i);
                Some(dropped.path)
            },
            None => None,
        }
    }

    /// `cancel_expansion_follow_plans`: cancels the list view's follow plan
    /// (the icon view cancels its own plan, which it holds itself), and
    /// returns the directory whose load the application is to cancel.
    pub fn cancel_expansion_follow_plans(&mut self) -> (cancelled: Option<FsPath>)
        ensures
            follow_cancelled(*old(self), *final(self)),
            option_paths(cancelled) == follow_cancelled_load(*old(self)),
            old(self).collections_well_formed() ==> final(self).collections_well_formed(),
    {
        self.cancel_list_expansion_follow()
    }

    /// `clear_list_expansion_for_follow`: drops the plan and every expanded
    /// directory (their loads with them).
    /// Returns the directories whose loads the application is to cancel.
    pub fn clear_list_expansion_for_follow(&mut self) -> (cancelled: Vec<FsPath>)
        ensures
            path_seq(cancelled@) == expanded_paths(old(self).expanded_directories@),
            final(self).expanded_directories@.len() == 0,
            *final(self) == (FileBrowser {
                list_expansion_follow: None,
                expanded_directories: final(self).expanded_directories,
                ..*old(self)
            }),
            old(self).collections_well_formed() ==> final(self).collections_well_formed(),
    {
        self.list_expansion_follow = None;
        let mut cancelled: Vec<FsPath> = Vec::new();
        let mut i: usize = 0;
        while i < self.expanded_directories.len()
            invariant
                i <= self.expanded_directories@.len(),
                cancelled@.len() == i,
                forall|j: int| 0 <= j < i ==> (#[trigger] cancelled@[j])@ == self.expanded_directories@[j].path@,
            decreases self.expanded_directories@.len() - i,
        {
            cancelled.push(self.expanded_directories[i].path.duplicate());
            i = i + 1;
        }
        assert(path_seq(cancelled@) =~= expanded_paths(self.expanded_directories@));
        self.expanded_directories.clear();
        cancelled
    }
}

// ---------------------------------------------------------------------------
// Carrying expansions from the list view
// ---------------------------------------------------------------------------

/// The expanded directory for `path` is open, loaded and not closing.
pub open spec fn followable_at(directories: Seq<ExpandedDirectory>, path: PathModel) -> bool {
    match find_expanded(directories, path) {
        Some(i) => followable(directories[i]),
        None => false,
    }
}

/// The listing of `parent` that a follow can walk through: the current
/// directory's entries, or those of a followable expanded directory.
pub open spec fn listing_of(browser: FileBrowser, parent: PathModel) -> Option<Seq<DirectoryEntry>> {
    if parent == browser.current_dir@ {
        Some(browser.entries@)
    } else {
        match find_expanded(browser.expanded_directories@, parent) {
            Some(i) => if followable(browser.expanded_directories@[i]) {
                Some(browser.expanded_directories@[i].entries@)
            } else {
                None
            },
            None => None,
        }
    }
}

/// `entries` lists `child` (a directory, when `directory_only`) as a direct
/// child of `parent`.
pub open spec fn lists_child(entries: Seq<DirectoryEntry>, child: PathModel, parent: PathModel, directory_only: bool) -> bool {
    exists|j: int|
        0 <= j < entries.len() && #[trigger] entries[j].path@ == child && (!directory_only
            || entries[j].kind == FileKind::Directory) && parent_spec(entries[j].path@) == Some(parent)
}

pub open spec fn prefix_path(path: PathModel, count: int) -> PathModel {
    PathModel { absolute: path.absolute, components: path.components.take(count) }
}

/// How deep the chain to `target` reaches: into `target` itself when it is
/// an open directory, else to its parent.
pub open spec fn chain_end_len(browser: FileBrowser, target: PathModel) -> int {
    if followable_at(browser.expanded_directories@, target) {
        target.components.len() as int
    } else {
        target.components.len() - 1
    }
}

/// The directories between the current directory (exclusive) and the end of
/// the chain (inclusive), outermost first.
pub open spec fn follow_chain(browser: FileBrowser, target: PathModel) -> Seq<PathModel> {
    let base = browser.current_dir@.components.len() as int;
    Seq::new(
        (chain_end_len(browser, target) - base) as nat,
        |k: int| prefix_path(target, base + 1 + k),
    )
}

/// Link `k` of `chain` is an open, loaded directory listed as a
/// subdirectory of the link before it (the current directory for the first).
pub open spec fn chain_link_ok(browser: FileBrowser, chain: Seq<PathModel>, k: int) -> bool {
    let parent = if k == 0 {
        browser.current_dir@
    } else {
        chain[k - 1]
    };
    match listing_of(browser, parent) {
        Some(entries) => lists_child(entries, chain[k], parent, true) && followable_at(
            browser.expanded_directories@,
            chain[k],
        ),
        None => false,
    }
}

/// What `list_expansion_transfer` carries over: for a selection strictly
/// inside the current directory whose chain of open directories is intact
/// and whose own listing shows it, that chain and the selection.
pub open spec fn list_transfer_spec(browser: FileBrowser) -> Option<(Seq<PathModel>, PathModel)> {
    match browser.selected {
        None => None,
        Some(selected) => {
            let target = selected@;
            let chain = follow_chain(browser, target);
            if target == browser.current_dir@ || !starts_with_spec(target, browser.current_dir@) {
                None
            } else if chain.len() == 0 || !(forall|k: int|
                0 <= k < chain.len() ==> #[trigger] chain_link_ok(browser, chain, k)) {
                None
            } else {
                match parent_spec(target) {
                    None => None,
                    Some(target_parent) => match listing_of(browser, target_parent) {
                        Some(entries) => if lists_child(entries, target, target_parent, false) {
                            Some((chain, target))
                        } else {
                            None
                        },
                        None => None,
                    },
                }
            }
        },
    }
}

fn lists_child_now(entries: &Vec<DirectoryEntry>, child: &FsPath, parent: &FsPath, directory_only: bool) -> (listed: bool)
    ensures
        listed == lists_child(entries@, child@, parent@, directory_only),
{
    let mut j: usize = 0;
    while j < entries.len()
        invariant
            j <= entries@.len(),
            forall|i: int|
                0 <= i < j ==> !(#[trigger] entries@[i].path@ == child@ && (!directory_only
                    || entries@[i].kind == FileKind::Directory) && parent_spec(entries@[i].path@)
                    == Some(parent@)),
        decreases entries@.len() - j,
    {
        let entry = &entries[j];
        if entry.path.same_as(child) && (!directory_only || entry.kind == FileKind::Directory)
            && entry.path.parent_is(parent) {
            assert(entries@[j as int].path@ == child@);
            return true;
        }
        j = j + 1;
    }
    false
}

fn followable_at_now(directories: &Vec<ExpandedDirectory>, path: &FsPath) -> (open: bool)
    ensures
        open == followable_at(directories@, path@),
{
    match find_expanded_directory(directories, path) {
        Some(i) => list_directory_is_followable(&directories[i]),
        None => false,
    }
}

impl FileBrowser {
    fn listing_entries(&self, parent: &FsPath) -> (entries: Option<&Vec<DirectoryEntry>>)
        ensures
            match listing_of(*self, parent@) {
                Some(listing) => entries matches Some(e) && e@ == listing,
                None => entries is None,
            },
    {
        if parent.same_as(&self.current_dir) {
            return Some(&self.entries);
        }
        match find_expanded_directory(&self.expanded_directories, parent) {
            Some(i) => {
                if list_directory_is_followable(&self.expanded_directories[i]) {
                    Some(&self.expanded_directories[i].entries)
                } else {
                    None
                }
            },
            None => None,
        }
    }

    /// `list_expansion_transfer`: what a switch from the list view to the
    /// icon view carries over of the open directories.
    pub fn list_expansion_transfer(&self) -> (transfer: Option<DirectoryExpansionTransfer>)
        ensures
            match list_transfer_spec(*self) {
                Some((chain, target)) => transfer matches Some(t) && path_seq(t.chain@) == chain
                    && t.target_selection@ == target,
                None => transfer is None,
            },
    {
        let target = match &self.selected {
            Some(target) => target,
            None => return None,
        };
        if target.same_as(&self.current_dir) || !target.starts_with(&self.current_dir) {
            return None;
        }
        let ghost chain_spec = follow_chain(*self, target@);
        let base_len = self.current_dir.components.len();
        assert(base_len < target@.components.len()) by {
            if base_len == target@.components.len() {
                assert(target@.components =~= self.current_dir@.components);
            }
        }
        let end_len = if followable_at_now(&self.expanded_directories, target) {
            target.components.len()
        } else {
            target.components.len() - 1
        };
        let links = end_len - base_len;
        let mut chain: Vec<FsPath> = Vec::new();
        while chain.len() < links
            invariant
                base_len == self.current_dir@.components.len(),
                base_len < target@.components.len(),
                end_len == chain_end_len(*self, target@),
                links == end_len - base_len,
                chain_spec == follow_chain(*self, target@),
                chain@.len() <= links,
                path_seq(chain@) == chain_spec.take(chain@.len() as int),
            decreases links - chain@.len(),
        {
            let ghost before = chain@;
            let link = target.ancestor(base_len + 1 + chain.len());
            assert(link@ == chain_spec[before.len() as int]);
            chain.push(link);
            assert(path_seq(chain@) =~= path_seq(before).push(link@));
            assert(path_seq(chain@) =~= chain_spec.take(chain@.len() as int));
        }
        assert(path_seq(chain@) =~= chain_spec);
        if chain.len() == 0 {
            return None;
        }
        let mut k: usize = 0;
        while k < chain.len()
            invariant
                k <= chain@.len(),
                chain@.len() > 0,
                self.selected == Some(*target),
                target@ != self.current_dir@,
                starts_with_spec(target@, self.current_dir@),
                path_seq(chain@) == chain_spec,
                chain_spec == follow_chain(*self, target@),
                forall|i: int| 0 <= i < k ==> #[trigger] chain_link_ok(*self, chain_spec, i),
            decreases chain@.len() - k,
        {
            let parent: &FsPath = if k == 0 {
                &self.current_dir
            } else {
                &chain[k - 1]
            };
            assert(parent@ == (if k == 0 {
                self.current_dir@
            } else {
                chain_spec[k - 1]
            }));
            let ok = match self.listing_entries(parent) {
                Some(entries) => lists_child_now(entries, &chain[k], parent, true) && followable_at_now(
                    &self.expanded_directories,
                    &chain[k],
                ),
                None => false,
            };
            assert(chain[k as int]@ == chain_spec[k as int]);
            if !ok {
                assert(!chain_link_ok(*self, chain_spec, k as int));
                return None;
            }
            k = k + 1;
        }
        let target_parent = match target.parent() {
            Some(parent) => parent,
            None => return None,
        };
        match self.listing_entries(&target_parent) {
            Some(entries) => {
                if lists_child_now(entries, target, &target_parent, false) {
                    Some(DirectoryExpansionTransfer { chain, target_selection: target.duplicate() })
                } else {
                    None
                }
            },
            None => None,
        }
    }
}

// ---------------------------------------------------------------------------
// Following a chain into the list view
// ---------------------------------------------------------------------------

/// `expanded` is a link the follow plan just started loading for `path`:
/// opened, empty, in name order, its first load in flight.
pub open spec fn is_new_link(expanded: ExpandedDirectory, path: PathModel) -> bool {
    &&& expanded.path@ == path
    &&& expanded.entries@.len() == 0
    &&& expanded.status == ExpandedDirectoryStatus::Loading
    &&& expanded.is_expanded
    &&& !expanded.is_collapsing
    &&& expanded.animation_progress == 0
    &&& expanded.load_generation == 1
    &&& expanded.directory_discovery is None
    &&& expanded.load_in_flight
    &&& expanded.directory_order_phase == (DirectoryOrderPhase::Ready {
        field: SortField::Name,
        direction: SortDirection::Ascending,
    })
}

/// The plan `plan` follows `chain[1..]` after `chain[0]` towards `target`,
/// made now for the browser `before`.
pub open spec fn plan_started(
    plan: ListExpansionFollowPlan,
    before: FileBrowser,
    chain: Seq<PathModel>,
    target: PathModel,
) -> bool {
    &&& plan.pane_id == before.active_pane_id
    &&& plan.tab_id == before.active_tab_id
    &&& plan.current_dir@ == before.current_dir@
    &&& plan.session_id == before.next_list_expansion_follow_session_id
    &&& path_seq(plan.remaining_directories@) == chain.drop_first()
    &&& plan.waiting_for@ == chain[0]
    &&& plan.target_selection@ == target
}

/// What `start_list_expansion_follow` does.
pub open spec fn follow_start_outcome(
    before: FileBrowser,
    after: FileBrowser,
    chain: Seq<PathModel>,
    target: PathModel,
    request: Option<ExpandedDirectoryLoadRequest>,
) -> bool {
    if chain.len() == 0 {
        after == before && request is None
    } else if !lists_child(before.entries@, chain[0], before.current_dir@, true) {
        &&& after == (FileBrowser {
            list_expansion_follow: None,
            expanded_directories: after.expanded_directories,
            ..before
        })
        &&& after.expanded_directories@.len() == 0
        &&& request is None
    } else {
        &&& after == (FileBrowser {
            list_expansion_follow: after.list_expansion_follow,
            expanded_directories: after.expanded_directories,
            next_list_expansion_follow_session_id: before.next_list_expansion_follow_session_id.wrapping_add(
                1,
            ),
            ..before
        })
        &&& after.expanded_directories@.len() == 1
        &&& is_new_link(after.expanded_directories@[0], chain[0])
        &&& after.list_expansion_follow matches Some(plan) && plan_started(plan, before, chain, target)
        &&& request matches Some(r) && r.path@ == chain[0] && r.generation == 1 && is_follow_context_of(
            r.context,
            after.list_expansion_follow->0,
        )
    }
}

/// One step of the plan after the link it waited for finished loading.
#[derive(Debug, Clone, PartialEq, Eq)]
pub enum ListFollowStep {
    /// Nothing more to do.
    Idle,
    /// Load the next link.
    Load(ExpandedDirectoryLoadRequest),
    /// The chain is open: select the target if it is visible and scroll it
    /// into view.
    Reveal(FsPath),
}

/// What `advance_list_expansion_follow` does.
pub open spec fn follow_advance_outcome(
    before: FileBrowser,
    after: FileBrowser,
    loaded_successfully: bool,
    step: ListFollowStep,
) -> bool {
    match before.list_expansion_follow {
        None => after == before && step == ListFollowStep::Idle,
        Some(plan) => {
            let dropped = after == (FileBrowser { list_expansion_follow: None, ..before });
            if !loaded_successfully {
                dropped && step == ListFollowStep::Idle
            } else if plan.remaining_directories@.len() == 0 {
                dropped && (step matches ListFollowStep::Reveal(target) && target@
                    == plan.target_selection@)
            } else {
                let next = plan.remaining_directories@[0]@;
                let waiting = plan.waiting_for@;
                let next_is_direct_directory = match find_expanded(before.expanded_directories@, waiting) {
                    Some(i) => followable(before.expanded_directories@[i]) && lists_child(
                        before.expanded_directories@[i].entries@,
                        next,
                        waiting,
                        true,
                    ),
                    None => false,
                };
                if !next_is_direct_directory {
                    dropped && step == ListFollowStep::Idle
                } else {
                    &&& after == (FileBrowser {
                        list_expansion_follow: after.list_expansion_follow,
                        expanded_directories: after.expanded_directories,
                        ..before
                    })
                    &&& exists|link: ExpandedDirectory|
                        #[trigger] is_new_link(link, next) && after.expanded_directories@ == inserted(
                            before.expanded_directories@,
                            link,
                        )
                    &&& after.list_expansion_follow matches Some(next_plan) && next_plan == (
                    ListExpansionFollowPlan {
                        remaining_directories: next_plan.remaining_directories,
                        waiting_for: next_plan.waiting_for,
                        ..plan
                    }) && next_plan.remaining_directories@ == plan.remaining_directories@.drop_first()
                        && next_plan.waiting_for@ == next
                    &&& step matches ListFollowStep::Load(r) && r.path@ == next && r.generation == 1
                        && is_follow_context_of(r.context, plan)
                }
            }
        },
    }
}

impl FileBrowser {
    /// `start_list_expansion_follow`: after the icon view handed over
    /// `chain`, clears the list expansion and, when the first link is a
    /// subdirectory listed in the current directory, starts loading it under
    /// a new plan. Returns the directories whose loads the application is
    /// to cancel (all the list had open), and the load to start.
    pub fn start_list_expansion_follow(&mut self, chain: Vec<FsPath>, target_selection: FsPath) -> (started: (
        Vec<FsPath>,
        Option<ExpandedDirectoryLoadRequest>,
    ))
        ensures
            follow_start_outcome(*old(self), *final(self), path_seq(chain@), target_selection@, started.1),
            path_seq(started.0@) == if chain@.len() == 0 {
                Seq::empty()
            } else {
                expanded_paths(old(self).expanded_directories@)
            },
            old(self).collections_well_formed() ==> final(self).collections_well_formed(),
    {
        if chain.len() == 0 {
            let none: Vec<FsPath> = Vec::new();
            assert(path_seq(none@) =~= Seq::<PathModel>::empty());
            return (none, None);
        }
        let mut chain = chain;
        let ghost chain_view = path_seq(chain@);
        let root_path = chain.remove(0);
        assert(root_path@ == chain_view[0]);
        assert(path_seq(chain@) =~= chain_view.drop_first());
        let cancelled = self.clear_list_expansion_for_follow();
        if !lists_child_now(&self.entries, &root_path, &self.current_dir, true) {
            return (cancelled, None);
        }
        let mut expanded = loading_list_directory(root_path.duplicate());
        let session_id = self.next_list_expansion_follow_session_id();
        let pane_id = self.active_pane_id;
        let tab_id = self.active_tab_id;
        let current_dir = self.current_dir.duplicate();
        let request = next_expanded_directory_load_request(
            DirectoryExpansionLoadContext::ListFollow {
                pane_id,
                tab_id,
                current_dir: current_dir.duplicate(),
                session_id,
            },
            root_path.duplicate(),
            &mut expanded,
        );
        self.expanded_directories.push(expanded);
        self.list_expansion_follow = Some(
            ListExpansionFollowPlan {
                pane_id,
                tab_id,
                current_dir,
                session_id,
                remaining_directories: chain,
                waiting_for: root_path,
                target_selection,
            },
        );
        (cancelled, Some(request))
    }

    /// `advance_list_expansion_follow`: after the link the plan waited for
    /// finished loading, starts the next link while the chain stays intact,
    /// or ends the plan.
    pub fn advance_list_expansion_follow(&mut self, loaded_successfully: bool) -> (step: ListFollowStep)
        ensures
            follow_advance_outcome(*old(self), *final(self), loaded_successfully, step),
            old(self).collections_well_formed() ==> final(self).collections_well_formed(),
    {
        let mut plan = match self.list_expansion_follow.take() {
            Some(plan) => plan,
            None => return ListFollowStep::Idle,
        };
        if !loaded_successfully {
            return ListFollowStep::Idle;
        }
        if plan.remaining_directories.len() == 0 {
            return ListFollowStep::Reveal(plan.target_selection);
        }
        let next_is_direct_directory = match find_expanded_directory(
            &self.expanded_directories,
            &plan.waiting_for,
        ) {
            Some(i) => list_directory_is_followable(&self.expanded_directories[i]) && lists_child_now(
                &self.expanded_directories[i].entries,
                &plan.remaining_directories[0],
                &plan.waiting_for,
                true,
            ),
            None => false,
        };
        if !next_is_direct_directory {
            return ListFollowStep::Idle;
        }
        let ghost old_plan = plan;
        let next_path = plan.remaining_directories.remove(0);
        assert(next_path == old_plan.remaining_directories@[0]);
        let context = follow_context(&plan);
        let mut expanded = loading_list_directory(next_path.duplicate());
        let request = next_expanded_directory_load_request(context, next_path.duplicate(), &mut expanded);
        let ghost link = expanded;
        proof {
            if old(self).collections_well_formed() {
                crate::panes::lemma_inserted_keeps_paths_distinct(self.expanded_directories@, link);
            }
        }
        insert_expanded_directory(&mut self.expanded_directories, expanded);
        assert(is_new_link(link, next_path@));
        plan.waiting_for = next_path;
        self.list_expansion_follow = Some(plan);
        ListFollowStep::Load(request)
    }
}

// ---------------------------------------------------------------------------
// Opening and closing directories in the list view
// ---------------------------------------------------------------------------

pub open spec fn clamp_progress(progress: u32) -> u32 {
    if progress > LIST_DIRECTORY_FULLY_OPEN {
        LIST_DIRECTORY_FULLY_OPEN
    } else {
        progress
    }
}

/// The kind of the entry at `path` among the current directory's entries,
/// else among the expanded directories' entries (the first listing that has
/// it).
pub open spec fn entry_kind_in(entries: Seq<DirectoryEntry>, path: PathModel) -> Option<FileKind>
    decreases entries.len(),
{
    if entries.len() == 0 {
        None
    } else {
        match entry_kind_in(entries.drop_last(), path) {
            Some(kind) => Some(kind),
            None => if entries.last().path@ == path {
                Some(entries.last().kind)
            } else {
                None
            },
        }
    }
}

pub open spec fn entry_kind_in_expanded(directories: Seq<ExpandedDirectory>, path: PathModel) -> Option<FileKind>
    decreases directories.len(),
{
    if directories.len() == 0 {
        None
    } else {
        match entry_kind_in_expanded(directories.drop_last(), path) {
            Some(kind) => Some(kind),
            None => entry_kind_in(directories.last().entries@, path),
        }
    }
}

pub open spec fn entry_kind_spec(browser: FileBrowser, path: PathModel) -> Option<FileKind> {
    match entry_kind_in(browser.entries@, path) {
        Some(kind) => Some(kind),
        None => entry_kind_in_expanded(browser.expanded_directories@, path),
    }
}

fn entry_kind_in_now(entries: &Vec<DirectoryEntry>, path: &FsPath) -> (kind: Option<FileKind>)
    ensures
        kind == entry_kind_in(entries@, path@),
{
    let mut i: usize = 0;
    let mut found: Option<FileKind> = None;
    while i < entries.len()
        invariant
            i <= entries@.len(),
            found == entry_kind_in(entries@.take(i as int), path@),
        decreases entries@.len() - i,
    {
        let ghost prefix = entries@.take(i + 1);
        assert(prefix.drop_last() =~= entries@.take(i as int));
        assert(prefix.last() == entries@[i as int]);
        if found.is_none() && entries[i].path.same_as(path) {
            found = Some(entries[i].kind);
        }
        i = i + 1;
    }
    assert(entries@.take(entries@.len() as int) =~= entries@);
    found
}

/// What `collapse_list_directory` does.
pub open spec fn collapse_outcome(before: FileBrowser, after: FileBrowser, path: PathModel) -> bool {
    match find_expanded(before.expanded_directories@, path) {
        Some(j) => {
            let expanded = before.expanded_directories@[j];
            &&& after.expanded_directories@ == before.expanded_directories@.update(
                j,
                ExpandedDirectory {
                    load_in_flight: false,
                    is_collapsing: true,
                    animation_progress: clamp_progress(expanded.animation_progress),
                    ..expanded
                },
            )
            &&& after == (FileBrowser {
                expanded_directories: after.expanded_directories,
                ..before
            })
        },
        None => after == before,
    }
}

/// What `open_list_directory` does.
pub open spec fn open_outcome(
    before: FileBrowser,
    after: FileBrowser,
    path: PathModel,
    request: Option<ExpandedDirectoryLoadRequest>,
) -> bool {
    match find_expanded(before.expanded_directories@, path) {
        Some(j) => {
            let expanded = before.expanded_directories@[j];
            &&& request is None
            &&& after.expanded_directories@ == before.expanded_directories@.update(
                j,
                ExpandedDirectory {
                    is_expanded: true,
                    is_collapsing: false,
                    animation_progress: clamp_progress(expanded.animation_progress),
                    ..expanded
                },
            )
            &&& after == (FileBrowser {
                expanded_directories: after.expanded_directories,
                ..before
            })
        },
        None => {
            &&& after == (FileBrowser {
                expanded_directories: after.expanded_directories,
                ..before
            })
            &&& after.expanded_directories@.len() == before.expanded_directories@.len() + 1
            &&& after.expanded_directories@.drop_last() == before.expanded_directories@
            &&& is_new_link(after.expanded_directories@.last(), path)
            &&& request matches Some(r) && r.path@ == path && r.generation == 1 && r.context
                == (DirectoryExpansionLoadContext::BrowserTree {
                pane_id: before.active_pane_id,
            })
        },
    }
}

/// The directory at `path` is open and not closing.
pub open spec fn is_open_at(directories: Seq<ExpandedDirectory>, path: PathModel) -> bool {
    match find_expanded(directories, path) {
        Some(j) => directories[j].is_expanded && !directories[j].is_collapsing,
        None => false,
    }
}

impl FileBrowser {
    /// `entry_kind`: the kind of a listed entry.
    pub fn entry_kind(&self, path: &FsPath) -> (kind: Option<FileKind>)
        ensures
            kind == entry_kind_spec(*self, path@),
    {
        let direct = entry_kind_in_now(&self.entries, path);
        if direct.is_some() {
            return direct;
        }
        let mut found: Option<FileKind> = None;
        let mut i: usize = 0;
        while i < self.expanded_directories.len()
            invariant
                i <= self.expanded_directories@.len(),
                found == entry_kind_in_expanded(self.expanded_directories@.take(i as int), path@),
            decreases self.expanded_directories@.len() - i,
        {
            let ghost prefix = self.expanded_directories@.take(i + 1);
            assert(prefix.drop_last() =~= self.expanded_directories@.take(i as int));
            assert(prefix.last() == self.expanded_directories@[i as int]);
            if found.is_none() {
                found = entry_kind_in_now(&self.expanded_directories[i].entries, path);
            }
            i = i + 1;
        }
        assert(self.expanded_directories@.take(self.expanded_directories@.len() as int)
            =~= self.expanded_directories@);
        found
    }

    /// `collapse_list_directory`: an expanded directory stops loading and
    /// starts closing from where its animation stands.
    pub fn collapse_list_directory(&mut self, path: &FsPath)
        ensures
            collapse_outcome(*old(self), *final(self), path@),
            old(self).collections_well_formed() ==> final(self).collections_well_formed(),
    {
        match find_expanded_directory(&self.expanded_directories, path) {
            Some(j) => {
                let mut expanded = self.expanded_directories.remove(j);
                expanded.load_in_flight = false;
                expanded.is_collapsing = true;
                if expanded.animation_progress > LIST_DIRECTORY_FULLY_OPEN {
                    expanded.animation_progress = LIST_DIRECTORY_FULLY_OPEN;
                }
                let ghost updated = expanded;
                self.expanded_directories.insert(j, expanded);
                assert(self.expanded_directories@ =~= old(self).expanded_directories@.update(
                    j as int,
                    updated,
                ));
                proof {
                    lemma_same_paths(old(self).expanded_directories@, self.expanded_directories@);
                }
            },
            None => {},
        }
    }

    /// `open_list_directory`: a known directory opens again where its
    /// animation stands; a new one is added opening and its first load is
    /// started in the active pane's tree.
    pub fn open_list_directory(&mut self, path: FsPath) -> (request: Option<ExpandedDirectoryLoadRequest>)
        ensures
            open_outcome(*old(self), *final(self), path@, request),
            old(self).collections_well_formed() ==> final(self).collections_well_formed(),
    {
        match find_expanded_directory(&self.expanded_directories, &path) {
            Some(j) => {
                let mut expanded = self.expanded_directories.remove(j);
                expanded.is_expanded = true;
                expanded.is_collapsing = false;
                if expanded.animation_progress > LIST_DIRECTORY_FULLY_OPEN {
                    expanded.animation_progress = LIST_DIRECTORY_FULLY_OPEN;
                }
                let ghost updated = expanded;
                self.expanded_directories.insert(j, expanded);
                assert(self.expanded_directories@ =~= old(self).expanded_directories@.update(
                    j as int,
                    updated,
                ));
                proof {
                    lemma_same_paths(old(self).expanded_directories@, self.expanded_directories@);
                }
                None
            },
            None => {
                let mut expanded = loading_list_directory(path.duplicate());
                let request = next_expanded_directory_load_request(
                    DirectoryExpansionLoadContext::BrowserTree { pane_id: self.active_pane_id },
                    path,
                    &mut expanded,
                );
                proof {
                    if old(self).collections_well_formed() {
                        lemma_push_new_path_keeps_paths_distinct(old(self).expanded_directories@, expanded);
                    }
                }
                self.expanded_directories.push(expanded);
                assert(self.expanded_directories@.drop_last() =~= old(self).expanded_directories@);
                Some(request)
            },
        }
    }

    /// `toggle_list_directory_for_path`: outside the trash, a listed
    /// directory closes when it is open, and opens otherwise.
    pub fn toggle_list_directory_for_path(&mut self, path: FsPath) -> (request: Option<ExpandedDirectoryLoadRequest>)
        ensures
            if old(self).is_trash_view || entry_kind_spec(*old(self), path@) != Some(FileKind::Directory) {
                *final(self) == *old(self) && request is None
            } else if is_open_at(old(self).expanded_directories@, path@) {
                collapse_outcome(*old(self), *final(self), path@) && request is None
            } else {
                open_outcome(*old(self), *final(self), path@, request)
            },
            old(self).collections_well_formed() ==> final(self).collections_well_formed(),
    {
        if self.is_trash_view || self.entry_kind(&path) != Some(FileKind::Directory) {
            return None;
        }
        let open = match find_expanded_directory(&self.expanded_directories, &path) {
            Some(j) => self.expanded_directories[j].is_expanded && !self.expanded_directories[j].is_collapsing,
            None => false,
        };
        if open {
            self.collapse_list_directory(&path);
            None
        } else {
            self.open_list_directory(path)
        }
    }
}

pub open spec fn option_paths(path: Option<FsPath>) -> Option<PathModel> {
    match path {
        Some(p) => Some(p@),
        None => None,
    }
}

/// The directory whose load a cancelled follow plan drops: the one it was
/// waiting for, when the list has it.
pub open spec fn follow_cancelled_load(before: FileBrowser) -> Option<PathModel> {
    match before.list_expansion_follow {
        Some(plan) => match find_expanded(before.expanded_directories@, plan.waiting_for@) {
            Some(i) => Some(before.expanded_directories@[i].path@),
            None => None,
        },
        None => None,
    }
}

/// The list view's follow plan is dropped with the directory it was loading
/// (see `cancel_list_expansion_follow`).
pub open spec fn follow_cancelled(before: FileBrowser, after: FileBrowser) -> bool {
    match before.list_expansion_follow {
        Some(plan) => after == (FileBrowser {
            list_expansion_follow: None,
            expanded_directories: after.expanded_directories,
            ..before
        }) && after.expanded_directories@ == removed(before.expanded_directories@, plan.waiting_for@),
        None => after == before,
    }
}

/// What the Right and Left keys of the list view lead to.
#[derive(Debug, Clone, PartialEq, Eq)]
pub enum ListKeyboardStep {
    Nothing,
    /// Select the first child that the list shows under this open directory
    /// (nothing when it shows none).
    SelectFirstVisibleChild(FsPath),
    Collapsed,
    /// The directory was opened; a load is due when it was not listed yet.
    Opened(Option<ExpandedDirectoryLoadRequest>),
    /// Select this parent directory from the keyboard, when the list shows it.
    SelectParentIfVisible(FsPath),
}

/// The Right key on the selection: an open directory hands the selection
/// to its first visible child; a closed one opens.
pub open spec fn expand_step_outcome(mid: FileBrowser, after: FileBrowser, step: ListKeyboardStep) -> bool {
    match mid.selected {
        None => after == mid && step == ListKeyboardStep::Nothing,
        Some(selected) => if entry_kind_spec(mid, selected@) != Some(FileKind::Directory) {
            after == mid && step == ListKeyboardStep::Nothing
        } else if is_open_at(mid.expanded_directories@, selected@) {
            after == mid && (step matches ListKeyboardStep::SelectFirstVisibleChild(d) && d@ == selected@)
        } else {
            exists|request: Option<ExpandedDirectoryLoadRequest>|
                #[trigger] open_outcome(mid, after, selected@, request) && step == ListKeyboardStep::Opened(request)
        },
    }
}

/// The Left key on the selection: an open directory collapses; otherwise
/// the selection moves to its parent, unless that is the listed directory
/// itself.
pub open spec fn collapse_step_outcome(mid: FileBrowser, after: FileBrowser, step: ListKeyboardStep) -> bool {
    match mid.selected {
        None => after == mid && step == ListKeyboardStep::Nothing,
        Some(selected) => if is_open_at(mid.expanded_directories@, selected@) {
            collapse_outcome(mid, after, selected@) && step == ListKeyboardStep::Collapsed
        } else {
            after == mid && match parent_spec(selected@) {
                None => step == ListKeyboardStep::Nothing,
                Some(parent) => if parent == mid.current_dir@ {
                    step == ListKeyboardStep::Nothing
                } else {
                    (step matches ListKeyboardStep::SelectParentIfVisible(p) && p@ == parent)
                },
            }
        },
    }
}

impl FileBrowser {
    fn selected_is_open(&self, selected: &FsPath) -> (open: bool)
        ensures
            open == is_open_at(self.expanded_directories@, selected@),
    {
        match find_expanded_directory(&self.expanded_directories, selected) {
            Some(j) => self.expanded_directories[j].is_expanded && !self.expanded_directories[j].is_collapsing,
            None => false,
        }
    }

    /// `expand_selected_list_directory`: the follow plan is dropped first.
    /// Also returns the directory whose load the dropped plan leaves to
    /// cancel.
    pub fn expand_selected_list_directory(&mut self) -> (keyed: (Option<FsPath>, ListKeyboardStep))
        ensures
            option_paths(keyed.0) == follow_cancelled_load(*old(self)),
            exists|mid: FileBrowser| #[trigger] follow_cancelled(*old(self), mid) && expand_step_outcome(mid, *final(self), keyed.1),
            old(self).collections_well_formed() ==> final(self).collections_well_formed(),
    {
        let cancelled = self.cancel_list_expansion_follow();
        let ghost mid = *self;
        let selected = match &self.selected {
            Some(selected) => selected.duplicate(),
            None => return (cancelled, ListKeyboardStep::Nothing),
        };
        if self.entry_kind(&selected) != Some(FileKind::Directory) {
            return (cancelled, ListKeyboardStep::Nothing);
        }
        if self.selected_is_open(&selected) {
            return (cancelled, ListKeyboardStep::SelectFirstVisibleChild(selected));
        }
        let request = self.open_list_directory(selected);
        assert(open_outcome(mid, *self, mid.selected->0@, request));
        (cancelled, ListKeyboardStep::Opened(request))
    }

    /// `collapse_selected_list_directory_or_select_parent`: the follow plan
    /// is dropped first.
    /// Also returns the directory whose load the dropped plan leaves to
    /// cancel (a collapsed directory's own load is cancelled with it).
    pub fn collapse_selected_list_directory_or_select_parent(&mut self) -> (keyed: (Option<FsPath>, ListKeyboardStep))
        ensures
            option_paths(keyed.0) == follow_cancelled_load(*old(self)),
            exists|mid: FileBrowser| #[trigger] follow_cancelled(*old(self), mid) && collapse_step_outcome(mid, *final(self), keyed.1),
            old(self).collections_well_formed() ==> final(self).collections_well_formed(),
    {
        let cancelled = self.cancel_list_expansion_follow();
        let selected = match &self.selected {
            Some(selected) => selected.duplicate(),
            None => return (cancelled, ListKeyboardStep::Nothing),
        };
        if self.selected_is_open(&selected) {
            self.collapse_list_directory(&selected);
            return (cancelled, ListKeyboardStep::Collapsed);
        }
        let parent = match selected.parent() {
            Some(parent) => parent,
            None => return (cancelled, ListKeyboardStep::Nothing),
        };
        if parent.same_as(&self.current_dir) {
            return (cancelled, ListKeyboardStep::Nothing);
        }
        (cancelled, ListKeyboardStep::SelectParentIfVisible(parent))
    }
}

// ---------------------------------------------------------------------------
// Switching from the columns view
// ---------------------------------------------------------------------------

/// The paths of the expanded directories dropped when the columns view
/// hands over to the list view (see `synced_to_columns`), in order.
pub open spec fn dropped_for_columns(
    directories: Seq<ExpandedDirectory>,
    columns: Seq<PathModel>,
    current_dir: PathModel,
) -> Seq<PathModel>
    decreases directories.len(),
{
    if directories.len() == 0 {
        Seq::empty()
    } else {
        let rest = dropped_for_columns(directories.drop_last(), columns, current_dir);
        let d = directories.last();
        if columns.contains(d.path@) && d.path@ != current_dir {
            rest
        } else {
            rest.push(d.path@)
        }
    }
}

/// The expanded directories kept when the columns view hands over to the
/// list view: those shown as open columns (other than the current
/// directory), fully open; the others are dropped with their loads.
pub open spec fn synced_to_columns(
    directories: Seq<ExpandedDirectory>,
    columns: Seq<PathModel>,
    current_dir: PathModel,
) -> Seq<ExpandedDirectory>
    decreases directories.len(),
{
    if directories.len() == 0 {
        Seq::empty()
    } else {
        let rest = synced_to_columns(directories.drop_last(), columns, current_dir);
        let d = directories.last();
        if columns.contains(d.path@) && d.path@ != current_dir {
            rest.push(
                ExpandedDirectory {
                    is_expanded: true,
                    is_collapsing: false,
                    animation_progress: LIST_DIRECTORY_FULLY_OPEN,
                    ..d
                },
            )
        } else {
            rest
        }
    }
}

/// The paths kept when syncing to the columns are the open columns'
/// paths among the old ones, in order.
pub proof fn lemma_synced_paths(directories: Seq<ExpandedDirectory>, columns: Seq<PathModel>, current_dir: PathModel)
    ensures
        expanded_paths(synced_to_columns(directories, columns, current_dir)) == expanded_paths(directories).filter(
            |path: PathModel| columns.contains(path) && path != current_dir,
        ),
    decreases directories.len(),
{
    reveal(Seq::filter);
    let pred = |path: PathModel| columns.contains(path) && path != current_dir;
    if directories.len() > 0 {
        lemma_synced_paths(directories.drop_last(), columns, current_dir);
        assert(expanded_paths(directories).drop_last() =~= expanded_paths(directories.drop_last()));
        let rest = synced_to_columns(directories.drop_last(), columns, current_dir);
        let d = directories.last();
        if columns.contains(d.path@) && d.path@ != current_dir {
            let kept = ExpandedDirectory {
                is_expanded: true,
                is_collapsing: false,
                animation_progress: LIST_DIRECTORY_FULLY_OPEN,
                ..d
            };
            assert(expanded_paths(rest.push(kept)) =~= expanded_paths(rest).push(d.path@));
        }
    } else {
        assert(expanded_paths(synced_to_columns(directories, columns, current_dir)) =~= expanded_paths(
            directories,
        ).filter(pred));
    }
}

impl FileBrowser {
    /// `sync_expanded_directories_to_open_columns`: `column_directories` are
    /// the directories the columns view shows as columns.
    /// Returns the dropped directories, whose loads the application is to
    /// cancel.
    pub fn sync_expanded_directories_to_open_columns(&mut self, column_directories: &Vec<FsPath>) -> (cancelled: Vec<FsPath>)
        ensures
            path_seq(cancelled@) == dropped_for_columns(
                old(self).expanded_directories@,
                path_views(column_directories@),
                old(self).current_dir@,
            ),
            final(self).expanded_directories@ == synced_to_columns(
                old(self).expanded_directories@,
                path_views(column_directories@),
                old(self).current_dir@,
            ),
            *final(self) == (FileBrowser { expanded_directories: final(self).expanded_directories, ..*old(self) }),
            old(self).collections_well_formed() ==> final(self).collections_well_formed(),
    {
        let ghost original = self.expanded_directories@;
        let ghost columns = path_views(column_directories@);
        let mut rest: Vec<ExpandedDirectory> = Vec::new();
        std::mem::swap(&mut rest, &mut self.expanded_directories);
        let mut kept: Vec<ExpandedDirectory> = Vec::new();
        let mut cancelled: Vec<FsPath> = Vec::new();
        while rest.len() > 0
            invariant
                rest@.len() <= original.len(),
                rest@ == original.skip(original.len() - rest@.len()),
                columns == path_views(column_directories@),
                kept@ == synced_to_columns(original.take(original.len() - rest@.len()), columns, self.current_dir@),
                path_seq(cancelled@) == dropped_for_columns(
                    original.take(original.len() - rest@.len()),
                    columns,
                    self.current_dir@,
                ),
            decreases rest@.len(),
        {
            let ghost done = original.len() - rest@.len();
            assert(original.take(done + 1).drop_last() =~= original.take(done));
            assert(original.take(done + 1).last() == rest@[0]);
            let mut directory = rest.remove(0);
            assert(rest@ =~= original.skip(original.len() - rest@.len()));
            if contains_path(column_directories, &directory.path) && !directory.path.same_as(&self.current_dir) {
                directory.is_expanded = true;
                directory.is_collapsing = false;
                directory.animation_progress = LIST_DIRECTORY_FULLY_OPEN;
                kept.push(directory);
            } else {
                let ghost before = path_seq(cancelled@);
                cancelled.push(directory.path);
                assert(path_seq(cancelled@) =~= before.push(cancelled@.last()@));
            }
        }
        assert(original.take(original.len() as int) =~= original);
        self.expanded_directories = kept;
        proof {
            if old(self).collections_well_formed() {
                let current = self.current_dir@;
                let pred = |path: PathModel| columns.contains(path) && path != current;
                lemma_synced_paths(original, columns, current);
                assert(expanded_paths(self.expanded_directories@) == expanded_paths(original).filter(pred));
                crate::panes::lemma_filter_keeps_no_duplicates(expanded_paths(original), pred);
                assert(expanded_paths(self.expanded_directories@).no_duplicates());
                assert(self.panes == old(self).panes);
            }
        }
        cancelled
    }
}

// ---------------------------------------------------------------------------
// Laws
// ---------------------------------------------------------------------------

/// A follow started in the list view waits for exactly the load it asked
/// for: the request it returns is current.
pub proof fn lemma_started_follow_request_is_current(
    before: FileBrowser,
    after: FileBrowser,
    chain: Seq<PathModel>,
    target: PathModel,
    request: ExpandedDirectoryLoadRequest,
)
    requires
        follow_start_outcome(before, after, chain, target, Some(request)),
        before.view_mode == BrowserViewMode::List,
    ensures
        follow_request_is_current(after, request),
{
}

/// Each link the plan moves on to is again the one it waits for, as long as
/// the view is unchanged.
pub proof fn lemma_next_link_request_is_current(
    before: FileBrowser,
    after: FileBrowser,
    request: ExpandedDirectoryLoadRequest,
)
    requires
        follow_advance_outcome(before, after, true, ListFollowStep::Load(request)),
        before.list_expansion_follow matches Some(plan) && plan_matches_view(before, plan),
    ensures
        follow_request_is_current(after, request),
{
}

/// After the plan moved on, the reply of the link it left is stale.
pub proof fn lemma_previous_link_reply_is_stale(
    before: FileBrowser,
    after: FileBrowser,
    previous: ExpandedDirectoryLoadRequest,
    request: ExpandedDirectoryLoadRequest,
)
    requires
        follow_advance_outcome(before, after, true, ListFollowStep::Load(request)),
        follow_request_is_current(before, previous),
        previous.path@ != request.path@,
    ensures
        !follow_request_is_current(after, previous),
{
}

/// A directory that is not opening or closing is left as it is by an
/// animation frame.
pub proof fn lemma_settled_directory_is_unchanged(expanded: ExpandedDirectory)
    requires
        !animating(expanded),
    ensures
        advanced(expanded) == expanded,
{
}

/// Animation frames keep the progress within fully shut and fully open.
pub proof fn lemma_progress_stays_in_range(expanded: ExpandedDirectory)
    requires
        expanded.animation_progress <= LIST_DIRECTORY_FULLY_OPEN,
    ensures
        advanced(expanded).animation_progress <= LIST_DIRECTORY_FULLY_OPEN,
{
}

/// `n` animation frames.
pub open spec fn advanced_times(expanded: ExpandedDirectory, n: nat) -> ExpandedDirectory
    decreases n,
{
    if n == 0 {
        expanded
    } else {
        advanced(advanced_times(expanded, (n - 1) as nat))
    }
}

/// Every animation settles within six frames: opening reaches fully open,
/// closing shuts and leaves the directory collapsed.
pub proof fn lemma_animation_settles(expanded: ExpandedDirectory)
    requires
        expanded.animation_progress <= LIST_DIRECTORY_FULLY_OPEN,
    ensures
        !animating(advanced_times(expanded, 6)),
        expanded.is_collapsing ==> !advanced_times(expanded, 6).is_expanded,
        expanded.is_expanded && !expanded.is_collapsing ==> advanced_times(expanded, 6).animation_progress
            == LIST_DIRECTORY_FULLY_OPEN,
{
    reveal_with_fuel(advanced_times, 7);
}

/// Closing a directory and opening it again before it shut leaves it open,
/// its animation resuming from where the close left it.
pub proof fn lemma_reopening_resumes_the_animation(
    before: FileBrowser,
    closing: FileBrowser,
    after: FileBrowser,
    path: PathModel,
    request: Option<ExpandedDirectoryLoadRequest>,
)
    requires
        find_expanded(before.expanded_directories@, path) is Some,
        collapse_outcome(before, closing, path),
        open_outcome(closing, after, path, request),
    ensures
        request is None,
        is_open_at(after.expanded_directories@, path),
        ({
            let j = find_expanded(before.expanded_directories@, path)->0;
            after.expanded_directories@[j].animation_progress == clamp_progress(
                before.expanded_directories@[j].animation_progress,
            )
        }),
{
    let dirs = before.expanded_directories@;
    crate::panes::lemma_find_expanded_from(dirs, path, 0);
    assert forall|k: int| 0 <= k < dirs.len() implies #[trigger] dirs[k].path@
        == closing.expanded_directories@[k].path@ by {}
    crate::panes::lemma_find_expanded_same_paths(dirs, closing.expanded_directories@, path, 0);
    let middle = closing.expanded_directories@;
    assert forall|k: int| 0 <= k < middle.len() implies #[trigger] middle[k].path@
        == after.expanded_directories@[k].path@ by {}
    crate::panes::lemma_find_expanded_same_paths(middle, after.expanded_directories@, path, 0);
}

} // verus!
