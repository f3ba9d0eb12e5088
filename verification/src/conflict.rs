//! The transfer-conflict dialog: transfers whose targets already exist are
//! resolved one conflict at a time (or all at once) by replacing, skipping,
//! renaming, keeping both under a fresh name, or merging directories.

use vstd::prelude::*;
use crate::browser::FileBrowser;
use crate::config::FileOperationVerification;
use crate::naming::{
    first_free_duplicate, lemma_first_free_duplicate_unique, path_views, unique_duplicated_name,
};
use crate::operations::{
    QueuedFileOperation, QueuedTransfer, TransferConflictStrategy, TransferModel, transfer_views,
};
use crate::paths::{FsPath, PathModel, file_name_spec, join_spec, parent_spec};

verus! {

#[derive(Debug, Clone, Copy, PartialEq, Eq, Structural)]
pub enum TransferConflictMode {
    Copy,
    Move,
}

#[derive(Debug, Clone, Copy, PartialEq, Eq, Structural)]
pub enum TransferConflictChoice {
    Replace,
    Skip,
    Rename,
    KeepBoth,
    Merge,
}

#[derive(Debug, Clone, Copy, PartialEq, Eq, Structural)]
pub struct TransferConflictMetadata {
    pub is_directory: bool,
    pub len: u64,
}

/// A transfer whose target already exists.
#[derive(Debug, Clone, PartialEq, Eq)]
pub struct TransferConflictItem {
    pub source: FsPath,
    pub target: FsPath,
    pub source_metadata: TransferConflictMetadata,
    pub target_metadata: TransferConflictMetadata,
}

pub struct ConflictModel {
    pub source: PathModel,
    pub target: PathModel,
    pub source_is_directory: bool,
    pub target_is_directory: bool,
    pub source_len: u64,
    pub target_len: u64,
}

impl View for TransferConflictItem {
    type V = ConflictModel;

    open spec fn view(&self) -> ConflictModel {
        ConflictModel {
            source: self.source@,
            target: self.target@,
            source_is_directory: self.source_metadata.is_directory,
            target_is_directory: self.target_metadata.is_directory,
            source_len: self.source_metadata.len,
            target_len: self.target_metadata.len,
        }
    }
}

pub open spec fn conflict_views(conflicts: Seq<TransferConflictItem>) -> Seq<ConflictModel> {
    conflicts.map_values(|c: TransferConflictItem| c@)
}

/// A directory landing on a directory can be merged.
pub open spec fn can_merge_spec(conflict: ConflictModel) -> bool {
    conflict.source_is_directory && conflict.target_is_directory
}

impl TransferConflictItem {
    pub fn can_merge(&self) -> (mergeable: bool)
        ensures
            mergeable == can_merge_spec(self@),
    {
        self.source_metadata.is_directory && self.target_metadata.is_directory
    }
}

/// The conflict dialog: the whole transfer batch, its conflicts, and the
/// conflict being decided.
#[derive(Debug, Clone, PartialEq, Eq)]
pub struct TransferConflictState {
    pub mode: TransferConflictMode,
    pub transfers: Vec<QueuedTransfer>,
    pub conflicts: Vec<TransferConflictItem>,
    pub current_index: usize,
    pub apply_to_all: bool,
}

/// The first transfer going from `source` to `target`, searching from `from`.
pub open spec fn first_matching(
    transfers: Seq<TransferModel>,
    source: PathModel,
    target: PathModel,
    from: int,
) -> Option<int>
    decreases transfers.len() - from,
{
    if from < 0 || from >= transfers.len() {
        None
    } else if transfers[from].source == source && transfers[from].target == target {
        Some(from)
    } else {
        first_matching(transfers, source, target, from + 1)
    }
}

/// `conflict_transfer_position`: index of the transfer the conflict is about.
pub fn conflict_transfer_position(state: &TransferConflictState, conflict: &TransferConflictItem) -> (position: Option<usize>)
    ensures
        position matches Some(p) ==> p < state.transfers@.len(),
        position matches Some(p) ==> first_matching(
            transfer_views(state.transfers@),
            conflict@.source,
            conflict@.target,
            0,
        ) == Some(p as int),
        position is None ==> first_matching(
            transfer_views(state.transfers@),
            conflict@.source,
            conflict@.target,
            0,
        ) is None,
{
    let ghost views = transfer_views(state.transfers@);
    let mut i: usize = 0;
    while i < state.transfers.len()
        invariant
            i <= state.transfers@.len(),
            views == transfer_views(state.transfers@),
            first_matching(views, conflict@.source, conflict@.target, 0) == first_matching(
                views,
                conflict@.source,
                conflict@.target,
                i as int,
            ),
        decreases state.transfers@.len() - i,
    {
        let transfer = &state.transfers[i];
        assert(views[i as int] == transfer@);
        if transfer.source.same_as(&conflict.source) && transfer.target.same_as(&conflict.target) {
            return Some(i);
        }
        assert(first_matching(views, conflict@.source, conflict@.target, i as int) == first_matching(
            views,
            conflict@.source,
            conflict@.target,
            i + 1,
        ));
        i = i + 1;
    }
    None
}

/// The conflict being decided, if any is left.
pub open spec fn current_conflict_spec(state: TransferConflictState) -> Option<ConflictModel> {
    if state.current_index < state.conflicts@.len() {
        Some(state.conflicts@[state.current_index as int]@)
    } else {
        None
    }
}

pub open spec fn strategy_for_choice(choice: TransferConflictChoice) -> Option<TransferConflictStrategy> {
    match choice {
        TransferConflictChoice::Replace => Some(TransferConflictStrategy::Replace),
        TransferConflictChoice::Skip => Some(TransferConflictStrategy::Skip),
        TransferConflictChoice::Rename => Some(TransferConflictStrategy::KeepBoth),
        _ => None,
    }
}

/// Transfer `position` is the first of the batch that the conflict being
/// decided is about: same source and same target.
pub open spec fn is_current_conflict_transfer(state: TransferConflictState, position: int) -> bool {
    let ci = state.current_index as int;
    &&& 0 <= ci < state.conflicts@.len()
    &&& 0 <= position < state.transfers@.len()
    &&& state.transfers@[position]@.source == state.conflicts@[ci]@.source
    &&& state.transfers@[position]@.target == state.conflicts@[ci]@.target
    &&& forall|j: int|
        0 <= j < position ==> !(#[trigger] state.transfers@[j]@.source == state.conflicts@[ci]@.source
            && state.transfers@[j]@.target == state.conflicts@[ci]@.target)
}

proof fn lemma_first_matching_finds(transfers: Seq<TransferModel>, source: PathModel, target: PathModel, position: int, from: int)
    requires
        0 <= from <= position < transfers.len(),
        transfers[position].source == source && transfers[position].target == target,
        forall|j: int| 0 <= j < position ==> !(#[trigger] transfers[j].source == source && transfers[j].target == target),
    ensures
        first_matching(transfers, source, target, from) == Some(position),
    decreases position - from,
{
    if from < position {
        lemma_first_matching_finds(transfers, source, target, position, from + 1);
    }
}

/// Deciding the current conflict marks the transfer it is about, and only
/// it: Replace lets the copy overwrite the target, Skip leaves the source
/// where it is, Rename keeps both under the transfer engine's naming. Keep
/// both and Merge are decided elsewhere and change nothing here.
pub proof fn lemma_choice_marks_the_conflicting_transfer(
    before: TransferConflictState,
    after: TransferConflictState,
    choice: TransferConflictChoice,
    position: int,
)
    requires
        conflict_choice_outcome(before, after, choice),
        is_current_conflict_transfer(before, position),
    ensures
        after.transfers@.len() == before.transfers@.len(),
        forall|j: int| 0 <= j < before.transfers@.len() && j != position ==> #[trigger] after.transfers@[j]@ == before.transfers@[j]@,
        after.transfers@[position]@.source == before.transfers@[position]@.source,
        after.transfers@[position]@.target == before.transfers@[position]@.target,
        choice == TransferConflictChoice::Replace ==> after.transfers@[position].conflict_strategy
            == TransferConflictStrategy::Replace,
        choice == TransferConflictChoice::Skip ==> after.transfers@[position].conflict_strategy
            == TransferConflictStrategy::Skip,
        choice == TransferConflictChoice::Rename ==> after.transfers@[position].conflict_strategy
            == TransferConflictStrategy::KeepBoth,
        choice == TransferConflictChoice::KeepBoth || choice == TransferConflictChoice::Merge ==> after == before,
{
    let views = transfer_views(before.transfers@);
    let conflict = before.conflicts@[before.current_index as int]@;
    assert forall|j: int| 0 <= j < position implies !(#[trigger] views[j].source == conflict.source
        && views[j].target == conflict.target) by {
        assert(views[j] == before.transfers@[j]@);
    }
    lemma_first_matching_finds(views, conflict.source, conflict.target, position, 0);
    assert(current_conflict_spec(before) == Some(conflict));
    if let Some(strategy) = strategy_for_choice(choice) {
        assert(transfer_views(after.transfers@) == views.update(
            position,
            TransferModel { conflict_strategy: strategy, ..views[position] },
        ));
        assert(transfer_views(after.transfers@).len() == after.transfers@.len());
        assert(after.transfers@.len() == before.transfers@.len());
    }
    assert forall|j: int| 0 <= j < before.transfers@.len() && j != position implies #[trigger] after.transfers@[j]@
        == before.transfers@[j]@ by {
        if strategy_for_choice(choice) is Some {
            assert(transfer_views(after.transfers@)[j] == after.transfers@[j]@);
            assert(views[j] == before.transfers@[j]@);
        }
    }
    if strategy_for_choice(choice) is Some {
        assert(transfer_views(after.transfers@)[position] == after.transfers@[position]@);
        assert(views[position] == before.transfers@[position]@);
    }
}

/// What `apply_conflict_choice` does to `before`, giving `after`.
pub open spec fn conflict_choice_outcome(
    before: TransferConflictState,
    after: TransferConflictState,
    choice: TransferConflictChoice,
) -> bool {
    match current_conflict_spec(before) {
        Some(conflict) => match first_matching(
            transfer_views(before.transfers@),
            conflict.source,
            conflict.target,
            0,
        ) {
            Some(position) => match strategy_for_choice(choice) {
                Some(strategy) => {
                    &&& transfer_views(after.transfers@) == transfer_views(
                        before.transfers@,
                    ).update(
                        position,
                        TransferModel {
                            conflict_strategy: strategy,
                            ..transfer_views(before.transfers@)[position]
                        },
                    )
                    &&& after.conflicts == before.conflicts
                    &&& after.current_index == before.current_index
                    &&& after.apply_to_all == before.apply_to_all
                    &&& after.mode == before.mode
                },
                None => after == before,
            },
            None => after == before,
        },
        None => after == before,
    }
}

/// `apply_conflict_choice`: marks the current conflict's transfer with the
/// strategy of `choice` (Replace, Skip, or Rename = keep both by the engine's
/// own naming); other choices, and a conflict without its transfer, change
/// nothing.
pub fn apply_conflict_choice(state: &mut TransferConflictState, choice: TransferConflictChoice)
    ensures
        conflict_choice_outcome(*old(state), *final(state), choice),
        forall|position: int|
            is_current_conflict_transfer(*old(state), position) ==> {
                &&& final(state).transfers@.len() == old(state).transfers@.len()
                &&& final(state).transfers@[position]@.source == old(state).transfers@[position]@.source
                &&& final(state).transfers@[position]@.target == old(state).transfers@[position]@.target
                &&& (choice == TransferConflictChoice::Replace ==> final(state).transfers@[position].conflict_strategy
                    == TransferConflictStrategy::Replace)
                &&& (choice == TransferConflictChoice::Skip ==> final(state).transfers@[position].conflict_strategy
                    == TransferConflictStrategy::Skip)
                &&& (choice == TransferConflictChoice::Rename ==> final(state).transfers@[position].conflict_strategy
                    == TransferConflictStrategy::KeepBoth)
            },
        choice == TransferConflictChoice::KeepBoth || choice == TransferConflictChoice::Merge ==> *final(state) == *old(state),
{
    mark_conflict_transfer(state, choice);
    proof {
        assert forall|position: int| is_current_conflict_transfer(*old(state), position) implies {
            &&& state.transfers@.len() == old(state).transfers@.len()
            &&& state.transfers@[position]@.source == old(state).transfers@[position]@.source
            &&& state.transfers@[position]@.target == old(state).transfers@[position]@.target
            &&& (choice == TransferConflictChoice::Replace ==> state.transfers@[position].conflict_strategy
                == TransferConflictStrategy::Replace)
            &&& (choice == TransferConflictChoice::Skip ==> state.transfers@[position].conflict_strategy
                == TransferConflictStrategy::Skip)
            &&& (choice == TransferConflictChoice::Rename ==> state.transfers@[position].conflict_strategy
                == TransferConflictStrategy::KeepBoth)
        } by {
            lemma_choice_marks_the_conflicting_transfer(*old(state), *state, choice, position);
        }
    }
}

fn mark_conflict_transfer(state: &mut TransferConflictState, choice: TransferConflictChoice)
    ensures
        conflict_choice_outcome(*old(state), *final(state), choice),
{
    if state.current_index >= state.conflicts.len() {
        return ;
    }
    let position = match conflict_transfer_position(state, &state.conflicts[state.current_index]) {
        Some(position) => position,
        None => return ,
    };
    let strategy = match choice {
        TransferConflictChoice::Replace => TransferConflictStrategy::Replace,
        TransferConflictChoice::Skip => TransferConflictStrategy::Skip,
        TransferConflictChoice::Rename => TransferConflictStrategy::KeepBoth,
        TransferConflictChoice::KeepBoth | TransferConflictChoice::Merge => return ,
    };
    let updated = QueuedTransfer {
        source: state.transfers[position].source.duplicate(),
        target: state.transfers[position].target.duplicate(),
        conflict_strategy: strategy,
    };
    state.transfers.set(position, updated);
    assert(transfer_views(state.transfers@) =~= transfer_views(old(state).transfers@).update(
        position as int,
        TransferModel {
            conflict_strategy: strategy,
            ..transfer_views(old(state).transfers@)[position as int]
        },
    ));
}

// ---------------------------------------------------------------------------
// Keep both
// ---------------------------------------------------------------------------

/// The directory a kept-both target is renamed in: the target's parent, or
/// the empty relative path.
pub open spec fn keep_both_parent(target: PathModel) -> PathModel {
    match parent_spec(target) {
        Some(parent) => parent,
        None => PathModel { absolute: false, components: Seq::empty() },
    }
}

pub open spec fn keep_both_name(target: PathModel) -> Seq<char> {
    match file_name_spec(target) {
        Some(name) => name,
        None => "item"@,
    }
}

/// The new target of a kept-both conflict: the first free duplicate of the
/// target's name among `taken` (a directory gets the marker at the end of its
/// name, a file before its extension).
pub open spec fn keep_both_target_spec(conflict: ConflictModel, taken: Seq<PathModel>) -> PathModel {
    let parent = keep_both_parent(conflict.target);
    join_spec(
        parent,
        first_free_duplicate(
            keep_both_name(conflict.target),
            conflict.source_is_directory,
            parent,
            taken,
        ),
    )
}

/// A kept-both target is never one of the taken paths: the renamed copy
/// overwrites nothing that exists and no target already reserved by the
/// batch.
pub proof fn lemma_kept_both_target_is_free(conflict: ConflictModel, taken: Seq<PathModel>)
    ensures
        !taken.contains(keep_both_target_spec(conflict, taken)),
{
    crate::naming::lemma_first_free_duplicate_exists(
        keep_both_name(conflict.target),
        conflict.source_is_directory,
        keep_both_parent(conflict.target),
        taken,
    );
}

/// `keep_both_transfer_target`; `taken` lists the paths that exist on disk or
/// are reserved by the batch.
pub fn keep_both_transfer_target(conflict: &TransferConflictItem, taken: &Vec<FsPath>) -> (target: FsPath)
    requires
        taken@.len() + 2 < u32::MAX,
    ensures
        target@ == keep_both_target_spec(conflict@, path_views(taken@)),
{
    let parent = match conflict.target.parent() {
        Some(parent) => parent,
        None => FsPath::new(false, Vec::new()),
    };
    assert(parent@ =~= keep_both_parent(conflict@.target));
    let name = match conflict.target.file_name() {
        Some(name) => name,
        None => String::from_str("item"),
    };
    let unique = unique_duplicated_name(
        name.as_str(),
        conflict.source_metadata.is_directory,
        &parent,
        taken,
    );
    proof {
        lemma_first_free_duplicate_unique(
            unique@,
            name@,
            conflict.source_metadata.is_directory,
            parent@,
            path_views(taken@),
        );
    }
    parent.join_name(unique.as_str())
}

/// One keep-both step on transfers `transfers` at conflict `index` with paths
/// `reserved` taken: `None` when there is no current conflict or it has no
/// transfer; otherwise the rewritten transfers, the next index and the
/// reservations including the new target.
pub open spec fn keep_both_step_spec(
    transfers: Seq<TransferModel>,
    conflicts: Seq<ConflictModel>,
    index: int,
    reserved: Seq<PathModel>,
) -> Option<(Seq<TransferModel>, int, Seq<PathModel>)> {
    if index < 0 || index >= conflicts.len() {
        None
    } else {
        let conflict = conflicts[index];
        match first_matching(transfers, conflict.source, conflict.target, 0) {
            None => None,
            Some(position) => {
                let target = keep_both_target_spec(conflict, reserved);
                Some(
                    (
                        transfers.update(
                            position,
                            TransferModel { target: target, ..transfers[position] },
                        ),
                        index + 1,
                        reserved.push(target),
                    ),
                )
            },
        }
    }
}

/// Keep-both applied from conflict `index`: one step, or steps until the
/// conflicts run out when applying to all.
pub open spec fn keep_both_spec(
    transfers: Seq<TransferModel>,
    conflicts: Seq<ConflictModel>,
    index: int,
    apply_to_all: bool,
    reserved: Seq<PathModel>,
) -> (Seq<TransferModel>, int)
    decreases conflicts.len() - index,
{
    match keep_both_step_spec(transfers, conflicts, index, reserved) {
        None => (transfers, index),
        Some((next_transfers, next_index, next_reserved)) => if apply_to_all && index >= 0 && index
            < conflicts.len() {
            keep_both_spec(next_transfers, conflicts, next_index, true, next_reserved)
        } else {
            (next_transfers, next_index)
        },
    }
}

pub open spec fn transfer_targets_of(transfers: Seq<TransferModel>) -> Seq<PathModel> {
    transfers.map_values(|t: TransferModel| t.target)
}

fn keep_both_step(state: &mut TransferConflictState, reserved: &mut Vec<FsPath>) -> (progressed: bool)
    requires
        old(reserved)@.len() + old(state).conflicts@.len() - old(state).current_index + 2
            < u32::MAX,
        old(state).current_index <= old(state).conflicts@.len(),
    ensures
        ({
            let step = keep_both_step_spec(
                transfer_views(old(state).transfers@),
                conflict_views(old(state).conflicts@),
                old(state).current_index as int,
                path_views(old(reserved)@),
            );
            match step {
                None => !progressed && *final(state) == *old(state) && final(reserved)@ == old(
                    reserved,
                )@,
                Some((t, i, r)) => {
                    &&& progressed
                    &&& transfer_views(final(state).transfers@) == t
                    &&& final(state).current_index as int == i
                    &&& path_views(final(reserved)@) == r
                    &&& final(reserved)@.len() == old(reserved)@.len() + 1
                    &&& final(state).conflicts == old(state).conflicts
                    &&& final(state).mode == old(state).mode
                    &&& final(state).apply_to_all == old(state).apply_to_all
                },
            }
        }),
        final(state).current_index <= final(state).conflicts@.len(),
{
    if state.current_index >= state.conflicts.len() {
        return false;
    }
    let index = state.current_index;
    assert(conflict_views(state.conflicts@)[index as int] == state.conflicts@[index as int]@);
    let position = match conflict_transfer_position(state, &state.conflicts[index]) {
        Some(position) => position,
        None => return false,
    };
    let target = keep_both_transfer_target(&state.conflicts[index], reserved);
    let updated = QueuedTransfer {
        source: state.transfers[position].source.duplicate(),
        target: target.duplicate(),
        conflict_strategy: state.transfers[position].conflict_strategy,
    };
    reserved.push(target);
    state.transfers.set(position, updated);
    state.current_index = index + 1;
    proof {
        let views = transfer_views(old(state).transfers@);
        assert(transfer_views(state.transfers@) =~= views.update(
            position as int,
            TransferModel {
                target: keep_both_target_spec(
                    conflict_views(old(state).conflicts@)[index as int],
                    path_views(old(reserved)@),
                ),
                ..views[position as int]
            },
        ));
        assert(path_views(reserved@) =~= path_views(old(reserved)@).push(
            keep_both_target_spec(
                conflict_views(old(state).conflicts@)[index as int],
                path_views(old(reserved)@),
            ),
        ));
    }
    true
}

/// `apply_keep_both_choice`: the current conflict's transfer (every remaining
/// one when applying to all) gets the first free duplicate name; the paths in
/// `existing` and every target of the batch count as taken, so renamed
/// targets never collide with each other. With no current conflict (the
/// index past the end) nothing changes.
pub fn apply_keep_both_choice(state: &mut TransferConflictState, existing: &Vec<FsPath>)
    requires
        existing@.len() + old(state).transfers@.len() + old(state).conflicts@.len() + 2 < u32::MAX,
    ensures
        old(state).current_index > old(state).conflicts@.len() ==> *final(state) == *old(state),
        ({
            let (t, i) = keep_both_spec(
                transfer_views(old(state).transfers@),
                conflict_views(old(state).conflicts@),
                old(state).current_index as int,
                old(state).apply_to_all,
                path_views(existing@) + transfer_targets_of(transfer_views(old(state).transfers@)),
            );
            &&& transfer_views(final(state).transfers@) == t
            &&& final(state).current_index as int == i
            &&& final(state).conflicts == old(state).conflicts
            &&& final(state).mode == old(state).mode
            &&& final(state).apply_to_all == old(state).apply_to_all
        }),
{
    if state.current_index > state.conflicts.len() {
        return ;
    }
    let mut reserved: Vec<FsPath> = Vec::new();
    let mut i: usize = 0;
    while i < existing.len()
        invariant
            i <= existing@.len(),
            path_views(reserved@) == path_views(existing@).take(i as int),
            reserved@.len() == i,
        decreases existing@.len() - i,
    {
        reserved.push(existing[i].duplicate());
        assert(path_views(reserved@) =~= path_views(existing@).take(i + 1));
        i = i + 1;
    }
    let mut j: usize = 0;
    while j < state.transfers.len()
        invariant
            j <= state.transfers@.len(),
            state == old(state),
            reserved@.len() == existing@.len() + j,
            path_views(reserved@) == path_views(existing@) + transfer_targets_of(
                transfer_views(state.transfers@),
            ).take(j as int),
        decreases state.transfers@.len() - j,
    {
        let ghost before = path_views(reserved@);
        reserved.push(state.transfers[j].target.duplicate());
        assert(transfer_targets_of(transfer_views(state.transfers@))[j as int]
            == state.transfers@[j as int].target@);
        assert(path_views(reserved@) =~= before.push(state.transfers@[j as int].target@));
        assert(path_views(reserved@) =~= path_views(existing@) + transfer_targets_of(
            transfer_views(state.transfers@),
        ).take(j + 1));
        j = j + 1;
    }
    assert(transfer_targets_of(transfer_views(state.transfers@)).take(
        state.transfers@.len() as int,
    ) =~= transfer_targets_of(transfer_views(state.transfers@)));
    let ghost reserved0 = path_views(reserved@);
    if !state.apply_to_all {
        keep_both_step(state, &mut reserved);
        return ;
    }
    let ghost t0 = transfer_views(state.transfers@);
    let ghost i0 = state.current_index as int;
    let ghost c0 = conflict_views(state.conflicts@);
    while keep_both_step(state, &mut reserved)
        invariant
            state.apply_to_all,
            state.conflicts == old(state).conflicts,
            state.mode == old(state).mode,
            c0 == conflict_views(state.conflicts@),
            state.current_index <= state.conflicts@.len(),
            reserved@.len() + state.conflicts@.len() - state.current_index + 2 < u32::MAX,
            keep_both_spec(t0, c0, i0, true, reserved0) == keep_both_spec(
                transfer_views(state.transfers@),
                c0,
                state.current_index as int,
                true,
                path_views(reserved@),
            ),
        decreases state.conflicts@.len() - state.current_index,
    {
    }
}

// ---------------------------------------------------------------------------
// Merge
// ---------------------------------------------------------------------------

/// The directory pairs a merge covers: the current conflict, or every
/// conflict when applying to all, keeping only mergeable ones.
pub open spec fn mergeable_pairs_of(conflicts: Seq<ConflictModel>) -> Seq<(PathModel, PathModel)>
    decreases conflicts.len(),
{
    if conflicts.len() == 0 {
        Seq::empty()
    } else {
        let rest = mergeable_pairs_of(conflicts.drop_last());
        let last = conflicts.last();
        if can_merge_spec(last) {
            rest.push((last.source, last.target))
        } else {
            rest
        }
    }
}

pub open spec fn merge_scope(state: TransferConflictState) -> Seq<ConflictModel> {
    if state.apply_to_all {
        conflict_views(state.conflicts@)
    } else if state.current_index < state.conflicts@.len() {
        seq![state.conflicts@[state.current_index as int]@]
    } else {
        Seq::empty()
    }
}

pub open spec fn pair_views(pairs: Seq<(FsPath, FsPath)>) -> Seq<(PathModel, PathModel)> {
    pairs.map_values(|p: (FsPath, FsPath)| (p.0@, p.1@))
}

/// `mergeable_conflict_pairs`.
pub fn mergeable_conflict_pairs(state: &TransferConflictState) -> (pairs: Vec<(FsPath, FsPath)>)
    ensures
        pair_views(pairs@) == mergeable_pairs_of(merge_scope(*state)),
{
    let mut pairs: Vec<(FsPath, FsPath)> = Vec::new();
    if !state.apply_to_all {
        if state.current_index < state.conflicts.len() {
            let conflict = &state.conflicts[state.current_index];
            let ghost scope = merge_scope(*state);
            assert(scope.drop_last() =~= Seq::<ConflictModel>::empty());
            assert(mergeable_pairs_of(scope.drop_last()) =~= Seq::<(PathModel, PathModel)>::empty());
            assert(scope.last() == conflict@);
            if conflict.can_merge() {
                pairs.push((conflict.source.duplicate(), conflict.target.duplicate()));
            }
            assert(pair_views(pairs@) =~= mergeable_pairs_of(scope));
        } else {
            assert(pair_views(pairs@) =~= mergeable_pairs_of(merge_scope(*state)));
        }
        return pairs;
    }
    let ghost views = conflict_views(state.conflicts@);
    let mut i: usize = 0;
    while i < state.conflicts.len()
        invariant
            i <= state.conflicts@.len(),
            views == conflict_views(state.conflicts@),
            pair_views(pairs@) == mergeable_pairs_of(views.take(i as int)),
        decreases state.conflicts@.len() - i,
    {
        let ghost prefix = views.take(i + 1);
        assert(prefix.drop_last() =~= views.take(i as int));
        assert(prefix.last() == state.conflicts@[i as int]@);
        let conflict = &state.conflicts[i];
        if conflict.can_merge() {
            pairs.push((conflict.source.duplicate(), conflict.target.duplicate()));
            assert(pair_views(pairs@) =~= mergeable_pairs_of(prefix));
        }
        i = i + 1;
    }
    assert(views.take(state.conflicts@.len() as int) =~= views);
    pairs
}


// ---------------------------------------------------------------------------
// The dialog in the browser
// ---------------------------------------------------------------------------

/// Work handed back to the application when merges are chosen: expand the
/// merged directory pairs into their children and check the combined batch
/// for conflicts again.
#[derive(Debug)]
pub struct ConflictMergeExpansion {
    pub mode: TransferConflictMode,
    pub merge_pairs: Vec<(FsPath, FsPath)>,
    pub remaining_transfers: Vec<QueuedTransfer>,
    pub remaining_conflicts: Vec<TransferConflictItem>,
}

/// Whether `(source, target)` is one of `pairs`.
pub open spec fn in_pairs(pairs: Seq<(PathModel, PathModel)>, source: PathModel, target: PathModel) -> bool {
    exists|i: int| 0 <= i < pairs.len() && #[trigger] pairs[i] == (source, target)
}

pub open spec fn transfers_outside_pairs(transfers: Seq<TransferModel>, pairs: Seq<(PathModel, PathModel)>) -> Seq<TransferModel>
    decreases transfers.len(),
{
    if transfers.len() == 0 {
        Seq::empty()
    } else {
        let rest = transfers_outside_pairs(transfers.drop_last(), pairs);
        let last = transfers.last();
        if in_pairs(pairs, last.source, last.target) {
            rest
        } else {
            rest.push(last)
        }
    }
}

pub open spec fn conflicts_outside_pairs(conflicts: Seq<ConflictModel>, pairs: Seq<(PathModel, PathModel)>) -> Seq<ConflictModel>
    decreases conflicts.len(),
{
    if conflicts.len() == 0 {
        Seq::empty()
    } else {
        let rest = conflicts_outside_pairs(conflicts.drop_last(), pairs);
        let last = conflicts.last();
        if in_pairs(pairs, last.source, last.target) {
            rest
        } else {
            rest.push(last)
        }
    }
}

fn pair_listed(pairs: &Vec<(FsPath, FsPath)>, source: &FsPath, target: &FsPath) -> (listed: bool)
    ensures
        listed == in_pairs(pair_views(pairs@), source@, target@),
{
    let mut i: usize = 0;
    while i < pairs.len()
        invariant
            i <= pairs@.len(),
            forall|j: int| 0 <= j < i ==> #[trigger] pair_views(pairs@)[j] != (source@, target@),
        decreases pairs@.len() - i,
    {
        if pairs[i].0.same_as(source) && pairs[i].1.same_as(target) {
            assert(pair_views(pairs@)[i as int] == (source@, target@));
            return true;
        }
        i = i + 1;
    }
    false
}

/// Strategy marks of Replace / Skip / Rename applied from conflict `index`:
/// one conflict, or all remaining ones when applying to all.
pub open spec fn choice_spec(
    transfers: Seq<TransferModel>,
    conflicts: Seq<ConflictModel>,
    index: int,
    apply_to_all: bool,
    strategy: TransferConflictStrategy,
) -> (Seq<TransferModel>, int)
    decreases conflicts.len() - index,
{
    if index < 0 || index >= conflicts.len() {
        (transfers, index)
    } else {
        let conflict = conflicts[index];
        let marked = match first_matching(transfers, conflict.source, conflict.target, 0) {
            Some(position) => transfers.update(
                position,
                TransferModel { conflict_strategy: strategy, ..transfers[position] },
            ),
            None => transfers,
        };
        if apply_to_all {
            choice_spec(marked, conflicts, index + 1, true, strategy)
        } else {
            (marked, index + 1)
        }
    }
}

/// The queued operation for a conflict-free batch.
pub open spec fn queued_transfer_operation(
    operation: QueuedFileOperation,
    mode: TransferConflictMode,
    transfers: Seq<TransferModel>,
    verification: FileOperationVerification,
) -> bool {
    match mode {
        TransferConflictMode::Copy => operation matches QueuedFileOperation::Copy {
            transfers: t,
            verification: v,
        } && transfer_views(t@) == transfers && v == verification,
        TransferConflictMode::Move => operation matches QueuedFileOperation::Move {
            transfers: t,
            verification: v,
        } && transfer_views(t@) == transfers && v == verification,
    }
}

/// The browser after the dialog reached `transfers` at conflict `index`: all
/// conflicts decided closes the dialog and queues the batch; otherwise the
/// dialog stays on the next conflict.
pub open spec fn finish_or_continue_spec(
    before: FileBrowser,
    after: FileBrowser,
    state: TransferConflictState,
    transfers: Seq<TransferModel>,
    index: int,
) -> bool {
    if index >= state.conflicts@.len() {
        &&& after.transfer_conflict is None
        &&& after.operation_queue.tasks@.len() == before.operation_queue.tasks@.len() + 1
        &&& after.operation_queue.tasks@.drop_last() =~= before.operation_queue.tasks@
        &&& queued_transfer_operation(
            after.operation_queue.tasks@.last(),
            state.mode,
            transfers,
            before.file_operation_verification,
        )
        &&& after.operation_queue.panel_open == before.operation_queue.panel_open
        &&& after == (FileBrowser {
            transfer_conflict: None,
            operation_queue: after.operation_queue,
            ..before
        })
    } else {
        &&& after.transfer_conflict matches Some(next) && transfer_views(next.transfers@)
            == transfers && next.current_index == index && next.conflicts == state.conflicts
            && next.mode == state.mode && next.apply_to_all == state.apply_to_all
        &&& after == (FileBrowser { transfer_conflict: after.transfer_conflict, ..before })
    }
}

/// What the outcome of a conflict check does (see
/// `accept_transfer_conflicts_checked`).
pub open spec fn conflicts_checked_outcome(
    before: FileBrowser,
    after: FileBrowser,
    mode: TransferConflictMode,
    transfers: Vec<QueuedTransfer>,
    conflicts: Vec<TransferConflictItem>,
) -> bool {
    &&& conflicts@.len() == 0 ==> {
        &&& after.operation_queue.tasks@.len() == before.operation_queue.tasks@.len() + 1
        &&& after.operation_queue.tasks@.drop_last() =~= before.operation_queue.tasks@
        &&& queued_transfer_operation(
            after.operation_queue.tasks@.last(),
            mode,
            transfer_views(transfers@),
            before.file_operation_verification,
        )
        &&& after == (FileBrowser { operation_queue: after.operation_queue, ..before })
    }
    &&& conflicts@.len() > 0 ==> {
        &&& after.transfer_conflict == Some(
            TransferConflictState {
                mode: mode,
                transfers: transfers,
                conflicts: conflicts,
                current_index: 0,
                apply_to_all: false,
            },
        )
        &&& after.operation_queue == (crate::operations::OperationQueue {
            panel_open: false,
            ..before.operation_queue
        })
        &&& after == (FileBrowser {
            transfer_conflict: after.transfer_conflict,
            global_error: None,
            context_menu: None,
            operation_queue: after.operation_queue,
            ..before
        })
    }
}

/// What `resolve_transfer_conflict_choice` asks of the browser: the
/// counts fit and the dialog's position is within its conflicts.
pub open spec fn choice_requirements(browser: FileBrowser, existing: Seq<FsPath>) -> bool {
    browser.transfer_conflict matches Some(state) ==> existing.len()
        + state.transfers@.len() + state.conflicts@.len() + 2 < u32::MAX
        && state.current_index <= state.conflicts@.len()
}

/// What `resolve_transfer_conflict_choice` does.
pub open spec fn choice_outcome(
    before_choice: FileBrowser,
    after: FileBrowser,
    choice: TransferConflictChoice,
    existing: Seq<FsPath>,
    expansion: Option<ConflictMergeExpansion>,
) -> bool {
    match before_choice.transfer_conflict {
        None => after == before_choice && expansion is None,
        Some(state) => {
            let before = FileBrowser { transfer_conflict: None, ..before_choice };
            match choice {
                TransferConflictChoice::Merge => {
                    let pairs = mergeable_pairs_of(merge_scope(state));
                    if pairs.len() == 0 {
                        expansion is None && after == before_choice
                    } else {
                        &&& after == before
                        &&& expansion matches Some(e) && e.mode == state.mode
                            && pair_views(e.merge_pairs@) == pairs && transfer_views(
                            e.remaining_transfers@,
                        ) == transfers_outside_pairs(transfer_views(state.transfers@), pairs)
                            && conflict_views(e.remaining_conflicts@)
                            == conflicts_outside_pairs(conflict_views(state.conflicts@), pairs)
                    }
                },
                TransferConflictChoice::KeepBoth => {
                    let (t, i) = keep_both_spec(
                        transfer_views(state.transfers@),
                        conflict_views(state.conflicts@),
                        state.current_index as int,
                        state.apply_to_all,
                        path_views(existing) + transfer_targets_of(
                            transfer_views(state.transfers@),
                        ),
                    );
                    expansion is None && finish_or_continue_spec(before, after, state, t, i)
                },
                _ => {
                    let (t, i) = choice_spec(
                        transfer_views(state.transfers@),
                        conflict_views(state.conflicts@),
                        state.current_index as int,
                        state.apply_to_all,
                        strategy_for_choice(choice)->0,
                    );
                    expansion is None && finish_or_continue_spec(before, after, state, t, i)
                },
            }
        },
    }
}

impl FileBrowser {
    pub fn toggle_transfer_conflict_apply_to_all(&mut self)
        ensures
            *final(self) == (FileBrowser {
                transfer_conflict: match old(self).transfer_conflict {
                    Some(state) => Some(
                        TransferConflictState { apply_to_all: !state.apply_to_all, ..state },
                    ),
                    None => None,
                },
                ..*old(self)
            }),
            old(self).collections_well_formed() ==> final(self).collections_well_formed(),
    {
        match self.transfer_conflict.take() {
            Some(state) => {
                self.transfer_conflict = Some(
                    TransferConflictState {
                        mode: state.mode,
                        transfers: state.transfers,
                        conflicts: state.conflicts,
                        current_index: state.current_index,
                        apply_to_all: !state.apply_to_all,
                    },
                );
            },
            None => {},
        }
    }

    pub fn cancel_transfer_conflict(&mut self)
        ensures
            *final(self) == (FileBrowser { transfer_conflict: None, ..*old(self) }),
            old(self).collections_well_formed() ==> final(self).collections_well_formed(),
    {
        self.transfer_conflict = None;
    }

    /// Queues a conflict-free batch as one copy or move.
    pub fn enqueue_transfer_operation(&mut self, mode: TransferConflictMode, transfers: Vec<QueuedTransfer>)
        ensures
            final(self).operation_queue.tasks@.len() == old(self).operation_queue.tasks@.len() + 1,
            final(self).operation_queue.tasks@.drop_last() =~= old(self).operation_queue.tasks@,
            queued_transfer_operation(
                final(self).operation_queue.tasks@.last(),
                mode,
                transfer_views(transfers@),
                old(self).file_operation_verification,
            ),
            final(self).operation_queue.panel_open == old(self).operation_queue.panel_open,
            *final(self) == (FileBrowser { operation_queue: final(self).operation_queue, ..*old(self) }),
            old(self).collections_well_formed() ==> final(self).collections_well_formed(),
    {
        let verification = self.file_operation_verification;
        match mode {
            TransferConflictMode::Copy => self.operation_queue.enqueue(
                QueuedFileOperation::Copy { transfers, verification },
            ),
            TransferConflictMode::Move => self.operation_queue.enqueue(
                QueuedFileOperation::Move { transfers, verification },
            ),
        }
    }

    /// The outcome of checking a batch for conflicts: no conflicts queues it;
    /// otherwise the dialog opens on the first conflict (closing the context
    /// menu and queue panel and clearing the error banner).
    pub fn accept_transfer_conflicts_checked(
        &mut self,
        mode: TransferConflictMode,
        transfers: Vec<QueuedTransfer>,
        conflicts: Vec<TransferConflictItem>,
    )
        ensures
            conflicts_checked_outcome(*old(self), *final(self), mode, transfers, conflicts),
    {
        if conflicts.len() == 0 {
            self.enqueue_transfer_operation(mode, transfers);
            return ;
        }
        self.clear_global_error();
        self.context_menu = None;
        self.operation_queue.close_panel();
        self.transfer_conflict = Some(
            TransferConflictState { mode, transfers, conflicts, current_index: 0, apply_to_all: false },
        );
    }

    fn finish_or_continue_transfer_conflicts(&mut self, state: TransferConflictState)
        ensures
            finish_or_continue_spec(
                *old(self),
                *final(self),
                state,
                transfer_views(state.transfers@),
                state.current_index as int,
            ),
    {
        if state.current_index >= state.conflicts.len() {
            self.transfer_conflict = None;
            self.enqueue_transfer_operation(state.mode, state.transfers);
            return ;
        }
        self.transfer_conflict = Some(state);
    }

    /// Takes the merge choice: the mergeable pairs leave the batch and its
    /// conflicts and are handed back for expansion; with nothing mergeable the
    /// dialog stays as it is.
    fn expand_transfer_conflict_merges(&mut self, state: TransferConflictState) -> (expansion: Option<ConflictMergeExpansion>)
        requires
            old(self).transfer_conflict is None,
        ensures
            ({
                let pairs = mergeable_pairs_of(merge_scope(state));
                if pairs.len() == 0 {
                    expansion is None && *final(self) == (FileBrowser {
                        transfer_conflict: Some(state),
                        ..*old(self)
                    })
                } else {
                    &&& *final(self) == *old(self)
                    &&& expansion matches Some(e) && e.mode == state.mode && pair_views(e.merge_pairs@)
                        == pairs && transfer_views(e.remaining_transfers@) == transfers_outside_pairs(
                        transfer_views(state.transfers@),
                        pairs,
                    ) && conflict_views(e.remaining_conflicts@) == conflicts_outside_pairs(
                        conflict_views(state.conflicts@),
                        pairs,
                    )
                }
            }),
    {
        let merge_pairs = mergeable_conflict_pairs(&state);
        if merge_pairs.len() == 0 {
            self.transfer_conflict = Some(state);
            return None;
        }
        let ghost pairs = pair_views(merge_pairs@);
        let ghost tviews = transfer_views(state.transfers@);
        let mut remaining_transfers: Vec<QueuedTransfer> = Vec::new();
        let mut i: usize = 0;
        while i < state.transfers.len()
            invariant
                i <= state.transfers@.len(),
                pairs == pair_views(merge_pairs@),
                tviews == transfer_views(state.transfers@),
                transfer_views(remaining_transfers@) == transfers_outside_pairs(tviews.take(i as int), pairs),
            decreases state.transfers@.len() - i,
        {
            let ghost prefix = tviews.take(i + 1);
            assert(prefix.drop_last() =~= tviews.take(i as int));
            assert(prefix.last() == state.transfers@[i as int]@);
            let transfer = &state.transfers[i];
            if !pair_listed(&merge_pairs, &transfer.source, &transfer.target) {
                remaining_transfers.push(transfer.duplicate());
                assert(transfer_views(remaining_transfers@) =~= transfers_outside_pairs(prefix, pairs));
            }
            i = i + 1;
        }
        assert(tviews.take(state.transfers@.len() as int) =~= tviews);
        let ghost cviews = conflict_views(state.conflicts@);
        let mut remaining_conflicts: Vec<TransferConflictItem> = Vec::new();
        let mut j: usize = 0;
        while j < state.conflicts.len()
            invariant
                j <= state.conflicts@.len(),
                pairs == pair_views(merge_pairs@),
                cviews == conflict_views(state.conflicts@),
                conflict_views(remaining_conflicts@) == conflicts_outside_pairs(cviews.take(j as int), pairs),
            decreases state.conflicts@.len() - j,
        {
            let ghost prefix = cviews.take(j + 1);
            assert(prefix.drop_last() =~= cviews.take(j as int));
            assert(prefix.last() == state.conflicts@[j as int]@);
            let conflict = &state.conflicts[j];
            if !pair_listed(&merge_pairs, &conflict.source, &conflict.target) {
                remaining_conflicts.push(TransferConflictItem {
                    source: conflict.source.duplicate(),
                    target: conflict.target.duplicate(),
                    source_metadata: conflict.source_metadata,
                    target_metadata: conflict.target_metadata,
                });
                assert(conflict_views(remaining_conflicts@) =~= conflicts_outside_pairs(prefix, pairs));
            }
            j = j + 1;
        }
        assert(cviews.take(state.conflicts@.len() as int) =~= cviews);
        Some(ConflictMergeExpansion {
            mode: state.mode,
            merge_pairs,
            remaining_transfers,
            remaining_conflicts,
        })
    }

    /// Applies the user's choice to the current conflict (to every remaining
    /// one when applying to all). `existing` lists the paths that exist where
    /// kept-both targets are renamed. Merge hands the mergeable pairs back for
    /// expansion; the other choices move the dialog on and, once every
    /// conflict is decided, queue the batch.
    pub fn resolve_transfer_conflict_choice(&mut self, choice: TransferConflictChoice, existing: &Vec<FsPath>) -> (expansion: Option<ConflictMergeExpansion>)
        requires
            choice_requirements(*old(self), existing@),
        ensures
            choice_outcome(*old(self), *final(self), choice, existing@, expansion),
            old(self).collections_well_formed() ==> final(self).collections_well_formed(),
    {
        let mut state = match self.transfer_conflict.take() {
            Some(state) => state,
            None => return None,
        };
        match choice {
            TransferConflictChoice::Merge => {
                return self.expand_transfer_conflict_merges(state);
            },
            TransferConflictChoice::KeepBoth => {
                apply_keep_both_choice(&mut state, existing);
            },
            TransferConflictChoice::Replace | TransferConflictChoice::Skip
            | TransferConflictChoice::Rename => {
                let apply_to_all = state.apply_to_all;
                let ghost strategy = strategy_for_choice(choice)->0;
                let ghost t0 = transfer_views(state.transfers@);
                let ghost i0 = state.current_index as int;
                let ghost c0 = conflict_views(state.conflicts@);
                let ghost conflicts0 = state.conflicts;
                let ghost mode0 = state.mode;
                loop
                    invariant_except_break
                        apply_to_all == state.apply_to_all,
                        state.conflicts == conflicts0,
                        state.mode == mode0,
                        c0 == conflict_views(state.conflicts@),
                        apply_to_all ==> choice_spec(t0, c0, i0, true, strategy) == choice_spec(
                            transfer_views(state.transfers@),
                            c0,
                            state.current_index as int,
                            true,
                            strategy,
                        ),
                        !apply_to_all ==> transfer_views(state.transfers@) == t0
                            && state.current_index as int == i0,
                    invariant
                        strategy == strategy_for_choice(choice)->0,
                        choice is Replace || choice is Skip || choice is Rename,
                        state.current_index <= state.conflicts@.len(),
                    ensures
                        state.conflicts == conflicts0,
                        state.mode == mode0,
                        state.apply_to_all == apply_to_all,
                        choice_spec(t0, c0, i0, apply_to_all, strategy) == (
                            transfer_views(state.transfers@),
                            state.current_index as int,
                        ),
                    decreases state.conflicts@.len() - state.current_index,
                {
                    if state.current_index >= state.conflicts.len() {
                        break;
                    }
                    apply_conflict_choice(&mut state, choice);
                    state.current_index = state.current_index + 1;
                    if !apply_to_all {
                        break;
                    }
                }
            },
        }
        self.finish_or_continue_transfer_conflicts(state);
        None
    }
}


/// The conflict dialog's messages.
#[derive(Debug, Clone, PartialEq, Eq)]
pub enum TransferConflictMessage {
    ChoiceSelected(TransferConflictChoice),
    ApplyToAllToggled,
    CancelRequested,
}

impl FileBrowser {
    /// `apply_transfer_conflict_message`: routes a message of the conflict
    /// dialog.
    pub fn apply_transfer_conflict_message(
        &mut self,
        message: TransferConflictMessage,
        existing: &Vec<FsPath>,
    ) -> (expansion: Option<ConflictMergeExpansion>)
        requires
            message is ChoiceSelected ==> choice_requirements(*old(self), existing@),
        ensures
            match message {
                TransferConflictMessage::ChoiceSelected(choice) => choice_outcome(
                    *old(self),
                    *final(self),
                    choice,
                    existing@,
                    expansion,
                ),
                TransferConflictMessage::ApplyToAllToggled => expansion is None && *final(self) == (FileBrowser {
                    transfer_conflict: match old(self).transfer_conflict {
                        Some(state) => Some(TransferConflictState { apply_to_all: !state.apply_to_all, ..state }),
                        None => None,
                    },
                    ..*old(self)
                }),
                TransferConflictMessage::CancelRequested => expansion is None && *final(self) == (FileBrowser {
                    transfer_conflict: None,
                    ..*old(self)
                }),
            },
    {
        match message {
            TransferConflictMessage::ChoiceSelected(choice) => self.resolve_transfer_conflict_choice(choice, existing),
            TransferConflictMessage::ApplyToAllToggled => {
                self.toggle_transfer_conflict_apply_to_all();
                None
            },
            TransferConflictMessage::CancelRequested => {
                self.cancel_transfer_conflict();
                None
            },
        }
    }

    /// `accept_expanded_transfer_conflict_merges`: the batch rebuilt after a
    /// merge goes through the conflict check's outcome again; a failed
    /// expansion shows its error.
    pub fn accept_expanded_transfer_conflict_merges(
        &mut self,
        mode: TransferConflictMode,
        expansion: Result<(Vec<QueuedTransfer>, Vec<TransferConflictItem>), String>,
    )
        ensures
            match expansion {
                Ok((transfers, conflicts)) => conflicts_checked_outcome(*old(self), *final(self), mode, transfers, conflicts),
                Err(error) => *final(self) == (FileBrowser { global_error: Some(error), ..*old(self) }),
            },
    {
        match expansion {
            Ok((transfers, conflicts)) => self.accept_transfer_conflicts_checked(mode, transfers, conflicts),
            Err(error) => self.show_global_error(error),
        }
    }
}

} // verus!
