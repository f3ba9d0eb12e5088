//! File operations waiting in the browser's operation queue.

use vstd::prelude::*;
use crate::config::FileOperationVerification;
use crate::paths::{FsPath, PathModel};

verus! {

/// How a transfer resolves a name clash at its target.
#[derive(Debug, Clone, Copy, PartialEq, Eq, Structural)]
pub enum TransferConflictStrategy {
    Replace,
    Skip,
    KeepBoth,
}

/// One source copied or moved to one target.
#[derive(Debug, Clone, PartialEq, Eq)]
pub struct QueuedTransfer {
    pub source: FsPath,
    pub target: FsPath,
    pub conflict_strategy: TransferConflictStrategy,
}

#[verifier::ext_equal]
pub struct TransferModel {
    pub source: PathModel,
    pub target: PathModel,
    pub conflict_strategy: TransferConflictStrategy,
}

impl View for QueuedTransfer {
    type V = TransferModel;

    open spec fn view(&self) -> TransferModel {
        TransferModel {
            source: self.source@,
            target: self.target@,
            conflict_strategy: self.conflict_strategy,
        }
    }
}

pub open spec fn transfer_views(transfers: Seq<QueuedTransfer>) -> Seq<TransferModel> {
    transfers.map_values(|t: QueuedTransfer| t@)
}

impl QueuedTransfer {
    /// A transfer that replaces nothing until the user decides otherwise
    /// (strategy `Replace` is what the transfer engine applies by default).
    pub fn new(source: FsPath, target: FsPath) -> (transfer: QueuedTransfer)
        ensures
            transfer@.source == source@,
            transfer@.target == target@,
            transfer.conflict_strategy == TransferConflictStrategy::Replace,
    {
        QueuedTransfer { source, target, conflict_strategy: TransferConflictStrategy::Replace }
    }

    pub fn duplicate(&self) -> (copy: QueuedTransfer)
        ensures
            copy@ == self@,
    {
        QueuedTransfer {
            source: self.source.duplicate(),
            target: self.target.duplicate(),
            conflict_strategy: self.conflict_strategy,
        }
    }
}

/// A secret for an encrypted archive; never empty.
#[derive(Debug, Clone, PartialEq, Eq)]
pub struct ArchivePassword {
    secret: String,
}

impl ArchivePassword {
    pub closed spec fn secret_view(&self) -> Seq<char> {
        self.secret@
    }

    /// `ArchivePassword::new`: `None` for the empty string.
    pub fn new(secret: String) -> (password: Option<ArchivePassword>)
        ensures
            secret@.len() == 0 <==> password is None,
            password matches Some(p) ==> p.secret_view() == secret@,
    {
        if secret.as_str().unicode_len() == 0 {
            None
        } else {
            Some(ArchivePassword { secret })
        }
    }

    pub fn as_str(&self) -> (secret: &str)
        ensures
            secret@ == self.secret_view(),
    {
        self.secret.as_str()
    }
}

/// A file operation waiting in the queue.
#[derive(Debug, Clone, PartialEq, Eq)]
pub enum QueuedFileOperation {
    Copy { transfers: Vec<QueuedTransfer>, verification: FileOperationVerification },
    Move { transfers: Vec<QueuedTransfer>, verification: FileOperationVerification },
    ExtractArchiveMembers {
        sources: Vec<FsPath>,
        destination: FsPath,
        password: Option<ArchivePassword>,
    },
    Trash { paths: Vec<FsPath> },
    /// Copies made next to their sources under new names.
    Duplicate { transfers: Vec<QueuedTransfer>, verification: FileOperationVerification },
    /// A new folder `directory` created, and `sources` moved into it.
    GatherSelectionIntoNewFolder { directory: FsPath, sources: Vec<FsPath> },
    /// A new folder made inside `parent` under the next free name.
    CreateDirectory { parent: FsPath },
    /// A new empty file made inside `parent` under the next free name.
    CreateEmptyFile { parent: FsPath },
    /// Folders `names` created inside `parent`, then `gather_sources` moved
    /// into the first of them.
    CreateDirectories { parent: FsPath, names: Vec<String>, gather_sources: Vec<FsPath> },
    DeletePermanently { paths: Vec<FsPath> },
    EmptyTrash,
}

impl QueuedFileOperation {
    /// `duplicate_selection_targets`: the new copies that a finished
    /// duplicate leaves selected, in queue order; other operations select
    /// nothing of their own.
    pub fn duplicate_selection_targets(&self) -> (targets: Option<Vec<FsPath>>)
        ensures
            match *self {
                QueuedFileOperation::Duplicate { transfers, .. } => targets matches Some(t) && t@.map_values(
                    |p: FsPath| p@,
                ) == transfer_views(transfers@).map_values(|t: TransferModel| t.target),
                _ => targets is None,
            },
    {
        match self {
            QueuedFileOperation::Duplicate { transfers, .. } => {
                let mut out: Vec<FsPath> = Vec::new();
                let mut i: usize = 0;
                while i < transfers.len()
                    invariant
                        i <= transfers@.len(),
                        out@.len() == i,
                        forall|j: int| 0 <= j < i ==> (#[trigger] out@[j])@ == transfers@[j]@.target,
                    decreases transfers@.len() - i,
                {
                    out.push(transfers[i].target.duplicate());
                    i = i + 1;
                }
                assert(out@.map_values(|p: FsPath| p@) =~= transfer_views(transfers@).map_values(
                    |t: TransferModel| t.target,
                ));
                Some(out)
            },
            _ => None,
        }
    }
}

/// The browser's queue of pending file operations.
#[derive(Debug, Clone, PartialEq, Eq)]
pub struct OperationQueue {
    pub tasks: Vec<QueuedFileOperation>,
    pub panel_open: bool,
}

impl OperationQueue {
    pub fn new() -> (queue: OperationQueue)
        ensures
            queue.tasks@.len() == 0,
            !queue.panel_open,
    {
        OperationQueue { tasks: Vec::new(), panel_open: false }
    }

    pub fn tasks(&self) -> (tasks: &Vec<QueuedFileOperation>)
        ensures
            tasks@ == self.tasks@,
    {
        &self.tasks
    }

    pub fn enqueue(&mut self, operation: QueuedFileOperation)
        ensures
            final(self).tasks@ == old(self).tasks@.push(operation),
            final(self).panel_open == old(self).panel_open,
    {
        self.tasks.push(operation);
    }

    pub fn close_panel(&mut self)
        ensures
            *final(self) == (OperationQueue { panel_open: false, ..*old(self) }),
    {
        self.panel_open = false;
    }
}

} // verus!
