use vstd::prelude::*;
use vstd::string::*;

use crate::download::{fetch, fetch_status, Fetched, StoreModel};
use crate::entry::Entry;
use crate::storage::DeleteFileResult;

verus! {

/// How a deletion of an entry and its blob ends.
#[derive(Clone, Debug, PartialEq, Eq)]
pub enum DeleteOutcome {
    /// The row is gone and so is the blob (or it was already missing).
    Deleted,
    /// There was no entry under the id.
    NotFound,
    /// The store reported that no row was removed.
    NotRemoved,
    /// The lookup or the row deletion failed; both stores are as they were.
    DatabaseFailure(String),
    /// The blob deletion failed and the row was put back.
    StorageFailure(String),
    /// The blob deletion failed and so did putting the row back: the row is gone, the blob
    /// remains. Carries the storage cause, then the database cause.
    Critical(String, String),
}

/// Where a deletion stands.
#[derive(Clone, Debug)]
pub enum DeletionState {
    LookingUp,
    /// The entry was read; removing its row.
    RemovingRow(Entry),
    /// The row is removed; removing the blob.
    RemovingBlob(Entry),
    /// The blob removal failed with this cause; putting the entry's row back.
    Restoring(Entry, String),
    Done(DeleteOutcome),
}

/// What the surrounding runtime reports back to a deletion.
#[derive(Debug)]
pub enum DeletionEvent {
    LookedUp(Result<Option<Entry>, String>),
    RowRemoved(Result<bool, String>),
    BlobRemoved(DeleteFileResult),
    RowRestored(Result<(), String>),
}

/// What the surrounding runtime is to do next.
#[derive(Clone, Copy, Debug, PartialEq, Eq, Structural)]
pub enum DeletionAction {
    LookUp,
    RemoveRow,
    RemoveBlob,
    /// Insert again the entry that the `Restoring` state holds.
    RestoreRow,
    /// Answer with the outcome that the `Done` state holds.
    Respond,
}

/// The deletion of the entry and blob under `id`.
#[derive(Clone, Debug)]
pub struct DeletionCoordinator {
    pub id: u128,
    pub state: DeletionState,
}

/// The deletion's transitions. An event that does not fit the state leaves it as is.
pub open spec fn deletion_next(d: DeletionCoordinator, ev: DeletionEvent) -> DeletionCoordinator {
    let to = |st: DeletionState| DeletionCoordinator { id: d.id, state: st };
    match (d.state, ev) {
        (DeletionState::LookingUp, DeletionEvent::LookedUp(r)) => match r {
            Ok(Some(e)) => to(DeletionState::RemovingRow(e)),
            Ok(None) => to(DeletionState::Done(DeleteOutcome::NotFound)),
            Err(c) => to(DeletionState::Done(DeleteOutcome::DatabaseFailure(c))),
        },
        (DeletionState::RemovingRow(e), DeletionEvent::RowRemoved(r)) => match r {
            Ok(true) => to(DeletionState::RemovingBlob(e)),
            Ok(false) => to(DeletionState::Done(DeleteOutcome::NotRemoved)),
            Err(c) => to(DeletionState::Done(DeleteOutcome::DatabaseFailure(c))),
        },
        (DeletionState::RemovingBlob(e), DeletionEvent::BlobRemoved(r)) => match r {
            DeleteFileResult::Failure(c) => to(DeletionState::Restoring(e, c)),
            _ => to(DeletionState::Done(DeleteOutcome::Deleted)),
        },
        (DeletionState::Restoring(e, c), DeletionEvent::RowRestored(r)) => match r {
            Ok(_) => to(DeletionState::Done(DeleteOutcome::StorageFailure(c))),
            Err(c2) => to(DeletionState::Done(DeleteOutcome::Critical(c, c2))),
        },
        _ => d,
    }
}

pub open spec fn deletion_action(st: DeletionState) -> DeletionAction {
    match st {
        DeletionState::LookingUp => DeletionAction::LookUp,
        DeletionState::RemovingRow(_) => DeletionAction::RemoveRow,
        DeletionState::RemovingBlob(_) => DeletionAction::RemoveBlob,
        DeletionState::Restoring(..) => DeletionAction::RestoreRow,
        DeletionState::Done(_) => DeletionAction::Respond,
    }
}

/// What an event does to the stores, when they behave as their contracts say.
pub open spec fn deletion_effect(d: DeletionCoordinator, ev: DeletionEvent, m: StoreModel) -> StoreModel {
    match (d.state, ev) {
        (DeletionState::RemovingRow(_), DeletionEvent::RowRemoved(Ok(true))) => StoreModel {
            meta: m.meta.remove(d.id),
            blobs: m.blobs,
        },
        (DeletionState::RemovingBlob(_), DeletionEvent::BlobRemoved(r)) => match r {
            DeleteFileResult::Failure(_) => m,
            _ => StoreModel { meta: m.meta, blobs: m.blobs.remove(d.id) },
        },
        (DeletionState::Restoring(e, _), DeletionEvent::RowRestored(Ok(_))) => StoreModel {
            meta: m.meta.insert(d.id, e),
            blobs: m.blobs,
        },
        _ => m,
    }
}

/// A deletion run over a sequence of events: the final coordinator and stores.
pub open spec fn run_deletion(d: DeletionCoordinator, m: StoreModel, evs: Seq<DeletionEvent>) -> (
    DeletionCoordinator,
    StoreModel,
)
    decreases evs.len(),
{
    if evs.len() == 0 {
        (d, m)
    } else {
        run_deletion(deletion_next(d, evs[0]), deletion_effect(d, evs[0], m), evs.drop_first())
    }
}

impl DeleteOutcome {
    pub open spec fn status_of(&self) -> u16 {
        match self {
            DeleteOutcome::Deleted => 200,
            DeleteOutcome::NotFound => 404,
            _ => 500,
        }
    }

    pub open spec fn text(&self) -> Seq<char> {
        match self {
            DeleteOutcome::Deleted => "Entry deleted"@,
            DeleteOutcome::NotFound => "Entry not found"@,
            DeleteOutcome::NotRemoved => "Database entry not removed"@,
            DeleteOutcome::DatabaseFailure(c) => "Database error: "@ + c@,
            DeleteOutcome::StorageFailure(c) => "Storage error: "@ + c@,
            DeleteOutcome::Critical(s, d) => "Critical error: Storage deletion failed AND database restoration failed. Storage error: "@
                + s@ + ", Database error: "@ + d@,
        }
    }

    pub fn status(&self) -> (r: u16)
        ensures
            r == self.status_of(),
    {
        match self {
            DeleteOutcome::Deleted => 200,
            DeleteOutcome::NotFound => 404,
            _ => 500,
        }
    }

    /// The text that the outcome is answered with.
    pub fn message(&self) -> (r: String)
        ensures
            r@ == self.text(),
    {
        match self {
            DeleteOutcome::Deleted => String::from_str("Entry deleted"),
            DeleteOutcome::NotFound => String::from_str("Entry not found"),
            DeleteOutcome::NotRemoved => String::from_str("Database entry not removed"),
            DeleteOutcome::DatabaseFailure(c) => String::from_str("Database error: ").concat(
                c.as_str(),
            ),
            DeleteOutcome::StorageFailure(c) => String::from_str("Storage error: ").concat(
                c.as_str(),
            ),
            DeleteOutcome::Critical(s, d) => {
                let mut r = String::from_str(
                    "Critical error: Storage deletion failed AND database restoration failed. Storage error: ",
                );
                r.append(s.as_str());
                r.append(", Database error: ");
                r.append(d.as_str());
                r
            },
        }
    }
}

impl DeletionCoordinator {
    /// A deletion of `id` that starts by looking up its entry.
    pub fn new(id: u128) -> (r: DeletionCoordinator)
        ensures
            r.id == id,
            r.state is LookingUp,
    {
        DeletionCoordinator { id, state: DeletionState::LookingUp }
    }

    pub fn action(&self) -> (r: DeletionAction)
        ensures
            r == deletion_action(self.state),
    {
        match self.state {
            DeletionState::LookingUp => DeletionAction::LookUp,
            DeletionState::RemovingRow(_) => DeletionAction::RemoveRow,
            DeletionState::RemovingBlob(_) => DeletionAction::RemoveBlob,
            DeletionState::Restoring(..) => DeletionAction::RestoreRow,
            DeletionState::Done(_) => DeletionAction::Respond,
        }
    }

    /// Takes one event and moves to the next state.
    pub fn step(self, ev: DeletionEvent) -> (r: DeletionCoordinator)
        ensures
            r == deletion_next(self, ev),
    {
        let id = self.id;
        let state = match (self.state, ev) {
            (DeletionState::LookingUp, DeletionEvent::LookedUp(r)) => match r {
                Ok(Some(e)) => DeletionState::RemovingRow(e),
                Ok(None) => DeletionState::Done(DeleteOutcome::NotFound),
                Err(c) => DeletionState::Done(DeleteOutcome::DatabaseFailure(c)),
            },
            (DeletionState::RemovingRow(e), DeletionEvent::RowRemoved(r)) => match r {
                Ok(true) => DeletionState::RemovingBlob(e),
                Ok(false) => DeletionState::Done(DeleteOutcome::NotRemoved),
                Err(c) => DeletionState::Done(DeleteOutcome::DatabaseFailure(c)),
            },
            (DeletionState::RemovingBlob(e), DeletionEvent::BlobRemoved(r)) => match r {
                DeleteFileResult::Failure(c) => DeletionState::Restoring(e, c),
                _ => DeletionState::Done(DeleteOutcome::Deleted),
            },
            (DeletionState::Restoring(e, c), DeletionEvent::RowRestored(r)) => match r {
                Ok(_) => DeletionState::Done(DeleteOutcome::StorageFailure(c)),
                Err(c2) => DeletionState::Done(DeleteOutcome::Critical(c, c2)),
            },
            (st, _) => st,
        };
        DeletionCoordinator { id, state }
    }
}

/// What holds of the stores at each state of a deletion, for a reported deletion to mean
/// that both the row and the blob are gone.
pub open spec fn gone_when_deleted(d: DeletionCoordinator, m: StoreModel) -> bool {
    &&& (d.state is RemovingBlob ==> !m.meta.dom().contains(d.id))
    &&& (d.state == DeletionState::Done(DeleteOutcome::Deleted) ==> !m.meta.dom().contains(d.id)
        && !m.blobs.dom().contains(d.id))
}

proof fn lemma_gone_when_deleted(d: DeletionCoordinator, m: StoreModel, evs: Seq<DeletionEvent>)
    requires
        gone_when_deleted(d, m),
    ensures
        ({
            let (f, fm) = run_deletion(d, m, evs);
            gone_when_deleted(f, fm) && f.id == d.id
        }),
    decreases evs.len(),
{
    if evs.len() > 0 {
        let d2 = deletion_next(d, evs[0]);
        let m2 = deletion_effect(d, evs[0], m);
        assert(gone_when_deleted(d2, m2));
        lemma_gone_when_deleted(d2, m2, evs.drop_first());
    }
}

/// Deletion consistency: once a deletion reports `Deleted`, a lookup of the id finds no
/// entry, no blob remains under it, and a download of it is answered with 404.
pub proof fn lemma_deleted_means_gone(d: DeletionCoordinator, m: StoreModel, evs: Seq<DeletionEvent>)
    requires
        d.state is LookingUp,
    ensures
        ({
            let (f, fm) = run_deletion(d, m, evs);
            f.state == DeletionState::Done(DeleteOutcome::Deleted) ==> !fm.meta.dom().contains(d.id)
                && !fm.blobs.dom().contains(d.id) && fetch(fm, d.id) == Fetched::EntryMissing
                && fetch_status(fetch(fm, d.id)) == 404
        }),
{
    lemma_gone_when_deleted(d, m, evs);
}

/// Divergence reporting: when the blob deletion fails after the row was removed, and
/// putting the row back fails too, the deletion ends in `Critical` with both causes,
/// answered with 500; when putting the row back succeeds, it ends in a storage failure and
/// the row is back.
pub proof fn lemma_divergence_reported(
    d: DeletionCoordinator,
    m: StoreModel,
    e: Entry,
    blob_cause: String,
    restore_cause: String,
)
    requires
        d.state == DeletionState::RemovingBlob(e),
    ensures
        ({
            let d1 = deletion_next(d, DeletionEvent::BlobRemoved(DeleteFileResult::Failure(blob_cause)));
            let m1 = deletion_effect(d, DeletionEvent::BlobRemoved(DeleteFileResult::Failure(blob_cause)), m);
            let failed = deletion_next(d1, DeletionEvent::RowRestored(Err(restore_cause)));
            let restored = deletion_next(d1, DeletionEvent::RowRestored(Ok(())));
            &&& m1 == m
            &&& failed.state == DeletionState::Done(
                DeleteOutcome::Critical(blob_cause, restore_cause),
            )
            &&& DeleteOutcome::Critical(blob_cause, restore_cause).status_of() == 500
            &&& restored.state == DeletionState::Done(DeleteOutcome::StorageFailure(blob_cause))
            &&& deletion_effect(d1, DeletionEvent::RowRestored(Ok(())), m1).meta == m.meta.insert(d.id, e)
        }),
{
}

} // verus!
