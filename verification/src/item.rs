//! Per-entry reconciliation: decide whether a catalog entry should be
//! deleted, and turn the responses of the existence check and of the
//! delete call into an `Outcome`.
//!
//! The reconciliation of one entry is a short dialogue with the services:
//! possibly an existence probe against a library service, possibly a delete
//! request against the owning catalog. Each function here takes the story so
//! far and says what to do next; the caller performs the calls and feeds the
//! responses back in.

use vstd::prelude::*;

use crate::model::CatalogEntry;
use crate::model::MediaKind;
use crate::model::Outcome;
use crate::model::ServiceResponse;
use crate::model::spec_response_ok;

verus! {

/// The next move in reconciling one entry.
#[derive(Clone, Copy, Debug, PartialEq, Eq)]
pub enum ItemStep {
    /// Ask the library service of `kind` whether `external_ref` exists.
    CheckExistence { kind: MediaKind, external_ref: u32 },
    /// Ask the owning catalog to delete the entry with this id.
    Delete { id: u32 },
    /// Nothing more to do; the outcome is settled.
    Finished { outcome: Outcome },
}

/// An entry is deleted when it was never linked to library content, or
/// when the linked item could not be confirmed to exist. `held` is the
/// existence check's verdict, where one was possible.
pub open spec fn spec_should_delete(entry: CatalogEntry, held: bool) -> bool {
    entry.external_ref is None || !held
}

/// The settled outcome of one entry, given the verdict of its existence
/// check (`held`) and whether a delete request, had one been issued,
/// would have succeeded (`delete_ok`).
pub open spec fn spec_outcome(entry: CatalogEntry, held: bool, delete_ok: bool) -> Outcome {
    if !spec_should_delete(entry, held) {
        Outcome::Kept
    } else if delete_ok {
        Outcome::Deleted
    } else {
        Outcome::DeleteFailed
    }
}

/// First move for an entry: an entry with no library reference goes
/// straight to deletion, whatever its kind; any other entry is checked
/// against the library service its kind selects.
pub fn item_start(entry: &CatalogEntry) -> (r: ItemStep)
    ensures
        entry.external_ref is None ==> r == (ItemStep::Delete { id: entry.id }),
        entry.external_ref is Some ==> r == (ItemStep::CheckExistence {
            kind: entry.kind,
            external_ref: entry.external_ref->0,
        }),
{
    match entry.external_ref {
        None => ItemStep::Delete { id: entry.id },
        Some(external_ref) => ItemStep::CheckExistence { kind: entry.kind, external_ref },
    }
}

/// Next move once the existence probe has answered: deletion is attempted
/// exactly when the response was a non-success status or never arrived;
/// a confirmed item is kept with no further call.
pub fn item_after_check(entry: &CatalogEntry, resp: &ServiceResponse) -> (r: ItemStep)
    requires
        entry.external_ref is Some,
    ensures
        spec_response_ok(*resp) ==> r == (ItemStep::Finished { outcome: Outcome::Kept }),
        !spec_response_ok(*resp) ==> r == (ItemStep::Delete { id: entry.id }),
{
    if crate::model::response_ok(resp) {
        ItemStep::Finished { outcome: Outcome::Kept }
    } else {
        ItemStep::Delete { id: entry.id }
    }
}

/// Outcome once the delete request has answered: deleted on a success
/// status, failed on anything else, transport failure included. A failed
/// delete is final; it is never retried.
pub fn item_after_delete(resp: &ServiceResponse) -> (r: Outcome)
    ensures
        spec_response_ok(*resp) ==> r == Outcome::Deleted,
        !spec_response_ok(*resp) ==> r == Outcome::DeleteFailed,
{
    if crate::model::response_ok(resp) {
        Outcome::Deleted
    } else {
        Outcome::DeleteFailed
    }
}

/// Reconciles one entry from start to finish, with the service responses
/// supplied up front: `check` answers the existence probe where the entry
/// has a reference, and `delete` answers the delete request where one is
/// warranted. The result is exactly `spec_outcome` of the two verdicts.
pub fn reconcile_entry(
    entry: &CatalogEntry,
    check: &ServiceResponse,
    delete: &ServiceResponse,
) -> (r: Outcome)
    ensures
        r == spec_outcome(*entry, spec_response_ok(*check), spec_response_ok(*delete)),
{
    let step = item_start(entry);
    let step = match step {
        ItemStep::CheckExistence { kind: _, external_ref: _ } => item_after_check(entry, check),
        other => other,
    };
    match step {
        ItemStep::Delete { id: _ } => item_after_delete(delete),
        ItemStep::Finished { outcome } => outcome,
        ItemStep::CheckExistence { kind: _, external_ref: _ } => unreached(),
    }
}

} // verus!
