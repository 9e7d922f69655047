//! Page-level logic: the offset a page is fetched at, how the listing
//! response's status is classified, how a page of outcomes is reduced, and
//! how the scan decides between halting, re-fetching the same page, and
//! advancing to the next one.

use vstd::prelude::*;

use crate::model::CatalogEntry;
use crate::model::FetchError;
use crate::model::Outcome;
use crate::model::PAGE_SIZE;
use crate::model::PageInfo;
use crate::model::ServiceResponse;
use crate::model::spec_is_success;
use crate::model::spec_response_ok;
use crate::item::spec_outcome;

verus! {

/// Offset of a 1-based page index in the catalog listing.
pub open spec fn spec_page_offset(page_index: u32) -> int {
    (page_index - 1) * (PAGE_SIZE as int)
}

/// Computes the listing offset `(page_index - 1) * PAGE_SIZE` for the
/// fetch of one page.
pub fn page_offset(page_index: u32) -> (r: u64)
    requires
        1 <= page_index,
    ensures
        r == spec_page_offset(page_index),
{
    let base: u64 = (page_index - 1) as u64;
    proof {
        assert(base * (PAGE_SIZE as u64) <= 0xFFFF_FFFF * (PAGE_SIZE as int)) by (nonlinear_arith)
            requires
                base <= 0xFFFF_FFFF,
        ;
    }
    base * (PAGE_SIZE as u64)
}

/// Classifies the listing response: a page fetch either arrived with a
/// success status, or aborts the whole target with the error that names
/// what went wrong.
pub fn classify_fetch_response(resp: &ServiceResponse) -> (r: Result<(), FetchError>)
    ensures
        spec_response_ok(*resp) <==> r is Ok,
        *resp is TransportFailed ==> r == Result::<(), FetchError>::Err(FetchError::Transport),
        forall|s: u16|
            *resp == ServiceResponse::Status(s) && !spec_is_success(s) ==> r == Result::<
                (),
                FetchError,
            >::Err(FetchError::Api(s)),
{
    match resp {
        ServiceResponse::TransportFailed => Err(FetchError::Transport),
        ServiceResponse::Status(s) => {
            if crate::model::is_success_status(*s) {
                Ok(())
            } else {
                Err(FetchError::Api(*s))
            }
        },
    }
}

/// Outcomes of reconciling a page's entries in order, with `held[i]` the
/// existence verdict for `entries[i]` and `delete_ok[i]` the fate a delete
/// request for it would meet.
pub open spec fn spec_page_outcomes(
    entries: Seq<CatalogEntry>,
    held: Seq<bool>,
    delete_ok: Seq<bool>,
) -> Seq<Outcome> {
    Seq::new(entries.len(), |i: int| spec_outcome(entries[i], held[i], delete_ok[i]))
}

/// The entries still in the catalog after the page was reconciled: exactly
/// those whose outcome was not `Deleted`.
pub open spec fn spec_surviving(
    entries: Seq<CatalogEntry>,
    held: Seq<bool>,
    delete_ok: Seq<bool>,
) -> Seq<CatalogEntry>
    decreases entries.len(),
{
    if entries.len() == 0 {
        Seq::empty()
    } else if spec_outcome(entries[0], held[0], delete_ok[0]) == Outcome::Deleted {
        spec_surviving(entries.drop_first(), held.drop_first(), delete_ok.drop_first())
    } else {
        seq![entries[0]] + spec_surviving(
            entries.drop_first(),
            held.drop_first(),
            delete_ok.drop_first(),
        )
    }
}

/// Whether any entry of the page was deleted this round.
pub open spec fn spec_any_deleted(outcomes: Seq<Outcome>) -> bool {
    exists|i: int| 0 <= i < outcomes.len() && outcomes[i] == Outcome::Deleted
}

/// Reduces a page's joined outcomes to the one flag the scan decision
/// needs: did this round delete anything. A failed delete does not count;
/// only a confirmed deletion shifts later entries into this page's window.
pub fn any_deletion(outcomes: &Vec<Outcome>) -> (r: bool)
    ensures
        r == spec_any_deleted(outcomes@),
{
    let mut i: usize = 0;
    while i < outcomes.len()
        invariant
            0 <= i <= outcomes@.len(),
            forall|j: int| 0 <= j < i ==> outcomes@[j] != Outcome::Deleted,
        decreases outcomes@.len() - i,
    {
        if outcomes[i] == Outcome::Deleted {
            return true;
        }
        i = i + 1;
    }
    false
}

/// Reconciles a whole page of entries in order, each against its own
/// pair of service responses: `checks[i]` answers entry `i`'s existence
/// probe, `deletes[i]` its delete request.
pub fn reconcile_page(
    entries: &Vec<CatalogEntry>,
    checks: &Vec<ServiceResponse>,
    deletes: &Vec<ServiceResponse>,
) -> (r: Vec<Outcome>)
    requires
        checks@.len() == entries@.len(),
        deletes@.len() == entries@.len(),
    ensures
        r@ == spec_page_outcomes(
            entries@,
            checks@.map_values(|c: ServiceResponse| spec_response_ok(c)),
            deletes@.map_values(|d: ServiceResponse| spec_response_ok(d)),
        ),
{
    let ghost held = checks@.map_values(|c: ServiceResponse| spec_response_ok(c));
    let ghost delete_ok = deletes@.map_values(|d: ServiceResponse| spec_response_ok(d));
    let mut outcomes: Vec<Outcome> = Vec::new();
    let mut i: usize = 0;
    while i < entries.len()
        invariant
            0 <= i <= entries@.len(),
            checks@.len() == entries@.len(),
            deletes@.len() == entries@.len(),
            held == checks@.map_values(|c: ServiceResponse| spec_response_ok(c)),
            delete_ok == deletes@.map_values(|d: ServiceResponse| spec_response_ok(d)),
            outcomes@.len() == i,
            forall|j: int|
                0 <= j < i ==> outcomes@[j] == spec_outcome(entries@[j], held[j], delete_ok[j]),
        decreases entries@.len() - i,
    {
        let o = crate::item::reconcile_entry(&entries[i], &checks[i], &deletes[i]);
        outcomes.push(o);
        i = i + 1;
    }
    proof {
        assert(outcomes@ =~= spec_page_outcomes(entries@, held, delete_ok));
    }
    outcomes
}

/// The scan's decision after a page has been fetched and fully
/// reconciled: `None` halts the scan; `Some(i)` fetches page `i` next.
pub open spec fn spec_next_page(info: PageInfo, deleted_this_round: bool, current: u32) -> Option<
    u32,
> {
    if info.page >= info.pages {
        None
    } else if deleted_this_round {
        Some(current)
    } else {
        Some((current + 1) as u32)
    }
}

/// The scan's decision after a page has been fetched and fully reconciled:
/// halt when the page metadata says the last page was reached; otherwise
/// re-fetch the same index when this round deleted anything (deletions
/// shift later entries into the current window), else advance by one.
pub fn next_page_index(info: &PageInfo, deleted_this_round: bool, current: u32) -> (r: Option<
    u32,
>)
    requires
        info.page < info.pages && !deleted_this_round ==> current < u32::MAX,
    ensures
        r == spec_next_page(*info, deleted_this_round, current),
        info.page >= info.pages ==> r is None,
        info.page < info.pages && deleted_this_round ==> r == Some(current),
        info.page < info.pages && !deleted_this_round ==> r == Some((current + 1) as u32),
{
    if info.page >= info.pages {
        None
    } else if deleted_this_round {
        Some(current)
    } else {
        Some(current + 1)
    }
}

} // verus!
