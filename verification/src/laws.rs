//! Properties of the reconciliation engine that span several functions:
//! re-running reconciliation over an already clean page changes nothing,
//! and a scan in which nothing is ever deleted walks the pages in order,
//! each exactly once, and halts.

use vstd::prelude::*;

use crate::model::CatalogEntry;
use crate::model::Outcome;
use crate::model::PageInfo;
use crate::item::spec_outcome;
use crate::page::spec_next_page;
use crate::page::spec_page_outcomes;
use crate::page::spec_surviving;

verus! {

/// Re-running reconciliation is idempotent on a clean page: when every
/// entry of a page came out `Kept`, no entry was removed, so the page's
/// content is unchanged, and a second run against the same service
/// verdicts produces the same outcomes again.
pub proof fn lemma_kept_page_idempotent(
    entries: Seq<CatalogEntry>,
    held: Seq<bool>,
    delete_ok: Seq<bool>,
)
    requires
        held.len() == entries.len(),
        delete_ok.len() == entries.len(),
        forall|i: int|
            0 <= i < entries.len() ==> spec_outcome(entries[i], held[i], delete_ok[i])
                == Outcome::Kept,
    ensures
        spec_surviving(entries, held, delete_ok) == entries,
        spec_page_outcomes(spec_surviving(entries, held, delete_ok), held, delete_ok)
            == spec_page_outcomes(entries, held, delete_ok),
    decreases entries.len(),
{
    if entries.len() == 0 {
        assert(spec_surviving(entries, held, delete_ok) =~= entries);
    } else {
        assert(spec_outcome(entries[0], held[0], delete_ok[0]) == Outcome::Kept);
        assert(forall|i: int|
            0 <= i < entries.drop_first().len() ==> spec_outcome(
                entries.drop_first()[i],
                held.drop_first()[i],
                delete_ok.drop_first()[i],
            ) == Outcome::Kept);
        lemma_kept_page_idempotent(
            entries.drop_first(),
            held.drop_first(),
            delete_ok.drop_first(),
        );
        assert(spec_surviving(entries, held, delete_ok) =~= entries);
    }
}

/// The pages a scan visits from `current` on when no round ever deletes
/// anything: each visited page's metadata reports the constant page count
/// `pages`, the scan decision is taken with the deletion flag down, and
/// the walk ends where the decision says to halt.
pub open spec fn spec_no_deletion_visits(current: u32, pages: u32) -> Seq<u32>
    decreases
            (if current < pages {
                pages - current
            } else {
                0
            }),
{
    match spec_next_page(PageInfo { page: current, pages }, false, current) {
        None => seq![current],
        Some(next) => seq![current] + spec_no_deletion_visits(next, pages),
    }
}

/// A deletion-free scan starting at page `current` visits exactly the
/// pages `current ..= pages`, in ascending order, once each.
pub proof fn lemma_no_deletion_visits_from(current: u32, pages: u32)
    requires
        1 <= current <= pages,
    ensures
        spec_no_deletion_visits(current, pages) == Seq::new(
            (pages - current + 1) as nat,
            |i: int| (current + i) as u32,
        ),
    decreases pages - current,
{
    if current == pages {
        assert(spec_no_deletion_visits(current, pages) =~= Seq::new(
            (pages - current + 1) as nat,
            |i: int| (current + i) as u32,
        ));
    } else {
        lemma_no_deletion_visits_from((current + 1) as u32, pages);
        assert(spec_no_deletion_visits(current, pages) =~= Seq::new(
            (pages - current + 1) as nat,
            |i: int| (current + i) as u32,
        ));
    }
}

/// Pagination termination: against a catalog of `pages` pages in which no
/// deletion ever occurs, the scan starting at page 1 visits the pages
/// `1 ..= pages` exactly once each, in order, and then halts.
pub proof fn lemma_pagination_termination(pages: u32)
    requires
        1 <= pages,
    ensures
        spec_no_deletion_visits(1, pages).len() == pages,
        forall|i: int| 0 <= i < pages ==> spec_no_deletion_visits(1, pages)[i] == i + 1,
{
    lemma_no_deletion_visits_from(1, pages);
}

} // verus!
