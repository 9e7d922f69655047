use catalog_reconciler::model::CatalogEntry;
use catalog_reconciler::model::FetchError;
use catalog_reconciler::model::MediaKind;
use catalog_reconciler::model::Outcome;
use catalog_reconciler::model::PageInfo;
use catalog_reconciler::model::ServiceResponse;
use catalog_reconciler::model::is_success_status;
use catalog_reconciler::model::response_ok;
use catalog_reconciler::item::ItemStep;
use catalog_reconciler::item::item_after_check;
use catalog_reconciler::item::item_after_delete;
use catalog_reconciler::item::item_start;
use catalog_reconciler::item::reconcile_entry;
use catalog_reconciler::page::any_deletion;
use catalog_reconciler::page::classify_fetch_response;
use catalog_reconciler::page::next_page_index;
use catalog_reconciler::page::page_offset;
use catalog_reconciler::page::reconcile_page;

fn entry(id: u32, external_ref: Option<u32>, kind: MediaKind) -> CatalogEntry {
    CatalogEntry { id, external_ref, kind }
}

const OK: ServiceResponse = ServiceResponse::Status(200);
const NOT_FOUND: ServiceResponse = ServiceResponse::Status(404);

#[test]
fn success_range_bounds() {
    assert!(!is_success_status(199));
    assert!(is_success_status(200));
    assert!(is_success_status(204));
    assert!(is_success_status(299));
    assert!(!is_success_status(300));
    assert!(!is_success_status(500));
}

#[test]
fn transport_failure_is_not_success() {
    assert!(response_ok(&OK));
    assert!(!response_ok(&NOT_FOUND));
    assert!(!response_ok(&ServiceResponse::TransportFailed));
}

#[test]
fn absent_reference_always_deletes() {
    // Entries never linked to library content go straight to deletion,
    // whatever their kind.
    let film = entry(1, None, MediaKind::Film);
    let episodic = entry(2, None, MediaKind::Episodic);
    assert_eq!(item_start(&film), ItemStep::Delete { id: 1 });
    assert_eq!(item_start(&episodic), ItemStep::Delete { id: 2 });
}

#[test]
fn present_reference_is_probed_against_its_kind() {
    let film = entry(3, Some(77), MediaKind::Film);
    let episodic = entry(4, Some(88), MediaKind::Episodic);
    assert_eq!(
        item_start(&film),
        ItemStep::CheckExistence { kind: MediaKind::Film, external_ref: 77 }
    );
    assert_eq!(
        item_start(&episodic),
        ItemStep::CheckExistence { kind: MediaKind::Episodic, external_ref: 88 }
    );
}

#[test]
fn deletion_attempted_iff_check_negative_or_failed() {
    let e = entry(5, Some(9), MediaKind::Film);
    assert_eq!(
        item_after_check(&e, &OK),
        ItemStep::Finished { outcome: Outcome::Kept }
    );
    assert_eq!(item_after_check(&e, &NOT_FOUND), ItemStep::Delete { id: 5 });
    assert_eq!(
        item_after_check(&e, &ServiceResponse::TransportFailed),
        ItemStep::Delete { id: 5 }
    );
}

#[test]
fn delete_outcome_follows_status() {
    assert_eq!(item_after_delete(&OK), Outcome::Deleted);
    assert_eq!(item_after_delete(&ServiceResponse::Status(204)), Outcome::Deleted);
    assert_eq!(item_after_delete(&NOT_FOUND), Outcome::DeleteFailed);
    assert_eq!(
        item_after_delete(&ServiceResponse::TransportFailed),
        Outcome::DeleteFailed
    );
}

#[test]
fn single_page_three_entries_scenario() {
    // One page (page=1, pages=1) with three entries: no reference,
    // reference that exists, reference that does not.
    let entries = vec![
        entry(10, None, MediaKind::Film),
        entry(11, Some(100), MediaKind::Episodic),
        entry(12, Some(101), MediaKind::Film),
    ];
    let checks = vec![OK, OK, NOT_FOUND];
    let deletes = vec![OK, OK, OK];
    let outcomes = reconcile_page(&entries, &checks, &deletes);
    assert_eq!(outcomes, vec![Outcome::Deleted, Outcome::Kept, Outcome::Deleted]);

    // The loop halts after this single page even though deletions occurred.
    let info = PageInfo { page: 1, pages: 1 };
    assert!(any_deletion(&outcomes));
    assert_eq!(next_page_index(&info, true, 1), None);
}

#[test]
fn page_fetch_server_error_aborts_target() {
    // An HTTP 500 on the listing call aborts the target before any
    // reconciliation is attempted.
    assert_eq!(
        classify_fetch_response(&ServiceResponse::Status(500)),
        Err(FetchError::Api(500))
    );
    assert_eq!(
        classify_fetch_response(&ServiceResponse::TransportFailed),
        Err(FetchError::Transport)
    );
    assert_eq!(classify_fetch_response(&OK), Ok(()));
}

#[test]
fn decode_error_is_its_own_variant() {
    assert_ne!(FetchError::Decode, FetchError::Transport);
    assert_ne!(FetchError::Decode, FetchError::Api(500));
}

#[test]
fn failed_delete_does_not_trigger_refetch() {
    // A delete answered with 404 leaves the entry as DeleteFailed; for
    // advancement the page counts as if no deletion occurred.
    let entries = vec![entry(20, None, MediaKind::Episodic), entry(21, Some(7), MediaKind::Film)];
    let checks = vec![OK, OK];
    let deletes = vec![NOT_FOUND, OK];
    let outcomes = reconcile_page(&entries, &checks, &deletes);
    assert_eq!(outcomes, vec![Outcome::DeleteFailed, Outcome::Kept]);
    assert!(!any_deletion(&outcomes));

    let info = PageInfo { page: 1, pages: 2 };
    assert_eq!(next_page_index(&info, false, 1), Some(2));
}

#[test]
fn deletion_refetches_same_page() {
    let info = PageInfo { page: 2, pages: 5 };
    assert_eq!(next_page_index(&info, true, 2), Some(2));
}

#[test]
fn no_deletion_advances_by_one() {
    let info = PageInfo { page: 2, pages: 5 };
    assert_eq!(next_page_index(&info, false, 2), Some(3));
}

#[test]
fn halts_at_last_page() {
    let info = PageInfo { page: 5, pages: 5 };
    assert_eq!(next_page_index(&info, false, 5), None);
    assert_eq!(next_page_index(&info, true, 5), None);
    // A shrunken page count halts too.
    let shrunk = PageInfo { page: 4, pages: 3 };
    assert_eq!(next_page_index(&shrunk, false, 4), None);
}

#[test]
fn deletion_free_scan_visits_pages_in_order() {
    // With three pages and no deletions the scan visits 1, 2, 3 and halts.
    let mut visited: Vec<u32> = Vec::new();
    let mut current: u32 = 1;
    loop {
        visited.push(current);
        let info = PageInfo { page: current, pages: 3 };
        match next_page_index(&info, false, current) {
            Some(next) => current = next,
            None => break,
        }
    }
    assert_eq!(visited, vec![1, 2, 3]);
}

#[test]
fn kept_only_page_reconciles_identically_again() {
    // A page whose entries were all kept survives unchanged, and a second
    // run against the same service verdicts repeats the same outcomes.
    let entries = vec![
        entry(30, Some(1), MediaKind::Film),
        entry(31, Some(2), MediaKind::Episodic),
    ];
    let checks = vec![OK, OK];
    let deletes = vec![OK, OK];
    let first = reconcile_page(&entries, &checks, &deletes);
    assert_eq!(first, vec![Outcome::Kept, Outcome::Kept]);
    let second = reconcile_page(&entries, &checks, &deletes);
    assert_eq!(second, first);
}

#[test]
fn empty_page_reconciles_to_nothing() {
    let outcomes = reconcile_page(&Vec::new(), &Vec::new(), &Vec::new());
    assert!(outcomes.is_empty());
    assert!(!any_deletion(&outcomes));
}

#[test]
fn offsets_step_by_page_size() {
    assert_eq!(page_offset(1), 0);
    assert_eq!(page_offset(2), 20);
    assert_eq!(page_offset(3), 40);
    assert_eq!(page_offset(u32::MAX), (u32::MAX as u64 - 1) * 20);
}

#[test]
fn transport_failure_on_check_drives_deletion() {
    // The fail-open policy: an unreachable library service is treated the
    // same as a missing item, and the entry is deleted.
    let e = entry(40, Some(5), MediaKind::Episodic);
    let outcome = reconcile_entry(&e, &ServiceResponse::TransportFailed, &OK);
    assert_eq!(outcome, Outcome::Deleted);
}

#[test]
fn confirmed_item_is_kept_without_delete_call() {
    let e = entry(41, Some(6), MediaKind::Film);
    let outcome = reconcile_entry(&e, &OK, &NOT_FOUND);
    // The delete response is irrelevant: no delete is issued for a kept entry.
    assert_eq!(outcome, Outcome::Kept);
}
