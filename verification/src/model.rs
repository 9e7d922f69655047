//! Data model of the reconciliation run: catalog entries, page metadata,
//! per-entry outcomes, and the classification of service responses.

use vstd::prelude::*;

verus! {

/// Fixed number of entries requested per catalog page.
pub const PAGE_SIZE: u32 = 20;

/// Which library service an entry's external reference points into.
#[derive(Clone, Copy, Debug, PartialEq, Eq, Structural)]
pub enum MediaKind {
    Episodic,
    Film,
}

/// Result of reconciling one catalog entry.
#[derive(Clone, Copy, Debug, PartialEq, Eq, Structural)]
pub enum Outcome {
    Kept,
    Deleted,
    DeleteFailed,
}

/// One record of the request service's catalog listing.
///
/// `external_ref` is absent when the catalog never linked the entry to
/// library content; `kind` selects the library service that tracks it.
#[derive(Clone, Copy, Debug, PartialEq, Eq)]
pub struct CatalogEntry {
    pub id: u32,
    pub external_ref: Option<u32>,
    pub kind: MediaKind,
}

/// Page metadata as of fetch time. `pages` is a snapshot and may shrink
/// between fetches while entries are being deleted.
#[derive(Clone, Copy, Debug, PartialEq, Eq, Structural)]
pub struct PageInfo {
    /// 1-based number of this page.
    pub page: u32,
    /// Total pages at the moment the page was served.
    pub pages: u32,
}

/// What a single service call came back with: a status code, or no
/// response at all because the transport failed.
#[derive(Clone, Copy, Debug, PartialEq, Eq, Structural)]
pub enum ServiceResponse {
    Status(u16),
    TransportFailed,
}

/// Why processing of one catalog target was aborted.
#[derive(Clone, Copy, Debug, PartialEq, Eq, Structural)]
pub enum FetchError {
    /// The listing request never reached the service.
    Transport,
    /// The service answered outside the success range.
    Api(u16),
    /// The response body could not be parsed into a page.
    Decode,
}

/// A status code in the HTTP success range.
pub open spec fn spec_is_success(status: u16) -> bool {
    200 <= status < 300
}

/// A response that both arrived and carried a success status.
pub open spec fn spec_response_ok(resp: ServiceResponse) -> bool {
    match resp {
        ServiceResponse::Status(s) => spec_is_success(s),
        ServiceResponse::TransportFailed => false,
    }
}

pub fn is_success_status(status: u16) -> (r: bool)
    ensures
        r == spec_is_success(status),
{
    200 <= status && status < 300
}

/// Reduces a service call's result to "did it succeed": a transport
/// failure counts the same as a non-success status.
pub fn response_ok(resp: &ServiceResponse) -> (r: bool)
    ensures
        r == spec_response_ok(*resp),
{
    match resp {
        ServiceResponse::Status(s) => is_success_status(*s),
        ServiceResponse::TransportFailed => false,
    }
}

} // verus!
