//! Reconciles a media request catalog against two library services (one for
//! episodic content, one for film content), removing catalog entries whose
//! linked library item no longer exists.
//!
//! This crate holds the decision logic: which service an entry is checked
//! against, whether an entry is deleted, how a page of outcomes is reduced,
//! and how the paginated scan advances. The HTTP calls that carry these
//! decisions out live outside the library.

pub mod model;
pub mod item;
pub mod page;
pub mod laws;
