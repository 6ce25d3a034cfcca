//! A typed content-item store with a draft/publish lifecycle.
//!
//! Every logical item of a document type lives in three tables: the
//! published records, the draft records and the meta records. The modules
//! here hold the verified model of those tables and the operations on them,
//! the naming and statement building for a backing database, and the
//! mapping of authentication failures.
use vstd::prelude::*;

pub mod payload;
pub mod store;
pub mod laws;
pub mod naming;
pub mod query;
pub mod auth;
pub mod connection;

verus! {

} // verus!
