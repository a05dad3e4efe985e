//! The data record served by the repositories and the closed error taxonomy
//! that `retrieve` may produce.

use vstd::prelude::*;

verus! {

/// The record a repository hands back on success. Immutable once
/// constructed; it carries nothing but the requested id.
#[derive(Clone, Copy, Debug, PartialEq, Eq, Structural)]
pub struct Data {
    pub id: usize,
}

/// The closed set of failures a repository may report. No other error kind
/// exists in the core: parse and connection failures belong to the
/// collaborators around the library.
#[derive(Clone, Copy, Debug, PartialEq, Eq, Structural)]
pub enum DataRepoError {
    NotFound,
    InvalidRequest,
}

} // verus!
