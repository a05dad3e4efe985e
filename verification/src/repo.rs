//! The `DataRepo` capability: the one-operation interface handlers depend
//! on, its production implementation with the id-range policy, and the
//! fixed-outcome implementations used to substitute it in tests.

use vstd::prelude::*;
use crate::model::{Data, DataRepoError};

verus! {

/// The capability a handler depends on without knowing its concrete
/// implementation. `retrieve` is a total function of the id for a given
/// repository instance: `retrieve_spec` names that function, and every
/// implementation's `retrieve` must return exactly what it says.
pub trait DataRepo: Sized {
    /// The outcome this repository assigns to `id`.
    spec fn retrieve_spec(&self, id: usize) -> Result<Data, DataRepoError>;

    /// Look the id up. Pure: same id, same repository, same outcome.
    fn retrieve(&self, id: usize) -> (r: Result<Data, DataRepoError>)
        ensures
            r == self.retrieve_spec(id),
    ;
}

/// The production policy: `id >= 1024` is an invalid request, ids above 10
/// but below 1024 are absent, and `id <= 10` yields `Data { id }`.
pub open spec fn prod_outcome(id: usize) -> Result<Data, DataRepoError> {
    if id >= 1024 {
        Err(DataRepoError::InvalidRequest)
    } else if id > 10 {
        Err(DataRepoError::NotFound)
    } else {
        Ok(Data { id })
    }
}

/// The production repository. Stateless: the id-range check is its whole
/// behaviour, so it is safely shared across concurrent requests.
#[derive(Clone, Copy, Debug)]
pub struct ProdDataRepo;

impl DataRepo for ProdDataRepo {
    open spec fn retrieve_spec(&self, id: usize) -> Result<Data, DataRepoError> {
        prod_outcome(id)
    }

    fn retrieve(&self, id: usize) -> (r: Result<Data, DataRepoError>) {
        if id >= 1024 {
            Err(DataRepoError::InvalidRequest)
        } else if id > 10 {
            Err(DataRepoError::NotFound)
        } else {
            Ok(Data { id })
        }
    }
}

/// A repository that returns one configured outcome for every id; it stands
/// in for the production repository when a test pins the outcome.
#[derive(Clone, Copy, Debug)]
pub struct MockDataRepo {
    pub outcome: Result<Data, DataRepoError>,
}

impl DataRepo for MockDataRepo {
    open spec fn retrieve_spec(&self, id: usize) -> Result<Data, DataRepoError> {
        self.outcome
    }

    fn retrieve(&self, id: usize) -> (r: Result<Data, DataRepoError>) {
        self.outcome
    }
}

/// A repository that fails every lookup with `NotFound`, whatever the id.
#[derive(Clone, Copy, Debug)]
pub struct FixedMock;

impl DataRepo for FixedMock {
    open spec fn retrieve_spec(&self, id: usize) -> Result<Data, DataRepoError> {
        Err(DataRepoError::NotFound)
    }

    fn retrieve(&self, id: usize) -> (r: Result<Data, DataRepoError>) {
        Err(DataRepoError::NotFound)
    }
}

} // verus!
