//! The two ways a handler obtains the `DataRepo` capability: reading it out
//! of the shared application state, and a per-request extraction step that
//! works against any state type that can project the capability.

use vstd::prelude::*;
use crate::repo::{DataRepo, FixedMock};

verus! {

/// The shared application state: constructed once at startup, cloned per
/// request, read-only afterwards. It holds nothing but the capability.
#[derive(Clone, Copy, Debug)]
pub struct AppState<R: DataRepo> {
    pub data_repo: R,
}

/// A state type that can project the repository capability out of itself.
/// `repo_spec` names the projected instance, so both acquisition styles are
/// known to resolve to the same repository for a given state value.
pub trait RepoRef: Sized {
    type Repo: DataRepo;

    /// The repository instance this state carries.
    spec fn repo_spec(&self) -> Self::Repo;

    /// Project the capability. Infallible: extraction itself cannot fail,
    /// errors arise only later, from `retrieve`.
    fn repo(&self) -> (r: &Self::Repo)
        ensures
            *r == self.repo_spec(),
    ;
}

impl<R: DataRepo> RepoRef for AppState<R> {
    type Repo = R;

    open spec fn repo_spec(&self) -> R {
        self.data_repo
    }

    fn repo(&self) -> (r: &R) {
        &self.data_repo
    }
}

/// The capability as a per-request extractor: a handler that takes a
/// `StateDataRepo` receives the repository already pulled out of whatever
/// state type the service runs with.
pub struct StateDataRepo<R: DataRepo>(pub R);

impl<R: DataRepo + Copy> StateDataRepo<R> {
    /// The extraction step: derive the capability from any compatible
    /// state before the handler body runs. It always succeeds and always
    /// yields the state's own repository instance.
    pub fn from_state<S: RepoRef<Repo = R>>(state: &S) -> (r: Self)
        ensures
            r.0 == state.repo_spec(),
    {
        StateDataRepo(*state.repo())
    }
}

/// A state type with no field at all: its projection conjures the
/// always-failing repository. It shows extraction-style handlers working
/// against a state other than `AppState`.
#[derive(Clone, Copy, Debug)]
pub struct MockState;

impl RepoRef for MockState {
    type Repo = FixedMock;

    open spec fn repo_spec(&self) -> FixedMock {
        FixedMock
    }

    fn repo(&self) -> (r: &FixedMock) {
        &FixedMock
    }
}

} // verus!
