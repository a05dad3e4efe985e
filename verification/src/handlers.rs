//! The request/response mapping: pure handlers that call the capability and
//! translate each outcome, exactly once, to a status code and a JSON body.

use vstd::prelude::*;
use crate::body::{bad_id_body, id_body, not_found_body, render_bad_id_body, render_id_body,
    render_not_found_body, render_teapot_body, teapot_body};
use crate::model::{Data, DataRepoError};
use crate::repo::DataRepo;
use crate::state::{AppState, StateDataRepo};

verus! {

/// What a handler hands back: an HTTP status code and the JSON body bytes.
pub struct HttpReply {
    pub status: u16,
    pub body: Vec<u8>,
}

/// `r` carries exactly the status and body that `s` prescribes.
pub open spec fn reply_matches(r: HttpReply, s: (u16, Seq<u8>)) -> bool {
    &&& r.status == s.0
    &&& r.body@ == s.1
}

/// The fine-grained mapping of the state-style data handler: success is 200
/// with the id echoed, an invalid request is 400, an absent id is 404.
pub open spec fn state_reply_spec(outcome: Result<Data, DataRepoError>) -> (u16, Seq<u8>) {
    match outcome {
        Ok(data) => (200u16, id_body(data.id)),
        Err(DataRepoError::InvalidRequest) => (400u16, bad_id_body()),
        Err(DataRepoError::NotFound) => (404u16, not_found_body()),
    }
}

/// The deliberately coarser mapping of the extraction-style handler:
/// success is 200 with the id echoed, and every failure, of either kind,
/// collapses to 418.
pub open spec fn extract_reply_spec(outcome: Result<Data, DataRepoError>) -> (u16, Seq<u8>) {
    match outcome {
        Ok(data) => (200u16, id_body(data.id)),
        Err(_) => (418u16, teapot_body()),
    }
}

/// The liveness probe: 200 with a small fixed body, touching no state.
pub fn basic_handler() -> (r: HttpReply)
    ensures
        r.status == 200,
        r.body@ == id_body(100),
{
    HttpReply { status: 200, body: render_id_body(100) }
}

/// The state-style data handler: it receives the whole application state,
/// reads the capability out of it, and maps the outcome with the
/// fine-grained `state_reply_spec`.
pub fn data_state_handler<R: DataRepo>(id: usize, state: &AppState<R>) -> (r: HttpReply)
    ensures
        reply_matches(r, state_reply_spec(state.data_repo.retrieve_spec(id))),
{
    match state.data_repo.retrieve(id) {
        Ok(data) => HttpReply { status: 200, body: render_id_body(data.id) },
        Err(DataRepoError::InvalidRequest) => HttpReply { status: 400, body: render_bad_id_body() },
        Err(DataRepoError::NotFound) => HttpReply { status: 404, body: render_not_found_body() },
    }
}

/// The extraction-style data handler: it receives the capability already
/// extracted and maps the outcome with the coarse `extract_reply_spec`,
/// not telling the failure kinds apart.
pub fn data_extract_handler<R: DataRepo>(id: usize, data_repo: StateDataRepo<R>) -> (r: HttpReply)
    ensures
        reply_matches(r, extract_reply_spec(data_repo.0.retrieve_spec(id))),
{
    match data_repo.0.retrieve(id) {
        Ok(data) => HttpReply { status: 200, body: render_id_body(data.id) },
        Err(_) => HttpReply { status: 418, body: render_teapot_body() },
    }
}

} // verus!
