//! The laws of the service, stated over the same spec functions the
//! handlers' contracts use: the three bands of the production id policy and
//! the replies they force, substitutability of the repository, and
//! idempotence of identical requests.

use vstd::prelude::*;
use crate::body::{bad_id_body, id_body, not_found_body, teapot_body};
use crate::handlers::{extract_reply_spec, reply_matches, state_reply_spec, HttpReply};
use crate::model::{Data, DataRepoError};
use crate::repo::{prod_outcome, DataRepo, FixedMock, MockDataRepo};

verus! {

/// For every `id <= 10` the production repository succeeds with
/// `Data { id }`; the state-style handler replies 200 with `{"id":<id>}`,
/// and so does the extraction-style handler.
pub proof fn lemma_low_ids_served(id: usize)
    requires
        id <= 10,
    ensures
        prod_outcome(id) == Ok::<Data, DataRepoError>(Data { id }),
        state_reply_spec(prod_outcome(id)) == (200u16, id_body(id)),
        extract_reply_spec(prod_outcome(id)) == (200u16, id_body(id)),
{
}

/// For every id above 10 but below 1024 the production repository fails
/// with `NotFound`; the state-style handler replies 404 with
/// `{"status":"not found"}`, the extraction-style handler 418 with
/// `{"status":"teapot"}`.
pub proof fn lemma_mid_ids_not_found(id: usize)
    requires
        10 < id < 1024,
    ensures
        prod_outcome(id) == Err::<Data, DataRepoError>(DataRepoError::NotFound),
        state_reply_spec(prod_outcome(id)) == (404u16, not_found_body()),
        extract_reply_spec(prod_outcome(id)) == (418u16, teapot_body()),
{
}

/// For every `id >= 1024` the production repository fails with
/// `InvalidRequest`; the state-style handler replies 400 with
/// `{"status":"bad id"}`, the extraction-style handler 418 with
/// `{"status":"teapot"}`.
pub proof fn lemma_high_ids_invalid(id: usize)
    requires
        id >= 1024,
    ensures
        prod_outcome(id) == Err::<Data, DataRepoError>(DataRepoError::InvalidRequest),
        state_reply_spec(prod_outcome(id)) == (400u16, bad_id_body()),
        extract_reply_spec(prod_outcome(id)) == (418u16, teapot_body()),
{
}

/// Substituting a repository that always succeeds with `Data { id: 50 }`
/// makes the state-style handler reply 200 with `{"id":50}`, whatever id
/// the request names.
pub proof fn lemma_mock_ok_substitution(id: usize)
    ensures
        state_reply_spec((MockDataRepo { outcome: Ok(Data { id: 50 }) }).retrieve_spec(id))
            == (200u16, id_body(50)),
{
}

/// Substituting a repository that always fails with `NotFound` makes the
/// extraction-style handler reply 418, whatever id the request names.
pub proof fn lemma_mock_failure_substitution(id: usize)
    ensures
        extract_reply_spec(FixedMock.retrieve_spec(id)) == (418u16, teapot_body()),
{
}

/// Identical requests draw identical responses: any two replies that meet
/// a handler's contract for the same prescription agree on status and
/// body. With the production repository the prescription is a function of
/// the id alone, so repeating a request cannot change the answer.
pub proof fn lemma_identical_requests_identical_replies(
    s: (u16, Seq<u8>),
    r1: HttpReply,
    r2: HttpReply,
)
    requires
        reply_matches(r1, s),
        reply_matches(r2, s),
    ensures
        r1.status == r2.status,
        r1.body@ == r2.body@,
{
}

} // verus!
