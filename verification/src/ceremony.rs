//! Issuance and verification together: what the first leaves in the store is
//! what the second asks the store for.

use vstd::prelude::*;

use crate::config::ConfigView;
use crate::credentials::PublicKeyCredentialView;
use crate::issue::{is_issuance, lemma_issued_challenge_is_recorded, IssueEvent, IssueStateView};
use crate::store::StoreModel;
use crate::verify::{rp_id_failure, store_answer, verdict, ValidationFailure, VerifyState};

verus! {

/// A credential that presents the challenge issued to its identity is
/// accepted, where it is of the right ceremony type, names the configured
/// origin and holds an attestation made for the relying party. The same
/// credential under another identity fails the challenge check, unless the
/// store held that very challenge for the other identity before.
pub proof fn lemma_issued_challenge_is_accepted(
    config: ConfigView,
    stores: Seq<StoreModel>,
    events: Seq<IssueEvent>,
    states: Seq<IssueStateView>,
    credential: PublicKeyCredentialView,
    other: PublicKeyCredentialView,
)
    requires
        is_issuance(config, credential.email, stores, events, states),
        states.last() matches IssueStateView::Issued(options) && options.challenge
            == credential.response.client_data.challenge,
        credential.response.client_data.ceremony_type == "webauthn.create"@,
        credential.response.client_data.origin == config.origin,
        rp_id_failure(config, credential.response.attestation_object) is None,
        other.response == credential.response,
        other.email != credential.email,
        !stores[0].user_challenge_exists(other.response.client_data.challenge, other.email),
    ensures
        verdict(config, credential, store_answer(stores.last(), credential))
            == VerifyState::Accepted,
        verdict(config, other, store_answer(stores.last(), other)) == VerifyState::Rejected(
            ValidationFailure::Challenge,
        ),
{
    lemma_issued_challenge_is_recorded(config, credential.email, stores, events, states);
}

} // verus!
