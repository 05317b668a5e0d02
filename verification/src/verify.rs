//! The verification of a registration: four checks in a fixed order, the
//! second of which needs an answer from the store.

use vstd::prelude::*;

use crate::config::{rp_id_hash, Config, ConfigView};
use crate::credentials::{
    decoded_attestation, leading_hash, AuthenticatorAttestationResponse, AuthenticatorData,
    ClientDataView, DecodeFailure, PublicKeyCredential, PublicKeyCredentialResponseView,
    PublicKeyCredentialView, RP_ID_HASH_LEN,
};
use crate::store::{StoreFailure, StoreModel};
use crate::text::{bytes_eq, str_eq};

verus! {

/// The check at which a registration was turned down.
#[derive(Clone, Copy, Debug, PartialEq, Eq, Structural)]
pub enum ValidationFailure {
    /// The client data is not of the type `webauthn.create`.
    CeremonyType,
    /// The store holds no such challenge for the identity.
    Challenge,
    /// The client data names another origin than the configured one.
    Origin,
    /// The attestation object could not be decoded.
    Attestation(DecodeFailure),
    /// The authenticator data begins with another hash than that of the
    /// relying party's identifier.
    RpIdHash,
}

/// How far the verification of one credential has come.
#[derive(Clone, Copy, Debug, PartialEq, Eq, Structural)]
pub enum VerifyState {
    Start,
    TypeChecked,
    ChallengeMatched,
    OriginMatched,
    RpIdMatched,
    Accepted,
    Rejected(ValidationFailure),
    StoreFailed,
}

/// The question that the store must answer before verification can go on.
#[derive(Debug)]
pub struct ChallengeQuery<'a> {
    pub challenge: &'a str,
    pub email: &'a str,
}

/// What is wrong with the attestation object, if anything: it must decode,
/// its authenticator data must hold at least 32 bytes, and the first 32 must
/// be the hash of the relying party's identifier.
pub open spec fn rp_id_failure(config: ConfigView, attestation_object: Seq<char>) -> Option<
    ValidationFailure,
> {
    match decoded_attestation(attestation_object) {
        Err(failure) => Some(ValidationFailure::Attestation(failure)),
        Ok(attestation) => match leading_hash(attestation.auth_data) {
            Err(failure) => Some(ValidationFailure::Attestation(failure)),
            Ok(hash) => if hash == rp_id_hash(config) {
                None
            } else {
                Some(ValidationFailure::RpIdHash)
            },
        },
    }
}

/// The state that follows `state`. Each state but the last three performs one
/// check; `TypeChecked` waits until the store has answered. `Accepted`,
/// `Rejected` and `StoreFailed` are final.
pub open spec fn next_state(
    config: ConfigView,
    state: VerifyState,
    credential: PublicKeyCredentialView,
    answer: Option<Result<bool, StoreFailure>>,
) -> VerifyState {
    match state {
        VerifyState::Start => if credential.response.client_data.ceremony_type
            == "webauthn.create"@ {
            VerifyState::TypeChecked
        } else {
            VerifyState::Rejected(ValidationFailure::CeremonyType)
        },
        VerifyState::TypeChecked => match answer {
            None => VerifyState::TypeChecked,
            Some(Ok(true)) => VerifyState::ChallengeMatched,
            Some(Ok(false)) => VerifyState::Rejected(ValidationFailure::Challenge),
            Some(Err(_)) => VerifyState::StoreFailed,
        },
        VerifyState::ChallengeMatched => if credential.response.client_data.origin
            == config.origin {
            VerifyState::OriginMatched
        } else {
            VerifyState::Rejected(ValidationFailure::Origin)
        },
        VerifyState::OriginMatched => match rp_id_failure(
            config,
            credential.response.attestation_object,
        ) {
            None => VerifyState::RpIdMatched,
            Some(failure) => VerifyState::Rejected(failure),
        },
        VerifyState::RpIdMatched => VerifyState::Accepted,
        _ => state,
    }
}

/// Whether verification stops in `state`: the ceremony is decided, or the
/// store has not answered yet.
pub open spec fn halts(state: VerifyState, answer: Option<Result<bool, StoreFailure>>) -> bool {
    state.is_final() || (state == VerifyState::TypeChecked && answer is None)
}

/// The state in which verification stops when it goes on from `state`.
pub open spec fn settle(
    config: ConfigView,
    state: VerifyState,
    credential: PublicKeyCredentialView,
    answer: Option<Result<bool, StoreFailure>>,
) -> VerifyState
    decreases state.checks_left(),
{
    if halts(state, answer) {
        state
    } else {
        settle(config, next_state(config, state, credential, answer), credential, answer)
    }
}

/// The outcome of a whole verification to which the store answered `answer`.
///
/// The checks are made in the order type, challenge, origin, relying party,
/// and the first one that fails decides: a later check is not even looked at.
/// A failure of the store is neither acceptance nor rejection.
pub open spec fn verdict(
    config: ConfigView,
    credential: PublicKeyCredentialView,
    answer: Result<bool, StoreFailure>,
) -> VerifyState {
    if credential.response.client_data.ceremony_type != "webauthn.create"@ {
        VerifyState::Rejected(ValidationFailure::CeremonyType)
    } else {
        match answer {
            Err(_) => VerifyState::StoreFailed,
            Ok(false) => VerifyState::Rejected(ValidationFailure::Challenge),
            Ok(true) => if credential.response.client_data.origin != config.origin {
                VerifyState::Rejected(ValidationFailure::Origin)
            } else {
                match rp_id_failure(config, credential.response.attestation_object) {
                    Some(failure) => VerifyState::Rejected(failure),
                    None => VerifyState::Accepted,
                }
            },
        }
    }
}

impl VerifyState {
    /// Whether the ceremony is decided.
    #[verifier::when_used_as_spec(spec_is_final)]
    pub fn is_final(self) -> (decided: bool)
        ensures
            decided == self.spec_is_final(),
    {
        match self {
            VerifyState::Accepted | VerifyState::Rejected(_) | VerifyState::StoreFailed => true,
            _ => false,
        }
    }

    pub open spec fn spec_is_final(self) -> bool {
        self is Accepted || self is Rejected || self is StoreFailed
    }

    /// Whether the credential was accepted.
    pub fn is_accepted(self) -> (accepted: bool)
        ensures
            accepted == (self == VerifyState::Accepted),
    {
        match self {
            VerifyState::Accepted => true,
            _ => false,
        }
    }

    /// The number of transitions that can at most follow.
    pub open spec fn checks_left(self) -> nat {
        match self {
            VerifyState::Start => 5,
            VerifyState::TypeChecked => 4,
            VerifyState::ChallengeMatched => 3,
            VerifyState::OriginMatched => 2,
            VerifyState::RpIdMatched => 1,
            _ => 0,
        }
    }

    /// What the store must be asked while verification waits for it.
    pub fn query<'a>(self, credential: &'a PublicKeyCredential) -> (query: Option<
        ChallengeQuery<'a>,
    >)
        ensures
            match query {
                Some(q) => self == VerifyState::TypeChecked && q.challenge@
                    == credential@.response.client_data.challenge && q.email@ == credential@.email,
                None => self != VerifyState::TypeChecked,
            },
    {
        match self {
            VerifyState::TypeChecked => Some(
                ChallengeQuery {
                    challenge: credential.response.client_data.challenge.as_str(),
                    email: credential.email.as_str(),
                },
            ),
            _ => None,
        }
    }
}

/// Verifies credentials for one relying party.
pub struct Verifier {
    pub config: Config,
}

impl Verifier {
    pub fn new(config: Config) -> (verifier: Verifier)
        ensures
            verifier.config == config,
    {
        Verifier { config }
    }

    /// Checks the attestation object against the relying party's identifier.
    pub fn check_rp_id(&self, attestation_object: &str) -> (failure: Option<ValidationFailure>)
        ensures
            failure == rp_id_failure(self.config@, attestation_object@),
    {
        match AuthenticatorAttestationResponse::decode(attestation_object) {
            Err(failure) => Some(ValidationFailure::Attestation(failure)),
            Ok(attestation) => match AuthenticatorData::from_bytes(&attestation.auth_data) {
                Err(failure) => Some(ValidationFailure::Attestation(failure)),
                Ok(data) => {
                    let expected = self.config.rp_id_hash();
                    if bytes_eq(expected.as_slice(), data.rp_id_hash) {
                        None
                    } else {
                        Some(ValidationFailure::RpIdHash)
                    }
                },
            },
        }
    }

    /// Makes one transition.
    pub fn step(
        &self,
        state: VerifyState,
        credential: &PublicKeyCredential,
        answer: Option<Result<bool, StoreFailure>>,
    ) -> (next: VerifyState)
        ensures
            next == next_state(self.config@, state, credential@, answer),
    {
        match state {
            VerifyState::Start => {
                if str_eq(
                    credential.response.client_data.ceremony_type.as_str(),
                    "webauthn.create",
                ) {
                    VerifyState::TypeChecked
                } else {
                    VerifyState::Rejected(ValidationFailure::CeremonyType)
                }
            },
            VerifyState::TypeChecked => match answer {
                None => VerifyState::TypeChecked,
                Some(Ok(true)) => VerifyState::ChallengeMatched,
                Some(Ok(false)) => VerifyState::Rejected(ValidationFailure::Challenge),
                Some(Err(_)) => VerifyState::StoreFailed,
            },
            VerifyState::ChallengeMatched => {
                if str_eq(credential.response.client_data.origin.as_str(), self.config.origin()) {
                    VerifyState::OriginMatched
                } else {
                    VerifyState::Rejected(ValidationFailure::Origin)
                }
            },
            VerifyState::OriginMatched => match self.check_rp_id(
                credential.response.attestation_object.as_str(),
            ) {
                None => VerifyState::RpIdMatched,
                Some(failure) => VerifyState::Rejected(failure),
            },
            VerifyState::RpIdMatched => VerifyState::Accepted,
            _ => state,
        }
    }

    /// Goes on from `state` until the ceremony is decided or the store must
    /// be asked. `answer` is what the store said to the query of
    /// `TypeChecked`, or `None` while it has not been asked. From `Start`
    /// and with the answer at hand, the end is the verdict.
    pub fn verify(
        &self,
        state: VerifyState,
        credential: &PublicKeyCredential,
        answer: Option<Result<bool, StoreFailure>>,
    ) -> (end: VerifyState)
        ensures
            end == settle(self.config@, state, credential@, answer),
            halts(end, answer),
            state == VerifyState::Start ==> match answer {
                Some(answer) => end == verdict(self.config@, credential@, answer),
                None => end == if credential@.response.client_data.ceremony_type
                    == "webauthn.create"@ {
                    VerifyState::TypeChecked
                } else {
                    VerifyState::Rejected(ValidationFailure::CeremonyType)
                },
            },
    {
        proof {
            reveal_with_fuel(settle, 6);
        }
        let mut current = state;
        while !(current.is_final() || (current == VerifyState::TypeChecked && answer.is_none()))
            invariant
                settle(self.config@, current, credential@, answer) == settle(
                    self.config@,
                    state,
                    credential@,
                    answer,
                ),
            decreases current.checks_left(),
        {
            current = self.step(current, credential, answer);
        }
        current
    }
}

/// What a store in the state `store` answers to the query of `credential`.
pub open spec fn store_answer(store: StoreModel, credential: PublicKeyCredentialView) -> Result<
    bool,
    StoreFailure,
> {
    Ok(store.user_challenge_exists(credential.response.client_data.challenge, credential.email))
}

/// `credential` with another ceremony type.
pub open spec fn with_ceremony_type(
    credential: PublicKeyCredentialView,
    ceremony_type: Seq<char>,
) -> PublicKeyCredentialView {
    PublicKeyCredentialView {
        response: PublicKeyCredentialResponseView {
            client_data: ClientDataView { ceremony_type, ..credential.response.client_data },
            ..credential.response
        },
        ..credential
    }
}

/// `credential` with another origin.
pub open spec fn with_origin(
    credential: PublicKeyCredentialView,
    origin: Seq<char>,
) -> PublicKeyCredentialView {
    PublicKeyCredentialView {
        response: PublicKeyCredentialResponseView {
            client_data: ClientDataView { origin, ..credential.response.client_data },
            ..credential.response
        },
        ..credential
    }
}

/// Verification reaches the verdict, step by step: in one run when the store's
/// answer is at hand from the start, and as well in two, the first of which
/// stops to have the store asked. It stops there only for a credential of the
/// right ceremony type.
pub proof fn lemma_verification_reaches_the_verdict(
    config: ConfigView,
    credential: PublicKeyCredentialView,
    answer: Result<bool, StoreFailure>,
)
    ensures
        settle(config, VerifyState::Start, credential, Some(answer)) == verdict(
            config,
            credential,
            answer,
        ),
        settle(
            config,
            settle(config, VerifyState::Start, credential, None),
            credential,
            Some(answer),
        ) == verdict(config, credential, answer),
        settle(config, VerifyState::Start, credential, None) == VerifyState::TypeChecked
            <==> credential.response.client_data.ceremony_type == "webauthn.create"@,
{
    reveal_with_fuel(settle, 6);
}

/// A credential is accepted if and only if all four checks pass.
pub proof fn lemma_accepted_iff_all_checks_pass(
    config: ConfigView,
    credential: PublicKeyCredentialView,
    answer: Result<bool, StoreFailure>,
)
    ensures
        verdict(config, credential, answer) == VerifyState::Accepted <==> {
            &&& credential.response.client_data.ceremony_type == "webauthn.create"@
            &&& answer == Ok::<bool, StoreFailure>(true)
            &&& credential.response.client_data.origin == config.origin
            &&& rp_id_failure(config, credential.response.attestation_object) is None
        },
{
}

/// A final state stays as it is, whatever comes after.
pub proof fn lemma_final_states_stay(
    config: ConfigView,
    state: VerifyState,
    credential: PublicKeyCredentialView,
    answer: Option<Result<bool, StoreFailure>>,
)
    requires
        state.is_final(),
    ensures
        next_state(config, state, credential, answer) == state,
        settle(config, state, credential, answer) == state,
{
}

/// An attestation object that does not decode, or whose authenticator data
/// is shorter than 32 bytes, fails the last check with the decoder's reason:
/// a credential that holds one is never accepted.
pub proof fn lemma_undecodable_attestation_is_never_accepted(
    config: ConfigView,
    credential: PublicKeyCredentialView,
    answer: Result<bool, StoreFailure>,
)
    requires
        match decoded_attestation(credential.response.attestation_object) {
            Err(_) => true,
            Ok(attestation) => attestation.auth_data.len() < RP_ID_HASH_LEN,
        },
    ensures
        rp_id_failure(config, credential.response.attestation_object) == Some(
            ValidationFailure::Attestation(
                match decoded_attestation(credential.response.attestation_object) {
                    Err(failure) => failure,
                    Ok(_) => DecodeFailure::Truncated,
                },
            ),
        ),
        verdict(config, credential, answer) != VerifyState::Accepted,
{
}

/// A credential for an identity to which no challenge was ever issued is
/// rejected, whatever it holds.
pub proof fn lemma_unissued_identity_is_rejected(
    config: ConfigView,
    store: StoreModel,
    credential: PublicKeyCredentialView,
)
    requires
        store.never_issued(credential.email),
    ensures
        verdict(config, credential, store_answer(store, credential)) is Rejected,
{
}

/// A credential that presents another challenge than the one that was issued
/// to its identity is rejected: the challenge must match exactly.
pub proof fn lemma_other_challenge_is_rejected(
    config: ConfigView,
    store: StoreModel,
    credential: PublicKeyCredentialView,
    issued: Seq<char>,
)
    requires
        store.user_challenge_exists(issued, credential.email),
        forall|other: Seq<char>| #[trigger]
            store.user_challenge_exists(other, credential.email) ==> other == issued,
        credential.response.client_data.challenge != issued,
    ensures
        verdict(config, credential, store_answer(store, credential)) is Rejected,
{
}

/// Each of the type check and the origin check decides alone: an accepted
/// credential is rejected as soon as its ceremony type, or its origin, is
/// changed to a wrong value and nothing else is.
pub proof fn lemma_type_and_origin_are_each_checked(
    config: ConfigView,
    credential: PublicKeyCredentialView,
    answer: Result<bool, StoreFailure>,
    wrong_type: Seq<char>,
    wrong_origin: Seq<char>,
)
    requires
        verdict(config, credential, answer) == VerifyState::Accepted,
        wrong_type != "webauthn.create"@,
        wrong_origin != config.origin,
    ensures
        verdict(config, with_ceremony_type(credential, wrong_type), answer)
            == VerifyState::Rejected(ValidationFailure::CeremonyType),
        verdict(config, with_origin(credential, wrong_origin), answer) == VerifyState::Rejected(
            ValidationFailure::Origin,
        ),
{
}

} // verus!
