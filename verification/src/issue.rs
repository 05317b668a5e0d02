//! The issuance of a challenge: one lookup in the store and two writes to it,
//! decided step by step from what the store answers.

use vstd::prelude::*;

use crate::config::{Config, ConfigView};
use crate::encoding::base64_no_pad_encoding;
use crate::options::{
    is_token, random_bytes_base64, registration_options, Credentials, CredentialsView, TOKEN_BYTES,
};
use crate::store::{StoreFailure, StoreModel};

verus! {

/// How far the issuance for one identity has come.
#[derive(Debug)]
pub enum IssueState {
    /// Nothing is known yet: the store must say whether the identity is
    /// registered.
    Start,
    /// The identity is new and its challenge is minted: the user must be
    /// created.
    UserAbsent { challenge: String },
    /// The user exists under `user_id`: the challenge must be recorded.
    UserCreated { user_id: u32, challenge: String },
    /// The challenge is recorded, and these options go out.
    Issued(Credentials),
    /// The identity is registered already.
    Conflict,
    /// The store failed.
    StoreFailed,
}

pub enum IssueStateView {
    Start,
    UserAbsent { challenge: Seq<char> },
    UserCreated { user_id: u32, challenge: Seq<char> },
    Issued(CredentialsView),
    Conflict,
    StoreFailed,
}

impl View for IssueState {
    type V = IssueStateView;

    open spec fn view(&self) -> IssueStateView {
        match self {
            IssueState::Start => IssueStateView::Start,
            IssueState::UserAbsent { challenge } => IssueStateView::UserAbsent {
                challenge: challenge@,
            },
            IssueState::UserCreated { user_id, challenge } => IssueStateView::UserCreated {
                user_id: *user_id,
                challenge: challenge@,
            },
            IssueState::Issued(options) => IssueStateView::Issued(options@),
            IssueState::Conflict => IssueStateView::Conflict,
            IssueState::StoreFailed => IssueStateView::StoreFailed,
        }
    }
}

/// What the store answered to the action that was pending.
#[derive(Clone, Copy, Debug, PartialEq, Eq)]
pub enum IssueEvent {
    /// The id of the user registered under the identity, if there is one.
    UserLookup(Result<Option<u32>, StoreFailure>),
    /// The id under which the user was created.
    UserInserted(Result<u32, StoreFailure>),
    /// The challenge was recorded.
    ChallengeInserted(Result<(), StoreFailure>),
}

/// What must be done on the store before issuance can go on.
#[derive(Debug)]
pub enum IssueAction<'a> {
    LookupUser { email: &'a str },
    InsertUser { email: &'a str },
    InsertChallenge { user_id: u32, challenge: &'a str },
    Done,
}

pub enum IssueActionView {
    LookupUser { email: Seq<char> },
    InsertUser { email: Seq<char> },
    InsertChallenge { user_id: u32, challenge: Seq<char> },
    Done,
}

impl<'a> View for IssueAction<'a> {
    type V = IssueActionView;

    open spec fn view(&self) -> IssueActionView {
        match self {
            IssueAction::LookupUser { email } => IssueActionView::LookupUser { email: email@ },
            IssueAction::InsertUser { email } => IssueActionView::InsertUser { email: email@ },
            IssueAction::InsertChallenge { user_id, challenge } => IssueActionView::InsertChallenge {
                user_id: *user_id,
                challenge: challenge@,
            },
            IssueAction::Done => IssueActionView::Done,
        }
    }
}

/// The action that is pending in `state` for the identity `email`.
pub open spec fn pending_action(state: IssueStateView, email: Seq<char>) -> IssueActionView {
    match state {
        IssueStateView::Start => IssueActionView::LookupUser { email },
        IssueStateView::UserAbsent { .. } => IssueActionView::InsertUser { email },
        IssueStateView::UserCreated { user_id, challenge } => IssueActionView::InsertChallenge {
            user_id,
            challenge,
        },
        _ => IssueActionView::Done,
    }
}

/// The state that follows `before` on `event`, where `token` is the random
/// token that is drawn for the step.
///
/// An identity that is registered already ends in `Conflict`. For a new one
/// the token becomes its challenge; the challenge is carried on unchanged
/// while the user is created and the challenge recorded, and goes out in
/// options whose user handle is the token of that last step. Any failure of
/// the store ends in `StoreFailed`. An event that does not answer the pending
/// action changes nothing, and neither does any event in a final state.
pub open spec fn issue_next(
    config: ConfigView,
    before: IssueStateView,
    event: IssueEvent,
    token: Seq<char>,
) -> IssueStateView {
    match (before, event) {
        (IssueStateView::Start, IssueEvent::UserLookup(Ok(Some(_)))) => IssueStateView::Conflict,
        (IssueStateView::Start, IssueEvent::UserLookup(Ok(None))) => IssueStateView::UserAbsent {
            challenge: token,
        },
        (IssueStateView::Start, IssueEvent::UserLookup(Err(_))) => IssueStateView::StoreFailed,
        (
            IssueStateView::UserAbsent { challenge },
            IssueEvent::UserInserted(Ok(user_id)),
        ) => IssueStateView::UserCreated { user_id, challenge },
        (
            IssueStateView::UserAbsent { .. },
            IssueEvent::UserInserted(Err(_)),
        ) => IssueStateView::StoreFailed,
        (
            IssueStateView::UserCreated { challenge, .. },
            IssueEvent::ChallengeInserted(Ok(_)),
        ) => IssueStateView::Issued(registration_options(config, challenge, token)),
        (
            IssueStateView::UserCreated { .. },
            IssueEvent::ChallengeInserted(Err(_)),
        ) => IssueStateView::StoreFailed,
        _ => before,
    }
}

/// Whether the step from `before` on `event` uses the token drawn for it.
pub open spec fn uses_token(before: IssueStateView, event: IssueEvent) -> bool {
    match (before, event) {
        (IssueStateView::Start, IssueEvent::UserLookup(Ok(None))) => true,
        (IssueStateView::UserCreated { .. }, IssueEvent::ChallengeInserted(Ok(_))) => true,
        _ => false,
    }
}

/// Whether `after` may follow `before` on `event`: it does so for some token
/// of sixteen random bytes.
pub open spec fn issue_transition(
    config: ConfigView,
    before: IssueStateView,
    event: IssueEvent,
    after: IssueStateView,
) -> bool {
    exists|token: Seq<char>|
        is_token(token) && after == #[trigger] issue_next(config, before, event, token)
}

impl IssueState {
    /// Whether the issuance has ended: in options, in a conflict or in a
    /// failure of the store.
    pub fn is_final(&self) -> (ended: bool)
        ensures
            ended == (self@ is Issued || self@ is Conflict || self@ is StoreFailed),
    {
        match self {
            IssueState::Issued(_) | IssueState::Conflict | IssueState::StoreFailed => true,
            _ => false,
        }
    }

    /// Whether the step from this state on `event` needs a fresh token.
    pub fn uses_token(&self, event: &IssueEvent) -> (used: bool)
        ensures
            used == uses_token(self@, *event),
    {
        match (self, event) {
            (IssueState::Start, IssueEvent::UserLookup(Ok(None))) => true,
            (IssueState::UserCreated { .. }, IssueEvent::ChallengeInserted(Ok(_))) => true,
            _ => false,
        }
    }

    /// What must be done on the store next, for the identity `email`.
    pub fn action<'a>(&'a self, email: &'a str) -> (action: IssueAction<'a>)
        ensures
            action@ == pending_action(self@, email@),
    {
        match self {
            IssueState::Start => IssueAction::LookupUser { email },
            IssueState::UserAbsent { .. } => IssueAction::InsertUser { email },
            IssueState::UserCreated { user_id, challenge } => IssueAction::InsertChallenge {
                user_id: *user_id,
                challenge: challenge.as_str(),
            },
            _ => IssueAction::Done,
        }
    }
}

/// Issues challenges for one relying party.
pub struct Issuer {
    pub config: Config,
}

impl Issuer {
    pub fn new(config: Config) -> (issuer: Issuer)
        ensures
            issuer.config == config,
    {
        Issuer { config }
    }

    /// Makes the transition that the store's answer calls for, with `token`
    /// as the random token of the step.
    pub fn step_with(&self, state: IssueState, event: IssueEvent, token: String) -> (next:
        IssueState)
        ensures
            next@ == issue_next(self.config@, state@, event, token@),
    {
        match state {
            IssueState::Start => match event {
                IssueEvent::UserLookup(Ok(Some(_))) => IssueState::Conflict,
                IssueEvent::UserLookup(Ok(None)) => IssueState::UserAbsent { challenge: token },
                IssueEvent::UserLookup(Err(_)) => IssueState::StoreFailed,
                _ => IssueState::Start,
            },
            IssueState::UserAbsent { challenge } => match event {
                IssueEvent::UserInserted(Ok(user_id)) => IssueState::UserCreated {
                    user_id,
                    challenge,
                },
                IssueEvent::UserInserted(Err(_)) => IssueState::StoreFailed,
                _ => IssueState::UserAbsent { challenge },
            },
            IssueState::UserCreated { user_id, challenge } => match event {
                IssueEvent::ChallengeInserted(Ok(_)) => IssueState::Issued(
                    Credentials::with_user_handle(&self.config, challenge, token),
                ),
                IssueEvent::ChallengeInserted(Err(_)) => IssueState::StoreFailed,
                _ => IssueState::UserCreated { user_id, challenge },
            },
            other => other,
        }
    }

    /// Makes the transition that the store's answer calls for. Where the
    /// step mints a challenge or a user handle, it draws a fresh token for it.
    pub fn step(&self, state: IssueState, event: IssueEvent) -> (next: IssueState)
        ensures
            issue_transition(self.config@, state@, event, next@),
    {
        if state.uses_token(&event) {
            let token = random_bytes_base64();
            self.step_with(state, event, token)
        } else {
            proof {
                let spare = base64_no_pad_encoding(Seq::new(TOKEN_BYTES as nat, |i: int| 0u8));
                assert(is_token(spare));
                assert(issue_next(self.config@, state@, event, spare) == issue_next(
                    self.config@,
                    state@,
                    event,
                    Seq::empty(),
                ));
            }
            self.step_with(state, event, String::new())
        }
    }
}

/// Whether a store in the state `store` can answer `event` and become `after`
/// when the action that is pending in `state` is carried out on it for the
/// identity `email`. A lookup changes nothing and tells what the store holds;
/// a new user gets an id that no user has; a failed action changes nothing.
pub open spec fn store_reaction(
    store: StoreModel,
    email: Seq<char>,
    state: IssueStateView,
    event: IssueEvent,
    after: StoreModel,
) -> bool {
    match (state, event) {
        (IssueStateView::Start, IssueEvent::UserLookup(Ok(Some(user_id)))) => after == store
            && store.get_user(email) == Some(user_id as int),
        (IssueStateView::Start, IssueEvent::UserLookup(Ok(None))) => after == store
            && store.get_user(email) is None,
        (IssueStateView::Start, IssueEvent::UserLookup(Err(_))) => after == store,
        (IssueStateView::UserAbsent { .. }, IssueEvent::UserInserted(Ok(user_id))) => after
            == store.insert_user(email, user_id as int) && store.is_unused_id(user_id as int),
        (IssueStateView::UserAbsent { .. }, IssueEvent::UserInserted(Err(_))) => after == store,
        (
            IssueStateView::UserCreated { user_id, challenge },
            IssueEvent::ChallengeInserted(Ok(_)),
        ) => after == store.insert_user_challenge(user_id as int, challenge),
        (IssueStateView::UserCreated { .. }, IssueEvent::ChallengeInserted(Err(_))) => after
            == store,
        _ => false,
    }
}

/// Whether `states` is an issuance for `email` from its start, step by step,
/// on the events of a store that passes through `stores`: every event is the
/// store's reaction to the action that was pending, and every state follows
/// from the one before on that event.
pub open spec fn is_issuance(
    config: ConfigView,
    email: Seq<char>,
    stores: Seq<StoreModel>,
    events: Seq<IssueEvent>,
    states: Seq<IssueStateView>,
) -> bool {
    &&& states.len() == events.len() + 1
    &&& stores.len() == events.len() + 1
    &&& states[0] == IssueStateView::Start
    &&& forall|i: int|
        0 <= i < events.len() ==> store_reaction(
            stores[i],
            email,
            states[i],
            #[trigger] events[i],
            stores[i + 1],
        )
    &&& forall|i: int|
        0 <= i < events.len() ==> issue_transition(
            config,
            states[i],
            #[trigger] events[i],
            states[i + 1],
        )
}

/// An issuance takes three steps at most, and one that ends in options takes
/// exactly three. It leaves the challenge that goes out recorded for its
/// identity, and for no other: whether a challenge exists for any other
/// identity is as before.
pub proof fn lemma_issued_challenge_is_recorded(
    config: ConfigView,
    email: Seq<char>,
    stores: Seq<StoreModel>,
    events: Seq<IssueEvent>,
    states: Seq<IssueStateView>,
)
    requires
        is_issuance(config, email, stores, events, states),
    ensures
        events.len() <= 3,
        states.last() matches IssueStateView::Issued(options) ==> {
            &&& events.len() == 3
            &&& is_token(options.challenge)
            &&& stores[0].get_user(email) is None
            &&& stores.last().user_challenge_exists(options.challenge, email)
            &&& forall|other: Seq<char>, challenge: Seq<char>|
                other != email ==> stores.last().user_challenge_exists(challenge, other)
                    == stores[0].user_challenge_exists(challenge, other)
        },
{
    if events.len() >= 1 {
        assert(store_reaction(stores[0], email, states[0], events[0], stores[1]));
        assert(issue_transition(config, states[0], events[0], states[1]));
    }
    if events.len() >= 2 {
        assert(store_reaction(stores[1], email, states[1], events[1], stores[2]));
        assert(issue_transition(config, states[1], events[1], states[2]));
    }
    if events.len() >= 3 {
        assert(store_reaction(stores[2], email, states[2], events[2], stores[3]));
        assert(issue_transition(config, states[2], events[2], states[3]));
    }
    if events.len() >= 4 {
        assert(store_reaction(stores[3], email, states[3], events[3], stores[4]));
    }
    if states.last() is Issued {
        let user_id = stores[3].users[email];
        assert(stores[0].is_unused_id(user_id));
        assert forall|other: Seq<char>, challenge: Seq<char>| other != email implies stores[3].user_challenge_exists(
            challenge,
            other,
        ) == stores[0].user_challenge_exists(challenge, other) by {
            if stores[0].users.dom().contains(other) {
                assert(stores[0].users[other] != user_id);
            }
        }
    }
}

/// An issuance for an identity that is registered already ends with its
/// first step, in `Conflict` unless the store failed, and writes nothing: the
/// store is as it was.
pub proof fn lemma_registered_identity_is_refused(
    config: ConfigView,
    email: Seq<char>,
    stores: Seq<StoreModel>,
    events: Seq<IssueEvent>,
    states: Seq<IssueStateView>,
)
    requires
        is_issuance(config, email, stores, events, states),
        stores[0].get_user(email) is Some,
    ensures
        events.len() <= 1,
        stores.last() == stores[0],
        !(states.last() is Issued),
        events.len() == 1 ==> states.last() == if events[0] matches IssueEvent::UserLookup(Ok(_)) {
            IssueStateView::Conflict
        } else {
            IssueStateView::StoreFailed
        },
{
    if events.len() >= 1 {
        assert(store_reaction(stores[0], email, states[0], events[0], stores[1]));
        assert(issue_transition(config, states[0], events[0], states[1]));
    }
    if events.len() >= 2 {
        assert(store_reaction(stores[1], email, states[1], events[1], stores[2]));
    }
}

} // verus!
