//! The callback as a state machine: each step takes the outcome of the
//! outside work that the previous step asked for and says what to do next.
//!
//! The caller performs the actions (store, provider, account storage,
//! session signing) and hands each outcome back as an event. The machine keeps
//! the order of the steps and classifies every failure where it occurs.

use vstd::prelude::*;
use crate::error::{ErrorKind, LoginError};
use crate::profile::{CasdoorUser, LocalAccount};
use crate::token::{check_profile, check_token, profile_outcome, token_outcome, ProfileReply, TokenExchange, TokenGrant, TokenKind};

verus! {

/// Seconds for which an issued session credential is valid.
pub const SESSION_TTL_SECS: u32 = 3600;

/// The query of an inbound callback.
#[derive(Debug, Clone, PartialEq, Eq)]
pub struct CallbackQuery {
    pub state: String,
    pub code: String,
}

/// The body of a successful login's answer.
#[derive(Debug, Clone, PartialEq, Eq)]
pub struct LoginResponse {
    pub user: LocalAccount,
    pub token: String,
}

/// What the correlation store answered to a read-and-delete.
#[derive(Debug, Clone, PartialEq, Eq)]
pub enum Taken {
    /// A live entry stood under the state; carries its PKCE verifier.
    Found(String),
    /// Nothing stood there: never written, consumed already, or expired.
    Missing,
    /// The store could not be asked.
    Unavailable,
}

/// What the account storage answered to a search by subject.
#[derive(Debug, Clone, PartialEq, Eq)]
pub enum Lookup {
    Found(LocalAccount),
    NotFound,
    /// The storage could not be read.
    Unavailable,
}

/// What the account storage answered to the creation of an account.
#[derive(Debug, Clone, PartialEq, Eq)]
pub enum Creation {
    Created(LocalAccount),
    /// Another account is linked to the subject already.
    Conflict,
    /// The storage could not be written.
    Unavailable,
}

/// The outcome of the outside work that the last action asked for.
#[derive(Debug, Clone, PartialEq, Eq)]
pub enum FlowEvent {
    Verifier(Taken),
    Token(TokenExchange),
    Profile(ProfileReply),
    Lookup(Lookup),
    Creation(Creation),
    /// The signed session credential, absent where signing failed.
    Session(Option<String>),
}

/// The outside work to do next, or the end of the flow.
#[derive(Debug, Clone, PartialEq, Eq)]
pub enum FlowAction {
    /// Read and delete the correlation entry under `state`.
    TakeVerifier { state: String },
    /// Exchange the authorization code for a token.
    ExchangeCode { code: String, pkce_verifier: String },
    /// Ask the provider for the profile behind the token.
    FetchProfile { access_token: String },
    /// Search the account linked to `subject`.
    FindAccount { subject: String },
    /// Build the account for `profile` and store it.
    CreateAccount { profile: CasdoorUser },
    /// Sign a session credential for the account `uid`, valid for `ttl` seconds.
    IssueSession { uid: u128, ttl: u32 },
    /// The login succeeded.
    Finish(LoginResponse),
    /// The login failed.
    Fail(LoginError),
}

/// Where a callback stands: which outcome it waits for, and what it keeps
/// until then.
#[derive(Debug, Clone, PartialEq, Eq)]
pub enum FlowState {
    /// The store was asked for the verifier; `code` waits for the exchange.
    AwaitVerifier { code: String },
    /// The provider was asked to exchange the code.
    AwaitToken,
    /// The provider was asked for the profile.
    AwaitProfile,
    /// The storage was asked for the account of `profile`'s subject.
    AwaitLookup { profile: CasdoorUser },
    /// The storage was asked to create the account of `subject`.
    AwaitCreation { subject: String },
    /// The creation met a conflict, so another flow has created the account
    /// meanwhile; the storage was asked for it once more.
    AwaitReread,
    /// The issuer was asked for a session for `account`.
    AwaitSession { account: LocalAccount },
    /// The flow has ended; nothing more is asked for.
    Done,
}

/// The step for an event that does not answer the pending action: the flow
/// ends with a protocol failure.
pub open spec fn out_of_turn() -> (FlowState, FlowAction) {
    (FlowState::Done, FlowAction::Fail(LoginError::MalformedResponse))
}

/// The step that ends the flow with `error`.
pub open spec fn failed(error: LoginError) -> (FlowState, FlowAction) {
    (FlowState::Done, FlowAction::Fail(error))
}

/// The step that asks for a session for `account`.
pub open spec fn signed_in(account: LocalAccount) -> (FlowState, FlowAction) {
    (
        FlowState::AwaitSession { account },
        FlowAction::IssueSession { uid: account.uid, ttl: SESSION_TTL_SECS },
    )
}

/// The first step of a callback: ask the store for the verifier.
pub open spec fn spec_begin(query: CallbackQuery) -> (FlowState, FlowAction) {
    (FlowState::AwaitVerifier { code: query.code }, FlowAction::TakeVerifier { state: query.state })
}

/// The step from `state` on `event`.
pub open spec fn spec_step(state: FlowState, event: FlowEvent) -> (FlowState, FlowAction) {
    match state {
        FlowState::AwaitVerifier { code } => match event {
            FlowEvent::Verifier(Taken::Found(pkce_verifier)) => (
                FlowState::AwaitToken,
                FlowAction::ExchangeCode { code, pkce_verifier },
            ),
            FlowEvent::Verifier(Taken::Missing) => failed(LoginError::InvalidRequest),
            FlowEvent::Verifier(Taken::Unavailable) => failed(LoginError::StoreUnavailable),
            _ => out_of_turn(),
        },
        FlowState::AwaitToken => match event {
            FlowEvent::Token(exchange) => match token_outcome(exchange) {
                Ok(grant) => (
                    FlowState::AwaitProfile,
                    FlowAction::FetchProfile { access_token: grant.access_token },
                ),
                Err(error) => failed(error),
            },
            _ => out_of_turn(),
        },
        FlowState::AwaitProfile => match event {
            FlowEvent::Profile(reply) => match profile_outcome(reply) {
                Ok(profile) => (
                    FlowState::AwaitLookup { profile },
                    FlowAction::FindAccount { subject: profile.sub },
                ),
                Err(error) => failed(error),
            },
            _ => out_of_turn(),
        },
        FlowState::AwaitLookup { profile } => match event {
            FlowEvent::Lookup(Lookup::Found(account)) => signed_in(account),
            FlowEvent::Lookup(Lookup::NotFound) => (
                FlowState::AwaitCreation { subject: profile.sub },
                FlowAction::CreateAccount { profile },
            ),
            FlowEvent::Lookup(Lookup::Unavailable) => failed(LoginError::StorageUnavailable),
            _ => out_of_turn(),
        },
        FlowState::AwaitCreation { subject } => match event {
            FlowEvent::Creation(Creation::Created(account)) => signed_in(account),
            FlowEvent::Creation(Creation::Conflict) => (
                FlowState::AwaitReread,
                FlowAction::FindAccount { subject },
            ),
            FlowEvent::Creation(Creation::Unavailable) => failed(LoginError::StorageUnavailable),
            _ => out_of_turn(),
        },
        FlowState::AwaitReread => match event {
            FlowEvent::Lookup(Lookup::Found(account)) => signed_in(account),
            FlowEvent::Lookup(_) => failed(LoginError::StorageUnavailable),
            _ => out_of_turn(),
        },
        FlowState::AwaitSession { account } => match event {
            FlowEvent::Session(Some(token)) => (
                FlowState::Done,
                FlowAction::Finish(LoginResponse { user: account, token }),
            ),
            FlowEvent::Session(None) => failed(LoginError::SigningUnavailable),
            _ => out_of_turn(),
        },
        FlowState::Done => out_of_turn(),
    }
}

fn end_with(error: LoginError) -> (next: (FlowState, FlowAction))
    ensures
        next == failed(error),
{
    (FlowState::Done, FlowAction::Fail(error))
}

fn sign_in(account: LocalAccount) -> (next: (FlowState, FlowAction))
    ensures
        next == signed_in(account),
{
    let uid: u128 = account.uid;
    (FlowState::AwaitSession { account }, FlowAction::IssueSession { uid, ttl: SESSION_TTL_SECS })
}

/// Starts the flow for a callback.
pub fn begin(query: CallbackQuery) -> (next: (FlowState, FlowAction))
    ensures
        next == spec_begin(query),
{
    (FlowState::AwaitVerifier { code: query.code }, FlowAction::TakeVerifier { state: query.state })
}

/// Takes the outcome of the pending action and says what to do next.
pub fn step(state: FlowState, event: FlowEvent) -> (next: (FlowState, FlowAction))
    ensures
        next == spec_step(state, event),
{
    match state {
        FlowState::AwaitVerifier { code } => match event {
            FlowEvent::Verifier(Taken::Found(pkce_verifier)) => (
                FlowState::AwaitToken,
                FlowAction::ExchangeCode { code, pkce_verifier },
            ),
            FlowEvent::Verifier(Taken::Missing) => end_with(LoginError::InvalidRequest),
            FlowEvent::Verifier(Taken::Unavailable) => end_with(LoginError::StoreUnavailable),
            _ => end_with(LoginError::MalformedResponse),
        },
        FlowState::AwaitToken => match event {
            FlowEvent::Token(exchange) => match check_token(exchange) {
                Ok(grant) => (
                    FlowState::AwaitProfile,
                    FlowAction::FetchProfile { access_token: grant.access_token },
                ),
                Err(error) => end_with(error),
            },
            _ => end_with(LoginError::MalformedResponse),
        },
        FlowState::AwaitProfile => match event {
            FlowEvent::Profile(reply) => match check_profile(reply) {
                Ok(profile) => {
                    let subject = profile.sub.clone();
                    (FlowState::AwaitLookup { profile }, FlowAction::FindAccount { subject })
                },
                Err(error) => end_with(error),
            },
            _ => end_with(LoginError::MalformedResponse),
        },
        FlowState::AwaitLookup { profile } => match event {
            FlowEvent::Lookup(Lookup::Found(account)) => sign_in(account),
            FlowEvent::Lookup(Lookup::NotFound) => {
                let subject = profile.sub.clone();
                (FlowState::AwaitCreation { subject }, FlowAction::CreateAccount { profile })
            },
            FlowEvent::Lookup(Lookup::Unavailable) => end_with(LoginError::StorageUnavailable),
            _ => end_with(LoginError::MalformedResponse),
        },
        FlowState::AwaitCreation { subject } => match event {
            FlowEvent::Creation(Creation::Created(account)) => sign_in(account),
            FlowEvent::Creation(Creation::Conflict) => (
                FlowState::AwaitReread,
                FlowAction::FindAccount { subject },
            ),
            FlowEvent::Creation(Creation::Unavailable) => end_with(LoginError::StorageUnavailable),
            _ => end_with(LoginError::MalformedResponse),
        },
        FlowState::AwaitReread => match event {
            FlowEvent::Lookup(Lookup::Found(account)) => sign_in(account),
            FlowEvent::Lookup(_) => end_with(LoginError::StorageUnavailable),
            _ => end_with(LoginError::MalformedResponse),
        },
        FlowState::AwaitSession { account } => match event {
            FlowEvent::Session(Some(token)) => (
                FlowState::Done,
                FlowAction::Finish(LoginResponse { user: account, token }),
            ),
            FlowEvent::Session(None) => end_with(LoginError::SigningUnavailable),
            _ => end_with(LoginError::MalformedResponse),
        },
        FlowState::Done => end_with(LoginError::MalformedResponse),
    }
}

/// The actions a flow asks for, one for each event of `events`, from `state` on.
pub open spec fn trace(state: FlowState, events: Seq<FlowEvent>) -> Seq<FlowAction>
    decreases events.len(),
{
    if events.len() == 0 {
        Seq::<FlowAction>::empty()
    } else {
        let next = spec_step(state, events[0]);
        seq![next.1] + trace(next.0, events.skip(1))
    }
}

/// An action that reaches the provider's profile endpoint or the account storage.
pub open spec fn goes_further(action: FlowAction) -> bool {
    match action {
        FlowAction::FetchProfile { .. } => true,
        FlowAction::FindAccount { .. } => true,
        FlowAction::CreateAccount { .. } => true,
        FlowAction::IssueSession { .. } => true,
        FlowAction::Finish(_) => true,
        _ => false,
    }
}

/// A flow that has ended stays ended: whatever is handed to it, it asks for
/// nothing and answers with a failure.
pub proof fn law_done_is_final(events: Seq<FlowEvent>)
    ensures
        trace(FlowState::Done, events).len() == events.len(),
        forall|i: int|
            0 <= i < events.len() ==> #[trigger] trace(FlowState::Done, events)[i]
                == FlowAction::Fail(LoginError::MalformedResponse),
    decreases events.len(),
{
    if events.len() > 0 {
        law_done_is_final(events.skip(1));
        let rest = trace(FlowState::Done, events.skip(1));
        assert forall|i: int| 0 <= i < events.len() implies #[trigger] trace(
            FlowState::Done,
            events,
        )[i] == FlowAction::Fail(LoginError::MalformedResponse) by {
            if i > 0 {
                assert(trace(FlowState::Done, events)[i] == rest[i - 1]);
            }
        }
    }
}

/// A callback whose state the store does not know fails with a client error
/// at once, and no later event makes it ask for a profile, an account or a
/// session.
pub proof fn law_unknown_state_ends_flow(query: CallbackQuery, later: Seq<FlowEvent>)
    ensures
        ({
            let events = seq![FlowEvent::Verifier(Taken::Missing)] + later;
            let actions = trace(spec_begin(query).0, events);
            &&& actions.len() == events.len()
            &&& actions[0] == FlowAction::Fail(LoginError::InvalidRequest)
            &&& LoginError::InvalidRequest.spec_kind() == ErrorKind::Client
            &&& forall|i: int| 0 <= i < actions.len() ==> !goes_further(#[trigger] actions[i])
        }),
{
    let events = seq![FlowEvent::Verifier(Taken::Missing)] + later;
    assert(events.skip(1) =~= later);
    law_done_is_final(later);
    let actions = trace(spec_begin(query).0, events);
    let rest = trace(FlowState::Done, later);
    assert(actions == seq![FlowAction::Fail(LoginError::InvalidRequest)] + rest);
    assert forall|i: int| 0 <= i < actions.len() implies !goes_further(#[trigger] actions[i]) by {
        if i > 0 {
            assert(actions[i] == rest[i - 1]);
        }
    }
}

/// A credential that is no bearer token fails the login with a client error,
/// and no later event makes the flow ask for the profile or anything after it.
pub proof fn law_unsupported_token_ends_flow(grant: TokenGrant, later: Seq<FlowEvent>)
    requires
        grant.token_kind != TokenKind::Bearer,
    ensures
        ({
            let events = seq![FlowEvent::Token(TokenExchange::Granted(grant))] + later;
            let actions = trace(FlowState::AwaitToken, events);
            &&& actions.len() == events.len()
            &&& actions[0] == FlowAction::Fail(LoginError::UnsupportedTokenType)
            &&& LoginError::UnsupportedTokenType.spec_kind() == ErrorKind::Client
            &&& forall|i: int| 0 <= i < actions.len() ==> !goes_further(#[trigger] actions[i])
        }),
{
    let events = seq![FlowEvent::Token(TokenExchange::Granted(grant))] + later;
    assert(events.skip(1) =~= later);
    law_done_is_final(later);
    let actions = trace(FlowState::AwaitToken, events);
    let rest = trace(FlowState::Done, later);
    assert(actions == seq![FlowAction::Fail(LoginError::UnsupportedTokenType)] + rest);
    assert forall|i: int| 0 <= i < actions.len() implies !goes_further(#[trigger] actions[i]) by {
        if i > 0 {
            assert(actions[i] == rest[i - 1]);
        }
    }
}

} // verus!
