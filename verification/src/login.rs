//! The login flow on the in-memory correlation store and account directory,
//! with the provider's answers given by the caller.

use vstd::pervasive::unreached;
use vstd::prelude::*;
use vstd::string::StringExecFns;
use crate::config::{lemma_token_bytes, ConfigView, ProviderConfig};
use crate::directory::{create_outcome, create_result, AccountDirectory, DirectoryError};
use crate::error::{ErrorKind, LoginError};
use crate::flow::{signed_in, spec_begin, spec_step, CallbackQuery, Creation, FlowAction, FlowEvent, FlowState, LoginResponse, Lookup, Taken};
use crate::outside::{authorization_url, random_pkce_verifier, url_safe_token};
use crate::profile::{account_of, AccountView, CasdoorUser, LocalAccount, ProfileView};
use crate::store::{live_part, lookup, put_outcome, put_result, CorrelationStore, EntryView};
use crate::token::{check_profile, check_token, profile_outcome, token_outcome, ProfileReply, TokenExchange};

verus! {

/// Seconds for which a pending authorization request can be completed.
pub const CORRELATION_TTL_SECS: u32 = 600;

/// A pending authorization request.
#[derive(Debug, Clone, PartialEq, Eq)]
pub struct AuthorizationRequest {
    /// Random and used once; the callback must bring it back.
    pub state: String,
    /// Random secret whose SHA-256 challenge went to the provider.
    pub pkce_verifier: String,
    pub requested_scopes: Vec<String>,
}

/// Where to send the user, and the `state` that the redirect carries.
#[derive(Debug, Clone, PartialEq, Eq)]
pub struct RedirectInstruction {
    pub location: String,
    pub csrf_token: String,
}

/// The scopes every login asks for.
pub open spec fn requested_scopes() -> Seq<Seq<char>> {
    seq!["public_repo"@, "user:email"@]
}

/// The scopes every login asks for.
pub fn login_scopes() -> (scopes: Vec<String>)
    ensures
        scopes.deep_view() == requested_scopes(),
{
    let mut scopes: Vec<String> = Vec::new();
    scopes.push(String::from_str("public_repo"));
    scopes.push(String::from_str("user:email"));
    assert(scopes.deep_view() =~= requested_scopes());
    scopes
}

/// The address a request leads to under `config`.
pub open spec fn location_of(config: ConfigView, state: Seq<char>, pkce_verifier: Seq<char>) -> Seq<
    char,
> {
    authorization_url(
        config.auth_url,
        config.client_id,
        config.redirect_url,
        requested_scopes(),
        state,
        pkce_verifier,
    )
}

/// A fresh authorization request and the redirect that starts it. The state
/// and the verifier are random; the redirect leads to the provider's
/// authorization endpoint and carries that state.
pub fn authorization_request(config: &ProviderConfig) -> (made: (
    AuthorizationRequest,
    RedirectInstruction,
))
    ensures
        url_safe_token(made.0.state@, 22),
        url_safe_token(made.0.pkce_verifier@, 43),
        made.0.requested_scopes.deep_view() == requested_scopes(),
        made.1.csrf_token@ == made.0.state@,
        made.1.location@ == location_of(config@, made.0.state@, made.0.pkce_verifier@),
{
    let pkce_verifier = random_pkce_verifier();
    let requested_scopes = login_scopes();
    let secret = pkce_verifier.as_str();
    proof {
        lemma_token_bytes(secret, 43);
    }
    match config.build_authorization_url(secret, &requested_scopes) {
        Some((location, state)) => {
            let csrf_token = state.clone();
            (
                AuthorizationRequest { state, pkce_verifier, requested_scopes },
                RedirectInstruction { location, csrf_token },
            )
        },
        // a verifier of 43 bytes has a length that RFC 7636 admits
        None => unreached(),
    }
}

/// The answer to the user once the store has said whether it recorded the
/// request: the redirect if it did, a failure if it did not. A request that
/// was not recorded is never sent on its way.
pub fn confirm_redirect(redirect: RedirectInstruction, stored: bool) -> (answer: Result<
    RedirectInstruction,
    LoginError,
>)
    ensures
        answer == (if stored {
            Ok::<RedirectInstruction, LoginError>(redirect)
        } else {
            Err::<RedirectInstruction, LoginError>(LoginError::StoreUnavailable)
        }),
{
    if stored {
        Ok(redirect)
    } else {
        Err(LoginError::StoreUnavailable)
    }
}

/// Starts a login: makes a fresh request, records `state -> verifier` in the
/// store for `CORRELATION_TTL_SECS` seconds from `now`, and answers with the
/// redirect. Where the store refuses the entry the login is not started.
///
/// The state is random, so the contract speaks of the state that was drawn:
/// the login starts exactly when the store accepts that state, and it cannot
/// fail on a store that would accept every state.
pub fn begin_login(config: &ProviderConfig, store: &mut CorrelationStore, now: i64) -> (answer:
    Result<RedirectInstruction, LoginError>)
    ensures
        final(store).spec_capacity() == old(store).spec_capacity(),
        match answer {
            Ok(redirect) => {
                &&& url_safe_token(redirect.csrf_token@, 22)
                &&& put_outcome(old(store)@, old(store).spec_capacity(), redirect.csrf_token@, now)
                    is Ok
                &&& exists|pkce_verifier: Seq<char>|
                    {
                        &&& url_safe_token(pkce_verifier, 43)
                        &&& redirect.location@ == location_of(
                            config@,
                            redirect.csrf_token@,
                            pkce_verifier,
                        )
                        &&& #[trigger] put_result(
                            old(store)@,
                            old(store).spec_capacity(),
                            redirect.csrf_token@,
                            pkce_verifier,
                            now,
                            CORRELATION_TTL_SECS,
                        ) == final(store)@
                    }
            },
            Err(error) => {
                &&& error == LoginError::StoreUnavailable
                &&& final(store)@ == live_part(old(store)@, now)
                &&& exists|state: Seq<char>|
                    url_safe_token(state, 22) && #[trigger] put_outcome(
                        old(store)@,
                        old(store).spec_capacity(),
                        state,
                        now,
                    ) is Err
            },
        },
{
    let (request, redirect) = authorization_request(config);
    let ghost state = request.state@;
    let ghost pkce_verifier = request.pkce_verifier@;
    let done = store.put(request.state, request.pkce_verifier, now, CORRELATION_TTL_SECS);
    match done {
        Ok(()) => {
            assert(put_result(
                old(store)@,
                old(store).spec_capacity(),
                state,
                pkce_verifier,
                now,
                CORRELATION_TTL_SECS,
            ) == store@);
            confirm_redirect(redirect, true)
        },
        Err(_) => {
            assert(put_outcome(old(store)@, old(store).spec_capacity(), state, now) is Err);
            confirm_redirect(redirect, false)
        },
    }
}

/// What a callback's state is worth: the verifier of the request that issued
/// it, or the one failure that stands for unknown, consumed and expired alike.
pub open spec fn verified(entries: Map<Seq<char>, EntryView>, state: Seq<char>, now: i64) -> Result<
    Seq<char>,
    LoginError,
> {
    match lookup(entries, state, now) {
        Some(pkce_verifier) => Ok(pkce_verifier),
        None => Err(LoginError::InvalidRequest),
    }
}

/// The view of a verified callback.
pub open spec fn verifier_view(r: Result<String, LoginError>) -> Result<Seq<char>, LoginError> {
    match r {
        Ok(pkce_verifier) => Ok(pkce_verifier@),
        Err(error) => Err(error),
    }
}

/// Matches a callback against the store and consumes its entry.
pub fn verify_callback(store: &mut CorrelationStore, state: &str, now: i64) -> (checked: Result<
    String,
    LoginError,
>)
    ensures
        verifier_view(checked) == verified(old(store)@, state@, now),
        final(store)@ == old(store)@.remove(state@),
        final(store).spec_capacity() == old(store).spec_capacity(),
{
    match store.take_once(state, now) {
        Some(pkce_verifier) => Ok(pkce_verifier),
        None => Err(LoginError::InvalidRequest),
    }
}

/// The profile a callback leads to: the state must stand in the store, the
/// code exchange must yield a bearer credential, and the profile request must
/// be answered with a readable profile. The first step that fails decides.
pub open spec fn profile_of_login(
    entries: Map<Seq<char>, EntryView>,
    state: Seq<char>,
    now: i64,
    exchange: TokenExchange,
    reply: ProfileReply,
) -> Result<CasdoorUser, LoginError> {
    match verified(entries, state, now) {
        Err(error) => Err(error),
        Ok(_) => match token_outcome(exchange) {
            Err(error) => Err(error),
            Ok(_) => profile_outcome(reply),
        },
    }
}

/// Completes a login up to the remote profile. `exchange` and `reply` are the
/// provider's answers to the code exchange and to the profile request.
pub fn complete_login(
    store: &mut CorrelationStore,
    query: &CallbackQuery,
    now: i64,
    exchange: TokenExchange,
    reply: ProfileReply,
) -> (profile: Result<CasdoorUser, LoginError>)
    ensures
        profile == profile_of_login(old(store)@, query.state@, now, exchange, reply),
        final(store)@ == old(store)@.remove(query.state@),
        final(store).spec_capacity() == old(store).spec_capacity(),
{
    match verify_callback(store, query.state.as_str(), now) {
        Err(error) => Err(error),
        Ok(_) => match check_token(exchange) {
            Err(error) => Err(error),
            Ok(_) => check_profile(reply),
        },
    }
}

/// The account a profile resolves to: the one linked to its subject where
/// there is one, a new one otherwise.
pub open spec fn resolved_account(
    accounts: Map<Seq<char>, AccountView>,
    profile: ProfileView,
    uid: u128,
    now: i64,
) -> AccountView {
    if accounts.dom().contains(profile.sub) {
        accounts[profile.sub]
    } else {
        account_of(profile, uid, now)
    }
}

/// The directory after a profile was resolved: unchanged on a sign-in, with
/// the new account on a sign-up.
pub open spec fn resolved_directory(
    accounts: Map<Seq<char>, AccountView>,
    profile: ProfileView,
    uid: u128,
    now: i64,
) -> Map<Seq<char>, AccountView> {
    if accounts.dom().contains(profile.sub) {
        accounts
    } else {
        accounts.insert(profile.sub, account_of(profile, uid, now))
    }
}

/// Signs in or signs up: answers with the account linked to the profile's
/// subject, creating it under `uid` at `now` if there is none yet.
pub fn resolve_account(directory: &mut AccountDirectory, profile: CasdoorUser, uid: u128, now: i64)
    -> (account: LocalAccount)
    ensures
        account@ == resolved_account(old(directory)@, profile@, uid, now),
        final(directory)@ == resolved_directory(old(directory)@, profile@, uid, now),
{
    match directory.find_by_casdoor_id(profile.sub.as_str()) {
        Some(account) => account,
        None => {
            let account = LocalAccount::from_profile(profile, uid, now);
            let copy = account.duplicate();
            let done = directory.create(account);
            assert(done is Ok);
            copy
        },
    }
}

/// Handles a callback from start to end. `exchange`, `reply` and `session`
/// are what the provider and the session issuer answer; `uid` is the id a new
/// account gets.
///
/// The state's entry is consumed in every case. The directory changes only
/// where the profile was obtained and its subject had no account.
pub fn callback(
    store: &mut CorrelationStore,
    directory: &mut AccountDirectory,
    query: &CallbackQuery,
    now: i64,
    exchange: TokenExchange,
    reply: ProfileReply,
    uid: u128,
    session: Option<String>,
) -> (answer: Result<LoginResponse, LoginError>)
    ensures
        final(store)@ == old(store)@.remove(query.state@),
        final(store).spec_capacity() == old(store).spec_capacity(),
        match profile_of_login(old(store)@, query.state@, now, exchange, reply) {
            Err(error) => answer == Err::<LoginResponse, LoginError>(error) && final(directory)@
                == old(directory)@,
            Ok(profile) => {
                &&& final(directory)@ == resolved_directory(old(directory)@, profile@, uid, now)
                &&& match session {
                    Some(token) => match answer {
                        Ok(response) => response.token == token && response.user@
                            == resolved_account(old(directory)@, profile@, uid, now),
                        Err(_) => false,
                    },
                    None => answer == Err::<LoginResponse, LoginError>(
                        LoginError::SigningUnavailable,
                    ),
                }
            },
        },
{
    match complete_login(store, query, now, exchange, reply) {
        Err(error) => Err(error),
        Ok(profile) => {
            let user = resolve_account(directory, profile, uid, now);
            match session {
                Some(token) => Ok(LoginResponse { user, token }),
                None => Err(LoginError::SigningUnavailable),
            }
        },
    }
}

/// The action that ends a flow which is handed, one after the other as it
/// asks for them, the store's answer, the provider's two answers, the
/// storage's answers to the search and to the creation, and the issuer's answer.
pub open spec fn machine_end(
    query: CallbackQuery,
    taken: Taken,
    exchange: TokenExchange,
    reply: ProfileReply,
    found: Lookup,
    created: Creation,
    session: Option<String>,
) -> FlowAction {
    let verifying = spec_step(spec_begin(query).0, FlowEvent::Verifier(taken));
    if !(verifying.1 is ExchangeCode) {
        verifying.1
    } else {
        let exchanging = spec_step(verifying.0, FlowEvent::Token(exchange));
        if !(exchanging.1 is FetchProfile) {
            exchanging.1
        } else {
            let fetching = spec_step(exchanging.0, FlowEvent::Profile(reply));
            if !(fetching.1 is FindAccount) {
                fetching.1
            } else {
                let searching = spec_step(fetching.0, FlowEvent::Lookup(found));
                if searching.1 is IssueSession {
                    spec_step(searching.0, FlowEvent::Session(session)).1
                } else if searching.1 is CreateAccount {
                    let creating = spec_step(searching.0, FlowEvent::Creation(created));
                    if creating.1 is IssueSession {
                        spec_step(creating.0, FlowEvent::Session(session)).1
                    } else {
                        creating.1
                    }
                } else {
                    searching.1
                }
            }
        }
    }
}

/// The state machine, served by a store that holds `entries` and a storage
/// that holds `accounts`, ends as `callback` on the in-memory store and
/// directory does: with the same failure, or with the same account and the
/// issued credential.
pub proof fn law_machine_agrees_with_callback(
    entries: Map<Seq<char>, EntryView>,
    accounts: Map<Seq<char>, AccountView>,
    query: CallbackQuery,
    now: i64,
    exchange: TokenExchange,
    reply: ProfileReply,
    uid: u128,
    session: Option<String>,
    taken: Taken,
    found: Lookup,
    created: Creation,
)
    requires
        match lookup(entries, query.state@, now) {
            Some(pkce_verifier) => match taken {
                Taken::Found(text) => text@ == pkce_verifier,
                _ => false,
            },
            None => taken == Taken::Missing,
        },
        match profile_of_login(entries, query.state@, now, exchange, reply) {
            Ok(profile) => if accounts.dom().contains(profile.sub@) {
                match found {
                    Lookup::Found(account) => account@ == accounts[profile.sub@],
                    _ => false,
                }
            } else {
                &&& found == Lookup::NotFound
                &&& match created {
                    Creation::Created(account) => account@ == account_of(profile@, uid, now),
                    _ => false,
                }
            },
            Err(_) => true,
        },
    ensures
        match profile_of_login(entries, query.state@, now, exchange, reply) {
            Err(error) => machine_end(query, taken, exchange, reply, found, created, session)
                == FlowAction::Fail(error),
            Ok(profile) => match session {
                Some(token) => match machine_end(
                    query,
                    taken,
                    exchange,
                    reply,
                    found,
                    created,
                    session,
                ) {
                    FlowAction::Finish(response) => response.token == token && response.user@
                        == resolved_account(accounts, profile@, uid, now),
                    _ => false,
                },
                None => machine_end(query, taken, exchange, reply, found, created, session)
                    == FlowAction::Fail(LoginError::SigningUnavailable),
            },
        },
{
}

/// A callback whose state stands in no entry of the store fails with a client
/// error, whatever the provider would have answered.
pub proof fn law_unknown_state_is_refused(
    entries: Map<Seq<char>, EntryView>,
    state: Seq<char>,
    now: i64,
    exchange: TokenExchange,
    reply: ProfileReply,
)
    requires
        !entries.dom().contains(state),
    ensures
        profile_of_login(entries, state, now, exchange, reply) == Err::<CasdoorUser, LoginError>(
            LoginError::InvalidRequest,
        ),
        LoginError::InvalidRequest.spec_kind() == ErrorKind::Client,
{
}

/// The same callback a second time fails with a client error: the first one
/// consumed the entry, whether or not it succeeded.
pub proof fn law_replayed_callback_is_refused(
    entries: Map<Seq<char>, EntryView>,
    state: Seq<char>,
    first: i64,
    second: i64,
    exchange: TokenExchange,
    reply: ProfileReply,
)
    ensures
        profile_of_login(entries.remove(state), state, second, exchange, reply) == Err::<
            CasdoorUser,
            LoginError,
        >(LoginError::InvalidRequest),
{
}

/// A second login of the same subject signs in: it resolves to the account
/// of the first and leaves the directory as the first left it.
pub proof fn law_second_login_signs_in(
    accounts: Map<Seq<char>, AccountView>,
    first: ProfileView,
    second: ProfileView,
    uid1: u128,
    now1: i64,
    uid2: u128,
    now2: i64,
)
    requires
        first.sub == second.sub,
    ensures
        ({
            let after = resolved_directory(accounts, first, uid1, now1);
            &&& resolved_account(after, second, uid2, now2) == resolved_account(
                accounts,
                first,
                uid1,
                now1,
            )
            &&& resolved_directory(after, second, uid2, now2) == after
        }),
{
}

/// Two first logins of one subject that run side by side end with one
/// account. Both searched the storage before either wrote, so both go on to
/// create. The storage takes the first account and answers the second
/// creation with a conflict; the second flow then reads again, finds the
/// first flow's account and asks for a session for it.
pub proof fn law_concurrent_sign_up(
    accounts: Map<Seq<char>, AccountView>,
    profile_a: CasdoorUser,
    profile_b: CasdoorUser,
    account_a: LocalAccount,
    account_b: LocalAccount,
    reread: LocalAccount,
)
    requires
        profile_a.sub@ == profile_b.sub@,
        !accounts.dom().contains(profile_a.sub@),
        account_a@.casdoor_id == Some(profile_a.sub@),
        account_b@.casdoor_id == Some(profile_b.sub@),
        reread@ == create_result(accounts, account_a@)[profile_b.sub@],
    ensures
        ({
            let searching_a = FlowState::AwaitLookup { profile: profile_a };
            let searching_b = FlowState::AwaitLookup { profile: profile_b };
            let creating_a = spec_step(searching_a, FlowEvent::Lookup(Lookup::NotFound));
            let creating_b = spec_step(searching_b, FlowEvent::Lookup(Lookup::NotFound));
            let stored = create_result(accounts, account_a@);
            let rereading_b = spec_step(creating_b.0, FlowEvent::Creation(Creation::Conflict));
            &&& creating_a.1 == FlowAction::CreateAccount { profile: profile_a }
            &&& creating_b.1 == FlowAction::CreateAccount { profile: profile_b }
            &&& create_outcome(accounts, account_a@) is Ok
            &&& create_outcome(stored, account_b@) == Err::<(), DirectoryError>(
                DirectoryError::Conflict,
            )
            &&& create_result(stored, account_b@) == stored
            &&& stored == accounts.insert(profile_a.sub@, account_a@)
            &&& spec_step(creating_a.0, FlowEvent::Creation(Creation::Created(account_a)))
                == signed_in(account_a)
            &&& rereading_b.1 == FlowAction::FindAccount { subject: profile_b.sub }
            &&& spec_step(rereading_b.0, FlowEvent::Lookup(Lookup::Found(reread))) == signed_in(
                reread,
            )
            &&& reread@ == account_a@
        }),
{
}

} // verus!
