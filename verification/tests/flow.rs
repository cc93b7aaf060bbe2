use oauth_login::directory::{AccountDirectory, DirectoryError};
use oauth_login::error::{ErrorKind, LoginError};
use oauth_login::flow::{
    begin, step, CallbackQuery, Creation, FlowAction, FlowEvent, FlowState, LoginResponse, Lookup,
    Taken, SESSION_TTL_SECS,
};
use oauth_login::login::callback;
use oauth_login::profile::{CasdoorUser, LocalAccount};
use oauth_login::store::CorrelationStore;
use oauth_login::token::{ProfileReply, TokenExchange, TokenGrant, TokenKind};

fn profile(sub: &str) -> CasdoorUser {
    CasdoorUser {
        address: String::new(),
        aud: "client-1".to_string(),
        email: None,
        email_verified: None,
        groups: None,
        iss: "https://door.example".to_string(),
        name: "ada".to_string(),
        phone: String::new(),
        picture: "https://door.example/ada.png".to_string(),
        preferred_username: None,
        sub: sub.to_string(),
    }
}

fn granted(kind: TokenKind) -> TokenExchange {
    TokenExchange::Granted(TokenGrant {
        access_token: "tok".to_string(),
        token_kind: kind,
        scopes: None,
    })
}

fn ok_reply(sub: &str) -> ProfileReply {
    ProfileReply::Answered { status: 200, body: Some(profile(sub)) }
}

fn query() -> CallbackQuery {
    CallbackQuery { state: "s1".to_string(), code: "code-1".to_string() }
}

fn fail(error: LoginError) -> (FlowState, FlowAction) {
    (FlowState::Done, FlowAction::Fail(error))
}

fn every_event() -> Vec<FlowEvent> {
    vec![
        FlowEvent::Verifier(Taken::Found("v".to_string())),
        FlowEvent::Verifier(Taken::Missing),
        FlowEvent::Verifier(Taken::Unavailable),
        FlowEvent::Token(granted(TokenKind::Bearer)),
        FlowEvent::Token(TokenExchange::Request),
        FlowEvent::Profile(ok_reply("abc123")),
        FlowEvent::Profile(ProfileReply::Unreachable),
        FlowEvent::Lookup(Lookup::Found(LocalAccount::from_profile(profile("abc123"), 1, 1))),
        FlowEvent::Lookup(Lookup::NotFound),
        FlowEvent::Lookup(Lookup::Unavailable),
        FlowEvent::Creation(Creation::Created(LocalAccount::from_profile(profile("abc123"), 1, 1))),
        FlowEvent::Creation(Creation::Conflict),
        FlowEvent::Creation(Creation::Unavailable),
        FlowEvent::Session(Some("t".to_string())),
        FlowEvent::Session(None),
    ]
}

// Runs a flow to its end on the in-memory store and directory.
fn drive(
    store: &mut CorrelationStore,
    directory: &mut AccountDirectory,
    query: CallbackQuery,
    now: i64,
    exchange: TokenExchange,
    reply: ProfileReply,
    uid: u128,
    session: Option<String>,
) -> Result<LoginResponse, LoginError> {
    let (mut state, mut action) = begin(query);
    let mut exchange = Some(exchange);
    let mut reply = Some(reply);
    loop {
        let event = match action {
            FlowAction::TakeVerifier { state } => FlowEvent::Verifier(match store.take_once(&state, now) {
                Some(v) => Taken::Found(v),
                None => Taken::Missing,
            }),
            FlowAction::ExchangeCode { .. } => FlowEvent::Token(exchange.take().unwrap()),
            FlowAction::FetchProfile { .. } => FlowEvent::Profile(reply.take().unwrap()),
            FlowAction::FindAccount { subject } => {
                FlowEvent::Lookup(match directory.find_by_casdoor_id(&subject) {
                    Some(account) => Lookup::Found(account),
                    None => Lookup::NotFound,
                })
            }
            FlowAction::CreateAccount { profile } => {
                let account = LocalAccount::from_profile(profile, uid, now);
                FlowEvent::Creation(match directory.create(account.clone()) {
                    Ok(()) => Creation::Created(account),
                    Err(DirectoryError::Conflict) => Creation::Conflict,
                    Err(DirectoryError::Unlinked) => Creation::Unavailable,
                })
            }
            FlowAction::IssueSession { .. } => FlowEvent::Session(session.clone()),
            FlowAction::Finish(response) => return Ok(response),
            FlowAction::Fail(error) => return Err(error),
        };
        let next = step(state, event);
        state = next.0;
        action = next.1;
    }
}

#[test]
fn begin_asks_for_the_verifier() {
    assert_eq!(
        begin(query()),
        (
            FlowState::AwaitVerifier { code: "code-1".to_string() },
            FlowAction::TakeVerifier { state: "s1".to_string() }
        )
    );
    assert_eq!(SESSION_TTL_SECS, 3600);
}

#[test]
fn sign_up_path_step_by_step() {
    let (state, _) = begin(query());
    let (state, action) = step(state, FlowEvent::Verifier(Taken::Found("v1".to_string())));
    assert_eq!(state, FlowState::AwaitToken);
    assert_eq!(
        action,
        FlowAction::ExchangeCode { code: "code-1".to_string(), pkce_verifier: "v1".to_string() }
    );
    let (state, action) = step(state, FlowEvent::Token(granted(TokenKind::Bearer)));
    assert_eq!(state, FlowState::AwaitProfile);
    assert_eq!(action, FlowAction::FetchProfile { access_token: "tok".to_string() });
    let (state, action) = step(state, FlowEvent::Profile(ok_reply("abc123")));
    assert_eq!(state, FlowState::AwaitLookup { profile: profile("abc123") });
    assert_eq!(action, FlowAction::FindAccount { subject: "abc123".to_string() });
    let (state, action) = step(state, FlowEvent::Lookup(Lookup::NotFound));
    assert_eq!(state, FlowState::AwaitCreation { subject: "abc123".to_string() });
    assert_eq!(action, FlowAction::CreateAccount { profile: profile("abc123") });
    let account = LocalAccount::from_profile(profile("abc123"), 9, 90);
    let (state, action) = step(state, FlowEvent::Creation(Creation::Created(account.clone())));
    assert_eq!(state, FlowState::AwaitSession { account: account.clone() });
    assert_eq!(action, FlowAction::IssueSession { uid: 9, ttl: 3600 });
    let (state, action) = step(state, FlowEvent::Session(Some("signed".to_string())));
    assert_eq!(state, FlowState::Done);
    assert_eq!(
        action,
        FlowAction::Finish(LoginResponse { user: account, token: "signed".to_string() })
    );
}

#[test]
fn sign_in_path_skips_creation() {
    let account = LocalAccount::from_profile(profile("abc123"), 9, 90);
    let searching = FlowState::AwaitLookup { profile: profile("abc123") };
    let (state, action) = step(searching, FlowEvent::Lookup(Lookup::Found(account.clone())));
    assert_eq!(state, FlowState::AwaitSession { account });
    assert_eq!(action, FlowAction::IssueSession { uid: 9, ttl: 3600 });
}

#[test]
fn each_step_classifies_its_failure() {
    let awaiting = || FlowState::AwaitVerifier { code: "c".to_string() };
    assert_eq!(step(awaiting(), FlowEvent::Verifier(Taken::Missing)), fail(LoginError::InvalidRequest));
    assert_eq!(
        step(awaiting(), FlowEvent::Verifier(Taken::Unavailable)),
        fail(LoginError::StoreUnavailable)
    );
    assert_eq!(
        step(FlowState::AwaitToken, FlowEvent::Token(TokenExchange::ServerResponse("no".to_string()))),
        fail(LoginError::ProviderRejected("no".to_string()))
    );
    assert_eq!(
        step(FlowState::AwaitToken, FlowEvent::Token(TokenExchange::Request)),
        fail(LoginError::ProviderUnreachable)
    );
    assert_eq!(
        step(FlowState::AwaitProfile, FlowEvent::Profile(ProfileReply::Answered { status: 401, body: None })),
        fail(LoginError::Unauthorized)
    );
    assert_eq!(
        step(FlowState::AwaitProfile, FlowEvent::Profile(ProfileReply::Answered { status: 200, body: None })),
        fail(LoginError::MalformedResponse)
    );
    let searching = || FlowState::AwaitLookup { profile: profile("abc123") };
    // a storage that cannot be read never leads to a sign-up
    assert_eq!(
        step(searching(), FlowEvent::Lookup(Lookup::Unavailable)),
        fail(LoginError::StorageUnavailable)
    );
    let creating = || FlowState::AwaitCreation { subject: "abc123".to_string() };
    assert_eq!(
        step(creating(), FlowEvent::Creation(Creation::Unavailable)),
        fail(LoginError::StorageUnavailable)
    );
    assert_eq!(
        step(FlowState::AwaitReread, FlowEvent::Lookup(Lookup::NotFound)),
        fail(LoginError::StorageUnavailable)
    );
    assert_eq!(
        step(FlowState::AwaitReread, FlowEvent::Lookup(Lookup::Unavailable)),
        fail(LoginError::StorageUnavailable)
    );
    let account = LocalAccount::from_profile(profile("abc123"), 9, 90);
    assert_eq!(
        step(FlowState::AwaitSession { account }, FlowEvent::Session(None)),
        fail(LoginError::SigningUnavailable)
    );
}

#[test]
fn non_bearer_token_never_reaches_the_profile_request() {
    for kind in [TokenKind::Mac, TokenKind::Extension("dpop".to_string())] {
        let (state, action) = step(FlowState::AwaitToken, FlowEvent::Token(granted(kind)));
        assert_eq!(action, FlowAction::Fail(LoginError::UnsupportedTokenType));
        assert_eq!(LoginError::UnsupportedTokenType.kind(), ErrorKind::Client);
        assert_eq!(state, FlowState::Done);
        let mut state = state;
        for event in every_event() {
            let next = step(state, event);
            assert_eq!(next, fail(LoginError::MalformedResponse));
            state = next.0;
        }
    }
}

#[test]
fn an_event_out_of_turn_ends_the_flow() {
    let account = || LocalAccount::from_profile(profile("abc123"), 9, 90);
    let states = || {
        vec![
            FlowState::AwaitVerifier { code: "c".to_string() },
            FlowState::AwaitToken,
            FlowState::AwaitProfile,
            FlowState::AwaitLookup { profile: profile("abc123") },
            FlowState::AwaitCreation { subject: "abc123".to_string() },
            FlowState::AwaitReread,
            FlowState::AwaitSession { account: account() },
            FlowState::Done,
        ]
    };
    let answers = |state: &FlowState, event: &FlowEvent| {
        matches!(
            (state, event),
            (FlowState::AwaitVerifier { .. }, FlowEvent::Verifier(_))
                | (FlowState::AwaitToken, FlowEvent::Token(_))
                | (FlowState::AwaitProfile, FlowEvent::Profile(_))
                | (FlowState::AwaitLookup { .. }, FlowEvent::Lookup(_))
                | (FlowState::AwaitCreation { .. }, FlowEvent::Creation(_))
                | (FlowState::AwaitReread, FlowEvent::Lookup(_))
                | (FlowState::AwaitSession { .. }, FlowEvent::Session(_))
        )
    };
    let mut out_of_turn = 0;
    for state in states() {
        for event in every_event() {
            if !answers(&state, &event) {
                assert_eq!(step(state.clone(), event), fail(LoginError::MalformedResponse));
                out_of_turn += 1;
            }
        }
    }
    assert_eq!(out_of_turn, 8 * 15 - (3 + 2 + 2 + 3 + 3 + 3 + 2));
}

#[test]
fn concurrent_first_logins_end_with_one_account() {
    let mut directory = AccountDirectory::new();
    let searching_a = FlowState::AwaitLookup { profile: profile("abc123") };
    let searching_b = FlowState::AwaitLookup { profile: profile("abc123") };
    // both search before either writes
    assert_eq!(directory.find_by_casdoor_id("abc123"), None);
    let (state_a, action_a) = step(searching_a, FlowEvent::Lookup(Lookup::NotFound));
    let (state_b, action_b) = step(searching_b, FlowEvent::Lookup(Lookup::NotFound));
    let profile_a = match action_a {
        FlowAction::CreateAccount { profile } => profile,
        other => panic!("unexpected action {:?}", other),
    };
    let profile_b = match action_b {
        FlowAction::CreateAccount { profile } => profile,
        other => panic!("unexpected action {:?}", other),
    };
    let account_a = LocalAccount::from_profile(profile_a, 1, 100);
    let account_b = LocalAccount::from_profile(profile_b, 2, 100);
    assert_eq!(directory.create(account_a.clone()), Ok(()));
    assert_eq!(directory.create(account_b), Err(DirectoryError::Conflict));
    let (_, session_a) = step(state_a, FlowEvent::Creation(Creation::Created(account_a.clone())));
    let (state_b, reread) = step(state_b, FlowEvent::Creation(Creation::Conflict));
    assert_eq!(state_b, FlowState::AwaitReread);
    assert_eq!(reread, FlowAction::FindAccount { subject: "abc123".to_string() });
    let found = directory.find_by_casdoor_id("abc123").unwrap();
    let (_, session_b) = step(state_b, FlowEvent::Lookup(Lookup::Found(found)));
    assert_eq!(session_a, FlowAction::IssueSession { uid: 1, ttl: 3600 });
    assert_eq!(session_b, session_a);
    assert_eq!(directory.find_by_casdoor_id("abc123"), Some(account_a));
}

#[test]
fn the_machine_and_the_in_memory_callback_agree() {
    let cases: Vec<(&str, i64, TokenExchange, ProfileReply, Option<String>)> = vec![
        ("s1", 20, granted(TokenKind::Bearer), ok_reply("abc123"), Some("t".to_string())),
        ("s1", 20, granted(TokenKind::Bearer), ok_reply("known"), Some("t".to_string())),
        ("s1", 20, granted(TokenKind::Bearer), ok_reply("abc123"), None),
        ("s1", 20, granted(TokenKind::Mac), ok_reply("abc123"), Some("t".to_string())),
        ("s1", 20, TokenExchange::Parse, ok_reply("abc123"), Some("t".to_string())),
        ("s1", 20, granted(TokenKind::Bearer), ProfileReply::Unreachable, Some("t".to_string())),
        ("s1", 200, granted(TokenKind::Bearer), ok_reply("abc123"), Some("t".to_string())),
        ("zz", 20, granted(TokenKind::Bearer), ok_reply("abc123"), Some("t".to_string())),
    ];
    for (state, now, exchange, reply, session) in cases {
        let fresh = || {
            let mut store = CorrelationStore::new(4);
            store.put("s1".to_string(), "v1".to_string(), 10, 100).unwrap();
            let mut directory = AccountDirectory::new();
            directory.create(LocalAccount::from_profile(profile("known"), 5, 5)).unwrap();
            (store, directory)
        };
        let q = CallbackQuery { state: state.to_string(), code: "c".to_string() };
        let (mut store_1, mut directory_1) = fresh();
        let (mut store_2, mut directory_2) = fresh();
        let direct = callback(
            &mut store_1,
            &mut directory_1,
            &q,
            now,
            exchange.clone(),
            reply.clone(),
            42,
            session.clone(),
        );
        let driven = drive(&mut store_2, &mut directory_2, q, now, exchange, reply, 42, session);
        assert_eq!(direct, driven);
        assert_eq!(store_1.len(), store_2.len());
        assert_eq!(
            directory_1.find_by_casdoor_id("abc123"),
            directory_2.find_by_casdoor_id("abc123")
        );
    }
}
