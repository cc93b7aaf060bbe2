//! The calls this library makes into other crates. Each function here is
//! believed, not proved: its body is the outside call and its contract says
//! what that call is relied on to do.

use vstd::prelude::*;
use vstd::string::StringSliceAdditionalSpecFns;

verus! {

/// `==` of `str`: true exactly when the two hold the same characters.
#[verifier::external_body]
pub(crate) fn text_eq(a: &str, b: &str) -> (same: bool)
    ensures
        same == (a@ == b@),
{
    a == b
}

/// `uuid::Uuid::new_v4`, read as a 128-bit number. The value is random, so
/// nothing is claimed of it.
#[verifier::external_body]
pub(crate) fn fresh_uid() -> (uid: u128) {
    uuid::Uuid::new_v4().as_u128()
}

/// `chrono::Utc::now`, as whole seconds since the Unix epoch. The value is
/// the machine's clock, so nothing is claimed of it.
#[verifier::external_body]
pub(crate) fn current_time() -> (now: i64) {
    chrono::Utc::now().timestamp()
}

/// The error of `url::Url::parse`, carried through unread.
#[verifier::external_type_specification]
#[verifier::external_body]
pub struct ExUrlParseError(url::ParseError);

/// What `url::Url::parse` makes of a text: the URL written out again, or
/// nothing where the text is no absolute URL.
pub uninterp spec fn parsed_url(text: Seq<char>) -> Option<Seq<char>>;

/// `url::Url::parse`, with the parsed URL written out as text.
#[verifier::external_body]
pub(crate) fn parse_url(text: &str) -> (parsed: Result<String, url::ParseError>)
    ensures
        match parsed {
            Ok(url) => parsed_url(text@) == Some(url@),
            Err(_) => parsed_url(text@) is None,
        },
{
    url::Url::parse(text).map(String::from)
}

/// The characters of the URL-safe base64 alphabet.
pub open spec fn url_safe_char(c: char) -> bool {
    ||| 'A' <= c <= 'Z'
    ||| 'a' <= c <= 'z'
    ||| '0' <= c <= '9'
    ||| c == '-'
    ||| c == '_'
}

/// A text of exactly `len` URL-safe base64 characters.
pub open spec fn url_safe_token(text: Seq<char>, len: nat) -> bool {
    &&& text.len() == len
    &&& forall|i: int| 0 <= i < text.len() ==> url_safe_char(#[trigger] text[i])
}

/// `oauth2::PkceCodeChallenge::new_random_sha256`, of which only the verifier
/// is kept: 32 random bytes in unpadded URL-safe base64, hence 43 characters.
#[verifier::external_body]
pub(crate) fn random_pkce_verifier() -> (verifier: String)
    ensures
        url_safe_token(verifier@, 43),
{
    let (_, verifier) = oauth2::PkceCodeChallenge::new_random_sha256();
    verifier.secret().clone()
}

/// `oauth2::CsrfToken::new_random`: 16 random bytes in unpadded URL-safe
/// base64, hence 22 characters.
#[verifier::external_body]
pub(crate) fn random_state() -> (state: String)
    ensures
        url_safe_token(state@, 22),
{
    oauth2::CsrfToken::new_random().secret().clone()
}

/// The authorization URL that `oauth2` builds for a code request with a
/// SHA-256 PKCE challenge: the endpoint `auth_url` with the query parameters
/// `response_type=code`, `client_id`, `state`, `code_challenge` (derived from
/// `pkce_verifier`), `code_challenge_method`, `redirect_uri` and, where any
/// scope is asked for, `scope`.
pub uninterp spec fn authorization_url(
    auth_url: Seq<char>,
    client_id: Seq<char>,
    redirect_url: Seq<char>,
    scopes: Seq<Seq<char>>,
    state: Seq<char>,
    pkce_verifier: Seq<char>,
) -> Seq<char>;

/// `oauth2::Client::authorize_url` with `set_pkce_challenge`, `add_scopes` and
/// `url`, on a client made of the three texts. It fails exactly when
/// `auth_url` or `redirect_url` is no URL: `AuthUrl::new` and
/// `RedirectUrl::new` hand their text to `url::Url::parse`. The verifier must
/// have between 43 and 128 bytes, or
/// `PkceCodeChallenge::from_code_verifier_sha256` panics.
#[verifier::external_body]
pub(crate) fn authorize_url(
    auth_url: &str,
    client_id: &str,
    redirect_url: &str,
    scopes: &Vec<String>,
    state: &str,
    pkce_verifier: &str,
) -> (built: Result<String, url::ParseError>)
    requires
        43 <= pkce_verifier.spec_bytes().len() <= 128,
    ensures
        built is Ok == (parsed_url(auth_url@) is Some && parsed_url(redirect_url@) is Some),
        match built {
            Ok(text) => text@ == authorization_url(
                auth_url@,
                client_id@,
                redirect_url@,
                scopes.deep_view(),
                state@,
                pkce_verifier@,
            ),
            Err(_) => true,
        },
{
    let auth = oauth2::AuthUrl::new(auth_url.to_string())?;
    let redirect = oauth2::RedirectUrl::new(redirect_url.to_string())?;
    let id = oauth2::ClientId::new(client_id.to_string());
    let client = oauth2::basic::BasicClient::new(id, None, auth, None).set_redirect_uri(redirect);
    let verifier = oauth2::PkceCodeVerifier::new(pkce_verifier.to_string());
    let challenge = oauth2::PkceCodeChallenge::from_code_verifier_sha256(&verifier);
    let state = oauth2::CsrfToken::new(state.to_string());
    let request = client.authorize_url(|| state).set_pkce_challenge(challenge);
    let scopes = scopes.iter().map(|s| oauth2::Scope::new(s.clone()));
    Ok(request.add_scopes(scopes).url().0.into())
}

} // verus!
