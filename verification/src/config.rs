//! The provider client's configuration and the authorization URL it leads to.
//!
//! A configuration is built once at startup, is read-only afterwards, and does
//! not exist at all where the client's credentials are not configured.

use vstd::pervasive::unreached;
use vstd::prelude::*;
use vstd::string::{StringExecFns, StringSliceAdditionalSpecFns};
use crate::text::text_of;
use crate::outside::{authorization_url, authorize_url, parse_url, parsed_url, random_state, url_safe_char, url_safe_token};

verus! {

/// Path of the callback endpoint, below the host's own URL.
pub const CASDOOR_CALLBACK_PATH: &'static str = "/auth/github/callback";

/// Path of the provider's authorization endpoint.
pub const CASDOOR_AUTH_URL: &'static str = "/login/oauth/authorize";

/// Path of the provider's token endpoint.
pub const CASDOOR_TOKEN_URL: &'static str = "/login/oauth/access_token";

/// Path of the provider's user-info endpoint.
pub const CASDOOR_USER_API_URL: &'static str = "/api/userinfo";

/// Whether a text is an absolute URL.
pub open spec fn is_url(text: Seq<char>) -> bool {
    parsed_url(text) is Some
}

/// Why no configuration could be built from credentials that are present.
#[derive(Debug, Clone, Copy, PartialEq, Eq, Structural)]
pub enum ConfigError {
    /// One of the provider's endpoints is no URL.
    InvalidProviderUrl,
    /// The callback address is no URL.
    InvalidHostUrl,
}

/// What a `ProviderConfig` holds.
pub struct ConfigView {
    pub client_id: Seq<char>,
    pub client_secret: Seq<char>,
    pub auth_url: Seq<char>,
    pub token_url: Seq<char>,
    pub user_api_url: Seq<char>,
    pub redirect_url: Seq<char>,
}

/// The provider client's settings. Every address in it is a URL.
pub struct ProviderConfig {
    client_id: String,
    client_secret: String,
    auth_url: String,
    token_url: String,
    user_api_url: String,
    redirect_url: String,
}

impl View for ProviderConfig {
    type V = ConfigView;

    closed spec fn view(&self) -> ConfigView {
        ConfigView {
            client_id: self.client_id@,
            client_secret: self.client_secret@,
            auth_url: self.auth_url@,
            token_url: self.token_url@,
            user_api_url: self.user_api_url@,
            redirect_url: self.redirect_url@,
        }
    }
}

/// The settings that `github_config` derives from its arguments.
pub open spec fn config_of(
    client_id: Seq<char>,
    client_secret: Seq<char>,
    provider_url: Seq<char>,
    host_url: Seq<char>,
) -> ConfigView {
    ConfigView {
        client_id,
        client_secret,
        auth_url: provider_url + CASDOOR_AUTH_URL@,
        token_url: provider_url + CASDOOR_TOKEN_URL@,
        user_api_url: provider_url + CASDOOR_USER_API_URL@,
        redirect_url: host_url + CASDOOR_CALLBACK_PATH@,
    }
}

/// Which address, if any, stands in the way of a configuration: one of the
/// provider's three endpoints first, the callback address after them.
pub open spec fn address_fault(auth: bool, token: bool, user_api: bool, redirect: bool) -> Option<
    ConfigError,
> {
    if !auth || !token || !user_api {
        Some(ConfigError::InvalidProviderUrl)
    } else if !redirect {
        Some(ConfigError::InvalidHostUrl)
    } else {
        None
    }
}

/// What `github_config` answers: nothing without both credentials, an error
/// for an address that is no URL, the settings otherwise.
pub open spec fn config_outcome(
    client_id: Option<Seq<char>>,
    client_secret: Option<Seq<char>>,
    provider_url: Seq<char>,
    host_url: Seq<char>,
) -> Result<Option<ConfigView>, ConfigError> {
    if client_id is None || client_secret is None {
        Ok(None)
    } else {
        let view = config_of(client_id->0, client_secret->0, provider_url, host_url);
        match address_fault(
            is_url(view.auth_url),
            is_url(view.token_url),
            is_url(view.user_api_url),
            is_url(view.redirect_url),
        ) {
            Some(error) => Err(error),
            None => Ok(Some(view)),
        }
    }
}

/// The view of what `github_config` answered.
pub open spec fn outcome_view(r: Result<Option<ProviderConfig>, ConfigError>) -> Result<
    Option<ConfigView>,
    ConfigError,
> {
    match r {
        Ok(Some(config)) => Ok(Some(config@)),
        Ok(None) => Ok(None),
        Err(e) => Err(e),
    }
}

fn join(base: &str, path: &str) -> (joined: String)
    ensures
        joined@ == base@ + path@,
{
    let mut joined = base.to_owned();
    joined.append(path);
    joined
}

fn accepted(text: &str) -> (yes: bool)
    ensures
        yes == is_url(text@),
{
    match parse_url(text) {
        Ok(_) => true,
        Err(_) => false,
    }
}

/// Names the address that stands in the way of a configuration, given for
/// each of the four addresses whether it is a URL.
pub fn check_addresses(auth: bool, token: bool, user_api: bool, redirect: bool) -> (fault: Option<
    ConfigError,
>)
    ensures
        fault == address_fault(auth, token, user_api, redirect),
{
    if !auth || !token || !user_api {
        Some(ConfigError::InvalidProviderUrl)
    } else if !redirect {
        Some(ConfigError::InvalidHostUrl)
    } else {
        None
    }
}

/// The provider client's settings, from the configured credentials, the
/// provider's base address and this host's own address.
///
/// Without both credentials the integration is switched off: the answer is
/// `Ok(None)` whatever the addresses are.
pub fn github_config(
    client_id: Option<String>,
    client_secret: Option<String>,
    provider_url: &str,
    host_url: &str,
) -> (config: Result<Option<ProviderConfig>, ConfigError>)
    ensures
        outcome_view(config) == config_outcome(
            text_of(client_id),
            text_of(client_secret),
            provider_url@,
            host_url@,
        ),
{
    match (client_id, client_secret) {
        (Some(client_id), Some(client_secret)) => {
            let auth_url = join(provider_url, CASDOOR_AUTH_URL);
            let token_url = join(provider_url, CASDOOR_TOKEN_URL);
            let user_api_url = join(provider_url, CASDOOR_USER_API_URL);
            let redirect_url = join(host_url, CASDOOR_CALLBACK_PATH);
            let fault = check_addresses(
                accepted(auth_url.as_str()),
                accepted(token_url.as_str()),
                accepted(user_api_url.as_str()),
                accepted(redirect_url.as_str()),
            );
            match fault {
                Some(error) => Err(error),
                None => Ok(
                    Some(
                        ProviderConfig {
                            client_id,
                            client_secret,
                            auth_url,
                            token_url,
                            user_api_url,
                            redirect_url,
                        },
                    ),
                ),
            }
        },
        _ => Ok(None),
    }
}

/// A verifier of a length that RFC 7636 admits: 43 to 128 bytes.
pub open spec fn verifier_length_ok(pkce_verifier: &str) -> bool {
    43 <= pkce_verifier.spec_bytes().len() <= 128
}

/// A token of URL-safe characters holds one byte for each character.
pub proof fn lemma_token_bytes(text: &str, len: nat)
    requires
        url_safe_token(text@, len),
    ensures
        text.spec_bytes().len() == len,
{
    assert forall|i: int| 0 <= i < text@.len() implies (text@[i] as u32) < 128 by {
        assert(url_safe_char(text@[i]));
    }
    assert(vstd::string::is_ascii(text));
    vstd::string::is_ascii_spec_bytes(text);
}

impl ProviderConfig {
    #[verifier::type_invariant]
    spec fn well_formed(self) -> bool {
        &&& is_url(self.auth_url@)
        &&& is_url(self.token_url@)
        &&& is_url(self.user_api_url@)
        &&& is_url(self.redirect_url@)
    }

    pub fn client_id(&self) -> (text: &str)
        ensures
            text@ == self@.client_id,
    {
        self.client_id.as_str()
    }

    pub fn client_secret(&self) -> (text: &str)
        ensures
            text@ == self@.client_secret,
    {
        self.client_secret.as_str()
    }

    pub fn auth_url(&self) -> (text: &str)
        ensures
            text@ == self@.auth_url,
            is_url(text@),
    {
        proof {
            use_type_invariant(self);
        }
        self.auth_url.as_str()
    }

    pub fn token_url(&self) -> (text: &str)
        ensures
            text@ == self@.token_url,
            is_url(text@),
    {
        proof {
            use_type_invariant(self);
        }
        self.token_url.as_str()
    }

    pub fn user_api_url(&self) -> (text: &str)
        ensures
            text@ == self@.user_api_url,
            is_url(text@),
    {
        proof {
            use_type_invariant(self);
        }
        self.user_api_url.as_str()
    }

    pub fn redirect_url(&self) -> (text: &str)
        ensures
            text@ == self@.redirect_url,
            is_url(text@),
    {
        proof {
            use_type_invariant(self);
        }
        self.redirect_url.as_str()
    }

    /// The address to send the user to for the request identified by `state`.
    ///
    /// There is none for a verifier of a length that RFC 7636 does not admit.
    pub fn authorization_url_for(
        &self,
        pkce_verifier: &str,
        scopes: &Vec<String>,
        state: &str,
    ) -> (url: Option<String>)
        ensures
            url is Some == verifier_length_ok(pkce_verifier),
            match url {
                Some(text) => text@ == authorization_url(
                    self@.auth_url,
                    self@.client_id,
                    self@.redirect_url,
                    scopes.deep_view(),
                    state@,
                    pkce_verifier@,
                ),
                None => true,
            },
    {
        proof {
            use_type_invariant(self);
        }
        let len: usize = pkce_verifier.as_bytes().len();
        if len < 43 || len > 128 {
            return None;
        }
        match authorize_url(
            self.auth_url.as_str(),
            self.client_id.as_str(),
            self.redirect_url.as_str(),
            scopes,
            state,
            pkce_verifier,
        ) {
            Ok(text) => Some(text),
            // both addresses are URLs, or there would be no configuration
            Err(_) => unreached(),
        }
    }

    /// The address to send the user to, with the fresh random `state` that it
    /// carries: 22 URL-safe characters.
    pub fn build_authorization_url(&self, pkce_verifier: &str, scopes: &Vec<String>) -> (built:
        Option<(String, String)>)
        ensures
            built is Some == verifier_length_ok(pkce_verifier),
            match built {
                Some((url, state)) => {
                    &&& url_safe_token(state@, 22)
                    &&& url@ == authorization_url(
                        self@.auth_url,
                        self@.client_id,
                        self@.redirect_url,
                        scopes.deep_view(),
                        state@,
                        pkce_verifier@,
                    )
                },
                None => true,
            },
    {
        let state = random_state();
        match self.authorization_url_for(pkce_verifier, scopes, state.as_str()) {
            Some(url) => Some((url, state)),
            None => None,
        }
    }
}

} // verus!
