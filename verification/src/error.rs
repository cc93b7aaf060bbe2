//! The failures of a login attempt, grouped by who can do something about them.

use vstd::prelude::*;
use vstd::string::StringExecFns;

verus! {

/// The four groups a failure falls into; callers branch on this, not on text.
#[derive(Debug, Clone, Copy, PartialEq, Eq, Structural)]
pub enum ErrorKind {
    /// Caused by the request itself; answered with a 4xx and never retried.
    Client,
    /// The provider denied the credential presented to it.
    Authentication,
    /// A collaborator could not be reached; the caller may start over.
    Infrastructure,
    /// The provider answered in a shape this flow does not understand.
    Protocol,
}

/// Every way a login attempt can fail.
#[derive(Debug, Clone, PartialEq, Eq)]
pub enum LoginError {
    /// The callback's `state` matches no live authorization request.
    InvalidRequest,
    /// The provider answered the code exchange with an error of its own.
    ProviderRejected(String),
    /// The provider issued a credential that is not a bearer token.
    UnsupportedTokenType,
    /// The provider answered the profile request with "unauthorized".
    Unauthorized,
    /// The correlation store did not accept or answer a request.
    StoreUnavailable,
    /// The provider could not be reached, or answered with an unexpected status.
    ProviderUnreachable,
    /// The account storage could not be read or written.
    StorageUnavailable,
    /// No session credential could be signed.
    SigningUnavailable,
    /// The provider's answer could not be parsed.
    MalformedResponse,
}

/// The text shown for a state that is unknown, consumed or expired. It is the
/// same in all three cases, so that a caller learns nothing about which it was.
pub open spec fn invalid_request_text() -> Seq<char> {
    "invalid or expired request"@
}

impl LoginError {
    /// The group this failure belongs to.
    pub open spec fn spec_kind(&self) -> ErrorKind {
        match *self {
            LoginError::InvalidRequest => ErrorKind::Client,
            LoginError::ProviderRejected(_) => ErrorKind::Client,
            LoginError::UnsupportedTokenType => ErrorKind::Client,
            LoginError::Unauthorized => ErrorKind::Authentication,
            LoginError::StoreUnavailable => ErrorKind::Infrastructure,
            LoginError::ProviderUnreachable => ErrorKind::Infrastructure,
            LoginError::StorageUnavailable => ErrorKind::Infrastructure,
            LoginError::SigningUnavailable => ErrorKind::Infrastructure,
            LoginError::MalformedResponse => ErrorKind::Protocol,
        }
    }

    /// The HTTP status a failure of this kind is answered with.
    pub open spec fn spec_status(&self) -> u16 {
        match self.spec_kind() {
            ErrorKind::Client => 400,
            ErrorKind::Authentication => 401,
            ErrorKind::Infrastructure => 500,
            ErrorKind::Protocol => 500,
        }
    }

    /// The text handed to the caller: the provider's own words for a rejected
    /// code, a fixed phrase for everything else.
    pub open spec fn spec_message(&self) -> Seq<char> {
        match *self {
            LoginError::InvalidRequest => invalid_request_text(),
            LoginError::ProviderRejected(text) => text@,
            LoginError::UnsupportedTokenType => "unsupported token type"@,
            LoginError::Unauthorized => "authentication failed"@,
            LoginError::StoreUnavailable => "correlation store unavailable"@,
            LoginError::ProviderUnreachable => "failed to reach the identity provider"@,
            LoginError::StorageUnavailable => "account storage unavailable"@,
            LoginError::SigningUnavailable => "session signing unavailable"@,
            LoginError::MalformedResponse => "failed to parse the provider's response"@,
        }
    }

    #[verifier::when_used_as_spec(spec_kind)]
    pub fn kind(&self) -> (k: ErrorKind)
        ensures
            k == self.spec_kind(),
    {
        match self {
            LoginError::InvalidRequest => ErrorKind::Client,
            LoginError::ProviderRejected(_) => ErrorKind::Client,
            LoginError::UnsupportedTokenType => ErrorKind::Client,
            LoginError::Unauthorized => ErrorKind::Authentication,
            LoginError::StoreUnavailable => ErrorKind::Infrastructure,
            LoginError::ProviderUnreachable => ErrorKind::Infrastructure,
            LoginError::StorageUnavailable => ErrorKind::Infrastructure,
            LoginError::SigningUnavailable => ErrorKind::Infrastructure,
            LoginError::MalformedResponse => ErrorKind::Protocol,
        }
    }

    /// 400 for a client fault, 401 for a denied credential, 500 otherwise.
    pub fn status(&self) -> (code: u16)
        ensures
            code == self.spec_status(),
            400 <= code < 500 <==> (self.kind() == ErrorKind::Client || self.kind()
                == ErrorKind::Authentication),
    {
        match self.kind() {
            ErrorKind::Client => 400,
            ErrorKind::Authentication => 401,
            ErrorKind::Infrastructure => 500,
            ErrorKind::Protocol => 500,
        }
    }

    /// Only a failure to reach a collaborator is worth a fresh attempt.
    pub fn retryable(&self) -> (yes: bool)
        ensures
            yes == (self.kind() == ErrorKind::Infrastructure),
    {
        match self.kind() {
            ErrorKind::Infrastructure => true,
            _ => false,
        }
    }

    pub fn message(&self) -> (text: String)
        ensures
            text@ == self.spec_message(),
    {
        match self {
            LoginError::InvalidRequest => String::from_str("invalid or expired request"),
            LoginError::ProviderRejected(text) => text.clone(),
            LoginError::UnsupportedTokenType => String::from_str("unsupported token type"),
            LoginError::Unauthorized => String::from_str("authentication failed"),
            LoginError::StoreUnavailable => String::from_str("correlation store unavailable"),
            LoginError::ProviderUnreachable => String::from_str(
                "failed to reach the identity provider",
            ),
            LoginError::StorageUnavailable => String::from_str("account storage unavailable"),
            LoginError::SigningUnavailable => String::from_str("session signing unavailable"),
            LoginError::MalformedResponse => String::from_str(
                "failed to parse the provider's response",
            ),
        }
    }
}

} // verus!
