//! The gateway's closed error taxonomy.
use vstd::prelude::*;

verus! {

/// Why an authorization or callback request failed.
#[derive(PartialEq, Eq, Structural, Clone, Copy, Debug)]
pub enum FlowError {
    /// The provider name is not among the configured providers.
    UnknownProvider,
    /// No live flow state for the session: never started, expired or consumed.
    NoActiveFlow,
    /// The returned `state` differs from the stored CSRF token.
    CsrfMismatch,
    /// The token endpoint refused the code or could not be reached.
    TokenExchangeFailed,
    /// The flow-state store could not accept the write.
    SessionWriteFailed,
    /// The user-info request could not be sent.
    UpstreamRequestFailed,
    /// The user-info endpoint answered with a non-success status.
    UpstreamStatus(u16),
    /// The user-info body lacks the identity field, or holds it with the wrong type.
    UpstreamSchema,
}

impl FlowError {
    /// Errors the caller caused and can recover from by starting over.
    pub open spec fn is_client_error(self) -> bool {
        match self {
            FlowError::UnknownProvider => true,
            FlowError::NoActiveFlow => true,
            FlowError::CsrfMismatch => true,
            FlowError::TokenExchangeFailed => true,
            _ => false,
        }
    }

    /// The HTTP status a transport reports for this error: 400 for client
    /// errors, 500 for failures of the provider or of the gateway itself.
    pub fn status_code(&self) -> (r: u16)
        ensures
            r == (if self.is_client_error() { 400u16 } else { 500u16 }),
    {
        match self {
            FlowError::UnknownProvider => 400,
            FlowError::NoActiveFlow => 400,
            FlowError::CsrfMismatch => 400,
            FlowError::TokenExchangeFailed => 400,
            _ => 500,
        }
    }
}

/// Which endpoint URL of a provider's configuration is malformed.
#[derive(PartialEq, Eq, Structural, Clone, Copy, Debug)]
pub enum UrlField {
    AuthUrl,
    TokenUrl,
    RedirectUri,
    UserInfoUrl,
}

/// A configured provider whose endpoint URL does not parse.
#[derive(Debug)]
pub struct ConfigError {
    /// The provider's name in the configuration.
    pub provider: String,
    /// The first malformed URL, in the order auth, token, redirect, user info.
    pub field: UrlField,
}

} // verus!
