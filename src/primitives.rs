//! Flow state and identity records shared by the whole gateway.
use vstd::prelude::*;

verus! {

/// What is remembered of one in-flight authorization attempt, as values.
pub struct FlowModel {
    pub provider: Seq<char>,
    pub pkce_verifier: Seq<char>,
    pub csrf_token: Seq<char>,
}

/// Security material of one in-flight authorization attempt, bound to a
/// browser session between the redirect to the provider and the callback.
pub struct OAuthSessionState {
    /// Name of the provider the flow was started with.
    pub provider: String,
    /// PKCE code verifier; never sent to the browser.
    pub pkce_verifier: String,
    /// CSRF token, round-tripped through the provider as `state`.
    pub csrf_token: String,
}

impl View for OAuthSessionState {
    type V = FlowModel;

    open spec fn view(&self) -> FlowModel {
        FlowModel {
            provider: self.provider@,
            pkce_verifier: self.pkce_verifier@,
            csrf_token: self.csrf_token@,
        }
    }
}

impl OAuthSessionState {
    /// Bundles the provider name, PKCE verifier and CSRF token of one attempt.
    pub fn new(provider: String, pkce_verifier: String, csrf_token: String) -> (r: Self)
        ensures
            r.provider == provider,
            r.pkce_verifier == pkce_verifier,
            r.csrf_token == csrf_token,
    {
        OAuthSessionState { provider, pkce_verifier, csrf_token }
    }
}

impl Clone for OAuthSessionState {
    fn clone(&self) -> (r: Self)
        ensures
            r == *self,
    {
        OAuthSessionState {
            provider: self.provider.clone(),
            pkce_verifier: self.pkce_verifier.clone(),
            csrf_token: self.csrf_token.clone(),
        }
    }
}

/// The normalized identity returned once a flow completes.
pub struct UserInfo {
    /// Provider-defined stable identifier (email, username or account number).
    pub id: String,
    /// Name of the provider that vouched for the identity.
    pub provider: String,
}

/// Query of an authorization request: which provider to sign in with.
pub struct InitiateQueryParams {
    pub provider: String,
}

/// Query of the provider's redirect back: the authorization code and the
/// `state` value that must match the stored CSRF token.
pub struct CallbackQueryParams {
    pub code: String,
    pub state: String,
}

/// Body of a successful callback response.
pub struct CallbackResponse {
    pub user_id: String,
}

impl CallbackResponse {
    /// The response body for a completed flow: the identity's identifier.
    pub fn from_user_info(info: UserInfo) -> (r: Self)
        ensures
            r.user_id == info.id,
    {
        CallbackResponse { user_id: info.id }
    }
}

} // verus!

verus! {

/// Whether two strings hold the same characters.
pub fn str_eq(a: &str, b: &str) -> (r: bool)
    ensures
        r == (a@ == b@),
{
    let x = a.to_owned();
    let y = b.to_owned();
    x == y
}

/// The text held by an optional string.
pub open spec fn text_of(r: Option<String>) -> Option<Seq<char>> {
    match r {
        Some(s) => Some(s@),
        None => None,
    }
}

} // verus!
