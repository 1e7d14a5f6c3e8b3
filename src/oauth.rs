//! The calls into the oauth2 crate: PKCE and CSRF material, and the
//! authorization URL.
use vstd::prelude::*;
use crate::settings::{url_parses, OAuthSettings};
use oauth2::basic::BasicClient;
use oauth2::{AuthUrl, ClientId, CsrfToken, PkceCodeChallenge, PkceCodeVerifier, RedirectUrl, Scope};

verus! {

/// The S256 PKCE challenge of a verifier: base64url (unpadded) of its SHA-256.
pub uninterp spec fn pkce_s256(verifier: Seq<char>) -> Seq<char>;

/// The authorization URL of a code-flow request with PKCE: the
/// authorization endpoint with its query extended by the response type,
/// client id, state, challenge and method, redirect URI and the
/// space-joined scopes.
pub uninterp spec fn authorize_url_of(
    auth_url: Seq<char>,
    client_id: Seq<char>,
    redirect_uri: Seq<char>,
    scopes: Seq<Seq<char>>,
    challenge: Seq<char>,
    state: Seq<char>,
) -> Seq<char>;

/// A character PKCE allows in a code verifier.
pub open spec fn is_unreserved(c: char) -> bool {
    ||| ('a' <= c && c <= 'z')
    ||| ('A' <= c && c <= 'Z')
    ||| ('0' <= c && c <= '9')
    ||| c == '-' || c == '.' || c == '_' || c == '~'
}

/// A PKCE code verifier: 43 to 128 unreserved characters.
pub open spec fn valid_pkce_verifier(v: Seq<char>) -> bool {
    43 <= v.len() <= 128 && forall|i: int| 0 <= i < v.len() ==> is_unreserved(#[trigger] v[i])
}

/// Relies on oauth2's `PkceCodeChallenge::new_random_sha256`: 32 random bytes,
/// base64url-encoded without padding, so 43 characters of `A-Z a-z 0-9 - _`.
#[verifier::external_body]
pub(crate) fn new_pkce_verifier() -> (r: String)
    ensures
        valid_pkce_verifier(r@),
{
    let (_, verifier) = PkceCodeChallenge::new_random_sha256();
    verifier.secret().to_string()
}

/// Relies on oauth2's `CsrfToken::new_random`: a fresh random token, 16 bytes
/// base64url-encoded without padding.
#[verifier::external_body]
pub(crate) fn new_csrf_token() -> (r: String)
    ensures
        r@.len() == 22,
{
    CsrfToken::new_random().secret().to_string()
}

/// Relies on oauth2's `AuthorizationRequest::url` for a client with the given
/// endpoints, with `state` as the CSRF token and the challenge that
/// `PkceCodeChallenge::from_code_verifier_sha256` derives from `verifier`.
/// The endpoint constructors and the challenge only panic where the
/// precondition excludes.
#[verifier::external_body]
pub(crate) fn authorize_url(settings: &OAuthSettings, scopes: &Vec<String>, verifier: &str, state: &str) -> (r: String)
    requires
        url_parses(settings.auth_url@),
        url_parses(settings.redirect_uri@),
        valid_pkce_verifier(verifier@),
    ensures
        r@ == authorize_url_of(
            settings.auth_url@,
            settings.client_id@,
            settings.redirect_uri@,
            scopes@.map_values(|s: String| s@),
            pkce_s256(verifier@),
            state@,
        ),
{
    let client = BasicClient::new(ClientId::new(settings.client_id.clone()))
        .set_auth_uri(AuthUrl::new(settings.auth_url.clone()).unwrap())
        .set_redirect_uri(RedirectUrl::new(settings.redirect_uri.clone()).unwrap());
    let verifier = PkceCodeVerifier::new(verifier.to_string());
    let (url, _) = client
        .authorize_url(|| CsrfToken::new(state.to_string()))
        .add_scopes(scopes.iter().map(|s| Scope::new(s.clone())))
        .set_pkce_challenge(PkceCodeChallenge::from_code_verifier_sha256(&verifier))
        .url();
    url.to_string()
}

} // verus!
