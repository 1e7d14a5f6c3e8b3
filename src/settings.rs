//! Static configuration of the configured identity providers.
use vstd::prelude::*;
use crate::errors::UrlField;

verus! {

/// Whether `s` parses as an absolute URL.
pub uninterp spec fn url_parses(s: Seq<char>) -> bool;

/// Relies on `url::Url::parse` (re-exported by oauth2), which oauth2's
/// `AuthUrl::new`, `TokenUrl::new` and `RedirectUrl::new` also apply: the
/// answer depends on the text alone.
#[verifier::external_body]
fn url_is_valid(s: &str) -> (r: bool)
    ensures
        r == url_parses(s@),
{
    oauth2::url::Url::parse(s).is_ok()
}

/// A provider's configuration, as values.
pub struct SettingsModel {
    pub client_id: Seq<char>,
    pub client_secret: Seq<char>,
    pub auth_url: Seq<char>,
    pub token_url: Seq<char>,
    pub redirect_uri: Seq<char>,
    pub user_info_url: Seq<char>,
}

impl SettingsModel {
    /// The first endpoint URL that does not parse, in the order auth, token,
    /// redirect, user info.
    pub open spec fn first_invalid_url(self) -> Option<UrlField> {
        if !url_parses(self.auth_url) {
            Some(UrlField::AuthUrl)
        } else if !url_parses(self.token_url) {
            Some(UrlField::TokenUrl)
        } else if !url_parses(self.redirect_uri) {
            Some(UrlField::RedirectUri)
        } else if !url_parses(self.user_info_url) {
            Some(UrlField::UserInfoUrl)
        } else {
            None
        }
    }

    pub open spec fn urls_valid(self) -> bool {
        self.first_invalid_url() is None
    }
}

/// Credentials and endpoints of one identity provider.
pub struct OAuthSettings {
    pub client_id: String,
    pub client_secret: String,
    pub auth_url: String,
    pub token_url: String,
    pub redirect_uri: String,
    pub user_info_url: String,
}

impl View for OAuthSettings {
    type V = SettingsModel;

    open spec fn view(&self) -> SettingsModel {
        SettingsModel {
            client_id: self.client_id@,
            client_secret: self.client_secret@,
            auth_url: self.auth_url@,
            token_url: self.token_url@,
            redirect_uri: self.redirect_uri@,
            user_info_url: self.user_info_url@,
        }
    }
}

impl Clone for OAuthSettings {
    fn clone(&self) -> (r: Self)
        ensures
            r == *self,
    {
        OAuthSettings {
            client_id: self.client_id.clone(),
            client_secret: self.client_secret.clone(),
            auth_url: self.auth_url.clone(),
            token_url: self.token_url.clone(),
            redirect_uri: self.redirect_uri.clone(),
            user_info_url: self.user_info_url.clone(),
        }
    }
}

impl OAuthSettings {
    /// Checks the four endpoint URLs and names the first that does not parse.
    pub fn first_invalid_url(&self) -> (r: Option<UrlField>)
        ensures
            r == self@.first_invalid_url(),
    {
        if !url_is_valid(self.auth_url.as_str()) {
            Some(UrlField::AuthUrl)
        } else if !url_is_valid(self.token_url.as_str()) {
            Some(UrlField::TokenUrl)
        } else if !url_is_valid(self.redirect_uri.as_str()) {
            Some(UrlField::RedirectUri)
        } else if !url_is_valid(self.user_info_url.as_str()) {
            Some(UrlField::UserInfoUrl)
        } else {
            None
        }
    }
}

/// The gateway's whole configuration: its port and, by name, each provider.
pub struct Settings {
    pub port: u16,
    pub oauth: Vec<(String, OAuthSettings)>,
}

} // verus!
