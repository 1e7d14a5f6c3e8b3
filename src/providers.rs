//! The provider registry and the per-provider adapters: scopes, the shape of
//! the user-info request, and where each provider keeps the identity in its
//! user-info body.
use vstd::prelude::*;
use crate::errors::{ConfigError, FlowError, UrlField};
use crate::json::{Json, JsonNumber};
use crate::primitives::{str_eq, text_of, UserInfo};
use crate::settings::{OAuthSettings, SettingsModel};

verus! {

/// The identity providers this gateway knows how to talk to.
#[derive(PartialEq, Eq, Structural, Clone, Copy, Debug)]
pub enum ProviderKind {
    Google,
    Github,
    Twitter,
    Discord,
    Spotify,
}

/// The registered name of each provider kind.
pub open spec fn kind_name(k: ProviderKind) -> Seq<char> {
    match k {
        ProviderKind::Google => "google"@,
        ProviderKind::Github => "github"@,
        ProviderKind::Twitter => "twitter"@,
        ProviderKind::Discord => "discord"@,
        ProviderKind::Spotify => "spotify"@,
    }
}

/// The registry: which provider kind a name stands for.
pub open spec fn kind_named(name: Seq<char>) -> Option<ProviderKind> {
    if name == "google"@ {
        Some(ProviderKind::Google)
    } else if name == "github"@ {
        Some(ProviderKind::Github)
    } else if name == "twitter"@ {
        Some(ProviderKind::Twitter)
    } else if name == "discord"@ {
        Some(ProviderKind::Discord)
    } else if name == "spotify"@ {
        Some(ProviderKind::Spotify)
    } else {
        None
    }
}

/// The scopes each provider is asked for, in the order they are requested.
pub open spec fn kind_scopes(k: ProviderKind) -> Seq<Seq<char>> {
    match k {
        ProviderKind::Google => seq!["email"@],
        ProviderKind::Github => seq!["user:email"@],
        ProviderKind::Twitter => seq!["users.read"@, "tweet.read"@],
        ProviderKind::Discord => seq!["identify"@],
        ProviderKind::Spotify => seq!["user-read-email"@],
    }
}

/// The decimal digit `d`.
pub open spec fn digit_char(d: nat) -> char {
    seq!['0', '1', '2', '3', '4', '5', '6', '7', '8', '9'][d as int]
}

/// The decimal notation of `n`, without sign or leading zeros.
pub open spec fn decimal(n: nat) -> Seq<char>
    decreases n,
{
    if n < 10 {
        seq![digit_char(n)]
    } else {
        decimal(n / 10).push(digit_char(n % 10))
    }
}

/// Relies on `ToString::to_string` through `u64`'s `Display`, which writes
/// the plain decimal digits.
#[verifier::external_body]
fn decimal_text(n: u64) -> (r: String)
    ensures
        r@ == decimal(n as nat),
{
    n.to_string()
}

/// A JSON string, as text.
pub open spec fn string_value(v: Option<Json>) -> Option<Seq<char>> {
    match v {
        Some(Json::Str(s)) => Some(s@),
        _ => None,
    }
}

/// A non-negative integer that fits in 64 bits, in decimal.
pub open spec fn unsigned_value(v: Option<Json>) -> Option<Seq<char>> {
    match v {
        Some(Json::Number(JsonNumber::Unsigned(n))) => Some(decimal(n as nat)),
        _ => None,
    }
}

/// Where each provider keeps the user's identifier in its user-info body.
pub open spec fn identity_field(k: ProviderKind, body: Json) -> Option<Json> {
    match k {
        ProviderKind::Google => body.spec_member("email"@),
        ProviderKind::Github => body.spec_member("id"@),
        ProviderKind::Twitter => match body.spec_member("data"@) {
            Some(data) => data.spec_member("username"@),
            None => None,
        },
        ProviderKind::Discord => body.spec_member("username"@),
        ProviderKind::Spotify => body.spec_member("id"@),
    }
}

/// The user's identifier as text: GitHub's is a non-negative integer,
/// Spotify's a string or such an integer, the others' a string.
pub open spec fn identity_of(k: ProviderKind, body: Json) -> Option<Seq<char>> {
    let v = identity_field(k, body);
    match k {
        ProviderKind::Github => unsigned_value(v),
        ProviderKind::Spotify => if string_value(v) is Some {
            string_value(v)
        } else {
            unsigned_value(v)
        },
        _ => string_value(v),
    }
}

/// A JSON string, as text.
fn string_of(v: Option<&Json>) -> (r: Option<String>)
    ensures
        match v {
            Some(j) => text_of(r) == string_value(Some(*j)),
            None => r is None,
        },
{
    match v {
        Some(Json::Str(s)) => Some(s.clone()),
        _ => None,
    }
}

/// A non-negative 64-bit integer, in decimal.
fn unsigned_of(v: Option<&Json>) -> (r: Option<String>)
    ensures
        match v {
            Some(j) => text_of(r) == unsigned_value(Some(*j)),
            None => r is None,
        },
{
    match v {
        Some(Json::Number(JsonNumber::Unsigned(n))) => Some(decimal_text(*n)),
        _ => None,
    }
}

impl ProviderKind {
    /// The name the provider is registered under.
    pub fn name(&self) -> (r: String)
        ensures
            r@ == kind_name(*self),
    {
        match self {
            ProviderKind::Google => "google".to_owned(),
            ProviderKind::Github => "github".to_owned(),
            ProviderKind::Twitter => "twitter".to_owned(),
            ProviderKind::Discord => "discord".to_owned(),
            ProviderKind::Spotify => "spotify".to_owned(),
        }
    }

    /// Looks a provider name up in the registry.
    pub fn resolve(name: &str) -> (r: Option<ProviderKind>)
        ensures
            r == kind_named(name@),
    {
        if str_eq(name, "google") {
            Some(ProviderKind::Google)
        } else if str_eq(name, "github") {
            Some(ProviderKind::Github)
        } else if str_eq(name, "twitter") {
            Some(ProviderKind::Twitter)
        } else if str_eq(name, "discord") {
            Some(ProviderKind::Discord)
        } else if str_eq(name, "spotify") {
            Some(ProviderKind::Spotify)
        } else {
            None
        }
    }

    /// The scopes requested from this provider, in order.
    pub fn get_scopes(&self) -> (r: Vec<String>)
        ensures
            r@.map_values(|s: String| s@) == kind_scopes(*self),
    {
        let r = match self {
            ProviderKind::Google => vec!["email".to_owned()],
            ProviderKind::Github => vec!["user:email".to_owned()],
            ProviderKind::Twitter => vec!["users.read".to_owned(), "tweet.read".to_owned()],
            ProviderKind::Discord => vec!["identify".to_owned()],
            ProviderKind::Spotify => vec!["user-read-email".to_owned()],
        };
        assert(r@.map_values(|s: String| s@) =~= kind_scopes(*self));
        r
    }

    /// Reads the user's identifier out of a user-info body.
    pub fn identity(&self, body: &Json) -> (r: Option<String>)
        ensures
            text_of(r) == identity_of(*self, *body),
    {
        match self {
            ProviderKind::Google => string_of(body.member("email")),
            ProviderKind::Github => unsigned_of(body.member("id")),
            ProviderKind::Twitter => match body.member("data") {
                Some(data) => string_of(data.member("username")),
                None => None,
            },
            ProviderKind::Discord => string_of(body.member("username")),
            ProviderKind::Spotify => {
                let id = body.member("id");
                let s = string_of(id);
                if s.is_some() {
                    s
                } else {
                    unsigned_of(id)
                }
            },
        }
    }
}

} // verus!

verus! {

/// A configured provider, as values.
pub struct ProviderModel {
    pub kind: ProviderKind,
    pub settings: SettingsModel,
}

/// The adapter for one configured provider: its kind and its resolved
/// credentials and endpoints. Its endpoint URLs all parse.
pub struct Provider {
    pub kind: ProviderKind,
    pub settings: OAuthSettings,
}

impl View for Provider {
    type V = ProviderModel;

    open spec fn view(&self) -> ProviderModel {
        ProviderModel { kind: self.kind, settings: self.settings@ }
    }
}

/// How the user-info request went, as the transport saw it.
pub enum FetchOutcome {
    /// The request could not be sent.
    Unsent,
    /// The provider answered with `status`; `body` is the parsed document, or
    /// nothing where the body was not JSON.
    Received { status: u16, body: Option<Json> },
}

/// The one authenticated GET that fetches the user's profile.
pub struct UserInfoRequest {
    pub url: String,
    /// Value of the `Authorization` header.
    pub authorization: String,
    /// Value of the `User-Agent` header, where the provider demands one.
    pub user_agent: Option<String>,
}

/// The `User-Agent` value GitHub's API demands.
pub open spec fn user_agent_of(k: ProviderKind) -> Option<Seq<char>> {
    match k {
        ProviderKind::Github => Some("Garden-Authenticator"@),
        _ => None,
    }
}

/// Whether `status` is a success (2xx) status.
pub open spec fn is_success(status: u16) -> bool {
    200 <= status <= 299
}

/// What a user-info fetch yields for a provider of kind `k`.
pub open spec fn user_info_outcome(k: ProviderKind, outcome: FetchOutcome) -> Result<(Seq<char>, Seq<char>), FlowError> {
    match outcome {
        FetchOutcome::Unsent => Err(FlowError::UpstreamRequestFailed),
        FetchOutcome::Received { status, body } => {
            if !is_success(status) {
                Err(FlowError::UpstreamStatus(status))
            } else {
                match body {
                    None => Err(FlowError::UpstreamSchema),
                    Some(b) => match identity_of(k, b) {
                        None => Err(FlowError::UpstreamSchema),
                        Some(id) => Ok((id, kind_name(k))),
                    },
                }
            }
        },
    }
}

/// A user-info result as values: the identifier and the provider name.
pub open spec fn user_info_view(r: Result<UserInfo, FlowError>) -> Result<(Seq<char>, Seq<char>), FlowError> {
    match r {
        Ok(u) => Ok((u.id@, u.provider@)),
        Err(e) => Err(e),
    }
}

/// The adapter built for kind `kind` from `s`, or the first malformed URL.
pub open spec fn provider_from(kind: ProviderKind, s: SettingsModel) -> Result<ProviderModel, UrlField> {
    match s.first_invalid_url() {
        Some(f) => Err(f),
        None => Ok(ProviderModel { kind, settings: s }),
    }
}

/// An adapter construction result, as values.
pub open spec fn provider_view(r: Result<Provider, UrlField>) -> Result<ProviderModel, UrlField> {
    match r {
        Ok(p) => Ok(p@),
        Err(f) => Err(f),
    }
}

impl Clone for Provider {
    fn clone(&self) -> (r: Self)
        ensures
            r == *self,
    {
        Provider { kind: self.kind, settings: self.settings.clone() }
    }
}

impl Provider {
    pub open spec fn wf(&self) -> bool {
        self.settings@.urls_valid()
    }

    /// Builds the adapter for a provider of kind `kind`, once every endpoint
    /// URL of `settings` parses; otherwise names the first that does not.
    pub fn new(kind: ProviderKind, settings: OAuthSettings) -> (r: Result<Provider, UrlField>)
        ensures
            provider_view(r) == provider_from(kind, settings@),
            r is Ok ==> r->Ok_0.settings == settings && r->Ok_0.wf(),
    {
        match settings.first_invalid_url() {
            Some(f) => Err(f),
            None => Ok(Provider { kind, settings }),
        }
    }

    /// The scopes requested from this provider, in order.
    pub fn get_scopes(&self) -> (r: Vec<String>)
        ensures
            r@.map_values(|s: String| s@) == kind_scopes(self.kind),
    {
        self.kind.get_scopes()
    }

    /// The user-info request made with `access_token`: a GET to the
    /// provider's user-info URL with a bearer token.
    pub fn user_info_request(&self, access_token: &str) -> (r: UserInfoRequest)
        ensures
            r.url@ == self.settings.user_info_url@,
            r.authorization@ == "Bearer "@ + access_token@,
            text_of(r.user_agent) == user_agent_of(self.kind),
    {
        let bearer = "Bearer ".to_owned();
        let authorization = bearer.concat(access_token);
        let user_agent = match self.kind {
            ProviderKind::Github => Some("Garden-Authenticator".to_owned()),
            _ => None,
        };
        UserInfoRequest { url: self.settings.user_info_url.clone(), authorization, user_agent }
    }

    /// Turns the outcome of the user-info request into the normalized identity.
    pub fn get_user_info(&self, outcome: FetchOutcome) -> (r: Result<UserInfo, FlowError>)
        ensures
            user_info_view(r) == user_info_outcome(self.kind, outcome),
    {
        match outcome {
            FetchOutcome::Unsent => Err(FlowError::UpstreamRequestFailed),
            FetchOutcome::Received { status, body } => {
                if status < 200 || status > 299 {
                    Err(FlowError::UpstreamStatus(status))
                } else {
                    match body {
                        None => Err(FlowError::UpstreamSchema),
                        Some(b) => match self.kind.identity(&b) {
                            None => Err(FlowError::UpstreamSchema),
                            Some(id) => Ok(UserInfo { id, provider: self.kind.name() }),
                        },
                    }
                }
            },
        }
    }
}

/// Makes Google adapters.
pub struct GoogleProviderFactory;

/// Makes GitHub adapters.
pub struct GithubProviderFactory;

/// Makes Twitter adapters.
pub struct TwitterProviderFactory;

/// Makes Discord adapters.
pub struct DiscordProviderFactory;

/// Makes Spotify adapters.
pub struct SpotifyProviderFactory;

impl GoogleProviderFactory {
    /// Builds a Google adapter from `settings`, as `Provider::new` does.
    pub fn create(&self, settings: OAuthSettings) -> (r: Result<Provider, UrlField>)
        ensures
            provider_view(r) == provider_from(ProviderKind::Google, settings@),
            r is Ok ==> r->Ok_0.wf(),
    {
        Provider::new(ProviderKind::Google, settings)
    }
}

impl GithubProviderFactory {
    /// Builds a Github adapter from `settings`, as `Provider::new` does.
    pub fn create(&self, settings: OAuthSettings) -> (r: Result<Provider, UrlField>)
        ensures
            provider_view(r) == provider_from(ProviderKind::Github, settings@),
            r is Ok ==> r->Ok_0.wf(),
    {
        Provider::new(ProviderKind::Github, settings)
    }
}

impl TwitterProviderFactory {
    /// Builds a Twitter adapter from `settings`, as `Provider::new` does.
    pub fn create(&self, settings: OAuthSettings) -> (r: Result<Provider, UrlField>)
        ensures
            provider_view(r) == provider_from(ProviderKind::Twitter, settings@),
            r is Ok ==> r->Ok_0.wf(),
    {
        Provider::new(ProviderKind::Twitter, settings)
    }
}

impl DiscordProviderFactory {
    /// Builds a Discord adapter from `settings`, as `Provider::new` does.
    pub fn create(&self, settings: OAuthSettings) -> (r: Result<Provider, UrlField>)
        ensures
            provider_view(r) == provider_from(ProviderKind::Discord, settings@),
            r is Ok ==> r->Ok_0.wf(),
    {
        Provider::new(ProviderKind::Discord, settings)
    }
}

impl SpotifyProviderFactory {
    /// Builds a Spotify adapter from `settings`, as `Provider::new` does.
    pub fn create(&self, settings: OAuthSettings) -> (r: Result<Provider, UrlField>)
        ensures
            provider_view(r) == provider_from(ProviderKind::Spotify, settings@),
            r is Ok ==> r->Ok_0.wf(),
    {
        Provider::new(ProviderKind::Spotify, settings)
    }
}

} // verus!

verus! {

/// A 2xx user-info response whose body lacks the provider's identity field
/// fails with `UpstreamSchema`.
pub proof fn lemma_missing_identity_field(k: ProviderKind, status: u16, body: Json)
    requires
        is_success(status),
        identity_field(k, body) is None,
    ensures
        user_info_outcome(k, FetchOutcome::Received { status, body: Some(body) }) == Err::<
            (Seq<char>, Seq<char>),
            FlowError,
        >(FlowError::UpstreamSchema),
{
}

/// A 2xx user-info response yields the identity field as it stands: a string
/// unchanged, a GitHub or Spotify account number in decimal; the provider is
/// named by its registered name.
pub proof fn lemma_identity_extracted(k: ProviderKind, status: u16, body: Json)
    requires
        is_success(status),
    ensures
        match identity_field(k, body) {
            Some(Json::Str(s)) => k != ProviderKind::Github ==> user_info_outcome(
                k,
                FetchOutcome::Received { status, body: Some(body) },
            ) == Ok::<(Seq<char>, Seq<char>), FlowError>((s@, kind_name(k))),
            Some(Json::Number(JsonNumber::Unsigned(n))) => (k == ProviderKind::Github || k
                == ProviderKind::Spotify) ==> user_info_outcome(
                k,
                FetchOutcome::Received { status, body: Some(body) },
            ) == Ok::<(Seq<char>, Seq<char>), FlowError>((decimal(n as nat), kind_name(k))),
            _ => true,
        },
{
}

} // verus!
