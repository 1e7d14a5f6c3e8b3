use oauth_gateway::errors::{FlowError, UrlField};
use oauth_gateway::gateway::build_oauth_providers;
use oauth_gateway::json::{Json, JsonNumber};
use oauth_gateway::providers::{
    DiscordProviderFactory, FetchOutcome, GithubProviderFactory, GoogleProviderFactory, Provider, ProviderKind,
    SpotifyProviderFactory, TwitterProviderFactory,
};
use oauth_gateway::settings::OAuthSettings;

fn settings() -> OAuthSettings {
    OAuthSettings {
        client_id: "id".to_string(),
        client_secret: "secret".to_string(),
        auth_url: "https://provider.example/authorize".to_string(),
        token_url: "https://provider.example/token".to_string(),
        redirect_uri: "https://gateway.example/callback".to_string(),
        user_info_url: "https://provider.example/me".to_string(),
    }
}

fn obj(members: Vec<(&str, Json)>) -> Json {
    Json::Object(members.into_iter().map(|(k, v)| (k.to_string(), v)).collect())
}

fn text(s: &str) -> Json {
    Json::Str(s.to_string())
}

fn adapter(kind: ProviderKind) -> Provider {
    Provider::new(kind, settings()).ok().unwrap()
}

fn fetch(kind: ProviderKind, body: Json) -> Result<(String, String), FlowError> {
    adapter(kind)
        .get_user_info(FetchOutcome::Received { status: 200, body: Some(body) })
        .map(|u| (u.id, u.provider))
}

fn ok(id: &str, provider: &str) -> Result<(String, String), FlowError> {
    Ok((id.to_string(), provider.to_string()))
}

#[test]
fn google_reads_email() {
    let body = obj(vec![("sub", text("1234")), ("email", text("ada@example.com"))]);
    assert_eq!(fetch(ProviderKind::Google, body), ok("ada@example.com", "google"));
    assert_eq!(fetch(ProviderKind::Google, obj(vec![("sub", text("1"))])), Err(FlowError::UpstreamSchema));
    assert_eq!(
        fetch(ProviderKind::Google, obj(vec![("email", Json::Number(JsonNumber::Unsigned(5)))])),
        Err(FlowError::UpstreamSchema)
    );
}

#[test]
fn github_reads_numeric_id() {
    let body = obj(vec![("login", text("octocat")), ("id", Json::Number(JsonNumber::Unsigned(1)))]);
    assert_eq!(fetch(ProviderKind::Github, body), ok("1", "github"));
    let body = obj(vec![("id", Json::Number(JsonNumber::Unsigned(u64::MAX)))]);
    assert_eq!(fetch(ProviderKind::Github, body), ok("18446744073709551615", "github"));
    let body = obj(vec![("id", Json::Number(JsonNumber::Unsigned(0)))]);
    assert_eq!(fetch(ProviderKind::Github, body), ok("0", "github"));
    assert_eq!(fetch(ProviderKind::Github, obj(vec![("id", text("583231"))])), Err(FlowError::UpstreamSchema));
    assert_eq!(
        fetch(ProviderKind::Github, obj(vec![("id", Json::Number(JsonNumber::Negative(-3)))])),
        Err(FlowError::UpstreamSchema)
    );
    assert_eq!(fetch(ProviderKind::Github, obj(vec![("login", text("x"))])), Err(FlowError::UpstreamSchema));
}

#[test]
fn twitter_reads_nested_username() {
    let body = obj(vec![("data", obj(vec![("id", text("2244994945")), ("username", text("TwitterDev"))]))]);
    assert_eq!(fetch(ProviderKind::Twitter, body), ok("TwitterDev", "twitter"));
    assert_eq!(fetch(ProviderKind::Twitter, obj(vec![("username", text("TwitterDev"))])), Err(FlowError::UpstreamSchema));
    assert_eq!(fetch(ProviderKind::Twitter, obj(vec![("data", text("x"))])), Err(FlowError::UpstreamSchema));
}

#[test]
fn discord_reads_username() {
    let body = obj(vec![("id", text("80351110224678912")), ("username", text("nelly"))]);
    assert_eq!(fetch(ProviderKind::Discord, body), ok("nelly", "discord"));
    assert_eq!(fetch(ProviderKind::Discord, obj(vec![("id", text("8"))])), Err(FlowError::UpstreamSchema));
    assert_eq!(fetch(ProviderKind::Discord, obj(vec![("username", Json::Null)])), Err(FlowError::UpstreamSchema));
}

#[test]
fn spotify_reads_string_or_numeric_id() {
    assert_eq!(fetch(ProviderKind::Spotify, obj(vec![("id", text("wizzler"))])), ok("wizzler", "spotify"));
    assert_eq!(
        fetch(ProviderKind::Spotify, obj(vec![("id", Json::Number(JsonNumber::Unsigned(42)))])),
        ok("42", "spotify")
    );
    assert_eq!(fetch(ProviderKind::Spotify, obj(vec![("display_name", text("w"))])), Err(FlowError::UpstreamSchema));
    assert_eq!(fetch(ProviderKind::Spotify, obj(vec![("id", Json::Bool(true))])), Err(FlowError::UpstreamSchema));
}

#[test]
fn last_repeated_member_wins() {
    let body = obj(vec![("email", text("first@example.com")), ("email", text("last@example.com"))]);
    assert_eq!(fetch(ProviderKind::Google, body), ok("last@example.com", "google"));
}

#[test]
fn non_object_body_is_a_schema_error() {
    assert_eq!(fetch(ProviderKind::Google, Json::Array(vec![text("x")])), Err(FlowError::UpstreamSchema));
    assert_eq!(fetch(ProviderKind::Github, Json::Null), Err(FlowError::UpstreamSchema));
}

#[test]
fn upstream_failures_are_server_errors() {
    let p = adapter(ProviderKind::Google);
    let sent = p.get_user_info(FetchOutcome::Unsent).err().unwrap();
    assert_eq!(sent, FlowError::UpstreamRequestFailed);
    assert_eq!(sent.status_code(), 500);
    let body = Some(obj(vec![("email", text("a@b.c"))]));
    let status = p.get_user_info(FetchOutcome::Received { status: 401, body }).err().unwrap();
    assert_eq!(status, FlowError::UpstreamStatus(401));
    assert_eq!(status.status_code(), 500);
    let unparsed = p.get_user_info(FetchOutcome::Received { status: 200, body: None }).err().unwrap();
    assert_eq!(unparsed, FlowError::UpstreamSchema);
    assert_eq!(unparsed.status_code(), 500);
    let redirect = p.get_user_info(FetchOutcome::Received { status: 302, body: None }).err().unwrap();
    assert_eq!(redirect, FlowError::UpstreamStatus(302));
    let created = p.get_user_info(FetchOutcome::Received { status: 299, body: Some(obj(vec![("email", text("e"))])) });
    assert_eq!(created.map(|u| u.id), Ok("e".to_string()));
}

#[test]
fn scopes_are_fixed_per_provider() {
    assert_eq!(ProviderKind::Google.get_scopes(), vec!["email".to_string()]);
    assert_eq!(ProviderKind::Github.get_scopes(), vec!["user:email".to_string()]);
    assert_eq!(ProviderKind::Twitter.get_scopes(), vec!["users.read".to_string(), "tweet.read".to_string()]);
    assert_eq!(ProviderKind::Discord.get_scopes(), vec!["identify".to_string()]);
    assert_eq!(ProviderKind::Spotify.get_scopes(), vec!["user-read-email".to_string()]);
    assert_eq!(adapter(ProviderKind::Twitter).get_scopes(), ProviderKind::Twitter.get_scopes());
}

#[test]
fn registry_resolves_the_five_names() {
    for kind in [
        ProviderKind::Google,
        ProviderKind::Github,
        ProviderKind::Twitter,
        ProviderKind::Discord,
        ProviderKind::Spotify,
    ] {
        assert_eq!(ProviderKind::resolve(&kind.name()), Some(kind));
    }
    assert_eq!(ProviderKind::resolve("Google"), None);
    assert_eq!(ProviderKind::resolve("not-a-real-provider"), None);
    assert_eq!(ProviderKind::resolve(""), None);
}

#[test]
fn user_info_request_shape() {
    let r = adapter(ProviderKind::Discord).user_info_request("abc");
    assert_eq!(r.url, "https://provider.example/me");
    assert_eq!(r.authorization, "Bearer abc");
    assert_eq!(r.user_agent, None);
    let r = adapter(ProviderKind::Github).user_info_request("abc");
    assert_eq!(r.user_agent, Some("Garden-Authenticator".to_string()));
}

#[test]
fn factories_build_their_kind() {
    assert_eq!(GoogleProviderFactory.create(settings()).ok().unwrap().kind, ProviderKind::Google);
    assert_eq!(GithubProviderFactory.create(settings()).ok().unwrap().kind, ProviderKind::Github);
    assert_eq!(TwitterProviderFactory.create(settings()).ok().unwrap().kind, ProviderKind::Twitter);
    assert_eq!(DiscordProviderFactory.create(settings()).ok().unwrap().kind, ProviderKind::Discord);
    assert_eq!(SpotifyProviderFactory.create(settings()).ok().unwrap().kind, ProviderKind::Spotify);
    let mut bad = settings();
    bad.token_url = "/token".to_string();
    assert_eq!(GoogleProviderFactory.create(bad).err().unwrap(), UrlField::TokenUrl);
}

#[test]
fn malformed_urls_are_named_in_order() {
    let mut s = settings();
    s.user_info_url = "not a url".to_string();
    assert_eq!(Provider::new(ProviderKind::Google, s).err().unwrap(), UrlField::UserInfoUrl);
    let mut s = settings();
    s.redirect_uri = "callback".to_string();
    s.user_info_url = "::".to_string();
    assert_eq!(Provider::new(ProviderKind::Google, s).err().unwrap(), UrlField::RedirectUri);
    let mut s = settings();
    s.auth_url = "".to_string();
    s.token_url = "".to_string();
    assert_eq!(Provider::new(ProviderKind::Google, s).err().unwrap(), UrlField::AuthUrl);
}

#[test]
fn build_skips_unregistered_and_fails_on_bad_url() {
    let table = build_oauth_providers(&vec![
        ("google".to_string(), settings()),
        ("myspace".to_string(), settings()),
        ("discord".to_string(), settings()),
    ])
    .ok()
    .unwrap();
    let kinds: Vec<ProviderKind> = table.oauth_providers.iter().map(|p| p.kind).collect();
    assert_eq!(kinds, vec![ProviderKind::Google, ProviderKind::Discord]);
    assert!(table.find("google").is_some());
    assert!(table.find("myspace").is_none());
    assert!(table.find("github").is_none());

    let mut bad = settings();
    bad.auth_url = "relative/path".to_string();
    let err = build_oauth_providers(&vec![("google".to_string(), settings()), ("unknown".to_string(), bad)])
        .err()
        .unwrap();
    assert_eq!(err.provider, "unknown");
    assert_eq!(err.field, UrlField::AuthUrl);

    let empty = build_oauth_providers(&vec![]).ok().unwrap();
    assert!(empty.oauth_providers.is_empty());
}

#[test]
fn later_entry_of_a_kind_replaces_earlier() {
    let mut second = settings();
    second.client_id = "second".to_string();
    let table =
        build_oauth_providers(&vec![("github".to_string(), settings()), ("github".to_string(), second)]).ok().unwrap();
    assert_eq!(table.oauth_providers.len(), 1);
    assert_eq!(table.find("github").unwrap().settings.client_id, "second");
}
