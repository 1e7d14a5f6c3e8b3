//! The provider table and the two halves of a flow: initiation, and the
//! callback processed as a sequence of steps around the network calls.
use vstd::prelude::*;
use vstd::string::*;
use crate::errors::{ConfigError, FlowError, UrlField};
use crate::oauth::{authorize_url, authorize_url_of, new_csrf_token, new_pkce_verifier, pkce_s256, valid_pkce_verifier};
use crate::primitives::{text_of, CallbackQueryParams, FlowModel, InitiateQueryParams, OAuthSessionState};
use crate::providers::{kind_named, kind_scopes, user_agent_of, Provider, ProviderKind, ProviderModel, UserInfoRequest};
use crate::settings::{OAuthSettings, SettingsModel};
use crate::store::{lemma_put_stores, lemma_take_consumes, put_outcome, sessions_unique, take_outcome, FlowStore, StoredFlow};

verus! {

/// Index of the adapter of kind `k`.
pub open spec fn kind_position(ps: Seq<ProviderModel>, k: ProviderKind) -> Option<int>
    decreases ps.len(),
{
    if ps.len() == 0 {
        None
    } else if ps.last().kind == k {
        Some(ps.len() - 1)
    } else {
        kind_position(ps.drop_last(), k)
    }
}

/// `kind_position` finds an adapter of kind `k` exactly when there is one.
pub proof fn lemma_kind_position(ps: Seq<ProviderModel>, k: ProviderKind)
    ensures
        match kind_position(ps, k) {
            Some(i) => 0 <= i < ps.len() && ps[i].kind == k,
            None => forall|j: int| 0 <= j < ps.len() ==> ps[j].kind != k,
        },
    decreases ps.len(),
{
    if ps.len() > 0 && ps.last().kind != k {
        lemma_kind_position(ps.drop_last(), k);
        assert(forall|j: int| 0 <= j < ps.len() - 1 ==> ps.drop_last()[j] == ps[j]);
    }
}

/// The adapter serving requests for the provider named `name`.
pub open spec fn lookup(ps: Seq<ProviderModel>, name: Seq<char>) -> Option<ProviderModel> {
    match kind_named(name) {
        Some(k) => match kind_position(ps, k) {
            Some(i) => Some(ps[i]),
            None => None,
        },
        None => None,
    }
}

/// `ps` with `p` added, in place of an adapter of the same kind.
pub open spec fn with_provider(ps: Seq<ProviderModel>, p: ProviderModel) -> Seq<ProviderModel> {
    match kind_position(ps, p.kind) {
        Some(i) => ps.update(i, p),
        None => ps.push(p),
    }
}

/// The adapters built from configured providers, in order: each entry's URLs
/// are checked, an entry whose name is not registered is skipped, and a later
/// entry of a kind replaces an earlier one. The first entry with a malformed
/// URL fails the whole build.
pub open spec fn built_from(entries: Seq<(Seq<char>, SettingsModel)>) -> Result<Seq<ProviderModel>, (Seq<char>, UrlField)>
    decreases entries.len(),
{
    if entries.len() == 0 {
        Ok(Seq::empty())
    } else {
        match built_from(entries.drop_last()) {
            Err(e) => Err(e),
            Ok(ps) => {
                let (name, cfg) = entries.last();
                match cfg.first_invalid_url() {
                    Some(f) => Err((name, f)),
                    None => match kind_named(name) {
                        Some(k) => Ok(with_provider(ps, ProviderModel { kind: k, settings: cfg })),
                        None => Ok(ps),
                    },
                }
            },
        }
    }
}

/// Once a prefix of the configuration fails to build, the whole fails the same way.
pub proof fn lemma_build_error_stays(entries: Seq<(Seq<char>, SettingsModel)>, n: int)
    requires
        0 <= n <= entries.len(),
        built_from(entries.subrange(0, n)) is Err,
    ensures
        built_from(entries) == built_from(entries.subrange(0, n)),
    decreases entries.len(),
{
    if n < entries.len() {
        assert(entries.drop_last().subrange(0, n) =~= entries.subrange(0, n));
        lemma_build_error_stays(entries.drop_last(), n);
    } else {
        assert(entries.subrange(0, n) =~= entries);
    }
}

/// Configured providers, as values.
pub open spec fn settings_view(oauth: Seq<(String, OAuthSettings)>) -> Seq<(Seq<char>, SettingsModel)> {
    oauth.map_values(|e: (String, OAuthSettings)| (e.0@, e.1@))
}

/// The table of configured adapters, read-only once built.
pub struct AppState {
    pub oauth_providers: Vec<Provider>,
}

impl View for AppState {
    type V = Seq<ProviderModel>;

    open spec fn view(&self) -> Seq<ProviderModel> {
        self.oauth_providers@.map_values(|p: Provider| p@)
    }
}

/// Every adapter's URLs parse, and no two adapters share a kind.
pub open spec fn table_wf(ps: Seq<ProviderModel>) -> bool {
    &&& forall|i: int| 0 <= i < ps.len() ==> (#[trigger] ps[i]).settings.urls_valid()
    &&& forall|i: int, j: int| 0 <= i < j < ps.len() ==> ps[i].kind != ps[j].kind
}

impl AppState {
    pub open spec fn wf(&self) -> bool {
        table_wf(self@)
    }

    /// An empty table.
    pub fn new() -> (r: Self)
        ensures
            r@ == Seq::<ProviderModel>::empty(),
            r.wf(),
    {
        let r = AppState { oauth_providers: Vec::new() };
        assert(r@ =~= Seq::<ProviderModel>::empty());
        r
    }

    fn position(&self, k: ProviderKind) -> (r: Option<usize>)
        ensures
            match r {
                Some(i) => kind_position(self@, k) == Some(i as int),
                None => kind_position(self@, k) is None,
            },
    {
        let mut found: Option<usize> = None;
        let mut i: usize = 0;
        while i < self.oauth_providers.len()
            invariant
                i <= self.oauth_providers@.len(),
                match found {
                    Some(j) => kind_position(self@.subrange(0, i as int), k) == Some(j as int),
                    None => kind_position(self@.subrange(0, i as int), k) is None,
                },
            decreases self.oauth_providers@.len() - i,
        {
            assert(self@.subrange(0, i as int + 1).drop_last() =~= self@.subrange(0, i as int));
            if self.oauth_providers[i].kind == k {
                found = Some(i);
            }
            i = i + 1;
        }
        assert(self@.subrange(0, self@.len() as int) =~= self@);
        found
    }

    /// The adapter serving the provider named `name`.
    pub fn find(&self, name: &str) -> (r: Option<&Provider>)
        requires
            self.wf(),
        ensures
            match r {
                Some(p) => lookup(self@, name@) == Some(p@) && p.wf(),
                None => lookup(self@, name@) is None,
            },
    {
        match ProviderKind::resolve(name) {
            Some(k) => match self.position(k) {
                Some(i) => {
                    proof {
                        lemma_kind_position(self@, k);
                    }
                    Some(&self.oauth_providers[i])
                },
                None => None,
            },
            None => None,
        }
    }

    /// Adds `p`, in place of an adapter of the same kind.
    fn insert(&mut self, p: Provider)
        requires
            old(self).wf(),
            p.wf(),
        ensures
            final(self)@ == with_provider(old(self)@, p@),
            final(self).wf(),
    {
        let ghost ps = self@;
        proof {
            lemma_kind_position(ps, p.kind);
        }
        let ghost pm = p@;
        match self.position(p.kind) {
            Some(i) => {
                self.oauth_providers.set(i, p);
                assert(self@ =~= ps.update(i as int, pm));
            },
            None => {
                self.oauth_providers.push(p);
                assert(self@ =~= ps.push(pm));
            },
        }
    }
}

/// Builds the adapter table from the configured providers. A provider whose
/// name is not registered is skipped; a malformed endpoint URL fails the build.
pub fn build_oauth_providers(oauth: &Vec<(String, OAuthSettings)>) -> (r: Result<AppState, ConfigError>)
    ensures
        match built_from(settings_view(oauth@)) {
            Ok(ps) => r is Ok && r->Ok_0@ == ps && r->Ok_0.wf(),
            Err((name, f)) => r is Err && r->Err_0.provider@ == name && r->Err_0.field == f,
        },
{
    let ghost entries = settings_view(oauth@);
    let mut table = AppState::new();
    let mut i: usize = 0;
    while i < oauth.len()
        invariant
            i <= oauth@.len(),
            entries == settings_view(oauth@),
            built_from(entries.subrange(0, i as int)) == Ok::<Seq<ProviderModel>, (Seq<char>, UrlField)>(table@),
            table.wf(),
        decreases oauth@.len() - i,
    {
        assert(entries.subrange(0, i as int + 1).drop_last() =~= entries.subrange(0, i as int));
        let (name, cfg) = (&oauth[i].0, &oauth[i].1);
        match cfg.first_invalid_url() {
            Some(f) => {
                proof {
                    lemma_build_error_stays(entries, i as int + 1);
                }
                return Err(ConfigError { provider: name.clone(), field: f });
            },
            None => {
                match ProviderKind::resolve(name.as_str()) {
                    Some(k) => {
                        table.insert(Provider { kind: k, settings: cfg.clone() });
                    },
                    None => {},
                }
            },
        }
        i = i + 1;
    }
    assert(entries.subrange(0, entries.len() as int) =~= entries);
    Ok(table)
}

} // verus!

verus! {

/// A result carrying a string, as values.
pub open spec fn url_view(r: Result<String, FlowError>) -> Result<Seq<char>, FlowError> {
    match r {
        Ok(u) => Ok(u@),
        Err(e) => Err(e),
    }
}

/// Initiation with the given PKCE verifier and CSRF token: the redirect URL
/// and the store afterwards. An unknown provider or a refused write leaves
/// the store as it was.
pub open spec fn initiate_outcome(
    ps: Seq<ProviderModel>,
    s: Seq<StoredFlow>,
    capacity: nat,
    provider: Seq<char>,
    session: Seq<char>,
    now: u64,
    verifier: Seq<char>,
    csrf: Seq<char>,
) -> (Result<Seq<char>, FlowError>, Seq<StoredFlow>) {
    match lookup(ps, provider) {
        None => (Err(FlowError::UnknownProvider), s),
        Some(p) => {
            let flow = FlowModel { provider, pkce_verifier: verifier, csrf_token: csrf };
            match put_outcome(s, capacity, session, flow, now) {
                None => (Err(FlowError::SessionWriteFailed), s),
                Some(s2) => (
                    Ok(
                        authorize_url_of(
                            p.settings.auth_url,
                            p.settings.client_id,
                            p.settings.redirect_uri,
                            kind_scopes(p.kind),
                            pkce_s256(verifier),
                            csrf,
                        ),
                    ),
                    s2,
                ),
            }
        },
    }
}

/// Starts a flow for `session` with the given PKCE verifier and CSRF token:
/// stores them and returns the provider's authorization URL, which carries
/// the token as `state` and the S256 challenge of the verifier.
pub fn initiate_with(
    state: &AppState,
    store: &mut FlowStore,
    params: &InitiateQueryParams,
    session: &str,
    now: u64,
    pkce_verifier: String,
    csrf_token: String,
) -> (r: Result<String, FlowError>)
    requires
        state.wf(),
        old(store).wf(),
        valid_pkce_verifier(pkce_verifier@),
    ensures
        final(store).wf(),
        final(store).capacity == old(store).capacity,
        (url_view(r), final(store)@) == initiate_outcome(
            state@,
            old(store)@,
            old(store).capacity as nat,
            params.provider@,
            session@,
            now,
            pkce_verifier@,
            csrf_token@,
        ),
{
    let provider = match state.find(params.provider.as_str()) {
        Some(p) => p,
        None => return Err(FlowError::UnknownProvider),
    };
    let scopes = provider.get_scopes();
    let url = authorize_url(&provider.settings, &scopes, pkce_verifier.as_str(), csrf_token.as_str());
    let flow = OAuthSessionState::new(params.provider.clone(), pkce_verifier, csrf_token);
    match store.put(session.to_owned(), flow, now) {
        Ok(()) => Ok(url),
        Err(e) => Err(e),
    }
}

/// Starts a flow for `session` with a fresh random PKCE verifier and CSRF
/// token. An unknown provider fails before anything is drawn or stored.
pub fn initiate(
    state: &AppState,
    store: &mut FlowStore,
    params: &InitiateQueryParams,
    session: &str,
    now: u64,
) -> (r: Result<String, FlowError>)
    requires
        state.wf(),
        old(store).wf(),
    ensures
        final(store).wf(),
        final(store).capacity == old(store).capacity,
        lookup(state@, params.provider@) is None ==> r == Err::<String, FlowError>(FlowError::UnknownProvider)
            && final(store)@ == old(store)@,
        exists|v: Seq<char>, c: Seq<char>|
            valid_pkce_verifier(v) && (url_view(r), final(store)@) == #[trigger] initiate_outcome(
                state@,
                old(store)@,
                old(store).capacity as nat,
                params.provider@,
                session@,
                now,
                v,
                c,
            ),
{
    if state.find(params.provider.as_str()).is_none() {
        proof {
            let v = Seq::new(43, |i: int| 'a');
            assert(valid_pkce_verifier(v));
            let _ = initiate_outcome(
                state@,
                old(store)@,
                old(store).capacity as nat,
                params.provider@,
                session@,
                now,
                v,
                v,
            );
        }
        return Err(FlowError::UnknownProvider);
    }
    let verifier = new_pkce_verifier();
    let csrf = new_csrf_token();
    initiate_with(state, store, params, session, now, verifier, csrf)
}

/// Compares two secrets in time that depends on their lengths only.
pub fn secrets_equal(a: &str, b: &str) -> (r: bool)
    ensures
        r == (a@ == b@),
{
    let n = a.unicode_len();
    let m = b.unicode_len();
    if n != m {
        return false;
    }
    let mut same = true;
    let mut i: usize = 0;
    assert(a@.subrange(0, 0) =~= b@.subrange(0, 0));
    while i < n
        invariant
            n == a@.len(),
            n == b@.len(),
            i <= n,
            same == (a@.subrange(0, i as int) == b@.subrange(0, i as int)),
        decreases n - i,
    {
        let x = a.get_char(i);
        let y = b.get_char(i);
        proof {
            assert(a@.subrange(0, i as int + 1) =~= a@.subrange(0, i as int).push(x));
            assert(b@.subrange(0, i as int + 1) =~= b@.subrange(0, i as int).push(y));
            if a@.subrange(0, i as int + 1) == b@.subrange(0, i as int + 1) {
                assert(a@.subrange(0, i as int + 1)[i as int] == b@.subrange(0, i as int + 1)[i as int]);
                assert(a@.subrange(0, i as int) =~= a@.subrange(0, i as int + 1).drop_last());
                assert(b@.subrange(0, i as int) =~= b@.subrange(0, i as int + 1).drop_last());
            }
        }
        same = if x == y { same } else { false };
        i = i + 1;
    }
    assert(a@.subrange(0, n as int) =~= a@);
    assert(b@.subrange(0, n as int) =~= b@);
    same
}

/// A token exchange the transport is to perform: the authorization code and
/// the PKCE verifier, for the adapter of the provider the flow started with.
pub struct TokenExchange {
    pub provider: Provider,
    pub code: String,
    pub pkce_verifier: String,
}

/// The first step of a callback, as values: the exchange to perform (adapter,
/// code, verifier) or the error, and the store afterwards. The session's flow
/// is consumed whatever the outcome.
pub open spec fn callback_outcome(
    ps: Seq<ProviderModel>,
    s: Seq<StoredFlow>,
    session: Seq<char>,
    code: Seq<char>,
    returned_state: Seq<char>,
    now: u64,
) -> (Result<(ProviderModel, Seq<char>, Seq<char>), FlowError>, Seq<StoredFlow>) {
    let (taken, rest) = take_outcome(s, session, now);
    match taken {
        None => (Err(FlowError::NoActiveFlow), rest),
        Some(f) => if returned_state != f.csrf_token {
            (Err(FlowError::CsrfMismatch), rest)
        } else {
            match lookup(ps, f.provider) {
                None => (Err(FlowError::UnknownProvider), rest),
                Some(p) => (Ok((p, code, f.pkce_verifier)), rest),
            }
        },
    }
}

/// A callback's first step, as values.
pub open spec fn exchange_view(r: Result<TokenExchange, FlowError>) -> Result<(ProviderModel, Seq<char>, Seq<char>), FlowError> {
    match r {
        Ok(x) => Ok((x.provider@, x.code@, x.pkce_verifier@)),
        Err(e) => Err(e),
    }
}

/// Processes the provider's redirect back to `session`: consumes the
/// session's flow, checks the returned `state` against its CSRF token, and
/// hands out the token exchange to perform. No exchange is handed out on any
/// failure.
pub fn begin_callback(
    state: &AppState,
    store: &mut FlowStore,
    session: &str,
    params: &CallbackQueryParams,
    now: u64,
) -> (r: Result<TokenExchange, FlowError>)
    requires
        state.wf(),
        old(store).wf(),
    ensures
        final(store).wf(),
        final(store).capacity == old(store).capacity,
        (exchange_view(r), final(store)@) == callback_outcome(
            state@,
            old(store)@,
            session@,
            params.code@,
            params.state@,
            now,
        ),
        r is Ok ==> r->Ok_0.provider.wf(),
{
    let flow = match store.take(session, now) {
        Some(f) => f,
        None => return Err(FlowError::NoActiveFlow),
    };
    if !secrets_equal(params.state.as_str(), flow.csrf_token.as_str()) {
        return Err(FlowError::CsrfMismatch);
    }
    match state.find(flow.provider.as_str()) {
        Some(p) => Ok(TokenExchange { provider: p.clone(), code: params.code.clone(), pkce_verifier: flow.pkce_verifier }),
        None => Err(FlowError::UnknownProvider),
    }
}

/// The second step of a callback: the access token the exchange produced, or
/// nothing where the token endpoint refused or could not be reached, turned
/// into the user-info request to make.
pub fn finish_exchange(exchange: &TokenExchange, access_token: Option<String>) -> (r: Result<UserInfoRequest, FlowError>)
    ensures
        match access_token {
            None => r == Err::<UserInfoRequest, FlowError>(FlowError::TokenExchangeFailed),
            Some(t) => r is Ok && r->Ok_0.url@ == exchange.provider.settings.user_info_url@
                && r->Ok_0.authorization@ == "Bearer "@ + t@
                && text_of(r->Ok_0.user_agent) == user_agent_of(exchange.provider.kind),
        },
{
    match access_token {
        None => Err(FlowError::TokenExchangeFailed),
        Some(t) => Ok(exchange.provider.user_info_request(t.as_str())),
    }
}

} // verus!

verus! {

/// A callback whose `state` differs from the session's stored CSRF token in
/// any way fails with `CsrfMismatch`, so no token exchange is handed out, and
/// the flow is consumed.
pub proof fn lemma_csrf_mismatch_rejected(
    ps: Seq<ProviderModel>,
    s: Seq<StoredFlow>,
    session: Seq<char>,
    code: Seq<char>,
    returned_state: Seq<char>,
    now: u64,
)
    requires
        take_outcome(s, session, now).0 is Some,
        returned_state != take_outcome(s, session, now).0->Some_0.csrf_token,
    ensures
        callback_outcome(ps, s, session, code, returned_state, now).0 == Err::<
            (ProviderModel, Seq<char>, Seq<char>),
            FlowError,
        >(FlowError::CsrfMismatch),
        callback_outcome(ps, s, session, code, returned_state, now).1 == take_outcome(s, session, now).1,
{
}

/// After one callback for a session, whatever its outcome, a second callback
/// for the same session fails with `NoActiveFlow`.
pub proof fn lemma_callback_single_use(
    ps: Seq<ProviderModel>,
    s: Seq<StoredFlow>,
    session: Seq<char>,
    code: Seq<char>,
    returned_state: Seq<char>,
    now: u64,
    code2: Seq<char>,
    returned_state2: Seq<char>,
    later: u64,
)
    requires
        sessions_unique(s),
    ensures
        callback_outcome(
            ps,
            callback_outcome(ps, s, session, code, returned_state, now).1,
            session,
            code2,
            returned_state2,
            later,
        ).0 == Err::<(ProviderModel, Seq<char>, Seq<char>), FlowError>(FlowError::NoActiveFlow),
{
    lemma_take_consumes(s, session, now, later);
}

/// Initiation with a provider name that is not configured fails with
/// `UnknownProvider` and writes no flow state.
pub proof fn lemma_unknown_provider_rejected(
    ps: Seq<ProviderModel>,
    s: Seq<StoredFlow>,
    capacity: nat,
    provider: Seq<char>,
    session: Seq<char>,
    now: u64,
    verifier: Seq<char>,
    csrf: Seq<char>,
)
    requires
        lookup(ps, provider) is None,
    ensures
        initiate_outcome(ps, s, capacity, provider, session, now, verifier, csrf) == (
            Err::<Seq<char>, FlowError>(FlowError::UnknownProvider),
            s,
        ),
{
}

/// A successful initiation leaves the session's flow reachable, and the
/// returned URL carries that flow's CSRF token as `state` and the S256
/// challenge of that flow's verifier.
pub proof fn lemma_initiate_binds_stored_flow(
    ps: Seq<ProviderModel>,
    s: Seq<StoredFlow>,
    capacity: nat,
    provider: Seq<char>,
    session: Seq<char>,
    now: u64,
    verifier: Seq<char>,
    csrf: Seq<char>,
)
    requires
        sessions_unique(s),
        initiate_outcome(ps, s, capacity, provider, session, now, verifier, csrf).0 is Ok,
    ensures
        ({
            let (r, s2) = initiate_outcome(ps, s, capacity, provider, session, now, verifier, csrf);
            let p = lookup(ps, provider)->Some_0;
            let f = take_outcome(s2, session, now).0->Some_0;
            &&& take_outcome(s2, session, now).0 is Some
            &&& f.provider == provider
            &&& r == Ok::<Seq<char>, FlowError>(
                authorize_url_of(
                    p.settings.auth_url,
                    p.settings.client_id,
                    p.settings.redirect_uri,
                    kind_scopes(p.kind),
                    pkce_s256(f.pkce_verifier),
                    f.csrf_token,
                ),
            )
        }),
{
    let flow = FlowModel { provider, pkce_verifier: verifier, csrf_token: csrf };
    lemma_put_stores(s, capacity, session, flow, now);
}

} // verus!
