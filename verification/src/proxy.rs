//! The proxy's side of the handshake: building the authorization URL, and the
//! sequence that turns the authorization server's callback into a redirect to
//! the client's listener.
//!
//! The redirect target is computed for each request from the immutable
//! configuration and the client's port. Nothing is stored between requests, so
//! two `start` requests cannot disturb each other.

use vstd::prelude::*;
use vstd::string::*;
use crate::codec::{
    completion_pairs, decode_finish, embeds, encode_completion, find_values, finish_of,
    form_decoded, form_encoded, pairs_model, single_value, values_of, MalformedFinish,
};
use crate::msgs::{
    bare_reply, get_redirect_page, opt_text, redirect_page_model, AccessToken, AuthorizationCode,
    CompletionModel, CsrfToken, FinParams, FinParamsModel, FinResponse, GenParams, HttpReply,
    ReplyModel,
};
use crate::server::Provider;
use crate::text::{decimal, decimal_string, strip_trailing_slash, without_trailing_slash};

verus! {

/// What the proxy is started with.
#[derive(Debug, Clone, PartialEq, Eq)]
pub struct Config {
    /// OAuth 2.0 client identifier.
    pub client_id: String,
    /// OAuth 2.0 client secret. It never leaves the proxy.
    pub client_secret: String,
    /// Port on which the proxy listens.
    pub port: u16,
    /// The authorization server.
    pub oauth_provider: Provider,
    /// The proxy's own base URL, as the authorization server reaches it.
    pub proxy_url: String,
    /// Scopes to ask for.
    pub scopes: Vec<String>,
    /// Where the browser is sent once the client has its result.
    pub welcome_redirect: Option<String>,
}

/// The long-lived OAuth client identity. It is fixed once built: nothing in
/// it can be set from outside, and no method changes it.
#[derive(Debug, Clone, PartialEq, Eq)]
pub struct OAuthExecutor {
    client_id: String,
    client_secret: String,
    auth_url: String,
    token_url: String,
    scopes: Vec<String>,
    proxy_url: String,
}

/// A client identity as the contracts see it.
pub ghost struct EngineModel {
    pub client_id: Seq<char>,
    pub client_secret: Seq<char>,
    pub auth_url: Seq<char>,
    pub token_url: Seq<char>,
    pub scopes: Seq<Seq<char>>,
    pub proxy_url: Seq<char>,
}

impl View for OAuthExecutor {
    type V = EngineModel;

    closed spec fn view(&self) -> EngineModel {
        EngineModel {
            client_id: self.client_id@,
            client_secret: self.client_secret@,
            auth_url: self.auth_url@,
            token_url: self.token_url@,
            scopes: texts(self.scopes@),
            proxy_url: self.proxy_url@,
        }
    }
}

/// The client identity that a configuration gives.
pub open spec fn engine_of(config: Config) -> EngineModel {
    EngineModel {
        client_id: config.client_id@,
        client_secret: config.client_secret@,
        auth_url: config.oauth_provider.urls().0,
        token_url: config.oauth_provider.urls().1,
        scopes: texts(config.scopes@),
        proxy_url: config.proxy_url@,
    }
}

/// What `generate_authorization_url` returns for a client identity.
pub open spec fn authorization_url(
    engine: EngineModel,
    csrf_token: Seq<char>,
    client_port: u16,
) -> Result<Seq<char>, EngineError> {
    let redirect = redirect_target(engine.proxy_url, client_port);
    match oauth_authorize_url(
        engine.client_id,
        engine.auth_url,
        redirect,
        engine.scopes,
        csrf_token,
    ) {
        None => Err(EngineError::InvalidUrl),
        Some(url) => checked_url(url, url_query_pairs(url), csrf_token, redirect, engine.scopes),
    }
}

/// Why no authorization URL was produced.
#[derive(Debug, Clone, Copy, PartialEq, Eq, Structural)]
pub enum EngineError {
    /// The authorize endpoint or the redirect target is no URL.
    InvalidUrl,
    /// The URL does not carry the nonce as its one `state`.
    StateNotEmbedded,
    /// The URL does not carry the redirect target as its one `redirect_uri`.
    RedirectNotEmbedded,
    /// The URL does not ask for exactly the configured scopes.
    ScopesNotEmbedded,
}

/// Why a code brought no token.
#[derive(Debug, Clone, Copy, PartialEq, Eq, Structural)]
pub enum ExchangeError {
    /// The token endpoint could not be reached.
    Network,
    /// The token endpoint answered outside 2xx.
    Provider,
    /// The token endpoint's answer held no usable token.
    MalformedToken,
}

/// The session handler could not turn the token into a result.
#[derive(Debug, Clone, Copy, PartialEq, Eq, Structural)]
pub struct SessionHandlerError {}

/// The access token as it is handed to the session handler.
#[derive(Debug, Clone, PartialEq, Eq)]
pub struct Token {
    pub token: AccessToken,
}

impl Token {
    pub fn access_token(&self) -> (r: &AccessToken)
        ensures
            r == &self.token,
    {
        &self.token
    }
}

/// Turns an access token into the result that the client is to receive, as
/// text that travels in a query string. It is called once per handshake and
/// may fail.
pub trait SessionHandler {
    fn handle(&self, token: Token) -> Result<String, SessionHandlerError>;
}

/// The URL that oauth2's `Client::authorize_url(..).url()` builds for a
/// client with this identifier, authorize endpoint and redirect target, with
/// these scopes added and this `state`; `None` where the endpoint or the
/// target does not parse as a URL.
pub uninterp spec fn oauth_authorize_url(
    client_id: Seq<char>,
    auth_url: Seq<char>,
    redirect: Seq<char>,
    scopes: Seq<Seq<char>>,
    state: Seq<char>,
) -> Option<Seq<char>>;

/// The query pairs that `url::Url::query_pairs` reads from a URL; `None` where
/// `url::Url::parse` refuses the text.
pub uninterp spec fn url_query_pairs(url: Seq<char>) -> Option<Seq<(Seq<char>, Seq<char>)>>;

/// A list of strings as a sequence of texts.
pub open spec fn texts(v: Seq<String>) -> Seq<Seq<char>> {
    v.map_values(|s: String| s@)
}

/// An optional list of owned pairs as the contracts see it.
pub open spec fn opt_pairs(p: Option<Vec<(String, String)>>) -> Option<
    Seq<(Seq<char>, Seq<char>)>,
> {
    match p {
        Some(v) => Some(pairs_model(v@)),
        None => None,
    }
}

/// oauth2's `BasicClient::new`, `set_redirect_uri`, `authorize_url`,
/// `add_scopes` and `url`, in that order, on values built from the arguments
/// by the crate's own constructors. The client is given no secret and no token
/// endpoint: neither enters the URL. The result is the URL as text, or `None`
/// where `AuthUrl::new` or `RedirectUrl::new` reports a parse error.
#[verifier::external_body]
fn authorize_url(
    client_id: &str,
    auth_url: &str,
    redirect: &str,
    scopes: &Vec<String>,
    state: &str,
) -> (r: Option<String>)
    ensures
        opt_text(r) == oauth_authorize_url(
            client_id@,
            auth_url@,
            redirect@,
            texts(scopes@),
            state@,
        ),
{
    let auth = oauth2::AuthUrl::new(auth_url.to_string()).ok()?;
    let target = oauth2::RedirectUrl::new(redirect.to_string()).ok()?;
    let id = oauth2::ClientId::new(client_id.to_string());
    let token = oauth2::CsrfToken::new(state.to_string());
    let wanted = scopes.iter().cloned().map(oauth2::Scope::new);
    let client = oauth2::basic::BasicClient::new(id, None, auth, None).set_redirect_uri(target);
    Some(client.authorize_url(|| token).add_scopes(wanted).url().0.to_string())
}

/// `url::Url::parse`, then `Url::query_pairs` with each pair made owned, in
/// the order in which the URL holds them; `None` where the text does not
/// parse.
#[verifier::external_body]
fn query_pairs(url: &str) -> (r: Option<Vec<(String, String)>>)
    ensures
        opt_pairs(r) == url_query_pairs(url@),
{
    let parsed = url::Url::parse(url).ok()?;
    Some(parsed.query_pairs().into_owned().collect())
}

/// Where the authorization server is to send the browser back: the proxy's
/// `finish` route, with the client's port in the query.
pub open spec fn redirect_target(proxy_url: Seq<char>, client_port: u16) -> Seq<char> {
    without_trailing_slash(proxy_url) + "/oauth-cli/finish?client_port="@ + decimal(
        client_port as nat,
    )
}

/// What becomes of a URL that the OAuth client built, given the query pairs
/// read back from it: it is handed on only if it carries the nonce as `state`,
/// the redirect target as `redirect_uri`, and the configured scopes.
pub open spec fn checked_url(
    url: Seq<char>,
    pairs: Option<Seq<(Seq<char>, Seq<char>)>>,
    state: Seq<char>,
    redirect: Seq<char>,
    scopes: Seq<Seq<char>>,
) -> Result<Seq<char>, EngineError> {
    match pairs {
        None => Err(EngineError::InvalidUrl),
        Some(p) => if !embeds(p, "state"@, state) {
            Err(EngineError::StateNotEmbedded)
        } else if !embeds(p, "redirect_uri"@, redirect) {
            Err(EngineError::RedirectNotEmbedded)
        } else if !carries_scopes(p, scopes) {
            Err(EngineError::ScopesNotEmbedded)
        } else {
            Ok(url)
        },
    }
}

/// A produced URL, or the error, as the contracts see it.
pub open spec fn url_model(r: Result<String, EngineError>) -> Result<Seq<char>, EngineError> {
    match r {
        Ok(u) => Ok(u@),
        Err(e) => Err(e),
    }
}

/// Whether `pairs` gives `key` exactly the value `value`.
fn has_single(pairs: &Vec<(String, String)>, key: &str, value: &str) -> (r: bool)
    ensures
        r == embeds(pairs_model(pairs@), key@, value@),
{
    let (count, found) = find_values(pairs, key);
    if count == 1 {
        let expected: String = String::from_str(value);
        found.unwrap() == expected
    } else {
        false
    }
}

/// Scopes as the one value that travels: in order, a space between each two.
pub open spec fn joined_scopes(scopes: Seq<Seq<char>>) -> Seq<char>
    decreases scopes.len(),
{
    if scopes.len() == 0 {
        Seq::empty()
    } else if scopes.len() == 1 {
        scopes[0]
    } else {
        joined_scopes(scopes.drop_last()) + seq![' '] + scopes.last()
    }
}

/// Whether `pairs` asks for exactly these scopes: as the one value of `scope`,
/// or, where there is nothing to ask for, by having no `scope` at all.
pub open spec fn carries_scopes(pairs: Seq<(Seq<char>, Seq<char>)>, scopes: Seq<Seq<char>>) -> bool {
    if joined_scopes(scopes).len() == 0 {
        values_of(pairs, "scope"@).len() == 0
    } else {
        embeds(pairs, "scope"@, joined_scopes(scopes))
    }
}

/// Joins scopes into the one value that travels.
pub fn join_scopes(scopes: &Vec<String>) -> (r: String)
    ensures
        r@ == joined_scopes(texts(scopes@)),
{
    let mut out: String = String::new();
    let mut i: usize = 0;
    assert(texts(scopes@).take(0) =~= Seq::empty());
    while i < scopes.len()
        invariant
            i <= scopes.len(),
            out@ == joined_scopes(texts(scopes@).take(i as int)),
        decreases scopes.len() - i,
    {
        let ghost all = texts(scopes@);
        assert(all.take(i + 1).drop_last() =~= all.take(i as int));
        assert(all.take(i + 1).last() == scopes@[i as int]@);
        if i > 0 {
            proof {
                reveal_strlit(" ");
            }
            out.append(" ");
            assert(" "@ =~= seq![' ']);
        } else {
            assert(all.take(1)[0] == scopes@[0]@);
            assert(out@ =~= Seq::<char>::empty());
        }
        out.append(scopes[i].as_str());
        assert(out@ =~= joined_scopes(all.take(i + 1)));
        i = i + 1;
    }
    assert(texts(scopes@).take(i as int) =~= texts(scopes@));
    out
}

/// Whether `pairs` asks for exactly these scopes.
fn has_scopes(pairs: &Vec<(String, String)>, scopes: &Vec<String>) -> (r: bool)
    ensures
        r == carries_scopes(pairs_model(pairs@), texts(scopes@)),
{
    let joined: String = join_scopes(scopes);
    if joined.as_str().unicode_len() == 0 {
        let (count, _) = find_values(pairs, "scope");
        count == 0
    } else {
        has_single(pairs, "scope", joined.as_str())
    }
}

/// Hands on a URL that the OAuth client built, if the pairs read back from it
/// carry the nonce, the redirect target and the scopes.
pub fn check_authorization_url(
    url: String,
    pairs: &Option<Vec<(String, String)>>,
    state: &str,
    redirect: &str,
    scopes: &Vec<String>,
) -> (r: Result<String, EngineError>)
    ensures
        url_model(r) == checked_url(
            url@,
            opt_pairs(*pairs),
            state@,
            redirect@,
            texts(scopes@),
        ),
{
    match pairs {
        None => Err(EngineError::InvalidUrl),
        Some(p) => {
            if !has_single(p, "state", state) {
                Err(EngineError::StateNotEmbedded)
            } else if !has_single(p, "redirect_uri", redirect) {
                Err(EngineError::RedirectNotEmbedded)
            } else if !has_scopes(p, scopes) {
                Err(EngineError::ScopesNotEmbedded)
            } else {
                Ok(url)
            }
        },
    }
}

impl OAuthExecutor {
    /// Takes the client identity out of the configuration. The provider is
    /// resolved to its two endpoints here, once.
    pub fn from_config(config: Config) -> (r: Self)
        ensures
            r@ == engine_of(config),
    {
        let Config {
            client_id,
            client_secret,
            port: _,
            oauth_provider,
            proxy_url,
            scopes,
            welcome_redirect: _,
        } = config;
        let (auth_url, token_url) = oauth_provider.into_urls();
        OAuthExecutor { client_id, client_secret, auth_url, token_url, scopes, proxy_url }
    }

    pub fn client_id(&self) -> (r: &str)
        ensures
            r@ == self@.client_id,
    {
        self.client_id.as_str()
    }

    pub fn client_secret(&self) -> (r: &str)
        ensures
            r@ == self@.client_secret,
    {
        self.client_secret.as_str()
    }

    pub fn auth_url(&self) -> (r: &str)
        ensures
            r@ == self@.auth_url,
    {
        self.auth_url.as_str()
    }

    pub fn token_url(&self) -> (r: &str)
        ensures
            r@ == self@.token_url,
    {
        self.token_url.as_str()
    }

    pub fn scopes(&self) -> (r: &Vec<String>)
        ensures
            texts(r@) == self@.scopes,
    {
        &self.scopes
    }

    pub fn proxy_url(&self) -> (r: &str)
        ensures
            r@ == self@.proxy_url,
    {
        self.proxy_url.as_str()
    }

    /// The redirect target for a client that listens on `client_port`.
    pub fn redirect_url(&self, client_port: u16) -> (r: String)
        ensures
            r@ == redirect_target(self@.proxy_url, client_port),
    {
        let mut target: String = strip_trailing_slash(self.proxy_url.as_str());
        target.append("/oauth-cli/finish?client_port=");
        let port: String = decimal_string(client_port);
        target.append(port.as_str());
        target
    }

    /// Builds the URL that the user is to visit. The OAuth client builds it
    /// from the stored identity, the redirect target for `client_port` and the
    /// nonce as `state`. It is handed on only after its query, read back,
    /// shows that nonce and that target.
    pub fn generate_authorization_url(&self, csrf_token: &CsrfToken, client_port: u16) -> (r:
        Result<String, EngineError>)
        ensures
            url_model(r) == authorization_url(self@, csrf_token@, client_port),
            r is Ok ==> url_query_pairs(r.unwrap()@) is Some && embeds(
                url_query_pairs(r.unwrap()@).unwrap(),
                "state"@,
                csrf_token@,
            ) && embeds(
                url_query_pairs(r.unwrap()@).unwrap(),
                "redirect_uri"@,
                redirect_target(self@.proxy_url, client_port),
            ) && carries_scopes(url_query_pairs(r.unwrap()@).unwrap(), self@.scopes),
    {
        let redirect: String = self.redirect_url(client_port);
        let built: Option<String> = authorize_url(
            self.client_id.as_str(),
            self.auth_url.as_str(),
            redirect.as_str(),
            &self.scopes,
            csrf_token.secret(),
        );
        match built {
            None => Err(EngineError::InvalidUrl),
            Some(url) => {
                let pairs: Option<Vec<(String, String)>> = query_pairs(url.as_str());
                check_authorization_url(
                    url,
                    &pairs,
                    csrf_token.secret(),
                    redirect.as_str(),
                    &self.scopes,
                )
            },
        }
    }
}

/// The longest query that is still sent as a `Location` header, in
/// characters. A longer one travels in a page that redirects.
pub const MAX_REDIRECT_QUERY: usize = 2000;

/// The answer of the `start` route: the URL as the body, or 500 with nothing
/// in it.
pub open spec fn start_reply(outcome: Result<Seq<char>, EngineError>) -> ReplyModel {
    match outcome {
        Ok(url) => ReplyModel { status: 200, location: None, close: false, body: url },
        Err(_) => bare_reply(500, false),
    }
}

/// Answers a `start` request from the engine's outcome.
pub fn start_response(outcome: Result<String, EngineError>) -> (r: HttpReply)
    ensures
        r@ == start_reply(url_model(outcome)),
{
    match outcome {
        Ok(url) => HttpReply { status: 200, location: None, close: false, body: url },
        Err(_) => HttpReply::bare(500, false),
    }
}

/// The `start` route: asks the engine for the authorization URL and answers
/// with it.
pub fn oauth_gen(engine: &OAuthExecutor, params: &GenParams) -> (r: HttpReply)
    ensures
        r@ == start_reply(authorization_url(engine@, params.csrf_token@, params.client_port)),
{
    start_response(engine.generate_authorization_url(&params.csrf_token, params.client_port))
}

/// The URL of the client's listener, with the completion payload as its
/// query.
pub open spec fn client_url(client_port: u16, query: Seq<char>) -> Seq<char> {
    "http://localhost:"@ + decimal(client_port as nat) + "/?"@ + query
}

/// How the browser is sent to the client's listener: by a 303, or, where the
/// query is too long for a header, by a page.
pub open spec fn redirect_reply(url: Seq<char>, query_len: nat) -> ReplyModel {
    if query_len <= MAX_REDIRECT_QUERY {
        ReplyModel { status: 303, location: Some(url), close: false, body: Seq::empty() }
    } else {
        ReplyModel { status: 200, location: None, close: false, body: redirect_page_model(url) }
    }
}

/// The answer of the `finish` route once the session handler has returned.
pub open spec fn finish_reply(
    csrf_token: Seq<char>,
    client_port: u16,
    outcome: Result<Seq<char>, SessionHandlerError>,
    welcome_redirect: Option<Seq<char>>,
) -> ReplyModel {
    match outcome {
        Err(_) => bare_reply(500, false),
        Ok(response) => {
            let query = form_encoded(
                completion_pairs(CompletionModel { csrf_token, response, welcome_redirect }),
            );
            redirect_reply(client_url(client_port, query), query.len())
        },
    }
}

/// A session handler's outcome as the contracts see it.
pub open spec fn handled_model(r: Result<String, SessionHandlerError>) -> Result<
    Seq<char>,
    SessionHandlerError,
> {
    match r {
        Ok(s) => Ok(s@),
        Err(e) => Err(e),
    }
}

/// An exchange's outcome as the contracts see it.
pub open spec fn exchanged_model(r: Result<AccessToken, ExchangeError>) -> Result<
    Seq<char>,
    ExchangeError,
> {
    match r {
        Ok(t) => Ok(t@),
        Err(e) => Err(e),
    }
}

/// Builds the answer that carries the session handler's outcome to the
/// client: a redirect to its listener, or 500 with nothing in it.
pub fn finish_response(
    csrf_token: CsrfToken,
    client_port: u16,
    outcome: Result<String, SessionHandlerError>,
    welcome_redirect: Option<String>,
) -> (r: HttpReply)
    ensures
        r@ == finish_reply(
            csrf_token@,
            client_port,
            handled_model(outcome),
            opt_text(welcome_redirect),
        ),
{
    match outcome {
        Err(_) => HttpReply::bare(500, false),
        Ok(response) => {
            let payload = FinResponse { csrf_token, response, welcome_redirect };
            let query: String = encode_completion(&payload);
            let port: String = decimal_string(client_port);
            let mut url: String = String::from_str("http://localhost:");
            url.append(port.as_str());
            url.append("/?");
            url.append(query.as_str());
            if query.as_str().unicode_len() <= MAX_REDIRECT_QUERY {
                HttpReply { status: 303, location: Some(url), close: false, body: String::new() }
            } else {
                let page: String = get_redirect_page(url.as_str());
                HttpReply { status: 200, location: None, close: false, body: page }
            }
        },
    }
}

/// Where one `finish` request stands.
#[derive(Debug, Clone, PartialEq, Eq)]
pub enum FinishState {
    /// The code has been handed out for exchange.
    AwaitingExchange { csrf_token: CsrfToken, client_port: u16 },
    /// The token has been handed to the session handler.
    AwaitingHandler { csrf_token: CsrfToken, client_port: u16 },
    /// The browser has its answer.
    Done,
}

/// What came back from the work that the last action asked for.
#[derive(Debug, PartialEq, Eq)]
pub enum FinishEvent {
    Exchanged(Result<AccessToken, ExchangeError>),
    Handled(Result<String, SessionHandlerError>),
}

/// What is to be done next for a `finish` request.
#[derive(Debug, Clone, PartialEq, Eq)]
pub enum FinishAction {
    /// Exchange this code at the token endpoint, once.
    ExchangeCode(AuthorizationCode),
    /// Call the session handler with this token, once.
    InvokeHandler(Token),
    /// Send this answer to the browser.
    Respond(HttpReply),
}

pub ghost enum FinishStateModel {
    AwaitingExchange { csrf_token: Seq<char>, client_port: u16 },
    AwaitingHandler { csrf_token: Seq<char>, client_port: u16 },
    Done,
}

pub ghost enum FinishEventModel {
    Exchanged(Result<Seq<char>, ExchangeError>),
    Handled(Result<Seq<char>, SessionHandlerError>),
}

pub ghost enum FinishActionModel {
    ExchangeCode(Seq<char>),
    InvokeHandler(Seq<char>),
    Respond(ReplyModel),
}

impl View for FinishState {
    type V = FinishStateModel;

    open spec fn view(&self) -> FinishStateModel {
        match *self {
            FinishState::AwaitingExchange { csrf_token, client_port } => {
                FinishStateModel::AwaitingExchange { csrf_token: csrf_token@, client_port }
            },
            FinishState::AwaitingHandler { csrf_token, client_port } => {
                FinishStateModel::AwaitingHandler { csrf_token: csrf_token@, client_port }
            },
            FinishState::Done => FinishStateModel::Done,
        }
    }
}

impl View for FinishEvent {
    type V = FinishEventModel;

    open spec fn view(&self) -> FinishEventModel {
        match *self {
            FinishEvent::Exchanged(r) => FinishEventModel::Exchanged(exchanged_model(r)),
            FinishEvent::Handled(r) => FinishEventModel::Handled(handled_model(r)),
        }
    }
}

impl View for FinishAction {
    type V = FinishActionModel;

    open spec fn view(&self) -> FinishActionModel {
        match *self {
            FinishAction::ExchangeCode(code) => FinishActionModel::ExchangeCode(code@),
            FinishAction::InvokeHandler(token) => FinishActionModel::InvokeHandler(token.token@),
            FinishAction::Respond(reply) => FinishActionModel::Respond(reply@),
        }
    }
}

/// How a `finish` request begins: the code goes out for exchange, and the
/// nonce and the port are kept for the answer.
pub open spec fn finish_begin(
    csrf_token: Seq<char>,
    client_port: u16,
    code: Seq<char>,
) -> (FinishStateModel, FinishActionModel) {
    (
        FinishStateModel::AwaitingExchange { csrf_token, client_port },
        FinishActionModel::ExchangeCode(code),
    )
}

/// How a `finish` request goes on. A token goes to the session handler; the
/// handler's result goes to the browser as a redirect; every failure, and
/// every event that the state does not wait for, ends the request with 500.
pub open spec fn finish_transition(
    state: FinishStateModel,
    event: FinishEventModel,
    welcome_redirect: Option<Seq<char>>,
) -> (FinishStateModel, FinishActionModel) {
    match (state, event) {
        (
            FinishStateModel::AwaitingExchange { csrf_token, client_port },
            FinishEventModel::Exchanged(Ok(token)),
        ) => (
            FinishStateModel::AwaitingHandler { csrf_token, client_port },
            FinishActionModel::InvokeHandler(token),
        ),
        (
            FinishStateModel::AwaitingHandler { csrf_token, client_port },
            FinishEventModel::Handled(outcome),
        ) => (
            FinishStateModel::Done,
            FinishActionModel::Respond(
                finish_reply(csrf_token, client_port, outcome, welcome_redirect),
            ),
        ),
        _ => (FinishStateModel::Done, FinishActionModel::Respond(bare_reply(500, false))),
    }
}

/// The `finish` route, first step: takes the callback's parameters and asks
/// for the code to be exchanged.
pub fn oauth_fin(params: FinParams) -> (r: (FinishState, FinishAction))
    ensures
        (r.0@, r.1@) == finish_begin(params.csrf_token@, params.client_port, params.code@),
{
    let FinParams { csrf_token, client_port, code } = params;
    (FinishState::AwaitingExchange { csrf_token, client_port }, FinishAction::ExchangeCode(code))
}

/// How a request to the `finish` route begins, by its query: a query that is
/// no callback is answered with 400 at once, and nothing is exchanged.
pub open spec fn finish_request_begin(decoded: Result<FinParamsModel, MalformedFinish>) -> (
    FinishStateModel,
    FinishActionModel,
) {
    match decoded {
        Ok(p) => finish_begin(p.csrf_token, p.client_port, p.code),
        Err(_) => (FinishStateModel::Done, FinishActionModel::Respond(bare_reply(400, false))),
    }
}

/// The `finish` route, first step, from the request's query string.
pub fn finish_request(query: &str) -> (r: (FinishState, FinishAction))
    ensures
        (r.0@, r.1@) == finish_request_begin(finish_of(form_decoded(query@))),
{
    match decode_finish(query) {
        Ok(params) => oauth_fin(params),
        Err(_) => (FinishState::Done, FinishAction::Respond(HttpReply::bare(400, false))),
    }
}

/// The `finish` route, every later step: takes what the last action brought
/// and says what is next.
pub fn finish_step(state: FinishState, event: FinishEvent, welcome_redirect: Option<String>) -> (r:
    (FinishState, FinishAction))
    ensures
        (r.0@, r.1@) == finish_transition(state@, event@, opt_text(welcome_redirect)),
{
    match (state, event) {
        (
            FinishState::AwaitingExchange { csrf_token, client_port },
            FinishEvent::Exchanged(Ok(token)),
        ) => (
            FinishState::AwaitingHandler { csrf_token, client_port },
            FinishAction::InvokeHandler(Token { token }),
        ),
        (FinishState::AwaitingHandler { csrf_token, client_port }, FinishEvent::Handled(outcome)) => {
            let reply: HttpReply = finish_response(
                csrf_token,
                client_port,
                outcome,
                welcome_redirect,
            );
            (FinishState::Done, FinishAction::Respond(reply))
        },
        _ => (FinishState::Done, FinishAction::Respond(HttpReply::bare(500, false))),
    }
}

/// Calls the session handler with the token, once. The event is `Handled`,
/// and what it carries is an outcome of this handler's `handle` on this token.
pub fn invoke_handler<H: SessionHandler>(handler: &H, token: Token) -> (r: FinishEvent)
    ensures
        r matches FinishEvent::Handled(outcome) && call_ensures(
            H::handle,
            (handler, token),
            outcome,
        ),
{
    FinishEvent::Handled(handler.handle(token))
}

/// The actions of a `finish` request that begins with `code` and then sees
/// `events`, in order, with the state in which it ends.
pub open spec fn finish_run(
    state: FinishStateModel,
    events: Seq<FinishEventModel>,
    welcome_redirect: Option<Seq<char>>,
) -> (FinishStateModel, Seq<FinishActionModel>)
    decreases events.len(),
{
    if events.len() == 0 {
        (state, Seq::empty())
    } else {
        let before = finish_run(state, events.drop_last(), welcome_redirect);
        let step = finish_transition(before.0, events.last(), welcome_redirect);
        (step.0, before.1.push(step.1))
    }
}

/// No step after the first asks for an exchange: whatever events arrive, in
/// whatever state, the code of a request goes to the token endpoint once, at
/// the beginning, and is never sent again.
pub proof fn lemma_code_exchanged_once(
    state: FinishStateModel,
    events: Seq<FinishEventModel>,
    welcome_redirect: Option<Seq<char>>,
)
    ensures
        forall|i: int|
            0 <= i < finish_run(state, events, welcome_redirect).1.len() ==> !(#[trigger] finish_run(
                state,
                events,
                welcome_redirect,
            ).1[i] is ExchangeCode),
        finish_run(state, events, welcome_redirect).1.len() == events.len(),
    decreases events.len(),
{
    if events.len() > 0 {
        lemma_code_exchanged_once(state, events.drop_last(), welcome_redirect);
    }
}

/// The session handler is asked only in answer to a successful exchange, and
/// with the token that the exchange brought.
pub proof fn lemma_handler_gets_exchanged_token(
    state: FinishStateModel,
    event: FinishEventModel,
    welcome_redirect: Option<Seq<char>>,
)
    ensures
        finish_transition(state, event, welcome_redirect).1 is InvokeHandler ==> state
            is AwaitingExchange && event == FinishEventModel::Exchanged(
            Ok(finish_transition(state, event, welcome_redirect).1->InvokeHandler_0),
        ),
{
}

/// A failed exchange or a failed handler is answered with 500 and an empty
/// body: nothing of the code, the token or the provider's answer is in it.
pub proof fn lemma_failure_is_opaque(
    state: FinishStateModel,
    event: FinishEventModel,
    welcome_redirect: Option<Seq<char>>,
)
    requires
        event matches FinishEventModel::Exchanged(Err(_)) || event matches FinishEventModel::Handled(
            Err(_),
        ),
    ensures
        finish_transition(state, event, welcome_redirect) == (
            FinishStateModel::Done,
            FinishActionModel::Respond(bare_reply(500, false)),
        ),
{
}

/// The redirect target ends in the client's port, written in decimal, and
/// the authorization URL carries that target, the nonce and the scopes.
pub proof fn lemma_authorization_url_embeds(
    engine: EngineModel,
    csrf_token: Seq<char>,
    client_port: u16,
)
    requires
        authorization_url(engine, csrf_token, client_port) is Ok,
    ensures
        ({
            let url = authorization_url(engine, csrf_token, client_port).unwrap();
            let target = redirect_target(engine.proxy_url, client_port);
            let port = decimal(client_port as nat);
            &&& url_query_pairs(url) is Some
            &&& single_value(url_query_pairs(url).unwrap(), "state"@) == Some(csrf_token)
            &&& single_value(url_query_pairs(url).unwrap(), "redirect_uri"@) == Some(target)
            &&& carries_scopes(url_query_pairs(url).unwrap(), engine.scopes)
            &&& target.len() >= port.len()
            &&& target.subrange(target.len() - port.len(), target.len() as int) == port
        }),
{
    let target = redirect_target(engine.proxy_url, client_port);
    let port = decimal(client_port as nat);
    assert(target.subrange(target.len() - port.len(), target.len() as int) =~= port);
}

/// Clients on different ports get different redirect targets.
pub proof fn lemma_redirect_target_tells_ports_apart(proxy_url: Seq<char>, a: u16, b: u16)
    requires
        redirect_target(proxy_url, a) == redirect_target(proxy_url, b),
    ensures
        a == b,
{
    let head = without_trailing_slash(proxy_url) + "/oauth-cli/finish?client_port="@;
    let ta = redirect_target(proxy_url, a);
    let tb = redirect_target(proxy_url, b);
    assert(ta.subrange(head.len() as int, ta.len() as int) =~= decimal(a as nat));
    assert(tb.subrange(head.len() as int, tb.len() as int) =~= decimal(b as nat));
    crate::text::lemma_decimal_injective(a as nat, b as nat);
}

/// A `finish` request that goes well sends the browser to the port that the
/// callback named, with the nonce that the callback carried and the result
/// that the session handler gave: the token is exchanged for once, the
/// handler is asked once, and neither the code nor the token is in the
/// answer's making.
pub proof fn lemma_finish_carries_nonce_and_result(
    callback: FinParamsModel,
    token: Seq<char>,
    response: Seq<char>,
    welcome_redirect: Option<Seq<char>>,
)
    ensures
        ({
            let begun = finish_begin(callback.csrf_token, callback.client_port, callback.code);
            let exchanged = finish_transition(
                begun.0,
                FinishEventModel::Exchanged(Ok(token)),
                welcome_redirect,
            );
            let handled = finish_transition(
                exchanged.0,
                FinishEventModel::Handled(Ok(response)),
                welcome_redirect,
            );
            let query = form_encoded(
                completion_pairs(
                    CompletionModel {
                        csrf_token: callback.csrf_token,
                        response,
                        welcome_redirect,
                    },
                ),
            );
            &&& begun.1 == FinishActionModel::ExchangeCode(callback.code)
            &&& exchanged.1 == FinishActionModel::InvokeHandler(token)
            &&& handled.0 == FinishStateModel::Done
            &&& handled.1 == FinishActionModel::Respond(
                redirect_reply(client_url(callback.client_port, query), query.len()),
            )
        }),
{
}

} // verus!
