//! The client's side of the handshake: the single-shot listener that takes
//! the completion request, and the sequence that leads up to it.
//!
//! Both are written as transitions on plain values. The program around the
//! library binds the socket, talks to the proxy, opens the browser and waits;
//! after each of these it reports what happened and is told what to do next.

use vstd::prelude::*;
use vstd::string::*;
use crate::codec::{completion_of, decode_completion, form_decoded, Malformed};
use crate::msgs::{
    bare_reply, get_redirect_page, is_fresh_nonce, opt_text, redirect_page_model,
    CompletionModel, CsrfToken, FinResponse, GenParams, HttpReply, ReplyModel,
};

verus! {

/// The completion request carried a nonce other than the client's own.
#[derive(Debug, Clone, Copy, PartialEq, Eq, Structural)]
pub struct CsrfMismatch {}

/// Why a handshake attempt ended without a result.
#[derive(Debug, Clone, Copy, PartialEq, Eq, Structural)]
pub enum HandshakeError {
    /// The listener could not get a port.
    BindFailure,
    /// The request to the proxy failed, or was answered outside 2xx.
    NetworkFailure,
    /// The completion request did not carry the client's nonce.
    CsrfMismatch,
    /// No completion request came in time.
    Timeout,
}

/// The client's local listener, for one handshake. It holds the nonce that a
/// completion request must carry, and whether it has been stopped. Neither
/// can be set from outside: a listener that has stopped stays stopped.
#[derive(Debug, Clone, PartialEq, Eq)]
pub struct Listener {
    nonce: CsrfToken,
    stopped: bool,
}

/// A listener as the contracts see it.
pub ghost struct ListenerModel {
    pub nonce: Seq<char>,
    pub stopped: bool,
}

impl View for Listener {
    type V = ListenerModel;

    closed spec fn view(&self) -> ListenerModel {
        ListenerModel { nonce: self.nonce@, stopped: self.stopped }
    }
}

/// The answer to the one completion request that the listener takes: 200,
/// `Connection: close`, and a page that leads on to the welcome URL if one was
/// sent. The page is made from that URL alone.
pub open spec fn completion_reply(welcome_redirect: Option<Seq<char>>) -> ReplyModel {
    ReplyModel {
        status: 200,
        location: None,
        close: true,
        body: match welcome_redirect {
            Some(url) => redirect_page_model(url),
            None => Seq::empty(),
        },
    }
}

/// The answer to a request that comes after the listener has stopped.
pub open spec fn refusal_reply() -> ReplyModel {
    bare_reply(503, true)
}

/// The answer to a request whose query is no completion payload.
pub open spec fn malformed_reply() -> ReplyModel {
    bare_reply(400, false)
}

/// What the listener hands to the waiting thread for a request that carries
/// `csrf_token` and `response`: the response if the nonce is the listener's
/// own, and the mismatch otherwise.
pub open spec fn unlocked<R>(nonce: Seq<char>, csrf_token: Seq<char>, response: R) -> Result<
    R,
    CsrfMismatch,
> {
    if csrf_token == nonce {
        Ok(response)
    } else {
        Err(CsrfMismatch {  })
    }
}

/// What a well-formed completion request does to the listener: the listener
/// after it, the answer, and what is delivered. A listener that has stopped
/// refuses, delivers nothing and stays as it is. One that has not delivers
/// once and stops.
pub open spec fn listener_transition<R>(listener: ListenerModel, request: FinResponse<R>) -> (
    ListenerModel,
    ReplyModel,
    Option<Result<R, CsrfMismatch>>,
) {
    if listener.stopped {
        (listener, refusal_reply(), None)
    } else {
        (
            ListenerModel { nonce: listener.nonce, stopped: true },
            completion_reply(opt_text(request.welcome_redirect)),
            Some(unlocked(listener.nonce, request.csrf_token@, request.response)),
        )
    }
}

/// A delivery of text as the contracts see it.
pub open spec fn delivery_model(d: Option<Result<String, CsrfMismatch>>) -> Option<
    Result<Seq<char>, CsrfMismatch>,
> {
    match d {
        Some(Ok(s)) => Some(Ok(s@)),
        Some(Err(e)) => Some(Err(e)),
        None => None,
    }
}

/// What a request with this query does to a listener: the listener after
/// it, the answer, and what is delivered. A stopped listener refuses whatever
/// comes. A malformed query is answered with 400 and leaves the listener
/// running.
pub open spec fn query_transition(
    listener: ListenerModel,
    decoded: Result<CompletionModel, Malformed>,
) -> (ListenerModel, ReplyModel, Option<Result<Seq<char>, CsrfMismatch>>) {
    if listener.stopped {
        (listener, refusal_reply(), None)
    } else {
        match decoded {
            Err(_) => (listener, malformed_reply(), None),
            Ok(c) => (
                ListenerModel { nonce: listener.nonce, stopped: true },
                completion_reply(c.welcome_redirect),
                Some(unlocked(listener.nonce, c.csrf_token, c.response)),
            ),
        }
    }
}

impl Listener {
    /// A running listener that waits for `nonce`.
    pub fn new(nonce: CsrfToken) -> (r: Self)
        ensures
            r@ == (ListenerModel { nonce: nonce@, stopped: false }),
    {
        Listener { nonce, stopped: false }
    }

    /// Makes the nonce for a handshake, and a running listener that waits for
    /// it. The nonce goes to the proxy; the listener keeps its own copy.
    pub fn with_fresh_nonce() -> (r: (CsrfToken, Self))
        ensures
            is_fresh_nonce(r.0@),
            r.1@ == (ListenerModel { nonce: r.0@, stopped: false }),
    {
        let nonce: CsrfToken = CsrfToken::new_random();
        let kept: CsrfToken = nonce.duplicate();
        (nonce, Listener { nonce: kept, stopped: false })
    }

    /// Stops the listener. Stopping a stopped listener changes nothing.
    pub fn stop(&mut self)
        ensures
            final(self)@ == (ListenerModel { nonce: old(self)@.nonce, stopped: true }),
    {
        self.stopped = true;
    }

    pub fn is_stopped(&self) -> (r: bool)
        ensures
            r == self@.stopped,
    {
        self.stopped
    }

    /// The nonce that a completion request must carry.
    pub fn nonce(&self) -> (r: &CsrfToken)
        ensures
            r@ == self@.nonce,
    {
        &self.nonce
    }

    /// Takes a well-formed completion request. The first one is answered with
    /// 200 and stops the listener; its response is delivered if and only if
    /// its nonce is the listener's, whole string against whole string, and a
    /// mismatch is delivered otherwise. Any later one is refused and delivers
    /// nothing.
    pub fn handle_response<R>(&mut self, request: FinResponse<R>) -> (r: (
        HttpReply,
        Option<Result<R, CsrfMismatch>>,
    ))
        ensures
            (final(self)@, r.0@, r.1) == listener_transition(old(self)@, request),
    {
        if self.stopped {
            return (HttpReply::bare(503, true), None);
        }
        let FinResponse { csrf_token, response, welcome_redirect } = request;
        let delivery: Result<R, CsrfMismatch> = if csrf_token.matches(&self.nonce) {
            Ok(response)
        } else {
            Err(CsrfMismatch {  })
        };
        let body: String = match &welcome_redirect {
            Some(url) => get_redirect_page(url.as_str()),
            None => String::new(),
        };
        self.stopped = true;
        (HttpReply { status: 200, location: None, close: true, body }, Some(delivery))
    }

    /// Takes a request by its query string. A query that is no completion
    /// payload is answered with 400 and does not stop the listener; any other
    /// is handled as `handle_response` says.
    pub fn handle_request(&mut self, query: &str) -> (r: (
        HttpReply,
        Option<Result<String, CsrfMismatch>>,
    ))
        ensures
            (final(self)@, r.0@, delivery_model(r.1)) == query_transition(
                old(self)@,
                completion_of(form_decoded(query@)),
            ),
    {
        if self.stopped {
            return (HttpReply::bare(503, true), None);
        }
        match decode_completion(query) {
            Err(_) => (HttpReply::bare(400, false), None),
            Ok(request) => self.handle_response(request),
        }
    }
}

/// Where the client stands in one handshake attempt.
#[derive(Debug, Clone, PartialEq, Eq)]
pub enum ClientState<R> {
    Idle,
    /// The listener is bound to this port.
    ListenerStarted { client_port: u16 },
    /// The proxy has answered with this URL.
    AuthorizationUrlRequested { url: String },
    /// The browser was opened, or the URL was shown to the user.
    BrowserLaunched,
    /// The client waits for the listener's one result.
    AwaitingCallback,
    Completed(R),
    Failed(HandshakeError),
}

/// What the program reports back after it has done what it was told.
#[derive(Debug, PartialEq, Eq)]
pub enum ClientEvent<R> {
    /// The listener is bound, and waits for this nonce.
    ListenerBound { csrf_token: CsrfToken, client_port: u16 },
    BindFailed,
    /// The proxy answered 2xx with this body.
    UrlReceived(String),
    RequestFailed,
    BrowserOpened,
    BrowserFailed,
    /// The user has the URL; the program is ready to wait.
    Waiting,
    /// The listener's one result.
    Callback(Result<R, CsrfMismatch>),
    TimedOut,
}

/// What the program is to do next, and what it reports afterwards.
#[derive(Debug, Clone, PartialEq, Eq)]
pub enum ClientAction {
    /// POST these parameters to the proxy's `start` route; report
    /// `UrlReceived` or `RequestFailed`.
    RequestAuthorizationUrl(GenParams),
    /// Open this URL in the user's browser; report `BrowserOpened` or
    /// `BrowserFailed`.
    OpenBrowser(String),
    /// Show this URL to the user, to be opened by hand; report `Waiting`.
    PrintUrl(String),
    /// The browser is open; report `Waiting`.
    Continue,
    /// Block on the listener's channel; report `Callback` or `TimedOut`.
    AwaitCallback,
    /// Stop the listener and return the state to the caller.
    StopListener,
    /// Return the state to the caller; there is no listener to stop.
    Abort,
    /// The event was not waited for and has been passed over.
    Nothing,
}

/// The client's transition. An event that the state does not wait for changes
/// nothing and asks for nothing; so does every event after the attempt has
/// ended.
pub open spec fn client_transition<R>(state: ClientState<R>, event: ClientEvent<R>) -> (
    ClientState<R>,
    ClientAction,
) {
    match (state, event) {
        (ClientState::Idle, ClientEvent::ListenerBound { csrf_token, client_port }) => (
            ClientState::ListenerStarted { client_port },
            ClientAction::RequestAuthorizationUrl(GenParams { csrf_token, client_port }),
        ),
        (ClientState::Idle, ClientEvent::BindFailed) => (
            ClientState::Failed(HandshakeError::BindFailure),
            ClientAction::Abort,
        ),
        (ClientState::ListenerStarted { client_port }, ClientEvent::UrlReceived(url)) => (
            ClientState::AuthorizationUrlRequested { url },
            ClientAction::OpenBrowser(url),
        ),
        (ClientState::ListenerStarted { client_port }, ClientEvent::RequestFailed) => (
            ClientState::Failed(HandshakeError::NetworkFailure),
            ClientAction::StopListener,
        ),
        (ClientState::AuthorizationUrlRequested { url }, ClientEvent::BrowserOpened) => (
            ClientState::BrowserLaunched,
            ClientAction::Continue,
        ),
        (ClientState::AuthorizationUrlRequested { url }, ClientEvent::BrowserFailed) => (
            ClientState::BrowserLaunched,
            ClientAction::PrintUrl(url),
        ),
        (ClientState::BrowserLaunched, ClientEvent::Waiting) => (
            ClientState::AwaitingCallback,
            ClientAction::AwaitCallback,
        ),
        (ClientState::AwaitingCallback, ClientEvent::Callback(Ok(response))) => (
            ClientState::Completed(response),
            ClientAction::StopListener,
        ),
        (ClientState::AwaitingCallback, ClientEvent::Callback(Err(_))) => (
            ClientState::Failed(HandshakeError::CsrfMismatch),
            ClientAction::StopListener,
        ),
        (ClientState::AwaitingCallback, ClientEvent::TimedOut) => (
            ClientState::Failed(HandshakeError::Timeout),
            ClientAction::StopListener,
        ),
        (s, _) => (s, ClientAction::Nothing),
    }
}

/// Takes the client from one state to the next.
pub fn step<R>(state: ClientState<R>, event: ClientEvent<R>) -> (r: (ClientState<R>, ClientAction))
    ensures
        r == client_transition(state, event),
{
    match (state, event) {
        (ClientState::Idle, ClientEvent::ListenerBound { csrf_token, client_port }) => (
            ClientState::ListenerStarted { client_port },
            ClientAction::RequestAuthorizationUrl(GenParams { csrf_token, client_port }),
        ),
        (ClientState::Idle, ClientEvent::BindFailed) => (
            ClientState::Failed(HandshakeError::BindFailure),
            ClientAction::Abort,
        ),
        (ClientState::ListenerStarted { client_port: _ }, ClientEvent::UrlReceived(url)) => {
            let shown: String = url.clone();
            (ClientState::AuthorizationUrlRequested { url }, ClientAction::OpenBrowser(shown))
        },
        (ClientState::ListenerStarted { client_port: _ }, ClientEvent::RequestFailed) => (
            ClientState::Failed(HandshakeError::NetworkFailure),
            ClientAction::StopListener,
        ),
        (ClientState::AuthorizationUrlRequested { url: _ }, ClientEvent::BrowserOpened) => (
            ClientState::BrowserLaunched,
            ClientAction::Continue,
        ),
        (ClientState::AuthorizationUrlRequested { url }, ClientEvent::BrowserFailed) => (
            ClientState::BrowserLaunched,
            ClientAction::PrintUrl(url),
        ),
        (ClientState::BrowserLaunched, ClientEvent::Waiting) => (
            ClientState::AwaitingCallback,
            ClientAction::AwaitCallback,
        ),
        (ClientState::AwaitingCallback, ClientEvent::Callback(Ok(response))) => (
            ClientState::Completed(response),
            ClientAction::StopListener,
        ),
        (ClientState::AwaitingCallback, ClientEvent::Callback(Err(_))) => (
            ClientState::Failed(HandshakeError::CsrfMismatch),
            ClientAction::StopListener,
        ),
        (ClientState::AwaitingCallback, ClientEvent::TimedOut) => (
            ClientState::Failed(HandshakeError::Timeout),
            ClientAction::StopListener,
        ),
        (s, _) => (s, ClientAction::Nothing),
    }
}

/// The URL of the proxy's `start` route, for a proxy at `proxy_url`.
pub open spec fn start_url(proxy_url: Seq<char>) -> Seq<char> {
    crate::text::without_trailing_slash(proxy_url) + "/oauth-cli/start"@
}

/// Where the client sends its parameters to begin a handshake.
pub fn start_endpoint(proxy_url: &str) -> (r: String)
    ensures
        r@ == start_url(proxy_url@),
{
    let mut url: String = crate::text::strip_trailing_slash(proxy_url);
    url.append("/oauth-cli/start");
    url
}

/// What a listener delivers for a series of well-formed requests, in order,
/// and the listener after them.
pub open spec fn listener_run<R>(listener: ListenerModel, requests: Seq<FinResponse<R>>) -> (
    ListenerModel,
    Seq<Option<Result<R, CsrfMismatch>>>,
)
    decreases requests.len(),
{
    if requests.len() == 0 {
        (listener, Seq::empty())
    } else {
        let before = listener_run(listener, requests.drop_last());
        let last = listener_transition(before.0, requests.last());
        (last.0, before.1.push(last.2))
    }
}

/// What the client does for a series of events, in order, and the state
/// after them.
pub open spec fn client_run<R>(state: ClientState<R>, events: Seq<ClientEvent<R>>) -> (
    ClientState<R>,
    Seq<ClientAction>,
)
    decreases events.len(),
{
    if events.len() == 0 {
        (state, Seq::empty())
    } else {
        let before = client_run(state, events.drop_last());
        let last = client_transition(before.0, events.last());
        (last.0, before.1.push(last.1))
    }
}

/// A running listener releases the response of a request exactly when the
/// request carries the listener's own nonce; for any other nonce it delivers
/// the mismatch, and never the response. The answer to the browser is the
/// same in both cases and is made without the response.
pub proof fn lemma_only_own_nonce_unlocks<R>(listener: ListenerModel, request: FinResponse<R>)
    requires
        !listener.stopped,
    ensures
        request.csrf_token@ == listener.nonce ==> listener_transition(listener, request).2
            == Some(Ok::<R, CsrfMismatch>(request.response)),
        request.csrf_token@ != listener.nonce ==> listener_transition(listener, request).2
            == Some(Err::<R, CsrfMismatch>(CsrfMismatch {  })),
        listener_transition(listener, request).1 == completion_reply(
            opt_text(request.welcome_redirect),
        ),
{
}

/// What the proxy writes, the listener reads: the pairs of a completion
/// payload, read back by a running listener, release the payload's response
/// if its nonce is the listener's, and the mismatch otherwise.
pub proof fn lemma_written_payload_unlocks(nonce: Seq<char>, payload: CompletionModel)
    ensures
        query_transition(
            ListenerModel { nonce, stopped: false },
            completion_of(crate::codec::completion_pairs(payload)),
        ) == (
            ListenerModel { nonce, stopped: true },
            completion_reply(payload.welcome_redirect),
            Some(unlocked(nonce, payload.csrf_token, payload.response)),
        ),
{
    crate::codec::lemma_pairs_round_trip(payload);
}

/// Of any series of well-formed requests, a listener delivers for at most
/// one: the first that reaches it while it runs. Every later request finds
/// it stopped and delivers nothing, so a delivered result is never replaced.
pub proof fn lemma_at_most_one_delivery<R>(listener: ListenerModel, requests: Seq<FinResponse<R>>)
    ensures
        ({
            let run = listener_run(listener, requests);
            &&& run.1.len() == requests.len()
            &&& run.0.nonce == listener.nonce
            &&& listener.stopped ==> run.0.stopped
            &&& requests.len() > 0 ==> run.0.stopped
            &&& forall|i: int| 0 <= i < run.1.len() && listener.stopped ==> (#[trigger] run.1[i]) is None
            &&& forall|i: int| 0 < i < run.1.len() ==> (#[trigger] run.1[i]) is None
            &&& requests.len() > 0 && !listener.stopped ==> run.1[0] == Some(
                unlocked(listener.nonce, requests[0].csrf_token@, requests[0].response),
            )
        }),
    decreases requests.len(),
{
    if requests.len() > 0 {
        lemma_at_most_one_delivery(listener, requests.drop_last());
        let before = listener_run(listener, requests.drop_last());
        let last = listener_transition(before.0, requests.last());
        let run = listener_run(listener, requests);
        assert(run.1 == before.1.push(last.2));
        if requests.len() == 1 {
            assert(requests.drop_last().len() == 0);
            assert(requests.last() == requests[0]);
        } else {
            assert(requests.drop_last()[0] == requests[0]);
        }
    }
}

/// What a listener delivers for a series of requests, well-formed or not, in
/// order, and the listener after them.
pub open spec fn query_run(
    listener: ListenerModel,
    decoded: Seq<Result<CompletionModel, Malformed>>,
) -> (ListenerModel, Seq<Option<Result<Seq<char>, CsrfMismatch>>>)
    decreases decoded.len(),
{
    if decoded.len() == 0 {
        (listener, Seq::empty())
    } else {
        let before = query_run(listener, decoded.drop_last());
        let last = query_transition(before.0, decoded.last());
        (last.0, before.1.push(last.2))
    }
}

/// Of any series of requests, malformed ones among them, a listener delivers
/// for at most one. A delivery leaves it stopped, a stopped listener delivers
/// nothing, and nothing starts it again.
pub proof fn lemma_one_terminating_request(
    listener: ListenerModel,
    decoded: Seq<Result<CompletionModel, Malformed>>,
)
    ensures
        ({
            let run = query_run(listener, decoded);
            &&& run.1.len() == decoded.len()
            &&& run.0.nonce == listener.nonce
            &&& listener.stopped ==> run.0.stopped
            &&& forall|i: int|
                0 <= i < run.1.len() && (#[trigger] run.1[i]) is Some ==> run.0.stopped
                    && !listener.stopped && decoded[i] is Ok
            &&& forall|i: int, j: int|
                0 <= i < j < run.1.len() ==> !((#[trigger] run.1[i]) is Some && (
                #[trigger] run.1[j]) is Some)
        }),
    decreases decoded.len(),
{
    if decoded.len() > 0 {
        lemma_one_terminating_request(listener, decoded.drop_last());
        let before = query_run(listener, decoded.drop_last());
        let last = query_transition(before.0, decoded.last());
        let run = query_run(listener, decoded);
        assert(run.1 == before.1.push(last.2));
        assert forall|i: int| 0 <= i < run.1.len() && (#[trigger] run.1[i]) is Some implies
            run.0.stopped && !listener.stopped && decoded[i] is Ok by {
            if i < before.1.len() {
                assert(run.1[i] == before.1[i]);
                assert(decoded.drop_last()[i] == decoded[i]);
            }
        }
        assert forall|i: int, j: int| 0 <= i < j < run.1.len() implies !((#[trigger] run.1[i])
            is Some && (#[trigger] run.1[j]) is Some) by {
            assert(run.1[i] == before.1[i]);
            if j < before.1.len() {
                assert(run.1[j] == before.1[j]);
            }
        }
    }
}

/// The client asks the proxy for an authorization URL only when it is idle
/// and hears that the listener is bound, and then with the listener's nonce
/// and port.
pub proof fn lemma_request_follows_bind<R>(state: ClientState<R>, event: ClientEvent<R>)
    requires
        client_transition(state, event).1 is RequestAuthorizationUrl,
    ensures
        state is Idle,
        event is ListenerBound,
        client_transition(state, event).1 == ClientAction::RequestAuthorizationUrl(
            GenParams {
                csrf_token: event->ListenerBound_csrf_token,
                client_port: event->ListenerBound_client_port,
            },
        ),
{
}

/// Once an attempt has ended, nothing moves it and it asks for nothing.
pub proof fn lemma_ended_attempt_is_final<R>(state: ClientState<R>, events: Seq<ClientEvent<R>>)
    requires
        state is Completed || state is Failed,
    ensures
        client_run(state, events).0 == state,
        client_run(state, events).1.len() == events.len(),
        forall|i: int|
            0 <= i < events.len() ==> (#[trigger] client_run(state, events).1[i]) is Nothing,
    decreases events.len(),
{
    if events.len() > 0 {
        lemma_ended_attempt_is_final(state, events.drop_last());
    }
}

/// A bind failure ends the attempt before anything is sent to the proxy:
/// whatever is reported afterwards, the attempt stays failed and no action
/// asks for a request.
pub proof fn lemma_bind_failure_sends_no_request<R>(events: Seq<ClientEvent<R>>)
    requires
        events.len() > 0,
        events[0] is BindFailed,
    ensures
        client_run(ClientState::<R>::Idle, events).0 == ClientState::<R>::Failed(
            HandshakeError::BindFailure,
        ),
        client_run(ClientState::<R>::Idle, events).1.len() == events.len(),
        forall|i: int|
            0 <= i < events.len() ==> !((#[trigger] client_run(
                ClientState::<R>::Idle,
                events,
            ).1[i]) is RequestAuthorizationUrl),
    decreases events.len(),
{
    let idle = ClientState::<R>::Idle;
    if events.len() == 1 {
        assert(events.drop_last().len() == 0);
        assert(events.last() == events[0]);
        assert(client_run(idle, events.drop_last()).1 =~= Seq::empty());
    } else {
        assert(events.drop_last()[0] == events[0]);
        lemma_bind_failure_sends_no_request(events.drop_last());
    }
}

/// The attempt ends from waiting only: with the response on a callback that
/// carries one, and failed on a mismatch or a timeout. Each of these stops
/// the listener.
pub proof fn lemma_callback_ends_attempt<R>(event: ClientEvent<R>)
    requires
        event is Callback || event is TimedOut,
    ensures
        client_transition(ClientState::<R>::AwaitingCallback, event).1 is StopListener,
        event matches ClientEvent::Callback(Ok(response)) ==> client_transition(
            ClientState::<R>::AwaitingCallback,
            event,
        ).0 == ClientState::Completed(response),
        event matches ClientEvent::Callback(Err(_)) ==> client_transition(
            ClientState::<R>::AwaitingCallback,
            event,
        ).0 == ClientState::<R>::Failed(HandshakeError::CsrfMismatch),
        event is TimedOut ==> client_transition(ClientState::<R>::AwaitingCallback, event).0
            == ClientState::<R>::Failed(HandshakeError::Timeout),
{
}

} // verus!
