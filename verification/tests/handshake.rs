use olaf2::client::{
    start_endpoint, step, ClientAction, ClientEvent, ClientState, CsrfMismatch,
    HandshakeError, Listener,
};
use olaf2::msgs::{
    AccessToken, AuthorizationCode, CsrfToken, FinParams, FinResponse, GenParams, HttpReply,
};
use olaf2::proxy::{
    finish_step, invoke_handler, oauth_fin, oauth_gen, Config, ExchangeError, FinishAction,
    FinishEvent, FinishState, OAuthExecutor, SessionHandler, SessionHandlerError, Token,
};
use olaf2::server::Provider;

struct Octocat;

impl SessionHandler for Octocat {
    fn handle(&self, token: Token) -> Result<String, SessionHandlerError> {
        if token.access_token().secret() == "gho_token" {
            Ok("user:octocat".to_string())
        } else {
            Err(SessionHandlerError {})
        }
    }
}

fn github_engine() -> OAuthExecutor {
    OAuthExecutor::from_config(Config {
        client_id: "deadbeefcafe1337".to_string(),
        client_secret: "somesecretvalue".to_string(),
        port: 8081,
        oauth_provider: Provider::Github,
        proxy_url: "http://localhost:8081/".to_string(),
        scopes: vec!["read:user".to_string(), "user:email".to_string()],
        welcome_redirect: None,
    })
}

fn nonce() -> CsrfToken {
    CsrfToken::new("abc123".to_string())
}

/// Drives the proxy's `finish` route with a token endpoint that answers
/// `gho_token` and the handler above, and returns the answer to the browser.
fn proxy_finish(csrf: &str, port: u16, welcome: Option<String>) -> HttpReply {
    let params = FinParams {
        csrf_token: CsrfToken::new(csrf.to_string()),
        client_port: port,
        code: AuthorizationCode::new("XYZ".to_string()),
    };
    let (state, action) = oauth_fin(params);
    assert_eq!(action, FinishAction::ExchangeCode(AuthorizationCode::new("XYZ".to_string())));
    let exchanged = FinishEvent::Exchanged(Ok(AccessToken::new("gho_token".to_string())));
    let (state, action) = finish_step(state, exchanged, welcome.clone());
    let token = match action {
        FinishAction::InvokeHandler(token) => token,
        other => panic!("expected the handler to be asked, got {:?}", other),
    };
    let handled = invoke_handler(&Octocat, token);
    let (state, action) = finish_step(state, handled, welcome);
    assert_eq!(state, FinishState::Done);
    match action {
        FinishAction::Respond(reply) => reply,
        other => panic!("expected an answer, got {:?}", other),
    }
}

/// Runs the client up to the point where it waits for the callback.
fn client_until_waiting(port: u16, url: &str) -> ClientState<String> {
    let bound = ClientEvent::ListenerBound { csrf_token: nonce(), client_port: port };
    let (state, action) = step(ClientState::Idle, bound);
    assert_eq!(state, ClientState::ListenerStarted { client_port: port });
    assert_eq!(
        action,
        ClientAction::RequestAuthorizationUrl(GenParams { csrf_token: nonce(), client_port: port })
    );
    let (state, action) = step(state, ClientEvent::UrlReceived(url.to_string()));
    assert_eq!(state, ClientState::AuthorizationUrlRequested { url: url.to_string() });
    assert_eq!(action, ClientAction::OpenBrowser(url.to_string()));
    let (state, action) = step(state, ClientEvent::BrowserOpened);
    assert_eq!(state, ClientState::BrowserLaunched);
    assert_eq!(action, ClientAction::Continue);
    let (state, action) = step(state, ClientEvent::Waiting);
    assert_eq!(action, ClientAction::AwaitCallback);
    assert_eq!(state, ClientState::AwaitingCallback);
    state
}

#[test]
fn handshake_completes_with_the_handlers_result() {
    let engine = github_engine();
    let start = oauth_gen(&engine, &GenParams { csrf_token: nonce(), client_port: 0 });
    assert_eq!(start.status, 200);
    let url = start.body;
    assert!(url.starts_with("https://github.com/login/oauth/authorize?"));
    assert!(url.contains("state=abc123&redirect_uri="));
    assert!(url.contains("client_port%3D0"));

    let state = client_until_waiting(40123, &url);

    let reply = proxy_finish("abc123", 40123, None);
    assert_eq!(reply.status, 303);
    assert_eq!(
        reply.location,
        Some("http://localhost:40123/?csrf_token=abc123&response=user%3Aoctocat".to_string())
    );
    assert_eq!(reply.body, "");

    let mut listener = Listener::new(nonce());
    let (answer, delivered) = listener.handle_request("csrf_token=abc123&response=user%3Aoctocat");
    assert_eq!(answer, HttpReply { status: 200, location: None, close: true, body: String::new() });
    assert_eq!(delivered, Some(Ok("user:octocat".to_string())));
    assert!(listener.is_stopped());

    let (state, action) = step(state, ClientEvent::Callback(delivered.unwrap()));
    assert_eq!(state, ClientState::Completed("user:octocat".to_string()));
    assert_eq!(action, ClientAction::StopListener);
}

#[test]
fn handshake_fails_closed_on_a_foreign_nonce() {
    let state = client_until_waiting(40123, "https://github.com/login/oauth/authorize?state=abc123");
    let mut listener = Listener::new(nonce());
    let (answer, delivered) = listener.handle_request("csrf_token=wrong&response=user%3Aoctocat");
    assert_eq!(answer.status, 200);
    assert!(answer.close);
    assert_eq!(answer.body, "");
    assert_eq!(delivered, Some(Err(CsrfMismatch {})));
    assert_ne!(delivered, Some(Ok("user:octocat".to_string())));
    assert!(listener.is_stopped());

    let (state, action) = step(state, ClientEvent::Callback(delivered.unwrap()));
    assert_eq!(state, ClientState::Failed(HandshakeError::CsrfMismatch));
    assert_ne!(state, ClientState::Completed("user:octocat".to_string()));
    assert_eq!(action, ClientAction::StopListener);
}

#[test]
fn bind_failure_ends_the_attempt_before_any_request() {
    let mut requests = 0;
    let (mut state, action) = step(ClientState::<String>::Idle, ClientEvent::BindFailed);
    assert_eq!(state, ClientState::Failed(HandshakeError::BindFailure));
    assert_eq!(action, ClientAction::Abort);
    let later = vec![
        ClientEvent::ListenerBound { csrf_token: nonce(), client_port: 1 },
        ClientEvent::UrlReceived("https://example.com/".to_string()),
        ClientEvent::BrowserOpened,
        ClientEvent::Waiting,
        ClientEvent::Callback(Ok("user:octocat".to_string())),
        ClientEvent::TimedOut,
    ];
    for event in later {
        let (next, action) = step(state, event);
        if matches!(action, ClientAction::RequestAuthorizationUrl(_)) {
            requests += 1;
        }
        assert_eq!(action, ClientAction::Nothing);
        state = next;
    }
    assert_eq!(requests, 0);
    assert_eq!(state, ClientState::Failed(HandshakeError::BindFailure));
}

#[test]
fn nonce_must_match_as_a_whole() {
    for wrong in ["abc12", "abc1234", "", "ABC123", "abc123 "] {
        let mut listener = Listener::new(nonce());
        let request = FinResponse {
            csrf_token: CsrfToken::new(wrong.to_string()),
            response: 7u32,
            welcome_redirect: None,
        };
        let (_, delivered) = listener.handle_response(request);
        assert_eq!(delivered, Some(Err(CsrfMismatch {})));
    }
    let mut listener = Listener::new(nonce());
    let request = FinResponse { csrf_token: nonce(), response: 7u32, welcome_redirect: None };
    let (_, delivered) = listener.handle_response(request);
    assert_eq!(delivered, Some(Ok(7u32)));
}

#[test]
fn second_request_is_refused_and_delivers_nothing() {
    let mut listener = Listener::new(nonce());
    let (_, first) = listener.handle_request("csrf_token=abc123&response=one");
    assert_eq!(first, Some(Ok("one".to_string())));
    let (answer, second) = listener.handle_request("csrf_token=abc123&response=two");
    assert_eq!(answer, HttpReply { status: 503, location: None, close: true, body: String::new() });
    assert_eq!(second, None);
    let (answer, third) = listener.handle_request("nonsense");
    assert_eq!(answer.status, 503);
    assert_eq!(third, None);
    assert!(listener.is_stopped());
}

#[test]
fn mismatch_is_not_replaced_by_a_later_match() {
    let mut listener = Listener::new(nonce());
    let (_, first) = listener.handle_request("csrf_token=wrong&response=one");
    assert_eq!(first, Some(Err(CsrfMismatch {})));
    let (_, second) = listener.handle_request("csrf_token=abc123&response=one");
    assert_eq!(second, None);
}

#[test]
fn malformed_request_does_not_stop_the_listener() {
    let mut listener = Listener::new(nonce());
    for query in ["", "csrf_token=abc123", "response=x", "csrf_token=abc123&csrf_token=abc123&response=x"] {
        let (answer, delivered) = listener.handle_request(query);
        assert_eq!(
            answer,
            HttpReply { status: 400, location: None, close: false, body: String::new() }
        );
        assert_eq!(delivered, None);
        assert!(!listener.is_stopped());
    }
    let (answer, delivered) = listener.handle_request("response=x&csrf_token=abc123");
    assert_eq!(answer.status, 200);
    assert_eq!(delivered, Some(Ok("x".to_string())));
}

#[test]
fn stopping_twice_changes_nothing() {
    let mut listener = Listener::new(nonce());
    assert!(!listener.is_stopped());
    assert_eq!(listener.nonce(), &nonce());
    listener.stop();
    let once = listener.clone();
    listener.stop();
    assert_eq!(listener, once);
    assert!(listener.is_stopped());
    let (answer, delivered) = listener.handle_request("csrf_token=abc123&response=x");
    assert_eq!(answer.status, 503);
    assert_eq!(delivered, None);
}

#[test]
fn welcome_page_carries_the_welcome_url_and_no_secret() {
    let mut listener = Listener::new(nonce());
    let (answer, delivered) = listener.handle_request(
        "csrf_token=abc123&response=topsecret&welcome_redirect=http%3A%2F%2Flocalhost%3A8080%2F",
    );
    assert_eq!(delivered, Some(Ok("topsecret".to_string())));
    assert_eq!(answer.status, 200);
    assert!(answer.close);
    assert_eq!(
        answer.body,
        "<!DOCTYPE html><html><head><meta http-equiv=\"refresh\" content=\"0; \
         url=http://localhost:8080/\"></head><body><a \
         href=\"http://localhost:8080/\">Continue</a></body></html>"
    );
    assert!(!answer.body.contains("topsecret"));
    assert!(!answer.body.contains("abc123"));
}

#[test]
fn request_failure_stops_the_listener() {
    let bound = ClientEvent::ListenerBound { csrf_token: nonce(), client_port: 9 };
    let (state, _) = step(ClientState::<String>::Idle, bound);
    let (state, action) = step(state, ClientEvent::RequestFailed);
    assert_eq!(state, ClientState::Failed(HandshakeError::NetworkFailure));
    assert_eq!(action, ClientAction::StopListener);
}

#[test]
fn browser_failure_shows_the_url_and_goes_on() {
    let bound = ClientEvent::ListenerBound { csrf_token: nonce(), client_port: 9 };
    let (state, _) = step(ClientState::<String>::Idle, bound);
    let (state, _) = step(state, ClientEvent::UrlReceived("https://example.com/a".to_string()));
    let (state, action) = step(state, ClientEvent::BrowserFailed);
    assert_eq!(state, ClientState::BrowserLaunched);
    assert_eq!(action, ClientAction::PrintUrl("https://example.com/a".to_string()));
    let (state, _) = step(state, ClientEvent::Waiting);
    let (state, action) = step(state, ClientEvent::TimedOut);
    assert_eq!(state, ClientState::Failed(HandshakeError::Timeout));
    assert_eq!(action, ClientAction::StopListener);
}

#[test]
fn unexpected_event_changes_nothing() {
    let (state, action) = step(ClientState::<String>::Idle, ClientEvent::BrowserOpened);
    assert_eq!(state, ClientState::Idle);
    assert_eq!(action, ClientAction::Nothing);
    let (state, action) =
        step(ClientState::<String>::AwaitingCallback, ClientEvent::UrlReceived("x".to_string()));
    assert_eq!(state, ClientState::AwaitingCallback);
    assert_eq!(action, ClientAction::Nothing);
    let done = ClientState::Completed("r".to_string());
    let (state, action) = step(done.clone(), ClientEvent::Callback(Ok("other".to_string())));
    assert_eq!(state, done);
    assert_eq!(action, ClientAction::Nothing);
}

#[test]
fn start_route_url_is_joined_with_one_slash() {
    assert_eq!(start_endpoint("http://127.0.0.1:8081"), "http://127.0.0.1:8081/oauth-cli/start");
    assert_eq!(start_endpoint("http://127.0.0.1:8081/"), "http://127.0.0.1:8081/oauth-cli/start");
}

#[test]
fn failed_exchange_is_answered_with_a_bare_500() {
    let params = FinParams {
        csrf_token: nonce(),
        client_port: 40123,
        code: AuthorizationCode::new("XYZ".to_string()),
    };
    for error in [ExchangeError::Network, ExchangeError::Provider, ExchangeError::MalformedToken] {
        let (state, _) = oauth_fin(params.clone());
        let (state, action) = finish_step(state, FinishEvent::Exchanged(Err(error)), None);
        assert_eq!(state, FinishState::Done);
        assert_eq!(
            action,
            FinishAction::Respond(HttpReply {
                status: 500,
                location: None,
                close: false,
                body: String::new()
            })
        );
    }
}

#[test]
fn failed_handler_is_answered_with_a_bare_500() {
    let params = FinParams {
        csrf_token: nonce(),
        client_port: 40123,
        code: AuthorizationCode::new("XYZ".to_string()),
    };
    let (state, _) = oauth_fin(params);
    let exchanged = FinishEvent::Exchanged(Ok(AccessToken::new("other_token".to_string())));
    let (state, action) = finish_step(state, exchanged, None);
    let token = match action {
        FinishAction::InvokeHandler(token) => token,
        other => panic!("expected the handler to be asked, got {:?}", other),
    };
    assert_eq!(token.access_token().secret(), "other_token");
    let handled = invoke_handler(&Octocat, token);
    assert_eq!(handled, FinishEvent::Handled(Err(SessionHandlerError {})));
    let (state, action) = finish_step(state, handled, None);
    assert_eq!(state, FinishState::Done);
    assert_eq!(action, FinishAction::Respond(HttpReply::bare(500, false)));
}

#[test]
fn no_later_step_asks_for_another_exchange() {
    let params = FinParams {
        csrf_token: nonce(),
        client_port: 40123,
        code: AuthorizationCode::new("XYZ".to_string()),
    };
    let (mut state, first) = oauth_fin(params);
    let mut exchanges = if matches!(first, FinishAction::ExchangeCode(_)) { 1 } else { 0 };
    let events = vec![
        FinishEvent::Exchanged(Ok(AccessToken::new("gho_token".to_string()))),
        FinishEvent::Exchanged(Ok(AccessToken::new("gho_token".to_string()))),
        FinishEvent::Handled(Ok("user:octocat".to_string())),
        FinishEvent::Exchanged(Err(ExchangeError::Network)),
    ];
    for event in events {
        let (next, action) = finish_step(state, event, None);
        if matches!(action, FinishAction::ExchangeCode(_)) {
            exchanges += 1;
        }
        state = next;
    }
    assert_eq!(exchanges, 1);
    assert_eq!(state, FinishState::Done);
}

#[test]
fn event_out_of_turn_ends_the_request_with_500() {
    let params = FinParams {
        csrf_token: nonce(),
        client_port: 1,
        code: AuthorizationCode::new("XYZ".to_string()),
    };
    let (state, _) = oauth_fin(params);
    let (state, action) = finish_step(state, FinishEvent::Handled(Ok("x".to_string())), None);
    assert_eq!(state, FinishState::Done);
    assert_eq!(action, FinishAction::Respond(HttpReply::bare(500, false)));
}

#[test]
fn finish_passes_the_welcome_url_on() {
    let reply = proxy_finish("abc123", 7, Some("http://localhost:8080/".to_string()));
    assert_eq!(reply.status, 303);
    assert_eq!(
        reply.location,
        Some(
            "http://localhost:7/?csrf_token=abc123&response=user%3Aoctocat&welcome_redirect=http%3A%2F%2Flocalhost%3A8080%2F"
                .to_string()
        )
    );
}

#[test]
fn fresh_listener_waits_for_the_nonce_it_hands_out() {
    let (token, mut listener) = Listener::with_fresh_nonce();
    assert!(!listener.is_stopped());
    assert_eq!(listener.nonce(), &token);
    let request = FinResponse { csrf_token: token, response: 1u8, welcome_redirect: None };
    let (_, delivered) = listener.handle_response(request);
    assert_eq!(delivered, Some(Ok(1u8)));
    let (other, _) = Listener::with_fresh_nonce();
    assert_ne!(listener.nonce(), &other);
}

#[test]
fn fresh_listener_nonce_has_the_form_of_a_fresh_nonce() {
    let (token, listener) = Listener::with_fresh_nonce();
    assert_eq!(token.secret().len(), 22);
    assert!(token.secret().chars().all(|c| c.is_ascii_alphanumeric() || c == '-' || c == '_'));
    assert_eq!(listener.nonce().secret(), token.secret());
}
