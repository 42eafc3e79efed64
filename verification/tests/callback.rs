use olaf2::codec::{decode_finish, finish_from_pairs, MalformedFinish};
use olaf2::msgs::{AuthorizationCode, CsrfToken, FinParams, HttpReply};
use olaf2::proxy::{finish_request, FinishAction, FinishState};
use olaf2::text::{char_digit, parse_port};

fn params(csrf: &str, port: u16, code: &str) -> FinParams {
    FinParams {
        csrf_token: CsrfToken::new(csrf.to_string()),
        client_port: port,
        code: AuthorizationCode::new(code.to_string()),
    }
}

#[test]
fn ports_are_read_from_their_numerals() {
    assert_eq!(parse_port("0"), Some(0));
    assert_eq!(parse_port("7"), Some(7));
    assert_eq!(parse_port("80"), Some(80));
    assert_eq!(parse_port("40123"), Some(40123));
    assert_eq!(parse_port("65535"), Some(65535));
}

#[test]
fn what_is_no_numeral_of_a_port_is_refused() {
    for text in ["", "65536", "99999", "100000", "080", "00", "+80", "-1", " 80", "80 ", "8o", "٣"] {
        assert_eq!(parse_port(text), None, "{:?}", text);
    }
}

#[test]
fn every_port_is_read_back() {
    let mut p: u16 = 0;
    loop {
        assert_eq!(parse_port(&olaf2::text::decimal_string(p)), Some(p));
        if p == u16::MAX {
            break;
        }
        p = if p < 300 { p + 1 } else { p.saturating_add(257) };
    }
}

#[test]
fn digits_and_other_characters() {
    assert_eq!(char_digit('0'), Some(0));
    assert_eq!(char_digit('9'), Some(9));
    assert_eq!(char_digit('a'), None);
    assert_eq!(char_digit('/'), None);
    assert_eq!(char_digit(':'), None);
}

#[test]
fn callback_with_the_nonce_as_csrf_token() {
    assert_eq!(
        decode_finish("code=XYZ&csrf_token=abc123&client_port=40123"),
        Ok(params("abc123", 40123, "XYZ"))
    );
}

#[test]
fn callback_as_an_authorization_server_sends_it() {
    assert_eq!(
        decode_finish("client_port=40123&code=a%2Fb&state=abc123"),
        Ok(params("abc123", 40123, "a/b"))
    );
}

#[test]
fn each_way_a_callback_is_malformed() {
    assert_eq!(decode_finish("code=XYZ&client_port=1"), Err(MalformedFinish::CsrfToken));
    assert_eq!(
        decode_finish("code=XYZ&client_port=1&state=a&csrf_token=a"),
        Err(MalformedFinish::CsrfToken)
    );
    assert_eq!(
        decode_finish("code=XYZ&client_port=1&state=a&state=a"),
        Err(MalformedFinish::CsrfToken)
    );
    assert_eq!(decode_finish("code=XYZ&state=a"), Err(MalformedFinish::ClientPort));
    assert_eq!(decode_finish("code=XYZ&state=a&client_port=70000"), Err(MalformedFinish::ClientPort));
    assert_eq!(decode_finish("code=XYZ&state=a&client_port=http"), Err(MalformedFinish::ClientPort));
    assert_eq!(
        decode_finish("code=XYZ&state=a&client_port=1&client_port=1"),
        Err(MalformedFinish::ClientPort)
    );
    assert_eq!(decode_finish("state=a&client_port=1"), Err(MalformedFinish::Code));
    assert_eq!(decode_finish("state=a&client_port=1&code=x&code=y"), Err(MalformedFinish::Code));
    assert_eq!(finish_from_pairs(&vec![]), Err(MalformedFinish::CsrfToken));
}

#[test]
fn finish_route_begins_with_the_exchange() {
    let (state, action) = finish_request("code=XYZ&csrf_token=abc123&client_port=40123");
    assert_eq!(
        state,
        FinishState::AwaitingExchange {
            csrf_token: CsrfToken::new("abc123".to_string()),
            client_port: 40123
        }
    );
    assert_eq!(action, FinishAction::ExchangeCode(AuthorizationCode::new("XYZ".to_string())));
}

#[test]
fn finish_route_refuses_a_malformed_callback() {
    let (state, action) = finish_request("code=XYZ&csrf_token=abc123");
    assert_eq!(state, FinishState::Done);
    assert_eq!(
        action,
        FinishAction::Respond(HttpReply {
            status: 400,
            location: None,
            close: false,
            body: String::new()
        })
    );
}
