//! The two messages that travel in a URL's query string: the completion
//! payload that the proxy sends to the client's listener, and the callback
//! that the authorization server sends to the proxy.
//!
//! Escaping and unescaping are the `url` crate's. What this module decides is
//! which keys carry a message, and when a query counts as malformed.

use vstd::prelude::*;
use vstd::string::*;
use crate::msgs::{
    AuthorizationCode, CompletionModel, CsrfToken, FinParams, FinParamsModel, FinResponse,
};
use crate::text::{parse_port, port_of};

verus! {

/// The query string that `url::form_urlencoded::Serializer` writes for a list
/// of pairs.
pub uninterp spec fn form_encoded(pairs: Seq<(Seq<char>, Seq<char>)>) -> Seq<char>;

/// The pairs that `url::form_urlencoded::parse` reads from a query string.
pub uninterp spec fn form_decoded(query: Seq<char>) -> Seq<(Seq<char>, Seq<char>)>;

/// A list of owned pairs as a sequence of pairs of texts.
pub open spec fn pairs_model(pairs: Seq<(String, String)>) -> Seq<(Seq<char>, Seq<char>)> {
    pairs.map_values(|p: (String, String)| (p.0@, p.1@))
}

/// `url::form_urlencoded::Serializer`: `new` on an empty string, `extend_pairs`
/// with the pairs in order, `finish`. The result is the serializer's output for
/// exactly these pairs.
#[verifier::external_body]
fn form_encode(pairs: &Vec<(String, String)>) -> (r: String)
    ensures
        r@ == form_encoded(pairs_model(pairs@)),
{
    url::form_urlencoded::Serializer::new(String::new()).extend_pairs(pairs.iter()).finish()
}

/// `url::form_urlencoded::parse` on the query's bytes, each pair made owned,
/// in the order in which the parser yields them.
#[verifier::external_body]
fn form_decode(query: &str) -> (r: Vec<(String, String)>)
    ensures
        pairs_model(r@) == form_decoded(query@),
{
    url::form_urlencoded::parse(query.as_bytes()).into_owned().collect()
}

/// The values that `pairs` gives for `key`, in order.
pub open spec fn values_of(pairs: Seq<(Seq<char>, Seq<char>)>, key: Seq<char>) -> Seq<Seq<char>>
    decreases pairs.len(),
{
    if pairs.len() == 0 {
        Seq::empty()
    } else if pairs.last().0 == key {
        values_of(pairs.drop_last(), key).push(pairs.last().1)
    } else {
        values_of(pairs.drop_last(), key)
    }
}

/// The value of `key`, where `pairs` gives exactly one.
pub open spec fn single_value(pairs: Seq<(Seq<char>, Seq<char>)>, key: Seq<char>) -> Option<
    Seq<char>,
> {
    if values_of(pairs, key).len() == 1 {
        Some(values_of(pairs, key)[0])
    } else {
        None
    }
}

/// Whether `pairs` gives `key` the value `value`, and no other.
pub open spec fn embeds(pairs: Seq<(Seq<char>, Seq<char>)>, key: Seq<char>, value: Seq<char>) -> bool {
    single_value(pairs, key) == Some(value)
}

/// Why a query is no completion payload.
#[derive(Debug, Clone, Copy, PartialEq, Eq, Structural)]
pub enum Malformed {
    /// `csrf_token` is absent or given more than once.
    CsrfToken,
    /// `response` is absent or given more than once.
    Response,
    /// `welcome_redirect` is given more than once.
    WelcomeRedirect,
}

/// What a list of pairs means as a completion payload. `csrf_token` and
/// `response` must each occur once; `welcome_redirect` may occur once or not
/// at all; other keys are passed over.
pub open spec fn completion_of(pairs: Seq<(Seq<char>, Seq<char>)>) -> Result<
    CompletionModel,
    Malformed,
> {
    if single_value(pairs, "csrf_token"@) is None {
        Err(Malformed::CsrfToken)
    } else if single_value(pairs, "response"@) is None {
        Err(Malformed::Response)
    } else if values_of(pairs, "welcome_redirect"@).len() > 1 {
        Err(Malformed::WelcomeRedirect)
    } else {
        Ok(
            CompletionModel {
                csrf_token: single_value(pairs, "csrf_token"@).unwrap(),
                response: single_value(pairs, "response"@).unwrap(),
                welcome_redirect: single_value(pairs, "welcome_redirect"@),
            },
        )
    }
}

/// The pairs that carry a completion payload, in the order in which they are
/// written.
pub open spec fn completion_pairs(c: CompletionModel) -> Seq<(Seq<char>, Seq<char>)> {
    let head = seq![("csrf_token"@, c.csrf_token), ("response"@, c.response)];
    match c.welcome_redirect {
        Some(w) => head.push(("welcome_redirect"@, w)),
        None => head,
    }
}

/// A decoded payload as the contracts see it.
pub open spec fn decoded_model(r: Result<FinResponse<String>, Malformed>) -> Result<
    CompletionModel,
    Malformed,
> {
    match r {
        Ok(c) => Ok(c@),
        Err(e) => Err(e),
    }
}

/// How often `key` occurs in `pairs`, and its last value.
pub fn find_values(pairs: &Vec<(String, String)>, key: &str) -> (r: (usize, Option<String>))
    ensures
        r.0 == values_of(pairs_model(pairs@), key@).len(),
        r.0 == 0 <==> r.1 is None,
        r.1 is Some ==> r.1.unwrap()@ == values_of(pairs_model(pairs@), key@).last(),
{
    let mut count: usize = 0;
    let mut found: Option<String> = None;
    let mut i: usize = 0;
    let wanted: String = String::from_str(key);
    assert(pairs_model(pairs@).take(0) =~= Seq::empty());
    while i < pairs.len()
        invariant
            i <= pairs.len(),
            count <= i,
            wanted@ == key@,
            count == values_of(pairs_model(pairs@).take(i as int), key@).len(),
            count == 0 <==> found is None,
            found is Some ==> found.unwrap()@ == values_of(
                pairs_model(pairs@).take(i as int),
                key@,
            ).last(),
        decreases pairs.len() - i,
    {
        let ghost all = pairs_model(pairs@);
        assert(all.take(i + 1).drop_last() =~= all.take(i as int));
        assert(all.take(i + 1).last() == (pairs@[i as int].0@, pairs@[i as int].1@));
        if pairs[i].0 == wanted {
            count = count + 1;
            found = Some(pairs[i].1.clone());
        }
        i = i + 1;
    }
    assert(pairs_model(pairs@).take(i as int) =~= pairs_model(pairs@));
    (count, found)
}

/// Reads a completion payload from decoded pairs.
pub fn completion_from_pairs(pairs: &Vec<(String, String)>) -> (r: Result<
    FinResponse<String>,
    Malformed,
>)
    ensures
        decoded_model(r) == completion_of(pairs_model(pairs@)),
{
    let (n_token, token) = find_values(pairs, "csrf_token");
    let (n_response, response) = find_values(pairs, "response");
    let (n_welcome, welcome) = find_values(pairs, "welcome_redirect");
    if n_token != 1 {
        return Err(Malformed::CsrfToken);
    }
    if n_response != 1 {
        return Err(Malformed::Response);
    }
    if n_welcome > 1 {
        return Err(Malformed::WelcomeRedirect);
    }
    let out = FinResponse {
        csrf_token: CsrfToken::new(token.unwrap()),
        response: response.unwrap(),
        welcome_redirect: welcome,
    };
    Ok(out)
}

/// Reads a completion payload from a query string: the string is decoded into
/// pairs, and the pairs are read as `completion_of` says.
pub fn decode_completion(query: &str) -> (r: Result<FinResponse<String>, Malformed>)
    ensures
        decoded_model(r) == completion_of(form_decoded(query@)),
{
    let pairs: Vec<(String, String)> = form_decode(query);
    completion_from_pairs(&pairs)
}

/// The pairs of a completion payload, ready to be written.
pub fn completion_to_pairs(response: &FinResponse<String>) -> (r: Vec<(String, String)>)
    ensures
        pairs_model(r@) == completion_pairs(response@),
{
    let mut pairs: Vec<(String, String)> = Vec::new();
    pairs.push((String::from_str("csrf_token"), response.csrf_token.secret.clone()));
    pairs.push((String::from_str("response"), response.response.clone()));
    match &response.welcome_redirect {
        Some(w) => {
            pairs.push((String::from_str("welcome_redirect"), w.clone()));
        },
        None => {},
    }
    assert(pairs_model(pairs@) =~= completion_pairs(response@));
    pairs
}

/// Writes a completion payload as a query string.
pub fn encode_completion(response: &FinResponse<String>) -> (r: String)
    ensures
        r@ == form_encoded(completion_pairs(response@)),
{
    let pairs: Vec<(String, String)> = completion_to_pairs(response);
    form_encode(&pairs)
}

/// A payload that is written as pairs and read back from those pairs comes
/// out as it went in.
pub proof fn lemma_pairs_round_trip(c: CompletionModel)
    ensures
        completion_of(completion_pairs(c)) == Ok::<CompletionModel, Malformed>(c),
{
    reveal_strlit("csrf_token");
    reveal_strlit("response");
    reveal_strlit("welcome_redirect");
    let token = "csrf_token"@;
    let response = "response"@;
    let welcome = "welcome_redirect"@;
    assert(token.len() == 10 && response.len() == 8 && welcome.len() == 16);
    let none: Seq<(Seq<char>, Seq<char>)> = Seq::empty();
    let one = none.push((token, c.csrf_token));
    let two = one.push((response, c.response));
    assert(one.drop_last() =~= none);
    assert(two.drop_last() =~= one);
    assert(seq![(token, c.csrf_token), (response, c.response)] =~= two);
    reveal_with_fuel(values_of, 5);
    assert(values_of(none, token) =~= Seq::empty());
    assert(values_of(none, response) =~= Seq::empty());
    assert(values_of(none, welcome) =~= Seq::empty());
    assert(values_of(two, token) =~= seq![c.csrf_token]);
    assert(values_of(two, response) =~= seq![c.response]);
    assert(values_of(two, welcome) =~= Seq::empty());
    match c.welcome_redirect {
        Some(w) => {
            let three = two.push((welcome, w));
            assert(three.drop_last() =~= two);
            assert(completion_pairs(c) =~= three);
            assert(values_of(three, token) =~= seq![c.csrf_token]);
            assert(values_of(three, response) =~= seq![c.response]);
            assert(values_of(three, welcome) =~= seq![w]);
        },
        None => {
            assert(completion_pairs(c) =~= two);
        },
    }
}

/// Why a query is no `finish` callback.
#[derive(Debug, Clone, Copy, PartialEq, Eq, Structural)]
pub enum MalformedFinish {
    /// The nonce is absent or given more than once. It may come as
    /// `csrf_token` or, as authorization servers echo it, as `state`.
    CsrfToken,
    /// `client_port` is absent, given more than once, or no port number.
    ClientPort,
    /// `code` is absent or given more than once.
    Code,
}

/// What a list of pairs means as a `finish` callback. The nonce must occur
/// once, under either of its two keys; `client_port` once, as the decimal
/// numeral of a port; `code` once. Other keys are passed over.
pub open spec fn finish_of(pairs: Seq<(Seq<char>, Seq<char>)>) -> Result<
    FinParamsModel,
    MalformedFinish,
> {
    let nonces = values_of(pairs, "csrf_token"@) + values_of(pairs, "state"@);
    let port = single_value(pairs, "client_port"@);
    let code = single_value(pairs, "code"@);
    if nonces.len() != 1 {
        Err(MalformedFinish::CsrfToken)
    } else if port is None || port_of(port.unwrap()) is None {
        Err(MalformedFinish::ClientPort)
    } else if code is None {
        Err(MalformedFinish::Code)
    } else {
        Ok(
            FinParamsModel {
                csrf_token: nonces[0],
                client_port: port_of(port.unwrap()).unwrap(),
                code: code.unwrap(),
            },
        )
    }
}

/// A decoded callback as the contracts see it.
pub open spec fn finish_model(r: Result<FinParams, MalformedFinish>) -> Result<
    FinParamsModel,
    MalformedFinish,
> {
    match r {
        Ok(p) => Ok(p@),
        Err(e) => Err(e),
    }
}

/// Reads a `finish` callback from decoded pairs.
pub fn finish_from_pairs(pairs: &Vec<(String, String)>) -> (r: Result<FinParams, MalformedFinish>)
    ensures
        finish_model(r) == finish_of(pairs_model(pairs@)),
{
    let (n_token, token) = find_values(pairs, "csrf_token");
    let (n_state, state) = find_values(pairs, "state");
    let (n_port, port) = find_values(pairs, "client_port");
    let (n_code, code) = find_values(pairs, "code");
    let nonce: String = if n_token == 1 && n_state == 0 {
        token.unwrap()
    } else if n_token == 0 && n_state == 1 {
        state.unwrap()
    } else {
        return Err(MalformedFinish::CsrfToken);
    };
    if n_port != 1 {
        return Err(MalformedFinish::ClientPort);
    }
    let client_port: u16 = match parse_port(port.unwrap().as_str()) {
        Some(p) => p,
        None => {
            return Err(MalformedFinish::ClientPort);
        },
    };
    if n_code != 1 {
        return Err(MalformedFinish::Code);
    }
    Ok(
        FinParams {
            csrf_token: CsrfToken::new(nonce),
            client_port,
            code: AuthorizationCode::new(code.unwrap()),
        },
    )
}

/// Reads a `finish` callback from a query string: the string is decoded into
/// pairs, and the pairs are read as `finish_of` says.
pub fn decode_finish(query: &str) -> (r: Result<FinParams, MalformedFinish>)
    ensures
        finish_model(r) == finish_of(form_decoded(query@)),
{
    let pairs: Vec<(String, String)> = form_decode(query);
    finish_from_pairs(&pairs)
}

} // verus!
