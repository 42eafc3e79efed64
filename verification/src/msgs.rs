//! The values that the three parties exchange.

use vstd::prelude::*;
use vstd::string::*;
use crate::text::{html_escape, html_escaped};

verus! {

/// Anti-forgery nonce that binds one handshake attempt. The client makes it,
/// the proxy echoes it, and the client compares it on completion.
#[derive(Debug, Clone, PartialEq, Eq)]
pub struct CsrfToken {
    pub secret: String,
}

impl View for CsrfToken {
    type V = Seq<char>;

    open spec fn view(&self) -> Seq<char> {
        self.secret@
    }
}

/// Whether `s` has the form of a fresh nonce: 128 bits in URL-safe base64
/// without padding, which is 22 characters of that alphabet.
pub open spec fn is_fresh_nonce(s: Seq<char>) -> bool {
    &&& s.len() == 22
    &&& forall|i: int| 0 <= i < s.len() ==> is_base64url(#[trigger] s[i])
}

impl CsrfToken {
    pub fn new(secret: String) -> (r: Self)
        ensures
            r@ == secret@,
    {
        CsrfToken { secret }
    }

    /// A fresh nonce: 128 random bits, as 22 characters that are safe in a URL.
    pub fn new_random() -> (r: Self)
        ensures
            is_fresh_nonce(r@),
    {
        CsrfToken { secret: random_secret() }
    }

    pub fn secret(&self) -> (r: &str)
        ensures
            r@ == self@,
    {
        self.secret.as_str()
    }

    /// Whole-string equality: no prefix or partial match counts.
    pub fn matches(&self, other: &CsrfToken) -> (r: bool)
        ensures
            r == (self@ == other@),
    {
        self.secret == other.secret
    }

    pub fn duplicate(&self) -> (r: Self)
        ensures
            r@ == self@,
    {
        CsrfToken { secret: self.secret.clone() }
    }
}

/// Whether `c` is a letter, a digit, `-` or `_`: the alphabet of URL-safe
/// base64.
pub open spec fn is_base64url(c: char) -> bool {
    ('A' <= c && c <= 'Z') || ('a' <= c && c <= 'z') || ('0' <= c && c <= '9') || c == '-' || c
        == '_'
}

/// oauth2's `CsrfToken::new_random`: 16 bytes from the thread's random
/// generator, written in URL-safe base64 without padding. The contract claims
/// the form of the text, which is the same for every outcome; which text it is
/// differs from call to call and is not claimed.
#[verifier::external_body]
fn random_secret() -> (r: String)
    ensures
        is_fresh_nonce(r@),
{
    oauth2::CsrfToken::new_random().secret().clone()
}

/// One-time code that the authorization server hands to the proxy.
#[derive(Debug, Clone, PartialEq, Eq)]
pub struct AuthorizationCode {
    pub secret: String,
}

impl View for AuthorizationCode {
    type V = Seq<char>;

    open spec fn view(&self) -> Seq<char> {
        self.secret@
    }
}

impl AuthorizationCode {
    pub fn new(secret: String) -> (r: Self)
        ensures
            r@ == secret@,
    {
        AuthorizationCode { secret }
    }

    pub fn secret(&self) -> (r: &str)
        ensures
            r@ == self@,
    {
        self.secret.as_str()
    }
}

/// Bearer credential from the authorization server.
#[derive(Debug, Clone, PartialEq, Eq)]
pub struct AccessToken {
    pub secret: String,
}

impl View for AccessToken {
    type V = Seq<char>;

    open spec fn view(&self) -> Seq<char> {
        self.secret@
    }
}

impl AccessToken {
    pub fn new(secret: String) -> (r: Self)
        ensures
            r@ == secret@,
    {
        AccessToken { secret }
    }

    pub fn secret(&self) -> (r: &str)
        ensures
            r@ == self@,
    {
        self.secret.as_str()
    }
}

/// What the client sends to the proxy to begin a handshake.
#[derive(Debug, Clone, PartialEq, Eq)]
pub struct GenParams {
    pub csrf_token: CsrfToken,
    pub client_port: u16,
}

/// What the authorization server's redirect brings to the proxy.
#[derive(Debug, Clone, PartialEq, Eq)]
pub struct FinParams {
    pub csrf_token: CsrfToken,
    pub client_port: u16,
    pub code: AuthorizationCode,
}

/// A `finish` callback as the contracts see it.
pub ghost struct FinParamsModel {
    pub csrf_token: Seq<char>,
    pub client_port: u16,
    pub code: Seq<char>,
}

impl View for FinParams {
    type V = FinParamsModel;

    open spec fn view(&self) -> FinParamsModel {
        FinParamsModel {
            csrf_token: self.csrf_token@,
            client_port: self.client_port,
            code: self.code@,
        }
    }
}

/// What the proxy sends to the client's listener to complete a handshake.
#[derive(Debug, Clone, PartialEq, Eq)]
pub struct FinResponse<R> {
    pub csrf_token: CsrfToken,
    pub response: R,
    pub welcome_redirect: Option<String>,
}

/// A completion payload as the contracts see it: text for text.
pub ghost struct CompletionModel {
    pub csrf_token: Seq<char>,
    pub response: Seq<char>,
    pub welcome_redirect: Option<Seq<char>>,
}

/// An optional string as an optional sequence of characters.
pub open spec fn opt_text(s: Option<String>) -> Option<Seq<char>> {
    match s {
        Some(t) => Some(t@),
        None => None,
    }
}

impl View for FinResponse<String> {
    type V = CompletionModel;

    open spec fn view(&self) -> CompletionModel {
        CompletionModel {
            csrf_token: self.csrf_token@,
            response: self.response@,
            welcome_redirect: opt_text(self.welcome_redirect),
        }
    }
}

/// An HTTP answer, reduced to what the handshake decides.
#[derive(Debug, Clone, PartialEq, Eq)]
pub struct HttpReply {
    pub status: u16,
    /// Target of the `Location` header, where one is sent.
    pub location: Option<String>,
    /// Whether `Connection: close` is sent.
    pub close: bool,
    pub body: String,
}

pub ghost struct ReplyModel {
    pub status: u16,
    pub location: Option<Seq<char>>,
    pub close: bool,
    pub body: Seq<char>,
}

impl View for HttpReply {
    type V = ReplyModel;

    open spec fn view(&self) -> ReplyModel {
        ReplyModel {
            status: self.status,
            location: opt_text(self.location),
            close: self.close,
            body: self.body@,
        }
    }
}

/// An answer with a status and nothing else.
pub open spec fn bare_reply(status: u16, close: bool) -> ReplyModel {
    ReplyModel { status, location: None, close, body: Seq::empty() }
}

impl HttpReply {
    /// An answer with an empty body and no `Location`.
    pub fn bare(status: u16, close: bool) -> (r: Self)
        ensures
            r@ == bare_reply(status, close),
    {
        HttpReply { status, location: None, close, body: String::new() }
    }
}

/// The page that sends a browser on to `target`. The target stands in two
/// attributes, escaped for them.
pub open spec fn redirect_page_model(target: Seq<char>) -> Seq<char> {
    "<!DOCTYPE html><html><head><meta http-equiv=\"refresh\" content=\"0; url="@ + html_escaped(
        target,
    ) + "\"></head><body><a href=\""@ + html_escaped(target)
        + "\">Continue</a></body></html>"@
}

/// Builds the page that sends a browser on to `target`.
pub fn get_redirect_page(target: &str) -> (r: String)
    ensures
        r@ == redirect_page_model(target@),
{
    let escaped: String = html_escape(target);
    let mut page: String = String::from_str(
        "<!DOCTYPE html><html><head><meta http-equiv=\"refresh\" content=\"0; url=",
    );
    page.append(escaped.as_str());
    page.append("\"></head><body><a href=\"");
    page.append(escaped.as_str());
    page.append("\">Continue</a></body></html>");
    page
}

} // verus!
