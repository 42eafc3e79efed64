//! Authenticating a command-line client through OAuth 2.0, brokered by a proxy
//! that alone holds the client secret.
//!
//! Three parties take part in one handshake. The client opens a single-shot
//! listener on loopback and asks the proxy for an authorization URL. The user
//! visits that URL; the authorization server sends the browser back to the
//! proxy, which exchanges the code for an access token, hands the token to a
//! session handler and redirects the browser to the client's listener with
//! the handler's result. The listener releases the result only to a request
//! that carries the nonce the client chose.
//!
//! Everything here is a decision on plain values: what to send, what to
//! answer, which state comes next. Sockets, the browser and the token
//! endpoint are driven by the program around this library.

pub mod text;
pub mod msgs;
pub mod codec;
pub mod server;
pub mod proxy;
pub mod client;




