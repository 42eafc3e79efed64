//! The authorization servers that the proxy can be pointed at.

use vstd::prelude::*;
use vstd::string::*;

verus! {

/// An OAuth 2.0 authorization server, known by its two endpoints.
#[derive(Debug, Clone, PartialEq, Eq)]
pub enum Provider {
    Github,
    Custom {
        /// Where the user is sent to authorize the request.
        auth_url: String,
        /// Where an authorization code is exchanged for a token.
        token_url: String,
    },
}

impl Provider {
    /// The authorize endpoint and the token endpoint, in that order.
    pub open spec fn urls(self) -> (Seq<char>, Seq<char>) {
        match self {
            Provider::Github => (
                "https://github.com/login/oauth/authorize"@,
                "https://github.com/login/oauth/access_token"@,
            ),
            Provider::Custom { auth_url, token_url } => (auth_url@, token_url@),
        }
    }

    /// Gives the authorize endpoint and the token endpoint, in that order.
    pub fn into_urls(self) -> (r: (String, String))
        ensures
            (r.0@, r.1@) == self.urls(),
    {
        match self {
            Provider::Github => (
                String::from_str("https://github.com/login/oauth/authorize"),
                String::from_str("https://github.com/login/oauth/access_token"),
            ),
            Provider::Custom { auth_url, token_url } => (auth_url, token_url),
        }
    }
}

} // verus!
