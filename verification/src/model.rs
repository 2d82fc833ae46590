//! Canonical HTTP values the bridge translates between: a request taken out
//! of an event envelope, and a response to be put into one. Headers form an
//! ordered multimap in which a name may repeat.

use vstd::prelude::*;

verus! {

/// A message body. An absent body is distinct from an empty textual one,
/// and the distinction survives translation.
#[derive(Debug, Clone)]
pub enum Body {
    Empty,
    Text(String),
    Binary(Vec<u8>),
}

/// A canonical HTTP request, decoded from an event envelope.
#[derive(Debug, Clone)]
pub struct Request {
    pub method: String,
    pub path: String,
    pub query: String,
    pub headers: Vec<(String, String)>,
    pub body: Body,
}

/// A canonical HTTP response, to be encoded into a response envelope.
#[derive(Debug, Clone)]
pub struct Response {
    pub status: u16,
    pub headers: Vec<(String, String)>,
    pub body: Body,
}

/// The header pairs as character sequences, in order.
pub open spec fn header_views(h: Seq<(String, String)>) -> Seq<(Seq<char>, Seq<char>)> {
    h.map_values(|p: (String, String)| (p.0@, p.1@))
}

} // verus!
