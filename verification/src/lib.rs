//! An invocation bridge that lets a socket-style HTTP server run inside a
//! managed serverless execution environment: instead of accepting
//! connections, the process long-polls a local control plane for work,
//! translates each delivered event envelope into a canonical HTTP request,
//! and posts the handler's response (or a structured diagnostic) back.
//!
//! The envelope codec, the invocation context, the control-plane routes and
//! the bind/accept state machine are verified here; the async transport
//! shell lives outside the library.

use vstd::prelude::*;

verus! {

/// The classification label for an opaque failure value. Verified code has
/// no view into the runtime's description of a type, so every opaque value
/// classifies under the unhandled fallback; the transport shell substitutes
/// the runtime's own description where it can see one.
pub fn type_name_of<T: ?Sized>(_val: &T) -> (r: &'static str)
    ensures
        r@ == "UnhandledError"@,
{
    "UnhandledError"
}

} // verus!

pub mod base64;
pub mod bridge;
pub mod codec;
pub mod context;
pub mod envelope;
pub mod error;
pub mod json;
pub mod model;
pub mod origin;
pub mod text;
