//! The origin dialect: which event shape produced an invocation. The tag is
//! captured at decode time and picks the response envelope's shape; it is
//! never inferred from the response itself.

use vstd::prelude::*;
use crate::text::str_eq;

verus! {

/// The supported envelope dialects.
#[derive(Debug, Clone, Copy, PartialEq, Eq, Structural)]
pub enum RequestOrigin {
    Gateway,
    GatewayV2,
    Alb,
}

/// The origin a dialect discriminator names, if it is a known one.
pub open spec fn spec_origin_of(d: Seq<char>) -> Option<RequestOrigin> {
    if d == "gateway"@ {
        Some(RequestOrigin::Gateway)
    } else if d == "gateway-v2"@ {
        Some(RequestOrigin::GatewayV2)
    } else if d == "alb"@ {
        Some(RequestOrigin::Alb)
    } else {
        None
    }
}

/// Reads a dialect discriminator, as `spec_origin_of` says.
pub fn origin_of(d: &str) -> (r: Option<RequestOrigin>)
    ensures
        r == spec_origin_of(d@),
{
    if str_eq(d, "gateway") {
        Some(RequestOrigin::Gateway)
    } else if str_eq(d, "gateway-v2") {
        Some(RequestOrigin::GatewayV2)
    } else if str_eq(d, "alb") {
        Some(RequestOrigin::Alb)
    } else {
        None
    }
}

} // verus!
