//! The bridge's error taxonomy, the application failure value handed back by
//! the invoked server, and the diagnostic reported to the control plane.

use vstd::prelude::*;
use vstd::string::*;

verus! {

/// A fault of the bridge itself. Every variant is fatal to the run loop:
/// a malformed or context-free envelope has no addressee to report to, an
/// encoding failure leaves nothing to post, and a misuse of the
/// bind/accept contract is a programming error of the hosting framework.
#[derive(Debug, Clone, Copy, PartialEq, Eq, Structural)]
pub enum BridgeError {
    /// The poll response body did not parse as an event envelope.
    MalformedEnvelope,
    /// A required identifying header of the poll response was absent.
    MissingContext,
    /// The response body could not be materialized as envelope text.
    EncodingError,
    /// `bind` and `accept` were called out of order, or an event arrived
    /// that the current state cannot take.
    Misuse,
}

/// A failure returned by the invoked application instead of a response:
/// a classification and a human-readable message. This is the one error
/// category the run loop survives.
#[derive(Debug, Clone)]
pub struct AppError {
    pub kind: String,
    pub message: String,
}

impl AppError {
    /// Builds an application failure value.
    pub fn new(kind: String, message: String) -> (e: AppError)
        ensures
            e.kind == kind,
            e.message == message,
    {
        AppError { kind, message }
    }
}

/// The structured failure payload posted to the control plane's error route.
#[derive(Debug, Clone)]
pub struct Diagnostic {
    pub error_type: String,
    pub error_message: String,
}

/// The classification a diagnostic carries: the failure's own kind, or a
/// fixed fallback where the kind is empty.
pub open spec fn spec_diag_type(e: AppError) -> Seq<char> {
    if e.kind@.len() == 0 {
        "UnhandledError"@
    } else {
        e.kind@
    }
}

/// The message a diagnostic carries: the failure's own message, or a fixed
/// fallback where the message is empty.
pub open spec fn spec_diag_message(e: AppError) -> Seq<char> {
    if e.message@.len() == 0 {
        "unhandled application error"@
    } else {
        e.message@
    }
}

/// A diagnostic built from any application failure is never empty in either
/// field, so the last-resort reporting path always has something to say.
pub proof fn lemma_diagnostic_nonempty(e: AppError)
    ensures
        spec_diag_type(e).len() > 0,
        spec_diag_message(e).len() > 0,
{
    reveal_strlit("UnhandledError");
    reveal_strlit("unhandled application error");
}

impl Diagnostic {
    /// Classifies an application failure as a diagnostic, substituting
    /// fixed fallbacks for empty fields.
    pub fn from_app_error(e: &AppError) -> (d: Diagnostic)
        ensures
            d.error_type@ == spec_diag_type(*e),
            d.error_message@ == spec_diag_message(*e),
            d.error_type@.len() > 0,
            d.error_message@.len() > 0,
    {
        proof {
            lemma_diagnostic_nonempty(*e);
        }
        let error_type = if e.kind.as_str().is_empty() {
            String::from_str("UnhandledError")
        } else {
            e.kind.clone()
        };
        let error_message = if e.message.as_str().is_empty() {
            String::from_str("unhandled application error")
        } else {
            e.message.clone()
        };
        Diagnostic { error_type, error_message }
    }
}

} // verus!
