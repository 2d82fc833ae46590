//! The public envelope codec: decoding a poll response into a canonical
//! request with its invocation context and origin, and encoding a response
//! or a diagnostic back into envelope text.

use vstd::prelude::*;
use vstd::string::*;
use crate::base64::{spec_b64_decode, b64_decode};
use crate::context::{InvocationContext, spec_find_header, find_header};
use crate::envelope::{
    EnvFields, spec_parse_envelope, parse_envelope, data_view, chpairs_view, spec_ser_response,
    spec_ser_diagnostic, spec_body_member, spec_ser_pairs, write_response_envelope,
    write_diagnostic_envelope,
};
use crate::error::{AppError, BridgeError, Diagnostic, spec_diag_type, spec_diag_message};
use crate::model::{Body, Request, Response, header_views};
use crate::origin::{RequestOrigin, spec_origin_of, origin_of};
use crate::text::{str_to_chars, chars_to_string};

verus! {

/// Why decoding a poll response fails, or `None` where it succeeds: the
/// identifying headers must be present, the dialect known, the body a well
/// formed envelope, and a body marked base64 must decode.
pub open spec fn spec_decode_err(h: Seq<(Seq<char>, Seq<char>)>, s: Seq<char>) -> Option<
    BridgeError,
> {
    if spec_find_header(h, "request-id"@) is None {
        Some(BridgeError::MissingContext)
    } else if spec_find_header(h, "dialect"@) is None {
        Some(BridgeError::MissingContext)
    } else if spec_origin_of(spec_find_header(h, "dialect"@)->Some_0) is None {
        Some(BridgeError::MalformedEnvelope)
    } else {
        match spec_parse_envelope(s) {
            None => Some(BridgeError::MalformedEnvelope),
            Some(env) => {
                if env.base64 && env.body is Some && spec_b64_decode(env.body->Some_0) is None {
                    Some(BridgeError::MalformedEnvelope)
                } else {
                    None
                }
            },
        }
    }
}

/// The body variant a decoded request holds for a given envelope body
/// member: absent becomes `Empty`, text becomes `Text`, and text marked
/// base64 becomes the decoded `Binary` bytes.
pub open spec fn spec_body_matches(b: Body, field: Option<Seq<char>>, base64: bool) -> bool {
    match field {
        None => b is Empty,
        Some(t) => {
            if base64 {
                b is Binary && spec_b64_decode(t) == Some(b->Binary_0@)
            } else {
                b is Text && b->Text_0@ == t
            }
        },
    }
}

/// The decoded request carries the envelope's method, path, query and full
/// header multimap, and its body as `spec_body_matches` says.
pub open spec fn spec_request_matches(req: Request, env: EnvFields) -> bool {
    &&& req.method@ == env.method
    &&& req.path@ == env.path
    &&& req.query@ == env.query
    &&& header_views(req.headers@) == env.headers
    &&& spec_body_matches(req.body, env.body, env.base64)
}

/// One optional context field against its header.
pub open spec fn opt_str_matches(o: Option<String>, s: Option<Seq<char>>) -> bool {
    match o {
        Some(x) => s == Some(x@),
        None => s is None,
    }
}

/// The context fields are copied verbatim from the poll response's headers.
pub open spec fn spec_context_matches(ctx: InvocationContext, h: Seq<(Seq<char>, Seq<char>)>) -> bool {
    &&& Some(ctx.request_id@) == spec_find_header(h, "request-id"@)
    &&& opt_str_matches(ctx.deadline, spec_find_header(h, "deadline"@))
    &&& opt_str_matches(ctx.function_metadata, spec_find_header(h, "function-metadata"@))
    &&& opt_str_matches(ctx.client_context, spec_find_header(h, "client-context"@))
    &&& opt_str_matches(ctx.identity, spec_find_header(h, "identity"@))
}

/// Decodes a poll response into a canonical request, its invocation
/// context and its origin dialect. Succeeds exactly where
/// `spec_decode_err` is `None`, and fails with the error it names.
pub fn decode_invocation(headers: &Vec<(String, String)>, body_text: &str) -> (r: Result<
    (Request, InvocationContext, RequestOrigin),
    BridgeError,
>)
    ensures
        ({
            let h = header_views(headers@);
            let s = body_text@;
            match r {
                Ok(t) => {
                    &&& spec_decode_err(h, s) is None
                    &&& spec_parse_envelope(s) matches Some(env) && spec_request_matches(t.0, env)
                    &&& spec_context_matches(t.1, h)
                    &&& Some(t.2) == spec_origin_of(spec_find_header(h, "dialect"@)->Some_0)
                },
                Err(e) => spec_decode_err(h, s) == Some(e),
            }
        }),
{
    let request_id = match find_header(headers, "request-id") {
        Some(x) => x,
        None => { return Err(BridgeError::MissingContext); },
    };
    let dialect = match find_header(headers, "dialect") {
        Some(x) => x,
        None => { return Err(BridgeError::MissingContext); },
    };
    let origin = match origin_of(dialect.as_str()) {
        Some(o) => o,
        None => { return Err(BridgeError::MalformedEnvelope); },
    };
    let chars = str_to_chars(body_text);
    let env = match parse_envelope(&chars) {
        Some(e) => e,
        None => { return Err(BridgeError::MalformedEnvelope); },
    };
    let body: Body = match env.body {
        None => Body::Empty,
        Some(t) => {
            if env.base64 {
                match b64_decode(&t) {
                    Some(bytes) => Body::Binary(bytes),
                    None => { return Err(BridgeError::MalformedEnvelope); },
                }
            } else {
                Body::Text(chars_to_string(&t))
            }
        },
    };
    let ghost env_hdrs = chpairs_view(env.headers@);
    let mut pairs: Vec<(String, String)> = Vec::new();
    proof {
        assert(header_views(pairs@) =~= env_hdrs.take(0));
    }
    let mut i: usize = 0;
    while i < env.headers.len()
        invariant
            i <= env.headers.len(),
            env_hdrs == chpairs_view(env.headers@),
            env_hdrs.len() == env.headers.len(),
            pairs@.len() == i as int,
            header_views(pairs@) == env_hdrs.take(i as int),
        decreases env.headers.len() - i,
    {
        let name = chars_to_string(&env.headers[i].0);
        let value = chars_to_string(&env.headers[i].1);
        let ghost prev = pairs@;
        pairs.push((name, value));
        proof {
            assert(env_hdrs[i as int] == (env.headers@[i as int].0@, env.headers@[i as int].1@));
            assert(pairs@ == prev.push((name, value)));
            assert forall|k: int| 0 <= k < i as int + 1 implies header_views(pairs@)[k]
                == env_hdrs[k] by {
                if k < i as int {
                    assert(pairs@[k] == prev[k]);
                    assert(header_views(prev)[k] == env_hdrs.take(i as int)[k]);
                } else {
                    assert(pairs@[k] == (name, value));
                }
            }
            assert(header_views(pairs@) =~= env_hdrs.take(i as int + 1));
        }
        i += 1;
    }
    proof {
        assert(env_hdrs.take(env.headers.len() as int) =~= env_hdrs);
    }
    let req = Request {
        method: chars_to_string(&env.method),
        path: chars_to_string(&env.path),
        query: chars_to_string(&env.query),
        headers: pairs,
        body,
    };
    let ctx = InvocationContext {
        request_id,
        deadline: find_header(headers, "deadline"),
        function_metadata: find_header(headers, "function-metadata"),
        client_context: find_header(headers, "client-context"),
        identity: find_header(headers, "identity"),
    };
    Ok((req, ctx, origin))
}

/// Encodes a response as envelope text shaped by the origin captured at
/// decode time. A binary response body cannot be carried as envelope text
/// and is refused, never truncated.
pub fn encode_response(resp: &Response, origin: RequestOrigin) -> (r: Result<String, BridgeError>)
    ensures
        match r {
            Ok(s) => !(resp.body is Binary) && s@ == spec_ser_response(*resp, origin),
            Err(e) => resp.body is Binary && e == BridgeError::EncodingError,
        },
{
    let mut out: Vec<char> = Vec::new();
    if write_response_envelope(resp, origin, &mut out) {
        Ok(chars_to_string(&out))
    } else {
        Err(BridgeError::EncodingError)
    }
}

/// Encodes a diagnostic as envelope text. This is the last-resort path:
/// it is total and cannot fail.
pub fn encode_diagnostic(d: &Diagnostic) -> (r: String)
    ensures
        r@ == spec_ser_diagnostic(*d),
{
    let mut out: Vec<char> = Vec::new();
    write_diagnostic_envelope(d, &mut out);
    chars_to_string(&out)
}

/// The diagnostic text an application failure is reported as.
pub open spec fn spec_ser_diag_of(e: AppError) -> Seq<char> {
    "{\"errorType\":"@ + crate::json::spec_ser_string(spec_diag_type(e)) + ",\"errorMessage\":"@
        + crate::json::spec_ser_string(spec_diag_message(e)) + "}"@
}

/// Classifying and encoding an application failure in one step: always
/// succeeds, for any failure value.
pub fn encode_app_error(e: &AppError) -> (r: String)
    ensures
        r@ == spec_ser_diag_of(*e),
{
    let d = Diagnostic::from_app_error(e);
    encode_diagnostic(&d)
}

/// Round-trip header fidelity: a response that carries the decoded
/// request's headers is encoded with exactly the envelope's header pairs —
/// every name/value pair, with its multiplicity and order.
pub proof fn lemma_header_round_trip(req: Request, env: EnvFields, resp: Response, origin: RequestOrigin)
    requires
        spec_request_matches(req, env),
        header_views(resp.headers@) == header_views(req.headers@),
    ensures
        header_views(resp.headers@) == env.headers,
        spec_ser_pairs(header_views(resp.headers@)) == spec_ser_pairs(env.headers),
{
}

/// Body-variant fidelity: a decoded request's body is `Empty` exactly for
/// an absent or null body member, `Text` equal to a plain textual member,
/// and `Binary` equal to the bytes a base64 member decodes to.
pub proof fn lemma_body_variant_fidelity(req: Request, env: EnvFields)
    requires
        spec_request_matches(req, env),
    ensures
        env.body is None ==> req.body is Empty,
        env.body is Some && !env.base64 ==> req.body is Text && req.body->Text_0@ == env.body->Some_0,
        env.body is Some && env.base64 ==> req.body is Binary && spec_b64_decode(env.body->Some_0)
            == Some(req.body->Binary_0@),
{
}

/// Empty-vs-missing body distinction: with the status and headers equal,
/// the envelope of a response with no body differs from the envelope of a
/// response with a zero-length textual body, in every dialect.
pub proof fn lemma_empty_vs_missing(r1: Response, r2: Response, o: RequestOrigin)
    requires
        r1.body is Empty,
        r2.body is Text && r2.body->Text_0@.len() == 0,
        r1.status == r2.status,
        r1.headers@ == r2.headers@,
    ensures
        spec_body_member(r1.body) == Seq::<char>::empty(),
        spec_body_member(r2.body).len() > 0,
        spec_ser_response(r1, o) != spec_ser_response(r2, o),
{
    reveal_strlit(",\"body\":");
    assert(crate::json::spec_escape(r2.body->Text_0@) == Seq::<char>::empty());
    assert(spec_body_member(r2.body).len() == 10);
    assert(spec_ser_response(r1, o).len() + 10 == spec_ser_response(r2, o).len());
}

/// Origin pinning, shape side: the three dialects' envelopes are pairwise
/// distinct for any one response, so an encoder that used another
/// invocation's origin, or a default, would produce a different envelope.
pub proof fn lemma_origin_shapes_distinct(resp: Response, o1: RequestOrigin, o2: RequestOrigin)
    requires
        o1 != o2,
    ensures
        spec_ser_response(resp, o1) != spec_ser_response(resp, o2),
{
    reveal_strlit("{");
    reveal_strlit("{\"version\":\"2.0\",");
    reveal_strlit("{\"statusDescription\":\"");
    reveal_strlit("\"statusCode\":");
    let g = spec_ser_response(resp, RequestOrigin::Gateway);
    let v = spec_ser_response(resp, RequestOrigin::GatewayV2);
    let a = spec_ser_response(resp, RequestOrigin::Alb);
    assert(g[2] == 's');
    assert(v[2] == 'v');
    assert(a[2] == 's');
    assert(g[8] == 'C');
    assert(a[8] == 'D');
    assert(g != v);
    assert(g != a);
    assert(v != a);
}

} // verus!
