//! The invocation context: the identifying metadata the control plane puts
//! into the poll response's headers. The request id addresses the follow-up
//! POST; the other fields are carried through untouched for downstream
//! handlers to read.

use vstd::prelude::*;
use crate::model::header_views;
use crate::text::str_eq;

verus! {

/// Metadata of one invocation, taken from the poll response's headers.
#[derive(Debug, Clone)]
pub struct InvocationContext {
    pub request_id: String,
    pub deadline: Option<String>,
    pub function_metadata: Option<String>,
    pub client_context: Option<String>,
    pub identity: Option<String>,
}

/// The first value under `name` in a header multimap, if any.
pub open spec fn spec_find_header(h: Seq<(Seq<char>, Seq<char>)>, name: Seq<char>) -> Option<
    Seq<char>,
>
    decreases h.len(),
{
    if h.len() == 0 {
        None
    } else if h[0].0 == name {
        Some(h[0].1)
    } else {
        spec_find_header(h.drop_first(), name)
    }
}

/// Looks a header up, as `spec_find_header` says.
pub fn find_header(headers: &Vec<(String, String)>, name: &str) -> (r: Option<String>)
    ensures
        match r {
            Some(v) => spec_find_header(header_views(headers@), name@) == Some(v@),
            None => spec_find_header(header_views(headers@), name@) is None,
        },
{
    let ghost hv = header_views(headers@);
    proof {
        assert(hv.skip(0) =~= hv);
    }
    let mut i: usize = 0;
    while i < headers.len()
        invariant
            i <= headers.len(),
            hv == header_views(headers@),
            hv.len() == headers.len(),
            spec_find_header(hv, name@) == spec_find_header(hv.skip(i as int), name@),
        decreases headers.len() - i,
    {
        proof {
            assert(hv.skip(i as int)[0] == hv[i as int]);
            assert(hv[i as int] == (headers@[i as int].0@, headers@[i as int].1@));
            assert(hv.skip(i as int).drop_first() =~= hv.skip(i as int + 1));
        }
        if str_eq(headers[i].0.as_str(), name) {
            return Some(headers[i].1.clone());
        }
        i += 1;
    }
    proof {
        assert(hv.skip(headers.len() as int) =~= Seq::<(Seq<char>, Seq<char>)>::empty());
    }
    None
}

} // verus!
