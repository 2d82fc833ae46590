//! The event-envelope wire format. A request envelope is one object with
//! the members `httpMethod`, `path`, `queryString`, `headers`, `body` and
//! `isBase64Encoded`, in any order, none repeated; `headers` is an object of
//! name/value strings in which a name may repeat, `body` is a string or
//! null. A response envelope is written out in a shape picked by the
//! request's origin dialect, with the header multimap as an array of
//! name/value pairs and the body member omitted when there is no body.

use vstd::prelude::*;
use vstd::string::*;
use crate::json::{
    spec_skip_ws, lemma_skip_ws_bounds, skip_ws, spec_scan_string, lemma_scan_string_bounds,
    scan_string, spec_match_at, match_at, spec_ser_string, write_jstring, write_lit, spec_digits,
    push_u16_digits,
};
use crate::model::{Body, Response, header_views};
use crate::text::chars_eq_str;
use crate::error::Diagnostic;
use crate::origin::RequestOrigin;

verus! {

/// The fields a request envelope yields once parsed.
pub struct EnvFields {
    pub method: Seq<char>,
    pub path: Seq<char>,
    pub query: Seq<char>,
    pub headers: Seq<(Seq<char>, Seq<char>)>,
    pub body: Option<Seq<char>>,
    pub base64: bool,
}

/// The fields gathered so far while members are read.
pub struct PartialEnv {
    pub method: Option<Seq<char>>,
    pub path: Option<Seq<char>>,
    pub query: Option<Seq<char>>,
    pub headers: Option<Seq<(Seq<char>, Seq<char>)>>,
    pub body: Option<Option<Seq<char>>>,
    pub base64: Option<bool>,
}

/// No member seen yet.
pub open spec fn empty_partial() -> PartialEnv {
    PartialEnv {
        method: None,
        path: None,
        query: None,
        headers: None,
        body: None,
        base64: None,
    }
}

/// A quoted string at position `i`: the decoded text and the index past
/// the closing quote.
pub open spec fn spec_parse_jstring(s: Seq<char>, i: int) -> Option<(Seq<char>, int)> {
    if i < 0 || i >= s.len() || s[i] != '"' {
        None
    } else {
        spec_scan_string(s, i + 1, Seq::empty())
    }
}

pub proof fn lemma_parse_jstring_bounds(s: Seq<char>, i: int)
    requires
        spec_parse_jstring(s, i) is Some,
    ensures
        i < spec_parse_jstring(s, i)->Some_0.1 <= s.len(),
{
    lemma_scan_string_bounds(s, i + 1, Seq::empty());
}

/// The members of a headers object, read from a position where a name
/// string is expected.
pub open spec fn spec_parse_hdr_entries(
    s: Seq<char>,
    i: int,
    acc: Seq<(Seq<char>, Seq<char>)>,
) -> Option<(Seq<(Seq<char>, Seq<char>)>, int)>
    decreases s.len() - i,
    via hdr_entries_dec
{
    match spec_parse_jstring(s, i) {
        None => None,
        Some((name, j1)) => {
            let j2 = spec_skip_ws(s, j1);
            if j2 >= s.len() || s[j2] != ':' {
                None
            } else {
                let j3 = spec_skip_ws(s, j2 + 1);
                match spec_parse_jstring(s, j3) {
                    None => None,
                    Some((val, j4)) => {
                        let j5 = spec_skip_ws(s, j4);
                        if j5 >= s.len() {
                            None
                        } else if s[j5] == ',' {
                            spec_parse_hdr_entries(
                                s,
                                spec_skip_ws(s, j5 + 1),
                                acc.push((name, val)),
                            )
                        } else if s[j5] == '}' {
                            Some((acc.push((name, val)), j5 + 1))
                        } else {
                            None
                        }
                    },
                }
            }
        },
    }
}

#[via_fn]
proof fn hdr_entries_dec(s: Seq<char>, i: int, acc: Seq<(Seq<char>, Seq<char>)>) {
    if spec_parse_jstring(s, i) is Some {
        lemma_parse_jstring_bounds(s, i);
        let j1 = spec_parse_jstring(s, i)->Some_0.1;
        lemma_skip_ws_bounds(s, j1);
        let j2 = spec_skip_ws(s, j1);
        if j2 < s.len() {
            lemma_skip_ws_bounds(s, j2 + 1);
            let j3 = spec_skip_ws(s, j2 + 1);
            if spec_parse_jstring(s, j3) is Some {
                lemma_parse_jstring_bounds(s, j3);
                let j4 = spec_parse_jstring(s, j3)->Some_0.1;
                lemma_skip_ws_bounds(s, j4);
                let j5 = spec_skip_ws(s, j4);
                if j5 < s.len() {
                    lemma_skip_ws_bounds(s, j5 + 1);
                }
            }
        }
    }
}

pub proof fn lemma_hdr_entries_bounds(s: Seq<char>, i: int, acc: Seq<(Seq<char>, Seq<char>)>)
    requires
        spec_parse_hdr_entries(s, i, acc) is Some,
    ensures
        i < spec_parse_hdr_entries(s, i, acc)->Some_0.1 <= s.len(),
    decreases s.len() - i,
{
    lemma_parse_jstring_bounds(s, i);
    let j1 = spec_parse_jstring(s, i)->Some_0.1;
    lemma_skip_ws_bounds(s, j1);
    let j2 = spec_skip_ws(s, j1);
    lemma_skip_ws_bounds(s, j2 + 1);
    let j3 = spec_skip_ws(s, j2 + 1);
    let (name, _) = spec_parse_jstring(s, i)->Some_0;
    lemma_parse_jstring_bounds(s, j3);
    let (val, j4) = spec_parse_jstring(s, j3)->Some_0;
    lemma_skip_ws_bounds(s, j4);
    let j5 = spec_skip_ws(s, j4);
    if s[j5] == ',' {
        lemma_skip_ws_bounds(s, j5 + 1);
        lemma_hdr_entries_bounds(s, spec_skip_ws(s, j5 + 1), acc.push((name, val)));
    }
}

/// A headers object at position `i`.
pub open spec fn spec_parse_headers(s: Seq<char>, i: int) -> Option<
    (Seq<(Seq<char>, Seq<char>)>, int),
> {
    if i < 0 || i >= s.len() || s[i] != '{' {
        None
    } else {
        let j = spec_skip_ws(s, i + 1);
        if j < s.len() && s[j] == '}' {
            Some((Seq::empty(), j + 1))
        } else {
            spec_parse_hdr_entries(s, j, Seq::empty())
        }
    }
}

pub proof fn lemma_parse_headers_bounds(s: Seq<char>, i: int)
    requires
        spec_parse_headers(s, i) is Some,
    ensures
        i < spec_parse_headers(s, i)->Some_0.1 <= s.len(),
{
    lemma_skip_ws_bounds(s, i + 1);
    let j = spec_skip_ws(s, i + 1);
    if j < s.len() && s[j] == '}' {
    } else {
        lemma_hdr_entries_bounds(s, j, Seq::empty());
    }
}

/// One member's value, dispatched on the member's name; yields the fields
/// with that member filled in and the index past the value. A repeated or
/// unknown member refuses the envelope.
pub open spec fn spec_member_value(s: Seq<char>, i: int, p: PartialEnv, key: Seq<char>) -> Option<
    (PartialEnv, int),
> {
    if key == "httpMethod"@ {
        if p.method is Some {
            None
        } else {
            match spec_parse_jstring(s, i) {
                None => None,
                Some((v, j)) => Some((PartialEnv { method: Some(v), ..p }, j)),
            }
        }
    } else if key == "path"@ {
        if p.path is Some {
            None
        } else {
            match spec_parse_jstring(s, i) {
                None => None,
                Some((v, j)) => Some((PartialEnv { path: Some(v), ..p }, j)),
            }
        }
    } else if key == "queryString"@ {
        if p.query is Some {
            None
        } else {
            match spec_parse_jstring(s, i) {
                None => None,
                Some((v, j)) => Some((PartialEnv { query: Some(v), ..p }, j)),
            }
        }
    } else if key == "headers"@ {
        if p.headers is Some {
            None
        } else {
            match spec_parse_headers(s, i) {
                None => None,
                Some((h, j)) => Some((PartialEnv { headers: Some(h), ..p }, j)),
            }
        }
    } else if key == "body"@ {
        if p.body is Some {
            None
        } else if 0 <= i < s.len() && s[i] == '"' {
            match spec_parse_jstring(s, i) {
                None => None,
                Some((v, j)) => Some((PartialEnv { body: Some(Some(v)), ..p }, j)),
            }
        } else if spec_match_at(s, i, "null"@) {
            Some((PartialEnv { body: Some(None), ..p }, i + 4))
        } else {
            None
        }
    } else if key == "isBase64Encoded"@ {
        if p.base64 is Some {
            None
        } else if spec_match_at(s, i, "true"@) {
            Some((PartialEnv { base64: Some(true), ..p }, i + 4))
        } else if spec_match_at(s, i, "false"@) {
            Some((PartialEnv { base64: Some(false), ..p }, i + 5))
        } else {
            None
        }
    } else {
        None
    }
}

pub proof fn lemma_member_value_bounds(s: Seq<char>, i: int, p: PartialEnv, key: Seq<char>)
    requires
        spec_member_value(s, i, p, key) is Some,
    ensures
        i < spec_member_value(s, i, p, key)->Some_0.1 <= s.len(),
{
    reveal_strlit("null");
    reveal_strlit("true");
    reveal_strlit("false");
    if key == "httpMethod"@ || key == "path"@ || key == "queryString"@ {
        lemma_parse_jstring_bounds(s, i);
    } else if key == "headers"@ {
        lemma_parse_headers_bounds(s, i);
    } else if key == "body"@ {
        if 0 <= i < s.len() && s[i] == '"' {
            lemma_parse_jstring_bounds(s, i);
        }
    }
}

/// The object members of a request envelope, read from a position where a
/// member name is expected.
pub open spec fn spec_parse_members(s: Seq<char>, i: int, p: PartialEnv) -> Option<
    (PartialEnv, int),
>
    decreases s.len() - i,
    via parse_members_dec
{
    match spec_parse_jstring(s, i) {
        None => None,
        Some((key, j1)) => {
            let j2 = spec_skip_ws(s, j1);
            if j2 >= s.len() || s[j2] != ':' {
                None
            } else {
                let j3 = spec_skip_ws(s, j2 + 1);
                match spec_member_value(s, j3, p, key) {
                    None => None,
                    Some((p2, j4)) => {
                        let j5 = spec_skip_ws(s, j4);
                        if j5 >= s.len() {
                            None
                        } else if s[j5] == ',' {
                            spec_parse_members(s, spec_skip_ws(s, j5 + 1), p2)
                        } else if s[j5] == '}' {
                            Some((p2, j5 + 1))
                        } else {
                            None
                        }
                    },
                }
            }
        },
    }
}

#[via_fn]
proof fn parse_members_dec(s: Seq<char>, i: int, p: PartialEnv) {
    if spec_parse_jstring(s, i) is Some {
        lemma_parse_jstring_bounds(s, i);
        let (key, j1) = spec_parse_jstring(s, i)->Some_0;
        lemma_skip_ws_bounds(s, j1);
        let j2 = spec_skip_ws(s, j1);
        if j2 < s.len() {
            lemma_skip_ws_bounds(s, j2 + 1);
            let j3 = spec_skip_ws(s, j2 + 1);
            if spec_member_value(s, j3, p, key) is Some {
                lemma_member_value_bounds(s, j3, p, key);
                let j4 = spec_member_value(s, j3, p, key)->Some_0.1;
                lemma_skip_ws_bounds(s, j4);
                let j5 = spec_skip_ws(s, j4);
                if j5 < s.len() {
                    lemma_skip_ws_bounds(s, j5 + 1);
                }
            }
        }
    }
}

/// Fills in defaults and checks the required members.
pub open spec fn spec_finish(p: PartialEnv) -> Option<EnvFields> {
    if p.method is Some && p.path is Some {
        Some(
            EnvFields {
                method: p.method->Some_0,
                path: p.path->Some_0,
                query: match p.query {
                    Some(q) => q,
                    None => Seq::empty(),
                },
                headers: match p.headers {
                    Some(h) => h,
                    None => Seq::empty(),
                },
                body: match p.body {
                    Some(b) => b,
                    None => None,
                },
                base64: match p.base64 {
                    Some(x) => x,
                    None => false,
                },
            },
        )
    } else {
        None
    }
}

/// The whole request envelope: one object, nothing but whitespace after it.
pub open spec fn spec_parse_envelope(s: Seq<char>) -> Option<EnvFields> {
    let i0 = spec_skip_ws(s, 0);
    if i0 >= s.len() || s[i0] != '{' {
        None
    } else {
        let j = spec_skip_ws(s, i0 + 1);
        let parsed = if j < s.len() && s[j] == '}' {
            Some((empty_partial(), j + 1))
        } else {
            spec_parse_members(s, j, empty_partial())
        };
        match parsed {
            None => None,
            Some((p, k)) => {
                if spec_skip_ws(s, k) == s.len() {
                    spec_finish(p)
                } else {
                    None
                }
            },
        }
    }
}

/// The header pairs of parsed character vectors, as character sequences.
pub open spec fn chpairs_view(h: Seq<(Vec<char>, Vec<char>)>) -> Seq<(Seq<char>, Seq<char>)> {
    h.map_values(|p: (Vec<char>, Vec<char>)| (p.0@, p.1@))
}

proof fn lemma_chpairs_push(h: Seq<(Vec<char>, Vec<char>)>, x: (Vec<char>, Vec<char>))
    ensures
        chpairs_view(h.push(x)) == chpairs_view(h).push((x.0@, x.1@)),
{
    assert(chpairs_view(h.push(x)) =~= chpairs_view(h).push((x.0@, x.1@)));
}

fn exec_parse_jstring(v: &Vec<char>, i: usize) -> (r: Option<(Vec<char>, usize)>)
    requires
        i <= v@.len(),
    ensures
        match r {
            Some(p) => {
                &&& spec_parse_jstring(v@, i as int) == Some((p.0@, p.1 as int))
                &&& i < p.1 <= v@.len()
            },
            None => spec_parse_jstring(v@, i as int) is None,
        },
{
    if i >= v.len() || v[i] != '"' {
        return None;
    }
    match scan_string(v, i + 1) {
        Some((out, j)) => Some((out, j)),
        None => None,
    }
}

fn exec_parse_headers(v: &Vec<char>, i: usize) -> (r: Option<(Vec<(Vec<char>, Vec<char>)>, usize)>)
    requires
        i <= v@.len(),
    ensures
        match r {
            Some(p) => {
                &&& spec_parse_headers(v@, i as int) == Some((chpairs_view(p.0@), p.1 as int))
                &&& i < p.1 <= v@.len()
            },
            None => spec_parse_headers(v@, i as int) is None,
        },
{
    if i >= v.len() || v[i] != '{' {
        return None;
    }
    let j_start = skip_ws(v, i + 1);
    if j_start < v.len() && v[j_start] == '}' {
        let out: Vec<(Vec<char>, Vec<char>)> = Vec::new();
        proof {
            assert(chpairs_view(out@) =~= Seq::<(Seq<char>, Seq<char>)>::empty());
        }
        return Some((out, j_start + 1));
    }
    let ghost j0 = j_start as int;
    let mut acc: Vec<(Vec<char>, Vec<char>)> = Vec::new();
    let mut j: usize = j_start;
    proof {
        assert(chpairs_view(acc@) =~= Seq::<(Seq<char>, Seq<char>)>::empty());
    }
    loop
        invariant
            j <= v@.len(),
            spec_parse_headers(v@, i as int) == spec_parse_hdr_entries(v@, j0, Seq::empty()),
            spec_parse_hdr_entries(v@, j0, Seq::empty()) == spec_parse_hdr_entries(
                v@,
                j as int,
                chpairs_view(acc@),
            ),
            i < j0 <= v@.len(),
            i as int + 1 <= j as int,
        decreases v@.len() - j,
    {
        let (name, j1) = match exec_parse_jstring(v, j) {
            Some(x) => x,
            None => { return None; },
        };
        let j2 = skip_ws(v, j1);
        if j2 >= v.len() || v[j2] != ':' {
            return None;
        }
        let j3 = skip_ws(v, j2 + 1);
        let (val, j4) = match exec_parse_jstring(v, j3) {
            Some(x) => x,
            None => { return None; },
        };
        let j5 = skip_ws(v, j4);
        if j5 >= v.len() {
            return None;
        }
        if v[j5] == ',' {
            proof {
                lemma_chpairs_push(acc@, (name, val));
            }
            acc.push((name, val));
            j = skip_ws(v, j5 + 1);
        } else if v[j5] == '}' {
            proof {
                lemma_chpairs_push(acc@, (name, val));
            }
            acc.push((name, val));
            return Some((acc, j5 + 1));
        } else {
            return None;
        }
    }
}

/// A parsed request envelope, held as plain values.
pub struct EnvelopeData {
    pub method: Vec<char>,
    pub path: Vec<char>,
    pub query: Vec<char>,
    pub headers: Vec<(Vec<char>, Vec<char>)>,
    pub body: Option<Vec<char>>,
    pub base64: bool,
}

/// The fields an `EnvelopeData` stands for.
pub open spec fn data_view(d: EnvelopeData) -> EnvFields {
    EnvFields {
        method: d.method@,
        path: d.path@,
        query: d.query@,
        headers: chpairs_view(d.headers@),
        body: match d.body {
            Some(b) => Some(b@),
            None => None,
        },
        base64: d.base64,
    }
}

struct PartialData {
    method: Option<Vec<char>>,
    path: Option<Vec<char>>,
    query: Option<Vec<char>>,
    headers: Option<Vec<(Vec<char>, Vec<char>)>>,
    body: Option<Option<Vec<char>>>,
    base64: Option<bool>,
}

spec fn partial_view(p: PartialData) -> PartialEnv {
    PartialEnv {
        method: match p.method {
            Some(m) => Some(m@),
            None => None,
        },
        path: match p.path {
            Some(m) => Some(m@),
            None => None,
        },
        query: match p.query {
            Some(m) => Some(m@),
            None => None,
        },
        headers: match p.headers {
            Some(h) => Some(chpairs_view(h@)),
            None => None,
        },
        body: match p.body {
            Some(b) => Some(
                match b {
                    Some(t) => Some(t@),
                    None => None,
                },
            ),
            None => None,
        },
        base64: p.base64,
    }
}

fn exec_parse_members(v: &Vec<char>, i: usize) -> (r: Option<(PartialData, usize)>)
    requires
        i <= v@.len(),
    ensures
        match r {
            Some(p) => {
                &&& spec_parse_members(v@, i as int, empty_partial()) == Some(
                    (partial_view(p.0), p.1 as int),
                )
                &&& p.1 <= v@.len()
            },
            None => spec_parse_members(v@, i as int, empty_partial()) is None,
        },
{
    let mut p = PartialData {
        method: None,
        path: None,
        query: None,
        headers: None,
        body: None,
        base64: None,
    };
    let mut j: usize = i;
    proof {
        assert(partial_view(p) == empty_partial());
    }
    loop
        invariant
            j <= v@.len(),
            spec_parse_members(v@, i as int, empty_partial()) == spec_parse_members(
                v@,
                j as int,
                partial_view(p),
            ),
        decreases v@.len() - j,
    {
        let (key, j1) = match exec_parse_jstring(v, j) {
            Some(x) => x,
            None => { return None; },
        };
        let j2 = skip_ws(v, j1);
        if j2 >= v.len() || v[j2] != ':' {
            return None;
        }
        let j3 = skip_ws(v, j2 + 1);
        // the member's value, by its name
        let j4: usize;
        if chars_eq_str(&key, "httpMethod") {
            if p.method.is_some() {
                return None;
            }
            let (val, jv) = match exec_parse_jstring(v, j3) {
                Some(x) => x,
                None => { return None; },
            };
            p.method = Some(val);
            j4 = jv;
        } else if chars_eq_str(&key, "path") {
            if p.path.is_some() {
                return None;
            }
            let (val, jv) = match exec_parse_jstring(v, j3) {
                Some(x) => x,
                None => { return None; },
            };
            p.path = Some(val);
            j4 = jv;
        } else if chars_eq_str(&key, "queryString") {
            if p.query.is_some() {
                return None;
            }
            let (val, jv) = match exec_parse_jstring(v, j3) {
                Some(x) => x,
                None => { return None; },
            };
            p.query = Some(val);
            j4 = jv;
        } else if chars_eq_str(&key, "headers") {
            if p.headers.is_some() {
                return None;
            }
            let (hs, jv) = match exec_parse_headers(v, j3) {
                Some(x) => x,
                None => { return None; },
            };
            p.headers = Some(hs);
            j4 = jv;
        } else if chars_eq_str(&key, "body") {
            if p.body.is_some() {
                return None;
            }
            if j3 < v.len() && v[j3] == '"' {
                let (val, jv) = match exec_parse_jstring(v, j3) {
                    Some(x) => x,
                    None => { return None; },
                };
                p.body = Some(Some(val));
                j4 = jv;
            } else if match_at(v, j3, "null") {
                proof {
                    reveal_strlit("null");
                }
                p.body = Some(None);
                j4 = j3 + 4;
            } else {
                return None;
            }
        } else if chars_eq_str(&key, "isBase64Encoded") {
            if p.base64.is_some() {
                return None;
            }
            if match_at(v, j3, "true") {
                proof {
                    reveal_strlit("true");
                }
                p.base64 = Some(true);
                j4 = j3 + 4;
            } else if match_at(v, j3, "false") {
                proof {
                    reveal_strlit("false");
                }
                p.base64 = Some(false);
                j4 = j3 + 5;
            } else {
                return None;
            }
        } else {
            return None;
        }
        let j5 = skip_ws(v, j4);
        if j5 >= v.len() {
            return None;
        }
        if v[j5] == ',' {
            j = skip_ws(v, j5 + 1);
        } else if v[j5] == '}' {
            return Some((p, j5 + 1));
        } else {
            return None;
        }
    }
}

/// Parses a request envelope, as `spec_parse_envelope` says.
pub fn parse_envelope(v: &Vec<char>) -> (r: Option<EnvelopeData>)
    ensures
        match r {
            Some(d) => spec_parse_envelope(v@) == Some(data_view(d)),
            None => spec_parse_envelope(v@) is None,
        },
{
    let i0 = skip_ws(v, 0);
    if i0 >= v.len() || v[i0] != '{' {
        return None;
    }
    let j = skip_ws(v, i0 + 1);
    let parsed: (PartialData, usize);
    if j < v.len() && v[j] == '}' {
        let p = PartialData {
            method: None,
            path: None,
            query: None,
            headers: None,
            body: None,
            base64: None,
        };
        proof {
            assert(partial_view(p) == empty_partial());
        }
        parsed = (p, j + 1);
    } else {
        parsed = match exec_parse_members(v, j) {
            Some(x) => x,
            None => { return None; },
        };
    }
    let (p, k) = parsed;
    let k2 = skip_ws(v, k);
    if k2 != v.len() {
        return None;
    }
    let method = match p.method {
        Some(m) => m,
        None => { return None; },
    };
    let path = match p.path {
        Some(m) => m,
        None => { return None; },
    };
    let query = match p.query {
        Some(m) => m,
        None => Vec::new(),
    };
    let headers = match p.headers {
        Some(h) => h,
        None => Vec::new(),
    };
    let body = match p.body {
        Some(b) => b,
        None => None,
    };
    let base64 = match p.base64 {
        Some(x) => x,
        None => false,
    };
    let d = EnvelopeData { method, path, query, headers, body, base64 };
    proof {
        assert(chpairs_view(Seq::<(Vec<char>, Vec<char>)>::empty()) =~= Seq::<
            (Seq<char>, Seq<char>),
        >::empty());
        assert(spec_parse_envelope(v@) == Some(data_view(d)));
    }
    Some(d)
}

/// One header pair as an envelope array item.
pub open spec fn spec_pair_item(p: (Seq<char>, Seq<char>)) -> Seq<char> {
    "["@ + spec_ser_string(p.0) + ","@ + spec_ser_string(p.1) + "]"@
}

/// The header pairs as a comma-separated list of array items, in order.
pub open spec fn spec_ser_pairs(h: Seq<(Seq<char>, Seq<char>)>) -> Seq<char>
    decreases h.len(),
{
    if h.len() == 0 {
        Seq::empty()
    } else if h.len() == 1 {
        spec_pair_item(h[0])
    } else {
        spec_ser_pairs(h.drop_last()) + ","@ + spec_pair_item(h.last())
    }
}

/// The body member of a response envelope: present for a textual body,
/// absent for no body.
pub open spec fn spec_body_member(b: Body) -> Seq<char> {
    match b {
        Body::Text(t) => ",\"body\":"@ + spec_ser_string(t@),
        _ => Seq::empty(),
    }
}

/// The response envelope text, shaped by the origin dialect. Every shape
/// carries the status, the full header multimap and the body member; the
/// dialects differ in their leading and trailing members.
pub open spec fn spec_ser_response(resp: Response, o: RequestOrigin) -> Seq<char> {
    let status = "\"statusCode\":"@ + spec_digits(resp.status as int);
    let hdrs = ",\"headers\":["@ + spec_ser_pairs(header_views(resp.headers@)) + "]"@;
    let body = spec_body_member(resp.body);
    match o {
        RequestOrigin::Gateway => "{"@ + status + hdrs + body + ",\"isBase64Encoded\":false}"@,
        RequestOrigin::GatewayV2 => "{\"version\":\"2.0\","@ + status + hdrs + body + "}"@,
        RequestOrigin::Alb => "{\"statusDescription\":\""@ + spec_digits(resp.status as int)
            + "\","@ + status + hdrs + body + ",\"isBase64Encoded\":false}"@,
    }
}

/// The diagnostic envelope text.
pub open spec fn spec_ser_diagnostic(d: Diagnostic) -> Seq<char> {
    "{\"errorType\":"@ + spec_ser_string(d.error_type@) + ",\"errorMessage\":"@ + spec_ser_string(
        d.error_message@,
    ) + "}"@
}

/// Writes the header pairs list, as `spec_ser_pairs` says.
fn write_pairs(out: &mut Vec<char>, headers: &Vec<(String, String)>)
    ensures
        final(out)@ == old(out)@ + spec_ser_pairs(header_views(headers@)),
{
    let ghost hv = header_views(headers@);
    let mut i: usize = 0;
    while i < headers.len()
        invariant
            i <= headers.len(),
            hv == header_views(headers@),
            hv.len() == headers.len(),
            out@ == old(out)@ + spec_ser_pairs(hv.take(i as int)),
        decreases headers.len() - i,
    {
        if i > 0 {
            write_lit(out, ",");
        }
        write_lit(out, "[");
        write_jstring(out, headers[i].0.as_str());
        write_lit(out, ",");
        write_jstring(out, headers[i].1.as_str());
        write_lit(out, "]");
        proof {
            assert(hv[i as int] == (headers@[i as int].0@, headers@[i as int].1@));
            assert(hv.take(i as int + 1).drop_last() =~= hv.take(i as int));
            assert(hv.take(i as int + 1).last() == hv[i as int]);
            if i == 0 {
                assert(hv.take(1)[0] == hv[0]);
                assert(out@ =~= old(out)@ + spec_ser_pairs(hv.take(1)));
            } else {
                assert(out@ =~= old(out)@ + spec_ser_pairs(hv.take(i as int + 1)));
            }
        }
        i += 1;
    }
    proof {
        assert(hv.take(headers.len() as int) =~= hv);
    }
}

/// Writes the response envelope for the given origin; refuses a binary
/// body, which this codec cannot carry as envelope text.
#[verifier::rlimit(60)]
pub fn write_response_envelope(resp: &Response, origin: RequestOrigin, out: &mut Vec<char>) -> (r:
    bool)
    ensures
        r == !(resp.body is Binary),
        r ==> final(out)@ == old(out)@ + spec_ser_response(*resp, origin),
        !r ==> final(out)@ == old(out)@,
{
    match &resp.body {
        Body::Binary(_) => {
            return false;
        },
        _ => {},
    }
    match origin {
        RequestOrigin::Gateway => {
            write_lit(out, "{");
        },
        RequestOrigin::GatewayV2 => {
            write_lit(out, "{\"version\":\"2.0\",");
        },
        RequestOrigin::Alb => {
            write_lit(out, "{\"statusDescription\":\"");
            push_u16_digits(out, resp.status);
            write_lit(out, "\",");
        },
    }
    write_lit(out, "\"statusCode\":");
    push_u16_digits(out, resp.status);
    write_lit(out, ",\"headers\":[");
    write_pairs(out, &resp.headers);
    write_lit(out, "]");
    match &resp.body {
        Body::Text(t) => {
            write_lit(out, ",\"body\":");
            write_jstring(out, t.as_str());
        },
        _ => {},
    }
    match origin {
        RequestOrigin::GatewayV2 => {
            write_lit(out, "}");
        },
        _ => {
            write_lit(out, ",\"isBase64Encoded\":false}");
        },
    }
    proof {
        assert(out@ =~= old(out)@ + spec_ser_response(*resp, origin));
    }
    true
}

/// Writes the diagnostic envelope, as `spec_ser_diagnostic` says.
pub fn write_diagnostic_envelope(d: &Diagnostic, out: &mut Vec<char>)
    ensures
        final(out)@ == old(out)@ + spec_ser_diagnostic(*d),
{
    write_lit(out, "{\"errorType\":");
    write_jstring(out, d.error_type.as_str());
    write_lit(out, ",\"errorMessage\":");
    write_jstring(out, d.error_message.as_str());
    write_lit(out, "}");
    proof {
        assert(out@ =~= old(out)@ + spec_ser_diagnostic(*d));
    }
}

} // verus!
