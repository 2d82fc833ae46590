//! Character-level building blocks of the envelope wire format: whitespace
//! skipping, quoted-string scanning with escapes, string serialization with
//! escaping, and decimal digits for status codes.

use vstd::prelude::*;
use vstd::string::*;

verus! {

/// The whitespace characters the wire format allows between tokens.
pub open spec fn is_ws(c: char) -> bool {
    c == ' ' || c == '\t' || c == '\n' || c == '\r'
}

/// Decides whitespace, as `is_ws` does.
pub fn is_ws_char(c: char) -> (r: bool)
    ensures
        r == is_ws(c),
{
    c == ' ' || c == '\t' || c == '\n' || c == '\r'
}

/// First index at or after `i` holding a non-whitespace character (or the
/// end of the text).
pub open spec fn spec_skip_ws(s: Seq<char>, i: int) -> int
    decreases s.len() - i,
{
    if i < 0 || i >= s.len() {
        i
    } else if is_ws(s[i]) {
        spec_skip_ws(s, i + 1)
    } else {
        i
    }
}

pub proof fn lemma_skip_ws_bounds(s: Seq<char>, i: int)
    requires
        0 <= i <= s.len(),
    ensures
        i <= spec_skip_ws(s, i) <= s.len(),
    decreases s.len() - i,
{
    if i < s.len() && is_ws(s[i]) {
        lemma_skip_ws_bounds(s, i + 1);
    }
}

pub fn skip_ws(v: &Vec<char>, i: usize) -> (r: usize)
    requires
        i <= v@.len(),
    ensures
        r as int == spec_skip_ws(v@, i as int),
        i <= r <= v@.len(),
{
    let mut j: usize = i;
    while j < v.len() && is_ws_char(v[j])
        invariant
            i <= j <= v@.len(),
            spec_skip_ws(v@, i as int) == spec_skip_ws(v@, j as int),
        decreases v@.len() - j,
    {
        j += 1;
    }
    j
}

/// The decimal digit characters.
pub open spec fn dig(d: int) -> char {
    if d == 0 { '0' }
    else if d == 1 { '1' }
    else if d == 2 { '2' }
    else if d == 3 { '3' }
    else if d == 4 { '4' }
    else if d == 5 { '5' }
    else if d == 6 { '6' }
    else if d == 7 { '7' }
    else if d == 8 { '8' }
    else { '9' }
}

fn dig_char(d: u16) -> (c: char)
    requires
        d < 10,
    ensures
        c == dig(d as int),
{
    match d {
        0 => '0',
        1 => '1',
        2 => '2',
        3 => '3',
        4 => '4',
        5 => '5',
        6 => '6',
        7 => '7',
        8 => '8',
        _ => '9',
    }
}

/// The hexadecimal digit characters, lower case.
pub open spec fn hexdig(d: int) -> char {
    if d < 10 { dig(d) }
    else if d == 10 { 'a' }
    else if d == 11 { 'b' }
    else if d == 12 { 'c' }
    else if d == 13 { 'd' }
    else if d == 14 { 'e' }
    else { 'f' }
}

fn hexdig_char(d: u32) -> (c: char)
    requires
        d < 16,
    ensures
        c == hexdig(d as int),
{
    match d {
        0 => '0',
        1 => '1',
        2 => '2',
        3 => '3',
        4 => '4',
        5 => '5',
        6 => '6',
        7 => '7',
        8 => '8',
        9 => '9',
        10 => 'a',
        11 => 'b',
        12 => 'c',
        13 => 'd',
        14 => 'e',
        _ => 'f',
    }
}

/// Value of a hexadecimal digit character, or -1.
pub open spec fn hex_val(c: char) -> int {
    let u = (c as u32) as int;
    if 48 <= u <= 57 {
        u - 48
    } else if 97 <= u <= 102 {
        u - 87
    } else if 65 <= u <= 70 {
        u - 55
    } else {
        -1
    }
}

fn hex_val_char(c: char) -> (r: Option<u8>)
    ensures
        match r {
            Some(v) => v as int == hex_val(c) && v < 16,
            None => hex_val(c) == -1,
        },
{
    let u: u32 = c as u32;
    if 48 <= u && u <= 57 {
        Some((u - 48) as u8)
    } else if 97 <= u && u <= 102 {
        Some((u - 87) as u8)
    } else if 65 <= u && u <= 70 {
        Some((u - 55) as u8)
    } else {
        None
    }
}

/// What a simple (single-character) escape stands for.
pub open spec fn esc_char(e: char) -> Option<char> {
    match e {
        '"' => Some('"'),
        '\\' => Some('\\'),
        '/' => Some('/'),
        'n' => Some('\n'),
        't' => Some('\t'),
        'r' => Some('\r'),
        'b' => Some('\u{8}'),
        'f' => Some('\u{c}'),
        _ => None,
    }
}

fn esc_char_exec(e: char) -> (r: Option<char>)
    ensures
        r == esc_char(e),
{
    match e {
        '"' => Some('"'),
        '\\' => Some('\\'),
        '/' => Some('/'),
        'n' => Some('\n'),
        't' => Some('\t'),
        'r' => Some('\r'),
        'b' => Some('\u{8}'),
        'f' => Some('\u{c}'),
        _ => None,
    }
}

/// Scans the inside of a quoted string from `i` (just past the opening
/// quote), resolving escapes; on success yields the decoded characters and
/// the index just past the closing quote.
pub open spec fn spec_scan_string(s: Seq<char>, i: int, acc: Seq<char>) -> Option<(Seq<char>, int)>
    decreases s.len() - i,
{
    if i < 0 || i >= s.len() {
        None
    } else {
        let c = s[i];
        if c == '"' {
            Some((acc, i + 1))
        } else if c == '\\' {
            if i + 1 >= s.len() {
                None
            } else {
                let e = s[i + 1];
                if esc_char(e) is Some {
                    spec_scan_string(s, i + 2, acc.push(esc_char(e)->Some_0))
                } else if e == 'u' {
                    if i + 5 >= s.len() {
                        None
                    } else if s[i + 2] == '0' && s[i + 3] == '0' && hex_val(s[i + 4]) >= 0
                        && hex_val(s[i + 5]) >= 0 {
                        let code = hex_val(s[i + 4]) * 16 + hex_val(s[i + 5]);
                        spec_scan_string(s, i + 6, acc.push((code as u8) as char))
                    } else {
                        None
                    }
                } else {
                    None
                }
            }
        } else if (c as u32) < 32 {
            None
        } else {
            spec_scan_string(s, i + 1, acc.push(c))
        }
    }
}

/// Scans a quoted string body, as `spec_scan_string` says.
pub fn scan_string(v: &Vec<char>, i: usize) -> (r: Option<(Vec<char>, usize)>)
    requires
        i <= v@.len(),
    ensures
        match r {
            Some(p) => {
                &&& spec_scan_string(v@, i as int, Seq::empty()) == Some((p.0@, p.1 as int))
                &&& i < p.1 <= v@.len()
            },
            None => spec_scan_string(v@, i as int, Seq::empty()) is None,
        },
{
    let mut acc: Vec<char> = Vec::new();
    let mut j: usize = i;
    loop
        invariant
            i <= j <= v@.len(),
            spec_scan_string(v@, i as int, Seq::empty()) == spec_scan_string(v@, j as int, acc@),
        decreases v@.len() - j,
    {
        if j >= v.len() {
            return None;
        }
        let c = v[j];
        let cu: u32 = c as u32;
        if c == '"' {
            return Some((acc, j + 1));
        } else if c == '\\' {
            if j + 1 >= v.len() {
                return None;
            }
            let e = v[j + 1];
            match esc_char_exec(e) {
                Some(d) => {
                    proof {
                        assert(spec_scan_string(v@, j as int, acc@) == spec_scan_string(
                            v@,
                            j as int + 2,
                            acc@.push(d),
                        ));
                    }
                    acc.push(d);
                    j += 2;
                },
                None => {
                    if e != 'u' {
                        return None;
                    }
                    if v.len() - j < 6 {
                        return None;
                    }
                    if !(v[j + 2] == '0' && v[j + 3] == '0') {
                        return None;
                    }
                    let h = match hex_val_char(v[j + 4]) {
                        Some(h) => h,
                        None => { return None; },
                    };
                    let l = match hex_val_char(v[j + 5]) {
                        Some(l) => l,
                        None => { return None; },
                    };
                    let code: u8 = h * 16 + l;
                    proof {
                        assert(spec_scan_string(v@, j as int, acc@) == spec_scan_string(
                            v@,
                            j as int + 6,
                            acc@.push(code as char),
                        ));
                    }
                    acc.push(code as char);
                    j += 6;
                },
            }
        } else if cu < 32 {
            return None;
        } else {
            proof {
                assert(spec_scan_string(v@, j as int, acc@) == spec_scan_string(
                    v@,
                    j as int + 1,
                    acc@.push(c),
                ));
            }
            acc.push(c);
            j += 1;
        }
    }
}

/// A successful string scan always moves forward and stays inside the text.
pub proof fn lemma_scan_string_bounds(s: Seq<char>, i: int, acc: Seq<char>)
    requires
        spec_scan_string(s, i, acc) is Some,
    ensures
        i < spec_scan_string(s, i, acc)->Some_0.1 <= s.len(),
    decreases s.len() - i,
{
    let c = s[i];
    if c == '"' {
    } else if c == '\\' {
        let e = s[i + 1];
        if esc_char(e) is Some {
            lemma_scan_string_bounds(s, i + 2, acc.push(esc_char(e)->Some_0));
        } else {
            let code = hex_val(s[i + 4]) * 16 + hex_val(s[i + 5]);
            lemma_scan_string_bounds(s, i + 6, acc.push((code as u8) as char));
        }
    } else {
        lemma_scan_string_bounds(s, i + 1, acc.push(c));
    }
}

/// Serialized (escaped) form of one character inside a quoted string.
pub open spec fn esc_seq(c: char) -> Seq<char> {
    let u = (c as u32) as int;
    if c == '"' {
        seq!['\\', '"']
    } else if c == '\\' {
        seq!['\\', '\\']
    } else if u < 32 {
        seq!['\\', 'u', '0', '0', hexdig(u / 16), hexdig(u % 16)]
    } else {
        seq![c]
    }
}

/// Serialized form of a whole string body (without the quotes).
pub open spec fn spec_escape(s: Seq<char>) -> Seq<char>
    decreases s.len(),
{
    if s.len() == 0 {
        Seq::empty()
    } else {
        esc_seq(s[0]) + spec_escape(s.drop_first())
    }
}

/// Serialized form of a quoted string, quotes included.
pub open spec fn spec_ser_string(s: Seq<char>) -> Seq<char> {
    seq!['"'] + spec_escape(s) + seq!['"']
}

/// Appends the characters of a literal to the output.
pub fn write_lit(out: &mut Vec<char>, lit: &str)
    ensures
        final(out)@ == old(out)@ + lit@,
{
    let n: usize = lit.unicode_len();
    let mut i: usize = 0;
    while i < n
        invariant
            i <= n,
            n == lit@.len(),
            out@ == old(out)@ + lit@.take(i as int),
        decreases n - i,
    {
        out.push(lit.get_char(i));
        proof {
            assert(lit@.take(i as int + 1) =~= lit@.take(i as int).push(lit@[i as int]));
        }
        i += 1;
    }
    proof {
        assert(lit@.take(n as int) =~= lit@);
    }
}

/// Appends the quoted, escaped form of a string to the output.
pub fn write_jstring(out: &mut Vec<char>, s: &str)
    ensures
        final(out)@ == old(out)@ + spec_ser_string(s@),
{
    let n: usize = s.unicode_len();
    out.push('"');
    let mut i: usize = 0;
    while i < n
        invariant
            i <= n,
            n == s@.len(),
            out@ == old(out)@ + seq!['"'] + spec_escape(s@.take(i as int)),
        decreases n - i,
    {
        let c = s.get_char(i);
        let u: u32 = c as u32;
        if c == '"' {
            out.push('\\');
            out.push('"');
        } else if c == '\\' {
            out.push('\\');
            out.push('\\');
        } else if u < 32 {
            out.push('\\');
            out.push('u');
            out.push('0');
            out.push('0');
            out.push(hexdig_char(u / 16));
            out.push(hexdig_char(u % 16));
        } else {
            out.push(c);
        }
        proof {
            lemma_escape_snoc(s@.take(i as int + 1));
            assert(s@.take(i as int + 1).drop_last() =~= s@.take(i as int));
            assert(s@.take(i as int + 1).last() == s@[i as int]);
        }
        i += 1;
    }
    out.push('"');
    proof {
        assert(s@.take(n as int) =~= s@);
        assert(old(out)@ + seq!['"'] + spec_escape(s@) + seq!['"'] =~= old(out)@
            + spec_ser_string(s@));
    }
}

/// Unfolds the serialization of a non-empty string at its last character.
pub proof fn lemma_escape_snoc(s: Seq<char>)
    requires
        s.len() > 0,
    ensures
        spec_escape(s) == spec_escape(s.drop_last()) + esc_seq(s.last()),
    decreases s.len(),
{
    if s.len() == 1 {
        assert(s.drop_first() =~= Seq::<char>::empty());
        assert(s.drop_last() =~= Seq::<char>::empty());
        assert(spec_escape(s) =~= esc_seq(s[0]) + spec_escape(s.drop_first()));
        assert(spec_escape(s) =~= spec_escape(s.drop_last()) + esc_seq(s.last()));
    } else {
        lemma_escape_snoc(s.drop_first());
        assert(s.drop_first().drop_last() =~= s.drop_last().drop_first());
        assert(s.drop_first().last() == s.last());
        assert(s.drop_last()[0] == s[0]);
        assert(spec_escape(s.drop_last()) == esc_seq(s[0]) + spec_escape(
            s.drop_last().drop_first(),
        ));
        assert(spec_escape(s) =~= spec_escape(s.drop_last()) + esc_seq(s.last()));
    }
}

proof fn lemma_hex_of_dig(d: int)
    requires
        0 <= d < 16,
    ensures
        hex_val(hexdig(d)) == d,
{
}

/// Scanning is inverse to serializing: started just past an opening quote,
/// on the escaped form of a text followed by the closing quote, the scanner
/// yields back exactly that text. With `lemma_string_round_trip` this is
/// the wire-level half of the codec's fidelity: no string, however it must
/// be escaped, is changed by a trip through the envelope.
pub proof fn lemma_scan_inverts_escape(
    full: Seq<char>,
    s: Seq<char>,
    i: int,
    acc: Seq<char>,
    j: int,
)
    requires
        0 <= i <= j < full.len(),
        full.subrange(i, j) == spec_escape(s),
        full[j] == '"',
    ensures
        spec_scan_string(full, i, acc) == Some((acc + s, j + 1)),
    decreases s.len(),
{
    if s.len() == 0 {
        assert(full.subrange(i, j).len() == 0);
        assert(j == i);
        assert(acc + s =~= acc);
    } else {
        let c = s[0];
        let tail = s.drop_first();
        let e = esc_seq(c);
        assert(spec_escape(s) == e + spec_escape(tail));
        let k = i + e.len();
        assert(e.len() <= j - i);
        assert forall|t: int| 0 <= t < e.len() implies full[i + t] == e[t] by {
            assert(full.subrange(i, j)[t] == full[i + t]);
            assert((e + spec_escape(tail))[t] == e[t]);
        }
        assert(full.subrange(k, j) =~= spec_escape(tail)) by {
            assert forall|t: int| 0 <= t < j - k implies full.subrange(k, j)[t] == spec_escape(
                tail,
            )[t] by {
                assert(full.subrange(i, j)[t + e.len()] == full[k + t]);
                assert((e + spec_escape(tail))[t + e.len()] == spec_escape(tail)[t]);
            }
        }
        assert(acc + s =~= acc.push(c) + tail);
        let u = (c as u32) as int;
        if c == '"' {
            assert(full[i + 0] == e[0] && full[i + 1] == e[1]);
            lemma_scan_inverts_escape(full, tail, i + 2, acc.push(c), j);
        } else if c == '\\' {
            assert(full[i + 0] == e[0] && full[i + 1] == e[1]);
            lemma_scan_inverts_escape(full, tail, i + 2, acc.push(c), j);
        } else if u < 32 {
            assert(full[i + 0] == e[0] && full[i + 1] == e[1] && full[i + 2] == e[2] && full[i + 3]
                == e[3] && full[i + 4] == e[4] && full[i + 5] == e[5]);
            lemma_hex_of_dig(u / 16);
            lemma_hex_of_dig(u % 16);
            let code = hex_val(full[i + 4]) * 16 + hex_val(full[i + 5]);
            assert(code == u);
            vstd::utf8::char_is_scalar(c);
            vstd::utf8::char_u32_cast(c, c as u32);
            assert(code as u8 == c as u32);
            assert((code as u8) as char == c);
            lemma_scan_inverts_escape(full, tail, i + 6, acc.push(c), j);
        } else {
            assert(full[i + 0] == e[0]);
            assert(full[i] == c);
            lemma_scan_inverts_escape(full, tail, i + 1, acc.push(c), j);
        }
    }
}

/// The serialized form of any string scans back to exactly that string:
/// the envelope's string encoder and string decoder are mutually inverse.
pub proof fn lemma_string_round_trip(s: Seq<char>)
    ensures
        spec_scan_string(spec_ser_string(s), 1, Seq::empty()) == Some(
            (s, spec_ser_string(s).len() as int),
        ),
{
    let full = spec_ser_string(s);
    let j: int = 1 + spec_escape(s).len() as int;
    assert(full.subrange(1, j) =~= spec_escape(s));
    assert(full[j] == '"');
    lemma_scan_inverts_escape(full, s, 1, Seq::empty(), j);
    assert(Seq::empty() + s =~= s);
}

/// Decimal digits of a non-negative number, most significant first.
pub open spec fn spec_digits(n: int) -> Seq<char>
    decreases n,
{
    if n < 10 {
        seq![dig(n)]
    } else {
        spec_digits(n / 10) + seq![dig(n % 10)]
    }
}

/// Appends the decimal digits of `n` to the output.
pub fn push_u16_digits(out: &mut Vec<char>, n: u16)
    ensures
        final(out)@ == old(out)@ + spec_digits(n as int),
    decreases n,
{
    if n < 10 {
        out.push(dig_char(n));
        proof {
            assert(old(out)@ + spec_digits(n as int) =~= old(out)@.push(dig(n as int)));
        }
    } else {
        push_u16_digits(out, n / 10);
        out.push(dig_char(n % 10));
        proof {
            assert(old(out)@ + spec_digits((n / 10) as int) + seq![dig((n % 10) as int)]
                =~= old(out)@ + spec_digits(n as int));
        }
    }
}

/// Matches the exact characters of `lit` at position `i`.
pub open spec fn spec_match_at(s: Seq<char>, i: int, lit: Seq<char>) -> bool {
    0 <= i && i + lit.len() <= s.len() && s.subrange(i, i + lit.len()) == lit
}

/// Decides `spec_match_at`.
pub fn match_at(v: &Vec<char>, i: usize, lit: &str) -> (r: bool)
    requires
        i <= v@.len(),
    ensures
        r == spec_match_at(v@, i as int, lit@),
{
    let n: usize = lit.unicode_len();
    if v.len() - i < n {
        return false;
    }
    let mut k: usize = 0;
    while k < n
        invariant
            k <= n,
            n == lit@.len(),
            i + n <= v@.len(),
            i + n <= usize::MAX,
            forall|j: int| 0 <= j < k ==> v@[i + j] == lit@[j],
        decreases n - k,
    {
        if v[i + k] != lit.get_char(k) {
            assert(v@.subrange(i as int, i + n) != lit@) by {
                assert(v@.subrange(i as int, i + n)[k as int] == v@[i + k]);
            }
            return false;
        }
        k += 1;
    }
    proof {
        assert(v@.subrange(i as int, i + n) =~= lit@);
    }
    true
}

} // verus!
