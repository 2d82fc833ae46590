//! Base64 decoding for binary event bodies: the control plane delivers a
//! binary payload as base64 text together with a flag that marks it binary.

use vstd::prelude::*;

verus! {

/// Value of one base64 alphabet character, or -1.
pub open spec fn b64_val(c: char) -> int {
    let u = (c as u32) as int;
    if 65 <= u <= 90 {
        u - 65
    } else if 97 <= u <= 122 {
        u - 71
    } else if 48 <= u <= 57 {
        u + 4
    } else if c == '+' {
        62
    } else if c == '/' {
        63
    } else {
        -1
    }
}

fn b64_val_char(c: char) -> (r: Option<u8>)
    ensures
        match r {
            Some(v) => v as int == b64_val(c) && v < 64,
            None => b64_val(c) == -1,
        },
{
    let u: u32 = c as u32;
    if 65 <= u && u <= 90 {
        Some((u - 65) as u8)
    } else if 97 <= u && u <= 122 {
        Some((u - 71) as u8)
    } else if 48 <= u && u <= 57 {
        Some((u + 4) as u8)
    } else if c == '+' {
        Some(62)
    } else if c == '/' {
        Some(63)
    } else {
        None
    }
}

/// First byte of a decoded group.
pub open spec fn b64_b0(v0: int, v1: int) -> u8 {
    (v0 * 4 + v1 / 16) as u8
}

/// Second byte of a decoded group.
pub open spec fn b64_b1(v1: int, v2: int) -> u8 {
    ((v1 % 16) * 16 + v2 / 4) as u8
}

/// Third byte of a decoded group.
pub open spec fn b64_b2(v2: int, v3: int) -> u8 {
    ((v2 % 4) * 64 + v3) as u8
}

/// Decodes base64 text from position `i` in groups of four characters;
/// `=` padding is allowed only in the final group.
pub open spec fn spec_b64_groups(s: Seq<char>, i: int, acc: Seq<u8>) -> Option<Seq<u8>>
    decreases s.len() - i,
{
    if i < 0 || i > s.len() {
        None
    } else if i == s.len() {
        Some(acc)
    } else if s.len() - i < 4 {
        None
    } else {
        let v0 = b64_val(s[i]);
        let v1 = b64_val(s[i + 1]);
        if v0 < 0 || v1 < 0 {
            None
        } else if s[i + 2] == '=' {
            if s[i + 3] == '=' && i + 4 == s.len() {
                Some(acc.push(b64_b0(v0, v1)))
            } else {
                None
            }
        } else {
            let v2 = b64_val(s[i + 2]);
            if v2 < 0 {
                None
            } else if s[i + 3] == '=' {
                if i + 4 == s.len() {
                    Some(acc.push(b64_b0(v0, v1)).push(b64_b1(v1, v2)))
                } else {
                    None
                }
            } else {
                let v3 = b64_val(s[i + 3]);
                if v3 < 0 {
                    None
                } else {
                    spec_b64_groups(s, i + 4, acc.push(b64_b0(v0, v1)).push(b64_b1(v1, v2)).push(
                        b64_b2(v2, v3),
                    ))
                }
            }
        }
    }
}

/// The bytes base64 text stands for, if it is well formed.
pub open spec fn spec_b64_decode(s: Seq<char>) -> Option<Seq<u8>> {
    spec_b64_groups(s, 0, Seq::empty())
}

/// Decodes base64 text, as `spec_b64_decode` says.
pub fn b64_decode(v: &Vec<char>) -> (r: Option<Vec<u8>>)
    ensures
        match r {
            Some(out) => spec_b64_decode(v@) == Some(out@),
            None => spec_b64_decode(v@) is None,
        },
{
    let mut acc: Vec<u8> = Vec::new();
    let mut i: usize = 0;
    loop
        invariant
            i <= v@.len(),
            spec_b64_decode(v@) == spec_b64_groups(v@, i as int, acc@),
        decreases v@.len() - i,
    {
        if i == v.len() {
            return Some(acc);
        }
        if v.len() - i < 4 {
            return None;
        }
        let v0 = match b64_val_char(v[i]) {
            Some(x) => x,
            None => { return None; },
        };
        let v1 = match b64_val_char(v[i + 1]) {
            Some(x) => x,
            None => { return None; },
        };
        if v[i + 2] == '=' {
            if v[i + 3] == '=' && i + 4 == v.len() {
                acc.push(v0 * 4 + v1 / 16);
                return Some(acc);
            }
            return None;
        }
        let v2 = match b64_val_char(v[i + 2]) {
            Some(x) => x,
            None => { return None; },
        };
        if v[i + 3] == '=' {
            if i + 4 == v.len() {
                acc.push(v0 * 4 + v1 / 16);
                acc.push((v1 % 16) * 16 + v2 / 4);
                return Some(acc);
            }
            return None;
        }
        let v3 = match b64_val_char(v[i + 3]) {
            Some(x) => x,
            None => { return None; },
        };
        acc.push(v0 * 4 + v1 / 16);
        acc.push((v1 % 16) * 16 + v2 / 4);
        acc.push((v2 % 4) * 64 + v3);
        i += 4;
    }
}

} // verus!
