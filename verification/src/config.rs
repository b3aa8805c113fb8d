//! Parsing endpoint text of the form `a.b.c.d:port` into an `Endpoint`.
//!
//! The embedding program reads the two address arguments from the command
//! line or the control surface and hands the raw bytes here; everything
//! from bytes to a validated `Endpoint` is decided by `parse_endpoint`.
//! Each of the four octets is one to three decimal digits valued at most
//! 255; the port is one to five decimal digits valued at most 65535.

use vstd::prelude::*;
use crate::bridge::{Config, Endpoint};

verus! {

/// ASCII code of `'.'`.
pub const DOT: u8 = 46;

/// ASCII code of `':'`.
pub const COLON: u8 = 58;

/// ASCII decimal digit.
pub open spec fn is_ascii_digit(c: u8) -> bool {
    48 <= c <= 57
}

/// Every byte is an ASCII decimal digit.
pub open spec fn all_digits(s: Seq<u8>) -> bool {
    forall|i: int| 0 <= i < s.len() ==> is_ascii_digit(#[trigger] s[i])
}

/// The number a digit string denotes, most significant digit first.
pub open spec fn dec_value(s: Seq<u8>) -> int
    decreases s.len(),
{
    if s.len() == 0 {
        0
    } else {
        dec_value(s.drop_last()) * 10 + (s.last() - 48)
    }
}

/// Index of the first occurrence of a byte, if any.
pub open spec fn find_byte(s: Seq<u8>, b: u8) -> Option<int>
    decreases s.len(),
{
    if s.len() == 0 {
        None
    } else if s[0] == b {
        Some(0)
    } else {
        match find_byte(s.drop_first(), b) {
            Some(i) => Some(i + 1),
            None => None,
        }
    }
}

/// An IPv4 octet: one to three digits, at most 255.
pub open spec fn spec_parse_octet(s: Seq<u8>) -> Option<u8> {
    if 1 <= s.len() <= 3 && all_digits(s) && dec_value(s) <= 255 {
        Some(dec_value(s) as u8)
    } else {
        None
    }
}

/// A port: one to five digits, at most 65535.
pub open spec fn spec_parse_port(s: Seq<u8>) -> Option<u16> {
    if 1 <= s.len() <= 5 && all_digits(s) && dec_value(s) <= 65535 {
        Some(dec_value(s) as u16)
    } else {
        None
    }
}

/// Four octets separated by exactly three dots.
pub open spec fn spec_parse_ipv4(s: Seq<u8>) -> Option<(u8, u8, u8, u8)> {
    match find_byte(s, DOT) {
        None => None,
        Some(i1) => {
            let o0 = spec_parse_octet(s.subrange(0, i1));
            let r1 = s.subrange(i1 + 1, s.len() as int);
            match find_byte(r1, DOT) {
                None => None,
                Some(i2) => {
                    let o1 = spec_parse_octet(r1.subrange(0, i2));
                    let r2 = r1.subrange(i2 + 1, r1.len() as int);
                    match find_byte(r2, DOT) {
                        None => None,
                        Some(i3) => {
                            let o2 = spec_parse_octet(r2.subrange(0, i3));
                            let tail = r2.subrange(i3 + 1, r2.len() as int);
                            if find_byte(tail, DOT) is Some {
                                None
                            } else {
                                let o3 = spec_parse_octet(tail);
                                match (o0, o1, o2, o3) {
                                    (Some(a), Some(b), Some(c), Some(d)) => Some((a, b, c, d)),
                                    _ => None,
                                }
                            }
                        },
                    }
                },
            }
        },
    }
}

/// Address text `a.b.c.d:port`: the part before the first colon is the
/// IPv4 address, the part after it the port.
pub open spec fn spec_parse_endpoint(s: Seq<u8>) -> Option<Endpoint> {
    match find_byte(s, COLON) {
        None => None,
        Some(ci) => {
            let ip = spec_parse_ipv4(s.subrange(0, ci));
            let port = spec_parse_port(s.subrange(ci + 1, s.len() as int));
            match (ip, port) {
                (Some((a, b, c, d)), Some(p)) => Some(
                    Endpoint { ip0: a, ip1: b, ip2: c, ip3: d, port: p },
                ),
                _ => None,
            }
        },
    }
}

/// The first occurrence of a byte is exactly the position `find_byte`
/// names; `None` means the byte does not occur at all.
proof fn lemma_find_byte(s: Seq<u8>, b: u8)
    ensures
        match find_byte(s, b) {
            Some(i) => 0 <= i < s.len() && s[i] == b && forall|j: int|
                0 <= j < i ==> #[trigger] s[j] != b,
            None => forall|j: int| 0 <= j < s.len() ==> #[trigger] s[j] != b,
        },
    decreases s.len(),
{
    if s.len() != 0 && s[0] != b {
        let t = s.drop_first();
        lemma_find_byte(t, b);
        assert(forall|j: int| 1 <= j < s.len() ==> s[j] == #[trigger] t[j - 1]);
        match find_byte(t, b) {
            Some(i) => {
                assert forall|j: int| 0 <= j < i + 1 implies #[trigger] s[j] != b by {
                    if j >= 1 {
                        assert(t[j - 1] != b);
                    }
                }
            },
            None => {
                assert forall|j: int| 0 <= j < s.len() implies #[trigger] s[j] != b by {
                    if j >= 1 {
                        assert(t[j - 1] != b);
                    }
                }
            },
        }
    }
}

/// A digit string's value never shrinks as digits are appended, and is
/// never negative.
proof fn lemma_dec_value_extend(s: Seq<u8>, k: int)
    requires
        all_digits(s),
        0 <= k <= s.len(),
    ensures
        0 <= dec_value(s.subrange(0, k)),
        dec_value(s.subrange(0, k)) <= dec_value(s),
    decreases s.len(),
{
    if s.len() == 0 {
        assert(s.subrange(0, k) =~= s);
    } else if k == s.len() {
        assert(s.subrange(0, k) =~= s);
        lemma_dec_value_extend(s.drop_last(), s.len() - 1);
        assert(s.drop_last().subrange(0, s.len() - 1) =~= s.drop_last());
    } else {
        let head = s.drop_last();
        assert(s.subrange(0, k) =~= head.subrange(0, k));
        lemma_dec_value_extend(head, k);
        lemma_dec_value_extend(head, head.len() as int);
        assert(head.subrange(0, head.len() as int) =~= head);
    }
}

/// Find the first occurrence of a byte in a slice.
fn find_byte_exec(s: &[u8], b: u8) -> (r: Option<usize>)
    ensures
        match r {
            Some(i) => i < s@.len() && find_byte(s@, b) == Some(i as int),
            None => find_byte(s@, b) is None,
        },
{
    let n = s.len();
    let mut i: usize = 0;
    while i < n
        invariant
            i <= n,
            n == s@.len(),
            forall|j: int| 0 <= j < i ==> #[trigger] s@[j] != b,
        decreases n - i,
    {
        if *vstd::slice::slice_index_get(s, i) == b {
            proof {
                lemma_find_byte(s@, b);
                if let Some(k) = find_byte(s@, b) {
                    if k < i as int {
                        assert(s@[k] != b);
                    } else if k > i as int {
                        assert(s@[i as int] != b);
                    }
                }
            }
            return Some(i);
        }
        i = i + 1;
    }
    proof {
        lemma_find_byte(s@, b);
    }
    None
}

/// Parse a digit string, most significant digit first.  `None` when there
/// is no digit, a byte is not a digit, or the value exceeds what any caller
/// accepts (the largest port).
fn parse_decimal(s: &[u8]) -> (r: Option<u32>)
    ensures
        match r {
            Some(v) => s@.len() >= 1 && all_digits(s@) && v == dec_value(s@) && v <= 65535,
            None => s@.len() == 0 || !all_digits(s@) || dec_value(s@) > 65535,
        },
{
    let n = s.len();
    if n == 0 {
        return None;
    }
    let mut acc: u32 = 0;
    let mut i: usize = 0;
    while i < n
        invariant
            i <= n,
            n == s@.len(),
            all_digits(s@.subrange(0, i as int)),
            acc == dec_value(s@.subrange(0, i as int)),
            acc <= 65535,
        decreases n - i,
    {
        let c = *vstd::slice::slice_index_get(s, i);
        if !(48 <= c && c <= 57) {
            return None;
        }
        acc = acc * 10 + (c - 48) as u32;
        proof {
            assert(s@.subrange(0, i + 1).drop_last() =~= s@.subrange(0, i as int));
            assert(s@.subrange(0, i + 1).last() == s@[i as int]);
        }
        i = i + 1;
        if acc > 65535 {
            proof {
                if all_digits(s@) {
                    lemma_dec_value_extend(s@, i as int);
                }
            }
            return None;
        }
    }
    proof {
        assert(s@.subrange(0, n as int) =~= s@);
    }
    Some(acc)
}

/// Parse one IPv4 octet.
fn parse_octet(s: &[u8]) -> (r: Option<u8>)
    ensures
        r == spec_parse_octet(s@),
{
    if s.len() < 1 || s.len() > 3 {
        return None;
    }
    match parse_decimal(s) {
        None => None,
        Some(v) => {
            if v <= 255 {
                Some(v as u8)
            } else {
                None
            }
        },
    }
}

/// Parse a port.
fn parse_port(s: &[u8]) -> (r: Option<u16>)
    ensures
        r == spec_parse_port(s@),
{
    if s.len() < 1 || s.len() > 5 {
        return None;
    }
    match parse_decimal(s) {
        None => None,
        Some(v) => {
            if v <= 65535 {
                Some(v as u16)
            } else {
                None
            }
        },
    }
}

/// Parse the dotted-quad part.
fn parse_ipv4(s: &[u8]) -> (r: Option<(u8, u8, u8, u8)>)
    ensures
        r == spec_parse_ipv4(s@),
{
    let i1 = match find_byte_exec(s, DOT) {
        None => { return None; },
        Some(i) => i,
    };
    let n = s.len();
    let o0 = parse_octet(vstd::slice::slice_subrange(s, 0, i1));
    let r1 = vstd::slice::slice_subrange(s, i1 + 1, n);
    let i2 = match find_byte_exec(r1, DOT) {
        None => { return None; },
        Some(i) => i,
    };
    let n1 = r1.len();
    let o1 = parse_octet(vstd::slice::slice_subrange(r1, 0, i2));
    let r2 = vstd::slice::slice_subrange(r1, i2 + 1, n1);
    let i3 = match find_byte_exec(r2, DOT) {
        None => { return None; },
        Some(i) => i,
    };
    let n2 = r2.len();
    let o2 = parse_octet(vstd::slice::slice_subrange(r2, 0, i3));
    let tail = vstd::slice::slice_subrange(r2, i3 + 1, n2);
    if let Some(_) = find_byte_exec(tail, DOT) {
        return None;
    }
    let o3 = parse_octet(tail);
    match (o0, o1, o2, o3) {
        (Some(a), Some(b), Some(c), Some(d)) => Some((a, b, c, d)),
        _ => None,
    }
}

/// Parse address text `a.b.c.d:port`; returns `Some` exactly on text the
/// grammar above admits, and then the endpoint it denotes.
pub fn parse_endpoint(s: &[u8]) -> (r: Option<Endpoint>)
    ensures
        r == spec_parse_endpoint(s@),
{
    let ci = match find_byte_exec(s, COLON) {
        None => { return None; },
        Some(i) => i,
    };
    let n = s.len();
    let ip = parse_ipv4(vstd::slice::slice_subrange(s, 0, ci));
    let port = parse_port(vstd::slice::slice_subrange(s, ci + 1, n));
    match (ip, port) {
        (Some((a, b, c, d)), Some(p)) => Some(Endpoint { ip0: a, ip1: b, ip2: c, ip3: d, port: p }),
        _ => None,
    }
}

impl Config {
    /// Build a configuration from the two address texts the program was
    /// given; `None` if either does not parse.
    pub fn from_text(bind: &[u8], peer: &[u8]) -> (r: Option<Config>)
        ensures
            match (spec_parse_endpoint(bind@), spec_parse_endpoint(peer@)) {
                (Some(b), Some(p)) => r == Some(Config { bind_addr: b, peer_addr: p }),
                _ => r is None,
            },
    {
        match (parse_endpoint(bind), parse_endpoint(peer)) {
            (Some(b), Some(p)) => Some(Config { bind_addr: b, peer_addr: p }),
            _ => None,
        }
    }
}

} // verus!
