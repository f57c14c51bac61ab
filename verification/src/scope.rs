//! The scope filter: only records whose source address is an IPv4 address in
//! one of the private-use ranges 10.0.0.0/8, 172.16.0.0/12 or 192.168.0.0/16
//! are forwarded. An absent or unparseable address fails closed.

use vstd::prelude::*;
use crate::text::{
    is_digit, digit_run_end, digits_value, lemma_digit_run_end, lemma_digit_run_end_unique,
    lemma_digit_run_end_at_least, lemma_digits_value_mono,
};

verus! {

/// The digit run `s[i..j]` spells one address octet: one to three digits,
/// no leading zero unless it is exactly "0", and a value of at most 255.
pub open spec fn valid_octet(s: Seq<char>, i: int, j: int) -> bool {
    i < j <= i + 3 && (j - i > 1 ==> s[i] != '0') && digits_value(s, i, j) <= 255
}

/// The strict dotted-quad reading of `s`: exactly four octets separated by
/// single dots, with nothing before, between or after them.
pub open spec fn spec_parse_ipv4(s: Seq<char>) -> Option<(u8, u8, u8, u8)> {
    let e0 = digit_run_end(s, 0);
    let e1 = digit_run_end(s, e0 + 1);
    let e2 = digit_run_end(s, e1 + 1);
    let e3 = digit_run_end(s, e2 + 1);
    if valid_octet(s, 0, e0) && e0 < s.len() && s[e0] == '.' && valid_octet(s, e0 + 1, e1)
        && e1 < s.len() && s[e1] == '.' && valid_octet(s, e1 + 1, e2) && e2 < s.len()
        && s[e2] == '.' && valid_octet(s, e2 + 1, e3) && e3 == s.len() {
        Some(
            (
                digits_value(s, 0, e0) as u8,
                digits_value(s, e0 + 1, e1) as u8,
                digits_value(s, e1 + 1, e2) as u8,
                digits_value(s, e2 + 1, e3) as u8,
            ),
        )
    } else {
        None
    }
}

/// Scans the octet whose digits start at `start`; returns its value and the
/// index just past it, or `None` when that digit run is no valid octet.
fn scan_octet(s: &str, n: usize, start: usize) -> (r: Option<(u32, usize)>)
    requires
        n == s@.len(),
        start <= n,
    ensures
        (match r {
            Some(p) => {
                let e = digit_run_end(s@, start as int);
                valid_octet(s@, start as int, e) && p.1 == e && p.0 == digits_value(
                    s@,
                    start as int,
                    e,
                )
            },
            None => !valid_octet(s@, start as int, digit_run_end(s@, start as int)),
        }),
{
    proof {
        lemma_digit_run_end(s@, start as int);
    }
    let mut i: usize = start;
    let mut val: u32 = 0;
    let mut lz: bool = false;
    while i < n
        invariant
            n == s@.len(),
            start <= i <= n,
            i - start <= 3,
            forall|k: int| start <= k < i ==> #[trigger] is_digit(s@[k]),
            val == digits_value(s@, start as int, i as int),
            val <= 255,
            i > start ==> lz == (s@[start as int] == '0'),
            i > start + 1 ==> !lz,
        decreases n - i,
    {
        let c = s.get_char(i);
        let u = c as u32;
        if u < 48 || u > 57 {
            proof {
                lemma_digit_run_end_unique(s@, start as int, i as int);
            }
            if i == start {
                return None;
            }
            return Some((val, i));
        }
        proof {
            assert(is_digit(s@[i as int]));
        }
        if i == start {
            lz = u == 48;
        } else if lz {
            proof {
                lemma_digit_run_end_at_least(s@, start as int, i as int + 1);
            }
            return None;
        }
        if i - start == 3 {
            proof {
                lemma_digit_run_end_at_least(s@, start as int, i as int + 1);
            }
            return None;
        }
        let next: u32 = val * 10 + (u - 48);
        if next > 255 {
            proof {
                lemma_digit_run_end(s@, start as int);
                let e = digit_run_end(s@, start as int);
                lemma_digit_run_end_at_least(s@, start as int, i as int + 1);
                lemma_digits_value_mono(s@, start as int, i as int + 1, e);
            }
            return None;
        }
        val = next;
        i = i + 1;
    }
    proof {
        lemma_digit_run_end_unique(s@, start as int, i as int);
    }
    if i == start {
        return None;
    }
    Some((val, i))
}

pub fn parse_ipv4(s: &str) -> (r: Option<(u8, u8, u8, u8)>)
    ensures
        r == spec_parse_ipv4(s@),
{
    let n = s.unicode_len();
    let o0 = match scan_octet(s, n, 0) {
        Some(p) => p,
        None => {
            return None;
        },
    };
    proof {
        lemma_digit_run_end(s@, 0);
    }
    if o0.1 == n || s.get_char(o0.1) != '.' {
        return None;
    }
    let o1 = match scan_octet(s, n, o0.1 + 1) {
        Some(p) => p,
        None => {
            return None;
        },
    };
    proof {
        lemma_digit_run_end(s@, o0.1 + 1);
    }
    if o1.1 == n || s.get_char(o1.1) != '.' {
        return None;
    }
    let o2 = match scan_octet(s, n, o1.1 + 1) {
        Some(p) => p,
        None => {
            return None;
        },
    };
    proof {
        lemma_digit_run_end(s@, o1.1 + 1);
    }
    if o2.1 == n || s.get_char(o2.1) != '.' {
        return None;
    }
    let o3 = match scan_octet(s, n, o2.1 + 1) {
        Some(p) => p,
        None => {
            return None;
        },
    };
    if o3.1 != n {
        return None;
    }
    Some((o0.0 as u8, o1.0 as u8, o2.0 as u8, o3.0 as u8))
}

/// The private-use ranges: 10.0.0.0/8 is the first octet 10; 172.16.0.0/12
/// is 172 with a second octet of 16 through 31; 192.168.0.0/16 is 192.168.
pub open spec fn spec_in_private_ranges(a: u8, b: u8) -> bool {
    a == 10 || (a == 172 && 16 <= b <= 31) || (a == 192 && b == 168)
}

/// The scope decision for a source-address text: in scope exactly when it is
/// a dotted-quad IPv4 address inside a private-use range.
pub open spec fn spec_is_private_ip(s: Seq<char>) -> bool {
    match spec_parse_ipv4(s) {
        Some(q) => spec_in_private_ranges(q.0, q.1),
        None => false,
    }
}

pub fn is_private_ip(addr: &str) -> (r: bool)
    ensures
        r == spec_is_private_ip(addr@),
{
    match parse_ipv4(addr) {
        Some(q) => q.0 == 10 || (q.0 == 172 && 16 <= q.1 && q.1 <= 31) || (q.0 == 192 && q.1
            == 168),
        None => false,
    }
}

} // verus!
