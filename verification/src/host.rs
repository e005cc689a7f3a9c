//! The bind host: parsing a dotted-quad address out of the configured
//! host text. Reading the configuration and binding the listener stay
//! with the transport layer; this is the decision of what the text
//! names.

use vstd::prelude::*;
use vstd::string::*;

use crate::strutil::find_from;
use crate::strutil::find_str_from;
use crate::strutil::lemma_find_from_found;

verus! {

/// Whether the character is a decimal digit.
pub open spec fn is_digit(c: char) -> bool {
    48 <= c as u32 <= 57
}

/// The number the characters spell in decimal, most significant first.
pub open spec fn dec_val(s: Seq<char>) -> int
    decreases s.len(),
{
    if s.len() == 0 {
        0
    } else {
        dec_val(s.drop_last()) * 10 + ((s.last() as u32) - 48)
    }
}

/// Whether the characters spell one octet: nonempty, all digits, value
/// at most 255.
pub open spec fn octet_ok(s: Seq<char>) -> bool {
    &&& s.len() >= 1
    &&& forall|i: int| 0 <= i < s.len() ==> is_digit(#[trigger] s[i])
    &&& dec_val(s) <= 255
}

/// The four octets of a dotted-quad host text: present exactly when the
/// text has three dots and each of the four parts between them spells an
/// octet.
pub open spec fn spec_parse_host(s: Seq<char>) -> Option<[u8; 4]> {
    match find_from(s, "."@, 0) {
        None => None,
        Some(d1) => match find_from(s, "."@, d1 + 1) {
            None => None,
            Some(d2) => match find_from(s, "."@, d2 + 1) {
                None => None,
                Some(d3) => if find_from(s, "."@, d3 + 1) is Some {
                    None
                } else {
                    let p0 = s.subrange(0, d1);
                    let p1 = s.subrange(d1 + 1, d2);
                    let p2 = s.subrange(d2 + 1, d3);
                    let p3 = s.subrange(d3 + 1, s.len() as int);
                    if octet_ok(p0) && octet_ok(p1) && octet_ok(p2) && octet_ok(p3) {
                        Some(
                            [
                                dec_val(p0) as u8,
                                dec_val(p1) as u8,
                                dec_val(p2) as u8,
                                dec_val(p3) as u8,
                            ],
                        )
                    } else {
                        None
                    }
                },
            },
        },
    }
}

/// A value over 255 spelled by some prefix only grows as further digits
/// follow.
proof fn lemma_dec_val_extend(s: Seq<char>, k: int)
    requires
        0 <= k <= s.len(),
        dec_val(s.subrange(0, k)) > 255,
        forall|i: int| k <= i < s.len() ==> is_digit(#[trigger] s[i]),
    ensures
        dec_val(s) > 255,
    decreases s.len() - k,
{
    if k == s.len() {
        assert(s.subrange(0, k) =~= s);
    } else {
        assert(s.subrange(0, k + 1).drop_last() =~= s.subrange(0, k));
        assert(s.subrange(0, k + 1).last() == s[k]);
        lemma_dec_val_extend(s, k + 1);
    }
}

/// Parse the characters between `from` and `to` as one octet.
fn parse_octet(s: &str, from: usize, to: usize) -> (r: Option<u8>)
    requires
        from <= to <= s@.len(),
    ensures
        (match r {
            Some(v) => octet_ok(s@.subrange(from as int, to as int)) && v as int == dec_val(
                s@.subrange(from as int, to as int),
            ),
            None => !octet_ok(s@.subrange(from as int, to as int)),
        }),
{
    let ghost part = s@.subrange(from as int, to as int);
    if from == to {
        return None;
    }
    let mut i: usize = from;
    let mut val: u32 = 0;
    while i < to
        invariant
            from <= i <= to <= s@.len(),
            from < to,
            part == s@.subrange(from as int, to as int),
            val as int == dec_val(s@.subrange(from as int, i as int)),
            val <= 255,
            forall|k: int| from as int <= k < i as int ==> is_digit(#[trigger] s@[k]),
        decreases to - i,
    {
        let c = s.get_char(i);
        let cv = c as u32;
        if cv < 48 || cv > 57 {
            proof {
                assert(part[i as int - from as int] == s@[i as int]);
                assert(!octet_ok(part));
            }
            return None;
        }
        proof {
            assert(s@.subrange(from as int, i as int + 1).drop_last() =~= s@.subrange(
                from as int,
                i as int,
            ));
            assert(s@.subrange(from as int, i as int + 1).last() == s@[i as int]);
        }
        let d = cv - 48;
        let newval = val * 10 + d;
        if newval > 255 {
            proof {
                if octet_ok(part) {
                    assert(part.subrange(0, i as int + 1 - from as int) =~= s@.subrange(
                        from as int,
                        i as int + 1,
                    ));
                    lemma_dec_val_extend(part, i as int + 1 - from as int);
                }
            }
            return None;
        }
        val = newval;
        i = i + 1;
    }
    proof {
        assert forall|k: int| 0 <= k < part.len() implies is_digit(#[trigger] part[k]) by {
            assert(part[k] == s@[k + from as int]);
        }
    }
    Some(val as u8)
}

/// Parse a dotted-quad host text into its four octets.
pub fn parse_host(host: &str) -> (r: Option<[u8; 4]>)
    ensures
        r == spec_parse_host(host@),
{
    let hlen = host.unicode_len();
    let d1 = match find_str_from(host, ".", 0) {
        None => {
            return None;
        },
        Some(k) => k,
    };
    proof {
        lemma_find_from_found(host@, "."@, 0, d1 as int);
        reveal_strlit(".");
    }
    let d2 = match find_str_from(host, ".", d1 + 1) {
        None => {
            return None;
        },
        Some(k) => k,
    };
    proof {
        lemma_find_from_found(host@, "."@, d1 as int + 1, d2 as int);
    }
    let d3 = match find_str_from(host, ".", d2 + 1) {
        None => {
            return None;
        },
        Some(k) => k,
    };
    proof {
        lemma_find_from_found(host@, "."@, d2 as int + 1, d3 as int);
    }
    match find_str_from(host, ".", d3 + 1) {
        Some(_) => {
            return None;
        },
        None => {},
    }
    let p0 = parse_octet(host, 0, d1);
    let p1 = parse_octet(host, d1 + 1, d2);
    let p2 = parse_octet(host, d2 + 1, d3);
    let p3 = parse_octet(host, d3 + 1, hlen);
    match (p0, p1, p2, p3) {
        (Some(a), Some(b), Some(c), Some(d)) => Some([a, b, c, d]),
        _ => None,
    }
}

} // verus!
