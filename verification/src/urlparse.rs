//! The creation endpoint's body parse: a hand-rolled scan for a `"url"`
//! key, the colon after it, and the quoted value after that. Nothing
//! more of JSON is read here: any body whose characters carry that shape
//! is accepted.

use vstd::prelude::*;
use vstd::string::*;

use crate::strutil::find_from;
use crate::strutil::find_str_from;
use crate::strutil::lemma_find_from_found;

verus! {

/// The `url` field of a request body: the characters between the first
/// pair of quotes after the first colon after the first `"url"` key, or
/// nothing when any of those is missing.
pub open spec fn url_field(s: Seq<char>) -> Option<Seq<char>> {
    match find_from(s, "\"url\""@, 0) {
        None => None,
        Some(start) => match find_from(s, ":"@, start) {
            None => None,
            Some(colon) => match find_from(s, "\""@, colon + 1) {
                None => None,
                Some(q1) => match find_from(s, "\""@, q1 + 1) {
                    None => None,
                    Some(q2) => Some(s.subrange(q1 + 1, q2)),
                },
            },
        },
    }
}

/// Extract the `url` field of a request body, if the body carries one.
pub fn extract_url(body: &str) -> (r: Option<String>)
    ensures
        (match r {
            Some(u) => url_field(body@) == Some(u@),
            None => url_field(body@) is None,
        }),
{
    let _blen: usize = body.unicode_len();
    let start = match find_str_from(body, "\"url\"", 0) {
        None => {
            return None;
        },
        Some(k) => k,
    };
    proof {
        lemma_find_from_found(body@, "\"url\""@, 0, start as int);
    }
    let colon = match find_str_from(body, ":", start) {
        None => {
            return None;
        },
        Some(k) => k,
    };
    proof {
        lemma_find_from_found(body@, ":"@, start as int, colon as int);
        reveal_strlit(":");
    }
    let q1 = match find_str_from(body, "\"", colon + 1) {
        None => {
            return None;
        },
        Some(k) => k,
    };
    proof {
        lemma_find_from_found(body@, "\""@, colon as int + 1, q1 as int);
        reveal_strlit("\"");
    }
    let q2 = match find_str_from(body, "\"", q1 + 1) {
        None => {
            return None;
        },
        Some(k) => k,
    };
    proof {
        lemma_find_from_found(body@, "\""@, q1 as int + 1, q2 as int);
    }
    let u = body.substring_char(q1 + 1, q2);
    Some(u.to_owned())
}

} // verus!
