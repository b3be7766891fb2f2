//! The connection gateway's decisions: the origin check that guards the
//! upgrade, and the choice of the client IP string from which the
//! admission identity is derived.

use vstd::prelude::*;

use crate::strutil::str_eq;
use vstd::string::StringExecFns;

verus! {

/// A connection is allowed only when it declares an origin and that
/// origin equals the single allowed origin exactly.
pub fn check_origin(origin: Option<&String>, allowed: &String) -> (r: bool)
    ensures
        r == (origin matches Some(o) && o@ == allowed@),
{
    match origin {
        Some(o) => str_eq(o.as_str(), allowed.as_str()),
        None => false,
    }
}

/// An ASCII whitespace character, as a forwarded-for entry is padded.
pub open spec fn is_ws(c: char) -> bool {
    c == ' ' || c == '\t' || c == '\n' || c == '\r'
}

/// `c` is the prefix of `s` up to (not including) its first comma, or all
/// of `s` when it has none.
pub open spec fn is_first_chunk(s: Seq<char>, c: Seq<char>) -> bool {
    c.len() <= s.len() && c == s.take(c.len() as int) && (forall|j: int|
        0 <= j < c.len() ==> s[j] != ',') && (c.len() == s.len() || s[c.len() as int] == ',')
}

/// `t` is `s` with leading and trailing whitespace removed.
pub open spec fn is_trim_of(s: Seq<char>, t: Seq<char>) -> bool {
    exists|a: int, b: int|
        0 <= a <= b <= s.len() && t == s.subrange(a, b) && (forall|j: int|
            0 <= j < a ==> is_ws(s[j])) && (forall|j: int| b <= j < s.len() ==> is_ws(s[j])) && (a
            == b || (!is_ws(s[a]) && !is_ws(s[b - 1])))
}

/// `t` is the first comma-separated entry of `s`, trimmed.
pub open spec fn is_first_entry_trimmed(s: Seq<char>, t: Seq<char>) -> bool {
    exists|c: Seq<char>| is_first_chunk(s, c) && is_trim_of(c, t)
}

fn ws(c: char) -> (b: bool)
    ensures
        b == is_ws(c),
{
    c == ' ' || c == '\t' || c == '\n' || c == '\r'
}

/// The first comma-separated entry of `s`, trimmed.
fn first_entry_trimmed(s: &str) -> (r: String)
    ensures
        is_first_entry_trimmed(s@, r@),
{
    let len = s.unicode_len();
    let mut e: usize = 0;
    while e < len && s.get_char(e) != ','
        invariant
            e <= len,
            len == s@.len(),
            forall|j: int| 0 <= j < e ==> s@[j] != ',',
        decreases len - e,
    {
        e += 1;
    }
    let ghost chunk = s@.take(e as int);
    proof {
        assert(is_first_chunk(s@, chunk));
    }
    let mut a: usize = 0;
    while a < e && ws(s.get_char(a))
        invariant
            a <= e,
            e <= len,
            len == s@.len(),
            forall|j: int| 0 <= j < a ==> is_ws(s@[j]),
        decreases e - a,
    {
        a += 1;
    }
    let mut b: usize = e;
    while b > a && ws(s.get_char(b - 1))
        invariant
            a <= b <= e,
            e <= len,
            len == s@.len(),
            forall|j: int| b <= j < e ==> is_ws(s@[j]),
        decreases b,
    {
        b -= 1;
    }
    let piece = s.substring_char(a, b);
    let r = String::from_str(piece);
    proof {
        assert(r@ =~= chunk.subrange(a as int, b as int));
        assert(forall|j: int| 0 <= j < a ==> is_ws(chunk[j]));
        assert(forall|j: int| b <= j < chunk.len() ==> is_ws(chunk[j]));
        assert(is_trim_of(chunk, r@));
    }
    r
}

/// The client IP string used for identity derivation, in priority order:
/// the trusted proxy header when present, else the first entry of the
/// forwarded-for header (trimmed), else the transport peer address.
pub fn client_ip(cf: Option<&String>, xff: Option<&String>, direct: &String) -> (r: String)
    ensures
        cf matches Some(s) ==> r@ == s@,
        cf is None ==> (xff matches Some(s) ==> is_first_entry_trimmed(s@, r@)),
        cf is None && xff is None ==> r@ == direct@,
{
    match cf {
        Some(s) => s.clone(),
        None => match xff {
            Some(s) => first_entry_trimmed(s.as_str()),
            None => direct.clone(),
        },
    }
}

} // verus!
