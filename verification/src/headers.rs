//! Custom webhook headers.
//!
//! The ordered header map of a custom webhook format is an
//! `indexmap::IndexMap`, opaque to the verifier and described only through
//! the `header_entries` projection. The validity rules for header names and
//! values are the ones the HTTP transport enforces; checking them up front
//! turns a bad header into a configuration error before any network attempt.

use vstd::prelude::*;
use crate::error::Error;

verus! {

/// The map type that stores custom webhook headers, declared so that it can
/// stand in fields and signatures.
#[verifier::external_type_specification]
#[verifier::external_body]
#[verifier::reject_recursive_types(K)]
#[verifier::reject_recursive_types(V)]
#[verifier::reject_recursive_types(S)]
pub struct ExIndexMap<K, V, S>(indexmap::IndexMap<K, V, S>);

/// The entries of a header map: its key/value pairs in insertion order.
/// The map keeps keys unique.
pub uninterp spec fn header_entries(m: indexmap::IndexMap<String, String>) -> Seq<(String, String)>;

/// Relies on `IndexMap::new`: the new map is empty.
#[verifier::external_body]
pub fn header_map_new() -> (r: indexmap::IndexMap<String, String>)
    ensures
        header_entries(r) == Seq::<(String, String)>::empty(),
{
    indexmap::IndexMap::new()
}

/// Relies on `IndexMap::insert`: a new key is appended last in order; an
/// existing key keeps its place and only its value is updated.
#[verifier::external_body]
pub fn header_map_insert(m: &mut indexmap::IndexMap<String, String>, k: String, v: String)
    ensures
        (forall|j: int|
            0 <= j < header_entries(*old(m)).len() ==> (#[trigger] header_entries(*old(m))[j]).0@
                != k@) ==> header_entries(*final(m)) == header_entries(*old(m)).push((k, v)),
        forall|j: int|
            0 <= j < header_entries(*old(m)).len() && (#[trigger] header_entries(*old(m))[j]).0@
                == k@ ==> header_entries(*final(m)) == header_entries(*old(m)).update(
                j,
                (header_entries(*old(m))[j].0, v),
            ),
{
    m.insert(k, v);
}

/// First-match lookup among entries, by the key's text.
pub open spec fn entries_lookup(es: Seq<(String, String)>, k: Seq<char>) -> Option<String>
    decreases es.len(),
{
    if es.len() == 0 {
        None
    } else if es[0].0@ == k {
        Some(es[0].1)
    } else {
        entries_lookup(es.drop_first(), k)
    }
}

/// Relies on `IndexMap::get`: returns the value stored for the key, if any.
/// Since keys are unique, that is the first (and only) entry with this key.
#[verifier::external_body]
pub fn header_map_get<'a>(m: &'a indexmap::IndexMap<String, String>, k: &str) -> (r: Option<
    &'a String,
>)
    ensures
        r is Some <==> entries_lookup(header_entries(*m), k@) is Some,
        r matches Some(v) ==> entries_lookup(header_entries(*m), k@) == Some(*v),
{
    m.get(k)
}

/// Relies on `IndexMap::iter`: yields the entries in insertion order;
/// cloning the strings keeps them equal.
#[verifier::external_body]
pub fn header_map_pairs(m: &indexmap::IndexMap<String, String>) -> (r: Vec<(String, String)>)
    ensures
        r@ == header_entries(*m),
{
    m.iter().map(|(k, v)| (k.clone(), v.clone())).collect()
}

/// Whether `c` may stand in an HTTP header name: the token characters the
/// transport's `HeaderName` accepts (letters, digits, and
/// ``!#$%&'*+-.^_`|~``).
pub open spec fn header_name_char(c: char) -> bool {
    ||| 97 <= c as u32 && c as u32 <= 122
    ||| 65 <= c as u32 && c as u32 <= 90
    ||| 48 <= c as u32 && c as u32 <= 57
    ||| c == '!'
    ||| c == '#'
    ||| c == '$'
    ||| c == '%'
    ||| c == '&'
    ||| c == '\''
    ||| c == '*'
    ||| c == '+'
    ||| c == '-'
    ||| c == '.'
    ||| c == '^'
    ||| c == '_'
    ||| c == '`'
    ||| c == '|'
    ||| c == '~'
}

/// A valid HTTP header name: non-empty, at most 65535 bytes, every
/// character from the token set (so all ASCII, and characters count bytes).
pub open spec fn valid_header_name(s: Seq<char>) -> bool {
    &&& 1 <= s.len() <= 65535
    &&& forall|i: int| 0 <= i < s.len() ==> header_name_char(#[trigger] s[i])
}

/// Whether `c` may stand in an HTTP header value: horizontal tab, or
/// anything that is neither an ASCII control character nor delete.
pub open spec fn header_value_char(c: char) -> bool {
    c == '\t' || (c as u32 >= 32 && c as u32 != 127)
}

/// A valid HTTP header value: every character acceptable to the
/// transport's `HeaderValue` (an empty value is valid).
pub open spec fn valid_header_value(s: Seq<char>) -> bool {
    forall|i: int| 0 <= i < s.len() ==> header_value_char(#[trigger] s[i])
}

/// Relies on `HeaderName::from_bytes` (reqwest's re-export of the http
/// crate): it accepts exactly the non-empty names of at most 65535 bytes
/// whose bytes all come from the header token table.
#[verifier::external_body]
pub fn check_header_name(s: &str) -> (r: bool)
    ensures
        r == valid_header_name(s@),
{
    reqwest::header::HeaderName::from_bytes(s.as_bytes()).is_ok()
}

/// Relies on `HeaderValue::from_bytes` (reqwest's re-export of the http
/// crate): it accepts exactly the values whose bytes are horizontal tab or
/// at least 32 and not 127; the bytes of non-ASCII characters all are.
#[verifier::external_body]
pub fn check_header_value(s: &str) -> (r: bool)
    ensures
        r == valid_header_value(s@),
{
    reqwest::header::HeaderValue::from_bytes(s.as_bytes()).is_ok()
}

/// The first configuration error among the entries, scanning in order; an
/// entry's name is checked before its value.
pub open spec fn header_error(es: Seq<(String, String)>) -> Option<Error>
    decreases es.len(),
{
    if es.len() == 0 {
        None
    } else if !valid_header_name(es[0].0@) {
        Some(Error::UnknownHttpHeader(es[0].0))
    } else if !valid_header_value(es[0].1@) {
        Some(Error::InvalidHttpHeader(es[0].1))
    } else {
        header_error(es.drop_first())
    }
}

/// Validate header entries against the transport's rules, reporting the
/// first offending name or value as a configuration error.
pub fn check_headers(pairs: &Vec<(String, String)>) -> (r: Result<(), Error>)
    ensures
        r is Ok <==> header_error(pairs@) is None,
        r matches Err(e) ==> header_error(pairs@) == Some(e),
{
    let n = pairs.len();
    let mut i: usize = 0;
    proof {
        assert(pairs@.skip(0) =~= pairs@);
    }
    while i < n
        invariant
            n == pairs@.len(),
            i <= n,
            header_error(pairs@.skip(i as int)) == header_error(pairs@),
        decreases n - i,
    {
        let ghost rest = pairs@.skip(i as int);
        if !check_header_name(&pairs[i].0) {
            proof {
                assert(rest[0] == pairs@[i as int]);
            }
            return Err(Error::UnknownHttpHeader(pairs[i].0.clone()));
        }
        if !check_header_value(&pairs[i].1) {
            proof {
                assert(rest[0] == pairs@[i as int]);
            }
            return Err(Error::InvalidHttpHeader(pairs[i].1.clone()));
        }
        proof {
            assert(rest[0] == pairs@[i as int]);
            assert(rest.drop_first() =~= pairs@.skip(i as int + 1));
        }
        i += 1;
    }
    proof {
        assert(pairs@.skip(n as int) =~= Seq::<(String, String)>::empty());
    }
    Ok(())
}

} // verus!
