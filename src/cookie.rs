//! The session cookie as plain values, and the scan of a `Cookie` request
//! header for a correctly signed session identifier.
use axum_extra::extract::cookie::Cookie;
use vstd::prelude::*;

use crate::signer::{verified_value, verify};

verus! {

/// The `SameSite` attribute of a cookie.
#[derive(Clone, Copy, Debug, PartialEq, Eq, Structural)]
pub enum SameSitePolicy {
    Strict,
    Lax,
    /// `SameSite=None`: sent with cross-site requests too.
    NoRestriction,
}

/// When a cookie expires, in seconds since the Unix epoch.
#[derive(Clone, Copy, Debug, PartialEq, Eq, Structural)]
pub enum CookieExpiry {
    /// No `Expires` attribute: the cookie lasts for the browser session.
    OnClose,
    /// Expires at the given instant.
    At(u64),
    /// A removal cookie: empty, already expired.
    Removal,
}

/// A `Set-Cookie` directive, attribute by attribute.
#[derive(Clone, Debug)]
pub struct SessionCookie {
    pub name: String,
    pub value: String,
    pub http_only: bool,
    pub same_site: SameSitePolicy,
    pub secure: bool,
    pub path: Option<String>,
    pub domain: Option<String>,
    pub expiry: CookieExpiry,
}

/// The text `s` without leading and trailing white space.
pub uninterp spec fn trimmed_of(s: Seq<char>) -> Seq<char>;

/// The name and the percent-decoded value of the single cookie `s`, if it
/// parses as one.
pub uninterp spec fn cookie_pair_of(s: Seq<char>) -> Option<(Seq<char>, Seq<char>)>;

/// Index of the first `;` in `s`, or its length when there is none.
pub open spec fn semicolon_index(s: Seq<char>) -> nat
    decreases s.len(),
{
    if s.len() == 0 {
        0
    } else if s[0] == ';' {
        0
    } else {
        1 + semicolon_index(s.drop_first())
    }
}

proof fn lemma_semicolon_index(s: Seq<char>)
    ensures
        semicolon_index(s) <= s.len(),
        semicolon_index(s) < s.len() ==> s[semicolon_index(s) as int] == ';',
        forall|j: int| 0 <= j < semicolon_index(s) ==> s[j] != ';',
    decreases s.len(),
{
    if s.len() > 0 && s[0] != ';' {
        lemma_semicolon_index(s.drop_first());
        assert forall|j: int| 0 <= j < semicolon_index(s) implies s[j] != ';' by {
            if j > 0 {
                assert(s[j] == s.drop_first()[j - 1]);
            }
        }
    }
}

/// Relies on `str::trim`.
#[verifier::external_body]
fn trim_text(s: &str) -> (r: &str)
    ensures
        r@ == trimmed_of(s@),
{
    s.trim()
}

/// Relies on `str::split_once`: the text before and after the first `;`.
#[verifier::external_body]
fn split_once_semicolon(s: &str) -> (r: Option<(&str, &str)>)
    ensures
        match r {
            Some((a, b)) => semicolon_index(s@) < s@.len() && a@ == s@.take(
                semicolon_index(s@) as int,
            ) && b@ == s@.skip(semicolon_index(s@) + 1int),
            None => semicolon_index(s@) == s@.len(),
        },
{
    s.split_once(';')
}

/// Relies on `Cookie::parse_encoded` (cookie, via axum_extra): the name and
/// the percent-decoded value of one cookie; `None` where it does not parse.
#[verifier::external_body]
fn parse_cookie_pair(s: &str) -> (r: Option<(String, String)>)
    ensures
        match r {
            Some((n, v)) => cookie_pair_of(s@) == Some((n@, v@)),
            None => cookie_pair_of(s@) is None,
        },
{
    Cookie::parse_encoded(s).ok().map(|c| (c.name().to_owned(), c.value().to_owned()))
}

/// The value of one `;`-separated piece of a `Cookie` header, when the
/// piece, trimmed, parses as a cookie named `name`.
pub open spec fn named_value(name: Seq<char>, piece: Seq<char>) -> Option<Seq<char>> {
    match cookie_pair_of(trimmed_of(piece)) {
        Some((n, v)) => if n == name {
            Some(v)
        } else {
            None
        },
        None => None,
    }
}

/// What the `Cookie` header `header` presents: the first piece that parses
/// as a cookie named `name` is the only one that counts, and gives the raw
/// identifier its value carries if that value verifies under `key`.
pub open spec fn header_candidate(key: Seq<u8>, name: Seq<char>, header: Seq<char>) -> Option<
    Seq<char>,
>
    decreases header.len(),
{
    let i = semicolon_index(header);
    match named_value(name, header.take(i as int)) {
        Some(v) => match verified_value(key, v) {
            Ok(raw) => Some(raw),
            Err(_) => None,
        },
        None => if i < header.len() {
            header_candidate(key, name, header.skip(i + 1int))
        } else {
            None
        },
    }
}

fn piece_value(name: &String, piece: &str) -> (r: Option<String>)
    ensures
        match r {
            Some(s) => named_value(name@, piece@) == Some(s@),
            None => named_value(name@, piece@) is None,
        },
{
    let trimmed = trim_text(piece);
    match parse_cookie_pair(trimmed) {
        Some((n, v)) => {
            if n.eq(name) {
                Some(v)
            } else {
                None
            }
        },
        None => None,
    }
}

fn verified_raw(key: &[u8], value: &str) -> (r: Option<String>)
    ensures
        match r {
            Some(s) => verified_value(key@, value@) == Ok::<Seq<char>, crate::signer::SignatureError>(s@),
            None => verified_value(key@, value@) is Err,
        },
{
    match verify(key, value) {
        Ok(raw) => Some(raw),
        Err(_) => None,
    }
}

/// Scans a `Cookie` header for the first cookie named `name` and returns the
/// raw identifier its value carries when that value verifies under `key`.
/// Pieces that do not parse or carry another name are skipped; a first
/// cookie of that name that does not verify gives `None`.
pub fn find_session_id(key: &[u8], name: &String, header: &str) -> (r: Option<String>)
    ensures
        match r {
            Some(s) => header_candidate(key@, name@, header@) == Some(s@),
            None => header_candidate(key@, name@, header@) is None,
        },
{
    let mut rest: &str = header;
    loop
        invariant
            header_candidate(key@, name@, header@) == header_candidate(key@, name@, rest@),
        decreases rest@.len(),
    {
        proof {
            lemma_semicolon_index(rest@);
        }
        match split_once_semicolon(rest) {
            Some((piece, tail)) => {
                if let Some(v) = piece_value(name, piece) {
                    return verified_raw(key, v.as_str());
                }
                rest = tail;
            },
            None => {
                proof {
                    assert(rest@.take(rest@.len() as int) =~= rest@);
                }
                return match piece_value(name, rest) {
                    Some(v) => verified_raw(key, v.as_str()),
                    None => None,
                };
            },
        }
    }
}

} // verus!
