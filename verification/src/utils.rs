//! Trusted bridges to the outside crates that compute for the coordinator:
//! random credential generation and base64 encoding.

use vstd::prelude::*;
use vstd::string::{StrSliceExecFns, StringExecFns};
use base64::Engine;
use rand::distr::SampleString;

verus! {

/// What `base64::engine::general_purpose::STANDARD.encode` returns for a
/// given string: standard-alphabet base64 with padding. The encoding is a
/// pure function of its input; its value is not restated here.
pub uninterp spec fn base64_of(s: Seq<char>) -> Seq<char>;

/// Relies on base64's `Engine::encode` with the `STANDARD` engine: the
/// encoding depends on the input bytes alone, and an empty input encodes to
/// an empty string.
#[verifier::external_body]
pub fn base64_encode(s: &String) -> (r: String)
    ensures
        r@ == base64_of(s@),
        s@.len() == 0 ==> r@.len() == 0,
{
    base64::engine::general_purpose::STANDARD.encode(s)
}

/// The character is one of `[A-Za-z0-9]`.
pub open spec fn is_alphanumeric_char(c: char) -> bool {
    ||| '0' <= c <= '9'
    ||| 'A' <= c <= 'Z'
    ||| 'a' <= c <= 'z'
}

/// Relies on rand's `Alphanumeric` distribution: `sample_string` draws the
/// requested number of characters, each from `[A-Za-z0-9]`. The values are
/// random; nothing beyond the length and the alphabet is promised.
#[verifier::external_body]
pub fn random_chars(len: usize) -> (r: String)
    ensures
        r@.len() == len,
        forall|i: int| 0 <= i < r@.len() ==> is_alphanumeric_char(#[trigger] r@[i]),
{
    rand::distr::Alphanumeric.sample_string(&mut rand::rng(), len)
}

/// A freshly generated random credential.
pub fn random_password() -> (r: String)
    ensures
        r@.len() == 32,
        forall|i: int| 0 <= i < r@.len() ==> is_alphanumeric_char(#[trigger] r@[i]),
{
    random_chars(32)
}

/// Whether `s` holds a colon.
pub fn contains_colon(s: &str) -> (b: bool)
    ensures
        b == s@.contains(':'),
{
    let n = s.unicode_len();
    let mut i: usize = 0;
    while i < n
        invariant
            n == s@.len(),
            i <= n,
            forall|j: int| 0 <= j < i ==> s@[j] != ':',
        decreases n - i,
    {
        if s.get_char(i) == ':' {
            proof {
                assert(s@[i as int] == ':');
            }
            return true;
        }
        i += 1;
    }
    false
}

/// `p` is the text after the last colon of `addr`: for a socket address,
/// its port digits.
pub open spec fn spec_port_suffix(addr: Seq<char>, p: Seq<char>) -> bool {
    exists|k: int| {
        &&& 0 <= k < addr.len()
        &&& addr[k] == ':'
        &&& p == addr.subrange(k + 1, addr.len() as int)
        &&& (forall|j: int| k < j < addr.len() ==> addr[j] != ':')
    }
}

/// The text after the last colon of `addr`, or `None` when it has no colon.
pub fn port_text(addr: &str) -> (r: Option<String>)
    ensures
        r matches Some(t) ==> spec_port_suffix(addr@, t@),
        r is None ==> !addr@.contains(':'),
{
    let n = addr.unicode_len();
    let mut i: usize = n;
    while i > 0
        invariant
            n == addr@.len(),
            i <= n,
            forall|j: int| i <= j < n ==> addr@[j] != ':',
        decreases i,
    {
        i -= 1;
        if addr.get_char(i) == ':' {
            let t = addr.substring_char(i + 1, n);
            proof {
                assert(addr@[i as int] == ':');
                assert(t@ == addr@.subrange(i + 1, n as int));
            }
            return Some(String::from_str(t));
        }
    }
    None
}

/// A host for use inside a URL: an IPv6 host (one holding a colon) is
/// bracketed; any other host passes through.
pub open spec fn spec_bracketed(h: Seq<char>) -> Seq<char> {
    if h.contains(':') {
        "["@ + h + "]"@
    } else {
        h
    }
}

/// Bracket an IPv6 host for use inside a URL.
pub fn bracket_host(hostname: &str) -> (r: String)
    ensures
        r@ == spec_bracketed(hostname@),
{
    if contains_colon(hostname) {
        let mut r = String::from_str("[");
        r.append(hostname);
        r.append("]");
        proof {
            assert(r@ =~= spec_bracketed(hostname@));
        }
        r
    } else {
        String::from_str(hostname)
    }
}

} // verus!
