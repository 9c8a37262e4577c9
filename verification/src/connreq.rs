//! The Connection Request initiator: the out-of-band HTTP Digest handshake
//! the ACS uses to wake a dormant CPE.
//!
//! The HTTP legs themselves are I/O and live outside the library; here stand
//! the decisions between them, per TR-069: a first GET without credentials is
//! expected to return a `WWW-Authenticate: Digest` challenge, the answer is
//! computed with the entry's credentials and request URI `/`, and the retry
//! succeeds iff it returns `200 OK`.

use vstd::prelude::*;
use vstd::string::StringExecFns;
use crate::AcsError;

verus! {

/// Whether a `WWW-Authenticate: Digest ...` challenge parses and can be
/// answered for a body-less GET. digest_auth decides this from the challenge
/// text alone — the credentials and request URI are only hashed into the
/// answer — so success has a name, while the answer itself does not (it
/// embeds a randomly generated client nonce).
pub uninterp spec fn digest_challenge_answered(c: Seq<char>) -> bool;

/// Relies on `digest_auth::parse` and `WwwAuthenticateHeader::respond` (with
/// `digest_auth::AuthContext::new` packaging the credentials and request URI,
/// and `AuthorizationHeader::to_header_string` rendering the result): answer
/// a Digest challenge. The call succeeds iff the challenge parses — on a
/// freshly parsed challenge `respond` itself cannot fail for a body-less
/// GET — which depends on the challenge text alone and is named
/// `digest_challenge_answered`. The parser slices the challenge at character
/// positions taken as byte offsets and panics when they differ, so only
/// ASCII challenges are admitted.
#[verifier::external_body]
fn digest_answer(challenge: &str, username: &str, password: &str, uri: &str) -> (r: Option<String>)
    requires
        vstd::utf8::is_ascii_chars(challenge@),
    ensures
        r is Some <==> digest_challenge_answered(challenge@),
{
    let context = digest_auth::AuthContext::new(username, password, uri);
    match digest_auth::parse(challenge) {
        Ok(mut prompt) => match prompt.respond(&context) {
            Ok(answer) => Some(answer.to_header_string()),
            Err(_) => None,
        },
        Err(_) => None,
    }
}

/// A CPE's Connection Request endpoint. The URL is provided by the CPE in
/// its Inform; the username and password are ACS-chosen.
pub struct Connreq {
    pub url: String,
    pub username: String,
    pub password: String,
}

impl Default for Connreq {
    /// A fresh endpoint: no URL yet, the fixed default username, and a
    /// freshly generated random password.
    fn default() -> (r: Connreq)
        ensures
            r.url@ == Seq::<char>::empty(),
            r.username@ == "acsrs"@,
            r.password@.len() == 32,
    {
        Connreq {
            url: String::new(),
            username: String::from_str("acsrs"),
            password: crate::utils::random_password(),
        }
    }
}

impl Connreq {
    /// A field-for-field copy. The entry's fields are cloned out like this
    /// before any outbound call, so a lock is never held across network I/O.
    pub fn duplicate(&self) -> (r: Connreq)
        ensures
            r == *self,
    {
        Connreq {
            url: self.url.clone(),
            username: self.username.clone(),
            password: self.password.clone(),
        }
    }

    /// Decide on the first response of the handshake. The reply must carry a
    /// `WWW-Authenticate` header holding an ASCII Digest challenge; it is
    /// answered with this endpoint's credentials and request URI `/`.
    /// Returns the value for the `Authorization` header of the retry.
    ///
    /// Fails with `AuthError` exactly when the header is missing, is not
    /// ASCII, or its challenge cannot be parsed and answered.
    pub fn on_first_response(&self, www_authenticate: &Option<String>) -> (r: Result<String, AcsError>)
        ensures
            r is Ok <==> (www_authenticate matches Some(c)
                && vstd::utf8::is_ascii_chars(c@) && digest_challenge_answered(c@)),
            r is Err ==> r == Err::<String, AcsError>(AcsError::AuthError),
    {
        match www_authenticate {
            None => Err(AcsError::AuthError),
            Some(challenge) => {
                if !challenge.as_str().is_ascii() {
                    return Err(AcsError::AuthError);
                }
                match digest_answer(challenge.as_str(), self.username.as_str(), self.password.as_str(), "/") {
                    None => Err(AcsError::AuthError),
                    Some(answer) => Ok(answer),
                }
            },
        }
    }

    /// Decide on the second response of the handshake: the Connection Request
    /// succeeded iff the authenticated retry returned `200 OK`. Any other
    /// status is an authentication failure.
    pub fn on_second_response(&self, status: u16) -> (r: Result<(), AcsError>)
        ensures
            r is Ok <==> status == 200,
            status != 200 ==> r == Err::<(), AcsError>(AcsError::AuthError),
    {
        if status == 200 {
            Ok(())
        } else {
            Err(AcsError::AuthError)
        }
    }
}

} // verus!
