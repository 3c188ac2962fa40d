//! Signature verification: HMAC-SHA1 authentication of a raw payload
//! against a shared secret, and the authenticating hook decorator.

use vstd::prelude::*;
use vstd::string::StrSliceExecFns;
use crypto::mac::Mac;
use crate::delivery::Delivery;
use crate::hex::{hex_of, to_hex};
use crate::hook::Hook;

verus! {

/// The HMAC-SHA1 digest of a message under a key: a fixed function of
/// the two byte strings alone.
pub uninterp spec fn hmac_sha1_of(key: Seq<u8>, msg: Seq<u8>) -> Seq<u8>;

/// Relies on crypto's `Hmac` keyed with `Sha1` (`Mac::input`,
/// `Mac::result`, `MacResult::code`): the digest depends on the key
/// and message bytes alone, and SHA-1 output is 160 bits, so the code
/// is 20 bytes long.
#[verifier::external_body]
fn hmac_sha1(key: &[u8], msg: &[u8]) -> (r: Vec<u8>)
    ensures
        r@ == hmac_sha1_of(key@, msg@),
        r@.len() == 20,
{
    let mut mac = crypto::hmac::Hmac::new(crypto::sha1::Sha1::new(), key);
    mac.input(msg);
    mac.result().code().to_vec()
}

/// A header signature with a literal `sha1=` prefix stripped, if the
/// prefix is present.
pub open spec fn strip_sha1(sig: Seq<char>) -> Seq<char> {
    if sig.len() >= 5 && sig.subrange(0, 5) == "sha1="@ {
        sig.skip(5)
    } else {
        sig
    }
}

/// Strips a literal `sha1=` prefix from a header signature, when
/// present.
pub fn strip_signature(signature: &str) -> (r: String)
    ensures
        r@ == strip_sha1(signature@),
{
    let n: usize = signature.unicode_len();
    if n >= 5 {
        let prefix: String = signature.substring_char(0, 5).to_owned();
        let tag: String = "sha1=".to_owned();
        if prefix == tag {
            return signature.substring_char(5, n).to_owned();
        }
    }
    signature.to_owned()
}

/// Whether a header signature authenticates a payload under a secret:
/// with the `sha1=` prefix stripped, it equals the lowercase
/// hexadecimal HMAC-SHA1 digest of the payload bytes keyed by the
/// secret bytes.
pub open spec fn signature_matches(
    secret: Seq<char>,
    payload: Seq<char>,
    signature: Seq<char>,
) -> bool {
    strip_sha1(signature) == hex_of(
        hmac_sha1_of(vstd::utf8::encode_utf8(secret), vstd::utf8::encode_utf8(payload)),
    )
}

/// Verifies a header signature against a payload and a shared secret:
/// true exactly when the signature, with its `sha1=` prefix stripped,
/// equals the hex-encoded HMAC-SHA1 digest of the payload keyed by the
/// secret.
pub fn authenticate(secret: &str, payload: &str, signature: &str) -> (r: bool)
    ensures
        r == signature_matches(secret@, payload@, signature@),
{
    let digest = hmac_sha1(secret.as_bytes(), payload.as_bytes());
    let expected = to_hex(digest.as_slice());
    let presented = strip_signature(signature);
    expected == presented
}

/// A delivery authenticator wrapped around an inner hook: the inner
/// hook sees exactly the deliveries whose signature verifies against
/// the configured secret.
pub struct AuthenticateHook {
    pub secret: String,
    pub hook: Hook,
}

impl AuthenticateHook {
    /// Wraps a hook behind a shared secret.
    pub fn new(secret: &str, hook: Hook) -> (r: AuthenticateHook)
        ensures
            r.secret@ == secret@,
            r.hook == hook,
    {
        AuthenticateHook { secret: secret.to_owned(), hook }
    }

    /// Verifies a payload and header signature against the wrapper's
    /// secret.
    pub fn authenticate(&self, payload: &str, signature: &str) -> (r: bool)
        ensures
            r == signature_matches(self.secret@, payload@, signature@),
    {
        authenticate(self.secret.as_str(), payload, signature)
    }

    /// Admits a delivery to the inner hook: the hook is handed back
    /// exactly when the delivery carries a signature and that
    /// signature verifies against the secret; an unsigned or
    /// misattested delivery is dropped.
    pub fn handle(&self, delivery: &Delivery) -> (r: Option<&Hook>)
        ensures
            r is Some <==> match delivery.signature {
                Some(sig) => signature_matches(self.secret@, delivery.unparsed_payload@, sig@),
                None => false,
            },
            r is Some ==> r == Some(&self.hook),
    {
        match &delivery.signature {
            Some(sig) => {
                if self.authenticate(delivery.unparsed_payload.as_str(), sig.as_str()) {
                    Some(&self.hook)
                } else {
                    None
                }
            },
            None => None,
        }
    }
}

} // verus!
