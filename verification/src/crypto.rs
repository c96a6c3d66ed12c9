//! Message authentication (HMAC-SHA256) through the `hmac` and `sha2` crates.

use vstd::prelude::*;
use hmac::Mac;

verus! {

/// The HMAC-SHA256 tag of `message` under `key`.
pub uninterp spec fn hmac_sha256_of(key: Seq<u8>, message: Seq<u8>) -> Seq<u8>;

/// The HMAC-SHA256 tag of `first` followed by `second`, under `key`.
///
/// Trusted: `Hmac::<Sha256>::new_from_slice`, `Mac::update` and `Mac::finalize` of the `hmac`
/// and `sha2` crates. The tag is a function of the key and the message (`hmac_sha256_of`),
/// feeding the message in two parts is the same as feeding it whole, and SHA-256 tags are
/// 32 bytes long. HMAC accepts keys of any length (`new_from_slice` never fails for `Hmac`),
/// so the result is always present.
#[verifier::external_body]
pub fn hmac_sha256(key: &[u8], first: &[u8], second: &[u8]) -> (tag: Option<Vec<u8>>)
    ensures
        tag is Some,
        tag matches Some(t) ==> t@ == hmac_sha256_of(key@, first@ + second@) && t@.len() == 32,
{
    match hmac::Hmac::<sha2::Sha256>::new_from_slice(key) {
        Ok(mut mac) => {
            mac.update(first);
            mac.update(second);
            Some(mac.finalize().into_bytes().to_vec())
        },
        Err(_) => None,
    }
}

} // verus!
