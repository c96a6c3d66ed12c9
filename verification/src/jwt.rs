//! Signing JSON Web Tokens (HS256) through the `jsonwebtoken` crate.

use vstd::prelude::*;
use crate::provisioner::secrets::claims_json_of;

verus! {

/// The HS256 JSON Web Token with the default header, the given claims (as JSON text,
/// verbatim) and the given HMAC key.
pub uninterp spec fn hs256_jwt_of(claims_json: Seq<char>, key: Seq<u8>) -> Seq<char>;

/// Signs `claims_json` into an HS256 token.
///
/// Trusted: `jsonwebtoken::encode` with `Header::default()` (HS256) and
/// `EncodingKey::from_secret(key)`, the claims handed over as a
/// `serde_json::value::RawValue` so that the text is embedded as it stands. Signing with
/// an HMAC key is a function of the claims and the key (`hs256_jwt_of`).
/// `RawValue::from_string` fails only on text that is not well-formed JSON, and `encode`
/// with an HMAC key and the HS256 header fails only on a key and algorithm of different
/// families or on a serialisation error, neither of which can happen here. So signing the
/// claims of an API key (`claims_json_of`: an object of a JSON string and two integers)
/// always succeeds; for other texts failure is possible and is reported as `None` without
/// saying why.
#[verifier::external_body]
pub fn sign_hs256(claims_json: &str, key: &[u8]) -> (token: Option<String>)
    ensures
        token matches Some(t) ==> t@ == hs256_jwt_of(claims_json@, key@),
        (exists|role: Seq<char>, iat: int| -40_000_000_000_000 < iat < 40_000_000_000_000
            && claims_json@ == #[trigger] claims_json_of(role, iat)) ==> token is Some,
{
    match serde_json::value::RawValue::from_string(claims_json.to_string()) {
        Ok(raw) => jsonwebtoken::encode(
            &jsonwebtoken::Header::default(),
            &raw,
            &jsonwebtoken::EncodingKey::from_secret(key),
        ).ok(),
        Err(_) => None,
    }
}

} // verus!
