//! Secrets for a new tenant stack: random passwords and keys, and the Supabase API keys,
//! which are JSON Web Tokens signed with the stack's JWT secret.

use vstd::prelude::*;
use vstd::utf8::encode_utf8;
use crate::text::{is_ascii_alnum, push_char};
use crate::numbers::{decimal_of, i64_to_decimal};
use crate::clock::unix_now;
use crate::random::{random_alphanumeric, random_below};
use crate::jwt::{hs256_jwt_of, sign_hs256};
use crate::json::{json_string, json_string_of};
use crate::ids::is_lower_hex;
use crate::provisioner::jobs::{TenantSecrets, TenantSecretsView};

verus! {

/// A random string of `len` ASCII letters and digits.
pub fn rand_string(len: usize) -> (s: String)
    ensures
        s@.len() == len,
        forall|i: int| 0 <= i < len ==> is_ascii_alnum(#[trigger] s@[i]),
{
    let mut s = String::new();
    let mut i: usize = 0;
    while i < len
        invariant
            i <= len,
            s@.len() == i,
            forall|k: int| 0 <= k < i ==> is_ascii_alnum(#[trigger] s@[k]),
        decreases len - i,
    {
        let b = random_alphanumeric();
        let c = b as char;
        push_char(&mut s, c);
        i = i + 1;
    }
    s
}

/// A random string of `len` lower-case hexadecimal digits.
pub fn rand_hex(len: usize) -> (s: String)
    ensures
        s@.len() == len,
        forall|i: int| 0 <= i < len ==> is_lower_hex(#[trigger] s@[i]),
{
    let digits: [char; 16] = ['0', '1', '2', '3', '4', '5', '6', '7', '8', '9', 'a', 'b', 'c', 'd', 'e', 'f'];
    assert forall|k: int| 0 <= k < 16 implies is_lower_hex(#[trigger] digits@[k]) by {}
    let mut s = String::new();
    let mut i: usize = 0;
    while i < len
        invariant
            i <= len,
            s@.len() == i,
            forall|k: int| 0 <= k < 16 ==> is_lower_hex(#[trigger] digits@[k]),
            forall|k: int| 0 <= k < i ==> is_lower_hex(#[trigger] s@[k]),
        decreases len - i,
    {
        let idx = random_below(16);
        let c = digits[idx];
        push_char(&mut s, c);
        i = i + 1;
    }
    s
}

/// Ten years in seconds: how long the API keys stay valid.
pub open spec fn key_lifetime() -> int {
    315_360_000int
}

/// The claims of an API key for `role` issued at `iat`, as the JSON object
/// `{"role":...,"iss":"supabase","iat":...,"exp":...}` that expires ten years later.
pub open spec fn claims_json_of(role: Seq<char>, iat: int) -> Seq<char> {
    "{\"role\":"@ + json_string_of(role) + ",\"iss\":\"supabase\",\"iat\":"@ + decimal_of(iat)
        + ",\"exp\":"@ + decimal_of(iat + key_lifetime()) + "}"@
}

/// Why the API keys could not be signed.
pub enum SigningError {
    SigningFailed,
}

/// The API key for `role` issued at `now`, signed with `jwt_secret`.
pub fn sign_jwt_at(jwt_secret: &str, role: &str, now: i64) -> (r: Result<String, SigningError>)
    requires
        -40_000_000_000_000 < now < 40_000_000_000_000,
    ensures
        r matches Ok(t) && t@ == hs256_jwt_of(claims_json_of(role@, now as int), encode_utf8(jwt_secret@)),
{
    let exp: i64 = now + 60 * 60 * 24 * 365 * 10;
    let mut claims = String::from_str("{\"role\":");
    let role_json = json_string(role);
    claims.append(role_json.as_str());
    claims.append(",\"iss\":\"supabase\",\"iat\":");
    let iat_text = i64_to_decimal(now);
    claims.append(iat_text.as_str());
    claims.append(",\"exp\":");
    let exp_text = i64_to_decimal(exp);
    claims.append(exp_text.as_str());
    claims.append("}");
    assert(claims@ =~= claims_json_of(role@, now as int));
    assert(exists|r: Seq<char>, iat: int| -40_000_000_000_000 < iat < 40_000_000_000_000
        && claims@ == #[trigger] claims_json_of(r, iat)) by {
        assert(claims@ == claims_json_of(role@, now as int));
    }
    match sign_hs256(claims.as_str(), jwt_secret.as_bytes()) {
        Some(t) => Ok(t),
        None => Err(SigningError::SigningFailed),
    }
}

/// Whether `token` is an API key for `role` signed with `jwt_secret` at some time the clock
/// can show.
pub open spec fn is_api_key(token: Seq<char>, jwt_secret: Seq<char>, role: Seq<char>) -> bool {
    exists|iat: int| -40_000_000_000_000 < iat < 40_000_000_000_000 && token == hs256_jwt_of(
        claims_json_of(role, iat), encode_utf8(jwt_secret))
}

/// The API key for `role` issued now, signed with `jwt_secret`.
pub fn sign_jwt(jwt_secret: &str, role: &str) -> (r: Result<String, SigningError>)
    ensures
        r matches Ok(t) && is_api_key(t@, jwt_secret@, role@),
{
    let now = unix_now();
    let r = sign_jwt_at(jwt_secret, role, now);
    assert(-40_000_000_000_000 < (now as int) && (now as int) < 40_000_000_000_000);
    r
}

/// Whether `s` is `len` ASCII letters and digits.
pub open spec fn is_random_text(s: Seq<char>, len: nat) -> bool {
    s.len() == len && forall|i: int| 0 <= i < len ==> is_ascii_alnum(#[trigger] s[i])
}

/// Whether `s` is `len` lower-case hexadecimal digits.
pub open spec fn is_random_hex(s: Seq<char>, len: nat) -> bool {
    s.len() == len && forall|i: int| 0 <= i < len ==> is_lower_hex(#[trigger] s[i])
}

/// The shape of a new stack's secrets: random passwords and keys of the stated lengths, the
/// anon and service-role API keys signed with the JWT secret, and the given dashboard user.
pub open spec fn secrets_shape(s: TenantSecretsView, dashboard_username: Seq<char>) -> bool {
    &&& is_random_text(s.postgres_password, 40)
    &&& is_random_text(s.jwt_secret, 64)
    &&& is_api_key(s.anon_key, s.jwt_secret, "anon"@)
    &&& is_api_key(s.service_key, s.jwt_secret, "service_role"@)
    &&& s.dashboard_username == dashboard_username
    &&& is_random_text(s.dashboard_password, 24)
    &&& is_random_text(s.secret_key_base, 64)
    &&& is_random_text(s.vault_enc_key, 32)
    &&& is_random_text(s.pg_meta_crypto_key, 32)
    &&& is_random_text(s.logflare_public, 48)
    &&& is_random_text(s.logflare_private, 48)
    &&& is_random_hex(s.s3_protocol_access_key_id, 32)
    &&& is_random_hex(s.s3_protocol_access_key_secret, 64)
}

/// Generates the secrets of a new stack (see `secrets_shape`).
pub fn generate_tenant_secrets(dashboard_username: String) -> (r: Result<TenantSecrets, SigningError>)
    ensures
        r matches Ok(s) && secrets_shape(s@, dashboard_username@),
{
    let postgres_password = rand_string(40);
    let jwt_secret = rand_string(64);
    let anon_key = match sign_jwt(jwt_secret.as_str(), "anon") {
        Ok(k) => k,
        Err(e) => return Err(e),
    };
    let service_key = match sign_jwt(jwt_secret.as_str(), "service_role") {
        Ok(k) => k,
        Err(e) => return Err(e),
    };
    let dashboard_password = rand_string(24);
    Ok(TenantSecrets {
        postgres_password: postgres_password,
        jwt_secret: jwt_secret,
        anon_key: anon_key,
        service_key: service_key,
        dashboard_username: dashboard_username,
        dashboard_password: dashboard_password,
        secret_key_base: rand_string(64),
        vault_enc_key: rand_string(32),
        pg_meta_crypto_key: rand_string(32),
        logflare_public: rand_string(48),
        logflare_private: rand_string(48),
        s3_protocol_access_key_id: rand_hex(32),
        s3_protocol_access_key_secret: rand_hex(64),
    })
}

} // verus!
