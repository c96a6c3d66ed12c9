//! Verification of Stripe webhook signatures (`Stripe-Signature: t=...,v1=...`).

use vstd::prelude::*;
use vstd::utf8::encode_utf8;
use crate::text::{has_prefix, occurs_at_exec, opt_view, push_char, string_from_range, to_chars};
use crate::numbers::{
    decimal_of, i64_to_decimal, is_digit, law_decimal_round_trip, lemma_nat_digits,
    nat_digits, parse_i64, parse_i64_of,
};
use crate::clock::unix_now;
use crate::crypto::{hmac_sha256, hmac_sha256_of};
use crate::billing::hex::{encode, hex_of, lemma_hex_of_digits, secure_eq};
use crate::ids::is_lower_hex;

verus! {

/// Whether `c` has the Unicode `White_Space` property (`char::is_whitespace`).
pub open spec fn is_whitespace(c: char) -> bool {
    let u = c as u32;
    (0x09 <= u && u <= 0x0D) || u == 0x20 || u == 0x85 || u == 0xA0 || u == 0x1680 || (0x2000 <= u
        && u <= 0x200A) || u == 0x2028 || u == 0x2029 || u == 0x202F || u == 0x205F || u == 0x3000
}

/// `char::is_whitespace`.
fn whitespace(c: char) -> (b: bool)
    ensures
        b == is_whitespace(c),
{
    let u = c as u32;
    (0x09 <= u && u <= 0x0D) || u == 0x20 || u == 0x85 || u == 0xA0 || u == 0x1680 || (0x2000 <= u
        && u <= 0x200A) || u == 0x2028 || u == 0x2029 || u == 0x202F || u == 0x205F || u == 0x3000
}

/// `s` without leading whitespace.
pub open spec fn trim_start_ws(s: Seq<char>) -> Seq<char>
    decreases s.len(),
{
    if s.len() > 0 && is_whitespace(s[0]) {
        trim_start_ws(s.skip(1))
    } else {
        s
    }
}

/// `s` without trailing whitespace.
pub open spec fn trim_end_ws(s: Seq<char>) -> Seq<char>
    decreases s.len(),
{
    if s.len() > 0 && is_whitespace(s.last()) {
        trim_end_ws(s.drop_last())
    } else {
        s
    }
}

/// `s` without leading and trailing whitespace (`str::trim`).
pub open spec fn trim_ws(s: Seq<char>) -> Seq<char> {
    trim_end_ws(trim_start_ws(s))
}

/// The index of the first `c` in `s`, or `s.len()` when there is none.
pub open spec fn first_index_of(s: Seq<char>, c: char) -> int
    decreases s.len(),
{
    if s.len() == 0 {
        0
    } else if s[0] == c {
        0
    } else {
        1 + first_index_of(s.skip(1), c)
    }
}

/// `first_index_of` is the first index that holds `c`, or the length.
pub proof fn lemma_first_index_of(s: Seq<char>, c: char, k: int)
    requires
        0 <= k <= s.len(),
        forall|j: int| 0 <= j < k ==> s[j] != c,
        k == s.len() || s[k] == c,
    ensures
        first_index_of(s, c) == k,
    decreases k,
{
    if k > 0 {
        lemma_first_index_of(s.skip(1), c, k - 1);
    }
}

/// `first_index_of` never exceeds the length.
pub proof fn lemma_first_index_of_bound(s: Seq<char>, c: char)
    ensures
        0 <= first_index_of(s, c) <= s.len(),
    decreases s.len(),
{
    if s.len() > 0 && s[0] != c {
        lemma_first_index_of_bound(s.skip(1), c);
    }
}

/// The pieces of `s` between occurrences of `c` (`str::split` with a char pattern).
pub open spec fn split_on(s: Seq<char>, c: char) -> Seq<Seq<char>>
    decreases s.len(),
{
    let i = first_index_of(s, c);
    proof {
        lemma_first_index_of_bound(s, c);
    }
    if i >= s.len() {
        seq![s]
    } else {
        seq![s.take(i)] + split_on(s.skip(i + 1), c)
    }
}

/// The timestamp and `v1` signature a header carries: each comma-separated part is trimmed;
/// a part `t=...` sets the timestamp to its value (none when it does not parse), a part
/// `v1=...` sets the signature; later parts win.
pub open spec fn signature_fields(parts: Seq<Seq<char>>) -> (Option<i64>, Option<Seq<char>>)
    decreases parts.len(),
{
    if parts.len() == 0 {
        (None, None)
    } else {
        let prev = signature_fields(parts.drop_last());
        let p = trim_ws(parts.last());
        if has_prefix(p, "t="@) {
            (parse_i64_of(p.skip(2)), prev.1)
        } else if has_prefix(p, "v1="@) {
            (prev.0, Some(p.skip(3)))
        } else {
            prev
        }
    }
}

/// Why a signature was not accepted.
#[derive(PartialEq, Eq, Structural)]
pub enum SignatureError {
    /// No `t=` part with a valid timestamp.
    MissingTimestamp,
    /// No `v1=` part.
    MissingSignature,
    /// The timestamp is too far from the current time.
    OutsideTolerance,
    /// The webhook secret cannot key the MAC.
    BadSecret,
    /// The signature does not match.
    Mismatch,
}

/// `|n|`.
pub open spec fn abs_int(n: int) -> int {
    if n < 0 {
        -n
    } else {
        n
    }
}

/// The bytes a signature covers: the timestamp in decimal, a dot, then the payload.
pub open spec fn signed_bytes(t: i64, payload: Seq<u8>) -> Seq<u8> {
    encode_utf8(decimal_of(t as int) + seq!['.']) + payload
}

/// The verdict on a webhook signature at time `now`: the header must carry a timestamp and
/// a `v1` signature, the timestamp must lie within `tolerance` seconds of `now`, and the
/// signature must be the hexadecimal HMAC-SHA256 of `{t}.{payload}` under the secret.
pub open spec fn verify_of(secret: Seq<char>, header: Seq<char>, payload: Seq<u8>, tolerance: i64, now: i64) -> Result<(), SignatureError> {
    let fields = signature_fields(split_on(header, ','));
    if fields.0 is None {
        Err(SignatureError::MissingTimestamp)
    } else if fields.1 is None {
        Err(SignatureError::MissingSignature)
    } else if abs_int(now - fields.0->0) > tolerance {
        Err(SignatureError::OutsideTolerance)
    } else if hex_of(hmac_sha256_of(encode_utf8(secret), signed_bytes(fields.0->0, payload))) == fields.1->0 {
        Ok(())
    } else {
        Err(SignatureError::Mismatch)
    }
}

/// The `Stripe-Signature` header that signs with `sig` at time `t`: `t={t},v1={sig}`.
pub open spec fn stripe_header_of(t: i64, sig: Seq<char>) -> Seq<char> {
    "t="@ + decimal_of(t as int) + ",v1="@ + sig
}

/// The signature of `payload` at time `t` under `secret`: the hexadecimal HMAC-SHA256 of
/// `{t}.{payload}`.
pub open spec fn signature_of(secret: Seq<char>, t: i64, payload: Seq<u8>) -> Seq<char> {
    hex_of(hmac_sha256_of(encode_utf8(secret), signed_bytes(t, payload)))
}

/// A text that starts and ends with a character that is not whitespace is its own trim.
proof fn lemma_trim_ws_plain(p: Seq<char>)
    requires
        p.len() > 0,
        !is_whitespace(p[0]),
        !is_whitespace(p.last()),
    ensures
        trim_ws(p) == p,
{
}

/// The pieces of a text without the separator are the text alone.
proof fn lemma_split_on_single(s: Seq<char>, c: char)
    requires
        forall|j: int| 0 <= j < s.len() ==> s[j] != c,
    ensures
        split_on(s, c) == seq![s],
{
    lemma_first_index_of(s, c, s.len() as int);
}

/// The header `t={t},v1={sig}`, for a signature of hexadecimal digits, carries exactly the
/// timestamp `t` and the signature `sig`.
proof fn lemma_header_fields(t: i64, sig: Seq<char>)
    requires
        forall|j: int| 0 <= j < sig.len() ==> is_lower_hex(#[trigger] sig[j]),
    ensures
        signature_fields(split_on(stripe_header_of(t, sig), ',')) == (Some(t), Some(sig)),
{
    reveal_strlit("t=");
    reveal_strlit(",v1=");
    reveal_strlit("v1=");
    let d = decimal_of(t as int);
    let header = stripe_header_of(t, sig);
    let p1 = "t="@ + d;
    let p2 = "v1="@ + sig;
    let m: nat = if t < 0 { (-(t as int)) as nat } else { t as nat };
    lemma_nat_digits(m);
    assert forall|j: int| 0 <= j < d.len() implies #[trigger] d[j] != ',' && (j > 0 || t < 0 ==> !is_whitespace(d[j])) by {
        if t < 0 {
            if j > 0 {
                assert(d[j] == nat_digits(m)[j - 1]);
                assert(is_digit(nat_digits(m)[j - 1]));
            }
        } else {
            assert(is_digit(nat_digits(m)[j]));
        }
    }
    assert(d.len() > 0);
    assert(!is_whitespace(d.last())) by {
        if t < 0 {
            assert(d.last() == nat_digits(m).last());
            assert(is_digit(nat_digits(m)[nat_digits(m).len() - 1]));
        } else {
            assert(is_digit(nat_digits(m)[nat_digits(m).len() - 1]));
        }
    }
    let k = p1.len() as int;
    assert(header =~= p1 + seq![','] + p2);
    assert forall|j: int| 0 <= j < k implies header[j] != ',' by {
        if j >= 2 {
            assert(header[j] == d[j - 2]);
        }
    }
    lemma_first_index_of(header, ',', k);
    assert(header.take(k) =~= p1);
    assert(header.skip(k + 1) =~= p2);
    assert forall|j: int| 0 <= j < p2.len() implies p2[j] != ',' by {
        if j >= 3 {
            assert(p2[j] == sig[j - 3]);
            assert(is_lower_hex(sig[j - 3]));
        }
    }
    lemma_split_on_single(p2, ',');
    let parts = split_on(header, ',');
    assert(parts =~= seq![p1, p2]);
    lemma_trim_ws_plain(p1);
    assert(!is_whitespace(p2.last())) by {
        if sig.len() > 0 {
            assert(p2.last() == sig[sig.len() - 1]);
            assert(is_lower_hex(sig[sig.len() - 1]));
        }
    }
    lemma_trim_ws_plain(p2);
    assert(has_prefix(p1, "t="@)) by {
        assert(p1.take(2) =~= "t="@);
    }
    assert(p1.skip(2) =~= d);
    law_decimal_round_trip(t);
    assert(parts.drop_last() =~= seq![p1]);
    assert(seq![p1].drop_last() =~= Seq::<Seq<char>>::empty());
    assert(seq![p1].last() == p1);
    assert(signature_fields(Seq::<Seq<char>>::empty()) == (None::<i64>, None::<Seq<char>>));
    assert(parse_i64_of(p1.skip(2)) == Some(t));
    assert(signature_fields(seq![p1]) == (Some(t), None::<Seq<char>>));
    assert(!has_prefix(p2, "t="@)) by {
        assert(p2.take(2)[0] == 'v');
    }
    assert(has_prefix(p2, "v1="@)) by {
        assert(p2.take(3) =~= "v1="@);
    }
    assert(p2.skip(3) =~= sig);
    assert(signature_fields(parts) == (Some(t), Some(sig)));
}

/// A webhook signed the way Stripe signs it is accepted: the header `t={t},v1={sig}` with
/// `sig` the signature of the payload at `t` under the secret passes verification at any
/// time `now` within the tolerance of `t`.
pub proof fn law_signed_webhook_accepted(secret: Seq<char>, payload: Seq<u8>, t: i64, tolerance: i64, now: i64)
    requires
        abs_int(now - t) <= tolerance,
    ensures
        verify_of(secret, stripe_header_of(t, signature_of(secret, t, payload)), payload, tolerance, now)
            == Ok::<(), SignatureError>(()),
{
    lemma_hex_of_digits(hmac_sha256_of(encode_utf8(secret), signed_bytes(t, payload)));
    lemma_header_fields(t, signature_of(secret, t, payload));
}

/// A stale or forged webhook is refused: a header `t={t},v1={sig}` (with `sig` made of
/// hexadecimal digits) is refused as outside the tolerance when `now` lies more than
/// `tolerance` seconds from `t`, whatever the signature; within the tolerance it is refused
/// as a mismatch unless `sig` is the signature of this very payload at `t` under the
/// secret.
pub proof fn law_unsigned_webhook_refused(secret: Seq<char>, payload: Seq<u8>, t: i64, sig: Seq<char>, tolerance: i64, now: i64)
    requires
        forall|j: int| 0 <= j < sig.len() ==> is_lower_hex(#[trigger] sig[j]),
    ensures
        abs_int(now - t) > tolerance ==> verify_of(secret, stripe_header_of(t, sig), payload, tolerance, now)
            == Err::<(), SignatureError>(SignatureError::OutsideTolerance),
        abs_int(now - t) <= tolerance && sig != signature_of(secret, t, payload)
            ==> verify_of(secret, stripe_header_of(t, sig), payload, tolerance, now)
            == Err::<(), SignatureError>(SignatureError::Mismatch),
{
    lemma_header_fields(t, sig);
}


/// The bounds of `v[a..b]` without leading and trailing whitespace.
fn trim_range(v: &Vec<char>, a: usize, b: usize) -> (r: (usize, usize))
    requires
        a <= b <= v@.len(),
    ensures
        a <= r.0 <= r.1 <= b,
        v@.subrange(r.0 as int, r.1 as int) == trim_ws(v@.subrange(a as int, b as int)),
{
    let mut s = a;
    while s < b && whitespace(v[s])
        invariant
            a <= s <= b <= v@.len(),
            trim_start_ws(v@.subrange(s as int, b as int)) == trim_start_ws(v@.subrange(a as int, b as int)),
        decreases b - s,
    {
        assert(v@.subrange(s as int, b as int).skip(1) =~= v@.subrange(s + 1, b as int));
        s = s + 1;
    }
    let mut e = b;
    while e > s && whitespace(v[e - 1])
        invariant
            a <= s <= e <= b <= v@.len(),
            trim_end_ws(v@.subrange(s as int, e as int)) == trim_end_ws(v@.subrange(s as int, b as int)),
        decreases e,
    {
        assert(v@.subrange(s as int, e as int).drop_last() =~= v@.subrange(s as int, e - 1));
        e = e - 1;
    }
    (s, e)
}

/// The fields after one more part `v[a..b]` (see `signature_fields`).
fn next_fields(v: &Vec<char>, a: usize, b: usize, t: Option<i64>, sig: Option<String>) -> (r: (Option<i64>, Option<String>))
    requires
        a <= b <= v@.len(),
    ensures
        ({
            let p = trim_ws(v@.subrange(a as int, b as int));
            (r.0, opt_view(r.1)) == if has_prefix(p, "t="@) {
                (parse_i64_of(p.skip(2)), opt_view(sig))
            } else if has_prefix(p, "v1="@) {
                (t, Some(p.skip(3)))
            } else {
                (t, opt_view(sig))
            }
        }),
{
    let (s, e) = trim_range(v, a, b);
    let ghost p = v@.subrange(s as int, e as int);
    let tp = to_chars("t=");
    let vp = to_chars("v1=");
    proof {
        reveal_strlit("t=");
        reveal_strlit("v1=");
    }
    let is_t = 2 <= e - s && occurs_at_exec(v, s, &tp);
    assert(is_t == has_prefix(p, "t="@)) by {
        if 2 <= e - s {
            assert(p.take(2) =~= v@.subrange(s as int, s + 2));
        }
    }
    if is_t {
        let parsed = parse_i64(v, s + 2, e);
        assert(v@.subrange(s + 2, e as int) =~= p.skip(2));
        return (parsed, sig);
    }
    let is_v = 3 <= e - s && occurs_at_exec(v, s, &vp);
    assert(is_v == has_prefix(p, "v1="@)) by {
        if 3 <= e - s {
            assert(p.take(3) =~= v@.subrange(s as int, s + 3));
        }
    }
    if is_v {
        let value = string_from_range(v, s + 3, e);
        assert(v@.subrange(s + 3, e as int) =~= p.skip(3));
        return (t, Some(value));
    }
    (t, sig)
}

/// The timestamp and signature a `Stripe-Signature` header carries (see
/// `signature_fields`).
pub fn header_fields(header: &str) -> (r: (Option<i64>, Option<String>))
    ensures
        (r.0, opt_view(r.1)) == signature_fields(split_on(header@, ',')),
{
    let v = to_chars(header);
    let n = v.len();
    let mut t: Option<i64> = None;
    let mut sig: Option<String> = None;
    let mut start: usize = 0;
    let mut i: usize = 0;
    let ghost mut done: Seq<Seq<char>> = seq![];
    assert(v@.skip(0) =~= v@);
    while i < n
        invariant
            n == v@.len(),
            v@ == header@,
            start <= i <= n,
            forall|j: int| start <= j < i ==> v@[j] != ',',
            split_on(v@, ',') == done + split_on(v@.skip(start as int), ','),
            (t, opt_view(sig)) == signature_fields(done),
        decreases n - i,
    {
        if v[i] == ',' {
            let ghost part = v@.subrange(start as int, i as int);
            proof {
                let s = v@.skip(start as int);
                lemma_first_index_of(s, ',', i - start);
                assert(s.take(i - start) =~= part);
                assert(s.skip(i - start + 1) =~= v@.skip(i + 1));
            }
            let r = next_fields(&v, start, i, t, sig);
            t = r.0;
            sig = r.1;
            proof {
                let old_done = done;
                done = done.push(part);
                assert(done.drop_last() =~= old_done);
                assert(done + split_on(v@.skip(i + 1), ',') =~= old_done + (seq![part] + split_on(v@.skip(i + 1), ',')));
            }
            start = i + 1;
        }
        i = i + 1;
    }
    let ghost part = v@.subrange(start as int, n as int);
    proof {
        let s = v@.skip(start as int);
        lemma_first_index_of(s, ',', n - start);
        assert(s =~= part);
    }
    let r = next_fields(&v, start, n, t, sig);
    proof {
        let old_done = done;
        done = done.push(part);
        assert(done.drop_last() =~= old_done);
        assert(split_on(v@, ',') =~= done);
    }
    r
}

/// Verifies a webhook signature at time `now` (see `verify_of`).
pub fn verify_stripe_signature_at(secret: &str, signature_header: &str, payload: &[u8], tolerance_secs: i64, now: i64) -> (r: Result<(), SignatureError>)
    ensures
        r == verify_of(secret@, signature_header@, payload@, tolerance_secs, now),
{
    let (t, v1) = header_fields(signature_header);
    let t = match t {
        Some(t) => t,
        None => return Err(SignatureError::MissingTimestamp),
    };
    let expected = match v1 {
        Some(v) => v,
        None => return Err(SignatureError::MissingSignature),
    };
    let diff: i128 = (now as i128) - (t as i128);
    let dist: i128 = if diff < 0 { -diff } else { diff };
    if dist > tolerance_secs as i128 {
        return Err(SignatureError::OutsideTolerance);
    }
    let mut signed = i64_to_decimal(t);
    push_char(&mut signed, '.');
    assert(signed@ =~= decimal_of(t as int) + seq!['.']);
    let key = secret.as_bytes();
    let prefix = signed.as_str().as_bytes();
    assert(key@ == encode_utf8(secret@));
    assert(prefix@ + payload@ == signed_bytes(t, payload@));
    let tag = match hmac_sha256(key, prefix, payload) {
        Some(tag) => tag,
        None => return Err(SignatureError::BadSecret),
    };
    let computed = encode(tag.as_slice());
    if !secure_eq(computed.as_str(), expected.as_str()) {
        return Err(SignatureError::Mismatch);
    }
    Ok(())
}

/// Verifies a webhook signature against the current time: the verdict of `verify_of` at
/// the time the clock shows. Whatever the clock says, a header without a timestamp or
/// without a signature is refused as such, and a signature is accepted only if it is the
/// HMAC of the timestamped payload under the secret.
pub fn verify_stripe_signature(secret: &str, signature_header: &str, payload: &[u8], tolerance_secs: i64) -> (r: Result<(), SignatureError>)
    ensures
        exists|now: i64| -40_000_000_000_000 < now < 40_000_000_000_000
            && r == #[trigger] verify_of(secret@, signature_header@, payload@, tolerance_secs, now),
        (r == Err::<(), SignatureError>(SignatureError::MissingTimestamp)) <==> signature_fields(split_on(signature_header@, ',')).0 is None,
        (r == Err::<(), SignatureError>(SignatureError::MissingSignature)) <==> (signature_fields(split_on(signature_header@, ',')).0 is Some
            && signature_fields(split_on(signature_header@, ',')).1 is None),
        r is Ok ==> ({
            let fields = signature_fields(split_on(signature_header@, ','));
            &&& fields.0 is Some && fields.1 is Some
            &&& hex_of(hmac_sha256_of(encode_utf8(secret@), signed_bytes(fields.0->0, payload@))) == fields.1->0
        }),
{
    let now = unix_now();
    verify_stripe_signature_at(secret, signature_header, payload, tolerance_secs, now)
}

} // verus!
