use vstd::prelude::*;
use ed25519_dalek::Verifier;
use vstd::string::StringSliceAdditionalSpecFns;

verus! {

/// Why an inbound request was refused before its body was trusted.
#[derive(Debug, Clone, Copy, PartialEq, Eq, Structural)]
pub enum AuthError {
    /// The timestamp or the signature header is absent.
    MissingHeader,
    /// The public key is not hexadecimal, or not a valid Ed25519 key.
    MalformedKey,
    /// The signature is not hexadecimal, or not shaped as an Ed25519 signature.
    MalformedSignature,
    /// The signature does not match the signed bytes under the key.
    Mismatch,
}

pub open spec fn is_hex_digit(c: char) -> bool {
    (48 <= c as u32 <= 57) || (97 <= c as u32 <= 102) || (65 <= c as u32 <= 70)
}

/// The value of one hexadecimal digit.
pub open spec fn hex_value(c: char) -> int {
    if 48 <= c as u32 <= 57 {
        c as u32 - 48
    } else if 97 <= c as u32 <= 102 {
        c as u32 - 87
    } else {
        c as u32 - 55
    }
}

/// Text that decodes as hexadecimal: an even number of digits of either case.
pub open spec fn is_hex_text(s: Seq<char>) -> bool {
    &&& s.len() % 2 == 0
    &&& forall|i: int| 0 <= i < s.len() ==> is_hex_digit(#[trigger] s[i])
}

/// The bytes that hexadecimal text stands for, two digits per byte, high half first.
pub open spec fn hex_bytes(s: Seq<char>) -> Seq<u8> {
    Seq::new(s.len() / 2, |i: int| (hex_value(s[2 * i]) * 16 + hex_value(s[2 * i + 1])) as u8)
}

/// Whether 32 bytes are the compressed form of a point on the Ed25519 curve.
pub uninterp spec fn edwards_point_decodes(key: Seq<u8>) -> bool;

/// Whether `signature` is a valid Ed25519 signature of `message` under the public key `key`.
pub uninterp spec fn ed25519_verifies(key: Seq<u8>, message: Seq<u8>, signature: Seq<u8>) -> bool;

pub open spec fn public_key_valid(key: Seq<u8>) -> bool {
    key.len() == 32 && edwards_point_decodes(key)
}

/// The shape check of a detached signature: 64 bytes, the top three bits of the last clear.
pub open spec fn signature_shaped(sig: Seq<u8>) -> bool {
    sig.len() == 64 && sig[63] & 0xe0u8 == 0
}

/// The outcome of checking `signature_hex` over `timestamp ++ body` with `public_key_hex`.
pub open spec fn auth_outcome(
    timestamp: Seq<u8>,
    body: Seq<u8>,
    signature_hex: Seq<char>,
    public_key_hex: Seq<char>,
) -> Result<(), AuthError> {
    if !is_hex_text(public_key_hex) || !public_key_valid(hex_bytes(public_key_hex)) {
        Err(AuthError::MalformedKey)
    } else if !is_hex_text(signature_hex) || !signature_shaped(hex_bytes(signature_hex)) {
        Err(AuthError::MalformedSignature)
    } else if ed25519_verifies(hex_bytes(public_key_hex), timestamp + body, hex_bytes(signature_hex)) {
        Ok(())
    } else {
        Err(AuthError::Mismatch)
    }
}

/// Relies on hex::decode: it accepts exactly an even number of hex digits of
/// either case and turns each pair into one byte, high half first.
#[verifier::external_body]
fn decode_hex(s: &str) -> (r: Option<Vec<u8>>)
    ensures
        r.is_some() == is_hex_text(s@),
        r matches Some(v) ==> v@ == hex_bytes(s@),
{
    hex::decode(s).ok()
}

/// Relies on ed25519_dalek::PublicKey::from_bytes: it accepts 32 bytes that
/// decompress to a curve point, and nothing else.
#[verifier::external_body]
fn public_key_accepted(key: &[u8]) -> (r: bool)
    ensures
        r == (key@.len() == 32 && edwards_point_decodes(key@)),
{
    ed25519_dalek::PublicKey::from_bytes(key).is_ok()
}

/// Relies on ed25519::Signature::from_bytes: it accepts 64 bytes whose last
/// byte has its three high bits clear, and nothing else.
#[verifier::external_body]
fn signature_accepted(signature: &[u8]) -> (r: bool)
    ensures
        r == signature_shaped(signature@),
{
    ed25519_dalek::Signature::from_bytes(signature).is_ok()
}

/// Relies on ed25519_dalek's `Verifier::verify` for `PublicKey`; the key and
/// the signature are first converted from their bytes.
#[verifier::external_body]
fn signature_verifies(key: &[u8], message: &[u8], signature: &[u8]) -> (r: bool)
    requires
        public_key_valid(key@),
        signature_shaped(signature@),
    ensures
        r == ed25519_verifies(key@, message@, signature@),
{
    match (ed25519_dalek::PublicKey::from_bytes(key), ed25519_dalek::Signature::from_bytes(signature)) {
        (Ok(k), Ok(s)) => k.verify(message, &s).is_ok(),
        _ => false,
    }
}

/// The signed bytes: the timestamp immediately followed by the raw body.
fn signed_message(timestamp: &[u8], body: &[u8]) -> (r: Vec<u8>)
    ensures
        r@ == timestamp@ + body@,
{
    let mut r: Vec<u8> = Vec::new();
    let mut i: usize = 0;
    while i < timestamp.len()
        invariant
            i <= timestamp@.len(),
            r@ == timestamp@.subrange(0, i as int),
        decreases timestamp@.len() - i,
    {
        r.push(timestamp[i]);
        i = i + 1;
        assert(r@ =~= timestamp@.subrange(0, i as int));
    }
    let mut j: usize = 0;
    while j < body.len()
        invariant
            j <= body@.len(),
            r@ == timestamp@ + body@.subrange(0, j as int),
        decreases body@.len() - j,
    {
        r.push(body[j]);
        j = j + 1;
        assert(r@ =~= timestamp@ + body@.subrange(0, j as int));
    }
    assert(body@.subrange(0, body@.len() as int) =~= body@);
    r
}

/// Checks a detached Ed25519 signature, given in hex, over the timestamp
/// followed by the exact raw body, against a hex public key. Fails closed.
pub fn verify_signature(timestamp: &str, body: &[u8], signature_hex: &str, public_key_hex: &str) -> (r: Result<
    (),
    AuthError,
>)
    ensures
        r == auth_outcome(timestamp.spec_bytes(), body@, signature_hex@, public_key_hex@),
{
    let key = match decode_hex(public_key_hex) {
        Some(k) => k,
        None => return Err(AuthError::MalformedKey),
    };
    if !public_key_accepted(key.as_slice()) {
        return Err(AuthError::MalformedKey);
    }
    let signature = match decode_hex(signature_hex) {
        Some(s) => s,
        None => return Err(AuthError::MalformedSignature),
    };
    if !signature_accepted(signature.as_slice()) {
        return Err(AuthError::MalformedSignature);
    }
    let message = signed_message(timestamp.as_bytes(), body);
    if signature_verifies(key.as_slice(), message.as_slice(), signature.as_slice()) {
        Ok(())
    } else {
        Err(AuthError::Mismatch)
    }
}

/// Authenticates a request from its two signature headers, either of which may
/// be absent, its raw body and the configured hex public key.
pub fn authenticate(
    timestamp: Option<&str>,
    signature_hex: Option<&str>,
    body: &[u8],
    public_key_hex: &str,
) -> (r: Result<(), AuthError>)
    ensures
        timestamp.is_none() || signature_hex.is_none() ==> r == Err::<(), AuthError>(
            AuthError::MissingHeader,
        ),
        timestamp matches Some(t) ==> signature_hex matches Some(s) ==> r == auth_outcome(
            t.spec_bytes(),
            body@,
            s@,
            public_key_hex@,
        ),
{
    match (timestamp, signature_hex) {
        (Some(t), Some(s)) => verify_signature(t, body, s, public_key_hex),
        _ => Err(AuthError::MissingHeader),
    }
}

} // verus!
