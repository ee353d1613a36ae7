//! Telnyx webhook signatures: an Ed25519 signature, base64-encoded, over the
//! timestamp header, a `|`, and the raw request body.
use base64::Engine;
use vstd::prelude::*;
use vstd::utf8::encode_utf8;

verus! {

/// What the standard base64 engine of `base64` (padded, canonical) decodes
/// `text` to, or `None` when it rejects it.
pub uninterp spec fn base64_standard_decode(text: Seq<char>) -> Option<Seq<u8>>;

/// Whether `ed25519_dalek::VerifyingKey::from_bytes` accepts these 32 bytes,
/// that is, whether they decompress to a curve point.
pub uninterp spec fn ed25519_key_decodes(key: Seq<u8>) -> bool;

/// Whether `ed25519_dalek::VerifyingKey::verify_strict` accepts `signature`
/// (64 bytes) over `message` under the public key with these 32 bytes.
pub uninterp spec fn ed25519_strict_accepts(key: Seq<u8>, message: Seq<u8>, signature: Seq<u8>) -> bool;

/// `base64::engine::general_purpose::STANDARD.decode`: its result is the
/// named decoding of the text (its UTF-8 bytes are what the engine reads), `None` on a `DecodeError`.
#[verifier::external_body]
fn decode_base64(text: &str) -> (r: Option<Vec<u8>>)
    ensures
        match r {
            Some(v) => base64_standard_decode(text@) == Some(v@),
            None => base64_standard_decode(text@) is None,
        },
{
    base64::engine::general_purpose::STANDARD.decode(text).ok()
}

/// `ed25519_dalek::VerifyingKey::from_bytes`: whether the 32 bytes are a
/// valid compressed public key.
#[verifier::external_body]
fn ed25519_key_valid(key: &[u8]) -> (ok: bool)
    requires
        key@.len() == 32,
    ensures
        ok == ed25519_key_decodes(key@),
{
    let bytes: [u8; 32] = key.try_into().unwrap();
    ed25519_dalek::VerifyingKey::from_bytes(&bytes).is_ok()
}

/// `ed25519_dalek::VerifyingKey::verify_strict`, on the key rebuilt from
/// its 32 bytes and the signature read from its 64 bytes
/// (`Signature::from_bytes` only splits them).
#[verifier::external_body]
fn ed25519_verify_strict(key: &[u8], message: &[u8], signature: &[u8]) -> (ok: bool)
    requires
        key@.len() == 32,
        signature@.len() == 64,
        ed25519_key_decodes(key@),
    ensures
        ok == ed25519_strict_accepts(key@, message@, signature@),
{
    let key_bytes: [u8; 32] = key.try_into().unwrap();
    let sig_bytes: [u8; 64] = signature.try_into().unwrap();
    match ed25519_dalek::VerifyingKey::from_bytes(&key_bytes) {
        Ok(k) => k.verify_strict(message, &ed25519_dalek::Signature::from_bytes(&sig_bytes)).is_ok(),
        Err(_) => false,
    }
}

/// Why a webhook signature was not accepted.
#[derive(Debug)]
pub struct SignatureError(pub String);

impl SignatureError {
    /// The reason, as displayed.
    #[allow(clippy::inherent_to_string)]
    pub fn to_string(&self) -> (s: String)
        ensures
            s@ == self.0@,
    {
        self.0.clone()
    }
}

/// The bytes that Telnyx signs: the timestamp, a `|`, then the raw body.
pub open spec fn signed_message(timestamp: Seq<char>, body: Seq<u8>) -> Seq<u8> {
    encode_utf8(timestamp) + seq![124u8] + body
}

/// The verdict on a webhook signature: `Ok` or the reason for refusal.
pub open spec fn signature_verdict(
    public_key_b64: Seq<char>,
    timestamp: Seq<char>,
    body: Seq<u8>,
    signature_b64: Seq<char>,
) -> Result<(), Seq<char>> {
    match key_verdict(base64_standard_decode(public_key_b64)) {
        Err(m) => Err(m),
        Ok(key) => if !ed25519_key_decodes(key) {
            Err("invalid Ed25519 public key"@)
        } else {
            match sig_verdict(base64_standard_decode(signature_b64)) {
                Err(m) => Err(m),
                Ok(sig) => if ed25519_strict_accepts(key, signed_message(timestamp, body), sig) {
                    Ok(())
                } else {
                    Err("invalid signature"@)
                },
            }
        },
    }
}

/// The public key from its decoded form, or why it is unusable.
pub open spec fn key_verdict(decoded: Option<Seq<u8>>) -> Result<Seq<u8>, Seq<char>> {
    match decoded {
        None => Err("invalid public key base64 encoding"@),
        Some(k) => if k.len() == 32 {
            Ok(k)
        } else {
            Err("public key must be exactly 32 bytes"@)
        },
    }
}

/// The signature from its decoded form, or why it is unusable.
pub open spec fn sig_verdict(decoded: Option<Seq<u8>>) -> Result<Seq<u8>, Seq<char>> {
    match decoded {
        None => Err("invalid signature base64 encoding"@),
        Some(s) => if s.len() == 64 {
            Ok(s)
        } else {
            Err("signature must be exactly 64 bytes"@)
        },
    }
}

/// The bytes held, if any.
pub open spec fn bytes_of(o: Option<Vec<u8>>) -> Option<Seq<u8>> {
    match o {
        Some(v) => Some(v@),
        None => None,
    }
}

/// `r` reports `verdict`: the same success, or an error with the same reason.
pub open spec fn reports<T>(r: Result<T, SignatureError>, verdict: Result<(), Seq<char>>) -> bool {
    match (r, verdict) {
        (Ok(_), Ok(())) => true,
        (Err(e), Err(m)) => e.0@ == m,
        _ => false,
    }
}

fn refusal(reason: &str) -> (e: SignatureError)
    ensures
        e.0@ == reason@,
{
    SignatureError(String::from_str(reason))
}

/// Checks the decoded public key: present and exactly 32 bytes.
pub fn decoded_public_key(decoded: Option<Vec<u8>>) -> (r: Result<Vec<u8>, SignatureError>)
    ensures
        match (r, key_verdict(bytes_of(decoded))) {
            (Ok(k), Ok(kv)) => k@ == kv,
            (Err(e), Err(m)) => e.0@ == m,
            _ => false,
        },
{
    match decoded {
        None => Err(refusal("invalid public key base64 encoding")),
        Some(k) => if k.len() == 32 {
            Ok(k)
        } else {
            Err(refusal("public key must be exactly 32 bytes"))
        },
    }
}

/// Checks the decoded signature: present and exactly 64 bytes.
pub fn decoded_signature(decoded: Option<Vec<u8>>) -> (r: Result<Vec<u8>, SignatureError>)
    ensures
        match (r, sig_verdict(bytes_of(decoded))) {
            (Ok(s), Ok(sv)) => s@ == sv,
            (Err(e), Err(m)) => e.0@ == m,
            _ => false,
        },
{
    match decoded {
        None => Err(refusal("invalid signature base64 encoding")),
        Some(s) => if s.len() == 64 {
            Ok(s)
        } else {
            Err(refusal("signature must be exactly 64 bytes"))
        },
    }
}

/// The message that Telnyx signs for this timestamp and body.
pub fn signed_payload(timestamp: &str, body: &[u8]) -> (m: Vec<u8>)
    ensures
        m@ == signed_message(timestamp@, body@),
        m@.len() == encode_utf8(timestamp@).len() + 1 + body@.len(),
        m@.subrange(0, encode_utf8(timestamp@).len() as int) == encode_utf8(timestamp@),
        m@[encode_utf8(timestamp@).len() as int] == 124u8,
        m@.subrange(m@.len() - body@.len(), m@.len() as int) == body@,
{
    let ts = timestamp.as_bytes();
    let mut m: Vec<u8> = Vec::new();
    let mut i: usize = 0;
    while i < ts.len()
        invariant
            i <= ts@.len(),
            ts@ == encode_utf8(timestamp@),
            m@ == ts@.subrange(0, i as int),
        decreases ts.len() - i,
    {
        m.push(ts[i]);
        i = i + 1;
    }
    m.push(124u8);
    let mut j: usize = 0;
    while j < body.len()
        invariant
            j <= body@.len(),
            m@ == encode_utf8(timestamp@) + seq![124u8] + body@.subrange(0, j as int),
        decreases body.len() - j,
    {
        m.push(body[j]);
        j = j + 1;
    }
    proof {
        assert(ts@.subrange(0, ts@.len() as int) =~= ts@);
        assert(body@.subrange(0, body@.len() as int) =~= body@);
        let t = encode_utf8(timestamp@);
        assert(m@.subrange(0, t.len() as int) =~= t);
        assert(m@.subrange(m@.len() - body@.len(), m@.len() as int) =~= body@);
    }
    m
}

/// Verifies a Telnyx webhook signature.
///
/// `public_key_b64` is the base64 32-byte Ed25519 public key, `timestamp` the
/// `telnyx-timestamp` header, `body` the raw body, and `signature_b64` the
/// base64 `telnyx-signature-ed25519` header. The key is decoded and checked
/// first, then the signature, then the strict Ed25519 check over
/// `"{timestamp}|{body}"`; the first failure gives the error.
pub fn verify_telnyx_signature(
    public_key_b64: &str,
    timestamp: &str,
    body: &[u8],
    signature_b64: &str,
) -> (r: Result<(), SignatureError>)
    ensures
        reports(r, signature_verdict(public_key_b64@, timestamp@, body@, signature_b64@)),
        base64_standard_decode(public_key_b64@) matches Some(key) ==> (base64_standard_decode(
            signature_b64@,
        ) matches Some(sig) ==> (key.len() == 32 && ed25519_key_decodes(key) && sig.len() == 64
            ==> (r is Ok <==> ed25519_strict_accepts(
            key,
            encode_utf8(timestamp@) + seq![124u8] + body@,
            sig,
        )))),
{
    let key = match decoded_public_key(decode_base64(public_key_b64)) {
        Ok(k) => k,
        Err(e) => return Err(e),
    };
    if !ed25519_key_valid(key.as_slice()) {
        return Err(refusal("invalid Ed25519 public key"));
    }
    let payload = signed_payload(timestamp, body);
    let sig = match decoded_signature(decode_base64(signature_b64)) {
        Ok(s) => s,
        Err(e) => return Err(e),
    };
    if ed25519_verify_strict(key.as_slice(), payload.as_slice(), sig.as_slice()) {
        Ok(())
    } else {
        Err(refusal("invalid signature"))
    }
}

} // verus!
