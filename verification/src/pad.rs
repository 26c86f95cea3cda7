//! Application-layer length bucketing for E2E plaintext.
//!
//! Wire blob (before AEAD): `u32_be(payload_len) || payload || random_pad`,
//! where `payload` is the UTF-8 JSON `{"m":"<mime>","c":"<text>"}`. The
//! total length snaps to the next power-of-two bucket (at least 64 bytes,
//! at most 256 KiB).
use vstd::prelude::*;

use vstd::string::StringExecFns;
use vstd::string::StringSliceAdditionalSpecFns;

use crate::bytes::{decimal_text, extend, push_decimal_text, slice_range};
use crate::error::E2eError;
use crate::mls::application::{be32, be32_at, is_pow2, pow2n, push_be32, read_be32};
use crate::primitives::{json_string, json_string_bytes, random_bytes, utf8_to_string};

verus! {

/// Smallest bucket.
pub const MIN_BUCKET: usize = 64;

/// Largest bucket.
pub const MAX_BUCKET: usize = 262144;

/// Smallest `2^j` with `k <= j <= 18` that is at least `need`.
pub open spec fn pad_bucket_exp(k: nat, need: nat) -> nat
    decreases 18 - k,
{
    if k >= 18 || pow2n(k) >= need { pow2n(k) } else { pad_bucket_exp(k + 1, need) }
}

/// The bucket for a blob of `need` bytes (defined up to 256 KiB).
pub open spec fn bucket_of(need: nat) -> nat {
    pad_bucket_exp(6, need)
}

proof fn lemma_pow2n_pad_values()
    ensures
        pow2n(6) == 64,
        pow2n(18) == 262144,
{
    reveal_with_fuel(pow2n, 19);
}

proof fn lemma_pow2n_is_pow2(k: nat)
    ensures
        is_pow2(pow2n(k)),
    decreases k,
{
    if k > 0 {
        lemma_pow2n_is_pow2((k - 1) as nat);
        assert(pow2n(k) / 2 == pow2n((k - 1) as nat));
    }
}

proof fn lemma_pow2n_le(a: nat, b: nat)
    requires
        a <= b,
    ensures
        pow2n(a) <= pow2n(b),
    decreases b - a,
{
    if a < b {
        lemma_pow2n_le(a, (b - 1) as nat);
    }
}

/// The bucket is a power of two between 64 bytes and 256 KiB that holds
/// `need` bytes.
pub proof fn law_bucket_fits(need: nat)
    requires
        need <= MAX_BUCKET,
    ensures
        is_pow2(bucket_of(need)),
        MIN_BUCKET <= bucket_of(need) <= MAX_BUCKET,
        need <= bucket_of(need),
{
    lemma_bucket_exp(6, need);
    lemma_pow2n_pad_values();
}

proof fn lemma_bucket_exp(k: nat, need: nat)
    requires
        6 <= k <= 18,
        need <= 262144,
    ensures
        is_pow2(pad_bucket_exp(k, need)),
        pow2n(k) <= pad_bucket_exp(k, need) <= 262144,
        need <= pad_bucket_exp(k, need),
    decreases 18 - k,
{
    lemma_pow2n_pad_values();
    lemma_pow2n_is_pow2(k);
    lemma_pow2n_le(k, 18);
    if !(k >= 18 || pow2n(k) >= need) {
        lemma_bucket_exp(k + 1, need);
    }
}

/// Bucket for a blob of `need` bytes.
pub fn next_bucket(need: usize) -> (r: Result<usize, E2eError>)
    ensures
        need <= MAX_BUCKET ==> r == Ok::<usize, E2eError>(bucket_of(need as nat) as usize),
        need > MAX_BUCKET ==> (r matches Err(E2eError::InvalidKey(m)) && m@
            == "plaintext too large for pad bucket ("@ + decimal_text(need as nat) + " > 262144)"@),
{
    if need > MAX_BUCKET {
        let mut msg = "plaintext too large for pad bucket (".to_owned();
        push_decimal_text(&mut msg, need as u64);
        msg.append(" > 262144)");
        return Err(E2eError::InvalidKey(msg));
    }
    let mut b: usize = MIN_BUCKET;
    let mut k: u32 = 6;
    proof {
        lemma_pow2n_pad_values();
    }
    while b < need
        invariant
            6 <= k <= 18,
            b == pow2n(k as nat),
            need <= 262144,
            pow2n(18) == 262144,
            pad_bucket_exp(k as nat, need as nat) == pad_bucket_exp(6, need as nat),
        decreases 18 - k,
    {
        b = b * 2;
        k = k + 1;
    }
    Ok(b)
}

/// The JSON body `{"m":<mime>,"c":<text>}`.
pub open spec fn inner_body(mime: Seq<char>, text: Seq<char>) -> Seq<u8> {
    "{\"m\":".spec_bytes() + json_string_bytes(mime) + ",\"c\":".spec_bytes() + json_string_bytes(text)
        + "}".spec_bytes()
}

/// Wrap MIME type and text as JSON, prefix the length and pad with random
/// bytes to the bucket size.
pub fn pad_message(mime: &str, text: &str) -> (r: Result<Vec<u8>, E2eError>)
    ensures
        ({
            let body = inner_body(mime@, text@);
            &&& (r is Ok <==> body.len() + 4 <= MAX_BUCKET)
            &&& (r matches Ok(out) ==> {
                &&& out@.len() == bucket_of(body.len() + 4)
                &&& out@.subrange(0, 4) == be32(body.len() as u32)
                &&& out@.subrange(4, 4 + body.len() as int) == body
            })
            &&& (r matches Err(e) ==> e is InvalidKey)
            &&& (r is Err && body.len() + 4 <= usize::MAX ==> (r matches Err(E2eError::InvalidKey(m)) && m@
                == "plaintext too large for pad bucket ("@ + decimal_text(body.len() + 4) + " > 262144)"@))
        }),
{
    let mut payload: Vec<u8> = Vec::new();
    extend(&mut payload, "{\"m\":".as_bytes());
    let m = json_string(mime);
    extend(&mut payload, m.as_slice());
    extend(&mut payload, ",\"c\":".as_bytes());
    let c = json_string(text);
    extend(&mut payload, c.as_slice());
    extend(&mut payload, "}".as_bytes());
    if payload.len() > usize::MAX - 4 {
        return Err(E2eError::InvalidKey("plaintext too large for pad bucket".to_owned()));
    }
    let need = 4 + payload.len();
    let bucket = next_bucket(need)?;
    proof {
        lemma_bucket_exp(6, need as nat);
    }
    let mut out: Vec<u8> = Vec::new();
    push_be32(&mut out, payload.len() as u32);
    extend(&mut out, payload.as_slice());
    let pad = random_bytes(bucket - out.len());
    extend(&mut out, pad.as_slice());
    assert(out@.subrange(0, 4) =~= be32(payload@.len() as u32));
    assert(out@.subrange(4, 4 + payload@.len() as int) =~= payload@);
    Ok(out)
}

/// The length-prefixed payload of a padded blob, if the prefix is
/// plausible: non-zero, within the blob and at most 256 KiB.
pub open spec fn framed_payload_spec(blob: Seq<u8>) -> Option<Seq<u8>> {
    if blob.len() >= 4 {
        let len = be32_at(blob, 0);
        if len > 0 && 4 + len <= blob.len() && len <= MAX_BUCKET {
            Some(blob.subrange(4, 4 + len))
        } else {
            None
        }
    } else {
        None
    }
}

/// The length-prefixed payload of a padded blob (see [`framed_payload_spec`]).
pub fn framed_payload(blob: &[u8]) -> (r: Option<Vec<u8>>)
    ensures
        match framed_payload_spec(blob@) {
            Some(p) => r matches Some(v) && v@ == p,
            None => r is None,
        },
{
    if blob.len() >= 4 {
        let len = read_be32(blob, 0) as usize;
        if len > 0 && len <= blob.len() - 4 && len <= MAX_BUCKET {
            return Some(slice_range(blob, 4, 4 + len));
        }
    }
    None
}

/// Legacy blob: the whole blob is UTF-8 text with MIME type `text/plain`.
pub fn unpad_legacy(blob: &[u8]) -> (r: Result<(String, String), E2eError>)
    ensures
        match r {
            Ok((m, t)) => vstd::utf8::valid_utf8(blob@) && m@ == "text/plain"@ && t@ == vstd::utf8::decode_utf8(blob@),
            Err(e) => !vstd::utf8::valid_utf8(blob@) && e is InvalidKey,
        },
{
    let mut v: Vec<u8> = Vec::new();
    extend(&mut v, blob);
    match utf8_to_string(v) {
        Ok(text) => Ok(("text/plain".to_owned(), text)),
        Err(msg) => {
            let mut m = "unpad utf8: ".to_owned();
            m.append(msg.as_str());
            Err(E2eError::InvalidKey(m))
        },
    }
}

/// Unpad a blob given the parse of its framed payload as an inner body
/// (`parsed`: its MIME type and text, `None` when it does not parse or the
/// blob has no framed payload): the parsed fields when the blob is framed
/// and its payload parsed, otherwise the blob read as legacy text.
pub fn unpad_with_parsed(blob: &[u8], parsed: Option<(String, String)>) -> (r: Result<(String, String), E2eError>)
    ensures
        framed_payload_spec(blob@) is Some && parsed is Some ==> (r matches Ok((m, t))
            && m@ == parsed.unwrap().0@ && t@ == parsed.unwrap().1@),
        !(framed_payload_spec(blob@) is Some && parsed is Some) ==> match r {
            Ok((m, t)) => vstd::utf8::valid_utf8(blob@) && m@ == "text/plain"@ && t@ == vstd::utf8::decode_utf8(blob@),
            Err(e) => !vstd::utf8::valid_utf8(blob@) && e is InvalidKey,
        },
{
    if framed_payload(blob).is_some() {
        if let Some(fields) = parsed {
            return Ok(fields);
        }
    }
    unpad_legacy(blob)
}

/// The payload that [`pad_message`] framed is found again by
/// [`framed_payload`], whatever the padding bytes are.
pub proof fn law_pad_frames_payload(body: Seq<u8>, out: Seq<u8>)
    requires
        body.len() + 4 <= MAX_BUCKET,
        body.len() > 0,
        out.len() == bucket_of(body.len() + 4),
        out.subrange(0, 4) == be32(body.len() as u32),
        out.subrange(4, 4 + body.len() as int) == body,
    ensures
        framed_payload_spec(out) == Some(body),
{
    law_bucket_fits(body.len() + 4);
    let y = body.len() as u32;
    assert(out[0] == be32(y)[0] && out[1] == be32(y)[1] && out[2] == be32(y)[2] && out[3] == be32(y)[3]) by {
        assert(out.subrange(0, 4)[0] == out[0]);
        assert(out.subrange(0, 4)[1] == out[1]);
        assert(out.subrange(0, 4)[2] == out[2]);
        assert(out.subrange(0, 4)[3] == out[3]);
    }
    assert(((((y / 0x100_0000) as u8) * 0x100 + (((y / 0x1_0000) % 0x100) as u8)) * 0x100
        + (((y / 0x100) % 0x100) as u8)) * 0x100 + ((y % 0x100) as u8) == y) by (bit_vector);
    assert(be32_at(out, 0) == body.len());
}

} // verus!
