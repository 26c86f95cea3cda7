//! Opaque MLS delivery service rules: identifier and blob validation, the
//! initialization lease decision, and the framing of artifact batches.
//! The database work happens around these functions.
use vstd::prelude::*;

use vstd::string::StringSliceAdditionalSpecFns;

use crate::bytes::extend;
use crate::message::{contains_text, text_contains};
use crate::mls::application::{be32, push_be32};
use crate::ratchet::utf8;

verus! {

/// Largest MLS credential.
pub const MAX_CREDENTIAL: usize = 65536;
/// Largest key package.
pub const MAX_KEY_PACKAGE: usize = 65536;
/// Largest artifact.
pub const MAX_ARTIFACT: usize = 2097152;
/// Largest artifact batch.
pub const MAX_BATCH_BYTES: usize = 8388608;

/// HTTP status a delivery request is refused with.
#[derive(Debug, Clone, Copy, PartialEq, Eq)]
pub enum DeliveryStatus {
    BadRequest,
    Forbidden,
    NotFound,
    Conflict,
    PayloadTooLarge,
}

impl DeliveryStatus {
    /// The numeric HTTP status.
    pub fn code(&self) -> (c: u16)
        ensures
            *self == DeliveryStatus::BadRequest ==> c == 400,
            *self == DeliveryStatus::Forbidden ==> c == 403,
            *self == DeliveryStatus::NotFound ==> c == 404,
            *self == DeliveryStatus::Conflict ==> c == 409,
            *self == DeliveryStatus::PayloadTooLarge ==> c == 413,
    {
        match self {
            DeliveryStatus::BadRequest => 400,
            DeliveryStatus::Forbidden => 403,
            DeliveryStatus::NotFound => 404,
            DeliveryStatus::Conflict => 409,
            DeliveryStatus::PayloadTooLarge => 413,
        }
    }
}

/// ASCII letter or digit, `-` or `_`.
pub open spec fn device_id_byte(b: u8) -> bool {
    (48 <= b <= 57) || (65 <= b <= 90) || (97 <= b <= 122) || b == 45 || b == 95
}

/// A device id: 1 to 128 bytes of ASCII letters, digits, `-` and `_`.
pub open spec fn valid_device_id(id: Seq<char>) -> bool {
    &&& utf8(id).len() > 0
    &&& utf8(id).len() <= 128
    &&& forall|i: int| 0 <= i < utf8(id).len() ==> device_id_byte(#[trigger] utf8(id)[i])
}

/// Accept only well-formed device ids (else 400).
pub fn validate_device_id(device_id: &str) -> (r: Result<(), DeliveryStatus>)
    ensures
        r is Ok <==> valid_device_id(device_id@),
        r matches Err(s) ==> s == DeliveryStatus::BadRequest,
{
    let b = device_id.as_bytes();
    if b.len() == 0 || b.len() > 128 {
        return Err(DeliveryStatus::BadRequest);
    }
    let mut i: usize = 0;
    while i < b.len()
        invariant
            i <= b@.len(),
            b@ == utf8(device_id@),
            forall|j: int| 0 <= j < i ==> device_id_byte(#[trigger] b@[j]),
        decreases b@.len() - i,
    {
        let c = b[i];
        if !((c >= 48 && c <= 57) || (c >= 65 && c <= 90) || (c >= 97 && c <= 122) || c == 45 || c == 95) {
            return Err(DeliveryStatus::BadRequest);
        }
        i = i + 1;
    }
    Ok(())
}

/// Accept blobs of 1 to `maximum` bytes (else 413).
pub fn validate_blob(blob: &[u8], maximum: usize) -> (r: Result<(), DeliveryStatus>)
    ensures
        r is Ok <==> 0 < blob@.len() <= maximum,
        r matches Err(s) ==> s == DeliveryStatus::PayloadTooLarge,
{
    if blob.len() == 0 || blob.len() > maximum {
        return Err(DeliveryStatus::PayloadTooLarge);
    }
    Ok(())
}

/// ASCII hex digit (either case).
pub open spec fn hex_digit_byte(b: u8) -> bool {
    (48 <= b <= 57) || (65 <= b <= 70) || (97 <= b <= 102)
}

/// A route token: exactly 32 hex digits.
pub open spec fn valid_route(route: Seq<char>) -> bool {
    utf8(route).len() == 32 && forall|i: int| 0 <= i < 32 ==> hex_digit_byte(#[trigger] utf8(route)[i])
}

/// Accept only route tokens of 32 hex digits (else 400).
pub fn validate_route(route: &str) -> (r: Result<(), DeliveryStatus>)
    ensures
        r is Ok <==> valid_route(route@),
        r matches Err(s) ==> s == DeliveryStatus::BadRequest,
{
    let b = route.as_bytes();
    if b.len() != 32 {
        return Err(DeliveryStatus::BadRequest);
    }
    let mut i: usize = 0;
    while i < 32
        invariant
            i <= 32,
            b@ == utf8(route@),
            b@.len() == 32,
            forall|j: int| 0 <= j < i ==> hex_digit_byte(#[trigger] b@[j]),
        decreases 32 - i,
    {
        let c = b[i];
        if !((c >= 48 && c <= 57) || (c >= 65 && c <= 70) || (c >= 97 && c <= 102)) {
            return Err(DeliveryStatus::BadRequest);
        }
        i = i + 1;
    }
    Ok(())
}

/// Outcome of claiming the initialization lease of a route, read from the
/// route row after the conditional update: 2 when the route already has a
/// group, 1 when this device holds the lease, 0 while another one does.
pub open spec fn claim_code(initialized: bool, holder_uid: Option<i64>, holder_device: Option<Seq<char>>, uid: i64, device_id: Seq<char>) -> u8 {
    if initialized {
        2
    } else if holder_uid == Some(uid) && holder_device == Some(device_id) {
        1
    } else {
        0
    }
}

/// Decide the claim outcome from the route row.
pub fn claim_outcome(initialized: bool, holder_uid: Option<i64>, holder_device: Option<&str>, uid: i64, device_id: &str) -> (c: u8)
    ensures
        c == claim_code(initialized, holder_uid, match holder_device { Some(d) => Some(d@), None => None }, uid, device_id@),
{
    if initialized {
        2
    } else {
        match (holder_uid, holder_device) {
            (Some(u), Some(d)) => if u == uid && crate::bytes::str_eq(d, device_id) { 1 } else { 0 },
            _ => 0,
        }
    }
}

/// Marking a route initialized succeeds only if exactly one row changed
/// (else 409).
pub fn mark_outcome(rows_affected: u64) -> (r: Result<(), DeliveryStatus>)
    ensures
        r is Ok <==> rows_affected == 1,
        r matches Err(s) ==> s == DeliveryStatus::Conflict,
{
    if rows_affected == 1 { Ok(()) } else { Err(DeliveryStatus::Conflict) }
}

/// The database reported a foreign-key violation.
pub fn is_foreign_key_violation(message: &str) -> (b: bool)
    ensures
        b == contains_text(message@, "FOREIGN KEY constraint failed"@),
{
    text_contains(message, "FOREIGN KEY constraint failed")
}

/// Eight-byte big-endian encoding.
pub open spec fn be64(x: u64) -> Seq<u8> {
    Seq::new(8, |i: int| (((x as nat) / pow256(7 - i)) % 256) as u8)
}

/// `256^k`.
pub open spec fn pow256(k: int) -> nat
    decreases k,
{
    if k <= 0 { 1 } else { 256 * pow256(k - 1) }
}

/// One artifact in a batch: sequence, payload length, payload.
pub open spec fn artifact_frame(sequence: i64, payload: Seq<u8>) -> Seq<u8> {
    be64(sequence as u64) + be32(payload.len() as u32) + payload
}

/// The batch of the first `k` rows.
pub open spec fn frames(rows: Seq<(i64, Vec<u8>)>, k: int) -> Seq<u8>
    decreases k,
{
    if k <= 0 { Seq::empty() } else { frames(rows, k - 1) + artifact_frame(rows[k - 1].0, rows[k - 1].1@) }
}

/// Number of leading rows whose frames fit in `MAX_BATCH_BYTES` together.
pub open spec fn rows_that_fit(rows: Seq<(i64, Vec<u8>)>, k: int) -> int
    decreases rows.len() - k,
{
    if k >= rows.len() || k < 0 {
        k
    } else if frames(rows, k).len() + 12 + rows[k].1@.len() > MAX_BATCH_BYTES {
        k
    } else {
        rows_that_fit(rows, k + 1)
    }
}

proof fn lemma_pow256_pos(k: int)
    ensures
        pow256(k) >= 1,
    decreases k,
{
    if k > 0 {
        lemma_pow256_pos(k - 1);
    }
}

fn push_be64(out: &mut Vec<u8>, x: u64)
    ensures
        final(out)@ == old(out)@ + be64(x),
{
    let ghost start = out@;
    let mut i: usize = 0;
    let mut d: u64 = 0x100_0000_0000_0000;
    proof {
        reveal_with_fuel(pow256, 8);
    }
    while i < 8
        invariant
            i <= 8,
            d as nat == pow256(7 - i),
            d > 0,
            out@ == start + be64(x).subrange(0, i as int),
        decreases 8 - i,
    {
        out.push(((x / d) % 256) as u8);
        assert(out@ =~= start + be64(x).subrange(0, i + 1));
        if i < 7 {
            proof {
                assert(pow256(7 - i) == 256 * pow256(7 - i - 1));
                lemma_pow256_pos(7 - i - 1);
            }
            d = d / 256;
        }
        i = i + 1;
    }
    assert(be64(x).subrange(0, 8) =~= be64(x));
}

/// Frame rows `(sequence, payload)` into one batch, stopping before the
/// first row that would take the batch past `MAX_BATCH_BYTES`.
pub fn frame_artifacts(rows: &Vec<(i64, Vec<u8>)>) -> (out: Vec<u8>)
    ensures
        out@ == frames(rows@, rows_that_fit(rows@, 0)),
        out@.len() <= MAX_BATCH_BYTES,
{
    let mut output: Vec<u8> = Vec::new();
    let mut k: usize = 0;
    proof {
        assert(pow256(7) == 0x100_0000_0000_0000) by {
            reveal_with_fuel(pow256, 8);
        }
    }
    while k < rows.len()
        invariant
            k <= rows@.len(),
            output@ == frames(rows@, k as int),
            output@.len() <= MAX_BATCH_BYTES,
            rows_that_fit(rows@, 0) == rows_that_fit(rows@, k as int),
            pow256(7) == 0x100_0000_0000_0000,
        decreases rows@.len() - k,
    {
        let (sequence, payload) = &rows[k];
        let required = 12usize.saturating_add(payload.len());
        if output.len().saturating_add(required) > MAX_BATCH_BYTES {
            return output;
        }
        push_be64(&mut output, *sequence as u64);
        push_be32(&mut output, payload.len() as u32);
        extend(&mut output, payload.as_slice());
        k = k + 1;
    }
    output
}

/// The cursor used when reading artifacts: negative cursors read from 0.
pub fn artifact_cursor(after: i64) -> (c: i64)
    ensures
        c == if after < 0 { 0 } else { after },
{
    if after < 0 { 0 } else { after }
}

} // verus!
