//! Length-prefixed framing of the two parts of a Welcome bundle: each part
//! is a 4-byte big-endian length followed by that many bytes.
use vstd::prelude::*;

use super::application::{be32, be32_at, push_be32, read_be32};
use super::MlsError;
use crate::bytes::{extend, slice_range};

verus! {

/// One length-prefixed part.
pub open spec fn framed(bytes: Seq<u8>) -> Seq<u8> {
    be32(bytes.len() as u32) + bytes
}

/// Append `bytes` with its 4-byte big-endian length.
pub fn append_len_prefixed(output: &mut Vec<u8>, bytes: &[u8]) -> (r: Result<(), MlsError>)
    ensures
        r is Ok <==> bytes@.len() <= u32::MAX,
        r is Ok ==> final(output)@ == old(output)@ + framed(bytes@),
        r matches Err(e) ==> final(output)@ == old(output)@ && e.0@ == "MLS artifact exceeds maximum wire length"@,
{
    if bytes.len() > u32::MAX as usize {
        return Err(MlsError::msg("MLS artifact exceeds maximum wire length"));
    }
    push_be32(output, bytes.len() as u32);
    extend(output, bytes);
    Ok(())
}

/// Split a length-prefixed part off the front of `input`: the part and
/// what follows it.
pub fn take_len_prefixed(input: &[u8]) -> (r: Result<(Vec<u8>, Vec<u8>), MlsError>)
    ensures
        input@.len() < 4 ==> (r matches Err(e) && e.0@ == "truncated MLS artifact length"@),
        input@.len() >= 4 && be32_at(input@, 0) > input@.len() - 4 ==> (r matches Err(e)
            && e.0@ == "truncated MLS artifact"@),
        input@.len() >= 4 && be32_at(input@, 0) <= input@.len() - 4 ==> (r matches Ok((part, rest))
            && part@ == input@.subrange(4, 4 + be32_at(input@, 0))
            && rest@ == input@.subrange(4 + be32_at(input@, 0), input@.len() as int)),
{
    if input.len() < 4 {
        return Err(MlsError::msg("truncated MLS artifact length"));
    }
    let length = read_be32(input, 0) as usize;
    if length > input.len() - 4 {
        return Err(MlsError::msg("truncated MLS artifact"));
    }
    Ok((slice_range(input, 4, 4 + length), slice_range(input, 4 + length, input.len())))
}

/// Frame the serialized Welcome and ratchet tree of a Welcome bundle.
pub fn encode_welcome_bundle(welcome: &[u8], tree: &[u8]) -> (r: Result<Vec<u8>, MlsError>)
    ensures
        r is Ok <==> welcome@.len() <= u32::MAX && tree@.len() <= u32::MAX,
        r matches Ok(out) ==> out@ == framed(welcome@) + framed(tree@),
{
    let mut output: Vec<u8> = Vec::new();
    append_len_prefixed(&mut output, welcome)?;
    append_len_prefixed(&mut output, tree)?;
    Ok(output)
}

/// Split a length-prefixed part off the front of `b`.
pub open spec fn take_part(b: Seq<u8>) -> Option<(Seq<u8>, Seq<u8>)> {
    if b.len() < 4 || be32_at(b, 0) > b.len() - 4 {
        None
    } else {
        Some((b.subrange(4, 4 + be32_at(b, 0)), b.subrange(4 + be32_at(b, 0), b.len() as int)))
    }
}

/// The two parts of a Welcome bundle, if `b` is exactly two framed parts.
pub open spec fn split_bundle(b: Seq<u8>) -> Option<(Seq<u8>, Seq<u8>)> {
    match take_part(b) {
        Some((w, r)) => match take_part(r) {
            Some((t, r2)) => if r2.len() == 0 { Some((w, t)) } else { None },
            None => None,
        },
        None => None,
    }
}

/// Split a Welcome bundle into the serialized Welcome and ratchet tree;
/// nothing may follow the two parts.
pub fn decode_welcome_bundle(bytes: &[u8]) -> (r: Result<(Vec<u8>, Vec<u8>), MlsError>)
    ensures
        match split_bundle(bytes@) {
            Some((w, t)) => r matches Ok((w2, t2)) && w2@ == w && t2@ == t,
            None => r is Err,
        },
{
    let (welcome, remaining) = take_len_prefixed(bytes)?;
    let (tree, remaining) = take_len_prefixed(remaining.as_slice())?;
    if remaining.len() != 0 {
        return Err(MlsError::msg("trailing Welcome bundle bytes"));
    }
    Ok((welcome, tree))
}

proof fn lemma_take_framed(bytes: Seq<u8>, rest: Seq<u8>)
    requires
        bytes.len() <= u32::MAX,
    ensures
        take_part(framed(bytes) + rest) == Some((bytes, rest)),
{
    let b = framed(bytes) + rest;
    let y = bytes.len() as u32;
    assert(b[0] == be32(y)[0] && b[1] == be32(y)[1] && b[2] == be32(y)[2] && b[3] == be32(y)[3]);
    assert(((((y / 0x100_0000) as u8) * 0x100 + (((y / 0x1_0000) % 0x100) as u8)) * 0x100
        + (((y / 0x100) % 0x100) as u8)) * 0x100 + ((y % 0x100) as u8) == y) by (bit_vector);
    assert(be32_at(b, 0) == bytes.len());
    assert(b.subrange(4, 4 + bytes.len() as int) =~= bytes);
    assert(b.subrange(4 + bytes.len() as int, b.len() as int) =~= rest);
}

/// Splitting a framed Welcome bundle gives back the two parts it was
/// made of.
pub proof fn law_welcome_bundle_roundtrip(welcome: Seq<u8>, tree: Seq<u8>)
    requires
        welcome.len() <= u32::MAX,
        tree.len() <= u32::MAX,
    ensures
        split_bundle(framed(welcome) + framed(tree)) == Some((welcome, tree)),
{
    lemma_take_framed(welcome, framed(tree));
    lemma_take_framed(tree, Seq::empty());
    assert(framed(tree) + Seq::<u8>::empty() =~= framed(tree));
}

} // verus!
