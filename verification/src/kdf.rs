//! HKDF-SHA256 helpers with Signal-style info labels.
use vstd::prelude::*;

use vstd::string::StringSliceAdditionalSpecFns;

use crate::error::{detail, E2eError};
use crate::primitives::{hkdf_expand, hkdf_sha256_okm};

verus! {

/// HKDF-SHA256 of `ikm` with `salt` and `info`, `out_len` bytes long.
pub fn hkdf_sha256(ikm: &[u8], salt: &[u8], info: &[u8], out_len: usize) -> (r: Result<Vec<u8>, E2eError>)
    ensures
        out_len <= 255 * 32 <==> r is Ok,
        r matches Ok(okm) ==> okm@ == hkdf_sha256_okm(ikm@, salt@, info@, out_len as nat)
            && okm@.len() == out_len,
        r matches Err(e) ==> e == E2eError::InvalidKey(e->InvalidKey_0) && e->InvalidKey_0@ == "hkdf expand"@,
{
    match hkdf_expand(ikm, salt, info, out_len) {
        Some(okm) => Ok(okm),
        None => Err(E2eError::InvalidKey(detail("hkdf expand"))),
    }
}

} // verus!

verus! {

/// Info label of the X3DH key derivation.
pub open spec fn x3dh_info() -> Seq<u8> {
    "VoceChat_X3DH_v2".spec_bytes()
}

/// Info label of the Double Ratchet root-key derivation.
pub open spec fn root_info() -> Seq<u8> {
    "VoceChat_DR_Root_v2".spec_bytes()
}

/// Info label of the Double Ratchet chain-key derivation.
pub open spec fn chain_info() -> Seq<u8> {
    "VoceChat_DR_Chain_v2".spec_bytes()
}

/// X3DH input keying material: 32 bytes of 0xFF followed by the DH outputs.
pub open spec fn x3dh_ikm(dh_concat: Seq<u8>) -> Seq<u8> {
    Seq::new(32, |i: int| 0xffu8) + dh_concat
}

/// The X3DH shared secret derived from the concatenated DH outputs.
pub open spec fn x3dh_secret(dh_concat: Seq<u8>) -> Seq<u8> {
    hkdf_sha256_okm(x3dh_ikm(dh_concat), Seq::empty(), x3dh_info(), 32)
}

/// The 64-byte output of the root KDF for root key `rk` and DH output `dh`.
pub open spec fn root_okm(rk: Seq<u8>, dh_out: Seq<u8>) -> Seq<u8> {
    hkdf_sha256_okm(dh_out, rk, root_info(), 64)
}

/// The 64-byte output of the chain KDF for chain key `ck`.
pub open spec fn chain_okm(ck: Seq<u8>) -> Seq<u8> {
    hkdf_sha256_okm(ck, Seq::empty(), chain_info(), 64)
}

/// X3DH KDF: HKDF(F || KM) with F = 32 bytes of 0xFF, info "VoceChat_X3DH_v2".
pub fn kdf_x3dh(dh_concat: &[u8]) -> (r: Result<[u8; 32], E2eError>)
    ensures
        r matches Ok(sk) && sk@ == x3dh_secret(dh_concat@),
{
    let mut ikm: Vec<u8> = Vec::new();
    let mut i: usize = 0;
    while i < 32
        invariant
            i <= 32,
            ikm@ == Seq::new(i as nat, |j: int| 0xffu8),
        decreases 32 - i,
    {
        ikm.push(0xffu8);
        i = i + 1;
        assert(ikm@ =~= Seq::new(i as nat, |j: int| 0xffu8));
    }
    crate::bytes::extend(&mut ikm, dh_concat);
    let empty: [u8; 0] = [];
    let info = "VoceChat_X3DH_v2".as_bytes();
    let okm = hkdf_sha256(ikm.as_slice(), empty.as_slice(), info, 32)?;
    assert(empty@ =~= Seq::<u8>::empty());
    Ok(crate::bytes::to_array32(okm.as_slice()))
}

/// Root KDF: `(new root key, chain key)` = HKDF(dh_out, salt = rk, "VoceChat_DR_Root_v2") split in halves.
pub fn kdf_rk(rk: &[u8; 32], dh_out: &[u8; 32]) -> (r: Result<([u8; 32], [u8; 32]), E2eError>)
    ensures
        r matches Ok((new_rk, ck)) && new_rk@ == root_okm(rk@, dh_out@).subrange(0, 32)
            && ck@ == root_okm(rk@, dh_out@).subrange(32, 64),
{
    let info = "VoceChat_DR_Root_v2".as_bytes();
    let okm = hkdf_sha256(dh_out.as_slice(), rk.as_slice(), info, 64)?;
    let a = crate::bytes::slice_range(okm.as_slice(), 0, 32);
    let b = crate::bytes::slice_range(okm.as_slice(), 32, 64);
    Ok((crate::bytes::to_array32(a.as_slice()), crate::bytes::to_array32(b.as_slice())))
}

/// Chain KDF: `(message key, next chain key)` = HKDF(ck, "VoceChat_DR_Chain_v2") split in halves.
pub fn kdf_ck(ck: &[u8; 32]) -> (r: Result<([u8; 32], [u8; 32]), E2eError>)
    ensures
        r matches Ok((mk, next)) && mk@ == chain_okm(ck@).subrange(0, 32)
            && next@ == chain_okm(ck@).subrange(32, 64),
{
    let empty: [u8; 0] = [];
    let info = "VoceChat_DR_Chain_v2".as_bytes();
    let okm = hkdf_sha256(ck.as_slice(), empty.as_slice(), info, 64)?;
    assert(empty@ =~= Seq::<u8>::empty());
    let a = crate::bytes::slice_range(okm.as_slice(), 0, 32);
    let b = crate::bytes::slice_range(okm.as_slice(), 32, 64);
    Ok((crate::bytes::to_array32(a.as_slice()), crate::bytes::to_array32(b.as_slice())))
}

} // verus!
