//! Canonical, numeric-key application payload carried inside MLS messages.
//!
//! Wire form: a 4-byte big-endian length `L`, then `L` bytes of canonical
//! CBOR `{0: kind, 1: body, 2: {key: value, ...}}` with strictly increasing
//! `u16` metadata keys, then padding up to a power-of-two bucket between
//! 256 bytes and 1 MiB.
use vstd::prelude::*;

use std::collections::BTreeMap;
use vstd::std_specs::cmp::OrdSpec;
use vstd::std_specs::iter::IteratorSpec;

use super::MlsError;
use crate::bytes::extend;
use crate::primitives::random_bytes;

verus! {

/// Smallest padded size.
pub const MIN_BUCKET: usize = 256;

/// Largest padded size.
pub const MAX_BUCKET: usize = 1048576;

/// The semantic application operation; its number is stable.
#[derive(Debug, Clone, Copy, PartialEq, Eq)]
pub enum PayloadKind {
    Text,
    Reply,
    Edit,
    Reaction,
    File,
    Image,
    Voice,
    Markdown,
    Delete,
    Revoke,
    MembershipNotice,
}

/// Stable number of a kind.
pub open spec fn kind_code(k: PayloadKind) -> u8 {
    match k {
        PayloadKind::Text => 1,
        PayloadKind::Reply => 2,
        PayloadKind::Edit => 3,
        PayloadKind::Reaction => 4,
        PayloadKind::File => 5,
        PayloadKind::Image => 6,
        PayloadKind::Voice => 7,
        PayloadKind::Markdown => 8,
        PayloadKind::Delete => 9,
        PayloadKind::Revoke => 10,
        PayloadKind::MembershipNotice => 11,
    }
}

/// The kind with number `c`, if any.
pub open spec fn kind_of(c: u8) -> Option<PayloadKind> {
    if c == 1 {
        Some(PayloadKind::Text)
    } else if c == 2 {
        Some(PayloadKind::Reply)
    } else if c == 3 {
        Some(PayloadKind::Edit)
    } else if c == 4 {
        Some(PayloadKind::Reaction)
    } else if c == 5 {
        Some(PayloadKind::File)
    } else if c == 6 {
        Some(PayloadKind::Image)
    } else if c == 7 {
        Some(PayloadKind::Voice)
    } else if c == 8 {
        Some(PayloadKind::Markdown)
    } else if c == 9 {
        Some(PayloadKind::Delete)
    } else if c == 10 {
        Some(PayloadKind::Revoke)
    } else if c == 11 {
        Some(PayloadKind::MembershipNotice)
    } else {
        None
    }
}

impl PayloadKind {
    /// Stable number of the kind.
    pub fn to_u8(self) -> (c: u8)
        ensures
            c == kind_code(self),
    {
        match self {
            PayloadKind::Text => 1,
            PayloadKind::Reply => 2,
            PayloadKind::Edit => 3,
            PayloadKind::Reaction => 4,
            PayloadKind::File => 5,
            PayloadKind::Image => 6,
            PayloadKind::Voice => 7,
            PayloadKind::Markdown => 8,
            PayloadKind::Delete => 9,
            PayloadKind::Revoke => 10,
            PayloadKind::MembershipNotice => 11,
        }
    }

    /// The kind with number `value`.
    pub fn try_from(value: u8) -> (r: Result<PayloadKind, MlsError>)
        ensures
            match kind_of(value) {
                Some(k) => r == Ok::<PayloadKind, MlsError>(k),
                None => r matches Err(e) && e.0@ == "unknown application payload kind"@,
            },
    {
        if value == 1 {
            Ok(PayloadKind::Text)
        } else if value == 2 {
            Ok(PayloadKind::Reply)
        } else if value == 3 {
            Ok(PayloadKind::Edit)
        } else if value == 4 {
            Ok(PayloadKind::Reaction)
        } else if value == 5 {
            Ok(PayloadKind::File)
        } else if value == 6 {
            Ok(PayloadKind::Image)
        } else if value == 7 {
            Ok(PayloadKind::Voice)
        } else if value == 8 {
            Ok(PayloadKind::Markdown)
        } else if value == 9 {
            Ok(PayloadKind::Delete)
        } else if value == 10 {
            Ok(PayloadKind::Revoke)
        } else if value == 11 {
            Ok(PayloadKind::MembershipNotice)
        } else {
            Err(MlsError::msg("unknown application payload kind"))
        }
    }
}

/// Plaintext encrypted by MLS. Map keys are integers and metadata is
/// ordered by key.
#[derive(Debug, Clone, PartialEq, Eq)]
pub struct ApplicationPayload {
    pub kind: PayloadKind,
    pub body: Vec<u8>,
    pub metadata: BTreeMap<u16, Vec<u8>>,
}

/// Mathematical model of a payload.
pub struct PayloadView {
    pub kind: PayloadKind,
    pub body: Seq<u8>,
    pub metadata: Seq<(u16, Seq<u8>)>,
}

/// The entries of a metadata map with key `k` or above, by increasing key.
pub open spec fn entries_from(m: Map<u16, Vec<u8>>, k: int) -> Seq<(u16, Seq<u8>)>
    decreases 0x10000 - k,
{
    if k < 0 || k >= 0x10000 {
        Seq::empty()
    } else if m.contains_key(k as u16) {
        seq![(k as u16, m[k as u16]@)] + entries_from(m, k + 1)
    } else {
        entries_from(m, k + 1)
    }
}

/// The value a metadata map holds under `key`, as bytes.
pub open spec fn map_get(m: Map<u16, Vec<u8>>, key: u16) -> Option<Seq<u8>> {
    if m.contains_key(key) { Some(m[key]@) } else { None }
}

impl View for ApplicationPayload {
    type V = PayloadView;

    open spec fn view(&self) -> PayloadView {
        PayloadView { kind: self.kind, body: self.body@, metadata: entries_from(self.metadata@, 0) }
    }
}

/// Keys strictly increase along the entries.
pub open spec fn keys_increasing(m: Seq<(u16, Seq<u8>)>) -> bool {
    forall|i: int, j: int| 0 <= i < j < m.len() ==> #[trigger] m[i].0 < #[trigger] m[j].0
}

/// `s` holds exactly the entries of `m` with key `k` or above: each entry
/// is the map's, and each such key of the map has an entry.
pub open spec fn covers_from(s: Seq<(u16, Seq<u8>)>, m: Map<u16, Vec<u8>>, k: int) -> bool {
    &&& forall|i: int| 0 <= i < s.len() ==> (#[trigger] s[i]).0 >= k && m.contains_key(s[i].0) && s[i].1 == m[s[i].0]@
    &&& forall|key: u16| k <= key && #[trigger] m.contains_key(key) ==> exists|i: int| 0 <= i < s.len() && (#[trigger] s[i]).0 == key
}

/// The entries of a map by increasing key are increasing and cover it.
proof fn lemma_entries_from_shape(m: Map<u16, Vec<u8>>, k: int)
    requires
        0 <= k <= 0x10000,
    ensures
        keys_increasing(entries_from(m, k)),
        covers_from(entries_from(m, k), m, k),
    decreases 0x10000 - k,
{
    if k < 0x10000 {
        lemma_entries_from_shape(m, k + 1);
        let rest = entries_from(m, k + 1);
        let all = entries_from(m, k);
        if m.contains_key(k as u16) {
            let e = (k as u16, m[k as u16]@);
            assert(all == seq![e] + rest);
            assert forall|i: int| 0 <= i < all.len() implies (#[trigger] all[i]).0 >= k && m.contains_key(all[i].0)
                && all[i].1 == m[all[i].0]@ by {
                if i > 0 {
                    assert(all[i] == rest[i - 1]);
                }
            }
            assert forall|key: u16| k <= key && #[trigger] m.contains_key(key) implies exists|i: int| 0 <= i < all.len()
                && (#[trigger] all[i]).0 == key by {
                if key == k {
                    assert(all[0].0 == key);
                } else {
                    let j = choose|j: int| 0 <= j < rest.len() && (#[trigger] rest[j]).0 == key;
                    assert(all[j + 1] == rest[j]);
                }
            }
            assert forall|i: int, j: int| 0 <= i < j < all.len() implies #[trigger] all[i].0 < #[trigger] all[j].0 by {
                assert(all[j] == rest[j - 1]);
                if i > 0 {
                    assert(all[i] == rest[i - 1]);
                }
            }
        } else {
            assert(all == rest);
            assert forall|key: u16| k <= key && #[trigger] m.contains_key(key) implies exists|i: int| 0 <= i < all.len()
                && (#[trigger] all[i]).0 == key by {
                assert(key != k);
            }
        }
    }
}

/// Entries by increasing key that cover a map from key `k` on are the
/// map's entries from `k`: there is one such sequence.
proof fn lemma_entries_from_unique(m: Map<u16, Vec<u8>>, s: Seq<(u16, Seq<u8>)>, k: int)
    requires
        0 <= k <= 0x10000,
        keys_increasing(s),
        covers_from(s, m, k),
    ensures
        s == entries_from(m, k),
    decreases 0x10000 - k,
{
    if k == 0x10000 {
        if s.len() > 0 {
            assert(s[0].0 >= k);
        }
        assert(s =~= Seq::<(u16, Seq<u8>)>::empty());
    } else if m.contains_key(k as u16) {
        let i = choose|i: int| 0 <= i < s.len() && (#[trigger] s[i]).0 == k as u16;
        if i > 0 {
            assert(s[0].0 < s[i].0);
            assert(s[0].0 >= k);
        }
        let t = s.drop_first();
        assert forall|a: int, b: int| 0 <= a < b < t.len() implies #[trigger] t[a].0 < #[trigger] t[b].0 by {
            assert(t[a] == s[a + 1] && t[b] == s[b + 1]);
        }
        assert forall|j: int| 0 <= j < t.len() implies (#[trigger] t[j]).0 >= k + 1 && m.contains_key(t[j].0)
            && t[j].1 == m[t[j].0]@ by {
            assert(t[j] == s[j + 1]);
            assert(s[0].0 < s[j + 1].0);
        }
        assert forall|key: u16| k + 1 <= key && #[trigger] m.contains_key(key) implies exists|j: int| 0 <= j < t.len()
            && (#[trigger] t[j]).0 == key by {
            let j = choose|j: int| 0 <= j < s.len() && (#[trigger] s[j]).0 == key;
            assert(j != 0);
            assert(t[j - 1] == s[j]);
        }
        lemma_entries_from_unique(m, t, k + 1);
        assert(s =~= seq![s[0]] + t);
    } else {
        assert forall|j: int| 0 <= j < s.len() implies (#[trigger] s[j]).0 >= k + 1 && m.contains_key(s[j].0)
            && s[j].1 == m[s[j].0]@ by {
            assert(s[j].0 != k);
        }
        lemma_entries_from_unique(m, s, k + 1);
    }
}

/// The keys a `BTreeMap` iterator yields in order increase.
proof fn lemma_btree_keys_increasing(keys: Seq<u16>)
    requires
        vstd::std_specs::btree::increasing_seq(keys),
    ensures
        forall|i: int, j: int| 0 <= i < j < keys.len() ==> keys[i] < keys[j],
{
    assert forall|i: int, j: int| 0 <= i < j < keys.len() implies keys[i] < keys[j] by {
        assert(keys[i].cmp_spec(&keys[j]) is Less);
    }
}

/// The entries of a `BTreeMap` item sequence, as key and value bytes.
pub open spec fn item_entries(items: Seq<(&u16, &Vec<u8>)>) -> Seq<(u16, Seq<u8>)> {
    items.map_values(|kv: (&u16, &Vec<u8>)| (*kv.0, kv.1@))
}

// ---------------------------------------------------------------------
// CBOR encoding

/// CBOR major type bits of unsigned integers, byte strings and maps.
pub open spec fn cbor_uint() -> u8 { 0x00 }
pub open spec fn cbor_bytes() -> u8 { 0x40 }
pub open spec fn cbor_map() -> u8 { 0xa0 }

/// Shortest CBOR head of major type `t` with argument `x`.
#[verifier::opaque]
pub open spec fn head(t: u8, x: u64) -> Seq<u8> {
    if x <= 23 {
        seq![(t + x) as u8]
    } else if x <= 0xff {
        seq![(t + 24) as u8, x as u8]
    } else if x <= 0xffff {
        seq![(t + 25) as u8, (x / 0x100) as u8, (x % 0x100) as u8]
    } else if x <= 0xffff_ffff {
        seq![
            (t + 26) as u8,
            (x / 0x100_0000) as u8,
            ((x / 0x1_0000) % 0x100) as u8,
            ((x / 0x100) % 0x100) as u8,
            (x % 0x100) as u8,
        ]
    } else {
        seq![
            (t + 27) as u8,
            (x / 0x100_0000_0000_0000) as u8,
            ((x / 0x1_0000_0000_0000) % 0x100) as u8,
            ((x / 0x100_0000_0000) % 0x100) as u8,
            ((x / 0x1_0000_0000) % 0x100) as u8,
            ((x / 0x100_0000) % 0x100) as u8,
            ((x / 0x1_0000) % 0x100) as u8,
            ((x / 0x100) % 0x100) as u8,
            (x % 0x100) as u8,
        ]
    }
}

/// Encoding of one metadata entry.
pub open spec fn entry_cbor(e: (u16, Seq<u8>)) -> Seq<u8> {
    head(cbor_uint(), e.0 as u64) + head(cbor_bytes(), e.1.len() as u64) + e.1
}

/// Encoding of the metadata entries.
pub open spec fn entries_cbor(m: Seq<(u16, Seq<u8>)>) -> Seq<u8>
    decreases m.len(),
{
    if m.len() == 0 {
        Seq::empty()
    } else {
        entry_cbor(m[0]) + entries_cbor(m.drop_first())
    }
}

/// The fixed part of the canonical CBOR of a payload, up to the metadata key.
#[verifier::opaque]
pub open spec fn payload_prefix(p: PayloadView) -> Seq<u8> {
    head(cbor_map(), 3) + head(cbor_uint(), 0) + head(cbor_uint(), kind_code(p.kind) as u64)
        + head(cbor_uint(), 1) + head(cbor_bytes(), p.body.len() as u64) + p.body
        + head(cbor_uint(), 2)
}

/// Canonical CBOR of a payload.
#[verifier::opaque]
pub open spec fn payload_cbor(p: PayloadView) -> Seq<u8> {
    payload_prefix(p) + head(cbor_map(), p.metadata.len() as u64) + entries_cbor(p.metadata)
}

/// `2^k`.
pub open spec fn pow2n(k: nat) -> nat
    decreases k,
{
    if k == 0 { 1 } else { 2 * pow2n((k - 1) as nat) }
}

/// Smallest `2^j` with `k <= j <= 20` that is at least `n` (or `2^20`).
pub open spec fn bucket_exp(k: nat, n: nat) -> nat
    decreases 20 - k,
{
    if k >= 20 || pow2n(k) >= n { pow2n(k) } else { bucket_exp(k + 1, n) }
}

/// Padded size for a CBOR payload of `len` bytes: the smallest power of
/// two from 256 up that holds the 4-byte length and the payload.
pub open spec fn bucket_for(len: nat) -> nat {
    bucket_exp(8, len + 4)
}

/// `n` is a power of two.
pub open spec fn is_pow2(n: nat) -> bool
    decreases n,
{
    if n <= 1 {
        n == 1
    } else {
        n % 2 == 0 && is_pow2(n / 2)
    }
}

/// Four-byte big-endian encoding of `x`.
pub open spec fn be32(x: u32) -> Seq<u8> {
    seq![
        (x / 0x100_0000) as u8,
        ((x / 0x1_0000) % 0x100) as u8,
        ((x / 0x100) % 0x100) as u8,
        (x % 0x100) as u8,
    ]
}

/// Value of four big-endian bytes at `p`.
pub open spec fn be32_at(b: Seq<u8>, p: int) -> int {
    ((b[p] * 0x100 + b[p + 1]) * 0x100 + b[p + 2]) * 0x100 + b[p + 3]
}

// ---------------------------------------------------------------------
// CBOR decoding (lenient about head length: a longer head than needed is read)

/// Argument of a head whose additional information is `info`, read from
/// position `p`: the value and the position after it.
pub open spec fn arg_value(b: Seq<u8>, p: int, info: u8) -> Option<(u64, int)> {
    if info <= 23 {
        Some((info as u64, p))
    } else if info == 24 {
        if p + 1 <= b.len() { Some((b[p] as u64, p + 1)) } else { None }
    } else if info == 25 {
        if p + 2 <= b.len() { Some(((b[p] * 0x100 + b[p + 1]) as u64, p + 2)) } else { None }
    } else if info == 26 {
        if p + 4 <= b.len() { Some((be32_at(b, p) as u64, p + 4)) } else { None }
    } else if info == 27 {
        if p + 8 <= b.len() {
            Some(((be32_at(b, p) * 0x1_0000_0000 + be32_at(b, p + 4)) as u64, p + 8))
        } else {
            None
        }
    } else {
        None
    }
}

/// An unsigned integer at `p` no larger than `max`.
pub open spec fn dec_uint(b: Seq<u8>, p: int, max: u64) -> Option<(u64, int)> {
    if 0 <= p < b.len() && b[p] <= 0x1b {
        match arg_value(b, p + 1, b[p]) {
            Some((v, q)) => if v <= max { Some((v, q)) } else { None },
            None => None,
        }
    } else {
        None
    }
}

/// A map head at `p`: its length (`None` for indefinite) and the position after it.
pub open spec fn dec_map(b: Seq<u8>, p: int) -> Option<(Option<u64>, int)> {
    if 0 <= p < b.len() && 0xa0 <= b[p] <= 0xbf {
        if b[p] == 0xbf {
            Some((None, p + 1))
        } else {
            match arg_value(b, p + 1, (b[p] - 0xa0) as u8) {
                Some((v, q)) => Some((Some(v), q)),
                None => None,
            }
        }
    } else {
        None
    }
}

/// A definite-length byte string at `p`.
pub open spec fn dec_bytes(b: Seq<u8>, p: int) -> Option<(Seq<u8>, int)> {
    if 0 <= p < b.len() && 0x40 <= b[p] <= 0x5e {
        match arg_value(b, p + 1, (b[p] - 0x40) as u8) {
            Some((n, q)) => if n <= usize::MAX && q + n <= b.len() {
                Some((b.subrange(q, q + n), q + n))
            } else {
                None
            },
            None => None,
        }
    } else {
        None
    }
}

/// `count` metadata entries at `p`, keys strictly above `prev`.
pub open spec fn dec_entries(b: Seq<u8>, p: int, count: nat, prev: Option<u16>) -> Option<(Seq<(u16, Seq<u8>)>, int)>
    decreases count,
{
    if count == 0 {
        Some((Seq::empty(), p))
    } else {
        match dec_uint(b, p, 0xffff) {
            None => None,
            Some((k, q)) => if prev matches Some(pk) && k <= pk {
                None
            } else {
                match dec_bytes(b, q) {
                    None => None,
                    Some((v, r)) => match dec_entries(b, r, (count - 1) as nat, Some(k as u16)) {
                        None => None,
                        Some((rest, e)) => Some((seq![(k as u16, v)] + rest, e)),
                    },
                }
            },
        }
    }
}

/// The `u8` key `k` at `p`: the position after it.
pub open spec fn dec_key(b: Seq<u8>, p: int, k: u64) -> Option<int> {
    match dec_uint(b, p, 0xff) {
        Some((v, q)) => if v == k { Some(q) } else { None },
        None => None,
    }
}

/// The fixed part of a payload: map head, kind and body, up to the
/// metadata key; gives the kind, the body and the position after the key.
pub open spec fn dec_prefix(b: Seq<u8>) -> Option<(PayloadKind, Seq<u8>, int)> {
    match dec_map(b, 0) {
        Some((Some(n3), p1)) => if n3 != 3 { None } else {
            match dec_key(b, p1, 0) {
                Some(p2) => match dec_uint(b, p2, 0xff) {
                    Some((c, p3)) => match kind_of(c as u8) {
                        Some(kind) => match dec_key(b, p3, 1) {
                            Some(p4) => match dec_bytes(b, p4) {
                                Some((body, p5)) => match dec_key(b, p5, 2) {
                                    Some(p6) => Some((kind, body, p6)),
                                    None => None,
                                },
                                None => None,
                            },
                            None => None,
                        },
                        None => None,
                    },
                    None => None,
                },
                None => None,
            }
        },
        _ => None,
    }
}

/// Decode the canonical CBOR of a payload, which must fill `b` exactly.
pub open spec fn decode_cbor(b: Seq<u8>) -> Option<PayloadView> {
    match dec_prefix(b) {
        None => None,
        Some((kind, body, p6)) => match dec_map(b, p6) {
            Some((Some(n), p7)) => match dec_entries(b, p7, n as nat, None) {
                Some((md, p8)) => if p8 == b.len() {
                    Some(PayloadView { kind, body, metadata: md })
                } else {
                    None
                },
                None => None,
            },
            _ => None,
        },
    }
}

/// The padded size is acceptable: a power of two from 256 bytes to 1 MiB.
pub open spec fn bucket_ok(n: nat) -> bool {
    256 <= n <= 1048576 && is_pow2(n)
}

/// Decode a padded payload, if valid.
pub open spec fn decode_padded_spec(input: Seq<u8>) -> Option<PayloadView> {
    if !bucket_ok(input.len()) {
        None
    } else {
        let len = be32_at(input, 0);
        if len == 0 || len > input.len() - 4 {
            None
        } else {
            decode_cbor(input.subrange(4, 4 + len))
        }
    }
}

} // verus!

verus! {

/// Append the shortest CBOR head of major type `t` with argument `x`.
fn put_head(out: &mut Vec<u8>, t: u8, x: u64)
    requires
        t == 0x00 || t == 0x40 || t == 0xa0,
    ensures
        final(out)@ == old(out)@ + head(t, x),
{
    let ghost start = out@;
    reveal(head);
    if x <= 23 {
        out.push(t + x as u8);
    } else if x <= 0xff {
        out.push(t + 24);
        out.push(x as u8);
    } else if x <= 0xffff {
        out.push(t + 25);
        out.push((x / 0x100) as u8);
        out.push((x % 0x100) as u8);
    } else if x <= 0xffff_ffff {
        out.push(t + 26);
        out.push((x / 0x100_0000) as u8);
        out.push(((x / 0x1_0000) % 0x100) as u8);
        out.push(((x / 0x100) % 0x100) as u8);
        out.push((x % 0x100) as u8);
    } else {
        out.push(t + 27);
        out.push((x / 0x100_0000_0000_0000) as u8);
        out.push(((x / 0x1_0000_0000_0000) % 0x100) as u8);
        out.push(((x / 0x100_0000_0000) % 0x100) as u8);
        out.push(((x / 0x1_0000_0000) % 0x100) as u8);
        out.push(((x / 0x100_0000) % 0x100) as u8);
        out.push(((x / 0x1_0000) % 0x100) as u8);
        out.push(((x / 0x100) % 0x100) as u8);
        out.push((x % 0x100) as u8);
    }
    assert(out@ =~= start + head(t, x));
}

proof fn lemma_entries_push(m: Seq<(u16, Seq<u8>)>, e: (u16, Seq<u8>))
    ensures
        entries_cbor(m.push(e)) == entries_cbor(m) + entry_cbor(e),
    decreases m.len(),
{
    if m.len() == 0 {
        assert(m.push(e).drop_first() =~= Seq::<(u16, Seq<u8>)>::empty());
        assert(m.push(e)[0] == e);
        assert(entries_cbor(m.push(e).drop_first()) == Seq::<u8>::empty());
        assert(entries_cbor(m) == Seq::<u8>::empty());
        assert(entries_cbor(m.push(e)) =~= entries_cbor(m) + entry_cbor(e));
    } else {
        lemma_entries_push(m.drop_first(), e);
        assert(m.push(e).drop_first() =~= m.drop_first().push(e));
        assert(m.push(e)[0] == m[0]);
        assert(entries_cbor(m.push(e)) =~= entries_cbor(m) + entry_cbor(e));
    }
}

impl ApplicationPayload {
    /// Canonical CBOR `{0: kind, 1: body, 2: {key: value, ...}}`.
    pub fn encode_canonical(&self) -> (r: Vec<u8>)
        ensures
            r@ == payload_cbor(self@),
    {
        reveal(payload_cbor);
        reveal(payload_prefix);
        let mut out: Vec<u8> = Vec::new();
        put_head(&mut out, 0xa0, 3);
        put_head(&mut out, 0x00, 0);
        put_head(&mut out, 0x00, self.kind.to_u8() as u64);
        put_head(&mut out, 0x00, 1);
        put_head(&mut out, 0x40, self.body.len() as u64);
        extend(&mut out, self.body.as_slice());
        put_head(&mut out, 0x00, 2);
        let iter = self.metadata.iter();
        let ghost items = iter.remaining();
        let ghost md = item_entries(items);
        proof {
            lemma_btree_keys_increasing(items.map_values(|kv: (&u16, &Vec<u8>)| *kv.0));
            assert forall|i: int, j: int| 0 <= i < j < md.len() implies #[trigger] md[i].0 < #[trigger] md[j].0 by {
                assert(items.map_values(|kv: (&u16, &Vec<u8>)| *kv.0)[i] == md[i].0);
                assert(items.map_values(|kv: (&u16, &Vec<u8>)| *kv.0)[j] == md[j].0);
            }
            let m = self.metadata@;
            assert forall|key: u16| 0 <= key && #[trigger] m.contains_key(key) implies exists|i: int| 0 <= i < md.len()
                && (#[trigger] md[i]).0 == key by {
                assert(items.contains((&key, &m[key])));
                let i = choose|i: int| 0 <= i < items.len() && items[i] == (&key, &m[key]);
                assert(md[i].0 == key);
            }
            assert forall|i: int| 0 <= i < md.len() implies (#[trigger] md[i]).0 >= 0 && m.contains_key(md[i].0)
                && md[i].1 == m[md[i].0]@ by {
                assert(m.contains_key(*items[i].0) && m[*items[i].0] == *items[i].1);
            }
            lemma_entries_from_unique(m, md, 0);
        }
        put_head(&mut out, 0xa0, self.metadata.len() as u64);
        let ghost prefix = out@;
        for (key, value) in it: iter
            invariant
                it.seq() == items,
                md == item_entries(items),
                out@ == prefix + entries_cbor(md.subrange(0, it.index() as int)),
        {
            proof {
                let i = it.index() as int;
                assert(md.subrange(0, i + 1) =~= md.subrange(0, i).push(md[i]));
                lemma_entries_push(md.subrange(0, i), md[i]);
            }
            put_head(&mut out, 0x00, *key as u64);
            put_head(&mut out, 0x40, value.len() as u64);
            extend(&mut out, value.as_slice());
        }
        assert(md.subrange(0, md.len() as int) =~= md);
        out
    }
}

} // verus!

verus! {

proof fn lemma_be32_bound(a: u8, b: u8, c: u8, d: u8)
    ensures
        0 <= ((a * 0x100 + b) * 0x100 + c) * 0x100 + d <= 0xffff_ffff,
        0 <= a * 0x100 + b <= 0xffff,
{
    assert(0 <= a * 0x100 + b <= 0xffff) by (nonlinear_arith)
        requires a <= 0xff, b <= 0xff;
    assert(0 <= (a * 0x100 + b) * 0x100 + c <= 0xff_ffff) by (nonlinear_arith)
        requires 0 <= a * 0x100 + b <= 0xffff, c <= 0xff;
    assert(0 <= ((a * 0x100 + b) * 0x100 + c) * 0x100 + d <= 0xffff_ffff) by (nonlinear_arith)
        requires 0 <= (a * 0x100 + b) * 0x100 + c <= 0xff_ffff, d <= 0xff;
}

/// Four big-endian bytes at `p`.
pub(crate) fn read_be32(b: &[u8], p: usize) -> (v: u32)
    requires
        p + 4 <= b@.len(),
    ensures
        v == be32_at(b@, p as int),
{
    proof {
        lemma_be32_bound(b@[p as int], b@[p + 1], b@[p + 2], b@[p + 3]);
    }
    ((b[p] as u32 * 0x100 + b[p + 1] as u32) * 0x100 + b[p + 2] as u32) * 0x100 + b[p + 3] as u32
}

/// Exec form of [`arg_value`].
fn read_arg(b: &[u8], p: usize, info: u8) -> (r: Option<(u64, usize)>)
    requires
        p <= b@.len(),
    ensures
        match r {
            Some((v, q)) => arg_value(b@, p as int, info) == Some((v, q as int)),
            None => arg_value(b@, p as int, info) is None,
        },
{
    if info <= 23 {
        Some((info as u64, p))
    } else if info == 24 {
        if p < b.len() { Some((b[p] as u64, p + 1)) } else { None }
    } else if info == 25 {
        if b.len() - p >= 2 {
            proof {
                lemma_be32_bound(0, 0, b@[p as int], b@[p + 1]);
            }
            Some(((b[p] as u64) * 0x100 + b[p + 1] as u64, p + 2))
        } else {
            None
        }
    } else if info == 26 {
        if b.len() - p >= 4 { Some((read_be32(b, p) as u64, p + 4)) } else { None }
    } else if info == 27 {
        if b.len() - p >= 8 {
            let hi = read_be32(b, p) as u64;
            let lo = read_be32(b, p + 4) as u64;
            assert(hi * 0x1_0000_0000 + lo <= u64::MAX) by (nonlinear_arith)
                requires hi <= 0xffff_ffff, lo <= 0xffff_ffff;
            Some((hi * 0x1_0000_0000 + lo, p + 8))
        } else {
            None
        }
    } else {
        None
    }
}

/// Exec form of [`dec_uint`].
fn read_uint(b: &[u8], p: usize, max: u64) -> (r: Option<(u64, usize)>)
    ensures
        match r {
            Some((v, q)) => dec_uint(b@, p as int, max) == Some((v, q as int)),
            None => dec_uint(b@, p as int, max) is None,
        },
{
    if p < b.len() && b[p] <= 0x1b {
        match read_arg(b, p + 1, b[p]) {
            Some((v, q)) => if v <= max { Some((v, q)) } else { None },
            None => None,
        }
    } else {
        None
    }
}

/// Exec form of [`dec_map`].
fn read_map(b: &[u8], p: usize) -> (r: Option<(Option<u64>, usize)>)
    ensures
        match r {
            Some((v, q)) => dec_map(b@, p as int) == Some((v, q as int)),
            None => dec_map(b@, p as int) is None,
        },
{
    if p < b.len() && 0xa0 <= b[p] && b[p] <= 0xbf {
        if b[p] == 0xbf {
            Some((None, p + 1))
        } else {
            match read_arg(b, p + 1, b[p] - 0xa0) {
                Some((v, q)) => Some((Some(v), q)),
                None => None,
            }
        }
    } else {
        None
    }
}

/// Exec form of [`dec_bytes`].
fn read_bytes(b: &[u8], p: usize) -> (r: Option<(Vec<u8>, usize)>)
    ensures
        match r {
            Some((v, q)) => dec_bytes(b@, p as int) == Some((v@, q as int)),
            None => dec_bytes(b@, p as int) is None,
        },
{
    if p < b.len() && 0x40 <= b[p] && b[p] <= 0x5e {
        match read_arg(b, p + 1, b[p] - 0x40) {
            Some((n, q)) => {
                if n <= (usize::MAX as u64) && (n as usize) <= b.len() - q {
                    let end = q + n as usize;
                    Some((crate::bytes::slice_range(b, q, end), end))
                } else {
                    None
                }
            },
            None => None,
        }
    } else {
        None
    }
}

} // verus!

verus! {

/// Exec form of [`dec_entries`] starting with no previous key; the entries
/// read go into a map.
fn read_entries(b: &[u8], p: usize, count: u64) -> (r: Option<(BTreeMap<u16, Vec<u8>>, usize)>)
    ensures
        match r {
            Some((m, q)) => dec_entries(b@, p as int, count as nat, None) == Some((entries_from(m@, 0), q as int)),
            None => dec_entries(b@, p as int, count as nat, None) is None,
        },
{
    let mut map: BTreeMap<u16, Vec<u8>> = BTreeMap::new();
    let ghost mut es: Seq<(u16, Seq<u8>)> = Seq::empty();
    let mut pos = p;
    let mut prev: Option<u16> = None;
    let mut i: u64 = 0;
    while i < count
        invariant
            i <= count,
            dec_entries(b@, p as int, count as nat, None) == match dec_entries(b@, pos as int, (count - i) as nat, prev) {
                Some((rest, e)) => Some((es + rest, e)),
                None => None,
            },
            keys_increasing(es),
            covers_from(es, map@, 0),
            prev is None <==> es.len() == 0,
            prev matches Some(pk) ==> es.len() > 0 && es.last().0 == pk,
        decreases count - i,
    {
        let (k, q) = match read_uint(b, pos, 0xffff) {
            Some(x) => x,
            None => return None,
        };
        if let Some(pk) = prev {
            if k <= pk as u64 {
                return None;
            }
        }
        let (v, r) = match read_bytes(b, q) {
            Some(x) => x,
            None => return None,
        };
        let ghost old_es = es;
        let ghost old_map = map@;
        let ghost entry = (k as u16, v@);
        map.insert(k as u16, v);
        proof {
            es = old_es.push(entry);
            let tail = dec_entries(b@, r as int, (count - i - 1) as nat, Some(k as u16));
            if let Some((rest, e)) = tail {
                assert(old_es + (seq![entry] + rest) =~= es + rest);
            }
            assert forall|a: int, c: int| 0 <= a < c < es.len() implies #[trigger] es[a].0 < #[trigger] es[c].0 by {
                if c == es.len() - 1 && prev is Some {
                    if a < old_es.len() - 1 {
                        assert(old_es[a].0 < old_es.last().0);
                    }
                }
            }
            assert(!old_map.contains_key(k as u16)) by {
                if old_map.contains_key(k as u16) {
                    let j = choose|j: int| 0 <= j < old_es.len() && (#[trigger] old_es[j]).0 == k as u16;
                    if j < old_es.len() - 1 {
                        assert(old_es[j].0 < old_es.last().0);
                    }
                }
            }
            assert forall|j: int| 0 <= j < es.len() implies (#[trigger] es[j]).0 >= 0 && map@.contains_key(es[j].0)
                && es[j].1 == map@[es[j].0]@ by {
                if j < old_es.len() {
                    assert(es[j] == old_es[j]);
                    assert(es[j].0 != k as u16);
                }
            }
            assert forall|key: u16| 0 <= key && #[trigger] map@.contains_key(key) implies exists|j: int| 0 <= j < es.len()
                && (#[trigger] es[j]).0 == key by {
                if key == k as u16 {
                    assert(es[es.len() - 1].0 == key);
                } else {
                    assert(old_map.contains_key(key));
                    let j = choose|j: int| 0 <= j < old_es.len() && (#[trigger] old_es[j]).0 == key;
                    assert(es[j] == old_es[j]);
                }
            }
        }
        pos = r;
        prev = Some(k as u16);
        i = i + 1;
    }
    assert(es + Seq::<(u16, Seq<u8>)>::empty() =~= es);
    proof {
        lemma_entries_from_unique(map@, es, 0);
    }
    Some((map, pos))
}

/// Decode the fixed part of a payload (see [`dec_prefix`]).
fn decode_prefix(b: &[u8]) -> (r: Result<(PayloadKind, Vec<u8>, usize), MlsError>)
    ensures
        match dec_prefix(b@) {
            Some((kind, body, p6)) => r matches Ok((k, v, q)) && k == kind && v@ == body && q as int == p6,
            None => r is Err,
        },
{
    let (n3, p1) = match read_map(b, 0) {
        Some((Some(n), q)) => (n, q),
        _ => return Err(MlsError::msg("application payload must be a fixed map")),
    };
    if n3 != 3 {
        return Err(MlsError::msg("application payload must be a fixed map"));
    }
    let p2 = expect_key(b, p1, 0)?;
    let (c, p3) = match read_uint(b, p2, 0xff) {
        Some(x) => x,
        None => return Err(MlsError::msg("invalid application CBOR: expected u8")),
    };
    let kind = PayloadKind::try_from(c as u8)?;
    let p4 = expect_key(b, p3, 1)?;
    let (body, p5) = match read_bytes(b, p4) {
        Some(x) => x,
        None => return Err(MlsError::msg("invalid application CBOR: expected bytes")),
    };
    let p6 = expect_key(b, p5, 2)?;
    Ok((kind, body, p6))
}

/// Decode the canonical CBOR of a payload filling `b` exactly.
fn decode_cbor_exec(b: &[u8]) -> (r: Result<ApplicationPayload, MlsError>)
    ensures
        match decode_cbor(b@) {
            Some(p) => r matches Ok(v) && v@ == p,
            None => r is Err,
        },
{
    let (kind, body, p6) = decode_prefix(b)?;
    let (n, p7) = match read_map(b, p6) {
        Some((Some(n), q)) => (n, q),
        Some((None, _)) => return Err(MlsError::msg("indefinite metadata map is not canonical")),
        None => return Err(MlsError::msg("invalid application CBOR: expected map")),
    };
    let (metadata, p8) = match read_entries(b, p7, n) {
        Some(x) => x,
        None => return Err(MlsError::msg("metadata keys are not canonical")),
    };
    if p8 != b.len() {
        return Err(MlsError::msg("trailing canonical CBOR data"));
    }
    Ok(ApplicationPayload { kind, body, metadata })
}

/// Read the `u8` key at `p`, which must equal `expected`.
fn expect_key(b: &[u8], p: usize, expected: u64) -> (r: Result<usize, MlsError>)
    ensures
        match dec_key(b@, p as int, expected) {
            Some(q) => r matches Ok(q2) && q2 as int == q,
            None => r is Err,
        },
{
    match read_uint(b, p, 0xff) {
        Some((k, q)) => if k == expected {
            Ok(q)
        } else {
            Err(MlsError::msg("application keys are not canonical"))
        },
        None => Err(MlsError::msg("invalid application CBOR: expected u8")),
    }
}

} // verus!

verus! {

/// Whether `n` is a power of two.
fn is_power_of_two(n: usize) -> (b: bool)
    ensures
        b == is_pow2(n as nat),
{
    let mut m = n;
    while m > 1 && m % 2 == 0
        invariant
            is_pow2(m as nat) == is_pow2(n as nat),
        decreases m,
    {
        m = m / 2;
    }
    m == 1
}

/// Four-byte big-endian encoding of `x`.
pub(crate) fn push_be32(out: &mut Vec<u8>, x: u32)
    ensures
        final(out)@ == old(out)@ + be32(x),
{
    let ghost start = out@;
    out.push((x / 0x100_0000) as u8);
    out.push(((x / 0x1_0000) % 0x100) as u8);
    out.push(((x / 0x100) % 0x100) as u8);
    out.push((x % 0x100) as u8);
    assert(out@ =~= start + be32(x));
}

/// The padded size for a CBOR payload of `len` bytes, if it is at most 1 MiB.
fn padded_bucket(len: usize) -> (r: Result<usize, MlsError>)
    ensures
        match r {
            Ok(b) => len + 4 <= MAX_BUCKET && b == bucket_for(len as nat),
            Err(e) => len + 4 > MAX_BUCKET && (e.0@ == "application payload exceeds maximum length"@
                || e.0@ == "application payload length overflow"@),
        },
{
    if len > usize::MAX - 4 {
        return Err(MlsError::msg("application payload length overflow"));
    }
    let required = len + 4;
    if required > 0x8000_0000 && required - 1 > usize::MAX / 2 {
        return Err(MlsError::msg("application payload length overflow"));
    }
    if required > MAX_BUCKET {
        return Err(MlsError::msg("application payload exceeds maximum length"));
    }
    let mut b: usize = 256;
    let mut k: u32 = 8;
    proof {
        lemma_pow2n_values();
    }
    while b < required
        invariant
            8 <= k <= 20,
            b == pow2n(k as nat),
            required <= 1048576,
            pow2n(20) == 1048576,
            bucket_exp(k as nat, required as nat) == bucket_exp(8, required as nat),
        decreases 20 - k,
    {
        b = b * 2;
        k = k + 1;
    }
    Ok(b)
}

impl ApplicationPayload {
    /// Encode canonical CBOR, prefix its length and pad with random bytes
    /// to the bucket size.
    pub fn encode_padded(&self) -> (r: Result<Vec<u8>, MlsError>)
        ensures
            r is Ok <==> payload_cbor(self@).len() + 4 <= MAX_BUCKET,
            r matches Ok(out) ==> {
                let cbor = payload_cbor(self@);
                &&& out@.len() == bucket_for(cbor.len())
                &&& out@.subrange(0, 4) == be32(cbor.len() as u32)
                &&& out@.subrange(4, 4 + cbor.len() as int) == cbor
            },
            r matches Ok(out) ==> decode_padded_spec(out@) == Some(self@),
    {
        let cbor = self.encode_canonical();
        let bucket = padded_bucket(cbor.len())?;
        proof {
            lemma_bucket_bounds(8, (cbor@.len() + 4) as nat);
        }
        let mut out: Vec<u8> = Vec::new();
        push_be32(&mut out, cbor.len() as u32);
        extend(&mut out, cbor.as_slice());
        let padding = random_bytes(bucket - out.len());
        extend(&mut out, padding.as_slice());
        assert(out@.subrange(0, 4) =~= be32(cbor@.len() as u32));
        assert(out@.subrange(4, 4 + cbor@.len() as int) =~= cbor@);
        proof {
            lemma_entries_from_shape(self.metadata@, 0);
            law_padded_roundtrip(self@, out@);
        }
        Ok(out)
    }

    /// Decode a padded payload; padding bytes are ignored.
    pub fn decode_padded(input: &[u8]) -> (r: Result<ApplicationPayload, MlsError>)
        ensures
            match decode_padded_spec(input@) {
                Some(p) => r matches Ok(v) && v@ == p,
                None => r is Err,
            },
            !bucket_ok(input@.len()) ==> (r matches Err(e) && e.0@ == "invalid application payload bucket"@),
    {
        if input.len() < MIN_BUCKET || input.len() > MAX_BUCKET || !is_power_of_two(input.len()) {
            return Err(MlsError::msg("invalid application payload bucket"));
        }
        let encoded_len = read_be32(input, 0) as usize;
        if encoded_len == 0 || encoded_len > input.len() - 4 {
            return Err(MlsError::msg("invalid application payload length"));
        }
        let window = crate::bytes::slice_range(input, 4, 4 + encoded_len);
        decode_cbor_exec(window.as_slice())
    }
}

} // verus!

verus! {

/// The bucket search ends on a power of two, at least 256, at most 2^20,
/// and at least `n` when `n` fits.
proof fn lemma_bucket_bounds(k: nat, n: nat)
    requires
        8 <= k <= 20,
    ensures
        is_pow2(bucket_exp(k, n)),
        pow2n(k) <= bucket_exp(k, n) <= 1048576,
        n <= 1048576 ==> n <= bucket_exp(k, n),
    decreases 20 - k,
{
    lemma_pow2n_values();
    lemma_pow2n(k);
    if k >= 20 || pow2n(k) >= n {
        lemma_pow2n_mono(k, 20);
    } else {
        lemma_bucket_bounds(k + 1, n);
    }
}

proof fn lemma_pow2n_values()
    ensures
        pow2n(8) == 256,
        pow2n(20) == 1048576,
{
    reveal_with_fuel(pow2n, 21);
}

proof fn lemma_pow2n(k: nat)
    ensures
        is_pow2(pow2n(k)),
        pow2n(k) >= 1,
    decreases k,
{
    if k > 0 {
        lemma_pow2n((k - 1) as nat);
        assert(pow2n(k) / 2 == pow2n((k - 1) as nat));
    }
}

proof fn lemma_pow2n_mono(a: nat, b: nat)
    requires
        a <= b,
    ensures
        pow2n(a) <= pow2n(b),
    decreases b - a,
{
    if a < b {
        lemma_pow2n_mono(a, (b - 1) as nat);
        lemma_pow2n((b - 1) as nat);
    }
}

} // verus!

verus! {

/// Additional information of the shortest head with argument `x`.
pub open spec fn head_info(x: u64) -> u8 {
    if x <= 23 {
        x as u8
    } else if x <= 0xff {
        24
    } else if x <= 0xffff {
        25
    } else {
        26
    }
}

proof fn lemma_head_arg(b: Seq<u8>, p: int, t: u8, x: u64)
    requires
        t == 0x00 || t == 0x40 || t == 0xa0,
        x <= 0xffff_ffff,
        0 <= p,
        p + head(t, x).len() <= b.len(),
        b.subrange(p, p + head(t, x).len()) == head(t, x),
    ensures
        head(t, x).len() >= 1,
        b[p] == t + head_info(x),
        arg_value(b, p + 1, head_info(x)) == Some((x, p + head(t, x).len())),
{
    reveal(head);
    let h = head(t, x);
    assert(b[p] == h[0]);
    if x <= 23 {
    } else if x <= 0xff {
        assert(b[p + 1] == h[1]);
    } else if x <= 0xffff {
        assert(b[p + 1] == h[1]);
        assert(b[p + 2] == h[2]);
        assert(b[p + 1] * 0x100 + b[p + 2] == x);
    } else {
        assert(b[p + 1] == h[1]);
        assert(b[p + 2] == h[2]);
        assert(b[p + 3] == h[3]);
        assert(b[p + 4] == h[4]);
        let y = x as u32;
        assert(((((y / 0x100_0000) as u8) * 0x100 + (((y / 0x1_0000) % 0x100) as u8)) * 0x100
            + (((y / 0x100) % 0x100) as u8)) * 0x100 + ((y % 0x100) as u8) == y) by (bit_vector);
        assert(be32_at(b, p + 1) == x);
    }
}

proof fn lemma_dec_uint_head(b: Seq<u8>, p: int, x: u64, max: u64)
    requires
        x <= max,
        x <= 0xffff_ffff,
        0 <= p,
        p + head(0x00, x).len() <= b.len(),
        b.subrange(p, p + head(0x00, x).len()) == head(0x00, x),
    ensures
        dec_uint(b, p, max) == Some((x, p + head(0x00, x).len())),
{
    lemma_head_arg(b, p, 0x00, x);
}

proof fn lemma_dec_map_head(b: Seq<u8>, p: int, x: u64)
    requires
        x <= 0xffff_ffff,
        0 <= p,
        p + head(0xa0, x).len() <= b.len(),
        b.subrange(p, p + head(0xa0, x).len()) == head(0xa0, x),
    ensures
        dec_map(b, p) == Some((Some(x), p + head(0xa0, x).len())),
{
    lemma_head_arg(b, p, 0xa0, x);
}

proof fn lemma_dec_bytes_head(b: Seq<u8>, p: int, v: Seq<u8>)
    requires
        v.len() <= 0xffff_ffff,
        0 <= p,
        p + head(0x40, v.len() as u64).len() + v.len() <= b.len(),
        b.subrange(p, p + head(0x40, v.len() as u64).len() + v.len()) == head(0x40, v.len() as u64) + v,
    ensures
        dec_bytes(b, p) == Some((v, p + head(0x40, v.len() as u64).len() + v.len())),
{
    let h = head(0x40, v.len() as u64);
    assert(b.subrange(p, p + h.len()) =~= h) by {
        assert forall|i: int| 0 <= i < h.len() implies b.subrange(p, p + h.len())[i] == h[i] by {
            assert(b.subrange(p, p + h.len() + v.len())[i] == (h + v)[i]);
        }
    }
    lemma_head_arg(b, p, 0x40, v.len() as u64);
    let q = p + h.len();
    assert(b.subrange(q, q + v.len()) =~= v) by {
        assert forall|i: int| 0 <= i < v.len() implies b.subrange(q, q + v.len())[i] == v[i] by {
            assert(b.subrange(p, p + h.len() + v.len())[h.len() + i] == (h + v)[h.len() + i]);
        }
    }
}

/// `x` sits at position `p` of `b`.
pub open spec fn placed(b: Seq<u8>, p: int, x: Seq<u8>) -> bool {
    0 <= p && p + x.len() <= b.len() && b.subrange(p, p + x.len()) == x
}

proof fn lemma_placed_split(b: Seq<u8>, p: int, x: Seq<u8>, y: Seq<u8>)
    requires
        placed(b, p, x + y),
    ensures
        placed(b, p, x),
        placed(b, p + x.len(), y),
{
    assert(b.subrange(p, p + x.len()) =~= x) by {
        assert forall|i: int| 0 <= i < x.len() implies b.subrange(p, p + x.len())[i] == x[i] by {
            assert(b.subrange(p, p + (x + y).len())[i] == (x + y)[i]);
        }
    }
    assert(b.subrange(p + x.len(), p + x.len() + y.len()) =~= y) by {
        assert forall|i: int| 0 <= i < y.len() implies b.subrange(p + x.len(), p + x.len() + y.len())[i] == y[i] by {
            assert(b.subrange(p, p + (x + y).len())[x.len() + i] == (x + y)[x.len() + i]);
        }
    }
}

proof fn lemma_dec_entries(b: Seq<u8>, p: int, m: Seq<(u16, Seq<u8>)>, prev: Option<u16>)
    requires
        placed(b, p, entries_cbor(m)),
        entries_cbor(m).len() <= 0xffff_ffff,
        keys_increasing(m),
        m.len() > 0 && prev is Some ==> prev.unwrap() < m[0].0,
    ensures
        dec_entries(b, p, m.len(), prev) == Some((m, p + entries_cbor(m).len())),
    decreases m.len(),
{
    if m.len() > 0 {
        let e = m[0];
        let kh = head(0x00, e.0 as u64);
        let vh = head(0x40, e.1.len() as u64);
        let rest = m.drop_first();
        assert(entries_cbor(m) == kh + vh + e.1 + entries_cbor(rest));
        assert(kh + vh + e.1 + entries_cbor(rest) =~= kh + ((vh + e.1) + entries_cbor(rest)));
        lemma_placed_split(b, p, kh, (vh + e.1) + entries_cbor(rest));
        lemma_placed_split(b, p + kh.len(), vh + e.1, entries_cbor(rest));
        lemma_dec_uint_head(b, p, e.0 as u64, 0xffff);
        lemma_dec_bytes_head(b, p + kh.len(), e.1);
        assert(keys_increasing(rest)) by {
            assert forall|i: int, j: int| 0 <= i < j < rest.len() implies #[trigger] rest[i].0 < #[trigger] rest[j].0 by {
                assert(rest[i] == m[i + 1]);
                assert(rest[j] == m[j + 1]);
            }
        }
        if rest.len() > 0 {
            assert(rest[0] == m[1]);
        }
        lemma_dec_entries(b, p + kh.len() + vh.len() + e.1.len(), rest, Some(e.0));
        assert(seq![(e.0 as u64 as u16, e.1)] + rest =~= m);
    } else {
        assert(m =~= Seq::<(u16, Seq<u8>)>::empty());
    }
}

proof fn lemma_prefix_decodes(b: Seq<u8>, p: PayloadView)
    requires
        placed(b, 0, payload_prefix(p)),
        payload_prefix(p).len() <= 0xffff_ffff,
    ensures
        dec_prefix(b) == Some((p.kind, p.body, payload_prefix(p).len() as int)),
{
    let h0 = head(0xa0, 3);
    let h1 = head(0x00, 0);
    let h2 = head(0x00, kind_code(p.kind) as u64);
    let h3 = head(0x00, 1);
    let h4 = head(0x40, p.body.len() as u64);
    let h5 = head(0x00, 2);
    let a4 = h0 + h1 + h2 + h3;
    let a5 = a4 + (h4 + p.body);
    reveal(payload_prefix);
    assert(payload_prefix(p) =~= a5 + h5);
    lemma_placed_split(b, 0, a5, h5);
    lemma_placed_split(b, 0, a4, h4 + p.body);
    lemma_placed_split(b, 0, h0 + h1 + h2, h3);
    lemma_placed_split(b, 0, h0 + h1, h2);
    lemma_placed_split(b, 0, h0, h1);
    lemma_dec_map_head(b, 0, 3);
    lemma_dec_uint_head(b, h0.len() as int, 0, 0xff);
    lemma_dec_uint_head(b, (h0 + h1).len() as int, kind_code(p.kind) as u64, 0xff);
    lemma_dec_uint_head(b, (h0 + h1 + h2).len() as int, 1, 0xff);
    lemma_dec_bytes_head(b, a4.len() as int, p.body);
    lemma_dec_uint_head(b, a5.len() as int, 2, 0xff);
    assert(kind_of(kind_code(p.kind) as u64 as u8) == Some(p.kind));
}

proof fn lemma_entries_len(m: Seq<(u16, Seq<u8>)>)
    ensures
        entries_cbor(m).len() >= m.len(),
    decreases m.len(),
{
    if m.len() > 0 {
        reveal(head);
        lemma_entries_len(m.drop_first());
    }
}

proof fn lemma_decode_from_parts(b: Seq<u8>, p: PayloadView, q6: int, q7: int)
    requires
        p.metadata.len() <= u64::MAX,
        dec_prefix(b) == Some((p.kind, p.body, q6)),
        dec_map(b, q6) == Some((Some(p.metadata.len() as u64), q7)),
        dec_entries(b, q7, p.metadata.len(), None) == Some((p.metadata, b.len() as int)),
    ensures
        decode_cbor(b) == Some(p),
{
}

/// Decoding the canonical CBOR of a payload with increasing metadata keys
/// gives the payload back.
pub proof fn law_payload_cbor_roundtrip(p: PayloadView)
    requires
        keys_increasing(p.metadata),
        payload_cbor(p).len() <= 0xffff_ffff,
    ensures
        decode_cbor(payload_cbor(p)) == Some(p),
{
    let b = payload_cbor(p);
    let pre = payload_prefix(p);
    let h6 = head(0xa0, p.metadata.len() as u64);
    let en = entries_cbor(p.metadata);
    let q6 = pre.len() as int;
    let q7 = (pre + h6).len() as int;
    assert(placed(b, 0, pre) && placed(b, q6, h6) && placed(b, q7, en) && b.len() == q7 + en.len()) by {
        reveal(payload_cbor);
        assert(b.subrange(0, b.len() as int) =~= b);
        lemma_placed_split(b, 0, pre + h6, en);
        lemma_placed_split(b, 0, pre, h6);
    }
    lemma_entries_len(p.metadata);
    lemma_prefix_decodes(b, p);
    lemma_dec_map_head(b, q6, p.metadata.len() as u64);
    lemma_dec_entries(b, q7, p.metadata, None);
    lemma_decode_from_parts(b, p, q6, q7);
}

} // verus!

verus! {

/// A padded payload as `encode_padded` produces it decodes to the payload
/// that was encoded, whatever the padding bytes are.
pub proof fn law_padded_roundtrip(p: PayloadView, out: Seq<u8>)
    requires
        keys_increasing(p.metadata),
        payload_cbor(p).len() + 4 <= MAX_BUCKET,
        out.len() == bucket_for(payload_cbor(p).len()),
        out.subrange(0, 4) == be32(payload_cbor(p).len() as u32),
        out.subrange(4, 4 + payload_cbor(p).len() as int) == payload_cbor(p),
    ensures
        decode_padded_spec(out) == Some(p),
{
    let cbor = payload_cbor(p);
    let len = cbor.len();
    lemma_bucket_bounds(8, len + 4);
    lemma_pow2n_values();
    assert(bucket_ok(out.len()));
    assert(out.subrange(4, 4 + len as int) == cbor);
    assert(len > 0) by {
        reveal(payload_cbor);
        reveal(payload_prefix);
        reveal(head);
    }
    let y = len as u32;
    assert(out[0] == be32(y)[0] && out[1] == be32(y)[1] && out[2] == be32(y)[2] && out[3] == be32(y)[3]) by {
        assert(out.subrange(0, 4)[0] == out[0]);
        assert(out.subrange(0, 4)[1] == out[1]);
        assert(out.subrange(0, 4)[2] == out[2]);
        assert(out.subrange(0, 4)[3] == out[3]);
    }
    assert(((((y / 0x100_0000) as u8) * 0x100 + (((y / 0x1_0000) % 0x100) as u8)) * 0x100
        + (((y / 0x100) % 0x100) as u8)) * 0x100 + ((y % 0x100) as u8) == y) by (bit_vector);
    assert(be32_at(out, 0) == len);
    law_payload_cbor_roundtrip(p);
}

} // verus!
