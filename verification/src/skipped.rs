//! The store of skipped Double Ratchet message keys: a list of entries with
//! pairwise distinct `(ratchet public key, message number)` keys, viewed as
//! a map from that key to the message key.
use vstd::prelude::*;

use crate::bytes::str_eq;

verus! {

/// One skipped message key.
#[derive(Clone, Debug)]
pub struct SkippedKey {
    pub dh_pub_b64: String,
    pub n: u32,
    pub mk: [u8; 32],
}

/// The map key of a skipped entry.
pub open spec fn entry_key(e: SkippedKey) -> (Seq<char>, u32) {
    (e.dh_pub_b64@, e.n)
}

/// No two entries share a key.
pub open spec fn keys_distinct(s: Seq<SkippedKey>) -> bool {
    forall|i: int, j: int| 0 <= i < s.len() && 0 <= j < s.len() && i != j ==>
        entry_key(#[trigger] s[i]) != entry_key(#[trigger] s[j])
}

/// Some entry has key `k`.
pub open spec fn has_key(s: Seq<SkippedKey>, k: (Seq<char>, u32)) -> bool {
    exists|i: int| 0 <= i < s.len() && entry_key(#[trigger] s[i]) == k
}

/// The entries as a map from key to message key.
pub open spec fn skipped_map(s: Seq<SkippedKey>) -> Map<(Seq<char>, u32), Seq<u8>> {
    Map::new(
        |k: (Seq<char>, u32)| has_key(s, k),
        |k: (Seq<char>, u32)| s[choose|i: int| 0 <= i < s.len() && entry_key(#[trigger] s[i]) == k].mk@,
    )
}

pub proof fn lemma_lookup(s: Seq<SkippedKey>, i: int)
    requires
        keys_distinct(s),
        0 <= i < s.len(),
    ensures
        skipped_map(s).dom().contains(entry_key(s[i])),
        skipped_map(s)[entry_key(s[i])] == s[i].mk@,
{
    let k = entry_key(s[i]);
    assert(has_key(s, k));
    let j = choose|j: int| 0 <= j < s.len() && entry_key(#[trigger] s[j]) == k;
    assert(j == i);
}

pub proof fn lemma_remove(s: Seq<SkippedKey>, i: int)
    requires
        keys_distinct(s),
        0 <= i < s.len(),
    ensures
        keys_distinct(s.remove(i)),
        skipped_map(s.remove(i)) == skipped_map(s).remove(entry_key(s[i])),
{
    let r = s.remove(i);
    let k = entry_key(s[i]);
    assert forall|a: int, b: int| 0 <= a < r.len() && 0 <= b < r.len() && a != b implies
        entry_key(#[trigger] r[a]) != entry_key(#[trigger] r[b]) by {
        let a2 = if a < i { a } else { a + 1 };
        let b2 = if b < i { b } else { b + 1 };
        assert(r[a] == s[a2]);
        assert(r[b] == s[b2]);
    }
    assert forall|q: (Seq<char>, u32)| has_key(r, q) <==> (has_key(s, q) && q != k) by {
        if has_key(r, q) {
            let a = choose|a: int| 0 <= a < r.len() && entry_key(#[trigger] r[a]) == q;
            let a2 = if a < i { a } else { a + 1 };
            assert(r[a] == s[a2]);
            assert(a2 != i);
        }
        if has_key(s, q) && q != k {
            let a = choose|a: int| 0 <= a < s.len() && entry_key(#[trigger] s[a]) == q;
            assert(a != i);
            let a2 = if a < i { a } else { a - 1 };
            assert(r[a2] == s[a]);
        }
    }
    assert forall|q: (Seq<char>, u32)| has_key(r, q) implies skipped_map(r)[q] == skipped_map(s)[q] by {
        let a = choose|a: int| 0 <= a < r.len() && entry_key(#[trigger] r[a]) == q;
        let a2 = if a < i { a } else { a + 1 };
        assert(r[a] == s[a2]);
        lemma_lookup(r, a);
        lemma_lookup(s, a2);
    }
    assert(skipped_map(r) =~= skipped_map(s).remove(k));
}

pub proof fn lemma_push(s: Seq<SkippedKey>, e: SkippedKey)
    requires
        keys_distinct(s),
        !has_key(s, entry_key(e)),
    ensures
        keys_distinct(s.push(e)),
        skipped_map(s.push(e)) == skipped_map(s).insert(entry_key(e), e.mk@),
{
    let r = s.push(e);
    let k = entry_key(e);
    assert forall|a: int, b: int| 0 <= a < r.len() && 0 <= b < r.len() && a != b implies
        entry_key(#[trigger] r[a]) != entry_key(#[trigger] r[b]) by {
        if a == s.len() {
            assert(r[b] == s[b]);
        } else if b == s.len() {
            assert(r[a] == s[a]);
        } else {
            assert(r[a] == s[a]);
            assert(r[b] == s[b]);
        }
    }
    assert forall|q: (Seq<char>, u32)| has_key(r, q) <==> (has_key(s, q) || q == k) by {
        if has_key(r, q) {
            let a = choose|a: int| 0 <= a < r.len() && entry_key(#[trigger] r[a]) == q;
            if a < s.len() {
                assert(r[a] == s[a]);
            }
        }
        if has_key(s, q) {
            let a = choose|a: int| 0 <= a < s.len() && entry_key(#[trigger] s[a]) == q;
            assert(r[a] == s[a]);
        }
        if q == k {
            assert(r[s.len() as int] == e);
        }
    }
    assert forall|q: (Seq<char>, u32)| has_key(r, q) implies
        skipped_map(r)[q] == skipped_map(s).insert(k, e.mk@)[q] by {
        let a = choose|a: int| 0 <= a < r.len() && entry_key(#[trigger] r[a]) == q;
        lemma_lookup(r, a);
        if a < s.len() {
            assert(r[a] == s[a]);
            lemma_lookup(s, a);
        } else {
            assert(r[a] == e);
        }
    }
    assert(skipped_map(r) =~= skipped_map(s).insert(k, e.mk@));
}

pub proof fn lemma_update(s: Seq<SkippedKey>, i: int, e: SkippedKey)
    requires
        keys_distinct(s),
        0 <= i < s.len(),
        entry_key(s[i]) == entry_key(e),
    ensures
        keys_distinct(s.update(i, e)),
        skipped_map(s.update(i, e)) == skipped_map(s).insert(entry_key(e), e.mk@),
{
    let r = s.update(i, e);
    let k = entry_key(e);
    assert forall|a: int, b: int| 0 <= a < r.len() && 0 <= b < r.len() && a != b implies
        entry_key(#[trigger] r[a]) != entry_key(#[trigger] r[b]) by {
        assert(entry_key(r[a]) == entry_key(s[a]));
        assert(entry_key(r[b]) == entry_key(s[b]));
    }
    assert forall|q: (Seq<char>, u32)| has_key(r, q) <==> has_key(s, q) by {
        if has_key(r, q) {
            let a = choose|a: int| 0 <= a < r.len() && entry_key(#[trigger] r[a]) == q;
            assert(entry_key(r[a]) == entry_key(s[a]));
        }
        if has_key(s, q) {
            let a = choose|a: int| 0 <= a < s.len() && entry_key(#[trigger] s[a]) == q;
            assert(entry_key(r[a]) == entry_key(s[a]));
        }
    }
    lemma_lookup(s, i);
    assert forall|q: (Seq<char>, u32)| has_key(r, q) implies
        skipped_map(r)[q] == skipped_map(s).insert(k, e.mk@)[q] by {
        let a = choose|a: int| 0 <= a < r.len() && entry_key(#[trigger] r[a]) == q;
        lemma_lookup(r, a);
        if a != i {
            assert(r[a] == s[a]);
            lemma_lookup(s, a);
        }
    }
    assert(skipped_map(r) =~= skipped_map(s).insert(k, e.mk@));
}

/// Index of the entry with key `(dh_pub_b64, n)`, if any.
pub fn find_skipped(s: &Vec<SkippedKey>, dh_pub_b64: &str, n: u32) -> (r: Option<usize>)
    ensures
        match r {
            Some(i) => i < s@.len() && entry_key(s@[i as int]) == (dh_pub_b64@, n),
            None => !has_key(s@, (dh_pub_b64@, n)),
        },
{
    let mut i: usize = 0;
    while i < s.len()
        invariant
            i <= s@.len(),
            forall|j: int| 0 <= j < i ==> entry_key(#[trigger] s@[j]) != (dh_pub_b64@, n),
        decreases s@.len() - i,
    {
        if s[i].n == n && str_eq(s[i].dh_pub_b64.as_str(), dh_pub_b64) {
            return Some(i);
        }
        i = i + 1;
    }
    None
}

/// Insert or replace the message key for `(dh_pub_b64, n)`.
pub fn insert_skipped(s: &mut Vec<SkippedKey>, dh_pub_b64: String, n: u32, mk: [u8; 32])
    requires
        keys_distinct(old(s)@),
    ensures
        keys_distinct(final(s)@),
        skipped_map(final(s)@) == skipped_map(old(s)@).insert((dh_pub_b64@, n), mk@),
{
    let e = SkippedKey { dh_pub_b64, n, mk };
    match find_skipped(s, e.dh_pub_b64.as_str(), n) {
        Some(i) => {
            proof {
                lemma_update(s@, i as int, e);
            }
            s.set(i, e);
        },
        None => {
            proof {
                lemma_push(s@, e);
            }
            s.push(e);
        },
    }
}

} // verus!
