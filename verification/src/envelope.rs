//! Wire envelope of E2EE v2 messages, the wire-format version and the
//! replay window.
use vstd::prelude::*;

use crate::bytes::str_eq;
use crate::error::E2eError;
use crate::ratchet::RatchetHeader;
use crate::sender_keys::SenderKeyHeader;

verus! {

/// Wire-format version carried in message `properties.e2e_ver`.
#[derive(Debug, Clone, Copy, PartialEq, Eq)]
pub enum E2eVersion {
    V1,
    V2,
}

impl E2eVersion {
    /// The version with number `value`.
    pub fn try_from(value: u8) -> (r: Result<E2eVersion, E2eError>)
        ensures
            value == 1 ==> r == Ok::<E2eVersion, E2eError>(E2eVersion::V1),
            value == 2 ==> r == Ok::<E2eVersion, E2eError>(E2eVersion::V2),
            value != 1 && value != 2 ==> r == Err::<E2eVersion, E2eError>(E2eError::UnsupportedVersion(value)),
    {
        if value == 1 {
            Ok(E2eVersion::V1)
        } else if value == 2 {
            Ok(E2eVersion::V2)
        } else {
            Err(E2eError::UnsupportedVersion(value))
        }
    }

    /// Number of the version.
    pub fn to_u8(self) -> (n: u8)
        ensures
            self == E2eVersion::V1 ==> n == 1,
            self == E2eVersion::V2 ==> n == 2,
    {
        match self {
            E2eVersion::V1 => 1,
            E2eVersion::V2 => 2,
        }
    }
}

/// Body of a v2 envelope, tagged by algorithm (`DR+AES-GCM` or `SK+AES-GCM`).
#[derive(Debug, Clone)]
pub enum EnvelopeV2Body {
    DoubleRatchet { header: RatchetHeader, ciphertext_b64: String },
    SenderKey { header: SenderKeyHeader, ciphertext_b64: String, gid: i64 },
}

/// A v2 envelope.
#[derive(Debug, Clone)]
pub struct EnvelopeV2 {
    pub v: u8,
    pub sender_device_id: String,
    pub body: EnvelopeV2Body,
}

impl EnvelopeV2 {
    /// Accept a parsed envelope only if it declares version 2.
    pub fn check_version(env: EnvelopeV2) -> (r: Result<EnvelopeV2, E2eError>)
        ensures
            env.v == 2 ==> (r matches Ok(e) && e.v == 2 && e.sender_device_id@ == env.sender_device_id@),
            env.v != 2 ==> r == Err::<EnvelopeV2, E2eError>(E2eError::UnsupportedVersion(env.v)),
    {
        if env.v != 2 {
            return Err(E2eError::UnsupportedVersion(env.v));
        }
        Ok(env)
    }
}

/// Replay window over message keys such as `(sender_device, n)` or
/// `(skid, iteration)`. When it holds `capacity` keys it forgets them all
/// before recording the next one.
pub struct ReplayWindow {
    seen: Vec<String>,
    capacity: usize,
}

/// The keys of a list as a set of texts.
pub open spec fn key_set(s: Seq<String>) -> Set<Seq<char>> {
    Set::new(|k: Seq<char>| exists|i: int| 0 <= i < s.len() && (#[trigger] s[i])@ == k)
}

/// No key occurs twice in the list.
pub open spec fn no_repeats(s: Seq<String>) -> bool {
    forall|i: int, j: int| 0 <= i < j < s.len() ==> (#[trigger] s[i])@ != (#[trigger] s[j])@
}

/// A list without repeats has as many distinct keys as entries.
proof fn lemma_key_set_len(s: Seq<String>)
    requires
        no_repeats(s),
    ensures
        key_set(s).finite(),
        key_set(s).len() == s.len(),
    decreases s.len(),
{
    if s.len() == 0 {
        assert(key_set(s) =~= Set::<Seq<char>>::empty());
    } else {
        let init = s.drop_last();
        assert(no_repeats(init)) by {
            assert forall|i: int, j: int| 0 <= i < j < init.len() implies (#[trigger] init[i])@ != (#[trigger] init[j])@ by {
                assert(init[i] == s[i] && init[j] == s[j]);
            }
        }
        lemma_key_set_len(init);
        assert(key_set(s) =~= key_set(init).insert(s.last()@)) by {
            assert forall|k: Seq<char>| key_set(s).contains(k) implies key_set(init).insert(s.last()@).contains(k) by {
                let j = choose|j: int| 0 <= j < s.len() && (#[trigger] s[j])@ == k;
                if j < init.len() {
                    assert(init[j] == s[j]);
                }
            }
            assert forall|k: Seq<char>| key_set(init).insert(s.last()@).contains(k) implies key_set(s).contains(k) by {
                if k == s.last()@ {
                    assert(s[s.len() - 1]@ == k);
                } else {
                    let j = choose|j: int| 0 <= j < init.len() && (#[trigger] init[j])@ == k;
                    assert(s[j] == init[j]);
                }
            }
        }
        assert(!key_set(init).contains(s.last()@)) by {
            if key_set(init).contains(s.last()@) {
                let j = choose|j: int| 0 <= j < init.len() && (#[trigger] init[j])@ == s.last()@;
                assert(s[j] == init[j]);
                assert(s[j]@ != s[s.len() - 1]@);
            }
        }
    }
}

impl ReplayWindow {
    /// In a well-formed window the number of recorded keys is the size of
    /// the set of recorded keys.
    pub proof fn lemma_count_is_key_count(&self)
        requires
            self.wf(),
        ensures
            self.keys().finite(),
            self.count() == self.keys().len(),
    {
        lemma_key_set_len(self.seen@);
    }

    /// Recorded keys.
    pub closed spec fn keys(&self) -> Set<Seq<char>> {
        key_set(self.seen@)
    }

    /// Number of recorded keys.
    pub closed spec fn count(&self) -> nat {
        self.seen@.len()
    }

    /// Capacity of the window.
    pub closed spec fn cap(&self) -> nat {
        self.capacity as nat
    }

    /// Each key is recorded once.
    pub closed spec fn wf(&self) -> bool {
        no_repeats(self.seen@)
    }

    /// An empty window holding up to `capacity` keys.
    pub fn new(capacity: usize) -> (w: ReplayWindow)
        ensures
            w.wf(),
            w.keys() == Set::<Seq<char>>::empty(),
            w.count() == 0,
            w.cap() == capacity,
    {
        let w = ReplayWindow { seen: Vec::new(), capacity };
        assert(key_set(w.seen@) =~= Set::<Seq<char>>::empty());
        w
    }

    /// Refuse a key seen before; otherwise record it (forgetting all keys
    /// first when the window is full).
    pub fn check_and_record(&mut self, key: String) -> (r: Result<(), E2eError>)
        requires
            old(self).wf(),
        ensures
            final(self).wf(),
            final(self).cap() == old(self).cap(),
            old(self).keys().contains(key@) ==> r == Err::<(), E2eError>(E2eError::Replay(0))
                && final(self).keys() == old(self).keys() && final(self).count() == old(self).count(),
            !old(self).keys().contains(key@) && old(self).count() >= old(self).cap() ==> r is Ok
                && final(self).keys() == set![key@] && final(self).count() == 1,
            !old(self).keys().contains(key@) && old(self).count() < old(self).cap() ==> r is Ok
                && final(self).keys() == old(self).keys().insert(key@) && final(self).count() == old(self).count() + 1,
    {
        let mut i: usize = 0;
        while i < self.seen.len()
            invariant
                i <= self.seen@.len(),
                no_repeats(self.seen@),
                self.seen@ == old(self).seen@,
                self.capacity == old(self).capacity,
                forall|j: int| 0 <= j < i ==> (#[trigger] self.seen@[j])@ != key@,
            decreases self.seen@.len() - i,
        {
            if str_eq(self.seen[i].as_str(), key.as_str()) {
                assert(key_set(self.seen@).contains(key@));
                return Err(E2eError::Replay(0));
            }
            i = i + 1;
        }
        assert(!key_set(self.seen@).contains(key@));
        if self.seen.len() >= self.capacity {
            self.seen.clear();
        }
        let ghost before = self.seen@;
        self.seen.push(key);
        assert(key_set(self.seen@) =~= key_set(before).insert(key@)) by {
            assert forall|k: Seq<char>| key_set(self.seen@).contains(k) implies key_set(before).insert(key@).contains(k) by {
                let j = choose|j: int| 0 <= j < self.seen@.len() && (#[trigger] self.seen@[j])@ == k;
                if j < before.len() {
                    assert(self.seen@[j] == before[j]);
                }
            }
            assert forall|k: Seq<char>| key_set(before).insert(key@).contains(k) implies key_set(self.seen@).contains(k) by {
                if k == key@ {
                    assert(self.seen@[before.len() as int]@ == k);
                } else {
                    let j = choose|j: int| 0 <= j < before.len() && (#[trigger] before[j])@ == k;
                    assert(self.seen@[j] == before[j]);
                }
            }
        }
        assert(before.len() == 0 ==> key_set(before) =~= Set::<Seq<char>>::empty());
        assert(no_repeats(self.seen@)) by {
            assert forall|a: int, b: int| 0 <= a < b < self.seen@.len() implies (#[trigger] self.seen@[a])@ != (#[trigger] self.seen@[b])@ by {
                assert(self.seen@[a] == before[a]);
                if b < before.len() {
                    assert(self.seen@[b] == before[b]);
                } else {
                    assert(key_set(before).contains(before[a]@));
                }
            }
        }
        Ok(())
    }
}

} // verus!
