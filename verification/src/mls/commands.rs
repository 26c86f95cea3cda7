//! Input rules of the stateless MLS commands: size limits, counts and the
//! decoding of base64 arguments and application metadata. The JSON
//! plumbing of the commands reads the raw values and hands them here.
use vstd::prelude::*;

use std::collections::BTreeMap;

use vstd::string::StringExecFns;

use super::application::{kind_of, map_get, ApplicationPayload, PayloadKind};
use super::MlsError;
use crate::primitives::{b64_decode, base64_decoded};

verus! {

/// Largest device identity.
pub const MAX_IDENTITY: usize = 255;
/// Largest group identifier.
pub const MAX_GROUP_ID: usize = 255;
/// Largest key package.
pub const MAX_KEY_PACKAGE: usize = 65536;
/// Largest serialized device or group state.
pub const MAX_STATE: usize = 4194304;
/// Largest Welcome bundle.
pub const MAX_WELCOME: usize = 4194304;
/// Largest application payload.
pub const MAX_APPLICATION: usize = 1048576;
/// Largest MLS private message.
pub const MAX_PRIVATE_MESSAGE: usize = 2097152;
/// Most key packages or identities in one command.
pub const MAX_ITEMS: usize = 1024;
/// Most metadata entries of an application payload.
pub const MAX_METADATA_ENTRIES: usize = 32;
/// Largest metadata value.
pub const MAX_METADATA_VALUE: usize = 65536;

/// Error with `prefix` followed by `key`.
fn prefixed_error(prefix: &str, key: &str) -> (e: MlsError)
    ensures
        e.0@ == prefix@ + key@,
{
    let mut s = prefix.to_owned();
    s.append(key);
    MlsError(s)
}

/// Error with `key` followed by `suffix`.
fn suffixed_error(key: &str, suffix: &str) -> (e: MlsError)
    ensures
        e.0@ == key@ + suffix@,
{
    let mut s = key.to_owned();
    s.append(suffix);
    MlsError(s)
}

/// The outcome of decoding the base64 argument `key` (its text `value`,
/// if it was given as a string), limited to `maximum` bytes.
pub open spec fn decoded_arg(value: Option<Seq<char>>, key: Seq<char>, maximum: nat) -> Result<Seq<u8>, Seq<char>> {
    match value {
        None => Err("missing "@ + key),
        Some(t) => match base64_decoded(t) {
            None => Err("invalid base64 in "@ + key),
            Some(b) => if b.len() > maximum { Err(key + " exceeds maximum length"@) } else { Ok(b) },
        },
    }
}

/// The text of an optional string argument.
pub open spec fn opt_text(value: Option<&str>) -> Option<Seq<char>> {
    match value {
        Some(t) => Some(t@),
        None => None,
    }
}

/// `r` is the outcome `o`, an error carrying its message.
pub open spec fn gives(r: Result<Vec<u8>, MlsError>, o: Result<Seq<u8>, Seq<char>>) -> bool {
    match (r, o) {
        (Ok(v), Ok(w)) => v@ == w,
        (Err(e), Err(m)) => e.0@ == m,
        _ => false,
    }
}

/// Decode the base64 argument `key` of at most `maximum` bytes.
pub fn decode(value: Option<&str>, key: &str, maximum: usize) -> (r: Result<Vec<u8>, MlsError>)
    ensures
        gives(r, decoded_arg(opt_text(value), key@, maximum as nat)),
{
    let text = match value {
        Some(t) => t,
        None => return Err(prefixed_error("missing ", key)),
    };
    let decoded = match b64_decode(text) {
        Ok(b) => b,
        Err(_) => return Err(prefixed_error("invalid base64 in ", key)),
    };
    if decoded.len() > maximum {
        return Err(suffixed_error(key, " exceeds maximum length"));
    }
    Ok(decoded)
}

/// A required non-empty string argument.
pub fn required_string(value: Option<&str>, key: &str) -> (r: Result<String, MlsError>)
    ensures
        match value {
            Some(t) => if t@.len() > 0 { r matches Ok(s) && s@ == t@ } else { r matches Err(e) && e.0@ == "missing "@ + key@ },
            None => r matches Err(e) && e.0@ == "missing "@ + key@,
        },
{
    match value {
        Some(t) => {
            if t.unicode_len() > 0 {
                Ok(t.to_owned())
            } else {
                Err(prefixed_error("missing ", key))
            }
        },
        None => Err(prefixed_error("missing ", key)),
    }
}

/// Require a non-empty decoded value.
pub fn require_nonempty(bytes: Vec<u8>, message: &str) -> (r: Result<Vec<u8>, MlsError>)
    ensures
        bytes@.len() > 0 ==> (r matches Ok(v) && v@ == bytes@),
        bytes@.len() == 0 ==> (r matches Err(e) && e.0@ == message@),
{
    if bytes.len() == 0 {
        return Err(MlsError::msg(message));
    }
    Ok(bytes)
}

/// A list argument holds 1 to 1024 items.
pub fn check_count(n: usize, message: &str) -> (r: Result<(), MlsError>)
    ensures
        r is Ok <==> 1 <= n <= MAX_ITEMS,
        r matches Err(e) ==> e.0@ == message@,
{
    if n == 0 || n > MAX_ITEMS {
        return Err(MlsError::msg(message));
    }
    Ok(())
}

/// One key package of a list: a base64 string of at most 64 KiB.
pub fn key_package_item(value: Option<&str>) -> (r: Result<Vec<u8>, MlsError>)
    ensures
        match opt_text(value) {
            None => r matches Err(e) && e.0@ == "KeyPackage must be base64"@,
            Some(t) => match base64_decoded(t) {
                None => r matches Err(e) && e.0@ == "invalid KeyPackage base64"@,
                Some(b) => if b.len() > MAX_KEY_PACKAGE {
                    r matches Err(e) && e.0@ == "KeyPackage exceeds maximum length"@
                } else {
                    r matches Ok(v) && v@ == b
                },
            },
        },
{
    let text = match value {
        Some(t) => t,
        None => return Err(MlsError::msg("KeyPackage must be base64")),
    };
    let bytes = match b64_decode(text) {
        Ok(b) => b,
        Err(_) => return Err(MlsError::msg("invalid KeyPackage base64")),
    };
    if bytes.len() > MAX_KEY_PACKAGE {
        return Err(MlsError::msg("KeyPackage exceeds maximum length"));
    }
    Ok(bytes)
}

/// One identity of a list: a base64 string of 1 to 255 bytes.
pub fn identity_item(value: Option<&str>) -> (r: Result<Vec<u8>, MlsError>)
    ensures
        match opt_text(value) {
            None => r matches Err(e) && e.0@ == "identity must be base64"@,
            Some(t) => match base64_decoded(t) {
                None => r matches Err(e) && e.0@ == "invalid identity base64"@,
                Some(b) => if b.len() == 0 || b.len() > MAX_IDENTITY {
                    r matches Err(e) && e.0@ == "invalid identity length"@
                } else {
                    r matches Ok(v) && v@ == b
                },
            },
        },
{
    let text = match value {
        Some(t) => t,
        None => return Err(MlsError::msg("identity must be base64")),
    };
    let bytes = match b64_decode(text) {
        Ok(b) => b,
        Err(_) => return Err(MlsError::msg("invalid identity base64")),
    };
    if bytes.len() == 0 || bytes.len() > MAX_IDENTITY {
        return Err(MlsError::msg("invalid identity length"));
    }
    Ok(bytes)
}

/// The application kind argument: an integer that fits in a byte.
pub fn application_kind_number(value: Option<u64>) -> (r: Result<u8, MlsError>)
    ensures
        match value {
            Some(n) => if n <= 255 { r == Ok::<u8, MlsError>(n as u8) } else {
                r matches Err(e) && e.0@ == "invalid application kind"@
            },
            None => r matches Err(e) && e.0@ == "invalid application kind"@,
        },
{
    match value {
        Some(n) => if n <= 255 { Ok(n as u8) } else { Err(MlsError::msg("invalid application kind")) },
        None => Err(MlsError::msg("invalid application kind")),
    }
}

/// The number a run of ASCII digits denotes (none for an empty run or a
/// non-digit).
pub open spec fn digits_value(d: Seq<char>) -> Option<int>
    decreases d.len(),
{
    if d.len() == 0 || !('0' <= d.last() <= '9') {
        None
    } else if d.len() == 1 {
        Some(d.last() as int - '0' as int)
    } else {
        match digits_value(d.drop_last()) {
            Some(v) => Some(10 * v + (d.last() as int - '0' as int)),
            None => None,
        }
    }
}

/// The number a decimal text denotes: an optional `+` followed by one or
/// more ASCII digits (the syntax of `str::parse` for unsigned integers).
pub open spec fn decimal_value(t: Seq<char>) -> Option<int> {
    if t.len() > 0 && t[0] == '+' { digits_value(t.drop_first()) } else { digits_value(t) }
}

proof fn lemma_digits_bad(d: Seq<char>, j: int)
    requires
        0 <= j < d.len(),
        !('0' <= d[j] <= '9'),
    ensures
        digits_value(d) is None,
    decreases d.len(),
{
    if j < d.len() - 1 {
        assert(d.drop_last()[j] == d[j]);
        lemma_digits_bad(d.drop_last(), j);
    }
}

proof fn lemma_digits_nonneg(d: Seq<char>)
    ensures
        digits_value(d) matches Some(v) ==> v >= 0,
    decreases d.len(),
{
    if d.len() > 1 {
        lemma_digits_nonneg(d.drop_last());
    }
}

proof fn lemma_digits_big(d: Seq<char>, j: int)
    requires
        0 < j <= d.len(),
        digits_value(d.subrange(0, j)) matches Some(v) && v > 65535,
    ensures
        digits_value(d) is None || digits_value(d).unwrap() > 65535,
    decreases d.len() - j,
{
    if j < d.len() {
        let p = d.subrange(0, j + 1);
        assert(p.drop_last() =~= d.subrange(0, j));
        if '0' <= d[j] <= '9' {
            lemma_digits_big(d, j + 1);
        } else {
            lemma_digits_bad(d, j);
        }
    } else {
        assert(d.subrange(0, j) =~= d);
    }
}

/// A metadata key: a decimal `u16` (`str::parse::<u16>` syntax).
pub fn metadata_key(key: &str) -> (r: Result<u16, MlsError>)
    ensures
        match decimal_value(key@) {
            Some(v) => if v <= u16::MAX { r == Ok::<u16, MlsError>(v as u16) } else {
                r matches Err(e) && e.0@ == "metadata keys must be u16 integers"@
            },
            None => r matches Err(e) && e.0@ == "metadata keys must be u16 integers"@,
        },
        r matches Ok(k) ==> decimal_value(key@) == Some(k as int),
{
    let n = key.unicode_len();
    let mut start: usize = 0;
    if n > 0 && key.get_char(0) == '+' {
        start = 1;
    }
    let ghost d = key@.subrange(start as int, n as int);
    proof {
        if start == 1 {
            assert(d =~= key@.drop_first());
        } else {
            assert(d =~= key@);
        }
        assert(decimal_value(key@) == digits_value(d));
    }
    if start == n {
        proof {
            assert(d.len() == 0);
        }
        return Err(MlsError::msg("metadata keys must be u16 integers"));
    }
    let mut value: u32 = 0;
    let mut i: usize = start;
    while i < n
        invariant
            n == key@.len(),
            start < n,
            d == key@.subrange(start as int, n as int),
            start <= i <= n,
            i > start ==> digits_value(d.subrange(0, i - start)) == Some(value as int),
            i == start ==> value == 0,
            value <= u16::MAX,
            decimal_value(key@) == digits_value(d),
        decreases n - i,
    {
        let c = key.get_char(i);
        proof {
            assert(d[i - start] == c);
        }
        if !('0' <= c && c <= '9') {
            proof {
                lemma_digits_bad(d, i - start);
            }
            return Err(MlsError::msg("metadata keys must be u16 integers"));
        }
        let next = value * 10 + ((c as u32) - ('0' as u32));
        proof {
            let p = d.subrange(0, i - start + 1);
            assert(p.drop_last() =~= d.subrange(0, i - start));
            assert(p.last() == c);
        }
        if next > 65535 {
            proof {
                lemma_digits_big(d, i - start + 1);
            }
            return Err(MlsError::msg("metadata keys must be u16 integers"));
        }
        value = next;
        i = i + 1;
    }
    proof {
        assert(d.subrange(0, n - start) =~= d);
    }
    Ok(value as u16)
}

/// One metadata value: a base64 string of at most 64 KiB.
pub fn metadata_value(value: Option<&str>) -> (r: Result<Vec<u8>, MlsError>)
    ensures
        match opt_text(value) {
            None => r matches Err(e) && e.0@ == "metadata values must be base64 strings"@,
            Some(t) => match base64_decoded(t) {
                None => r matches Err(e) && e.0@ == "invalid metadata base64"@,
                Some(b) => if b.len() > MAX_METADATA_VALUE {
                    r matches Err(e) && e.0@ == "metadata value is too large"@
                } else {
                    r matches Ok(v) && v@ == b
                },
            },
        },
{
    let text = match value {
        Some(t) => t,
        None => return Err(MlsError::msg("metadata values must be base64 strings")),
    };
    let bytes = match b64_decode(text) {
        Ok(b) => b,
        Err(_) => return Err(MlsError::msg("invalid metadata base64")),
    };
    if bytes.len() > MAX_METADATA_VALUE {
        return Err(MlsError::msg("metadata value is too large"));
    }
    Ok(bytes)
}

/// Why one metadata entry (key text, value if it is a string) is
/// refused, if it is.
pub open spec fn entry_error(e: (String, Option<String>)) -> Option<Seq<char>> {
    match decimal_value(e.0@) {
        None => Some("metadata keys must be u16 integers"@),
        Some(v) => if v > u16::MAX {
            Some("metadata keys must be u16 integers"@)
        } else {
            match e.1 {
                None => Some("metadata values must be base64 strings"@),
                Some(t) => match base64_decoded(t@) {
                    None => Some("invalid metadata base64"@),
                    Some(b) => if b.len() > MAX_METADATA_VALUE { Some("metadata value is too large"@) } else { None },
                },
            }
        },
    }
}

/// The first refused entry's reason, if any.
pub open spec fn entries_error(es: Seq<(String, Option<String>)>) -> Option<Seq<char>>
    decreases es.len(),
{
    if es.len() == 0 {
        None
    } else {
        match entries_error(es.drop_last()) {
            Some(m) => Some(m),
            None => entry_error(es.last()),
        }
    }
}

/// The value the entries give key `k` (a later entry replaces an earlier
/// one with the same key).
pub open spec fn entries_lookup(es: Seq<(String, Option<String>)>, k: u16) -> Option<Seq<u8>>
    decreases es.len(),
{
    if es.len() == 0 {
        None
    } else if decimal_value(es.last().0@) == Some(k as int) {
        base64_decoded(es.last().1.unwrap()@)
    } else {
        entries_lookup(es.drop_last(), k)
    }
}

/// Build the payload of `mls_application_encode` from the kind number, the
/// decoded body, and the metadata object as (key, string value) entries in
/// the object's order (`None` when the argument is absent, `Some(None)`
/// when it is not an object).
pub fn application_payload(
    kind: u8,
    body: Vec<u8>,
    metadata: Option<Option<Vec<(String, Option<String>)>>>,
) -> (r: Result<ApplicationPayload, MlsError>)
    ensures
        match metadata {
            Some(None) => r matches Err(e) && e.0@ == "metadata must be an object"@,
            Some(Some(es)) => if es@.len() > MAX_METADATA_ENTRIES {
                r matches Err(e) && e.0@ == "too many metadata entries"@
            } else if entries_error(es@) is Some {
                r matches Err(e) && e.0@ == entries_error(es@).unwrap()
            } else {
                match kind_of(kind) {
                    None => r matches Err(e) && e.0@ == "unknown application payload kind"@,
                    Some(k) => r matches Ok(p) && p.kind == k && p.body@ == body@
                        && forall|key: u16| #[trigger] map_get(p.metadata@, key) == entries_lookup(es@, key),
                }
            },
            None => match kind_of(kind) {
                None => r matches Err(e) && e.0@ == "unknown application payload kind"@,
                Some(k) => r matches Ok(p) && p.kind == k && p.body@ == body@ && p.metadata@ == Map::<u16, Vec<u8>>::empty(),
            },
        },
{
    let mut payload = ApplicationPayload { kind: PayloadKind::Text, body: Vec::new(), metadata: BTreeMap::new() };
    match metadata {
        None => {},
        Some(None) => return Err(MlsError::msg("metadata must be an object")),
        Some(Some(entries)) => {
            if entries.len() > MAX_METADATA_ENTRIES {
                return Err(MlsError::msg("too many metadata entries"));
            }
            let mut i: usize = 0;
            while i < entries.len()
                invariant
                    i <= entries@.len(),
                    entries@.len() <= MAX_METADATA_ENTRIES,
                    metadata == Some(Some(entries)),
                    entries_error(entries@.subrange(0, i as int)) is None,
                    forall|key: u16| #[trigger] map_get(payload.metadata@, key) == entries_lookup(entries@.subrange(0, i as int), key),
                decreases entries@.len() - i,
            {
                let ghost pre = entries@.subrange(0, i as int + 1);
                proof {
                    assert(pre.drop_last() =~= entries@.subrange(0, i as int));
                    assert(pre.last() == entries@[i as int]);
                }
                let key = match metadata_key(entries[i].0.as_str()) {
                    Ok(k) => k,
                    Err(e) => {
                        proof {
                            assert(entry_error(entries@[i as int]) == Some(e.0@));
                            lemma_entries_error_at(entries@, i as int);
                        }
                        return Err(e);
                    },
                };
                let value = match &entries[i].1 {
                    Some(t) => metadata_value(Some(t.as_str())),
                    None => metadata_value(None),
                };
                let value = match value {
                    Ok(v) => v,
                    Err(e) => {
                        proof {
                            assert(entry_error(entries@[i as int]) == Some(e.0@));
                            lemma_entries_error_at(entries@, i as int);
                        }
                        return Err(e);
                    },
                };
                let ghost before = payload.metadata@;
                let ghost value_view = value@;
                payload.metadata.insert(key, value);
                proof {
                    assert(decimal_value(pre.last().0@) == Some(key as int));
                    assert(base64_decoded(pre.last().1.unwrap()@) == Some(value_view));
                    assert forall|k: u16| #[trigger] map_get(payload.metadata@, k) == entries_lookup(pre, k) by {
                        if k == key {
                        } else {
                            assert(map_get(payload.metadata@, k) == map_get(before, k));
                        }
                    }
                }
                i = i + 1;
            }
            assert(entries@.subrange(0, entries@.len() as int) =~= entries@);
        },
    }
    let k = PayloadKind::try_from(kind)?;
    payload.kind = k;
    payload.body = body;
    Ok(payload)
}

/// The first refused entry decides the error once the entries before it
/// are all accepted.
proof fn lemma_entries_error_at(es: Seq<(String, Option<String>)>, i: int)
    requires
        0 <= i < es.len(),
        entries_error(es.subrange(0, i)) is None,
        entry_error(es[i]) is Some,
    ensures
        entries_error(es) == entry_error(es[i]),
    decreases es.len() - i,
{
    let pre = es.subrange(0, i + 1);
    assert(pre.drop_last() =~= es.subrange(0, i));
    if i + 1 == es.len() {
        assert(pre =~= es);
    } else {
        lemma_entries_error_prefix(es, i + 1);
    }
}

/// Once a prefix reports an error, so does the whole list.
proof fn lemma_entries_error_prefix(es: Seq<(String, Option<String>)>, n: int)
    requires
        0 < n <= es.len(),
        entries_error(es.subrange(0, n)) is Some,
    ensures
        entries_error(es) == entries_error(es.subrange(0, n)),
    decreases es.len() - n,
{
    if n == es.len() {
        assert(es.subrange(0, n) =~= es);
    } else {
        let pre = es.subrange(0, n + 1);
        assert(pre.drop_last() =~= es.subrange(0, n));
        lemma_entries_error_prefix(es, n + 1);
    }
}

} // verus!
