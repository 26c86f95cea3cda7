//! Decisions taken when the server sends a chat message: whether E2EE is
//! required, who a group message goes to, which devices are notified and
//! with what text, and how the merged (latest edited) message changes.
//! The server's user and group cache supplies plain values here.
use vstd::prelude::*;

use vstd::string::{StringExecFns, StrSliceExecFns};

use crate::bytes::{decimal_text, push_decimal_text, str_eq};
use crate::e2e_api::e2e_flag;
use crate::message::{
    chars_of, e2ee_v2_content_type, sent_content, ChatMessageContent, ChatMessagePayload, MergedMessagePayload,
    MessageDetail, MessageReactionDetail,
};

verus! {

/// Whether a send may go ahead without E2EE.
#[derive(Debug, Clone, Copy, PartialEq, Eq)]
pub enum E2eRequirement {
    /// The send is allowed.
    Allowed,
    /// The send is refused with `E2E_REQUIRED` (403).
    Required,
    /// The DM or group setting decides (see [`required_by_setting`]).
    BySetting,
}

/// Decide whether a send must be E2EE-encrypted, given whether the server
/// runs E2EE protocol generation 2 or later.
pub fn e2e_requirement(generation_two: bool, payload: &ChatMessagePayload) -> (r: E2eRequirement)
    ensures
        r == match sent_content(*payload) {
            None => if generation_two { E2eRequirement::Required } else { E2eRequirement::Allowed },
            Some(c) => if c.content_type@ == e2ee_v2_content_type() {
                E2eRequirement::Allowed
            } else if generation_two {
                E2eRequirement::Required
            } else {
                E2eRequirement::BySetting
            },
        },
{
    let content = match &payload.detail {
        MessageDetail::Normal(n) => &n.content,
        MessageDetail::Reply(r) => &r.content,
        MessageDetail::Reaction(re) => match &re.detail {
            MessageReactionDetail::Edit(e) => &e.content,
            _ => return if generation_two { E2eRequirement::Required } else { E2eRequirement::Allowed },
        },
    };
    if str_eq(content.content_type.as_str(), crate::e2ee_v2::CONTENT_TYPE) {
        return E2eRequirement::Allowed;
    }
    if generation_two { E2eRequirement::Required } else { E2eRequirement::BySetting }
}

/// E2EE is required unless the conversation's setting (if stored) turns it
/// off.
pub fn required_by_setting(setting: Option<bool>) -> (b: bool)
    ensures
        b == match setting { Some(v) => v, None => true },
{
    match setting {
        Some(v) => v,
        None => true,
    }
}

/// `x` occurs in `v`.
pub open spec fn listed(v: Seq<i64>, x: i64) -> bool {
    exists|i: int| 0 <= i < v.len() && v[i] == x
}

fn contains_i64(v: &Vec<i64>, x: i64) -> (b: bool)
    ensures
        b == listed(v@, x),
{
    let mut i: usize = 0;
    while i < v.len()
        invariant
            i <= v@.len(),
            forall|j: int| 0 <= j < i ==> v@[j] != x,
        decreases v@.len() - i,
    {
        if v[i] == x {
            return true;
        }
        i = i + 1;
    }
    false
}

/// A group message is refused (403) when the group is private and the
/// sender is not a member; otherwise it goes to the members of a private
/// group, or to every user for a public one.
pub fn group_send_targets(is_public: bool, members: &Vec<i64>, all_users: &Vec<i64>, from_uid: i64) -> (r: Option<Vec<i64>>)
    ensures
        !is_public && !listed(members@, from_uid) ==> r is None,
        !is_public && listed(members@, from_uid) ==> (r matches Some(t) && t@ == members@),
        is_public ==> (r matches Some(t) && t@ == all_users@),
{
    if is_public {
        return Some(all_users.clone());
    }
    if !contains_i64(members, from_uid) {
        return None;
    }
    Some(members.clone())
}

/// A user a group message may notify: whether the account is in normal
/// status, whether it muted the group, and its devices' push tokens.
#[derive(Debug, Clone)]
pub struct NotifyCandidate {
    pub uid: i64,
    pub normal: bool,
    pub group_muted: bool,
    pub device_tokens: Vec<String>,
}

/// The candidate is notified: not the sender, in normal status, and
/// mentioned or not muting the group.
pub open spec fn notified(c: NotifyCandidate, from_uid: i64, mentions: Seq<i64>) -> bool {
    c.uid != from_uid && c.normal && (listed(mentions, c.uid) || !c.group_muted)
}

/// The push tokens of the notified candidates, in order.
pub open spec fn notify_tokens_spec(cs: Seq<NotifyCandidate>, from_uid: i64, mentions: Seq<i64>) -> Seq<Seq<char>>
    decreases cs.len(),
{
    if cs.len() == 0 {
        Seq::empty()
    } else {
        let rest = notify_tokens_spec(cs.drop_last(), from_uid, mentions);
        if notified(cs.last(), from_uid, mentions) {
            rest + cs.last().device_tokens@.map_values(|t: String| t@)
        } else {
            rest
        }
    }
}

/// Push tokens a group message is sent to.
pub fn group_notify_tokens(candidates: &Vec<NotifyCandidate>, from_uid: i64, mentions: &Vec<i64>) -> (r: Vec<String>)
    ensures
        r@.map_values(|t: String| t@) == notify_tokens_spec(candidates@, from_uid, mentions@),
{
    let mut out: Vec<String> = Vec::new();
    let mut i: usize = 0;
    while i < candidates.len()
        invariant
            i <= candidates@.len(),
            out@.map_values(|t: String| t@) == notify_tokens_spec(candidates@.subrange(0, i as int), from_uid, mentions@),
        decreases candidates@.len() - i,
    {
        let c = &candidates[i];
        let ghost pre = candidates@.subrange(0, i as int + 1);
        proof {
            assert(pre.drop_last() =~= candidates@.subrange(0, i as int));
            assert(pre.last() == candidates@[i as int]);
        }
        if c.uid != from_uid && c.normal && (contains_i64(mentions, c.uid) || !c.group_muted) {
            let mut k: usize = 0;
            let ghost start = out@.map_values(|t: String| t@);
            while k < c.device_tokens.len()
                invariant
                    k <= c.device_tokens@.len(),
                    out@.map_values(|t: String| t@) == start + c.device_tokens@.subrange(0, k as int).map_values(|t: String| t@),
                decreases c.device_tokens@.len() - k,
            {
                let ghost before = out@;
                out.push(c.device_tokens[k].clone());
                proof {
                    assert(out@.map_values(|t: String| t@) =~= before.map_values(|t: String| t@).push(c.device_tokens@[k as int]@));
                    assert(c.device_tokens@.subrange(0, k as int + 1).map_values(|t: String| t@)
                        =~= c.device_tokens@.subrange(0, k as int).map_values(|t: String| t@).push(c.device_tokens@[k as int]@));
                }
                k = k + 1;
            }
            proof {
                assert(c.device_tokens@.subrange(0, k as int) =~= c.device_tokens@);
            }
        }
        i = i + 1;
    }
    proof {
        assert(candidates@.subrange(0, candidates@.len() as int) =~= candidates@);
    }
    out
}

/// Push tokens a direct message is sent to: none when the recipient muted
/// the sender.
pub fn dm_notify_tokens(recipient_muted_sender: bool, recipient_tokens: &Vec<String>) -> (r: Vec<String>)
    ensures
        recipient_muted_sender ==> r@.len() == 0,
        !recipient_muted_sender ==> r@ == recipient_tokens@,
{
    if recipient_muted_sender { Vec::new() } else { recipient_tokens.clone() }
}

/// Decimal text of an integer, with a leading `-` when negative.
pub open spec fn int_text(n: int) -> Seq<char> {
    if n < 0 { "-"@ + decimal_text((-n) as nat) } else { decimal_text(n as nat) }
}

fn push_int_text(out: &mut String, n: i64)
    ensures
        final(out)@ == old(out)@ + int_text(n as int),
{
    if n < 0 {
        out.append("-");
        let magnitude: u64 = if n == i64::MIN { 0x8000_0000_0000_0000 } else { (-n) as u64 };
        push_decimal_text(out, magnitude);
        proof {
            assert(old(out)@ + "-"@ + decimal_text(magnitude as nat) =~= old(out)@ + int_text(n as int));
        }
    } else {
        push_decimal_text(out, n as u64);
    }
}

/// `h` with every non-overlapping occurrence of the non-empty `p`, scanned
/// from the left, replaced by `t` (as `str::replace`).
pub open spec fn replaced(h: Seq<char>, p: Seq<char>, t: Seq<char>) -> Seq<char>
    decreases h.len(),
{
    if p.len() == 0 || h.len() < p.len() {
        h
    } else if h.subrange(0, p.len() as int) == p {
        t + replaced(h.subrange(p.len() as int, h.len() as int), p, t)
    } else {
        seq![h[0]] + replaced(h.subrange(1, h.len() as int), p, t)
    }
}

/// Replace every occurrence of the non-empty `pattern` in `text` by
/// `replacement`, scanning from the left.
pub fn replace_all(text: &str, pattern: &str, replacement: &str) -> (r: String)
    requires
        pattern@.len() > 0,
    ensures
        r@ == replaced(text@, pattern@, replacement@),
{
    let h = chars_of(text);
    let p = chars_of(pattern);
    let n = h.len();
    let mut out = String::new();
    let mut i: usize = 0;
    proof {
        assert(text@.subrange(0, n as int) =~= text@);
        assert(out@ + replaced(text@, pattern@, replacement@) =~= replaced(text@, pattern@, replacement@));
    }
    while i < n
        invariant
            h@ == text@,
            p@ == pattern@,
            p@.len() > 0,
            n == h@.len(),
            i <= n,
            out@ + replaced(text@.subrange(i as int, n as int), pattern@, replacement@) == replaced(text@, pattern@, replacement@),
        decreases n - i,
    {
        let ghost rest = text@.subrange(i as int, n as int);
        let mut is_match = p.len() <= n - i;
        if is_match {
            let mut j: usize = 0;
            while j < p.len()
                invariant
                    h@ == text@,
                    p@ == pattern@,
                    n == h@.len(),
                    i + p@.len() <= n,
                    j <= p@.len(),
                    is_match == (forall|k: int| 0 <= k < j ==> h@[i + k] == p@[k]),
                decreases p@.len() - j,
            {
                if h[i + j] != p[j] {
                    is_match = false;
                }
                j = j + 1;
            }
        }
        if is_match {
            proof {
                assert(rest.subrange(0, p@.len() as int) =~= p@);
                assert(rest.subrange(p@.len() as int, rest.len() as int) =~= text@.subrange(i + p@.len(), n as int));
                assert(out@ + replacement@ + replaced(text@.subrange(i + p@.len(), n as int), pattern@, replacement@)
                    =~= out@ + replaced(rest, pattern@, replacement@));
            }
            out.append(replacement);
            i = i + p.len();
        } else {
            proof {
                if rest.len() >= p@.len() {
                    assert(i + p@.len() <= n);
                    if rest.subrange(0, p@.len() as int) == p@ {
                        assert forall|k: int| 0 <= k < p@.len() implies h@[i + k] == p@[k] by {
                            assert(rest.subrange(0, p@.len() as int)[k] == rest[k]);
                        }
                        assert(false);
                    }
                    assert(rest.subrange(1, rest.len() as int) =~= text@.subrange(i + 1, n as int));
                } else {
                    assert(rest.subrange(1, rest.len() as int) =~= text@.subrange(i + 1, n as int));
                    assert(replaced(rest, pattern@, replacement@) == rest);
                    assert(replaced(text@.subrange(i + 1, n as int), pattern@, replacement@) == text@.subrange(i + 1, n as int));
                    assert(rest =~= seq![text@[i as int]] + text@.subrange(i + 1, n as int));
                }
                assert(out@ + seq![text@[i as int]] + replaced(text@.subrange(i + 1, n as int), pattern@, replacement@)
                    =~= out@ + replaced(rest, pattern@, replacement@));
            }
            out.append(text.substring_char(i, i + 1));
            i = i + 1;
        }
    }
    proof {
        assert(text@.subrange(n as int, n as int) =~= Seq::<char>::empty());
        assert(out@ + Seq::<char>::empty() =~= out@);
    }
    out
}

/// Replace each mention ` @{uid} ` by ` @{name} `, in the order given.
pub open spec fn mentions_replaced(text: Seq<char>, names: Seq<(i64, String)>) -> Seq<char>
    decreases names.len(),
{
    if names.len() == 0 {
        text
    } else {
        let before = mentions_replaced(text, names.drop_last());
        replaced(before, " @"@ + int_text(names.last().0 as int) + " "@, " @"@ + names.last().1@ + " "@)
    }
}

/// The push notification text of a message content, with the names of
/// the mentioned users that exist (uid and name, in mention order).
pub open spec fn content_notify_text(c: ChatMessageContent, names: Seq<(i64, String)>) -> Option<Seq<char>> {
    if c.content_type@ == "text/plain"@ {
        Some(mentions_replaced(c.content@, names))
    } else if c.content_type@ == "text/markdown"@ || c.content_type@ == e2ee_v2_content_type() {
        Some("You have a new message"@)
    } else if c.content_type@ == "vocechat/file"@ {
        Some("You have a new file"@)
    } else if e2e_flag(c.properties) {
        Some("You have a new message"@)
    } else {
        None
    }
}

fn mention_text(uid: i64, name: &str) -> (r: (String, String))
    ensures
        r.0@ == " @"@ + int_text(uid as int) + " "@,
        r.1@ == " @"@ + name@ + " "@,
{
    let mut from = " @".to_owned();
    push_int_text(&mut from, uid);
    from.append(" ");
    let mut to = " @".to_owned();
    to.append(name);
    to.append(" ");
    (from, to)
}

impl ChatMessageContent {
    /// The push notification text of this content (`None`: no push).
    pub fn notify_message(&self, mention_names: &Vec<(i64, String)>) -> (r: Option<String>)
        ensures
            match content_notify_text(*self, mention_names@) {
                Some(t) => r matches Some(s) && s@ == t,
                None => r is None,
            },
    {
        let ct = self.content_type.as_str();
        if str_eq(ct, "text/plain") {
            let mut msg = self.content.clone();
            let mut i: usize = 0;
            while i < mention_names.len()
                invariant
                    i <= mention_names@.len(),
                    msg@ == mentions_replaced(self.content@, mention_names@.subrange(0, i as int)),
                decreases mention_names@.len() - i,
            {
                let (from, to) = mention_text(mention_names[i].0, mention_names[i].1.as_str());
                proof {
                    let pre = mention_names@.subrange(0, i as int + 1);
                    assert(pre.drop_last() =~= mention_names@.subrange(0, i as int));
                    assert(pre.last() == mention_names@[i as int]);
                    assert(from@.len() > 0);
                }
                msg = replace_all(msg.as_str(), from.as_str(), to.as_str());
                i = i + 1;
            }
            proof {
                assert(mention_names@.subrange(0, mention_names@.len() as int) =~= mention_names@);
            }
            Some(msg)
        } else if str_eq(ct, "text/markdown") || str_eq(ct, crate::e2ee_v2::CONTENT_TYPE) {
            Some("You have a new message".to_owned())
        } else if str_eq(ct, "vocechat/file") {
            Some("You have a new file".to_owned())
        } else if crate::e2e_api::flag_set(&self.properties) {
            Some("You have a new message".to_owned())
        } else {
            None
        }
    }
}

impl ChatMessagePayload {
    /// The push notification text of a normal message or reply.
    pub fn notify_message(&self, mention_names: &Vec<(i64, String)>) -> (r: Option<String>)
        ensures
            match self.detail {
                MessageDetail::Normal(n) => match content_notify_text(n.content, mention_names@) {
                    Some(t) => r matches Some(s) && s@ == t,
                    None => r is None,
                },
                MessageDetail::Reply(rp) => match content_notify_text(rp.content, mention_names@) {
                    Some(t) => r matches Some(s) && s@ == t,
                    None => r is None,
                },
                MessageDetail::Reaction(_) => r is None,
            },
    {
        match &self.detail {
            MessageDetail::Normal(n) => n.content.notify_message(mention_names),
            MessageDetail::Reply(rp) => rp.content.notify_message(mention_names),
            MessageDetail::Reaction(_) => None,
        }
    }
}

/// How a send changes the merged (latest edited) message store.
#[derive(Debug, Clone)]
pub enum MergedUpdate {
    /// Store the merged payload under the new message id.
    Insert(i64, MergedMessagePayload),
    /// Replace the content of the merged message `mid`.
    ReplaceContent(i64, ChatMessageContent),
    /// Nothing changes.
    Unchanged,
}

/// Two contents carry the same properties.
pub open spec fn same_content_properties(a: ChatMessageContent, b: ChatMessageContent) -> bool {
    match (a.properties, b.properties) {
        (None, None) => true,
        (Some(x), Some(y)) => crate::e2ee_v2::same_properties(x, y),
        _ => false,
    }
}

/// The merged-store update for message `mid` with `payload`: normal
/// messages and replies are stored, an edit replaces the content of the
/// message it edits, likes and deletions change nothing.
pub fn merged_update(mid: i64, payload: &ChatMessagePayload) -> (u: MergedUpdate)
    ensures
        match payload.detail {
            MessageDetail::Normal(n) => u matches MergedUpdate::Insert(id, m) && id == mid
                && m.from_uid == payload.from_uid && m.target == payload.target
                && m.created_at == payload.created_at && m.content.content@ == n.content.content@
                && m.content.content_type@ == n.content.content_type@ && same_content_properties(m.content, n.content),
            MessageDetail::Reply(rp) => u matches MergedUpdate::Insert(id, m) && id == mid
                && m.from_uid == payload.from_uid && m.target == payload.target
                && m.created_at == payload.created_at && m.content.content@ == rp.content.content@
                && m.content.content_type@ == rp.content.content_type@ && same_content_properties(m.content, rp.content),
            MessageDetail::Reaction(re) => match re.detail {
                MessageReactionDetail::Edit(e) => u matches MergedUpdate::ReplaceContent(id, c) && id == re.mid
                    && c.content@ == e.content.content@ && c.content_type@ == e.content.content_type@
                    && same_content_properties(c, e.content),
                _ => u is Unchanged,
            },
        },
{
    match &payload.detail {
        MessageDetail::Normal(n) => MergedUpdate::Insert(mid, MergedMessagePayload {
            from_uid: payload.from_uid,
            target: payload.target,
            content: copy_content(&n.content),
            created_at: payload.created_at,
        }),
        MessageDetail::Reply(rp) => MergedUpdate::Insert(mid, MergedMessagePayload {
            from_uid: payload.from_uid,
            target: payload.target,
            content: copy_content(&rp.content),
            created_at: payload.created_at,
        }),
        MessageDetail::Reaction(re) => match &re.detail {
            MessageReactionDetail::Edit(e) => MergedUpdate::ReplaceContent(re.mid, copy_content(&e.content)),
            _ => MergedUpdate::Unchanged,
        },
    }
}

/// A copy of a content with the same type and body.
fn copy_content(c: &ChatMessageContent) -> (r: ChatMessageContent)
    ensures
        r.content@ == c.content@,
        r.content_type@ == c.content_type@,
        same_content_properties(r, *c),
{
    ChatMessageContent {
        properties: match &c.properties {
            Some(p) => Some(crate::e2ee_v2::copy_properties(p)),
            None => None,
        },
        content_type: c.content_type.clone(),
        content: c.content.clone(),
    }
}

} // verus!
