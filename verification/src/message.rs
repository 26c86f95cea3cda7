//! Chat message model of the server: targets, payloads, reactions, the
//! events pushed to clients, and the rules applied when a message is sent.
use vstd::prelude::*;

use vstd::std_specs::iter::IteratorSpec;

use crate::bytes::str_eq;
use crate::e2ee_v2::{validate_properties, spec_validate, E2eProperties, E2eV2Error, Protocol, PropValue};
use crate::primitives::{lowercase, lowercase_of};

verus! {

/// A point in time, in milliseconds since the Unix epoch (UTC).
#[derive(Debug, Clone, Copy, PartialEq, Eq)]
pub struct DateTime(pub i64);

impl DateTime {
    /// Milliseconds since the Unix epoch.
    pub fn timestamp_millis(&self) -> (ms: i64)
        ensures
            ms == self.0,
    {
        self.0
    }
}

/// Message target user.
#[derive(Debug, Copy, Clone, PartialEq, Eq)]
pub struct MessageTargetUser {
    pub uid: i64,
}

/// Message target group.
#[derive(Debug, Copy, Clone, PartialEq, Eq)]
pub struct MessageTargetGroup {
    pub gid: i64,
}

/// Message target.
#[derive(Debug, Copy, Clone, PartialEq, Eq)]
pub enum MessageTarget {
    User(MessageTargetUser),
    Group(MessageTargetGroup),
}

impl MessageTarget {
    /// Target the user `uid`.
    pub fn user(uid: i64) -> (t: MessageTarget)
        ensures
            t == MessageTarget::User(MessageTargetUser { uid }),
    {
        MessageTarget::User(MessageTargetUser { uid })
    }

    /// Target the group `gid`.
    pub fn group(gid: i64) -> (t: MessageTarget)
        ensures
            t == MessageTarget::Group(MessageTargetGroup { gid }),
    {
        MessageTarget::Group(MessageTargetGroup { gid })
    }
}

/// Content of a message: type, body and the properties the server reads.
#[derive(Debug, Clone)]
pub struct ChatMessageContent {
    pub properties: Option<E2eProperties>,
    pub content_type: String,
    pub content: String,
}

/// Normal message.
#[derive(Debug, Clone)]
pub struct MessageNormal {
    pub content: ChatMessageContent,
    /// Expires in seconds.
    pub expires_in: Option<i64>,
}

/// Reply to message `mid`.
#[derive(Debug, Clone)]
pub struct MessageReply {
    pub mid: i64,
    pub content: ChatMessageContent,
}

/// Edit reaction.
#[derive(Debug, Clone)]
pub struct MessageReactionEdit {
    pub content: ChatMessageContent,
}

/// Like reaction.
#[derive(Debug, Clone)]
pub struct MessageReactionLike {
    pub action: String,
}

/// Delete reaction.
#[derive(Debug, Clone)]
pub struct MessageReactionDelete {}

/// Reaction detail.
#[derive(Debug, Clone)]
pub enum MessageReactionDetail {
    Edit(MessageReactionEdit),
    Like(MessageReactionLike),
    Delete(MessageReactionDelete),
}

/// Reaction to message `mid`.
#[derive(Debug, Clone)]
pub struct MessageReaction {
    pub mid: i64,
    pub detail: MessageReactionDetail,
}

/// Message detail.
#[derive(Debug, Clone)]
pub enum MessageDetail {
    Normal(MessageNormal),
    Reaction(MessageReaction),
    Reply(MessageReply),
}

impl MessageDetail {
    /// The normal message inside, for editing in place; `None` for a
    /// reaction or a reply.
    pub fn as_normal_mut(&mut self) -> (r: Option<&mut MessageNormal>)
        ensures
            (*old(self) is Normal) <==> (r is Some),
            r matches Some(n) ==> *n == (*old(self))->Normal_0 && *final(self) == MessageDetail::Normal(*final(n)),
            r is None ==> *final(self) == *old(self),
    {
        match self {
            MessageDetail::Normal(normal) => Some(normal),
            _ => None,
        }
    }
}

/// Chat message payload.
#[derive(Debug, Clone)]
pub struct ChatMessagePayload {
    pub from_uid: i64,
    pub created_at: DateTime,
    pub target: MessageTarget,
    pub detail: MessageDetail,
}

/// Chat message with its id.
#[derive(Debug, Clone)]
pub struct ChatMessage {
    pub mid: i64,
    pub payload: ChatMessagePayload,
}

/// The emoji a like reaction may carry.
pub open spec fn allowed_emoji(s: Seq<char>) -> bool {
    ||| s == "\u{2764}\u{fe0f}"@
    ||| s == "\u{1f604}"@
    ||| s == "\u{1f440}"@
    ||| s == "\u{1f44d}"@
    ||| s == "\u{1f44e}"@
    ||| s == "\u{1f389}"@
    ||| s == "\u{1f641}"@
    ||| s == "\u{1f680}"@
}

impl MessageReactionLike {
    /// The reaction carries one of the allowed emoji.
    pub fn check(&self) -> (ok: bool)
        ensures
            ok == allowed_emoji(self.action@),
    {
        let a = self.action.as_str();
        str_eq(a, "\u{2764}\u{fe0f}") || str_eq(a, "\u{1f604}") || str_eq(a, "\u{1f440}")
            || str_eq(a, "\u{1f44d}") || str_eq(a, "\u{1f44e}") || str_eq(a, "\u{1f389}")
            || str_eq(a, "\u{1f641}") || str_eq(a, "\u{1f680}")
    }
}

/// Who may react to a message: only normal messages and replies take
/// reactions; an edit is the sender's own, a like anyone's, a delete the
/// sender's or an admin's.
pub open spec fn may_react(reaction: MessageReactionDetail, current_uid: i64, is_admin: bool, payload: ChatMessagePayload) -> bool {
    &&& (payload.detail is Normal || payload.detail is Reply)
    &&& match reaction {
        MessageReactionDetail::Edit(_) => current_uid == payload.from_uid,
        MessageReactionDetail::Like(_) => true,
        MessageReactionDetail::Delete(_) => current_uid == payload.from_uid || is_admin,
    }
}

impl MessageReactionDetail {
    /// Whether `current_uid` may apply this reaction to `payload`.
    pub fn can_reaction(&self, current_uid: i64, is_admin: bool, payload: &ChatMessagePayload) -> (ok: bool)
        ensures
            ok == may_react(*self, current_uid, is_admin, *payload),
    {
        match &payload.detail {
            MessageDetail::Normal(_) | MessageDetail::Reply(_) => {},
            _ => return false,
        }
        match self {
            MessageReactionDetail::Edit(_) => current_uid == payload.from_uid,
            MessageReactionDetail::Like(_) => true,
            MessageReactionDetail::Delete(_) => current_uid == payload.from_uid || is_admin,
        }
    }
}

/// Content type of E2EE v2 messages.
pub open spec fn e2ee_v2_content_type() -> Seq<char> {
    "application/vnd.vocechat.e2ee.v2"@
}

/// The content a send carries: that of a normal message or reply, or of an
/// edit reaction.
pub open spec fn sent_content(payload: ChatMessagePayload) -> Option<ChatMessageContent> {
    match payload.detail {
        MessageDetail::Normal(n) => Some(n.content),
        MessageDetail::Reply(r) => Some(r.content),
        MessageDetail::Reaction(re) => match re.detail {
            MessageReactionDetail::Edit(e) => Some(e.content),
            _ => None,
        },
    }
}

/// Why a send is refused.
#[derive(Debug, Clone)]
pub enum SendRejection {
    /// E2EE v2 content without properties.
    MissingProperties,
    /// E2EE v2 properties that do not validate.
    InvalidProperties(E2eV2Error),
    /// The protocol does not fit the target (`E2E_PROTOCOL_TARGET_MISMATCH`).
    ProtocolTargetMismatch,
}

impl SendRejection {
    /// HTTP status of the rejection (all are 400 Bad Request).
    pub fn status(&self) -> (s: u16)
        ensures
            s == 400,
    {
        400
    }
}

/// Check that the E2EE v2 protocol fits the target; for a deferred
/// (`dr-pending`) direct message, give the recipient's uid.
pub fn enforce_e2e_v2_target_protocol(payload: &ChatMessagePayload) -> (r: Result<Option<i64>, SendRejection>)
    ensures
        match sent_content(*payload) {
            None => r == Ok::<Option<i64>, SendRejection>(None),
            Some(c) => if c.content_type@ != e2ee_v2_content_type() {
                r == Ok::<Option<i64>, SendRejection>(None)
            } else {
                match c.properties {
                    None => r matches Err(SendRejection::MissingProperties),
                    Some(p) => match spec_validate(p) {
                        Err(e) => r matches Err(SendRejection::InvalidProperties(e2)) && e2 == e,
                        Ok(route) => match (payload.target, route.protocol) {
                            (MessageTarget::User(u), Protocol::DrPending) => r == Ok::<Option<i64>, SendRejection>(Some(u.uid)),
                            (MessageTarget::User(_), Protocol::Dr) => r == Ok::<Option<i64>, SendRejection>(None),
                            (MessageTarget::Group(_), Protocol::Mls) => r == Ok::<Option<i64>, SendRejection>(None),
                            _ => r matches Err(SendRejection::ProtocolTargetMismatch),
                        },
                    },
                }
            }
        },
{
    let content = match &payload.detail {
        MessageDetail::Normal(n) => &n.content,
        MessageDetail::Reply(r) => &r.content,
        MessageDetail::Reaction(re) => match &re.detail {
            MessageReactionDetail::Edit(e) => &e.content,
            _ => return Ok(None),
        },
    };
    if !str_eq(content.content_type.as_str(), crate::e2ee_v2::CONTENT_TYPE) {
        return Ok(None);
    }
    let properties = match &content.properties {
        Some(p) => p,
        None => return Err(SendRejection::MissingProperties),
    };
    let routing = match validate_properties(properties) {
        Ok(r) => r,
        Err(e) => return Err(SendRejection::InvalidProperties(e)),
    };
    match (payload.target, routing.protocol) {
        (MessageTarget::User(u), Protocol::DrPending) => Ok(Some(u.uid)),
        (MessageTarget::User(_), Protocol::Dr) => Ok(None),
        (MessageTarget::Group(_), Protocol::Mls) => Ok(None),
        _ => Err(SendRejection::ProtocolTargetMismatch),
    }
}

/// `needle` occurs in `hay` at position `i`.
pub open spec fn occurs_at(hay: Seq<char>, needle: Seq<char>, i: int) -> bool {
    0 <= i && i + needle.len() <= hay.len() && hay.subrange(i, i + needle.len()) == needle
}

/// `needle` occurs in `hay`.
pub open spec fn contains_text(hay: Seq<char>, needle: Seq<char>) -> bool {
    exists|i: int| #[trigger] occurs_at(hay, needle, i)
}

/// The characters of a text.
pub fn chars_of(s: &str) -> (v: Vec<char>)
    ensures
        v@ == s@,
{
    broadcast use vstd::string::axiom_spec_iter, vstd::string::next_postcondition;
    let mut v: Vec<char> = Vec::new();
    let mut it = s.chars();
    loop
        invariant
            v@ + it.remaining() == s@,
            it.obeys_prophetic_iter_laws(),
            it.decrease() is Some,
        decreases it.decrease()->0,
    {
        let ghost before = it.remaining();
        match it.next() {
            Some(c) => {
                v.push(c);
                assert(v@ + it.remaining() =~= s@) by {
                    assert(before =~= seq![c] + before.drop_first());
                }
            },
            None => {
                assert(v@ =~= s@);
                return v;
            },
        }
    }
}

/// Whether `needle` occurs in `hay`.
pub fn text_contains(hay: &str, needle: &str) -> (b: bool)
    ensures
        b == contains_text(hay@, needle@),
{
    let h = chars_of(hay);
    let n = chars_of(needle);
    if n.len() > h.len() {
        return false;
    }
    let mut i: usize = 0;
    let last = h.len() - n.len();
    while i <= last
        invariant
            last == h@.len() - n@.len(),
            h@ == hay@,
            n@ == needle@,
            n@.len() <= h@.len(),
            i <= h@.len() - n@.len() + 1,
            forall|k: int| 0 <= k < i ==> !occurs_at(hay@, needle@, k),
        decreases h@.len() - i,
    {
        let mut j: usize = 0;
        let mut same = true;
        while j < n.len()
            invariant
                h@ == hay@,
                n@ == needle@,
                i + n@.len() <= h@.len(),
                j <= n@.len(),
                h@.len() == h.len(),
                same == (forall|k: int| 0 <= k < j ==> h@[i + k] == n@[k]),
            decreases n@.len() - j,
        {
            if h[i + j] != n[j] {
                same = false;
            }
            j = j + 1;
        }
        if same {
            assert(h@.subrange(i as int, i + n@.len()) =~= n@);
            assert(occurs_at(hay@, needle@, i as int));
            return true;
        }
        proof {
            if occurs_at(hay@, needle@, i as int) {
                let k = choose|k: int| 0 <= k < n@.len() && h@[i + k] != n@[k];
                assert(h@.subrange(i as int, i + n@.len())[k] == h@[i + k]);
            }
        }
        i = i + 1;
    }
    proof {
        assert forall|k: int| #[trigger] occurs_at(hay@, needle@, k) implies false by {
            assert(k < i);
        }
    }
    false
}

/// Plain-text or markdown body of a normal message or reply.
pub open spec fn searchable_text(msg: ChatMessage) -> Option<Seq<char>> {
    let content = match msg.payload.detail {
        MessageDetail::Normal(n) => Some(n.content),
        MessageDetail::Reply(r) => Some(r.content),
        MessageDetail::Reaction(_) => None,
    };
    match content {
        Some(c) => if c.content_type@ == "text/plain"@ || c.content_type@ == "text/markdown"@ {
            Some(c.content@)
        } else {
            None
        },
        None => None,
    }
}

/// The plain-text or markdown body, lowercased, contains `query`.
pub fn message_matches_query(msg: &ChatMessage, query: &str) -> (b: bool)
    ensures
        b == match searchable_text(*msg) {
            Some(t) => contains_text(lowercase_of(t), query@),
            None => false,
        },
{
    let content = match &msg.payload.detail {
        MessageDetail::Normal(n) => &n.content,
        MessageDetail::Reply(r) => &r.content,
        MessageDetail::Reaction(_) => return false,
    };
    if str_eq(content.content_type.as_str(), "text/plain") || str_eq(content.content_type.as_str(), "text/markdown") {
        let lower = lowercase(content.content.as_str());
        text_contains(lower.as_str(), query)
    } else {
        false
    }
}

} // verus!

verus! {

/// Merged (latest edited) chat message payload.
#[derive(Debug, Clone)]
pub struct MergedMessagePayload {
    pub from_uid: i64,
    pub target: MessageTarget,
    pub content: ChatMessageContent,
    pub created_at: DateTime,
}

/// Why a session was kicked.
#[derive(Debug, Copy, Clone, PartialEq, Eq)]
pub enum KickReason {
    /// Login from other device.
    LoginFromOtherDevice,
    /// User has been deleted.
    DeleteUser,
    /// Device has been deleted.
    DeleteDevice,
    /// Logout.
    Logout,
    /// Frozen.
    Frozen,
}

/// Kick message.
#[derive(Debug, Clone)]
pub struct KickMessage {
    pub reason: KickReason,
}

/// Session ready message.
#[derive(Debug, Clone)]
pub struct SessionReadyMessage {}

/// Heartbeat message.
#[derive(Debug, Clone)]
pub struct HeartbeatMessage {
    pub time: DateTime,
}

/// Online state of a user.
#[derive(Debug, Clone)]
pub struct UserState {
    pub uid: i64,
    pub online: bool,
}

/// User state message.
#[derive(Debug, Clone)]
pub struct UsersStateMessage {
    pub users: Vec<UserState>,
}

/// User state changed message.
#[derive(Debug, Clone)]
pub struct UserStateChangedMessage {
    pub uid: i64,
    pub online: Option<bool>,
}

/// Other users joined a group.
#[derive(Debug, Clone)]
pub struct UserJoinedGroupMessage {
    /// Group id.
    pub gid: i64,
    /// User ids.
    pub uid: Vec<i64>,
}

/// Other users left a group.
#[derive(Debug, Clone)]
pub struct UserLeavedGroupMessage {
    /// Group id.
    pub gid: i64,
    /// User ids.
    pub uid: Vec<i64>,
}

/// Why a user left a group.
#[derive(Debug, Copy, Clone, PartialEq, Eq)]
pub enum KickFromGroupReason {
    /// Kicked by the owner or an admin.
    Kick,
    /// Group deleted.
    GroupDeleted,
}

/// Kick from group message.
#[derive(Debug, Clone)]
pub struct KickFromGroupMessage {
    /// Group id.
    pub gid: i64,
    /// Reason.
    pub reason: KickFromGroupReason,
}

/// Group info changed message.
#[derive(Debug, Clone)]
pub struct GroupChangedMessage {
    /// Group id.
    pub gid: i64,
    pub name: Option<String>,
    pub description: Option<String>,
    pub owner: Option<i64>,
    pub avatar_updated_at: Option<DateTime>,
    pub is_public: Option<bool>,
    pub e2e_enabled: Option<bool>,
}

/// An E2E identity was published or rotated for a device (sent to users
/// with an incomplete deferred DM addressed to `uid`).
#[derive(Debug, Clone)]
pub struct E2eIdentityChangedMessage {
    pub uid: i64,
    pub device_id: String,
    pub updated_at: DateTime,
}

/// A per-device key envelope was appended to a deferred DM.
#[derive(Debug, Clone)]
pub struct E2ePendingEnvelopeAddedMessage {
    pub mid: i64,
    pub recipient_uid: i64,
    pub device_id: String,
    /// Opaque wrapped content key for `device_id`.
    pub envelope: String,
}

/// Mute a user.
#[derive(Debug, Clone)]
pub struct MuteUser {
    /// User id.
    pub uid: i64,
    /// Expired at.
    pub expired_at: Option<DateTime>,
}

/// Mute a group.
#[derive(Debug, Clone)]
pub struct MuteGroup {
    /// Group id.
    pub gid: i64,
    /// Expired at.
    pub expired_at: Option<DateTime>,
}

/// Read index in a direct conversation.
#[derive(Debug, Clone)]
pub struct ReadIndexUser {
    /// User id.
    pub uid: i64,
    /// Message id.
    pub mid: i64,
}

/// Read index in a group.
#[derive(Debug, Clone)]
pub struct ReadIndexGroup {
    /// Group id.
    pub gid: i64,
    /// Message id.
    pub mid: i64,
}

/// Burn after reading in a direct conversation.
#[derive(Debug, Clone)]
pub struct BurnAfterReadingUser {
    /// User id.
    pub uid: i64,
    /// Expires in seconds.
    pub expires_in: i64,
}

/// Burn after reading in a group.
#[derive(Debug, Clone)]
pub struct BurnAfterReadingGroup {
    /// Group id.
    pub gid: i64,
    /// Expires in seconds.
    pub expires_in: i64,
}

/// User settings message.
#[derive(Debug, Clone)]
pub struct UserSettingsMessage {
    pub mute_users: Vec<MuteUser>,
    pub mute_groups: Vec<MuteGroup>,
    pub read_index_users: Vec<ReadIndexUser>,
    pub read_index_groups: Vec<ReadIndexGroup>,
    pub burn_after_reading_users: Vec<BurnAfterReadingUser>,
    pub burn_after_reading_groups: Vec<BurnAfterReadingGroup>,
}

/// User settings changed message.
#[derive(Debug, Clone, Default)]
pub struct UserSettingsChangedMessage {
    pub from_device: String,
    pub add_mute_users: Vec<MuteUser>,
    pub remove_mute_users: Vec<i64>,
    pub add_mute_groups: Vec<MuteGroup>,
    pub remove_mute_groups: Vec<i64>,
    pub read_index_users: Vec<ReadIndexUser>,
    pub read_index_groups: Vec<ReadIndexGroup>,
    pub burn_after_reading_users: Vec<BurnAfterReadingUser>,
    pub burn_after_reading_groups: Vec<BurnAfterReadingGroup>,
}

/// A file sent as a message.
#[derive(Debug, Clone)]
pub struct FileInfo {
    pub path: String,
}

} // verus!
