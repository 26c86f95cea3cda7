//! E2EE v2 message routing properties: validation of the wire attributes
//! that carry a Double Ratchet or MLS message through the server, and the
//! per-group MLS sequencing rules.
use vstd::prelude::*;

use crate::bytes::str_eq;
use crate::primitives::{b64_decode, base64_decoded};

verus! {

/// Content type of every E2EE v2 message body.
pub const CONTENT_TYPE: &'static str = "application/vnd.vocechat.e2ee.v2";

/// Which E2EE v2 protocol carries a message.
#[derive(Clone, Copy, Debug, Eq, PartialEq)]
pub enum Protocol {
    Dr,
    DrPending,
    Mls,
}

/// The wire class of an E2EE v2 message.
#[derive(Clone, Copy, Debug, Eq, PartialEq)]
pub enum WireClass {
    DrEnvelope,
    MlsHandshake,
    MlsApplication,
}

/// The kind of an MLS handshake message.
#[derive(Clone, Copy, Debug, Eq, PartialEq)]
pub enum MlsHandshakeKind {
    Commit,
    Welcome,
}

/// One message property value, as far as the server reads it: a JSON
/// string, a JSON number that is an unsigned 64-bit integer, a JSON
/// boolean, or anything else.
#[derive(Clone, Debug)]
pub enum PropValue {
    Str(String),
    UInt(u64),
    Bool(bool),
    Other,
}

/// A message's properties: those the server reads (absent ones are
/// `None`), namely the E2EE v2 routing attributes, the legacy `e2e` flag and
/// the envelope algorithm a sender names, and every other property by name
/// with its JSON text, carried unchanged.
#[derive(Clone, Debug)]
pub struct E2eProperties {
    pub e2e: Option<PropValue>,
    pub e2e_version: Option<PropValue>,
    pub protocol: Option<PropValue>,
    pub wire_class: Option<PropValue>,
    pub sender_device_id: Option<PropValue>,
    pub recipient_device_id: Option<PropValue>,
    pub local_id: Option<PropValue>,
    pub mls_epoch: Option<PropValue>,
    pub mls_generation: Option<PropValue>,
    pub mls_handshake_kind: Option<PropValue>,
    pub mls_commit_id: Option<PropValue>,
    pub algorithm: Option<PropValue>,
    pub other: Vec<(String, String)>,
}

/// Validated routing attributes of an E2EE v2 message.
#[derive(Clone, Debug)]
pub struct RoutingProperties {
    pub protocol: Protocol,
    pub wire_class: WireClass,
    pub sender_device_id: String,
    pub recipient_device_id: Option<String>,
    pub local_id: String,
    pub mls_epoch: Option<u64>,
    pub mls_generation: Option<u32>,
    pub mls_handshake_kind: Option<MlsHandshakeKind>,
    pub mls_commit_id: Option<String>,
}

/// Mathematical model of [`RoutingProperties`].
pub struct RoutingSpec {
    pub protocol: Protocol,
    pub wire_class: WireClass,
    pub sender_device_id: Seq<char>,
    pub recipient_device_id: Option<Seq<char>>,
    pub local_id: Seq<char>,
    pub mls_epoch: Option<u64>,
    pub mls_generation: Option<u32>,
    pub mls_handshake_kind: Option<MlsHandshakeKind>,
    pub mls_commit_id: Option<Seq<char>>,
}

pub open spec fn opt_string_view(s: Option<String>) -> Option<Seq<char>> {
    match s {
        Some(v) => Some(v@),
        None => None,
    }
}

impl View for RoutingProperties {
    type V = RoutingSpec;

    open spec fn view(&self) -> RoutingSpec {
        RoutingSpec {
            protocol: self.protocol,
            wire_class: self.wire_class,
            sender_device_id: self.sender_device_id@,
            recipient_device_id: opt_string_view(self.recipient_device_id),
            local_id: self.local_id@,
            mls_epoch: self.mls_epoch,
            mls_generation: self.mls_generation,
            mls_handshake_kind: self.mls_handshake_kind,
            mls_commit_id: opt_string_view(self.mls_commit_id),
        }
    }
}

/// Why a set of E2EE v2 properties was refused.
#[derive(Clone, Debug, Eq, PartialEq)]
pub enum E2eV2Error {
    InvalidProperty(&'static str),
    ProtocolMismatch,
    DeviceMismatch,
}

/// The message a refusal is displayed with.
pub open spec fn v2_error_message(e: E2eV2Error) -> Seq<char> {
    match e {
        E2eV2Error::InvalidProperty(p) => "missing or invalid E2EE v2 property: "@ + p@,
        E2eV2Error::ProtocolMismatch => "wire_class does not match protocol"@,
        E2eV2Error::DeviceMismatch => "E2E_DEVICE_MISMATCH"@,
    }
}

impl E2eV2Error {
    /// The refusal as it is displayed.
    pub fn to_string(&self) -> (s: String)
        ensures
            s@ == v2_error_message(*self),
    {
        match self {
            E2eV2Error::InvalidProperty(p) => {
                let mut s = "missing or invalid E2EE v2 property: ".to_owned();
                s.append(p);
                s
            },
            E2eV2Error::ProtocolMismatch => "wire_class does not match protocol".to_owned(),
            E2eV2Error::DeviceMismatch => "E2E_DEVICE_MISMATCH".to_owned(),
        }
    }
}

/// The unsigned integer a property holds, if any.
pub open spec fn prop_u64(v: Option<PropValue>) -> Option<u64> {
    match v {
        Some(PropValue::UInt(n)) => Some(n),
        _ => None,
    }
}

/// Two property values are the same value.
pub open spec fn same_prop(a: Option<PropValue>, b: Option<PropValue>) -> bool {
    match (a, b) {
        (None, None) => true,
        (Some(PropValue::Str(x)), Some(PropValue::Str(y))) => x@ == y@,
        (Some(PropValue::UInt(x)), Some(PropValue::UInt(y))) => x == y,
        (Some(PropValue::Bool(x)), Some(PropValue::Bool(y))) => x == y,
        (Some(PropValue::Other), Some(PropValue::Other)) => true,
        _ => false,
    }
}

/// The other properties as name and JSON text.
pub open spec fn other_view(o: Seq<(String, String)>) -> Seq<(Seq<char>, Seq<char>)> {
    o.map_values(|e: (String, String)| (e.0@, e.1@))
}

/// Two property sets hold the same properties.
pub open spec fn same_properties(a: E2eProperties, b: E2eProperties) -> bool {
    &&& same_prop(a.e2e, b.e2e)
    &&& same_prop(a.e2e_version, b.e2e_version)
    &&& same_prop(a.protocol, b.protocol)
    &&& same_prop(a.wire_class, b.wire_class)
    &&& same_prop(a.sender_device_id, b.sender_device_id)
    &&& same_prop(a.recipient_device_id, b.recipient_device_id)
    &&& same_prop(a.local_id, b.local_id)
    &&& same_prop(a.mls_epoch, b.mls_epoch)
    &&& same_prop(a.mls_generation, b.mls_generation)
    &&& same_prop(a.mls_handshake_kind, b.mls_handshake_kind)
    &&& same_prop(a.mls_commit_id, b.mls_commit_id)
    &&& same_prop(a.algorithm, b.algorithm)
    &&& other_view(a.other@) == other_view(b.other@)
}

/// A copy of a property value.
pub fn copy_prop(v: &Option<PropValue>) -> (r: Option<PropValue>)
    ensures
        same_prop(r, *v),
{
    match v {
        None => None,
        Some(PropValue::Str(s)) => Some(PropValue::Str(s.clone())),
        Some(PropValue::UInt(x)) => Some(PropValue::UInt(*x)),
        Some(PropValue::Bool(b)) => Some(PropValue::Bool(*b)),
        Some(PropValue::Other) => Some(PropValue::Other),
    }
}

/// A copy of a message's properties.
pub fn copy_properties(p: &E2eProperties) -> (r: E2eProperties)
    ensures
        same_properties(r, *p),
{
    let mut other: Vec<(String, String)> = Vec::new();
    let mut i: usize = 0;
    while i < p.other.len()
        invariant
            i <= p.other@.len(),
            other_view(other@) == other_view(p.other@).subrange(0, i as int),
        decreases p.other@.len() - i,
    {
        let name = p.other[i].0.clone();
        let value = p.other[i].1.clone();
        let ghost before = other@;
        other.push((name, value));
        proof {
            assert(other_view(other@) =~= other_view(before).push((p.other@[i as int].0@, p.other@[i as int].1@)));
            assert(other_view(p.other@).subrange(0, i as int + 1)
                =~= other_view(p.other@).subrange(0, i as int).push(other_view(p.other@)[i as int]));
        }
        i = i + 1;
    }
    assert(other_view(p.other@).subrange(0, p.other@.len() as int) =~= other_view(p.other@));
    E2eProperties {
        e2e: copy_prop(&p.e2e),
        e2e_version: copy_prop(&p.e2e_version),
        protocol: copy_prop(&p.protocol),
        wire_class: copy_prop(&p.wire_class),
        sender_device_id: copy_prop(&p.sender_device_id),
        recipient_device_id: copy_prop(&p.recipient_device_id),
        local_id: copy_prop(&p.local_id),
        mls_epoch: copy_prop(&p.mls_epoch),
        mls_generation: copy_prop(&p.mls_generation),
        mls_handshake_kind: copy_prop(&p.mls_handshake_kind),
        mls_commit_id: copy_prop(&p.mls_commit_id),
        algorithm: copy_prop(&p.algorithm),
        other,
    }
}

/// The string a property holds, if any.
pub open spec fn prop_str(v: Option<PropValue>) -> Option<Seq<char>> {
    match v {
        Some(PropValue::Str(s)) => Some(s@),
        _ => None,
    }
}

/// The non-empty string a property holds, if any.
pub open spec fn prop_nonempty(v: Option<PropValue>) -> Option<Seq<char>> {
    match prop_str(v) {
        Some(s) => if s.len() > 0 { Some(s) } else { None },
        None => None,
    }
}

pub open spec fn spec_protocol(v: Option<PropValue>) -> Option<Protocol> {
    match prop_str(v) {
        Some(s) => if s == "dr"@ {
            Some(Protocol::Dr)
        } else if s == "dr-pending"@ {
            Some(Protocol::DrPending)
        } else if s == "mls"@ {
            Some(Protocol::Mls)
        } else {
            None
        },
        None => None,
    }
}

pub open spec fn spec_wire_class(v: Option<PropValue>) -> Option<WireClass> {
    match prop_str(v) {
        Some(s) => if s == "dr_envelope"@ {
            Some(WireClass::DrEnvelope)
        } else if s == "mls_handshake"@ {
            Some(WireClass::MlsHandshake)
        } else if s == "mls_application"@ {
            Some(WireClass::MlsApplication)
        } else {
            None
        },
        None => None,
    }
}

/// Whether a protocol may carry a wire class.
pub open spec fn class_fits_protocol(p: Protocol, w: WireClass) -> bool {
    match p {
        Protocol::Dr | Protocol::DrPending => w == WireClass::DrEnvelope,
        Protocol::Mls => w == WireClass::MlsHandshake || w == WireClass::MlsApplication,
    }
}

/// Reading of an optional string-valued property: absent is fine, present
/// must be a non-empty string.
pub open spec fn opt_nonempty(v: Option<PropValue>) -> Option<Option<Seq<char>>> {
    match v {
        None => Some(None),
        Some(_) => match prop_nonempty(v) {
            Some(s) => Some(Some(s)),
            None => None,
        },
    }
}

/// The MLS generation, when the property is an integer that fits in 32 bits.
pub open spec fn spec_generation(v: Option<PropValue>) -> Option<u32> {
    match prop_u64(v) {
        Some(n) => if n <= u32::MAX { Some(n as u32) } else { None },
        None => None,
    }
}

/// Reading of the handshake kind: absent, "commit", "welcome", or invalid.
pub open spec fn spec_handshake_kind(v: Option<PropValue>) -> Option<Option<MlsHandshakeKind>> {
    match v {
        None => Some(None),
        Some(PropValue::Str(s)) => if s@ == "commit"@ {
            Some(Some(MlsHandshakeKind::Commit))
        } else if s@ == "welcome"@ {
            Some(Some(MlsHandshakeKind::Welcome))
        } else {
            None
        },
        Some(_) => None,
    }
}

/// The protocol-specific rules once every property has been read.
pub open spec fn spec_protocol_rules(
    protocol: Protocol,
    wire_class: WireClass,
    recipient: Option<Seq<char>>,
    epoch: Option<u64>,
    generation: Option<u32>,
    kind: Option<MlsHandshakeKind>,
    commit_id: Option<Seq<char>>,
) -> Option<E2eV2Error> {
    let mls_fields = epoch.is_some() || generation.is_some() || kind.is_some() || commit_id.is_some();
    if protocol == Protocol::Dr && recipient.is_none() {
        Some(E2eV2Error::InvalidProperty("recipient_device_id"))
    } else if protocol != Protocol::Mls && mls_fields {
        Some(E2eV2Error::ProtocolMismatch)
    } else if protocol == Protocol::Mls && recipient.is_some() {
        Some(E2eV2Error::ProtocolMismatch)
    } else if protocol == Protocol::Mls && epoch.is_none() {
        Some(E2eV2Error::InvalidProperty("mls_epoch"))
    } else if protocol == Protocol::Mls && generation.is_none() {
        Some(E2eV2Error::InvalidProperty("mls_generation"))
    } else if protocol == Protocol::Mls && wire_class == WireClass::MlsHandshake
        && (kind.is_none() || commit_id.is_none()) {
        Some(E2eV2Error::InvalidProperty("mls_handshake_kind"))
    } else if protocol == Protocol::Mls && wire_class == WireClass::MlsHandshake
        && generation != Some(0u32) {
        Some(E2eV2Error::InvalidProperty("mls_generation"))
    } else if protocol == Protocol::Mls && wire_class == WireClass::MlsApplication
        && (kind.is_some() || commit_id.is_some()) {
        Some(E2eV2Error::ProtocolMismatch)
    } else {
        None
    }
}

/// The outcome of validating E2EE v2 properties, checked in the order the
/// server reports problems.
pub open spec fn spec_validate(p: E2eProperties) -> Result<RoutingSpec, E2eV2Error> {
    if prop_u64(p.e2e_version) != Some(2u64) {
        Err(E2eV2Error::InvalidProperty("e2e_version"))
    } else if spec_protocol(p.protocol).is_none() {
        Err(E2eV2Error::InvalidProperty("protocol"))
    } else if spec_wire_class(p.wire_class).is_none() {
        Err(E2eV2Error::InvalidProperty("wire_class"))
    } else if !class_fits_protocol(spec_protocol(p.protocol).unwrap(), spec_wire_class(p.wire_class).unwrap()) {
        Err(E2eV2Error::ProtocolMismatch)
    } else if prop_nonempty(p.sender_device_id).is_none() {
        Err(E2eV2Error::InvalidProperty("sender_device_id"))
    } else if prop_nonempty(p.local_id).is_none() {
        Err(E2eV2Error::InvalidProperty("local_id"))
    } else if opt_nonempty(p.recipient_device_id).is_none() {
        Err(E2eV2Error::InvalidProperty("recipient_device_id"))
    } else if spec_handshake_kind(p.mls_handshake_kind).is_none() {
        Err(E2eV2Error::InvalidProperty("mls_handshake_kind"))
    } else if opt_nonempty(p.mls_commit_id).is_none() {
        Err(E2eV2Error::InvalidProperty("mls_commit_id"))
    } else {
        let protocol = spec_protocol(p.protocol).unwrap();
        let wire_class = spec_wire_class(p.wire_class).unwrap();
        let recipient = opt_nonempty(p.recipient_device_id).unwrap();
        let epoch = prop_u64(p.mls_epoch);
        let generation = spec_generation(p.mls_generation);
        let kind = spec_handshake_kind(p.mls_handshake_kind).unwrap();
        let commit_id = opt_nonempty(p.mls_commit_id).unwrap();
        match spec_protocol_rules(protocol, wire_class, recipient, epoch, generation, kind, commit_id) {
            Some(e) => Err(e),
            None => Ok(RoutingSpec {
                protocol,
                wire_class,
                sender_device_id: prop_nonempty(p.sender_device_id).unwrap(),
                recipient_device_id: recipient,
                local_id: prop_nonempty(p.local_id).unwrap(),
                mls_epoch: epoch,
                mls_generation: generation,
                mls_handshake_kind: kind,
                mls_commit_id: commit_id,
            }),
        }
    }
}

fn read_u64(v: &Option<PropValue>) -> (r: Option<u64>)
    ensures
        r == prop_u64(*v),
{
    match v {
        Some(PropValue::UInt(n)) => Some(*n),
        _ => None,
    }
}

fn read_nonempty(v: &Option<PropValue>) -> (r: Option<String>)
    ensures
        opt_string_view(r) == prop_nonempty(*v),
{
    match v {
        Some(PropValue::Str(s)) => {
            if s.as_str().is_empty() {
                None
            } else {
                Some(s.clone())
            }
        },
        _ => None,
    }
}

fn read_opt_nonempty(v: &Option<PropValue>) -> (r: Option<Option<String>>)
    ensures
        match r {
            Some(x) => opt_nonempty(*v) == Some(opt_string_view(x)),
            None => opt_nonempty(*v).is_none(),
        },
{
    match v {
        None => Some(None),
        Some(_) => match read_nonempty(v) {
            Some(s) => Some(Some(s)),
            None => None,
        },
    }
}

fn read_protocol(v: &Option<PropValue>) -> (r: Option<Protocol>)
    ensures
        r == spec_protocol(*v),
{
    match v {
        Some(PropValue::Str(s)) => {
            if str_eq(s.as_str(), "dr") {
                Some(Protocol::Dr)
            } else if str_eq(s.as_str(), "dr-pending") {
                Some(Protocol::DrPending)
            } else if str_eq(s.as_str(), "mls") {
                Some(Protocol::Mls)
            } else {
                None
            }
        },
        _ => None,
    }
}

fn read_wire_class(v: &Option<PropValue>) -> (r: Option<WireClass>)
    ensures
        r == spec_wire_class(*v),
{
    match v {
        Some(PropValue::Str(s)) => {
            if str_eq(s.as_str(), "dr_envelope") {
                Some(WireClass::DrEnvelope)
            } else if str_eq(s.as_str(), "mls_handshake") {
                Some(WireClass::MlsHandshake)
            } else if str_eq(s.as_str(), "mls_application") {
                Some(WireClass::MlsApplication)
            } else {
                None
            }
        },
        _ => None,
    }
}

fn read_handshake_kind(v: &Option<PropValue>) -> (r: Option<Option<MlsHandshakeKind>>)
    ensures
        r == spec_handshake_kind(*v),
{
    match v {
        None => Some(None),
        Some(PropValue::Str(s)) => {
            if str_eq(s.as_str(), "commit") {
                Some(Some(MlsHandshakeKind::Commit))
            } else if str_eq(s.as_str(), "welcome") {
                Some(Some(MlsHandshakeKind::Welcome))
            } else {
                None
            }
        },
        Some(_) => None,
    }
}

fn protocol_rules(
    protocol: Protocol,
    wire_class: WireClass,
    recipient: bool,
    epoch: Option<u64>,
    generation: Option<u32>,
    kind: Option<MlsHandshakeKind>,
    commit_id: bool,
) -> (r: Option<E2eV2Error>)
    ensures
        forall|rs: Option<Seq<char>>, cs: Option<Seq<char>>|
            rs.is_some() == recipient && cs.is_some() == commit_id ==>
            r == spec_protocol_rules(protocol, wire_class, rs, epoch, generation, kind, cs),
{
    let mls_fields = epoch.is_some() || generation.is_some() || kind.is_some() || commit_id;
    let is_mls = match protocol {
        Protocol::Mls => true,
        _ => false,
    };
    let is_dr = match protocol {
        Protocol::Dr => true,
        _ => false,
    };
    let is_handshake = match wire_class {
        WireClass::MlsHandshake => true,
        _ => false,
    };
    let is_application = match wire_class {
        WireClass::MlsApplication => true,
        _ => false,
    };
    let generation_zero = match generation {
        Some(g) => g == 0,
        None => false,
    };
    if is_dr && !recipient {
        Some(E2eV2Error::InvalidProperty("recipient_device_id"))
    } else if !is_mls && mls_fields {
        Some(E2eV2Error::ProtocolMismatch)
    } else if is_mls && recipient {
        Some(E2eV2Error::ProtocolMismatch)
    } else if is_mls && epoch.is_none() {
        Some(E2eV2Error::InvalidProperty("mls_epoch"))
    } else if is_mls && generation.is_none() {
        Some(E2eV2Error::InvalidProperty("mls_generation"))
    } else if is_mls && is_handshake && (kind.is_none() || !commit_id) {
        Some(E2eV2Error::InvalidProperty("mls_handshake_kind"))
    } else if is_mls && is_handshake && !generation_zero {
        Some(E2eV2Error::InvalidProperty("mls_generation"))
    } else if is_mls && is_application && (kind.is_some() || commit_id) {
        Some(E2eV2Error::ProtocolMismatch)
    } else {
        None
    }
}

/// Validate the E2EE v2 routing properties of a message.
pub fn validate_properties(properties: &E2eProperties) -> (r: Result<RoutingProperties, E2eV2Error>)
    ensures
        match r {
            Ok(route) => spec_validate(*properties) == Ok::<RoutingSpec, E2eV2Error>(route@),
            Err(e) => spec_validate(*properties) == Err::<RoutingSpec, E2eV2Error>(e),
        },
{
    if read_u64(&properties.e2e_version) != Some(2u64) {
        return Err(E2eV2Error::InvalidProperty("e2e_version"));
    }
    let protocol = match read_protocol(&properties.protocol) {
        Some(p) => p,
        None => return Err(E2eV2Error::InvalidProperty("protocol")),
    };
    let wire_class = match read_wire_class(&properties.wire_class) {
        Some(w) => w,
        None => return Err(E2eV2Error::InvalidProperty("wire_class")),
    };
    let fits = match (protocol, wire_class) {
        (Protocol::Dr, WireClass::DrEnvelope) => true,
        (Protocol::DrPending, WireClass::DrEnvelope) => true,
        (Protocol::Mls, WireClass::MlsHandshake) => true,
        (Protocol::Mls, WireClass::MlsApplication) => true,
        _ => false,
    };
    if !fits {
        return Err(E2eV2Error::ProtocolMismatch);
    }
    let sender_device_id = match read_nonempty(&properties.sender_device_id) {
        Some(s) => s,
        None => return Err(E2eV2Error::InvalidProperty("sender_device_id")),
    };
    let local_id = match read_nonempty(&properties.local_id) {
        Some(s) => s,
        None => return Err(E2eV2Error::InvalidProperty("local_id")),
    };
    let recipient_device_id = match read_opt_nonempty(&properties.recipient_device_id) {
        Some(s) => s,
        None => return Err(E2eV2Error::InvalidProperty("recipient_device_id")),
    };
    let mls_epoch = read_u64(&properties.mls_epoch);
    let mls_generation = match read_u64(&properties.mls_generation) {
        Some(n) => if n <= 0xffff_ffffu64 { Some(n as u32) } else { None },
        None => None,
    };
    let mls_handshake_kind = match read_handshake_kind(&properties.mls_handshake_kind) {
        Some(k) => k,
        None => return Err(E2eV2Error::InvalidProperty("mls_handshake_kind")),
    };
    let mls_commit_id = match read_opt_nonempty(&properties.mls_commit_id) {
        Some(s) => s,
        None => return Err(E2eV2Error::InvalidProperty("mls_commit_id")),
    };
    let rule = protocol_rules(
        protocol,
        wire_class,
        recipient_device_id.is_some(),
        mls_epoch,
        mls_generation,
        mls_handshake_kind,
        mls_commit_id.is_some(),
    );
    proof {
        let _ = spec_protocol_rules(protocol, wire_class, opt_string_view(recipient_device_id),
            mls_epoch, mls_generation, mls_handshake_kind, opt_string_view(mls_commit_id));
    }
    match rule {
        Some(e) => Err(e),
        None => {
            let route = RoutingProperties {
                protocol,
                wire_class,
                sender_device_id,
                recipient_device_id,
                local_id,
                mls_epoch,
                mls_generation,
                mls_handshake_kind,
                mls_commit_id,
            };
            Ok(route)
        },
    }
}

/// An accepted MLS route names no recipient device: MLS messages go to the
/// whole group.
pub proof fn law_mls_route_has_no_recipient(p: E2eProperties)
    ensures
        match spec_validate(p) {
            Ok(route) => route.protocol == Protocol::Mls ==> route.recipient_device_id is None,
            Err(_) => true,
        },
{
}

/// A recipient device turns an MLS route that would be accepted without it
/// into a protocol mismatch.
pub proof fn law_mls_recipient_is_protocol_mismatch(p: E2eProperties)
    requires
        prop_nonempty(p.recipient_device_id) is Some,
        spec_validate(E2eProperties { recipient_device_id: None, ..p }) matches Ok(route)
            && route.protocol == Protocol::Mls,
    ensures
        spec_validate(p) == Err::<RoutingSpec, E2eV2Error>(E2eV2Error::ProtocolMismatch),
{
}

/// Validate properties and require that the sender device named in them is
/// the device the request was authenticated as.
pub fn validate_authenticated_sender(properties: &E2eProperties, authenticated_device: &str) -> (r: Result<RoutingProperties, E2eV2Error>)
    ensures
        match spec_validate(*properties) {
            Err(e) => r == Err::<RoutingProperties, E2eV2Error>(e),
            Ok(route) => if route.sender_device_id == authenticated_device@ {
                r matches Ok(got) && got@ == route
            } else {
                r == Err::<RoutingProperties, E2eV2Error>(E2eV2Error::DeviceMismatch)
            },
        },
{
    let route = validate_properties(properties)?;
    if !str_eq(route.sender_device_id.as_str(), authenticated_device) {
        return Err(E2eV2Error::DeviceMismatch);
    }
    Ok(route)
}

/// Require that a device id supplied in a request is the authenticated device.
pub fn validate_authenticated_device(provided_device: &str, authenticated_device: &str) -> (r: Result<(), E2eV2Error>)
    ensures
        r is Ok <==> provided_device@ == authenticated_device@,
        r is Err ==> r == Err::<(), E2eV2Error>(E2eV2Error::DeviceMismatch),
{
    if !str_eq(provided_device, authenticated_device) {
        return Err(E2eV2Error::DeviceMismatch);
    }
    Ok(())
}

} // verus!

verus! {

/// An MLS message breaks the per-group sequence (wrong epoch, generation,
/// commit, or message class).
#[derive(Clone, Copy, Debug, Eq, PartialEq)]
pub struct MlsSequenceConflict;

/// What must be checked and recorded in the group's sequence tables for one
/// MLS message.
#[derive(Clone, Debug)]
pub enum MlsSequenceStep {
    /// A Commit that must open epoch `epoch`.
    Commit { epoch: i64, commit_id: Option<String> },
    /// A Welcome that must belong to the Commit `commit_id` of `epoch`.
    Welcome { epoch: i64, commit_id: String },
    /// An application message of the sender's `generation` in `epoch`.
    Application { epoch: i64, generation: i64 },
}

/// The sequencing step an MLS route calls for, before any table is read.
pub open spec fn spec_plan(route: RoutingSpec) -> Option<(int, int, WireClass, Option<MlsHandshakeKind>)> {
    if route.protocol != Protocol::Mls || route.mls_epoch.is_none() || route.mls_generation.is_none()
        || route.mls_epoch.unwrap() > i64::MAX {
        None
    } else {
        Some((route.mls_epoch.unwrap() as int, route.mls_generation.unwrap() as int,
            route.wire_class, route.mls_handshake_kind))
    }
}

/// Decide which sequence step a validated MLS route needs.
pub fn plan_mls_sequence(route: &RoutingProperties) -> (r: Result<MlsSequenceStep, MlsSequenceConflict>)
    ensures
        match r {
            Ok(MlsSequenceStep::Commit { epoch, commit_id }) =>
                spec_plan(route@) == Some((epoch as int, route@.mls_generation.unwrap() as int,
                    WireClass::MlsHandshake, Some(MlsHandshakeKind::Commit)))
                && opt_string_view(commit_id) == route@.mls_commit_id,
            Ok(MlsSequenceStep::Welcome { epoch, commit_id }) =>
                spec_plan(route@) == Some((epoch as int, route@.mls_generation.unwrap() as int,
                    WireClass::MlsHandshake, Some(MlsHandshakeKind::Welcome)))
                && route@.mls_commit_id == Some(commit_id@),
            Ok(MlsSequenceStep::Application { epoch, generation }) =>
                spec_plan(route@) == Some((epoch as int, generation as int,
                    WireClass::MlsApplication, None::<MlsHandshakeKind>)),
            Err(_) => match spec_plan(route@) {
                None => true,
                Some((_, _, w, k)) => !(w == WireClass::MlsHandshake && k == Some(MlsHandshakeKind::Commit))
                    && !(w == WireClass::MlsHandshake && k == Some(MlsHandshakeKind::Welcome) && route@.mls_commit_id.is_some())
                    && !(w == WireClass::MlsApplication && k.is_none()),
            },
        },
{
    let is_mls = match route.protocol {
        Protocol::Mls => true,
        _ => false,
    };
    if !is_mls {
        return Err(MlsSequenceConflict);
    }
    let epoch_u = match route.mls_epoch {
        Some(e) => e,
        None => return Err(MlsSequenceConflict),
    };
    if epoch_u > 0x7fff_ffff_ffff_ffffu64 {
        return Err(MlsSequenceConflict);
    }
    let epoch = epoch_u as i64;
    let generation = match route.mls_generation {
        Some(g) => g as i64,
        None => return Err(MlsSequenceConflict),
    };
    match (route.wire_class, route.mls_handshake_kind) {
        (WireClass::MlsHandshake, Some(MlsHandshakeKind::Commit)) => {
            Ok(MlsSequenceStep::Commit { epoch, commit_id: route.mls_commit_id.clone() })
        },
        (WireClass::MlsHandshake, Some(MlsHandshakeKind::Welcome)) => {
            match &route.mls_commit_id {
                Some(c) => Ok(MlsSequenceStep::Welcome { epoch, commit_id: c.clone() }),
                None => Err(MlsSequenceConflict),
            }
        },
        (WireClass::MlsApplication, None) => Ok(MlsSequenceStep::Application { epoch, generation }),
        _ => Err(MlsSequenceConflict),
    }
}

/// A Commit must open the epoch right after the newest recorded one (epochs
/// start at 1 when none is recorded).
pub fn commit_epoch_ok(epoch: i64, newest_epoch: Option<i64>) -> (r: bool)
    ensures
        r == (epoch as int == match newest_epoch { Some(e) => e as int, None => 0 } + 1),
{
    let current: i64 = match newest_epoch {
        Some(e) => e,
        None => 0,
    };
    if current == 0x7fff_ffff_ffff_ffffi64 {
        return false;
    }
    epoch == current + 1
}

/// A Welcome must refer to exactly one recorded Commit of its epoch.
pub fn welcome_ok(matching_commits: i64) -> (r: bool)
    ensures
        r == (matching_commits == 1),
{
    matching_commits == 1
}

/// An application message must be in the newest epoch (0 before any Commit)
/// and carry the sender's next generation (0 for its first message).
pub fn application_ok(epoch: i64, newest_epoch: Option<i64>, generation: i64, last_generation: Option<i64>) -> (r: bool)
    ensures
        r == (epoch as int == match newest_epoch { Some(e) => e as int, None => 0 }
            && generation as int == match last_generation { Some(g) => g + 1, None => 0int }),
{
    let current: i64 = match newest_epoch {
        Some(e) => e,
        None => 0,
    };
    if epoch != current {
        return false;
    }
    match last_generation {
        Some(g) => {
            if g == 0x7fff_ffff_ffff_ffffi64 {
                false
            } else {
                generation == g + 1
            }
        },
        None => generation == 0,
    }
}

/// The row an MLS message adds to the group's sequence tables.
pub enum MlsSequenceRow {
    /// A recorded Commit of `epoch`.
    Commit { epoch: i64, commit_id: String },
    /// A recorded Welcome of the Commit `commit_id` of `epoch`.
    Welcome { epoch: i64, commit_id: String },
    /// A recorded application message of the sender's `generation` in `epoch`.
    Application { epoch: i64, generation: i64 },
}

/// The newest recorded epoch (0 before any Commit).
pub open spec fn current_epoch(newest_epoch: Option<i64>) -> int {
    match newest_epoch {
        Some(e) => e as int,
        None => 0,
    }
}

/// The sender's next generation (0 before its first message).
pub open spec fn next_generation(last_generation: Option<i64>) -> int {
    match last_generation {
        Some(g) => g + 1,
        None => 0,
    }
}

/// The whole sequencing rule of one MLS message, given what the group's
/// tables hold: the newest recorded Commit epoch, the number of recorded
/// Commits matching a Welcome's epoch and id, and the sender's last
/// generation in the route's epoch. A Commit must carry its id and open the
/// epoch after the newest one; a Welcome must match exactly one recorded
/// Commit; an application message must be in the newest epoch with the
/// sender's next generation. Anything else, a non-MLS route included, is a
/// conflict, and then nothing is recorded.
pub fn mls_sequence_row(
    route: &RoutingProperties,
    newest_epoch: Option<i64>,
    matching_commits: i64,
    last_generation: Option<i64>,
) -> (r: Result<MlsSequenceRow, MlsSequenceConflict>)
    ensures
        match spec_plan(route@) {
            None => r is Err,
            Some((e, g, w, k)) => if w == WireClass::MlsHandshake && k == Some(MlsHandshakeKind::Commit) {
                match r {
                    Ok(MlsSequenceRow::Commit { epoch, commit_id }) => epoch == e && route@.mls_commit_id == Some(commit_id@)
                        && e == current_epoch(newest_epoch) + 1,
                    Ok(_) => false,
                    Err(_) => route@.mls_commit_id is None || e != current_epoch(newest_epoch) + 1,
                }
            } else if w == WireClass::MlsHandshake && k == Some(MlsHandshakeKind::Welcome) {
                match r {
                    Ok(MlsSequenceRow::Welcome { epoch, commit_id }) => epoch == e && route@.mls_commit_id == Some(commit_id@)
                        && matching_commits == 1,
                    Ok(_) => false,
                    Err(_) => route@.mls_commit_id is None || matching_commits != 1,
                }
            } else if w == WireClass::MlsApplication && k is None {
                match r {
                    Ok(MlsSequenceRow::Application { epoch, generation }) => epoch == e && generation == g
                        && e == current_epoch(newest_epoch) && g == next_generation(last_generation),
                    Ok(_) => false,
                    Err(_) => e != current_epoch(newest_epoch) || g != next_generation(last_generation),
                }
            } else {
                r is Err
            },
        },
{
    let step = match plan_mls_sequence(route) {
        Ok(s) => s,
        Err(c) => return Err(c),
    };
    match step {
        MlsSequenceStep::Commit { epoch, commit_id } => {
            if !commit_epoch_ok(epoch, newest_epoch) {
                return Err(MlsSequenceConflict);
            }
            match commit_id {
                Some(c) => Ok(MlsSequenceRow::Commit { epoch, commit_id: c }),
                None => Err(MlsSequenceConflict),
            }
        },
        MlsSequenceStep::Welcome { epoch, commit_id } => {
            if welcome_ok(matching_commits) {
                Ok(MlsSequenceRow::Welcome { epoch, commit_id })
            } else {
                Err(MlsSequenceConflict)
            }
        },
        MlsSequenceStep::Application { epoch, generation } => {
            if application_ok(epoch, newest_epoch, generation, last_generation) {
                Ok(MlsSequenceRow::Application { epoch, generation })
            } else {
                Err(MlsSequenceConflict)
            }
        },
    }
}

/// The JSON bytes of message properties sent as base64 text (standard
/// alphabet, padded); `None` when the text is no such base64.
pub fn properties_json_bytes(header: &str) -> (r: Option<Vec<u8>>)
    ensures
        match r {
            Some(v) => base64_decoded(header@) == Some(v@),
            None => base64_decoded(header@) is None,
        },
{
    match b64_decode(header) {
        Ok(v) => Some(v),
        Err(_) => None,
    }
}

} // verus!
