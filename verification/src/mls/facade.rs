//! MLS group messaging for one device, built on OpenMLS. The OpenMLS
//! values (provider with its key store, signature key pair, group state,
//! key packages, Welcome messages) are opaque here; every OpenMLS call goes
//! through one small trusted item, and the facade's own decisions (framing,
//! member selection, message classification) are verified.
use vstd::prelude::*;

use openmls::prelude::tls_codec::{Deserialize as TlsDeserialize, Serialize as TlsSerialize};
use openmls::prelude::{
    BasicCredential, Ciphersuite, LeafNodeIndex, MlsGroupCreateConfig, MlsGroupJoinConfig, MlsMessageBodyIn,
    OpenMlsProvider, ProcessedMessageContent, ProtocolVersion, PURE_CIPHERTEXT_WIRE_FORMAT_POLICY,
};
use openmls_basic_credential::SignatureKeyPair;
use openmls_rust_crypto::OpenMlsRustCrypto;

use crate::mls::framing::{decode_welcome_bundle, encode_welcome_bundle, framed, law_welcome_bundle_roundtrip, split_bundle};
use crate::mls::MlsError;

verus! {

#[verifier::external_type_specification]
#[verifier::external_body]
pub struct ExOpenMlsRustCrypto(OpenMlsRustCrypto);

#[verifier::external_type_specification]
#[verifier::external_body]
pub struct ExSignatureKeyPair(SignatureKeyPair);

#[verifier::external_type_specification]
#[verifier::external_body]
pub struct ExCredentialWithKey(openmls::prelude::CredentialWithKey);

#[verifier::external_type_specification]
#[verifier::external_body]
pub struct ExKeyPackage(openmls::prelude::KeyPackage);

#[verifier::external_type_specification]
#[verifier::external_body]
pub struct ExKeyPackageIn(openmls::prelude::KeyPackageIn);

#[verifier::external_type_specification]
#[verifier::external_body]
pub struct ExWelcome(openmls::prelude::Welcome);

#[verifier::external_type_specification]
#[verifier::external_body]
pub struct ExRatchetTreeIn(openmls::prelude::RatchetTreeIn);

#[verifier::external_type_specification]
#[verifier::external_body]
pub struct ExMlsGroup(openmls::prelude::MlsGroup);

#[verifier::external_type_specification]
#[verifier::external_body]
pub struct ExStagedCommit(openmls::prelude::StagedCommit);

#[verifier::external_type_specification]
#[verifier::external_body]
pub struct ExMlsMessageIn(openmls::prelude::MlsMessageIn);

/// The contents of a provider's in-memory key store (the `MemoryStorage`
/// map of `OpenMlsRustCrypto`), as key/value byte strings. OpenMLS writes
/// it through shared references; every wrapper that hands the provider to
/// OpenMLS takes it as `&mut` here, so that nothing is believed of the
/// store after such a call.
pub uninterp spec fn mls_store(p: OpenMlsRustCrypto) -> Map<Seq<u8>, Seq<u8>>;

/// The map that inserting `entries` in order into an empty map gives (a
/// later entry for a key replaces an earlier one).
pub open spec fn entries_map(entries: Seq<(Vec<u8>, Vec<u8>)>) -> Map<Seq<u8>, Seq<u8>>
    decreases entries.len(),
{
    if entries.len() == 0 {
        Map::empty()
    } else {
        entries_map(entries.drop_last()).insert(entries.last().0@, entries.last().1@)
    }
}

/// No key occurs twice among `entries`.
pub open spec fn distinct_keys(entries: Seq<(Vec<u8>, Vec<u8>)>) -> bool {
    forall|i: int, j: int| 0 <= i < j < entries.len() ==> (#[trigger] entries[i]).0@ != (#[trigger] entries[j]).0@
}

/// The members of a group's ratchet tree, as (leaf index, serialized
/// credential content), in leaf order (`MlsGroup::members`).
pub uninterp spec fn mls_roster(g: openmls::prelude::MlsGroup) -> Seq<(u32, Seq<u8>)>;

/// The group's epoch number (`MlsGroup::epoch`).
pub uninterp spec fn mls_epoch(g: openmls::prelude::MlsGroup) -> u64;

/// The group's id (`MlsGroup::group_id`).
pub uninterp spec fn mls_group_id(g: openmls::prelude::MlsGroup) -> Seq<u8>;

/// The group holds a commit of its own that is staged and not yet merged
/// (its state is `MlsGroupState::PendingCommit`).
pub uninterp spec fn mls_pending_commit(g: openmls::prelude::MlsGroup) -> bool;

/// The group's proposal store is empty: no proposal is queued that a
/// commit of this member would take in besides its own.
pub uninterp spec fn mls_no_proposals(g: openmls::prelude::MlsGroup) -> bool;

/// The key schedule of the group's current epoch that protects application
/// messages (the epoch's sender-data and encryption secrets with the tree
/// size they are spread over), as bytes.
pub uninterp spec fn mls_epoch_secrets(g: openmls::prelude::MlsGroup) -> Seq<u8>;

/// The application content that the MLS private message read from the
/// start of `message` carries, decrypted under the epoch key schedule
/// `secrets`; `None` when it is no such message or does not decrypt.
pub uninterp spec fn mls_app_plaintext(secrets: Seq<u8>, message: Seq<u8>) -> Option<Seq<u8>>;

/// Processing `message` in group `g` (`MlsGroup::process_message` on the
/// protocol message read from its start) authenticates and decrypts it as an
/// application message.
pub uninterp spec fn mls_accepts_application(g: openmls::prelude::MlsGroup, message: Seq<u8>) -> bool;

/// The group is active: this member has not been removed from it (its
/// state is not `MlsGroupState::Inactive`).
pub uninterp spec fn mls_active(g: openmls::prelude::MlsGroup) -> bool;

/// The sending ratchet of this member for application messages in the
/// current epoch has not reached its last generation.
pub uninterp spec fn mls_send_budget(g: openmls::prelude::MlsGroup) -> bool;

/// This member's own leaf index (`MlsGroup::own_leaf_index`).
pub uninterp spec fn mls_own_leaf(g: openmls::prelude::MlsGroup) -> u32;

/// Every value that OpenMLS reads back from the provider's key store
/// deserializes: the store holds only what OpenMLS wrote into it.
pub uninterp spec fn mls_store_intact(p: OpenMlsRustCrypto) -> bool;

/// The group id and epoch of the group that Welcome `w` admits to, as read
/// with the key-package secrets held in the key store `store`; `None` when
/// the store holds none that opens it.
pub uninterp spec fn mls_welcome_group(store: Map<Seq<u8>, Seq<u8>>, w: openmls::prelude::Welcome) -> Option<(Seq<u8>, u64)>;

/// The members the group's pending commit leaves once it is merged, as
/// (leaf index, serialized credential content), in leaf order.
pub uninterp spec fn mls_pending_roster(g: openmls::prelude::MlsGroup) -> Seq<(u32, Seq<u8>)>;

/// `roster` without the members at the leaves `leaves`, in leaf order.
pub open spec fn roster_without(roster: Seq<(u32, Seq<u8>)>, leaves: Seq<u32>) -> Seq<(u32, Seq<u8>)>
    decreases roster.len(),
{
    if roster.len() == 0 {
        Seq::empty()
    } else {
        let rest = roster_without(roster.drop_last(), leaves);
        if leaves.contains(roster.last().0) { rest } else { rest.push(roster.last()) }
    }
}

/// The epoch a staged commit moves the group into (`StagedCommit::epoch`).
pub uninterp spec fn mls_staged_epoch(c: openmls::prelude::StagedCommit) -> u64;

/// The serialized content of a credential (`Credential::serialized_content`);
/// for a basic credential, its identity.
pub uninterp spec fn mls_credential_content(c: openmls::prelude::CredentialWithKey) -> Seq<u8>;

/// The serialized credential content of a key package's leaf node.
pub uninterp spec fn mls_key_package_credential(kp: openmls::prelude::KeyPackage) -> Seq<u8>;

/// `d` reads as the `Debug` text of an OpenMLS or TLS-codec error enum: it
/// starts with the variant's name, an upper-case ASCII letter.
pub open spec fn debug_text(d: Seq<char>) -> bool {
    d.len() > 0 && 'A' <= d[0] && d[0] <= 'Z'
}

/// The leaves `indices` are listed in increasing order.
pub open spec fn increasing_leaves(indices: Seq<u32>) -> bool {
    forall|i: int, j: int| 0 <= i < j < indices.len() ==> indices[i] < indices[j]
}

/// Some member of `roster` sits at leaf `leaf`.
pub open spec fn leaf_in_roster(roster: Seq<(u32, Seq<u8>)>, leaf: u32) -> bool {
    exists|k: int| 0 <= k < roster.len() && (#[trigger] roster[k]).0 == leaf
}

/// `after` is `before` with one new member per credential of `added`: every
/// member of `before` stays, and each added credential sits at some leaf.
pub open spec fn admitted(before: Seq<(u32, Seq<u8>)>, after: Seq<(u32, Seq<u8>)>, added: Seq<Seq<u8>>) -> bool {
    &&& after.len() == before.len() + added.len()
    &&& forall|i: int| 0 <= i < before.len() ==> after.contains(#[trigger] before[i])
    &&& forall|j: int| 0 <= j < added.len() ==> exists|k: int| 0 <= k < after.len() && (#[trigger] after[k]).1 == #[trigger] added[j]
}

/// The credential contents of key packages.
pub open spec fn package_credentials(kps: Seq<openmls::prelude::KeyPackage>) -> Seq<Seq<u8>> {
    kps.map_values(|kp: openmls::prelude::KeyPackage| mls_key_package_credential(kp))
}

/// The TLS encoding of a key package (`tls_serialize_detached`).
pub uninterp spec fn tls_key_package(kp: openmls::prelude::KeyPackage) -> Seq<u8>;

/// The TLS encoding of a Welcome (`tls_serialize_detached`).
pub uninterp spec fn tls_welcome(w: openmls::prelude::Welcome) -> Seq<u8>;

/// The TLS encoding of a ratchet tree (`tls_serialize_detached`).
pub uninterp spec fn tls_ratchet_tree(t: openmls::prelude::RatchetTreeIn) -> Seq<u8>;

/// `b` is exactly the TLS encoding of some key package
/// (`KeyPackageIn::tls_deserialize_exact` accepts it).
pub uninterp spec fn tls_key_package_decodes(b: Seq<u8>) -> bool;

/// `b` is exactly the TLS encoding of some Welcome
/// (`Welcome::tls_deserialize_exact` accepts it).
pub uninterp spec fn tls_welcome_decodes(b: Seq<u8>) -> bool;

/// `b` is exactly the TLS encoding of some ratchet tree
/// (`RatchetTreeIn::tls_deserialize_exact` accepts it).
pub uninterp spec fn tls_ratchet_tree_decodes(b: Seq<u8>) -> bool;

/// The content of a processed protocol message, as the facade reads it.
pub enum ProcessedContent {
    Application(Vec<u8>),
    Commit(openmls::prelude::StagedCommit),
    Other,
}

/// A fresh provider: OpenMLS's RustCrypto backend with an empty in-memory
/// key store (`OpenMlsRustCrypto::default`).
#[verifier::external_body]
fn new_provider() -> (fresh: OpenMlsRustCrypto)
    ensures
        mls_store(fresh) =~= Map::empty(),
        mls_store_intact(fresh),
{
    OpenMlsRustCrypto::default()
}

/// A provider whose key store holds `entries` (writes them into the
/// `MemoryStorage` map of a fresh provider). Claims success: the write
/// lock of a freshly made store cannot be poisoned, the only way
/// `RwLock::write` fails.
#[verifier::external_body]
fn provider_with_entries(entries: Vec<(Vec<u8>, Vec<u8>)>) -> (r: Result<OpenMlsRustCrypto, String>)
    ensures
        r is Ok,
        r matches Ok(filled) ==> mls_store(filled) == entries_map(entries@),
{
    let provider = OpenMlsRustCrypto::default();
    provider.storage().values.write().map_err(|e| format!("{e:?}"))?.extend(entries);
    Ok(provider)
}

/// Every key/value entry of the provider's in-memory key store (the
/// `MemoryStorage` map, in its iteration order): each key once, and
/// together exactly the store's contents. Fails only when the lock is
/// poisoned.
#[verifier::external_body]
fn provider_entries(provider: &OpenMlsRustCrypto) -> (r: Result<Vec<(Vec<u8>, Vec<u8>)>, String>)
    ensures
        r matches Ok(e) ==> distinct_keys(e@) && entries_map(e@) == mls_store(*provider),
{
    Ok(provider.storage().values.read().map_err(|e| format!("{e:?}"))?.iter().map(|(k, v)| (k.clone(), v.clone())).collect())
}

/// A fresh Ed25519 signature key pair (`SignatureKeyPair::new` for the
/// ciphersuite's signature scheme); drawn from the OS RNG, so nothing is
/// stated of the key. Claims success: `SignatureKeyPair::new` fails only
/// for an unsupported scheme, and Ed25519 is supported.
#[verifier::external_body]
fn new_signer() -> (r: Result<SignatureKeyPair, String>)
    ensures
        r is Ok,
{
    SignatureKeyPair::new(Ciphersuite::MLS_128_DHKEMX25519_AES128GCM_SHA256_Ed25519.signature_algorithm())
        .map_err(|e| format!("{e:?}"))
}

/// Store the signature key pair in the provider's key store
/// (`SignatureKeyPair::store`). Claims success: the memory store's
/// `write_signature_key_pair` always returns `Ok`; what it writes is the
/// key pair's serialization.
#[verifier::external_body]
fn store_signer(signer: &SignatureKeyPair, provider: &mut OpenMlsRustCrypto) -> (r: Result<(), String>)
    ensures
        r is Ok,
        mls_store_intact(*old(provider)) ==> mls_store_intact(*final(provider)),
{
    signer.store(provider.storage()).map_err(|e| format!("{e:?}"))
}

/// A basic credential over `identity` bound to the signer's public key
/// (`BasicCredential::new`); its serialized content is `identity`.
#[verifier::external_body]
fn credential_for(identity: &[u8], signer: &SignatureKeyPair) -> (c: openmls::prelude::CredentialWithKey)
    ensures
        mls_credential_content(c) == identity@,
{
    openmls::prelude::CredentialWithKey {
        credential: BasicCredential::new(identity.to_vec()).into(),
        signature_key: signer.public().into(),
    }
}

/// A fresh one-time key package for the credential (`KeyPackage::builder`
/// then `build`; its private keys go to the provider's store). Its leaf
/// node carries the given credential.
#[verifier::external_body]
fn build_key_package(
    provider: &mut OpenMlsRustCrypto,
    signer: &SignatureKeyPair,
    credential: &openmls::prelude::CredentialWithKey,
) -> (r: Result<openmls::prelude::KeyPackage, String>)
    ensures
        r matches Ok(kp) ==> mls_key_package_credential(kp) == mls_credential_content(*credential),
        mls_store_intact(*old(provider)) ==> mls_store_intact(*final(provider)),
{
    openmls::prelude::KeyPackage::builder()
        .build(Ciphersuite::MLS_128_DHKEMX25519_AES128GCM_SHA256_Ed25519, &*provider, signer, credential.clone())
        .map(|bundle| bundle.key_package().clone())
        .map_err(|e| format!("{e:?}"))
}

/// A new group with the given id and this device as its only member, using
/// ciphertext-only wire format (`MlsGroup::new_with_group_id`). The new
/// group has id `group_id`, is at epoch 0 (the initial group context), is
/// operational with a fresh sending ratchet and no queued proposal, and its
/// tree holds one leaf, index 0 (this member's), with the given credential.
#[verifier::external_body]
fn new_group(
    provider: &mut OpenMlsRustCrypto,
    signer: &SignatureKeyPair,
    group_id: &[u8],
    credential: openmls::prelude::CredentialWithKey,
) -> (r: Result<openmls::prelude::MlsGroup, String>)
    ensures
        r matches Ok(g) ==> mls_group_id(g) == group_id@ && mls_epoch(g) == 0
            && mls_roster(g) == seq![(0u32, mls_credential_content(credential))]
            && mls_no_proposals(g) && mls_active(g) && !mls_pending_commit(g) && mls_send_budget(g)
            && mls_own_leaf(g) == 0,
        mls_store_intact(*old(provider)) ==> mls_store_intact(*final(provider)),
{
    let config = MlsGroupCreateConfig::builder()
        .ciphersuite(Ciphersuite::MLS_128_DHKEMX25519_AES128GCM_SHA256_Ed25519)
        .wire_format_policy(PURE_CIPHERTEXT_WIRE_FORMAT_POLICY)
        .build();
    openmls::prelude::MlsGroup::new_with_group_id(&*provider, signer, &config, openmls::prelude::GroupId::from_slice(group_id), credential)
        .map_err(|e| format!("{e:?}"))
}

/// Join the group a Welcome admits to, with its ratchet tree, under the
/// default join configuration (`StagedWelcome::new_from_welcome`, then
/// `into_group`). The joined group is the one the Welcome names, read with
/// the key-package secrets of the store; it is operational with a fresh
/// sending ratchet and no queued proposal.
/// Whether joining succeeds also depends on the current time (the default
/// configuration checks leaf-node lifetimes), so no success is claimed.
#[verifier::external_body]
fn join_from_welcome(
    provider: &mut OpenMlsRustCrypto,
    welcome: &openmls::prelude::Welcome,
    tree: &openmls::prelude::RatchetTreeIn,
) -> (r: Result<openmls::prelude::MlsGroup, String>)
    ensures
        r matches Ok(g) ==> mls_welcome_group(mls_store(*old(provider)), *welcome) == Some((mls_group_id(g), mls_epoch(g)))
            && mls_no_proposals(g) && mls_active(g) && !mls_pending_commit(g) && mls_send_budget(g),
        mls_store_intact(*old(provider)) ==> mls_store_intact(*final(provider)),
{
    let staged = openmls::prelude::StagedWelcome::new_from_welcome(&*provider, &MlsGroupJoinConfig::default(), welcome.clone(), Some(tree.clone()))
        .map_err(|e| format!("{e:?}"))?;
    staged.into_group(&*provider).map_err(|e| format!("{e:?}"))
}

/// The group stored under `group_id` in the provider's key store, if any
/// (`MlsGroup::load`).
#[verifier::external_body]
fn load_group(provider: &OpenMlsRustCrypto, group_id: &[u8]) -> (r: Result<Option<openmls::prelude::MlsGroup>, String>) {
    openmls::prelude::MlsGroup::load(provider.storage(), &openmls::prelude::GroupId::from_slice(group_id))
        .map_err(|e| format!("{e:?}"))
}

/// TLS serialization of a key package (`tls_serialize_detached`).
#[verifier::external_body]
fn key_package_bytes(kp: &openmls::prelude::KeyPackage) -> (r: Result<Vec<u8>, String>)
    ensures
        r matches Ok(b) ==> b@ == tls_key_package(*kp),
{
    kp.tls_serialize_detached().map_err(|e| format!("{e:?}"))
}

/// A key package read from exactly `bytes` (`KeyPackageIn::tls_deserialize_exact`).
#[verifier::external_body]
fn key_package_in_from_bytes(bytes: &[u8]) -> (r: Result<openmls::prelude::KeyPackageIn, String>)
    ensures
        r is Ok <==> tls_key_package_decodes(bytes@),
{
    openmls::prelude::KeyPackageIn::tls_deserialize_exact(bytes).map_err(|e| format!("{e:?}"))
}

/// Validate a received key package for MLS 1.0 (`KeyPackageIn::validate`:
/// signature, ciphersuite, lifetime).
#[verifier::external_body]
fn validate_key_package(
    kp: openmls::prelude::KeyPackageIn,
    provider: &OpenMlsRustCrypto,
) -> (r: Result<openmls::prelude::KeyPackage, String>) {
    kp.validate(provider.crypto(), ProtocolVersion::Mls10).map_err(|e| format!("{e:?}"))
}

/// TLS serialization of a Welcome (`tls_serialize_detached`).
#[verifier::external_body]
fn welcome_bytes(w: &openmls::prelude::Welcome) -> (r: Result<Vec<u8>, String>)
    ensures
        r matches Ok(b) ==> b@ == tls_welcome(*w),
{
    w.tls_serialize_detached().map_err(|e| format!("{e:?}"))
}

/// TLS serialization of a ratchet tree (`tls_serialize_detached`).
#[verifier::external_body]
fn tree_bytes(t: &openmls::prelude::RatchetTreeIn) -> (r: Result<Vec<u8>, String>)
    ensures
        r matches Ok(b) ==> b@ == tls_ratchet_tree(*t),
{
    t.tls_serialize_detached().map_err(|e| format!("{e:?}"))
}

/// A Welcome read from exactly `bytes` (`Welcome::tls_deserialize_exact`).
#[verifier::external_body]
fn welcome_from_bytes(bytes: &[u8]) -> (r: Result<openmls::prelude::Welcome, String>)
    ensures
        r is Ok <==> tls_welcome_decodes(bytes@),
{
    openmls::prelude::Welcome::tls_deserialize_exact(bytes).map_err(|e| format!("{e:?}"))
}

/// A ratchet tree read from exactly `bytes` (`RatchetTreeIn::tls_deserialize_exact`).
#[verifier::external_body]
fn tree_from_bytes(bytes: &[u8]) -> (r: Result<openmls::prelude::RatchetTreeIn, String>)
    ensures
        r is Ok <==> tls_ratchet_tree_decodes(bytes@),
{
    openmls::prelude::RatchetTreeIn::tls_deserialize_exact(bytes).map_err(|e| format!("{e:?}"))
}

/// The group's current epoch number (`MlsGroup::epoch`).
#[verifier::external_body]
fn group_epoch(g: &openmls::prelude::MlsGroup) -> (e: u64)
    ensures
        e == mls_epoch(*g),
{
    g.epoch().as_u64()
}

/// The group's id (`MlsGroup::group_id`).
#[verifier::external_body]
fn group_id_of(g: &openmls::prelude::MlsGroup) -> (id: Vec<u8>)
    ensures
        id@ == mls_group_id(*g),
{
    g.group_id().to_vec()
}

/// The members of the group's tree as (leaf index, credential identity),
/// in tree order (`MlsGroup::members`), so by increasing leaf index.
#[verifier::external_body]
fn group_members(g: &openmls::prelude::MlsGroup) -> (m: Vec<(u32, Vec<u8>)>)
    ensures
        roster_of(m@) == mls_roster(*g),
        forall|i: int, j: int| 0 <= i < j < m@.len() ==> m@[i].0 < m@[j].0,
{
    g.members().map(|member| (member.index.u32(), member.credential.serialized_content().to_vec())).collect()
}

/// Commit removing the leaves `indices`, TLS-serialized
/// (`MlsGroup::remove_members`); the commit stays pending in the group, so
/// the group's id, epoch and tree are as before. The commit also takes in
/// every queued proposal; with none queued, it leaves exactly the members
/// at the other leaves. `remove_members` refuses a group that is not
/// operational (inactive, or with a commit pending) and an empty list;
/// building the commit refuses removals of a leaf twice, of an empty leaf,
/// or of the committer's own leaf, and fails otherwise only when the store
/// cannot be read (the memory store's writes always succeed).
#[verifier::external_body]
fn remove_leaves(
    g: &mut openmls::prelude::MlsGroup,
    provider: &mut OpenMlsRustCrypto,
    signer: &SignatureKeyPair,
    indices: &[u32],
) -> (r: Result<Vec<u8>, String>)
    ensures
        unchanged_epoch(*old(g), *final(g)),
        r is Ok ==> mls_pending_commit(*final(g)),
        r is Ok && mls_no_proposals(*old(g))
            ==> mls_pending_roster(*final(g)) == roster_without(mls_roster(*old(g)), indices@),
        mls_active(*old(g)) && !mls_pending_commit(*old(g)) && mls_no_proposals(*old(g))
            && mls_store_intact(*old(provider)) && indices@.len() > 0 && increasing_leaves(indices@)
            && (forall|i: int| 0 <= i < indices@.len() ==> leaf_in_roster(mls_roster(*old(g)), #[trigger] indices@[i]))
            && !indices@.contains(mls_own_leaf(*old(g)))
            ==> r is Ok,
        mls_store_intact(*old(provider)) ==> mls_store_intact(*final(provider)),
{
    let leaves: Vec<LeafNodeIndex> = indices.iter().map(|i| LeafNodeIndex::new(*i)).collect();
    let (commit, _, _) = g.remove_members(&*provider, signer, &leaves).map_err(|e| format!("{e:?}"))?;
    commit.tls_serialize_detached().map_err(|e| format!("{e:?}"))
}

/// Commit and Welcome adding the key packages, both TLS-serialized
/// (`MlsGroup::add_members`); the commit stays pending in the group, so the
/// group's id, epoch and tree are as before. With no proposal queued the
/// commit adds exactly the packages: the members it leaves are the current
/// ones and one new member per package, carrying its credential. An error
/// is the `Debug` text of an OpenMLS error. Success is not claimed: the
/// packages' lifetimes are checked against the current time.
#[verifier::external_body]
fn add_key_packages(
    g: &mut openmls::prelude::MlsGroup,
    provider: &mut OpenMlsRustCrypto,
    signer: &SignatureKeyPair,
    packages: Vec<openmls::prelude::KeyPackage>,
) -> (r: Result<(Vec<u8>, Vec<u8>), String>)
    ensures
        unchanged_epoch(*old(g), *final(g)),
        r is Ok ==> mls_pending_commit(*final(g)),
        r is Ok && mls_no_proposals(*old(g)) ==> admitted(mls_roster(*old(g)), mls_pending_roster(*final(g)),
            package_credentials(packages@)),
        r matches Err(d) ==> debug_text(d@),
        mls_store_intact(*old(provider)) ==> mls_store_intact(*final(provider)),
{
    let (commit, welcome, _) = g.add_members(&*provider, signer, &packages).map_err(|e| format!("{e:?}"))?;
    Ok((
        commit.tls_serialize_detached().map_err(|e| format!("{e:?}"))?,
        welcome.tls_serialize_detached().map_err(|e| format!("{e:?}"))?,
    ))
}

/// Apply the group's pending commit (`MlsGroup::merge_pending_commit`); the
/// group id stays (a commit keeps the group context's id). A pending commit
/// was staged against the current epoch, so merging it moves the group to
/// the next epoch (nothing is claimed at the last `u64` epoch). An own
/// commit never removes its committer, so merging it leaves the group
/// operational in the new epoch, with a fresh sending ratchet, an empty
/// proposal store and the same own leaf. With a commit pending, merging
/// fails only when the store cannot be read. An error is the `Debug` text
/// of an OpenMLS error.
#[verifier::external_body]
fn merge_pending(g: &mut openmls::prelude::MlsGroup, provider: &mut OpenMlsRustCrypto) -> (r: Result<(), String>)
    ensures
        mls_group_id(*final(g)) == mls_group_id(*old(g)),
        r is Ok && mls_pending_commit(*old(g)) && mls_epoch(*old(g)) < u64::MAX
            ==> mls_epoch(*final(g)) == mls_epoch(*old(g)) + 1,
        r is Ok && mls_pending_commit(*old(g)) ==> mls_roster(*final(g)) == mls_pending_roster(*old(g)),
        r is Ok && mls_pending_commit(*old(g)) ==> mls_no_proposals(*final(g)) && mls_active(*final(g))
            && !mls_pending_commit(*final(g)) && mls_send_budget(*final(g))
            && mls_own_leaf(*final(g)) == mls_own_leaf(*old(g)),
        mls_pending_commit(*old(g)) && mls_store_intact(*old(provider)) ==> r is Ok,
        r matches Err(d) ==> debug_text(d@),
        mls_store_intact(*old(provider)) ==> mls_store_intact(*final(provider)),
{
    g.merge_pending_commit(&*provider).map_err(|e| format!("{e:?}"))
}

/// Apply a staged commit (`MlsGroup::merge_staged_commit`); the group id
/// stays (a commit keeps the group context's id) and the group takes the
/// staged commit's group context, hence its epoch.
#[verifier::external_body]
fn merge_staged(
    g: &mut openmls::prelude::MlsGroup,
    provider: &mut OpenMlsRustCrypto,
    commit: openmls::prelude::StagedCommit,
) -> (r: Result<(), String>)
    ensures
        mls_group_id(*final(g)) == mls_group_id(*old(g)),
        r is Ok ==> mls_epoch(*final(g)) == mls_staged_epoch(commit),
        mls_store_intact(*old(provider)) ==> mls_store_intact(*final(provider)),
{
    g.merge_staged_commit(&*provider, commit).map_err(|e| format!("{e:?}"))
}

/// The ratchet tree of the group's current epoch (`MlsGroup::export_ratchet_tree`).
#[verifier::external_body]
fn export_tree(g: &openmls::prelude::MlsGroup) -> (t: openmls::prelude::RatchetTreeIn) {
    g.export_ratchet_tree().into()
}

/// The Welcome that the MLS message read from the start of `bytes`
/// carries, if it is one (`MlsMessageIn::tls_deserialize`, then
/// `extract`). An error is the `Debug` text of a TLS-codec error.
#[verifier::external_body]
fn welcome_in_message(bytes: &[u8]) -> (r: Result<Option<openmls::prelude::Welcome>, String>)
    ensures
        r matches Err(d) ==> debug_text(d@),
{
    let mut input = bytes;
    let message = openmls::prelude::MlsMessageIn::tls_deserialize(&mut input).map_err(|e| format!("{e:?}"))?;
    Ok(match message.extract() {
        MlsMessageBodyIn::Welcome(w) => Some(w),
        _ => None,
    })
}

/// Read the MLS message at the start of `bytes`, take its protocol message
/// (`MlsMessageIn::tls_deserialize`, `try_into_protocol_message`),
/// authenticate and process it (`MlsGroup::process_message`), then classify
/// its content. In this OpenMLS version a failed AEAD check is returned as
/// an error, not asserted. Processing merges nothing (a commit comes back
/// staged), so the group's id, epoch, tree and key schedule are as before.
/// Past-epoch secrets are not kept (the default configuration), so an
/// application message is decrypted under the current epoch's key
/// schedule. A handshake message is accepted only for the current epoch,
/// so a staged commit moves the group to the next one (nothing is claimed
/// at the last `u64` epoch). Whether the message comes back as an
/// application message is what `mls_accepts_application` names; decrypting
/// one deletes the secret of its ratchet generation, so the same message is
/// not accepted again. A group this member was removed from refuses every
/// message (`unprotect_message` checks `is_active`). Whether a commit is
/// accepted also depends on the
/// current time (leaf-node lifetimes), so nothing is named of it.
#[verifier::external_body]
fn process_wire(
    g: &mut openmls::prelude::MlsGroup,
    provider: &mut OpenMlsRustCrypto,
    bytes: &[u8],
) -> (r: Result<ProcessedContent, String>)
    ensures
        unchanged_epoch(*old(g), *final(g)),
        r matches Ok(ProcessedContent::Application(p)) ==> mls_app_plaintext(mls_epoch_secrets(*old(g)), bytes@) == Some(p@)
            && mls_no_proposals(*final(g)) == mls_no_proposals(*old(g)),
        r matches Ok(ProcessedContent::Commit(c)) ==> (mls_epoch(*old(g)) < u64::MAX
            ==> mls_staged_epoch(c) == mls_epoch(*old(g)) + 1),
        (r matches Ok(ProcessedContent::Application(_))) <==> mls_accepts_application(*old(g), bytes@),
        !mls_active(*old(g)) ==> r is Err,
        r matches Ok(ProcessedContent::Application(_)) ==> !mls_accepts_application(*final(g), bytes@)
            && mls_active(*final(g)) == mls_active(*old(g))
            && mls_pending_commit(*final(g)) == mls_pending_commit(*old(g)),
        mls_store_intact(*old(provider)) ==> mls_store_intact(*final(provider)),
{
    let mut input = bytes;
    let message = openmls::prelude::MlsMessageIn::tls_deserialize(&mut input).map_err(|e| format!("{e:?}"))?;
    let protocol = message.try_into_protocol_message().map_err(|e| format!("{e:?}"))?;
    let processed = g.process_message(&*provider, protocol).map_err(|e| format!("{e:?}"))?;
    Ok(match processed.into_content() {
        ProcessedMessageContent::ApplicationMessage(m) => ProcessedContent::Application(m.into_bytes()),
        ProcessedMessageContent::StagedCommitMessage(c) => ProcessedContent::Commit(*c),
        _ => ProcessedContent::Other,
    })
}

/// MLS application message encrypting `plaintext`, TLS-serialized
/// (`MlsGroup::create_message`): it carries `plaintext` under the current
/// epoch's key schedule. The group's id, epoch, tree, key schedule, state
/// and proposal store are as before. `create_message` refuses an inactive
/// group and a queued proposal; otherwise encryption fails only when the
/// sending ratchet has no generation left, and serialization only for a
/// payload beyond the TLS length limit (2^30 bytes).
#[verifier::external_body]
fn create_application(
    g: &mut openmls::prelude::MlsGroup,
    provider: &mut OpenMlsRustCrypto,
    signer: &SignatureKeyPair,
    plaintext: &[u8],
) -> (r: Result<Vec<u8>, String>)
    ensures
        unchanged_epoch(*old(g), *final(g)),
        mls_no_proposals(*final(g)) == mls_no_proposals(*old(g)),
        mls_active(*final(g)) == mls_active(*old(g)),
        mls_pending_commit(*final(g)) == mls_pending_commit(*old(g)),
        r matches Ok(c) ==> mls_app_plaintext(mls_epoch_secrets(*old(g)), c@) == Some(plaintext@),
        mls_active(*old(g)) && mls_send_budget(*old(g)) && mls_no_proposals(*old(g)) && plaintext@.len() <= 0x100_0000
            ==> r is Ok,
        mls_store_intact(*old(provider)) ==> mls_store_intact(*final(provider)),
{
    let m = g.create_message(&*provider, signer, plaintext).map_err(|e| format!("{e:?}"))?;
    m.tls_serialize_detached().map_err(|e| format!("{e:?}"))
}

/// The views of (leaf index, identity) pairs.
pub open spec fn roster_of(m: Seq<(u32, Vec<u8>)>) -> Seq<(u32, Seq<u8>)> {
    m.map_values(|p: (u32, Vec<u8>)| (p.0, p.1@))
}

/// `after` has the id, epoch, tree, epoch key schedule and own leaf of
/// `before`.
pub open spec fn unchanged_epoch(before: openmls::prelude::MlsGroup, after: openmls::prelude::MlsGroup) -> bool {
    &&& mls_group_id(after) == mls_group_id(before)
    &&& mls_epoch(after) == mls_epoch(before)
    &&& mls_roster(after) == mls_roster(before)
    &&& mls_epoch_secrets(after) == mls_epoch_secrets(before)
    &&& mls_own_leaf(after) == mls_own_leaf(before)
}

/// The facade error carrying an OpenMLS error text.
fn mls_error(detail: String) -> (e: MlsError)
    ensures
        e.0@ == detail@,
{
    MlsError(detail)
}

/// A device identity and its local OpenMLS key store.
pub struct MlsClient {
    provider: OpenMlsRustCrypto,
    signer: SignatureKeyPair,
    credential: openmls::prelude::CredentialWithKey,
    identity: Vec<u8>,
}

/// A key package published by a device for one-time group admission.
pub struct MlsKeyPackage(openmls::prelude::KeyPackage);

/// A Welcome and the authenticated public tree needed to join its group.
pub struct MlsWelcome {
    welcome: openmls::prelude::Welcome,
    ratchet_tree: openmls::prelude::RatchetTreeIn,
}

/// The Commit for existing members and the Welcome for newly admitted ones.
pub struct MlsAdmission {
    commit: Vec<u8>,
    welcome: MlsWelcome,
}

/// Result of processing one MLS protocol wire message.
pub enum MlsProcessed {
    Application(Vec<u8>),
    Commit,
}

/// An active MLS group bound to a single device.
pub struct MlsGroupState {
    provider: OpenMlsRustCrypto,
    signer: SignatureKeyPair,
    group: openmls::prelude::MlsGroup,
}

impl MlsClient {
    /// The device credential is a basic credential over the identity.
    #[verifier::type_invariant]
    closed spec fn credential_matches(self) -> bool {
        mls_credential_content(self.credential) == self.identity@
    }

    /// The identity bytes of the device credential.
    pub closed spec fn identity_view(&self) -> Seq<u8> {
        self.identity@
    }

    /// The device's signature key pair.
    pub closed spec fn signer_key(&self) -> SignatureKeyPair {
        self.signer
    }

    /// The contents of the device's key store.
    pub closed spec fn store_view(&self) -> Map<Seq<u8>, Seq<u8>> {
        mls_store(self.provider)
    }

    /// The device's key store holds only what OpenMLS wrote into it.
    pub closed spec fn store_intact_view(&self) -> bool {
        mls_store_intact(self.provider)
    }

    /// Generate an MLS device credential over `identity`.
    pub fn generate(identity: &[u8]) -> (r: Result<MlsClient, MlsError>)
        ensures
            r matches Ok(c) && c.identity_view() == identity@ && c.store_intact_view(),
    {
        let mut provider = new_provider();
        let signer = match new_signer() {
            Ok(s) => s,
            Err(d) => return Err(mls_error(d)),
        };
        if let Err(d) = store_signer(&signer, &mut provider) {
            return Err(mls_error(d));
        }
        let credential = credential_for(identity, &signer);
        let owned = crate::bytes::slice_range(identity, 0, identity.len());
        assert(owned@ =~= identity@);
        Ok(MlsClient { provider, signer, credential, identity: owned })
    }

    /// Rebuild a device from its signer, identity and key-store entries.
    pub fn from_storage(signer: SignatureKeyPair, identity: Vec<u8>, storage: Vec<(Vec<u8>, Vec<u8>)>) -> (r: Result<MlsClient, MlsError>)
        ensures
            r matches Ok(c) && c.identity_view() == identity@ && c.signer_key() == signer
                && c.store_view() == entries_map(storage@),
    {
        let provider = match provider_with_entries(storage) {
            Ok(p) => p,
            Err(d) => return Err(mls_error(d)),
        };
        let credential = credential_for(identity.as_slice(), &signer);
        Ok(MlsClient { provider, signer, credential, identity })
    }

    /// The device's signature key pair.
    pub fn signer(&self) -> (s: &SignatureKeyPair)
        ensures
            *s == self.signer_key(),
    {
        &self.signer
    }

    /// The device's credential identity.
    pub fn identity(&self) -> (i: &[u8])
        ensures
            i@ == self.identity_view(),
    {
        self.identity.as_slice()
    }

    /// The entries of the device's key store.
    pub fn storage_entries(&self) -> (r: Result<Vec<(Vec<u8>, Vec<u8>)>, MlsError>)
        ensures
            r matches Ok(e) ==> distinct_keys(e@) && entries_map(e@) == self.store_view(),
    {
        match provider_entries(&self.provider) {
            Ok(e) => Ok(e),
            Err(d) => Err(mls_error(d)),
        }
    }

    /// Create a fresh one-time KeyPackage for this device.
    pub fn key_package(&mut self) -> (r: Result<MlsKeyPackage, MlsError>)
        ensures
            final(self).identity_view() == old(self).identity_view(),
            final(self).signer_key() == old(self).signer_key(),
            old(self).store_intact_view() ==> final(self).store_intact_view(),
            r matches Ok(kp) ==> kp.credential_view() == old(self).identity_view(),
    {
        proof {
            use_type_invariant(&*self);
        }
        let mut provider = new_provider();
        std::mem::swap(&mut provider, &mut self.provider);
        let built = build_key_package(&mut provider, &self.signer, &self.credential);
        std::mem::swap(&mut provider, &mut self.provider);
        match built {
            Ok(kp) => Ok(MlsKeyPackage(kp)),
            Err(d) => Err(mls_error(d)),
        }
    }

    /// Consume the device state to create a new group: the group has id
    /// `group_id`, is at epoch 0 and has this device as its only member, at
    /// leaf 0.
    pub fn create_group(self, group_id: &[u8]) -> (r: Result<MlsGroupState, MlsError>)
        ensures
            r matches Ok(g) ==> {
                &&& g.group_id_view() == group_id@
                &&& g.epoch_view() == 0
                &&& g.roster_view() == seq![(0u32, self.identity_view())]
                &&& g.signer_key() == self.signer_key()
                &&& g.no_proposals_view()
                &&& g.can_commit_view()
                &&& g.send_budget_view()
                &&& g.own_leaf_view() == 0
                &&& (self.store_intact_view() ==> g.store_intact_view())
            },
    {
        proof {
            use_type_invariant(&self);
        }
        let MlsClient { mut provider, signer, credential, identity: _ } = self;
        match new_group(&mut provider, &signer, group_id, credential) {
            Ok(group) => Ok(MlsGroupState { provider, signer, group }),
            Err(d) => Err(mls_error(d)),
        }
    }

    /// Consume the device state and join from a Welcome; the group keeps
    /// the device's signer.
    pub fn join_group(self, welcome: &MlsWelcome) -> (r: Result<MlsGroupState, MlsError>)
        ensures
            r matches Ok(g) ==> {
                &&& g.signer_key() == self.signer_key()
                &&& mls_welcome_group(self.store_view(), welcome.welcome_value())
                    == Some((g.group_id_view(), g.epoch_view()))
                &&& g.no_proposals_view()
                &&& g.can_commit_view()
                &&& g.send_budget_view()
                &&& (self.store_intact_view() ==> g.store_intact_view())
            },
    {
        let MlsClient { mut provider, signer, credential: _, identity: _ } = self;
        match join_from_welcome(&mut provider, &welcome.welcome, &welcome.ratchet_tree) {
            Ok(group) => Ok(MlsGroupState { provider, signer, group }),
            Err(d) => Err(mls_error(d)),
        }
    }
}

/// The credential contents (the identities) of key packages.
pub open spec fn member_credentials(kps: Seq<MlsKeyPackage>) -> Seq<Seq<u8>> {
    kps.map_values(|kp: MlsKeyPackage| kp.credential_view())
}

impl MlsKeyPackage {
    /// The credential content (the identity) of the package's leaf.
    pub closed spec fn credential_view(&self) -> Seq<u8> {
        mls_key_package_credential(self.0)
    }

    /// The TLS encoding of the package.
    pub closed spec fn encoding_view(&self) -> Seq<u8> {
        tls_key_package(self.0)
    }

    /// TLS encoding of the key package.
    pub fn to_bytes(&self) -> (r: Result<Vec<u8>, MlsError>)
        ensures
            r matches Ok(b) ==> b@ == self.encoding_view(),
    {
        match key_package_bytes(&self.0) {
            Ok(b) => Ok(b),
            Err(d) => Err(mls_error(d)),
        }
    }

    /// Read and validate a key package received from another device; bytes
    /// that are not exactly one encoded key package are refused.
    pub fn from_bytes(bytes: &[u8]) -> (r: Result<MlsKeyPackage, MlsError>)
        ensures
            !tls_key_package_decodes(bytes@) ==> r is Err,
    {
        let provider = new_provider();
        let input = match key_package_in_from_bytes(bytes) {
            Ok(k) => k,
            Err(d) => return Err(mls_error(d)),
        };
        match validate_key_package(input, &provider) {
            Ok(kp) => Ok(MlsKeyPackage(kp)),
            Err(d) => Err(mls_error(d)),
        }
    }
}

impl MlsWelcome {
    /// The Welcome itself.
    pub closed spec fn welcome_value(&self) -> openmls::prelude::Welcome {
        self.welcome
    }

    /// The TLS encoding of the Welcome.
    pub closed spec fn welcome_encoding(&self) -> Seq<u8> {
        tls_welcome(self.welcome)
    }

    /// The TLS encoding of the ratchet tree.
    pub closed spec fn tree_encoding(&self) -> Seq<u8> {
        tls_ratchet_tree(self.ratchet_tree)
    }

    /// The Welcome bundle: the TLS-encoded Welcome and ratchet tree, each
    /// with a four-byte big-endian length.
    pub fn to_bytes(&self) -> (r: Result<Vec<u8>, MlsError>)
        ensures
            r matches Ok(b) ==> b@ == framed(self.welcome_encoding()) + framed(self.tree_encoding())
                && split_bundle(b@) == Some((self.welcome_encoding(), self.tree_encoding())),
    {
        let welcome = match welcome_bytes(&self.welcome) {
            Ok(w) => w,
            Err(d) => return Err(mls_error(d)),
        };
        let tree = match tree_bytes(&self.ratchet_tree) {
            Ok(t) => t,
            Err(d) => return Err(mls_error(d)),
        };
        let output = encode_welcome_bundle(welcome.as_slice(), tree.as_slice())?;
        proof {
            law_welcome_bundle_roundtrip(welcome@, tree@);
        }
        Ok(output)
    }

    /// Read a Welcome bundle; both parts must decode exactly and nothing may
    /// follow them.
    pub fn from_bytes(bytes: &[u8]) -> (r: Result<MlsWelcome, MlsError>)
        ensures
            r is Ok <==> (split_bundle(bytes@) matches Some((w, t)) && tls_welcome_decodes(w) && tls_ratchet_tree_decodes(t)),
    {
        let (welcome, tree) = decode_welcome_bundle(bytes)?;
        let welcome = match welcome_from_bytes(welcome.as_slice()) {
            Ok(w) => w,
            Err(d) => return Err(mls_error(d)),
        };
        let ratchet_tree = match tree_from_bytes(tree.as_slice()) {
            Ok(t) => t,
            Err(d) => return Err(mls_error(d)),
        };
        Ok(MlsWelcome { welcome, ratchet_tree })
    }
}

/// Leaf indices of the members whose credential identity is one of
/// `identities`, in member order.
pub open spec fn matching_leaves(members: Seq<(u32, Vec<u8>)>, identities: Seq<Seq<u8>>) -> Seq<u32>
    decreases members.len(),
{
    if members.len() == 0 {
        Seq::empty()
    } else {
        let rest = matching_leaves(members.drop_last(), identities);
        if identities.contains(members.last().1@) { rest.push(members.last().0) } else { rest }
    }
}

/// The views of a list of byte strings.
pub open spec fn byte_strings(v: Seq<Vec<u8>>) -> Seq<Seq<u8>> {
    v.map_values(|b: Vec<u8>| b@)
}

/// Pick the leaf indices of the members whose identity is listed.
pub fn matching_member_leaves(members: &Vec<(u32, Vec<u8>)>, identities: &[Vec<u8>]) -> (r: Vec<u32>)
    ensures
        r@ == matching_leaves(members@, byte_strings(identities@)),
{
    let mut out: Vec<u32> = Vec::new();
    let mut i: usize = 0;
    while i < members.len()
        invariant
            i <= members@.len(),
            out@ == matching_leaves(members@.subrange(0, i as int), byte_strings(identities@)),
        decreases members@.len() - i,
    {
        let mut found = false;
        let mut j: usize = 0;
        while j < identities.len()
            invariant
                i < members@.len(),
                j <= identities@.len(),
                found == exists|k: int| 0 <= k < j && identities@[k]@ == members@[i as int].1@,
            decreases identities@.len() - j,
        {
            if crate::bytes::bytes_eq(identities[j].as_slice(), members[i].1.as_slice()) {
                found = true;
            }
            j = j + 1;
        }
        proof {
            let ids = byte_strings(identities@);
            let pre = members@.subrange(0, i as int + 1);
            assert(pre.drop_last() =~= members@.subrange(0, i as int));
            assert(pre.last() == members@[i as int]);
            if found {
                let k = choose|k: int| 0 <= k < identities@.len() && identities@[k]@ == members@[i as int].1@;
                assert(ids[k] == members@[i as int].1@);
            } else {
                assert forall|k: int| 0 <= k < ids.len() implies ids[k] != members@[i as int].1@ by {
                    assert(ids[k] == identities@[k]@);
                }
            }
        }
        if found {
            out.push(members[i].0);
        }
        i = i + 1;
    }
    assert(members@.subrange(0, members@.len() as int) =~= members@);
    out
}

impl MlsAdmission {
    /// The serialized Commit.
    pub closed spec fn commit_view(&self) -> Seq<u8> {
        self.commit@
    }

    /// The Welcome for the admitted devices.
    pub closed spec fn welcome_part(&self) -> MlsWelcome {
        self.welcome
    }
}

/// The leaves of `roster` whose identity is one of `identities`, in leaf
/// order.
pub open spec fn roster_leaves(roster: Seq<(u32, Seq<u8>)>, identities: Seq<Seq<u8>>) -> Seq<u32>
    decreases roster.len(),
{
    if roster.len() == 0 {
        Seq::empty()
    } else {
        let rest = roster_leaves(roster.drop_last(), identities);
        if identities.contains(roster.last().1) { rest.push(roster.last().0) } else { rest }
    }
}

proof fn lemma_roster_leaves(members: Seq<(u32, Vec<u8>)>, identities: Seq<Seq<u8>>)
    ensures
        matching_leaves(members, identities) == roster_leaves(roster_of(members), identities),
    decreases members.len(),
{
    if members.len() > 0 {
        lemma_roster_leaves(members.drop_last(), identities);
        assert(roster_of(members.drop_last()) =~= roster_of(members).drop_last());
    }
}

/// The leaves that `roster_leaves` picks from a roster listed by increasing
/// leaf index are increasing too, and each is a member's leaf.
proof fn lemma_roster_leaves_shape(roster: Seq<(u32, Seq<u8>)>, identities: Seq<Seq<u8>>)
    requires
        forall|i: int, j: int| 0 <= i < j < roster.len() ==> roster[i].0 < roster[j].0,
    ensures
        increasing_leaves(roster_leaves(roster, identities)),
        forall|i: int| 0 <= i < roster_leaves(roster, identities).len()
            ==> leaf_in_roster(roster, #[trigger] roster_leaves(roster, identities)[i]),
        forall|i: int| 0 <= i < roster_leaves(roster, identities).len()
            ==> exists|k: int| 0 <= k < roster.len() && (#[trigger] roster_leaves(roster, identities)[i]) == roster[k].0,
    decreases roster.len(),
{
    if roster.len() > 0 {
        let init = roster.drop_last();
        lemma_roster_leaves_shape(init, identities);
        let rest = roster_leaves(init, identities);
        assert forall|i: int| 0 <= i < rest.len() implies rest[i] < roster.last().0 by {
            let k = choose|k: int| 0 <= k < init.len() && rest[i] == init[k].0;
            assert(init[k] == roster[k]);
        }
        let all = roster_leaves(roster, identities);
        assert forall|i: int| 0 <= i < all.len() implies leaf_in_roster(roster, #[trigger] all[i])
            && exists|k: int| 0 <= k < roster.len() && all[i] == roster[k].0 by {
            if i < rest.len() {
                let k = choose|k: int| 0 <= k < init.len() && rest[i] == init[k].0;
                assert(init[k] == roster[k]);
                assert(roster[k].0 == all[i]);
            } else {
                assert(roster[roster.len() - 1].0 == all[i]);
            }
        }
    }
}

impl MlsGroupState {
    /// The group's id.
    pub closed spec fn group_id_view(&self) -> Seq<u8> {
        mls_group_id(self.group)
    }

    /// The group's epoch.
    pub closed spec fn epoch_view(&self) -> u64 {
        mls_epoch(self.group)
    }

    /// The group's members as (leaf index, credential identity), in leaf
    /// order.
    pub closed spec fn roster_view(&self) -> Seq<(u32, Seq<u8>)> {
        mls_roster(self.group)
    }

    /// The device's signature key pair.
    pub closed spec fn signer_key(&self) -> SignatureKeyPair {
        self.signer
    }

    /// The contents of the group's key store.
    pub closed spec fn store_view(&self) -> Map<Seq<u8>, Seq<u8>> {
        mls_store(self.provider)
    }

    /// No proposal is queued in the group.
    pub closed spec fn no_proposals_view(&self) -> bool {
        mls_no_proposals(self.group)
    }

    /// The key schedule of the group's current epoch for application
    /// messages.
    pub closed spec fn epoch_secrets_view(&self) -> Seq<u8> {
        mls_epoch_secrets(self.group)
    }

    /// The group is active (this member was not removed from it).
    pub closed spec fn active_view(&self) -> bool {
        mls_active(self.group)
    }

    /// The group holds a commit of its own awaiting merge.
    pub closed spec fn pending_commit_view(&self) -> bool {
        mls_pending_commit(self.group)
    }

    /// The group is active and holds no commit of its own awaiting merge,
    /// so this member can commit.
    pub open spec fn can_commit_view(&self) -> bool {
        self.active_view() && !self.pending_commit_view()
    }

    /// This member's sending ratchet of the current epoch has a generation
    /// left.
    pub closed spec fn send_budget_view(&self) -> bool {
        mls_send_budget(self.group)
    }

    /// This member's own leaf index.
    pub closed spec fn own_leaf_view(&self) -> u32 {
        mls_own_leaf(self.group)
    }

    /// The group's key store holds only what OpenMLS wrote into it.
    pub closed spec fn store_intact_view(&self) -> bool {
        mls_store_intact(self.provider)
    }

    /// Processing `message` in the group yields an application message.
    pub closed spec fn accepts_application(&self, message: Seq<u8>) -> bool {
        mls_accepts_application(self.group, message)
    }

    /// `self` has the group id, epoch, members, epoch key schedule and
    /// signer of `other`.
    pub open spec fn same_epoch(&self, other: MlsGroupState) -> bool {
        &&& self.group_id_view() == other.group_id_view()
        &&& self.epoch_view() == other.epoch_view()
        &&& self.roster_view() == other.roster_view()
        &&& self.epoch_secrets_view() == other.epoch_secrets_view()
        &&& self.signer_key() == other.signer_key()
    }

    /// Rebuild a group from the device signer, the group id and the entries
    /// of its key store.
    pub fn from_storage(signer: SignatureKeyPair, group_id: &[u8], storage: Vec<(Vec<u8>, Vec<u8>)>) -> (r: Result<MlsGroupState, MlsError>)
        ensures
            r matches Ok(g) ==> g.signer_key() == signer && g.store_view() == entries_map(storage@),
    {
        let provider = match provider_with_entries(storage) {
            Ok(p) => p,
            Err(d) => return Err(mls_error(d)),
        };
        let group = match load_group(&provider, group_id) {
            Ok(Some(g)) => g,
            Ok(None) => return Err(MlsError::msg("snapshot contains no MLS group state")),
            Err(d) => return Err(mls_error(d)),
        };
        Ok(MlsGroupState { provider, signer, group })
    }

    /// The device's signature key pair.
    pub fn signer(&self) -> (s: &SignatureKeyPair)
        ensures
            *s == self.signer_key(),
    {
        &self.signer
    }

    /// The group id.
    pub fn group_id(&self) -> (id: Vec<u8>)
        ensures
            id@ == self.group_id_view(),
    {
        group_id_of(&self.group)
    }

    /// The entries of the group's key store.
    pub fn storage_entries(&self) -> (r: Result<Vec<(Vec<u8>, Vec<u8>)>, MlsError>)
        ensures
            r matches Ok(e) ==> distinct_keys(e@) && entries_map(e@) == self.store_view(),
    {
        match provider_entries(&self.provider) {
            Ok(e) => Ok(e),
            Err(d) => Err(mls_error(d)),
        }
    }

    /// Current RFC 9420 group epoch for authenticated routing metadata.
    pub fn epoch(&self) -> (e: u64)
        ensures
            e == self.epoch_view(),
    {
        group_epoch(&self.group)
    }

    /// Authenticated credential identities currently in the tree.
    pub fn member_identities(&self) -> (r: Vec<Vec<u8>>)
        ensures
            r@.len() == self.roster_view().len(),
            forall|k: int| 0 <= k < r@.len() ==> (#[trigger] r@[k])@ == self.roster_view()[k].1,
    {
        let members = group_members(&self.group);
        proof {
            assert(roster_of(members@).len() == members@.len());
        }
        let mut out: Vec<Vec<u8>> = Vec::new();
        let mut i: usize = 0;
        while i < members.len()
            invariant
                i <= members@.len(),
                out@.len() == i,
                forall|k: int| 0 <= k < i ==> (#[trigger] out@[k])@ == members@[k].1@,
            decreases members@.len() - i,
        {
            out.push(members[i].1.clone());
            i = i + 1;
        }
        out
    }

    /// Remove the leaves whose credential identity is listed; the Commit is
    /// applied locally and returned for the other members.
    pub fn remove_identities(&mut self, identities: &[Vec<u8>]) -> (r: Result<Vec<u8>, MlsError>)
        ensures
            roster_leaves(old(self).roster_view(), byte_strings(identities@)).len() == 0 ==> {
                &&& r matches Err(e) && e.0@ == "no matching MLS members to remove"@
                &&& *final(self) == *old(self)
            },
            r is Ok ==> roster_leaves(old(self).roster_view(), byte_strings(identities@)).len() > 0,
            r is Ok && old(self).epoch_view() < u64::MAX ==> final(self).epoch_view() == old(self).epoch_view() + 1,
            r is Ok && old(self).no_proposals_view() ==> final(self).roster_view() == roster_without(old(self).roster_view(),
                roster_leaves(old(self).roster_view(), byte_strings(identities@))),
            r is Ok ==> final(self).no_proposals_view() && final(self).can_commit_view() && final(self).send_budget_view()
                && final(self).own_leaf_view() == old(self).own_leaf_view(),
            old(self).can_commit_view() && old(self).no_proposals_view() && old(self).store_intact_view()
                && roster_leaves(old(self).roster_view(), byte_strings(identities@)).len() > 0
                && !roster_leaves(old(self).roster_view(), byte_strings(identities@)).contains(old(self).own_leaf_view())
                ==> r is Ok,
            old(self).store_intact_view() ==> final(self).store_intact_view(),
            final(self).group_id_view() == old(self).group_id_view(),
            final(self).signer_key() == old(self).signer_key(),
    {
        let members = group_members(&self.group);
        let indices = matching_member_leaves(&members, identities);
        proof {
            lemma_roster_leaves(members@, byte_strings(identities@));
            lemma_roster_leaves_shape(roster_of(members@), byte_strings(identities@));
        }
        if indices.len() == 0 {
            return Err(MlsError::msg("no matching MLS members to remove"));
        }
        let commit = match remove_leaves(&mut self.group, &mut self.provider, &self.signer, indices.as_slice()) {
            Ok(c) => c,
            Err(d) => return Err(mls_error(d)),
        };
        if let Err(d) = merge_pending(&mut self.group, &mut self.provider) {
            return Err(mls_error(d));
        }
        Ok(commit)
    }

    /// Add one member and return its Welcome.
    pub fn add_member(&mut self, key_package: MlsKeyPackage) -> (r: Result<MlsWelcome, MlsError>)
        ensures
            r is Ok && old(self).no_proposals_view() ==> admitted(old(self).roster_view(), final(self).roster_view(),
                seq![key_package.credential_view()]),
            r is Ok ==> final(self).no_proposals_view() && final(self).can_commit_view() && final(self).send_budget_view()
                && final(self).own_leaf_view() == old(self).own_leaf_view(),
            old(self).store_intact_view() ==> final(self).store_intact_view(),
            final(self).group_id_view() == old(self).group_id_view(),
            final(self).signer_key() == old(self).signer_key(),
            r is Ok && old(self).epoch_view() < u64::MAX ==> final(self).epoch_view() == old(self).epoch_view() + 1,
    {
        let ghost credential = key_package.credential_view();
        let mut packages: Vec<MlsKeyPackage> = Vec::new();
        packages.push(key_package);
        proof {
            assert(member_credentials(packages@) =~= seq![credential]);
        }
        self.add_members(packages)
    }

    /// Add all devices in one Commit so every Welcome joins the same epoch.
    pub fn add_members(&mut self, key_packages: Vec<MlsKeyPackage>) -> (r: Result<MlsWelcome, MlsError>)
        ensures
            r is Ok && old(self).no_proposals_view() ==> admitted(old(self).roster_view(), final(self).roster_view(),
                member_credentials(key_packages@)),
            r is Ok ==> final(self).no_proposals_view() && final(self).can_commit_view() && final(self).send_budget_view()
                && final(self).own_leaf_view() == old(self).own_leaf_view(),
            old(self).store_intact_view() ==> final(self).store_intact_view(),
            (r matches Err(e) && e.0@ == "at least one KeyPackage is required"@) <==> key_packages@.len() == 0,
            final(self).group_id_view() == old(self).group_id_view(),
            final(self).signer_key() == old(self).signer_key(),
            r is Ok && old(self).epoch_view() < u64::MAX ==> final(self).epoch_view() == old(self).epoch_view() + 1,
    {
        match self.add_members_with_commit(key_packages) {
            Ok(admission) => Ok(admission.welcome),
            Err(e) => Err(e),
        }
    }

    /// Add devices and return both artifacts every member needs: the Commit
    /// for existing members and the Welcome for the new ones.
    pub fn add_members_with_commit(&mut self, key_packages: Vec<MlsKeyPackage>) -> (r: Result<MlsAdmission, MlsError>)
        ensures
            r is Ok && old(self).no_proposals_view() ==> admitted(old(self).roster_view(), final(self).roster_view(),
                member_credentials(key_packages@)),
            r is Ok ==> final(self).no_proposals_view() && final(self).can_commit_view() && final(self).send_budget_view()
                && final(self).own_leaf_view() == old(self).own_leaf_view(),
            old(self).store_intact_view() ==> final(self).store_intact_view(),
            (r matches Err(e) && e.0@ == "at least one KeyPackage is required"@) <==> key_packages@.len() == 0,
            final(self).group_id_view() == old(self).group_id_view(),
            final(self).signer_key() == old(self).signer_key(),
            r is Ok && old(self).epoch_view() < u64::MAX ==> final(self).epoch_view() == old(self).epoch_view() + 1,
    {
        proof {
            reveal_strlit("at least one KeyPackage is required");
            reveal_strlit("OpenMLS returned a non-Welcome message after add_members");
        }
        if key_packages.len() == 0 {
            return Err(MlsError::msg("at least one KeyPackage is required"));
        }
        let ghost requested = member_credentials(key_packages@);
        let mut packages: Vec<openmls::prelude::KeyPackage> = Vec::new();
        let mut rest = key_packages;
        while rest.len() > 0
            invariant
                package_credentials(packages@) + member_credentials(rest@) == requested,
            decreases rest@.len(),
        {
            let ghost before = rest@;
            let MlsKeyPackage(kp) = rest.remove(0);
            proof {
                assert(before =~= seq![MlsKeyPackage(kp)] + rest@);
                assert(member_credentials(before) =~= seq![mls_key_package_credential(kp)] + member_credentials(rest@));
            }
            let ghost prev = packages@;
            packages.push(kp);
            proof {
                assert(package_credentials(packages@) =~= package_credentials(prev).push(mls_key_package_credential(kp)));
            }
        }
        proof {
            assert(member_credentials(rest@) =~= Seq::<Seq<u8>>::empty());
            assert(package_credentials(packages@) =~= requested);
        }
        let (commit, welcome_message) = match add_key_packages(&mut self.group, &mut self.provider, &self.signer, packages) {
            Ok(pair) => pair,
            Err(d) => return Err(mls_error(d)),
        };
        if let Err(d) = merge_pending(&mut self.group, &mut self.provider) {
            return Err(mls_error(d));
        }
        let welcome = match welcome_in_message(welcome_message.as_slice()) {
            Ok(Some(w)) => w,
            Ok(None) => {
                proof {
                    assert("OpenMLS returned a non-Welcome message after add_members"@[0]
                        != "at least one KeyPackage is required"@[0]);
                }
                return Err(MlsError::msg("OpenMLS returned a non-Welcome message after add_members"));
            },
            Err(d) => return Err(mls_error(d)),
        };
        let ratchet_tree = export_tree(&self.group);
        Ok(MlsAdmission { commit, welcome: MlsWelcome { welcome, ratchet_tree } })
    }

    /// The serialized Commit that existing members must process.
    pub fn admission_commit(admission: &MlsAdmission) -> (c: &[u8])
        ensures
            c@ == admission.commit_view(),
    {
        admission.commit.as_slice()
    }

    /// The Welcome bundle that newly admitted members consume.
    pub fn admission_welcome(admission: MlsAdmission) -> (w: MlsWelcome)
        ensures
            w == admission.welcome_part(),
    {
        admission.welcome
    }

    /// Encrypt an application payload as an MLS PrivateMessage wire blob.
    pub fn encrypt_application(&mut self, plaintext: &[u8]) -> (r: Result<Vec<u8>, MlsError>)
        ensures
            final(self).same_epoch(*old(self)),
            final(self).no_proposals_view() == old(self).no_proposals_view(),
            final(self).can_commit_view() == old(self).can_commit_view(),
            final(self).active_view() == old(self).active_view(),
            final(self).own_leaf_view() == old(self).own_leaf_view(),
            old(self).store_intact_view() ==> final(self).store_intact_view(),
            r matches Ok(c) ==> mls_app_plaintext(old(self).epoch_secrets_view(), c@) == Some(plaintext@),
            old(self).active_view() && old(self).send_budget_view() && old(self).no_proposals_view()
                && plaintext@.len() <= 0x100_0000 ==> r is Ok,
    {
        match create_application(&mut self.group, &mut self.provider, &self.signer, plaintext) {
            Ok(c) => Ok(c),
            Err(d) => Err(mls_error(d)),
        }
    }

    /// Authenticate and decrypt an MLS application PrivateMessage wire blob;
    /// a Commit is refused (after it has been applied).
    pub fn decrypt_application(&mut self, ciphertext: &[u8]) -> (r: Result<Vec<u8>, MlsError>)
        ensures
            final(self).group_id_view() == old(self).group_id_view(),
            final(self).signer_key() == old(self).signer_key(),
            r is Ok ==> final(self).same_epoch(*old(self)),
            r matches Ok(p) ==> mls_app_plaintext(old(self).epoch_secrets_view(), ciphertext@) == Some(p@),
            r is Ok <==> old(self).accepts_application(ciphertext@),
            r is Ok ==> !final(self).accepts_application(ciphertext@),
            !old(self).active_view() ==> r is Err,
    {
        match self.process_message(ciphertext) {
            Ok(MlsProcessed::Application(p)) => Ok(p),
            Ok(MlsProcessed::Commit) => Err(MlsError::msg("expected an MLS application message")),
            Err(e) => Err(e),
        }
    }

    /// Authenticate a protocol message; merge a Commit into the group.
    pub fn process_message(&mut self, ciphertext: &[u8]) -> (r: Result<MlsProcessed, MlsError>)
        ensures
            final(self).group_id_view() == old(self).group_id_view(),
            final(self).signer_key() == old(self).signer_key(),
            r matches Ok(MlsProcessed::Application(p)) ==> final(self).same_epoch(*old(self))
                && mls_app_plaintext(old(self).epoch_secrets_view(), ciphertext@) == Some(p@),
            (r matches Ok(MlsProcessed::Application(_))) <==> old(self).accepts_application(ciphertext@),
            !old(self).active_view() ==> r is Err,
            r matches Ok(MlsProcessed::Application(_)) ==> !final(self).accepts_application(ciphertext@)
                && final(self).can_commit_view() == old(self).can_commit_view(),
            (r matches Ok(MlsProcessed::Commit)) && old(self).epoch_view() < u64::MAX
                ==> final(self).epoch_view() == old(self).epoch_view() + 1,
            old(self).store_intact_view() ==> final(self).store_intact_view(),
    {
        let content = match process_wire(&mut self.group, &mut self.provider, ciphertext) {
            Ok(c) => c,
            Err(d) => return Err(mls_error(d)),
        };
        self.apply_processed(content)
    }

    /// Act on the content of a processed message: an application message is
    /// delivered as it is, a Commit is merged into the group, anything else
    /// is refused.
    fn apply_processed(&mut self, content: ProcessedContent) -> (r: Result<MlsProcessed, MlsError>)
        ensures
            old(self).store_intact_view() ==> final(self).store_intact_view(),
            final(self).group_id_view() == old(self).group_id_view(),
            final(self).signer_key() == old(self).signer_key(),
            match content {
                ProcessedContent::Application(p) => r matches Ok(MlsProcessed::Application(q)) && q@ == p@
                    && *final(self) == *old(self),
                ProcessedContent::Commit(c) => (r is Ok ==> (r matches Ok(MlsProcessed::Commit)
                    && final(self).epoch_view() == mls_staged_epoch(c))),
                ProcessedContent::Other => r matches Err(e) && e.0@ == "expected an MLS application message"@
                    && *final(self) == *old(self),
            },
    {
        match content {
            ProcessedContent::Application(p) => Ok(MlsProcessed::Application(p)),
            ProcessedContent::Commit(staged) => {
                match merge_staged(&mut self.group, &mut self.provider, staged) {
                    Ok(()) => Ok(MlsProcessed::Commit),
                    Err(d) => Err(mls_error(d)),
                }
            },
            ProcessedContent::Other => Err(MlsError::msg("expected an MLS application message")),
        }
    }
}

/// What one member encrypts, another member whose group is in the same
/// epoch key schedule reads back: if the receiver's processing yields an
/// application message for the sender's ciphertext, it is the sender's
/// plaintext.
pub proof fn law_mls_application_roundtrip(
    sender: MlsGroupState,
    receiver: MlsGroupState,
    ciphertext: Seq<u8>,
    sent: Seq<u8>,
    received: Seq<u8>,
)
    requires
        sender.epoch_secrets_view() == receiver.epoch_secrets_view(),
        mls_app_plaintext(sender.epoch_secrets_view(), ciphertext) == Some(sent),
        mls_app_plaintext(receiver.epoch_secrets_view(), ciphertext) == Some(received),
    ensures
        received == sent,
{
}

} // verus!
