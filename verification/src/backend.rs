//! Trusted boundary to the MLS implementation.
//!
//! Everything in this module is believed, not proved: each item's contract
//! states no more than what the called crate's source shows. All
//! cryptographic work happens behind these declarations; the rest of the
//! crate is verified against the contracts stated here.
//!
//! The provider is modelled as a collection of groups: `stored_groups`
//! names the set of group ids it holds, `stored_epoch` the epoch and
//! `stored_roster` the membership table of the group stored under an id.
//! A loaded group handle is modelled by `group_gid`, `group_epoch`,
//! `group_roster`, and its pending-commit state; deterministic
//! conversions (envelope decoding, key-package decoding, credential
//! identities) are named as functions of their inputs.

use vstd::prelude::*;

use openmls::prelude::BasicCredential;
use openmls::prelude::Ciphersuite;
use openmls::prelude::Credential;
use openmls::prelude::CredentialWithKey;
use openmls::prelude::GroupId;
use openmls::prelude::KeyPackage;
use openmls::prelude::KeyPackageBundle;
use openmls::prelude::KeyPackageIn;
use openmls::prelude::LeafNodeIndex;
use openmls::prelude::MlsGroup;
use openmls::prelude::MlsGroupJoinConfig;
use openmls::prelude::MlsMessageBodyIn;
use openmls::prelude::MlsMessageIn;
use openmls::prelude::MlsMessageOut;
use openmls::prelude::OpenMlsProvider;
use openmls::prelude::PrivateMessageIn;
use openmls::prelude::ProcessedMessageContent;
use openmls::prelude::ProtocolVersion;
use openmls::prelude::PublicMessageIn;
use openmls::prelude::SignaturePublicKey;
use openmls::prelude::StagedCommit;
use openmls::prelude::StagedWelcome;
use openmls::prelude::Welcome;
use openmls::prelude::tls_codec::Deserialize as TlsDeserializeTrait;
use openmls::prelude::tls_codec::Serialize as TlsSerializeTrait;
use openmls_basic_credential::SignatureKeyPair;
use openmls_rust_crypto::OpenMlsRustCrypto;

verus! {

// ---------------------------------------------------------------------
// Declarations of the outside types that cross this boundary.
// ---------------------------------------------------------------------
#[verifier::external_type_specification]
#[verifier::external_body]
pub struct ExOpenMlsRustCrypto(OpenMlsRustCrypto);

#[verifier::external_type_specification]
#[verifier::external_body]
pub struct ExSignatureKeyPair(SignatureKeyPair);

#[verifier::external_type_specification]
#[verifier::external_body]
pub struct ExCredentialWithKey(CredentialWithKey);

#[verifier::external_type_specification]
#[verifier::external_body]
pub struct ExCredential(Credential);

#[verifier::external_type_specification]
#[verifier::external_body]
pub struct ExMlsGroup(MlsGroup);

#[verifier::external_type_specification]
#[verifier::external_body]
pub struct ExKeyPackage(KeyPackage);

#[verifier::external_type_specification]
#[verifier::external_body]
pub struct ExKeyPackageIn(KeyPackageIn);

#[verifier::external_type_specification]
#[verifier::external_body]
pub struct ExKeyPackageBundle(KeyPackageBundle);

#[verifier::external_type_specification]
#[verifier::external_body]
pub struct ExMlsMessageOut(MlsMessageOut);

#[verifier::external_type_specification]
#[verifier::external_body]
pub struct ExWelcome(Welcome);

#[verifier::external_type_specification]
#[verifier::external_body]
pub struct ExPublicMessageIn(PublicMessageIn);

#[verifier::external_type_specification]
#[verifier::external_body]
pub struct ExPrivateMessageIn(PrivateMessageIn);

#[verifier::external_type_specification]
#[verifier::external_body]
pub struct ExStagedWelcome(StagedWelcome);

#[verifier::external_type_specification]
#[verifier::external_body]
pub struct ExStagedCommit(StagedCommit);

// ---------------------------------------------------------------------
// Names for what the opaque values hold.
// ---------------------------------------------------------------------
/// The set of group ids a provider's storage holds.
pub uninterp spec fn stored_groups(p: OpenMlsRustCrypto) -> Set<Seq<u8>>;

/// The epoch of the group a provider's storage holds under an id.
pub uninterp spec fn stored_epoch(p: OpenMlsRustCrypto, gid: Seq<u8>) -> u64;

/// The id of the group a loaded handle stands for.
pub uninterp spec fn group_gid(g: MlsGroup) -> Seq<u8>;

/// The current epoch of a loaded group handle.
pub uninterp spec fn group_epoch(g: MlsGroup) -> u64;

/// Whether a loaded group handle carries an unmerged commit of its own.
pub uninterp spec fn group_has_pending(g: MlsGroup) -> bool;

/// The epoch that a group's own unmerged commit moves the group into.
pub uninterp spec fn group_pending_epoch(g: MlsGroup) -> u64;

/// The id of the group a staged welcome will create.
pub uninterp spec fn staged_welcome_gid(w: StagedWelcome) -> Seq<u8>;

/// The epoch that a staged commit moves its group into.
pub uninterp spec fn staged_commit_epoch(c: StagedCommit) -> u64;

/// What a byte string deserializes to as an MLS envelope: `None` when it
/// is not a well-formed `MlsMessageIn`, otherwise the envelope's variant.
/// Deserialization is a function of the bytes alone.
pub uninterp spec fn envelope_kind_of(bytes: Seq<u8>) -> Option<EnvelopeKind>;

/// Whether a byte string deserializes to a key package. Deserialization
/// is a function of the bytes alone.
pub uninterp spec fn kp_decodes(bytes: Seq<u8>) -> bool;

/// The envelope variant an outgoing message carries.
pub uninterp spec fn out_kind(m: MlsMessageOut) -> EnvelopeKind;

/// The identity bytes a credential holds when it is a basic credential,
/// `None` for any other credential kind. A function of the credential
/// value alone.
pub uninterp spec fn cred_identity(c: Credential) -> Option<Seq<u8>>;

/// The identity and signature public key a credential-with-key bundles.
pub uninterp spec fn cwk_parts(c: CredentialWithKey) -> (Seq<u8>, Seq<u8>);

/// A loaded group's membership table, in leaf order: each member's leaf
/// index, decoded basic-credential identity (empty for any other
/// credential kind), and raw signature public key.
pub uninterp spec fn group_roster(g: MlsGroup) -> Seq<(u32, Seq<u8>, Seq<u8>)>;

/// The membership table of the group a provider's storage holds under an
/// id, in leaf order, with identities decoded as in `group_roster`.
pub uninterp spec fn stored_roster(p: OpenMlsRustCrypto, gid: Seq<u8>) -> Seq<
    (u32, Seq<u8>, Seq<u8>),
>;

/// The private and public halves a signature keypair was built from.
pub uninterp spec fn skp_parts(s: SignatureKeyPair) -> (Seq<u8>, Seq<u8>);

/// The identity (decoded as in `group_roster`) and signature public key
/// of the leaf a key package advertises.
pub uninterp spec fn kp_parts(k: KeyPackage) -> (Seq<u8>, Seq<u8>);

/// The same projection on a decoded, not yet validated key package.
pub uninterp spec fn kpin_parts(k: KeyPackageIn) -> (Seq<u8>, Seq<u8>);

/// The leaf identity and signature public key the wire form of a key
/// package advertises. A function of the bytes alone.
pub uninterp spec fn kp_bytes_parts(bytes: Seq<u8>) -> (Seq<u8>, Seq<u8>);

/// The leaf identity and signature public key of the key package a
/// bundle wraps.
pub uninterp spec fn bundle_parts(b: KeyPackageBundle) -> (Seq<u8>, Seq<u8>);

/// The membership table that a group's own pending commit moves the
/// group into.
pub uninterp spec fn group_pending_roster(g: MlsGroup) -> Seq<(u32, Seq<u8>, Seq<u8>)>;

/// Whether a group's context carries the external-senders extension.
pub uninterp spec fn group_ext_senders(g: MlsGroup) -> bool;

/// The id of the group a welcome targets, as the given provider's stored
/// init keys decrypt it: the id under which staging writes.
pub uninterp spec fn welcome_target_gid(w: Welcome, p: OpenMlsRustCrypto) -> Seq<u8>;

/// An optional identity as the byte string the caller sees: the bytes
/// themselves, or the empty string, which callers treat as untrusted.
pub open spec fn identity_or_empty(o: Option<Seq<u8>>) -> Seq<u8> {
    match o {
        Some(b) => b,
        None => Seq::empty(),
    }
}

/// The variant of a decoded MLS envelope.
#[derive(Clone, Copy, Debug, PartialEq, Eq, Structural)]
pub enum EnvelopeKind {
    Welcome,
    PublicMsg,
    PrivateMsg,
    GroupInfo,
    KeyPackage,
}

/// A decoded MLS envelope with the payloads the dispatcher routes on. The
/// two variants every operation rejects carry no payload.
pub enum IncomingBody {
    Welcome(Welcome),
    PublicMsg(PublicMessageIn),
    PrivateMsg(PrivateMessageIn),
    GroupInfo,
    KeyPackage,
}

/// The envelope variant a decoded body stands for.
pub open spec fn body_kind(b: &IncomingBody) -> EnvelopeKind {
    match b {
        IncomingBody::Welcome(_) => EnvelopeKind::Welcome,
        IncomingBody::PublicMsg(_) => EnvelopeKind::PublicMsg,
        IncomingBody::PrivateMsg(_) => EnvelopeKind::PrivateMsg,
        IncomingBody::GroupInfo => EnvelopeKind::GroupInfo,
        IncomingBody::KeyPackage => EnvelopeKind::KeyPackage,
    }
}

/// The classified content of a processed protocol message.
pub enum ProcessedContent {
    /// A decrypted application payload.
    Application(Vec<u8>),
    /// A commit, staged but not yet merged.
    Commit(Box<StagedCommit>),
    /// A proposal, buffered by the provider.
    Proposal,
    /// An external join proposal, buffered by the provider.
    ExternalJoin,
}

/// One row of a group's membership list.
pub struct MemberEntry {
    pub index: u32,
    pub credential: Credential,
    pub signature_key: Vec<u8>,
}

// ---------------------------------------------------------------------
// Spec shorthands used by the contracts below.
// ---------------------------------------------------------------------
/// The provider's groups are untouched: same ids, same epochs, same
/// membership tables.
pub open spec fn groups_unchanged(pre: OpenMlsRustCrypto, post: OpenMlsRustCrypto) -> bool {
    &&& stored_groups(post) =~= stored_groups(pre)
    &&& forall|gid: Seq<u8>| #[trigger] stored_epoch(post, gid) == stored_epoch(pre, gid)
    &&& forall|gid: Seq<u8>| #[trigger] stored_roster(post, gid) == stored_roster(pre, gid)
}

/// Every group except one keeps its epoch and its membership table.
pub open spec fn other_groups_preserved(
    pre: OpenMlsRustCrypto,
    post: OpenMlsRustCrypto,
    except: Seq<u8>,
) -> bool {
    &&& forall|gid: Seq<u8>|
        gid != except ==> #[trigger] stored_epoch(post, gid) == stored_epoch(pre, gid)
    &&& forall|gid: Seq<u8>|
        gid != except ==> #[trigger] stored_roster(post, gid) == stored_roster(pre, gid)
}

/// Whether some row of a membership table sits at a leaf index.
pub open spec fn roster_has_index(roster: Seq<(u32, Seq<u8>, Seq<u8>)>, idx: u32) -> bool {
    exists|j: int| 0 <= j < roster.len() && roster[j].0 == idx
}

/// Whether `idx` is the leftmost leaf index free in a membership table:
/// not taken, with every smaller index taken.
pub open spec fn is_least_free(roster: Seq<(u32, Seq<u8>, Seq<u8>)>, idx: u32) -> bool {
    &&& !roster_has_index(roster, idx)
    &&& forall|i: u32| i < idx ==> #[trigger] roster_has_index(roster, i)
}

/// What adding one member does to a membership table: the new member,
/// with the given identity and signature key, sits at the leftmost free
/// leaf, and every previous row is kept, in leaf order.
pub open spec fn roster_after_add(
    pre: Seq<(u32, Seq<u8>, Seq<u8>)>,
    post: Seq<(u32, Seq<u8>, Seq<u8>)>,
    id: Seq<u8>,
    key: Seq<u8>,
) -> bool {
    exists|j: int, idx: u32|
        {
            &&& 0 <= j <= pre.len()
            &&& is_least_free(pre, idx)
            &&& post =~= pre.subrange(0, j) + seq![(idx, id, key)] + pre.subrange(
                j,
                pre.len() as int,
            )
            &&& forall|m: int| 0 <= m < j ==> pre[m].0 < idx
            &&& forall|m: int| j <= m < pre.len() ==> pre[m].0 > idx
        }
}

/// What removing the member at a leaf index does to a membership table:
/// exactly that row disappears and every other row is kept, in order.
pub open spec fn roster_after_remove(
    pre: Seq<(u32, Seq<u8>, Seq<u8>)>,
    post: Seq<(u32, Seq<u8>, Seq<u8>)>,
    idx: u32,
) -> bool {
    exists|j: int|
        0 <= j < pre.len() && pre[j].0 == idx && post =~= pre.subrange(0, j) + pre.subrange(
            j + 1,
            pre.len() as int,
        )
}

/// A loaded handle's id, epoch and pending state are untouched.
pub open spec fn handle_unchanged(pre: MlsGroup, post: MlsGroup) -> bool {
    &&& group_gid(post) == group_gid(pre)
    &&& group_epoch(post) == group_epoch(pre)
    &&& group_has_pending(post) == group_has_pending(pre)
}

// ---------------------------------------------------------------------
// Trusted wrappers.
// ---------------------------------------------------------------------
/// Relies on `OpenMlsRustCrypto::default`: a fresh in-memory provider
/// holds no groups.
#[verifier::external_body]
pub(crate) fn provider_new() -> (r: OpenMlsRustCrypto)
    ensures
        stored_groups(r) =~= Set::<Seq<u8>>::empty(),
{
    OpenMlsRustCrypto::default()
}

/// Relies on `openmls_basic_credential::SignatureKeyPair::new` with the
/// Ed25519 scheme of the fixed ciphersuite: both halves of a fresh Ed25519
/// keypair are 32 bytes. The private half is recovered through the
/// keypair's serde form (field `private`), as the crate exposes no direct
/// accessor for it.
#[verifier::external_body]
pub(crate) fn fresh_signing_keys() -> (r: Result<(Vec<u8>, Vec<u8>), String>)
    ensures
        r matches Ok(k) ==> k.0@.len() == 32 && k.1@.len() == 32,
{
    let scheme = Ciphersuite::MLS_128_DHKEMX25519_AES128GCM_SHA256_Ed25519.signature_algorithm();
    let keys = SignatureKeyPair::new(scheme).map_err(|e| format!("{:?}", e))?;
    let kp_value = serde_json::to_value(&keys).map_err(|e| format!("serialize keypair: {}", e))?;
    let private_value = match kp_value.get("private") {
        Some(v) => v.clone(),
        None => return Err("missing private key in serialized keypair".to_string()),
    };
    let private_bytes: Vec<u8> =
        serde_json::from_value(private_value).map_err(|e| format!("extract private key: {}", e))?;
    Ok((keys.public().to_vec(), private_bytes))
}

/// Relies on `SignatureKeyPair::from_raw` with the fixed ciphersuite's
/// Ed25519 scheme: a plain constructor that cannot fail and keeps the
/// given halves verbatim.
#[verifier::external_body]
pub(crate) fn signer_from_raw(private_key: Vec<u8>, public_key: Vec<u8>) -> (r: SignatureKeyPair)
    ensures
        skp_parts(r) == (private_key@, public_key@),
{
    let scheme = Ciphersuite::MLS_128_DHKEMX25519_AES128GCM_SHA256_Ed25519.signature_algorithm();
    SignatureKeyPair::from_raw(scheme, private_key, public_key)
}

/// Relies on `SignatureKeyPair::store`: writes the signer into the
/// provider's key store; the provider's groups are untouched. The
/// in-memory storage only serde-serializes plain structs, which cannot
/// fail for a keypair, so the write succeeds.
#[verifier::external_body]
pub(crate) fn store_signer(signer: &SignatureKeyPair, p: &mut OpenMlsRustCrypto) -> (r: Result<
    (),
    String,
>)
    ensures
        r is Ok,
        groups_unchanged(*old(p), *final(p)),
{
    signer.store(p.storage()).map_err(|e| format!("failed to store signer: {:?}", e))
}

/// Relies on `BasicCredential::new`, `Credential::from` and
/// `SignaturePublicKey::from`: wraps the identity bytes and the signing
/// public key as an MLS basic credential; plain constructors.
#[verifier::external_body]
pub(crate) fn credential_with_key(identity: &[u8], signing_public_key: &[u8]) -> (r:
    CredentialWithKey)
    ensures
        cwk_parts(r) == (identity@, signing_public_key@),
{
    let credential = BasicCredential::new(identity.to_vec());
    CredentialWithKey {
        credential: credential.into(),
        signature_key: SignaturePublicKey::from(signing_public_key.to_vec()),
    }
}

/// Relies on `KeyPackage::builder().build` with the fixed ciphersuite:
/// builds and signs a key package whose leaf carries the given
/// credential's identity and signature key, storing it and its private
/// keys in the provider's key store; the provider's groups are
/// untouched.
#[verifier::external_body]
pub(crate) fn build_key_package(
    p: &mut OpenMlsRustCrypto,
    signer: &SignatureKeyPair,
    credential: &CredentialWithKey,
) -> (r: Result<KeyPackageBundle, String>)
    ensures
        groups_unchanged(*old(p), *final(p)),
        r matches Ok(b) ==> bundle_parts(b) == cwk_parts(*credential),
{
    KeyPackage::builder()
        .build(
            Ciphersuite::MLS_128_DHKEMX25519_AES128GCM_SHA256_Ed25519,
            &*p,
            signer,
            credential.clone(),
        )
        .map_err(|e| format!("{:?}", e))
}

/// Relies on `KeyPackageBundle::key_package` and
/// `tls_codec::Serialize::tls_serialize_detached`: the RFC 9420 TLS
/// encoding of the bundle's public key package. The encoding decodes
/// back as a key package advertising the same leaf identity and key.
#[verifier::external_body]
pub(crate) fn key_package_bytes(b: &KeyPackageBundle) -> (r: Result<Vec<u8>, String>)
    ensures
        r matches Ok(bytes) ==> kp_decodes(bytes@) && kp_bytes_parts(bytes@) == bundle_parts(
            *b,
        ),
{
    b.key_package().tls_serialize_detached().map_err(|e| format!("{:?}", e))
}

/// Relies on `KeyPackageBundle::init_private_key` and the `Deref` of
/// `HpkePrivateKey` to `[u8]`: the raw bytes of the bundle's init private
/// key.
#[verifier::external_body]
pub(crate) fn init_key_bytes(b: &KeyPackageBundle) -> (r: Vec<u8>) {
    b.init_private_key().to_vec()
}

/// Relies on `MlsGroup::builder().build` with the fixed ciphersuite and
/// the ratchet-tree extension: creates a group under the given id at
/// epoch 0 and persists it, whose only member sits at leaf 0 with the
/// given credential's identity and signature key; other groups are
/// untouched.
#[verifier::external_body]
pub(crate) fn create_group(
    p: &mut OpenMlsRustCrypto,
    signer: &SignatureKeyPair,
    credential: &CredentialWithKey,
    group_id: &[u8],
) -> (r: Result<(), String>)
    ensures
        r is Ok ==> stored_groups(*final(p)) =~= stored_groups(*old(p)).insert(group_id@),
        r is Ok ==> stored_epoch(*final(p), group_id@) == 0,
        r is Ok ==> stored_roster(*final(p), group_id@) =~= seq![
            (0u32, cwk_parts(*credential).0, cwk_parts(*credential).1),
        ],
        other_groups_preserved(*old(p), *final(p), group_id@),
        r is Err ==> stored_groups(*final(p)) =~= stored_groups(*old(p)),
{
    let result = MlsGroup::builder()
        .with_group_id(GroupId::from_slice(group_id))
        .ciphersuite(Ciphersuite::MLS_128_DHKEMX25519_AES128GCM_SHA256_Ed25519)
        .use_ratchet_tree_extension(true)
        .build(&*p, signer, credential.clone())
        .map_err(|e| format!("create group: {:?}", e));
    match result {
        Ok(_group) => Ok(()),
        Err(e) => Err(e),
    }
}

/// Relies on `MlsGroup::load`: reads the group stored under an id, if
/// any; a handle is returned exactly for stored ids, at the stored
/// epoch and roster. The in-memory storage only rereads what it
/// serde-serialized, so the read itself succeeds.
#[verifier::external_body]
pub(crate) fn load_group(p: &OpenMlsRustCrypto, group_id: &[u8]) -> (r: Result<
    Option<MlsGroup>,
    String,
>)
    ensures
        r is Ok,
        r matches Ok(Some(g)) ==> {
            &&& stored_groups(*p).contains(group_id@)
            &&& group_gid(g) == group_id@
            &&& group_epoch(g) == stored_epoch(*p, group_id@)
            &&& group_roster(g) == stored_roster(*p, group_id@)
        },
        r matches Ok(None) ==> !stored_groups(*p).contains(group_id@),
{
    let gid = GroupId::from_slice(group_id);
    MlsGroup::load(p.storage(), &gid).map_err(|e| format!("load group: {:?}", e))
}

/// Relies on `MlsGroup::epoch` and `GroupEpoch::as_u64`: the handle's
/// current epoch.
#[verifier::external_body]
pub(crate) fn epoch_of(g: &MlsGroup) -> (r: u64)
    ensures
        r == group_epoch(*g),
{
    g.epoch().as_u64()
}

/// Relies on `tls_codec::Deserialize::tls_deserialize` for `MlsMessageIn`
/// and `MlsMessageIn::extract`: decodes an MLS envelope and hands back its
/// variant, one arm for each. Decoding is deterministic in the bytes.
#[verifier::external_body]
pub(crate) fn decode_envelope(bytes: &[u8]) -> (r: Result<IncomingBody, String>)
    ensures
        r is Ok <==> envelope_kind_of(bytes@) is Some,
        r matches Ok(b) ==> Some(body_kind(&b)) == envelope_kind_of(bytes@),
{
    let msg = MlsMessageIn::tls_deserialize(&mut &bytes[..])
        .map_err(|e| format!("deserialize message: {:?}", e))?;
    Ok(match msg.extract() {
        MlsMessageBodyIn::Welcome(w) => IncomingBody::Welcome(w),
        MlsMessageBodyIn::PublicMessage(m) => IncomingBody::PublicMsg(m),
        MlsMessageBodyIn::PrivateMessage(m) => IncomingBody::PrivateMsg(m),
        MlsMessageBodyIn::GroupInfo(_) => IncomingBody::GroupInfo,
        MlsMessageBodyIn::KeyPackage(_) => IncomingBody::KeyPackage,
    })
}

/// Relies on `tls_codec::Deserialize::tls_deserialize` for
/// `KeyPackageIn`: decodes the wire form of a key package, succeeding
/// exactly when the bytes parse. Decoding is deterministic in the bytes.
#[verifier::external_body]
pub(crate) fn decode_key_package(bytes: &[u8]) -> (r: Result<KeyPackageIn, String>)
    ensures
        r is Ok <==> kp_decodes(bytes@),
        r matches Ok(k) ==> kpin_parts(k) == kp_bytes_parts(bytes@),
{
    KeyPackageIn::tls_deserialize(&mut &bytes[..])
        .map_err(|e| format!("deserialize key package: {:?}", e))
}

/// Relies on `KeyPackageIn::validate` under MLS 1.0: checks the key
/// package's signature and leaf node against the session's crypto; a
/// package that validates keeps its leaf identity and key.
#[verifier::external_body]
pub(crate) fn validate_key_package(kp: KeyPackageIn, p: &OpenMlsRustCrypto) -> (r: Result<
    KeyPackage,
    String,
>)
    ensures
        r matches Ok(valid) ==> kp_parts(valid) == kpin_parts(kp),
{
    kp.validate(p.crypto(), ProtocolVersion::Mls10)
        .map_err(|e| format!("validate key package: {:?}", e))
}

/// Relies on `MlsGroup::add_members`: commits an add of the given key
/// package. On success the handle carries a pending commit into the next
/// epoch, its visible epoch and every stored group are untouched, and
/// the commit (a public or private protocol message) and the welcome are
/// returned. The pending commit moves the group into the next epoch and
/// places the added key package's leaf at the leftmost free index,
/// keeping every other member. On failure nothing persisted moves: the
/// group context is only ever written by a merge. Excludes the epoch
/// ceiling, where the implementation's epoch increment would overflow.
#[verifier::external_body]
pub(crate) fn add_member_op(
    g: &mut MlsGroup,
    p: &mut OpenMlsRustCrypto,
    signer: &SignatureKeyPair,
    kp: KeyPackage,
) -> (r: Result<(MlsMessageOut, MlsMessageOut), String>)
    requires
        group_epoch(*old(g)) < u64::MAX,
    ensures
        group_gid(*final(g)) == group_gid(*old(g)),
        group_epoch(*final(g)) == group_epoch(*old(g)),
        r is Ok ==> {
            &&& group_has_pending(*final(g))
            &&& group_pending_epoch(*final(g)) == group_epoch(*old(g)) + 1
            &&& roster_after_add(
                group_roster(*old(g)),
                group_pending_roster(*final(g)),
                kp_parts(kp).0,
                kp_parts(kp).1,
            )
            &&& groups_unchanged(*old(p), *final(p))
            &&& (out_kind(r->Ok_0.0) == EnvelopeKind::PublicMsg || out_kind(r->Ok_0.0)
                == EnvelopeKind::PrivateMsg)
            &&& out_kind(r->Ok_0.1) == EnvelopeKind::Welcome
        },
        r is Err ==> groups_unchanged(*old(p), *final(p)),
{
    let (commit, welcome, _group_info) = g
        .add_members(&*p, signer, &[kp])
        .map_err(|e| format!("add member: {:?}", e))?;
    Ok((commit, welcome))
}

/// Relies on `MlsGroup::remove_members`: commits a removal of the leaf
/// at the given index. On success the handle carries a pending commit
/// into the next epoch, its visible epoch and every stored group are
/// untouched, and the commit (a public or private protocol message) is
/// returned. The pending commit moves the group into the next epoch and
/// blanks exactly the removed leaf, keeping every other member. On
/// failure nothing persisted moves: the group context is only ever
/// written by a merge. Excludes the epoch ceiling, where the
/// implementation's epoch increment would overflow.
#[verifier::external_body]
pub(crate) fn remove_member_op(
    g: &mut MlsGroup,
    p: &mut OpenMlsRustCrypto,
    signer: &SignatureKeyPair,
    leaf_index: u32,
) -> (r: Result<MlsMessageOut, String>)
    requires
        group_epoch(*old(g)) < u64::MAX,
    ensures
        group_gid(*final(g)) == group_gid(*old(g)),
        group_epoch(*final(g)) == group_epoch(*old(g)),
        r is Ok ==> {
            &&& group_has_pending(*final(g))
            &&& group_pending_epoch(*final(g)) == group_epoch(*old(g)) + 1
            &&& roster_after_remove(
                group_roster(*old(g)),
                group_pending_roster(*final(g)),
                leaf_index,
            )
            &&& groups_unchanged(*old(p), *final(p))
            &&& (out_kind(r->Ok_0) == EnvelopeKind::PublicMsg || out_kind(r->Ok_0)
                == EnvelopeKind::PrivateMsg)
        },
        r is Err ==> groups_unchanged(*old(p), *final(p)),
{
    let (commit, _welcome, _group_info) = g
        .remove_members(&*p, signer, &[LeafNodeIndex::new(leaf_index)])
        .map_err(|e| format!("remove member: {:?}", e))?;
    Ok(commit)
}

/// Relies on `MlsGroup::merge_pending_commit`: merges the handle's own
/// pending commit, moving the group and its stored state into the
/// pending epoch; with no pending commit it changes nothing. On failure
/// the stored epoch is either still the old one or already the pending
/// one, as the merge's writes may have stopped part way. Other groups
/// are untouched either way. Caution: in debug builds the merge asserts
/// on its own key-material invariant before returning the guarded
/// error.
#[verifier::external_body]
pub(crate) fn merge_pending(g: &mut MlsGroup, p: &mut OpenMlsRustCrypto) -> (r: Result<
    (),
    String,
>)
    ensures
        r is Ok && group_has_pending(*old(g)) ==> {
            &&& group_gid(*final(g)) == group_gid(*old(g))
            &&& group_epoch(*final(g)) == group_pending_epoch(*old(g))
            &&& !group_has_pending(*final(g))
            &&& group_roster(*final(g)) == group_pending_roster(*old(g))
            &&& stored_groups(*final(p)) =~= stored_groups(*old(p))
            &&& stored_epoch(*final(p), group_gid(*old(g))) == group_pending_epoch(*old(g))
            &&& stored_roster(*final(p), group_gid(*old(g))) == group_pending_roster(*old(g))
            &&& other_groups_preserved(*old(p), *final(p), group_gid(*old(g)))
        },
        r is Ok && !group_has_pending(*old(g)) ==> {
            &&& handle_unchanged(*old(g), *final(g))
            &&& groups_unchanged(*old(p), *final(p))
        },
        r is Err ==> {
            &&& group_gid(*final(g)) == group_gid(*old(g))
            &&& stored_groups(*final(p)) =~= stored_groups(*old(p))
            &&& other_groups_preserved(*old(p), *final(p), group_gid(*old(g)))
            &&& (stored_epoch(*final(p), group_gid(*old(g))) == stored_epoch(
                *old(p),
                group_gid(*old(g)),
            ) || (group_has_pending(*old(g)) && stored_epoch(*final(p), group_gid(*old(g)))
                == group_pending_epoch(*old(g))))
        },
{
    g.merge_pending_commit(&*p).map_err(|e| format!("merge pending commit: {:?}", e))
}

/// Relies on `MlsGroup::merge_staged_commit`: merges a commit staged by
/// message processing, moving the group and its stored state into the
/// commit's epoch. On failure the stored epoch is either still the old
/// one or already the commit's, as the merge's writes may have stopped
/// part way. Other groups are untouched either way.
#[verifier::external_body]
pub(crate) fn merge_staged(
    g: &mut MlsGroup,
    p: &mut OpenMlsRustCrypto,
    c: Box<StagedCommit>,
) -> (r: Result<(), String>)
    ensures
        r is Ok ==> {
            &&& group_gid(*final(g)) == group_gid(*old(g))
            &&& group_epoch(*final(g)) == staged_commit_epoch(*c)
            &&& !group_has_pending(*final(g))
            &&& stored_groups(*final(p)) =~= stored_groups(*old(p))
            &&& stored_epoch(*final(p), group_gid(*old(g))) == staged_commit_epoch(*c)
            &&& other_groups_preserved(*old(p), *final(p), group_gid(*old(g)))
        },
        r is Err ==> {
            &&& group_gid(*final(g)) == group_gid(*old(g))
            &&& stored_groups(*final(p)) =~= stored_groups(*old(p))
            &&& other_groups_preserved(*old(p), *final(p), group_gid(*old(g)))
            &&& (stored_epoch(*final(p), group_gid(*old(g))) == stored_epoch(
                *old(p),
                group_gid(*old(g)),
            ) || stored_epoch(*final(p), group_gid(*old(g))) == staged_commit_epoch(*c))
        },
{
    g.merge_staged_commit(&*p, *c).map_err(|e| format!("merge commit: {:?}", e))
}

/// Relies on `MlsGroup::create_message`: encrypts an application payload
/// for the current epoch into a private-message envelope. It writes only
/// ratchet message secrets, never a group context or tree, so on every
/// outcome every stored group keeps its id, epoch and membership.
#[verifier::external_body]
pub(crate) fn create_message_op(
    g: &mut MlsGroup,
    p: &mut OpenMlsRustCrypto,
    signer: &SignatureKeyPair,
    plaintext: &[u8],
) -> (r: Result<MlsMessageOut, String>)
    ensures
        handle_unchanged(*old(g), *final(g)),
        groups_unchanged(*old(p), *final(p)),
        r matches Ok(m) ==> out_kind(m) == EnvelopeKind::PrivateMsg,
{
    g.create_message(&*p, signer, plaintext).map_err(|e| format!("encrypt: {:?}", e))
}

/// Relies on `MlsGroup::extensions` and
/// `Extensions::external_senders`: whether the group's context carries
/// the external-senders extension.
#[verifier::external_body]
pub(crate) fn has_external_senders(g: &MlsGroup) -> (r: bool)
    ensures
        r == group_ext_senders(*g),
{
    g.extensions().external_senders().is_some()
}

/// Relies on `MlsGroup::process_message` for a public message, plus
/// `ProcessedMessage::credential` and `ProcessedMessage::into_content`,
/// for groups without the external-senders extension: the callee leaves
/// a commit from an external sender unimplemented and would abort, so
/// such groups are excluded and the caller tests for the extension
/// first.
/// one arm for each content variant. On every outcome the group's
/// visible epoch and every stored group are untouched, since processing
/// never writes the group context; a returned staged commit moves the
/// group into the next epoch, as commits are only accepted for the
/// current one. Excludes the epoch ceiling, where the implementation's
/// epoch increment would overflow.
#[verifier::external_body]
pub(crate) fn process_public(
    g: &mut MlsGroup,
    p: &mut OpenMlsRustCrypto,
    m: PublicMessageIn,
) -> (r: Result<(Credential, ProcessedContent), String>)
    requires
        group_epoch(*old(g)) < u64::MAX,
        !group_ext_senders(*old(g)),
    ensures
        handle_unchanged(*old(g), *final(g)),
        groups_unchanged(*old(p), *final(p)),
        r matches Ok((_, ProcessedContent::Commit(c))) ==> staged_commit_epoch(*c)
            == group_epoch(*old(g)) + 1,
{
    let processed =
        g.process_message(&*p, m).map_err(|e| format!("process message: {:?}", e))?;
    let credential = processed.credential().clone();
    let content = match processed.into_content() {
        ProcessedMessageContent::ApplicationMessage(a) => {
            ProcessedContent::Application(a.into_bytes())
        },
        ProcessedMessageContent::ProposalMessage(_) => ProcessedContent::Proposal,
        ProcessedMessageContent::ExternalJoinProposalMessage(_) => ProcessedContent::ExternalJoin,
        ProcessedMessageContent::StagedCommitMessage(c) => ProcessedContent::Commit(c),
    };
    Ok((credential, content))
}

/// Relies on `MlsGroup::process_message` for a private message, plus
/// `ProcessedMessage::credential` and `ProcessedMessage::into_content`,
/// one arm for each content variant. On every outcome the group's
/// visible epoch and every stored group are untouched, since processing
/// never writes the group context; a returned staged commit moves the
/// group into the next epoch, as commits are only accepted for the
/// current one. Excludes the epoch ceiling, where the implementation's
/// epoch increment would overflow.
#[verifier::external_body]
pub(crate) fn process_private(
    g: &mut MlsGroup,
    p: &mut OpenMlsRustCrypto,
    m: PrivateMessageIn,
) -> (r: Result<(Credential, ProcessedContent), String>)
    requires
        group_epoch(*old(g)) < u64::MAX,
    ensures
        handle_unchanged(*old(g), *final(g)),
        groups_unchanged(*old(p), *final(p)),
        r matches Ok((_, ProcessedContent::Commit(c))) ==> staged_commit_epoch(*c)
            == group_epoch(*old(g)) + 1,
{
    let processed =
        g.process_message(&*p, m).map_err(|e| format!("process message: {:?}", e))?;
    let credential = processed.credential().clone();
    let content = match processed.into_content() {
        ProcessedMessageContent::ApplicationMessage(a) => {
            ProcessedContent::Application(a.into_bytes())
        },
        ProcessedMessageContent::ProposalMessage(_) => ProcessedContent::Proposal,
        ProcessedMessageContent::ExternalJoinProposalMessage(_) => ProcessedContent::ExternalJoin,
        ProcessedMessageContent::StagedCommitMessage(c) => ProcessedContent::Commit(c),
    };
    Ok((credential, content))
}

/// Relies on `StagedWelcome::new_from_welcome` with a join config that
/// enables the ratchet-tree extension: stages a welcome against the
/// provider's stored init keys. Staging is not read-only: it persists
/// the welcome's public group under the welcome's target id, before
/// validation completes and on error paths too, so a group already
/// stored under that id has its public state overwritten. No id appears
/// or disappears (a fresh target id lacks the other components a load
/// needs), and every other group is untouched. Caution: in debug builds
/// the callee asserts on a welcome whose group info carries a wrong
/// confirmation tag before returning the error a release build returns.
#[verifier::external_body]
pub(crate) fn stage_welcome(p: &mut OpenMlsRustCrypto, welcome: Welcome) -> (r: Result<
    StagedWelcome,
    String,
>)
    ensures
        stored_groups(*final(p)) =~= stored_groups(*old(p)),
        other_groups_preserved(*old(p), *final(p), welcome_target_gid(welcome, *old(p))),
        r matches Ok(st) ==> staged_welcome_gid(st) == welcome_target_gid(welcome, *old(p)),
{
    let join_config = MlsGroupJoinConfig::builder().use_ratchet_tree_extension(true).build();
    StagedWelcome::new_from_welcome(&*p, &join_config, welcome, None)
        .map_err(|e| format!("stage welcome: {:?}", e))
}

/// Relies on `StagedWelcome::into_group`, `MlsGroup::group_id` and
/// `GroupId::as_slice`: finalizes the staged welcome into a stored group
/// and returns that group's id. Other groups are untouched.
#[verifier::external_body]
pub(crate) fn welcome_into_group(w: StagedWelcome, p: &mut OpenMlsRustCrypto) -> (r: Result<
    Vec<u8>,
    String,
>)
    ensures
        r matches Ok(gid) ==> {
            &&& gid@ == staged_welcome_gid(w)
            &&& stored_groups(*final(p)) =~= stored_groups(*old(p)).insert(staged_welcome_gid(w))
        },
        r is Err ==> stored_groups(*final(p)) =~= stored_groups(*old(p)),
        other_groups_preserved(*old(p), *final(p), staged_welcome_gid(w)),
{
    let group = w.into_group(&*p).map_err(|e| format!("finalize welcome: {:?}", e))?;
    Ok(group.group_id().as_slice().to_vec())
}

/// Relies on `tls_codec::Serialize::tls_serialize_detached` for
/// `MlsMessageOut`: the RFC 9420 TLS encoding of an outgoing message.
/// The encoding opens with the message's variant tag, which decoding
/// reads back, so the bytes decode to an envelope of the same variant.
#[verifier::external_body]
pub(crate) fn serialize_message(m: &MlsMessageOut) -> (r: Result<Vec<u8>, String>)
    ensures
        r matches Ok(bytes) ==> envelope_kind_of(bytes@) == Some(out_kind(*m)),
{
    m.tls_serialize_detached().map_err(|e| format!("serialize: {:?}", e))
}

/// Relies on `BasicCredential::try_from` and `BasicCredential::identity`:
/// the identity bytes when the credential is a basic credential, one arm
/// for each variant of the conversion's result. The result is a function
/// of the credential value alone.
#[verifier::external_body]
pub(crate) fn basic_identity(c: &Credential) -> (r: Option<Vec<u8>>)
    ensures
        r matches Some(b) ==> cred_identity(*c) == Some(b@),
        r is None ==> cred_identity(*c) is None,
{
    match BasicCredential::try_from(c.clone()) {
        Ok(basic) => Some(basic.identity().to_vec()),
        Err(_) => None,
    }
}

/// Relies on `MlsGroup::members`: the group's membership list in leaf
/// order, each member's leaf index, credential and raw signature key
/// moved into a plain row; row for row, exactly the group's roster, with
/// each row's credential decoding to the roster's identity column.
#[verifier::external_body]
pub(crate) fn member_entries(g: &MlsGroup) -> (r: Vec<MemberEntry>)
    ensures
        r@.len() == group_roster(*g).len(),
        forall|i: int|
            0 <= i < r@.len() ==> #[trigger] group_roster(*g)[i] == (
                r@[i].index,
                identity_or_empty(cred_identity(r@[i].credential)),
                r@[i].signature_key@,
            ),
{
    g.members()
        .map(
            |m| MemberEntry {
                index: m.index.u32(),
                credential: m.credential,
                signature_key: m.signature_key,
            },
        )
        .collect()
}

} // verus!
