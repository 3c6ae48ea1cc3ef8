use vstd::prelude::*;
use vstd::slice::slice_to_vec;

use openmls::prelude::Credential;
use openmls::prelude::CredentialWithKey;
use openmls_basic_credential::SignatureKeyPair;
use openmls_rust_crypto::OpenMlsRustCrypto;

use crate::backend;
use crate::backend::cred_identity;
use crate::backend::cwk_parts;
use crate::backend::envelope_kind_of;
use crate::backend::identity_or_empty;
use crate::backend::kp_bytes_parts;
use crate::backend::kp_decodes;
use crate::backend::roster_after_add;
use crate::backend::roster_after_remove;
use crate::backend::stored_roster;
use crate::backend::other_groups_preserved;
use crate::backend::EnvelopeKind;
use crate::backend::IncomingBody;
use crate::backend::ProcessedContent;
use crate::backend::groups_unchanged;
use crate::backend::stored_epoch;
use crate::backend::stored_groups;
use crate::errors::ErrorKind;
use crate::errors::MlsError;
use crate::jsonfmt::members_json;
use crate::jsonfmt::members_to_json;
use crate::jsonfmt::MemberRow;
use crate::session::lemma_wf_within;
use crate::session::others_unchanged;
use crate::session::MlsRegistry;

verus! {

broadcast use vstd::std_specs::hash::group_hash_axioms;

/// Every group operation leaves the registry's counter and every other
/// session exactly as they were.
pub open spec fn registry_frame(pre: MlsRegistry, post: MlsRegistry, id: u32) -> bool {
    &&& post.next_id_spec() == pre.next_id_spec()
    &&& others_unchanged(pre, post, id)
}

// ---------------------------------------------------------------------
// Group creation.
// ---------------------------------------------------------------------
/// Creates a group under `group_id` inside one provider; see
/// `MlsRegistry::create_mls_group` for the contract callers rely on.
fn create_group_in(
    p: &mut OpenMlsRustCrypto,
    signer: &SignatureKeyPair,
    credential: &CredentialWithKey,
    group_id: &[u8],
) -> (r: Result<(), MlsError>)
    ensures
        r is Ok ==> {
            &&& !stored_groups(*old(p)).contains(group_id@)
            &&& stored_groups(*final(p)) =~= stored_groups(*old(p)).insert(group_id@)
            &&& stored_epoch(*final(p), group_id@) == 0
            &&& stored_roster(*final(p), group_id@) =~= seq![
                (0u32, cwk_parts(*credential).0, cwk_parts(*credential).1),
            ]
        },
        other_groups_preserved(*old(p), *final(p), group_id@),
        r is Err ==> stored_groups(*final(p)) =~= stored_groups(*old(p)),
        stored_groups(*old(p)).contains(group_id@) ==> (r matches Err(e) && e.kind
            == ErrorKind::GroupExists),
        r matches Err(e) && e.kind == ErrorKind::GroupExists ==> stored_groups(
            *old(p),
        ).contains(group_id@) && groups_unchanged(*old(p), *final(p)),
        r matches Err(e) ==> e.kind == ErrorKind::GroupExists || e.kind
            == ErrorKind::ProtocolError,
{
    match backend::load_group(&*p, group_id) {
        Err(detail) => Err(MlsError::new(ErrorKind::StorageError, detail)),
        Ok(Some(_existing)) => Err(MlsError::from_parts(
            ErrorKind::GroupExists,
            "group already exists in this session",
        )),
        Ok(None) => match backend::create_group(p, signer, credential, group_id) {
            Ok(()) => Ok(()),
            Err(detail) => Err(MlsError::new(ErrorKind::ProtocolError, detail)),
        },
    }
}

/// Reads one provider's stored epoch for a group; see
/// `MlsRegistry::get_epoch` for the contract callers rely on.
fn get_epoch_in(p: &OpenMlsRustCrypto, group_id: &[u8]) -> (r: Result<u64, MlsError>)
    ensures
        r matches Ok(e) ==> stored_groups(*p).contains(group_id@) && e == stored_epoch(
            *p,
            group_id@,
        ),
        stored_groups(*p).contains(group_id@) ==> r is Ok,
        r is Err <==> !stored_groups(*p).contains(group_id@),
        r matches Err(e) ==> e.kind == ErrorKind::GroupNotFound,
{
    match backend::load_group(p, group_id) {
        Err(detail) => Err(MlsError::new(ErrorKind::StorageError, detail)),
        Ok(None) => Err(MlsError::from_parts(
            ErrorKind::GroupNotFound,
            "group not found in session",
        )),
        Ok(Some(g)) => Ok(backend::epoch_of(&g)),
    }
}

/// Encrypts an application payload inside one provider; see
/// `MlsRegistry::encrypt_message` for the contract callers rely on.
fn encrypt_in(
    p: &mut OpenMlsRustCrypto,
    signer: &SignatureKeyPair,
    group_id: &[u8],
    plaintext: &[u8],
) -> (r: Result<Vec<u8>, MlsError>)
    ensures
        groups_unchanged(*old(p), *final(p)),
        r matches Ok(ct) ==> stored_groups(*old(p)).contains(group_id@) && envelope_kind_of(
            ct@,
        ) == Some(EnvelopeKind::PrivateMsg),
        r matches Err(e) && e.kind == ErrorKind::GroupNotFound ==> !stored_groups(
            *old(p),
        ).contains(group_id@),
        !stored_groups(*old(p)).contains(group_id@) ==> (r matches Err(e) && e.kind
            == ErrorKind::GroupNotFound),
        r matches Err(e) ==> e.kind == ErrorKind::GroupNotFound || e.kind
            == ErrorKind::ProtocolError || e.kind == ErrorKind::SerializeError,
{
    let mut group = match backend::load_group(&*p, group_id) {
        Err(detail) => {
            return Err(MlsError::new(ErrorKind::StorageError, detail));
        },
        Ok(None) => {
            return Err(MlsError::from_parts(
                ErrorKind::GroupNotFound,
                "group not found in session",
            ));
        },
        Ok(Some(g)) => g,
    };
    let message = match backend::create_message_op(&mut group, p, signer, plaintext) {
        Ok(m) => m,
        Err(detail) => {
            return Err(MlsError::new(ErrorKind::ProtocolError, detail));
        },
    };
    match backend::serialize_message(&message) {
        Ok(bytes) => Ok(bytes),
        Err(detail) => Err(MlsError::new(ErrorKind::SerializeError, detail)),
    }
}

/// A processed incoming group message, flattened for the caller: the
/// content class as a stable string, the decrypted payload for
/// application messages, and the sender's identity when its credential
/// was a basic credential (empty, and to be treated as untrusted,
/// otherwise).
pub struct ProcessedMessage {
    pub message_type: String,
    pub plaintext: Vec<u8>,
    pub sender_identity: Vec<u8>,
}

impl ProcessedMessage {
    /// Returns a copy of the content class string.
    pub fn message_type(&self) -> (r: String)
        ensures
            r@ == self.message_type@,
    {
        self.message_type.clone()
    }

    /// Returns a copy of the decrypted payload.
    pub fn plaintext(&self) -> (r: Vec<u8>)
        ensures
            r@ == self.plaintext@,
    {
        slice_to_vec(self.plaintext.as_slice())
    }

    /// Returns a copy of the sender identity bytes.
    pub fn sender_identity(&self) -> (r: Vec<u8>)
        ensures
            r@ == self.sender_identity@,
    {
        slice_to_vec(self.sender_identity.as_slice())
    }
}

/// The identity bytes of a basic credential, or an empty byte string
/// (to be treated as untrusted) for any other credential kind.
fn extract_identity(credential: &Credential) -> (r: Vec<u8>)
    ensures
        r@ == identity_or_empty(cred_identity(*credential)),
{
    match backend::basic_identity(credential) {
        Some(identity) => identity,
        None => Vec::new(),
    }
}

/// Processes a welcome inside one provider; see
/// `MlsRegistry::process_welcome` for the contract callers rely on.
fn process_welcome_in(p: &mut OpenMlsRustCrypto, welcome_tls: &[u8]) -> (r: Result<
    Vec<u8>,
    MlsError,
>)
    ensures
        r matches Ok(gid) ==> {
            &&& envelope_kind_of(welcome_tls@) == Some(EnvelopeKind::Welcome)
            &&& stored_groups(*final(p)) =~= stored_groups(*old(p)).insert(gid@)
            &&& other_groups_preserved(*old(p), *final(p), gid@)
        },
        r matches Err(e) && e.kind == ErrorKind::DecodeError ==> envelope_kind_of(
            welcome_tls@,
        ) is None,
        envelope_kind_of(welcome_tls@) is None ==> (r matches Err(e) && e.kind
            == ErrorKind::DecodeError),
        r matches Err(e) && e.kind == ErrorKind::UnexpectedMessageType ==> (envelope_kind_of(
            welcome_tls@,
        ) matches Some(k) && k != EnvelopeKind::Welcome),
        (envelope_kind_of(welcome_tls@) matches Some(k) && k != EnvelopeKind::Welcome) ==> (
        r matches Err(e) && e.kind == ErrorKind::UnexpectedMessageType),
        r is Err ==> stored_groups(*final(p)) =~= stored_groups(*old(p)),
        r matches Err(e) && (e.kind == ErrorKind::DecodeError || e.kind
            == ErrorKind::UnexpectedMessageType) ==> groups_unchanged(*old(p), *final(p)),
        r matches Err(e) ==> e.kind == ErrorKind::DecodeError || e.kind
            == ErrorKind::UnexpectedMessageType || e.kind == ErrorKind::ProtocolError,
{
    let body = match backend::decode_envelope(welcome_tls) {
        Ok(b) => b,
        Err(detail) => {
            return Err(MlsError::new(ErrorKind::DecodeError, detail));
        },
    };
    let welcome = match body {
        IncomingBody::Welcome(w) => w,
        _ => {
            return Err(MlsError::from_parts(
                ErrorKind::UnexpectedMessageType,
                "expected Welcome message",
            ));
        },
    };
    let staged = match backend::stage_welcome(p, welcome) {
        Ok(st) => st,
        Err(detail) => {
            return Err(MlsError::new(ErrorKind::ProtocolError, detail));
        },
    };
    match backend::welcome_into_group(staged, p) {
        Ok(gid) => Ok(gid),
        Err(detail) => Err(MlsError::new(ErrorKind::ProtocolError, detail)),
    }
}

/// Processes an incoming group message inside one provider; see
/// `MlsRegistry::process_group_message` for the contract callers rely on.
fn process_message_in(p: &mut OpenMlsRustCrypto, group_id: &[u8], message_tls: &[u8]) -> (r:
    Result<ProcessedMessage, MlsError>)
    ensures
        r matches Err(e) && e.kind == ErrorKind::GroupNotFound ==> !stored_groups(
            *old(p),
        ).contains(group_id@),
        !stored_groups(*old(p)).contains(group_id@) ==> (r matches Err(e) && e.kind
            == ErrorKind::GroupNotFound),
        r matches Err(e) && e.kind == ErrorKind::DecodeError ==> envelope_kind_of(
            message_tls@,
        ) is None,
        r matches Err(e) && e.kind == ErrorKind::UnexpectedMessageType ==> (envelope_kind_of(
            message_tls@,
        ) matches Some(k) && k != EnvelopeKind::PublicMsg && k != EnvelopeKind::PrivateMsg),
        stored_groups(*old(p)).contains(group_id@) && (envelope_kind_of(
            message_tls@,
        ) matches Some(k) && k != EnvelopeKind::PublicMsg && k != EnvelopeKind::PrivateMsg)
            ==> (r matches Err(e) && e.kind == ErrorKind::UnexpectedMessageType),
        commit_bounded(*old(p), *final(p), group_id@),
        r matches Err(e) && (e.kind == ErrorKind::GroupNotFound || e.kind
            == ErrorKind::DecodeError || e.kind == ErrorKind::UnexpectedMessageType)
            ==> groups_unchanged(*old(p), *final(p)),
        r matches Ok(pm) ==> {
            &&& (envelope_kind_of(message_tls@) == Some(EnvelopeKind::PublicMsg)
                || envelope_kind_of(message_tls@) == Some(EnvelopeKind::PrivateMsg))
            &&& stored_groups(*old(p)).contains(group_id@)
            &&& (pm.message_type@ == "application"@ || pm.message_type@ == "commit"@
                || pm.message_type@ == "proposal"@ || pm.message_type@
                == "external_proposal"@)
            &&& (pm.message_type@ == "commit"@ ==> commit_advanced(
                *old(p),
                *final(p),
                group_id@,
            ))
            &&& (pm.message_type@ != "commit"@ ==> groups_unchanged(*old(p), *final(p)))
            &&& (pm.message_type@ != "application"@ ==> pm.plaintext@.len() == 0)
        },
        r matches Err(e) ==> e.kind == ErrorKind::GroupNotFound || e.kind
            == ErrorKind::StorageError || e.kind == ErrorKind::DecodeError || e.kind
            == ErrorKind::UnexpectedMessageType || e.kind == ErrorKind::ProtocolError,
{
    proof {
        reveal_strlit("application");
        reveal_strlit("commit");
        reveal_strlit("proposal");
        reveal_strlit("external_proposal");
    }
    let mut group = match backend::load_group(&*p, group_id) {
        Err(detail) => {
            return Err(MlsError::new(ErrorKind::StorageError, detail));
        },
        Ok(None) => {
            return Err(MlsError::from_parts(
                ErrorKind::GroupNotFound,
                "group not found in session",
            ));
        },
        Ok(Some(g)) => g,
    };
    let body = match backend::decode_envelope(message_tls) {
        Ok(b) => b,
        Err(detail) => {
            return Err(MlsError::new(ErrorKind::DecodeError, detail));
        },
    };
    let epoch = backend::epoch_of(&group);
    let (credential, content) = match body {
        IncomingBody::PublicMsg(m) => {
            if epoch == u64::MAX {
                return Err(MlsError::from_parts(
                    ErrorKind::ProtocolError,
                    "epoch limit reached",
                ));
            }
            // Commits from external senders are unimplemented in the
            // provider; refuse public messages in such groups instead of
            // reaching that path.
            if backend::has_external_senders(&group) {
                return Err(MlsError::from_parts(
                    ErrorKind::ProtocolError,
                    "groups with external senders are not supported",
                ));
            }
            match backend::process_public(&mut group, p, m) {
                Ok(pair) => pair,
                Err(detail) => {
                    return Err(MlsError::new(ErrorKind::ProtocolError, detail));
                },
            }
        },
        IncomingBody::PrivateMsg(m) => {
            if epoch == u64::MAX {
                return Err(MlsError::from_parts(
                    ErrorKind::ProtocolError,
                    "epoch limit reached",
                ));
            }
            match backend::process_private(&mut group, p, m) {
                Ok(pair) => pair,
                Err(detail) => {
                    return Err(MlsError::new(ErrorKind::ProtocolError, detail));
                },
            }
        },
        _ => {
            return Err(MlsError::from_parts(
                ErrorKind::UnexpectedMessageType,
                "expected PublicMessage or PrivateMessage",
            ));
        },
    };
    let sender_identity = extract_identity(&credential);
    match content {
        ProcessedContent::Application(plaintext) => Ok(ProcessedMessage {
            message_type: "application".to_string(),
            plaintext,
            sender_identity,
        }),
        ProcessedContent::Commit(staged_commit) => {
            match backend::merge_staged(&mut group, p, staged_commit) {
                Ok(()) => {},
                Err(detail) => {
                    return Err(MlsError::new(ErrorKind::ProtocolError, detail));
                },
            }
            Ok(ProcessedMessage {
                message_type: "commit".to_string(),
                plaintext: Vec::new(),
                sender_identity,
            })
        },
        ProcessedContent::Proposal => Ok(ProcessedMessage {
            message_type: "proposal".to_string(),
            plaintext: Vec::new(),
            sender_identity,
        }),
        ProcessedContent::ExternalJoin => Ok(ProcessedMessage {
            message_type: "external_proposal".to_string(),
            plaintext: Vec::new(),
            sender_identity,
        }),
    }
}

/// The two TLS-encoded messages an add produces: the commit for current
/// members and the welcome for the one added.
pub struct AddMemberResult {
    commit: Vec<u8>,
    welcome: Vec<u8>,
}

impl AddMemberResult {
    /// The view of the result: commit bytes, welcome bytes.
    pub closed spec fn view_parts(&self) -> (Seq<u8>, Seq<u8>) {
        (self.commit@, self.welcome@)
    }

    /// Returns a copy of the TLS-encoded commit.
    pub fn commit(&self) -> (r: Vec<u8>)
        ensures
            r@ == self.view_parts().0,
    {
        slice_to_vec(self.commit.as_slice())
    }

    /// Returns a copy of the TLS-encoded welcome.
    pub fn welcome(&self) -> (r: Vec<u8>)
        ensures
            r@ == self.view_parts().1,
    {
        slice_to_vec(self.welcome.as_slice())
    }
}

/// What every successful add or remove commit does to one provider: the
/// group's epoch advances by exactly one and nothing else moves.
pub open spec fn commit_advanced(
    pre: OpenMlsRustCrypto,
    post: OpenMlsRustCrypto,
    gid: Seq<u8>,
) -> bool {
    &&& stored_groups(pre).contains(gid)
    &&& stored_epoch(pre, gid) < u64::MAX
    &&& stored_epoch(post, gid) == stored_epoch(pre, gid) + 1
    &&& stored_groups(post) =~= stored_groups(pre)
    &&& other_groups_preserved(pre, post, gid)
}

/// What any outcome of a commit-producing operation does to one
/// provider: no group appears or disappears, no other group's epoch
/// moves, and the named group's epoch either stays or advances by
/// exactly one (a failure after the merge leaves it advanced).
pub open spec fn commit_bounded(
    pre: OpenMlsRustCrypto,
    post: OpenMlsRustCrypto,
    gid: Seq<u8>,
) -> bool {
    &&& stored_groups(post) =~= stored_groups(pre)
    &&& other_groups_preserved(pre, post, gid)
    &&& (stored_epoch(post, gid) == stored_epoch(pre, gid) || stored_epoch(post, gid)
        == stored_epoch(pre, gid) + 1)
}

/// Adds a member to a group inside one provider; see
/// `MlsRegistry::add_member` for the contract callers rely on.
fn add_member_in(
    p: &mut OpenMlsRustCrypto,
    signer: &SignatureKeyPair,
    group_id: &[u8],
    key_package_tls: &[u8],
) -> (r: Result<AddMemberResult, MlsError>)
    ensures
        commit_bounded(*old(p), *final(p), group_id@),
        r matches Ok(res) ==> {
            &&& commit_advanced(*old(p), *final(p), group_id@)
            &&& kp_decodes(key_package_tls@)
            &&& roster_after_add(
                stored_roster(*old(p), group_id@),
                stored_roster(*final(p), group_id@),
                kp_bytes_parts(key_package_tls@).0,
                kp_bytes_parts(key_package_tls@).1,
            )
            &&& envelope_kind_of(res.view_parts().1) == Some(EnvelopeKind::Welcome)
            &&& (envelope_kind_of(res.view_parts().0) == Some(EnvelopeKind::PublicMsg)
                || envelope_kind_of(res.view_parts().0) == Some(EnvelopeKind::PrivateMsg))
        },
        r matches Err(e) && e.kind == ErrorKind::GroupNotFound ==> !stored_groups(
            *old(p),
        ).contains(group_id@),
        !stored_groups(*old(p)).contains(group_id@) ==> (r matches Err(e) && e.kind
            == ErrorKind::GroupNotFound),
        r matches Err(e) && e.kind == ErrorKind::DecodeError ==> !kp_decodes(key_package_tls@)
            && groups_unchanged(*old(p), *final(p)),
        stored_groups(*old(p)).contains(group_id@) && stored_epoch(*old(p), group_id@)
            < u64::MAX && !kp_decodes(key_package_tls@) ==> (r matches Err(e) && e.kind
            == ErrorKind::DecodeError),
        r matches Err(e) && (e.kind == ErrorKind::GroupNotFound || e.kind
            == ErrorKind::ValidationError) ==> groups_unchanged(*old(p), *final(p)),
        r matches Err(e) ==> e.kind == ErrorKind::GroupNotFound || e.kind
            == ErrorKind::StorageError || e.kind == ErrorKind::DecodeError || e.kind
            == ErrorKind::ValidationError || e.kind == ErrorKind::ProtocolError || e.kind
            == ErrorKind::SerializeError,
{
    let mut group = match backend::load_group(&*p, group_id) {
        Err(detail) => {
            return Err(MlsError::new(ErrorKind::StorageError, detail));
        },
        Ok(None) => {
            return Err(MlsError::from_parts(
                ErrorKind::GroupNotFound,
                "group not found in session",
            ));
        },
        Ok(Some(g)) => g,
    };
    let epoch = backend::epoch_of(&group);
    if epoch == u64::MAX {
        return Err(MlsError::from_parts(ErrorKind::ProtocolError, "epoch limit reached"));
    }
    let kp_in = match backend::decode_key_package(key_package_tls) {
        Ok(kp) => kp,
        Err(detail) => {
            return Err(MlsError::new(ErrorKind::DecodeError, detail));
        },
    };
    let kp = match backend::validate_key_package(kp_in, &*p) {
        Ok(kp) => kp,
        Err(detail) => {
            return Err(MlsError::new(ErrorKind::ValidationError, detail));
        },
    };
    let (commit_msg, welcome_msg) = match backend::add_member_op(&mut group, p, signer, kp) {
        Ok(pair) => pair,
        Err(detail) => {
            return Err(MlsError::new(ErrorKind::ProtocolError, detail));
        },
    };
    match backend::merge_pending(&mut group, p) {
        Ok(()) => {},
        Err(detail) => {
            return Err(MlsError::new(ErrorKind::ProtocolError, detail));
        },
    }
    let commit = match backend::serialize_message(&commit_msg) {
        Ok(b) => b,
        Err(detail) => {
            return Err(MlsError::new(ErrorKind::SerializeError, detail));
        },
    };
    let welcome = match backend::serialize_message(&welcome_msg) {
        Ok(b) => b,
        Err(detail) => {
            return Err(MlsError::new(ErrorKind::SerializeError, detail));
        },
    };
    Ok(AddMemberResult { commit, welcome })
}

/// Removes the member at a leaf index inside one provider; see
/// `MlsRegistry::remove_member` for the contract callers rely on.
fn remove_member_in(
    p: &mut OpenMlsRustCrypto,
    signer: &SignatureKeyPair,
    group_id: &[u8],
    leaf_index: u32,
) -> (r: Result<Vec<u8>, MlsError>)
    ensures
        commit_bounded(*old(p), *final(p), group_id@),
        r matches Ok(commit) ==> {
            &&& commit_advanced(*old(p), *final(p), group_id@)
            &&& roster_after_remove(
                stored_roster(*old(p), group_id@),
                stored_roster(*final(p), group_id@),
                leaf_index,
            )
            &&& (envelope_kind_of(commit@) == Some(EnvelopeKind::PublicMsg)
                || envelope_kind_of(commit@) == Some(EnvelopeKind::PrivateMsg))
        },
        r matches Err(e) && e.kind == ErrorKind::GroupNotFound ==> !stored_groups(
            *old(p),
        ).contains(group_id@) && groups_unchanged(*old(p), *final(p)),
        !stored_groups(*old(p)).contains(group_id@) ==> (r matches Err(e) && e.kind
            == ErrorKind::GroupNotFound),
        r matches Err(e) ==> e.kind == ErrorKind::GroupNotFound || e.kind
            == ErrorKind::StorageError || e.kind == ErrorKind::ProtocolError || e.kind
            == ErrorKind::SerializeError,
{
    let mut group = match backend::load_group(&*p, group_id) {
        Err(detail) => {
            return Err(MlsError::new(ErrorKind::StorageError, detail));
        },
        Ok(None) => {
            return Err(MlsError::from_parts(
                ErrorKind::GroupNotFound,
                "group not found in session",
            ));
        },
        Ok(Some(g)) => g,
    };
    let epoch = backend::epoch_of(&group);
    if epoch == u64::MAX {
        return Err(MlsError::from_parts(ErrorKind::ProtocolError, "epoch limit reached"));
    }
    let commit_msg = match backend::remove_member_op(&mut group, p, signer, leaf_index) {
        Ok(m) => m,
        Err(detail) => {
            return Err(MlsError::new(ErrorKind::ProtocolError, detail));
        },
    };
    match backend::merge_pending(&mut group, p) {
        Ok(()) => {},
        Err(detail) => {
            return Err(MlsError::new(ErrorKind::ProtocolError, detail));
        },
    }
    match backend::serialize_message(&commit_msg) {
        Ok(b) => Ok(b),
        Err(detail) => Err(MlsError::new(ErrorKind::SerializeError, detail)),
    }
}

/// Law: a merged add or remove commit strictly increases the group's
/// stored epoch, and touches no other group.
pub proof fn lemma_commit_advances_epoch(
    pre: OpenMlsRustCrypto,
    post: OpenMlsRustCrypto,
    gid: Seq<u8>,
)
    requires
        commit_advanced(pre, post, gid),
    ensures
        stored_epoch(post, gid) > stored_epoch(pre, gid),
        forall|other: Seq<u8>|
            other != gid ==> #[trigger] stored_epoch(post, other) == stored_epoch(pre, other),
{
}

/// Renders one provider's membership list for a group; see
/// `MlsRegistry::get_members` for the contract callers rely on.
fn get_members_in(p: &OpenMlsRustCrypto, group_id: &[u8]) -> (r: Result<String, MlsError>)
    ensures
        r matches Ok(s) ==> stored_groups(*p).contains(group_id@) && s@ == members_json(
            stored_roster(*p, group_id@),
        ),
        stored_groups(*p).contains(group_id@) ==> r is Ok,
        r is Err <==> !stored_groups(*p).contains(group_id@),
        r matches Err(e) ==> e.kind == ErrorKind::GroupNotFound,
{
    let group = match backend::load_group(p, group_id) {
        Err(detail) => {
            return Err(MlsError::new(ErrorKind::StorageError, detail));
        },
        Ok(None) => {
            return Err(MlsError::from_parts(
                ErrorKind::GroupNotFound,
                "group not found in session",
            ));
        },
        Ok(Some(g)) => g,
    };
    let ghost roster = crate::backend::group_roster(group);
    let entries = backend::member_entries(&group);
    let mut rows: Vec<MemberRow> = Vec::new();
    let mut i: usize = 0;
    while i < entries.len()
        invariant
            i <= entries@.len(),
            rows@.len() == i,
            entries@.len() == roster.len(),
            forall|j: int|
                0 <= j < entries@.len() ==> #[trigger] roster[j] == (
                    entries@[j].index,
                    identity_or_empty(cred_identity(entries@[j].credential)),
                    entries@[j].signature_key@,
                ),
            forall|j: int| 0 <= j < i ==> #[trigger] rows@[j].view_triple() == roster[j],
        decreases entries@.len() - i,
    {
        let entry = &entries[i];
        let identity = extract_identity(&entry.credential);
        rows.push(
            MemberRow {
                index: entry.index,
                identity,
                signature_key: slice_to_vec(entry.signature_key.as_slice()),
            },
        );
        i = i + 1;
    }
    let rendered = members_to_json(&rows);
    proof {
        let triples = Seq::new(rows@.len(), |j: int| rows@[j].view_triple());
        assert(triples =~= roster);
        assert(rendered@ == members_json(roster));
    }
    Ok(rendered)
}

impl MlsRegistry {
    /// Creates a new MLS group with the given id in a session, with the
    /// fixed ciphersuite and the ratchet-tree extension enabled, the
    /// session's identity as its only member, at epoch 0.
    ///
    /// Fails with `SessionNotFound` exactly when the id names no session,
    /// and with `GroupExists` when the session already holds a group under
    /// this id. Other sessions are untouched.
    pub fn create_mls_group(&mut self, session_id: u32, group_id: &[u8]) -> (r: Result<
        (),
        MlsError,
    >)
        ensures
            registry_frame(*old(self), *final(self), session_id),
            old(self).wf() ==> final(self).wf(),
            !old(self).sessions_spec().dom().contains(session_id) ==> (r matches Err(e)
                && e.kind == ErrorKind::SessionNotFound) && final(self).sessions_spec()
                =~= old(self).sessions_spec(),
            r matches Err(e) && e.kind == ErrorKind::SessionNotFound ==> !old(
                self,
            ).sessions_spec().dom().contains(session_id),
            old(self).sessions_spec().dom().contains(session_id) ==> {
                &&& final(self).sessions_spec().dom().contains(session_id)
                &&& (r is Ok ==> {
                    &&& !stored_groups(
                        old(self).sessions_spec()[session_id].provider,
                    ).contains(group_id@)
                    &&& stored_groups(final(self).sessions_spec()[session_id].provider)
                        =~= stored_groups(
                        old(self).sessions_spec()[session_id].provider,
                    ).insert(group_id@)
                    &&& stored_epoch(
                        final(self).sessions_spec()[session_id].provider,
                        group_id@,
                    ) == 0
                    &&& stored_roster(
                        final(self).sessions_spec()[session_id].provider,
                        group_id@,
                    ) =~= seq![
                        (
                            0u32,
                            cwk_parts(
                                old(self).sessions_spec()[session_id].credential_with_key,
                            ).0,
                            cwk_parts(
                                old(self).sessions_spec()[session_id].credential_with_key,
                            ).1,
                        ),
                    ]
                })
                &&& other_groups_preserved(
                    old(self).sessions_spec()[session_id].provider,
                    final(self).sessions_spec()[session_id].provider,
                    group_id@,
                )
                &&& (r is Err ==> stored_groups(
                    final(self).sessions_spec()[session_id].provider,
                ) =~= stored_groups(old(self).sessions_spec()[session_id].provider))
                &&& (stored_groups(old(self).sessions_spec()[session_id].provider).contains(
                    group_id@,
                ) ==> (r matches Err(e) && e.kind == ErrorKind::GroupExists))
                &&& (r matches Err(e) && e.kind == ErrorKind::GroupExists ==> stored_groups(
                    old(self).sessions_spec()[session_id].provider,
                ).contains(group_id@) && groups_unchanged(
                    old(self).sessions_spec()[session_id].provider,
                    final(self).sessions_spec()[session_id].provider,
                ))
                &&& (r is Err ==> (r matches Err(e) && (e.kind == ErrorKind::SessionNotFound
                    || e.kind == ErrorKind::GroupExists || e.kind == ErrorKind::StorageError
                    || e.kind == ErrorKind::ProtocolError)))
            },
    {
        match self.sessions.remove(&session_id) {
            None => {
                proof {
                    lemma_wf_within(*old(self), *self);
                }
                Err(MlsError::from_parts(ErrorKind::SessionNotFound, "unknown session"))
            },
            Some(mut s) => {
                let result = create_group_in(
                    &mut s.provider,
                    &s.signer,
                    &s.credential_with_key,
                    group_id,
                );
                self.sessions.insert(session_id, s);
                proof {
                    lemma_wf_within(*old(self), *self);
                }
                result
            },
        }
    }

    /// Reads a group's current epoch in a session.
    ///
    /// Fails with `SessionNotFound` exactly when the id names no session,
    /// and with `GroupNotFound` when the session holds no group under
    /// this id.
    pub fn get_epoch(&self, session_id: u32, group_id: &[u8]) -> (r: Result<u64, MlsError>)
        ensures
            !self.sessions_spec().dom().contains(session_id) ==> (r matches Err(e) && e.kind
                == ErrorKind::SessionNotFound),
            r matches Err(e) && e.kind == ErrorKind::SessionNotFound ==> !self.sessions_spec(
            ).dom().contains(session_id),
            self.sessions_spec().dom().contains(session_id) ==> {
                &&& (r matches Ok(epoch) ==> stored_groups(
                    self.sessions_spec()[session_id].provider,
                ).contains(group_id@) && epoch == stored_epoch(
                    self.sessions_spec()[session_id].provider,
                    group_id@,
                ))
                &&& (stored_groups(self.sessions_spec()[session_id].provider).contains(
                    group_id@,
                ) ==> r is Ok)
                &&& (!stored_groups(self.sessions_spec()[session_id].provider).contains(
                    group_id@,
                ) ==> (r matches Err(e) && e.kind == ErrorKind::GroupNotFound))
            },
    {
        match self.sessions.get(&session_id) {
            None => Err(MlsError::from_parts(ErrorKind::SessionNotFound, "unknown session")),
            Some(s) => get_epoch_in(&s.provider, group_id),
        }
    }

    /// Encrypts an application message to a group in a session, returning
    /// the TLS-encoded private-message envelope. Application messages do
    /// not advance the epoch: on success every group and epoch in the
    /// session is exactly what it was.
    ///
    /// Fails with `SessionNotFound` exactly when the id names no session,
    /// and with `GroupNotFound` when the session holds no group under
    /// this id. Other sessions are untouched.
    pub fn encrypt_message(&mut self, session_id: u32, group_id: &[u8], plaintext: &[u8]) -> (r:
        Result<Vec<u8>, MlsError>)
        ensures
            registry_frame(*old(self), *final(self), session_id),
            old(self).wf() ==> final(self).wf(),
            !old(self).sessions_spec().dom().contains(session_id) ==> (r matches Err(e)
                && e.kind == ErrorKind::SessionNotFound) && final(self).sessions_spec()
                =~= old(self).sessions_spec(),
            r matches Err(e) && e.kind == ErrorKind::SessionNotFound ==> !old(
                self,
            ).sessions_spec().dom().contains(session_id),
            old(self).sessions_spec().dom().contains(session_id) ==> {
                &&& final(self).sessions_spec().dom().contains(session_id)
                &&& groups_unchanged(
                    old(self).sessions_spec()[session_id].provider,
                    final(self).sessions_spec()[session_id].provider,
                )
                &&& (r matches Ok(ct) ==> stored_groups(
                    old(self).sessions_spec()[session_id].provider,
                ).contains(group_id@) && envelope_kind_of(ct@) == Some(
                    EnvelopeKind::PrivateMsg,
                ))
                &&& (r matches Err(e) && e.kind == ErrorKind::GroupNotFound ==> !stored_groups(
                    old(self).sessions_spec()[session_id].provider,
                ).contains(group_id@))
                &&& (!stored_groups(old(self).sessions_spec()[session_id].provider).contains(
                    group_id@,
                ) ==> (r matches Err(e) && e.kind == ErrorKind::GroupNotFound))
            },
    {
        match self.sessions.remove(&session_id) {
            None => {
                proof {
                    lemma_wf_within(*old(self), *self);
                }
                Err(MlsError::from_parts(ErrorKind::SessionNotFound, "unknown session"))
            },
            Some(mut s) => {
                let result = encrypt_in(&mut s.provider, &s.signer, group_id, plaintext);
                self.sessions.insert(session_id, s);
                proof {
                    lemma_wf_within(*old(self), *self);
                }
                result
            },
        }
    }

    /// Adds a member to a group in a session from the TLS encoding of the
    /// member's key package. The key package is validated, the add commit
    /// is merged on this side in the same call, and the TLS-encoded
    /// commit and welcome are returned. On success the group's epoch
    /// advances by exactly one and no other group moves.
    ///
    /// Fails with `SessionNotFound` exactly when the id names no session,
    /// with `GroupNotFound` when the session holds no group under this
    /// id, with `DecodeError` when the key package bytes do not parse,
    /// and with `ValidationError` when they fail validation. Other
    /// sessions are untouched.
    pub fn add_member(
        &mut self,
        session_id: u32,
        group_id: &[u8],
        key_package_tls: &[u8],
    ) -> (r: Result<AddMemberResult, MlsError>)
        ensures
            registry_frame(*old(self), *final(self), session_id),
            old(self).wf() ==> final(self).wf(),
            !old(self).sessions_spec().dom().contains(session_id) ==> (r matches Err(e)
                && e.kind == ErrorKind::SessionNotFound) && final(self).sessions_spec()
                =~= old(self).sessions_spec(),
            r matches Err(e) && e.kind == ErrorKind::SessionNotFound ==> !old(
                self,
            ).sessions_spec().dom().contains(session_id),
            old(self).sessions_spec().dom().contains(session_id) ==> {
                &&& final(self).sessions_spec().dom().contains(session_id)
                &&& commit_bounded(
                    old(self).sessions_spec()[session_id].provider,
                    final(self).sessions_spec()[session_id].provider,
                    group_id@,
                )
                &&& (r matches Ok(res) ==> {
                    &&& commit_advanced(
                        old(self).sessions_spec()[session_id].provider,
                        final(self).sessions_spec()[session_id].provider,
                        group_id@,
                    )
                    &&& kp_decodes(key_package_tls@)
                    &&& roster_after_add(
                        stored_roster(
                            old(self).sessions_spec()[session_id].provider,
                            group_id@,
                        ),
                        stored_roster(
                            final(self).sessions_spec()[session_id].provider,
                            group_id@,
                        ),
                        kp_bytes_parts(key_package_tls@).0,
                        kp_bytes_parts(key_package_tls@).1,
                    )
                    &&& envelope_kind_of(res.view_parts().1) == Some(EnvelopeKind::Welcome)
                })
                &&& (r matches Err(e) && e.kind == ErrorKind::GroupNotFound ==> !stored_groups(
                    old(self).sessions_spec()[session_id].provider,
                ).contains(group_id@))
                &&& (!stored_groups(old(self).sessions_spec()[session_id].provider).contains(
                    group_id@,
                ) ==> (r matches Err(e) && e.kind == ErrorKind::GroupNotFound))
                &&& (r matches Err(e) && e.kind == ErrorKind::DecodeError ==> !kp_decodes(
                    key_package_tls@,
                ))
                &&& (stored_groups(old(self).sessions_spec()[session_id].provider).contains(
                    group_id@,
                ) && stored_epoch(old(self).sessions_spec()[session_id].provider, group_id@)
                    < u64::MAX && !kp_decodes(key_package_tls@) ==> (r matches Err(e)
                    && e.kind == ErrorKind::DecodeError))
                &&& (r matches Err(e) && (e.kind == ErrorKind::GroupNotFound || e.kind
                    == ErrorKind::DecodeError || e.kind == ErrorKind::ValidationError)
                    ==> groups_unchanged(
                    old(self).sessions_spec()[session_id].provider,
                    final(self).sessions_spec()[session_id].provider,
                ))
                &&& (r is Err ==> (r matches Err(e) && (e.kind == ErrorKind::SessionNotFound
                    || e.kind == ErrorKind::GroupNotFound || e.kind == ErrorKind::StorageError
                    || e.kind == ErrorKind::DecodeError || e.kind == ErrorKind::ValidationError
                    || e.kind == ErrorKind::ProtocolError || e.kind
                    == ErrorKind::SerializeError)))
            },
    {
        match self.sessions.remove(&session_id) {
            None => {
                proof {
                    lemma_wf_within(*old(self), *self);
                }
                Err(MlsError::from_parts(ErrorKind::SessionNotFound, "unknown session"))
            },
            Some(mut s) => {
                let result = add_member_in(&mut s.provider, &s.signer, group_id, key_package_tls);
                self.sessions.insert(session_id, s);
                proof {
                    lemma_wf_within(*old(self), *self);
                }
                result
            },
        }
    }

    /// Removes the member at a leaf index from a group in a session. The
    /// remove commit is merged on this side in the same call and its TLS
    /// encoding is returned. On success the group's epoch advances by
    /// exactly one and no other group moves.
    ///
    /// Fails with `SessionNotFound` exactly when the id names no session,
    /// and with `GroupNotFound` when the session holds no group under
    /// this id. Other sessions are untouched.
    pub fn remove_member(&mut self, session_id: u32, group_id: &[u8], leaf_index: u32) -> (r:
        Result<Vec<u8>, MlsError>)
        ensures
            registry_frame(*old(self), *final(self), session_id),
            old(self).wf() ==> final(self).wf(),
            !old(self).sessions_spec().dom().contains(session_id) ==> (r matches Err(e)
                && e.kind == ErrorKind::SessionNotFound) && final(self).sessions_spec()
                =~= old(self).sessions_spec(),
            r matches Err(e) && e.kind == ErrorKind::SessionNotFound ==> !old(
                self,
            ).sessions_spec().dom().contains(session_id),
            old(self).sessions_spec().dom().contains(session_id) ==> {
                &&& final(self).sessions_spec().dom().contains(session_id)
                &&& commit_bounded(
                    old(self).sessions_spec()[session_id].provider,
                    final(self).sessions_spec()[session_id].provider,
                    group_id@,
                )
                &&& (r is Ok ==> commit_advanced(
                    old(self).sessions_spec()[session_id].provider,
                    final(self).sessions_spec()[session_id].provider,
                    group_id@,
                ) && roster_after_remove(
                    stored_roster(old(self).sessions_spec()[session_id].provider, group_id@),
                    stored_roster(final(self).sessions_spec()[session_id].provider, group_id@),
                    leaf_index,
                ))
                &&& (r matches Err(e) && e.kind == ErrorKind::GroupNotFound ==> !stored_groups(
                    old(self).sessions_spec()[session_id].provider,
                ).contains(group_id@) && groups_unchanged(
                    old(self).sessions_spec()[session_id].provider,
                    final(self).sessions_spec()[session_id].provider,
                ))
                &&& (!stored_groups(old(self).sessions_spec()[session_id].provider).contains(
                    group_id@,
                ) ==> (r matches Err(e) && e.kind == ErrorKind::GroupNotFound))
                &&& (r is Err ==> (r matches Err(e) && (e.kind == ErrorKind::SessionNotFound
                    || e.kind == ErrorKind::GroupNotFound || e.kind == ErrorKind::StorageError
                    || e.kind == ErrorKind::ProtocolError || e.kind
                    == ErrorKind::SerializeError)))
            },
    {
        match self.sessions.remove(&session_id) {
            None => {
                proof {
                    lemma_wf_within(*old(self), *self);
                }
                Err(MlsError::from_parts(ErrorKind::SessionNotFound, "unknown session"))
            },
            Some(mut s) => {
                let result = remove_member_in(&mut s.provider, &s.signer, group_id, leaf_index);
                self.sessions.insert(session_id, s);
                proof {
                    lemma_wf_within(*old(self), *self);
                }
                result
            },
        }
    }

    /// Processes a TLS-encoded welcome in a session, finalizing the new
    /// group into the session's storage, and returns the new group's id.
    /// The session must hold the init private key of a key package the
    /// welcome consumed, as `session_generate_key_package` arranges.
    ///
    /// Fails with `SessionNotFound` exactly when the id names no session,
    /// with `DecodeError` exactly when the bytes are no MLS envelope, and
    /// with `UnexpectedMessageType` exactly when they are an envelope of
    /// any variant but a welcome. Other sessions are untouched.
    pub fn process_welcome(&mut self, session_id: u32, welcome_tls: &[u8]) -> (r: Result<
        Vec<u8>,
        MlsError,
    >)
        ensures
            registry_frame(*old(self), *final(self), session_id),
            old(self).wf() ==> final(self).wf(),
            !old(self).sessions_spec().dom().contains(session_id) ==> (r matches Err(e)
                && e.kind == ErrorKind::SessionNotFound) && final(self).sessions_spec()
                =~= old(self).sessions_spec(),
            r matches Err(e) && e.kind == ErrorKind::SessionNotFound ==> !old(
                self,
            ).sessions_spec().dom().contains(session_id),
            r matches Err(e) && e.kind == ErrorKind::DecodeError ==> envelope_kind_of(
                welcome_tls@,
            ) is None,
            old(self).sessions_spec().dom().contains(session_id) && envelope_kind_of(
                welcome_tls@,
            ) is None ==> (r matches Err(e) && e.kind == ErrorKind::DecodeError),
            r matches Err(e) && e.kind == ErrorKind::UnexpectedMessageType ==> (
            envelope_kind_of(welcome_tls@) matches Some(k) && k != EnvelopeKind::Welcome),
            old(self).sessions_spec().dom().contains(session_id) && (envelope_kind_of(
                welcome_tls@,
            ) matches Some(k) && k != EnvelopeKind::Welcome) ==> (r matches Err(e) && e.kind
                == ErrorKind::UnexpectedMessageType),
            old(self).sessions_spec().dom().contains(session_id) ==> {
                &&& final(self).sessions_spec().dom().contains(session_id)
                &&& (r matches Ok(gid) ==> {
                    &&& envelope_kind_of(welcome_tls@) == Some(EnvelopeKind::Welcome)
                    &&& stored_groups(final(self).sessions_spec()[session_id].provider)
                        =~= stored_groups(
                        old(self).sessions_spec()[session_id].provider,
                    ).insert(gid@)
                    &&& other_groups_preserved(
                        old(self).sessions_spec()[session_id].provider,
                        final(self).sessions_spec()[session_id].provider,
                        gid@,
                    )
                })
                &&& (r is Err ==> stored_groups(
                    final(self).sessions_spec()[session_id].provider,
                ) =~= stored_groups(old(self).sessions_spec()[session_id].provider))
                &&& (r matches Err(e) && (e.kind == ErrorKind::DecodeError || e.kind
                    == ErrorKind::UnexpectedMessageType) ==> groups_unchanged(
                    old(self).sessions_spec()[session_id].provider,
                    final(self).sessions_spec()[session_id].provider,
                ))
                &&& (r is Err ==> (r matches Err(e) && (e.kind == ErrorKind::SessionNotFound
                    || e.kind == ErrorKind::DecodeError || e.kind
                    == ErrorKind::UnexpectedMessageType || e.kind
                    == ErrorKind::ProtocolError)))
            },
    {
        match self.sessions.remove(&session_id) {
            None => {
                proof {
                    lemma_wf_within(*old(self), *self);
                }
                Err(MlsError::from_parts(ErrorKind::SessionNotFound, "unknown session"))
            },
            Some(mut s) => {
                let result = process_welcome_in(&mut s.provider, welcome_tls);
                self.sessions.insert(session_id, s);
                proof {
                    lemma_wf_within(*old(self), *self);
                }
                result
            },
        }
    }

    /// Processes a TLS-encoded incoming group message in a session: an
    /// application message is decrypted, a commit is merged into the
    /// group in this same call (advancing its epoch by exactly one), and
    /// a proposal is buffered by the provider. The result carries the
    /// content class, the payload for application messages, and the
    /// sender's identity.
    ///
    /// Fails with `SessionNotFound` exactly when the id names no session,
    /// with `GroupNotFound` when the session holds no group under this
    /// id, with `DecodeError` when the bytes are no MLS envelope, and
    /// with `UnexpectedMessageType` when the envelope is not a public or
    /// private protocol message. Other sessions are untouched, and on
    /// anything but a commit every group and epoch in this session is
    /// exactly what it was.
    pub fn process_group_message(
        &mut self,
        session_id: u32,
        group_id: &[u8],
        message_tls: &[u8],
    ) -> (r: Result<ProcessedMessage, MlsError>)
        ensures
            registry_frame(*old(self), *final(self), session_id),
            old(self).wf() ==> final(self).wf(),
            !old(self).sessions_spec().dom().contains(session_id) ==> (r matches Err(e)
                && e.kind == ErrorKind::SessionNotFound) && final(self).sessions_spec()
                =~= old(self).sessions_spec(),
            r matches Err(e) && e.kind == ErrorKind::SessionNotFound ==> !old(
                self,
            ).sessions_spec().dom().contains(session_id),
            r matches Err(e) && e.kind == ErrorKind::DecodeError ==> envelope_kind_of(
                message_tls@,
            ) is None,
            r matches Err(e) && e.kind == ErrorKind::UnexpectedMessageType ==> (
            envelope_kind_of(message_tls@) matches Some(k) && k != EnvelopeKind::PublicMsg
                && k != EnvelopeKind::PrivateMsg),
            old(self).sessions_spec().dom().contains(session_id) ==> {
                &&& final(self).sessions_spec().dom().contains(session_id)
                &&& commit_bounded(
                    old(self).sessions_spec()[session_id].provider,
                    final(self).sessions_spec()[session_id].provider,
                    group_id@,
                )
                &&& (r matches Err(e) && e.kind == ErrorKind::GroupNotFound
                    ==> !stored_groups(
                    old(self).sessions_spec()[session_id].provider,
                ).contains(group_id@))
                &&& (!stored_groups(old(self).sessions_spec()[session_id].provider).contains(
                    group_id@,
                ) ==> (r matches Err(e) && e.kind == ErrorKind::GroupNotFound))
                &&& (stored_groups(old(self).sessions_spec()[session_id].provider).contains(
                    group_id@,
                ) && (envelope_kind_of(message_tls@) matches Some(k) && k
                    != EnvelopeKind::PublicMsg && k != EnvelopeKind::PrivateMsg) ==> (
                r matches Err(e) && e.kind == ErrorKind::UnexpectedMessageType))
                &&& (r matches Err(e) && (e.kind == ErrorKind::GroupNotFound || e.kind
                    == ErrorKind::DecodeError || e.kind == ErrorKind::UnexpectedMessageType)
                    ==> groups_unchanged(
                    old(self).sessions_spec()[session_id].provider,
                    final(self).sessions_spec()[session_id].provider,
                ))
                &&& (r matches Ok(pm) ==> {
                    &&& (envelope_kind_of(message_tls@) == Some(EnvelopeKind::PublicMsg)
                        || envelope_kind_of(message_tls@) == Some(EnvelopeKind::PrivateMsg))
                    &&& (pm.message_type@ == "application"@ || pm.message_type@ == "commit"@
                        || pm.message_type@ == "proposal"@ || pm.message_type@
                        == "external_proposal"@)
                    &&& (pm.message_type@ == "commit"@ ==> commit_advanced(
                        old(self).sessions_spec()[session_id].provider,
                        final(self).sessions_spec()[session_id].provider,
                        group_id@,
                    ))
                    &&& (pm.message_type@ != "commit"@ ==> groups_unchanged(
                        old(self).sessions_spec()[session_id].provider,
                        final(self).sessions_spec()[session_id].provider,
                    ))
                    &&& (pm.message_type@ != "application"@ ==> pm.plaintext@.len() == 0)
                })
            },
    {
        match self.sessions.remove(&session_id) {
            None => {
                proof {
                    lemma_wf_within(*old(self), *self);
                }
                Err(MlsError::from_parts(ErrorKind::SessionNotFound, "unknown session"))
            },
            Some(mut s) => {
                let result = process_message_in(&mut s.provider, group_id, message_tls);
                self.sessions.insert(session_id, s);
                proof {
                    lemma_wf_within(*old(self), *self);
                }
                result
            },
        }
    }

    /// Renders a group's membership list in a session as a JSON array of
    /// objects: exactly the stored group's roster, in leaf order, each
    /// row carrying the member's leaf index, decoded basic-credential
    /// identity bytes (empty for any other credential kind) and raw
    /// signature public key.
    ///
    /// Fails with `SessionNotFound` exactly when the id names no session,
    /// and with `GroupNotFound` when the session holds no group under
    /// this id.
    pub fn get_members(&self, session_id: u32, group_id: &[u8]) -> (r: Result<String, MlsError>)
        ensures
            !self.sessions_spec().dom().contains(session_id) ==> (r matches Err(e) && e.kind
                == ErrorKind::SessionNotFound),
            r matches Err(e) && e.kind == ErrorKind::SessionNotFound ==> !self.sessions_spec(
            ).dom().contains(session_id),
            self.sessions_spec().dom().contains(session_id) ==> {
                &&& (r matches Ok(s) ==> stored_groups(
                    self.sessions_spec()[session_id].provider,
                ).contains(group_id@) && s@ == members_json(
                    stored_roster(self.sessions_spec()[session_id].provider, group_id@),
                ))
                &&& (stored_groups(self.sessions_spec()[session_id].provider).contains(
                    group_id@,
                ) ==> r is Ok)
                &&& (!stored_groups(self.sessions_spec()[session_id].provider).contains(
                    group_id@,
                ) ==> (r matches Err(e) && e.kind == ErrorKind::GroupNotFound))
            },
    {
        match self.sessions.get(&session_id) {
            None => Err(MlsError::from_parts(ErrorKind::SessionNotFound, "unknown session")),
            Some(s) => get_members_in(&s.provider, group_id),
        }
    }
}

} // verus!
