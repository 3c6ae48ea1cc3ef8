use vstd::prelude::*;
use vstd::slice::slice_to_vec;

use std::collections::HashMap;

use openmls::prelude::CredentialWithKey;
use openmls_basic_credential::SignatureKeyPair;
use openmls_rust_crypto::OpenMlsRustCrypto;

use crate::backend;
use crate::backend::cwk_parts;
use crate::backend::kp_bytes_parts;
use crate::backend::kp_decodes;
use crate::backend::skp_parts;
use crate::backend::stored_epoch;
use crate::backend::stored_groups;
use crate::errors::ErrorKind;
use crate::errors::MlsError;
use crate::keys::import_spec;
use crate::keys::normalize_signing_key;
use crate::keys::normalized_signing_key;

verus! {

broadcast use vstd::std_specs::hash::group_hash_axioms;

/// One live session: a provider that owns all of this identity's group
/// state and key material, the signer for outgoing messages, and the
/// credential that binds the caller-supplied identity to the signing key.
///
/// A provider is never shared between sessions: groups are addressed by
/// id inside a provider's storage, and two sessions addressing the same
/// group would race.
pub struct Session {
    pub provider: OpenMlsRustCrypto,
    pub signer: SignatureKeyPair,
    pub credential_with_key: CredentialWithKey,
    pub identity: Vec<u8>,
}

/// The process-local registry of sessions: a map from opaque numeric
/// handles to sessions, plus the monotonically increasing counter that
/// mints the handles. Handles are never reused within a registry.
pub struct MlsRegistry {
    pub sessions: HashMap<u32, Session>,
    pub next_id: u32,
}

impl MlsRegistry {
    /// The registry's map of live sessions.
    pub open spec fn sessions_spec(&self) -> Map<u32, Session> {
        self.sessions@
    }

    /// The next session id the registry will mint.
    pub open spec fn next_id_spec(&self) -> u32 {
        self.next_id
    }

    /// Well-formedness: every live id is below the counter, so the next
    /// minted id collides with no id that is live or was ever minted.
    pub open spec fn wf(&self) -> bool {
        forall|k: u32| #[trigger]
            self.sessions_spec().dom().contains(k) ==> k < self.next_id_spec()
    }

    /// An empty registry whose counter starts at 1.
    pub fn new() -> (r: MlsRegistry)
        ensures
            r.sessions_spec() =~= Map::<u32, Session>::empty(),
            r.next_id_spec() == 1,
            r.wf(),
    {
        MlsRegistry { sessions: HashMap::new(), next_id: 1 }
    }

    /// Validates the key material, allocates the next id, builds a fresh
    /// provider holding the signer, and registers the session under that
    /// id.
    ///
    /// Fails with `InvalidInput` exactly when a key has a rejected size,
    /// before any id is allocated; with valid sizes it succeeds, as the
    /// in-memory key store cannot refuse the signer. Were a store ever
    /// to fail, it would surface as `StorageError` with the session map
    /// unchanged but the allocated id consumed: ids are never reused.
    pub fn create_session(
        &mut self,
        identity: &[u8],
        signing_private_key: &[u8],
        signing_public_key: &[u8],
    ) -> (r: Result<u32, MlsError>)
        requires
            old(self).wf(),
            old(self).next_id_spec() < u32::MAX,
        ensures
            final(self).wf(),
            final(self).next_id_spec() >= old(self).next_id_spec(),
            r matches Ok(id) ==> {
                &&& import_spec(identity@, signing_private_key@, signing_public_key@) is Some
                &&& id == old(self).next_id_spec()
                &&& final(self).next_id_spec() == old(self).next_id_spec() + 1
                &&& !old(self).sessions_spec().dom().contains(id)
                &&& final(self).sessions_spec().dom() =~= old(self).sessions_spec().dom().insert(
                    id,
                )
                &&& forall|k: u32|
                    k != id && old(self).sessions_spec().dom().contains(k)
                        ==> #[trigger] final(self).sessions_spec()[k] == old(
                        self,
                    ).sessions_spec()[k]
                &&& final(self).sessions_spec()[id].identity@ == identity@
                &&& skp_parts(final(self).sessions_spec()[id].signer) == (
                    normalized_signing_key(signing_private_key@)->Some_0,
                    signing_public_key@,
                )
                &&& cwk_parts(final(self).sessions_spec()[id].credential_with_key) == (
                    identity@,
                    signing_public_key@,
                )
                &&& stored_groups(final(self).sessions_spec()[id].provider) =~= Set::<
                    Seq<u8>,
                >::empty()
            },
            r is Err ==> final(self).sessions_spec() =~= old(self).sessions_spec(),
            import_spec(identity@, signing_private_key@, signing_public_key@) is Some ==> r
                is Ok,
            import_spec(identity@, signing_private_key@, signing_public_key@) is None ==> (
            r matches Err(e) && e.kind == ErrorKind::InvalidInput) && *final(self) == *old(
                self,
            ),
            import_spec(identity@, signing_private_key@, signing_public_key@) is Some && r is Err
                ==> (r matches Err(e) && e.kind == ErrorKind::StorageError)
                    && final(self).next_id_spec() == old(self).next_id_spec() + 1,
    {
        let (signer, credential_with_key) = build_signer_and_credential(
            identity,
            signing_private_key,
            signing_public_key,
        )?;
        let id = self.next_id;
        self.next_id = self.next_id + 1;
        let mut provider = backend::provider_new();
        match backend::store_signer(&signer, &mut provider) {
            Ok(()) => {},
            Err(detail) => {
                proof {
                    assert forall|k: u32| self.sessions@.dom().contains(k) implies k
                        < self.next_id by {
                        assert(old(self).sessions_spec().dom().contains(k));
                    }
                }
                return Err(MlsError::new(ErrorKind::StorageError, detail));
            },
        }
        let mut identity_vec: Vec<u8> = Vec::new();
        identity_vec.extend_from_slice(identity);
        let session = Session { provider, signer, credential_with_key, identity: identity_vec };
        self.sessions.insert(id, session);
        proof {
            assert(self.sessions@ == old(self).sessions@.insert(id, session));
            assert(self.sessions@.dom() =~= old(self).sessions@.dom().insert(id));
            assert forall|k: u32| self.sessions@.dom().contains(k) implies k
                < self.next_id by {
                assert(old(self).sessions@.dom().insert(id).contains(k));
                if k != id {
                    assert(old(self).sessions_spec().dom().contains(k));
                    assert(k < old(self).next_id);
                }
            }
        }
        Ok(id)
    }

    /// Removes a session and all of its in-memory group state, returning
    /// whether the id was live. Destroying an id a second time returns
    /// `false`.
    pub fn destroy_session(&mut self, session_id: u32) -> (r: bool)
        ensures
            r == old(self).sessions_spec().dom().contains(session_id),
            final(self).sessions_spec() =~= old(self).sessions_spec().remove(session_id),
            final(self).next_id_spec() == old(self).next_id_spec(),
            old(self).wf() ==> final(self).wf(),
    {
        self.sessions.remove(&session_id).is_some()
    }

    /// Mints a key package from a session's own signer and credential.
    /// The init private key stays in the session's provider storage, so a
    /// later welcome that consumes this package can be processed in this
    /// session; it is also returned for caller-side backup.
    ///
    /// Fails with `SessionNotFound` exactly when the id names no session;
    /// the session's groups are untouched either way, and on success the
    /// returned bytes decode as a key package advertising the session's
    /// identity and signing public key.
    pub fn session_generate_key_package(&mut self, session_id: u32) -> (r: Result<
        crate::keypackage::KeyPackageResult,
        MlsError,
    >)
        ensures
            final(self).next_id_spec() == old(self).next_id_spec(),
            old(self).wf() ==> final(self).wf(),
            others_unchanged(*old(self), *final(self), session_id),
            !old(self).sessions_spec().dom().contains(session_id) ==> (r matches Err(e)
                && e.kind == ErrorKind::SessionNotFound) && final(self).sessions_spec()
                =~= old(self).sessions_spec(),
            r matches Err(e) && e.kind == ErrorKind::SessionNotFound ==> !old(
                self,
            ).sessions_spec().dom().contains(session_id),
            old(self).sessions_spec().dom().contains(session_id) ==> {
                &&& final(self).sessions_spec().dom().contains(session_id)
                &&& crate::backend::groups_unchanged(
                    old(self).sessions_spec()[session_id].provider,
                    final(self).sessions_spec()[session_id].provider,
                )
                &&& (r matches Ok(res) ==> kp_decodes(res.view_parts().0) && kp_bytes_parts(
                    res.view_parts().0,
                ) == cwk_parts(old(self).sessions_spec()[session_id].credential_with_key))
            },
    {
        match self.sessions.remove(&session_id) {
            None => {
                proof {
                    lemma_wf_within(*old(self), *self);
                }
                Err(MlsError::from_parts(ErrorKind::SessionNotFound, "unknown session"))
            },
            Some(mut s) => {
                let result = crate::keypackage::build_key_package_result(
                    &mut s.provider,
                    &s.signer,
                    &s.credential_with_key,
                );
                self.sessions.insert(session_id, s);
                proof {
                    lemma_wf_within(*old(self), *self);
                }
                result
            },
        }
    }
}

/// A registry whose ids all come from another's live ids and counter is
/// well-formed whenever that other registry is.
pub(crate) proof fn lemma_wf_within(pre: MlsRegistry, post: MlsRegistry)
    requires
        post.next_id_spec() == pre.next_id_spec(),
        forall|k: u32| #[trigger]
            post.sessions_spec().dom().contains(k) ==> pre.sessions_spec().dom().contains(k),
    ensures
        pre.wf() ==> post.wf(),
{
    if pre.wf() {
        assert forall|k: u32| post.sessions_spec().dom().contains(k) implies k
            < post.next_id_spec() by {
            assert(pre.sessions_spec().dom().contains(k));
        }
    }
}

/// Validates the key material and rebuilds the signer and the MLS
/// credential that binds the identity to it. Fails with `InvalidInput`
/// exactly when a key has a rejected size.
fn build_signer_and_credential(
    identity: &[u8],
    signing_private_key: &[u8],
    signing_public_key: &[u8],
) -> (r: Result<(SignatureKeyPair, CredentialWithKey), MlsError>)
    ensures
        r is Ok <==> import_spec(identity@, signing_private_key@, signing_public_key@) is Some,
        r matches Ok(pair) ==> {
            &&& skp_parts(pair.0) == (
                normalized_signing_key(signing_private_key@)->Some_0,
                signing_public_key@,
            )
            &&& cwk_parts(pair.1) == (identity@, signing_public_key@)
        },
        r matches Err(e) ==> e.kind == ErrorKind::InvalidInput,
{
    if identity.len() != 32 {
        return Err(MlsError::from_parts(ErrorKind::InvalidInput, "identity must be 32 bytes"));
    }
    if signing_public_key.len() != 32 {
        return Err(MlsError::from_parts(
            ErrorKind::InvalidInput,
            "signing public key must be 32 bytes",
        ));
    }
    let private_key = normalize_signing_key(signing_private_key)?;
    let public_key_vec = slice_to_vec(signing_public_key);
    let signer = backend::signer_from_raw(private_key, public_key_vec);
    let credential_with_key = backend::credential_with_key(identity, signing_public_key);
    Ok((signer, credential_with_key))
}

/// The registry evolutions that mint a session id: the id is the counter's
/// value and the counter moves strictly past it.
pub open spec fn allocates(pre: MlsRegistry, post: MlsRegistry, id: u32) -> bool {
    &&& id == pre.next_id_spec()
    &&& post.next_id_spec() == pre.next_id_spec() + 1
}

/// Law: session ids minted in one registry are pairwise distinct. Two
/// allocations where the counter never moved backwards in between (as it
/// never does: every operation keeps or increases it) yield different ids.
pub proof fn lemma_session_ids_distinct(
    pre1: MlsRegistry,
    post1: MlsRegistry,
    id1: u32,
    pre2: MlsRegistry,
    post2: MlsRegistry,
    id2: u32,
)
    requires
        allocates(pre1, post1, id1),
        allocates(pre2, post2, id2),
        post1.next_id_spec() <= pre2.next_id_spec(),
    ensures
        id1 != id2,
{
}

/// Law: in a well-formed registry the next minted id differs from every
/// live id, so a destroyed id's handle can never come back.
pub proof fn lemma_next_id_fresh(r: MlsRegistry, k: u32)
    requires
        r.wf(),
        r.sessions_spec().dom().contains(k),
    ensures
        k != r.next_id_spec(),
{
}

/// Law: once a session is destroyed, its id names nothing: any later
/// lookup of the id misses, and a second destroy returns `false`.
pub proof fn lemma_destroyed_session_stays_gone(pre: MlsRegistry, post: MlsRegistry, id: u32)
    requires
        post.sessions_spec() == pre.sessions_spec().remove(id),
    ensures
        !post.sessions_spec().dom().contains(id),
{
}

/// The registry evolutions that leave every session but one untouched:
/// what every group operation ensures about the sessions it did not name.
pub open spec fn others_unchanged(pre: MlsRegistry, post: MlsRegistry, id: u32) -> bool {
    &&& post.sessions_spec().dom() =~= pre.sessions_spec().dom()
    &&& forall|k: u32|
        k != id && pre.sessions_spec().dom().contains(k) ==> #[trigger] post.sessions_spec()[k]
            == pre.sessions_spec()[k]
}

/// Law: session isolation. An operation on session `x` never observes or
/// mutates the groups of a different session `y`: `y`'s group ids and
/// every group's epoch are exactly what they were, even for a group with
/// the same id as one touched in `x`.
pub proof fn lemma_session_isolation(
    pre: MlsRegistry,
    post: MlsRegistry,
    x: u32,
    y: u32,
    gid: Seq<u8>,
)
    requires
        others_unchanged(pre, post, x),
        y != x,
        pre.sessions_spec().dom().contains(y),
    ensures
        stored_groups(post.sessions_spec()[y].provider) == stored_groups(
            pre.sessions_spec()[y].provider,
        ),
        stored_epoch(post.sessions_spec()[y].provider, gid) == stored_epoch(
            pre.sessions_spec()[y].provider,
            gid,
        ),
{
}

} // verus!
