use vstd::prelude::*;
use vstd::slice::slice_to_vec;

use crate::backend;
use crate::errors::ErrorKind;
use crate::errors::MlsError;

verus! {

/// An identity public key must be exactly this many bytes.
pub const IDENTITY_KEY_LEN: usize = 32;

/// A signing public key must be exactly this many bytes.
pub const SIGNING_PUBLIC_KEY_LEN: usize = 32;

/// A credential: the caller-supplied identity together with the two halves
/// of the Ed25519 signing key that will sign MLS messages for it.
///
/// The crate never retains a bundle; the caller owns its persistence.
pub struct CredentialBundle {
    identity: Vec<u8>,
    signing_public_key: Vec<u8>,
    signing_private_key: Vec<u8>,
}

impl CredentialBundle {
    /// The view of a bundle: identity, signing public key, signing private key.
    pub closed spec fn view_parts(&self) -> (Seq<u8>, Seq<u8>, Seq<u8>) {
        (self.identity@, self.signing_public_key@, self.signing_private_key@)
    }

    /// Returns a copy of the identity public key.
    pub fn identity(&self) -> (r: Vec<u8>)
        ensures
            r@ == self.view_parts().0,
    {
        slice_to_vec(self.identity.as_slice())
    }

    /// Returns a copy of the signing public key.
    pub fn signing_public_key(&self) -> (r: Vec<u8>)
        ensures
            r@ == self.view_parts().1,
    {
        slice_to_vec(self.signing_public_key.as_slice())
    }

    /// Returns a copy of the signing private key.
    pub fn signing_private_key(&self) -> (r: Vec<u8>)
        ensures
            r@ == self.view_parts().2,
    {
        slice_to_vec(self.signing_private_key.as_slice())
    }
}

/// The normalized form of a signing private key: a 32-byte key is kept as
/// it is, the leading 32 bytes of a 64-byte key (SecretKey followed by
/// PublicKey) are kept, and every other length is rejected.
pub open spec fn normalized_signing_key(k: Seq<u8>) -> Option<Seq<u8>> {
    if k.len() == 32 {
        Some(k)
    } else if k.len() == 64 {
        Some(k.subrange(0, 32))
    } else {
        None
    }
}

/// Normalizes a signing private key to its leading 32 bytes, rejecting any
/// length other than 32 or 64.
pub fn normalize_signing_key(signing_private_key: &[u8]) -> (r: Result<Vec<u8>, MlsError>)
    ensures
        r is Ok <==> normalized_signing_key(signing_private_key@) is Some,
        r matches Ok(v) ==> Some(v@) == normalized_signing_key(signing_private_key@),
        r matches Err(e) ==> e.kind == ErrorKind::InvalidInput,
{
    if signing_private_key.len() == 32 {
        Ok(slice_to_vec(signing_private_key))
    } else if signing_private_key.len() == 64 {
        let mut out: Vec<u8> = Vec::new();
        let mut i: usize = 0;
        while i < 32
            invariant
                i <= 32,
                signing_private_key@.len() == 64,
                out@ =~= signing_private_key@.subrange(0, i as int),
            decreases 32 - i,
        {
            out.push(signing_private_key[i]);
            i = i + 1;
        }
        assert(out@ =~= signing_private_key@.subrange(0, 32));
        Ok(out)
    } else {
        Err(MlsError::from_parts(
            ErrorKind::InvalidInput,
            "signing private key must be 32 or 64 bytes",
        ))
    }
}

/// What importing a signing key yields for given inputs: `None` when an
/// input has a rejected size, otherwise the identity, the signing public
/// key, and the normalized signing private key.
pub open spec fn import_spec(id: Seq<u8>, sk: Seq<u8>, pk: Seq<u8>) -> Option<
    (Seq<u8>, Seq<u8>, Seq<u8>),
> {
    if id.len() == 32 && pk.len() == 32 {
        match normalized_signing_key(sk) {
            Some(nk) => Some((id, pk, nk)),
            None => None,
        }
    } else {
        None
    }
}

/// Wraps an externally generated signing key into a credential bundle,
/// normalizing the private key and enforcing the key-size rules. The
/// consistency of the two halves is not verified here; an inconsistent
/// pair surfaces later, when signatures fail.
pub fn import_signing_key(
    identity_public_key: &[u8],
    signing_private_key: &[u8],
    signing_public_key: &[u8],
) -> (r: Result<CredentialBundle, MlsError>)
    ensures
        r is Ok <==> import_spec(
            identity_public_key@,
            signing_private_key@,
            signing_public_key@,
        ) is Some,
        r matches Ok(b) ==> Some(b.view_parts()) == import_spec(
            identity_public_key@,
            signing_private_key@,
            signing_public_key@,
        ),
        r matches Err(e) ==> e.kind == ErrorKind::InvalidInput,
{
    if identity_public_key.len() != 32 {
        return Err(MlsError::from_parts(
            ErrorKind::InvalidInput,
            "identity public key must be 32 bytes",
        ));
    }
    if signing_public_key.len() != 32 {
        return Err(MlsError::from_parts(
            ErrorKind::InvalidInput,
            "signing public key must be 32 bytes",
        ));
    }
    let private_key = normalize_signing_key(signing_private_key)?;
    Ok(CredentialBundle {
        identity: slice_to_vec(identity_public_key),
        signing_public_key: slice_to_vec(signing_public_key),
        signing_private_key: private_key,
    })
}

/// Importing a 64-byte signing private key yields the same bundle as
/// importing its leading 32 bytes: the extra public half is discarded by
/// normalization before anything else looks at it.
pub proof fn lemma_import_signing_key_normalizes(id: Seq<u8>, k: Seq<u8>, pk: Seq<u8>)
    requires
        k.len() == 64,
    ensures
        import_spec(id, k, pk) == import_spec(id, k.subrange(0, 32), pk),
{
    let k32 = k.subrange(0, 32);
    assert(k32.len() == 32);
    assert(k32.subrange(0, 32) =~= k32);
}

/// Mints a fresh Ed25519 signing keypair and wraps it with the given
/// identity. Fails with `InvalidInput` exactly when the identity is not 32
/// bytes; a refusal of the crypto backend surfaces as `ProtocolError`.
pub fn create_credential(identity_public_key: &[u8]) -> (r: Result<CredentialBundle, MlsError>)
    ensures
        identity_public_key@.len() != 32 ==> (r matches Err(e) && e.kind
            == ErrorKind::InvalidInput),
        r matches Ok(b) ==> {
            &&& identity_public_key@.len() == 32
            &&& b.view_parts().0 == identity_public_key@
            &&& b.view_parts().1.len() == 32
            &&& b.view_parts().2.len() == 32
        },
        r matches Err(e) ==> e.kind == ErrorKind::InvalidInput || e.kind
            == ErrorKind::ProtocolError,
        identity_public_key@.len() == 32 && r is Err ==> (r matches Err(e) && e.kind
            == ErrorKind::ProtocolError),
{
    if identity_public_key.len() != 32 {
        return Err(MlsError::from_parts(
            ErrorKind::InvalidInput,
            "identity public key must be 32 bytes",
        ));
    }
    match backend::fresh_signing_keys() {
        Ok((public_key, private_key)) => Ok(CredentialBundle {
            identity: slice_to_vec(identity_public_key),
            signing_public_key: public_key,
            signing_private_key: private_key,
        }),
        Err(detail) => Err(MlsError::new(ErrorKind::ProtocolError, detail)),
    }
}

} // verus!
