use vstd::prelude::*;
use vstd::slice::slice_to_vec;

use openmls::prelude::CredentialWithKey;
use openmls_basic_credential::SignatureKeyPair;
use openmls_rust_crypto::OpenMlsRustCrypto;

use crate::backend;
use crate::backend::cwk_parts;
use crate::backend::groups_unchanged;
use crate::backend::kp_bytes_parts;
use crate::backend::kp_decodes;
use crate::errors::ErrorKind;
use crate::errors::MlsError;
use crate::keys::import_spec;
use crate::keys::normalize_signing_key;

verus! {

/// A freshly minted key package: its TLS encoding, which peers consume to
/// add this user to a group, and the raw init private key, which this
/// user needs exactly once to join via the welcome that consumed it.
pub struct KeyPackageResult {
    key_package_data: Vec<u8>,
    init_private_key: Vec<u8>,
}

impl KeyPackageResult {
    /// The view of the result: key package encoding, init private key.
    pub closed spec fn view_parts(&self) -> (Seq<u8>, Seq<u8>) {
        (self.key_package_data@, self.init_private_key@)
    }

    /// Returns a copy of the TLS-encoded key package.
    pub fn key_package_data(&self) -> (r: Vec<u8>)
        ensures
            r@ == self.view_parts().0,
    {
        slice_to_vec(self.key_package_data.as_slice())
    }

    /// Returns a copy of the raw init private key.
    pub fn init_private_key(&self) -> (r: Vec<u8>)
        ensures
            r@ == self.view_parts().1,
    {
        slice_to_vec(self.init_private_key.as_slice())
    }
}

/// Builds a key package against the given provider, whose key store
/// receives the signer's material and the package's private keys, and
/// serializes it. The encoding decodes back as a key package advertising
/// the credential's identity and signature key; the provider's groups
/// are untouched.
pub(crate) fn build_key_package_result(
    provider: &mut OpenMlsRustCrypto,
    signer: &SignatureKeyPair,
    credential: &CredentialWithKey,
) -> (r: Result<KeyPackageResult, MlsError>)
    ensures
        groups_unchanged(*old(provider), *final(provider)),
        r matches Ok(res) ==> kp_decodes(res.view_parts().0) && kp_bytes_parts(
            res.view_parts().0,
        ) == cwk_parts(*credential),
        r matches Err(e) ==> e.kind == ErrorKind::ProtocolError || e.kind
            == ErrorKind::SerializeError,
{
    let bundle = match backend::build_key_package(provider, signer, credential) {
        Ok(b) => b,
        Err(detail) => {
            return Err(MlsError::new(ErrorKind::ProtocolError, detail));
        },
    };
    let key_package_data = match backend::key_package_bytes(&bundle) {
        Ok(b) => b,
        Err(detail) => {
            return Err(MlsError::new(ErrorKind::SerializeError, detail));
        },
    };
    let init_private_key = backend::init_key_bytes(&bundle);
    Ok(KeyPackageResult { key_package_data, init_private_key })
}

/// Stateless one-shot key package generation: reconstructs the signer
/// inside a throwaway provider and mints one key package from it. The
/// init private key is only returned, not retained anywhere, so a welcome
/// that consumes this package can only be processed by a caller who
/// supplied the returned key to a session of their own.
///
/// Fails with `InvalidInput` exactly when a key has a rejected size. On
/// success the returned bytes decode as a key package advertising the
/// given identity and signing public key.
pub fn generate_key_package(
    identity: &[u8],
    signing_private_key: &[u8],
    signing_public_key: &[u8],
) -> (r: Result<KeyPackageResult, MlsError>)
    ensures
        r matches Ok(res) ==> {
            &&& import_spec(identity@, signing_private_key@, signing_public_key@) is Some
            &&& kp_decodes(res.view_parts().0)
            &&& kp_bytes_parts(res.view_parts().0) == (identity@, signing_public_key@)
        },
        import_spec(identity@, signing_private_key@, signing_public_key@) is None ==> (
        r matches Err(e) && e.kind == ErrorKind::InvalidInput),
        r matches Err(e) ==> e.kind == ErrorKind::InvalidInput || e.kind
            == ErrorKind::StorageError || e.kind == ErrorKind::ProtocolError || e.kind
            == ErrorKind::SerializeError,
        import_spec(identity@, signing_private_key@, signing_public_key@) is Some && r is Err
            ==> (r matches Err(e) && e.kind != ErrorKind::InvalidInput),
{
    if identity.len() != 32 {
        return Err(MlsError::from_parts(ErrorKind::InvalidInput, "identity must be 32 bytes"));
    }
    if signing_public_key.len() != 32 {
        return Err(MlsError::from_parts(
            ErrorKind::InvalidInput,
            "signing public key must be 32 bytes",
        ));
    }
    let private_key = normalize_signing_key(signing_private_key)?;
    let mut public_key_vec: Vec<u8> = Vec::new();
    public_key_vec.extend_from_slice(signing_public_key);
    let signer = backend::signer_from_raw(private_key, public_key_vec);
    let mut provider = backend::provider_new();
    match backend::store_signer(&signer, &mut provider) {
        Ok(()) => {},
        Err(detail) => {
            return Err(MlsError::new(ErrorKind::StorageError, detail));
        },
    }
    let credential = backend::credential_with_key(identity, signing_public_key);
    build_key_package_result(&mut provider, &signer, &credential)
}

} // verus!
