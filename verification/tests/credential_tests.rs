use mls_session::errors::ErrorKind;
use mls_session::keypackage::generate_key_package;
use mls_session::keys::create_credential;
use mls_session::keys::import_signing_key;
use mls_session::keys::normalize_signing_key;

#[test]
fn bad_identity_length_is_rejected() {
    let err = create_credential(&[0x01; 31]).err().expect("31-byte identity must fail");
    assert_eq!(err.kind, ErrorKind::InvalidInput);
    let err = create_credential(&[0x01; 33]).err().expect("33-byte identity must fail");
    assert_eq!(err.kind, ErrorKind::InvalidInput);
    let err = create_credential(&[]).err().expect("empty identity must fail");
    assert_eq!(err.kind, ErrorKind::InvalidInput);
}

#[test]
fn create_credential_returns_fresh_32_byte_keys() {
    let bundle = create_credential(&[0x01; 32]).expect("32-byte identity must succeed");
    assert_eq!(bundle.identity(), vec![0x01; 32]);
    assert_eq!(bundle.signing_public_key().len(), 32);
    assert_eq!(bundle.signing_private_key().len(), 32);
    let other = create_credential(&[0x01; 32]).expect("second credential");
    assert_ne!(
        bundle.signing_private_key(),
        other.signing_private_key(),
        "two fresh keypairs must differ"
    );
}

#[test]
fn normalize_signing_key_truncates_64_bytes() {
    let mut k64 = vec![0xAB; 32];
    k64.extend_from_slice(&[0xCD; 32]);
    let normalized = normalize_signing_key(&k64).expect("64-byte key accepted");
    assert_eq!(normalized, vec![0xAB; 32]);
    let k32 = vec![0x11; 32];
    assert_eq!(normalize_signing_key(&k32).expect("32-byte key accepted"), k32);
    let err = normalize_signing_key(&[0x11; 48]).err().expect("48 bytes rejected");
    assert_eq!(err.kind, ErrorKind::InvalidInput);
}

#[test]
fn import_signing_key_normalizes_64_byte_form() {
    let id = [0x42; 32];
    let pk = [0x24; 32];
    let mut k64 = vec![0xAB; 32];
    k64.extend_from_slice(&[0xCD; 32]);
    let from64 = import_signing_key(&id, &k64, &pk).expect("64-byte import");
    let from32 = import_signing_key(&id, &k64[..32], &pk).expect("32-byte import");
    assert_eq!(from64.identity(), from32.identity());
    assert_eq!(from64.signing_public_key(), from32.signing_public_key());
    assert_eq!(from64.signing_private_key(), from32.signing_private_key());
    assert_eq!(from64.signing_private_key(), vec![0xAB; 32]);
}

#[test]
fn import_signing_key_rejects_bad_sizes() {
    let id = [0x42; 32];
    let pk = [0x24; 32];
    let k = [0x01; 32];
    assert_eq!(import_signing_key(&id[..31], &k, &pk).err().unwrap().kind, ErrorKind::InvalidInput);
    assert_eq!(import_signing_key(&id, &k[..16], &pk).err().unwrap().kind, ErrorKind::InvalidInput);
    assert_eq!(import_signing_key(&id, &k, &pk[..31]).err().unwrap().kind, ErrorKind::InvalidInput);
}

#[test]
fn generate_key_package_standalone() {
    let bundle = create_credential(&[0x07; 32]).expect("credential");
    let kp = generate_key_package(
        &bundle.identity(),
        &bundle.signing_private_key(),
        &bundle.signing_public_key(),
    )
    .expect("key package");
    assert!(!kp.key_package_data().is_empty());
    assert_eq!(kp.init_private_key().len(), 32);
}

#[test]
fn generate_key_package_rejects_bad_sizes() {
    let bundle = create_credential(&[0x07; 32]).expect("credential");
    let err = generate_key_package(
        &[0x07; 31],
        &bundle.signing_private_key(),
        &bundle.signing_public_key(),
    )
    .err()
    .expect("short identity fails");
    assert_eq!(err.kind, ErrorKind::InvalidInput);
    let err = generate_key_package(&bundle.identity(), &[0x01; 17], &bundle.signing_public_key())
        .err()
        .expect("bad private key length fails");
    assert_eq!(err.kind, ErrorKind::InvalidInput);
}
