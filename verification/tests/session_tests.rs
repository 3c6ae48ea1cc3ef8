use mls_session::errors::ErrorKind;
use mls_session::keys::create_credential;
use mls_session::session::MlsRegistry;

fn session_for(registry: &mut MlsRegistry, identity_byte: u8) -> u32 {
    let bundle = create_credential(&[identity_byte; 32]).expect("credential");
    registry
        .create_session(
            &bundle.identity(),
            &bundle.signing_private_key(),
            &bundle.signing_public_key(),
        )
        .expect("session")
}

#[test]
fn session_ids_are_pairwise_distinct() {
    let mut registry = MlsRegistry::new();
    let a = session_for(&mut registry, 1);
    let b = session_for(&mut registry, 2);
    let c = session_for(&mut registry, 3);
    assert_ne!(a, b);
    assert_ne!(a, c);
    assert_ne!(b, c);
    assert_eq!((a, b, c), (1, 2, 3));
}

#[test]
fn destroyed_ids_are_not_reused() {
    let mut registry = MlsRegistry::new();
    let a = session_for(&mut registry, 1);
    assert!(registry.destroy_session(a));
    let b = session_for(&mut registry, 2);
    assert_ne!(a, b, "a destroyed id must never come back");
}

#[test]
fn create_session_rejects_bad_key_sizes() {
    let mut registry = MlsRegistry::new();
    let bundle = create_credential(&[9; 32]).expect("credential");
    let err = registry
        .create_session(&[9; 30], &bundle.signing_private_key(), &bundle.signing_public_key())
        .err()
        .expect("short identity fails");
    assert_eq!(err.kind, ErrorKind::InvalidInput);
    let err = registry
        .create_session(&bundle.identity(), &[1; 20], &bundle.signing_public_key())
        .err()
        .expect("bad signing key length fails");
    assert_eq!(err.kind, ErrorKind::InvalidInput);
    let err = registry
        .create_session(&bundle.identity(), &bundle.signing_private_key(), &[1; 31])
        .err()
        .expect("short signing public key fails");
    assert_eq!(err.kind, ErrorKind::InvalidInput);
}

#[test]
fn destroy_session_frees_the_id() {
    let mut registry = MlsRegistry::new();
    let a = session_for(&mut registry, 1);
    assert!(registry.destroy_session(a));
    assert!(!registry.destroy_session(a), "second destroy returns false");
    let err = registry.encrypt_message(a, &[0xAA], b"x").err().expect("destroyed session");
    assert_eq!(err.kind, ErrorKind::SessionNotFound);
    let err = registry.session_generate_key_package(a).err().expect("destroyed session");
    assert_eq!(err.kind, ErrorKind::SessionNotFound);
    let err = registry.get_epoch(a, &[0xAA]).err().expect("destroyed session");
    assert_eq!(err.kind, ErrorKind::SessionNotFound);
}

#[test]
fn unknown_session_is_reported() {
    let mut registry = MlsRegistry::new();
    let err = registry.encrypt_message(99999, &[0xAA], b"x").err().expect("unknown session");
    assert_eq!(err.kind, ErrorKind::SessionNotFound);
    let err = registry.create_mls_group(12345, &[0xAA]).err().expect("unknown session");
    assert_eq!(err.kind, ErrorKind::SessionNotFound);
    let err = registry.process_welcome(7, &[0x00]).err().expect("unknown session");
    assert_eq!(err.kind, ErrorKind::SessionNotFound);
}

#[test]
fn sessions_are_isolated() {
    let mut registry = MlsRegistry::new();
    let a = session_for(&mut registry, 1);
    let b = session_for(&mut registry, 2);
    let gid = [0xAA, 0xBB];
    registry.create_mls_group(a, &gid).expect("group in a");
    let err = registry.get_epoch(b, &gid).err().expect("b has no such group");
    assert_eq!(err.kind, ErrorKind::GroupNotFound);
    registry.create_mls_group(b, &gid).expect("same id in b is a distinct group");
    assert_eq!(registry.get_epoch(a, &gid).expect("epoch in a"), 0);
    assert_eq!(registry.get_epoch(b, &gid).expect("epoch in b"), 0);
}
