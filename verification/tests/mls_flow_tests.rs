use mls_session::errors::ErrorKind;
use mls_session::jsonfmt::members_to_json;
use mls_session::jsonfmt::MemberRow;
use mls_session::keys::create_credential;
use mls_session::session::MlsRegistry;

const GROUP_ID: [u8; 2] = [0xAA, 0xBB];

fn session_for(registry: &mut MlsRegistry, identity_byte: u8) -> u32 {
    let bundle = create_credential(&[identity_byte; 32]).expect("credential");
    registry
        .create_session(
            &bundle.identity(),
            &bundle.signing_private_key(),
            &bundle.signing_public_key(),
        )
        .expect("session")
}

/// A creates a group, adds B through B's key package, B joins through
/// the welcome; returns (session A, session B).
fn two_party_group(registry: &mut MlsRegistry) -> (u32, u32) {
    let sess_a = session_for(registry, 0x01);
    let sess_b = session_for(registry, 0x02);
    let kp_b = registry.session_generate_key_package(sess_b).expect("B key package");
    registry.create_mls_group(sess_a, &GROUP_ID).expect("create group");
    let add = registry.add_member(sess_a, &GROUP_ID, &kp_b.key_package_data()).expect("add B");
    let joined = registry.process_welcome(sess_b, &add.welcome()).expect("B joins");
    assert_eq!(joined, GROUP_ID.to_vec());
    (sess_a, sess_b)
}

#[test]
fn two_party_hello() {
    let mut registry = MlsRegistry::new();
    let (sess_a, sess_b) = two_party_group(&mut registry);

    assert_eq!(registry.get_epoch(sess_a, &GROUP_ID).unwrap(), 1, "add commit advanced A");
    assert_eq!(
        registry.get_epoch(sess_a, &GROUP_ID).unwrap(),
        registry.get_epoch(sess_b, &GROUP_ID).unwrap(),
        "A and B agree on the epoch after the welcome"
    );

    let ciphertext = registry.encrypt_message(sess_a, &GROUP_ID, b"hi").expect("encrypt");
    let processed = registry.process_group_message(sess_b, &GROUP_ID, &ciphertext).expect("B decrypts");
    assert_eq!(processed.message_type(), "application");
    assert_eq!(processed.plaintext(), b"hi".to_vec());
    assert_eq!(processed.sender_identity(), vec![0x01; 32]);
}

#[test]
fn remove_advances_the_epoch_on_both_sides() {
    let mut registry = MlsRegistry::new();
    let (sess_a, sess_b) = two_party_group(&mut registry);
    assert_eq!(registry.get_epoch(sess_a, &GROUP_ID).unwrap(), 1);

    let commit = registry.remove_member(sess_a, &GROUP_ID, 1).expect("remove B");
    assert_eq!(registry.get_epoch(sess_a, &GROUP_ID).unwrap(), 2, "remove commit advanced A");

    let processed = registry.process_group_message(sess_b, &GROUP_ID, &commit).expect("B processes");
    assert_eq!(processed.message_type(), "commit");
    assert!(processed.plaintext().is_empty());
    assert_eq!(registry.get_epoch(sess_b, &GROUP_ID).unwrap(), 2, "commit advanced B");
}

#[test]
fn remove_drops_the_member_from_the_roster() {
    let mut registry = MlsRegistry::new();
    let (sess_a, _sess_b) = two_party_group(&mut registry);

    registry.remove_member(sess_a, &GROUP_ID, 1).expect("remove B");
    let rendered = registry.get_members(sess_a, &GROUP_ID).expect("members");
    let parsed: serde_json::Value = serde_json::from_str(&rendered).expect("valid JSON");
    let members = parsed.as_array().expect("array");
    assert_eq!(members.len(), 1, "only the remover is left");
    assert_eq!(members[0]["index"], 0);
    let identity: Vec<u8> = members[0]["identity"]
        .as_array()
        .unwrap()
        .iter()
        .map(|v| v.as_u64().unwrap() as u8)
        .collect();
    assert_eq!(identity, vec![0x01; 32]);
}

#[test]
fn message_from_removed_member_is_refused() {
    let mut registry = MlsRegistry::new();
    let (sess_a, sess_b) = two_party_group(&mut registry);

    // A removes B; B does not process the removal and keeps encrypting.
    registry.remove_member(sess_a, &GROUP_ID, 1).expect("remove B");
    let stale = registry.encrypt_message(sess_b, &GROUP_ID, b"still here").expect("B encrypts");
    let err = registry
        .process_group_message(sess_a, &GROUP_ID, &stale)
        .err()
        .expect("A refuses the stale message");
    assert_eq!(err.kind, ErrorKind::ProtocolError);
}

#[test]
fn three_party_group() {
    let mut registry = MlsRegistry::new();
    let sess_a = session_for(&mut registry, 0x01);
    let sess_b = session_for(&mut registry, 0x02);
    let sess_c = session_for(&mut registry, 0x03);

    let kp_b = registry.session_generate_key_package(sess_b).expect("B key package");
    let kp_c = registry.session_generate_key_package(sess_c).expect("C key package");

    registry.create_mls_group(sess_a, &GROUP_ID).expect("create group");
    let add_b = registry.add_member(sess_a, &GROUP_ID, &kp_b.key_package_data()).expect("add B");
    registry.process_welcome(sess_b, &add_b.welcome()).expect("B joins");

    let add_c = registry.add_member(sess_a, &GROUP_ID, &kp_c.key_package_data()).expect("add C");
    let processed = registry
        .process_group_message(sess_b, &GROUP_ID, &add_c.commit())
        .expect("B processes the add of C");
    assert_eq!(processed.message_type(), "commit");
    registry.process_welcome(sess_c, &add_c.welcome()).expect("C joins");

    let epoch_a = registry.get_epoch(sess_a, &GROUP_ID).unwrap();
    assert_eq!(epoch_a, 2);
    assert_eq!(registry.get_epoch(sess_b, &GROUP_ID).unwrap(), epoch_a);
    assert_eq!(registry.get_epoch(sess_c, &GROUP_ID).unwrap(), epoch_a);

    let senders = [(sess_a, 0x01u8), (sess_b, 0x02), (sess_c, 0x03)];
    for (sender, byte) in senders {
        let text = vec![byte, 0x20, byte];
        let ciphertext = registry.encrypt_message(sender, &GROUP_ID, &text).expect("encrypt");
        for (receiver, _) in senders {
            if receiver == sender {
                continue;
            }
            let processed = registry
                .process_group_message(receiver, &GROUP_ID, &ciphertext)
                .expect("decrypt");
            assert_eq!(processed.message_type(), "application");
            assert_eq!(processed.plaintext(), text);
            assert_eq!(processed.sender_identity(), vec![byte; 32]);
        }
    }
}

#[test]
fn welcome_type_is_checked() {
    let mut registry = MlsRegistry::new();
    let sess_a = session_for(&mut registry, 0x01);
    let sess_b = session_for(&mut registry, 0x02);
    let kp_b = registry.session_generate_key_package(sess_b).expect("B key package");
    registry.create_mls_group(sess_a, &GROUP_ID).expect("create group");
    let add = registry.add_member(sess_a, &GROUP_ID, &kp_b.key_package_data()).expect("add B");

    let err = registry
        .process_welcome(sess_b, &add.commit())
        .err()
        .expect("a commit is no welcome");
    assert_eq!(err.kind, ErrorKind::UnexpectedMessageType);
}

#[test]
fn dispatcher_rejects_non_protocol_envelopes() {
    let mut registry = MlsRegistry::new();
    let (sess_a, sess_b) = two_party_group(&mut registry);

    // A welcome envelope handed to the dispatcher is refused.
    let sess_c = session_for(&mut registry, 0x03);
    let kp_c = registry.session_generate_key_package(sess_c).expect("C key package");
    let add_c = registry.add_member(sess_a, &GROUP_ID, &kp_c.key_package_data()).expect("add C");
    let err = registry
        .process_group_message(sess_b, &GROUP_ID, &add_c.welcome())
        .err()
        .expect("a welcome is no protocol message");
    assert_eq!(err.kind, ErrorKind::UnexpectedMessageType);
}

#[test]
fn malformed_bytes_are_decode_errors() {
    let mut registry = MlsRegistry::new();
    let (sess_a, sess_b) = two_party_group(&mut registry);
    let err = registry.process_welcome(sess_b, &[0xFF, 0x00, 0x17]).err().expect("garbage");
    assert_eq!(err.kind, ErrorKind::DecodeError);
    let err = registry
        .process_group_message(sess_a, &GROUP_ID, &[0x01])
        .err()
        .expect("garbage");
    assert_eq!(err.kind, ErrorKind::DecodeError);
    let err = registry
        .add_member(sess_a, &GROUP_ID, &[0xDE, 0xAD])
        .err()
        .expect("garbage key package");
    assert_eq!(err.kind, ErrorKind::DecodeError);
}

#[test]
fn duplicate_group_id_is_refused() {
    let mut registry = MlsRegistry::new();
    let sess_a = session_for(&mut registry, 0x01);
    registry.create_mls_group(sess_a, &GROUP_ID).expect("first create");
    let err = registry.create_mls_group(sess_a, &GROUP_ID).err().expect("second create");
    assert_eq!(err.kind, ErrorKind::GroupExists);
}

#[test]
fn unknown_group_is_reported() {
    let mut registry = MlsRegistry::new();
    let sess_a = session_for(&mut registry, 0x01);
    let err = registry.encrypt_message(sess_a, &[0x77], b"x").err().expect("no group");
    assert_eq!(err.kind, ErrorKind::GroupNotFound);
    let err = registry.get_epoch(sess_a, &[0x77]).err().expect("no group");
    assert_eq!(err.kind, ErrorKind::GroupNotFound);
    let err = registry.get_members(sess_a, &[0x77]).err().expect("no group");
    assert_eq!(err.kind, ErrorKind::GroupNotFound);
    let err = registry.remove_member(sess_a, &[0x77], 0).err().expect("no group");
    assert_eq!(err.kind, ErrorKind::GroupNotFound);
}

#[test]
fn members_are_reported_as_json() {
    let mut registry = MlsRegistry::new();
    let (sess_a, _sess_b) = two_party_group(&mut registry);
    let rendered = registry.get_members(sess_a, &GROUP_ID).expect("members");
    let parsed: serde_json::Value = serde_json::from_str(&rendered).expect("valid JSON");
    let members = parsed.as_array().expect("array");
    assert_eq!(members.len(), 2);
    assert_eq!(members[0]["index"], 0);
    assert_eq!(members[1]["index"], 1);
    let identity_a: Vec<u8> = members[0]["identity"]
        .as_array()
        .unwrap()
        .iter()
        .map(|v| v.as_u64().unwrap() as u8)
        .collect();
    assert_eq!(identity_a, vec![0x01; 32]);
    let identity_b: Vec<u8> = members[1]["identity"]
        .as_array()
        .unwrap()
        .iter()
        .map(|v| v.as_u64().unwrap() as u8)
        .collect();
    assert_eq!(identity_b, vec![0x02; 32]);
    assert_eq!(members[0]["signature_key"].as_array().unwrap().len(), 32);
}

#[test]
fn tampered_key_package_fails_validation() {
    let mut registry = MlsRegistry::new();
    let sess_a = session_for(&mut registry, 0x01);
    let sess_b = session_for(&mut registry, 0x02);
    let kp_b = registry.session_generate_key_package(sess_b).expect("B key package");
    registry.create_mls_group(sess_a, &GROUP_ID).expect("create group");

    // Corrupt the trailing signature byte: the bytes still parse, but the
    // key package no longer verifies.
    let mut tampered = kp_b.key_package_data();
    let last = tampered.len() - 1;
    tampered[last] ^= 0xFF;
    let err = registry
        .add_member(sess_a, &GROUP_ID, &tampered)
        .err()
        .expect("tampered key package refused");
    assert_eq!(err.kind, ErrorKind::ValidationError);
}

#[test]
fn replayed_commit_is_refused() {
    let mut registry = MlsRegistry::new();
    let (sess_a, sess_b) = two_party_group(&mut registry);
    let commit = registry.remove_member(sess_a, &GROUP_ID, 1).expect("remove B");
    registry.process_group_message(sess_b, &GROUP_ID, &commit).expect("first merge");
    let err = registry
        .process_group_message(sess_b, &GROUP_ID, &commit)
        .err()
        .expect("a commit for a past epoch is refused");
    assert_eq!(err.kind, ErrorKind::ProtocolError);
}

#[test]
fn fresh_group_lists_exactly_its_creator() {
    let mut registry = MlsRegistry::new();
    let bundle = create_credential(&[0x05; 32]).expect("credential");
    let sid = registry
        .create_session(
            &bundle.identity(),
            &bundle.signing_private_key(),
            &bundle.signing_public_key(),
        )
        .expect("session");
    registry.create_mls_group(sid, &GROUP_ID).expect("create group");

    let expected = members_to_json(&vec![MemberRow {
        index: 0,
        identity: bundle.identity(),
        signature_key: bundle.signing_public_key(),
    }]);
    assert_eq!(registry.get_members(sid, &GROUP_ID).expect("members"), expected);
}
