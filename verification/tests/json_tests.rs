use mls_session::errors::ErrorKind;
use mls_session::errors::MlsError;
use mls_session::jsonfmt::bytes_to_json;
use mls_session::jsonfmt::members_to_json;
use mls_session::jsonfmt::u64_to_string;
use mls_session::jsonfmt::MemberRow;
use mls_session::mls_version;
use mls_session::supported_ciphersuites;

#[test]
fn version_string() {
    assert_eq!(mls_version(), "RFC9420-v1");
}

#[test]
fn ciphersuites_json_matches_serde_encoding() {
    let reported = supported_ciphersuites();
    let mut suite = serde_json::Map::new();
    suite.insert(
        "name".to_string(),
        serde_json::Value::String("MLS_128_DHKEMX25519_AES128GCM_SHA256_Ed25519".to_string()),
    );
    suite.insert("value".to_string(), serde_json::Value::from(1));
    let expected = serde_json::Value::Array(vec![serde_json::Value::Object(suite)]).to_string();
    assert_eq!(reported, expected);
}

#[test]
fn decimal_rendering_is_exact() {
    assert_eq!(u64_to_string(0), "0");
    assert_eq!(u64_to_string(7), "7");
    assert_eq!(u64_to_string(10), "10");
    assert_eq!(u64_to_string(12345), "12345");
    assert_eq!(u64_to_string(u64::MAX), "18446744073709551615");
}

#[test]
fn byte_arrays_render_as_json() {
    assert_eq!(bytes_to_json(&[]), "[]");
    assert_eq!(bytes_to_json(&[0]), "[0]");
    assert_eq!(bytes_to_json(&[1, 2, 255]), "[1,2,255]");
}

#[test]
fn member_rows_render_like_serde() {
    let rows = vec![
        MemberRow { index: 0, identity: vec![1, 2], signature_key: vec![9] },
        MemberRow { index: 1, identity: vec![], signature_key: vec![255, 0] },
    ];
    let rendered = members_to_json(&rows);
    let mut expected_rows = Vec::new();
    for (index, identity, signature_key) in [(0u32, vec![1u8, 2], vec![9u8]), (1, vec![], vec![255, 0])] {
        let mut row = serde_json::Map::new();
        row.insert("index".to_string(), serde_json::Value::from(index));
        row.insert(
            "identity".to_string(),
            serde_json::Value::Array(identity.iter().map(|b| serde_json::Value::from(*b)).collect()),
        );
        row.insert(
            "signature_key".to_string(),
            serde_json::Value::Array(
                signature_key.iter().map(|b| serde_json::Value::from(*b)).collect(),
            ),
        );
        expected_rows.push(serde_json::Value::Object(row));
    }
    let expected = serde_json::to_string(&expected_rows).unwrap();
    assert_eq!(rendered, expected);
}

#[test]
fn empty_member_list_renders_as_empty_array() {
    assert_eq!(members_to_json(&Vec::new()), "[]");
}

#[test]
fn error_text_carries_the_category_prefix() {
    let err = MlsError::from_parts(ErrorKind::DecodeError, "bad bytes");
    assert_eq!(err.describe(), "deserialize: bad bytes");
    let err = MlsError::from_parts(ErrorKind::SessionNotFound, "7");
    assert_eq!(err.describe(), "session not found: 7");
    let err = MlsError::from_parts(ErrorKind::ValidationError, "kp");
    assert_eq!(err.describe(), "validate: kp");
}
