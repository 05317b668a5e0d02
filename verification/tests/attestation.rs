use base64::engine::general_purpose::STANDARD;
use base64::Engine;
use ciborium::value::Value;
use ring::digest;
use rusty_auth::cbor::{find_field, CborValue};
use rusty_auth::credentials::{AuthenticatorAttestationResponse, AuthenticatorData, DecodeFailure};

const RAW_ATTESTATION_OBJECT: &str = "o2NmbXRkbm9uZWdhdHRTdG10oGhhdXRoRGF0YVjFSZYN5YgOjGh0NBcPZHZgW4/krrmihjLHmVzzuoMdl2NFAAAAAAAAAAAAAAAAAAAAAAAAAAAAQQEA4wyJikPPpb0YSIMW3D6jT2Du0n0Rnfim3hoiRoMdluSS+aCBBnyK7lu/hfpasycIhsV7Rq/QRVd0MVykiiKOpQECAyYgASFYIF5cREuA9SBROn/KmVkv2KS0fwFDwvZvsmA3zY4JGuP5Ilgge52g+rd/0iPU+OISmTTxctOMgcW24KvRMlqTZbasn4s=";

fn text(s: &str) -> Value {
    Value::Text(s.to_string())
}

fn encode(item: &Value) -> String {
    let mut bytes = Vec::new();
    ciborium::ser::into_writer(item, &mut bytes).unwrap();
    STANDARD.encode(bytes)
}

fn attestation_object(fmt: &str, auth_data: &[u8]) -> String {
    encode(&Value::Map(vec![
        (text("fmt"), text(fmt)),
        (text("attStmt"), Value::Map(vec![])),
        (text("authData"), Value::Bytes(auth_data.to_vec())),
    ]))
}

fn key(s: &str) -> CborValue {
    CborValue::Text(s.to_string())
}

#[test]
fn verifying_att() {
    let raw_attestation_object = RAW_ATTESTATION_OBJECT;
    let response = AuthenticatorAttestationResponse::from_b64_string(raw_attestation_object)
        .ok_or_else(|| panic!("attestation response was none"))
        .unwrap();
    assert_eq!(response.fmt, "none");
    let authenticator_data = AuthenticatorData::from_bytes(&response.auth_data).unwrap();
    let sha_256_digest = digest::digest(&digest::SHA256, "localhost".as_bytes());
    assert_eq!(sha_256_digest.as_ref(), authenticator_data.rp_id_hash);
}

#[test]
fn decode_keeps_the_whole_authenticator_data() {
    let response = AuthenticatorAttestationResponse::decode(RAW_ATTESTATION_OBJECT).unwrap();
    assert_eq!(response.fmt, "none");
    assert_eq!(response.auth_data.len(), 197);
    assert_eq!(response.auth_data[32], 0x45);
    assert_eq!(response.auth_data[196], 0x8b);
}

#[test]
fn round_trip_recovers_fmt_and_rp_id_hash() {
    let hash: Vec<u8> = (0u8..32).collect();
    let mut auth_data = hash.clone();
    auth_data.extend_from_slice(&[0x45, 0, 0, 0, 7, 0xde, 0xad, 0xbe, 0xef]);
    let encoded = attestation_object("none", &auth_data);
    let response = AuthenticatorAttestationResponse::decode(&encoded).unwrap();
    assert_eq!(response.fmt, "none");
    assert_eq!(response.auth_data, auth_data);
    let data = AuthenticatorData::from_bytes(&response.auth_data).unwrap();
    assert_eq!(data.rp_id_hash, &hash[..]);
}

#[test]
fn round_trip_with_exactly_the_hash() {
    let hash = [0xabu8; 32];
    let encoded = attestation_object("packed", &hash);
    let response = AuthenticatorAttestationResponse::decode(&encoded).unwrap();
    assert_eq!(response.fmt, "packed");
    let data = AuthenticatorData::from_bytes(&response.auth_data).unwrap();
    assert_eq!(data.rp_id_hash, &hash[..]);
}

#[test]
fn malformed_base64_is_an_encoding_failure() {
    let outcome = AuthenticatorAttestationResponse::decode("not-base64!!");
    assert_eq!(outcome.err(), Some(DecodeFailure::Encoding));
    assert!(AuthenticatorAttestationResponse::from_b64_string("not-base64!!").is_none());
}

#[test]
fn unpadded_base64_is_an_encoding_failure() {
    let unpadded = RAW_ATTESTATION_OBJECT.trim_end_matches('=');
    let outcome = AuthenticatorAttestationResponse::decode(unpadded);
    assert_eq!(outcome.err(), Some(DecodeFailure::Encoding));
}

#[test]
fn url_safe_alphabet_is_an_encoding_failure() {
    let url_safe = RAW_ATTESTATION_OBJECT.replace('/', "_").replace('+', "-");
    let outcome = AuthenticatorAttestationResponse::decode(&url_safe);
    assert_eq!(outcome.err(), Some(DecodeFailure::Encoding));
}

#[test]
fn empty_input_is_a_format_failure() {
    let outcome = AuthenticatorAttestationResponse::decode("");
    assert_eq!(outcome.err(), Some(DecodeFailure::Format));
}

#[test]
fn truncated_cbor_is_a_format_failure() {
    let bytes = STANDARD.decode(RAW_ATTESTATION_OBJECT).unwrap();
    for cut in [1usize, 5, 20, 100, 226] {
        let outcome = AuthenticatorAttestationResponse::decode(&STANDARD.encode(&bytes[..cut]));
        assert_eq!(outcome.err(), Some(DecodeFailure::Format), "cut at {}", cut);
    }
}

#[test]
fn bytes_after_the_map_are_not_read() {
    let mut bytes = STANDARD.decode(RAW_ATTESTATION_OBJECT).unwrap();
    bytes.extend_from_slice(&[0xff, 0x00]);
    let response = AuthenticatorAttestationResponse::decode(&STANDARD.encode(&bytes)).unwrap();
    assert_eq!(response.fmt, "none");
    assert_eq!(response.auth_data.len(), 197);
}

#[test]
fn short_authenticator_data_is_truncated() {
    assert_eq!(
        AuthenticatorData::from_bytes(&vec![]).err(),
        Some(DecodeFailure::Truncated)
    );
    assert_eq!(
        AuthenticatorData::from_bytes(&vec![7u8; 31]).err(),
        Some(DecodeFailure::Truncated)
    );
    let exact = vec![7u8; 32];
    assert_eq!(AuthenticatorData::from_bytes(&exact).unwrap().rp_id_hash, &exact[..]);
}

#[test]
fn short_authenticator_data_still_decodes_as_an_object() {
    let encoded = attestation_object("none", &[1, 2, 3]);
    let response = AuthenticatorAttestationResponse::decode(&encoded).unwrap();
    assert_eq!(response.auth_data, vec![1, 2, 3]);
    assert_eq!(
        AuthenticatorData::from_bytes(&response.auth_data).err(),
        Some(DecodeFailure::Truncated)
    );
}

#[test]
fn an_item_that_is_no_map_is_a_format_failure() {
    for item in [
        Value::Array(vec![text("none"), Value::Bytes(vec![0; 32])]),
        text("fmt"),
        Value::Bytes(vec![0; 40]),
        Value::Integer(5.into()),
        Value::Null,
        Value::Bool(true),
        Value::Tag(55799, Box::new(Value::Map(vec![
            (text("fmt"), text("none")),
            (text("authData"), Value::Bytes(vec![0; 32])),
        ]))),
    ] {
        let outcome = AuthenticatorAttestationResponse::decode(&encode(&item));
        assert_eq!(outcome.err(), Some(DecodeFailure::Format));
    }
}

#[test]
fn a_missing_field_is_a_format_failure() {
    let no_fmt = Value::Map(vec![(text("authData"), Value::Bytes(vec![0; 32]))]);
    let no_auth_data = Value::Map(vec![(text("fmt"), text("none"))]);
    let empty = Value::Map(vec![]);
    for item in [no_fmt, no_auth_data, empty] {
        let outcome = AuthenticatorAttestationResponse::decode(&encode(&item));
        assert_eq!(outcome.err(), Some(DecodeFailure::Format));
    }
}

#[test]
fn a_field_of_the_wrong_kind_is_a_format_failure() {
    let fmt_as_bytes = Value::Map(vec![
        (text("fmt"), Value::Bytes(b"none".to_vec())),
        (text("authData"), Value::Bytes(vec![0; 32])),
    ]);
    let auth_data_as_text = Value::Map(vec![
        (text("fmt"), text("none")),
        (text("authData"), text("AAAA")),
    ]);
    let auth_data_as_array = Value::Map(vec![
        (text("fmt"), text("none")),
        (text("authData"), Value::Array(vec![Value::Integer(1.into()); 32])),
    ]);
    for item in [fmt_as_bytes, auth_data_as_text, auth_data_as_array] {
        let outcome = AuthenticatorAttestationResponse::decode(&encode(&item));
        assert_eq!(outcome.err(), Some(DecodeFailure::Format));
    }
}

#[test]
fn a_field_given_twice_is_a_format_failure() {
    let item = Value::Map(vec![
        (text("fmt"), text("none")),
        (text("authData"), Value::Bytes(vec![0; 32])),
        (text("fmt"), text("packed")),
    ]);
    let outcome = AuthenticatorAttestationResponse::decode(&encode(&item));
    assert_eq!(outcome.err(), Some(DecodeFailure::Format));
}

#[test]
fn other_entries_are_passed_over() {
    let item = Value::Map(vec![
        (Value::Integer(1.into()), text("fmt")),
        (text("extra"), Value::Array(vec![Value::Null, Value::Bool(false)])),
        (text("authData"), Value::Bytes(vec![9; 33])),
        (Value::Bytes(b"fmt".to_vec()), text("wrong")),
        (text("Fmt"), text("wrong")),
        (text("fmt"), text("none")),
        (text("attStmt"), Value::Map(vec![(text("fmt"), text("inner"))])),
    ]);
    let response = AuthenticatorAttestationResponse::decode(&encode(&item)).unwrap();
    assert_eq!(response.fmt, "none");
    assert_eq!(response.auth_data, vec![9; 33]);
}

#[test]
fn from_cbor_reads_a_map_built_by_hand() {
    let item = CborValue::Mapping(vec![
        (key("fmt"), CborValue::Text("none".to_string())),
        (key("attStmt"), CborValue::Mapping(vec![])),
        (key("authData"), CborValue::Bytes(vec![5; 40])),
    ]);
    let response = AuthenticatorAttestationResponse::from_cbor(&item).unwrap();
    assert_eq!(response.fmt, "none");
    assert_eq!(response.auth_data, vec![5; 40]);
}

#[test]
fn from_cbor_refuses_what_is_no_attestation() {
    let cases = vec![
        CborValue::Null,
        CborValue::Integer(-1),
        CborValue::Float(0),
        CborValue::Bool(false),
        CborValue::Text("fmt".to_string()),
        CborValue::Bytes(vec![0; 32]),
        CborValue::Tag(1, Box::new(CborValue::Null)),
        CborValue::Array(vec![]),
        CborValue::Mapping(vec![]),
        CborValue::Mapping(vec![(key("fmt"), CborValue::Text("none".to_string()))]),
        CborValue::Mapping(vec![
            (key("fmt"), CborValue::Text("none".to_string())),
            (key("authData"), CborValue::Bytes(vec![0; 32])),
            (key("authData"), CborValue::Bytes(vec![0; 32])),
        ]),
        CborValue::Mapping(vec![
            (key("fmt"), CborValue::Integer(0)),
            (key("authData"), CborValue::Bytes(vec![0; 32])),
        ]),
    ];
    for item in cases.iter() {
        let outcome = AuthenticatorAttestationResponse::from_cbor(item);
        assert_eq!(outcome.err(), Some(DecodeFailure::Format));
    }
}

#[test]
fn find_field_wants_exactly_one_entry() {
    let entries = vec![
        (key("a"), CborValue::Null),
        (key("b"), CborValue::Bool(true)),
        (key("a"), CborValue::Bool(false)),
        (CborValue::Bytes(b"c".to_vec()), CborValue::Null),
        (key("d"), CborValue::Null),
    ];
    assert_eq!(find_field(&entries, "a"), None);
    assert_eq!(find_field(&entries, "b"), Some(1));
    assert_eq!(find_field(&entries, "c"), None);
    assert_eq!(find_field(&entries, "d"), Some(4));
    assert_eq!(find_field(&entries, ""), None);
    assert_eq!(find_field(&Vec::new(), "a"), None);
}

#[test]
fn nested_items_are_decoded_in_full() {
    let inner = Value::Map(vec![
        (text("alg"), Value::Integer((-7).into())),
        (text("sig"), Value::Bytes(vec![1, 2, 3])),
        (text("x5c"), Value::Array(vec![Value::Bytes(vec![4]), Value::Float(1.5)])),
    ]);
    let item = Value::Map(vec![
        (text("fmt"), text("packed")),
        (text("attStmt"), inner),
        (text("authData"), Value::Bytes(vec![3; 37])),
    ]);
    let response = AuthenticatorAttestationResponse::decode(&encode(&item)).unwrap();
    assert_eq!(response.fmt, "packed");
    assert_eq!(response.auth_data, vec![3; 37]);
}

#[test]
fn nesting_beyond_the_decoder_limit_is_a_format_failure() {
    let mut bytes = vec![0x81u8; 300];
    bytes.push(0x00);
    let outcome = AuthenticatorAttestationResponse::decode(&STANDARD.encode(&bytes));
    assert_eq!(outcome.err(), Some(DecodeFailure::Format));
}

#[test]
fn deep_nesting_within_the_limit_is_passed_over() {
    let mut nested = Value::Null;
    for _ in 0..100 {
        nested = Value::Array(vec![nested]);
    }
    let item = Value::Map(vec![
        (text("fmt"), text("none")),
        (text("attStmt"), nested),
        (text("authData"), Value::Bytes(vec![1; 32])),
    ]);
    let response = AuthenticatorAttestationResponse::decode(&encode(&item)).unwrap();
    assert_eq!(response.auth_data, vec![1; 32]);
}

#[test]
fn a_length_that_the_input_does_not_hold_is_a_format_failure() {
    let huge_bytes = [0x5b, 0xff, 0xff, 0xff, 0xff, 0xff, 0xff, 0xff, 0xff, 0x00];
    let huge_array = [0x9b, 0x7f, 0xff, 0xff, 0xff, 0xff, 0xff, 0xff, 0xff];
    let huge_map = [0xbb, 0x00, 0x00, 0x00, 0xff, 0xff, 0xff, 0xff, 0xff, 0x63];
    let lone_break = [0xff];
    let reserved = [0x1c];
    for bytes in [&huge_bytes[..], &huge_array[..], &huge_map[..], &lone_break[..], &reserved[..]] {
        let outcome = AuthenticatorAttestationResponse::decode(&STANDARD.encode(bytes));
        assert_eq!(outcome.err(), Some(DecodeFailure::Format));
    }
}

#[test]
fn fields_of_indefinite_length_are_read() {
    let mut bytes = vec![0xbf];
    bytes.extend_from_slice(&[0x63, b'f', b'm', b't', 0x7f, 0x62, b'n', b'o', 0x62, b'n', b'e', 0xff]);
    bytes.extend_from_slice(&[0x68]);
    bytes.extend_from_slice(b"authData");
    bytes.extend_from_slice(&[0x5f, 0x58, 32]);
    bytes.extend_from_slice(&[6u8; 32]);
    bytes.extend_from_slice(&[0x41, 7, 0xff]);
    bytes.push(0xff);
    let response = AuthenticatorAttestationResponse::decode(&STANDARD.encode(&bytes)).unwrap();
    assert_eq!(response.fmt, "none");
    assert_eq!(response.auth_data.len(), 33);
    assert_eq!(response.auth_data[32], 7);
    let data = AuthenticatorData::from_bytes(&response.auth_data).unwrap();
    assert_eq!(data.rp_id_hash, &[6u8; 32][..]);
}

#[test]
fn text_that_is_not_utf8_is_a_format_failure() {
    let mut bytes = vec![0xa2, 0x63, b'f', b'm', b't', 0x62, 0xc3, 0x28, 0x68];
    bytes.extend_from_slice(b"authData");
    bytes.extend_from_slice(&[0x58, 32]);
    bytes.extend_from_slice(&[0u8; 32]);
    let outcome = AuthenticatorAttestationResponse::decode(&STANDARD.encode(&bytes));
    assert_eq!(outcome.err(), Some(DecodeFailure::Format));
}
