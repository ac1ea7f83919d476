use zenoh_shell_core::errors::ConvError;
use zenoh_shell_core::value::{bytes_to_text, bytes_to_value, value_to_bytes, Val};

#[test]
fn utf8_payload_coerces_to_text() {
    assert_eq!(bytes_to_value(b"hello"), Val::Text("hello".to_string()));
}

#[test]
fn empty_payload_coerces_to_empty_text() {
    assert_eq!(bytes_to_value(b""), Val::Text(String::new()));
}

#[test]
fn invalid_utf8_payload_coerces_to_identical_bytes() {
    assert_eq!(
        bytes_to_value(&[0xFF, 0xFE]),
        Val::Bytes(vec![0xFF, 0xFE])
    );
}

#[test]
fn coercion_round_trips_for_text_and_bytes() {
    for bytes in [
        b"hello".to_vec(),
        vec![0xFF, 0xFE],
        vec![],
        "héllo wörld".as_bytes().to_vec(),
        vec![0xC3, 0x28],
        vec![0xE2, 0x82, 0xAC, 0x00, 0x7F],
    ] {
        let v = bytes_to_value(&bytes);
        assert_eq!(value_to_bytes(&v), Ok(bytes.clone()), "bytes {bytes:?}");
    }
}

#[test]
fn text_and_bytes_values_convert_to_wire_bytes() {
    assert_eq!(
        value_to_bytes(&Val::Text("ab".to_string())),
        Ok(b"ab".to_vec())
    );
    assert_eq!(
        value_to_bytes(&Val::Bytes(vec![1, 2, 3])),
        Ok(vec![1, 2, 3])
    );
}

#[test]
fn other_value_shapes_are_rejected_as_payloads() {
    assert_eq!(
        value_to_bytes(&Val::Int(7)),
        Err(ConvError::InvalidPayloadType)
    );
    assert_eq!(
        value_to_bytes(&Val::Nothing),
        Err(ConvError::InvalidPayloadType)
    );
    assert_eq!(
        value_to_bytes(&Val::Bool(true)),
        Err(ConvError::InvalidPayloadType)
    );
    assert_eq!(
        value_to_bytes(&Val::List(vec![])),
        Err(ConvError::InvalidPayloadType)
    );
}

#[test]
fn byte_text_decoding_reports_both_outcomes() {
    assert_eq!(bytes_to_text(b"ok"), Ok("ok".to_string()));
    let err = bytes_to_text(&[0x80]).unwrap_err();
    assert!(!err.is_empty());
}
