use chainhooks::clarity::{
    decode_clarity_value, serialize_to_json, serialized_decoded_clarity_value,
};
use clarity_repl::clarity::vm::types::{
    ASCIIData, BuffData, CallableData, CharType, OptionalData, QualifiedContractIdentifier,
    ResponseData, SequenceData, StandardPrincipalData, UTF8Data, Value,
};

fn json(text: &str) -> serde_json::Value {
    serde_json::from_str(text).unwrap()
}

fn text(value: &str) -> serde_json::Value {
    serde_json::Value::String(value.to_string())
}

fn ascii(bytes: &[u8]) -> Value {
    Value::Sequence(SequenceData::String(CharType::ASCII(ASCIIData { data: bytes.to_vec() })))
}

fn utf8(chars: &[&[u8]]) -> Value {
    Value::Sequence(SequenceData::String(CharType::UTF8(UTF8Data {
        data: chars.iter().map(|c| c.to_vec()).collect(),
    })))
}

#[test]
fn a_text_without_the_prefix_is_handed_back() {
    for given in ["", "deadbeef", "03", "0X03", " 0x03", "x03", "hello world"] {
        assert_eq!(serialized_decoded_clarity_value(given), text(given));
    }
}

#[test]
fn a_text_that_is_not_hexadecimal_is_handed_back_with_its_prefix() {
    for given in ["0xzz", "0x0", "0x030", "0x 03", "0x0g", "0x03é"] {
        assert_eq!(serialized_decoded_clarity_value(given), text(given));
    }
}

#[test]
fn a_text_that_encodes_no_value_is_handed_back() {
    for given in ["0x", "0xff", "0x00", "0x0200000004dead", "0x0a", "0x0b00000002", "0x0d00000001ff"] {
        assert_eq!(serialized_decoded_clarity_value(given), text(given));
    }
}

#[test]
fn integers_are_rendered_as_numbers() {
    assert_eq!(
        serialized_decoded_clarity_value("0x0000000000000000000000000000000001"),
        json("1")
    );
    assert_eq!(
        serialized_decoded_clarity_value("0x00ffffffffffffffffffffffffffffffff"),
        json("-1")
    );
    assert_eq!(
        serialized_decoded_clarity_value("0x010000000000000000000000000000002a"),
        json("42")
    );
    assert_eq!(
        serialized_decoded_clarity_value("0x0000000000000000000000000000000000"),
        json("0")
    );
}

#[test]
fn integers_of_128_bits_keep_every_digit() {
    assert_eq!(
        serialized_decoded_clarity_value("0x007fffffffffffffffffffffffffffffff"),
        json("170141183460469231731687303715884105727")
    );
    assert_eq!(
        serialized_decoded_clarity_value("0x0080000000000000000000000000000000"),
        json("-170141183460469231731687303715884105728")
    );
    assert_eq!(
        serialized_decoded_clarity_value("0x01ffffffffffffffffffffffffffffffff"),
        json("340282366920938463463374607431768211455")
    );
    assert_eq!(
        serde_json::to_string(&serialize_to_json(&Value::UInt(u128::MAX)).unwrap()).unwrap(),
        "340282366920938463463374607431768211455"
    );
}

#[test]
fn booleans_are_rendered_as_booleans() {
    assert_eq!(serialized_decoded_clarity_value("0x03"), json("true"));
    assert_eq!(serialized_decoded_clarity_value("0x04"), json("false"));
}

#[test]
fn buffers_are_rendered_as_prefixed_hexadecimal_text() {
    assert_eq!(serialized_decoded_clarity_value("0x0200000004deadbeef"), text("0xdeadbeef"));
    assert_eq!(serialized_decoded_clarity_value("0x0200000004DEADBEEF"), text("0xdeadbeef"));
    assert_eq!(serialized_decoded_clarity_value("0x0200000000"), text("0x"));
    assert_eq!(serialized_decoded_clarity_value("0x0200000003000fa0"), text("0x000fa0"));
}

#[test]
fn strings_are_rendered_as_text() {
    assert_eq!(serialized_decoded_clarity_value("0x0d0000000568656c6c6f"), text("hello"));
    assert_eq!(serialized_decoded_clarity_value("0x0d00000000"), text(""));
    assert_eq!(serialized_decoded_clarity_value("0x0e0000000368c3a9"), text("hé"));
    assert_eq!(
        serialized_decoded_clarity_value("0x0e0000000861f09fa497e282ac"),
        text("a\u{1F917}\u{20AC}")
    );
}

#[test]
fn optionals_are_rendered_as_null_or_their_content() {
    assert_eq!(serialized_decoded_clarity_value("0x09"), serde_json::Value::Null);
    assert_eq!(
        serialized_decoded_clarity_value("0x0a0000000000000000000000000000000001"),
        json("1")
    );
    assert_eq!(serialized_decoded_clarity_value("0x0a09"), serde_json::Value::Null);
}

#[test]
fn responses_are_rendered_with_their_outcome_and_value() {
    assert_eq!(
        serialized_decoded_clarity_value("0x070000000000000000000000000000000001"),
        json(r#"{"success": true, "value": 1}"#)
    );
    assert_eq!(
        serialized_decoded_clarity_value("0x080100000000000000000000000000000002"),
        json(r#"{"success": false, "value": 2}"#)
    );
}

#[test]
fn lists_are_rendered_as_arrays_in_order() {
    assert_eq!(
        serialized_decoded_clarity_value(
            "0x0b0000000300000000000000000000000000000000030000000000000000000000000000000001\
             0000000000000000000000000000000002"
        ),
        json("[3, 1, 2]")
    );
    assert_eq!(serialized_decoded_clarity_value("0x0b00000000"), json("[]"));
}

#[test]
fn tuples_are_rendered_as_objects_keyed_by_field_name() {
    assert_eq!(
        serialized_decoded_clarity_value("0x0c0000000201610000000000000000000000000000000001016203"),
        json(r#"{"a": 1, "b": true}"#)
    );
    assert_eq!(
        serialized_decoded_clarity_value(
            "0x0c00000002016109056e616d65730b000000020d00000001780d0000000179"
        ),
        json(r#"{"a": null, "names": ["x", "y"]}"#)
    );
}

#[test]
fn principals_are_rendered_as_their_address() {
    let zero_hash = "00".repeat(20);
    assert_eq!(
        serialized_decoded_clarity_value(&format!("0x0516{}", zero_hash)),
        text("SP000000000000000000002Q6VF78")
    );
    assert_eq!(
        serialized_decoded_clarity_value(&format!("0x0616{}0474657374", zero_hash)),
        text("SP000000000000000000002Q6VF78.test")
    );
}

#[test]
fn values_are_rendered_without_decoding() {
    assert_eq!(serialize_to_json(&Value::Int(-7)), Some(json("-7")));
    assert_eq!(serialize_to_json(&Value::UInt(7)), Some(json("7")));
    assert_eq!(serialize_to_json(&Value::Bool(true)), Some(json("true")));
    assert_eq!(
        serialize_to_json(&Value::Sequence(SequenceData::Buffer(BuffData { data: vec![0, 255] }))),
        Some(text("0x00ff"))
    );
    assert_eq!(serialize_to_json(&ascii(b"abc")), Some(text("abc")));
    assert_eq!(
        serialize_to_json(&Value::Optional(OptionalData { data: Some(Box::new(Value::Int(1))) })),
        Some(json("1"))
    );
    assert_eq!(
        serialize_to_json(&Value::Response(ResponseData {
            committed: false,
            data: Box::new(ascii(b"no")),
        })),
        Some(json(r#"{"success": false, "value": "no"}"#))
    );
}

#[test]
fn a_string_of_single_bytes_is_rendered_byte_by_byte() {
    assert_eq!(serialize_to_json(&utf8(&[b"a", b"b"])), Some(text("ab")));
    assert_eq!(serialize_to_json(&utf8(&[b"a", &[0xc3, 0xa9], b"!"])), Some(text("aé!")));
    assert_eq!(serialize_to_json(&utf8(&[&[0xe9]])), Some(text("é")));
    assert_eq!(serialize_to_json(&utf8(&[])), Some(text("")));
}

#[test]
fn a_string_whose_bytes_are_no_text_has_no_document() {
    assert_eq!(serialize_to_json(&ascii(&[0xff])), None);
    assert_eq!(serialize_to_json(&utf8(&[&[0xc3, 0x28]])), None);
    assert_eq!(serialize_to_json(&utf8(&[b"a", &[]])), None);
    assert_eq!(
        serialize_to_json(&Value::Optional(OptionalData {
            data: Some(Box::new(ascii(&[0xc3]))),
        })),
        None
    );
    assert_eq!(
        serialize_to_json(&Value::Response(ResponseData {
            committed: true,
            data: Box::new(utf8(&[&[]])),
        })),
        None
    );
}

#[test]
fn a_text_that_cannot_be_decoded_gives_nothing() {
    for given in ["", "deadbeef", "0xzz", "0x0", "0x", "0xff", "0x00", "0x0d00000001ff"] {
        assert_eq!(decode_clarity_value(given), None);
    }
    assert_eq!(decode_clarity_value("0x03"), Some(json("true")));
    assert_eq!(
        decode_clarity_value("0x0000000000000000000000000000000001"),
        Some(json("1"))
    );
    assert_eq!(decode_clarity_value("0x0200000001ff"), Some(text("0xff")));
}

#[test]
fn a_contract_held_as_a_callable_is_rendered_as_its_text() {
    let contract = QualifiedContractIdentifier::new(
        StandardPrincipalData(22, [0; 20]),
        "test".to_string().try_into().unwrap(),
    );
    let callable =
        Value::CallableContract(CallableData { contract_identifier: contract, trait_identifier: None });
    assert_eq!(serialize_to_json(&callable), Some(text("SP000000000000000000002Q6VF78.test")));
}
