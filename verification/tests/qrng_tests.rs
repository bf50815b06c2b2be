use qrng_client::decode::{qrng_numbers_from_json, QrngNumbers};
use qrng_client::json::JsonValue;
use serde_json::Value;

#[test]
fn qrng_basic_test() -> Result<(), Box<dyn std::error::Error>> {
    let resp = r#"{"success": true, "type": "uint16", "length": "5", "data": [49840, 24264, 44448, 26560, 22008]}"#;
    let resp: Value = serde_json::from_str(resp)?;
    println!("{:?}", resp);
    Ok(())
}

#[test]
fn qrng_api_basic_test() -> Result<(), Box<dyn std::error::Error>> {
    let resp = r#"{"success": true, "type": "uint16", "length": "5", "data": [49840, 24264, 44448, 26560, 22008]}"#;
    let resp: Value = serde_json::from_str(resp)?;
    println!("{:?}", resp);
    Ok(())
}

fn json_value_of(v: &Value) -> JsonValue {
    match v {
        Value::Null => JsonValue::Null,
        Value::Bool(b) => JsonValue::Bool(*b),
        Value::Number(n) => match n.as_u64() {
            Some(m) => JsonValue::UInt(m),
            None => JsonValue::OtherNum,
        },
        Value::String(s) => JsonValue::Text(s.clone()),
        Value::Array(a) => JsonValue::Array(a.iter().map(json_value_of).collect()),
        Value::Object(o) => JsonValue::Object(
            o.iter().map(|(k, x)| (k.clone(), json_value_of(x))).collect(),
        ),
    }
}

#[test]
fn decode_parsed_response() -> Result<(), Box<dyn std::error::Error>> {
    let resp = r#"{"success": true, "type": "uint16", "length": "5", "data": [49840, 24264, 44448, 26560, 22008]}"#;
    let resp: Value = serde_json::from_str(resp)?;
    let decoded = qrng_numbers_from_json(&json_value_of(&resp));
    assert_eq!(
        decoded,
        Ok(QrngNumbers::Uint16(vec![49840, 24264, 44448, 26560, 22008]))
    );
    Ok(())
}

#[test]
fn decode_parsed_fractional_number_is_invalid() -> Result<(), Box<dyn std::error::Error>> {
    let resp = r#"{"success": true, "type": "uint8", "length": "1", "data": [1.5]}"#;
    let resp: Value = serde_json::from_str(resp)?;
    let decoded = qrng_numbers_from_json(&json_value_of(&resp));
    assert_eq!(decoded, Err(qrng_client::decode::DecodeError::InvalidFormat));
    Ok(())
}
