use qrng_client::params::{ArrayLength, BlockSize, DataType};
use qrng_client::request::{dec_string, request_url, type_str};

#[test]
fn decimal_rendering() {
    assert_eq!(dec_string(0), "0");
    assert_eq!(dec_string(7), "7");
    assert_eq!(dec_string(10), "10");
    assert_eq!(dec_string(300), "300");
    assert_eq!(dec_string(65535), "65535");
    assert_eq!(dec_string(1000000), "1000000");
}

#[test]
fn type_strings() {
    let bs = BlockSize::new(4).unwrap();
    assert_eq!(type_str(&DataType::Uint8), "uint8");
    assert_eq!(type_str(&DataType::Uint16), "uint16");
    assert_eq!(type_str(&DataType::Hex8(bs)), "hex8");
    assert_eq!(type_str(&DataType::Hex16(bs)), "hex16");
}

#[test]
fn url_for_uint_kinds_has_no_size() {
    let len = ArrayLength::new(5).unwrap();
    assert_eq!(
        request_url(&DataType::Uint8, &len),
        "https://api.quantumnumbers.anu.edu.au?length=5&type=uint8"
    );
    let len = ArrayLength::new(1024).unwrap();
    assert_eq!(
        request_url(&DataType::Uint16, &len),
        "https://api.quantumnumbers.anu.edu.au?length=1024&type=uint16"
    );
}

#[test]
fn url_for_hex_kinds_carries_size() {
    let len = ArrayLength::new(5).unwrap();
    let bs = BlockSize::new(4).unwrap();
    assert_eq!(
        request_url(&DataType::Hex16(bs), &len),
        "https://api.quantumnumbers.anu.edu.au?length=5&type=hex16&size=4"
    );
    let bs = BlockSize::new(10).unwrap();
    assert_eq!(
        request_url(&DataType::Hex8(bs), &len),
        "https://api.quantumnumbers.anu.edu.au?length=5&type=hex8&size=10"
    );
}
