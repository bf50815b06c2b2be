//! Validation and typed decoding of the service's JSON responses.
//!
//! A response is decoded into one of three typed sequences, or a typed
//! error. The error taxonomy keeps apart a malformed response
//! (`InvalidFormat`), an explicit failure reported by the service
//! (`UnsuccessfulRequest`), a well-typed number exceeding the bit width the
//! response claims (`NumberOutOfRange`), and an unrecognized `type` field
//! (`UnknownDataType`): each demands different caller handling.

use vstd::prelude::*;

use crate::json::{spec_lookup, JsonValue, lookup_field};

verus! {

/// Why a response could not be decoded.
#[derive(Debug, Clone, Copy, PartialEq, Eq, Structural)]
pub enum DecodeError {
    /// The response is not shaped as expected: missing or mistyped fields,
    /// a non-object top level, a non-string hexadecimal element, or a
    /// numeric element that is not a non-negative integer.
    InvalidFormat,
    /// The response is well-formed but reports `success: false`.
    UnsuccessfulRequest,
    /// A numeric element exceeds the bit width implied by the `type` field.
    NumberOutOfRange,
    /// The `type` field is none of the recognized kind strings.
    UnknownDataType,
}

/// Decoded random values, tagged by the kind of data the response carried.
#[derive(Debug, PartialEq)]
pub enum QrngNumbers {
    Uint8(Vec<u8>),
    Uint16(Vec<u16>),
    Hex(Vec<String>),
}

/// The mathematical shape of decoded values.
pub enum NumbersView {
    U8s(Seq<u8>),
    U16s(Seq<u16>),
    Hexes(Seq<String>),
}

impl View for QrngNumbers {
    type V = NumbersView;

    open spec fn view(&self) -> NumbersView {
        match self {
            QrngNumbers::Uint8(v) => NumbersView::U8s(v@),
            QrngNumbers::Uint16(v) => NumbersView::U16s(v@),
            QrngNumbers::Hex(v) => NumbersView::Hexes(v@),
        }
    }
}

/// Reading of a `data` array as 8-bit numbers. Elements are taken left to
/// right; the first offending element decides the error: a value that is
/// not a non-negative integer is `InvalidFormat`, one that is but does not
/// fit in 8 bits is `NumberOutOfRange`.
pub open spec fn spec_u8_data(data: Seq<JsonValue>) -> Result<Seq<u8>, DecodeError>
    decreases data.len(),
{
    if data.len() == 0 {
        Ok(Seq::empty())
    } else {
        match data[0] {
            JsonValue::UInt(m) => if m <= u8::MAX {
                match spec_u8_data(data.skip(1)) {
                    Ok(rest) => Ok(seq![m as u8] + rest),
                    Err(e) => Err(e),
                }
            } else {
                Err(DecodeError::NumberOutOfRange)
            },
            _ => Err(DecodeError::InvalidFormat),
        }
    }
}

/// Reading of a `data` array as 16-bit numbers, as `spec_u8_data` but with
/// the 16-bit bound.
pub open spec fn spec_u16_data(data: Seq<JsonValue>) -> Result<Seq<u16>, DecodeError>
    decreases data.len(),
{
    if data.len() == 0 {
        Ok(Seq::empty())
    } else {
        match data[0] {
            JsonValue::UInt(m) => if m <= u16::MAX {
                match spec_u16_data(data.skip(1)) {
                    Ok(rest) => Ok(seq![m as u16] + rest),
                    Err(e) => Err(e),
                }
            } else {
                Err(DecodeError::NumberOutOfRange)
            },
            _ => Err(DecodeError::InvalidFormat),
        }
    }
}

/// Reading of a `data` array as hexadecimal strings: every element must be
/// a string, and the strings are kept in order, unexamined. Whether they
/// hold hexadecimal digits of the requested width is deliberately not
/// checked, mirroring the service's own leniency.
pub open spec fn spec_hex_data(data: Seq<JsonValue>) -> Result<Seq<String>, DecodeError>
    decreases data.len(),
{
    if data.len() == 0 {
        Ok(Seq::empty())
    } else {
        match data[0] {
            JsonValue::Text(s) => match spec_hex_data(data.skip(1)) {
                Ok(rest) => Ok(seq![s] + rest),
                Err(e) => Err(e),
            },
            _ => Err(DecodeError::InvalidFormat),
        }
    }
}

/// Dispatch on the `type` field over the `data` array.
pub open spec fn spec_dispatch(t: Seq<char>, data: Seq<JsonValue>) -> Result<
    NumbersView,
    DecodeError,
> {
    if t == "uint8"@ {
        match spec_u8_data(data) {
            Ok(s) => Ok(NumbersView::U8s(s)),
            Err(e) => Err(e),
        }
    } else if t == "uint16"@ {
        match spec_u16_data(data) {
            Ok(s) => Ok(NumbersView::U16s(s)),
            Err(e) => Err(e),
        }
    } else if t == "hex8"@ || t == "hex16"@ {
        match spec_hex_data(data) {
            Ok(s) => Ok(NumbersView::Hexes(s)),
            Err(e) => Err(e),
        }
    } else {
        Err(DecodeError::UnknownDataType)
    }
}

/// Decoding of the fields of a top-level response object: a boolean
/// `success` field must be present and true, a string `type` field and an
/// array `data` field must be present, and the `data` elements must fit
/// the shape the `type` names.
pub open spec fn spec_decode_fields(fields: Seq<(String, JsonValue)>) -> Result<
    NumbersView,
    DecodeError,
> {
    match spec_lookup(fields, "success"@) {
        Some(JsonValue::Bool(ok)) => if !ok {
            Err(DecodeError::UnsuccessfulRequest)
        } else {
            match spec_lookup(fields, "type"@) {
                Some(JsonValue::Text(t)) => match spec_lookup(fields, "data"@) {
                    Some(JsonValue::Array(d)) => spec_dispatch(t@, d@),
                    _ => Err(DecodeError::InvalidFormat),
                },
                _ => Err(DecodeError::InvalidFormat),
            }
        },
        _ => Err(DecodeError::InvalidFormat),
    }
}

/// What decoding returns on any JSON value: the top level must be an
/// object, whose fields are then read by `spec_decode_fields`.
pub open spec fn spec_decode(v: JsonValue) -> Result<NumbersView, DecodeError> {
    match v {
        JsonValue::Object(fields) => spec_decode_fields(fields@),
        _ => Err(DecodeError::InvalidFormat),
    }
}

fn decode_u8_data(data: &Vec<JsonValue>) -> (r: Result<Vec<u8>, DecodeError>)
    ensures
        (match spec_u8_data(data@) {
            Ok(s) => r matches Ok(v) && v@ == s,
            Err(e) => r matches Err(e2) && e2 == e,
        }),
{
    let mut out: Vec<u8> = Vec::new();
    let n = data.len();
    let mut i: usize = 0;
    assert(data@.skip(0) =~= data@);
    while i < n
        invariant
            n == data@.len(),
            i <= n,
            spec_u8_data(data@) == (match spec_u8_data(data@.skip(i as int)) {
                Ok(rest) => Ok::<Seq<u8>, DecodeError>(out@ + rest),
                Err(e) => Err::<Seq<u8>, DecodeError>(e),
            }),
        decreases n - i,
    {
        assert(data@.skip(i as int)[0] == data@[i as int]);
        assert(data@.skip(i as int).skip(1) =~= data@.skip(i as int + 1));
        match &data[i] {
            JsonValue::UInt(m) => {
                if *m <= 255 {
                    let ghost prev = out@;
                    let x: u8 = *m as u8;
                    out.push(x);
                    proof {
                        assert(out@ =~= prev + seq![x]);
                        match spec_u8_data(data@.skip(i as int + 1)) {
                            Ok(rest) => {
                                assert(prev + (seq![x] + rest) =~= (prev + seq![x]) + rest);
                            },
                            Err(_) => {},
                        }
                    }
                } else {
                    return Err(DecodeError::NumberOutOfRange);
                }
            },
            _ => {
                return Err(DecodeError::InvalidFormat);
            },
        }
        i += 1;
    }
    assert(data@.skip(n as int) =~= Seq::<JsonValue>::empty());
    assert(out@ + Seq::<u8>::empty() =~= out@);
    Ok(out)
}

fn decode_u16_data(data: &Vec<JsonValue>) -> (r: Result<Vec<u16>, DecodeError>)
    ensures
        (match spec_u16_data(data@) {
            Ok(s) => r matches Ok(v) && v@ == s,
            Err(e) => r matches Err(e2) && e2 == e,
        }),
{
    let mut out: Vec<u16> = Vec::new();
    let n = data.len();
    let mut i: usize = 0;
    assert(data@.skip(0) =~= data@);
    while i < n
        invariant
            n == data@.len(),
            i <= n,
            spec_u16_data(data@) == (match spec_u16_data(data@.skip(i as int)) {
                Ok(rest) => Ok::<Seq<u16>, DecodeError>(out@ + rest),
                Err(e) => Err::<Seq<u16>, DecodeError>(e),
            }),
        decreases n - i,
    {
        assert(data@.skip(i as int)[0] == data@[i as int]);
        assert(data@.skip(i as int).skip(1) =~= data@.skip(i as int + 1));
        match &data[i] {
            JsonValue::UInt(m) => {
                if *m <= 65535 {
                    let ghost prev = out@;
                    let x: u16 = *m as u16;
                    out.push(x);
                    proof {
                        assert(out@ =~= prev + seq![x]);
                        match spec_u16_data(data@.skip(i as int + 1)) {
                            Ok(rest) => {
                                assert(prev + (seq![x] + rest) =~= (prev + seq![x]) + rest);
                            },
                            Err(_) => {},
                        }
                    }
                } else {
                    return Err(DecodeError::NumberOutOfRange);
                }
            },
            _ => {
                return Err(DecodeError::InvalidFormat);
            },
        }
        i += 1;
    }
    assert(data@.skip(n as int) =~= Seq::<JsonValue>::empty());
    assert(out@ + Seq::<u16>::empty() =~= out@);
    Ok(out)
}

fn decode_hex_data(data: &Vec<JsonValue>) -> (r: Result<Vec<String>, DecodeError>)
    ensures
        (match spec_hex_data(data@) {
            Ok(s) => r matches Ok(v) && v@ == s,
            Err(e) => r matches Err(e2) && e2 == e,
        }),
{
    let mut out: Vec<String> = Vec::new();
    let n = data.len();
    let mut i: usize = 0;
    assert(data@.skip(0) =~= data@);
    while i < n
        invariant
            n == data@.len(),
            i <= n,
            spec_hex_data(data@) == (match spec_hex_data(data@.skip(i as int)) {
                Ok(rest) => Ok::<Seq<String>, DecodeError>(out@ + rest),
                Err(e) => Err::<Seq<String>, DecodeError>(e),
            }),
        decreases n - i,
    {
        assert(data@.skip(i as int)[0] == data@[i as int]);
        assert(data@.skip(i as int).skip(1) =~= data@.skip(i as int + 1));
        match &data[i] {
            JsonValue::Text(s) => {
                let ghost prev = out@;
                let x: String = s.clone();
                out.push(x);
                proof {
                    assert(out@ =~= prev + seq![x]);
                    match spec_hex_data(data@.skip(i as int + 1)) {
                        Ok(rest) => {
                            assert(prev + (seq![x] + rest) =~= (prev + seq![x]) + rest);
                        },
                        Err(_) => {},
                    }
                }
            },
            _ => {
                return Err(DecodeError::InvalidFormat);
            },
        }
        i += 1;
    }
    assert(data@.skip(n as int) =~= Seq::<JsonValue>::empty());
    assert(out@ + Seq::<String>::empty() =~= out@);
    Ok(out)
}

/// Decodes a parsed JSON response into typed random values, or says
/// exactly why it cannot. Never panics, whatever the value's shape.
pub fn qrng_numbers_from_json(json: &JsonValue) -> (r: Result<QrngNumbers, DecodeError>)
    ensures
        (match spec_decode(*json) {
            Ok(m) => r matches Ok(nums) && nums@ == m,
            Err(e) => r matches Err(e2) && e2 == e,
        }),
{
    let fields = match json {
        JsonValue::Object(fields) => fields,
        _ => {
            return Err(DecodeError::InvalidFormat);
        },
    };
    let success_key: String = "success".to_owned();
    let success: bool = match lookup_field(fields, &success_key) {
        Some(v) => match v {
            JsonValue::Bool(b) => *b,
            _ => {
                return Err(DecodeError::InvalidFormat);
            },
        },
        None => {
            return Err(DecodeError::InvalidFormat);
        },
    };
    if !success {
        return Err(DecodeError::UnsuccessfulRequest);
    }
    let type_key: String = "type".to_owned();
    let type_of_data: &String = match lookup_field(fields, &type_key) {
        Some(v) => match v {
            JsonValue::Text(t) => t,
            _ => {
                return Err(DecodeError::InvalidFormat);
            },
        },
        None => {
            return Err(DecodeError::InvalidFormat);
        },
    };
    let data_key: String = "data".to_owned();
    let values: &Vec<JsonValue> = match lookup_field(fields, &data_key) {
        Some(v) => match v {
            JsonValue::Array(d) => d,
            _ => {
                return Err(DecodeError::InvalidFormat);
            },
        },
        None => {
            return Err(DecodeError::InvalidFormat);
        },
    };
    let uint8_name: String = "uint8".to_owned();
    let uint16_name: String = "uint16".to_owned();
    let hex8_name: String = "hex8".to_owned();
    let hex16_name: String = "hex16".to_owned();
    if *type_of_data == uint8_name {
        match decode_u8_data(values) {
            Ok(v) => Ok(QrngNumbers::Uint8(v)),
            Err(e) => Err(e),
        }
    } else if *type_of_data == uint16_name {
        match decode_u16_data(values) {
            Ok(v) => Ok(QrngNumbers::Uint16(v)),
            Err(e) => Err(e),
        }
    } else if *type_of_data == hex8_name || *type_of_data == hex16_name {
        match decode_hex_data(values) {
            Ok(v) => Ok(QrngNumbers::Hex(v)),
            Err(e) => Err(e),
        }
    } else {
        Err(DecodeError::UnknownDataType)
    }
}

/// Whenever decoding succeeds, the response object held a string `type`
/// field, and the variant of the result matches it: `uint8` yields 8-bit
/// numbers, `uint16` 16-bit numbers, and `hex8` or `hex16` hexadecimal
/// strings.
pub proof fn lemma_variant_matches_type(fields: Seq<(String, JsonValue)>)
    requires
        spec_decode_fields(fields) is Ok,
    ensures
        (match spec_lookup(fields, "type"@) {
            Some(JsonValue::Text(t)) => {
                &&& (t@ == "uint8"@ ==> spec_decode_fields(fields)->Ok_0 is U8s)
                &&& (t@ == "uint16"@ ==> spec_decode_fields(fields)->Ok_0 is U16s)
                &&& ((t@ == "hex8"@ || t@ == "hex16"@) ==> spec_decode_fields(fields)->Ok_0
                    is Hexes)
            },
            _ => false,
        }),
{
    reveal_strlit("uint8");
    reveal_strlit("uint16");
    reveal_strlit("hex8");
    reveal_strlit("hex16");
    assert("hex8"@.len() == 4 && "hex16"@.len() == 5 && "uint8"@.len() == 5 && "uint16"@.len()
        == 6);
    assert("hex16"@[0] == 'h' && "uint8"@[0] == 'u');
    assert("hex8"@ != "uint8"@ && "hex8"@ != "uint16"@);
    assert("hex16"@ != "uint8"@ && "hex16"@ != "uint16"@);
}

/// The decoder is a pure function of the JSON value it is given: decoding
/// equal values, once or many times, always yields equal results.
pub proof fn lemma_decode_deterministic(a: JsonValue, b: JsonValue)
    requires
        a == b,
    ensures
        spec_decode(a) == spec_decode(b),
{
}

} // verus!
