//! Assembly of the query URL that asks the remote service for a block of
//! random values: the requested count, the kind of data, and, for
//! hexadecimal kinds, the block size.

use vstd::prelude::*;
use vstd::string::StringExecFns;

use crate::params::{ArrayLength, DataType};

verus! {

/// The character for a single decimal digit.
pub open spec fn spec_digit_char(d: nat) -> char {
    if d == 0 {
        '0'
    } else if d == 1 {
        '1'
    } else if d == 2 {
        '2'
    } else if d == 3 {
        '3'
    } else if d == 4 {
        '4'
    } else if d == 5 {
        '5'
    } else if d == 6 {
        '6'
    } else if d == 7 {
        '7'
    } else if d == 8 {
        '8'
    } else {
        '9'
    }
}

/// The usual decimal rendering of `n`: most significant digit first, no
/// leading zeros (a single `'0'` for zero).
pub open spec fn spec_dec_digits(n: nat) -> Seq<char>
    decreases n,
{
    if n < 10 {
        seq![spec_digit_char(n)]
    } else {
        spec_dec_digits(n / 10) + seq![spec_digit_char(n % 10)]
    }
}

/// The value of the `type` query parameter for each kind of data.
pub open spec fn spec_type_str(dt: DataType) -> Seq<char> {
    match dt {
        DataType::Uint8 => "uint8"@,
        DataType::Uint16 => "uint16"@,
        DataType::Hex8(_) => "hex8"@,
        DataType::Hex16(_) => "hex16"@,
    }
}

/// The full query URL for a request: always `length` and `type`, and a
/// `size` parameter exactly for the hexadecimal kinds.
pub open spec fn spec_request_url(dt: DataType, len: ArrayLength) -> Seq<char> {
    let base = "https://api.quantumnumbers.anu.edu.au?length="@ + spec_dec_digits(
        len.spec_value() as nat,
    ) + "&type="@ + spec_type_str(dt);
    match dt {
        DataType::Hex8(bs) => base + "&size="@ + spec_dec_digits(bs.spec_value() as nat),
        DataType::Hex16(bs) => base + "&size="@ + spec_dec_digits(bs.spec_value() as nat),
        _ => base,
    }
}

fn digit_str(d: u64) -> (s: &'static str)
    requires
        d < 10,
    ensures
        s@ == seq![spec_digit_char(d as nat)],
{
    let s: &'static str = if d == 0 {
        "0"
    } else if d == 1 {
        "1"
    } else if d == 2 {
        "2"
    } else if d == 3 {
        "3"
    } else if d == 4 {
        "4"
    } else if d == 5 {
        "5"
    } else if d == 6 {
        "6"
    } else if d == 7 {
        "7"
    } else if d == 8 {
        "8"
    } else {
        "9"
    };
    proof {
        reveal_strlit("0");
        reveal_strlit("1");
        reveal_strlit("2");
        reveal_strlit("3");
        reveal_strlit("4");
        reveal_strlit("5");
        reveal_strlit("6");
        reveal_strlit("7");
        reveal_strlit("8");
        reveal_strlit("9");
        assert(s@ =~= seq![spec_digit_char(d as nat)]);
    }
    s
}

/// Renders `n` in decimal, most significant digit first.
pub fn dec_string(n: u64) -> (s: String)
    ensures
        s@ == spec_dec_digits(n as nat),
    decreases n,
{
    if n < 10 {
        digit_str(n).to_owned()
    } else {
        let mut s = dec_string(n / 10);
        s.append(digit_str(n % 10));
        s
    }
}

/// The kind string sent as the `type` query parameter.
pub fn type_str(data_type: &DataType) -> (s: &'static str)
    ensures
        s@ == spec_type_str(*data_type),
{
    match data_type {
        DataType::Uint8 => "uint8",
        DataType::Uint16 => "uint16",
        DataType::Hex8(_) => "hex8",
        DataType::Hex16(_) => "hex16",
    }
}

/// Builds the query URL for one request. The block size appears exactly
/// when the kind of data is hexadecimal.
pub fn request_url(data_type: &DataType, array_length: &ArrayLength) -> (url: String)
    ensures
        url@ == spec_request_url(*data_type, *array_length),
{
    let mut url: String = "https://api.quantumnumbers.anu.edu.au?length=".to_owned();
    let len_str = dec_string(array_length.value() as u64);
    url.append(len_str.as_str());
    url.append("&type=");
    url.append(type_str(data_type));
    match data_type {
        DataType::Hex8(bs) => {
            url.append("&size=");
            let bs_str = dec_string(bs.value() as u64);
            url.append(bs_str.as_str());
        },
        DataType::Hex16(bs) => {
            url.append("&size=");
            let bs_str = dec_string(bs.value() as u64);
            url.append(bs_str.as_str());
        },
        _ => {},
    }
    url
}

} // verus!
