//! A plain model of a parsed JSON value, holding exactly what response
//! decoding inspects.

use vstd::prelude::*;

verus! {

/// A parsed JSON value.
///
/// A JSON number appears as `UInt` when it is representable as an unsigned
/// 64-bit integer, and as `OtherNum` otherwise (negative, fractional, or too
/// large): decoding never reads more of a number than that. Object fields
/// keep their order of appearance; lookup finds the first binding of a key.
#[derive(Debug)]
pub enum JsonValue {
    Null,
    Bool(bool),
    UInt(u64),
    OtherNum,
    Text(String),
    Array(Vec<JsonValue>),
    Object(Vec<(String, JsonValue)>),
}

/// The value of the first field named `key`, if any.
pub open spec fn spec_lookup(fields: Seq<(String, JsonValue)>, key: Seq<char>) -> Option<JsonValue>
    decreases fields.len(),
{
    if fields.len() == 0 {
        None
    } else if fields[0].0@ == key {
        Some(fields[0].1)
    } else {
        spec_lookup(fields.skip(1), key)
    }
}

/// Finds the first field named `key`, scanning in order of appearance.
pub fn lookup_field<'a>(fields: &'a Vec<(String, JsonValue)>, key: &String) -> (r: Option<
    &'a JsonValue,
>)
    ensures
        match spec_lookup(fields@, key@) {
            Some(v) => r matches Some(rv) && *rv == v,
            None => r is None,
        },
{
    let n = fields.len();
    let mut i: usize = 0;
    assert(fields@.skip(0) =~= fields@);
    while i < n
        invariant
            n == fields@.len(),
            i <= n,
            spec_lookup(fields@, key@) == spec_lookup(fields@.skip(i as int), key@),
        decreases n - i,
    {
        if fields[i].0 == *key {
            assert(fields@.skip(i as int)[0] == fields@[i as int]);
            return Some(&fields[i].1);
        }
        assert(fields@.skip(i as int)[0] == fields@[i as int]);
        assert(fields@.skip(i as int).skip(1) =~= fields@.skip(i as int + 1));
        i += 1;
    }
    assert(fields@.skip(n as int) =~= Seq::<(String, JsonValue)>::empty());
    None
}

} // verus!
