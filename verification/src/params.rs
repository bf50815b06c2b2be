//! Bounded request parameters: the block size of a hexadecimal request and
//! the number of values requested. Validity is enforced at construction, so
//! a value of either type is always within its declared bound.

use vstd::prelude::*;

verus! {

/// Number of hex digits grouped per returned hexadecimal value.
/// Always in `[1, 10]`.
#[derive(Clone, Copy, PartialEq, Eq, Structural, Debug)]
pub struct BlockSize {
    value: u8,
}

impl BlockSize {
    /// The wrapped value, for use in contracts.
    pub closed spec fn spec_value(&self) -> u8 {
        self.value
    }

    /// Invariant established at construction: the value is in `[1, 10]`.
    pub open spec fn wf(&self) -> bool {
        1 <= self.spec_value() <= 10
    }

    /// Fallible constructor: succeeds exactly on values in `[1, 10]`,
    /// and never clamps.
    pub fn new(value: u8) -> (r: Option<BlockSize>)
        ensures
            r is Some <==> 1 <= value <= 10,
            r matches Some(b) ==> b.spec_value() == value && b.wf(),
    {
        if 1 <= value && value <= 10 {
            Some(BlockSize { value })
        } else {
            None
        }
    }

    pub fn value(&self) -> (r: u8)
        ensures
            r == self.spec_value(),
    {
        self.value
    }
}

/// Count of values requested from the remote service.
/// Always in `[1, 1024]`.
#[derive(Clone, Copy, PartialEq, Eq, Structural, Debug)]
pub struct ArrayLength {
    value: u16,
}

impl ArrayLength {
    /// The wrapped value, for use in contracts.
    pub closed spec fn spec_value(&self) -> u16 {
        self.value
    }

    /// Invariant established at construction: the value is in `[1, 1024]`.
    pub open spec fn wf(&self) -> bool {
        1 <= self.spec_value() <= 1024
    }

    /// Fallible constructor: succeeds exactly on values in `[1, 1024]`,
    /// and never clamps.
    pub fn new(value: u16) -> (r: Option<ArrayLength>)
        ensures
            r is Some <==> 1 <= value <= 1024,
            r matches Some(a) ==> a.spec_value() == value && a.wf(),
    {
        if 1 <= value && value <= 1024 {
            Some(ArrayLength { value })
        } else {
            None
        }
    }

    pub fn value(&self) -> (r: u16)
        ensures
            r == self.spec_value(),
    {
        self.value
    }
}

/// The kind of data requested from the service. Hexadecimal requests carry
/// the block size that the service groups digits by.
#[derive(Clone, Copy, PartialEq, Eq, Structural, Debug)]
pub enum DataType {
    Uint8,
    Uint16,
    Hex8(BlockSize),
    Hex16(BlockSize),
}

} // verus!
