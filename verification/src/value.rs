//! The values that travel in a call: a closed set of kinds, each with the
//! native type it is passed as.

use vstd::prelude::*;
use crate::registry::{abi_type, registered_type, AbiType, ValueKind};
use crate::text::CText;

verus! {

/// A value for an optional or positional argument.
#[derive(Debug)]
pub enum ArgValue {
    Int32(i32),
    UInt32(u32),
    Bool(bool),
    Text(CText),
    /// The number of a member of a native enumeration.
    Enum(u32),
    /// The address of a native object.
    Pointer(usize),
}

/// What an [`ArgValue`] holds, as mathematics.
pub enum ValueModel {
    Int32(i32),
    UInt32(u32),
    Bool(bool),
    Text(Seq<u8>),
    Enum(u32),
    Pointer(usize),
}

impl View for ArgValue {
    type V = ValueModel;

    open spec fn view(&self) -> ValueModel {
        match *self {
            ArgValue::Int32(n) => ValueModel::Int32(n),
            ArgValue::UInt32(n) => ValueModel::UInt32(n),
            ArgValue::Bool(b) => ValueModel::Bool(b),
            ArgValue::Text(t) => ValueModel::Text(t@),
            ArgValue::Enum(n) => ValueModel::Enum(n),
            ArgValue::Pointer(p) => ValueModel::Pointer(p),
        }
    }
}

/// The kind of a value.
pub open spec fn kind_of(v: ValueModel) -> ValueKind {
    match v {
        ValueModel::Int32(_) => ValueKind::Int32,
        ValueModel::UInt32(_) => ValueKind::UInt32,
        ValueModel::Bool(_) => ValueKind::Bool,
        ValueModel::Text(_) => ValueKind::Text,
        ValueModel::Enum(_) => ValueKind::Enum,
        ValueModel::Pointer(_) => ValueKind::Pointer,
    }
}

/// The native type a value is passed as: what the registry holds for its
/// kind.
pub open spec fn value_type(v: ValueModel) -> AbiType {
    registered_type(kind_of(v))
}

impl ArgValue {
    /// The kind of this value.
    pub fn kind(&self) -> (k: ValueKind)
        ensures
            k == kind_of(self@),
    {
        match self {
            ArgValue::Int32(_) => ValueKind::Int32,
            ArgValue::UInt32(_) => ValueKind::UInt32,
            ArgValue::Bool(_) => ValueKind::Bool,
            ArgValue::Text(_) => ValueKind::Text,
            ArgValue::Enum(_) => ValueKind::Enum,
            ArgValue::Pointer(_) => ValueKind::Pointer,
        }
    }

    /// The native type this value is passed as.
    pub fn abi_type(&self) -> (t: AbiType)
        ensures
            t == value_type(self@),
    {
        abi_type(self.kind())
    }

    /// A copy.
    pub fn duplicate(&self) -> (copy: ArgValue)
        ensures
            copy@ == self@,
    {
        match self {
            ArgValue::Int32(n) => ArgValue::Int32(*n),
            ArgValue::UInt32(n) => ArgValue::UInt32(*n),
            ArgValue::Bool(b) => ArgValue::Bool(*b),
            ArgValue::Text(t) => ArgValue::Text(t.duplicate()),
            ArgValue::Enum(n) => ArgValue::Enum(*n),
            ArgValue::Pointer(p) => ArgValue::Pointer(*p),
        }
    }
}

/// The two's-complement reading of 32 bits as a signed number.
pub open spec fn signed_reading(bits: u32) -> i32 {
    if bits < 0x8000_0000 {
        bits as i32
    } else {
        (bits - 0x1_0000_0000) as i32
    }
}

/// Reads the bits of `bits` as a signed number, which is how the native side
/// takes sizes and coordinates.
pub fn as_signed(bits: u32) -> (n: i32)
    ensures
        n == signed_reading(bits),
{
    let n: i32 = bits as i32;
    assert(bits < 0x8000_0000u32 ==> (bits as i32) as int == bits as int) by (bit_vector);
    assert(bits >= 0x8000_0000u32 ==> (bits as i32) as int == (bits as int) - 0x1_0000_0000)
        by (bit_vector);
    n
}

} // verus!
