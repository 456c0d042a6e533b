//! The type tag registry: which native type descriptor each kind of optional
//! argument value travels as.

use vstd::prelude::*;

verus! {

/// The kinds of value an optional argument can hold.
#[derive(Clone, Copy, Debug, PartialEq, Eq, Structural)]
pub enum ValueKind {
    /// A signed 32-bit integer, used for counts and sizes.
    Int32,
    /// An unsigned 32-bit integer.
    UInt32,
    /// A flag, passed as one byte.
    Bool,
    /// A pointer to zero-terminated text.
    Text,
    /// A member of a native enumeration, passed as an unsigned 32-bit integer.
    Enum,
    /// An opaque pointer to a native object.
    Pointer,
}

/// The native type descriptors the calling mechanism is given.
#[derive(Clone, Copy, Debug, PartialEq, Eq, Structural)]
pub enum AbiType {
    SInt32,
    UInt32,
    UInt8,
    Pointer,
}

/// The registry as a mathematical function.
pub open spec fn registered_type(kind: ValueKind) -> AbiType {
    match kind {
        ValueKind::Int32 => AbiType::SInt32,
        ValueKind::UInt32 => AbiType::UInt32,
        ValueKind::Bool => AbiType::UInt8,
        ValueKind::Text => AbiType::Pointer,
        ValueKind::Enum => AbiType::UInt32,
        ValueKind::Pointer => AbiType::Pointer,
    }
}

/// Looks a value kind up in the registry.
pub fn abi_type(kind: ValueKind) -> (descriptor: AbiType)
    ensures
        descriptor == registered_type(kind),
{
    match kind {
        ValueKind::Int32 => AbiType::SInt32,
        ValueKind::UInt32 => AbiType::UInt32,
        ValueKind::Bool => AbiType::UInt8,
        ValueKind::Text => AbiType::Pointer,
        ValueKind::Enum => AbiType::UInt32,
        ValueKind::Pointer => AbiType::Pointer,
    }
}

} // verus!
