//! The call emitter's first half: describing a call to the calling mechanism
//! before dispatch. The mechanism is libffi; the dispatch itself, which needs
//! the target's address, is left to the caller.
//!
//! The fixed arguments are described by the types they have. In the variadic
//! tail C passes nothing narrower than an `int`, and libffi accepts nothing
//! narrower there, so a byte in the tail is described as the `int` it is
//! promoted to.

use vstd::prelude::*;
use libffi::middle::{Cif, Type};
use crate::descriptor::{argument_models, argument_type, CallDescriptor, DescriptorModel};
use crate::error::{MarshalDefect, VipsError};
use crate::registry::AbiType;

verus! {

/// libffi's description of one C type. Verus sees nothing inside it; which
/// type it describes is named by [`described_as`].
#[verifier::external_type_specification]
#[verifier::external_body]
pub struct ExType(Type);

/// libffi's call interface: the calling convention and the types of one call.
/// Verus sees nothing inside it; the types it was prepared with are named by
/// [`interface_types`] and [`interface_result`].
#[verifier::external_type_specification]
#[verifier::external_body]
pub struct ExCif(Cif);

/// libffi's error. Nothing is known of its inside.
#[verifier::external_type_specification]
#[verifier::external_body]
pub struct ExLowError(libffi::low::Error);

/// The native type that a libffi type description describes.
pub uninterp spec fn described_as(t: Type) -> AbiType;

/// The argument types a call interface was prepared with, in call order.
pub uninterp spec fn interface_types(cif: Cif) -> Seq<AbiType>;

/// The result type a call interface was prepared with.
pub uninterp spec fn interface_result(cif: Cif) -> AbiType;

/// What each description of a list describes.
pub open spec fn described_list(types: Seq<Type>) -> Seq<AbiType> {
    Seq::new(types.len(), |i: int| described_as(types[i]))
}

/// `Type::pointer` of libffi returns its description of `void*`, which is
/// what a pointer is passed as.
pub assume_specification[ Type::pointer ]() -> (t: Type)
    ensures
        described_as(t) == AbiType::Pointer,
;

/// `Type::i32` of libffi returns its description of the signed 32-bit
/// integer.
pub assume_specification[ Type::i32 ]() -> (t: Type)
    ensures
        described_as(t) == AbiType::SInt32,
;

/// `Type::u32` of libffi returns its description of the unsigned 32-bit
/// integer.
pub assume_specification[ Type::u32 ]() -> (t: Type)
    ensures
        described_as(t) == AbiType::UInt32,
;

/// `Type::u8` of libffi returns its description of the unsigned 8-bit
/// integer.
pub assume_specification[ Type::u8 ]() -> (t: Type)
    ensures
        described_as(t) == AbiType::UInt8,
;

/// `Cif::try_new_variadic` of libffi prepares a call interface for a call
/// with `fixed` fixed arguments out of `types`, with the default calling
/// convention. Which calls it accepts is libffi's to say. An interface that
/// it does prepare keeps the given argument types, in their order, and the
/// given result type.
#[verifier::external_body]
fn try_variadic(types: Vec<Type>, fixed: usize, result: Type) -> (r: Result<
    Cif,
    libffi::low::Error,
>)
    ensures
        r matches Ok(cif) ==> interface_types(cif) == described_list(types@) && interface_result(
            cif,
        ) == described_as(result),
{
    Cif::try_new_variadic(types, fixed, result)
}

/// Tells the variants of libffi's `low::Error` apart. Nothing is claimed of
/// which one comes out.
#[verifier::external_body]
fn defect_of(error: libffi::low::Error) -> MarshalDefect {
    match error {
        libffi::low::Error::Typedef => MarshalDefect::TypeDefinition,
        libffi::low::Error::Abi => MarshalDefect::CallingConvention,
        libffi::low::Error::ArgType => MarshalDefect::ArgumentType,
        libffi::low::Error::Allocation => MarshalDefect::Allocation,
        _ => MarshalDefect::Unrecognised,
    }
}

/// The calling mechanism's description of a native type.
pub fn native_type(t: AbiType) -> (n: Type)
    ensures
        described_as(n) == t,
{
    match t {
        AbiType::SInt32 => Type::i32(),
        AbiType::UInt32 => Type::u32(),
        AbiType::UInt8 => Type::u8(),
        AbiType::Pointer => Type::pointer(),
    }
}

/// What became of a call interface that the mechanism was asked for.
pub fn prepared(outcome: Result<Cif, MarshalDefect>) -> (r: Result<Cif, VipsError>)
    ensures
        match outcome {
            Ok(cif) => r == Ok::<Cif, VipsError>(cif),
            Err(defect) => r == Err::<Cif, VipsError>(VipsError::Marshal { defect }),
        },
{
    match outcome {
        Ok(cif) => Ok(cif),
        Err(defect) => Err(VipsError::Marshal { defect }),
    }
}

/// What a type becomes in the variadic tail: a byte is promoted to a signed
/// 32-bit integer, every other type stays.
pub open spec fn promoted(t: AbiType) -> AbiType {
    match t {
        AbiType::UInt8 => AbiType::SInt32,
        _ => t,
    }
}

/// The types a call is described with: those of the entries, promoted in the
/// variadic tail.
pub open spec fn call_types(d: DescriptorModel) -> Seq<AbiType> {
    Seq::new(
        d.arguments.len(),
        |i: int|
            if i < d.fixed {
                argument_type(d.arguments[i])
            } else {
                promoted(argument_type(d.arguments[i]))
            },
    )
}

/// What a type becomes in the variadic tail.
pub fn promote(t: AbiType) -> (p: AbiType)
    ensures
        p == promoted(t),
        p != AbiType::UInt8,
{
    match t {
        AbiType::UInt8 => AbiType::SInt32,
        AbiType::SInt32 => AbiType::SInt32,
        AbiType::UInt32 => AbiType::UInt32,
        AbiType::Pointer => AbiType::Pointer,
    }
}

impl CallDescriptor {
    /// The type each entry is described with to the calling mechanism, in
    /// call order. No entry of the variadic tail is narrower than an `int`.
    pub fn call_types(&self) -> (types: Vec<AbiType>)
        ensures
            types@ == call_types(self@),
            forall|i: int| self@.fixed <= i < types@.len() ==> types@[i] != AbiType::UInt8,
    {
        let entries = self.arguments();
        let fixed = self.fixed_count();
        let mut types: Vec<AbiType> = Vec::new();
        let mut i: usize = 0;
        while i < entries.len()
            invariant
                i <= entries.len(),
                argument_models(entries@) == self@.arguments,
                fixed == self@.fixed,
                types@ == call_types(self@).take(i as int),
            decreases entries.len() - i,
        {
            let t = entries[i].abi_type();
            assert(argument_models(entries@)[i as int] == entries@[i as int]@);
            let described = if i < fixed {
                t
            } else {
                promote(t)
            };
            types.push(described);
            i = i + 1;
            assert(types@ =~= call_types(self@).take(i as int));
        }
        assert(call_types(self@).take(entries.len() as int) =~= call_types(self@));
        types
    }

    /// Describes the call to the calling mechanism: the type of each entry in
    /// call order as `call_types` gives it, how many of them are fixed, and a
    /// signed 32-bit status as the result. Whether the mechanism accepts the
    /// call is its own to say; a refusal comes back as a marshalling defect.
    /// An interface that comes back is one for exactly these types.
    pub fn prepare(&self) -> (r: Result<Cif, VipsError>)
        ensures
            r matches Ok(cif) ==> interface_types(cif) == call_types(self@) && interface_result(cif)
                == AbiType::SInt32,
            r matches Err(e) ==> e is Marshal,
    {
        let types = self.call_types();
        let mut native: Vec<Type> = Vec::new();
        let mut i: usize = 0;
        while i < types.len()
            invariant
                i <= types.len(),
                native.len() == i,
                described_list(native@) == types@.take(i as int),
            decreases types.len() - i,
        {
            native.push(native_type(types[i]));
            i = i + 1;
            assert(described_list(native@) =~= types@.take(i as int));
        }
        assert(types@.take(types.len() as int) =~= types@);
        let status = native_type(AbiType::SInt32);
        let outcome = match try_variadic(native, self.fixed_count(), status) {
            Ok(cif) => Ok(cif),
            Err(error) => Err(defect_of(error)),
        };
        prepared(outcome)
    }
}

} // verus!
