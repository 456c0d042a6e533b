//! What can go wrong, and how each failure reads.

use vstd::prelude::*;
use vstd::string::StringExecFns;

verus! {

/// Why the calling mechanism refused to prepare a call.
#[derive(Clone, Copy, Debug, PartialEq, Eq, Structural)]
pub enum MarshalDefect {
    /// A type description was malformed.
    TypeDefinition,
    /// The calling convention is not supported.
    CallingConvention,
    /// An argument type cannot be passed the way the call asks for.
    ArgumentType,
    /// The mechanism could not allocate what it needed.
    Allocation,
    /// A refusal this library has no name for.
    Unrecognised,
}

/// A failure of this layer.
#[derive(Debug)]
pub enum VipsError {
    /// The native library reported a failure; `message` is what it said.
    Native { message: String },
    /// A status the native library does not document.
    Unknown,
    /// A text meant for the native side holds a zero byte at `position`.
    InteriorNul { position: usize },
    /// The call could not be described to the calling mechanism.
    Marshal { defect: MarshalDefect },
    /// The handle was asked for work after its release.
    Released,
}

/// What [`VipsError::message`] returns, as characters.
pub open spec fn message_of(e: VipsError) -> Seq<char> {
    match e {
        VipsError::Native { message } => message@,
        VipsError::Unknown => "Unknown error from libvips"@,
        VipsError::InteriorNul { .. } => "nul byte found in provided data"@,
        VipsError::Marshal { .. } => "the call interface could not be prepared"@,
        VipsError::Released => "the image handle has been released"@,
    }
}

impl VipsError {
    /// The failure in words. For a native failure this is the native text,
    /// unchanged.
    pub fn message(&self) -> (text: String)
        ensures
            text@ == message_of(*self),
    {
        match self {
            VipsError::Native { message } => message.clone(),
            VipsError::Unknown => String::from_str("Unknown error from libvips"),
            VipsError::InteriorNul { .. } => String::from_str("nul byte found in provided data"),
            VipsError::Marshal { .. } => String::from_str(
                "the call interface could not be prepared",
            ),
            VipsError::Released => String::from_str("the image handle has been released"),
        }
    }
}

} // verus!
