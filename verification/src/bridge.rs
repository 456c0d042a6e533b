//! The buffer ownership bridge: a host buffer whose release has been given
//! over to a native image. The native image carries a token for the buffer
//! and hands it back, once, when it is destroyed.

use vstd::prelude::*;

verus! {

/// A host buffer that has been given over to a native image. Whoever holds
/// the token holds the buffer; reclaiming uses the token up.
#[derive(Debug)]
pub struct AnchoredBuffer {
    bytes: Vec<u8>,
}

impl View for AnchoredBuffer {
    type V = Seq<u8>;

    closed spec fn view(&self) -> Seq<u8> {
        self.bytes@
    }
}

impl AnchoredBuffer {
    /// The token for `buffer`. Only a live handle hands tokens out.
    pub(crate) fn new(buffer: Vec<u8>) -> (token: AnchoredBuffer)
        ensures
            token@ == buffer@,
    {
        AnchoredBuffer { bytes: buffer }
    }

    /// The bytes of the buffer.
    pub fn bytes(&self) -> (bytes: &Vec<u8>)
        ensures
            bytes@ == self@,
    {
        &self.bytes
    }

    /// How many bytes the buffer holds.
    pub fn len(&self) -> (n: usize)
        ensures
            n == self@.len(),
    {
        self.bytes.len()
    }

    /// Takes the buffer back. The token is gone after this, so a buffer is
    /// reclaimed once at most.
    pub fn reclaim(self) -> (buffer: Vec<u8>)
        ensures
            buffer@ == self@,
    {
        self.bytes
    }
}

} // verus!
