//! Text that can cross to the native side: bytes with no zero among them, so
//! that a terminating zero marks the end and nothing else does.

use vstd::prelude::*;
use vstd::string::StrSliceExecFns;
use vstd::string::StringSliceAdditionalSpecFns;
use vstd::utf8::{encode_utf8, is_ascii_chars, is_ascii_chars_encode_utf8};
use crate::error::VipsError;

verus! {

/// No byte of `bytes` is zero.
pub open spec fn nul_free(bytes: Seq<u8>) -> bool {
    forall|i: int| 0 <= i < bytes.len() ==> bytes[i] != 0
}

/// `position` is where the first zero byte of `bytes` stands.
pub open spec fn is_first_nul(bytes: Seq<u8>, position: int) -> bool {
    &&& 0 <= position < bytes.len()
    &&& bytes[position] == 0
    &&& forall|i: int| 0 <= i < position ==> bytes[i] != 0
}

/// A byte string without a zero byte.
#[derive(Debug)]
pub struct CText {
    bytes: Vec<u8>,
}

impl View for CText {
    type V = Seq<u8>;

    closed spec fn view(&self) -> Seq<u8> {
        self.bytes@
    }
}

impl CText {
    #[verifier::type_invariant]
    spec fn holds_no_nul(self) -> bool {
        nul_free(self.bytes@)
    }

    /// Accepts `bytes` if and only if none of them is zero; otherwise reports
    /// where the first zero stands.
    pub fn new(bytes: Vec<u8>) -> (r: Result<CText, VipsError>)
        ensures
            nul_free(bytes@) ==> (r matches Ok(t) && t@ == bytes@),
            !nul_free(bytes@) ==> (r matches Err(VipsError::InteriorNul { position })
                && is_first_nul(bytes@, position as int)),
    {
        let mut i: usize = 0;
        while i < bytes.len()
            invariant
                i <= bytes.len(),
                forall|j: int| 0 <= j < i ==> bytes@[j] != 0,
            decreases bytes.len() - i,
        {
            if bytes[i] == 0 {
                return Err(VipsError::InteriorNul { position: i });
            }
            i = i + 1;
        }
        Ok(CText { bytes })
    }

    /// The same for a string, taken as its UTF-8 bytes.
    pub fn from_str(s: &str) -> (r: Result<CText, VipsError>)
        ensures
            nul_free(encode_utf8(s@)) ==> (r matches Ok(t) && t@ == encode_utf8(s@)),
            !nul_free(encode_utf8(s@)) ==> (r matches Err(VipsError::InteriorNul { position })
                && is_first_nul(encode_utf8(s@), position as int)),
    {
        CText::new(s.as_bytes_vec())
    }

    /// The bytes, without a terminator.
    pub fn as_bytes(&self) -> (bytes: &Vec<u8>)
        ensures
            bytes@ == self@,
            nul_free(bytes@),
    {
        proof {
            use_type_invariant(self);
        }
        &self.bytes
    }

    /// The bytes followed by the one zero that ends them.
    pub fn to_bytes_with_nul(&self) -> (bytes: Vec<u8>)
        ensures
            bytes@ == self@.push(0u8),
    {
        let mut out: Vec<u8> = self.bytes.clone();
        out.push(0u8);
        out
    }

    /// A copy.
    pub fn duplicate(&self) -> (copy: CText)
        ensures
            copy@ == self@,
    {
        proof {
            use_type_invariant(self);
        }
        CText { bytes: self.bytes.clone() }
    }
}

/// The bytes of a name written as a literal.
pub open spec fn name_bytes(name: &str) -> Seq<u8> {
    encode_utf8(name@)
}

/// A name whose characters are ASCII and none of them the zero character.
pub open spec fn plain_name(name: &str) -> bool {
    forall|i: int| 0 <= i < name@.len() ==> '\u{1}' <= #[trigger] name@[i] <= '\u{7f}'
}

/// A plain name holds no zero byte.
pub proof fn lemma_plain_name_crosses(name: &str)
    requires
        plain_name(name),
    ensures
        nul_free(name_bytes(name)),
{
    assert(is_ascii_chars(name@));
    is_ascii_chars_encode_utf8(name@);
    assert forall|i: int| 0 <= i < encode_utf8(name@).len() implies encode_utf8(name@)[i] != 0 by {
        let c = name@[i];
        assert('\u{1}' <= c <= '\u{7f}');
        assert(c as u8 == encode_utf8(name@)[i]);
        assert(1 <= c as u32 <= 127);
    }
}

/// The text of a name that holds no zero byte.
pub fn name_text(name: &str) -> (text: CText)
    requires
        nul_free(name_bytes(name)),
    ensures
        text@ == name_bytes(name),
{
    match CText::from_str(name) {
        Ok(text) => text,
        Err(_) => unreached(),
    }
}

} // verus!
