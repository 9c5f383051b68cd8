//! Text as the native toolkit takes it: a run of bytes closed by one zero
//! byte, with no zero byte before the end.
use vstd::prelude::*;
use vstd::slice::slice_to_vec;
use vstd::string::StringSliceAdditionalSpecFns;
use crate::error::{Error, XmpError};

verus! {

/// Whether some byte of `bytes` is zero.
pub open spec fn has_nul(bytes: Seq<u8>) -> bool {
    exists|i: int| 0 <= i < bytes.len() && bytes[i] == 0u8
}

/// Whether `bytes` ends in its only zero byte.
pub open spec fn is_terminated(bytes: Seq<u8>) -> bool {
    &&& bytes.len() > 0
    &&& bytes.last() == 0u8
    &&& !has_nul(bytes.drop_last())
}

/// Finds out whether a byte run holds a zero byte.
pub fn contains_nul(bytes: &[u8]) -> (r: bool)
    ensures
        r == has_nul(bytes@),
{
    let mut i: usize = 0;
    while i < bytes.len()
        invariant
            i <= bytes.len(),
            forall|j: int| 0 <= j < i ==> bytes@[j] != 0u8,
        decreases bytes.len() - i,
    {
        if bytes[i] == 0 {
            return true;
        }
        i += 1;
    }
    false
}

/// A text parameter, encoded for the native side.
#[derive(Debug)]
pub struct CText {
    bytes: Vec<u8>,
}

impl CText {
    /// The bytes handed to the native side, terminator included.
    pub closed spec fn view(&self) -> Seq<u8> {
        self.bytes@
    }

    /// Every encoded text ends in its only zero byte.
    #[verifier::type_invariant]
    pub open spec fn is_valid(&self) -> bool {
        is_terminated(self@)
    }

    /// Encodes a byte run. A run that holds a zero byte cannot be told apart
    /// from a shorter one on the native side, so it is refused as a bad
    /// parameter instead of being cut short.
    pub fn from_bytes(bytes: &[u8]) -> (r: Result<CText, Error>)
        ensures
            r.is_ok() <==> !has_nul(bytes@),
            r matches Ok(t) ==> t@ == bytes@.push(0u8) && t.is_valid(),
            r matches Err(e) ==> e == Error(XmpError::BadParam),
    {
        if contains_nul(bytes) {
            return Err(Error(XmpError::BadParam));
        }
        let mut out = slice_to_vec(bytes);
        out.push(0u8);
        proof {
            assert(out@.drop_last() =~= bytes@);
        }
        Ok(CText { bytes: out })
    }

    /// Encodes text by its UTF-8 bytes; see [`CText::from_bytes`].
    pub fn encode(text: &str) -> (r: Result<CText, Error>)
        ensures
            r.is_ok() <==> !has_nul(text.spec_bytes()),
            r matches Ok(t) ==> t@ == text.spec_bytes().push(0u8) && t.is_valid(),
            r matches Err(e) ==> e == Error(XmpError::BadParam),
    {
        CText::from_bytes(text.as_bytes())
    }

    /// The encoded bytes, terminator included.
    pub fn as_bytes_with_nul(&self) -> (r: &[u8])
        ensures
            r@ == self@,
            is_terminated(r@),
    {
        proof {
            use_type_invariant(self);
        }
        self.bytes.as_slice()
    }

    /// The bytes before the terminator: the text as it was given.
    pub fn as_bytes(&self) -> (r: &[u8])
        ensures
            r@ == self@.drop_last(),
            !has_nul(r@),
    {
        proof {
            use_type_invariant(self);
        }
        let n = self.bytes.len() - 1;
        vstd::slice::slice_subrange(self.bytes.as_slice(), 0, n)
    }

    /// The number of bytes before the terminator.
    pub fn len(&self) -> (r: usize)
        ensures
            r == self@.len() - 1,
    {
        proof {
            use_type_invariant(self);
        }
        self.bytes.len() - 1
    }

    /// Whether the text before the terminator is empty.
    pub fn is_empty(&self) -> (r: bool)
        ensures
            r == (self@.len() == 1),
    {
        proof {
            use_type_invariant(self);
        }
        self.bytes.len() == 1
    }
}

/// Encoding never loses or changes a byte: what stands before the
/// terminator is the input, so the native side reads exactly the text that
/// the caller gave, and two different inputs never encode alike.
pub proof fn lemma_encoding_keeps_the_text(a: Seq<u8>, b: Seq<u8>)
    ensures
        a.push(0u8).drop_last() == a,
        !has_nul(a) ==> is_terminated(a.push(0u8)),
        a.push(0u8) == b.push(0u8) ==> a == b,
{
    assert(a.push(0u8).drop_last() =~= a);
    assert(b.push(0u8).drop_last() =~= b);
}

} // verus!
