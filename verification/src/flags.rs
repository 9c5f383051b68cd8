//! Option sets that cross the native boundary as 32-bit masks.
//!
//! Each set is a value type over a fixed collection of named bits. Masks go
//! out through `bits` and come back through `decode`, which never fails.
use vstd::prelude::*;

pub mod close;
pub mod format;
pub mod iter;
pub mod open;
pub mod prop;
pub mod serial;
pub mod skip;

verus! {

/// Whether `bits` sets no bit outside `known`.
pub open spec fn fits(bits: u32, known: u32) -> bool {
    bits & !known == 0u32
}

/// What a raw mask decodes to under the set of named bits `known`: itself if
/// it fits, and otherwise nothing.
pub open spec fn decoded(raw: u32, known: u32) -> u32 {
    if fits(raw, known) {
        raw
    } else {
        0u32
    }
}

/// The empty mask and the full mask both fit.
pub proof fn lemma_fits_bounds(known: u32)
    ensures
        fits(0u32, known),
        fits(known, known),
{
    assert(0u32 & !known == 0u32 && known & !known == 0u32) by (bit_vector);
}

/// The union of two masks that fit also fits.
pub proof fn lemma_fits_union(a: u32, b: u32, known: u32)
    requires
        fits(a, known),
        fits(b, known),
    ensures
        fits(a | b, known),
{
    assert((a | b) & !known == 0u32) by (bit_vector)
        requires
            a & !known == 0u32,
            b & !known == 0u32,
    ;
}

/// Masking a mask that fits leaves a mask that fits.
pub proof fn lemma_fits_shrink(a: u32, b: u32, known: u32)
    requires
        fits(a, known),
    ensures
        fits(a & b, known),
{
    assert((a & b) & !known == 0u32) by (bit_vector)
        requires
            a & !known == 0u32,
    ;
}

/// Cutting a mask down to the named bits gives a mask that fits, and
/// changes nothing if it already did.
pub proof fn lemma_fits_truncate(raw: u32, known: u32)
    ensures
        fits(raw & known, known),
        fits(raw, known) ==> raw & known == raw,
{
    assert((raw & known) & !known == 0u32) by (bit_vector);
    assert(raw & !known == 0u32 ==> raw & known == raw) by (bit_vector);
}

/// Whatever the raw mask, what it decodes to fits.
pub proof fn lemma_decoded_fits(raw: u32, known: u32)
    ensures
        fits(decoded(raw, known), known),
{
    lemma_fits_bounds(known);
}

/// A union contains both of its operands.
pub proof fn lemma_union_contains(a: u32, b: u32)
    ensures
        (a | b) & a == a,
        (a | b) & b == b,
{
    assert((a | b) & a == a && (a | b) & b == b) by (bit_vector);
}

} // verus!
