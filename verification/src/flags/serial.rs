use vstd::prelude::*;
use crate::flags::{decoded, fits};

verus! {

/// Options for serialising a packet.
///
/// A set of named bits. No value of this type ever holds a bit without a
/// name.
#[derive(Clone, Copy, Debug, PartialEq, Eq, Hash, Structural)]
pub struct SerialFlags {
    bits: u32,
}

impl SerialFlags {
    /// The union of all named bits.
    pub open spec fn known() -> u32 {
        0x0000_0f77u32
    }

    /// The raw bits of the set.
    pub closed spec fn view(self) -> u32 {
        self.bits
    }

    /// Only named bits are set.
    #[verifier::type_invariant]
    pub open spec fn is_valid(self) -> bool {
        fits(self@, Self::known())
    }

    /// The set that decoding `raw` yields: `raw` itself where every bit of it
    /// has a name, the empty set otherwise.
    pub closed spec fn spec_decode(raw: u32) -> Self {
        SerialFlags { bits: decoded(raw, Self::known()) }
    }

    /// The set of the bits in either operand.
    pub closed spec fn spec_union(self, other: Self) -> Self {
        SerialFlags { bits: self.bits | other.bits }
    }

    /// Whether every bit of `other` is in `self`.
    pub open spec fn spec_contains(self, other: Self) -> bool {
        self@ & other@ == other@
    }

    /// What the spec-level operations mean on raw bits.
    pub proof fn lemma_views(self, other: Self, raw: u32)
        ensures
            self.spec_union(other)@ == self@ | other@,
            Self::spec_decode(raw)@ == decoded(raw, Self::known()),
            Self::spec_decode(raw).is_valid(),
            self.is_valid() && other.is_valid() ==> self.spec_union(other).is_valid(),
    {
        crate::flags::lemma_decoded_fits(raw, Self::known());
        if self.is_valid() && other.is_valid() {
            crate::flags::lemma_fits_union(self@, other@, Self::known());
        }
    }

    /// A set is its bits: two sets with the same bits are the same set.
    pub proof fn lemma_same_bits(self, other: Self)
        requires
            self@ == other@,
        ensures
            self == other,
    {
    }

    proof fn lemma_named_bits_fit()
        ensures
            fits(0x0000_0010u32, Self::known()),
            fits(0x0000_0020u32, Self::known()),
            fits(0x0000_0040u32, Self::known()),
            fits(0x0000_0100u32, Self::known()),
            fits(0x0000_0200u32, Self::known()),
            fits(0x0000_0400u32, Self::known()),
            fits(0x0000_0800u32, Self::known()),
            fits(0x0000_0001u32, Self::known()),
            fits(0x0000_0002u32, Self::known()),
            fits(0x0000_0004u32, Self::known()),
            fits(0x0000_0007u32, Self::known()),
            fits(0x0000_0000u32, Self::known()),
            fits(0x0000_0003u32, Self::known()),
            fits(0x0000_0005u32, Self::known()),
    {
        assert(0x0000_0010u32 & !0x0000_0f77u32 == 0
            && 0x0000_0020u32 & !0x0000_0f77u32 == 0
            && 0x0000_0040u32 & !0x0000_0f77u32 == 0
            && 0x0000_0100u32 & !0x0000_0f77u32 == 0
            && 0x0000_0200u32 & !0x0000_0f77u32 == 0
            && 0x0000_0400u32 & !0x0000_0f77u32 == 0
            && 0x0000_0800u32 & !0x0000_0f77u32 == 0
            && 0x0000_0001u32 & !0x0000_0f77u32 == 0
            && 0x0000_0002u32 & !0x0000_0f77u32 == 0
            && 0x0000_0004u32 & !0x0000_0f77u32 == 0
            && 0x0000_0007u32 & !0x0000_0f77u32 == 0
            && 0x0000_0000u32 & !0x0000_0f77u32 == 0
            && 0x0000_0003u32 & !0x0000_0f77u32 == 0
            && 0x0000_0005u32 & !0x0000_0f77u32 == 0) by (bit_vector);
    }

    /// Omit the XML packet wrapper.
    pub fn omitpacketwrapper() -> (r: Self)
        ensures
            r@ == 0x0000_0010u32,
    {
        proof {
            Self::lemma_named_bits_fit();
        }
        SerialFlags { bits: 0x0000_0010u32 }
    }

    /// Mark the packet read-only; the default is writeable.
    pub fn readonlypacket() -> (r: Self)
        ensures
            r@ == 0x0000_0020u32,
    {
        proof {
            Self::lemma_named_bits_fit();
        }
        SerialFlags { bits: 0x0000_0020u32 }
    }

    /// Use a compact form of RDF.
    pub fn usecompactformat() -> (r: Self)
        ensures
            r@ == 0x0000_0040u32,
    {
        proof {
            Self::lemma_named_bits_fit();
        }
        SerialFlags { bits: 0x0000_0040u32 }
    }

    /// Include a padding allowance for a thumbnail image.
    pub fn includethumbnailpad() -> (r: Self)
        ensures
            r@ == 0x0000_0100u32,
    {
        proof {
            Self::lemma_named_bits_fit();
        }
        SerialFlags { bits: 0x0000_0100u32 }
    }

    /// The padding parameter is the overall packet length.
    pub fn exactpacketlength() -> (r: Self)
        ensures
            r@ == 0x0000_0200u32,
    {
        proof {
            Self::lemma_named_bits_fit();
        }
        SerialFlags { bits: 0x0000_0200u32 }
    }

    /// Show aliases as XML comments.
    pub fn writealiascomments() -> (r: Self)
        ensures
            r@ == 0x0000_0400u32,
    {
        proof {
            Self::lemma_named_bits_fit();
        }
        SerialFlags { bits: 0x0000_0400u32 }
    }

    /// Omit all formatting whitespace.
    pub fn omitallformatting() -> (r: Self)
        ensures
            r@ == 0x0000_0800u32,
    {
        proof {
            Self::lemma_named_bits_fit();
        }
        SerialFlags { bits: 0x0000_0800u32 }
    }

    /// Little-endian bit of the encoding; use the combined encodings.
    pub fn littleendian_bit() -> (r: Self)
        ensures
            r@ == 0x0000_0001u32,
    {
        proof {
            Self::lemma_named_bits_fit();
        }
        SerialFlags { bits: 0x0000_0001u32 }
    }

    /// UTF-16 bit of the encoding; use the combined encodings.
    pub fn utf16_bit() -> (r: Self)
        ensures
            r@ == 0x0000_0002u32,
    {
        proof {
            Self::lemma_named_bits_fit();
        }
        SerialFlags { bits: 0x0000_0002u32 }
    }

    /// UTF-32 bit of the encoding; use the combined encodings.
    pub fn utf32_bit() -> (r: Self)
        ensures
            r@ == 0x0000_0004u32,
    {
        proof {
            Self::lemma_named_bits_fit();
        }
        SerialFlags { bits: 0x0000_0004u32 }
    }

    /// All encoding bits.
    pub fn encodingmask() -> (r: Self)
        ensures
            r@ == 0x0000_0007u32,
    {
        proof {
            Self::lemma_named_bits_fit();
        }
        SerialFlags { bits: 0x0000_0007u32 }
    }

    /// Serialise to UTF-8, the default.
    pub fn encodeutf8() -> (r: Self)
        ensures
            r@ == 0x0000_0000u32,
    {
        proof {
            Self::lemma_named_bits_fit();
        }
        SerialFlags { bits: 0x0000_0000u32 }
    }

    /// Serialise to big-endian UTF-16.
    pub fn encodeutf16big() -> (r: Self)
        ensures
            r@ == 0x0000_0002u32,
    {
        proof {
            Self::lemma_named_bits_fit();
        }
        SerialFlags { bits: 0x0000_0002u32 }
    }

    /// Serialise to little-endian UTF-16.
    pub fn encodeutf16little() -> (r: Self)
        ensures
            r@ == 0x0000_0003u32,
    {
        proof {
            Self::lemma_named_bits_fit();
        }
        SerialFlags { bits: 0x0000_0003u32 }
    }

    /// Serialise to big-endian UTF-32.
    pub fn encodeutf32big() -> (r: Self)
        ensures
            r@ == 0x0000_0004u32,
    {
        proof {
            Self::lemma_named_bits_fit();
        }
        SerialFlags { bits: 0x0000_0004u32 }
    }

    /// Serialise to little-endian UTF-32.
    pub fn encodeutf32little() -> (r: Self)
        ensures
            r@ == 0x0000_0005u32,
    {
        proof {
            Self::lemma_named_bits_fit();
        }
        SerialFlags { bits: 0x0000_0005u32 }
    }

    /// The empty set.
    pub fn empty() -> (r: Self)
        ensures
            r@ == 0u32,
    {
        proof {
            crate::flags::lemma_fits_bounds(Self::known());
        }
        SerialFlags { bits: 0 }
    }

    /// The set of all named bits.
    pub fn all() -> (r: Self)
        ensures
            r@ == Self::known(),
    {
        proof {
            crate::flags::lemma_fits_bounds(Self::known());
        }
        SerialFlags { bits: 0x0000_0f77u32 }
    }

    /// The raw bits, as the native side takes them.
    pub fn bits(&self) -> (r: u32)
        ensures
            r == self@,
            fits(r, Self::known()),
    {
        proof {
            use_type_invariant(self);
        }
        self.bits
    }

    /// The set with exactly the bits of `bits`, if each of them has a name.
    pub fn from_bits(bits: u32) -> (r: Option<Self>)
        ensures
            r.is_some() <==> fits(bits, Self::known()),
            r matches Some(f) ==> f@ == bits,
    {
        if bits & !0x0000_0f77u32 == 0 {
            Some(SerialFlags { bits })
        } else {
            None
        }
    }

    /// The set of the named bits of `bits`; the others are dropped.
    pub fn from_bits_truncate(bits: u32) -> (r: Self)
        ensures
            r@ == bits & Self::known(),
    {
        proof {
            crate::flags::lemma_fits_truncate(bits, Self::known());
        }
        SerialFlags { bits: bits & 0x0000_0f77u32 }
    }

    /// Decodes a raw mask that came back from the native side. This never
    /// fails: a mask with a bit that has no name yields the empty set.
    pub fn decode(raw: u32) -> (r: Self)
        ensures
            r == Self::spec_decode(raw),
            r@ == decoded(raw, Self::known()),
            fits(raw, Self::known()) ==> r@ == raw,
            !fits(raw, Self::known()) ==> r@ == 0u32,
    {
        match Self::from_bits(raw) {
            Some(f) => f,
            None => Self::empty(),
        }
    }

    /// Whether no bit is set.
    pub fn is_empty(&self) -> (r: bool)
        ensures
            r == (self@ == 0u32),
    {
        self.bits == 0
    }

    /// Whether every named bit is set.
    pub fn is_all(&self) -> (r: bool)
        ensures
            r == (self@ == Self::known()),
    {
        self.bits == 0x0000_0f77u32
    }

    /// Whether every bit of `other` is in `self`.
    pub fn contains(&self, other: Self) -> (r: bool)
        ensures
            r == self.spec_contains(other),
    {
        self.bits & other.bits == other.bits
    }

    /// Whether `self` and `other` share a bit.
    pub fn intersects(&self, other: Self) -> (r: bool)
        ensures
            r == (self@ & other@ != 0u32),
    {
        self.bits & other.bits != 0
    }

    /// The bits in either set.
    pub fn union(self, other: Self) -> (r: Self)
        ensures
            r == self.spec_union(other),
            r@ == self@ | other@,
    {
        proof {
            use_type_invariant(self);
            use_type_invariant(other);
            crate::flags::lemma_fits_union(self@, other@, Self::known());
        }
        SerialFlags { bits: self.bits | other.bits }
    }

    /// The bits in both sets.
    pub fn intersection(self, other: Self) -> (r: Self)
        ensures
            r@ == self@ & other@,
    {
        proof {
            use_type_invariant(self);
            crate::flags::lemma_fits_shrink(self@, other@, Self::known());
        }
        SerialFlags { bits: self.bits & other.bits }
    }

    /// The bits of `self` that are not in `other`.
    pub fn difference(self, other: Self) -> (r: Self)
        ensures
            r@ == self@ & !other@,
    {
        proof {
            use_type_invariant(self);
            crate::flags::lemma_fits_shrink(self@, !other@, Self::known());
        }
        SerialFlags { bits: self.bits & !other.bits }
    }

    /// Adds the bits of `other`.
    pub fn insert(&mut self, other: Self)
        ensures
            final(self)@ == old(self)@ | other@,
    {
        *self = self.union(other);
    }

    /// Takes the bits of `other` away.
    pub fn remove(&mut self, other: Self)
        ensures
            final(self)@ == old(self)@ & !other@,
    {
        *self = self.difference(other);
    }
}

impl Default for SerialFlags {
    /// The empty set.
    fn default() -> (r: Self)
        ensures
            r@ == 0u32,
    {
        SerialFlags::empty()
    }
}

impl vstd::std_specs::ops::BitOrSpecImpl for SerialFlags {
    open spec fn obeys_bitor_spec() -> bool {
        true
    }

    open spec fn bitor_req(self, rhs: SerialFlags) -> bool {
        true
    }

    open spec fn bitor_spec(self, rhs: SerialFlags) -> SerialFlags {
        self.spec_union(rhs)
    }
}

impl core::ops::BitOr for SerialFlags {
    type Output = SerialFlags;

    /// The bits in either set.
    fn bitor(self, rhs: SerialFlags) -> (r: SerialFlags)
        ensures
            r == self.spec_union(rhs),
            r@ == self@ | rhs@,
    {
        self.union(rhs)
    }
}

/// Composing two sets and sending the result across the native boundary
/// loses nothing: the raw bits of the union decode to the union itself,
/// which contains both operands.
pub proof fn lemma_union_survives_decoding(a: SerialFlags, b: SerialFlags)
    requires
        a.is_valid(),
        b.is_valid(),
    ensures
        SerialFlags::spec_decode(a.spec_union(b)@) == a.spec_union(b),
        SerialFlags::spec_decode(a.spec_union(b)@).spec_contains(a),
        SerialFlags::spec_decode(a.spec_union(b)@).spec_contains(b),
{
    a.lemma_views(b, a.spec_union(b)@);
    crate::flags::lemma_fits_union(a@, b@, SerialFlags::known());
    crate::flags::lemma_union_contains(a@, b@);
}

/// Decoding is total: a raw mask with a bit that has no name decodes to the
/// empty set, and any other mask decodes to itself.
pub proof fn lemma_decoding_never_fails(raw: u32)
    ensures
        SerialFlags::spec_decode(raw).is_valid(),
        fits(raw, SerialFlags::known()) ==> SerialFlags::spec_decode(raw)@ == raw,
        !fits(raw, SerialFlags::known()) ==> SerialFlags::spec_decode(raw)@ == 0u32,
{
    SerialFlags::spec_decode(raw).lemma_views(SerialFlags::spec_decode(raw), raw);
}

} // verus!
