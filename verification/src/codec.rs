//! Masked get/set of bit fields inside a 32-bit register word.
//!
//! A field is described by the address of the register that owns it, the
//! position of its lowest bit and its width.  `field_get` returns the field's
//! bits right-justified; `field_set` replaces only the field's bits and leaves
//! every other bit of the word untouched.  Over-wide values are silently
//! masked to the field's width: the codec itself is infallible, callers that
//! need hard validation clamp before encoding.

use vstd::prelude::*;

verus! {

/// Descriptor of one bit field inside a register word.
#[derive(Debug, Clone, Copy, PartialEq, Eq, Structural)]
pub struct BitField {
    /// Address (0 to 5) of the register that owns the field.
    pub addr: u32,
    /// Position of the field's lowest bit.  At least 3: bits [2:0] of every
    /// word always carry the register's address tag and no field may touch
    /// them.
    pub offset: u32,
    /// Width of the field in bits.
    pub width: u32,
}

impl BitField {
    /// A descriptor that stays inside the word and clear of the address tag.
    pub open spec fn wf(self) -> bool {
        &&& self.addr < 6
        &&& 3 <= self.offset
        &&& 1 <= self.width
        &&& self.offset + self.width <= 32
    }

    /// Right-justified all-ones mask, `width` bits wide.
    pub open spec fn mask_spec(self) -> u32 {
        !(0xFFFF_FFFFu32 << self.width)
    }

    /// Right-justified all-ones mask, `width` bits wide.
    pub fn mask(self) -> (m: u32)
        requires
            self.wf(),
        ensures
            m == self.mask_spec(),
    {
        !(0xFFFF_FFFFu32 << self.width)
    }

    /// Two fields that cannot share a bit: different registers, or
    /// non-overlapping bit ranges.
    pub open spec fn disjoint(self, other: BitField) -> bool {
        ||| self.addr != other.addr
        ||| self.offset + self.width <= other.offset
        ||| other.offset + other.width <= self.offset
    }
}

/// The field's bits of `w`, right-justified.
pub open spec fn field_get(w: u32, f: BitField) -> u32 {
    (w >> f.offset) & f.mask_spec()
}

/// `w` with only the field's bits replaced by `v` (masked to the field's
/// width); all other bits of `w` are kept.
pub open spec fn field_set(w: u32, f: BitField, v: u32) -> u32 {
    (w & !(f.mask_spec() << f.offset)) | ((v & f.mask_spec()) << f.offset)
}

/// Reading back a freshly written field yields the written value, masked to
/// the field's width, whatever the word held before.
pub proof fn lemma_get_set_same(w: u32, f: BitField, v: u32)
    requires
        f.wf(),
    ensures
        field_get(field_set(w, f, v), f) == v & f.mask_spec(),
{
    let off = f.offset;
    let wd = f.width;
    assert(((((w & !((!(0xFFFF_FFFFu32 << wd)) << off)) | ((v & !(0xFFFF_FFFFu32 << wd)) << off))
        >> off) & !(0xFFFF_FFFFu32 << wd)) == v & !(0xFFFF_FFFFu32 << wd)) by (bit_vector)
        requires
            3 <= off,
            1 <= wd,
            off + wd <= 32,
    ;
}

/// Writing one field leaves every disjoint field unchanged.
pub proof fn lemma_get_set_other(w: u32, f: BitField, v: u32, g: BitField)
    requires
        f.wf(),
        g.wf(),
        f.disjoint(g),
        f.addr == g.addr,
    ensures
        field_get(field_set(w, f, v), g) == field_get(w, g),
{
    let off = f.offset;
    let wd = f.width;
    let goff = g.offset;
    let gwd = g.width;
    assert(((((w & !((!(0xFFFF_FFFFu32 << wd)) << off)) | ((v & !(0xFFFF_FFFFu32 << wd)) << off))
        >> goff) & !(0xFFFF_FFFFu32 << gwd)) == (w >> goff) & !(0xFFFF_FFFFu32 << gwd))
        by (bit_vector)
        requires
            3 <= off,
            1 <= wd,
            off + wd <= 32,
            3 <= goff,
            1 <= gwd,
            goff + gwd <= 32,
            off + wd <= goff || goff + gwd <= off,
    ;
}

/// Writing a field never disturbs the low three bits of the word: the
/// register's address tag survives every field update.
pub proof fn lemma_set_preserves_addr_bits(w: u32, f: BitField, v: u32)
    requires
        f.wf(),
    ensures
        field_set(w, f, v) & 7 == w & 7,
{
    let off = f.offset;
    let wd = f.width;
    assert((((w & !((!(0xFFFF_FFFFu32 << wd)) << off)) | ((v & !(0xFFFF_FFFFu32 << wd)) << off))
        & 7) == w & 7) by (bit_vector)
        requires
            3 <= off,
            1 <= wd,
            off + wd <= 32,
    ;
}

/// A field read always fits the field's width.
pub proof fn lemma_get_fits(w: u32, f: BitField)
    requires
        f.wf(),
    ensures
        field_get(w, f) & f.mask_spec() == field_get(w, f),
        field_get(w, f) <= f.mask_spec(),
{
    let off = f.offset;
    let wd = f.width;
    assert(((w >> off) & !(0xFFFF_FFFFu32 << wd)) & !(0xFFFF_FFFFu32 << wd)
        == (w >> off) & !(0xFFFF_FFFFu32 << wd)
        && ((w >> off) & !(0xFFFF_FFFFu32 << wd)) <= !(0xFFFF_FFFFu32 << wd)) by (bit_vector);
}

/// A value no larger than the field's mask is untouched by masking: it is
/// encoded exactly.
pub proof fn lemma_fits_mask(v: u32, f: BitField)
    requires
        f.wf(),
        v <= f.mask_spec(),
    ensures
        v & f.mask_spec() == v,
{
    let wd = f.width;
    assert(v <= !(0xFFFF_FFFFu32 << wd) ==> v & !(0xFFFF_FFFFu32 << wd) == v) by (bit_vector)
        requires
            1 <= wd,
            wd <= 29,
    ;
}

/// In a word whose value is below 8 (only address-tag bits), every field
/// reads as zero.
pub proof fn lemma_get_of_tag_only(w: u32, f: BitField)
    requires
        f.wf(),
        w < 8,
    ensures
        field_get(w, f) == 0,
{
    let off = f.offset;
    let wd = f.width;
    assert((w >> off) & !(0xFFFF_FFFFu32 << wd) == 0u32) by (bit_vector)
        requires
            w < 8,
            3 <= off,
    ;
}

/// A single bit of a word, as written in the data sheet: bit `i` of `w`.
pub open spec fn bit_of(w: u32, i: u32) -> u32 {
    (w >> i) & 1
}

/// Bit-level statement of the codec's frame condition: a field write leaves
/// every bit outside the field's own bit range exactly as it was.
pub proof fn lemma_set_preserves_outside_bits(w: u32, f: BitField, v: u32, i: u32)
    requires
        f.wf(),
        i < 32,
        i < f.offset || f.offset + f.width <= i,
    ensures
        bit_of(field_set(w, f, v), i) == bit_of(w, i),
{
    let off = f.offset;
    let wd = f.width;
    assert((((w & !((!(0xFFFF_FFFFu32 << wd)) << off)) | ((v & !(0xFFFF_FFFFu32 << wd)) << off))
        >> i) & 1 == (w >> i) & 1) by (bit_vector)
        requires
            3 <= off,
            1 <= wd,
            off + wd <= 32,
            i < 32,
            i < off || off + wd <= i,
    ;
}

/// Mask values for every field width the register layout uses.
pub proof fn lemma_mask_values()
    by (bit_vector)
    ensures
        !(0xFFFF_FFFFu32 << 1u32) == 0x1u32,
        !(0xFFFF_FFFFu32 << 2u32) == 0x3u32,
        !(0xFFFF_FFFFu32 << 3u32) == 0x7u32,
        !(0xFFFF_FFFFu32 << 4u32) == 0xFu32,
        !(0xFFFF_FFFFu32 << 8u32) == 0xFFu32,
        !(0xFFFF_FFFFu32 << 10u32) == 0x3FFu32,
        !(0xFFFF_FFFFu32 << 12u32) == 0xFFFu32,
        !(0xFFFF_FFFFu32 << 16u32) == 0xFFFFu32,
{
}

/// The codec's round-trip law: decoding a freshly encoded field returns the
/// value masked to the field's width, and every bit of the word outside the
/// field — in particular the whole rest of the register — is unchanged.
pub proof fn lemma_field_round_trip(w: u32, f: BitField, v: u32)
    requires
        f.wf(),
    ensures
        field_get(field_set(w, f, v), f) == v & f.mask_spec(),
        forall|i: u32|
            i < 32 && (i < f.offset || f.offset + f.width <= i) ==> bit_of(
                field_set(w, f, v),
                i,
            ) == bit_of(w, i),
{
    lemma_get_set_same(w, f, v);
    assert forall|i: u32| i < 32 && (i < f.offset || f.offset + f.width <= i) implies bit_of(
        field_set(w, f, v),
        i,
    ) == bit_of(w, i) by {
        lemma_set_preserves_outside_bits(w, f, v, i);
    }
}

} // verus!
