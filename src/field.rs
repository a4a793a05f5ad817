//! Bit fields of a 32-bit register word: extraction and insertion.
use vstd::arithmetic::power2::{lemma2_to64, lemma_pow2_pos, pow2};
use vstd::bits::{
    lemma_low_bits_mask_unfold, lemma_u32_low_bits_mask_is_mod, lemma_u32_pow2_no_overflow,
    lemma_u32_shl_is_mul,
};
use vstd::prelude::*;

verus! {

/// The mask of the `width` lowest bits of a word.
pub open spec fn low_mask(width: u32) -> u32 {
    if width >= 32 {
        0xffff_ffffu32
    } else {
        ((1u32 << width) - 1) as u32
    }
}

/// The mask of the field of `width` bits that starts at bit `offset`.
pub open spec fn field_mask(offset: u32, width: u32) -> u32 {
    low_mask(width) << offset
}

/// A field descriptor is valid when it names at least one bit and lies inside the word.
pub open spec fn valid_field(offset: u32, width: u32) -> bool {
    1 <= width && width <= 32 && offset + width <= 32
}

/// The value held by the field of `width` bits at `offset` in `word`.
pub open spec fn extract_spec(word: u32, offset: u32, width: u32) -> u32 {
    (word >> offset) & low_mask(width)
}

/// `word` with the field at `offset`/`width` replaced by `value`, truncated to the field's width.
pub open spec fn insert_spec(word: u32, value: u32, offset: u32, width: u32) -> u32 {
    (word & !field_mask(offset, width)) | ((value & low_mask(width)) << offset)
}

/// Computes the mask of the `width` lowest bits.
pub fn mask_of_width(width: u32) -> (r: u32)
    requires
        1 <= width <= 32,
    ensures
        r == low_mask(width),
{
    if width == 32 {
        0xffff_ffffu32
    } else {
        assert(1u32 << width >= 1) by (bit_vector)
            requires
                width < 32,
        ;
        (1u32 << width) - 1
    }
}

/// Reads the field of `width` bits at `offset` out of `word`.
pub fn extract(word: u32, offset: u32, width: u32) -> (r: u32)
    requires
        valid_field(offset, width),
    ensures
        r == extract_spec(word, offset, width),
        r <= low_mask(width),
{
    let m = mask_of_width(width);
    let r = (word >> offset) & m;
    assert(((word >> offset) & m) <= m) by (bit_vector);
    r
}

/// Reads the one-bit field at `offset` out of `word` as a flag.
pub fn extract_bit(word: u32, offset: u32) -> (r: bool)
    requires
        offset < 32,
    ensures
        r == (extract_spec(word, offset, 1) == 1),
{
    extract(word, offset, 1) == 1
}

/// Writes `value` into the field of `width` bits at `offset` of `word`; bits of
/// `value` above the field's width are dropped, and every bit outside the field is kept.
pub fn insert(word: u32, value: u32, offset: u32, width: u32) -> (r: u32)
    requires
        valid_field(offset, width),
    ensures
        r == insert_spec(word, value, offset, width),
        r & !field_mask(offset, width) == word & !field_mask(offset, width),
{
    let m = mask_of_width(width);
    let r = (word & !(m << offset)) | ((value & m) << offset);
    assert(((word & !(m << offset)) | ((value & m) << offset)) & !(m << offset) == word & !(m
        << offset)) by (bit_vector);
    r
}

/// Writing back the value just read from a field leaves the word as it was, and
/// in particular every bit outside the field.
pub proof fn lemma_insert_extracted(word: u32, offset: u32, width: u32)
    requires
        valid_field(offset, width),
    ensures
        insert_spec(word, extract_spec(word, offset, width), offset, width) == word,
        insert_spec(word, extract_spec(word, offset, width), offset, width) & !field_mask(
            offset,
            width,
        ) == word & !field_mask(offset, width),
{
    let m = low_mask(width);
    assert(((word & !(m << offset)) | ((((word >> offset) & m) & m) << offset)) == word)
        by (bit_vector)
        requires
            offset + width <= 32,
            1 <= width <= 32,
            m == (if width >= 32 {
                0xffff_ffffu32
            } else {
                ((1u32 << width) - 1) as u32
            }),
    ;
}

/// Reading a field just written gives the written value modulo two to the field's width.
pub proof fn lemma_extract_inserted(word: u32, value: u32, offset: u32, width: u32)
    requires
        valid_field(offset, width),
    ensures
        extract_spec(insert_spec(word, value, offset, width), offset, width) == value & low_mask(
            width,
        ),
        extract_spec(insert_spec(word, value, offset, width), offset, width) as int == value as int
            % pow2(width as nat) as int,
{
    let m = low_mask(width);
    assert((((word & !(m << offset)) | ((value & m) << offset)) >> offset) & m == value & m)
        by (bit_vector)
        requires
            offset + width <= 32,
            1 <= width <= 32,
            m == (if width >= 32 {
                0xffff_ffffu32
            } else {
                ((1u32 << width) - 1) as u32
            }),
    ;
    lemma_low_mask_is_mod(value, width);
}

/// Masking with the `width` lowest bits is the remainder modulo two to `width`.
pub proof fn lemma_low_mask_is_mod(value: u32, width: u32)
    requires
        1 <= width <= 32,
    ensures
        (value & low_mask(width)) as int == value as int % pow2(width as nat) as int,
{
    if width == 32 {
        lemma2_to64();
        assert(value & 0xffff_ffffu32 == value) by (bit_vector);
    } else {
        lemma_u32_pow2_no_overflow(width as nat);
        lemma_pow2_pos(width as nat);
        lemma_u32_shl_is_mul(1u32, width);
        lemma_low_bits_mask_unfold(width as nat);
        lemma_u32_low_bits_mask_is_mod(value, width as nat);
    }
}

/// Fields that do not overlap can be written in either order with the same result.
pub proof fn lemma_disjoint_inserts_commute(
    word: u32,
    a: u32,
    offset_a: u32,
    width_a: u32,
    b: u32,
    offset_b: u32,
    width_b: u32,
)
    requires
        valid_field(offset_a, width_a),
        valid_field(offset_b, width_b),
        offset_a + width_a <= offset_b || offset_b + width_b <= offset_a,
    ensures
        insert_spec(insert_spec(word, a, offset_a, width_a), b, offset_b, width_b) == insert_spec(
            insert_spec(word, b, offset_b, width_b),
            a,
            offset_a,
            width_a,
        ),
{
    let ma = low_mask(width_a);
    let mb = low_mask(width_b);
    assert({
        let wa = (word & !(ma << offset_a)) | ((a & ma) << offset_a);
        let wb = (word & !(mb << offset_b)) | ((b & mb) << offset_b);
        ((wa & !(mb << offset_b)) | ((b & mb) << offset_b)) == ((wb & !(ma << offset_a)) | ((a
            & ma) << offset_a))
    }) by (bit_vector)
        requires
            offset_a + width_a <= 32,
            1 <= width_a <= 32,
            offset_b + width_b <= 32,
            1 <= width_b <= 32,
            offset_a + width_a <= offset_b || offset_b + width_b <= offset_a,
            ma == (if width_a >= 32 {
                0xffff_ffffu32
            } else {
                ((1u32 << width_a) - 1) as u32
            }),
            mb == (if width_b >= 32 {
                0xffff_ffffu32
            } else {
                ((1u32 << width_b) - 1) as u32
            }),
    ;
}

} // verus!
