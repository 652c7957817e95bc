//! Bit-field arithmetic on 64-bit register values.
//!
//! A field is given by the position of its lowest bit (`shift`) and by the
//! mask of its width, not yet shifted (`mask`): a field of three bits at bit
//! 24 has shift 24 and mask 7. All register accessors of the crate are stated
//! over the specification functions [`field`], [`with_field`] and
//! [`normalized`].
use vstd::prelude::*;

verus! {

/// The field with mask `mask` that starts at bit `shift` of `raw`.
pub open spec fn field(raw: u64, shift: u32, mask: u64) -> u64 {
    (raw >> shift) & mask
}

/// `raw` with the field at `shift` replaced by the bits of `value` under
/// `mask`; every bit outside the field is kept.
pub open spec fn with_field(raw: u64, shift: u32, mask: u64, value: u64) -> u64 {
    (raw & !(mask << shift)) | ((value & mask) << shift)
}

/// Whether bit `pos` of `raw` is set.
pub open spec fn bit(raw: u64, pos: u32) -> bool {
    field(raw, pos, 1) == 1
}

/// `raw` with bit `pos` set to `value`.
pub open spec fn with_bit(raw: u64, pos: u32, value: bool) -> u64 {
    with_field(raw, pos, 1, if value { 1 } else { 0 })
}

/// A raw register value after reserved-bit masking: the bits of `res0` are
/// cleared and the bits of `res1` are forced to one.
pub open spec fn normalized(raw: u64, res0: u64, res1: u64) -> u64 {
    (raw & !res0) | res1
}

/// Whether the mask, shifted up to the field's place, stays inside the
/// register: no bit of the field is lost at the top.
pub open spec fn field_fits(shift: u32, mask: u64) -> bool {
    shift < 64 && (mask << shift) >> shift == mask
}

/// Reads the field with mask `mask` at `shift`. The result never exceeds
/// the mask.
pub fn get_field(raw: u64, shift: u32, mask: u64) -> (r: u64)
    requires
        shift < 64,
    ensures
        r == field(raw, shift, mask),
        r <= mask,
{
    proof {
        lemma_field_bound(raw, shift, mask);
    }
    (raw >> shift) & mask
}

/// Replaces the field with mask `mask` at `shift` by `value`, cut to the
/// mask.
pub fn set_field(raw: u64, shift: u32, mask: u64, value: u64) -> (r: u64)
    requires
        shift < 64,
    ensures
        r == with_field(raw, shift, mask, value),
{
    (raw & !(mask << shift)) | ((value & mask) << shift)
}

/// Reads bit `pos`.
pub fn get_bit(raw: u64, pos: u32) -> (r: bool)
    requires
        pos < 64,
    ensures
        r == bit(raw, pos),
{
    get_field(raw, pos, 1) == 1
}

/// Sets bit `pos` to `value`.
pub fn set_bit(raw: u64, pos: u32, value: bool) -> (r: u64)
    requires
        pos < 64,
    ensures
        r == with_bit(raw, pos, value),
{
    set_field(raw, pos, 1, if value { 1 } else { 0 })
}

/// Applies reserved-bit masking to a raw register value.
pub fn normalize(raw: u64, res0: u64, res1: u64) -> (r: u64)
    ensures
        r == normalized(raw, res0, res1),
{
    (raw & !res0) | res1
}

/// A field never exceeds its mask.
pub proof fn lemma_field_bound(raw: u64, shift: u32, mask: u64)
    by (bit_vector)
    ensures
        field(raw, shift, mask) <= mask,
{
}

/// Reading back a field that was just written gives the written value, cut
/// to the mask of the field.
pub proof fn lemma_field_of_with_field(raw: u64, shift: u32, mask: u64, value: u64)
    by (bit_vector)
    requires
        field_fits(shift, mask),
    ensures
        field(with_field(raw, shift, mask, value), shift, mask) == value & mask,
{
}

/// Writing a field changes no bit outside the field: every bit of `keep`,
/// which shares none with the field, is as it was.
pub proof fn lemma_with_field_keeps(raw: u64, shift: u32, mask: u64, value: u64, keep: u64)
    by (bit_vector)
    requires
        shift < 64,
        keep & (mask << shift) == 0,
    ensures
        with_field(raw, shift, mask, value) & keep == raw & keep,
{
}

/// Writing a field changes no bit below the field.
pub proof fn lemma_with_field_keeps_lower(raw: u64, shift: u32, mask: u64, value: u64, keep: u64)
    by (bit_vector)
    requires
        shift < 64,
        keep >> shift == 0,
    ensures
        with_field(raw, shift, mask, value) & keep == raw & keep,
{
}

/// Writing a field with the value it already holds changes nothing.
pub proof fn lemma_with_field_of_field(raw: u64, shift: u32, mask: u64)
    by (bit_vector)
    requires
        shift < 64,
    ensures
        with_field(raw, shift, mask, field(raw, shift, mask)) == raw,
{
}

/// Reserved-bit masking is idempotent: masking a masked value changes
/// nothing.
pub proof fn lemma_normalized_idempotent(raw: u64, res0: u64, res1: u64)
    by (bit_vector)
    ensures
        normalized(normalized(raw, res0, res1), res0, res1) == normalized(raw, res0, res1),
{
}

/// After masking, every reserved-as-one bit is set, every reserved-as-zero
/// bit that is not also reserved-as-one is clear, and every other bit is as
/// it was.
pub proof fn lemma_normalized_reserved(raw: u64, res0: u64, res1: u64)
    by (bit_vector)
    ensures
        normalized(raw, res0, res1) & res1 == res1,
        normalized(raw, res0, res1) & (res0 & !res1) == 0,
        normalized(raw, res0, res1) & !(res0 | res1) == raw & !(res0 | res1),
{
}

} // verus!
