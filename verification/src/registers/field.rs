//! Bit-fields of a register.
use crate::registers::{RegisterName, UInt};
use core::marker::PhantomData;
use vstd::prelude::*;

verus! {

/// A field of the register `R`, whose values are of the type `T`: the mask
/// of the field, not yet shifted, and the position of its lowest bit. `E`
/// is the enumeration that the field decodes to, if it has one.
pub struct BitField<T: UInt, E, R: RegisterName> {
    pub mask: T,
    pub shift: usize,
    pub phantom: PhantomData<(E, R)>,
}

/// A value for a field of the register `R`, in its place: the mask of the
/// field and the value, both shifted to the position of the field.
pub struct BitFieldValue<T: UInt, R: RegisterName> {
    pub mask: T,
    pub value: T,
    pub phantom: PhantomData<R>,
}

/// An enumeration that a field of the register `R` decodes to.
///
/// `decodes` is defined by each implementation: it says which result the
/// decoding of a field value may give.
pub trait BitFieldEnum: Sized {
    type T: UInt;

    type R: RegisterName;

    /// Whether `decoded` may be the result of decoding `value`.
    open spec fn decodes(value: Self::T, decoded: Option<Self>) -> bool {
        true
    }

    /// The variant that `value` stands for, if there is one.
    fn try_from_value(value: Self::T) -> (decoded: Option<Self>)
        ensures
            Self::decodes(value, decoded),
    ;

    /// The field value that stands for the variant.
    fn into_value(self) -> Self::T;
}

impl<T: UInt, E, R: RegisterName> BitField<T, E, R> {
    /// The content of the field in `register`: the bits under the shifted
    /// mask, shifted down.
    pub open spec fn read_of(self, register: T) -> T {
        register.and_of(self.mask.shl_of(self.shift)).shr_of(self.shift)
    }

    /// `value` in the place of the field: cut to the mask and shifted up,
    /// together with the shifted mask.
    pub open spec fn val_of(self, value: T) -> BitFieldValue<T, R> {
        BitFieldValue {
            mask: self.mask.shl_of(self.shift),
            value: value.and_of(self.mask).shl_of(self.shift),
            phantom: PhantomData,
        }
    }

    /// The field with the mask `mask` at the position `shift`.
    pub fn new(mask: T, shift: usize) -> (field: Self)
        ensures
            field.mask == mask,
            field.shift == shift,
    {
        BitField { mask, shift, phantom: PhantomData }
    }

    /// Reads the field from the register content `register`.
    pub fn read(&self, register: T) -> (r: T)
        requires
            self.shift < T::width(),
        ensures
            r == self.read_of(register),
    {
        register.bit_and(self.mask.shift_left(self.shift)).shift_right(self.shift)
    }

    /// Puts `value` in the place of the field.
    pub fn val(&self, value: T) -> (r: BitFieldValue<T, R>)
        requires
            self.shift < T::width(),
        ensures
            r.mask == self.val_of(value).mask,
            r.value == self.val_of(value).value,
    {
        BitFieldValue {
            mask: self.mask.shift_left(self.shift),
            value: value.bit_and(self.mask).shift_left(self.shift),
            phantom: PhantomData,
        }
    }
}

impl<T: UInt, E: BitFieldEnum<T = T, R = R>, R: RegisterName> BitField<T, E, R> {
    /// Reads the field from the register content `register` and decodes
    /// it.
    pub fn read_enum(&self, register: T) -> (r: Option<E>)
        requires
            self.shift < T::width(),
        ensures
            E::decodes(self.read_of(register), r),
    {
        E::try_from_value(self.read(register))
    }
}

impl<T: UInt, R: RegisterName> BitFieldValue<T, R> {
    /// The register content `register` with the field replaced by this
    /// value: the bits under the mask cleared, then the value set.
    pub open spec fn write_of(self, register: T) -> T {
        register.and_of(self.mask.not_of()).or_of(self.value)
    }

    /// This value and `rhs` together: a value for both fields.
    pub open spec fn or_of(self, rhs: Self) -> Self {
        BitFieldValue {
            mask: self.mask.or_of(rhs.mask),
            value: self.value.or_of(rhs.value),
            phantom: PhantomData,
        }
    }

    /// Writes the value into the register content `register`.
    pub fn write(&self, register: T) -> (r: T)
        ensures
            r == self.write_of(register),
    {
        let register = register.bit_and(self.mask.bit_not());
        register.bit_or(self.value)
    }

    /// This value and `rhs` together: a value for both fields.
    pub fn bitor(self, rhs: Self) -> (r: Self)
        ensures
            r.mask == self.or_of(rhs).mask,
            r.value == self.or_of(rhs).value,
    {
        BitFieldValue {
            mask: self.mask.bit_or(rhs.mask),
            value: self.value.bit_or(rhs.value),
            phantom: PhantomData,
        }
    }

    /// Adds `rhs` to this value.
    pub fn bitor_assign(&mut self, rhs: Self)
        ensures
            final(self).mask == old(self).or_of(rhs).mask,
            final(self).value == old(self).or_of(rhs).value,
    {
        self.mask = self.mask.bit_or(rhs.mask);
        self.value = self.value.bit_or(rhs.value);
    }
}

/// Round trip of a field, for registers of every width: a value written
/// into the field and read back is the value, cut to the mask; writing back
/// the field value that was read changes no bit of the register. The mask
/// must fit into the register at the position of the field.
pub proof fn lemma_field_round_trip<T: UInt, E, R: RegisterName>(
    field: BitField<T, E, R>,
    register: T,
    value: T,
)
    requires
        field.shift < T::width(),
        field.mask.shl_of(field.shift).shr_of(field.shift) == field.mask,
    ensures
        field.read_of(field.val_of(value).write_of(register)) == value.and_of(field.mask),
        field.val_of(field.read_of(register)).write_of(register) == register,
{
    T::lemma_write_then_read(register, field.mask, field.shift, value);
    T::lemma_read_then_write(register, field.mask, field.shift);
}

/// A write into a field changes no bit outside the field.
pub proof fn lemma_field_write_keeps_rest<T: UInt, E, R: RegisterName>(
    field: BitField<T, E, R>,
    register: T,
    value: T,
)
    requires
        field.shift < T::width(),
        field.mask.shl_of(field.shift).shr_of(field.shift) == field.mask,
    ensures
        field.val_of(value).write_of(register).and_of(field.val_of(value).mask.not_of())
            == register.and_of(field.val_of(value).mask.not_of()),
{
    T::lemma_write_then_read(register, field.mask, field.shift, value);
}

} // verus!
