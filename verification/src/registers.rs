//! Typed access to registers and their bit-fields.
//!
//! A [`BitField`] names a field of a register by mask and shift, a
//! [`BitFieldValue`] is a value ready to be written into its field, and a
//! [`LocalRegisterCopy`] is the content of a register held in a variable.
//! [`ReadOnly`], [`WriteOnly`] and [`ReadWrite`] stand for registers in
//! memory. The register a field or a value belongs to is part of its type.
use vstd::prelude::*;

pub mod field;
pub mod local_register;
pub mod register;

pub use field::{BitField, BitFieldEnum, BitFieldValue};
pub use local_register::LocalRegisterCopy;
pub use register::{ReadOnly, ReadRegister, ReadWrite, RegisterName, WriteOnly, WriteRegister};

verus! {

/// An unsigned integer that a register can hold, with the bit operations
/// that the accessors need.
pub trait UInt: Copy {
    const ZERO: Self;

    const ONE: Self;

    /// Bits in the type.
    spec fn width() -> nat;

    /// The number that the value stands for.
    spec fn number(self) -> nat;

    /// Bitwise and.
    spec fn and_of(self, rhs: Self) -> Self;

    /// Bitwise or.
    spec fn or_of(self, rhs: Self) -> Self;

    /// Bitwise complement.
    spec fn not_of(self) -> Self;

    /// Shift to the left by `shift` bits.
    spec fn shl_of(self, shift: usize) -> Self;

    /// Shift to the right by `shift` bits.
    spec fn shr_of(self, shift: usize) -> Self;

    /// The constants are zero and one.
    proof fn lemma_constants()
        ensures
            Self::ZERO.number() == 0,
            Self::ONE.number() == 1,
    ;

    /// A value written into a field and read back is the value, cut to
    /// the mask, and the write changes no bit outside the field. The mask
    /// must fit into the type at the position of the field.
    proof fn lemma_write_then_read(register: Self, mask: Self, shift: usize, value: Self)
        requires
            shift < Self::width(),
            mask.shl_of(shift).shr_of(shift) == mask,
        ensures
            register.and_of(mask.shl_of(shift).not_of()).or_of(
                value.and_of(mask).shl_of(shift),
            ).and_of(mask.shl_of(shift)).shr_of(shift) == value.and_of(mask),
            register.and_of(mask.shl_of(shift).not_of()).or_of(
                value.and_of(mask).shl_of(shift),
            ).and_of(mask.shl_of(shift).not_of()) == register.and_of(mask.shl_of(shift).not_of()),
    ;

    /// Writing back the field that was read changes nothing.
    proof fn lemma_read_then_write(register: Self, mask: Self, shift: usize)
        requires
            shift < Self::width(),
        ensures
            register.and_of(mask.shl_of(shift).not_of()).or_of(
                register.and_of(mask.shl_of(shift)).shr_of(shift).and_of(mask).shl_of(shift),
            ) == register,
    ;

    /// Computes [`UInt::and_of`].
    fn bit_and(self, rhs: Self) -> (r: Self)
        ensures
            r == self.and_of(rhs),
    ;

    /// Computes [`UInt::or_of`].
    fn bit_or(self, rhs: Self) -> (r: Self)
        ensures
            r == self.or_of(rhs),
    ;

    /// Computes [`UInt::not_of`].
    fn bit_not(self) -> (r: Self)
        ensures
            r == self.not_of(),
    ;

    /// Computes [`UInt::shl_of`].
    fn shift_left(self, shift: usize) -> (r: Self)
        requires
            shift < Self::width(),
        ensures
            r == self.shl_of(shift),
    ;

    /// Computes [`UInt::shr_of`].
    fn shift_right(self, shift: usize) -> (r: Self)
        requires
            shift < Self::width(),
        ensures
            r == self.shr_of(shift),
    ;
}

impl UInt for u8 {
    const ZERO: Self = 0;

    const ONE: Self = 1;

    open spec fn width() -> nat {
        8
    }

    open spec fn number(self) -> nat {
        self as nat
    }

    open spec fn and_of(self, rhs: Self) -> Self {
        self & rhs
    }

    open spec fn or_of(self, rhs: Self) -> Self {
        self | rhs
    }

    open spec fn not_of(self) -> Self {
        !self
    }

    open spec fn shl_of(self, shift: usize) -> Self {
        self << shift
    }

    open spec fn shr_of(self, shift: usize) -> Self {
        self >> shift
    }

    proof fn lemma_constants() {
    }

    proof fn lemma_write_then_read(register: Self, mask: Self, shift: usize, value: Self) {
        assert(((((register & !(mask << shift)) | ((value & mask) << shift)) & (mask << shift))
            >> shift) == value & mask) by (bit_vector)
            requires
                shift < 8,
                (mask << shift) >> shift == mask,
        ;
        assert(((register & !(mask << shift)) | ((value & mask) << shift)) & !(mask << shift)
            == register & !(mask << shift)) by (bit_vector);
    }

    proof fn lemma_read_then_write(register: Self, mask: Self, shift: usize) {
        assert((register & !(mask << shift)) | ((((register & (mask << shift)) >> shift) & mask)
            << shift) == register) by (bit_vector)
            requires
                shift < 8,
        ;
    }

    fn bit_and(self, rhs: Self) -> (r: Self) {
        self & rhs
    }

    fn bit_or(self, rhs: Self) -> (r: Self) {
        self | rhs
    }

    fn bit_not(self) -> (r: Self) {
        !self
    }

    fn shift_left(self, shift: usize) -> (r: Self) {
        self << shift
    }

    fn shift_right(self, shift: usize) -> (r: Self) {
        self >> shift
    }
}

impl UInt for u16 {
    const ZERO: Self = 0;

    const ONE: Self = 1;

    open spec fn width() -> nat {
        16
    }

    open spec fn number(self) -> nat {
        self as nat
    }

    open spec fn and_of(self, rhs: Self) -> Self {
        self & rhs
    }

    open spec fn or_of(self, rhs: Self) -> Self {
        self | rhs
    }

    open spec fn not_of(self) -> Self {
        !self
    }

    open spec fn shl_of(self, shift: usize) -> Self {
        self << shift
    }

    open spec fn shr_of(self, shift: usize) -> Self {
        self >> shift
    }

    proof fn lemma_constants() {
    }

    proof fn lemma_write_then_read(register: Self, mask: Self, shift: usize, value: Self) {
        assert(((((register & !(mask << shift)) | ((value & mask) << shift)) & (mask << shift))
            >> shift) == value & mask) by (bit_vector)
            requires
                shift < 16,
                (mask << shift) >> shift == mask,
        ;
        assert(((register & !(mask << shift)) | ((value & mask) << shift)) & !(mask << shift)
            == register & !(mask << shift)) by (bit_vector);
    }

    proof fn lemma_read_then_write(register: Self, mask: Self, shift: usize) {
        assert((register & !(mask << shift)) | ((((register & (mask << shift)) >> shift) & mask)
            << shift) == register) by (bit_vector)
            requires
                shift < 16,
        ;
    }

    fn bit_and(self, rhs: Self) -> (r: Self) {
        self & rhs
    }

    fn bit_or(self, rhs: Self) -> (r: Self) {
        self | rhs
    }

    fn bit_not(self) -> (r: Self) {
        !self
    }

    fn shift_left(self, shift: usize) -> (r: Self) {
        self << shift
    }

    fn shift_right(self, shift: usize) -> (r: Self) {
        self >> shift
    }
}

impl UInt for u32 {
    const ZERO: Self = 0;

    const ONE: Self = 1;

    open spec fn width() -> nat {
        32
    }

    open spec fn number(self) -> nat {
        self as nat
    }

    open spec fn and_of(self, rhs: Self) -> Self {
        self & rhs
    }

    open spec fn or_of(self, rhs: Self) -> Self {
        self | rhs
    }

    open spec fn not_of(self) -> Self {
        !self
    }

    open spec fn shl_of(self, shift: usize) -> Self {
        self << shift
    }

    open spec fn shr_of(self, shift: usize) -> Self {
        self >> shift
    }

    proof fn lemma_constants() {
    }

    proof fn lemma_write_then_read(register: Self, mask: Self, shift: usize, value: Self) {
        assert(((((register & !(mask << shift)) | ((value & mask) << shift)) & (mask << shift))
            >> shift) == value & mask) by (bit_vector)
            requires
                shift < 32,
                (mask << shift) >> shift == mask,
        ;
        assert(((register & !(mask << shift)) | ((value & mask) << shift)) & !(mask << shift)
            == register & !(mask << shift)) by (bit_vector);
    }

    proof fn lemma_read_then_write(register: Self, mask: Self, shift: usize) {
        assert((register & !(mask << shift)) | ((((register & (mask << shift)) >> shift) & mask)
            << shift) == register) by (bit_vector)
            requires
                shift < 32,
        ;
    }

    fn bit_and(self, rhs: Self) -> (r: Self) {
        self & rhs
    }

    fn bit_or(self, rhs: Self) -> (r: Self) {
        self | rhs
    }

    fn bit_not(self) -> (r: Self) {
        !self
    }

    fn shift_left(self, shift: usize) -> (r: Self) {
        self << shift
    }

    fn shift_right(self, shift: usize) -> (r: Self) {
        self >> shift
    }
}

impl UInt for u64 {
    const ZERO: Self = 0;

    const ONE: Self = 1;

    open spec fn width() -> nat {
        64
    }

    open spec fn number(self) -> nat {
        self as nat
    }

    open spec fn and_of(self, rhs: Self) -> Self {
        self & rhs
    }

    open spec fn or_of(self, rhs: Self) -> Self {
        self | rhs
    }

    open spec fn not_of(self) -> Self {
        !self
    }

    open spec fn shl_of(self, shift: usize) -> Self {
        self << shift
    }

    open spec fn shr_of(self, shift: usize) -> Self {
        self >> shift
    }

    proof fn lemma_constants() {
    }

    proof fn lemma_write_then_read(register: Self, mask: Self, shift: usize, value: Self) {
        assert(((((register & !(mask << shift)) | ((value & mask) << shift)) & (mask << shift))
            >> shift) == value & mask) by (bit_vector)
            requires
                shift < 64,
                (mask << shift) >> shift == mask,
        ;
        assert(((register & !(mask << shift)) | ((value & mask) << shift)) & !(mask << shift)
            == register & !(mask << shift)) by (bit_vector);
    }

    proof fn lemma_read_then_write(register: Self, mask: Self, shift: usize) {
        assert((register & !(mask << shift)) | ((((register & (mask << shift)) >> shift) & mask)
            << shift) == register) by (bit_vector)
            requires
                shift < 64,
        ;
    }

    fn bit_and(self, rhs: Self) -> (r: Self) {
        self & rhs
    }

    fn bit_or(self, rhs: Self) -> (r: Self) {
        self | rhs
    }

    fn bit_not(self) -> (r: Self) {
        !self
    }

    fn shift_left(self, shift: usize) -> (r: Self) {
        self << shift
    }

    fn shift_right(self, shift: usize) -> (r: Self) {
        self >> shift
    }
}

impl UInt for u128 {
    const ZERO: Self = 0;

    const ONE: Self = 1;

    open spec fn width() -> nat {
        128
    }

    open spec fn number(self) -> nat {
        self as nat
    }

    open spec fn and_of(self, rhs: Self) -> Self {
        self & rhs
    }

    open spec fn or_of(self, rhs: Self) -> Self {
        self | rhs
    }

    open spec fn not_of(self) -> Self {
        !self
    }

    open spec fn shl_of(self, shift: usize) -> Self {
        self << shift
    }

    open spec fn shr_of(self, shift: usize) -> Self {
        self >> shift
    }

    proof fn lemma_constants() {
    }

    #[verifier::rlimit(100)]
    proof fn lemma_write_then_read(register: Self, mask: Self, shift: usize, value: Self) {
        assert(((((register & !(mask << shift)) | ((value & mask) << shift)) & (mask << shift))
            >> shift) == value & mask) by (bit_vector)
            requires
                shift < 128,
                (mask << shift) >> shift == mask,
        ;
        assert(((register & !(mask << shift)) | ((value & mask) << shift)) & !(mask << shift)
            == register & !(mask << shift)) by (bit_vector);
    }

    #[verifier::rlimit(100)]
    proof fn lemma_read_then_write(register: Self, mask: Self, shift: usize) {
        assert((register & !(mask << shift)) | ((((register & (mask << shift)) >> shift) & mask)
            << shift) == register) by (bit_vector)
            requires
                shift < 128,
        ;
    }

    fn bit_and(self, rhs: Self) -> (r: Self) {
        self & rhs
    }

    fn bit_or(self, rhs: Self) -> (r: Self) {
        self | rhs
    }

    fn bit_not(self) -> (r: Self) {
        !self
    }

    fn shift_left(self, shift: usize) -> (r: Self) {
        self << shift
    }

    fn shift_right(self, shift: usize) -> (r: Self) {
        self >> shift
    }
}

/// The name of the system control register of EL1.
pub struct Register {

}

impl RegisterName for Register {

}

/// The system control register of EL1, with the content it has after
/// reset.
pub fn SCTLR_EL1() -> (register: ReadWrite<u64, Register>)
    ensures
        register.value == 3475457,
{
    ReadWrite::new(3475457)
}

} // verus!
