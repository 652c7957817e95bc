//! The content of a register, held in a variable.
use crate::registers::{RegisterName, UInt};
use core::marker::PhantomData;
use vstd::prelude::*;
use vstd::std_specs::convert::FromSpecImpl;

verus! {

/// The content of a register that is read as `R` and written as `W`.
pub struct LocalRegisterCopy<T: UInt, R: RegisterName, W: RegisterName = R> {
    pub value: T,
    pub phantom: PhantomData<(R, W)>,
}

impl<T: UInt, R: RegisterName, W: RegisterName> LocalRegisterCopy<T, R, W> {
    /// A copy with the content `value`.
    pub fn new(value: T) -> (copy: Self)
        ensures
            copy.value == value,
    {
        Self { value, phantom: PhantomData }
    }

    /// A copy with the content zero.
    pub fn default() -> (copy: Self)
        ensures
            copy.value == T::ZERO,
    {
        Self { value: T::ZERO, phantom: PhantomData }
    }

    /// The content.
    pub fn get_value(&self) -> (value: T)
        ensures
            value == self.value,
    {
        self.value
    }

    /// Replaces the content.
    pub fn set_value(&mut self, value: T)
        ensures
            final(self).value == value,
    {
        self.value = value
    }
}

impl<T: UInt, R: RegisterName, W: RegisterName> From<T> for LocalRegisterCopy<T, R, W> {
    fn from(value: T) -> (copy: Self) {
        Self { value, phantom: PhantomData }
    }
}

impl<T: UInt, R: RegisterName, W: RegisterName> FromSpecImpl<T> for LocalRegisterCopy<T, R, W> {
    open spec fn obeys_from_spec() -> bool {
        true
    }

    open spec fn from_spec(value: T) -> Self {
        Self { value, phantom: PhantomData }
    }
}

impl<R: RegisterName, W: RegisterName> From<LocalRegisterCopy<u8, R, W>> for u8 {
    fn from(register: LocalRegisterCopy<u8, R, W>) -> (value: Self) {
        register.value
    }
}

impl<R: RegisterName, W: RegisterName> FromSpecImpl<LocalRegisterCopy<u8, R, W>> for u8 {
    open spec fn obeys_from_spec() -> bool {
        true
    }

    open spec fn from_spec(register: LocalRegisterCopy<u8, R, W>) -> Self {
        register.value
    }
}

impl<R: RegisterName, W: RegisterName> From<LocalRegisterCopy<u16, R, W>> for u16 {
    fn from(register: LocalRegisterCopy<u16, R, W>) -> (value: Self) {
        register.value
    }
}

impl<R: RegisterName, W: RegisterName> FromSpecImpl<LocalRegisterCopy<u16, R, W>> for u16 {
    open spec fn obeys_from_spec() -> bool {
        true
    }

    open spec fn from_spec(register: LocalRegisterCopy<u16, R, W>) -> Self {
        register.value
    }
}

impl<R: RegisterName, W: RegisterName> From<LocalRegisterCopy<u32, R, W>> for u32 {
    fn from(register: LocalRegisterCopy<u32, R, W>) -> (value: Self) {
        register.value
    }
}

impl<R: RegisterName, W: RegisterName> FromSpecImpl<LocalRegisterCopy<u32, R, W>> for u32 {
    open spec fn obeys_from_spec() -> bool {
        true
    }

    open spec fn from_spec(register: LocalRegisterCopy<u32, R, W>) -> Self {
        register.value
    }
}

impl<R: RegisterName, W: RegisterName> From<LocalRegisterCopy<u64, R, W>> for u64 {
    fn from(register: LocalRegisterCopy<u64, R, W>) -> (value: Self) {
        register.value
    }
}

impl<R: RegisterName, W: RegisterName> FromSpecImpl<LocalRegisterCopy<u64, R, W>> for u64 {
    open spec fn obeys_from_spec() -> bool {
        true
    }

    open spec fn from_spec(register: LocalRegisterCopy<u64, R, W>) -> Self {
        register.value
    }
}

impl<R: RegisterName, W: RegisterName> From<LocalRegisterCopy<u128, R, W>> for u128 {
    fn from(register: LocalRegisterCopy<u128, R, W>) -> (value: Self) {
        register.value
    }
}

impl<R: RegisterName, W: RegisterName> FromSpecImpl<LocalRegisterCopy<u128, R, W>> for u128 {
    open spec fn obeys_from_spec() -> bool {
        true
    }

    open spec fn from_spec(register: LocalRegisterCopy<u128, R, W>) -> Self {
        register.value
    }
}

} // verus!
