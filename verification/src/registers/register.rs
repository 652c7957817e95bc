//! Registers in memory.
//!
//! A register holds its content as a plain value here. The platform moves
//! the content between the value and the device with volatile accesses.
use crate::registers::{LocalRegisterCopy, UInt};
use core::marker::PhantomData;
use vstd::prelude::*;

verus! {

/// The name of a register: a type that stands for it.
pub trait RegisterName {

}

/// A register that can be read, with the name `R`.
pub trait ReadRegister<T: UInt, R: RegisterName> {
    /// The content of the register.
    spec fn content(&self) -> T;

    /// Reads the content.
    fn get_value(&self) -> (value: T)
        ensures
            value == self.content(),
    ;

    /// Reads the content into a copy.
    fn get(&self) -> (copy: LocalRegisterCopy<T, R>)
        ensures
            copy.value == self.content(),
    {
        LocalRegisterCopy::new(self.get_value())
    }
}

/// A register that can be written, with the name `W`.
pub trait WriteRegister<T: UInt, W: RegisterName> {
    /// The content of the register.
    spec fn written(&self) -> T;

    /// Replaces the content.
    fn set_value(&mut self, register: T)
        ensures
            final(self).written() == register,
    ;

    /// Replaces the content by that of a copy.
    fn set(&mut self, register: LocalRegisterCopy<T, W>)
        ensures
            final(self).written() == register.value,
    {
        self.set_value(register.get_value());
    }
}

/// A register that can only be read.
pub struct ReadOnly<T: UInt, R: RegisterName> {
    pub value: T,
    pub phantom: PhantomData<R>,
}

impl<T: UInt, R: RegisterName> ReadOnly<T, R> {
    /// A register with the content `value`.
    pub fn new(value: T) -> (register: Self)
        ensures
            register.value == value,
    {
        Self { value, phantom: PhantomData }
    }

    /// A register with the content zero.
    pub fn default() -> (register: Self)
        ensures
            register.value == T::ZERO,
    {
        Self { value: T::ZERO, phantom: PhantomData }
    }
}

impl<T: UInt, R: RegisterName> ReadRegister<T, R> for ReadOnly<T, R> {
    open spec fn content(&self) -> T {
        self.value
    }

    fn get_value(&self) -> (value: T) {
        self.value
    }
}

/// A register that can only be written.
pub struct WriteOnly<T: UInt, W: RegisterName> {
    pub value: T,
    pub phantom: PhantomData<W>,
}

impl<T: UInt, W: RegisterName> WriteOnly<T, W> {
    /// A register with the content `value`.
    pub fn new(value: T) -> (register: Self)
        ensures
            register.value == value,
    {
        Self { value, phantom: PhantomData }
    }

    /// A register with the content zero.
    pub fn default() -> (register: Self)
        ensures
            register.value == T::ZERO,
    {
        Self { value: T::ZERO, phantom: PhantomData }
    }
}

impl<T: UInt, W: RegisterName> WriteRegister<T, W> for WriteOnly<T, W> {
    open spec fn written(&self) -> T {
        self.value
    }

    fn set_value(&mut self, value: T) {
        self.value = value;
    }
}

/// A register that can be read as `R` and written as `W`.
pub struct ReadWrite<T: UInt, R: RegisterName, W: RegisterName = R> {
    pub value: T,
    pub phantom: PhantomData<(R, W)>,
}

impl<T: UInt, R: RegisterName, W: RegisterName> ReadWrite<T, R, W> {
    /// A register with the content `value`.
    pub fn new(value: T) -> (register: Self)
        ensures
            register.value == value,
    {
        Self { value, phantom: PhantomData }
    }

    /// A register with the content zero.
    pub fn default() -> (register: Self)
        ensures
            register.value == T::ZERO,
    {
        Self { value: T::ZERO, phantom: PhantomData }
    }
}

impl<T: UInt, R: RegisterName, W: RegisterName> ReadRegister<T, R> for ReadWrite<T, R, W> {
    open spec fn content(&self) -> T {
        self.value
    }

    fn get_value(&self) -> (value: T) {
        self.value
    }
}

impl<T: UInt, R: RegisterName, W: RegisterName> WriteRegister<T, W> for ReadWrite<T, R, W> {
    open spec fn written(&self) -> T {
        self.value
    }

    fn set_value(&mut self, value: T) {
        self.value = value;
    }
}

/// What was written to a register that can be read and written is what is
/// read from it.
pub proof fn lemma_read_after_write<T: UInt, R: RegisterName, W: RegisterName>(
    register: ReadWrite<T, R, W>,
)
    ensures
        register.content() == register.written(),
{
}

} // verus!
