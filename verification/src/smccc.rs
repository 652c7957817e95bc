//! The SMC calling convention: how a firmware request is laid out in the
//! argument registers and how the reply is told apart into success and
//! failure.
//!
//! The call instruction itself is issued by the platform. The library offers
//! the two conduit traits that the power-management wrappers are generic
//! over, and the marshalling on both sides of the instruction.
use core::marker::PhantomData;
use vstd::prelude::*;

verus! {

/// A conduit for 32-bit firmware calls.
///
/// `answers` is defined by each implementation: it says which replies the
/// conduit may give to a request. The trait itself promises nothing about
/// the firmware; the relation lets a caller's contract name the request that
/// was made.
pub trait SmcccCall32 {
    /// Whether `reply` may come back for the request `function` with the
    /// argument words `args`.
    open spec fn answers(function: u32, args: Seq<u32>, reply: Result<[u32; 8], i32>) -> bool {
        true
    }

    /// Places the request and returns the reply registers, or the negative
    /// return code.
    fn call(function: u32, args: [u32; 7]) -> (reply: Result<[u32; 8], i32>)
        ensures
            Self::answers(function, args@, reply),
    ;
}

/// A conduit for 64-bit firmware calls. See [`SmcccCall32`].
pub trait SmcccCall64 {
    /// Whether `reply` may come back for the request `function` with the
    /// argument words `args`.
    open spec fn answers(function: u32, args: Seq<u64>, reply: Result<[u64; 18], i64>) -> bool {
        true
    }

    /// Places the request and returns the reply registers, or the negative
    /// return code.
    fn call(function: u32, args: [u64; 17]) -> (reply: Result<[u64; 18], i64>)
        ensures
            Self::answers(function, args@, reply),
    ;
}

/// Marks the secure-monitor call instruction.
pub struct SMC;

/// Marks the hypervisor call instruction.
pub struct HVC;

/// The calling convention for the conduit instruction `T`.
pub struct Smccc<T> {
    _phantom: PhantomData<T>,
}

/// A 32-bit register read as a signed number.
pub open spec fn signed32(word: u32) -> int {
    if word < 0x8000_0000 {
        word as int
    } else {
        word as int - 0x1_0000_0000
    }
}

/// A 64-bit register read as a signed number.
pub open spec fn signed64(word: u64) -> int {
    if word < 0x8000_0000_0000_0000 {
        word as int
    } else {
        word as int - 0x1_0000_0000_0000_0000
    }
}

/// What a 32-bit call returns for the register image `regs`: the registers
/// when the first one is not negative, else the first one as the error code.
pub open spec fn reply_of32(regs: [u32; 8]) -> Result<[u32; 8], i32> {
    if signed32(regs@[0]) >= 0 {
        Ok(regs)
    } else {
        Err(signed32(regs@[0]) as i32)
    }
}

/// What a 64-bit call returns for the register image `regs`.
pub open spec fn reply_of64(regs: [u64; 18]) -> Result<[u64; 18], i64> {
    if signed64(regs@[0]) >= 0 {
        Ok(regs)
    } else {
        Err(signed64(regs@[0]) as i64)
    }
}

impl<T> Smccc<T> {
    /// The registers `w0` to `w7` on entry to a 32-bit call: the function
    /// identifier, then the seven arguments.
    pub fn request32(function: u32, args: [u32; 7]) -> (regs: [u32; 8])
        ensures
            regs@ == seq![function] + args@,
    {
        let regs = [function, args[0], args[1], args[2], args[3], args[4], args[5], args[6]];
        assert(regs@ =~= seq![function] + args@);
        regs
    }

    /// Tells a 32-bit reply apart: success with all eight registers, or the
    /// negative return code in `w0`.
    pub fn reply32(regs: [u32; 8]) -> (reply: Result<[u32; 8], i32>)
        ensures
            reply == reply_of32(regs),
    {
        let word = regs[0];
        if word < 0x8000_0000 {
            Ok(regs)
        } else {
            let below = (0xffff_ffffu32 - word) as i32;
            Err(-below - 1)
        }
    }

    /// The registers `x0` to `x17` on entry to a 64-bit call: the function
    /// identifier, then the seventeen arguments.
    pub fn request64(function: u32, args: [u64; 17]) -> (regs: [u64; 18])
        ensures
            regs@ == seq![function as u64] + args@,
    {
        let regs = [
            function as u64,
            args[0],
            args[1],
            args[2],
            args[3],
            args[4],
            args[5],
            args[6],
            args[7],
            args[8],
            args[9],
            args[10],
            args[11],
            args[12],
            args[13],
            args[14],
            args[15],
            args[16],
        ];
        assert(regs@ =~= seq![function as u64] + args@);
        regs
    }

    /// Tells a 64-bit reply apart: success with all eighteen registers, or
    /// the negative return code in `x0`.
    pub fn reply64(regs: [u64; 18]) -> (reply: Result<[u64; 18], i64>)
        ensures
            reply == reply_of64(regs),
    {
        let word = regs[0];
        if word < 0x8000_0000_0000_0000 {
            Ok(regs)
        } else {
            let below = (0xffff_ffff_ffff_ffffu64 - word) as i64;
            Err(-below - 1)
        }
    }
}

} // verus!
