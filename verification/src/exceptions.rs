//! The exception vector table and the handlers behind it.
//!
//! The table has sixteen slots of 0x80 bytes: four exception classes for
//! each of four origins. A slot branches to a trampoline that saves the
//! caller-saved registers in an [`ExceptionFrame`], hands the frame to the
//! handler and restores the registers from it. A handler says through its
//! result whether the trampoline returns from the exception or hangs.
use vstd::prelude::*;

verus! {

/// Origin: the current exception level, running on `SP_EL0`.
pub struct ELx_SP_EL0;

/// Origin: the current exception level, running on its own stack pointer.
pub struct ELx_SP_ELx;

/// Origin: a lower exception level in AArch64 state.
pub struct ELy_AARCH64;

/// Origin: a lower exception level in AArch32 state.
pub struct ELy_AARCH32;

/// The four classes of exception.
#[derive(Debug, Clone, Copy, PartialEq, Eq, Structural)]
pub enum ExceptionClass {
    Synchronous,
    Irq,
    Fiq,
    SError,
}

/// The four origins of an exception, as the vector table tells them apart.
#[derive(Debug, Clone, Copy, PartialEq, Eq, Structural)]
pub enum Origin {
    CurrentSpEl0,
    CurrentSpElx,
    LowerAarch64,
    LowerAarch32,
}

/// What the trampoline does when the handler is back.
#[derive(Debug, Clone, Copy, PartialEq, Eq, Structural)]
pub enum Continuation {
    /// Restore the registers from the frame and return from the exception.
    Return,
    /// Spin forever: the fail-stop of a handler that was not supplied.
    Hang,
}

/// Bytes from one slot of the vector table to the next.
pub const VECTOR_SLOT_SIZE: u64 = 0x80;

/// Bytes that the sixteen slots of the vector table take.
pub const VECTOR_TABLE_SIZE: u64 = 0x800;

impl ExceptionClass {
    /// Position of the class inside the group of one origin.
    pub open spec fn index(self) -> int {
        match self {
            ExceptionClass::Synchronous => 0,
            ExceptionClass::Irq => 1,
            ExceptionClass::Fiq => 2,
            ExceptionClass::SError => 3,
        }
    }
}

impl Origin {
    /// Position of the origin's group inside the table.
    pub open spec fn index(self) -> int {
        match self {
            Origin::CurrentSpEl0 => 0,
            Origin::CurrentSpElx => 1,
            Origin::LowerAarch64 => 2,
            Origin::LowerAarch32 => 3,
        }
    }
}

/// Byte offset, from the base of the table, of the slot for `class` taken
/// from `origin`.
pub open spec fn slot_offset(class: ExceptionClass, origin: Origin) -> int {
    origin.index() * 0x200 + class.index() * 0x80
}

/// The slot that starts at byte `offset` of the table, if one starts there.
pub open spec fn slot_at(offset: int) -> Option<(ExceptionClass, Origin)> {
    if 0 <= offset < 0x800 && offset % 0x80 == 0 {
        let class = if (offset / 0x80) % 4 == 0 {
            ExceptionClass::Synchronous
        } else if (offset / 0x80) % 4 == 1 {
            ExceptionClass::Irq
        } else if (offset / 0x80) % 4 == 2 {
            ExceptionClass::Fiq
        } else {
            ExceptionClass::SError
        };
        let origin = if offset / 0x200 == 0 {
            Origin::CurrentSpEl0
        } else if offset / 0x200 == 1 {
            Origin::CurrentSpElx
        } else if offset / 0x200 == 2 {
            Origin::LowerAarch64
        } else {
            Origin::LowerAarch32
        };
        Some((class, origin))
    } else {
        None
    }
}

/// Every pair of class and origin has its own slot, and the slot leads back
/// to the pair: the table holds sixteen distinct entries, each aligned to
/// 0x80 bytes, inside 0x800 bytes.
pub proof fn lemma_slot_round_trip(class: ExceptionClass, origin: Origin)
    ensures
        0 <= slot_offset(class, origin) < 0x800,
        slot_offset(class, origin) % 0x80 == 0,
        slot_at(slot_offset(class, origin)) == Some((class, origin)),
{
}

/// A slot that exists lies at the offset of its pair.
pub proof fn lemma_slot_at_offset(offset: int)
    ensures
        slot_at(offset) matches Some((class, origin)) ==> slot_offset(class, origin) == offset,
{
}

/// Computes [`slot_offset`].
pub fn vector_offset(class: ExceptionClass, origin: Origin) -> (offset: u64)
    ensures
        offset == slot_offset(class, origin),
{
    let group: u64 = match origin {
        Origin::CurrentSpEl0 => 0,
        Origin::CurrentSpElx => 1,
        Origin::LowerAarch64 => 2,
        Origin::LowerAarch32 => 3,
    };
    let entry: u64 = match class {
        ExceptionClass::Synchronous => 0,
        ExceptionClass::Irq => 1,
        ExceptionClass::Fiq => 2,
        ExceptionClass::SError => 3,
    };
    group * 0x200 + entry * VECTOR_SLOT_SIZE
}

/// Computes [`slot_at`].
pub fn vector_slot(offset: u64) -> (slot: Option<(ExceptionClass, Origin)>)
    ensures
        slot == slot_at(offset as int),
{
    if offset >= VECTOR_TABLE_SIZE || offset % VECTOR_SLOT_SIZE != 0 {
        return None;
    }
    let entry = (offset / VECTOR_SLOT_SIZE) % 4;
    let group = offset / 0x200;
    let class = if entry == 0 {
        ExceptionClass::Synchronous
    } else if entry == 1 {
        ExceptionClass::Irq
    } else if entry == 2 {
        ExceptionClass::Fiq
    } else {
        ExceptionClass::SError
    };
    let origin = if group == 0 {
        Origin::CurrentSpEl0
    } else if group == 1 {
        Origin::CurrentSpElx
    } else if group == 2 {
        Origin::LowerAarch64
    } else {
        Origin::LowerAarch32
    };
    Some((class, origin))
}

/// The registers that a trampoline saves on the stack, lowest address first.
#[derive(Debug, Clone, Copy, PartialEq, Eq, Structural)]
pub struct ExceptionFrame {
    pub x0: u64,
    pub x1: u64,
    pub x2: u64,
    pub x3: u64,
    pub x4: u64,
    pub x5: u64,
    pub x6: u64,
    pub x7: u64,
    pub x8: u64,
    pub x9: u64,
    pub x10: u64,
    pub x11: u64,
    pub x12: u64,
    pub x13: u64,
    pub x14: u64,
    pub x15: u64,
    pub x16: u64,
    pub x17: u64,
    pub x18: u64,
    pub fp: u64,
    pub lr: u64,
    pub xzr: u64,
}

impl ExceptionFrame {
    /// The frame as it lies in memory: twenty-two words, lowest address
    /// first.
    pub open spec fn words(self) -> Seq<u64> {
        seq![
            self.x0,
            self.x1,
            self.x2,
            self.x3,
            self.x4,
            self.x5,
            self.x6,
            self.x7,
            self.x8,
            self.x9,
            self.x10,
            self.x11,
            self.x12,
            self.x13,
            self.x14,
            self.x15,
            self.x16,
            self.x17,
            self.x18,
            self.fp,
            self.lr,
            self.xzr,
        ]
    }

    /// The registers `x0` to `x30` after the trampoline has restored them
    /// from the frame, where `regs` held them before: `x0` to `x18`, the
    /// frame pointer `x29` and the link register `x30` come from the frame,
    /// `x19` to `x28` are not touched.
    pub open spec fn restored(self, regs: Seq<u64>) -> Seq<u64> {
        Seq::new(
            31,
            |i: int|
                if i <= 18 {
                    self.words()[i]
                } else if i == 29 {
                    self.fp
                } else if i == 30 {
                    self.lr
                } else {
                    regs[i]
                },
        )
    }

    /// The frame that a trampoline pushes when the registers `x0` to `x30`
    /// hold `regs`. The last slot pairs the link register with the zero
    /// register.
    pub fn save(regs: &[u64; 31]) -> (frame: Self)
        ensures
            frame.words() == regs@.subrange(0, 19).push(regs@[29]).push(regs@[30]).push(0),
    {
        let frame = ExceptionFrame {
            x0: regs[0],
            x1: regs[1],
            x2: regs[2],
            x3: regs[3],
            x4: regs[4],
            x5: regs[5],
            x6: regs[6],
            x7: regs[7],
            x8: regs[8],
            x9: regs[9],
            x10: regs[10],
            x11: regs[11],
            x12: regs[12],
            x13: regs[13],
            x14: regs[14],
            x15: regs[15],
            x16: regs[16],
            x17: regs[17],
            x18: regs[18],
            fp: regs[29],
            lr: regs[30],
            xzr: 0,
        };
        assert(frame.words() =~= regs@.subrange(0, 19).push(regs@[29]).push(regs@[30]).push(0));
        frame
    }

    /// Loads the registers back from the frame, as the trampoline does
    /// before it returns from the exception.
    pub fn restore(&self, regs: &mut [u64; 31])
        ensures
            final(regs)@ == self.restored(old(regs)@),
    {
        regs[0] = self.x0;
        regs[1] = self.x1;
        regs[2] = self.x2;
        regs[3] = self.x3;
        regs[4] = self.x4;
        regs[5] = self.x5;
        regs[6] = self.x6;
        regs[7] = self.x7;
        regs[8] = self.x8;
        regs[9] = self.x9;
        regs[10] = self.x10;
        regs[11] = self.x11;
        regs[12] = self.x12;
        regs[13] = self.x13;
        regs[14] = self.x14;
        regs[15] = self.x15;
        regs[16] = self.x16;
        regs[17] = self.x17;
        regs[18] = self.x18;
        regs[29] = self.fp;
        regs[30] = self.lr;
        assert(regs@ =~= self.restored(old(regs)@));
    }

    /// Writes the frame out as the words that lie on the stack.
    pub fn to_words(&self) -> (words: [u64; 22])
        ensures
            words@ == self.words(),
    {
        let words = [
            self.x0,
            self.x1,
            self.x2,
            self.x3,
            self.x4,
            self.x5,
            self.x6,
            self.x7,
            self.x8,
            self.x9,
            self.x10,
            self.x11,
            self.x12,
            self.x13,
            self.x14,
            self.x15,
            self.x16,
            self.x17,
            self.x18,
            self.fp,
            self.lr,
            self.xzr,
        ];
        assert(words@ =~= self.words());
        words
    }

    /// Reads a frame from the words that lie on the stack.
    pub fn from_words(words: &[u64; 22]) -> (frame: Self)
        ensures
            frame.words() == words@,
    {
        let frame = ExceptionFrame {
            x0: words[0],
            x1: words[1],
            x2: words[2],
            x3: words[3],
            x4: words[4],
            x5: words[5],
            x6: words[6],
            x7: words[7],
            x8: words[8],
            x9: words[9],
            x10: words[10],
            x11: words[11],
            x12: words[12],
            x13: words[13],
            x14: words[14],
            x15: words[15],
            x16: words[16],
            x17: words[17],
            x18: words[18],
            fp: words[19],
            lr: words[20],
            xzr: words[21],
        };
        assert(frame.words() =~= words@);
        frame
    }
}

/// Saving the registers and restoring them from the untouched frame leaves
/// every register as it was.
pub proof fn lemma_restore_after_save(frame: ExceptionFrame, regs: Seq<u64>)
    requires
        regs.len() == 31,
        frame.words() == regs.subrange(0, 19).push(regs[29]).push(regs[30]).push(0),
    ensures
        frame.restored(regs) == regs,
{
    assert forall|i: int| 0 <= i < 31 implies frame.restored(regs)[i] == regs[i] by {
        if i <= 18 {
            assert(frame.words()[i] == regs.subrange(0, 19)[i]);
        } else if i == 29 {
            assert(frame.words()[19] == regs[29]);
        } else if i == 30 {
            assert(frame.words()[20] == regs[30]);
        }
    }
    assert(frame.restored(regs) =~= regs);
}

/// Either a supplied handler ran, or the default did: it hangs and leaves
/// the frame untouched.
pub open spec fn handled_or_hung(
    handled: bool,
    before: ExceptionFrame,
    after: ExceptionFrame,
    next: Continuation,
) -> bool {
    handled || (next == Continuation::Hang && after == before)
}

/// The handlers for the exceptions of one origin `EL`.
///
/// `handles` is defined by each implementation: it relates the frame before
/// and after a handler of its own to the handler's result. A handler that is
/// not supplied hangs and leaves the frame as it was.
pub trait Exceptions<EL> {
    /// Whether a supplied handler for `class` may turn `before` into `after`
    /// and give `next`.
    open spec fn handles(
        class: ExceptionClass,
        before: ExceptionFrame,
        after: ExceptionFrame,
        next: Continuation,
    ) -> bool {
        true
    }

    /// Handles synchronous exceptions. Not supplied, it hangs.
    fn sync_excp(frame: &mut ExceptionFrame) -> (next: Continuation)
        ensures
            handled_or_hung(
                Self::handles(ExceptionClass::Synchronous, *old(frame), *final(frame), next),
                *old(frame),
                *final(frame),
                next,
            ),
    {
        Continuation::Hang
    }

    /// Handles interrupt requests. Not supplied, it hangs.
    fn irq(frame: &mut ExceptionFrame) -> (next: Continuation)
        ensures
            handled_or_hung(
                Self::handles(ExceptionClass::Irq, *old(frame), *final(frame), next),
                *old(frame),
                *final(frame),
                next,
            ),
    {
        Continuation::Hang
    }

    /// Handles fast interrupt requests. Not supplied, it hangs.
    fn fiq(frame: &mut ExceptionFrame) -> (next: Continuation)
        ensures
            handled_or_hung(
                Self::handles(ExceptionClass::Fiq, *old(frame), *final(frame), next),
                *old(frame),
                *final(frame),
                next,
            ),
    {
        Continuation::Hang
    }

    /// Handles system errors. Not supplied, it hangs.
    fn serror(frame: &mut ExceptionFrame) -> (next: Continuation)
        ensures
            handled_or_hung(
                Self::handles(ExceptionClass::SError, *old(frame), *final(frame), next),
                *old(frame),
                *final(frame),
                next,
            ),
    {
        Continuation::Hang
    }
}

/// The sixteen trampolines of a vector table, one for each slot.
///
/// `vectors` says of a frame reference and a result that the trampoline for
/// a class and an origin has run on that reference and given that result:
/// the reference holds the frame as the trampoline found it, and in the end
/// the frame as the trampoline left it. Every type that supplies handlers
/// for the four origins has the trampolines that call them.
pub trait ExceptionVectors {
    /// Whether the trampoline for `class` taken from `origin` has run on
    /// `frame` and given `next`.
    spec fn vectors(
        class: ExceptionClass,
        origin: Origin,
        frame: &mut ExceptionFrame,
        next: Continuation,
    ) -> bool;

    /// The trampoline for synchronous exceptions taken from the origin
    /// `ELx_SP_EL0`: hands `frame` to the handler and gives back what the
    /// handler gives.
    fn sync_excp_elx_sp_el0(frame: &mut ExceptionFrame) -> (next: Continuation)
        ensures
            exists|handed: &mut ExceptionFrame|
                *handed == *old(frame) && *final(handed) == *final(frame)
                    && #[trigger] Self::vectors(
                    ExceptionClass::Synchronous,
                    Origin::CurrentSpEl0,
                    handed,
                    next,
                ),
    ;

    /// The trampoline for interrupt requests taken from the origin
    /// `ELx_SP_EL0`: hands `frame` to the handler and gives back what the
    /// handler gives.
    fn irq_elx_sp_el0(frame: &mut ExceptionFrame) -> (next: Continuation)
        ensures
            exists|handed: &mut ExceptionFrame|
                *handed == *old(frame) && *final(handed) == *final(frame)
                    && #[trigger] Self::vectors(
                    ExceptionClass::Irq,
                    Origin::CurrentSpEl0,
                    handed,
                    next,
                ),
    ;

    /// The trampoline for fast interrupt requests taken from the origin
    /// `ELx_SP_EL0`: hands `frame` to the handler and gives back what the
    /// handler gives.
    fn fiq_elx_sp_el0(frame: &mut ExceptionFrame) -> (next: Continuation)
        ensures
            exists|handed: &mut ExceptionFrame|
                *handed == *old(frame) && *final(handed) == *final(frame)
                    && #[trigger] Self::vectors(
                    ExceptionClass::Fiq,
                    Origin::CurrentSpEl0,
                    handed,
                    next,
                ),
    ;

    /// The trampoline for system errors taken from the origin
    /// `ELx_SP_EL0`: hands `frame` to the handler and gives back what the
    /// handler gives.
    fn serror_elx_sp_el0(frame: &mut ExceptionFrame) -> (next: Continuation)
        ensures
            exists|handed: &mut ExceptionFrame|
                *handed == *old(frame) && *final(handed) == *final(frame)
                    && #[trigger] Self::vectors(
                    ExceptionClass::SError,
                    Origin::CurrentSpEl0,
                    handed,
                    next,
                ),
    ;

    /// The trampoline for synchronous exceptions taken from the origin
    /// `ELx_SP_ELx`: hands `frame` to the handler and gives back what the
    /// handler gives.
    fn sync_excp_elx_sp_elx(frame: &mut ExceptionFrame) -> (next: Continuation)
        ensures
            exists|handed: &mut ExceptionFrame|
                *handed == *old(frame) && *final(handed) == *final(frame)
                    && #[trigger] Self::vectors(
                    ExceptionClass::Synchronous,
                    Origin::CurrentSpElx,
                    handed,
                    next,
                ),
    ;

    /// The trampoline for interrupt requests taken from the origin
    /// `ELx_SP_ELx`: hands `frame` to the handler and gives back what the
    /// handler gives.
    fn irq_elx_sp_elx(frame: &mut ExceptionFrame) -> (next: Continuation)
        ensures
            exists|handed: &mut ExceptionFrame|
                *handed == *old(frame) && *final(handed) == *final(frame)
                    && #[trigger] Self::vectors(
                    ExceptionClass::Irq,
                    Origin::CurrentSpElx,
                    handed,
                    next,
                ),
    ;

    /// The trampoline for fast interrupt requests taken from the origin
    /// `ELx_SP_ELx`: hands `frame` to the handler and gives back what the
    /// handler gives.
    fn fiq_elx_sp_elx(frame: &mut ExceptionFrame) -> (next: Continuation)
        ensures
            exists|handed: &mut ExceptionFrame|
                *handed == *old(frame) && *final(handed) == *final(frame)
                    && #[trigger] Self::vectors(
                    ExceptionClass::Fiq,
                    Origin::CurrentSpElx,
                    handed,
                    next,
                ),
    ;

    /// The trampoline for system errors taken from the origin
    /// `ELx_SP_ELx`: hands `frame` to the handler and gives back what the
    /// handler gives.
    fn serror_elx_sp_elx(frame: &mut ExceptionFrame) -> (next: Continuation)
        ensures
            exists|handed: &mut ExceptionFrame|
                *handed == *old(frame) && *final(handed) == *final(frame)
                    && #[trigger] Self::vectors(
                    ExceptionClass::SError,
                    Origin::CurrentSpElx,
                    handed,
                    next,
                ),
    ;

    /// The trampoline for synchronous exceptions taken from the origin
    /// `ELy_AARCH64`: hands `frame` to the handler and gives back what the
    /// handler gives.
    fn sync_excp_ely_aarch64(frame: &mut ExceptionFrame) -> (next: Continuation)
        ensures
            exists|handed: &mut ExceptionFrame|
                *handed == *old(frame) && *final(handed) == *final(frame)
                    && #[trigger] Self::vectors(
                    ExceptionClass::Synchronous,
                    Origin::LowerAarch64,
                    handed,
                    next,
                ),
    ;

    /// The trampoline for interrupt requests taken from the origin
    /// `ELy_AARCH64`: hands `frame` to the handler and gives back what the
    /// handler gives.
    fn irq_ely_aarch64(frame: &mut ExceptionFrame) -> (next: Continuation)
        ensures
            exists|handed: &mut ExceptionFrame|
                *handed == *old(frame) && *final(handed) == *final(frame)
                    && #[trigger] Self::vectors(
                    ExceptionClass::Irq,
                    Origin::LowerAarch64,
                    handed,
                    next,
                ),
    ;

    /// The trampoline for fast interrupt requests taken from the origin
    /// `ELy_AARCH64`: hands `frame` to the handler and gives back what the
    /// handler gives.
    fn fiq_ely_aarch64(frame: &mut ExceptionFrame) -> (next: Continuation)
        ensures
            exists|handed: &mut ExceptionFrame|
                *handed == *old(frame) && *final(handed) == *final(frame)
                    && #[trigger] Self::vectors(
                    ExceptionClass::Fiq,
                    Origin::LowerAarch64,
                    handed,
                    next,
                ),
    ;

    /// The trampoline for system errors taken from the origin
    /// `ELy_AARCH64`: hands `frame` to the handler and gives back what the
    /// handler gives.
    fn serror_ely_aarch64(frame: &mut ExceptionFrame) -> (next: Continuation)
        ensures
            exists|handed: &mut ExceptionFrame|
                *handed == *old(frame) && *final(handed) == *final(frame)
                    && #[trigger] Self::vectors(
                    ExceptionClass::SError,
                    Origin::LowerAarch64,
                    handed,
                    next,
                ),
    ;

    /// The trampoline for synchronous exceptions taken from the origin
    /// `ELy_AARCH32`: hands `frame` to the handler and gives back what the
    /// handler gives.
    fn sync_excp_ely_aarch32(frame: &mut ExceptionFrame) -> (next: Continuation)
        ensures
            exists|handed: &mut ExceptionFrame|
                *handed == *old(frame) && *final(handed) == *final(frame)
                    && #[trigger] Self::vectors(
                    ExceptionClass::Synchronous,
                    Origin::LowerAarch32,
                    handed,
                    next,
                ),
    ;

    /// The trampoline for interrupt requests taken from the origin
    /// `ELy_AARCH32`: hands `frame` to the handler and gives back what the
    /// handler gives.
    fn irq_ely_aarch32(frame: &mut ExceptionFrame) -> (next: Continuation)
        ensures
            exists|handed: &mut ExceptionFrame|
                *handed == *old(frame) && *final(handed) == *final(frame)
                    && #[trigger] Self::vectors(
                    ExceptionClass::Irq,
                    Origin::LowerAarch32,
                    handed,
                    next,
                ),
    ;

    /// The trampoline for fast interrupt requests taken from the origin
    /// `ELy_AARCH32`: hands `frame` to the handler and gives back what the
    /// handler gives.
    fn fiq_ely_aarch32(frame: &mut ExceptionFrame) -> (next: Continuation)
        ensures
            exists|handed: &mut ExceptionFrame|
                *handed == *old(frame) && *final(handed) == *final(frame)
                    && #[trigger] Self::vectors(
                    ExceptionClass::Fiq,
                    Origin::LowerAarch32,
                    handed,
                    next,
                ),
    ;

    /// The trampoline for system errors taken from the origin
    /// `ELy_AARCH32`: hands `frame` to the handler and gives back what the
    /// handler gives.
    fn serror_ely_aarch32(frame: &mut ExceptionFrame) -> (next: Continuation)
        ensures
            exists|handed: &mut ExceptionFrame|
                *handed == *old(frame) && *final(handed) == *final(frame)
                    && #[trigger] Self::vectors(
                    ExceptionClass::SError,
                    Origin::LowerAarch32,
                    handed,
                    next,
                ),
    ;
}

impl<T> ExceptionVectors for T where
    T: Exceptions<ELx_SP_EL0> + Exceptions<ELx_SP_ELx> + Exceptions<ELy_AARCH64> + Exceptions<
        ELy_AARCH32,
    >,
 {
    /// The trampoline of a slot has run where the handler of `T` for that
    /// origin and class was called on the frame and returned the result.
    open spec fn vectors(
        class: ExceptionClass,
        origin: Origin,
        frame: &mut ExceptionFrame,
        next: Continuation,
    ) -> bool {
        match (origin, class) {
            (Origin::CurrentSpEl0, ExceptionClass::Synchronous) => call_ensures(
                <T as Exceptions<ELx_SP_EL0>>::sync_excp,
                (frame,),
                next,
            ),
            (Origin::CurrentSpEl0, ExceptionClass::Irq) => call_ensures(
                <T as Exceptions<ELx_SP_EL0>>::irq,
                (frame,),
                next,
            ),
            (Origin::CurrentSpEl0, ExceptionClass::Fiq) => call_ensures(
                <T as Exceptions<ELx_SP_EL0>>::fiq,
                (frame,),
                next,
            ),
            (Origin::CurrentSpEl0, ExceptionClass::SError) => call_ensures(
                <T as Exceptions<ELx_SP_EL0>>::serror,
                (frame,),
                next,
            ),
            (Origin::CurrentSpElx, ExceptionClass::Synchronous) => call_ensures(
                <T as Exceptions<ELx_SP_ELx>>::sync_excp,
                (frame,),
                next,
            ),
            (Origin::CurrentSpElx, ExceptionClass::Irq) => call_ensures(
                <T as Exceptions<ELx_SP_ELx>>::irq,
                (frame,),
                next,
            ),
            (Origin::CurrentSpElx, ExceptionClass::Fiq) => call_ensures(
                <T as Exceptions<ELx_SP_ELx>>::fiq,
                (frame,),
                next,
            ),
            (Origin::CurrentSpElx, ExceptionClass::SError) => call_ensures(
                <T as Exceptions<ELx_SP_ELx>>::serror,
                (frame,),
                next,
            ),
            (Origin::LowerAarch64, ExceptionClass::Synchronous) => call_ensures(
                <T as Exceptions<ELy_AARCH64>>::sync_excp,
                (frame,),
                next,
            ),
            (Origin::LowerAarch64, ExceptionClass::Irq) => call_ensures(
                <T as Exceptions<ELy_AARCH64>>::irq,
                (frame,),
                next,
            ),
            (Origin::LowerAarch64, ExceptionClass::Fiq) => call_ensures(
                <T as Exceptions<ELy_AARCH64>>::fiq,
                (frame,),
                next,
            ),
            (Origin::LowerAarch64, ExceptionClass::SError) => call_ensures(
                <T as Exceptions<ELy_AARCH64>>::serror,
                (frame,),
                next,
            ),
            (Origin::LowerAarch32, ExceptionClass::Synchronous) => call_ensures(
                <T as Exceptions<ELy_AARCH32>>::sync_excp,
                (frame,),
                next,
            ),
            (Origin::LowerAarch32, ExceptionClass::Irq) => call_ensures(
                <T as Exceptions<ELy_AARCH32>>::irq,
                (frame,),
                next,
            ),
            (Origin::LowerAarch32, ExceptionClass::Fiq) => call_ensures(
                <T as Exceptions<ELy_AARCH32>>::fiq,
                (frame,),
                next,
            ),
            (Origin::LowerAarch32, ExceptionClass::SError) => call_ensures(
                <T as Exceptions<ELy_AARCH32>>::serror,
                (frame,),
                next,
            ),
        }
    }

    fn sync_excp_elx_sp_el0(frame: &mut ExceptionFrame) -> (next: Continuation) {
        let ghost before = *frame;
        let next = <T as Exceptions<ELx_SP_EL0>>::sync_excp(frame);
        proof {
            let handed = choose|handed: &mut ExceptionFrame|
                *handed == before && *final(handed) == *frame && #[trigger] call_ensures(
                    <T as Exceptions<ELx_SP_EL0>>::sync_excp,
                    (handed,),
                    next,
                );
            assert(Self::vectors(
                ExceptionClass::Synchronous,
                Origin::CurrentSpEl0,
                handed,
                next,
            ));
        }
        next
    }

    fn irq_elx_sp_el0(frame: &mut ExceptionFrame) -> (next: Continuation) {
        let ghost before = *frame;
        let next = <T as Exceptions<ELx_SP_EL0>>::irq(frame);
        proof {
            let handed = choose|handed: &mut ExceptionFrame|
                *handed == before && *final(handed) == *frame && #[trigger] call_ensures(
                    <T as Exceptions<ELx_SP_EL0>>::irq,
                    (handed,),
                    next,
                );
            assert(Self::vectors(
                ExceptionClass::Irq,
                Origin::CurrentSpEl0,
                handed,
                next,
            ));
        }
        next
    }

    fn fiq_elx_sp_el0(frame: &mut ExceptionFrame) -> (next: Continuation) {
        let ghost before = *frame;
        let next = <T as Exceptions<ELx_SP_EL0>>::fiq(frame);
        proof {
            let handed = choose|handed: &mut ExceptionFrame|
                *handed == before && *final(handed) == *frame && #[trigger] call_ensures(
                    <T as Exceptions<ELx_SP_EL0>>::fiq,
                    (handed,),
                    next,
                );
            assert(Self::vectors(
                ExceptionClass::Fiq,
                Origin::CurrentSpEl0,
                handed,
                next,
            ));
        }
        next
    }

    fn serror_elx_sp_el0(frame: &mut ExceptionFrame) -> (next: Continuation) {
        let ghost before = *frame;
        let next = <T as Exceptions<ELx_SP_EL0>>::serror(frame);
        proof {
            let handed = choose|handed: &mut ExceptionFrame|
                *handed == before && *final(handed) == *frame && #[trigger] call_ensures(
                    <T as Exceptions<ELx_SP_EL0>>::serror,
                    (handed,),
                    next,
                );
            assert(Self::vectors(
                ExceptionClass::SError,
                Origin::CurrentSpEl0,
                handed,
                next,
            ));
        }
        next
    }

    fn sync_excp_elx_sp_elx(frame: &mut ExceptionFrame) -> (next: Continuation) {
        let ghost before = *frame;
        let next = <T as Exceptions<ELx_SP_ELx>>::sync_excp(frame);
        proof {
            let handed = choose|handed: &mut ExceptionFrame|
                *handed == before && *final(handed) == *frame && #[trigger] call_ensures(
                    <T as Exceptions<ELx_SP_ELx>>::sync_excp,
                    (handed,),
                    next,
                );
            assert(Self::vectors(
                ExceptionClass::Synchronous,
                Origin::CurrentSpElx,
                handed,
                next,
            ));
        }
        next
    }

    fn irq_elx_sp_elx(frame: &mut ExceptionFrame) -> (next: Continuation) {
        let ghost before = *frame;
        let next = <T as Exceptions<ELx_SP_ELx>>::irq(frame);
        proof {
            let handed = choose|handed: &mut ExceptionFrame|
                *handed == before && *final(handed) == *frame && #[trigger] call_ensures(
                    <T as Exceptions<ELx_SP_ELx>>::irq,
                    (handed,),
                    next,
                );
            assert(Self::vectors(
                ExceptionClass::Irq,
                Origin::CurrentSpElx,
                handed,
                next,
            ));
        }
        next
    }

    fn fiq_elx_sp_elx(frame: &mut ExceptionFrame) -> (next: Continuation) {
        let ghost before = *frame;
        let next = <T as Exceptions<ELx_SP_ELx>>::fiq(frame);
        proof {
            let handed = choose|handed: &mut ExceptionFrame|
                *handed == before && *final(handed) == *frame && #[trigger] call_ensures(
                    <T as Exceptions<ELx_SP_ELx>>::fiq,
                    (handed,),
                    next,
                );
            assert(Self::vectors(
                ExceptionClass::Fiq,
                Origin::CurrentSpElx,
                handed,
                next,
            ));
        }
        next
    }

    fn serror_elx_sp_elx(frame: &mut ExceptionFrame) -> (next: Continuation) {
        let ghost before = *frame;
        let next = <T as Exceptions<ELx_SP_ELx>>::serror(frame);
        proof {
            let handed = choose|handed: &mut ExceptionFrame|
                *handed == before && *final(handed) == *frame && #[trigger] call_ensures(
                    <T as Exceptions<ELx_SP_ELx>>::serror,
                    (handed,),
                    next,
                );
            assert(Self::vectors(
                ExceptionClass::SError,
                Origin::CurrentSpElx,
                handed,
                next,
            ));
        }
        next
    }

    fn sync_excp_ely_aarch64(frame: &mut ExceptionFrame) -> (next: Continuation) {
        let ghost before = *frame;
        let next = <T as Exceptions<ELy_AARCH64>>::sync_excp(frame);
        proof {
            let handed = choose|handed: &mut ExceptionFrame|
                *handed == before && *final(handed) == *frame && #[trigger] call_ensures(
                    <T as Exceptions<ELy_AARCH64>>::sync_excp,
                    (handed,),
                    next,
                );
            assert(Self::vectors(
                ExceptionClass::Synchronous,
                Origin::LowerAarch64,
                handed,
                next,
            ));
        }
        next
    }

    fn irq_ely_aarch64(frame: &mut ExceptionFrame) -> (next: Continuation) {
        let ghost before = *frame;
        let next = <T as Exceptions<ELy_AARCH64>>::irq(frame);
        proof {
            let handed = choose|handed: &mut ExceptionFrame|
                *handed == before && *final(handed) == *frame && #[trigger] call_ensures(
                    <T as Exceptions<ELy_AARCH64>>::irq,
                    (handed,),
                    next,
                );
            assert(Self::vectors(
                ExceptionClass::Irq,
                Origin::LowerAarch64,
                handed,
                next,
            ));
        }
        next
    }

    fn fiq_ely_aarch64(frame: &mut ExceptionFrame) -> (next: Continuation) {
        let ghost before = *frame;
        let next = <T as Exceptions<ELy_AARCH64>>::fiq(frame);
        proof {
            let handed = choose|handed: &mut ExceptionFrame|
                *handed == before && *final(handed) == *frame && #[trigger] call_ensures(
                    <T as Exceptions<ELy_AARCH64>>::fiq,
                    (handed,),
                    next,
                );
            assert(Self::vectors(
                ExceptionClass::Fiq,
                Origin::LowerAarch64,
                handed,
                next,
            ));
        }
        next
    }

    fn serror_ely_aarch64(frame: &mut ExceptionFrame) -> (next: Continuation) {
        let ghost before = *frame;
        let next = <T as Exceptions<ELy_AARCH64>>::serror(frame);
        proof {
            let handed = choose|handed: &mut ExceptionFrame|
                *handed == before && *final(handed) == *frame && #[trigger] call_ensures(
                    <T as Exceptions<ELy_AARCH64>>::serror,
                    (handed,),
                    next,
                );
            assert(Self::vectors(
                ExceptionClass::SError,
                Origin::LowerAarch64,
                handed,
                next,
            ));
        }
        next
    }

    fn sync_excp_ely_aarch32(frame: &mut ExceptionFrame) -> (next: Continuation) {
        let ghost before = *frame;
        let next = <T as Exceptions<ELy_AARCH32>>::sync_excp(frame);
        proof {
            let handed = choose|handed: &mut ExceptionFrame|
                *handed == before && *final(handed) == *frame && #[trigger] call_ensures(
                    <T as Exceptions<ELy_AARCH32>>::sync_excp,
                    (handed,),
                    next,
                );
            assert(Self::vectors(
                ExceptionClass::Synchronous,
                Origin::LowerAarch32,
                handed,
                next,
            ));
        }
        next
    }

    fn irq_ely_aarch32(frame: &mut ExceptionFrame) -> (next: Continuation) {
        let ghost before = *frame;
        let next = <T as Exceptions<ELy_AARCH32>>::irq(frame);
        proof {
            let handed = choose|handed: &mut ExceptionFrame|
                *handed == before && *final(handed) == *frame && #[trigger] call_ensures(
                    <T as Exceptions<ELy_AARCH32>>::irq,
                    (handed,),
                    next,
                );
            assert(Self::vectors(
                ExceptionClass::Irq,
                Origin::LowerAarch32,
                handed,
                next,
            ));
        }
        next
    }

    fn fiq_ely_aarch32(frame: &mut ExceptionFrame) -> (next: Continuation) {
        let ghost before = *frame;
        let next = <T as Exceptions<ELy_AARCH32>>::fiq(frame);
        proof {
            let handed = choose|handed: &mut ExceptionFrame|
                *handed == before && *final(handed) == *frame && #[trigger] call_ensures(
                    <T as Exceptions<ELy_AARCH32>>::fiq,
                    (handed,),
                    next,
                );
            assert(Self::vectors(
                ExceptionClass::Fiq,
                Origin::LowerAarch32,
                handed,
                next,
            ));
        }
        next
    }

    fn serror_ely_aarch32(frame: &mut ExceptionFrame) -> (next: Continuation) {
        let ghost before = *frame;
        let next = <T as Exceptions<ELy_AARCH32>>::serror(frame);
        proof {
            let handed = choose|handed: &mut ExceptionFrame|
                *handed == before && *final(handed) == *frame && #[trigger] call_ensures(
                    <T as Exceptions<ELy_AARCH32>>::serror,
                    (handed,),
                    next,
                );
            assert(Self::vectors(
                ExceptionClass::SError,
                Origin::LowerAarch32,
                handed,
                next,
            ));
        }
        next
    }
}

/// What a trampoline has done is what the handler behind it may do: either
/// the supplied handler of that origin and class ran, or the default did,
/// which hangs and leaves the frame untouched.
pub proof fn lemma_vectors_handled<T>(
    class: ExceptionClass,
    origin: Origin,
    frame: &mut ExceptionFrame,
    next: Continuation,
) where
    T: Exceptions<ELx_SP_EL0> + Exceptions<ELx_SP_ELx> + Exceptions<ELy_AARCH64> + Exceptions<
        ELy_AARCH32,
    >,

    requires
        <T as ExceptionVectors>::vectors(class, origin, frame, next),
    ensures
        handled_or_hung(
            match origin {
                Origin::CurrentSpEl0 => <T as Exceptions<ELx_SP_EL0>>::handles(
                    class,
                    *old(frame),
                    *final(frame),
                    next,
                ),
                Origin::CurrentSpElx => <T as Exceptions<ELx_SP_ELx>>::handles(
                    class,
                    *old(frame),
                    *final(frame),
                    next,
                ),
                Origin::LowerAarch64 => <T as Exceptions<ELy_AARCH64>>::handles(
                    class,
                    *old(frame),
                    *final(frame),
                    next,
                ),
                Origin::LowerAarch32 => <T as Exceptions<ELy_AARCH32>>::handles(
                    class,
                    *old(frame),
                    *final(frame),
                    next,
                ),
            },
            *old(frame),
            *final(frame),
            next,
        ),
{
}

/// The handler set that supplies no handler: every exception hangs.
pub struct DefaultExceptions;

impl Exceptions<ELx_SP_EL0> for DefaultExceptions {
    open spec fn handles(
        class: ExceptionClass,
        before: ExceptionFrame,
        after: ExceptionFrame,
        next: Continuation,
    ) -> bool {
        false
    }
}

impl Exceptions<ELx_SP_ELx> for DefaultExceptions {
    open spec fn handles(
        class: ExceptionClass,
        before: ExceptionFrame,
        after: ExceptionFrame,
        next: Continuation,
    ) -> bool {
        false
    }
}

impl Exceptions<ELy_AARCH64> for DefaultExceptions {
    open spec fn handles(
        class: ExceptionClass,
        before: ExceptionFrame,
        after: ExceptionFrame,
        next: Continuation,
    ) -> bool {
        false
    }
}

impl Exceptions<ELy_AARCH32> for DefaultExceptions {
    open spec fn handles(
        class: ExceptionClass,
        before: ExceptionFrame,
        after: ExceptionFrame,
        next: Continuation,
    ) -> bool {
        false
    }
}

/// Takes the exception whose vector lies `offset` bytes from the base of
/// the table: runs the trampoline of that slot on `frame` and gives back
/// its result.
///
/// Where no slot starts at `offset`, nothing runs and the frame is left as
/// it was.
pub fn vector_table<ExcpVecs: ExceptionVectors>(offset: u64, frame: &mut ExceptionFrame) -> (next:
    Option<Continuation>)
    ensures
        match slot_at(offset as int) {
            Some((class, origin)) => next matches Some(n) && exists|handed: &mut ExceptionFrame|
                *handed == *old(frame) && *final(handed) == *final(frame)
                    && #[trigger] ExcpVecs::vectors(class, origin, handed, n),
            None => next is None && *final(frame) == *old(frame),
        },
{
    match vector_slot(offset) {
        None => None,
        Some((ExceptionClass::Synchronous, Origin::CurrentSpEl0)) => Some(
            ExcpVecs::sync_excp_elx_sp_el0(frame),
        ),
        Some((ExceptionClass::Irq, Origin::CurrentSpEl0)) => Some(
            ExcpVecs::irq_elx_sp_el0(frame),
        ),
        Some((ExceptionClass::Fiq, Origin::CurrentSpEl0)) => Some(
            ExcpVecs::fiq_elx_sp_el0(frame),
        ),
        Some((ExceptionClass::SError, Origin::CurrentSpEl0)) => Some(
            ExcpVecs::serror_elx_sp_el0(frame),
        ),
        Some((ExceptionClass::Synchronous, Origin::CurrentSpElx)) => Some(
            ExcpVecs::sync_excp_elx_sp_elx(frame),
        ),
        Some((ExceptionClass::Irq, Origin::CurrentSpElx)) => Some(
            ExcpVecs::irq_elx_sp_elx(frame),
        ),
        Some((ExceptionClass::Fiq, Origin::CurrentSpElx)) => Some(
            ExcpVecs::fiq_elx_sp_elx(frame),
        ),
        Some((ExceptionClass::SError, Origin::CurrentSpElx)) => Some(
            ExcpVecs::serror_elx_sp_elx(frame),
        ),
        Some((ExceptionClass::Synchronous, Origin::LowerAarch64)) => Some(
            ExcpVecs::sync_excp_ely_aarch64(frame),
        ),
        Some((ExceptionClass::Irq, Origin::LowerAarch64)) => Some(
            ExcpVecs::irq_ely_aarch64(frame),
        ),
        Some((ExceptionClass::Fiq, Origin::LowerAarch64)) => Some(
            ExcpVecs::fiq_ely_aarch64(frame),
        ),
        Some((ExceptionClass::SError, Origin::LowerAarch64)) => Some(
            ExcpVecs::serror_ely_aarch64(frame),
        ),
        Some((ExceptionClass::Synchronous, Origin::LowerAarch32)) => Some(
            ExcpVecs::sync_excp_ely_aarch32(frame),
        ),
        Some((ExceptionClass::Irq, Origin::LowerAarch32)) => Some(
            ExcpVecs::irq_ely_aarch32(frame),
        ),
        Some((ExceptionClass::Fiq, Origin::LowerAarch32)) => Some(
            ExcpVecs::fiq_ely_aarch32(frame),
        ),
        Some((ExceptionClass::SError, Origin::LowerAarch32)) => Some(
            ExcpVecs::serror_ely_aarch32(frame),
        ),
    }
}

/// With the default handler set every slot of the table hangs and leaves
/// the frame untouched.
pub proof fn lemma_default_hangs(
    class: ExceptionClass,
    origin: Origin,
    frame: &mut ExceptionFrame,
    next: Continuation,
)
    requires
        <DefaultExceptions as ExceptionVectors>::vectors(class, origin, frame, next),
    ensures
        next == Continuation::Hang,
        *final(frame) == *old(frame),
{
}

} // verus!
