use arm64::exceptions::{
    vector_offset, vector_slot, vector_table, Continuation, DefaultExceptions, ELx_SP_EL0,
    ELx_SP_ELx, ELy_AARCH32, ELy_AARCH64, ExceptionClass, ExceptionFrame, ExceptionVectors,
    Exceptions, Origin,
};

struct Excps;

impl Exceptions<ELx_SP_EL0> for Excps {}

impl Exceptions<ELx_SP_ELx> for Excps {
    fn sync_excp(frame: &mut ExceptionFrame) -> Continuation {
        frame.lr += 4;
        Continuation::Return
    }

    fn serror(_frame: &mut ExceptionFrame) -> Continuation {
        Continuation::Hang
    }
}

impl Exceptions<ELy_AARCH64> for Excps {
    fn irq(frame: &mut ExceptionFrame) -> Continuation {
        frame.x0 = 0x64;
        Continuation::Return
    }
}

impl Exceptions<ELy_AARCH32> for Excps {
    fn fiq(frame: &mut ExceptionFrame) -> Continuation {
        frame.x0 = 0x32;
        Continuation::Return
    }
}

const CLASSES: [ExceptionClass; 4] = [
    ExceptionClass::Synchronous,
    ExceptionClass::Irq,
    ExceptionClass::Fiq,
    ExceptionClass::SError,
];

const ORIGINS: [Origin; 4] = [
    Origin::CurrentSpEl0,
    Origin::CurrentSpElx,
    Origin::LowerAarch64,
    Origin::LowerAarch32,
];

fn zero_frame() -> ExceptionFrame {
    ExceptionFrame::from_words(&[0; 22])
}

#[test]
fn default_handlers_hang() {
    for slot in 0..16 {
        let mut frame = zero_frame();
        frame.x5 = slot;
        let before = frame;
        assert_eq!(
            vector_table::<DefaultExceptions>(slot * 0x80, &mut frame),
            Some(Continuation::Hang)
        );
        assert_eq!(frame, before);
    }
}

#[test]
fn supplied_handler_may_change_the_frame() {
    let mut frame = zero_frame();
    assert_eq!(vector_table::<Excps>(0x200, &mut frame), Some(Continuation::Return));
    assert_eq!(frame.lr, 4);
    assert_eq!(vector_table::<Excps>(0x280, &mut frame), Some(Continuation::Hang));
    assert_eq!(vector_table::<Excps>(0x380, &mut frame), Some(Continuation::Hang));
    assert_eq!(vector_table::<Excps>(0x480, &mut frame), Some(Continuation::Return));
    assert_eq!(frame.x0, 0x64);
    assert_eq!(vector_table::<Excps>(0x700, &mut frame), Some(Continuation::Return));
    assert_eq!(frame.x0, 0x32);
    assert_eq!(vector_table::<Excps>(0x000, &mut frame), Some(Continuation::Hang));
}

#[test]
fn offsets_between_slots_take_no_exception() {
    let mut frame = zero_frame();
    for offset in [0x1, 0x7f, 0x281, 0x800, 0x880, u64::MAX] {
        assert_eq!(vector_table::<Excps>(offset, &mut frame), None);
    }
    assert_eq!(frame, zero_frame());
}

#[test]
fn trampolines_call_the_handler_of_their_slot() {
    let mut frame = zero_frame();
    assert_eq!(Excps::sync_excp_elx_sp_elx(&mut frame), Continuation::Return);
    assert_eq!(Excps::irq_ely_aarch64(&mut frame), Continuation::Return);
    assert_eq!(Excps::fiq_ely_aarch32(&mut frame), Continuation::Return);
    assert_eq!(Excps::serror_elx_sp_elx(&mut frame), Continuation::Hang);
    assert_eq!(Excps::sync_excp_elx_sp_el0(&mut frame), Continuation::Hang);
    assert_eq!(DefaultExceptions::irq_elx_sp_el0(&mut frame), Continuation::Hang);
    assert_eq!(<DefaultExceptions as Exceptions<ELx_SP_ELx>>::fiq(&mut frame), Continuation::Hang);
}

#[test]
fn vector_table_has_sixteen_aligned_slots() {
    let mut offsets = Vec::new();
    for (group, origin) in ORIGINS.into_iter().enumerate() {
        for (entry, class) in CLASSES.into_iter().enumerate() {
            let offset = vector_offset(class, origin);
            assert_eq!(offset, (group as u64) * 0x200 + (entry as u64) * 0x80);
            assert_eq!(vector_slot(offset), Some((class, origin)));
            offsets.push(offset);
        }
    }
    assert_eq!(offsets, (0..16).map(|slot| slot * 0x80).collect::<Vec<u64>>());
    assert_eq!(vector_slot(0x780), Some((ExceptionClass::SError, Origin::LowerAarch32)));
    assert_eq!(vector_slot(0x800), None);
    assert_eq!(vector_slot(0x40), None);
}

#[test]
fn frame_holds_the_saved_registers_in_stack_order() {
    let mut regs = [0u64; 31];
    for (index, reg) in regs.iter_mut().enumerate() {
        *reg = 0x100 + index as u64;
    }
    let frame = ExceptionFrame::save(&regs);
    assert_eq!(frame.x0, 0x100);
    assert_eq!(frame.x18, 0x112);
    assert_eq!(frame.fp, 0x11d);
    assert_eq!(frame.lr, 0x11e);
    assert_eq!(frame.xzr, 0);
    let words = frame.to_words();
    assert_eq!(words.len() * 8, 176);
    assert_eq!(words[..19], regs[..19]);
    assert_eq!(words[19..], [0x11d, 0x11e, 0]);
    assert_eq!(ExceptionFrame::from_words(&words), frame);
}

#[test]
fn restore_brings_back_what_the_handler_left_in_the_frame() {
    let mut regs = [7u64; 31];
    let mut frame = ExceptionFrame::save(&regs);
    let mut same = [9u64; 31];
    same[19..29].copy_from_slice(&regs[19..29]);
    frame.restore(&mut same);
    assert_eq!(same, regs);

    frame.x1 = 0x11;
    frame.lr = 0x2000;
    frame.fp = 0x3000;
    frame.xzr = 0xdead;
    regs[20] = 0x55;
    frame.restore(&mut regs);
    let mut expected = [7u64; 31];
    expected[1] = 0x11;
    expected[20] = 0x55;
    expected[29] = 0x3000;
    expected[30] = 0x2000;
    assert_eq!(regs, expected);
}
