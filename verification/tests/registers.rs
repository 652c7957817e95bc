use arm64::critical_section::{Acquire, GlobalLock};
use arm64::registers::{
    BitField, BitFieldEnum, BitFieldValue, LocalRegisterCopy, ReadOnly, ReadRegister, ReadWrite,
    RegisterName, UInt, WriteOnly, WriteRegister,
};
use arm64::smccc::{Smccc, HVC, SMC};

struct Control;

impl RegisterName for Control {}

struct Status;

impl RegisterName for Status {}

#[derive(Debug, PartialEq)]
enum Mode {
    Idle,
    Run,
    Sleep,
}

impl BitFieldEnum for Mode {
    type T = u32;
    type R = Control;

    fn try_from_value(value: u32) -> Option<Self> {
        match value {
            0 => Some(Mode::Idle),
            1 => Some(Mode::Run),
            2 => Some(Mode::Sleep),
            _ => None,
        }
    }

    fn into_value(self) -> u32 {
        match self {
            Mode::Idle => 0,
            Mode::Run => 1,
            Mode::Sleep => 2,
        }
    }
}

#[test]
fn bit_field_reads_its_bits() {
    let field: BitField<u32, (), Control> = BitField::new(0x7, 4);
    assert_eq!(field.read(0xffff_ff5f), 5);
    assert_eq!(field.read(0x0000_000f), 0);
    let top: BitField<u64, (), Control> = BitField::new(0x3, 62);
    assert_eq!(top.read(0x8000_0000_0000_0000), 2);
    let byte: BitField<u8, (), Control> = BitField::new(0x1, 7);
    assert_eq!(byte.read(0x80), 1);
    let wide: BitField<u128, (), Control> = BitField::new(0xff, 120);
    assert_eq!(wide.read(0xab << 120), 0xab);
    let half: BitField<u16, (), Control> = BitField::new(0xf, 12);
    assert_eq!(half.read(0x9000), 9);
}

#[test]
fn bit_field_value_round_trip() {
    let field: BitField<u64, (), Control> = BitField::new(0xff, 16);
    let value = field.val(0x1a5);
    assert_eq!((value.mask, value.value), (0xff_0000, 0xa5_0000));
    let register = 0x1234_5678_9abc_def0u64;
    let written = value.write(register);
    assert_eq!(written, 0x1234_5678_9aa5_def0);
    assert_eq!(field.read(written), 0xa5);
    assert_eq!(field.val(field.read(register)).write(register), register);
}

#[test]
fn bit_field_values_combine() {
    let low: BitField<u32, (), Control> = BitField::new(0xf, 0);
    let high: BitField<u32, (), Control> = BitField::new(0xf, 28);
    let both = low.val(0x3).bitor(high.val(0xc));
    assert_eq!((both.mask, both.value), (0xf000_000f, 0xc000_0003));
    assert_eq!(both.write(0x0fff_fff0), 0xcfff_fff3);
    let mut value: BitFieldValue<u32, Control> = low.val(0x1);
    value.bitor_assign(high.val(0x2));
    assert_eq!(value.write(0), 0x2000_0001);
}

#[test]
fn bit_field_decodes_its_enumeration() {
    let field: BitField<u32, Mode, Control> = BitField::new(0x3, 8);
    assert_eq!(field.read_enum(0x100), Some(Mode::Run));
    assert_eq!(field.read_enum(0x2ff), Some(Mode::Sleep));
    assert_eq!(field.read_enum(0x0ff), Some(Mode::Idle));
    assert_eq!(field.read_enum(0x300), None);
    assert_eq!(Mode::Sleep.into_value(), 2);
}

#[test]
fn unsigned_integers_have_their_constants() {
    assert_eq!(<u8 as UInt>::ZERO, 0);
    assert_eq!(<u16 as UInt>::ONE, 1);
    assert_eq!(0xf0u8.bit_and(0x3c), 0x30);
    assert_eq!(0xf0u16.bit_or(0x0f), 0xff);
    assert_eq!(0u32.bit_not(), u32::MAX);
    assert_eq!(1u64.shift_left(63), 1 << 63);
    assert_eq!((1u128 << 127).shift_right(127), 1);
}

#[test]
fn local_copy_holds_the_value() {
    let mut copy: LocalRegisterCopy<u32, Status> = LocalRegisterCopy::new(5);
    assert_eq!(copy.get_value(), 5);
    copy.set_value(9);
    assert_eq!(copy.get_value(), 9);
    assert_eq!(LocalRegisterCopy::<u64, Status, Control>::default().get_value(), 0);
    let copy: LocalRegisterCopy<u16, Status> = LocalRegisterCopy::from(0xbeef);
    assert_eq!(u16::from(copy), 0xbeef);
    let copy: LocalRegisterCopy<u128, Status> = 7u128.into();
    assert_eq!(u128::from(copy), 7);
}

#[test]
fn registers_read_and_write_their_content() {
    let read_only: ReadOnly<u32, Status> = ReadOnly::new(3475457);
    assert_eq!(read_only.get_value(), 3475457);
    assert_eq!(read_only.get().get_value(), 3475457);
    assert_eq!(ReadOnly::<u8, Status>::default().get_value(), 0);

    let mut write_only: WriteOnly<u16, Control> = WriteOnly::default();
    write_only.set_value(0x55);
    assert_eq!(write_only.value, 0x55);
    write_only.set(LocalRegisterCopy::new(0x66));
    assert_eq!(write_only.value, 0x66);
    assert_eq!(WriteOnly::<u16, Control>::new(4).value, 4);

    let mut both: ReadWrite<u64, Status, Control> = ReadWrite::new(1);
    assert_eq!(both.get_value(), 1);
    both.set_value(2);
    assert_eq!(both.get().get_value(), 2);
    both.set(LocalRegisterCopy::new(3));
    assert_eq!(both.get_value(), 3);
    assert_eq!(ReadWrite::<u64, Status>::default().get_value(), 0);
}

#[test]
fn request_registers_start_with_the_function() {
    assert_eq!(
        Smccc::<SMC>::request32(0x8400_0003, [1, 2, 3, 4, 5, 6, 7]),
        [0x8400_0003, 1, 2, 3, 4, 5, 6, 7]
    );
    let mut args = [0u64; 17];
    for (index, arg) in args.iter_mut().enumerate() {
        *arg = 0x100 + index as u64;
    }
    let regs = Smccc::<HVC>::request64(0xc400_0003, args);
    assert_eq!(regs[0], 0xc400_0003);
    assert_eq!(regs[1..], args);
}

#[test]
fn reply_is_an_error_when_the_first_register_is_negative() {
    let ok = [5, 1, 2, 3, 4, 5, 6, 7];
    assert_eq!(Smccc::<SMC>::reply32(ok), Ok(ok));
    assert_eq!(Smccc::<SMC>::reply32([0x7fff_ffff, 0, 0, 0, 0, 0, 0, 0]).unwrap()[0], 0x7fff_ffff);
    assert_eq!(Smccc::<HVC>::reply32([0xffff_fffc, 9, 9, 9, 9, 9, 9, 9]), Err(-4));
    assert_eq!(Smccc::<HVC>::reply32([0x8000_0000, 0, 0, 0, 0, 0, 0, 0]), Err(i32::MIN));
    assert_eq!(Smccc::<SMC>::reply32([0xffff_ffff, 0, 0, 0, 0, 0, 0, 0]), Err(-1));

    let mut regs = [0u64; 18];
    regs[17] = 3;
    assert_eq!(Smccc::<SMC>::reply64(regs), Ok(regs));
    regs[0] = 0xffff_ffff_ffff_ffd6;
    assert_eq!(Smccc::<SMC>::reply64(regs), Err(-42));
    regs[0] = 0x8000_0000_0000_0000;
    assert_eq!(Smccc::<HVC>::reply64(regs), Err(i64::MIN));
    regs[0] = 0xffff_fffc;
    assert_eq!(Smccc::<HVC>::reply64(regs), Ok(regs));
}

#[test]
fn global_lock_admits_one_holder() {
    let mut lock = GlobalLock::new();
    assert_eq!(lock.acquire(false), Acquire::Retry);
    assert_eq!(lock.word, 0);
    assert_eq!(lock.acquire(true), Acquire::Acquired);
    assert_eq!(lock.word, 1);
    assert_eq!(lock.acquire(true), Acquire::Held);
    assert_eq!(lock.acquire(false), Acquire::Held);
    assert_eq!(lock.word, 1);
    lock.release();
    assert_eq!(lock.word, 0);
    assert_eq!(lock.acquire(true), Acquire::Acquired);
}

#[test]
fn fields_round_trip_at_every_width() {
    let narrow: BitField<u8, (), Control> = BitField::new(0x7, 5);
    for register in [0u8, 0x1f, 0xa5, 0xff] {
        for value in 0..8u8 {
            let written = narrow.val(value).write(register);
            assert_eq!(narrow.read(written), value);
            assert_eq!(written & 0x1f, register & 0x1f);
        }
        assert_eq!(narrow.val(narrow.read(register)).write(register), register);
    }
    let half: BitField<u16, (), Control> = BitField::new(0x3f, 10);
    assert_eq!(half.read(half.val(0x7f).write(0xffff)), 0x3f);
    assert_eq!(half.val(half.read(0x1234)).write(0x1234), 0x1234);
    let word: BitField<u32, (), Control> = BitField::new(0xfff, 20);
    assert_eq!(word.read(word.val(0xabc).write(0x1234_5678)), 0xabc);
    assert_eq!(word.val(0xabc).write(0x1234_5678), 0xabc4_5678);
    assert_eq!(word.val(word.read(0xdead_beef)).write(0xdead_beef), 0xdead_beef);
    let wide: BitField<u128, (), Control> = BitField::new(0xffff, 112);
    let register = 0x0123_4567_89ab_cdef_0123_4567_89ab_cdefu128;
    assert_eq!(wide.read(wide.val(0xbeef).write(register)), 0xbeef);
    assert_eq!(wide.val(wide.read(register)).write(register), register);
}
