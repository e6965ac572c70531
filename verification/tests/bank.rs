use mips_runner::bank::RegisterBank;
use mips_runner::engine::Engine;
use mips_runner::error::EngineError;
use mips_runner::registers::{RegisterInfo, Registers, StackRegister};

fn bank() -> RegisterBank {
    RegisterBank::new(RegisterInfo::new(15, 29), 32)
}

#[test]
fn fresh_bank_holds_zeroes() {
    let bank = bank();
    for reg in 0..32 {
        assert_eq!(bank.read(reg), Ok(0));
    }
    assert_eq!(bank.pc(), Ok(0));
    assert_eq!(bank.sp(), Ok(0));
    assert_eq!(bank.register_info(), RegisterInfo::new(15, 29));
}

#[test]
fn read_returns_what_was_written() {
    let mut bank = bank();
    let values: [u64; 5] = [0, 1, 0xdead_beef, 1 << 63, u64::MAX];
    for reg in 0..32 {
        for value in values {
            assert_eq!(bank.write(reg, value), Ok(()));
            assert_eq!(bank.read(reg), Ok(value));
        }
    }
}

#[test]
fn write_changes_one_register_only() {
    let mut bank = bank();
    assert_eq!(bank.write(3, 33), Ok(()));
    assert_eq!(bank.write(4, 44), Ok(()));
    assert_eq!(bank.read(3), Ok(33));
    assert_eq!(bank.read(4), Ok(44));
    assert_eq!(bank.read(5), Ok(0));
}

#[test]
fn unknown_register_is_an_invalid_argument() {
    let mut bank = bank();
    for reg in [-1, 32, 33, i32::MIN, i32::MAX] {
        assert_eq!(bank.read(reg), Err(EngineError::Arg));
        assert_eq!(bank.write(reg, 7), Err(EngineError::Arg));
        assert_eq!(bank.reg_read(reg), Err(EngineError::Arg));
        assert_eq!(bank.reg_write(reg, 7), Err(EngineError::Arg));
    }
    for reg in 0..32 {
        assert_eq!(bank.read(reg), Ok(0));
    }
}

#[test]
fn empty_bank_has_no_register() {
    let mut bank = RegisterBank::new(RegisterInfo::new(0, 1), 0);
    assert_eq!(bank.read(0), Err(EngineError::Arg));
    assert_eq!(bank.pc(), Err(EngineError::Arg));
    assert_eq!(bank.set_pc(1), Err(EngineError::Arg));
    assert_eq!(bank.sp(), Err(EngineError::Arg));
    assert_eq!(bank.set_sp(1), Err(EngineError::Arg));
    assert_eq!(bank.incr_sp(1), Err(EngineError::Arg));
}

#[test]
fn pc_returns_what_was_set() {
    let mut bank = bank();
    for value in [0, 0x0040_0000, 0xbfc0_0000, u64::MAX] {
        assert_eq!(bank.set_pc(value), Ok(()));
        assert_eq!(bank.pc(), Ok(value));
    }
}

#[test]
fn sp_returns_what_was_set() {
    let mut bank = bank();
    for value in [0, 0x7fff_fff0, 1 << 40, u64::MAX] {
        assert_eq!(bank.set_sp(value), Ok(()));
        assert_eq!(bank.sp(), Ok(value));
    }
}

#[test]
fn pc_goes_through_index_15() {
    let mut bank = bank();
    assert_eq!(bank.write(15, 0x1234), Ok(()));
    assert_eq!(bank.pc(), Ok(0x1234));
    assert_eq!(bank.sp(), Ok(0));
    assert_eq!(bank.set_pc(0x5678), Ok(()));
    assert_eq!(bank.read(15), Ok(0x5678));
    assert_eq!(bank.read(29), Ok(0));
}

#[test]
fn sp_goes_through_index_29() {
    let mut bank = bank();
    assert_eq!(bank.write(29, 0x8000), Ok(()));
    assert_eq!(bank.sp(), Ok(0x8000));
    assert_eq!(bank.pc(), Ok(0));
    assert_eq!(bank.set_sp(0x9000), Ok(()));
    assert_eq!(bank.read(29), Ok(0x9000));
    assert_eq!(bank.incr_sp(-0x10), Ok(0x8ff0));
    assert_eq!(bank.read(29), Ok(0x8ff0));
    assert_eq!(bank.read(15), Ok(0));
}

#[test]
fn roles_may_share_a_register() {
    let mut bank = RegisterBank::new(RegisterInfo::new(2, 2), 4);
    assert_eq!(bank.set_pc(10), Ok(()));
    assert_eq!(bank.sp(), Ok(10));
    assert_eq!(bank.incr_sp(5), Ok(15));
    assert_eq!(bank.pc(), Ok(15));
}

#[test]
fn role_outside_the_bank_fails_at_access() {
    let mut bank = RegisterBank::new(RegisterInfo::new(40, -3), 32);
    assert_eq!(bank.pc(), Err(EngineError::Arg));
    assert_eq!(bank.set_pc(1), Err(EngineError::Arg));
    assert_eq!(bank.sp(), Err(EngineError::Arg));
    assert_eq!(bank.set_sp(1), Err(EngineError::Arg));
    assert_eq!(bank.incr_sp(0), Err(EngineError::Arg));
    assert_eq!(bank.read(0), Ok(0));
}

#[test]
fn incr_sp_returns_the_sum_and_writes_it() {
    let mut bank = bank();
    assert_eq!(bank.set_sp(0x1000), Ok(()));
    assert_eq!(bank.incr_sp(0x20), Ok(0x1020));
    assert_eq!(bank.sp(), Ok(0x1020));
    assert_eq!(bank.incr_sp(-0x30), Ok(0xff0));
    assert_eq!(bank.sp(), Ok(0xff0));
    assert_eq!(bank.incr_sp(0), Ok(0xff0));
    assert_eq!(bank.sp(), Ok(0xff0));
}

#[test]
fn incr_sp_reaches_both_ends_of_the_range() {
    let mut bank = bank();
    assert_eq!(bank.set_sp(1), Ok(()));
    assert_eq!(bank.incr_sp(-1), Ok(0));
    assert_eq!(bank.sp(), Ok(0));
    assert_eq!(bank.set_sp(u64::MAX - 1), Ok(()));
    assert_eq!(bank.incr_sp(1), Ok(u64::MAX));
    assert_eq!(bank.sp(), Ok(u64::MAX));
    assert_eq!(bank.incr_sp(i64::MIN), Ok(0x7fff_ffff_ffff_ffff));
    assert_eq!(bank.sp(), Ok(0x7fff_ffff_ffff_ffff));
}

#[test]
fn incr_sp_below_zero_fails_and_keeps_sp() {
    let mut bank = bank();
    assert_eq!(bank.sp(), Ok(0));
    assert_eq!(bank.incr_sp(-1), Err(EngineError::Exception));
    assert_eq!(bank.sp(), Ok(0));
}

#[test]
fn incr_sp_above_maximum_fails_and_keeps_sp() {
    let mut bank = bank();
    assert_eq!(bank.set_sp(u64::MAX), Ok(()));
    assert_eq!(bank.incr_sp(1), Err(EngineError::Exception));
    assert_eq!(bank.sp(), Ok(u64::MAX));
}

#[test]
fn failed_incr_sp_touches_no_register() {
    let mut bank = bank();
    for reg in 0..32 {
        assert_eq!(bank.write(reg, 100 + reg as u64), Ok(()));
    }
    assert_eq!(bank.incr_sp(-200), Err(EngineError::Exception));
    for reg in 0..32 {
        assert_eq!(bank.read(reg), Ok(100 + reg as u64));
    }
}

#[test]
fn pc_keeps_its_value_while_sp_is_written() {
    let mut bank = bank();
    assert_eq!(bank.write(15, 0xaaaa), Ok(()));
    assert_eq!(bank.write(29, 0xbbbb), Ok(()));
    assert_eq!(bank.pc(), Ok(0xaaaa));
    assert_eq!(bank.read(15), Ok(0xaaaa));
}

#[test]
fn sp_keeps_its_value_while_pc_is_written() {
    let mut bank = bank();
    assert_eq!(bank.write(29, 0xaaaa), Ok(()));
    assert_eq!(bank.write(15, 0xbbbb), Ok(()));
    assert_eq!(bank.sp(), Ok(0xaaaa));
    assert_eq!(bank.read(29), Ok(0xaaaa));
}

#[test]
fn set_pc_leaves_the_stack_pointer() {
    let mut bank = bank();
    assert_eq!(bank.write(29, 0x7000), Ok(()));
    for value in [0, 1, 0x0040_0000, u64::MAX] {
        assert_eq!(bank.set_pc(value), Ok(()));
        assert_eq!(bank.read(15), Ok(value));
        assert_eq!(bank.read(29), Ok(0x7000));
    }
}

#[test]
fn set_sp_leaves_the_program_counter() {
    let mut bank = bank();
    assert_eq!(bank.write(15, 0x0040_0000), Ok(()));
    for value in [0, 1, 0x7000, u64::MAX] {
        assert_eq!(bank.set_sp(value), Ok(()));
        assert_eq!(bank.read(29), Ok(value));
        assert_eq!(bank.read(15), Ok(0x0040_0000));
    }
}

#[test]
fn incr_sp_leaves_the_program_counter() {
    let mut bank = bank();
    assert_eq!(bank.write(15, 7), Ok(()));
    assert_eq!(bank.write(29, 1), Ok(()));
    assert_eq!(bank.incr_sp(-1), Ok(0));
    assert_eq!(bank.read(29), Ok(0));
    assert_eq!(bank.read(15), Ok(7));
}

#[test]
fn successful_write_leaves_every_other_register() {
    let mut bank = bank();
    for reg in 0..32 {
        assert_eq!(bank.write(reg, 1000 + reg as u64), Ok(()));
    }
    for written in 0..32 {
        assert_eq!(bank.write(written, 5), Ok(()));
        for reg in 0..32 {
            let expected = if reg <= written { 5 } else { 1000 + reg as u64 };
            assert_eq!(bank.read(reg), Ok(expected));
        }
        assert_eq!(bank.register_info(), RegisterInfo::new(15, 29));
    }
}

#[test]
fn write_fails_exactly_where_read_fails() {
    let mut bank = bank();
    for reg in -3..36 {
        let read = bank.read(reg);
        for value in [0, 9, u64::MAX] {
            let write = bank.write(reg, value);
            assert_eq!(write.is_err(), read.is_err());
            if let Err(error) = write {
                assert_eq!(read, Err(error));
            }
        }
    }
}

#[test]
fn read_succeeds_after_a_successful_write() {
    let mut bank = bank();
    for reg in -3..36 {
        if bank.write(reg, 77) == Ok(()) {
            assert_eq!(bank.read(reg), Ok(77));
        }
    }
}
