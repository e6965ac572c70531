//! What holds of sequences of calls.
//!
//! Each law speaks of the register file before and after the calls, through
//! the predicates that the calls ensure: `reads` for `read`, `pc` and `sp`,
//! `writes` for `write`, `set_pc` and `set_sp`, `moves_sp` for `incr_sp`.
//! A register keeps a value unchanged only if the value fits it, and two
//! registers that share storage change together, so the laws speak of the
//! values that fit and of the registers that stand alone.

use crate::error::EngineError;
use crate::registers::{offset_in_range, RegisterFile};
use vstd::prelude::*;

verus! {

/// Read after write: where a write of `value` to `reg` succeeded and the
/// register holds the value unchanged, a read of `reg`, with no instruction
/// run in between, returns `value`.
pub proof fn read_after_write(
    before: RegisterFile,
    after: RegisterFile,
    reg: i32,
    value: u64,
    got: Result<u64, EngineError>,
)
    requires
        before.fits(reg, value),
        before.writes(reg, value, Ok(()), after),
        after.reads(reg, got),
    ensures
        got == Ok::<u64, EngineError>(value),
{
}

/// The program counter after it was set: where `set_pc(value)` succeeded
/// and the register holds the value unchanged, `pc()` returns `value`.
pub proof fn pc_after_set_pc(
    before: RegisterFile,
    after: RegisterFile,
    value: u64,
    got: Result<u64, EngineError>,
)
    requires
        before.fits(before.info.pc, value),
        before.writes(before.info.pc, value, Ok(()), after),
        after.reads(after.info.pc, got),
    ensures
        got == Ok::<u64, EngineError>(value),
        after.pc() == value,
{
    read_after_write(before, after, before.info.pc, value, got);
}

/// The stack pointer after it was set: where `set_sp(value)` succeeded and
/// the register holds the value unchanged, `sp()` returns `value`.
pub proof fn sp_after_set_sp(
    before: RegisterFile,
    after: RegisterFile,
    value: u64,
    got: Result<u64, EngineError>,
)
    requires
        before.fits(before.info.sp, value),
        before.writes(before.info.sp, value, Ok(()), after),
        after.reads(after.info.sp, got),
    ensures
        got == Ok::<u64, EngineError>(value),
        after.sp() == value,
{
    read_after_write(before, after, before.info.sp, value, got);
}

/// A write fails as a read does: on a value that the engine does not
/// refuse, a write to `reg` fails exactly where a read of `reg` fails; and
/// a write that fails returns the engine's error and changes nothing.
pub proof fn write_fails_as_read_fails(
    before: RegisterFile,
    after: RegisterFile,
    reg: i32,
    value: u64,
    res: Result<(), EngineError>,
    read: Result<u64, EngineError>,
)
    requires
        !before.refuses(reg, value),
        before.writes(reg, value, res, after),
        before.reads(reg, read),
    ensures
        res is Err <==> read is Err,
        res is Err ==> after == before && res == (before.write_answers)(reg, value),
{
}

/// A write is to one register: where a write to `reg` succeeded, every
/// other register that does not share storage with `reg` reads as it read
/// before, and the roles are as before.
pub proof fn write_keeps_other_registers(
    before: RegisterFile,
    after: RegisterFile,
    reg: i32,
    value: u64,
    other: i32,
    was: u64,
    got: Result<u64, EngineError>,
)
    requires
        other != reg,
        !before.overlaps(reg, other),
        before.reads(other, Ok(was)),
        before.writes(reg, value, Ok(()), after),
        after.reads(other, got),
    ensures
        got == Ok::<u64, EngineError>(was),
        after.info == before.info,
{
}

/// A register keeps what was written to it while another is written: where
/// a write of `value` to `first` and then a write to `second` succeeded,
/// `first` holds the value unchanged and does not share storage with
/// `second`, a read of `first` returns `value`.
pub proof fn read_after_two_writes(
    before: RegisterFile,
    between: RegisterFile,
    after: RegisterFile,
    first: i32,
    value: u64,
    second: i32,
    other_value: u64,
    got: Result<u64, EngineError>,
)
    requires
        first != second,
        !before.overlaps(second, first),
        before.fits(first, value),
        before.writes(first, value, Ok(()), between),
        between.writes(second, other_value, Ok(()), after),
        after.reads(first, got),
    ensures
        got == Ok::<u64, EngineError>(value),
{
}

/// A stack pointer adjustment in range: where the stack pointer reads as
/// `current`, the sum `current + delta` is representable in 64 bits
/// unsigned and the engine does not refuse it, `incr_sp(delta)` returns the
/// sum; and where the register holds the sum unchanged, `sp()` returns the
/// sum afterwards.
pub proof fn incr_sp_in_range(
    before: RegisterFile,
    after: RegisterFile,
    current: u64,
    delta: i64,
    res: Result<u64, EngineError>,
    got: Result<u64, EngineError>,
)
    requires
        before.reads(before.info.sp, Ok(current)),
        offset_in_range(current, delta),
        !before.refuses(before.info.sp, (current + delta) as u64),
        before.moves_sp(delta, res, after),
        after.reads(after.info.sp, got),
    ensures
        res == Ok::<u64, EngineError>((current + delta) as u64),
        before.fits(before.info.sp, (current + delta) as u64) ==> got == res,
{
}

/// A stack pointer adjustment out of range: where the stack pointer reads
/// as `current` and the sum `current + delta` is not representable in 64
/// bits unsigned, `incr_sp(delta)` fails with the exception kind and
/// changes nothing, so that `sp()` returns `current` afterwards.
pub proof fn incr_sp_out_of_range(
    before: RegisterFile,
    after: RegisterFile,
    current: u64,
    delta: i64,
    res: Result<u64, EngineError>,
    got: Result<u64, EngineError>,
)
    requires
        before.reads(before.info.sp, Ok(current)),
        !offset_in_range(current, delta),
        before.moves_sp(delta, res, after),
        after.reads(after.info.sp, got),
    ensures
        res == Err::<u64, EngineError>(EngineError::Exception),
        after == before,
        got == Ok::<u64, EngineError>(current),
{
}

/// A failed stack pointer adjustment, whatever made it fail, leaves every
/// register as it was.
pub proof fn incr_sp_failure_keeps_file(
    before: RegisterFile,
    after: RegisterFile,
    delta: i64,
    res: Result<u64, EngineError>,
)
    requires
        before.moves_sp(delta, res, after),
        res is Err,
    ensures
        after == before,
{
}

/// A stack pointer adjustment is a write to one register: where
/// `incr_sp(delta)` succeeded, every other register that does not share
/// storage with the stack pointer reads as it read before.
pub proof fn incr_sp_keeps_other_registers(
    before: RegisterFile,
    after: RegisterFile,
    delta: i64,
    res: Result<u64, EngineError>,
    other: i32,
    was: u64,
    got: Result<u64, EngineError>,
)
    requires
        other != before.info.sp,
        !before.overlaps(before.info.sp, other),
        before.reads(other, Ok(was)),
        before.moves_sp(delta, res, after),
        after.reads(other, got),
    ensures
        got == Ok::<u64, EngineError>(was),
{
}

/// The named accessors go through the configured indices: after a value
/// that fits was written to a raw index, `pc()` returns it where the index
/// is the one that stands for the program counter, and `sp()` returns it
/// where the index is the one that stands for the stack pointer.
pub proof fn named_access_is_indexed_access(
    before: RegisterFile,
    after: RegisterFile,
    reg: i32,
    value: u64,
    pc_got: Result<u64, EngineError>,
    sp_got: Result<u64, EngineError>,
)
    requires
        before.fits(reg, value),
        before.writes(reg, value, Ok(()), after),
        after.reads(after.info.pc, pc_got),
        after.reads(after.info.sp, sp_got),
    ensures
        reg == before.info.pc ==> pc_got == Ok::<u64, EngineError>(value),
        reg == before.info.sp ==> sp_got == Ok::<u64, EngineError>(value),
{
}

} // verus!
