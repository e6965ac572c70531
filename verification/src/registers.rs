use crate::error::EngineError;
use vstd::prelude::*;

verus! {

/// The register indices that play the roles of program counter and stack
/// pointer for one architecture.
///
/// The indices are not validated here: an index the engine does not know
/// shows as an error of the engine when the register is accessed.
#[derive(Clone, Copy, Debug, PartialEq, Eq, Structural)]
pub struct RegisterInfo {
    pub pc: i32,
    pub sp: i32,
}

impl RegisterInfo {
    /// Binds the two indices. Total: every pair of indices gives a record.
    pub fn new(pc_reg: i32, sp_reg: i32) -> (info: Self)
        ensures
            info == (RegisterInfo { pc: pc_reg, sp: sp_reg }),
    {
        RegisterInfo { pc: pc_reg, sp: sp_reg }
    }
}

/// The mathematical picture of an engine's register file, over which every
/// contract of register access is stated.
pub struct RegisterFile {
    /// Which indices stand for the program counter and the stack pointer.
    pub info: RegisterInfo,
    /// The value of each register the engine knows, by index. An index
    /// outside the domain is not a register of the engine.
    pub values: Map<i32, u64>,
    /// The pairs of a register and a value that the register holds
    /// unchanged. A register narrower than 64 bits keeps the low-order bits
    /// only, so not every value fits every register.
    pub fitting: Set<(i32, u64)>,
    /// The pairs of two registers that share storage: a write to the first
    /// may change the second. Empty where every register stands alone.
    pub overlapping: Set<(i32, i32)>,
    /// The pairs of a register and a value that the engine, in this state,
    /// refuses to write though it reads the register: a register that is
    /// read-only, a value that the register rejects. Empty where every
    /// register that is read can be written with every value.
    pub refused: Set<(i32, u64)>,
    /// What the engine answers, in this state, to a read of each index.
    pub read_answers: spec_fn(i32) -> Result<u64, EngineError>,
    /// What the engine answers, in this state, to a write of each value to
    /// each index.
    pub write_answers: spec_fn(i32, u64) -> Result<(), EngineError>,
}

impl RegisterFile {
    /// Whether `reg` is a register of the engine.
    pub open spec fn has(self, reg: i32) -> bool {
        self.values.contains_key(reg)
    }

    /// Whether `reg` holds `value` unchanged once it is written.
    pub open spec fn fits(self, reg: i32, value: u64) -> bool {
        self.fitting.contains((reg, value))
    }

    /// Whether a write to `reg` may change `other`.
    pub open spec fn overlaps(self, reg: i32, other: i32) -> bool {
        self.overlapping.contains((reg, other))
    }

    /// Whether the engine refuses to write `value` to `reg` though it reads
    /// `reg`.
    pub open spec fn refuses(self, reg: i32, value: u64) -> bool {
        self.refused.contains((reg, value))
    }

    /// Whether a read of `reg` succeeds in this state.
    pub open spec fn readable(self, reg: i32) -> bool {
        (self.read_answers)(reg) is Ok
    }

    /// The value of the program counter.
    pub open spec fn pc(self) -> u64 {
        self.values[self.info.pc]
    }

    /// The value of the stack pointer.
    pub open spec fn sp(self) -> u64 {
        self.values[self.info.sp]
    }

    /// Whether `after` differs from `self` in register values and answers at
    /// most: the roles, the set of registers, their widths, which of them
    /// share storage and which of them can be read never change.
    pub open spec fn same_shape(self, after: RegisterFile) -> bool {
        &&& after.info == self.info
        &&& after.fitting == self.fitting
        &&& after.overlapping == self.overlapping
        &&& after.values.dom() == self.values.dom()
        &&& forall|j: i32| (#[trigger] (after.read_answers)(j)) is Ok <==> self.readable(j)
    }

    /// Whether every register but `reg`, and but those that share storage
    /// with it, has in `after` the value it has in `self`.
    pub open spec fn keeps_others(self, reg: i32, after: RegisterFile) -> bool {
        forall|j: i32|
            j != reg && self.has(j) && !self.overlaps(reg, j) ==> #[trigger] after.values[j]
                == self.values[j]
    }

    /// Whether `res` is the result of a read of `reg`. It is the engine's
    /// answer; a read succeeds on a register of the engine only, and then
    /// returns the register's value.
    pub open spec fn reads(self, reg: i32, res: Result<u64, EngineError>) -> bool {
        &&& res == (self.read_answers)(reg)
        &&& res matches Ok(v) ==> self.has(reg) && v == self.values[reg]
    }

    /// Whether a write of `value` to `reg` returns `res` and leaves the file
    /// as `after`. The result is the engine's answer. A write fails exactly
    /// where a read of the register fails or the engine refuses the value.
    /// A write that succeeds is to a register of the engine, which then
    /// holds `value` if it fits, and it leaves the other registers as they
    /// were; a failed write changes nothing.
    pub open spec fn writes(
        self,
        reg: i32,
        value: u64,
        res: Result<(), EngineError>,
        after: RegisterFile,
    ) -> bool {
        &&& res == (self.write_answers)(reg, value)
        &&& res is Err <==> !self.readable(reg) || self.refuses(reg, value)
        &&& self.same_shape(after)
        &&& res is Ok ==> {
            &&& self.has(reg)
            &&& self.fits(reg, value) ==> after.values[reg] == value
            &&& self.keeps_others(reg, after)
        }
        &&& res is Err ==> after == self
    }

    /// The result of adjusting the stack pointer by `delta`: the error of
    /// the read where the read fails; else the exception kind where the sum
    /// leaves the unsigned 64-bit range; else the error of the write where
    /// the write fails; else the sum.
    pub open spec fn sp_move_answer(self, delta: i64) -> Result<u64, EngineError> {
        match (self.read_answers)(self.info.sp) {
            Err(e) => Err(e),
            Ok(current) => match offset_outcome(current, delta) {
                Err(e) => Err(e),
                Ok(moved) => match (self.write_answers)(self.info.sp, moved) {
                    Err(e) => Err(e),
                    Ok(_) => Ok(moved),
                },
            },
        }
    }

    /// Whether adjusting the stack pointer by `delta` returns `res` and
    /// leaves the file as `after`. On success the result is the exact sum,
    /// which the stack pointer then holds if it fits, and the other
    /// registers are as they were. The adjustment fails exactly where the
    /// stack pointer cannot be read, the sum leaves the unsigned 64-bit
    /// range, or the engine refuses the sum; every failure leaves the file
    /// as it was.
    pub open spec fn moves_sp(
        self,
        delta: i64,
        res: Result<u64, EngineError>,
        after: RegisterFile,
    ) -> bool {
        &&& res == self.sp_move_answer(delta)
        &&& self.same_shape(after)
        &&& res matches Ok(v) ==> {
            &&& self.has(self.info.sp)
            &&& v == self.sp() + delta
            &&& self.fits(self.info.sp, v) ==> after.sp() == v
            &&& self.keeps_others(self.info.sp, after)
        }
        &&& res is Err ==> after == self
        &&& res is Err <==> {
            ||| !self.readable(self.info.sp)
            ||| !offset_in_range(self.sp(), delta)
            ||| self.refuses(self.info.sp, (self.sp() + delta) as u64)
        }
    }
}

/// Whether `current + delta` lies in the unsigned 64-bit range.
pub open spec fn offset_in_range(current: u64, delta: i64) -> bool {
    0 <= current + delta <= u64::MAX
}

/// What adjusting a stack pointer `current` by `delta` gives: the sum where
/// it is representable, the engine's exception kind where it is not.
pub open spec fn offset_outcome(current: u64, delta: i64) -> Result<u64, EngineError> {
    if offset_in_range(current, delta) {
        Ok((current + delta) as u64)
    } else {
        Err(EngineError::Exception)
    }
}

/// Adds the signed `delta` to `current`, detecting overflow in both
/// directions. The engine has no kind of its own for arithmetic overflow,
/// so the failure is reported as [`EngineError::Exception`].
pub fn offset_stack_pointer(current: u64, delta: i64) -> (res: Result<u64, EngineError>)
    ensures
        res == offset_outcome(current, delta),
{
    current.checked_add_signed(delta).ok_or(EngineError::Exception)
}

/// Access to any register by index, and named access to the program
/// counter.
pub trait Registers {
    /// The register file behind this value.
    spec fn file(&self) -> RegisterFile;

    /// Returns the value of register `reg`.
    fn read(&self, reg: i32) -> (res: Result<u64, EngineError>)
        ensures
            self.file().reads(reg, res),
    ;

    /// Sets register `reg` to `value`.
    fn write(&mut self, reg: i32, value: u64) -> (res: Result<(), EngineError>)
        ensures
            old(self).file().writes(reg, value, res, final(self).file()),
    ;

    /// Returns the program counter: a read of the register that
    /// [`RegisterInfo::pc`] names.
    fn pc(&self) -> (res: Result<u64, EngineError>)
        ensures
            self.file().reads(self.file().info.pc, res),
    ;

    /// Sets the program counter: a write to the register that
    /// [`RegisterInfo::pc`] names. The value is not checked to be an
    /// address the architecture can execute from.
    fn set_pc(&mut self, value: u64) -> (res: Result<(), EngineError>)
        ensures
            old(self).file().writes(old(self).file().info.pc, value, res, final(self).file()),
    ;
}

/// Named access to the stack pointer, and its overflow-checked adjustment.
///
/// A type supplies [`StackRegister::sp`] and [`StackRegister::set_sp`];
/// [`StackRegister::incr_sp`] comes with them.
pub trait StackRegister {
    /// The register file behind this value, of which only the stack pointer
    /// is accessed.
    spec fn stack(&self) -> RegisterFile;

    /// Returns the stack pointer: a read of the register that
    /// [`RegisterInfo::sp`] names.
    fn sp(&self) -> (res: Result<u64, EngineError>)
        ensures
            self.stack().reads(self.stack().info.sp, res),
    ;

    /// Sets the stack pointer: a write to the register that
    /// [`RegisterInfo::sp`] names.
    fn set_sp(&mut self, value: u64) -> (res: Result<(), EngineError>)
        ensures
            old(self).stack().writes(old(self).stack().info.sp, value, res, final(self).stack()),
    ;

    /// Adds `delta` to the stack pointer and returns the new value.
    ///
    /// Overflow is detected before anything is written: the call either
    /// writes the exact sum, or fails and leaves the stack pointer as it
    /// was. A failed read or write is returned as the engine gave it.
    fn incr_sp(&mut self, delta: i64) -> (res: Result<u64, EngineError>)
        ensures
            old(self).stack().moves_sp(delta, res, final(self).stack()),
    {
        let cur = self.sp()?;
        let new_sp = offset_stack_pointer(cur, delta)?;
        self.set_sp(new_sp)?;
        Ok(new_sp)
    }
}

} // verus!
