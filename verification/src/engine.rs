use crate::error::EngineError;
use crate::registers::{RegisterFile, RegisterInfo, Registers, StackRegister};
use vstd::prelude::*;

verus! {

/// What register access needs from an emulation engine: reads and writes by
/// index, and the record of roles that was attached when the engine was set
/// up. Every engine has both capabilities, [`Registers`] and
/// [`StackRegister`], through the impls below.
pub trait Engine {
    /// The register file the engine holds.
    spec fn state(&self) -> RegisterFile;

    /// Returns the attached record of roles.
    fn register_info(&self) -> (info: RegisterInfo)
        ensures
            info == self.state().info,
    ;

    /// Reads the register with index `reg`.
    fn reg_read(&self, reg: i32) -> (res: Result<u64, EngineError>)
        ensures
            self.state().reads(reg, res),
    ;

    /// Writes `value` to the register with index `reg`.
    fn reg_write(&mut self, reg: i32, value: u64) -> (res: Result<(), EngineError>)
        ensures
            old(self).state().writes(reg, value, res, final(self).state()),
    ;
}

impl<E: Engine> Registers for E {
    open spec fn file(&self) -> RegisterFile {
        self.state()
    }

    fn read(&self, reg: i32) -> (res: Result<u64, EngineError>) {
        let res = self.reg_read(reg);
        proof {
            assert(self.file() == self.state());
        }
        res
    }

    fn write(&mut self, reg: i32, value: u64) -> (res: Result<(), EngineError>) {
        self.reg_write(reg, value)
    }

    fn pc(&self) -> (res: Result<u64, EngineError>) {
        let pc_reg = self.register_info().pc;
        self.read(pc_reg)
    }

    fn set_pc(&mut self, value: u64) -> (res: Result<(), EngineError>) {
        let pc_reg = self.register_info().pc;
        self.write(pc_reg, value)
    }
}

impl<E: Engine> StackRegister for E {
    open spec fn stack(&self) -> RegisterFile {
        self.state()
    }

    fn sp(&self) -> (res: Result<u64, EngineError>) {
        let sp_reg = self.register_info().sp;
        self.read(sp_reg)
    }

    fn set_sp(&mut self, value: u64) -> (res: Result<(), EngineError>) {
        let sp_reg = self.register_info().sp;
        self.write(sp_reg, value)
    }
}

} // verus!
