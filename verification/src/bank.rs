use crate::engine::Engine;
use crate::error::EngineError;
use crate::registers::{RegisterFile, RegisterInfo};
use vstd::prelude::*;

verus! {

/// An engine that is nothing but registers kept in memory: registers of 64
/// bits each, with the indices from `0` up.
///
/// It gives the two capabilities something to run on where no emulator is
/// at hand. A read or a write succeeds exactly on the indices of the bank;
/// any other index is answered with [`EngineError::Arg`].
pub struct RegisterBank {
    info: RegisterInfo,
    values: Vec<u64>,
}

impl View for RegisterBank {
    type V = Seq<u64>;

    /// The values of the registers, in the order of their indices.
    closed spec fn view(&self) -> Seq<u64> {
        self.values@
    }
}

impl RegisterBank {
    /// The record of roles the bank was made with.
    pub closed spec fn roles(&self) -> RegisterInfo {
        self.info
    }

    /// Whether `reg` is an index of this bank.
    pub open spec fn holds(&self, reg: i32) -> bool {
        0 <= reg < self@.len()
    }

    /// A bank of `count` registers that all hold zero.
    pub fn new(info: RegisterInfo, count: usize) -> (bank: Self)
        ensures
            bank.roles() == info,
            bank@.len() == count,
            forall|i: int| 0 <= i < count ==> bank@[i] == 0,
    {
        let mut values: Vec<u64> = Vec::new();
        let mut filled: usize = 0;
        while filled < count
            invariant
                filled <= count,
                values.len() == filled,
                forall|i: int| 0 <= i < filled ==> values[i] == 0,
            decreases count - filled,
        {
            values.push(0);
            filled += 1;
        }
        RegisterBank { info, values }
    }
}

impl Engine for RegisterBank {
    open spec fn state(&self) -> RegisterFile {
        RegisterFile {
            info: self.roles(),
            values: Map::new(|reg: i32| self.holds(reg), |reg: i32| self@[reg as int]),
            fitting: Set::new(|pair: (i32, u64)| self.holds(pair.0)),
            overlapping: Set::empty(),
            refused: Set::empty(),
            read_answers: |reg: i32|
                if self.holds(reg) {
                    Ok(self@[reg as int])
                } else {
                    Err(EngineError::Arg)
                },
            write_answers: |reg: i32, value: u64|
                if self.holds(reg) {
                    Ok(())
                } else {
                    Err(EngineError::Arg)
                },
        }
    }

    fn register_info(&self) -> (info: RegisterInfo) {
        self.info
    }

    fn reg_read(&self, reg: i32) -> (res: Result<u64, EngineError>) {
        if reg < 0 || reg as usize >= self.values.len() {
            return Err(EngineError::Arg);
        }
        Ok(self.values[reg as usize])
    }

    /// A successful write changes the one register and no other.
    fn reg_write(&mut self, reg: i32, value: u64) -> (res: Result<(), EngineError>)
        ensures
            final(self).roles() == old(self).roles(),
            final(self)@ == (if old(self).holds(reg) {
                old(self)@.update(reg as int, value)
            } else {
                old(self)@
            }),
    {
        if reg < 0 || reg as usize >= self.values.len() {
            return Err(EngineError::Arg);
        }
        self.values[reg as usize] = value;
        proof {
            let before = old(self).state();
            let after = self.state();
            assert(after.values.dom() =~= before.values.dom());
            assert(after.fitting =~= before.fitting);
        }
        Ok(())
    }
}

} // verus!
