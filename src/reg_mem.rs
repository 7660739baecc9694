use crate::mem::Mem64;
use crate::reg::{Reg64, MODE_DIRECT};
use vstd::prelude::*;

verus! {

/// A 64-bit operand that is either a register or a memory location.
#[derive(Debug, Clone, Copy, PartialEq, Eq, Structural)]
pub enum RegMem64 {
    Reg(Reg64),
    Mem(Mem64),
}

impl RegMem64 {
    pub open spec fn spec_rex_b(self) -> bool {
        match self {
            RegMem64::Reg(reg) => reg.spec_is_extended(),
            RegMem64::Mem(mem) => mem.spec_rex_b(),
        }
    }

    pub open spec fn spec_mode(self) -> u8 {
        match self {
            RegMem64::Reg(_) => MODE_DIRECT,
            RegMem64::Mem(mem) => mem.spec_mode(),
        }
    }

    pub open spec fn spec_rm(self) -> u8 {
        match self {
            RegMem64::Reg(reg) => reg.spec_low3(),
            RegMem64::Mem(mem) => mem.spec_rm(),
        }
    }

    /// REX.B for the operand in the ModR/M rm field.
    pub fn rex_b(&self) -> (r: bool)
        ensures
            r == self.spec_rex_b(),
    {
        match self {
            RegMem64::Reg(reg) => reg.rex_b(),
            RegMem64::Mem(mem) => mem.rex_b(),
        }
    }

    /// The ModR/M mode field: register-direct for a register.
    pub fn mode(&self) -> (r: u8)
        ensures
            r == self.spec_mode(),
            r <= 0b11,
    {
        match self {
            RegMem64::Reg(reg) => reg.mode(),
            RegMem64::Mem(mem) => mem.mode(),
        }
    }

    /// The ModR/M rm field.
    pub fn rm(&self) -> (r: u8)
        ensures
            r == self.spec_rm(),
            r <= 0b111,
    {
        match self {
            RegMem64::Reg(reg) => reg.rm(),
            RegMem64::Mem(mem) => mem.rm(),
        }
    }
}

} // verus!
