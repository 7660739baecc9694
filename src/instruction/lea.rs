use crate::bytecode::ByteCode;
use crate::instruction::{encodes_reg_mem, reg_mem_code};
use crate::mem::Mem64;
use crate::reg::Reg64;
use vstd::prelude::*;

verus! {

/// The opcode of LEA r64, m.
pub const LEA_OPCODE: u8 = 0x8D;

/// Load effective address: `Dst` receives the address of `Src`.
pub struct Lea<Dst, Src>(Dst, Src);

impl<Dst, Src> Lea<Dst, Src> {
    pub closed spec fn spec_dst(self) -> Dst {
        self.0
    }

    pub closed spec fn spec_src(self) -> Src {
        self.1
    }
}

impl Lea<Reg64, Mem64> {
    pub fn new(dst: Reg64, src: Mem64) -> (r: Self)
        ensures
            r.spec_dst() == dst,
            r.spec_src() == src,
    {
        Lea(dst, src)
    }

    /// LEA dst, [src]: REX.W with REX.R from `dst`, opcode `8D`, `dst` in the
    /// ModR/M reg field and the memory operand's mode, rm, SIB and displacement.
    pub fn bytecode(&self) -> (r: ByteCode)
        requires
            self.spec_src().spec_wf(),
        ensures
            encodes_reg_mem(r, LEA_OPCODE, self.spec_dst(), self.spec_src()),
            r.spec_len() <= 8,
    {
        reg_mem_code(LEA_OPCODE, self.0, self.1)
    }
}

} // verus!
