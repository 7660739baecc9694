use crate::bytecode::{
    fields_byte, mod_rm_byte_of, rex_byte_of, rex_value, ByteCode, ModRM, Rex,
};
use crate::flexbytes::{le_u64_bytes, FlexBytes};
use crate::instruction::{encodes_reg_mem, reg_mem_code};
use crate::mem::Mem64;
use crate::reg::{Reg64, MODE_DIRECT};
use vstd::prelude::*;

verus! {

/// The opcode of MOV r/m64, r64.
pub const MOV_OPCODE: u8 = 0x89;

/// The opcode of MOV r64, imm64 before the register's low three bits are added.
pub const MOV_IMM_OPCODE: u8 = 0xB8;

/// Move: `Dst` receives `Src`.
pub struct Mov<Dst, Src>(pub Dst, pub Src);

impl Mov<Mem64, Reg64> {
    /// MOV [dst], src: REX.W with REX.R from `src`, opcode `89`, `src` in the
    /// ModR/M reg field and the memory operand's mode, rm, SIB and displacement.
    pub fn bytecode(&self) -> (r: ByteCode)
        requires
            self.0.spec_wf(),
        ensures
            encodes_reg_mem(r, MOV_OPCODE, self.1, self.0),
            r.spec_len() <= 8,
    {
        reg_mem_code(MOV_OPCODE, self.1, self.0)
    }
}

impl Mov<Reg64, Reg64> {
    /// MOV dst, src between registers: REX.W, REX.R from `src`, REX.B from
    /// `dst`, opcode `89`, and a register-direct ModR/M with `src` in reg and
    /// `dst` in rm.
    pub fn bytecode(&self) -> (r: ByteCode)
        ensures
            r.prefix is None,
            rex_byte_of(r.rex) == Some(
                rex_value(true, self.1.spec_is_extended(), false, self.0.spec_is_extended()),
            ),
            r.opcode@ == seq![MOV_OPCODE],
            mod_rm_byte_of(r.mod_rm) == Some(
                fields_byte(MODE_DIRECT, self.1.spec_low3(), self.0.spec_low3()),
            ),
            r.sib is None,
            r.addr@ == Seq::<u8>::empty(),
            r.imm@ == Seq::<u8>::empty(),
            r.spec_len() == 3,
    {
        let (dst, src) = (self.0, self.1);
        let mut code = ByteCode::new();
        code.rex = Some(Rex::from_flags(true, src.rex_r(), false, dst.rex_b()));
        code.opcode = FlexBytes::from_u8(MOV_OPCODE);
        code.mod_rm = Some(ModRM::from_fields(dst.mode(), src.reg(), dst.rm()));
        code
    }
}

impl Mov<Reg64, u64> {
    /// MOV dst, imm64: REX.W with REX.B from `dst`, opcode `B8` plus the low
    /// three bits of `dst`, then the eight little-endian bytes of the constant.
    pub fn bytecode(&self) -> (r: ByteCode)
        ensures
            r.prefix is None,
            rex_byte_of(r.rex) == Some(rex_value(true, false, false, self.0.spec_is_extended())),
            r.opcode@ == seq![(MOV_IMM_OPCODE + self.0.spec_low3()) as u8],
            r.mod_rm is None,
            r.sib is None,
            r.addr@ == Seq::<u8>::empty(),
            r.imm@ == le_u64_bytes(self.1),
            r.spec_len() == 10,
    {
        let (dst, src) = (self.0, self.1);
        let mut code = ByteCode::new();
        code.rex = Some(Rex::from_flags(true, false, false, dst.rex_b()));
        code.opcode = FlexBytes::from_u8(MOV_IMM_OPCODE + dst.reg());
        code.imm = FlexBytes::from_u64(src);
        code
    }
}

} // verus!
