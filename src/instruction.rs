//! Instruction encoders: each fills a `ByteCode` from typed operands.
pub mod lea;
pub mod mov;

use crate::bytecode::{
    fields_byte, mod_rm_byte_of, rex_byte_of, rex_value, sib_byte_of, ByteCode, ModRM, Rex,
};
use crate::flexbytes::FlexBytes;
use crate::mem::Mem64;
use crate::reg::Reg64;
use vstd::prelude::*;

verus! {

/// `code` is a 64-bit instruction with the one-byte `opcode`, `reg` in the
/// ModR/M reg field and `mem` as the ModR/M operand: REX.W, REX.R from `reg`,
/// REX.X and REX.B from `mem`; mode, rm, SIB and displacement from `mem`.
pub open spec fn encodes_reg_mem(code: ByteCode, opcode: u8, reg: Reg64, mem: Mem64) -> bool {
    &&& code.prefix is None
    &&& rex_byte_of(code.rex) == Some(
        rex_value(true, reg.spec_is_extended(), mem.spec_rex_x(), mem.spec_rex_b()),
    )
    &&& code.opcode@ == seq![opcode]
    &&& mod_rm_byte_of(code.mod_rm) == Some(
        fields_byte(mem.spec_mode(), reg.spec_low3(), mem.spec_rm()),
    )
    &&& sib_byte_of(code.sib) == mem.spec_sib()
    &&& code.addr@ == mem.spec_disp()
    &&& code.imm@ == Seq::<u8>::empty()
}

/// The record for a 64-bit instruction with the one-byte `opcode`, `reg` in
/// the ModR/M reg field and `mem` as the ModR/M operand.
pub fn reg_mem_code(opcode: u8, reg: Reg64, mem: Mem64) -> (code: ByteCode)
    requires
        mem.spec_wf(),
    ensures
        encodes_reg_mem(code, opcode, reg, mem),
        code.spec_len() <= 8,
{
    let mut code = ByteCode::new();
    code.rex = Some(Rex::from_flags(true, reg.rex_r(), mem.rex_x(), mem.rex_b()));
    code.opcode = FlexBytes::from_u8(opcode);
    code.mod_rm = Some(ModRM::from_fields(mem.mode(), reg.reg(), mem.rm()));
    code.sib = mem.sib();
    code.addr = mem.disp();
    code
}

} // verus!
