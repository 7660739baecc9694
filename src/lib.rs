//! Machine-code encoding for x86-64 instructions: registers, memory operands,
//! the prefix and mode bytes, and the encoders that assemble them into bytes.
pub mod bytecode;
pub mod flexbytes;
pub mod instruction;
pub mod mem;
pub mod reg;
pub mod reg_mem;

pub use bytecode::{ByteCode, ModRM, Rex, Sib};
pub use flexbytes::FlexBytes;
pub use instruction::lea::Lea;
pub use instruction::mov::Mov;
pub use mem::Mem64;
pub use reg::Reg64;
pub use reg_mem::RegMem64;
