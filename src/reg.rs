use vstd::prelude::*;

verus! {

/// The sixteen general-purpose 64-bit registers.
#[derive(Debug, Clone, Copy, PartialEq, Eq, Structural)]
pub enum Reg64 {
    RAX,
    RCX,
    RDX,
    RBX,
    RSP,
    RBP,
    RSI,
    RDI,
    R8,
    R9,
    R10,
    R11,
    R12,
    R13,
    R14,
    R15,
}

/// The ModR/M mode that selects register-direct addressing.
pub const MODE_DIRECT: u8 = 0b11;

impl Reg64 {
    /// The 4-bit hardware number of the register.
    pub open spec fn spec_encoding(self) -> u8 {
        match self {
            Reg64::RAX => 0,
            Reg64::RCX => 1,
            Reg64::RDX => 2,
            Reg64::RBX => 3,
            Reg64::RSP => 4,
            Reg64::RBP => 5,
            Reg64::RSI => 6,
            Reg64::RDI => 7,
            Reg64::R8 => 8,
            Reg64::R9 => 9,
            Reg64::R10 => 10,
            Reg64::R11 => 11,
            Reg64::R12 => 12,
            Reg64::R13 => 13,
            Reg64::R14 => 14,
            Reg64::R15 => 15,
        }
    }

    /// The low three bits of the hardware number, as placed in a ModR/M or SIB field.
    pub open spec fn spec_low3(self) -> u8 {
        (self.spec_encoding() % 8) as u8
    }

    /// Whether the register is one of R8..R15, reachable only through a REX extension bit.
    pub open spec fn spec_is_extended(self) -> bool {
        self.spec_encoding() >= 8
    }

    pub fn encoding(&self) -> (r: u8)
        ensures
            r == self.spec_encoding(),
            r < 16,
    {
        match self {
            Reg64::RAX => 0,
            Reg64::RCX => 1,
            Reg64::RDX => 2,
            Reg64::RBX => 3,
            Reg64::RSP => 4,
            Reg64::RBP => 5,
            Reg64::RSI => 6,
            Reg64::RDI => 7,
            Reg64::R8 => 8,
            Reg64::R9 => 9,
            Reg64::R10 => 10,
            Reg64::R11 => 11,
            Reg64::R12 => 12,
            Reg64::R13 => 13,
            Reg64::R14 => 14,
            Reg64::R15 => 15,
        }
    }

    /// The register's number in a 3-bit ModR/M or SIB field.
    pub fn reg(&self) -> (r: u8)
        ensures
            r == self.spec_low3(),
            r < 8,
    {
        self.encoding() % 8
    }

    /// The ModR/M rm field when the register is addressed directly.
    pub fn rm(&self) -> (r: u8)
        ensures
            r == self.spec_low3(),
            r < 8,
    {
        self.reg()
    }

    /// The ModR/M mode when the register is addressed directly.
    pub fn mode(&self) -> (r: u8)
        ensures
            r == MODE_DIRECT,
    {
        MODE_DIRECT
    }

    pub fn is_extended(&self) -> (r: bool)
        ensures
            r == self.spec_is_extended(),
    {
        self.encoding() >= 8
    }

    /// REX.R for this register in the ModR/M reg field.
    pub fn rex_r(&self) -> (r: bool)
        ensures
            r == self.spec_is_extended(),
    {
        self.is_extended()
    }

    /// REX.B for this register in the ModR/M rm field, the SIB base field or the opcode.
    pub fn rex_b(&self) -> (r: bool)
        ensures
            r == self.spec_is_extended(),
    {
        self.is_extended()
    }
}

/// Every register has a 4-bit number; it needs a REX extension bit exactly when
/// that number is 8 or more, and its 3-bit field is the number modulo 8.
pub proof fn lemma_register_fields(r: Reg64)
    ensures
        r.spec_encoding() < 16,
        r.spec_is_extended() <==> r.spec_encoding() >= 8,
        r.spec_low3() == r.spec_encoding() % 8,
        r.spec_low3() < 8,
        r.spec_is_extended() ==> r.spec_low3() == r.spec_encoding() - 8,
        !r.spec_is_extended() ==> r.spec_low3() == r.spec_encoding(),
{
}

} // verus!
