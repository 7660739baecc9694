use crate::bytecode::{fields_byte, lemma_fields_byte, mid_field, sib_byte_of, Sib};
use crate::flexbytes::{le_u32_bytes, FlexBytes};
use crate::reg::Reg64;
use vstd::prelude::*;

verus! {

/// A 64-bit memory operand.
#[derive(Debug, Clone, Copy, PartialEq, Eq, Structural)]
pub enum Mem64 {
    /// `[reg + disp]`. `[RBP]` and `[R13]` are written as `[RBP + 0]` and
    /// `[R13 + 0]`; `[RSP + disp]` and `[R12 + disp]` go through a SIB byte
    /// whose base is the register and whose index is "none".
    RegOffset(Reg64, u32),
    /// `[RIP + disp]`.
    RipOffset(u32),
    /// `[base + disp + index * 2^scale]`, with `scale` the 2-bit log2 of the
    /// factor. RSP as `index` means "no index".
    Sib { base: Option<Reg64>, disp: u32, index: Reg64, scale: u8 },
}

/// The SIB index (and base) code that RSP and R12 share: "no index" as an index,
/// "SIB follows" as a ModR/M rm.
pub const NO_INDEX: u8 = 0b100;

/// The SIB base code that means "no base, 32-bit displacement".
pub const NO_BASE: u8 = 0b101;

/// Whether `r` is RBP or R13, whose plain `[r]` form is taken by RIP-relative
/// addressing, so that they always carry a displacement.
pub open spec fn needs_disp(r: Reg64) -> bool {
    r == Reg64::RBP || r == Reg64::R13
}

/// Whether `r` is RSP or R12, whose rm code announces a SIB byte.
pub open spec fn needs_sib(r: Reg64) -> bool {
    r == Reg64::RSP || r == Reg64::R12
}

/// The mode for a base register with displacement `disp`: none for zero unless
/// the base always carries one, 8 bits up to 256, 32 bits beyond.
pub open spec fn disp_mode(disp: u32, forced: bool) -> u8 {
    if disp == 0 && !forced {
        0b00
    } else if disp <= 256 {
        0b01
    } else {
        0b10
    }
}

/// The displacement bytes that a base-register mode calls for: none for mode
/// `00`, the low byte for `01` (256 truncates to 0), four bytes for `10`.
pub open spec fn disp_bytes(mode: u8, disp: u32) -> Seq<u8> {
    if mode == 0b00 {
        seq![]
    } else if mode == 0b01 {
        seq![disp as u8]
    } else {
        le_u32_bytes(disp)
    }
}

impl Mem64 {
    /// The scale of a `Sib` operand fits its 2-bit field.
    pub open spec fn spec_wf(self) -> bool {
        match self {
            Mem64::Sib { scale, .. } => scale <= 0b11,
            _ => true,
        }
    }

    pub open spec fn spec_mode(self) -> u8 {
        match self {
            Mem64::RegOffset(base, disp) => disp_mode(disp, needs_disp(base)),
            Mem64::RipOffset(_) => 0b00,
            Mem64::Sib { base: None, .. } => 0b00,
            Mem64::Sib { base: Some(base), disp, .. } => disp_mode(disp, needs_disp(base)),
        }
    }

    pub open spec fn spec_rm(self) -> u8 {
        match self {
            Mem64::RegOffset(base, _) => base.spec_low3(),
            Mem64::RipOffset(_) => 0b101,
            Mem64::Sib { .. } => NO_INDEX,
        }
    }

    /// The SIB byte the operand needs, if any.
    pub open spec fn spec_sib(self) -> Option<u8> {
        match self {
            Mem64::RegOffset(base, _) => if needs_sib(base) {
                Some(fields_byte(0, NO_INDEX, NO_INDEX))
            } else {
                None
            },
            Mem64::RipOffset(_) => None,
            Mem64::Sib { base: None, index, scale, .. } => Some(
                fields_byte(scale, index.spec_low3(), NO_BASE),
            ),
            Mem64::Sib { base: Some(base), index, scale, .. } => Some(
                fields_byte(scale, index.spec_low3(), base.spec_low3()),
            ),
        }
    }

    pub open spec fn spec_disp(self) -> Seq<u8> {
        match self {
            Mem64::RipOffset(disp) => le_u32_bytes(disp),
            Mem64::Sib { base: None, disp, .. } => le_u32_bytes(disp),
            Mem64::RegOffset(_, disp) => disp_bytes(self.spec_mode(), disp),
            Mem64::Sib { disp, .. } => disp_bytes(self.spec_mode(), disp),
        }
    }

    pub open spec fn spec_rex_x(self) -> bool {
        match self {
            Mem64::Sib { index, .. } => index.spec_is_extended(),
            _ => false,
        }
    }

    pub open spec fn spec_rex_b(self) -> bool {
        match self {
            Mem64::RegOffset(base, _) => base.spec_is_extended(),
            Mem64::RipOffset(_) => false,
            Mem64::Sib { base: Some(base), .. } => base.spec_is_extended(),
            Mem64::Sib { base: None, .. } => false,
        }
    }

    /// `[base + disp + index * factor]`, or `None` where `factor` is not 1, 2, 4 or 8.
    pub fn scaled(base: Option<Reg64>, disp: u32, index: Reg64, factor: u8) -> (r: Option<Mem64>)
        ensures
            r is Some <==> (factor == 1 || factor == 2 || factor == 4 || factor == 8),
            r matches Some(m) ==> m.spec_wf() && m == (Mem64::Sib {
                base,
                disp,
                index,
                scale: if factor == 1 {
                    0u8
                } else if factor == 2 {
                    1u8
                } else if factor == 4 {
                    2u8
                } else {
                    3u8
                },
            }),
    {
        let scale: u8 = if factor == 1 {
            0
        } else if factor == 2 {
            1
        } else if factor == 4 {
            2
        } else if factor == 8 {
            3
        } else {
            return None;
        };
        Some(Mem64::Sib { base, disp, index, scale })
    }

    /// The ModR/M mode field.
    pub fn mode(&self) -> (r: u8)
        ensures
            r == self.spec_mode(),
            r <= 0b10,
    {
        match self {
            Mem64::RegOffset(base, disp) => base_mode(*base, *disp),
            Mem64::RipOffset(_) => 0b00,
            Mem64::Sib { base: None, .. } => 0b00,
            Mem64::Sib { base: Some(base), disp, .. } => base_mode(*base, *disp),
        }
    }

    /// The ModR/M rm field.
    pub fn rm(&self) -> (r: u8)
        ensures
            r == self.spec_rm(),
            r <= 0b111,
    {
        match self {
            Mem64::RegOffset(base, _) => base.rm(),
            Mem64::RipOffset(_) => 0b101,
            Mem64::Sib { .. } => NO_INDEX,
        }
    }

    /// The SIB byte, where the operand needs one.
    pub fn sib(&self) -> (r: Option<Sib>)
        requires
            self.spec_wf(),
        ensures
            sib_byte_of(r) == self.spec_sib(),
    {
        match self {
            Mem64::RegOffset(base, _) => {
                if matches!(base, Reg64::RSP | Reg64::R12) {
                    Some(Sib::new(0, NO_INDEX, NO_INDEX))
                } else {
                    None
                }
            },
            Mem64::RipOffset(_) => None,
            Mem64::Sib { base: None, index, scale, .. } => Some(
                Sib::new(*scale, index.reg(), NO_BASE),
            ),
            Mem64::Sib { base: Some(base), index, scale, .. } => Some(
                Sib::new(*scale, index.reg(), base.reg()),
            ),
        }
    }

    /// The address displacement bytes.
    pub fn disp(&self) -> (r: FlexBytes<4>)
        ensures
            r@ == self.spec_disp(),
    {
        match self {
            Mem64::RipOffset(disp) => FlexBytes::from_u32(*disp),
            Mem64::Sib { base: None, disp, .. } => FlexBytes::from_u32(*disp),
            Mem64::RegOffset(base, disp) => base_disp(*base, *disp),
            Mem64::Sib { base: Some(base), disp, .. } => base_disp(*base, *disp),
        }
    }

    /// REX.X: the index register is one of R8..R15.
    pub fn rex_x(&self) -> (r: bool)
        ensures
            r == self.spec_rex_x(),
    {
        match self {
            Mem64::Sib { index, .. } => index.rex_r(),
            _ => false,
        }
    }

    /// REX.B: the base register is one of R8..R15.
    pub fn rex_b(&self) -> (r: bool)
        ensures
            r == self.spec_rex_b(),
    {
        match self {
            Mem64::RegOffset(base, _) => base.rex_b(),
            Mem64::RipOffset(_) => false,
            Mem64::Sib { base: Some(base), .. } => base.rex_b(),
            Mem64::Sib { base: None, .. } => false,
        }
    }
}

/// The mode for base register `base` with displacement `disp`.
fn base_mode(base: Reg64, disp: u32) -> (r: u8)
    ensures
        r == disp_mode(disp, needs_disp(base)),
{
    if disp == 0 && !matches!(base, Reg64::RBP | Reg64::R13) {
        0b00
    } else if disp <= 256 {
        0b01
    } else {
        0b10
    }
}

/// The displacement bytes for base register `base` with displacement `disp`.
fn base_disp(base: Reg64, disp: u32) -> (r: FlexBytes<4>)
    ensures
        r@ == disp_bytes(disp_mode(disp, needs_disp(base)), disp),
{
    let mode = base_mode(base, disp);
    if mode == 0b00 {
        let r = FlexBytes::new(0);
        assert(r@ =~= Seq::<u8>::empty());
        r
    } else if mode == 0b01 {
        FlexBytes::from_u8(disp as u8)
    } else {
        FlexBytes::from_u32(disp)
    }
}

/// `[base + 0]` with a base other than RBP or R13 takes mode `00` and no
/// displacement byte.
pub proof fn lemma_zero_offset_plain_base(base: Reg64)
    requires
        !needs_disp(base),
    ensures
        Mem64::RegOffset(base, 0).spec_mode() == 0b00,
        Mem64::RegOffset(base, 0).spec_disp().len() == 0,
{
}

/// `[RBP + 0]` and `[R13 + 0]` take mode `01` and exactly one displacement
/// byte, which is zero.
pub proof fn lemma_zero_offset_forced_disp8(base: Reg64)
    requires
        needs_disp(base),
    ensures
        Mem64::RegOffset(base, 0).spec_mode() == 0b01,
        Mem64::RegOffset(base, 0).spec_disp() == seq![0u8],
{
}

/// `[RSP + disp]` and `[R12 + disp]` always carry a SIB byte whose index field
/// is the "no index" code.
pub proof fn lemma_rsp_r12_take_sib(base: Reg64, disp: u32)
    requires
        needs_sib(base),
    ensures
        Mem64::RegOffset(base, disp).spec_sib() matches Some(b) && mid_field(b) == NO_INDEX,
        Mem64::RegOffset(base, disp).spec_rm() == NO_INDEX,
{
    lemma_fields_byte(0, NO_INDEX, NO_INDEX);
}

} // verus!
