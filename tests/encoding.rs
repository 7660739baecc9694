use asm64::Mem64::{RegOffset, RipOffset};
use asm64::Reg64::{
    R10, R11, R12, R13, R14, R15, R8, R9, RAX, RBP, RBX, RCX, RDI, RDX, RSI, RSP,
};
use asm64::{ByteCode, FlexBytes, Mem64, ModRM, Reg64, RegMem64, Rex, Sib};

const ALL: [Reg64; 16] = [
    RAX, RCX, RDX, RBX, RSP, RBP, RSI, RDI, R8, R9, R10, R11, R12, R13, R14, R15,
];

#[test]
fn register_fields_follow_encoding() {
    for (i, r) in ALL.iter().enumerate() {
        assert_eq!(r.encoding() as usize, i);
        assert_eq!(r.is_extended(), i >= 8);
        assert_eq!(r.rex_b(), i >= 8);
        assert_eq!(r.rex_r(), i >= 8);
        assert_eq!(r.reg() as usize, i % 8);
        assert_eq!(r.rm() as usize, i % 8);
        assert_eq!(r.mode(), 0b11);
    }
}

#[test]
fn zero_offset_plain_base_has_no_displacement() {
    for r in ALL {
        if r == RBP || r == R13 {
            continue;
        }
        let m = RegOffset(r, 0);
        assert_eq!(m.mode(), 0b00);
        assert!(m.disp().is_empty());
    }
}

#[test]
fn zero_offset_rbp_r13_forces_disp8() {
    for r in [RBP, R13] {
        let m = RegOffset(r, 0);
        assert_eq!(m.mode(), 0b01);
        assert_eq!(m.disp().bytes(), &[0][..]);
    }
}

#[test]
fn rsp_r12_base_forces_sib_without_index() {
    for r in [RSP, R12] {
        for disp in [0u32, 1, 200, 100_000] {
            let m = RegOffset(r, disp);
            let sib = m.sib().unwrap();
            assert_eq!(sib.index(), 0b100);
            assert_eq!(sib.base(), 0b100);
            assert_eq!(sib.scale(), 0);
            assert_eq!(m.rm(), 0b100);
        }
    }
    assert!(RegOffset(RAX, 8).sib().is_none());
    assert!(RipOffset(8).sib().is_none());
}

#[test]
fn mode_table() {
    assert_eq!(RegOffset(RAX, 1).mode(), 0b01);
    assert_eq!(RegOffset(RAX, 256).mode(), 0b01);
    assert_eq!(RegOffset(RAX, 257).mode(), 0b10);
    assert_eq!(RipOffset(0).mode(), 0b00);
    let sib = |base, disp| Mem64::Sib { base, disp, index: RCX, scale: 0 };
    assert_eq!(sib(None, 5000).mode(), 0b00);
    assert_eq!(sib(Some(RBP), 0).mode(), 0b01);
    assert_eq!(sib(Some(R13), 256).mode(), 0b01);
    assert_eq!(sib(Some(RBP), 257).mode(), 0b10);
    assert_eq!(sib(Some(RAX), 0).mode(), 0b00);
    assert_eq!(sib(Some(RAX), 7).mode(), 0b01);
    assert_eq!(sib(Some(RAX), 300).mode(), 0b10);
}

#[test]
fn displacement_bytes() {
    // 256 takes the 8-bit form and keeps only its low byte.
    assert_eq!(RegOffset(RAX, 256).disp().bytes(), &[0][..]);
    assert_eq!(RegOffset(RAX, 42).disp().bytes(), &[42][..]);
    assert_eq!(RegOffset(RAX, 0x0102_0304).disp().bytes(), &[4, 3, 2, 1][..]);
    assert_eq!(RipOffset(1).disp().bytes(), &[1, 0, 0, 0][..]);
    let m = Mem64::Sib { base: None, disp: 0, index: RAX, scale: 2 };
    assert_eq!(m.disp().bytes(), &[0, 0, 0, 0][..]);
    let m = Mem64::Sib { base: Some(R13), disp: 0, index: RAX, scale: 2 };
    assert_eq!(m.disp().bytes(), &[0][..]);
}

#[test]
fn rex_extension_of_memory_operands() {
    let m = Mem64::Sib { base: Some(R8), disp: 0, index: R9, scale: 0 };
    assert!(m.rex_x());
    assert!(m.rex_b());
    let m = Mem64::Sib { base: None, disp: 0, index: RDX, scale: 0 };
    assert!(!m.rex_x());
    assert!(!m.rex_b());
    assert!(RegOffset(R11, 0).rex_b());
    assert!(!RegOffset(R11, 0).rex_x());
    assert!(!RipOffset(0).rex_b());
    assert_eq!(RipOffset(0).rm(), 0b101);
}

#[test]
fn scaled_accepts_only_powers_of_two() {
    assert_eq!(
        Mem64::scaled(Some(RAX), 4, RCX, 8),
        Some(Mem64::Sib { base: Some(RAX), disp: 4, index: RCX, scale: 3 })
    );
    assert_eq!(
        Mem64::scaled(None, 0, RCX, 1),
        Some(Mem64::Sib { base: None, disp: 0, index: RCX, scale: 0 })
    );
    assert_eq!(Mem64::scaled(None, 0, RCX, 3), None);
    assert_eq!(Mem64::scaled(None, 0, RCX, 16), None);
}

#[test]
fn reg_mem_delegates() {
    let r = RegMem64::Reg(R14);
    assert_eq!(r.mode(), 0b11);
    assert_eq!(r.rm(), 6);
    assert!(r.rex_b());
    let m = RegMem64::Mem(RegOffset(RBP, 0));
    assert_eq!(m.mode(), 0b01);
    assert_eq!(m.rm(), 5);
    assert!(!m.rex_b());
}

#[test]
fn rex_flags() {
    let mut rex = Rex::new();
    assert_eq!(rex.byte(), 0x40);
    rex.set_w(true);
    rex.set_b(true);
    assert_eq!(rex.byte(), 0x49);
    assert!(rex.w() && rex.b() && !rex.r() && !rex.x());
    rex.set_r(true);
    rex.set_x(true);
    assert_eq!(rex.byte(), 0x4F);
    rex.set_w(false);
    assert_eq!(rex.byte(), 0x47);
    assert_eq!(Rex::from_flags(true, false, true, false).byte(), 0x4A);
    assert_eq!(Rex::from_raw(0x4C).byte(), 0x4C);
    assert!(Rex::try_from_raw(0x4C).is_some());
    assert!(Rex::try_from_raw(0x8C).is_none());
}

#[test]
fn mod_rm_fields() {
    let mut m = ModRM::new();
    m.set_mode(0b01);
    m.set_reg(0b111);
    m.set_rm(0b101);
    assert_eq!(m.byte(), 0x7D);
    assert_eq!((m.mode(), m.reg(), m.rm()), (1, 7, 5));
    m.set_reg(0);
    assert_eq!(m.byte(), 0x45);
    assert_eq!(ModRM::from_fields(3, 2, 1).byte(), 0xD1);
    let raw = ModRM::from_raw(0xD1);
    assert_eq!((raw.mode(), raw.reg(), raw.rm()), (3, 2, 1));
}

#[test]
fn sib_fields_are_or_combined() {
    let s = Sib::new(2, 3, 4);
    assert_eq!(s.byte(), 0b10_011_100);
    assert_eq!((s.scale(), s.index(), s.base()), (2, 3, 4));
    let raw = Sib::from_raw(0xFF);
    assert_eq!((raw.scale(), raw.index(), raw.base()), (3, 7, 7));
}

#[test]
fn flex_bytes_capacity_boundary() {
    let full = FlexBytes::<4>::new(4);
    assert_eq!(full.len(), 4);
    assert_eq!(full.bytes(), &[0, 0, 0, 0][..]);
    assert!(FlexBytes::<4>::try_new(4).is_some());
    assert!(FlexBytes::<4>::try_new(5).is_none());
    assert!(FlexBytes::<15>::try_new(15).is_some());
    assert!(FlexBytes::<15>::try_new(16).is_none());
    assert!(FlexBytes::<3>::new(0).is_empty());
}

#[test]
fn flex_bytes_conversions_are_little_endian() {
    assert_eq!(FlexBytes::<4>::from_u32(0x0A0B_0C0D).bytes(), &[0x0D, 0x0C, 0x0B, 0x0A][..]);
    assert_eq!(
        FlexBytes::<8>::from_u64(0x0102_0304_0506_0708).bytes(),
        &[8, 7, 6, 5, 4, 3, 2, 1][..]
    );
    assert_eq!(FlexBytes::<3>::from_u8(0x90).bytes(), &[0x90][..]);
    assert_eq!(FlexBytes::<3>::from_array([1, 2]).bytes(), &[1, 2][..]);
}

#[test]
fn flex_bytes_write_in_place() {
    let mut b = FlexBytes::<4>::new(3);
    b.bytes_mut()[1] = 9;
    b.set(2, 7);
    assert_eq!(b.bytes(), &[0, 9, 7][..]);
    let end = b.write_at(0, &[5, 6]);
    assert_eq!(end, 2);
    assert_eq!(b.bytes(), &[5, 6, 7][..]);
}

#[test]
fn empty_record_is_one_zero_opcode() {
    let code = ByteCode::new();
    assert_eq!(code.to_bytes().bytes(), &[0][..]);
    assert_eq!(ByteCode::default().to_bytes().bytes(), &[0][..]);
}

#[test]
fn record_parts_in_order_and_read_back() {
    let mut code = ByteCode::new();
    code.prefix = Some(0x66);
    code.rex = Some(Rex::from_flags(true, true, false, true));
    code.opcode = FlexBytes::from_array([0x0F, 0xB6]);
    code.mod_rm = Some(ModRM::from_fields(2, 3, 4));
    code.sib = Some(Sib::new(1, 2, 3));
    code.addr = FlexBytes::from_u32(0x1122_3344);
    code.imm = FlexBytes::from_array([0xAA, 0xBB]);
    let bytes = code.to_bytes();
    assert_eq!(
        bytes.bytes(),
        &[0x66, 0x4D, 0x0F, 0xB6, 0x9C, 0x53, 0x44, 0x33, 0x22, 0x11, 0xAA, 0xBB][..]
    );
    assert_eq!(bytes.len(), 1 + 1 + 2 + 1 + 1 + 4 + 2);
    let raw = bytes.bytes();
    let rex = Rex::from_raw(raw[1]);
    assert!(rex.w() && rex.r() && !rex.x() && rex.b());
    let m = ModRM::from_raw(raw[4]);
    assert_eq!((m.mode(), m.reg(), m.rm()), (2, 3, 4));
    let s = Sib::from_raw(raw[5]);
    assert_eq!((s.scale(), s.index(), s.base()), (1, 2, 3));
}

#[test]
fn serializing_twice_gives_same_bytes() {
    let code = asm64::Lea::new(R10, RegOffset(RSP, 300)).bytecode();
    let first = code.to_bytes();
    let second = code.to_bytes();
    assert_eq!(first.bytes(), second.bytes());
    assert_eq!(first.bytes(), &[0x4C, 0x8D, 0x94, 0x24, 0x2C, 0x01, 0x00, 0x00][..]);
}
