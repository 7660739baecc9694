use asm64::Mem64::{RegOffset, RipOffset};
use asm64::Reg64::{R13, R15, R8, RAX, RBP, RCX, RDI};
use asm64::{Mem64, Mov};

#[test]
fn test_mov_mem64_reg64() {
    let cases = [
        (Mov(RegOffset(RDI, 0), RAX), vec![0x48, 0x89, 0x07]),
        (Mov(RegOffset(RDI, 42), RAX), vec![0x48, 0x89, 0x47, 0x2A]),
        (
            Mov(RipOffset(42), RAX),
            vec![0x48, 0x89, 0x05, 0x2A, 0x00, 0x00, 0x00],
        ),
        (
            Mov(
                Mem64::Sib {
                    base: Some(RBP),
                    disp: 42,
                    index: RAX,
                    scale: 3,
                },
                R13,
            ),
            vec![0x4C, 0x89, 0x6C, 0xC5, 0x2A],
        ),
    ];

    for (origin, expected) in cases {
        assert_eq!(origin.bytecode().to_bytes().bytes(), expected);
    }
}

#[test]
fn mov_reg_reg_is_register_direct() {
    // MOV RCX, RAX: 48 89 C1.
    assert_eq!(Mov(RCX, RAX).bytecode().to_bytes().bytes(), &[0x48, 0x89, 0xC1][..]);
    // MOV R8, R15: REX.W|R|B, ModR/M 11 111 000.
    assert_eq!(Mov(R8, R15).bytecode().to_bytes().bytes(), &[0x4D, 0x89, 0xF8][..]);
}

#[test]
fn mov_imm64_adds_register_to_opcode() {
    let code = Mov(RCX, 0x1122_3344_5566_7788u64).bytecode();
    assert_eq!(
        code.to_bytes().bytes(),
        &[0x48, 0xB9, 0x88, 0x77, 0x66, 0x55, 0x44, 0x33, 0x22, 0x11][..]
    );
    let code = Mov(R15, 1u64).bytecode();
    assert_eq!(
        code.to_bytes().bytes(),
        &[0x49, 0xBF, 0x01, 0, 0, 0, 0, 0, 0, 0][..]
    );
}

#[test]
fn mov_r13_into_scaled_index_fields() {
    let code = Mov(
        Mem64::Sib {
            base: Some(RBP),
            disp: 42,
            index: RAX,
            scale: 3,
        },
        R13,
    )
    .bytecode();
    let rex = code.rex.unwrap();
    assert!(rex.w());
    assert!(rex.r());
    assert!(!rex.x());
    assert!(!rex.b());
    assert_eq!(code.sib.unwrap().scale(), 3);
    assert_eq!(code.addr.bytes(), &[42][..]);
}
