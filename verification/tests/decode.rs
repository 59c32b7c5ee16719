use remoulade::csr::Csr;
use remoulade::exec::Error;
use remoulade::inst::{AmoKind, BKind, CsrKind, IKind, Instruction, OpCode, RKind};
use remoulade::reg::{Rd, Rs1, Rs2};

#[test]
fn test_decode_rtype_add() {
    // add x2, x2, x3
    match Instruction::decode_raw32(0x00310133) {
        Instruction::RType { rd, rs1, rs2, kind } => {
            assert_eq!(rd, Rd::X2);
            assert_eq!(rs1, Rs1::X2);
            assert_eq!(rs2, Rs2::X3);
            assert_eq!(kind, RKind::Add);
        }
        other => panic!("expected an R-type add, got {:?}", other),
    }
}

#[test]
fn test_decode_itype_addi() {
    // addi x2, x1, 2000
    match Instruction::decode_raw32(0x7d008113) {
        Instruction::IType { rd, rs1, i, kind } => {
            assert_eq!(rd, Rd::X2);
            assert_eq!(rs1, Rs1::X1);
            assert_eq!(i.i32(), 2000);
            assert_eq!(kind, IKind::Addi);
        }
        other => panic!("expected an I-type addi, got {:?}", other),
    }
}

#[test]
fn test_decode_btype_branch() {
    // A branch on 0x0000ce63 carries imm = 28; its funct3 bits read 100,
    // which the table maps to blt.
    match Instruction::decode_raw32(0x0000ce63) {
        Instruction::BType { rs1, rs2, b, kind } => {
            assert_eq!(rs1, Rs1::X1);
            assert_eq!(rs2, Rs2::X0);
            assert_eq!(b.i32(), 28);
            assert_eq!(kind, BKind::Blt);
        }
        other => panic!("expected a B-type branch, got {:?}", other),
    }
    // The same word with funct3 = 000 is beq x1, x0, 28.
    match Instruction::decode_raw32(0x00008e63) {
        Instruction::BType { rs1, rs2, b, kind } => {
            assert_eq!(rs1, Rs1::X1);
            assert_eq!(rs2, Rs2::X0);
            assert_eq!(b.i32(), 28);
            assert_eq!(kind, BKind::Beq);
        }
        other => panic!("expected a B-type beq, got {:?}", other),
    }
}

#[test]
fn test_decode_lrw_with_rs2_is_illegal() {
    // lr.w with a non-zero rs2 field must not decode: setting any bit of
    // the rs2 field of a well-formed lr.w makes the word illegal.
    match Instruction::decode_raw32(0x101120AF) {
        Instruction::Illegal32 { raw32 } => assert_eq!(raw32, 0x101120AF),
        other => panic!("expected an illegal instruction, got {:?}", other),
    }
    // The rs2 field of 0x100120AF itself reads zero, so it is a well-formed
    // lr.w.
    match Instruction::decode_raw32(0x100120AF) {
        Instruction::AmoType { kind, rs2, .. } => {
            assert_eq!(kind, AmoKind::Lrw);
            assert_eq!(rs2, Rs2::X0);
        }
        other => panic!("expected lr.w, got {:?}", other),
    }
}

#[test]
fn test_decode_csrrw_mtvec() {
    // csrrw x0, mtvec, x5
    match Instruction::decode_raw32(0x30529073) {
        Instruction::CsrType { rd, rs1, csr, kind } => {
            assert_eq!(rd, Rd::X0);
            assert_eq!(rs1, Rs1::X5);
            assert_eq!(csr, Csr::Mtvec);
            assert_eq!(kind, CsrKind::Csrrw);
        }
        other => panic!("expected a CSR write, got {:?}", other),
    }
}

#[test]
fn test_decode_csr_unknown_address_is_illegal() {
    // csrrw to address 0x004, which no standard CSR occupies.
    match Instruction::decode_raw32(0x00429073) {
        Instruction::Illegal32 { raw32 } => assert_eq!(raw32, 0x00429073),
        other => panic!("expected an illegal instruction, got {:?}", other),
    }
}

#[test]
fn test_decode_ecall_ebreak() {
    assert!(matches!(
        Instruction::decode_raw32(0x00000073),
        Instruction::Ecall
    ));
    assert!(matches!(
        Instruction::decode_raw32(0x00100073),
        Instruction::Ebreak
    ));
    // ecall with a non-zero rd field is not an ecall.
    assert!(matches!(
        Instruction::decode_raw32(0x000000f3),
        Instruction::Illegal32 { .. }
    ));
}

#[test]
fn test_decode_never_panics() {
    // The decoder is total: a coarse sweep of the 32-bit space, hitting every
    // opcode class and plenty of malformed words, must produce some variant.
    let mut raw: u32 = 0;
    loop {
        let _ = Instruction::decode_raw32(raw);
        let _ = Instruction::decode_raw32(raw.wrapping_mul(2654435761));
        match raw.checked_add(65521) {
            Some(next) => raw = next,
            None => break,
        }
    }
    for low in 0..128 {
        let _ = Instruction::decode_raw32(low);
        let _ = Instruction::decode_raw32(0xffffff80 | low);
    }
}

#[test]
fn test_opcode_classes() {
    assert_eq!(OpCode::decode_raw32(0x00000003), OpCode::Load);
    assert_eq!(OpCode::decode_raw32(0x0000000f), OpCode::MiscMem);
    assert_eq!(OpCode::decode_raw32(0x00000013), OpCode::OpImm);
    assert_eq!(OpCode::decode_raw32(0x00000017), OpCode::Auipc);
    assert_eq!(OpCode::decode_raw32(0x00000023), OpCode::Store);
    assert_eq!(OpCode::decode_raw32(0x0000002f), OpCode::Amo);
    assert_eq!(OpCode::decode_raw32(0x00000033), OpCode::Op);
    assert_eq!(OpCode::decode_raw32(0x00000037), OpCode::Lui);
    assert_eq!(OpCode::decode_raw32(0x00000063), OpCode::Branch);
    assert_eq!(OpCode::decode_raw32(0x00000067), OpCode::Jalr);
    assert_eq!(OpCode::decode_raw32(0x0000006f), OpCode::Jal);
    assert_eq!(OpCode::decode_raw32(0x00000073), OpCode::System);
    assert_eq!(OpCode::decode_raw32(0x00000057), OpCode::Other);
}

#[test]
fn test_instruction_default_is_illegal() {
    assert!(matches!(
        Instruction::default(),
        Instruction::Illegal32 { raw32: 0 }
    ));
}

#[test]
fn test_csr_round_trip() {
    let samples = [
        (0x001, Csr::Fflags),
        (0x105, Csr::Stvec),
        (0x305, Csr::Mtvec),
        (0x3A0, Csr::Pmpcfg0),
        (0xC00, Csr::Cycle),
        (0xF14, Csr::Mhartid),
        (0x7B3, Csr::Dscratch1),
    ];
    for (addr, csr) in samples {
        assert_eq!(Csr::checked_from_u32(addr), Some(csr));
        assert_eq!(csr.address_of(), addr);
    }
    assert_eq!(Csr::checked_from_u32(0x004), None);
    assert_eq!(Csr::checked_from_u32(0x306), Some(Csr::Mcounteren));
    assert_eq!(Csr::checked_from_u32(0x307), None);
    assert_eq!(Csr::checked_from_u32(0xFFF), None);
    // csr field of a word
    assert_eq!(Csr::decode_raw32(0x30529073), Some(Csr::Mtvec));
}

#[test]
fn test_error_codes() {
    let expected: [(Error, u32); 19] = [
        (Error::InstructionAddressMisaligned, 0),
        (Error::InstructionAccessFault, 1),
        (Error::IllegalInstruction, 2),
        (Error::Breakpoint, 3),
        (Error::LoadAddressMisaligned, 4),
        (Error::LoadAccessFault, 5),
        (Error::StoreOrAmoAddressMisaligned, 6),
        (Error::StoreOrAmoAccessFault, 7),
        (Error::EcallFromUOrVUMode, 8),
        (Error::EcallFromHSMode, 9),
        (Error::EcallFromVSMode, 10),
        (Error::EcallFromMMode, 11),
        (Error::InstructionPageFault, 12),
        (Error::LoadPageFault, 13),
        (Error::StoreOrAmoPageFault, 15),
        (Error::InstructionGuestPageFault, 20),
        (Error::LoadGuestPageFault, 21),
        (Error::VirtualInstruction, 22),
        (Error::StoreOrAmoGuestPageFault, 23),
    ];
    for (err, code) in expected {
        assert_eq!(err.code(), code);
    }
}

#[test]
fn test_decode_shift_immediates() {
    // srai x1, x1, 1 distinguishes from srli on funct7.
    match Instruction::decode_raw32(0x4010d093) {
        Instruction::IType { kind, .. } => assert_eq!(kind, IKind::Srai),
        other => panic!("expected srai, got {:?}", other),
    }
    match Instruction::decode_raw32(0x0010d093) {
        Instruction::IType { kind, .. } => assert_eq!(kind, IKind::Srli),
        other => panic!("expected srli, got {:?}", other),
    }
    // Any other funct7 on a shift is illegal.
    assert!(matches!(
        Instruction::decode_raw32(0x2010d093),
        Instruction::Illegal32 { .. }
    ));
}
