use remoulade::bitfield::{BType, JType, Opcode, Rd, Rs};

fn all_opcodes() -> Vec<Opcode> {
    vec![
        Opcode::Load,
        Opcode::Loadfp,
        Opcode::Custom0,
        Opcode::Miscmem,
        Opcode::Opimm,
        Opcode::Auipc,
        Opcode::Opimm32,
        Opcode::Store,
        Opcode::Storefp,
        Opcode::Custom1,
        Opcode::Amo,
        Opcode::Op,
        Opcode::Lui,
        Opcode::Op32,
        Opcode::Madd,
        Opcode::Msub,
        Opcode::Nmsub,
        Opcode::Nmadd,
        Opcode::Opfp,
        Opcode::Custom2,
        Opcode::Branch,
        Opcode::Jalr,
        Opcode::Jal,
        Opcode::System,
        Opcode::Custom3,
        Opcode::Invalid,
    ]
}

fn all_rd() -> Vec<Rd> {
    vec![
        Rd::X0,
        Rd::X1,
        Rd::X2,
        Rd::X3,
        Rd::X4,
        Rd::X5,
        Rd::X6,
        Rd::X7,
        Rd::X8,
        Rd::X9,
        Rd::X10,
        Rd::X11,
        Rd::X12,
        Rd::X13,
        Rd::X14,
        Rd::X15,
        Rd::X16,
        Rd::X17,
        Rd::X18,
        Rd::X19,
        Rd::X20,
        Rd::X21,
        Rd::X22,
        Rd::X23,
        Rd::X24,
        Rd::X25,
        Rd::X26,
        Rd::X27,
        Rd::X28,
        Rd::X29,
        Rd::X30,
        Rd::X31,
    ]
}

fn all_rs() -> Vec<Rs> {
    vec![
        Rs::X0,
        Rs::X1,
        Rs::X2,
        Rs::X3,
        Rs::X4,
        Rs::X5,
        Rs::X6,
        Rs::X7,
        Rs::X8,
        Rs::X9,
        Rs::X10,
        Rs::X11,
        Rs::X12,
        Rs::X13,
        Rs::X14,
        Rs::X15,
        Rs::X16,
        Rs::X17,
        Rs::X18,
        Rs::X19,
        Rs::X20,
        Rs::X21,
        Rs::X22,
        Rs::X23,
        Rs::X24,
        Rs::X25,
        Rs::X26,
        Rs::X27,
        Rs::X28,
        Rs::X29,
        Rs::X30,
        Rs::X31,
    ]
}

#[test]
fn test_jtype_opcode() {
    let mut j = JType(0);
    for op in all_opcodes() {
        let before = (j.rd(), j.imm());
        j.set_opcode(op);
        assert_eq!(before, (j.rd(), j.imm()));
        assert_eq!(op, j.opcode());
    }
}

#[test]
fn test_jtype_rd() {
    let mut j = JType(0);
    for rd in all_rd() {
        let before = (j.opcode(), j.imm());
        j.set_rd(rd);
        assert_eq!(before, (j.opcode(), j.imm()));
        assert_eq!(rd, j.rd());
    }
}

#[test]
fn test_jtype_imm() {
    let mut j = JType(0);
    for imm in (-1 << 20..1 << 20).step_by(2) {
        let before = (j.opcode(), j.rd());
        j.set_imm(imm);
        assert_eq!(before, (j.opcode(), j.rd()));
        assert_eq!(imm, j.imm());
    }
}

#[test]
fn test_btype_opcode() {
    let mut b = BType(0);
    for op in all_opcodes() {
        let before = (b.funct3(), b.rs1(), b.rs2(), b.imm());
        b.set_opcode(op);
        assert_eq!(before, (b.funct3(), b.rs1(), b.rs2(), b.imm()));
        assert_eq!(op, b.opcode());
    }
}

#[test]
fn test_btype_funct3() {
    let mut b = BType(0);
    for funct3 in 0..8 {
        let before = (b.opcode(), b.rs1(), b.rs2(), b.imm());
        b.set_funct3(funct3);
        assert_eq!(before, (b.opcode(), b.rs1(), b.rs2(), b.imm()));
        assert_eq!(funct3, b.funct3());
    }
}

#[test]
fn test_btype_rs1() {
    let mut b = BType(0);
    for rs1 in all_rs() {
        let before = (b.opcode(), b.funct3(), b.rs2(), b.imm());
        b.set_rs1(rs1);
        assert_eq!(before, (b.opcode(), b.funct3(), b.rs2(), b.imm()));
        assert_eq!(rs1, b.rs1());
    }
}

#[test]
fn test_btype_rs2() {
    let mut b = BType(0);
    for rs2 in all_rs() {
        let before = (b.opcode(), b.funct3(), b.rs1(), b.imm());
        b.set_rs2(rs2);
        assert_eq!(before, (b.opcode(), b.funct3(), b.rs1(), b.imm()));
        assert_eq!(rs2, b.rs2());
    }
}

#[test]
fn test_btype_imm() {
    let mut b = BType(0);
    for imm in (-4096..4096).step_by(2) {
        let before = (b.opcode(), b.funct3(), b.rs1(), b.rs2());
        b.set_imm(imm);
        assert_eq!(before, (b.opcode(), b.funct3(), b.rs1(), b.rs2()));
        assert_eq!(imm, b.imm());
    }
}

#[test]
fn test_btype_builder() {
    let b = BType::builder()
        .opcode(Opcode::Load)
        .funct3(3)
        .rs1(Rs::X2)
        .rs2(Rs::X5)
        .imm(-20)
        .build();

    assert_eq!(b.opcode(), Opcode::Load);
    assert_eq!(b.funct3(), 3);
    assert_eq!(b.rs1(), Rs::X2);
    assert_eq!(b.rs2(), Rs::X5);
    assert_eq!(b.imm(), -20);
}
