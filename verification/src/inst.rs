//! The total RV32 instruction decoder.
//!
//! `Instruction::decode_raw32` maps every 32-bit word to a tagged variant;
//! encodings outside the RV32I+M+A+Zifencei tables come back as
//! `Illegal32`, never as a failure.

pub mod imm;

use vstd::prelude::*;

use crate::csr::Csr;
use crate::inst::imm::AmoAqrl;
use crate::inst::imm::BTypeImmediate;
use crate::inst::imm::FenceInfo;
use crate::inst::imm::ITypeImmediate;
use crate::inst::imm::JTypeImmediate;
use crate::inst::imm::STypeImmediate;
use crate::inst::imm::UTypeImmediate;
use crate::reg::Rd;
use crate::reg::Rs1;
use crate::reg::Rs2;

verus! {

#[non_exhaustive]
#[derive(Copy, Clone, Debug, PartialEq, Eq, Structural)]
/// The major opcode classes of the RV32 base and extension tables.
pub enum OpCode {
    Load,
    MiscMem,
    OpImm,
    Auipc,
    Store,
    Amo,
    Op,
    Lui,
    Branch,
    Jalr,
    Jal,
    System,
    Other,
}

impl OpCode {
    /// The class selected by the seven low bits of an instruction word.
    pub open spec fn spec_decode(raw32: u32) -> OpCode {
        match raw32 & 0x7f {
            0b0000011 => OpCode::Load,
            0b0001111 => OpCode::MiscMem,
            0b0010011 => OpCode::OpImm,
            0b0010111 => OpCode::Auipc,
            0b0100011 => OpCode::Store,
            0b0101111 => OpCode::Amo,
            0b0110011 => OpCode::Op,
            0b0110111 => OpCode::Lui,
            0b1100011 => OpCode::Branch,
            0b1100111 => OpCode::Jalr,
            0b1101111 => OpCode::Jal,
            0b1110011 => OpCode::System,
            _ => OpCode::Other,
        }
    }

    pub fn decode_raw32(raw32: u32) -> (r: Self)
        ensures
            r == Self::spec_decode(raw32),
    {
        match raw32 & 0x7f {
            0b0000011 => OpCode::Load,
            0b0001111 => OpCode::MiscMem,
            0b0010011 => OpCode::OpImm,
            0b0010111 => OpCode::Auipc,
            0b0100011 => OpCode::Store,
            0b0101111 => OpCode::Amo,
            0b0110011 => OpCode::Op,
            0b0110111 => OpCode::Lui,
            0b1100011 => OpCode::Branch,
            0b1100111 => OpCode::Jalr,
            0b1101111 => OpCode::Jal,
            0b1110011 => OpCode::System,
            _ => OpCode::Other,
        }
    }
}

/// Reserved adapter for the 16-bit compressed instruction fields.
pub trait Fields16 {

}

/// Adapter trait to extract instruction fields from 32-bit RISC-V instructions
pub trait Fields32 {
    /// The instruction word the fields are read from.
    spec fn raw_spec(&self) -> u32;

    // Discriminants
    fn opcode(&self) -> (r: OpCode)
        ensures
            r == OpCode::spec_decode(self.raw_spec()),
    ;

    fn funct3(&self) -> (r: u32)
        ensures
            r == self.raw_spec() >> 12 & 7,
    ;

    fn funct7(&self) -> (r: u32)
        ensures
            r == self.raw_spec() >> 25,
    ;

    fn funct12(&self) -> (r: u32)
        ensures
            r == self.raw_spec() >> 20,
    ;

    fn funct5(&self) -> (r: u32)
        ensures
            r == self.raw_spec() >> 27,
    ;

    // Immediates
    fn i(&self) -> (r: ITypeImmediate)
        ensures
            r == ITypeImmediate::spec_decode(self.raw_spec()),
    ;

    fn b(&self) -> (r: BTypeImmediate)
        ensures
            r == BTypeImmediate::spec_decode(self.raw_spec()),
    ;

    fn s(&self) -> (r: STypeImmediate)
        ensures
            r == STypeImmediate::spec_decode(self.raw_spec()),
    ;

    fn u(&self) -> (r: UTypeImmediate)
        ensures
            r == UTypeImmediate::spec_decode(self.raw_spec()),
    ;

    fn j(&self) -> (r: JTypeImmediate)
        ensures
            r == JTypeImmediate::spec_decode(self.raw_spec()),
    ;

    fn fence_info(&self) -> (r: FenceInfo)
        ensures
            r == FenceInfo::spec_decode(self.raw_spec()),
    ;

    fn aqrl(&self) -> (r: AmoAqrl)
        ensures
            r == AmoAqrl::spec_decode(self.raw_spec()),
    ;

    // Registers
    fn rs1(&self) -> (r: Rs1)
        ensures
            r == Rs1::spec_decode(self.raw_spec()),
    ;

    fn rs2(&self) -> (r: Rs2)
        ensures
            r == Rs2::spec_decode(self.raw_spec()),
    ;

    fn rd(&self) -> (r: Rd)
        ensures
            r == Rd::spec_decode(self.raw_spec()),
    ;

    fn csr(&self) -> (r: Option<Csr>)
        ensures
            r == Csr::spec_from_address(self.raw_spec() >> 20),
    ;
}

impl Fields32 for u32 {
    open spec fn raw_spec(&self) -> u32 {
        *self
    }

    fn opcode(&self) -> (r: OpCode) {
        OpCode::decode_raw32(*self)
    }

    fn funct3(&self) -> (r: u32) {
        *self >> 12 & 7
    }

    fn funct7(&self) -> (r: u32) {
        *self >> 25
    }

    fn funct12(&self) -> (r: u32) {
        *self >> 20
    }

    fn funct5(&self) -> (r: u32) {
        *self >> 27
    }

    fn i(&self) -> (r: ITypeImmediate) {
        ITypeImmediate::decode_raw32(*self)
    }

    fn b(&self) -> (r: BTypeImmediate) {
        BTypeImmediate::decode_raw32(*self)
    }

    fn s(&self) -> (r: STypeImmediate) {
        STypeImmediate::decode_raw32(*self)
    }

    fn u(&self) -> (r: UTypeImmediate) {
        UTypeImmediate::decode_raw32(*self)
    }

    fn j(&self) -> (r: JTypeImmediate) {
        JTypeImmediate::decode_raw32(*self)
    }

    fn fence_info(&self) -> (r: FenceInfo) {
        FenceInfo::decode_raw32(*self)
    }

    fn aqrl(&self) -> (r: AmoAqrl) {
        AmoAqrl::decode_raw32(*self)
    }

    fn rs1(&self) -> (r: Rs1) {
        Rs1::decode_raw32(*self)
    }

    fn rs2(&self) -> (r: Rs2) {
        Rs2::decode_raw32(*self)
    }

    fn rd(&self) -> (r: Rd) {
        Rd::decode_raw32(*self)
    }

    fn csr(&self) -> (r: Option<Csr>) {
        Csr::decode_raw32(*self)
    }
}

#[derive(Copy, Clone, Debug, PartialEq, Eq, Structural)]
/// Register-register operations of RV32I and the M extension.
pub enum RKind {
    Add,
    Sub,
    Sll,
    Slt,
    Sltu,
    Xor,
    Srl,
    Sra,
    Or,
    And,
    Mul,
    Mulh,
    Mulhsu,
    Mulhu,
    Div,
    Divu,
    Rem,
    Remu,
}

#[derive(Copy, Clone, Debug, PartialEq, Eq, Structural)]
/// Upper-immediate operations.
pub enum UKind {
    Lui,
    Auipc,
}

#[derive(Copy, Clone, Debug, PartialEq, Eq, Structural)]
/// Conditional branches.
pub enum BKind {
    Beq,
    Bne,
    Blt,
    Bge,
    Bltu,
    Bgeu,
}

#[derive(Copy, Clone, Debug, PartialEq, Eq, Structural)]
/// Register-immediate operations, loads, and `fence.i`.
pub enum IKind {
    Jalr,
    Lb,
    Lh,
    Lw,
    Lbu,
    Lhu,
    Addi,
    Slti,
    Sltiu,
    Xori,
    Ori,
    Andi,
    // NOTE: Even though the immediate type for the immediate shifts have
    // their own specialisation, we use the same i-type immediate here and
    // simply use a `::wrapping_shX` to perform the shift. This is the
    // behaviour of the non-immediate shifts as well --- use only the 5 lower
    // bits of rs2 to shift rs1.
    Slli,
    Srli,
    Srai,
    Fencei,
}

#[derive(Copy, Clone, Debug, PartialEq, Eq, Structural)]
/// CSR read-modify-write operations.
pub enum CsrKind {
    Csrrw,
    Csrrs,
    Csrrc,
    // NOTE: Immediate types interpret the 5-bit register selector `rs1` as an
    // unsigned integer and use that instead of `reg[rs1]`.
    Csrrwi,
    Csrrsi,
    Csrrci,
}

#[derive(Copy, Clone, Debug, PartialEq, Eq, Structural)]
/// Stores.
pub enum SKind {
    Sb,
    Sh,
    Sw,
}

#[derive(Copy, Clone, Debug, PartialEq, Eq, Structural)]
/// Atomic memory operations of the A extension.
pub enum AmoKind {
    // NOTE: Lrw requires rs2 be Rs2::X0. (I.e. there is no rs2.) We verify
    // this at decode time to avoid adding another variant.
    Lrw,
    Scw,
    Amoswapw,
    Amoaddw,
    Amoxorw,
    Amoandw,
    Amoorw,
    Amominw,
    Amomaxw,
    Amominuw,
    Amomaxuw,
}

#[derive(Clone, Copy, Debug, PartialEq, Eq, Structural)]
/// A decoded instruction, small enough for sixteen to share a cache line.
pub enum Instruction {
    UType { rd: Rd, u: UTypeImmediate, kind: UKind },
    Jal { rd: Rd, j: JTypeImmediate },
    IType { rd: Rd, rs1: Rs1, i: ITypeImmediate, kind: IKind },
    BType { rs1: Rs1, rs2: Rs2, b: BTypeImmediate, kind: BKind },
    SType { rs1: Rs1, rs2: Rs2, s: STypeImmediate, kind: SKind },
    RType { rd: Rd, rs1: Rs1, rs2: Rs2, kind: RKind },
    Fence { rd: Rd, rs1: Rs1, info: FenceInfo },
    Ecall,
    Ebreak,
    CsrType { rd: Rd, rs1: Rs1, csr: Csr, kind: CsrKind },
    AmoType { rd: Rd, rs1: Rs1, rs2: Rs2, aqrl: AmoAqrl, kind: AmoKind },
    Illegal32 { raw32: u32 },
    Illegal16 { raw16: u16 },
}

impl Instruction {
    /// The partial RV32I+M+A+Zifencei decode table: the variant an instruction
    /// word decodes to, or nothing where the word is malformed.
    pub open spec fn spec_decode_inner(raw32: u32) -> Option<Instruction> {
        let rd = Rd::spec_decode(raw32);
        let rs1 = Rs1::spec_decode(raw32);
        let rs2 = Rs2::spec_decode(raw32);
        let funct3 = raw32 >> 12 & 7;
        let funct7 = raw32 >> 25;
        match OpCode::spec_decode(raw32) {
            OpCode::Load => {
                let i = ITypeImmediate::spec_decode(raw32);
                match funct3 {
                    0b000 => Some(Instruction::IType { rd, rs1, i, kind: IKind::Lb }),
                    0b001 => Some(Instruction::IType { rd, rs1, i, kind: IKind::Lh }),
                    0b010 => Some(Instruction::IType { rd, rs1, i, kind: IKind::Lw }),
                    0b100 => Some(Instruction::IType { rd, rs1, i, kind: IKind::Lbu }),
                    0b101 => Some(Instruction::IType { rd, rs1, i, kind: IKind::Lhu }),
                    _ => None,
                }
            },
            OpCode::MiscMem => {
                let i = ITypeImmediate::spec_decode(raw32);
                let info = FenceInfo::spec_decode(raw32);
                match funct3 {
                    0b000 => Some(Instruction::Fence { rd, rs1, info }),
                    0b001 => Some(Instruction::IType { rd, rs1, i, kind: IKind::Fencei }),
                    _ => None,
                }
            },
            OpCode::OpImm => {
                // funct7 is part of the immediate except in the shift
                // encodings, where it selects the shift kind.
                let i = ITypeImmediate::spec_decode(raw32);
                match funct3 {
                    0b000 => Some(Instruction::IType { rd, rs1, i, kind: IKind::Addi }),
                    0b010 => Some(Instruction::IType { rd, rs1, i, kind: IKind::Slti }),
                    0b011 => Some(Instruction::IType { rd, rs1, i, kind: IKind::Sltiu }),
                    0b100 => Some(Instruction::IType { rd, rs1, i, kind: IKind::Xori }),
                    0b110 => Some(Instruction::IType { rd, rs1, i, kind: IKind::Ori }),
                    0b111 => Some(Instruction::IType { rd, rs1, i, kind: IKind::Andi }),
                    0b001 => if funct7 == 0b0000000 {
                        Some(Instruction::IType { rd, rs1, i, kind: IKind::Slli })
                    } else {
                        None
                    },
                    0b101 => if funct7 == 0b0000000 {
                        Some(Instruction::IType { rd, rs1, i, kind: IKind::Srli })
                    } else if funct7 == 0b0100000 {
                        Some(Instruction::IType { rd, rs1, i, kind: IKind::Srai })
                    } else {
                        None
                    },
                    _ => None,
                }
            },
            OpCode::Auipc => Some(
                Instruction::UType {
                    rd,
                    u: UTypeImmediate::spec_decode(raw32),
                    kind: UKind::Auipc,
                },
            ),
            OpCode::Store => {
                let s = STypeImmediate::spec_decode(raw32);
                match funct3 {
                    0b000 => Some(Instruction::SType { rs1, rs2, s, kind: SKind::Sb }),
                    0b001 => Some(Instruction::SType { rs1, rs2, s, kind: SKind::Sh }),
                    0b010 => Some(Instruction::SType { rs1, rs2, s, kind: SKind::Sw }),
                    _ => None,
                }
            },
            OpCode::Amo => {
                let aqrl = AmoAqrl::spec_decode(raw32);
                let funct5 = raw32 >> 27;
                if funct3 == 0b010 {
                    let kind = match funct5 {
                        0b00010 => if rs2 == Rs2::X0 {
                            Some(AmoKind::Lrw)
                        } else {
                            None
                        },
                        0b00011 => Some(AmoKind::Scw),
                        0b00001 => Some(AmoKind::Amoswapw),
                        0b00000 => Some(AmoKind::Amoaddw),
                        0b00100 => Some(AmoKind::Amoxorw),
                        0b01100 => Some(AmoKind::Amoandw),
                        0b01000 => Some(AmoKind::Amoorw),
                        0b10000 => Some(AmoKind::Amominw),
                        0b10100 => Some(AmoKind::Amomaxw),
                        0b11000 => Some(AmoKind::Amominuw),
                        0b11100 => Some(AmoKind::Amomaxuw),
                        _ => None,
                    };
                    match kind {
                        Some(kind) => Some(Instruction::AmoType { rd, rs1, rs2, aqrl, kind }),
                        None => None,
                    }
                } else {
                    None
                }
            },
            OpCode::Op => {
                let kind = match (funct3, funct7) {
                    (0b000, 0b0000000) => Some(RKind::Add),
                    (0b000, 0b0100000) => Some(RKind::Sub),
                    (0b001, 0b0000000) => Some(RKind::Sll),
                    (0b010, 0b0000000) => Some(RKind::Slt),
                    (0b011, 0b0000000) => Some(RKind::Sltu),
                    (0b100, 0b0000000) => Some(RKind::Xor),
                    (0b101, 0b0000000) => Some(RKind::Srl),
                    (0b101, 0b0100000) => Some(RKind::Sra),
                    (0b110, 0b0000000) => Some(RKind::Or),
                    (0b111, 0b0000000) => Some(RKind::And),
                    (0b000, 0b0000001) => Some(RKind::Mul),
                    (0b001, 0b0000001) => Some(RKind::Mulh),
                    (0b010, 0b0000001) => Some(RKind::Mulhsu),
                    (0b011, 0b0000001) => Some(RKind::Mulhu),
                    (0b100, 0b0000001) => Some(RKind::Div),
                    (0b101, 0b0000001) => Some(RKind::Divu),
                    (0b110, 0b0000001) => Some(RKind::Rem),
                    (0b111, 0b0000001) => Some(RKind::Remu),
                    _ => None,
                };
                match kind {
                    Some(kind) => Some(Instruction::RType { rd, rs1, rs2, kind }),
                    None => None,
                }
            },
            OpCode::Lui => Some(
                Instruction::UType { rd, u: UTypeImmediate::spec_decode(raw32), kind: UKind::Lui },
            ),
            OpCode::Branch => {
                let b = BTypeImmediate::spec_decode(raw32);
                match funct3 {
                    0b000 => Some(Instruction::BType { rs1, rs2, b, kind: BKind::Beq }),
                    0b001 => Some(Instruction::BType { rs1, rs2, b, kind: BKind::Bne }),
                    0b100 => Some(Instruction::BType { rs1, rs2, b, kind: BKind::Blt }),
                    0b101 => Some(Instruction::BType { rs1, rs2, b, kind: BKind::Bge }),
                    0b110 => Some(Instruction::BType { rs1, rs2, b, kind: BKind::Bltu }),
                    0b111 => Some(Instruction::BType { rs1, rs2, b, kind: BKind::Bgeu }),
                    _ => None,
                }
            },
            OpCode::Jalr => Some(
                Instruction::IType {
                    rd,
                    rs1,
                    i: ITypeImmediate::spec_decode(raw32),
                    kind: IKind::Jalr,
                },
            ),
            OpCode::Jal => Some(Instruction::Jal { rd, j: JTypeImmediate::spec_decode(raw32) }),
            OpCode::System => {
                if funct3 == 0b000 {
                    if rd == Rd::X0 && rs1 == Rs1::X0 {
                        match raw32 >> 20 {
                            0b000000000000 => Some(Instruction::Ecall),
                            0b000000000001 => Some(Instruction::Ebreak),
                            _ => None,
                        }
                    } else {
                        None
                    }
                } else if 0b001 <= funct3 <= 0b011 || 0b101 <= funct3 <= 0b111 {
                    // NOTE: "Attempts to access a non-existent CSR raise an
                    // illegal instruction exception."
                    //       --- RISC-V Privileged specification, p. 6
                    // Thus, we can verify at decode time whether this should
                    // decode into an invalid instruction.
                    match Csr::spec_from_address(raw32 >> 20) {
                        Some(csr) => {
                            let kind = if funct3 == 0b001 {
                                CsrKind::Csrrw
                            } else if funct3 == 0b010 {
                                CsrKind::Csrrs
                            } else if funct3 == 0b011 {
                                CsrKind::Csrrc
                            } else if funct3 == 0b101 {
                                CsrKind::Csrrwi
                            } else if funct3 == 0b110 {
                                CsrKind::Csrrsi
                            } else {
                                CsrKind::Csrrci
                            };
                            Some(Instruction::CsrType { rd, rs1, csr, kind })
                        },
                        None => None,
                    }
                } else {
                    None
                }
            },
            _ => None,
        }
    }

    /// The total decode map: every malformed word becomes `Illegal32`.
    pub open spec fn spec_decode(raw32: u32) -> Instruction {
        match Instruction::spec_decode_inner(raw32) {
            Some(inst) => inst,
            None => Instruction::Illegal32 { raw32 },
        }
    }

    /// Tries to decode a 32-bit RISC-V instruction.
    /// Returns `Some(Instruction)` when decode is successful.
    /// Returns `None` when decoding produces an illegal instruction.
    fn decode_raw32_inner(raw32: u32) -> (res: Option<Self>)
        ensures
            res == Self::spec_decode_inner(raw32),
    {
        let rd = raw32.rd();
        let rs1 = raw32.rs1();
        let rs2 = raw32.rs2();
        let i = raw32.i();
        let j = raw32.j();
        let b = raw32.b();
        let s = raw32.s();
        let u = raw32.u();
        let funct3 = raw32.funct3();
        let funct7 = raw32.funct7();

        let result = match OpCode::decode_raw32(raw32) {
            OpCode::Load => {
                let kind = match funct3 {
                    0b000 => IKind::Lb,
                    0b001 => IKind::Lh,
                    0b010 => IKind::Lw,
                    0b100 => IKind::Lbu,
                    0b101 => IKind::Lhu,
                    _ => {
                        return None;
                    },
                };
                Instruction::IType { rd, rs1, i, kind }
            },
            OpCode::MiscMem => {
                let info = raw32.fence_info();
                match funct3 {
                    0b000 => Instruction::Fence { rd, rs1, info },
                    0b001 => {
                        let kind = IKind::Fencei;
                        Instruction::IType { rd, rs1, i, kind }
                    },
                    _ => {
                        return None;
                    },
                }
            },
            OpCode::OpImm => {
                // funct7 is part of the immediate except in the shift
                // encodings, where it selects the shift kind.
                let kind = match (funct3, funct7) {
                    (0b000, _) => IKind::Addi,
                    (0b010, _) => IKind::Slti,
                    (0b011, _) => IKind::Sltiu,
                    (0b100, _) => IKind::Xori,
                    (0b110, _) => IKind::Ori,
                    (0b111, _) => IKind::Andi,
                    (0b001, 0b0000000) => IKind::Slli,
                    (0b101, 0b0000000) => IKind::Srli,
                    (0b101, 0b0100000) => IKind::Srai,
                    _ => {
                        return None;
                    },
                };
                Instruction::IType { rd, rs1, i, kind }
            },
            OpCode::Auipc => {
                let kind = UKind::Auipc;
                Instruction::UType { rd, u, kind }
            },
            OpCode::Store => {
                let kind = match funct3 {
                    0b000 => SKind::Sb,
                    0b001 => SKind::Sh,
                    0b010 => SKind::Sw,
                    _ => {
                        return None;
                    },
                };
                Instruction::SType { rs1, rs2, s, kind }
            },
            OpCode::Amo => {
                let aqrl = raw32.aqrl();
                let funct5 = raw32.funct5();
                let kind = match funct3 {
                    0b010 => match funct5 {
                        0b00010 if rs2 == Rs2::X0 => AmoKind::Lrw,
                        0b00011 => AmoKind::Scw,
                        0b00001 => AmoKind::Amoswapw,
                        0b00000 => AmoKind::Amoaddw,
                        0b00100 => AmoKind::Amoxorw,
                        0b01100 => AmoKind::Amoandw,
                        0b01000 => AmoKind::Amoorw,
                        0b10000 => AmoKind::Amominw,
                        0b10100 => AmoKind::Amomaxw,
                        0b11000 => AmoKind::Amominuw,
                        0b11100 => AmoKind::Amomaxuw,
                        _ => {
                            return None;
                        },
                    },
                    _ => {
                        return None;
                    },
                };
                Instruction::AmoType { rd, rs1, rs2, aqrl, kind }
            },
            OpCode::Op => {
                let kind = match (funct3, funct7) {
                    (0b000, 0b0000000) => RKind::Add,
                    (0b000, 0b0100000) => RKind::Sub,
                    (0b001, 0b0000000) => RKind::Sll,
                    (0b010, 0b0000000) => RKind::Slt,
                    (0b011, 0b0000000) => RKind::Sltu,
                    (0b100, 0b0000000) => RKind::Xor,
                    (0b101, 0b0000000) => RKind::Srl,
                    (0b101, 0b0100000) => RKind::Sra,
                    (0b110, 0b0000000) => RKind::Or,
                    (0b111, 0b0000000) => RKind::And,
                    (0b000, 0b0000001) => RKind::Mul,
                    (0b001, 0b0000001) => RKind::Mulh,
                    (0b010, 0b0000001) => RKind::Mulhsu,
                    (0b011, 0b0000001) => RKind::Mulhu,
                    (0b100, 0b0000001) => RKind::Div,
                    (0b101, 0b0000001) => RKind::Divu,
                    (0b110, 0b0000001) => RKind::Rem,
                    (0b111, 0b0000001) => RKind::Remu,
                    _ => {
                        return None;
                    },
                };
                Instruction::RType { rd, rs1, rs2, kind }
            },
            OpCode::Lui => {
                let kind = UKind::Lui;
                Instruction::UType { rd, u, kind }
            },
            OpCode::Branch => {
                let kind = match funct3 {
                    0b000 => BKind::Beq,
                    0b001 => BKind::Bne,
                    0b100 => BKind::Blt,
                    0b101 => BKind::Bge,
                    0b110 => BKind::Bltu,
                    0b111 => BKind::Bgeu,
                    _ => {
                        return None;
                    },
                };
                Instruction::BType { rs1, rs2, b, kind }
            },
            OpCode::Jalr => {
                let kind = IKind::Jalr;
                Instruction::IType { rd, rs1, i, kind }
            },
            OpCode::Jal => Instruction::Jal { rd, j },
            OpCode::System => {
                match funct3 {
                    0b000 => {
                        if rd == Rd::X0 && rs1 == Rs1::X0 {
                            match raw32.funct12() {
                                0b000000000000 => Instruction::Ecall,
                                0b000000000001 => Instruction::Ebreak,
                                _ => {
                                    return None;
                                },
                            }
                        } else {
                            return None;
                        }
                    },
                    0b001..=0b011 | 0b101..=0b111 => {
                        // NOTE: "Attempts to access a non-existent CSR raise
                        // an illegal instruction exception."
                        //       --- RISC-V Privileged specification, p. 6
                        // Thus, we can verify at decode time whether this
                        // should decode into an invalid instruction.
                        let csr = match raw32.csr() {
                            Some(csr) => csr,
                            None => {
                                return None;
                            },
                        };
                        let kind = match funct3 {
                            0b001 => CsrKind::Csrrw,
                            0b010 => CsrKind::Csrrs,
                            0b011 => CsrKind::Csrrc,
                            0b101 => CsrKind::Csrrwi,
                            0b110 => CsrKind::Csrrsi,
                            0b111 => CsrKind::Csrrci,
                            // Unreachable because we've already matched both
                            // ranges.
                            _ => unreached(),
                        };
                        Instruction::CsrType { rd, rs1, csr, kind }
                    },
                    _ => {
                        return None;
                    },
                }
            },
            OpCode::Other => {
                return None;
            },
        };
        Some(result)
    }

    pub fn decode_raw32(raw32: u32) -> (r: Self)
        ensures
            r == Self::spec_decode(raw32),
    {
        let default = Self::Illegal32 { raw32 };
        match Self::decode_raw32_inner(raw32) {
            Some(inst) => inst,
            None => default,
        }
    }
}

impl Default for Instruction {
    fn default() -> (r: Self)
        ensures
            r == (Instruction::Illegal32 { raw32: 0u32 }),
    {
        Self::Illegal32 { raw32: 0 }
    }
}

} // verus!
