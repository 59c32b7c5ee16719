//! Hand-written bit-field records over a 32-bit backing word.
//!
//! Each record packs fields into declared bit ranges of its backing word;
//! a getter extracts and, for signed fields, sign-extends its ranges, and a
//! setter overwrites exactly the bits of its ranges and nothing else. The
//! records spell out the branch and jump instruction formats, with the
//! scattered immediate ranges of the B and J forms.

use vstd::prelude::*;

use crate::inst::imm::b_imm_bits;
use crate::inst::imm::b_imm_value;
use crate::inst::imm::j_imm_bits;
use crate::inst::imm::j_imm_value;
use crate::inst::imm::lemma_imm_bits_bounds;

verus! {

#[derive(Debug, Clone, Copy, PartialEq, Eq, Structural)]
/// A major opcode, stored in the seven low bits of an instruction word.
pub enum Opcode {
    Load,
    Loadfp,
    Custom0,
    Miscmem,
    Opimm,
    Auipc,
    Opimm32,
    Store,
    Storefp,
    Custom1,
    Amo,
    Op,
    Lui,
    Op32,
    Madd,
    Msub,
    Nmsub,
    Nmadd,
    Opfp,
    Custom2,
    Branch,
    Jalr,
    Jal,
    System,
    Custom3,
    Invalid,
}

impl Opcode {
    /// The opcode encoded by a seven-bit value; anything unassigned is
    /// `Invalid`.
    pub open spec fn spec_from_u32(value: u32) -> Opcode {
        match value {
            0b0000011 => Opcode::Load,
            0b0000111 => Opcode::Loadfp,
            0b0001011 => Opcode::Custom0,
            0b0001111 => Opcode::Miscmem,
            0b0010011 => Opcode::Opimm,
            0b0010111 => Opcode::Auipc,
            0b0011011 => Opcode::Opimm32,
            0b0100011 => Opcode::Store,
            0b0100111 => Opcode::Storefp,
            0b0101011 => Opcode::Custom1,
            0b0101111 => Opcode::Amo,
            0b0110011 => Opcode::Op,
            0b0110111 => Opcode::Lui,
            0b0111011 => Opcode::Op32,
            0b1000011 => Opcode::Madd,
            0b1000111 => Opcode::Msub,
            0b1001011 => Opcode::Nmsub,
            0b1001111 => Opcode::Nmadd,
            0b1010011 => Opcode::Opfp,
            0b1011011 => Opcode::Custom2,
            0b1100011 => Opcode::Branch,
            0b1100111 => Opcode::Jalr,
            0b1101111 => Opcode::Jal,
            0b1110011 => Opcode::System,
            0b1111011 => Opcode::Custom3,
            _ => Opcode::Invalid,
        }
    }

    /// The seven-bit encoding of this opcode.
    pub open spec fn spec_as_u32(self) -> u32 {
        match self {
            Opcode::Load => 0b0000011,
            Opcode::Loadfp => 0b0000111,
            Opcode::Custom0 => 0b0001011,
            Opcode::Miscmem => 0b0001111,
            Opcode::Opimm => 0b0010011,
            Opcode::Auipc => 0b0010111,
            Opcode::Opimm32 => 0b0011011,
            Opcode::Store => 0b0100011,
            Opcode::Storefp => 0b0100111,
            Opcode::Custom1 => 0b0101011,
            Opcode::Amo => 0b0101111,
            Opcode::Op => 0b0110011,
            Opcode::Lui => 0b0110111,
            Opcode::Op32 => 0b0111011,
            Opcode::Madd => 0b1000011,
            Opcode::Msub => 0b1000111,
            Opcode::Nmsub => 0b1001011,
            Opcode::Nmadd => 0b1001111,
            Opcode::Opfp => 0b1010011,
            Opcode::Custom2 => 0b1011011,
            Opcode::Branch => 0b1100011,
            Opcode::Jalr => 0b1100111,
            Opcode::Jal => 0b1101111,
            Opcode::System => 0b1110011,
            Opcode::Custom3 => 0b1111011,
            Opcode::Invalid => 0b0000000,
        }
    }

    pub fn from_u32(value: u32) -> (r: Self)
        ensures
            r == Self::spec_from_u32(value),
    {
        match value {
            0b0000011 => Opcode::Load,
            0b0000111 => Opcode::Loadfp,
            0b0001011 => Opcode::Custom0,
            0b0001111 => Opcode::Miscmem,
            0b0010011 => Opcode::Opimm,
            0b0010111 => Opcode::Auipc,
            0b0011011 => Opcode::Opimm32,
            0b0100011 => Opcode::Store,
            0b0100111 => Opcode::Storefp,
            0b0101011 => Opcode::Custom1,
            0b0101111 => Opcode::Amo,
            0b0110011 => Opcode::Op,
            0b0110111 => Opcode::Lui,
            0b0111011 => Opcode::Op32,
            0b1000011 => Opcode::Madd,
            0b1000111 => Opcode::Msub,
            0b1001011 => Opcode::Nmsub,
            0b1001111 => Opcode::Nmadd,
            0b1010011 => Opcode::Opfp,
            0b1011011 => Opcode::Custom2,
            0b1100011 => Opcode::Branch,
            0b1100111 => Opcode::Jalr,
            0b1101111 => Opcode::Jal,
            0b1110011 => Opcode::System,
            0b1111011 => Opcode::Custom3,
            _ => Opcode::Invalid,
        }
    }

    pub fn as_u32(&self) -> (r: u32)
        ensures
            r == self.spec_as_u32(),
    {
        match self {
            Opcode::Load => 0b0000011,
            Opcode::Loadfp => 0b0000111,
            Opcode::Custom0 => 0b0001011,
            Opcode::Miscmem => 0b0001111,
            Opcode::Opimm => 0b0010011,
            Opcode::Auipc => 0b0010111,
            Opcode::Opimm32 => 0b0011011,
            Opcode::Store => 0b0100011,
            Opcode::Storefp => 0b0100111,
            Opcode::Custom1 => 0b0101011,
            Opcode::Amo => 0b0101111,
            Opcode::Op => 0b0110011,
            Opcode::Lui => 0b0110111,
            Opcode::Op32 => 0b0111011,
            Opcode::Madd => 0b1000011,
            Opcode::Msub => 0b1000111,
            Opcode::Nmsub => 0b1001011,
            Opcode::Nmadd => 0b1001111,
            Opcode::Opfp => 0b1010011,
            Opcode::Custom2 => 0b1011011,
            Opcode::Branch => 0b1100011,
            Opcode::Jalr => 0b1100111,
            Opcode::Jal => 0b1101111,
            Opcode::System => 0b1110011,
            Opcode::Custom3 => 0b1111011,
            Opcode::Invalid => 0b0000000,
        }
    }
}

#[derive(Debug, PartialEq, Eq, Clone, Copy, Structural)]
/// A destination register selector field.
pub enum Rd {
    X0,
    X1,
    X2,
    X3,
    X4,
    X5,
    X6,
    X7,
    X8,
    X9,
    X10,
    X11,
    X12,
    X13,
    X14,
    X15,
    X16,
    X17,
    X18,
    X19,
    X20,
    X21,
    X22,
    X23,
    X24,
    X25,
    X26,
    X27,
    X28,
    X29,
    X30,
    X31,
}

impl Rd {
    /// The selector a five-bit value names.
    pub open spec fn spec_from_u32(value: u32) -> Rd {
        match value {
            0 => Rd::X0,
            1 => Rd::X1,
            2 => Rd::X2,
            3 => Rd::X3,
            4 => Rd::X4,
            5 => Rd::X5,
            6 => Rd::X6,
            7 => Rd::X7,
            8 => Rd::X8,
            9 => Rd::X9,
            10 => Rd::X10,
            11 => Rd::X11,
            12 => Rd::X12,
            13 => Rd::X13,
            14 => Rd::X14,
            15 => Rd::X15,
            16 => Rd::X16,
            17 => Rd::X17,
            18 => Rd::X18,
            19 => Rd::X19,
            20 => Rd::X20,
            21 => Rd::X21,
            22 => Rd::X22,
            23 => Rd::X23,
            24 => Rd::X24,
            25 => Rd::X25,
            26 => Rd::X26,
            27 => Rd::X27,
            28 => Rd::X28,
            29 => Rd::X29,
            30 => Rd::X30,
            31 => Rd::X31,
            _ => Rd::X0,
        }
    }

    /// The five-bit encoding of this selector.
    pub open spec fn spec_as_u32(self) -> u32 {
        match self {
            Rd::X0 => 0,
            Rd::X1 => 1,
            Rd::X2 => 2,
            Rd::X3 => 3,
            Rd::X4 => 4,
            Rd::X5 => 5,
            Rd::X6 => 6,
            Rd::X7 => 7,
            Rd::X8 => 8,
            Rd::X9 => 9,
            Rd::X10 => 10,
            Rd::X11 => 11,
            Rd::X12 => 12,
            Rd::X13 => 13,
            Rd::X14 => 14,
            Rd::X15 => 15,
            Rd::X16 => 16,
            Rd::X17 => 17,
            Rd::X18 => 18,
            Rd::X19 => 19,
            Rd::X20 => 20,
            Rd::X21 => 21,
            Rd::X22 => 22,
            Rd::X23 => 23,
            Rd::X24 => 24,
            Rd::X25 => 25,
            Rd::X26 => 26,
            Rd::X27 => 27,
            Rd::X28 => 28,
            Rd::X29 => 29,
            Rd::X30 => 30,
            Rd::X31 => 31,
        }
    }

    pub fn from_u32(value: u32) -> (r: Self)
        requires
            value <= 31,
        ensures
            r == Self::spec_from_u32(value),
    {
        match value {
            0 => Rd::X0,
            1 => Rd::X1,
            2 => Rd::X2,
            3 => Rd::X3,
            4 => Rd::X4,
            5 => Rd::X5,
            6 => Rd::X6,
            7 => Rd::X7,
            8 => Rd::X8,
            9 => Rd::X9,
            10 => Rd::X10,
            11 => Rd::X11,
            12 => Rd::X12,
            13 => Rd::X13,
            14 => Rd::X14,
            15 => Rd::X15,
            16 => Rd::X16,
            17 => Rd::X17,
            18 => Rd::X18,
            19 => Rd::X19,
            20 => Rd::X20,
            21 => Rd::X21,
            22 => Rd::X22,
            23 => Rd::X23,
            24 => Rd::X24,
            25 => Rd::X25,
            26 => Rd::X26,
            27 => Rd::X27,
            28 => Rd::X28,
            29 => Rd::X29,
            30 => Rd::X30,
            31 => Rd::X31,
            _ => unreached(),
        }
    }

    pub fn as_u32(&self) -> (r: u32)
        ensures
            r == self.spec_as_u32(),
    {
        match self {
            Rd::X0 => 0,
            Rd::X1 => 1,
            Rd::X2 => 2,
            Rd::X3 => 3,
            Rd::X4 => 4,
            Rd::X5 => 5,
            Rd::X6 => 6,
            Rd::X7 => 7,
            Rd::X8 => 8,
            Rd::X9 => 9,
            Rd::X10 => 10,
            Rd::X11 => 11,
            Rd::X12 => 12,
            Rd::X13 => 13,
            Rd::X14 => 14,
            Rd::X15 => 15,
            Rd::X16 => 16,
            Rd::X17 => 17,
            Rd::X18 => 18,
            Rd::X19 => 19,
            Rd::X20 => 20,
            Rd::X21 => 21,
            Rd::X22 => 22,
            Rd::X23 => 23,
            Rd::X24 => 24,
            Rd::X25 => 25,
            Rd::X26 => 26,
            Rd::X27 => 27,
            Rd::X28 => 28,
            Rd::X29 => 29,
            Rd::X30 => 30,
            Rd::X31 => 31,
        }
    }
}

#[derive(Debug, PartialEq, Eq, Clone, Copy, Structural)]
/// A source register selector field.
pub enum Rs {
    X0,
    X1,
    X2,
    X3,
    X4,
    X5,
    X6,
    X7,
    X8,
    X9,
    X10,
    X11,
    X12,
    X13,
    X14,
    X15,
    X16,
    X17,
    X18,
    X19,
    X20,
    X21,
    X22,
    X23,
    X24,
    X25,
    X26,
    X27,
    X28,
    X29,
    X30,
    X31,
}

impl Rs {
    /// The selector a five-bit value names.
    pub open spec fn spec_from_u32(value: u32) -> Rs {
        match value {
            0 => Rs::X0,
            1 => Rs::X1,
            2 => Rs::X2,
            3 => Rs::X3,
            4 => Rs::X4,
            5 => Rs::X5,
            6 => Rs::X6,
            7 => Rs::X7,
            8 => Rs::X8,
            9 => Rs::X9,
            10 => Rs::X10,
            11 => Rs::X11,
            12 => Rs::X12,
            13 => Rs::X13,
            14 => Rs::X14,
            15 => Rs::X15,
            16 => Rs::X16,
            17 => Rs::X17,
            18 => Rs::X18,
            19 => Rs::X19,
            20 => Rs::X20,
            21 => Rs::X21,
            22 => Rs::X22,
            23 => Rs::X23,
            24 => Rs::X24,
            25 => Rs::X25,
            26 => Rs::X26,
            27 => Rs::X27,
            28 => Rs::X28,
            29 => Rs::X29,
            30 => Rs::X30,
            31 => Rs::X31,
            _ => Rs::X0,
        }
    }

    /// The five-bit encoding of this selector.
    pub open spec fn spec_as_u32(self) -> u32 {
        match self {
            Rs::X0 => 0,
            Rs::X1 => 1,
            Rs::X2 => 2,
            Rs::X3 => 3,
            Rs::X4 => 4,
            Rs::X5 => 5,
            Rs::X6 => 6,
            Rs::X7 => 7,
            Rs::X8 => 8,
            Rs::X9 => 9,
            Rs::X10 => 10,
            Rs::X11 => 11,
            Rs::X12 => 12,
            Rs::X13 => 13,
            Rs::X14 => 14,
            Rs::X15 => 15,
            Rs::X16 => 16,
            Rs::X17 => 17,
            Rs::X18 => 18,
            Rs::X19 => 19,
            Rs::X20 => 20,
            Rs::X21 => 21,
            Rs::X22 => 22,
            Rs::X23 => 23,
            Rs::X24 => 24,
            Rs::X25 => 25,
            Rs::X26 => 26,
            Rs::X27 => 27,
            Rs::X28 => 28,
            Rs::X29 => 29,
            Rs::X30 => 30,
            Rs::X31 => 31,
        }
    }

    pub fn from_u32(value: u32) -> (r: Self)
        requires
            value <= 31,
        ensures
            r == Self::spec_from_u32(value),
    {
        match value {
            0 => Rs::X0,
            1 => Rs::X1,
            2 => Rs::X2,
            3 => Rs::X3,
            4 => Rs::X4,
            5 => Rs::X5,
            6 => Rs::X6,
            7 => Rs::X7,
            8 => Rs::X8,
            9 => Rs::X9,
            10 => Rs::X10,
            11 => Rs::X11,
            12 => Rs::X12,
            13 => Rs::X13,
            14 => Rs::X14,
            15 => Rs::X15,
            16 => Rs::X16,
            17 => Rs::X17,
            18 => Rs::X18,
            19 => Rs::X19,
            20 => Rs::X20,
            21 => Rs::X21,
            22 => Rs::X22,
            23 => Rs::X23,
            24 => Rs::X24,
            25 => Rs::X25,
            26 => Rs::X26,
            27 => Rs::X27,
            28 => Rs::X28,
            29 => Rs::X29,
            30 => Rs::X30,
            31 => Rs::X31,
            _ => unreached(),
        }
    }

    pub fn as_u32(&self) -> (r: u32)
        ensures
            r == self.spec_as_u32(),
    {
        match self {
            Rs::X0 => 0,
            Rs::X1 => 1,
            Rs::X2 => 2,
            Rs::X3 => 3,
            Rs::X4 => 4,
            Rs::X5 => 5,
            Rs::X6 => 6,
            Rs::X7 => 7,
            Rs::X8 => 8,
            Rs::X9 => 9,
            Rs::X10 => 10,
            Rs::X11 => 11,
            Rs::X12 => 12,
            Rs::X13 => 13,
            Rs::X14 => 14,
            Rs::X15 => 15,
            Rs::X16 => 16,
            Rs::X17 => 17,
            Rs::X18 => 18,
            Rs::X19 => 19,
            Rs::X20 => 20,
            Rs::X21 => 21,
            Rs::X22 => 22,
            Rs::X23 => 23,
            Rs::X24 => 24,
            Rs::X25 => 25,
            Rs::X26 => 26,
            Rs::X27 => 27,
            Rs::X28 => 28,
            Rs::X29 => 29,
            Rs::X30 => 30,
            Rs::X31 => 31,
        }
    }
}

/// The opcode field of a backing word: `w[6:0]`.
pub open spec fn opcode_bits(w: u32) -> u32 {
    w & 0x7f
}

/// The funct3 field: `w[14:12]`.
pub open spec fn funct3_bits(w: u32) -> u32 {
    (w >> 12) & 7
}

/// The first source selector field: `w[19:15]`.
pub open spec fn rs1_bits(w: u32) -> u32 {
    (w >> 15) & 0x1f
}

/// The second source selector field: `w[24:20]`.
pub open spec fn rs2_bits(w: u32) -> u32 {
    (w >> 20) & 0x1f
}

/// The destination selector field: `w[11:7]`.
pub open spec fn rd_bits(w: u32) -> u32 {
    (w >> 7) & 0x1f
}

/// The word with its opcode field overwritten by the low seven bits of `v`.
pub open spec fn set_opcode_bits(w: u32, v: u32) -> u32 {
    (w & 0xffffff80) | (v & 0x7f)
}

/// The word with its funct3 field overwritten by the low three bits of `v`.
pub open spec fn set_funct3_bits(w: u32, v: u32) -> u32 {
    (w & 0xffff8fff) | ((v & 7) << 12)
}

/// The word with its first source field overwritten by the low five bits of
/// `v`.
pub open spec fn set_rs1_bits(w: u32, v: u32) -> u32 {
    (w & 0xfff07fff) | ((v & 0x1f) << 15)
}

/// The word with its second source field overwritten by the low five bits of
/// `v`.
pub open spec fn set_rs2_bits(w: u32, v: u32) -> u32 {
    (w & 0xfe0fffff) | ((v & 0x1f) << 20)
}

/// The word with its destination field overwritten by the low five bits of
/// `v`.
pub open spec fn set_rd_bits(w: u32, v: u32) -> u32 {
    (w & 0xfffff07f) | ((v & 0x1f) << 7)
}

/// The word with the B-form immediate ranges overwritten from `v`: bit 12 of
/// `v` lands in `w[31]`, bit 11 in `w[7]`, bits 10:5 in `w[30:25]` and bits
/// 4:1 in `w[11:8]`; the padding bit 0 is dropped.
pub open spec fn set_b_imm_bits(w: u32, v: i32) -> u32 {
    (w & 0x01fff07f) | ((((v as u32) >> 12) & 1) << 31) | ((((v as u32) >> 11) & 1) << 7) | ((((
    v as u32) >> 5) & 0x3f) << 25) | ((((v as u32) >> 1) & 0xf) << 8)
}

/// The word with the J-form immediate ranges overwritten from `v`: bit 20 of
/// `v` lands in `w[31]`, bits 19:12 in `w[19:12]`, bit 11 in `w[20]` and bits
/// 10:1 in `w[30:21]`; the padding bit 0 is dropped.
pub open spec fn set_j_imm_bits(w: u32, v: i32) -> u32 {
    (w & 0xfff) | ((((v as u32) >> 20) & 1) << 31) | ((((v as u32) >> 12) & 0xff) << 12) | ((((
    v as u32) >> 11) & 1) << 20) | ((((v as u32) >> 1) & 0x3ff) << 21)
}

/// A seven-bit value that encodes one of the enumerated opcodes.
pub open spec fn is_opcode_encoding(b: u32) -> bool {
    Opcode::spec_from_u32(b).spec_as_u32() == b
}

#[derive(Debug, Clone, Copy, Default)]
/// The branch instruction format: opcode, funct3, two source selectors, and
/// the scattered thirteen-bit immediate `[31:31, 7:7, 30:25, 11:8] << 1`.
pub struct BType(pub u32);

impl BType {
    pub fn opcode(&self) -> (r: Opcode)
        ensures
            r == Opcode::spec_from_u32(opcode_bits(self.0)),
    {
        Opcode::from_u32(self.0 & 0x7f)
    }

    pub fn set_opcode(&mut self, val: Opcode)
        ensures
            final(self).0 == set_opcode_bits(old(self).0, val.spec_as_u32()),
    {
        self.0 = (self.0 & 0xffffff80) | (val.as_u32() & 0x7f);
    }

    pub fn funct3(&self) -> (r: u32)
        ensures
            r == funct3_bits(self.0),
    {
        (self.0 >> 12) & 7
    }

    pub fn set_funct3(&mut self, val: u32)
        ensures
            final(self).0 == set_funct3_bits(old(self).0, val),
    {
        self.0 = (self.0 & 0xffff8fff) | ((val & 7) << 12);
    }

    pub fn rs1(&self) -> (r: Rs)
        ensures
            r == Rs::spec_from_u32(rs1_bits(self.0)),
    {
        proof {
            crate::bits::lemma_and_bound(self.0 >> 15, 0x1f);
        }
        Rs::from_u32((self.0 >> 15) & 0x1f)
    }

    pub fn set_rs1(&mut self, val: Rs)
        ensures
            final(self).0 == set_rs1_bits(old(self).0, val.spec_as_u32()),
    {
        self.0 = (self.0 & 0xfff07fff) | ((val.as_u32() & 0x1f) << 15);
    }

    pub fn rs2(&self) -> (r: Rs)
        ensures
            r == Rs::spec_from_u32(rs2_bits(self.0)),
    {
        proof {
            crate::bits::lemma_and_bound(self.0 >> 20, 0x1f);
        }
        Rs::from_u32((self.0 >> 20) & 0x1f)
    }

    pub fn set_rs2(&mut self, val: Rs)
        ensures
            final(self).0 == set_rs2_bits(old(self).0, val.spec_as_u32()),
    {
        self.0 = (self.0 & 0xfe0fffff) | ((val.as_u32() & 0x1f) << 20);
    }

    pub fn imm(&self) -> (r: i32)
        ensures
            r == b_imm_value(self.0),
    {
        proof {
            lemma_imm_bits_bounds(self.0);
        }
        let bits: u32 = (((self.0 >> 31) & 1) << 12) | (((self.0 >> 7) & 1) << 11) | (((self.0
            >> 25) & 0x3f) << 5) | (((self.0 >> 8) & 0xf) << 1);
        if bits >= 0x1000 {
            bits as i32 - 0x2000
        } else {
            bits as i32
        }
    }

    /// The padding bit of the value must be clear; a value outside thirteen
    /// bits loses its high bits, as the ranges cannot hold them.
    pub fn set_imm(&mut self, val: i32)
        requires
            val % 2 == 0,
        ensures
            final(self).0 == set_b_imm_bits(old(self).0, val),
    {
        let v = #[verifier::truncate] (val as u32);
        self.0 = (self.0 & 0x01fff07f) | (((v >> 12) & 1) << 31) | (((v >> 11) & 1) << 7) | (((v
            >> 5) & 0x3f) << 25) | (((v >> 1) & 0xf) << 8);
    }

    pub fn builder() -> (r: BTypeBuilder)
        ensures
            r.0 == 0u32,
    {
        BTypeBuilder(0)
    }
}

#[derive(Debug, Clone, Copy)]
/// Builds a branch-format word field by field from zero.
pub struct BTypeBuilder(pub u32);

impl BTypeBuilder {
    pub fn opcode(self, val: Opcode) -> (r: Self)
        ensures
            r.0 == set_opcode_bits(self.0, val.spec_as_u32()),
    {
        BTypeBuilder((self.0 & 0xffffff80) | (val.as_u32() & 0x7f))
    }

    pub fn funct3(self, val: u32) -> (r: Self)
        ensures
            r.0 == set_funct3_bits(self.0, val),
    {
        BTypeBuilder((self.0 & 0xffff8fff) | ((val & 7) << 12))
    }

    pub fn rs1(self, val: Rs) -> (r: Self)
        ensures
            r.0 == set_rs1_bits(self.0, val.spec_as_u32()),
    {
        BTypeBuilder((self.0 & 0xfff07fff) | ((val.as_u32() & 0x1f) << 15))
    }

    pub fn rs2(self, val: Rs) -> (r: Self)
        ensures
            r.0 == set_rs2_bits(self.0, val.spec_as_u32()),
    {
        BTypeBuilder((self.0 & 0xfe0fffff) | ((val.as_u32() & 0x1f) << 20))
    }

    pub fn imm(self, val: i32) -> (r: Self)
        requires
            val % 2 == 0,
        ensures
            r.0 == set_b_imm_bits(self.0, val),
    {
        let v = #[verifier::truncate] (val as u32);
        BTypeBuilder(
            (self.0 & 0x01fff07f) | (((v >> 12) & 1) << 31) | (((v >> 11) & 1) << 7) | (((v >> 5)
                & 0x3f) << 25) | (((v >> 1) & 0xf) << 8),
        )
    }

    pub fn build(self) -> (r: BType)
        ensures
            r.0 == self.0,
    {
        BType(self.0)
    }
}

#[derive(Debug, Clone, Copy, Default)]
/// The jump instruction format: opcode, destination selector, and the
/// scattered twenty-one-bit immediate `[31:31, 19:12, 20:20, 30:21] << 1`.
pub struct JType(pub u32);

impl JType {
    pub fn opcode(&self) -> (r: Opcode)
        ensures
            r == Opcode::spec_from_u32(opcode_bits(self.0)),
    {
        Opcode::from_u32(self.0 & 0x7f)
    }

    pub fn set_opcode(&mut self, val: Opcode)
        ensures
            final(self).0 == set_opcode_bits(old(self).0, val.spec_as_u32()),
    {
        self.0 = (self.0 & 0xffffff80) | (val.as_u32() & 0x7f);
    }

    pub fn rd(&self) -> (r: Rd)
        ensures
            r == Rd::spec_from_u32(rd_bits(self.0)),
    {
        proof {
            crate::bits::lemma_and_bound(self.0 >> 7, 0x1f);
        }
        Rd::from_u32((self.0 >> 7) & 0x1f)
    }

    pub fn set_rd(&mut self, val: Rd)
        ensures
            final(self).0 == set_rd_bits(old(self).0, val.spec_as_u32()),
    {
        self.0 = (self.0 & 0xfffff07f) | ((val.as_u32() & 0x1f) << 7);
    }

    pub fn imm(&self) -> (r: i32)
        ensures
            r == j_imm_value(self.0),
    {
        proof {
            lemma_imm_bits_bounds(self.0);
        }
        let bits: u32 = (((self.0 >> 31) & 1) << 20) | (self.0 & 0xff000) | (((self.0 >> 20) & 1)
            << 11) | (((self.0 >> 21) & 0x3ff) << 1);
        if bits >= 0x100000 {
            bits as i32 - 0x200000
        } else {
            bits as i32
        }
    }

    /// The padding bit of the value must be clear; a value outside
    /// twenty-one bits loses its high bits, as the ranges cannot hold them.
    pub fn set_imm(&mut self, val: i32)
        requires
            val % 2 == 0,
        ensures
            final(self).0 == set_j_imm_bits(old(self).0, val),
    {
        let v = #[verifier::truncate] (val as u32);
        self.0 = (self.0 & 0xfff) | (((v >> 20) & 1) << 31) | (((v >> 12) & 0xff) << 12) | (((v
            >> 11) & 1) << 20) | (((v >> 1) & 0x3ff) << 21);
    }
}

/// Setting the opcode field and reading it back returns the value set, for
/// every enumerated opcode; and writing back the field a word already holds
/// leaves the word unchanged, provided the field holds an enumerated
/// encoding.
pub proof fn lemma_opcode_round_trip(w: u32, op: Opcode)
    requires
        is_opcode_encoding(opcode_bits(w)),
    ensures
        Opcode::spec_from_u32(opcode_bits(set_opcode_bits(w, op.spec_as_u32()))) == op,
        set_opcode_bits(w, Opcode::spec_from_u32(opcode_bits(w)).spec_as_u32()) == w,
{
    let a = op.spec_as_u32();
    assert(a <= 0x7f);
    assert(opcode_bits(set_opcode_bits(w, a)) == a) by (bit_vector)
        requires
            a <= 0x7f,
    ;
    assert(Opcode::spec_from_u32(a) == op);
    let b = Opcode::spec_from_u32(opcode_bits(w)).spec_as_u32();
    assert(set_opcode_bits(w, b) == w) by (bit_vector)
        requires
            b == w & 0x7f,
    ;
}

/// Setting the funct3 field and reading it back returns every three-bit
/// value unchanged, and writing back the field a word already holds leaves
/// the word unchanged.
pub proof fn lemma_funct3_round_trip(w: u32, v: u32)
    requires
        v < 8,
    ensures
        funct3_bits(set_funct3_bits(w, v)) == v,
        set_funct3_bits(w, funct3_bits(w)) == w,
{
    assert(funct3_bits(set_funct3_bits(w, v)) == v && set_funct3_bits(w, funct3_bits(w)) == w)
        by (bit_vector)
        requires
            v < 8,
    ;
}

/// Setting a five-bit selector field and reading it back returns the
/// selector set, and writing back the field a word already holds leaves the
/// word unchanged. This covers the `rs1`, `rs2` and `rd` fields alike.
pub proof fn lemma_selector_round_trip(w: u32, r: Rs, d: Rd)
    ensures
        Rs::spec_from_u32(rs1_bits(set_rs1_bits(w, r.spec_as_u32()))) == r,
        set_rs1_bits(w, Rs::spec_from_u32(rs1_bits(w)).spec_as_u32()) == w,
        Rs::spec_from_u32(rs2_bits(set_rs2_bits(w, r.spec_as_u32()))) == r,
        set_rs2_bits(w, Rs::spec_from_u32(rs2_bits(w)).spec_as_u32()) == w,
        Rd::spec_from_u32(rd_bits(set_rd_bits(w, d.spec_as_u32()))) == d,
        set_rd_bits(w, Rd::spec_from_u32(rd_bits(w)).spec_as_u32()) == w,
{
    let a = r.spec_as_u32();
    assert(a <= 31);
    assert(rs1_bits(set_rs1_bits(w, a)) == a && rs2_bits(set_rs2_bits(w, a)) == a) by (bit_vector)
        requires
            a <= 31,
    ;
    crate::bits::lemma_and_bound(w >> 15, 0x1f);
    crate::bits::lemma_and_bound(w >> 20, 0x1f);
    crate::bits::lemma_and_bound(w >> 7, 0x1f);
    let b1 = Rs::spec_from_u32(rs1_bits(w)).spec_as_u32();
    assert(b1 == rs1_bits(w));
    assert(set_rs1_bits(w, b1) == w) by (bit_vector)
        requires
            b1 == (w >> 15) & 0x1f,
    ;
    let b2 = Rs::spec_from_u32(rs2_bits(w)).spec_as_u32();
    assert(b2 == rs2_bits(w));
    assert(set_rs2_bits(w, b2) == w) by (bit_vector)
        requires
            b2 == (w >> 20) & 0x1f,
    ;
    let ad = d.spec_as_u32();
    assert(ad <= 31);
    assert(rd_bits(set_rd_bits(w, ad)) == ad) by (bit_vector)
        requires
            ad <= 31,
    ;
    let bd = Rd::spec_from_u32(rd_bits(w)).spec_as_u32();
    assert(bd == rd_bits(w));
    assert(set_rd_bits(w, bd) == w) by (bit_vector)
        requires
            bd == (w >> 7) & 0x1f,
    ;
}

/// The B-form immediate round-trips every even value of thirteen signed
/// bits, and writing back the immediate a word already holds leaves the word
/// unchanged.
pub proof fn lemma_b_imm_round_trip(w: u32, v: i32)
    requires
        -4096 <= v < 4096,
        v % 2 == 0,
    ensures
        b_imm_value(set_b_imm_bits(w, v)) == v,
        set_b_imm_bits(w, b_imm_value(w) as i32) == w,
{
    assert(b_imm_value(set_b_imm_bits(w, v)) == v) by (bit_vector)
        requires
            -4096 <= v < 4096,
            v % 2 == 0,
    ;
    lemma_imm_bits_bounds(w);
    let u = b_imm_value(w) as i32;
    assert(set_b_imm_bits(w, u) == w) by (bit_vector)
        requires
            u == b_imm_value(w) as i32,
    ;
}

/// The J-form immediate round-trips every even value of twenty-one signed
/// bits, and writing back the immediate a word already holds leaves the word
/// unchanged.
pub proof fn lemma_j_imm_round_trip(w: u32, v: i32)
    requires
        -0x100000 <= v < 0x100000,
        v % 2 == 0,
    ensures
        j_imm_value(set_j_imm_bits(w, v)) == v,
        set_j_imm_bits(w, j_imm_value(w) as i32) == w,
{
    assert(j_imm_value(set_j_imm_bits(w, v)) == v) by (bit_vector)
        requires
            -0x100000 <= v < 0x100000,
            v % 2 == 0,
    ;
    lemma_imm_bits_bounds(w);
    let u = j_imm_value(w) as i32;
    assert(set_j_imm_bits(w, u) == w) by (bit_vector)
        requires
            u == j_imm_value(w) as i32,
    ;
}

/// Setting any one field of the branch format leaves every disjoint field
/// unchanged.
pub proof fn lemma_btype_fields_disjoint(w: u32, v: u32, i: i32)
    ensures
        funct3_bits(set_opcode_bits(w, v)) == funct3_bits(w),
        rs1_bits(set_opcode_bits(w, v)) == rs1_bits(w),
        rs2_bits(set_opcode_bits(w, v)) == rs2_bits(w),
        b_imm_value(set_opcode_bits(w, v)) == b_imm_value(w),
        opcode_bits(set_funct3_bits(w, v)) == opcode_bits(w),
        rs1_bits(set_funct3_bits(w, v)) == rs1_bits(w),
        rs2_bits(set_funct3_bits(w, v)) == rs2_bits(w),
        b_imm_value(set_funct3_bits(w, v)) == b_imm_value(w),
        opcode_bits(set_rs1_bits(w, v)) == opcode_bits(w),
        funct3_bits(set_rs1_bits(w, v)) == funct3_bits(w),
        rs2_bits(set_rs1_bits(w, v)) == rs2_bits(w),
        b_imm_value(set_rs1_bits(w, v)) == b_imm_value(w),
        opcode_bits(set_rs2_bits(w, v)) == opcode_bits(w),
        funct3_bits(set_rs2_bits(w, v)) == funct3_bits(w),
        rs1_bits(set_rs2_bits(w, v)) == rs1_bits(w),
        b_imm_value(set_rs2_bits(w, v)) == b_imm_value(w),
        opcode_bits(set_b_imm_bits(w, i)) == opcode_bits(w),
        funct3_bits(set_b_imm_bits(w, i)) == funct3_bits(w),
        rs1_bits(set_b_imm_bits(w, i)) == rs1_bits(w),
        rs2_bits(set_b_imm_bits(w, i)) == rs2_bits(w),
{
    assert(b_imm_bits(set_opcode_bits(w, v)) == b_imm_bits(w) && b_imm_bits(set_funct3_bits(w, v))
        == b_imm_bits(w) && b_imm_bits(set_rs1_bits(w, v)) == b_imm_bits(w) && b_imm_bits(
        set_rs2_bits(w, v),
    ) == b_imm_bits(w)) by (bit_vector);
    assert(funct3_bits(set_opcode_bits(w, v)) == funct3_bits(w) && rs1_bits(set_opcode_bits(w, v))
        == rs1_bits(w) && rs2_bits(set_opcode_bits(w, v)) == rs2_bits(w)) by (bit_vector);
    assert(opcode_bits(set_funct3_bits(w, v)) == opcode_bits(w) && rs1_bits(set_funct3_bits(w, v))
        == rs1_bits(w) && rs2_bits(set_funct3_bits(w, v)) == rs2_bits(w)) by (bit_vector);
    assert(opcode_bits(set_rs1_bits(w, v)) == opcode_bits(w) && funct3_bits(set_rs1_bits(w, v))
        == funct3_bits(w) && rs2_bits(set_rs1_bits(w, v)) == rs2_bits(w)) by (bit_vector);
    assert(opcode_bits(set_rs2_bits(w, v)) == opcode_bits(w) && funct3_bits(set_rs2_bits(w, v))
        == funct3_bits(w) && rs1_bits(set_rs2_bits(w, v)) == rs1_bits(w)) by (bit_vector);
    assert(opcode_bits(set_b_imm_bits(w, i)) == opcode_bits(w) && funct3_bits(set_b_imm_bits(w, i))
        == funct3_bits(w) && rs1_bits(set_b_imm_bits(w, i)) == rs1_bits(w) && rs2_bits(
        set_b_imm_bits(w, i),
    ) == rs2_bits(w)) by (bit_vector);
}

/// Setting any one field of the jump format leaves every disjoint field
/// unchanged.
pub proof fn lemma_jtype_fields_disjoint(w: u32, v: u32, i: i32)
    ensures
        rd_bits(set_opcode_bits(w, v)) == rd_bits(w),
        j_imm_value(set_opcode_bits(w, v)) == j_imm_value(w),
        opcode_bits(set_rd_bits(w, v)) == opcode_bits(w),
        j_imm_value(set_rd_bits(w, v)) == j_imm_value(w),
        opcode_bits(set_j_imm_bits(w, i)) == opcode_bits(w),
        rd_bits(set_j_imm_bits(w, i)) == rd_bits(w),
{
    assert(j_imm_bits(set_opcode_bits(w, v)) == j_imm_bits(w) && j_imm_bits(set_rd_bits(w, v))
        == j_imm_bits(w)) by (bit_vector);
    assert(rd_bits(set_opcode_bits(w, v)) == rd_bits(w) && opcode_bits(set_rd_bits(w, v))
        == opcode_bits(w)) by (bit_vector);
    assert(opcode_bits(set_j_imm_bits(w, i)) == opcode_bits(w) && rd_bits(set_j_imm_bits(w, i))
        == rd_bits(w)) by (bit_vector);
}

} // verus!
