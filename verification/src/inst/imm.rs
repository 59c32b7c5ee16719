//! Typed immediate forms of the RV32 instruction encodings.
//!
//! Each form gathers the scattered bits of a 32-bit instruction word into a
//! sign-extended integer, exactly as laid out in the RISC-V unprivileged
//! specification; the B and J forms force bit zero and carry one padding bit.

use vstd::prelude::*;

verus! {

/// Bits of the I-form immediate: `raw[31:20]`, before sign extension.
pub open spec fn i_imm_bits(raw32: u32) -> u32 {
    (raw32 >> 20) & 0xfff
}

/// Value of the I-form immediate: `raw[31:20]`, sign-extended from 12 bits.
pub open spec fn i_imm_value(raw32: u32) -> int {
    if i_imm_bits(raw32) >= 0x800 {
        i_imm_bits(raw32) - 0x1000
    } else {
        i_imm_bits(raw32) as int
    }
}

/// Bits of the S-form immediate: `raw[31:25] || raw[11:7]`.
pub open spec fn s_imm_bits(raw32: u32) -> u32 {
    (((raw32 >> 25) & 0x7f) << 5) | ((raw32 >> 7) & 0x1f)
}

/// Value of the S-form immediate, sign-extended from 12 bits.
pub open spec fn s_imm_value(raw32: u32) -> int {
    if s_imm_bits(raw32) >= 0x800 {
        s_imm_bits(raw32) - 0x1000
    } else {
        s_imm_bits(raw32) as int
    }
}

/// Bits of the B-form immediate: `raw[31] || raw[7] || raw[30:25] || raw[11:8] || 0`.
pub open spec fn b_imm_bits(raw32: u32) -> u32 {
    (((raw32 >> 31) & 1) << 12) | (((raw32 >> 7) & 1) << 11) | (((raw32 >> 25) & 0x3f) << 5) | ((
    (raw32 >> 8) & 0xf) << 1)
}

/// Value of the B-form immediate, sign-extended from 13 bits; bit zero is zero.
pub open spec fn b_imm_value(raw32: u32) -> int {
    if b_imm_bits(raw32) >= 0x1000 {
        b_imm_bits(raw32) - 0x2000
    } else {
        b_imm_bits(raw32) as int
    }
}

/// Bits of the U-form immediate: `raw[31:12] || 0^12`.
pub open spec fn u_imm_bits(raw32: u32) -> u32 {
    raw32 & 0xfffff000
}

/// Value of the U-form immediate, interpreted as a signed 32-bit integer.
pub open spec fn u_imm_value(raw32: u32) -> int {
    if u_imm_bits(raw32) >= 0x80000000 {
        u_imm_bits(raw32) - 0x100000000
    } else {
        u_imm_bits(raw32) as int
    }
}

/// Bits of the J-form immediate: `raw[31] || raw[19:12] || raw[20] || raw[30:21] || 0`.
pub open spec fn j_imm_bits(raw32: u32) -> u32 {
    (((raw32 >> 31) & 1) << 20) | (raw32 & 0xff000) | (((raw32 >> 20) & 1) << 11) | (((raw32 >> 21)
        & 0x3ff) << 1)
}

/// Value of the J-form immediate, sign-extended from 21 bits; bit zero is zero.
pub open spec fn j_imm_value(raw32: u32) -> int {
    if j_imm_bits(raw32) >= 0x100000 {
        j_imm_bits(raw32) - 0x200000
    } else {
        j_imm_bits(raw32) as int
    }
}

/// Bounds on the raw bits of each immediate form, and the forced zero in the
/// low bit of the B and J forms.
pub(crate) proof fn lemma_imm_bits_bounds(raw32: u32)
    by (bit_vector)
    ensures
        i_imm_bits(raw32) <= 0xfff,
        s_imm_bits(raw32) <= 0xfff,
        b_imm_bits(raw32) <= 0x1ffe,
        b_imm_bits(raw32) & 1 == 0,
        j_imm_bits(raw32) <= 0x1ffffe,
        j_imm_bits(raw32) & 1 == 0,
{
}

/// How truncation to `i32` acts on the U-form bit pattern.
proof fn lemma_u_imm_cast(raw32: u32)
    by (bit_vector)
    ensures
        u_imm_bits(raw32) as i32 == u_imm_value(raw32),
{
}

#[derive(Clone, Copy, Debug, PartialEq, Eq, Structural)]
/// A 12-bit wide signed integer
/// Format: `-[31]- | [30..=20]`
pub struct ITypeImmediate {
    value: i16,
}

impl View for ITypeImmediate {
    type V = int;

    closed spec fn view(&self) -> int {
        self.value as int
    }
}

impl ITypeImmediate {
    /// The immediate decoded from a given instruction word.
    pub closed spec fn spec_decode(raw32: u32) -> ITypeImmediate {
        ITypeImmediate { value: i_imm_value(raw32) as i16 }
    }

    pub fn decode_raw32(raw32: u32) -> (r: Self)
        ensures
            r == Self::spec_decode(raw32),
            r@ == i_imm_value(raw32),
    {
        proof {
            lemma_imm_bits_bounds(raw32);
        }
        let bits: u32 = (raw32 >> 20) & 0xfff;
        let value: i16 = if bits >= 0x800 {
            (bits as i32 - 0x1000) as i16
        } else {
            bits as i16
        };
        Self { value }
    }

    pub fn i32(&self) -> (r: i32)
        ensures
            r == self@,
    {
        self.value as i32
    }
}

#[derive(Clone, Copy, Debug, PartialEq, Eq, Structural)]
/// A 12-bit wide signed integer
pub struct STypeImmediate {
    value: i16,
}

impl View for STypeImmediate {
    type V = int;

    closed spec fn view(&self) -> int {
        self.value as int
    }
}

impl STypeImmediate {
    /// The immediate decoded from a given instruction word.
    pub closed spec fn spec_decode(raw32: u32) -> STypeImmediate {
        STypeImmediate { value: s_imm_value(raw32) as i16 }
    }

    /// Format: `-[31]- | [30..=25] | [11..=7] `
    pub fn decode_raw32(raw32: u32) -> (r: Self)
        ensures
            r == Self::spec_decode(raw32),
            r@ == s_imm_value(raw32),
    {
        proof {
            lemma_imm_bits_bounds(raw32);
        }
        let bits: u32 = (((raw32 >> 25) & 0x7f) << 5) | ((raw32 >> 7) & 0x1f);
        let value: i16 = if bits >= 0x800 {
            (bits as i32 - 0x1000) as i16
        } else {
            bits as i16
        };
        Self { value }
    }

    pub fn i32(&self) -> (r: i32)
        ensures
            r == self@,
    {
        self.value as i32
    }
}

#[derive(Clone, Copy, Debug, PartialEq, Eq, Structural)]
/// A 13-bit wide signed integer with the least significant bit cut off
pub struct BTypeImmediate {
    value: i16,
}

impl View for BTypeImmediate {
    type V = int;

    closed spec fn view(&self) -> int {
        self.value as int
    }
}

impl BTypeImmediate {
    /// The immediate decoded from a given instruction word.
    pub closed spec fn spec_decode(raw32: u32) -> BTypeImmediate {
        BTypeImmediate { value: b_imm_value(raw32) as i16 }
    }

    /// Format: `-[31]- | [7] | [30..=25] | [11..=8] | 0`
    pub fn decode_raw32(raw32: u32) -> (r: Self)
        ensures
            r == Self::spec_decode(raw32),
            r@ == b_imm_value(raw32),
    {
        proof {
            lemma_imm_bits_bounds(raw32);
        }
        let bits: u32 = (((raw32 >> 31) & 1) << 12) | (((raw32 >> 7) & 1) << 11) | (((raw32 >> 25)
            & 0x3f) << 5) | (((raw32 >> 8) & 0xf) << 1);
        let value: i16 = if bits >= 0x1000 {
            (bits as i32 - 0x2000) as i16
        } else {
            bits as i16
        };
        Self { value }
    }

    pub fn i32(&self) -> (r: i32)
        ensures
            r == self@,
    {
        self.value as i32
    }
}

#[derive(Clone, Copy, Debug, PartialEq, Eq, Structural)]
/// A 32-bit wide signed integer with the 12 least significant bits cut off
pub struct UTypeImmediate {
    value: i32,
}

impl View for UTypeImmediate {
    type V = int;

    closed spec fn view(&self) -> int {
        self.value as int
    }
}

impl UTypeImmediate {
    /// The immediate decoded from a given instruction word.
    pub closed spec fn spec_decode(raw32: u32) -> UTypeImmediate {
        UTypeImmediate { value: u_imm_value(raw32) as i32 }
    }

    /// Format: `[31..=12] | - 0 -`
    pub fn decode_raw32(raw32: u32) -> (r: Self)
        ensures
            r == Self::spec_decode(raw32),
            r@ == u_imm_value(raw32),
    {
        proof {
            lemma_u_imm_cast(raw32);
        }
        let bits: u32 = raw32 & 0xfffff000;
        let value: i32 = bits as i32;
        Self { value }
    }

    pub fn i32(&self) -> (r: i32)
        ensures
            r == self@,
    {
        self.value
    }
}

#[derive(Clone, Copy, Debug, PartialEq, Eq, Structural)]
/// A 21-bit wide signed integer with the least significant bit cut off
pub struct JTypeImmediate {
    value: i32,
}

impl View for JTypeImmediate {
    type V = int;

    closed spec fn view(&self) -> int {
        self.value as int
    }
}

impl JTypeImmediate {
    /// The immediate decoded from a given instruction word.
    pub closed spec fn spec_decode(raw32: u32) -> JTypeImmediate {
        JTypeImmediate { value: j_imm_value(raw32) as i32 }
    }

    /// Format: `-[31]- | [19..=12] | [20] | [30..=21] | 0`
    pub fn decode_raw32(raw32: u32) -> (r: Self)
        ensures
            r == Self::spec_decode(raw32),
            r@ == j_imm_value(raw32),
    {
        proof {
            lemma_imm_bits_bounds(raw32);
        }
        let bits: u32 = (((raw32 >> 31) & 1) << 20) | (raw32 & 0xff000) | (((raw32 >> 20) & 1)
            << 11) | (((raw32 >> 21) & 0x3ff) << 1);
        let value: i32 = if bits >= 0x100000 {
            bits as i32 - 0x200000
        } else {
            bits as i32
        };
        Self { value }
    }

    pub fn i32(&self) -> (r: i32)
        ensures
            r == self@,
    {
        self.value
    }
}

#[derive(Clone, Copy, Debug, PartialEq, Eq, Structural)]
/// The eight predecessor/successor flags of a `fence` instruction.
pub struct FenceFlags {
    flags: u8,
}

impl View for FenceFlags {
    type V = u8;

    closed spec fn view(&self) -> u8 {
        self.flags
    }
}

impl FenceFlags {
    /// The flag byte decoded from a given instruction word: `raw[27:20]`.
    pub closed spec fn spec_decode(raw32: u32) -> FenceFlags {
        FenceFlags { flags: (raw32 >> 20) as u8 }
    }

    pub fn decode_raw32(raw32: u32) -> (r: Self)
        ensures
            r == Self::spec_decode(raw32),
            r@ == (raw32 >> 20) as u8,
    {
        let flags = (raw32 >> 20) as u8;
        Self { flags }
    }

    pub fn pi(&self) -> (r: bool)
        ensures
            r == (self@ & 128 != 0),
    {
        self.flags & 128 != 0
    }

    pub fn po(&self) -> (r: bool)
        ensures
            r == (self@ & 64 != 0),
    {
        self.flags & 64 != 0
    }

    pub fn pr(&self) -> (r: bool)
        ensures
            r == (self@ & 32 != 0),
    {
        self.flags & 32 != 0
    }

    pub fn pw(&self) -> (r: bool)
        ensures
            r == (self@ & 16 != 0),
    {
        self.flags & 16 != 0
    }

    pub fn si(&self) -> (r: bool)
        ensures
            r == (self@ & 8 != 0),
    {
        self.flags & 8 != 0
    }

    pub fn so(&self) -> (r: bool)
        ensures
            r == (self@ & 4 != 0),
    {
        self.flags & 4 != 0
    }

    pub fn sr(&self) -> (r: bool)
        ensures
            r == (self@ & 2 != 0),
    {
        self.flags & 2 != 0
    }

    pub fn sw(&self) -> (r: bool)
        ensures
            r == (self@ & 1 != 0),
    {
        self.flags & 1 != 0
    }
}

#[derive(Clone, Copy, Debug, PartialEq, Eq, Structural)]
#[non_exhaustive]
/// The four-bit fence mode: plain, total-store-order, or anything else.
pub enum FenceMode {
    Normal,
    Tso,
    Other,
}

impl FenceMode {
    /// The mode decoded from a given instruction word: `raw[31:28]`.
    pub open spec fn spec_decode(raw32: u32) -> FenceMode {
        if raw32 >> 28 == 0b0000 {
            FenceMode::Normal
        } else if raw32 >> 28 == 0b1000 {
            FenceMode::Tso
        } else {
            FenceMode::Other
        }
    }

    pub fn decode_raw32(raw32: u32) -> (r: Self)
        ensures
            r == Self::spec_decode(raw32),
    {
        match raw32 >> 28 {
            0b0000 => FenceMode::Normal,
            0b1000 => FenceMode::Tso,
            _ => FenceMode::Other,
        }
    }
}

#[derive(Clone, Copy, Debug, PartialEq, Eq, Structural)]
/// Mode and flags of a `fence` instruction.
pub struct FenceInfo {
    mode: FenceMode,
    flags: FenceFlags,
}

impl FenceInfo {
    /// The fence metadata decoded from a given instruction word.
    pub closed spec fn spec_decode(raw32: u32) -> FenceInfo {
        FenceInfo {
            mode: FenceMode::spec_decode(raw32),
            flags: FenceFlags::spec_decode(raw32),
        }
    }

    /// The mode this metadata holds.
    pub closed spec fn spec_mode(&self) -> FenceMode {
        self.mode
    }

    /// The flags this metadata holds.
    pub closed spec fn spec_flags(&self) -> FenceFlags {
        self.flags
    }

    pub fn decode_raw32(raw32: u32) -> (r: Self)
        ensures
            r == Self::spec_decode(raw32),
            r.spec_mode() == FenceMode::spec_decode(raw32),
            r.spec_flags() == FenceFlags::spec_decode(raw32),
    {
        let mode = FenceMode::decode_raw32(raw32);
        let flags = FenceFlags::decode_raw32(raw32);
        Self { mode, flags }
    }

    pub fn mode(&self) -> (r: FenceMode)
        ensures
            r == self.spec_mode(),
    {
        self.mode
    }

    pub fn flags(&self) -> (r: FenceFlags)
        ensures
            r == self.spec_flags(),
    {
        self.flags
    }
}

#[derive(Clone, Copy, Debug, PartialEq, Eq, Structural)]
/// The acquire/release ordering flags of an atomic memory operation.
pub struct AmoAqrl {
    flags: u8,
}

impl View for AmoAqrl {
    type V = u8;

    closed spec fn view(&self) -> u8 {
        self.flags
    }
}

impl AmoAqrl {
    /// The flag pair decoded from a given instruction word: `aq` is
    /// `raw[26]`, `rl` is `raw[25]`.
    pub closed spec fn spec_decode(raw32: u32) -> AmoAqrl {
        AmoAqrl { flags: (raw32 >> 25) as u8 }
    }

    pub fn decode_raw32(raw32: u32) -> (r: Self)
        ensures
            r == Self::spec_decode(raw32),
            r@ == (raw32 >> 25) as u8,
    {
        let flags = (raw32 >> 25) as u8;
        Self { flags }
    }

    pub fn aq(&self) -> (r: bool)
        ensures
            r == (self@ & 2 != 0),
    {
        self.flags & 2 != 0
    }

    pub fn rl(&self) -> (r: bool)
        ensures
            r == (self@ & 1 != 0),
    {
        self.flags & 1 != 0
    }
}

} // verus!
