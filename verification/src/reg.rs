//! The integer register file and the five-bit register selectors.
//!
//! `Rd` maps `X0` to the out-of-band slot 32 so that writes to `X0` land in a
//! sink and never change the value read back through `Rs1`/`Rs2` slot zero.

use vstd::prelude::*;

verus! {

#[derive(Clone, Copy, Debug, PartialEq, Eq, Structural)]
/// First source register selector; slots 0..=31.
pub enum Rs1 {
    X0,
    X1,
    X2,
    X3,
    X4,
    X5,
    X6,
    X7,
    X8,
    X9,
    X10,
    X11,
    X12,
    X13,
    X14,
    X15,
    X16,
    X17,
    X18,
    X19,
    X20,
    X21,
    X22,
    X23,
    X24,
    X25,
    X26,
    X27,
    X28,
    X29,
    X30,
    X31,
}

impl Rs1 {
    /// The register-file slot this selector reads or writes.
    pub open spec fn index_spec(self) -> int {
        match self {
            Rs1::X0 => 0,
            Rs1::X1 => 1,
            Rs1::X2 => 2,
            Rs1::X3 => 3,
            Rs1::X4 => 4,
            Rs1::X5 => 5,
            Rs1::X6 => 6,
            Rs1::X7 => 7,
            Rs1::X8 => 8,
            Rs1::X9 => 9,
            Rs1::X10 => 10,
            Rs1::X11 => 11,
            Rs1::X12 => 12,
            Rs1::X13 => 13,
            Rs1::X14 => 14,
            Rs1::X15 => 15,
            Rs1::X16 => 16,
            Rs1::X17 => 17,
            Rs1::X18 => 18,
            Rs1::X19 => 19,
            Rs1::X20 => 20,
            Rs1::X21 => 21,
            Rs1::X22 => 22,
            Rs1::X23 => 23,
            Rs1::X24 => 24,
            Rs1::X25 => 25,
            Rs1::X26 => 26,
            Rs1::X27 => 27,
            Rs1::X28 => 28,
            Rs1::X29 => 29,
            Rs1::X30 => 30,
            Rs1::X31 => 31,
        }
    }

    /// The selector holding the five low bits of a word.
    pub open spec fn spec_wrapping_from(b: u32) -> Rs1 {
        if b & 0x1f == 0 {
            Rs1::X0
        } else if b & 0x1f == 1 {
            Rs1::X1
        } else if b & 0x1f == 2 {
            Rs1::X2
        } else if b & 0x1f == 3 {
            Rs1::X3
        } else if b & 0x1f == 4 {
            Rs1::X4
        } else if b & 0x1f == 5 {
            Rs1::X5
        } else if b & 0x1f == 6 {
            Rs1::X6
        } else if b & 0x1f == 7 {
            Rs1::X7
        } else if b & 0x1f == 8 {
            Rs1::X8
        } else if b & 0x1f == 9 {
            Rs1::X9
        } else if b & 0x1f == 10 {
            Rs1::X10
        } else if b & 0x1f == 11 {
            Rs1::X11
        } else if b & 0x1f == 12 {
            Rs1::X12
        } else if b & 0x1f == 13 {
            Rs1::X13
        } else if b & 0x1f == 14 {
            Rs1::X14
        } else if b & 0x1f == 15 {
            Rs1::X15
        } else if b & 0x1f == 16 {
            Rs1::X16
        } else if b & 0x1f == 17 {
            Rs1::X17
        } else if b & 0x1f == 18 {
            Rs1::X18
        } else if b & 0x1f == 19 {
            Rs1::X19
        } else if b & 0x1f == 20 {
            Rs1::X20
        } else if b & 0x1f == 21 {
            Rs1::X21
        } else if b & 0x1f == 22 {
            Rs1::X22
        } else if b & 0x1f == 23 {
            Rs1::X23
        } else if b & 0x1f == 24 {
            Rs1::X24
        } else if b & 0x1f == 25 {
            Rs1::X25
        } else if b & 0x1f == 26 {
            Rs1::X26
        } else if b & 0x1f == 27 {
            Rs1::X27
        } else if b & 0x1f == 28 {
            Rs1::X28
        } else if b & 0x1f == 29 {
            Rs1::X29
        } else if b & 0x1f == 30 {
            Rs1::X30
        } else if b & 0x1f == 31 {
            Rs1::X31
        } else {
            Rs1::X0
        }
    }

    pub fn index(&self) -> (i: usize)
        ensures
            i == self.index_spec(),
    {
        match self {
            Rs1::X0 => 0,
            Rs1::X1 => 1,
            Rs1::X2 => 2,
            Rs1::X3 => 3,
            Rs1::X4 => 4,
            Rs1::X5 => 5,
            Rs1::X6 => 6,
            Rs1::X7 => 7,
            Rs1::X8 => 8,
            Rs1::X9 => 9,
            Rs1::X10 => 10,
            Rs1::X11 => 11,
            Rs1::X12 => 12,
            Rs1::X13 => 13,
            Rs1::X14 => 14,
            Rs1::X15 => 15,
            Rs1::X16 => 16,
            Rs1::X17 => 17,
            Rs1::X18 => 18,
            Rs1::X19 => 19,
            Rs1::X20 => 20,
            Rs1::X21 => 21,
            Rs1::X22 => 22,
            Rs1::X23 => 23,
            Rs1::X24 => 24,
            Rs1::X25 => 25,
            Rs1::X26 => 26,
            Rs1::X27 => 27,
            Rs1::X28 => 28,
            Rs1::X29 => 29,
            Rs1::X30 => 30,
            Rs1::X31 => 31,
        }
    }

    pub fn checked_from_u32(b: u32) -> (r: Option<Self>)
        ensures
            b <= 31 ==> r == Some(Self::spec_wrapping_from(b)),
            b > 31 ==> r is None,
    {
        let res = match b {
            0..=31 => Self::wrapping_from_u32(b),
            _ => {
                return None;
            },
        };
        Some(res)
    }

    pub fn wrapping_from_u32(b: u32) -> (r: Self)
        ensures
            r == Self::spec_wrapping_from(b),
    {
        match b & 0x1f {
            0 => Rs1::X0,
            1 => Rs1::X1,
            2 => Rs1::X2,
            3 => Rs1::X3,
            4 => Rs1::X4,
            5 => Rs1::X5,
            6 => Rs1::X6,
            7 => Rs1::X7,
            8 => Rs1::X8,
            9 => Rs1::X9,
            10 => Rs1::X10,
            11 => Rs1::X11,
            12 => Rs1::X12,
            13 => Rs1::X13,
            14 => Rs1::X14,
            15 => Rs1::X15,
            16 => Rs1::X16,
            17 => Rs1::X17,
            18 => Rs1::X18,
            19 => Rs1::X19,
            20 => Rs1::X20,
            21 => Rs1::X21,
            22 => Rs1::X22,
            23 => Rs1::X23,
            24 => Rs1::X24,
            25 => Rs1::X25,
            26 => Rs1::X26,
            27 => Rs1::X27,
            28 => Rs1::X28,
            29 => Rs1::X29,
            30 => Rs1::X30,
            31 => Rs1::X31,
            _ => {
                proof {
                    crate::bits::lemma_and_bound(b, 0x1f);
                }
                unreached()
            },
        }
    }

    /// The selector encoded in `raw[19:15]`.
    pub open spec fn spec_decode(raw32: u32) -> Rs1 {
        Self::spec_wrapping_from((raw32 >> 15) & 0x1f)
    }

    pub fn decode_raw32(raw32: u32) -> (r: Self)
        ensures
            r == Self::spec_decode(raw32),
    {
        proof {
            crate::bits::lemma_field_bounds(raw32);
        }
        Self::checked_from_u32(raw32 >> 15 & 0x1f).expect("Extracted value was larger than 5 bits")
    }
}

#[derive(Clone, Copy, Debug, PartialEq, Eq, Structural)]
/// Second source register selector; slots 0..=31.
pub enum Rs2 {
    X0,
    X1,
    X2,
    X3,
    X4,
    X5,
    X6,
    X7,
    X8,
    X9,
    X10,
    X11,
    X12,
    X13,
    X14,
    X15,
    X16,
    X17,
    X18,
    X19,
    X20,
    X21,
    X22,
    X23,
    X24,
    X25,
    X26,
    X27,
    X28,
    X29,
    X30,
    X31,
}

impl Rs2 {
    /// The register-file slot this selector reads or writes.
    pub open spec fn index_spec(self) -> int {
        match self {
            Rs2::X0 => 0,
            Rs2::X1 => 1,
            Rs2::X2 => 2,
            Rs2::X3 => 3,
            Rs2::X4 => 4,
            Rs2::X5 => 5,
            Rs2::X6 => 6,
            Rs2::X7 => 7,
            Rs2::X8 => 8,
            Rs2::X9 => 9,
            Rs2::X10 => 10,
            Rs2::X11 => 11,
            Rs2::X12 => 12,
            Rs2::X13 => 13,
            Rs2::X14 => 14,
            Rs2::X15 => 15,
            Rs2::X16 => 16,
            Rs2::X17 => 17,
            Rs2::X18 => 18,
            Rs2::X19 => 19,
            Rs2::X20 => 20,
            Rs2::X21 => 21,
            Rs2::X22 => 22,
            Rs2::X23 => 23,
            Rs2::X24 => 24,
            Rs2::X25 => 25,
            Rs2::X26 => 26,
            Rs2::X27 => 27,
            Rs2::X28 => 28,
            Rs2::X29 => 29,
            Rs2::X30 => 30,
            Rs2::X31 => 31,
        }
    }

    /// The selector holding the five low bits of a word.
    pub open spec fn spec_wrapping_from(b: u32) -> Rs2 {
        if b & 0x1f == 0 {
            Rs2::X0
        } else if b & 0x1f == 1 {
            Rs2::X1
        } else if b & 0x1f == 2 {
            Rs2::X2
        } else if b & 0x1f == 3 {
            Rs2::X3
        } else if b & 0x1f == 4 {
            Rs2::X4
        } else if b & 0x1f == 5 {
            Rs2::X5
        } else if b & 0x1f == 6 {
            Rs2::X6
        } else if b & 0x1f == 7 {
            Rs2::X7
        } else if b & 0x1f == 8 {
            Rs2::X8
        } else if b & 0x1f == 9 {
            Rs2::X9
        } else if b & 0x1f == 10 {
            Rs2::X10
        } else if b & 0x1f == 11 {
            Rs2::X11
        } else if b & 0x1f == 12 {
            Rs2::X12
        } else if b & 0x1f == 13 {
            Rs2::X13
        } else if b & 0x1f == 14 {
            Rs2::X14
        } else if b & 0x1f == 15 {
            Rs2::X15
        } else if b & 0x1f == 16 {
            Rs2::X16
        } else if b & 0x1f == 17 {
            Rs2::X17
        } else if b & 0x1f == 18 {
            Rs2::X18
        } else if b & 0x1f == 19 {
            Rs2::X19
        } else if b & 0x1f == 20 {
            Rs2::X20
        } else if b & 0x1f == 21 {
            Rs2::X21
        } else if b & 0x1f == 22 {
            Rs2::X22
        } else if b & 0x1f == 23 {
            Rs2::X23
        } else if b & 0x1f == 24 {
            Rs2::X24
        } else if b & 0x1f == 25 {
            Rs2::X25
        } else if b & 0x1f == 26 {
            Rs2::X26
        } else if b & 0x1f == 27 {
            Rs2::X27
        } else if b & 0x1f == 28 {
            Rs2::X28
        } else if b & 0x1f == 29 {
            Rs2::X29
        } else if b & 0x1f == 30 {
            Rs2::X30
        } else if b & 0x1f == 31 {
            Rs2::X31
        } else {
            Rs2::X0
        }
    }

    pub fn index(&self) -> (i: usize)
        ensures
            i == self.index_spec(),
    {
        match self {
            Rs2::X0 => 0,
            Rs2::X1 => 1,
            Rs2::X2 => 2,
            Rs2::X3 => 3,
            Rs2::X4 => 4,
            Rs2::X5 => 5,
            Rs2::X6 => 6,
            Rs2::X7 => 7,
            Rs2::X8 => 8,
            Rs2::X9 => 9,
            Rs2::X10 => 10,
            Rs2::X11 => 11,
            Rs2::X12 => 12,
            Rs2::X13 => 13,
            Rs2::X14 => 14,
            Rs2::X15 => 15,
            Rs2::X16 => 16,
            Rs2::X17 => 17,
            Rs2::X18 => 18,
            Rs2::X19 => 19,
            Rs2::X20 => 20,
            Rs2::X21 => 21,
            Rs2::X22 => 22,
            Rs2::X23 => 23,
            Rs2::X24 => 24,
            Rs2::X25 => 25,
            Rs2::X26 => 26,
            Rs2::X27 => 27,
            Rs2::X28 => 28,
            Rs2::X29 => 29,
            Rs2::X30 => 30,
            Rs2::X31 => 31,
        }
    }

    pub fn checked_from_u32(b: u32) -> (r: Option<Self>)
        ensures
            b <= 31 ==> r == Some(Self::spec_wrapping_from(b)),
            b > 31 ==> r is None,
    {
        let res = match b {
            0..=31 => Self::wrapping_from_u32(b),
            _ => {
                return None;
            },
        };
        Some(res)
    }

    pub fn wrapping_from_u32(b: u32) -> (r: Self)
        ensures
            r == Self::spec_wrapping_from(b),
    {
        match b & 0x1f {
            0 => Rs2::X0,
            1 => Rs2::X1,
            2 => Rs2::X2,
            3 => Rs2::X3,
            4 => Rs2::X4,
            5 => Rs2::X5,
            6 => Rs2::X6,
            7 => Rs2::X7,
            8 => Rs2::X8,
            9 => Rs2::X9,
            10 => Rs2::X10,
            11 => Rs2::X11,
            12 => Rs2::X12,
            13 => Rs2::X13,
            14 => Rs2::X14,
            15 => Rs2::X15,
            16 => Rs2::X16,
            17 => Rs2::X17,
            18 => Rs2::X18,
            19 => Rs2::X19,
            20 => Rs2::X20,
            21 => Rs2::X21,
            22 => Rs2::X22,
            23 => Rs2::X23,
            24 => Rs2::X24,
            25 => Rs2::X25,
            26 => Rs2::X26,
            27 => Rs2::X27,
            28 => Rs2::X28,
            29 => Rs2::X29,
            30 => Rs2::X30,
            31 => Rs2::X31,
            _ => {
                proof {
                    crate::bits::lemma_and_bound(b, 0x1f);
                }
                unreached()
            },
        }
    }

    /// The selector encoded in `raw[24:20]`.
    pub open spec fn spec_decode(raw32: u32) -> Rs2 {
        Self::spec_wrapping_from((raw32 >> 20) & 0x1f)
    }

    pub fn decode_raw32(raw32: u32) -> (r: Self)
        ensures
            r == Self::spec_decode(raw32),
    {
        proof {
            crate::bits::lemma_field_bounds(raw32);
        }
        Self::checked_from_u32(raw32 >> 20 & 0x1f).expect("Extracted value was larger than 5 bits")
    }
}

#[derive(Clone, Copy, Debug, PartialEq, Eq, Structural)]
/// Destination register selector; `X0` owns the sink slot 32.
pub enum Rd {
    X0,
    X1,
    X2,
    X3,
    X4,
    X5,
    X6,
    X7,
    X8,
    X9,
    X10,
    X11,
    X12,
    X13,
    X14,
    X15,
    X16,
    X17,
    X18,
    X19,
    X20,
    X21,
    X22,
    X23,
    X24,
    X25,
    X26,
    X27,
    X28,
    X29,
    X30,
    X31,
}

impl Rd {
    /// The register-file slot this selector reads or writes.
    pub open spec fn index_spec(self) -> int {
        match self {
            Rd::X0 => 32,
            Rd::X1 => 1,
            Rd::X2 => 2,
            Rd::X3 => 3,
            Rd::X4 => 4,
            Rd::X5 => 5,
            Rd::X6 => 6,
            Rd::X7 => 7,
            Rd::X8 => 8,
            Rd::X9 => 9,
            Rd::X10 => 10,
            Rd::X11 => 11,
            Rd::X12 => 12,
            Rd::X13 => 13,
            Rd::X14 => 14,
            Rd::X15 => 15,
            Rd::X16 => 16,
            Rd::X17 => 17,
            Rd::X18 => 18,
            Rd::X19 => 19,
            Rd::X20 => 20,
            Rd::X21 => 21,
            Rd::X22 => 22,
            Rd::X23 => 23,
            Rd::X24 => 24,
            Rd::X25 => 25,
            Rd::X26 => 26,
            Rd::X27 => 27,
            Rd::X28 => 28,
            Rd::X29 => 29,
            Rd::X30 => 30,
            Rd::X31 => 31,
        }
    }

    /// The selector holding the five low bits of a word.
    pub open spec fn spec_wrapping_from(b: u32) -> Rd {
        if b & 0x1f == 0 {
            Rd::X0
        } else if b & 0x1f == 1 {
            Rd::X1
        } else if b & 0x1f == 2 {
            Rd::X2
        } else if b & 0x1f == 3 {
            Rd::X3
        } else if b & 0x1f == 4 {
            Rd::X4
        } else if b & 0x1f == 5 {
            Rd::X5
        } else if b & 0x1f == 6 {
            Rd::X6
        } else if b & 0x1f == 7 {
            Rd::X7
        } else if b & 0x1f == 8 {
            Rd::X8
        } else if b & 0x1f == 9 {
            Rd::X9
        } else if b & 0x1f == 10 {
            Rd::X10
        } else if b & 0x1f == 11 {
            Rd::X11
        } else if b & 0x1f == 12 {
            Rd::X12
        } else if b & 0x1f == 13 {
            Rd::X13
        } else if b & 0x1f == 14 {
            Rd::X14
        } else if b & 0x1f == 15 {
            Rd::X15
        } else if b & 0x1f == 16 {
            Rd::X16
        } else if b & 0x1f == 17 {
            Rd::X17
        } else if b & 0x1f == 18 {
            Rd::X18
        } else if b & 0x1f == 19 {
            Rd::X19
        } else if b & 0x1f == 20 {
            Rd::X20
        } else if b & 0x1f == 21 {
            Rd::X21
        } else if b & 0x1f == 22 {
            Rd::X22
        } else if b & 0x1f == 23 {
            Rd::X23
        } else if b & 0x1f == 24 {
            Rd::X24
        } else if b & 0x1f == 25 {
            Rd::X25
        } else if b & 0x1f == 26 {
            Rd::X26
        } else if b & 0x1f == 27 {
            Rd::X27
        } else if b & 0x1f == 28 {
            Rd::X28
        } else if b & 0x1f == 29 {
            Rd::X29
        } else if b & 0x1f == 30 {
            Rd::X30
        } else if b & 0x1f == 31 {
            Rd::X31
        } else {
            Rd::X0
        }
    }

    pub fn index(&self) -> (i: usize)
        ensures
            i == self.index_spec(),
    {
        match self {
            Rd::X0 => 32,
            Rd::X1 => 1,
            Rd::X2 => 2,
            Rd::X3 => 3,
            Rd::X4 => 4,
            Rd::X5 => 5,
            Rd::X6 => 6,
            Rd::X7 => 7,
            Rd::X8 => 8,
            Rd::X9 => 9,
            Rd::X10 => 10,
            Rd::X11 => 11,
            Rd::X12 => 12,
            Rd::X13 => 13,
            Rd::X14 => 14,
            Rd::X15 => 15,
            Rd::X16 => 16,
            Rd::X17 => 17,
            Rd::X18 => 18,
            Rd::X19 => 19,
            Rd::X20 => 20,
            Rd::X21 => 21,
            Rd::X22 => 22,
            Rd::X23 => 23,
            Rd::X24 => 24,
            Rd::X25 => 25,
            Rd::X26 => 26,
            Rd::X27 => 27,
            Rd::X28 => 28,
            Rd::X29 => 29,
            Rd::X30 => 30,
            Rd::X31 => 31,
        }
    }

    pub fn checked_from_u32(b: u32) -> (r: Option<Self>)
        ensures
            b <= 31 ==> r == Some(Self::spec_wrapping_from(b)),
            b > 31 ==> r is None,
    {
        let res = match b {
            0..=31 => Self::wrapping_from_u32(b),
            _ => {
                return None;
            },
        };
        Some(res)
    }

    pub fn wrapping_from_u32(b: u32) -> (r: Self)
        ensures
            r == Self::spec_wrapping_from(b),
    {
        match b & 0x1f {
            0 => Rd::X0,
            1 => Rd::X1,
            2 => Rd::X2,
            3 => Rd::X3,
            4 => Rd::X4,
            5 => Rd::X5,
            6 => Rd::X6,
            7 => Rd::X7,
            8 => Rd::X8,
            9 => Rd::X9,
            10 => Rd::X10,
            11 => Rd::X11,
            12 => Rd::X12,
            13 => Rd::X13,
            14 => Rd::X14,
            15 => Rd::X15,
            16 => Rd::X16,
            17 => Rd::X17,
            18 => Rd::X18,
            19 => Rd::X19,
            20 => Rd::X20,
            21 => Rd::X21,
            22 => Rd::X22,
            23 => Rd::X23,
            24 => Rd::X24,
            25 => Rd::X25,
            26 => Rd::X26,
            27 => Rd::X27,
            28 => Rd::X28,
            29 => Rd::X29,
            30 => Rd::X30,
            31 => Rd::X31,
            _ => {
                proof {
                    crate::bits::lemma_and_bound(b, 0x1f);
                }
                unreached()
            },
        }
    }

    /// The selector encoded in `raw[11:7]`.
    pub open spec fn spec_decode(raw32: u32) -> Rd {
        Self::spec_wrapping_from((raw32 >> 7) & 0x1f)
    }

    pub fn decode_raw32(raw32: u32) -> (r: Self)
        ensures
            r == Self::spec_decode(raw32),
    {
        proof {
            crate::bits::lemma_field_bounds(raw32);
        }
        Self::checked_from_u32(raw32 >> 7 & 0x1f).expect("Extracted value was larger than 5 bits")
    }
}

/// The 33-slot integer register file; slot 32 is the write sink for `X0`.
pub struct RegFile {
    reg: Vec<u32>,
}

impl View for RegFile {
    type V = Seq<u32>;

    closed spec fn view(&self) -> Seq<u32> {
        self.reg@
    }
}

impl RegFile {
    #[verifier::type_invariant]
    spec fn inv(&self) -> bool {
        self.reg@.len() == 33
    }

    pub fn new() -> (r: Self)
        ensures
            r@.len() == 33,
            forall|i: int| 0 <= i < 33 ==> r@[i] == 0u32,
    {
        let mut reg: Vec<u32> = Vec::new();
        let mut i: usize = 0;
        while i < 33
            invariant
                i <= 33,
                reg@.len() == i,
                forall|j: int| 0 <= j < i ==> reg@[j] == 0u32,
            decreases 33 - i,
        {
            reg.push(0);
            i = i + 1;
        }
        Self { reg }
    }

    /// The value the hart reads through a first-source selector.
    pub fn get_rs1(&self, rs1: Rs1) -> (r: u32)
        ensures
            r == self@[rs1.index_spec()],
    {
        proof {
            use_type_invariant(self);
        }
        let i = rs1.index();
        self.reg[i]
    }

    /// The value the hart reads through a second-source selector.
    pub fn get_rs2(&self, rs2: Rs2) -> (r: u32)
        ensures
            r == self@[rs2.index_spec()],
    {
        proof {
            use_type_invariant(self);
        }
        let i = rs2.index();
        self.reg[i]
    }

    /// Writes the destination slot; a write through `Rd::X0` lands in the
    /// sink slot and leaves the 32 architectural slots unchanged.
    pub fn set_rd(&mut self, rd: Rd, value: u32)
        ensures
            final(self)@ == old(self)@.update(rd.index_spec(), value),
    {
        proof {
            use_type_invariant(&*self);
        }
        let i = rd.index();
        let slot = &mut self.reg[i];
        *slot = value;
    }

    /// One raw slot of the file; slot 32 is the `X0` write sink.
    pub fn slot(&self, i: usize) -> (r: u32)
        requires
            i < 33,
        ensures
            r == self@[i as int],
    {
        proof {
            use_type_invariant(self);
        }
        self.reg[i]
    }
}

impl Default for RegFile {
    fn default() -> (r: Self)
        ensures
            r@.len() == 33,
            forall|i: int| 0 <= i < 33 ==> r@[i] == 0u32,
    {
        Self::new()
    }
}

} // verus!
