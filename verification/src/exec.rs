//! The trap taxonomy of instruction execution.
//!
//! The core never raises these itself: the enumeration and its numeric codes
//! from the privileged specification are provided for the collaborators that
//! execute decoded instructions.

use vstd::prelude::*;

verus! {

#[derive(Clone, Copy, Debug, PartialEq, Eq, Structural)]
/// An execution-time trap, one per cause the privileged specification
/// numbers.
pub enum Error {
    InstructionAddressMisaligned,
    InstructionAccessFault,
    IllegalInstruction,
    Breakpoint,
    LoadAddressMisaligned,
    LoadAccessFault,
    StoreOrAmoAddressMisaligned,
    StoreOrAmoAccessFault,
    EcallFromUOrVUMode,
    EcallFromHSMode,
    EcallFromVSMode,
    EcallFromMMode,
    InstructionPageFault,
    LoadPageFault,
    StoreOrAmoPageFault,
    InstructionGuestPageFault,
    LoadGuestPageFault,
    /// Raised when virtualisation is enabled and software attempts to access
    /// a VS CSR directly
    ///
    /// > When V=1, an attempt to read or write a VS CSR directly by its own
    /// > separate CSR address causes a virtual instruction exception.
    /// >
    /// > --- RISC-V privileged specification, p. 100
    VirtualInstruction,
    StoreOrAmoGuestPageFault,
}

impl Error {
    /// The cause number the privileged specification assigns to this trap.
    pub open spec fn code_spec(self) -> u32 {
        match self {
            Error::InstructionAddressMisaligned => 0,
            Error::InstructionAccessFault => 1,
            Error::IllegalInstruction => 2,
            Error::Breakpoint => 3,
            Error::LoadAddressMisaligned => 4,
            Error::LoadAccessFault => 5,
            Error::StoreOrAmoAddressMisaligned => 6,
            Error::StoreOrAmoAccessFault => 7,
            Error::EcallFromUOrVUMode => 8,
            Error::EcallFromHSMode => 9,
            Error::EcallFromVSMode => 10,
            Error::EcallFromMMode => 11,
            Error::InstructionPageFault => 12,
            Error::LoadPageFault => 13,
            Error::StoreOrAmoPageFault => 15,
            Error::InstructionGuestPageFault => 20,
            Error::LoadGuestPageFault => 21,
            Error::VirtualInstruction => 22,
            Error::StoreOrAmoGuestPageFault => 23,
        }
    }

    pub fn code(&self) -> (r: u32)
        ensures
            r == self.code_spec(),
    {
        match self {
            Error::InstructionAddressMisaligned => 0,
            Error::InstructionAccessFault => 1,
            Error::IllegalInstruction => 2,
            Error::Breakpoint => 3,
            Error::LoadAddressMisaligned => 4,
            Error::LoadAccessFault => 5,
            Error::StoreOrAmoAddressMisaligned => 6,
            Error::StoreOrAmoAccessFault => 7,
            Error::EcallFromUOrVUMode => 8,
            Error::EcallFromHSMode => 9,
            Error::EcallFromVSMode => 10,
            Error::EcallFromMMode => 11,
            Error::InstructionPageFault => 12,
            Error::LoadPageFault => 13,
            Error::StoreOrAmoPageFault => 15,
            Error::InstructionGuestPageFault => 20,
            Error::LoadGuestPageFault => 21,
            Error::VirtualInstruction => 22,
            Error::StoreOrAmoGuestPageFault => 23,
        }
    }
}

} // verus!
