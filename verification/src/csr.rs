//! The control-and-status register address space.
//!
//! `Csr` enumerates every standard unprivileged, supervisor, hypervisor,
//! machine and debug CSR; `checked_from_u32` is the partial inverse of
//! `address_of`, and addresses outside the table map to nothing.

use vstd::prelude::*;

verus! {

/// Slots of the backing CSR register file: one per enumerated CSR.
pub const CSR_FILE_SIZE: usize = 309;

#[derive(Copy, Clone, Debug, PartialEq, Eq, Structural)]
/// CSR registers.
///
/// Variants are documented as ``Number | Privilege | Description``
pub enum Csr {
    /// ``0x001 | URW | Floating-Point Accrued Exceptions.``
    Fflags,
    /// ``0x002 | URW | Floating-Point Dynamic Rounding Mode.``
    Frm,
    /// ``0x003 | URW | Floating-Point Control and Status Register (`Frm + Fflags`).``
    Fcsr,
    /// ``0xC00 | URO | Cycle counter for RDCYCLE instruction.``
    Cycle,
    /// ``0xC01 | URO | Timer for RDTIME instruction.``
    Time,
    /// ``0xC02 | URO | Timer for RDINSTRET instruction.``
    Instret,
    /// ``0xC03 | URO | Performance-monitoring counter.``
    Hpmcounter3,
    /// ``0xC04 | URO | Performance-monitoring counter.``
    Hpmcounter4,
    /// ``0xC05 | URO | Performance-monitoring counter.``
    Hpmcounter5,
    /// ``0xC06 | URO | Performance-monitoring counter.``
    Hpmcounter6,
    /// ``0xC07 | URO | Performance-monitoring counter.``
    Hpmcounter7,
    /// ``0xC08 | URO | Performance-monitoring counter.``
    Hpmcounter8,
    /// ``0xC09 | URO | Performance-monitoring counter.``
    Hpmcounter9,
    /// ``0xC0A | URO | Performance-monitoring counter.``
    Hpmcounter10,
    /// ``0xC0B | URO | Performance-monitoring counter.``
    Hpmcounter11,
    /// ``0xC0C | URO | Performance-monitoring counter.``
    Hpmcounter12,
    /// ``0xC0D | URO | Performance-monitoring counter.``
    Hpmcounter13,
    /// ``0xC0E | URO | Performance-monitoring counter.``
    Hpmcounter14,
    /// ``0xC0F | URO | Performance-monitoring counter.``
    Hpmcounter15,
    /// ``0xC10 | URO | Performance-monitoring counter.``
    Hpmcounter16,
    /// ``0xC11 | URO | Performance-monitoring counter.``
    Hpmcounter17,
    /// ``0xC12 | URO | Performance-monitoring counter.``
    Hpmcounter18,
    /// ``0xC13 | URO | Performance-monitoring counter.``
    Hpmcounter19,
    /// ``0xC14 | URO | Performance-monitoring counter.``
    Hpmcounter20,
    /// ``0xC15 | URO | Performance-monitoring counter.``
    Hpmcounter21,
    /// ``0xC16 | URO | Performance-monitoring counter.``
    Hpmcounter22,
    /// ``0xC17 | URO | Performance-monitoring counter.``
    Hpmcounter23,
    /// ``0xC18 | URO | Performance-monitoring counter.``
    Hpmcounter24,
    /// ``0xC19 | URO | Performance-monitoring counter.``
    Hpmcounter25,
    /// ``0xC1A | URO | Performance-monitoring counter.``
    Hpmcounter26,
    /// ``0xC1B | URO | Performance-monitoring counter.``
    Hpmcounter27,
    /// ``0xC1C | URO | Performance-monitoring counter.``
    Hpmcounter28,
    /// ``0xC1D | URO | Performance-monitoring counter.``
    Hpmcounter29,
    /// ``0xC1E | URO | Performance-monitoring counter.``
    Hpmcounter30,
    /// ``0xC1F | URO | Performance-monitoring counter.``
    Hpmcounter31,
    /// ``0xC80 | URO | Upper 32 bits of `Cycle`, RV32 only.``
    Cycleh,
    /// ``0xC81 | URO | Upper 32 bits of `Time`, RV32 only.``
    Timeh,
    /// ``0xC82 | URO | Upper 32 bits of `Instret`, RV32 only.``
    Instreth,
    /// ``0xC83 | URO | Upper 32 bits of `Hpmcounter3`, RV32 only.``
    Hpmcounter3h,
    /// ``0xC84 | URO | Upper 32 bits of `Hpmcounter4`, RV32 only.``
    Hpmcounter4h,
    /// ``0xC85 | URO | Upper 32 bits of `Hpmcounter5`, RV32 only.``
    Hpmcounter5h,
    /// ``0xC86 | URO | Upper 32 bits of `Hpmcounter6`, RV32 only.``
    Hpmcounter6h,
    /// ``0xC87 | URO | Upper 32 bits of `Hpmcounter7`, RV32 only.``
    Hpmcounter7h,
    /// ``0xC88 | URO | Upper 32 bits of `Hpmcounter8`, RV32 only.``
    Hpmcounter8h,
    /// ``0xC89 | URO | Upper 32 bits of `Hpmcounter9`, RV32 only.``
    Hpmcounter9h,
    /// ``0xC8A | URO | Upper 32 bits of `Hpmcounter10`, RV32 only.``
    Hpmcounter10h,
    /// ``0xC8B | URO | Upper 32 bits of `Hpmcounter11`, RV32 only.``
    Hpmcounter11h,
    /// ``0xC8C | URO | Upper 32 bits of `Hpmcounter12`, RV32 only.``
    Hpmcounter12h,
    /// ``0xC8D | URO | Upper 32 bits of `Hpmcounter13`, RV32 only.``
    Hpmcounter13h,
    /// ``0xC8E | URO | Upper 32 bits of `Hpmcounter14`, RV32 only.``
    Hpmcounter14h,
    /// ``0xC8F | URO | Upper 32 bits of `Hpmcounter15`, RV32 only.``
    Hpmcounter15h,
    /// ``0xC90 | URO | Upper 32 bits of `Hpmcounter16`, RV32 only.``
    Hpmcounter16h,
    /// ``0xC91 | URO | Upper 32 bits of `Hpmcounter17`, RV32 only.``
    Hpmcounter17h,
    /// ``0xC92 | URO | Upper 32 bits of `Hpmcounter18`, RV32 only.``
    Hpmcounter18h,
    /// ``0xC93 | URO | Upper 32 bits of `Hpmcounter19`, RV32 only.``
    Hpmcounter19h,
    /// ``0xC94 | URO | Upper 32 bits of `Hpmcounter20`, RV32 only.``
    Hpmcounter20h,
    /// ``0xC95 | URO | Upper 32 bits of `Hpmcounter21`, RV32 only.``
    Hpmcounter21h,
    /// ``0xC96 | URO | Upper 32 bits of `Hpmcounter22`, RV32 only.``
    Hpmcounter22h,
    /// ``0xC97 | URO | Upper 32 bits of `Hpmcounter23`, RV32 only.``
    Hpmcounter23h,
    /// ``0xC98 | URO | Upper 32 bits of `Hpmcounter24`, RV32 only.``
    Hpmcounter24h,
    /// ``0xC99 | URO | Upper 32 bits of `Hpmcounter25`, RV32 only.``
    Hpmcounter25h,
    /// ``0xC9A | URO | Upper 32 bits of `Hpmcounter26`, RV32 only.``
    Hpmcounter26h,
    /// ``0xC9B | URO | Upper 32 bits of `Hpmcounter27`, RV32 only.``
    Hpmcounter27h,
    /// ``0xC9C | URO | Upper 32 bits of `Hpmcounter28`, RV32 only.``
    Hpmcounter28h,
    /// ``0xC9D | URO | Upper 32 bits of `Hpmcounter29`, RV32 only.``
    Hpmcounter29h,
    /// ``0xC9E | URO | Upper 32 bits of `Hpmcounter30`, RV32 only.``
    Hpmcounter30h,
    /// ``0xC9F | URO | Upper 32 bits of `Hpmcounter31`, RV32 only.``
    Hpmcounter31h,
    /// ``0x100 | SRW | Supervisor status register.``
    Sstatus,
    /// ``0x104 | SRW | Supervisor interrupt-enable register.``
    Ssie,
    /// ``0x105 | SRW | Supervisor trap handler base address.``
    Stvec,
    /// ``0x106 | SRW | Supervisor counter enable.``
    Scounteren,
    /// ``0x10A | SRW | Supervisor environment configuration register.``
    Senvcfg,
    /// ``0x140 | SRW | Supervisor register for supervisor trap handlers.``
    Sscratch,
    /// ``0x141 | SRW | Supervisor exception program counter.``
    Sepc,
    /// ``0x142 | SRW | Supervisor trap cause.``
    Scause,
    /// ``0x143 | SRW | Supervisor bad address or instruction.``
    Stval,
    /// ``0x144 | SRW | Supervisor interrupt pending.``
    Sip,
    /// ``0x180 | SRW | Supervisor address translation and protection.``
    Satp,
    /// ``0x5A8 | SRW | Supervisor-mode context register.``
    Scontext,
    /// ``0x600 | HRW | Hypervisor status register.``
    Hstatus,
    /// ``0x602 | HRW | Hypervisor exception delegation register.``
    Hedeleg,
    /// ``0x603 | HRW | Hypervisor interrupt delegation register.``
    Hideleg,
    /// ``0x604 | HRW | Hypervisor interrupt-enable register.``
    Hie,
    /// ``0x606 | HRW | Hypervisor counter enable.``
    Hcounteren,
    /// ``0x607 | HRW | Hypervisor guest external interrupt-enable register.``
    Hgeie,
    /// ``0x643 | HRW | Hypervisor bad guest physical address.``
    Htval,
    /// ``0x644 | HRW | Hypervisor interrupt pending.``
    Hip,
    /// ``0x645 | HRW | Hypervisor virtual interrupt pending.``
    Hvip,
    /// ``0x64A | HRW | Hypervisor trap instruction (transformed).``
    Htinst,
    /// ``0xE12 | HRO | Hypervisor guest external interrupt pending.``
    Hgeip,
    /// ``0x60A | HRW | Hypervisor environment configuration register.``
    Henvcfg,
    /// ``0x61A | HRW | Additional hypervisor env. conf. register, RV32 only.``
    Henvcfgh,
    /// ``0x6A8 | HRW | Hypervisor-mode context register.``
    Hcontext,
    /// ``0x605 | HRW | Delta for VS/VU-mode timer.``
    Htimedelta,
    /// ``0x615 | HRW | Upper 32 bits of `Htimedelta`, HSXLEN=32 only.``
    Htimedeltah,
    /// ``0x200 | HRW | Virtual supervisor status register.``
    Vsstatus,
    /// ``0x204 | HRW | Virtual supervisor interrupt-enable register.``
    Vsie,
    /// ``0x205 | HRW | Virtual supervisor trap handler base address.``
    Vstvec,
    /// ``0x240 | HRW | Virtual supervisor scratch register.``
    Vsscratch,
    /// ``0x241 | HRW | Virtual supervisor exception program counter.``
    Vsepc,
    /// ``0x242 | HRW | Virtual supervisor trap cause.``
    Vscause,
    /// ``0x243 | HRW | Virtual supervisor bad address or instruction.``
    Vstval,
    /// ``0x244 | HRW | Virtual supervisor interrupt pending.``
    Vsip,
    /// ``0x280 | HRW | Virtual supervisor address translation and protection.``
    Vsatp,
    /// ``0xF11 | MRO | Vendor ID.``
    Mvendorid,
    /// ``0xF12 | MRO | Architecture ID.``
    Marchid,
    /// ``0xF13 | MRO | Implementation ID.``
    Mimpid,
    /// ``0xF14 | MRO | Hardware thread ID.``
    Mhartid,
    /// ``0xF15 | MRO | Pointer to configuration data structure.``
    Mconfigptr,
    /// ``0x300 | MRW | Machine status register.``
    Mstatus,
    /// ``0x301 | MRW | ISA and extensions.``
    Misa,
    /// ``0x302 | MRW | Machine exception delegation register.``
    Medeleg,
    /// ``0x303 | MRW | Machine interrupt delegation register.``
    Mideleg,
    /// ``0x304 | MRW | Machine interrupt-enable register.``
    Mie,
    /// ``0x305 | MRW | Machine trap-handler base address.``
    Mtvec,
    /// ``0x306 | MRW | Machine counter enable.``
    Mcounteren,
    /// ``0x310 | MRW | Additional machine status register, RV32 only.``
    Mstatush,
    /// ``0x340 | MRW | Scratch register for machine trap handlers.``
    Mscratch,
    /// ``0x341 | MRW | Machine exception program counter.``
    Mepc,
    /// ``0x342 | MRW | Machine trap cause.``
    Mcause,
    /// ``0x343 | MRW | Machine bad address or instruction.``
    Mtval,
    /// ``0x344 | MRW | Machine interrupt pending.``
    Mip,
    /// ``0x34A | MRW | Machine trap instruction (transformed).``
    Mtinst,
    /// ``0x34B | MRW | Machine bad guest physical address.``
    Mtval2,
    /// ``0x30A | MRW | Machine environment configuration register.``
    Menvcfg,
    /// ``0x31A | MRW | Additional machine env. conf. register, RV32 only.``
    Menvcfgh,
    /// ``0x747 | MRW | Machine security configuration register.``
    Mseccfg,
    /// ``0x757 | MRW | Additional machine security conf. register, RV32 only.``
    Mseccfgh,
    /// ``0x3A0 | MRW | Physical memory protection configuration.``
    Pmpcfg0,
    /// ``0x3A1 | MRW | Physical memory protection configuration, RV32 only.``
    Pmpcfg1,
    /// ``0x3A2 | MRW | Physical memory protection configuration.``
    Pmpcfg2,
    /// ``0x3A3 | MRW | Physical memory protection configuration, RV32 only.``
    Pmpcfg3,
    /// ``0x3A4 | MRW | Physical memory protection configuration.``
    Pmpcfg4,
    /// ``0x3A5 | MRW | Physical memory protection configuration, RV32 only.``
    Pmpcfg5,
    /// ``0x3A6 | MRW | Physical memory protection configuration.``
    Pmpcfg6,
    /// ``0x3A7 | MRW | Physical memory protection configuration, RV32 only.``
    Pmpcfg7,
    /// ``0x3A8 | MRW | Physical memory protection configuration.``
    Pmpcfg08,
    /// ``0x3A9 | MRW | Physical memory protection configuration, RV32 only.``
    Pmpcfg09,
    /// ``0x3AA | MRW | Physical memory protection configuration.``
    Pmpcfg10,
    /// ``0x3AB | MRW | Physical memory protection configuration, RV32 only.``
    Pmpcfg11,
    /// ``0x3AC | MRW | Physical memory protection configuration.``
    Pmpcfg12,
    /// ``0x3AD | MRW | Physical memory protection configuration, RV32 only.``
    Pmpcfg13,
    /// ``0x3AE | MRW | Physical memory protection configuration.``
    Pmpcfg14,
    /// ``0x3AF | MRW | Physical memory protection configuration, RV32 only.``
    Pmpcfg15,
    /// ``0x3B0 | MRW | Physical memory protection address register.``
    Pmpaddr0,
    /// ``0x3B1 | MRW | Physical memory protection address register.``
    Pmpaddr1,
    /// ``0x3B2 | MRW | Physical memory protection address register.``
    Pmpaddr2,
    /// ``0x3B3 | MRW | Physical memory protection address register.``
    Pmpaddr3,
    /// ``0x3B4 | MRW | Physical memory protection address register.``
    Pmpaddr4,
    /// ``0x3B5 | MRW | Physical memory protection address register.``
    Pmpaddr5,
    /// ``0x3B6 | MRW | Physical memory protection address register.``
    Pmpaddr6,
    /// ``0x3B7 | MRW | Physical memory protection address register.``
    Pmpaddr7,
    /// ``0x3B8 | MRW | Physical memory protection address register.``
    Pmpaddr8,
    /// ``0x3B9 | MRW | Physical memory protection address register.``
    Pmpaddr9,
    /// ``0x3BA | MRW | Physical memory protection address register.``
    Pmpaddr10,
    /// ``0x3BB | MRW | Physical memory protection address register.``
    Pmpaddr11,
    /// ``0x3BC | MRW | Physical memory protection address register.``
    Pmpaddr12,
    /// ``0x3BD | MRW | Physical memory protection address register.``
    Pmpaddr13,
    /// ``0x3BE | MRW | Physical memory protection address register.``
    Pmpaddr14,
    /// ``0x3BF | MRW | Physical memory protection address register.``
    Pmpaddr15,
    /// ``0x3C0 | MRW | Physical memory protection address register.``
    Pmpaddr16,
    /// ``0x3C1 | MRW | Physical memory protection address register.``
    Pmpaddr17,
    /// ``0x3C2 | MRW | Physical memory protection address register.``
    Pmpaddr18,
    /// ``0x3C3 | MRW | Physical memory protection address register.``
    Pmpaddr19,
    /// ``0x3C4 | MRW | Physical memory protection address register.``
    Pmpaddr20,
    /// ``0x3C5 | MRW | Physical memory protection address register.``
    Pmpaddr21,
    /// ``0x3C6 | MRW | Physical memory protection address register.``
    Pmpaddr22,
    /// ``0x3C7 | MRW | Physical memory protection address register.``
    Pmpaddr23,
    /// ``0x3C8 | MRW | Physical memory protection address register.``
    Pmpaddr24,
    /// ``0x3C9 | MRW | Physical memory protection address register.``
    Pmpaddr25,
    /// ``0x3CA | MRW | Physical memory protection address register.``
    Pmpaddr26,
    /// ``0x3CB | MRW | Physical memory protection address register.``
    Pmpaddr27,
    /// ``0x3CC | MRW | Physical memory protection address register.``
    Pmpaddr28,
    /// ``0x3CD | MRW | Physical memory protection address register.``
    Pmpaddr29,
    /// ``0x3CE | MRW | Physical memory protection address register.``
    Pmpaddr30,
    /// ``0x3CF | MRW | Physical memory protection address register.``
    Pmpaddr31,
    /// ``0x3D0 | MRW | Physical memory protection address register.``
    Pmpaddr32,
    /// ``0x3D1 | MRW | Physical memory protection address register.``
    Pmpaddr33,
    /// ``0x3D2 | MRW | Physical memory protection address register.``
    Pmpaddr34,
    /// ``0x3D3 | MRW | Physical memory protection address register.``
    Pmpaddr35,
    /// ``0x3D4 | MRW | Physical memory protection address register.``
    Pmpaddr36,
    /// ``0x3D5 | MRW | Physical memory protection address register.``
    Pmpaddr37,
    /// ``0x3D6 | MRW | Physical memory protection address register.``
    Pmpaddr38,
    /// ``0x3D7 | MRW | Physical memory protection address register.``
    Pmpaddr39,
    /// ``0x3D8 | MRW | Physical memory protection address register.``
    Pmpaddr40,
    /// ``0x3D9 | MRW | Physical memory protection address register.``
    Pmpaddr41,
    /// ``0x3DA | MRW | Physical memory protection address register.``
    Pmpaddr42,
    /// ``0x3DB | MRW | Physical memory protection address register.``
    Pmpaddr43,
    /// ``0x3DC | MRW | Physical memory protection address register.``
    Pmpaddr44,
    /// ``0x3DD | MRW | Physical memory protection address register.``
    Pmpaddr45,
    /// ``0x3DE | MRW | Physical memory protection address register.``
    Pmpaddr46,
    /// ``0x3DF | MRW | Physical memory protection address register.``
    Pmpaddr47,
    /// ``0x3E0 | MRW | Physical memory protection address register.``
    Pmpaddr48,
    /// ``0x3E1 | MRW | Physical memory protection address register.``
    Pmpaddr49,
    /// ``0x3E2 | MRW | Physical memory protection address register.``
    Pmpaddr50,
    /// ``0x3E3 | MRW | Physical memory protection address register.``
    Pmpaddr51,
    /// ``0x3E4 | MRW | Physical memory protection address register.``
    Pmpaddr52,
    /// ``0x3E5 | MRW | Physical memory protection address register.``
    Pmpaddr53,
    /// ``0x3E6 | MRW | Physical memory protection address register.``
    Pmpaddr54,
    /// ``0x3E7 | MRW | Physical memory protection address register.``
    Pmpaddr55,
    /// ``0x3E8 | MRW | Physical memory protection address register.``
    Pmpaddr56,
    /// ``0x3E9 | MRW | Physical memory protection address register.``
    Pmpaddr57,
    /// ``0x3EA | MRW | Physical memory protection address register.``
    Pmpaddr58,
    /// ``0x3EB | MRW | Physical memory protection address register.``
    Pmpaddr59,
    /// ``0x3EC | MRW | Physical memory protection address register.``
    Pmpaddr60,
    /// ``0x3ED | MRW | Physical memory protection address register.``
    Pmpaddr61,
    /// ``0x3EE | MRW | Physical memory protection address register.``
    Pmpaddr62,
    /// ``0x3EF | MRW | Physical memory protection address register.``
    Pmpaddr63,
    /// ``0xB00 | MRW | Machine cycle counter.``
    Mcycle,
    /// ``0xB02 | MRW | Machine instructions-retired counter.``
    Minstret,
    /// ``0xB03 | MRW | Machine performance-monitoring counter.``
    Mhpmcounter3,
    /// ``0xB04 | MRW | Machine performance-monitoring counter.``
    Mhpmcounter4,
    /// ``0xB05 | MRW | Machine performance-monitoring counter.``
    Mhpmcounter5,
    /// ``0xB06 | MRW | Machine performance-monitoring counter.``
    Mhpmcounter6,
    /// ``0xB07 | MRW | Machine performance-monitoring counter.``
    Mhpmcounter7,
    /// ``0xB08 | MRW | Machine performance-monitoring counter.``
    Mhpmcounter8,
    /// ``0xB09 | MRW | Machine performance-monitoring counter.``
    Mhpmcounter9,
    /// ``0xB0A | MRW | Machine performance-monitoring counter.``
    Mhpmcounter10,
    /// ``0xB0B | MRW | Machine performance-monitoring counter.``
    Mhpmcounter11,
    /// ``0xB0C | MRW | Machine performance-monitoring counter.``
    Mhpmcounter12,
    /// ``0xB0D | MRW | Machine performance-monitoring counter.``
    Mhpmcounter13,
    /// ``0xB0E | MRW | Machine performance-monitoring counter.``
    Mhpmcounter14,
    /// ``0xB0F | MRW | Machine performance-monitoring counter.``
    Mhpmcounter15,
    /// ``0xB10 | MRW | Machine performance-monitoring counter.``
    Mhpmcounter16,
    /// ``0xB11 | MRW | Machine performance-monitoring counter.``
    Mhpmcounter17,
    /// ``0xB12 | MRW | Machine performance-monitoring counter.``
    Mhpmcounter18,
    /// ``0xB13 | MRW | Machine performance-monitoring counter.``
    Mhpmcounter19,
    /// ``0xB14 | MRW | Machine performance-monitoring counter.``
    Mhpmcounter20,
    /// ``0xB15 | MRW | Machine performance-monitoring counter.``
    Mhpmcounter21,
    /// ``0xB16 | MRW | Machine performance-monitoring counter.``
    Mhpmcounter22,
    /// ``0xB17 | MRW | Machine performance-monitoring counter.``
    Mhpmcounter23,
    /// ``0xB18 | MRW | Machine performance-monitoring counter.``
    Mhpmcounter24,
    /// ``0xB19 | MRW | Machine performance-monitoring counter.``
    Mhpmcounter25,
    /// ``0xB1A | MRW | Machine performance-monitoring counter.``
    Mhpmcounter26,
    /// ``0xB1B | MRW | Machine performance-monitoring counter.``
    Mhpmcounter27,
    /// ``0xB1C | MRW | Machine performance-monitoring counter.``
    Mhpmcounter28,
    /// ``0xB1D | MRW | Machine performance-monitoring counter.``
    Mhpmcounter29,
    /// ``0xB1E | MRW | Machine performance-monitoring counter.``
    Mhpmcounter30,
    /// ``0xB1F | MRW | Machine performance-monitoring counter.``
    Mhpmcounter31,
    /// ``0xB80 | MRW | Upper 32 bits of `Mcycle`, RV32 only.``
    Mcycleh,
    /// ``0xB82 | MRW | Upper 32 bits of `Minstret`, RV32 only.``
    Minstreth,
    /// ``0xB83 | MRW | Upper 32 bits of `Mhpmcounter3`, RV32 only.``
    Mhpmcounter3h,
    /// ``0xB84 | MRW | Upper 32 bits of `Mhpmcounter4`, RV32 only.``
    Mhpmcounter4h,
    /// ``0xB85 | MRW | Upper 32 bits of `Mhpmcounter5`, RV32 only.``
    Mhpmcounter5h,
    /// ``0xB86 | MRW | Upper 32 bits of `Mhpmcounter6`, RV32 only.``
    Mhpmcounter6h,
    /// ``0xB87 | MRW | Upper 32 bits of `Mhpmcounter7`, RV32 only.``
    Mhpmcounter7h,
    /// ``0xB88 | MRW | Upper 32 bits of `Mhpmcounter8`, RV32 only.``
    Mhpmcounter8h,
    /// ``0xB89 | MRW | Upper 32 bits of `Mhpmcounter9`, RV32 only.``
    Mhpmcounter9h,
    /// ``0xB8A | MRW | Upper 32 bits of `Mhpmcounter10`, RV32 only.``
    Mhpmcounter10h,
    /// ``0xB8B | MRW | Upper 32 bits of `Mhpmcounter11`, RV32 only.``
    Mhpmcounter11h,
    /// ``0xB8C | MRW | Upper 32 bits of `Mhpmcounter12`, RV32 only.``
    Mhpmcounter12h,
    /// ``0xB8D | MRW | Upper 32 bits of `Mhpmcounter13`, RV32 only.``
    Mhpmcounter13h,
    /// ``0xB8E | MRW | Upper 32 bits of `Mhpmcounter14`, RV32 only.``
    Mhpmcounter14h,
    /// ``0xB8F | MRW | Upper 32 bits of `Mhpmcounter15`, RV32 only.``
    Mhpmcounter15h,
    /// ``0xB90 | MRW | Upper 32 bits of `Mhpmcounter16`, RV32 only.``
    Mhpmcounter16h,
    /// ``0xB91 | MRW | Upper 32 bits of `Mhpmcounter17`, RV32 only.``
    Mhpmcounter17h,
    /// ``0xB92 | MRW | Upper 32 bits of `Mhpmcounter18`, RV32 only.``
    Mhpmcounter18h,
    /// ``0xB93 | MRW | Upper 32 bits of `Mhpmcounter19`, RV32 only.``
    Mhpmcounter19h,
    /// ``0xB94 | MRW | Upper 32 bits of `Mhpmcounter20`, RV32 only.``
    Mhpmcounter20h,
    /// ``0xB95 | MRW | Upper 32 bits of `Mhpmcounter21`, RV32 only.``
    Mhpmcounter21h,
    /// ``0xB96 | MRW | Upper 32 bits of `Mhpmcounter22`, RV32 only.``
    Mhpmcounter22h,
    /// ``0xB97 | MRW | Upper 32 bits of `Mhpmcounter23`, RV32 only.``
    Mhpmcounter23h,
    /// ``0xB98 | MRW | Upper 32 bits of `Mhpmcounter24`, RV32 only.``
    Mhpmcounter24h,
    /// ``0xB99 | MRW | Upper 32 bits of `Mhpmcounter25`, RV32 only.``
    Mhpmcounter25h,
    /// ``0xB9A | MRW | Upper 32 bits of `Mhpmcounter26`, RV32 only.``
    Mhpmcounter26h,
    /// ``0xB9B | MRW | Upper 32 bits of `Mhpmcounter27`, RV32 only.``
    Mhpmcounter27h,
    /// ``0xB9C | MRW | Upper 32 bits of `Mhpmcounter28`, RV32 only.``
    Mhpmcounter28h,
    /// ``0xB9D | MRW | Upper 32 bits of `Mhpmcounter29`, RV32 only.``
    Mhpmcounter29h,
    /// ``0xB9E | MRW | Upper 32 bits of `Mhpmcounter30`, RV32 only.``
    Mhpmcounter30h,
    /// ``0xB9F | MRW | Upper 32 bits of `Mhpmcounter31`, RV32 only.``
    Mhpmcounter31h,
    /// ``0x320 | MRW | Machine counter-inhibit register.``
    Mcountinhibit,
    /// ``0x323 | MRW | Machine performance-monitoring event selector.``
    Mhpmevent3,
    /// ``0x324 | MRW | Machine performance-monitoring event selector.``
    Mhpmevent4,
    /// ``0x325 | MRW | Machine performance-monitoring event selector.``
    Mhpmevent5,
    /// ``0x326 | MRW | Machine performance-monitoring event selector.``
    Mhpmevent6,
    /// ``0x327 | MRW | Machine performance-monitoring event selector.``
    Mhpmevent7,
    /// ``0x328 | MRW | Machine performance-monitoring event selector.``
    Mhpmevent8,
    /// ``0x329 | MRW | Machine performance-monitoring event selector.``
    Mhpmevent9,
    /// ``0x32A | MRW | Machine performance-monitoring event selector.``
    Mhpmevent10,
    /// ``0x32B | MRW | Machine performance-monitoring event selector.``
    Mhpmevent11,
    /// ``0x32C | MRW | Machine performance-monitoring event selector.``
    Mhpmevent12,
    /// ``0x32D | MRW | Machine performance-monitoring event selector.``
    Mhpmevent13,
    /// ``0x32E | MRW | Machine performance-monitoring event selector.``
    Mhpmevent14,
    /// ``0x32F | MRW | Machine performance-monitoring event selector.``
    Mhpmevent15,
    /// ``0x330 | MRW | Machine performance-monitoring event selector.``
    Mhpmevent16,
    /// ``0x331 | MRW | Machine performance-monitoring event selector.``
    Mhpmevent17,
    /// ``0x332 | MRW | Machine performance-monitoring event selector.``
    Mhpmevent18,
    /// ``0x333 | MRW | Machine performance-monitoring event selector.``
    Mhpmevent19,
    /// ``0x334 | MRW | Machine performance-monitoring event selector.``
    Mhpmevent20,
    /// ``0x335 | MRW | Machine performance-monitoring event selector.``
    Mhpmevent21,
    /// ``0x336 | MRW | Machine performance-monitoring event selector.``
    Mhpmevent22,
    /// ``0x337 | MRW | Machine performance-monitoring event selector.``
    Mhpmevent23,
    /// ``0x338 | MRW | Machine performance-monitoring event selector.``
    Mhpmevent24,
    /// ``0x339 | MRW | Machine performance-monitoring event selector.``
    Mhpmevent25,
    /// ``0x33A | MRW | Machine performance-monitoring event selector.``
    Mhpmevent26,
    /// ``0x33B | MRW | Machine performance-monitoring event selector.``
    Mhpmevent27,
    /// ``0x33C | MRW | Machine performance-monitoring event selector.``
    Mhpmevent28,
    /// ``0x33D | MRW | Machine performance-monitoring event selector.``
    Mhpmevent29,
    /// ``0x33E | MRW | Machine performance-monitoring event selector.``
    Mhpmevent30,
    /// ``0x33F | MRW | Machine performance-monitoring event selector.``
    Mhpmevent31,
    /// ``0x7A0 | MRW | Debug/Trace trigger register select.``
    Tselect,
    /// ``0x7A1 | MRW | First Debug/Trace trigger data register.``
    Tdata1,
    /// ``0x7A2 | MRW | Second Debug/Trace trigger data register.``
    Tdata2,
    /// ``0x7A3 | MRW | Third Debug/Trace trigger data register.``
    Tdata3,
    /// ``0x7A8 | MRW | Machine-mode context register.``
    Mcontext,
    /// ``0x7B0 | DRW | Debug control and status register.``
    Dcsr,
    /// ``0x7B1 | DRW | Debug PC.``
    Dpc,
    /// ``0x7B2 | DRW | Debug scratch register 0.``
    Dscratch0,
    /// ``0x7B3 | DRW | Debug scratch register 1.``
    Dscratch1,
}

impl Csr {
    /// The 12-bit address of this CSR, from the privileged specification.
    pub open spec fn address_spec(self) -> u32 {
        match self {
            Csr::Fflags => 0x001,
            Csr::Frm => 0x002,
            Csr::Fcsr => 0x003,
            Csr::Cycle => 0xC00,
            Csr::Time => 0xC01,
            Csr::Instret => 0xC02,
            Csr::Hpmcounter3 => 0xC03,
            Csr::Hpmcounter4 => 0xC04,
            Csr::Hpmcounter5 => 0xC05,
            Csr::Hpmcounter6 => 0xC06,
            Csr::Hpmcounter7 => 0xC07,
            Csr::Hpmcounter8 => 0xC08,
            Csr::Hpmcounter9 => 0xC09,
            Csr::Hpmcounter10 => 0xC0A,
            Csr::Hpmcounter11 => 0xC0B,
            Csr::Hpmcounter12 => 0xC0C,
            Csr::Hpmcounter13 => 0xC0D,
            Csr::Hpmcounter14 => 0xC0E,
            Csr::Hpmcounter15 => 0xC0F,
            Csr::Hpmcounter16 => 0xC10,
            Csr::Hpmcounter17 => 0xC11,
            Csr::Hpmcounter18 => 0xC12,
            Csr::Hpmcounter19 => 0xC13,
            Csr::Hpmcounter20 => 0xC14,
            Csr::Hpmcounter21 => 0xC15,
            Csr::Hpmcounter22 => 0xC16,
            Csr::Hpmcounter23 => 0xC17,
            Csr::Hpmcounter24 => 0xC18,
            Csr::Hpmcounter25 => 0xC19,
            Csr::Hpmcounter26 => 0xC1A,
            Csr::Hpmcounter27 => 0xC1B,
            Csr::Hpmcounter28 => 0xC1C,
            Csr::Hpmcounter29 => 0xC1D,
            Csr::Hpmcounter30 => 0xC1E,
            Csr::Hpmcounter31 => 0xC1F,
            Csr::Cycleh => 0xC80,
            Csr::Timeh => 0xC81,
            Csr::Instreth => 0xC82,
            Csr::Hpmcounter3h => 0xC83,
            Csr::Hpmcounter4h => 0xC84,
            Csr::Hpmcounter5h => 0xC85,
            Csr::Hpmcounter6h => 0xC86,
            Csr::Hpmcounter7h => 0xC87,
            Csr::Hpmcounter8h => 0xC88,
            Csr::Hpmcounter9h => 0xC89,
            Csr::Hpmcounter10h => 0xC8A,
            Csr::Hpmcounter11h => 0xC8B,
            Csr::Hpmcounter12h => 0xC8C,
            Csr::Hpmcounter13h => 0xC8D,
            Csr::Hpmcounter14h => 0xC8E,
            Csr::Hpmcounter15h => 0xC8F,
            Csr::Hpmcounter16h => 0xC90,
            Csr::Hpmcounter17h => 0xC91,
            Csr::Hpmcounter18h => 0xC92,
            Csr::Hpmcounter19h => 0xC93,
            Csr::Hpmcounter20h => 0xC94,
            Csr::Hpmcounter21h => 0xC95,
            Csr::Hpmcounter22h => 0xC96,
            Csr::Hpmcounter23h => 0xC97,
            Csr::Hpmcounter24h => 0xC98,
            Csr::Hpmcounter25h => 0xC99,
            Csr::Hpmcounter26h => 0xC9A,
            Csr::Hpmcounter27h => 0xC9B,
            Csr::Hpmcounter28h => 0xC9C,
            Csr::Hpmcounter29h => 0xC9D,
            Csr::Hpmcounter30h => 0xC9E,
            Csr::Hpmcounter31h => 0xC9F,
            Csr::Sstatus => 0x100,
            Csr::Ssie => 0x104,
            Csr::Stvec => 0x105,
            Csr::Scounteren => 0x106,
            Csr::Senvcfg => 0x10A,
            Csr::Sscratch => 0x140,
            Csr::Sepc => 0x141,
            Csr::Scause => 0x142,
            Csr::Stval => 0x143,
            Csr::Sip => 0x144,
            Csr::Satp => 0x180,
            Csr::Scontext => 0x5A8,
            Csr::Hstatus => 0x600,
            Csr::Hedeleg => 0x602,
            Csr::Hideleg => 0x603,
            Csr::Hie => 0x604,
            Csr::Hcounteren => 0x606,
            Csr::Hgeie => 0x607,
            Csr::Htval => 0x643,
            Csr::Hip => 0x644,
            Csr::Hvip => 0x645,
            Csr::Htinst => 0x64A,
            Csr::Hgeip => 0xE12,
            Csr::Henvcfg => 0x60A,
            Csr::Henvcfgh => 0x61A,
            Csr::Hcontext => 0x6A8,
            Csr::Htimedelta => 0x605,
            Csr::Htimedeltah => 0x615,
            Csr::Vsstatus => 0x200,
            Csr::Vsie => 0x204,
            Csr::Vstvec => 0x205,
            Csr::Vsscratch => 0x240,
            Csr::Vsepc => 0x241,
            Csr::Vscause => 0x242,
            Csr::Vstval => 0x243,
            Csr::Vsip => 0x244,
            Csr::Vsatp => 0x280,
            Csr::Mvendorid => 0xF11,
            Csr::Marchid => 0xF12,
            Csr::Mimpid => 0xF13,
            Csr::Mhartid => 0xF14,
            Csr::Mconfigptr => 0xF15,
            Csr::Mstatus => 0x300,
            Csr::Misa => 0x301,
            Csr::Medeleg => 0x302,
            Csr::Mideleg => 0x303,
            Csr::Mie => 0x304,
            Csr::Mtvec => 0x305,
            Csr::Mcounteren => 0x306,
            Csr::Mstatush => 0x310,
            Csr::Mscratch => 0x340,
            Csr::Mepc => 0x341,
            Csr::Mcause => 0x342,
            Csr::Mtval => 0x343,
            Csr::Mip => 0x344,
            Csr::Mtinst => 0x34A,
            Csr::Mtval2 => 0x34B,
            Csr::Menvcfg => 0x30A,
            Csr::Menvcfgh => 0x31A,
            Csr::Mseccfg => 0x747,
            Csr::Mseccfgh => 0x757,
            Csr::Pmpcfg0 => 0x3A0,
            Csr::Pmpcfg1 => 0x3A1,
            Csr::Pmpcfg2 => 0x3A2,
            Csr::Pmpcfg3 => 0x3A3,
            Csr::Pmpcfg4 => 0x3A4,
            Csr::Pmpcfg5 => 0x3A5,
            Csr::Pmpcfg6 => 0x3A6,
            Csr::Pmpcfg7 => 0x3A7,
            Csr::Pmpcfg08 => 0x3A8,
            Csr::Pmpcfg09 => 0x3A9,
            Csr::Pmpcfg10 => 0x3AA,
            Csr::Pmpcfg11 => 0x3AB,
            Csr::Pmpcfg12 => 0x3AC,
            Csr::Pmpcfg13 => 0x3AD,
            Csr::Pmpcfg14 => 0x3AE,
            Csr::Pmpcfg15 => 0x3AF,
            Csr::Pmpaddr0 => 0x3B0,
            Csr::Pmpaddr1 => 0x3B1,
            Csr::Pmpaddr2 => 0x3B2,
            Csr::Pmpaddr3 => 0x3B3,
            Csr::Pmpaddr4 => 0x3B4,
            Csr::Pmpaddr5 => 0x3B5,
            Csr::Pmpaddr6 => 0x3B6,
            Csr::Pmpaddr7 => 0x3B7,
            Csr::Pmpaddr8 => 0x3B8,
            Csr::Pmpaddr9 => 0x3B9,
            Csr::Pmpaddr10 => 0x3BA,
            Csr::Pmpaddr11 => 0x3BB,
            Csr::Pmpaddr12 => 0x3BC,
            Csr::Pmpaddr13 => 0x3BD,
            Csr::Pmpaddr14 => 0x3BE,
            Csr::Pmpaddr15 => 0x3BF,
            Csr::Pmpaddr16 => 0x3C0,
            Csr::Pmpaddr17 => 0x3C1,
            Csr::Pmpaddr18 => 0x3C2,
            Csr::Pmpaddr19 => 0x3C3,
            Csr::Pmpaddr20 => 0x3C4,
            Csr::Pmpaddr21 => 0x3C5,
            Csr::Pmpaddr22 => 0x3C6,
            Csr::Pmpaddr23 => 0x3C7,
            Csr::Pmpaddr24 => 0x3C8,
            Csr::Pmpaddr25 => 0x3C9,
            Csr::Pmpaddr26 => 0x3CA,
            Csr::Pmpaddr27 => 0x3CB,
            Csr::Pmpaddr28 => 0x3CC,
            Csr::Pmpaddr29 => 0x3CD,
            Csr::Pmpaddr30 => 0x3CE,
            Csr::Pmpaddr31 => 0x3CF,
            Csr::Pmpaddr32 => 0x3D0,
            Csr::Pmpaddr33 => 0x3D1,
            Csr::Pmpaddr34 => 0x3D2,
            Csr::Pmpaddr35 => 0x3D3,
            Csr::Pmpaddr36 => 0x3D4,
            Csr::Pmpaddr37 => 0x3D5,
            Csr::Pmpaddr38 => 0x3D6,
            Csr::Pmpaddr39 => 0x3D7,
            Csr::Pmpaddr40 => 0x3D8,
            Csr::Pmpaddr41 => 0x3D9,
            Csr::Pmpaddr42 => 0x3DA,
            Csr::Pmpaddr43 => 0x3DB,
            Csr::Pmpaddr44 => 0x3DC,
            Csr::Pmpaddr45 => 0x3DD,
            Csr::Pmpaddr46 => 0x3DE,
            Csr::Pmpaddr47 => 0x3DF,
            Csr::Pmpaddr48 => 0x3E0,
            Csr::Pmpaddr49 => 0x3E1,
            Csr::Pmpaddr50 => 0x3E2,
            Csr::Pmpaddr51 => 0x3E3,
            Csr::Pmpaddr52 => 0x3E4,
            Csr::Pmpaddr53 => 0x3E5,
            Csr::Pmpaddr54 => 0x3E6,
            Csr::Pmpaddr55 => 0x3E7,
            Csr::Pmpaddr56 => 0x3E8,
            Csr::Pmpaddr57 => 0x3E9,
            Csr::Pmpaddr58 => 0x3EA,
            Csr::Pmpaddr59 => 0x3EB,
            Csr::Pmpaddr60 => 0x3EC,
            Csr::Pmpaddr61 => 0x3ED,
            Csr::Pmpaddr62 => 0x3EE,
            Csr::Pmpaddr63 => 0x3EF,
            Csr::Mcycle => 0xB00,
            Csr::Minstret => 0xB02,
            Csr::Mhpmcounter3 => 0xB03,
            Csr::Mhpmcounter4 => 0xB04,
            Csr::Mhpmcounter5 => 0xB05,
            Csr::Mhpmcounter6 => 0xB06,
            Csr::Mhpmcounter7 => 0xB07,
            Csr::Mhpmcounter8 => 0xB08,
            Csr::Mhpmcounter9 => 0xB09,
            Csr::Mhpmcounter10 => 0xB0A,
            Csr::Mhpmcounter11 => 0xB0B,
            Csr::Mhpmcounter12 => 0xB0C,
            Csr::Mhpmcounter13 => 0xB0D,
            Csr::Mhpmcounter14 => 0xB0E,
            Csr::Mhpmcounter15 => 0xB0F,
            Csr::Mhpmcounter16 => 0xB10,
            Csr::Mhpmcounter17 => 0xB11,
            Csr::Mhpmcounter18 => 0xB12,
            Csr::Mhpmcounter19 => 0xB13,
            Csr::Mhpmcounter20 => 0xB14,
            Csr::Mhpmcounter21 => 0xB15,
            Csr::Mhpmcounter22 => 0xB16,
            Csr::Mhpmcounter23 => 0xB17,
            Csr::Mhpmcounter24 => 0xB18,
            Csr::Mhpmcounter25 => 0xB19,
            Csr::Mhpmcounter26 => 0xB1A,
            Csr::Mhpmcounter27 => 0xB1B,
            Csr::Mhpmcounter28 => 0xB1C,
            Csr::Mhpmcounter29 => 0xB1D,
            Csr::Mhpmcounter30 => 0xB1E,
            Csr::Mhpmcounter31 => 0xB1F,
            Csr::Mcycleh => 0xB80,
            Csr::Minstreth => 0xB82,
            Csr::Mhpmcounter3h => 0xB83,
            Csr::Mhpmcounter4h => 0xB84,
            Csr::Mhpmcounter5h => 0xB85,
            Csr::Mhpmcounter6h => 0xB86,
            Csr::Mhpmcounter7h => 0xB87,
            Csr::Mhpmcounter8h => 0xB88,
            Csr::Mhpmcounter9h => 0xB89,
            Csr::Mhpmcounter10h => 0xB8A,
            Csr::Mhpmcounter11h => 0xB8B,
            Csr::Mhpmcounter12h => 0xB8C,
            Csr::Mhpmcounter13h => 0xB8D,
            Csr::Mhpmcounter14h => 0xB8E,
            Csr::Mhpmcounter15h => 0xB8F,
            Csr::Mhpmcounter16h => 0xB90,
            Csr::Mhpmcounter17h => 0xB91,
            Csr::Mhpmcounter18h => 0xB92,
            Csr::Mhpmcounter19h => 0xB93,
            Csr::Mhpmcounter20h => 0xB94,
            Csr::Mhpmcounter21h => 0xB95,
            Csr::Mhpmcounter22h => 0xB96,
            Csr::Mhpmcounter23h => 0xB97,
            Csr::Mhpmcounter24h => 0xB98,
            Csr::Mhpmcounter25h => 0xB99,
            Csr::Mhpmcounter26h => 0xB9A,
            Csr::Mhpmcounter27h => 0xB9B,
            Csr::Mhpmcounter28h => 0xB9C,
            Csr::Mhpmcounter29h => 0xB9D,
            Csr::Mhpmcounter30h => 0xB9E,
            Csr::Mhpmcounter31h => 0xB9F,
            Csr::Mcountinhibit => 0x320,
            Csr::Mhpmevent3 => 0x323,
            Csr::Mhpmevent4 => 0x324,
            Csr::Mhpmevent5 => 0x325,
            Csr::Mhpmevent6 => 0x326,
            Csr::Mhpmevent7 => 0x327,
            Csr::Mhpmevent8 => 0x328,
            Csr::Mhpmevent9 => 0x329,
            Csr::Mhpmevent10 => 0x32A,
            Csr::Mhpmevent11 => 0x32B,
            Csr::Mhpmevent12 => 0x32C,
            Csr::Mhpmevent13 => 0x32D,
            Csr::Mhpmevent14 => 0x32E,
            Csr::Mhpmevent15 => 0x32F,
            Csr::Mhpmevent16 => 0x330,
            Csr::Mhpmevent17 => 0x331,
            Csr::Mhpmevent18 => 0x332,
            Csr::Mhpmevent19 => 0x333,
            Csr::Mhpmevent20 => 0x334,
            Csr::Mhpmevent21 => 0x335,
            Csr::Mhpmevent22 => 0x336,
            Csr::Mhpmevent23 => 0x337,
            Csr::Mhpmevent24 => 0x338,
            Csr::Mhpmevent25 => 0x339,
            Csr::Mhpmevent26 => 0x33A,
            Csr::Mhpmevent27 => 0x33B,
            Csr::Mhpmevent28 => 0x33C,
            Csr::Mhpmevent29 => 0x33D,
            Csr::Mhpmevent30 => 0x33E,
            Csr::Mhpmevent31 => 0x33F,
            Csr::Tselect => 0x7A0,
            Csr::Tdata1 => 0x7A1,
            Csr::Tdata2 => 0x7A2,
            Csr::Tdata3 => 0x7A3,
            Csr::Mcontext => 0x7A8,
            Csr::Dcsr => 0x7B0,
            Csr::Dpc => 0x7B1,
            Csr::Dscratch0 => 0x7B2,
            Csr::Dscratch1 => 0x7B3,
        }
    }

    /// The CSR enumerated at a given address, if the table holds one.
    pub open spec fn spec_from_address(r: u32) -> Option<Csr> {
        match r {
            0x001 => Some(Csr::Fflags),
            0x002 => Some(Csr::Frm),
            0x003 => Some(Csr::Fcsr),
            0xC00 => Some(Csr::Cycle),
            0xC01 => Some(Csr::Time),
            0xC02 => Some(Csr::Instret),
            0xC03 => Some(Csr::Hpmcounter3),
            0xC04 => Some(Csr::Hpmcounter4),
            0xC05 => Some(Csr::Hpmcounter5),
            0xC06 => Some(Csr::Hpmcounter6),
            0xC07 => Some(Csr::Hpmcounter7),
            0xC08 => Some(Csr::Hpmcounter8),
            0xC09 => Some(Csr::Hpmcounter9),
            0xC0A => Some(Csr::Hpmcounter10),
            0xC0B => Some(Csr::Hpmcounter11),
            0xC0C => Some(Csr::Hpmcounter12),
            0xC0D => Some(Csr::Hpmcounter13),
            0xC0E => Some(Csr::Hpmcounter14),
            0xC0F => Some(Csr::Hpmcounter15),
            0xC10 => Some(Csr::Hpmcounter16),
            0xC11 => Some(Csr::Hpmcounter17),
            0xC12 => Some(Csr::Hpmcounter18),
            0xC13 => Some(Csr::Hpmcounter19),
            0xC14 => Some(Csr::Hpmcounter20),
            0xC15 => Some(Csr::Hpmcounter21),
            0xC16 => Some(Csr::Hpmcounter22),
            0xC17 => Some(Csr::Hpmcounter23),
            0xC18 => Some(Csr::Hpmcounter24),
            0xC19 => Some(Csr::Hpmcounter25),
            0xC1A => Some(Csr::Hpmcounter26),
            0xC1B => Some(Csr::Hpmcounter27),
            0xC1C => Some(Csr::Hpmcounter28),
            0xC1D => Some(Csr::Hpmcounter29),
            0xC1E => Some(Csr::Hpmcounter30),
            0xC1F => Some(Csr::Hpmcounter31),
            0xC80 => Some(Csr::Cycleh),
            0xC81 => Some(Csr::Timeh),
            0xC82 => Some(Csr::Instreth),
            0xC83 => Some(Csr::Hpmcounter3h),
            0xC84 => Some(Csr::Hpmcounter4h),
            0xC85 => Some(Csr::Hpmcounter5h),
            0xC86 => Some(Csr::Hpmcounter6h),
            0xC87 => Some(Csr::Hpmcounter7h),
            0xC88 => Some(Csr::Hpmcounter8h),
            0xC89 => Some(Csr::Hpmcounter9h),
            0xC8A => Some(Csr::Hpmcounter10h),
            0xC8B => Some(Csr::Hpmcounter11h),
            0xC8C => Some(Csr::Hpmcounter12h),
            0xC8D => Some(Csr::Hpmcounter13h),
            0xC8E => Some(Csr::Hpmcounter14h),
            0xC8F => Some(Csr::Hpmcounter15h),
            0xC90 => Some(Csr::Hpmcounter16h),
            0xC91 => Some(Csr::Hpmcounter17h),
            0xC92 => Some(Csr::Hpmcounter18h),
            0xC93 => Some(Csr::Hpmcounter19h),
            0xC94 => Some(Csr::Hpmcounter20h),
            0xC95 => Some(Csr::Hpmcounter21h),
            0xC96 => Some(Csr::Hpmcounter22h),
            0xC97 => Some(Csr::Hpmcounter23h),
            0xC98 => Some(Csr::Hpmcounter24h),
            0xC99 => Some(Csr::Hpmcounter25h),
            0xC9A => Some(Csr::Hpmcounter26h),
            0xC9B => Some(Csr::Hpmcounter27h),
            0xC9C => Some(Csr::Hpmcounter28h),
            0xC9D => Some(Csr::Hpmcounter29h),
            0xC9E => Some(Csr::Hpmcounter30h),
            0xC9F => Some(Csr::Hpmcounter31h),
            0x100 => Some(Csr::Sstatus),
            0x104 => Some(Csr::Ssie),
            0x105 => Some(Csr::Stvec),
            0x106 => Some(Csr::Scounteren),
            0x10A => Some(Csr::Senvcfg),
            0x140 => Some(Csr::Sscratch),
            0x141 => Some(Csr::Sepc),
            0x142 => Some(Csr::Scause),
            0x143 => Some(Csr::Stval),
            0x144 => Some(Csr::Sip),
            0x180 => Some(Csr::Satp),
            0x5A8 => Some(Csr::Scontext),
            0x600 => Some(Csr::Hstatus),
            0x602 => Some(Csr::Hedeleg),
            0x603 => Some(Csr::Hideleg),
            0x604 => Some(Csr::Hie),
            0x606 => Some(Csr::Hcounteren),
            0x607 => Some(Csr::Hgeie),
            0x643 => Some(Csr::Htval),
            0x644 => Some(Csr::Hip),
            0x645 => Some(Csr::Hvip),
            0x64A => Some(Csr::Htinst),
            0xE12 => Some(Csr::Hgeip),
            0x60A => Some(Csr::Henvcfg),
            0x61A => Some(Csr::Henvcfgh),
            0x6A8 => Some(Csr::Hcontext),
            0x605 => Some(Csr::Htimedelta),
            0x615 => Some(Csr::Htimedeltah),
            0x200 => Some(Csr::Vsstatus),
            0x204 => Some(Csr::Vsie),
            0x205 => Some(Csr::Vstvec),
            0x240 => Some(Csr::Vsscratch),
            0x241 => Some(Csr::Vsepc),
            0x242 => Some(Csr::Vscause),
            0x243 => Some(Csr::Vstval),
            0x244 => Some(Csr::Vsip),
            0x280 => Some(Csr::Vsatp),
            0xF11 => Some(Csr::Mvendorid),
            0xF12 => Some(Csr::Marchid),
            0xF13 => Some(Csr::Mimpid),
            0xF14 => Some(Csr::Mhartid),
            0xF15 => Some(Csr::Mconfigptr),
            0x300 => Some(Csr::Mstatus),
            0x301 => Some(Csr::Misa),
            0x302 => Some(Csr::Medeleg),
            0x303 => Some(Csr::Mideleg),
            0x304 => Some(Csr::Mie),
            0x305 => Some(Csr::Mtvec),
            0x306 => Some(Csr::Mcounteren),
            0x310 => Some(Csr::Mstatush),
            0x340 => Some(Csr::Mscratch),
            0x341 => Some(Csr::Mepc),
            0x342 => Some(Csr::Mcause),
            0x343 => Some(Csr::Mtval),
            0x344 => Some(Csr::Mip),
            0x34A => Some(Csr::Mtinst),
            0x34B => Some(Csr::Mtval2),
            0x30A => Some(Csr::Menvcfg),
            0x31A => Some(Csr::Menvcfgh),
            0x747 => Some(Csr::Mseccfg),
            0x757 => Some(Csr::Mseccfgh),
            0x3A0 => Some(Csr::Pmpcfg0),
            0x3A1 => Some(Csr::Pmpcfg1),
            0x3A2 => Some(Csr::Pmpcfg2),
            0x3A3 => Some(Csr::Pmpcfg3),
            0x3A4 => Some(Csr::Pmpcfg4),
            0x3A5 => Some(Csr::Pmpcfg5),
            0x3A6 => Some(Csr::Pmpcfg6),
            0x3A7 => Some(Csr::Pmpcfg7),
            0x3A8 => Some(Csr::Pmpcfg08),
            0x3A9 => Some(Csr::Pmpcfg09),
            0x3AA => Some(Csr::Pmpcfg10),
            0x3AB => Some(Csr::Pmpcfg11),
            0x3AC => Some(Csr::Pmpcfg12),
            0x3AD => Some(Csr::Pmpcfg13),
            0x3AE => Some(Csr::Pmpcfg14),
            0x3AF => Some(Csr::Pmpcfg15),
            0x3B0 => Some(Csr::Pmpaddr0),
            0x3B1 => Some(Csr::Pmpaddr1),
            0x3B2 => Some(Csr::Pmpaddr2),
            0x3B3 => Some(Csr::Pmpaddr3),
            0x3B4 => Some(Csr::Pmpaddr4),
            0x3B5 => Some(Csr::Pmpaddr5),
            0x3B6 => Some(Csr::Pmpaddr6),
            0x3B7 => Some(Csr::Pmpaddr7),
            0x3B8 => Some(Csr::Pmpaddr8),
            0x3B9 => Some(Csr::Pmpaddr9),
            0x3BA => Some(Csr::Pmpaddr10),
            0x3BB => Some(Csr::Pmpaddr11),
            0x3BC => Some(Csr::Pmpaddr12),
            0x3BD => Some(Csr::Pmpaddr13),
            0x3BE => Some(Csr::Pmpaddr14),
            0x3BF => Some(Csr::Pmpaddr15),
            0x3C0 => Some(Csr::Pmpaddr16),
            0x3C1 => Some(Csr::Pmpaddr17),
            0x3C2 => Some(Csr::Pmpaddr18),
            0x3C3 => Some(Csr::Pmpaddr19),
            0x3C4 => Some(Csr::Pmpaddr20),
            0x3C5 => Some(Csr::Pmpaddr21),
            0x3C6 => Some(Csr::Pmpaddr22),
            0x3C7 => Some(Csr::Pmpaddr23),
            0x3C8 => Some(Csr::Pmpaddr24),
            0x3C9 => Some(Csr::Pmpaddr25),
            0x3CA => Some(Csr::Pmpaddr26),
            0x3CB => Some(Csr::Pmpaddr27),
            0x3CC => Some(Csr::Pmpaddr28),
            0x3CD => Some(Csr::Pmpaddr29),
            0x3CE => Some(Csr::Pmpaddr30),
            0x3CF => Some(Csr::Pmpaddr31),
            0x3D0 => Some(Csr::Pmpaddr32),
            0x3D1 => Some(Csr::Pmpaddr33),
            0x3D2 => Some(Csr::Pmpaddr34),
            0x3D3 => Some(Csr::Pmpaddr35),
            0x3D4 => Some(Csr::Pmpaddr36),
            0x3D5 => Some(Csr::Pmpaddr37),
            0x3D6 => Some(Csr::Pmpaddr38),
            0x3D7 => Some(Csr::Pmpaddr39),
            0x3D8 => Some(Csr::Pmpaddr40),
            0x3D9 => Some(Csr::Pmpaddr41),
            0x3DA => Some(Csr::Pmpaddr42),
            0x3DB => Some(Csr::Pmpaddr43),
            0x3DC => Some(Csr::Pmpaddr44),
            0x3DD => Some(Csr::Pmpaddr45),
            0x3DE => Some(Csr::Pmpaddr46),
            0x3DF => Some(Csr::Pmpaddr47),
            0x3E0 => Some(Csr::Pmpaddr48),
            0x3E1 => Some(Csr::Pmpaddr49),
            0x3E2 => Some(Csr::Pmpaddr50),
            0x3E3 => Some(Csr::Pmpaddr51),
            0x3E4 => Some(Csr::Pmpaddr52),
            0x3E5 => Some(Csr::Pmpaddr53),
            0x3E6 => Some(Csr::Pmpaddr54),
            0x3E7 => Some(Csr::Pmpaddr55),
            0x3E8 => Some(Csr::Pmpaddr56),
            0x3E9 => Some(Csr::Pmpaddr57),
            0x3EA => Some(Csr::Pmpaddr58),
            0x3EB => Some(Csr::Pmpaddr59),
            0x3EC => Some(Csr::Pmpaddr60),
            0x3ED => Some(Csr::Pmpaddr61),
            0x3EE => Some(Csr::Pmpaddr62),
            0x3EF => Some(Csr::Pmpaddr63),
            0xB00 => Some(Csr::Mcycle),
            0xB02 => Some(Csr::Minstret),
            0xB03 => Some(Csr::Mhpmcounter3),
            0xB04 => Some(Csr::Mhpmcounter4),
            0xB05 => Some(Csr::Mhpmcounter5),
            0xB06 => Some(Csr::Mhpmcounter6),
            0xB07 => Some(Csr::Mhpmcounter7),
            0xB08 => Some(Csr::Mhpmcounter8),
            0xB09 => Some(Csr::Mhpmcounter9),
            0xB0A => Some(Csr::Mhpmcounter10),
            0xB0B => Some(Csr::Mhpmcounter11),
            0xB0C => Some(Csr::Mhpmcounter12),
            0xB0D => Some(Csr::Mhpmcounter13),
            0xB0E => Some(Csr::Mhpmcounter14),
            0xB0F => Some(Csr::Mhpmcounter15),
            0xB10 => Some(Csr::Mhpmcounter16),
            0xB11 => Some(Csr::Mhpmcounter17),
            0xB12 => Some(Csr::Mhpmcounter18),
            0xB13 => Some(Csr::Mhpmcounter19),
            0xB14 => Some(Csr::Mhpmcounter20),
            0xB15 => Some(Csr::Mhpmcounter21),
            0xB16 => Some(Csr::Mhpmcounter22),
            0xB17 => Some(Csr::Mhpmcounter23),
            0xB18 => Some(Csr::Mhpmcounter24),
            0xB19 => Some(Csr::Mhpmcounter25),
            0xB1A => Some(Csr::Mhpmcounter26),
            0xB1B => Some(Csr::Mhpmcounter27),
            0xB1C => Some(Csr::Mhpmcounter28),
            0xB1D => Some(Csr::Mhpmcounter29),
            0xB1E => Some(Csr::Mhpmcounter30),
            0xB1F => Some(Csr::Mhpmcounter31),
            0xB80 => Some(Csr::Mcycleh),
            0xB82 => Some(Csr::Minstreth),
            0xB83 => Some(Csr::Mhpmcounter3h),
            0xB84 => Some(Csr::Mhpmcounter4h),
            0xB85 => Some(Csr::Mhpmcounter5h),
            0xB86 => Some(Csr::Mhpmcounter6h),
            0xB87 => Some(Csr::Mhpmcounter7h),
            0xB88 => Some(Csr::Mhpmcounter8h),
            0xB89 => Some(Csr::Mhpmcounter9h),
            0xB8A => Some(Csr::Mhpmcounter10h),
            0xB8B => Some(Csr::Mhpmcounter11h),
            0xB8C => Some(Csr::Mhpmcounter12h),
            0xB8D => Some(Csr::Mhpmcounter13h),
            0xB8E => Some(Csr::Mhpmcounter14h),
            0xB8F => Some(Csr::Mhpmcounter15h),
            0xB90 => Some(Csr::Mhpmcounter16h),
            0xB91 => Some(Csr::Mhpmcounter17h),
            0xB92 => Some(Csr::Mhpmcounter18h),
            0xB93 => Some(Csr::Mhpmcounter19h),
            0xB94 => Some(Csr::Mhpmcounter20h),
            0xB95 => Some(Csr::Mhpmcounter21h),
            0xB96 => Some(Csr::Mhpmcounter22h),
            0xB97 => Some(Csr::Mhpmcounter23h),
            0xB98 => Some(Csr::Mhpmcounter24h),
            0xB99 => Some(Csr::Mhpmcounter25h),
            0xB9A => Some(Csr::Mhpmcounter26h),
            0xB9B => Some(Csr::Mhpmcounter27h),
            0xB9C => Some(Csr::Mhpmcounter28h),
            0xB9D => Some(Csr::Mhpmcounter29h),
            0xB9E => Some(Csr::Mhpmcounter30h),
            0xB9F => Some(Csr::Mhpmcounter31h),
            0x320 => Some(Csr::Mcountinhibit),
            0x323 => Some(Csr::Mhpmevent3),
            0x324 => Some(Csr::Mhpmevent4),
            0x325 => Some(Csr::Mhpmevent5),
            0x326 => Some(Csr::Mhpmevent6),
            0x327 => Some(Csr::Mhpmevent7),
            0x328 => Some(Csr::Mhpmevent8),
            0x329 => Some(Csr::Mhpmevent9),
            0x32A => Some(Csr::Mhpmevent10),
            0x32B => Some(Csr::Mhpmevent11),
            0x32C => Some(Csr::Mhpmevent12),
            0x32D => Some(Csr::Mhpmevent13),
            0x32E => Some(Csr::Mhpmevent14),
            0x32F => Some(Csr::Mhpmevent15),
            0x330 => Some(Csr::Mhpmevent16),
            0x331 => Some(Csr::Mhpmevent17),
            0x332 => Some(Csr::Mhpmevent18),
            0x333 => Some(Csr::Mhpmevent19),
            0x334 => Some(Csr::Mhpmevent20),
            0x335 => Some(Csr::Mhpmevent21),
            0x336 => Some(Csr::Mhpmevent22),
            0x337 => Some(Csr::Mhpmevent23),
            0x338 => Some(Csr::Mhpmevent24),
            0x339 => Some(Csr::Mhpmevent25),
            0x33A => Some(Csr::Mhpmevent26),
            0x33B => Some(Csr::Mhpmevent27),
            0x33C => Some(Csr::Mhpmevent28),
            0x33D => Some(Csr::Mhpmevent29),
            0x33E => Some(Csr::Mhpmevent30),
            0x33F => Some(Csr::Mhpmevent31),
            0x7A0 => Some(Csr::Tselect),
            0x7A1 => Some(Csr::Tdata1),
            0x7A2 => Some(Csr::Tdata2),
            0x7A3 => Some(Csr::Tdata3),
            0x7A8 => Some(Csr::Mcontext),
            0x7B0 => Some(Csr::Dcsr),
            0x7B1 => Some(Csr::Dpc),
            0x7B2 => Some(Csr::Dscratch0),
            0x7B3 => Some(Csr::Dscratch1),
            _ => None,
        }
    }

    /// The exact inverse of `checked_from_u32`.
    pub fn address_of(&self) -> (a: u32)
        ensures
            a == self.address_spec(),
    {
        match self {
            Csr::Fflags => 0x001,
            Csr::Frm => 0x002,
            Csr::Fcsr => 0x003,
            Csr::Cycle => 0xC00,
            Csr::Time => 0xC01,
            Csr::Instret => 0xC02,
            Csr::Hpmcounter3 => 0xC03,
            Csr::Hpmcounter4 => 0xC04,
            Csr::Hpmcounter5 => 0xC05,
            Csr::Hpmcounter6 => 0xC06,
            Csr::Hpmcounter7 => 0xC07,
            Csr::Hpmcounter8 => 0xC08,
            Csr::Hpmcounter9 => 0xC09,
            Csr::Hpmcounter10 => 0xC0A,
            Csr::Hpmcounter11 => 0xC0B,
            Csr::Hpmcounter12 => 0xC0C,
            Csr::Hpmcounter13 => 0xC0D,
            Csr::Hpmcounter14 => 0xC0E,
            Csr::Hpmcounter15 => 0xC0F,
            Csr::Hpmcounter16 => 0xC10,
            Csr::Hpmcounter17 => 0xC11,
            Csr::Hpmcounter18 => 0xC12,
            Csr::Hpmcounter19 => 0xC13,
            Csr::Hpmcounter20 => 0xC14,
            Csr::Hpmcounter21 => 0xC15,
            Csr::Hpmcounter22 => 0xC16,
            Csr::Hpmcounter23 => 0xC17,
            Csr::Hpmcounter24 => 0xC18,
            Csr::Hpmcounter25 => 0xC19,
            Csr::Hpmcounter26 => 0xC1A,
            Csr::Hpmcounter27 => 0xC1B,
            Csr::Hpmcounter28 => 0xC1C,
            Csr::Hpmcounter29 => 0xC1D,
            Csr::Hpmcounter30 => 0xC1E,
            Csr::Hpmcounter31 => 0xC1F,
            Csr::Cycleh => 0xC80,
            Csr::Timeh => 0xC81,
            Csr::Instreth => 0xC82,
            Csr::Hpmcounter3h => 0xC83,
            Csr::Hpmcounter4h => 0xC84,
            Csr::Hpmcounter5h => 0xC85,
            Csr::Hpmcounter6h => 0xC86,
            Csr::Hpmcounter7h => 0xC87,
            Csr::Hpmcounter8h => 0xC88,
            Csr::Hpmcounter9h => 0xC89,
            Csr::Hpmcounter10h => 0xC8A,
            Csr::Hpmcounter11h => 0xC8B,
            Csr::Hpmcounter12h => 0xC8C,
            Csr::Hpmcounter13h => 0xC8D,
            Csr::Hpmcounter14h => 0xC8E,
            Csr::Hpmcounter15h => 0xC8F,
            Csr::Hpmcounter16h => 0xC90,
            Csr::Hpmcounter17h => 0xC91,
            Csr::Hpmcounter18h => 0xC92,
            Csr::Hpmcounter19h => 0xC93,
            Csr::Hpmcounter20h => 0xC94,
            Csr::Hpmcounter21h => 0xC95,
            Csr::Hpmcounter22h => 0xC96,
            Csr::Hpmcounter23h => 0xC97,
            Csr::Hpmcounter24h => 0xC98,
            Csr::Hpmcounter25h => 0xC99,
            Csr::Hpmcounter26h => 0xC9A,
            Csr::Hpmcounter27h => 0xC9B,
            Csr::Hpmcounter28h => 0xC9C,
            Csr::Hpmcounter29h => 0xC9D,
            Csr::Hpmcounter30h => 0xC9E,
            Csr::Hpmcounter31h => 0xC9F,
            Csr::Sstatus => 0x100,
            Csr::Ssie => 0x104,
            Csr::Stvec => 0x105,
            Csr::Scounteren => 0x106,
            Csr::Senvcfg => 0x10A,
            Csr::Sscratch => 0x140,
            Csr::Sepc => 0x141,
            Csr::Scause => 0x142,
            Csr::Stval => 0x143,
            Csr::Sip => 0x144,
            Csr::Satp => 0x180,
            Csr::Scontext => 0x5A8,
            Csr::Hstatus => 0x600,
            Csr::Hedeleg => 0x602,
            Csr::Hideleg => 0x603,
            Csr::Hie => 0x604,
            Csr::Hcounteren => 0x606,
            Csr::Hgeie => 0x607,
            Csr::Htval => 0x643,
            Csr::Hip => 0x644,
            Csr::Hvip => 0x645,
            Csr::Htinst => 0x64A,
            Csr::Hgeip => 0xE12,
            Csr::Henvcfg => 0x60A,
            Csr::Henvcfgh => 0x61A,
            Csr::Hcontext => 0x6A8,
            Csr::Htimedelta => 0x605,
            Csr::Htimedeltah => 0x615,
            Csr::Vsstatus => 0x200,
            Csr::Vsie => 0x204,
            Csr::Vstvec => 0x205,
            Csr::Vsscratch => 0x240,
            Csr::Vsepc => 0x241,
            Csr::Vscause => 0x242,
            Csr::Vstval => 0x243,
            Csr::Vsip => 0x244,
            Csr::Vsatp => 0x280,
            Csr::Mvendorid => 0xF11,
            Csr::Marchid => 0xF12,
            Csr::Mimpid => 0xF13,
            Csr::Mhartid => 0xF14,
            Csr::Mconfigptr => 0xF15,
            Csr::Mstatus => 0x300,
            Csr::Misa => 0x301,
            Csr::Medeleg => 0x302,
            Csr::Mideleg => 0x303,
            Csr::Mie => 0x304,
            Csr::Mtvec => 0x305,
            Csr::Mcounteren => 0x306,
            Csr::Mstatush => 0x310,
            Csr::Mscratch => 0x340,
            Csr::Mepc => 0x341,
            Csr::Mcause => 0x342,
            Csr::Mtval => 0x343,
            Csr::Mip => 0x344,
            Csr::Mtinst => 0x34A,
            Csr::Mtval2 => 0x34B,
            Csr::Menvcfg => 0x30A,
            Csr::Menvcfgh => 0x31A,
            Csr::Mseccfg => 0x747,
            Csr::Mseccfgh => 0x757,
            Csr::Pmpcfg0 => 0x3A0,
            Csr::Pmpcfg1 => 0x3A1,
            Csr::Pmpcfg2 => 0x3A2,
            Csr::Pmpcfg3 => 0x3A3,
            Csr::Pmpcfg4 => 0x3A4,
            Csr::Pmpcfg5 => 0x3A5,
            Csr::Pmpcfg6 => 0x3A6,
            Csr::Pmpcfg7 => 0x3A7,
            Csr::Pmpcfg08 => 0x3A8,
            Csr::Pmpcfg09 => 0x3A9,
            Csr::Pmpcfg10 => 0x3AA,
            Csr::Pmpcfg11 => 0x3AB,
            Csr::Pmpcfg12 => 0x3AC,
            Csr::Pmpcfg13 => 0x3AD,
            Csr::Pmpcfg14 => 0x3AE,
            Csr::Pmpcfg15 => 0x3AF,
            Csr::Pmpaddr0 => 0x3B0,
            Csr::Pmpaddr1 => 0x3B1,
            Csr::Pmpaddr2 => 0x3B2,
            Csr::Pmpaddr3 => 0x3B3,
            Csr::Pmpaddr4 => 0x3B4,
            Csr::Pmpaddr5 => 0x3B5,
            Csr::Pmpaddr6 => 0x3B6,
            Csr::Pmpaddr7 => 0x3B7,
            Csr::Pmpaddr8 => 0x3B8,
            Csr::Pmpaddr9 => 0x3B9,
            Csr::Pmpaddr10 => 0x3BA,
            Csr::Pmpaddr11 => 0x3BB,
            Csr::Pmpaddr12 => 0x3BC,
            Csr::Pmpaddr13 => 0x3BD,
            Csr::Pmpaddr14 => 0x3BE,
            Csr::Pmpaddr15 => 0x3BF,
            Csr::Pmpaddr16 => 0x3C0,
            Csr::Pmpaddr17 => 0x3C1,
            Csr::Pmpaddr18 => 0x3C2,
            Csr::Pmpaddr19 => 0x3C3,
            Csr::Pmpaddr20 => 0x3C4,
            Csr::Pmpaddr21 => 0x3C5,
            Csr::Pmpaddr22 => 0x3C6,
            Csr::Pmpaddr23 => 0x3C7,
            Csr::Pmpaddr24 => 0x3C8,
            Csr::Pmpaddr25 => 0x3C9,
            Csr::Pmpaddr26 => 0x3CA,
            Csr::Pmpaddr27 => 0x3CB,
            Csr::Pmpaddr28 => 0x3CC,
            Csr::Pmpaddr29 => 0x3CD,
            Csr::Pmpaddr30 => 0x3CE,
            Csr::Pmpaddr31 => 0x3CF,
            Csr::Pmpaddr32 => 0x3D0,
            Csr::Pmpaddr33 => 0x3D1,
            Csr::Pmpaddr34 => 0x3D2,
            Csr::Pmpaddr35 => 0x3D3,
            Csr::Pmpaddr36 => 0x3D4,
            Csr::Pmpaddr37 => 0x3D5,
            Csr::Pmpaddr38 => 0x3D6,
            Csr::Pmpaddr39 => 0x3D7,
            Csr::Pmpaddr40 => 0x3D8,
            Csr::Pmpaddr41 => 0x3D9,
            Csr::Pmpaddr42 => 0x3DA,
            Csr::Pmpaddr43 => 0x3DB,
            Csr::Pmpaddr44 => 0x3DC,
            Csr::Pmpaddr45 => 0x3DD,
            Csr::Pmpaddr46 => 0x3DE,
            Csr::Pmpaddr47 => 0x3DF,
            Csr::Pmpaddr48 => 0x3E0,
            Csr::Pmpaddr49 => 0x3E1,
            Csr::Pmpaddr50 => 0x3E2,
            Csr::Pmpaddr51 => 0x3E3,
            Csr::Pmpaddr52 => 0x3E4,
            Csr::Pmpaddr53 => 0x3E5,
            Csr::Pmpaddr54 => 0x3E6,
            Csr::Pmpaddr55 => 0x3E7,
            Csr::Pmpaddr56 => 0x3E8,
            Csr::Pmpaddr57 => 0x3E9,
            Csr::Pmpaddr58 => 0x3EA,
            Csr::Pmpaddr59 => 0x3EB,
            Csr::Pmpaddr60 => 0x3EC,
            Csr::Pmpaddr61 => 0x3ED,
            Csr::Pmpaddr62 => 0x3EE,
            Csr::Pmpaddr63 => 0x3EF,
            Csr::Mcycle => 0xB00,
            Csr::Minstret => 0xB02,
            Csr::Mhpmcounter3 => 0xB03,
            Csr::Mhpmcounter4 => 0xB04,
            Csr::Mhpmcounter5 => 0xB05,
            Csr::Mhpmcounter6 => 0xB06,
            Csr::Mhpmcounter7 => 0xB07,
            Csr::Mhpmcounter8 => 0xB08,
            Csr::Mhpmcounter9 => 0xB09,
            Csr::Mhpmcounter10 => 0xB0A,
            Csr::Mhpmcounter11 => 0xB0B,
            Csr::Mhpmcounter12 => 0xB0C,
            Csr::Mhpmcounter13 => 0xB0D,
            Csr::Mhpmcounter14 => 0xB0E,
            Csr::Mhpmcounter15 => 0xB0F,
            Csr::Mhpmcounter16 => 0xB10,
            Csr::Mhpmcounter17 => 0xB11,
            Csr::Mhpmcounter18 => 0xB12,
            Csr::Mhpmcounter19 => 0xB13,
            Csr::Mhpmcounter20 => 0xB14,
            Csr::Mhpmcounter21 => 0xB15,
            Csr::Mhpmcounter22 => 0xB16,
            Csr::Mhpmcounter23 => 0xB17,
            Csr::Mhpmcounter24 => 0xB18,
            Csr::Mhpmcounter25 => 0xB19,
            Csr::Mhpmcounter26 => 0xB1A,
            Csr::Mhpmcounter27 => 0xB1B,
            Csr::Mhpmcounter28 => 0xB1C,
            Csr::Mhpmcounter29 => 0xB1D,
            Csr::Mhpmcounter30 => 0xB1E,
            Csr::Mhpmcounter31 => 0xB1F,
            Csr::Mcycleh => 0xB80,
            Csr::Minstreth => 0xB82,
            Csr::Mhpmcounter3h => 0xB83,
            Csr::Mhpmcounter4h => 0xB84,
            Csr::Mhpmcounter5h => 0xB85,
            Csr::Mhpmcounter6h => 0xB86,
            Csr::Mhpmcounter7h => 0xB87,
            Csr::Mhpmcounter8h => 0xB88,
            Csr::Mhpmcounter9h => 0xB89,
            Csr::Mhpmcounter10h => 0xB8A,
            Csr::Mhpmcounter11h => 0xB8B,
            Csr::Mhpmcounter12h => 0xB8C,
            Csr::Mhpmcounter13h => 0xB8D,
            Csr::Mhpmcounter14h => 0xB8E,
            Csr::Mhpmcounter15h => 0xB8F,
            Csr::Mhpmcounter16h => 0xB90,
            Csr::Mhpmcounter17h => 0xB91,
            Csr::Mhpmcounter18h => 0xB92,
            Csr::Mhpmcounter19h => 0xB93,
            Csr::Mhpmcounter20h => 0xB94,
            Csr::Mhpmcounter21h => 0xB95,
            Csr::Mhpmcounter22h => 0xB96,
            Csr::Mhpmcounter23h => 0xB97,
            Csr::Mhpmcounter24h => 0xB98,
            Csr::Mhpmcounter25h => 0xB99,
            Csr::Mhpmcounter26h => 0xB9A,
            Csr::Mhpmcounter27h => 0xB9B,
            Csr::Mhpmcounter28h => 0xB9C,
            Csr::Mhpmcounter29h => 0xB9D,
            Csr::Mhpmcounter30h => 0xB9E,
            Csr::Mhpmcounter31h => 0xB9F,
            Csr::Mcountinhibit => 0x320,
            Csr::Mhpmevent3 => 0x323,
            Csr::Mhpmevent4 => 0x324,
            Csr::Mhpmevent5 => 0x325,
            Csr::Mhpmevent6 => 0x326,
            Csr::Mhpmevent7 => 0x327,
            Csr::Mhpmevent8 => 0x328,
            Csr::Mhpmevent9 => 0x329,
            Csr::Mhpmevent10 => 0x32A,
            Csr::Mhpmevent11 => 0x32B,
            Csr::Mhpmevent12 => 0x32C,
            Csr::Mhpmevent13 => 0x32D,
            Csr::Mhpmevent14 => 0x32E,
            Csr::Mhpmevent15 => 0x32F,
            Csr::Mhpmevent16 => 0x330,
            Csr::Mhpmevent17 => 0x331,
            Csr::Mhpmevent18 => 0x332,
            Csr::Mhpmevent19 => 0x333,
            Csr::Mhpmevent20 => 0x334,
            Csr::Mhpmevent21 => 0x335,
            Csr::Mhpmevent22 => 0x336,
            Csr::Mhpmevent23 => 0x337,
            Csr::Mhpmevent24 => 0x338,
            Csr::Mhpmevent25 => 0x339,
            Csr::Mhpmevent26 => 0x33A,
            Csr::Mhpmevent27 => 0x33B,
            Csr::Mhpmevent28 => 0x33C,
            Csr::Mhpmevent29 => 0x33D,
            Csr::Mhpmevent30 => 0x33E,
            Csr::Mhpmevent31 => 0x33F,
            Csr::Tselect => 0x7A0,
            Csr::Tdata1 => 0x7A1,
            Csr::Tdata2 => 0x7A2,
            Csr::Tdata3 => 0x7A3,
            Csr::Mcontext => 0x7A8,
            Csr::Dcsr => 0x7B0,
            Csr::Dpc => 0x7B1,
            Csr::Dscratch0 => 0x7B2,
            Csr::Dscratch1 => 0x7B3,
        }
    }

    pub fn checked_from_u32(r: u32) -> (res: Option<Self>)
        ensures
            res == Self::spec_from_address(r),
    {
        let csr = match r {
            0x001 => Csr::Fflags,
            0x002 => Csr::Frm,
            0x003 => Csr::Fcsr,
            0xC00 => Csr::Cycle,
            0xC01 => Csr::Time,
            0xC02 => Csr::Instret,
            0xC03 => Csr::Hpmcounter3,
            0xC04 => Csr::Hpmcounter4,
            0xC05 => Csr::Hpmcounter5,
            0xC06 => Csr::Hpmcounter6,
            0xC07 => Csr::Hpmcounter7,
            0xC08 => Csr::Hpmcounter8,
            0xC09 => Csr::Hpmcounter9,
            0xC0A => Csr::Hpmcounter10,
            0xC0B => Csr::Hpmcounter11,
            0xC0C => Csr::Hpmcounter12,
            0xC0D => Csr::Hpmcounter13,
            0xC0E => Csr::Hpmcounter14,
            0xC0F => Csr::Hpmcounter15,
            0xC10 => Csr::Hpmcounter16,
            0xC11 => Csr::Hpmcounter17,
            0xC12 => Csr::Hpmcounter18,
            0xC13 => Csr::Hpmcounter19,
            0xC14 => Csr::Hpmcounter20,
            0xC15 => Csr::Hpmcounter21,
            0xC16 => Csr::Hpmcounter22,
            0xC17 => Csr::Hpmcounter23,
            0xC18 => Csr::Hpmcounter24,
            0xC19 => Csr::Hpmcounter25,
            0xC1A => Csr::Hpmcounter26,
            0xC1B => Csr::Hpmcounter27,
            0xC1C => Csr::Hpmcounter28,
            0xC1D => Csr::Hpmcounter29,
            0xC1E => Csr::Hpmcounter30,
            0xC1F => Csr::Hpmcounter31,
            0xC80 => Csr::Cycleh,
            0xC81 => Csr::Timeh,
            0xC82 => Csr::Instreth,
            0xC83 => Csr::Hpmcounter3h,
            0xC84 => Csr::Hpmcounter4h,
            0xC85 => Csr::Hpmcounter5h,
            0xC86 => Csr::Hpmcounter6h,
            0xC87 => Csr::Hpmcounter7h,
            0xC88 => Csr::Hpmcounter8h,
            0xC89 => Csr::Hpmcounter9h,
            0xC8A => Csr::Hpmcounter10h,
            0xC8B => Csr::Hpmcounter11h,
            0xC8C => Csr::Hpmcounter12h,
            0xC8D => Csr::Hpmcounter13h,
            0xC8E => Csr::Hpmcounter14h,
            0xC8F => Csr::Hpmcounter15h,
            0xC90 => Csr::Hpmcounter16h,
            0xC91 => Csr::Hpmcounter17h,
            0xC92 => Csr::Hpmcounter18h,
            0xC93 => Csr::Hpmcounter19h,
            0xC94 => Csr::Hpmcounter20h,
            0xC95 => Csr::Hpmcounter21h,
            0xC96 => Csr::Hpmcounter22h,
            0xC97 => Csr::Hpmcounter23h,
            0xC98 => Csr::Hpmcounter24h,
            0xC99 => Csr::Hpmcounter25h,
            0xC9A => Csr::Hpmcounter26h,
            0xC9B => Csr::Hpmcounter27h,
            0xC9C => Csr::Hpmcounter28h,
            0xC9D => Csr::Hpmcounter29h,
            0xC9E => Csr::Hpmcounter30h,
            0xC9F => Csr::Hpmcounter31h,
            0x100 => Csr::Sstatus,
            0x104 => Csr::Ssie,
            0x105 => Csr::Stvec,
            0x106 => Csr::Scounteren,
            0x10A => Csr::Senvcfg,
            0x140 => Csr::Sscratch,
            0x141 => Csr::Sepc,
            0x142 => Csr::Scause,
            0x143 => Csr::Stval,
            0x144 => Csr::Sip,
            0x180 => Csr::Satp,
            0x5A8 => Csr::Scontext,
            0x600 => Csr::Hstatus,
            0x602 => Csr::Hedeleg,
            0x603 => Csr::Hideleg,
            0x604 => Csr::Hie,
            0x606 => Csr::Hcounteren,
            0x607 => Csr::Hgeie,
            0x643 => Csr::Htval,
            0x644 => Csr::Hip,
            0x645 => Csr::Hvip,
            0x64A => Csr::Htinst,
            0xE12 => Csr::Hgeip,
            0x60A => Csr::Henvcfg,
            0x61A => Csr::Henvcfgh,
            0x6A8 => Csr::Hcontext,
            0x605 => Csr::Htimedelta,
            0x615 => Csr::Htimedeltah,
            0x200 => Csr::Vsstatus,
            0x204 => Csr::Vsie,
            0x205 => Csr::Vstvec,
            0x240 => Csr::Vsscratch,
            0x241 => Csr::Vsepc,
            0x242 => Csr::Vscause,
            0x243 => Csr::Vstval,
            0x244 => Csr::Vsip,
            0x280 => Csr::Vsatp,
            0xF11 => Csr::Mvendorid,
            0xF12 => Csr::Marchid,
            0xF13 => Csr::Mimpid,
            0xF14 => Csr::Mhartid,
            0xF15 => Csr::Mconfigptr,
            0x300 => Csr::Mstatus,
            0x301 => Csr::Misa,
            0x302 => Csr::Medeleg,
            0x303 => Csr::Mideleg,
            0x304 => Csr::Mie,
            0x305 => Csr::Mtvec,
            0x306 => Csr::Mcounteren,
            0x310 => Csr::Mstatush,
            0x340 => Csr::Mscratch,
            0x341 => Csr::Mepc,
            0x342 => Csr::Mcause,
            0x343 => Csr::Mtval,
            0x344 => Csr::Mip,
            0x34A => Csr::Mtinst,
            0x34B => Csr::Mtval2,
            0x30A => Csr::Menvcfg,
            0x31A => Csr::Menvcfgh,
            0x747 => Csr::Mseccfg,
            0x757 => Csr::Mseccfgh,
            0x3A0 => Csr::Pmpcfg0,
            0x3A1 => Csr::Pmpcfg1,
            0x3A2 => Csr::Pmpcfg2,
            0x3A3 => Csr::Pmpcfg3,
            0x3A4 => Csr::Pmpcfg4,
            0x3A5 => Csr::Pmpcfg5,
            0x3A6 => Csr::Pmpcfg6,
            0x3A7 => Csr::Pmpcfg7,
            0x3A8 => Csr::Pmpcfg08,
            0x3A9 => Csr::Pmpcfg09,
            0x3AA => Csr::Pmpcfg10,
            0x3AB => Csr::Pmpcfg11,
            0x3AC => Csr::Pmpcfg12,
            0x3AD => Csr::Pmpcfg13,
            0x3AE => Csr::Pmpcfg14,
            0x3AF => Csr::Pmpcfg15,
            0x3B0 => Csr::Pmpaddr0,
            0x3B1 => Csr::Pmpaddr1,
            0x3B2 => Csr::Pmpaddr2,
            0x3B3 => Csr::Pmpaddr3,
            0x3B4 => Csr::Pmpaddr4,
            0x3B5 => Csr::Pmpaddr5,
            0x3B6 => Csr::Pmpaddr6,
            0x3B7 => Csr::Pmpaddr7,
            0x3B8 => Csr::Pmpaddr8,
            0x3B9 => Csr::Pmpaddr9,
            0x3BA => Csr::Pmpaddr10,
            0x3BB => Csr::Pmpaddr11,
            0x3BC => Csr::Pmpaddr12,
            0x3BD => Csr::Pmpaddr13,
            0x3BE => Csr::Pmpaddr14,
            0x3BF => Csr::Pmpaddr15,
            0x3C0 => Csr::Pmpaddr16,
            0x3C1 => Csr::Pmpaddr17,
            0x3C2 => Csr::Pmpaddr18,
            0x3C3 => Csr::Pmpaddr19,
            0x3C4 => Csr::Pmpaddr20,
            0x3C5 => Csr::Pmpaddr21,
            0x3C6 => Csr::Pmpaddr22,
            0x3C7 => Csr::Pmpaddr23,
            0x3C8 => Csr::Pmpaddr24,
            0x3C9 => Csr::Pmpaddr25,
            0x3CA => Csr::Pmpaddr26,
            0x3CB => Csr::Pmpaddr27,
            0x3CC => Csr::Pmpaddr28,
            0x3CD => Csr::Pmpaddr29,
            0x3CE => Csr::Pmpaddr30,
            0x3CF => Csr::Pmpaddr31,
            0x3D0 => Csr::Pmpaddr32,
            0x3D1 => Csr::Pmpaddr33,
            0x3D2 => Csr::Pmpaddr34,
            0x3D3 => Csr::Pmpaddr35,
            0x3D4 => Csr::Pmpaddr36,
            0x3D5 => Csr::Pmpaddr37,
            0x3D6 => Csr::Pmpaddr38,
            0x3D7 => Csr::Pmpaddr39,
            0x3D8 => Csr::Pmpaddr40,
            0x3D9 => Csr::Pmpaddr41,
            0x3DA => Csr::Pmpaddr42,
            0x3DB => Csr::Pmpaddr43,
            0x3DC => Csr::Pmpaddr44,
            0x3DD => Csr::Pmpaddr45,
            0x3DE => Csr::Pmpaddr46,
            0x3DF => Csr::Pmpaddr47,
            0x3E0 => Csr::Pmpaddr48,
            0x3E1 => Csr::Pmpaddr49,
            0x3E2 => Csr::Pmpaddr50,
            0x3E3 => Csr::Pmpaddr51,
            0x3E4 => Csr::Pmpaddr52,
            0x3E5 => Csr::Pmpaddr53,
            0x3E6 => Csr::Pmpaddr54,
            0x3E7 => Csr::Pmpaddr55,
            0x3E8 => Csr::Pmpaddr56,
            0x3E9 => Csr::Pmpaddr57,
            0x3EA => Csr::Pmpaddr58,
            0x3EB => Csr::Pmpaddr59,
            0x3EC => Csr::Pmpaddr60,
            0x3ED => Csr::Pmpaddr61,
            0x3EE => Csr::Pmpaddr62,
            0x3EF => Csr::Pmpaddr63,
            0xB00 => Csr::Mcycle,
            0xB02 => Csr::Minstret,
            0xB03 => Csr::Mhpmcounter3,
            0xB04 => Csr::Mhpmcounter4,
            0xB05 => Csr::Mhpmcounter5,
            0xB06 => Csr::Mhpmcounter6,
            0xB07 => Csr::Mhpmcounter7,
            0xB08 => Csr::Mhpmcounter8,
            0xB09 => Csr::Mhpmcounter9,
            0xB0A => Csr::Mhpmcounter10,
            0xB0B => Csr::Mhpmcounter11,
            0xB0C => Csr::Mhpmcounter12,
            0xB0D => Csr::Mhpmcounter13,
            0xB0E => Csr::Mhpmcounter14,
            0xB0F => Csr::Mhpmcounter15,
            0xB10 => Csr::Mhpmcounter16,
            0xB11 => Csr::Mhpmcounter17,
            0xB12 => Csr::Mhpmcounter18,
            0xB13 => Csr::Mhpmcounter19,
            0xB14 => Csr::Mhpmcounter20,
            0xB15 => Csr::Mhpmcounter21,
            0xB16 => Csr::Mhpmcounter22,
            0xB17 => Csr::Mhpmcounter23,
            0xB18 => Csr::Mhpmcounter24,
            0xB19 => Csr::Mhpmcounter25,
            0xB1A => Csr::Mhpmcounter26,
            0xB1B => Csr::Mhpmcounter27,
            0xB1C => Csr::Mhpmcounter28,
            0xB1D => Csr::Mhpmcounter29,
            0xB1E => Csr::Mhpmcounter30,
            0xB1F => Csr::Mhpmcounter31,
            0xB80 => Csr::Mcycleh,
            0xB82 => Csr::Minstreth,
            0xB83 => Csr::Mhpmcounter3h,
            0xB84 => Csr::Mhpmcounter4h,
            0xB85 => Csr::Mhpmcounter5h,
            0xB86 => Csr::Mhpmcounter6h,
            0xB87 => Csr::Mhpmcounter7h,
            0xB88 => Csr::Mhpmcounter8h,
            0xB89 => Csr::Mhpmcounter9h,
            0xB8A => Csr::Mhpmcounter10h,
            0xB8B => Csr::Mhpmcounter11h,
            0xB8C => Csr::Mhpmcounter12h,
            0xB8D => Csr::Mhpmcounter13h,
            0xB8E => Csr::Mhpmcounter14h,
            0xB8F => Csr::Mhpmcounter15h,
            0xB90 => Csr::Mhpmcounter16h,
            0xB91 => Csr::Mhpmcounter17h,
            0xB92 => Csr::Mhpmcounter18h,
            0xB93 => Csr::Mhpmcounter19h,
            0xB94 => Csr::Mhpmcounter20h,
            0xB95 => Csr::Mhpmcounter21h,
            0xB96 => Csr::Mhpmcounter22h,
            0xB97 => Csr::Mhpmcounter23h,
            0xB98 => Csr::Mhpmcounter24h,
            0xB99 => Csr::Mhpmcounter25h,
            0xB9A => Csr::Mhpmcounter26h,
            0xB9B => Csr::Mhpmcounter27h,
            0xB9C => Csr::Mhpmcounter28h,
            0xB9D => Csr::Mhpmcounter29h,
            0xB9E => Csr::Mhpmcounter30h,
            0xB9F => Csr::Mhpmcounter31h,
            0x320 => Csr::Mcountinhibit,
            0x323 => Csr::Mhpmevent3,
            0x324 => Csr::Mhpmevent4,
            0x325 => Csr::Mhpmevent5,
            0x326 => Csr::Mhpmevent6,
            0x327 => Csr::Mhpmevent7,
            0x328 => Csr::Mhpmevent8,
            0x329 => Csr::Mhpmevent9,
            0x32A => Csr::Mhpmevent10,
            0x32B => Csr::Mhpmevent11,
            0x32C => Csr::Mhpmevent12,
            0x32D => Csr::Mhpmevent13,
            0x32E => Csr::Mhpmevent14,
            0x32F => Csr::Mhpmevent15,
            0x330 => Csr::Mhpmevent16,
            0x331 => Csr::Mhpmevent17,
            0x332 => Csr::Mhpmevent18,
            0x333 => Csr::Mhpmevent19,
            0x334 => Csr::Mhpmevent20,
            0x335 => Csr::Mhpmevent21,
            0x336 => Csr::Mhpmevent22,
            0x337 => Csr::Mhpmevent23,
            0x338 => Csr::Mhpmevent24,
            0x339 => Csr::Mhpmevent25,
            0x33A => Csr::Mhpmevent26,
            0x33B => Csr::Mhpmevent27,
            0x33C => Csr::Mhpmevent28,
            0x33D => Csr::Mhpmevent29,
            0x33E => Csr::Mhpmevent30,
            0x33F => Csr::Mhpmevent31,
            0x7A0 => Csr::Tselect,
            0x7A1 => Csr::Tdata1,
            0x7A2 => Csr::Tdata2,
            0x7A3 => Csr::Tdata3,
            0x7A8 => Csr::Mcontext,
            0x7B0 => Csr::Dcsr,
            0x7B1 => Csr::Dpc,
            0x7B2 => Csr::Dscratch0,
            0x7B3 => Csr::Dscratch1,
            _ => {
                return None;
            },
        };
        Some(csr)
    }

    pub fn decode_raw32(raw32: u32) -> (res: Option<Self>)
        ensures
            res == Self::spec_from_address(raw32 >> 20),
    {
        Self::checked_from_u32(raw32 >> 20)
    }
}

/// Looking a CSR up by its own address finds exactly that CSR: the table is
/// a left inverse of `address_spec`, so `address_spec` is injective.
pub proof fn lemma_csr_address_round_trip(c: Csr)
    ensures
        Csr::spec_from_address(c.address_spec()) == Some(c),
{
}

/// An address the table maps to a CSR is that CSR's own address, and an
/// address of no CSR maps to nothing.
#[verifier::rlimit(100)]
#[verifier::spinoff_prover]
pub proof fn lemma_csr_from_address_exact(a: u32)
    ensures
        match Csr::spec_from_address(a) {
            Some(c) => c.address_spec() == a,
            None => forall|c: Csr| #[trigger] c.address_spec() != a,
        },
{
    if Csr::spec_from_address(a) is None {
        assert forall|c: Csr| #[trigger] c.address_spec() != a by {
            lemma_csr_address_round_trip(c);
        }
    }
}

/// Storage for the enumerated CSRs, one word per table entry.
pub struct CsrFile {
    reg: Vec<u32>,
}

impl View for CsrFile {
    type V = Seq<u32>;

    closed spec fn view(&self) -> Seq<u32> {
        self.reg@
    }
}

impl CsrFile {
    pub fn new() -> (r: Self)
        ensures
            r@.len() == CSR_FILE_SIZE,
            forall|i: int| 0 <= i < CSR_FILE_SIZE ==> r@[i] == 0u32,
    {
        let mut reg: Vec<u32> = Vec::new();
        let mut i: usize = 0;
        while i < CSR_FILE_SIZE
            invariant
                i <= CSR_FILE_SIZE,
                reg@.len() == i,
                forall|j: int| 0 <= j < i ==> reg@[j] == 0u32,
            decreases CSR_FILE_SIZE - i,
        {
            reg.push(0);
            i = i + 1;
        }
        Self { reg }
    }
}

impl Default for CsrFile {
    fn default() -> (r: Self)
        ensures
            r@.len() == CSR_FILE_SIZE,
            forall|i: int| 0 <= i < CSR_FILE_SIZE ==> r@[i] == 0u32,
    {
        Self::new()
    }
}

} // verus!
