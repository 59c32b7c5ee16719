use remoulade::reg::{Rd, RegFile, Rs1, Rs2};

#[test]
fn test_basic_functionality() {
    let mut file = RegFile::new();
    let rd = Rd::checked_from_u32(5).expect("Could not map number to register");
    let rs1 = Rs1::checked_from_u32(5).expect("Could not map number to register");

    file.set_rd(rd, 20);
    assert_eq!(file.get_rs1(rs1), 20);
}

#[test]
fn test_no_write_x0() {
    let mut file = RegFile::new();

    let rd = Rd::checked_from_u32(0).expect("Could not map number to register");
    let rs1 = Rs1::checked_from_u32(0).expect("Could not map number to register");

    file.set_rd(rd, 20);
    assert_eq!(file.get_rs1(rs1), 0);
    assert_eq!(file.slot(32), 20);
}

#[test]
fn test_decode_regs() {
    let raw32_expected = [
        (0x003100b3, (Rd::X1, Rs1::X2, Rs2::X3)),
        (0x00628233, (Rd::X4, Rs1::X5, Rs2::X6)),
        (0x009403b3, (Rd::X7, Rs1::X8, Rs2::X9)),
        (0x00c58533, (Rd::X10, Rs1::X11, Rs2::X12)),
        (0x00f706b3, (Rd::X13, Rs1::X14, Rs2::X15)),
        (0x01288833, (Rd::X16, Rs1::X17, Rs2::X18)),
        (0x015a09b3, (Rd::X19, Rs1::X20, Rs2::X21)),
        (0x018b8b33, (Rd::X22, Rs1::X23, Rs2::X24)),
        (0x01bd0cb3, (Rd::X25, Rs1::X26, Rs2::X27)),
        (0x01ee8e33, (Rd::X28, Rs1::X29, Rs2::X30)),
        (0x00000fb3, (Rd::X31, Rs1::X0, Rs2::X0)),
    ];

    for (raw32, (rd, rs1, rs2)) in raw32_expected.into_iter() {
        assert_eq!(Rd::decode_raw32(raw32), rd);
        assert_eq!(Rs1::decode_raw32(raw32), rs1);
        assert_eq!(Rs2::decode_raw32(raw32), rs2);
    }
}

#[test]
fn test_checked_from_u32_range() {
    assert_eq!(Rs1::checked_from_u32(31), Some(Rs1::X31));
    assert_eq!(Rs1::checked_from_u32(32), None);
    assert_eq!(Rs2::checked_from_u32(31), Some(Rs2::X31));
    assert_eq!(Rs2::checked_from_u32(32), None);
    assert_eq!(Rd::checked_from_u32(31), Some(Rd::X31));
    assert_eq!(Rd::checked_from_u32(32), None);
}

#[test]
fn test_get_rs2_after_writes() {
    let mut file = RegFile::new();
    file.set_rd(Rd::checked_from_u32(7).unwrap(), 111);
    file.set_rd(Rd::checked_from_u32(8).unwrap(), 222);
    assert_eq!(file.get_rs2(Rs2::checked_from_u32(7).unwrap()), 111);
    assert_eq!(file.get_rs2(Rs2::checked_from_u32(8).unwrap()), 222);
    assert_eq!(file.get_rs2(Rs2::checked_from_u32(0).unwrap()), 0);
}
