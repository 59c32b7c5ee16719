use remoulade::inst::imm::{
    AmoAqrl, BTypeImmediate, FenceInfo, FenceMode, ITypeImmediate, JTypeImmediate, STypeImmediate,
    UTypeImmediate,
};

#[test]
fn test_itype_decode() {
    let raw32_expected = [
        (0x3e800093, 1000),
        (0x7d008113, 2000),
        (0x7ff00093, 2047),
        (0x80000093, -2048),
    ];

    for (raw32, expected) in raw32_expected {
        let decoded = ITypeImmediate::decode_raw32(raw32);
        assert!(decoded.i32() == expected);
    }
}

#[test]
fn test_stype_decode() {
    let raw32_expected = [
        (0x7e530fa3, 2047),
        (0x80730023, -2048),
        (0x2a430323, 678),
        (0xd4430d23, -678),
    ];

    for (raw32, expected) in raw32_expected {
        let decoded = STypeImmediate::decode_raw32(raw32);
        assert!(decoded.i32() == expected);
    }
}

#[test]
fn test_btype_decode() {
    let raw32_expected = [
        (0x0000ce63, 28),
        (0x0000c663, 12),
        (0xfe00cee3, -4),
        (0xfe00c4e3, -24),
        (0xfe00c2e3, -28),
    ];

    for (raw32, expected) in raw32_expected {
        let decoded = BTypeImmediate::decode_raw32(raw32);
        assert!(decoded.i32() == expected);
    }
}

#[test]
fn test_utype_decode() {
    // lui x1, 0xfffff carries the most negative upper immediate.
    let raw32_expected: [(u32, i32); 3] = [
        (0xfffff0b7, -4096),
        (0x000010b7, 4096),
        (0x000000b7, 0),
    ];

    for (raw32, expected) in raw32_expected {
        let decoded = UTypeImmediate::decode_raw32(raw32);
        assert!(decoded.i32() == expected);
    }
}

#[test]
fn test_jtype_decode() {
    let raw32_expected: [(u32, i32); 3] = [
        // jal x0, 4
        (0x0040006f, 4),
        // jal x0, -4
        (0xffdff06f, -4),
        // jal x1, 2048: bit 11 of the offset crosses into raw[20]
        (0x001000ef, 2048),
    ];

    for (raw32, expected) in raw32_expected {
        let decoded = JTypeImmediate::decode_raw32(raw32);
        assert!(decoded.i32() == expected);
    }
}

#[test]
fn test_fence_info_decode() {
    // fence iorw, iorw: every predecessor and successor flag is set.
    let info = FenceInfo::decode_raw32(0x0ff0000f);
    assert_eq!(info.mode(), FenceMode::Normal);
    let flags = info.flags();
    assert!(flags.pi() && flags.po() && flags.pr() && flags.pw());
    assert!(flags.si() && flags.so() && flags.sr() && flags.sw());

    // fence.tso: mode 0b1000, flags rw,rw.
    let tso = FenceInfo::decode_raw32(0x8330000f);
    assert_eq!(tso.mode(), FenceMode::Tso);
    let flags = tso.flags();
    assert!(!flags.pi() && !flags.po() && flags.pr() && flags.pw());
    assert!(!flags.si() && !flags.so() && flags.sr() && flags.sw());

    let other = FenceInfo::decode_raw32(0x1000000f);
    assert_eq!(other.mode(), FenceMode::Other);
}

#[test]
fn test_amo_aqrl_decode() {
    // amoswap.w.aq x2, x3, (x1): aq set, rl clear.
    let aq = AmoAqrl::decode_raw32(0x0c30a12f);
    assert!(aq.aq());
    assert!(!aq.rl());

    // amoswap.w.rl: rl set, aq clear.
    let rl = AmoAqrl::decode_raw32(0x0a30a12f);
    assert!(!rl.aq());
    assert!(rl.rl());

    let neither = AmoAqrl::decode_raw32(0x0830a12f);
    assert!(!neither.aq());
    assert!(!neither.rl());
}
