use remoulade::inst::Instruction;
use remoulade::mmu::cache::{DataCache, InstructionCache};
use remoulade::mmu::lru::{FourWay, FourWayLru};

fn all_states() -> Vec<(FourWayLru, FourWay)> {
    // Each state with its least recently used way, the rightmost letter.
    vec![
        (FourWayLru::ABCD, FourWay::D),
        (FourWayLru::ABDC, FourWay::C),
        (FourWayLru::ACBD, FourWay::D),
        (FourWayLru::ACDB, FourWay::B),
        (FourWayLru::ADBC, FourWay::C),
        (FourWayLru::ADCB, FourWay::B),
        (FourWayLru::BACD, FourWay::D),
        (FourWayLru::BADC, FourWay::C),
        (FourWayLru::BCAD, FourWay::D),
        (FourWayLru::BCDA, FourWay::A),
        (FourWayLru::BDAC, FourWay::C),
        (FourWayLru::BDCA, FourWay::A),
        (FourWayLru::CABD, FourWay::D),
        (FourWayLru::CADB, FourWay::B),
        (FourWayLru::CBAD, FourWay::D),
        (FourWayLru::CBDA, FourWay::A),
        (FourWayLru::CDAB, FourWay::B),
        (FourWayLru::CDBA, FourWay::A),
        (FourWayLru::DABC, FourWay::C),
        (FourWayLru::DACB, FourWay::B),
        (FourWayLru::DBAC, FourWay::C),
        (FourWayLru::DBCA, FourWay::A),
        (FourWayLru::DCAB, FourWay::B),
        (FourWayLru::DCBA, FourWay::A),
    ]
}

#[test]
fn test_lru_touch_all_ways_from_any_state() {
    // From any state, touching A, B, C, D in order leaves DCBA, and the next
    // replacement victimises A.
    for (state, _) in all_states() {
        let mut s = state;
        s.touch(FourWay::A);
        s.touch(FourWay::B);
        s.touch(FourWay::C);
        s.touch(FourWay::D);
        assert_eq!(s, FourWayLru::DCBA);
        assert_eq!(s.replace(), FourWay::A);
    }
}

#[test]
fn test_lru_replace_is_rightmost_then_touch() {
    // replace() equals reading off the rightmost way and touching it.
    for (state, rightmost) in all_states() {
        let mut replaced = state;
        let w = replaced.replace();
        assert_eq!(w, rightmost);
        let mut touched = state;
        touched.touch(rightmost);
        assert_eq!(replaced, touched);
    }
}

#[test]
fn test_lru_touch_keeps_relative_order() {
    // Touching a way moves it to the front and keeps the other three in
    // their relative order.
    let mut s = FourWayLru::CABD;
    s.touch(FourWay::B);
    assert_eq!(s, FourWayLru::BCAD);

    let mut s = FourWayLru::DCBA;
    s.touch(FourWay::C);
    assert_eq!(s, FourWayLru::CDBA);

    let mut s = FourWayLru::ABDC;
    s.touch(FourWay::C);
    assert_eq!(s, FourWayLru::CABD);

    // Touching the most recent way changes nothing; touching twice equals
    // touching once.
    let mut s = FourWayLru::ABCD;
    s.touch(FourWay::A);
    assert_eq!(s, FourWayLru::ABCD);
    let mut once = FourWayLru::BDAC;
    once.touch(FourWay::D);
    let mut twice = once;
    twice.touch(FourWay::D);
    assert_eq!(once, twice);
}

fn marker_block(base: u32) -> Vec<Instruction> {
    let mut block = Vec::new();
    for k in 0..16 {
        block.push(Instruction::Illegal32 { raw32: base + k });
    }
    block
}

#[test]
fn test_icache_insert_then_read_every_offset() {
    // A block inserted at number 0x10000 answers reads of address
    // 0x00400000 at every word offset with the matching entry.
    let mut ic = InstructionCache::<0>::new();
    ic.insert(0x00010000, marker_block(0x1000));
    for offset in 0..16u32 {
        let got = ic.read(0x00400000 | (offset << 2));
        assert_eq!(got, Some(Instruction::Illegal32 { raw32: 0x1000 + offset }));
    }
    // An address of a block the cache does not hold misses.
    assert_eq!(ic.read(0x00000040), None);
}

#[test]
fn test_icache_fifth_block_evicts_least_recently_used() {
    // Five distinct numbers of one set: exactly one of the first four is
    // evicted, the least recently used one.
    let mut ic = InstructionCache::<0>::new();
    let n1 = 0x00010000;
    let n2 = 0x00000100;
    let n3 = 0x00000200;
    let n4 = 0x00000300;
    let n5 = 0x00000400;
    ic.insert(n1, marker_block(0x100));
    ic.insert(n2, marker_block(0x200));
    ic.insert(n3, marker_block(0x300));
    ic.insert(n4, marker_block(0x400));
    // Refresh the first block so that the second becomes least recent.
    assert_eq!(
        ic.read(n1 << 6),
        Some(Instruction::Illegal32 { raw32: 0x100 })
    );
    ic.insert(n5, marker_block(0x500));
    assert_eq!(ic.read(n2 << 6), None);
    assert_eq!(
        ic.read(n1 << 6),
        Some(Instruction::Illegal32 { raw32: 0x100 })
    );
    assert_eq!(
        ic.read(n3 << 6),
        Some(Instruction::Illegal32 { raw32: 0x300 })
    );
    assert_eq!(
        ic.read(n4 << 6),
        Some(Instruction::Illegal32 { raw32: 0x400 })
    );
    assert_eq!(
        ic.read(n5 << 6),
        Some(Instruction::Illegal32 { raw32: 0x500 })
    );
}

#[test]
fn test_icache_fast_path_is_transparent() {
    // Reading through the fast-path table returns exactly what the slow
    // scan returned, and a read history does not change any result.
    let mut warm = InstructionCache::<0>::new();
    let mut cold = InstructionCache::<0>::new();
    warm.insert(0x00010000, marker_block(0x1000));
    warm.insert(0x00020000, marker_block(0x2000));
    cold.insert(0x00010000, marker_block(0x1000));
    cold.insert(0x00020000, marker_block(0x2000));

    // Warm up one cache's fast path with repeated and alternating reads.
    for _ in 0..3 {
        warm.read(0x00400000);
        warm.read(0x00800004);
    }
    for offset in 0..16u32 {
        let a = 0x00400000 | (offset << 2);
        let b = 0x00800000 | (offset << 2);
        assert_eq!(warm.read(a), cold.read(a));
        assert_eq!(warm.read(b), cold.read(b));
        let again = warm.read(a);
        assert_eq!(again, cold.read(a));
    }
    assert_eq!(warm.read(0x00c00000), cold.read(0x00c00000));
}

#[test]
fn test_icache_insert_present_touches_without_replacing() {
    let mut ic = InstructionCache::<0>::new();
    ic.insert(0x00010000, marker_block(0x1000));
    // Inserting the same number again keeps the first contents.
    ic.insert(0x00010000, marker_block(0x9000));
    assert_eq!(
        ic.read(0x00400000),
        Some(Instruction::Illegal32 { raw32: 0x1000 })
    );
}

fn byte_block() -> Vec<u8> {
    let mut block = Vec::new();
    for k in 0..64u32 {
        block.push(k as u8);
    }
    block
}

#[test]
fn test_dcache_insert_and_get() {
    let mut dc = DataCache::<0>::new();
    assert!(dc.get_block_by_number(0x42).is_none());
    dc.insert_block(0x42, byte_block());
    let line = dc.get_block_by_number(0x42).expect("inserted block").clone();
    assert_eq!(line.len(), 64);
    for k in 0..64usize {
        assert_eq!(line[k], k as u8);
    }
}

#[test]
fn test_dcache_writes_are_little_endian() {
    let mut dc = DataCache::<0>::new();
    let idx = dc.insert_block(0x42, byte_block());

    dc.write_byte_with_raw_index(idx, 0, 0xab);
    dc.write_half_word_with_raw_index(idx, 2, 0xbeef);
    dc.write_word_with_raw_index(idx, 4, 0xdeadbeef);

    let line = dc.get_block_by_raw_index(idx).clone();
    assert_eq!(line[0], 0xab);
    assert_eq!(line[1], 1);
    assert_eq!(line[2], 0xef);
    assert_eq!(line[3], 0xbe);
    assert_eq!(line[4], 0xef);
    assert_eq!(line[5], 0xbe);
    assert_eq!(line[6], 0xad);
    assert_eq!(line[7], 0xde);
    // A byte write touches exactly one byte.
    for k in 8..64usize {
        assert_eq!(line[k], k as u8);
    }
}

#[test]
fn test_dcache_eviction_follows_lru() {
    let mut dc = DataCache::<0>::new();
    dc.insert_block(0x100, byte_block());
    dc.insert_block(0x200, byte_block());
    dc.insert_block(0x300, byte_block());
    dc.insert_block(0x400, byte_block());
    // Refresh the first; the second is now least recent.
    assert!(dc.get_block_by_number(0x100).is_some());
    dc.insert_block(0x500, byte_block());
    assert!(dc.get_block_by_number(0x200).is_none());
    assert!(dc.get_block_by_number(0x100).is_some());
    assert!(dc.get_block_by_number(0x300).is_some());
    assert!(dc.get_block_by_number(0x400).is_some());
    assert!(dc.get_block_by_number(0x500).is_some());
}
