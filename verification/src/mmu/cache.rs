//! Four-way set-associative caches with true-LRU replacement.
//!
//! The instruction cache holds lines of sixteen pre-decoded instructions and
//! a two-entry fast-path table of recently read block numbers; the data
//! cache holds lines of 64 raw bytes and little-endian write methods. Both
//! index a line by block number: the low eight bits select the set, the rest
//! form the tag.

use std::marker::PhantomData;

use vstd::prelude::*;

use crate::inst::Instruction;
use crate::mmu::lru::FourWay;
use crate::mmu::lru::FourWayLru;

verus! {

/// A line of sixteen pre-decoded instructions.
pub type InstructionCacheBlock = Vec<Instruction>;

/// A line of 64 raw bytes.
pub type DataCacheBlock = Vec<u8>;

/// The set a block number falls in: its low eight bits.
pub open spec fn set_of(number: u32) -> int {
    (number & 0xff) as int
}

/// The tag a block number carries: everything above the set index.
pub open spec fn tag_of_number(number: u32) -> u32 {
    number >> 8
}

/// The block number an instruction address falls in.
pub open spec fn number_of_address(address: u32) -> u32 {
    address >> 6
}

/// The word offset of an instruction address within its line.
pub open spec fn word_offset(address: u32) -> int {
    ((address >> 2) & 0xf) as int
}

/// The way at a given storage position of a set; positions run 0 to 3.
pub open spec fn way_from_index(w: int) -> FourWay {
    if w == 0 {
        FourWay::A
    } else if w == 1 {
        FourWay::B
    } else if w == 2 {
        FourWay::C
    } else {
        FourWay::D
    }
}

#[derive(Debug)]
/// A `(set, way)` coordinate handle into a cache; it stays valid until the
/// next insert evicts that way.
pub struct RawIndex<T> {
    set: u8,
    way: FourWay,
    _pd: PhantomData<T>,
}

impl<T> RawIndex<T> {
    /// The set this handle points into.
    pub closed spec fn set_spec(self) -> int {
        self.set as int
    }

    /// The way this handle points at.
    pub closed spec fn way_spec(self) -> FourWay {
        self.way
    }
}

impl<T> Clone for RawIndex<T> {
    fn clone(&self) -> (r: Self)
        ensures
            r == *self,
    {
        *self
    }
}

impl<T> Copy for RawIndex<T> {

}

/// A read-only instruction cache
pub struct InstructionCache<const ID: usize> {
    lut0: Option<(u32, RawIndex<InstructionCache<ID>>)>,
    lut1: Option<(u32, RawIndex<InstructionCache<ID>>)>,
    data: Vec<Vec<Instruction>>,
    tags: Vec<u32>,
    valid: Vec<bool>,
    lru_info: Vec<FourWayLru>,
}

impl<const ID: usize> InstructionCache<ID> {
    /// The instruction stored at a word offset of a line.
    pub closed spec fn entry(self, set: int, way: int, off: int) -> Instruction {
        self.data@[set * 4 + way]@[off]
    }

    /// The tag a way of a set holds.
    pub closed spec fn tag_at(self, set: int, way: int) -> u32 {
        self.tags@[set * 4 + way]
    }

    /// Whether a way of a set holds a line.
    pub closed spec fn valid_at(self, set: int, way: int) -> bool {
        self.valid@[set * 4 + way]
    }

    /// The recency order of a set.
    pub closed spec fn lru_at(self, set: int) -> FourWayLru {
        self.lru_info@[set]
    }

    /// Whether the cache holds the line of a block number.
    pub open spec fn has_block(self, number: u32) -> bool {
        exists|w: int|
            0 <= w < 4 && #[trigger] self.valid_at(set_of(number), w) && self.tag_at(
                set_of(number),
                w,
            ) == tag_of_number(number)
    }

    /// The way that holds the line of a block number.
    pub open spec fn way_of(self, number: u32) -> int {
        choose|w: int|
            0 <= w < 4 && #[trigger] self.valid_at(set_of(number), w) && self.tag_at(
                set_of(number),
                w,
            ) == tag_of_number(number)
    }

    /// What a read of an address returns: the offset-selected entry of the
    /// resident line, or nothing on a miss. The fast-path table does not
    /// appear here: it never changes what a read returns.
    pub open spec fn spec_read(self, address: u32) -> Option<Instruction> {
        let number = number_of_address(address);
        if self.has_block(number) {
            Some(self.entry(set_of(number), self.way_of(number), word_offset(address)))
        } else {
            None
        }
    }

    /// Both caches hold the same lines with the same contents.
    pub open spec fn same_contents(pre: Self, post: Self) -> bool {
        &&& forall|s: int, w: int|
            0 <= s < 256 && 0 <= w < 4 ==> #[trigger] post.tag_at(s, w) == pre.tag_at(s, w)
        &&& forall|s: int, w: int|
            0 <= s < 256 && 0 <= w < 4 ==> #[trigger] post.valid_at(s, w) == pre.valid_at(s, w)
        &&& forall|s: int, w: int, o: int|
            0 <= s < 256 && 0 <= w < 4 && 0 <= o < 16 ==> #[trigger] post.entry(s, w, o)
                == pre.entry(s, w, o)
    }

    /// A fast-path entry may only name a block whose line is resident at the
    /// position it points at.
    spec fn lut_entry_ok(self, e: Option<(u32, RawIndex<InstructionCache<ID>>)>) -> bool {
        match e {
            Some((n, idx)) => {
                &&& idx.set_spec() == set_of(n)
                &&& self.valid_at(set_of(n), idx.way_spec().index_spec())
                &&& self.tag_at(set_of(n), idx.way_spec().index_spec()) == tag_of_number(n)
            },
            None => true,
        }
    }

    /// No two valid ways of one set hold the same tag.
    pub open spec fn distinct_tags(self) -> bool {
        forall|s: int, w1: int, w2: int|
            0 <= s < 256 && 0 <= w1 < 4 && 0 <= w2 < 4 && w1 != w2 && #[trigger] self.valid_at(
                s,
                w1,
            ) && #[trigger] self.valid_at(s, w2) ==> self.tag_at(s, w1) != self.tag_at(s, w2)
    }

    /// Well-formedness: 256 sets of four ways of sixteen entries, a
    /// consistent fast path, and at most one way per set holding a given tag.
    pub closed spec fn wf(self) -> bool {
        &&& self.data@.len() == 1024
        &&& forall|i: int| 0 <= i < 1024 ==> #[trigger] self.data@[i]@.len() == 16
        &&& self.tags@.len() == 1024
        &&& self.valid@.len() == 1024
        &&& self.lru_info@.len() == 256
        &&& self.lut_entry_ok(self.lut0)
        &&& self.lut_entry_ok(self.lut1)
        &&& self.distinct_tags()
    }

    pub fn new() -> (r: Self)
        ensures
            r.wf(),
            forall|s: int, w: int| 0 <= s < 256 && 0 <= w < 4 ==> !#[trigger] r.valid_at(s, w),
            forall|s: int| 0 <= s < 256 ==> #[trigger] r.lru_at(s) == FourWayLru::ABCD,
            forall|n: u32| !r.has_block(n),
    {
        let mut data: Vec<Vec<Instruction>> = Vec::new();
        let mut i: usize = 0;
        while i < 1024
            invariant
                i <= 1024,
                data@.len() == i,
                forall|j: int| 0 <= j < i ==> #[trigger] data@[j]@.len() == 16,
            decreases 1024 - i,
        {
            let mut line: Vec<Instruction> = Vec::new();
            let mut k: usize = 0;
            while k < 16
                invariant
                    k <= 16,
                    line@.len() == k,
                decreases 16 - k,
            {
                line.push(Instruction::default());
                k = k + 1;
            }
            data.push(line);
            i = i + 1;
        }
        let mut tags: Vec<u32> = Vec::new();
        let mut valid: Vec<bool> = Vec::new();
        let mut j: usize = 0;
        while j < 1024
            invariant
                j <= 1024,
                tags@.len() == j,
                valid@.len() == j,
                forall|k: int| 0 <= k < j ==> !#[trigger] valid@[k],
            decreases 1024 - j,
        {
            tags.push(0);
            valid.push(false);
            j = j + 1;
        }
        let mut lru_info: Vec<FourWayLru> = Vec::new();
        let mut s: usize = 0;
        while s < 256
            invariant
                s <= 256,
                lru_info@.len() == s,
                forall|k: int| 0 <= k < s ==> #[trigger] lru_info@[k] == FourWayLru::ABCD,
            decreases 256 - s,
        {
            lru_info.push(FourWayLru::ABCD);
            s = s + 1;
        }
        let r = Self { lut0: None, lut1: None, data, tags, valid, lru_info };
        proof {
            assert forall|n: u32| !r.has_block(n) by {
                crate::bits::lemma_and_bound(n, 0xff);
            }
        }
        r
    }

    /// Scans the ways of the selected set for a valid line with the block's
    /// tag.
    fn has_block_number(&self, number: u32) -> (r: Option<RawIndex<InstructionCache<ID>>>)
        requires
            self.wf(),
        ensures
            r is Some <==> self.has_block(number),
            r is Some ==> {
                let idx = r->Some_0;
                &&& idx.set_spec() == set_of(number)
                &&& idx.way_spec().index_spec() == self.way_of(number)
            },
    {
        proof {
            crate::bits::lemma_and_bound(number, 0xff);
        }
        let set = (number & 0xff) as usize;
        let tag = number >> 8;
        let mut way: usize = 0;
        while way < 4
            invariant
                self.wf(),
                way <= 4,
                set <= 255,
                set == set_of(number),
                tag == tag_of_number(number),
                forall|w: int|
                    0 <= w < way ==> !(#[trigger] self.valid_at(set as int, w) && self.tag_at(
                        set as int,
                        w,
                    ) == tag),
            decreases 4 - way,
        {
            if self.tags[set * 4 + way] == tag && self.valid[set * 4 + way] {
                let fw = match FourWay::from_u32(way as u32) {
                    Some(fw) => fw,
                    None => unreached(),
                };
                let idx = RawIndex { set: set as u8, way: fw, _pd: PhantomData };
                proof {
                    lemma_iresident_way(*self, number, way as int);
                }
                return Some(idx);
            }
            way = way + 1;
        }
        None
    }

    /// Marks the line a handle points at as the most recently used of its
    /// set.
    fn touch_raw_index(&mut self, idx: RawIndex<InstructionCache<ID>>)
        requires
            old(self).wf(),
        ensures
            final(self).wf(),
            Self::same_contents(*old(self), *final(self)),
            final(self).lut0 == old(self).lut0,
            final(self).lut1 == old(self).lut1,
            final(self).lru_at(idx.set_spec()) == old(self).lru_at(idx.set_spec()).touched(
                idx.way_spec(),
            ),
            forall|s: int|
                0 <= s < 256 && s != idx.set_spec() ==> #[trigger] final(self).lru_at(s) == old(self).lru_at(s),
    {
        let set = idx.set as usize;
        let slot = &mut self.lru_info[set];
        slot.touch(idx.way);
        proof {
            lemma_icache_lru_only_wf(*old(self), *self);
        }
    }

    /// Reads out one entry of the line a handle points at, touching its LRU
    /// position.
    fn get_block_entry(&mut self, idx: RawIndex<InstructionCache<ID>>, offset: usize) -> (r:
        Instruction)
        requires
            old(self).wf(),
            offset < 16,
        ensures
            final(self).wf(),
            r == old(self).entry(idx.set_spec(), idx.way_spec().index_spec(), offset as int),
            Self::same_contents(*old(self), *final(self)),
            final(self).lut0 == old(self).lut0,
            final(self).lut1 == old(self).lut1,
            final(self).lru_at(idx.set_spec()) == old(self).lru_at(idx.set_spec()).touched(
                idx.way_spec(),
            ),
            forall|s: int|
                0 <= s < 256 && s != idx.set_spec() ==> #[trigger] final(self).lru_at(s) == old(self).lru_at(s),
    {
        let set = idx.set as usize;
        let way = idx.way.index();
        let slot = &mut self.lru_info[set];
        slot.touch(idx.way);
        proof {
            lemma_icache_lru_only_wf(*old(self), *self);
        }
        self.data[set * 4 + way][offset]
    }

    /// Looks an instruction address up: first in the two-entry fast path,
    /// then in the selected set. A hit touches the LRU state of its set and
    /// refreshes the fast path; the lines themselves never change, and the
    /// result is the same whether or not the fast path matched.
    pub fn read(&mut self, address: u32) -> (r: Option<Instruction>)
        requires
            old(self).wf(),
        ensures
            final(self).wf(),
            r == old(self).spec_read(address),
            Self::same_contents(*old(self), *final(self)),
            old(self).has_block(number_of_address(address)) ==> final(self).lru_at(
                set_of(number_of_address(address)),
            ) == old(self).lru_at(set_of(number_of_address(address))).touched(
                way_from_index(old(self).way_of(number_of_address(address))),
            ),
            forall|s: int|
                0 <= s < 256 && s != set_of(number_of_address(address)) ==> #[trigger] final(self).lru_at(s) == old(self).lru_at(s),
            !old(self).has_block(number_of_address(address)) ==> forall|s: int|
                0 <= s < 256 ==> #[trigger] final(self).lru_at(s) == old(self).lru_at(s),
    {
        proof {
            crate::bits::lemma_and_bound(address >> 2, 0xf);
        }
        let number = address >> 6;
        let offset = ((address >> 2) & 0xf) as usize;
        let ghost pre = *self;
        match self.lut0 {
            Some((n, idx)) => {
                if n == number {
                    proof {
                        lemma_iresident_way(pre, number, idx.way_spec().index_spec());
                        assert(way_from_index(idx.way_spec().index_spec()) == idx.way_spec());
                    }
                    return Some(self.get_block_entry(idx, offset));
                }
            },
            None => {},
        }
        match self.lut1 {
            Some((n, idx)) => {
                if n == number {
                    proof {
                        lemma_iresident_way(pre, number, idx.way_spec().index_spec());
                        assert(way_from_index(idx.way_spec().index_spec()) == idx.way_spec());
                    }
                    return Some(self.get_block_entry(idx, offset));
                }
            },
            None => {},
        }
        let idx = match self.has_block_number(number) {
            Some(idx) => idx,
            None => {
                return None;
            },
        };
        proof {
            assert(self.valid_at(set_of(number), self.way_of(number)) && self.tag_at(
                set_of(number),
                self.way_of(number),
            ) == tag_of_number(number));
        }
        self.lut1 = self.lut0;
        self.lut0 = Some((number, idx));
        proof {
            lemma_icache_same_dir_distinct(*old(self), *self);
            assert(self.wf());
            assert(way_from_index(idx.way_spec().index_spec()) == idx.way_spec());
        }
        Some(self.get_block_entry(idx, offset))
    }

    /// Installs a line for a block number. A block that is already resident
    /// is only touched; otherwise the line replaces the least recently used
    /// way of its set, which `replace` also touches. The returned handle
    /// stays valid until the next insert evicts that way.
    pub fn insert(&mut self, number: u32, block: InstructionCacheBlock) -> (idx: RawIndex<
        InstructionCache<ID>,
    >)
        requires
            old(self).wf(),
            block@.len() == 16,
        ensures
            final(self).wf(),
            idx.set_spec() == set_of(number),
            final(self).has_block(number),
            final(self).way_of(number) == idx.way_spec().index_spec(),
            old(self).has_block(number) ==> {
                &&& idx.way_spec().index_spec() == old(self).way_of(number)
                &&& Self::same_contents(*old(self), *final(self))
            },
            !old(self).has_block(number) ==> {
                let set = set_of(number);
                let victim = old(self).lru_at(set).rightmost();
                let v = victim.index_spec();
                &&& idx.way_spec() == victim
                &&& final(self).valid_at(set, v)
                &&& final(self).tag_at(set, v) == tag_of_number(number)
                &&& forall|o: int| 0 <= o < 16 ==> #[trigger] final(self).entry(set, v, o) == block@[o]
                &&& forall|s: int, w: int|
                    0 <= s < 256 && 0 <= w < 4 && !(s == set && w == v) ==> #[trigger] final(self).valid_at(s, w) == old(self).valid_at(s, w) && final(self).tag_at(s, w) == old(self).tag_at(s, w)
                &&& forall|s: int, w: int, o: int|
                    0 <= s < 256 && 0 <= w < 4 && 0 <= o < 16 && !(s == set && w == v)
                        ==> #[trigger] final(self).entry(s, w, o) == old(self).entry(s, w, o)
            },
            final(self).lru_at(set_of(number)) == old(self).lru_at(set_of(number)).touched(
                idx.way_spec(),
            ),
            forall|s: int|
                0 <= s < 256 && s != set_of(number) ==> #[trigger] final(self).lru_at(s) == old(self).lru_at(s),
    {
        proof {
            crate::bits::lemma_and_bound(number, 0xff);
        }
        match self.has_block_number(number) {
            Some(idx) => {
                self.touch_raw_index(idx);
                proof {
                    lemma_iresident_way(*self, number, idx.way_spec().index_spec());
                }
                return idx;
            },
            None => {},
        }

        let set = (number & 0xff) as usize;
        let tag = number >> 8;
        let lru = &mut self.lru_info[set];
        let way = lru.replace();
        let w = way.index();

        let line = &mut self.data[set * 4 + w];
        *line = block;
        let tslot = &mut self.tags[set * 4 + w];
        *tslot = tag;
        let vslot = &mut self.valid[set * 4 + w];
        *vslot = true;

        // A stale fast-path entry must not outlive the line it points at.
        match self.lut0 {
            Some((_, lidx)) => {
                if lidx.set as usize == set && lidx.way.index() == w {
                    self.lut0 = None;
                }
            },
            None => {},
        }
        match self.lut1 {
            Some((_, lidx)) => {
                if lidx.set as usize == set && lidx.way.index() == w {
                    self.lut1 = None;
                }
            },
            None => {},
        }

        let idx = RawIndex { set: set as u8, way, _pd: PhantomData };
        proof {
            let pre = *old(self);
            assert forall|s: int, w1: int, w2: int|
                0 <= s < 256 && 0 <= w1 < 4 && 0 <= w2 < 4 && w1 != w2 && #[trigger] self.valid_at(
                    s,
                    w1,
                ) && #[trigger] self.valid_at(s, w2) implies self.tag_at(s, w1) != self.tag_at(
                s,
                w2,
            ) by {
                if s == set as int && w1 == w as int {
                    assert(pre.valid_at(s, w2));
                } else if s == set as int && w2 == w as int {
                    assert(pre.valid_at(s, w1));
                } else {
                    assert(pre.valid_at(s, w1));
                    assert(pre.valid_at(s, w2));
                }
            }
            assert(self.wf());
            assert(way_from_index(w as int) == way);
            lemma_iresident_way(*self, number, w as int);
        }
        idx
    }
}

impl<const ID: usize> Default for InstructionCache<ID> {
    fn default() -> (r: Self)
        ensures
            r.wf(),
            forall|n: u32| !r.has_block(n),
    {
        Self::new()
    }
}

/// A cache keeps its tags distinct while its directory is unchanged.
proof fn lemma_icache_same_dir_distinct<const ID: usize>(
    pre: InstructionCache<ID>,
    post: InstructionCache<ID>,
)
    requires
        pre.distinct_tags(),
        post.tags == pre.tags,
        post.valid == pre.valid,
    ensures
        post.distinct_tags(),
{
    assert forall|s: int, w1: int, w2: int|
        0 <= s < 256 && 0 <= w1 < 4 && 0 <= w2 < 4 && w1 != w2 && #[trigger] post.valid_at(s, w1)
            && #[trigger] post.valid_at(s, w2) implies post.tag_at(s, w1) != post.tag_at(
        s,
        w2,
    ) by {
        assert(pre.valid_at(s, w1));
        assert(pre.valid_at(s, w2));
    }
}

/// A cache whose fast path and directory are unchanged keeps its
/// well-formedness when only the recency state changes.
proof fn lemma_icache_lru_only_wf<const ID: usize>(
    pre: InstructionCache<ID>,
    post: InstructionCache<ID>,
)
    requires
        pre.wf(),
        post.lut0 == pre.lut0,
        post.lut1 == pre.lut1,
        post.data == pre.data,
        post.tags == pre.tags,
        post.valid == pre.valid,
        post.lru_info@.len() == pre.lru_info@.len(),
    ensures
        post.wf(),
        InstructionCache::same_contents(pre, post),
{
    assert forall|s: int, w1: int, w2: int|
        0 <= s < 256 && 0 <= w1 < 4 && 0 <= w2 < 4 && w1 != w2 && #[trigger] post.valid_at(s, w1)
            && #[trigger] post.valid_at(s, w2) implies post.tag_at(s, w1) != post.tag_at(
        s,
        w2,
    ) by {
        assert(pre.valid_at(s, w1));
        assert(pre.valid_at(s, w2));
    }
}

/// In an instruction cache with distinct tags, a valid way holding a block's
/// tag is the unique way `way_of` selects for that block.
proof fn lemma_iresident_way<const ID: usize>(c: InstructionCache<ID>, number: u32, w: int)
    requires
        0 <= w < 4,
        c.valid_at(set_of(number), w),
        c.tag_at(set_of(number), w) == tag_of_number(number),
        c.distinct_tags(),
    ensures
        c.has_block(number),
        c.way_of(number) == w,
{
    crate::bits::lemma_and_bound(number, 0xff);
    assert(c.has_block(number));
    let chosen = c.way_of(number);
    assert(0 <= chosen < 4 && c.valid_at(set_of(number), chosen) && c.tag_at(
        set_of(number),
        chosen,
    ) == tag_of_number(number));
}

/// What an instruction cache returns for a read depends on its directory and
/// line contents alone; the fast-path table never shows: two caches that
/// agree on lines agree on every read.
pub proof fn lemma_read_transparent<const ID: usize>(
    c1: InstructionCache<ID>,
    c2: InstructionCache<ID>,
    address: u32,
)
    requires
        c1.distinct_tags(),
        InstructionCache::same_contents(c1, c2),
    ensures
        c1.spec_read(address) == c2.spec_read(address),
{
    let n = number_of_address(address);
    crate::bits::lemma_and_bound(n, 0xff);
    if c1.has_block(n) {
        let w = c1.way_of(n);
        assert(0 <= w < 4 && c1.valid_at(set_of(n), w) && c1.tag_at(set_of(n), w)
            == tag_of_number(n));
        assert(c2.valid_at(set_of(n), w) && c2.tag_at(set_of(n), w) == tag_of_number(n));
        assert(c2.has_block(n));
        let w2 = c2.way_of(n);
        assert(0 <= w2 < 4 && c2.valid_at(set_of(n), w2) && c2.tag_at(set_of(n), w2)
            == tag_of_number(n));
        assert(c1.valid_at(set_of(n), w2) && c1.tag_at(set_of(n), w2) == tag_of_number(n));
        lemma_iresident_way(c1, n, w2);
        crate::bits::lemma_and_bound(address >> 2, 0xf);
    } else {
        assert(!c2.has_block(n)) by {
            if c2.has_block(n) {
                let w = c2.way_of(n);
                assert(0 <= w < 4 && c2.valid_at(set_of(n), w) && c2.tag_at(set_of(n), w)
                    == tag_of_number(n));
                assert(c1.valid_at(set_of(n), w) && c1.tag_at(set_of(n), w) == tag_of_number(n));
            }
        }
    }
}

/// Reading any address of a resident block returns that block's entry at the
/// address's word offset: with the postcondition of `insert`, a block just
/// inserted is read back entry for entry until something evicts it.
pub proof fn lemma_read_after_insert<const ID: usize>(
    c: InstructionCache<ID>,
    number: u32,
    block: Seq<Instruction>,
    address: u32,
)
    requires
        c.has_block(number),
        forall|o: int| 0 <= o < 16 ==> #[trigger] c.entry(set_of(number), c.way_of(number), o)
            == block[o],
        number_of_address(address) == number,
    ensures
        c.spec_read(address) == Some(block[word_offset(address)]),
{
    crate::bits::lemma_and_bound(address >> 2, 0xf);
}

/// A read/write data cache
pub struct DataCache<const ID: usize> {
    data: Vec<Vec<u8>>,
    tags: Vec<u32>,
    valid: Vec<bool>,
    lru_info: Vec<FourWayLru>,
}

impl<const ID: usize> DataCache<ID> {
    /// The byte stored at an offset of a line.
    pub closed spec fn byte_at(self, set: int, way: int, off: int) -> u8 {
        self.data@[set * 4 + way]@[off]
    }

    /// The bytes of a line.
    pub closed spec fn line_at(self, set: int, way: int) -> Seq<u8> {
        self.data@[set * 4 + way]@
    }

    /// The tag a way of a set holds.
    pub closed spec fn tag_at(self, set: int, way: int) -> u32 {
        self.tags@[set * 4 + way]
    }

    /// Whether a way of a set holds a line.
    pub closed spec fn valid_at(self, set: int, way: int) -> bool {
        self.valid@[set * 4 + way]
    }

    /// The recency order of a set.
    pub closed spec fn lru_at(self, set: int) -> FourWayLru {
        self.lru_info@[set]
    }

    /// Whether the cache holds the line of a block number.
    pub open spec fn has_block(self, number: u32) -> bool {
        exists|w: int|
            0 <= w < 4 && #[trigger] self.valid_at(set_of(number), w) && self.tag_at(
                set_of(number),
                w,
            ) == tag_of_number(number)
    }

    /// The way that holds the line of a block number.
    pub open spec fn way_of(self, number: u32) -> int {
        choose|w: int|
            0 <= w < 4 && #[trigger] self.valid_at(set_of(number), w) && self.tag_at(
                set_of(number),
                w,
            ) == tag_of_number(number)
    }

    /// Both caches hold the same lines with the same contents.
    pub open spec fn same_contents(pre: Self, post: Self) -> bool {
        &&& forall|s: int, w: int|
            0 <= s < 256 && 0 <= w < 4 ==> #[trigger] post.tag_at(s, w) == pre.tag_at(s, w)
        &&& forall|s: int, w: int|
            0 <= s < 256 && 0 <= w < 4 ==> #[trigger] post.valid_at(s, w) == pre.valid_at(s, w)
        &&& forall|s: int, w: int|
            0 <= s < 256 && 0 <= w < 4 ==> #[trigger] post.line_at(s, w) == pre.line_at(s, w)
    }

    /// No two valid ways of one set hold the same tag.
    pub open spec fn distinct_tags(self) -> bool {
        forall|s: int, w1: int, w2: int|
            0 <= s < 256 && 0 <= w1 < 4 && 0 <= w2 < 4 && w1 != w2 && #[trigger] self.valid_at(
                s,
                w1,
            ) && #[trigger] self.valid_at(s, w2) ==> self.tag_at(s, w1) != self.tag_at(s, w2)
    }

    /// Well-formedness: 256 sets of four ways of 64 bytes, and at most one
    /// way per set holding a given tag.
    pub closed spec fn wf(self) -> bool {
        &&& self.data@.len() == 1024
        &&& forall|i: int| 0 <= i < 1024 ==> #[trigger] self.data@[i]@.len() == 64
        &&& self.tags@.len() == 1024
        &&& self.valid@.len() == 1024
        &&& self.lru_info@.len() == 256
        &&& self.distinct_tags()
    }

    pub fn new() -> (r: Self)
        ensures
            r.wf(),
            forall|s: int, w: int| 0 <= s < 256 && 0 <= w < 4 ==> !#[trigger] r.valid_at(s, w),
            forall|s: int| 0 <= s < 256 ==> #[trigger] r.lru_at(s) == FourWayLru::ABCD,
            forall|n: u32| !r.has_block(n),
    {
        let mut data: Vec<Vec<u8>> = Vec::new();
        let mut i: usize = 0;
        while i < 1024
            invariant
                i <= 1024,
                data@.len() == i,
                forall|j: int| 0 <= j < i ==> #[trigger] data@[j]@.len() == 64,
            decreases 1024 - i,
        {
            let mut line: Vec<u8> = Vec::new();
            let mut k: usize = 0;
            while k < 64
                invariant
                    k <= 64,
                    line@.len() == k,
                decreases 64 - k,
            {
                line.push(0);
                k = k + 1;
            }
            data.push(line);
            i = i + 1;
        }
        let mut tags: Vec<u32> = Vec::new();
        let mut valid: Vec<bool> = Vec::new();
        let mut j: usize = 0;
        while j < 1024
            invariant
                j <= 1024,
                tags@.len() == j,
                valid@.len() == j,
                forall|k: int| 0 <= k < j ==> !#[trigger] valid@[k],
            decreases 1024 - j,
        {
            tags.push(0);
            valid.push(false);
            j = j + 1;
        }
        let mut lru_info: Vec<FourWayLru> = Vec::new();
        let mut s: usize = 0;
        while s < 256
            invariant
                s <= 256,
                lru_info@.len() == s,
                forall|k: int| 0 <= k < s ==> #[trigger] lru_info@[k] == FourWayLru::ABCD,
            decreases 256 - s,
        {
            lru_info.push(FourWayLru::ABCD);
            s = s + 1;
        }
        let r = Self { data, tags, valid, lru_info };
        proof {
            assert forall|n: u32| !r.has_block(n) by {
                crate::bits::lemma_and_bound(n, 0xff);
            }
        }
        r
    }

    /// Scans the ways of the selected set for a valid line with the block's
    /// tag.
    fn has_block_number(&self, number: u32) -> (r: Option<RawIndex<DataCache<ID>>>)
        requires
            self.wf(),
        ensures
            r is Some <==> self.has_block(number),
            r is Some ==> {
                let idx = r->Some_0;
                &&& idx.set_spec() == set_of(number)
                &&& idx.way_spec().index_spec() == self.way_of(number)
            },
    {
        proof {
            crate::bits::lemma_and_bound(number, 0xff);
        }
        let set = (number & 0xff) as usize;
        let tag = number >> 8;
        let mut way: usize = 0;
        while way < 4
            invariant
                self.wf(),
                way <= 4,
                set <= 255,
                set == set_of(number),
                tag == tag_of_number(number),
                forall|w: int|
                    0 <= w < way ==> !(#[trigger] self.valid_at(set as int, w) && self.tag_at(
                        set as int,
                        w,
                    ) == tag),
            decreases 4 - way,
        {
            if self.tags[set * 4 + way] == tag && self.valid[set * 4 + way] {
                let fw = match FourWay::from_u32(way as u32) {
                    Some(fw) => fw,
                    None => unreached(),
                };
                let idx = RawIndex { set: set as u8, way: fw, _pd: PhantomData };
                proof {
                    lemma_dresident_way(*self, number, way as int);
                }
                return Some(idx);
            }
            way = way + 1;
        }
        None
    }

    /// Marks the line a handle points at as the most recently used of its
    /// set.
    fn touch_raw_index(&mut self, idx: RawIndex<DataCache<ID>>)
        requires
            old(self).wf(),
        ensures
            final(self).wf(),
            Self::same_contents(*old(self), *final(self)),
            final(self).lru_at(idx.set_spec()) == old(self).lru_at(idx.set_spec()).touched(
                idx.way_spec(),
            ),
            forall|s: int|
                0 <= s < 256 && s != idx.set_spec() ==> #[trigger] final(self).lru_at(s) == old(self).lru_at(s),
    {
        let set = idx.set as usize;
        let slot = &mut self.lru_info[set];
        slot.touch(idx.way);
        proof {
            lemma_dcache_lru_only_wf(*old(self), *self);
        }
    }

    /// Hands out the line of a block number, if the cache holds it, touching
    /// its LRU position.
    pub fn get_block_by_number(&mut self, number: u32) -> (r: Option<&DataCacheBlock>)
        requires
            old(self).wf(),
        ensures
            final(self).wf(),
            Self::same_contents(*old(self), *final(self)),
            r is Some <==> old(self).has_block(number),
            r is Some ==> r->Some_0@ == old(self).line_at(set_of(number), old(self).way_of(number)),
            old(self).has_block(number) ==> final(self).lru_at(set_of(number)) == old(self).lru_at(
                set_of(number),
            ).touched(way_from_index(old(self).way_of(number))),
            forall|s: int|
                0 <= s < 256 && s != set_of(number) ==> #[trigger] final(self).lru_at(s) == old(self).lru_at(s),
            !old(self).has_block(number) ==> forall|s: int|
                0 <= s < 256 ==> #[trigger] final(self).lru_at(s) == old(self).lru_at(s),
    {
        let idx = match self.has_block_number(number) {
            Some(idx) => idx,
            None => {
                return None;
            },
        };
        proof {
            assert(way_from_index(idx.way_spec().index_spec()) == idx.way_spec());
        }
        Some(self.get_block_by_raw_index(idx))
    }

    /// Hands out the line a handle points at, touching its LRU position.
    pub fn get_block_by_raw_index(&mut self, idx: RawIndex<DataCache<ID>>) -> (r: &DataCacheBlock)
        requires
            old(self).wf(),
        ensures
            final(self).wf(),
            Self::same_contents(*old(self), *final(self)),
            r@ == old(self).line_at(idx.set_spec(), idx.way_spec().index_spec()),
            final(self).lru_at(idx.set_spec()) == old(self).lru_at(idx.set_spec()).touched(
                idx.way_spec(),
            ),
            forall|s: int|
                0 <= s < 256 && s != idx.set_spec() ==> #[trigger] final(self).lru_at(s) == old(self).lru_at(s),
    {
        let set = idx.set as usize;
        let way = idx.way.index();
        let slot = &mut self.lru_info[set];
        slot.touch(idx.way);
        proof {
            lemma_dcache_lru_only_wf(*old(self), *self);
        }
        &self.data[set * 4 + way]
    }

    /// Writes one byte of the line a handle points at.
    pub fn write_byte_with_raw_index(&mut self, idx: RawIndex<DataCache<ID>>, offset: usize, byte: u8)
        requires
            old(self).wf(),
            offset < 64,
        ensures
            final(self).wf(),
            final(self).byte_at(idx.set_spec(), idx.way_spec().index_spec(), offset as int) == byte,
            forall|s: int, w: int, o: int|
                0 <= s < 256 && 0 <= w < 4 && 0 <= o < 64 && !(s == idx.set_spec() && w
                    == idx.way_spec().index_spec() && o == offset as int) ==> #[trigger] final(self).byte_at(s, w, o) == old(self).byte_at(s, w, o),
            forall|s: int, w: int|
                0 <= s < 256 && 0 <= w < 4 ==> #[trigger] final(self).tag_at(s, w) == old(self).tag_at(s, w),
            forall|s: int, w: int|
                0 <= s < 256 && 0 <= w < 4 ==> #[trigger] final(self).valid_at(s, w) == old(self).valid_at(s, w),
            forall|s: int|
                0 <= s < 256 ==> #[trigger] final(self).lru_at(s) == old(self).lru_at(s),
    {
        let set = idx.set as usize;
        let way = idx.way.index();
        let line = &mut self.data[set * 4 + way];
        let slot = &mut line[offset];
        *slot = byte;
        proof {
            lemma_dcache_same_dir_distinct(*old(self), *self);
        }
    }

    /// Writes a half word, little-endian, at an even offset of the line a
    /// handle points at.
    pub fn write_half_word_with_raw_index(
        &mut self,
        idx: RawIndex<DataCache<ID>>,
        offset: usize,
        half_word: u16,
    )
        requires
            old(self).wf(),
            offset < 64,
            offset % 2 == 0,
        ensures
            final(self).wf(),
            final(self).byte_at(idx.set_spec(), idx.way_spec().index_spec(), offset as int) as int
                == half_word as int % 256,
            final(self).byte_at(idx.set_spec(), idx.way_spec().index_spec(), offset as int + 1) as int
                == half_word as int / 256,
            forall|s: int, w: int, o: int|
                0 <= s < 256 && 0 <= w < 4 && 0 <= o < 64 && !(s == idx.set_spec() && w
                    == idx.way_spec().index_spec() && (o == offset as int || o == offset as int + 1))
                    ==> #[trigger] final(self).byte_at(s, w, o) == old(self).byte_at(s, w, o),
            forall|s: int, w: int|
                0 <= s < 256 && 0 <= w < 4 ==> #[trigger] final(self).tag_at(s, w) == old(self).tag_at(s, w),
            forall|s: int, w: int|
                0 <= s < 256 && 0 <= w < 4 ==> #[trigger] final(self).valid_at(s, w) == old(self).valid_at(s, w),
            forall|s: int|
                0 <= s < 256 ==> #[trigger] final(self).lru_at(s) == old(self).lru_at(s),
    {
        proof {
            crate::bits::lemma_u16_le_bytes(half_word);
        }
        let set = idx.set as usize;
        let way = idx.way.index();
        let line = &mut self.data[set * 4 + way];
        let lo = &mut line[offset];
        *lo = (half_word & 0xff) as u8;
        let hi = &mut line[offset + 1];
        *hi = (half_word >> 8) as u8;
        proof {
            lemma_dcache_same_dir_distinct(*old(self), *self);
        }
    }

    /// Writes a word, little-endian, at a four-byte-aligned offset of the
    /// line a handle points at.
    pub fn write_word_with_raw_index(
        &mut self,
        idx: RawIndex<DataCache<ID>>,
        offset: usize,
        word: u32,
    )
        requires
            old(self).wf(),
            offset < 64,
            offset % 4 == 0,
        ensures
            final(self).wf(),
            final(self).byte_at(idx.set_spec(), idx.way_spec().index_spec(), offset as int) as int
                == word as int % 256,
            final(self).byte_at(idx.set_spec(), idx.way_spec().index_spec(), offset as int + 1) as int
                == (word as int / 256) % 256,
            final(self).byte_at(idx.set_spec(), idx.way_spec().index_spec(), offset as int + 2) as int
                == (word as int / 65536) % 256,
            final(self).byte_at(idx.set_spec(), idx.way_spec().index_spec(), offset as int + 3) as int
                == word as int / 16777216,
            forall|s: int, w: int, o: int|
                0 <= s < 256 && 0 <= w < 4 && 0 <= o < 64 && !(s == idx.set_spec() && w
                    == idx.way_spec().index_spec() && offset as int <= o < offset as int + 4)
                    ==> #[trigger] final(self).byte_at(s, w, o) == old(self).byte_at(s, w, o),
            forall|s: int, w: int|
                0 <= s < 256 && 0 <= w < 4 ==> #[trigger] final(self).tag_at(s, w) == old(self).tag_at(s, w),
            forall|s: int, w: int|
                0 <= s < 256 && 0 <= w < 4 ==> #[trigger] final(self).valid_at(s, w) == old(self).valid_at(s, w),
            forall|s: int|
                0 <= s < 256 ==> #[trigger] final(self).lru_at(s) == old(self).lru_at(s),
    {
        proof {
            crate::bits::lemma_u32_le_bytes(word);
        }
        let set = idx.set as usize;
        let way = idx.way.index();
        let line = &mut self.data[set * 4 + way];
        let b0 = &mut line[offset];
        *b0 = (word & 0xff) as u8;
        let b1 = &mut line[offset + 1];
        *b1 = ((word >> 8) & 0xff) as u8;
        let b2 = &mut line[offset + 2];
        *b2 = ((word >> 16) & 0xff) as u8;
        let b3 = &mut line[offset + 3];
        *b3 = (word >> 24) as u8;
        proof {
            lemma_dcache_same_dir_distinct(*old(self), *self);
        }
    }

    /// Installs a line for a block number. A block that is already resident
    /// is only touched; otherwise the line replaces the least recently used
    /// way of its set, which `replace` also touches.
    pub fn insert_block(&mut self, number: u32, block: DataCacheBlock) -> (idx: RawIndex<
        DataCache<ID>,
    >)
        requires
            old(self).wf(),
            block@.len() == 64,
        ensures
            final(self).wf(),
            idx.set_spec() == set_of(number),
            final(self).has_block(number),
            final(self).way_of(number) == idx.way_spec().index_spec(),
            old(self).has_block(number) ==> {
                &&& idx.way_spec().index_spec() == old(self).way_of(number)
                &&& Self::same_contents(*old(self), *final(self))
            },
            !old(self).has_block(number) ==> {
                let set = set_of(number);
                let victim = old(self).lru_at(set).rightmost();
                let v = victim.index_spec();
                &&& idx.way_spec() == victim
                &&& final(self).valid_at(set, v)
                &&& final(self).tag_at(set, v) == tag_of_number(number)
                &&& final(self).line_at(set, v) == block@
                &&& forall|s: int, w: int|
                    0 <= s < 256 && 0 <= w < 4 && !(s == set && w == v) ==> #[trigger] final(self).valid_at(s, w) == old(self).valid_at(s, w) && final(self).tag_at(s, w) == old(self).tag_at(s, w)
                &&& forall|s: int, w: int|
                    0 <= s < 256 && 0 <= w < 4 && !(s == set && w == v) ==> #[trigger] final(self).line_at(s, w) == old(self).line_at(s, w)
            },
            final(self).lru_at(set_of(number)) == old(self).lru_at(set_of(number)).touched(
                idx.way_spec(),
            ),
            forall|s: int|
                0 <= s < 256 && s != set_of(number) ==> #[trigger] final(self).lru_at(s) == old(self).lru_at(s),
    {
        proof {
            crate::bits::lemma_and_bound(number, 0xff);
        }
        match self.has_block_number(number) {
            Some(idx) => {
                self.touch_raw_index(idx);
                proof {
                    lemma_dresident_way(*self, number, idx.way_spec().index_spec());
                }
                return idx;
            },
            None => {},
        }

        let set = (number & 0xff) as usize;
        let tag = number >> 8;
        let lru = &mut self.lru_info[set];
        let way = lru.replace();
        let w = way.index();

        let line = &mut self.data[set * 4 + w];
        *line = block;
        let tslot = &mut self.tags[set * 4 + w];
        *tslot = tag;
        let vslot = &mut self.valid[set * 4 + w];
        *vslot = true;

        let idx = RawIndex { set: set as u8, way, _pd: PhantomData };
        proof {
            let pre = *old(self);
            assert forall|s: int, w1: int, w2: int|
                0 <= s < 256 && 0 <= w1 < 4 && 0 <= w2 < 4 && w1 != w2 && #[trigger] self.valid_at(
                    s,
                    w1,
                ) && #[trigger] self.valid_at(s, w2) implies self.tag_at(s, w1) != self.tag_at(
                s,
                w2,
            ) by {
                if s == set as int && w1 == w as int {
                    assert(pre.valid_at(s, w2));
                } else if s == set as int && w2 == w as int {
                    assert(pre.valid_at(s, w1));
                } else {
                    assert(pre.valid_at(s, w1));
                    assert(pre.valid_at(s, w2));
                }
            }
            assert(self.wf());
            assert(way_from_index(w as int) == way);
            lemma_dresident_way(*self, number, w as int);
        }
        idx
    }
}

impl<const ID: usize> Default for DataCache<ID> {
    fn default() -> (r: Self)
        ensures
            r.wf(),
            forall|n: u32| !r.has_block(n),
    {
        Self::new()
    }
}

/// A data cache keeps its tags distinct while its directory is unchanged.
proof fn lemma_dcache_same_dir_distinct<const ID: usize>(pre: DataCache<ID>, post: DataCache<ID>)
    requires
        pre.distinct_tags(),
        post.tags == pre.tags,
        post.valid == pre.valid,
    ensures
        post.distinct_tags(),
{
    assert forall|s: int, w1: int, w2: int|
        0 <= s < 256 && 0 <= w1 < 4 && 0 <= w2 < 4 && w1 != w2 && #[trigger] post.valid_at(s, w1)
            && #[trigger] post.valid_at(s, w2) implies post.tag_at(s, w1) != post.tag_at(
        s,
        w2,
    ) by {
        assert(pre.valid_at(s, w1));
        assert(pre.valid_at(s, w2));
    }
}

/// A data cache whose directory is unchanged keeps its well-formedness when
/// only the recency state changes.
proof fn lemma_dcache_lru_only_wf<const ID: usize>(pre: DataCache<ID>, post: DataCache<ID>)
    requires
        pre.wf(),
        post.data == pre.data,
        post.tags == pre.tags,
        post.valid == pre.valid,
        post.lru_info@.len() == pre.lru_info@.len(),
    ensures
        post.wf(),
        DataCache::same_contents(pre, post),
{
    lemma_dcache_same_dir_distinct(pre, post);
}

/// In a data cache with distinct tags, a valid way holding a block's tag is
/// the unique way `way_of` selects for that block.
proof fn lemma_dresident_way<const ID: usize>(c: DataCache<ID>, number: u32, w: int)
    requires
        0 <= w < 4,
        c.valid_at(set_of(number), w),
        c.tag_at(set_of(number), w) == tag_of_number(number),
        c.distinct_tags(),
    ensures
        c.has_block(number),
        c.way_of(number) == w,
{
    crate::bits::lemma_and_bound(number, 0xff);
    assert(c.has_block(number));
    let chosen = c.way_of(number);
    assert(0 <= chosen < 4 && c.valid_at(set_of(number), chosen) && c.tag_at(
        set_of(number),
        chosen,
    ) == tag_of_number(number));
}

} // verus!
