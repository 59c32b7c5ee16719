//! True-LRU state over four ways, as one of the 24 permutations.
//!
//! The most recently used way stands leftmost in the order; `replace`
//! victimises the rightmost way and then touches it.

use vstd::prelude::*;

verus! {

#[derive(Copy, Clone, Debug, PartialEq, Eq, Structural)]
/// One of the four ways of a cache set.
pub enum FourWay {
    A,
    B,
    C,
    D,
}

impl FourWay {
    /// The way's position within a set's storage.
    pub open spec fn index_spec(self) -> int {
        match self {
            FourWay::A => 0,
            FourWay::B => 1,
            FourWay::C => 2,
            FourWay::D => 3,
        }
    }

    /// The way at a given storage position, if the position names one.
    pub open spec fn spec_from(n: u32) -> Option<FourWay> {
        match n {
            0 => Some(FourWay::A),
            1 => Some(FourWay::B),
            2 => Some(FourWay::C),
            3 => Some(FourWay::D),
            _ => None,
        }
    }

    pub fn index(&self) -> (i: usize)
        ensures
            i == self.index_spec(),
    {
        match self {
            FourWay::A => 0,
            FourWay::B => 1,
            FourWay::C => 2,
            FourWay::D => 3,
        }
    }

    pub fn from_u32(n: u32) -> (r: Option<Self>)
        ensures
            r == Self::spec_from(n),
    {
        let way = match n {
            0 => FourWay::A,
            1 => FourWay::B,
            2 => FourWay::C,
            3 => FourWay::D,
            _ => {
                return None;
            },
        };
        Some(way)
    }
}

#[derive(Copy, Clone, Debug, PartialEq, Eq, Structural)]
#[allow(clippy::upper_case_acronyms)]
/// A recency order over the four ways, most recently used first.
pub enum FourWayLru {
    ABCD,
    ABDC,
    ACBD,
    ACDB,
    ADBC,
    ADCB,
    BACD,
    BADC,
    BCAD,
    BCDA,
    BDAC,
    BDCA,
    CABD,
    CADB,
    CBAD,
    CBDA,
    CDAB,
    CDBA,
    DABC,
    DACB,
    DBAC,
    DBCA,
    DCAB,
    DCBA,
}

impl FourWayLru {
    /// The permutation this state denotes, most recently used first.
    pub open spec fn order(self) -> Seq<FourWay> {
        match self {
            FourWayLru::ABCD => seq![FourWay::A, FourWay::B, FourWay::C, FourWay::D],
            FourWayLru::ABDC => seq![FourWay::A, FourWay::B, FourWay::D, FourWay::C],
            FourWayLru::ACBD => seq![FourWay::A, FourWay::C, FourWay::B, FourWay::D],
            FourWayLru::ACDB => seq![FourWay::A, FourWay::C, FourWay::D, FourWay::B],
            FourWayLru::ADBC => seq![FourWay::A, FourWay::D, FourWay::B, FourWay::C],
            FourWayLru::ADCB => seq![FourWay::A, FourWay::D, FourWay::C, FourWay::B],
            FourWayLru::BACD => seq![FourWay::B, FourWay::A, FourWay::C, FourWay::D],
            FourWayLru::BADC => seq![FourWay::B, FourWay::A, FourWay::D, FourWay::C],
            FourWayLru::BCAD => seq![FourWay::B, FourWay::C, FourWay::A, FourWay::D],
            FourWayLru::BCDA => seq![FourWay::B, FourWay::C, FourWay::D, FourWay::A],
            FourWayLru::BDAC => seq![FourWay::B, FourWay::D, FourWay::A, FourWay::C],
            FourWayLru::BDCA => seq![FourWay::B, FourWay::D, FourWay::C, FourWay::A],
            FourWayLru::CABD => seq![FourWay::C, FourWay::A, FourWay::B, FourWay::D],
            FourWayLru::CADB => seq![FourWay::C, FourWay::A, FourWay::D, FourWay::B],
            FourWayLru::CBAD => seq![FourWay::C, FourWay::B, FourWay::A, FourWay::D],
            FourWayLru::CBDA => seq![FourWay::C, FourWay::B, FourWay::D, FourWay::A],
            FourWayLru::CDAB => seq![FourWay::C, FourWay::D, FourWay::A, FourWay::B],
            FourWayLru::CDBA => seq![FourWay::C, FourWay::D, FourWay::B, FourWay::A],
            FourWayLru::DABC => seq![FourWay::D, FourWay::A, FourWay::B, FourWay::C],
            FourWayLru::DACB => seq![FourWay::D, FourWay::A, FourWay::C, FourWay::B],
            FourWayLru::DBAC => seq![FourWay::D, FourWay::B, FourWay::A, FourWay::C],
            FourWayLru::DBCA => seq![FourWay::D, FourWay::B, FourWay::C, FourWay::A],
            FourWayLru::DCAB => seq![FourWay::D, FourWay::C, FourWay::A, FourWay::B],
            FourWayLru::DCBA => seq![FourWay::D, FourWay::C, FourWay::B, FourWay::A],
        }
    }

    /// The position of a way in the recency order; zero is most recent.
    pub open spec fn rank(self, w: FourWay) -> int {
        if self.order()[0] == w {
            0
        } else if self.order()[1] == w {
            1
        } else if self.order()[2] == w {
            2
        } else {
            3
        }
    }

    /// The least recently used way: the rightmost of the order.
    pub open spec fn rightmost(self) -> FourWay {
        self.order()[3]
    }

    /// The transition table: the state after a way is used. The used way
    /// moves leftmost and the other three keep their relative order.
    pub open spec fn touched(self, way: FourWay) -> FourWayLru {
        match (way, self) {
            (FourWay::A, FourWayLru::BACD) => FourWayLru::ABCD,
            (FourWay::A, FourWayLru::BADC) => FourWayLru::ABDC,
            (FourWay::A, FourWayLru::BCAD) => FourWayLru::ABCD,
            (FourWay::A, FourWayLru::BCDA) => FourWayLru::ABCD,
            (FourWay::A, FourWayLru::BDAC) => FourWayLru::ABDC,
            (FourWay::A, FourWayLru::BDCA) => FourWayLru::ABDC,
            (FourWay::A, FourWayLru::CABD) => FourWayLru::ACBD,
            (FourWay::A, FourWayLru::CADB) => FourWayLru::ACDB,
            (FourWay::A, FourWayLru::CBAD) => FourWayLru::ACBD,
            (FourWay::A, FourWayLru::CBDA) => FourWayLru::ACBD,
            (FourWay::A, FourWayLru::CDAB) => FourWayLru::ACDB,
            (FourWay::A, FourWayLru::CDBA) => FourWayLru::ACDB,
            (FourWay::A, FourWayLru::DABC) => FourWayLru::ADBC,
            (FourWay::A, FourWayLru::DACB) => FourWayLru::ADCB,
            (FourWay::A, FourWayLru::DBAC) => FourWayLru::ADBC,
            (FourWay::A, FourWayLru::DBCA) => FourWayLru::ADBC,
            (FourWay::A, FourWayLru::DCAB) => FourWayLru::ADCB,
            (FourWay::A, FourWayLru::DCBA) => FourWayLru::ADCB,
            (FourWay::B, FourWayLru::ABCD) => FourWayLru::BACD,
            (FourWay::B, FourWayLru::ABDC) => FourWayLru::BADC,
            (FourWay::B, FourWayLru::ACBD) => FourWayLru::BACD,
            (FourWay::B, FourWayLru::ACDB) => FourWayLru::BACD,
            (FourWay::B, FourWayLru::ADBC) => FourWayLru::BADC,
            (FourWay::B, FourWayLru::ADCB) => FourWayLru::BADC,
            (FourWay::B, FourWayLru::CABD) => FourWayLru::BCAD,
            (FourWay::B, FourWayLru::CADB) => FourWayLru::BCAD,
            (FourWay::B, FourWayLru::CBAD) => FourWayLru::BCAD,
            (FourWay::B, FourWayLru::CBDA) => FourWayLru::BCDA,
            (FourWay::B, FourWayLru::CDAB) => FourWayLru::BCDA,
            (FourWay::B, FourWayLru::CDBA) => FourWayLru::BCDA,
            (FourWay::B, FourWayLru::DABC) => FourWayLru::BDAC,
            (FourWay::B, FourWayLru::DACB) => FourWayLru::BDAC,
            (FourWay::B, FourWayLru::DBAC) => FourWayLru::BDAC,
            (FourWay::B, FourWayLru::DBCA) => FourWayLru::BDCA,
            (FourWay::B, FourWayLru::DCAB) => FourWayLru::BDCA,
            (FourWay::B, FourWayLru::DCBA) => FourWayLru::BDCA,
            (FourWay::C, FourWayLru::ABCD) => FourWayLru::CABD,
            (FourWay::C, FourWayLru::ABDC) => FourWayLru::CABD,
            (FourWay::C, FourWayLru::ACBD) => FourWayLru::CABD,
            (FourWay::C, FourWayLru::ACDB) => FourWayLru::CADB,
            (FourWay::C, FourWayLru::ADBC) => FourWayLru::CADB,
            (FourWay::C, FourWayLru::ADCB) => FourWayLru::CADB,
            (FourWay::C, FourWayLru::BACD) => FourWayLru::CBAD,
            (FourWay::C, FourWayLru::BADC) => FourWayLru::CBAD,
            (FourWay::C, FourWayLru::BCAD) => FourWayLru::CBAD,
            (FourWay::C, FourWayLru::BCDA) => FourWayLru::CBDA,
            (FourWay::C, FourWayLru::BDAC) => FourWayLru::CBDA,
            (FourWay::C, FourWayLru::BDCA) => FourWayLru::CBDA,
            (FourWay::C, FourWayLru::DABC) => FourWayLru::CDAB,
            (FourWay::C, FourWayLru::DACB) => FourWayLru::CDAB,
            (FourWay::C, FourWayLru::DBAC) => FourWayLru::CDBA,
            (FourWay::C, FourWayLru::DBCA) => FourWayLru::CDBA,
            (FourWay::C, FourWayLru::DCAB) => FourWayLru::CDAB,
            (FourWay::C, FourWayLru::DCBA) => FourWayLru::CDBA,
            (FourWay::D, FourWayLru::ABCD) => FourWayLru::DABC,
            (FourWay::D, FourWayLru::ABDC) => FourWayLru::DABC,
            (FourWay::D, FourWayLru::ACBD) => FourWayLru::DACB,
            (FourWay::D, FourWayLru::ACDB) => FourWayLru::DACB,
            (FourWay::D, FourWayLru::ADBC) => FourWayLru::DABC,
            (FourWay::D, FourWayLru::ADCB) => FourWayLru::DACB,
            (FourWay::D, FourWayLru::BACD) => FourWayLru::DBAC,
            (FourWay::D, FourWayLru::BADC) => FourWayLru::DBAC,
            (FourWay::D, FourWayLru::BCAD) => FourWayLru::DBCA,
            (FourWay::D, FourWayLru::BCDA) => FourWayLru::DBCA,
            (FourWay::D, FourWayLru::BDAC) => FourWayLru::DBAC,
            (FourWay::D, FourWayLru::BDCA) => FourWayLru::DBCA,
            (FourWay::D, FourWayLru::CABD) => FourWayLru::DCAB,
            (FourWay::D, FourWayLru::CADB) => FourWayLru::DCAB,
            (FourWay::D, FourWayLru::CBAD) => FourWayLru::DCBA,
            (FourWay::D, FourWayLru::CBDA) => FourWayLru::DCBA,
            (FourWay::D, FourWayLru::CDAB) => FourWayLru::DCAB,
            (FourWay::D, FourWayLru::CDBA) => FourWayLru::DCBA,
            _ => self,
        }
    }

    /// Marks a way as the most recently used one.
    pub fn touch(&mut self, way: FourWay)
        ensures
            *final(self) == old(self).touched(way),
    {
        let next = match (way, *self) {
            (FourWay::A, FourWayLru::BACD) => FourWayLru::ABCD,
            (FourWay::A, FourWayLru::BADC) => FourWayLru::ABDC,
            (FourWay::A, FourWayLru::BCAD) => FourWayLru::ABCD,
            (FourWay::A, FourWayLru::BCDA) => FourWayLru::ABCD,
            (FourWay::A, FourWayLru::BDAC) => FourWayLru::ABDC,
            (FourWay::A, FourWayLru::BDCA) => FourWayLru::ABDC,
            (FourWay::A, FourWayLru::CABD) => FourWayLru::ACBD,
            (FourWay::A, FourWayLru::CADB) => FourWayLru::ACDB,
            (FourWay::A, FourWayLru::CBAD) => FourWayLru::ACBD,
            (FourWay::A, FourWayLru::CBDA) => FourWayLru::ACBD,
            (FourWay::A, FourWayLru::CDAB) => FourWayLru::ACDB,
            (FourWay::A, FourWayLru::CDBA) => FourWayLru::ACDB,
            (FourWay::A, FourWayLru::DABC) => FourWayLru::ADBC,
            (FourWay::A, FourWayLru::DACB) => FourWayLru::ADCB,
            (FourWay::A, FourWayLru::DBAC) => FourWayLru::ADBC,
            (FourWay::A, FourWayLru::DBCA) => FourWayLru::ADBC,
            (FourWay::A, FourWayLru::DCAB) => FourWayLru::ADCB,
            (FourWay::A, FourWayLru::DCBA) => FourWayLru::ADCB,
            (FourWay::B, FourWayLru::ABCD) => FourWayLru::BACD,
            (FourWay::B, FourWayLru::ABDC) => FourWayLru::BADC,
            (FourWay::B, FourWayLru::ACBD) => FourWayLru::BACD,
            (FourWay::B, FourWayLru::ACDB) => FourWayLru::BACD,
            (FourWay::B, FourWayLru::ADBC) => FourWayLru::BADC,
            (FourWay::B, FourWayLru::ADCB) => FourWayLru::BADC,
            (FourWay::B, FourWayLru::CABD) => FourWayLru::BCAD,
            (FourWay::B, FourWayLru::CADB) => FourWayLru::BCAD,
            (FourWay::B, FourWayLru::CBAD) => FourWayLru::BCAD,
            (FourWay::B, FourWayLru::CBDA) => FourWayLru::BCDA,
            (FourWay::B, FourWayLru::CDAB) => FourWayLru::BCDA,
            (FourWay::B, FourWayLru::CDBA) => FourWayLru::BCDA,
            (FourWay::B, FourWayLru::DABC) => FourWayLru::BDAC,
            (FourWay::B, FourWayLru::DACB) => FourWayLru::BDAC,
            (FourWay::B, FourWayLru::DBAC) => FourWayLru::BDAC,
            (FourWay::B, FourWayLru::DBCA) => FourWayLru::BDCA,
            (FourWay::B, FourWayLru::DCAB) => FourWayLru::BDCA,
            (FourWay::B, FourWayLru::DCBA) => FourWayLru::BDCA,
            (FourWay::C, FourWayLru::ABCD) => FourWayLru::CABD,
            (FourWay::C, FourWayLru::ABDC) => FourWayLru::CABD,
            (FourWay::C, FourWayLru::ACBD) => FourWayLru::CABD,
            (FourWay::C, FourWayLru::ACDB) => FourWayLru::CADB,
            (FourWay::C, FourWayLru::ADBC) => FourWayLru::CADB,
            (FourWay::C, FourWayLru::ADCB) => FourWayLru::CADB,
            (FourWay::C, FourWayLru::BACD) => FourWayLru::CBAD,
            (FourWay::C, FourWayLru::BADC) => FourWayLru::CBAD,
            (FourWay::C, FourWayLru::BCAD) => FourWayLru::CBAD,
            (FourWay::C, FourWayLru::BCDA) => FourWayLru::CBDA,
            (FourWay::C, FourWayLru::BDAC) => FourWayLru::CBDA,
            (FourWay::C, FourWayLru::BDCA) => FourWayLru::CBDA,
            (FourWay::C, FourWayLru::DABC) => FourWayLru::CDAB,
            (FourWay::C, FourWayLru::DACB) => FourWayLru::CDAB,
            (FourWay::C, FourWayLru::DBAC) => FourWayLru::CDBA,
            (FourWay::C, FourWayLru::DBCA) => FourWayLru::CDBA,
            (FourWay::C, FourWayLru::DCAB) => FourWayLru::CDAB,
            (FourWay::C, FourWayLru::DCBA) => FourWayLru::CDBA,
            (FourWay::D, FourWayLru::ABCD) => FourWayLru::DABC,
            (FourWay::D, FourWayLru::ABDC) => FourWayLru::DABC,
            (FourWay::D, FourWayLru::ACBD) => FourWayLru::DACB,
            (FourWay::D, FourWayLru::ACDB) => FourWayLru::DACB,
            (FourWay::D, FourWayLru::ADBC) => FourWayLru::DABC,
            (FourWay::D, FourWayLru::ADCB) => FourWayLru::DACB,
            (FourWay::D, FourWayLru::BACD) => FourWayLru::DBAC,
            (FourWay::D, FourWayLru::BADC) => FourWayLru::DBAC,
            (FourWay::D, FourWayLru::BCAD) => FourWayLru::DBCA,
            (FourWay::D, FourWayLru::BCDA) => FourWayLru::DBCA,
            (FourWay::D, FourWayLru::BDAC) => FourWayLru::DBAC,
            (FourWay::D, FourWayLru::BDCA) => FourWayLru::DBCA,
            (FourWay::D, FourWayLru::CABD) => FourWayLru::DCAB,
            (FourWay::D, FourWayLru::CADB) => FourWayLru::DCAB,
            (FourWay::D, FourWayLru::CBAD) => FourWayLru::DCBA,
            (FourWay::D, FourWayLru::CBDA) => FourWayLru::DCBA,
            (FourWay::D, FourWayLru::CDAB) => FourWayLru::DCAB,
            (FourWay::D, FourWayLru::CDBA) => FourWayLru::DCBA,
            _ => *self,
        };
        *self = next;
    }

    /// Victimises and touches the least recently used way.
    pub fn replace(&mut self) -> (way: FourWay)
        ensures
            way == old(self).rightmost(),
            *final(self) == old(self).touched(way),
    {
        let way = match *self {
            FourWayLru::ABCD => FourWay::D,
            FourWayLru::ABDC => FourWay::C,
            FourWayLru::ACBD => FourWay::D,
            FourWayLru::ACDB => FourWay::B,
            FourWayLru::ADBC => FourWay::C,
            FourWayLru::ADCB => FourWay::B,
            FourWayLru::BACD => FourWay::D,
            FourWayLru::BADC => FourWay::C,
            FourWayLru::BCAD => FourWay::D,
            FourWayLru::BCDA => FourWay::A,
            FourWayLru::BDAC => FourWay::C,
            FourWayLru::BDCA => FourWay::A,
            FourWayLru::CABD => FourWay::D,
            FourWayLru::CADB => FourWay::B,
            FourWayLru::CBAD => FourWay::D,
            FourWayLru::CBDA => FourWay::A,
            FourWayLru::CDAB => FourWay::B,
            FourWayLru::CDBA => FourWay::A,
            FourWayLru::DABC => FourWay::C,
            FourWayLru::DACB => FourWay::B,
            FourWayLru::DBAC => FourWay::C,
            FourWayLru::DBCA => FourWay::A,
            FourWayLru::DCAB => FourWay::B,
            FourWayLru::DCBA => FourWay::A,
        };
        self.touch(way);
        way
    }
}

/// Touching a way moves it to the front of the recency order; every other
/// way keeps its position, except that the ways more recent than the touched
/// one slide back by exactly one place.
pub proof fn lemma_touch_rank(s: FourWayLru, w: FourWay, x: FourWay)
    ensures
        s.touched(w).rank(w) == 0,
        x != w ==> s.touched(w).rank(x) == if s.rank(x) < s.rank(w) {
            s.rank(x) + 1
        } else {
            s.rank(x)
        },
{
}

/// Touching a way keeps the relative recency order of the other three ways.
pub proof fn lemma_touch_preserves_order(s: FourWayLru, w: FourWay, x: FourWay, y: FourWay)
    requires
        x != w,
        y != w,
    ensures
        s.touched(w).rank(x) < s.touched(w).rank(y) <==> s.rank(x) < s.rank(y),
{
    lemma_touch_rank(s, w, x);
    lemma_touch_rank(s, w, y);
}

/// Touching the same way twice equals touching it once.
pub proof fn lemma_touch_idempotent(s: FourWayLru, w: FourWay)
    ensures
        s.touched(w).touched(w) == s.touched(w),
{
}

/// From any state, using the four ways in the order A, B, C, D leaves the
/// order D, C, B, A, whose next replacement victim is A.
pub proof fn lemma_touch_all_ways(s: FourWayLru)
    ensures
        s.touched(FourWay::A).touched(FourWay::B).touched(FourWay::C).touched(FourWay::D)
            == FourWayLru::DCBA,
        FourWayLru::DCBA.rightmost() == FourWay::A,
{
}

} // verus!
