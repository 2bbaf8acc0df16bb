//! The 8-bit Fletcher checksum that closes every UBX frame.

use vstd::prelude::*;

verus! {

/// The accumulator pair after one more byte.
pub open spec fn checksum_step(acc: (u8, u8), byte: u8) -> (u8, u8) {
    let a = ((acc.0 + byte) % 256) as u8;
    let b = ((acc.1 + a) % 256) as u8;
    (a, b)
}

/// The accumulator pair after `bytes` were added, in order, to a pair that
/// stood at `start`.
pub open spec fn checksum_from(start: (u8, u8), bytes: Seq<u8>) -> (u8, u8)
    decreases bytes.len(),
{
    if bytes.len() == 0 {
        start
    } else {
        checksum_step(checksum_from(start, bytes.drop_last()), bytes.last())
    }
}

/// The checksum of a byte sequence: both accumulators start at zero.
pub open spec fn checksum_of(bytes: Seq<u8>) -> (u8, u8) {
    checksum_from((0u8, 0u8), bytes)
}

/// Adding one byte at the end of a sequence is one accumulator step.
pub proof fn lemma_checksum_push(start: (u8, u8), bytes: Seq<u8>, byte: u8)
    ensures
        checksum_from(start, bytes.push(byte)) == checksum_step(
            checksum_from(start, bytes),
            byte,
        ),
{
    assert(bytes.push(byte).drop_last() =~= bytes);
}

/// Incremental equivalence: feeding `head` and then `tail` gives the same
/// accumulators as feeding their concatenation at once.
pub proof fn lemma_checksum_split(start: (u8, u8), head: Seq<u8>, tail: Seq<u8>)
    ensures
        checksum_from(start, head + tail) == checksum_from(checksum_from(start, head), tail),
    decreases tail.len(),
{
    if tail.len() == 0 {
        assert(head + tail =~= head);
    } else {
        lemma_checksum_split(start, head, tail.drop_last());
        assert((head + tail).drop_last() =~= head + tail.drop_last());
        assert((head + tail).last() == tail.last());
    }
}

/// Running UBX checksum.
#[derive(Debug)]
pub struct Checksum {
    cka: u8,
    ckb: u8,
}

impl View for Checksum {
    type V = (u8, u8);

    closed spec fn view(&self) -> (u8, u8) {
        (self.cka, self.ckb)
    }
}

impl Checksum {
    pub fn new() -> (ck: Self)
        ensures
            ck@ == (0u8, 0u8),
    {
        Self { cka: 0, ckb: 0 }
    }

    pub fn value(&self) -> (pair: (u8, u8))
        ensures
            pair == self@,
    {
        (self.cka, self.ckb)
    }

    pub fn matches(&self, cka: u8, ckb: u8) -> (same: bool)
        ensures
            same == (self@ == (cka, ckb)),
    {
        return self.cka == cka && self.ckb == ckb;
    }

    pub fn reset(&mut self)
        ensures
            final(self)@ == (0u8, 0u8),
    {
        self.cka = 0;
        self.ckb = 0;
    }

    pub fn add(&mut self, byte: u8)
        ensures
            final(self)@ == checksum_step(old(self)@, byte),
    {
        self.cka = self.cka.wrapping_add(byte);
        self.ckb = self.ckb.wrapping_add(self.cka);
    }
}

} // verus!
