//! A small deterministic xorshift generator.
//!
//! Unlike the entropy-seeded generator that drives the animation, this one
//! is a plain value: the same starting state always yields the same
//! sequence, which makes runs reproducible.

use vstd::prelude::*;

verus! {

/// A 256-bit xorshift generator held as four 64-bit words.
#[derive(Clone, Copy, Debug, PartialEq, Eq, Structural)]
pub struct RandXor {
    /// The newest word of the state.
    pub s0: u64,
    /// The second word of the state.
    pub s1: u64,
    /// The third word of the state.
    pub s2: u64,
    /// The oldest word of the state; the next draw mixes it first.
    pub s3: u64,
}

/// The word that the next draw of `g` produces.
pub open spec fn spec_next_word(g: RandXor) -> u64 {
    let a = g.s3 ^ (g.s3 << 11);
    let b = a ^ (a << 8);
    let c = b ^ g.s0;
    c ^ (g.s0 >> 19)
}

/// The state of `g` after one draw.
pub open spec fn spec_stepped(g: RandXor) -> RandXor {
    RandXor { s0: spec_next_word(g), s1: g.s0, s2: g.s1, s3: g.s2 }
}

impl RandXor {
    /// Return a generator in its fixed starting state.
    pub fn new() -> (g: RandXor)
        ensures
            g == (RandXor { s0: 4848u64, s1: 99809u64, s2: 2052667u64, s3: 81119u64 }),
    {
        RandXor { s0: 4848, s1: 99809, s2: 2052667, s3: 81119 }
    }

    /// Return a generator seeded from four words.
    pub fn from_words(s0: u64, s1: u64, s2: u64, s3: u64) -> (g: RandXor)
        ensures
            g == (RandXor { s0: s0, s1: s1, s2: s2, s3: s3 }),
    {
        RandXor { s0, s1, s2, s3 }
    }

    /// Draw the next value and advance the state.
    pub fn gen(&mut self) -> (r: usize)
        ensures
            *final(self) == spec_stepped(*old(self)),
            r == spec_next_word(*old(self)) as usize,
    {
        let mut t: u64 = self.s3;
        t = t ^ (t << 11);
        t = t ^ (t << 8);
        self.s3 = self.s2;
        self.s2 = self.s1;
        self.s1 = self.s0;
        t = t ^ self.s0;
        t = t ^ (self.s0 >> 19);
        self.s0 = t;
        t as usize
    }

    /// Draw the next value and map it into the printable glyph band.
    pub fn gen_char(&mut self) -> (c: char)
        ensures
            *final(self) == spec_stepped(*old(self)),
            c == crate::block::spec_glyph((spec_next_word(*old(self)) as usize) as u64),
            crate::block::printable(c),
            c != ' ',
    {
        let r = self.gen();
        crate::block::glyph_from(r as u64)
    }
}

} // verus!
