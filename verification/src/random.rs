//! The random-source capability the synthesizer consumes.
//!
//! A source hands out two kinds of draws: an index below a given bound, and a
//! boolean biased by a given probability. A *deterministic* source replays a
//! known sequence of raw draws, so everything it returns is pinned by the
//! contracts; a genuinely random source promises only the bounds, and, for the
//! degenerate probabilities zero and one, the outcome of the biased draw.
//!
//! `ScriptedSource` replays a fixed script of raw draws cyclically and is
//! verified. `ThreadSource` draws from the thread-local generator of the
//! `rand` crate behind trusted wrappers.

use vstd::prelude::*;
use crate::probability::Probability;

verus! {

/// The index a raw draw selects among `len` choices.
pub open spec fn index_draw(raw: u64, len: nat) -> nat {
    (raw as nat) % len
}

/// The boolean a raw draw yields under probability `prob`: the raw value,
/// reduced modulo the denominator, falls below the numerator.
pub open spec fn biased_draw(raw: u64, prob: Probability) -> bool {
    (raw as nat) % (prob.den as nat) < prob.num as nat
}

/// A capability for uniform index choice and biased boolean draws.
///
/// When `deterministic()` holds, the source replays `stream()` from
/// `pos()` on, cyclically, one raw draw per call, and every result is a
/// function of the raw draw consumed. Otherwise only the bounds below are
/// promised, and the two degenerate probabilities.
pub trait RandomSource: Sized {
    /// The source is in a usable state.
    spec fn wf(&self) -> bool;

    /// Whether the source replays a known sequence of raw draws.
    spec fn deterministic(&self) -> bool;

    /// The replayed raw draws; meaningful only for a deterministic source.
    spec fn stream(&self) -> Seq<u64>;

    /// The position of the next replayed draw; meaningful only for a
    /// deterministic source.
    spec fn pos(&self) -> nat;

    /// Pick an index below `len`, uniformly at random for a genuinely
    /// random source.
    fn choose_index(&mut self, len: usize) -> (r: usize)
        requires
            old(self).wf(),
            1 <= len,
        ensures
            final(self).wf(),
            final(self).deterministic() == old(self).deterministic(),
            r < len,
            old(self).deterministic() ==> {
                &&& old(self).pos() < old(self).stream().len()
                &&& final(self).stream() == old(self).stream()
                &&& final(self).pos() == (old(self).pos() + 1) % old(self).stream().len()
                &&& r == index_draw(old(self).stream()[old(self).pos() as int], len as nat)
            };

    /// Draw a boolean that is true with probability `prob`.
    fn biased(&mut self, prob: Probability) -> (r: bool)
        requires
            old(self).wf(),
            prob.wf(),
        ensures
            final(self).wf(),
            final(self).deterministic() == old(self).deterministic(),
            prob.is_never() ==> !r,
            prob.is_always() ==> r,
            old(self).deterministic() ==> {
                &&& old(self).pos() < old(self).stream().len()
                &&& final(self).stream() == old(self).stream()
                &&& final(self).pos() == (old(self).pos() + 1) % old(self).stream().len()
                &&& r == biased_draw(old(self).stream()[old(self).pos() as int], prob)
            };
}

/// A deterministic source that replays a fixed script of raw draws,
/// wrapping around at the end.
pub struct ScriptedSource {
    draws: Vec<u64>,
    next: usize,
}

impl ScriptedSource {
    /// A source that replays `draws` from the beginning.
    pub fn new(draws: Vec<u64>) -> (s: ScriptedSource)
        requires
            draws@.len() > 0,
        ensures
            s.wf(),
            s.deterministic(),
            s.stream() == draws@,
            s.pos() == 0,
    {
        ScriptedSource { draws, next: 0 }
    }
}

impl RandomSource for ScriptedSource {
    closed spec fn wf(&self) -> bool {
        self.draws@.len() > 0 && self.next < self.draws@.len()
    }

    closed spec fn deterministic(&self) -> bool {
        true
    }

    closed spec fn stream(&self) -> Seq<u64> {
        self.draws@
    }

    closed spec fn pos(&self) -> nat {
        self.next as nat
    }

    fn choose_index(&mut self, len: usize) -> (r: usize) {
        let raw = self.draws[self.next];
        let n = self.draws.len();
        self.next = (self.next + 1) % n;
        (raw % (len as u64)) as usize
    }

    fn biased(&mut self, prob: Probability) -> (r: bool) {
        let raw = self.draws[self.next];
        let n = self.draws.len();
        self.next = (self.next + 1) % n;
        (raw % (prob.den as u64)) < (prob.num as u64)
    }
}

#[verifier::external_type_specification]
#[verifier::external_body]
pub struct ExThreadRng(rand::rngs::ThreadRng);

/// A genuinely random source, backed by the calling thread's generator
/// from the `rand` crate.
pub struct ThreadSource {
    rng: rand::rngs::ThreadRng,
}

impl ThreadSource {
    /// Relies on rand::thread_rng: a handle to the thread-local generator.
    #[verifier::external_body]
    pub fn new() -> (s: ThreadSource) {
        ThreadSource { rng: rand::thread_rng() }
    }
}

/// Relies on rand's Rng::gen_range over `0..len`: a value of the
/// non-empty range, so below `len`; it panics only on an empty range.
#[verifier::external_body]
fn thread_choose_index(s: &mut ThreadSource, len: usize) -> (r: usize)
    requires
        1 <= len,
    ensures
        r < len,
{
    rand::Rng::gen_range(&mut s.rng, 0..len)
}

/// Relies on rand's Rng::gen_ratio: true with probability `num / den`;
/// guaranteed false when the numerator is zero and guaranteed true when
/// numerator and denominator are equal; it panics only when the denominator
/// is zero or the numerator exceeds it.
#[verifier::external_body]
fn thread_biased(s: &mut ThreadSource, prob: Probability) -> (r: bool)
    requires
        prob.wf(),
    ensures
        prob.is_never() ==> !r,
        prob.is_always() ==> r,
{
    rand::Rng::gen_ratio(&mut s.rng, prob.num, prob.den)
}

impl RandomSource for ThreadSource {
    open spec fn wf(&self) -> bool {
        true
    }

    open spec fn deterministic(&self) -> bool {
        false
    }

    open spec fn stream(&self) -> Seq<u64> {
        Seq::empty()
    }

    open spec fn pos(&self) -> nat {
        0
    }

    fn choose_index(&mut self, len: usize) -> (r: usize) {
        thread_choose_index(self, len)
    }

    fn biased(&mut self, prob: Probability) -> (r: bool) {
        thread_biased(self, prob)
    }
}

} // verus!
