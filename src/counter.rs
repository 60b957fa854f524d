//! A small counter, used by the workers to count their empty stealing rounds.

use vstd::prelude::*;
use vstd::arithmetic::div_mod::{lemma_mod_add_multiples_vanish, lemma_small_mod};

verus! {

/// The operations of a counter.  `inc` and `add` return the value held before the call.
pub trait CompteurAtomic {
    type PrimitiveType;

    fn inc(&mut self) -> Self::PrimitiveType;

    fn add(&mut self, amount: Self::PrimitiveType) -> Self::PrimitiveType;

    fn get(&self) -> Self::PrimitiveType;
}

/// A counter over `usize` that wraps around on overflow.
pub struct Compteur(usize);

impl View for Compteur {
    type V = nat;

    closed spec fn view(&self) -> nat {
        self.0 as nat
    }
}

/// The value of a `usize` counter holding `c` after adding `n`, wrapping around.
pub open spec fn wrapped_sum(c: nat, n: nat) -> nat {
    (c + n) % (usize::MAX as nat + 1)
}

impl Compteur {
    /// A counter holding `initial_count`.
    pub fn new(initial_count: usize) -> (c: Compteur)
        ensures
            c@ == initial_count,
    {
        Compteur(initial_count)
    }

    /// Adds `amount`, wrapping around, and returns the value held before.
    pub fn add_wrapping(&mut self, amount: usize) -> (prev: usize)
        ensures
            prev == old(self)@,
            final(self)@ == wrapped_sum(old(self)@, amount as nat),
    {
        let prev = self.0;
        let ghost m = usize::MAX as nat + 1;
        if amount <= usize::MAX - prev {
            self.0 = prev + amount;
            proof {
                lemma_small_mod((prev + amount) as nat, m);
            }
        } else {
            self.0 = amount - (usize::MAX - prev) - 1;
            proof {
                let b = (prev + amount - m) as int;
                lemma_mod_add_multiples_vanish(b, m as int);
                lemma_small_mod(b as nat, m);
            }
        }
        prev
    }

    /// The value held.
    pub fn value(&self) -> (v: usize)
        ensures
            v == self@,
    {
        self.0
    }

    /// Sets the counter back to zero.
    pub fn reset(&mut self)
        ensures
            final(self)@ == 0,
    {
        self.0 = 0;
    }
}

impl CompteurAtomic for Compteur {
    type PrimitiveType = usize;

    fn inc(&mut self) -> (prev: usize)
        ensures
            prev == old(self)@,
            final(self)@ == wrapped_sum(old(self)@, 1),
    {
        self.add_wrapping(1)
    }

    fn add(&mut self, amount: usize) -> (prev: usize)
        ensures
            prev == old(self)@,
            final(self)@ == wrapped_sum(old(self)@, amount as nat),
    {
        self.add_wrapping(amount)
    }

    fn get(&self) -> (v: usize)
        ensures
            v == self@,
    {
        self.value()
    }
}

} // verus!
