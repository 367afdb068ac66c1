//! The speller that an archive hands out.

use vstd::prelude::*;

use std::sync::Arc;

verus! {

/// An error model and an acceptor, combined to correct words.
pub struct Speller<T, U> {
    pub mutator: T,
    pub lexicon: U,
}

impl<T, U> Speller<T, U> {
    /// Combines the error model `mutator` with the acceptor `lexicon` into a
    /// speller that can be shared.
    pub fn new(mutator: T, lexicon: U) -> (speller: Arc<Speller<T, U>>)
        ensures
            speller.mutator == mutator,
            speller.lexicon == lexicon,
    {
        Arc::new(Speller { mutator, lexicon })
    }

    /// The error model.
    pub fn mutator(&self) -> (t: &T)
        ensures
            *t == self.mutator,
    {
        &self.mutator
    }

    /// The acceptor.
    pub fn lexicon(&self) -> (u: &U)
        ensures
            *u == self.lexicon,
    {
        &self.lexicon
    }
}

} // verus!
