//! The memory of a pipeline: what its technique handed out for each kernel
//! that it has met.

use vstd::prelude::*;
use std::collections::HashMap;

verus! {

broadcast use vstd::std_specs::hash::group_hash_axioms;

/// What was compiled so far, by the code of the kernel. An entry, once made,
/// is never changed and never removed.
pub struct Cache<C> {
    entries: HashMap<u64, C>,
}

impl<C: Copy> Cache<C> {
    /// The entries, by the code of their kernel.
    pub closed spec fn view(&self) -> Map<u64, C> {
        self.entries@
    }

    /// Create an empty cache.
    pub fn new() -> (cache: Cache<C>)
        ensures
            cache@ == Map::<u64, C>::empty(),
    {
        Cache { entries: HashMap::new() }
    }

    /// The number of entries, which is the number of insertions so far.
    pub fn len(&self) -> (n: usize)
        ensures
            n == self@.len(),
            self@.dom().finite(),
    {
        self.entries.len()
    }

    /// Looks up what was compiled for the kernel with the given code.
    pub fn get(&self, code: u64) -> (found: Option<C>)
        ensures
            found == (if self@.contains_key(code) {
                Some(self@[code])
            } else {
                None
            }),
    {
        match self.entries.get(&code) {
            Some(entry) => Some(*entry),
            None => None,
        }
    }

    /// Stores what was compiled for the kernel with the given code, unless
    /// the cache has an entry for it already: that one stays.
    pub fn remember(&mut self, code: u64, compiled: C)
        ensures
            final(self)@ == (if old(self)@.contains_key(code) {
                old(self)@
            } else {
                old(self)@.insert(code, compiled)
            }),
    {
        if !self.entries.contains_key(&code) {
            self.entries.insert(code, compiled);
        }
    }
}

} // verus!
