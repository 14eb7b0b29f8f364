//! The case generator: two biased random strategies for a list of tags.
//!
//! The subset strategy deletes entries from the canonical list and sometimes
//! shuffles what is left, so it explores arity and order without repetition.
//! The multiset strategy draws every entry afresh, so it explores repetition.
//! Which strategy a list gets is itself drawn, with odds that depend on the
//! side of the call the list is for.

use crate::random::{draw_between, draw_ratio, draw_within, shuffle, thread_source};
use crate::tags::{
    all_tags, canonical, canonical_list, is_shuffled_subsequence, is_subsequence,
    lemma_shuffled_canonical_subsequence, lemma_thinned_is_subsequence, removable,
    remove_positions, FIRST_TAG, LAST_TAG,
};
use rand::rngs::ThreadRng;
use vstd::prelude::*;

verus! {

/// Out of how many lists `SHUFFLE_HITS` subset lists are shuffled.
pub const SHUFFLE_OUT_OF: u32 = 4;

/// How many of `SHUFFLE_OUT_OF` subset lists are shuffled.
pub const SHUFFLE_HITS: u32 = 1;

/// The subset strategy deletes fewer entries than this.
pub const REMOVALS_BELOW: usize = 8;

/// The least number of entries that the multiset strategy draws.
pub const SHORTEST_DRAW: u8 = 1;

/// The greatest number of entries that the multiset strategy draws.
pub const LONGEST_DRAW: u8 = 8;

/// The side of the call that a list is generated for.
#[derive(Clone, Copy, Debug, PartialEq, Eq, Structural)]
pub enum ListKind {
    /// The formal parameters of the generated function.
    Parameters,
    /// The arguments at the call site.
    Arguments,
}

/// The two lists of one test case.
#[derive(Debug)]
pub struct CaseBody {
    /// One tag for each formal parameter of the generated function.
    pub parameters: Vec<u8>,
    /// One tag for each argument at the call site.
    pub arguments: Vec<u8>,
}

/// What holds of every generated list: between one and eight entries, each
/// of them a tag.
pub open spec fn is_generated_list(list: Seq<u8>) -> bool {
    1 <= list.len() <= LAST_TAG && all_tags(list)
}

impl ListKind {
    /// The odds, as hits out of tries, that a list of this kind takes the
    /// subset strategy: one in two for parameters, three in four for
    /// arguments.
    pub open spec fn subset_odds_spec(self) -> (u32, u32) {
        match self {
            ListKind::Parameters => (1u32, 2u32),
            ListKind::Arguments => (3u32, 4u32),
        }
    }

    /// The odds that a list of this kind takes the subset strategy.
    pub fn subset_odds(self) -> (odds: (u32, u32))
        ensures
            odds == self.subset_odds_spec(),
            odds.0 <= odds.1,
            odds.1 > 0,
    {
        match self {
            ListKind::Parameters => (1, 2),
            ListKind::Arguments => (3, 4),
        }
    }
}

impl CaseBody {
    /// Both lists are as the generator makes them.
    pub open spec fn is_generated(self) -> bool {
        is_generated_list(self.parameters@) && is_generated_list(self.arguments@)
    }
}

/// A worker's generator of test cases. It owns the worker's random source.
pub struct Generator {
    rng: ThreadRng,
}

impl Generator {
    /// A generator on the calling thread's random source.
    pub fn new() -> (generator: Generator) {
        Generator { rng: thread_source() }
    }

    /// Draws `count` positions to delete one after another from a list of
    /// `len` entries: each position is drawn from the entries that the
    /// deletions before it leave.
    pub fn removals(&mut self, count: usize, len: usize) -> (positions: Vec<usize>)
        requires
            count <= len,
        ensures
            positions@.len() == count,
            removable(positions@, len as nat),
    {
        let mut positions: Vec<usize> = Vec::new();
        let mut drawn: usize = 0;
        while drawn < count
            invariant
                drawn <= count <= len,
                positions@.len() == drawn,
                removable(positions@, len as nat),
            decreases count - drawn,
        {
            let position: usize = draw_within(&mut self.rng, 0, len - drawn);
            positions.push(position);
            drawn = drawn + 1;
        }
        positions
    }

    /// The canonical list with `removals` entries deleted at random
    /// positions, the rest in ascending order.
    pub fn ordered_subset(&mut self, removals: usize) -> (list: Vec<u8>)
        requires
            removals <= LAST_TAG,
        ensures
            list@.len() == LAST_TAG - removals,
            is_subsequence(list@, canonical()),
    {
        let mut list: Vec<u8> = canonical_list();
        let positions: Vec<usize> = self.removals(removals, list.len());
        remove_positions(&mut list, &positions);
        proof {
            lemma_thinned_is_subsequence(canonical(), positions@);
        }
        list
    }

    /// The subset strategy: the canonical list with `removals` entries
    /// deleted at random positions, and the rest shuffled one time in four.
    pub fn subset_list(&mut self, removals: usize) -> (list: Vec<u8>)
        requires
            removals <= LAST_TAG,
        ensures
            list@.len() == LAST_TAG - removals,
            is_shuffled_subsequence(list@, canonical()),
            all_tags(list@),
            list@.no_duplicates(),
    {
        let mut list: Vec<u8> = self.ordered_subset(removals);
        let ghost ordered = list@;
        if draw_ratio(&mut self.rng, SHUFFLE_HITS, SHUFFLE_OUT_OF) {
            shuffle(&mut self.rng, &mut list);
        }
        proof {
            ordered.to_multiset_ensures();
            list@.to_multiset_ensures();
            assert(is_subsequence(ordered, canonical()));
            lemma_shuffled_canonical_subsequence(list@);
        }
        list
    }

    /// The multiset strategy: `len` tags, each drawn afresh from all eight.
    pub fn multiset_list(&mut self, len: usize) -> (list: Vec<u8>)
        ensures
            list@.len() == len,
            all_tags(list@),
    {
        let mut list: Vec<u8> = Vec::new();
        let mut drawn: usize = 0;
        while drawn < len
            invariant
                drawn <= len,
                list@.len() == drawn,
                all_tags(list@),
            decreases len - drawn,
        {
            let tag: u8 = draw_between(&mut self.rng, FIRST_TAG, LAST_TAG);
            list.push(tag);
            drawn = drawn + 1;
        }
        list
    }

    /// One list of the given kind. The strategy is drawn with the kind's
    /// odds; the subset strategy then deletes between zero and seven entries,
    /// the multiset strategy draws between one and eight. Either way the
    /// list has between one and eight entries, and any such list of tags can
    /// come out.
    pub fn list(&mut self, kind: ListKind) -> (list: Vec<u8>)
        ensures
            is_generated_list(list@),
    {
        let odds: (u32, u32) = kind.subset_odds();
        if draw_ratio(&mut self.rng, odds.0, odds.1) {
            let removals: usize = draw_within(&mut self.rng, 0, REMOVALS_BELOW);
            self.subset_list(removals)
        } else {
            let len: u8 = draw_between(&mut self.rng, SHORTEST_DRAW, LONGEST_DRAW);
            self.multiset_list(len as usize)
        }
    }

    /// The two lists of a fresh test case, each drawn on its own.
    pub fn case_body(&mut self) -> (body: CaseBody)
        ensures
            body.is_generated(),
    {
        let arguments: Vec<u8> = self.list(ListKind::Arguments);
        let parameters: Vec<u8> = self.list(ListKind::Parameters);
        CaseBody { parameters, arguments }
    }
}

} // verus!
