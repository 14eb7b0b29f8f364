//! Type tags and the lists built from them.
//!
//! A tag is a number from 1 to 8 and names one of eight marker types. A
//! parameter list and an argument list are both plain sequences of tags.

use vstd::prelude::*;

verus! {

/// The smallest tag.
pub const FIRST_TAG: u8 = 1;

/// The largest tag, which is also the number of tags.
pub const LAST_TAG: u8 = 8;

/// Whether a number names a marker type.
pub open spec fn is_tag(tag: u8) -> bool {
    FIRST_TAG <= tag <= LAST_TAG
}

/// Whether every entry of a list names a marker type.
pub open spec fn all_tags(list: Seq<u8>) -> bool {
    forall|i: int| 0 <= i < list.len() ==> is_tag(#[trigger] list[i])
}

/// Every tag once, in ascending order.
pub open spec fn canonical() -> Seq<u8> {
    seq![1u8, 2u8, 3u8, 4u8, 5u8, 6u8, 7u8, 8u8]
}

/// `at` places the entries of `sub` at ascending positions of `whole`: entry
/// `i` of `sub` is entry `at[i]` of `whole`.
pub open spec fn embeds(at: Seq<int>, sub: Seq<u8>, whole: Seq<u8>) -> bool {
    &&& at.len() == sub.len()
    &&& forall|i: int|
        0 <= i < at.len() ==> 0 <= #[trigger] at[i] < whole.len() && whole[at[i]] == sub[i]
    &&& forall|i: int, j: int| 0 <= i < j < at.len() ==> #[trigger] at[i] < #[trigger] at[j]
}

/// Whether `sub` can be had from `whole` by deleting entries and keeping the
/// rest in their order.
pub open spec fn is_subsequence(sub: Seq<u8>, whole: Seq<u8>) -> bool {
    exists|at: Seq<int>| embeds(at, sub, whole)
}

/// Whether `list` holds the entries of some subsequence of `whole`, each as
/// often as the subsequence does, in any order.
pub open spec fn is_shuffled_subsequence(list: Seq<u8>, whole: Seq<u8>) -> bool {
    exists|sub: Seq<u8>| #[trigger]
        is_subsequence(sub, whole) && sub.to_multiset() == list.to_multiset()
}

/// Whether `positions` can be deleted one after another from a list of
/// `len` entries: each position lies within what the deletions before it
/// have left.
pub open spec fn removable(positions: Seq<usize>, len: nat) -> bool {
    forall|i: int| 0 <= i < positions.len() ==> #[trigger] positions[i] + i < len
}

/// What is left of `list` after deleting `positions` one after another, each
/// position counted in the list as the deletions before it have left it.
pub open spec fn thinned(list: Seq<u8>, positions: Seq<usize>) -> Seq<u8>
    decreases positions.len(),
{
    if positions.len() == 0 {
        list
    } else {
        thinned(list, positions.drop_last()).remove(positions.last() as int)
    }
}

/// The canonical list as a vector.
pub fn canonical_list() -> (list: Vec<u8>)
    ensures
        list@ == canonical(),
{
    let mut list: Vec<u8> = Vec::new();
    let mut tag: u8 = FIRST_TAG;
    while tag <= LAST_TAG
        invariant
            FIRST_TAG <= tag <= LAST_TAG + 1,
            list@ == canonical().take(tag - 1),
        decreases LAST_TAG + 1 - tag,
    {
        list.push(tag);
        tag = tag + 1;
    }
    list
}

/// Deletes `positions` from `list` one after another.
pub fn remove_positions(list: &mut Vec<u8>, positions: &Vec<usize>)
    requires
        removable(positions@, old(list)@.len()),
    ensures
        final(list)@ == thinned(old(list)@, positions@),
        final(list)@.len() == old(list)@.len() - positions@.len(),
{
    let mut done: usize = 0;
    while done < positions.len()
        invariant
            done <= positions.len(),
            removable(positions@, old(list)@.len()),
            list@ == thinned(old(list)@, positions@.take(done as int)),
            list@.len() == old(list)@.len() - done,
        decreases positions.len() - done,
    {
        let position: usize = positions[done];
        list.remove(position);
        proof {
            let before = positions@.take(done as int);
            let after = positions@.take(done + 1);
            assert(after.drop_last() == before);
        }
        done = done + 1;
    }
    assert(positions@.take(done as int) == positions@);
}

/// Deleting entries leaves a subsequence: what remains of a list after
/// `positions` were deleted is shorter by their number and embeds in the list.
pub proof fn lemma_thinned_is_subsequence(list: Seq<u8>, positions: Seq<usize>)
    requires
        removable(positions, list.len()),
    ensures
        thinned(list, positions).len() == list.len() - positions.len(),
        is_subsequence(thinned(list, positions), list),
    decreases positions.len(),
{
    if positions.len() == 0 {
        let at = Seq::new(list.len(), |i: int| i);
        assert(embeds(at, list, list));
    } else {
        let earlier = positions.drop_last();
        lemma_thinned_is_subsequence(list, earlier);
        let kept = thinned(list, earlier);
        let at = choose|at: Seq<int>| embeds(at, kept, list);
        let gone = positions.last() as int;
        assert(embeds(at.remove(gone), kept.remove(gone), list));
    }
}

/// A subsequence of the canonical list holds tags only, none of them twice,
/// in ascending order.
pub proof fn lemma_canonical_subsequence(sub: Seq<u8>)
    requires
        is_subsequence(sub, canonical()),
    ensures
        sub.len() <= LAST_TAG,
        all_tags(sub),
        forall|i: int, j: int| 0 <= i < j < sub.len() ==> sub[i] < sub[j],
{
    let at = choose|at: Seq<int>| embeds(at, sub, canonical());
    assert forall|i: int| 0 <= i < sub.len() implies sub[i] == at[i] + 1 by {
        assert(0 <= at[i] < 8);
    }
    assert forall|i: int, j: int| 0 <= i < j < sub.len() implies sub[i] < sub[j] by {
        assert(at[i] < at[j]);
    }
    if sub.len() > 8 {
        lemma_ascending_spread(at, sub.len() - 1);
    }
}

/// A list that holds the entries of a subsequence of the canonical list, in
/// any order, holds tags only and none of them twice.
pub proof fn lemma_shuffled_canonical_subsequence(list: Seq<u8>)
    requires
        is_shuffled_subsequence(list, canonical()),
    ensures
        list.len() <= LAST_TAG,
        all_tags(list),
        list.no_duplicates(),
{
    let sub = choose|sub: Seq<u8>| #[trigger]
        is_subsequence(sub, canonical()) && sub.to_multiset() == list.to_multiset();
    lemma_canonical_subsequence(sub);
    sub.to_multiset_ensures();
    list.to_multiset_ensures();
    assert forall|i: int| 0 <= i < list.len() implies is_tag(#[trigger] list[i]) by {
        assert(sub.to_multiset().count(list[i]) > 0);
        assert(sub.contains(list[i]));
    }
    sub.lemma_multiset_has_no_duplicates();
    list.lemma_multiset_has_no_duplicates_conv();
}

/// In a strictly ascending sequence of naturals entry `i` is at least `i`.
proof fn lemma_ascending_spread(at: Seq<int>, i: int)
    requires
        0 <= i < at.len(),
        at[0] >= 0,
        forall|a: int, b: int| 0 <= a < b < at.len() ==> #[trigger] at[a] < #[trigger] at[b],
    ensures
        at[i] >= i,
    decreases i,
{
    if i > 0 {
        lemma_ascending_spread(at, i - 1);
    }
}

} // verus!
