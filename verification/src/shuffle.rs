//! Shuffling a character sequence by a list of swaps.

use crate::charset::{as_chars, count_in, lemma_count_update, CharClass};
use crate::random::pick_index;
use rand::rngs::ThreadRng;
use vstd::prelude::*;

verus! {

/// The sequence with the values at `i` and `j` exchanged.
pub open spec fn swapped(s: Seq<u8>, i: int, j: int) -> Seq<u8> {
    s.update(i, s[j]).update(j, s[i])
}

/// Whether `picks` can drive a shuffle of `n` values: one pick for each
/// position, none beyond its own position.
pub open spec fn picks_valid(picks: Seq<usize>, n: int) -> bool {
    &&& picks.len() == n
    &&& forall|i: int| 0 <= i < n ==> picks[i] <= i
}

/// The sequence after exchanging, for each position from `last` down to 1,
/// the value there with the value at the position's pick.
pub open spec fn shuffled_from(s: Seq<u8>, picks: Seq<usize>, last: int) -> Seq<u8>
    decreases last,
{
    if last <= 0 {
        s
    } else {
        shuffled_from(swapped(s, last, picks[last] as int), picks, last - 1)
    }
}

/// The sequence shuffled by the picks: positions are visited from the last
/// down to the second, and each exchanges its value with that at its pick.
pub open spec fn shuffled(s: Seq<u8>, picks: Seq<usize>) -> Seq<u8> {
    shuffled_from(s, picks, s.len() - 1)
}

/// Exchanging two values keeps the length, the values as a multiset, and so
/// the number of characters of each class.
pub proof fn lemma_swapped(s: Seq<u8>, i: int, j: int)
    requires
        0 <= i < s.len(),
        0 <= j < s.len(),
    ensures
        swapped(s, i, j).len() == s.len(),
        swapped(s, i, j).to_multiset() == s.to_multiset(),
        forall|class: CharClass| #[trigger]
            count_in(as_chars(swapped(s, i, j)), class) == count_in(as_chars(s), class),
{
    broadcast use vstd::seq_lib::to_multiset_update;
    broadcast use vstd::seq_lib::to_multiset_contains;

    let first = s.update(i, s[j]);
    assert(s.contains(s[i]));
    assert(s.contains(s[j]));
    assert(first[j] == s[j]);
    assert(swapped(s, i, j).to_multiset() =~= s.to_multiset());
    assert forall|class: CharClass| #[trigger]
        count_in(as_chars(swapped(s, i, j)), class) == count_in(as_chars(s), class) by {
        let text = as_chars(s);
        let text_first = text.update(i, s[j] as char);
        lemma_count_update(text, i, s[j] as char, class);
        lemma_count_update(text_first, j, s[i] as char, class);
        assert(as_chars(swapped(s, i, j)) =~= text_first.update(j, s[i] as char));
    }
}

/// A shuffle rearranges: it keeps the length, the values as a multiset, and
/// the number of characters of each class.
pub proof fn lemma_shuffled_from(s: Seq<u8>, picks: Seq<usize>, last: int)
    requires
        last < s.len(),
        last < picks.len(),
        forall|i: int| 0 <= i <= last ==> picks[i] <= i,
    ensures
        shuffled_from(s, picks, last).len() == s.len(),
        shuffled_from(s, picks, last).to_multiset() == s.to_multiset(),
        forall|class: CharClass| #[trigger]
            count_in(as_chars(shuffled_from(s, picks, last)), class) == count_in(
                as_chars(s),
                class,
            ),
    decreases last,
{
    if last > 0 {
        let next = swapped(s, last, picks[last] as int);
        lemma_swapped(s, last, picks[last] as int);
        lemma_shuffled_from(next, picks, last - 1);
        assert forall|class: CharClass| #[trigger]
            count_in(as_chars(shuffled_from(s, picks, last)), class) == count_in(
                as_chars(s),
                class,
            ) by {
            assert(count_in(as_chars(next), class) == count_in(as_chars(s), class));
        }
    }
}

/// Shuffles the characters by the given picks. Returns whether the picks
/// fit the characters; when they do not, the characters stay as they were.
pub fn shuffle_with(chars: &mut Vec<u8>, picks: &Vec<usize>) -> (done: bool)
    ensures
        done == picks_valid(picks@, old(chars)@.len() as int),
        done ==> final(chars)@ == shuffled(old(chars)@, picks@),
        !done ==> final(chars)@ == old(chars)@,
{
    if !picks_fit(picks, chars.len()) {
        return false;
    }
    let ghost before = chars@;
    let mut i: usize = chars.len();
    while i > 1
        invariant
            i <= chars.len(),
            chars@.len() == before.len(),
            picks_valid(picks@, before.len() as int),
            shuffled_from(chars@, picks@, i - 1) == shuffled(before, picks@),
        decreases i,
    {
        i -= 1;
        let j = picks[i];
        let at_i = chars[i];
        let at_j = chars[j];
        chars.set(i, at_j);
        chars.set(j, at_i);
    }
    true
}

/// Whether there is one pick for each of `n` positions, none beyond its own
/// position.
fn picks_fit(picks: &Vec<usize>, n: usize) -> (fit: bool)
    ensures
        fit == picks_valid(picks@, n as int),
{
    if picks.len() != n {
        return false;
    }
    let mut i: usize = 0;
    while i < n
        invariant
            i <= n,
            picks@.len() == n,
            forall|k: int| 0 <= k < i ==> picks@[k] <= k,
        decreases n - i,
    {
        if picks[i] > i {
            return false;
        }
        i += 1;
    }
    true
}

/// Draws the picks of a uniform shuffle of `n` values: for each position an
/// index drawn uniformly among the positions up to it.
pub(crate) fn draw_picks(rng: &mut ThreadRng, n: usize) -> (picks: Vec<usize>)
    ensures
        picks_valid(picks@, n as int),
{
    let mut picks: Vec<usize> = Vec::new();
    let mut i: usize = 0;
    while i < n
        invariant
            i <= n,
            picks_valid(picks@, i as int),
        decreases n - i,
    {
        let pick = pick_index(rng, i + 1);
        picks.push(pick);
        i += 1;
    }
    picks
}

} // verus!
