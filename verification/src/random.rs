//! The random draws the generator is built on.

use rand::rngs::ThreadRng;
use rand::Rng;
use vstd::prelude::*;

verus! {

/// The thread-local random number generator of `rand`.
#[verifier::external_type_specification]
#[verifier::external_body]
pub struct ExThreadRng(ThreadRng);

/// `rand::thread_rng` hands out the calling thread's generator, seeded by
/// the system on first use. Nothing is claimed of it. The call panics when
/// the system's entropy source fails at seeding; no argument decides that.
pub assume_specification[ rand::thread_rng ]() -> ThreadRng
;

/// `Rng::gen_range` on the half-open range `0..bound`: the sample lies in the
/// range, whatever the generator yields. The range must not be empty. The
/// thread's generator reseeds itself from the system now and then, and the
/// call panics when the entropy source fails then; no argument decides that.
#[verifier::external_body]
pub(crate) fn pick_index(rng: &mut ThreadRng, bound: usize) -> (index: usize)
    requires
        bound > 0,
    ensures
        index < bound,
{
    rng.gen_range(0..bound)
}

/// Whether every draw indexes into a pool of `bound` characters.
pub open spec fn draws_within(draws: Seq<usize>, bound: int) -> bool {
    forall|i: int| 0 <= i < draws.len() ==> draws[i] < bound
}

/// Draws `count` indices, each below `bound`.
pub(crate) fn draw_indices(rng: &mut ThreadRng, count: u64, bound: usize) -> (draws: Vec<usize>)
    requires
        bound > 0,
    ensures
        draws@.len() == count,
        draws_within(draws@, bound as int),
{
    let mut draws: Vec<usize> = Vec::new();
    let mut drawn: u64 = 0;
    while drawn < count
        invariant
            bound > 0,
            drawn <= count,
            draws@.len() == drawn,
            draws_within(draws@, bound as int),
        decreases count - drawn,
    {
        let index = pick_index(rng, bound);
        draws.push(index);
        drawn += 1;
    }
    draws
}

/// The pool characters that the draws pick, in order.
pub open spec fn selected(pool: Seq<u8>, draws: Seq<usize>) -> Seq<u8> {
    Seq::new(draws.len(), |i: int| pool[draws[i] as int])
}

/// The pool characters that a given sequence of draws picks. `None` when a
/// draw does not index into the pool.
pub fn select_chars(pool: &Vec<u8>, draws: &Vec<usize>) -> (chars: Option<Vec<u8>>)
    ensures
        chars is Some <==> draws_within(draws@, pool@.len() as int),
        chars matches Some(c) ==> c@ == selected(pool@, draws@),
{
    let mut chars: Vec<u8> = Vec::new();
    let mut i: usize = 0;
    while i < draws.len()
        invariant
            i <= draws.len(),
            draws_within(draws@.take(i as int), pool@.len() as int),
            chars@ == selected(pool@, draws@.take(i as int)),
        decreases draws.len() - i,
    {
        let draw = draws[i];
        if draw >= pool.len() {
            return None;
        }
        chars.push(pool[draw]);
        i += 1;
        proof {
            let prefix = draws@.take(i as int);
            assert(prefix =~= draws@.take(i - 1).push(draw));
            assert(chars@ =~= selected(pool@, prefix));
        }
    }
    assert(draws@.take(i as int) =~= draws@);
    Some(chars)
}

} // verus!
