//! Password generation under the two named policies.

use crate::charset::GenerationOptions;
use crate::grouping::{
    char_count, effective_groups, format_groups, grouped, has_group_shape, total_chars,
};
use crate::quota::{generate_quota_password, is_quota_password};
use crate::random::{draw_indices, draws_within, select_chars, selected};
use vstd::prelude::*;

verus! {

/// What the uniform-pool policy may return for a valid request: the group
/// shape, with every character between the hyphens from an enabled class.
pub open spec fn is_pool_password(text: Seq<char>, groups: int, options: GenerationOptions) -> bool {
    &&& has_group_shape(text, effective_groups(groups))
    &&& forall|i: int| 0 <= i < text.len() && i % 6 != 5 ==> options.admits(text[i])
}

/// The password that a given sequence of draws from the pool yields: the
/// drawn characters, grouped. `None` when a draw does not index into the
/// pool.
pub fn password_from_draws(pool: &Vec<u8>, draws: &Vec<usize>) -> (text: Option<String>)
    ensures
        text is Some <==> draws_within(draws@, pool@.len() as int),
        text matches Some(t) ==> t@ == grouped(selected(pool@, draws@)),
{
    match select_chars(pool, draws) {
        Some(chars) => Some(format_groups(&chars)),
        None => None,
    }
}

/// Uniform-pool policy: `5 * max(groups, 1)` characters, each drawn
/// independently and uniformly from the pool of the enabled classes, in
/// groups of five joined by hyphens. With no class enabled the result is the
/// empty string.
pub fn generate_pool_password(groups: i32, options: &GenerationOptions) -> (text: String)
    ensures
        !options.valid() ==> text@ == Seq::<char>::empty(),
        options.valid() ==> is_pool_password(text@, groups as int, *options),
{
    let pool = options.pool();
    proof {
        options.lemma_pool_empty_iff_invalid();
    }
    if pool.len() == 0 {
        return String::new();
    }
    let count = char_count(groups);
    let mut rng = rand::thread_rng();
    let draws = draw_indices(&mut rng, count, pool.len());
    let text = password_from_draws(&pool, &draws).unwrap();
    proof {
        lemma_drawn_password(pool@, draws@, groups as int, *options);
    }
    text
}

/// Grouping `5 * groups` characters drawn from the pool of valid options
/// gives a password of the uniform-pool policy.
proof fn lemma_drawn_password(
    pool: Seq<u8>,
    draws: Seq<usize>,
    groups: int,
    options: GenerationOptions,
)
    requires
        pool == options.pool_spec(),
        draws.len() == total_chars(groups),
        draws_within(draws, pool.len() as int),
    ensures
        is_pool_password(grouped(selected(pool, draws)), groups, options),
{
    let chars = selected(pool, draws);
    let text = grouped(chars);
    assert forall|i: int| 0 <= i < text.len() && i % 6 != 5 implies options.admits(text[i]) by {
        let b = chars[i - i / 6];
        assert(pool.contains(b));
        options.lemma_pool_admits(b);
    }
}

/// The two generation policies a host can select.
#[derive(Clone, Copy, Debug, PartialEq, Eq, Structural)]
pub enum Strategy {
    /// Every character is drawn uniformly from the pool of the enabled
    /// classes.
    UniformPool,
    /// Fixed quotas per class, shuffled; the enabled-class flags are ignored.
    FixedQuota,
}

/// What `generate_password` may return under the strategy.
pub open spec fn is_generated(
    text: Seq<char>,
    strategy: Strategy,
    groups: int,
    options: GenerationOptions,
) -> bool {
    match strategy {
        Strategy::UniformPool => if options.valid() {
            is_pool_password(text, groups, options)
        } else {
            text == Seq::<char>::empty()
        },
        Strategy::FixedQuota => is_quota_password(text, groups),
    }
}

/// Generates a password of `max(groups, 1)` groups under the strategy the
/// host selects. Under the uniform-pool policy the characters come from the
/// enabled classes, and with none enabled the result is the empty string.
/// Under the fixed-quota policy the options play no part: the result holds
/// exactly one special character, one or two uppercase letters, and
/// lowercase letters in every other place.
pub fn generate_password(strategy: Strategy, groups: i32, options: &GenerationOptions) -> (text:
    String)
    ensures
        is_generated(text@, strategy, groups as int, *options),
        strategy is UniformPool && !options.valid() ==> text@ == Seq::<char>::empty(),
        strategy is UniformPool && options.valid() ==> is_pool_password(
            text@,
            groups as int,
            *options,
        ),
        strategy is FixedQuota ==> is_quota_password(text@, groups as int),
{
    match strategy {
        Strategy::UniformPool => generate_pool_password(groups, options),
        Strategy::FixedQuota => generate_quota_password(groups),
    }
}

} // verus!
