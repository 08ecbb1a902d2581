//! The fixed-quota policy: one or two uppercase letters, one special
//! character, lowercase letters for the rest, shuffled.

use crate::charset::{
    as_chars, count_in, lemma_count_all, lemma_count_concat, lemma_count_none, CharClass,
};
use crate::grouping::{
    char_count, effective_groups, format_groups, grouped, has_group_shape, lemma_grouped_count,
    total_chars,
};
use crate::random::{draw_indices, draws_within, pick_index, select_chars, selected};
use crate::shuffle::{draw_picks, lemma_shuffled_from, picks_valid, shuffle_with, shuffled};
use vstd::prelude::*;
use vstd::seq_lib::to_multiset_contains;

verus! {

/// Whether the draws can fill the quotas: one or two draws among the 26
/// uppercase letters, one among the 8 special characters, and any number
/// among the 26 lowercase letters.
pub open spec fn quota_draws_valid(uppers: Seq<usize>, special: usize, lowers: Seq<usize>) -> bool {
    &&& 1 <= uppers.len() <= 2
    &&& draws_within(uppers, 26)
    &&& special < 8
    &&& draws_within(lowers, 26)
}

/// The characters the draws pick, before shuffling: the uppercase letters,
/// the special character, the lowercase letters.
pub open spec fn quota_chars_spec(uppers: Seq<usize>, special: usize, lowers: Seq<usize>) -> Seq<u8> {
    selected(CharClass::Uppercase.alphabet(), uppers) + seq![
        CharClass::Special.alphabet()[special as int],
    ] + selected(CharClass::Lowercase.alphabet(), lowers)
}

/// What the fixed-quota policy may return: the group shape, exactly one
/// special character, one or two uppercase letters, and lowercase letters in
/// every other place between the hyphens.
pub open spec fn is_quota_password(text: Seq<char>, groups: int) -> bool {
    &&& has_group_shape(text, effective_groups(groups))
    &&& forall|i: int|
        0 <= i < text.len() && i % 6 != 5 ==> CharClass::Lowercase.holds(text[i])
            || CharClass::Uppercase.holds(text[i]) || CharClass::Special.holds(text[i])
    &&& count_in(text, CharClass::Special) == 1
    &&& 1 <= count_in(text, CharClass::Uppercase) <= 2
    &&& count_in(text, CharClass::Lowercase) + count_in(text, CharClass::Uppercase) + 1
        == total_chars(groups)
}

/// The characters that the given draws pick for the three quotas, before
/// shuffling. `None` when the draws cannot fill the quotas.
pub fn quota_chars(uppers: &Vec<usize>, special: usize, lowers: &Vec<usize>) -> (chars: Option<
    Vec<u8>,
>)
    ensures
        chars is Some <==> quota_draws_valid(uppers@, special, lowers@),
        chars matches Some(c) ==> c@ == quota_chars_spec(uppers@, special, lowers@),
{
    if uppers.len() < 1 || uppers.len() > 2 {
        return None;
    }
    let specials = CharClass::Special.letters();
    if special >= specials.len() {
        return None;
    }
    let upper_pool = CharClass::Uppercase.letters();
    let lower_pool = CharClass::Lowercase.letters();
    match select_chars(&upper_pool, uppers) {
        None => None,
        Some(mut chars) => match select_chars(&lower_pool, lowers) {
            None => None,
            Some(mut tail) => {
                chars.push(specials[special]);
                chars.append(&mut tail);
                assert(chars@ =~= quota_chars_spec(uppers@, special, lowers@));
                Some(chars)
            },
        },
    }
}

/// The password that the given draws yield under the fixed-quota policy: the
/// quota characters, shuffled by the picks and grouped. `None` when the draws
/// cannot fill the quotas or the picks do not fit the characters.
pub fn quota_password_from_draws(
    uppers: &Vec<usize>,
    special: usize,
    lowers: &Vec<usize>,
    picks: &Vec<usize>,
) -> (text: Option<String>)
    ensures
        text is Some <==> quota_draws_valid(uppers@, special, lowers@) && picks_valid(
            picks@,
            (uppers@.len() + 1 + lowers@.len()) as int,
        ),
        text matches Some(t) ==> t@ == grouped(
            shuffled(quota_chars_spec(uppers@, special, lowers@), picks@),
        ),
{
    match quota_chars(uppers, special, lowers) {
        None => None,
        Some(mut chars) => {
            if shuffle_with(&mut chars, picks) {
                Some(format_groups(&chars))
            } else {
                None
            }
        },
    }
}

/// Fixed-quota policy: `5 * max(groups, 1)` characters, of which one or two
/// are uppercase letters, one is a special character and the rest are
/// lowercase letters, uniformly shuffled, in groups of five joined by
/// hyphens. The enabled-class flags play no part.
pub fn generate_quota_password(groups: i32) -> (text: String)
    ensures
        is_quota_password(text@, groups as int),
{
    let count = char_count(groups);
    let mut rng = rand::thread_rng();
    let upper_count: u64 = if pick_index(&mut rng, 2) == 0 {
        1
    } else {
        2
    };
    let uppers = draw_indices(&mut rng, upper_count, 26);
    let special = pick_index(&mut rng, 8);
    let lowers = draw_indices(&mut rng, count - upper_count - 1, 26);
    let mut chars = quota_chars(&uppers, special, &lowers).unwrap();
    let picks = draw_picks(&mut rng, chars.len());
    let done = shuffle_with(&mut chars, &picks);
    proof {
        lemma_quota_password(uppers@, special, lowers@, picks@, groups as int);
    }
    format_groups(&chars)
}

/// Whatever the draws and the picks, as long as they fill the quotas and fit,
/// the grouped shuffle is a password of the fixed-quota policy.
pub proof fn lemma_quota_password(
    uppers: Seq<usize>,
    special: usize,
    lowers: Seq<usize>,
    picks: Seq<usize>,
    groups: int,
)
    requires
        quota_draws_valid(uppers, special, lowers),
        uppers.len() + 1 + lowers.len() == total_chars(groups),
        picks_valid(picks, total_chars(groups)),
    ensures
        is_quota_password(
            grouped(shuffled(quota_chars_spec(uppers, special, lowers), picks)),
            groups,
        ),
{
    let upper = CharClass::Uppercase;
    let lower = CharClass::Lowercase;
    let mark = CharClass::Special;
    let head = selected(upper.alphabet(), uppers);
    let mid = seq![mark.alphabet()[special as int]];
    let tail = selected(lower.alphabet(), lowers);
    let chars = quota_chars_spec(uppers, special, lowers);
    let mixed = shuffled(chars, picks);
    let text = grouped(mixed);

    // Each part holds characters of its own class only.
    assert forall|i: int| 0 <= i < head.len() implies upper.holds(#[trigger] as_chars(head)[i]) by {
        assert(upper.alphabet().contains(head[i]));
        upper.lemma_alphabet_holds(head[i]);
    }
    assert forall|i: int| 0 <= i < tail.len() implies lower.holds(#[trigger] as_chars(tail)[i]) by {
        assert(lower.alphabet().contains(tail[i]));
        lower.lemma_alphabet_holds(tail[i]);
    }
    assert(mark.holds(as_chars(mid)[0])) by {
        assert(mark.alphabet().contains(mid[0]));
        mark.lemma_alphabet_holds(mid[0]);
    }
    assert(as_chars(chars) =~= as_chars(head) + as_chars(mid) + as_chars(tail));

    // So the counts before the shuffle are the quotas.
    lemma_count_all(as_chars(head), upper);
    lemma_count_none(as_chars(mid), upper);
    lemma_count_none(as_chars(tail), upper);
    lemma_count_none(as_chars(head), lower);
    lemma_count_none(as_chars(mid), lower);
    lemma_count_all(as_chars(tail), lower);
    lemma_count_none(as_chars(head), mark);
    lemma_count_all(as_chars(mid), mark);
    lemma_count_none(as_chars(tail), mark);
    lemma_count_concat(as_chars(head), as_chars(mid), upper);
    lemma_count_concat(as_chars(head) + as_chars(mid), as_chars(tail), upper);
    lemma_count_concat(as_chars(head), as_chars(mid), lower);
    lemma_count_concat(as_chars(head) + as_chars(mid), as_chars(tail), lower);
    lemma_count_concat(as_chars(head), as_chars(mid), mark);
    lemma_count_concat(as_chars(head) + as_chars(mid), as_chars(tail), mark);

    // The shuffle and the grouping keep them.
    lemma_shuffled_from(chars, picks, chars.len() - 1);
    assert(count_in(as_chars(mixed), upper) == count_in(as_chars(chars), upper));
    assert(count_in(as_chars(mixed), lower) == count_in(as_chars(chars), lower));
    assert(count_in(as_chars(mixed), mark) == count_in(as_chars(chars), mark));
    lemma_grouped_count(mixed, upper);
    lemma_grouped_count(mixed, lower);
    lemma_grouped_count(mixed, mark);

    // Every shuffled character comes from one of the three parts.
    assert forall|i: int| 0 <= i < text.len() && i % 6 != 5 implies lower.holds(text[i])
        || upper.holds(text[i]) || mark.holds(text[i]) by {
        let b = mixed[i - i / 6];
        assert(mixed.contains(b));
        to_multiset_contains(mixed, b);
        to_multiset_contains(chars, b);
        let k = choose|k: int| 0 <= k < chars.len() && chars[k] == b;
        assert(as_chars(chars)[k] == b as char);
        if k < head.len() {
            assert(as_chars(head)[k] == b as char);
        } else if k == head.len() {
            assert(as_chars(mid)[0] == b as char);
        } else {
            assert(as_chars(tail)[k - head.len() - 1] == b as char);
        }
    }
}

} // verus!
