//! Formatting characters in groups of five joined by hyphens.

use crate::charset::{as_chars, count_in, lemma_count_push, CharClass};
use vstd::prelude::*;

verus! {

/// Characters per group.
pub const GROUP_SIZE: usize = 5;

/// Length of `n` characters once grouped: the characters and one hyphen
/// between each two consecutive groups of five.
pub open spec fn grouped_len(n: nat) -> nat {
    if n == 0 {
        0
    } else {
        (n + (n - 1) / 5) as nat
    }
}

/// The characters in groups of five joined by hyphens. Every sixth position
/// holds a hyphen; the others hold the characters in order.
pub open spec fn grouped(chars: Seq<u8>) -> Seq<char> {
    Seq::new(
        grouped_len(chars.len()),
        |i: int|
            if i % 6 == 5 {
                '-'
            } else {
                chars[i - i / 6] as char
            },
    )
}

/// Appending a character to the input appends it to the grouped text, after a
/// hyphen when it opens a new group.
pub proof fn lemma_grouped_push(chars: Seq<u8>, b: u8)
    ensures
        grouped(chars.push(b)) == if chars.len() > 0 && chars.len() % 5 == 0 {
            grouped(chars).push('-').push(b as char)
        } else {
            grouped(chars).push(b as char)
        },
{
    let n = chars.len() as int;
    let longer = chars.push(b);
    if n > 0 && n % 5 == 0 {
        assert(grouped(longer) =~= grouped(chars).push('-').push(b as char));
    } else {
        assert(grouped(longer) =~= grouped(chars).push(b as char));
    }
}

/// Grouping keeps the number of characters of each class: a hyphen belongs
/// to none.
pub proof fn lemma_grouped_count(chars: Seq<u8>, class: CharClass)
    ensures
        count_in(grouped(chars), class) == count_in(as_chars(chars), class),
    decreases chars.len(),
{
    if chars.len() == 0 {
        assert(grouped(chars) =~= Seq::<char>::empty());
        assert(as_chars(chars) =~= Seq::<char>::empty());
    } else {
        let init = chars.drop_last();
        let b = chars.last();
        assert(init.push(b) =~= chars);
        assert(as_chars(chars) =~= as_chars(init).push(b as char));
        lemma_grouped_count(init, class);
        lemma_grouped_push(init, b);
        lemma_count_push(as_chars(init), b as char, class);
        if init.len() > 0 && init.len() % 5 == 0 {
            lemma_count_push(grouped(init), '-', class);
            lemma_count_push(grouped(init).push('-'), b as char, class);
        } else {
            lemma_count_push(grouped(init), b as char, class);
        }
    }
}

/// Groups the characters in chunks of five and joins the chunks with a
/// hyphen. A final chunk shorter than five is kept as it is.
pub fn format_groups(chars: &Vec<u8>) -> (text: String)
    ensures
        text@ == grouped(chars@),
{
    let mut text = String::new();
    let mut i: usize = 0;
    assert(text@ =~= grouped(chars@.take(0)));
    while i < chars.len()
        invariant
            i <= chars.len(),
            text@ == grouped(chars@.take(i as int)),
        decreases chars.len() - i,
    {
        proof {
            lemma_grouped_push(chars@.take(i as int), chars@[i as int]);
            assert(chars@.take(i + 1) =~= chars@.take(i as int).push(chars@[i as int]));
        }
        if i > 0 && i % GROUP_SIZE == 0 {
            text.push('-');
        }
        text.push(chars[i] as char);
        i += 1;
    }
    assert(chars@.take(i as int) =~= chars@);
    text
}

/// The group count a request is served with: at least one.
pub open spec fn effective_groups(groups: int) -> int {
    if groups < 1 {
        1
    } else {
        groups
    }
}

/// Number of characters drawn for a request.
pub open spec fn total_chars(groups: int) -> int {
    5 * effective_groups(groups)
}

/// The shape of a password of `groups` groups: `5 * groups + (groups - 1)`
/// characters, with a hyphen at every sixth position.
pub open spec fn has_group_shape(text: Seq<char>, groups: int) -> bool {
    &&& text.len() == 5 * groups + (groups - 1)
    &&& forall|i: int| 0 <= i < text.len() && i % 6 == 5 ==> text[i] == '-'
}

/// Number of characters to draw, computed without overflow.
pub(crate) fn char_count(groups: i32) -> (count: u64)
    ensures
        count == total_chars(groups as int),
{
    if groups < 1 {
        5
    } else {
        5 * (groups as u64)
    }
}

} // verus!
