//! Clipboard writes that wait until the surface is in the foreground.

use vstd::prelude::*;

verus! {

/// The text of an optional string.
pub open spec fn text_of(value: Option<String>) -> Option<Seq<char>> {
    match value {
        Some(text) => Some(text@),
        None => None,
    }
}

/// What one step of the queue comes to: the payload left pending and the
/// text to write to the clipboard now.
pub struct QueueStep {
    pub pending: Option<Seq<char>>,
    pub delivered: Option<Seq<char>>,
}

/// A submission, given what was pending: delivered at once in the
/// foreground, else stored in place of whatever was pending.
pub open spec fn after_submit(pending: Option<Seq<char>>, text: Seq<char>, foregrounded: bool)
    -> QueueStep {
    if foregrounded {
        QueueStep { pending: None, delivered: Some(text) }
    } else {
        QueueStep { pending: Some(text), delivered: None }
    }
}

/// The surface came to the foreground: what was pending is delivered.
pub open spec fn after_foregrounded(pending: Option<Seq<char>>) -> QueueStep {
    QueueStep { pending: None, delivered: pending }
}

/// Holds at most one clipboard payload until it can be delivered.
#[derive(Debug)]
pub struct ClipboardDeliveryQueue {
    pub pending: Option<String>,
}

impl View for ClipboardDeliveryQueue {
    type V = Option<Seq<char>>;

    /// The pending payload, if any.
    open spec fn view(&self) -> Option<Seq<char>> {
        text_of(self.pending)
    }
}

impl ClipboardDeliveryQueue {
    /// A queue with nothing pending.
    pub fn new() -> (queue: Self)
        ensures
            queue@ is None,
    {
        ClipboardDeliveryQueue { pending: None }
    }

    /// Asks for `text` to reach the clipboard. Returns the text to write
    /// now, if the surface is in the foreground; else keeps it as the one
    /// pending payload.
    pub fn submit(&mut self, text: String, foregrounded: bool) -> (delivered: Option<String>)
        ensures
            (QueueStep { pending: final(self)@, delivered: text_of(delivered) }) == after_submit(
                old(self)@,
                text@,
                foregrounded,
            ),
    {
        if foregrounded {
            self.pending = None;
            Some(text)
        } else {
            self.pending = Some(text);
            None
        }
    }

    /// The surface came to the foreground. Returns the text to write now,
    /// if one was pending.
    pub fn on_foregrounded(&mut self) -> (delivered: Option<String>)
        ensures
            (QueueStep { pending: final(self)@, delivered: text_of(delivered) })
                == after_foregrounded(old(self)@),
    {
        self.pending.take()
    }

    /// Drops the pending payload, if any.
    pub fn clear(&mut self)
        ensures
            final(self)@ is None,
    {
        self.pending = None;
    }
}

/// A submission in the foreground delivers its text at once and leaves
/// nothing pending, whatever was pending before.
pub proof fn lemma_foreground_submit_delivers(pending: Option<Seq<char>>, text: Seq<char>)
    ensures
        after_submit(pending, text, true).delivered == Some(text),
        after_submit(pending, text, true).pending is None,
{
}

/// Of two submissions made in the background, only the second is delivered
/// when the surface comes to the foreground, and nothing stays pending.
pub proof fn lemma_later_submit_replaces(
    pending: Option<Seq<char>>,
    first: Seq<char>,
    second: Seq<char>,
)
    ensures
        ({
            let one = after_submit(pending, first, false);
            let two = after_submit(one.pending, second, false);
            let shown = after_foregrounded(two.pending);
            &&& one.delivered is None
            &&& two.delivered is None
            &&& shown.delivered == Some(second)
            &&& shown.pending is None
        }),
{
}

} // verus!
