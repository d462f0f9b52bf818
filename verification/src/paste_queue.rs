//! The order in which segments paste.
use vstd::prelude::*;

verus! {

/// Ensures segments within a session paste in recording order.
///
/// The queue says whose turn it is. A segment that wants to paste waits until
/// the turn is its own and passes it on when it is done.
pub struct PasteQueue {
    next_to_paste: u64,
}

impl View for PasteQueue {
    type V = nat;

    /// The sequence number of the segment whose turn it is.
    closed spec fn view(&self) -> nat {
        self.next_to_paste as nat
    }
}

impl PasteQueue {
    pub fn new() -> (queue: Self)
        ensures
            queue@ == 0,
    {
        PasteQueue { next_to_paste: 0 }
    }

    /// Whether it is this segment's turn to paste; until then it has to wait.
    pub fn is_turn(&self, my_sequence: u64) -> (yes: bool)
        ensures
            yes == (self@ == my_sequence),
    {
        self.next_to_paste == my_sequence
    }

    /// Whether there is a sequence number left to pass the turn on to.
    pub fn can_advance(&self) -> (yes: bool)
        ensures
            yes == (self@ < u64::MAX),
    {
        self.next_to_paste < u64::MAX
    }

    /// Records that this segment's paste is done: the turn is the next one's.
    pub fn advance(&mut self)
        requires
            old(self)@ < u64::MAX,
        ensures
            final(self)@ == old(self)@ + 1,
    {
        self.next_to_paste = self.next_to_paste + 1;
    }
}

} // verus!
