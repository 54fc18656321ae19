//! A single-slot, latest-value-wins handoff from the acquisition loop to the
//! render loop: a new item supersedes an unconsumed one instead of queueing
//! behind it, so the slot never holds more than one item.

use vstd::prelude::*;

verus! {

/// Why a send was refused: the slot was closed.
#[derive(Clone, Copy, Debug, PartialEq, Eq, Structural)]
pub enum SendError {
    Closed,
}

/// The abstract state of a slot: the item waiting to be taken, if any, and
/// whether the slot was closed.
pub struct SlotState<T> {
    pub pending: Option<T>,
    pub closed: bool,
}

/// The state after a send of `item`: a closed slot is left as it is.
pub open spec fn state_after_send<T>(s: SlotState<T>, item: T) -> SlotState<T> {
    if s.closed {
        s
    } else {
        SlotState { pending: Some(item), closed: false }
    }
}

/// The state after sending each of `items` in turn.
pub open spec fn state_after_sends<T>(s: SlotState<T>, items: Seq<T>) -> SlotState<T>
    decreases items.len(),
{
    if items.len() == 0 {
        s
    } else {
        state_after_send(state_after_sends(s, items.drop_last()), items.last())
    }
}

pub struct LatestSlot<T> {
    pending: Option<T>,
    closed: bool,
}

impl<T> LatestSlot<T> {
    pub closed spec fn view(&self) -> SlotState<T> {
        SlotState { pending: self.pending, closed: self.closed }
    }

    /// An open, empty slot.
    pub fn new() -> (s: LatestSlot<T>)
        ensures
            s.view() == (SlotState::<T> { pending: None, closed: false }),
    {
        LatestSlot { pending: None, closed: false }
    }

    /// Offers `item`, superseding any item not yet taken; refused once the
    /// slot is closed.
    pub fn send(&mut self, item: T) -> (r: Result<(), SendError>)
        ensures
            final(self).view() == state_after_send(old(self).view(), item),
            r is Err <==> old(self).view().closed,
    {
        if self.closed {
            Err(SendError::Closed)
        } else {
            self.pending = Some(item);
            Ok(())
        }
    }

    /// Takes the waiting item, if any, without waiting; the slot is empty
    /// afterwards.
    pub fn try_receive(&mut self) -> (r: Option<T>)
        ensures
            r == old(self).view().pending,
            final(self).view() == (SlotState::<T> { pending: None, closed: old(self).view().closed }),
    {
        self.pending.take()
    }

    /// Closes the slot: later sends are refused; a waiting item can still be
    /// taken.
    pub fn close(&mut self)
        ensures
            final(self).view() == (SlotState::<T> { pending: old(self).view().pending, closed: true }),
    {
        self.closed = true;
    }

    pub fn is_closed(&self) -> (r: bool)
        ensures
            r == self.view().closed,
    {
        self.closed
    }
}

/// However many items are sent to an open slot before the consumer takes
/// one, the slot then holds exactly one item, the last one sent.
pub proof fn lemma_last_send_wins<T>(s: SlotState<T>, items: Seq<T>)
    requires
        !s.closed,
        items.len() > 0,
    ensures
        state_after_sends(s, items) == (SlotState::<T> { pending: Some(items.last()), closed: false }),
    decreases items.len(),
{
    if items.len() > 1 {
        lemma_last_send_wins(s, items.drop_last());
    } else {
        assert(state_after_sends(s, items.drop_last()) == s);
    }
}

/// Sends never reopen a slot, and a closed slot ignores them.
pub proof fn lemma_closed_slot_unchanged<T>(s: SlotState<T>, items: Seq<T>)
    requires
        s.closed,
    ensures
        state_after_sends(s, items) == s,
    decreases items.len(),
{
    if items.len() > 0 {
        lemma_closed_slot_unchanged(s, items.drop_last());
    }
}

} // verus!
