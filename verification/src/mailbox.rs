//! The mailbox: one slot that the front-ends and the dispatcher share. It holds
//! exactly one exchange at a time, and writing a new one replaces the old one,
//! read or not: nothing is queued.

use crate::action::Action;
use crate::error::ErrorKind;
use vstd::prelude::*;

verus! {

/// What the mailbox holds at an instant.
#[derive(Clone, Copy, Debug, PartialEq, Eq)]
pub enum Exchange {
    /// Nothing is pending.
    Idle,
    /// A front-end asks for an action on a device.
    CommandPending { device_id: u128, action: Action },
    /// A front-end asks for the level of a device and waits.
    InquiryPending { device_id: u128 },
    /// The dispatcher answers an inquiry: the level, or why there is none.
    InquiryAnswered { level: Result<usize, ErrorKind> },
}

/// The variant of an exchange, without what it carries.
#[derive(Clone, Copy, Debug, PartialEq, Eq, Structural)]
pub enum Tag {
    Idle,
    CommandPending,
    InquiryPending,
    InquiryAnswered,
}

impl Exchange {
    /// The variant of the exchange.
    pub open spec fn tag(self) -> Tag {
        match self {
            Exchange::Idle => Tag::Idle,
            Exchange::CommandPending { .. } => Tag::CommandPending,
            Exchange::InquiryPending { .. } => Tag::InquiryPending,
            Exchange::InquiryAnswered { .. } => Tag::InquiryAnswered,
        }
    }

    /// Tells the variant of the exchange.
    pub fn get_tag(&self) -> (t: Tag)
        ensures
            t == self.tag(),
    {
        match self {
            Exchange::Idle => Tag::Idle,
            Exchange::CommandPending { .. } => Tag::CommandPending,
            Exchange::InquiryPending { .. } => Tag::InquiryPending,
            Exchange::InquiryAnswered { .. } => Tag::InquiryAnswered,
        }
    }
}

/// The slot after an exchange is published into it: that exchange, whatever
/// the slot held.
pub open spec fn published(slot: Exchange, exchange: Exchange) -> Exchange {
    exchange
}

/// The slot after an attempt to take an exchange of a given variant.
pub open spec fn slot_after_take(slot: Exchange, tag: Tag) -> Exchange {
    if slot.tag() == tag {
        Exchange::Idle
    } else {
        slot
    }
}

/// What an attempt to take an exchange of a given variant hands out.
pub open spec fn taken(slot: Exchange, tag: Tag) -> Option<Exchange> {
    if slot.tag() == tag {
        Some(slot)
    } else {
        None
    }
}

/// The shared slot. Its view is the exchange that it holds.
pub struct Mailbox {
    slot: Exchange,
}

impl View for Mailbox {
    type V = Exchange;

    closed spec fn view(&self) -> Exchange {
        self.slot
    }
}

impl Mailbox {
    /// A mailbox with nothing pending.
    pub fn new() -> (m: Mailbox)
        ensures
            m@ == Exchange::Idle,
    {
        Mailbox { slot: Exchange::Idle }
    }

    /// Replaces what the mailbox holds. What it held is gone, read or not.
    pub fn publish(&mut self, exchange: Exchange)
        ensures
            final(self)@ == published(old(self)@, exchange),
    {
        self.slot = exchange;
    }

    /// Takes out what the mailbox holds if it is of the given variant, and
    /// leaves the mailbox idle; else leaves it as it is and hands out nothing.
    pub fn take_if(&mut self, tag: Tag) -> (r: Option<Exchange>)
        ensures
            r == taken(old(self)@, tag),
            final(self)@ == slot_after_take(old(self)@, tag),
    {
        if self.slot.get_tag() == tag {
            let held = self.slot;
            self.slot = Exchange::Idle;
            Some(held)
        } else {
            None
        }
    }

    /// A copy of what the mailbox holds.
    pub fn peek(&self) -> (e: Exchange)
        ensures
            e == self@,
    {
        self.slot
    }
}

} // verus!
