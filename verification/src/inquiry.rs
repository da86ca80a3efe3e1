//! The asking side of an inquiry: publish the question, then look for the
//! answer a bounded number of times. Each look is one call of `poll`; what lies
//! between two looks is the caller's business. The number of looks is fixed when
//! the wait begins, so a wait ends whatever the dispatcher does.

use crate::action::LEVELS;
use crate::dispatch::{Dispatcher, Outcome, Step};
use crate::error::ErrorKind;
use crate::mailbox::{published, Exchange, Mailbox, Tag};
use crate::registry::{by_uuid, Device};
use vstd::prelude::*;

verus! {

/// A wait for the answer to one inquiry.
#[derive(Clone, Copy, Debug, PartialEq, Eq)]
pub struct InquiryWait {
    /// The device that was asked about.
    pub device_id: u128,
    /// How many more times the mailbox may be found without an answer.
    pub remaining: usize,
    /// The level to answer with when the wait runs out.
    pub fallback: usize,
}

/// What one look into the mailbox found.
#[derive(Clone, Copy, Debug, PartialEq, Eq)]
pub enum Poll {
    /// The dispatcher answered with this level.
    Answered { level: usize },
    /// The dispatcher answered that there is no level, and why.
    Failed { error: ErrorKind },
    /// No answer yet; look again.
    Pending,
    /// No answer within the bound: the fallback stands in for it.
    TimedOut { fallback: usize },
}

impl Poll {
    /// What a finding amounts to for the asking side: nothing yet while the
    /// wait goes on, the level that was answered, the fallback after a
    /// timeout, or the failure that the dispatcher reported.
    pub open spec fn concluded(self) -> Option<Result<usize, ErrorKind>> {
        match self {
            Poll::Pending => None,
            Poll::Answered { level } => Some(Ok(level)),
            Poll::TimedOut { fallback } => Some(Ok(fallback)),
            Poll::Failed { error } => Some(Err(error)),
        }
    }

    /// The failure that a finding stands for: the one that the dispatcher
    /// reported, or a timeout where the fallback had to stand in.
    pub open spec fn failure(self) -> Option<ErrorKind> {
        match self {
            Poll::Failed { error } => Some(error),
            Poll::TimedOut { .. } => Some(ErrorKind::InquiryTimeout),
            _ => None,
        }
    }

    /// The failure that the finding stands for, if it stands for one.
    pub fn get_failure(&self) -> (r: Option<ErrorKind>)
        ensures
            r == self.failure(),
    {
        match self {
            Poll::Failed { error } => Some(*error),
            Poll::TimedOut { .. } => Some(ErrorKind::InquiryTimeout),
            _ => None,
        }
    }

    /// What the finding amounts to for the asking side.
    pub fn conclusion(&self) -> (r: Option<Result<usize, ErrorKind>>)
        ensures
            r == self.concluded(),
    {
        match self {
            Poll::Pending => None,
            Poll::Answered { level } => Some(Ok(*level)),
            Poll::TimedOut { fallback } => Some(Ok(*fallback)),
            Poll::Failed { error } => Some(Err(*error)),
        }
    }
}

impl InquiryWait {
    /// The wait, the mailbox and the finding after one look. An answer is
    /// taken out and leaves the mailbox idle. Without an answer the mailbox
    /// stays as it is; the look counts against the bound, and where the bound
    /// is used up the wait has timed out.
    pub open spec fn polled(self, slot: Exchange) -> (InquiryWait, Exchange, Poll) {
        match slot {
            Exchange::InquiryAnswered { level } => (
                self,
                Exchange::Idle,
                match level {
                    Ok(l) => Poll::Answered { level: l },
                    Err(e) => Poll::Failed { error: e },
                },
            ),
            _ => if self.remaining == 0 {
                (self, slot, Poll::TimedOut { fallback: self.fallback })
            } else {
                (
                    InquiryWait {
                        device_id: self.device_id,
                        remaining: (self.remaining - 1) as usize,
                        fallback: self.fallback,
                    },
                    slot,
                    Poll::Pending,
                )
            },
        }
    }

    /// The finding of a whole wait that sees the mailbox in these states, one
    /// per look, and stops at the first finding that is not `Pending`.
    pub open spec fn waited(self, seen: Seq<Exchange>) -> Poll
        decreases seen.len(),
    {
        if seen.len() == 0 {
            Poll::Pending
        } else {
            let (next, slot, found) = self.polled(seen[0]);
            if found is Pending {
                next.waited(seen.drop_first())
            } else {
                found
            }
        }
    }

    /// Publishes the inquiry and starts the wait for its answer.
    pub fn begin(mailbox: &mut Mailbox, device_id: u128, polls: usize, fallback: usize) -> (w:
        InquiryWait)
        ensures
            final(mailbox)@ == published(old(mailbox)@, Exchange::InquiryPending { device_id }),
            w == (InquiryWait { device_id, remaining: polls, fallback }),
    {
        mailbox.publish(Exchange::InquiryPending { device_id });
        InquiryWait { device_id, remaining: polls, fallback }
    }

    /// Looks into the mailbox once.
    pub fn poll(&mut self, mailbox: &mut Mailbox) -> (found: Poll)
        ensures
            (*final(self), final(mailbox)@, found) == old(self).polled(old(mailbox)@),
    {
        if let Some(Exchange::InquiryAnswered { level }) = mailbox.take_if(Tag::InquiryAnswered) {
            return match level {
                Ok(l) => Poll::Answered { level: l },
                Err(e) => Poll::Failed { error: e },
            };
        }
        if self.remaining == 0 {
            Poll::TimedOut { fallback: self.fallback }
        } else {
            self.remaining = self.remaining - 1;
            Poll::Pending
        }
    }
}

/// While the dispatcher runs, an inquiry for a known device is answered: the
/// tick that sees it asks the device, and once the device has reported a level
/// the next look of the wait finds that level, however little of its bound is
/// left, and leaves the mailbox idle.
pub proof fn lemma_inquiry_answered(
    d: Dispatcher,
    slot: Exchange,
    ds: Seq<Device>,
    w: InquiryWait,
    level: usize,
)
    requires
        by_uuid(ds, w.device_id) is Some,
        d.in_flight is None,
        level < LEVELS,
    ensures
        ({
            let asked = published(slot, Exchange::InquiryPending { device_id: w.device_id });
            let (d1, m1, s1) = d.stepped(asked, ds, false);
            let (d2, m2, ds2, report) = d1.settled(m1, ds, Outcome::Level(level));
            let (w3, m3, found) = w.polled(m2);
            &&& s1 == Step::Query {
                device_id: w.device_id,
                address: ds[by_uuid(ds, w.device_id).unwrap()].ip,
            }
            &&& m2 == Exchange::InquiryAnswered { level: Ok(level) }
            &&& report is None
            &&& found == Poll::Answered { level }
            &&& m3 == Exchange::Idle
        }),
{
}

/// An inquiry that cannot be answered with a level is answered with the
/// reason, so that the wait ends at its next look: at once for an unknown
/// device, and after the network was tried for one that cannot be reached.
pub proof fn lemma_inquiry_failure_shows(
    d: Dispatcher,
    slot: Exchange,
    ds: Seq<Device>,
    w: InquiryWait,
)
    requires
        d.in_flight is None,
    ensures
        ({
            let asked = published(slot, Exchange::InquiryPending { device_id: w.device_id });
            let (d1, m1, s1) = d.stepped(asked, ds, false);
            let (d2, m2, ds2, report) = d1.settled(m1, ds, Outcome::Failed);
            &&& by_uuid(ds, w.device_id) is None ==> w.polled(m1).2 == Poll::Failed {
                error: ErrorKind::UnknownDevice,
            }
            &&& by_uuid(ds, w.device_id) is Some ==> w.polled(m2).2 == Poll::Failed {
                error: ErrorKind::DeviceUnreachable,
            } && report == Some(ErrorKind::DeviceUnreachable)
        }),
{
}

/// An answer that shows within the bound is found: where the mailbox holds a
/// level at some look that the bound still allows, and no answer before it, the
/// wait ends with that level.
pub proof fn lemma_answer_within_bound_is_found(
    w: InquiryWait,
    seen: Seq<Exchange>,
    k: int,
    level: usize,
)
    requires
        0 <= k < seen.len(),
        k <= w.remaining,
        forall|i: int| 0 <= i < k ==> !((#[trigger] seen[i]) is InquiryAnswered),
        seen[k] == (Exchange::InquiryAnswered { level: Ok(level) }),
    ensures
        w.waited(seen) == (Poll::Answered { level }),
    decreases k,
{
    if k > 0 {
        let (next, slot, found) = w.polled(seen[0]);
        let rest = seen.drop_first();
        assert forall|i: int| 0 <= i < k - 1 implies !((#[trigger] rest[i]) is InquiryAnswered) by {
            assert(rest[i] == seen[i + 1]);
        }
        assert(rest[k - 1] == seen[k]);
        lemma_answer_within_bound_is_found(next, rest, k - 1, level);
    }
}

/// A wait ends: after one look more than its bound it has a finding, whatever
/// the mailbox held at each look.
pub proof fn lemma_wait_ends(w: InquiryWait, seen: Seq<Exchange>)
    requires
        seen.len() > w.remaining,
    ensures
        !(w.waited(seen) is Pending),
    decreases seen.len(),
{
    let (next, slot, found) = w.polled(seen[0]);
    if found is Pending {
        lemma_wait_ends(next, seen.drop_first());
    }
}

/// Where no answer ever shows, the wait ends with its fallback, at the look
/// that follows the last one its bound allows.
pub proof fn lemma_stalled_wait_falls_back(w: InquiryWait, seen: Seq<Exchange>)
    requires
        forall|i: int| 0 <= i < seen.len() ==> !((#[trigger] seen[i]) is InquiryAnswered),
    ensures
        seen.len() <= w.remaining ==> w.waited(seen) is Pending,
        seen.len() > w.remaining ==> w.waited(seen) == (Poll::TimedOut { fallback: w.fallback }),
    decreases seen.len(),
{
    if seen.len() > 0 {
        let (next, slot, found) = w.polled(seen[0]);
        let rest = seen.drop_first();
        assert forall|i: int| 0 <= i < rest.len() implies !((#[trigger] rest[i]) is InquiryAnswered) by {
            assert(rest[i] == seen[i + 1]);
        }
        if found is Pending {
            lemma_stalled_wait_falls_back(next, rest);
        }
    }
}

} // verus!
