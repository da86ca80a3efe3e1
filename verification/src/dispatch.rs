//! The dispatcher: the one owner of device traffic. Its work is cut into two
//! functions without any waiting in them. `tick` looks into the mailbox and
//! says what is to be done on the network; once that is done, `settle` takes the
//! outcome and publishes what the asking side waits for. Between the two the
//! mailbox is free, so no network call ever happens while it is held.

use crate::action::{Action, LEVELS};
use crate::error::ErrorKind;
use crate::mailbox::{published, Exchange, Mailbox, Tag};
use crate::registry::{by_uuid, Device, Registry};
use vstd::prelude::*;

verus! {

/// What the dispatcher has handed to the network and not yet settled.
#[derive(Clone, Copy, Debug, PartialEq, Eq)]
pub enum InFlight {
    Command { device_id: u128 },
    Inquiry { device_id: u128 },
}

/// What the dispatcher remembers from one tick to the next.
#[derive(Clone, Copy, Debug, PartialEq, Eq)]
pub struct Dispatcher {
    /// The command that a tick saw last, whatever became of it.
    pub last: Option<(u128, Action)>,
    /// The one piece of work that is on the network now.
    pub in_flight: Option<InFlight>,
}

/// What a tick found and decided.
#[derive(Clone, Debug, PartialEq, Eq)]
pub enum Step {
    /// Shutdown was asked for: nothing was looked at.
    Stopped,
    /// Work is still on the network: nothing was looked at.
    Busy,
    /// Nothing is pending.
    Nothing,
    /// Send this action to the device at this address.
    Execute { device_id: u128, address: String, action: Action },
    /// Ask the device at this address for its level.
    Query { device_id: u128, address: String },
    /// The command repeats the one before it and was dropped.
    Duplicate { device_id: u128, action: Action },
    /// The command cannot be carried out and was dropped.
    Rejected { device_id: u128, error: ErrorKind },
    /// The inquiry cannot be carried out; the error was published as its
    /// answer.
    Unanswerable { device_id: u128, error: ErrorKind },
}

/// How the work on the network ended.
#[derive(Clone, Copy, Debug, PartialEq, Eq)]
pub enum Outcome {
    /// The device took the command.
    Done,
    /// The device reported this level.
    Level(usize),
    /// The device could not be reached, or made no sense.
    Failed,
}

/// The answer to an inquiry that an outcome amounts to.
pub open spec fn answer_of(outcome: Outcome) -> Result<usize, ErrorKind> {
    match outcome {
        Outcome::Level(l) => if l < LEVELS {
            Ok(l)
        } else {
            Err(ErrorKind::OutOfRange)
        },
        _ => Err(ErrorKind::DeviceUnreachable),
    }
}

/// The devices after a level was recorded for the one with this identifier.
pub open spec fn recorded(ds: Seq<Device>, device_id: u128, target: usize) -> Seq<Device> {
    match by_uuid(ds, device_id) {
        Some(i) => if target < LEVELS {
            ds.update(i, Device { target: target, ..ds[i] })
        } else {
            ds
        },
        None => ds,
    }
}

impl Dispatcher {
    /// The dispatcher, the mailbox and the decision after a tick.
    ///
    /// A pending command is taken out of the mailbox in every case. Where it
    /// repeats the command that was seen last, it is dropped. Else it becomes
    /// the command seen last, whatever becomes of it: it is rejected where its
    /// level is none of the levels or its device is unknown, and goes to the
    /// network otherwise. A pending inquiry for a known device goes to the
    /// network; one for an unknown device is answered with that error at once.
    /// While work is on the network, and after a shutdown was asked for, a tick
    /// changes nothing.
    pub open spec fn stepped(self, slot: Exchange, ds: Seq<Device>, shutdown: bool) -> (
        Dispatcher,
        Exchange,
        Step,
    ) {
        if shutdown {
            (self, slot, Step::Stopped)
        } else if self.in_flight is Some {
            (self, slot, Step::Busy)
        } else {
            match slot {
                Exchange::Idle => (self, slot, Step::Nothing),
                Exchange::InquiryAnswered { .. } => (self, slot, Step::Nothing),
                Exchange::CommandPending { device_id, action } => {
                    if self.last == Some((device_id, action)) {
                        (self, Exchange::Idle, Step::Duplicate { device_id, action })
                    } else if !action.wf() {
                        (
                            Dispatcher { last: Some((device_id, action)), in_flight: None },
                            Exchange::Idle,
                            Step::Rejected { device_id, error: ErrorKind::OutOfRange },
                        )
                    } else {
                        match by_uuid(ds, device_id) {
                            None => (
                                Dispatcher { last: Some((device_id, action)), in_flight: None },
                                Exchange::Idle,
                                Step::Rejected { device_id, error: ErrorKind::UnknownDevice },
                            ),
                            Some(i) => (
                                Dispatcher {
                                    last: Some((device_id, action)),
                                    in_flight: Some(InFlight::Command { device_id }),
                                },
                                Exchange::Idle,
                                Step::Execute { device_id, address: ds[i].ip, action },
                            ),
                        }
                    }
                },
                Exchange::InquiryPending { device_id } => match by_uuid(ds, device_id) {
                    None => (
                        self,
                        Exchange::InquiryAnswered { level: Err(ErrorKind::UnknownDevice) },
                        Step::Unanswerable { device_id, error: ErrorKind::UnknownDevice },
                    ),
                    Some(i) => (
                        Dispatcher {
                            last: self.last,
                            in_flight: Some(InFlight::Inquiry { device_id }),
                        },
                        Exchange::Idle,
                        Step::Query { device_id, address: ds[i].ip },
                    ),
                },
            }
        }
    }

    /// The dispatcher, the mailbox, the devices and the failure to report once
    /// the work on the network has ended.
    ///
    /// After a command the mailbox stays as it is, and a failure is reported.
    /// After an inquiry the answer is published over whatever the mailbox
    /// holds: the level, which is also recorded for the device, or the failure,
    /// which is reported too. With nothing on the network nothing changes.
    pub open spec fn settled(self, slot: Exchange, ds: Seq<Device>, outcome: Outcome) -> (
        Dispatcher,
        Exchange,
        Seq<Device>,
        Option<ErrorKind>,
    ) {
        let free = Dispatcher { last: self.last, in_flight: None };
        match self.in_flight {
            None => (self, slot, ds, None),
            Some(InFlight::Command { device_id }) => (
                free,
                slot,
                ds,
                if outcome is Failed {
                    Some(ErrorKind::DeviceUnreachable)
                } else {
                    None
                },
            ),
            Some(InFlight::Inquiry { device_id }) => match answer_of(outcome) {
                Ok(l) => (
                    free,
                    published(slot, Exchange::InquiryAnswered { level: Ok(l) }),
                    recorded(ds, device_id, l),
                    None,
                ),
                Err(e) => (
                    free,
                    published(slot, Exchange::InquiryAnswered { level: Err(e) }),
                    ds,
                    Some(e),
                ),
            },
        }
    }

    /// A dispatcher that has seen no command and has nothing on the network.
    pub fn new() -> (d: Dispatcher)
        ensures
            d == (Dispatcher { last: None, in_flight: None }),
    {
        Dispatcher { last: None, in_flight: None }
    }

    /// The command is the one that a tick saw last.
    pub fn repeats(&self, device_id: u128, action: Action) -> (r: bool)
        ensures
            r == (self.last == Some((device_id, action))),
    {
        match self.last {
            Some((id, a)) => id == device_id && a == action,
            None => false,
        }
    }

    /// Looks into the mailbox once and decides what is to be done.
    pub fn tick(&mut self, mailbox: &mut Mailbox, registry: &Registry, shutdown: bool) -> (step:
        Step)
        ensures
            (*final(self), final(mailbox)@, step) == old(self).stepped(
                old(mailbox)@,
                registry@,
                shutdown,
            ),
    {
        if shutdown {
            return Step::Stopped;
        }
        if self.in_flight.is_some() {
            return Step::Busy;
        }
        if let Some(Exchange::CommandPending { device_id, action }) = mailbox.take_if(
            Tag::CommandPending,
        ) {
            if self.repeats(device_id, action) {
                return Step::Duplicate { device_id, action };
            }
            self.last = Some((device_id, action));
            if let Action::SetTo { target } = action {
                if target >= LEVELS {
                    return Step::Rejected { device_id, error: ErrorKind::OutOfRange };
                }
            }
            return match registry.position(device_id) {
                None => Step::Rejected { device_id, error: ErrorKind::UnknownDevice },
                Some(i) => {
                    self.in_flight = Some(InFlight::Command { device_id });
                    Step::Execute { device_id, address: registry.device(i).ip.clone(), action }
                },
            };
        }
        if let Some(Exchange::InquiryPending { device_id }) = mailbox.take_if(Tag::InquiryPending) {
            return match registry.position(device_id) {
                None => {
                    mailbox.publish(
                        Exchange::InquiryAnswered { level: Err(ErrorKind::UnknownDevice) },
                    );
                    Step::Unanswerable { device_id, error: ErrorKind::UnknownDevice }
                },
                Some(i) => {
                    self.in_flight = Some(InFlight::Inquiry { device_id });
                    Step::Query { device_id, address: registry.device(i).ip.clone() }
                },
            };
        }
        Step::Nothing
    }

    /// Takes the outcome of the work on the network and publishes what
    /// follows from it.
    pub fn settle(&mut self, mailbox: &mut Mailbox, registry: &mut Registry, outcome: Outcome) -> (report:
        Option<ErrorKind>)
        ensures
            (*final(self), final(mailbox)@, final(registry)@, report) == old(self).settled(
                old(mailbox)@,
                old(registry)@,
                outcome,
            ),
            old(registry).wf() ==> final(registry).wf(),
    {
        let work = match self.in_flight {
            None => {
                return None;
            },
            Some(w) => w,
        };
        self.in_flight = None;
        match work {
            InFlight::Command { device_id } => match outcome {
                Outcome::Failed => Some(ErrorKind::DeviceUnreachable),
                _ => None,
            },
            InFlight::Inquiry { device_id } => {
                let answer: Result<usize, ErrorKind> = match outcome {
                    Outcome::Level(l) => if l < LEVELS {
                        Ok(l)
                    } else {
                        Err(ErrorKind::OutOfRange)
                    },
                    _ => Err(ErrorKind::DeviceUnreachable),
                };
                mailbox.publish(Exchange::InquiryAnswered { level: answer });
                match answer {
                    Ok(l) => {
                        let _ = registry.record_target(device_id, l);
                        None
                    },
                    Err(e) => Some(e),
                }
            },
        }
    }
}

/// A well-formed command for a known device that does not repeat the last
/// one, published while the dispatcher is free, goes to the network at the next
/// tick with its device, its action and its level, and that tick leaves the
/// mailbox idle. Once its outcome is settled, whatever it is, the mailbox is
/// still idle and the tick after that finds nothing: the command went out once.
pub proof fn lemma_command_goes_out_once(
    d: Dispatcher,
    slot: Exchange,
    ds: Seq<Device>,
    device_id: u128,
    action: Action,
    outcome: Outcome,
)
    requires
        action.wf(),
        by_uuid(ds, device_id) is Some,
        d.in_flight is None,
        d.last != Some((device_id, action)),
    ensures
        ({
            let sent = published(slot, Exchange::CommandPending { device_id, action });
            let (d1, m1, s1) = d.stepped(sent, ds, false);
            let (d2, m2, ds2, report) = d1.settled(m1, ds, outcome);
            let (d3, m3, s3) = d2.stepped(m2, ds2, false);
            &&& s1 == Step::Execute {
                device_id,
                address: ds[by_uuid(ds, device_id).unwrap()].ip,
                action,
            }
            &&& m1 == Exchange::Idle
            &&& m2 == Exchange::Idle
            &&& ds2 == ds
            &&& s3 == Step::Nothing
            &&& m3 == Exchange::Idle
        }),
{
}

/// Of two commands published one after the other before any tick, only the
/// second goes to the network: the first is overwritten and never seen.
pub proof fn lemma_second_command_wins(
    d: Dispatcher,
    slot: Exchange,
    ds: Seq<Device>,
    first: (u128, Action),
    second: (u128, Action),
    outcome: Outcome,
)
    requires
        first != second,
        second.1.wf(),
        by_uuid(ds, second.0) is Some,
        d.in_flight is None,
        d.last != Some(second),
    ensures
        ({
            let once = published(
                slot,
                Exchange::CommandPending { device_id: first.0, action: first.1 },
            );
            let twice = published(
                once,
                Exchange::CommandPending { device_id: second.0, action: second.1 },
            );
            let (d1, m1, s1) = d.stepped(twice, ds, false);
            let (d2, m2, ds2, report) = d1.settled(m1, ds, outcome);
            let (d3, m3, s3) = d2.stepped(m2, ds2, false);
            &&& s1 == Step::Execute {
                device_id: second.0,
                address: ds[by_uuid(ds, second.0).unwrap()].ip,
                action: second.1,
            }
            &&& m1 == Exchange::Idle
            &&& s3 == Step::Nothing
            &&& m3 == Exchange::Idle
        }),
{
}

/// A command for a device that the registry does not hold never goes to the
/// network: the tick takes it out of the mailbox and reports the device as
/// unknown. An inquiry for such a device is answered with that error, so that
/// the asking side learns of it.
pub proof fn lemma_unknown_device_is_reported(
    d: Dispatcher,
    ds: Seq<Device>,
    device_id: u128,
    action: Action,
)
    requires
        by_uuid(ds, device_id) is None,
        action.wf(),
        d.in_flight is None,
        d.last != Some((device_id, action)),
    ensures
        d.stepped(Exchange::CommandPending { device_id, action }, ds, false) == (
            Dispatcher { last: Some((device_id, action)), in_flight: None },
            Exchange::Idle,
            Step::Rejected { device_id, error: ErrorKind::UnknownDevice },
        ),
        d.stepped(Exchange::InquiryPending { device_id }, ds, false) == (
            d,
            Exchange::InquiryAnswered { level: Err(ErrorKind::UnknownDevice) },
            Step::Unanswerable { device_id, error: ErrorKind::UnknownDevice },
        ),
{
}

/// A tick compares a command with the one it saw immediately before, not with
/// the one that last went to the network. So a command that went out, then a
/// rejected command, then the first command again: the first command goes out
/// a second time.
pub proof fn lemma_rejected_command_is_remembered(
    d: Dispatcher,
    ds: Seq<Device>,
    first: (u128, Action),
    rejected: (u128, Action),
    outcome: Outcome,
)
    requires
        first.1.wf(),
        by_uuid(ds, first.0) is Some,
        rejected != first,
        !rejected.1.wf() || by_uuid(ds, rejected.0) is None,
        d.in_flight is None,
        d.last != Some(first),
        d.last != Some(rejected),
    ensures
        ({
            let a = Exchange::CommandPending { device_id: first.0, action: first.1 };
            let b = Exchange::CommandPending { device_id: rejected.0, action: rejected.1 };
            let (d1, m1, s1) = d.stepped(a, ds, false);
            let (d2, m2, ds2, r2) = d1.settled(m1, ds, outcome);
            let (d3, m3, s3) = d2.stepped(published(m2, b), ds2, false);
            let (d4, m4, s4) = d3.stepped(published(m3, a), ds2, false);
            &&& s1 is Execute
            &&& s3 is Rejected
            &&& d3.last == Some(rejected)
            &&& m3 == Exchange::Idle
            &&& s4 == s1
            &&& d4.last == Some(first)
        }),
{
}

/// At most one piece of work is on the network: a tick hands out work only
/// while none is in flight, and then marks it as in flight until it is settled.
pub proof fn lemma_one_in_flight(d: Dispatcher, slot: Exchange, ds: Seq<Device>, shutdown: bool)
    ensures
        ({
            let (d1, m1, s1) = d.stepped(slot, ds, shutdown);
            &&& (s1 is Execute || s1 is Query) ==> d.in_flight is None && d1.in_flight is Some
            &&& !(s1 is Execute || s1 is Query) ==> d1.in_flight == d.in_flight
            &&& d.in_flight is Some ==> m1 == slot && !(s1 is Execute) && !(s1 is Query)
        }),
{
}

} // verus!
