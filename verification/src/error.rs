//! What can go wrong, and how a front-end words it for its caller.

use vstd::prelude::*;

verus! {

/// The classes of failure that the hub tells apart.
#[derive(Clone, Copy, Debug, PartialEq, Eq, Structural)]
pub enum ErrorKind {
    /// Malformed action, device or level text.
    ParseError,
    /// The device is not in the registry.
    UnknownDevice,
    /// A level outside the range of levels.
    OutOfRange,
    /// The network call to a device failed.
    DeviceUnreachable,
    /// No answer arrived within the bounded wait.
    InquiryTimeout,
}

impl ErrorKind {
    /// The sentence that describes a failure to the caller.
    pub open spec fn message_spec(self) -> Seq<char> {
        match self {
            ErrorKind::ParseError => "Oops, the request could not be read"@,
            ErrorKind::UnknownDevice => "Oops, we don't know that device"@,
            ErrorKind::OutOfRange => "Oops, Target should be 0 <= t < 8"@,
            ErrorKind::DeviceUnreachable => "Oops, the device could not be reached"@,
            ErrorKind::InquiryTimeout => "Oops, the device did not answer in time"@,
        }
    }

    /// The sentence that describes it, as text.
    pub fn message(&self) -> (m: &'static str)
        ensures
            m@ == self.message_spec(),
    {
        match self {
            ErrorKind::ParseError => "Oops, the request could not be read",
            ErrorKind::UnknownDevice => "Oops, we don't know that device",
            ErrorKind::OutOfRange => "Oops, Target should be 0 <= t < 8",
            ErrorKind::DeviceUnreachable => "Oops, the device could not be reached",
            ErrorKind::InquiryTimeout => "Oops, the device did not answer in time",
        }
    }
}

/// Why a front-end turned a request down before it reached the mailbox.
#[derive(Clone, Copy, Debug, PartialEq, Eq, Structural)]
pub enum Rejection {
    /// The request carried no instruction at all.
    MissingInstruction,
    /// The request named no device.
    MissingDevice,
    /// The request named a device that the registry does not hold.
    UnknownDevice,
    /// The request named no action.
    MissingAction,
    /// The action is none of the known ones.
    InvalidAction,
    /// `set` came without a target level.
    MissingTarget,
    /// The target level is no unsigned decimal number.
    TargetNotNumber,
    /// The target level is a number, but not one of the levels.
    TargetOutOfRange,
    /// The payload has not the shape of an abbreviated command.
    Malformed,
    /// The payload is no UTF-8 text.
    NotText,
}

impl Rejection {
    /// The class of failure that a rejection falls under.
    pub open spec fn kind_spec(self) -> ErrorKind {
        match self {
            Rejection::UnknownDevice => ErrorKind::UnknownDevice,
            Rejection::TargetOutOfRange => ErrorKind::OutOfRange,
            _ => ErrorKind::ParseError,
        }
    }

    /// The sentence that describes a rejection to the caller.
    pub open spec fn message_spec(self) -> Seq<char> {
        match self {
            Rejection::MissingInstruction => "Oops, we didn't get the instruction"@,
            Rejection::MissingDevice => "Oops, we didn't get a device!"@,
            Rejection::UnknownDevice => "Oops, we don't know that device"@,
            Rejection::MissingAction => "Oops, we didn't get an action!"@,
            Rejection::InvalidAction => "Oops, the given action was invalid"@,
            Rejection::MissingTarget => "Oops, set needs a target, 0 through 7"@,
            Rejection::TargetNotNumber => "Oops, Target should be a number, 0 through 7"@,
            Rejection::TargetOutOfRange => "Oops, Target should be 0 <= t < 8"@,
            Rejection::Malformed => "Oops, the command was malformed"@,
            Rejection::NotText => "Oops, the payload was no text"@,
        }
    }

    /// The class of failure that the rejection falls under.
    pub fn kind(&self) -> (k: ErrorKind)
        ensures
            k == self.kind_spec(),
    {
        match self {
            Rejection::UnknownDevice => ErrorKind::UnknownDevice,
            Rejection::TargetOutOfRange => ErrorKind::OutOfRange,
            _ => ErrorKind::ParseError,
        }
    }

    /// The sentence that describes it, as text.
    pub fn message(&self) -> (m: &'static str)
        ensures
            m@ == self.message_spec(),
    {
        match self {
            Rejection::MissingInstruction => "Oops, we didn't get the instruction",
            Rejection::MissingDevice => "Oops, we didn't get a device!",
            Rejection::UnknownDevice => "Oops, we don't know that device",
            Rejection::MissingAction => "Oops, we didn't get an action!",
            Rejection::InvalidAction => "Oops, the given action was invalid",
            Rejection::MissingTarget => "Oops, set needs a target, 0 through 7",
            Rejection::TargetNotNumber => "Oops, Target should be a number, 0 through 7",
            Rejection::TargetOutOfRange => "Oops, Target should be 0 <= t < 8",
            Rejection::Malformed => "Oops, the command was malformed",
            Rejection::NotText => "Oops, the payload was no text",
        }
    }
}

} // verus!
