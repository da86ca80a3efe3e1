//! The HTTP front-end, without the listening and routing: what each endpoint
//! does with the parameters of a request. A request that is found wrong is
//! answered with its rejection and leaves the mailbox as it is. One that is
//! accepted is published as a pending command, and the caller gets the record of
//! what was accepted, not a later look into the mailbox.

use crate::command::{
    free_text_command, opt_view, parameter_command, pending, publish_parsed, read_free_text,
    read_parameters, sound, Parsed,
};
use crate::text::{replace_all, replaced};
use crate::error::{ErrorKind, Rejection};
use crate::inquiry::Poll;
use crate::mailbox::{published, Exchange, Mailbox};
use crate::registry::{Device, Registry};
use crate::shared::SharedRequest;
use crate::text::{append_numeral, numeral};
use vstd::prelude::*;

verus! {

/// The record of a command that was read, under the name of its device as the
/// registry has it.
pub open spec fn accepted(ds: Seq<Device>, p: Parsed) -> SharedRequest {
    SharedRequest::Command { device: ds[p.device as int].name, action: p.action, target: p.target }
}

/// What the mailbox holds and what the caller gets after a request was read.
pub open spec fn answered(
    ds: Seq<Device>,
    slot: Exchange,
    read: Result<Parsed, Rejection>,
) -> (Exchange, Result<SharedRequest, Rejection>) {
    match read {
        Ok(p) => (published(slot, pending(ds, p)), Ok(accepted(ds, p))),
        Err(e) => (slot, Err(e)),
    }
}

/// The command that an instruction writes: free text in which `%20` stands
/// for a blank.
pub open spec fn instruction_command(ds: Seq<Device>, instruction: Option<Seq<char>>) -> Result<
    Parsed,
    Rejection,
> {
    match instruction {
        None => Err(Rejection::MissingInstruction),
        Some(text) => free_text_command(ds, replaced(text, seq!['%', '2', '0'], seq![' '])),
    }
}

/// The sentence with which the endpoint of separate parameters answers a
/// request that it turns down. A missing and an unknown device are worded
/// alike, and so are a level that is no number and one out of range.
pub open spec fn parsed_command_sentence_spec(rejection: Rejection) -> Seq<char> {
    match rejection {
        Rejection::MissingDevice => "Oops, we didn't get the Device"@,
        Rejection::UnknownDevice => "Oops, we didn't get the Device"@,
        Rejection::MissingAction => "Oops, we didn't get the Action"@,
        Rejection::InvalidAction => "Oops, Action was invalid"@,
        Rejection::TargetNotNumber => "Oops, Target should be 0 <= t < 8"@,
        Rejection::TargetOutOfRange => "Oops, Target should be 0 <= t < 8"@,
        _ => rejection.message_spec(),
    }
}

/// The sentence with which the endpoint of instructions answers a request
/// that it turns down. Leading words that name no device are worded like no
/// words at all.
pub open spec fn command_sentence_spec(rejection: Rejection) -> Seq<char> {
    match rejection {
        Rejection::MissingInstruction => "Oops, we didn't get the instruction"@,
        Rejection::MissingDevice => "Oops, we didn't get a device!"@,
        Rejection::UnknownDevice => "Oops, we didn't get a device!"@,
        Rejection::MissingAction => "Oops, we didn't get an action!"@,
        Rejection::InvalidAction => "Oops, the given action was invalid"@,
        Rejection::TargetNotNumber => "Oops, Target should be a number, 0 though 7"@,
        Rejection::TargetOutOfRange => "Oops, Target should be 0 <= t < 8"@,
        _ => rejection.message_spec(),
    }
}

/// Words a rejection for the endpoint of separate parameters.
pub fn parsed_command_sentence(rejection: &Rejection) -> (body: &'static str)
    ensures
        body@ == parsed_command_sentence_spec(*rejection),
{
    match rejection {
        Rejection::MissingDevice => "Oops, we didn't get the Device",
        Rejection::UnknownDevice => "Oops, we didn't get the Device",
        Rejection::MissingAction => "Oops, we didn't get the Action",
        Rejection::InvalidAction => "Oops, Action was invalid",
        Rejection::TargetNotNumber => "Oops, Target should be 0 <= t < 8",
        Rejection::TargetOutOfRange => "Oops, Target should be 0 <= t < 8",
        _ => rejection.message(),
    }
}

/// Words a rejection for the endpoint of instructions.
pub fn command_sentence(rejection: &Rejection) -> (body: &'static str)
    ensures
        body@ == command_sentence_spec(*rejection),
{
    match rejection {
        Rejection::MissingInstruction => "Oops, we didn't get the instruction",
        Rejection::MissingDevice => "Oops, we didn't get a device!",
        Rejection::UnknownDevice => "Oops, we didn't get a device!",
        Rejection::MissingAction => "Oops, we didn't get an action!",
        Rejection::InvalidAction => "Oops, the given action was invalid",
        Rejection::TargetNotNumber => "Oops, Target should be a number, 0 though 7",
        Rejection::TargetOutOfRange => "Oops, Target should be 0 <= t < 8",
        _ => rejection.message(),
    }
}

fn answer(mailbox: &mut Mailbox, registry: &Registry, read: Result<Parsed, Rejection>) -> (r:
    Result<SharedRequest, Rejection>)
    requires
        read matches Ok(p) ==> sound(registry@, p),
    ensures
        (final(mailbox)@, r) == answered(registry@, old(mailbox)@, read),
        r matches Ok(request) ==> request.wf(),
{
    match read {
        Err(e) => Err(e),
        Ok(p) => {
            let _ = publish_parsed(mailbox, registry, &p);
            Ok(
                SharedRequest::Command {
                    device: registry.device(p.device).name.clone(),
                    action: p.action,
                    target: p.target,
                },
            )
        },
    }
}

/// The root endpoint: clears the mailbox and has nothing to say.
pub fn handle_index(mailbox: &mut Mailbox) -> (body: &'static str)
    ensures
        final(mailbox)@ == published(old(mailbox)@, Exchange::Idle),
        body@ == "Nothing here!"@,
{
    mailbox.publish(Exchange::Idle);
    "Nothing here!"
}

/// The endpoint that takes device, action and target as separate parameters.
/// A request that is turned down is answered with `parsed_command_sentence`.
pub fn handle_parsed_command(
    mailbox: &mut Mailbox,
    registry: &Registry,
    device: Option<&str>,
    action: Option<&str>,
    target: Option<&str>,
) -> (r: Result<SharedRequest, Rejection>)
    ensures
        (final(mailbox)@, r) == answered(
            registry@,
            old(mailbox)@,
            parameter_command(registry@, opt_view(device), opt_view(action), opt_view(target)),
        ),
        r matches Ok(request) ==> request.wf(),
{
    let read = read_parameters(device, action, target, registry);
    answer(mailbox, registry, read)
}

/// The endpoint that takes one instruction in free text, in which `%20`
/// stands for a blank. A request that is turned down is answered with
/// `command_sentence`.
pub fn handle_command(mailbox: &mut Mailbox, registry: &Registry, instruction: Option<&str>) -> (r:
    Result<SharedRequest, Rejection>)
    ensures
        (final(mailbox)@, r) == answered(
            registry@,
            old(mailbox)@,
            instruction_command(registry@, opt_view(instruction)),
        ),
        r matches Ok(request) ==> request.wf(),
{
    let read = match instruction {
        None => Err(Rejection::MissingInstruction),
        Some(text) => {
            proof {
                reveal_strlit("%20");
                reveal_strlit(" ");
                assert("%20"@ =~= seq!['%', '2', '0']);
                assert(" "@ =~= seq![' ']);
            }
            let plain = replace_all(text, "%20", " ");
            read_free_text(plain.as_str(), registry)
        },
    };
    answer(mailbox, registry, read)
}

/// What the finding of one wait gives the endpoint that gathers levels: the
/// level, the fallback after a timeout, or a failure. A wait that was given up
/// while still pending counts as timed out.
pub open spec fn level_or_error(found: Poll) -> Result<usize, ErrorKind> {
    match found.concluded() {
        Some(r) => r,
        None => Err(ErrorKind::InquiryTimeout),
    }
}

/// The body that answers an inquiry about several devices: the numerals of
/// their levels, one after the other in the order of the devices; or, where a
/// device gave no level, the failure of the first such device.
pub open spec fn gathered(findings: Seq<Poll>) -> Result<Seq<u8>, ErrorKind>
    decreases findings.len(),
{
    if findings.len() == 0 {
        Ok(Seq::empty())
    } else {
        match gathered(findings.drop_last()) {
            Err(e) => Err(e),
            Ok(text) => match level_or_error(findings.last()) {
                Err(e) => Err(e),
                Ok(level) => Ok(text + numeral(level as nat)),
            },
        }
    }
}

/// The view of a gathered body.
pub open spec fn body_view(r: Result<Vec<u8>, ErrorKind>) -> Result<Seq<u8>, ErrorKind> {
    match r {
        Ok(text) => Ok(text@),
        Err(e) => Err(e),
    }
}

/// The endpoint that reports the levels of several devices, from what the
/// wait for each of them found.
pub fn handle_levels(findings: &Vec<Poll>) -> (r: Result<Vec<u8>, ErrorKind>)
    ensures
        body_view(r) == gathered(findings@),
{
    let mut body: Vec<u8> = Vec::new();
    let mut i: usize = 0;
    assert(findings@.take(0) =~= Seq::<Poll>::empty());
    while i < findings.len()
        invariant
            i <= findings.len(),
            gathered(findings@.take(i as int)) == Ok::<Seq<u8>, ErrorKind>(body@),
        decreases findings.len() - i,
    {
        let ghost before = findings@.take(i as int);
        let ghost after = findings@.take(i + 1);
        assert(after.drop_last() =~= before);
        assert(after.last() == findings@[i as int]);
        let level: usize = match findings[i].conclusion() {
            Some(Ok(level)) => level,
            Some(Err(e)) => {
                proof {
                    lemma_gathered_failure_stays(findings@, i + 1);
                }
                return Err(e);
            },
            None => {
                proof {
                    lemma_gathered_failure_stays(findings@, i + 1);
                }
                return Err(ErrorKind::InquiryTimeout);
            },
        };
        append_numeral(&mut body, level);
        i += 1;
    }
    assert(findings@.take(i as int) =~= findings@);
    Ok(body)
}

/// A failure among the first findings is the failure of the whole.
proof fn lemma_gathered_failure_stays(findings: Seq<Poll>, k: int)
    requires
        0 <= k <= findings.len(),
        gathered(findings.take(k)) is Err,
    ensures
        gathered(findings) == gathered(findings.take(k)),
    decreases findings.len() - k,
{
    if k < findings.len() {
        assert(findings.take(k + 1).drop_last() =~= findings.take(k));
        lemma_gathered_failure_stays(findings, k + 1);
    } else {
        assert(findings.take(k) =~= findings);
    }
}

/// A request that is turned down never reaches the mailbox, whatever is wrong
/// with it; one that is accepted is published as it was read.
pub proof fn lemma_rejected_requests_stay_out(
    ds: Seq<Device>,
    slot: Exchange,
    read: Result<Parsed, Rejection>,
)
    ensures
        read is Err ==> answered(ds, slot, read).0 == slot && answered(ds, slot, read).1 is Err,
        read matches Ok(p) ==> answered(ds, slot, read).0 == (Exchange::CommandPending {
            device_id: ds[p.device as int].uuid,
            action: p.action,
        }),
{
}

} // verus!
