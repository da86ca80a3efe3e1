//! The wireless front-end, without the radio: what a write to an endpoint
//! publishes, and what a read answers with.

use crate::action::Action;
use crate::command::{
    abbreviated_payload, free_text_payload, level_payload, pending, publish_parsed,
    read_abbreviated, read_free_text_payload, read_level_write, sound, Parsed,
};
use crate::error::{ErrorKind, Rejection};
use crate::inquiry::Poll;
use crate::mailbox::{published, Exchange, Mailbox};
use crate::registry::{Device, Registry};
use crate::text::{append_numeral, numeral};
use vstd::prelude::*;
use vstd::utf8::valid_utf8;

verus! {

/// What the mailbox holds and what the writer gets after a payload was read: a
/// command that was read is published and handed back with the identifier of
/// its device; a payload that was turned down leaves the mailbox as it is.
pub open spec fn written(ds: Seq<Device>, slot: Exchange, read: Result<Parsed, Rejection>) -> (
    Exchange,
    Result<(u128, Action), Rejection>,
) {
    match read {
        Ok(p) => (published(slot, pending(ds, p)), Ok((ds[p.device as int].uuid, p.action))),
        Err(e) => (slot, Err(e)),
    }
}

/// What the mailbox holds and what the writer gets after a level was written
/// to the endpoint of one device.
pub open spec fn level_written(device_id: u128, slot: Exchange, read: Result<Action, Rejection>) -> (
    Exchange,
    Result<(u128, Action), Rejection>,
) {
    match read {
        Ok(a) => (
            published(slot, Exchange::CommandPending { device_id, action: a }),
            Ok((device_id, a)),
        ),
        Err(e) => (slot, Err(e)),
    }
}

/// The response to a read: nothing while the wait goes on, the numeral of the
/// level once it is known, the numeral of the fallback once the wait has timed
/// out, and the failure where the dispatcher reported one.
pub open spec fn response(found: Poll) -> Option<Result<Seq<u8>, ErrorKind>> {
    match found.concluded() {
        None => None,
        Some(Ok(level)) => Some(Ok(numeral(level as nat))),
        Some(Err(error)) => Some(Err(error)),
    }
}

/// The view of a response.
pub open spec fn response_view(r: Option<Result<Vec<u8>, ErrorKind>>) -> Option<
    Result<Seq<u8>, ErrorKind>,
> {
    match r {
        None => None,
        Some(Ok(text)) => Some(Ok(text@)),
        Some(Err(e)) => Some(Err(e)),
    }
}

fn write(mailbox: &mut Mailbox, registry: &Registry, read: Result<Parsed, Rejection>) -> (r:
    Result<(u128, Action), Rejection>)
    requires
        read matches Ok(p) ==> sound(registry@, p),
    ensures
        (final(mailbox)@, r) == written(registry@, old(mailbox)@, read),
        r matches Ok((id, a)) ==> a.wf(),
{
    match read {
        Err(e) => Err(e),
        Ok(p) => {
            let device_id = publish_parsed(mailbox, registry, &p);
            Ok((device_id, p.action))
        },
    }
}

/// A write of free text: `<device name> <action> [level]`. A payload that is
/// no UTF-8 text is turned down.
pub fn write_free_text(mailbox: &mut Mailbox, registry: &Registry, payload: &[u8]) -> (r: Result<
    (u128, Action),
    Rejection,
>)
    ensures
        (final(mailbox)@, r) == written(
            registry@,
            old(mailbox)@,
            free_text_payload(registry@, payload@),
        ),
        !valid_utf8(payload@) ==> r is Err && final(mailbox)@ == old(mailbox)@,
        r matches Ok((id, a)) ==> a.wf(),
{
    let read = read_free_text_payload(payload, registry);
    write(mailbox, registry, read)
}

/// A write in the abbreviated form `DDAA[LL]`. A payload that is no UTF-8
/// text is turned down.
pub fn write_abbreviated(mailbox: &mut Mailbox, registry: &Registry, payload: &[u8]) -> (r: Result<
    (u128, Action),
    Rejection,
>)
    ensures
        (final(mailbox)@, r) == written(
            registry@,
            old(mailbox)@,
            abbreviated_payload(registry@, payload@),
        ),
        !valid_utf8(payload@) ==> r is Err && final(mailbox)@ == old(mailbox)@,
        r matches Ok((id, a)) ==> a.wf(),
{
    let read = read_abbreviated(payload, registry);
    write(mailbox, registry, read)
}

/// A write of a level to the endpoint of one device. A payload that is no
/// UTF-8 text is turned down.
pub fn write_level(mailbox: &mut Mailbox, device_id: u128, payload: &[u8]) -> (r: Result<
    (u128, Action),
    Rejection,
>)
    ensures
        (final(mailbox)@, r) == level_written(device_id, old(mailbox)@, level_payload(payload@)),
        !valid_utf8(payload@) ==> r is Err && final(mailbox)@ == old(mailbox)@,
        r matches Ok((id, a)) ==> a.wf(),
{
    match read_level_write(payload) {
        Err(e) => Err(e),
        Ok(action) => {
            mailbox.publish(Exchange::CommandPending { device_id, action });
            Ok((device_id, action))
        },
    }
}

/// The response to a read, from what the wait found.
pub fn read_response(found: Poll) -> (r: Option<Result<Vec<u8>, ErrorKind>>)
    ensures
        response_view(r) == response(found),
{
    match found.conclusion() {
        None => None,
        Some(Ok(level)) => {
            let mut text: Vec<u8> = Vec::new();
            append_numeral(&mut text, level);
            Some(Ok(text))
        },
        Some(Err(error)) => Some(Err(error)),
    }
}

/// The value that is pushed to subscribers, one step on: every byte above
/// zero is one less, and zero stays.
pub open spec fn faded(value: Seq<u8>) -> Seq<u8> {
    Seq::new(
        value.len(),
        |i: int|
            if value[i] > 0 {
                (value[i] - 1) as u8
            } else {
                0u8
            },
    )
}

/// Moves the pushed value one step on.
pub fn step_down(value: &mut Vec<u8>)
    ensures
        final(value)@ == faded(old(value)@),
{
    let mut i: usize = 0;
    while i < value.len()
        invariant
            i <= value.len(),
            value.len() == old(value).len(),
            forall|k: int| 0 <= k < i ==> value@[k] == faded(old(value)@)[k],
            forall|k: int| i <= k < value.len() ==> value@[k] == old(value)@[k],
        decreases value.len() - i,
    {
        let b: u8 = value[i];
        value.set(i, if b > 0 {
            b - 1
        } else {
            0
        });
        i += 1;
    }
    assert(value@ =~= faded(old(value)@));
}

} // verus!
