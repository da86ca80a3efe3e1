//! The textual forms in which a command reaches a front-end, and how each is
//! read against the registry:
//!
//! - free text, `<device name> <action> [level]`, folded to lower case and split
//!   at white space;
//! - the abbreviated form `DDAA[LL]`: two letters for the device, two for the
//!   action, and two digits for the level, folded to lower case;
//! - separate parameters for device, action and level;
//! - a single level digit, written to a device's own endpoint.
//!
//! A payload of bytes must be UTF-8 before anything is read from it. Every form
//! is then read in the same order: the device, then the action, then the level.
//! The first thing found wrong is the one reported.

use crate::action::{parse_target, target_of_text, Action, LEVELS};
use crate::error::Rejection;
use crate::mailbox::{published, Exchange, Mailbox};
use crate::registry::{by_abbreviation, by_name, Device, Registry};
use crate::text::{
    decode_payload, joined, lowercase_of, lowercased, payload_text, split_words, texts, words,
};
use vstd::prelude::*;
use vstd::string::{StrSliceExecFns, StringExecFns};
use vstd::utf8::{encode_utf8, valid_utf8};

verus! {

/// A command as it was read: the position of the device in the registry, the
/// action, and the level that came with it.
#[derive(Clone, Copy, Debug, PartialEq, Eq)]
pub struct Parsed {
    pub device: usize,
    pub action: Action,
    pub target: Option<usize>,
}

/// The word names one of the actions.
pub open spec fn known_word(word: Seq<char>) -> bool {
    word == Action::On.word() || word == Action::Off.word() || word == (Action::SetTo {
        target: 0,
    }).word()
}

/// The action that a word and the text of a level name. An unknown word is
/// reported before anything wrong with the level. An empty level text counts
/// as none.
pub open spec fn action_of_texts(word: Seq<char>, target: Option<Seq<char>>) -> Result<
    (Action, Option<usize>),
    Rejection,
> {
    if !known_word(word) {
        Err(Rejection::InvalidAction)
    } else if target is Some && target.unwrap().len() > 0 {
        match target_of_text(target.unwrap()) {
            Err(e) => Err(e),
            Ok(t) => match Action::from_word(word, Some(t)) {
                Err(e) => Err(e),
                Ok(a) => Ok((a, Some(t))),
            },
        }
    } else {
        match Action::from_word(word, None) {
            Err(e) => Err(e),
            Ok(a) => Ok((a, None)),
        }
    }
}

/// The device that the leading words name: the least number of words, `k` or
/// more, that joined by single blanks give the name of a device, and the
/// position of the first device of that name.
pub open spec fn named_device(ds: Seq<Device>, ws: Seq<Seq<char>>, k: int) -> Option<(int, int)>
    decreases ws.len() + 1 - k,
{
    if k < 1 || k > ws.len() {
        None
    } else {
        match by_name(ds, joined(ws, k)) {
            Some(i) => Some((k, i)),
            None => named_device(ds, ws, k + 1),
        }
    }
}

/// The command that a given list of words writes: the name of a device, the
/// word of an action, and a level where there is one. Further words are
/// passed over.
pub open spec fn command_of_words(ds: Seq<Device>, ws: Seq<Seq<char>>) -> Result<
    Parsed,
    Rejection,
> {
    if ws.len() == 0 {
        Err(Rejection::MissingDevice)
    } else {
        match named_device(ds, ws, 1) {
            None => Err(Rejection::UnknownDevice),
            Some((k, i)) => if k >= ws.len() {
                Err(Rejection::MissingAction)
            } else {
                match action_of_texts(
                    ws[k],
                    if k + 1 < ws.len() {
                        Some(ws[k + 1])
                    } else {
                        None
                    },
                ) {
                    Err(e) => Err(e),
                    Ok((a, t)) => Ok(Parsed { device: i as usize, action: a, target: t }),
                }
            },
        }
    }
}

/// The command that a free text writes: the words of its lower-case form.
pub open spec fn free_text_command(ds: Seq<Device>, text: Seq<char>) -> Result<Parsed, Rejection> {
    command_of_words(ds, words(lowercase_of(text)))
}

/// The command that an abbreviated text in lower case writes, read from its
/// bytes.
pub open spec fn abbreviated_text(ds: Seq<Device>, code: Seq<u8>) -> Result<Parsed, Rejection> {
    if code.len() != 4 && code.len() != 6 {
        Err(Rejection::Malformed)
    } else {
        match by_abbreviation(ds, code.take(2)) {
            None => Err(Rejection::UnknownDevice),
            Some(i) => match Action::from_code(code.skip(2)) {
                Err(e) => Err(e),
                Ok(a) => Ok(Parsed { device: i as usize, action: a, target: a.target() }),
            },
        }
    }
}

/// The command that separate parameters write, once device and action are in
/// lower case. The device parameter is read whole, as a name.
pub open spec fn parameter_texts(
    ds: Seq<Device>,
    device: Option<Seq<char>>,
    action: Option<Seq<char>>,
    target: Option<Seq<char>>,
) -> Result<Parsed, Rejection> {
    match device {
        None => Err(Rejection::MissingDevice),
        Some(d) => match by_name(ds, d) {
            None => Err(Rejection::UnknownDevice),
            Some(i) => match action {
                None => Err(Rejection::MissingAction),
                Some(a) => match action_of_texts(a, target) {
                    Err(e) => Err(e),
                    Ok((a, t)) => Ok(Parsed { device: i as usize, action: a, target: t }),
                },
            },
        }
    }
}

/// The lower-case form of a text that may be missing.
pub open spec fn opt_lowercase(text: Option<Seq<char>>) -> Option<Seq<char>> {
    match text {
        Some(t) => Some(lowercase_of(t)),
        None => None,
    }
}

/// The command that separate parameters write: device and action are folded to
/// lower case, the level is read as it came.
pub open spec fn parameter_command(
    ds: Seq<Device>,
    device: Option<Seq<char>>,
    action: Option<Seq<char>>,
    target: Option<Seq<char>>,
) -> Result<Parsed, Rejection> {
    parameter_texts(ds, opt_lowercase(device), opt_lowercase(action), target)
}

/// The action that a level written to a device's own endpoint asks for: the
/// first character is the level, what follows is passed over.
pub open spec fn level_text(text: Seq<char>) -> Result<Action, Rejection> {
    if text.len() == 0 {
        Err(Rejection::MissingTarget)
    } else {
        match target_of_text(text.take(1)) {
            Err(e) => Err(e),
            Ok(t) => Ok(Action::SetTo { target: t }),
        }
    }
}

/// The command that a payload of free text writes.
pub open spec fn free_text_payload(ds: Seq<Device>, payload: Seq<u8>) -> Result<Parsed, Rejection> {
    match payload_text(payload) {
        None => Err(Rejection::NotText),
        Some(text) => free_text_command(ds, text),
    }
}

/// The command that a payload in the abbreviated form writes.
pub open spec fn abbreviated_payload(ds: Seq<Device>, payload: Seq<u8>) -> Result<
    Parsed,
    Rejection,
> {
    match payload_text(payload) {
        None => Err(Rejection::NotText),
        Some(text) => abbreviated_text(ds, encode_utf8(lowercase_of(text))),
    }
}

/// The action that a payload written to a device's own endpoint asks for.
pub open spec fn level_payload(payload: Seq<u8>) -> Result<Action, Rejection> {
    match payload_text(payload) {
        None => Err(Rejection::NotText),
        Some(text) => level_text(text),
    }
}

/// The view of an optional text.
pub open spec fn opt_view(text: Option<&str>) -> Option<Seq<char>> {
    match text {
        Some(t) => Some(t@),
        None => None,
    }
}

/// What a successful reading promises: the device is in the registry, the
/// action is well formed, the level is one of the levels, and a `set` aims at
/// it.
pub open spec fn sound(ds: Seq<Device>, p: Parsed) -> bool {
    &&& p.device < ds.len()
    &&& p.action.wf()
    &&& p.target matches Some(t) ==> t < LEVELS
    &&& p.action matches Action::SetTo { target } ==> p.target == Some(target)
}

/// The exchange that asks the dispatcher for a command that was read.
pub open spec fn pending(ds: Seq<Device>, p: Parsed) -> Exchange {
    Exchange::CommandPending { device_id: ds[p.device as int].uuid, action: p.action }
}

/// Publishes a command that was read, and hands back the identifier of its
/// device.
pub fn publish_parsed(mailbox: &mut Mailbox, registry: &Registry, p: &Parsed) -> (device_id: u128)
    requires
        p.device < registry@.len(),
    ensures
        final(mailbox)@ == published(old(mailbox)@, pending(registry@, *p)),
        device_id == registry@[p.device as int].uuid,
{
    let device_id: u128 = registry.device(p.device).uuid;
    mailbox.publish(Exchange::CommandPending { device_id, action: p.action });
    device_id
}

/// Reads an action from its word and the text of its level.
pub fn read_action(word: &str, target: Option<&str>) -> (r: Result<
    (Action, Option<usize>),
    Rejection,
>)
    ensures
        r == action_of_texts(word@, opt_view(target)),
        r matches Ok((a, t)) ==> a.wf() && (t matches Some(v) ==> v < LEVELS) && (a matches Action::SetTo {
            target,
        } ==> t == Some(target)),
{
    let probe = Action::from_str(word, Some(0));
    if let Err(Rejection::InvalidAction) = probe {
        return Err(Rejection::InvalidAction);
    }
    assert(known_word(word@));
    let level: Option<usize> = match target {
        Some(t) => if !t.is_empty() {
            match parse_target(t) {
                Err(e) => {
                    return Err(e);
                },
                Ok(v) => Some(v),
            }
        } else {
            None
        },
        None => None,
    };
    match Action::from_str(word, level) {
        Err(e) => Err(e),
        Ok(a) => Ok((a, level)),
    }
}

/// Reads a command from a list of words in lower case.
pub fn read_words(ws: &Vec<String>, registry: &Registry) -> (r: Result<Parsed, Rejection>)
    ensures
        r == command_of_words(registry@, texts(ws@)),
        r matches Ok(p) ==> sound(registry@, p),
{
    let ghost ds = registry@;
    let ghost w = texts(ws@);
    if ws.len() == 0 {
        return Err(Rejection::MissingDevice);
    }
    proof {
        reveal_strlit(" ");
        assert(" "@ =~= seq![' ']);
    }
    let mut name: String = String::new();
    let mut k: usize = 0;
    let mut found: Option<usize> = None;
    while k < ws.len() && found.is_none()
        invariant
            k <= ws.len(),
            ds == registry@,
            w == texts(ws@),
            " "@ == seq![' '],
            name@ == joined(w, k as int),
            found is None ==> named_device(ds, w, 1) == named_device(ds, w, k + 1),
            found matches Some(i) ==> k >= 1 && i < ds.len() && named_device(ds, w, 1) == Some(
                (k as int, i as int),
            ),
        decreases ws.len() - k,
    {
        if k > 0 {
            name.append(" ");
        }
        name.append(ws[k].as_str());
        k += 1;
        assert(name@ =~= joined(w, k as int)) by {
            assert(w[k - 1] == ws@[k - 1]@);
        }
        found = registry.position_by_name(name.as_str());
    }
    match found {
        None => Err(Rejection::UnknownDevice),
        Some(i) => {
            if k >= ws.len() {
                return Err(Rejection::MissingAction);
            }
            let target: Option<&str> = if k + 1 < ws.len() {
                Some(ws[k + 1].as_str())
            } else {
                None
            };
            assert(w[k as int] == ws@[k as int]@);
            assert(k + 1 < ws.len() ==> w[k + 1] == ws@[k + 1]@);
            match read_action(ws[k].as_str(), target) {
                Err(e) => Err(e),
                Ok((action, target)) => Ok(Parsed { device: i, action, target }),
            }
        },
    }
}

/// Reads a command from free text.
pub fn read_free_text(text: &str, registry: &Registry) -> (r: Result<Parsed, Rejection>)
    ensures
        r == free_text_command(registry@, text@),
        r matches Ok(p) ==> sound(registry@, p),
{
    let lower = lowercased(text);
    let ws = split_words(lower.as_str());
    read_words(&ws, registry)
}

/// Reads a command from the bytes of an abbreviated text in lower case.
pub fn read_abbreviated_text(code: &[u8], registry: &Registry) -> (r: Result<Parsed, Rejection>)
    ensures
        r == abbreviated_text(registry@, code@),
        r matches Ok(p) ==> sound(registry@, p),
{
    if code.len() != 4 && code.len() != 6 {
        return Err(Rejection::Malformed);
    }
    let head: &[u8] = vstd::slice::slice_subrange(code, 0, 2);
    let tail: &[u8] = vstd::slice::slice_subrange(code, 2, code.len());
    assert(head@ =~= code@.take(2));
    assert(tail@ =~= code@.skip(2));
    match registry.position_by_abbreviation(head) {
        None => Err(Rejection::UnknownDevice),
        Some(i) => match Action::decode(tail) {
            Err(e) => Err(e),
            Ok(a) => Ok(Parsed { device: i, action: a, target: a.get_target() }),
        },
    }
}

/// Reads a command from separate parameters, of which device and action are
/// in lower case.
pub fn read_parameter_texts(
    device: Option<&str>,
    action: Option<&str>,
    target: Option<&str>,
    registry: &Registry,
) -> (r: Result<Parsed, Rejection>)
    ensures
        r == parameter_texts(registry@, opt_view(device), opt_view(action), opt_view(target)),
        r matches Ok(p) ==> sound(registry@, p),
{
    let d: &str = match device {
        None => {
            return Err(Rejection::MissingDevice);
        },
        Some(d) => d,
    };
    let i: usize = match registry.position_by_name(d) {
        None => {
            return Err(Rejection::UnknownDevice);
        },
        Some(i) => i,
    };
    let a: &str = match action {
        None => {
            return Err(Rejection::MissingAction);
        },
        Some(a) => a,
    };
    match read_action(a, target) {
        Err(e) => Err(e),
        Ok((action, target)) => Ok(Parsed { device: i, action, target }),
    }
}

/// Reads a command from separate parameters.
pub fn read_parameters(
    device: Option<&str>,
    action: Option<&str>,
    target: Option<&str>,
    registry: &Registry,
) -> (r: Result<Parsed, Rejection>)
    ensures
        r == parameter_command(registry@, opt_view(device), opt_view(action), opt_view(target)),
        r matches Ok(p) ==> sound(registry@, p),
{
    let d: Option<String> = match device {
        Some(t) => Some(lowercased(t)),
        None => None,
    };
    let a: Option<String> = match action {
        Some(t) => Some(lowercased(t)),
        None => None,
    };
    let d_text: Option<&str> = match &d {
        Some(t) => Some(t.as_str()),
        None => None,
    };
    let a_text: Option<&str> = match &a {
        Some(t) => Some(t.as_str()),
        None => None,
    };
    read_parameter_texts(d_text, a_text, target, registry)
}

/// Reads the level written to a device's own endpoint, from its text.
pub fn read_level_text(text: &str) -> (r: Result<Action, Rejection>)
    ensures
        r == level_text(text@),
        r matches Ok(a) ==> a.wf(),
{
    if text.is_empty() {
        return Err(Rejection::MissingTarget);
    }
    let first: &str = text.substring_char(0, 1);
    assert(first@ =~= text@.take(1));
    match parse_target(first) {
        Err(e) => Err(e),
        Ok(t) => Ok(Action::SetTo { target: t }),
    }
}

/// Reads a command from a payload of free text.
pub fn read_free_text_payload(payload: &[u8], registry: &Registry) -> (r: Result<
    Parsed,
    Rejection,
>)
    ensures
        r == free_text_payload(registry@, payload@),
        !valid_utf8(payload@) ==> r is Err,
        r matches Ok(p) ==> sound(registry@, p),
{
    match decode_payload(payload) {
        None => Err(Rejection::NotText),
        Some(text) => read_free_text(text, registry),
    }
}

/// Reads a command from a payload in the abbreviated form.
pub fn read_abbreviated(payload: &[u8], registry: &Registry) -> (r: Result<Parsed, Rejection>)
    ensures
        r == abbreviated_payload(registry@, payload@),
        !valid_utf8(payload@) ==> r is Err,
        r matches Ok(p) ==> sound(registry@, p),
{
    match decode_payload(payload) {
        None => Err(Rejection::NotText),
        Some(text) => {
            let lower = lowercased(text);
            read_abbreviated_text(lower.as_str().as_bytes(), registry)
        },
    }
}

/// Reads the level written to a device's own endpoint.
pub fn read_level_write(payload: &[u8]) -> (r: Result<Action, Rejection>)
    ensures
        r == level_payload(payload@),
        !valid_utf8(payload@) ==> r is Err,
        r matches Ok(a) ==> a.wf(),
{
    match decode_payload(payload) {
        None => Err(Rejection::NotText),
        Some(text) => read_level_text(text),
    }
}

/// A payload that is no UTF-8 text is turned down in every form, whatever else
/// it holds.
pub proof fn lemma_not_text_is_rejected(ds: Seq<Device>, payload: Seq<u8>)
    requires
        !valid_utf8(payload),
    ensures
        free_text_payload(ds, payload) == Err::<Parsed, Rejection>(Rejection::NotText),
        abbreviated_payload(ds, payload) == Err::<Parsed, Rejection>(Rejection::NotText),
        level_payload(payload) == Err::<Action, Rejection>(Rejection::NotText),
{
}

/// A level that is no number below the number of levels is turned down,
/// whatever the device and the action: as separate parameters and in free text
/// alike, nothing is read from such a request.
pub proof fn lemma_bad_level_is_rejected(
    ds: Seq<Device>,
    device: Seq<char>,
    action: Seq<char>,
    level: Seq<char>,
    ws: Seq<Seq<char>>,
)
    requires
        level.len() > 0,
        target_of_text(level) is Err,
    ensures
        action_of_texts(action, Some(level)) is Err,
        parameter_texts(ds, Some(device), Some(action), Some(level)) is Err,
        parameter_command(ds, Some(device), Some(action), Some(level)) is Err,
        named_device(ds, ws, 1) matches Some((k, i)) && k + 1 < ws.len() && ws[k + 1] == level
            ==> command_of_words(ds, ws) is Err,
{
}

/// A device that the registry does not hold is reported as unknown, before
/// anything else in the request is looked at.
pub proof fn lemma_unknown_device_is_rejected(
    ds: Seq<Device>,
    device: Seq<char>,
    action: Option<Seq<char>>,
    level: Option<Seq<char>>,
    code: Seq<u8>,
    ws: Seq<Seq<char>>,
)
    ensures
        by_name(ds, device) is None ==> parameter_texts(ds, Some(device), action, level) == Err::<
            Parsed,
            Rejection,
        >(Rejection::UnknownDevice),
        (code.len() == 4 || code.len() == 6) && by_abbreviation(ds, code.take(2)) is None
            ==> abbreviated_text(ds, code) == Err::<Parsed, Rejection>(Rejection::UnknownDevice),
        ws.len() > 0 && named_device(ds, ws, 1) is None ==> command_of_words(ds, ws) == Err::<
            Parsed,
            Rejection,
        >(Rejection::UnknownDevice),
{
}

} // verus!
