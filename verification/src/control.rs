//! The control channel: one word, sent over a local connection, that asks the
//! hub to shut down.

use crate::text::{decode_payload, payload_text, same_text, trim, trimmed};
use vstd::prelude::*;

verus! {

/// The word `shutdown`.
pub open spec fn shutdown_word() -> Seq<char> {
    seq!['s', 'h', 'u', 't', 'd', 'o', 'w', 'n']
}

/// What was received asks for a shutdown: it is UTF-8 text that, without the
/// white space at its start and at its end, is the word `shutdown` in lower
/// case.
pub open spec fn asks_shutdown(received: Seq<u8>) -> bool {
    match payload_text(received) {
        Some(text) => trimmed(text) == shutdown_word(),
        None => false,
    }
}

/// The word that asks for a shutdown.
pub fn shutdown_command() -> (s: &'static str)
    ensures
        s@ == shutdown_word(),
{
    proof {
        reveal_strlit("shutdown");
    }
    assert("shutdown"@ =~= shutdown_word());
    "shutdown"
}

/// Tells whether what was received on the control channel asks for a
/// shutdown.
pub fn is_shutdown_command(received: &[u8]) -> (r: bool)
    ensures
        r == asks_shutdown(received@),
{
    match decode_payload(received) {
        None => false,
        Some(text) => same_text(trim(text), shutdown_command()),
    }
}

} // verus!
