//! What the dispatcher sends to a device: the address of the request that
//! carries a command.

use crate::action::Action;
use crate::text::{ascii_text, numeral};
use vstd::prelude::*;
use vstd::string::{StrSliceExecFns, StringExecFns};

verus! {

/// The lower-case hexadecimal digit of a value below sixteen.
pub open spec fn hex_char(v: u128) -> char {
    if v < 10 {
        ((0x30 + v) as u8) as char
    } else {
        ((0x61 + v - 10) as u8) as char
    }
}

/// How many hyphens stand before position `i` of a hyphenated identifier.
pub open spec fn hyphens_before(i: int) -> int {
    if i > 23 {
        4
    } else if i > 18 {
        3
    } else if i > 13 {
        2
    } else if i > 8 {
        1
    } else {
        0
    }
}

/// The hyphenated form of a 128-bit identifier: its 32 hexadecimal digits in
/// lower case, the most significant first, in groups of 8, 4, 4, 4 and 12 that
/// hyphens part.
pub open spec fn hyphenated(id: u128) -> Seq<char> {
    Seq::new(
        36,
        |i: int|
            if i == 8 || i == 13 || i == 18 || i == 23 {
                '-'
            } else {
                hex_char((id >> ((4 * (31 - (i - hyphens_before(i)))) as u128)) & 0xf)
            },
    )
}

/// The address of the request that asks a device for an action: the device's
/// network address, its identifier, the word of the action and, for `set`, the
/// numeral of the level; for the other actions the level is left empty.
pub open spec fn command_address(address: Seq<char>, device_id: u128, action: Action) -> Seq<char> {
    "http://"@ + address + "/command?uuid="@ + hyphenated(device_id) + "&action="@
        + action.word() + "&target="@ + match action.target() {
        Some(t) => ascii_text(numeral(t as nat)),
        None => Seq::empty(),
    }
}

/// Calls `uuid::Uuid::from_u128`, then `to_string` on the identifier it gives.
/// The contract claims what the crate's `Display` writes: the hyphenated form
/// in lower case.
#[verifier::external_body]
fn uuid_text(id: u128) -> (text: String)
    ensures
        text@ == hyphenated(id),
{
    uuid::Uuid::from_u128(id).to_string()
}

/// The text of one decimal digit.
fn digit_text(d: usize) -> (s: &'static str)
    requires
        d < 10,
    ensures
        s@ == seq![((0x30 + d) as u8) as char],
{
    let digits: &'static str = "0123456789";
    proof {
        reveal_strlit("0123456789");
    }
    assert(digits.is_ascii());
    let s = digits.substring_ascii(d, d + 1);
    assert(s@ =~= seq![((0x30 + d) as u8) as char]);
    s
}

/// Appends the decimal numeral of a number to a text.
fn append_numeral_text(out: &mut String, n: usize)
    ensures
        final(out)@ == old(out)@ + ascii_text(numeral(n as nat)),
    decreases n,
{
    if n >= 10 {
        append_numeral_text(out, n / 10);
    }
    out.append(digit_text(n % 10));
    assert(out@ =~= old(out)@ + ascii_text(numeral(n as nat)));
}

/// Writes the address of the request that asks a device for an action.
pub fn command_url(address: &str, device_id: u128, action: Action) -> (url: String)
    ensures
        url@ == command_address(address@, device_id, action),
{
    let mut url = String::from_str("http://");
    url.append(address);
    url.append("/command?uuid=");
    let id = uuid_text(device_id);
    url.append(id.as_str());
    url.append("&action=");
    url.append(action.to_str());
    url.append("&target=");
    if let Some(t) = action.get_target() {
        append_numeral_text(&mut url, t);
    }
    assert(url@ =~= command_address(address@, device_id, action));
    url
}

} // verus!
