//! The operations that a device understands, and their two textual forms: a
//! word (`on`, `off`, `set`) with a separate level, and a fixed-width code of two
//! letters followed, for `set`, by a two-digit level. Both forms are in lower
//! case; folding the case of what came in is the caller's business.

use crate::error::Rejection;
use crate::text::{byte_is_digit, is_digit, parse_usize, same_text, unsigned};
use vstd::prelude::*;
use vstd::utf8::encode_utf8;

verus! {

/// The number of levels: a level is one of `0 .. LEVELS - 1`.
pub const LEVELS: usize = 8;

/// What a device can be asked to do.
#[derive(Clone, Copy, Debug, PartialEq, Eq, Structural)]
pub enum Action {
    /// Turn on.
    On,
    /// Turn off.
    Off,
    /// Go to a level.
    SetTo { target: usize },
}

/// The level that a text writes: an unsigned decimal numeral that fits a
/// machine word and lies below `LEVELS`. A number of `LEVELS` or more is out of
/// range; any other text, a numeral too large for a machine word among them, is
/// no number. Nothing is clamped.
pub open spec fn target_of_text(s: Seq<char>) -> Result<usize, Rejection> {
    match unsigned(encode_utf8(s)) {
        None => Err(Rejection::TargetNotNumber),
        Some(v) => if v < LEVELS {
            Ok(v)
        } else {
            Err(Rejection::TargetOutOfRange)
        },
    }
}

/// The level that the two digits of an abbreviated command write.
pub open spec fn target_of_digits(s: Seq<u8>) -> Result<usize, Rejection> {
    if s.len() == 2 && is_digit(s[0]) && is_digit(s[1]) {
        let v = (s[0] - 0x30) * 10 + (s[1] - 0x30);
        if v < LEVELS {
            Ok(v as usize)
        } else {
            Err(Rejection::TargetOutOfRange)
        }
    } else {
        Err(Rejection::TargetNotNumber)
    }
}

/// Reads a level from a text.
pub fn parse_target(text: &str) -> (r: Result<usize, Rejection>)
    ensures
        r == target_of_text(text@),
{
    match parse_usize(text.as_bytes()) {
        None => Err(Rejection::TargetNotNumber),
        Some(v) => if v < LEVELS {
            Ok(v)
        } else {
            Err(Rejection::TargetOutOfRange)
        },
    }
}

impl Action {
    /// A `set` carries one of the levels.
    pub open spec fn wf(self) -> bool {
        self matches Action::SetTo { target } ==> target < LEVELS
    }

    /// The word that names the action.
    pub open spec fn word(self) -> Seq<char> {
        match self {
            Action::On => seq!['o', 'n'],
            Action::Off => seq!['o', 'f', 'f'],
            Action::SetTo { .. } => seq!['s', 'e', 't'],
        }
    }

    /// The level that the action carries.
    pub open spec fn target(self) -> Option<usize> {
        match self {
            Action::SetTo { target } => Some(target),
            _ => None,
        }
    }

    /// The two letters that abbreviate the action: `on`, `of`, `st`.
    pub open spec fn letters(self) -> Seq<u8> {
        match self {
            Action::On => seq![0x6fu8, 0x6eu8],
            Action::Off => seq![0x6fu8, 0x66u8],
            Action::SetTo { .. } => seq![0x73u8, 0x74u8],
        }
    }

    /// The abbreviated form: the two letters, and for `set` the level in two
    /// decimal digits.
    pub open spec fn code(self) -> Seq<u8> {
        match self {
            Action::SetTo { target } => self.letters() + seq![
                (0x30 + target / 10) as u8,
                (0x30 + target % 10) as u8,
            ],
            _ => self.letters(),
        }
    }

    /// The action that a word and a level name. `on` and `off` take no level
    /// and pass over one that is given; `set` needs one of the levels.
    pub open spec fn from_word(word: Seq<char>, target: Option<usize>) -> Result<Action, Rejection> {
        if word == Action::On.word() {
            Ok(Action::On)
        } else if word == Action::Off.word() {
            Ok(Action::Off)
        } else if word == (Action::SetTo { target: 0 }).word() {
            match target {
                None => Err(Rejection::MissingTarget),
                Some(t) => if t < LEVELS {
                    Ok(Action::SetTo { target: t })
                } else {
                    Err(Rejection::TargetOutOfRange)
                },
            }
        } else {
            Err(Rejection::InvalidAction)
        }
    }

    /// The action that an abbreviated form writes: two letters, alone or
    /// followed by two digits. The digits must write one of the levels; `set`
    /// needs them, `on` and `off` pass over them.
    pub open spec fn from_code(code: Seq<u8>) -> Result<Action, Rejection> {
        if code.len() != 2 && code.len() != 4 {
            Err(Rejection::Malformed)
        } else {
            let l = code.take(2);
            let is_on = l == Action::On.letters();
            let is_off = l == Action::Off.letters();
            let is_set = l == (Action::SetTo { target: 0 }).letters();
            if !is_on && !is_off && !is_set {
                Err(Rejection::InvalidAction)
            } else if code.len() == 2 {
                if is_on {
                    Ok(Action::On)
                } else if is_off {
                    Ok(Action::Off)
                } else {
                    Err(Rejection::MissingTarget)
                }
            } else {
                match target_of_digits(code.skip(2)) {
                    Err(e) => Err(e),
                    Ok(t) => if is_on {
                        Ok(Action::On)
                    } else if is_off {
                        Ok(Action::Off)
                    } else {
                        Ok(Action::SetTo { target: t })
                    },
                }
            }
        }
    }

    /// Builds an action from its word and an optional level.
    pub fn from_str(action: &str, target: Option<usize>) -> (r: Result<Action, Rejection>)
        ensures
            r == Action::from_word(action@, target),
            r matches Ok(a) ==> a.wf(),
    {
        proof {
            reveal_strlit("on");
            reveal_strlit("off");
            reveal_strlit("set");
            assert("on"@ =~= Action::On.word());
            assert("off"@ =~= Action::Off.word());
            assert("set"@ =~= (Action::SetTo { target: 0 }).word());
        }
        if same_text(action, "on") {
            Ok(Action::On)
        } else if same_text(action, "off") {
            Ok(Action::Off)
        } else if same_text(action, "set") {
            match target {
                None => Err(Rejection::MissingTarget),
                Some(t) => if t < LEVELS {
                    Ok(Action::SetTo { target: t })
                } else {
                    Err(Rejection::TargetOutOfRange)
                },
            }
        } else {
            Err(Rejection::InvalidAction)
        }
    }

    /// The word that names the action.
    pub fn to_str(&self) -> (s: &'static str)
        ensures
            s@ == self.word(),
    {
        match self {
            Action::On => {
                proof {
                    reveal_strlit("on");
                }
                assert("on"@ =~= self.word());
                "on"
            },
            Action::Off => {
                proof {
                    reveal_strlit("off");
                }
                assert("off"@ =~= self.word());
                "off"
            },
            Action::SetTo { .. } => {
                proof {
                    reveal_strlit("set");
                }
                assert("set"@ =~= self.word());
                "set"
            },
        }
    }

    /// The level that the action carries, if it carries one.
    pub fn get_target(&self) -> (t: Option<usize>)
        ensures
            t == self.target(),
    {
        match self {
            Action::SetTo { target } => Some(*target),
            _ => None,
        }
    }

    /// Writes the abbreviated form.
    pub fn encode(&self) -> (out: Vec<u8>)
        requires
            self.wf(),
        ensures
            out@ == self.code(),
    {
        let mut out: Vec<u8> = Vec::new();
        match self {
            Action::On => {
                out.push(0x6f);
                out.push(0x6e);
            },
            Action::Off => {
                out.push(0x6f);
                out.push(0x66);
            },
            Action::SetTo { target } => {
                let t: usize = *target;
                out.push(0x73);
                out.push(0x74);
                out.push(0x30 + (t / 10) as u8);
                out.push(0x30 + (t % 10) as u8);
            },
        }
        assert(out@ =~= self.code());
        out
    }

    /// Reads the abbreviated form.
    pub fn decode(code: &[u8]) -> (r: Result<Action, Rejection>)
        ensures
            r == Action::from_code(code@),
            r matches Ok(a) ==> a.wf(),
    {
        if code.len() != 2 && code.len() != 4 {
            return Err(Rejection::Malformed);
        }
        let a: u8 = code[0];
        let b: u8 = code[1];
        let ghost l = code@.take(2);
        assert(l.len() == 2 && l[0] == a && l[1] == b);
        let is_on: bool = a == 0x6f && b == 0x6e;
        let is_off: bool = a == 0x6f && b == 0x66;
        let is_set: bool = a == 0x73 && b == 0x74;
        proof {
            assert(is_on ==> l =~= Action::On.letters());
            assert(is_off ==> l =~= Action::Off.letters());
            assert(is_set ==> l =~= (Action::SetTo { target: 0 }).letters());
            if l == Action::On.letters() {
                assert(l[0] == 0x6f && l[1] == 0x6e);
            }
            if l == Action::Off.letters() {
                assert(l[0] == 0x6f && l[1] == 0x66);
            }
            if l == (Action::SetTo { target: 0 }).letters() {
                assert(l[0] == 0x73 && l[1] == 0x74);
            }
        }
        if !is_on && !is_off && !is_set {
            return Err(Rejection::InvalidAction);
        }
        if code.len() == 2 {
            return if is_on {
                Ok(Action::On)
            } else if is_off {
                Ok(Action::Off)
            } else {
                Err(Rejection::MissingTarget)
            };
        }
        let ghost ll = code@.skip(2);
        assert(ll.len() == 2 && ll[0] == code@[2] && ll[1] == code@[3]);
        if !byte_is_digit(code[2]) || !byte_is_digit(code[3]) {
            return Err(Rejection::TargetNotNumber);
        }
        let t: usize = ((code[2] - 0x30) * 10 + (code[3] - 0x30)) as usize;
        if t >= LEVELS {
            return Err(Rejection::TargetOutOfRange);
        }
        if is_on {
            Ok(Action::On)
        } else if is_off {
            Ok(Action::Off)
        } else {
            Ok(Action::SetTo { target: t })
        }
    }
}

/// Writing an action in its abbreviated form and reading that form back gives
/// the action again, for `on`, for `off` and for `set` with each of the levels.
pub proof fn lemma_code_round_trip(a: Action)
    requires
        a.wf(),
    ensures
        Action::from_code(a.code()) == Ok::<Action, Rejection>(a),
{
    let c = a.code();
    let l = c.take(2);
    assert(l =~= a.letters());
    assert(Action::On.letters()[1] != Action::Off.letters()[1]);
    assert(Action::On.letters()[0] != (Action::SetTo { target: 0 }).letters()[0]);
    assert(Action::Off.letters()[0] != (Action::SetTo { target: 0 }).letters()[0]);
    match a {
        Action::SetTo { target } => {
            assert(c.skip(2) =~= seq![(0x30 + target / 10) as u8, (0x30 + target % 10) as u8]);
        },
        _ => {},
    }
}

/// Naming an action by its word and its level gives the action again.
pub proof fn lemma_word_round_trip(a: Action)
    requires
        a.wf(),
    ensures
        Action::from_word(a.word(), a.target()) == Ok::<Action, Rejection>(a),
{
    assert(Action::On.word().len() != Action::Off.word().len());
    assert(Action::Off.word()[0] != (Action::SetTo { target: 0 }).word()[0]);
}

} // verus!
