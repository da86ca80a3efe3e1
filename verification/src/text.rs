//! Text as the front-ends meet it: bytes that must be UTF-8, folded to lower
//! case, split at white space. Decoding, folding, splitting, trimming and
//! replacing are the standard library's; this module gives each call a contract.
//! It also holds the unsigned decimal numerals, which are read and written here.

use vstd::prelude::*;
use vstd::string::StringSliceAdditionalSpecFns;
use vstd::utf8::{decode_utf8, valid_utf8};

verus! {

/// White space as Unicode has it: the characters with the property
/// `White_Space`.
pub open spec fn is_white_space(c: char) -> bool {
    let v = c as u32;
    (0x09 <= v && v <= 0x0d) || v == 0x20 || v == 0x85 || v == 0xa0 || v == 0x1680 || (0x2000 <= v
        && v <= 0x200a) || v == 0x2028 || v == 0x2029 || v == 0x202f || v == 0x205f || v == 0x3000
}

/// The ASCII decimal digits.
pub open spec fn is_digit(b: u8) -> bool {
    0x30 <= b && b <= 0x39
}

/// The text that a run of ASCII bytes writes.
pub open spec fn ascii_text(bytes: Seq<u8>) -> Seq<char> {
    Seq::new(bytes.len(), |i: int| bytes[i] as char)
}

/// The text that a payload holds: its decoding where it is UTF-8, else none.
pub open spec fn payload_text(payload: Seq<u8>) -> Option<Seq<char>> {
    if valid_utf8(payload) {
        Some(decode_utf8(payload))
    } else {
        None
    }
}

/// The lower-case form of a text, as `str::to_lowercase` gives it. It follows
/// Unicode's rules for every script and is not written out here.
pub uninterp spec fn lowercase_of(text: Seq<char>) -> Seq<char>;

/// The end of the word that holds position `i`: the first position from `i` on
/// that holds white space, or the length of the text.
pub open spec fn word_end(s: Seq<char>, i: int) -> int
    decreases s.len() - i,
{
    if 0 <= i < s.len() && !is_white_space(s[i]) {
        word_end(s, i + 1)
    } else {
        i
    }
}

/// The words of a text from position `i` on, in order, where a word is a
/// longest run of characters that are not white space.
pub open spec fn words_from(s: Seq<char>, i: int) -> Seq<Seq<char>>
    decreases s.len() - i,
    via words_from_decreases
{
    if i < 0 || i >= s.len() {
        Seq::empty()
    } else if is_white_space(s[i]) {
        words_from(s, i + 1)
    } else {
        seq![s.subrange(i, word_end(s, i))] + words_from(s, word_end(s, i))
    }
}

#[via_fn]
proof fn words_from_decreases(s: Seq<char>, i: int) {
    if 0 <= i < s.len() && !is_white_space(s[i]) {
        lemma_word_end_bounds(s, i + 1);
    }
}

/// A word ends at or after the position it is asked for, within the text, and
/// holds no white space up to its end.
pub proof fn lemma_word_end_bounds(s: Seq<char>, i: int)
    requires
        0 <= i <= s.len(),
    ensures
        i <= word_end(s, i) <= s.len(),
        forall|k: int| i <= k < word_end(s, i) ==> !is_white_space(s[k]),
        word_end(s, i) < s.len() ==> is_white_space(s[word_end(s, i)]),
    decreases s.len() - i,
{
    if i < s.len() && !is_white_space(s[i]) {
        lemma_word_end_bounds(s, i + 1);
    }
}

/// The words of a text.
pub open spec fn words(s: Seq<char>) -> Seq<Seq<char>> {
    words_from(s, 0)
}

/// The contents of a list of owned words.
pub open spec fn texts(ws: Seq<String>) -> Seq<Seq<char>> {
    Seq::new(ws.len(), |i: int| ws[i]@)
}

/// The first `k` words of a list joined by single blanks.
pub open spec fn joined(ws: Seq<Seq<char>>, k: int) -> Seq<char>
    decreases k,
{
    if k <= 0 {
        Seq::empty()
    } else if k == 1 {
        ws[0]
    } else {
        joined(ws, k - 1) + seq![' '] + ws[k - 1]
    }
}

/// A text without the white space at its start and at its end.
pub open spec fn trimmed(s: Seq<char>) -> Seq<char>
    decreases s.len(),
{
    if s.len() > 0 && is_white_space(s[0]) {
        trimmed(s.drop_first())
    } else if s.len() > 0 && is_white_space(s.last()) {
        trimmed(s.drop_last())
    } else {
        s
    }
}

/// A text in which every occurrence of `from` is replaced by `to`; the
/// occurrences are found from the left and do not overlap.
pub open spec fn replaced(s: Seq<char>, from: Seq<char>, to: Seq<char>) -> Seq<char>
    decreases s.len(),
{
    if from.len() == 0 || s.len() == 0 {
        s
    } else if from.len() <= s.len() && s.take(from.len() as int) == from {
        to + replaced(s.skip(from.len() as int), from, to)
    } else {
        seq![s[0]] + replaced(s.drop_first(), from, to)
    }
}

/// Calls `std::str::from_utf8`. The contract claims what its documentation
/// says: it succeeds exactly on the byte runs that are UTF-8, and the text it
/// gives lies over the same bytes.
#[verifier::external_body]
pub(crate) fn utf8_text(bytes: &[u8]) -> (r: Option<&str>)
    ensures
        r is Some <==> valid_utf8(bytes@),
        r matches Some(s) ==> s.spec_bytes() == bytes@,
{
    std::str::from_utf8(bytes).ok()
}

/// Calls `str::to_lowercase`. The contract gives its result the name
/// `lowercase_of` and claims no more.
#[verifier::external_body]
pub(crate) fn lowercased(text: &str) -> (r: String)
    ensures
        r@ == lowercase_of(text@),
{
    text.to_lowercase()
}

/// Calls `str::split_whitespace` and collects the words it hands out. The
/// contract claims what its documentation says: the words are the longest runs
/// without white space, in order, with white space as Unicode's `White_Space`.
#[verifier::external_body]
pub(crate) fn split_words(text: &str) -> (out: Vec<String>)
    ensures
        texts(out@) == words(text@),
{
    text.split_whitespace().map(String::from).collect()
}

/// Calls `str::trim`. The contract claims what its documentation says: the
/// result is the text without its leading and trailing white space, with white
/// space as Unicode's `White_Space`.
#[verifier::external_body]
pub(crate) fn trim(text: &str) -> (r: &str)
    ensures
        r@ == trimmed(text@),
{
    text.trim()
}

/// Calls `str::replace`. The contract claims what its documentation says:
/// every match of the pattern, found from the left without overlap, is replaced.
/// The empty pattern is left out.
#[verifier::external_body]
pub(crate) fn replace_all(text: &str, from: &str, to: &str) -> (r: String)
    requires
        from@.len() > 0,
    ensures
        r@ == replaced(text@, from@, to@),
{
    text.replace(from, to)
}

/// Decodes a payload: the text it holds where it is UTF-8, else nothing.
pub fn decode_payload(payload: &[u8]) -> (r: Option<&str>)
    ensures
        r is Some <==> valid_utf8(payload@),
        r matches Some(s) ==> Some(s@) == payload_text(payload@),
{
    let r = utf8_text(payload);
    proof {
        if let Some(s) = r {
            vstd::utf8::encode_utf8_decode_utf8(s@);
        }
    }
    r
}

/// Tells whether two texts are the same.
pub fn same_text(a: &str, b: &str) -> (r: bool)
    ensures
        r == (a@ == b@),
{
    let x: String = a.to_owned();
    let y: String = b.to_owned();
    x == y
}

/// Tells whether a byte is an ASCII decimal digit.
pub fn byte_is_digit(b: u8) -> (r: bool)
    ensures
        r == is_digit(b),
{
    0x30 <= b && b <= 0x39
}

/// The number that a run of decimal digits writes.
pub open spec fn digits_value(s: Seq<u8>) -> nat
    decreases s.len(),
{
    if s.len() == 0 {
        0
    } else {
        digits_value(s.drop_last()) * 10 + (s.last() - 0x30) as nat
    }
}

/// Every byte of the text is a decimal digit.
pub open spec fn all_digits(s: Seq<u8>) -> bool {
    forall|i: int| 0 <= i < s.len() ==> is_digit(#[trigger] s[i])
}

/// The digits of an unsigned decimal numeral: the text itself, or what follows
/// one leading `+`.
pub open spec fn numeral_digits(s: Seq<u8>) -> Seq<u8> {
    if s.len() > 0 && s[0] == 0x2b {
        s.subrange(1, s.len() as int)
    } else {
        s
    }
}

/// The value of an unsigned decimal numeral of any length: an optional `+`, then
/// one digit or more. Any other text is no number.
pub open spec fn decimal(s: Seq<u8>) -> Option<nat> {
    let d = numeral_digits(s);
    if d.len() > 0 && all_digits(d) {
        Some(digits_value(d))
    } else {
        None
    }
}

/// The number that a text writes for a machine word: the value of its
/// numeral where that fits, else none. A numeral too large is no number.
pub open spec fn unsigned(s: Seq<u8>) -> Option<usize> {
    match decimal(s) {
        Some(v) => if v <= usize::MAX {
            Some(v as usize)
        } else {
            None
        },
        None => None,
    }
}

/// Reads an unsigned decimal numeral into a machine word.
pub fn parse_usize(text: &[u8]) -> (r: Option<usize>)
    ensures
        r == unsigned(text@),
{
    let mut i: usize = 0;
    if text.len() > 0 && text[0] == 0x2b {
        i = 1;
    }
    let start: usize = i;
    if start == text.len() {
        return None;
    }
    let ghost d = numeral_digits(text@);
    assert(d =~= text@.subrange(start as int, text@.len() as int));
    let mut acc: usize = 0;
    let mut fits: bool = true;
    assert(d.take(0) =~= Seq::<u8>::empty());
    while i < text.len()
        invariant
            start <= i <= text.len(),
            start < text.len(),
            d == numeral_digits(text@),
            d == text@.subrange(start as int, text@.len() as int),
            all_digits(d.take(i - start)),
            fits ==> acc == digits_value(d.take(i - start)),
            !fits ==> digits_value(d.take(i - start)) > usize::MAX,
        decreases text.len() - i,
    {
        let b = text[i];
        let ghost before = d.take(i - start);
        let ghost after = d.take(i - start + 1);
        assert(after.drop_last() =~= before);
        assert(after.last() == b);
        if !byte_is_digit(b) {
            assert(!is_digit(d[i - start]));
            return None;
        }
        assert forall|k: int| 0 <= k < after.len() implies is_digit(#[trigger] after[k]) by {
            if k < before.len() {
                assert(before[k] == after[k]);
            }
        }
        let digit: usize = (b - 0x30) as usize;
        if fits {
            match acc.checked_mul(10) {
                Some(tens) => match tens.checked_add(digit) {
                    Some(v) => {
                        acc = v;
                    },
                    None => {
                        fits = false;
                    },
                },
                None => {
                    fits = false;
                },
            }
        }
        i += 1;
    }
    assert(d.take(i - start) =~= d);
    if fits {
        Some(acc)
    } else {
        None
    }
}

/// The decimal numeral of a number: its digits, without a sign and without
/// leading zeros.
pub open spec fn numeral(n: nat) -> Seq<u8>
    decreases n,
{
    if n < 10 {
        seq![(0x30 + n) as u8]
    } else {
        numeral(n / 10).push((0x30 + n % 10) as u8)
    }
}

/// Reading the numeral of a number gives the number.
pub proof fn lemma_numeral_round_trip(n: nat)
    ensures
        numeral(n).len() >= 1,
        all_digits(numeral(n)),
        numeral(n)[0] != 0x2b,
        digits_value(numeral(n)) == n,
        decimal(numeral(n)) == Some(n),
        n <= usize::MAX ==> unsigned(numeral(n)) == Some(n as usize),
    decreases n,
{
    if n < 10 {
        let s = numeral(n);
        assert(s.drop_last() =~= Seq::<u8>::empty());
        assert(digits_value(s.drop_last()) == 0);
    } else {
        lemma_numeral_round_trip(n / 10);
        let s = numeral(n);
        assert(s.drop_last() =~= numeral(n / 10));
        assert(s[0] == numeral(n / 10)[0]);
    }
}

/// Appends the decimal numeral of a number to a buffer.
pub fn append_numeral(out: &mut Vec<u8>, n: usize)
    ensures
        final(out)@ == old(out)@ + numeral(n as nat),
    decreases n,
{
    if n >= 10 {
        append_numeral(out, n / 10);
    }
    out.push(0x30 + (n % 10) as u8);
    assert(out@ =~= old(out)@ + numeral(n as nat));
}

} // verus!
