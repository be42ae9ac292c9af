//! Reading the device probe's diagnostics.
//!
//! The probe prints what it finds on its diagnostic stream. A receiver is
//! attached when that text mentions both `Found` and `device`.

use vstd::prelude::*;

verus! {

/// `word` stands in `text` at position `at`.
pub open spec fn occurs_at(text: Seq<char>, word: Seq<char>, at: int) -> bool {
    0 <= at <= text.len() - word.len() && text.subrange(at, at + word.len()) == word
}

/// `word` stands somewhere in `text`. The empty word stands in every text.
pub open spec fn mentions(text: Seq<char>, word: Seq<char>) -> bool {
    exists|at: int| occurs_at(text, word, at)
}

/// The diagnostics tell of an attached receiver.
pub open spec fn spec_reports_device(diagnostics: Seq<char>) -> bool {
    mentions(diagnostics, "Found"@) && mentions(diagnostics, "device"@)
}

/// The text that the standard library's lossy UTF-8 decoding makes of
/// `bytes`. It depends on the bytes alone.
pub uninterp spec fn lossy_text(bytes: Seq<u8>) -> Seq<char>;

/// Calls `String::from_utf8_lossy`, which keeps what is valid UTF-8 and puts
/// U+FFFD in place of what is not. Not proved: that the text returned is
/// [`lossy_text`] of the bytes, which is to say only that the same bytes
/// always decode to the same text.
#[verifier::external_body]
fn decode_lossy(bytes: &[u8]) -> (text: String)
    ensures
        text@ == lossy_text(bytes@),
{
    String::from_utf8_lossy(bytes).into_owned()
}

fn characters(text: &str) -> (chars: Vec<char>)
    ensures
        chars@ == text@,
{
    let mut chars: Vec<char> = Vec::new();
    for c in it: text.chars()
        invariant
            chars@ == it.seq().take(it.index() as int),
            it.seq() == text@,
    {
        chars.push(c);
    }
    chars
}

fn stands_at(text: &Vec<char>, word: &Vec<char>, at: usize) -> (found: bool)
    requires
        at + word.len() <= text.len(),
    ensures
        found == occurs_at(text@, word@, at as int),
{
    let ghost window = text@.subrange(at as int, at + word.len());
    let mut k: usize = 0;
    while k < word.len()
        invariant
            k <= word.len(),
            at + word.len() <= text.len(),
            window == text@.subrange(at as int, at + word.len()),
            forall|j: int| 0 <= j < k ==> window[j] == word@[j],
        decreases word.len() - k,
    {
        if text[at + k] != word[k] {
            assert(window[k as int] != word@[k as int]);
            return false;
        }
        k += 1;
    }
    assert(window =~= word@);
    true
}

fn word_in(text: &Vec<char>, word: &Vec<char>) -> (found: bool)
    ensures
        found == mentions(text@, word@),
{
    if word.len() > text.len() {
        return false;
    }
    let last: usize = text.len() - word.len();
    let mut at: usize = 0;
    loop
        invariant
            at <= last,
            last == text.len() - word.len(),
            forall|j: int| 0 <= j < at ==> !occurs_at(text@, word@, j),
        decreases last - at,
    {
        if stands_at(text, word, at) {
            return true;
        }
        if at == last {
            return false;
        }
        at += 1;
    }
}

/// Tells whether `word` stands somewhere in `text`.
pub fn text_mentions(text: &str, word: &str) -> (found: bool)
    ensures
        found == mentions(text@, word@),
{
    let text = characters(text);
    let word = characters(word);
    word_in(&text, &word)
}

/// Tells whether the probe's diagnostics mention both marks of an attached
/// receiver.
pub fn reports_device(diagnostics: &str) -> (present: bool)
    ensures
        present == spec_reports_device(diagnostics@),
{
    text_mentions(diagnostics, "Found") && text_mentions(diagnostics, "device")
}

/// Decides whether a receiver is attached, from what became of the probe:
/// the bytes of its diagnostic stream, or nothing when it could not be
/// run.
///
/// A probe that could not be run means no receiver. Otherwise the bytes
/// are decoded leniently and the text is searched for the two marks.
pub fn check_device(diagnostics: Option<&[u8]>) -> (present: bool)
    ensures
        present == match diagnostics {
            Some(bytes) => spec_reports_device(lossy_text(bytes@)),
            None => false,
        },
{
    match diagnostics {
        Some(bytes) => {
            let text = decode_lossy(bytes);
            reports_device(text.as_str())
        },
        None => false,
    }
}

} // verus!
