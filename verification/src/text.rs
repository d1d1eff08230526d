//! Dialog texts as UTF-16 code units.
//!
//! Window titles arrive as UTF-16 code units and dialogs take them, so every
//! message is composed in that form and ends with a zero unit.

use crate::status::LastOperationStatus;
use vstd::prelude::*;

verus! {

/// The UTF-16 code units of one character: the code point itself below
/// `0x10000`, a high and a low surrogate above.
pub open spec fn utf16_of_char(c: char) -> Seq<u16> {
    let code = c as int;
    if code < 0x10000 {
        seq![code as u16]
    } else {
        seq![
            (0xD800 + (code - 0x10000) / 0x400) as u16,
            (0xDC00 + (code - 0x10000) % 0x400) as u16,
        ]
    }
}

/// The UTF-16 code units of a text: those of its characters, in order.
pub open spec fn utf16(text: Seq<char>) -> Seq<u16>
    decreases text.len(),
{
    if text.len() == 0 {
        Seq::empty()
    } else {
        utf16(text.drop_last()) + utf16_of_char(text.last())
    }
}

/// The unit that ends every message.
pub open spec fn terminator() -> Seq<u16> {
    seq![0u16]
}

/// What the first prompt asks of the user.
pub open spec fn instruction_text() -> Seq<char> {
    "Click the window you want to center after clicking OK."@
}

/// What precedes the title on the second prompt.
pub open spec fn title_label_text() -> Seq<char> {
    "Window title: "@
}

/// What follows the title on the second prompt.
pub open spec fn confirmation_text() -> Seq<char> {
    "\r\n\r\nClick OK to center the window."@
}

/// The status line of the previous attempt, or nothing on the first run.
pub open spec fn status_line(last: Option<LastOperationStatus>) -> Seq<char> {
    match last {
        Some(status) => status.text(),
        None => Seq::empty(),
    }
}

/// What the first prompt says: the status line of the previous attempt,
/// then the instruction.
pub open spec fn prompt_text(last: Option<LastOperationStatus>) -> Seq<char> {
    status_line(last) + instruction_text()
}

/// The first prompt as it is handed to the dialog: its text in UTF-16, and
/// the terminator.
pub open spec fn prompt_units(last: Option<LastOperationStatus>) -> Seq<u16> {
    utf16(prompt_text(last)) + terminator()
}

/// The second prompt: the label, the title as it was read, the request to
/// confirm, and the terminator.
pub open spec fn confirmation_units(title: Seq<u16>) -> Seq<u16> {
    utf16(title_label_text()) + title + utf16(confirmation_text()) + terminator()
}

/// Encoding goes piece by piece: the code units of two texts put together
/// are those of the first followed by those of the second.
pub proof fn lemma_utf16_of_concatenation(first: Seq<char>, second: Seq<char>)
    ensures
        utf16(first + second) == utf16(first) + utf16(second),
    decreases second.len(),
{
    if second.len() == 0 {
        assert(first + second == first);
    } else {
        lemma_utf16_of_concatenation(first, second.drop_last());
        assert((first + second).drop_last() == first + second.drop_last());
    }
}

/// A text that stays below `0x10000` has one code unit per character, the
/// code point itself.
pub proof fn lemma_utf16_of_basic_plane(text: Seq<char>)
    requires
        forall|i: int| 0 <= i < text.len() ==> (text[i] as int) < 0x10000,
    ensures
        utf16(text) == Seq::new(text.len(), |i: int| text[i] as u16),
    decreases text.len(),
{
    if text.len() > 0 {
        lemma_utf16_of_basic_plane(text.drop_last());
    }
}

/// Appends the UTF-16 code units of one character.
fn push_utf16_char(units: &mut Vec<u16>, c: char)
    ensures
        final(units)@ == old(units)@ + utf16_of_char(c),
{
    let code: u32 = c as u32;
    if code < 0x10000 {
        units.push(code as u16);
    } else {
        let offset: u32 = code - 0x10000;
        units.push((0xD800 + offset / 0x400) as u16);
        units.push((0xDC00 + offset % 0x400) as u16);
    }
}

/// Appends the UTF-16 code units of `text`.
pub fn append_utf16(units: &mut Vec<u16>, text: &str)
    ensures
        final(units)@ == old(units)@ + utf16(text@),
{
    let ghost before = units@;
    for c in it: text.chars()
        invariant
            it.seq() == text@,
            units@ == before + utf16(text@.take(it.index() as int)),
    {
        proof {
            let done = text@.take(it.index() + 1);
            assert(done.drop_last() == text@.take(it.index() as int));
            assert(done.last() == c);
        }
        push_utf16_char(units, c);
    }
    assert(text@.take(text@.len() as int) == text@);
}

/// Composes the first prompt.
pub fn prompt_message(last: Option<LastOperationStatus>) -> (message: Vec<u16>)
    ensures
        message@ == prompt_units(last),
{
    let mut message: Vec<u16> = Vec::new();
    match last {
        Some(status) => {
            append_utf16(&mut message, status.as_str());
        },
        None => {},
    }
    append_utf16(&mut message, "Click the window you want to center after clicking OK.");
    proof {
        lemma_utf16_of_concatenation(status_line(last), instruction_text());
    }
    message.push(0);
    message
}

/// Composes the second prompt around the title of the detected window.
pub fn confirmation_message(title: Vec<u16>) -> (message: Vec<u16>)
    ensures
        message@ == confirmation_units(title@),
{
    let mut title = title;
    let mut message: Vec<u16> = Vec::new();
    append_utf16(&mut message, "Window title: ");
    message.append(&mut title);
    append_utf16(&mut message, "\r\n\r\nClick OK to center the window.");
    message.push(0);
    message
}

} // verus!
