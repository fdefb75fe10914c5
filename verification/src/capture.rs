//! Selection capture: what counts as captured text once the clipboard has
//! been read after a simulated copy.
//!
//! The driver injects the copy keystroke, waits [`SETTLE_DELAY_MS`], reads
//! the clipboard and hands the outcome to [`capture_selected_text`]. A
//! capture is valid only if the text holds something besides whitespace;
//! every other outcome is an absent capture, never an error.

use vstd::prelude::*;

verus! {

/// Milliseconds to wait between the injected copy keystroke and the read of
/// the clipboard.
pub const SETTLE_DELAY_MS: u64 = 120;

/// Whether `c` is whitespace: whether it has the Unicode property
/// `White_Space`.
pub open spec fn is_white_space(c: char) -> bool {
    let code = c as u32;
    ||| 0x09 <= code <= 0x0D
    ||| code == 0x20
    ||| code == 0x85
    ||| code == 0xA0
    ||| code == 0x1680
    ||| 0x2000 <= code <= 0x200A
    ||| code == 0x2028
    ||| code == 0x2029
    ||| code == 0x202F
    ||| code == 0x205F
    ||| code == 0x3000
}

/// Tells whether `c` is whitespace.
pub fn is_whitespace(c: char) -> (white: bool)
    ensures
        white == is_white_space(c),
{
    let code: u32 = c as u32;
    (0x09 <= code && code <= 0x0D) || code == 0x20 || code == 0x85 || code == 0xA0 || code
        == 0x1680 || (0x2000 <= code && code <= 0x200A) || code == 0x2028 || code == 0x2029
        || code == 0x202F || code == 0x205F || code == 0x3000
}

/// A text is blank when every character of it is whitespace: when trimming
/// whitespace off both ends leaves nothing
/// (see [`lemma_blank_is_trimmed_empty`]).
pub open spec fn is_blank(text: Seq<char>) -> bool {
    forall|i: int| 0 <= i < text.len() ==> is_white_space(#[trigger] text[i])
}

/// `text` without the whitespace at its start.
pub open spec fn trim_start(text: Seq<char>) -> Seq<char>
    decreases text.len(),
{
    if text.len() > 0 && is_white_space(text.first()) {
        trim_start(text.drop_first())
    } else {
        text
    }
}

/// `text` without the whitespace at its end.
pub open spec fn trim_end(text: Seq<char>) -> Seq<char>
    decreases text.len(),
{
    if text.len() > 0 && is_white_space(text.last()) {
        trim_end(text.drop_last())
    } else {
        text
    }
}

/// `text` without the whitespace at its start and at its end.
pub open spec fn trimmed(text: Seq<char>) -> Seq<char> {
    trim_end(trim_start(text))
}

/// What came of reading the clipboard.
#[derive(Clone, Debug, PartialEq, Eq)]
pub enum ClipboardRead {
    /// The clipboard could not be opened.
    Unavailable,
    /// The clipboard was opened but held no readable text.
    Unreadable,
    /// The text that the clipboard held.
    Text(String),
}

/// The capture that a clipboard read amounts to: the text as read, untrimmed,
/// if it is not blank, and nothing otherwise.
pub open spec fn captured_text(read: ClipboardRead) -> Option<String> {
    match read {
        ClipboardRead::Text(text) => if is_blank(text@) {
            None
        } else {
            Some(text)
        },
        _ => None,
    }
}

/// Whether every character of `text` is whitespace.
pub fn is_blank_text(text: &str) -> (blank: bool)
    ensures
        blank == is_blank(text@),
{
    for c in it: text.chars()
        invariant
            it.seq() == text@,
            forall|i: int| 0 <= i < it.index() ==> is_white_space(#[trigger] text@[i]),
    {
        if !is_whitespace(c) {
            assert(c == text@[it.index()]);
            return false;
        }
    }
    true
}

/// Decides what a selection capture yields from the outcome of the clipboard
/// read that followed the injected copy.
pub fn capture_selected_text(read: ClipboardRead) -> (captured: Option<String>)
    ensures
        captured == captured_text(read),
{
    match read {
        ClipboardRead::Text(text) => {
            if is_blank_text(text.as_str()) {
                None
            } else {
                Some(text)
            }
        },
        ClipboardRead::Unavailable => None,
        ClipboardRead::Unreadable => None,
    }
}

/// A clipboard that holds only whitespace yields no capture.
pub proof fn lemma_blank_clipboard_yields_nothing(text: String)
    requires
        is_blank(text@),
    ensures
        captured_text(ClipboardRead::Text(text)) is None,
{
}

/// A capture, when there is one, is the clipboard text itself and is not
/// blank; a failed read never yields one.
pub proof fn lemma_capture_is_untrimmed_text(read: ClipboardRead)
    ensures
        captured_text(read) matches Some(text) ==> read == ClipboardRead::Text(text) && !is_blank(
            text@,
        ),
        captured_text(read) is None <==> !(read matches ClipboardRead::Text(text) && !is_blank(
            text@,
        )),
{
}

/// Trimming the start leaves nothing exactly of a blank text; what it
/// leaves of another text begins with a character that is not whitespace.
proof fn lemma_trim_start(text: Seq<char>)
    ensures
        trim_start(text).len() == 0 <==> is_blank(text),
        trim_start(text).len() > 0 ==> !is_white_space(trim_start(text).first()),
    decreases text.len(),
{
    if text.len() > 0 && is_white_space(text.first()) {
        let rest = text.drop_first();
        lemma_trim_start(rest);
        if is_blank(rest) {
            assert forall|i: int| 0 <= i < text.len() implies is_white_space(
                #[trigger] text[i],
            ) by {
                if i > 0 {
                    assert(text[i] == rest[i - 1]);
                }
            }
        } else {
            let i = choose|i: int| 0 <= i < rest.len() && !is_white_space(rest[i]);
            assert(text[i + 1] == rest[i]);
        }
    } else if text.len() > 0 {
        assert(!is_white_space(text[0]));
    }
}

/// Trimming the end leaves nothing exactly of a blank text.
proof fn lemma_trim_end(text: Seq<char>)
    ensures
        trim_end(text).len() == 0 <==> is_blank(text),
    decreases text.len(),
{
    if text.len() > 0 && is_white_space(text.last()) {
        let rest = text.drop_last();
        lemma_trim_end(rest);
        if is_blank(rest) {
            assert forall|i: int| 0 <= i < text.len() implies is_white_space(
                #[trigger] text[i],
            ) by {
                if i < rest.len() {
                    assert(text[i] == rest[i]);
                }
            }
        } else {
            let i = choose|i: int| 0 <= i < rest.len() && !is_white_space(rest[i]);
            assert(text[i] == rest[i]);
        }
    } else if text.len() > 0 {
        assert(!is_white_space(text[text.len() - 1]));
    }
}

/// A text is blank exactly if trimming whitespace off both of its ends
/// leaves the empty text.
pub proof fn lemma_blank_is_trimmed_empty(text: Seq<char>)
    ensures
        is_blank(text) <==> trimmed(text).len() == 0,
{
    let inner = trim_start(text);
    lemma_trim_start(text);
    lemma_trim_end(inner);
    if inner.len() > 0 {
        assert(!is_white_space(inner[0]));
    }
}

} // verus!
