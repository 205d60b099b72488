//! What a chunk of the recogniser's transcript stream says.
//!
//! The recogniser writes lines of text; the line that reports a recognised
//! word holds `WORD="..."`. A chunk is whatever one read of the stream
//! brought: it need not be text, and it need not hold a word.

use vstd::prelude::*;
use vstd::utf8::*;

verus! {

#[verifier::external_type_specification]
#[verifier::external_body]
pub struct ExPatternError(regex::Error);

/// Whether `regex::Regex::new` accepts `pattern`: the expression is well
/// formed and what it compiles to stays within the compiler's own limits.
pub uninterp spec fn pattern_compiles(pattern: Seq<char>) -> bool;

/// The text of capture group `group` in the leftmost match of the regular
/// expression `pattern` in `text`; `None` where nothing matches or the group
/// took no part in the match.
pub uninterp spec fn first_capture(pattern: Seq<char>, text: Seq<char>, group: nat) -> Option<
    Seq<char>,
>;

/// `regex::Regex::captures`, on the expression that `regex::Regex::new`
/// compiles from `pattern`. Whether the expression compiles depends on the
/// expression alone; one that does not gives the compiler's error, and that
/// is the only error. Otherwise the search depends on the expression and the
/// text alone, and the text of the asked group comes back as
/// `regex::Captures::get` and `regex::Match::as_str` give it.
#[verifier::external_body]
fn capture(pattern: &str, text: &str, group: usize) -> (found: Result<
    Option<String>,
    regex::Error,
>)
    ensures
        found is Ok <==> pattern_compiles(pattern@),
        found matches Ok(Some(word)) ==> first_capture(pattern@, text@, group as nat) == Some(
            word@,
        ),
        found matches Ok(None) ==> first_capture(pattern@, text@, group as nat) is None,
{
    let compiled = regex::Regex::new(pattern)?;
    match compiled.captures(text) {
        Some(groups) => match groups.get(group) {
            Some(part) => Ok(Some(part.as_str().to_string())),
            None => Ok(None),
        },
        None => Ok(None),
    }
}

/// `String::from_utf8`: the bytes as text where they are UTF-8, nothing where
/// they are not.
#[verifier::external_body]
fn decode(bytes: Vec<u8>) -> (text: Option<String>)
    ensures
        text is Some <==> valid_utf8(bytes@),
        text matches Some(t) ==> t@ == decode_utf8(bytes@),
{
    match String::from_utf8(bytes) {
        Ok(text) => Some(text),
        Err(_) => None,
    }
}

/// The expression that finds a recognised word in the transcript: `WORD="`
/// and then the word, which runs up to the next quotation mark.
pub const WORD_PATTERN: &'static str = "WORD=\\\"([^\"]+)";

/// The group of [`WORD_PATTERN`] that holds the word.
pub const WORD_GROUP: usize = 1;

/// The phrase that wakes the assistant.
pub const WAKE_PHRASE: &'static str = "おーけーうさみ";

/// What one chunk of the transcript amounts to.
#[derive(Debug, PartialEq, Eq)]
pub enum Heard {
    /// The chunk is not text.
    Undecodable,
    /// Text in which no word is reported. It is kept for the log.
    Unrecognized(String),
    /// A word was recognised, and it is not the wake phrase.
    Other(String),
    /// The wake phrase was recognised.
    Wake(String),
}

/// [`Heard`] with its texts as sequences of characters.
pub enum HeardView {
    Undecodable,
    Unrecognized(Seq<char>),
    Other(Seq<char>),
    Wake(Seq<char>),
}

impl View for Heard {
    type V = HeardView;

    open spec fn view(&self) -> HeardView {
        match self {
            Heard::Undecodable => HeardView::Undecodable,
            Heard::Unrecognized(text) => HeardView::Unrecognized(text@),
            Heard::Other(word) => HeardView::Other(word@),
            Heard::Wake(word) => HeardView::Wake(word@),
        }
    }
}

/// The expression that finds the word was refused by the expression compiler.
#[derive(Debug, PartialEq, Eq, Clone, Copy)]
pub struct PatternRefused;

/// What a decoded chunk amounts to, given what the search for a word found
/// in it.
pub open spec fn classified(text: Seq<char>, word: Option<Seq<char>>, wake: Seq<char>) -> HeardView {
    match word {
        None => HeardView::Unrecognized(text),
        Some(w) => if w == wake {
            HeardView::Wake(w)
        } else {
            HeardView::Other(w)
        },
    }
}

/// What a chunk amounts to when words are found by `pattern` and the wake
/// phrase is `wake`.
pub open spec fn heard_in(chunk: Seq<u8>, pattern: Seq<char>, wake: Seq<char>) -> HeardView {
    if valid_utf8(chunk) {
        let text = decode_utf8(chunk);
        classified(text, first_capture(pattern, text, WORD_GROUP as nat), wake)
    } else {
        HeardView::Undecodable
    }
}

/// The view of a text that may be absent.
pub open spec fn optional_text(text: Option<String>) -> Option<Seq<char>> {
    match text {
        Some(t) => Some(t@),
        None => None,
    }
}

/// Decides what a decoded chunk amounts to. `word` is what the search for a
/// word found in `text`.
pub fn classify(text: String, word: Option<String>, wake: &str) -> (heard: Heard)
    ensures
        heard@ == classified(text@, optional_text(word), wake@),
{
    match word {
        None => Heard::Unrecognized(text),
        Some(w) => {
            let phrase = wake.to_owned();
            if w == phrase {
                Heard::Wake(w)
            } else {
                Heard::Other(w)
            }
        },
    }
}

/// Decodes a chunk, looks for a recognised word in it and compares the word
/// with the wake phrase.
///
/// A chunk that is not text is reported as such and is no error. The only
/// error is the expression compiler refusing [`WORD_PATTERN`], which is looked
/// at only once the chunk has been decoded.
pub fn hear(chunk: Vec<u8>, wake: &str) -> (heard: Result<Heard, PatternRefused>)
    ensures
        heard is Err <==> valid_utf8(chunk@) && !pattern_compiles(WORD_PATTERN@),
        heard matches Ok(h) ==> h@ == heard_in(chunk@, WORD_PATTERN@, wake@),
{
    match decode(chunk) {
        None => Ok(Heard::Undecodable),
        Some(text) => match capture(WORD_PATTERN, text.as_str(), WORD_GROUP) {
            Ok(word) => Ok(classify(text, word, wake)),
            Err(_) => Err(PatternRefused),
        },
    }
}

} // verus!
