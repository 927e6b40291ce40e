//! From what a command wrote to the text that the parsers read.

use crate::error::{CollectError, ParseError};
use crate::fmt::trim_newline;
use crate::text::strip_newline;
use vstd::prelude::*;
use vstd::utf8::{decode_utf8, valid_utf8};

verus! {

/// The text that `String::from_utf8_lossy` makes of `bytes`.
pub uninterp spec fn utf8_lossy(bytes: Seq<u8>) -> Seq<char>;

/// Calls `String::from_utf8_lossy` and takes the result as a `String`. Bytes
/// that are valid UTF-8 come back as the text that they encode. Of other
/// bytes nothing is claimed but that the text depends on them alone: std
/// puts U+FFFD where they are invalid.
#[verifier::external_body]
fn from_utf8_lossy(bytes: &Vec<u8>) -> (s: String)
    ensures
        s@ == utf8_lossy(bytes@),
        valid_utf8(bytes@) ==> s@ == decode_utf8(bytes@),
{
    String::from_utf8_lossy(bytes).into_owned()
}

/// Bytes that can be taken for text.
pub trait Stringify {
    /// The text that the bytes are taken for.
    spec fn as_text(&self) -> Seq<char>;

    /// The text that the bytes are taken for.
    fn to_string(&self) -> (s: String)
        ensures
            s@ == self.as_text(),
    ;
}

impl Stringify for Vec<u8> {
    open spec fn as_text(&self) -> Seq<char> {
        utf8_lossy(self@)
    }

    fn to_string(&self) -> (s: String)
        ensures
            valid_utf8(self@) ==> s@ == decode_utf8(self@),
    {
        from_utf8_lossy(self)
    }
}

/// The text of what a command wrote, where `None` stands for a command that
/// could not be run: the bytes taken for text, without one final line feed.
pub open spec fn output_text(stdout: Option<Vec<u8>>) -> Option<Seq<char>> {
    match stdout {
        None => None,
        Some(bytes) => Some(strip_newline(bytes.as_text())),
    }
}

/// What a collector has from a source whose text `parse` reads:
/// `SourceUnavailable` where there is no output, else what the parser makes
/// of the text.
pub open spec fn collect<T>(
    stdout: Option<Vec<u8>>,
    parse: spec_fn(Seq<char>) -> Result<T, ParseError>,
) -> Result<T, CollectError> {
    match output_text(stdout) {
        None => Err(CollectError::SourceUnavailable),
        Some(text) => match parse(text) {
            Ok(value) => Ok(value),
            Err(e) => Err(CollectError::ParseFailure(e)),
        },
    }
}

/// The text of what a command wrote.
pub fn get_command_output(stdout: &Option<Vec<u8>>) -> (text: Option<String>)
    ensures
        match text {
            Some(t) => output_text(*stdout) == Some(t@),
            None => output_text(*stdout) is None,
        },
        stdout matches Some(bytes) ==> valid_utf8(bytes@) ==> (text matches Some(t) && t@
            == strip_newline(decode_utf8(bytes@))),
{
    match stdout {
        None => None,
        Some(bytes) => {
            let mut raw = bytes.to_string();
            trim_newline(&mut raw);
            Some(raw)
        },
    }
}

} // verus!
