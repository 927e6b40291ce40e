//! The name of the operating system, as its release file gives it.

use crate::error::{CollectError, ParseError};
use crate::text::{cut, find_value, line_ranges, lookup, to_chars};
use crate::source::{collect, get_command_output};
use vstd::prelude::*;

verus! {

/// Whether `c` is a mark that may enclose a value.
pub open spec fn is_quote(c: char) -> bool {
    c == '"' || c == '\''
}

/// Whether `value` stands between two quotation marks of one kind.
pub open spec fn is_quoted(value: Seq<char>) -> bool {
    value.len() >= 2 && is_quote(value[0]) && value.last() == value[0]
}

/// `value` without the quotation marks around it, if it has them.
pub open spec fn unquoted(value: Seq<char>) -> Seq<char> {
    if is_quoted(value) {
        value.subrange(1, value.len() - 1)
    } else {
        value
    }
}

/// The name that release text gives: the value of its first line of the
/// form `PRETTY_NAME=value`, without quotation marks around it;
/// `FieldNotFound` if it has no such line.
pub open spec fn os_name_of(text: Seq<char>) -> Result<Seq<char>, ParseError> {
    match lookup(text, "PRETTY_NAME"@, '=') {
        None => Err(ParseError::FieldNotFound),
        Some(value) => Ok(unquoted(value)),
    }
}

/// Reads the name of the operating system from release text.
pub fn parse_os(text: &str) -> (r: Result<String, ParseError>)
    ensures
        match r {
            Ok(name) => os_name_of(text@) == Ok::<Seq<char>, ParseError>(name@),
            Err(e) => os_name_of(text@) == Err::<Seq<char>, ParseError>(e),
        },
{
    let v = to_chars(text);
    let ls = line_ranges(&v);
    let label = to_chars("PRETTY_NAME");
    match find_value(&v, &ls, &label, '=') {
        None => Err(ParseError::FieldNotFound),
        Some(r) => {
            let (lo, hi) = r;
            if hi - lo >= 2 && (v[lo] == '"' || v[lo] == '\'') && v[hi - 1] == v[lo] {
                assert(v@.subrange(lo as int, hi as int).subrange(1, hi - lo - 1) =~= v@.subrange(
                    lo + 1,
                    hi - 1,
                ));
                Ok(cut(text, (lo + 1, hi - 1)))
            } else {
                Ok(cut(text, r))
            }
        },
    }
}

/// What a start has of the operating system's name from the output of the
/// command that reads the release file.
pub open spec fn os_reading(stdout: Option<Vec<u8>>) -> Result<Seq<char>, CollectError> {
    collect(stdout, |text: Seq<char>| os_name_of(text))
}

/// Reads the name of the operating system from what the command wrote.
pub fn get_os(stdout: &Option<Vec<u8>>) -> (r: Result<String, CollectError>)
    ensures
        match r {
            Ok(name) => os_reading(*stdout) == Ok::<Seq<char>, CollectError>(name@),
            Err(e) => os_reading(*stdout) == Err::<Seq<char>, CollectError>(e),
        },
{
    match get_command_output(stdout) {
        None => Err(CollectError::SourceUnavailable),
        Some(text) => match parse_os(text.as_str()) {
            Ok(name) => Ok(name),
            Err(e) => Err(CollectError::ParseFailure(e)),
        },
    }
}

} // verus!
