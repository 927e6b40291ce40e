//! The processor's name, temperature and per-core frequencies.

use crate::error::{CollectError, ParseError};
use crate::number::{
    is_sorting_of, numbers_of, parse_each, parse_unsigned, sort_ascending, unsigned_of, Notation,
};
use crate::text::{
    cut, find_value, find_values, line_ranges, lookup, lookup_all, pieces, to_chars, trim,
    trim_range,
};
use crate::source::{collect, get_command_output};
use vstd::prelude::*;

verus! {

/// The name that processor-info text gives: the value of its first line
/// labelled `Model name`, `FieldNotFound` if it has none.
pub open spec fn cpu_name_of(text: Seq<char>) -> Result<Seq<char>, ParseError> {
    match lookup(text, "Model name"@, ':') {
        None => Err(ParseError::FieldNotFound),
        Some(name) => Ok(name),
    }
}

/// The frequencies that processor-info text lists, in kHz and in the order
/// of its lines: one for each line labelled `cpu MHz`, whose value is a
/// decimal count of MHz. A value that is no decimal is the failure of the
/// whole list.
pub open spec fn frequencies_listed(text: Seq<char>) -> Result<Seq<u64>, ParseError> {
    numbers_of(lookup_all(text, "cpu MHz"@, ':'), Notation::Thousandths, u64::MAX)
}

/// The sign that may stand before the digits of a temperature.
pub open spec fn is_sign(c: char) -> bool {
    c == '-' || c == '+'
}

/// The whole degrees that a count of thousandths of a degree comes to, kept
/// within a `u8`: below zero it is 0, above 255 it is 255.
pub open spec fn degrees(below_zero: bool, thousandths: u64) -> u8 {
    if below_zero {
        0
    } else if thousandths / 1000 > 255 {
        255
    } else {
        (thousandths / 1000) as u8
    }
}

/// The temperature that the text of a thermal zone states, in whole degrees:
/// the text, trimmed, is a sign or none and a number of thousandths of a
/// degree that fits in a `u64`.
pub open spec fn temperature_of(text: Seq<char>) -> Result<u8, ParseError> {
    let t = trim(text);
    let signed = t.len() > 0 && is_sign(t[0]);
    let digits = if signed {
        t.skip(1)
    } else {
        t
    };
    match unsigned_of(digits, u64::MAX) {
        Err(e) => Err(e),
        Ok(n) => Ok(degrees(signed && t[0] == '-', n)),
    }
}

/// Reads the processor's name from processor-info text.
pub fn parse_cpu_name(cpu_data: &str) -> (r: Result<String, ParseError>)
    ensures
        match r {
            Ok(name) => cpu_name_of(cpu_data@) == Ok::<Seq<char>, ParseError>(name@),
            Err(e) => cpu_name_of(cpu_data@) == Err::<Seq<char>, ParseError>(e),
        },
{
    let v = to_chars(cpu_data);
    let ls = line_ranges(&v);
    let label = to_chars("Model name");
    match find_value(&v, &ls, &label, ':') {
        None => Err(ParseError::FieldNotFound),
        Some(r) => Ok(cut(cpu_data, r)),
    }
}

/// Reads the frequency of each core from processor-info text, in kHz, and
/// hands them back in ascending order.
pub fn parse_cpu_freq(cpu_data: &str) -> (r: Result<Vec<u64>, ParseError>)
    ensures
        match r {
            Ok(freqs) => match frequencies_listed(cpu_data@) {
                Ok(listed) => is_sorting_of(freqs@, listed),
                Err(_) => false,
            },
            Err(e) => frequencies_listed(cpu_data@) == Err::<Seq<u64>, ParseError>(e),
        },
        r matches Ok(freqs) ==> freqs@.len() == lookup_all(cpu_data@, "cpu MHz"@, ':').len(),
        lookup_all(cpu_data@, "cpu MHz"@, ':').len() == 0 ==> r is Ok,
{
    let v = to_chars(cpu_data);
    let ls = line_ranges(&v);
    let label = to_chars("cpu MHz");
    let values = find_values(&v, &ls, &label, ':');
    assert(pieces(v@, values@).subrange(0, values.len() as int) =~= pieces(v@, values@));
    match parse_each(&v, &values, 0, values.len(), Notation::Thousandths, u64::MAX) {
        Err(e) => Err(e),
        Ok(listed) => Ok(sort_ascending(&listed)),
    }
}

/// Reads the temperature from the text of a thermal zone.
pub fn parse_cpu_temp(text: &str) -> (r: Result<u8, ParseError>)
    ensures
        r == temperature_of(text@),
{
    let v = to_chars(text);
    let (lo, hi) = trim_range(&v, 0, v.len());
    assert(v@.subrange(0, v@.len() as int) =~= v@);
    let signed = lo < hi && (v[lo] == '-' || v[lo] == '+');
    let below_zero = signed && v[lo] == '-';
    let start = if signed {
        lo + 1
    } else {
        lo
    };
    proof {
        if signed {
            assert(v@.subrange(lo as int, hi as int).skip(1) =~= v@.subrange(lo + 1, hi as int));
        }
    }
    match parse_unsigned(&v, (start, hi), u64::MAX) {
        Err(e) => Err(e),
        Ok(n) => {
            if below_zero {
                Ok(0)
            } else if n / 1000 > 255 {
                Ok(255)
            } else {
                Ok((n / 1000) as u8)
            }
        },
    }
}

/// What a poll has of the processor's name from the output of the command
/// that describes the processor.
pub open spec fn cpu_name_reading(stdout: Option<Vec<u8>>) -> Result<Seq<char>, CollectError> {
    collect(stdout, |text: Seq<char>| cpu_name_of(text))
}

/// What a poll has of the frequencies, in the order of the lines, from the
/// output of the command that reads the kernel's cpuinfo file.
pub open spec fn cpu_freq_reading(stdout: Option<Vec<u8>>) -> Result<Seq<u64>, CollectError> {
    collect(stdout, |text: Seq<char>| frequencies_listed(text))
}

/// What a poll has of the temperature from the output of the command that
/// reads the thermal zone.
pub open spec fn cpu_temp_reading(stdout: Option<Vec<u8>>) -> Result<u8, CollectError> {
    collect(stdout, |text: Seq<char>| temperature_of(text))
}

/// Reads the processor's name from what the command wrote.
pub fn get_cpu_name(stdout: &Option<Vec<u8>>) -> (r: Result<String, CollectError>)
    ensures
        match r {
            Ok(name) => cpu_name_reading(*stdout) == Ok::<Seq<char>, CollectError>(name@),
            Err(e) => cpu_name_reading(*stdout) == Err::<Seq<char>, CollectError>(e),
        },
{
    match get_command_output(stdout) {
        None => Err(CollectError::SourceUnavailable),
        Some(text) => match parse_cpu_name(text.as_str()) {
            Ok(name) => Ok(name),
            Err(e) => Err(CollectError::ParseFailure(e)),
        },
    }
}

/// Reads the frequency of each core, in kHz and in ascending order, from
/// what the command wrote.
pub fn get_cpu_freq(stdout: &Option<Vec<u8>>) -> (r: Result<Vec<u64>, CollectError>)
    ensures
        match r {
            Ok(freqs) => match cpu_freq_reading(*stdout) {
                Ok(listed) => is_sorting_of(freqs@, listed),
                Err(_) => false,
            },
            Err(e) => cpu_freq_reading(*stdout) == Err::<Seq<u64>, CollectError>(e),
        },
{
    match get_command_output(stdout) {
        None => Err(CollectError::SourceUnavailable),
        Some(text) => match parse_cpu_freq(text.as_str()) {
            Ok(freqs) => Ok(freqs),
            Err(e) => Err(CollectError::ParseFailure(e)),
        },
    }
}

/// Reads the temperature from what the command wrote.
pub fn get_cpu_temp(stdout: &Option<Vec<u8>>) -> (r: Result<u8, CollectError>)
    ensures
        r == cpu_temp_reading(*stdout),
{
    match get_command_output(stdout) {
        None => Err(CollectError::SourceUnavailable),
        Some(text) => match parse_cpu_temp(text.as_str()) {
            Ok(t) => Ok(t),
            Err(e) => Err(CollectError::ParseFailure(e)),
        },
    }
}

} // verus!
