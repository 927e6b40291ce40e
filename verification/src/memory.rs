//! Memory totals as the kernel's meminfo text states them.

use crate::error::{CollectError, ParseError};
use crate::number::{parse_unsigned, unsigned_of};
use crate::text::{
    are_ranges, drop_spaces, find_value, has_suffix, is_range, line_ranges, lines, lookup, piece,
    pieces, to_chars, trim_end,
};
use crate::source::{collect, get_command_output};
use vstd::prelude::*;

verus! {

/// Total and available memory, in kilobytes, as numbers.
pub struct MemoryAmounts {
    pub total: nat,
    pub available: nat,
}

/// The unit that meminfo writes behind its amounts.
pub open spec fn unit() -> Seq<char> {
    seq!['k', 'B']
}

/// The amount that a value of meminfo states, in kilobytes: a number that
/// fits in a `u32`, after which the unit `kB` may stand.
pub open spec fn kilobytes_of(value: Seq<char>) -> Result<u64, ParseError> {
    if has_suffix(value, unit()) {
        unsigned_of(trim_end(value.take(value.len() - 2)), u32::MAX as u64)
    } else {
        unsigned_of(value, u32::MAX as u64)
    }
}

/// The amount that `text` states under `label`; `FieldNotFound` if no line
/// carries the label.
pub open spec fn amount_of(text: Seq<char>, label: Seq<char>) -> Result<u64, ParseError> {
    match lookup(text, label, ':') {
        None => Err(ParseError::FieldNotFound),
        Some(value) => kilobytes_of(value),
    }
}

/// What meminfo text says of the memory: the amounts under `MemTotal` and
/// `MemAvailable`. The amount under `MemFree` must be there and be a number
/// too, though nothing is made of it. The failure of the first of the three
/// that fails, in this order, is the failure of the whole; an available
/// amount above the total is `OutOfRange`.
pub open spec fn memory_of(text: Seq<char>) -> Result<MemoryAmounts, ParseError> {
    match amount_of(text, "MemTotal"@) {
        Err(e) => Err(e),
        Ok(total) => match amount_of(text, "MemFree"@) {
            Err(e) => Err(e),
            Ok(_) => match amount_of(text, "MemAvailable"@) {
                Err(e) => Err(e),
                Ok(available) => if available > total {
                    Err(ParseError::OutOfRange)
                } else {
                    Ok(MemoryAmounts { total: total as nat, available: available as nat })
                },
            },
        },
    }
}

/// Total and available memory in kilobytes. The available amount is never
/// above the total.
#[derive(Clone, Copy, Debug)]
pub struct MemInfo {
    total: u32,
    available: u32,
}

impl View for MemInfo {
    type V = MemoryAmounts;

    closed spec fn view(&self) -> MemoryAmounts {
        MemoryAmounts { total: self.total as nat, available: self.available as nat }
    }
}

impl MemInfo {
    #[verifier::type_invariant]
    spec fn available_within_total(self) -> bool {
        self.available <= self.total
    }

    /// The two amounts together, unless more is available than there is.
    pub fn new(total: u32, available: u32) -> (r: Option<MemInfo>)
        ensures
            match r {
                Some(m) => available <= total && m@ == (MemoryAmounts {
                    total: total as nat,
                    available: available as nat,
                }),
                None => available > total,
            },
    {
        if available > total {
            None
        } else {
            Some(MemInfo { total, available })
        }
    }

    /// The memory in use, in MiB, rounded down.
    pub fn used_mib(&self) -> (mib: u32)
        ensures
            self@.available <= self@.total,
            mib == (self@.total - self@.available) / 1024,
    {
        proof {
            use_type_invariant(self);
        }
        (self.total - self.available) / 1024
    }

    /// All the memory, in MiB, rounded down.
    pub fn total_mib(&self) -> (mib: u32)
        ensures
            mib == self@.total / 1024,
    {
        self.total / 1024
    }
}

impl Default for MemInfo {
    /// No memory at all.
    fn default() -> (m: MemInfo)
        ensures
            m@ == (MemoryAmounts { total: 0, available: 0 }),
    {
        MemInfo { total: 0, available: 0 }
    }
}

/// Reads the amount that stands in the piece `r` of `v`.
fn parse_kilobytes(v: &Vec<char>, r: (usize, usize)) -> (res: Result<u64, ParseError>)
    requires
        is_range(r, v@.len()),
    ensures
        res == kilobytes_of(piece(v@, r)),
{
    let ghost value = piece(v@, r);
    if r.1 - r.0 >= 2 && v[r.1 - 2] == 'k' && v[r.1 - 1] == 'B' {
        assert(value.skip(value.len() - 2) =~= unit());
        assert(value.take(value.len() - 2) =~= v@.subrange(r.0 as int, r.1 - 2));
        let end = drop_spaces(v, r.0, r.1 - 2);
        parse_unsigned(v, (r.0, end), u32::MAX as u64)
    } else {
        proof {
            if has_suffix(value, unit()) {
                assert(value.skip(value.len() - 2)[0] == 'k');
                assert(value.skip(value.len() - 2)[1] == 'B');
            }
        }
        parse_unsigned(v, r, u32::MAX as u64)
    }
}

/// Reads the amount that `v` states under `label`, given the ranges of its
/// lines.
fn parse_amount(v: &Vec<char>, ls: &Vec<(usize, usize)>, label: &str) -> (res: Result<u64, ParseError>)
    requires
        are_ranges(ls@, v@.len()),
        pieces(v@, ls@) == lines(v@),
    ensures
        res == amount_of(v@, label@),
{
    let key = to_chars(label);
    match find_value(v, ls, &key, ':') {
        None => Err(ParseError::FieldNotFound),
        Some(r) => parse_kilobytes(v, r),
    }
}

/// Reads total and available memory from meminfo text.
pub fn parse_memory_info(text: &str) -> (r: Result<MemInfo, ParseError>)
    ensures
        match r {
            Ok(m) => memory_of(text@) == Ok::<MemoryAmounts, ParseError>(m@),
            Err(e) => memory_of(text@) == Err::<MemoryAmounts, ParseError>(e),
        },
{
    let v = to_chars(text);
    let ls = line_ranges(&v);
    let total = match parse_amount(&v, &ls, "MemTotal") {
        Ok(n) => n,
        Err(e) => {
            return Err(e);
        },
    };
    match parse_amount(&v, &ls, "MemFree") {
        Ok(_) => {},
        Err(e) => {
            return Err(e);
        },
    }
    let available = match parse_amount(&v, &ls, "MemAvailable") {
        Ok(n) => n,
        Err(e) => {
            return Err(e);
        },
    };
    match MemInfo::new(total as u32, available as u32) {
        Some(m) => Ok(m),
        None => Err(ParseError::OutOfRange),
    }
}

/// What a poll has of the memory from the output of the command that reads
/// the kernel's meminfo file.
pub open spec fn memory_reading(stdout: Option<Vec<u8>>) -> Result<MemoryAmounts, CollectError> {
    collect(stdout, |text: Seq<char>| memory_of(text))
}

/// Reads total and available memory from what the command wrote.
pub fn get_memory_info(stdout: &Option<Vec<u8>>) -> (r: Result<MemInfo, CollectError>)
    ensures
        match r {
            Ok(m) => memory_reading(*stdout) == Ok::<MemoryAmounts, CollectError>(m@),
            Err(e) => memory_reading(*stdout) == Err::<MemoryAmounts, CollectError>(e),
        },
{
    match get_command_output(stdout) {
        None => Err(CollectError::SourceUnavailable),
        Some(text) => match parse_memory_info(text.as_str()) {
            Ok(m) => Ok(m),
            Err(e) => Err(CollectError::ParseFailure(e)),
        },
    }
}

} // verus!
