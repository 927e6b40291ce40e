//! What the GPU query tool reports of the first GPU.

use crate::error::{collected, CollectError, ParseError};
use crate::number::{parse_number, worth, Notation};
use crate::text::{cut, to_chars, trim, trim_range};
use crate::source::{get_command_output, output_text};
use vstd::prelude::*;

verus! {

/// One report of a GPU, as plain values.
pub struct GpuReading {
    pub name: Seq<char>,
    pub temperature: u8,
    pub utilization: u8,
    pub total_memory: u32,
    pub used_memory: u32,
    pub power_draw: u32,
    pub power_limit: u32,
}

impl GpuReading {
    /// The report that stands for "no GPU": an empty name and zeros.
    pub open spec fn none() -> GpuReading {
        GpuReading {
            name: Seq::empty(),
            temperature: 0,
            utilization: 0,
            total_memory: 0,
            used_memory: 0,
            power_draw: 0,
            power_limit: 0,
        }
    }
}

/// One report of a GPU: its name, its temperature in degrees Celsius, its
/// utilization in percent, its memory in MiB and its power in milliwatts.
#[derive(Debug, PartialEq, Eq)]
pub struct GPUInfo {
    pub name: String,
    pub temperature: u8,
    pub utilization: u8,
    pub total_memory: u32,
    pub used_memory: u32,
    pub power_draw: u32,
    pub power_limit: u32,
}

impl View for GPUInfo {
    type V = GpuReading;

    open spec fn view(&self) -> GpuReading {
        GpuReading {
            name: self.name@,
            temperature: self.temperature,
            utilization: self.utilization,
            total_memory: self.total_memory,
            used_memory: self.used_memory,
            power_draw: self.power_draw,
            power_limit: self.power_limit,
        }
    }
}

impl Default for GPUInfo {
    /// The report that stands for "no GPU".
    fn default() -> (info: GPUInfo)
        ensures
            info@ == GpuReading::none(),
    {
        GPUInfo {
            name: String::new(),
            temperature: 0,
            utilization: 0,
            total_memory: 0,
            used_memory: 0,
            power_draw: 0,
            power_limit: 0,
        }
    }
}

/// The report that the fields of one record hold. The record has seven
/// fields or more, of which the first seven are read, each trimmed: the name,
/// the temperature (a number up to 255), the utilization (a number up to
/// 100), the total and the used memory (numbers that fit in a `u32`), the
/// power drawn and the power limit (decimals of Watts, which in milliwatts
/// fit in a `u32`). Fewer fields are `FieldCount`; otherwise the first field
/// that cannot be read decides the failure.
pub open spec fn gpu_of_fields(fields: Seq<Seq<char>>) -> Result<GpuReading, ParseError> {
    if fields.len() < 7 {
        Err(ParseError::FieldCount)
    } else {
        match worth(trim(fields[1]), Notation::Whole, 255) {
            Err(e) => Err(e),
            Ok(temperature) => match worth(trim(fields[2]), Notation::Whole, 100) {
                Err(e) => Err(e),
                Ok(utilization) => match worth(trim(fields[3]), Notation::Whole, u32::MAX as u64) {
                    Err(e) => Err(e),
                    Ok(total_memory) => match worth(
                        trim(fields[4]),
                        Notation::Whole,
                        u32::MAX as u64,
                    ) {
                        Err(e) => Err(e),
                        Ok(used_memory) => match worth(
                            trim(fields[5]),
                            Notation::Thousandths,
                            u32::MAX as u64,
                        ) {
                            Err(e) => Err(e),
                            Ok(power_draw) => match worth(
                                trim(fields[6]),
                                Notation::Thousandths,
                                u32::MAX as u64,
                            ) {
                                Err(e) => Err(e),
                                Ok(power_limit) => Ok(
                                    GpuReading {
                                        name: trim(fields[0]),
                                        temperature: temperature as u8,
                                        utilization: utilization as u8,
                                        total_memory: total_memory as u32,
                                        used_memory: used_memory as u32,
                                        power_draw: power_draw as u32,
                                        power_limit: power_limit as u32,
                                    },
                                ),
                            },
                        },
                    },
                },
            },
        }
    }
}

/// The texts of `fields`, in order.
pub open spec fn texts(fields: Seq<String>) -> Seq<Seq<char>> {
    Seq::new(fields.len(), |i: int| fields[i]@)
}

/// Reads `field`, trimmed, as a number in `notation`, no greater than `max`.
fn field_number(field: &str, notation: Notation, max: u64) -> (res: Result<u64, ParseError>)
    ensures
        res == worth(trim(field@), notation, max),
{
    let v = to_chars(field);
    assert(v@.subrange(0, v@.len() as int) =~= v@);
    let r = trim_range(&v, 0, v.len());
    parse_number(&v, r, notation, max)
}

/// `field` without whitespace at either end.
fn field_text(field: &str) -> (s: String)
    ensures
        s@ == trim(field@),
{
    let v = to_chars(field);
    assert(v@.subrange(0, v@.len() as int) =~= v@);
    let r = trim_range(&v, 0, v.len());
    cut(field, r)
}

/// Reads the report that the fields of one record hold.
pub fn gpu_from_fields(fields: &Vec<String>) -> (r: Result<GPUInfo, ParseError>)
    ensures
        match r {
            Ok(info) => gpu_of_fields(texts(fields@)) == Ok::<GpuReading, ParseError>(info@),
            Err(e) => gpu_of_fields(texts(fields@)) == Err::<GpuReading, ParseError>(e),
        },
{
    if fields.len() < 7 {
        return Err(ParseError::FieldCount);
    }
    let temperature = match field_number(fields[1].as_str(), Notation::Whole, 255) {
        Ok(n) => n as u8,
        Err(e) => {
            return Err(e);
        },
    };
    let utilization = match field_number(fields[2].as_str(), Notation::Whole, 100) {
        Ok(n) => n as u8,
        Err(e) => {
            return Err(e);
        },
    };
    let total_memory = match field_number(fields[3].as_str(), Notation::Whole, u32::MAX as u64) {
        Ok(n) => n as u32,
        Err(e) => {
            return Err(e);
        },
    };
    let used_memory = match field_number(fields[4].as_str(), Notation::Whole, u32::MAX as u64) {
        Ok(n) => n as u32,
        Err(e) => {
            return Err(e);
        },
    };
    let power_draw = match field_number(fields[5].as_str(), Notation::Thousandths, u32::MAX as u64) {
        Ok(n) => n as u32,
        Err(e) => {
            return Err(e);
        },
    };
    let power_limit = match field_number(fields[6].as_str(), Notation::Thousandths, u32::MAX as u64) {
        Ok(n) => n as u32,
        Err(e) => {
            return Err(e);
        },
    };
    let name = field_text(fields[0].as_str());
    Ok(GPUInfo { name, temperature, utilization, total_memory, used_memory, power_draw, power_limit })
}

/// What the `csv` crate's reader makes of the first record of `text`, where
/// `has_headers` says whether it takes the first row for a header: `None`
/// where it finds no record, `Some(None)` where it fails on the record, else
/// the fields of the record, in order.
pub uninterp spec fn csv_first_record(text: Seq<char>, has_headers: bool) -> Option<
    Option<Seq<Seq<char>>>,
>;

/// The failure with which the `csv` crate's reader gives up on a record. Its
/// content is not looked at.
#[verifier::external_type_specification]
#[verifier::external_body]
pub struct ExCsvError(csv::Error);

/// Has the `csv` crate read the first record of `text`: a reader built by
/// `csv::ReaderBuilder` with `has_headers` set as given and all else as the
/// crate has it by default, then the first item of `csv::Reader::records`,
/// its fields copied out one by one. Nothing is claimed of how the crate
/// divides a text into records and fields, only that what it hands back
/// depends on `text` and `has_headers` alone.
#[verifier::external_body]
fn first_record(text: &str, has_headers: bool) -> (r: Option<Result<Vec<String>, csv::Error>>)
    ensures
        match r {
            None => csv_first_record(text@, has_headers) is None,
            Some(Err(_)) => csv_first_record(text@, has_headers) == Some(None::<Seq<Seq<char>>>),
            Some(Ok(fields)) => csv_first_record(text@, has_headers) == Some(Some(texts(fields@))),
        },
{
    let mut reader = csv::ReaderBuilder::new().has_headers(has_headers).from_reader(text.as_bytes());
    let first = reader.records().next();
    first.map(|read| read.map(|record| record.iter().map(String::from).collect()))
}

/// The report that the first record of the tool's output makes: "no GPU"
/// where there is no record, `Malformed` where the record could not be read,
/// else what its fields hold.
pub open spec fn gpu_of_record(record: Option<Option<Seq<Seq<char>>>>) -> Result<
    GpuReading,
    ParseError,
> {
    match record {
        None => Ok(GpuReading::none()),
        Some(None) => Err(ParseError::Malformed),
        Some(Some(fields)) => gpu_of_fields(fields),
    }
}

/// The report that the tool's output makes. The output is comma-separated,
/// without a header row and without units. Empty output is "no GPU".
pub open spec fn gpu_of(text: Seq<char>) -> Result<GpuReading, ParseError> {
    if text.len() == 0 {
        Ok(GpuReading::none())
    } else {
        gpu_of_record(csv_first_record(text, false))
    }
}

/// What has been read of a first record, as a plain value.
pub open spec fn record_read(record: Option<Result<Vec<String>, csv::Error>>) -> Option<
    Option<Seq<Seq<char>>>,
> {
    match record {
        None => None,
        Some(Err(_)) => Some(None),
        Some(Ok(fields)) => Some(Some(texts(fields@))),
    }
}

/// Reads the report that a first record makes, however reading the record
/// has ended.
pub fn gpu_from_record(record: Option<Result<Vec<String>, csv::Error>>) -> (r: Result<
    GPUInfo,
    ParseError,
>)
    ensures
        match r {
            Ok(info) => gpu_of_record(record_read(record)) == Ok::<GpuReading, ParseError>(info@),
            Err(e) => gpu_of_record(record_read(record)) == Err::<GpuReading, ParseError>(e),
        },
{
    match record {
        None => Ok(GPUInfo::default()),
        Some(Err(_)) => Err(ParseError::Malformed),
        Some(Ok(fields)) => gpu_from_fields(&fields),
    }
}

/// Reads the report of the first GPU from the output of the query tool.
pub fn parse_gpu_info(text: &str) -> (r: Result<GPUInfo, ParseError>)
    ensures
        match r {
            Ok(info) => gpu_of(text@) == Ok::<GpuReading, ParseError>(info@),
            Err(e) => gpu_of(text@) == Err::<GpuReading, ParseError>(e),
        },
        text@.len() == 0 ==> (r matches Ok(info) && info@ == GpuReading::none()),
{
    if text.is_empty() {
        return Ok(GPUInfo::default());
    }
    gpu_from_record(first_record(text, false))
}

/// What a poll has of the GPU from the output of the query tool. Where the
/// tool could not be run there is no GPU to report on, which is no failure.
pub open spec fn gpu_reading(stdout: Option<Vec<u8>>) -> Result<GpuReading, CollectError> {
    match output_text(stdout) {
        None => Ok(GpuReading::none()),
        Some(text) => collected(gpu_of(text)),
    }
}

/// Reads the report of the first GPU from what the query tool wrote.
pub fn get_gpu_info(stdout: &Option<Vec<u8>>) -> (r: Result<GPUInfo, CollectError>)
    ensures
        match r {
            Ok(info) => gpu_reading(*stdout) == Ok::<GpuReading, CollectError>(info@),
            Err(e) => gpu_reading(*stdout) == Err::<GpuReading, CollectError>(e),
        },
        *stdout is None ==> (r matches Ok(info) && info@ == GpuReading::none()),
{
    match get_command_output(stdout) {
        None => Ok(GPUInfo::default()),
        Some(text) => match parse_gpu_info(text.as_str()) {
            Ok(info) => Ok(info),
            Err(e) => Err(CollectError::ParseFailure(e)),
        },
    }
}

} // verus!
