//! Cumulative CPU time counters and the usage derived from two samples.

use crate::error::{CollectError, ParseError};
use crate::number::{numbers_of, parse_each, Notation};
use crate::text::{
    are_ranges, is_range, line_ranges, lines, piece, piece_is, pieces, to_chars, token_ranges, tokens,
};
use crate::source::{collect, get_command_output};
use vstd::prelude::*;

verus! {

/// One reading of the kernel's cumulative CPU accounting, as numbers.
pub struct CounterSample {
    pub user: nat,
    pub nice: nat,
    pub system: nat,
    pub idle: nat,
    pub iowait: nat,
    pub irq: nat,
    pub softirq: nat,
    pub steal: nat,
    pub guest: nat,
    pub guest_nice: nat,
}

impl CounterSample {
    /// The reading in which every counter is zero.
    pub open spec fn zero() -> CounterSample {
        CounterSample {
            user: 0,
            nice: 0,
            system: 0,
            idle: 0,
            iowait: 0,
            irq: 0,
            softirq: 0,
            steal: 0,
            guest: 0,
            guest_nice: 0,
        }
    }

    /// The time spent working.
    pub open spec fn work_time(self) -> nat {
        self.user + self.nice + self.system + self.irq + self.softirq + self.steal
    }

    /// All the time accounted for: working, idle and waiting for I/O.
    pub open spec fn total_time(self) -> nat {
        self.work_time() + self.idle + self.iowait
    }

    /// Whether no counter of `later` is below the same counter of `self`.
    pub open spec fn at_most(self, later: CounterSample) -> bool {
        &&& self.user <= later.user
        &&& self.nice <= later.nice
        &&& self.system <= later.system
        &&& self.idle <= later.idle
        &&& self.iowait <= later.iowait
        &&& self.irq <= later.irq
        &&& self.softirq <= later.softirq
        &&& self.steal <= later.steal
        &&& self.guest <= later.guest
        &&& self.guest_nice <= later.guest_nice
    }
}

/// How far `later` is above `earlier`; zero if it is not above it.
pub open spec fn growth(earlier: nat, later: nat) -> nat {
    if later > earlier {
        (later - earlier) as nat
    } else {
        0
    }
}

/// The share of the time between two readings that was spent working, in
/// whole percent, rounded down and never above 100. Where the total time or
/// the working time has not grown, the usage is 0. A previous reading with no
/// time on it is the state before any reading: with nothing to compare the
/// current reading with, the usage is 0 too.
pub open spec fn usage_percent(previous: CounterSample, current: CounterSample) -> nat {
    let total = growth(previous.total_time(), current.total_time());
    let work = growth(previous.work_time(), current.work_time());
    if previous.total_time() == 0 || total == 0 || work == 0 {
        0
    } else if work >= total {
        100
    } else {
        work * 100 / total
    }
}

/// The usage derived from any two readings lies between 0 and 100, whether or
/// not the counters have grown from the first to the second.
pub proof fn lemma_usage_in_range(previous: CounterSample, current: CounterSample)
    ensures
        0 <= usage_percent(previous, current) <= 100,
{
    let total = growth(previous.total_time(), current.total_time());
    let work = growth(previous.work_time(), current.work_time());
    if 0 < work < total {
        assert(work * 100 / total <= 100) by (nonlinear_arith)
            requires
                0 < work < total,
        ;
    }
}

/// Two readings that are the same give a usage of 0.
pub proof fn lemma_usage_unchanged(sample: CounterSample)
    ensures
        usage_percent(sample, sample) == 0,
{
}

/// One reading of the cumulative CPU time counters. Its total time fits in
/// a `u64`.
#[derive(Clone, Copy, Debug)]
pub struct CPUTime {
    user: u64,
    nice: u64,
    system: u64,
    idle: u64,
    iowait: u64,
    irq: u64,
    softirq: u64,
    steal: u64,
    guest: u64,
    guest_nice: u64,
}

impl View for CPUTime {
    type V = CounterSample;

    closed spec fn view(&self) -> CounterSample {
        CounterSample {
            user: self.user as nat,
            nice: self.nice as nat,
            system: self.system as nat,
            idle: self.idle as nat,
            iowait: self.iowait as nat,
            irq: self.irq as nat,
            softirq: self.softirq as nat,
            steal: self.steal as nat,
            guest: self.guest as nat,
            guest_nice: self.guest_nice as nat,
        }
    }
}

impl CPUTime {
    #[verifier::type_invariant]
    spec fn total_fits(self) -> bool {
        self@.total_time() <= u64::MAX
    }

    /// A reading with the given counters, unless their total time is beyond
    /// a `u64`.
    pub fn new(
        user: u64,
        nice: u64,
        system: u64,
        idle: u64,
        iowait: u64,
        irq: u64,
        softirq: u64,
        steal: u64,
        guest: u64,
        guest_nice: u64,
    ) -> (r: Option<CPUTime>)
        ensures
            match r {
                Some(t) => t@ == (CounterSample {
                    user: user as nat,
                    nice: nice as nat,
                    system: system as nat,
                    idle: idle as nat,
                    iowait: iowait as nat,
                    irq: irq as nat,
                    softirq: softirq as nat,
                    steal: steal as nat,
                    guest: guest as nat,
                    guest_nice: guest_nice as nat,
                }) && t@.total_time() <= u64::MAX,
                None => user + nice + system + irq + softirq + steal + idle + iowait > u64::MAX,
            },
    {
        let total: u128 = user as u128 + nice as u128 + system as u128 + irq as u128
            + softirq as u128 + steal as u128 + idle as u128 + iowait as u128;
        if total > u64::MAX as u128 {
            None
        } else {
            Some(CPUTime { user, nice, system, idle, iowait, irq, softirq, steal, guest, guest_nice })
        }
    }

    /// The time spent working.
    pub fn work_time(&self) -> (t: u64)
        ensures
            t == self@.work_time(),
    {
        proof {
            use_type_invariant(self);
        }
        self.user + self.nice + self.system + self.irq + self.softirq + self.steal
    }

    /// All the time accounted for.
    pub fn total_time(&self) -> (t: u64)
        ensures
            t == self@.total_time(),
    {
        proof {
            use_type_invariant(self);
        }
        self.work_time() + self.idle + self.iowait
    }
}

impl Default for CPUTime {
    /// The reading in which every counter is zero.
    fn default() -> (t: CPUTime)
        ensures
            t@ == CounterSample::zero(),
    {
        CPUTime {
            user: 0,
            nice: 0,
            system: 0,
            idle: 0,
            iowait: 0,
            irq: 0,
            softirq: 0,
            steal: 0,
            guest: 0,
            guest_nice: 0,
        }
    }
}

/// The last two readings of the CPU time counters. Before the first reading
/// both are zero.
#[derive(Clone, Copy, Debug)]
pub struct CPUUsageInfo {
    previous: CPUTime,
    current: CPUTime,
}

impl CPUUsageInfo {
    /// The reading before the latest one.
    pub closed spec fn previous(self) -> CounterSample {
        self.previous@
    }

    /// The latest reading.
    pub closed spec fn current(self) -> CounterSample {
        self.current@
    }

    /// The usage between the last two readings, in percent.
    pub fn get_cpu_usage(&self) -> (usage: u64)
        ensures
            usage == usage_percent(self.previous(), self.current()),
            usage <= 100,
            self.previous() == self.current() ==> usage == 0,
    {
        let total_now = self.current.total_time();
        let total_then = self.previous.total_time();
        let work_now = self.current.work_time();
        let work_then = self.previous.work_time();
        if total_then == 0 || total_now <= total_then || work_now <= work_then {
            return 0;
        }
        let total = total_now - total_then;
        let work = work_now - work_then;
        if work >= total {
            return 100;
        }
        proof {
            lemma_usage_in_range(self.previous(), self.current());
        }
        let scaled: u128 = work as u128 * 100;
        (scaled / total as u128) as u64
    }

    /// Takes in a reading: the latest one becomes the previous one.
    pub fn update(&mut self, cpu_time: CPUTime)
        ensures
            final(self).previous() == old(self).current(),
            final(self).current() == cpu_time@,
    {
        self.previous = self.current;
        self.current = cpu_time;
    }
}

impl Default for CPUUsageInfo {
    /// The state before any reading.
    fn default() -> (info: CPUUsageInfo)
        ensures
            info.previous() == CounterSample::zero(),
            info.current() == CounterSample::zero(),
    {
        CPUUsageInfo { previous: CPUTime::default(), current: CPUTime::default() }
    }
}

/// Whether `line` is the accounting line of all cores together: its first
/// token is `cpu`, with no number of a core behind it.
pub open spec fn is_aggregate(line: Seq<char>) -> bool {
    tokens(line).len() > 0 && tokens(line)[0] == "cpu"@
}

/// The first of `ls` that is an aggregate accounting line.
pub open spec fn aggregate_line(ls: Seq<Seq<char>>) -> Option<Seq<char>>
    decreases ls.len(),
{
    if ls.len() == 0 {
        None
    } else if is_aggregate(ls[0]) {
        Some(ls[0])
    } else {
        aggregate_line(ls.drop_first())
    }
}

/// The reading whose counters are the first ten of `n`, in the kernel's order.
pub open spec fn sample_of(n: Seq<u64>) -> CounterSample {
    CounterSample {
        user: n[0] as nat,
        nice: n[1] as nat,
        system: n[2] as nat,
        idle: n[3] as nat,
        iowait: n[4] as nat,
        irq: n[5] as nat,
        softirq: n[6] as nat,
        steal: n[7] as nat,
        guest: n[8] as nat,
        guest_nice: n[9] as nat,
    }
}

/// The reading that an aggregate accounting line holds: the ten tokens after
/// `cpu`, each a number that fits in a `u64`. Fewer than ten is `FieldCount`;
/// tokens beyond the tenth are not looked at; a total time beyond a `u64` is
/// `OutOfRange`.
pub open spec fn counters_of_line(line: Seq<char>) -> Result<CounterSample, ParseError> {
    let fields = tokens(line).skip(1);
    if fields.len() < 10 {
        Err(ParseError::FieldCount)
    } else {
        match numbers_of(fields.take(10), Notation::Whole, u64::MAX) {
            Err(e) => Err(e),
            Ok(n) => if sample_of(n).total_time() > u64::MAX {
                Err(ParseError::OutOfRange)
            } else {
                Ok(sample_of(n))
            },
        }
    }
}

/// The reading that kernel stat text holds: that of its first aggregate
/// accounting line, `FieldNotFound` if it has none.
pub open spec fn counters_of(text: Seq<char>) -> Result<CounterSample, ParseError> {
    match aggregate_line(lines(text)) {
        None => Err(ParseError::FieldNotFound),
        Some(line) => counters_of_line(line),
    }
}

/// Reads the aggregate accounting line `v[lo..hi]`, given the ranges of its
/// tokens.
fn parse_counters(v: &Vec<char>, toks: &Vec<(usize, usize)>, Ghost(line): Ghost<Seq<char>>) -> (r:
    Result<CPUTime, ParseError>)
    requires
        are_ranges(toks@, v@.len()),
        pieces(v@, toks@) == tokens(line),
        toks.len() > 0,
    ensures
        match r {
            Ok(t) => counters_of_line(line) == Ok::<CounterSample, ParseError>(t@),
            Err(e) => counters_of_line(line) == Err::<CounterSample, ParseError>(e),
        },
{
    if toks.len() < 11 {
        return Err(ParseError::FieldCount);
    }
    assert(tokens(line).skip(1).take(10) =~= pieces(v@, toks@).subrange(1, 11));
    let n = match parse_each(v, toks, 1, 11, Notation::Whole, u64::MAX) {
        Ok(n) => n,
        Err(e) => {
            return Err(e);
        },
    };
    match CPUTime::new(n[0], n[1], n[2], n[3], n[4], n[5], n[6], n[7], n[8], n[9]) {
        Some(t) => Ok(t),
        None => Err(ParseError::OutOfRange),
    }
}

/// Reads the cumulative CPU time counters from kernel stat text.
pub fn parse_cpu_time(text: &str) -> (r: Result<CPUTime, ParseError>)
    ensures
        match r {
            Ok(t) => counters_of(text@) == Ok::<CounterSample, ParseError>(t@),
            Err(e) => counters_of(text@) == Err::<CounterSample, ParseError>(e),
        },
{
    let v = to_chars(text);
    let label = to_chars("cpu");
    let ls = line_ranges(&v);
    let ghost all = lines(v@);
    let mut i: usize = 0;
    assert(all.skip(0) =~= all);
    while i < ls.len()
        invariant
            i <= ls.len(),
            are_ranges(ls@, v@.len()),
            all == pieces(v@, ls@),
            all == lines(text@),
            label@ == "cpu"@,
            aggregate_line(all) == aggregate_line(all.skip(i as int)),
        decreases ls.len() - i,
    {
        let (lo, hi) = ls[i];
        assert(is_range(ls@[i as int], v@.len()));
        assert(all.skip(i as int)[0] == v@.subrange(lo as int, hi as int));
        assert(all.skip(i as int).drop_first() =~= all.skip(i + 1));
        let toks = token_ranges(&v, lo, hi);
        if toks.len() > 0 {
            assert(is_range(toks@[0], v@.len()));
            assert(pieces(v@, toks@)[0] == piece(v@, toks@[0]));
            if piece_is(&v, toks[0], &label) {
                return parse_counters(&v, &toks, Ghost(v@.subrange(lo as int, hi as int)));
            }
        }
        i += 1;
    }
    Err(ParseError::FieldNotFound)
}

/// What a poll has of the CPU time counters from the output of the command
/// that reads the kernel's stat file.
pub open spec fn cpu_time_reading(stdout: Option<Vec<u8>>) -> Result<CounterSample, CollectError> {
    collect(stdout, |text: Seq<char>| counters_of(text))
}

/// Reads the CPU time counters from what the command wrote.
pub fn get_cpu_time(stdout: &Option<Vec<u8>>) -> (r: Result<CPUTime, CollectError>)
    ensures
        match r {
            Ok(t) => cpu_time_reading(*stdout) == Ok::<CounterSample, CollectError>(t@),
            Err(e) => cpu_time_reading(*stdout) == Err::<CounterSample, CollectError>(e),
        },
{
    match get_command_output(stdout) {
        None => Err(CollectError::SourceUnavailable),
        Some(text) => match parse_cpu_time(text.as_str()) {
            Ok(t) => Ok(t),
            Err(e) => Err(CollectError::ParseFailure(e)),
        },
    }
}

} // verus!
