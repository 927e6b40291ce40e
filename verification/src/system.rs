//! The snapshot that a display reads, and how a poll renews it.

use crate::counters::{
    cpu_time_reading, get_cpu_time, usage_percent, CPUUsageInfo, CounterSample,
};
use crate::cpu::{
    cpu_freq_reading, cpu_name_reading, cpu_temp_reading, get_cpu_freq, get_cpu_name, get_cpu_temp,
};
use crate::error::CollectError;
use crate::gpu::{get_gpu_info, gpu_reading, GPUInfo, GpuReading};
use crate::memory::{get_memory_info, memory_reading, MemInfo, MemoryAmounts};
use crate::number::{is_sorting_of, mean, mean_of};
use crate::os_release::{get_os, os_reading};
use crate::source::{get_command_output, output_text};
use vstd::prelude::*;

verus! {

/// What the commands of the start wrote, each `None` if it could not be run.
pub struct StartReadings {
    /// The GPU query tool.
    pub gpu: Option<Vec<u8>>,
    /// The command that describes the processor.
    pub cpu: Option<Vec<u8>>,
    /// The command that names the user.
    pub user: Option<Vec<u8>>,
    /// The command that names the host.
    pub host: Option<Vec<u8>>,
    /// The command that reads the release file of the operating system.
    pub os: Option<Vec<u8>>,
}

/// What the commands of one poll wrote, each `None` if it could not be run.
pub struct PollReadings {
    /// The command that tells date and time.
    pub datetime: Option<Vec<u8>>,
    /// The GPU query tool.
    pub gpu: Option<Vec<u8>>,
    /// The command that reads the thermal zone.
    pub cpu_temp: Option<Vec<u8>>,
    /// The command that reads the kernel's stat file.
    pub cpu_time: Option<Vec<u8>>,
    /// The command that reads the kernel's meminfo file.
    pub memory: Option<Vec<u8>>,
    /// The command that reads the kernel's cpuinfo file.
    pub cpu_freq: Option<Vec<u8>>,
}

/// The value that a field has after a collector has run: the new one if there
/// is one, else the one it had.
pub open spec fn renewed<T>(reading: Result<T, CollectError>, kept: T) -> T {
    match reading {
        Ok(value) => value,
        Err(_) => kept,
    }
}

/// The text that a field has after a command has run: what the command
/// wrote if it could be run, else the text it had.
pub open spec fn renewed_text(output: Option<Seq<char>>, kept: Seq<char>) -> Seq<char> {
    match output {
        Some(text) => text,
        None => kept,
    }
}

/// The text of what the command that tells date and time wrote.
pub fn get_datetime(stdout: &Option<Vec<u8>>) -> (text: Option<String>)
    ensures
        match text {
            Some(t) => output_text(*stdout) == Some(t@),
            None => output_text(*stdout) is None,
        },
{
    get_command_output(stdout)
}

/// The text of what the command that names the user wrote.
pub fn get_user(stdout: &Option<Vec<u8>>) -> (text: Option<String>)
    ensures
        match text {
            Some(t) => output_text(*stdout) == Some(t@),
            None => output_text(*stdout) is None,
        },
{
    get_command_output(stdout)
}

/// The text of what the command that names the host wrote.
pub fn get_host(stdout: &Option<Vec<u8>>) -> (text: Option<String>)
    ensures
        match text {
            Some(t) => output_text(*stdout) == Some(t@),
            None => output_text(*stdout) is None,
        },
{
    get_command_output(stdout)
}

/// All that a display shows, as of the latest poll. Frequencies are in kHz.
pub struct SystemInfo {
    pub user: String,
    pub host: String,
    pub os: String,
    pub datetime: String,
    pub cpu_usage: u64,
    pub cpu_temp: u8,
    pub cpu_name: String,
    pub gpu_info: GPUInfo,
    pub cpu_usage_info: CPUUsageInfo,
    pub memory_info: MemInfo,
    pub cpu_freq: u64,
    pub cpu_freqs: Vec<u64>,
}

impl SystemInfo {
    /// Whether nothing has been collected yet: texts are empty, numbers zero.
    pub open spec fn is_blank(self) -> bool {
        &&& self.user@ == Seq::<char>::empty()
        &&& self.host@ == Seq::<char>::empty()
        &&& self.os@ == Seq::<char>::empty()
        &&& self.datetime@ == Seq::<char>::empty()
        &&& self.cpu_usage == 0
        &&& self.cpu_temp == 0
        &&& self.cpu_name@ == Seq::<char>::empty()
        &&& self.gpu_info@ == GpuReading::none()
        &&& self.cpu_usage_info.previous() == CounterSample::zero()
        &&& self.cpu_usage_info.current() == CounterSample::zero()
        &&& self.memory_info@ == (MemoryAmounts { total: 0, available: 0 })
        &&& self.cpu_freq == 0
        &&& self.cpu_freqs@ == Seq::<u64>::empty()
    }

    /// The snapshot at the start: what does not change while the process
    /// runs is collected once, here. Every collector counts for itself: where
    /// one has nothing, its field stays blank and the others go on.
    pub fn new(start: &StartReadings) -> (info: SystemInfo)
        ensures
            info.gpu_info@ == renewed(gpu_reading(start.gpu), GpuReading::none()),
            info.cpu_name@ == renewed(cpu_name_reading(start.cpu), Seq::<char>::empty()),
            info.user@ == renewed_text(output_text(start.user), Seq::<char>::empty()),
            info.host@ == renewed_text(output_text(start.host), Seq::<char>::empty()),
            info.os@ == renewed(os_reading(start.os), Seq::<char>::empty()),
            info.datetime@ == Seq::<char>::empty(),
            info.cpu_usage == 0,
            info.cpu_temp == 0,
            info.cpu_usage_info.previous() == CounterSample::zero(),
            info.cpu_usage_info.current() == CounterSample::zero(),
            info.memory_info@ == (MemoryAmounts { total: 0, available: 0 }),
            info.cpu_freq == 0,
            info.cpu_freqs@ == Seq::<u64>::empty(),
    {
        let mut info = SystemInfo::default();
        if let Ok(gpu_info) = get_gpu_info(&start.gpu) {
            info.gpu_info = gpu_info;
        }
        if let Ok(cpu_name) = get_cpu_name(&start.cpu) {
            info.cpu_name = cpu_name;
        }
        if let Some(user) = get_user(&start.user) {
            info.user = user;
        }
        if let Some(host) = get_host(&start.host) {
            info.host = host;
        }
        if let Ok(os) = get_os(&start.os) {
            info.os = os;
        }
        info
    }

    /// Renews the snapshot from one poll. Every collector counts for itself:
    /// where one has no new value, for want of its source or because the
    /// text could not be read, its fields keep the values they had, and the
    /// others go on. What was collected at the start is left alone.
    pub fn update(&mut self, poll: &PollReadings)
        ensures
            final(self).user@ == old(self).user@,
            final(self).host@ == old(self).host@,
            final(self).os@ == old(self).os@,
            final(self).cpu_name@ == old(self).cpu_name@,
            final(self).datetime@ == renewed_text(output_text(poll.datetime), old(self).datetime@),
            final(self).gpu_info@ == renewed(gpu_reading(poll.gpu), old(self).gpu_info@),
            final(self).cpu_temp == renewed(cpu_temp_reading(poll.cpu_temp), old(self).cpu_temp),
            cpu_temp_reading(poll.cpu_temp) is Err ==> final(self).cpu_temp == old(self).cpu_temp,
            match cpu_time_reading(poll.cpu_time) {
                Ok(sample) => {
                    &&& final(self).cpu_usage_info.previous() == old(self).cpu_usage_info.current()
                    &&& final(self).cpu_usage_info.current() == sample
                    &&& final(self).cpu_usage == usage_percent(
                        old(self).cpu_usage_info.current(),
                        sample,
                    )
                },
                Err(_) => {
                    &&& final(self).cpu_usage_info.previous() == old(self).cpu_usage_info.previous()
                    &&& final(self).cpu_usage_info.current() == old(self).cpu_usage_info.current()
                    &&& final(self).cpu_usage == old(self).cpu_usage
                },
            },
            final(self).memory_info@ == renewed(memory_reading(poll.memory), old(self).memory_info@),
            match cpu_freq_reading(poll.cpu_freq) {
                Ok(listed) => {
                    &&& is_sorting_of(final(self).cpu_freqs@, listed)
                    &&& final(self).cpu_freq == mean(final(self).cpu_freqs@)
                },
                Err(_) => {
                    &&& final(self).cpu_freqs@ == old(self).cpu_freqs@
                    &&& final(self).cpu_freq == old(self).cpu_freq
                },
            },
    {
        if let Some(datetime) = get_datetime(&poll.datetime) {
            self.datetime = datetime;
        }
        if let Ok(gpu_info) = get_gpu_info(&poll.gpu) {
            self.gpu_info = gpu_info;
        }
        if let Ok(cpu_temp) = get_cpu_temp(&poll.cpu_temp) {
            self.cpu_temp = cpu_temp;
        }
        if let Ok(cpu_time) = get_cpu_time(&poll.cpu_time) {
            self.cpu_usage_info.update(cpu_time);
            self.cpu_usage = self.cpu_usage_info.get_cpu_usage();
        }
        if let Ok(memory_info) = get_memory_info(&poll.memory) {
            self.memory_info = memory_info;
        }
        if let Ok(cpu_freqs) = get_cpu_freq(&poll.cpu_freq) {
            self.cpu_freq = mean_of(&cpu_freqs);
            self.cpu_freqs = cpu_freqs;
        }
    }
}

impl Default for SystemInfo {
    /// The snapshot in which nothing has been collected yet.
    fn default() -> (info: SystemInfo)
        ensures
            info.is_blank(),
    {
        SystemInfo {
            user: String::new(),
            host: String::new(),
            os: String::new(),
            datetime: String::new(),
            cpu_usage: 0,
            cpu_temp: 0,
            cpu_name: String::new(),
            gpu_info: GPUInfo::default(),
            cpu_usage_info: CPUUsageInfo::default(),
            memory_info: MemInfo::default(),
            cpu_freq: 0,
            cpu_freqs: Vec::new(),
        }
    }
}

} // verus!
