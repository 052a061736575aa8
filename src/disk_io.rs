//! Disk throughput and iowait: rates from two samples of cumulative counters,
//! their units, and their display. Rates are kept in thousandths per second.
use vstd::prelude::*;
use vstd::string::StringExecFns;

use crate::display::{
    set_text_threshold_color, threshold_markup, unit_text, BytesUnit, I3Display, I3DisplayError,
};
use crate::proc_stat::{mean_iowait, mean_iowait_milli};
use vstd::string::StringSliceAdditionalSpecFns;
use crate::text::{div_round_even, pad_left, push_padded, push_tenths, rounded_div, tenths_text};

verus! {

/// Number of samples taken.
pub const DISK_CHECK_NUM: u64 = 2;

/// Seconds waited after each sample: the time between two consecutive samples.
pub const CHECK_INTERVAL_SEC: u64 = 1;

/// Bound on iowait percent above which it is coloured as a warning, in thousandths.
pub const IOWAIT_WARNING_MILLI: u128 = 5000;

/// Bound on iowait percent above which it is coloured as critical, in thousandths.
pub const IOWAIT_CRITICAL_MILLI: u128 = 10000;

/// Options of the disk throughput check: device, bounds in whole megabytes per second, unit.
pub struct DiskIoArgs {
    pub device: String,
    pub critical_mb: u64,
    pub warning_mb: u64,
    pub unit: Option<BytesUnit>,
}

/// Cumulative counters of one block device, as the kernel lists them.
pub struct DiskCounters {
    pub name: String,
    pub reads: u64,
    pub writes: u64,
}

/// Counters of one device at one moment, and the mean iowait over CPU lines, in thousandths.
#[derive(Clone, Copy, Debug, PartialEq, Eq, Structural)]
pub struct DiskIoSample {
    pub reads: u64,
    pub writes: u64,
    pub iowait_milli: u128,
}

/// Rates per second, in thousandths: reads and writes (in megabytes) and iowait (in percent).
#[derive(Clone, Copy, Debug, PartialEq, Eq, Structural)]
pub struct DiskIoStats {
    pub read_mb_milli: u128,
    pub write_mb_milli: u128,
    pub io_wait_milli: u128,
}

/// Rates as shown: values in tenths, each throughput with its unit.
#[derive(Clone, Copy, Debug, PartialEq, Eq, Structural)]
pub struct PrettyDiskIoStats {
    pub read_tenths: u128,
    pub write_tenths: u128,
    pub read_unit: BytesUnit,
    pub write_unit: BytesUnit,
    pub io_wait_tenths: u128,
}

/// Growth per second of a cumulative value between two samples `elapsed_secs`
/// apart; a value that went backwards (a reset counter) counts as no growth.
pub open spec fn rate_of(first: int, second: int, elapsed_secs: int) -> int {
    if second >= first {
        (second - first) / elapsed_secs
    } else {
        0
    }
}

/// Growth per second between two samples of a cumulative value.
pub fn delta_rate(first: u128, second: u128, elapsed_secs: u64) -> (r: u128)
    requires
        elapsed_secs > 0,
    ensures
        r == rate_of(first as int, second as int, elapsed_secs as int),
{
    if second >= first {
        (second - first) / elapsed_secs as u128
    } else {
        0
    }
}

/// The rates between two consecutive samples, `CHECK_INTERVAL_SEC` apart.
pub open spec fn stats_of(first: DiskIoSample, second: DiskIoSample) -> DiskIoStats {
    DiskIoStats {
        read_mb_milli: rate_of(first.reads * 1000, second.reads * 1000, CHECK_INTERVAL_SEC as int) as u128,
        write_mb_milli: rate_of(first.writes * 1000, second.writes * 1000, CHECK_INTERVAL_SEC as int) as u128,
        io_wait_milli: rate_of(first.iowait_milli as int, second.iowait_milli as int, CHECK_INTERVAL_SEC as int) as u128,
    }
}

/// Two equal samples give rates of exactly zero.
pub proof fn equal_samples_give_zero_rates(sample: DiskIoSample, elapsed_secs: int)
    requires
        elapsed_secs > 0,
    ensures
        rate_of(sample.reads as int, sample.reads as int, elapsed_secs) == 0,
        stats_of(sample, sample) == (DiskIoStats { read_mb_milli: 0, write_mb_milli: 0, io_wait_milli: 0 }),
{
}

/// The unit that a throughput (in thousandths of a megabyte) is shown in when none
/// is configured: one step up above 1024 MB, one step down below 1 MB.
pub open spec fn auto_unit(mb_milli: int) -> BytesUnit {
    if mb_milli > 1024 * 1000 {
        BytesUnit::Gb
    } else if mb_milli < 1000 {
        BytesUnit::Kb
    } else {
        BytesUnit::Mb
    }
}

/// A throughput given in thousandths of a megabyte, in tenths of `unit`.
pub open spec fn in_unit_tenths(mb_milli: nat, unit: BytesUnit) -> nat {
    match unit {
        BytesUnit::Kb => rounded_div(mb_milli * 1024, 100),
        BytesUnit::Mb => rounded_div(mb_milli, 100),
        BytesUnit::Gb => rounded_div(mb_milli, 1024 * 100),
    }
}

fn to_unit_tenths(mb_milli: u128, unit: BytesUnit) -> (r: u128)
    requires
        mb_milli <= u64::MAX as u128 * 1000,
    ensures
        r == in_unit_tenths(mb_milli as nat, unit),
{
    match unit {
        BytesUnit::Kb => div_round_even(mb_milli * 1024, 100),
        BytesUnit::Mb => div_round_even(mb_milli, 100),
        BytesUnit::Gb => div_round_even(mb_milli, 1024 * 100),
    }
}

fn choose_unit(mb_milli: u128) -> (r: BytesUnit)
    ensures
        r == auto_unit(mb_milli as int),
{
    if mb_milli > 1024 * 1000 {
        BytesUnit::Gb
    } else if mb_milli < 1000 {
        BytesUnit::Kb
    } else {
        BytesUnit::Mb
    }
}

/// One throughput as shown: right-aligned to five characters, one decimal, unit, "/s".
pub open spec fn rate_text(tenths: nat, unit: BytesUnit) -> Seq<char> {
    pad_left(tenths_text(tenths), ' ', 5) + unit_text(unit) + "/s"@
}

/// Iowait as shown: right-aligned to three characters, one decimal, "%".
pub open spec fn iowait_text(tenths: nat) -> Seq<char> {
    pad_left(tenths_text(tenths), ' ', 3) + "%"@
}

fn tenths_string(t: u128) -> (r: String)
    ensures
        r@ == tenths_text(t as nat),
{
    let mut s = String::new();
    push_tenths(&mut s, t);
    s
}

fn rate_string(tenths: u128, unit: BytesUnit) -> (r: String)
    ensures
        r@ == rate_text(tenths as nat, unit),
{
    let t = tenths_string(tenths);
    let mut s = String::new();
    proof {
        reveal_strlit(" ");
    }
    push_padded(&mut s, t.as_str(), " ", 5);
    let u = unit.to_string();
    s.append(u.as_str());
    s.append("/s");
    s
}

impl DiskIoStats {
    /// Finds the counters of the first device named `device`.
    pub fn find_device(entries: &Vec<DiskCounters>, device: &String) -> (r: Option<(u64, u64)>)
        ensures
            r is None ==> forall|i: int| 0 <= i < entries@.len() ==> #[trigger] entries@[i].name@ != device@,
            r is Some ==> exists|i: int|
                0 <= i < entries@.len() && #[trigger] entries@[i].name@ == device@ && r->Some_0 == (
                entries@[i].reads,
                entries@[i].writes,
            ) && forall|j: int| 0 <= j < i ==> #[trigger] entries@[j].name@ != device@,
    {
        let mut i: usize = 0;
        while i < entries.len()
            invariant
                i <= entries@.len(),
                forall|j: int| 0 <= j < i ==> #[trigger] entries@[j].name@ != device@,
            decreases entries@.len() - i,
        {
            if entries[i].name == *device {
                return Some((entries[i].reads, entries[i].writes));
            }
            i = i + 1;
        }
        None
    }

    /// Mean iowait over the CPU lines of the kernel statistics text, in thousandths.
    pub fn get_iowait(content: &str) -> (r: Result<u128, I3DisplayError>)
        ensures
            mean_iowait_milli(content.spec_bytes()) is Ok ==> r is Ok && r->Ok_0 == mean_iowait_milli(
                content.spec_bytes(),
            )->Ok_0,
            mean_iowait_milli(content.spec_bytes()) is Err ==> r is Err && r->Err_0.message@
                == "can't parse iowait value"@,
    {
        match mean_iowait(content.as_bytes()) {
            Ok(m) => Ok(m),
            Err(()) => Err(I3DisplayError { message: String::from_str("can't parse iowait value") }),
        }
    }

    /// The counters of the device named `device`; an error when it is not listed.
    pub fn device_counters(entries: &Vec<DiskCounters>, device: &String) -> (r: Result<(u64, u64), I3DisplayError>)
        ensures
            (forall|i: int| 0 <= i < entries@.len() ==> #[trigger] entries@[i].name@ != device@) ==> r is Err
                && r->Err_0.message@ == "device `"@ + device@ + "` not found"@,
            r is Ok ==> exists|i: int|
                0 <= i < entries@.len() && #[trigger] entries@[i].name@ == device@ && r->Ok_0 == (
                entries@[i].reads,
                entries@[i].writes,
            ) && forall|j: int| 0 <= j < i ==> #[trigger] entries@[j].name@ != device@,
            (exists|i: int| 0 <= i < entries@.len() && #[trigger] entries@[i].name@ == device@) ==> r is Ok,
    {
        match Self::find_device(entries, device) {
            Some(x) => Ok(x),
            None => {
                let mut m = String::from_str("device `");
                m.append(device.as_str());
                m.append("` not found");
                Err(I3DisplayError { message: m })
            },
        }
    }

    /// One sample: the device's counters (reads, writes) and the mean iowait of the
    /// statistics text; an error when that text cannot be read.
    pub fn sample(counters: (u64, u64), stat_content: &str) -> (r: Result<DiskIoSample, I3DisplayError>)
        ensures
            mean_iowait_milli(stat_content.spec_bytes()) is Ok ==> r is Ok && r->Ok_0 == (DiskIoSample {
                reads: counters.0,
                writes: counters.1,
                iowait_milli: mean_iowait_milli(stat_content.spec_bytes())->Ok_0 as u128,
            }),
            mean_iowait_milli(stat_content.spec_bytes()) is Err ==> r is Err && r->Err_0.message@
                == "can't parse iowait value"@,
    {
        let iowait_milli = Self::get_iowait(stat_content)?;
        Ok(DiskIoSample { reads: counters.0, writes: counters.1, iowait_milli })
    }

    pub open spec fn wf(&self) -> bool {
        self.read_mb_milli <= u64::MAX as u128 * 1000 && self.write_mb_milli <= u64::MAX as u128 * 1000
    }

    /// The rates between two consecutive samples, `CHECK_INTERVAL_SEC` apart.
    pub fn from_samples(first: DiskIoSample, second: DiskIoSample) -> (r: DiskIoStats)
        ensures
            r == stats_of(first, second),
            r.wf(),
    {
        let r = DiskIoStats {
            read_mb_milli: delta_rate(first.reads as u128 * 1000, second.reads as u128 * 1000, CHECK_INTERVAL_SEC),
            write_mb_milli: delta_rate(first.writes as u128 * 1000, second.writes as u128 * 1000, CHECK_INTERVAL_SEC),
            io_wait_milli: delta_rate(first.iowait_milli, second.iowait_milli, CHECK_INTERVAL_SEC),
        };
        r
    }

    /// The rates in the configured unit, or each throughput in the unit its size
    /// selects when none is configured.
    pub fn pretty_content(&self, unit: Option<BytesUnit>) -> (r: PrettyDiskIoStats)
        requires
            self.wf(),
        ensures
            r.read_unit == (match unit {
                Some(u) => u,
                None => auto_unit(self.read_mb_milli as int),
            }),
            r.write_unit == (match unit {
                Some(u) => u,
                None => auto_unit(self.write_mb_milli as int),
            }),
            r.read_tenths == in_unit_tenths(self.read_mb_milli as nat, r.read_unit),
            r.write_tenths == in_unit_tenths(self.write_mb_milli as nat, r.write_unit),
            r.io_wait_tenths == rounded_div(self.io_wait_milli as nat, 100),
    {
        let read_unit = match unit {
            Some(u) => u,
            None => choose_unit(self.read_mb_milli),
        };
        let write_unit = match unit {
            Some(u) => u,
            None => choose_unit(self.write_mb_milli),
        };
        let x = self.io_wait_milli;
        let io_wait_tenths = div_round_even(x, 100);
        PrettyDiskIoStats {
            read_tenths: to_unit_tenths(self.read_mb_milli, read_unit),
            write_tenths: to_unit_tenths(self.write_mb_milli, write_unit),
            read_unit,
            write_unit,
            io_wait_tenths,
        }
    }
}

/// The line shown: read and write throughput coloured against the bounds, then
/// iowait coloured against its own bounds, separated by spaces.
pub open spec fn disk_io_line(p: PrettyDiskIoStats, s: DiskIoStats, warning_milli: int, critical_milli: int) -> Seq<
    char,
> {
    threshold_markup(
        warning_milli,
        critical_milli,
        critical_milli,
        s.read_mb_milli as int,
        rate_text(p.read_tenths as nat, p.read_unit),
    ) + " "@ + threshold_markup(
        warning_milli,
        critical_milli,
        critical_milli,
        s.write_mb_milli as int,
        rate_text(p.write_tenths as nat, p.write_unit),
    ) + " "@ + threshold_markup(
        IOWAIT_WARNING_MILLI as int,
        IOWAIT_CRITICAL_MILLI as int,
        IOWAIT_CRITICAL_MILLI as int,
        s.io_wait_milli as int,
        iowait_text(p.io_wait_tenths as nat),
    )
}

impl PrettyDiskIoStats {
    /// The status value, with throughput bounds in whole megabytes per second.
    pub fn to_i3blocks_display(&self, disk_io_stat: &DiskIoStats, warning: u64, critical: u64) -> (r: I3Display)
        ensures
            r.icon.is_none(),
            r.color.is_none(),
            r.long_line@ == disk_io_line(*self, *disk_io_stat, warning as int * 1000, critical as int * 1000),
            r.short_line@ == r.long_line@,
    {
        let w = warning as u128 * 1000;
        let c = critical as u128 * 1000;
        let read_value = set_text_threshold_color(
            w,
            c,
            c,
            disk_io_stat.read_mb_milli,
            Some(rate_string(self.read_tenths, self.read_unit)),
        );
        let write_value = set_text_threshold_color(
            w,
            c,
            c,
            disk_io_stat.write_mb_milli,
            Some(rate_string(self.write_tenths, self.write_unit)),
        );
        let io = tenths_string(self.io_wait_tenths);
        let mut io_text = String::new();
        proof {
            reveal_strlit(" ");
        }
        push_padded(&mut io_text, io.as_str(), " ", 3);
        io_text.append("%");
        let iowait_value = set_text_threshold_color(
            IOWAIT_WARNING_MILLI,
            IOWAIT_CRITICAL_MILLI,
            IOWAIT_CRITICAL_MILLI,
            disk_io_stat.io_wait_milli,
            Some(io_text),
        );
        let mut lines = read_value;
        lines.append(" ");
        lines.append(write_value.as_str());
        lines.append(" ");
        lines.append(iowait_value.as_str());
        assert(lines@ =~= disk_io_line(*self, *disk_io_stat, warning as int * 1000, critical as int * 1000));
        I3Display::new(None, lines.clone(), lines, None)
    }
}

} // verus!
