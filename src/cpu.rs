//! CPU usage: per-core and average usage, and their display.
use vstd::prelude::*;
use vstd::string::StringExecFns;

use crate::display::{define_threshold_color, threshold_color, I3Display};
use crate::text::{decimal, decimal_string, div_round_even, pad_left, push_padded, push_tenths, rounded_div, tenths_text};

verus! {

/// Options of the CPU check: bounds in whole percent and what to show.
pub struct CpuArgs {
    pub critical: u8,
    pub warning: u8,
    pub display: CpuDisplayStyle,
}

/// Every core, or the average over cores.
#[derive(Clone, Copy, Debug, PartialEq, Eq, Structural)]
pub enum CpuDisplayStyle {
    All,
    Average,
}

/// Usage of each core in whole percent, and the average over cores in tenths of a percent.
#[derive(Debug)]
pub struct CpuStats {
    pub cpu_usage_all_cores: Vec<u8>,
    pub cpu_usage_average_tenths: u64,
}

pub open spec fn sum_of(s: Seq<u32>) -> nat
    decreases s.len(),
{
    if s.len() == 0 {
        0
    } else {
        sum_of(s.drop_last()) + s.last() as nat
    }
}

/// Whole percent of a core usage given in tenths, capped at what a byte holds.
pub open spec fn core_whole(t: u32) -> u8 {
    if t / 10 > 255 {
        255
    } else {
        (t / 10) as u8
    }
}

/// One core as shown: at least two digits, zero-padded, then "%".
pub open spec fn core_text(c: u8) -> Seq<char> {
    pad_left(decimal(c as nat), '0', 2) + "%"@
}

/// All cores as shown, separated by single spaces.
pub open spec fn cores_text(s: Seq<u8>) -> Seq<char>
    decreases s.len(),
{
    if s.len() == 0 {
        Seq::empty()
    } else if s.len() == 1 {
        core_text(s[0])
    } else {
        cores_text(s.drop_last()) + " "@ + core_text(s.last())
    }
}

impl CpuStats {
    pub fn new(cpu_usage_all_cores: Vec<u8>, cpu_usage_average_tenths: u64) -> (r: Self)
        ensures
            r.cpu_usage_all_cores@ == cpu_usage_all_cores@,
            r.cpu_usage_average_tenths == cpu_usage_average_tenths,
    {
        Self { cpu_usage_all_cores, cpu_usage_average_tenths }
    }

    /// Builds the reading from the usage of each core in tenths of a percent: each
    /// core in whole percent, and the mean over cores (zero when there is none).
    pub fn from_core_usage(per_core_tenths: &Vec<u32>) -> (r: CpuStats)
        ensures
            r.cpu_usage_all_cores@.len() == per_core_tenths@.len(),
            forall|i: int| 0 <= i < per_core_tenths@.len()
                ==> #[trigger] r.cpu_usage_all_cores@[i] == core_whole(per_core_tenths@[i]),
            r.cpu_usage_average_tenths == (if per_core_tenths@.len() == 0 {
                0
            } else {
                rounded_div(sum_of(per_core_tenths@), per_core_tenths@.len() as nat)
            }),
    {
        let mut cores: Vec<u8> = Vec::new();
        let mut sum: u128 = 0;
        let mut i: usize = 0;
        while i < per_core_tenths.len()
            invariant
                i <= per_core_tenths@.len(),
                cores@.len() == i,
                forall|k: int| 0 <= k < i ==> #[trigger] cores@[k] == core_whole(per_core_tenths@[k]),
                sum == sum_of(per_core_tenths@.subrange(0, i as int)),
                sum <= i * 0xffff_ffff,
            decreases per_core_tenths@.len() - i,
        {
            let t = per_core_tenths[i];
            let whole: u8 = if t / 10 > 255 { 255 } else { (t / 10) as u8 };
            cores.push(whole);
            assert(per_core_tenths@.subrange(0, i + 1).drop_last() =~= per_core_tenths@.subrange(0, i as int));
            sum = sum + t as u128;
            i = i + 1;
        }
        assert(per_core_tenths@.subrange(0, i as int) =~= per_core_tenths@);
        let n = per_core_tenths.len() as u128;
        let average: u64 = if n == 0 {
            0
        } else {
            let a = div_round_even(sum, n);
            proof {
                assert(sum / n <= 0xffff_ffff) by (nonlinear_arith)
                    requires sum <= n * 0xffff_ffff, n > 0;
            }
            a as u64
        };
        CpuStats { cpu_usage_all_cores: cores, cpu_usage_average_tenths: average }
    }

    /// The line shown: every core, or the average ("100" when it is exactly full).
    pub open spec fn text(&self, display: CpuDisplayStyle) -> Seq<char> {
        match display {
            CpuDisplayStyle::All => cores_text(self.cpu_usage_all_cores@),
            CpuDisplayStyle::Average => if self.cpu_usage_average_tenths == 1000 {
                "100"@
            } else {
                tenths_text(self.cpu_usage_average_tenths as nat) + "%"@
            },
        }
    }

    pub fn i3blocks_print(&self, display: CpuDisplayStyle) -> (r: String)
        ensures
            r@ == self.text(display),
    {
        match display {
            CpuDisplayStyle::All => {
                let cores = &self.cpu_usage_all_cores;
                let mut s = String::new();
                let mut i: usize = 0;
                while i < cores.len()
                    invariant
                        i <= cores@.len(),
                        s@ == cores_text(cores@.subrange(0, i as int)),
                    decreases cores@.len() - i,
                {
                    if i > 0 {
                        s.append(" ");
                    }
                    let d = decimal_string(cores[i] as u128);
                    proof {
                        reveal_strlit("0");
                    }
                    push_padded(&mut s, d.as_str(), "0", 2);
                    s.append("%");
                    proof {
                        let sub = cores@.subrange(0, i + 1);
                        assert(sub.drop_last() =~= cores@.subrange(0, i as int));
                        assert(sub.last() == cores@[i as int]);
                        assert(s@ =~= cores_text(sub));
                    }
                    i = i + 1;
                }
                assert(cores@.subrange(0, i as int) =~= cores@);
                s
            },
            CpuDisplayStyle::Average => {
                if self.cpu_usage_average_tenths == 1000 {
                    String::from_str("100")
                } else {
                    let mut s = String::new();
                    push_tenths(&mut s, self.cpu_usage_average_tenths as u128);
                    s.append("%");
                    s
                }
            },
        }
    }

    /// The status value: the chosen line, coloured by the average against the
    /// warning bound, the midpoint of the bounds, and the critical bound.
    pub fn display(&self, command: &CpuArgs) -> (r: I3Display)
        ensures
            r.icon.is_none(),
            r.long_line@ == self.text(command.display),
            r.short_line@ == r.long_line@,
            r.color == Some(threshold_color(
                command.warning as int,
                (command.critical as int + command.warning as int) / 2,
                command.critical as int,
                self.cpu_usage_average_tenths as int,
            )),
    {
        let lines = self.i3blocks_print(command.display);
        let danger = ((command.critical as u16 + command.warning as u16) / 2) as u8;
        let color = define_threshold_color(command.warning, danger, command.critical, self.cpu_usage_average_tenths);
        I3Display::new(None, lines.clone(), lines, Some(color))
    }
}

} // verus!
