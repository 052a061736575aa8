//! Memory usage: the reading built from the kernel's memory counters, and its display.
use vstd::prelude::*;
use vstd::string::StringExecFns;

use crate::display::{
    define_threshold_color, threshold_color, unit_bytes, BytesUnit, I3Display, I3DisplayError,
};
use crate::text::{decimal, push_decimal, push_tenths, rounded_div, tenths_text};

verus! {

/// Options of the memory check: bounds in whole percent, unit and what to show.
pub struct MemArgs {
    pub critical: u8,
    pub warning: u8,
    pub unit: BytesUnit,
    pub display: MemoryDisplay,
}

/// Which memory quantity is shown.
#[derive(Clone, Copy, Debug, PartialEq, Eq, Structural)]
pub enum MemoryDisplay {
    Used,
    Remaining,
    UsedPercentage,
    RemainingPercentage,
}

/// Used and total memory in bytes, and the used share in whole percent.
#[derive(Debug)]
pub struct MemStats {
    pub usage_bytes: u64,
    pub total_bytes: u64,
    pub used_percent: u8,
}

/// The letter that follows a byte quantity shown in `unit`.
pub open spec fn unit_letter(unit: BytesUnit) -> Seq<char> {
    match unit {
        BytesUnit::Kb => "K"@,
        BytesUnit::Mb => "M"@,
        BytesUnit::Gb => "G"@,
    }
}

/// Appends the letter of `unit`.
pub fn push_unit_letter(s: &mut String, unit: BytesUnit)
    ensures
        final(s)@ == old(s)@ + unit_letter(unit),
{
    match unit {
        BytesUnit::Kb => s.append("K"),
        BytesUnit::Mb => s.append("M"),
        BytesUnit::Gb => s.append("G"),
    }
}

/// Whole percent of `part` in `total` (zero when `total` is zero).
pub open spec fn percent_of(part: nat, total: nat) -> nat {
    if total == 0 {
        0
    } else {
        part * 100 / total
    }
}

/// `bytes` in `unit` with one decimal place, then the unit's letter ("1.5G").
pub open spec fn bytes_text(bytes: nat, unit: BytesUnit) -> Seq<char> {
    tenths_text(rounded_div(bytes * 10, unit_bytes(unit))) + unit_letter(unit)
}

pub fn push_bytes_text(s: &mut String, bytes: u64, unit: BytesUnit)
    ensures
        final(s)@ == old(s)@ + bytes_text(bytes as nat, unit),
{
    let b = unit.bytes() as u128;
    let t = crate::text::div_round_even(bytes as u128 * 10, b);
    push_tenths(s, t);
    push_unit_letter(s, unit);
    assert(final(s)@ =~= old(s)@ + bytes_text(bytes as nat, unit));
}

impl MemStats {
    pub open spec fn wf(&self) -> bool {
        self.usage_bytes <= self.total_bytes && self.used_percent <= 100
    }

    /// Builds the reading from total, available and shared memory: used memory is
    /// total less available less shared (zero if that is negative).
    pub fn from_meminfo(mem_total: u64, mem_available: Option<u64>, shmem: Option<u64>) -> (r: Result<
        MemStats,
        I3DisplayError,
    >)
        ensures
            mem_available.is_none() ==> r.is_err() && r->Err_0.message@ == "available memory not found"@,
            mem_available.is_some() && shmem.is_none() ==> r.is_err() && r->Err_0.message@
                == "shared memory not found"@,
            mem_available.is_some() && shmem.is_some() ==> r.is_ok() && ({
                let s = r->Ok_0;
                let used = mem_total - mem_available.unwrap() - shmem.unwrap();
                &&& s.wf()
                &&& s.total_bytes == mem_total
                &&& s.usage_bytes == (if used > 0 { used } else { 0 })
                &&& s.used_percent == percent_of(s.usage_bytes as nat, mem_total as nat)
            }),
    {
        let available = match mem_available {
            Some(x) => x,
            None => {
                return Err(I3DisplayError { message: String::from_str("available memory not found") });
            },
        };
        let shared = match shmem {
            Some(x) => x,
            None => {
                return Err(I3DisplayError { message: String::from_str("shared memory not found") });
            },
        };
        let usage_bytes: u64 = if available as u128 + shared as u128 <= mem_total as u128 {
            mem_total - available - shared
        } else {
            0
        };
        let used_percent: u8 = if mem_total == 0 {
            0
        } else {
            proof {
                assert(usage_bytes as nat * 100 / mem_total as nat <= 100) by (nonlinear_arith)
                    requires usage_bytes <= mem_total, mem_total > 0;
            }
            ((usage_bytes as u128 * 100) / mem_total as u128) as u8
        };
        Ok(MemStats { usage_bytes, total_bytes: mem_total, used_percent })
    }

    /// The line shown for the chosen quantity in the chosen unit.
    pub open spec fn text(&self, unit: BytesUnit, display: MemoryDisplay) -> Seq<char> {
        match display {
            MemoryDisplay::Used => bytes_text(self.usage_bytes as nat, unit),
            MemoryDisplay::Remaining => bytes_text((self.total_bytes - self.usage_bytes) as nat, unit),
            MemoryDisplay::UsedPercentage => decimal(self.used_percent as nat) + "%"@,
            MemoryDisplay::RemainingPercentage => decimal((100 - self.used_percent) as nat) + "%"@,
        }
    }

    pub fn i3blocks_print(&self, unit: BytesUnit, display: MemoryDisplay) -> (r: String)
        requires
            self.wf(),
        ensures
            r@ == self.text(unit, display),
    {
        let mut s = String::new();
        match display {
            MemoryDisplay::Used => push_bytes_text(&mut s, self.usage_bytes, unit),
            MemoryDisplay::Remaining => push_bytes_text(&mut s, self.total_bytes - self.usage_bytes, unit),
            MemoryDisplay::UsedPercentage => {
                push_decimal(&mut s, self.used_percent as u128);
                s.append("%");
            },
            MemoryDisplay::RemainingPercentage => {
                push_decimal(&mut s, (100 - self.used_percent) as u128);
                s.append("%");
            },
        }
        assert(s@ =~= self.text(unit, display));
        s
    }

    /// The status value: the chosen line, coloured by used percent against the
    /// warning bound, the midpoint of the bounds, and the critical bound.
    pub fn display(&self, command: &MemArgs) -> (r: I3Display)
        requires
            self.wf(),
        ensures
            r.icon.is_none(),
            r.long_line@ == self.text(command.unit, command.display),
            r.short_line@ == r.long_line@,
            r.color == Some(threshold_color(
                command.warning as int,
                (command.critical as int + command.warning as int) / 2,
                command.critical as int,
                self.used_percent as int * 10,
            )),
    {
        let lines = self.i3blocks_print(command.unit, command.display);
        let danger = ((command.critical as u16 + command.warning as u16) / 2) as u8;
        let color = define_threshold_color(command.warning, danger, command.critical, self.used_percent as u64 * 10);
        I3Display::new(None, lines.clone(), lines, Some(color))
    }
}

} // verus!
