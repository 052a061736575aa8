//! Disk usage of a mount point: the reading built from its total and available
//! space, and its display.
use vstd::prelude::*;
use vstd::string::StringExecFns;

use crate::display::{
    define_threshold_color, threshold_color, BytesUnit, I3Display, I3DisplayError,
};
use crate::mem::{bytes_text, percent_of, push_bytes_text};
use crate::text::{decimal, push_decimal};

verus! {

/// Options of the disk usage check: mount point, bounds in whole percent, unit and what to show.
pub struct DiskUsageArgs {
    pub path: String,
    pub critical_used_percentage: u8,
    pub warning_used_percentage: u8,
    pub unit: BytesUnit,
    pub display: DiskDisplay,
}

/// Which disk quantity is shown.
#[derive(Clone, Copy, Debug, PartialEq, Eq, Structural)]
pub enum DiskDisplay {
    Used,
    Remaining,
    UsedPercentage,
    RemainingPercentage,
}

/// Total and available space of one mounted disk, in bytes.
pub struct DiskSpace {
    pub mount_point: String,
    pub total: u64,
    pub available: u64,
}

/// Space of one disk, in bytes.
#[derive(Debug)]
pub struct DiskStats {
    pub usage_mb: u64,
    pub total_mb: u64,
    pub used_percent: u8,
}

impl DiskStats {
    pub open spec fn wf(&self) -> bool {
        self.usage_mb <= self.total_mb && self.used_percent <= 100
    }

    /// Builds the reading from total and available space: used space is total less
    /// available (zero if available exceeds total).
    pub fn from_space(total: u64, available: u64) -> (r: DiskStats)
        ensures
            r.wf(),
            r.total_mb == total,
            r.usage_mb == (if available <= total { total - available } else { 0 }),
            r.used_percent == percent_of(r.usage_mb as nat, total as nat),
    {
        let usage_mb: u64 = if available <= total { total - available } else { 0 };
        let used_percent: u8 = if total == 0 {
            0
        } else {
            proof {
                assert(usage_mb as nat * 100 / total as nat <= 100) by (nonlinear_arith)
                    requires usage_mb <= total, total > 0;
            }
            ((usage_mb as u128 * 100) / total as u128) as u8
        };
        DiskStats { usage_mb, total_mb: total, used_percent }
    }

    /// The reading of the first disk mounted at `disk_path`; an error when none is.
    pub fn get_disk_stats(disks: &Vec<DiskSpace>, disk_path: &String) -> (r: Result<DiskStats, I3DisplayError>)
        ensures
            (forall|i: int| 0 <= i < disks@.len() ==> #[trigger] disks@[i].mount_point@ != disk_path@) ==> r is Err
                && r->Err_0.message@ == "Disk "@ + disk_path@ + " not found"@,
            (exists|i: int| 0 <= i < disks@.len() && #[trigger] disks@[i].mount_point@ == disk_path@) ==> r is Ok,
            r is Ok ==> r->Ok_0.wf() && exists|i: int|
                0 <= i < disks@.len() && #[trigger] disks@[i].mount_point@ == disk_path@ && (forall|j: int|
                    0 <= j < i ==> #[trigger] disks@[j].mount_point@ != disk_path@) && r->Ok_0.total_mb
                    == disks@[i].total && r->Ok_0.usage_mb == (if disks@[i].available <= disks@[i].total {
                    disks@[i].total - disks@[i].available
                } else {
                    0
                }) && r->Ok_0.used_percent == percent_of(r->Ok_0.usage_mb as nat, disks@[i].total as nat),
    {
        let mut i: usize = 0;
        while i < disks.len()
            invariant
                i <= disks@.len(),
                forall|j: int| 0 <= j < i ==> #[trigger] disks@[j].mount_point@ != disk_path@,
            decreases disks@.len() - i,
        {
            if disks[i].mount_point == *disk_path {
                return Ok(Self::from_space(disks[i].total, disks[i].available));
            }
            i = i + 1;
        }
        let mut m = String::from_str("Disk ");
        m.append(disk_path.as_str());
        m.append(" not found");
        Err(I3DisplayError { message: m })
    }

    /// The line shown: space in the unit with one decimal place, or a whole percent.
    pub open spec fn text(&self, unit: BytesUnit, display: DiskDisplay) -> Seq<char> {
        match display {
            DiskDisplay::Used => bytes_text(self.usage_mb as nat, unit),
            DiskDisplay::Remaining => bytes_text((self.total_mb - self.usage_mb) as nat, unit),
            DiskDisplay::UsedPercentage => decimal(self.used_percent as nat) + "%"@,
            DiskDisplay::RemainingPercentage => decimal((100 - self.used_percent) as nat) + "%"@,
        }
    }

    pub fn i3blocks_print(&self, unit: BytesUnit, display: DiskDisplay) -> (r: String)
        requires
            self.wf(),
        ensures
            r@ == self.text(unit, display),
    {
        let mut s = String::new();
        match display {
            DiskDisplay::Used => push_bytes_text(&mut s, self.usage_mb, unit),
            DiskDisplay::Remaining => push_bytes_text(&mut s, self.total_mb - self.usage_mb, unit),
            DiskDisplay::UsedPercentage => {
                push_decimal(&mut s, self.used_percent as u128);
                s.append("%");
            },
            DiskDisplay::RemainingPercentage => {
                push_decimal(&mut s, (100 - self.used_percent) as u128);
                s.append("%");
            },
        }
        assert(s@ =~= self.text(unit, display));
        s
    }

    /// The status value: the chosen line, coloured by used percent against the
    /// warning bound, the midpoint of the bounds, and the critical bound.
    pub fn display(&self, command: &DiskUsageArgs) -> (r: I3Display)
        requires
            self.wf(),
        ensures
            r.icon.is_none(),
            r.long_line@ == self.text(command.unit, command.display),
            r.short_line@ == r.long_line@,
            r.color == Some(threshold_color(
                command.warning_used_percentage as int,
                (command.critical_used_percentage as int + command.warning_used_percentage as int) / 2,
                command.critical_used_percentage as int,
                self.used_percent as int * 10,
            )),
    {
        let lines = self.i3blocks_print(command.unit, command.display);
        let danger = ((command.critical_used_percentage as u16 + command.warning_used_percentage as u16) / 2) as u8;
        let color = define_threshold_color(
            command.warning_used_percentage,
            danger,
            command.critical_used_percentage,
            self.used_percent as u64 * 10,
        );
        I3Display::new(None, lines.clone(), lines, Some(color))
    }
}

} // verus!
