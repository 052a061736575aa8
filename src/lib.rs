//! Status summaries for status bars: threshold colouring, display values and
//! the two output protocols, with the decision logic of each check.
//!
//! Each check turns plain readings (counters, a decoded HTTP reply) into an
//! [`display::I3Display`]; reading the system and talking to the network is
//! left to the caller.

pub mod cpu;
pub mod disk_io;
pub mod disk_usage;
pub mod display;
pub mod mem;
pub mod octoprint;
pub mod perfmode;
pub mod proc_stat;
pub mod prusa_link;
pub mod reachability;
pub mod remote;
pub mod text;
