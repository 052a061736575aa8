//! The platform performance profile: reading it from the profile file's text,
//! and its display.
use vstd::prelude::*;
use vstd::string::StringExecFns;

use crate::display::{I3Display, I3DisplayError};

verus! {

/// Options of the performance mode check.
pub struct PerfModeArgs {
    pub display: PerfModeStyle,
}

/// An icon, or the mode's name.
#[derive(Clone, Copy, Debug, PartialEq, Eq, Structural)]
pub enum PerfModeStyle {
    Icons,
    Text,
}

/// Platform performance profiles.
#[derive(Clone, Copy, Debug, PartialEq, Eq, Structural)]
pub enum PerformanceMode {
    Balanced,
    Performance,
    LowPower,
}

/// `s` without leading and trailing whitespace.
pub uninterp spec fn trim_of(s: Seq<char>) -> Seq<char>;

/// Relies on str::trim: the text without leading and trailing whitespace, which
/// depends on the text alone.
#[verifier::external_body]
fn trim<'a>(s: &'a str) -> (r: &'a str)
    ensures
        r@ == trim_of(s@),
{
    s.trim()
}

/// The name shown for a mode.
pub open spec fn mode_text(m: PerformanceMode) -> Seq<char> {
    match m {
        PerformanceMode::Balanced => "Balanced"@,
        PerformanceMode::Performance => "Performance"@,
        PerformanceMode::LowPower => "Low Power"@,
    }
}

/// The icon shown for a mode.
pub open spec fn mode_icon(m: PerformanceMode) -> Seq<char> {
    match m {
        PerformanceMode::Balanced => "\u{f0dc}"@,
        PerformanceMode::Performance => "\u{f962}"@,
        PerformanceMode::LowPower => "\u{f299}"@,
    }
}

/// The mode a profile name stands for.
pub open spec fn mode_of_name(name: Seq<char>) -> Option<PerformanceMode> {
    if name == "balanced"@ {
        Some(PerformanceMode::Balanced)
    } else if name == "performance"@ {
        Some(PerformanceMode::Performance)
    } else if name == "low-power"@ {
        Some(PerformanceMode::LowPower)
    } else {
        None
    }
}

impl PerformanceMode {
    /// The mode's name ("Low Power").
    pub fn to_string(&self) -> (r: String)
        ensures
            r@ == mode_text(*self),
    {
        match self {
            PerformanceMode::Balanced => String::from_str("Balanced"),
            PerformanceMode::Performance => String::from_str("Performance"),
            PerformanceMode::LowPower => String::from_str("Low Power"),
        }
    }

    /// Reads the mode from the profile file's text, surrounding whitespace ignored.
    pub fn parse(content: &str) -> (r: Result<PerformanceMode, I3DisplayError>)
        ensures
            mode_of_name(trim_of(content@)) is Some ==> r is Ok && r->Ok_0 == mode_of_name(
                trim_of(content@),
            )->Some_0,
            mode_of_name(trim_of(content@)) is None ==> r is Err && r->Err_0.message@
                == "unknown performance mode: `"@ + content@ + "`"@,
    {
        let name = String::from_str(trim(content));
        if name == String::from_str("balanced") {
            Ok(PerformanceMode::Balanced)
        } else if name == String::from_str("performance") {
            Ok(PerformanceMode::Performance)
        } else if name == String::from_str("low-power") {
            Ok(PerformanceMode::LowPower)
        } else {
            let mut m = String::from_str("unknown performance mode: `");
            m.append(content);
            m.append("`");
            Err(I3DisplayError { message: m })
        }
    }

    /// The line shown: the mode's icon or its name.
    pub fn i3blocks_print(&self, style: PerfModeStyle) -> (r: String)
        ensures
            style == PerfModeStyle::Icons ==> r@ == mode_icon(*self),
            style == PerfModeStyle::Text ==> r@ == mode_text(*self),
    {
        match style {
            PerfModeStyle::Icons => match self {
                PerformanceMode::Balanced => String::from_str("\u{f0dc}"),
                PerformanceMode::Performance => String::from_str("\u{f962}"),
                PerformanceMode::LowPower => String::from_str("\u{f299}"),
            },
            PerfModeStyle::Text => self.to_string(),
        }
    }

    pub fn display(&self, command: &PerfModeArgs) -> (r: I3Display)
        ensures
            r.icon.is_none(),
            r.color.is_none(),
            command.display == PerfModeStyle::Icons ==> r.long_line@ == mode_icon(*self),
            command.display == PerfModeStyle::Text ==> r.long_line@ == mode_text(*self),
            r.short_line@ == r.long_line@,
    {
        let lines = self.i3blocks_print(command.display);
        I3Display::new(None, lines.clone(), lines, None)
    }
}

} // verus!
