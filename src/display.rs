//! What a check hands to the status bar: severity colours, the display value,
//! and the two output protocols it is written in.
use vstd::prelude::*;
use vstd::string::StringExecFns;

use crate::text::decimal;

verus! {

/// Unit in which byte quantities are shown.
#[derive(Clone, Copy, Debug, PartialEq, Eq, Structural)]
pub enum BytesUnit {
    Kb,
    Mb,
    Gb,
}

/// Number of bytes in one `unit`.
pub open spec fn unit_bytes(unit: BytesUnit) -> nat {
    match unit {
        BytesUnit::Kb => 1024,
        BytesUnit::Mb => 1024 * 1024,
        BytesUnit::Gb => 1024 * 1024 * 1024,
    }
}

/// The name of a unit.
pub open spec fn unit_text(unit: BytesUnit) -> Seq<char> {
    match unit {
        BytesUnit::Kb => "KB"@,
        BytesUnit::Mb => "MB"@,
        BytesUnit::Gb => "GB"@,
    }
}

impl BytesUnit {
    /// Number of bytes in one unit.
    pub fn bytes(self) -> (r: u64)
        ensures
            r == unit_bytes(self),
    {
        match self {
            BytesUnit::Kb => 1024,
            BytesUnit::Mb => 1024 * 1024,
            BytesUnit::Gb => 1024 * 1024 * 1024,
        }
    }

    /// The unit's name ("KB", "MB", "GB").
    pub fn to_string(&self) -> (r: String)
        ensures
            r@ == unit_text(*self),
    {
        match self {
            BytesUnit::Kb => String::from_str("KB"),
            BytesUnit::Mb => String::from_str("MB"),
            BytesUnit::Gb => String::from_str("GB"),
        }
    }
}

/// Severity of a reading, or a raw colour code that overrides it.
#[derive(Clone, Debug)]
pub enum I3StatusRustColorState {
    I3StatusRustStateIdle,
    I3StatusRustStateInfo,
    I3StatusRustStateGood,
    I3StatusRustStateWarning,
    I3StatusRustStateCritical,
    HtmlColorCode(String),
}

/// The state name written for a severity.
pub open spec fn state_text(c: I3StatusRustColorState) -> Seq<char> {
    match c {
        I3StatusRustColorState::I3StatusRustStateIdle => "Idle"@,
        I3StatusRustColorState::I3StatusRustStateInfo => "Info"@,
        I3StatusRustColorState::I3StatusRustStateGood => "Good"@,
        I3StatusRustColorState::I3StatusRustStateWarning => "Warning"@,
        I3StatusRustColorState::I3StatusRustStateCritical => "Critical"@,
        I3StatusRustColorState::HtmlColorCode(x) => x@,
    }
}

/// Position of a severity in the order Idle < Info < Good < Warning < Critical.
pub open spec fn severity_rank(c: I3StatusRustColorState) -> int {
    match c {
        I3StatusRustColorState::I3StatusRustStateIdle => 0,
        I3StatusRustColorState::I3StatusRustStateInfo => 1,
        I3StatusRustColorState::I3StatusRustStateGood => 2,
        I3StatusRustColorState::I3StatusRustStateWarning => 3,
        I3StatusRustColorState::I3StatusRustStateCritical => 4,
        I3StatusRustColorState::HtmlColorCode(_) => 0,
    }
}

impl I3StatusRustColorState {
    /// The state name ("Idle", "Info", "Good", "Warning", "Critical"), or the raw colour code.
    pub fn to_string(&self) -> (r: String)
        ensures
            r@ == state_text(*self),
    {
        match self {
            I3StatusRustColorState::I3StatusRustStateIdle => String::from_str("Idle"),
            I3StatusRustColorState::I3StatusRustStateInfo => String::from_str("Info"),
            I3StatusRustColorState::I3StatusRustStateGood => String::from_str("Good"),
            I3StatusRustColorState::I3StatusRustStateWarning => String::from_str("Warning"),
            I3StatusRustColorState::I3StatusRustStateCritical => String::from_str("Critical"),
            I3StatusRustColorState::HtmlColorCode(x) => x.clone(),
        }
    }
}

/// Severity of `value` (in tenths) against the bounds `warning <= danger <= critical`
/// (whole units): critical wins ties, then danger, then warning.
pub open spec fn threshold_color(warning: int, danger: int, critical: int, value_tenths: int) -> I3StatusRustColorState {
    if value_tenths >= critical * 10 {
        I3StatusRustColorState::I3StatusRustStateCritical
    } else if value_tenths >= danger * 10 {
        I3StatusRustColorState::I3StatusRustStateWarning
    } else if value_tenths >= warning * 10 {
        I3StatusRustColorState::I3StatusRustStateGood
    } else {
        I3StatusRustColorState::I3StatusRustStateIdle
    }
}

/// Classifies a value given in tenths against whole-unit bounds.
pub fn define_threshold_color(warning: u8, danger: u8, critical: u8, value_tenths: u64) -> (r: I3StatusRustColorState)
    ensures
        r == threshold_color(warning as int, danger as int, critical as int, value_tenths as int),
{
    if value_tenths >= critical as u64 * 10 {
        I3StatusRustColorState::I3StatusRustStateCritical
    } else if value_tenths >= danger as u64 * 10 {
        I3StatusRustColorState::I3StatusRustStateWarning
    } else if value_tenths >= warning as u64 * 10 {
        I3StatusRustColorState::I3StatusRustStateGood
    } else {
        I3StatusRustColorState::I3StatusRustStateIdle
    }
}

/// With ordered bounds, a larger value never gets a lower severity, and a value
/// equal to the critical bound is critical.
pub proof fn threshold_color_is_monotonic(warning: u8, danger: u8, critical: u8, v1: u64, v2: u64)
    requires
        warning <= danger <= critical,
        v1 <= v2,
    ensures
        severity_rank(threshold_color(warning as int, danger as int, critical as int, v1 as int))
            <= severity_rank(threshold_color(warning as int, danger as int, critical as int, v2 as int)),
        threshold_color(warning as int, danger as int, critical as int, critical as int * 10)
            == I3StatusRustColorState::I3StatusRustStateCritical,
{
}

/// `text` wrapped in a coloured span chosen by where `value` falls among the bounds.
pub open spec fn threshold_markup(warning: int, danger: int, critical: int, value: int, text: Seq<char>) -> Seq<char> {
    if value >= critical {
        "<span color='#F5737E'>"@ + text + "</span>"@
    } else if value >= danger {
        "<span color='orange'>"@ + text + "</span>"@
    } else if value >= warning {
        "<span color='yellow'>"@ + text + "</span>"@
    } else {
        text
    }
}

/// Colours a rendered value by markup; without a rendering, the value's decimal
/// digits are coloured. Bounds and value share one unit.
pub fn set_text_threshold_color(
    warning: u128,
    danger: u128,
    critical: u128,
    value: u128,
    value_as_string: Option<String>,
) -> (r: String)
    ensures
        r@ == threshold_markup(
            warning as int,
            danger as int,
            critical as int,
            value as int,
            match value_as_string {
                Some(t) => t@,
                None => decimal(value as nat),
            },
        ),
{
    let final_value = match value_as_string {
        Some(t) => t,
        None => crate::text::decimal_string(value),
    };
    let ghost t = final_value@;
    if value >= critical {
        let mut r = String::from_str("<span color='#F5737E'>");
        r.append(final_value.as_str());
        r.append("</span>");
        r
    } else if value >= danger {
        let mut r = String::from_str("<span color='orange'>");
        r.append(final_value.as_str());
        r.append("</span>");
        r
    } else if value >= warning {
        let mut r = String::from_str("<span color='yellow'>");
        r.append(final_value.as_str());
        r.append("</span>");
        r
    } else {
        final_value
    }
}

/// The two output protocols.
#[derive(Clone, Copy, Debug, PartialEq, Eq, Structural)]
pub enum OutputType {
    /// Long line, short line, then an optional colour line.
    I3Blocks,
    /// One JSON object.
    I3StatusRust,
}

/// One status value: optional icon, long and short text, optional severity.
pub struct I3Display {
    pub icon: Option<String>,
    pub long_line: String,
    pub short_line: String,
    pub color: Option<I3StatusRustColorState>,
}

/// A fatal error, reported with its message.
#[derive(Debug)]
pub struct I3DisplayError {
    pub message: String,
}

impl From<String> for I3DisplayError {
    fn from(message: String) -> (r: Self) {
        Self { message }
    }
}

impl vstd::std_specs::convert::FromSpecImpl<String> for I3DisplayError {
    open spec fn obeys_from_spec() -> bool {
        true
    }

    open spec fn from_spec(message: String) -> Self {
        I3DisplayError { message }
    }
}

/// The plain-text protocol: the long line (after the icon and a space, if any),
/// then the short line, then the colour if any.
pub open spec fn i3blocks_text(d: I3Display) -> Seq<char> {
    let icon = match d.icon {
        Some(x) => x@ + " "@,
        None => Seq::empty(),
    };
    let color = match d.color {
        Some(c) => "\n"@ + state_text(c),
        None => Seq::empty(),
    };
    icon + d.long_line@ + "\n"@ + d.short_line@ + color
}

/// The JSON protocol: `text`, `short_text`, then `icon` and `state` when present.
pub open spec fn i3status_rust_text(d: I3Display) -> Seq<char> {
    let icon = match d.icon {
        Some(x) => ",\"icon\":\""@ + x@ + "\""@,
        None => Seq::empty(),
    };
    let state = match d.color {
        Some(c) => ",\"state\":\""@ + state_text(c) + "\""@,
        None => Seq::empty(),
    };
    "{\"text\":\""@ + d.long_line@ + "\",\"short_text\":\""@ + d.short_line@ + "\""@ + icon + state + "}"@
}

/// The text written for a display in a protocol.
pub open spec fn rendered(d: I3Display, output: OutputType) -> Seq<char> {
    match output {
        OutputType::I3Blocks => i3blocks_text(d),
        OutputType::I3StatusRust => i3status_rust_text(d),
    }
}

/// What is written depends only on the texts and the severity: a check whose
/// reading is unchanged builds the same display, and so writes the same output.
pub proof fn output_depends_on_values_only(d1: I3Display, d2: I3Display, output: OutputType)
    requires
        d1.long_line@ == d2.long_line@,
        d1.short_line@ == d2.short_line@,
        d1.icon is Some <==> d2.icon is Some,
        d1.icon is Some ==> d1.icon->Some_0@ == d2.icon->Some_0@,
        d1.color is Some <==> d2.color is Some,
        d1.color is Some ==> state_text(d1.color->Some_0) == state_text(d2.color->Some_0),
    ensures
        rendered(d1, output) == rendered(d2, output),
{
}

impl I3Display {
    pub fn new(
        icon: Option<String>,
        long_line: String,
        short_line: String,
        color: Option<I3StatusRustColorState>,
    ) -> (r: Self)
        ensures
            r.icon == icon,
            r.long_line == long_line,
            r.short_line == short_line,
            r.color == color,
    {
        Self { icon, long_line, short_line, color }
    }

    /// The text written for this value in the given protocol, without the final newline.
    pub fn render(&self, output: OutputType) -> (r: String)
        ensures
            r@ == rendered(*self, output),
    {
        match output {
            OutputType::I3Blocks => {
                let mut r = String::new();
                match &self.icon {
                    Some(x) => {
                        r.append(x.as_str());
                        r.append(" ");
                    },
                    None => {},
                }
                r.append(self.long_line.as_str());
                r.append("\n");
                r.append(self.short_line.as_str());
                match &self.color {
                    Some(c) => {
                        r.append("\n");
                        let t = c.to_string();
                        r.append(t.as_str());
                    },
                    None => {},
                }
                assert(r@ =~= i3blocks_text(*self));
                r
            },
            OutputType::I3StatusRust => {
                let mut r = String::from_str("{\"text\":\"");
                r.append(self.long_line.as_str());
                r.append("\",\"short_text\":\"");
                r.append(self.short_line.as_str());
                r.append("\"");
                match &self.icon {
                    Some(x) => {
                        r.append(",\"icon\":\"");
                        r.append(x.as_str());
                        r.append("\"");
                    },
                    None => {},
                }
                match &self.color {
                    Some(c) => {
                        r.append(",\"state\":\"");
                        let t = c.to_string();
                        r.append(t.as_str());
                        r.append("\"");
                    },
                    None => {},
                }
                r.append("}");
                assert(r@ =~= i3status_rust_text(*self));
                r
            },
        }
    }

    /// What is written when a check has nothing to show: nothing in the plain-text
    /// protocol, an empty object in the JSON one.
    pub fn render_nothing(output: OutputType) -> (r: Option<String>)
        ensures
            output == OutputType::I3Blocks ==> r.is_none(),
            output == OutputType::I3StatusRust ==> r.is_some() && r.unwrap()@ == "{}"@,
    {
        match output {
            OutputType::I3Blocks => None,
            OutputType::I3StatusRust => Some(String::from_str("{}")),
        }
    }
}

impl I3DisplayError {
    /// The error line: the bare message, or the message in braces for the JSON protocol.
    pub fn render(&self, output: OutputType) -> (r: String)
        ensures
            output == OutputType::I3Blocks ==> r@ == self.message@,
            output == OutputType::I3StatusRust ==> r@ == "{"@ + self.message@ + "}"@,
    {
        match output {
            OutputType::I3Blocks => self.message.clone(),
            OutputType::I3StatusRust => {
                let mut r = String::from_str("{");
                r.append(self.message.as_str());
                r.append("}");
                r
            },
        }
    }
}

} // verus!
