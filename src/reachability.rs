//! Reachability checks of a TCP port or of a host by ICMP, and their display.
use vstd::prelude::*;
use vstd::string::StringExecFns;

use crate::display::{I3Display, I3DisplayError};
use crate::text::{contains_text, decimal, occurs_in, push_decimal};

verus! {

/// Options of the TCP check: address, and the texts shown when reachable or not.
pub struct TcpCheckArgs {
    pub host: String,
    pub port: u16,
    pub availability_text: Option<String>,
    pub unavailability_text: Option<String>,
}

/// Whether a TCP connection could be opened.
pub struct TcpCheck {
    pub available: bool,
}

/// Whether a host answered a ping.
pub struct IcmpCheck {
    pub available: bool,
}

/// The display of a reachability result: the configured text for the outcome,
/// verbatim, or nothing when no text is configured for it.
pub open spec fn availability_shown(
    available: bool,
    availability_text: Option<String>,
    unavailability_text: Option<String>,
    r: Option<I3Display>,
) -> bool {
    let text = if available { availability_text } else { unavailability_text };
    match text {
        Some(x) => r is Some && r->Some_0.icon.is_none() && r->Some_0.color.is_none() && r->Some_0.long_line@
            == x@ && r->Some_0.short_line@ == x@,
        None => r is None,
    }
}

/// Builds the display of a reachability result.
pub fn availability_display(
    available: bool,
    availability_text: &Option<String>,
    unavailability_text: &Option<String>,
) -> (r: Option<I3Display>)
    ensures
        availability_shown(available, *availability_text, *unavailability_text, r),
{
    let text = if available { availability_text } else { unavailability_text };
    match text {
        Some(x) => Some(I3Display::new(None, x.clone(), x.clone(), None)),
        None => None,
    }
}

/// The message of a ping that got no reply in time.
pub open spec fn no_reply_text() -> Seq<char> {
    "Resource temporarily unavailable"@
}

impl TcpCheck {
    /// The address connected to: host, a colon, and the port.
    pub fn address(host: &String, port: u16) -> (r: String)
        ensures
            r@ == host@ + ":"@ + decimal(port as nat),
    {
        let mut r = host.clone();
        r.append(":");
        push_decimal(&mut r, port as u128);
        r
    }

    pub fn display(&self, command: &TcpCheckArgs) -> (r: Option<I3Display>)
        ensures
            availability_shown(self.available, command.availability_text, command.unavailability_text, r),
    {
        availability_display(self.available, &command.availability_text, &command.unavailability_text)
    }
}

impl IcmpCheck {
    /// Reads a ping's outcome: a reply means reachable, no reply in time means
    /// unreachable, and any other failure is an error with its message.
    pub fn from_ping(outcome: Result<(), String>) -> (r: Result<IcmpCheck, I3DisplayError>)
        ensures
            outcome is Ok ==> r is Ok && r->Ok_0.available,
            outcome is Err && occurs_in(no_reply_text(), outcome->Err_0@) ==> r is Ok && !r->Ok_0.available,
            outcome is Err && !occurs_in(no_reply_text(), outcome->Err_0@) ==> r is Err && r->Err_0.message
                == outcome->Err_0,
    {
        match outcome {
            Ok(_) => Ok(IcmpCheck { available: true }),
            Err(m) => {
                if contains_text(m.as_str(), "Resource temporarily unavailable") {
                    Ok(IcmpCheck { available: false })
                } else {
                    Err(I3DisplayError { message: m })
                }
            },
        }
    }

    pub fn display(&self, availability_text: &Option<String>, unavailability_text: &Option<String>) -> (r:
        Option<I3Display>)
        ensures
            availability_shown(self.available, *availability_text, *unavailability_text, r),
    {
        availability_display(self.available, availability_text, unavailability_text)
    }
}

} // verus!
