//! The captive-portal watcher: what to do when NetworkManager reports a
//! connectivity state.
use vstd::prelude::*;
use crate::number::{decimal, decimal_chars};
use crate::text::{join, string_of};

verus! {

/// NetworkManager's `NM_CONNECTIVITY_PORTAL`: a captive portal blocks the
/// network.
pub const CONNECTIVITY_PORTAL: u32 = 2;

/// NetworkManager's `NM_CONNECTIVITY_FULL`: full access.
pub const CONNECTIVITY_FULL: u32 = 4;

/// What to do about one connectivity state.
#[derive(Debug, PartialEq, Eq)]
pub struct StatusReport {
    /// The line to print.
    pub message: String,
    /// Whether to raise the login notification and open the login page.
    pub open_portal: bool,
}

pub open spec fn status_message(status: u32) -> Seq<char> {
    if status == 2 {
        "Portal detected! Showing notification..."@
    } else if status == 4 {
        "Connectivity is FULL"@
    } else {
        "Connectivity status: "@ + decimal(status as nat)
    }
}

/// The handling of connectivity state `status`: only a captive portal
/// calls for the login notification and browser.
pub fn check_status(status: u32) -> (r: StatusReport)
    ensures
        r.message@ == status_message(status),
        r.open_portal == (status == CONNECTIVITY_PORTAL),
{
    if status == CONNECTIVITY_PORTAL {
        StatusReport {
            message: String::from_str("Portal detected! Showing notification..."),
            open_portal: true,
        }
    } else if status == CONNECTIVITY_FULL {
        StatusReport { message: String::from_str("Connectivity is FULL"), open_portal: false }
    } else {
        let n = string_of(&decimal_chars(status as u64));
        StatusReport { message: join("Connectivity status: ", n.as_str()), open_portal: false }
    }
}

/// The line printed for the state found at start-up.
pub fn current_status_message(status: u32) -> (m: String)
    ensures
        m@ == "Current connectivity: "@ + decimal(status as nat),
{
    let n = string_of(&decimal_chars(status as u64));
    join("Current connectivity: ", n.as_str())
}

/// The login notification: summary, body and icon.
pub fn portal_notification() -> (n: (String, String, String))
    ensures
        n.0@ == "Wi-Fi Login Required"@,
        n.1@ == "Captive portal detected. Click to open browser."@,
        n.2@ == "network-wired-symbolic"@,
{
    (
        String::from_str("Wi-Fi Login Required"),
        String::from_str("Captive portal detected. Click to open browser."),
        String::from_str("network-wired-symbolic"),
    )
}

/// A plain-HTTP page that captive portals intercept.
pub fn portal_probe_url() -> (u: String)
    ensures
        u@ == "http://neverssl.com"@,
{
    String::from_str("http://neverssl.com")
}

} // verus!
