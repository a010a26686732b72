//! What the tray menu says: the time logged today, the project in work, and
//! how a click on the icon is answered.
use crate::data::config::Mode;
use crate::text::{decimal, decimal_string};
use vstd::prelude::*;

verus! {

/// Seconds between two refreshes of the tray once the program is up.
pub const REFRESH_SECS: u64 = 20;

/// Seconds until the next try while the program is still starting.
pub const STARTUP_RETRY_SECS: u64 = 2;

/// The three texts of the tray.
pub struct TrayTexts {
    pub time_text: String,
    pub project_text: String,
    pub tooltip: String,
}

/// What the tray refresh knows about the login: nothing yet, or the mode
/// and whether an identity is there.
#[derive(Clone, Copy, Debug, PartialEq, Eq)]
pub enum TrayLogin {
    /// The program's state is not available yet.
    Starting,
    /// The state is there.
    Known { mode: Mode, has_slack_id: bool },
}

/// The time logged today, from whole minutes: `"<H>h <M>m today"`, or
/// `"<M>m today"` under an hour.
pub open spec fn today_text(total_minutes: nat) -> Seq<char> {
    if total_minutes / 60 == 0 {
        decimal(total_minutes % 60) + "m today"@
    } else {
        decimal(total_minutes / 60) + "h "@ + decimal(total_minutes % 60) + "m today"@
    }
}

/// Renders the time logged today.
pub fn format_hours(total_minutes: u32) -> (text: String)
    ensures
        text@ == today_text(total_minutes as nat),
{
    let hours: u32 = total_minutes / 60;
    let minutes: u32 = total_minutes % 60;
    if hours == 0 {
        let mut text = decimal_string(minutes as u64);
        text.append("m today");
        text
    } else {
        let mut text = decimal_string(hours as u64);
        text.append("h ");
        text.append(decimal_string(minutes as u64).as_str());
        text.append("m today");
        text
    }
}

/// Puts the remembered texts back to "nothing known".
pub fn reset_status_texts(last_time_text: &mut String, last_project_text: &mut String)
    ensures
        final(last_time_text)@ == "No data yet"@,
        final(last_project_text)@ == "No active project"@,
{
    *last_time_text = String::from_str("No data yet");
    *last_project_text = String::from_str("No active project");
}

/// The project line: the project in work, or that there is none.
pub fn project_text(project: Option<&str>) -> (text: String)
    ensures
        text@ == match project {
            Some(name) => "Working on "@ + name@,
            None => "No active project"@,
        },
{
    match project {
        Some(name) => {
            let mut text = String::from_str("Working on ");
            text.append(name);
            text
        },
        None => String::from_str("No active project"),
    }
}

/// The tooltip while time is tracked: the program's name and the time.
pub fn tracking_tooltip(time_text: &str) -> (tooltip: String)
    ensures
        tooltip@ == "Flavortime — "@ + time_text@,
{
    let mut tooltip = String::from_str("Flavortime — ");
    tooltip.append(time_text);
    tooltip
}

/// Whether the refresh asks the time-tracking service first: only a login
/// with an identity has anything to ask for.
pub fn tracks_time(login: TrayLogin) -> (tracks: bool)
    ensures
        tracks == (login == (TrayLogin::Known { mode: Mode::Hackatime, has_slack_id: true })),
{
    match login {
        TrayLogin::Known { mode, has_slack_id } => {
            match mode {
                Mode::Hackatime => has_slack_id,
                _ => false,
            }
        },
        TrayLogin::Starting => false,
    }
}

/// The texts for a login that tracks no time, by the reason why. A login
/// through the accrual service counts as disconnected here.
pub open spec fn idle_texts(login: TrayLogin) -> (Seq<char>, Seq<char>) {
    match login {
        TrayLogin::Starting => ("Starting Flavortime..."@, "Loading status..."@),
        TrayLogin::Known { mode: Mode::Adult, .. } => (
            "Adult mode (no Hackatime)"@,
            "No active project"@,
        ),
        TrayLogin::Known { mode: Mode::Hackatime, .. } => (
            "Flavortime disconnected"@,
            "Open Flavortime to reconnect"@,
        ),
        TrayLogin::Known { mode: Mode::SignedOut, .. } => ("Not signed in"@, "No active project"@),
    }
}

/// What the tray says for a login that tracks no time.
pub fn idle_tray(login: TrayLogin) -> (texts: TrayTexts)
    ensures
        texts.time_text@ == idle_texts(login).0,
        texts.project_text@ == idle_texts(login).1,
        texts.tooltip@ == "Flavortime"@,
{
    let (time_text, project_text) = match login {
        TrayLogin::Starting => ("Starting Flavortime...", "Loading status..."),
        TrayLogin::Known { mode, has_slack_id: _ } => {
            match mode {
                Mode::Adult => ("Adult mode (no Hackatime)", "No active project"),
                Mode::Hackatime => ("Flavortime disconnected", "Open Flavortime to reconnect"),
                Mode::SignedOut => ("Not signed in", "No active project"),
            }
        },
    };
    TrayTexts {
        time_text: String::from_str(time_text),
        project_text: String::from_str(project_text),
        tooltip: String::from_str("Flavortime"),
    }
}

/// What the tray says while time is tracked: the remembered texts, and the
/// time in the tooltip as well.
pub fn tracking_tray(last_time_text: &str, last_project_text: &str) -> (texts: TrayTexts)
    ensures
        texts.time_text@ == last_time_text@,
        texts.project_text@ == last_project_text@,
        texts.tooltip@ == "Flavortime — "@ + last_time_text@,
{
    TrayTexts {
        time_text: String::from_str(last_time_text),
        project_text: String::from_str(last_project_text),
        tooltip: tracking_tooltip(last_time_text),
    }
}

/// Seconds until the next refresh: soon while the program is starting, at
/// the regular pace afterwards.
pub fn next_refresh_secs(login: TrayLogin) -> (secs: u64)
    ensures
        secs == if login == TrayLogin::Starting {
            STARTUP_RETRY_SECS
        } else {
            REFRESH_SECS
        },
{
    match login {
        TrayLogin::Starting => STARTUP_RETRY_SECS,
        TrayLogin::Known { .. } => REFRESH_SECS,
    }
}

/// Whether a click on the icon hides the window: it does when the window
/// is in plain sight, and brings the window back otherwise.
pub fn click_hides_window(is_visible: bool, is_minimized: bool) -> (hides: bool)
    ensures
        hides == (is_visible && !is_minimized),
{
    is_visible && !is_minimized
}

} // verus!
