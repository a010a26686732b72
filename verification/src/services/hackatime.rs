//! The time-tracking service: which project was worked on last, the window
//! that is asked for, and the address of the request.
use crate::external::{
    format_rfc3339, parse_rfc3339, rfc3339_of_timestamp, rfc3339_timestamp, url_encode,
    url_encoded,
};
use crate::text::{is_blank, str_view, text_view, trim, trimmed};
use vstd::prelude::*;

verus! {

/// Seconds in the window that is asked for.
pub const WINDOW_SECS: i64 = 86_400;

/// One project as the service reports it.
#[derive(Clone, Debug)]
pub struct ProjectDetails {
    pub name: String,
    pub last_heartbeat: Option<String>,
    pub most_recent_heartbeat: Option<String>,
}

/// Marker for the operations of the time-tracking service.
pub struct Hackatime;

/// The last 24 hours, as the service wants them named.
pub struct RollingWindow {
    pub start_rfc3339: String,
    pub end_rfc3339: String,
    pub start_unix: u64,
}

/// The non-negative instant among the results of parsing.
pub open spec fn timestamp_of(parsed: Option<int>) -> Option<u64> {
    match parsed {
        Some(at) if 0 <= at <= u64::MAX => Some(at as u64),
        _ => None,
    }
}

/// Keeps an instant that lies at or after the epoch.
pub fn timestamp_from_parsed(parsed: Option<i64>) -> (stamp: Option<u64>)
    ensures
        stamp == timestamp_of(
            match parsed {
                Some(at) => Some(at as int),
                None => None,
            },
        ),
{
    match parsed {
        Some(at) => {
            if at >= 0 {
                Some(at as u64)
            } else {
                None
            }
        },
        None => None,
    }
}

/// Reads an RFC 3339 text as seconds since the epoch; `None` for a text that
/// does not parse or that lies before the epoch.
pub fn parse_iso_timestamp(value: &str) -> (stamp: Option<u64>)
    ensures
        stamp == timestamp_of(rfc3339_timestamp(value@)),
{
    timestamp_from_parsed(parse_rfc3339(value))
}

/// The instant an optional text denotes, if it denotes one.
pub open spec fn stamp_of_text(value: Option<String>) -> Option<u64> {
    match value {
        Some(text) => timestamp_of(rfc3339_timestamp(text@)),
        None => None,
    }
}

/// When a project was last worked on: its most recent heartbeat, or its
/// last heartbeat where the former is missing or unreadable.
pub open spec fn project_stamp(project: ProjectDetails) -> Option<u64> {
    match stamp_of_text(project.most_recent_heartbeat) {
        Some(at) => Some(at),
        None => stamp_of_text(project.last_heartbeat),
    }
}

/// When a project was last worked on.
pub fn project_timestamp(project: &ProjectDetails) -> (stamp: Option<u64>)
    ensures
        stamp == project_stamp(*project),
{
    let recent = match &project.most_recent_heartbeat {
        Some(text) => parse_iso_timestamp(text.as_str()),
        None => None,
    };
    match recent {
        Some(at) => Some(at),
        None => match &project.last_heartbeat {
            Some(text) => parse_iso_timestamp(text.as_str()),
            None => None,
        },
    }
}

/// A stamp counts when it is there and not older than the limit.
pub open spec fn qualifies(stamp: Option<u64>, min_timestamp: Option<u64>) -> bool {
    match stamp {
        Some(at) => match min_timestamp {
            Some(min) => at >= min,
            None => true,
        },
        None => false,
    }
}

/// The stamp at `at` counts, none that counts is later, and none after it
/// is as late: of several equally late ones the last wins.
pub open spec fn is_latest(stamps: Seq<Option<u64>>, min_timestamp: Option<u64>, at: int) -> bool {
    &&& 0 <= at < stamps.len()
    &&& qualifies(stamps[at], min_timestamp)
    &&& forall|j: int|
        0 <= j < stamps.len() && qualifies(#[trigger] stamps[j], min_timestamp) ==> stamps[j]->0
            <= stamps[at]->0
    &&& forall|j: int|
        at < j < stamps.len() && qualifies(#[trigger] stamps[j], min_timestamp) ==> stamps[j]->0
            < stamps[at]->0
}

/// Finds the position of the latest stamp that counts; `None` when none
/// counts.
pub fn latest_of(stamps: &Vec<Option<u64>>, min_timestamp: Option<u64>) -> (found: Option<usize>)
    ensures
        match found {
            Some(at) => is_latest(stamps@, min_timestamp, at as int),
            None => forall|j: int|
                0 <= j < stamps@.len() ==> !qualifies(#[trigger] stamps@[j], min_timestamp),
        },
{
    let n: usize = stamps.len();
    let mut found: Option<(usize, u64)> = None;
    let mut at: usize = 0;
    while at < n
        invariant
            n == stamps@.len(),
            at <= n,
            match found {
                Some((best, latest)) => {
                    &&& best < at
                    &&& stamps@[best as int] == Some(latest)
                    &&& qualifies(stamps@[best as int], min_timestamp)
                    &&& forall|j: int|
                        0 <= j < at && qualifies(#[trigger] stamps@[j], min_timestamp)
                            ==> stamps@[j]->0 <= latest
                    &&& forall|j: int|
                        best < j < at && qualifies(#[trigger] stamps@[j], min_timestamp)
                            ==> stamps@[j]->0 < latest
                },
                None => forall|j: int|
                    0 <= j < at ==> !qualifies(#[trigger] stamps@[j], min_timestamp),
            },
        decreases n - at,
    {
        match stamps[at] {
            Some(stamp) => {
                let recent_enough = match min_timestamp {
                    Some(min) => stamp >= min,
                    None => true,
                };
                let as_late = match found {
                    Some((_, latest)) => stamp >= latest,
                    None => true,
                };
                if recent_enough && as_late {
                    found = Some((at, stamp));
                }
            },
            None => {},
        }
        at += 1;
    }
    match found {
        Some((best, _)) => Some(best),
        None => None,
    }
}

/// The stamps of all projects, in their order.
pub open spec fn project_stamps(projects: Seq<ProjectDetails>) -> Seq<Option<u64>> {
    Seq::new(projects.len(), |i: int| project_stamp(projects[i]))
}

/// The project that was worked on last, with the time of that work. Only
/// projects with a readable time at or after `min_timestamp` count; of
/// several with the same time the last one listed wins.
pub fn latest_project<'a>(projects: &'a [ProjectDetails], min_timestamp: Option<u64>) -> (latest:
    Option<(&'a str, u64)>)
    ensures
        match latest {
            Some((name, stamp)) => exists|at: int|
                {
                    &&& #[trigger] is_latest(project_stamps(projects@), min_timestamp, at)
                    &&& name@ == projects@[at].name@
                    &&& Some(stamp) == project_stamp(projects@[at])
                },
            None => forall|j: int|
                0 <= j < projects@.len() ==> !qualifies(
                    project_stamp(#[trigger] projects@[j]),
                    min_timestamp,
                ),
        },
{
    let n: usize = projects.len();
    let mut stamps: Vec<Option<u64>> = Vec::new();
    let mut at: usize = 0;
    while at < n
        invariant
            n == projects@.len(),
            at <= n,
            stamps@.len() == at,
            forall|j: int| 0 <= j < at ==> #[trigger] stamps@[j] == project_stamp(projects@[j]),
        decreases n - at,
    {
        stamps.push(project_timestamp(&projects[at]));
        at += 1;
    }
    proof {
        assert(stamps@ =~= project_stamps(projects@));
    }
    match latest_of(&stamps, min_timestamp) {
        Some(best) => {
            match stamps[best] {
                Some(stamp) => {
                    proof {
                        assert(is_latest(project_stamps(projects@), min_timestamp, best as int));
                    }
                    Some((projects[best].name.as_str(), stamp))
                },
                None => None,
            }
        },
        None => {
            proof {
                assert forall|j: int| 0 <= j < projects@.len() implies !qualifies(
                    project_stamp(#[trigger] projects@[j]),
                    min_timestamp,
                ) by {
                    assert(stamps@[j] == project_stamp(projects@[j]));
                }
            }
            None
        },
    }
}

/// The start of a window in seconds since the epoch, held at zero before
/// the epoch.
pub open spec fn start_unix_of(start: int) -> u64 {
    if 0 <= start <= u64::MAX {
        start as u64
    } else {
        0
    }
}

/// The window that starts at `start`, from the texts of its two ends: the
/// texts and the start in seconds since the epoch. `None` where an end has
/// no text.
pub open spec fn window_of(
    start: int,
    start_text: Option<Seq<char>>,
    end_text: Option<Seq<char>>,
) -> Option<(Seq<char>, Seq<char>, u64)> {
    match (start_text, end_text) {
        (Some(from), Some(to)) => Some((from, to, start_unix_of(start))),
        _ => None,
    }
}

/// The parts of a window, for comparison.
pub open spec fn window_view(window: Option<RollingWindow>) -> Option<(Seq<char>, Seq<char>, u64)> {
    match window {
        Some(w) => Some((w.start_rfc3339@, w.end_rfc3339@, w.start_unix)),
        None => None,
    }
}

/// Puts a window together from its start and the texts of its two ends.
pub fn window_from(start: i64, start_text: Option<String>, end_text: Option<String>) -> (window:
    Option<RollingWindow>)
    ensures
        window_view(window) == window_of(start as int, text_view(start_text), text_view(end_text)),
{
    match start_text {
        Some(start_rfc3339) => match end_text {
            Some(end_rfc3339) => {
                let start_unix: u64 = if start >= 0 {
                    start as u64
                } else {
                    0
                };
                Some(RollingWindow { start_rfc3339, end_rfc3339, start_unix })
            },
            None => None,
        },
        None => None,
    }
}

/// The 24 hours that end at `now`, given in seconds since the epoch. `None`
/// where the calendar cannot name one of the two ends.
pub fn rolling_24h_window(now: i64) -> (window: Option<RollingWindow>)
    ensures
        window_view(window) == if now - WINDOW_SECS >= i64::MIN {
            window_of(
                now - WINDOW_SECS,
                rfc3339_of_timestamp(now - WINDOW_SECS),
                rfc3339_of_timestamp(now as int),
            )
        } else {
            None
        },
{
    if now < i64::MIN + WINDOW_SECS {
        return None;
    }
    let start: i64 = now - WINDOW_SECS;
    let start_text = format_rfc3339(start);
    let end_text = format_rfc3339(now);
    window_from(start, start_text, end_text)
}

/// What goes wrong when the user's identity is missing.
pub open spec fn missing_slack_id() -> Seq<char> {
    "Missing Slack ID"@
}

/// The two query entries that carry one end of the window.
pub open spec fn date_query(first: Seq<char>, second: Seq<char>, value: Seq<char>) -> Seq<char> {
    first + url_encoded(value) + "&"@ + second + url_encoded(value)
}

/// The query of the details request: the start under two names, then the
/// end under two names, each only where it is given and not blank.
pub open spec fn details_query(start_date: Option<Seq<char>>, end_date: Option<Seq<char>>) -> Seq<
    char,
> {
    let start = match start_date {
        Some(value) if !is_blank(value) => Some(date_query("start_date="@, "since="@, value)),
        _ => None,
    };
    let end = match end_date {
        Some(value) if !is_blank(value) => Some(date_query("end_date="@, "until="@, value)),
        _ => None,
    };
    match (start, end) {
        (Some(s), Some(e)) => "?"@ + s + "&"@ + e,
        (Some(s), None) => "?"@ + s,
        (None, Some(e)) => "?"@ + e,
        (None, None) => Seq::empty(),
    }
}

/// The address of the details request for a user.
pub open spec fn details_url(
    base: Seq<char>,
    username: Seq<char>,
    start_date: Option<Seq<char>>,
    end_date: Option<Seq<char>>,
) -> Seq<char> {
    base + "/api/v1/users/"@ + url_encoded(trimmed(username)) + "/projects/details"@
        + details_query(start_date, end_date)
}

/// Appends the two query entries for one end of the window.
fn push_date_query(url: &mut String, first: &str, second: &str, value: &str)
    ensures
        final(url)@ == old(url)@ + date_query(first@, second@, value@),
{
    let encoded = url_encode(value);
    let ghost before = url@;
    url.append(first);
    url.append(encoded.as_str());
    url.append("&");
    url.append(second);
    url.append(encoded.as_str());
    proof {
        assert(url@ =~= before + date_query(first@, second@, value@));
    }
}

impl Hackatime {
    /// Builds the address of the details request. Fails when the user name
    /// is blank.
    pub fn projects_details_url(
        base: &str,
        username: &str,
        start_date: Option<&str>,
        end_date: Option<&str>,
    ) -> (url: Result<String, String>)
        ensures
            is_blank(username@) ==> url is Err && url->Err_0@ == missing_slack_id(),
            !is_blank(username@) ==> url is Ok && url->Ok_0@ == details_url(
                base@,
                username@,
                str_view(start_date),
                str_view(end_date),
            ),
    {
        let username = trim(username);
        if username.unicode_len() == 0 {
            return Err(String::from_str("Missing Slack ID"));
        }
        let mut url = String::from_str(base);
        url.append("/api/v1/users/");
        url.append(url_encode(username).as_str());
        url.append("/projects/details");
        let ghost stem = url@;
        let mut has_query = false;
        match start_date {
            Some(value) => {
                if trim(value).unicode_len() != 0 {
                    url.append("?");
                    push_date_query(&mut url, "start_date=", "since=", value);
                    has_query = true;
                }
            },
            None => {},
        }
        let ghost middle = url@;
        match end_date {
            Some(value) => {
                if trim(value).unicode_len() != 0 {
                    if has_query {
                        url.append("&");
                    } else {
                        url.append("?");
                    }
                    push_date_query(&mut url, "end_date=", "until=", value);
                }
            },
            None => {},
        }
        proof {
            assert(url@ =~= stem + details_query(str_view(start_date), str_view(end_date)));
        }
        Ok(url)
    }
}

} // verus!
