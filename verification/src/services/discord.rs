//! The presence connection manager: readiness bookkeeping, the recovery
//! schedule and the composition of the published activity.
//!
//! The manager owns no transport. Every operation takes the current time,
//! changes the manager's state and answers with the [`Effects`] the caller
//! must carry out on the transport; what the transport reports comes back as a
//! [`TransportEvent`].
use crate::data::locale::{RichPresenceText, RichPresenceTextView};
use crate::elapsed_between;
use crate::seconds_since;
use crate::text::{
    as_deref, contains, contains_text, decimal, decimal_string, is_blank, non_empty_trimmed,
    non_empty_trimmed_spec, text_view, trim, trimmed,
};
use vstd::prelude::*;

verus! {

/// Seconds a connection must have been unready before it is restarted.
pub const UNREADY_THRESHOLD_SECS: u64 = 18;

/// Seconds that must lie between two forced restarts.
pub const RESTART_COOLDOWN_SECS: u64 = 25;

/// Time spent on a project: whether the reported amount is above zero, and
/// that amount rounded to whole minutes.
#[derive(Clone, Copy, Debug, PartialEq, Eq)]
pub struct TimeSpent {
    pub positive: bool,
    pub minutes: u32,
}

/// What the manager currently wants to show.
pub struct PresenceState {
    pub project: Option<String>,
    pub hours: Option<TimeSpent>,
    pub referral_code: Option<String>,
    pub show_referral_button: bool,
    pub enabled: bool,
    pub session_start: Option<u64>,
    pub activity_published: bool,
}

/// Readiness bookkeeping of the connection. A zero timestamp means "not set".
#[derive(Clone, Copy, Debug, PartialEq, Eq)]
pub struct ConnectionStatus {
    pub ready: bool,
    pub stopping: bool,
    pub unready_since: u64,
    pub last_restart: u64,
}

/// The button offered below the activity.
pub struct Button {
    pub label: String,
    pub url: String,
}

/// The activity handed to the transport for publication.
pub struct Activity {
    pub details: String,
    pub state: String,
    pub large_image: String,
    pub large_text: String,
    pub small_image: Option<String>,
    pub small_text: Option<String>,
    pub start: Option<u64>,
    pub button: Option<Button>,
}

/// Mathematical value of a [`Button`].
pub ghost struct ButtonView {
    pub label: Seq<char>,
    pub url: Seq<char>,
}

/// Mathematical value of an [`Activity`].
pub ghost struct ActivityView {
    pub details: Seq<char>,
    pub state: Seq<char>,
    pub large_image: Seq<char>,
    pub large_text: Seq<char>,
    pub small_image: Option<Seq<char>>,
    pub small_text: Option<Seq<char>>,
    pub start: Option<u64>,
    pub button: Option<ButtonView>,
}

impl View for Button {
    type V = ButtonView;

    open spec fn view(&self) -> ButtonView {
        ButtonView { label: self.label@, url: self.url@ }
    }
}

impl View for Activity {
    type V = ActivityView;

    open spec fn view(&self) -> ActivityView {
        ActivityView {
            details: self.details@,
            state: self.state@,
            large_image: self.large_image@,
            large_text: self.large_text@,
            small_image: text_view(self.small_image),
            small_text: text_view(self.small_text),
            start: self.start,
            button: match self.button {
                Some(button) => Some(button@),
                None => None,
            },
        }
    }
}

/// What is to happen to the published activity.
pub enum ActivityUpdate {
    /// Leave the transport's activity as it is.
    Keep,
    /// Clear the published activity.
    Clear,
    /// Publish this activity.
    Publish(Activity),
}

/// Mathematical value of an [`ActivityUpdate`].
pub ghost enum ActivityUpdateView {
    Keep,
    Clear,
    Publish(ActivityView),
}

impl View for ActivityUpdate {
    type V = ActivityUpdateView;

    open spec fn view(&self) -> ActivityUpdateView {
        match self {
            ActivityUpdate::Keep => ActivityUpdateView::Keep,
            ActivityUpdate::Clear => ActivityUpdateView::Clear,
            ActivityUpdate::Publish(activity) => ActivityUpdateView::Publish(activity@),
        }
    }
}

/// What the caller must do on the transport, in this order: shut the live
/// client down (on a detached worker, reporting
/// [`TransportEvent::ShutdownFinished`] when done), connect a fresh client,
/// then clear or publish the activity.
pub struct Effects {
    pub shutdown: bool,
    pub connect: bool,
    pub activity: ActivityUpdate,
}

/// Mathematical value of [`Effects`].
pub ghost struct EffectsView {
    pub shutdown: bool,
    pub connect: bool,
    pub activity: ActivityUpdateView,
}

impl View for Effects {
    type V = EffectsView;

    open spec fn view(&self) -> EffectsView {
        EffectsView { shutdown: self.shutdown, connect: self.connect, activity: self.activity@ }
    }
}

/// Nothing to do on the transport.
pub open spec fn no_effects() -> EffectsView {
    EffectsView { shutdown: false, connect: false, activity: ActivityUpdateView::Keep }
}

/// Shut the live client down and connect a fresh one.
pub open spec fn restart_effects() -> EffectsView {
    EffectsView { shutdown: true, connect: true, activity: ActivityUpdateView::Keep }
}

impl EffectsView {
    /// These effects and then `next`, as one: a shutdown or a connect of
    /// either, and of the activity what was asked for last.
    pub open spec fn followed_by(self, next: EffectsView) -> EffectsView {
        EffectsView {
            shutdown: self.shutdown || next.shutdown,
            connect: self.connect || next.connect,
            activity: if next.activity is Keep {
                self.activity
            } else {
                next.activity
            },
        }
    }
}

impl Effects {
    /// Folds the effects of two operations, the second made after the
    /// first, into one.
    pub fn followed_by(self, next: Effects) -> (merged: Effects)
        ensures
            merged@ == self@.followed_by(next@),
    {
        let activity = match next.activity {
            ActivityUpdate::Keep => self.activity,
            ActivityUpdate::Clear => ActivityUpdate::Clear,
            ActivityUpdate::Publish(activity) => ActivityUpdate::Publish(activity),
        };
        Effects {
            shutdown: self.shutdown || next.shutdown,
            connect: self.connect || next.connect,
            activity,
        }
    }

    /// Effects that leave the transport alone.
    pub fn none() -> (effects: Effects)
        ensures
            effects@ == no_effects(),
    {
        Effects { shutdown: false, connect: false, activity: ActivityUpdate::Keep }
    }

    /// Whether nothing is to be done.
    pub fn is_none(&self) -> (b: bool)
        ensures
            b == (self@ == no_effects()),
    {
        !self.shutdown && !self.connect && matches!(self.activity, ActivityUpdate::Keep)
    }
}

/// What the transport reports back.
pub enum TransportEvent {
    /// The handshake finished; the connection is usable.
    Ready,
    /// The transport lost its peer.
    Disconnected,
    /// A protocol error, with its diagnostic text.
    Error(String),
    /// The worker that shuts an old client down has finished.
    ShutdownFinished,
}

/// How an event is to be reported to the operator.
#[derive(Clone, Copy, Debug, PartialEq, Eq)]
pub enum Report {
    /// Nothing to report.
    Silent,
    /// The connection came up.
    Connected,
    /// The connection went away while nobody asked for that.
    Disconnected,
    /// A known harmless error; worth a debug line at most.
    TransientError,
    /// An error that deserves attention.
    Error,
}

/// Error texts of the transport that are known to be harmless: malformed or
/// unparsable acknowledgements.
pub open spec fn is_transient_text(event: Seq<char>) -> bool {
    contains_text(event, "Error parsing Json"@) || contains_text(event, "JsonError"@)
        || contains_text(event, "missing field `cmd`"@)
}

/// Whether an error text of the transport is known to be harmless.
pub fn is_transient_rpc_error(event: &str) -> (b: bool)
    ensures
        b == is_transient_text(event@),
{
    contains(event, "Error parsing Json") || contains(event, "JsonError") || contains(
        event,
        "missing field `cmd`",
    )
}

/// Error texts that say no more than "the transport is not up".
pub open spec fn is_benign_publish_text(message: Seq<char>) -> bool {
    contains_text(message, "Io Error"@) || contains_text(message, "not started"@)
}

/// Whether a failed publication needs no report: the transport was simply
/// not up, which the recovery schedule handles.
pub fn is_benign_publish_error(message: &str) -> (b: bool)
    ensures
        b == is_benign_publish_text(message@),
{
    contains(message, "Io Error") || contains(message, "not started")
}

/// Hours and remaining minutes of a duration in whole minutes.
pub fn split_hours_minutes(minutes: u32) -> (parts: (u32, u32))
    ensures
        parts.0 == minutes / 60,
        parts.1 == minutes % 60,
{
    (minutes / 60, minutes % 60)
}

/// A duration in whole minutes as `"<H>h <M>m"`, or `"<M>m"` under an hour.
pub open spec fn short_duration(minutes: nat) -> Seq<char> {
    if minutes / 60 > 0 {
        decimal(minutes / 60) + "h "@ + decimal(minutes % 60) + "m"@
    } else {
        decimal(minutes % 60) + "m"@
    }
}

/// Renders a duration in whole minutes, hours first when there are any.
pub fn fmt_hours_short(minutes: u32) -> (s: String)
    ensures
        s@ == short_duration(minutes as nat),
{
    let (whole, rem) = split_hours_minutes(minutes);
    if whole > 0 {
        let mut s = decimal_string(whole as u64);
        s.append("h ");
        s.append(decimal_string(rem as u64).as_str());
        s.append("m");
        s
    } else {
        let mut s = decimal_string(rem as u64);
        s.append("m");
        s
    }
}

/// The supplementary line: the duration between the "today" prefix and the
/// "logged" suffix.
pub open spec fn logged_duration(minutes: nat, text: RichPresenceTextView) -> Seq<char> {
    text.time_today_prefix + short_duration(minutes) + text.time_logged_suffix
}

/// Renders the supplementary line for a duration in whole minutes.
pub fn fmt_hours(minutes: u32, text: &RichPresenceText) -> (s: String)
    ensures
        s@ == logged_duration(minutes as nat, text@),
{
    let mut s = text.time_today_prefix.clone();
    s.append(fmt_hours_short(minutes).as_str());
    s.append(text.time_logged_suffix.as_str());
    s
}

impl ConnectionStatus {
    /// What always holds of the bookkeeping: a ready connection is neither
    /// stopping nor marked unready.
    pub open spec fn wf(self) -> bool {
        self.ready ==> !self.stopping && self.unready_since == 0
    }

    /// The status after a (re)start at `now`.
    pub open spec fn started(self, now: u64) -> ConnectionStatus {
        ConnectionStatus { ready: false, unready_since: now, ..self }
    }

    /// The status after a stop was asked for.
    pub open spec fn stopped(self) -> ConnectionStatus {
        if self.stopping {
            self
        } else {
            ConnectionStatus { ready: false, stopping: true, unready_since: 0, ..self }
        }
    }

    /// The status after a forced restart at `now`.
    pub open spec fn restarted(self, now: u64) -> ConnectionStatus {
        ConnectionStatus { ready: false, stopping: true, unready_since: now, last_restart: now }
    }

    /// The status after the connection dropped or failed at `now`.
    pub open spec fn dropped(self, now: u64) -> ConnectionStatus {
        if self.ready {
            ConnectionStatus { ready: false, unready_since: now, ..self }
        } else {
            self
        }
    }

    /// The status after the transport reported ready.
    pub open spec fn connected(self) -> ConnectionStatus {
        ConnectionStatus { ready: true, stopping: false, unready_since: 0, ..self }
    }

    /// Whether an unready connection is due for a forced restart at `now`:
    /// it has been unready for the threshold and the last restart lies at
    /// least the cooldown back.
    pub open spec fn recovery_due(self, enabled: bool, now: u64) -> bool {
        &&& enabled
        &&& !self.stopping
        &&& !self.ready
        &&& self.unready_since != 0
        &&& elapsed_between(now, self.unready_since) >= UNREADY_THRESHOLD_SECS
        &&& elapsed_between(now, self.last_restart) >= RESTART_COOLDOWN_SECS
    }
}

/// One manager for one presence client.
pub struct DiscordPresenceManager {
    pub client_id: u64,
    pub status: ConnectionStatus,
    pub state: PresenceState,
    pub text: RichPresenceText,
}

/// Mathematical value of a [`PresenceState`].
pub ghost struct PresenceView {
    pub project: Option<Seq<char>>,
    pub hours: Option<TimeSpent>,
    pub referral_code: Option<Seq<char>>,
    pub show_referral_button: bool,
    pub enabled: bool,
    pub session_start: Option<u64>,
    pub activity_published: bool,
}

impl View for PresenceState {
    type V = PresenceView;

    open spec fn view(&self) -> PresenceView {
        PresenceView {
            project: text_view(self.project),
            hours: self.hours,
            referral_code: text_view(self.referral_code),
            show_referral_button: self.show_referral_button,
            enabled: self.enabled,
            session_start: self.session_start,
            activity_published: self.activity_published,
        }
    }
}

/// Mathematical value of a [`DiscordPresenceManager`]: the state that every
/// contract of the manager speaks of.
pub ghost struct ManagerView {
    pub client_id: u64,
    pub status: ConnectionStatus,
    pub state: PresenceView,
    pub text: RichPresenceTextView,
}

impl View for DiscordPresenceManager {
    type V = ManagerView;

    open spec fn view(&self) -> ManagerView {
        ManagerView {
            client_id: self.client_id,
            status: self.status,
            state: self.state@,
            text: self.text@,
        }
    }
}

impl ManagerView {
    /// A tagline is configured.
    pub open spec fn has_tagline(&self) -> bool {
        !is_blank(self.text.status_tagline)
    }

    /// A project with a name is set.
    pub open spec fn has_project(&self) -> bool {
        non_empty_trimmed_spec(self.state.project) is Some
    }

    /// Time above zero is set.
    pub open spec fn has_hours(&self) -> bool {
        self.state.hours matches Some(spent) && spent.positive
    }

    /// There is something to publish: a tagline, a project, time spent or
    /// the referral button.
    pub open spec fn has_payload(&self) -> bool {
        self.has_tagline() || self.has_project() || self.has_hours()
            || self.state.show_referral_button
    }

    /// What always holds of the presence: a session start is only kept
    /// while there is something to publish.
    pub open spec fn session_anchored(&self) -> bool {
        self.state.session_start is Some ==> self.has_payload()
    }

    /// What always holds of a manager.
    pub open spec fn wf(&self) -> bool {
        self.status.wf() && self.session_anchored()
    }

    /// A forced restart is due at `now`.
    pub open spec fn recovery_due(&self, now: u64) -> bool {
        self.status.recovery_due(self.state.enabled, now)
    }

    /// The host of the referral link.
    pub open spec fn referral_host(&self) -> Seq<char> {
        match non_empty_trimmed_spec(Some(self.text.referral_host)) {
            Some(host) => host,
            None => "flavortown.hackclub.com"@,
        }
    }

    /// The referral link: the host, and the code below it when one is set.
    pub open spec fn referral_url(&self) -> Seq<char> {
        match non_empty_trimmed_spec(self.state.referral_code) {
            Some(code) => "https://"@ + self.referral_host() + "/"@ + code,
            None => "https://"@ + self.referral_host(),
        }
    }

    /// The state line: the project with the time spent on it, the project
    /// alone, or the idle label.
    pub open spec fn state_line(&self) -> Seq<char> {
        match non_empty_trimmed_spec(self.state.project) {
            Some(name) => match self.state.hours {
                Some(spent) if spent.positive => self.text.details_project_prefix + name + " ("@
                    + short_duration(spent.minutes as nat) + " spent)"@,
                _ => self.text.details_project_prefix + name,
            },
            None => self.text.details_idle,
        }
    }

    /// The details line: the tagline, or the idle label without one.
    pub open spec fn details_line(&self) -> Seq<char> {
        if self.has_tagline() {
            trimmed(self.text.status_tagline)
        } else {
            self.text.details_idle
        }
    }

    /// The supplementary line: the time logged, shown beside a tagline only.
    pub open spec fn small_text(&self) -> Option<Seq<char>> {
        match self.state.hours {
            Some(spent) if spent.positive && self.has_tagline() => Some(
                logged_duration(spent.minutes as nat, self.text),
            ),
            _ => None,
        }
    }

    /// The activity that the current state asks to publish.
    pub open spec fn activity(&self) -> ActivityView {
        ActivityView {
            details: self.details_line(),
            state: self.state_line(),
            large_image: "flavortown_logo"@,
            large_text: self.text.brand_label,
            small_image: if self.small_text() is Some {
                Some("flavortown_logo"@)
            } else {
                None
            },
            small_text: self.small_text(),
            start: self.state.session_start,
            button: if self.state.show_referral_button {
                Some(ButtonView { label: self.text.referral_button, url: self.referral_url() })
            } else {
                None
            },
        }
    }

    /// The manager with another connection status.
    pub open spec fn with_status(self, status: ConnectionStatus) -> ManagerView {
        ManagerView { status, ..self }
    }

    /// The manager with the published flag set to `published`.
    pub open spec fn with_published(self, published: bool) -> ManagerView {
        ManagerView {
            state: PresenceView { activity_published: published, ..self.state },
            ..self
        }
    }

    /// The manager after an opportunistic recovery at `now`.
    pub open spec fn recovered(self, now: u64) -> ManagerView {
        if self.recovery_due(now) {
            self.with_status(self.status.restarted(now))
        } else {
            self
        }
    }

    /// What a recovery at `now` asks of the transport.
    pub open spec fn recovery_effects(self, now: u64) -> EffectsView {
        if self.recovery_due(now) {
            restart_effects()
        } else {
            no_effects()
        }
    }

    /// The manager after a synchronisation at `now`.
    pub open spec fn synced(self, now: u64) -> ManagerView {
        if self.recovery_due(now) {
            self.recovered(now)
        } else if !self.state.enabled || !self.status.ready {
            self
        } else {
            self.with_published(self.has_payload())
        }
    }

    /// What a synchronisation at `now` asks of the transport.
    pub open spec fn sync_effects(self, now: u64) -> EffectsView {
        if self.recovery_due(now) {
            restart_effects()
        } else if !self.state.enabled || !self.status.ready {
            no_effects()
        } else if self.has_payload() {
            EffectsView { activity: ActivityUpdateView::Publish(self.activity()), ..no_effects() }
        } else if self.state.activity_published {
            EffectsView { activity: ActivityUpdateView::Clear, ..no_effects() }
        } else {
            no_effects()
        }
    }

    /// The manager with the four presence fields replaced at `now`: the
    /// session start is kept or set while there is a payload and cleared
    /// when there is none.
    pub open spec fn with_presence(
        self,
        project: Option<Seq<char>>,
        hours: Option<TimeSpent>,
        referral: Option<Seq<char>>,
        show_referral_button: bool,
        now: u64,
    ) -> ManagerView {
        let replaced = ManagerView {
            state: PresenceView {
                project,
                hours,
                referral_code: referral,
                show_referral_button,
                ..self.state
            },
            ..self
        };
        let session_start = if replaced.has_payload() {
            match self.state.session_start {
                Some(start) => Some(start),
                None => Some(now),
            }
        } else {
            None
        };
        ManagerView {
            state: PresenceView { session_start, ..replaced.state },
            ..replaced
        }
    }

    /// The manager with publishing switched on or off, before any transport
    /// work.
    pub open spec fn with_enabled(self, enabled: bool) -> ManagerView {
        ManagerView { state: PresenceView { enabled, ..self.state }, ..self }
    }

    /// The manager after publishing was switched off.
    pub open spec fn disabled(self) -> ManagerView {
        ManagerView {
            state: PresenceView {
                enabled: false,
                session_start: None,
                activity_published: false,
                ..self.state
            },
            ..self
        }
    }

    /// What switching off asks of the transport: one clear, if something was
    /// published.
    pub open spec fn disable_effects(self) -> EffectsView {
        if self.state.activity_published {
            EffectsView { activity: ActivityUpdateView::Clear, ..no_effects() }
        } else {
            no_effects()
        }
    }

    /// The manager after publishing was switched on or off at `now`:
    /// switched on it synchronises, switched off it forgets the session and
    /// what was published.
    pub open spec fn toggled(self, enabled: bool, now: u64) -> ManagerView {
        if enabled {
            self.with_enabled(true).synced(now)
        } else {
            self.disabled()
        }
    }

    /// What switching on or off at `now` asks of the transport.
    pub open spec fn toggle_effects(self, enabled: bool, now: u64) -> EffectsView {
        if enabled {
            self.with_enabled(true).sync_effects(now)
        } else {
            self.disable_effects()
        }
    }

    /// A manager that is enabled, not connected and shows nothing.
    pub open spec fn fresh(client_id: u64, text: RichPresenceTextView) -> ManagerView {
        ManagerView {
            client_id,
            status: ConnectionStatus {
                ready: false,
                stopping: false,
                unready_since: 0,
                last_restart: 0,
            },
            state: PresenceView {
                project: None,
                hours: None,
                referral_code: None,
                show_referral_button: false,
                enabled: true,
                session_start: None,
                activity_published: false,
            },
            text,
        }
    }

    /// The manager after an explicit reconnect at `now`.
    pub open spec fn reconnected(self, now: u64) -> ManagerView {
        if self.status.stopping {
            self
        } else {
            self.with_status(self.status.restarted(now))
        }
    }

    /// What an explicit reconnect asks of the transport.
    pub open spec fn reconnect_effects(self) -> EffectsView {
        if self.status.stopping {
            no_effects()
        } else {
            restart_effects()
        }
    }

    /// The manager after a refresh on the user's request at `now`.
    pub open spec fn force_refreshed(self, now: u64) -> ManagerView {
        if self.state.enabled {
            self.reconnected(now)
        } else {
            self
        }
    }

    /// What a refresh on the user's request asks of the transport.
    pub open spec fn force_refresh_effects(self) -> EffectsView {
        if self.state.enabled {
            self.reconnect_effects()
        } else {
            no_effects()
        }
    }

    /// Something is being shown: publishing is on, the connection is usable
    /// and there is a payload.
    pub open spec fn is_active(self) -> bool {
        self.state.enabled && self.status.ready && self.has_payload()
    }

    /// The manager after the transport reported `event` at `now`.
    pub open spec fn after_event(self, event: TransportEvent, now: u64) -> ManagerView {
        match event {
            TransportEvent::Ready => self.with_status(self.status.connected()),
            TransportEvent::Disconnected => self.with_status(self.status.dropped(now)),
            TransportEvent::Error(_) => self.with_status(self.status.dropped(now)),
            TransportEvent::ShutdownFinished => self.with_status(
                ConnectionStatus { stopping: false, ..self.status },
            ),
        }
    }

    /// How `event` is reported: nothing while a stop is under way, known
    /// harmless errors as transient, every other error in full.
    pub open spec fn report_of(self, event: TransportEvent) -> Report {
        match event {
            TransportEvent::Ready => Report::Connected,
            TransportEvent::Disconnected => if self.status.stopping {
                Report::Silent
            } else {
                Report::Disconnected
            },
            TransportEvent::Error(text) => if self.status.stopping {
                Report::Silent
            } else if contains_text(text@, "Io Error"@) || is_transient_text(text@) {
                Report::TransientError
            } else {
                Report::Error
            },
            TransportEvent::ShutdownFinished => Report::Silent,
        }
    }
}

impl DiscordPresenceManager {
    /// A manager for `client_id` that is enabled, not connected and shows
    /// nothing yet.
    pub fn new(client_id: u64, text: RichPresenceText) -> (manager: DiscordPresenceManager)
        ensures
            manager@ == ManagerView::fresh(client_id, text@),
            manager.text == text,
            manager.status.wf(),
    {
        DiscordPresenceManager {
            client_id,
            status: ConnectionStatus {
                ready: false,
                stopping: false,
                unready_since: 0,
                last_restart: 0,
            },
            state: PresenceState {
                project: None,
                hours: None,
                referral_code: None,
                show_referral_button: false,
                enabled: true,
                session_start: None,
                activity_published: false,
            },
            text,
        }
    }

    /// Begins connecting at `now`. The caller must not start a manager that
    /// is already started without stopping it first.
    pub fn start(&mut self, now: u64) -> (effects: Effects)
        ensures
            final(self)@ == old(self)@.with_status(old(self).status.started(now)),
            effects@ == (EffectsView { connect: true, ..no_effects() }),
    {
        self.status.ready = false;
        self.status.unready_since = now;
        Effects { shutdown: false, connect: true, activity: ActivityUpdate::Keep }
    }

    /// Takes in what the transport reported at `now` and says how to report
    /// it.
    pub fn on_event(&mut self, event: &TransportEvent, now: u64) -> (report: Report)
        ensures
            final(self)@ == old(self)@.after_event(*event, now),
            report == old(self)@.report_of(*event),
    {
        match event {
            TransportEvent::Ready => {
                self.status.ready = true;
                self.status.stopping = false;
                self.status.unready_since = 0;
                Report::Connected
            },
            TransportEvent::Disconnected => {
                self.mark_dropped(now);
                if self.status.stopping {
                    Report::Silent
                } else {
                    Report::Disconnected
                }
            },
            TransportEvent::Error(text) => {
                self.mark_dropped(now);
                if self.status.stopping {
                    Report::Silent
                } else if contains(text.as_str(), "Io Error") || is_transient_rpc_error(
                    text.as_str(),
                ) {
                    Report::TransientError
                } else {
                    Report::Error
                }
            },
            TransportEvent::ShutdownFinished => {
                self.status.stopping = false;
                Report::Silent
            },
        }
    }

    /// Notes that the connection is gone, stamping the moment if it had
    /// been ready.
    fn mark_dropped(&mut self, now: u64)
        ensures
            final(self)@ == old(self)@.with_status(old(self).status.dropped(now)),
    {
        let was_ready = self.status.ready;
        self.status.ready = false;
        if was_ready {
            self.status.unready_since = now;
        }
    }

    /// Replaces what is shown and synchronises.
    pub fn update(
        &mut self,
        project: Option<String>,
        hours: Option<TimeSpent>,
        referral: Option<String>,
        show_referral_button: bool,
        now: u64,
    ) -> (effects: Effects)
        ensures
            final(self)@ == old(self)@.with_presence(
                text_view(project),
                hours,
                text_view(referral),
                show_referral_button,
                now,
            ).synced(now),
            effects@ == old(self)@.with_presence(
                text_view(project),
                hours,
                text_view(referral),
                show_referral_button,
                now,
            ).sync_effects(now),
            final(self).state.session_start is Some <==> final(self)@.has_payload(),
    {
        self.state.project = project;
        self.state.hours = hours;
        self.state.referral_code = referral;
        self.state.show_referral_button = show_referral_button;
        if self.has_activity_payload() {
            if self.state.session_start.is_none() {
                self.state.session_start = Some(now);
            }
        } else {
            self.state.session_start = None;
        }
        self.sync(now)
    }

    /// Switches publishing on or off. Switching on recovers and
    /// synchronises; switching off forgets the session start and clears what
    /// was published.
    pub fn set_enabled(&mut self, enabled: bool, now: u64) -> (effects: Effects)
        ensures
            final(self)@ == old(self)@.toggled(enabled, now),
            effects@ == old(self)@.toggle_effects(enabled, now),
    {
        self.state.enabled = enabled;
        if enabled {
            let recovery = self.maybe_recover(now);
            if recovery.is_none() {
                self.sync(now)
            } else {
                // The connection was just restarted and is unready, so
                // there is nothing to synchronise yet.
                recovery
            }
        } else {
            self.state.session_start = None;
            if self.state.activity_published {
                self.state.activity_published = false;
                Effects { shutdown: false, connect: false, activity: ActivityUpdate::Clear }
            } else {
                Effects::none()
            }
        }
    }

    /// Asks for the connection to be shut down. Does nothing while an
    /// earlier stop is still under way.
    pub fn stop(&mut self) -> (effects: Effects)
        ensures
            final(self)@ == old(self)@.with_status(old(self).status.stopped()),
            effects@ == (EffectsView { shutdown: !old(self).status.stopping, ..no_effects() }),
    {
        if self.status.stopping {
            return Effects::none();
        }
        self.status.stopping = true;
        self.status.ready = false;
        self.status.unready_since = 0;
        Effects { shutdown: true, connect: false, activity: ActivityUpdate::Keep }
    }

    /// Whether the connection is usable.
    pub fn is_ready(&self) -> (ready: bool)
        ensures
            ready == self.status.ready,
    {
        self.status.ready
    }

    /// Whether something is being shown: publishing is on, the connection
    /// is usable and there is a payload.
    pub fn is_active(&self) -> (active: bool)
        ensures
            active == self@.is_active(),
    {
        self.state.enabled && self.is_ready() && self.has_activity_payload()
    }

    /// Synchronises what is published with the current state.
    pub fn refresh_activity(&mut self, now: u64) -> (effects: Effects)
        ensures
            final(self)@ == old(self)@.synced(now),
            effects@ == old(self)@.sync_effects(now),
    {
        self.sync(now)
    }

    /// Restarts an unready connection once both thresholds have passed;
    /// otherwise does nothing.
    pub fn maybe_recover(&mut self, now: u64) -> (effects: Effects)
        ensures
            final(self)@ == old(self)@.recovered(now),
            effects@ == old(self)@.recovery_effects(now),
            effects.connect ==> elapsed_between(now, old(self).status.unready_since)
                >= UNREADY_THRESHOLD_SECS && elapsed_between(now, old(self).status.last_restart)
                >= RESTART_COOLDOWN_SECS,
    {
        if !self.state.enabled || self.status.stopping || self.is_ready() {
            return Effects::none();
        }
        let unready_since: u64 = self.status.unready_since;
        if unready_since == 0 {
            return Effects::none();
        }
        if seconds_since(now, unready_since) < UNREADY_THRESHOLD_SECS {
            return Effects::none();
        }
        if seconds_since(now, self.status.last_restart) < RESTART_COOLDOWN_SECS {
            return Effects::none();
        }
        self.status.last_restart = now;
        self.status.unready_since = 0;
        let stopped = self.stop();
        let started = self.start(now);
        // A synchronisation here would find the fresh connection unready
        // and leave everything as it is.
        Effects {
            shutdown: stopped.shutdown,
            connect: started.connect,
            activity: ActivityUpdate::Keep,
        }
    }

    /// Restarts the connection at once, whatever the thresholds say. Does
    /// nothing while a stop is under way.
    pub fn reconnect_now(&mut self, now: u64) -> (effects: Effects)
        ensures
            final(self)@ == old(self)@.reconnected(now),
            effects@ == old(self)@.reconnect_effects(),
    {
        if self.status.stopping {
            return Effects::none();
        }
        self.status.last_restart = now;
        self.status.unready_since = now;
        let stopped = self.stop();
        let started = self.start(now);
        Effects {
            shutdown: stopped.shutdown,
            connect: started.connect,
            activity: ActivityUpdate::Keep,
        }
    }

    /// Reconnects on the user's request, unless publishing is off or a stop
    /// is under way.
    pub fn force_refresh(&mut self, now: u64) -> (effects: Effects)
        ensures
            final(self)@ == old(self)@.force_refreshed(now),
            effects@ == old(self)@.force_refresh_effects(),
    {
        if !self.state.enabled || self.status.stopping {
            return Effects::none();
        }
        // The connection is unready right after the reconnect, so there is
        // nothing to synchronise yet.
        self.reconnect_now(now)
    }

    /// Brings what is published in line with the state: recovers first,
    /// then publishes the payload or clears a stale one.
    pub fn sync(&mut self, now: u64) -> (effects: Effects)
        ensures
            final(self)@ == old(self)@.synced(now),
            effects@ == old(self)@.sync_effects(now),
    {
        let recovery = self.maybe_recover(now);
        if !self.state.enabled || !self.status.ready {
            return recovery;
        }
        if !self.has_activity_payload() {
            if self.state.activity_published {
                self.state.activity_published = false;
                return Effects { shutdown: false, connect: false, activity: ActivityUpdate::Clear };
            }
            return Effects::none();
        }
        let activity = self.compose_activity();
        self.state.activity_published = true;
        Effects { shutdown: false, connect: false, activity: ActivityUpdate::Publish(activity) }
    }

    /// Whether there is anything to publish.
    pub fn has_activity_payload(&self) -> (b: bool)
        ensures
            b == self@.has_payload(),
    {
        let has_tagline = trim(self.text.status_tagline.as_str()).unicode_len() != 0;
        let has_project = non_empty_trimmed(as_deref(&self.state.project)).is_some();
        let has_hours = match self.state.hours {
            Some(spent) => spent.positive,
            None => false,
        };
        let has_referral = self.state.show_referral_button;
        has_tagline || has_project || has_hours || has_referral
    }

    /// Builds the link behind the referral button.
    pub fn compose_referral_url(&self) -> (url: String)
        ensures
            url@ == self@.referral_url(),
    {
        let host = match non_empty_trimmed(Some(self.text.referral_host.as_str())) {
            Some(host) => host,
            None => "flavortown.hackclub.com",
        };
        let mut url = String::from_str("https://");
        url.append(host);
        match non_empty_trimmed(as_deref(&self.state.referral_code)) {
            Some(code) => {
                url.append("/");
                url.append(code);
            },
            None => {},
        }
        url
    }

    /// Builds the state line.
    pub fn compose_state_line(&self) -> (line: String)
        ensures
            line@ == self@.state_line(),
    {
        match non_empty_trimmed(as_deref(&self.state.project)) {
            Some(name) => {
                let mut line = self.text.details_project_prefix.clone();
                line.append(name);
                match self.state.hours {
                    Some(spent) => {
                        if spent.positive {
                            line.append(" (");
                            line.append(fmt_hours_short(spent.minutes).as_str());
                            line.append(" spent)");
                        }
                    },
                    None => {},
                }
                line
            },
            None => self.text.details_idle.clone(),
        }
    }

    /// Builds the activity that the current state asks to publish.
    pub fn compose_activity(&self) -> (activity: Activity)
        ensures
            activity@ == self@.activity(),
    {
        let tagline = trim(self.text.status_tagline.as_str());
        let has_tagline = tagline.unicode_len() != 0;
        let details = if has_tagline {
            String::from_str(tagline)
        } else {
            self.text.details_idle.clone()
        };
        let small_text = match self.state.hours {
            Some(spent) => {
                if spent.positive && has_tagline {
                    Some(fmt_hours(spent.minutes, &self.text))
                } else {
                    None
                }
            },
            None => None,
        };
        let small_image = if small_text.is_some() {
            Some(String::from_str("flavortown_logo"))
        } else {
            None
        };
        let button = if self.state.show_referral_button {
            Some(
                Button {
                    label: self.text.referral_button.clone(),
                    url: self.compose_referral_url(),
                },
            )
        } else {
            None
        };
        Activity {
            details,
            state: self.compose_state_line(),
            large_image: String::from_str("flavortown_logo"),
            large_text: self.text.brand_label.clone(),
            small_image,
            small_text,
            start: self.state.session_start,
            button,
        }
    }
}


/// No restart comes early: whenever the connection has been unready for less
/// than the threshold, or the last restart lies less than the cooldown back,
/// recovery is not due, and the manager and the transport stay untouched.
pub proof fn lemma_recovery_respects_thresholds(manager: ManagerView, now: u64)
    requires
        elapsed_between(now, manager.status.unready_since) < UNREADY_THRESHOLD_SECS
            || elapsed_between(now, manager.status.last_restart) < RESTART_COOLDOWN_SECS,
    ensures
        !manager.recovery_due(now),
        manager.recovered(now) == manager,
        manager.recovery_effects(now) == no_effects(),
        !manager.sync_effects(now).connect,
        !manager.sync_effects(now).shutdown,
{
}

/// A restart is followed by quiet: right after a forced restart no second
/// one is due, and once the old client is gone the next one waits for both
/// thresholds again.
pub proof fn lemma_restart_starts_cooldown(status: ConnectionStatus, now: u64, later: u64)
    ensures
        !status.restarted(now).recovery_due(true, later),
        (ConnectionStatus { stopping: false, ..status.restarted(now) }).recovery_due(true, later)
            ==> later >= now + RESTART_COOLDOWN_SECS,
{
}

/// The payload is empty exactly when the tagline, the project, the time
/// spent and the referral button are all absent.
pub proof fn lemma_payload_empty_iff_all_absent(manager: ManagerView)
    ensures
        !manager.has_payload() <==> (!manager.has_tagline() && !manager.has_project()
            && !manager.has_hours() && !manager.state.show_referral_button),
        manager.has_hours() <==> (manager.state.hours is Some
            && manager.state.hours->Some_0.positive),
        manager.has_project() <==> (manager.state.project is Some && !is_blank(
            manager.state.project->Some_0,
        )),
{
}

/// Switching off is idempotent: the first call clears what was published,
/// a second call right after it changes nothing and asks for no clear.
pub proof fn lemma_disabling_twice_clears_once(manager: ManagerView)
    ensures
        manager.disabled().disabled() == manager.disabled(),
        manager.disabled().disable_effects() == no_effects(),
        manager.disable_effects().activity is Clear <==> manager.state.activity_published,
{
}

/// Every operation and every event keeps a manager well formed: a ready
/// connection is neither stopping nor marked unready, and a session start is
/// kept only while there is a payload. After the presence was replaced, the
/// session start is there exactly when there is a payload.
pub proof fn lemma_manager_stays_well_formed(
    manager: ManagerView,
    event: TransportEvent,
    enabled: bool,
    project: Option<Seq<char>>,
    hours: Option<TimeSpent>,
    referral: Option<Seq<char>>,
    show_referral_button: bool,
    now: u64,
)
    requires
        manager.wf(),
    ensures
        ManagerView::fresh(manager.client_id, manager.text).wf(),
        manager.with_status(manager.status.started(now)).wf(),
        manager.with_status(manager.status.stopped()).wf(),
        manager.recovered(now).wf(),
        manager.reconnected(now).wf(),
        manager.force_refreshed(now).wf(),
        manager.synced(now).wf(),
        manager.toggled(enabled, now).wf(),
        manager.after_event(event, now).wf(),
        manager.with_presence(project, hours, referral, show_referral_button, now).synced(now).wf(),
        manager.with_presence(
            project,
            hours,
            referral,
            show_referral_button,
            now,
        ).state.session_start is Some <==> manager.with_presence(
            project,
            hours,
            referral,
            show_referral_button,
            now,
        ).has_payload(),
{
}

/// Recovering twice in the same instant is recovering once, and a
/// synchronisation includes the recovery: asking for both, in that order,
/// changes nothing about either.
pub proof fn lemma_recovery_is_absorbed(manager: ManagerView, now: u64)
    ensures
        manager.recovered(now).recovered(now) == manager.recovered(now),
        manager.recovered(now).synced(now) == manager.synced(now),
        manager.recovery_effects(now).followed_by(manager.recovered(now).sync_effects(now))
            == manager.sync_effects(now),
        manager.recovery_effects(now).followed_by(manager.recovered(now).recovery_effects(now))
            == manager.recovery_effects(now),
{
}

/// No recovery follows a publication or a clearing: an operation that
/// touches the activity leaves the manager ready or switched off, and
/// neither is ever due for a restart. So effects folded over a chain of
/// synchronisations, switches and recoveries, which put the restart before
/// the activity, keep the order in which things were asked for.
pub proof fn lemma_no_recovery_after_activity(
    manager: ManagerView,
    enabled: bool,
    now: u64,
    later: u64,
)
    ensures
        !(manager.sync_effects(now).activity is Keep) ==> !manager.synced(now).recovery_due(later),
        !(manager.toggle_effects(enabled, now).activity is Keep) ==> !manager.toggled(
            enabled,
            now,
        ).recovery_due(later),
        !(manager.sync_effects(now).activity is Keep) ==> !manager.sync_effects(now).shutdown
            && !manager.sync_effects(now).connect,
{
}

/// Folding effects is associative and has "nothing to do" as its unit, so
/// the effects of a chain of operations can be folded in any grouping.
pub proof fn lemma_effects_fold(first: EffectsView, second: EffectsView, third: EffectsView)
    ensures
        first.followed_by(second).followed_by(third) == first.followed_by(
            second.followed_by(third),
        ),
        first.followed_by(no_effects()) == first,
        no_effects().followed_by(first) == first,
{
}

/// Synchronising publishes exactly when the connection is usable and there
/// is a payload, and afterwards the published flag says so; a stale
/// publication is cleared once.
pub proof fn lemma_sync_follows_payload(manager: ManagerView, now: u64)
    requires
        manager.status.wf(),
    ensures
        manager.sync_effects(now).activity is Publish <==> (manager.state.enabled
            && manager.status.ready && manager.has_payload()),
        manager.sync_effects(now).activity is Clear <==> (manager.state.enabled
            && manager.status.ready && !manager.has_payload()
            && manager.state.activity_published),
        manager.state.enabled && manager.status.ready ==> manager.synced(
            now,
        ).state.activity_published == manager.has_payload(),
        manager.has_payload() == manager.synced(now).has_payload(),
{
}

} // verus!
