//! Accrual of shared seconds and the heartbeat protocol that reports them.
//!
//! The accrual tracker credits the time between two polls, capped per tick,
//! while the sharing session is active. The heartbeat protocol is a small
//! state machine: each step names the one remote call to make next, and the
//! reply to that call is handed back to get the following step.
use crate::elapsed_between;
use crate::seconds_since;
use crate::services::flavortown::HeartbeatOutcome;
use crate::text::{is_blank, text_view, trim};
use vstd::prelude::*;

verus! {

/// Most seconds one poll can credit, whatever the clock says.
pub const MAX_TICK_SECS: u64 = 120;

/// Seconds without tracked activity after which the user counts as idle.
pub const IDLE_AFTER_SECS: u64 = 180;

/// The sharing session: the seconds credited so far, the time of the last
/// poll, and the fingerprint under which heartbeats are sent.
pub struct SharingSession {
    pub accrued_seconds: u64,
    pub last_tick: Option<u64>,
    pub fingerprint: Option<String>,
}

/// What one poll did to the total.
#[derive(Clone, Copy, Debug, PartialEq, Eq)]
pub struct Accrual {
    /// The total after the poll.
    pub total: u64,
    /// Whether the total grew, so that it must be persisted.
    pub changed: bool,
}

/// The seconds one poll credits: the gap since the last poll, capped, and
/// only while the session is active; nothing on the first poll.
pub open spec fn tick_credit(last_tick: Option<u64>, now: u64, session_active: bool) -> u64 {
    match last_tick {
        Some(previous) if session_active => if elapsed_between(now, previous) < MAX_TICK_SECS {
            elapsed_between(now, previous)
        } else {
            MAX_TICK_SECS
        },
        _ => 0,
    }
}

/// The total after `credit` more seconds, held at the largest value that fits.
pub open spec fn credited(total: u64, credit: u64) -> u64 {
    if total + credit > u64::MAX {
        u64::MAX
    } else {
        (total + credit) as u64
    }
}

/// Whether the session is active: the feature is on, at least one of the two
/// displays is on, the connection is usable and the user is not idle.
pub open spec fn session_active_spec(
    app_enabled: bool,
    show_time_tracking: bool,
    show_referral_code: bool,
    connected: bool,
    idle: bool,
) -> bool {
    app_enabled && (show_time_tracking || show_referral_code) && connected && !idle
}

/// Decides whether the sharing session is active at a poll.
pub fn session_active(
    app_enabled: bool,
    show_time_tracking: bool,
    show_referral_code: bool,
    connected: bool,
    idle: bool,
) -> (active: bool)
    ensures
        active == session_active_spec(
            app_enabled,
            show_time_tracking,
            show_referral_code,
            connected,
            idle,
        ),
{
    let sharing_enabled = app_enabled && (show_time_tracking || show_referral_code);
    sharing_enabled && connected && !idle
}

/// Whether the user is idle at `now`: no tracked activity at all, or the
/// latest one more than the idle span back.
pub fn heartbeat_idle(latest_activity: Option<u64>, now: u64) -> (idle: bool)
    ensures
        idle == match latest_activity {
            Some(at) => elapsed_between(now, at) > IDLE_AFTER_SECS,
            None => true,
        },
{
    match latest_activity {
        Some(at) => seconds_since(now, at) > IDLE_AFTER_SECS,
        None => true,
    }
}

impl SharingSession {
    /// A fresh session: nothing credited, never polled, no fingerprint.
    pub fn new() -> (session: SharingSession)
        ensures
            session.accrued_seconds == 0,
            session.last_tick is None,
            session.fingerprint is None,
    {
        SharingSession { accrued_seconds: 0, last_tick: None, fingerprint: None }
    }

    /// Forgets what was credited and when the last poll was.
    pub fn reset(&mut self)
        ensures
            final(self).accrued_seconds == 0,
            final(self).last_tick is None,
            final(self).fingerprint == old(self).fingerprint,
    {
        self.accrued_seconds = 0;
        self.last_tick = None;
    }

    /// Forgets everything, the fingerprint included, as on logout or a
    /// change of login.
    pub fn clear(&mut self)
        ensures
            final(self).accrued_seconds == 0,
            final(self).last_tick is None,
            final(self).fingerprint is None,
    {
        self.fingerprint = None;
        self.reset();
    }

    /// Takes a newly issued fingerprint into use. What was credited under
    /// the old one is forgotten.
    pub fn rotate(&mut self, fingerprint: String)
        ensures
            final(self).fingerprint == Some(fingerprint),
            final(self).accrued_seconds == 0,
            final(self).last_tick is None,
    {
        self.fingerprint = Some(fingerprint);
        self.reset();
    }
}

/// One poll at `now`: credits the capped gap since the last poll if the
/// session is active, and notes `now` as the last poll either way.
pub fn accumulate_sharing_seconds(
    session: &mut SharingSession,
    now: u64,
    session_active: bool,
) -> (accrual: Accrual)
    ensures
        final(session).last_tick == Some(now),
        final(session).fingerprint == old(session).fingerprint,
        final(session).accrued_seconds == credited(
            old(session).accrued_seconds,
            tick_credit(old(session).last_tick, now, session_active),
        ),
        final(session).accrued_seconds >= old(session).accrued_seconds,
        accrual.total == final(session).accrued_seconds,
        accrual.changed == (tick_credit(old(session).last_tick, now, session_active) > 0),
{
    let mut changed = false;
    match session.last_tick {
        Some(previous) => {
            let gap: u64 = seconds_since(now, previous);
            let elapsed: u64 = if gap < MAX_TICK_SECS {
                gap
            } else {
                MAX_TICK_SECS
            };
            if elapsed > 0 && session_active {
                session.accrued_seconds = if session.accrued_seconds > u64::MAX - elapsed {
                    u64::MAX
                } else {
                    session.accrued_seconds + elapsed
                };
                changed = true;
            }
        },
        None => {},
    }
    session.last_tick = Some(now);
    Accrual { total: session.accrued_seconds, changed }
}

/// Whether a login may report to the service: it must be a login through
/// the service, with an API key that is not blank.
pub open spec fn may_report(hackatime_login: bool, api_key: Option<Seq<char>>) -> bool {
    hackatime_login && match api_key {
        Some(key) => !is_blank(key),
        None => false,
    }
}

/// Decides whether a login may report to the service.
pub fn can_report(hackatime_login: bool, api_key: &Option<String>) -> (can: bool)
    ensures
        can == may_report(hackatime_login, text_view(*api_key)),
{
    hackatime_login && match api_key {
        Some(key) => trim(key.as_str()).unicode_len() != 0,
        None => false,
    }
}

/// Where a heartbeat run stands.
#[derive(Clone, Copy, Debug, PartialEq, Eq)]
pub enum Phase {
    /// Not begun.
    Idle,
    /// Waiting for the first fingerprint.
    Acquiring,
    /// Waiting for the reply to the first heartbeat.
    FirstHeartbeat,
    /// Waiting for the fingerprint that replaces a rejected one.
    Rotating,
    /// Waiting for the reply to the heartbeat sent after the rotation.
    RetriedHeartbeat,
    /// Over, with a count or an error.
    Finished,
}

/// One invocation of the heartbeat protocol.
#[derive(Clone, Copy, Debug, PartialEq, Eq)]
pub struct HeartbeatRun {
    pub phase: Phase,
    /// Heartbeats sent so far in this run.
    pub calls: u8,
    /// The total as it stood when the run began.
    pub seconds_at_start: u64,
}

/// What to do next in a heartbeat run.
pub enum HeartbeatStep {
    /// Ask the service for a new fingerprint.
    CreateFingerprint,
    /// Send a heartbeat with this fingerprint and total.
    SendHeartbeat { fingerprint: String, seconds: u64 },
    /// The run is over: the service counts this many active users.
    Done(u64),
    /// The run is over with an error.
    Failed(String),
}

/// Mathematical value of a [`HeartbeatStep`].
pub ghost enum HeartbeatStepView {
    CreateFingerprint,
    SendHeartbeat { fingerprint: Seq<char>, seconds: u64 },
    Done(u64),
    Failed(Seq<char>),
}

impl View for HeartbeatStep {
    type V = HeartbeatStepView;

    open spec fn view(&self) -> HeartbeatStepView {
        match self {
            HeartbeatStep::CreateFingerprint => HeartbeatStepView::CreateFingerprint,
            HeartbeatStep::SendHeartbeat { fingerprint, seconds } => {
                HeartbeatStepView::SendHeartbeat { fingerprint: fingerprint@, seconds: *seconds }
            },
            HeartbeatStep::Done(count) => HeartbeatStepView::Done(*count),
            HeartbeatStep::Failed(message) => HeartbeatStepView::Failed(message@),
        }
    }
}

/// What came back from the remote call that the last step asked for.
pub enum HeartbeatReply {
    /// The service issued this fingerprint.
    Fingerprint(String),
    /// The service answered a heartbeat.
    Heartbeat(HeartbeatOutcome),
    /// The call failed: no connection, or a status that is neither success
    /// nor "fingerprint unknown".
    Failure(String),
}

/// The kinds of reply that the protocol tells apart.
#[derive(Clone, Copy, Debug, PartialEq, Eq)]
pub enum ReplyKind {
    /// A fingerprint was issued.
    Fingerprint,
    /// A heartbeat was counted.
    Counted,
    /// A heartbeat was refused: the fingerprint is invalid.
    Rejected,
    /// The call failed.
    Failure,
}

impl HeartbeatReply {
    /// The kind of this reply.
    pub open spec fn kind(self) -> ReplyKind {
        match self {
            HeartbeatReply::Fingerprint(_) => ReplyKind::Fingerprint,
            HeartbeatReply::Heartbeat(HeartbeatOutcome::ActiveUsers(_)) => ReplyKind::Counted,
            HeartbeatReply::Heartbeat(HeartbeatOutcome::InvalidSessionId) => ReplyKind::Rejected,
            HeartbeatReply::Failure(_) => ReplyKind::Failure,
        }
    }
}

/// The error of a run whose fingerprint was rejected again after a rotation.
pub open spec fn rejected_after_rotation() -> Seq<char> {
    "Flavortown rejected fingerprint after rotation"@
}

/// The error of a run that was handed a reply it had not asked for.
pub open spec fn reply_out_of_order() -> Seq<char> {
    "Heartbeat reply out of order"@
}

impl HeartbeatRun {
    /// What always holds of a run: the phase tells how many heartbeats were
    /// sent, and there are never more than two.
    pub open spec fn wf(self) -> bool {
        match self.phase {
            Phase::Idle => self.calls == 0,
            Phase::Acquiring => self.calls == 0,
            Phase::FirstHeartbeat => self.calls == 1,
            Phase::Rotating => self.calls == 1,
            Phase::RetriedHeartbeat => self.calls == 2,
            Phase::Finished => self.calls <= 2,
        }
    }

    /// Whether a reply of this kind makes the run send a heartbeat: only a
    /// fingerprint that was asked for does.
    pub open spec fn sends_on(self, kind: ReplyKind) -> bool {
        kind == ReplyKind::Fingerprint && (self.phase == Phase::Acquiring || self.phase
            == Phase::Rotating)
    }

    /// The phase after a reply of this kind. A failed call, a counted
    /// heartbeat, a second rejection and a reply that was not asked for all
    /// end the run.
    pub open spec fn next_phase(self, kind: ReplyKind) -> Phase {
        match (self.phase, kind) {
            (Phase::Acquiring, ReplyKind::Fingerprint) => Phase::FirstHeartbeat,
            (Phase::Rotating, ReplyKind::Fingerprint) => Phase::RetriedHeartbeat,
            (Phase::FirstHeartbeat, ReplyKind::Rejected) => Phase::Rotating,
            _ => Phase::Finished,
        }
    }

    /// How many more replies a run in this phase can take before it is over.
    pub open spec fn replies_left(self) -> nat {
        match self.phase {
            Phase::Idle => 0,
            Phase::Acquiring => 4,
            Phase::FirstHeartbeat => 3,
            Phase::Rotating => 2,
            Phase::RetriedHeartbeat => 1,
            Phase::Finished => 0,
        }
    }

    /// The run after a reply of this kind.
    pub open spec fn after(self, kind: ReplyKind) -> HeartbeatRun {
        HeartbeatRun {
            phase: self.next_phase(kind),
            calls: if !self.sends_on(kind) {
                self.calls
            } else if self.phase == Phase::Acquiring {
                1
            } else {
                2
            },
            seconds_at_start: self.seconds_at_start,
        }
    }

    /// What the run asks for next after `reply`.
    ///
    /// A failed call ends the run with its error. A fingerprint that was
    /// asked for goes out with a heartbeat: the first one with the total as
    /// it stood when the run began, the one after a rotation with a total of
    /// zero. A counted heartbeat ends the run with the count. A rejected
    /// fingerprint is rotated once; a second rejection ends the run with an
    /// error, and so does a reply that was not asked for.
    pub open spec fn step_on(self, reply: HeartbeatReply) -> HeartbeatStepView {
        match reply {
            HeartbeatReply::Failure(message) => HeartbeatStepView::Failed(message@),
            HeartbeatReply::Fingerprint(fingerprint) => match self.phase {
                Phase::Acquiring => HeartbeatStepView::SendHeartbeat {
                    fingerprint: fingerprint@,
                    seconds: self.seconds_at_start,
                },
                Phase::Rotating => HeartbeatStepView::SendHeartbeat {
                    fingerprint: fingerprint@,
                    seconds: 0,
                },
                _ => HeartbeatStepView::Failed(reply_out_of_order()),
            },
            HeartbeatReply::Heartbeat(HeartbeatOutcome::ActiveUsers(count)) => match self.phase {
                Phase::FirstHeartbeat => HeartbeatStepView::Done(count),
                Phase::RetriedHeartbeat => HeartbeatStepView::Done(count),
                _ => HeartbeatStepView::Failed(reply_out_of_order()),
            },
            HeartbeatReply::Heartbeat(HeartbeatOutcome::InvalidSessionId) => match self.phase {
                Phase::FirstHeartbeat => HeartbeatStepView::CreateFingerprint,
                Phase::RetriedHeartbeat => HeartbeatStepView::Failed(rejected_after_rotation()),
                _ => HeartbeatStepView::Failed(reply_out_of_order()),
            },
        }
    }

    /// The session after `reply`: a fingerprint that was asked for is taken
    /// into use, which forgets what was credited; nothing else touches the
    /// session.
    pub open spec fn session_after(
        self,
        reply: HeartbeatReply,
        session: SharingSession,
    ) -> SharingSession {
        match reply {
            HeartbeatReply::Fingerprint(fingerprint) if self.sends_on(ReplyKind::Fingerprint) => {
                SharingSession {
                    accrued_seconds: 0,
                    last_tick: None,
                    fingerprint: Some(fingerprint),
                }
            },
            _ => session,
        }
    }

    /// A run that has not begun.
    pub fn new() -> (run: HeartbeatRun)
        ensures
            run == (HeartbeatRun { phase: Phase::Idle, calls: 0, seconds_at_start: 0 }),
            run.wf(),
    {
        HeartbeatRun { phase: Phase::Idle, calls: 0, seconds_at_start: 0 }
    }

    /// Begins a run. Without a usable login the run is over at once with a
    /// count of zero; with a fingerprint the first heartbeat goes out;
    /// without one a fingerprint is asked for first.
    pub fn begin(
        &mut self,
        hackatime_login: bool,
        api_key: &Option<String>,
        session: &SharingSession,
    ) -> (step: HeartbeatStep)
        ensures
            final(self).seconds_at_start == session.accrued_seconds,
            final(self).wf(),
            !may_report(hackatime_login, text_view(*api_key)) ==> {
                &&& step@ == HeartbeatStepView::Done(0)
                &&& final(self).phase == Phase::Finished
                &&& final(self).calls == 0
            },
            may_report(hackatime_login, text_view(*api_key)) ==> match session.fingerprint {
                Some(fingerprint) => {
                    &&& step@ == (HeartbeatStepView::SendHeartbeat {
                        fingerprint: fingerprint@,
                        seconds: session.accrued_seconds,
                    })
                    &&& final(self).phase == Phase::FirstHeartbeat
                    &&& final(self).calls == 1
                },
                None => {
                    &&& step@ == HeartbeatStepView::CreateFingerprint
                    &&& final(self).phase == Phase::Acquiring
                    &&& final(self).calls == 0
                },
            },
    {
        self.seconds_at_start = session.accrued_seconds;
        self.calls = 0;
        if !can_report(hackatime_login, api_key) {
            self.phase = Phase::Finished;
            return HeartbeatStep::Done(0);
        }
        match &session.fingerprint {
            Some(fingerprint) => {
                self.phase = Phase::FirstHeartbeat;
                self.calls = 1;
                HeartbeatStep::SendHeartbeat {
                    fingerprint: fingerprint.clone(),
                    seconds: session.accrued_seconds,
                }
            },
            None => {
                self.phase = Phase::Acquiring;
                HeartbeatStep::CreateFingerprint
            },
        }
    }

    /// Ends the run with an error.
    fn fail(&mut self, message: String) -> (step: HeartbeatStep)
        ensures
            *final(self) == (HeartbeatRun { phase: Phase::Finished, ..*old(self) }),
            step@ == HeartbeatStepView::Failed(message@),
    {
        self.phase = Phase::Finished;
        HeartbeatStep::Failed(message)
    }

    /// Takes the reply to the call that the last step asked for and says
    /// what to do next.
    pub fn advance(&mut self, reply: HeartbeatReply, session: &mut SharingSession) -> (step:
        HeartbeatStep)
        ensures
            *final(self) == old(self).after(reply.kind()),
            step@ == old(self).step_on(reply),
            *final(session) == old(self).session_after(reply, *old(session)),
            step@ is SendHeartbeat <==> old(self).sends_on(reply.kind()),
            step@ is Done || step@ is Failed <==> final(self).phase == Phase::Finished,
    {
        match reply {
            HeartbeatReply::Failure(message) => self.fail(message),
            HeartbeatReply::Fingerprint(fingerprint) => match self.phase {
                Phase::Acquiring => {
                    let sent = fingerprint.clone();
                    session.rotate(fingerprint);
                    self.phase = Phase::FirstHeartbeat;
                    self.calls = 1;
                    HeartbeatStep::SendHeartbeat {
                        fingerprint: sent,
                        seconds: self.seconds_at_start,
                    }
                },
                Phase::Rotating => {
                    let sent = fingerprint.clone();
                    session.rotate(fingerprint);
                    self.phase = Phase::RetriedHeartbeat;
                    self.calls = 2;
                    HeartbeatStep::SendHeartbeat {
                        fingerprint: sent,
                        seconds: session.accrued_seconds,
                    }
                },
                _ => self.fail(String::from_str("Heartbeat reply out of order")),
            },
            HeartbeatReply::Heartbeat(outcome) => match self.phase {
                Phase::FirstHeartbeat => match outcome {
                    HeartbeatOutcome::ActiveUsers(count) => {
                        self.phase = Phase::Finished;
                        HeartbeatStep::Done(count)
                    },
                    HeartbeatOutcome::InvalidSessionId => {
                        self.phase = Phase::Rotating;
                        HeartbeatStep::CreateFingerprint
                    },
                },
                Phase::RetriedHeartbeat => match outcome {
                    HeartbeatOutcome::ActiveUsers(count) => {
                        self.phase = Phase::Finished;
                        HeartbeatStep::Done(count)
                    },
                    HeartbeatOutcome::InvalidSessionId => self.fail(
                        String::from_str("Flavortown rejected fingerprint after rotation"),
                    ),
                },
                _ => self.fail(String::from_str("Heartbeat reply out of order")),
            },
        }
    }
}

/// A run stays well formed whatever comes back, and every heartbeat it
/// sends is counted: so it never sends more than two.
pub proof fn lemma_at_most_two_heartbeats(run: HeartbeatRun, kind: ReplyKind)
    requires
        run.wf(),
    ensures
        run.after(kind).wf(),
        run.calls <= 2,
        run.after(kind).calls <= 2,
        run.sends_on(kind) ==> run.after(kind).calls == run.calls + 1,
        !run.sends_on(kind) ==> run.after(kind).calls == run.calls,
{
}

/// Every reply brings a run closer to its end: a run takes at most four
/// replies, two of them fingerprints and two of them answers to heartbeats.
pub proof fn lemma_run_comes_to_an_end(run: HeartbeatRun, kind: ReplyKind)
    ensures
        run.replies_left() <= 4,
        run.replies_left() > 0 ==> run.after(kind).replies_left() < run.replies_left(),
        run.replies_left() == 0 ==> run.after(kind).phase == Phase::Finished,
        run.after(kind).phase == Phase::Finished ==> run.after(kind).replies_left() == 0,
{
}

/// After two heartbeats no reply makes the run send a third, and a second
/// rejection ends it with an error.
pub proof fn lemma_no_third_heartbeat(run: HeartbeatRun, reply: HeartbeatReply)
    requires
        run.wf(),
        run.calls == 2,
    ensures
        !run.sends_on(reply.kind()),
        !(run.step_on(reply) is SendHeartbeat),
        !(run.step_on(reply) is CreateFingerprint),
        run.after(reply.kind()).phase == Phase::Finished,
        run.phase == Phase::RetriedHeartbeat && reply.kind() == ReplyKind::Rejected
            ==> run.step_on(reply) == HeartbeatStepView::Failed(rejected_after_rotation()),
{
}

/// A rejected fingerprint is rotated exactly once: the first rejection asks
/// for a new fingerprint, and the heartbeat under the new fingerprint
/// carries a total of zero, the session having been reset.
pub proof fn lemma_rotation_resets_total(
    run: HeartbeatRun,
    fingerprint: String,
    session: SharingSession,
)
    requires
        run.phase == Phase::Rotating,
    ensures
        run.step_on(HeartbeatReply::Fingerprint(fingerprint)) == (HeartbeatStepView::SendHeartbeat {
            fingerprint: fingerprint@,
            seconds: 0,
        }),
        run.session_after(HeartbeatReply::Fingerprint(fingerprint), session).accrued_seconds == 0,
        run.session_after(HeartbeatReply::Fingerprint(fingerprint), session).fingerprint == Some(
            fingerprint,
        ),
{
}

/// Polling never takes from the total, and one poll credits the gap since
/// the last one, at most the cap, and only to an active session.
pub proof fn lemma_credit_is_capped_gap(total: u64, last_tick: Option<u64>, now: u64, active: bool)
    ensures
        credited(total, tick_credit(last_tick, now, active)) >= total,
        tick_credit(last_tick, now, active) <= MAX_TICK_SECS,
        !active || last_tick is None ==> tick_credit(last_tick, now, active) == 0,
        active && last_tick is Some ==> tick_credit(last_tick, now, active) == if elapsed_between(
            now,
            last_tick->Some_0,
        ) < MAX_TICK_SECS {
            elapsed_between(now, last_tick->Some_0)
        } else {
            MAX_TICK_SECS
        },
{
}

} // verus!
