use flavortime::data::locale::{rich_presence_text, RichPresenceLocale, RichPresenceText};
use flavortime::services::intent::IntentSlot;
use flavortime::services::discord::{
    fmt_hours, fmt_hours_short, is_benign_publish_error, is_transient_rpc_error,
    split_hours_minutes, Activity, ActivityUpdate, ConnectionStatus, DiscordPresenceManager,
    Effects, Report, TimeSpent, TransportEvent,
};

fn text_with_tagline(tagline: &str) -> RichPresenceText {
    let mut locale = RichPresenceLocale::empty();
    locale.status_tagline = Some(tagline.to_string());
    rich_presence_text(locale)
}

fn ready_manager(tagline: &str) -> DiscordPresenceManager {
    let mut manager = DiscordPresenceManager::new(7, text_with_tagline(tagline));
    manager.start(1_000);
    manager.on_event(&TransportEvent::Ready, 1_001);
    manager
}

fn published(effects: Effects) -> Activity {
    match effects.activity {
        ActivityUpdate::Publish(activity) => activity,
        _ => panic!("nothing was published"),
    }
}

fn spent(minutes: u32) -> Option<TimeSpent> {
    Some(TimeSpent { positive: true, minutes })
}

#[test]
fn new_manager_is_enabled_and_idle() {
    let manager = DiscordPresenceManager::new(42, text_with_tagline(""));
    assert_eq!(manager.client_id, 42);
    assert_eq!(
        manager.status,
        ConnectionStatus { ready: false, stopping: false, unready_since: 0, last_restart: 0 }
    );
    assert!(manager.state.enabled);
    assert!(!manager.state.activity_published);
    assert_eq!(manager.state.session_start, None);
    assert!(!manager.is_ready());
    assert!(!manager.is_active());
}

#[test]
fn start_stamps_unready_and_connects() {
    let mut manager = DiscordPresenceManager::new(1, text_with_tagline(""));
    let effects = manager.start(500);
    assert!(effects.connect);
    assert!(!effects.shutdown);
    assert!(matches!(effects.activity, ActivityUpdate::Keep));
    assert_eq!(manager.status.unready_since, 500);
    assert!(!manager.status.ready);
}

#[test]
fn ready_event_clears_bookkeeping() {
    let mut manager = DiscordPresenceManager::new(1, text_with_tagline(""));
    manager.start(500);
    manager.status.stopping = true;
    let report = manager.on_event(&TransportEvent::Ready, 501);
    assert_eq!(report, Report::Connected);
    assert!(manager.status.ready);
    assert!(!manager.status.stopping);
    assert_eq!(manager.status.unready_since, 0);
}

#[test]
fn disconnect_stamps_only_when_it_was_ready() {
    let mut manager = ready_manager("");
    assert_eq!(manager.on_event(&TransportEvent::Disconnected, 2_000), Report::Disconnected);
    assert!(!manager.status.ready);
    assert_eq!(manager.status.unready_since, 2_000);
    assert_eq!(manager.on_event(&TransportEvent::Disconnected, 2_050), Report::Disconnected);
    assert_eq!(manager.status.unready_since, 2_000);
}

#[test]
fn errors_are_classified() {
    let mut manager = ready_manager("");
    let io = TransportEvent::Error("Io Error: broken pipe".to_string());
    assert_eq!(manager.on_event(&io, 2_000), Report::TransientError);
    assert_eq!(manager.status.unready_since, 2_000);
    let json = TransportEvent::Error("JsonError(missing field `cmd`)".to_string());
    assert_eq!(manager.on_event(&json, 2_001), Report::TransientError);
    let other = TransportEvent::Error("handshake refused".to_string());
    assert_eq!(manager.on_event(&other, 2_002), Report::Error);
    manager.status.stopping = true;
    assert_eq!(manager.on_event(&other, 2_003), Report::Silent);
    assert_eq!(manager.on_event(&TransportEvent::Disconnected, 2_004), Report::Silent);
}

#[test]
fn transient_error_shapes() {
    assert!(is_transient_rpc_error("Error parsing Json: eof"));
    assert!(is_transient_rpc_error("x JsonError y"));
    assert!(is_transient_rpc_error("missing field `cmd` at line 1"));
    assert!(!is_transient_rpc_error("Io Error"));
    assert!(!is_transient_rpc_error(""));
    assert!(is_benign_publish_error("Io Error: pipe"));
    assert!(is_benign_publish_error("client not started"));
    assert!(!is_benign_publish_error("rate limited"));
}

#[test]
fn shutdown_finished_clears_stopping() {
    let mut manager = ready_manager("");
    let effects = manager.stop();
    assert!(effects.shutdown);
    assert!(manager.status.stopping);
    assert_eq!(manager.on_event(&TransportEvent::ShutdownFinished, 3_000), Report::Silent);
    assert!(!manager.status.stopping);
}

#[test]
fn stop_is_idempotent_while_stopping() {
    let mut manager = ready_manager("");
    let first = manager.stop();
    assert!(first.shutdown && !first.connect);
    assert!(!manager.status.ready);
    assert_eq!(manager.status.unready_since, 0);
    let second = manager.stop();
    assert!(second.is_none());
    assert!(manager.status.stopping);
}

#[test]
fn recovery_waits_for_unready_threshold() {
    let t: u64 = 10_000;
    let mut manager = ready_manager("");
    manager.on_event(&TransportEvent::Disconnected, t);
    let before = manager.status;
    let early = manager.maybe_recover(t + 17);
    assert!(early.is_none());
    assert_eq!(manager.status, before);
    let due = manager.maybe_recover(t + 18);
    assert!(due.shutdown && due.connect);
    assert_eq!(manager.status.last_restart, t + 18);
    assert_eq!(manager.status.unready_since, t + 18);
    assert!(manager.status.stopping);
    assert!(!manager.status.ready);
}

#[test]
fn recovery_boundary_sweep() {
    for unready_for in 0..40u64 {
        for since_restart in 0..50u64 {
            let now: u64 = 100_000;
            let mut manager = DiscordPresenceManager::new(1, text_with_tagline(""));
            manager.status.unready_since = now - unready_for;
            manager.status.last_restart = now - since_restart;
            let effects = manager.maybe_recover(now);
            let expected = unready_for >= 18 && since_restart >= 25;
            assert_eq!(effects.connect, expected);
            assert_eq!(effects.shutdown, expected);
            if !expected {
                assert_eq!(manager.status.last_restart, now - since_restart);
                assert_eq!(manager.status.unready_since, now - unready_for);
            }
        }
    }
}

#[test]
fn recovery_needs_enabled_unready_and_not_stopping() {
    let mut manager = DiscordPresenceManager::new(1, text_with_tagline(""));
    manager.status.unready_since = 100;
    manager.state.enabled = false;
    assert!(manager.maybe_recover(1_000).is_none());
    manager.state.enabled = true;
    manager.status.stopping = true;
    assert!(manager.maybe_recover(1_000).is_none());
    manager.status.stopping = false;
    manager.status.ready = true;
    assert!(manager.maybe_recover(1_000).is_none());
    manager.status.ready = false;
    manager.status.unready_since = 0;
    assert!(manager.maybe_recover(1_000).is_none());
    manager.status.unready_since = 100;
    assert!(manager.maybe_recover(1_000).connect);
}

#[test]
fn clock_running_backwards_never_restarts() {
    let mut manager = DiscordPresenceManager::new(1, text_with_tagline(""));
    manager.status.unready_since = 5_000;
    assert!(manager.maybe_recover(10).is_none());
}

#[test]
fn reconnect_now_bypasses_thresholds() {
    let mut manager = ready_manager("");
    let effects = manager.reconnect_now(1_002);
    assert!(effects.shutdown && effects.connect);
    assert_eq!(manager.status.last_restart, 1_002);
    assert_eq!(manager.status.unready_since, 1_002);
    assert!(manager.status.stopping);
    let again = manager.reconnect_now(1_003);
    assert!(again.is_none());
    assert_eq!(manager.status.last_restart, 1_002);
}

#[test]
fn force_refresh_respects_disabled_and_stopping() {
    let mut manager = ready_manager("");
    manager.state.enabled = false;
    assert!(manager.force_refresh(1_010).is_none());
    assert!(manager.status.ready);
    manager.state.enabled = true;
    let effects = manager.force_refresh(1_011);
    assert!(effects.shutdown && effects.connect);
    assert!(matches!(effects.activity, ActivityUpdate::Keep));
    assert!(manager.force_refresh(1_012).is_none());
}

#[test]
fn payload_truth_table() {
    for bits in 0..16u32 {
        let tagline = bits & 1 != 0;
        let project = bits & 2 != 0;
        let hours = bits & 4 != 0;
        let button = bits & 8 != 0;
        let mut manager =
            DiscordPresenceManager::new(1, text_with_tagline(if tagline { "Build" } else { "  " }));
        manager.state.project = if project { Some("Widget".to_string()) } else { Some(" ".to_string()) };
        manager.state.hours = if hours {
            spent(5)
        } else {
            Some(TimeSpent { positive: false, minutes: 0 })
        };
        manager.state.show_referral_button = button;
        assert_eq!(manager.has_activity_payload(), tagline || project || hours || button);
    }
}

#[test]
fn payload_is_empty_when_everything_is_absent() {
    let mut manager = DiscordPresenceManager::new(1, text_with_tagline(""));
    assert!(!manager.has_activity_payload());
    manager.state.hours = Some(TimeSpent { positive: true, minutes: 0 });
    assert!(manager.has_activity_payload());
}

#[test]
fn update_composes_project_line_with_time() {
    let mut manager = ready_manager("");
    let effects =
        manager.update(Some("Widget".to_string()), spent(90), None, true, 1_500);
    let activity = published(effects);
    assert_eq!(activity.state, "Project: Widget (1h 30m spent)");
    assert_eq!(activity.details, "Flavortown");
    assert_eq!(activity.large_image, "flavortown_logo");
    assert_eq!(activity.large_text, "Flavortown");
    assert_eq!(activity.small_text, None);
    assert_eq!(activity.small_image, None);
    assert_eq!(activity.start, Some(1_500));
    let button = activity.button.expect("button");
    assert_eq!(button.label, "Sign up");
    assert_eq!(button.url, "https://flavortown.hackclub.com");
    assert_eq!(manager.state.session_start, Some(1_500));
    assert!(manager.state.activity_published);
    assert!(manager.is_active());
}

#[test]
fn update_keeps_an_earlier_session_start() {
    let mut manager = ready_manager("");
    manager.update(Some("Widget".to_string()), None, None, false, 1_500);
    let effects = manager.update(Some("Gadget".to_string()), None, None, false, 1_900);
    let activity = published(effects);
    assert_eq!(activity.state, "Project: Gadget");
    assert_eq!(activity.start, Some(1_500));
    assert!(activity.button.is_none());
}

#[test]
fn update_without_payload_clears_once() {
    let mut manager = ready_manager("");
    manager.update(Some("Widget".to_string()), None, None, false, 1_500);
    let effects = manager.update(None, None, None, false, 1_600);
    assert!(matches!(effects.activity, ActivityUpdate::Clear));
    assert_eq!(manager.state.session_start, None);
    assert!(!manager.state.activity_published);
    let again = manager.refresh_activity(1_601);
    assert!(again.is_none());
}

#[test]
fn tagline_gives_details_and_small_text() {
    let mut manager = ready_manager("  Ship it  ");
    let activity = published(manager.update(None, spent(45), Some(" abc ".to_string()), true, 1_500));
    assert_eq!(activity.details, "Ship it");
    assert_eq!(activity.state, "Flavortown");
    assert_eq!(activity.small_text, Some("Today: 45m logged".to_string()));
    assert_eq!(activity.small_image, Some("flavortown_logo".to_string()));
    assert_eq!(activity.button.expect("button").url, "https://flavortown.hackclub.com/abc");
}

#[test]
fn default_tagline_counts_as_payload() {
    let mut manager = DiscordPresenceManager::new(1, rich_presence_text(RichPresenceLocale::empty()));
    manager.start(10);
    manager.on_event(&TransportEvent::Ready, 11);
    let activity = published(manager.refresh_activity(12));
    assert_eq!(
        activity.details,
        "Work on your personal projects, get rewarded with prizes. For teens ages <19"
    );
    assert_eq!(activity.start, None);
}

#[test]
fn sync_does_nothing_while_unready_or_disabled() {
    let mut manager = DiscordPresenceManager::new(1, text_with_tagline("Build"));
    manager.start(1_000);
    assert!(manager.refresh_activity(1_001).is_none());
    manager.on_event(&TransportEvent::Ready, 1_002);
    manager.state.enabled = false;
    assert!(manager.refresh_activity(1_003).is_none());
    assert!(!manager.is_active());
}

#[test]
fn sync_recovers_before_it_publishes() {
    let mut manager = ready_manager("Build");
    manager.on_event(&TransportEvent::Disconnected, 2_000);
    let effects = manager.refresh_activity(2_030);
    assert!(effects.shutdown && effects.connect);
    assert!(matches!(effects.activity, ActivityUpdate::Keep));
    assert_eq!(manager.status.last_restart, 2_030);
}

#[test]
fn disabling_twice_clears_once() {
    let mut manager = ready_manager("");
    manager.update(Some("Widget".to_string()), None, None, false, 1_500);
    let first = manager.set_enabled(false, 1_600);
    assert!(matches!(first.activity, ActivityUpdate::Clear));
    assert!(!first.shutdown && !first.connect);
    assert_eq!(manager.state.session_start, None);
    assert!(!manager.state.activity_published);
    assert!(!manager.state.enabled);
    let second = manager.set_enabled(false, 1_601);
    assert!(second.is_none());
}

#[test]
fn enabling_resyncs() {
    let mut manager = ready_manager("Build");
    manager.set_enabled(false, 1_100);
    let effects = manager.set_enabled(true, 1_200);
    let activity = published(effects);
    assert_eq!(activity.details, "Build");
    assert!(manager.state.activity_published);
}

#[test]
fn enabling_an_unready_manager_recovers() {
    let mut manager = ready_manager("Build");
    manager.set_enabled(false, 1_100);
    manager.on_event(&TransportEvent::Disconnected, 1_200);
    let effects = manager.set_enabled(true, 1_300);
    assert!(effects.shutdown && effects.connect);
    assert!(matches!(effects.activity, ActivityUpdate::Keep));
}

#[test]
fn short_durations() {
    assert_eq!(fmt_hours_short(0), "0m");
    assert_eq!(fmt_hours_short(59), "59m");
    assert_eq!(fmt_hours_short(60), "1h 0m");
    assert_eq!(fmt_hours_short(90), "1h 30m");
    assert_eq!(fmt_hours_short(6_005), "100h 5m");
    assert_eq!(fmt_hours_short(u32::MAX), "71582788h 15m");
    assert_eq!(split_hours_minutes(135), (2, 15));
}

#[test]
fn logged_durations() {
    let text = text_with_tagline("x");
    assert_eq!(fmt_hours(125, &text), "Today: 2h 5m logged");
    assert_eq!(fmt_hours(7, &text), "Today: 7m logged");
}

#[test]
fn referral_host_falls_back_when_blank() {
    let mut locale = RichPresenceLocale::empty();
    locale.referral_host = Some("   ".to_string());
    locale.status_tagline = Some(String::new());
    let mut manager = DiscordPresenceManager::new(1, rich_presence_text(locale));
    assert_eq!(manager.compose_referral_url(), "https://flavortown.hackclub.com");
    manager.state.referral_code = Some("xyz".to_string());
    assert_eq!(manager.compose_referral_url(), "https://flavortown.hackclub.com/xyz");
    manager.text.referral_host = " example.org ".to_string();
    assert_eq!(manager.compose_referral_url(), "https://example.org/xyz");
}

#[test]
fn tiny_amount_of_time_shows_zero_minutes() {
    let mut manager = ready_manager("");
    let activity = published(manager.update(
        Some(" Widget ".to_string()),
        Some(TimeSpent { positive: true, minutes: 0 }),
        None,
        false,
        5,
    ));
    assert_eq!(activity.state, "Project: Widget (0m spent)");
    assert_eq!(manager.compose_state_line(), "Project: Widget (0m spent)");
}

#[test]
fn one_update_is_in_flight_and_the_latest_waits() {
    let mut manager = ready_manager("");
    let first = manager.update(Some("One".to_string()), None, None, false, 10).activity;
    let second = manager.update(Some("Two".to_string()), None, None, false, 11).activity;
    let third = manager.update(Some("Three".to_string()), None, None, false, 12).activity;
    let mut slot = IntentSlot::new();
    assert!(matches!(slot.submit(ActivityUpdate::Keep), ActivityUpdate::Keep));
    assert!(!slot.in_flight);
    match slot.submit(first) {
        ActivityUpdate::Publish(activity) => assert_eq!(activity.state, "Project: One"),
        _ => panic!("the first update must go at once"),
    }
    assert!(slot.in_flight);
    assert!(matches!(slot.submit(second), ActivityUpdate::Keep));
    assert!(matches!(slot.submit(third), ActivityUpdate::Keep));
    assert!(matches!(slot.submit(ActivityUpdate::Keep), ActivityUpdate::Keep));
    match slot.finished() {
        ActivityUpdate::Publish(activity) => assert_eq!(activity.state, "Project: Three"),
        _ => panic!("the latest update must go next"),
    }
    assert!(slot.in_flight);
    assert!(matches!(slot.finished(), ActivityUpdate::Keep));
    assert!(!slot.in_flight);
    assert!(matches!(slot.submit(ActivityUpdate::Clear), ActivityUpdate::Clear));
    assert!(slot.in_flight);
}
