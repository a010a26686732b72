use flavortime::data::config::Mode;
use flavortime::tray::{
    click_hides_window, format_hours, idle_tray, next_refresh_secs, project_text,
    reset_status_texts, tracking_tooltip, tracking_tray, tracks_time, TrayLogin,
};

#[test]
fn time_logged_today() {
    assert_eq!(format_hours(0), "0m today");
    assert_eq!(format_hours(59), "59m today");
    assert_eq!(format_hours(60), "1h 0m today");
    assert_eq!(format_hours(135), "2h 15m today");
}

#[test]
fn remembered_texts_are_reset() {
    let mut time = "3h 2m today".to_string();
    let mut project = "Working on Widget".to_string();
    reset_status_texts(&mut time, &mut project);
    assert_eq!(time, "No data yet");
    assert_eq!(project, "No active project");
}

#[test]
fn project_lines() {
    assert_eq!(project_text(Some("Widget")), "Working on Widget");
    assert_eq!(project_text(None), "No active project");
    assert_eq!(tracking_tooltip("5m today"), "Flavortime — 5m today");
}

#[test]
fn only_an_identified_login_tracks_time() {
    assert!(tracks_time(TrayLogin::Known { mode: Mode::Hackatime, has_slack_id: true }));
    assert!(!tracks_time(TrayLogin::Known { mode: Mode::Hackatime, has_slack_id: false }));
    assert!(!tracks_time(TrayLogin::Known { mode: Mode::Adult, has_slack_id: true }));
    assert!(!tracks_time(TrayLogin::Known { mode: Mode::SignedOut, has_slack_id: false }));
    assert!(!tracks_time(TrayLogin::Starting));
}

#[test]
fn idle_tray_texts() {
    let starting = idle_tray(TrayLogin::Starting);
    assert_eq!(starting.time_text, "Starting Flavortime...");
    assert_eq!(starting.project_text, "Loading status...");
    assert_eq!(starting.tooltip, "Flavortime");
    let adult = idle_tray(TrayLogin::Known { mode: Mode::Adult, has_slack_id: false });
    assert_eq!(adult.time_text, "Adult mode (no Hackatime)");
    assert_eq!(adult.project_text, "No active project");
    let lost = idle_tray(TrayLogin::Known { mode: Mode::Hackatime, has_slack_id: false });
    assert_eq!(lost.time_text, "Flavortime disconnected");
    assert_eq!(lost.project_text, "Open Flavortime to reconnect");
    let out = idle_tray(TrayLogin::Known { mode: Mode::SignedOut, has_slack_id: false });
    assert_eq!(out.time_text, "Not signed in");
    assert_eq!(out.project_text, "No active project");
    assert_eq!(out.tooltip, "Flavortime");
}

#[test]
fn tracking_tray_texts() {
    let texts = tracking_tray("1h 5m today", "Working on Widget");
    assert_eq!(texts.time_text, "1h 5m today");
    assert_eq!(texts.project_text, "Working on Widget");
    assert_eq!(texts.tooltip, "Flavortime — 1h 5m today");
}

#[test]
fn refresh_pace_and_clicks() {
    assert_eq!(next_refresh_secs(TrayLogin::Starting), 2);
    assert_eq!(next_refresh_secs(TrayLogin::Known { mode: Mode::Adult, has_slack_id: false }), 20);
    assert!(click_hides_window(true, false));
    assert!(!click_hides_window(true, true));
    assert!(!click_hides_window(false, false));
}
