use flavortime::data::config::{Config, Mode, Referral};
use flavortime::data::locale::{rich_presence_text, text_or_default, RichPresenceLocale};
use flavortime::data::runtime::{
    missing_field, required_text, validate_startup_fields, RuntimeFields,
};

fn referral(code: &str, kind: &str) -> Referral {
    Referral { code: code.to_string(), code_type: kind.to_string() }
}

fn with_codes(codes: Vec<Referral>) -> Config {
    let mut config = Config::fresh();
    config.available_referral_codes = codes;
    config
}

#[test]
fn fresh_settings() {
    let config = Config::fresh();
    assert_eq!(config.auth_mode, Mode::SignedOut);
    assert_eq!(config.slack_id, None);
    assert_eq!(config.flavortown_api_key, None);
    assert!(config.available_referral_codes.is_empty());
    assert_eq!(config.selected_referral_code, None);
    assert_eq!(config.custom_referral_code, None);
    assert!(config.show_referral_code);
    assert!(config.show_time_tracking);
    assert!(!config.launch_at_startup);
    assert!(config.app_enabled);
    assert_eq!(config.sharing_active_seconds_total, 0);
}

#[test]
fn load_prefers_primary_then_backup() {
    let mut primary = Config::fresh();
    primary.sharing_active_seconds_total = 1;
    let mut backup = Config::fresh();
    backup.sharing_active_seconds_total = 2;
    assert_eq!(Config::load(Some(primary.clone()), Some(backup.clone())).sharing_active_seconds_total, 1);
    assert_eq!(Config::load(None, Some(backup)).sharing_active_seconds_total, 2);
    assert_eq!(Config::load(None, None).sharing_active_seconds_total, 0);
    assert_eq!(Config::load(Some(primary), None).sharing_active_seconds_total, 1);
}

#[test]
fn reset_restores_defaults() {
    let mut config = with_codes(vec![referral("a", "custom")]);
    config.auth_mode = Mode::Adult;
    config.app_enabled = false;
    config.sharing_active_seconds_total = 99;
    config.reset();
    assert_eq!(config.auth_mode, Mode::SignedOut);
    assert!(config.available_referral_codes.is_empty());
    assert!(config.app_enabled);
    assert_eq!(config.sharing_active_seconds_total, 0);
}

#[test]
fn clearing_the_total_reports_a_change() {
    let mut config = Config::fresh();
    assert!(!config.clear_sharing_total());
    config.sharing_active_seconds_total = 5;
    assert!(config.clear_sharing_total());
    assert_eq!(config.sharing_active_seconds_total, 0);
}

#[test]
fn preferred_code_takes_first_custom() {
    let config = with_codes(vec![
        referral("a", "default"),
        referral("b", "custom"),
        referral("c", "custom"),
    ]);
    assert_eq!(config.preferred_code(), Some("b".to_string()));
    let plain = with_codes(vec![referral("a", "default"), referral("d", "other")]);
    assert_eq!(plain.preferred_code(), Some("a".to_string()));
    assert_eq!(Config::fresh().preferred_code(), None);
}

#[test]
fn valid_selection_is_kept() {
    let mut config = with_codes(vec![referral("a", "default"), referral("b", "custom")]);
    config.selected_referral_code = Some("a".to_string());
    assert!(!config.ensure_selected_code());
    assert_eq!(config.selected_referral_code, Some("a".to_string()));
    assert!(config.has_code(&"b".to_string()));
    assert!(!config.has_code(&"z".to_string()));
}

#[test]
fn invalid_selection_gives_way_to_preferred() {
    let mut config = with_codes(vec![referral("a", "default"), referral("b", "custom")]);
    config.selected_referral_code = Some("gone".to_string());
    assert!(config.ensure_selected_code());
    assert_eq!(config.selected_referral_code, Some("b".to_string()));
    assert!(!config.ensure_selected_code());
}

#[test]
fn selection_without_codes() {
    let mut config = Config::fresh();
    assert!(!config.ensure_selected_code());
    assert_eq!(config.selected_referral_code, None);
    config.selected_referral_code = Some("gone".to_string());
    assert!(config.ensure_selected_code());
    assert_eq!(config.selected_referral_code, None);
}

#[test]
fn missing_selection_is_filled() {
    let mut config = with_codes(vec![referral("a", "default")]);
    assert!(config.ensure_selected_code());
    assert_eq!(config.selected_referral_code, Some("a".to_string()));
}

#[test]
fn display_code_order_of_preference() {
    let mut config = with_codes(vec![referral("a", "default"), referral("b", "custom")]);
    assert_eq!(config.display_code(), Some("b".to_string()));
    config.selected_referral_code = Some("a".to_string());
    assert_eq!(config.display_code(), Some("a".to_string()));
    config.custom_referral_code = Some("  mine ".to_string());
    assert_eq!(config.display_code(), Some("mine".to_string()));
    config.custom_referral_code = Some("   ".to_string());
    assert_eq!(config.display_code(), Some("a".to_string()));
    config.show_referral_code = false;
    assert_eq!(config.display_code(), None);
    assert_eq!(Config::fresh().display_code(), None);
}

#[test]
fn flavortown_login_sets_identity() {
    let mut config = Config::fresh();
    config.show_time_tracking = false;
    config.selected_referral_code = Some("old".to_string());
    config.apply_flavortown_login(
        "key".to_string(),
        "U123".to_string(),
        vec![referral("a", "default"), referral("b", "custom")],
    );
    assert_eq!(config.auth_mode, Mode::Hackatime);
    assert_eq!(config.flavortown_api_key, Some("key".to_string()));
    assert_eq!(config.slack_id, Some("U123".to_string()));
    assert_eq!(config.available_referral_codes.len(), 2);
    assert!(config.show_time_tracking);
    assert_eq!(config.selected_referral_code, Some("b".to_string()));
}

#[test]
fn adult_login_drops_identity() {
    let mut config = with_codes(vec![referral("a", "default")]);
    config.slack_id = Some("U1".to_string());
    config.flavortown_api_key = Some("k".to_string());
    config.selected_referral_code = Some("a".to_string());
    config.custom_referral_code = Some("mine".to_string());
    config.apply_adult_login();
    assert_eq!(config.auth_mode, Mode::Adult);
    assert_eq!(config.slack_id, None);
    assert_eq!(config.flavortown_api_key, None);
    assert!(config.available_referral_codes.is_empty());
    assert_eq!(config.selected_referral_code, None);
    assert!(!config.show_time_tracking);
    assert_eq!(config.custom_referral_code, Some("mine".to_string()));
}

#[test]
fn autostart_is_reconciled() {
    let mut config = Config::fresh();
    assert!(!config.reconcile_autostart(None));
    assert!(!config.reconcile_autostart(Some(false)));
    assert!(config.reconcile_autostart(Some(true)));
    assert!(config.launch_at_startup);
}

#[test]
fn built_in_texts() {
    let text = rich_presence_text(RichPresenceLocale::empty());
    assert_eq!(text.details_project_prefix, "Project: ");
    assert_eq!(text.details_idle, "Flavortown");
    assert_eq!(text.brand_label, "Flavortown");
    assert_eq!(text.referral_button, "Sign up");
    assert_eq!(text.referral_host, "flavortown.hackclub.com");
    assert_eq!(text.time_today_prefix, "Today: ");
    assert_eq!(text.time_logged_suffix, " logged");
    assert_eq!(
        text.status_tagline,
        "Work on your personal projects, get rewarded with prizes. For teens ages <19"
    );
}

#[test]
fn locale_overrides_built_in_texts() {
    let mut locale = RichPresenceLocale::empty();
    locale.details_idle = Some("Idle".to_string());
    locale.referral_button = Some("Join".to_string());
    let text = rich_presence_text(locale);
    assert_eq!(text.details_idle, "Idle");
    assert_eq!(text.referral_button, "Join");
    assert_eq!(text.brand_label, "Flavortown");
    assert_eq!(text_or_default(None, "d"), "d");
    assert_eq!(text_or_default(Some("v".to_string()), "d"), "v");
}

fn fields() -> RuntimeFields {
    RuntimeFields {
        hackatime_base_url: Some(" https://h ".to_string()),
        pyramid_base_url: Some("https://p".to_string()),
        flavortown_base_url: Some("https://f".to_string()),
        flavortown_campaign_slug: Some("slug".to_string()),
        discord_client_id: Some(99),
    }
}

#[test]
fn startup_fields_are_trimmed() {
    let runtime = validate_startup_fields(&fields()).expect("valid");
    assert_eq!(runtime.hackatime_base_url, "https://h");
    assert_eq!(runtime.pyramid_base_url, "https://p");
    assert_eq!(runtime.flavortown_base_url, "https://f");
    assert_eq!(runtime.flavortown_campaign_slug, "slug");
    assert_eq!(runtime.discord_client_id, 99);
}

#[test]
fn first_missing_field_is_named() {
    let mut parsed = fields();
    parsed.pyramid_base_url = Some("  ".to_string());
    parsed.discord_client_id = None;
    assert_eq!(
        validate_startup_fields(&parsed).err(),
        Some("Missing required field: pyramid_base_url".to_string())
    );
    let mut parsed = fields();
    parsed.discord_client_id = None;
    assert_eq!(
        validate_startup_fields(&parsed).err(),
        Some("Missing required field: discord_client_id".to_string())
    );
    let mut parsed = fields();
    parsed.hackatime_base_url = None;
    assert_eq!(
        validate_startup_fields(&parsed).err(),
        Some("Missing required field: hackatime_base_url".to_string())
    );
}

#[test]
fn required_text_rules() {
    assert_eq!(required_text(&Some(" a ".to_string()), "n"), Ok("a".to_string()));
    assert_eq!(required_text(&None, "n"), Err("Missing required field: n".to_string()));
    assert_eq!(required_text(&Some("".to_string()), "n"), Err(missing_field("n")));
}
