//! The operations the user interface asks for, as far as they decide
//! anything: what to report, what to change in the settings, and what to
//! have the presence manager do.
use crate::data::config::{is_available, preferred_of, Config, Mode, Referral};
use crate::data::locale::{RichPresenceText, RichPresenceTextView};
use crate::services::discord::{
    no_effects, DiscordPresenceManager, Effects, EffectsView, ManagerView, TimeSpent,
};
use crate::services::pyramid::referral_views;
use crate::sharing::SharingSession;
use crate::text::{
    as_deref, has_prefix, non_empty_trimmed, non_empty_trimmed_spec, starts_with, text_view, trim,
    trimmed as trimmed_text,
};
use vstd::prelude::*;

verus! {

/// The settings as the user interface shows them.
pub struct Status {
    pub auth_mode: String,
    pub slack_id: Option<String>,
    pub referral_codes: Vec<Referral>,
    pub selected_referral_code: Option<String>,
    pub custom_referral_code: Option<String>,
    pub show_referral_code: bool,
    pub show_time_tracking: bool,
    pub launch_at_startup: bool,
    pub app_enabled: bool,
}

/// The state of the presence connection as the user interface shows it.
#[derive(Clone, Copy, Debug, PartialEq, Eq)]
pub struct DiscordStatus {
    pub connected: bool,
    pub enabled: bool,
    pub active: bool,
    pub flatpak_discord_detected: bool,
}

/// What is known about updates.
#[derive(Clone, Copy, Debug, PartialEq, Eq)]
pub struct UpdaterStatus {
    pub update_available: bool,
    pub dev_mode: bool,
}

/// The name under which a login mode is reported.
pub open spec fn mode_name_text(mode: Mode) -> Seq<char> {
    match mode {
        Mode::SignedOut => "none"@,
        Mode::Hackatime => "hackatime"@,
        Mode::Adult => "adult"@,
    }
}

/// Names a login mode.
pub fn mode_name(mode: &Mode) -> (name: &'static str)
    ensures
        name@ == mode_name_text(*mode),
{
    match mode {
        Mode::SignedOut => "none",
        Mode::Hackatime => "hackatime",
        Mode::Adult => "adult",
    }
}

/// Trims an optional text and drops it when nothing is left.
pub fn trimmed(value: Option<String>) -> (kept: Option<String>)
    ensures
        text_view(kept) == non_empty_trimmed_spec(text_view(value)),
{
    match non_empty_trimmed(as_deref(&value)) {
        Some(text) => Some(String::from_str(text)),
        None => None,
    }
}

/// The value, or the given error where there is none.
pub fn required<T>(value: Option<T>, message: &str) -> (held: Result<T, String>)
    ensures
        match value {
            Some(inner) => held == Ok::<T, String>(inner),
            None => held is Err && held->Err_0@ == message@,
        },
{
    match value {
        Some(inner) => Ok(inner),
        None => Err(String::from_str(message)),
    }
}

/// The API key to log in with, trimmed; a blank key is refused.
pub fn api_key_for_login<'a>(api_key: &'a str) -> (key: Result<&'a str, String>)
    ensures
        match non_empty_trimmed_spec(Some(api_key@)) {
            Some(kept) => key is Ok && key->Ok_0@ == kept,
            None => key is Err && key->Err_0@ == "API key is required"@,
        },
{
    match non_empty_trimmed(Some(api_key)) {
        Some(kept) => Ok(kept),
        None => Err(String::from_str("API key is required")),
    }
}

/// The identity whose time is tracked: there is one only for a login
/// through the accrual service.
pub fn tracked_identity(cfg: &Config) -> (slack_id: Result<String, String>)
    ensures
        match cfg.slack_id {
            Some(id) if cfg.auth_mode == Mode::Hackatime => slack_id is Ok && slack_id->Ok_0@
                == id@,
            _ => slack_id is Err && slack_id->Err_0@ == "Not logged in with Flavortime"@,
        },
{
    match &cfg.slack_id {
        Some(id) => {
            match cfg.auth_mode {
                Mode::Hackatime => Ok(id.clone()),
                _ => Err(String::from_str("Not logged in with Flavortime")),
            }
        },
        None => Err(String::from_str("Not logged in with Flavortime")),
    }
}

/// An address that may be handed to the browser: it begins, once trimmed,
/// with `https://` or `http://`.
pub open spec fn is_web_address(url: Seq<char>) -> bool {
    has_prefix(trimmed_text(url), "https://"@) || has_prefix(trimmed_text(url), "http://"@)
}

/// Checks an address before it is opened in the browser and gives it back
/// trimmed; anything but a web address is refused.
pub fn external_url<'a>(url: &'a str) -> (checked: Result<&'a str, String>)
    ensures
        is_web_address(url@) ==> checked is Ok && checked->Ok_0@ == trimmed_text(url@),
        !is_web_address(url@) ==> checked is Err && checked->Err_0@ == "Invalid URL"@,
{
    let url = trim(url);
    if !(starts_with(url, "https://") || starts_with(url, "http://")) {
        return Err(String::from_str("Invalid URL"));
    }
    Ok(url)
}

/// Puts the connection's state together for the user interface. A disabled
/// program is never reported as active.
pub fn discord_status(
    enabled: bool,
    connected: bool,
    active: bool,
    flatpak_discord_detected: bool,
) -> (status: DiscordStatus)
    ensures
        status == (DiscordStatus {
            connected,
            enabled,
            active: active && enabled,
            flatpak_discord_detected,
        }),
{
    DiscordStatus { connected, enabled, active: active && enabled, flatpak_discord_detected }
}

/// The time to show: what was reported, unless time tracking is hidden.
pub fn visible_hours(show_time_tracking: bool, hours: Option<TimeSpent>) -> (shown: Option<
    TimeSpent,
>)
    ensures
        shown == if show_time_tracking {
            hours
        } else {
            None
        },
{
    if show_time_tracking {
        hours
    } else {
        None
    }
}

/// Decides, when the program is asked to exit, whether to hold the exit
/// back for a last message to the service: the first request is held back,
/// every later one goes through.
pub fn intercept_exit(shutdown_requested: &mut bool) -> (intercept: bool)
    ensures
        *final(shutdown_requested),
        intercept == !*old(shutdown_requested),
{
    if *shutdown_requested {
        false
    } else {
        *shutdown_requested = true;
        true
    }
}

/// A copy of the codes.
fn copy_referrals(codes: &Vec<Referral>) -> (copy: Vec<Referral>)
    ensures
        referral_views(copy@) == referral_views(codes@),
{
    let n: usize = codes.len();
    let mut copy: Vec<Referral> = Vec::new();
    let mut at: usize = 0;
    while at < n
        invariant
            n == codes@.len(),
            at <= n,
            copy@.len() == at,
            forall|j: int|
                0 <= j < at ==> {
                    &&& (#[trigger] copy@[j]).code@ == codes@[j].code@
                    &&& copy@[j].code_type@ == codes@[j].code_type@
                },
        decreases n - at,
    {
        copy.push(
            Referral { code: codes[at].code.clone(), code_type: codes[at].code_type.clone() },
        );
        at += 1;
    }
    proof {
        assert(referral_views(copy@) =~= referral_views(codes@));
    }
    copy
}

/// Brings the settings up to date before they are shown: the autostart
/// setting follows what the system reports, and the selection is made
/// valid. Says whether anything changed, so that it can be saved.
pub fn refresh_status(cfg: &mut Config, autostart: Option<bool>) -> (changed: bool)
    ensures
        final(cfg).launch_at_startup == match autostart {
            Some(reported) => reported,
            None => old(cfg).launch_at_startup,
        },
        old(cfg).selection_valid() ==> {
            final(cfg).selected_referral_code == old(cfg).selected_referral_code
        },
        !old(cfg).selection_valid() ==> {
            text_view(final(cfg).selected_referral_code) == preferred_of(
                old(cfg).available_referral_codes@,
            )
        },
        *final(cfg) == (Config {
            launch_at_startup: final(cfg).launch_at_startup,
            selected_referral_code: final(cfg).selected_referral_code,
            ..*old(cfg)
        }),
        changed == {
            ||| final(cfg).launch_at_startup != old(cfg).launch_at_startup
            ||| text_view(final(cfg).selected_referral_code) != text_view(
                old(cfg).selected_referral_code,
            )
        },
{
    let autostart_changed = cfg.reconcile_autostart(autostart);
    let selection_changed = cfg.ensure_selected_code();
    autostart_changed || selection_changed
}

/// The settings as the user interface shows them.
pub fn get_status(cfg: &Config) -> (status: Status)
    ensures
        status.auth_mode@ == mode_name_text(cfg.auth_mode),
        text_view(status.slack_id) == text_view(cfg.slack_id),
        referral_views(status.referral_codes@) == referral_views(cfg.available_referral_codes@),
        text_view(status.selected_referral_code) == text_view(cfg.selected_referral_code),
        text_view(status.custom_referral_code) == text_view(cfg.custom_referral_code),
        status.show_referral_code == cfg.show_referral_code,
        status.show_time_tracking == cfg.show_time_tracking,
        status.launch_at_startup == cfg.launch_at_startup,
        status.app_enabled == cfg.app_enabled,
{
    Status {
        auth_mode: String::from_str(mode_name(&cfg.auth_mode)),
        slack_id: cfg.slack_id.clone(),
        referral_codes: copy_referrals(&cfg.available_referral_codes),
        selected_referral_code: cfg.selected_referral_code.clone(),
        custom_referral_code: cfg.custom_referral_code.clone(),
        show_referral_code: cfg.show_referral_code,
        show_time_tracking: cfg.show_time_tracking,
        launch_at_startup: cfg.launch_at_startup,
        app_enabled: cfg.app_enabled,
    }
}

/// Mathematical value of the slot that holds the presence manager.
pub open spec fn manager_view(rpc: Option<DiscordPresenceManager>) -> Option<ManagerView> {
    match rpc {
        Some(manager) => Some(manager@),
        None => None,
    }
}

/// The manager in the slot, or a fresh one started at `now`.
pub open spec fn ensured(
    rpc: Option<ManagerView>,
    client_id: u64,
    text: RichPresenceTextView,
    now: u64,
) -> ManagerView {
    match rpc {
        Some(manager) => manager,
        None => {
            let fresh = ManagerView::fresh(client_id, text);
            fresh.with_status(fresh.status.started(now))
        },
    }
}

/// What filling the slot asks of the transport: a connect for a fresh
/// manager, nothing for one that was there.
pub open spec fn ensure_effects(rpc: Option<ManagerView>) -> EffectsView {
    match rpc {
        Some(_) => no_effects(),
        None => EffectsView { connect: true, ..no_effects() },
    }
}

/// Makes sure there is a manager: an empty slot gets a fresh one, started
/// at `now`.
pub fn ensure_discord_client(
    rpc: &mut Option<DiscordPresenceManager>,
    client_id: u64,
    text: &RichPresenceText,
    now: u64,
) -> (effects: Effects)
    ensures
        manager_view(*final(rpc)) == Some(ensured(manager_view(*old(rpc)), client_id, text@, now)),
        effects@ == ensure_effects(manager_view(*old(rpc))),
{
    if rpc.is_none() {
        let mut client = DiscordPresenceManager::new(client_id, text.duplicate());
        let effects = client.start(now);
        *rpc = Some(client);
        effects
    } else {
        Effects::none()
    }
}

/// The slot after a manager was made sure of, which happens only while the
/// program is enabled.
pub open spec fn maybe_ensured(
    rpc: Option<ManagerView>,
    enabled: bool,
    client_id: u64,
    text: RichPresenceTextView,
    now: u64,
) -> Option<ManagerView> {
    if enabled {
        Some(ensured(rpc, client_id, text, now))
    } else {
        rpc
    }
}

/// What [`maybe_ensured`] asks of the transport.
pub open spec fn maybe_ensure_effects(rpc: Option<ManagerView>, enabled: bool) -> EffectsView {
    if enabled {
        ensure_effects(rpc)
    } else {
        no_effects()
    }
}

/// Makes sure there is a manager while the program is enabled.
pub fn maybe_ensure_discord_client(
    rpc: &mut Option<DiscordPresenceManager>,
    enabled: bool,
    client_id: u64,
    text: &RichPresenceText,
    now: u64,
) -> (effects: Effects)
    ensures
        manager_view(*final(rpc)) == maybe_ensured(
            manager_view(*old(rpc)),
            enabled,
            client_id,
            text@,
            now,
        ),
        effects@ == maybe_ensure_effects(manager_view(*old(rpc)), enabled),
{
    if enabled {
        ensure_discord_client(rpc, client_id, text, now)
    } else {
        Effects::none()
    }
}

/// The manager after it was brought in line with the settings at `now`:
/// switched on or off, recovered, and shown the referral code alone.
pub open spec fn settings_applied(
    manager: ManagerView,
    enabled: bool,
    code: Option<Seq<char>>,
    show_referral_button: bool,
    now: u64,
) -> ManagerView {
    manager.toggled(enabled, now).recovered(now).with_presence(
        None,
        None,
        code,
        show_referral_button,
        now,
    ).synced(now)
}

/// What bringing the manager in line with the settings asks of the
/// transport.
pub open spec fn settings_effects(
    manager: ManagerView,
    enabled: bool,
    code: Option<Seq<char>>,
    show_referral_button: bool,
    now: u64,
) -> EffectsView {
    let toggled = manager.toggled(enabled, now);
    let recovered = toggled.recovered(now);
    manager.toggle_effects(enabled, now).followed_by(toggled.recovery_effects(now)).followed_by(
        recovered.with_presence(None, None, code, show_referral_button, now).sync_effects(now),
    )
}

/// Brings the manager in line with the settings.
fn apply_settings(
    client: &mut DiscordPresenceManager,
    enabled: bool,
    code: Option<String>,
    show_referral_button: bool,
    now: u64,
) -> (effects: Effects)
    ensures
        final(client)@ == settings_applied(
            old(client)@,
            enabled,
            text_view(code),
            show_referral_button,
            now,
        ),
        effects@ == settings_effects(
            old(client)@,
            enabled,
            text_view(code),
            show_referral_button,
            now,
        ),
{
    let toggled = client.set_enabled(enabled, now);
    let recovered = client.maybe_recover(now);
    let updated = client.update(None, None, code, show_referral_button, now);
    toggled.followed_by(recovered).followed_by(updated)
}

/// Brings the presence in line with the settings: makes sure of a manager
/// while the program is enabled, then switches it as the settings say and
/// shows the referral code that they select.
pub fn sync_discord(
    cfg: &Config,
    rpc: &mut Option<DiscordPresenceManager>,
    client_id: u64,
    text: &RichPresenceText,
    now: u64,
) -> (effects: Effects)
    ensures
        manager_view(*final(rpc)) == match maybe_ensured(
            manager_view(*old(rpc)),
            cfg.app_enabled,
            client_id,
            text@,
            now,
        ) {
            Some(manager) => Some(
                settings_applied(
                    manager,
                    cfg.app_enabled,
                    cfg.display_code_spec(),
                    cfg.show_referral_code,
                    now,
                ),
            ),
            None => None,
        },
        effects@ == maybe_ensure_effects(manager_view(*old(rpc)), cfg.app_enabled).followed_by(
            match maybe_ensured(manager_view(*old(rpc)), cfg.app_enabled, client_id, text@, now) {
                Some(manager) => settings_effects(
                    manager,
                    cfg.app_enabled,
                    cfg.display_code_spec(),
                    cfg.show_referral_code,
                    now,
                ),
                None => no_effects(),
            },
        ),
{
    let ensured = maybe_ensure_discord_client(rpc, cfg.app_enabled, client_id, text, now);
    match rpc {
        Some(client) => {
            let applied = apply_settings(
                client,
                cfg.app_enabled,
                cfg.display_code(),
                cfg.show_referral_code,
                now,
            );
            ensured.followed_by(applied)
        },
        None => ensured.followed_by(Effects::none()),
    }
}

/// The manager after it was set up at `now`: recovered, switched as the
/// settings say, and shown the referral code alone.
pub open spec fn initialised(
    manager: ManagerView,
    enabled: bool,
    code: Option<Seq<char>>,
    show_referral_button: bool,
    now: u64,
) -> ManagerView {
    manager.recovered(now).toggled(enabled, now).with_presence(
        None,
        None,
        code,
        show_referral_button,
        now,
    ).synced(now)
}

/// What setting the manager up asks of the transport.
pub open spec fn initialise_effects(
    manager: ManagerView,
    enabled: bool,
    code: Option<Seq<char>>,
    show_referral_button: bool,
    now: u64,
) -> EffectsView {
    let recovered = manager.recovered(now);
    let toggled = recovered.toggled(enabled, now);
    manager.recovery_effects(now).followed_by(recovered.toggle_effects(enabled, now)).followed_by(
        toggled.with_presence(None, None, code, show_referral_button, now).sync_effects(now),
    )
}

/// Sets the presence up when the user interface comes up: makes sure of a
/// manager, whatever the settings say, lets it recover, switches it as the
/// settings say and shows the referral code that they select.
pub fn init_discord(
    cfg: &Config,
    rpc: &mut Option<DiscordPresenceManager>,
    client_id: u64,
    text: &RichPresenceText,
    now: u64,
) -> (effects: Effects)
    ensures
        manager_view(*final(rpc)) == Some(
            initialised(
                ensured(manager_view(*old(rpc)), client_id, text@, now),
                cfg.app_enabled,
                cfg.display_code_spec(),
                cfg.show_referral_code,
                now,
            ),
        ),
        effects@ == ensure_effects(manager_view(*old(rpc))).followed_by(
            initialise_effects(
                ensured(manager_view(*old(rpc)), client_id, text@, now),
                cfg.app_enabled,
                cfg.display_code_spec(),
                cfg.show_referral_code,
                now,
            ),
        ),
{
    let ensured = ensure_discord_client(rpc, client_id, text, now);
    match rpc {
        Some(client) => {
            let recovered = client.maybe_recover(now);
            let toggled = client.set_enabled(cfg.app_enabled, now);
            let updated = client.update(
                None,
                None,
                cfg.display_code(),
                cfg.show_referral_code,
                now,
            );
            ensured.followed_by(recovered.followed_by(toggled).followed_by(updated))
        },
        None => ensured,
    }
}

/// Reconnects on the user's request and reports the state of the
/// connection.
pub fn force_refresh_discord(
    cfg: &Config,
    rpc: &mut Option<DiscordPresenceManager>,
    flatpak_discord_detected: bool,
    client_id: u64,
    text: &RichPresenceText,
    now: u64,
) -> (reported: (DiscordStatus, Effects))
    ensures
        match maybe_ensured(manager_view(*old(rpc)), cfg.app_enabled, client_id, text@, now) {
            Some(manager) => {
                let after = self::polled(manager, cfg.app_enabled, true, now);
                &&& manager_view(*final(rpc)) == Some(after)
                &&& reported.0 == (DiscordStatus {
                    connected: after.status.ready,
                    enabled: cfg.app_enabled,
                    active: after.is_active() && cfg.app_enabled,
                    flatpak_discord_detected,
                })
                &&& reported.1@ == maybe_ensure_effects(
                    manager_view(*old(rpc)),
                    cfg.app_enabled,
                ).followed_by(poll_effects(manager, cfg.app_enabled, true, now))
            },
            None => {
                &&& *final(rpc) is None
                &&& reported.0 == (DiscordStatus {
                    connected: false,
                    enabled: cfg.app_enabled,
                    active: false,
                    flatpak_discord_detected,
                })
                &&& reported.1@ == no_effects()
            },
        },
{
    get_discord_status(cfg, rpc, true, flatpak_discord_detected, client_id, text, now)
}

/// The manager after its state was polled at `now`: refreshed on request
/// while the program is enabled, recovered, and synchronised.
pub open spec fn polled(
    manager: ManagerView,
    enabled: bool,
    force_refresh: bool,
    now: u64,
) -> ManagerView {
    let refreshed = if enabled && force_refresh {
        manager.force_refreshed(now)
    } else {
        manager
    };
    refreshed.recovered(now).synced(now)
}

/// What polling asks of the transport.
pub open spec fn poll_effects(
    manager: ManagerView,
    enabled: bool,
    force_refresh: bool,
    now: u64,
) -> EffectsView {
    let refreshed = if enabled && force_refresh {
        manager.force_refreshed(now)
    } else {
        manager
    };
    let first = if enabled && force_refresh {
        manager.force_refresh_effects()
    } else {
        no_effects()
    };
    first.followed_by(refreshed.recovery_effects(now)).followed_by(
        refreshed.recovered(now).sync_effects(now),
    )
}

/// Polls the connection: whether it is usable and whether something is
/// shown. Without a manager neither is the case.
pub fn poll_discord_status(
    rpc: &mut Option<DiscordPresenceManager>,
    enabled: bool,
    force_refresh: bool,
    now: u64,
) -> (polled: ((bool, bool), Effects))
    ensures
        match manager_view(*old(rpc)) {
            Some(manager) => {
                let after = self::polled(manager, enabled, force_refresh, now);
                &&& manager_view(*final(rpc)) == Some(after)
                &&& polled.0 == (after.status.ready, after.is_active())
                &&& polled.1@ == poll_effects(manager, enabled, force_refresh, now)
            },
            None => {
                &&& *final(rpc) is None
                &&& polled.0 == (false, false)
                &&& polled.1@ == no_effects()
            },
        },
{
    match rpc {
        Some(client) => {
            let refreshed = if enabled && force_refresh {
                client.force_refresh(now)
            } else {
                Effects::none()
            };
            let recovered = client.maybe_recover(now);
            let synced = client.refresh_activity(now);
            let status = (client.is_ready(), client.is_active());
            (status, refreshed.followed_by(recovered).followed_by(synced))
        },
        None => ((false, false), Effects::none()),
    }
}

/// Reports the state of the connection to the user interface, reconnecting
/// first where `force_refresh` asks for it.
pub fn get_discord_status(
    cfg: &Config,
    rpc: &mut Option<DiscordPresenceManager>,
    force_refresh: bool,
    flatpak_discord_detected: bool,
    client_id: u64,
    text: &RichPresenceText,
    now: u64,
) -> (reported: (DiscordStatus, Effects))
    ensures
        match maybe_ensured(manager_view(*old(rpc)), cfg.app_enabled, client_id, text@, now) {
            Some(manager) => {
                let after = self::polled(manager, cfg.app_enabled, force_refresh, now);
                &&& manager_view(*final(rpc)) == Some(after)
                &&& reported.0 == (DiscordStatus {
                    connected: after.status.ready,
                    enabled: cfg.app_enabled,
                    active: after.is_active() && cfg.app_enabled,
                    flatpak_discord_detected,
                })
                &&& reported.1@ == maybe_ensure_effects(
                    manager_view(*old(rpc)),
                    cfg.app_enabled,
                ).followed_by(poll_effects(manager, cfg.app_enabled, force_refresh, now))
            },
            None => {
                &&& *final(rpc) is None
                &&& reported.0 == (DiscordStatus {
                    connected: false,
                    enabled: cfg.app_enabled,
                    active: false,
                    flatpak_discord_detected,
                })
                &&& reported.1@ == no_effects()
            },
        },
{
    let enabled = cfg.app_enabled;
    let ensured = maybe_ensure_discord_client(rpc, enabled, client_id, text, now);
    let (status, polled) = poll_discord_status(rpc, enabled, force_refresh, now);
    (
        discord_status(enabled, status.0, status.1, flatpak_discord_detected),
        ensured.followed_by(polled),
    )
}

/// Reconnects at once, if there is a manager.
pub fn retry_discord_connection(rpc: &mut Option<DiscordPresenceManager>, now: u64) -> (effects:
    Effects)
    ensures
        match manager_view(*old(rpc)) {
            Some(manager) => manager_view(*final(rpc)) == Some(manager.reconnected(now))
                && effects@ == manager.reconnect_effects(),
            None => *final(rpc) is None && effects@ == no_effects(),
        },
{
    match rpc {
        Some(client) => client.reconnect_now(now),
        None => Effects::none(),
    }
}

/// Switches the program on or off: makes sure of a manager when switching
/// on, then switches the manager and lets it recover.
pub fn set_app_enabled(
    rpc: &mut Option<DiscordPresenceManager>,
    enabled: bool,
    client_id: u64,
    text: &RichPresenceText,
    now: u64,
) -> (effects: Effects)
    ensures
        match maybe_ensured(manager_view(*old(rpc)), enabled, client_id, text@, now) {
            Some(manager) => {
                &&& manager_view(*final(rpc)) == Some(
                    manager.toggled(enabled, now).recovered(now),
                )
                &&& effects@ == maybe_ensure_effects(manager_view(*old(rpc)), enabled).followed_by(
                    manager.toggle_effects(enabled, now),
                ).followed_by(manager.toggled(enabled, now).recovery_effects(now))
            },
            None => *final(rpc) is None && effects@ == no_effects(),
        },
{
    let ensured = maybe_ensure_discord_client(rpc, enabled, client_id, text, now);
    match rpc {
        Some(client) => {
            let toggled = client.set_enabled(enabled, now);
            let recovered = client.maybe_recover(now);
            ensured.followed_by(toggled).followed_by(recovered)
        },
        None => ensured,
    }
}

/// Shows a project and the time spent on it, the time only while time
/// tracking is shown. Makes sure of a manager while the program is enabled.
pub fn update_discord_presence(
    cfg: &Config,
    rpc: &mut Option<DiscordPresenceManager>,
    project: Option<String>,
    hours: Option<TimeSpent>,
    client_id: u64,
    text: &RichPresenceText,
    now: u64,
) -> (effects: Effects)
    ensures
        match maybe_ensured(manager_view(*old(rpc)), cfg.app_enabled, client_id, text@, now) {
            Some(manager) => {
                let shown = manager.recovered(now).with_presence(
                    text_view(project),
                    if cfg.show_time_tracking {
                        hours
                    } else {
                        None
                    },
                    cfg.display_code_spec(),
                    cfg.show_referral_code,
                    now,
                );
                &&& manager_view(*final(rpc)) == Some(shown.synced(now))
                &&& effects@ == maybe_ensure_effects(
                    manager_view(*old(rpc)),
                    cfg.app_enabled,
                ).followed_by(manager.recovery_effects(now)).followed_by(shown.sync_effects(now))
            },
            None => *final(rpc) is None && effects@ == no_effects(),
        },
{
    let hours = visible_hours(cfg.show_time_tracking, hours);
    let ensured = maybe_ensure_discord_client(rpc, cfg.app_enabled, client_id, text, now);
    match rpc {
        Some(client) => {
            let recovered = client.maybe_recover(now);
            let updated = client.update(
                project,
                hours,
                cfg.display_code(),
                cfg.show_referral_code,
                now,
            );
            ensured.followed_by(recovered).followed_by(updated)
        },
        None => ensured,
    }
}

/// Selects a referral code; a blank one selects none.
pub fn set_selected_referral_code(cfg: &mut Config, code: Option<String>)
    ensures
        text_view(final(cfg).selected_referral_code) == non_empty_trimmed_spec(text_view(code)),
        *final(cfg) == (Config {
            selected_referral_code: final(cfg).selected_referral_code,
            ..*old(cfg)
        }),
{
    cfg.selected_referral_code = trimmed(code);
}

/// Sets the user's own referral code; a blank one sets none.
pub fn set_custom_referral_code(cfg: &mut Config, code: Option<String>)
    ensures
        text_view(final(cfg).custom_referral_code) == non_empty_trimmed_spec(text_view(code)),
        *final(cfg) == (Config {
            custom_referral_code: final(cfg).custom_referral_code,
            ..*old(cfg)
        }),
{
    cfg.custom_referral_code = trimmed(code);
}

/// Sets the referral code of a login without an account.
pub fn set_adult_referral_code(cfg: &mut Config, code: String)
    ensures
        text_view(final(cfg).custom_referral_code) == non_empty_trimmed_spec(Some(code@)),
        *final(cfg) == (Config {
            custom_referral_code: final(cfg).custom_referral_code,
            ..*old(cfg)
        }),
{
    cfg.custom_referral_code = trimmed(Some(code));
}

/// Shows or hides the referral code.
pub fn set_show_referral_code(cfg: &mut Config, show: bool)
    ensures
        *final(cfg) == (Config { show_referral_code: show, ..*old(cfg) }),
{
    cfg.show_referral_code = show;
}

/// Shows or hides the time spent.
pub fn set_show_time_tracking(cfg: &mut Config, show: bool)
    ensures
        *final(cfg) == (Config { show_time_tracking: show, ..*old(cfg) }),
{
    cfg.show_time_tracking = show;
}

/// Notes whether the program starts with the system.
pub fn set_launch_at_startup(cfg: &mut Config, enabled: bool)
    ensures
        *final(cfg) == (Config { launch_at_startup: enabled, ..*old(cfg) }),
{
    cfg.launch_at_startup = enabled;
}

/// Takes in the codes that the referral service reported and makes the
/// selection valid among them.
pub fn refresh_referral_codes(cfg: &mut Config, codes: Vec<Referral>)
    ensures
        *final(cfg) == (Config {
            available_referral_codes: codes,
            selected_referral_code: final(cfg).selected_referral_code,
            ..*old(cfg)
        }),
        match old(cfg).selected_referral_code {
            Some(selected) if is_available(codes@, selected@) => {
                final(cfg).selected_referral_code == Some(selected)
            },
            _ => text_view(final(cfg).selected_referral_code) == preferred_of(codes@),
        },
{
    cfg.available_referral_codes = codes;
    let _ = cfg.ensure_selected_code();
}

/// Takes in a login through the accrual service. The sharing session
/// starts over: nothing credited, never polled, no fingerprint.
pub fn login_with_flavortown(
    cfg: &mut Config,
    session: &mut SharingSession,
    api_key: String,
    slack_id: String,
    codes: Vec<Referral>,
)
    ensures
        final(cfg).auth_mode == Mode::Hackatime,
        final(cfg).flavortown_api_key == Some(api_key),
        final(cfg).slack_id == Some(slack_id),
        final(cfg).available_referral_codes == codes,
        final(cfg).show_time_tracking,
        final(cfg).sharing_active_seconds_total == 0,
        final(cfg).custom_referral_code == old(cfg).custom_referral_code,
        final(cfg).show_referral_code == old(cfg).show_referral_code,
        final(cfg).launch_at_startup == old(cfg).launch_at_startup,
        final(cfg).app_enabled == old(cfg).app_enabled,
        match old(cfg).selected_referral_code {
            Some(selected) if is_available(codes@, selected@) => {
                final(cfg).selected_referral_code == Some(selected)
            },
            _ => text_view(final(cfg).selected_referral_code) == preferred_of(codes@),
        },
        final(session).accrued_seconds == 0,
        final(session).last_tick is None,
        final(session).fingerprint is None,
{
    cfg.apply_flavortown_login(api_key, slack_id, codes);
    cfg.sharing_active_seconds_total = 0;
    session.clear();
}

/// Takes in a login without an account. The sharing session starts over.
pub fn login_as_adult(cfg: &mut Config, session: &mut SharingSession)
    ensures
        final(cfg).auth_mode == Mode::Adult,
        final(cfg).flavortown_api_key is None,
        final(cfg).slack_id is None,
        final(cfg).available_referral_codes@.len() == 0,
        final(cfg).selected_referral_code is None,
        !final(cfg).show_time_tracking,
        final(cfg).sharing_active_seconds_total == 0,
        final(cfg).custom_referral_code == old(cfg).custom_referral_code,
        final(cfg).show_referral_code == old(cfg).show_referral_code,
        final(cfg).launch_at_startup == old(cfg).launch_at_startup,
        final(cfg).app_enabled == old(cfg).app_enabled,
        final(session).accrued_seconds == 0,
        final(session).last_tick is None,
        final(session).fingerprint is None,
{
    cfg.apply_adult_login();
    cfg.sharing_active_seconds_total = 0;
    session.clear();
}

/// Notes the session's total in the settings. Says whether the settings
/// changed and need saving.
pub fn store_total(cfg: &mut Config, session: &SharingSession) -> (changed: bool)
    ensures
        *final(cfg) == (Config {
            sharing_active_seconds_total: session.accrued_seconds,
            ..*old(cfg)
        }),
        changed == (old(cfg).sharing_active_seconds_total != session.accrued_seconds),
{
    if cfg.sharing_active_seconds_total != session.accrued_seconds {
        cfg.sharing_active_seconds_total = session.accrued_seconds;
        true
    } else {
        false
    }
}

/// Logs out: the settings go back to their defaults, the manager is stopped
/// and dropped, and the sharing session is forgotten.
pub fn logout(
    cfg: &mut Config,
    rpc: &mut Option<DiscordPresenceManager>,
    session: &mut SharingSession,
) -> (effects: Effects)
    ensures
        final(cfg).is_default(),
        *final(rpc) is None,
        final(session).accrued_seconds == 0,
        final(session).last_tick is None,
        final(session).fingerprint is None,
        effects@ == match manager_view(*old(rpc)) {
            Some(manager) => EffectsView { shutdown: !manager.status.stopping, ..no_effects() },
            None => no_effects(),
        },
{
    cfg.reset();
    let effects = match rpc {
        Some(client) => client.stop(),
        None => Effects::none(),
    };
    *rpc = None;
    session.clear();
    effects
}

} // verus!
