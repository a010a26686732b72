//! The user's settings and the rules that keep them consistent.
use crate::text::{as_deref, non_empty_trimmed, non_empty_trimmed_spec, text_view};
use vstd::prelude::*;

verus! {

/// How the user is logged in.
#[derive(Clone, Copy, Debug, PartialEq, Eq, Structural)]
pub enum Mode {
    SignedOut,
    Hackatime,
    Adult,
}

/// A referral code and its kind.
#[derive(Clone, Debug)]
pub struct Referral {
    pub code: String,
    pub code_type: String,
}

/// Everything that is persisted between runs.
#[derive(Clone, Debug)]
pub struct Config {
    pub auth_mode: Mode,
    pub slack_id: Option<String>,
    pub flavortown_api_key: Option<String>,
    pub available_referral_codes: Vec<Referral>,
    pub selected_referral_code: Option<String>,
    pub custom_referral_code: Option<String>,
    pub show_referral_code: bool,
    pub show_time_tracking: bool,
    pub launch_at_startup: bool,
    pub app_enabled: bool,
    pub sharing_active_seconds_total: u64,
}

impl Default for Mode {
    /// Nobody is logged in.
    fn default() -> (mode: Mode)
        ensures
            mode == Mode::SignedOut,
    {
        Mode::SignedOut
    }
}

impl Default for Config {
    /// The settings of a fresh installation.
    fn default() -> (config: Config)
        ensures
            config.is_default(),
    {
        Config::fresh()
    }
}

/// The code at `at` is a custom one and none before it is.
pub open spec fn is_first_custom(codes: Seq<Referral>, at: int) -> bool {
    &&& 0 <= at < codes.len()
    &&& codes[at].code_type@ == "custom"@
    &&& forall|j: int| 0 <= j < at ==> (#[trigger] codes[j]).code_type@ != "custom"@
}

/// The code to fall back on: the first custom one, else the first of any
/// kind, else none.
pub open spec fn preferred_of(codes: Seq<Referral>) -> Option<Seq<char>> {
    if exists|at: int| is_first_custom(codes, at) {
        Some(codes[choose|at: int| is_first_custom(codes, at)].code@)
    } else if codes.len() > 0 {
        Some(codes[0].code@)
    } else {
        None
    }
}

/// `code` is among the available codes.
pub open spec fn is_available(codes: Seq<Referral>, code: Seq<char>) -> bool {
    exists|at: int| 0 <= at < codes.len() && (#[trigger] codes[at]).code@ == code
}

impl Config {
    /// The settings of a fresh installation.
    pub open spec fn is_default(&self) -> bool {
        &&& self.auth_mode == Mode::SignedOut
        &&& self.slack_id is None
        &&& self.flavortown_api_key is None
        &&& self.available_referral_codes@.len() == 0
        &&& self.selected_referral_code is None
        &&& self.custom_referral_code is None
        &&& self.show_referral_code
        &&& self.show_time_tracking
        &&& !self.launch_at_startup
        &&& self.app_enabled
        &&& self.sharing_active_seconds_total == 0
    }

    /// The selected code is one of the available codes.
    pub open spec fn selection_valid(&self) -> bool {
        match self.selected_referral_code {
            Some(selected) => is_available(self.available_referral_codes@, selected@),
            None => false,
        }
    }

    /// The code to show in the referral link, if any: nothing while the
    /// display is off; else the custom code if it is not blank, else the
    /// selected code, else the preferred one.
    pub open spec fn display_code_spec(&self) -> Option<Seq<char>> {
        if !self.show_referral_code {
            None
        } else {
            match non_empty_trimmed_spec(text_view(self.custom_referral_code)) {
                Some(custom) => Some(custom),
                None => match self.selected_referral_code {
                    Some(selected) => Some(selected@),
                    None => preferred_of(self.available_referral_codes@),
                },
            }
        }
    }

    /// The settings of a fresh installation.
    pub fn fresh() -> (config: Config)
        ensures
            config.is_default(),
    {
        Config {
            auth_mode: Mode::SignedOut,
            slack_id: None,
            flavortown_api_key: None,
            available_referral_codes: Vec::new(),
            selected_referral_code: None,
            custom_referral_code: None,
            show_referral_code: true,
            show_time_tracking: true,
            launch_at_startup: false,
            app_enabled: true,
            sharing_active_seconds_total: 0,
        }
    }

    /// Picks the settings to start with: what the primary file held, else
    /// what the backup held, else the defaults.
    pub fn load(primary: Option<Config>, backup: Option<Config>) -> (config: Config)
        ensures
            match (primary, backup) {
                (Some(found), _) => config == found,
                (None, Some(found)) => config == found,
                (None, None) => config.is_default(),
            },
    {
        match primary {
            Some(found) => found,
            None => match backup {
                Some(found) => found,
                None => Config::fresh(),
            },
        }
    }

    /// Starts a run with nothing credited yet. Says whether the settings
    /// changed and need saving.
    pub fn clear_sharing_total(&mut self) -> (changed: bool)
        ensures
            changed == (old(self).sharing_active_seconds_total != 0),
            *final(self) == (Config { sharing_active_seconds_total: 0, ..*old(self) }),
    {
        if self.sharing_active_seconds_total != 0 {
            self.sharing_active_seconds_total = 0;
            true
        } else {
            false
        }
    }

    /// Puts every setting back to its default.
    pub fn reset(&mut self)
        ensures
            final(self).is_default(),
    {
        *self = Config::fresh();
    }

    /// The code to fall back on when none is selected.
    pub fn preferred_code(&self) -> (code: Option<String>)
        ensures
            text_view(code) == preferred_of(self.available_referral_codes@),
    {
        let custom = String::from_str("custom");
        let n: usize = self.available_referral_codes.len();
        let mut at: usize = 0;
        while at < n
            invariant
                n == self.available_referral_codes@.len(),
                at <= n,
                custom@ == "custom"@,
                forall|j: int|
                    0 <= j < at ==> (#[trigger] self.available_referral_codes@[j]).code_type@
                        != "custom"@,
            decreases n - at,
        {
            if self.available_referral_codes[at].code_type == custom {
                proof {
                    let codes = self.available_referral_codes@;
                    assert(is_first_custom(codes, at as int));
                    let chosen = choose|k: int| is_first_custom(codes, k);
                    assert(chosen == at);
                }
                return Some(self.available_referral_codes[at].code.clone());
            }
            at += 1;
        }
        if n > 0 {
            Some(self.available_referral_codes[0].code.clone())
        } else {
            None
        }
    }

    /// Whether `code` is among the available codes.
    pub fn has_code(&self, code: &String) -> (found: bool)
        ensures
            found == is_available(self.available_referral_codes@, code@),
    {
        let n: usize = self.available_referral_codes.len();
        let mut at: usize = 0;
        while at < n
            invariant
                n == self.available_referral_codes@.len(),
                at <= n,
                forall|j: int|
                    0 <= j < at ==> (#[trigger] self.available_referral_codes@[j]).code@ != code@,
            decreases n - at,
        {
            if self.available_referral_codes[at].code == *code {
                return true;
            }
            at += 1;
        }
        false
    }

    /// Makes sure the selected code is one that exists: a selection that is
    /// not among the available codes gives way to the preferred code. Says
    /// whether the selection changed.
    pub fn ensure_selected_code(&mut self) -> (changed: bool)
        ensures
            *final(self) == (Config {
                selected_referral_code: final(self).selected_referral_code,
                ..*old(self)
            }),
            old(self).selection_valid() ==> {
                final(self).selected_referral_code == old(self).selected_referral_code
            },
            !old(self).selection_valid() ==> text_view(final(self).selected_referral_code)
                == preferred_of(old(self).available_referral_codes@),
            changed == (!old(self).selection_valid() && preferred_of(
                old(self).available_referral_codes@,
            ) != text_view(old(self).selected_referral_code)),
    {
        let is_selected_valid = match &self.selected_referral_code {
            Some(selected) => self.has_code(selected),
            None => false,
        };
        if is_selected_valid {
            return false;
        }
        let preferred = self.preferred_code();
        let differs = match (&preferred, &self.selected_referral_code) {
            (Some(wanted), Some(selected)) => !(*wanted == *selected),
            (None, None) => false,
            _ => true,
        };
        if differs {
            self.selected_referral_code = preferred;
            return true;
        }
        false
    }

    /// The code to show in the referral link, if any.
    pub fn display_code(&self) -> (code: Option<String>)
        ensures
            text_view(code) == self.display_code_spec(),
    {
        if !self.show_referral_code {
            return None;
        }
        match non_empty_trimmed(as_deref(&self.custom_referral_code)) {
            Some(custom) => Some(String::from_str(custom)),
            None => match &self.selected_referral_code {
                Some(selected) => Some(selected.clone()),
                None => self.preferred_code(),
            },
        }
    }

    /// Takes in a login through the accrual service: the key and the
    /// identity it belongs to, the codes found for it, time tracking on, and
    /// a selection that exists.
    pub fn apply_flavortown_login(
        &mut self,
        api_key: String,
        slack_id: String,
        codes: Vec<Referral>,
    )
        ensures
            final(self).auth_mode == Mode::Hackatime,
            final(self).flavortown_api_key == Some(api_key),
            final(self).slack_id == Some(slack_id),
            final(self).available_referral_codes == codes,
            final(self).show_time_tracking,
            final(self).custom_referral_code == old(self).custom_referral_code,
            final(self).show_referral_code == old(self).show_referral_code,
            final(self).launch_at_startup == old(self).launch_at_startup,
            final(self).app_enabled == old(self).app_enabled,
            final(self).sharing_active_seconds_total == old(self).sharing_active_seconds_total,
            match old(self).selected_referral_code {
                Some(selected) if is_available(codes@, selected@) => {
                    final(self).selected_referral_code == Some(selected)
                },
                _ => text_view(final(self).selected_referral_code) == preferred_of(codes@),
            },
    {
        self.auth_mode = Mode::Hackatime;
        self.flavortown_api_key = Some(api_key);
        self.slack_id = Some(slack_id);
        self.available_referral_codes = codes;
        self.show_time_tracking = true;
        let _ = self.ensure_selected_code();
    }

    /// Takes in a login without an account: no key, no identity, no codes,
    /// no selection, time tracking off.
    pub fn apply_adult_login(&mut self)
        ensures
            final(self).auth_mode == Mode::Adult,
            final(self).flavortown_api_key is None,
            final(self).slack_id is None,
            final(self).available_referral_codes@.len() == 0,
            final(self).selected_referral_code is None,
            !final(self).show_time_tracking,
            final(self).custom_referral_code == old(self).custom_referral_code,
            final(self).show_referral_code == old(self).show_referral_code,
            final(self).launch_at_startup == old(self).launch_at_startup,
            final(self).app_enabled == old(self).app_enabled,
            final(self).sharing_active_seconds_total == old(self).sharing_active_seconds_total,
    {
        self.auth_mode = Mode::Adult;
        self.flavortown_api_key = None;
        self.slack_id = None;
        self.available_referral_codes = Vec::new();
        self.selected_referral_code = None;
        self.show_time_tracking = false;
    }

    /// Brings the saved autostart setting in line with what the system
    /// reports, where it reports anything. Says whether the setting changed.
    pub fn reconcile_autostart(&mut self, reported: Option<bool>) -> (changed: bool)
        ensures
            *final(self) == (Config {
                launch_at_startup: match reported {
                    Some(autostart) => autostart,
                    None => old(self).launch_at_startup,
                },
                ..*old(self)
            }),
            changed == match reported {
                Some(autostart) => autostart != old(self).launch_at_startup,
                None => false,
            },
    {
        match reported {
            Some(autostart) => {
                if self.launch_at_startup != autostart {
                    self.launch_at_startup = autostart;
                    true
                } else {
                    false
                }
            },
            None => false,
        }
    }
}

/// After the selection was checked, it is valid or it is the preferred
/// code, and checking again changes nothing.
pub proof fn lemma_selection_settles(before: Config, after: Config)
    requires
        after == (Config { selected_referral_code: after.selected_referral_code, ..before }),
        before.selection_valid() ==> after.selected_referral_code == before.selected_referral_code,
        !before.selection_valid() ==> text_view(after.selected_referral_code) == preferred_of(
            before.available_referral_codes@,
        ),
    ensures
        after.selection_valid() || text_view(after.selected_referral_code) == preferred_of(
            after.available_referral_codes@,
        ),
{
}

/// The preferred code, when there is one, is among the available codes.
pub proof fn lemma_preferred_is_available(codes: Seq<Referral>)
    ensures
        preferred_of(codes) is Some <==> codes.len() > 0,
        codes.len() > 0 ==> is_available(codes, preferred_of(codes)->Some_0),
{
    if exists|at: int| is_first_custom(codes, at) {
        let at = choose|at: int| is_first_custom(codes, at);
        assert(codes[at].code@ == preferred_of(codes)->Some_0);
    } else if codes.len() > 0 {
        assert(codes[0].code@ == preferred_of(codes)->Some_0);
    }
}

} // verus!
