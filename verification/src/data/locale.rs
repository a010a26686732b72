//! The texts shown in the published presence.
use crate::text::text_view;
use vstd::prelude::*;

verus! {

/// Every text the presence payload is built from.
pub struct RichPresenceText {
    pub details_project_prefix: String,
    pub details_idle: String,
    pub brand_label: String,
    pub referral_button: String,
    pub referral_host: String,
    pub time_today_prefix: String,
    pub time_logged_suffix: String,
    pub status_tagline: String,
}

/// Mathematical value of a [`RichPresenceText`].
pub ghost struct RichPresenceTextView {
    pub details_project_prefix: Seq<char>,
    pub details_idle: Seq<char>,
    pub brand_label: Seq<char>,
    pub referral_button: Seq<char>,
    pub referral_host: Seq<char>,
    pub time_today_prefix: Seq<char>,
    pub time_logged_suffix: Seq<char>,
    pub status_tagline: Seq<char>,
}

impl View for RichPresenceText {
    type V = RichPresenceTextView;

    open spec fn view(&self) -> RichPresenceTextView {
        RichPresenceTextView {
            details_project_prefix: self.details_project_prefix@,
            details_idle: self.details_idle@,
            brand_label: self.brand_label@,
            referral_button: self.referral_button@,
            referral_host: self.referral_host@,
            time_today_prefix: self.time_today_prefix@,
            time_logged_suffix: self.time_logged_suffix@,
            status_tagline: self.status_tagline@,
        }
    }
}

/// Texts a locale file may supply; whatever it leaves out falls back to the
/// built-in English text.
pub struct RichPresenceLocale {
    pub details_project_prefix: Option<String>,
    pub details_idle: Option<String>,
    pub brand_label: Option<String>,
    pub referral_button: Option<String>,
    pub referral_host: Option<String>,
    pub time_today_prefix: Option<String>,
    pub time_logged_suffix: Option<String>,
    pub status_tagline: Option<String>,
}

/// The supplied text, or the fallback when none was supplied.
pub open spec fn text_or(value: Option<Seq<char>>, fallback: Seq<char>) -> Seq<char> {
    match value {
        Some(text) => text,
        None => fallback,
    }
}

/// Picks the supplied text over the fallback.
pub fn text_or_default(value: Option<String>, default: &str) -> (text: String)
    ensures
        text@ == text_or(text_view(value), default@),
{
    match value {
        Some(text) => text,
        None => String::from_str(default),
    }
}

impl RichPresenceText {
    /// A copy of the texts.
    pub fn duplicate(&self) -> (copy: RichPresenceText)
        ensures
            copy@ == self@,
    {
        RichPresenceText {
            details_project_prefix: self.details_project_prefix.clone(),
            details_idle: self.details_idle.clone(),
            brand_label: self.brand_label.clone(),
            referral_button: self.referral_button.clone(),
            referral_host: self.referral_host.clone(),
            time_today_prefix: self.time_today_prefix.clone(),
            time_logged_suffix: self.time_logged_suffix.clone(),
            status_tagline: self.status_tagline.clone(),
        }
    }
}

impl RichPresenceLocale {
    /// A locale that supplies nothing.
    pub fn empty() -> (locale: RichPresenceLocale)
        ensures
            locale.details_project_prefix is None,
            locale.details_idle is None,
            locale.brand_label is None,
            locale.referral_button is None,
            locale.referral_host is None,
            locale.time_today_prefix is None,
            locale.time_logged_suffix is None,
            locale.status_tagline is None,
    {
        RichPresenceLocale {
            details_project_prefix: None,
            details_idle: None,
            brand_label: None,
            referral_button: None,
            referral_host: None,
            time_today_prefix: None,
            time_logged_suffix: None,
            status_tagline: None,
        }
    }
}

/// Resolves a locale into the full set of presence texts.
pub fn rich_presence_text(locale: RichPresenceLocale) -> (text: RichPresenceText)
    ensures
        text.details_project_prefix@ == text_or(
            text_view(locale.details_project_prefix),
            "Project: "@,
        ),
        text.details_idle@ == text_or(text_view(locale.details_idle), "Flavortown"@),
        text.brand_label@ == text_or(text_view(locale.brand_label), "Flavortown"@),
        text.referral_button@ == text_or(text_view(locale.referral_button), "Sign up"@),
        text.referral_host@ == text_or(
            text_view(locale.referral_host),
            "flavortown.hackclub.com"@,
        ),
        text.time_today_prefix@ == text_or(text_view(locale.time_today_prefix), "Today: "@),
        text.time_logged_suffix@ == text_or(text_view(locale.time_logged_suffix), " logged"@),
        text.status_tagline@ == text_or(
            text_view(locale.status_tagline),
            "Work on your personal projects, get rewarded with prizes. For teens ages <19"@,
        ),
{
    RichPresenceText {
        details_project_prefix: text_or_default(locale.details_project_prefix, "Project: "),
        details_idle: text_or_default(locale.details_idle, "Flavortown"),
        brand_label: text_or_default(locale.brand_label, "Flavortown"),
        referral_button: text_or_default(locale.referral_button, "Sign up"),
        referral_host: text_or_default(locale.referral_host, "flavortown.hackclub.com"),
        time_today_prefix: text_or_default(locale.time_today_prefix, "Today: "),
        time_logged_suffix: text_or_default(locale.time_logged_suffix, " logged"),
        status_tagline: text_or_default(
            locale.status_tagline,
            "Work on your personal projects, get rewarded with prizes. For teens ages <19",
        ),
    }
}

} // verus!
