//! The values the program cannot start without.
use crate::text::{is_blank, trim, trimmed};
use vstd::prelude::*;

verus! {

/// The startup values, all present.
pub struct Runtime {
    pub hackatime_base_url: String,
    pub pyramid_base_url: String,
    pub flavortown_base_url: String,
    pub flavortown_campaign_slug: String,
    pub discord_client_id: u64,
}

/// The startup values as the configuration file gives them: any may be
/// missing.
pub struct RuntimeFields {
    pub hackatime_base_url: Option<String>,
    pub pyramid_base_url: Option<String>,
    pub flavortown_base_url: Option<String>,
    pub flavortown_campaign_slug: Option<String>,
    pub discord_client_id: Option<u64>,
}

/// The error for a field that is missing.
pub open spec fn missing_field_text(name: Seq<char>) -> Seq<char> {
    "Missing required field: "@ + name
}

/// Names the field that is missing.
pub fn missing_field(name: &str) -> (message: String)
    ensures
        message@ == missing_field_text(name@),
{
    let mut message = String::from_str("Missing required field: ");
    message.append(name);
    message
}

/// A text field is usable when it is there and not blank.
pub open spec fn has_text(value: Option<String>) -> bool {
    match value {
        Some(text) => !is_blank(text@),
        None => false,
    }
}

/// The trimmed text of a field, or the error that names the field where it
/// is missing or blank.
pub fn required_text(value: &Option<String>, name: &str) -> (text: Result<String, String>)
    ensures
        has_text(*value) ==> text is Ok && text->Ok_0@ == trimmed(value->Some_0@),
        !has_text(*value) ==> text is Err && text->Err_0@ == missing_field_text(name@),
{
    match value {
        Some(raw) => {
            let kept = trim(raw.as_str());
            if kept.unicode_len() == 0 {
                Err(missing_field(name))
            } else {
                Ok(String::from_str(kept))
            }
        },
        None => Err(missing_field(name)),
    }
}

impl RuntimeFields {
    /// The first field, in the order of the struct, that is missing or
    /// blank; `None` when all are usable.
    pub open spec fn first_missing(&self) -> Option<Seq<char>> {
        if !has_text(self.hackatime_base_url) {
            Some("hackatime_base_url"@)
        } else if !has_text(self.pyramid_base_url) {
            Some("pyramid_base_url"@)
        } else if !has_text(self.flavortown_base_url) {
            Some("flavortown_base_url"@)
        } else if !has_text(self.flavortown_campaign_slug) {
            Some("flavortown_campaign_slug"@)
        } else if self.discord_client_id is None {
            Some("discord_client_id"@)
        } else {
            None
        }
    }
}

/// Checks the startup values: every text must be there and not blank, and
/// the client id must be there. Gives the values, texts trimmed, or the
/// error that names the first field that is missing.
pub fn validate_startup_fields(parsed: &RuntimeFields) -> (runtime: Result<Runtime, String>)
    ensures
        match parsed.first_missing() {
            Some(name) => runtime is Err && runtime->Err_0@ == missing_field_text(name),
            None => {
                &&& runtime is Ok
                &&& runtime->Ok_0.hackatime_base_url@ == trimmed(
                    parsed.hackatime_base_url->Some_0@,
                )
                &&& runtime->Ok_0.pyramid_base_url@ == trimmed(parsed.pyramid_base_url->Some_0@)
                &&& runtime->Ok_0.flavortown_base_url@ == trimmed(
                    parsed.flavortown_base_url->Some_0@,
                )
                &&& runtime->Ok_0.flavortown_campaign_slug@ == trimmed(
                    parsed.flavortown_campaign_slug->Some_0@,
                )
                &&& Some(runtime->Ok_0.discord_client_id) == parsed.discord_client_id
            },
        },
{
    let hackatime_base_url = match required_text(&parsed.hackatime_base_url, "hackatime_base_url") {
        Ok(text) => text,
        Err(error) => { return Err(error); },
    };
    let pyramid_base_url = match required_text(&parsed.pyramid_base_url, "pyramid_base_url") {
        Ok(text) => text,
        Err(error) => { return Err(error); },
    };
    let flavortown_base_url = match required_text(
        &parsed.flavortown_base_url,
        "flavortown_base_url",
    ) {
        Ok(text) => text,
        Err(error) => { return Err(error); },
    };
    let flavortown_campaign_slug = match required_text(
        &parsed.flavortown_campaign_slug,
        "flavortown_campaign_slug",
    ) {
        Ok(text) => text,
        Err(error) => { return Err(error); },
    };
    let discord_client_id = match parsed.discord_client_id {
        Some(id) => id,
        None => { return Err(missing_field("discord_client_id")); },
    };
    Ok(
        Runtime {
            hackatime_base_url,
            pyramid_base_url,
            flavortown_base_url,
            flavortown_campaign_slug,
            discord_client_id,
        },
    )
}

} // verus!
