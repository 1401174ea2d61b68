//! Platform normalizer: one extraction rule per known advertising platform.
use vstd::prelude::*;

use crate::json::{element, field, text, JsonValue};

verus! {

/// The advertising platforms whose webhooks are understood.
#[derive(Debug, Clone, Copy, PartialEq, Eq, Structural)]
pub enum Platform {
    Google,
    Meta,
    TikTok,
}

/// The platform that a webhook path segment names, if any.
pub open spec fn platform_named(id: Seq<char>) -> Option<Platform> {
    if id == "google"@ {
        Some(Platform::Google)
    } else if id == "meta"@ {
        Some(Platform::Meta)
    } else if id == "tiktok"@ {
        Some(Platform::TikTok)
    } else {
        None
    }
}

impl Platform {
    /// Looks a platform up by its identifier (`google`, `meta`, `tiktok`).
    pub fn from_id(id: &str) -> (r: Option<Platform>)
        ensures
            r == platform_named(id@),
    {
        let id = id.to_owned();
        if id == "google".to_owned() {
            Some(Platform::Google)
        } else if id == "meta".to_owned() {
            Some(Platform::Meta)
        } else if id == "tiktok".to_owned() {
            Some(Platform::TikTok)
        } else {
            None
        }
    }
}

/// The contact fields of a lead, as extracted from a platform payload.
#[derive(Debug)]
pub struct NormalizedLead {
    pub name: String,
    pub email: String,
    pub phone: String,
    pub interest: String,
}

/// The contact fields, as text.
pub struct LeadFields {
    pub name: Seq<char>,
    pub email: Seq<char>,
    pub phone: Seq<char>,
    pub interest: Seq<char>,
}

impl View for NormalizedLead {
    type V = LeadFields;

    open spec fn view(&self) -> LeadFields {
        LeadFields { name: self.name@, email: self.email@, phone: self.phone@, interest: self.interest@ }
    }
}

/// Why a payload could not be normalized.
#[derive(Debug, Clone, Copy, PartialEq, Eq, Structural)]
pub enum NormalizeError {
    /// The platform identifier names no known platform.
    UnsupportedPlatform,
}

/// The name a Google lead form carries: the `string_value` of the first
/// entry of `user_column_data`, or a placeholder when any step is missing.
pub open spec fn google_name(payload: JsonValue) -> Seq<char> {
    match field(payload, "user_column_data"@) {
        Some(columns) => match field(element(columns, 0), "string_value"@) {
            Some(v) => match text(v) {
                Some(s) => s,
                None => "Google Lead"@,
            },
            None => "Google Lead"@,
        },
        None => "Google Lead"@,
    }
}

/// The fields extracted for `p` from `payload`.
pub open spec fn fields_for(p: Platform, payload: JsonValue) -> LeadFields {
    match p {
        Platform::Google => LeadFields {
            name: google_name(payload),
            email: "Not Provided"@,
            phone: "N/A"@,
            interest: "Life Insurance"@,
        },
        Platform::Meta => LeadFields {
            name: "Meta Lead"@,
            email: "Not Provided"@,
            phone: "N/A"@,
            interest: "Business Insurance"@,
        },
        Platform::TikTok => LeadFields {
            name: "TikTok Lead"@,
            email: "Not Provided"@,
            phone: "N/A"@,
            interest: "IUL"@,
        },
    }
}

/// The result of normalizing `payload` for the platform named `id`.
pub open spec fn normalized(id: Seq<char>, payload: JsonValue) -> Result<LeadFields, NormalizeError> {
    match platform_named(id) {
        Some(p) => Ok(fields_for(p, payload)),
        None => Err(NormalizeError::UnsupportedPlatform),
    }
}

/// The name of a Google lead, with its placeholder when the payload lacks it.
fn google_lead_name(payload: &JsonValue) -> (r: String)
    ensures
        r@ == google_name(*payload),
{
    match payload.get("user_column_data") {
        Some(columns) => match columns.at(0).get("string_value") {
            Some(v) => match v.as_str() {
                Some(s) => s.to_owned(),
                None => "Google Lead".to_owned(),
            },
            None => "Google Lead".to_owned(),
        },
        None => "Google Lead".to_owned(),
    }
}

/// Extracts the lead fields for a known platform; never fails, every
/// missing part of the payload gives way to a placeholder.
pub fn extract(p: Platform, payload: &JsonValue) -> (r: NormalizedLead)
    ensures
        r@ == fields_for(p, *payload),
{
    match p {
        Platform::Google => NormalizedLead {
            name: google_lead_name(payload),
            email: "Not Provided".to_owned(),
            phone: "N/A".to_owned(),
            interest: "Life Insurance".to_owned(),
        },
        Platform::Meta => NormalizedLead {
            name: "Meta Lead".to_owned(),
            email: "Not Provided".to_owned(),
            phone: "N/A".to_owned(),
            interest: "Business Insurance".to_owned(),
        },
        Platform::TikTok => NormalizedLead {
            name: "TikTok Lead".to_owned(),
            email: "Not Provided".to_owned(),
            phone: "N/A".to_owned(),
            interest: "IUL".to_owned(),
        },
    }
}

/// Normalizes the payload of a webhook from the platform named `id`.
pub fn normalize(id: &str, payload: &JsonValue) -> (r: Result<NormalizedLead, NormalizeError>)
    ensures
        r matches Ok(l) ==> normalized(id@, *payload) == Ok::<LeadFields, NormalizeError>(l@),
        r matches Err(e) ==> normalized(id@, *payload) == Err::<LeadFields, NormalizeError>(e),
{
    match Platform::from_id(id) {
        Some(p) => Ok(extract(p, payload)),
        None => Err(NormalizeError::UnsupportedPlatform),
    }
}

/// Normalization of a payload from a known platform never fails: the
/// contact placeholders are always given, and a Google payload without a
/// text `string_value` in the first entry of `user_column_data` yields the
/// placeholder name.
pub proof fn lemma_known_platform_defaults(id: Seq<char>, payload: JsonValue)
    requires
        platform_named(id) is Some,
    ensures
        normalized(id, payload) is Ok,
        normalized(id, payload)->Ok_0.email == "Not Provided"@,
        normalized(id, payload)->Ok_0.phone == "N/A"@,
        platform_named(id) == Some(Platform::Google) && (field(payload, "user_column_data"@) matches Some(
            columns,
        ) ==> !(field(element(columns, 0), "string_value"@) matches Some(v) && text(v) is Some))
            ==> normalized(id, payload)->Ok_0.name == "Google Lead"@,
{
}

} // verus!
