//! The user messages sent to the model, and the typed email response built
//! from the profile and the model's answer.
use vstd::prelude::*;
use serde_json::Value;
use crate::extract::{
    extract_object, extracted, record_entries, text_entry, text_field, FieldMap, FieldMapView, ResponseView,
    TypedResponse,
};
use crate::json::{object_entries, JsonObject};

verus! {

/// The profile member with the person's full name.
pub const FULL_NAME_KEY: &'static str = "fullName";

/// The profile member with the person's headline.
pub const HEADLINE_KEY: &'static str = "headline";

/// The profile member with the person's summary.
pub const ABOUT_KEY: &'static str = "about";

/// Opens the profile message, before the name.
pub const PROFILE_INTRO: &'static str = "Here is the LinkedIn profile info:\nName: ";

/// Comes before the headline.
pub const HEADLINE_LABEL: &'static str = "\nHeadline: ";

/// Comes before the summary.
pub const ABOUT_LABEL: &'static str = "\nAbout: ";

/// Comes before the briefing.
pub const PROMPT_LABEL: &'static str = "\n\nPrompt: ";

/// Opens the improvement message, before the original email.
pub const ORIGINAL_INTRO: &'static str = "Here is the original email:\n";

/// Comes before the recipient's name.
pub const RECIPIENT_LABEL: &'static str = "\nThe recipient's name is ";

/// Comes before the improvement instructions.
pub const INSTRUCTIONS_LABEL: &'static str = ".\nImprovement instructions: ";

/// How the recipient is named when no name is given.
pub const DEFAULT_RECIPIENT: &'static str = "there";

/// The message asking for an email to the person of `profile`.
pub open spec fn profile_message_text(profile: Value, prompt: Seq<char>) -> Seq<char> {
    let entries = record_entries(profile);
    PROFILE_INTRO@ + text_entry(entries, FULL_NAME_KEY@) + HEADLINE_LABEL@ + text_entry(entries, HEADLINE_KEY@)
        + ABOUT_LABEL@ + text_entry(entries, ABOUT_KEY@) + PROMPT_LABEL@ + prompt
}

/// Builds the message asking for an email to the person of a scraped
/// profile; missing profile fields read as empty.
pub fn profile_message(profile: &Value, prompt: &str) -> (r: String)
    ensures
        r@ == profile_message_text(*profile, prompt@),
{
    let mut m = PROFILE_INTRO.to_owned();
    m.append(text_field(profile, FULL_NAME_KEY).as_str());
    m.append(HEADLINE_LABEL);
    m.append(text_field(profile, HEADLINE_KEY).as_str());
    m.append(ABOUT_LABEL);
    m.append(text_field(profile, ABOUT_KEY).as_str());
    m.append(PROMPT_LABEL);
    m.append(prompt);
    m
}

/// The message asking for an improved email.
pub open spec fn improve_message_text(email: Seq<char>, prompt: Seq<char>, recipient: Option<Seq<char>>) -> Seq<char> {
    let name = match recipient {
        Some(n) => n,
        None => DEFAULT_RECIPIENT@,
    };
    ORIGINAL_INTRO@ + email + RECIPIENT_LABEL@ + name + INSTRUCTIONS_LABEL@ + prompt
}

/// Builds the message asking for an improved email.
pub fn improve_message(email: &str, prompt: &str, recipient_name: Option<&str>) -> (r: String)
    ensures
        r@ == improve_message_text(
            email@,
            prompt@,
            match recipient_name {
                Some(n) => Some(n@),
                None => None,
            },
        ),
{
    let mut m = ORIGINAL_INTRO.to_owned();
    m.append(email);
    m.append(RECIPIENT_LABEL);
    match recipient_name {
        Some(n) => m.append(n),
        None => m.append(DEFAULT_RECIPIENT),
    }
    m.append(INSTRUCTIONS_LABEL);
    m.append(prompt);
    m
}

/// The email response: the address from the profile, under the field map's
/// address key; the body and the rationale from the model's answer.
pub open spec fn email_response(profile: Value, answer: Map<Seq<char>, Value>, fields: FieldMapView) -> ResponseView {
    ResponseView {
        email_address: text_entry(record_entries(profile), fields.email_address),
        email_body: extracted(answer, fields).email_body,
        rationale: extracted(answer, fields).rationale,
    }
}

/// Builds the email response from the scraped profile and the model's answer.
pub fn email_from_answer(profile: &Value, answer: &JsonObject, fields: &FieldMap) -> (r: TypedResponse)
    ensures
        r@ == email_response(*profile, object_entries(*answer), fields@),
{
    let from_answer = extract_object(answer, fields);
    TypedResponse {
        email_address: text_field(profile, fields.email_address.as_str()),
        email_body: from_answer.email_body,
        rationale: from_answer.rationale,
    }
}

} // verus!
