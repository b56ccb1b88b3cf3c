//! The profile fields that outreach is written from.
use vstd::prelude::*;

verus! {

/// The key fields of a LinkedIn profile for outreach; each may be missing.
pub struct ProfileInfo {
    pub first_name: Option<String>,
    pub last_name: Option<String>,
    pub job_title: Option<String>,
    pub company: Option<String>,
    pub location: Option<String>,
    pub headline: Option<String>,
    pub about: Option<String>,
    pub top_skills: Option<Vec<String>>,
    pub recent_news: Option<String>,
    pub interests: Option<Vec<String>>,
}

} // verus!
