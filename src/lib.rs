//! Verified core of a LinkedIn outreach pipeline: polling a remote scraping
//! job, aggregating a streamed model answer, repairing its JSON, and
//! reading typed fields out of the result.
pub mod extract;
pub mod guidance;
pub mod job;
pub mod json;
pub mod message;
pub mod profile;
pub mod repair;
pub mod stream;
pub mod text;
