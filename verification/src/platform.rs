//! The calls this library makes into other crates. Verus does not read the
//! bodies in this module: it takes each contract as given.

use crate::identifiers::is_random_uuid;
use chrono::NaiveDateTime;
use chrono::Utc;
use directories::ProjectDirs;
use uuid::Uuid;
use vstd::prelude::*;

verus! {

/// `chrono::NaiveDateTime`, a calendar date and time of day without a zone.
/// The library reads every value of it as UTC. Opaque here: values are
/// carried, never inspected.
#[verifier::external_type_specification]
#[verifier::external_body]
pub struct ExNaiveDateTime(NaiveDateTime);

/// A fresh identifier: the 128-bit value of `uuid::Uuid::new_v4()`, read
/// with `Uuid::as_u128`.
///
/// The contract claims only the version and variant bits, which `new_v4`
/// sets by masking; the other 122 bits come from the operating system's
/// random source, so two calls may or may not return different values.
#[verifier::external_body]
pub(crate) fn fresh_task_id() -> (id: u128)
    ensures
        is_random_uuid(id),
{
    Uuid::new_v4().as_u128()
}

/// The current instant in UTC, from `chrono::Utc::now`. Nothing is claimed
/// of it.
#[verifier::external_body]
pub(crate) fn now() -> (instant: NaiveDateTime) {
    Utc::now().naive_utc()
}

/// The instant as RFC 3339 text, from `chrono::DateTime::to_rfc3339` on the
/// instant read as UTC. Nothing is claimed of the text.
#[verifier::external_body]
pub(crate) fn rfc3339(instant: &NaiveDateTime) -> (text: String) {
    instant.and_utc().to_rfc3339()
}

/// The upper-case form of a text as `str::to_uppercase` of the standard
/// library gives it, by the Unicode upper-case mapping.
pub uninterp spec fn uppercased(text: Seq<char>) -> Seq<char>;

/// The upper-case form of `text`, from `str::to_uppercase`. The contract
/// names the result and claims nothing else of it.
#[verifier::external_body]
pub(crate) fn uppercase(text: &str) -> (upper: String)
    ensures
        upper@ == uppercased(text@),
{
    text.to_uppercase()
}

/// The host name of this machine, from `hostname::get`, with anything that
/// is not valid Unicode replaced; `None` where the system did not give one.
/// Nothing is claimed of it.
#[verifier::external_body]
pub(crate) fn host_name() -> (name: Option<String>) {
    match hostname::get() {
        Ok(name) => Some(name.to_string_lossy().to_string()),
        Err(_) => None,
    }
}

/// `directories::ProjectDirs`, the per-user directories of an application.
/// Opaque here: values are handed to the caller, never inspected.
#[verifier::external_type_specification]
#[verifier::external_body]
pub struct ExProjectDirs(ProjectDirs);

/// The per-user directories of the application, from
/// `directories::ProjectDirs::from`; `None` where no home directory could
/// be determined. Nothing is claimed of them.
#[verifier::external_body]
pub(crate) fn project_dirs(qualifier: &str, organization: &str, application: &str) -> (found:
    Option<ProjectDirs>) {
    ProjectDirs::from(qualifier, organization, application)
}

} // verus!
