//! Metadata reported by `stat`, and the rendering of its last-modified
//! time, which the layer delegates to an external calendar library.

use vstd::prelude::*;

verus! {

/// The kind a stat target was inferred to have.
#[derive(Clone, Copy, Debug, PartialEq, Eq, Structural)]
pub enum EntryMode {
    File,
    Dir,
}

/// What `stat` reports of one stored object.
#[derive(Clone, Copy, Debug, PartialEq, Eq, Structural)]
pub struct Metadata {
    pub mode: EntryMode,
    pub content_length: u64,
    pub last_modified_secs: i64,
}

/// The RFC 3339 rendering of a timestamp, a function of the timestamp
/// alone.
pub uninterp spec fn rfc3339_of(secs: int) -> Seq<char>;

/// Relies on chrono's `DateTime::from_timestamp` and `to_rfc3339`: an
/// in-range number of seconds since the epoch renders as its RFC 3339
/// text, which depends on the timestamp alone; chrono returns nothing for
/// an out-of-range number of seconds.
#[verifier::external_body]
fn format_rfc3339(secs: i64) -> (r: Option<String>)
    ensures
        r matches Some(s) ==> s@ == rfc3339_of(secs as int),
{
    match chrono::DateTime::<chrono::Utc>::from_timestamp(secs, 0) {
        Some(dt) => Some(dt.to_rfc3339()),
        None => None,
    }
}

impl Metadata {
    /// The last-modified time rendered as RFC 3339 text, when the
    /// timestamp lies in the calendar's representable range.
    pub fn last_modified_rfc3339(&self) -> (r: Option<String>)
        ensures
            r matches Some(s) ==> s@ == rfc3339_of(self.last_modified_secs as int),
    {
        format_rfc3339(self.last_modified_secs)
    }
}

} // verus!
