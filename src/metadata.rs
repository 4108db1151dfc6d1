//! Version and timestamps of a record.
use vstd::prelude::*;

verus! {

/// Relies on `chrono::Utc::now`: the current time, as milliseconds since
/// the Unix epoch.
#[verifier::external_body]
fn now_millis() -> (r: i64) {
    chrono::Utc::now().timestamp_millis()
}

/// The version of a record and when it was created and last modified, as
/// milliseconds since the Unix epoch.
#[derive(Debug, Clone, Copy, Eq, PartialEq, Structural)]
pub struct Metadata {
    version: u8,
    created_at: i64,
    last_modified: Option<i64>,
}

impl Metadata {
    pub closed spec fn spec_version(self) -> u8 {
        self.version
    }

    pub closed spec fn spec_created_at(self) -> i64 {
        self.created_at
    }

    pub closed spec fn spec_last_modified(self) -> Option<i64> {
        self.last_modified
    }

    pub fn new(version: u8, created_at: i64, last_modified: Option<i64>) -> (r: Metadata)
        ensures
            r.spec_version() == version,
            r.spec_created_at() == created_at,
            r.spec_last_modified() == last_modified,
    {
        Metadata { version, created_at, last_modified }
    }

    /// The first version of a record created at `created_at`.
    pub fn created_at(created_at: i64) -> (r: Metadata)
        ensures
            r.spec_version() == 1,
            r.spec_created_at() == created_at,
            r.spec_last_modified() is None,
    {
        Metadata { version: 1, created_at, last_modified: None }
    }

    /// The next version, modified at `last_modified`.
    pub fn updated_at(self, last_modified: i64) -> (r: Metadata)
        requires
            self.spec_version() < 255,
        ensures
            r.spec_version() == self.spec_version() + 1,
            r.spec_created_at() == self.spec_created_at(),
            r.spec_last_modified() == Some(last_modified),
    {
        Metadata { version: self.version + 1, created_at: self.created_at, last_modified: Some(last_modified) }
    }

    pub fn version(&self) -> (r: u8)
        ensures
            r == self.spec_version(),
    {
        self.version
    }

    pub fn created(&self) -> (r: i64)
        ensures
            r == self.spec_created_at(),
    {
        self.created_at
    }

    pub fn last_modified(&self) -> (r: Option<i64>)
        ensures
            r == self.spec_last_modified(),
    {
        self.last_modified
    }
}

impl Default for Metadata {
    /// The first version of a record created now.
    fn default() -> (r: Metadata)
        ensures
            r.spec_version() == 1,
            r.spec_last_modified() is None,
    {
        Metadata::created_at(now_millis())
    }
}

} // verus!
