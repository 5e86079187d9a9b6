//! The persisted record shapes. The database round trips stay in the
//! shell; the shapes and the id wrapper live here.

use vstd::prelude::*;

verus! {

/// A record id.
#[derive(Clone, Copy, PartialEq, Eq, Structural, Debug, Hash)]
pub struct Id(pub i32);

impl Id {
    /// The raw value of this id.
    pub fn value(&self) -> (v: i32)
        ensures
            v == self.0,
    {
        self.0
    }
}

impl From<i32> for Id {
    fn from(value: i32) -> (r: Self) {
        Id(value)
    }
}

impl vstd::std_specs::convert::FromSpecImpl<i32> for Id {
    open spec fn obeys_from_spec() -> bool {
        true
    }

    open spec fn from_spec(value: i32) -> Self {
        Id(value)
    }
}

/// Where a download record stands.
#[derive(Clone, Copy, PartialEq, Eq, Structural, Debug)]
pub enum DownloadStatus {
    Pending,
    InProgress,
    Completed,
    Failed,
}

/// A download record as it is inserted.
pub struct NewDownloadRecord {
    pub channel: String,
    pub media_id: String,
}

/// A user row.
pub struct User {
    pub id: Id,
    pub name: String,
    pub age: i32,
}

/// A user as it is inserted.
pub struct NewUser {
    pub name: String,
    pub age: i32,
}

} // verus!
