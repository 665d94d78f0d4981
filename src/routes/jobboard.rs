use vstd::prelude::*;

use crate::store::Record;
use crate::values::{copy_text, Timestamp};

verus! {

/// A stored job board.
#[derive(Clone, Debug, PartialEq, Eq)]
pub struct Jobboard {
    pub jobboard_id: i64,
    pub jobboard_name: String,
    pub url: Option<String>,
    pub account: String,
    pub key: Option<String>,
    pub timestamp: Option<Timestamp>,
    pub verified: bool,
    pub active: bool,
}

/// The fields given when a job board is created.
#[derive(Clone, Debug, PartialEq, Eq)]
pub struct NewJobboard {
    pub jobboard_name: String,
    pub url: Option<String>,
    pub account: String,
    pub key: Option<String>,
}

/// The fields that an update of a job board may change.
#[derive(Clone, Copy, Debug, PartialEq, Eq, Structural)]
pub struct JobboardChangeset {
    pub verified: bool,
    pub active: bool,
}

impl Jobboard {
    /// Applies an update: the changeset's fields take its values, every
    /// other field keeps its own.
    pub fn apply_changeset(&mut self, changeset: JobboardChangeset)
        ensures
            *final(self) == (Jobboard {
                verified: changeset.verified,
                active: changeset.active,
                ..*old(self)
            }),
    {
        self.verified = changeset.verified;
        self.active = changeset.active;
    }
}

impl Record for Jobboard {
    type Changeset = JobboardChangeset;

    open spec fn key(&self) -> i64 {
        self.jobboard_id
    }

    open spec fn changed(self, changeset: JobboardChangeset) -> Jobboard {
        Jobboard { verified: changeset.verified, active: changeset.active, ..self }
    }

    fn id(&self) -> (r: i64) {
        self.jobboard_id
    }

    fn apply(&mut self, changeset: JobboardChangeset) {
        self.apply_changeset(changeset);
    }

    fn duplicate(&self) -> (r: Jobboard) {
        Jobboard {
            jobboard_id: self.jobboard_id,
            jobboard_name: self.jobboard_name.clone(),
            url: copy_text(&self.url),
            account: self.account.clone(),
            key: copy_text(&self.key),
            timestamp: self.timestamp,
            verified: self.verified,
            active: self.active,
        }
    }
}

} // verus!
