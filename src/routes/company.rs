use vstd::prelude::*;

use crate::store::Record;
use crate::values::{copy_text, Timestamp};

verus! {

/// A stored company, owned by a job board.
#[derive(Clone, Debug, PartialEq, Eq)]
pub struct Company {
    pub company_id: i64,
    pub jobboard_id: i64,
    pub company_name: String,
    pub logo: Option<String>,
    pub website: String,
    pub description: Option<String>,
    pub region: Option<String>,
    pub timestamp: Option<Timestamp>,
    pub verified: bool,
    pub active: bool,
}

/// The fields given when a company is created.
#[derive(Clone, Debug, PartialEq, Eq)]
pub struct NewCompany {
    pub jobboard_id: i64,
    pub company_name: String,
    pub logo: Option<String>,
    pub website: String,
    pub description: Option<String>,
    pub region: Option<String>,
}

/// The fields that an update of a company may change.
#[derive(Clone, Copy, Debug, PartialEq, Eq, Structural)]
pub struct CompanyChangeset {
    pub verified: bool,
    pub active: bool,
}

impl Company {
    /// Applies an update: the changeset's fields take its values, every
    /// other field keeps its own.
    pub fn apply_changeset(&mut self, changeset: CompanyChangeset)
        ensures
            *final(self) == (Company {
                verified: changeset.verified,
                active: changeset.active,
                ..*old(self)
            }),
    {
        self.verified = changeset.verified;
        self.active = changeset.active;
    }
}

impl Record for Company {
    type Changeset = CompanyChangeset;

    open spec fn key(&self) -> i64 {
        self.company_id
    }

    open spec fn changed(self, changeset: CompanyChangeset) -> Company {
        Company { verified: changeset.verified, active: changeset.active, ..self }
    }

    fn id(&self) -> (r: i64) {
        self.company_id
    }

    fn apply(&mut self, changeset: CompanyChangeset) {
        self.apply_changeset(changeset);
    }

    fn duplicate(&self) -> (r: Company) {
        Company {
            company_id: self.company_id,
            jobboard_id: self.jobboard_id,
            company_name: self.company_name.clone(),
            logo: copy_text(&self.logo),
            website: self.website.clone(),
            description: copy_text(&self.description),
            region: copy_text(&self.region),
            timestamp: self.timestamp,
            verified: self.verified,
            active: self.active,
        }
    }
}

} // verus!
