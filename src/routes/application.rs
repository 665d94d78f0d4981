use vstd::prelude::*;

use crate::store::Record;
use crate::values::copy_text;

verus! {

/// A stored application to a vacancy.
#[derive(Clone, Debug, PartialEq, Eq)]
pub struct Application {
    pub application_id: i64,
    pub jobboard_id: i64,
    pub vacancy_id: i64,
    pub first_name: Option<String>,
    pub last_name: String,
    pub email: Option<String>,
    pub url_resume: Option<String>,
    pub url_extra_1: Option<String>,
    pub url_extra_2: Option<String>,
    pub url_extra_3: Option<String>,
    pub verified: bool,
    pub status: String,
}

/// The fields given when an application is created.
#[derive(Clone, Debug, PartialEq, Eq)]
pub struct NewApplication {
    pub jobboard_id: i64,
    pub vacancy_id: i64,
    pub first_name: Option<String>,
    pub last_name: String,
    pub email: Option<String>,
    pub url_resume: Option<String>,
    pub url_extra_1: Option<String>,
    pub url_extra_2: Option<String>,
    pub url_extra_3: Option<String>,
}

/// The fields that an update of an application may change.
#[derive(Clone, Debug, PartialEq, Eq)]
pub struct ApplicationChangeset {
    pub verified: bool,
    pub status: String,
}

impl Application {
    /// Applies an update: the changeset's fields take its values, every
    /// other field keeps its own.
    pub fn apply_changeset(&mut self, changeset: ApplicationChangeset)
        ensures
            *final(self) == (Application {
                verified: changeset.verified,
                status: changeset.status,
                ..*old(self)
            }),
    {
        self.verified = changeset.verified;
        self.status = changeset.status;
    }
}

impl Record for Application {
    type Changeset = ApplicationChangeset;

    open spec fn key(&self) -> i64 {
        self.application_id
    }

    open spec fn changed(self, changeset: ApplicationChangeset) -> Application {
        Application { verified: changeset.verified, status: changeset.status, ..self }
    }

    fn id(&self) -> (r: i64) {
        self.application_id
    }

    fn apply(&mut self, changeset: ApplicationChangeset) {
        self.apply_changeset(changeset);
    }

    fn duplicate(&self) -> (r: Application) {
        Application {
            application_id: self.application_id,
            jobboard_id: self.jobboard_id,
            vacancy_id: self.vacancy_id,
            first_name: copy_text(&self.first_name),
            last_name: self.last_name.clone(),
            email: copy_text(&self.email),
            url_resume: copy_text(&self.url_resume),
            url_extra_1: copy_text(&self.url_extra_1),
            url_extra_2: copy_text(&self.url_extra_2),
            url_extra_3: copy_text(&self.url_extra_3),
            verified: self.verified,
            status: self.status.clone(),
        }
    }
}

} // verus!
