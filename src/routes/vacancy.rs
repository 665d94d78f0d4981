use vstd::prelude::*;

use crate::store::Record;
use crate::values::{copy_text, HoursRange, Timestamp};

verus! {

/// A stored vacancy, owned by a job board and a company.
#[derive(Clone, Debug, PartialEq, Eq)]
pub struct Vacancy {
    pub vacancy_id: i64,
    pub jobboard_id: i64,
    pub company_id: i64,
    pub job_title: String,
    pub location: Option<String>,
    pub start_date: Option<Timestamp>,
    pub directly: Option<bool>,
    /// The working hours, as an integer range.
    pub hours: HoursRange,
    pub positions: Option<i16>,
    pub responsibilities: Option<String>,
    pub skills: Option<String>,
    pub conditions: Option<String>,
    pub description: Option<String>,
    pub url: Option<String>,
    pub commission: Option<i16>,
    pub status: String,
    pub verified: bool,
    pub active: bool,
}

/// The fields given when a vacancy is created. Unlike the other entities,
/// a vacancy is created with its primary key.
#[derive(Clone, Debug, PartialEq, Eq)]
pub struct NewVacancy {
    pub jobboard_id: i64,
    pub vacancy_id: i64,
    pub job_title: String,
    pub location: Option<String>,
    pub start_date: Option<Timestamp>,
    pub directly: Option<bool>,
    pub hours: HoursRange,
    pub positions: Option<i16>,
    pub responsibilities: Option<String>,
    pub skills: Option<String>,
    pub conditions: Option<String>,
    pub description: Option<String>,
    pub url: Option<String>,
    pub commission: Option<i16>,
}

/// The fields that an update of a vacancy may change.
#[derive(Clone, Debug, PartialEq, Eq)]
pub struct VacancyChangeset {
    pub status: String,
    pub verified: bool,
    pub active: bool,
}

impl Vacancy {
    /// Applies an update: the changeset's fields take its values, every
    /// other field keeps its own.
    pub fn apply_changeset(&mut self, changeset: VacancyChangeset)
        ensures
            *final(self) == (Vacancy {
                status: changeset.status,
                verified: changeset.verified,
                active: changeset.active,
                ..*old(self)
            }),
    {
        self.status = changeset.status;
        self.verified = changeset.verified;
        self.active = changeset.active;
    }
}

impl Record for Vacancy {
    type Changeset = VacancyChangeset;

    open spec fn key(&self) -> i64 {
        self.vacancy_id
    }

    open spec fn changed(self, changeset: VacancyChangeset) -> Vacancy {
        Vacancy { status: changeset.status, verified: changeset.verified, active: changeset.active, ..self }
    }

    fn id(&self) -> (r: i64) {
        self.vacancy_id
    }

    fn apply(&mut self, changeset: VacancyChangeset) {
        self.apply_changeset(changeset);
    }

    fn duplicate(&self) -> (r: Vacancy) {
        Vacancy {
            vacancy_id: self.vacancy_id,
            jobboard_id: self.jobboard_id,
            company_id: self.company_id,
            job_title: self.job_title.clone(),
            location: copy_text(&self.location),
            start_date: self.start_date,
            directly: self.directly,
            hours: self.hours,
            positions: self.positions,
            responsibilities: copy_text(&self.responsibilities),
            skills: copy_text(&self.skills),
            conditions: copy_text(&self.conditions),
            description: copy_text(&self.description),
            url: copy_text(&self.url),
            commission: self.commission,
            status: self.status.clone(),
            verified: self.verified,
            active: self.active,
        }
    }
}

} // verus!
