//! The four entities, with their creation payloads and changesets.
mod application;
mod company;
mod jobboard;
mod vacancy;

pub use application::{Application, ApplicationChangeset, NewApplication};
pub use company::{Company, CompanyChangeset, NewCompany};
pub use jobboard::{Jobboard, JobboardChangeset, NewJobboard};
pub use vacancy::{NewVacancy, Vacancy, VacancyChangeset};
