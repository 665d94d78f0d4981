//! Job-board platform: the rules behind a REST API over four related tables
//! (job boards, companies, vacancies and applications).
//!
//! The library holds the error taxonomy and its HTTP status mapping, the
//! response envelope, the catch-all responses, the single-row and
//! rows-affected rules of the data access helper, the entities with their
//! creation payloads and changesets, and a table with the store's semantics,
//! over which the laws of create, get, update and delete are proved.

pub mod catchers;
mod database;
mod error;
mod response;
pub mod routes;
mod status;
mod store;
mod values;

pub use database::{deletion_outcome, single_row};
pub use error::{
    debug_text, error_of_store_failure, failure_of, json_failure_message, message_of, status_code_of, Error,
    JsonFailure, StoreFailure,
};
pub use response::{Envelope, IntoResponse, OpaqueError, Response};
pub use status::Status;
pub use store::{
    after_create, after_update, create_conflicts, delete_result, get_result, lemma_absent_key_not_found,
    lemma_create_then_get, lemma_delete_twice, lemma_duplicate_key_conflicts,
    lemma_update_changes_one_row, update_result, Record, Table,
};
pub use values::{HoursRange, RangeBound, Timestamp};
