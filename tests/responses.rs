use oh_platform::catchers::{bad_request, not_found, unprocessable_entity};
use oh_platform::routes::{Jobboard, JobboardChangeset};
use oh_platform::{
    deletion_outcome, single_row, Envelope, Error, IntoResponse, OpaqueError, Response, Status,
};

fn acme() -> Jobboard {
    Jobboard {
        jobboard_id: 1,
        jobboard_name: "Acme".to_string(),
        url: None,
        account: "acme1".to_string(),
        key: None,
        timestamp: None,
        verified: false,
        active: false,
    }
}

fn failure_body<T>(r: Response<T>) -> (u16, OpaqueError) {
    match r.into_envelope() {
        (status, Envelope::Error(body)) => (status.code, body),
        (_, Envelope::Data(_)) => panic!("expected a failure"),
    }
}

#[test]
fn success_keeps_its_status_and_payload() {
    let r: Result<Jobboard, Error> = Ok(acme());
    match r.into_response(Status::new(Status::CREATED)).into_envelope() {
        (status, Envelope::Data(data)) => {
            assert_eq!(status.code, 201);
            assert_eq!(data, acme());
            assert!(!data.verified);
            assert!(!data.active);
        },
        (_, Envelope::Error(_)) => panic!("expected a success"),
    }
}

#[test]
fn failure_takes_the_status_of_its_error() {
    let r: Result<Jobboard, Error> = Err(Error::ConflictedData("dup".to_string()));
    let (code, body) = failure_body(r.into_response(Status::new(Status::CREATED)));
    assert_eq!(code, 409);
    assert_eq!(
        body,
        OpaqueError { error: "Conflicted data : dup".to_string(), code: 409 }
    );
}

#[test]
fn get_of_absent_row_is_not_found_envelope() {
    let found: Result<Jobboard, Error> = single_row(Vec::new());
    let (code, body) = failure_body(found.into_response(Status::new(Status::OK)));
    assert_eq!(code, 404);
    assert_eq!(body, OpaqueError { error: "Resource not found".to_string(), code: 404 });
}

#[test]
fn single_row_takes_the_first_row() {
    assert_eq!(single_row(vec![7, 8, 9]), Ok(7));
    assert_eq!(single_row(vec![acme()]), Ok(acme()));
    assert_eq!(single_row::<i64>(vec![]), Err(Error::NotFound));
}

#[test]
fn delete_twice_is_not_found_the_second_time() {
    assert_eq!(deletion_outcome(1), Ok(()));
    assert_eq!(deletion_outcome(0), Err(Error::NotFound));
    let first: Result<(), Error> = deletion_outcome(1);
    match first.into_response(Status::new(Status::NO_CONTENT)).into_envelope() {
        (status, Envelope::Data(())) => assert_eq!(status.code, 204),
        (_, Envelope::Error(_)) => panic!("expected a success"),
    }
    let (code, body) = failure_body(deletion_outcome(0).into_response(Status::new(Status::NO_CONTENT)));
    assert_eq!(code, 404);
    assert_eq!(body.error, "Resource not found");
}

#[test]
fn catcher_bad_request() {
    let (code, body) = failure_body(bad_request());
    assert_eq!(code, 400);
    assert_eq!(body.error, "Request is malformed: expected valid JSON");
    assert_eq!(body.code, 400);
}

#[test]
fn catcher_not_found() {
    let (code, body) = failure_body(not_found("/v1/nothing".to_string()));
    assert_eq!(code, 404);
    assert_eq!(body.error, "Unknown route: /v1/nothing");
}

#[test]
fn catcher_unprocessable_entity() {
    let (code, body) = failure_body(unprocessable_entity());
    assert_eq!(code, 422);
    assert_eq!(body.error, "Invalid data: JSON is well-formed but contains semantic errors");
}

#[test]
fn update_changes_only_changeset_fields() {
    let mut row = acme();
    row.apply_changeset(JobboardChangeset { verified: true, active: true });
    let mut expected = acme();
    expected.verified = true;
    expected.active = true;
    assert_eq!(row, expected);
    assert_eq!(row.jobboard_name, "Acme");
    assert_eq!(row.account, "acme1");
}
