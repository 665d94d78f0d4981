use oh_platform::routes::{Jobboard, JobboardChangeset, Vacancy, VacancyChangeset};
use oh_platform::{Error, HoursRange, RangeBound, Table, Timestamp};

fn board(id: i64, name: &str, account: &str) -> Jobboard {
    Jobboard {
        jobboard_id: id,
        jobboard_name: name.to_string(),
        url: None,
        account: account.to_string(),
        key: None,
        timestamp: None,
        verified: false,
        active: false,
    }
}

fn vacancy(id: i64) -> Vacancy {
    Vacancy {
        vacancy_id: id,
        jobboard_id: 1,
        company_id: 2,
        job_title: "Baker".to_string(),
        location: Some("Town".to_string()),
        start_date: Some(Timestamp { seconds: 1_700_000_000, nanos: 0 }),
        directly: None,
        hours: HoursRange { lower: RangeBound::Included(8), upper: RangeBound::Unbounded },
        positions: None,
        responsibilities: None,
        skills: Some("bread".to_string()),
        conditions: None,
        description: None,
        url: None,
        commission: Some(5),
        status: "open".to_string(),
        verified: false,
        active: true,
    }
}

#[test]
fn create_then_get_returns_created_row() {
    let mut table = Table::new();
    let created = table.create(board(1, "Acme", "acme1")).unwrap();
    assert_eq!(created, board(1, "Acme", "acme1"));
    assert_eq!(table.get(1), Ok(created));
}

#[test]
fn absent_id_is_not_found_everywhere() {
    let mut table = Table::new();
    table.create(board(1, "Acme", "acme1")).unwrap();
    assert_eq!(table.get(999), Err(Error::NotFound));
    assert_eq!(
        table.update(999, JobboardChangeset { verified: true, active: true }),
        Err(Error::NotFound)
    );
    assert_eq!(table.delete(999), Err(Error::NotFound));
    assert_eq!(table.get(1), Ok(board(1, "Acme", "acme1")));
}

#[test]
fn update_changes_only_its_row_and_fields() {
    let mut table = Table::new();
    table.create(vacancy(1)).unwrap();
    table.create(vacancy(2)).unwrap();
    let updated = table
        .update(2, VacancyChangeset { status: "filled".to_string(), verified: true, active: false })
        .unwrap();
    let mut expected = vacancy(2);
    expected.status = "filled".to_string();
    expected.verified = true;
    expected.active = false;
    assert_eq!(updated, expected);
    assert_eq!(table.get(2), Ok(expected));
    assert_eq!(table.get(1), Ok(vacancy(1)));
}

#[test]
fn delete_twice_second_is_not_found() {
    let mut table = Table::new();
    table.create(board(5, "Five", "five")).unwrap();
    assert_eq!(table.delete(5), Ok(()));
    assert_eq!(table.delete(5), Err(Error::NotFound));
    assert_eq!(table.get(5), Err(Error::NotFound));
}

#[test]
fn duplicate_key_is_conflict_and_not_persisted() {
    let mut table = Table::new();
    table.create(board(1, "Acme", "acme1")).unwrap();
    let second = table.create(board(1, "Other", "other"));
    match &second {
        Err(Error::ConflictedData(_)) => {},
        other => panic!("expected a conflict, got {:?}", other),
    }
    assert_eq!(second.unwrap_err().get_http_status().code, 409);
    assert_eq!(table.get(1), Ok(board(1, "Acme", "acme1")));
    assert_eq!(table.get_all(), vec![board(1, "Acme", "acme1")]);
}

#[test]
fn get_all_lists_every_row_once() {
    let mut table = Table::new();
    assert!(table.get_all().is_empty());
    table.create(board(1, "A", "a")).unwrap();
    table.create(board(2, "B", "b")).unwrap();
    table.create(board(3, "C", "c")).unwrap();
    table.delete(2).unwrap();
    let mut ids: Vec<i64> = table.get_all().iter().map(|b| b.jobboard_id).collect();
    ids.sort();
    assert_eq!(ids, vec![1, 3]);
}
