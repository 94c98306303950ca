//! End-to-end scenarios for the five handlers against the in-memory store.

use api_db_rs::handler::server::{
    all_records, create_precheck, create_record, delete_record, record_by_id, update_record,
    RecordParams, RecordRequest,
};
use api_db_rs::model::domain::Record;
use api_db_rs::model::error::{AppError, ErrorCode};
use api_db_rs::repository::memory::Memory;

#[test]
fn list_is_empty_at_start() {
    let repo = Memory::new();
    let (status, records) = all_records(&repo).unwrap();
    assert_eq!(status, 200);
    assert_eq!(records.len(), 0);
}

#[test]
fn create_assigns_first_id_and_conflict_leaves_one_row() {
    let mut repo = Memory::new();
    let (status, rec) = create_record(
        &mut repo,
        RecordRequest { name: "alpha".to_string() },
    )
    .unwrap();
    assert_eq!(status, 201);
    assert_eq!(rec.id, 1);
    assert_eq!(rec.name, "alpha");

    let err = create_record(
        &mut repo,
        RecordRequest { name: "alpha".to_string() },
    )
    .unwrap_err();
    assert!(matches!(err, AppError::RecordFound(_)));
    let (code, body) = err.into_response();
    assert_eq!(code, 400);
    assert!(matches!(body.code, ErrorCode::DataError));
    assert_eq!(body.code.as_label(), "DATA_ERROR");

    let (_, records) = all_records(&repo).unwrap();
    assert_eq!(records.len(), 1);
}

#[test]
fn create_then_get_returns_the_created_record() {
    let mut repo = Memory::new();
    let (_, created) = create_record(
        &mut repo,
        RecordRequest { name: "alpha".to_string() },
    )
    .unwrap();
    let (status, fetched) = record_by_id(&repo, RecordParams { id: created.id }).unwrap();
    assert_eq!(status, 200);
    assert_eq!(fetched.id, created.id);
    assert_eq!(fetched.name, "alpha");
}

#[test]
fn created_ids_are_distinct_and_never_reused() {
    let mut repo = Memory::new();
    let (_, a) = create_record(&mut repo, RecordRequest { name: "a".to_string() }).unwrap();
    let (_, b) = create_record(&mut repo, RecordRequest { name: "b".to_string() }).unwrap();
    assert_ne!(a.id, b.id);
    delete_record(&mut repo, RecordParams { id: b.id }).unwrap();
    let (_, c) = create_record(&mut repo, RecordRequest { name: "c".to_string() }).unwrap();
    assert_ne!(c.id, a.id);
    assert_ne!(c.id, b.id);
}

#[test]
fn get_of_an_id_never_inserted_is_not_found() {
    let mut repo = Memory::new();
    let err = record_by_id(&repo, RecordParams { id: 7 }).unwrap_err();
    assert!(matches!(err, AppError::RecordNotFound(_)));
    assert_eq!(err.status(), 404);

    create_record(&mut repo, RecordRequest { name: "alpha".to_string() }).unwrap();
    let err = record_by_id(&repo, RecordParams { id: 7 }).unwrap_err();
    assert_eq!(err.status(), 404);
}

#[test]
fn update_changes_only_the_name() {
    let mut repo = Memory::new();
    create_record(&mut repo, RecordRequest { name: "alpha".to_string() }).unwrap();
    let (status, updated) = update_record(
        &mut repo,
        RecordParams { id: 1 },
        RecordRequest { name: "beta".to_string() },
    )
    .unwrap();
    assert_eq!(status, 200);
    assert_eq!(updated.id, 1);
    assert_eq!(updated.name, "beta");

    let (_, fetched) = record_by_id(&repo, RecordParams { id: 1 }).unwrap();
    assert_eq!(fetched.id, 1);
    assert_eq!(fetched.name, "beta");
}

#[test]
fn update_of_a_missing_id_is_not_found() {
    let mut repo = Memory::new();
    let err = update_record(
        &mut repo,
        RecordParams { id: 3 },
        RecordRequest { name: "beta".to_string() },
    )
    .unwrap_err();
    assert!(matches!(err, AppError::RecordNotFound(_)));
    assert_eq!(err.status(), 404);
}

#[test]
fn delete_then_get_is_not_found() {
    let mut repo = Memory::new();
    create_record(&mut repo, RecordRequest { name: "alpha".to_string() }).unwrap();
    let status = delete_record(&mut repo, RecordParams { id: 1 }).unwrap();
    assert_eq!(status, 200);
    let err = record_by_id(&repo, RecordParams { id: 1 }).unwrap_err();
    assert!(matches!(err, AppError::RecordNotFound(_)));
    assert_eq!(err.status(), 404);
}

#[test]
fn delete_of_a_missing_id_is_not_found_at_the_handler() {
    let mut repo = Memory::new();
    let err = delete_record(&mut repo, RecordParams { id: 1 }).unwrap_err();
    assert!(matches!(err, AppError::RecordNotFound(_)));
}

#[test]
fn delete_keeps_the_other_rows() {
    let mut repo = Memory::new();
    create_record(&mut repo, RecordRequest { name: "a".to_string() }).unwrap();
    create_record(&mut repo, RecordRequest { name: "b".to_string() }).unwrap();
    create_record(&mut repo, RecordRequest { name: "c".to_string() }).unwrap();
    delete_record(&mut repo, RecordParams { id: 2 }).unwrap();
    let (_, records) = all_records(&repo).unwrap();
    assert_eq!(records.len(), 2);
    assert_eq!(records[0].id, 1);
    assert_eq!(records[0].name, "a");
    assert_eq!(records[1].id, 3);
    assert_eq!(records[1].name, "c");
}

#[test]
fn precheck_turns_a_hit_into_a_conflict() {
    let hit: Result<Record, AppError> = Ok(Record { id: 1, name: "alpha".to_string() });
    let err = create_precheck(hit).unwrap_err();
    assert!(matches!(err, AppError::RecordFound(_)));
    let (status, body) = err.into_response();
    assert_eq!(status, 400);
    assert_eq!(body.message, "record already exist record with name alpha already exist");
}

#[test]
fn precheck_lets_absence_proceed_and_propagates_other_failures() {
    let missing: Result<Record, AppError> = Err(AppError::RecordNotFound("x".to_string()));
    assert!(create_precheck(missing).is_ok());
    let broken: Result<Record, AppError> =
        Err(AppError::DatabaseError("connection lost".to_string()));
    let err = create_precheck(broken).unwrap_err();
    assert!(matches!(err, AppError::DatabaseError(_)));
}
