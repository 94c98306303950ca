//! The repository operations themselves: the in-memory store's contract,
//! including the silent no-op update and delete, and the relational
//! repository's row-level decisions.

use api_db_rs::api::repo::Repository;
use api_db_rs::model::domain::Record;
use api_db_rs::model::error::AppError;
use api_db_rs::repository::memory::Memory;
use api_db_rs::repository::relational::{
    check_insert_count, first_record_for_id, first_record_for_name,
};

#[test]
fn save_then_read_back_by_name() {
    let mut repo = Memory::new();
    repo.save_record(&Record { id: 0, name: "alpha".to_string() }).unwrap();
    let rec = repo.read_record_by_name("alpha".to_string()).unwrap();
    assert_eq!(rec.id, 1);
    assert_eq!(rec.name, "alpha");
    let rec = repo.read_record(1).unwrap();
    assert_eq!(rec.name, "alpha");
}

#[test]
fn read_of_missing_rows_reports_absence() {
    let repo = Memory::new();
    let err = repo.read_record(1).unwrap_err();
    assert!(matches!(err, AppError::RecordNotFound(_)));
    assert_eq!(err.message(), "record not found id not found 1");
    let err = repo.read_record_by_name("alpha".to_string()).unwrap_err();
    assert!(matches!(err, AppError::RecordNotFound(_)));
    assert_eq!(err.message(), "record not found name not found alpha");
}

#[test]
fn update_of_a_missing_id_silently_succeeds_with_zero_effect() {
    let mut repo = Memory::new();
    repo.save_record(&Record { id: 0, name: "alpha".to_string() }).unwrap();
    repo.update_record(&Record { id: 9, name: "beta".to_string() }).unwrap();
    let records = repo.read_records().unwrap();
    assert_eq!(records.len(), 1);
    assert_eq!(records[0].name, "alpha");
}

#[test]
fn delete_of_a_missing_id_silently_succeeds_with_zero_effect() {
    let mut repo = Memory::new();
    repo.save_record(&Record { id: 0, name: "alpha".to_string() }).unwrap();
    repo.delete_record(9).unwrap();
    repo.delete_record(9).unwrap();
    let records = repo.read_records().unwrap();
    assert_eq!(records.len(), 1);
}

#[test]
fn update_renames_the_matching_row_only() {
    let mut repo = Memory::new();
    repo.save_record(&Record { id: 0, name: "a".to_string() }).unwrap();
    repo.save_record(&Record { id: 0, name: "b".to_string() }).unwrap();
    repo.update_record(&Record { id: 2, name: "c".to_string() }).unwrap();
    let records = repo.read_records().unwrap();
    assert_eq!(records[0].name, "a");
    assert_eq!(records[1].name, "c");
    assert_eq!(records[1].id, 2);
}

#[test]
fn first_record_epilogues_report_absence_or_the_first_row() {
    let err = first_record_for_id(Vec::new(), 4).unwrap_err();
    assert!(matches!(err, AppError::RecordNotFound(_)));
    assert_eq!(err.message(), "record not found id not found 4");

    let err = first_record_for_name(Vec::new(), &"alpha".to_string()).unwrap_err();
    assert_eq!(err.message(), "record not found name not found alpha");

    let rows = vec![
        Record { id: 2, name: "x".to_string() },
        Record { id: 3, name: "y".to_string() },
    ];
    let rec = first_record_for_id(rows, 2).unwrap();
    assert_eq!(rec.id, 2);
    assert_eq!(rec.name, "x");
}

#[test]
fn insert_count_must_be_exactly_one() {
    assert!(check_insert_count(1).is_ok());
    let err = check_insert_count(0).unwrap_err();
    assert!(matches!(err, AppError::ApplicationError(_)));
    assert_eq!(err.message(), "error with application error reading records created 0");
    assert!(check_insert_count(2).is_err());
}

#[test]
fn negative_ids_render_in_diagnostics() {
    let repo = Memory::new();
    let err = repo.read_record(-12).unwrap_err();
    assert_eq!(err.message(), "record not found id not found -12");
}
