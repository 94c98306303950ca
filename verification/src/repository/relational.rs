//! The computing core of the relational repository: mapping the backend's
//! returned rows to records, and the decisions taken on what a statement
//! reported. The statements themselves are issued by the surrounding
//! program over its connection; everything that can be said of a row or a
//! count without the connection is said — and verified — here.

use vstd::prelude::*;
use vstd::string::StringExecFns;

use crate::model::domain::Record;
use crate::model::error::AppError;
use crate::text::{i32_string, u64_string};

verus! {

#[verifier::external_type_specification]
#[verifier::external_body]
pub struct ExRow(tokio_postgres::Row);

/// The value the row's `id` column holds, where it can be read as an `i32`;
/// a deterministic function of the row's own data.
pub uninterp spec fn row_id_of(r: tokio_postgres::Row) -> Option<i32>;

/// The value the row's `name` column holds, where it can be read as a
/// string; a deterministic function of the row's own data.
pub uninterp spec fn row_name_of(r: tokio_postgres::Row) -> Option<Seq<char>>;

/// Relies on `tokio_postgres::Row::try_get` on the `id` column: the result
/// is read from the row's own statement metadata and body bytes alone.
#[verifier::external_body]
fn row_get_id(row: &tokio_postgres::Row) -> (r: Option<i32>)
    ensures
        r == row_id_of(*row),
{
    row.try_get("id").ok()
}

/// Relies on `tokio_postgres::Row::try_get` on the `name` column: the
/// result is read from the row's own statement metadata and body bytes
/// alone.
#[verifier::external_body]
fn row_get_name(row: &tokio_postgres::Row) -> (r: Option<String>)
    ensures
        r matches Some(s) ==> row_name_of(*row) == Some(s@),
        r is None ==> row_name_of(*row) is None,
{
    row.try_get::<_, String>("name").ok()
}

/// Maps each returned row to a `Record` by reading exactly its `id` and
/// `name` columns; failure to read either column of any row is a storage
/// failure.
pub fn row_to_record(rows: Vec<tokio_postgres::Row>) -> (r: Result<Vec<Record>, AppError>)
    ensures
        r matches Ok(v) ==> {
            &&& v@.len() == rows@.len()
            &&& forall|i: int|
                0 <= i < rows@.len() ==> row_id_of(rows@[i]) == Some(#[trigger] v@[i].id)
                    && row_name_of(rows@[i]) == Some(v@[i].name@)
        },
        r is Ok <==> (forall|i: int|
            0 <= i < rows@.len() ==> (#[trigger] row_id_of(rows@[i])) is Some && row_name_of(
                rows@[i],
            ) is Some),
        r matches Err(e) ==> e@ is DatabaseError,
{
    let mut records: Vec<Record> = Vec::new();
    let mut i: usize = 0;
    while i < rows.len()
        invariant
            i <= rows@.len(),
            records@.len() == i as int,
            forall|j: int|
                0 <= j < i as int ==> row_id_of(rows@[j]) == Some(
                    #[trigger] records@[j].id,
                ) && row_name_of(rows@[j]) == Some(records@[j].name@),
        decreases rows@.len() - i,
    {
        let row = &rows[i];
        let id = match row_get_id(row) {
            Some(v) => v,
            None => {
                return Err(
                    AppError::DatabaseError(String::from_str("error reading attribute id")),
                );
            },
        };
        let name = match row_get_name(row) {
            Some(v) => v,
            None => {
                return Err(
                    AppError::DatabaseError(String::from_str("error reading attribute name")),
                );
            },
        };
        records.push(Record { id, name });
        i += 1;
    }
    proof {
        assert forall|k: int|
            0 <= k < rows@.len() implies (#[trigger] row_id_of(rows@[k])) is Some && row_name_of(
            rows@[k],
        ) is Some by {
            assert(row_id_of(rows@[k]) == Some(records@[k].id));
        }
    }
    Ok(records)
}

/// The read-by-id epilogue: the first mapped record, or absence reported
/// against the id looked up.
pub fn first_record_for_id(records: Vec<Record>, id: i32) -> (r: Result<Record, AppError>)
    ensures
        r matches Ok(rec) ==> records@.len() > 0 && rec@ == records@[0]@,
        r matches Err(e) ==> e@ is RecordNotFound,
        r is Ok <==> records@.len() > 0,
{
    if records.len() == 0 {
        return Err(
            AppError::RecordNotFound(
                String::from_str("id not found ").concat(i32_string(id).as_str()),
            ),
        );
    }
    let rec = records[0].clone();
    Ok(rec)
}

/// The read-by-name epilogue: the first mapped record, or absence reported
/// against the name looked up.
pub fn first_record_for_name(records: Vec<Record>, name: &String) -> (r: Result<Record, AppError>)
    ensures
        r matches Ok(rec) ==> records@.len() > 0 && rec@ == records@[0]@,
        r matches Err(e) ==> e@ is RecordNotFound,
        r is Ok <==> records@.len() > 0,
{
    if records.len() == 0 {
        return Err(
            AppError::RecordNotFound(
                String::from_str("name not found ").concat(name.as_str()),
            ),
        );
    }
    let rec = records[0].clone();
    Ok(rec)
}

/// The insert epilogue: exactly one affected row is success; any other
/// count means the insert did not do what was assumed of it.
pub fn check_insert_count(count: u64) -> (r: Result<(), AppError>)
    ensures
        r is Ok <==> count == 1,
        r matches Err(e) ==> e@ is ApplicationError,
{
    if count != 1 {
        return Err(
            AppError::ApplicationError(
                String::from_str("error reading records created ").concat(
                    u64_string(count).as_str(),
                ),
            ),
        );
    }
    Ok(())
}

} // verus!
