//! The per-endpoint request handlers: each is one linear transaction against
//! a repository, orchestrating the existence and uniqueness checks and
//! returning the status code and body of the response, or the failure the
//! HTTP boundary renders.

use vstd::prelude::*;
use vstd::string::StringExecFns;

use crate::api::repo::Repository;
use crate::model::domain::{
    find_id, has_id, has_name, lemma_find_id, lemma_find_name_first, remove_id, rename_id, Record,
    RecordModel,
};
use crate::model::error::AppError;

verus! {

/// The path parameter of the single-record endpoints.
pub struct RecordParams {
    pub id: i32,
}

/// The JSON body of create and update requests.
pub struct RecordRequest {
    pub name: String,
}

/// The create handler's uniqueness decision, taken on the result of the
/// pre-create name lookup: an existing record is a conflict, absence lets
/// the create proceed, and any other failure propagates unchanged.
pub fn create_precheck(lookup: Result<Record, AppError>) -> (r: Result<(), AppError>)
    ensures
        lookup matches Ok(found) ==> (r matches Err(e) && e@ is RecordFound),
        lookup matches Err(le) ==> {
            &&& le@ is RecordNotFound ==> r is Ok
            &&& !(le@ is RecordNotFound) ==> r == Err::<(), AppError>(le)
        },
        r is Ok <==> (lookup matches Err(le) && le@ is RecordNotFound),
{
    match lookup {
        Ok(found) => Err(
            AppError::RecordFound(
                String::from_str("record with name ").concat(found.name.as_str()).concat(
                    " already exist",
                ),
            ),
        ),
        Err(e) => match e {
            AppError::RecordNotFound(_) => Ok(()),
            _ => Err(e),
        },
    }
}

/// List: every row, possibly none, under status 200.
pub fn all_records<R: Repository>(repo: &R) -> (r: Result<(u16, Vec<Record>), AppError>)
    requires
        repo.inv(),
    ensures
        r matches Ok(p) ==> p.0 == 200 && p.1.deep_view() == repo.rows(),
        r matches Err(e) ==> e@ is DatabaseError,
{
    let records = match repo.read_records() {
        Ok(v) => v,
        Err(e) => {
            return Err(e);
        },
    };
    Ok((200, records))
}

/// Get by id: the first row carrying the id under status 200; absence
/// propagates as `RecordNotFound`, and an id no row carries is never served.
pub fn record_by_id<R: Repository>(repo: &R, params: RecordParams) -> (r: Result<
    (u16, Record),
    AppError,
>)
    requires
        repo.inv(),
    ensures
        r matches Ok(p) ==> {
            &&& p.0 == 200
            &&& find_id(repo.rows(), params.id as int) == Some(p.1@)
            &&& has_id(repo.rows(), params.id as int)
        },
        r matches Err(e) ==> {
            &&& e@ is RecordNotFound || e@ is DatabaseError || e@ is ApplicationError
            &&& e@ is RecordNotFound ==> !has_id(repo.rows(), params.id as int)
        },
        !has_id(repo.rows(), params.id as int) ==> r is Err,
{
    let record = match repo.read_record(params.id) {
        Ok(rec) => rec,
        Err(e) => {
            return Err(e);
        },
    };
    proof {
        lemma_find_id(repo.rows(), params.id as int);
    }
    Ok((200, record))
}

/// Create: refused as a conflict while any row carries the requested name;
/// otherwise one row is inserted under a fresh server-assigned id and
/// re-read to serve it under status 201.
pub fn create_record<R: Repository>(repo: &mut R, request: RecordRequest) -> (r: Result<
    (u16, Record),
    AppError,
>)
    requires
        old(repo).inv(),
    ensures
        final(repo).inv(),
        r matches Ok(p) ==> {
            &&& p.0 == 201
            &&& p.1@.name == request.name@
            &&& !has_name(old(repo).rows(), request.name@)
            &&& !has_id(old(repo).rows(), p.1@.id)
            &&& final(repo).rows() == old(repo).rows().push(p.1@)
        },
        has_name(old(repo).rows(), request.name@) ==> r is Err && final(repo).rows() == old(
            repo).rows(),
        r matches Err(e) ==> {
            &&& e@ is RecordFound || e@ is DatabaseError || e@ is ApplicationError
            &&& e@ is RecordFound ==> has_name(old(repo).rows(), request.name@) && final(
                repo).rows() == old(repo).rows()
            &&& final(repo).rows() == old(repo).rows() || (exists|fid: int|
                !has_id(old(repo).rows(), fid) && final(repo).rows() == old(repo).rows().push(
                    RecordModel { id: fid, name: request.name@ },
                ))
        },
{
    let name = request.name;
    let lookup = repo.read_record_by_name(name.clone());
    proof {
        crate::model::domain::lemma_find_name(repo.rows(), name@);
    }
    match create_precheck(lookup) {
        Ok(_) => {},
        Err(e) => {
            return Err(e);
        },
    };
    let record = Record { id: 0, name };
    match repo.save_record(&record) {
        Ok(_) => {},
        Err(e) => {
            return Err(e);
        },
    };
    let ghost mid = repo.rows();
    let record = match repo.read_record_by_name(record.name) {
        Ok(rec) => rec,
        Err(e) => {
            proof {
                let fid = choose|fid: int|
                    !has_id(old(repo).rows(), fid) && mid == old(repo).rows().push(
                        RecordModel { id: fid, name: request.name@ },
                    );
                assert(mid[old(repo).rows().len() as int].name == request.name@);
                assert(has_name(mid, request.name@));
            }
            return Err(e);
        },
    };
    proof {
        let fid = choose|fid: int|
            !has_id(old(repo).rows(), fid) && mid == old(repo).rows().push(
                RecordModel { id: fid, name: request.name@ },
            );
        let created = RecordModel { id: fid, name: request.name@ };
        assert(forall|j: int| 0 <= j < old(repo).rows().len() ==> mid[j] == old(repo).rows()[j]);
        lemma_find_name_first(mid, request.name@, old(repo).rows().len() as int);
        assert(record@ == created);
    }
    Ok((201, record))
}

/// Update: the existence read is the guard, since the store's own update
/// does not report absence; only the name of the addressed record changes,
/// and the updated record is served under status 200.
pub fn update_record<R: Repository>(
    repo: &mut R,
    params: RecordParams,
    request: RecordRequest,
) -> (r: Result<(u16, Record), AppError>)
    requires
        old(repo).inv(),
    ensures
        final(repo).inv(),
        r matches Ok(p) ==> {
            &&& p.0 == 200
            &&& p.1@.id == params.id as int
            &&& p.1@.name == request.name@
            &&& has_id(old(repo).rows(), params.id as int)
            &&& final(repo).rows() == rename_id(old(repo).rows(), params.id as int, request.name@)
        },
        r is Err ==> final(repo).rows() == old(repo).rows(),
        r matches Err(e) ==> {
            &&& e@ is RecordNotFound || e@ is DatabaseError || e@ is ApplicationError
            &&& e@ is RecordNotFound ==> !has_id(old(repo).rows(), params.id as int)
        },
        !has_id(old(repo).rows(), params.id as int) ==> r is Err,
{
    let record = match repo.read_record(params.id) {
        Ok(rec) => rec,
        Err(e) => {
            return Err(e);
        },
    };
    proof {
        lemma_find_id(repo.rows(), params.id as int);
    }
    let record = record.with_name(request.name);
    match repo.update_record(&record) {
        Ok(_) => {},
        Err(e) => {
            return Err(e);
        },
    };
    Ok((200, record))
}

/// Delete: the existence read is the guard, since the store's own delete
/// does not report absence; the addressed record is removed and an empty
/// body is served under status 200.
pub fn delete_record<R: Repository>(repo: &mut R, params: RecordParams) -> (r: Result<
    u16,
    AppError,
>)
    requires
        old(repo).inv(),
    ensures
        final(repo).inv(),
        r matches Ok(s) ==> {
            &&& s == 200
            &&& has_id(old(repo).rows(), params.id as int)
            &&& final(repo).rows() == remove_id(old(repo).rows(), params.id as int)
            &&& !has_id(final(repo).rows(), params.id as int)
        },
        r is Err ==> final(repo).rows() == old(repo).rows(),
        r matches Err(e) ==> {
            &&& e@ is RecordNotFound || e@ is DatabaseError || e@ is ApplicationError
            &&& e@ is RecordNotFound ==> !has_id(old(repo).rows(), params.id as int)
        },
        !has_id(old(repo).rows(), params.id as int) ==> r is Err,
{
    let record = match repo.read_record(params.id) {
        Ok(rec) => rec,
        Err(e) => {
            return Err(e);
        },
    };
    proof {
        lemma_find_id(repo.rows(), params.id as int);
    }
    match repo.delete_record(record.id) {
        Ok(_) => {},
        Err(e) => {
            return Err(e);
        },
    };
    proof {
        crate::model::domain::lemma_remove_id_absent(old(repo).rows(), params.id as int);
    }
    Ok(200)
}

} // verus!
