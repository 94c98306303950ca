//! The repository capability contract: the persistence operations the
//! handlers are written against, stated over the store's row model. A
//! store's rows are its observable contents; `inv` is whatever
//! well-formedness the implementation maintains.

use vstd::prelude::*;

use crate::model::domain::{
    find_id, find_name, has_id, has_name, remove_id, rename_id, Record, RecordModel,
};
use crate::model::error::AppError;

verus! {

pub trait Repository: Sized {
    /// The rows the store currently holds, in storage order.
    spec fn rows(&self) -> Seq<RecordModel>;

    /// The store's own well-formedness; every operation preserves it.
    spec fn inv(&self) -> bool;

    /// Returns every row; an empty result is valid and not an error.
    fn read_records(&self) -> (r: Result<Vec<Record>, AppError>)
        requires
            self.inv(),
        ensures
            r matches Ok(v) ==> v.deep_view() == self.rows(),
            r matches Err(e) ==> e@ is DatabaseError,
    ;

    /// Returns the first row carrying `id`; fails `RecordNotFound` if no
    /// row matches.
    fn read_record(&self, id: i32) -> (r: Result<Record, AppError>)
        requires
            self.inv(),
        ensures
            r matches Ok(rec) ==> find_id(self.rows(), id as int) == Some(rec@),
            r matches Err(e) ==> {
                &&& e@ is RecordNotFound || e@ is DatabaseError || e@ is ApplicationError
                &&& e@ is RecordNotFound ==> !has_id(self.rows(), id as int)
            },
    ;

    /// Returns the first row carrying `name`; fails `RecordNotFound` if no
    /// row matches. Used both for direct lookup and for the pre-create
    /// uniqueness check.
    fn read_record_by_name(&self, name: String) -> (r: Result<Record, AppError>)
        requires
            self.inv(),
        ensures
            r matches Ok(rec) ==> find_name(self.rows(), name@) == Some(rec@),
            r matches Err(e) ==> {
                &&& e@ is RecordNotFound || e@ is DatabaseError || e@ is ApplicationError
                &&& e@ is RecordNotFound ==> !has_name(self.rows(), name@)
            },
    ;

    /// Inserts one new row with `record`'s name under a server-assigned id
    /// no current row carries; on failure the store is unchanged.
    fn save_record(&mut self, record: &Record) -> (r: Result<(), AppError>)
        requires
            old(self).inv(),
        ensures
            final(self).inv(),
            r is Ok ==> exists|fid: int|
                !has_id(old(self).rows(), fid) && final(self).rows() == old(self).rows().push(
                    RecordModel { id: fid, name: record@.name },
                ),
            r matches Err(e) ==> {
                &&& final(self).rows() == old(self).rows()
                &&& e@ is DatabaseError || e@ is ApplicationError
            },
    ;

    /// Overwrites the name of every row carrying `record`'s id; silently
    /// succeeds, with no effect, where no row matches.
    fn update_record(&mut self, record: &Record) -> (r: Result<(), AppError>)
        requires
            old(self).inv(),
        ensures
            final(self).inv(),
            r is Ok ==> final(self).rows() == rename_id(
                old(self).rows(),
                record@.id,
                record@.name,
            ),
            r matches Err(e) ==> {
                &&& final(self).rows() == old(self).rows()
                &&& e@ is DatabaseError
            },
    ;

    /// Removes every row carrying `id`; silently succeeds, with no effect,
    /// where no row matches.
    fn delete_record(&mut self, id: i32) -> (r: Result<(), AppError>)
        requires
            old(self).inv(),
        ensures
            final(self).inv(),
            r is Ok ==> final(self).rows() == remove_id(old(self).rows(), id as int),
            r matches Err(e) ==> {
                &&& final(self).rows() == old(self).rows()
                &&& e@ is DatabaseError
            },
    ;
}

} // verus!
