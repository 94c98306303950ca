//! The in-memory variant of the repository contract: rows kept in insertion
//! order, ids assigned from a counter so that no id is ever reused within
//! the store's lifetime.

use vstd::prelude::*;
use vstd::string::StringExecFns;

use crate::api::repo::Repository;
use crate::model::domain::{
    has_id, lemma_find_id_first, lemma_find_name_first, lemma_remove_id_absent,
    lemma_remove_id_distinct, lemma_remove_id_elements, remove_id, rename_id, Record, RecordModel,
};
use crate::model::error::AppError;
use crate::text::i32_string;

verus! {

/// An in-memory store satisfying the repository contract; reads never fail,
/// and a write fails only when the id space is exhausted.
pub struct Memory {
    records: Vec<Record>,
    next_id: i32,
}

impl Memory {
    /// The next id the store will assign.
    pub closed spec fn next(&self) -> int {
        self.next_id as int
    }

    /// An empty store; the first assigned id is 1.
    pub fn new() -> (r: Memory)
        ensures
            r.inv(),
            r.rows() == Seq::<RecordModel>::empty(),
            r.next() == 1,
    {
        let r = Memory { records: Vec::new(), next_id: 1 };
        proof {
            assert(r.rows() =~= Seq::<RecordModel>::empty());
        }
        r
    }
}

/// An id the store never assigned — one at or above its counter — matches
/// no row, so a get of such an id is always refused with absence.
pub proof fn lemma_unassigned_id_absent(m: &Memory, id: int)
    requires
        m.inv(),
        m.next() <= id,
    ensures
        !has_id(m.rows(), id),
{
}

impl Repository for Memory {
    closed spec fn rows(&self) -> Seq<RecordModel> {
        self.records.deep_view()
    }

    /// Every id lies below the counter and ids are pairwise distinct, so a
    /// fresh id is distinct from every id the store ever assigned.
    closed spec fn inv(&self) -> bool {
        &&& 1 <= self.next_id as int
        &&& forall|i: int|
            0 <= i < self.rows().len() ==> 1 <= #[trigger] self.rows()[i].id < self.next_id as int
        &&& forall|i: int, j: int|
            0 <= i < j < self.rows().len() ==> self.rows()[i].id != self.rows()[j].id
    }

    fn read_records(&self) -> (r: Result<Vec<Record>, AppError>)
        ensures
            r is Ok,
    {
        let mut out: Vec<Record> = Vec::new();
        let mut i: usize = 0;
        while i < self.records.len()
            invariant
                i <= self.records.len(),
                out@.len() == i as int,
                forall|j: int| 0 <= j < i as int ==> out@[j]@ == self.rows()[j],
            decreases self.records.len() - i,
        {
            let rec = self.records[i].clone();
            out.push(rec);
            i += 1;
        }
        proof {
            assert(out.deep_view() =~= self.rows());
        }
        Ok(out)
    }

    fn read_record(&self, id: i32) -> (r: Result<Record, AppError>)
        ensures
            r is Ok <==> has_id(self.rows(), id as int),
            r matches Err(e) ==> e@ is RecordNotFound,
    {
        let mut i: usize = 0;
        while i < self.records.len()
            invariant
                i <= self.records.len(),
                forall|j: int| 0 <= j < i as int ==> self.rows()[j].id != id as int,
            decreases self.records.len() - i,
        {
            if self.records[i].id == id {
                let rec = self.records[i].clone();
                proof {
                    lemma_find_id_first(self.rows(), id as int, i as int);
                }
                return Ok(rec);
            }
            i += 1;
        }
        Err(
            AppError::RecordNotFound(
                String::from_str("id not found ").concat(i32_string(id).as_str()),
            ),
        )
    }

    fn read_record_by_name(&self, name: String) -> (r: Result<Record, AppError>)
        ensures
            r is Ok <==> crate::model::domain::has_name(self.rows(), name@),
            r matches Err(e) ==> e@ is RecordNotFound,
    {
        let mut i: usize = 0;
        while i < self.records.len()
            invariant
                i <= self.records.len(),
                forall|j: int| 0 <= j < i as int ==> self.rows()[j].name != name@,
            decreases self.records.len() - i,
        {
            if self.records[i].name == name {
                let rec = self.records[i].clone();
                proof {
                    lemma_find_name_first(self.rows(), name@, i as int);
                }
                return Ok(rec);
            }
            i += 1;
        }
        Err(
            AppError::RecordNotFound(String::from_str("name not found ").concat(name.as_str())),
        )
    }

    fn save_record(&mut self, record: &Record) -> (r: Result<(), AppError>)
        ensures
            old(self).next() < i32::MAX ==> r is Ok,
            r is Ok ==> {
                &&& final(self).rows() == old(self).rows().push(
                    RecordModel { id: old(self).next(), name: record@.name },
                )
                &&& final(self).next() == old(self).next() + 1
            },
            r is Err ==> final(self).next() == old(self).next(),
    {
        if self.next_id == i32::MAX {
            return Err(
                AppError::DatabaseError(String::from_str("store cannot assign a fresh id")),
            );
        }
        let id = self.next_id;
        self.records.push(Record { id, name: record.name.clone() });
        self.next_id = id + 1;
        proof {
            assert(self.rows() =~= old(self).rows().push(
                RecordModel { id: id as int, name: record@.name },
            ));
            assert(!has_id(old(self).rows(), id as int));
        }
        Ok(())
    }

    fn update_record(&mut self, record: &Record) -> (r: Result<(), AppError>)
        ensures
            r is Ok,
            final(self).next() == old(self).next(),
    {
        let mut out: Vec<Record> = Vec::new();
        let mut i: usize = 0;
        while i < self.records.len()
            invariant
                i <= self.records.len(),
                self.records@ == old(self).records@,
                self.next_id == old(self).next_id,
                out@.len() == i as int,
                forall|j: int|
                    0 <= j < i as int ==> out@[j]@ == (if self.rows()[j].id == record@.id {
                        RecordModel { id: self.rows()[j].id, name: record@.name }
                    } else {
                        self.rows()[j]
                    }),
            decreases self.records.len() - i,
        {
            if self.records[i].id == record.id {
                out.push(Record { id: self.records[i].id, name: record.name.clone() });
            } else {
                out.push(self.records[i].clone());
            }
            i += 1;
        }
        proof {
            assert(out.deep_view() =~= rename_id(old(self).rows(), record@.id, record@.name));
        }
        self.records = out;
        Ok(())
    }

    fn delete_record(&mut self, id: i32) -> (r: Result<(), AppError>)
        ensures
            r is Ok,
            final(self).next() == old(self).next(),
    {
        let mut out: Vec<Record> = Vec::new();
        let mut i: usize = 0;
        while i < self.records.len()
            invariant
                i <= self.records.len(),
                self.records@ == old(self).records@,
                self.next_id == old(self).next_id,
                out.deep_view() == remove_id(self.rows().subrange(0, i as int), id as int),
            decreases self.records.len() - i,
        {
            proof {
                let pre = self.rows().subrange(0, i as int);
                let cur = self.rows().subrange(0, i as int + 1);
                assert(cur.drop_last() =~= pre);
                assert(cur.last() == self.rows()[i as int]);
            }
            if self.records[i].id != id {
                out.push(self.records[i].clone());
                proof {
                    assert(out.deep_view() =~= remove_id(
                        self.rows().subrange(0, i as int + 1),
                        id as int,
                    ));
                }
            }
            i += 1;
        }
        proof {
            assert(self.rows().subrange(0, self.records@.len() as int) =~= self.rows());
            lemma_remove_id_elements(old(self).rows(), id as int);
            lemma_remove_id_distinct(old(self).rows(), id as int);
            lemma_remove_id_absent(old(self).rows(), id as int);
            let rs = remove_id(old(self).rows(), id as int);
            assert forall|k: int| 0 <= k < rs.len() implies 1 <= #[trigger] rs[k].id < old(
                self,
            ).next_id as int by {
                let j = choose|j: int|
                    0 <= j < old(self).rows().len() && old(self).rows()[j] == rs[k];
            }
        }
        self.records = out;
        Ok(())
    }
}

} // verus!
