//! The domain entity exchanged between the repository and the handlers, and
//! the mathematical model of a store's contents: a sequence of rows, with
//! the lookup, update and removal functions the contracts are stated over.

use vstd::prelude::*;

verus! {

/// A stored row: a server-assigned, immutable `id` and a mutable `name`.
#[derive(Debug)]
pub struct Record {
    pub id: i32,
    pub name: String,
}

/// The ghost image of a `Record`: the id as a mathematical integer and the
/// name as its character sequence.
pub ghost struct RecordModel {
    pub id: int,
    pub name: Seq<char>,
}

impl View for Record {
    type V = RecordModel;

    open spec fn view(&self) -> RecordModel {
        RecordModel { id: self.id as int, name: self.name@ }
    }
}

impl DeepView for Record {
    type V = RecordModel;

    open spec fn deep_view(&self) -> RecordModel {
        self.view()
    }
}

impl Clone for Record {
    fn clone(&self) -> (r: Self)
        ensures
            r@ == self@,
    {
        Record { id: self.id, name: self.name.clone() }
    }
}

impl Record {
    /// The record with its name overwritten; the id is untouched. This is
    /// the whole in-memory step of an update.
    pub fn with_name(self, name: String) -> (r: Record)
        ensures
            r@.id == self@.id,
            r@.name == name@,
    {
        Record { id: self.id, name }
    }
}

/// Whether some row of `rows` carries the id `id`.
pub open spec fn has_id(rows: Seq<RecordModel>, id: int) -> bool {
    exists|i: int| 0 <= i < rows.len() && rows[i].id == id
}

/// Whether some row of `rows` carries the name `name`.
pub open spec fn has_name(rows: Seq<RecordModel>, name: Seq<char>) -> bool {
    exists|i: int| 0 <= i < rows.len() && rows[i].name == name
}

/// The first row of `rows` carrying the id `id`, if any.
pub open spec fn find_id(rows: Seq<RecordModel>, id: int) -> Option<RecordModel>
    decreases rows.len(),
{
    if rows.len() == 0 {
        None
    } else if rows[0].id == id {
        Some(rows[0])
    } else {
        find_id(rows.drop_first(), id)
    }
}

/// The first row of `rows` carrying the name `name`, if any.
pub open spec fn find_name(rows: Seq<RecordModel>, name: Seq<char>) -> Option<RecordModel>
    decreases rows.len(),
{
    if rows.len() == 0 {
        None
    } else if rows[0].name == name {
        Some(rows[0])
    } else {
        find_name(rows.drop_first(), name)
    }
}

/// `rows` with the name of every row carrying id `id` replaced by `name`;
/// the identity where no row matches.
pub open spec fn rename_id(rows: Seq<RecordModel>, id: int, name: Seq<char>) -> Seq<RecordModel> {
    rows.map_values(
        |r: RecordModel|
            if r.id == id {
                RecordModel { id: r.id, name: name }
            } else {
                r
            },
    )
}

/// `rows` without every row carrying id `id`; the identity where no row
/// matches.
pub open spec fn remove_id(rows: Seq<RecordModel>, id: int) -> Seq<RecordModel>
    decreases rows.len(),
{
    if rows.len() == 0 {
        Seq::empty()
    } else if rows.last().id == id {
        remove_id(rows.drop_last(), id)
    } else {
        remove_id(rows.drop_last(), id).push(rows.last())
    }
}

/// Every row of `remove_id(rows, id)` is a row of `rows`.
pub proof fn lemma_remove_id_elements(rows: Seq<RecordModel>, id: int)
    ensures
        forall|k: int|
            0 <= k < remove_id(rows, id).len() ==> exists|j: int|
                0 <= j < rows.len() && rows[j] == #[trigger] remove_id(rows, id)[k],
    decreases rows.len(),
{
    if rows.len() > 0 {
        let rest = rows.drop_last();
        let sub = remove_id(rest, id);
        lemma_remove_id_elements(rest, id);
        assert forall|k: int| 0 <= k < remove_id(rows, id).len() implies exists|j: int|
            0 <= j < rows.len() && rows[j] == #[trigger] remove_id(rows, id)[k] by {
            if k < sub.len() {
                assert(remove_id(rows, id)[k] == sub[k]);
                let j = choose|j: int| 0 <= j < rest.len() && rest[j] == sub[k];
                assert(rows[j] == remove_id(rows, id)[k]);
            } else {
                assert(remove_id(rows, id)[k] == rows.last());
                assert(rows[rows.len() - 1] == remove_id(rows, id)[k]);
            }
        }
    }
}

/// Removal removes: no row of `remove_id(rows, id)` carries `id`.
pub proof fn lemma_remove_id_absent(rows: Seq<RecordModel>, id: int)
    ensures
        !has_id(remove_id(rows, id), id),
    decreases rows.len(),
{
    if rows.len() > 0 {
        lemma_remove_id_absent(rows.drop_last(), id);
    }
}

/// Removing an id no row carries leaves the rows as they were: a
/// repository-level delete of a nonexistent id succeeds with zero effect.
pub proof fn lemma_remove_id_noop(rows: Seq<RecordModel>, id: int)
    requires
        !has_id(rows, id),
    ensures
        remove_id(rows, id) == rows,
    decreases rows.len(),
{
    if rows.len() > 0 {
        assert(rows[rows.len() - 1].id != id);
        assert(forall|j: int| 0 <= j < rows.drop_last().len() ==> rows.drop_last()[j] == rows[j]);
        lemma_remove_id_noop(rows.drop_last(), id);
        assert(remove_id(rows, id) =~= rows);
    }
}

/// Removal keeps ids pairwise distinct.
pub proof fn lemma_remove_id_distinct(rows: Seq<RecordModel>, id: int)
    requires
        forall|i: int, j: int| 0 <= i < j < rows.len() ==> rows[i].id != rows[j].id,
    ensures
        forall|i: int, j: int|
            0 <= i < j < remove_id(rows, id).len() ==> remove_id(rows, id)[i].id != remove_id(
                rows,
                id,
            )[j].id,
    decreases rows.len(),
{
    if rows.len() > 0 {
        let rest = rows.drop_last();
        assert(forall|j: int| 0 <= j < rest.len() ==> rest[j] == rows[j]);
        lemma_remove_id_distinct(rest, id);
        if rows.last().id != id {
            lemma_remove_id_elements(rest, id);
            let sub = remove_id(rest, id);
            let out = remove_id(rows, id);
            assert forall|i: int, j: int| 0 <= i < j < out.len() implies out[i].id
                != out[j].id by {
                if j == out.len() - 1 {
                    assert(out[i] == sub[i]);
                    let k = choose|k: int| 0 <= k < rest.len() && rest[k] == sub[i];
                    assert(out[j] == rows.last());
                    assert(rows[k].id != rows[rows.len() - 1].id);
                } else {
                    assert(out[i] == sub[i] && out[j] == sub[j]);
                }
            }
        }
    }
}

/// `find_id` succeeds exactly on present ids, and what it returns carries
/// the id looked up and lies in `rows`.
pub proof fn lemma_find_id(rows: Seq<RecordModel>, id: int)
    ensures
        find_id(rows, id) is Some <==> has_id(rows, id),
        find_id(rows, id) matches Some(r) ==> r.id == id && rows.contains(r),
    decreases rows.len(),
{
    if rows.len() == 0 {
    } else if rows[0].id == id {
        assert(rows.contains(rows[0]));
    } else {
        lemma_find_id(rows.drop_first(), id);
        assert forall|r: RecordModel| rows.drop_first().contains(r) implies rows.contains(
            r,
        ) by {
            let i = choose|i: int|
                0 <= i < rows.drop_first().len() && rows.drop_first()[i] == r;
            assert(rows[i + 1] == r);
        }
        if has_id(rows, id) {
            let i = choose|i: int| 0 <= i < rows.len() && rows[i].id == id;
            assert(rows.drop_first()[i - 1] == rows[i]);
        }
        if has_id(rows.drop_first(), id) {
            let i = choose|i: int|
                0 <= i < rows.drop_first().len() && rows.drop_first()[i].id == id;
            assert(rows[i + 1].id == id);
        }
    }
}

/// Where the first row carrying `id` stands at index `i`, `find_id`
/// returns exactly that row.
pub proof fn lemma_find_id_first(rows: Seq<RecordModel>, id: int, i: int)
    requires
        0 <= i < rows.len(),
        rows[i].id == id,
        forall|j: int| 0 <= j < i ==> rows[j].id != id,
    ensures
        find_id(rows, id) == Some(rows[i]),
    decreases i,
{
    if i > 0 {
        lemma_find_id_first(rows.drop_first(), id, i - 1);
    }
}

/// Where the first row carrying `name` stands at index `i`, `find_name`
/// returns exactly that row.
pub proof fn lemma_find_name_first(rows: Seq<RecordModel>, name: Seq<char>, i: int)
    requires
        0 <= i < rows.len(),
        rows[i].name == name,
        forall|j: int| 0 <= j < i ==> rows[j].name != name,
    ensures
        find_name(rows, name) == Some(rows[i]),
    decreases i,
{
    if i > 0 {
        lemma_find_name_first(rows.drop_first(), name, i - 1);
    }
}

/// `find_name` succeeds exactly on present names, and what it returns
/// carries the name looked up and lies in `rows`.
pub proof fn lemma_find_name(rows: Seq<RecordModel>, name: Seq<char>)
    ensures
        find_name(rows, name) is Some <==> has_name(rows, name),
        find_name(rows, name) matches Some(r) ==> r.name == name && rows.contains(r),
    decreases rows.len(),
{
    if rows.len() == 0 {
    } else if rows[0].name == name {
        assert(rows.contains(rows[0]));
    } else {
        lemma_find_name(rows.drop_first(), name);
        assert forall|r: RecordModel| rows.drop_first().contains(r) implies rows.contains(
            r,
        ) by {
            let i = choose|i: int|
                0 <= i < rows.drop_first().len() && rows.drop_first()[i] == r;
            assert(rows[i + 1] == r);
        }
        if has_name(rows, name) {
            let i = choose|i: int| 0 <= i < rows.len() && rows[i].name == name;
            assert(rows.drop_first()[i - 1] == rows[i]);
        }
        if has_name(rows.drop_first(), name) {
            let i = choose|i: int|
                0 <= i < rows.drop_first().len() && rows.drop_first()[i].name == name;
            assert(rows[i + 1].name == name);
        }
    }
}

/// A create on rows whose ids all differ from the created row's id, followed
/// by a get of that id, yields exactly the created record; the assigned id
/// is distinct from every id the rows carried before.
pub proof fn lemma_create_then_get(pre: Seq<RecordModel>, created: RecordModel)
    requires
        !has_id(pre, created.id),
    ensures
        find_id(pre.push(created), created.id) == Some(created),
        forall|i: int| 0 <= i < pre.len() ==> pre[i].id != created.id,
{
    lemma_find_id_first(pre.push(created), created.id, pre.len() as int);
}

/// An update changes only names: it keeps the length and every id; rows
/// whose id is not the updated one are untouched, and rows carrying it get
/// exactly the new name.
pub proof fn lemma_rename_id_shape(rows: Seq<RecordModel>, id: int, name: Seq<char>)
    ensures
        rename_id(rows, id, name).len() == rows.len(),
        forall|i: int|
            0 <= i < rows.len() ==> #[trigger] rename_id(rows, id, name)[i].id == rows[i].id,
        forall|i: int|
            0 <= i < rows.len() && rows[i].id != id ==> #[trigger] rename_id(rows, id, name)[i]
                == rows[i],
        forall|i: int|
            0 <= i < rows.len() && rows[i].id == id ==> #[trigger] rename_id(
                rows,
                id,
                name,
            )[i].name == name,
{
}

/// A delete of `id` followed by a get of `id` finds nothing.
pub proof fn lemma_delete_then_get(rows: Seq<RecordModel>, id: int)
    ensures
        find_id(remove_id(rows, id), id) is None,
{
    lemma_remove_id_absent(rows, id);
    lemma_find_id(remove_id(rows, id), id);
}

} // verus!
