//! The relational store: a table `lists(id, name)` and a table
//! `todos(list_id, id, description, done)`, with unique identifiers in each
//! table and a foreign key from every todo to its list. `Db` keeps the rows
//! and offers the statements the data-access layer issues; each is specified
//! against the store's view, a pair of maps from identifier to row data.

use vstd::prelude::*;

use crate::uid::{hyphenated, hyphenated_string, parsed_uuid, Uid};
use vstd::string::StringExecFns;

verus! {

/// A row of the `lists` table.
pub struct ListRow {
    pub id: Uid,
    pub name: String,
}

/// A row of the `todos` table.
pub struct TodoRow {
    pub list_id: Uid,
    pub id: Uid,
    pub description: String,
    pub done: bool,
}

/// The error a statement can fail with: no row matched a single-row query,
/// a constraint was violated (with the code the database reports), or a row
/// could not be decoded.
#[derive(Debug)]
pub enum StorageError {
    RowNotFound,
    Database { code: Option<String> },
    Decode(String),
}

/// The code the database reports for a unique-constraint violation.
pub open spec fn spec_unique_violation_code() -> Seq<char> {
    "23505"@
}

/// The code the database reports for a foreign-key violation.
pub open spec fn spec_foreign_key_violation_code() -> Seq<char> {
    "23503"@
}

/// The code the database reports for a unique-constraint violation.
pub fn unique_violation_code() -> (r: String)
    ensures
        r@ == spec_unique_violation_code(),
{
    String::from_str("23505")
}

/// The code the database reports for a foreign-key violation.
pub fn foreign_key_violation_code() -> (r: String)
    ensures
        r@ == spec_foreign_key_violation_code(),
{
    String::from_str("23503")
}

/// The two violation codes are distinct, so classification by code never
/// mistakes one constraint for the other.
pub proof fn lemma_violation_codes_differ()
    ensures
        spec_unique_violation_code() != spec_foreign_key_violation_code(),
{
    reveal_strlit("23505");
    reveal_strlit("23503");
    assert(("23505"@).index(4) != ("23503"@).index(4));
}

/// A constraint-violation error carrying the unique-violation code.
pub open spec fn is_unique_violation_error(e: StorageError) -> bool {
    e matches StorageError::Database { code: Some(c) } && c@ == spec_unique_violation_code()
}

/// A constraint-violation error carrying the foreign-key-violation code.
pub open spec fn is_foreign_key_violation_error(e: StorageError) -> bool {
    e matches StorageError::Database { code: Some(c) } && c@ == spec_foreign_key_violation_code()
}

/// What the store holds of one todo.
pub struct TodoData {
    pub list_id: Uid,
    pub description: Seq<char>,
    pub done: bool,
}

/// The store's contents: each list's name and each todo's data, by identifier.
#[verifier::ext_equal]
pub struct StoreView {
    pub lists: Map<Uid, Seq<char>>,
    pub todos: Map<Uid, TodoData>,
}

impl StoreView {
    /// Every todo's `list_id` names a list that is present.
    pub open spec fn fk_holds(self) -> bool {
        forall|t: Uid|
            self.todos.dom().contains(t) ==> self.lists.dom().contains(
                #[trigger] self.todos[t].list_id,
            )
    }
}

/// The store after a list is inserted or its name updated.
pub open spec fn with_list(s: StoreView, id: Uid, name: Seq<char>) -> StoreView {
    StoreView { lists: s.lists.insert(id, name), todos: s.todos }
}

/// The todos that survive the deletion of the list `id`: every one whose
/// `list_id` is another list's.
pub open spec fn surviving_todos(m: Map<Uid, TodoData>, id: Uid) -> Map<Uid, TodoData> {
    Map::new(|t: Uid| m.dom().contains(t) && m[t].list_id != id, |t: Uid| m[t])
}

/// The store after a list is deleted: the list is gone, and so is every todo
/// that referenced it.
pub open spec fn without_list(s: StoreView, id: Uid) -> StoreView {
    StoreView { lists: s.lists.remove(id), todos: surviving_todos(s.todos, id) }
}

/// The store after a todo is inserted.
pub open spec fn with_todo(
    s: StoreView,
    list_id: Uid,
    id: Uid,
    description: Seq<char>,
    done: bool,
) -> StoreView {
    StoreView { lists: s.lists, todos: s.todos.insert(id, TodoData { list_id, description, done }) }
}

/// No two rows of the `lists` table share an identifier.
pub open spec fn unique_list_ids(rows: Seq<ListRow>) -> bool {
    forall|i: int, j: int| 0 <= i < j < rows.len() ==> rows[i].id != rows[j].id
}

/// No two rows of the `todos` table share an identifier.
pub open spec fn unique_todo_ids(rows: Seq<TodoRow>) -> bool {
    forall|i: int, j: int| 0 <= i < j < rows.len() ==> rows[i].id != rows[j].id
}

/// The `lists` table read as a map from identifier to name.
pub open spec fn lists_map(rows: Seq<ListRow>) -> Map<Uid, Seq<char>>
    decreases rows.len(),
{
    if rows.len() == 0 {
        Map::empty()
    } else {
        lists_map(rows.drop_last()).insert(rows.last().id, rows.last().name@)
    }
}

/// The `todos` table read as a map from identifier to data.
pub open spec fn todos_map(rows: Seq<TodoRow>) -> Map<Uid, TodoData>
    decreases rows.len(),
{
    if rows.len() == 0 {
        Map::empty()
    } else {
        todos_map(rows.drop_last()).insert(
            rows.last().id,
            TodoData {
                list_id: rows.last().list_id,
                description: rows.last().description@,
                done: rows.last().done,
            },
        )
    }
}

proof fn lemma_lists_map_contains(rows: Seq<ListRow>, id: Uid)
    ensures
        lists_map(rows).dom().contains(id) <==> exists|i: int|
            0 <= i < rows.len() && rows[i].id == id,
    decreases rows.len(),
{
    if rows.len() > 0 {
        lemma_lists_map_contains(rows.drop_last(), id);
        if rows.last().id == id {
            assert(rows[rows.len() - 1].id == id);
        } else {
            if lists_map(rows).dom().contains(id) {
                let i = choose|i: int| 0 <= i < rows.drop_last().len() && rows.drop_last()[i].id
                    == id;
                assert(rows[i].id == id);
            }
            if exists|i: int| 0 <= i < rows.len() && rows[i].id == id {
                let i = choose|i: int| 0 <= i < rows.len() && rows[i].id == id;
                assert(i < rows.len() - 1);
                assert(rows.drop_last()[i].id == id);
            }
        }
    }
}

proof fn lemma_lists_map_value(rows: Seq<ListRow>, i: int)
    requires
        unique_list_ids(rows),
        0 <= i < rows.len(),
    ensures
        lists_map(rows).dom().contains(rows[i].id),
        lists_map(rows)[rows[i].id] == rows[i].name@,
    decreases rows.len(),
{
    if i < rows.len() - 1 {
        assert(unique_list_ids(rows.drop_last()));
        lemma_lists_map_value(rows.drop_last(), i);
        assert(rows.drop_last()[i] == rows[i]);
        assert(rows[i].id != rows.last().id);
    }
}

proof fn lemma_todos_map_contains(rows: Seq<TodoRow>, id: Uid)
    ensures
        todos_map(rows).dom().contains(id) <==> exists|i: int|
            0 <= i < rows.len() && rows[i].id == id,
    decreases rows.len(),
{
    if rows.len() > 0 {
        lemma_todos_map_contains(rows.drop_last(), id);
        if rows.last().id == id {
            assert(rows[rows.len() - 1].id == id);
        } else {
            if todos_map(rows).dom().contains(id) {
                let i = choose|i: int| 0 <= i < rows.drop_last().len() && rows.drop_last()[i].id
                    == id;
                assert(rows[i].id == id);
            }
            if exists|i: int| 0 <= i < rows.len() && rows[i].id == id {
                let i = choose|i: int| 0 <= i < rows.len() && rows[i].id == id;
                assert(i < rows.len() - 1);
                assert(rows.drop_last()[i].id == id);
            }
        }
    }
}

proof fn lemma_todos_map_value(rows: Seq<TodoRow>, i: int)
    requires
        unique_todo_ids(rows),
        0 <= i < rows.len(),
    ensures
        todos_map(rows).dom().contains(rows[i].id),
        todos_map(rows)[rows[i].id] == (TodoData {
            list_id: rows[i].list_id,
            description: rows[i].description@,
            done: rows[i].done,
        }),
    decreases rows.len(),
{
    if i < rows.len() - 1 {
        assert(unique_todo_ids(rows.drop_last()));
        lemma_todos_map_value(rows.drop_last(), i);
        assert(rows.drop_last()[i] == rows[i]);
        assert(rows[i].id != rows.last().id);
    }
}

proof fn lemma_lists_map_update(rows: Seq<ListRow>, i: int, r: ListRow)
    requires
        unique_list_ids(rows),
        0 <= i < rows.len(),
        r.id == rows[i].id,
    ensures
        lists_map(rows.update(i, r)) == lists_map(rows).insert(r.id, r.name@),
        unique_list_ids(rows.update(i, r)),
    decreases rows.len(),
{
    let rows2 = rows.update(i, r);
    assert(unique_list_ids(rows2));
    if i == rows.len() - 1 {
        assert(rows2.drop_last() =~= rows.drop_last());
        assert(rows2.last() == r);
        assert(lists_map(rows2) =~= lists_map(rows).insert(r.id, r.name@));
    } else {
        assert(unique_list_ids(rows.drop_last()));
        assert(rows.drop_last()[i] == rows[i]);
        assert(rows2.drop_last() =~= rows.drop_last().update(i, r));
        lemma_lists_map_update(rows.drop_last(), i, r);
        assert(rows2.last() == rows.last());
        assert(rows[i].id != rows[rows.len() - 1].id);
        assert(lists_map(rows2) =~= lists_map(rows).insert(r.id, r.name@));
    }
}

proof fn lemma_lists_map_remove(rows: Seq<ListRow>, i: int)
    requires
        unique_list_ids(rows),
        0 <= i < rows.len(),
    ensures
        lists_map(rows.remove(i)) == lists_map(rows).remove(rows[i].id),
        unique_list_ids(rows.remove(i)),
    decreases rows.len(),
{
    let rows2 = rows.remove(i);
    assert forall|a: int, b: int| 0 <= a < b < rows2.len() implies rows2[a].id != rows2[b].id by {
        let a2: int = if a < i {
            a
        } else {
            a + 1
        };
        let b2: int = if b < i {
            b
        } else {
            b + 1
        };
        assert(rows2[a] == rows[a2]);
        assert(rows2[b] == rows[b2]);
    }
    if i == rows.len() - 1 {
        assert(rows2 =~= rows.drop_last());
        lemma_lists_map_contains(rows.drop_last(), rows[i].id);
        assert forall|k: int| 0 <= k < rows.drop_last().len() implies rows.drop_last()[k].id
            != rows[i].id by {
            assert(rows.drop_last()[k] == rows[k]);
        }
        assert(lists_map(rows2) =~= lists_map(rows).remove(rows[i].id));
    } else {
        assert(rows2.drop_last() =~= rows.drop_last().remove(i));
        assert(rows2.last() == rows.last());
        assert(unique_list_ids(rows.drop_last()));
        assert(rows.drop_last()[i] == rows[i]);
        lemma_lists_map_remove(rows.drop_last(), i);
        assert(rows[i].id != rows[rows.len() - 1].id);
        assert(lists_map(rows2) =~= lists_map(rows).remove(rows[i].id));
    }
}

/// The store itself: the two tables.
pub struct Db {
    lists: Vec<ListRow>,
    todos: Vec<TodoRow>,
}

impl View for Db {
    type V = StoreView;

    closed spec fn view(&self) -> StoreView {
        StoreView { lists: lists_map(self.lists@), todos: todos_map(self.todos@) }
    }
}

impl Db {
    /// The schema's invariants: identifiers unique in each table, and every
    /// todo's `list_id` present in `lists`.
    pub closed spec fn wf(self) -> bool {
        &&& unique_list_ids(self.lists@)
        &&& unique_todo_ids(self.todos@)
        &&& self@.fk_holds()
    }

    /// An empty store with the schema in place.
    pub fn new() -> (r: Db)
        ensures
            r.wf(),
            r@.lists == Map::<Uid, Seq<char>>::empty(),
            r@.todos == Map::<Uid, TodoData>::empty(),
    {
        Db { lists: Vec::new(), todos: Vec::new() }
    }

    fn find_list_index(&self, id: Uid) -> (r: Option<usize>)
        ensures
            match r {
                Some(i) => i < self.lists@.len() && self.lists@[i as int].id == id,
                None => forall|k: int| 0 <= k < self.lists@.len() ==> self.lists@[k].id != id,
            },
    {
        let mut i: usize = 0;
        while i < self.lists.len()
            invariant
                i <= self.lists@.len(),
                forall|k: int| 0 <= k < i ==> self.lists@[k].id != id,
            decreases self.lists@.len() - i,
        {
            if self.lists[i].id == id {
                return Some(i);
            }
            i = i + 1;
        }
        None
    }

    fn find_todo_index(&self, id: Uid) -> (r: Option<usize>)
        ensures
            match r {
                Some(i) => i < self.todos@.len() && self.todos@[i as int].id == id,
                None => forall|k: int| 0 <= k < self.todos@.len() ==> self.todos@[k].id != id,
            },
    {
        let mut i: usize = 0;
        while i < self.todos.len()
            invariant
                i <= self.todos@.len(),
                forall|k: int| 0 <= k < i ==> self.todos@[k].id != id,
            decreases self.todos@.len() - i,
        {
            if self.todos[i].id == id {
                return Some(i);
            }
            i = i + 1;
        }
        None
    }

    /// `INSERT INTO lists (id, name)`: fails with the unique-violation code
    /// when the identifier is already present.
    pub fn insert_list(&mut self, id: Uid, name: &str) -> (r: Result<(), StorageError>)
        requires
            old(self).wf(),
        ensures
            final(self).wf(),
            old(self)@.lists.dom().contains(id) ==> {
                &&& r matches Err(e) && is_unique_violation_error(e)
                &&& final(self)@ == old(self)@
            },
            !old(self)@.lists.dom().contains(id) ==> {
                &&& r is Ok
                &&& final(self)@ == with_list(old(self)@, id, name@)
            },
    {
        proof {
            lemma_lists_map_contains(self.lists@, id);
        }
        match self.find_list_index(id) {
            Some(_) => Err(StorageError::Database { code: Some(unique_violation_code()) }),
            None => {
                let row = ListRow { id, name: String::from_str(name) };
                let ghost old_rows = self.lists@;
                self.lists.push(row);
                proof {
                    assert(self.lists@.drop_last() =~= old_rows);
                    assert(unique_list_ids(self.lists@));
                    assert(self@ =~= with_list(old(self)@, id, name@));
                }
                Ok(())
            },
        }
    }

    /// `SELECT id, name FROM lists WHERE id = $1`, fetching one row: the
    /// identifier comes back rendered in its hyphenated form.
    pub fn select_list(&self, id: Uid) -> (r: Result<(String, String), StorageError>)
        requires
            self.wf(),
        ensures
            self@.lists.dom().contains(id) ==> {
                &&& r matches Ok(row)
                &&& row.0@ == hyphenated(id.value)
                &&& parsed_uuid(row.0@) == Some(id.value)
                &&& row.1@ == self@.lists[id]
            },
            !self@.lists.dom().contains(id) ==> r matches Err(StorageError::RowNotFound),
    {
        proof {
            lemma_lists_map_contains(self.lists@, id);
        }
        match self.find_list_index(id) {
            Some(i) => {
                proof {
                    lemma_lists_map_value(self.lists@, i as int);
                }
                let row = &self.lists[i];
                Ok((hyphenated_string(&row.id), row.name.clone()))
            },
            None => Err(StorageError::RowNotFound),
        }
    }

    /// `UPDATE lists SET name = $2 WHERE id = $1 RETURNING id, name`, fetching
    /// the one updated row, or no row where the identifier is absent.
    pub fn update_list(&mut self, id: Uid, name: &str) -> (r: Result<
        (String, String),
        StorageError,
    >)
        requires
            old(self).wf(),
        ensures
            final(self).wf(),
            old(self)@.lists.dom().contains(id) ==> {
                &&& r matches Ok(row)
                &&& row.0@ == hyphenated(id.value)
                &&& parsed_uuid(row.0@) == Some(id.value)
                &&& row.1@ == name@
                &&& final(self)@ == with_list(old(self)@, id, name@)
            },
            !old(self)@.lists.dom().contains(id) ==> {
                &&& r matches Err(StorageError::RowNotFound)
                &&& final(self)@ == old(self)@
            },
    {
        proof {
            lemma_lists_map_contains(self.lists@, id);
        }
        match self.find_list_index(id) {
            Some(i) => {
                let ghost old_rows = self.lists@;
                let row = &mut self.lists[i];
                row.name = String::from_str(name);
                proof {
                    lemma_lists_map_update(old_rows, i as int, self.lists@[i as int]);
                    assert(self@ =~= with_list(old(self)@, id, name@));
                    assert(self@.lists.dom() =~= old(self)@.lists.dom());
                }
                Ok((hyphenated_string(&id), String::from_str(name)))
            },
            None => Err(StorageError::RowNotFound),
        }
    }

    /// `DELETE FROM lists WHERE id = $1 RETURNING id`, fetching the one
    /// deleted row; the schema's `ON DELETE CASCADE` takes the list's todos
    /// with it.
    pub fn delete_list(&mut self, id: Uid) -> (r: Result<String, StorageError>)
        requires
            old(self).wf(),
        ensures
            final(self).wf(),
            old(self)@.lists.dom().contains(id) ==> {
                &&& r matches Ok(s)
                &&& s@ == hyphenated(id.value)
                &&& final(self)@ == without_list(old(self)@, id)
            },
            !old(self)@.lists.dom().contains(id) ==> {
                &&& r matches Err(StorageError::RowNotFound)
                &&& final(self)@ == old(self)@
            },
    {
        proof {
            lemma_lists_map_contains(self.lists@, id);
        }
        let i = match self.find_list_index(id) {
            Some(i) => i,
            None => {
                return Err(StorageError::RowNotFound);
            },
        };
        let ghost old_lists = self.lists@;
        self.lists.remove(i);
        proof {
            lemma_lists_map_remove(old_lists, i as int);
        }
        let ghost rows = self.todos@;
        let mut kept: Vec<TodoRow> = Vec::new();
        let mut j: usize = 0;
        while j < self.todos.len()
            invariant
                j <= rows.len(),
                self.todos@ == rows,
                unique_todo_ids(rows),
                unique_todo_ids(kept@),
                todos_map(kept@) == surviving_todos(todos_map(rows.subrange(0, j as int)), id),
            decreases rows.len() - j,
        {
            let row = &self.todos[j];
            let ghost prefix = rows.subrange(0, j as int);
            let ghost prefix2 = rows.subrange(0, j as int + 1);
            proof {
                assert(prefix2.drop_last() =~= prefix);
                assert(prefix2.last() == rows[j as int]);
                lemma_todos_map_contains(prefix, rows[j as int].id);
                assert forall|k: int| 0 <= k < prefix.len() implies prefix[k].id != rows[j as int].id by {
                    assert(prefix[k] == rows[k]);
                }
            }
            if row.list_id != id {
                let copy = TodoRow {
                    list_id: row.list_id,
                    id: row.id,
                    description: row.description.clone(),
                    done: row.done,
                };
                proof {
                    assert forall|k: int| 0 <= k < kept@.len() implies kept@[k].id != rows[j as int].id by {
                        lemma_todos_map_contains(kept@, kept@[k].id);
                        assert(todos_map(kept@).dom().contains(kept@[k].id));
                    }
                }
                let ghost old_kept = kept@;
                kept.push(copy);
                proof {
                    assert(kept@.drop_last() =~= old_kept);
                    assert(unique_todo_ids(kept@));
                    assert(todos_map(kept@) =~= surviving_todos(todos_map(prefix2), id));
                }
            } else {
                proof {
                    assert(todos_map(kept@) =~= surviving_todos(todos_map(prefix2), id));
                }
            }
            j = j + 1;
        }
        proof {
            assert(rows.subrange(0, rows.len() as int) =~= rows);
        }
        self.todos = kept;
        proof {
            assert(self@ =~= without_list(old(self)@, id));
            assert forall|t: Uid| self@.todos.dom().contains(t) implies self@.lists.dom().contains(
                self@.todos[t].list_id,
            ) by {
                assert(old(self)@.todos.dom().contains(t));
            }
        }
        Ok(hyphenated_string(&id))
    }

    /// `INSERT INTO todos (list_id, id, description, done)`: fails with the
    /// foreign-key-violation code when `list_id` names no list, and with the
    /// unique-violation code when the todo's identifier is already present.
    pub fn insert_todo(&mut self, list_id: Uid, id: Uid, description: &str, done: bool) -> (r:
        Result<(), StorageError>)
        requires
            old(self).wf(),
        ensures
            final(self).wf(),
            !old(self)@.lists.dom().contains(list_id) ==> {
                &&& r matches Err(e) && is_foreign_key_violation_error(e)
                &&& final(self)@ == old(self)@
            },
            old(self)@.lists.dom().contains(list_id) && old(self)@.todos.dom().contains(id) ==> {
                &&& r matches Err(e) && is_unique_violation_error(e)
                &&& final(self)@ == old(self)@
            },
            old(self)@.lists.dom().contains(list_id) && !old(self)@.todos.dom().contains(id) ==> {
                &&& r is Ok
                &&& final(self)@ == with_todo(old(self)@, list_id, id, description@, done)
            },
    {
        proof {
            lemma_lists_map_contains(self.lists@, list_id);
            lemma_todos_map_contains(self.todos@, id);
        }
        if self.find_list_index(list_id).is_none() {
            return Err(StorageError::Database { code: Some(foreign_key_violation_code()) });
        }
        match self.find_todo_index(id) {
            Some(_) => Err(StorageError::Database { code: Some(unique_violation_code()) }),
            None => {
                let row = TodoRow { list_id, id, description: String::from_str(description), done };
                let ghost old_rows = self.todos@;
                self.todos.push(row);
                proof {
                    assert(self.todos@.drop_last() =~= old_rows);
                    assert(unique_todo_ids(self.todos@));
                    assert(self@ =~= with_todo(old(self)@, list_id, id, description@, done));
                }
                Ok(())
            },
        }
    }
}

} // verus!
