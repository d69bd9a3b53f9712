//! The table of to-do items: rows with distinct ids, kept in the order of
//! their creation dates.

use crate::state::{todo_views, Todo, TodoView};
use vstd::prelude::*;

verus! {

/// Why the table could not do what was asked.
#[derive(Debug)]
pub enum StoreError {
    /// No row has the id that was asked for.
    NotFound,
    /// The table failed; the text says how.
    Failed(String),
}

/// The id of the first row of a table.
pub const FIRST_ID: i64 = 1;

/// The largest id that a row can have.
pub const LAST_ID: i64 = 0x7fff_ffff;

/// What the table says when every id has been given out.
pub const IDS_USED_UP: &'static str = "the sequence of ids has reached its maximum";

/// Whether the row at `at` has the id `id`.
pub open spec fn holds_id(rows: Seq<TodoView>, id: int, at: int) -> bool {
    0 <= at < rows.len() && rows[at].id == id
}

/// Whether some row has the id `id`.
pub open spec fn has_id(rows: Seq<TodoView>, id: int) -> bool {
    exists|at: int| holds_id(rows, id, at)
}

/// The row with the id `id`, where there is one.
pub open spec fn row_of(rows: Seq<TodoView>, id: int) -> TodoView {
    rows[choose|at: int| holds_id(rows, id, at)]
}

/// Whether no two rows share an id.
pub open spec fn distinct_ids(rows: Seq<TodoView>) -> bool {
    forall|i: int, j: int|
        0 <= i < rows.len() && 0 <= j < rows.len() && i != j ==> rows[i].id != rows[j].id
}

/// Whether the rows stand in the order of their creation dates, earliest first.
pub open spec fn by_creation(rows: Seq<TodoView>) -> bool {
    forall|i: int, j: int|
        0 <= i <= j < rows.len() ==> rows[i].creation_date <= rows[j].creation_date
}

/// A row with its completion flipped.
pub open spec fn flipped(row: TodoView) -> TodoView {
    TodoView { is_completed: !row.is_completed, ..row }
}

/// The rows after the completion of every row with the id `id` was flipped.
pub open spec fn toggled(rows: Seq<TodoView>, id: int) -> Seq<TodoView> {
    rows.map_values(
        |row: TodoView|
            if row.id == id {
                flipped(row)
            } else {
                row
            },
    )
}

/// The rows after every row with the id `id` was taken out.
pub open spec fn removed(rows: Seq<TodoView>, id: int) -> Seq<TodoView> {
    rows.filter(|row: TodoView| row.id != id)
}

/// Where a row created at `date` goes: behind the last row that is not
/// later than it.
pub open spec fn slot_for(rows: Seq<TodoView>, date: int) -> int
    decreases rows.len(),
{
    if rows.len() == 0 || rows.last().creation_date <= date {
        rows.len() as int
    } else {
        slot_for(rows.drop_last(), date)
    }
}

/// The rows after `row` was put in its place.
pub open spec fn inserted(rows: Seq<TodoView>, row: TodoView) -> Seq<TodoView> {
    rows.insert(slot_for(rows, row.creation_date), row)
}

/// The row that is stored for a new item: not completed yet.
pub open spec fn fresh_row(id: int, title: Seq<char>, date: int) -> TodoView {
    TodoView { id, title, is_completed: false, creation_date: date }
}

/// The mathematical content of a [`TodoTable`]: its rows as they are listed,
/// and the id that the next row gets.
pub struct TableView {
    pub rows: Seq<TodoView>,
    pub next_id: int,
}

/// What holds of every table: the ids are distinct and below the next one,
/// and the rows stand in the order of their creation dates.
pub open spec fn table_wf(table: TableView) -> bool {
    &&& FIRST_ID <= table.next_id <= LAST_ID + 1
    &&& forall|i: int|
        0 <= i < table.rows.len() ==> FIRST_ID <= (#[trigger] table.rows[i]).id < table.next_id
    &&& distinct_ids(table.rows)
    &&& by_creation(table.rows)
}

/// The table of items, held in memory.
pub struct TodoTable {
    rows: Vec<Todo>,
    next_id: i64,
}

impl View for TodoTable {
    type V = TableView;

    closed spec fn view(&self) -> TableView {
        TableView { rows: todo_views(self.rows@), next_id: self.next_id as int }
    }
}

impl TodoTable {
    #[verifier::type_invariant]
    spec fn well_formed(&self) -> bool {
        table_wf(self@)
    }

    /// The table without rows; its first row will get the id 1.
    pub fn new() -> (table: TodoTable)
        ensures
            table@.rows == Seq::<TodoView>::empty(),
            table@.next_id == FIRST_ID,
            table_wf(table@),
    {
        let table = TodoTable { rows: Vec::new(), next_id: FIRST_ID };
        assert(table@.rows =~= Seq::<TodoView>::empty());
        table
    }

    /// The table without rows whose first row will get the id `next_id`, or
    /// nothing where `next_id` is below 1.
    pub fn with_next_id(next_id: i32) -> (made: Option<TodoTable>)
        ensures
            match made {
                Some(table) => {
                    &&& next_id >= FIRST_ID
                    &&& table@.rows == Seq::<TodoView>::empty()
                    &&& table@.next_id == next_id
                    &&& table_wf(table@)
                },
                None => next_id < FIRST_ID,
            },
    {
        if (next_id as i64) < FIRST_ID {
            return None;
        }
        let table = TodoTable { rows: Vec::new(), next_id: next_id as i64 };
        assert(table@.rows =~= Seq::<TodoView>::empty());
        Some(table)
    }

    /// Returns where the row with the id `id` stands, if there is one.
    fn position(&self, id: i32) -> (found: Option<usize>)
        ensures
            match found {
                Some(at) => holds_id(self@.rows, id as int, at as int),
                None => !has_id(self@.rows, id as int),
            },
    {
        let mut at: usize = 0;
        while at < self.rows.len()
            invariant
                at <= self.rows@.len(),
                forall|k: int| 0 <= k < at ==> !holds_id(self@.rows, id as int, k),
            decreases self.rows@.len() - at,
        {
            if self.rows[at].id == id {
                return Some(at);
            }
            at += 1;
        }
        None
    }

    /// Returns every row, earliest creation date first.
    pub fn list_all(&self) -> (rows: Vec<Todo>)
        ensures
            todo_views(rows@) == self@.rows,
            table_wf(self@),
    {
        proof {
            use_type_invariant(self);
        }
        let mut rows: Vec<Todo> = Vec::new();
        let mut at: usize = 0;
        while at < self.rows.len()
            invariant
                at <= self.rows@.len(),
                rows@.len() == at,
                todo_views(rows@) == self@.rows.take(at as int),
            decreases self.rows@.len() - at,
        {
            let ghost before = rows@;
            rows.push(self.rows[at].clone());
            assert forall|k: int| 0 <= k < at + 1 implies todo_views(rows@)[k]
                == self@.rows.take(at + 1)[k] by {
                if k < at {
                    assert(todo_views(before)[k] == self@.rows.take(at as int)[k]);
                }
            }
            assert(todo_views(rows@) =~= self@.rows.take(at + 1));
            at += 1;
        }
        assert(self@.rows.take(at as int) =~= self@.rows);
        rows
    }

    /// Returns the row with the id `id`, or `NotFound` where no row has it.
    pub fn get(&self, id: i32) -> (outcome: Result<Todo, StoreError>)
        ensures
            match outcome {
                Ok(row) => has_id(self@.rows, id as int) && row@ == row_of(self@.rows, id as int),
                Err(err) => err is NotFound && !has_id(self@.rows, id as int),
            },
    {
        match self.position(id) {
            Some(at) => {
                proof {
                    use_type_invariant(self);
                    lemma_row_of(self@.rows, id as int, at as int);
                }
                Ok(self.rows[at].clone())
            },
            None => Err(StoreError::NotFound),
        }
    }

    /// Returns the place for a row created at `now`.
    fn slot(&self, now: i64) -> (at: usize)
        ensures
            at == slot_for(self@.rows, now as int),
            at <= self.rows@.len(),
    {
        let mut at: usize = self.rows.len();
        assert(self@.rows.take(at as int) =~= self@.rows);
        while at > 0 && self.rows[at - 1].creation_date > now
            invariant
                at <= self.rows@.len(),
                slot_for(self@.rows, now as int) == slot_for(self@.rows.take(at as int), now as int),
            decreases at,
        {
            assert(self@.rows.take(at as int).drop_last() =~= self@.rows.take(at - 1));
            at -= 1;
        }
        at
    }

    /// Stores a new item with the title `title`, created at `now` and not
    /// completed, under the next id, and returns the row. The title is kept
    /// as it is given. Fails, and stores nothing, once every id up to the
    /// largest has been given out.
    pub fn insert(&mut self, title: String, now: i64) -> (outcome: Result<Todo, StoreError>)
        ensures
            table_wf(final(self)@),
            match outcome {
                Ok(row) => {
                    &&& old(self)@.next_id <= LAST_ID
                    &&& row@ == fresh_row(old(self)@.next_id, title@, now as int)
                    &&& final(self)@.rows == inserted(old(self)@.rows, row@)
                    &&& final(self)@.next_id == old(self)@.next_id + 1
                },
                Err(err) => {
                    &&& old(self)@.next_id > LAST_ID
                    &&& err matches StoreError::Failed(text) && text@ == IDS_USED_UP@
                    &&& final(self)@ == old(self)@
                },
            },
    {
        proof {
            use_type_invariant(&*self);
        }
        if self.next_id > LAST_ID {
            return Err(StoreError::Failed(String::from_str(IDS_USED_UP)));
        }
        let id: i32 = self.next_id as i32;
        let at = self.slot(now);
        let row = Todo { id, title, is_completed: false, creation_date: now };
        let copy = row.clone();
        proof {
            lemma_slot_for(self@.rows, now as int);
            lemma_insert_keeps_order(self@.rows, row@);
        }
        let ghost before = self.rows@;
        let mut rows: Vec<Todo> = Vec::new();
        std::mem::swap(&mut self.rows, &mut rows);
        rows.insert(at, row);
        assert(todo_views(rows@) =~= todo_views(before).insert(at as int, row@));
        self.next_id = self.next_id + 1;
        self.rows = rows;
        Ok(copy)
    }

    /// Flips the completion of the row with the id `id` and returns the row
    /// as it then is, or `NotFound` where no row has the id.
    pub fn toggle(&mut self, id: i32) -> (outcome: Result<Todo, StoreError>)
        ensures
            table_wf(final(self)@),
            final(self)@.next_id == old(self)@.next_id,
            final(self)@.rows == toggled(old(self)@.rows, id as int),
            match outcome {
                Ok(row) => {
                    &&& has_id(old(self)@.rows, id as int)
                    &&& row@ == flipped(row_of(old(self)@.rows, id as int))
                },
                Err(err) => err is NotFound && !has_id(old(self)@.rows, id as int),
            },
    {
        proof {
            use_type_invariant(&*self);
        }
        match self.position(id) {
            Some(at) => {
                let ghost before = self.rows@;
                proof {
                    lemma_row_of(self@.rows, id as int, at as int);
                }
                let mut rows: Vec<Todo> = Vec::new();
                std::mem::swap(&mut self.rows, &mut rows);
                let done = !rows[at].is_completed;
                rows[at].is_completed = done;
                let copy = rows[at].clone();
                assert(todo_views(rows@) =~= toggled(todo_views(before), id as int));
                self.rows = rows;
                Ok(copy)
            },
            None => {
                assert(toggled(self@.rows, id as int) =~= self@.rows) by {
                    assert forall|k: int| 0 <= k < self@.rows.len() implies self@.rows[k].id
                        != id by {
                        assert(!holds_id(self@.rows, id as int, k));
                    }
                }
                Err(StoreError::NotFound)
            },
        }
    }

    /// Takes out the row with the id `id`. Where no row has the id, nothing
    /// changes.
    pub fn delete(&mut self, id: i32)
        ensures
            table_wf(final(self)@),
            final(self)@.next_id == old(self)@.next_id,
            final(self)@.rows == removed(old(self)@.rows, id as int),
    {
        proof {
            use_type_invariant(&*self);
        }
        match self.position(id) {
            Some(at) => {
                let ghost before = self.rows@;
                proof {
                    lemma_removed_at(self@.rows, id as int, at as int);
                }
                let mut rows: Vec<Todo> = Vec::new();
                std::mem::swap(&mut self.rows, &mut rows);
                rows.remove(at);
                assert(todo_views(rows@) =~= todo_views(before).remove(at as int));
                self.rows = rows;
            },
            None => {
                proof {
                    lemma_removed_absent(self@.rows, id as int);
                }
            },
        }
    }
}

/// The place for a row lies within the rows; no row before it is later than
/// the date, and, where the rows are in order, every row from it on is.
pub proof fn lemma_slot_for(rows: Seq<TodoView>, date: int)
    requires
        by_creation(rows),
    ensures
        0 <= slot_for(rows, date) <= rows.len(),
        forall|i: int| 0 <= i < slot_for(rows, date) ==> rows[i].creation_date <= date,
        forall|i: int| slot_for(rows, date) <= i < rows.len() ==> rows[i].creation_date > date,
    decreases rows.len(),
{
    if rows.len() == 0 || rows.last().creation_date <= date {
    } else {
        let front = rows.drop_last();
        assert(by_creation(front)) by {
            assert forall|i: int, j: int| 0 <= i <= j < front.len() implies front[i].creation_date
                <= front[j].creation_date by {
                assert(rows[i].creation_date <= rows[j].creation_date);
            }
        }
        lemma_slot_for(front, date);
        assert forall|i: int| 0 <= i < slot_for(rows, date) implies rows[i].creation_date
            <= date by {
            assert(front[i] == rows[i]);
        }
        assert forall|i: int| slot_for(rows, date) <= i < rows.len() implies rows[i].creation_date
            > date by {
            if i < front.len() {
                assert(front[i] == rows[i]);
            }
        }
    }
}

/// Rows in order stay in order when a row is put in its place.
pub proof fn lemma_insert_keeps_order(rows: Seq<TodoView>, row: TodoView)
    requires
        by_creation(rows),
    ensures
        by_creation(inserted(rows, row)),
{
    lemma_slot_for(rows, row.creation_date);
    let at = slot_for(rows, row.creation_date);
    let after = inserted(rows, row);
    assert forall|i: int, j: int| 0 <= i <= j < after.len() implies after[i].creation_date
        <= after[j].creation_date by {
        if j < at {
            assert(rows[i].creation_date <= rows[j].creation_date);
        } else if j == at {
            if i < at {
                assert(rows[i].creation_date <= row.creation_date);
            }
        } else {
            if i < at {
                assert(rows[i].creation_date <= rows[j - 1].creation_date);
            } else if i == at {
                assert(rows[j - 1].creation_date > row.creation_date);
            } else {
                assert(rows[i - 1].creation_date <= rows[j - 1].creation_date);
            }
        }
    }
}

/// Taking out an id that no row has leaves the rows as they are.
pub proof fn lemma_removed_absent(rows: Seq<TodoView>, id: int)
    requires
        !has_id(rows, id),
    ensures
        removed(rows, id) == rows,
    decreases rows.len(),
{
    reveal(Seq::filter);
    if rows.len() > 0 {
        let front = rows.drop_last();
        assert(!has_id(front, id)) by {
            if has_id(front, id) {
                let k = choose|k: int| holds_id(front, id, k);
                assert(holds_id(rows, id, k));
            }
        }
        assert(!holds_id(rows, id, rows.len() - 1));
        lemma_removed_absent(front, id);
        assert(front.push(rows.last()) =~= rows);
    }
}

/// Where ids are distinct, taking out an id takes out the one row that has it.
pub proof fn lemma_removed_at(rows: Seq<TodoView>, id: int, at: int)
    requires
        distinct_ids(rows),
        holds_id(rows, id, at),
    ensures
        removed(rows, id) == rows.remove(at),
    decreases rows.len(),
{
    reveal(Seq::filter);
    let front = rows.drop_last();
    if at == rows.len() - 1 {
        assert(!has_id(front, id)) by {
            if has_id(front, id) {
                let k = choose|k: int| holds_id(front, id, k);
                assert(rows[k].id == rows[at].id);
            }
        }
        lemma_removed_absent(front, id);
        assert(front =~= rows.remove(at));
    } else {
        assert(rows.last().id != id) by {
            assert(rows[rows.len() - 1].id != rows[at].id);
        }
        assert(distinct_ids(front)) by {
            assert forall|i: int, j: int|
                0 <= i < front.len() && 0 <= j < front.len() && i != j implies front[i].id
                != front[j].id by {
                assert(rows[i].id != rows[j].id);
            }
        }
        assert(holds_id(front, id, at));
        lemma_removed_at(front, id, at);
        assert(front.remove(at).push(rows.last()) =~= rows.remove(at));
    }
}

/// A row stored under an id that no row had can be found under that id
/// afterwards, as it was stored, and the ids are still distinct.
pub proof fn lemma_inserted_has_row(rows: Seq<TodoView>, row: TodoView)
    requires
        by_creation(rows),
        distinct_ids(rows),
        !has_id(rows, row.id),
    ensures
        has_id(inserted(rows, row), row.id),
        row_of(inserted(rows, row), row.id) == row,
        distinct_ids(inserted(rows, row)),
{
    lemma_slot_for(rows, row.creation_date);
    let at = slot_for(rows, row.creation_date);
    let after = inserted(rows, row);
    assert forall|i: int, j: int|
        0 <= i < after.len() && 0 <= j < after.len() && i != j implies after[i].id
        != after[j].id by {
        let before_i = if i < at {
            i
        } else {
            i - 1
        };
        let before_j = if j < at {
            j
        } else {
            j - 1
        };
        if i == at {
            assert(!holds_id(rows, row.id, before_j));
        } else if j == at {
            assert(!holds_id(rows, row.id, before_i));
        } else {
            assert(rows[before_i].id != rows[before_j].id);
        }
    }
    assert(holds_id(after, row.id, at));
    lemma_row_of(after, row.id, at);
}

/// The row that a table stores for a new item can be toggled: the first
/// toggle completes it and the second brings the table back to what it was
/// after the row was stored.
pub proof fn lemma_stored_row_toggles(table: TableView, title: Seq<char>, date: int)
    requires
        table_wf(table),
    ensures
        ({
            let row = fresh_row(table.next_id, title, date);
            let stored = inserted(table.rows, row);
            &&& has_id(stored, row.id)
            &&& flipped(row_of(stored, row.id)) == TodoView { is_completed: true, ..row }
            &&& has_id(toggled(stored, row.id), row.id)
            &&& flipped(row_of(toggled(stored, row.id), row.id)) == row
            &&& toggled(toggled(stored, row.id), row.id) == stored
        }),
{
    let row = fresh_row(table.next_id, title, date);
    let stored = inserted(table.rows, row);
    assert(!has_id(table.rows, row.id)) by {
        if has_id(table.rows, row.id) {
            let at = choose|at: int| holds_id(table.rows, row.id, at);
            assert(table.rows[at].id < table.next_id);
        }
    }
    lemma_inserted_has_row(table.rows, row);
    let at = choose|at: int| holds_id(stored, row.id, at);
    lemma_row_of(stored, row.id, at);
    let once = toggled(stored, row.id);
    assert(distinct_ids(once)) by {
        assert forall|i: int, j: int|
            0 <= i < once.len() && 0 <= j < once.len() && i != j implies once[i].id
            != once[j].id by {
            assert(stored[i].id != stored[j].id);
        }
    }
    assert(holds_id(once, row.id, at));
    lemma_row_of(once, row.id, at);
    lemma_toggle_twice(stored, row.id);
}

/// Toggling an id flips each row that has it, once, and leaves every other
/// row as it was.
pub proof fn lemma_toggle_flips(rows: Seq<TodoView>, id: int)
    ensures
        toggled(rows, id).len() == rows.len(),
        forall|at: int|
            0 <= at < rows.len() && rows[at].id == id ==> #[trigger] toggled(rows, id)[at]
                == flipped(rows[at]),
        forall|at: int|
            0 <= at < rows.len() && rows[at].id != id ==> #[trigger] toggled(rows, id)[at]
                == rows[at],
{
}

/// Toggling the same id twice brings every row back to what it was.
pub proof fn lemma_toggle_twice(rows: Seq<TodoView>, id: int)
    ensures
        toggled(toggled(rows, id), id) == rows,
{
    assert(toggled(toggled(rows, id), id) =~= rows);
}

/// Once an id is taken out no row has it, so taking it out again changes
/// nothing.
pub proof fn lemma_delete_twice(rows: Seq<TodoView>, id: int)
    ensures
        !has_id(removed(rows, id), id),
        removed(removed(rows, id), id) == removed(rows, id),
{
    let keep = |row: TodoView| row.id != id;
    let left = removed(rows, id);
    if has_id(left, id) {
        let at = choose|at: int| holds_id(left, id, at);
        rows.lemma_filter_pred(keep, at);
    }
    lemma_removed_absent(left, id);
}

/// A row created no earlier than every row of the table goes to the end: rows
/// stored one after the other, as time goes on, are listed in that order.
pub proof fn lemma_insert_latest(rows: Seq<TodoView>, row: TodoView)
    requires
        forall|i: int| 0 <= i < rows.len() ==> rows[i].creation_date <= row.creation_date,
    ensures
        inserted(rows, row) == rows.push(row),
{
    assert(slot_for(rows, row.creation_date) == rows.len());
    assert(rows.insert(rows.len() as int, row) =~= rows.push(row));
}

/// Where ids are distinct, the row with an id is the one at any place that
/// holds the id.
pub proof fn lemma_row_of(rows: Seq<TodoView>, id: int, at: int)
    requires
        distinct_ids(rows),
        holds_id(rows, id, at),
    ensures
        has_id(rows, id),
        row_of(rows, id) == rows[at],
{
    let chosen = choose|k: int| holds_id(rows, id, k);
    assert(holds_id(rows, id, chosen));
    assert(chosen == at);
}

} // verus!
