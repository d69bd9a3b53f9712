//! The to-do item and the state that the handlers share.

use crate::store::TodoTable;
use vstd::prelude::*;

verus! {

/// One item of the list. `creation_date` counts microseconds since the Unix
/// epoch; it is set when the item is stored and orders the list.
#[derive(Debug)]
pub struct Todo {
    pub id: i32,
    pub title: String,
    pub is_completed: bool,
    pub creation_date: i64,
}

/// The mathematical content of a [`Todo`].
pub struct TodoView {
    pub id: int,
    pub title: Seq<char>,
    pub is_completed: bool,
    pub creation_date: int,
}

impl View for Todo {
    type V = TodoView;

    open spec fn view(&self) -> TodoView {
        TodoView {
            id: self.id as int,
            title: self.title@,
            is_completed: self.is_completed,
            creation_date: self.creation_date as int,
        }
    }
}

impl Clone for Todo {
    fn clone(&self) -> (copy: Todo)
        ensures
            copy@ == self@,
    {
        Todo {
            id: self.id,
            title: self.title.clone(),
            is_completed: self.is_completed,
            creation_date: self.creation_date,
        }
    }
}

/// The contents of a list of items, in order.
pub open spec fn todo_views(todos: Seq<Todo>) -> Seq<TodoView> {
    todos.map_values(|todo: Todo| todo@)
}

/// What every handler works on: the table of items.
pub struct State {
    pub db: TodoTable,
}

impl State {
    /// The state over the table `table`.
    pub fn new(table: TodoTable) -> (state: State)
        ensures
            state.db == table,
    {
        State { db: table }
    }
}

} // verus!
