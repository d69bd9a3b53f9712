//! The fragments that show the list, and the handlers of the requests.

use crate::errorresponse::{alert_markup, AlertLevel, AppError, AppResult};
use crate::response::{Html, StatusCode, STATUS_OK};
use crate::state::{todo_views, State, Todo, TodoView};
use crate::store::{
    fresh_row, flipped, has_id, inserted, removed, row_of, toggled, StoreError, IDS_USED_UP,
    LAST_ID,
};
use crate::text::{blank, decimal, escaped, is_blank, push_decimal, push_escaped};
use vstd::prelude::*;

verus! {

/// The start of an item, up to the id in the path that toggles it.
pub const ITEM_OPEN: &'static str =
    "<div role=\"listitem\" class=\"w-full flex items-center\"><input type=\"checkbox\" class=\"checkbox checkbox-primary\" aria-label=\"toggle todo\" hx-trigger=\"click\" hx-post=\"/check/";

/// The rest of the checkbox's attributes that every item has.
pub const ITEM_TARGET: &'static str = "\" hx-target=\"closest div\" hx-swap=\"outerHTML\"";

/// The attribute that the checkbox of a completed item has.
pub const ITEM_CHECKED: &'static str = " checked";

/// The end of the checkbox and the start of the title.
pub const ITEM_TITLE: &'static str = "/><span class=\"grow px-2\">";

/// The end of the title and the start of the delete control, up to the id in
/// the path that deletes the item.
pub const ITEM_DELETE: &'static str = "</span><button hx-delete=\"/delete/";

/// The rest of the delete control and the end of the item.
pub const ITEM_CLOSE: &'static str =
    "\" hx-target=\"closest div\" hx-swap=\"delete\" aria-label=\"delete todo\"><svg aria-hidden=\"true\" focusable=\"false\" width=\"17\" height=\"17\" xmlns=\"http://www.w3.org/2000/svg\" class=\"stroke-current shrink-0 h-6 w-6\" fill=\"none\" viewBox=\"0 0 24 24\"><path d=\"m.967 14.217 5.8-5.906-5.765-5.89L3.094.26l5.783 5.888L14.66.26l2.092 2.162-5.766 5.889 5.801 5.906-2.092 2.162-5.818-5.924-5.818 5.924-2.092-2.162Z\" fill=\"#000\"></path></svg></button></div>";

/// The page, up to the items of the list.
pub const PAGE_OPEN: &'static str =
    "<!DOCTYPE html><html lang=\"en\"><head><title>todo app</title><meta name=\"viewport\" content=\"width=device-width, initial-scale=1\"/><meta name=\"description\" content=\"This is just a simple todo app to try out new technologies.\"/><script src=\"https://unpkg.com/htmx.org@1.9.10\"></script><script src=\"https://unpkg.com/htmx.org/dist/ext/class-tools.js\"></script><link href=\"./output.css\" rel=\"stylesheet\"/></head><body class=\"grid place-items-center\"><main class=\"prose\"><h1>Todo app</h1><ul>";

/// The page, from the end of the list on: the form that adds an item and the
/// region that alerts are sent to.
pub const PAGE_CLOSE: &'static str =
    "</ul><form hx-post=\"/add\" hx-target=\"ul\" hx-swap=\"beforeend\" hx-on:htmx:after-request=\"this.reset()\"><input class=\"input input-bordered\" type=\"text\" name=\"title\" placeholder=\"What needs to be done?\"/><button class=\"btn btn-primary\" type=\"submit\">add</button></form></main><div id=\"alerts\" hx-ext=\"class-tools\" class=\"absolute bottom-0 right-0 p-5 w-full md:w-96 flex flex-col gap-1\"></div><div class=\"opacity-0\"></div></body></html>";

/// What the caller is told when the title of a new item is blank.
pub const BLANK_TITLE_MESSAGE: &'static str = "Please enter a non-empty todo";

/// The attribute that says whether an item is completed.
pub open spec fn checked_mark(is_completed: bool) -> Seq<char> {
    if is_completed {
        ITEM_CHECKED@
    } else {
        Seq::empty()
    }
}

/// The fragment that shows one item: a checkbox that posts to the item's
/// toggle path and is checked where the item is completed, the title,
/// escaped, and a control that sends a delete to the item's delete path.
pub open spec fn todo_markup(todo: TodoView) -> Seq<char> {
    ITEM_OPEN@ + decimal(todo.id) + ITEM_TARGET@ + checked_mark(todo.is_completed) + ITEM_TITLE@
        + escaped(todo.title) + ITEM_DELETE@ + decimal(todo.id) + ITEM_CLOSE@
}

/// The fragments of the items of a list, one after the other.
pub open spec fn list_markup(todos: Seq<TodoView>) -> Seq<char>
    decreases todos.len(),
{
    if todos.len() == 0 {
        Seq::empty()
    } else {
        list_markup(todos.drop_last()) + todo_markup(todos.last())
    }
}

/// The whole page that shows a list.
pub open spec fn page_markup(todos: Seq<TodoView>) -> Seq<char> {
    PAGE_OPEN@ + list_markup(todos) + PAGE_CLOSE@
}

/// Appends the fragment that shows `todo` to `out`.
fn push_todo_item(out: &mut String, todo: &Todo)
    ensures
        final(out)@ == old(out)@ + todo_markup(todo@),
{
    out.append(ITEM_OPEN);
    push_decimal(out, todo.id);
    out.append(ITEM_TARGET);
    if todo.is_completed {
        out.append(ITEM_CHECKED);
    }
    out.append(ITEM_TITLE);
    push_escaped(out, todo.title.as_str());
    out.append(ITEM_DELETE);
    push_decimal(out, todo.id);
    out.append(ITEM_CLOSE);
    assert(out@ =~= old(out)@ + todo_markup(todo@));
}

/// Renders the fragment that shows `todo`.
pub fn render_todo_item(todo: &Todo) -> (fragment: Html)
    ensures
        fragment@ == todo_markup(todo@),
{
    let mut out = String::new();
    push_todo_item(&mut out, todo);
    assert(out@ =~= todo_markup(todo@));
    Html(out)
}

/// Renders the whole page that shows `todos`, in their order.
pub fn render_page(todos: &Vec<Todo>) -> (page: Html)
    ensures
        page@ == page_markup(todo_views(todos@)),
{
    let mut out = String::new();
    out.append(PAGE_OPEN);
    let mut at: usize = 0;
    while at < todos.len()
        invariant
            at <= todos@.len(),
            out@ == PAGE_OPEN@ + list_markup(todo_views(todos@).take(at as int)),
        decreases todos@.len() - at,
    {
        push_todo_item(&mut out, &todos[at]);
        proof {
            let next = todo_views(todos@).take(at + 1);
            assert(next.drop_last() =~= todo_views(todos@).take(at as int));
            assert(next.last() == todos@[at as int]@);
            assert(out@ =~= PAGE_OPEN@ + list_markup(next));
        }
        at += 1;
    }
    assert(todo_views(todos@).take(at as int) =~= todo_views(todos@));
    out.append(PAGE_CLOSE);
    Html(out)
}

/// The form that adds an item.
#[derive(Debug)]
pub struct TodoForm {
    pub title: String,
}

/// The alert that answers a blank title.
pub open spec fn blank_title_alert() -> Seq<char> {
    alert_markup(AlertLevel::Warning, BLANK_TITLE_MESSAGE@)
}

/// Accepts every title but a blank one, which is answered with a warning
/// that is shown to the caller.
pub fn check_title(title: &str) -> (verdict: Result<(), AppError<Html>>)
    ensures
        match verdict {
            Ok(_) => !blank(title@),
            Err(err) => {
                &&& blank(title@)
                &&& err matches AppError::PubErr(fragment) && fragment@ == blank_title_alert()
            },
        },
{
    if is_blank(title) {
        Err(AppError::new(String::from_str(BLANK_TITLE_MESSAGE), AlertLevel::Warning))
    } else {
        Ok(())
    }
}

/// The answer to a request for the page, given what the table returned: the
/// page that shows the rows, or the table's failure as a private one.
pub fn page_reply(outcome: Result<Vec<Todo>, StoreError>) -> (reply: AppResult<Html>)
    ensures
        match outcome {
            Ok(rows) => reply matches Ok(page) && page@ == page_markup(todo_views(rows@)),
            Err(failure) => reply matches Err(err) && err == AppError::<Html>::PrivErr(failure),
        },
{
    match outcome {
        Ok(rows) => Ok(render_page(&rows)),
        Err(failure) => Err(AppError::from(failure)),
    }
}

/// The answer to a request that stores or changes one item, given what the
/// table returned: the fragment that shows the row, or the table's failure
/// as a private one.
pub fn item_reply(outcome: Result<Todo, StoreError>) -> (reply: AppResult<Html>)
    ensures
        match outcome {
            Ok(row) => reply matches Ok(fragment) && fragment@ == todo_markup(row@),
            Err(failure) => reply matches Err(err) && err == AppError::<Html>::PrivErr(failure),
        },
{
    match outcome {
        Ok(row) => Ok(render_todo_item(&row)),
        Err(failure) => Err(AppError::from(failure)),
    }
}

/// The answer to a request that takes an item out, given what the table
/// returned: nothing, or the table's failure as a private one.
pub fn removal_reply(outcome: Result<(), StoreError>) -> (reply: AppResult<()>)
    ensures
        match outcome {
            Ok(_) => reply is Ok,
            Err(failure) => reply matches Err(err) && err == AppError::<Html>::PrivErr(failure),
        },
{
    match outcome {
        Ok(_) => Ok(()),
        Err(failure) => Err(AppError::from(failure)),
    }
}

/// The page that shows every item, earliest first.
pub fn index(state: &State) -> (reply: AppResult<Html>)
    ensures
        reply matches Ok(page) && page@ == page_markup(state.db@.rows),
{
    page_reply(Ok(state.db.list_all()))
}

/// Flips the completion of the item with the id `id` and answers with the
/// fragment that shows the item as it then is. Where no item has the id the
/// table stays as it is and the answer is a private failure.
pub fn check(state: &mut State, id: i32) -> (reply: AppResult<Html>)
    ensures
        final(state).db@.rows == toggled(old(state).db@.rows, id as int),
        final(state).db@.next_id == old(state).db@.next_id,
        match reply {
            Ok(fragment) => {
                &&& has_id(old(state).db@.rows, id as int)
                &&& fragment@ == todo_markup(flipped(row_of(old(state).db@.rows, id as int)))
            },
            Err(err) => {
                &&& !has_id(old(state).db@.rows, id as int)
                &&& err == AppError::<Html>::PrivErr(StoreError::NotFound)
            },
        },
{
    item_reply(state.db.toggle(id))
}

/// Takes out the item with the id `id`. Where no item has the id nothing
/// changes, and the answer is the same.
pub fn delete_todo(state: &mut State, id: i32) -> (reply: AppResult<()>)
    ensures
        reply is Ok,
        final(state).db@.rows == removed(old(state).db@.rows, id as int),
        final(state).db@.next_id == old(state).db@.next_id,
{
    state.db.delete(id);
    removal_reply(Ok(()))
}

/// Stores a new item with the title of the form, as it was given, created
/// at `now`, and answers with the fragment that shows it. A blank title is
/// answered with a warning and nothing is stored. Where the table has no id
/// left, nothing is stored and the answer is a private failure.
pub fn add(state: &mut State, todo_form: TodoForm, now: i64) -> (reply: AppResult<Html>)
    ensures
        match reply {
            Ok(fragment) => {
                let row = fresh_row(old(state).db@.next_id, todo_form.title@, now as int);
                &&& !blank(todo_form.title@)
                &&& old(state).db@.next_id <= LAST_ID
                &&& fragment@ == todo_markup(row)
                &&& final(state).db@.rows == inserted(old(state).db@.rows, row)
                &&& final(state).db@.next_id == old(state).db@.next_id + 1
            },
            Err(AppError::PubErr(fragment)) => {
                &&& blank(todo_form.title@)
                &&& fragment@ == blank_title_alert()
                &&& final(state).db@ == old(state).db@
            },
            Err(AppError::PrivErr(failure)) => {
                &&& !blank(todo_form.title@)
                &&& old(state).db@.next_id > LAST_ID
                &&& failure matches StoreError::Failed(text) && text@ == IDS_USED_UP@
                &&& final(state).db@ == old(state).db@
            },
        },
{
    match check_title(todo_form.title.as_str()) {
        Err(err) => Err(err),
        Ok(_) => item_reply(state.db.insert(todo_form.title, now)),
    }
}

/// The answer to a request that only clears a region of the page: success,
/// with nothing in it.
pub fn empty() -> (reply: (StatusCode, ()))
    ensures
        reply.0@ == STATUS_OK,
{
    (StatusCode::ok(), ())
}

} // verus!
