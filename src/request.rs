//! What the library asks of the task service: the query for due tasks, the
//! update that ticks a task off, the endpoints and headers, and the messages
//! for failed requests.
use vstd::prelude::*;

use crate::calendar::{iso_date, CalendarDate};
use crate::labels::PropertyLabels;

verus! {

/// The API version the requests are written against.
pub const API_VERSION: &'static str = "2022-06-28";

/// The longest part of an undecodable body, in characters, quoted in an
/// error message.
pub const SNIPPET_CHARS: usize = 500;

/// The query for tasks that are due: the checkbox property is unticked and
/// the date property falls on or before the given day.
#[derive(Clone, Debug, PartialEq, Eq)]
pub struct DueTasksQuery {
    pub checkbox_property: String,
    pub checkbox_equals: bool,
    pub date_property: String,
    pub on_or_before: String,
}

/// The update that sets a task's checkbox property.
#[derive(Clone, Debug, PartialEq, Eq)]
pub struct CompletionUpdate {
    pub checkbox_property: String,
    pub checked: bool,
}

/// The query for tasks not yet done whose date is `today` or earlier.
pub fn due_tasks_query(labels: &PropertyLabels, today: &CalendarDate) -> (q: DueTasksQuery)
    requires
        today.wf(),
    ensures
        q.checkbox_property@ == labels.checkbox@,
        !q.checkbox_equals,
        q.date_property@ == labels.date@,
        q.on_or_before@ == iso_date(today.year as nat, today.month as nat, today.day as nat),
{
    DueTasksQuery {
        checkbox_property: labels.checkbox.clone(),
        checkbox_equals: false,
        date_property: labels.date.clone(),
        on_or_before: today.iso_text(),
    }
}

/// The update that marks a task done, or not done.
pub fn completion_update(labels: &PropertyLabels, completed: bool) -> (u: CompletionUpdate)
    ensures
        u.checkbox_property@ == labels.checkbox@,
        u.checked == completed,
{
    CompletionUpdate { checkbox_property: labels.checkbox.clone(), checked: completed }
}

/// The endpoint that queries a database.
pub fn query_url(database_id: &str) -> (r: String)
    ensures
        r@ == "https://api.notion.com/v1/databases/"@ + database_id@ + "/query"@,
{
    String::from_str("https://api.notion.com/v1/databases/").concat(database_id).concat("/query")
}

/// The endpoint of one page.
pub fn page_url(page_id: &str) -> (r: String)
    ensures
        r@ == "https://api.notion.com/v1/pages/"@ + page_id@,
{
    String::from_str("https://api.notion.com/v1/pages/").concat(page_id)
}

/// The value of the authorization header for a token.
pub fn bearer_authorization(token: &str) -> (r: String)
    ensures
        r@ == "Bearer "@ + token@,
{
    String::from_str("Bearer ").concat(token)
}

/// The message for a response whose status is not a success.
pub fn api_error_message(body: &str) -> (r: String)
    ensures
        r@ == "Notion API Error: "@ + body@,
{
    String::from_str("Notion API Error: ").concat(body)
}

/// The first characters of a text, at most `SNIPPET_CHARS` of them.
pub open spec fn snippet_of(body: Seq<char>) -> Seq<char> {
    if body.len() <= SNIPPET_CHARS {
        body
    } else {
        body.subrange(0, SNIPPET_CHARS as int)
    }
}

/// The start of a body, cut to at most `SNIPPET_CHARS` characters.
pub fn body_snippet(body: &str) -> (r: String)
    ensures
        r@ == snippet_of(body@),
{
    let n = body.unicode_len();
    if n <= SNIPPET_CHARS {
        String::from_str(body)
    } else {
        String::from_str(body.substring_char(0, SNIPPET_CHARS))
    }
}

/// The message for a body that does not decode, quoting the decoder's
/// error and the start of the body.
pub fn decode_error_message(error: &str, body: &str) -> (r: String)
    ensures
        r@ == "JSON Parse Error: "@ + error@ + ". Snippet: "@ + snippet_of(body@),
{
    let snippet = body_snippet(body);
    String::from_str("JSON Parse Error: ").concat(error).concat(". Snippet: ").concat(
        snippet.as_str(),
    )
}

} // verus!
