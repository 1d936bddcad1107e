//! The property shapes a database page can carry, and the task record that
//! the projector builds from a page.
use vstd::prelude::*;

verus! {

/// One run of rich text; only its plain text is read.
#[derive(Clone, Debug, PartialEq, Eq)]
pub struct RichText {
    pub plain_text: String,
}

/// A date property value: a start date and an optional end date, both as
/// ISO `YYYY-MM-DD` text.
#[derive(Clone, Debug, PartialEq, Eq)]
pub struct DateValue {
    pub start: String,
    pub end: Option<String>,
}

/// The result of a formula property.
#[derive(Clone, Debug, PartialEq, Eq)]
pub enum FormulaValue {
    Date { date: Option<DateValue> },
    /// Any formula result kind that is not a date.
    Other,
}

/// One element of a rollup array.
#[derive(Clone, Debug, PartialEq, Eq)]
pub enum RollupProperty {
    Title { title: Vec<RichText> },
    Date { date: Option<DateValue> },
    Formula { formula: FormulaValue },
    /// Any element kind that the projector does not read.
    Other,
}

/// The value of a rollup property: either the linked values as an array, or
/// a value the database already reduced to a single date.
#[derive(Clone, Debug, PartialEq, Eq)]
pub enum RollupValue {
    Array { array: Vec<RollupProperty> },
    Date { date: Option<DateValue> },
    /// Any other reduction kind.
    Other,
}

/// The value of one page property.
#[derive(Clone, Debug, PartialEq, Eq)]
pub enum PropertyValue {
    Title { title: Vec<RichText> },
    Checkbox { checkbox: bool },
    Date { date: Option<DateValue> },
    Rollup { rollup: Option<RollupValue> },
    /// A property of a kind or shape that is not modelled; decoding yields
    /// this rather than failing the whole document.
    Other,
}

/// A named property of a page.
#[derive(Clone, Debug, PartialEq, Eq)]
pub struct Property {
    pub name: String,
    pub value: PropertyValue,
}

/// One database record: its stable id and its named properties.
#[derive(Clone, Debug, PartialEq, Eq)]
pub struct Page {
    pub id: String,
    pub properties: Vec<Property>,
}

/// The top level of a query result: the pages in the order the service
/// returned them.
#[derive(Clone, Debug, PartialEq, Eq)]
pub struct QueryResponse {
    pub results: Vec<Page>,
}

/// No two properties carry the same name.
pub open spec fn distinct_names(props: Seq<Property>) -> bool {
    forall|i: int, j: int|
        0 <= i < props.len() && 0 <= j < props.len() && i != j ==> #[trigger] props[i].name@
            != #[trigger] props[j].name@
}

impl Page {
    /// The properties form a mapping from name to value.
    pub open spec fn wf(&self) -> bool {
        distinct_names(self.properties@)
    }
}

/// Completion state of a task.
#[derive(Clone, Copy, Debug, PartialEq, Eq)]
pub enum TaskStatus {
    ToDo,
    Done,
}

/// The text the interface shows for a status.
pub open spec fn status_text(s: TaskStatus) -> Seq<char> {
    match s {
        TaskStatus::ToDo => "To Do"@,
        TaskStatus::Done => "Done"@,
    }
}

impl TaskStatus {
    /// The text the interface shows for this status.
    pub fn as_text(&self) -> (r: String)
        ensures
            r@ == status_text(*self),
    {
        match self {
            TaskStatus::ToDo => String::from_str("To Do"),
            TaskStatus::Done => String::from_str("Done"),
        }
    }
}

/// A task as the interface receives it.
#[derive(Clone, Debug, PartialEq, Eq)]
pub struct Task {
    pub id: String,
    pub title: String,
    pub status: TaskStatus,
    pub do_date: Option<String>,
    pub objective_name: Option<String>,
    pub objective_deadline: Option<String>,
}

/// The abstract content of a task: its texts as character sequences.
pub struct TaskModel {
    pub id: Seq<char>,
    pub title: Seq<char>,
    pub status: TaskStatus,
    pub do_date: Option<Seq<char>>,
    pub objective_name: Option<Seq<char>>,
    pub objective_deadline: Option<Seq<char>>,
}

/// The characters of an optional text.
pub open spec fn opt_view(s: Option<String>) -> Option<Seq<char>> {
    match s {
        Some(t) => Some(t@),
        None => None,
    }
}

impl View for Task {
    type V = TaskModel;

    open spec fn view(&self) -> TaskModel {
        TaskModel {
            id: self.id@,
            title: self.title@,
            status: self.status,
            do_date: opt_view(self.do_date),
            objective_name: opt_view(self.objective_name),
            objective_deadline: opt_view(self.objective_deadline),
        }
    }
}

} // verus!
