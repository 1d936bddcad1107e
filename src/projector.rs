//! The projection of decoded pages onto task records. Every page yields
//! exactly one task; a missing property or one of an unexpected kind falls
//! back to the field's default and never fails the page.
use vstd::prelude::*;

use crate::labels::PropertyLabels;
use crate::schema::{
    opt_view, DateValue, FormulaValue, Page, Property, PropertyValue, RichText, RollupProperty,
    RollupValue, Task, TaskModel, TaskStatus,
};

verus! {

/// The value of the first property, at `from` or later, named `name`.
pub open spec fn lookup_from(props: Seq<Property>, name: Seq<char>, from: int) -> Option<
    PropertyValue,
>
    decreases props.len() - from,
{
    if 0 <= from < props.len() {
        if props[from].name@ == name {
            Some(props[from].value)
        } else {
            lookup_from(props, name, from + 1)
        }
    } else {
        None
    }
}

/// The value of the property named `name`, if the page has one.
pub open spec fn lookup(props: Seq<Property>, name: Seq<char>) -> Option<PropertyValue> {
    lookup_from(props, name, 0)
}

/// The plain text of the first run, if there is one.
pub open spec fn first_text(runs: Seq<RichText>) -> Option<Seq<char>> {
    if runs.len() > 0 {
        Some(runs[0].plain_text@)
    } else {
        None
    }
}

/// The start date of a date value, if it has one.
pub open spec fn date_start(d: Option<DateValue>) -> Option<Seq<char>> {
    match d {
        Some(v) => Some(v.start@),
        None => None,
    }
}

/// What a rollup element offers as an objective name: a title's first run.
pub open spec fn item_title(item: RollupProperty) -> Option<Seq<char>> {
    match item {
        RollupProperty::Title { title } => first_text(title@),
        _ => None,
    }
}

/// What a rollup element offers as a deadline: the start of a date, held
/// directly or as the result of a formula.
pub open spec fn item_deadline(item: RollupProperty) -> Option<Seq<char>> {
    match item {
        RollupProperty::Date { date } => date_start(date),
        RollupProperty::Formula { formula } => match formula {
            FormulaValue::Date { date } => date_start(date),
            FormulaValue::Other => None,
        },
        _ => None,
    }
}

/// The objective name of the first element, at `from` or later, that offers one.
pub open spec fn first_title_from(items: Seq<RollupProperty>, from: int) -> Option<Seq<char>>
    decreases items.len() - from,
{
    if 0 <= from < items.len() {
        if item_title(items[from]) is Some {
            item_title(items[from])
        } else {
            first_title_from(items, from + 1)
        }
    } else {
        None
    }
}

/// The deadline of the first element, at `from` or later, that offers one.
pub open spec fn first_deadline_from(items: Seq<RollupProperty>, from: int) -> Option<Seq<char>>
    decreases items.len() - from,
{
    if 0 <= from < items.len() {
        if item_deadline(items[from]) is Some {
            item_deadline(items[from])
        } else {
            first_deadline_from(items, from + 1)
        }
    } else {
        None
    }
}

/// The title field: a title property's first run (empty text when it has
/// none), else "Untitled".
pub open spec fn title_field(v: Option<PropertyValue>) -> Seq<char> {
    match v {
        Some(PropertyValue::Title { title }) => match first_text(title@) {
            Some(t) => t,
            None => Seq::empty(),
        },
        _ => "Untitled"@,
    }
}

/// The status field: done exactly when a checkbox property is ticked.
pub open spec fn status_field(v: Option<PropertyValue>) -> TaskStatus {
    match v {
        Some(PropertyValue::Checkbox { checkbox }) => if checkbox {
            TaskStatus::Done
        } else {
            TaskStatus::ToDo
        },
        _ => TaskStatus::ToDo,
    }
}

/// The do-date field: the start of a date property that holds a value.
pub open spec fn do_date_field(v: Option<PropertyValue>) -> Option<Seq<char>> {
    match v {
        Some(PropertyValue::Date { date }) => date_start(date),
        _ => None,
    }
}

/// The objective-name field: the first element of a rollup array that
/// offers a name.
pub open spec fn objective_name_field(v: Option<PropertyValue>) -> Option<Seq<char>> {
    match v {
        Some(PropertyValue::Rollup { rollup: Some(RollupValue::Array { array }) }) =>
            first_title_from(array@, 0),
        _ => None,
    }
}

/// The objective-deadline field: the first element of a rollup array that
/// offers a deadline, or the start of a rollup reduced to one date.
pub open spec fn objective_deadline_field(v: Option<PropertyValue>) -> Option<Seq<char>> {
    match v {
        Some(PropertyValue::Rollup { rollup: Some(RollupValue::Array { array }) }) =>
            first_deadline_from(array@, 0),
        Some(PropertyValue::Rollup { rollup: Some(RollupValue::Date { date }) }) => date_start(
            date,
        ),
        _ => None,
    }
}

/// The task that a page projects to under the given labels.
pub open spec fn projected_task(page: Page, labels: PropertyLabels) -> TaskModel {
    let props = page.properties@;
    TaskModel {
        id: page.id@,
        title: title_field(lookup(props, labels.task_name@)),
        status: status_field(lookup(props, labels.checkbox@)),
        do_date: do_date_field(lookup(props, labels.date@)),
        objective_name: objective_name_field(lookup(props, labels.objective_name@)),
        objective_deadline: objective_deadline_field(lookup(props, labels.objective_deadline@)),
    }
}

/// Finds the property named `name`; the first one, should the page repeat it.
pub fn find_property<'a>(props: &'a Vec<Property>, name: &String) -> (r: Option<
    &'a PropertyValue,
>)
    ensures
        match r {
            Some(v) => lookup(props@, name@) == Some(*v),
            None => lookup(props@, name@) is None,
        },
{
    let mut i: usize = 0;
    while i < props.len()
        invariant
            0 <= i <= props@.len(),
            lookup_from(props@, name@, i as int) == lookup(props@, name@),
        decreases props@.len() - i,
    {
        if props[i].name == *name {
            return Some(&props[i].value);
        }
        i += 1;
    }
    None
}

fn first_run_text(runs: &Vec<RichText>) -> (r: Option<String>)
    ensures
        opt_view(r) == first_text(runs@),
{
    if runs.len() > 0 {
        Some(runs[0].plain_text.clone())
    } else {
        None
    }
}

fn start_of(d: &Option<DateValue>) -> (r: Option<String>)
    ensures
        opt_view(r) == date_start(*d),
{
    match d {
        Some(v) => Some(v.start.clone()),
        None => None,
    }
}

fn title_of_item(item: &RollupProperty) -> (r: Option<String>)
    ensures
        opt_view(r) == item_title(*item),
{
    match item {
        RollupProperty::Title { title } => first_run_text(title),
        _ => None,
    }
}

fn deadline_of_item(item: &RollupProperty) -> (r: Option<String>)
    ensures
        opt_view(r) == item_deadline(*item),
{
    match item {
        RollupProperty::Date { date } => start_of(date),
        RollupProperty::Formula { formula } => match formula {
            FormulaValue::Date { date } => start_of(date),
            FormulaValue::Other => None,
        },
        _ => None,
    }
}

/// Scans a rollup array in order and returns the first objective name found.
pub fn first_title(items: &Vec<RollupProperty>) -> (r: Option<String>)
    ensures
        opt_view(r) == first_title_from(items@, 0),
{
    let mut i: usize = 0;
    while i < items.len()
        invariant
            0 <= i <= items@.len(),
            first_title_from(items@, i as int) == first_title_from(items@, 0),
        decreases items@.len() - i,
    {
        let found = title_of_item(&items[i]);
        if found.is_some() {
            return found;
        }
        i += 1;
    }
    None
}

/// Scans a rollup array in order and returns the first deadline found.
pub fn first_deadline(items: &Vec<RollupProperty>) -> (r: Option<String>)
    ensures
        opt_view(r) == first_deadline_from(items@, 0),
{
    let mut i: usize = 0;
    while i < items.len()
        invariant
            0 <= i <= items@.len(),
            first_deadline_from(items@, i as int) == first_deadline_from(items@, 0),
        decreases items@.len() - i,
    {
        let found = deadline_of_item(&items[i]);
        if found.is_some() {
            return found;
        }
        i += 1;
    }
    None
}

fn title_from(v: &PropertyValue) -> (r: String)
    ensures
        r@ == title_field(Some(*v)),
{
    match v {
        PropertyValue::Title { title } => match first_run_text(title) {
            Some(t) => t,
            None => String::new(),
        },
        _ => String::from_str("Untitled"),
    }
}

fn status_from(v: &PropertyValue) -> (r: TaskStatus)
    ensures
        r == status_field(Some(*v)),
{
    match v {
        PropertyValue::Checkbox { checkbox } => if *checkbox {
            TaskStatus::Done
        } else {
            TaskStatus::ToDo
        },
        _ => TaskStatus::ToDo,
    }
}

fn do_date_from(v: &PropertyValue) -> (r: Option<String>)
    ensures
        opt_view(r) == do_date_field(Some(*v)),
{
    match v {
        PropertyValue::Date { date } => start_of(date),
        _ => None,
    }
}

fn objective_name_from(v: &PropertyValue) -> (r: Option<String>)
    ensures
        opt_view(r) == objective_name_field(Some(*v)),
{
    match v {
        PropertyValue::Rollup { rollup: Some(RollupValue::Array { array }) } => first_title(array),
        _ => None,
    }
}

fn objective_deadline_from(v: &PropertyValue) -> (r: Option<String>)
    ensures
        opt_view(r) == objective_deadline_field(Some(*v)),
{
    match v {
        PropertyValue::Rollup { rollup: Some(RollupValue::Array { array }) } => first_deadline(
            array,
        ),
        PropertyValue::Rollup { rollup: Some(RollupValue::Date { date }) } => start_of(date),
        _ => None,
    }
}

/// Projects one page onto its task record, field by field.
pub fn project_page(page: &Page, labels: &PropertyLabels) -> (t: Task)
    ensures
        t@ == projected_task(*page, *labels),
        t@.id == page.id@,
{
    let props = &page.properties;
    let title = match find_property(props, &labels.task_name) {
        Some(v) => title_from(v),
        None => String::from_str("Untitled"),
    };
    let status = match find_property(props, &labels.checkbox) {
        Some(v) => status_from(v),
        None => TaskStatus::ToDo,
    };
    let do_date = match find_property(props, &labels.date) {
        Some(v) => do_date_from(v),
        None => None,
    };
    let objective_name = match find_property(props, &labels.objective_name) {
        Some(v) => objective_name_from(v),
        None => None,
    };
    let objective_deadline = match find_property(props, &labels.objective_deadline) {
        Some(v) => objective_deadline_from(v),
        None => None,
    };
    Task { id: page.id.clone(), title, status, do_date, objective_name, objective_deadline }
}

/// The tasks that a list of pages projects to, one per page, in order.
pub open spec fn projected_tasks(pages: Seq<Page>, labels: PropertyLabels) -> Seq<TaskModel> {
    Seq::new(pages.len(), |i: int| projected_task(pages[i], labels))
}

/// The abstract content of a list of tasks.
pub open spec fn task_models(tasks: Seq<Task>) -> Seq<TaskModel> {
    Seq::new(tasks.len(), |i: int| tasks[i]@)
}

/// Projects every page, keeping the order: one task per page, with the
/// page's id.
pub fn project_pages(pages: &Vec<Page>, labels: &PropertyLabels) -> (r: Vec<Task>)
    ensures
        task_models(r@) == projected_tasks(pages@, *labels),
        r@.len() == pages@.len(),
        forall|i: int| 0 <= i < pages@.len() ==> #[trigger] r@[i]@.id == pages@[i].id@,
{
    let mut r: Vec<Task> = Vec::new();
    let mut i: usize = 0;
    while i < pages.len()
        invariant
            0 <= i <= pages@.len(),
            r@.len() == i,
            forall|k: int| 0 <= k < i ==> #[trigger] r@[k]@ == projected_task(pages@[k], *labels),
        decreases pages@.len() - i,
    {
        let t = project_page(&pages[i], labels);
        r.push(t);
        i += 1;
    }
    assert(task_models(r@) =~= projected_tasks(pages@, *labels));
    r
}

} // verus!
