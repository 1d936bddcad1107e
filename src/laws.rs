//! Properties of the projection as a whole.
use vstd::prelude::*;

use crate::labels::PropertyLabels;
use crate::projector::{
    first_deadline_from, first_title_from, item_deadline, item_title, lookup, lookup_from,
    projected_task, projected_tasks, task_models,
};
use crate::schema::{
    distinct_names, Page, Property, PropertyValue, RichText, RollupProperty, Task, TaskStatus,
};

verus! {

/// A page without properties projects to the default task: titled
/// "Untitled", to do, and with no dates and no objective.
pub proof fn lemma_empty_page_defaults(page: Page, labels: PropertyLabels)
    requires
        page.properties@.len() == 0,
    ensures
        projected_task(page, labels).id == page.id@,
        projected_task(page, labels).title == "Untitled"@,
        projected_task(page, labels).status == TaskStatus::ToDo,
        projected_task(page, labels).do_date is None,
        projected_task(page, labels).objective_name is None,
        projected_task(page, labels).objective_deadline is None,
{
}

/// A ticked checkbox makes the task done; an unticked or absent one leaves
/// it to do.
pub proof fn lemma_checkbox_status(page: Page, labels: PropertyLabels)
    ensures
        lookup(page.properties@, labels.checkbox@) == Some(PropertyValue::Checkbox {
            checkbox: true,
        }) ==> projected_task(page, labels).status == TaskStatus::Done,
        lookup(page.properties@, labels.checkbox@) == Some(PropertyValue::Checkbox {
            checkbox: false,
        }) ==> projected_task(page, labels).status == TaskStatus::ToDo,
        lookup(page.properties@, labels.checkbox@) is None ==> projected_task(page, labels).status
            == TaskStatus::ToDo,
{
}

proof fn lemma_first_deadline_at(items: Seq<RollupProperty>, k: int, from: int)
    requires
        0 <= from <= k < items.len(),
        item_deadline(items[k]) is Some,
        forall|j: int| 0 <= j < k ==> #[trigger] item_deadline(items[j]) is None,
    ensures
        first_deadline_from(items, from) == item_deadline(items[k]),
    decreases k - from,
{
    if from < k {
        lemma_first_deadline_at(items, k, from + 1);
    }
}

proof fn lemma_first_title_at(items: Seq<RollupProperty>, k: int, from: int)
    requires
        0 <= from <= k < items.len(),
        item_title(items[k]) is Some,
        forall|j: int| 0 <= j < k ==> #[trigger] item_title(items[j]) is None,
    ensures
        first_title_from(items, from) == item_title(items[k]),
    decreases k - from,
{
    if from < k {
        lemma_first_title_at(items, k, from + 1);
    }
}

/// In a rollup array the first element that offers a deadline decides it,
/// whatever later elements offer.
pub proof fn lemma_first_deadline_wins(items: Seq<RollupProperty>, k: int)
    requires
        0 <= k < items.len(),
        item_deadline(items[k]) is Some,
        forall|j: int| 0 <= j < k ==> #[trigger] item_deadline(items[j]) is None,
    ensures
        first_deadline_from(items, 0) == item_deadline(items[k]),
{
    lemma_first_deadline_at(items, k, 0);
}

/// In a rollup array the first element that offers an objective name
/// decides it, whatever later elements offer.
pub proof fn lemma_first_title_wins(items: Seq<RollupProperty>, k: int)
    requires
        0 <= k < items.len(),
        item_title(items[k]) is Some,
        forall|j: int| 0 <= j < k ==> #[trigger] item_title(items[j]) is None,
    ensures
        first_title_from(items, 0) == item_title(items[k]),
{
    lemma_first_title_at(items, k, 0);
}

/// A title property's first run gives the title; later runs are ignored.
pub proof fn lemma_title_first_run(page: Page, labels: PropertyLabels, runs: Seq<RichText>)
    requires
        runs.len() > 0,
        lookup(page.properties@, labels.task_name@) matches Some(PropertyValue::Title { title })
            && title@ == runs,
    ensures
        projected_task(page, labels).title == runs[0].plain_text@,
{
}

proof fn lemma_lookup_agrees(
    a: Seq<Property>,
    b: Seq<Property>,
    k: int,
    name: Seq<char>,
    from: int,
)
    requires
        0 <= k < a.len(),
        a.len() == b.len(),
        forall|i: int| 0 <= i < a.len() ==> #[trigger] a[i].name@ == b[i].name@,
        forall|i: int| 0 <= i < a.len() && i != k ==> #[trigger] a[i].value == b[i].value,
        name != a[k].name@,
    ensures
        lookup_from(a, name, from) == lookup_from(b, name, from),
    decreases a.len() - from,
{
    if 0 <= from < a.len() {
        lemma_lookup_agrees(a, b, k, name, from + 1);
    }
}

proof fn lemma_lookup_unique(props: Seq<Property>, k: int, from: int)
    requires
        distinct_names(props),
        0 <= from <= k < props.len(),
    ensures
        lookup_from(props, props[k].name@, from) == Some(props[k].value),
    decreases k - from,
{
    if from < k {
        assert(props[from].name@ != props[k].name@);
        lemma_lookup_unique(props, k, from + 1);
    }
}

/// A property of an unrecognized kind defaults the one field it would feed
/// and leaves every other field as it was.
pub proof fn lemma_unrecognized_property_defaults(
    page: Page,
    other: Page,
    k: int,
    labels: PropertyLabels,
)
    requires
        page.wf(),
        0 <= k < page.properties@.len(),
        other.id@ == page.id@,
        other.properties@.len() == page.properties@.len(),
        forall|i: int|
            0 <= i < page.properties@.len() ==> #[trigger] other.properties@[i].name@
                == page.properties@[i].name@,
        forall|i: int|
            0 <= i < page.properties@.len() && i != k ==> #[trigger] other.properties@[i].value
                == page.properties@[i].value,
        other.properties@[k].value == PropertyValue::Other,
    ensures
        ({
            let name = page.properties@[k].name@;
            let before = projected_task(page, labels);
            let after = projected_task(other, labels);
            &&& after.id == before.id
            &&& after.title == if labels.task_name@ == name {
                "Untitled"@
            } else {
                before.title
            }
            &&& after.status == if labels.checkbox@ == name {
                TaskStatus::ToDo
            } else {
                before.status
            }
            &&& after.do_date == if labels.date@ == name {
                None
            } else {
                before.do_date
            }
            &&& after.objective_name == if labels.objective_name@ == name {
                None
            } else {
                before.objective_name
            }
            &&& after.objective_deadline == if labels.objective_deadline@ == name {
                None
            } else {
                before.objective_deadline
            }
        }),
{
    let a = page.properties@;
    let b = other.properties@;
    let name = a[k].name@;
    assert(distinct_names(b)) by {
        assert forall|i: int, j: int|
            0 <= i < b.len() && 0 <= j < b.len() && i != j implies #[trigger] b[i].name@
            != #[trigger] b[j].name@ by {
            assert(a[i].name@ != a[j].name@);
        }
    }
    lemma_lookup_unique(b, k, 0);
    let labs = seq![
        labels.task_name@,
        labels.checkbox@,
        labels.date@,
        labels.objective_name@,
        labels.objective_deadline@,
    ];
    assert forall|l: int| 0 <= l < 5 && labs[l] != name implies lookup(a, #[trigger] labs[l])
        == lookup(b, labs[l]) by {
        lemma_lookup_agrees(a, b, k, labs[l], 0);
    }
    assert(labs[0] == labels.task_name@);
    assert(labs[1] == labels.checkbox@);
    assert(labs[2] == labels.date@);
    assert(labs[3] == labels.objective_name@);
    assert(labs[4] == labels.objective_deadline@);
}

/// Projection has no hidden state: two runs on the same pages give the same
/// tasks.
pub proof fn lemma_projection_deterministic(
    pages: Seq<Page>,
    labels: PropertyLabels,
    first: Seq<Task>,
    second: Seq<Task>,
)
    requires
        task_models(first) == projected_tasks(pages, labels),
        task_models(second) == projected_tasks(pages, labels),
    ensures
        first.len() == second.len() == pages.len(),
        forall|i: int| 0 <= i < pages.len() ==> #[trigger] first[i]@ == second[i]@,
{
    assert(task_models(first).len() == first.len());
    assert(task_models(second).len() == second.len());
    assert forall|i: int| 0 <= i < pages.len() implies #[trigger] first[i]@ == second[i]@ by {
        assert(task_models(first)[i] == first[i]@);
        assert(task_models(second)[i] == second[i]@);
    }
}

} // verus!
