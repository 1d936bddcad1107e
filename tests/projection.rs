use notion_tray::labels::PropertyLabels;
use notion_tray::projector::{find_property, first_deadline, first_title, project_page, project_pages};
use notion_tray::schema::{
    DateValue, FormulaValue, Page, Property, PropertyValue, RichText, RollupProperty, RollupValue,
    Task, TaskStatus,
};

fn text(s: &str) -> RichText {
    RichText { plain_text: s.to_string() }
}

fn date(s: &str) -> Option<DateValue> {
    Some(DateValue { start: s.to_string(), end: None })
}

fn prop(name: &str, value: PropertyValue) -> Property {
    Property { name: name.to_string(), value }
}

fn page(id: &str, properties: Vec<Property>) -> Page {
    Page { id: id.to_string(), properties }
}

fn project(p: &Page) -> Task {
    project_page(p, &PropertyLabels::standard())
}

fn full_page(id: &str) -> Page {
    page(
        id,
        vec![
            prop("Task Name", PropertyValue::Title { title: vec![text("Write report")] }),
            prop("Checkbox", PropertyValue::Checkbox { checkbox: true }),
            prop("Date", PropertyValue::Date { date: date("2025-04-01") }),
            prop(
                "Objective Name",
                PropertyValue::Rollup {
                    rollup: Some(RollupValue::Array {
                        array: vec![RollupProperty::Title { title: vec![text("Grow revenue")] }],
                    }),
                },
            ),
            prop(
                "Objective Deadline",
                PropertyValue::Rollup {
                    rollup: Some(RollupValue::Date { date: date("2025-06-30") }),
                },
            ),
        ],
    )
}

#[test]
fn projects_every_field_of_a_full_page() {
    let t = project(&full_page("p1"));
    assert_eq!(
        t,
        Task {
            id: "p1".to_string(),
            title: "Write report".to_string(),
            status: TaskStatus::Done,
            do_date: Some("2025-04-01".to_string()),
            objective_name: Some("Grow revenue".to_string()),
            objective_deadline: Some("2025-06-30".to_string()),
        }
    );
}

#[test]
fn totality_keeps_count_order_and_ids() {
    let pages = vec![full_page("a"), page("b", vec![]), full_page("c")];
    let tasks = project_pages(&pages, &PropertyLabels::standard());
    assert_eq!(tasks.len(), 3);
    assert_eq!(tasks[0].id, "a");
    assert_eq!(tasks[1].id, "b");
    assert_eq!(tasks[2].id, "c");
    assert_eq!(tasks[1].title, "Untitled");
}

#[test]
fn empty_list_projects_to_no_tasks() {
    let tasks = project_pages(&vec![], &PropertyLabels::standard());
    assert!(tasks.is_empty());
}

#[test]
fn empty_page_gets_defaults() {
    let t = project(&page("x", vec![]));
    assert_eq!(
        t,
        Task {
            id: "x".to_string(),
            title: "Untitled".to_string(),
            status: TaskStatus::ToDo,
            do_date: None,
            objective_name: None,
            objective_deadline: None,
        }
    );
}

#[test]
fn checkbox_true_is_done() {
    let t = project(&page("x", vec![prop("Checkbox", PropertyValue::Checkbox { checkbox: true })]));
    assert_eq!(t.status, TaskStatus::Done);
}

#[test]
fn checkbox_false_is_to_do() {
    let t = project(&page("x", vec![prop("Checkbox", PropertyValue::Checkbox { checkbox: false })]));
    assert_eq!(t.status, TaskStatus::ToDo);
}

#[test]
fn checkbox_absent_is_to_do() {
    let t = project(&page("x", vec![prop("Other box", PropertyValue::Checkbox { checkbox: true })]));
    assert_eq!(t.status, TaskStatus::ToDo);
}

#[test]
fn status_texts() {
    assert_eq!(TaskStatus::ToDo.as_text(), "To Do");
    assert_eq!(TaskStatus::Done.as_text(), "Done");
}

#[test]
fn rollup_array_first_match_wins() {
    let items = vec![
        RollupProperty::Title { title: vec![text("Objective")] },
        RollupProperty::Formula { formula: FormulaValue::Date { date: date("2025-01-01") } },
        RollupProperty::Date { date: date("2025-02-02") },
    ];
    let p = page(
        "x",
        vec![prop(
            "Objective Deadline",
            PropertyValue::Rollup { rollup: Some(RollupValue::Array { array: items }) },
        )],
    );
    assert_eq!(project(&p).objective_deadline, Some("2025-01-01".to_string()));
}

#[test]
fn rollup_array_date_item_counts() {
    let items = vec![
        RollupProperty::Formula { formula: FormulaValue::Other },
        RollupProperty::Date { date: None },
        RollupProperty::Date { date: date("2025-02-02") },
        RollupProperty::Formula { formula: FormulaValue::Date { date: date("2025-01-01") } },
    ];
    assert_eq!(first_deadline(&items), Some("2025-02-02".to_string()));
}

#[test]
fn rollup_array_without_dates_has_no_deadline() {
    let items = vec![RollupProperty::Title { title: vec![text("a")] }, RollupProperty::Other];
    assert_eq!(first_deadline(&items), None);
    assert_eq!(first_deadline(&vec![]), None);
}

#[test]
fn rollup_direct_date() {
    let p = page(
        "x",
        vec![prop(
            "Objective Deadline",
            PropertyValue::Rollup { rollup: Some(RollupValue::Date { date: date("2025-03-03") }) },
        )],
    );
    assert_eq!(project(&p).objective_deadline, Some("2025-03-03".to_string()));
}

#[test]
fn rollup_without_value_has_no_deadline() {
    let p = page("x", vec![prop("Objective Deadline", PropertyValue::Rollup { rollup: None })]);
    assert_eq!(project(&p).objective_deadline, None);
}

#[test]
fn objective_name_skips_empty_titles() {
    let items = vec![
        RollupProperty::Date { date: date("2025-01-01") },
        RollupProperty::Title { title: vec![] },
        RollupProperty::Title { title: vec![text("Second"), text("ignored")] },
        RollupProperty::Title { title: vec![text("Third")] },
    ];
    assert_eq!(first_title(&items), Some("Second".to_string()));
}

#[test]
fn objective_name_needs_an_array() {
    let p = page(
        "x",
        vec![prop(
            "Objective Name",
            PropertyValue::Rollup { rollup: Some(RollupValue::Date { date: date("2025-01-01") }) },
        )],
    );
    assert_eq!(project(&p).objective_name, None);
}

#[test]
fn unrecognized_property_defaults_only_its_field() {
    let mut p = full_page("p1");
    p.properties[0].value = PropertyValue::Other;
    let t = project(&p);
    assert_eq!(t.title, "Untitled");
    assert_eq!(t.status, TaskStatus::Done);
    assert_eq!(t.do_date, Some("2025-04-01".to_string()));
    assert_eq!(t.objective_name, Some("Grow revenue".to_string()));
    assert_eq!(t.objective_deadline, Some("2025-06-30".to_string()));
}

#[test]
fn wrong_kind_falls_back_to_default() {
    let p = page(
        "x",
        vec![
            prop("Task Name", PropertyValue::Checkbox { checkbox: true }),
            prop("Checkbox", PropertyValue::Title { title: vec![text("yes")] }),
            prop("Date", PropertyValue::Other),
            prop("Objective Name", PropertyValue::Date { date: date("2025-01-01") }),
        ],
    );
    let t = project(&p);
    assert_eq!(t.title, "Untitled");
    assert_eq!(t.status, TaskStatus::ToDo);
    assert_eq!(t.do_date, None);
    assert_eq!(t.objective_name, None);
}

#[test]
fn date_without_value_is_absent() {
    let p = page("x", vec![prop("Date", PropertyValue::Date { date: None })]);
    assert_eq!(project(&p).do_date, None);
}

#[test]
fn projection_is_deterministic() {
    let pages = vec![full_page("a"), page("b", vec![prop("Date", PropertyValue::Other)])];
    let labels = PropertyLabels::standard();
    assert_eq!(project_pages(&pages, &labels), project_pages(&pages, &labels));
}

#[test]
fn title_takes_first_run_only() {
    let p = page(
        "x",
        vec![prop("Task Name", PropertyValue::Title { title: vec![text("Buy milk"), text(" ")] })],
    );
    assert_eq!(project(&p).title, "Buy milk");
}

#[test]
fn title_without_runs_is_empty() {
    let p = page("x", vec![prop("Task Name", PropertyValue::Title { title: vec![] })]);
    assert_eq!(project(&p).title, "");
}

#[test]
fn labels_are_matched_exactly() {
    let p = page(
        "x",
        vec![prop("task name", PropertyValue::Title { title: vec![text("lower case")] })],
    );
    assert_eq!(project(&p).title, "Untitled");
}

#[test]
fn custom_labels_remap_fields() {
    let labels = PropertyLabels {
        task_name: "Name".to_string(),
        checkbox: "Finished".to_string(),
        date: "Due".to_string(),
        objective_name: "Goal".to_string(),
        objective_deadline: "Goal Due".to_string(),
    };
    let p = page(
        "x",
        vec![
            prop("Name", PropertyValue::Title { title: vec![text("Plan")] }),
            prop("Finished", PropertyValue::Checkbox { checkbox: true }),
            prop("Due", PropertyValue::Date { date: date("2025-05-05") }),
        ],
    );
    let t = project_page(&p, &labels);
    assert_eq!(t.title, "Plan");
    assert_eq!(t.status, TaskStatus::Done);
    assert_eq!(t.do_date, Some("2025-05-05".to_string()));
}

#[test]
fn find_property_returns_first_of_name() {
    let props = vec![
        prop("A", PropertyValue::Checkbox { checkbox: true }),
        prop("B", PropertyValue::Checkbox { checkbox: false }),
        prop("B", PropertyValue::Other),
    ];
    assert_eq!(
        find_property(&props, &"B".to_string()),
        Some(&PropertyValue::Checkbox { checkbox: false })
    );
    assert_eq!(find_property(&props, &"C".to_string()), None);
}
