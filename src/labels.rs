//! Which external property label feeds which task field.
use vstd::prelude::*;

verus! {

/// The property labels the projector reads, one per task field. Labels are
/// matched by exact text equality.
#[derive(Clone, Debug, PartialEq, Eq)]
pub struct PropertyLabels {
    pub task_name: String,
    pub checkbox: String,
    pub date: String,
    pub objective_name: String,
    pub objective_deadline: String,
}

impl PropertyLabels {
    /// The labels of the task database this tool was built for.
    pub fn standard() -> (r: PropertyLabels)
        ensures
            r.task_name@ == "Task Name"@,
            r.checkbox@ == "Checkbox"@,
            r.date@ == "Date"@,
            r.objective_name@ == "Objective Name"@,
            r.objective_deadline@ == "Objective Deadline"@,
    {
        PropertyLabels {
            task_name: String::from_str("Task Name"),
            checkbox: String::from_str("Checkbox"),
            date: String::from_str("Date"),
            objective_name: String::from_str("Objective Name"),
            objective_deadline: String::from_str("Objective Deadline"),
        }
    }
}

} // verus!
