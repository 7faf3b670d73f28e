//! The records that make up a report.

use vstd::prelude::*;

verus! {

/// The view of a text that may be absent.
pub open spec fn text_view(text: Option<String>) -> Option<Seq<char>> {
    match text {
        Some(t) => Some(t@),
        None => None,
    }
}

/// A copy of a text that may be absent.
pub fn text_copy(text: &Option<String>) -> (copy: Option<String>)
    ensures
        text_view(copy) == text_view(*text),
{
    match text {
        Some(t) => Some(t.clone()),
        None => None,
    }
}

/// The record of one step of a test: what was checked, against which
/// condition, what was seen, and when.
#[derive(Clone, Debug, PartialEq, Eq)]
pub struct TestReportValue {
    pub step: String,
    pub condition: String,
    pub value: String,
    pub logs: Option<String>,
    pub failed: bool,
    pub started_at: i64,
    pub ended_at: i64,
}

/// The record of one step as plain values.
pub struct StepRecord {
    pub step: Seq<char>,
    pub condition: Seq<char>,
    pub value: Seq<char>,
    pub logs: Option<Seq<char>>,
    pub failed: bool,
    pub started_at: i64,
    pub ended_at: i64,
}

impl View for TestReportValue {
    type V = StepRecord;

    open spec fn view(&self) -> StepRecord {
        StepRecord {
            step: self.step@,
            condition: self.condition@,
            value: self.value@,
            logs: text_view(self.logs),
            failed: self.failed,
            started_at: self.started_at,
            ended_at: self.ended_at,
        }
    }
}

/// The views of a list of records.
pub open spec fn records(values: Seq<TestReportValue>) -> Seq<StepRecord> {
    Seq::new(values.len(), |k: int| values[k]@)
}

/// Each step ends no earlier than it starts, and no later than any step
/// after it starts.
pub open spec fn ordered(steps: Seq<StepRecord>) -> bool {
    &&& forall|i: int|
        0 <= i < steps.len() ==> (#[trigger] steps[i]).started_at <= steps[i].ended_at
    &&& forall|i: int, j: int|
        0 <= i < j < steps.len() ==> (#[trigger] steps[i]).ended_at <= (
        #[trigger] steps[j]).started_at
}

/// Some step has failed.
pub open spec fn any_failed(steps: Seq<StepRecord>) -> bool {
    exists|k: int| 0 <= k < steps.len() && (#[trigger] steps[k]).failed
}

impl TestReportValue {
    pub fn new(
        step: &str,
        condition: &str,
        value: &str,
        logs: Option<String>,
        failed: bool,
        started_at: i64,
        ended_at: i64,
    ) -> (record: TestReportValue)
        ensures
            record@ == (StepRecord {
                step: step@,
                condition: condition@,
                value: value@,
                logs: text_view(logs),
                failed,
                started_at,
                ended_at,
            }),
    {
        TestReportValue {
            step: String::from_str(step),
            condition: String::from_str(condition),
            value: String::from_str(value),
            logs,
            failed,
            started_at,
            ended_at,
        }
    }

    /// A copy of this record.
    pub fn copy(&self) -> (record: TestReportValue)
        ensures
            record@ == self@,
    {
        TestReportValue {
            step: self.step.clone(),
            condition: self.condition.clone(),
            value: self.value.clone(),
            logs: text_copy(&self.logs),
            failed: self.failed,
            started_at: self.started_at,
            ended_at: self.ended_at,
        }
    }
}

/// Steps in order do not overlap: each ends no earlier than it starts and
/// no later than the next one starts.
pub proof fn lemma_ordered_adjacent(steps: Seq<StepRecord>, i: int)
    requires
        ordered(steps),
        0 <= i < steps.len(),
    ensures
        steps[i].started_at <= steps[i].ended_at,
        i + 1 < steps.len() ==> steps[i].ended_at <= steps[i + 1].started_at,
{
}

/// Appending a step that starts no earlier than the last one ended, and
/// ends no earlier than it starts, keeps the steps in order.
pub proof fn lemma_ordered_push(steps: Seq<StepRecord>, next: StepRecord)
    requires
        ordered(steps),
        next.started_at <= next.ended_at,
        steps.len() > 0 ==> steps.last().ended_at <= next.started_at,
    ensures
        ordered(steps.push(next)),
{
    let longer = steps.push(next);
    let n = steps.len() as int;
    assert forall|i: int| 0 <= i < longer.len() implies (#[trigger] longer[i]).started_at
        <= longer[i].ended_at by {
        if i < n {
            assert(longer[i] == steps[i]);
        }
    }
    assert forall|i: int, j: int| 0 <= i < j < longer.len() implies (#[trigger] longer[i]).ended_at
        <= (#[trigger] longer[j]).started_at by {
        assert(longer[i] == steps[i]);
        if j < n {
            assert(longer[j] == steps[j]);
        } else if i < n - 1 {
            assert(steps[i].ended_at <= steps[n - 1].started_at);
            assert(steps[n - 1].started_at <= steps[n - 1].ended_at);
        }
    }
}

} // verus!
