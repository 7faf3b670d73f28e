//! A bench for testing assembled boards: the pipeline of checks that a board
//! goes through, the scanner that reads its logs, the status bus to the
//! screen, and the outbox that keeps reports until they are delivered.

pub mod adc;
pub mod api;
pub mod clock;
pub mod esptool;
pub mod log;
pub mod logger;
pub mod options;
pub mod outbox;
pub mod pio;
pub mod serial;
pub mod test_executors;
pub mod text;
pub mod upload_update;

use vstd::prelude::*;
use crate::api::{any_failed, ordered, records, text_copy, text_view, StepRecord, TestReportValue};

verus! {

/// One unit under test, with the trail of its steps.
#[derive(Clone, Debug, PartialEq, Eq)]
pub struct Board {
    /// The identity of the device, once it is known.
    pub id: Option<String>,
    /// The steps, in the order in which they were taken.
    pub values: Vec<TestReportValue>,
    pub started_at: i64,
    /// `clock::NOT_ENDED` until the test has ended.
    pub ended_at: i64,
}

/// A board as plain values.
pub struct BoardModel {
    pub id: Option<Seq<char>>,
    pub steps: Seq<StepRecord>,
    pub started_at: i64,
    pub ended_at: i64,
}

impl View for Board {
    type V = BoardModel;

    open spec fn view(&self) -> BoardModel {
        BoardModel {
            id: text_view(self.id),
            steps: records(self.values@),
            started_at: self.started_at,
            ended_at: self.ended_at,
        }
    }
}

impl BoardModel {
    /// A board on which no step was taken yet.
    pub open spec fn fresh(started_at: i64) -> BoardModel {
        BoardModel { id: None, steps: Seq::empty(), started_at, ended_at: clock::NOT_ENDED }
    }

    /// The board with one more step.
    pub open spec fn with_step(self, step: StepRecord) -> BoardModel {
        BoardModel { steps: self.steps.push(step), ..self }
    }

    /// The latest point in time that the board records so far.
    pub open spec fn latest(self) -> i64 {
        if self.steps.len() > 0 {
            self.steps.last().ended_at
        } else {
            self.started_at
        }
    }

    /// The test started before its first step and ended after its last, and
    /// the steps follow one another without overlap.
    pub open spec fn chronological(self) -> bool {
        &&& ordered(self.steps)
        &&& self.steps.len() > 0 ==> self.started_at <= self.steps[0].started_at
        &&& self.latest() <= self.ended_at
    }
}

impl Board {
    /// A board whose test starts at `started_at`.
    pub fn new_at(started_at: i64) -> (board: Board)
        ensures
            board@ == BoardModel::fresh(started_at),
    {
        let board = Board {
            id: None,
            values: Vec::new(),
            started_at,
            ended_at: clock::NOT_ENDED,
        };
        assert(board@.steps =~= Seq::<StepRecord>::empty());
        board
    }

    /// A board whose test starts now.
    pub fn new() -> (board: Board)
        ensures
            board@ == BoardModel::fresh(board.started_at),
    {
        Board::new_at(clock::now())
    }

    /// Appends a step.
    pub fn add_value(&mut self, value: TestReportValue)
        ensures
            final(self)@ == old(self)@.with_step(value@),
    {
        self.values.push(value);
        assert(records(self.values@) =~= records(old(self).values@).push(value@));
    }

    /// A copy of this board.
    pub fn copy(&self) -> (board: Board)
        ensures
            board@ == self@,
    {
        let mut values: Vec<TestReportValue> = Vec::new();
        let mut i: usize = 0;
        while i < self.values.len()
            invariant
                i <= self.values.len(),
                records(values@) == records(self.values@).take(i as int),
            decreases self.values.len() - i,
        {
            let ghost copied = values@;
            values.push(self.values[i].copy());
            assert(records(values@) =~= records(copied).push(self.values@[i as int]@));
            i += 1;
            assert(records(values@) =~= records(self.values@).take(i as int));
        }
        assert(records(self.values@).take(i as int) =~= records(self.values@));
        Board {
            id: text_copy(&self.id),
            values,
            started_at: self.started_at,
            ended_at: self.ended_at,
        }
    }
}

/// How a test ended.
#[derive(Clone, Debug, PartialEq, Eq)]
pub enum TestResult {
    Failed(Board),
    Passed(Board),
}

/// The end of a test as plain values.
pub enum Outcome {
    Failed(BoardModel),
    Passed(BoardModel),
}

impl View for TestResult {
    type V = Outcome;

    open spec fn view(&self) -> Outcome {
        match *self {
            TestResult::Failed(board) => Outcome::Failed(board@),
            TestResult::Passed(board) => Outcome::Passed(board@),
        }
    }
}

impl Outcome {
    /// The board that was tested.
    pub open spec fn board(self) -> BoardModel {
        match self {
            Outcome::Failed(board) => board,
            Outcome::Passed(board) => board,
        }
    }

    /// The verdict agrees with the steps: the test has failed if and only if
    /// one of its steps has.
    pub open spec fn consistent(self) -> bool {
        self is Failed <==> any_failed(self.board().steps)
    }
}

} // verus!
