//! The pipelines that test a board, one for each kind of board.
//!
//! A pipeline decides and records; it does not touch the board. It hands
//! out a request for the next operation on the hardware, and is handed back
//! what the operation observed. Each step of a test is recorded between the
//! moment its operation was requested and the moment its observation came
//! back. The first failed step ends the test.

pub mod auxboard;
pub mod mainboard;

use vstd::prelude::*;
use crate::adc::{Channel, MeasureError, MeasureFault};
use crate::api::{any_failed, lemma_ordered_push, ordered, text_view, StepRecord, TestReportValue};
use crate::esptool::ReadMacAddressResult;
use crate::logger::{Entry, Logger};
use crate::options::FlashWith;
use crate::serial::Verdict;
use crate::text::same;
use crate::{Board, BoardModel, Outcome, TestResult};

verus! {

/// The kind of board on the bench.
#[derive(Clone, Copy, Debug, PartialEq, Eq, Structural)]
pub enum Variant {
    MainBoard,
    AuxBoard,
}

/// The kind of board that a report type names.
pub open spec fn variant_named(report_type: Seq<char>) -> Option<Variant> {
    if report_type == "mainboard"@ {
        Some(Variant::MainBoard)
    } else if report_type == "auxboard"@ {
        Some(Variant::AuxBoard)
    } else {
        None
    }
}

/// The kind of board that a report type names, if it names one.
pub fn variant_of(report_type: &str) -> (variant: Option<Variant>)
    ensures
        variant == variant_named(report_type@),
{
    if same(report_type, "mainboard") {
        Some(Variant::MainBoard)
    } else if same(report_type, "auxboard") {
        Some(Variant::AuxBoard)
    } else {
        None
    }
}

/// A command for the firmware on the board.
#[derive(Clone, Copy, Debug, PartialEq, Eq, Structural)]
pub enum Command {
    /// Ask the firmware to test its sensor.
    GetTest,
}

/// The line that a command is sent as.
pub open spec fn command_text(command: Command) -> Seq<char> {
    "GET TEST\n"@
}

impl Command {
    /// The line that this command is sent as.
    pub fn text(self) -> (text: &'static str)
        ensures
            text@ == command_text(self),
    {
        "GET TEST\n"
    }
}

/// An operation on the hardware.
#[derive(Clone, Copy, Debug, PartialEq, Eq, Structural)]
pub enum Operation {
    /// Measure the voltage at an input of the converter.
    MeasureVoltage(Channel),
    /// Read the hardware address of the board.
    ReadIdentity,
    /// Write the firmware with the given tool, at the given baud rate.
    Flash(FlashWith, u32),
    /// Open the serial channel and clear its buffers.
    OpenSerial,
    /// Pulse the reset line of the board.
    ResetDevice,
    /// Send a command over the serial channel.
    WriteSerial(Command),
    /// Read what the serial channel holds.
    ReadSerial,
    /// Set up the link to the sensor.
    InitSensor,
    /// Ask the sensor for rotation reports at the given interval.
    EnableRotationVector(u16),
    /// Take in the sensor's messages, at most so many.
    HandleMessages(u8),
    /// Read the rotation that the sensor last reported.
    ReadQuaternion,
}

/// A request to the worker: wait, then perform the operation.
#[derive(Clone, Copy, Debug, PartialEq, Eq, Structural)]
pub struct Request {
    /// Milliseconds to wait before the operation.
    pub settle_ms: u32,
    pub operation: Operation,
}

/// A rotation as the sensor reported it: the bit patterns of its four
/// components, and the text that shows it.
#[derive(Clone, Debug, PartialEq, Eq)]
pub struct Rotation {
    pub i: u32,
    pub j: u32,
    pub k: u32,
    pub w: u32,
    pub text: String,
}

/// What an operation observed.
#[derive(Debug, PartialEq, Eq)]
pub enum Observation {
    /// The count of the converter, or why there is none.
    Voltage(Result<i16, MeasureError>),
    Identity(Result<ReadMacAddressResult, String>),
    /// The output of a tool, or its complaint.
    Output(Result<String, String>),
    /// An operation that only succeeds or fails.
    Done(Result<(), String>),
    /// A chunk from the serial channel, or a read error.
    Chunk(Result<Vec<u8>, String>),
    /// The number of messages taken in.
    Count(u32),
    Quaternion(Result<Rotation, String>),
}

/// An observation as plain values.
pub enum Seen {
    Voltage(Result<i16, MeasureFault>),
    Identity(Result<(Seq<char>, Seq<char>), Seq<char>>),
    Output(Verdict),
    Done(Result<(), Seq<char>>),
    Chunk(Result<Seq<u8>, Seq<char>>),
    Count(u32),
    Quaternion(Result<(u32, u32, u32, u32, Seq<char>), Seq<char>>),
}

impl View for Observation {
    type V = Seen;

    open spec fn view(&self) -> Seen {
        match *self {
            Observation::Voltage(Ok(raw)) => Seen::Voltage(Ok(raw)),
            Observation::Voltage(Err(e)) => Seen::Voltage(Err(e@)),
            Observation::Identity(Ok(found)) => Seen::Identity(Ok((found.mac@, found.log@))),
            Observation::Identity(Err(e)) => Seen::Identity(Err(e@)),
            Observation::Output(Ok(log)) => Seen::Output(Ok(log@)),
            Observation::Output(Err(e)) => Seen::Output(Err(e@)),
            Observation::Done(Ok(_)) => Seen::Done(Ok(())),
            Observation::Done(Err(e)) => Seen::Done(Err(e@)),
            Observation::Chunk(Ok(bytes)) => Seen::Chunk(Ok(bytes@)),
            Observation::Chunk(Err(e)) => Seen::Chunk(Err(e@)),
            Observation::Count(n) => Seen::Count(n),
            Observation::Quaternion(Ok(r)) => Seen::Quaternion(Ok((r.i, r.j, r.k, r.w, r.text@))),
            Observation::Quaternion(Err(e)) => Seen::Quaternion(Err(e@)),
        }
    }
}

/// What the worker does next.
#[derive(Clone, Debug, PartialEq, Eq)]
pub enum Next {
    /// Perform the operation and hand back what it observed.
    Perform(Request),
    /// The test has ended.
    Finished(TestResult),
    /// No test is under way.
    Idle,
}

/// What the worker does next, as plain values.
pub enum NextModel {
    Perform(Request),
    Finished(Outcome),
    Idle,
}

impl View for Next {
    type V = NextModel;

    open spec fn view(&self) -> NextModel {
        match *self {
            Next::Perform(request) => NextModel::Perform(request),
            Next::Finished(result) => NextModel::Finished(result@),
            Next::Idle => NextModel::Idle,
        }
    }
}

/// The entry for a passed check.
pub open spec fn good(msg: Seq<char>) -> Entry {
    Entry::Success(msg)
}

/// The entry for a failed check.
pub open spec fn bad(msg: Seq<char>) -> Entry {
    Entry::Error(msg)
}

/// The entry that sums up a check: an error if it failed, a success if not.
pub open spec fn summary(failed: bool, msg: Seq<char>) -> Entry {
    if failed {
        bad(msg)
    } else {
        good(msg)
    }
}

/// A finding reports its outcome: it sends at least one entry, errors and
/// nothing else if the step failed, successes and nothing else if not.
pub open spec fn reports_outcome(found: FindingModel) -> bool {
    &&& found.events.len() > 0
    &&& forall|i: int|
        0 <= i < found.events.len() ==> ((#[trigger] found.events[i]) is Error <==> found.failed)
            && (found.events[i] is Success <==> !found.failed)
}

/// What a step found, as plain values: what goes into its record, the
/// identity of the board if the step has learnt it, and what it reports.
pub struct FindingModel {
    pub value: Seq<char>,
    pub logs: Option<Seq<char>>,
    pub failed: bool,
    pub id: Option<Seq<char>>,
    pub events: Seq<Entry>,
}

/// What a step found.
pub struct Finding {
    pub value: String,
    pub logs: Option<String>,
    pub failed: bool,
    pub id: Option<String>,
}

impl View for Finding {
    type V = FindingModel;

    /// The finding as plain values, with nothing reported.
    open spec fn view(&self) -> FindingModel {
        FindingModel {
            value: self.value@,
            logs: text_view(self.logs),
            failed: self.failed,
            id: text_view(self.id),
            events: Seq::empty(),
        }
    }
}

impl FindingModel {
    /// The finding `found`, with its reports made on a bus that held
    /// `before` and now holds `after`.
    pub open spec fn met_by(self, found: Finding, before: Seq<Entry>, after: Seq<Entry>) -> bool {
        &&& found.value@ == self.value
        &&& text_view(found.logs) == self.logs
        &&& found.failed == self.failed
        &&& text_view(found.id) == self.id
        &&& after == before + self.events
    }

    /// The record of the step that found this.
    pub open spec fn record(
        self,
        step: Seq<char>,
        condition: Seq<char>,
        started_at: i64,
        ended_at: i64,
    ) -> StepRecord {
        StepRecord {
            step,
            condition,
            value: self.value,
            logs: self.logs,
            failed: self.failed,
            started_at,
            ended_at,
        }
    }
}

/// A reply that does not fit the operation that was requested counts as a
/// failure of the step.
pub open spec fn misfit() -> FindingModel {
    FindingModel {
        value: "N/A"@,
        logs: Some("unexpected reply"@),
        failed: true,
        id: None,
        events: seq![bad("unexpected reply"@)],
    }
}

/// What a step that only succeeds or fails has found. On success the
/// record holds `true` and the output, if there is any; on failure `false`
/// and the complaint, which is also reported after `blame`, followed by
/// `sequel` if there is one.
pub open spec fn plain_finding(
    reply: Result<Option<Seq<char>>, Seq<char>>,
    praise: Seq<char>,
    blame: Seq<char>,
    sequel: Option<Seq<char>>,
) -> FindingModel {
    match reply {
        Ok(output) => FindingModel {
            value: "true"@,
            logs: output,
            failed: false,
            id: None,
            events: seq![good(praise)],
        },
        Err(complaint) => FindingModel {
            value: "false"@,
            logs: Some(complaint),
            failed: true,
            id: None,
            events: match sequel {
                Some(more) => seq![bad(blame + complaint), bad(more)],
                None => seq![bad(blame + complaint)],
            },
        },
    }
}

/// What a scan of the board's log has found. Either way the record holds
/// the log; a failed scan reports `blame` and then the log.
pub open spec fn scan_finding(verdict: Verdict, praise: Seq<char>, blame: Seq<char>)
    -> FindingModel {
    match verdict {
        Ok(log) => FindingModel {
            value: "true"@,
            logs: Some(log),
            failed: false,
            id: None,
            events: seq![good(praise)],
        },
        Err(log) => FindingModel {
            value: "false"@,
            logs: Some(log),
            failed: true,
            id: None,
            events: seq![bad(blame), bad(log)],
        },
    }
}

impl BoardModel {
    /// The board after a step that began at `opened_at` was settled at
    /// `now` with the given finding.
    pub open spec fn settled(
        self,
        step: Seq<char>,
        condition: Seq<char>,
        found: FindingModel,
        opened_at: i64,
        now: i64,
    ) -> BoardModel {
        BoardModel {
            id: match found.id {
                Some(id) => Some(id),
                None => self.id,
            },
            steps: self.steps.push(found.record(step, condition, opened_at, now)),
            ..self
        }
    }

    /// The board after its test ended at `now`.
    pub open spec fn ended(self, now: i64) -> BoardModel {
        BoardModel { ended_at: now, ..self }
    }

    /// The steps so far are in order, and none of them ends after `at`.
    pub open spec fn punctual(self, at: i64) -> bool {
        &&& ordered(self.steps)
        &&& self.steps.len() > 0 ==> self.started_at <= self.steps[0].started_at
        &&& self.latest() <= at
    }
}

/// Steps stop at the first failure. The one exception is a batch of
/// `batch` steps at the start, which is always taken whole: a failure in
/// it ends the test at the end of the batch.
pub open spec fn fail_fast(steps: Seq<StepRecord>, batch: int) -> bool {
    forall|k: int|
        0 <= k < steps.len() && (#[trigger] steps[k]).failed ==> steps.len() == if k < batch {
            batch
        } else {
            k + 1
        }
}

/// The clock never runs backwards: the observations come in at readings
/// none of which is earlier than `start` or than a reading before it.
pub open spec fn rising(start: i64, moves: Seq<(Seen, i64)>) -> bool {
    &&& forall|i: int| 0 <= i < moves.len() ==> start <= (#[trigger] moves[i]).1
    &&& forall|i: int, j: int|
        0 <= i < j < moves.len() ==> (#[trigger] moves[i]).1 <= (#[trigger] moves[j]).1
}

/// A clock that never runs backwards has not run backwards on the way.
pub proof fn lemma_rising_prefix(start: i64, moves: Seq<(Seen, i64)>)
    requires
        rising(start, moves),
        moves.len() > 0,
    ensures
        rising(start, moves.drop_last()),
        start <= moves.last().1,
        moves.len() > 1 ==> moves.drop_last().last().1 <= moves.last().1,
{
    let earlier = moves.drop_last();
    assert forall|i: int| 0 <= i < earlier.len() implies start <= (#[trigger] earlier[i]).1 by {
        assert(earlier[i] == moves[i]);
    }
    assert forall|i: int, j: int| 0 <= i < j < earlier.len() implies (#[trigger] earlier[i]).1 <= (
    #[trigger] earlier[j]).1 by {
        assert(earlier[i] == moves[i]);
        assert(earlier[j] == moves[j]);
    }
    assert(moves.last() == moves[moves.len() - 1]);
    if moves.len() > 1 {
        assert(earlier.last() == moves[moves.len() - 2]);
    }
}

/// The report that a check is under way, if it is announced.
pub open spec fn announced(msg: Option<Seq<char>>) -> Seq<Entry> {
    match msg {
        Some(m) => seq![Entry::InProgress(m)],
        None => Seq::empty(),
    }
}

/// A failed step is among the steps after one more step if and only if it
/// was among them before or is the new one.
pub proof fn lemma_any_failed_push(steps: Seq<StepRecord>, next: StepRecord)
    ensures
        any_failed(steps.push(next)) <==> any_failed(steps) || next.failed,
{
    let longer = steps.push(next);
    if any_failed(steps) {
        let k = choose|k: int| 0 <= k < steps.len() && (#[trigger] steps[k]).failed;
        assert(longer[k].failed);
    }
    if next.failed {
        assert(longer[steps.len() as int].failed);
    }
    if any_failed(longer) {
        let k = choose|k: int| 0 <= k < longer.len() && (#[trigger] longer[k]).failed;
        if k < steps.len() {
            assert(steps[k].failed);
        }
    }
}

/// A step that begins no earlier than the last one ended, and is settled
/// no earlier than it began, keeps a board punctual.
pub proof fn lemma_settled_punctual(
    board: BoardModel,
    step: Seq<char>,
    condition: Seq<char>,
    found: FindingModel,
    opened_at: i64,
    now: i64,
)
    requires
        board.punctual(opened_at),
        opened_at <= now,
    ensures
        board.settled(step, condition, found, opened_at, now).punctual(now),
        board.settled(step, condition, found, opened_at, now).ended(now).chronological(),
{
    let record = found.record(step, condition, opened_at, now);
    lemma_ordered_push(board.steps, record);
    let after = board.settled(step, condition, found, opened_at, now);
    if board.steps.len() > 0 {
        assert(after.steps[0] == board.steps[0]);
    }
}

/// Settles a step on the board: appends its record, and takes over the
/// identity if the step has learnt it.
pub fn settle(
    board: &mut Board,
    step: &str,
    condition: &str,
    found: Finding,
    opened_at: i64,
    now: i64,
) -> (failed: bool)
    ensures
        failed == found.failed,
        final(board)@ == old(board)@.settled(step@, condition@, found@, opened_at, now),
{
    let failed = found.failed;
    let record = TestReportValue::new(
        step,
        condition,
        found.value.as_str(),
        found.logs,
        failed,
        opened_at,
        now,
    );
    board.add_value(record);
    match found.id {
        Some(id) => {
            board.id = Some(id);
        },
        None => {},
    }
    failed
}

/// Whether some step on the board has failed.
pub fn has_failure(board: &Board) -> (r: bool)
    ensures
        r == any_failed(board@.steps),
{
    let mut i: usize = 0;
    while i < board.values.len()
        invariant
            i <= board.values.len(),
            forall|k: int| 0 <= k < i ==> !(#[trigger] board@.steps[k]).failed,
        decreases board.values.len() - i,
    {
        if board.values[i].failed {
            assert(board@.steps[i as int].failed);
            return true;
        }
        i += 1;
    }
    false
}

/// Reports that a check is under way, if there is something to announce.
pub fn announce(logger: &mut Logger, msg: Option<&str>)
    ensures
        final(logger)@ == old(logger)@ + announced(
            match msg {
                Some(m) => Some(m@),
                None => None,
            },
        ),
{
    match msg {
        Some(m) => {
            logger.in_progress(m);
            assert(logger@ =~= old(logger)@ + seq![Entry::InProgress(m@)]);
        },
        None => {
            assert(logger@ =~= old(logger)@ + Seq::<Entry>::empty());
        },
    }
}

/// The finding for a reply that does not fit the request.
pub fn judge_misfit(logger: &mut Logger) -> (found: Finding)
    ensures
        misfit().met_by(found, old(logger)@, final(logger)@),
{
    logger.error("unexpected reply");
    assert(logger@ =~= old(logger)@ + misfit().events);
    Finding {
        value: String::from_str("N/A"),
        logs: Some(String::from_str("unexpected reply")),
        failed: true,
        id: None,
    }
}

/// The view of a reply that may carry output.
pub open spec fn reply_view(reply: Result<Option<String>, String>) -> Result<
    Option<Seq<char>>,
    Seq<char>,
> {
    match reply {
        Ok(output) => Ok(text_view(output)),
        Err(complaint) => Err(complaint@),
    }
}

/// The finding of a step that only succeeds or fails.
pub fn judge_plain(
    reply: Result<Option<String>, String>,
    praise: &str,
    blame: &str,
    sequel: Option<&str>,
    logger: &mut Logger,
) -> (found: Finding)
    ensures
        plain_finding(
            reply_view(reply),
            praise@,
            blame@,
            match sequel {
                Some(more) => Some(more@),
                None => None,
            },
        ).met_by(found, old(logger)@, final(logger)@),
{
    let ghost model = plain_finding(
        reply_view(reply),
        praise@,
        blame@,
        match sequel {
            Some(more) => Some(more@),
            None => None,
        },
    );
    match reply {
        Ok(output) => {
            logger.success(praise);
            assert(logger@ =~= old(logger)@ + model.events);
            Finding { value: String::from_str("true"), logs: output, failed: false, id: None }
        },
        Err(complaint) => {
            logger.error(String::from_str(blame).concat(complaint.as_str()).as_str());
            match sequel {
                Some(more) => {
                    logger.error(more);
                },
                None => {},
            }
            assert(logger@ =~= old(logger)@ + model.events);
            Finding {
                value: String::from_str("false"),
                logs: Some(complaint),
                failed: true,
                id: None,
            }
        },
    }
}

/// The finding of a scan of the board's log.
pub fn judge_scan(verdict: Result<String, String>, praise: &str, blame: &str, logger: &mut Logger)
    -> (found: Finding)
    ensures
        scan_finding(crate::serial::verdict_view(verdict), praise@, blame@).met_by(
            found,
            old(logger)@,
            final(logger)@,
        ),
{
    let ghost model = scan_finding(crate::serial::verdict_view(verdict), praise@, blame@);
    match verdict {
        Ok(log) => {
            logger.success(praise);
            assert(logger@ =~= old(logger)@ + model.events);
            Finding { value: String::from_str("true"), logs: Some(log), failed: false, id: None }
        },
        Err(log) => {
            logger.error(blame);
            logger.error(log.as_str());
            assert(logger@ =~= old(logger)@ + model.events);
            Finding { value: String::from_str("false"), logs: Some(log), failed: true, id: None }
        },
    }
}

} // verus!
