//! The pipeline for the sensor add-on board: the link to the sensor, its
//! rotation reports, the messages it sends, and the rotation it arrives at.
//!
//! Every step ends the test as soon as it fails.

use vstd::prelude::*;
use crate::api::any_failed;
use crate::logger::{Entry, Logger};
use crate::test_executors::{
    announce, announced, bad, fail_fast, good, has_failure, judge_misfit, judge_plain,
    lemma_any_failed_push, lemma_settled_punctual, misfit, plain_finding, settle, Finding,
    FindingModel, Next, NextModel, Observation, Operation, Request, Seen,
};
use crate::test_executors::{lemma_rising_prefix, reports_outcome, rising, summary};
use crate::text::{decimal, decimal_text};
use crate::{clock, Board, BoardModel, Outcome, TestResult};

verus! {

/// The number of steps on a board that has passed.
pub const STEPS: usize = 4;

/// Makes a random identity with `uuid::Uuid::new_v4` and writes it out with
/// `to_string`, that is in the hyphenated form, which is 36 characters
/// long. Nothing else is promised of it: it is drawn at random.
#[verifier::external_body]
pub(crate) fn fresh_id() -> (id: String)
    ensures
        id@.len() == 36,
{
    uuid::Uuid::new_v4().to_string()
}

/// Where a test stands: the step whose observation is awaited.
#[derive(Clone, Copy, Debug, PartialEq, Eq, Structural)]
pub enum AuxStage {
    /// No test is under way.
    Idle,
    Init,
    Rotation,
    Messages,
    Quaternion,
}

/// The name under which a step is recorded.
pub open spec fn step_name(stage: AuxStage) -> Seq<char> {
    match stage {
        AuxStage::Idle => ""@,
        AuxStage::Init => "Init"@,
        AuxStage::Rotation => "Rotation vector"@,
        AuxStage::Messages => "Handling messages"@,
        AuxStage::Quaternion => "Quaternion"@,
    }
}

/// The condition that the record of a step states.
pub open spec fn condition(stage: AuxStage) -> Seq<char> {
    match stage {
        AuxStage::Idle => ""@,
        AuxStage::Init => "should be successful"@,
        AuxStage::Rotation => "should be enableable"@,
        AuxStage::Messages => "should process messages"@,
        AuxStage::Quaternion => "should be valid"@,
    }
}

/// What is announced when a stage is entered.
pub open spec fn announcement(stage: AuxStage) -> Option<Seq<char>> {
    match stage {
        AuxStage::Idle => None,
        AuxStage::Init => Some("Initializing BNO080..."@),
        AuxStage::Rotation => Some("Enabling rotation vector..."@),
        AuxStage::Messages => Some("Handling messages..."@),
        AuxStage::Quaternion => Some("Reading rotation quaternion..."@),
    }
}

/// What the worker is asked to do when a stage is entered.
pub open spec fn request(stage: AuxStage) -> Request {
    match stage {
        AuxStage::Idle => Request { settle_ms: 0, operation: Operation::ReadQuaternion },
        AuxStage::Init => Request { settle_ms: 1000, operation: Operation::InitSensor },
        AuxStage::Rotation => Request {
            settle_ms: 0,
            operation: Operation::EnableRotationVector(5),
        },
        AuxStage::Messages => Request { settle_ms: 500, operation: Operation::HandleMessages(255) },
        AuxStage::Quaternion => Request { settle_ms: 0, operation: Operation::ReadQuaternion },
    }
}

/// The stage that follows a step that has passed; `Idle` after the last.
pub open spec fn stage_after(stage: AuxStage) -> AuxStage {
    match stage {
        AuxStage::Idle => AuxStage::Idle,
        AuxStage::Init => AuxStage::Rotation,
        AuxStage::Rotation => AuxStage::Messages,
        AuxStage::Messages => AuxStage::Quaternion,
        AuxStage::Quaternion => AuxStage::Idle,
    }
}

/// The number of steps that are on record when a stage is entered.
pub open spec fn steps_before(stage: AuxStage) -> int {
    match stage {
        AuxStage::Idle => 0,
        AuxStage::Init => 0,
        AuxStage::Rotation => 1,
        AuxStage::Messages => 2,
        AuxStage::Quaternion => 3,
    }
}

/// The bit pattern of a component that is zero, with either sign.
pub open spec fn is_zero(bits: u32) -> bool {
    bits == 0 || bits == 0x8000_0000u32
}

/// What setting up the link has found.
pub open spec fn init_finding(seen: Seen) -> FindingModel {
    match seen {
        Seen::Done(Ok(_)) => plain_finding(
            Ok(None),
            "BNO080 initialized successfully"@,
            "BNO080 failed to initialize: "@,
            None,
        ),
        Seen::Done(Err(complaint)) => plain_finding(
            Err(complaint),
            "BNO080 initialized successfully"@,
            "BNO080 failed to initialize: "@,
            None,
        ),
        _ => misfit(),
    }
}

/// What asking for rotation reports has found.
pub open spec fn rotation_finding(seen: Seen) -> FindingModel {
    match seen {
        Seen::Done(Ok(_)) => plain_finding(
            Ok(None),
            "Rotation vector enabled successfully"@,
            "Rotation vector failed to enable: "@,
            None,
        ),
        Seen::Done(Err(complaint)) => plain_finding(
            Err(complaint),
            "Rotation vector enabled successfully"@,
            "Rotation vector failed to enable: "@,
            None,
        ),
        _ => misfit(),
    }
}

/// What taking in the sensor's messages has found. The record holds their
/// number; a sensor that sent none has failed.
pub open spec fn messages_finding(seen: Seen) -> FindingModel {
    match seen {
        Seen::Count(n) => {
            let msg = "Processed "@ + decimal(n as nat) + " messages"@;
            FindingModel {
                value: decimal(n as nat),
                logs: None,
                failed: n == 0,
                id: None,
                events: seq![summary(n == 0, msg)],
            }
        },
        _ => misfit(),
    }
}

/// What reading the rotation has found. The record holds the rotation as
/// it is shown; a rotation whose four components are all zero shows that
/// the sensor has fused nothing, and has failed.
pub open spec fn quaternion_finding(seen: Seen) -> FindingModel {
    match seen {
        Seen::Quaternion(Ok((i, j, k, w, text))) => {
            let empty = is_zero(i) && is_zero(j) && is_zero(k) && is_zero(w);
            FindingModel {
                value: if empty {
                    "false"@
                } else {
                    "true"@
                },
                logs: Some(text),
                failed: empty,
                id: None,
                events: seq![
                    summary(
                        empty,
                        if empty {
                            "Quaternion is all zero: "@ + text
                        } else {
                            "Quaternion: "@ + text
                        },
                    ),
                ],
            }
        },
        Seen::Quaternion(Err(complaint)) => FindingModel {
            value: "false"@,
            logs: Some(complaint),
            failed: true,
            id: None,
            events: seq![bad("Failed to read quaternion: "@ + complaint)],
        },
        _ => misfit(),
    }
}

/// The state of a pipeline as plain values.
pub struct AuxState {
    pub stage: AuxStage,
    pub board: BoardModel,
    /// When the step under way began.
    pub opened_at: i64,
}

/// One move of a pipeline: the state it leaves, what the worker does
/// next, and what is reported on the way.
pub struct AuxStep {
    pub state: AuxState,
    pub next: NextModel,
    pub events: Seq<Entry>,
}

impl AuxState {
    /// The state of a pipeline on which no test has been begun yet: idle,
    /// with an empty board that has no identity and no step on record.
    pub open spec fn idle() -> AuxState {
        AuxState { stage: AuxStage::Idle, board: BoardModel::fresh(0), opened_at: 0 }
    }

    /// The test goes on with the given stage, which begins at `now`.
    pub open spec fn proceed(self, stage: AuxStage, now: i64, events: Seq<Entry>) -> AuxStep {
        AuxStep {
            state: AuxState { stage, opened_at: now, ..self },
            next: NextModel::Perform(request(stage)),
            events: events + announced(announcement(stage)),
        }
    }

    /// The test ends at `now`: the board is handed out, failed if one of
    /// its steps has, and the pipeline is idle again.
    pub open spec fn finish(self, now: i64, events: Seq<Entry>) -> AuxStep {
        AuxStep {
            state: AuxState { stage: AuxStage::Idle, board: BoardModel::fresh(now), ..self },
            next: NextModel::Finished(
                if any_failed(self.board.steps) {
                    Outcome::Failed(self.board.ended(now))
                } else {
                    Outcome::Passed(self.board.ended(now))
                },
            ),
            events,
        }
    }

    /// What the step under way makes of an observation.
    pub open spec fn finding(self, seen: Seen) -> FindingModel {
        match self.stage {
            AuxStage::Idle => misfit(),
            AuxStage::Init => init_finding(seen),
            AuxStage::Rotation => rotation_finding(seen),
            AuxStage::Messages => messages_finding(seen),
            AuxStage::Quaternion => quaternion_finding(seen),
        }
    }

    /// The state in which the test of the board `id` begins at `now`.
    pub open spec fn begun(self, id: Seq<char>, now: i64) -> AuxStep {
        (AuxState { board: BoardModel { id: Some(id), ..BoardModel::fresh(now) }, ..self }).proceed(
            AuxStage::Init,
            now,
            Seq::empty(),
        )
    }

    /// The move that an observation sets off at `now`: the step under way
    /// is settled with what it found; the test ends if the step failed or
    /// was the last, and goes on with the next step if not.
    pub open spec fn advanced(self, seen: Seen, now: i64) -> AuxStep {
        if self.stage == AuxStage::Idle {
            AuxStep { state: self, next: NextModel::Idle, events: Seq::empty() }
        } else {
            let found = self.finding(seen);
            let settled = AuxState {
                board: self.board.settled(
                    step_name(self.stage),
                    condition(self.stage),
                    found,
                    self.opened_at,
                    now,
                ),
                ..self
            };
            if any_failed(settled.board.steps) || self.stage == AuxStage::Quaternion {
                settled.finish(now, found.events)
            } else {
                settled.proceed(stage_after(self.stage), now, found.events)
            }
        }
    }

    /// The steps on record are those that lead up to the stage, and none
    /// of them has failed.
    pub open spec fn sound(self) -> bool {
        self.stage != AuxStage::Idle ==> {
            &&& self.board.steps.len() == steps_before(self.stage)
            &&& !any_failed(self.board.steps)
        }
    }

    /// The steps on record are in order, and the step under way began no
    /// earlier than the last of them ended.
    pub open spec fn punctual(self) -> bool {
        self.stage != AuxStage::Idle ==> self.board.punctual(self.opened_at)
    }
}

/// A test that ends has stopped at its first failure: the board is failed
/// if and only if one of its steps has; a board that passed has all its
/// steps on record; on a board that failed, the failed step is the last.
pub open spec fn ends_well(next: NextModel) -> bool {
    next matches NextModel::Finished(outcome) ==> {
        &&& outcome.consistent()
        &&& fail_fast(outcome.board().steps, 0)
        &&& outcome is Passed ==> outcome.board().steps.len() == STEPS
    }
}

/// From a sound state every move leads to a sound state, and a test that
/// ends has stopped at its first failure.
pub proof fn lemma_advance_sound(state: AuxState, seen: Seen, now: i64)
    requires
        state.sound(),
    ensures
        state.advanced(seen, now).state.sound(),
        ends_well(state.advanced(seen, now).next),
{
    if state.stage != AuxStage::Idle {
        let record = state.finding(seen).record(
            step_name(state.stage),
            condition(state.stage),
            state.opened_at,
            now,
        );
        lemma_any_failed_push(state.board.steps, record);
        let steps = state.board.steps.push(record);
        assert forall|k: int| 0 <= k < steps.len() && (#[trigger] steps[k]).failed implies k
            == steps.len() - 1 by {
            if k < state.board.steps.len() {
                assert(state.board.steps[k].failed);
            }
        }
    }
}

/// While the clock does not run backwards, the steps stay in order: each
/// step ends no earlier than it starts and no later than the next one
/// starts, the step under way has begun by now, and the test ends no
/// earlier than its last step.
pub proof fn lemma_advance_punctual(state: AuxState, seen: Seen, now: i64)
    requires
        state.punctual(),
        state.stage != AuxStage::Idle ==> state.opened_at <= now,
    ensures
        state.advanced(seen, now).state.punctual(),
        state.advanced(seen, now).state.stage != AuxStage::Idle ==> state.advanced(
            seen,
            now,
        ).state.opened_at <= now,
        state.advanced(seen, now).next matches NextModel::Finished(outcome)
            ==> outcome.board().chronological(),
{
    if state.stage != AuxStage::Idle {
        lemma_settled_punctual(
            state.board,
            step_name(state.stage),
            condition(state.stage),
            state.finding(seen),
            state.opened_at,
            now,
        );
    }
}

impl AuxState {
    /// The state after the given observations were taken in, each at its
    /// reading of the clock.
    pub open spec fn after(self, moves: Seq<(Seen, i64)>) -> AuxState
        decreases moves.len(),
    {
        if moves.len() == 0 {
            self
        } else {
            self.after(moves.drop_last()).advanced(moves.last().0, moves.last().1).state
        }
    }
}

/// Every step sends a progress report where it begins, and once it is
/// settled a success or an error: errors and nothing else if it failed,
/// successes and nothing else if not.
pub proof fn lemma_every_step_reports(state: AuxState, stage: AuxStage, seen: Seen)
    ensures
        stage != AuxStage::Idle ==> announcement(stage) is Some,
        reports_outcome(state.finding(seen)),
{
}

/// Whatever a test observes, and whatever the clock reads, from its
/// beginning to any point: the state is sound. So every test that ends
/// hands out a board that is failed if and only if one of its steps has
/// failed, and that has no step after the first failed one.
pub proof fn lemma_every_run_stops_at_failure(
    state: AuxState,
    id: Seq<char>,
    start: i64,
    moves: Seq<(Seen, i64)>,
)
    ensures
        state.begun(id, start).state.after(moves).sound(),
        moves.len() > 0 ==> ends_well(
            state.begun(id, start).state.after(moves.drop_last()).advanced(
                moves.last().0,
                moves.last().1,
            ).next,
        ),
    decreases moves.len(),
{
    if moves.len() > 0 {
        lemma_every_run_stops_at_failure(state, id, start, moves.drop_last());
        lemma_advance_sound(
            state.begun(id, start).state.after(moves.drop_last()),
            moves.last().0,
            moves.last().1,
        );
    }
}

/// Whatever a test observes, as long as the clock never runs backwards: the
/// state is punctual. So the board of every test that ends has its steps in
/// order, without overlap, between the start and the end of the test.
pub proof fn lemma_every_run_is_ordered(
    state: AuxState,
    id: Seq<char>,
    start: i64,
    moves: Seq<(Seen, i64)>,
)
    requires
        rising(start, moves),
    ensures
        state.begun(id, start).state.after(moves).punctual(),
        state.begun(id, start).state.after(moves).stage != AuxStage::Idle ==> state.begun(
            id,
            start,
        ).state.after(moves).opened_at <= if moves.len() == 0 {
            start
        } else {
            moves.last().1
        },
        moves.len() > 0 ==> (state.begun(id, start).state.after(moves.drop_last()).advanced(
            moves.last().0,
            moves.last().1,
        ).next matches NextModel::Finished(outcome) ==> outcome.board().chronological()),
    decreases moves.len(),
{
    if moves.len() > 0 {
        lemma_rising_prefix(start, moves);
        lemma_every_run_is_ordered(state, id, start, moves.drop_last());
        lemma_advance_punctual(
            state.begun(id, start).state.after(moves.drop_last()),
            moves.last().0,
            moves.last().1,
        );
    }
}

/// The pipeline for the sensor add-on board.
pub struct AuxBoardTestExecutor {
    stage: AuxStage,
    board: Board,
    opened_at: i64,
}

impl View for AuxBoardTestExecutor {
    type V = AuxState;

    closed spec fn view(&self) -> AuxState {
        AuxState { stage: self.stage, board: self.board@, opened_at: self.opened_at }
    }
}

impl AuxBoardTestExecutor {
    /// A pipeline on which no test is under way and none has been: it is
    /// idle, and holds an empty board without identity.
    pub fn new() -> (executor: AuxBoardTestExecutor)
        ensures
            executor@ == AuxState::idle(),
    {
        AuxBoardTestExecutor { stage: AuxStage::Idle, board: Board::new_at(0), opened_at: 0 }
    }

    /// Whether a test is under way.
    pub fn is_running(&self) -> (running: bool)
        ensures
            running == (self@.stage != AuxStage::Idle),
    {
        match self.stage {
            AuxStage::Idle => false,
            _ => true,
        }
    }

    fn step_label(stage: AuxStage) -> (name: &'static str)
        ensures
            name@ == step_name(stage),
    {
        match stage {
            AuxStage::Idle => "",
            AuxStage::Init => "Init",
            AuxStage::Rotation => "Rotation vector",
            AuxStage::Messages => "Handling messages",
            AuxStage::Quaternion => "Quaternion",
        }
    }

    fn condition_text(stage: AuxStage) -> (text: &'static str)
        ensures
            text@ == condition(stage),
    {
        match stage {
            AuxStage::Idle => "",
            AuxStage::Init => "should be successful",
            AuxStage::Rotation => "should be enableable",
            AuxStage::Messages => "should process messages",
            AuxStage::Quaternion => "should be valid",
        }
    }

    fn announcement_text(stage: AuxStage) -> (msg: Option<&'static str>)
        ensures
            match msg {
                Some(m) => announcement(stage) == Some(m@),
                None => announcement(stage) is None,
            },
    {
        match stage {
            AuxStage::Idle => None,
            AuxStage::Init => Some("Initializing BNO080..."),
            AuxStage::Rotation => Some("Enabling rotation vector..."),
            AuxStage::Messages => Some("Handling messages..."),
            AuxStage::Quaternion => Some("Reading rotation quaternion..."),
        }
    }

    fn request_for(stage: AuxStage) -> (r: Request)
        ensures
            r == request(stage),
    {
        match stage {
            AuxStage::Idle => Request { settle_ms: 0, operation: Operation::ReadQuaternion },
            AuxStage::Init => Request { settle_ms: 1000, operation: Operation::InitSensor },
            AuxStage::Rotation => Request {
                settle_ms: 0,
                operation: Operation::EnableRotationVector(5),
            },
            AuxStage::Messages => Request {
                settle_ms: 500,
                operation: Operation::HandleMessages(255),
            },
            AuxStage::Quaternion => Request { settle_ms: 0, operation: Operation::ReadQuaternion },
        }
    }

    fn next_stage(stage: AuxStage) -> (next: AuxStage)
        ensures
            next == stage_after(stage),
    {
        match stage {
            AuxStage::Idle => AuxStage::Idle,
            AuxStage::Init => AuxStage::Rotation,
            AuxStage::Rotation => AuxStage::Messages,
            AuxStage::Messages => AuxStage::Quaternion,
            AuxStage::Quaternion => AuxStage::Idle,
        }
    }

    fn judge_done(
        observation: Observation,
        praise: &str,
        blame: &str,
        logger: &mut Logger,
    ) -> (found: Finding)
        ensures
            (match observation@ {
                Seen::Done(Ok(_)) => plain_finding(Ok(None), praise@, blame@, None),
                Seen::Done(Err(complaint)) => plain_finding(Err(complaint), praise@, blame@, None),
                _ => misfit(),
            }).met_by(found, old(logger)@, final(logger)@),
    {
        match observation {
            Observation::Done(Ok(_)) => judge_plain(Ok(None), praise, blame, None, logger),
            Observation::Done(Err(complaint)) => judge_plain(
                Err(complaint),
                praise,
                blame,
                None,
                logger,
            ),
            _ => judge_misfit(logger),
        }
    }

    fn judge_messages(observation: Observation, logger: &mut Logger) -> (found: Finding)
        ensures
            messages_finding(observation@).met_by(found, old(logger)@, final(logger)@),
    {
        let ghost model = messages_finding(observation@);
        match observation {
            Observation::Count(n) => {
                let count = decimal_text(n as u64);
                let mut msg = String::from_str("Processed ");
                msg.append(count.as_str());
                msg.append(" messages");
                if n == 0 {
                    logger.error(msg.as_str());
                } else {
                    logger.success(msg.as_str());
                }
                assert(logger@ =~= old(logger)@ + model.events);
                Finding { value: count, logs: None, failed: n == 0, id: None }
            },
            _ => judge_misfit(logger),
        }
    }

    fn zero(bits: u32) -> (r: bool)
        ensures
            r == is_zero(bits),
    {
        bits == 0 || bits == 0x8000_0000
    }

    fn judge_quaternion(observation: Observation, logger: &mut Logger) -> (found: Finding)
        ensures
            quaternion_finding(observation@).met_by(found, old(logger)@, final(logger)@),
    {
        let ghost model = quaternion_finding(observation@);
        match observation {
            Observation::Quaternion(Ok(rotation)) => {
                let empty = Self::zero(rotation.i) && Self::zero(rotation.j) && Self::zero(
                    rotation.k,
                ) && Self::zero(rotation.w);
                if empty {
                    logger.error(
                        String::from_str("Quaternion is all zero: ").concat(
                            rotation.text.as_str(),
                        ).as_str(),
                    );
                } else {
                    logger.success(
                        String::from_str("Quaternion: ").concat(rotation.text.as_str()).as_str(),
                    );
                }
                assert(logger@ =~= old(logger)@ + model.events);
                Finding {
                    value: if empty {
                        String::from_str("false")
                    } else {
                        String::from_str("true")
                    },
                    logs: Some(rotation.text),
                    failed: empty,
                    id: None,
                }
            },
            Observation::Quaternion(Err(complaint)) => {
                logger.error(
                    String::from_str("Failed to read quaternion: ").concat(
                        complaint.as_str(),
                    ).as_str(),
                );
                assert(logger@ =~= old(logger)@ + model.events);
                Finding {
                    value: String::from_str("false"),
                    logs: Some(complaint),
                    failed: true,
                    id: None,
                }
            },
            _ => judge_misfit(logger),
        }
    }

    fn proceed(&mut self, stage: AuxStage, now: i64, logger: &mut Logger) -> (next: Next)
        ensures
            final(self)@ == (AuxState { stage, opened_at: now, ..old(self)@ }),
            next@ == NextModel::Perform(request(stage)),
            final(logger)@ == old(logger)@ + announced(announcement(stage)),
    {
        announce(logger, Self::announcement_text(stage));
        self.stage = stage;
        self.opened_at = now;
        Next::Perform(Self::request_for(stage))
    }

    fn finish(&mut self, now: i64) -> (next: Next)
        ensures
            final(self)@ == old(self)@.finish(now, Seq::empty()).state,
            next@ == old(self)@.finish(now, Seq::empty()).next,
    {
        let mut board = Board::new_at(now);
        std::mem::swap(&mut board, &mut self.board);
        board.ended_at = now;
        self.stage = AuxStage::Idle;
        if has_failure(&board) {
            Next::Finished(TestResult::Failed(board))
        } else {
            Next::Finished(TestResult::Passed(board))
        }
    }

    /// Begins the test of the board `id` at `now`: a new board is put on
    /// record under that identity, and the link to the sensor is requested.
    /// A test that was under way is given up.
    pub fn begin_with(&mut self, id: String, now: i64, logger: &mut Logger) -> (request: Request)
        ensures
            final(self)@ == old(self)@.begun(id@, now).state,
            NextModel::Perform(request) == old(self)@.begun(id@, now).next,
            final(logger)@ == old(logger)@ + old(self)@.begun(id@, now).events,
            final(self)@.sound(),
            final(self)@.punctual(),
    {
        let mut board = Board::new_at(now);
        board.id = Some(id);
        self.board = board;
        self.proceed(AuxStage::Init, now, logger);
        assert(logger@ =~= old(logger)@ + old(self)@.begun(id@, now).events);
        Self::request_for(AuxStage::Init)
    }

    /// Begins the test of a board now, under an identity drawn at random,
    /// which is 36 characters long.
    pub fn begin(&mut self, logger: &mut Logger) -> (request: Request)
        ensures
            final(self)@.board.id matches Some(id) && id.len() == 36 && {
                &&& final(self)@ == old(self)@.begun(id, final(self)@.opened_at).state
                &&& NextModel::Perform(request) == old(self)@.begun(
                    id,
                    final(self)@.opened_at,
                ).next
                &&& final(logger)@ == old(logger)@ + old(self)@.begun(
                    id,
                    final(self)@.opened_at,
                ).events
            },
            final(self)@.sound(),
            final(self)@.punctual(),
    {
        self.begin_with(fresh_id(), clock::now(), logger)
    }

    /// Takes what the requested operation observed, at `now`, and says
    /// what comes next. The step is put on record from the moment it began
    /// to `now`. While no test is under way nothing happens.
    pub fn advance_at(&mut self, observation: Observation, now: i64, logger: &mut Logger) -> (next:
        Next)
        ensures
            final(self)@ == old(self)@.advanced(observation@, now).state,
            next@ == old(self)@.advanced(observation@, now).next,
            final(logger)@ == old(logger)@ + old(self)@.advanced(observation@, now).events,
            old(self)@.sound() ==> final(self)@.sound() && ends_well(next@),
            old(self)@.punctual() && (old(self)@.stage != AuxStage::Idle ==> old(self)@.opened_at
                <= now) ==> final(self)@.punctual() && (next@ matches NextModel::Finished(
                outcome,
            ) ==> outcome.board().chronological()),
    {
        proof {
            if self@.sound() {
                lemma_advance_sound(self@, observation@, now);
            }
            if self@.punctual() && (self@.stage != AuxStage::Idle ==> self@.opened_at <= now) {
                lemma_advance_punctual(self@, observation@, now);
            }
        }
        let ghost start = logger@;
        let ghost model = self@.finding(observation@);
        let stage = self.stage;
        let found = match stage {
            AuxStage::Idle => {
                assert(logger@ =~= start + Seq::<Entry>::empty());
                return Next::Idle;
            },
            AuxStage::Init => Self::judge_done(
                observation,
                "BNO080 initialized successfully",
                "BNO080 failed to initialize: ",
                logger,
            ),
            AuxStage::Rotation => Self::judge_done(
                observation,
                "Rotation vector enabled successfully",
                "Rotation vector failed to enable: ",
                logger,
            ),
            AuxStage::Messages => Self::judge_messages(observation, logger),
            AuxStage::Quaternion => Self::judge_quaternion(observation, logger),
        };
        assert(model.met_by(found, start, logger@));
        settle(
            &mut self.board,
            Self::step_label(stage),
            Self::condition_text(stage),
            found,
            self.opened_at,
            now,
        );
        let last = match stage {
            AuxStage::Quaternion => true,
            _ => false,
        };
        if has_failure(&self.board) || last {
            assert(logger@ =~= start + old(self)@.advanced(observation@, now).events);
            self.finish(now)
        } else {
            let next = self.proceed(Self::next_stage(stage), now, logger);
            assert(logger@ =~= start + old(self)@.advanced(observation@, now).events);
            next
        }
    }

    /// Takes what the requested operation observed, and says what comes
    /// next. The moment is read from the clock: the move is the one that
    /// `advance_at` makes for some reading.
    pub fn advance(&mut self, observation: Observation, logger: &mut Logger) -> (next: Next)
        ensures
            exists|now: i64|
                {
                    &&& final(self)@ == (#[trigger] old(self)@.advanced(observation@, now)).state
                    &&& next@ == old(self)@.advanced(observation@, now).next
                    &&& final(logger)@ == old(logger)@ + old(self)@.advanced(
                        observation@,
                        now,
                    ).events
                },
            old(self)@.sound() ==> final(self)@.sound() && ends_well(next@),
    {
        let now = clock::now();
        self.advance_at(observation, now, logger)
    }
}

} // verus!
