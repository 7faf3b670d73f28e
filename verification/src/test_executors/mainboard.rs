//! The pipeline for the main board: three supply rails, the hardware
//! address, the firmware, the serial channel, and two checks of the sensor
//! over the board's log.
//!
//! The rails are measured as a batch: all three are recorded before a fault
//! on any of them ends the test. Every later step ends the test as soon as
//! it fails.

use vstd::prelude::*;
use crate::adc::{fault_note, nanovolts_of, to_nanovolts, volts_of, volts_text, Channel, VOLT};
use crate::api::any_failed;
use crate::logger::{Entry, Logger};
use crate::options::{FlashWith, Options};
use crate::serial::{chunk_text, ScannerState, StreamScanner};
use crate::test_executors::{
    announce, announced, bad, fail_fast, good, has_failure, judge_misfit, judge_plain, judge_scan,
    lemma_any_failed_push, lemma_settled_punctual, misfit, plain_finding, reports_outcome,
    scan_finding, settle, summary, Command, Finding, FindingModel, Next, NextModel, Observation,
    Operation, Request, Seen,
};
use crate::test_executors::{lemma_rising_prefix, rising};
use crate::text::str_views;
use crate::{clock, Board, BoardModel, Outcome, TestResult};

verus! {

/// The number of rails that are measured as a batch.
pub const RAILS: usize = 3;

/// The number of steps on a board that has passed.
pub const STEPS: usize = 8;

/// A supply rail of the board.
#[derive(Clone, Copy, Debug, PartialEq, Eq, Structural)]
pub enum Rail {
    Vout,
    BPlus,
    Rail3v3,
}

/// How a rail is checked: where it is measured, between which bounds, in
/// nanovolts, its voltage must lie, and whether the check counts. A check
/// that does not count is announced, recorded and reported like any other,
/// and never fails.
#[derive(Clone, Copy, Debug, PartialEq, Eq)]
pub struct RailCheck {
    pub channel: Channel,
    pub min: Option<i64>,
    pub max: Option<i64>,
    pub gates: bool,
}

/// How the rails are checked.
#[derive(Clone, Copy, Debug, PartialEq, Eq)]
pub struct PowerPolicy {
    pub vout: RailCheck,
    pub bplus: RailCheck,
    pub rail_3v3: RailCheck,
}

/// The usual checks: the output rail is only recorded, the battery rail
/// must carry at least 4.0 V, and the 3.3 V rail between 2.8 V and 3.2 V.
pub open spec fn standard_policy() -> PowerPolicy {
    PowerPolicy {
        vout: RailCheck { channel: Channel::A2, min: None, max: None, gates: false },
        bplus: RailCheck {
            channel: Channel::A3,
            min: Some(4_000_000_000i64),
            max: None,
            gates: true,
        },
        rail_3v3: RailCheck {
            channel: Channel::A0,
            min: Some(2_800_000_000i64),
            max: Some(3_200_000_000i64),
            gates: true,
        },
    }
}

impl PowerPolicy {
    /// The usual checks.
    pub fn standard() -> (policy: PowerPolicy)
        ensures
            policy == standard_policy(),
    {
        PowerPolicy {
            vout: RailCheck { channel: Channel::A2, min: None, max: None, gates: false },
            bplus: RailCheck { channel: Channel::A3, min: Some(4 * VOLT), max: None, gates: true },
            rail_3v3: RailCheck {
                channel: Channel::A0,
                min: Some(2_800_000_000),
                max: Some(3_200_000_000),
                gates: true,
            },
        }
    }

    /// The check of the given rail.
    pub open spec fn of(self, rail: Rail) -> RailCheck {
        match rail {
            Rail::Vout => self.vout,
            Rail::BPlus => self.bplus,
            Rail::Rail3v3 => self.rail_3v3,
        }
    }
}

/// The name of a rail.
pub open spec fn rail_name(rail: Rail) -> Seq<char> {
    match rail {
        Rail::Vout => "VOUT"@,
        Rail::BPlus => "B+"@,
        Rail::Rail3v3 => "3V3"@,
    }
}

/// The bounds of a check, as they are shown.
pub open spec fn bounds_of(check: RailCheck) -> Seq<char> {
    match (check.min, check.max) {
        (Some(low), Some(high)) => "> "@ + volts_of(low as int) + "V < "@ + volts_of(high as int)
            + "V"@,
        (Some(low), None) => "> "@ + volts_of(low as int) + "V"@,
        (None, Some(high)) => "< "@ + volts_of(high as int) + "V"@,
        (None, None) => Seq::empty(),
    }
}

/// The condition that the record of a rail states.
pub open spec fn rail_condition(rail: Rail, check: RailCheck) -> Seq<char> {
    if check.gates && (check.min is Some || check.max is Some) {
        rail_name(rail) + " "@ + bounds_of(check)
    } else {
        "none"@
    }
}

/// The voltage lies within the bounds of the check.
pub open spec fn within(check: RailCheck, nanovolts: int) -> bool {
    &&& check.min matches Some(low) ==> low <= nanovolts
    &&& check.max matches Some(high) ==> nanovolts <= high
}

/// What is reported of a reading: the rail and its voltage, and for a
/// reading that failed the check also the bounds.
pub open spec fn reading_note(rail: Rail, check: RailCheck, reading: Seq<char>, failed: bool)
    -> Seq<char> {
    if failed {
        rail_name(rail) + " voltage: "@ + reading + " ("@ + bounds_of(check) + ")"@
    } else {
        rail_name(rail) + " voltage: "@ + reading
    }
}

/// What the measurement of a rail has found. A reading is recorded in
/// volts; it fails a check that counts if it lies outside the bounds. A
/// measurement that gave no reading is recorded with the reason, and fails
/// a check that counts. Either way one entry is sent, an error if the step
/// failed and a success if not.
pub open spec fn rail_finding(rail: Rail, check: RailCheck, seen: Seen) -> FindingModel {
    match seen {
        Seen::Voltage(Ok(raw)) => {
            let reading = volts_of(nanovolts_of(raw as int)) + "V"@;
            let failed = check.gates && !within(check, nanovolts_of(raw as int));
            FindingModel {
                value: reading,
                logs: None,
                failed,
                id: None,
                events: seq![summary(failed, reading_note(rail, check, reading, failed))],
            }
        },
        Seen::Voltage(Err(fault)) => FindingModel {
            value: "N/A"@,
            logs: Some(fault_note(fault)),
            failed: check.gates,
            id: None,
            events: seq![
                summary(
                    check.gates,
                    rail_name(rail) + " voltage: N/A ("@ + fault_note(fault) + ")"@,
                ),
            ],
        },
        _ => misfit(),
    }
}

/// What reading the hardware address has found. The address becomes the
/// identity of the board.
pub open spec fn identity_finding(seen: Seen) -> FindingModel {
    match seen {
        Seen::Identity(Ok((mac, log))) => FindingModel {
            value: mac,
            logs: Some(log),
            failed: false,
            id: Some(mac),
            events: seq![good("Read MAC address: "@ + mac)],
        },
        Seen::Identity(Err(complaint)) => FindingModel {
            value: "N/A"@,
            logs: Some(complaint),
            failed: true,
            id: None,
            events: seq![
                bad("Failed to read MAC address: "@ + complaint),
                bad("-> ESP8266 faulty"@),
            ],
        },
        _ => misfit(),
    }
}

/// What writing the firmware has found.
pub open spec fn flash_finding(seen: Seen) -> FindingModel {
    match seen {
        Seen::Output(Ok(log)) => plain_finding(
            Ok(Some(log)),
            "Flashing successful"@,
            "Flashing: "@,
            Some("-> Flashing failed"@),
        ),
        Seen::Output(Err(complaint)) => plain_finding(
            Err(complaint),
            "Flashing successful"@,
            "Flashing: "@,
            Some("-> Flashing failed"@),
        ),
        _ => misfit(),
    }
}

/// What opening the serial channel has found.
pub open spec fn serial_finding(seen: Seen) -> FindingModel {
    match seen {
        Seen::Done(Ok(_)) => plain_finding(
            Ok(None),
            "Serial port opened"@,
            "Failed to open serial port: "@,
            Some("-> Serial port failed"@),
        ),
        Seen::Done(Err(complaint)) => plain_finding(
            Err(complaint),
            "Serial port opened"@,
            "Failed to open serial port: "@,
            Some("-> Serial port failed"@),
        ),
        _ => misfit(),
    }
}

/// What a command that could not be sent leaves as the finding of its step.
pub open spec fn write_failure(complaint: Seq<char>) -> FindingModel {
    FindingModel {
        value: "false"@,
        logs: Some("Failed to write to serial port: "@ + complaint),
        failed: true,
        id: None,
        events: seq![bad("Failed to write to serial port: "@ + complaint)],
    }
}

/// Where a test stands: the step whose observation is awaited.
#[derive(Clone, Copy, Debug, PartialEq, Eq, Structural)]
pub enum MainStage {
    /// No test is under way.
    Idle,
    Vout,
    BPlus,
    Rail3v3,
    ReadMac,
    Flash,
    OpenSerial,
    /// The board is being reset before its boot log is read.
    BootReset,
    /// The boot log is being read.
    BootScan,
    /// The test command is being sent.
    ImuWrite,
    /// The answer to the test command is being read.
    ImuScan,
}

/// The name under which a step is recorded.
pub open spec fn step_name(stage: MainStage) -> Seq<char> {
    match stage {
        MainStage::Idle => ""@,
        MainStage::Vout => "Measure VOUT"@,
        MainStage::BPlus => "Measure B+"@,
        MainStage::Rail3v3 => "Measure 3V3"@,
        MainStage::ReadMac => "Read MAC address"@,
        MainStage::Flash => "Flashing"@,
        MainStage::OpenSerial => "Serial"@,
        MainStage::BootReset => "I2C to IMU"@,
        MainStage::BootScan => "I2C to IMU"@,
        MainStage::ImuWrite => "IMU test"@,
        MainStage::ImuScan => "IMU test"@,
    }
}

/// The rail that a stage measures.
pub open spec fn rail_of(stage: MainStage) -> Option<Rail> {
    match stage {
        MainStage::Vout => Some(Rail::Vout),
        MainStage::BPlus => Some(Rail::BPlus),
        MainStage::Rail3v3 => Some(Rail::Rail3v3),
        _ => None,
    }
}

/// The stage that follows a step that has passed; `Idle` after the last.
pub open spec fn stage_after(stage: MainStage) -> MainStage {
    match stage {
        MainStage::Idle => MainStage::Idle,
        MainStage::Vout => MainStage::BPlus,
        MainStage::BPlus => MainStage::Rail3v3,
        MainStage::Rail3v3 => MainStage::ReadMac,
        MainStage::ReadMac => MainStage::Flash,
        MainStage::Flash => MainStage::OpenSerial,
        MainStage::OpenSerial => MainStage::BootReset,
        MainStage::BootReset => MainStage::BootScan,
        MainStage::BootScan => MainStage::ImuWrite,
        MainStage::ImuWrite => MainStage::ImuScan,
        MainStage::ImuScan => MainStage::Idle,
    }
}

/// The number of steps that are on record when a stage is entered.
pub open spec fn steps_before(stage: MainStage) -> int {
    match stage {
        MainStage::Idle => 0,
        MainStage::Vout => 0,
        MainStage::BPlus => 1,
        MainStage::Rail3v3 => 2,
        MainStage::ReadMac => 3,
        MainStage::Flash => 4,
        MainStage::OpenSerial => 5,
        MainStage::BootReset => 6,
        MainStage::BootScan => 6,
        MainStage::ImuWrite => 7,
        MainStage::ImuScan => 7,
    }
}

/// The lines of the boot log that show the sensor connected, and those
/// that show a fault.
pub open spec fn boot_scanner() -> ScannerState {
    ScannerState::start(
        seq!["[INFO ] [BNO080Sensor:0] Connected to BNO085 on 0x4a"@],
        seq!["ERR"@, "[FATAL"@],
    )
}

/// The answers to the test command that show the sensor working, and
/// those that show it silent.
pub open spec fn imu_scanner() -> ScannerState {
    ScannerState::start(
        seq!["Sensor 1 sent some data, looks working."@],
        seq!["Sensor 1 didn't send any data yet!"@],
    )
}

/// The state of a pipeline as plain values.
pub struct MainState {
    pub flash_with: FlashWith,
    pub flash_baudrate: u32,
    pub policy: PowerPolicy,
    pub stage: MainStage,
    pub board: BoardModel,
    /// When the step under way began.
    pub opened_at: i64,
    pub scanner: ScannerState,
}

/// One move of a pipeline: the state it leaves, what the worker does
/// next, and what is reported on the way.
pub struct MainStep {
    pub state: MainState,
    pub next: NextModel,
    pub events: Seq<Entry>,
}

impl MainState {
    /// The condition that the record of a step states.
    pub open spec fn condition(self, stage: MainStage) -> Seq<char> {
        match stage {
            MainStage::Idle => Seq::empty(),
            MainStage::Vout => rail_condition(Rail::Vout, self.policy.vout),
            MainStage::BPlus => rail_condition(Rail::BPlus, self.policy.bplus),
            MainStage::Rail3v3 => rail_condition(Rail::Rail3v3, self.policy.rail_3v3),
            MainStage::ReadMac => "MAC address should be readable"@,
            MainStage::Flash => "Flashing should work"@,
            MainStage::OpenSerial => "Serial should work"@,
            MainStage::BootReset => "I2C to IMU should work"@,
            MainStage::BootScan => "I2C to IMU should work"@,
            MainStage::ImuWrite => "IMU test should work"@,
            MainStage::ImuScan => "IMU test should work"@,
        }
    }

    /// What is announced when a stage is entered: every step is announced
    /// where it begins. The second part of a step in two parts, reading a
    /// log, is not announced again.
    pub open spec fn announcement(self, stage: MainStage) -> Option<Seq<char>> {
        match stage {
            MainStage::Idle => None,
            MainStage::Vout => Some("Measuring VOUT..."@),
            MainStage::BPlus => Some("Measuring B+..."@),
            MainStage::Rail3v3 => Some("Measuring 3V3..."@),
            MainStage::ReadMac => Some("Reading MAC address..."@),
            MainStage::Flash => Some("Flashing..."@),
            MainStage::OpenSerial => Some("Connecting to serial port..."@),
            MainStage::BootReset => Some("Checking I2C connection to IMU..."@),
            MainStage::BootScan => None,
            MainStage::ImuWrite => Some("Checking IMU via `GET TEST` command..."@),
            MainStage::ImuScan => None,
        }
    }

    /// What the worker is asked to do when a stage is entered.
    pub open spec fn request(self, stage: MainStage) -> Request {
        match stage {
            MainStage::Idle => Request { settle_ms: 0, operation: Operation::ReadSerial },
            MainStage::Vout => Request {
                settle_ms: 250,
                operation: Operation::MeasureVoltage(self.policy.vout.channel),
            },
            MainStage::BPlus => Request {
                settle_ms: 0,
                operation: Operation::MeasureVoltage(self.policy.bplus.channel),
            },
            MainStage::Rail3v3 => Request {
                settle_ms: 0,
                operation: Operation::MeasureVoltage(self.policy.rail_3v3.channel),
            },
            MainStage::ReadMac => Request { settle_ms: 0, operation: Operation::ReadIdentity },
            MainStage::Flash => Request {
                settle_ms: 0,
                operation: Operation::Flash(self.flash_with, self.flash_baudrate),
            },
            MainStage::OpenSerial => Request { settle_ms: 0, operation: Operation::OpenSerial },
            MainStage::BootReset => Request { settle_ms: 0, operation: Operation::ResetDevice },
            MainStage::BootScan => Request { settle_ms: 0, operation: Operation::ReadSerial },
            MainStage::ImuWrite => Request {
                settle_ms: 100,
                operation: Operation::WriteSerial(Command::GetTest),
            },
            MainStage::ImuScan => Request { settle_ms: 0, operation: Operation::ReadSerial },
        }
    }

    /// The state on entering a stage at `now`. A step begins when its
    /// stage is entered; reading the answer to the test command belongs to
    /// the step that sent it. Reading a log starts with a fresh scanner.
    pub open spec fn entered(self, stage: MainStage, now: i64) -> MainState {
        MainState {
            stage,
            opened_at: if stage == MainStage::ImuScan {
                self.opened_at
            } else {
                now
            },
            scanner: if stage == MainStage::BootScan {
                boot_scanner()
            } else if stage == MainStage::ImuScan {
                imu_scanner()
            } else {
                self.scanner
            },
            ..self
        }
    }

    /// The test goes on with the given stage.
    pub open spec fn proceed(self, stage: MainStage, now: i64, events: Seq<Entry>) -> MainStep {
        MainStep {
            state: self.entered(stage, now),
            next: NextModel::Perform(self.request(stage)),
            events: events + announced(self.announcement(stage)),
        }
    }

    /// The test ends at `now`: the board is handed out, failed if one of
    /// its steps has, and the pipeline is idle again.
    pub open spec fn finish(self, now: i64, events: Seq<Entry>) -> MainStep {
        MainStep {
            state: MainState { stage: MainStage::Idle, board: BoardModel::fresh(now), ..self },
            next: NextModel::Finished(
                if any_failed(self.board.steps) {
                    Outcome::Failed(self.board.ended(now))
                } else {
                    Outcome::Passed(self.board.ended(now))
                },
            ),
            events,
        }
    }

    /// The step under way is settled at `now` with the given finding. The
    /// rails are taken as a batch, and a fault among them is named once the
    /// last one is on record; any other step ends the test if it failed.
    pub open spec fn conclude(self, found: FindingModel, now: i64) -> MainStep {
        let settled = MainState {
            board: self.board.settled(
                step_name(self.stage),
                self.condition(self.stage),
                found,
                self.opened_at,
                now,
            ),
            ..self
        };
        let failed = any_failed(settled.board.steps);
        if self.stage == MainStage::Vout || self.stage == MainStage::BPlus {
            settled.proceed(stage_after(self.stage), now, found.events)
        } else if self.stage == MainStage::Rail3v3 && failed {
            settled.finish(now, found.events + seq![bad("-> Faulty power circuit"@)])
        } else if failed || self.stage == MainStage::ImuScan {
            settled.finish(now, found.events)
        } else {
            settled.proceed(stage_after(self.stage), now, found.events)
        }
    }

    /// What the step under way makes of an observation; nothing while the
    /// step goes on.
    pub open spec fn finding(self, seen: Seen) -> Option<FindingModel> {
        match self.stage {
            MainStage::Idle => None,
            MainStage::Vout => Some(rail_finding(Rail::Vout, self.policy.vout, seen)),
            MainStage::BPlus => Some(rail_finding(Rail::BPlus, self.policy.bplus, seen)),
            MainStage::Rail3v3 => Some(rail_finding(Rail::Rail3v3, self.policy.rail_3v3, seen)),
            MainStage::ReadMac => Some(identity_finding(seen)),
            MainStage::Flash => Some(flash_finding(seen)),
            MainStage::OpenSerial => Some(serial_finding(seen)),
            MainStage::BootReset => match seen {
                Seen::Done(Ok(_)) => None,
                Seen::Done(Err(complaint)) => Some(
                    scan_finding(Err(complaint), "I2C to IMU working"@, "I2C to IMU faulty"@),
                ),
                _ => Some(misfit()),
            },
            MainStage::BootScan => match self.scanned(seen) {
                Some(Some(verdict)) => Some(
                    scan_finding(verdict, "I2C to IMU working"@, "I2C to IMU faulty"@),
                ),
                Some(None) => None,
                None => Some(misfit()),
            },
            MainStage::ImuWrite => match seen {
                Seen::Done(Ok(_)) => None,
                Seen::Done(Err(complaint)) => Some(write_failure(complaint)),
                _ => Some(misfit()),
            },
            MainStage::ImuScan => match self.scanned(seen) {
                Some(Some(verdict)) => Some(
                    scan_finding(verdict, "IMU test successful"@, "IMU test failed"@),
                ),
                Some(None) => None,
                None => Some(misfit()),
            },
        }
    }

    /// What the scanner reports when it is given what a read observed:
    /// the verdict of a chunk, if there is one, and for a read that failed
    /// the scanner's diagnostic. Nothing for a reply that is no read.
    pub open spec fn scanned(self, seen: Seen) -> Option<Option<crate::serial::Verdict>> {
        match seen {
            Seen::Chunk(Ok(bytes)) => Some(self.scanner.verdict(chunk_text(bytes))),
            Seen::Chunk(Err(complaint)) => Some(Some(Err(self.scanner.failure(complaint)))),
            _ => None,
        }
    }

    /// The scanner after it was given what a read observed.
    pub open spec fn scanner_after(self, seen: Seen) -> ScannerState {
        match seen {
            Seen::Chunk(Ok(bytes)) => if self.stage == MainStage::BootScan || self.stage
                == MainStage::ImuScan {
                self.scanner.fed(chunk_text(bytes))
            } else {
                self.scanner
            },
            _ => self.scanner,
        }
    }

    /// The state in which a test begins at `now`.
    pub open spec fn begun(self, now: i64) -> MainStep {
        (MainState { board: BoardModel::fresh(now), ..self }).proceed(
            MainStage::Vout,
            now,
            Seq::empty(),
        )
    }

    /// The move that an observation sets off at `now`. While no test is
    /// under way there is none. A step that has found something is settled.
    /// A step that goes on either enters its second part, once the board
    /// was reset or the command was sent, or asks for the next read.
    pub open spec fn advanced(self, seen: Seen, now: i64) -> MainStep {
        let fed = MainState { scanner: self.scanner_after(seen), ..self };
        if self.stage == MainStage::Idle {
            MainStep { state: self, next: NextModel::Idle, events: Seq::empty() }
        } else {
            match self.finding(seen) {
                Some(found) => fed.conclude(found, now),
                None => if self.stage == MainStage::BootReset || self.stage
                    == MainStage::ImuWrite {
                    fed.proceed(stage_after(self.stage), now, Seq::empty())
                } else {
                    MainStep {
                        state: fed,
                        next: NextModel::Perform(self.request(self.stage)),
                        events: Seq::empty(),
                    }
                },
            }
        }
    }

    /// The steps on record are those that lead up to the stage, and past
    /// the rails none of them has failed.
    pub open spec fn sound(self) -> bool {
        self.stage != MainStage::Idle ==> {
            &&& self.board.steps.len() == steps_before(self.stage)
            &&& steps_before(self.stage) >= 3 ==> !any_failed(self.board.steps)
        }
    }

    /// The steps on record are in order, and the step under way began no
    /// earlier than the last of them ended.
    pub open spec fn punctual(self) -> bool {
        self.stage != MainStage::Idle ==> self.board.punctual(self.opened_at)
    }
}

/// The pipeline for the main board.
pub struct MainBoardTestExecutor {
    flash_with: FlashWith,
    flash_baudrate: u32,
    policy: PowerPolicy,
    stage: MainStage,
    board: Board,
    opened_at: i64,
    scanner: StreamScanner,
}

impl View for MainBoardTestExecutor {
    type V = MainState;

    closed spec fn view(&self) -> MainState {
        MainState {
            flash_with: self.flash_with,
            flash_baudrate: self.flash_baudrate,
            policy: self.policy,
            stage: self.stage,
            board: self.board@,
            opened_at: self.opened_at,
            scanner: self.scanner@,
        }
    }
}

impl MainState {
    /// The state after the given observations were taken in, each at its
    /// reading of the clock.
    pub open spec fn after(self, moves: Seq<(Seen, i64)>) -> MainState
        decreases moves.len(),
    {
        if moves.len() == 0 {
            self
        } else {
            self.after(moves.drop_last()).advanced(moves.last().0, moves.last().1).state
        }
    }
}

/// A test that ends has stopped at its first failure: the board is failed
/// if and only if one of its steps has; a board that passed has all its
/// steps on record; on a board that failed, the failed step is the last
/// one, or a rail, and then the rails are the last.
pub open spec fn ends_well(next: NextModel) -> bool {
    next matches NextModel::Finished(outcome) ==> {
        &&& outcome.consistent()
        &&& fail_fast(outcome.board().steps, RAILS as int)
        &&& outcome is Passed ==> outcome.board().steps.len() == STEPS
    }
}

/// The first part of a step in two parts, the reset before a log is read
/// or the command before its answer is read, finds nothing unless it fails.
pub proof fn lemma_first_part_only_fails(state: MainState, seen: Seen)
    ensures
        (state.stage == MainStage::BootReset || state.stage == MainStage::ImuWrite)
            ==> (state.finding(seen) matches Some(found) ==> found.failed),
{
}

/// Settling a step on a sound state leads to a sound state, and to a
/// board that has stopped at its first failure if the test ends.
proof fn lemma_conclude_sound(state: MainState, found: FindingModel, now: i64)
    requires
        state.stage != MainStage::Idle,
        state.sound(),
        (state.stage == MainStage::BootReset || state.stage == MainStage::ImuWrite)
            ==> found.failed,
    ensures
        state.conclude(found, now).state.sound(),
        ends_well(state.conclude(found, now).next),
{
    let record = found.record(
        step_name(state.stage),
        state.condition(state.stage),
        state.opened_at,
        now,
    );
    lemma_any_failed_push(state.board.steps, record);
    let steps = state.board.steps.push(record);
    assert forall|k: int| 0 <= k < steps.len() && (#[trigger] steps[k]).failed && steps_before(
        state.stage,
    ) >= 3 implies k == steps.len() - 1 by {
        if k < state.board.steps.len() {
            assert(state.board.steps[k].failed);
        }
    }
}

/// From a sound state every move leads to a sound state, and a test that
/// ends has stopped at its first failure.
pub proof fn lemma_advance_sound(state: MainState, seen: Seen, now: i64)
    requires
        state.sound(),
    ensures
        state.advanced(seen, now).state.sound(),
        ends_well(state.advanced(seen, now).next),
{
    let fed = MainState { scanner: state.scanner_after(seen), ..state };
    if state.stage != MainStage::Idle {
        match state.finding(seen) {
            Some(found) => {
                lemma_first_part_only_fails(state, seen);
                lemma_conclude_sound(fed, found, now);
            },
            None => {},
        }
    }
}

/// Settling a step no earlier than it began keeps the steps in order.
proof fn lemma_conclude_punctual(state: MainState, found: FindingModel, now: i64)
    requires
        state.stage != MainStage::Idle,
        state.board.punctual(state.opened_at),
        state.opened_at <= now,
        (state.stage == MainStage::BootReset || state.stage == MainStage::ImuWrite)
            ==> found.failed,
    ensures
        state.conclude(found, now).state.punctual(),
        state.conclude(found, now).state.stage != MainStage::Idle ==> state.conclude(
            found,
            now,
        ).state.opened_at <= now,
        state.conclude(found, now).next matches NextModel::Finished(outcome)
            ==> outcome.board().chronological(),
{
    lemma_settled_punctual(
        state.board,
        step_name(state.stage),
        state.condition(state.stage),
        found,
        state.opened_at,
        now,
    );
}

/// While the clock does not run backwards, the steps stay in order: each
/// step ends no earlier than it starts and no later than the next one
/// starts, the step under way has begun by now, and the test ends no
/// earlier than its last step.
pub proof fn lemma_advance_punctual(state: MainState, seen: Seen, now: i64)
    requires
        state.punctual(),
        state.stage != MainStage::Idle ==> state.opened_at <= now,
    ensures
        state.advanced(seen, now).state.punctual(),
        state.advanced(seen, now).state.stage != MainStage::Idle ==> state.advanced(
            seen,
            now,
        ).state.opened_at <= now,
        state.advanced(seen, now).next matches NextModel::Finished(outcome)
            ==> outcome.board().chronological(),
{
    let fed = MainState { scanner: state.scanner_after(seen), ..state };
    if state.stage != MainStage::Idle {
        match state.finding(seen) {
            Some(found) => {
                lemma_first_part_only_fails(state, seen);
                lemma_conclude_punctual(fed, found, now);
            },
            None => {},
        }
    }
}

/// Every step sends a progress report where it begins, and once it is
/// settled a success or an error: errors and nothing else if it failed,
/// successes and nothing else if not.
pub proof fn lemma_every_step_reports(state: MainState, stage: MainStage, seen: Seen)
    ensures
        stage != MainStage::Idle && stage != MainStage::BootScan && stage != MainStage::ImuScan
            ==> state.announcement(stage) is Some,
        state.finding(seen) matches Some(found) ==> reports_outcome(found),
{
}

/// Whatever a test observes, and whatever the clock reads, from its
/// beginning to any point: the state is sound. So every test that ends
/// hands out a board that is failed if and only if one of its steps has
/// failed, and that has no step after the first failed one, but for the
/// batch of rails at the start.
pub proof fn lemma_every_run_stops_at_failure(
    state: MainState,
    start: i64,
    moves: Seq<(Seen, i64)>,
)
    ensures
        state.begun(start).state.after(moves).sound(),
        moves.len() > 0 ==> ends_well(
            state.begun(start).state.after(moves.drop_last()).advanced(
                moves.last().0,
                moves.last().1,
            ).next,
        ),
    decreases moves.len(),
{
    if moves.len() > 0 {
        lemma_every_run_stops_at_failure(state, start, moves.drop_last());
        lemma_advance_sound(
            state.begun(start).state.after(moves.drop_last()),
            moves.last().0,
            moves.last().1,
        );
    }
}

/// Whatever a test observes, as long as the clock never runs backwards: the
/// state is punctual. So the board of every test that ends has its steps in
/// order, without overlap, between the start and the end of the test.
pub proof fn lemma_every_run_is_ordered(state: MainState, start: i64, moves: Seq<(Seen, i64)>)
    requires
        rising(start, moves),
    ensures
        state.begun(start).state.after(moves).punctual(),
        state.begun(start).state.after(moves).stage != MainStage::Idle ==> state.begun(
            start,
        ).state.after(moves).opened_at <= if moves.len() == 0 {
            start
        } else {
            moves.last().1
        },
        moves.len() > 0 ==> (state.begun(start).state.after(moves.drop_last()).advanced(
            moves.last().0,
            moves.last().1,
        ).next matches NextModel::Finished(outcome) ==> outcome.board().chronological()),
    decreases moves.len(),
{
    if moves.len() > 0 {
        lemma_rising_prefix(start, moves);
        lemma_every_run_is_ordered(state, start, moves.drop_last());
        lemma_advance_punctual(
            state.begun(start).state.after(moves.drop_last()),
            moves.last().0,
            moves.last().1,
        );
    }
}

impl MainBoardTestExecutor {
    /// A pipeline that takes the flashing tool and baud rate from the
    /// settings, and checks the rails as `policy` says. No test is under way.
    pub fn new(options: &Options, policy: PowerPolicy) -> (executor: MainBoardTestExecutor)
        ensures
            executor@.stage == MainStage::Idle,
            executor@.flash_with == options.flash_with,
            executor@.flash_baudrate == options.flash_baudrate,
            executor@.policy == policy,
    {
        let none: Vec<&str> = Vec::new();
        MainBoardTestExecutor {
            flash_with: options.flash_with,
            flash_baudrate: options.flash_baudrate,
            policy,
            stage: MainStage::Idle,
            board: Board::new_at(0),
            opened_at: 0,
            scanner: StreamScanner::new(&none, &none),
        }
    }

    /// Whether a test is under way.
    pub fn is_running(&self) -> (running: bool)
        ensures
            running == (self@.stage != MainStage::Idle),
    {
        match self.stage {
            MainStage::Idle => false,
            _ => true,
        }
    }

    fn step_label(stage: MainStage) -> (name: &'static str)
        ensures
            name@ == step_name(stage),
    {
        match stage {
            MainStage::Idle => "",
            MainStage::Vout => "Measure VOUT",
            MainStage::BPlus => "Measure B+",
            MainStage::Rail3v3 => "Measure 3V3",
            MainStage::ReadMac => "Read MAC address",
            MainStage::Flash => "Flashing",
            MainStage::OpenSerial => "Serial",
            MainStage::BootReset => "I2C to IMU",
            MainStage::BootScan => "I2C to IMU",
            MainStage::ImuWrite => "IMU test",
            MainStage::ImuScan => "IMU test",
        }
    }

    fn bounds_text(check: &RailCheck) -> (text: String)
        ensures
            text@ == bounds_of(*check),
    {
        let mut text = String::new();
        match check.min {
            Some(low) => {
                text.append("> ");
                text.append(volts_text(low).as_str());
                text.append("V");
                match check.max {
                    Some(high) => {
                        text.append(" < ");
                        text.append(volts_text(high).as_str());
                        text.append("V");
                        proof {
                            reveal_strlit("V < ");
                            reveal_strlit("V");
                            reveal_strlit(" < ");
                            assert("V"@ + " < "@ =~= "V < "@);
                            assert(text@ =~= bounds_of(*check));
                        }
                    },
                    None => {
                        assert(text@ =~= bounds_of(*check));
                    },
                }
            },
            None => {
                match check.max {
                    Some(high) => {
                        text.append("< ");
                        text.append(volts_text(high).as_str());
                        text.append("V");
                        assert(text@ =~= bounds_of(*check));
                    },
                    None => {},
                }
            },
        }
        text
    }

    fn rail_label(rail: Rail) -> (name: &'static str)
        ensures
            name@ == rail_name(rail),
    {
        match rail {
            Rail::Vout => "VOUT",
            Rail::BPlus => "B+",
            Rail::Rail3v3 => "3V3",
        }
    }

    fn condition_text(&self, stage: MainStage) -> (text: String)
        ensures
            text@ == self@.condition(stage),
    {
        match stage {
            MainStage::Idle => String::new(),
            MainStage::Vout => Self::rail_condition_text(Rail::Vout, &self.policy.vout),
            MainStage::BPlus => Self::rail_condition_text(Rail::BPlus, &self.policy.bplus),
            MainStage::Rail3v3 => Self::rail_condition_text(Rail::Rail3v3, &self.policy.rail_3v3),
            MainStage::ReadMac => String::from_str("MAC address should be readable"),
            MainStage::Flash => String::from_str("Flashing should work"),
            MainStage::OpenSerial => String::from_str("Serial should work"),
            MainStage::BootReset => String::from_str("I2C to IMU should work"),
            MainStage::BootScan => String::from_str("I2C to IMU should work"),
            MainStage::ImuWrite => String::from_str("IMU test should work"),
            MainStage::ImuScan => String::from_str("IMU test should work"),
        }
    }

    fn rail_condition_text(rail: Rail, check: &RailCheck) -> (text: String)
        ensures
            text@ == rail_condition(rail, *check),
    {
        if check.gates && (check.min.is_some() || check.max.is_some()) {
            let mut text = String::from_str(Self::rail_label(rail));
            text.append(" ");
            text.append(Self::bounds_text(check).as_str());
            text
        } else {
            String::from_str("none")
        }
    }

    fn judge_rail(rail: Rail, check: &RailCheck, observation: Observation, logger: &mut Logger)
        -> (found: Finding)
        ensures
            rail_finding(rail, *check, observation@).met_by(found, old(logger)@, final(logger)@),
    {
        let ghost model = rail_finding(rail, *check, observation@);
        match observation {
            Observation::Voltage(Ok(raw)) => {
                let nanovolts = to_nanovolts(raw);
                let mut reading = volts_text(nanovolts);
                reading.append("V");
                let low_ok = match check.min {
                    Some(low) => low <= nanovolts,
                    None => true,
                };
                let high_ok = match check.max {
                    Some(high) => nanovolts <= high,
                    None => true,
                };
                let failed = check.gates && !(low_ok && high_ok);
                let mut msg = String::from_str(Self::rail_label(rail));
                msg.append(" voltage: ");
                msg.append(reading.as_str());
                if failed {
                    msg.append(" (");
                    msg.append(Self::bounds_text(check).as_str());
                    msg.append(")");
                    logger.error(msg.as_str());
                } else {
                    logger.success(msg.as_str());
                }
                assert(logger@ =~= old(logger)@ + model.events);
                Finding { value: reading, logs: None, failed, id: None }
            },
            Observation::Voltage(Err(fault)) => {
                let note = fault.note();
                let mut msg = String::from_str(Self::rail_label(rail));
                msg.append(" voltage: N/A (");
                msg.append(note.as_str());
                msg.append(")");
                if check.gates {
                    logger.error(msg.as_str());
                } else {
                    logger.success(msg.as_str());
                }
                assert(logger@ =~= old(logger)@ + model.events);
                Finding {
                    value: String::from_str("N/A"),
                    logs: Some(note),
                    failed: check.gates,
                    id: None,
                }
            },
            _ => judge_misfit(logger),
        }
    }

    fn judge_identity(observation: Observation, logger: &mut Logger) -> (found: Finding)
        ensures
            identity_finding(observation@).met_by(found, old(logger)@, final(logger)@),
    {
        let ghost model = identity_finding(observation@);
        match observation {
            Observation::Identity(Ok(found)) => {
                logger.success(String::from_str("Read MAC address: ").concat(found.mac.as_str()).as_str());
                assert(logger@ =~= old(logger)@ + model.events);
                Finding {
                    value: found.mac.clone(),
                    logs: Some(found.log),
                    failed: false,
                    id: Some(found.mac),
                }
            },
            Observation::Identity(Err(complaint)) => {
                logger.error(
                    String::from_str("Failed to read MAC address: ").concat(
                        complaint.as_str(),
                    ).as_str(),
                );
                logger.error("-> ESP8266 faulty");
                assert(logger@ =~= old(logger)@ + model.events);
                Finding {
                    value: String::from_str("N/A"),
                    logs: Some(complaint),
                    failed: true,
                    id: None,
                }
            },
            _ => judge_misfit(logger),
        }
    }

    fn judge_flash(observation: Observation, logger: &mut Logger) -> (found: Finding)
        ensures
            flash_finding(observation@).met_by(found, old(logger)@, final(logger)@),
    {
        match observation {
            Observation::Output(Ok(log)) => judge_plain(
                Ok(Some(log)),
                "Flashing successful",
                "Flashing: ",
                Some("-> Flashing failed"),
                logger,
            ),
            Observation::Output(Err(complaint)) => judge_plain(
                Err(complaint),
                "Flashing successful",
                "Flashing: ",
                Some("-> Flashing failed"),
                logger,
            ),
            _ => judge_misfit(logger),
        }
    }

    fn judge_serial(observation: Observation, logger: &mut Logger) -> (found: Finding)
        ensures
            serial_finding(observation@).met_by(found, old(logger)@, final(logger)@),
    {
        match observation {
            Observation::Done(Ok(_)) => judge_plain(
                Ok(None),
                "Serial port opened",
                "Failed to open serial port: ",
                Some("-> Serial port failed"),
                logger,
            ),
            Observation::Done(Err(complaint)) => judge_plain(
                Err(complaint),
                "Serial port opened",
                "Failed to open serial port: ",
                Some("-> Serial port failed"),
                logger,
            ),
            _ => judge_misfit(logger),
        }
    }

    fn judge_write_failure(complaint: String, logger: &mut Logger) -> (found: Finding)
        ensures
            write_failure(complaint@).met_by(found, old(logger)@, final(logger)@),
    {
        let note = String::from_str("Failed to write to serial port: ").concat(complaint.as_str());
        logger.error(note.as_str());
        assert(logger@ =~= old(logger)@ + write_failure(complaint@).events);
        Finding { value: String::from_str("false"), logs: Some(note), failed: true, id: None }
    }

    /// Gives the scanner what a read observed.
    fn scan(&mut self, observation: Observation) -> (r: Option<Option<Result<String, String>>>)
        requires
            old(self)@.stage == MainStage::BootScan || old(self)@.stage == MainStage::ImuScan,
        ensures
            final(self)@ == (MainState {
                scanner: old(self)@.scanner_after(observation@),
                ..old(self)@
            }),
            match r {
                Some(report) => old(self)@.scanned(observation@) == Some(
                    crate::serial::report_view(report),
                ),
                None => old(self)@.scanned(observation@) is None,
            },
    {
        match observation {
            Observation::Chunk(Ok(bytes)) => Some(self.scanner.feed(bytes.as_slice())),
            Observation::Chunk(Err(complaint)) => Some(
                Some(Err(self.scanner.fail(complaint.as_str()))),
            ),
            _ => None,
        }
    }

    fn announcement_text(&self, stage: MainStage) -> (msg: Option<&'static str>)
        ensures
            match msg {
                Some(m) => self@.announcement(stage) == Some(m@),
                None => self@.announcement(stage) is None,
            },
    {
        match stage {
            MainStage::Idle => None,
            MainStage::Vout => Some("Measuring VOUT..."),
            MainStage::BPlus => Some("Measuring B+..."),
            MainStage::Rail3v3 => Some("Measuring 3V3..."),
            MainStage::ReadMac => Some("Reading MAC address..."),
            MainStage::Flash => Some("Flashing..."),
            MainStage::OpenSerial => Some("Connecting to serial port..."),
            MainStage::BootReset => Some("Checking I2C connection to IMU..."),
            MainStage::BootScan => None,
            MainStage::ImuWrite => Some("Checking IMU via `GET TEST` command..."),
            MainStage::ImuScan => None,
        }
    }

    fn request_for(&self, stage: MainStage) -> (request: Request)
        ensures
            request == self@.request(stage),
    {
        match stage {
            MainStage::Idle => Request { settle_ms: 0, operation: Operation::ReadSerial },
            MainStage::Vout => Request {
                settle_ms: 250,
                operation: Operation::MeasureVoltage(self.policy.vout.channel),
            },
            MainStage::BPlus => Request {
                settle_ms: 0,
                operation: Operation::MeasureVoltage(self.policy.bplus.channel),
            },
            MainStage::Rail3v3 => Request {
                settle_ms: 0,
                operation: Operation::MeasureVoltage(self.policy.rail_3v3.channel),
            },
            MainStage::ReadMac => Request { settle_ms: 0, operation: Operation::ReadIdentity },
            MainStage::Flash => Request {
                settle_ms: 0,
                operation: Operation::Flash(self.flash_with, self.flash_baudrate),
            },
            MainStage::OpenSerial => Request { settle_ms: 0, operation: Operation::OpenSerial },
            MainStage::BootReset => Request { settle_ms: 0, operation: Operation::ResetDevice },
            MainStage::BootScan => Request { settle_ms: 0, operation: Operation::ReadSerial },
            MainStage::ImuWrite => Request {
                settle_ms: 100,
                operation: Operation::WriteSerial(Command::GetTest),
            },
            MainStage::ImuScan => Request { settle_ms: 0, operation: Operation::ReadSerial },
        }
    }

    fn next_stage(stage: MainStage) -> (next: MainStage)
        ensures
            next == stage_after(stage),
    {
        match stage {
            MainStage::Idle => MainStage::Idle,
            MainStage::Vout => MainStage::BPlus,
            MainStage::BPlus => MainStage::Rail3v3,
            MainStage::Rail3v3 => MainStage::ReadMac,
            MainStage::ReadMac => MainStage::Flash,
            MainStage::Flash => MainStage::OpenSerial,
            MainStage::OpenSerial => MainStage::BootReset,
            MainStage::BootReset => MainStage::BootScan,
            MainStage::BootScan => MainStage::ImuWrite,
            MainStage::ImuWrite => MainStage::ImuScan,
            MainStage::ImuScan => MainStage::Idle,
        }
    }

    fn proceed(&mut self, stage: MainStage, now: i64, logger: &mut Logger) -> (next: Next)
        ensures
            final(self)@ == old(self)@.entered(stage, now),
            next@ == NextModel::Perform(old(self)@.request(stage)),
            final(logger)@ == old(logger)@ + announced(old(self)@.announcement(stage)),
    {
        announce(logger, self.announcement_text(stage));
        let request = self.request_for(stage);
        match stage {
            MainStage::BootScan => {
                let positive: Vec<&str> = vec!["[INFO ] [BNO080Sensor:0] Connected to BNO085 on 0x4a"];
                let negative: Vec<&str> = vec!["ERR", "[FATAL"];
                self.scanner = StreamScanner::new(&positive, &negative);
                assert(str_views(positive@) =~= boot_scanner().positive);
                assert(str_views(negative@) =~= boot_scanner().negative);
                self.opened_at = now;
            },
            MainStage::ImuScan => {
                let positive: Vec<&str> = vec!["Sensor 1 sent some data, looks working."];
                let negative: Vec<&str> = vec!["Sensor 1 didn't send any data yet!"];
                self.scanner = StreamScanner::new(&positive, &negative);
                assert(str_views(positive@) =~= imu_scanner().positive);
                assert(str_views(negative@) =~= imu_scanner().negative);
            },
            _ => {
                self.opened_at = now;
            },
        }
        self.stage = stage;
        Next::Perform(request)
    }

    fn finish(&mut self, now: i64) -> (next: Next)
        ensures
            final(self)@ == old(self)@.finish(now, Seq::empty()).state,
            next@ == old(self)@.finish(now, Seq::empty()).next,
    {
        let mut board = Board::new_at(now);
        std::mem::swap(&mut board, &mut self.board);
        board.ended_at = now;
        self.stage = MainStage::Idle;
        if has_failure(&board) {
            Next::Finished(TestResult::Failed(board))
        } else {
            Next::Finished(TestResult::Passed(board))
        }
    }

    fn conclude(
        &mut self,
        found: Finding,
        now: i64,
        logger: &mut Logger,
        Ghost(model): Ghost<FindingModel>,
        Ghost(start): Ghost<Seq<Entry>>,
    ) -> (next: Next)
        requires
            model.met_by(found, start, old(logger)@),
        ensures
            final(self)@ == old(self)@.conclude(model, now).state,
            next@ == old(self)@.conclude(model, now).next,
            final(logger)@ == start + old(self)@.conclude(model, now).events,
    {
        let stage = self.stage;
        let condition = self.condition_text(stage);
        settle(
            &mut self.board,
            Self::step_label(stage),
            condition.as_str(),
            found,
            self.opened_at,
            now,
        );
        let failed = has_failure(&self.board);
        let ghost settled = self@;
        match stage {
            MainStage::Vout | MainStage::BPlus => {
                let next = self.proceed(Self::next_stage(stage), now, logger);
                assert(logger@ =~= start + old(self)@.conclude(model, now).events);
                next
            },
            _ => {
                let rails_done = match stage {
                    MainStage::Rail3v3 => true,
                    _ => false,
                };
                let last = match stage {
                    MainStage::ImuScan => true,
                    _ => false,
                };
                if rails_done && failed {
                    logger.error("-> Faulty power circuit");
                    assert(logger@ =~= start + old(self)@.conclude(model, now).events);
                    self.finish(now)
                } else if failed || last {
                    assert(logger@ =~= start + old(self)@.conclude(model, now).events);
                    self.finish(now)
                } else {
                    let next = self.proceed(Self::next_stage(stage), now, logger);
                    assert(logger@ =~= start + old(self)@.conclude(model, now).events);
                    next
                }
            },
        }
    }

    /// Begins the test of a board at `now`: a new board is put on record,
    /// and the first measurement is requested. A test that was under way
    /// is given up.
    pub fn begin_at(&mut self, now: i64, logger: &mut Logger) -> (request: Request)
        ensures
            final(self)@ == old(self)@.begun(now).state,
            NextModel::Perform(request) == old(self)@.begun(now).next,
            final(logger)@ == old(logger)@ + old(self)@.begun(now).events,
            final(self)@.sound(),
            final(self)@.punctual(),
    {
        self.board = Board::new_at(now);
        self.proceed(MainStage::Vout, now, logger);
        assert(logger@ =~= old(logger)@ + old(self)@.begun(now).events);
        self.request_for(MainStage::Vout)
    }

    /// Begins the test of a board now.
    pub fn begin(&mut self, logger: &mut Logger) -> (request: Request)
        ensures
            final(self)@ == old(self)@.begun(final(self)@.opened_at).state,
            NextModel::Perform(request) == old(self)@.begun(final(self)@.opened_at).next,
            final(logger)@ == old(logger)@ + old(self)@.begun(final(self)@.opened_at).events,
            final(self)@.sound(),
            final(self)@.punctual(),
    {
        self.begin_at(clock::now(), logger)
    }

    /// Takes what the requested operation observed, at `now`, and says
    /// what comes next. The step that the observation settles is put on
    /// record from the moment it began to `now`. While no test is under
    /// way nothing happens.
    pub fn advance_at(&mut self, observation: Observation, now: i64, logger: &mut Logger) -> (next:
        Next)
        ensures
            final(self)@ == old(self)@.advanced(observation@, now).state,
            next@ == old(self)@.advanced(observation@, now).next,
            final(logger)@ == old(logger)@ + old(self)@.advanced(observation@, now).events,
            old(self)@.sound() ==> final(self)@.sound() && ends_well(next@),
            old(self)@.punctual() && (old(self)@.stage != MainStage::Idle ==> old(self)@.opened_at
                <= now) ==> final(self)@.punctual() && (next@ matches NextModel::Finished(
                outcome,
            ) ==> outcome.board().chronological()),
    {
        proof {
            if self@.sound() {
                lemma_advance_sound(self@, observation@, now);
            }
            if self@.punctual() && (self@.stage != MainStage::Idle ==> self@.opened_at <= now) {
                lemma_advance_punctual(self@, observation@, now);
            }
        }
        let ghost start = logger@;
        let ghost seen = observation@;
        let stage = self.stage;
        match stage {
            MainStage::Idle => {
                assert(logger@ =~= start + Seq::<Entry>::empty());
                Next::Idle
            },
            MainStage::Vout => {
                let found = Self::judge_rail(Rail::Vout, &self.policy.vout, observation, logger);
                self.conclude(found, now, logger, Ghost(self@.finding(seen).unwrap()), Ghost(start))
            },
            MainStage::BPlus => {
                let found = Self::judge_rail(Rail::BPlus, &self.policy.bplus, observation, logger);
                self.conclude(found, now, logger, Ghost(self@.finding(seen).unwrap()), Ghost(start))
            },
            MainStage::Rail3v3 => {
                let found = Self::judge_rail(
                    Rail::Rail3v3,
                    &self.policy.rail_3v3,
                    observation,
                    logger,
                );
                self.conclude(found, now, logger, Ghost(self@.finding(seen).unwrap()), Ghost(start))
            },
            MainStage::ReadMac => {
                let found = Self::judge_identity(observation, logger);
                self.conclude(found, now, logger, Ghost(self@.finding(seen).unwrap()), Ghost(start))
            },
            MainStage::Flash => {
                let found = Self::judge_flash(observation, logger);
                self.conclude(found, now, logger, Ghost(self@.finding(seen).unwrap()), Ghost(start))
            },
            MainStage::OpenSerial => {
                let found = Self::judge_serial(observation, logger);
                self.conclude(found, now, logger, Ghost(self@.finding(seen).unwrap()), Ghost(start))
            },
            MainStage::BootReset => {
                match observation {
                    Observation::Done(Ok(_)) => {
                        let next = self.proceed(MainStage::BootScan, now, logger);
                        assert(logger@ =~= start + old(self)@.advanced(seen, now).events);
                        next
                    },
                    Observation::Done(Err(complaint)) => {
                        let found = judge_scan(
                            Err(complaint),
                            "I2C to IMU working",
                            "I2C to IMU faulty",
                            logger,
                        );
                        self.conclude(
                            found,
                            now,
                            logger,
                            Ghost(old(self)@.finding(seen).unwrap()),
                            Ghost(start),
                        )
                    },
                    _ => {
                        let found = judge_misfit(logger);
                        self.conclude(found, now, logger, Ghost(misfit()), Ghost(start))
                    },
                }
            },
            MainStage::BootScan => {
                match self.scan(observation) {
                    Some(Some(verdict)) => {
                        let found = judge_scan(
                            verdict,
                            "I2C to IMU working",
                            "I2C to IMU faulty",
                            logger,
                        );
                        self.conclude(
                            found,
                            now,
                            logger,
                            Ghost(old(self)@.finding(seen).unwrap()),
                            Ghost(start),
                        )
                    },
                    Some(None) => {
                        assert(logger@ =~= start + Seq::<Entry>::empty());
                        Next::Perform(self.request_for(MainStage::BootScan))
                    },
                    None => {
                        let found = judge_misfit(logger);
                        self.conclude(found, now, logger, Ghost(misfit()), Ghost(start))
                    },
                }
            },
            MainStage::ImuWrite => {
                match observation {
                    Observation::Done(Ok(_)) => {
                        let next = self.proceed(MainStage::ImuScan, now, logger);
                        assert(logger@ =~= start + old(self)@.advanced(seen, now).events);
                        next
                    },
                    Observation::Done(Err(complaint)) => {
                        let found = Self::judge_write_failure(complaint, logger);
                        self.conclude(
                            found,
                            now,
                            logger,
                            Ghost(old(self)@.finding(seen).unwrap()),
                            Ghost(start),
                        )
                    },
                    _ => {
                        let found = judge_misfit(logger);
                        self.conclude(found, now, logger, Ghost(misfit()), Ghost(start))
                    },
                }
            },
            MainStage::ImuScan => {
                match self.scan(observation) {
                    Some(Some(verdict)) => {
                        let found = judge_scan(
                            verdict,
                            "IMU test successful",
                            "IMU test failed",
                            logger,
                        );
                        self.conclude(
                            found,
                            now,
                            logger,
                            Ghost(old(self)@.finding(seen).unwrap()),
                            Ghost(start),
                        )
                    },
                    Some(None) => {
                        assert(logger@ =~= start + Seq::<Entry>::empty());
                        Next::Perform(self.request_for(MainStage::ImuScan))
                    },
                    None => {
                        let found = judge_misfit(logger);
                        self.conclude(found, now, logger, Ghost(misfit()), Ghost(start))
                    },
                }
            },
        }
    }

    /// Takes what the requested operation observed, and says what comes
    /// next. The moment is read from the clock: the move is the one that
    /// `advance_at` makes for some reading.
    pub fn advance(&mut self, observation: Observation, logger: &mut Logger) -> (next: Next)
        ensures
            exists|now: i64|
                {
                    &&& final(self)@ == (#[trigger] old(self)@.advanced(observation@, now)).state
                    &&& next@ == old(self)@.advanced(observation@, now).next
                    &&& final(logger)@ == old(logger)@ + old(self)@.advanced(
                        observation@,
                        now,
                    ).events
                },
            old(self)@.sound() ==> final(self)@.sound() && ends_well(next@),
    {
        let now = clock::now();
        self.advance_at(observation, now, logger)
    }
}

} // verus!
