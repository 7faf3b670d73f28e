//! The pipeline that updates a board in the field: it gives the board the
//! credentials of the network, waits until the board has joined it, writes
//! the firmware over the network, and resets the board to its defaults.
//!
//! Like the test pipelines it decides and does not touch the board: it hands
//! out requests and is handed back observations. The first failure ends the
//! update.

use vstd::prelude::*;
use crate::api::text_view;
use crate::logger::{Entry, LogEvent};
use crate::serial::{chunk_text, ScannerState, StreamScanner, Verdict};
use crate::test_executors::{Observation, Seen};
use crate::text::{occurs_in, same, str_views};

verus! {

/// The tool that writes the firmware to the board.
#[derive(Clone, Copy, Debug, PartialEq, Eq, Structural)]
pub enum FlashWith {
    PlatformIO,
}

/// The settings of the updater.
#[derive(Clone, Debug, PartialEq, Eq)]
pub struct Options {
    pub no_build: bool,
    pub ssid: String,
    pub password: String,
}

/// The variables that the settings are read from.
pub const VAR_BUILD: &'static str = "BUILD";

pub const VAR_SSID: &'static str = "SSID";

pub const VAR_PASSWORD: &'static str = "PASSWORD";

impl Options {
    /// The settings that the environment gives: the value of each variable
    /// that is set. The build is skipped only where the build variable reads
    /// `no`; a name or password that is not set is empty.
    pub fn parse(build: Option<String>, ssid: Option<String>, password: Option<String>) -> (options:
        Options)
        ensures
            options.no_build == (text_view(build) == Some("no"@)),
            options.ssid@ == match ssid {
                Some(v) => v@,
                None => Seq::<char>::empty(),
            },
            options.password@ == match password {
                Some(v) => v@,
                None => Seq::<char>::empty(),
            },
    {
        Options {
            no_build: match &build {
                Some(v) => same(v.as_str(), "no"),
                None => false,
            },
            ssid: match ssid {
                Some(v) => v,
                None => String::new(),
            },
            password: match password {
                Some(v) => v,
                None => String::new(),
            },
        }
    }
}

/// The pattern of a dotted address of four numbers up to 255.
pub const ADDRESS_PATTERN: &'static str = "((25[0-5]|(2[0-4]|1\\d|[1-9]|)\\d)\\.?\\b){4}";

/// What `regex::Regex::find` returns for the regex that `regex::Regex::new`
/// compiles from `pattern`, on the haystack `text`: the text of the first
/// match. There is none where nothing matches, and none where the pattern
/// does not compile.
pub uninterp spec fn first_match(pattern: Seq<char>, text: Seq<char>) -> Option<Seq<char>>;

/// Compiles `pattern` with `regex::Regex::new`, searches `text` with
/// `Regex::find`, and copies what `Match::as_str` gives. A match is a part
/// of the haystack.
#[verifier::external_body]
pub(crate) fn find_first(pattern: &str, text: &str) -> (found: Option<String>)
    ensures
        text_view(found) == first_match(pattern@, text@),
        found matches Some(part) ==> occurs_in(text@, part@),
{
    match regex::Regex::new(pattern) {
        Err(_) => None,
        Ok(re) => match re.find(text) {
            Some(found) => Some(found.as_str().to_string()),
            None => None,
        },
    }
}

/// Where an update stands: the operation whose observation is awaited.
#[derive(Clone, Copy, Debug, PartialEq, Eq, Structural)]
pub enum UpdateStage {
    /// No update is under way.
    Idle,
    OpenSerial,
    ClearBuffers,
    SetWifi,
    AwaitNetwork,
    Flash,
    FactoryReset,
    AwaitStartup,
}

/// An operation on the board.
#[derive(Clone, Debug, PartialEq, Eq)]
pub enum UpdateOperation {
    OpenSerial,
    ClearBuffers,
    /// Send a line over the serial channel.
    Write(String),
    ReadSerial,
    /// Write the firmware to the board at the given address.
    Flash(String),
}

/// An operation as plain values.
pub enum Task {
    OpenSerial,
    ClearBuffers,
    Write(Seq<char>),
    ReadSerial,
    Flash(Seq<char>),
}

impl View for UpdateOperation {
    type V = Task;

    open spec fn view(&self) -> Task {
        match *self {
            UpdateOperation::OpenSerial => Task::OpenSerial,
            UpdateOperation::ClearBuffers => Task::ClearBuffers,
            UpdateOperation::Write(line) => Task::Write(line@),
            UpdateOperation::ReadSerial => Task::ReadSerial,
            UpdateOperation::Flash(address) => Task::Flash(address@),
        }
    }
}

/// What the worker does next.
#[derive(Debug, PartialEq, Eq)]
pub enum UpdateNext {
    /// Wait so many milliseconds, perform the operation, and hand back
    /// what it observed.
    Perform(u32, UpdateOperation),
    /// The update has ended, well or with a complaint.
    Finished(Result<(), String>),
    /// No update is under way.
    Idle,
}

/// What the worker does next, as plain values.
pub enum Turn {
    Perform(u32, Task),
    Finished(Result<(), Seq<char>>),
    Idle,
}

impl View for UpdateNext {
    type V = Turn;

    open spec fn view(&self) -> Turn {
        match *self {
            UpdateNext::Perform(settle_ms, operation) => Turn::Perform(settle_ms, operation@),
            UpdateNext::Finished(Ok(_)) => Turn::Finished(Ok(())),
            UpdateNext::Finished(Err(complaint)) => Turn::Finished(Err(complaint@)),
            UpdateNext::Idle => Turn::Idle,
        }
    }
}

/// The line that sets the credentials of the network.
pub open spec fn wifi_command(ssid: Seq<char>, password: Seq<char>) -> Seq<char> {
    "SET WIFI \""@ + ssid + "\" \""@ + password + "\"\n"@
}

/// The scanner that waits for the board to join the network.
pub open spec fn network_scanner() -> ScannerState {
    ScannerState::start(seq!["Connected successfully to SSID"@], Seq::empty())
}

/// The scanner that waits for the board to start up.
pub open spec fn startup_scanner() -> ScannerState {
    ScannerState::start(seq!["starting up"@], Seq::empty())
}

/// The state of an update as plain values.
pub struct UpdateState {
    pub ssid: Seq<char>,
    pub password: Seq<char>,
    pub stage: UpdateStage,
    pub scanner: ScannerState,
}

/// One move of an update: the state it leaves, what the worker does next,
/// and what is reported on the way.
pub struct UpdateStep {
    pub state: UpdateState,
    pub next: Turn,
    pub events: Seq<Entry>,
}

impl UpdateState {
    /// The update ends.
    pub open spec fn end(self, result: Result<(), Seq<char>>, events: Seq<Entry>) -> UpdateStep {
        UpdateStep {
            state: UpdateState { stage: UpdateStage::Idle, ..self },
            next: Turn::Finished(result),
            events,
        }
    }

    /// The update goes on.
    pub open spec fn go(self, stage: UpdateStage, settle_ms: u32, task: Task, events: Seq<Entry>)
        -> UpdateStep {
        UpdateStep {
            state: UpdateState {
                stage,
                scanner: if stage == UpdateStage::AwaitNetwork {
                    network_scanner()
                } else if stage == UpdateStage::AwaitStartup {
                    startup_scanner()
                } else {
                    self.scanner
                },
                ..self
            },
            next: Turn::Perform(settle_ms, task),
            events,
        }
    }

    /// The state in which an update begins.
    pub open spec fn begun(self) -> UpdateStep {
        self.go(
            UpdateStage::OpenSerial,
            250,
            Task::OpenSerial,
            seq![Entry::InProgress("Connecting to serial port..."@)],
        )
    }

    /// The move once the board has joined the network and `address` is what
    /// was found in its log: with an address the firmware is written to it,
    /// without one the update has failed.
    pub open spec fn located(self, address: Option<Seq<char>>) -> UpdateStep {
        if self.stage != UpdateStage::AwaitNetwork {
            UpdateStep { state: self, next: Turn::Idle, events: Seq::empty() }
        } else {
            match address {
                Some(ip) => self.go(
                    UpdateStage::Flash,
                    2000,
                    Task::Flash(ip),
                    seq![
                        Entry::Success("Found network connection message"@),
                        Entry::InProgress("Flashing..."@),
                    ],
                ),
                None => self.end(
                    Err("No address found in the log"@),
                    seq![
                        Entry::Success("Found network connection message"@),
                        Entry::Error("No address found in the log"@),
                    ],
                ),
            }
        }
    }

    /// The move that an operation which only succeeds or fails sets off.
    pub open spec fn done(self, reply: Result<(), Seq<char>>) -> UpdateStep {
        match (self.stage, reply) {
            (UpdateStage::OpenSerial, Ok(_)) => self.go(
                UpdateStage::ClearBuffers,
                0,
                Task::ClearBuffers,
                seq![Entry::Success("Serial port opened"@)],
            ),
            (UpdateStage::OpenSerial, Err(e)) => self.end(
                Err(e),
                seq![
                    Entry::Error("Failed to open serial port: "@ + e),
                    Entry::Error("-> Serial port failed"@),
                ],
            ),
            (UpdateStage::ClearBuffers, Ok(_)) => self.go(
                UpdateStage::SetWifi,
                0,
                Task::Write(wifi_command(self.ssid, self.password)),
                seq![Entry::InProgress("Setting WiFi credentials..."@)],
            ),
            (UpdateStage::SetWifi, Ok(_)) => self.go(
                UpdateStage::AwaitNetwork,
                0,
                Task::ReadSerial,
                seq![Entry::InProgress("Waiting for network connection"@)],
            ),
            (UpdateStage::Flash, Ok(_)) => self.go(
                UpdateStage::FactoryReset,
                2000,
                Task::Write("FRST\n"@),
                seq![
                    Entry::Success("Flashing successful"@),
                    Entry::InProgress("Resetting device to factory defaults..."@),
                ],
            ),
            (UpdateStage::Flash, Err(e)) => self.end(
                Err(e),
                seq![Entry::Error("Flashing: "@ + e), Entry::Error("-> Flashing failed"@)],
            ),
            (UpdateStage::FactoryReset, Ok(_)) => self.go(
                UpdateStage::AwaitStartup,
                0,
                Task::ReadSerial,
                seq![Entry::InProgress("Waiting for startup message..."@)],
            ),
            (_, Err(e)) => self.end(Err(e), Seq::empty()),
            (_, Ok(_)) => self.end(Err("unexpected reply"@), Seq::empty()),
        }
    }

    /// The move that a verdict of the scanner sets off, where the log is
    /// not searched for an address: a failed scan ends the update, and so
    /// does the start-up message, well.
    pub open spec fn judged(self, verdict: Verdict) -> UpdateStep {
        match verdict {
            Err(diagnostic) => self.end(Err(diagnostic), Seq::empty()),
            Ok(_) => self.end(Ok(()), Seq::empty()),
        }
    }

    /// The move that an observation sets off.
    pub open spec fn advanced(self, seen: Seen) -> UpdateStep {
        let scanning = self.stage == UpdateStage::AwaitNetwork || self.stage
            == UpdateStage::AwaitStartup;
        if self.stage == UpdateStage::Idle {
            UpdateStep { state: self, next: Turn::Idle, events: Seq::empty() }
        } else {
            match seen {
                Seen::Chunk(Ok(bytes)) if scanning => {
                    let fed = UpdateState { scanner: self.scanner.fed(chunk_text(bytes)), ..self };
                    match self.scanner.verdict(chunk_text(bytes)) {
                        None => UpdateStep {
                            state: fed,
                            next: Turn::Perform(0, Task::ReadSerial),
                            events: Seq::empty(),
                        },
                        Some(Ok(log)) if self.stage == UpdateStage::AwaitNetwork => fed.located(
                            first_match(ADDRESS_PATTERN@, log),
                        ),
                        Some(verdict) => fed.judged(verdict),
                    }
                },
                Seen::Chunk(Err(e)) if scanning => self.end(
                    Err(self.scanner.failure(e)),
                    Seq::empty(),
                ),
                Seen::Done(reply) if !scanning => self.done(reply),
                _ => self.end(Err("unexpected reply"@), Seq::empty()),
            }
        }
    }
}

/// The reply of an operation that only succeeds or fails, as plain values.
pub open spec fn done_view(reply: Result<(), String>) -> Result<(), Seq<char>> {
    match reply {
        Ok(_) => Ok(()),
        Err(e) => Err(e@),
    }
}

/// The pipeline of an update.
pub struct UploadUpdateExecutor {
    options: Options,
    stage: UpdateStage,
    scanner: StreamScanner,
}

impl View for UploadUpdateExecutor {
    type V = UpdateState;

    closed spec fn view(&self) -> UpdateState {
        UpdateState {
            ssid: self.options.ssid@,
            password: self.options.password@,
            stage: self.stage,
            scanner: self.scanner@,
        }
    }
}

/// Appends an event to the list of what is reported.
fn report(notices: &mut Vec<LogEvent>, event: LogEvent)
    ensures
        crate::logger::entries(final(notices)@) == crate::logger::entries(old(notices)@).push(
            event@,
        ),
{
    notices.push(event);
    assert(crate::logger::entries(notices@) =~= crate::logger::entries(old(notices)@).push(
        event@,
    ));
}

fn in_progress(notices: &mut Vec<LogEvent>, msg: &str)
    ensures
        crate::logger::entries(final(notices)@) == crate::logger::entries(old(notices)@).push(
            Entry::InProgress(msg@),
        ),
{
    report(notices, LogEvent::InProgress(String::from_str(msg)));
}

fn success(notices: &mut Vec<LogEvent>, msg: &str)
    ensures
        crate::logger::entries(final(notices)@) == crate::logger::entries(old(notices)@).push(
            Entry::Success(msg@),
        ),
{
    report(notices, LogEvent::Success(String::from_str(msg)));
}

fn error(notices: &mut Vec<LogEvent>, msg: &str)
    ensures
        crate::logger::entries(final(notices)@) == crate::logger::entries(old(notices)@).push(
            Entry::Error(msg@),
        ),
{
    report(notices, LogEvent::Error(String::from_str(msg)));
}

/// The line that shows an event on the updater's console: the text after a
/// mark for its kind. Washes and resets are not shown.
pub open spec fn notice_of(event: Entry) -> Option<Seq<char>> {
    match event {
        Entry::Error(text) => Some("❌ "@ + text),
        Entry::Success(text) => Some("✅ "@ + text),
        Entry::InProgress(text) => Some("🕑 "@ + text),
        Entry::Action(text) => Some("❗ "@ + text),
        _ => None,
    }
}

/// The line that shows an event on the updater's console.
pub fn notice(event: &LogEvent) -> (line: Option<String>)
    ensures
        text_view(line) == notice_of(event@),
{
    match event {
        LogEvent::Error(text) => Some(String::from_str("❌ ").concat(text.as_str())),
        LogEvent::Success(text) => Some(String::from_str("✅ ").concat(text.as_str())),
        LogEvent::InProgress(text) => Some(String::from_str("🕑 ").concat(text.as_str())),
        LogEvent::Action(text) => Some(String::from_str("❗ ").concat(text.as_str())),
        _ => None,
    }
}

impl UploadUpdateExecutor {
    /// A pipeline with the given settings. No update is under way.
    pub fn new(options: Options) -> (executor: UploadUpdateExecutor)
        ensures
            executor@.stage == UpdateStage::Idle,
            executor@.ssid == options.ssid@,
            executor@.password == options.password@,
    {
        let none: Vec<&str> = Vec::new();
        UploadUpdateExecutor {
            options,
            stage: UpdateStage::Idle,
            scanner: StreamScanner::new(&none, &none),
        }
    }

    fn end(&mut self, result: Result<(), String>) -> (next: UpdateNext)
        ensures
            final(self)@ == (UpdateState { stage: UpdateStage::Idle, ..old(self)@ }),
            next == UpdateNext::Finished(result),
    {
        self.stage = UpdateStage::Idle;
        UpdateNext::Finished(result)
    }

    fn go(&mut self, stage: UpdateStage, settle_ms: u32, operation: UpdateOperation) -> (next:
        UpdateNext)
        ensures
            final(self)@ == old(self)@.go(stage, settle_ms, operation@, Seq::empty()).state,
            next == UpdateNext::Perform(settle_ms, operation),
    {
        match stage {
            UpdateStage::AwaitNetwork => {
                let positive: Vec<&str> = vec!["Connected successfully to SSID"];
                let negative: Vec<&str> = Vec::new();
                self.scanner = StreamScanner::new(&positive, &negative);
                assert(str_views(positive@) =~= network_scanner().positive);
                assert(str_views(negative@) =~= network_scanner().negative);
            },
            UpdateStage::AwaitStartup => {
                let positive: Vec<&str> = vec!["starting up"];
                let negative: Vec<&str> = Vec::new();
                self.scanner = StreamScanner::new(&positive, &negative);
                assert(str_views(positive@) =~= startup_scanner().positive);
                assert(str_views(negative@) =~= startup_scanner().negative);
            },
            _ => {},
        }
        self.stage = stage;
        UpdateNext::Perform(settle_ms, operation)
    }

    /// Begins an update: the serial channel is requested. An update that
    /// was under way is given up.
    pub fn begin(&mut self, notices: &mut Vec<LogEvent>) -> (next: UpdateNext)
        ensures
            final(self)@ == old(self)@.begun().state,
            next@ == old(self)@.begun().next,
            crate::logger::entries(final(notices)@) == crate::logger::entries(old(notices)@)
                + old(self)@.begun().events,
    {
        in_progress(notices, "Connecting to serial port...");
        assert(crate::logger::entries(notices@) =~= crate::logger::entries(old(notices)@)
            + old(self)@.begun().events);
        self.go(UpdateStage::OpenSerial, 250, UpdateOperation::OpenSerial)
    }

    /// Goes on once the board has joined the network, with the address
    /// that was found in its log, if one was.
    pub fn located(&mut self, address: Option<String>, notices: &mut Vec<LogEvent>) -> (next:
        UpdateNext)
        ensures
            final(self)@ == old(self)@.located(text_view(address)).state,
            next@ == old(self)@.located(text_view(address)).next,
            crate::logger::entries(final(notices)@) == crate::logger::entries(old(notices)@)
                + old(self)@.located(text_view(address)).events,
    {
        let ghost before = crate::logger::entries(notices@);
        let ghost step = self@.located(text_view(address));
        match self.stage {
            UpdateStage::AwaitNetwork => {},
            _ => {
                assert(before =~= before + step.events);
                return UpdateNext::Idle;
            },
        }
        success(notices, "Found network connection message");
        match address {
            Some(ip) => {
                in_progress(notices, "Flashing...");
                assert(crate::logger::entries(notices@) =~= before + step.events);
                self.go(UpdateStage::Flash, 2000, UpdateOperation::Flash(ip))
            },
            None => {
                error(notices, "No address found in the log");
                assert(crate::logger::entries(notices@) =~= before + step.events);
                self.end(Err(String::from_str("No address found in the log")))
            },
        }
    }

    fn done(&mut self, reply: Result<(), String>, notices: &mut Vec<LogEvent>) -> (next: UpdateNext)
        ensures
            final(self)@ == old(self)@.done(done_view(reply)).state,
            next@ == old(self)@.done(done_view(reply)).next,
            crate::logger::entries(final(notices)@) == crate::logger::entries(old(notices)@)
                + old(self)@.done(done_view(reply)).events,
    {
        let ghost before = crate::logger::entries(notices@);
        let ghost step = self@.done(done_view(reply));
        let stage = self.stage;
        match reply {
            Ok(_) => match stage {
                UpdateStage::OpenSerial => {
                    success(notices, "Serial port opened");
                    assert(crate::logger::entries(notices@) =~= before + step.events);
                    self.go(UpdateStage::ClearBuffers, 0, UpdateOperation::ClearBuffers)
                },
                UpdateStage::ClearBuffers => {
                    in_progress(notices, "Setting WiFi credentials...");
                    assert(crate::logger::entries(notices@) =~= before + step.events);
                    let mut line = String::from_str("SET WIFI \"");
                    line.append(self.options.ssid.as_str());
                    line.append("\" \"");
                    line.append(self.options.password.as_str());
                    line.append("\"\n");
                    self.go(UpdateStage::SetWifi, 0, UpdateOperation::Write(line))
                },
                UpdateStage::SetWifi => {
                    in_progress(notices, "Waiting for network connection");
                    assert(crate::logger::entries(notices@) =~= before + step.events);
                    self.go(UpdateStage::AwaitNetwork, 0, UpdateOperation::ReadSerial)
                },
                UpdateStage::Flash => {
                    success(notices, "Flashing successful");
                    in_progress(notices, "Resetting device to factory defaults...");
                    assert(crate::logger::entries(notices@) =~= before + step.events);
                    self.go(
                        UpdateStage::FactoryReset,
                        2000,
                        UpdateOperation::Write(String::from_str("FRST\n")),
                    )
                },
                UpdateStage::FactoryReset => {
                    in_progress(notices, "Waiting for startup message...");
                    assert(crate::logger::entries(notices@) =~= before + step.events);
                    self.go(UpdateStage::AwaitStartup, 0, UpdateOperation::ReadSerial)
                },
                _ => {
                    assert(before =~= before + step.events);
                    self.end(Err(String::from_str("unexpected reply")))
                },
            },
            Err(e) => {
                match stage {
                    UpdateStage::OpenSerial => {
                        error(
                            notices,
                            String::from_str("Failed to open serial port: ").concat(
                                e.as_str(),
                            ).as_str(),
                        );
                        error(notices, "-> Serial port failed");
                    },
                    UpdateStage::Flash => {
                        error(notices, String::from_str("Flashing: ").concat(e.as_str()).as_str());
                        error(notices, "-> Flashing failed");
                    },
                    _ => {},
                }
                assert(crate::logger::entries(notices@) =~= before + step.events);
                self.end(Err(e))
            },
        }
    }

    /// Takes what the requested operation observed, and says what comes
    /// next. While no update is under way nothing happens.
    pub fn advance(&mut self, observation: Observation, notices: &mut Vec<LogEvent>) -> (next:
        UpdateNext)
        ensures
            final(self)@ == old(self)@.advanced(observation@).state,
            next@ == old(self)@.advanced(observation@).next,
            crate::logger::entries(final(notices)@) == crate::logger::entries(old(notices)@)
                + old(self)@.advanced(observation@).events,
    {
        let ghost before = crate::logger::entries(notices@);
        let stage = self.stage;
        let scanning = match stage {
            UpdateStage::AwaitNetwork | UpdateStage::AwaitStartup => true,
            _ => false,
        };
        let waits_for_network = match stage {
            UpdateStage::AwaitNetwork => true,
            _ => false,
        };
        match stage {
            UpdateStage::Idle => {
                assert(before =~= before + Seq::<Entry>::empty());
                return UpdateNext::Idle;
            },
            _ => {},
        }
        match observation {
            Observation::Chunk(Ok(bytes)) => {
                if !scanning {
                    assert(before =~= before + Seq::<Entry>::empty());
                    return self.end(Err(String::from_str("unexpected reply")));
                }
                match self.scanner.feed(bytes.as_slice()) {
                    None => {
                        assert(before =~= before + Seq::<Entry>::empty());
                        UpdateNext::Perform(0, UpdateOperation::ReadSerial)
                    },
                    Some(Ok(log)) => {
                        if waits_for_network {
                            let address = find_first(ADDRESS_PATTERN, log.as_str());
                            self.located(address, notices)
                        } else {
                            assert(before =~= before + Seq::<Entry>::empty());
                            self.end(Ok(()))
                        }
                    },
                    Some(Err(diagnostic)) => {
                        assert(before =~= before + Seq::<Entry>::empty());
                        self.end(Err(diagnostic))
                    },
                }
            },
            Observation::Chunk(Err(e)) => {
                assert(before =~= before + Seq::<Entry>::empty());
                if !scanning {
                    return self.end(Err(String::from_str("unexpected reply")));
                }
                let diagnostic = self.scanner.fail(e.as_str());
                self.end(Err(diagnostic))
            },
            Observation::Done(reply) => {
                if scanning {
                    assert(before =~= before + Seq::<Entry>::empty());
                    return self.end(Err(String::from_str("unexpected reply")));
                }
                self.done(reply, notices)
            },
            _ => {
                assert(before =~= before + Seq::<Entry>::empty());
                self.end(Err(String::from_str("unexpected reply")))
            },
        }
    }
}

} // verus!
