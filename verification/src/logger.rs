//! The status bus between the worker and the screen.
//!
//! A `Logger` is the sending side: each call queues one event. A `Renderer`
//! is the receiving side: it keeps the list of events that are on screen.
//! An event that reports progress is transient: the next event takes its
//! place. The marks that tell a passed check from a failed one are put
//! before the text where the lines of a frame are made.

use vstd::prelude::*;

verus! {

/// The colour of a full-screen wash.
#[derive(Clone, Copy, Debug, PartialEq, Eq, Structural)]
pub enum Color {
    Green,
    Red,
}

/// A status update.
#[derive(Clone, Debug, PartialEq, Eq)]
pub enum LogEvent {
    Success(String),
    Error(String),
    InProgress(String),
    Action(String),
    /// Wash the rest of the screen in a colour.
    Fill(Color),
    /// Clear the screen.
    Reset,
}

/// A status update as plain values.
pub enum Entry {
    Success(Seq<char>),
    Error(Seq<char>),
    InProgress(Seq<char>),
    Action(Seq<char>),
    Fill(Color),
    Reset,
}

impl View for LogEvent {
    type V = Entry;

    open spec fn view(&self) -> Entry {
        match *self {
            LogEvent::Success(text) => Entry::Success(text@),
            LogEvent::Error(text) => Entry::Error(text@),
            LogEvent::InProgress(text) => Entry::InProgress(text@),
            LogEvent::Action(text) => Entry::Action(text@),
            LogEvent::Fill(color) => Entry::Fill(color),
            LogEvent::Reset => Entry::Reset,
        }
    }
}

/// The views of a list of events.
pub open spec fn entries(events: Seq<LogEvent>) -> Seq<Entry> {
    Seq::new(events.len(), |k: int| events[k]@)
}

/// The list without a progress report at its end.
pub open spec fn without_transient(history: Seq<Entry>) -> Seq<Entry> {
    if history.len() > 0 && history.last() is InProgress {
        history.drop_last()
    } else {
        history
    }
}

/// The list on screen after `event` arrived: a reset clears it; any other
/// event is appended, after a progress report at the end of the list was
/// removed.
pub open spec fn collapse(history: Seq<Entry>, event: Entry) -> Seq<Entry> {
    match event {
        Entry::Reset => Seq::empty(),
        _ => without_transient(history).push(event),
    }
}

/// The list on screen after `events` arrived in order.
pub open spec fn replay(history: Seq<Entry>, events: Seq<Entry>) -> Seq<Entry>
    decreases events.len(),
{
    if events.len() == 0 {
        history
    } else {
        collapse(replay(history, events.drop_last()), events.last())
    }
}

/// No reset is kept on screen.
pub open spec fn no_reset(history: Seq<Entry>) -> bool {
    forall|i: int| 0 <= i < history.len() ==> !(#[trigger] history[i] is Reset)
}

/// Nothing but the last entry is a progress report.
pub open spec fn settled(history: Seq<Entry>) -> bool {
    forall|i: int| 0 <= i < history.len() - 1 ==> !(#[trigger] history[i] is InProgress)
}

/// The mark before the text of a passed check.
pub open spec fn tick() -> Seq<char> {
    "✓ "@
}

/// The mark before the text of a failed check.
pub open spec fn cross() -> Seq<char> {
    "╳ "@
}

/// The tone in which a line is drawn.
#[derive(Clone, Copy, Debug, PartialEq, Eq, Structural)]
pub enum Tone {
    Green,
    Red,
    White,
    BrightBlue,
}

/// The line that an entry is drawn as, if it is drawn as a line: its text,
/// after a tick for a passed check and a cross for a failed one.
pub open spec fn line_of(entry: Entry) -> Option<(Tone, Seq<char>)> {
    match entry {
        Entry::Success(text) => Some((Tone::Green, tick() + text)),
        Entry::Error(text) => Some((Tone::Red, cross() + text)),
        Entry::InProgress(text) => Some((Tone::White, text)),
        Entry::Action(text) => Some((Tone::BrightBlue, text)),
        Entry::Fill(_) => None,
        Entry::Reset => None,
    }
}

/// The lines that a list of entries is drawn as, in order.
pub open spec fn lines_of(history: Seq<Entry>) -> Seq<(Tone, Seq<char>)>
    decreases history.len(),
{
    if history.len() == 0 {
        Seq::empty()
    } else {
        match line_of(history.last()) {
            Some(line) => lines_of(history.drop_last()).push(line),
            None => lines_of(history.drop_last()),
        }
    }
}

/// The wash below the lines: there is one where the last entry asks for it.
/// It fills the rows that the lines and the cursor's row leave free.
pub open spec fn wash_of(history: Seq<Entry>, rows: int) -> Option<(Color, int)> {
    if history.len() > 0 && history.last() is Fill {
        let free = rows - lines_of(history).len() - 1;
        Some((history.last()->Fill_0, if free > 0 { free } else { 0 }))
    } else {
        None
    }
}

/// One line of a frame.
#[derive(Clone, Debug, PartialEq, Eq)]
pub struct Line {
    pub tone: Tone,
    pub text: String,
}

/// A wash of `rows` rows, each `columns` wide.
#[derive(Clone, Copy, Debug, PartialEq, Eq, Structural)]
pub struct Wash {
    pub color: Color,
    pub rows: usize,
    pub columns: u16,
}

/// What is drawn on a cleared screen.
#[derive(Clone, Debug, PartialEq, Eq)]
pub struct Frame {
    pub lines: Vec<Line>,
    pub wash: Option<Wash>,
}

/// The lines of a frame as plain values.
pub open spec fn line_views(lines: Seq<Line>) -> Seq<(Tone, Seq<char>)> {
    Seq::new(lines.len(), |k: int| (lines[k].tone, lines[k].text@))
}

/// A copy of an event.
pub fn copy_of(event: &LogEvent) -> (r: LogEvent)
    ensures
        r@ == event@,
{
    match event {
        LogEvent::Success(text) => LogEvent::Success(text.clone()),
        LogEvent::Error(text) => LogEvent::Error(text.clone()),
        LogEvent::InProgress(text) => LogEvent::InProgress(text.clone()),
        LogEvent::Action(text) => LogEvent::Action(text.clone()),
        LogEvent::Fill(color) => LogEvent::Fill(*color),
        LogEvent::Reset => LogEvent::Reset,
    }
}

/// Makes the two ends of a bus.
pub struct LoggerBuilder {}

/// The receiving end: the list of events on screen.
pub struct Renderer {
    events: Vec<LogEvent>,
}

/// The sending end: the events that were sent and not yet taken.
pub struct Logger {
    pending: Vec<LogEvent>,
}

impl LoggerBuilder {
    /// A renderer with an empty screen and a logger with nothing pending.
    pub fn split() -> (ends: (Renderer, Logger))
        ensures
            ends.0@ == Seq::<Entry>::empty(),
            ends.1@ == Seq::<Entry>::empty(),
    {
        let renderer = Renderer { events: Vec::new() };
        let logger = Logger { pending: Vec::new() };
        assert(renderer@ =~= Seq::<Entry>::empty());
        assert(logger@ =~= Seq::<Entry>::empty());
        (renderer, logger)
    }
}

impl View for Renderer {
    type V = Seq<Entry>;

    closed spec fn view(&self) -> Seq<Entry> {
        entries(self.events@)
    }
}

impl Renderer {
    /// Takes in one event. A progress report never stays on screen once
    /// another event has arrived.
    pub fn receive(&mut self, event: LogEvent)
        ensures
            final(self)@ == collapse(old(self)@, event@),
            settled(old(self)@) ==> settled(final(self)@),
    {
        proof {
            if settled(self@) {
                lemma_collapse_settled(self@, event@);
            }
        }
        let ghost before = self.events@;
        match event {
            LogEvent::Reset => {
                self.events = Vec::new();
                assert(entries(self.events@) =~= Seq::<Entry>::empty());
            },
            _ => {
                let n = self.events.len();
                let transient = n > 0 && match &self.events[n - 1] {
                    LogEvent::InProgress(_) => true,
                    _ => false,
                };
                if transient {
                    self.events.pop();
                    assert(entries(self.events@) =~= entries(before).drop_last());
                }
                let ghost kept = self.events@;
                self.events.push(event);
                assert(entries(self.events@) =~= entries(kept).push(event@));
            },
        }
    }

    /// Takes in a batch of events in the order in which they were sent.
    pub fn run(&mut self, received: Vec<LogEvent>)
        ensures
            final(self)@ == replay(old(self)@, entries(received@)),
            settled(old(self)@) ==> settled(final(self)@),
    {
        proof {
            if settled(self@) {
                lemma_progress_is_transient(self@, entries(received@));
            }
        }
        let mut received = received;
        let ghost all = entries(received@);
        let mut i: usize = 0;
        while i < received.len()
            invariant
                i <= received.len(),
                entries(received@) == all,
                self@ == replay(old(self)@, all.take(i as int)),
            decreases received.len() - i,
        {
            let event = copy_of(&received[i]);
            self.receive(event);
            i += 1;
            assert(all.take(i as int).drop_last() =~= all.take(i - 1));
        }
        assert(all.take(i as int) =~= all);
    }

    /// The events on screen, oldest first.
    pub fn history(&self) -> (events: Vec<LogEvent>)
        ensures
            entries(events@) == self@,
    {
        let mut events: Vec<LogEvent> = Vec::new();
        let mut i: usize = 0;
        while i < self.events.len()
            invariant
                i <= self.events.len(),
                entries(events@) == entries(self.events@).take(i as int),
            decreases self.events.len() - i,
        {
            let ghost copied = events@;
            events.push(copy_of(&self.events[i]));
            assert(entries(events@) =~= entries(copied).push(self.events@[i as int]@));
            i += 1;
            assert(entries(events@) =~= entries(self.events@).take(i as int));
        }
        assert(entries(self.events@).take(i as int) =~= entries(self.events@));
        events
    }

    /// What to draw on a cleared screen of `rows` rows and `columns`
    /// columns. Drawing reads the list and leaves it as it is.
    pub fn frame(&self, columns: u16, rows: u16) -> (frame: Frame)
        ensures
            line_views(frame.lines@) == lines_of(self@),
            match wash_of(self@, rows as int) {
                Some((color, free)) => frame.wash == Some(
                    (Wash { color, rows: free as usize, columns }),
                ),
                None => frame.wash is None,
            },
    {
        let mut lines: Vec<Line> = Vec::new();
        let ghost history = entries(self.events@);
        let mut i: usize = 0;
        while i < self.events.len()
            invariant
                i <= self.events.len(),
                history == entries(self.events@),
                line_views(lines@) == lines_of(history.take(i as int)),
            decreases self.events.len() - i,
        {
            let ghost drawn = lines@;
            proof {
                assert(history.take(i + 1).drop_last() =~= history.take(i as int));
            }
            match &self.events[i] {
                LogEvent::Success(text) => {
                    let marked = String::from_str("✓ ").concat(text.as_str());
                    lines.push(Line { tone: Tone::Green, text: marked });
                    assert(line_views(lines@) =~= line_views(drawn).push(
                        (Tone::Green, tick() + text@),
                    ));
                },
                LogEvent::Error(text) => {
                    let marked = String::from_str("╳ ").concat(text.as_str());
                    lines.push(Line { tone: Tone::Red, text: marked });
                    assert(line_views(lines@) =~= line_views(drawn).push(
                        (Tone::Red, cross() + text@),
                    ));
                },
                LogEvent::InProgress(text) => {
                    lines.push(Line { tone: Tone::White, text: text.clone() });
                    assert(line_views(lines@) =~= line_views(drawn).push((Tone::White, text@)));
                },
                LogEvent::Action(text) => {
                    lines.push(Line { tone: Tone::BrightBlue, text: text.clone() });
                    assert(line_views(lines@) =~= line_views(drawn).push(
                        (Tone::BrightBlue, text@),
                    ));
                },
                LogEvent::Fill(_) => {},
                LogEvent::Reset => {},
            }
            i += 1;
        }
        assert(history.take(i as int) =~= history);
        let n = self.events.len();
        let wash = if n > 0 {
            match &self.events[n - 1] {
                LogEvent::Fill(color) => {
                    let taken: usize = lines.len();
                    let rows: usize = rows as usize;
                    let free: usize = if rows > taken && rows - taken > 1 {
                        rows - taken - 1
                    } else {
                        0
                    };
                    Some(Wash { color: *color, rows: free, columns })
                },
                _ => None,
            }
        } else {
            None
        };
        Frame { lines, wash }
    }
}

impl View for Logger {
    type V = Seq<Entry>;

    closed spec fn view(&self) -> Seq<Entry> {
        entries(self.pending@)
    }
}

impl Logger {
    fn send(&mut self, event: LogEvent)
        ensures
            final(self)@ == old(self)@.push(event@),
    {
        self.pending.push(event);
        assert(entries(self.pending@) =~= entries(old(self).pending@).push(event@));
    }

    /// Reports that a check passed.
    pub fn success(&mut self, msg: &str)
        ensures
            final(self)@ == old(self)@.push(Entry::Success(msg@)),
    {
        self.send(LogEvent::Success(String::from_str(msg)));
    }

    /// Reports that a check failed.
    pub fn error(&mut self, msg: &str)
        ensures
            final(self)@ == old(self)@.push(Entry::Error(msg@)),
    {
        self.send(LogEvent::Error(String::from_str(msg)));
    }

    /// Reports what is being done right now.
    pub fn in_progress(&mut self, msg: &str)
        ensures
            final(self)@ == old(self)@.push(Entry::InProgress(msg@)),
    {
        self.send(LogEvent::InProgress(String::from_str(msg)));
    }

    /// Asks the operator to do something.
    pub fn action(&mut self, msg: &str)
        ensures
            final(self)@ == old(self)@.push(Entry::Action(msg@)),
    {
        self.send(LogEvent::Action(String::from_str(msg)));
    }

    /// Asks for a wash of the screen in `color`.
    pub fn fill(&mut self, color: Color)
        ensures
            final(self)@ == old(self)@.push(Entry::Fill(color)),
    {
        self.send(LogEvent::Fill(color));
    }

    /// Asks for the screen to be cleared.
    pub fn reset(&mut self)
        ensures
            final(self)@ == old(self)@.push(Entry::Reset),
    {
        self.send(LogEvent::Reset);
    }

    /// Hands out the pending events, oldest first, and leaves none pending.
    pub fn take(&mut self) -> (events: Vec<LogEvent>)
        ensures
            entries(events@) == old(self)@,
            final(self)@ == Seq::<Entry>::empty(),
    {
        let mut events: Vec<LogEvent> = Vec::new();
        std::mem::swap(&mut events, &mut self.pending);
        assert(entries(self.pending@) =~= Seq::<Entry>::empty());
        events
    }
}

/// A reset is never kept on screen: a list free of resets stays free of
/// them, whatever arrives.
pub proof fn lemma_no_reset_on_screen(history: Seq<Entry>, events: Seq<Entry>)
    requires
        no_reset(history),
    ensures
        no_reset(replay(history, events)),
    decreases events.len(),
{
    if events.len() > 0 {
        lemma_no_reset_on_screen(history, events.drop_last());
    }
}

/// An arriving event leaves at most one progress report on screen, and at
/// the end: if nothing but the last entry was a progress report before, the
/// same holds after.
pub proof fn lemma_collapse_settled(history: Seq<Entry>, event: Entry)
    requires
        settled(history),
    ensures
        settled(collapse(history, event)),
        collapse(history, event).len() > 0 && collapse(history, event).last() is InProgress
            ==> event is InProgress,
{
    let kept = without_transient(history);
    assert forall|i: int| 0 <= i < kept.len() implies !(#[trigger] kept[i] is InProgress) by {
        assert(kept[i] == history[i]);
    }
    if !(event is Reset) {
        let after = kept.push(event);
        assert forall|i: int| 0 <= i < after.len() - 1 implies !(#[trigger] after[i]
            is InProgress) by {
            assert(after[i] == kept[i]);
        }
    }
}

/// Progress reports never accumulate: whatever arrives, in whatever order,
/// nothing but the last entry on screen is a progress report, and the last
/// is one only while a progress report is the last event that arrived.
pub proof fn lemma_progress_is_transient(history: Seq<Entry>, events: Seq<Entry>)
    requires
        settled(history),
    ensures
        settled(replay(history, events)),
        events.len() > 0 && replay(history, events).len() > 0 && replay(history, events).last()
            is InProgress ==> events.last() is InProgress,
    decreases events.len(),
{
    if events.len() > 0 {
        lemma_progress_is_transient(history, events.drop_last());
        lemma_collapse_settled(replay(history, events.drop_last()), events.last());
    }
}

} // verus!
