//! Scanning a line-oriented stream, as it arrives, for the first line that
//! settles a check.
//!
//! A scanner is given a set of positive and a set of negative patterns. Text
//! is fed to it chunk by chunk. Each complete line is held against the
//! patterns, the positive ones first: a line that contains a positive pattern
//! ends the scan with success, even if it also contains a negative one; a line
//! that contains only a negative pattern ends it with failure.

use vstd::prelude::*;
use crate::text::{
    any_occurs_in, chars_of, chars_of_all, contains_any, decode_lossy, extend, find_from,
    lemma_next_index_of, next_index_of, remove_all, slice_of, str_views, text_of, utf8_lossy, views,
    without,
};

verus! {

/// What a pass over buffered text finds.
pub enum Scan {
    /// No complete line settles the check; `rest` is the unfinished last line.
    Pending { rest: Seq<char> },
    /// `line` holds a positive pattern; `rest` is what follows its newline.
    Positive { line: Seq<char>, rest: Seq<char> },
    /// `line` holds a negative pattern and no positive one.
    Negative { line: Seq<char>, rest: Seq<char> },
}

/// Passes over the complete lines of `buf`, starting at `from`, and stops at
/// the first that holds a pattern.
pub open spec fn scan_from(
    buf: Seq<char>,
    from: int,
    positive: Seq<Seq<char>>,
    negative: Seq<Seq<char>>,
) -> Scan
    decreases buf.len() - from,
{
    let end = next_index_of(buf, '\n', from);
    if from < 0 || end >= buf.len() {
        Scan::Pending { rest: buf.subrange(from, buf.len() as int) }
    } else {
        let line = buf.subrange(from, end);
        let rest = buf.subrange(end + 1, buf.len() as int);
        if any_occurs_in(line, positive) {
            Scan::Positive { line, rest }
        } else if any_occurs_in(line, negative) {
            Scan::Negative { line, rest }
        } else {
            proof {
                lemma_next_index_of(buf, '\n', from);
            }
            scan_from(buf, end + 1, positive, negative)
        }
    }
}

/// The state of a scanner as plain values.
pub struct ScannerState {
    pub positive: Seq<Seq<char>>,
    pub negative: Seq<Seq<char>>,
    /// Everything fed so far.
    pub full_log: Seq<char>,
    /// The text that no pass has consumed yet.
    pub line_buffer: Seq<char>,
}

/// How a scan ends: the log on success, a diagnostic on failure.
pub type Verdict = Result<Seq<char>, Seq<char>>;

impl ScannerState {
    /// A scanner that has seen no text.
    pub open spec fn start(positive: Seq<Seq<char>>, negative: Seq<Seq<char>>) -> ScannerState {
        ScannerState { positive, negative, full_log: Seq::empty(), line_buffer: Seq::empty() }
    }

    /// The pass that feeding `text` sets off.
    pub open spec fn pass(self, text: Seq<char>) -> Scan {
        scan_from(self.line_buffer + text, 0, self.positive, self.negative)
    }

    /// The state after `text` was fed.
    pub open spec fn fed(self, text: Seq<char>) -> ScannerState {
        let rest = match self.pass(text) {
            Scan::Pending { rest } => rest,
            Scan::Positive { line, rest } => rest,
            Scan::Negative { line, rest } => rest,
        };
        ScannerState { full_log: self.full_log + text, line_buffer: rest, ..self }
    }

    /// What feeding `text` reports: nothing while no line settles the check,
    /// the whole log on a positive line, and on a negative line the whole
    /// log followed by a note that names the line.
    pub open spec fn verdict(self, text: Seq<char>) -> Option<Verdict> {
        match self.pass(text) {
            Scan::Pending { rest } => None,
            Scan::Positive { line, rest } => Some(Ok(self.full_log + text)),
            Scan::Negative { line, rest } => Some(
                Err(self.full_log + text + "negative match: "@ + line),
            ),
        }
    }

    /// The diagnostic for a source that failed with `error`: it carries the
    /// log gathered so far.
    pub open spec fn failure(self, error: Seq<char>) -> Seq<char> {
        "Lines: "@ + self.full_log + "\nError: "@ + error
    }
}

/// A chunk of bytes as the text that is scanned: decoded leniently, with
/// NUL characters dropped.
pub open spec fn chunk_text(bytes: Seq<u8>) -> Seq<char> {
    without(utf8_lossy(bytes), '\0')
}

/// The verdict of a report as plain values.
pub open spec fn verdict_view(r: Result<String, String>) -> Verdict {
    match r {
        Ok(log) => Ok(log@),
        Err(diagnostic) => Err(diagnostic@),
    }
}

/// What a call of `feed` hands back, as plain values.
pub open spec fn report_view(r: Option<Result<String, String>>) -> Option<Verdict> {
    match r {
        Some(v) => Some(verdict_view(v)),
        None => None,
    }
}

/// The outcome of scanning a recorded source: `reads` holds, in order, what
/// each read call gave, a chunk or an error. The scan ends at the first
/// verdict or read error; a source that runs dry first has failed.
pub open spec fn scan_reads(state: ScannerState, reads: Seq<Result<Vec<u8>, String>>, next: int)
    -> Verdict
    decreases reads.len() - next,
{
    if next < 0 || next >= reads.len() {
        Err(state.failure("end of stream"@))
    } else {
        match reads[next] {
            Err(error) => Err(state.failure(error@)),
            Ok(bytes) => {
                let text = chunk_text(bytes@);
                match state.verdict(text) {
                    Some(v) => v,
                    None => scan_reads(state.fed(text), reads, next + 1),
                }
            },
        }
    }
}

/// The text of a chunk as it was read from the source: decoded leniently,
/// with NUL characters dropped.
pub fn read_string(chunk: &[u8]) -> (text: String)
    ensures
        text@ == chunk_text(chunk@),
{
    let decoded = decode_lossy(chunk);
    text_of(&remove_all(&chars_of(decoded.as_str()), '\0'))
}

/// An incremental scanner over a stream of text.
pub struct StreamScanner {
    positive: Vec<Vec<char>>,
    negative: Vec<Vec<char>>,
    full_log: Vec<char>,
    line_buffer: Vec<char>,
}

impl View for StreamScanner {
    type V = ScannerState;

    closed spec fn view(&self) -> ScannerState {
        ScannerState {
            positive: views(self.positive@),
            negative: views(self.negative@),
            full_log: self.full_log@,
            line_buffer: self.line_buffer@,
        }
    }
}

impl StreamScanner {
    /// A scanner for the given patterns that has seen no text.
    pub fn new(positive: &Vec<&str>, negative: &Vec<&str>) -> (s: StreamScanner)
        ensures
            s@ == ScannerState::start(str_views(positive@), str_views(negative@)),
    {
        StreamScanner {
            positive: chars_of_all(positive),
            negative: chars_of_all(negative),
            full_log: Vec::new(),
            line_buffer: Vec::new(),
        }
    }

    /// Everything fed so far.
    pub fn full_log(&self) -> (log: String)
        ensures
            log@ == self@.full_log,
    {
        text_of(&self.full_log)
    }

    /// The text that no pass has consumed yet.
    pub fn line_buffer(&self) -> (rest: String)
        ensures
            rest@ == self@.line_buffer,
    {
        text_of(&self.line_buffer)
    }

    /// Appends `incoming` to the log and passes over the buffered lines.
    fn feed_chars(&mut self, incoming: &Vec<char>) -> (r: Option<Result<String, String>>)
        ensures
            final(self)@ == old(self)@.fed(incoming@),
            report_view(r) == old(self)@.verdict(incoming@),
    {
        extend(&mut self.full_log, incoming);
        extend(&mut self.line_buffer, incoming);
        let ghost buf = self.line_buffer@;
        let len: usize = self.line_buffer.len();
        let mut from: usize = 0;
        loop
            invariant
                from <= len,
                len == buf.len(),
                self.line_buffer@ == buf,
                buf == old(self).line_buffer@ + incoming@,
                self.full_log@ == old(self).full_log@ + incoming@,
                self.positive == old(self).positive,
                self.negative == old(self).negative,
                scan_from(buf, from as int, old(self)@.positive, old(self)@.negative)
                    == old(self)@.pass(incoming@),
            decreases len - from,
        {
            let end = find_from(&self.line_buffer, '\n', from);
            if end >= len {
                self.line_buffer = slice_of(&self.line_buffer, from, len);
                return None;
            }
            let line = slice_of(&self.line_buffer, from, end);
            let rest = slice_of(&self.line_buffer, end + 1, len);
            if contains_any(&line, &self.positive) {
                self.line_buffer = rest;
                return Some(Ok(text_of(&self.full_log)));
            }
            if contains_any(&line, &self.negative) {
                self.line_buffer = rest;
                let mut diagnostic = text_of(&self.full_log);
                diagnostic.append("negative match: ");
                diagnostic.append(text_of(&line).as_str());
                return Some(Err(diagnostic));
            }
            from = end + 1;
        }
    }

    /// Feeds decoded text: drops its NUL characters, appends the rest to the
    /// log, and passes over the lines that are now complete.
    pub fn feed_text(&mut self, decoded: &str) -> (r: Option<Result<String, String>>)
        ensures
            final(self)@ == old(self)@.fed(without(decoded@, '\0')),
            report_view(r) == old(self)@.verdict(without(decoded@, '\0')),
    {
        let incoming = remove_all(&chars_of(decoded), '\0');
        self.feed_chars(&incoming)
    }

    /// Feeds one chunk as it was read from the source.
    pub fn feed(&mut self, chunk: &[u8]) -> (r: Option<Result<String, String>>)
        ensures
            final(self)@ == old(self)@.fed(chunk_text(chunk@)),
            report_view(r) == old(self)@.verdict(chunk_text(chunk@)),
    {
        let decoded = decode_lossy(chunk);
        self.feed_text(decoded.as_str())
    }

    /// The diagnostic to report when the source fails with `error`.
    pub fn fail(&self, error: &str) -> (diagnostic: String)
        ensures
            diagnostic@ == self@.failure(error@),
    {
        let mut diagnostic = String::from_str("Lines: ");
        diagnostic.append(text_of(&self.full_log).as_str());
        diagnostic.append("\nError: ");
        diagnostic.append(error);
        diagnostic
    }
}

/// Scans a recorded source until a line settles the check, a read fails, or
/// the record ends.
pub fn read_string_until(
    reads: &Vec<Result<Vec<u8>, String>>,
    positive: Vec<&str>,
    negative: Vec<&str>,
) -> (r: Result<String, String>)
    ensures
        verdict_view(r) == scan_reads(
            ScannerState::start(str_views(positive@), str_views(negative@)),
            reads@,
            0,
        ),
{
    let mut scanner = StreamScanner::new(&positive, &negative);
    let ghost start = scanner@;
    let mut next: usize = 0;
    while next < reads.len()
        invariant
            next <= reads.len(),
            start == ScannerState::start(str_views(positive@), str_views(negative@)),
            scan_reads(scanner@, reads@, next as int) == scan_reads(start, reads@, 0),
        decreases reads.len() - next,
    {
        match &reads[next] {
            Err(error) => {
                return Err(scanner.fail(error.as_str()));
            },
            Ok(bytes) => {
                match scanner.feed(bytes.as_slice()) {
                    Some(v) => {
                        return v;
                    },
                    None => {},
                }
            },
        }
        next += 1;
    }
    Err(scanner.fail("end of stream"))
}

} // verus!
