//! Log lines that carry the stack of stages in which they were written.

use vstd::prelude::*;

verus! {

/// The kind of a log line.
#[derive(Clone, Copy, Debug, PartialEq, Eq, Structural)]
pub enum Level {
    Enter,
    Leave,
    Info,
    Warn,
    Error,
    Fatal,
    Debug,
    Trace,
}

/// The label that a line of the given kind starts with.
pub open spec fn label_of(level: Level) -> Seq<char> {
    match level {
        Level::Enter => "-->"@,
        Level::Leave => "<--"@,
        Level::Info => "INFO"@,
        Level::Warn => "WARN"@,
        Level::Error => "ERROR"@,
        Level::Fatal => "FATAL"@,
        Level::Debug => "DEBUG"@,
        Level::Trace => "TRACE"@,
    }
}

/// The given texts with `"::"` between them.
pub open spec fn joined(stages: Seq<Seq<char>>) -> Seq<char>
    decreases stages.len(),
{
    if stages.len() == 0 {
        Seq::empty()
    } else if stages.len() == 1 {
        stages[0]
    } else {
        joined(stages.drop_last()) + "::"@ + stages.last()
    }
}

/// The stack of stages as it is shown: in square brackets, outermost stage
/// first; nothing at all while no stage is open.
pub open spec fn shown(stages: Seq<Seq<char>>) -> Seq<char> {
    if stages.len() == 0 {
        Seq::empty()
    } else {
        "["@ + joined(stages) + "]"@
    }
}

/// `text`, followed by as many spaces as it lacks to `width` characters.
pub open spec fn padded(text: Seq<char>, width: int) -> Seq<char> {
    if text.len() >= width {
        text
    } else {
        text + Seq::new((width - text.len()) as nat, |k: int| ' ')
    }
}

/// A line as plain values.
pub struct LineModel {
    pub level: Level,
    pub message: Seq<char>,
    pub context: Seq<char>,
}

impl LineModel {
    /// The line as text: the label in a column of 5, the message in a column
    /// of 40, then the stack of stages.
    pub open spec fn text(self) -> Seq<char> {
        padded(label_of(self.level), 5) + " "@ + padded(self.message, 40) + " "@ + self.context
    }
}

/// One log line.
#[derive(Clone, Debug, PartialEq, Eq)]
pub struct LogLine {
    pub level: Level,
    pub message: String,
    /// The stack of stages, as shown.
    pub context: String,
}

impl View for LogLine {
    type V = LineModel;

    open spec fn view(&self) -> LineModel {
        LineModel { level: self.level, message: self.message@, context: self.context@ }
    }
}

/// The views of a list of strings.
pub open spec fn string_views(texts: Seq<String>) -> Seq<Seq<char>> {
    Seq::new(texts.len(), |k: int| texts[k]@)
}

/// Appends spaces to `text` until it is `width` characters long.
fn pad(text: &mut String, width: usize)
    ensures
        final(text)@ == padded(old(text)@, width as int),
{
    let mut len: usize = text.as_str().unicode_len();
    let ghost start = len;
    while len < width
        invariant
            start == old(text)@.len(),
            start <= len,
            len == text@.len(),
            len > start ==> len <= width,
            text@ == old(text)@ + Seq::new((len - start) as nat, |k: int| ' '),
        decreases width - len,
    {
        text.push(' ');
        len += 1;
        assert(text@ =~= old(text)@ + Seq::new((len - start) as nat, |k: int| ' '));
    }
    assert(text@ =~= padded(old(text)@, width as int));
}

impl Level {
    /// The label that a line of this kind starts with.
    pub fn label(self) -> (label: &'static str)
        ensures
            label@ == label_of(self),
    {
        match self {
            Level::Enter => "-->",
            Level::Leave => "<--",
            Level::Info => "INFO",
            Level::Warn => "WARN",
            Level::Error => "ERROR",
            Level::Fatal => "FATAL",
            Level::Debug => "DEBUG",
            Level::Trace => "TRACE",
        }
    }
}

impl LogLine {
    /// The line as text, without colour.
    pub fn text(&self) -> (text: String)
        ensures
            text@ == self@.text(),
    {
        let mut text = String::from_str(self.level.label());
        pad(&mut text, 5);
        text.push(' ');
        let mut message = self.message.clone();
        pad(&mut message, 40);
        text.append(message.as_str());
        text.push(' ');
        text.append(self.context.as_str());
        proof {
            reveal_strlit(" ");
            assert(" "@ =~= seq![' ']);
            assert(text@ =~= self@.text());
        }
        text
    }
}

/// A logger that knows in which stage of the work it is.
pub struct LogCtx {
    stack: Vec<String>,
}

impl View for LogCtx {
    type V = Seq<Seq<char>>;

    /// The open stages, outermost first.
    closed spec fn view(&self) -> Seq<Seq<char>> {
        string_views(self.stack@)
    }
}

impl LogCtx {
    /// A logger with no stage open.
    pub fn new() -> (ctx: LogCtx)
        ensures
            ctx@ == Seq::<Seq<char>>::empty(),
    {
        let ctx = LogCtx { stack: Vec::new() };
        assert(ctx@ =~= Seq::<Seq<char>>::empty());
        ctx
    }

    /// The stack of stages, as shown.
    pub fn context(&self) -> (context: String)
        ensures
            context@ == shown(self@),
    {
        if self.stack.len() == 0 {
            return String::new();
        }
        let mut context = String::from_str("[");
        context.append(self.stack[0].as_str());
        let mut i: usize = 1;
        assert(self@.take(1) =~= seq![self@[0]]);
        while i < self.stack.len()
            invariant
                1 <= i <= self.stack.len(),
                context@ == "["@ + joined(self@.take(i as int)),
            decreases self.stack.len() - i,
        {
            context.append("::");
            context.append(self.stack[i].as_str());
            i += 1;
            assert(self@.take(i as int).drop_last() =~= self@.take(i - 1));
            assert(context@ =~= "["@ + joined(self@.take(i as int)));
        }
        assert(self@.take(i as int) =~= self@);
        context.append("]");
        context
    }

    fn log(&self, level: Level, message: String) -> (line: LogLine)
        ensures
            line@ == (LineModel { level, message: message@, context: shown(self@) }),
    {
        LogLine { level, message, context: self.context() }
    }

    /// Opens a stage and says so.
    pub fn enter(&mut self, stage: &str) -> (line: LogLine)
        ensures
            final(self)@ == old(self)@.push(stage@),
            line@ == (LineModel {
                level: Level::Enter,
                message: "Entering stage: "@ + stage@,
                context: shown(final(self)@),
            }),
    {
        self.stack.push(String::from_str(stage));
        assert(self@ =~= old(self)@.push(stage@));
        self.log(Level::Enter, String::from_str("Entering stage: ").concat(stage))
    }

    /// Closes the innermost stage and says so.
    pub fn leave(&mut self) -> (line: LogLine)
        requires
            old(self)@.len() > 0,
        ensures
            final(self)@ == old(self)@.drop_last(),
            line@ == (LineModel {
                level: Level::Leave,
                message: "Leaving stage: "@ + old(self)@.last(),
                context: shown(final(self)@),
            }),
    {
        let stage = self.stack.pop().unwrap();
        assert(self@ =~= old(self)@.drop_last());
        self.log(Level::Leave, String::from_str("Leaving stage: ").concat(stage.as_str()))
    }

    /// The line for a piece of news, in the stages that are open.
    pub fn info(&self, msg: &str) -> (line: LogLine)
        ensures
            line@ == (LineModel { level: Level::Info, message: msg@, context: shown(self@) }),
    {
        self.log(Level::Info, String::from_str(msg))
    }

    /// The line for a warning, in the stages that are open.
    pub fn warn(&self, msg: &str) -> (line: LogLine)
        ensures
            line@ == (LineModel { level: Level::Warn, message: msg@, context: shown(self@) }),
    {
        self.log(Level::Warn, String::from_str(msg))
    }

    /// The line for an error, in the stages that are open.
    pub fn error(&self, msg: &str) -> (line: LogLine)
        ensures
            line@ == (LineModel { level: Level::Error, message: msg@, context: shown(self@) }),
    {
        self.log(Level::Error, String::from_str(msg))
    }

    /// The line for an error that ends the work, in the stages that are open.
    pub fn fatal(&self, msg: &str) -> (line: LogLine)
        ensures
            line@ == (LineModel { level: Level::Fatal, message: msg@, context: shown(self@) }),
    {
        self.log(Level::Fatal, String::from_str(msg))
    }

    /// The line for a detail for whoever looks for a fault, in the stages that are open.
    pub fn debug(&self, msg: &str) -> (line: LogLine)
        ensures
            line@ == (LineModel { level: Level::Debug, message: msg@, context: shown(self@) }),
    {
        self.log(Level::Debug, String::from_str(msg))
    }

    /// The line for a step of the work, in the stages that are open.
    pub fn trace(&self, msg: &str) -> (line: LogLine)
        ensures
            line@ == (LineModel { level: Level::Trace, message: msg@, context: shown(self@) }),
    {
        self.log(Level::Trace, String::from_str(msg))
    }
}

} // verus!
