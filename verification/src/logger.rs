//! The structured logger: an append-only entry sequence with a saturating
//! indent counter, so an extension's progress is captured as a nested,
//! leveled log and handed over whole once a run finishes.

use vstd::prelude::*;

verus! {

/// Severity of one log entry.
#[derive(Clone, Copy, PartialEq, Eq, Structural, Debug)]
pub enum LogLevel {
    Info,
    Warn,
    Error,
    Success,
}

/// One log entry: severity, message, optional detail, and the nesting
/// depth at which it was appended.
#[derive(Clone, Debug, PartialEq, Eq)]
pub struct LogEntry {
    pub level: LogLevel,
    pub message: String,
    pub detail: Option<String>,
    pub indent: u8,
}

/// View of one log entry.
pub struct EntryView {
    pub level: LogLevel,
    pub message: Seq<char>,
    pub detail: Option<Seq<char>>,
    pub indent: u8,
}

impl View for LogEntry {
    type V = EntryView;

    open spec fn view(&self) -> EntryView {
        EntryView {
            level: self.level,
            message: self.message@,
            detail: self.detail.deep_view(),
            indent: self.indent,
        }
    }
}

impl DeepView for LogEntry {
    type V = EntryView;

    open spec fn deep_view(&self) -> EntryView {
        self@
    }
}

/// The entry a plain leveled message appends at a given depth.
pub open spec fn plain_entry(level: LogLevel, message: Seq<char>, indent: u8) -> EntryView {
    EntryView { level, message, detail: None, indent }
}

/// The entry a label/detail pair appends at a given depth.
pub open spec fn detail_entry(message: Seq<char>, detail: Seq<char>, indent: u8) -> EntryView {
    EntryView { level: LogLevel::Info, message, detail: Some(detail), indent }
}

/// The terminal outcome of one run: a success flag, a human summary, and
/// the whole ordered log.
#[derive(Debug)]
pub struct RunResult {
    pub ok: bool,
    pub message: String,
    pub logs: Vec<LogEntry>,
}

/// View of a run outcome.
pub struct RunResultView {
    pub ok: bool,
    pub message: Seq<char>,
    pub logs: Seq<EntryView>,
}

impl View for RunResult {
    type V = RunResultView;

    open spec fn view(&self) -> RunResultView {
        RunResultView { ok: self.ok, message: self.message@, logs: self.logs.deep_view() }
    }
}

/// One nesting step of the indent counter, saturating at the top.
pub open spec fn indent_up(i: u8) -> u8 {
    if i < 255 {
        (i + 1) as u8
    } else {
        255
    }
}

/// One unnesting step of the indent counter, saturating at zero.
pub open spec fn indent_down(i: u8) -> u8 {
    if i > 0 {
        (i - 1) as u8
    } else {
        0
    }
}

/// The append-only log buffer with its current nesting depth.
pub struct Logger {
    logs: Vec<LogEntry>,
    indent: u8,
}

/// View of the logger: the entries so far and the current depth.
pub struct LoggerView {
    pub logs: Seq<EntryView>,
    pub indent: u8,
}

impl View for Logger {
    type V = LoggerView;

    closed spec fn view(&self) -> LoggerView {
        LoggerView { logs: self.logs.deep_view(), indent: self.indent }
    }
}

/// A block of work run with the logger one level deeper; `group` logs a
/// section title and then runs the body indented under it.
pub trait GroupBody {
    /// The entries the body appends when run at the given depth.
    spec fn appended(&self, indent: u8) -> Seq<EntryView>;

    /// Runs the body; it may only append, and must leave the depth alone.
    fn run(&self, logger: &mut Logger)
        ensures
            final(logger)@.logs == old(logger)@.logs + self.appended(old(logger)@.indent),
            final(logger)@.indent == old(logger)@.indent,
    ;
}

impl Logger {
    /// An empty log at depth zero.
    pub fn new() -> (r: Logger)
        ensures
            r@.logs == Seq::<EntryView>::empty(),
            r@.indent == 0,
    {
        Logger { logs: Vec::new(), indent: 0 }
    }

    fn push(&mut self, level: LogLevel, message: String, detail: Option<String>)
        ensures
            final(self)@.logs == old(self)@.logs.push(EntryView {
                level,
                message: message@,
                detail: detail.deep_view(),
                indent: old(self)@.indent,
            }),
            final(self)@.indent == old(self)@.indent,
    {
        let indent = self.indent;
        self.logs.push(LogEntry { level, message, detail, indent });
        proof {
            assert(self@.logs =~= old(self)@.logs.push(self.logs@.last()@));
        }
    }

    /// Appends an informational message at the current depth.
    pub fn info(&mut self, message: &str)
        ensures
            final(self)@.logs == old(self)@.logs.push(
                plain_entry(LogLevel::Info, message@, old(self)@.indent),
            ),
            final(self)@.indent == old(self)@.indent,
    {
        self.push(LogLevel::Info, message.to_owned(), None);
    }

    /// Appends a warning at the current depth.
    pub fn warn(&mut self, message: &str)
        ensures
            final(self)@.logs == old(self)@.logs.push(
                plain_entry(LogLevel::Warn, message@, old(self)@.indent),
            ),
            final(self)@.indent == old(self)@.indent,
    {
        self.push(LogLevel::Warn, message.to_owned(), None);
    }

    /// Appends an error at the current depth.
    pub fn error(&mut self, message: &str)
        ensures
            final(self)@.logs == old(self)@.logs.push(
                plain_entry(LogLevel::Error, message@, old(self)@.indent),
            ),
            final(self)@.indent == old(self)@.indent,
    {
        self.push(LogLevel::Error, message.to_owned(), None);
    }

    /// Appends a success marker at the current depth.
    pub fn success(&mut self, message: &str)
        ensures
            final(self)@.logs == old(self)@.logs.push(
                plain_entry(LogLevel::Success, message@, old(self)@.indent),
            ),
            final(self)@.indent == old(self)@.indent,
    {
        self.push(LogLevel::Success, message.to_owned(), None);
    }

    /// Appends a section title: an informational entry opening a phase.
    pub fn section(&mut self, title: &str)
        ensures
            final(self)@.logs == old(self)@.logs.push(
                plain_entry(LogLevel::Info, title@, old(self)@.indent),
            ),
            final(self)@.indent == old(self)@.indent,
    {
        self.push(LogLevel::Info, title.to_owned(), None);
    }

    /// Appends a label with a detail value at the current depth.
    pub fn kv(&mut self, label: &str, value: String)
        ensures
            final(self)@.logs == old(self)@.logs.push(
                detail_entry(label@, value@, old(self)@.indent),
            ),
            final(self)@.indent == old(self)@.indent,
    {
        self.push(LogLevel::Info, label.to_owned(), Some(value));
    }

    /// Steps one level deeper for subsequent entries.
    pub fn indent(&mut self)
        ensures
            final(self)@.logs == old(self)@.logs,
            final(self)@.indent == indent_up(old(self)@.indent),
    {
        if self.indent < 255 {
            self.indent = self.indent + 1;
        }
    }

    /// Steps one level back out, never below zero.
    pub fn outdent(&mut self)
        ensures
            final(self)@.logs == old(self)@.logs,
            final(self)@.indent == indent_down(old(self)@.indent),
    {
        if self.indent > 0 {
            self.indent = self.indent - 1;
        }
    }

    /// Runs a body one level deeper, restoring the prior depth afterwards.
    pub fn with_indent<B: GroupBody>(&mut self, body: &B)
        ensures
            final(self)@.logs == old(self)@.logs + body.appended(indent_up(old(self)@.indent)),
            final(self)@.indent == indent_down(indent_up(old(self)@.indent)),
    {
        self.indent();
        body.run(self);
        self.outdent();
    }

    /// Logs a section title, then runs a body indented under it.
    pub fn group<B: GroupBody>(&mut self, title: &str, body: &B)
        ensures
            final(self)@.logs == old(self)@.logs.push(
                plain_entry(LogLevel::Info, title@, old(self)@.indent),
            ) + body.appended(indent_up(old(self)@.indent)),
            final(self)@.indent == indent_down(indent_up(old(self)@.indent)),
    {
        self.section(title);
        self.with_indent(body);
    }

    /// Hands the finished log over; the logger is consumed.
    pub fn into_logs(self) -> (r: Vec<LogEntry>)
        ensures
            r.deep_view() == self@.logs,
    {
        self.logs
    }
}

/// Being an earlier state of an append-only log carries over: what extends
/// an extension of a log extends the log.
pub proof fn lemma_log_prefix_trans(a: Seq<EntryView>, b: Seq<EntryView>, c: Seq<EntryView>)
    requires
        a.len() <= b.len(),
        b.take(a.len() as int) == a,
        b.len() <= c.len(),
        c.take(b.len() as int) == b,
    ensures
        a.len() <= c.len(),
        c.take(a.len() as int) == a,
{
    assert forall|i: int| 0 <= i < a.len() implies c.take(a.len() as int)[i] == a[i] by {
        assert(c[i] == c.take(b.len() as int)[i]);
        assert(b[i] == b.take(a.len() as int)[i]);
    }
    assert(c.take(a.len() as int) =~= a);
}

/// Away from the saturation ceiling, one step in and one step out restore
/// the depth exactly; so a group leaves the depth where it found it.
pub proof fn lemma_indent_round_trip(i: u8)
    requires
        i < 255,
    ensures
        indent_down(indent_up(i)) == i,
{
}

/// Unnesting saturates: stepping out at depth zero stays at depth zero, it
/// never goes negative.
pub proof fn lemma_outdent_saturates()
    ensures
        indent_down(0) == 0,
{
}

/// The depth after `k` unnesting steps from `i`.
pub open spec fn stepped_out(i: u8, k: nat) -> u8
    decreases k,
{
    if k == 0 {
        i
    } else {
        stepped_out(indent_down(i), (k - 1) as nat)
    }
}

/// Stepping out never raises the depth.
pub proof fn lemma_stepped_out_bounded(i: u8, k: nat)
    ensures
        stepped_out(i, k) <= i,
    decreases k,
{
    if k > 0 {
        lemma_stepped_out_bounded(indent_down(i), (k - 1) as nat);
    }
}

/// A group opened at depth zero ends back at depth zero however many extra
/// times its body steps out: the counter saturates instead of ever going
/// negative.
pub proof fn lemma_group_depth_saturates(k: nat)
    ensures
        indent_down(stepped_out(indent_up(0), k)) == 0,
{
    lemma_stepped_out_bounded(indent_up(0), k);
}

} // verus!
