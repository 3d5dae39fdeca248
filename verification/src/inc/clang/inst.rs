//! The worker that owns one compiler instance.
//!
//! A worker runs on a thread of its own and is the only one to touch its
//! compiler instance. The thread, the mailbox and the compiler are not here:
//! here are the decisions the worker takes between them, and the mapping
//! of what the compiler reports into the service's diagnostics.

use crate::inc::{Index, Message, MessageView, Range, Severity};
use vstd::prelude::*;
use vstd::std_specs::convert::{FromSpecImpl, TryFromSpecImpl};

verus! {

/// What goes wrong inside a worker.
#[derive(Debug, Clone, PartialEq, Eq)]
pub enum Error {
    Internal(String),
}

impl Error {
    /// The text shown to the user for this error.
    pub fn message(&self) -> (text: String)
        ensures
            self matches Error::Internal(inner) && text@ == inner@,
    {
        match self {
            Error::Internal(inner) => inner.clone(),
        }
    }
}

impl From<String> for Error {
    fn from(v: String) -> (e: Error) {
        Error::Internal(v)
    }
}

impl FromSpecImpl<String> for Error {
    open spec fn obeys_from_spec() -> bool {
        true
    }

    open spec fn from_spec(v: String) -> Error {
        Error::Internal(v)
    }
}

/// What a session asks of its worker.
#[derive(Debug, Clone, PartialEq, Eq)]
pub enum Req {
    /// Recompute the diagnostics, after adopting `code` where it is given.
    Compile { code: Option<String> },
}

/// How serious the compiler takes one of its diagnostics.
#[derive(Debug, Clone, Copy, PartialEq, Eq, Structural)]
pub enum DiagnosticSeverity {
    Ignored,
    Note,
    Warning,
    Error,
    Fatal,
}

/// A place in a source file as the compiler counts it: lines and columns
/// from one. A zero stands for no place.
#[derive(Debug, Clone, Copy, PartialEq, Eq, Structural)]
pub struct SourceLocation {
    pub line: u32,
    pub column: u32,
}

/// A stretch of a source file as the compiler counts it.
#[derive(Debug, Clone, Copy, PartialEq, Eq, Structural)]
pub struct SourceRange {
    pub start: SourceLocation,
    pub end: SourceLocation,
}

/// One diagnostic as the compiler reports it.
#[derive(Debug, Clone, PartialEq, Eq)]
pub struct Diagnostic {
    /// The file the diagnostic lies in, where the compiler names one.
    pub file: Option<String>,
    pub severity: DiagnosticSeverity,
    pub ranges: Vec<SourceRange>,
    pub text: String,
}

/// A count from one as a count from zero. Zero, which counts nothing, stays
/// zero.
pub open spec fn from_zero(count: u32) -> usize {
    if count == 0 {
        0
    } else {
        (count - 1) as usize
    }
}

/// The point a compiler's location becomes. The compiler counts lines and
/// columns from one, the service from zero: the first character of a file,
/// the compiler's line 1 and column 1, is the point (0, 0).
pub open spec fn index_of(value: SourceLocation) -> Index {
    Index { line: from_zero(value.line), col: from_zero(value.column) }
}

/// The range a compiler's range becomes: both ends mapped.
pub open spec fn range_of(value: SourceRange) -> Range {
    Range { start: index_of(value.start), end: index_of(value.end) }
}

/// The place of a compiler's severity on the service's scale. Errors,
/// warnings and notes have one; what the compiler ignores and what is fatal
/// to it have none.
pub open spec fn severity_of(value: DiagnosticSeverity) -> Option<Severity> {
    match value {
        DiagnosticSeverity::Error => Some(Severity::Error),
        DiagnosticSeverity::Warning => Some(Severity::Warning),
        DiagnosticSeverity::Note => Some(Severity::Info),
        DiagnosticSeverity::Ignored => None,
        DiagnosticSeverity::Fatal => None,
    }
}

impl From<SourceLocation> for Index {
    fn from(value: SourceLocation) -> (index: Index) {
        let line = if value.line == 0 {
            0
        } else {
            value.line - 1
        };
        let col = if value.column == 0 {
            0
        } else {
            value.column - 1
        };
        Index { line: line as usize, col: col as usize }
    }
}

impl FromSpecImpl<SourceLocation> for Index {
    open spec fn obeys_from_spec() -> bool {
        true
    }

    open spec fn from_spec(value: SourceLocation) -> Index {
        index_of(value)
    }
}

impl From<SourceRange> for Range {
    fn from(value: SourceRange) -> (range: Range) {
        Range { start: Index::from(value.start), end: Index::from(value.end) }
    }
}

impl FromSpecImpl<SourceRange> for Range {
    open spec fn obeys_from_spec() -> bool {
        true
    }

    open spec fn from_spec(value: SourceRange) -> Range {
        range_of(value)
    }
}

/// Positions count from zero: a place on the compiler's line `L` and column
/// `C` becomes the point `(L - 1, C - 1)`.
pub proof fn lemma_positions_count_from_zero(value: SourceLocation)
    requires
        value.line >= 1,
        value.column >= 1,
    ensures
        index_of(value).line == value.line - 1,
        index_of(value).col == value.column - 1,
        value.line == 1 && value.column == 1 ==> index_of(value) == (Index { line: 0, col: 0 }),
{
}

/// A range that is in order stays in order when it is mapped, provided its
/// start is a place: on a line counted from one.
pub proof fn lemma_mapping_keeps_order(value: SourceRange)
    requires
        value.start.line >= 1,
        value.start.line < value.end.line || (value.start.line == value.end.line
            && value.start.column <= value.end.column),
    ensures
        range_of(value).wf(),
{
}

impl TryFrom<DiagnosticSeverity> for Severity {
    type Error = ();

    fn try_from(value: DiagnosticSeverity) -> (r: Result<Self, ()>) {
        match value {
            DiagnosticSeverity::Error => Ok(Severity::Error),
            DiagnosticSeverity::Warning => Ok(Severity::Warning),
            DiagnosticSeverity::Note => Ok(Severity::Info),
            DiagnosticSeverity::Ignored => Err(()),
            DiagnosticSeverity::Fatal => Err(()),
        }
    }
}

impl TryFromSpecImpl<DiagnosticSeverity> for Severity {
    open spec fn obeys_try_from_spec() -> bool {
        true
    }

    open spec fn try_from_spec(value: DiagnosticSeverity) -> Result<Self, ()> {
        match severity_of(value) {
            Some(severity) => Ok(severity),
            None => Err(()),
        }
    }
}

/// The message a diagnostic becomes, where it becomes one: the same file and
/// text, its ranges mapped one by one, its severity on the service's
/// scale. A diagnostic whose severity has no place on that scale becomes
/// none.
pub open spec fn message_of(d: Diagnostic) -> Option<MessageView> {
    match severity_of(d.severity) {
        Some(severity) => Some(
            MessageView {
                file: match d.file {
                    Some(f) => Some(f@),
                    None => None,
                },
                severity,
                ranges: d.ranges@.map_values(|r: SourceRange| range_of(r)),
                message: d.text@,
            },
        ),
        None => None,
    }
}

impl TryFrom<Diagnostic> for Message {
    type Error = ();

    fn try_from(value: Diagnostic) -> (r: Result<Self, ()>)
        ensures
            match message_of(value) {
                Some(view) => r matches Ok(message) && message@ == view,
                None => r is Err,
            },
    {
        let severity = match Severity::try_from(value.severity) {
            Ok(v) => v,
            Err(e) => { return Err(e); },
        };
        let mut ranges: Vec<Range> = Vec::new();
        let mut i: usize = 0;
        while i < value.ranges.len()
            invariant
                i <= value.ranges.len(),
                ranges@ == value.ranges@.take(i as int).map_values(
                    |r: SourceRange| range_of(r),
                ),
            decreases value.ranges.len() - i,
        {
            ranges.push(Range::from(value.ranges[i]));
            assert(value.ranges@.take(i + 1) == value.ranges@.take(i as int).push(
                value.ranges@[i as int],
            ));
            i += 1;
        }
        assert(value.ranges@.take(i as int) == value.ranges@);
        Ok(Message { file: value.file, severity, ranges, message: value.text })
    }
}

impl TryFromSpecImpl<Diagnostic> for Message {
    open spec fn obeys_try_from_spec() -> bool {
        false
    }

    open spec fn try_from_spec(value: Diagnostic) -> Result<Self, ()> {
        arbitrary()
    }
}

/// The messages that a run of diagnostics becomes: each diagnostic that
/// becomes a message, in the order in which the compiler gave them. The rest
/// is left out; a run is never refused as a whole.
pub open spec fn surfaced(diagnostics: Seq<Diagnostic>) -> Seq<MessageView> {
    diagnostics.filter_map(|d: Diagnostic| message_of(d))
}

/// Maps what the compiler reported into the service's messages.
pub fn compile(diagnostics: Vec<Diagnostic>) -> (messages: Vec<Message>)
    ensures
        messages.deep_view() == surfaced(diagnostics@),
{
    let ghost all = diagnostics@;
    let mut ret: Vec<Message> = Vec::new();
    for d in it: diagnostics
        invariant
            it.seq() == all,
            ret.deep_view() == surfaced(all.take(it.index() as int)),
    {
        let ghost done = it.index() as int;
        assert(all.take(done + 1).drop_last() == all.take(done));
        assert(all.take(done + 1).last() == d);
        let ghost before = ret.deep_view();
        match Message::try_from(d) {
            Ok(message) => {
                ret.push(message);
                assert(ret.deep_view() == before + seq![message@]);
            },
            Err(_) => {},
        }
    }
    assert(all.take(all.len() as int) == all);
    ret
}

/// One part of a path.
#[derive(Debug, Clone, PartialEq, Eq)]
pub enum Component {
    /// What names a drive or a share before the root.
    Prefix(String),
    /// The root directory.
    RootDir,
    /// The directory itself, `.`.
    CurDir,
    /// The directory above, `..`.
    ParentDir,
    /// A directory or a file by its name.
    Normal(String),
}

impl Component {
    /// Whether the part stays when a path is moved below another
    /// directory: all do but the root and what stands before it.
    pub open spec fn stays(self) -> bool {
        !(self is RootDir || self is Prefix)
    }

    /// Whether the part stays when a path is moved below another directory.
    pub fn is_relative(&self) -> (stays: bool)
        ensures
            stays == self.stays(),
    {
        match self {
            Component::RootDir => false,
            Component::Prefix(_) => false,
            _ => true,
        }
    }
}

/// The parts of a path that stay when it is moved below another directory,
/// in their order.
pub open spec fn relocated(components: Seq<Component>) -> Seq<Component> {
    components.filter(|c: Component| c.stays())
}

/// The parts of a file's path below the worker's own directory: the parts of
/// its path in their order, without the root and what stands before it.
pub fn relocate(components: Vec<Component>) -> (kept: Vec<Component>)
    ensures
        kept@ == relocated(components@),
{
    let ghost all = components@;
    let mut kept: Vec<Component> = Vec::new();
    proof {
        reveal(Seq::filter);
    }
    for c in it: components
        invariant
            it.seq() == all,
            kept@ == relocated(all.take(it.index() as int)),
    {
        let ghost done = it.index() as int;
        assert(all.take(done + 1).drop_last() == all.take(done));
        assert(all.take(done + 1).last() == c);
        proof {
            reveal(Seq::filter);
        }
        if c.is_relative() {
            kept.push(c);
        }
    }
    assert(all.take(all.len() as int) == all);
    kept
}

/// Where a worker stands between two things that happen to it.
#[derive(Debug, Clone, Copy, PartialEq, Eq, Structural)]
pub enum Phase {
    /// Waiting for the next request.
    Idle,
    /// A request brought a text, and the text is being written to the file.
    Writing,
    /// The compiler is reparsing the file.
    Parsing,
    /// The worker has stopped. Its mailbox is closed and stays closed.
    Stopped,
}

/// What happens to a worker.
#[derive(Debug, Clone, PartialEq, Eq)]
pub enum Event {
    /// The next request came out of the mailbox.
    Request(Req),
    /// The text was written to the file.
    Written,
    /// The text could not be written.
    WriteFailed,
    /// The compiler reparsed the file and reports these diagnostics.
    Parsed(Vec<Diagnostic>),
    /// The compiler could not reparse the file.
    ParseFailed,
    /// The mailbox is closed: the session is gone.
    Disconnected,
}

/// What a worker does next.
#[derive(Debug, Clone, PartialEq, Eq)]
pub enum Action {
    /// Write this text to the file, then report how that went.
    Write(String),
    /// Have the compiler reparse the file, then report what it said.
    Reparse,
    /// Send these messages as the answer to the request, then take the next
    /// request.
    Reply(Vec<Message>),
    /// Close the mailbox and end.
    Stop,
}

/// The phase a worker is in after `event` came in `phase`. Whatever comes
/// out of turn stops the worker.
pub open spec fn next_phase(phase: Phase, event: Event) -> Phase {
    match (phase, event) {
        (Phase::Idle, Event::Request(Req::Compile { code: Some(_) })) => Phase::Writing,
        (Phase::Idle, Event::Request(Req::Compile { code: None })) => Phase::Parsing,
        (Phase::Writing, Event::Written) => Phase::Parsing,
        (Phase::Parsing, Event::Parsed(_)) => Phase::Idle,
        _ => Phase::Stopped,
    }
}

/// Whether `action` is what a worker does when `event` comes in `phase`. A
/// request with a text has the text written first; the file is reparsed once
/// the text is written, or at once where the request brought none; what the
/// compiler then reports is mapped and sent as the answer.
pub open spec fn answers(phase: Phase, event: Event, action: Action) -> bool {
    match (phase, event) {
        (Phase::Idle, Event::Request(Req::Compile { code: Some(text) })) => action
            == Action::Write(text),
        (Phase::Idle, Event::Request(Req::Compile { code: None })) => action is Reparse,
        (Phase::Writing, Event::Written) => action is Reparse,
        (Phase::Parsing, Event::Parsed(diagnostics)) => action matches Action::Reply(messages)
            && messages.deep_view() == surfaced(diagnostics@),
        _ => action is Stop,
    }
}

/// The decisions of one worker.
pub struct Instance {
    phase: Phase,
}

impl Instance {
    /// The phase the worker is in.
    pub closed spec fn spec_phase(&self) -> Phase {
        self.phase
    }

    /// A worker that waits for its first request.
    pub fn new() -> (instance: Self)
        ensures
            instance.spec_phase() == Phase::Idle,
    {
        Instance { phase: Phase::Idle }
    }

    /// The phase the worker is in.
    pub fn phase(&self) -> (phase: Phase)
        ensures
            phase == self.spec_phase(),
    {
        self.phase
    }

    /// Takes what happened and says what to do next.
    pub fn step(&mut self, event: Event) -> (action: Action)
        ensures
            final(self).spec_phase() == next_phase(old(self).spec_phase(), event),
            answers(old(self).spec_phase(), event, action),
    {
        let phase = self.phase;
        self.phase = Phase::Stopped;
        match event {
            Event::Request(Req::Compile { code }) => match phase {
                Phase::Idle => match code {
                    Some(text) => {
                        self.phase = Phase::Writing;
                        Action::Write(text)
                    },
                    None => {
                        self.phase = Phase::Parsing;
                        Action::Reparse
                    },
                },
                _ => Action::Stop,
            },
            Event::Written => match phase {
                Phase::Writing => {
                    self.phase = Phase::Parsing;
                    Action::Reparse
                },
                _ => Action::Stop,
            },
            Event::Parsed(diagnostics) => match phase {
                Phase::Parsing => {
                    self.phase = Phase::Idle;
                    Action::Reply(compile(diagnostics))
                },
                _ => Action::Stop,
            },
            Event::WriteFailed => Action::Stop,
            Event::ParseFailed => Action::Stop,
            Event::Disconnected => Action::Stop,
        }
    }
}

/// A text is written before the file is reparsed: after a request that
/// brings a text, the worker has the text written, and from there the one
/// thing that makes it reparse is the news that the text is written.
pub proof fn lemma_write_comes_first(text: String, action: Action, then: Event, after: Action)
    requires
        answers(Phase::Idle, Event::Request(Req::Compile { code: Some(text) }), action),
        answers(
            next_phase(Phase::Idle, Event::Request(Req::Compile { code: Some(text) })),
            then,
            after,
        ),
    ensures
        action == Action::Write(text),
        after is Reparse <==> then is Written,
        !(after is Reply),
{
}

/// A worker that has stopped stays stopped.
pub proof fn lemma_stopped_is_final(event: Event, action: Action)
    requires
        answers(Phase::Stopped, event, action),
    ensures
        action is Stop,
        next_phase(Phase::Stopped, event) == Phase::Stopped,
{
}

} // verus!
