use vstd::prelude::*;

verus! {

/// How much a logger lets through, from nothing to everything; also the level
/// at which a line is logged.
#[derive(Clone, Copy, Debug, PartialEq, Eq, Structural)]
pub enum LogLevel {
    Off,
    Error,
    Warn,
    Info,
    Debug,
    Trace,
}

impl LogLevel {
    /// The place of the level among the six, `Off` being 0.
    pub open spec fn rank(self) -> nat {
        match self {
            LogLevel::Off => 0,
            LogLevel::Error => 1,
            LogLevel::Warn => 2,
            LogLevel::Info => 3,
            LogLevel::Debug => 4,
            LogLevel::Trace => 5,
        }
    }

    /// Whether a logger set to this level lets trace output through: only
    /// the highest level does.
    pub fn allows_trace(self) -> (allowed: bool)
        ensures
            allowed == (self.rank() >= LogLevel::Trace.rank()),
            allowed == (self == LogLevel::Trace),
    {
        match self {
            LogLevel::Trace => true,
            _ => false,
        }
    }
}

/// One piece of trace output that waits to be logged: the level to log it at
/// and its text, which may run over several lines.
#[derive(Clone, Debug, PartialEq, Eq)]
pub struct TraceEntry {
    pub level: LogLevel,
    pub text: String,
}

/// A trace entry as contracts see it.
pub struct TraceEntryView {
    pub level: LogLevel,
    pub text: Seq<char>,
}

impl View for TraceEntry {
    type V = TraceEntryView;

    open spec fn view(&self) -> TraceEntryView {
        TraceEntryView { level: self.level, text: self.text@ }
    }
}

/// The views of a list of trace entries, in order.
pub open spec fn entries_of(entries: Seq<TraceEntry>) -> Seq<TraceEntryView> {
    Seq::new(entries.len(), |i: int| entries[i]@)
}

} // verus!
