use vstd::prelude::*;
use crate::error::ProtocolError;
use crate::journal::{entries_of, LogLevel, TraceEntry, TraceEntryView};
use crate::state::ClientStatus;

verus! {

/// The state of one accepted connection, as its handler and the packet
/// handlers see it: the protocol phase, whether the connection is still being
/// served, and the trace output that waits to be logged.
#[derive(Debug)]
pub struct Connection {
    status: ClientStatus,
    open: bool,
    journal: Vec<TraceEntry>,
}

impl Connection {
    /// The current protocol phase.
    pub closed spec fn phase(&self) -> ClientStatus {
        self.status
    }

    /// Whether the connection is still served. It stops being served at the
    /// peer's close and at the first error.
    pub closed spec fn alive(&self) -> bool {
        self.open
    }

    /// The trace entries written and not yet taken, oldest first.
    pub closed spec fn trace(&self) -> Seq<TraceEntryView> {
        entries_of(self.journal@)
    }

    /// A connection as it is at accept time: in the handshake phase, open,
    /// with nothing traced.
    pub fn new() -> (connection: Connection)
        ensures
            connection.phase() == ClientStatus::Handshake,
            connection.alive(),
            connection.trace() == Seq::<TraceEntryView>::empty(),
    {
        let connection = Connection {
            status: ClientStatus::initial(),
            open: true,
            journal: Vec::new(),
        };
        assert(entries_of(connection.journal@) =~= Seq::<TraceEntryView>::empty());
        connection
    }

    /// The current protocol phase.
    pub fn status(&self) -> (status: ClientStatus)
        ensures
            status == self.phase(),
    {
        self.status
    }

    /// Whether the connection is still served.
    pub fn is_open(&self) -> (open: bool)
        ensures
            open == self.alive(),
    {
        self.open
    }

    /// Moves the connection to `next` where that is one legal step from the
    /// current phase; otherwise fails with `InvalidStateTransition` and
    /// changes nothing.
    pub fn advance(&mut self, next: ClientStatus) -> (r: Result<(), ProtocolError>)
        ensures
            final(self).alive() == old(self).alive(),
            final(self).trace() == old(self).trace(),
            old(self).phase().may_follow(next) ==> r is Ok && final(self).phase() == next,
            !old(self).phase().may_follow(next) ==> final(self).phase() == old(self).phase() && r
                == Err::<(), ProtocolError>(
                ProtocolError::InvalidStateTransition { from: old(self).phase(), to: Some(next) },
            ),
    {
        if self.status.can_move_to(next) {
            self.status = next;
            Ok(())
        } else {
            Err(ProtocolError::InvalidStateTransition { from: self.status, to: Some(next) })
        }
    }

    /// Ends the login phase: a connection in `Login` moves to `Play`; in any
    /// other phase this fails with `InvalidStateTransition`.
    pub fn finish_login(&mut self) -> (r: Result<(), ProtocolError>)
        ensures
            final(self).alive() == old(self).alive(),
            final(self).trace() == old(self).trace(),
            old(self).phase() == ClientStatus::Login ==> r is Ok && final(self).phase()
                == ClientStatus::Play,
            old(self).phase() != ClientStatus::Login ==> final(self).phase() == old(self).phase()
                && r == Err::<(), ProtocolError>(
                ProtocolError::InvalidStateTransition {
                    from: old(self).phase(),
                    to: Some(ClientStatus::Play),
                },
            ),
    {
        self.advance(ClientStatus::Play)
    }

    /// Stops serving the connection. Its phase stays as it is.
    pub fn close(&mut self)
        ensures
            !final(self).alive(),
            final(self).phase() == old(self).phase(),
            final(self).trace() == old(self).trace(),
    {
        self.open = false;
    }

    /// Adds `text`, to be logged at `level`, to the trace.
    pub fn log(&mut self, level: LogLevel, text: String)
        ensures
            final(self).trace() == old(self).trace().push(TraceEntryView { level, text: text@ }),
            final(self).phase() == old(self).phase(),
            final(self).alive() == old(self).alive(),
    {
        self.journal.push(TraceEntry { level, text });
        assert(entries_of(self.journal@) =~= entries_of(old(self).journal@).push(
            TraceEntryView { level, text: text@ },
        ));
    }

    /// Hands out the trace entries written since the last call, oldest
    /// first, and empties the trace.
    pub fn take_trace(&mut self) -> (entries: Vec<TraceEntry>)
        ensures
            entries_of(entries@) == old(self).trace(),
            final(self).trace() == Seq::<TraceEntryView>::empty(),
            final(self).phase() == old(self).phase(),
            final(self).alive() == old(self).alive(),
    {
        let mut entries: Vec<TraceEntry> = Vec::new();
        std::mem::swap(&mut self.journal, &mut entries);
        assert(entries_of(self.journal@) =~= Seq::<TraceEntryView>::empty());
        entries
    }
}

} // verus!
