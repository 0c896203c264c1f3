use vstd::prelude::*;
use crate::connection::Connection;
use crate::cursor::ByteCursor;
use crate::dispatch::{
    dispatch_parse, lemma_dispatch_parse_shape, standard_table, trace_of, DispatchTable,
};
use crate::error::ProtocolError;
use crate::journal::TraceEntryView;
use crate::state::{ClientChannelSignal, ClientStatus};

verus! {

/// Most bytes that one read from a socket may bring.
pub const MAX_PACKET_SIZE: usize = 32768;

/// What a handler's read from its socket came back with.
#[derive(Clone, Copy, Debug)]
pub enum ReadEvent<'a> {
    /// The bytes that were read. None at all means that the peer has closed.
    Data(&'a [u8]),
    /// The read failed.
    Failed,
}

/// What the handler of a connection is to do next.
#[derive(Debug, PartialEq, Eq)]
pub enum ChannelAction {
    /// Read again.
    Continue,
    /// Shut down both halves of the socket and end without an error.
    Close,
    /// Shut down both halves of the socket, then hand on the error.
    Abort(ProtocolError),
}

/// What the bytes of one read do to a connection.
pub struct Processed {
    /// The phase the connection is left in.
    pub status: ClientStatus,
    /// The trace entries written, oldest first.
    pub lines: Seq<TraceEntryView>,
    /// Whether every packet was decoded and handled, or what stopped it.
    pub outcome: Result<(), ProtocolError>,
}

/// What handling the packets in `bytes`, one behind the other, does to a
/// connection in phase `status`.
///
/// Each packet is decoded by the table of the phase that the connection is in
/// when the packet's turn comes, traced with two entries, and handled. The first
/// packet that fails to decode or to be handled ends it: the phase stays as
/// the packets before had left it, and what follows is not looked at.
pub open spec fn process_all(status: ClientStatus, bytes: Seq<u8>) -> Processed
    decreases bytes.len(),
{
    if bytes.len() == 0 {
        Processed { status, lines: Seq::empty(), outcome: Ok(()) }
    } else {
        match dispatch_parse(status, standard_table(status), bytes) {
            Err(e) => Processed { status, lines: Seq::empty(), outcome: Err(e) },
            Ok((packet, used)) => {
                let lines = trace_of(packet);
                match packet.packet.outcome(status) {
                    Err(e) => Processed { status, lines, outcome: Err(e) },
                    Ok(next) => {
                        proof {
                            lemma_dispatch_parse_shape(status, standard_table(status), bytes);
                        }
                        let rest = process_all(next, bytes.skip(used as int));
                        Processed {
                            status: rest.status,
                            lines: lines + rest.lines,
                            outcome: rest.outcome,
                        }
                    },
                }
            },
        }
    }
}

impl Connection {
    /// Decodes and handles the packets in `data`, one behind the other, each
    /// by the table of the phase the connection is in at that moment.
    ///
    /// It stops at the first packet that fails, with that packet's error.
    pub fn process_packet(&mut self, data: &[u8]) -> (r: Result<(), ProtocolError>)
        ensures
            final(self).alive() == old(self).alive(),
            final(self).phase() == process_all(old(self).phase(), data@).status,
            final(self).trace() == old(self).trace() + process_all(old(self).phase(), data@).lines,
            r == process_all(old(self).phase(), data@).outcome,
            old(self).phase().leads_to(final(self).phase()),
    {
        let mut cursor = ByteCursor::new(data);
        let ghost mut logged: Seq<TraceEntryView> = Seq::empty();
        assert(cursor.remaining() =~= data@);
        assert(self.trace() =~= old(self).trace() + logged);
        loop
            invariant
                cursor.wf(),
                cursor.bytes() == data@,
                self.alive() == old(self).alive(),
                self.trace() == old(self).trace() + logged,
                old(self).phase().leads_to(self.phase()),
                process_all(old(self).phase(), data@).status == process_all(
                    self.phase(),
                    cursor.remaining(),
                ).status,
                process_all(old(self).phase(), data@).lines == logged + process_all(
                    self.phase(),
                    cursor.remaining(),
                ).lines,
                process_all(old(self).phase(), data@).outcome == process_all(
                    self.phase(),
                    cursor.remaining(),
                ).outcome,
            decreases cursor.remaining().len(),
        {
            if cursor.is_exhausted() {
                assert(logged + Seq::<TraceEntryView>::empty() =~= logged);
                return Ok(());
            }
            let ghost status = self.phase();
            let ghost bytes = cursor.remaining();
            let ghost before = cursor;
            let ghost trace_before = self.trace();
            proof {
                lemma_dispatch_parse_shape(status, standard_table(status), bytes);
            }
            let table = DispatchTable::for_phase(self.status());
            let packet = match table.decode_next(&mut cursor) {
                Ok(packet) => packet,
                Err(e) => {
                    assert(logged + Seq::<TraceEntryView>::empty() =~= logged);
                    return Err(e);
                },
            };
            let ghost used = (cursor.offset() - before.offset()) as nat;
            let ghost lines = trace_of(packet@);
            let handled = packet.process(self);
            proof {
                assert(cursor.remaining() =~= bytes.skip(used as int));
                assert(self.trace() =~= old(self).trace() + (logged + lines));
                crate::state::lemma_leads_to_is_reachability(
                    old(self).phase(),
                    status,
                    self.phase(),
                );
            }
            match handled {
                Ok(()) => {
                    proof {
                        let rest = process_all(self.phase(), cursor.remaining());
                        assert(logged + (lines + rest.lines) =~= (logged + lines) + rest.lines);
                        logged = logged + lines;
                    }
                },
                Err(e) => {
                    return Err(e);
                },
            }
        }
    }

    /// Takes in what one read from the socket brought.
    ///
    /// No bytes at all mean that the peer has closed: the signal is
    /// `Shutdown` and nothing changes. Any bytes are a run of packets, which
    /// are decoded and handled; where all of them pass the signal is
    /// `KeepAlive`, and the first that fails gives the error.
    pub fn receive(&mut self, data: &[u8]) -> (r: Result<ClientChannelSignal, ProtocolError>)
        ensures
            final(self).alive() == old(self).alive(),
            final(self).phase() == process_all(old(self).phase(), data@).status,
            final(self).trace() == old(self).trace() + process_all(old(self).phase(), data@).lines,
            old(self).phase().leads_to(final(self).phase()),
            r == receive_signal(old(self).phase(), data@),
    {
        if data.len() == 0 {
            assert(self.trace() =~= old(self).trace() + Seq::<TraceEntryView>::empty());
            return Ok(ClientChannelSignal::Shutdown);
        }
        match self.process_packet(data) {
            Ok(()) => Ok(ClientChannelSignal::KeepAlive),
            Err(e) => Err(e),
        }
    }

    /// One turn of the handler's loop: takes in the outcome of a read and
    /// says what the handler is to do next.
    ///
    /// A connection that is no longer served takes nothing in and answers
    /// `Close`. Otherwise a failed read aborts with `Io`; a read of no bytes
    /// closes; a read of bytes is handled as in `receive`, and goes on where
    /// it passes and aborts with the error where it does not. After `Close`
    /// and `Abort` the connection is no longer served.
    pub fn step(&mut self, event: ReadEvent) -> (action: ChannelAction)
        ensures
            action == step_action(old(self).alive(), old(self).phase(), event),
            final(self).alive() == (action == ChannelAction::Continue),
            final(self).phase() == step_status(old(self).alive(), old(self).phase(), event),
            final(self).trace() == old(self).trace() + step_lines(
                old(self).alive(),
                old(self).phase(),
                event,
            ),
            old(self).phase().leads_to(final(self).phase()),
    {
        if !self.is_open() {
            assert(self.trace() =~= old(self).trace() + Seq::<TraceEntryView>::empty());
            return ChannelAction::Close;
        }
        match event {
            ReadEvent::Failed => {
                self.close();
                assert(self.trace() =~= old(self).trace() + Seq::<TraceEntryView>::empty());
                ChannelAction::Abort(ProtocolError::Io)
            },
            ReadEvent::Data(data) => match self.receive(data) {
                Ok(ClientChannelSignal::KeepAlive) => ChannelAction::Continue,
                Ok(ClientChannelSignal::Shutdown) => {
                    self.close();
                    ChannelAction::Close
                },
                Err(e) => {
                    self.close();
                    ChannelAction::Abort(e)
                },
            },
        }
    }
}

/// What `receive` answers to the bytes `data` on a connection in phase `status`.
pub open spec fn receive_signal(status: ClientStatus, data: Seq<u8>) -> Result<
    ClientChannelSignal,
    ProtocolError,
> {
    if data.len() == 0 {
        Ok(ClientChannelSignal::Shutdown)
    } else {
        match process_all(status, data).outcome {
            Ok(()) => Ok(ClientChannelSignal::KeepAlive),
            Err(e) => Err(e),
        }
    }
}

/// What `step` answers to `event` on a connection in phase `status` that is
/// served or not, as `alive` says.
pub open spec fn step_action(alive: bool, status: ClientStatus, event: ReadEvent) -> ChannelAction {
    if !alive {
        ChannelAction::Close
    } else {
        match event {
            ReadEvent::Failed => ChannelAction::Abort(ProtocolError::Io),
            ReadEvent::Data(data) => match receive_signal(status, data@) {
                Ok(ClientChannelSignal::KeepAlive) => ChannelAction::Continue,
                Ok(ClientChannelSignal::Shutdown) => ChannelAction::Close,
                Err(e) => ChannelAction::Abort(e),
            },
        }
    }
}

/// The phase that `step` leaves the connection in.
pub open spec fn step_status(alive: bool, status: ClientStatus, event: ReadEvent) -> ClientStatus {
    match event {
        ReadEvent::Data(data) => if alive {
            process_all(status, data@).status
        } else {
            status
        },
        ReadEvent::Failed => status,
    }
}

/// The trace entries that `step` writes.
pub open spec fn step_lines(alive: bool, status: ClientStatus, event: ReadEvent) -> Seq<TraceEntryView> {
    match event {
        ReadEvent::Data(data) => if alive {
            process_all(status, data@).lines
        } else {
            Seq::empty()
        },
        ReadEvent::Failed => Seq::empty(),
    }
}

} // verus!
