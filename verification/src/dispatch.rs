use std::collections::HashMap;
use vstd::prelude::*;
use vstd::string::StringExecFns;
use crate::connection::Connection;
use crate::cursor::ByteCursor;
use crate::error::ProtocolError;
use crate::journal::{LogLevel, TraceEntryView};
use crate::packets::{
    handshake_fields, handshake_outcome, handshake_values, Handshake, HandshakeView, Packet,
};
use crate::readable::Readable;
use crate::schema::render_text;
use crate::state::ClientStatus;
use crate::text::{hex_text, push_hex};
use crate::varint::{unsigned_of, varint_parse, VarInt};

verus! {

broadcast use vstd::std_specs::hash::group_hash_axioms;

/// The packet types the protocol knows.
#[derive(Clone, Copy, Debug, PartialEq, Eq, Structural)]
pub enum PacketKind {
    Handshake,
}

/// A decoded packet of any known type.
#[derive(Clone, Debug, PartialEq, Eq)]
pub enum IncomingPacket {
    Handshake(Handshake),
}

/// A decoded packet as contracts see it.
pub enum IncomingPacketView {
    Handshake(HandshakeView),
}

impl View for IncomingPacket {
    type V = IncomingPacketView;

    open spec fn view(&self) -> IncomingPacketView {
        match self {
            IncomingPacket::Handshake(packet) => IncomingPacketView::Handshake(packet@),
        }
    }
}

impl IncomingPacketView {
    /// The type of the packet.
    pub open spec fn kind(self) -> PacketKind {
        match self {
            IncomingPacketView::Handshake(_) => PacketKind::Handshake,
        }
    }

    /// What handling the packet does to a connection in phase `status`.
    pub open spec fn outcome(self, status: ClientStatus) -> Result<ClientStatus, ProtocolError> {
        match self {
            IncomingPacketView::Handshake(packet) => handshake_outcome(packet.next_state, status),
        }
    }

    /// The packet written out for tracing.
    pub open spec fn rendering(self) -> Seq<char> {
        match self {
            IncomingPacketView::Handshake(packet) => render_text(
                "Handshake"@,
                handshake_fields(),
                handshake_values(packet),
            ),
        }
    }
}

impl PacketKind {
    /// The name of the packet type.
    pub open spec fn label(self) -> Seq<char> {
        match self {
            PacketKind::Handshake => "Handshake"@,
        }
    }

    /// What the fields of a packet of this type, at the head of `bytes`,
    /// decode to, and how many bytes they take.
    pub open spec fn parse(self, bytes: Seq<u8>) -> Result<(IncomingPacketView, nat), ProtocolError> {
        match self {
            PacketKind::Handshake => match Handshake::parse(bytes) {
                Ok((packet, used)) => Ok((IncomingPacketView::Handshake(packet), used)),
                Err(e) => Err(e),
            },
        }
    }

    /// The name of the packet type.
    pub fn name(self) -> (name: &'static str)
        ensures
            name@ == self.label(),
    {
        match self {
            PacketKind::Handshake => "Handshake",
        }
    }

    /// Reads the fields of a packet of this type, by the schema of the type.
    pub fn read(self, buffer: &mut ByteCursor) -> (r: Result<IncomingPacket, ProtocolError>)
        requires
            old(buffer).wf(),
        ensures
            final(buffer).wf(),
            final(buffer).bytes() == old(buffer).bytes(),
            match self.parse(old(buffer).remaining()) {
                Ok((packet, used)) => r matches Ok(got) && got@ == packet && final(buffer).offset()
                    == old(buffer).offset() + used,
                Err(e) => r matches Err(got) && got == e && final(buffer).offset() == old(
                    buffer,
                ).offset(),
            },
    {
        match self {
            PacketKind::Handshake => match Handshake::read(buffer) {
                Ok(packet) => Ok(IncomingPacket::Handshake(packet)),
                Err(e) => Err(e),
            },
        }
    }
}

impl IncomingPacket {
    /// The type of the packet.
    pub fn kind(&self) -> (kind: PacketKind)
        ensures
            kind == self@.kind(),
    {
        match self {
            IncomingPacket::Handshake(_) => PacketKind::Handshake,
        }
    }

    /// The packet written out for tracing: its name and one line for each field.
    pub fn render(&self) -> (text: String)
        ensures
            text@ == self@.rendering(),
    {
        match self {
            IncomingPacket::Handshake(packet) => packet.render(),
        }
    }
}

impl Packet for IncomingPacket {
    open spec fn outcome(&self, status: ClientStatus) -> Result<ClientStatus, ProtocolError> {
        self@.outcome(status)
    }

    fn handle(&self, context: &mut Connection) -> (r: Result<(), ProtocolError>) {
        match self {
            IncomingPacket::Handshake(packet) => packet.handle(context),
        }
    }
}

/// A packet as it came off the wire: the ID it was sent under and what it
/// decoded to.
#[derive(Clone, Debug, PartialEq, Eq)]
pub struct Dispatched {
    pub id: i32,
    pub packet: IncomingPacket,
}

/// A dispatched packet as contracts see it.
pub struct DispatchedView {
    pub id: i32,
    pub packet: IncomingPacketView,
}

impl View for Dispatched {
    type V = DispatchedView;

    open spec fn view(&self) -> DispatchedView {
        DispatchedView { id: self.id, packet: self.packet@ }
    }
}

/// The line that announces a packet in the trace: its ID in hexadecimal, as
/// the 32 bits of the ID read unsigned, and the name of its type.
pub open spec fn header_text(id: i32, kind: PacketKind) -> Seq<char> {
    "handling packet ["@ + hex_text(unsigned_of(id)) + "]("@ + kind.label() + ")"@
}

/// What a packet leaves in the trace: the line that announces it, at debug
/// level, and the packet written out with its fields, at trace level.
pub open spec fn trace_of(packet: DispatchedView) -> Seq<TraceEntryView> {
    seq![
        TraceEntryView { level: LogLevel::Debug, text: header_text(packet.id, packet.packet.kind()) },
        TraceEntryView { level: LogLevel::Trace, text: packet.packet.rendering() },
    ]
}

/// What the packet at the head of `bytes` is, by the table `table` of the
/// phase `phase`: a leading `VarInt` is the packet's ID, the table gives the
/// type registered under the ID, and the fields of that type follow. An ID
/// that the table does not hold is an `UnknownPacketId`.
pub open spec fn dispatch_parse(
    phase: ClientStatus,
    table: Map<i32, PacketKind>,
    bytes: Seq<u8>,
) -> Result<(DispatchedView, nat), ProtocolError> {
    match varint_parse(bytes) {
        Err(e) => Err(e),
        Ok((id, used)) => {
            if table.contains_key(id) {
                match table[id].parse(bytes.skip(used as int)) {
                    Ok((packet, more)) => Ok((DispatchedView { id, packet }, used + more)),
                    Err(e) => Err(e),
                }
            } else {
                Err(ProtocolError::UnknownPacketId { id, phase })
            }
        },
    }
}

/// The packets that the protocol defines for `phase`, by ID.
pub open spec fn standard_table(phase: ClientStatus) -> Map<i32, PacketKind> {
    match phase {
        ClientStatus::Handshake => Map::<i32, PacketKind>::empty().insert(0, PacketKind::Handshake),
        _ => Map::<i32, PacketKind>::empty(),
    }
}

/// A packet that decodes takes at least the byte of its ID and ends within
/// the bytes it was read from; its type is the one the table holds under its ID.
pub proof fn lemma_dispatch_parse_shape(
    phase: ClientStatus,
    table: Map<i32, PacketKind>,
    bytes: Seq<u8>,
)
    ensures
        dispatch_parse(phase, table, bytes) matches Ok((packet, used)) ==> 1 <= used <= bytes.len()
            && table.contains_key(packet.id) && packet.packet.kind() == table[packet.id],
{
    crate::varint::lemma_varint_parse_bounds(bytes);
    if let Ok((id, used)) = varint_parse(bytes) {
        crate::schema::lemma_fields_parse_shape(
            "Handshake",
            handshake_fields(),
            bytes.skip(used as int),
        );
    }
}

/// An ID that the table of the phase does not hold is an unknown packet,
/// whatever follows it.
pub proof fn lemma_unregistered_id_is_unknown(
    phase: ClientStatus,
    table: Map<i32, PacketKind>,
    id: i32,
    rest: Seq<u8>,
)
    requires
        !table.contains_key(id),
    ensures
        dispatch_parse(phase, table, crate::varint::varint_encoding(id) + rest) == Err::<
            (DispatchedView, nat),
            ProtocolError,
        >(ProtocolError::UnknownPacketId { id, phase }),
{
    crate::varint::lemma_varint_round_trip(id, rest);
}

/// A registered ID is followed by the fields of the type registered under it:
/// what comes behind the ID decodes as that type's schema says, field by
/// field in declared order, and the packet takes the bytes of both.
pub proof fn lemma_registered_id_decodes_its_schema(
    phase: ClientStatus,
    table: Map<i32, PacketKind>,
    id: i32,
    rest: Seq<u8>,
)
    requires
        table.contains_key(id),
    ensures
        dispatch_parse(phase, table, crate::varint::varint_encoding(id) + rest) == match table[id].parse(
            rest,
        ) {
            Ok((packet, used)) => Ok::<(DispatchedView, nat), ProtocolError>(
                (DispatchedView { id, packet }, crate::varint::varint_encoding(id).len() + used),
            ),
            Err(e) => Err(e),
        },
{
    crate::varint::lemma_varint_round_trip(id, rest);
    let head = crate::varint::varint_encoding(id);
    assert((head + rest).skip(head.len() as int) =~= rest);
}

/// The packet types of one protocol phase, each under its numeric ID. No ID
/// stands for two types.
#[derive(Debug)]
pub struct DispatchTable {
    phase: ClientStatus,
    entries: HashMap<i32, PacketKind>,
}

impl View for DispatchTable {
    type V = Map<i32, PacketKind>;

    closed spec fn view(&self) -> Map<i32, PacketKind> {
        self.entries@
    }
}

impl DispatchTable {
    /// The phase whose packets the table holds.
    pub closed spec fn phase(&self) -> ClientStatus {
        self.phase
    }

    /// A table for `phase` that holds no packet yet.
    pub fn new(phase: ClientStatus) -> (table: DispatchTable)
        ensures
            table.phase() == phase,
            table@ == Map::<i32, PacketKind>::empty(),
    {
        DispatchTable { phase, entries: HashMap::new() }
    }

    /// The table of the packets that the protocol defines for `phase`.
    pub fn for_phase(phase: ClientStatus) -> (table: DispatchTable)
        ensures
            table.phase() == phase,
            table@ == standard_table(phase),
    {
        let mut table = DispatchTable::new(phase);
        match phase {
            ClientStatus::Handshake => {
                let _ = table.register(0x00, PacketKind::Handshake);
            },
            _ => {},
        }
        assert(table@ =~= standard_table(phase));
        table
    }

    /// Puts `kind` into the table under `id`. An ID that the table holds
    /// already is refused with `DuplicatePacketId`, and the table stays as it was.
    pub fn register(&mut self, id: i32, kind: PacketKind) -> (r: Result<(), ProtocolError>)
        ensures
            final(self).phase() == old(self).phase(),
            old(self)@.contains_key(id) ==> final(self)@ == old(self)@ && r == Err::<
                (),
                ProtocolError,
            >(ProtocolError::DuplicatePacketId { id, phase: old(self).phase() }),
            !old(self)@.contains_key(id) ==> final(self)@ == old(self)@.insert(id, kind) && r is Ok,
    {
        if self.entries.contains_key(&id) {
            Err(ProtocolError::DuplicatePacketId { id, phase: self.phase })
        } else {
            self.entries.insert(id, kind);
            Ok(())
        }
    }

    /// The packet type registered under `id`, if there is one.
    pub fn lookup(&self, id: i32) -> (kind: Option<PacketKind>)
        ensures
            kind == if self@.contains_key(id) {
                Some(self@[id])
            } else {
                None
            },
    {
        match self.entries.get(&id) {
            Some(kind) => Some(*kind),
            None => None,
        }
    }

    /// The phase whose packets the table holds.
    pub fn status(&self) -> (phase: ClientStatus)
        ensures
            phase == self.phase(),
    {
        self.phase
    }

    /// Decodes the next packet: its ID, then the fields of the type that the
    /// table holds under the ID.
    ///
    /// On success the cursor has moved past the packet. On failure it stays
    /// where it was; the error is that of the ID's `VarInt`, `UnknownPacketId`
    /// for an ID the table does not hold, or the `FieldDecodeError` of the
    /// first field that failed.
    pub fn decode_next(&self, cursor: &mut ByteCursor) -> (r: Result<Dispatched, ProtocolError>)
        requires
            old(cursor).wf(),
        ensures
            final(cursor).wf(),
            final(cursor).bytes() == old(cursor).bytes(),
            match dispatch_parse(self.phase(), self@, old(cursor).remaining()) {
                Ok((packet, used)) => r matches Ok(got) && got@ == packet && final(cursor).offset()
                    == old(cursor).offset() + used,
                Err(e) => r matches Err(got) && got == e && final(cursor).offset() == old(
                    cursor,
                ).offset(),
            },
    {
        let ghost input = cursor.remaining();
        let mut probe = *cursor;
        let id: i32 = match VarInt::read_from(&mut probe) {
            Ok(v) => v.0,
            Err(e) => {
                return Err(e);
            },
        };
        let ghost used = (probe.offset() - cursor.offset()) as nat;
        assert(probe.remaining() =~= input.skip(used as int));
        let kind = match self.lookup(id) {
            Some(kind) => kind,
            None => {
                return Err(ProtocolError::UnknownPacketId { id, phase: self.phase });
            },
        };
        match kind.read(&mut probe) {
            Ok(packet) => {
                *cursor = probe;
                Ok(Dispatched { id, packet })
            },
            Err(e) => Err(e),
        }
    }
}

impl Dispatched {
    /// The line that announces the packet in the trace.
    pub fn header(&self) -> (text: String)
        ensures
            text@ == header_text(self.id, self@.packet.kind()),
    {
        let mut text = String::new();
        text.append("handling packet [");
        push_hex(&mut text, VarInt(self.id).bits() as u64);
        text.append("](");
        text.append(self.packet.kind().name());
        text.append(")");
        assert(text@ =~= header_text(self.id, self@.packet.kind()));
        text
    }

    /// Traces the packet, then hands it to its handler.
    ///
    /// The trace gets two entries, whatever the handler does: the line that
    /// announces the packet, at debug level, and the packet written out with
    /// its fields, at trace level. The phase of the connection and the result
    /// are those of the handler.
    pub fn process(&self, context: &mut Connection) -> (r: Result<(), ProtocolError>)
        ensures
            final(context).alive() == old(context).alive(),
            final(context).trace() == old(context).trace() + trace_of(self@),
            old(context).phase().leads_to(final(context).phase()),
            match self@.packet.outcome(old(context).phase()) {
                Ok(next) => r is Ok && final(context).phase() == next,
                Err(e) => r == Err::<(), ProtocolError>(e) && final(context).phase() == old(
                    context,
                ).phase(),
            },
    {
        context.log(LogLevel::Debug, self.header());
        context.log(LogLevel::Trace, self.packet.render());
        assert(context.trace() =~= old(context).trace() + trace_of(self@));
        self.packet.handle(context)
    }
}

} // verus!
