use vstd::prelude::*;
use vstd::pervasive::unreached;
use crate::connection::Connection;
use crate::cursor::ByteCursor;
use crate::error::ProtocolError;
use crate::readable::Readable;
use crate::schema::{
    conforms, fields_parse, lemma_fields_parse_shape, FieldSpec, FieldType, FieldValue,
    FieldValueView, PacketSchema, render_text, views_of,
};
use crate::state::{requested_phase, ClientStatus};

verus! {

/// A decoded packet that can be handled in the context of its connection.
pub trait Packet {
    /// What handling the packet does to a connection in phase `status`: the
    /// phase it is in afterwards, or the failure.
    spec fn outcome(&self, status: ClientStatus) -> Result<ClientStatus, ProtocolError>;

    /// Handles the packet. A handler may move the connection forward in its
    /// phases and does nothing else to it; where it fails the connection is
    /// as it was.
    fn handle(&self, context: &mut Connection) -> (r: Result<(), ProtocolError>)
        ensures
            final(context).alive() == old(context).alive(),
            final(context).trace() == old(context).trace(),
            old(context).phase().leads_to(final(context).phase()),
            match self.outcome(old(context).phase()) {
                Ok(next) => r is Ok && final(context).phase() == next,
                Err(e) => r == Err::<(), ProtocolError>(e) && final(context).phase() == old(
                    context,
                ).phase(),
            },
    ;
}

/// The first packet of every connection: it names the protocol version the
/// client speaks, the address and port it connected to, and the phase it
/// wants to go on with (1 for status, 2 for login).
#[derive(Clone, Debug, PartialEq, Eq)]
pub struct Handshake {
    pub protocol_version: i32,
    pub server_address: String,
    pub server_port: u16,
    pub next_state: i32,
}

/// A handshake as contracts see it.
pub struct HandshakeView {
    pub protocol_version: i32,
    pub server_address: Seq<char>,
    pub server_port: u16,
    pub next_state: i32,
}

impl View for Handshake {
    type V = HandshakeView;

    open spec fn view(&self) -> HandshakeView {
        HandshakeView {
            protocol_version: self.protocol_version,
            server_address: self.server_address@,
            server_port: self.server_port,
            next_state: self.next_state,
        }
    }
}

/// The fields of a handshake, in wire order.
pub open spec fn handshake_fields() -> Seq<FieldSpec> {
    seq![
        FieldSpec { name: "protocol_version", kind: FieldType::VarInt },
        FieldSpec { name: "server_address", kind: FieldType::Text },
        FieldSpec { name: "server_port", kind: FieldType::UnsignedShort },
        FieldSpec { name: "next_state", kind: FieldType::VarInt },
    ]
}

/// The handshake that four decoded fields stand for.
pub open spec fn handshake_of(values: Seq<FieldValueView>) -> HandshakeView {
    HandshakeView {
        protocol_version: match values[0] {
            FieldValueView::VarInt(v) => v,
            _ => 0,
        },
        server_address: match values[1] {
            FieldValueView::Text(text) => text,
            _ => Seq::empty(),
        },
        server_port: match values[2] {
            FieldValueView::UnsignedShort(v) => v,
            _ => 0,
        },
        next_state: match values[3] {
            FieldValueView::VarInt(v) => v,
            _ => 0,
        },
    }
}

/// The decoded fields that a handshake stands for, in wire order.
pub open spec fn handshake_values(packet: HandshakeView) -> Seq<FieldValueView> {
    seq![
        FieldValueView::VarInt(packet.protocol_version),
        FieldValueView::Text(packet.server_address),
        FieldValueView::UnsignedShort(packet.server_port),
        FieldValueView::VarInt(packet.next_state),
    ]
}

impl Handshake {
    /// The name and the ordered field list of the packet.
    pub fn schema() -> (schema: PacketSchema)
        ensures
            schema.name == "Handshake",
            schema.fields@ == handshake_fields(),
    {
        let schema = PacketSchema::new("Handshake").with_field(
            "protocol_version",
            FieldType::VarInt,
        ).with_field("server_address", FieldType::Text).with_field(
            "server_port",
            FieldType::UnsignedShort,
        ).with_field("next_state", FieldType::VarInt);
        assert(schema.fields@ =~= handshake_fields());
        schema
    }

    /// The handshake made of `values`, where they are the four fields of a
    /// handshake in wire order, each of its type; nothing otherwise.
    pub fn from_fields(values: &Vec<FieldValue>) -> (packet: Option<Handshake>)
        ensures
            packet is Some <==> conforms(handshake_fields(), views_of(values@)),
            packet matches Some(p) ==> p@ == handshake_of(views_of(values@)),
    {
        let ghost views = views_of(values@);
        if values.len() != 4 {
            return None;
        }
        proof {
            assert(views[0] == values@[0]@);
            assert(views[1] == values@[1]@);
            assert(views[2] == values@[2]@);
            assert(views[3] == values@[3]@);
        }
        let protocol_version: i32 = match &values[0] {
            FieldValue::VarInt(v) => *v,
            _ => {
                assert(views[0].kind() != handshake_fields()[0].kind);
                return None;
            },
        };
        let server_address: String = match &values[1] {
            FieldValue::Text(text) => text.clone(),
            _ => {
                assert(views[1].kind() != handshake_fields()[1].kind);
                return None;
            },
        };
        let server_port: u16 = match &values[2] {
            FieldValue::UnsignedShort(v) => *v,
            _ => {
                assert(views[2].kind() != handshake_fields()[2].kind);
                return None;
            },
        };
        let next_state: i32 = match &values[3] {
            FieldValue::VarInt(v) => *v,
            _ => {
                assert(views[3].kind() != handshake_fields()[3].kind);
                return None;
            },
        };
        Some(Handshake { protocol_version, server_address, server_port, next_state })
    }

    /// The fields of the packet as decoded values, in wire order.
    pub fn to_fields(&self) -> (values: Vec<FieldValue>)
        ensures
            views_of(values@) == handshake_values(self@),
    {
        let mut values: Vec<FieldValue> = Vec::new();
        values.push(FieldValue::VarInt(self.protocol_version));
        values.push(FieldValue::Text(self.server_address.clone()));
        values.push(FieldValue::UnsignedShort(self.server_port));
        values.push(FieldValue::VarInt(self.next_state));
        assert(views_of(values@) =~= handshake_values(self@));
        values
    }

    /// The packet written out for tracing: its name and one line for each field.
    pub fn render(&self) -> (text: String)
        ensures
            text@ == render_text("Handshake"@, handshake_fields(), handshake_values(self@)),
    {
        Handshake::schema().render(&self.to_fields())
    }
}

impl Readable for Handshake {
    open spec fn parse(bytes: Seq<u8>) -> Result<(HandshakeView, nat), ProtocolError> {
        match fields_parse("Handshake", handshake_fields(), bytes) {
            Ok((values, used)) => Ok((handshake_of(values), used)),
            Err(e) => Err(e),
        }
    }

    fn read(buffer: &mut ByteCursor) -> (r: Result<Self, ProtocolError>) {
        proof {
            lemma_fields_parse_shape("Handshake", handshake_fields(), buffer.remaining());
        }
        let values = match Handshake::schema().read(buffer) {
            Ok(values) => values,
            Err(e) => {
                return Err(e);
            },
        };
        match Handshake::from_fields(&values) {
            Some(packet) => Ok(packet),
            None => unreached(),
        }
    }
}

/// What a handshake with the selector `next_state` does to a connection in
/// phase `status`: it moves a connection that is in the handshake phase to the
/// phase it asks for. A selector that names no phase, and a handshake on a
/// connection that has left the handshake phase, is an invalid transition.
pub open spec fn handshake_outcome(next_state: i32, status: ClientStatus) -> Result<
    ClientStatus,
    ProtocolError,
> {
    match requested_phase(next_state) {
        Some(next) => if status.may_follow(next) {
            Ok(next)
        } else {
            Err(ProtocolError::InvalidStateTransition { from: status, to: Some(next) })
        },
        None => Err(ProtocolError::InvalidStateTransition { from: status, to: None }),
    }
}

impl Packet for Handshake {
    open spec fn outcome(&self, status: ClientStatus) -> Result<ClientStatus, ProtocolError> {
        handshake_outcome(self.next_state, status)
    }

    fn handle(&self, context: &mut Connection) -> (r: Result<(), ProtocolError>) {
        match ClientStatus::from_next_state(self.next_state) {
            Some(next) => context.advance(next),
            None => Err(ProtocolError::InvalidStateTransition { from: context.status(), to: None }),
        }
    }
}

} // verus!
