use cotton::connection::Connection;
use cotton::cursor::ByteCursor;
use cotton::dispatch::{DispatchTable, Dispatched, IncomingPacket, PacketKind};
use cotton::error::ProtocolError;
use cotton::journal::{LogLevel, TraceEntry};
use cotton::packets::{Handshake, Packet};
use cotton::readable::Readable;
use cotton::schema::{read_field, FieldType, FieldValue, PacketSchema};
use cotton::state::ClientStatus;

const HANDSHAKE_TO_STATUS: [u8; 10] = [0x00, 0x00, 0x04, b't', b'e', b's', b't', 0x00, 0x19, 0x01];

fn handshake(next_state: i32) -> Handshake {
    Handshake {
        protocol_version: 0,
        server_address: String::from("test"),
        server_port: 25,
        next_state,
    }
}

#[test]
fn handshake_schema_lists_the_fields_in_wire_order() {
    let schema = Handshake::schema();
    assert_eq!(schema.name, "Handshake");
    let fields: Vec<(&str, FieldType)> = schema.fields.iter().map(|f| (f.name, f.kind)).collect();
    assert_eq!(
        fields,
        vec![
            ("protocol_version", FieldType::VarInt),
            ("server_address", FieldType::Text),
            ("server_port", FieldType::UnsignedShort),
            ("next_state", FieldType::VarInt),
        ]
    );
}

#[test]
fn handshake_reads_its_fields() {
    let mut cursor = ByteCursor::new(&HANDSHAKE_TO_STATUS[1..]);
    assert_eq!(Handshake::read(&mut cursor), Ok(handshake(1)));
    assert!(cursor.is_exhausted());
}

#[test]
fn handshake_of_a_real_client() {
    // protocol 763, "localhost", port 25565, login
    let mut bytes = vec![0xfb, 0x05, 0x09];
    bytes.extend_from_slice(b"localhost");
    bytes.extend_from_slice(&[0x63, 0xdd, 0x02, 0xee]);
    let mut cursor = ByteCursor::new(&bytes);
    assert_eq!(
        Handshake::read(&mut cursor),
        Ok(Handshake {
            protocol_version: 763,
            server_address: String::from("localhost"),
            server_port: 25565,
            next_state: 2,
        })
    );
    assert_eq!(cursor.position(), bytes.len() - 1);
}

#[test]
fn field_failure_names_packet_and_field_and_keeps_the_cause() {
    let cases: Vec<(Vec<u8>, &str, ProtocolError)> = vec![
        (vec![], "protocol_version", ProtocolError::UnexpectedEof),
        (
            vec![0x80, 0x80, 0x80, 0x80, 0x80, 0x80],
            "protocol_version",
            ProtocolError::MalformedVarInt,
        ),
        (vec![0x00], "server_address", ProtocolError::UnexpectedEof),
        (vec![0x00, 0x04, b't', b'e'], "server_address", ProtocolError::UnexpectedEof),
        (vec![0x00, 0x02, 0xff, 0xfe], "server_address", ProtocolError::InvalidEncoding),
        (
            vec![0x00, 0xff, 0xff, 0xff, 0xff, 0x0f],
            "server_address",
            ProtocolError::InvalidLength { declared: -1 },
        ),
        (vec![0x00, 0x01, b'a', 0x00], "server_port", ProtocolError::UnexpectedEof),
        (vec![0x00, 0x01, b'a', 0x00, 0x19], "next_state", ProtocolError::UnexpectedEof),
    ];
    for (bytes, field, cause) in cases {
        let mut cursor = ByteCursor::new(&bytes);
        assert_eq!(
            Handshake::read(&mut cursor),
            Err(ProtocolError::FieldDecodeError {
                packet: "Handshake",
                field,
                cause: Box::new(cause),
            })
        );
        assert_eq!(cursor.position(), 0);
    }
}

#[test]
fn handshake_to_and_from_fields() {
    let packet = handshake(2);
    let values = packet.to_fields();
    assert_eq!(
        values,
        vec![
            FieldValue::VarInt(0),
            FieldValue::Text(String::from("test")),
            FieldValue::UnsignedShort(25),
            FieldValue::VarInt(2),
        ]
    );
    assert_eq!(Handshake::from_fields(&values), Some(packet));
}

#[test]
fn handshake_from_fields_refuses_other_shapes() {
    assert_eq!(Handshake::from_fields(&vec![]), None);
    let mut short = handshake(1).to_fields();
    short.pop();
    assert_eq!(Handshake::from_fields(&short), None);
    let mut long = handshake(1).to_fields();
    long.push(FieldValue::VarInt(0));
    assert_eq!(Handshake::from_fields(&long), None);
    for at in 0..4 {
        let mut wrong = handshake(1).to_fields();
        wrong[at] = FieldValue::Long(1);
        assert_eq!(Handshake::from_fields(&wrong), None);
    }
    let mut swapped = handshake(1).to_fields();
    swapped.swap(0, 1);
    assert_eq!(Handshake::from_fields(&swapped), None);
}

#[test]
fn handshake_rendering() {
    assert_eq!(
        handshake(1).render(),
        "Handshake {\n\tprotocol_version: 0\n\tserver_address: test\n\tserver_port: 25\n\tnext_state: 1\n}"
    );
    let other = Handshake {
        protocol_version: -47,
        server_address: String::new(),
        server_port: 65535,
        next_state: i32::MIN,
    };
    assert_eq!(
        other.render(),
        "Handshake {\n\tprotocol_version: -47\n\tserver_address: \n\tserver_port: 65535\n\tnext_state: -2147483648\n}"
    );
}

#[test]
fn schema_without_fields() {
    let schema = PacketSchema::new("Empty");
    let bytes = [0x01, 0x02];
    let mut cursor = ByteCursor::new(&bytes);
    assert_eq!(schema.read(&mut cursor), Ok(vec![]));
    assert_eq!(cursor.position(), 0);
    assert_eq!(schema.render(&vec![]), "Empty {\n}");
}

#[test]
fn schema_reads_every_field_type_in_order() {
    let schema = PacketSchema::new("Everything")
        .with_field("a", FieldType::VarInt)
        .with_field("b", FieldType::Short)
        .with_field("c", FieldType::Int)
        .with_field("d", FieldType::Long)
        .with_field("e", FieldType::UnsignedShort)
        .with_field("f", FieldType::UnsignedInt)
        .with_field("g", FieldType::UnsignedLong)
        .with_field("h", FieldType::Float)
        .with_field("i", FieldType::Double)
        .with_field("j", FieldType::Text);
    let mut bytes: Vec<u8> = vec![0xac, 0x02];
    bytes.extend_from_slice(&[0xff, 0xff]);
    bytes.extend_from_slice(&[0x00, 0x00, 0x01, 0x00]);
    bytes.extend_from_slice(&[0xff, 0xff, 0xff, 0xff, 0xff, 0xff, 0xff, 0xfe]);
    bytes.extend_from_slice(&[0xff, 0xff]);
    bytes.extend_from_slice(&[0xff, 0xff, 0xff, 0xff]);
    bytes.extend_from_slice(&[0xff, 0xff, 0xff, 0xff, 0xff, 0xff, 0xff, 0xff]);
    bytes.extend_from_slice(&[0x3f, 0x80, 0x00, 0x00]);
    bytes.extend_from_slice(&[0x40, 0x00, 0x00, 0x00, 0x00, 0x00, 0x00, 0x00]);
    bytes.extend_from_slice(&[0x02, b'o', b'k']);
    let mut cursor = ByteCursor::new(&bytes);
    let values = schema.read(&mut cursor).unwrap();
    assert_eq!(
        values,
        vec![
            FieldValue::VarInt(300),
            FieldValue::Short(-1),
            FieldValue::Int(256),
            FieldValue::Long(-2),
            FieldValue::UnsignedShort(65535),
            FieldValue::UnsignedInt(4294967295),
            FieldValue::UnsignedLong(18446744073709551615),
            FieldValue::Float(0x3f80_0000),
            FieldValue::Double(0x4000_0000_0000_0000),
            FieldValue::Text(String::from("ok")),
        ]
    );
    assert!(cursor.is_exhausted());
    assert_eq!(
        schema.render(&values),
        "Everything {\n\ta: 300\n\tb: -1\n\tc: 256\n\td: -2\n\te: 65535\n\tf: 4294967295\n\tg: 18446744073709551615\n\th: 0x3f800000\n\ti: 0x4000000000000000\n\tj: ok\n}"
    );
}

#[test]
fn schema_failure_is_that_of_the_first_failing_field() {
    let schema = PacketSchema::new("Pair")
        .with_field("first", FieldType::Int)
        .with_field("second", FieldType::Text);
    let bytes = [0x00, 0x00, 0x00, 0x07, 0x03, b'a'];
    let mut cursor = ByteCursor::new(&bytes);
    assert_eq!(
        schema.read(&mut cursor),
        Err(ProtocolError::FieldDecodeError {
            packet: "Pair",
            field: "second",
            cause: Box::new(ProtocolError::UnexpectedEof),
        })
    );
    assert_eq!(cursor.position(), 0);
    let mut cursor = ByteCursor::new(&bytes[..3]);
    assert_eq!(
        schema.read(&mut cursor),
        Err(ProtocolError::FieldDecodeError {
            packet: "Pair",
            field: "first",
            cause: Box::new(ProtocolError::UnexpectedEof),
        })
    );
}

#[test]
fn render_stops_at_the_shorter_list() {
    let schema = PacketSchema::new("Pair")
        .with_field("first", FieldType::Int)
        .with_field("second", FieldType::Text);
    assert_eq!(schema.render(&vec![FieldValue::Int(7)]), "Pair {\n\tfirst: 7\n}");
    assert_eq!(
        schema.render(&vec![
            FieldValue::Int(7),
            FieldValue::Text(String::from("x")),
            FieldValue::Int(9)
        ]),
        "Pair {\n\tfirst: 7\n\tsecond: x\n}"
    );
}

#[test]
fn read_field_on_its_own() {
    let bytes = [0x00, 0x19, 0x7f];
    let mut cursor = ByteCursor::new(&bytes);
    assert_eq!(
        read_field(FieldType::UnsignedShort, &mut cursor),
        Ok(FieldValue::UnsignedShort(25))
    );
    assert_eq!(read_field(FieldType::VarInt, &mut cursor), Ok(FieldValue::VarInt(127)));
    assert_eq!(read_field(FieldType::Text, &mut cursor), Err(ProtocolError::UnexpectedEof));
}

#[test]
fn dispatch_unregistered_id_is_unknown_packet() {
    let table = DispatchTable::for_phase(ClientStatus::Handshake);
    let bytes = [0x01, 0x00, 0x04, b't', b'e', b's', b't', 0x00, 0x19, 0x01];
    let mut cursor = ByteCursor::new(&bytes);
    assert_eq!(
        table.decode_next(&mut cursor),
        Err(ProtocolError::UnknownPacketId { id: 1, phase: ClientStatus::Handshake })
    );
    assert_eq!(cursor.position(), 0);
}

#[test]
fn dispatch_same_id_is_unknown_in_another_phase() {
    for phase in [ClientStatus::Status, ClientStatus::Login, ClientStatus::Play] {
        let table = DispatchTable::for_phase(phase);
        assert_eq!(table.status(), phase);
        assert_eq!(table.lookup(0), None);
        let mut cursor = ByteCursor::new(&HANDSHAKE_TO_STATUS);
        assert_eq!(
            table.decode_next(&mut cursor),
            Err(ProtocolError::UnknownPacketId { id: 0, phase })
        );
    }
}

#[test]
fn dispatch_registered_id_decodes_the_fields_in_order() {
    let table = DispatchTable::for_phase(ClientStatus::Handshake);
    assert_eq!(table.lookup(0), Some(PacketKind::Handshake));
    let mut cursor = ByteCursor::new(&HANDSHAKE_TO_STATUS);
    assert_eq!(
        table.decode_next(&mut cursor),
        Ok(Dispatched { id: 0, packet: IncomingPacket::Handshake(handshake(1)) })
    );
    assert!(cursor.is_exhausted());
}

#[test]
fn dispatch_ids_are_the_callers() {
    let mut table = DispatchTable::new(ClientStatus::Login);
    assert_eq!(table.lookup(0x7a), None);
    assert_eq!(table.register(0x7a, PacketKind::Handshake), Ok(()));
    assert_eq!(table.register(-3, PacketKind::Handshake), Ok(()));
    assert_eq!(table.lookup(0x7a), Some(PacketKind::Handshake));
    assert_eq!(table.lookup(-3), Some(PacketKind::Handshake));
    assert_eq!(table.lookup(0), None);
    let mut bytes = vec![0x7a];
    bytes.extend_from_slice(&HANDSHAKE_TO_STATUS[1..]);
    let mut cursor = ByteCursor::new(&bytes);
    let decoded = table.decode_next(&mut cursor).unwrap();
    assert_eq!(decoded.id, 0x7a);
    assert_eq!(decoded.packet.kind(), PacketKind::Handshake);
}

#[test]
fn dispatch_refuses_a_duplicate_id() {
    let mut table = DispatchTable::for_phase(ClientStatus::Handshake);
    assert_eq!(
        table.register(0, PacketKind::Handshake),
        Err(ProtocolError::DuplicatePacketId { id: 0, phase: ClientStatus::Handshake })
    );
    assert_eq!(table.lookup(0), Some(PacketKind::Handshake));
}

#[test]
fn dispatch_failures_of_id_and_fields() {
    let table = DispatchTable::for_phase(ClientStatus::Handshake);
    let mut cursor = ByteCursor::new(&[]);
    assert_eq!(table.decode_next(&mut cursor), Err(ProtocolError::UnexpectedEof));
    let overlong = [0x80, 0x80, 0x80, 0x80, 0x80, 0x80];
    let mut cursor = ByteCursor::new(&overlong);
    assert_eq!(table.decode_next(&mut cursor), Err(ProtocolError::MalformedVarInt));
    let mut cursor = ByteCursor::new(&HANDSHAKE_TO_STATUS[..8]);
    assert_eq!(
        table.decode_next(&mut cursor),
        Err(ProtocolError::FieldDecodeError {
            packet: "Handshake",
            field: "server_port",
            cause: Box::new(ProtocolError::UnexpectedEof),
        })
    );
    assert_eq!(cursor.position(), 0);
}

#[test]
fn handshake_to_login() {
    let mut connection = Connection::new();
    assert_eq!(handshake(2).handle(&mut connection), Ok(()));
    assert_eq!(connection.status(), ClientStatus::Login);
}

#[test]
fn handshake_to_status() {
    let mut connection = Connection::new();
    assert_eq!(handshake(1).handle(&mut connection), Ok(()));
    assert_eq!(connection.status(), ClientStatus::Status);
}

#[test]
fn handshake_to_nowhere_is_an_invalid_transition() {
    for selector in [99, 0, 3, -1, i32::MAX] {
        let mut connection = Connection::new();
        assert_eq!(
            handshake(selector).handle(&mut connection),
            Err(ProtocolError::InvalidStateTransition { from: ClientStatus::Handshake, to: None })
        );
        assert_eq!(connection.status(), ClientStatus::Handshake);
        assert!(connection.is_open());
    }
}

#[test]
fn handshake_after_the_handshake_is_an_invalid_transition() {
    let mut connection = Connection::new();
    assert_eq!(handshake(2).handle(&mut connection), Ok(()));
    assert_eq!(
        handshake(1).handle(&mut connection),
        Err(ProtocolError::InvalidStateTransition {
            from: ClientStatus::Login,
            to: Some(ClientStatus::Status),
        })
    );
    assert_eq!(connection.status(), ClientStatus::Login);
}

#[test]
fn process_traces_then_handles() {
    let packet = Dispatched { id: 0, packet: IncomingPacket::Handshake(handshake(1)) };
    assert_eq!(packet.header(), "handling packet [0x0](Handshake)");
    let mut connection = Connection::new();
    assert_eq!(packet.process(&mut connection), Ok(()));
    assert_eq!(connection.status(), ClientStatus::Status);
    assert_eq!(
        connection.take_trace(),
        vec![
            TraceEntry {
                level: LogLevel::Debug,
                text: String::from("handling packet [0x0](Handshake)"),
            },
            TraceEntry { level: LogLevel::Trace, text: handshake(1).render() },
        ]
    );
    assert_eq!(connection.take_trace(), Vec::<TraceEntry>::new());
}

#[test]
fn process_traces_a_packet_whose_handler_fails() {
    let packet = Dispatched { id: 0x2a, packet: IncomingPacket::Handshake(handshake(99)) };
    let mut connection = Connection::new();
    assert_eq!(
        packet.process(&mut connection),
        Err(ProtocolError::InvalidStateTransition { from: ClientStatus::Handshake, to: None })
    );
    let trace = connection.take_trace();
    assert_eq!(trace.len(), 2);
    assert_eq!(trace[0].level, LogLevel::Debug);
    assert_eq!(trace[0].text, "handling packet [0x2a](Handshake)");
    assert_eq!(trace[1].level, LogLevel::Trace);
    assert_eq!(trace[1].text, handshake(99).render());
}

#[test]
fn header_shows_a_negative_id_by_its_bits() {
    let packet = Dispatched { id: -1, packet: IncomingPacket::Handshake(handshake(1)) };
    assert_eq!(packet.header(), "handling packet [0xffffffff](Handshake)");
    assert_eq!(packet.header(), format!("handling packet [{:#02x}]({})", -1i32, "Handshake"));
}

#[test]
fn end_to_end_handshake() {
    let table = DispatchTable::for_phase(ClientStatus::Handshake);
    let mut cursor = ByteCursor::new(&HANDSHAKE_TO_STATUS);
    let decoded = table.decode_next(&mut cursor).unwrap();
    assert_eq!(decoded.id, 0);
    match &decoded.packet {
        IncomingPacket::Handshake(packet) => {
            assert_eq!(packet.protocol_version, 0);
            assert_eq!(packet.server_address, "test");
            assert_eq!(packet.server_port, 25);
            assert_eq!(packet.next_state, 1);
        }
    }
    let mut connection = Connection::new();
    assert_eq!(connection.status(), ClientStatus::Handshake);
    assert_eq!(decoded.process(&mut connection), Ok(()));
    assert_eq!(connection.status(), ClientStatus::Status);
}

#[test]
fn error_messages() {
    assert_eq!(ProtocolError::MalformedVarInt.message(), "VarInt too long (max length: 5)");
    assert_eq!(ProtocolError::UnexpectedEof.message(), "unexpected end of input");
    assert_eq!(ProtocolError::InvalidEncoding.message(), "string contained invalid UTF8");
    assert_eq!(ProtocolError::Io.message(), "transport failure");
    assert_eq!(
        ProtocolError::InvalidLength { declared: -1 }.message(),
        "string length -1 is not within 0 and 32767"
    );
    assert_eq!(
        ProtocolError::UnknownPacketId { id: 5, phase: ClientStatus::Play }.message(),
        "unknown packet ID 5 in phase Play"
    );
    assert_eq!(
        ProtocolError::DuplicatePacketId { id: 0, phase: ClientStatus::Handshake }.message(),
        "packet ID 0 is already registered in phase Handshake"
    );
    assert_eq!(
        ProtocolError::InvalidStateTransition {
            from: ClientStatus::Login,
            to: Some(ClientStatus::Status),
        }
        .message(),
        "phase Status cannot follow phase Login"
    );
    assert_eq!(
        ProtocolError::InvalidStateTransition { from: ClientStatus::Handshake, to: None }
            .message(),
        "no phase was named to follow phase Handshake"
    );
    assert_eq!(
        ProtocolError::FieldDecodeError {
            packet: "Handshake",
            field: "server_port",
            cause: Box::new(ProtocolError::UnexpectedEof),
        }
        .message(),
        "failed to read field `server_port` of packet `Handshake`: unexpected end of input"
    );
}

#[test]
fn root_cause_is_the_primitive_failure() {
    let nested = ProtocolError::FieldDecodeError {
        packet: "Outer",
        field: "inner",
        cause: Box::new(ProtocolError::FieldDecodeError {
            packet: "Inner",
            field: "length",
            cause: Box::new(ProtocolError::MalformedVarInt),
        }),
    };
    assert_eq!(nested.root_cause(), &ProtocolError::MalformedVarInt);
    assert_eq!(ProtocolError::Io.root_cause(), &ProtocolError::Io);
    assert_eq!(
        nested.message(),
        "failed to read field `inner` of packet `Outer`: failed to read field `length` of packet `Inner`: VarInt too long (max length: 5)"
    );
}

#[test]
fn phase_names() {
    assert_eq!(ClientStatus::Handshake.name(), "Handshake");
    assert_eq!(ClientStatus::Status.name(), "Status");
    assert_eq!(ClientStatus::Login.name(), "Login");
    assert_eq!(ClientStatus::Play.name(), "Play");
    assert_eq!(PacketKind::Handshake.name(), "Handshake");
}
