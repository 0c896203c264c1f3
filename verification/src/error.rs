use vstd::prelude::*;
use vstd::string::StringExecFns;
use crate::state::ClientStatus;
use crate::text::{decimal_text, push_signed};

verus! {

/// Everything that can go wrong while decoding and handling protocol data.
#[derive(Debug, PartialEq, Eq)]
pub enum ProtocolError {
    /// A variable-length integer went on past its fifth group.
    MalformedVarInt,
    /// Fewer bytes were available than the value being read requires.
    UnexpectedEof,
    /// A string declared a length that is negative or above the allowed maximum.
    InvalidLength { declared: i32 },
    /// The bytes of a string are not valid UTF-8.
    InvalidEncoding,
    /// A field of a packet failed to decode; `cause` is the failure of the
    /// primitive reader, kept as it was.
    FieldDecodeError { packet: &'static str, field: &'static str, cause: Box<ProtocolError> },
    /// No packet is registered under `id` in `phase`.
    UnknownPacketId { id: i32, phase: ClientStatus },
    /// `id` was to be registered a second time in the table of `phase`.
    DuplicatePacketId { id: i32, phase: ClientStatus },
    /// A connection in phase `from` was asked to move to a phase that cannot
    /// follow it; `to` is that phase, or nothing where the request named none.
    InvalidStateTransition { from: ClientStatus, to: Option<ClientStatus> },
    /// The transport failed.
    Io,
}

/// What `message` says of an error.
pub open spec fn message_text(error: ProtocolError) -> Seq<char>
    decreases error,
{
    match error {
        ProtocolError::MalformedVarInt => "VarInt too long (max length: 5)"@,
        ProtocolError::UnexpectedEof => "unexpected end of input"@,
        ProtocolError::InvalidLength { declared } => "string length "@ + decimal_text(
            declared as int,
        ) + " is not within 0 and 32767"@,
        ProtocolError::InvalidEncoding => "string contained invalid UTF8"@,
        ProtocolError::FieldDecodeError { packet, field, cause } => "failed to read field `"@
            + field@ + "` of packet `"@ + packet@ + "`: "@ + message_text(*cause),
        ProtocolError::UnknownPacketId { id, phase } => "unknown packet ID "@ + decimal_text(
            id as int,
        ) + " in phase "@ + phase.label(),
        ProtocolError::DuplicatePacketId { id, phase } => "packet ID "@ + decimal_text(id as int)
            + " is already registered in phase "@ + phase.label(),
        ProtocolError::InvalidStateTransition { from, to } => match to {
            Some(next) => "phase "@ + next.label() + " cannot follow phase "@ + from.label(),
            None => "no phase was named to follow phase "@ + from.label(),
        },
        ProtocolError::Io => "transport failure"@,
    }
}

impl ProtocolError {
    /// The failure at the bottom of the error: the error itself, or for a
    /// `FieldDecodeError` the failure at the bottom of its cause.
    pub open spec fn root(self) -> ProtocolError
        decreases self,
    {
        match self {
            ProtocolError::FieldDecodeError { packet, field, cause } => cause.root(),
            other => other,
        }
    }

    /// The error in words, a `FieldDecodeError` followed by its cause.
    pub fn message(&self) -> (text: String)
        ensures
            text@ == message_text(*self),
        decreases self,
    {
        let mut text = String::new();
        match self {
            ProtocolError::MalformedVarInt => {
                text.append("VarInt too long (max length: 5)");
            },
            ProtocolError::UnexpectedEof => {
                text.append("unexpected end of input");
            },
            ProtocolError::InvalidLength { declared } => {
                text.append("string length ");
                push_signed(&mut text, *declared as i64);
                text.append(" is not within 0 and 32767");
            },
            ProtocolError::InvalidEncoding => {
                text.append("string contained invalid UTF8");
            },
            ProtocolError::FieldDecodeError { packet, field, cause } => {
                text.append("failed to read field `");
                text.append(field);
                text.append("` of packet `");
                text.append(packet);
                text.append("`: ");
                let inner = cause.message();
                text.append(inner.as_str());
            },
            ProtocolError::UnknownPacketId { id, phase } => {
                text.append("unknown packet ID ");
                push_signed(&mut text, *id as i64);
                text.append(" in phase ");
                text.append(phase.name());
            },
            ProtocolError::DuplicatePacketId { id, phase } => {
                text.append("packet ID ");
                push_signed(&mut text, *id as i64);
                text.append(" is already registered in phase ");
                text.append(phase.name());
            },
            ProtocolError::InvalidStateTransition { from, to } => match to {
                Some(next) => {
                    text.append("phase ");
                    text.append(next.name());
                    text.append(" cannot follow phase ");
                    text.append(from.name());
                },
                None => {
                    text.append("no phase was named to follow phase ");
                    text.append(from.name());
                },
            },
            ProtocolError::Io => {
                text.append("transport failure");
            },
        }
        assert(text@ =~= message_text(*self));
        text
    }

    /// The failure at the bottom of the error.
    pub fn root_cause(&self) -> (cause: &ProtocolError)
        ensures
            *cause == self.root(),
            !(*cause is FieldDecodeError),
        decreases self,
    {
        match self {
            ProtocolError::FieldDecodeError { packet, field, cause } => cause.root_cause(),
            other => other,
        }
    }
}

} // verus!
