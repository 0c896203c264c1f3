//! Wire-protocol codec and connection state machine of a length-framed,
//! stateful game protocol: variable-length integers, primitive readers,
//! packet schemas, per-phase dispatch and the per-connection phase machine.

pub mod channel;
pub mod connection;
pub mod cursor;
pub mod dispatch;
pub mod error;
pub mod journal;
pub mod packets;
pub mod readable;
pub mod schema;
pub mod server;
pub mod state;
pub mod text;
pub mod tools;
pub mod varint;
