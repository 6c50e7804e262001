use vstd::prelude::*;

verus! {

/// Ways in which a frame or a message breaks the wire protocol.
#[derive(Debug, Clone, PartialEq, Eq)]
pub enum ProtocolError {
    /// The peer answered with an opcode other than the expected one.
    UnexpectedOpcode(u32),
    /// Fewer than the eight header bytes arrived.
    ShortHeader,
    /// Fewer payload bytes arrived than the header announced.
    ShortBody,
    /// The payload does not have the shape of a response or of an error.
    MalformedMessage,
    /// The payload is too long for the header's 32-bit length field.
    FrameTooLarge,
}

/// Errors surfaced by the protocol client; each one ends the current operation.
#[derive(Debug, Clone, PartialEq, Eq)]
pub enum IpcError {
    /// No directory entry looks like an endpoint.
    Discovery,
    /// Every candidate endpoint refused the connection.
    Connection { attempts: usize },
    Protocol(ProtocolError),
    /// The peer sent an error payload.
    Remote { code: u32, message: String },
    /// The operation needs an open connection and there is none.
    NotConnected,
}

} // verus!
