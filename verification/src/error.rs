//! The error taxonomy of the client: connection, protocol, eviction,
//! timeout, oversize and misuse failures.

use vstd::prelude::*;
use crate::header::EvictionReason;

verus! {

/// What a client operation can fail with.
#[derive(Debug, PartialEq, Eq)]
pub enum ClientError {
    /// A connect, send or receive failed, with a description.
    Connection(String),
    /// The reply was corrupted or malformed.
    Protocol(ProtocolError),
    /// The server evicted this session; terminal for the handle.
    Evicted(EvictionReason),
    /// The per-attempt timer elapsed; the retry loop handles it.
    Timeout,
    /// An operation was issued before the session was registered.
    NotRegistered,
    /// An operation was issued after the session was closed.
    Shutdown,
    /// The request body exceeds the server's batch size limit; nothing
    /// was sent.
    RequestTooLarge {
        /// The size of the request body in bytes.
        size: u32,
        /// The batch size limit in bytes.
        limit: u32,
    },
    /// The operation is invalid in the session's current state.
    InvalidOperation,
}

impl ClientError {
    /// A short description of the error.
    pub fn message(&self) -> (r: &'static str)
        ensures
            r@ == match *self {
                ClientError::Connection(_) => "connection error"@,
                ClientError::Protocol(_) => "protocol error"@,
                ClientError::Evicted(_) => "client evicted"@,
                ClientError::Timeout => "operation timed out"@,
                ClientError::NotRegistered => "client not registered"@,
                ClientError::Shutdown => "client is shutting down"@,
                ClientError::RequestTooLarge { .. } => "request too large"@,
                ClientError::InvalidOperation => "invalid operation for current state"@,
            },
    {
        match self {
            ClientError::Connection(_) => "connection error",
            ClientError::Protocol(_) => "protocol error",
            ClientError::Evicted(_) => "client evicted",
            ClientError::Timeout => "operation timed out",
            ClientError::NotRegistered => "client not registered",
            ClientError::Shutdown => "client is shutting down",
            ClientError::RequestTooLarge { .. } => "request too large",
            ClientError::InvalidOperation => "invalid operation for current state",
        }
    }
}

/// Protocol-level corruption or malformation of a reply.
#[derive(Clone, Copy, Debug, PartialEq, Eq, Structural)]
pub enum ProtocolError {
    /// The header checksum did not match.
    InvalidHeaderChecksum,
    /// The body checksum did not match.
    InvalidBodyChecksum,
    /// The header structure was invalid.
    InvalidHeader,
    /// The operation code was invalid.
    InvalidOperation,
    /// A reply arrived that no outstanding request explains.
    UnexpectedReply,
    /// The protocol versions do not match.
    VersionMismatch,
    /// The message size was invalid.
    InvalidSize,
    /// The command code was invalid.
    InvalidCommand,
}

impl ProtocolError {
    /// A short description of the error.
    pub fn message(&self) -> (r: &'static str)
        ensures
            r@ == match *self {
                ProtocolError::InvalidHeaderChecksum => "invalid header checksum"@,
                ProtocolError::InvalidBodyChecksum => "invalid body checksum"@,
                ProtocolError::InvalidHeader => "invalid header structure"@,
                ProtocolError::InvalidOperation => "invalid operation"@,
                ProtocolError::UnexpectedReply => "unexpected reply"@,
                ProtocolError::VersionMismatch => "version mismatch"@,
                ProtocolError::InvalidSize => "invalid message size"@,
                ProtocolError::InvalidCommand => "invalid command"@,
            },
    {
        match self {
            ProtocolError::InvalidHeaderChecksum => "invalid header checksum",
            ProtocolError::InvalidBodyChecksum => "invalid body checksum",
            ProtocolError::InvalidHeader => "invalid header structure",
            ProtocolError::InvalidOperation => "invalid operation",
            ProtocolError::UnexpectedReply => "unexpected reply",
            ProtocolError::VersionMismatch => "version mismatch",
            ProtocolError::InvalidSize => "invalid message size",
            ProtocolError::InvalidCommand => "invalid command",
        }
    }
}

/// Packet-level status codes, mirroring the C client interface.
#[derive(Clone, Copy, Debug, PartialEq, Eq, Structural)]
pub enum PacketStatus {
    /// The operation completed.
    Success,
    /// The request data was too large.
    TooMuchData,
    /// The client was evicted.
    ClientEvicted,
    /// The client's release is too old.
    ClientReleaseTooLow,
    /// The client's release is too new.
    ClientReleaseTooHigh,
    /// The client was shut down.
    ClientShutdown,
    /// The operation was invalid.
    InvalidOperation,
    /// The data size was invalid.
    InvalidDataSize,
}

impl PacketStatus {
    /// A short description of the status.
    pub fn message(&self) -> (r: &'static str)
        ensures
            r@ == match *self {
                PacketStatus::Success => "ok"@,
                PacketStatus::TooMuchData => "too much data"@,
                PacketStatus::ClientEvicted => "client evicted"@,
                PacketStatus::ClientReleaseTooLow => "client release too low"@,
                PacketStatus::ClientReleaseTooHigh => "client release too high"@,
                PacketStatus::ClientShutdown => "client shutdown"@,
                PacketStatus::InvalidOperation => "invalid operation"@,
                PacketStatus::InvalidDataSize => "invalid data size"@,
            },
    {
        match self {
            PacketStatus::Success => "ok",
            PacketStatus::TooMuchData => "too much data",
            PacketStatus::ClientEvicted => "client evicted",
            PacketStatus::ClientReleaseTooLow => "client release too low",
            PacketStatus::ClientReleaseTooHigh => "client release too high",
            PacketStatus::ClientShutdown => "client shutdown",
            PacketStatus::InvalidOperation => "invalid operation",
            PacketStatus::InvalidDataSize => "invalid data size",
        }
    }
}

/// Initialization status codes.
#[derive(Clone, Copy, Debug, PartialEq, Eq, Structural)]
pub enum InitStatus {
    /// Initialization succeeded.
    Success,
    /// An unexpected error occurred.
    Unexpected,
    /// Memory was exhausted.
    OutOfMemory,
    /// An address was invalid.
    AddressInvalid,
    /// Too many addresses were given.
    AddressLimitExceeded,
    /// A system resource was exhausted.
    SystemResources,
    /// The network subsystem failed.
    NetworkSubsystem,
}

impl InitStatus {
    /// A short description of the status.
    pub fn message(&self) -> (r: &'static str)
        ensures
            r@ == match *self {
                InitStatus::Success => "success"@,
                InitStatus::Unexpected => "unexpected error"@,
                InitStatus::OutOfMemory => "out of memory"@,
                InitStatus::AddressInvalid => "invalid address"@,
                InitStatus::AddressLimitExceeded => "address limit exceeded"@,
                InitStatus::SystemResources => "system resources error"@,
                InitStatus::NetworkSubsystem => "network subsystem error"@,
            },
    {
        match self {
            InitStatus::Success => "success",
            InitStatus::Unexpected => "unexpected error",
            InitStatus::OutOfMemory => "out of memory",
            InitStatus::AddressInvalid => "invalid address",
            InitStatus::AddressLimitExceeded => "address limit exceeded",
            InitStatus::SystemResources => "system resources error",
            InitStatus::NetworkSubsystem => "network subsystem error",
        }
    }
}

} // verus!
