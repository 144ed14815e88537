//! Protocol commands and state-machine operations.

use vstd::prelude::*;

verus! {

/// Operation codes below this bound are reserved for the replication
/// protocol itself; codes at or above it belong to the state machine.
pub const VSR_OPERATIONS_RESERVED: u8 = 128;

/// Message types of the replication protocol.
#[derive(Clone, Copy, Debug, PartialEq, Eq, Structural)]
pub enum Command {
    /// Reserved/invalid command (the default).
    Reserved,
    /// Replica-to-replica ping for liveness detection.
    Ping,
    /// Replica-to-replica pong response.
    Pong,
    /// Client-to-replica ping for connection keepalive.
    PingClient,
    /// Replica-to-client pong response.
    PongClient,
    /// Client request message.
    Request,
    /// Leader prepare message to followers.
    Prepare,
    /// Follower acknowledgment of prepare.
    PrepareOk,
    /// Reply to a client request.
    Reply,
    /// Commit notification from the leader.
    Commit,
    /// Initiate the view change protocol.
    StartViewChange,
    /// View change proposal with log state.
    DoViewChange,
    /// Request to start a new view.
    RequestStartView,
    /// Request message headers from a peer.
    RequestHeaders,
    /// Request a specific prepare message.
    RequestPrepare,
    /// Request a specific reply message.
    RequestReply,
    /// Response containing message headers.
    Headers,
    /// Client eviction notification.
    Eviction,
    /// Request storage blocks from a peer.
    RequestBlocks,
    /// Response containing a storage block.
    Block,
    /// Announce a new view to the cluster.
    StartView,
}

impl Command {
    /// The code this command takes on the wire.
    pub open spec fn spec_code(self) -> u8 {
        match self {
            Command::Reserved => 0,
            Command::Ping => 1,
            Command::Pong => 2,
            Command::PingClient => 3,
            Command::PongClient => 4,
            Command::Request => 5,
            Command::Prepare => 6,
            Command::PrepareOk => 7,
            Command::Reply => 8,
            Command::Commit => 9,
            Command::StartViewChange => 10,
            Command::DoViewChange => 11,
            Command::RequestStartView => 13,
            Command::RequestHeaders => 14,
            Command::RequestPrepare => 15,
            Command::RequestReply => 16,
            Command::Headers => 17,
            Command::Eviction => 18,
            Command::RequestBlocks => 19,
            Command::Block => 20,
            Command::StartView => 24,
        }
    }

    /// Whether some command carries this wire code.
    pub open spec fn spec_code_valid(value: u8) -> bool {
        (value <= 11) || (13 <= value <= 20) || value == 24
    }

    /// The code this command takes on the wire.
    pub fn as_u8(self) -> (r: u8)
        ensures
            r == self.spec_code(),
    {
        match self {
            Command::Reserved => 0,
            Command::Ping => 1,
            Command::Pong => 2,
            Command::PingClient => 3,
            Command::PongClient => 4,
            Command::Request => 5,
            Command::Prepare => 6,
            Command::PrepareOk => 7,
            Command::Reply => 8,
            Command::Commit => 9,
            Command::StartViewChange => 10,
            Command::DoViewChange => 11,
            Command::RequestStartView => 13,
            Command::RequestHeaders => 14,
            Command::RequestPrepare => 15,
            Command::RequestReply => 16,
            Command::Headers => 17,
            Command::Eviction => 18,
            Command::RequestBlocks => 19,
            Command::Block => 20,
            Command::StartView => 24,
        }
    }

    /// The command carrying a wire code, or the code back as the error when
    /// no command does (the deprecated and unassigned codes).
    pub fn try_from(value: u8) -> (r: Result<Command, u8>)
        ensures
            r is Ok <==> Command::spec_code_valid(value),
            r matches Ok(c) ==> c.spec_code() == value,
            r matches Err(v) ==> v == value,
    {
        match value {
            0 => Ok(Command::Reserved),
            1 => Ok(Command::Ping),
            2 => Ok(Command::Pong),
            3 => Ok(Command::PingClient),
            4 => Ok(Command::PongClient),
            5 => Ok(Command::Request),
            6 => Ok(Command::Prepare),
            7 => Ok(Command::PrepareOk),
            8 => Ok(Command::Reply),
            9 => Ok(Command::Commit),
            10 => Ok(Command::StartViewChange),
            11 => Ok(Command::DoViewChange),
            13 => Ok(Command::RequestStartView),
            14 => Ok(Command::RequestHeaders),
            15 => Ok(Command::RequestPrepare),
            16 => Ok(Command::RequestReply),
            17 => Ok(Command::Headers),
            18 => Ok(Command::Eviction),
            19 => Ok(Command::RequestBlocks),
            20 => Ok(Command::Block),
            24 => Ok(Command::StartView),
            _ => Err(value),
        }
    }

    /// Whether a client (rather than a replica) emits this command.
    pub fn is_client_command(self) -> (r: bool)
        ensures
            r == (self is Request || self is PingClient),
    {
        match self {
            Command::Request => true,
            Command::PingClient => true,
            _ => false,
        }
    }
}

impl Default for Command {
    /// The reserved command.
    fn default() -> (r: Self)
        ensures
            r is Reserved,
    {
        Command::Reserved
    }
}

/// State-machine operations a request can carry.
#[derive(Clone, Copy, Debug, PartialEq, Eq, Structural)]
pub enum Operation {
    /// Reserved/invalid operation (the default).
    Reserved,
    /// Root operation for bootstrap.
    Root,
    /// Register a new client session.
    Register,
    /// Reconfigure cluster membership.
    Reconfigure,
    /// Periodic pulse for time-based operations.
    Pulse,
    /// Upgrade the cluster to a new version.
    Upgrade,
    /// No-op for log compaction.
    Noop,
    /// Create accounts (batch).
    CreateAccounts,
    /// Create transfers (batch).
    CreateTransfers,
    /// Look up accounts by id (batch).
    LookupAccounts,
    /// Look up transfers by id (batch).
    LookupTransfers,
    /// Get the transfers touching an account (single filter).
    GetAccountTransfers,
    /// Get the balance history of an account (single filter).
    GetAccountBalances,
    /// Query accounts (single filter).
    QueryAccounts,
    /// Query transfers (single filter).
    QueryTransfers,
}

impl Operation {
    /// The code this operation takes on the wire.
    pub open spec fn spec_code(self) -> u8 {
        match self {
            Operation::Reserved => 0,
            Operation::Root => 1,
            Operation::Register => 2,
            Operation::Reconfigure => 3,
            Operation::Pulse => 4,
            Operation::Upgrade => 5,
            Operation::Noop => 6,
            Operation::CreateAccounts => 138,
            Operation::CreateTransfers => 139,
            Operation::LookupAccounts => 140,
            Operation::LookupTransfers => 141,
            Operation::GetAccountTransfers => 142,
            Operation::GetAccountBalances => 143,
            Operation::QueryAccounts => 144,
            Operation::QueryTransfers => 145,
        }
    }

    /// Whether some operation carries this wire code.
    pub open spec fn spec_code_valid(value: u8) -> bool {
        value <= 6 || (138 <= value <= 145)
    }

    /// The code this operation takes on the wire.
    pub fn as_u8(self) -> (r: u8)
        ensures
            r == self.spec_code(),
    {
        match self {
            Operation::Reserved => 0,
            Operation::Root => 1,
            Operation::Register => 2,
            Operation::Reconfigure => 3,
            Operation::Pulse => 4,
            Operation::Upgrade => 5,
            Operation::Noop => 6,
            Operation::CreateAccounts => 138,
            Operation::CreateTransfers => 139,
            Operation::LookupAccounts => 140,
            Operation::LookupTransfers => 141,
            Operation::GetAccountTransfers => 142,
            Operation::GetAccountBalances => 143,
            Operation::QueryAccounts => 144,
            Operation::QueryTransfers => 145,
        }
    }

    /// The operation carrying a wire code, or the code back as the error
    /// when none does.
    pub fn try_from(value: u8) -> (r: Result<Operation, u8>)
        ensures
            r is Ok <==> Operation::spec_code_valid(value),
            r matches Ok(op) ==> op.spec_code() == value,
            r matches Err(v) ==> v == value,
    {
        match value {
            0 => Ok(Operation::Reserved),
            1 => Ok(Operation::Root),
            2 => Ok(Operation::Register),
            3 => Ok(Operation::Reconfigure),
            4 => Ok(Operation::Pulse),
            5 => Ok(Operation::Upgrade),
            6 => Ok(Operation::Noop),
            138 => Ok(Operation::CreateAccounts),
            139 => Ok(Operation::CreateTransfers),
            140 => Ok(Operation::LookupAccounts),
            141 => Ok(Operation::LookupTransfers),
            142 => Ok(Operation::GetAccountTransfers),
            143 => Ok(Operation::GetAccountBalances),
            144 => Ok(Operation::QueryAccounts),
            145 => Ok(Operation::QueryTransfers),
            _ => Err(value),
        }
    }

    /// Whether this operation is reserved for the replication protocol.
    pub fn is_vsr_reserved(self) -> (r: bool)
        ensures
            r == (self.spec_code() < VSR_OPERATIONS_RESERVED),
    {
        self.as_u8() < VSR_OPERATIONS_RESERVED
    }

    /// Whether this operation takes a batch of more than one input element.
    pub fn is_batchable(self) -> (r: bool)
        ensures
            r == (self is CreateAccounts || self is CreateTransfers
                || self is LookupAccounts || self is LookupTransfers),
    {
        match self {
            Operation::CreateAccounts => true,
            Operation::CreateTransfers => true,
            Operation::LookupAccounts => true,
            Operation::LookupTransfers => true,
            _ => false,
        }
    }

    /// Whether this operation's body uses the multi-batch encoding.
    /// Every state-machine operation does; the protocol-reserved ones do not.
    pub open spec fn spec_is_multi_batch(self) -> bool {
        self.spec_code() >= VSR_OPERATIONS_RESERVED
    }

    /// Whether this operation's body uses the multi-batch encoding.
    pub fn is_multi_batch(self) -> (r: bool)
        ensures
            r == self.spec_is_multi_batch(),
    {
        self.as_u8() >= VSR_OPERATIONS_RESERVED
    }
}

impl Default for Operation {
    /// The reserved operation.
    fn default() -> (r: Self)
        ensures
            r is Reserved,
    {
        Operation::Reserved
    }
}

} // verus!
