//! The fixed 256-byte message header and its command-specific overlays.
//!
//! The last 128 bytes of the header (`reserved_command`) are an overlay
//! whose meaning the `command` byte selects; typed views parse and write
//! that region.

use vstd::prelude::*;
use vstd::bytes::*;
use crate::checksum::{checksum, mac_of};
use crate::operation::{Command, Operation};
use crate::wire::{
    get_u128, get_u16, get_u32, get_u64, get_u8, get_bytes, le_facts, put_bytes, put_u128,
    put_u16, put_u32, put_u64, put_u8, put_zeros, zeros,
};

verus! {

/// Protocol version this client speaks; the server must match it.
pub const PROTOCOL_VERSION: u16 = 0;

/// Size in bytes of the wire header.
pub const HEADER_SIZE: u32 = 256;

/// The wire protocol header (256 bytes, little-endian).
#[derive(Debug)]
pub struct Header {
    /// Checksum covering bytes 16..256 of this header.
    pub checksum: u128,
    /// Padding for future 256-bit checksums; zero.
    pub checksum_padding: u128,
    /// Checksum covering the message body after this header.
    pub checksum_body: u128,
    /// Padding for future 256-bit checksums; zero.
    pub checksum_body_padding: u128,
    /// Reserved for a future AEAD nonce; zero.
    pub nonce_reserved: u128,
    /// Cluster identifier.
    pub cluster: u128,
    /// Total message size: header plus body.
    pub size: u32,
    /// Cluster reconfiguration epoch; zero.
    pub epoch: u32,
    /// Current view number.
    pub view: u32,
    /// Release version of the sender.
    pub release: u32,
    /// Protocol version.
    pub protocol: u16,
    /// Command code (see `Command`).
    pub command: u8,
    /// Index of the replica that authored this message; zero for clients.
    pub replica: u8,
    /// Reserved frame bytes (12 of them); zero.
    pub reserved_frame: Vec<u8>,
    /// Command-specific region (128 bytes); see the overlay types.
    pub reserved_command: Vec<u8>,
}

/// The 256 bytes a header occupies on the wire.
pub open spec fn spec_header_bytes(h: Header) -> Seq<u8> {
    spec_u128_to_le_bytes(h.checksum) + spec_u128_to_le_bytes(h.checksum_padding)
        + spec_u128_to_le_bytes(h.checksum_body) + spec_u128_to_le_bytes(h.checksum_body_padding)
        + spec_u128_to_le_bytes(h.nonce_reserved) + spec_u128_to_le_bytes(h.cluster)
        + spec_u32_to_le_bytes(h.size) + spec_u32_to_le_bytes(h.epoch)
        + spec_u32_to_le_bytes(h.view) + spec_u32_to_le_bytes(h.release)
        + spec_u16_to_le_bytes(h.protocol) + seq![h.command, h.replica]
        + h.reserved_frame@ + h.reserved_command@
}

/// The header checksum: the MAC of bytes 16..256, that is of everything
/// after the checksum field itself.
pub open spec fn spec_header_checksum(h: Header) -> u128 {
    mac_of(spec_header_bytes(h).subrange(16, 256))
}

impl Header {
    /// The byte-run fields have their fixed lengths.
    pub open spec fn wf(&self) -> bool {
        &&& self.reserved_frame@.len() == 12
        &&& self.reserved_command@.len() == 128
    }

    /// A header with the given cluster id and every other field at its
    /// default: zero checksums and reserved regions, `size` of one bare
    /// header, the current protocol version, and the reserved command.
    pub fn new(cluster: u128) -> (r: Header)
        ensures
            r.wf(),
            spec_fresh_header(r, cluster),
    {
        let mut h = Header::default();
        h.cluster = cluster;
        h
    }

    /// The command whose code this header carries, if any does.
    pub fn command(&self) -> (r: Option<Command>)
        ensures
            r is Some <==> Command::spec_code_valid(self.command),
            r matches Some(c) ==> c.spec_code() == self.command,
    {
        match Command::try_from(self.command) {
            Ok(c) => Some(c),
            Err(_) => None,
        }
    }

    /// Set the command code.
    pub fn set_command(&mut self, command: Command)
        ensures
            *final(self) == (Header { command: command.spec_code(), ..*old(self) }),
    {
        self.command = command.as_u8();
    }

    /// Serialize into the 256-byte wire form.
    pub fn to_bytes(&self) -> (r: Vec<u8>)
        requires
            self.wf(),
        ensures
            r@ == spec_header_bytes(*self),
            r@.len() == 256,
    {
        proof {
            le_facts();
        }
        let mut buf: Vec<u8> = Vec::new();
        put_u128(&mut buf, self.checksum);
        put_u128(&mut buf, self.checksum_padding);
        put_u128(&mut buf, self.checksum_body);
        put_u128(&mut buf, self.checksum_body_padding);
        put_u128(&mut buf, self.nonce_reserved);
        put_u128(&mut buf, self.cluster);
        put_u32(&mut buf, self.size);
        put_u32(&mut buf, self.epoch);
        put_u32(&mut buf, self.view);
        put_u32(&mut buf, self.release);
        put_u16(&mut buf, self.protocol);
        put_u8(&mut buf, self.command);
        put_u8(&mut buf, self.replica);
        put_bytes(&mut buf, self.reserved_frame.as_slice());
        put_bytes(&mut buf, self.reserved_command.as_slice());
        proof {
            assert(buf@ =~= spec_header_bytes(*self));
        }
        buf
    }

    /// Parse the 256-byte wire form; every byte is retained, so serializing
    /// the result gives back the input.
    pub fn from_bytes(s: &[u8]) -> (r: Header)
        requires
            s@.len() == 256,
        ensures
            r.wf(),
            spec_header_bytes(r) == s@,
    {
        proof {
            le_facts();
        }
        let r = Header {
            checksum: get_u128(s, 0),
            checksum_padding: get_u128(s, 16),
            checksum_body: get_u128(s, 32),
            checksum_body_padding: get_u128(s, 48),
            nonce_reserved: get_u128(s, 64),
            cluster: get_u128(s, 80),
            size: get_u32(s, 96),
            epoch: get_u32(s, 100),
            view: get_u32(s, 104),
            release: get_u32(s, 108),
            protocol: get_u16(s, 112),
            command: get_u8(s, 114),
            replica: get_u8(s, 115),
            reserved_frame: get_bytes(s, 116, 12),
            reserved_command: get_bytes(s, 128, 128),
        };
        proof {
            assert(spec_header_bytes(r) =~= s@);
        }
        r
    }

    /// Compute the header checksum: the MAC over bytes 16..256.
    pub fn calculate_checksum(&self) -> (r: u128)
        requires
            self.wf(),
        ensures
            r == spec_header_checksum(*self),
    {
        let bytes = self.to_bytes();
        let tail = vstd::slice::slice_subrange(bytes.as_slice(), 16, 256);
        checksum(tail)
    }

    /// Compute the checksum of a message body.
    pub fn calculate_checksum_body(&self, body: &[u8]) -> (r: u128)
        ensures
            r == mac_of(body@),
    {
        checksum(body)
    }

    /// Store the header checksum. Call only after `set_checksum_body`: the
    /// header checksum covers the stored body checksum.
    pub fn set_checksum(&mut self)
        requires
            old(self).wf(),
        ensures
            *final(self) == (Header { checksum: spec_header_checksum(*old(self)), ..*old(self) }),
            final(self).checksum == spec_header_checksum(*final(self)),
    {
        let c = self.calculate_checksum();
        self.checksum = c;
        proof {
            lemma_header_checksum_ignores_checksum_field(*old(self), *self);
        }
    }

    /// Store the body checksum.
    pub fn set_checksum_body(&mut self, body: &[u8])
        ensures
            *final(self) == (Header { checksum_body: mac_of(body@), ..*old(self) }),
    {
        let c = self.calculate_checksum_body(body);
        self.checksum_body = c;
    }

    /// Whether the stored header checksum matches the header's bytes.
    pub fn valid_checksum(&self) -> (r: bool)
        requires
            self.wf(),
        ensures
            r == (self.checksum == spec_header_checksum(*self)),
    {
        let c = self.calculate_checksum();
        self.checksum == c
    }

    /// Whether the stored body checksum matches the body.
    pub fn valid_checksum_body(&self, body: &[u8]) -> (r: bool)
        ensures
            r == (self.checksum_body == mac_of(body@)),
    {
        let c = self.calculate_checksum_body(body);
        self.checksum_body == c
    }

    /// Validate the header structure: every reserved and padding field must
    /// be zero, the epoch zero, the size at least one header, and the
    /// protocol version current.
    pub fn validate(&self) -> (r: Result<(), HeaderError>)
        requires
            self.wf(),
        ensures
            r is Ok <==> {
                &&& self.checksum_padding == 0
                &&& self.checksum_body_padding == 0
                &&& self.nonce_reserved == 0
                &&& self.epoch == 0
                &&& self.size >= HEADER_SIZE
                &&& self.protocol == PROTOCOL_VERSION
                &&& self.reserved_frame@ == zeros(12)
            },
            r matches Err(e) ==> match e {
                HeaderError::InvalidPadding => self.checksum_padding != 0
                    || self.checksum_body_padding != 0 || self.nonce_reserved != 0
                    || self.reserved_frame@ != zeros(12),
                HeaderError::InvalidEpoch => self.epoch != 0,
                HeaderError::SizeTooSmall => self.size < HEADER_SIZE,
                HeaderError::ProtocolMismatch => self.protocol != PROTOCOL_VERSION,
                _ => false,
            },
    {
        if self.checksum_padding != 0 {
            return Err(HeaderError::InvalidPadding);
        }
        if self.checksum_body_padding != 0 {
            return Err(HeaderError::InvalidPadding);
        }
        if self.nonce_reserved != 0 {
            return Err(HeaderError::InvalidPadding);
        }
        if self.epoch != 0 {
            return Err(HeaderError::InvalidEpoch);
        }
        if self.size < HEADER_SIZE {
            return Err(HeaderError::SizeTooSmall);
        }
        if self.protocol != PROTOCOL_VERSION {
            return Err(HeaderError::ProtocolMismatch);
        }
        let mut i: usize = 0;
        while i < 12
            invariant
                i <= 12,
                self.wf(),
                forall|k: int| 0 <= k < i ==> self.reserved_frame@[k] == 0u8,
            decreases 12 - i,
        {
            if self.reserved_frame[i] != 0 {
                return Err(HeaderError::InvalidPadding);
            }
            i = i + 1;
        }
        proof {
            assert(self.reserved_frame@ =~= zeros(12));
        }
        Ok(())
    }

    /// Parse the command region as a request overlay.
    pub fn as_request(&self) -> (r: RequestHeader)
        requires
            self.wf(),
        ensures
            r == spec_parse_request_header(self.reserved_command@),
    {
        RequestHeader::parse(self.reserved_command.as_slice())
    }

    /// Write a request overlay into the command region.
    pub fn set_request(&mut self, req: &RequestHeader)
        requires
            old(self).wf(),
        ensures
            final(self).wf(),
            *final(self) == (Header {
                reserved_command: final(self).reserved_command,
                ..*old(self)
            }),
            final(self).reserved_command@ == spec_request_header_bytes(*req),
    {
        self.reserved_command = req.to_bytes();
    }

    /// Parse the command region as a reply overlay.
    pub fn as_reply(&self) -> (r: ReplyHeader)
        requires
            self.wf(),
        ensures
            r == spec_parse_reply_header(self.reserved_command@),
    {
        ReplyHeader::parse(self.reserved_command.as_slice())
    }

    /// Write a reply overlay into the command region.
    pub fn set_reply(&mut self, rep: &ReplyHeader)
        requires
            old(self).wf(),
        ensures
            final(self).wf(),
            *final(self) == (Header {
                reserved_command: final(self).reserved_command,
                ..*old(self)
            }),
            final(self).reserved_command@ == spec_reply_header_bytes(*rep),
    {
        self.reserved_command = rep.to_bytes();
    }

    /// Parse the command region as a client-ping overlay.
    pub fn as_ping_client(&self) -> (r: PingClientHeader)
        requires
            self.wf(),
        ensures
            r == spec_parse_ping_client_header(self.reserved_command@),
    {
        PingClientHeader::parse(self.reserved_command.as_slice())
    }

    /// Parse the command region as a client-pong overlay.
    pub fn as_pong_client(&self) -> (r: PongClientHeader)
        requires
            self.wf(),
        ensures
            r == spec_parse_pong_client_header(self.reserved_command@),
    {
        PongClientHeader::parse(self.reserved_command.as_slice())
    }

    /// Parse the command region as an eviction overlay.
    pub fn as_eviction(&self) -> (r: EvictionHeader)
        requires
            self.wf(),
        ensures
            r == spec_parse_eviction_header(self.reserved_command@),
    {
        EvictionHeader::parse(self.reserved_command.as_slice())
    }
}

/// A freshly built header for this cluster: zeros everywhere but `size`,
/// which counts the bare header, and the protocol version.
pub open spec fn spec_fresh_header(h: Header, cluster: u128) -> bool {
    &&& h.checksum == 0
    &&& h.checksum_padding == 0
    &&& h.checksum_body == 0
    &&& h.checksum_body_padding == 0
    &&& h.nonce_reserved == 0
    &&& h.cluster == cluster
    &&& h.size == HEADER_SIZE
    &&& h.epoch == 0
    &&& h.view == 0
    &&& h.release == 0
    &&& h.protocol == PROTOCOL_VERSION
    &&& h.command == 0
    &&& h.replica == 0
    &&& h.reserved_frame@ == zeros(12)
    &&& h.reserved_command@ == zeros(128)
}

impl Default for Header {
    /// The default header: zeros everywhere but `size` and `protocol`.
    fn default() -> (r: Self)
        ensures
            r.wf(),
            spec_fresh_header(r, 0),
    {
        let mut reserved_frame: Vec<u8> = Vec::new();
        put_zeros(&mut reserved_frame, 12);
        let mut reserved_command: Vec<u8> = Vec::new();
        put_zeros(&mut reserved_command, 128);
        let r = Header {
            checksum: 0,
            checksum_padding: 0,
            checksum_body: 0,
            checksum_body_padding: 0,
            nonce_reserved: 0,
            cluster: 0,
            size: HEADER_SIZE,
            epoch: 0,
            view: 0,
            release: 0,
            protocol: PROTOCOL_VERSION,
            command: 0,
            replica: 0,
            reserved_frame,
            reserved_command,
        };
        r
    }
}

/// Two headers that agree on everything but the checksum field have the
/// same bytes from offset 16 on, so the same header checksum: the checksum
/// covers bytes 16..256 and nothing else.
pub proof fn lemma_header_checksum_ignores_checksum_field(h1: Header, h2: Header)
    requires
        h1.wf(),
        h2.wf(),
        h2 == (Header { checksum: h2.checksum, ..h1 }),
    ensures
        spec_header_bytes(h1).subrange(16, 256) == spec_header_bytes(h2).subrange(16, 256),
        spec_header_checksum(h1) == spec_header_checksum(h2),
{
    le_facts();
    assert(spec_header_bytes(h1).subrange(16, 256) =~= spec_header_bytes(h2).subrange(16, 256));
}

/// Request-specific overlay of the command region. The wire form carries
/// two reserved runs (3 and 52 bytes) that are zero on send.
#[derive(Clone, Copy, Debug, PartialEq, Eq, Structural)]
pub struct RequestHeader {
    /// Header checksum of the previous request (hash chain).
    pub parent: u128,
    /// Padding for a future 256-bit parent; zero.
    pub parent_padding: u128,
    /// Client identifier.
    pub client: u128,
    /// Session number: zero for register, the server-assigned number after.
    pub session: u64,
    /// Timestamp; zero in normal operation.
    pub timestamp: u64,
    /// Request number, strictly increasing within a session.
    pub request: u32,
    /// Operation code (see `Operation`).
    pub operation: u8,
    /// Latency of the previous request in nanoseconds.
    pub previous_request_latency: u32,
}

/// The 128 bytes a request overlay occupies in the command region.
pub open spec fn spec_request_header_bytes(r: RequestHeader) -> Seq<u8> {
    spec_u128_to_le_bytes(r.parent) + spec_u128_to_le_bytes(r.parent_padding)
        + spec_u128_to_le_bytes(r.client) + spec_u64_to_le_bytes(r.session)
        + spec_u64_to_le_bytes(r.timestamp) + spec_u32_to_le_bytes(r.request)
        + seq![r.operation] + zeros(3) + spec_u32_to_le_bytes(r.previous_request_latency)
        + zeros(52)
}

/// The request overlay whose fields a 128-byte command region carries.
pub open spec fn spec_parse_request_header(s: Seq<u8>) -> RequestHeader {
    RequestHeader {
        parent: spec_u128_from_le_bytes(s.subrange(0, 16)),
        parent_padding: spec_u128_from_le_bytes(s.subrange(16, 32)),
        client: spec_u128_from_le_bytes(s.subrange(32, 48)),
        session: spec_u64_from_le_bytes(s.subrange(48, 56)),
        timestamp: spec_u64_from_le_bytes(s.subrange(56, 64)),
        request: spec_u32_from_le_bytes(s.subrange(64, 68)),
        operation: s[68],
        previous_request_latency: spec_u32_from_le_bytes(s.subrange(72, 76)),
    }
}

impl RequestHeader {
    /// Serialize into the 128-byte overlay form, reserved runs zero.
    pub fn to_bytes(&self) -> (r: Vec<u8>)
        ensures
            r@ == spec_request_header_bytes(*self),
            r@.len() == 128,
            spec_parse_request_header(r@) == *self,
    {
        proof {
            le_facts();
        }
        let mut buf: Vec<u8> = Vec::new();
        put_u128(&mut buf, self.parent);
        put_u128(&mut buf, self.parent_padding);
        put_u128(&mut buf, self.client);
        put_u64(&mut buf, self.session);
        put_u64(&mut buf, self.timestamp);
        put_u32(&mut buf, self.request);
        put_u8(&mut buf, self.operation);
        put_zeros(&mut buf, 3);
        put_u32(&mut buf, self.previous_request_latency);
        put_zeros(&mut buf, 52);
        proof {
            assert(buf@ =~= spec_request_header_bytes(*self));
            lemma_request_header_roundtrip(*self);
        }
        buf
    }

    /// Parse the named fields of the 128-byte overlay form.
    pub fn parse(s: &[u8]) -> (r: RequestHeader)
        requires
            s@.len() == 128,
        ensures
            r == spec_parse_request_header(s@),
    {
        RequestHeader {
            parent: get_u128(s, 0),
            parent_padding: get_u128(s, 16),
            client: get_u128(s, 32),
            session: get_u64(s, 48),
            timestamp: get_u64(s, 56),
            request: get_u32(s, 64),
            operation: get_u8(s, 68),
            previous_request_latency: get_u32(s, 72),
        }
    }

    /// The operation whose code this overlay carries, if any does.
    pub fn operation(&self) -> (r: Option<Operation>)
        ensures
            r is Some <==> Operation::spec_code_valid(self.operation),
            r matches Some(op) ==> op.spec_code() == self.operation,
    {
        match Operation::try_from(self.operation) {
            Ok(op) => Some(op),
            Err(_) => None,
        }
    }

    /// Set the operation code.
    pub fn set_operation(&mut self, operation: Operation)
        ensures
            *final(self) == (RequestHeader { operation: operation.spec_code(), ..*old(self) }),
    {
        self.operation = operation.as_u8();
    }
}

impl Default for RequestHeader {
    /// A request overlay with every field zero.
    fn default() -> (r: Self)
        ensures
            r == (RequestHeader {
                parent: 0,
                parent_padding: 0,
                client: 0,
                session: 0,
                timestamp: 0,
                request: 0,
                operation: 0,
                previous_request_latency: 0,
            }),
    {
        RequestHeader {
            parent: 0,
            parent_padding: 0,
            client: 0,
            session: 0,
            timestamp: 0,
            request: 0,
            operation: 0,
            previous_request_latency: 0,
        }
    }
}

/// Parsing a serialized request overlay gives back the overlay.
pub proof fn lemma_request_header_roundtrip(r: RequestHeader)
    ensures
        spec_parse_request_header(spec_request_header_bytes(r)) == r,
{
    le_facts();
    let s = spec_request_header_bytes(r);
    assert(s.subrange(0, 16) =~= spec_u128_to_le_bytes(r.parent));
    assert(s.subrange(16, 32) =~= spec_u128_to_le_bytes(r.parent_padding));
    assert(s.subrange(32, 48) =~= spec_u128_to_le_bytes(r.client));
    assert(s.subrange(48, 56) =~= spec_u64_to_le_bytes(r.session));
    assert(s.subrange(56, 64) =~= spec_u64_to_le_bytes(r.timestamp));
    assert(s.subrange(64, 68) =~= spec_u32_to_le_bytes(r.request));
    assert(s[68] == r.operation);
    assert(s.subrange(72, 76) =~= spec_u32_to_le_bytes(r.previous_request_latency));
}

/// Reply-specific overlay of the command region. The wire form carries two
/// padding runs and a 19-byte reserved tail that are zero.
#[derive(Clone, Copy, Debug, PartialEq, Eq, Structural)]
pub struct ReplyHeader {
    /// Header checksum of the request this reply answers.
    pub request_checksum: u128,
    /// Context checksum: the next request's parent.
    pub context: u128,
    /// Client identifier.
    pub client: u128,
    /// Operation number.
    pub op: u64,
    /// Commit number; the session number in a register reply.
    pub commit: u64,
    /// Prepare timestamp.
    pub timestamp: u64,
    /// Request number this reply answers.
    pub request: u32,
    /// Operation code (see `Operation`).
    pub operation: u8,
}

/// The 128 bytes a reply overlay occupies in the command region.
pub open spec fn spec_reply_header_bytes(r: ReplyHeader) -> Seq<u8> {
    spec_u128_to_le_bytes(r.request_checksum) + zeros(16) + spec_u128_to_le_bytes(r.context)
        + zeros(16) + spec_u128_to_le_bytes(r.client) + spec_u64_to_le_bytes(r.op)
        + spec_u64_to_le_bytes(r.commit) + spec_u64_to_le_bytes(r.timestamp)
        + spec_u32_to_le_bytes(r.request) + seq![r.operation] + zeros(19)
}

/// The reply overlay whose fields a 128-byte command region carries.
pub open spec fn spec_parse_reply_header(s: Seq<u8>) -> ReplyHeader {
    ReplyHeader {
        request_checksum: spec_u128_from_le_bytes(s.subrange(0, 16)),
        context: spec_u128_from_le_bytes(s.subrange(32, 48)),
        client: spec_u128_from_le_bytes(s.subrange(64, 80)),
        op: spec_u64_from_le_bytes(s.subrange(80, 88)),
        commit: spec_u64_from_le_bytes(s.subrange(88, 96)),
        timestamp: spec_u64_from_le_bytes(s.subrange(96, 104)),
        request: spec_u32_from_le_bytes(s.subrange(104, 108)),
        operation: s[108],
    }
}

impl ReplyHeader {
    /// Serialize into the 128-byte overlay form, reserved runs zero.
    pub fn to_bytes(&self) -> (r: Vec<u8>)
        ensures
            r@ == spec_reply_header_bytes(*self),
            r@.len() == 128,
            spec_parse_reply_header(r@) == *self,
    {
        proof {
            le_facts();
        }
        let mut buf: Vec<u8> = Vec::new();
        put_u128(&mut buf, self.request_checksum);
        put_zeros(&mut buf, 16);
        put_u128(&mut buf, self.context);
        put_zeros(&mut buf, 16);
        put_u128(&mut buf, self.client);
        put_u64(&mut buf, self.op);
        put_u64(&mut buf, self.commit);
        put_u64(&mut buf, self.timestamp);
        put_u32(&mut buf, self.request);
        put_u8(&mut buf, self.operation);
        put_zeros(&mut buf, 19);
        proof {
            assert(buf@ =~= spec_reply_header_bytes(*self));
            lemma_reply_header_roundtrip(*self);
        }
        buf
    }

    /// Parse the named fields of the 128-byte overlay form.
    pub fn parse(s: &[u8]) -> (r: ReplyHeader)
        requires
            s@.len() == 128,
        ensures
            r == spec_parse_reply_header(s@),
    {
        ReplyHeader {
            request_checksum: get_u128(s, 0),
            context: get_u128(s, 32),
            client: get_u128(s, 64),
            op: get_u64(s, 80),
            commit: get_u64(s, 88),
            timestamp: get_u64(s, 96),
            request: get_u32(s, 104),
            operation: get_u8(s, 108),
        }
    }

    /// The operation whose code this overlay carries, if any does.
    pub fn operation(&self) -> (r: Option<Operation>)
        ensures
            r is Some <==> Operation::spec_code_valid(self.operation),
            r matches Some(op) ==> op.spec_code() == self.operation,
    {
        match Operation::try_from(self.operation) {
            Ok(op) => Some(op),
            Err(_) => None,
        }
    }
}

impl Default for ReplyHeader {
    /// A reply overlay with every field zero.
    fn default() -> (r: Self)
        ensures
            r == (ReplyHeader {
                request_checksum: 0,
                context: 0,
                client: 0,
                op: 0,
                commit: 0,
                timestamp: 0,
                request: 0,
                operation: 0,
            }),
    {
        ReplyHeader {
            request_checksum: 0,
            context: 0,
            client: 0,
            op: 0,
            commit: 0,
            timestamp: 0,
            request: 0,
            operation: 0,
        }
    }
}

/// Parsing a serialized reply overlay gives back the overlay.
pub proof fn lemma_reply_header_roundtrip(r: ReplyHeader)
    ensures
        spec_parse_reply_header(spec_reply_header_bytes(r)) == r,
{
    le_facts();
    let s = spec_reply_header_bytes(r);
    assert(s.subrange(0, 16) =~= spec_u128_to_le_bytes(r.request_checksum));
    assert(s.subrange(32, 48) =~= spec_u128_to_le_bytes(r.context));
    assert(s.subrange(64, 80) =~= spec_u128_to_le_bytes(r.client));
    assert(s.subrange(80, 88) =~= spec_u64_to_le_bytes(r.op));
    assert(s.subrange(88, 96) =~= spec_u64_to_le_bytes(r.commit));
    assert(s.subrange(96, 104) =~= spec_u64_to_le_bytes(r.timestamp));
    assert(s.subrange(104, 108) =~= spec_u32_to_le_bytes(r.request));
    assert(s[108] == r.operation);
}

/// Client-ping overlay of the command region.
#[derive(Clone, Copy, Debug, PartialEq, Eq, Structural)]
pub struct PingClientHeader {
    /// Client identifier.
    pub client: u128,
    /// Monotonic timestamp for round-trip measurement.
    pub ping_timestamp_monotonic: u64,
}

/// The 128 bytes a client-ping overlay occupies in the command region.
pub open spec fn spec_ping_client_header_bytes(p: PingClientHeader) -> Seq<u8> {
    spec_u128_to_le_bytes(p.client) + spec_u64_to_le_bytes(p.ping_timestamp_monotonic)
        + zeros(104)
}

/// The client-ping overlay whose fields a 128-byte command region carries.
pub open spec fn spec_parse_ping_client_header(s: Seq<u8>) -> PingClientHeader {
    PingClientHeader {
        client: spec_u128_from_le_bytes(s.subrange(0, 16)),
        ping_timestamp_monotonic: spec_u64_from_le_bytes(s.subrange(16, 24)),
    }
}

impl PingClientHeader {
    /// Serialize into the 128-byte overlay form, the reserved run zero.
    pub fn to_bytes(&self) -> (r: Vec<u8>)
        ensures
            r@ == spec_ping_client_header_bytes(*self),
            r@.len() == 128,
    {
        proof {
            le_facts();
        }
        let mut buf: Vec<u8> = Vec::new();
        put_u128(&mut buf, self.client);
        put_u64(&mut buf, self.ping_timestamp_monotonic);
        put_zeros(&mut buf, 104);
        buf
    }

    /// Parse the named fields of the 128-byte overlay form.
    pub fn parse(s: &[u8]) -> (r: PingClientHeader)
        requires
            s@.len() == 128,
        ensures
            r == spec_parse_ping_client_header(s@),
    {
        PingClientHeader {
            client: get_u128(s, 0),
            ping_timestamp_monotonic: get_u64(s, 16),
        }
    }
}

impl Default for PingClientHeader {
    /// A client-ping overlay with every field zero.
    fn default() -> (r: Self)
        ensures
            r == (PingClientHeader { client: 0, ping_timestamp_monotonic: 0 }),
    {
        PingClientHeader { client: 0, ping_timestamp_monotonic: 0 }
    }
}

/// Client-pong overlay of the command region.
#[derive(Clone, Copy, Debug, PartialEq, Eq, Structural)]
pub struct PongClientHeader {
    /// The echoed ping timestamp.
    pub ping_timestamp_monotonic: u64,
    /// The server's wall-clock timestamp.
    pub pong_timestamp_wall: u64,
}

/// The client-pong overlay whose fields a 128-byte command region carries.
pub open spec fn spec_parse_pong_client_header(s: Seq<u8>) -> PongClientHeader {
    PongClientHeader {
        ping_timestamp_monotonic: spec_u64_from_le_bytes(s.subrange(0, 8)),
        pong_timestamp_wall: spec_u64_from_le_bytes(s.subrange(8, 16)),
    }
}

impl PongClientHeader {
    /// Parse the named fields of the 128-byte overlay form.
    pub fn parse(s: &[u8]) -> (r: PongClientHeader)
        requires
            s@.len() == 128,
        ensures
            r == spec_parse_pong_client_header(s@),
    {
        PongClientHeader {
            ping_timestamp_monotonic: get_u64(s, 0),
            pong_timestamp_wall: get_u64(s, 8),
        }
    }
}

impl Default for PongClientHeader {
    /// A client-pong overlay with every field zero.
    fn default() -> (r: Self)
        ensures
            r == (PongClientHeader { ping_timestamp_monotonic: 0, pong_timestamp_wall: 0 }),
    {
        PongClientHeader { ping_timestamp_monotonic: 0, pong_timestamp_wall: 0 }
    }
}

/// Eviction overlay of the command region: the client and, in the very
/// last byte, the reason.
#[derive(Clone, Copy, Debug, PartialEq, Eq, Structural)]
pub struct EvictionHeader {
    /// Client identifier.
    pub client: u128,
    /// Reason code for the eviction (see `EvictionReason`).
    pub reason: u8,
}

/// The 128 bytes an eviction overlay occupies in the command region.
pub open spec fn spec_eviction_header_bytes(e: EvictionHeader) -> Seq<u8> {
    spec_u128_to_le_bytes(e.client) + zeros(111) + seq![e.reason]
}

/// The eviction overlay whose fields a 128-byte command region carries.
pub open spec fn spec_parse_eviction_header(s: Seq<u8>) -> EvictionHeader {
    EvictionHeader {
        client: spec_u128_from_le_bytes(s.subrange(0, 16)),
        reason: s[127],
    }
}

impl EvictionHeader {
    /// Serialize into the 128-byte overlay form, the reserved run zero.
    pub fn to_bytes(&self) -> (r: Vec<u8>)
        ensures
            r@ == spec_eviction_header_bytes(*self),
            r@.len() == 128,
    {
        proof {
            le_facts();
        }
        let mut buf: Vec<u8> = Vec::new();
        put_u128(&mut buf, self.client);
        put_zeros(&mut buf, 111);
        put_u8(&mut buf, self.reason);
        buf
    }

    /// Parse the named fields of the 128-byte overlay form.
    pub fn parse(s: &[u8]) -> (r: EvictionHeader)
        requires
            s@.len() == 128,
        ensures
            r == spec_parse_eviction_header(s@),
    {
        EvictionHeader {
            client: get_u128(s, 0),
            reason: get_u8(s, 127),
        }
    }
}

impl Default for EvictionHeader {
    /// An eviction overlay with every field zero.
    fn default() -> (r: Self)
        ensures
            r == (EvictionHeader { client: 0, reason: 0 }),
    {
        EvictionHeader { client: 0, reason: 0 }
    }
}

/// Reasons a server evicts a client session. The codes start at one.
#[derive(Clone, Copy, Debug, PartialEq, Eq, Structural)]
pub enum EvictionReason {
    /// No active session.
    NoSession,
    /// The client's release is too old.
    ClientReleaseTooLow,
    /// The client's release is too new.
    ClientReleaseTooHigh,
    /// The request operation was invalid.
    InvalidRequestOperation,
    /// The request body was invalid.
    InvalidRequestBody,
    /// The request body size was invalid.
    InvalidRequestBodySize,
    /// The session number is too low.
    SessionTooLow,
    /// The session release does not match.
    SessionReleaseMismatch,
}

impl EvictionReason {
    /// The code this reason takes on the wire.
    pub open spec fn spec_code(self) -> u8 {
        match self {
            EvictionReason::NoSession => 1,
            EvictionReason::ClientReleaseTooLow => 2,
            EvictionReason::ClientReleaseTooHigh => 3,
            EvictionReason::InvalidRequestOperation => 4,
            EvictionReason::InvalidRequestBody => 5,
            EvictionReason::InvalidRequestBodySize => 6,
            EvictionReason::SessionTooLow => 7,
            EvictionReason::SessionReleaseMismatch => 8,
        }
    }

    /// Whether some reason carries this wire code.
    pub open spec fn spec_code_valid(value: u8) -> bool {
        1 <= value <= 8
    }

    /// The code this reason takes on the wire.
    pub fn as_u8(self) -> (r: u8)
        ensures
            r == self.spec_code(),
    {
        match self {
            EvictionReason::NoSession => 1,
            EvictionReason::ClientReleaseTooLow => 2,
            EvictionReason::ClientReleaseTooHigh => 3,
            EvictionReason::InvalidRequestOperation => 4,
            EvictionReason::InvalidRequestBody => 5,
            EvictionReason::InvalidRequestBodySize => 6,
            EvictionReason::SessionTooLow => 7,
            EvictionReason::SessionReleaseMismatch => 8,
        }
    }

    /// The reason carrying a wire code, or the code back as the error when
    /// none does.
    pub fn try_from(value: u8) -> (r: Result<EvictionReason, u8>)
        ensures
            r is Ok <==> EvictionReason::spec_code_valid(value),
            r matches Ok(e) ==> e.spec_code() == value,
            r matches Err(v) ==> v == value,
    {
        match value {
            1 => Ok(EvictionReason::NoSession),
            2 => Ok(EvictionReason::ClientReleaseTooLow),
            3 => Ok(EvictionReason::ClientReleaseTooHigh),
            4 => Ok(EvictionReason::InvalidRequestOperation),
            5 => Ok(EvictionReason::InvalidRequestBody),
            6 => Ok(EvictionReason::InvalidRequestBodySize),
            7 => Ok(EvictionReason::SessionTooLow),
            8 => Ok(EvictionReason::SessionReleaseMismatch),
            _ => Err(value),
        }
    }
}

/// What `Header::validate` can reject.
#[derive(Clone, Copy, Debug, PartialEq, Eq, Structural)]
pub enum HeaderError {
    /// A padding or reserved field is not zero.
    InvalidPadding,
    /// The epoch is not zero.
    InvalidEpoch,
    /// The size is smaller than one header.
    SizeTooSmall,
    /// The protocol version does not match.
    ProtocolMismatch,
    /// The header checksum does not match.
    InvalidChecksum,
    /// The body checksum does not match.
    InvalidBodyChecksum,
}

} // verus!
