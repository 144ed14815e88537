//! Whole messages: a header plus a body, finalized with the two checksums
//! in the right order and validated on receive.

use vstd::prelude::*;
use crate::checksum::{checksum, mac_of};
use crate::header::{
    spec_fresh_header, spec_header_bytes, spec_header_checksum, spec_request_header_bytes,
    Header, RequestHeader, HEADER_SIZE,
};
use crate::operation::{Command, Operation};
use crate::wire::put_bytes;

verus! {

/// Largest message (header plus body) the protocol allows: one mebibyte.
pub const MESSAGE_SIZE_MAX: u32 = 1048576;

/// Largest body the protocol allows.
pub const MESSAGE_BODY_SIZE_MAX: u32 = 1048320;

/// A whole message: the header and the body that follows it on the wire.
#[derive(Debug)]
pub struct Message {
    /// The message header.
    pub header: Header,
    /// The message body.
    pub body: Vec<u8>,
}

/// The bytes a message occupies on the wire: the header's 256, then the body.
pub open spec fn spec_message_bytes(m: Message) -> Seq<u8> {
    spec_header_bytes(m.header) + m.body@
}

impl Message {
    /// The header's byte-run fields have their fixed lengths.
    pub open spec fn wf(&self) -> bool {
        self.header.wf()
    }

    /// A message with a fresh header and an empty body.
    pub fn new() -> (r: Message)
        ensures
            r.wf(),
            spec_fresh_header(r.header, 0),
            r.body@ == Seq::<u8>::empty(),
    {
        Message { header: Header::default(), body: Vec::new() }
    }

    /// A message with a fresh header, an empty body, and room reserved for
    /// a body of the given size.
    pub fn with_body_capacity(capacity: u32) -> (r: Message)
        ensures
            r.wf(),
            spec_fresh_header(r.header, 0),
            r.body@ == Seq::<u8>::empty(),
    {
        let mut m = Message::new();
        m.body.reserve(capacity as usize);
        m
    }

    /// Split raw bytes into a message, or nothing when they cannot hold a
    /// header.
    pub fn from_bytes(bytes: Vec<u8>) -> (r: Option<Message>)
        ensures
            r is Some <==> bytes@.len() >= HEADER_SIZE,
            r matches Some(m) ==> {
                &&& m.wf()
                &&& spec_header_bytes(m.header) == bytes@.subrange(0, HEADER_SIZE as int)
                &&& m.body@ == bytes@.skip(HEADER_SIZE as int)
                &&& spec_message_bytes(m) == bytes@
            },
    {
        if bytes.len() < 256 {
            return None;
        }
        let header_part = vstd::slice::slice_subrange(bytes.as_slice(), 0, 256);
        let header = Header::from_bytes(header_part);
        let len: usize = bytes.len();
        let body_part = vstd::slice::slice_subrange(bytes.as_slice(), 256, len);
        let body = vstd::slice::slice_to_vec(body_part);
        let m = Message { header, body };
        proof {
            assert(m.body@ =~= bytes@.skip(HEADER_SIZE as int));
            assert(spec_message_bytes(m) =~= bytes@);
        }
        Some(m)
    }

    /// The header.
    pub fn header(&self) -> (r: &Header)
        ensures
            r == &self.header,
    {
        &self.header
    }

    /// The body.
    pub fn body(&self) -> (r: &[u8])
        ensures
            r@ == self.body@,
    {
        self.body.as_slice()
    }

    /// Replace the body and record the new total size in the header.
    pub fn set_body(&mut self, body: &[u8])
        requires
            old(self).wf(),
            body@.len() <= MESSAGE_BODY_SIZE_MAX,
        ensures
            final(self).wf(),
            final(self).body@ == body@,
            *final(self) == (Message {
                header: (Header {
                    size: (HEADER_SIZE + body@.len()) as u32,
                    ..old(self).header
                }),
                body: final(self).body,
            }),
    {
        self.body.clear();
        put_bytes(&mut self.body, body);
        self.header.size = 256 + body.len() as u32;
        proof {
            assert(self.body@ =~= body@);
        }
    }

    /// Append bytes to the body and record the new total size in the header.
    pub fn append_body(&mut self, data: &[u8])
        requires
            old(self).wf(),
            old(self).body@.len() + data@.len() <= MESSAGE_BODY_SIZE_MAX,
        ensures
            final(self).wf(),
            final(self).body@ == old(self).body@ + data@,
            *final(self) == (Message {
                header: (Header {
                    size: (HEADER_SIZE + old(self).body@.len() + data@.len()) as u32,
                    ..old(self).header
                }),
                body: final(self).body,
            }),
    {
        put_bytes(&mut self.body, data);
        self.header.size = 256 + self.body.len() as u32;
    }

    /// The whole message as wire bytes.
    pub fn as_bytes(&self) -> (r: Vec<u8>)
        requires
            self.wf(),
        ensures
            r@ == spec_message_bytes(*self),
            r@.len() == HEADER_SIZE + self.body@.len(),
    {
        let mut buf = self.header.to_bytes();
        put_bytes(&mut buf, self.body.as_slice());
        buf
    }

    /// Consume the message and return its wire bytes.
    pub fn into_bytes(self) -> (r: Vec<u8>)
        requires
            self.wf(),
        ensures
            r@ == spec_message_bytes(self),
    {
        self.as_bytes()
    }

    /// The total message size: header plus body.
    pub fn len(&self) -> (r: u32)
        requires
            self.body@.len() <= MESSAGE_BODY_SIZE_MAX,
        ensures
            r == HEADER_SIZE + self.body@.len(),
    {
        256 + self.body.len() as u32
    }

    /// Whether the body is empty.
    pub fn is_empty(&self) -> (r: bool)
        ensures
            r == (self.body@.len() == 0),
    {
        self.body.len() == 0
    }

    /// Finalize before sending: compute the body checksum first, then the
    /// header checksum, which covers the freshly stored body checksum.
    pub fn finalize(&mut self)
        requires
            old(self).wf(),
        ensures
            final(self).wf(),
            final(self).body == old(self).body,
            *final(self) == (Message {
                header: (Header {
                    checksum: final(self).header.checksum,
                    checksum_body: mac_of(old(self).body@),
                    ..old(self).header
                }),
                body: old(self).body,
            }),
            final(self).header.checksum == spec_header_checksum(final(self).header),
            final(self).header.checksum_body == mac_of(final(self).body@),
    {
        let cb = checksum(self.body.as_slice());
        self.header.checksum_body = cb;
        self.header.set_checksum();
    }

    /// Validate the checksums: the header checksum must match before the
    /// body checksum is trusted.
    pub fn validate(&self) -> (r: Result<(), MessageError>)
        requires
            self.wf(),
        ensures
            r is Ok <==> {
                &&& self.header.checksum == spec_header_checksum(self.header)
                &&& self.header.checksum_body == mac_of(self.body@)
            },
            r matches Err(e) ==> match e {
                MessageError::InvalidHeaderChecksum =>
                    self.header.checksum != spec_header_checksum(self.header),
                MessageError::InvalidBodyChecksum => {
                    &&& self.header.checksum == spec_header_checksum(self.header)
                    &&& self.header.checksum_body != mac_of(self.body@)
                },
                _ => false,
            },
    {
        if !self.header.valid_checksum() {
            return Err(MessageError::InvalidHeaderChecksum);
        }
        if !self.header.valid_checksum_body(self.body.as_slice()) {
            return Err(MessageError::InvalidBodyChecksum);
        }
        Ok(())
    }
}

impl Default for Message {
    /// A message with a fresh header and an empty body.
    fn default() -> (r: Self)
        ensures
            r.wf(),
            spec_fresh_header(r.header, 0),
            r.body@ == Seq::<u8>::empty(),
    {
        Message::new()
    }
}

/// What message validation can reject.
#[derive(Clone, Copy, Debug, PartialEq, Eq, Structural)]
pub enum MessageError {
    /// The header checksum does not match the header bytes.
    InvalidHeaderChecksum,
    /// The body checksum does not match the body.
    InvalidBodyChecksum,
    /// The message is too small to hold a header.
    TooSmall,
    /// The message is larger than the protocol allows.
    TooLarge,
    /// The command code is unknown.
    InvalidCommand,
    /// The operation code is unknown.
    InvalidOperation,
}

impl MessageError {
    /// A short description of the error.
    pub fn message(&self) -> (r: &'static str)
        ensures
            r@ == match *self {
                MessageError::InvalidHeaderChecksum => "invalid header checksum"@,
                MessageError::InvalidBodyChecksum => "invalid body checksum"@,
                MessageError::TooSmall => "message too small"@,
                MessageError::TooLarge => "message too large"@,
                MessageError::InvalidCommand => "invalid command"@,
                MessageError::InvalidOperation => "invalid operation"@,
            },
    {
        match self {
            MessageError::InvalidHeaderChecksum => "invalid header checksum",
            MessageError::InvalidBodyChecksum => "invalid body checksum",
            MessageError::TooSmall => "message too small",
            MessageError::TooLarge => "message too large",
            MessageError::InvalidCommand => "invalid command",
            MessageError::InvalidOperation => "invalid operation",
        }
    }
}

/// Builder for request messages: collects the header fields and the request
/// overlay, then writes the overlay and finalizes in one step.
#[derive(Debug)]
pub struct RequestBuilder {
    /// The message under construction.
    pub message: Message,
    /// The request overlay under construction.
    pub request: RequestHeader,
}

impl RequestBuilder {
    /// The message's header byte runs have their fixed lengths.
    pub open spec fn wf(&self) -> bool {
        self.message.wf()
    }

    /// Start a request for this cluster and client: a fresh header with the
    /// request command set, and a zeroed overlay carrying the client id.
    pub fn new(cluster: u128, client: u128) -> (r: RequestBuilder)
        ensures
            r.wf(),
            r.message.header.cluster == cluster,
            r.message.header.command == Command::Request.spec_code(),
            r.message.header.size == HEADER_SIZE,
            r.message.header.view == 0,
            r.message.header.release == 0,
            r.message.header.epoch == 0,
            r.message.header.protocol == 0,
            r.message.header.checksum_padding == 0,
            r.message.header.checksum_body_padding == 0,
            r.message.header.nonce_reserved == 0,
            r.message.header.replica == 0,
            r.message.header.reserved_frame@ == crate::wire::zeros(12),
            r.message.body@ == Seq::<u8>::empty(),
            r.request == (RequestHeader {
                client,
                ..spec_zero_request_header()
            }),
    {
        let mut message = Message::new();
        message.header.cluster = cluster;
        message.header.set_command(Command::Request);
        let mut request = RequestHeader::default();
        request.client = client;
        RequestBuilder { message, request }
    }

    /// Set the session number.
    pub fn session(self, session: u64) -> (r: RequestBuilder)
        ensures
            r == (RequestBuilder {
                request: (RequestHeader { session, ..self.request }),
                ..self
            }),
    {
        let mut b = self;
        b.request.session = session;
        b
    }

    /// Set the request number.
    pub fn request(self, request: u32) -> (r: RequestBuilder)
        ensures
            r == (RequestBuilder {
                request: (RequestHeader { request, ..self.request }),
                ..self
            }),
    {
        let mut b = self;
        b.request.request = request;
        b
    }

    /// Set the parent checksum of the hash chain.
    pub fn parent(self, parent: u128) -> (r: RequestBuilder)
        ensures
            r == (RequestBuilder {
                request: (RequestHeader { parent, ..self.request }),
                ..self
            }),
    {
        let mut b = self;
        b.request.parent = parent;
        b
    }

    /// Set the operation.
    pub fn operation(self, operation: Operation) -> (r: RequestBuilder)
        ensures
            r == (RequestBuilder {
                request: (RequestHeader {
                    operation: operation.spec_code(),
                    ..self.request
                }),
                ..self
            }),
    {
        let mut b = self;
        b.request.set_operation(operation);
        b
    }

    /// Set the view number.
    pub fn view(self, view: u32) -> (r: RequestBuilder)
        ensures
            r == (RequestBuilder {
                message: (Message {
                    header: (Header { view, ..self.message.header }),
                    body: self.message.body,
                }),
                request: self.request,
            }),
    {
        let mut b = self;
        b.message.header.view = view;
        b
    }

    /// Set the release version.
    pub fn release(self, release: u32) -> (r: RequestBuilder)
        ensures
            r == (RequestBuilder {
                message: (Message {
                    header: (Header { release, ..self.message.header }),
                    body: self.message.body,
                }),
                request: self.request,
            }),
    {
        let mut b = self;
        b.message.header.release = release;
        b
    }

    /// Set the body.
    pub fn body(self, body: &[u8]) -> (r: RequestBuilder)
        requires
            self.wf(),
            body@.len() <= MESSAGE_BODY_SIZE_MAX,
        ensures
            r.wf(),
            r.message.body@ == body@,
            r == (RequestBuilder {
                message: (Message {
                    header: (Header {
                        size: (HEADER_SIZE + body@.len()) as u32,
                        ..self.message.header
                    }),
                    body: r.message.body,
                }),
                request: self.request,
            }),
    {
        let mut b = self;
        b.message.set_body(body);
        b
    }

    /// Write the request overlay into the header and finalize the message:
    /// body checksum first, then the header checksum over it.
    pub fn build(self) -> (r: Message)
        requires
            self.wf(),
        ensures
            r.wf(),
            r.body == self.message.body,
            r.header.reserved_command@ == spec_request_header_bytes(self.request),
            r.header == (Header {
                checksum: r.header.checksum,
                checksum_body: mac_of(self.message.body@),
                reserved_command: r.header.reserved_command,
                ..self.message.header
            }),
            r.header.checksum == spec_header_checksum(r.header),
            r.header.checksum_body == mac_of(r.body@),
    {
        let mut b = self;
        b.message.header.set_request(&b.request);
        b.message.finalize();
        b.message
    }
}

/// The all-zero request overlay.
pub open spec fn spec_zero_request_header() -> RequestHeader {
    RequestHeader {
        parent: 0,
        parent_padding: 0,
        client: 0,
        session: 0,
        timestamp: 0,
        request: 0,
        operation: 0,
        previous_request_latency: 0,
    }
}

/// Finalize order matters: a finalized message stores the MAC of its body,
/// so changing the body afterwards — to one whose MAC differs — leaves a
/// stored body checksum that no longer matches, and validation reports
/// exactly that once the header checksum itself is intact.
pub proof fn lemma_corrupt_body_detected(m: Message, corrupted: Message)
    requires
        m.header.checksum_body == mac_of(m.body@),
        corrupted.header == m.header,
        mac_of(corrupted.body@) != mac_of(m.body@),
    ensures
        corrupted.header.checksum_body != mac_of(corrupted.body@),
{
}

} // verus!
