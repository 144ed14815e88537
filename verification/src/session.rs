//! The session state machine: registration, request numbering, the
//! parent-checksum hash chain, view tracking, reply classification,
//! hedging and retry backoff.
//!
//! The machine is pure: it builds request messages and consumes reply
//! bytes. The caller performs the I/O around it and hands the bytes back.

use vstd::prelude::*;
use vstd::bytes::*;
use crate::checksum::mac_of;
use crate::error::{ClientError, ProtocolError};
use crate::header::{
    spec_header_bytes, spec_header_checksum, spec_parse_reply_header,
    spec_request_header_bytes, EvictionReason, Header, RequestHeader,
};
use crate::message::{Message, RequestBuilder, MESSAGE_BODY_SIZE_MAX};
use crate::multi_batch::{decode, encode, spec_decode, spec_encode, spec_trailer_total_size, trailer_total_size};
use crate::operation::Operation;
use crate::types::{
    spec_accounts_bytes, spec_ids_bytes, spec_transfers_bytes, spec_account_filter_bytes,
    spec_query_filter_bytes, spec_register_request_bytes, spec_create_accounts_results_bytes,
    spec_create_transfers_results_bytes, spec_parse_account_balance, accounts_to_bytes,
    ids_to_bytes, transfers_to_bytes, parse_accounts, parse_transfers, parse_account_balances,
    parse_create_accounts_results, parse_create_transfers_results, Account, AccountBalance,
    AccountFilter, CreateAccountsResult, CreateTransfersResult, QueryFilter, RegisterRequest,
    Transfer,
};
use crate::wire::le_facts;

verus! {

/// Release version this client reports.
pub const CLIENT_RELEASE: u32 = 1;

/// Whether a session in this state accepts a request body of this total
/// size: it is ready, and the body fits both the server's batch size
/// limit and the protocol's own cap.
pub open spec fn spec_request_fits(s: Session, total: int) -> bool {
    &&& s.state is Ready
    &&& total <= s.batch_size_limit->0
    &&& total <= MESSAGE_BODY_SIZE_MAX
}

/// What building a request returns, and what it leaves behind: rejection
/// without a send when the session is not ready or the body is oversize,
/// and success exactly otherwise.
pub open spec fn spec_request_outcome(
    pre: Session,
    post: Session,
    r: Result<Message, ClientError>,
    total: int,
) -> bool {
    &&& pre.state is Shutdown ==> r == Err::<Message, ClientError>(ClientError::Shutdown)
        && post == pre
    &&& !(pre.state is Ready) && !(pre.state is Shutdown) ==> r == Err::<Message, ClientError>(
        ClientError::NotRegistered) && post == pre
    &&& (pre.state is Ready && (total > pre.batch_size_limit->0
        || total > MESSAGE_BODY_SIZE_MAX)) ==> {
        &&& r == Err::<Message, ClientError>(ClientError::RequestTooLarge {
            size: total as u32,
            limit: pre.batch_size_limit->0,
        })
        &&& post == pre
    }
    &&& r is Ok <==> spec_request_fits(pre, total)
}

/// The request message a ready session builds for an operation over the
/// given event bytes, and how the session advances: the body is the
/// multi-batch encoding, the overlay chains the previous parent and the
/// current request number, both checksums are in place, and the session's
/// parent becomes this request's header checksum while its request number
/// moves up by one — before anything is sent, so a retry reuses the very
/// same message.
pub open spec fn spec_request_ok(
    pre: Session,
    post: Session,
    m: Message,
    operation: Operation,
    events: Seq<u8>,
    element_size: int,
) -> bool {
    let total = events.len() + spec_trailer_total_size(element_size, 1);
    &&& m.wf()
    &&& m.header.cluster == pre.cluster
    &&& m.header.command == 5
    &&& m.header.size == 256 + total
    &&& m.header.release == CLIENT_RELEASE
    &&& m.header.view == pre.view
    &&& m.header.epoch == 0
    &&& m.header.protocol == 0
    &&& m.header.replica == 0
    &&& m.header.reserved_command@ == spec_request_header_bytes(RequestHeader {
        parent: pre.parent,
        parent_padding: 0,
        client: pre.id,
        session: pre.session,
        timestamp: 0,
        request: pre.request_number,
        operation: operation.spec_code(),
        previous_request_latency: 0,
    })
    &&& m.body@ == spec_encode(events, element_size)
    &&& m.header.checksum == spec_header_checksum(m.header)
    &&& m.header.checksum_body == mac_of(m.body@)
    &&& post == (Session {
        parent: m.header.checksum,
        request_number: (pre.request_number + 1) as u32,
        ..pre
    })
}

/// Where a session stands in its lifetime.
#[derive(Clone, Copy, Debug, PartialEq, Eq, Structural)]
pub enum SessionState {
    /// No registration has been attempted.
    Disconnected,
    /// The register request is outstanding.
    Registering,
    /// Registered; operations may be submitted.
    Ready,
    /// Closed; every further operation fails.
    Shutdown,
}

/// The session client's state: identity, the hash chain, request
/// numbering, view tracking, and the server-assigned limits.
#[derive(Clone, Copy, Debug, PartialEq, Eq, Structural)]
pub struct Session {
    /// Random non-zero client identifier, stable for the session.
    pub id: u128,
    /// Cluster identifier.
    pub cluster: u128,
    /// How many replicas the cluster has.
    pub replica_count: u8,
    /// Where the session stands.
    pub state: SessionState,
    /// Highest view observed; never decreases.
    pub view: u32,
    /// Server-assigned session number, from the register reply.
    pub session: u64,
    /// Number of the next request; strictly increasing.
    pub request_number: u32,
    /// Header checksum of the previously sent request, or the reply
    /// context after a reply was accepted; the next request's parent.
    pub parent: u128,
    /// Largest request body the server accepts, from the register reply.
    pub batch_size_limit: Option<u32>,
}

impl Session {
    /// A session is well formed when its identity is usable and, once
    /// ready, the server's batch size limit is known.
    pub open spec fn wf(&self) -> bool {
        &&& self.id != 0
        &&& self.replica_count >= 1
        &&& self.state is Ready ==> self.batch_size_limit is Some
    }

    /// A fresh, unregistered session.
    pub fn new(id: u128, cluster: u128, replica_count: u8) -> (r: Session)
        requires
            id != 0,
            replica_count >= 1,
        ensures
            r.wf(),
            r == (Session {
                id,
                cluster,
                replica_count,
                state: SessionState::Disconnected,
                view: 0,
                session: 0,
                request_number: 0,
                parent: 0,
                batch_size_limit: None,
            }),
    {
        Session {
            id,
            cluster,
            replica_count,
            state: SessionState::Disconnected,
            view: 0,
            session: 0,
            request_number: 0,
            parent: 0,
            batch_size_limit: None,
        }
    }

    /// Whether operations may be submitted.
    pub fn is_ready(&self) -> (r: bool)
        ensures
            r == (self.state is Ready),
    {
        match self.state {
            SessionState::Ready => true,
            _ => false,
        }
    }

    /// The server's batch size limit, known after registration.
    pub fn batch_size_limit(&self) -> (r: Option<u32>)
        ensures
            r == self.batch_size_limit,
    {
        self.batch_size_limit
    }

    /// The greatest number of elements of a given size one request can
    /// carry, once the multi-batch trailer is paid for.
    pub fn max_batch_count(&self, element_size: u32) -> (r: Option<u32>)
        ensures
            self.batch_size_limit is None || element_size == 0 ==> r is None,
            self.batch_size_limit is Some && element_size > 0 ==> r == Some(
                ((if spec_trailer_total_size(element_size as int, 1)
                    <= self.batch_size_limit->0 {
                    self.batch_size_limit->0 - spec_trailer_total_size(element_size as int, 1)
                } else {
                    0
                }) / element_size as int) as u32),
    {
        let limit = match self.batch_size_limit {
            Some(l) => l,
            None => {
                return None;
            },
        };
        if element_size == 0 {
            return None;
        }
        let trailer_size = trailer_total_size(element_size, 1);
        let max_payload: u32 = if limit >= trailer_size {
            limit - trailer_size
        } else {
            0
        };
        Some(max_payload / element_size)
    }

    /// Build the register request: a zero-filled register body, session,
    /// request number and parent all zero, and the register operation.
    /// The request's own header checksum becomes the initial parent.
    pub fn build_register(&mut self) -> (r: Result<Message, ClientError>)
        requires
            old(self).wf(),
        ensures
            final(self).wf(),
            r is Ok <==> old(self).state is Disconnected,
            old(self).state is Shutdown ==> r == Err::<Message, ClientError>(
                ClientError::Shutdown) && *final(self) == *old(self),
            !(old(self).state is Disconnected) && !(old(self).state is Shutdown)
                ==> r == Err::<Message, ClientError>(ClientError::InvalidOperation)
                && *final(self) == *old(self),
            r matches Ok(m) ==> {
                &&& m.wf()
                &&& m.header.cluster == old(self).cluster
                &&& m.header.command == 5
                &&& m.header.size == 512
                &&& m.header.release == CLIENT_RELEASE
                &&& m.header.view == 0
                &&& m.header.epoch == 0
                &&& m.header.protocol == 0
                &&& m.header.replica == 0
                &&& m.header.reserved_command@ == spec_request_header_bytes(RequestHeader {
                    parent: 0,
                    parent_padding: 0,
                    client: old(self).id,
                    session: 0,
                    timestamp: 0,
                    request: 0,
                    operation: 2,
                    previous_request_latency: 0,
                })
                &&& m.body@ == spec_register_request_bytes(RegisterRequest {
                    batch_size_limit: 0,
                })
                &&& m.header.checksum == spec_header_checksum(m.header)
                &&& m.header.checksum_body == mac_of(m.body@)
                &&& *final(self) == (Session {
                    state: SessionState::Registering,
                    parent: m.header.checksum,
                    ..*old(self)
                })
            },
    {
        match self.state {
            SessionState::Disconnected => {},
            SessionState::Shutdown => {
                return Err(ClientError::Shutdown);
            },
            _ => {
                return Err(ClientError::InvalidOperation);
            },
        }
        let body = RegisterRequest::default().to_bytes();
        let msg = RequestBuilder::new(self.cluster, self.id)
            .session(0)
            .request(0)
            .parent(0)
            .operation(Operation::Register)
            .release(CLIENT_RELEASE)
            .body(body.as_slice())
            .build();
        self.state = SessionState::Registering;
        self.parent = msg.header.checksum;
        Ok(msg)
    }

    /// Consume the register reply: take the session number from `commit`,
    /// the next parent from `context`, the batch size limit from the
    /// 64-byte register result, and become ready with request number one.
    /// A reply whose body cannot hold the register result is rejected.
    pub fn apply_register_reply(&mut self, reply: &Message) -> (r: Result<(), ClientError>)
        requires
            old(self).wf(),
            reply.wf(),
        ensures
            final(self).wf(),
            r is Ok <==> (old(self).state is Registering && reply.body@.len() >= 64),
            !(old(self).state is Registering) ==> r == Err::<(), ClientError>(
                ClientError::InvalidOperation) && *final(self) == *old(self),
            (old(self).state is Registering && reply.body@.len() < 64) ==> r == Err::<(),
                ClientError>(ClientError::Protocol(ProtocolError::InvalidSize))
                && *final(self) == *old(self),
            r is Ok ==> *final(self) == (Session {
                state: SessionState::Ready,
                session: spec_parse_reply_header(reply.header.reserved_command@).commit,
                parent: spec_parse_reply_header(reply.header.reserved_command@).context,
                request_number: 1,
                batch_size_limit: Some(spec_u32_from_le_bytes(reply.body@.subrange(0, 4))),
                ..*old(self)
            }),
    {
        match self.state {
            SessionState::Registering => {},
            _ => {
                return Err(ClientError::InvalidOperation);
            },
        }
        if reply.body.len() < 64 {
            return Err(ClientError::Protocol(ProtocolError::InvalidSize));
        }
        let result = crate::types::RegisterResult::from_bytes(reply.body.as_slice());
        let reply_header = reply.header.as_reply();
        self.batch_size_limit = Some(result.batch_size_limit);
        self.session = reply_header.commit;
        self.parent = reply_header.context;
        self.request_number = 1;
        self.state = SessionState::Ready;
        Ok(())
    }

    /// Build a state-machine request: encode the event bytes with the
    /// multi-batch trailer, reject an oversize body without sending, chain
    /// the parent checksum, and advance the request number before the send
    /// so that retries reuse the very same message.
    pub fn build_request(&mut self, operation: Operation, events: &[u8], element_size: u32)
        -> (r: Result<Message, ClientError>)
        requires
            old(self).wf(),
            operation.spec_is_multi_batch(),
            element_size > 0,
            events@.len() as int / element_size as int <= u16::MAX,
            events@.len() + spec_trailer_total_size(element_size as int, 1) <= u32::MAX,
            old(self).request_number < u32::MAX,
        ensures
            final(self).wf(),
            final(self).view == old(self).view,
            final(self).request_number >= old(self).request_number,
            spec_request_outcome(*old(self), *final(self), r,
                events@.len() + spec_trailer_total_size(element_size as int, 1)),
            r matches Ok(m) ==> spec_request_ok(*old(self), *final(self), m, operation,
                events@, element_size as int),
    {
        match self.state {
            SessionState::Ready => {},
            SessionState::Shutdown => {
                return Err(ClientError::Shutdown);
            },
            _ => {
                return Err(ClientError::NotRegistered);
            },
        }
        let limit = match self.batch_size_limit {
            Some(l) => l,
            None => {
                return Err(ClientError::NotRegistered);
            },
        };
        let trailer_size = trailer_total_size(element_size, 1);
        let events_len: u32 = events.len() as u32;
        let total: u32 = events_len + trailer_size;
        if total > limit || total > MESSAGE_BODY_SIZE_MAX {
            return Err(ClientError::RequestTooLarge { size: total, limit });
        }
        let mut body: Vec<u8> = vec![0u8; total as usize];
        let encoded = encode(&mut body, events, element_size);
        proof {
            assert(body@.subrange(0, total as int) =~= body@);
        }
        let msg = RequestBuilder::new(self.cluster, self.id)
            .session(self.session)
            .request(self.request_number)
            .parent(self.parent)
            .operation(operation)
            .release(CLIENT_RELEASE)
            .view(self.view)
            .body(body.as_slice())
            .build();
        self.parent = msg.header.checksum;
        self.request_number = self.request_number + 1;
        Ok(msg)
    }


    /// Build a create-accounts request from a batch of account records.
    pub fn create_accounts_request(&mut self, accounts: &Vec<Account>)
        -> (r: Result<Message, ClientError>)
        requires
            old(self).wf(),
            accounts@.len() <= u16::MAX,
            old(self).request_number < u32::MAX,
        ensures
            final(self).wf(),
            final(self).view == old(self).view,
            spec_request_outcome(*old(self), *final(self), r,
                128 * accounts@.len() as int + 128),
            r matches Ok(m) ==> spec_request_ok(*old(self), *final(self), m,
                Operation::CreateAccounts, spec_accounts_bytes(accounts@), 128),
    {
        let events = accounts_to_bytes(accounts);
        proof {
            assert(spec_trailer_total_size(128, 1) == 128);
            assert(events@.len() as int / 128 == accounts@.len());
        }
        self.build_request(Operation::CreateAccounts, events.as_slice(), 128)
    }

    /// Build a create-transfers request from a batch of transfer records.
    pub fn create_transfers_request(&mut self, transfers: &Vec<Transfer>)
        -> (r: Result<Message, ClientError>)
        requires
            old(self).wf(),
            transfers@.len() <= u16::MAX,
            old(self).request_number < u32::MAX,
        ensures
            final(self).wf(),
            final(self).view == old(self).view,
            spec_request_outcome(*old(self), *final(self), r,
                128 * transfers@.len() as int + 128),
            r matches Ok(m) ==> spec_request_ok(*old(self), *final(self), m,
                Operation::CreateTransfers, spec_transfers_bytes(transfers@), 128),
    {
        let events = transfers_to_bytes(transfers);
        proof {
            assert(spec_trailer_total_size(128, 1) == 128);
            assert(events@.len() as int / 128 == transfers@.len());
        }
        self.build_request(Operation::CreateTransfers, events.as_slice(), 128)
    }

    /// Build a lookup-accounts request from a batch of account ids.
    pub fn lookup_accounts_request(&mut self, ids: &Vec<u128>)
        -> (r: Result<Message, ClientError>)
        requires
            old(self).wf(),
            ids@.len() <= u16::MAX,
            old(self).request_number < u32::MAX,
        ensures
            final(self).wf(),
            final(self).view == old(self).view,
            spec_request_outcome(*old(self), *final(self), r, 16 * ids@.len() as int + 16),
            r matches Ok(m) ==> spec_request_ok(*old(self), *final(self), m,
                Operation::LookupAccounts, spec_ids_bytes(ids@), 16),
    {
        let events = ids_to_bytes(ids);
        proof {
            assert(spec_trailer_total_size(16, 1) == 16);
            assert(events@.len() as int / 16 == ids@.len());
        }
        self.build_request(Operation::LookupAccounts, events.as_slice(), 16)
    }

    /// Build a lookup-transfers request from a batch of transfer ids.
    pub fn lookup_transfers_request(&mut self, ids: &Vec<u128>)
        -> (r: Result<Message, ClientError>)
        requires
            old(self).wf(),
            ids@.len() <= u16::MAX,
            old(self).request_number < u32::MAX,
        ensures
            final(self).wf(),
            final(self).view == old(self).view,
            spec_request_outcome(*old(self), *final(self), r, 16 * ids@.len() as int + 16),
            r matches Ok(m) ==> spec_request_ok(*old(self), *final(self), m,
                Operation::LookupTransfers, spec_ids_bytes(ids@), 16),
    {
        let events = ids_to_bytes(ids);
        proof {
            assert(spec_trailer_total_size(16, 1) == 16);
            assert(events@.len() as int / 16 == ids@.len());
        }
        self.build_request(Operation::LookupTransfers, events.as_slice(), 16)
    }

    /// Build a get-account-transfers request from one account filter.
    pub fn get_account_transfers_request(&mut self, filter: &AccountFilter)
        -> (r: Result<Message, ClientError>)
        requires
            old(self).wf(),
            old(self).request_number < u32::MAX,
        ensures
            final(self).wf(),
            final(self).view == old(self).view,
            spec_request_outcome(*old(self), *final(self), r, 256),
            r matches Ok(m) ==> spec_request_ok(*old(self), *final(self), m,
                Operation::GetAccountTransfers, spec_account_filter_bytes(*filter), 128),
    {
        let events = filter.to_bytes();
        proof {
            assert(spec_trailer_total_size(128, 1) == 128);
        }
        self.build_request(Operation::GetAccountTransfers, events.as_slice(), 128)
    }

    /// Build a get-account-balances request from one account filter.
    pub fn get_account_balances_request(&mut self, filter: &AccountFilter)
        -> (r: Result<Message, ClientError>)
        requires
            old(self).wf(),
            old(self).request_number < u32::MAX,
        ensures
            final(self).wf(),
            final(self).view == old(self).view,
            spec_request_outcome(*old(self), *final(self), r, 256),
            r matches Ok(m) ==> spec_request_ok(*old(self), *final(self), m,
                Operation::GetAccountBalances, spec_account_filter_bytes(*filter), 128),
    {
        let events = filter.to_bytes();
        proof {
            assert(spec_trailer_total_size(128, 1) == 128);
        }
        self.build_request(Operation::GetAccountBalances, events.as_slice(), 128)
    }

    /// Build a query-accounts request from one query filter.
    pub fn query_accounts_request(&mut self, filter: &QueryFilter)
        -> (r: Result<Message, ClientError>)
        requires
            old(self).wf(),
            old(self).request_number < u32::MAX,
        ensures
            final(self).wf(),
            final(self).view == old(self).view,
            spec_request_outcome(*old(self), *final(self), r, 128),
            r matches Ok(m) ==> spec_request_ok(*old(self), *final(self), m,
                Operation::QueryAccounts, spec_query_filter_bytes(*filter), 64),
    {
        let events = filter.to_bytes();
        proof {
            assert(spec_trailer_total_size(64, 1) == 64);
        }
        self.build_request(Operation::QueryAccounts, events.as_slice(), 64)
    }

    /// Build a query-transfers request from one query filter.
    pub fn query_transfers_request(&mut self, filter: &QueryFilter)
        -> (r: Result<Message, ClientError>)
        requires
            old(self).wf(),
            old(self).request_number < u32::MAX,
        ensures
            final(self).wf(),
            final(self).view == old(self).view,
            spec_request_outcome(*old(self), *final(self), r, 128),
            r matches Ok(m) ==> spec_request_ok(*old(self), *final(self), m,
                Operation::QueryTransfers, spec_query_filter_bytes(*filter), 64),
    {
        let events = filter.to_bytes();
        proof {
            assert(spec_trailer_total_size(64, 1) == 64);
        }
        self.build_request(Operation::QueryTransfers, events.as_slice(), 64)
    }

    /// Accept a matched, validated reply: the reply's context becomes the
    /// next parent, and the view advances to the reply's view when that is
    /// higher — it never moves backwards.
    pub fn accept_reply(&mut self, reply: &Message)
        requires
            old(self).wf(),
            reply.wf(),
        ensures
            final(self).wf(),
            *final(self) == (Session {
                parent: spec_parse_reply_header(reply.header.reserved_command@).context,
                view: if reply.header.view > old(self).view {
                    reply.header.view
                } else {
                    old(self).view
                },
                ..*old(self)
            }),
            final(self).view >= old(self).view,
            final(self).request_number == old(self).request_number,
    {
        let reply_header = reply.header.as_reply();
        self.parent = reply_header.context;
        if reply.header.view > self.view {
            self.view = reply.header.view;
        }
    }

    /// Close the session: terminal, and every further operation fails.
    pub fn close(&mut self)
        ensures
            *final(self) == (Session { state: SessionState::Shutdown, ..*old(self) }),
    {
        self.state = SessionState::Shutdown;
    }

    /// Record an eviction: terminal for this handle, exactly like a close.
    /// The caller surfaces the eviction reason; afterwards every operation
    /// fails, the session never returning to ready.
    pub fn mark_evicted(&mut self)
        ensures
            *final(self) == (Session { state: SessionState::Shutdown, ..*old(self) }),
    {
        self.state = SessionState::Shutdown;
    }

    /// The replica the current view names as primary.
    pub fn primary_index(&self) -> (r: usize)
        requires
            self.wf(),
        ensures
            r == self.view as int % self.replica_count as int,
            r < self.replica_count,
    {
        (self.view % (self.replica_count as u32)) as usize
    }

    /// The backup replica an offset away from the primary; a backup is
    /// never the primary itself.
    pub fn backup_index(&self, offset: u8) -> (r: usize)
        requires
            self.wf(),
            1 <= offset < self.replica_count,
        ensures
            r == (self.view as int % self.replica_count as int + offset)
                % self.replica_count as int,
            r < self.replica_count,
            r != self.view as int % self.replica_count as int,
    {
        let primary: usize = self.primary_index();
        let r: usize = (primary + offset as usize) % self.replica_count as usize;
        proof {
            let p = self.view as int % self.replica_count as int;
            let o = offset as int;
            let rc = self.replica_count as int;
            assert((p + o) % rc != p) by (nonlinear_arith)
                requires 0 <= p < rc && 1 <= o < rc;
        }
        r
    }

    /// Pick a backup replica at random, when the cluster has more than one
    /// replica to hedge across.
    pub fn pick_backup(&self) -> (r: Option<usize>)
        requires
            self.wf(),
        ensures
            r is Some <==> self.replica_count > 1,
            r matches Some(b) ==> b < self.replica_count
                && b != self.view as int % self.replica_count as int,
    {
        if self.replica_count <= 1 {
            return None;
        }
        let offset = crate::entropy::random_range_u64(1, self.replica_count as u64);
        Some(self.backup_index(offset as u8))
    }

    /// Classify received bytes against the outstanding request. Short
    /// reads ask for more data; a corrupt header, an unexpected command,
    /// an impossible size or a corrupt body are protocol faults; an
    /// eviction is terminal; a valid reply that answers some other request
    /// or client is merely skipped; the rest is accepted.
    pub fn try_parse_reply(&self, data: &[u8], expected_checksum: u128) -> (r: ParseOutcome)
        requires
            self.wf(),
        ensures
            data@.len() < 256 ==> r is NeedMoreData,
            data@.len() >= 256 ==> ({
                let hb = data@.subrange(0, 256);
                let size = spec_wire_size(hb);
                if !spec_wire_header_checksum_ok(hb) {
                    r == ParseOutcome::ProtocolFault(ProtocolError::InvalidHeaderChecksum)
                } else if spec_wire_command(hb) == 18 {
                    &&& r matches ParseOutcome::Evicted(e)
                    &&& EvictionReason::spec_code_valid(spec_wire_eviction_reason(hb))
                        ==> e.spec_code() == spec_wire_eviction_reason(hb)
                    &&& !EvictionReason::spec_code_valid(spec_wire_eviction_reason(hb))
                        ==> e is NoSession
                } else if spec_wire_command(hb) != 8 {
                    r == ParseOutcome::ProtocolFault(ProtocolError::UnexpectedReply)
                } else if size < 256 {
                    r == ParseOutcome::ProtocolFault(ProtocolError::InvalidSize)
                } else if data@.len() < size {
                    r is NeedMoreData
                } else if spec_wire_reply_request_checksum(hb) != expected_checksum
                    || spec_wire_reply_client(hb) != self.id {
                    r is WrongReply
                } else if spec_wire_checksum_body(hb)
                    != mac_of(data@.subrange(256, size as int)) {
                    r == ParseOutcome::ProtocolFault(ProtocolError::InvalidBodyChecksum)
                } else {
                    &&& r matches ParseOutcome::Accepted(m)
                    &&& m.wf()
                    &&& spec_header_bytes(m.header) == hb
                    &&& m.body@ == data@.subrange(256, size as int)
                }
            }),
    {
        proof {
            le_facts();
        }
        let data_len: usize = data.len();
        if data_len < 256 {
            return ParseOutcome::NeedMoreData;
        }
        let ghost hb = data@.subrange(0, 256);
        let header_part = vstd::slice::slice_subrange(data, 0, 256);
        let header = Header::from_bytes(header_part);
        proof {
            lemma_wire_header_fields(header, hb);
        }
        if !header.valid_checksum() {
            return ParseOutcome::ProtocolFault(ProtocolError::InvalidHeaderChecksum);
        }
        if header.command != 8 {
            if header.command == 18 {
                let eviction = header.as_eviction();
                proof {
                    assert(header.reserved_command@ =~= hb.subrange(128, 256));
                    assert(hb.subrange(128, 256)[127] == hb[255]);
                }
                let reason = match EvictionReason::try_from(eviction.reason) {
                    Ok(e) => e,
                    Err(_) => EvictionReason::NoSession,
                };
                return ParseOutcome::Evicted(reason);
            }
            return ParseOutcome::ProtocolFault(ProtocolError::UnexpectedReply);
        }
        if header.size < 256 {
            return ParseOutcome::ProtocolFault(ProtocolError::InvalidSize);
        }
        if (data_len as u64) < (header.size as u64) {
            return ParseOutcome::NeedMoreData;
        }
        let total: usize = header.size as usize;
        let reply_header = header.as_reply();
        proof {
            assert(header.reserved_command@ =~= hb.subrange(128, 256));
            lemma_wire_reply_fields(hb);
        }
        if reply_header.request_checksum != expected_checksum || reply_header.client != self.id {
            return ParseOutcome::WrongReply;
        }
        let body_part = vstd::slice::slice_subrange(data, 256, total);
        if !header.valid_checksum_body(body_part) {
            return ParseOutcome::ProtocolFault(ProtocolError::InvalidBodyChecksum);
        }
        let body = vstd::slice::slice_to_vec(body_part);
        ParseOutcome::Accepted(Message { header, body })
    }
}

/// How received bytes classify against the outstanding request.
#[derive(Debug)]
pub enum ParseOutcome {
    /// Not enough bytes yet for a whole message.
    NeedMoreData,
    /// A valid reply, but for another request or client: skip it and keep
    /// waiting.
    WrongReply,
    /// The server evicted this session.
    Evicted(EvictionReason),
    /// The bytes are corrupt or unexpected; drop the connection.
    ProtocolFault(ProtocolError),
    /// The reply that answers the outstanding request.
    Accepted(Message),
}

/// Parse a create-accounts reply body: strip the multi-batch trailer and
/// read the 8-byte results. An empty list means every account was created.
/// A payload with a partial trailing element is a protocol error.
pub fn parse_create_accounts_reply(body: &[u8])
    -> (r: Result<Vec<CreateAccountsResult>, ClientError>)
    ensures
        r is Ok <==> spec_decode(body@, 8).len() % 8 == 0,
        r matches Ok(v) ==> {
            &&& v@.len() == spec_decode(body@, 8).len() / 8
            &&& spec_create_accounts_results_bytes(v@) == spec_decode(body@, 8)
        },
        r matches Err(e) ==> e == ClientError::Protocol(ProtocolError::InvalidSize),
{
    let payload = decode(body, 8);
    match parse_create_accounts_results(payload) {
        Some(v) => Ok(v),
        None => Err(ClientError::Protocol(ProtocolError::InvalidSize)),
    }
}

/// Parse a create-transfers reply body: strip the multi-batch trailer and
/// read the 8-byte results. An empty list means every transfer was created.
pub fn parse_create_transfers_reply(body: &[u8])
    -> (r: Result<Vec<CreateTransfersResult>, ClientError>)
    ensures
        r is Ok <==> spec_decode(body@, 8).len() % 8 == 0,
        r matches Ok(v) ==> {
            &&& v@.len() == spec_decode(body@, 8).len() / 8
            &&& spec_create_transfers_results_bytes(v@) == spec_decode(body@, 8)
        },
        r matches Err(e) ==> e == ClientError::Protocol(ProtocolError::InvalidSize),
{
    let payload = decode(body, 8);
    match parse_create_transfers_results(payload) {
        Some(v) => Ok(v),
        None => Err(ClientError::Protocol(ProtocolError::InvalidSize)),
    }
}

/// Parse a reply body carrying account records: strip the multi-batch
/// trailer and read the 128-byte accounts; ids that were not found are
/// simply absent.
pub fn parse_accounts_reply(body: &[u8]) -> (r: Result<Vec<Account>, ClientError>)
    ensures
        r is Ok <==> spec_decode(body@, 128).len() % 128 == 0,
        r matches Ok(v) ==> {
            &&& v@.len() == spec_decode(body@, 128).len() / 128
            &&& spec_accounts_bytes(v@) == spec_decode(body@, 128)
        },
        r matches Err(e) ==> e == ClientError::Protocol(ProtocolError::InvalidSize),
{
    let payload = decode(body, 128);
    match parse_accounts(payload) {
        Some(v) => Ok(v),
        None => Err(ClientError::Protocol(ProtocolError::InvalidSize)),
    }
}

/// Parse a reply body carrying transfer records: strip the multi-batch
/// trailer and read the 128-byte transfers.
pub fn parse_transfers_reply(body: &[u8]) -> (r: Result<Vec<Transfer>, ClientError>)
    ensures
        r is Ok <==> spec_decode(body@, 128).len() % 128 == 0,
        r matches Ok(v) ==> {
            &&& v@.len() == spec_decode(body@, 128).len() / 128
            &&& spec_transfers_bytes(v@) == spec_decode(body@, 128)
        },
        r matches Err(e) ==> e == ClientError::Protocol(ProtocolError::InvalidSize),
{
    let payload = decode(body, 128);
    match parse_transfers(payload) {
        Some(v) => Ok(v),
        None => Err(ClientError::Protocol(ProtocolError::InvalidSize)),
    }
}

/// Parse a reply body carrying balance snapshots: strip the multi-batch
/// trailer and read the 128-byte balances.
pub fn parse_account_balances_reply(body: &[u8])
    -> (r: Result<Vec<AccountBalance>, ClientError>)
    ensures
        r is Ok <==> spec_decode(body@, 128).len() % 128 == 0,
        r matches Ok(v) ==> {
            &&& v@.len() == spec_decode(body@, 128).len() / 128
            &&& forall|k: int| 0 <= k < v@.len() ==> v@[k] == spec_parse_account_balance(
                spec_decode(body@, 128).subrange(128 * k, 128 * (k + 1)))
        },
        r matches Err(e) ==> e == ClientError::Protocol(ProtocolError::InvalidSize),
{
    let payload = decode(body, 128);
    match parse_account_balances(payload) {
        Some(v) => Ok(v),
        None => Err(ClientError::Protocol(ProtocolError::InvalidSize)),
    }
}

/// Hash chain: when one request is built and then another on the same
/// session, the later request's parent field on the wire is exactly the
/// earlier request's header checksum.
pub proof fn lemma_hash_chain(
    s0: Session,
    s1: Session,
    s2: Session,
    m1: Message,
    m2: Message,
    op1: Operation,
    op2: Operation,
    e1: Seq<u8>,
    es1: int,
    e2: Seq<u8>,
    es2: int,
)
    requires
        spec_request_ok(s0, s1, m1, op1, e1, es1),
        spec_request_ok(s1, s2, m2, op2, e2, es2),
        s0.request_number + 2 <= u32::MAX,
    ensures
        crate::header::spec_parse_request_header(m2.header.reserved_command@).parent
            == m1.header.checksum,
        s2.request_number == s0.request_number + 2,
{
    crate::header::lemma_request_header_roundtrip(RequestHeader {
        parent: s1.parent,
        parent_padding: 0,
        client: s1.id,
        session: s1.session,
        timestamp: 0,
        request: s1.request_number,
        operation: op2.spec_code(),
        previous_request_latency: 0,
    });
}

/// Request numbers strictly increase and the view never decreases across
/// a built request.
pub proof fn lemma_session_monotone(s0: Session, s1: Session, m: Message, op: Operation,
    e: Seq<u8>, es: int)
    requires
        spec_request_ok(s0, s1, m, op, e, es),
        s0.request_number < u32::MAX,
    ensures
        s1.request_number == s0.request_number + 1,
        s1.request_number > s0.request_number,
        s1.view == s0.view,
{
}

/// Whether the checksum stored in a 256-byte header covers its bytes
/// 16..256 correctly.
pub open spec fn spec_wire_header_checksum_ok(hb: Seq<u8>) -> bool {
    spec_u128_from_le_bytes(hb.subrange(0, 16)) == mac_of(hb.subrange(16, 256))
}

/// The command byte of a 256-byte header.
pub open spec fn spec_wire_command(hb: Seq<u8>) -> u8 {
    hb[114]
}

/// The size field of a 256-byte header.
pub open spec fn spec_wire_size(hb: Seq<u8>) -> u32 {
    spec_u32_from_le_bytes(hb.subrange(96, 100))
}

/// The body checksum field of a 256-byte header.
pub open spec fn spec_wire_checksum_body(hb: Seq<u8>) -> u128 {
    spec_u128_from_le_bytes(hb.subrange(32, 48))
}

/// The request checksum of the reply overlay in a 256-byte header.
pub open spec fn spec_wire_reply_request_checksum(hb: Seq<u8>) -> u128 {
    spec_u128_from_le_bytes(hb.subrange(128, 144))
}

/// The context of the reply overlay in a 256-byte header.
pub open spec fn spec_wire_reply_context(hb: Seq<u8>) -> u128 {
    spec_u128_from_le_bytes(hb.subrange(160, 176))
}

/// The client of the reply overlay in a 256-byte header.
pub open spec fn spec_wire_reply_client(hb: Seq<u8>) -> u128 {
    spec_u128_from_le_bytes(hb.subrange(192, 208))
}

/// The eviction reason byte: the very last byte of the header.
pub open spec fn spec_wire_eviction_reason(hb: Seq<u8>) -> u8 {
    hb[255]
}

/// A header parsed from 256 bytes exposes exactly the wire fields: its
/// checksum is the first 16 bytes read little-endian, its size field sits
/// at 96, its command byte at 114, and so on.
pub proof fn lemma_wire_header_fields(h: Header, hb: Seq<u8>)
    requires
        h.wf(),
        hb.len() == 256,
        spec_header_bytes(h) == hb,
    ensures
        h.checksum == spec_u128_from_le_bytes(hb.subrange(0, 16)),
        h.checksum_body == spec_wire_checksum_body(hb),
        h.size == spec_wire_size(hb),
        h.command == spec_wire_command(hb),
        spec_header_checksum(h) == mac_of(hb.subrange(16, 256)),
        (h.checksum == spec_header_checksum(h)) == spec_wire_header_checksum_ok(hb),
        h.reserved_command@ == hb.subrange(128, 256),
{
    le_facts();
    assert(hb.subrange(0, 16) =~= spec_u128_to_le_bytes(h.checksum));
    assert(hb.subrange(32, 48) =~= spec_u128_to_le_bytes(h.checksum_body));
    assert(hb.subrange(96, 100) =~= spec_u32_to_le_bytes(h.size));
    assert(hb[114] == h.command);
    assert(hb.subrange(128, 256) =~= h.reserved_command@);
    assert(spec_header_bytes(h).subrange(16, 256) =~= hb.subrange(16, 256));
}

/// The reply overlay's wire fields sit at fixed offsets of the whole
/// header: the overlay's subranges are the header's shifted by 128.
pub proof fn lemma_wire_reply_fields(hb: Seq<u8>)
    requires
        hb.len() == 256,
    ensures
        spec_parse_reply_header(hb.subrange(128, 256)).request_checksum
            == spec_wire_reply_request_checksum(hb),
        spec_parse_reply_header(hb.subrange(128, 256)).context == spec_wire_reply_context(hb),
        spec_parse_reply_header(hb.subrange(128, 256)).client == spec_wire_reply_client(hb),
{
    let ov = hb.subrange(128, 256);
    assert(ov.subrange(0, 16) =~= hb.subrange(128, 144));
    assert(ov.subrange(32, 48) =~= hb.subrange(160, 176));
    assert(ov.subrange(64, 80) =~= hb.subrange(192, 208));
}

/// The next attempt's timeout: double the current one, capped at the
/// maximum, plus the caller's jitter.
pub open spec fn spec_next_timeout_ms(current: u64, max: u64, jitter: u64) -> int {
    (if 2 * current <= max {
        2 * current
    } else {
        max as int
    }) + jitter
}

/// Compute the next attempt's timeout from the current one: exponential
/// backoff capped at the maximum, plus jitter.
pub fn next_timeout_ms(current: u64, max: u64, jitter: u64) -> (r: u64)
    requires
        current <= max,
        max <= u64::MAX / 2,
        jitter <= max,
    ensures
        r == spec_next_timeout_ms(current, max, jitter),
{
    let doubled: u64 = if current <= max / 2 {
        2 * current
    } else {
        max
    };
    let base: u64 = if doubled > max {
        max
    } else {
        doubled
    };
    proof {
        assert(base == if 2 * current <= max { 2 * current } else { max as int });
    }
    base + jitter
}

/// Draw the next attempt's timeout at random: exponential backoff capped
/// at the maximum, plus uniform jitter below a quarter of the new base.
pub fn backoff_timeout_ms(current: u64, max: u64) -> (r: u64)
    requires
        current <= max,
        max <= u64::MAX / 2,
    ensures
        ({
            let base = if 2 * current <= max { 2 * current } else { max as int };
            base <= r <= base + base / 4
        }),
{
    let doubled: u64 = if current <= max / 2 {
        2 * current
    } else {
        max
    };
    let base: u64 = if doubled > max {
        max
    } else {
        doubled
    };
    let jitter: u64 = if base >= 4 {
        crate::entropy::random_range_u64(0, base / 4)
    } else {
        0
    };
    base + jitter
}

} // verus!
