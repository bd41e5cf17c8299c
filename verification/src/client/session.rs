//! Client session bookkeeping.
//!
//! The functions of [`client`](crate::client) and of the per-API shims each
//! take an explicit `req_id`/`seq` pair so that an export layer can drive
//! correlation however it likes. [`Client`] is the friendlier front door: it
//! remembers the server-assigned session id and allocates `req_id`/`seq` values
//! internally so callers never thread them by hand.
use vstd::prelude::*;

use super::ClientError;
use crate::protocol as proto;
use crate::protocol::core_op;
use crate::protocol::vk;
use crate::protocol::vk_op;
use crate::protocol::wire::Wire;

verus! {

/// An open client session.
///
/// Made by [`Client::connect`] from the reply to the opening handshake, which
/// carries the session id. Each request method allocates the next
/// `req_id`/`seq` from internal monotonic counters and returns the frame to
/// send.
pub struct Client {
    /// Next request id to hand out; monotonically increasing.
    next_req_id: u32,
    /// Next sequence number to hand out; monotonically increasing.
    next_seq: u64,
    /// Session id assigned by the server in its `Welcome`.
    session_id: u64,
}

impl Client {
    /// The request id that is handed out next.
    pub closed spec fn spec_next_req_id(&self) -> u32 {
        self.next_req_id
    }

    /// The sequence number that is handed out next.
    pub closed spec fn spec_next_seq(&self) -> u64 {
        self.next_seq
    }

    /// The session id.
    pub closed spec fn spec_session_id(&self) -> u64 {
        self.session_id
    }

    /// The counters moved on by one since `before`, each staying at its maximum,
    /// and the session id did not change.
    pub open spec fn advanced(&self, before: &Client) -> bool {
        &&& self.spec_session_id() == before.spec_session_id()
        &&& self.spec_next_req_id() == if before.spec_next_req_id() < u32::MAX {
            (before.spec_next_req_id() + 1) as u32
        } else {
            u32::MAX
        }
        &&& self.spec_next_seq() == if before.spec_next_seq() < u64::MAX {
            (before.spec_next_seq() + 1) as u64
        } else {
            u64::MAX
        }
    }

    /// Open a session from the reply to the opening handshake and remember the
    /// server-assigned session id.
    ///
    /// The handshake itself uses `req_id`/`seq` of `1`, so the internal counters
    /// start at `2` to avoid colliding with it.
    pub fn connect(reply: &[u8]) -> (r: Result<Client, ClientError>)
        ensures
            match super::handshake_result(reply@) {
                Ok(welcome) => {
                    &&& r matches Ok(client)
                    &&& client.spec_session_id() == welcome.session_id
                    &&& client.spec_next_req_id() == 2
                    &&& client.spec_next_seq() == 2
                },
                Err(e) => r == Err::<Client, ClientError>(e),
            },
    {
        let welcome = super::handshake_reply(reply)?;
        Ok(Client { next_req_id: 2, next_seq: 2, session_id: welcome.session_id })
    }

    /// The server-assigned session id from the handshake.
    pub fn session_id(&self) -> (id: u64)
        ensures
            id == self.spec_session_id(),
    {
        self.session_id
    }

    /// Allocate the next `(req_id, seq)` correlation pair, advancing both
    /// counters. Counters saturate rather than wrap so correlation ids stay
    /// monotonic for the life of the session.
    pub fn next_ids(&mut self) -> (ids: (u32, u64))
        ensures
            ids == (old(self).spec_next_req_id(), old(self).spec_next_seq()),
            final(self).advanced(old(self)),
    {
        let req_id: u32 = self.next_req_id;
        let seq: u64 = self.next_seq;
        self.next_req_id = self.next_req_id.saturating_add(1);
        self.next_seq = self.next_seq.saturating_add(1);
        (req_id, seq)
    }

    /// The frame of a no-op round-trip, validating the pipe end to end. The
    /// reply goes to [`noop_reply`](super::noop_reply).
    pub fn noop(&mut self) -> (frame: Vec<u8>)
        ensures
            frame@ == proto::frame::request_bytes(
                core_op::NOOP,
                old(self).spec_next_req_id(),
                old(self).spec_next_seq(),
                seq![],
            ),
            final(self).advanced(old(self)),
    {
        let (req_id, seq): (u32, u64) = self.next_ids();
        super::noop_request(req_id, seq)
    }

    /// The request frame of `vkCreateInstance`. The reply goes to
    /// [`create_instance_reply`](super::vk::create_instance_reply).
    pub fn vk_create_instance(&mut self, app_api_version: u32) -> (frame: Vec<u8>)
        ensures
            frame@ == proto::frame::request_bytes(
                vk_op::CREATE_INSTANCE,
                old(self).spec_next_req_id(),
                old(self).spec_next_seq(),
                (vk::CreateInstanceRequest { app_api_version }).bytes(),
            ),
            final(self).advanced(old(self)),
    {
        let (req_id, seq): (u32, u64) = self.next_ids();
        super::vk::create_instance_request(app_api_version, req_id, seq)
    }

    /// The request frame of `vkEnumeratePhysicalDevices` for `instance`. The
    /// reply goes to
    /// [`enumerate_physical_devices_reply`](super::vk::enumerate_physical_devices_reply).
    pub fn vk_enumerate_physical_devices(&mut self, instance: proto::Handle) -> (frame: Vec<u8>)
        ensures
            frame@ == proto::frame::request_bytes(
                vk_op::ENUMERATE_PHYSICAL_DEVICES,
                old(self).spec_next_req_id(),
                old(self).spec_next_seq(),
                (vk::EnumeratePhysicalDevicesRequest { instance }).bytes(),
            ),
            final(self).advanced(old(self)),
    {
        let (req_id, seq): (u32, u64) = self.next_ids();
        super::vk::enumerate_physical_devices_request(instance, req_id, seq)
    }
}

/// A client never hands out the same pair of ids twice before a counter is full:
/// each step takes both counters on by exactly one, and a full counter stays where
/// it is. The session id is the same for the life of the session.
pub proof fn law_ids_move_on(before: &Client, after: &Client)
    requires
        after.advanced(before),
    ensures
        before.spec_next_req_id() < u32::MAX ==> after.spec_next_req_id()
            == before.spec_next_req_id() + 1,
        before.spec_next_req_id() == u32::MAX ==> after.spec_next_req_id() == u32::MAX,
        before.spec_next_seq() < u64::MAX ==> after.spec_next_seq() == before.spec_next_seq() + 1,
        before.spec_next_seq() == u64::MAX ==> after.spec_next_seq() == u64::MAX,
        after.spec_session_id() == before.spec_session_id(),
{
}

/// A client that has connected carries the session id of the welcome it was given,
/// and hands out ids from 2 on, behind those of the handshake.
pub proof fn law_connected(
    reply: &[u8],
    r: Result<Client, ClientError>,
    h: proto::FrameHeader,
    welcome: proto::Welcome,
    rest: Seq<u8>,
)
    requires
        call_ensures(Client::connect, (reply,), r),
        reply@ == proto::frame::frame_bytes(h, welcome.bytes() + rest),
    ensures
        h.opcode == core_op::WELCOME && h.kind == proto::FrameKind::Response ==> (r matches Ok(
            client,
        ) && {
            &&& client.spec_session_id() == welcome.session_id
            &&& client.spec_next_req_id() == 2
            &&& client.spec_next_seq() == 2
        }),
        h.opcode != core_op::WELCOME || h.kind != proto::FrameKind::Response ==> r == Err::<
            Client,
            ClientError,
        >(ClientError::UnexpectedReply { opcode: h.opcode, kind: h.kind }),
{
    super::law_core_replies(h, welcome, rest, welcome.bytes() + rest, seq![]);
}

/// The requests of a client are numbered by its counters: each carries the request
/// id and the sequence number that were next, and takes both counters on. A no-op
/// has no body; the creation of an instance carries the version; the enumeration
/// of physical devices carries the instance.
pub proof fn law_client_numbers_requests(
    client: &mut Client,
    noop: Vec<u8>,
    create: Vec<u8>,
    list: Vec<u8>,
    ids: (u32, u64),
    version: u32,
    instance: proto::Handle,
)
    ensures
        call_ensures(Client::noop, (client,), noop) ==> {
            &&& proto::frame::parse_frame(noop@) matches Ok((h, body))
            &&& h.kind == proto::FrameKind::Request
            &&& h.opcode == 3
            &&& h.req_id == old(client).spec_next_req_id()
            &&& h.seq == old(client).spec_next_seq()
            &&& h.body_len == 0
            &&& body.len() == 0
            &&& final(client).advanced(old(client))
        },
        call_ensures(Client::vk_create_instance, (client, version), create) ==> {
            &&& proto::frame::parse_frame(create@) matches Ok((h, body))
            &&& h.kind == proto::FrameKind::Request
            &&& h.opcode == 0x0100_0001
            &&& h.req_id == old(client).spec_next_req_id()
            &&& h.seq == old(client).spec_next_seq()
            &&& h.body_len == 4
            &&& body.len() == 4
            &&& proto::bytes::u32_at(body, 0) == version
            &&& final(client).advanced(old(client))
        },
        call_ensures(Client::vk_enumerate_physical_devices, (client, instance), list) ==> {
            &&& proto::frame::parse_frame(list@) matches Ok((h, body))
            &&& h.kind == proto::FrameKind::Request
            &&& h.opcode == 0x0100_0003
            &&& h.req_id == old(client).spec_next_req_id()
            &&& h.seq == old(client).spec_next_seq()
            &&& h.body_len == 8
            &&& body.len() == 8
            &&& proto::bytes::u64_at(body, 0) == instance@
            &&& final(client).advanced(old(client))
        },
        call_ensures(Client::next_ids, (client,), ids) ==> {
            &&& ids.0 == old(client).spec_next_req_id()
            &&& ids.1 == old(client).spec_next_seq()
            &&& final(client).advanced(old(client))
        },
{
    let (req_id, seq) = (client.spec_next_req_id(), client.spec_next_seq());
    let creation = vk::CreateInstanceRequest { app_api_version: version };
    let listing = vk::EnumeratePhysicalDevicesRequest { instance };
    vk::law_create_instance_request_layout(creation);
    vk::law_enumerate_physical_devices_request_layout(listing);
    proto::frame::law_made_frames(core_op::NOOP, req_id, seq, seq![]);
    proto::frame::law_made_frames(vk_op::CREATE_INSTANCE, req_id, seq, creation.bytes());
    proto::frame::law_made_frames(
        vk_op::ENUMERATE_PHYSICAL_DEVICES,
        req_id,
        seq,
        listing.bytes(),
    );
}

} // verus!
