//! The RPMB protocol engine: the request dispatcher with its single-slot
//! pending-response mailbox, and the processing of descriptor chains
//! against guest memory.

use vstd::prelude::*;
use crate::frame::{is_result_frame, VirtIORPMBFrame, RPMB_FRAME_SIZE};
use crate::guest::{read_guest, write_guest};
use crate::rpmb::{key_slot_after, RpmbBackend};

verus! {

pub const VIRTIO_RPMB_REQ_PROGRAM_KEY: u16 = 0x0001;

pub const VIRTIO_RPMB_REQ_RESULT_READ: u16 = 0x0005;

pub const VIRTIO_RPMB_RESP_PROGRAM_KEY: u16 = 0x0100;

pub const VIRTIO_RPMB_RES_OK: u16 = 0x0000;

pub const VIRTIO_RPMB_RES_GENERAL_FAILURE: u16 = 0x0001;

pub const VIRTIO_RPMB_RES_WRITE_FAILURE: u16 = 0x0005;

pub const QUEUE_SIZE: usize = 1024;

pub const NUM_QUEUES: usize = 1;

/// Errors of the engine. Each one aborts the current chain or event only.
#[derive(Debug, Clone, Copy, PartialEq, Eq, Structural)]
pub enum Error {
    /// An event other than "readable" was delivered.
    NotEpollIn,
    /// An event for a queue other than queue 0 was delivered.
    UnknownEvent,
    /// A write-only descriptor stood where a request was to be read.
    UnexpectedWriteOnlyDescriptor,
    /// A reply was due but the chain holds no writable descriptor.
    UnexpectedReadDescriptor,
    /// The chain holds fewer than two descriptors.
    WrongDescriptorCount,
    /// A readable descriptor is not exactly one frame long.
    WrongDescriptorSize,
    /// The available ring could not be walked.
    DescriptorNotFound,
    /// A request frame could not be read from guest memory.
    DescriptorReadFailed,
    /// A reply frame could not be written to guest memory.
    DescriptorWriteFailed,
    /// The used queue could not be signalled.
    DescriptorSendFailed,
}

#[derive(Clone, Copy, Debug, PartialEq, Eq, Structural)]
pub enum RequestType {
    ProgramKey,
    Unsupported(u32),
}

#[derive(Clone, Copy, Debug, PartialEq, Eq, Structural)]
pub enum RequestResultType {
    Success,
    GeneralFailure,
}

/// The mailbox of the two-phase protocol: the outcome of the last request
/// whose reply is deferred, until a result-read request takes it.
#[derive(Clone, Copy, Debug, PartialEq, Eq, Structural)]
pub enum PendingState {
    NoResponse,
    PendingResponse { req_resp: u16, result: u16 },
}

/// What handling one request frame yields.
#[derive(Clone, Copy, Debug, PartialEq, Eq)]
pub enum RequestResponse {
    /// Nothing to send, nothing to keep.
    NoResponse,
    /// A deferred outcome, to be kept until a result-read request.
    PendingResponse { req_resp: u16, result: u16 },
    /// A reply frame, to be written back at once.
    Response(VirtIORPMBFrame),
}

/// One buffer of a descriptor chain, as the guest described it.
#[derive(Clone, Copy, Debug, PartialEq, Eq, Structural)]
pub struct Descriptor {
    pub addr: u64,
    pub len: u32,
    pub write_only: bool,
}

/// The result code of a program-key request on a device whose key is `key`.
pub open spec fn program_key_result(key: Option<Seq<u8>>, frame: VirtIORPMBFrame) -> u16 {
    if frame.block_count != 1 {
        VIRTIO_RPMB_RES_GENERAL_FAILURE
    } else if key is None {
        VIRTIO_RPMB_RES_OK
    } else {
        VIRTIO_RPMB_RES_WRITE_FAILURE
    }
}

/// The stored key after a request frame has been handled.
pub open spec fn key_after_request(key: Option<Seq<u8>>, frame: VirtIORPMBFrame) -> Option<
    Seq<u8>,
> {
    if frame.req_resp == VIRTIO_RPMB_REQ_PROGRAM_KEY && frame.block_count == 1 && key is None {
        Some(frame.key_mac@)
    } else {
        key
    }
}

/// The mailbox after a request frame has been handled.
pub open spec fn pending_after_request(
    pending: PendingState,
    key: Option<Seq<u8>>,
    frame: VirtIORPMBFrame,
) -> PendingState {
    if frame.req_resp == VIRTIO_RPMB_REQ_PROGRAM_KEY {
        PendingState::PendingResponse {
            req_resp: VIRTIO_RPMB_RESP_PROGRAM_KEY,
            result: program_key_result(key, frame),
        }
    } else if frame.req_resp == VIRTIO_RPMB_REQ_RESULT_READ {
        PendingState::NoResponse
    } else {
        pending
    }
}

/// The `(req_resp, result)` of the reply that a request frame gets at once,
/// if any.
pub open spec fn reply_to_request(pending: PendingState, frame: VirtIORPMBFrame) -> Option<
    (u16, u16),
> {
    if frame.req_resp == VIRTIO_RPMB_REQ_RESULT_READ {
        match pending {
            PendingState::PendingResponse { req_resp, result } => Some((req_resp, result)),
            PendingState::NoResponse => None,
        }
    } else {
        None
    }
}

/// Mailbox, key and number of replies after handling `frames` in order,
/// from mailbox `pending` and key `key`.
pub open spec fn requests_outcome(
    pending: PendingState,
    key: Option<Seq<u8>>,
    frames: Seq<VirtIORPMBFrame>,
) -> (PendingState, Option<Seq<u8>>, nat)
    decreases frames.len(),
{
    if frames.len() == 0 {
        (pending, key, 0)
    } else {
        let before = requests_outcome(pending, key, frames.drop_last());
        let f = frames.last();
        (
            pending_after_request(before.0, before.1, f),
            key_after_request(before.1, f),
            if reply_to_request(before.0, f) is Some {
                before.2 + 1
            } else {
                before.2
            },
        )
    }
}

/// Bytes reported to the used ring for `replies` reply frames, saturated
/// at the largest used length.
pub open spec fn used_bytes(replies: nat) -> u32 {
    if RPMB_FRAME_SIZE * replies <= u32::MAX {
        (RPMB_FRAME_SIZE * replies) as u32
    } else {
        u32::MAX
    }
}

/// What stops a chain before any of its frames is read: fewer than two
/// descriptors, or a first readable buffer that is not one frame long.
pub open spec fn shape_error(descs: Seq<Descriptor>) -> Option<Error> {
    if descs.len() < 2 {
        Some(Error::WrongDescriptorCount)
    } else if readable_part(descs).len() > 0 && readable_part(descs)[0].len != RPMB_FRAME_SIZE {
        Some(Error::WrongDescriptorSize)
    } else {
        None
    }
}

/// A chain of two or more descriptors, all of them guest-writable: it
/// holds no request.
pub open spec fn all_write_only(descs: Seq<Descriptor>) -> bool {
    descs.len() >= 2 && forall|k: int| 0 <= k < descs.len() ==> descs[k].write_only
}

/// Handling the chain `descs` with result `r` is explained by `frames`, the
/// request frames read from it in chain order: they take mailbox `pending`
/// and key `key` to `pending_after` and `key_after`; on success there is one
/// per readable buffer and the used length counts their replies; a chain
/// stopped by its shape reads none.
pub open spec fn chain_explains(
    pending: PendingState,
    key: Option<Seq<u8>>,
    descs: Seq<Descriptor>,
    frames: Seq<VirtIORPMBFrame>,
    r: Result<u32, Error>,
    pending_after: PendingState,
    key_after: Option<Seq<u8>>,
) -> bool {
    let outcome = requests_outcome(pending, key, frames);
    &&& outcome.0 == pending_after
    &&& outcome.1 == key_after
    &&& frames.len() <= readable_part(descs).len()
    &&& r is Ok ==> frames.len() == readable_part(descs).len() && r->Ok_0 == used_bytes(outcome.2)
    &&& shape_error(descs) is Some ==> frames.len() == 0
}

/// Mailbox and key after whole chains whose frames are `fss` were handled,
/// in order.
pub open spec fn batch_outcome(
    pending: PendingState,
    key: Option<Seq<u8>>,
    fss: Seq<Seq<VirtIORPMBFrame>>,
) -> (PendingState, Option<Seq<u8>>)
    decreases fss.len(),
{
    if fss.len() == 0 {
        (pending, key)
    } else {
        let before = batch_outcome(pending, key, fss.drop_last());
        let outcome = requests_outcome(before.0, before.1, fss.last());
        (outcome.0, outcome.1)
    }
}

/// Used length of chain `i` of a batch whose chains held the frames `fss`:
/// the replies of its frames, from the state the chains before it left.
pub open spec fn batch_used(
    pending: PendingState,
    key: Option<Seq<u8>>,
    fss: Seq<Seq<VirtIORPMBFrame>>,
    i: int,
) -> u32 {
    let start = batch_outcome(pending, key, fss.take(i));
    used_bytes(requests_outcome(start.0, start.1, fss[i]).2)
}

/// Mailbox and key after the whole chains `fss`, then the frames `rest` of
/// a chain that stopped part way.
pub open spec fn batch_and_rest(
    pending: PendingState,
    key: Option<Seq<u8>>,
    fss: Seq<Seq<VirtIORPMBFrame>>,
    rest: Seq<VirtIORPMBFrame>,
) -> (PendingState, Option<Seq<u8>>) {
    let done = batch_outcome(pending, key, fss);
    let outcome = requests_outcome(done.0, done.1, rest);
    (outcome.0, outcome.1)
}

/// Processing `chains` with used lengths `used` and status `status` is
/// explained by the frames read: `fss[i]` from chain `i`, one per readable
/// buffer, for each chain processed, and `rest` from the chain that stopped
/// the batch, if any. The chains run in ring order, each from the state the
/// one before left; each used length counts the replies of its own chain;
/// a chain stopped by its shape reads nothing and reports its shape error.
pub open spec fn batch_explains(
    pending: PendingState,
    key: Option<Seq<u8>>,
    chains: Seq<Vec<Descriptor>>,
    fss: Seq<Seq<VirtIORPMBFrame>>,
    rest: Seq<VirtIORPMBFrame>,
    used: Seq<u32>,
    status: Result<(), Error>,
    pending_after: PendingState,
    key_after: Option<Seq<u8>>,
) -> bool {
    &&& fss.len() == used.len()
    &&& used.len() <= chains.len()
    &&& forall|i: int|
        0 <= i < fss.len() ==> (#[trigger] fss[i]).len() == readable_part(chains[i]@).len()
            && used[i] == batch_used(pending, key, fss, i)
    &&& batch_and_rest(pending, key, fss, rest) == (pending_after, key_after)
    &&& status is Ok ==> rest.len() == 0 && used.len() == chains.len()
    &&& status is Err ==> used.len() < chains.len() && rest.len() <= readable_part(
        chains[used.len() as int]@,
    ).len() && (shape_error(chains[used.len() as int]@) is Some ==> status == Err::<(), Error>(
        shape_error(chains[used.len() as int]@)->Some_0,
    ) && rest.len() == 0)
}

/// From an empty mailbox a single request frame never gets a reply,
/// whatever it holds.
pub proof fn lemma_single_frame_from_empty_mailbox(
    key: Option<Seq<u8>>,
    frames: Seq<VirtIORPMBFrame>,
)
    requires
        frames.len() == 1,
    ensures
        requests_outcome(PendingState::NoResponse, key, frames).2 == 0,
        used_bytes(0) == 0,
{
    assert(frames.drop_last() =~= Seq::<VirtIORPMBFrame>::empty());
    assert(requests_outcome(PendingState::NoResponse, key, Seq::<VirtIORPMBFrame>::empty()) == (
    PendingState::NoResponse, key, 0nat));
}

/// The first chain of a batch runs from the state the batch started in.
pub proof fn lemma_batch_used_first(
    pending: PendingState,
    key: Option<Seq<u8>>,
    fss: Seq<Seq<VirtIORPMBFrame>>,
)
    requires
        fss.len() > 0,
    ensures
        batch_used(pending, key, fss, 0) == used_bytes(requests_outcome(pending, key, fss[0]).2),
{
    assert(fss.take(0) =~= Seq::<Seq<VirtIORPMBFrame>>::empty());
    assert(batch_outcome(pending, key, Seq::<Seq<VirtIORPMBFrame>>::empty()) == (pending, key));
}

/// A chain of one readable and then one writable descriptor has that
/// request buffer and that reply buffer.
pub proof fn lemma_request_reply_chain(request: Descriptor, reply: Descriptor)
    requires
        !request.write_only,
        reply.write_only,
    ensures
        readable_part(seq![request, reply]) == seq![request],
        writable_part(seq![request, reply]) == seq![reply],
{
    let empty = Seq::<Descriptor>::empty();
    reveal(Seq::filter);
    assert(empty.filter(readable_pred()) =~= empty);
    assert(empty.filter(writable_pred()) =~= empty);
    empty.lemma_filter_push(request, readable_pred());
    empty.lemma_filter_push(request, writable_pred());
    empty.push(request).lemma_filter_push(reply, readable_pred());
    empty.push(request).lemma_filter_push(reply, writable_pred());
    assert(empty.push(request).push(reply) =~= seq![request, reply]);
    assert(empty.push(request) =~= seq![request]);
    assert(empty.push(reply) =~= seq![reply]);
}

/// A batch of one chain leaves the state that the chain's frames leave, and
/// reports the used length of that chain.
pub proof fn lemma_batch_of_one(
    pending: PendingState,
    key: Option<Seq<u8>>,
    frames: Seq<VirtIORPMBFrame>,
)
    ensures
        batch_outcome(pending, key, seq![frames]) == (
            requests_outcome(pending, key, frames).0,
            requests_outcome(pending, key, frames).1,
        ),
        batch_used(pending, key, seq![frames], 0) == used_bytes(
            requests_outcome(pending, key, frames).2,
        ),
        used_bytes(1) == 512,
{
    let fss = seq![frames];
    assert(fss.drop_last() =~= Seq::<Seq<VirtIORPMBFrame>>::empty());
    assert(fss.take(0) =~= Seq::<Seq<VirtIORPMBFrame>>::empty());
    assert(fss.last() == frames);
    assert(batch_outcome(pending, key, Seq::<Seq<VirtIORPMBFrame>>::empty()) == (pending, key));
    assert(fss[0] == frames);
}

proof fn lemma_batch_push(
    pending: PendingState,
    key: Option<Seq<u8>>,
    fss: Seq<Seq<VirtIORPMBFrame>>,
    frames: Seq<VirtIORPMBFrame>,
)
    ensures
        forall|j: int|
            0 <= j < fss.len() ==> #[trigger] batch_used(pending, key, fss.push(frames), j)
                == batch_used(pending, key, fss, j),
        batch_used(pending, key, fss.push(frames), fss.len() as int) == used_bytes(
            requests_outcome(
                batch_outcome(pending, key, fss).0,
                batch_outcome(pending, key, fss).1,
                frames,
            ).2,
        ),
        batch_outcome(pending, key, fss.push(frames)) == batch_and_rest(pending, key, fss, frames),
{
    assert forall|j: int| 0 <= j < fss.len() implies #[trigger] batch_used(
        pending,
        key,
        fss.push(frames),
        j,
    ) == batch_used(pending, key, fss, j) by {
        assert(fss.push(frames).take(j) =~= fss.take(j));
    }
    assert(fss.push(frames).take(fss.len() as int) =~= fss);
    assert(fss.push(frames).drop_last() =~= fss);
}

/// A result-read request that finds the mailbox empty gets no reply and
/// changes nothing: the key stays as it is and the mailbox stays empty.
pub proof fn lemma_result_read_without_pending(key: Option<Seq<u8>>, frame: VirtIORPMBFrame)
    requires
        frame.req_resp == VIRTIO_RPMB_REQ_RESULT_READ,
    ensures
        reply_to_request(PendingState::NoResponse, frame) is None,
        pending_after_request(PendingState::NoResponse, key, frame) == PendingState::NoResponse,
        key_after_request(key, frame) == key,
        requests_outcome(PendingState::NoResponse, key, seq![frame]) == (
        PendingState::NoResponse,
        key,
        0nat,
        ),
        used_bytes(0) == 0,
{
    assert(seq![frame].drop_last() =~= Seq::<VirtIORPMBFrame>::empty());
    assert(requests_outcome(PendingState::NoResponse, key, Seq::<VirtIORPMBFrame>::empty()) == (
    PendingState::NoResponse, key, 0nat));
    assert(seq![frame].last() == frame);
}

pub open spec fn writable_pred() -> spec_fn(Descriptor) -> bool {
    |d: Descriptor| d.write_only
}

pub open spec fn readable_pred() -> spec_fn(Descriptor) -> bool {
    |d: Descriptor| !d.write_only
}

/// The guest-writable descriptors of a chain, in chain order.
pub open spec fn writable_part(s: Seq<Descriptor>) -> Seq<Descriptor> {
    s.filter(writable_pred())
}

/// The guest-readable descriptors of a chain, in chain order.
pub open spec fn readable_part(s: Seq<Descriptor>) -> Seq<Descriptor> {
    s.filter(readable_pred())
}

/// Splits a chain into its writable and its readable descriptors, each in
/// chain order.
pub fn partition_descriptors(descs: &Vec<Descriptor>) -> (r: (Vec<Descriptor>, Vec<Descriptor>))
    ensures
        r.0@ == writable_part(descs@),
        r.1@ == readable_part(descs@),
{
    let mut writable: Vec<Descriptor> = Vec::new();
    let mut readable: Vec<Descriptor> = Vec::new();
    let mut i: usize = 0;
    while i < descs.len()
        invariant
            i <= descs@.len(),
            writable@ == writable_part(descs@.subrange(0, i as int)),
            readable@ == readable_part(descs@.subrange(0, i as int)),
        decreases descs@.len() - i,
    {
        let d = descs[i];
        proof {
            let pre = descs@.subrange(0, i as int);
            assert(descs@.subrange(0, i + 1) =~= pre.push(d));
            pre.lemma_filter_push(d, writable_pred());
            pre.lemma_filter_push(d, readable_pred());
        }
        if d.write_only {
            writable.push(d);
        } else {
            readable.push(d);
        }
        i = i + 1;
    }
    assert(descs@.subrange(0, descs@.len() as int) =~= descs@);
    (writable, readable)
}

/// Relies on epoll's `Events::EPOLLIN`, which is libc's `EPOLLIN`, 0x1 on
/// Linux, as raw bits.
#[verifier::external_body]
fn epoll_in_bits() -> (r: u32)
    ensures
        r == 1,
{
    epoll::Events::EPOLLIN.bits()
}

/// Relies on virtio-bindings' `VIRTIO_F_VERSION_1`: feature bit 32.
#[verifier::external_body]
fn feature_version_1() -> (r: u32)
    ensures
        r == 32,
{
    virtio_bindings::virtio_config::VIRTIO_F_VERSION_1
}

/// Relies on virtio-bindings' `VIRTIO_F_NOTIFY_ON_EMPTY`: feature bit 24.
#[verifier::external_body]
fn feature_notify_on_empty() -> (r: u32)
    ensures
        r == 24,
{
    virtio_bindings::virtio_config::VIRTIO_F_NOTIFY_ON_EMPTY
}

/// Relies on virtio-bindings' `VIRTIO_RING_F_INDIRECT_DESC`: feature bit 28.
#[verifier::external_body]
fn feature_indirect_desc() -> (r: u32)
    ensures
        r == 28,
{
    virtio_bindings::virtio_ring::VIRTIO_RING_F_INDIRECT_DESC
}

/// Relies on virtio-bindings' `VIRTIO_RING_F_EVENT_IDX`: feature bit 29.
#[verifier::external_body]
fn feature_event_idx() -> (r: u32)
    ensures
        r == 29,
{
    virtio_bindings::virtio_ring::VIRTIO_RING_F_EVENT_IDX
}

/// Relies on vhost's `VhostUserVirtioFeatures::PROTOCOL_FEATURES`: mask 0x4000_0000.
#[verifier::external_body]
fn protocol_features_flag() -> (r: u64)
    ensures
        r == 0x4000_0000,
{
    vhost::vhost_user::message::VhostUserVirtioFeatures::PROTOCOL_FEATURES.bits()
}

/// Relies on vhost's `VhostUserProtocolFeatures::REPLY_ACK`: mask 0x8.
#[verifier::external_body]
fn protocol_reply_ack() -> (r: u64)
    ensures
        r == 0x8,
{
    vhost::vhost_user::message::VhostUserProtocolFeatures::REPLY_ACK.bits()
}

/// Relies on vhost's `VhostUserProtocolFeatures::CONFIG`: mask 0x200.
#[verifier::external_body]
fn protocol_config() -> (r: u64)
    ensures
        r == 0x200,
{
    vhost::vhost_user::message::VhostUserProtocolFeatures::CONFIG.bits()
}

/// Relies on vhost's `VhostUserProtocolFeatures::RESET_DEVICE`: mask 0x2000.
#[verifier::external_body]
fn protocol_reset_device() -> (r: u64)
    ensures
        r == 0x2000,
{
    vhost::vhost_user::message::VhostUserProtocolFeatures::RESET_DEVICE.bits()
}

/// Relies on vhost's `VhostUserProtocolFeatures::STATUS`: mask 0x1_0000.
#[verifier::external_body]
fn protocol_status() -> (r: u64)
    ensures
        r == 0x1_0000,
{
    vhost::vhost_user::message::VhostUserProtocolFeatures::STATUS.bits()
}

/// Relies on vhost's `VhostUserProtocolFeatures::MQ`: mask 0x1.
#[verifier::external_body]
fn protocol_mq() -> (r: u64)
    ensures
        r == 0x1,
{
    vhost::vhost_user::message::VhostUserProtocolFeatures::MQ.bits()
}

/// The virtio feature bits that the device offers: VERSION_1,
/// NOTIFY_ON_EMPTY, INDIRECT_DESC, EVENT_IDX and the vhost-user
/// protocol-features flag.
pub open spec fn device_features() -> u64 {
    (1u64 << 32u64) | (1u64 << 24u64) | (1u64 << 28u64) | (1u64 << 29u64) | 0x4000_0000u64
}

/// The vhost-user protocol feature bits that the device offers:
/// REPLY_ACK, CONFIG, RESET_DEVICE, STATUS and MQ.
pub open spec fn device_protocol_features() -> u64 {
    0x8u64 | 0x200u64 | 0x2000u64 | 0x1_0000u64 | 0x1u64
}

/// The RPMB device: backing store, notification mode and mailbox.
pub struct VhostUserRpmb {
    backend: RpmbBackend,
    event_idx: bool,
    pending: PendingState,
}

impl VhostUserRpmb {
    pub closed spec fn store(&self) -> RpmbBackend {
        self.backend
    }

    pub closed spec fn event_idx_view(&self) -> bool {
        self.event_idx
    }

    pub closed spec fn pending_view(&self) -> PendingState {
        self.pending
    }

    /// The device over `backend`, with an empty mailbox and notification
    /// suppression off.
    pub fn new(backend: RpmbBackend) -> (r: Result<Self, Error>)
        ensures
            r is Ok,
            r->Ok_0.store() == backend,
            r->Ok_0.pending_view() == PendingState::NoResponse,
            !r->Ok_0.event_idx_view(),
    {
        Ok(VhostUserRpmb { backend, event_idx: false, pending: PendingState::NoResponse })
    }

    pub fn backend(&self) -> (r: &RpmbBackend)
        ensures
            *r == self.store(),
    {
        &self.backend
    }

    pub fn pending(&self) -> (r: PendingState)
        ensures
            r == self.pending_view(),
    {
        self.pending
    }

    /// Handles a program-key request: with a block count other than 1 the
    /// store is not touched; otherwise the frame's key is programmed if
    /// none is yet. The outcome is always deferred.
    pub fn program_key(&mut self, frame: &VirtIORPMBFrame) -> (r: RequestResponse)
        ensures
            r == (RequestResponse::PendingResponse {
                req_resp: VIRTIO_RPMB_RESP_PROGRAM_KEY,
                result: program_key_result(old(self).store().key_view(), *frame),
            }),
            frame.block_count != 1 ==> final(self).store() == old(self).store(),
            frame.block_count == 1 ==> final(self).store().key_view() == key_slot_after(
                old(self).store().key_view(),
                frame.key_mac@,
            ),
            final(self).store().capacity_view() == old(self).store().capacity_view(),
            final(self).store().counters() == old(self).store().counters(),
            final(self).pending_view() == old(self).pending_view(),
            final(self).event_idx_view() == old(self).event_idx_view(),
    {
        let result = if frame.block_count != 1 {
            VIRTIO_RPMB_RES_GENERAL_FAILURE
        } else {
            match self.backend.program_key_bytes(frame.key_mac) {
                Ok(_) => VIRTIO_RPMB_RES_OK,
                Err(_) => VIRTIO_RPMB_RES_WRITE_FAILURE,
            }
        };
        RequestResponse::PendingResponse { req_resp: VIRTIO_RPMB_RESP_PROGRAM_KEY, result }
    }

    /// Handles one decoded request frame: a program-key request leaves its
    /// outcome in the mailbox (over any outcome still there); a result-read
    /// request empties the mailbox into a reply frame, or gets nothing when
    /// it is empty; any other request is ignored.
    pub fn handle_request(&mut self, frame: &VirtIORPMBFrame) -> (r: Option<VirtIORPMBFrame>)
        ensures
            final(self).store().key_view() == key_after_request(
                old(self).store().key_view(),
                *frame,
            ),
            final(self).pending_view() == pending_after_request(
                old(self).pending_view(),
                old(self).store().key_view(),
                *frame,
            ),
            match reply_to_request(old(self).pending_view(), *frame) {
                Some((req_resp, result)) => r is Some && is_result_frame(
                    r->Some_0,
                    req_resp,
                    result,
                ),
                None => r is None,
            },
            !(frame.req_resp == VIRTIO_RPMB_REQ_PROGRAM_KEY && frame.block_count == 1)
                ==> final(self).store() == old(self).store(),
            final(self).store().capacity_view() == old(self).store().capacity_view(),
            final(self).store().counters() == old(self).store().counters(),
            final(self).event_idx_view() == old(self).event_idx_view(),
    {
        let res = if frame.req_resp == VIRTIO_RPMB_REQ_PROGRAM_KEY {
            self.program_key(frame)
        } else if frame.req_resp == VIRTIO_RPMB_REQ_RESULT_READ {
            match self.pending {
                PendingState::PendingResponse { req_resp, result } => {
                    self.pending = PendingState::NoResponse;
                    RequestResponse::Response(VirtIORPMBFrame::result(req_resp, result))
                },
                PendingState::NoResponse => RequestResponse::NoResponse,
            }
        } else {
            RequestResponse::NoResponse
        };
        match res {
            RequestResponse::Response(reply) => Some(reply),
            RequestResponse::PendingResponse { req_resp, result } => {
                self.pending = PendingState::PendingResponse { req_resp, result };
                None
            },
            RequestResponse::NoResponse => None,
        }
    }

    /// Processes one descriptor chain: checks its shape, reads each request
    /// frame from guest memory in chain order, handles it, and writes any
    /// reply to the first writable buffer. Returns the number of bytes
    /// written for the used ring.
    pub fn process_chain(
        &mut self,
        mem: &vm_memory::GuestMemoryMmap,
        descs: &Vec<Descriptor>,
    ) -> (r: Result<u32, Error>)
        ensures
            exists|frames: Seq<VirtIORPMBFrame>|
                #![trigger requests_outcome(old(self).pending_view(), old(self).store().key_view(), frames)]
                chain_explains(
                    old(self).pending_view(),
                    old(self).store().key_view(),
                    descs@,
                    frames,
                    r,
                    final(self).pending_view(),
                    final(self).store().key_view(),
                ),
            shape_error(descs@) is Some ==> r == Err::<u32, Error>(shape_error(descs@)->Some_0)
                && *final(self) == *old(self),
            all_write_only(descs@) ==> r == Ok::<u32, Error>(0) && *final(self) == *old(self),
            r == Err::<u32, Error>(Error::WrongDescriptorCount) <==> descs@.len() < 2,
            r == Err::<u32, Error>(Error::WrongDescriptorSize) ==> exists|k: int|
                0 <= k < readable_part(descs@).len() && #[trigger] readable_part(descs@)[k].len
                    != RPMB_FRAME_SIZE,
            r == Err::<u32, Error>(Error::UnexpectedReadDescriptor) ==> writable_part(descs@).len()
                == 0,
            r is Ok ==> forall|k: int|
                0 <= k < descs@.len() && !descs@[k].write_only ==> descs@[k].len
                    == RPMB_FRAME_SIZE,
            old(self).store().key_view() is Some ==> final(self).store().key_view() == old(
                self,
            ).store().key_view(),
            final(self).store().capacity_view() == old(self).store().capacity_view(),
            final(self).store().counters() == old(self).store().counters(),
            final(self).event_idx_view() == old(self).event_idx_view(),
    {
        let ghost pending0 = self.pending_view();
        let ghost key0 = self.store().key_view();
        proof {
            assert(requests_outcome(pending0, key0, Seq::<VirtIORPMBFrame>::empty()) == (
            pending0, key0, 0nat));
        }
        if descs.len() < 2 {
            return Err(Error::WrongDescriptorCount);
        }
        let (writable, readable) = partition_descriptors(descs);
        proof {
            assert forall|k: int|
                0 <= k < descs@.len() && !descs@[k].write_only implies readable@.contains(
                descs@[k],
            ) by {
                descs@.lemma_filter_contains(readable_pred(), k);
            }
            if all_write_only(descs@) {
                descs@.lemma_all_neg_filter_empty(readable_pred());
            }
        }
        let mut consumed: u32 = 0;
        let mut i: usize = 0;
        let ghost mut frames: Seq<VirtIORPMBFrame> = Seq::empty();
        while i < readable.len()
            invariant
                pending0 == old(self).pending_view(),
                key0 == old(self).store().key_view(),
                frames.len() == i,
                readable@ == readable_part(descs@),
                writable@ == writable_part(descs@),
                requests_outcome(pending0, key0, frames).0 == self.pending_view(),
                requests_outcome(pending0, key0, frames).1 == self.store().key_view(),
                consumed == used_bytes(requests_outcome(pending0, key0, frames).2),
                descs@.len() >= 2,
                all_write_only(descs@) ==> readable@.len() == 0,
                i <= readable@.len(),
                forall|j: int| 0 <= j < i ==> readable@[j].len == RPMB_FRAME_SIZE,
                i == 0 ==> consumed == 0 && *self == *old(self),
                old(self).store().key_view() is Some ==> self.store().key_view() == old(
                    self,
                ).store().key_view(),
                self.store().capacity_view() == old(self).store().capacity_view(),
                self.store().counters() == old(self).store().counters(),
                self.event_idx_view() == old(self).event_idx_view(),
            decreases readable@.len() - i,
        {
            let b = readable[i];
            if b.len as usize != RPMB_FRAME_SIZE {
                assert(readable_part(descs@)[i as int].len != RPMB_FRAME_SIZE);
                return Err(Error::WrongDescriptorSize);
            }
            let bytes = match read_guest(mem, b.addr, RPMB_FRAME_SIZE) {
                Ok(v) => v,
                Err(_) => {
                    return Err(Error::DescriptorReadFailed);
                },
            };
            let frame = VirtIORPMBFrame::decode(bytes.as_slice());
            let ghost before = requests_outcome(pending0, key0, frames);
            proof {
                let next = frames.push(frame);
                assert(next.drop_last() =~= frames);
                frames = next;
            }
            match self.handle_request(&frame) {
                Some(reply) => {
                    if writable.len() == 0 {
                        return Err(Error::UnexpectedReadDescriptor);
                    }
                    let out = reply.encode();
                    if write_guest(mem, writable[0].addr, out.as_slice()).is_err() {
                        return Err(Error::DescriptorWriteFailed);
                    }
                    assert(reply_to_request(before.0, frame) is Some);
                    consumed =
                    if consumed <= u32::MAX - 512 {
                        consumed + 512
                    } else {
                        u32::MAX
                    };
                },
                None => {},
            }
            i = i + 1;
        }
        proof {
            assert forall|k: int|
                0 <= k < descs@.len() && !descs@[k].write_only implies descs@[k].len
                == RPMB_FRAME_SIZE by {
                let j = choose|j: int| 0 <= j < readable@.len() && readable@[j] == descs@[k];
            }
        }
        Ok(consumed)
    }

    /// Processes a batch of chains in ring order, stopping at the first
    /// chain that fails. Returns the used length of each chain processed,
    /// and the error of the chain that stopped the batch, if any.
    pub fn process_queue(
        &mut self,
        mem: &vm_memory::GuestMemoryMmap,
        chains: &Vec<Vec<Descriptor>>,
    ) -> (r: (Vec<u32>, Result<(), Error>))
        ensures
            exists|fss: Seq<Seq<VirtIORPMBFrame>>, rest: Seq<VirtIORPMBFrame>|
                #![trigger batch_and_rest(old(self).pending_view(), old(self).store().key_view(), fss, rest)]
                batch_explains(
                    old(self).pending_view(),
                    old(self).store().key_view(),
                    chains@,
                    fss,
                    rest,
                    r.0@,
                    r.1,
                    final(self).pending_view(),
                    final(self).store().key_view(),
                ),
            r.0@.len() <= chains@.len(),
            r.1 is Ok <==> r.0@.len() == chains@.len(),
            forall|i: int| 0 <= i < r.0@.len() ==> shape_error(#[trigger] chains@[i]@) is None,
            (forall|i: int| 0 <= i < chains@.len() ==> all_write_only(#[trigger] chains@[i]@)) ==> r.1
                is Ok && (forall|i: int| 0 <= i < r.0@.len() ==> r.0@[i] == 0) && *final(self)
                == *old(self),
            old(self).store().key_view() is Some ==> final(self).store().key_view() == old(
                self,
            ).store().key_view(),
            final(self).store().capacity_view() == old(self).store().capacity_view(),
            final(self).store().counters() == old(self).store().counters(),
            final(self).event_idx_view() == old(self).event_idx_view(),
    {
        let ghost pending0 = self.pending_view();
        let ghost key0 = self.store().key_view();
        let ghost mut fss: Seq<Seq<VirtIORPMBFrame>> = Seq::empty();
        let mut used: Vec<u32> = Vec::new();
        let mut i: usize = 0;
        while i < chains.len()
            invariant
                pending0 == old(self).pending_view(),
                key0 == old(self).store().key_view(),
                i <= chains@.len(),
                used@.len() == i,
                fss.len() == i,
                forall|j: int|
                    0 <= j < i ==> (#[trigger] fss[j]).len() == readable_part(chains@[j]@).len()
                        && used@[j] == batch_used(pending0, key0, fss, j),
                forall|j: int| 0 <= j < i ==> shape_error(#[trigger] chains@[j]@) is None,
                batch_outcome(pending0, key0, fss) == (self.pending_view(), self.store().key_view()),
                (forall|j: int| 0 <= j < chains@.len() ==> all_write_only(#[trigger] chains@[j]@))
                    ==> *self == *old(self) && (forall|j: int| 0 <= j < i ==> used@[j] == 0),
                old(self).store().key_view() is Some ==> self.store().key_view() == old(
                    self,
                ).store().key_view(),
                self.store().capacity_view() == old(self).store().capacity_view(),
                self.store().counters() == old(self).store().counters(),
                self.event_idx_view() == old(self).event_idx_view(),
            decreases chains@.len() - i,
        {
            let ghost start = (self.pending_view(), self.store().key_view());
            match self.process_chain(mem, &chains[i]) {
                Ok(n) => {
                    proof {
                        let frames = choose|frames: Seq<VirtIORPMBFrame>|
                            #![trigger requests_outcome(start.0, start.1, frames)]
                            chain_explains(
                                start.0,
                                start.1,
                                chains@[i as int]@,
                                frames,
                                Ok::<u32, Error>(n),
                                self.pending_view(),
                                self.store().key_view(),
                            );
                        lemma_batch_push(pending0, key0, fss, frames);
                        fss = fss.push(frames);
                    }
                    used.push(n);
                },
                Err(e) => {
                    proof {
                        let rest = choose|frames: Seq<VirtIORPMBFrame>|
                            #![trigger requests_outcome(start.0, start.1, frames)]
                            chain_explains(
                                start.0,
                                start.1,
                                chains@[i as int]@,
                                frames,
                                Err::<u32, Error>(e),
                                self.pending_view(),
                                self.store().key_view(),
                            );
                        assert(batch_explains(
                            pending0,
                            key0,
                            chains@,
                            fss,
                            rest,
                            used@,
                            Err::<(), Error>(e),
                            self.pending_view(),
                            self.store().key_view(),
                        ));
                    }
                    return (used, Err(e));
                },
            }
            i = i + 1;
        }
        proof {
            let rest = Seq::<VirtIORPMBFrame>::empty();
            let done = batch_outcome(pending0, key0, fss);
            assert(requests_outcome(done.0, done.1, rest) == (done.0, done.1, 0nat));
            assert(batch_explains(
                pending0,
                key0,
                chains@,
                fss,
                rest,
                used@,
                Ok::<(), Error>(()),
                self.pending_view(),
                self.store().key_view(),
            ));
        }
        (used, Ok(()))
    }

    /// Accepts a readiness event: only "readable" (EPOLLIN) events on
    /// queue 0 are handled.
    pub fn check_event(&self, device_event: u16, evset: u32) -> (r: Result<(), Error>)
        ensures
            evset != 1 ==> r == Err::<(), Error>(Error::NotEpollIn),
            evset == 1 && device_event != 0 ==> r == Err::<(), Error>(Error::UnknownEvent),
            evset == 1 && device_event == 0 ==> r is Ok,
    {
        if evset != epoll_in_bits() {
            return Err(Error::NotEpollIn);
        }
        if device_event != 0 {
            return Err(Error::UnknownEvent);
        }
        Ok(())
    }

    pub fn num_queues(&self) -> (r: usize)
        ensures
            r == 1,
    {
        NUM_QUEUES
    }

    pub fn max_queue_size(&self) -> (r: usize)
        ensures
            r == 1024,
    {
        QUEUE_SIZE
    }

    /// The virtio feature bits offered to the driver.
    pub fn features(&self) -> (r: u64)
        ensures
            r == device_features(),
    {
        let version_1 = feature_version_1() as u64;
        let notify_on_empty = feature_notify_on_empty() as u64;
        let indirect_desc = feature_indirect_desc() as u64;
        let event_idx = feature_event_idx() as u64;
        let feat: u64 = 1u64 << version_1 | 1u64 << notify_on_empty | 1u64 << indirect_desc | 1u64
            << event_idx | protocol_features_flag();
        feat
    }

    /// The vhost-user protocol feature bits offered to the front-end.
    pub fn protocol_features(&self) -> (r: u64)
        ensures
            r == device_protocol_features(),
    {
        protocol_reply_ack() | protocol_config() | protocol_reset_device() | protocol_status()
            | protocol_mq()
    }

    /// The device configuration block: capacity in 128 KiB units, then
    /// the major and minor version, both 1.
    pub fn get_config(&self, _offset: u32, _size: u32) -> (r: Vec<u8>)
        ensures
            r@ == seq![self.store().capacity_view() as u8, 1u8, 1u8],
    {
        let config: Vec<u8> = vec![self.backend.get_capacity(), 1, 1];
        config
    }

    pub fn event_idx(&self) -> (r: bool)
        ensures
            r == self.event_idx_view(),
    {
        self.event_idx
    }

    /// Turns notification suppression (EVENT_IDX) on or off.
    pub fn set_event_idx(&mut self, enabled: bool)
        ensures
            final(self).event_idx_view() == enabled,
            final(self).store() == old(self).store(),
            final(self).pending_view() == old(self).pending_view(),
    {
        self.event_idx = enabled;
    }
}

} // verus!
