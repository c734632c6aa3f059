//! The decisions of an executor worker between the events it listens for.
//!
//! A worker keeps the `PacketSent` payloads it has seen, newest first. The
//! `ExecutorFeePaid` event that follows a `PacketSent` tells who was assigned
//! to execute it: naming this worker, it assigns the packet to it; naming
//! another executor, it discards the pending packets. A `PacketVerified`
//! event then takes the newest packet for execution, if it was assigned to
//! this worker, and discards the rest. The worker asks the endpoint whether
//! the packet is executable, and delivers it with `lzReceive`, whose guid and
//! message it reads from the raw packet.
use crate::executor::PacketSent;
use crate::primitives::{
    address_bytes,
    address_eq,
    b256_bytes,
    b256_from_slice,
    buffer_advance,
    buffer_bytes,
    buffer_freeze_to_vec,
    buffer_from_slice,
    buffer_get_u32,
    buffer_get_u64,
    buffer_split_to,
};
use alloy::primitives::Address;
use alloy::primitives::FixedBytes;
use std::collections::VecDeque;
use vstd::prelude::*;

verus! {

/// A raw packet shorter than this is refused by [`Executor::deserialize`]:
/// version (1 byte), nonce (8), source endpoint id (4), sender (32),
/// destination endpoint id (4), receiver (32) and guid (32).
pub const MINIMUM_PACKET_LENGTH: usize = 113;

/// Where the guid starts in a raw packet: after the version (1 byte), the
/// nonce (8), the source endpoint id (4), the sender (32), the destination
/// endpoint id (4) and the receiver (32).
pub const GUID_OFFSET: usize = 81;

/// Length of the guid.
pub const GUID_LEN: usize = 32;

/// An executor worker.
pub struct Executor {
    this_address: Address,
    finished: bool,
}

/// What is known of a worker: its own address and whether it was told to stop.
pub struct ExecutorView {
    pub address: Seq<u8>,
    pub finished: bool,
}

impl View for Executor {
    type V = ExecutorView;

    closed spec fn view(&self) -> ExecutorView {
        ExecutorView { address: address_bytes(self.this_address), finished: self.finished }
    }
}

/// What an `ExecutorFeePaid` event led to.
#[derive(Debug, Clone, Copy, PartialEq, Eq, Structural)]
pub enum FeeOutcome {
    /// No packet was pending: nothing changed.
    NoPendingPacket,
    /// The fee went to another executor: the pending packets were dropped.
    OtherExecutor,
    /// This executor was chosen: it is now assigned the pending packet.
    Chosen,
}

/// The `PacketSent` payloads a worker has seen, newest first, and whether an
/// `ExecutorFeePaid` event has assigned the newest one to this worker.
pub struct PendingPackets {
    queue: VecDeque<PacketSent>,
    assigned: bool,
}

/// What is known of the pending packets.
#[verifier::ext_equal]
pub struct PendingView {
    pub packets: Seq<PacketSent>,
    pub assigned: bool,
}

impl View for PendingPackets {
    type V = PendingView;

    closed spec fn view(&self) -> PendingView {
        PendingView { packets: self.queue@, assigned: self.assigned }
    }
}

/// After a `PacketSent` event: the new packet first, and not yet assigned.
pub open spec fn after_packet_sent(s: PendingView, packet: PacketSent) -> PendingView {
    PendingView { packets: seq![packet] + s.packets, assigned: false }
}

/// After an `ExecutorFeePaid` event, `to_self` telling whether it named this
/// executor: with nothing pending nothing changes; a fee to this executor
/// assigns the pending packet to it; a fee to another drops the packets.
pub open spec fn after_fee_paid(s: PendingView, to_self: bool) -> PendingView {
    if s.packets.len() == 0 {
        s
    } else if to_self {
        PendingView { packets: s.packets, assigned: true }
    } else {
        PendingView { packets: Seq::empty(), assigned: false }
    }
}

/// The packet that a `PacketVerified` event takes for execution: the newest
/// pending one, provided a fee has assigned it to this executor.
pub open spec fn taken_on_verified(s: PendingView) -> Option<PacketSent> {
    if s.assigned && s.packets.len() > 0 {
        Some(s.packets[0])
    } else {
        None
    }
}

/// After a `PacketVerified` event: nothing pending and nothing assigned,
/// whether or not a packet was taken.
pub open spec fn after_verified(s: PendingView) -> PendingView {
    PendingView { packets: Seq::empty(), assigned: false }
}

impl PendingPackets {
    /// Nothing pending, nothing assigned.
    pub fn new() -> (p: Self)
        ensures
            p@.packets == Seq::<PacketSent>::empty(),
            !p@.assigned,
    {
        PendingPackets { queue: VecDeque::new(), assigned: false }
    }

    /// How many packets are pending.
    pub fn len(&self) -> (n: usize)
        ensures
            n == self@.packets.len(),
    {
        self.queue.len()
    }

    /// Whether a fee has assigned the newest pending packet to this executor.
    pub fn is_assigned(&self) -> (r: bool)
        ensures
            r == self@.assigned,
    {
        self.assigned
    }
}

/// The guid and the message that `lzReceive` is called with for `raw`.
pub open spec fn receive_parts(raw: Seq<u8>) -> (Seq<u8>, Seq<u8>) {
    (
        raw.subrange(GUID_OFFSET as int, GUID_OFFSET + GUID_LEN),
        raw.subrange(GUID_OFFSET + GUID_LEN, raw.len() as int),
    )
}

/// A packet that no `ExecutorFeePaid` event has assigned to this executor is
/// not executed: a `PacketVerified` event right after a `PacketSent` event
/// takes nothing.
pub proof fn lemma_unassigned_packet_not_executed(s: PendingView, packet: PacketSent)
    ensures
        taken_on_verified(after_packet_sent(s, packet)) is None,
{
}

/// `PacketSent`, then a fee naming this executor, then `PacketVerified`:
/// the packet of that `PacketSent` event is executed.
pub proof fn lemma_assigned_packet_executed(s: PendingView, packet: PacketSent)
    ensures
        taken_on_verified(after_fee_paid(after_packet_sent(s, packet), true)) == Some(packet),
{
}

/// Once a fee has gone to another executor, a `PacketVerified` event finds
/// nothing to execute.
pub proof fn lemma_nothing_executed_after_fee_to_other(s: PendingView)
    ensures
        taken_on_verified(after_fee_paid(s, false)) is None,
{
}

/// A fee paid to this executor keeps the pending packets.
pub proof fn lemma_fee_to_self_keeps_pending(s: PendingView)
    ensures
        after_fee_paid(s, true).packets == s.packets,
{
}

/// A packet is executed at most once: after a `PacketVerified` event a second
/// one finds nothing until new events arrive.
pub proof fn lemma_verified_executes_once(s: PendingView)
    ensures
        taken_on_verified(after_verified(s)) is None,
{
}

/// The guid and the message are the raw packet from the guid's offset on.
pub proof fn lemma_receive_parts_rebuild(raw: Seq<u8>)
    requires
        raw.len() >= GUID_OFFSET + GUID_LEN,
    ensures
        receive_parts(raw).0 + receive_parts(raw).1 == raw.skip(GUID_OFFSET as int),
        receive_parts(raw).0.len() == GUID_LEN,
{
    assert(receive_parts(raw).0 + receive_parts(raw).1 =~= raw.skip(GUID_OFFSET as int));
}

impl Executor {
    /// A worker acting as `this_address`, not yet told to stop.
    pub fn new(this_address: Address) -> (e: Self)
        ensures
            e@.address == address_bytes(this_address),
            !e@.finished,
    {
        Executor { this_address, finished: false }
    }

    /// Tells the worker to stop listening.
    pub fn finish(&mut self)
        ensures
            final(self)@.finished,
            final(self)@.address == old(self)@.address,
    {
        self.finished = true;
    }

    /// Whether the worker was told to stop.
    pub fn is_finished(&self) -> (r: bool)
        ensures
            r == self@.finished,
    {
        self.finished
    }

    /// A `PacketSent` event: the packet becomes the newest pending one, not
    /// yet assigned to this executor.
    pub fn on_packet_sent(pending: &mut PendingPackets, packet_sent: PacketSent)
        ensures
            final(pending)@ == after_packet_sent(old(pending)@, packet_sent),
    {
        pending.queue.push_front(packet_sent);
        pending.assigned = false;
    }

    /// An `ExecutorFeePaid` event naming `executor`: with nothing pending it
    /// is ignored; naming another executor it drops the pending packets;
    /// naming this one it assigns the newest pending packet to it.
    pub fn on_executor_fee_paid(&self, pending: &mut PendingPackets, executor: &Address) -> (o:
        FeeOutcome)
        ensures
            final(pending)@ == after_fee_paid(
                old(pending)@,
                address_bytes(*executor) == self@.address,
            ),
            old(pending)@.packets.len() == 0 ==> o == FeeOutcome::NoPendingPacket,
            old(pending)@.packets.len() > 0 && address_bytes(*executor) != self@.address ==> o
                == FeeOutcome::OtherExecutor,
            old(pending)@.packets.len() > 0 && address_bytes(*executor) == self@.address ==> o
                == FeeOutcome::Chosen,
    {
        if pending.queue.len() == 0 {
            return FeeOutcome::NoPendingPacket;
        }
        if !address_eq(&self.this_address, executor) {
            pending.queue.clear();
            pending.assigned = false;
            return FeeOutcome::OtherExecutor;
        }
        pending.assigned = true;
        FeeOutcome::Chosen
    }

    /// A `PacketVerified` event: takes the newest pending packet when a fee
    /// has assigned it to this executor, and in every case drops the pending
    /// packets and the assignment.
    pub fn take_verified_packet(pending: &mut PendingPackets) -> (r: Option<PacketSent>)
        ensures
            r == taken_on_verified(old(pending)@),
            final(pending)@.packets.len() == 0,
            !final(pending)@.assigned,
            final(pending)@ == after_verified(old(pending)@),
    {
        let packet_sent = if pending.assigned {
            pending.queue.pop_front()
        } else {
            None
        };
        pending.queue.clear();
        pending.assigned = false;
        packet_sent
    }

    /// Reads the guid and the message out of a raw encoded packet: `None`
    /// when it is shorter than [`MINIMUM_PACKET_LENGTH`], the length of the
    /// fields up to and including the guid.
    pub fn deserialize(raw_packet: &[u8]) -> (r: Option<(FixedBytes<32>, Vec<u8>)>)
        ensures
            r is None <==> raw_packet@.len() < MINIMUM_PACKET_LENGTH,
            r matches Some((guid, message)) ==> (b256_bytes(guid), message@) == receive_parts(
                raw_packet@,
            ),
    {
        if raw_packet.len() < MINIMUM_PACKET_LENGTH {
            return None;
        }
        let ghost raw = raw_packet@;
        let mut buffered_packet = buffer_from_slice(raw_packet);
        buffer_advance(&mut buffered_packet, 1);  // version
        let _nonce: u64 = buffer_get_u64(&mut buffered_packet);
        let _src_eid: u32 = buffer_get_u32(&mut buffered_packet);
        buffer_advance(&mut buffered_packet, 32);  // sender, padded to 32 bytes
        let _dst_eid: u32 = buffer_get_u32(&mut buffered_packet);
        buffer_advance(&mut buffered_packet, 32);  // receiver, padded to 32 bytes
        assert(buffer_bytes(buffered_packet) =~= raw.skip(GUID_OFFSET as int));
        let guid_buffer = buffer_split_to(&mut buffered_packet, GUID_LEN);
        let guid_bytes = buffer_freeze_to_vec(guid_buffer);
        let guid: FixedBytes<32> = b256_from_slice(guid_bytes.as_slice());
        let message = buffer_freeze_to_vec(buffered_packet);
        assert(guid_bytes@ =~= raw.subrange(GUID_OFFSET as int, GUID_OFFSET + GUID_LEN));
        assert(message@ =~= raw.subrange(GUID_OFFSET + GUID_LEN, raw.len() as int));
        Some((guid, message))
    }
}

} // verus!
