//! The two wire formats an executor listens for.
//!
//! An encoded `Packet` is a 100-byte header followed by the message:
//! nonce (8 bytes, big-endian), source endpoint id (4), sender address (20),
//! destination endpoint id (4), receiver (32), guid (32), message (the rest).
//!
//! A `PacketSent` payload is the encoded packet (32 bytes), the options
//! (whatever lies between) and the send library's address (the last 20 bytes).
use crate::be::{be_value, lemma_be_value_4, lemma_be_value_8, read_be};
use crate::primitives::{address_bytes, address_from_slice};
use crate::types::SolidityAddress;
use alloy::primitives::Address;
use vstd::prelude::*;
use vstd::slice::{slice_subrange, slice_to_vec};

verus! {

/// Length of a packet's header; the message starts there.
pub const PACKET_HEADER_LEN: usize = 100;

/// Length of the encoded packet at the start of a `PacketSent` payload.
pub const ENCODED_PACKET_LEN: usize = 32;

/// Length of the send library's address at the end of a `PacketSent` payload.
pub const SEND_LIBRARY_LEN: usize = 20;

/// A decoded packet.
#[derive(Debug)]
pub struct Packet {
    pub nonce: u64,
    pub src_eid: u32,
    pub sender: Address,
    pub dst_eid: u32,
    pub receiver: [u8; 32],
    pub guid: [u8; 32],
    pub message: Vec<u8>,
}

/// A decoded `PacketSent` event payload.
#[derive(Debug, Clone)]
pub struct PacketSent {
    pub encoded_packet: Vec<u8>,
    pub options: Vec<u8>,
    pub send_library: SolidityAddress,
}

/// The bytes `data[start..start + 32]` as an array.
fn copy_32(data: &[u8], start: usize) -> (r: [u8; 32])
    requires
        start + 32 <= data.len(),
    ensures
        r@ == data@.subrange(start as int, start + 32),
{
    let mut r = [0u8; 32];
    let mut i: usize = 0;
    while i < 32
        invariant
            i <= 32,
            start + 32 <= data.len(),
            r@.len() == 32,
            forall|k: int| 0 <= k < i ==> r@[k] == data@[start + k],
        decreases 32 - i,
    {
        r[i] = data[start + i];
        i = i + 1;
    }
    assert(r@ =~= data@.subrange(start as int, start + 32));
    r
}

/// The bytes `data[start..start + 20]` as an array.
fn copy_20(data: &[u8], start: usize) -> (r: [u8; 20])
    requires
        start + 20 <= data.len(),
    ensures
        r@ == data@.subrange(start as int, start + 20),
{
    let mut r = [0u8; 20];
    let mut i: usize = 0;
    while i < 20
        invariant
            i <= 20,
            start + 20 <= data.len(),
            r@.len() == 20,
            forall|k: int| 0 <= k < i ==> r@[k] == data@[start + k],
        decreases 20 - i,
    {
        r[i] = data[start + i];
        i = i + 1;
    }
    assert(r@ =~= data@.subrange(start as int, start + 20));
    r
}

impl Packet {
    /// `self` is what the bytes `data` encode (`data` holding a full header).
    pub open spec fn decodes(self, data: Seq<u8>) -> bool {
        &&& self.nonce == be_value(data.subrange(0, 8))
        &&& self.src_eid == be_value(data.subrange(8, 12))
        &&& address_bytes(self.sender) == data.subrange(12, 32)
        &&& self.dst_eid == be_value(data.subrange(32, 36))
        &&& self.receiver@ == data.subrange(36, 68)
        &&& self.guid@ == data.subrange(68, 100)
        &&& self.message@ == data.subrange(100, data.len() as int)
    }

    /// Decodes a packet: `None` when `data` is shorter than the header,
    /// otherwise every field read from its place in `data`.
    pub fn deserialize(data: &[u8]) -> (r: Option<Self>)
        ensures
            r is None <==> data@.len() < PACKET_HEADER_LEN,
            r matches Some(p) ==> p.decodes(data@),
            r matches Some(p) ==> address_bytes(p.sender).len() == 20 && forall|i: int|
                0 <= i < 20 ==> address_bytes(p.sender)[i] == data@[12 + i],
            r matches Some(p) ==> p.message@.len() == data@.len() - PACKET_HEADER_LEN,
    {
        if data.len() < PACKET_HEADER_LEN {
            return None;
        }
        proof {
            crate::be::lemma_pow256_values();
        }
        let nonce: u64 = read_be(data, 0, 8);
        let src_eid: u32 = read_be(data, 8, 4) as u32;
        let sender = address_from_slice(slice_subrange(data, 12, 32));
        let dst_eid: u32 = read_be(data, 32, 4) as u32;
        let receiver = copy_32(data, 36);
        let guid = copy_32(data, 68);
        let message = slice_to_vec(slice_subrange(data, PACKET_HEADER_LEN, data.len()));
        Some(Packet { nonce, src_eid, sender, dst_eid, receiver, guid, message })
    }

    /// The packet's message.
    pub fn message(&self) -> (m: &[u8])
        ensures
            m@ == self.message@,
    {
        self.message.as_slice()
    }
}

impl PacketSent {
    /// `self` is what the bytes `data` encode (`data` long enough to hold the
    /// encoded packet and the send library).
    pub open spec fn decodes(self, data: Seq<u8>) -> bool {
        &&& self.encoded_packet@ == data.subrange(0, 32)
        &&& self.options@ == data.subrange(32, data.len() - 20)
        &&& self.send_library@ == data.subrange(data.len() - 20, data.len() as int)
    }

    /// A payload made of the given parts.
    pub fn new(encoded_packet: Vec<u8>, options: Vec<u8>, send_library: [u8; 20]) -> (r: Self)
        ensures
            r.encoded_packet == encoded_packet,
            r.options == options,
            r.send_library == send_library,
    {
        PacketSent { encoded_packet, options, send_library }
    }

    /// Decodes a `PacketSent` payload: `None` when `data` is shorter than an
    /// encoded packet and an address together, otherwise the three parts.
    pub fn deserialize(data: &[u8]) -> (r: Option<Self>)
        ensures
            r is None <==> data@.len() < ENCODED_PACKET_LEN + SEND_LIBRARY_LEN,
            r matches Some(p) ==> p.decodes(data@),
            r matches Some(p) ==> p.encoded_packet@.len() == ENCODED_PACKET_LEN
                && p.options@.len() == data@.len() - ENCODED_PACKET_LEN - SEND_LIBRARY_LEN
                && forall|i: int| 0 <= i < ENCODED_PACKET_LEN ==> p.encoded_packet@[i] == data@[i],
    {
        if data.len() < ENCODED_PACKET_LEN + SEND_LIBRARY_LEN {
            return None;
        }
        let send_library: SolidityAddress = copy_20(data, data.len() - SEND_LIBRARY_LEN);
        let remaining_data = slice_subrange(data, 0, data.len() - SEND_LIBRARY_LEN);
        let encoded_packet_length: usize = ENCODED_PACKET_LEN;
        if remaining_data.len() < encoded_packet_length {
            return None;
        }
        let encoded_packet = slice_to_vec(slice_subrange(remaining_data, 0, encoded_packet_length));
        let options = slice_to_vec(
            slice_subrange(remaining_data, encoded_packet_length, remaining_data.len()),
        );
        assert(encoded_packet@ =~= data@.subrange(0, 32));
        assert(options@ =~= data@.subrange(32, data@.len() - 20));
        Some(PacketSent::new(encoded_packet, options, send_library))
    }
}

/// A `PacketSent` payload is exactly its three parts laid end to end.
pub proof fn lemma_packet_sent_parts_rebuild(p: PacketSent, data: Seq<u8>)
    requires
        data.len() >= ENCODED_PACKET_LEN + SEND_LIBRARY_LEN,
        p.decodes(data),
    ensures
        p.encoded_packet@ + p.options@ + p.send_library@ == data,
{
    assert(p.encoded_packet@ + p.options@ + p.send_library@ =~= data);
}

/// A packet's receiver, guid and message are its bytes from offset 36 on.
pub proof fn lemma_packet_tail_rebuild(p: Packet, data: Seq<u8>)
    requires
        data.len() >= PACKET_HEADER_LEN,
        p.decodes(data),
    ensures
        p.receiver@ + p.guid@ + p.message@ == data.skip(36),
{
    assert(p.receiver@ + p.guid@ + p.message@ =~= data.skip(36));
}

/// A decoded packet holds each header field as read from its place in the
/// data: the nonce and the two endpoint ids most significant byte first, the
/// sender, receiver and guid byte for byte in order, and the message as every
/// byte after the 100-byte header.
pub proof fn lemma_packet_fields(p: Packet, data: Seq<u8>)
    requires
        data.len() >= PACKET_HEADER_LEN,
        p.decodes(data),
    ensures
        p.nonce == data[0] * 0x100_0000_0000_0000 + data[1] * 0x1_0000_0000_0000 + data[2]
            * 0x100_0000_0000 + data[3] * 0x1_0000_0000 + data[4] * 0x100_0000 + data[5]
            * 0x1_0000 + data[6] * 0x100 + data[7],
        p.src_eid == data[8] * 0x100_0000 + data[9] * 0x1_0000 + data[10] * 0x100 + data[11],
        address_bytes(p.sender).len() == 20,
        forall|i: int| 0 <= i < 20 ==> address_bytes(p.sender)[i] == data[12 + i],
        p.dst_eid == data[32] * 0x100_0000 + data[33] * 0x1_0000 + data[34] * 0x100 + data[35],
        p.receiver@.len() == 32,
        forall|i: int| 0 <= i < 32 ==> p.receiver@[i] == data[36 + i],
        p.guid@.len() == 32,
        forall|i: int| 0 <= i < 32 ==> p.guid@[i] == data[68 + i],
        p.message@.len() == data.len() - PACKET_HEADER_LEN,
        forall|i: int| 0 <= i < p.message@.len() ==> p.message@[i] == data[100 + i],
        address_bytes(p.sender) + data.subrange(32, 36) + p.receiver@ + p.guid@ + p.message@
            == data.skip(12),
{
    lemma_be_value_8(data.subrange(0, 8));
    lemma_be_value_4(data.subrange(8, 12));
    lemma_be_value_4(data.subrange(32, 36));
    assert(address_bytes(p.sender) + data.subrange(32, 36) + p.receiver@ + p.guid@ + p.message@
        =~= data.skip(12));
}

/// A decoded `PacketSent` payload is split at fixed places: the encoded packet
/// is exactly the first 32 bytes, the send library exactly the last 20, and
/// the options every byte between, each in order.
pub proof fn lemma_packet_sent_fields(p: PacketSent, data: Seq<u8>)
    requires
        data.len() >= ENCODED_PACKET_LEN + SEND_LIBRARY_LEN,
        p.decodes(data),
    ensures
        p.encoded_packet@.len() == ENCODED_PACKET_LEN,
        forall|i: int| 0 <= i < 32 ==> p.encoded_packet@[i] == data[i],
        p.options@.len() == data.len() - ENCODED_PACKET_LEN - SEND_LIBRARY_LEN,
        forall|i: int| 0 <= i < p.options@.len() ==> p.options@[i] == data[32 + i],
        p.send_library@.len() == SEND_LIBRARY_LEN,
        forall|i: int| 0 <= i < 20 ==> p.send_library@[i] == data[data.len() - 20 + i],
{
}

/// What a log's data turned out to hold.
#[derive(Debug)]
pub enum LogOutcome {
    /// Too short to be a packet.
    NotPacket,
    /// A packet whose message is not a `PacketSent` payload.
    NotPacketSent(Packet),
    /// A packet whose message is a `PacketSent` payload.
    PacketSent(Packet, PacketSent),
}

/// Decodes a log's data as a packet, then the packet's message as a
/// `PacketSent` payload, and says how far that got.
pub fn classify_log(data: &[u8]) -> (r: LogOutcome)
    ensures
        r is NotPacket <==> data@.len() < PACKET_HEADER_LEN,
        r matches LogOutcome::NotPacketSent(p) ==> p.decodes(data@) && p.message@.len()
            < ENCODED_PACKET_LEN + SEND_LIBRARY_LEN,
        r matches LogOutcome::PacketSent(p, s) ==> p.decodes(data@) && s.decodes(p.message@)
            && p.message@.len() >= ENCODED_PACKET_LEN + SEND_LIBRARY_LEN,
{
    match Packet::deserialize(data) {
        Some(packet) => match PacketSent::deserialize(packet.message()) {
            Some(packet_sent) => LogOutcome::PacketSent(packet, packet_sent),
            None => LogOutcome::NotPacketSent(packet),
        },
        None => LogOutcome::NotPacket,
    }
}

} // verus!
