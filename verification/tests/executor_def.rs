use alloy::primitives::{Address, FixedBytes};
use executor::executor::PacketSent;
use executor::executor_def::{Executor, FeeOutcome, PendingPackets};

#[test]
fn test_deserialize_happy_path() {
    const MESSAGE_OFFSET: usize = 43; // Just for this input
    const GUID_OFFSET: usize = MESSAGE_OFFSET + 32;
    let raw_packet_vec: Vec<u8> = vec![
        1, 0, 0, 0, 0, 0, 0, 17, 148, 0, 0, 117, 158, 0, 0, 0, 0, 0, 0, 0, 0, 0, 0, 0, 0, 25, 207, 206, 71, 237,
        84, 168, 134, 20, 100, 141, 195, 241, 154, 89, 128, 9, 112, 7, 221, 0, 0, 118, 86, 0, 0, 0, 0, 0, 0, 0, 0,
        0, 0, 0, 0, 156, 45, 199, 55, 119, 23, 96, 62, 185, 43, 38, 85, 197, 242, 231, 153, 122, 73, 69, 189, 205,
        50, 72, 156, 47, 106, 85, 252, 73, 42, 176, 56, 154, 105, 225, 195, 98, 35, 62, 174, 103, 79, 244, 166,
        185, 78, 116, 114, 198, 247, 179, 202, 1, 0, 13, 0, 0, 0, 0, 0, 0, 0, 0, 0, 0, 0, 0, 115, 135, 217, 64, 43,
        109, 214, 128, 114, 89, 78, 125, 198, 218, 97, 243, 152, 229, 200, 67, 0, 0, 0, 0, 0, 0, 0, 10,
    ];

    let left_guid_bound = raw_packet_vec.len() - GUID_OFFSET;
    let left_msg_bound = raw_packet_vec.len() - MESSAGE_OFFSET;

    let expected_guid_arr: &[u8] = &raw_packet_vec.as_slice()[left_guid_bound..left_msg_bound];
    let expected_message: &[u8] = &raw_packet_vec.as_slice()[left_msg_bound..];

    let raw_packet = raw_packet_vec.as_slice();
    let (guid, message) = Executor::deserialize(raw_packet).unwrap();
    let expected_guid: FixedBytes<32> = FixedBytes::from_slice(expected_guid_arr);
    assert_eq!(guid, expected_guid);
    assert_eq!(message.as_slice(), expected_message);
}

#[test]
fn deserialize_refuses_short_packets() {
    for len in [0usize, 92, 93, 100, 112] {
        let raw = vec![7u8; len];
        assert!(Executor::deserialize(&raw).is_none());
    }
    assert!(Executor::deserialize(&[]).is_none());
}

#[test]
fn deserialize_reads_guid_at_offset_81() {
    let mut raw: Vec<u8> = (0..120u32).map(|i| i as u8).collect();
    raw[0] = 1;
    let (guid, message) = Executor::deserialize(&raw).unwrap();
    let expected: Vec<u8> = (81..113u8).collect();
    assert_eq!(guid.as_slice(), expected.as_slice());
    assert_eq!(message, (113..120u8).collect::<Vec<u8>>());
}

#[test]
fn deserialize_without_message() {
    let raw = vec![9u8; 113];
    let (guid, message) = Executor::deserialize(&raw).unwrap();
    assert_eq!(guid, FixedBytes::<32>::from_slice(&[9u8; 32]));
    assert!(message.is_empty());
}

fn packet(tag: u8) -> PacketSent {
    PacketSent { encoded_packet: vec![tag; 32], options: vec![tag], send_library: [tag; 20] }
}

#[test]
fn unassigned_packet_is_not_executed() {
    let mut pending = PendingPackets::new();
    Executor::on_packet_sent(&mut pending, packet(1));
    assert!(!pending.is_assigned());
    assert!(Executor::take_verified_packet(&mut pending).is_none());
    assert_eq!(pending.len(), 0);
    assert!(!pending.is_assigned());
}

#[test]
fn assigned_packet_is_executed_once() {
    let me = Address::repeat_byte(0xaa);
    let executor = Executor::new(me);
    let mut pending = PendingPackets::new();
    Executor::on_packet_sent(&mut pending, packet(1));
    Executor::on_packet_sent(&mut pending, packet(2));
    assert_eq!(pending.len(), 2);
    assert_eq!(executor.on_executor_fee_paid(&mut pending, &me), FeeOutcome::Chosen);
    assert!(pending.is_assigned());
    let taken = Executor::take_verified_packet(&mut pending).unwrap();
    assert_eq!(taken.encoded_packet, vec![2u8; 32]);
    assert_eq!(pending.len(), 0);
    assert!(!pending.is_assigned());
    assert!(Executor::take_verified_packet(&mut pending).is_none());
}

#[test]
fn new_packet_sent_clears_the_assignment() {
    let me = Address::repeat_byte(0xaa);
    let executor = Executor::new(me);
    let mut pending = PendingPackets::new();
    Executor::on_packet_sent(&mut pending, packet(1));
    executor.on_executor_fee_paid(&mut pending, &me);
    Executor::on_packet_sent(&mut pending, packet(2));
    assert!(!pending.is_assigned());
    assert!(Executor::take_verified_packet(&mut pending).is_none());
}

#[test]
fn fee_to_other_executor_drops_pending_packets() {
    let me = Address::repeat_byte(0xaa);
    let other = Address::repeat_byte(0xbb);
    let executor = Executor::new(me);
    let mut pending = PendingPackets::new();
    assert_eq!(executor.on_executor_fee_paid(&mut pending, &other), FeeOutcome::NoPendingPacket);
    assert!(!pending.is_assigned());
    Executor::on_packet_sent(&mut pending, packet(1));
    assert_eq!(executor.on_executor_fee_paid(&mut pending, &other), FeeOutcome::OtherExecutor);
    assert_eq!(pending.len(), 0);
    assert!(Executor::take_verified_packet(&mut pending).is_none());
}

#[test]
fn fee_to_this_executor_keeps_pending_packets() {
    let me = Address::repeat_byte(0xaa);
    let executor = Executor::new(me);
    let mut pending = PendingPackets::new();
    Executor::on_packet_sent(&mut pending, packet(3));
    assert_eq!(executor.on_executor_fee_paid(&mut pending, &me), FeeOutcome::Chosen);
    assert_eq!(pending.len(), 1);
    let taken = Executor::take_verified_packet(&mut pending).unwrap();
    assert_eq!(taken.options, vec![3u8]);
}

#[test]
fn finish_stops_the_worker() {
    let mut executor = Executor::new(Address::ZERO);
    assert!(!executor.is_finished());
    executor.finish();
    assert!(executor.is_finished());
    executor.finish();
    assert!(executor.is_finished());
}
