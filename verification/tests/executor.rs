use alloy::primitives::Address;
use executor::executor::{classify_log, LogOutcome, Packet, PacketSent};
use executor::types::{CommitStep, ExecutionState, ExecutionStep, VerificationState};

fn header() -> Vec<u8> {
    let mut data = Vec::new();
    data.extend_from_slice(&0x0102030405060708u64.to_be_bytes());
    data.extend_from_slice(&30110u32.to_be_bytes());
    data.extend_from_slice(&[0x11; 20]);
    data.extend_from_slice(&40161u32.to_be_bytes());
    data.extend_from_slice(&[0x22; 32]);
    data.extend_from_slice(&[0x33; 32]);
    data
}

#[test]
fn packet_needs_a_full_header() {
    let data = header();
    assert_eq!(data.len(), 100);
    assert!(Packet::deserialize(&data[..99]).is_none());
    assert!(Packet::deserialize(&[]).is_none());
}

#[test]
fn packet_fields_are_read_big_endian() {
    let mut data = header();
    data.extend_from_slice(b"hello");
    let p = Packet::deserialize(&data).unwrap();
    assert_eq!(p.nonce, 0x0102030405060708);
    assert_eq!(p.src_eid, 30110);
    assert_eq!(p.sender, Address::repeat_byte(0x11));
    assert_eq!(p.dst_eid, 40161);
    assert_eq!(p.receiver, [0x22; 32]);
    assert_eq!(p.guid, [0x33; 32]);
    assert_eq!(p.message(), b"hello");
}

#[test]
fn packet_with_empty_message() {
    let p = Packet::deserialize(&header()).unwrap();
    assert!(p.message().is_empty());
}

#[test]
fn packet_sent_needs_52_bytes() {
    assert!(PacketSent::deserialize(&[0u8; 51]).is_none());
    let data: Vec<u8> = (0..52u8).collect();
    let p = PacketSent::deserialize(&data).unwrap();
    assert_eq!(p.encoded_packet, (0..32u8).collect::<Vec<u8>>());
    assert!(p.options.is_empty());
    let lib: Vec<u8> = (32..52u8).collect();
    assert_eq!(p.send_library.to_vec(), lib);
}

#[test]
fn packet_sent_parts_rebuild_the_payload() {
    let data: Vec<u8> = (0..70u8).collect();
    let p = PacketSent::deserialize(&data).unwrap();
    assert_eq!(p.options, (32..50u8).collect::<Vec<u8>>());
    let mut rebuilt = p.encoded_packet.clone();
    rebuilt.extend_from_slice(&p.options);
    rebuilt.extend_from_slice(&p.send_library);
    assert_eq!(rebuilt, data);
}

#[test]
fn classify_log_outcomes() {
    assert!(matches!(classify_log(&[1u8; 10]), LogOutcome::NotPacket));
    let mut data = header();
    data.extend_from_slice(&[5u8; 51]);
    match classify_log(&data) {
        LogOutcome::NotPacketSent(p) => assert_eq!(p.message().len(), 51),
        other => panic!("unexpected {:?}", other),
    }
    data.push(6);
    match classify_log(&data) {
        LogOutcome::PacketSent(p, s) => {
            assert_eq!(p.nonce, 0x0102030405060708);
            assert_eq!(s.encoded_packet, vec![5u8; 32]);
            assert!(s.options.is_empty());
            let mut lib = [5u8; 20];
            lib[19] = 6;
            assert_eq!(s.send_library, lib);
        }
        other => panic!("unexpected {:?}", other),
    }
}

#[test]
fn execution_state_steps() {
    assert_eq!(ExecutionState::NotExecutable.next_step(), ExecutionStep::WaitAndRetry);
    assert_eq!(ExecutionState::Executable.next_step(), ExecutionStep::Deliver);
    assert_eq!(ExecutionState::Executed.next_step(), ExecutionStep::Done);
}

#[test]
fn executable_result_codes() {
    assert_eq!(ExecutionState::from_executable_result(Some(0)), ExecutionState::NotExecutable);
    assert_eq!(ExecutionState::from_executable_result(Some(1)), ExecutionState::Executable);
    assert_eq!(ExecutionState::from_executable_result(Some(2)), ExecutionState::Executed);
    assert_eq!(ExecutionState::from_executable_result(Some(-1)), ExecutionState::Executed);
    assert_eq!(ExecutionState::from_executable_result(None), ExecutionState::Executed);
}

#[test]
fn verification_state_steps() {
    assert_eq!(VerificationState::Verifying.next_step(), CommitStep::AwaitSignatures);
    assert_eq!(VerificationState::Verifiable.next_step(), CommitStep::CommitVerification);
    assert_eq!(VerificationState::Verified.next_step(), CommitStep::Done);
}

#[test]
fn packet_tail_rebuilds_the_data_after_the_ids() {
    let mut data = header();
    data.extend_from_slice(&[0x44; 7]);
    let p = Packet::deserialize(&data).unwrap();
    let mut rebuilt = p.receiver.to_vec();
    rebuilt.extend_from_slice(&p.guid);
    rebuilt.extend_from_slice(p.message());
    assert_eq!(rebuilt.as_slice(), &data[36..]);
}

#[test]
fn read_be_reads_most_significant_byte_first() {
    let data = [0x00u8, 0x12, 0x34, 0x56, 0x78, 0x9a, 0xbc, 0xde, 0xf0];
    assert_eq!(executor::be::read_be(&data, 1, 4), 0x12345678);
    assert_eq!(executor::be::read_be(&data, 1, 8), 0x123456789abcdef0);
    assert_eq!(executor::be::read_be(&data, 3, 0), 0);
    assert_eq!(executor::be::read_be(&[0xffu8; 8], 0, 8), u64::MAX);
}
