use brtri::bridge_core::monitor::Monitor;
use brtri::protocols::blender::{BlenderSession, POINT_CLOUD_HEADER};
use brtri::protocols::ios::{IosSession, ProtocolError, LIDAR_PACKET_HEADER, MAX_PACKET_SIZE};
use std::time::Instant;

#[test]
fn valid_lidar_packet_yields_its_payload() {
    let session = IosSession::new();
    let mut monitor = Monitor::new();
    let packet = vec![0x4C, 0x49, 0x44, 0x52, 7, 8, 9];
    assert_eq!(session.validate_frame(&mut monitor, &packet), Ok(()));
    let payload = session.accept_frame(&mut monitor, &packet, Instant::now()).unwrap();
    assert_eq!(payload, vec![7, 8, 9]);
    assert_eq!(monitor.frame_count(), 1);
    assert_eq!(monitor.dropped_frames(), 0);
}

#[test]
fn header_only_packet_has_empty_payload() {
    let session = IosSession::new();
    let mut monitor = Monitor::new();
    let payload = session.accept_frame(&mut monitor, &LIDAR_PACKET_HEADER, Instant::now()).unwrap();
    assert!(payload.is_empty());
}

#[test]
fn bad_header_is_refused_and_counted() {
    let session = IosSession::new();
    let mut monitor = Monitor::new();
    assert_eq!(session.validate_frame(&mut monitor, &[0x4C, 0x49, 0x44]), Err(ProtocolError::InvalidHeader));
    assert_eq!(session.accept_frame(&mut monitor, b"PCLD1234", Instant::now()), Err(ProtocolError::InvalidHeader));
    assert_eq!(monitor.dropped_frames(), 2);
    assert_eq!(monitor.frame_count(), 0);
    assert_eq!(ProtocolError::InvalidHeader.message(), "Invalid packet header");
}

#[test]
fn oversized_packet_is_refused_without_a_drop() {
    let session = IosSession::new();
    let mut monitor = Monitor::new();
    let mut packet = LIDAR_PACKET_HEADER.to_vec();
    packet.resize(MAX_PACKET_SIZE, 0);
    assert_eq!(session.validate_frame(&mut monitor, &packet), Ok(()));
    packet.push(0);
    assert_eq!(session.validate_frame(&mut monitor, &packet), Err(ProtocolError::PacketTooLarge));
    assert_eq!(monitor.dropped_frames(), 0);
    assert_eq!(ProtocolError::PacketTooLarge.message(), "Packet size exceeds maximum");
}

#[test]
fn sixth_connection_error_gives_up() {
    let mut session = IosSession::new();
    for attempt in 1..=5u32 {
        assert_eq!(session.handle_connection_error(), Ok(()));
        assert_eq!(session.reconnect_attempts(), attempt);
    }
    assert_eq!(session.handle_connection_error(), Err(ProtocolError::ReconnectLimitExceeded));
    assert_eq!(session.reconnect_attempts(), 6);
    assert_eq!(ProtocolError::ReconnectLimitExceeded.message(), "Max reconnection attempts exceeded");
}

#[test]
fn buffer_overflow_counts_a_drop() {
    let session = IosSession::new();
    let mut monitor = Monitor::new();
    session.handle_buffer_overflow(&mut monitor);
    assert_eq!(monitor.dropped_frames(), 1);
}

#[test]
fn blender_frame_layout() {
    let session = BlenderSession::new();
    let frame = session.build_frame(&[0xAA, 0xBB]);
    assert_eq!(
        frame,
        vec![0x50, 0x43, 0x4C, 0x44, 0, 0, 0, 0, 0, 0, 0, 0, 2, 0, 0, 0, 0xAA, 0xBB]
    );
    assert_eq!(&frame[0..4], &POINT_CLOUD_HEADER);
}

#[test]
fn blender_frames_are_numbered() {
    let mut session = BlenderSession::new();
    let mut monitor = Monitor::new();
    session.record_sent(&mut monitor, Instant::now());
    session.record_sent(&mut monitor, Instant::now());
    assert_eq!(session.get_frame_count(), 2);
    let frame = session.build_frame(&[]);
    assert_eq!(frame, vec![0x50, 0x43, 0x4C, 0x44, 2, 0, 0, 0, 0, 0, 0, 0, 0, 0, 0, 0]);
    session.record_send_failure(&mut monitor);
    assert_eq!(session.get_frame_count(), 2);
    assert_eq!(monitor.frame_count(), 2);
    assert_eq!(monitor.dropped_frames(), 1);
}

#[test]
fn blender_counter_is_little_endian() {
    let mut session = BlenderSession::new();
    let mut monitor = Monitor::new();
    for _ in 0..258 {
        session.record_sent(&mut monitor, Instant::now());
    }
    let frame = session.build_frame(&[5]);
    assert_eq!(&frame[4..12], &258u64.to_le_bytes());
    assert_eq!(&frame[12..16], &1u32.to_le_bytes());
    assert_eq!(frame[16], 5);
}

#[test]
fn failed_sends_use_no_frame_number() {
    let mut session = BlenderSession::new();
    let mut monitor = Monitor::new();
    let first = session.build_frame(&[1]);
    session.record_sent(&mut monitor, Instant::now());
    let _lost = session.build_frame(&[2]);
    session.record_send_failure(&mut monitor);
    let second = session.build_frame(&[3]);
    session.record_sent(&mut monitor, Instant::now());
    assert_eq!(&first[4..12], &0u64.to_le_bytes());
    assert_eq!(&second[4..12], &1u64.to_le_bytes());
    assert_eq!(session.get_frame_count(), 2);
}
