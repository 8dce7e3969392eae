//! End-to-end checks of the verified telemetry core.

use acr_telemetry::capture::{CaptureControl, FreshnessGate, poll_interval};
use acr_telemetry::frames::{PhysicsRecord, WheelsRecord};
use acr_telemetry::rawlog::{PhysicsLogWriter, TARGET_HZ, read_physics_log};
use acr_telemetry::shm::Segment;

fn physics_segment_bytes(seq_id: i32, fill: u8) -> Vec<u8> {
    let mut b = vec![fill; 800];
    b[0..4].copy_from_slice(&seq_id.to_le_bytes());
    b
}

fn decoded_frame(seq_id: i32) -> PhysicsRecord {
    let seg = Segment::from_bytes(physics_segment_bytes(seq_id, 7));
    PhysicsRecord::from_physics(&seg).expect("decode")
}

#[test]
fn raw_log_round_trips_records() {
    let mut w = PhysicsLogWriter::new(TARGET_HZ);
    let mut frames = Vec::new();
    for i in 0..700 {
        let f = decoded_frame(i);
        frames.push(f);
        w.record(f);
    }
    w.flush();
    let bytes = w.take_pending();
    let (version, hz, records) = read_physics_log(&bytes).expect("parse");
    assert_eq!(version, 1);
    assert_eq!(hz, TARGET_HZ);
    assert_eq!(records.len(), frames.len());
    for (a, b) in records.iter().zip(frames.iter()) {
        assert_eq!(a.packet_id, b.packet_id);
        assert_eq!(a.gas, b.gas);
    }
}

#[test]
fn empty_capture_leaves_header_only() {
    let mut w = PhysicsLogWriter::new(TARGET_HZ);
    w.flush();
    let bytes = w.take_pending();
    assert_eq!(bytes.len(), 16);
    assert_eq!(&bytes[0..4], b"ACCR");
    let (_, hz, records) = read_physics_log(&bytes).expect("parse");
    assert_eq!(hz, 333);
    assert!(records.is_empty());
}

#[test]
fn freshness_gate_filters_stale_frames() {
    let mut gate = FreshnessGate::new();
    let mut frame = decoded_frame(5);
    frame.suspension_travel = WheelsRecord { front_left: 1, front_right: 2, rear_left: 3, rear_right: 4 };
    let mut emitted = 0;
    for _ in 0..3 {
        if gate.offer_frame(&frame) {
            emitted += 1;
        }
    }
    assert_eq!(emitted, 1);
    let mut fresh = decoded_frame(6);
    fresh.suspension_travel = WheelsRecord { front_left: 9, front_right: 2, rear_left: 3, rear_right: 4 };
    if gate.offer_frame(&fresh) {
        emitted += 1;
    }
    assert_eq!(emitted, 2);
}

#[test]
fn stop_token_round_trip() {
    let mut c = CaptureControl::new();
    assert!(c.recording_active());
    assert!(!c.should_stop());
    c.request_stop();
    assert!(c.should_stop());
    assert!(!c.recording_active());
    assert_eq!(poll_interval(), 500);
}
