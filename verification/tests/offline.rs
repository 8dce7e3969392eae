//! Checks of the offline paths: marker parsing, sync synthesis, export gate.

use acr_telemetry::frames::PhysicsRecord;
use acr_telemetry::notes::parse_annotation_line;
use acr_telemetry::shm::Segment;
use acr_telemetry::store::{AnalyticalStore, should_export_file};
use acr_telemetry::sync::sync_annotations_from_physics;

fn frame_with(air_temp: f32, speed_kmh: f32) -> PhysicsRecord {
    let seg = Segment::from_bytes(vec![0u8; 800]);
    let mut f = PhysicsRecord::from_physics(&seg).expect("decode");
    f.air_temp = air_temp.to_bits();
    f.speed_kmh = speed_kmh.to_bits();
    f
}

#[test]
fn marker_line_parses() {
    let a = parse_annotation_line("[elapsed 12.5s] #marker good# wheel lockup").expect("annotation");
    assert_eq!(a.time_offset_us, 12_500_000);
    assert_eq!(a.tag, "good");
    assert_eq!(a.text, "good");
    assert!(a.time_end_us.is_none());
}

#[test]
fn plain_line_is_not_an_annotation() {
    assert!(parse_annotation_line("just a note").is_none());
}

#[test]
fn sync_annotations_from_profiles() {
    let air = [0.0, 0.0, 0.1, 0.2, 0.0, 0.3];
    let speed = [0.0, 1.0, 2.0, 4.0, 2.0, 5.0];
    let mut records = Vec::new();
    for i in 0..6 {
        records.push(frame_with(air[i], speed[i]));
    }
    let anns = sync_annotations_from_physics(&records, 333);
    assert_eq!(anns.len(), 3);
    assert_eq!(anns[0].tag, "sync_air_temp_gt_0");
    assert_eq!(anns[0].time_offset_us, 2 * 1_000_000 / 333);
    assert_eq!(anns[1].tag, "sync_speed_gt_0");
    assert_eq!(anns[1].time_offset_us, 3 * 1_000_000 / 333);
    assert_eq!(anns[2].tag, "sync_air_temp_gt_0");
    assert_eq!(anns[2].time_offset_us, 5 * 1_000_000 / 333);
}

#[test]
fn second_export_of_same_source_is_skipped() {
    let mut store = AnalyticalStore::new();
    let source = String::from("run_0001.rkyv");
    let created = String::from("2026-01-01 10:00:00");
    let records = vec![frame_with(20.0, 0.0); 4];
    let first = store.export_if_new(&source, &created, &records, 333, None, None, &Vec::new());
    assert_eq!(first, Some(1));
    let second = store.export_if_new(&source, &created, &records, 333, None, None, &Vec::new());
    assert_eq!(second, None);
    assert_eq!(store.recordings.len(), 1);
    assert_eq!(store.recordings[0].sample_count, 4);
    assert_eq!(store.physics.len(), 4);
}

#[test]
fn export_file_filter() {
    assert!(should_export_file("run_0001.rkyv", false));
    assert!(!should_export_file("run_0001.rkyv", true));
    assert!(!should_export_file(".hidden.rkyv", false));
    assert!(!should_export_file("run_0001.graphics.rkyv", false));
    assert!(!should_export_file("run_0001.csv", false));
}
