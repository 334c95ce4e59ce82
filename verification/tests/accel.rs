use flight_controller::accel::{AccelActor, ProcessedAccelData, RawAccelData};
use std::collections::VecDeque;

fn script(payloads: &[u64]) -> VecDeque<RawAccelData> {
    payloads.iter().map(|payload| RawAccelData::new(*payload)).collect()
}

fn payloads(samples: &[ProcessedAccelData]) -> Vec<u64> {
    samples.iter().map(|sample| sample.payload()).collect()
}

#[test]
fn accel_sample_keeps_its_payload() {
    for payload in [0u64, 1, 0xdead_beef, u64::MAX] {
        let raw = RawAccelData::new(payload);
        assert_eq!(raw.payload(), payload);
        assert_eq!(ProcessedAccelData::from_raw(raw).payload(), payload);
    }
    assert_eq!(
        ProcessedAccelData::from_raw(RawAccelData::new(5)),
        ProcessedAccelData::from_raw(RawAccelData::new(5))
    );
    assert_ne!(
        ProcessedAccelData::from_raw(RawAccelData::new(5)),
        ProcessedAccelData::from_raw(RawAccelData::new(6))
    );
}

#[test]
fn accel_actor_delivers_every_sample_in_order() {
    let given = [7u64, 0, u64::MAX, 7, 3];
    let mut source = script(&given);
    let mut sink: Vec<ProcessedAccelData> = Vec::new();
    AccelActor::run(&mut source, &mut sink);
    assert!(source.is_empty());
    assert_eq!(sink.len(), given.len());
    assert_eq!(payloads(&sink), given.to_vec());
}

#[test]
fn accel_actor_adds_to_what_the_sink_holds() {
    let mut source = script(&[2, 3]);
    let mut sink = vec![ProcessedAccelData::from_raw(RawAccelData::new(1))];
    AccelActor::run(&mut source, &mut sink);
    assert_eq!(payloads(&sink), vec![1, 2, 3]);
}

#[test]
fn accel_actor_on_a_dry_source_delivers_nothing() {
    let mut source = script(&[]);
    let mut sink: Vec<ProcessedAccelData> = Vec::new();
    assert!(!AccelActor::process(&mut source, &mut sink));
    AccelActor::run(&mut source, &mut sink);
    assert!(sink.is_empty());
}

#[test]
fn accel_process_takes_one_sample_at_a_time() {
    let mut source = script(&[10, 20]);
    let mut sink: Vec<ProcessedAccelData> = Vec::new();
    assert!(AccelActor::process(&mut source, &mut sink));
    assert_eq!(payloads(&sink), vec![10]);
    assert_eq!(source.len(), 1);
    assert!(AccelActor::process(&mut source, &mut sink));
    assert_eq!(payloads(&sink), vec![10, 20]);
    assert!(!AccelActor::process(&mut source, &mut sink));
    assert_eq!(payloads(&sink), vec![10, 20]);
}
