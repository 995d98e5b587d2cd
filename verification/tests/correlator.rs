use echo_timing::correlator::{probe_payload, ResponseCorrelator, PROBE_PAYLOAD_LEN, SENTINEL};

#[test]
fn probe_payload_is_fixed_filler() {
    let payload = probe_payload();
    assert_eq!(payload.len(), PROBE_PAYLOAD_LEN);
    assert_eq!(payload.len(), 253);
    assert!(payload.iter().all(|&b| b == 0));
}

#[test]
fn tokens_are_sequential() {
    let mut c = ResponseCorrelator::new();
    assert_eq!(c.issue_probe(), 0);
    assert_eq!(c.issue_probe(), 1);
    assert_eq!(c.issue_probe(), 2);
    assert_eq!(c.pending.len(), 3);
}

#[test]
fn full_delivery_completes_in_order() {
    // three probes, three sentinels interspersed with arbitrary other bytes:
    // all three complete, oldest first, and nothing stays pending
    let mut c = ResponseCorrelator::new();
    let t0 = c.issue_probe();
    let t1 = c.issue_probe();
    let t2 = c.issue_probe();
    let stream = vec![0x00, SENTINEL, 0x17, 0xFF, SENTINEL, 0x85, SENTINEL];
    let completed = c.pump(&stream);
    assert_eq!(completed, vec![t0, t1, t2]);
    assert_eq!(c.pending.len(), 0);
}

#[test]
fn partial_delivery_leaves_rest_pending() {
    // three probes but only two sentinels: exactly the two oldest complete
    let mut c = ResponseCorrelator::new();
    let t0 = c.issue_probe();
    let t1 = c.issue_probe();
    let t2 = c.issue_probe();
    let completed = c.pump(&vec![0x01, SENTINEL, 0x02, SENTINEL, 0x03]);
    assert_eq!(completed, vec![t0, t1]);
    assert_eq!(c.pending, vec![t2]);
    // no further bytes: the last probe stays pending
    let more = c.pump(&vec![0x00, 0x7F]);
    assert!(more.is_empty());
    assert_eq!(c.pending, vec![t2]);
}

#[test]
fn pump_byte_completes_oldest() {
    let mut c = ResponseCorrelator::new();
    let t0 = c.issue_probe();
    let t1 = c.issue_probe();
    assert_eq!(c.pump_byte(SENTINEL), Some(t0));
    assert_eq!(c.pump_byte(SENTINEL), Some(t1));
}

#[test]
fn non_sentinel_bytes_are_discarded() {
    let mut c = ResponseCorrelator::new();
    c.issue_probe();
    assert_eq!(c.pump_byte(0x00), None);
    assert_eq!(c.pump_byte(0x83), None);
    assert_eq!(c.pending.len(), 1);
}

#[test]
fn sentinel_with_empty_queue_is_ignored() {
    let mut c = ResponseCorrelator::new();
    assert_eq!(c.pump_byte(SENTINEL), None);
    let completed = c.pump(&vec![SENTINEL, SENTINEL]);
    assert!(completed.is_empty());
}
