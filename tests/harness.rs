use quantum_tunnel::harness::{Harness, HarnessError, HarnessStep, MonitoringSignal, Poll};
use quantum_tunnel::fixture::split_records;
use quantum_tunnel::config::{check_pairing, ChainEndpointConfig, ConfigError};

fn report(height: u64) -> Poll<MonitoringSignal> {
    Poll::Item(MonitoringSignal { terminated: false, height })
}

fn drive(h: &mut Harness, polls: Vec<Poll<MonitoringSignal>>) -> Vec<HarnessStep> {
    let mut out = Vec::new();
    for p in polls {
        out.push(h.on_poll(p));
    }
    out
}

#[test]
fn three_headers_reach_expected_height() {
    let mut h = Harness::new(102, 3);
    let steps = drive(&mut h, vec![report(100), report(101), report(102)]);
    assert_eq!(steps, vec![HarnessStep::Continue, HarnessStep::Continue, HarnessStep::Succeeded(102)]);
}

#[test]
fn three_headers_expected_below_reached_height_fails() {
    let mut h = Harness::new(101, 3);
    let steps = drive(&mut h, vec![report(100), report(101), report(102)]);
    assert_eq!(
        steps[2],
        HarnessStep::Failed(HarnessError::HeightMismatch { expected: 101, actual: 102 })
    );
}

#[test]
fn terminal_signal_stops_waiting_early() {
    let mut h = Harness::new(102, 3);
    assert_eq!(h.on_poll(report(100)), HarnessStep::Continue);
    let end = h.on_poll(Poll::Item(MonitoringSignal { terminated: true, height: 0 }));
    assert_eq!(end, HarnessStep::Failed(HarnessError::HeightMismatch { expected: 102, actual: 100 }));
}

#[test]
fn terminal_signal_with_expected_height_succeeds() {
    let mut h = Harness::new(100, 3);
    assert_eq!(h.on_poll(report(100)), HarnessStep::Continue);
    let end = h.on_poll(Poll::Item(MonitoringSignal { terminated: true, height: 0 }));
    assert_eq!(end, HarnessStep::Succeeded(100));
}

#[test]
fn empty_poll_waits_and_keeps_state() {
    let mut h = Harness::new(5, 2);
    assert_eq!(h.on_poll(Poll::Empty), HarnessStep::Wait);
    assert_eq!(h, Harness::new(5, 2));
}

#[test]
fn monitoring_disconnect_fails() {
    let mut h = Harness::new(5, 2);
    assert_eq!(
        h.on_poll(Poll::Disconnected),
        HarnessStep::Failed(HarnessError::MonitoringDisconnected)
    );
}

#[test]
fn fixture_splits_on_blank_lines() {
    let recs = split_records(&b"{\"a\":1}\n\n{\"b\":2}\n\n{\"c\":3}".to_vec());
    assert_eq!(recs, vec![b"{\"a\":1}".to_vec(), b"{\"b\":2}".to_vec(), b"{\"c\":3}".to_vec()]);
}

#[test]
fn fixture_split_edges() {
    assert_eq!(split_records(&Vec::new()), vec![Vec::<u8>::new()]);
    assert_eq!(split_records(&b"\n\n\n".to_vec()), vec![Vec::new(), b"\n".to_vec()]);
    assert_eq!(split_records(&b"a\nb".to_vec()), vec![b"a\nb".to_vec()]);
    assert_eq!(split_records(&b"a\n\n".to_vec()), vec![b"a".to_vec(), Vec::new()]);
}

#[test]
fn both_sides_simulated_is_rejected() {
    let sim = ChainEndpointConfig::Simulated { fixture_path: "f".to_string(), expected_terminal_height: 3 };
    let live = ChainEndpointConfig::Live { socket_address: "ws://x".to_string(), counterpart_is_simulated: true };
    assert_eq!(check_pairing(&sim, &sim), Err(ConfigError::BothSimulated));
    assert_eq!(check_pairing(&live, &sim), Ok(()));
    assert_eq!(check_pairing(&live, &live), Ok(()));
}
