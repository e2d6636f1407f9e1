use quantum_tunnel::msg::{MsgCreateWasmClient, MsgSend, MsgUpdateWasmClient, StdMsg};
use quantum_tunnel::sink::{Sink, SinkError, SinkPhase, SinkStep};
use quantum_tunnel::harness::{MonitoringSignal, Poll};
use quantum_tunnel::wire::{CeloWrappedHeader, ClientConfig, EncodeError, WasmHeader};

fn header(number: u64) -> CeloWrappedHeader {
    CeloWrappedHeader { number, header_rlp: vec![0xab], initial_state_entry_rlp: vec![0x01, 0x02] }
}

fn config() -> ClientConfig {
    ClientConfig {
        wasm_id: "0a0B".to_string(),
        trusting_period: "14 days".to_string(),
        unbonding_period: "21 days".to_string(),
        max_clock_drift: "10s".to_string(),
    }
}

fn has_window(hay: &[u8], needle: &[u8]) -> bool {
    hay.windows(needle.len()).any(|w| w == needle)
}

fn with_len(tag: u8, body: &[u8]) -> Vec<u8> {
    let mut v = vec![tag, body.len() as u8];
    v.extend_from_slice(body);
    v
}

#[test]
fn type_tags() {
    assert_eq!(MsgCreateWasmClient::<u8>::get_type(), "ibc/client/MsgCreateWasmClient");
    assert_eq!(MsgUpdateWasmClient::<u8>::get_type(), "ibc/client/MsgUpdateWasmClient");
    assert_eq!(MsgSend::get_type(), "cosmos-sdk/MsgSend");
    assert_eq!(CeloWrappedHeader::chain_name(), "Celo");
    assert_eq!(header(77).height(), 77);
}

#[test]
fn create_message_holds_decoded_code_id_and_drift() {
    let m = header(100).to_wasm_create_msg(&config(), &"signer".to_string()).unwrap();
    assert_eq!(m.type_url, "ibc/client/MsgCreateWasmClient");
    let mut cs = vec![0x0a, 0x02, 0xc1, 0x0a, 0x12, 0x02, 0x0a, 0x0b, 0x2a, 0x00];
    cs.extend(with_len(0x32, b"wasm_dummy"));
    let mut any = with_len(0x0a, b"/ibc.lightclients.wasm.v1.ClientState");
    any.extend(with_len(0x12, &cs));
    assert!(m.value.starts_with(&with_len(0x0a, &any)));
    let init = vec![0x0a, 0x06, 0xc5, 0x81, 0xab, 0x82, 0x01, 0x02, 0x12, 0x02, 0x0a, 0x0b, 0x18];
    assert!(has_window(&m.value, &init));
    assert!(has_window(&m.value, &[0x22, 0x06, 0x0a, 0x04, 1, 2, 3, 4]));
    assert!(m.value.ends_with(&with_len(0x1a, b"signer")));
}

#[test]
fn create_message_config_errors() {
    let h = header(1);
    let s = "s".to_string();
    let mut c = config();
    c.wasm_id = "abc".to_string();
    assert_eq!(h.to_wasm_create_msg(&c, &s).unwrap_err(), EncodeError::InvalidWasmId);
    c.wasm_id = "zz".to_string();
    assert_eq!(h.to_wasm_create_msg(&c, &s).unwrap_err(), EncodeError::InvalidWasmId);
    let mut c = config();
    c.trusting_period = "abc".to_string();
    assert_eq!(h.to_wasm_create_msg(&c, &s).unwrap_err(), EncodeError::InvalidTrustingPeriod);
    let mut c = config();
    c.max_clock_drift = "abc".to_string();
    assert_eq!(h.to_wasm_create_msg(&c, &s).unwrap_err(), EncodeError::InvalidMaxClockDrift);
    let mut c = config();
    c.unbonding_period = "abc".to_string();
    assert_eq!(h.to_wasm_create_msg(&c, &s).unwrap_err(), EncodeError::InvalidUnbondingPeriod);
}

#[test]
fn update_message_bytes() {
    let m = header(5).to_wasm_update_msg(&"s".to_string(), &"c".to_string());
    assert_eq!(m.type_url, "ibc/client/MsgUpdateWasmClient");
    let mut any = with_len(0x0a, b"/ibc.lightclients.wasm.v1.Header");
    any.extend(with_len(0x12, b"0a01ab12001a0a7761736d5f64756d6d79"));
    let mut expected = with_len(0x0a, b"c");
    expected.extend(with_len(0x12, &any));
    expected.extend(with_len(0x1a, b"s"));
    assert_eq!(m.value, expected);
}

fn submitted_tag(step: &SinkStep) -> String {
    match step {
        SinkStep::Submit { message, .. } => message.type_url.clone(),
        _ => panic!("expected a submission"),
    }
}

#[test]
fn sink_creates_once_then_updates() {
    let mut sink = Sink::new(true);
    let (cfg, id, s) = (config(), "07-wasm-0".to_string(), "s".to_string());
    let mut tags = Vec::new();
    let mut signals = Vec::new();
    for n in [100u64, 101, 102] {
        let step = sink.on_poll(Poll::Item(header(n)), &cfg, &id, &s);
        tags.push(submitted_tag(&step));
        if let SinkStep::Submit { signal, .. } = step {
            signals.push(signal.unwrap());
        }
    }
    assert_eq!(tags, vec![
        "ibc/client/MsgCreateWasmClient".to_string(),
        "ibc/client/MsgUpdateWasmClient".to_string(),
        "ibc/client/MsgUpdateWasmClient".to_string(),
    ]);
    let heights: Vec<u64> = signals.iter().map(|m| m.height).collect();
    assert_eq!(heights, vec![100, 101, 102]);
    assert!(signals.iter().all(|m| !m.terminated));
    assert_eq!(sink.phase, SinkPhase::Active);
}

#[test]
fn sink_without_simulated_counterpart_reports_nothing() {
    let mut sink = Sink::new(false);
    let step = sink.on_poll(Poll::Item(header(9)), &config(), &"i".to_string(), &"s".to_string());
    match step {
        SinkStep::Submit { signal, .. } => assert_eq!(signal, None),
        _ => panic!("expected a submission"),
    }
}

#[test]
fn sink_stops_on_bad_trusting_period() {
    let mut sink = Sink::new(true);
    let mut cfg = config();
    cfg.trusting_period = "abc".to_string();
    let step = sink.on_poll(Poll::Item(header(1)), &cfg, &"i".to_string(), &"s".to_string());
    assert!(matches!(step, SinkStep::Failed(SinkError::Encode(EncodeError::InvalidTrustingPeriod))));
    assert_eq!(sink.phase, SinkPhase::Uninitialized);
}

#[test]
fn sink_disconnect_and_idle() {
    let mut sink = Sink::new(true);
    let (cfg, i, s) = (config(), "i".to_string(), "s".to_string());
    assert!(matches!(sink.on_poll(Poll::<CeloWrappedHeader>::Empty, &cfg, &i, &s), SinkStep::Idle));
    assert!(matches!(
        sink.on_poll(Poll::<CeloWrappedHeader>::Disconnected, &cfg, &i, &s),
        SinkStep::Failed(SinkError::RelayDisconnected)
    ));
    assert_eq!(Sink::on_simulated_poll::<u8>(Poll::Disconnected), Some(SinkError::RelayDisconnected));
    assert_eq!(Sink::on_simulated_poll::<u8>(Poll::Empty), None);
    assert_eq!(Sink::on_simulated_poll(Poll::Item(3u8)), None);
    assert_eq!(Sink::shutdown_signal(), MonitoringSignal { terminated: true, height: 0 });
}
