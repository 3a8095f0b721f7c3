use statsd::{ClientState, Delta, MetricType, Sample, StatsdError};

fn state_with_prefix() -> ClientState {
    let mut state = ClientState::new();
    state.set_prefix("pfx");
    state
}

fn delta(value: f64) -> Delta {
    Delta::from_bits(value.to_bits())
}

fn render(sample: &Sample) -> String {
    sample.payload(&f64::from_bits(sample.value.bits).to_string())
}

#[test]
fn incr() {
    let state = state_with_prefix();
    assert!(render(&state.incr("bkt")) == "pfx.bkt:1|c");
}

#[test]
fn incr_by() {
    let state = state_with_prefix();
    assert!(render(&state.incr_by("bkt", delta(12.))) == "pfx.bkt:12|c");
}

#[test]
fn decr() {
    let state = state_with_prefix();
    assert!(render(&state.decr("bkt")) == "pfx.bkt:-1|c");
}

#[test]
fn decr_by() {
    let state = state_with_prefix();
    assert!(render(&state.decr_by("bkt", delta(12.))) == "pfx.bkt:-12|c");
}

#[test]
fn no_prefix_has_no_leading_dot() {
    let state = ClientState::new();
    assert_eq!(state.prefix(), "");
    assert_eq!(render(&state.incr("x")), "x:1|c");
}

#[test]
fn incr_by_fractional_value() {
    let state = state_with_prefix();
    assert_eq!(render(&state.incr_by("bkt", delta(2.5))), "pfx.bkt:2.5|c");
}

#[test]
fn decr_by_negative_value_adds() {
    let state = state_with_prefix();
    let sample = state.decr_by("bkt", delta(-3.0));
    assert_eq!(render(&sample), "pfx.bkt:3|c");
    assert_eq!(sample, state.incr_by("bkt", delta(3.0)));
}

#[test]
fn incr_and_decr_match_unit_steps() {
    let state = state_with_prefix();
    assert_eq!(state.incr("bkt"), state.incr_by("bkt", delta(1.0)));
    assert_eq!(state.decr("bkt"), state.incr_by("bkt", delta(-1.0)));
}

#[test]
fn decr_by_matches_incr_by_negated() {
    let state = state_with_prefix();
    for v in [0.0, -0.0, 7.0, -7.25, f64::INFINITY] {
        assert_eq!(state.decr_by("b", delta(v)), state.incr_by("b", delta(-v)));
    }
}

#[test]
fn delta_constants_match_binary64() {
    assert_eq!(Delta::one().bits, 1.0f64.to_bits());
    assert_eq!(Delta::minus_one().bits, (-1.0f64).to_bits());
    assert_eq!(delta(5.5).neg().bits, (-5.5f64).to_bits());
    assert_eq!(delta(-5.5).neg().neg(), delta(-5.5));
}

#[test]
fn prefix_applies_only_forward() {
    let mut state = ClientState::new();
    let before = state.incr("bkt");
    state.set_prefix("pfx");
    let after = state.incr("bkt");
    assert_eq!(render(&before), "bkt:1|c");
    assert_eq!(render(&after), "pfx.bkt:1|c");
}

#[test]
fn set_prefix_replaces_previous() {
    let mut state = state_with_prefix();
    state.set_prefix("other");
    assert_eq!(state.prefix(), "other.");
    assert_eq!(render(&state.incr("bkt")), "other.bkt:1|c");
}

#[test]
fn empty_prefix_is_a_lone_dot() {
    let mut state = ClientState::new();
    state.set_prefix("");
    assert_eq!(state.prefix(), ".");
    assert_eq!(render(&state.incr("bkt")), ".bkt:1|c");
}

#[test]
fn datagram_carries_type_and_payload_text() {
    let state = state_with_prefix();
    let sample = state.datagram("bkt", delta(4.0), MetricType::Counter);
    assert_eq!(sample.name, "pfx.bkt");
    assert_eq!(sample.metric_type, MetricType::Counter);
    assert_eq!(sample.payload("4"), "pfx.bkt:4|c");
    assert_eq!(sample.payload("any"), "pfx.bkt:any|c");
}

#[test]
fn counter_tag_is_c() {
    assert_eq!(MetricType::Counter.tag(), "c");
}

#[test]
fn address_parse_error_kind() {
    let e = StatsdError::address_parse();
    assert!(e.is_address_parse());
    assert!(!e.is_io());
    match e {
        StatsdError::AddrParseError(m) => assert_eq!(m, "Address parsing error"),
        StatsdError::IoError(_) => panic!("wrong kind"),
    }
}

#[test]
fn io_error_kind() {
    let e = StatsdError::from(std::io::Error::new(std::io::ErrorKind::Other, "send failed"));
    assert!(e.is_io());
    assert!(!e.is_address_parse());
}
