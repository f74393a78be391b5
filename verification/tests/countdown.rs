use quiet_timer::state::{CountdownState, TimerEvent, quantize, MAX_TARGET_SECS};

#[test]
fn tick_counts_down_to_zero() {
    let mut st = CountdownState::new(180);
    assert_eq!(st.elapsed, 180);
    assert_eq!(st.target, 180);
    for t in 1..=180u16 {
        st.on_tick();
        assert_eq!(st.elapsed, 180 - t);
        assert_eq!(st.target, 180);
    }
    assert_eq!(st.elapsed, 0);
}

#[test]
fn tick_at_zero_is_a_noop() {
    let mut st = CountdownState::new(0);
    st.on_tick();
    assert_eq!(st.elapsed, 0);
    st.on_tick();
    assert_eq!(st.elapsed, 0);
    assert_eq!(st.target, 0);
}

#[test]
fn reset_reloads_immediately() {
    // elapsed = 90, target = 180: one reset firing yields elapsed = 180.
    let mut st = CountdownState::new(180);
    for _ in 0..90 {
        st.on_tick();
    }
    assert_eq!(st.elapsed, 90);
    st.on_reset();
    assert_eq!(st.elapsed, 180);
    assert_eq!(st.target, 180);
}

#[test]
fn reset_is_idempotent() {
    let mut st = CountdownState::new(240);
    st.on_tick();
    st.on_reset();
    let after_one = st.snapshot();
    st.on_reset();
    assert_eq!(st.snapshot(), after_one);
    assert_eq!(after_one, (240, 240));
}

#[test]
fn reset_honors_mid_countdown_target_change() {
    let mut st = CountdownState::new(180);
    for _ in 0..30 {
        st.on_tick();
    }
    // The dial moves: target changes, the running countdown does not.
    st.on_sample(20);
    assert_eq!(st.target, 600);
    assert_eq!(st.elapsed, 150);
    // A reset reads the current target, not the one from loop start.
    st.on_reset();
    assert_eq!(st.elapsed, 600);
}

#[test]
fn sampler_never_touches_elapsed() {
    let mut st = CountdownState::new(120);
    for raw in 0..64u8 {
        st.on_sample(raw);
        assert_eq!(st.elapsed, 120);
    }
}

#[test]
fn quantizer_full_sample_yields_max_target() {
    // raw = 63 -> (63 >> 1) * 60 = 1860 seconds.
    assert_eq!(quantize(63), 1860);
    assert_eq!(quantize(63), (63 >> 1) * 60);
    assert_eq!(quantize(63), MAX_TARGET_SECS);
}

#[test]
fn quantizer_is_monotonic_and_covers_the_ladder() {
    let mut seen: Vec<u16> = Vec::new();
    let mut prev: u16 = 0;
    for raw in 0..64u8 {
        let t = quantize(raw);
        assert_eq!(t, u16::from(raw >> 1) * 60);
        assert!(t >= prev, "quantizer decreased at raw = {}", raw);
        prev = t;
        if seen.last() != Some(&t) {
            seen.push(t);
        }
    }
    let ladder: Vec<u16> = (0..32u16).map(|k| k * 60).collect();
    assert_eq!(seen, ladder);
    assert_eq!(*seen.last().unwrap(), 1860);
}

#[test]
fn apply_dispatches_each_event() {
    let mut st = CountdownState::new(180);
    st.apply(TimerEvent::Tick);
    assert_eq!(st.snapshot(), (179, 180));
    st.apply(TimerEvent::SampleUpdated(10));
    assert_eq!(st.snapshot(), (179, 300));
    st.apply(TimerEvent::Reset);
    assert_eq!(st.snapshot(), (300, 300));
}

#[test]
fn snapshot_returns_both_fields() {
    let st = CountdownState::new(1860);
    assert_eq!(st.snapshot(), (1860, 1860));
}
