use voltshark::control::{Heartbeat, HeartbeatAction};

#[test]
fn heartbeat_toggles_after_interval() {
    let mut h = Heartbeat::new();
    assert_eq!(h.on_tick(16_000_000), HeartbeatAction { toggle_led: false, select_patch: None });
    assert_eq!(h.on_tick(16_000_001), HeartbeatAction { toggle_led: true, select_patch: None });
    // Measured from the last toggle.
    assert_eq!(h.on_tick(20_000_000), HeartbeatAction { toggle_led: false, select_patch: None });
}

#[test]
fn heartbeat_rotates_patch_every_twenty_blinks() {
    let mut h = Heartbeat::new();
    let mut tick = 0u32;
    let mut selected = Vec::new();
    for _ in 0..100 {
        tick = tick.wrapping_add(16_000_001);
        let a = h.on_tick(tick);
        assert!(a.toggle_led);
        if let Some(p) = a.select_patch {
            selected.push(p);
        }
    }
    assert_eq!(selected, vec![1, 2, 3, 4, 0]);
}

#[test]
fn heartbeat_handles_timer_wraparound() {
    let mut h = Heartbeat::new();
    assert!(h.on_tick(u32::MAX - 10).toggle_led);
    // 11 ticks later, across the wrap: too soon.
    assert!(!h.on_tick(0).toggle_led);
    assert!(h.on_tick(16_000_000).toggle_led);
}
