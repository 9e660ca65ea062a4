use voltshark::audio::i2s::{I2SAudioEngine, SoftwareI2S};

#[test]
fn software_i2s_records_frames_in_order() {
    let mut s = SoftwareI2S::new(48_000);
    assert!(s.get_buffer().is_empty());
    s.push_frame((1, -1));
    s.push_frame((2, -2));
    assert_eq!(s.get_buffer(), &[1, -1, 2, -2]);
}

#[test]
fn software_i2s_drops_frames_when_full() {
    let mut s = SoftwareI2S::new(48_000);
    for i in 0..300i16 {
        s.push_frame((i, -i));
    }
    let b = s.get_buffer();
    assert_eq!(b.len(), 512);
    assert_eq!(b[510], 255);
    assert_eq!(b[511], -255);
}

#[test]
fn software_i2s_clear_empties() {
    let mut s = SoftwareI2S::new(44_100);
    s.push_frame((7, 8));
    s.clear();
    assert!(s.get_buffer().is_empty());
    s.push_frame((9, 10));
    assert_eq!(s.get_buffer(), &[9, 10]);
}

#[test]
fn ring_wants_samples_until_low_water_mark() {
    let mut e = I2SAudioEngine::new((), 48_000);
    assert!(e.needs_samples());
    for i in 0..31i16 {
        e.push_frame((i, i));
    }
    // 62 samples queued.
    assert!(e.needs_samples());
    e.push_frame((0, 0));
    // 64 queued: enough.
    assert!(!e.needs_samples());
    e.start();
    e.stop();
    assert!(!e.needs_samples());
}

#[test]
fn ring_wraps_around() {
    let mut e = I2SAudioEngine::new((), 48_000);
    // 128 frames fill the 256-sample ring exactly: the write index is back at
    // the read index, so nothing counts as queued.
    for _ in 0..128 {
        e.push_frame((1, 1));
    }
    assert!(e.needs_samples());
    for _ in 0..40 {
        e.push_frame((1, 1));
    }
    assert!(!e.needs_samples());
}
