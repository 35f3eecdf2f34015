use recorder::meter::VolumeMeter;
use recorder::sample::UNIT;

#[test]
fn silent_window_emits_zero() {
    let mut m = VolumeMeter::new(33, 0);
    m.feed_batch(&vec![0, 0, 0, 0]);
    let out = m.tick(33);
    assert_eq!(out, vec![0]);
}

#[test]
fn empty_window_emits_zero() {
    let mut m = VolumeMeter::new(33, 0);
    let out = m.tick(40);
    assert_eq!(out, vec![0]);
}

#[test]
fn overdriven_sample_clamps_to_full_scale() {
    let mut m = VolumeMeter::new(33, 0);
    // One sample of amplitude 2.0: twice full scale in Q16.16.
    m.feed_sample(2 * UNIT as i32);
    let out = m.tick(33);
    assert_eq!(out, vec![UNIT]);
}

#[test]
fn output_stays_in_display_range() {
    let mut m = VolumeMeter::new(10, 0);
    m.feed_batch(&vec![i32::MIN, i32::MAX, -(UNIT as i32), 12345]);
    let out = m.tick(10);
    assert_eq!(out.len(), 1);
    assert!(out[0] <= UNIT);
    assert_eq!(out[0], UNIT);
}

#[test]
fn window_peak_is_max_magnitude() {
    let mut m = VolumeMeter::new(33, 0);
    m.feed_batch(&vec![100, -5000, 2500]);
    let out = m.tick(33);
    assert_eq!(out, vec![5000]);
}

#[test]
fn hundred_ms_of_33ms_windows_is_three_values() {
    let mut m = VolumeMeter::new(33, 0);
    m.feed_batch(&vec![400, -900]);
    let out = m.tick(100);
    // floor(100 / 33) windows elapsed; samples all fell in the first.
    assert_eq!(out, vec![900, 0, 0]);
}

#[test]
fn anchor_advances_by_whole_windows_not_to_now() {
    let mut m = VolumeMeter::new(33, 0);
    // First tick at 40 ms closes one window and leaves the anchor at 33,
    // not at 40: the 7 ms of jitter are not lost.
    m.feed_sample(111);
    assert_eq!(m.tick(40), vec![111]);
    // 40..65 is still inside the second window.
    assert_eq!(m.tick(65), Vec::<u32>::new());
    // At 66 the second window [33, 66) closes.
    m.feed_sample(-222);
    assert_eq!(m.tick(66), vec![222]);
}

#[test]
fn steady_cadence_under_jittered_arrival() {
    let mut m = VolumeMeter::new(33, 0);
    let mut emitted = Vec::new();
    // Samples arrive in irregular clumps over ~100 ms of ticks.
    m.feed_batch(&vec![10]);
    emitted.extend(m.tick(12));
    m.feed_batch(&vec![20, 30]);
    emitted.extend(m.tick(47));
    emitted.extend(m.tick(71));
    m.feed_batch(&vec![40]);
    emitted.extend(m.tick(100));
    assert_eq!(emitted, vec![30, 0, 40]);
}
