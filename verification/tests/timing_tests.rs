use stream_encoder::pts_ms;

#[test]
fn pts_framerate_30_first_three_frames() {
    assert_eq!(pts_ms(0, 30), 0);
    assert_eq!(pts_ms(1, 30), 33);
    assert_eq!(pts_ms(2, 30), 66);
}

#[test]
fn pts_framerate_60_truncates_per_frame() {
    assert_eq!(pts_ms(0, 60), 0);
    assert_eq!(pts_ms(1, 60), 16);
    assert_eq!(pts_ms(2, 60), 33);
    assert_eq!(pts_ms(3, 60), 50);
    assert_eq!(pts_ms(4, 60), 66);
}

#[test]
fn pts_exact_framerates_have_no_drift() {
    assert_eq!(pts_ms(7, 25), 280);
    assert_eq!(pts_ms(1000, 50), 20000);
}

#[test]
fn pts_drift_accumulates_rather_than_correcting() {
    // At 30 frames per second the exact time of frame 30 is 1000 ms, but
    // per-frame truncation loses a third of a millisecond every frame.
    assert_eq!(pts_ms(30, 30), 1000);
    assert_eq!(pts_ms(29, 30), 966);
    // At 60 frames per second the loss is two thirds of a millisecond.
    assert_eq!(pts_ms(60, 60), 1000);
    assert_eq!(pts_ms(59, 60), 983);
}
