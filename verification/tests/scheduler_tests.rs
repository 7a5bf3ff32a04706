use stream_encoder::BurstScheduler;
use stream_encoder::Frame;
use stream_encoder::FrameSource;
use stream_encoder::PixelFormat;
use stream_encoder::PlaneLayout;

fn tiny_frame(seed: u8) -> Frame {
    Frame {
        width: 1,
        height: 1,
        format: PixelFormat::Rgba,
        data: vec![seed, seed.wrapping_add(1), seed.wrapping_add(2), seed.wrapping_add(3)],
    }
}

fn collection_scheduler(count: usize, buffer_size: usize, framerate: u64) -> BurstScheduler {
    let mut frames: Vec<Frame> = Vec::new();
    let mut i: usize = 0;
    while i < count {
        frames.push(tiny_frame((i as u8).wrapping_mul(16)));
        i += 1;
    }
    BurstScheduler::new(
        FrameSource::from_frames(frames),
        buffer_size,
        framerate,
        PixelFormat::Bgra,
        PlaneLayout { width: 1, height: 1, stride: 4 },
        0,
    )
}

#[test]
fn three_frames_at_30_fps_get_pts_0_33_66() {
    let mut scheduler = collection_scheduler(3, 4, 30);
    let run = scheduler.run_to_end();
    let pts: Vec<u64> = run.pushes.iter().map(|p| p.pts_ms).collect();
    assert_eq!(pts, vec![0, 33, 66]);
    assert_eq!(run.eos_signals, 1);
}

#[test]
fn collection_run_emits_every_frame_once_with_floor_pts() {
    let mut scheduler = collection_scheduler(7, 2, 60);
    let run = scheduler.run_to_end();
    assert_eq!(run.pushes.len(), 7);
    assert_eq!(run.eos_signals, 1);
    for (i, push) in run.pushes.iter().enumerate() {
        assert_eq!(push.pts_ms, (i as u64) * 1000 / 60);
        // The packed bytes are the BGRA reordering of frame i.
        let seed = (i as u8).wrapping_mul(16);
        assert_eq!(
            push.data,
            vec![seed.wrapping_add(2), seed.wrapping_add(1), seed, seed.wrapping_add(3)]
        );
    }
    assert_eq!(scheduler.frame_index, 7);
}

#[test]
fn five_frames_with_burst_size_3_take_two_bursts() {
    let mut scheduler = collection_scheduler(5, 3, 60);

    let first = scheduler.run_burst();
    assert_eq!(first.pushes.len(), 3);
    assert!(!first.end_of_stream);
    let pts1: Vec<u64> = first.pushes.iter().map(|p| p.pts_ms).collect();
    assert_eq!(pts1, vec![0, 16, 33]);

    let second = scheduler.run_burst();
    assert_eq!(second.pushes.len(), 2);
    assert!(second.end_of_stream);
    let pts2: Vec<u64> = second.pushes.iter().map(|p| p.pts_ms).collect();
    assert_eq!(pts2, vec![50, 66]);

    assert_eq!(scheduler.frame_index, 5);
}

#[test]
fn frame_index_counts_exactly_the_pushes_across_bursts() {
    let mut scheduler = collection_scheduler(10, 4, 30);
    let mut total: u64 = 0;
    loop {
        let burst = scheduler.run_burst();
        total += burst.pushes.len() as u64;
        assert_eq!(scheduler.frame_index, total);
        if burst.end_of_stream {
            break;
        }
    }
    assert_eq!(total, 10);
}

#[test]
fn exhausted_scheduler_stays_silent() {
    let mut scheduler = collection_scheduler(2, 4, 30);
    let first = scheduler.run_burst();
    assert_eq!(first.pushes.len(), 2);
    assert!(first.end_of_stream);

    // A second pull after exhaustion is a no-op: no pushes, no second
    // end-of-stream signal, no change to the frame index.
    let second = scheduler.run_burst();
    assert_eq!(second.pushes.len(), 0);
    assert!(!second.end_of_stream);
    assert_eq!(scheduler.frame_index, 2);

    let third = scheduler.run_to_end();
    assert_eq!(third.pushes.len(), 0);
    assert_eq!(third.eos_signals, 0);
}

#[test]
fn empty_collection_signals_exhaustion_without_a_push() {
    let mut scheduler = collection_scheduler(0, 3, 30);
    let burst = scheduler.run_burst();
    assert_eq!(burst.pushes.len(), 0);
    assert!(burst.end_of_stream);
    assert_eq!(scheduler.frame_index, 0);
}

#[test]
fn closing_the_channel_mid_burst_stops_after_the_sent_frames() {
    let (sender, receiver) = std::sync::mpsc::channel();
    sender.send(tiny_frame(1)).unwrap();
    sender.send(tiny_frame(9)).unwrap();
    drop(sender);

    let mut scheduler = BurstScheduler::new(
        FrameSource::from_channel(receiver),
        4,
        25,
        PixelFormat::Bgra,
        PlaneLayout { width: 1, height: 1, stride: 4 },
        0,
    );
    let burst = scheduler.run_burst();
    // Two frames were sent before the producer dropped its handle, so the
    // burst pushes exactly two buffers and then signals end-of-stream.
    assert_eq!(burst.pushes.len(), 2);
    assert!(burst.end_of_stream);
    assert_eq!(burst.pushes[0].pts_ms, 0);
    assert_eq!(burst.pushes[1].pts_ms, 40);
    assert_eq!(burst.pushes[0].data, vec![3, 2, 1, 4]);
    assert_eq!(scheduler.frame_index, 2);

    // The closed channel is terminal: a later pull is a no-op.
    let again = scheduler.run_burst();
    assert_eq!(again.pushes.len(), 0);
    assert!(!again.end_of_stream);
    assert_eq!(scheduler.frame_index, 2);
}

#[test]
fn channel_burst_stops_at_the_buffer_size() {
    let (sender, receiver) = std::sync::mpsc::channel();
    let mut i: u8 = 0;
    while i < 5 {
        sender.send(tiny_frame(i)).unwrap();
        i += 1;
    }
    drop(sender);

    let mut scheduler = BurstScheduler::new(
        FrameSource::from_channel(receiver),
        3,
        30,
        PixelFormat::Bgra,
        PlaneLayout { width: 1, height: 1, stride: 4 },
        0,
    );
    let first = scheduler.run_burst();
    assert_eq!(first.pushes.len(), 3);
    assert!(!first.end_of_stream);
    let second = scheduler.run_burst();
    assert_eq!(second.pushes.len(), 2);
    assert!(second.end_of_stream);
    assert_eq!(scheduler.frame_index, 5);
}

#[test]
fn pushed_buffers_have_the_plane_size_and_zero_padding() {
    let frames = vec![Frame {
        width: 2,
        height: 1,
        format: PixelFormat::Rgba,
        data: vec![1, 2, 3, 4, 5, 6, 7, 8],
    }];
    let layout = PlaneLayout { width: 2, height: 1, stride: 12 };
    let mut scheduler = BurstScheduler::new(
        FrameSource::from_frames(frames),
        1,
        30,
        PixelFormat::Bgra,
        layout,
        0,
    );
    let burst = scheduler.run_burst();
    assert_eq!(burst.pushes.len(), 1);
    assert_eq!(burst.pushes[0].data.len(), 12);
    // Freshly allocated planes carry zero in the stride padding.
    assert_eq!(burst.pushes[0].data, vec![3, 2, 1, 4, 7, 6, 5, 8, 0, 0, 0, 0]);
}
