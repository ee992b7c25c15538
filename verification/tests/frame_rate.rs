use piston_shooty::fps_counter::{FpsCounter, NSEC_PER_SEC};

#[test]
fn batch_closes_after_a_second() {
    let mut counter = FpsCounter::starting_at(1_000);
    for i in 1..=9u64 {
        counter.record_frame(1_000 + i * 100_000_000);
        assert_eq!(counter.num_frames_in_batch, i);
        assert_eq!(counter.average_frame_time, 1);
        assert_eq!(counter.fps, NSEC_PER_SEC);
    }
    counter.record_frame(1_000 + NSEC_PER_SEC);
    assert_eq!(counter.num_frames_in_batch, 0);
    assert_eq!(counter.last_batch_start_time, 1_000 + NSEC_PER_SEC);
    assert_eq!(counter.average_frame_time, 100_000_000);
    assert_eq!(counter.fps, 10);
    counter.record_frame(1_000 + NSEC_PER_SEC + 5);
    assert_eq!(counter.num_frames_in_batch, 1);
    assert_eq!(counter.fps, 10);
}

#[test]
fn average_is_the_batch_time_over_its_frames() {
    let mut counter = FpsCounter::starting_at(0);
    counter.record_frame(10);
    counter.record_frame(20);
    counter.record_frame(3_000_000_000);
    assert_eq!(counter.average_frame_time, 1_000_000_000);
    assert_eq!(counter.fps, 1);
    assert_eq!(counter.last_batch_start_time, 3_000_000_000);
}

#[test]
fn clock_that_runs_backwards_closes_no_batch() {
    let mut counter = FpsCounter::starting_at(5_000_000_000);
    counter.record_frame(1);
    assert_eq!(counter.last_batch_start_time, 5_000_000_000);
    assert_eq!(counter.num_frames_in_batch, 1);
    assert_eq!(counter.fps, NSEC_PER_SEC);
}

#[test]
fn frame_count_stops_at_its_largest_value() {
    let mut counter = FpsCounter {
        last_batch_start_time: 0,
        num_frames_in_batch: u64::MAX,
        average_frame_time: 4,
        fps: 0,
    };
    counter.record_frame(10);
    assert_eq!(counter.num_frames_in_batch, u64::MAX);
    assert_eq!(counter.fps, 250_000_000);
    counter.record_frame(2_000_000_000);
    assert_eq!(counter.average_frame_time, 1);
    assert_eq!(counter.num_frames_in_batch, 0);
}

#[test]
fn counter_reads_the_clock() {
    let mut counter = FpsCounter::new();
    assert_eq!(counter.num_frames_in_batch, 0);
    assert_eq!(counter.average_frame_time, 1);
    assert_eq!(counter.fps, 0);
    let start = counter.last_batch_start_time;
    assert!(start > 0);
    counter.calculate_fps();
    assert!(counter.average_frame_time >= 1);
    assert!(counter.num_frames_in_batch <= 1);
    assert!(counter.last_batch_start_time >= start);
    let other = FpsCounter::default();
    assert!(other.last_batch_start_time >= start);
}
