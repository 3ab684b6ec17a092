use ferrousgl::FrameClock;

#[test]
fn target_duration_is_a_second_divided_by_the_rate() {
    assert_eq!(FrameClock::new(60, 0).target_frame_nanos(), 16_666_666);
    assert_eq!(FrameClock::new(1, 0).target_frame_nanos(), 1_000_000_000);
    assert_eq!(FrameClock::new(30, 0).target_frame_nanos(), 33_333_333);
    assert_eq!(FrameClock::new(144, 0).target_frame_nanos(), 6_944_444);
    assert_eq!(FrameClock::new(1_000_000_000, 0).target_frame_nanos(), 1);
    assert_eq!(FrameClock::new(1_000_000_001, 0).target_frame_nanos(), 0);
    assert_eq!(FrameClock::new(u32::MAX, 0).target_frame_nanos(), 0);
}

#[test]
fn target_duration_matches_std_duration_division() {
    for rate in [1u32, 2, 3, 7, 24, 60, 75, 120, 999, 1_000_000_007, u32::MAX] {
        let expected = (std::time::Duration::from_secs(1) / rate).as_nanos();
        assert_eq!(FrameClock::new(rate, 0).target_frame_nanos() as u128, expected);
    }
}

#[test]
fn set_target_fps_keeps_the_last_frame() {
    let mut clock = FrameClock::new(60, 42);
    clock.set_target_fps(50);
    assert_eq!(clock.target_frame_nanos(), 20_000_000);
    assert_eq!(clock.last_frame_nanos(), 42);
}

#[test]
fn elapsed_saturates_at_zero() {
    let clock = FrameClock::new(60, 1_000);
    assert_eq!(clock.elapsed(1_000), 0);
    assert_eq!(clock.elapsed(1_500), 500);
    assert_eq!(clock.elapsed(999), 0);
    assert_eq!(clock.elapsed(0), 0);
    assert_eq!(clock.elapsed(u64::MAX), u64::MAX - 1_000);
}

#[test]
fn frame_time_is_in_whole_microseconds() {
    let clock = FrameClock::new(60, 10);
    assert_eq!(clock.frame_time_micros(10), 0);
    assert_eq!(clock.frame_time_micros(1_009), 0);
    assert_eq!(clock.frame_time_micros(1_010), 1);
    assert_eq!(clock.frame_time_micros(5_000_010), 5_000);
}

#[test]
fn delay_fills_the_frame_up_to_its_target() {
    let clock = FrameClock::new(100, 0);
    assert_eq!(clock.pacing_delay(0), 10_000_000);
    assert_eq!(clock.pacing_delay(1), 9_999_999);
    assert_eq!(clock.pacing_delay(4_000_000), 6_000_000);
    assert_eq!(clock.pacing_delay(9_999_999), 1);
}

#[test]
fn no_delay_once_the_target_has_passed() {
    let clock = FrameClock::new(100, 0);
    assert_eq!(clock.pacing_delay(10_000_000), 0);
    assert_eq!(clock.pacing_delay(10_000_001), 0);
    assert_eq!(clock.pacing_delay(u64::MAX), 0);
}

#[test]
fn unpaced_clock_never_delays() {
    let clock = FrameClock::new(u32::MAX, 5);
    assert_eq!(clock.pacing_delay(5), 0);
    assert_eq!(clock.pacing_delay(6), 0);
}

#[test]
fn paced_frame_lasts_at_least_its_target() {
    let target = 16_666_666u64;
    for work in [0u64, 1, 1_000, 8_000_000, 16_666_665] {
        let clock = FrameClock::new(60, 500);
        let now = 500 + work;
        let resumed = now + clock.pacing_delay(now);
        assert_eq!(resumed - 500, target);
    }
    for work in [16_666_666u64, 16_666_667, 40_000_000] {
        let clock = FrameClock::new(60, 500);
        let now = 500 + work;
        assert_eq!(clock.pacing_delay(now), 0);
    }
}

#[test]
fn sixty_frames_are_recorded_in_a_second_of_tight_looping() {
    let mut clock = FrameClock::new(60, 0);
    let mut now = 0u64;
    let mut stamps: Vec<u64> = Vec::new();
    loop {
        // Event handling and presenting take a twentieth of a millisecond.
        now += 50_000;
        now += clock.pacing_delay(now);
        if now > 1_000_000_000 {
            break;
        }
        clock.record_frame(now);
        stamps.push(now);
    }
    assert_eq!(stamps.len(), 60);
    assert_eq!(stamps[0], 16_666_666);
    for pair in stamps.windows(2) {
        assert_eq!(pair[1] - pair[0], 16_666_666);
    }
}

#[test]
fn record_frame_moves_only_the_time() {
    let mut clock = FrameClock::new(60, 0);
    clock.record_frame(77);
    assert_eq!(clock.last_frame_nanos(), 77);
    assert_eq!(clock.target_frame_nanos(), 16_666_666);
    assert_eq!(clock, FrameClock::new(60, 77));
}

#[test]
fn about_sixty_frames_are_recorded_with_small_overshoot_and_lag() {
    let mut clock = FrameClock::new(60, 0);
    let mut now = 0u64;
    let mut stamps: Vec<u64> = vec![0];
    while *stamps.last().unwrap() < 1_000_000_000 {
        // A gap of 0.1 ms before the frame, 1 ms of work, 0.1 ms of overshoot.
        now += 100_000 + 1_000_000;
        now += clock.pacing_delay(now) + 100_000;
        clock.record_frame(now);
        stamps.push(now);
    }
    let frames = stamps.len() - 1;
    assert_eq!(frames, 60);
    for pair in stamps.windows(2) {
        let span = pair[1] - pair[0];
        assert!(span >= 16_666_666);
        assert!(span <= 16_666_666 + 200_000);
    }
    let within: usize = stamps.iter().filter(|stamp| **stamp <= 1_000_000_000).count() - 1;
    assert!(within <= 60);
    assert_eq!(within, 59);
}

#[test]
fn late_frames_are_not_caught_up() {
    let mut clock = FrameClock::new(60, 0);
    // The first frame works for 50 ms: no delay, and the next frame is paced
    // from where this one ended.
    assert_eq!(clock.pacing_delay(50_000_000), 0);
    clock.record_frame(50_000_000);
    assert_eq!(clock.pacing_delay(51_000_000), 15_666_666);
}
