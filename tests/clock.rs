use video_playback::clock::{interval_between, PlaybackClock, DEFAULT_INTERVAL_MS};

const MS: u64 = 1_000_000;

#[test]
fn first_frame_seeds_clock_with_default_interval() {
    let mut c = PlaybackClock::new();
    assert_eq!(c.on_frame(5_000 * MS), DEFAULT_INTERVAL_MS);
    assert_eq!(c.previous_pts, Some(5_000 * MS));
    assert_eq!(c.interval_ms(), 33);
}

#[test]
fn zero_delta_clamps_to_one_ms() {
    let mut c = PlaybackClock::new();
    c.on_frame(1_000 * MS);
    assert_eq!(c.on_frame(1_000 * MS), 1);
}

#[test]
fn long_delta_clamps_to_hundred_ms() {
    let mut c = PlaybackClock::new();
    c.on_frame(1_000 * MS);
    assert_eq!(c.on_frame(6_000 * MS), 100);
}

#[test]
fn backwards_delta_clamps_to_one_ms() {
    let mut c = PlaybackClock::new();
    c.on_frame(1_000 * MS);
    assert_eq!(c.on_frame(990 * MS), 1);
    assert_eq!(c.previous_pts, Some(990 * MS));
}

#[test]
fn ordinary_delta_is_kept_in_whole_ms() {
    assert_eq!(interval_between(0, 40 * MS), 40);
    assert_eq!(interval_between(0, 33_366_666), 33);
    assert_eq!(interval_between(0, MS / 2), 1);
    assert_eq!(interval_between(0, 100 * MS), 100);
    assert_eq!(interval_between(0, 101 * MS), 100);
}

#[test]
fn interval_tracks_variable_frame_timing() {
    let mut c = PlaybackClock::new();
    c.on_frame(0);
    assert_eq!(c.on_frame(40 * MS), 40);
    assert_eq!(c.on_frame(60 * MS), 20);
    assert_eq!(c.interval_ms(), 20);
}
