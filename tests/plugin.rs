use video_playback::decoder::GstPlayer;
use video_playback::frame::VideoInfo;
use video_playback::plugin::{render_video_frame, Tick, VideoPlayer, VideoState};
use video_playback::queue::VideoQueue;

const MS: u64 = 1_000_000;

fn frame(pts: u64) -> VideoInfo {
    VideoInfo { height: 1, width: 1, data: vec![1, 2, 3, 4], pts }
}

fn setup() -> (VideoPlayer, GstPlayer, VideoQueue) {
    let uri = "https://example.org/clip.webm";
    (VideoPlayer::new(uri, 500, 500), GstPlayer::new(uri), VideoQueue::new())
}

#[test]
fn init_waits_for_identity() {
    let (mut v, mut d, mut q) = setup();
    assert!(matches!(render_video_frame(&mut v, &mut d, &mut q, true), Tick::Idle));
    assert_eq!(v.state, VideoState::Init);
    assert!(!d.has_started());
}

#[test]
fn init_with_identity_starts_decoder_once() {
    let (mut v, mut d, mut q) = setup();
    v.assign_id(7);
    assert!(matches!(render_video_frame(&mut v, &mut d, &mut q, true), Tick::SpawnDecoder));
    assert_eq!(v.state, VideoState::Ready);
    assert!(d.has_started());
    assert!(matches!(render_video_frame(&mut v, &mut d, &mut q, true), Tick::Idle));
    assert_eq!(v.state, VideoState::Ready);
}

#[test]
fn assign_id_keeps_first_identity() {
    let (mut v, _, _) = setup();
    v.assign_id(7);
    v.assign_id(9);
    assert_eq!(v.id, Some(7));
}

#[test]
fn requests_wait_for_identity() {
    let (mut v, _, _) = setup();
    v.request(VideoState::Start);
    assert_eq!(v.state, VideoState::Init);
    v.assign_id(1);
    v.request(VideoState::Start);
    assert_eq!(v.state, VideoState::Start);
    v.request(VideoState::Playing);
    assert_eq!(v.state, VideoState::Start);
}

#[test]
fn start_before_ready_goes_through_loading() {
    let (mut v, mut d, mut q) = setup();
    v.assign_id(1);
    v.request(VideoState::Start);
    assert!(matches!(render_video_frame(&mut v, &mut d, &mut q, true), Tick::SpawnDecoder));
    assert_eq!(v.state, VideoState::Loading);
    assert!(!d.is_playing());
    render_video_frame(&mut v, &mut d, &mut q, true);
    assert_eq!(v.state, VideoState::Loading);
    d.check_prebuffer(30, 0, None);
    render_video_frame(&mut v, &mut d, &mut q, true);
    assert_eq!(v.state, VideoState::Playing);
    assert!(d.is_playing());
}

#[test]
fn playing_pulls_one_frame_per_timer_tick() {
    let (mut v, mut d, mut q) = setup();
    d.start();
    d.check_prebuffer(30, 0, None);
    v.assign_id(1);
    v.request(VideoState::Start);
    render_video_frame(&mut v, &mut d, &mut q, true);
    assert_eq!(v.state, VideoState::Playing);
    q.try_push(frame(0)).ok().unwrap();
    q.try_push(frame(40 * MS)).ok().unwrap();
    assert!(matches!(render_video_frame(&mut v, &mut d, &mut q, false), Tick::Idle));
    assert_eq!(q.len(), 2);
    match render_video_frame(&mut v, &mut d, &mut q, true) {
        Tick::Show(f) => assert_eq!(f.pts, 0),
        _ => panic!("expected a frame"),
    }
    assert_eq!(v.clock.interval_ms(), 33);
    match render_video_frame(&mut v, &mut d, &mut q, true) {
        Tick::Show(f) => assert_eq!(f.pts, 40 * MS),
        _ => panic!("expected a frame"),
    }
    assert_eq!(v.clock.interval_ms(), 40);
    assert!(matches!(render_video_frame(&mut v, &mut d, &mut q, true), Tick::Idle));
}

#[test]
fn pause_keeps_buffered_frames_and_resume_continues() {
    let (mut v, mut d, mut q) = setup();
    d.start();
    d.check_prebuffer(30, 0, None);
    v.assign_id(1);
    v.request(VideoState::Start);
    render_video_frame(&mut v, &mut d, &mut q, true);
    for i in 0..3u64 {
        q.try_push(frame(i * 33 * MS)).ok().unwrap();
    }
    assert!(matches!(render_video_frame(&mut v, &mut d, &mut q, true), Tick::Show(_)));
    v.request(VideoState::Paused);
    for _ in 0..5 {
        assert!(matches!(render_video_frame(&mut v, &mut d, &mut q, true), Tick::Idle));
    }
    assert_eq!(v.state, VideoState::Paused);
    assert!(!d.is_playing());
    assert_eq!(q.len(), 2);
    v.request(VideoState::Start);
    render_video_frame(&mut v, &mut d, &mut q, true);
    assert_eq!(v.state, VideoState::Playing);
    assert!(d.is_playing());
    match render_video_frame(&mut v, &mut d, &mut q, true) {
        Tick::Show(f) => assert_eq!(f.pts, 33 * MS),
        _ => panic!("expected the next buffered frame"),
    }
}

#[test]
fn stop_destroys_and_is_terminal() {
    let (mut v, mut d, mut q) = setup();
    v.assign_id(1);
    render_video_frame(&mut v, &mut d, &mut q, true);
    v.request(VideoState::Stop);
    render_video_frame(&mut v, &mut d, &mut q, true);
    assert!(d.should_stop());
    v.request(VideoState::Start);
    assert_eq!(v.state, VideoState::Stop);
    render_video_frame(&mut v, &mut d, &mut q, true);
    assert_eq!(v.state, VideoState::Stop);
    assert!(!d.is_playing());
}
