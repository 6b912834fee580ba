use video_playback::frame::VideoInfo;
use video_playback::queue::{Delivery, VideoQueue, VIDEO_QUEUE_CAPACITY};

fn frame(pts: u64) -> VideoInfo {
    VideoInfo { height: 1, width: 1, data: vec![0, 0, 0, 255], pts }
}

#[test]
fn frames_leave_in_arrival_order() {
    let mut q = VideoQueue::new();
    for pts in [10u64, 20, 30] {
        assert!(q.try_push(frame(pts)).is_ok());
    }
    let mut seen = Vec::new();
    while let Some(f) = q.pop_front() {
        seen.push(f.pts);
    }
    assert_eq!(seen, vec![10, 20, 30]);
    assert!(q.is_empty());
}

#[test]
fn interleaved_pushes_and_pops_keep_pts_order() {
    let mut q = VideoQueue::with_capacity(2);
    let mut seen = Vec::new();
    let mut next = 0u64;
    for step in 0..20 {
        if step % 3 == 2 {
            if let Some(f) = q.pop_front() {
                seen.push(f.pts);
            }
        } else if q.try_push(frame(next)).is_ok() {
            next += 1;
        }
    }
    while let Some(f) = q.pop_front() {
        seen.push(f.pts);
    }
    let expected: Vec<u64> = (0..next).collect();
    assert_eq!(seen, expected);
}

#[test]
fn full_queue_hands_frame_back() {
    let mut q = VideoQueue::new();
    assert_eq!(q.capacity(), VIDEO_QUEUE_CAPACITY);
    for pts in 0..VIDEO_QUEUE_CAPACITY as u64 {
        assert!(q.try_push(frame(pts)).is_ok());
    }
    assert!(q.is_full());
    let back = q.try_push(frame(999)).unwrap_err();
    assert_eq!(back.pts, 999);
    assert_eq!(q.len(), VIDEO_QUEUE_CAPACITY);
    assert_eq!(q.front_pts(), Some(0));
}

#[test]
fn offer_retries_then_delivers_without_loss() {
    let mut q = VideoQueue::with_capacity(1);
    assert!(matches!(q.offer(frame(1), false), Delivery::Delivered));
    let pending = match q.offer(frame(2), false) {
        Delivery::Retry(f) => f,
        _ => panic!("a full queue must hand the frame back"),
    };
    assert_eq!(q.len(), 1);
    assert_eq!(q.pop_front().unwrap().pts, 1);
    assert!(matches!(q.offer(pending, false), Delivery::Delivered));
    assert_eq!(q.pop_front().unwrap().pts, 2);
}

#[test]
fn offer_after_stop_leaves_queue_alone() {
    let mut q = VideoQueue::with_capacity(1);
    assert!(q.try_push(frame(1)).is_ok());
    assert!(matches!(q.offer(frame(2), true), Delivery::Stopped));
    assert_eq!(q.len(), 1);
    let mut empty = VideoQueue::with_capacity(4);
    assert!(matches!(empty.offer(frame(3), true), Delivery::Stopped));
    assert!(empty.is_empty());
}

#[test]
fn pop_from_empty_queue_is_none() {
    let mut q = VideoQueue::new();
    assert!(q.pop_front().is_none());
    assert_eq!(q.front_pts(), None);
}
