use video_playback::frame::{pack_rows, rescale_timestamp, VideoInfo};

#[test]
fn pack_rows_strips_row_padding() {
    // two rows of two pixels, each row padded to ten bytes
    let mut plane: Vec<u8> = Vec::new();
    for y in 0..2u8 {
        for x in 0..10u8 {
            plane.push(y * 100 + x);
        }
    }
    let packed = pack_rows(&plane, 2, 2, 10).unwrap();
    assert_eq!(packed, vec![0, 1, 2, 3, 4, 5, 6, 7, 100, 101, 102, 103, 104, 105, 106, 107]);
}

#[test]
fn pack_rows_accepts_unpadded_last_row() {
    let plane: Vec<u8> = (0..18u8).collect();
    let packed = pack_rows(&plane, 2, 2, 10).unwrap();
    assert_eq!(packed, vec![0, 1, 2, 3, 4, 5, 6, 7, 10, 11, 12, 13, 14, 15, 16, 17]);
}

#[test]
fn pack_rows_refuses_short_plane() {
    let plane: Vec<u8> = vec![0; 17];
    assert!(pack_rows(&plane, 2, 2, 10).is_none());
}

#[test]
fn pack_rows_refuses_narrow_stride() {
    let plane: Vec<u8> = vec![0; 64];
    assert!(pack_rows(&plane, 2, 2, 7).is_none());
}

#[test]
fn pack_rows_of_no_rows_is_empty() {
    let plane: Vec<u8> = Vec::new();
    assert_eq!(pack_rows(&plane, 4, 0, 16), Some(Vec::new()));
}

#[test]
fn pack_rows_without_padding_copies_everything() {
    let plane: Vec<u8> = (0..24u8).collect();
    assert_eq!(pack_rows(&plane, 3, 2, 12).unwrap(), plane);
}

#[test]
fn frame_from_plane_keeps_size_and_timestamp() {
    let plane: Vec<u8> = vec![7; 8 * 3];
    let f = VideoInfo::from_plane(&plane, 1, 3, 8, 42).unwrap();
    assert_eq!(f.width, 1);
    assert_eq!(f.height, 3);
    assert_eq!(f.pts, 42);
    assert_eq!(f.data, vec![7; 12]);
    assert!(VideoInfo::from_plane(&plane, 3, 3, 8, 42).is_none());
}

#[test]
fn timestamp_rescaled_by_time_base() {
    // a 90 kHz stream clock, converted to nanoseconds
    assert_eq!(rescale_timestamp(3_000, 1_000_000_000, 90_000), Some(33_333_333));
    assert_eq!(rescale_timestamp(7, 1, 1), Some(7));
    assert_eq!(rescale_timestamp(7, 1, 0), None);
    assert_eq!(rescale_timestamp(u64::MAX, 2, 1), None);
    assert_eq!(rescale_timestamp(u64::MAX, 2, 2), Some(u64::MAX));
}
