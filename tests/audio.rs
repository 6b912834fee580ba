use video_playback::audio::{decode_samples, AudioFormat, SampleBuffer};

#[test]
fn samples_decode_little_endian_words() {
    let bytes: Vec<u8> = vec![1, 0, 0, 0, 0, 0, 128, 63, 0x78, 0x56, 0x34, 0x12, 9];
    let words = decode_samples(&bytes);
    assert_eq!(words, vec![1, 0x3f80_0000, 0x1234_5678]);
    assert_eq!(f32::from_bits(words[1]), 1.0f32);
}

#[test]
fn samples_decode_empty_and_partial() {
    assert_eq!(decode_samples(&[]), Vec::<u32>::new());
    assert_eq!(decode_samples(&[1, 2, 3]), Vec::<u32>::new());
}

#[test]
fn output_format_falls_back_to_default() {
    assert_eq!(AudioFormat::output_for(None), AudioFormat { rate: 44_100, channels: 2 });
    let mono = AudioFormat { rate: 48_000, channels: 1 };
    assert_eq!(AudioFormat::output_for(Some(mono)), mono);
    let broken = AudioFormat { rate: 0, channels: 2 };
    assert_eq!(AudioFormat::output_for(Some(broken)), AudioFormat { rate: 44_100, channels: 2 });
}

#[test]
fn prebuffer_and_capacity_sizes() {
    let stereo = AudioFormat { rate: 44_100, channels: 2 };
    assert_eq!(stereo.min_prebuffer_samples(), 44_100);
    assert_eq!(stereo.buffer_samples(), 264_600);
    let mono = AudioFormat { rate: 8_001, channels: 1 };
    assert_eq!(mono.min_prebuffer_samples(), 4_000);
    let b = SampleBuffer::for_format(stereo);
    assert_eq!(b.capacity(), 264_600);
}

#[test]
fn push_stops_at_capacity_and_resumes() {
    let mut b = SampleBuffer::with_capacity(4);
    let s: Vec<u32> = vec![1, 2, 3, 4, 5, 6];
    assert_eq!(b.push_from(&s, 0), 4);
    assert_eq!(b.len(), 4);
    assert_eq!(b.push_from(&s, 4), 4);
    assert_eq!(b.drain(3), vec![1, 2, 3]);
    assert_eq!(b.push_from(&s, 4), 6);
    assert_eq!(b.drain(10), vec![4, 5, 6]);
    assert_eq!(b.len(), 0);
}

#[test]
fn drain_never_waits_on_empty_buffer() {
    let mut b = SampleBuffer::with_capacity(8);
    assert_eq!(b.drain(16), Vec::<u32>::new());
}

#[test]
fn offer_samples_after_stop_pushes_nothing() {
    let mut b = SampleBuffer::with_capacity(8);
    let s: Vec<u32> = vec![1, 2];
    assert_eq!(b.offer(&s, 0, true), None);
    assert_eq!(b.len(), 0);
    assert_eq!(b.offer(&s, 0, false), Some(2));
    assert_eq!(b.len(), 2);
}
