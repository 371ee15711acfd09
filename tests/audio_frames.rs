use kvm_link::audio::{
    bytes_from_samples, next_audio_frame, receive_audio_frame, samples_from_bytes, FRAME_BYTES,
    FRAME_SAMPLES,
};
use kvm_link::ring::SampleRing;

#[test]
fn samples_are_little_endian_words() {
    assert_eq!(bytes_from_samples(&[0x04030201]), vec![1u8, 2, 3, 4]);
    assert_eq!(samples_from_bytes(&[1, 2, 3, 4, 0xFF, 0, 0, 0]), vec![0x04030201u32, 0xFF]);
}

#[test]
fn float_samples_keep_their_bits() {
    let s = [0.5f32.to_bits(), (-1.0f32).to_bits()];
    let back = samples_from_bytes(&bytes_from_samples(&s));
    assert_eq!(f32::from_bits(back[0]), 0.5);
    assert_eq!(f32::from_bits(back[1]), -1.0);
}

#[test]
fn capture_sends_whole_frames_only() {
    let mut ring = SampleRing::new(2 * FRAME_SAMPLES);
    let samples: Vec<u32> = (0..(FRAME_SAMPLES as u32 - 1)).collect();
    ring.push_slice(&samples);
    assert_eq!(next_audio_frame(&mut ring), None);
    ring.push_slice(&[1000, 1001]);
    let frame = next_audio_frame(&mut ring).unwrap();
    assert_eq!(frame.len(), FRAME_BYTES);
    assert_eq!(&frame[4..8], &[1u8, 0, 0, 0]);
    assert_eq!(ring.len(), 1);
}

#[test]
fn playback_drops_what_does_not_fit() {
    let mut ring = SampleRing::new(3);
    let bytes = bytes_from_samples(&[5, 6, 7, 8]);
    assert_eq!(receive_audio_frame(&mut ring, &bytes), 3);
    assert_eq!(ring.pull_playback(4), vec![5, 6, 7, 0]);
}
