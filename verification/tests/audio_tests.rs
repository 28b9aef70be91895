use dicta_core::audio::downmix;
use dicta_core::audio::pcm_to_bytes;

#[test]
fn downmix_opposite_channels_cancel() {
    // A two-channel frame of opposite full-scale samples reduces to zero.
    assert_eq!(downmix(&[32767, -32767], 2), vec![0]);
    assert_eq!(downmix(&[1, -1], 2), vec![0]);
}

#[test]
fn downmix_mono_passthrough() {
    assert_eq!(downmix(&[7, -8, 9], 1), vec![7, -8, 9]);
}

#[test]
fn downmix_averages_frames() {
    assert_eq!(downmix(&[10, 20, 30, 50], 2), vec![15, 40]);
}

#[test]
fn downmix_truncates_toward_zero() {
    // (-1 + 0) / 2 truncates to 0, not to -1.
    assert_eq!(downmix(&[-1, 0], 2), vec![0]);
}

#[test]
fn downmix_drops_partial_frame() {
    assert_eq!(downmix(&[2, 4, 6], 2), vec![3]);
}

#[test]
fn downmix_empty() {
    assert_eq!(downmix(&[], 2), Vec::<i16>::new());
}

#[test]
fn pcm_bytes_little_endian() {
    let out = pcm_to_bytes(&[0x1234, -2]);
    assert_eq!(out, vec![0x34, 0x12, 0xFE, 0xFF]);
}

#[test]
fn pcm_bytes_length() {
    assert_eq!(pcm_to_bytes(&[]).len(), 0);
    assert_eq!(pcm_to_bytes(&[1, 2, 3]).len(), 6);
}
