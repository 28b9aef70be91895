use dicta_core::resample::resample;

#[test]
fn identity_at_24k() {
    let input: Vec<i16> = vec![5, -3, 0, 32767, -32768];
    assert_eq!(resample(&input, 24000), input);
}

#[test]
fn identity_at_24k_empty() {
    let input: Vec<i16> = vec![];
    assert_eq!(resample(&input, 24000), input);
}

#[test]
fn halves_at_48k_even() {
    let input: Vec<i16> = vec![10, 20, 30, 40, 50, 60];
    assert_eq!(resample(&input, 48000), vec![10, 30, 50]);
}

#[test]
fn halves_at_48k_odd() {
    let input: Vec<i16> = vec![10, 20, 30, 40, 50, 60, 70];
    let out = resample(&input, 48000);
    assert_eq!(out.len(), input.len() / 2);
    assert_eq!(out, vec![10, 30, 50]);
}

#[test]
fn decimation_at_96k() {
    let input: Vec<i16> = vec![1, 2, 3, 4, 5, 6, 7, 8, 9];
    assert_eq!(resample(&input, 96000), vec![1, 5]);
}

#[test]
fn sixteen_k_even_pairs() {
    let input: Vec<i16> = vec![0, 300, 600, 900];
    let out = resample(&input, 16000);
    assert_eq!(out.len(), input.len() * 3 / 2);
    assert_eq!(out, vec![0, 100, 300, 600, 700, 900]);
}

#[test]
fn sixteen_k_odd_tail() {
    let input: Vec<i16> = vec![0, 300, 600];
    let out = resample(&input, 16000);
    assert_eq!(out.len(), 3 * input.len() / 2);
    assert_eq!(out, vec![0, 100, 300, 600]);
}

#[test]
fn sixteen_k_interpolation_truncates_toward_zero() {
    // (2 * -1 + 0) / 3 is -2/3, which integer division truncates to 0.
    let input: Vec<i16> = vec![-1, 0];
    assert_eq!(resample(&input, 16000), vec![-1, 0, 0]);
}

#[test]
fn sixteen_k_empty() {
    let input: Vec<i16> = vec![];
    assert_eq!(resample(&input, 16000), Vec::<i16>::new());
}

#[test]
fn linear_interpolation_at_44100() {
    let input: Vec<i16> = vec![0, 100, 200, 300, 400];
    let out = resample(&input, 44100);
    // floor(5 * 24000 / 44100) = 2 output samples; the second sits at
    // source position 44100/24000 = 1 + 20100/24000.
    assert_eq!(out.len(), 2);
    assert_eq!(out[0], 0);
    assert_eq!(out[1], ((100i64 * 3900 + 200i64 * 20100) / 24000) as i16);
}

#[test]
fn linear_upsample_at_8000() {
    let input: Vec<i16> = vec![0, 300];
    let out = resample(&input, 8000);
    assert_eq!(out, vec![0, 100, 200, 300, 300, 300]);
}

#[test]
fn linear_single_sample() {
    let input: Vec<i16> = vec![1234];
    // floor(1 * 24000 / 11025) = 2; both outputs have no right neighbour.
    assert_eq!(resample(&input, 11025), vec![1234, 1234]);
}
