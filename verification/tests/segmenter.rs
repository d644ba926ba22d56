use voice_assistant::audio::AudioChunk;
use voice_assistant::sample_buffer::SampleBuffer;
use voice_assistant::resample::resample_linear;
use voice_assistant::resample::resampled_count;
use voice_assistant::silence::trim_silence;
use voice_assistant::segmenter::Segmenter;
use voice_assistant::segmenter::DEFAULT_TARGET_RATE;
use voice_assistant::segmenter::DEFAULT_TICK_SECONDS;

#[test]
fn trim_cuts_silence_off_both_ends() {
    assert_eq!(trim_silence(&vec![0, 0, 5, 0, -7, 0], 1), vec![5, 0, -7]);
    assert_eq!(trim_silence(&vec![5, 0, -7], 1), vec![5, 0, -7]);
    assert_eq!(trim_silence(&vec![0, 9], 1), vec![9]);
    assert_eq!(trim_silence(&vec![9, 0], 1), vec![9]);
}

#[test]
fn trim_of_silence_is_empty() {
    assert_eq!(trim_silence(&vec![0, 1, -1, 0], 1), Vec::<i16>::new());
    assert_eq!(trim_silence(&Vec::new(), 0), Vec::<i16>::new());
    assert_eq!(trim_silence(&vec![0; 1000], 0), Vec::<i16>::new());
}

#[test]
fn trim_threshold_is_the_loudest_silence() {
    assert_eq!(trim_silence(&vec![100, 101, 100], 100), vec![101]);
    assert_eq!(trim_silence(&vec![-100, -101, -100], 100), vec![-101]);
    assert_eq!(trim_silence(&vec![i16::MIN, 0], 32767), vec![i16::MIN]);
    assert_eq!(trim_silence(&vec![i16::MAX, 0], 32767), Vec::<i16>::new());
    assert_eq!(trim_silence(&vec![i16::MIN, 0], u16::MAX), Vec::<i16>::new());
}

#[test]
fn resample_at_the_same_rate_changes_nothing() {
    let samples = vec![3, -4, 5, i16::MIN, i16::MAX];
    assert_eq!(resample_linear(&samples, 16000, 16000), Some(samples.clone()));
    assert_eq!(resample_linear(&samples, 1, 1), Some(samples));
}

#[test]
fn resample_up_interpolates() {
    assert_eq!(resample_linear(&vec![0, 100], 1, 2), Some(vec![0, 50, 100, 100]));
    assert_eq!(
        resample_linear(&vec![0, 30, -30], 1, 3),
        Some(vec![0, 10, 20, 30, 10, -10, -30, -30, -30])
    );
}

#[test]
fn resample_rounds_down() {
    assert_eq!(resample_linear(&vec![0, 3], 1, 2), Some(vec![0, 1, 3, 3]));
    assert_eq!(resample_linear(&vec![0, -3], 1, 2), Some(vec![0, -2, -3, -3]));
}

#[test]
fn resample_down_reads_between_samples() {
    assert_eq!(resample_linear(&vec![0, 10, 20, 30, 40, 50], 48000, 16000), Some(vec![0, 30]));
    assert_eq!(resample_linear(&vec![0, 10, 20, 30], 3, 2), Some(vec![0, 15, 30]));
    assert_eq!(resample_linear(&vec![7], 48000, 16000), Some(vec![7]));
}

#[test]
fn resample_keeps_the_extremes() {
    assert_eq!(
        resample_linear(&vec![i16::MIN, i16::MAX], 1, 2),
        Some(vec![i16::MIN, -1, i16::MAX, i16::MAX])
    );
    assert_eq!(
        resample_linear(&vec![i16::MAX, i16::MIN], 1, 2),
        Some(vec![i16::MAX, -1, i16::MIN, i16::MIN])
    );
}

#[test]
fn resample_of_nothing_is_nothing() {
    assert_eq!(resample_linear(&Vec::new(), 44100, 16000), Some(Vec::new()));
}

#[test]
fn resample_needs_both_rates() {
    assert_eq!(resample_linear(&vec![1, 2], 0, 16000), None);
    assert_eq!(resample_linear(&vec![1, 2], 16000, 0), None);
    assert_eq!(resample_linear(&Vec::new(), 0, 0), None);
}

#[test]
fn segmenter_needs_a_target_rate() {
    assert!(Segmenter::new(0, 10).is_none());
    let segmenter = Segmenter::new(16000, 10).unwrap();
    assert_eq!(segmenter.target_rate(), 16000);
    assert_eq!(segmenter.silence_threshold(), 10);
}

#[test]
fn defaults_are_five_seconds_and_sixteen_kilohertz() {
    assert_eq!(DEFAULT_TICK_SECONDS, 5);
    assert_eq!(DEFAULT_TARGET_RATE, 16000);
}

#[test]
fn cut_trims_and_resamples() {
    let mut buffer = SampleBuffer::new(16, 2).unwrap();
    let segmenter = Segmenter::new(4, 1).unwrap();
    assert!(segmenter.fits(&buffer));
    buffer.push(AudioChunk::mono(vec![0, 0, 10, 20, 0, 1], 2));
    let segment = segmenter.cut(&mut buffer).unwrap();
    assert_eq!(segment.samples, vec![10, 15, 20, 20]);
    assert_eq!(segment.sample_rate, 4);
    assert!(buffer.is_empty());
}

#[test]
fn cut_of_an_empty_buffer_gives_nothing() {
    let mut buffer = SampleBuffer::new(16, 48000).unwrap();
    let segmenter = Segmenter::new(16000, 0).unwrap();
    assert!(segmenter.fits(&buffer));
    assert_eq!(segmenter.cut(&mut buffer), None);
}

#[test]
fn three_seconds_of_silence_give_no_segment() {
    let mut buffer = SampleBuffer::new(5 * 48000, 48000).unwrap();
    let segmenter = Segmenter::new(DEFAULT_TARGET_RATE, 200).unwrap();
    assert!(segmenter.fits(&buffer));
    buffer.push(AudioChunk::mono(vec![0; 3 * 48000], 48000));
    assert_eq!(buffer.len(), 3 * 48000);
    assert_eq!(segmenter.cut(&mut buffer), None);
    assert!(buffer.is_empty());
}

#[test]
fn speech_between_silence_is_delivered_at_the_target_rate() {
    let mut buffer = SampleBuffer::new(48000, 48000).unwrap();
    let segmenter = Segmenter::new(16000, 200).unwrap();
    assert!(segmenter.fits(&buffer));
    let mut samples = vec![0i16; 300];
    samples.extend(vec![1000i16; 600]);
    samples.extend(vec![0i16; 300]);
    buffer.push(AudioChunk::mono(samples, 48000));
    let segment = segmenter.cut(&mut buffer).unwrap();
    assert_eq!(segment.sample_rate, 16000);
    assert_eq!(segment.samples, vec![1000i16; 200]);
}

#[test]
fn fits_holds_where_a_full_buffer_can_be_resampled() {
    let empty = SampleBuffer::new(0, 1).unwrap();
    assert!(Segmenter::new(u32::MAX, 0).unwrap().fits(&empty));
    assert!(Segmenter::new(1, 0).unwrap().fits(&empty));
    let second = SampleBuffer::new(48000, 48000).unwrap();
    assert!(Segmenter::new(16000, 0).unwrap().fits(&second));
    assert!(Segmenter::new(u32::MAX, 0).unwrap().fits(&second));
}

#[test]
fn resampled_count_keeps_the_duration_rounded_up() {
    assert_eq!(resampled_count(0, 48000, 16000), Some(0));
    assert_eq!(resampled_count(1, 48000, 16000), Some(1));
    assert_eq!(resampled_count(6, 48000, 16000), Some(2));
    assert_eq!(resampled_count(7, 48000, 16000), Some(3));
    assert_eq!(resampled_count(4, 3, 2), Some(3));
    assert_eq!(resampled_count(2, 1, 2), Some(4));
    assert_eq!(resampled_count(48000, 44100, 16000), Some(17415));
    assert_eq!(resampled_count(usize::MAX, 7, 7), Some(usize::MAX));
    assert_eq!(resampled_count(usize::MAX, u32::MAX, 1), Some(usize::MAX / (u32::MAX as usize)));
}

#[test]
fn resampled_count_has_no_result_without_a_rate() {
    assert_eq!(resampled_count(10, 0, 16000), None);
    assert_eq!(resampled_count(10, 16000, 0), None);
    assert_eq!(resampled_count(0, 0, 0), None);
}

#[test]
fn resampled_count_has_no_result_past_the_largest_vector() {
    assert_eq!(resampled_count(usize::MAX, 1, 2), None);
    assert_eq!(resampled_count(usize::MAX / 2 + 1, 1, 2), None);
    assert_eq!(resampled_count(usize::MAX / 2, 1, 2), Some(usize::MAX - 1));
    assert_eq!(resampled_count(usize::MAX, 2, 3), None);
    assert_eq!(resampled_count(usize::MAX, 1, u32::MAX), None);
}
