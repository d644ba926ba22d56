use voice_assistant::audio::AudioChunk;
use voice_assistant::sample_buffer::SampleBuffer;

fn buffer(capacity: usize) -> SampleBuffer {
    SampleBuffer::new(capacity, 16000).unwrap()
}

#[test]
fn new_buffer_is_empty() {
    let mut b = buffer(4);
    assert_eq!(b.len(), 0);
    assert!(b.is_empty());
    assert_eq!(b.capacity(), 4);
    assert_eq!(b.sample_rate(), 16000);
    assert_eq!(b.drain_all().samples, Vec::<i16>::new());
}

#[test]
fn zero_rate_declares_nothing() {
    assert!(SampleBuffer::new(4, 0).is_none());
    assert!(SampleBuffer::new(0, 1).is_some());
}

#[test]
fn push_below_capacity_keeps_everything() {
    let mut b = buffer(5);
    b.push(AudioChunk::mono(vec![1, 2], 16000));
    b.push(AudioChunk::mono(vec![3], 16000));
    assert_eq!(b.len(), 3);
    assert!(!b.is_empty());
    let segment = b.drain_all();
    assert_eq!(segment.samples, vec![1, 2, 3]);
    assert_eq!(segment.sample_rate, 16000);
}

#[test]
fn overflow_keeps_the_newest_samples_in_order() {
    let mut b = buffer(4);
    b.push(AudioChunk::mono(vec![1, 2, 3], 16000));
    b.push(AudioChunk::mono(vec![4, 5, 6], 16000));
    b.push(AudioChunk::mono(vec![7], 16000));
    assert_eq!(b.len(), 4);
    assert_eq!(b.drain_all().samples, vec![4, 5, 6, 7]);
}

#[test]
fn one_chunk_longer_than_the_buffer_keeps_its_tail() {
    let mut b = buffer(3);
    b.push(AudioChunk::mono(vec![9, 9], 16000));
    b.push(AudioChunk::mono(vec![1, 2, 3, 4, 5, 6, 7, 8], 16000));
    assert_eq!(b.drain_all().samples, vec![6, 7, 8]);
}

#[test]
fn drained_segment_is_never_longer_than_the_buffer() {
    let mut b = buffer(3);
    b.push(AudioChunk::mono(vec![1; 10], 16000));
    assert_eq!(b.drain_all().len(), 3);
    b.push(AudioChunk::mono(vec![2; 2], 16000));
    assert_eq!(b.drain_all().len(), 2);
}

#[test]
fn exactly_full_evicts_nothing() {
    let mut b = buffer(3);
    b.push(AudioChunk::mono(vec![1, 2, 3], 16000));
    assert_eq!(b.len(), 3);
    assert_eq!(b.drain_all().samples, vec![1, 2, 3]);
}

#[test]
fn second_drain_is_empty() {
    let mut b = buffer(4);
    b.push(AudioChunk::mono(vec![1, 2, 3, 4, 5], 16000));
    assert_eq!(b.drain_all().samples, vec![2, 3, 4, 5]);
    let again = b.drain_all();
    assert!(again.is_empty());
    assert_eq!(again.len(), 0);
    assert_eq!(again.sample_rate, 16000);
    assert!(b.is_empty());
}

#[test]
fn buffer_is_reused_after_a_drain() {
    let mut b = buffer(3);
    b.push(AudioChunk::mono(vec![1, 2, 3, 4], 16000));
    assert_eq!(b.drain_all().samples, vec![2, 3, 4]);
    b.push(AudioChunk::mono(vec![5, 6], 16000));
    b.push(AudioChunk::mono(vec![7, 8], 16000));
    assert_eq!(b.drain_all().samples, vec![6, 7, 8]);
    assert_eq!(b.capacity(), 3);
}

#[test]
fn empty_chunk_changes_nothing() {
    let mut b = buffer(3);
    b.push(AudioChunk::mono(vec![1, 2], 16000));
    b.push(AudioChunk::mono(Vec::new(), 16000));
    assert_eq!(b.drain_all().samples, vec![1, 2]);
}

#[test]
fn buffer_without_room_keeps_nothing() {
    let mut b = buffer(0);
    b.push(AudioChunk::mono(vec![1, 2, 3], 16000));
    assert_eq!(b.len(), 0);
    assert!(b.drain_all().is_empty());
}

#[test]
fn many_wraps_keep_the_order() {
    let mut b = buffer(7);
    let mut next: i16 = 0;
    for round in 0..50usize {
        let mut chunk = Vec::new();
        for _ in 0..(round % 5 + 1) {
            chunk.push(next);
            next += 1;
        }
        b.push(AudioChunk::mono(chunk, 16000));
        assert!(b.len() <= 7);
    }
    let expected: Vec<i16> = ((next - 7)..next).collect();
    assert_eq!(b.drain_all().samples, expected);
}

#[test]
fn mono_chunk_is_tagged() {
    let chunk = AudioChunk::mono(vec![1, -1], 44100);
    assert_eq!(chunk.samples, vec![1, -1]);
    assert_eq!(chunk.sample_rate, 44100);
    assert_eq!(chunk.channels, 1);
}
