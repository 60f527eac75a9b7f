use vibeplayer::relay::{SampleBuffer, SampleRelay, FLUSH_INTERVAL, MAX_BUFFER_SAMPLES};

fn average(a: f32, b: f32) -> f32 {
    (a + b) * 0.5
}

fn contents(buffer: &SampleBuffer<f32>) -> Vec<f32> {
    buffer.latest(buffer.len()).unwrap()
}

#[test]
fn constants() {
    assert_eq!(FLUSH_INTERVAL, 512);
    assert_eq!(MAX_BUFFER_SAMPLES, 16384);
}

#[test]
fn new_buffer_and_relay_are_empty() {
    let buffer: SampleBuffer<f32> = SampleBuffer::new();
    assert_eq!(buffer.len(), 0);
    let relay: SampleRelay<f32> = SampleRelay::new(2);
    assert_eq!(relay.pending(), 0);
    assert_eq!(relay.channels(), 2);
}

#[test]
fn push_reports_when_the_batch_is_full() {
    let mut relay: SampleRelay<f32> = SampleRelay::new(1);
    for i in 0..511 {
        assert!(!relay.push(i as f32));
    }
    assert_eq!(relay.pending(), 511);
    assert!(relay.push(511.0));
    assert_eq!(relay.pending(), 512);
    assert!(relay.push(512.0));
}

#[test]
fn stereo_flush_averages_pairs() {
    let mut relay: SampleRelay<f32> = SampleRelay::new(2);
    let mut buffer: SampleBuffer<f32> = SampleBuffer::new();
    for s in [1.0, 3.0, -2.0, 2.0, 0.5, 0.25] {
        relay.push(s);
    }
    relay.flush(&mut buffer, average);
    assert_eq!(contents(&buffer), vec![2.0, 0.0, 0.375]);
    assert_eq!(relay.pending(), 0);
}

#[test]
fn stereo_flush_keeps_an_odd_last_sample() {
    let mut relay: SampleRelay<f32> = SampleRelay::new(2);
    let mut buffer: SampleBuffer<f32> = SampleBuffer::new();
    for s in [1.0, 3.0, 7.0] {
        relay.push(s);
    }
    relay.flush(&mut buffer, average);
    assert_eq!(contents(&buffer), vec![2.0, 7.0]);
    relay.push(9.0);
    relay.flush(&mut buffer, average);
    assert_eq!(contents(&buffer), vec![2.0, 7.0, 9.0]);
}

#[test]
fn other_channel_counts_pass_samples_through() {
    for channels in [0u16, 1, 3, 6] {
        let mut relay: SampleRelay<f32> = SampleRelay::new(channels);
        let mut buffer: SampleBuffer<f32> = SampleBuffer::new();
        for s in [1.0, 3.0, 7.0] {
            relay.push(s);
        }
        relay.flush(&mut buffer, average);
        assert_eq!(contents(&buffer), vec![1.0, 3.0, 7.0]);
    }
}

#[test]
fn flush_appends_behind_what_is_there() {
    let mut relay: SampleRelay<i32> = SampleRelay::new(1);
    let mut buffer: SampleBuffer<i32> = SampleBuffer::new();
    buffer.push(10);
    buffer.push(20);
    relay.push(30);
    relay.flush(&mut buffer, |a, b| a + b);
    assert_eq!(buffer.latest(3), Some(vec![10, 20, 30]));
}

#[test]
fn empty_flush_changes_nothing() {
    let mut relay: SampleRelay<i32> = SampleRelay::new(2);
    let mut buffer: SampleBuffer<i32> = SampleBuffer::new();
    buffer.push(1);
    relay.flush(&mut buffer, |a, b| a + b);
    assert_eq!(buffer.latest(1), Some(vec![1]));
    assert_eq!(buffer.len(), 1);
}

#[test]
fn buffer_keeps_the_newest_samples_up_to_the_cap() {
    let mut relay: SampleRelay<u32> = SampleRelay::new(1);
    let mut buffer: SampleBuffer<u32> = SampleBuffer::new();
    let mut next = 0u32;
    for _ in 0..40 {
        loop {
            let due = relay.push(next);
            next += 1;
            if due {
                break;
            }
        }
        relay.flush(&mut buffer, |a, _| a);
        assert!(buffer.len() <= MAX_BUFFER_SAMPLES);
    }
    // 40 batches of 512 are 20480 samples; the oldest 4096 are gone
    assert_eq!(next, 20_480);
    assert_eq!(buffer.len(), 16_384);
    let all = buffer.latest(16_384).unwrap();
    assert_eq!(all[0], 4_096);
    assert_eq!(all[16_383], 20_479);
    for (i, s) in all.iter().enumerate() {
        assert_eq!(*s, 4_096 + i as u32);
    }
}

#[test]
fn stereo_batch_of_512_gives_256_mono_samples() {
    let mut relay: SampleRelay<f32> = SampleRelay::new(2);
    let mut buffer: SampleBuffer<f32> = SampleBuffer::new();
    for i in 0..512 {
        relay.push(if i % 2 == 0 { 1.0 } else { 0.0 });
    }
    relay.flush(&mut buffer, average);
    assert_eq!(buffer.len(), 256);
    assert!(contents(&buffer).iter().all(|s| *s == 0.5));
}

#[test]
fn trim_drops_the_oldest() {
    let mut buffer: SampleBuffer<u8> = SampleBuffer::new();
    for i in 0..10 {
        buffer.push(i);
    }
    buffer.trim(20);
    assert_eq!(buffer.len(), 10);
    buffer.trim(4);
    assert_eq!(buffer.latest(4), Some(vec![6, 7, 8, 9]));
    assert_eq!(buffer.len(), 4);
    buffer.trim(0);
    assert_eq!(buffer.len(), 0);
}

#[test]
fn latest_needs_enough_samples() {
    let mut buffer: SampleBuffer<u8> = SampleBuffer::new();
    assert_eq!(buffer.latest(1), None);
    assert_eq!(buffer.latest(0), Some(vec![]));
    for i in 0..5 {
        buffer.push(i);
    }
    assert_eq!(buffer.latest(6), None);
    assert_eq!(buffer.latest(5), Some(vec![0, 1, 2, 3, 4]));
    assert_eq!(buffer.latest(2), Some(vec![3, 4]));
}

#[test]
fn seek_clears_batch_and_buffer() {
    let mut relay: SampleRelay<f32> = SampleRelay::new(2);
    let mut buffer: SampleBuffer<f32> = SampleBuffer::new();
    buffer.push(1.0);
    relay.push(2.0);
    relay.reset(&mut buffer);
    assert_eq!(buffer.len(), 0);
    assert_eq!(relay.pending(), 0);
    assert_eq!(relay.channels(), 2);
}

#[test]
fn discard_drops_the_batch_only() {
    let mut relay: SampleRelay<f32> = SampleRelay::new(2);
    let mut buffer: SampleBuffer<f32> = SampleBuffer::new();
    buffer.push(1.0);
    relay.push(2.0);
    relay.discard();
    assert_eq!(relay.pending(), 0);
    assert_eq!(buffer.len(), 1);
    buffer.clear();
    assert_eq!(buffer.len(), 0);
}
