use glazer::packed_index::{pack, read_half, with_read_half, with_write_half, write_half};
use glazer::ring::{
    readable_between, writable_between, write_count, AudioRing, Drain, RingConfigError, MAX_CAPACITY,
};

fn ring(capacity: usize, channels: usize) -> AudioRing {
    AudioRing::new(capacity, channels).unwrap()
}

#[test]
fn packed_halves_are_independent() {
    let p = pack(7, 3);
    assert_eq!(p, (7u64 << 32) | 3);
    assert_eq!(write_half(p), 7);
    assert_eq!(read_half(p), 3);
    let q = with_write_half(p, 100);
    assert_eq!(write_half(q), 100);
    assert_eq!(read_half(q), 3);
    let r = with_read_half(q, 0xffff_ffff);
    assert_eq!(write_half(r), 100);
    assert_eq!(read_half(r), 0xffff_ffff);
}

#[test]
fn config_errors() {
    assert_eq!(AudioRing::new(8, 0).err(), Some(RingConfigError::NoChannels));
    assert_eq!(AudioRing::new(0, 2).err(), Some(RingConfigError::CapacityNotWholeFrames));
    assert_eq!(AudioRing::new(9, 2).err(), Some(RingConfigError::CapacityNotWholeFrames));
    assert_eq!(AudioRing::new(MAX_CAPACITY + 1, 1).err(), Some(RingConfigError::CapacityTooLarge));
    let r = ring(8, 2);
    assert_eq!(r.capacity_samples(), 8);
    assert_eq!(r.channel_count(), 2);
    assert_eq!(r.available_to_read(), 0);
    assert_eq!(r.available_to_write(), 6);
}

#[test]
fn produce_clamps_to_free_space_and_whole_frames() {
    let mut r = ring(8, 2);
    // Three samples offered: only one whole frame goes in.
    assert_eq!(r.produce(&[1, 2, 3]), 2);
    assert_eq!(r.available_to_read(), 2);
    assert_eq!(r.available_to_write(), 4);
    // Ten offered, four fit: one frame stays in reserve.
    assert_eq!(r.produce(&[10, 11, 12, 13, 14, 15, 16, 17, 18, 19]), 4);
    assert_eq!(r.available_to_read(), 6);
    assert_eq!(r.available_to_write(), 0);
    assert_eq!(r.produce(&[5, 5]), 0);
}

#[test]
fn fill_request_clamps() {
    let mut r = ring(8, 2);
    assert_eq!(r.fill_request(100), 6);
    assert_eq!(r.fill_request(5), 4);
    r.produce(&[1, 2]);
    assert_eq!(r.fill_request(100), 4);
    assert_eq!(r.fill_request(0), 0);
}

#[test]
fn consume_reads_in_order_and_wraps() {
    let mut r = ring(8, 2);
    r.produce(&[1, 2, 3, 4, 5, 6]);
    let mut out = [0i16; 4];
    let d = r.consume(2, &mut out);
    assert_eq!(d, Drain { samples_read: 4, samples_silenced: 0 });
    assert!(!d.is_underrun());
    assert_eq!(out, [1, 2, 3, 4]);
    // Writing now wraps past the end of the storage.
    assert_eq!(r.produce(&[7, 8, 9, 10]), 4);
    let mut out = [0i16; 6];
    let d = r.consume(3, &mut out);
    assert_eq!(d.samples_read, 6);
    assert_eq!(out, [5, 6, 7, 8, 9, 10]);
    assert_eq!(r.available_to_read(), 0);
    assert_eq!(r.underrun_count(), 0);
}

#[test]
fn underrun_fills_trailing_silence_once() {
    let mut r = ring(16, 2);
    r.produce(&[1, 2, 3, 4]);
    let mut out = [9i16; 12];
    // Five frames asked (ten samples), two frames available.
    let d = r.consume(5, &mut out);
    assert_eq!(d.samples_read, 4);
    assert_eq!(d.samples_silenced, 6);
    assert!(d.is_underrun());
    assert_eq!(out, [1, 2, 3, 4, 0, 0, 0, 0, 0, 0, 9, 9]);
    assert_eq!(r.underrun_count(), 1);
    // An empty ring silences everything and records one more.
    let mut out = [9i16; 4];
    let d = r.consume(2, &mut out);
    assert_eq!(d, Drain { samples_read: 0, samples_silenced: 4 });
    assert_eq!(out, [0, 0, 0, 0]);
    assert_eq!(r.underrun_count(), 2);
    // A drain that is fully served records nothing.
    r.produce(&[5, 6]);
    let mut out = [0i16; 2];
    r.consume(1, &mut out);
    assert_eq!(r.underrun_count(), 2);
}

#[test]
fn zero_frame_drain_changes_nothing() {
    let mut r = ring(8, 2);
    r.produce(&[1, 2]);
    let mut out: [i16; 0] = [];
    let d = r.consume(0, &mut out);
    assert_eq!(d, Drain { samples_read: 0, samples_silenced: 0 });
    assert_eq!(r.available_to_read(), 2);
    assert_eq!(r.underrun_count(), 0);
}

#[test]
fn readable_plus_writable_is_capacity_less_one_frame() {
    let capacity = 24;
    let channels = 3;
    let mut r = ring(capacity, channels);
    let mut seed: u32 = 12345;
    let mut out = vec![0i16; capacity];
    for step in 0..2000 {
        seed = seed.wrapping_mul(1103515245).wrapping_add(12345);
        let amount = ((seed >> 16) % 30) as usize;
        if step % 2 == 0 {
            let samples = vec![1i16; amount];
            r.produce(&samples);
        } else {
            let frames = amount / channels;
            r.consume(frames.min(capacity / channels), &mut out);
        }
        assert_eq!(r.available_to_read() + r.available_to_write(), capacity - channels);
    }
}

#[test]
fn consumer_sees_generations_in_order() {
    let capacity = 32;
    let channels = 2;
    let mut r = ring(capacity, channels);
    let mut next_written: i16 = 0;
    let mut next_expected: i16 = 0;
    let mut seed: u32 = 99;
    let mut out = vec![0i16; capacity];
    for _ in 0..5000 {
        seed = seed.wrapping_mul(1664525).wrapping_add(1013904223);
        let producer_first = seed & 1 == 0;
        let offer = ((seed >> 8) % 20) as usize;
        let frames = ((seed >> 16) % 12) as usize;
        let mut produce = |r: &mut AudioRing| {
            let samples: Vec<i16> =
                (0..offer).map(|i| next_written.wrapping_add(i as i16)).collect();
            let n = r.produce(&samples);
            next_written = next_written.wrapping_add(n as i16);
        };
        if producer_first {
            produce(&mut r);
        }
        let d = r.consume(frames, &mut out);
        for &s in &out[..d.samples_read] {
            assert_eq!(s, next_expected);
            next_expected = next_expected.wrapping_add(1);
        }
        for &s in &out[d.samples_read..frames * channels] {
            assert_eq!(s, 0);
        }
        if !producer_first {
            produce(&mut r);
        }
    }
    assert!(next_expected > 0 || next_written < 0);
}

#[test]
fn steady_rate_does_not_leak() {
    let capacity = 4096;
    let channels = 2;
    let rate_frames = 367;
    let mut r = ring(capacity, channels);
    let samples = vec![3i16; rate_frames * channels];
    let mut out = vec![0i16; rate_frames * channels];
    let mut settled = None;
    for tick in 0..10_000 {
        r.produce(&samples);
        r.consume(rate_frames, &mut out);
        let free = r.available_to_write();
        match settled {
            None => settled = Some(free),
            Some(s) => assert_eq!(free, s, "tick {tick}"),
        }
    }
    assert_eq!(settled, Some(capacity - channels));
    assert_eq!(r.underrun_count(), 0);
}

#[test]
fn steady_rate_from_a_full_ring_settles_after_one_tick() {
    let capacity = 64;
    let channels = 2;
    let mut r = ring(capacity, channels);
    r.produce(&vec![1i16; 62]);
    assert_eq!(r.available_to_write(), 0);
    let rate = 10;
    let samples = vec![2i16; rate];
    let mut out = vec![0i16; rate];
    r.produce(&samples);
    r.consume(rate / channels, &mut out);
    let after_first = r.available_to_write();
    assert_eq!(after_first, 10);
    for _ in 0..10_000 {
        r.produce(&samples);
        r.consume(rate / channels, &mut out);
        assert_eq!(r.available_to_write(), after_first);
    }
}

#[test]
fn drain_between_reserve_and_publish_uses_published_data() {
    let mut r = ring(8, 2);
    r.produce(&[1, 2, 3, 4]);
    // A frame tick reads how much it may write...
    let reserved = r.fill_request(100);
    assert_eq!(reserved, 2);
    // ...the audio callback drains meanwhile, seeing only published samples...
    let mut out = [0i16; 6];
    let d = r.consume(3, &mut out);
    assert_eq!(d.samples_read, 4);
    assert_eq!(out, [1, 2, 3, 4, 0, 0]);
    // ...and the tick's publish still goes through in full.
    assert_eq!(r.produce(&[5, 6]), reserved);
    let mut out = [0i16; 2];
    r.consume(1, &mut out);
    assert_eq!(out, [5, 6]);
}

#[test]
fn cursor_counts_from_the_formulas() {
    // Write ahead of read.
    assert_eq!(readable_between(6, 2, 8, 2), 4);
    assert_eq!(writable_between(6, 2, 8, 2), 2);
    // Write wrapped behind read.
    assert_eq!(readable_between(2, 6, 8, 2), 4);
    assert_eq!(writable_between(2, 6, 8, 2), 2);
    // Equal cursors mean empty, never full.
    assert_eq!(readable_between(4, 4, 8, 2), 0);
    assert_eq!(writable_between(4, 4, 8, 2), 6);
    // Just behind the read cursor: full.
    assert_eq!(readable_between(2, 4, 8, 2), 6);
    assert_eq!(writable_between(2, 4, 8, 2), 0);
    assert_eq!(write_count(7, 6, 2), 6);
    assert_eq!(write_count(5, 6, 2), 4);
    assert_eq!(write_count(5, 6, 3), 3);
    assert_eq!(write_count(0, 6, 2), 0);
}
