use glazer::ring::{consumer_step, producer_step, AudioRing, Cursors, Drain, RingConfigError};
use glazer::shared::SharedRing;

#[test]
fn shared_config_errors() {
    assert_eq!(SharedRing::new(8, 0).err().map(|_| ()), Some(()));
    assert!(matches!(SharedRing::new(8, 0), Err(RingConfigError::NoChannels)));
    assert!(matches!(SharedRing::new(10, 4), Err(RingConfigError::CapacityNotWholeFrames)));
    let r = SharedRing::new(12, 3).unwrap();
    assert_eq!(r.capacity_samples(), 12);
    assert_eq!(r.channel_count(), 3);
    assert_eq!(r.cursors(), Some(Cursors { write: 0, read: 0 }));
    assert_eq!(r.available_to_write(), 9);
}

#[test]
fn shared_produce_then_consume() {
    let r = SharedRing::new(8, 2).unwrap();
    assert_eq!(r.fill_request(100), 6);
    assert_eq!(r.produce(&[1, 2, 3, 4, 5]), 4);
    assert_eq!(r.cursors(), Some(Cursors { write: 4, read: 0 }));
    let mut out = [7i16; 8];
    let d = r.consume(3, &mut out);
    assert_eq!(d, Drain { samples_read: 4, samples_silenced: 2 });
    assert_eq!(out, [1, 2, 3, 4, 0, 0, 7, 7]);
    assert_eq!(r.underrun_count(), 1);
    assert_eq!(r.cursors(), Some(Cursors { write: 4, read: 4 }));
    // The next write wraps round the end of the storage.
    assert_eq!(r.produce(&[8, 9, 10, 11, 12, 13]), 6);
    assert_eq!(r.cursors(), Some(Cursors { write: 2, read: 4 }));
    let mut out = [0i16; 6];
    assert_eq!(r.consume(3, &mut out).samples_read, 6);
    assert_eq!(out, [8, 9, 10, 11, 12, 13]);
    assert_eq!(r.available_to_read(), 0);
}

#[test]
fn shared_and_exclusive_rings_agree() {
    let capacity = 40;
    let channels = 4;
    let shared = SharedRing::new(capacity, channels).unwrap();
    let mut exclusive = AudioRing::new(capacity, channels).unwrap();
    let mut seed: u32 = 7;
    let mut counter: i16 = 0;
    let mut a = vec![0i16; capacity];
    let mut b = vec![0i16; capacity];
    for _ in 0..3000 {
        seed = seed.wrapping_mul(22695477).wrapping_add(1);
        let amount = ((seed >> 10) % 24) as usize;
        if seed & 0x100 == 0 {
            let samples: Vec<i16> = (0..amount).map(|i| counter.wrapping_add(i as i16)).collect();
            let n = shared.produce(&samples);
            assert_eq!(exclusive.produce(&samples), n);
            counter = counter.wrapping_add(n as i16);
        } else {
            let frames = amount / channels;
            let d1 = shared.consume(frames, &mut a);
            let d2 = exclusive.consume(frames, &mut b);
            assert_eq!(d1, d2);
            assert_eq!(a, b);
        }
        assert_eq!(shared.available_to_read(), exclusive.available_to_read());
        assert_eq!(shared.available_to_write(), exclusive.available_to_write());
        assert_eq!(shared.underrun_count(), exclusive.underrun_count());
    }
}

#[test]
fn step_functions_from_a_snapshot() {
    // Write ahead of read: 2 readable, 4 writable of capacity 8.
    let c = Cursors { write: 6, read: 4 };
    assert_eq!(producer_step(c, 3, 8, 2), (2, 0));
    assert_eq!(producer_step(c, 100, 8, 2), (4, 2));
    assert_eq!(producer_step(c, 0, 8, 2), (0, 6));
    assert_eq!(consumer_step(c, 6, 8, 2), (2, 6));
    assert_eq!(consumer_step(c, 0, 8, 2), (0, 4));
    // Write wrapped behind read.
    let c = Cursors { write: 2, read: 6 };
    assert_eq!(consumer_step(c, 2, 8, 2), (2, 0));
    assert_eq!(consumer_step(c, 8, 8, 2), (4, 2));
    assert_eq!(producer_step(c, 8, 8, 2), (2, 4));
}

#[test]
fn shared_steps_on_a_given_snapshot() {
    let r = SharedRing::new(8, 2).unwrap();
    let start = r.cursors().unwrap();
    assert_eq!(r.produce_from(start, &[1, 2, 3, 4, 5, 6, 7, 8]), 6);
    assert_eq!(r.cursors(), Some(Cursors { write: 6, read: 0 }));
    // A stale snapshot from before the publish still reads only what it saw.
    let mut out = [9i16; 4];
    let d = r.consume_from(start, 2, &mut out);
    assert_eq!(d, Drain { samples_read: 0, samples_silenced: 4 });
    assert_eq!(out, [0, 0, 0, 0]);
    assert_eq!(r.underrun_count(), 1);
    let now = r.cursors().unwrap();
    let mut out = [9i16; 6];
    let d = r.consume_from(now, 2, &mut out);
    assert_eq!(d, Drain { samples_read: 4, samples_silenced: 0 });
    assert_eq!(out, [1, 2, 3, 4, 9, 9]);
    assert_eq!(r.cursors(), Some(Cursors { write: 6, read: 4 }));
}
