use sddc::stream::{decode_samples, AsyncReadWorker, StreamAction, StreamEvent};

/// One sample at a time.
fn derando_scalar(data: &[i16]) -> Vec<i16> {
    data.iter().map(|&d| if d & 1 == 1 { d ^ -2i16 } else { d }).collect()
}

#[test]
fn test_rando() {
    let mut data = vec![1, 2, 3, 4, 5, 6, 7, 8, 9, -1, -2, -3, 9, -1, -2, -3];
    let expected = derando_scalar(&data);

    AsyncReadWorker::derando(&mut data);

    assert_eq!(expected, data);
}

/// The vectorized path handles 8 samples at a time. Exercise every possible
/// remainder.
#[test]
fn test_rando_unaligned_lengths() {
    for len in 0..40usize {
        let mut data: Vec<i16> = (0..len).map(|i| (i as i16) * 7 - 13).collect();
        let expected = derando_scalar(&data);

        AsyncReadWorker::derando(&mut data);

        assert_eq!(expected, data, "mismatch at length {}", len);
    }
}

/// De-randomizing twice must return the original: the transform is an
/// involution, which is what makes it safe to apply in place.
#[test]
fn test_rando_is_involution() {
    let original: Vec<i16> = (-300..300).step_by(7).collect();
    let mut data = original.clone();

    AsyncReadWorker::derando(&mut data);
    AsyncReadWorker::derando(&mut data);

    assert_eq!(original, data);
}

#[test]
fn derando_of_known_samples() {
    let mut data: Vec<i16> =
        vec![0, 1, 2, 3, -1, -2, i16::MIN, i16::MAX, i16::MIN + 1, 0x1235, 0x1234];
    AsyncReadWorker::derando(&mut data);
    assert_eq!(
        data,
        vec![0, -1, 2, -3, 1, -2, i16::MIN, -32767, 32767, !0x1234, 0x1234]
    );
}

/// The bytes of samples in the memory of this host.
fn in_memory(samples: &[i16]) -> Vec<u8> {
    samples.iter().flat_map(|sample| sample.to_ne_bytes()).collect()
}

#[test]
fn samples_are_in_host_byte_order() {
    assert_eq!(decode_samples(&[]), Vec::<i16>::new());
    assert_eq!(decode_samples(&[7]), Vec::<i16>::new());
    let samples = vec![0x1234, 32767, -32768, -1, 0, 255, 256];
    assert_eq!(decode_samples(&in_memory(&samples)), samples);
    // the same on every host
    assert_eq!(decode_samples(&[0xff, 0xff, 0x12, 0x12, 0x80, 0x80]), vec![-1, 0x1212, -32640]);
    // an odd byte belongs to no sample
    assert_eq!(decode_samples(&[1, 1, 2]), vec![0x0101]);
}

#[test]
fn time_outs_change_no_callback() {
    let called = |pauses: usize| {
        let mut worker = AsyncReadWorker::new(true);
        let mut calls: Vec<Option<Vec<i16>>> = vec![];
        let bytes = in_memory(&[3, 4]);
        for round in 0..40 {
            for _ in 0..pauses {
                assert_eq!(worker.on_event(StreamEvent::TimedOut), StreamAction::Wait);
            }
            let event =
                if round < 3 { StreamEvent::Received(&bytes) } else { StreamEvent::Failed };
            match worker.on_event(event) {
                StreamAction::Deliver(samples) => calls.push(Some(samples)),
                StreamAction::Abort => {
                    calls.push(None);
                    break;
                }
                _ => {}
            }
        }
        calls
    };
    let samples = vec![-3, 4];
    assert_eq!(
        called(0),
        vec![Some(samples.clone()), Some(samples.clone()), Some(samples), None]
    );
    assert_eq!(called(0), called(1));
    assert_eq!(called(0), called(7));
}

#[test]
fn starting_a_reader() {
    let worker = AsyncReadWorker::new(false);
    assert_eq!(worker.start(true), StreamAction::Queue { count: 32, size: 16 * 1024 });
    assert_eq!(worker.start(false), StreamAction::Abort);
}

#[test]
fn a_time_out_is_not_the_end() {
    let mut worker = AsyncReadWorker::new(false);
    for _ in 0..1000 {
        assert_eq!(worker.on_event(StreamEvent::TimedOut), StreamAction::Wait);
    }
    assert_eq!(worker.on_event(StreamEvent::Cancelled), StreamAction::Stop);
}

#[test]
fn persistent_failures_end_the_stream() {
    let mut worker = AsyncReadWorker::new(false);
    for _ in 0..31 {
        assert_eq!(worker.on_event(StreamEvent::Failed), StreamAction::Resubmit);
        assert_eq!(worker.on_event(StreamEvent::TimedOut), StreamAction::Wait);
    }
    assert_eq!(worker.on_event(StreamEvent::Failed), StreamAction::Abort);
}

#[test]
fn a_good_transfer_clears_the_failures() {
    let mut worker = AsyncReadWorker::new(false);
    for _ in 0..10 {
        for _ in 0..31 {
            assert_eq!(worker.on_event(StreamEvent::Failed), StreamAction::Resubmit);
        }
        // even one without data
        assert_eq!(worker.on_event(StreamEvent::Received(&[])), StreamAction::Resubmit);
    }
}

#[test]
fn transfers_are_delivered() {
    let mut plain = AsyncReadWorker::new(false);
    let mut undoing = AsyncReadWorker::new(true);
    let mut bytes = in_memory(&[5, 6]);
    bytes.push(9);
    assert_eq!(plain.on_event(StreamEvent::Received(&bytes)), StreamAction::Deliver(vec![5, 6]));
    assert_eq!(
        undoing.on_event(StreamEvent::Received(&bytes)),
        StreamAction::Deliver(vec![-5, 6])
    );
    assert_eq!(plain.on_event(StreamEvent::Received(&[1])), StreamAction::Deliver(vec![]));
}
