use playback::config::NegotiatedParameters;
use playback::errors::Error;
use playback::session::{
    feed_from_shared, PlaybackSession, PollOutcome, Step, WriteOutcome,
};
use playback::shared::SharedSignalBuffer;

fn small_params() -> NegotiatedParameters {
    NegotiatedParameters { buffer_size: 8, period_size: 4, sample_rate: 44_100, channels: 1 }
}

#[test]
fn capacity_is_frames_times_channels() {
    let params = NegotiatedParameters {
        buffer_size: 4,
        period_size: 2,
        sample_rate: 44_100,
        channels: 2,
    };
    let s: PlaybackSession<f32> = PlaybackSession::new(&params);
    assert_eq!(s.capacity(), 8);
}

#[test]
fn prefill_requests_exactly_the_capacity_once() {
    let mut s: PlaybackSession<f32> = PlaybackSession::new(&small_params());
    let mut callback_invocations = 0u32;

    // Before the first hardware write the session asks exactly once, for
    // exactly the whole capacity.
    match s.next_step() {
        Step::Fill(wanted) => {
            assert_eq!(wanted, s.capacity());
            s.supply(&vec![0.0f32; wanted]);
            callback_invocations += 1;
        }
        other => panic!("expected a fill request before the first write, got {:?}", other),
    }
    assert_eq!(callback_invocations, 1);
    assert!(matches!(s.next_step(), Step::Write));
}

#[test]
fn would_block_leaves_buffer_untouched_and_asks_for_nothing() {
    let mut s: PlaybackSession<f32> = PlaybackSession::new(&small_params());
    let wanted = match s.next_step() {
        Step::Fill(w) => w,
        other => panic!("unexpected step {:?}", other),
    };
    s.supply(&vec![0.5f32; wanted]);
    let before: Vec<f32> = s.contents().clone();

    s.on_write(WriteOutcome::WouldBlock);
    // Nothing discarded, no callback owed: the loop waits for readiness.
    assert_eq!(s.contents(), &before);
    assert!(matches!(s.next_step(), Step::Wait));

    s.on_poll(PollOutcome::Ready);
    // After a successful wait the same write is retried, buffer unchanged.
    assert_eq!(s.contents(), &before);
    assert!(matches!(s.next_step(), Step::Write));
}

#[test]
fn successful_write_drains_the_oldest_samples() {
    let mut s: PlaybackSession<f32> = PlaybackSession::new(&small_params());
    let wanted = match s.next_step() {
        Step::Fill(w) => w,
        other => panic!("unexpected step {:?}", other),
    };
    let samples: Vec<f32> = (0..wanted).map(|i| i as f32).collect();
    s.supply(&samples);
    assert_eq!(s.writable_frames(), 8);

    s.on_write(WriteOutcome::Written(3));
    // The three oldest samples are gone; the rest keep their order; the
    // producer owes exactly what was consumed.
    assert_eq!(s.contents(), &vec![3.0, 4.0, 5.0, 6.0, 7.0]);
    match s.next_step() {
        Step::Fill(w) => assert_eq!(w, 3),
        other => panic!("unexpected step {:?}", other),
    }
}

#[test]
fn write_failure_halts_with_the_driver_code() {
    let mut s: PlaybackSession<f32> = PlaybackSession::new(&small_params());
    if let Step::Fill(w) = s.next_step() {
        s.supply(&vec![0.0f32; w]);
    }
    s.on_write(WriteOutcome::Failed(-32));
    match s.next_step() {
        Step::Halt(e) => assert_eq!(e, Error::RuntimeWriteError(-32)),
        other => panic!("unexpected step {:?}", other),
    }
    assert_eq!(s.fault(), Some(Error::RuntimeWriteError(-32)));
}

#[test]
fn poll_failure_halts_with_a_poll_error() {
    let mut s: PlaybackSession<f32> = PlaybackSession::new(&small_params());
    if let Step::Fill(w) = s.next_step() {
        s.supply(&vec![0.0f32; w]);
    }
    s.on_write(WriteOutcome::WouldBlock);
    s.on_poll(PollOutcome::Failed(-77));
    match s.next_step() {
        Step::Halt(e) => assert_eq!(e, Error::PollError(-77)),
        other => panic!("unexpected step {:?}", other),
    }
}

#[test]
fn partial_frames_stay_queued_with_multiple_channels() {
    let params = NegotiatedParameters {
        buffer_size: 4,
        period_size: 2,
        sample_rate: 48_000,
        channels: 2,
    };
    let mut s: PlaybackSession<f32> = PlaybackSession::new(&params);
    if let Step::Fill(_) = s.next_step() {
        s.supply(&vec![0.1, 0.2, 0.3, 0.4, 0.5, 0.6]);
    }
    // Six samples interleaved over two channels are three whole frames.
    assert_eq!(s.writable_frames(), 3);
    s.on_write(WriteOutcome::Written(2));
    // Two frames = four samples leave the front.
    assert_eq!(s.contents(), &vec![0.5, 0.6]);
    assert_eq!(s.writable_frames(), 1);
}

#[test]
fn full_producer_runs_ten_thousand_cycles_within_capacity() {
    // A producer that always returns exactly `wanted` samples keeps the
    // device fed: the driver always has a full buffer offered, no wait is
    // ever needed, and the capacity bound holds throughout.
    let mut s: PlaybackSession<f32> = PlaybackSession::new(&small_params());
    let mut next_value = 0u64;
    let mut writes = 0u32;
    let mut waits = 0u32;
    while writes < 10_000 {
        match s.next_step() {
            Step::Fill(wanted) => {
                let samples: Vec<f32> =
                    (0..wanted).map(|i| ((next_value + i as u64) % 256) as f32).collect();
                next_value += wanted as u64;
                s.supply(&samples);
            }
            Step::Write => {
                let frames = s.writable_frames();
                assert_eq!(frames, 8, "a full producer never lets the buffer shrink");
                s.on_write(WriteOutcome::Written(frames));
                writes += 1;
            }
            Step::Wait => {
                waits += 1;
                s.on_poll(PollOutcome::Ready);
            }
            Step::Halt(e) => panic!("unexpected fatal error {:?}", e),
        }
        assert!(s.staged_len() <= s.capacity());
    }
    assert_eq!(waits, 0);
}

#[test]
fn starved_producer_shrinks_the_buffer_without_underflow() {
    // A producer whose upstream source is empty supplies nothing: the
    // staging buffer shrinks toward zero over successive drains and the
    // loop keeps running without crashing.
    let mut s: PlaybackSession<f32> = PlaybackSession::new(&small_params());
    if let Step::Fill(w) = s.next_step() {
        s.supply(&vec![0.0f32; w]);
    }
    let mut previous_len = s.staged_len();
    for _ in 0..50 {
        match s.next_step() {
            Step::Fill(_) => {
                // Upstream is empty: zero samples supplied.
                s.supply(&Vec::new());
            }
            Step::Write => {
                // The driver accepts at most what is offered, here about half.
                let frames = (s.writable_frames() + 1) / 2;
                s.on_write(WriteOutcome::Written(frames));
                assert!(s.staged_len() <= previous_len);
                previous_len = s.staged_len();
            }
            Step::Wait => s.on_poll(PollOutcome::Ready),
            Step::Halt(e) => panic!("unexpected fatal error {:?}", e),
        }
    }
    assert_eq!(s.staged_len(), 0);
}

#[test]
fn would_block_cycles_add_polls_but_no_callbacks() {
    // "Would block" on the third, seventh and twelfth write cycle: exactly
    // three poll waits happen, and the callback runs only for the pre-fill
    // and once after each successful write — never for a blocked attempt.
    let mut s: PlaybackSession<f32> = PlaybackSession::new(&small_params());
    let mut callbacks = 0u32;
    let mut polls = 0u32;
    let mut write_cycles = 0u32;
    let mut blocked_this_cycle = false;
    while write_cycles < 15 {
        match s.next_step() {
            Step::Fill(wanted) => {
                s.supply(&vec![0.0f32; wanted]);
                callbacks += 1;
            }
            Step::Write => {
                let cycle = write_cycles + 1;
                let should_block =
                    (cycle == 3 || cycle == 7 || cycle == 12) && !blocked_this_cycle;
                if should_block {
                    blocked_this_cycle = true;
                    s.on_write(WriteOutcome::WouldBlock);
                } else {
                    s.on_write(WriteOutcome::Written(s.writable_frames()));
                    blocked_this_cycle = false;
                    write_cycles += 1;
                }
            }
            Step::Wait => {
                polls += 1;
                s.on_poll(PollOutcome::Ready);
            }
            Step::Halt(e) => panic!("unexpected fatal error {:?}", e),
        }
    }
    assert_eq!(polls, 3);
    // One pre-fill plus one refill after each successful write but the
    // last (the loop ends there): nothing extra for the blocked attempts.
    assert_eq!(callbacks, 1 + 14);
}

#[test]
fn feeding_from_shared_buffer_moves_samples_in_order() {
    let mut s: PlaybackSession<f32> = PlaybackSession::new(&small_params());
    let mut shared: SharedSignalBuffer<f32> = SharedSignalBuffer::with_capacity(16);
    let upstream: Vec<f32> = (0..12).map(|i| i as f32).collect();
    shared.append(&upstream);

    let shortfall = feed_from_shared(&mut s, &mut shared);
    assert_eq!(shortfall, 0);
    assert_eq!(s.contents(), &vec![0.0, 1.0, 2.0, 3.0, 4.0, 5.0, 6.0, 7.0]);
    assert_eq!(shared.len(), 4);

    s.on_write(WriteOutcome::Written(8));
    // Only four samples remain upstream for a request of eight.
    let shortfall = feed_from_shared(&mut s, &mut shared);
    assert_eq!(shortfall, 4);
    assert_eq!(s.contents(), &vec![8.0, 9.0, 10.0, 11.0]);
    assert_eq!(shared.len(), 0);
    // The insufficient-data condition is non-fatal: the loop goes on.
    assert!(matches!(s.next_step(), Step::Write));
}
