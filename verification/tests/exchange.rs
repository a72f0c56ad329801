use manip::exchange::{Exchange, Reply, Request};
use manip::sample::{Binary64, ReadError, Sample, DOUBLE_BYTES};

/// A stand-in for the read entry point: what it returns and what it leaves
/// in the two buffers.
struct FakeRead {
    code: i32,
    positions: Vec<f64>,
    speeds: Vec<f64>,
    positions_null: bool,
    speeds_null: bool,
}

impl FakeRead {
    fn filling(positions: &[f64], speeds: &[f64]) -> FakeRead {
        FakeRead {
            code: 0,
            positions: positions.to_vec(),
            speeds: speeds.to_vec(),
            positions_null: false,
            speeds_null: false,
        }
    }

    fn failing(code: i32, count: usize) -> FakeRead {
        FakeRead {
            code,
            positions: vec![f64::NAN; count],
            speeds: vec![f64::NAN; count],
            positions_null: false,
            speeds_null: false,
        }
    }
}

/// What a run did to the allocator and to the library.
struct Trace {
    requests: Vec<Request>,
    allocated_bytes: Vec<usize>,
    live_buffers: usize,
    allocations: usize,
    releases: usize,
    calls: usize,
    copies: usize,
    result: Result<Sample, ReadError>,
}

fn bits(values: &[f64]) -> Vec<Binary64> {
    values.iter().map(|v| Binary64 { bits: v.to_bits() }).collect()
}

fn serve(count: usize, fake: &FakeRead) -> Trace {
    let mut trace = Trace {
        requests: Vec::new(),
        allocated_bytes: Vec::new(),
        live_buffers: 0,
        allocations: 0,
        releases: 0,
        calls: 0,
        copies: 0,
        result: Err(ReadError::Oversized),
    };
    let mut exchange = Exchange::new(count);
    let mut rounds = 0;
    loop {
        rounds += 1;
        assert!(rounds < 10, "the exchange does not come to an end");
        let request = exchange.request();
        let reply = match request {
            Request::Allocate { elements, bytes } => {
                assert_eq!(trace.live_buffers, 0, "allocation while buffers are held");
                assert_eq!(elements, count);
                assert!(bytes > 0, "a buffer of no bytes was asked for");
                trace.allocated_bytes.push(bytes);
                trace.allocated_bytes.push(bytes);
                trace.live_buffers = 2;
                trace.allocations += 1;
                Reply::Allocated
            }
            Request::Read { buffered } => {
                assert_eq!(buffered, trace.live_buffers == 2);
                trace.calls += 1;
                Reply::Returned {
                    code: fake.code,
                    positions_null: fake.positions_null,
                    speeds_null: fake.speeds_null,
                }
            }
            Request::Copy { elements } => {
                assert_eq!(trace.live_buffers, 2, "copy from buffers that are not held");
                assert_eq!(fake.code, 0, "copy after a failed call");
                assert!(!fake.positions_null && !fake.speeds_null, "copy from a null buffer");
                trace.copies += 1;
                Reply::Copied {
                    positions: bits(&fake.positions[..elements]),
                    speeds: bits(&fake.speeds[..elements]),
                }
            }
            Request::Release => {
                assert_eq!(trace.live_buffers, 2, "release of buffers that are not held");
                trace.live_buffers = 0;
                trace.releases += 1;
                Reply::Released
            }
            Request::Done => break,
        };
        trace.requests.push(request);
        exchange = exchange.advance(reply);
    }
    assert!(exchange.is_finished());
    trace.result = exchange.finish().expect("a finished exchange has a result");
    trace
}

fn ramp(count: usize, from: f64) -> Vec<f64> {
    (0..count).map(|i| from + i as f64 * 0.5).collect()
}

#[test]
fn delivered_reading_has_count_values() {
    for count in [0usize, 1, 2, 3, 7, 64] {
        let fake = FakeRead::filling(&ramp(count, 1.0), &ramp(count, -4.0));
        let trace = serve(count, &fake);
        let sample = trace.result.expect("the call succeeded");
        assert_eq!(sample.positions.len(), count);
        assert_eq!(sample.speeds.len(), count);
    }
}

#[test]
fn buffers_are_released_once_on_success() {
    for count in [1usize, 3, 64] {
        let fake = FakeRead::filling(&ramp(count, 0.0), &ramp(count, 0.0));
        let trace = serve(count, &fake);
        assert!(trace.result.is_ok());
        assert_eq!(trace.allocations, 1);
        assert_eq!(trace.releases, 1);
        assert_eq!(trace.live_buffers, 0);
    }
}

#[test]
fn buffers_are_released_once_on_failure() {
    for count in [1usize, 3, 64] {
        let trace = serve(count, &FakeRead::failing(12, count));
        assert_eq!(trace.result, Err(ReadError::Failed(12)));
        assert_eq!(trace.allocations, 1);
        assert_eq!(trace.releases, 1);
        assert_eq!(trace.live_buffers, 0);
    }
}

#[test]
fn buffers_are_released_once_on_a_null_pointer() {
    for count in [1usize, 3, 64] {
        let mut fake = FakeRead::filling(&ramp(count, 0.0), &ramp(count, 0.0));
        fake.speeds_null = true;
        let trace = serve(count, &fake);
        assert_eq!(trace.result, Err(ReadError::NullBuffer));
        assert_eq!(trace.allocations, 1);
        assert_eq!(trace.releases, 1);
        assert_eq!(trace.live_buffers, 0);
    }
}

#[test]
fn nothing_is_allocated_for_no_values() {
    let trace = serve(0, &FakeRead::filling(&[], &[]));
    assert_eq!(trace.requests, vec![Request::Read { buffered: false }]);
    assert_eq!(trace.allocations, 0);
    assert_eq!(trace.releases, 0);
    assert_eq!(trace.copies, 0);
    assert_eq!(
        trace.result,
        Ok(Sample { positions: Vec::new(), speeds: Vec::new() })
    );
}

#[test]
fn failure_with_no_values_carries_the_code() {
    let trace = serve(0, &FakeRead::failing(-8, 0));
    assert_eq!(trace.requests, vec![Request::Read { buffered: false }]);
    assert_eq!(trace.result, Err(ReadError::Failed(-8)));
    assert_eq!(trace.allocations, 0);
    assert_eq!(trace.releases, 0);
}

#[test]
fn no_values_and_null_pointers_give_an_empty_reading() {
    let mut fake = FakeRead::filling(&[], &[]);
    fake.positions_null = true;
    fake.speeds_null = true;
    let trace = serve(0, &fake);
    assert_eq!(
        trace.result,
        Ok(Sample { positions: Vec::new(), speeds: Vec::new() })
    );
    assert_eq!(trace.copies, 0);
}

#[test]
fn each_buffer_has_room_for_count_doubles() {
    assert_eq!(DOUBLE_BYTES, std::mem::size_of::<f64>());
    for count in [1usize, 2, 3, 100] {
        let fake = FakeRead::filling(&ramp(count, 0.0), &ramp(count, 0.0));
        let trace = serve(count, &fake);
        assert_eq!(trace.allocated_bytes, vec![count * 8, count * 8]);
        assert_eq!(
            trace.requests[0],
            Request::Allocate { elements: count, bytes: count * 8 }
        );
    }
}

#[test]
fn requests_of_a_good_exchange_in_order() {
    let trace = serve(3, &FakeRead::filling(&[1.0, 2.0, 3.0], &[0.1, 0.2, 0.3]));
    assert_eq!(
        trace.requests,
        vec![
            Request::Allocate { elements: 3, bytes: 24 },
            Request::Read { buffered: true },
            Request::Copy { elements: 3 },
            Request::Release,
        ]
    );
    assert_eq!(trace.calls, 1);
    assert_eq!(trace.copies, 1);
}

#[test]
fn requests_of_a_failed_exchange_in_order() {
    let trace = serve(3, &FakeRead::failing(1, 3));
    assert_eq!(
        trace.requests,
        vec![
            Request::Allocate { elements: 3, bytes: 24 },
            Request::Read { buffered: true },
            Request::Release,
        ]
    );
    assert_eq!(trace.calls, 1);
    assert_eq!(trace.copies, 0);
}

#[test]
fn values_come_back_unchanged_and_in_order() {
    let positions = [1.0, 2.0, 3.0];
    let speeds = [0.1, 0.2, 0.3];
    let trace = serve(3, &FakeRead::filling(&positions, &speeds));
    let sample = trace.result.expect("the call succeeded");
    for i in 0..3 {
        assert_eq!(f64::from_bits(sample.positions[i].bits), positions[i]);
        assert_eq!(f64::from_bits(sample.speeds[i].bits), speeds[i]);
    }
}

#[test]
fn odd_values_keep_their_bit_patterns() {
    let odd = [
        -0.0,
        f64::INFINITY,
        f64::NEG_INFINITY,
        f64::MIN_POSITIVE / 4.0,
        f64::MAX,
        f64::from_bits(0x7ff8_0000_0000_1234),
        0.1 + 0.2,
    ];
    let plain = ramp(odd.len(), 10.0);
    let trace = serve(odd.len(), &FakeRead::filling(&odd, &plain));
    let sample = trace.result.expect("the call succeeded");
    for i in 0..odd.len() {
        assert_eq!(sample.positions[i].bits, odd[i].to_bits());
        assert_eq!(sample.speeds[i].bits, plain[i].to_bits());
    }
}

#[test]
fn nonzero_code_is_surfaced_exactly() {
    for code in [1, 5, -1, 255, i32::MIN, i32::MAX] {
        let trace = serve(3, &FakeRead::failing(code, 3));
        assert_eq!(trace.result, Err(ReadError::Failed(code)));
        assert_eq!(trace.copies, 0);
    }
}

#[test]
fn failure_code_wins_over_a_null_pointer() {
    let mut fake = FakeRead::failing(4, 2);
    fake.positions_null = true;
    fake.speeds_null = true;
    let trace = serve(2, &fake);
    assert_eq!(trace.result, Err(ReadError::Failed(4)));
    assert_eq!(trace.copies, 0);
}

#[test]
fn null_position_buffer_is_a_violation() {
    let mut fake = FakeRead::filling(&[1.0, 2.0], &[3.0, 4.0]);
    fake.positions_null = true;
    let trace = serve(2, &fake);
    assert_eq!(trace.result, Err(ReadError::NullBuffer));
    assert_eq!(trace.copies, 0);
}

#[test]
fn null_speed_buffer_is_a_violation() {
    let mut fake = FakeRead::filling(&[1.0, 2.0], &[3.0, 4.0]);
    fake.speeds_null = true;
    let trace = serve(2, &fake);
    assert_eq!(trace.result, Err(ReadError::NullBuffer));
    assert_eq!(trace.copies, 0);
}

#[test]
fn null_buffer_is_not_an_ordinary_failure() {
    let mut fake = FakeRead::filling(&[1.0], &[2.0]);
    fake.positions_null = true;
    fake.speeds_null = true;
    let trace = serve(1, &fake);
    assert_ne!(trace.result, Err(ReadError::Failed(0)));
    assert!(matches!(trace.result, Err(ReadError::NullBuffer)));
}

#[test]
fn count_too_large_for_a_buffer_ends_at_once() {
    for count in [usize::MAX, usize::MAX / 8 + 1, usize::MAX / 2] {
        let exchange = Exchange::new(count);
        assert_eq!(exchange.request(), Request::Done);
        assert!(exchange.is_finished());
        assert_eq!(exchange.finish(), Some(Err(ReadError::Oversized)));
    }
}

#[test]
fn largest_count_that_fits_is_allocated() {
    let count = usize::MAX / 8;
    let exchange = Exchange::new(count);
    assert_eq!(
        exchange.request(),
        Request::Allocate { elements: count, bytes: count * 8 }
    );
}

#[test]
fn unfinished_exchange_has_no_result() {
    let exchange = Exchange::new(2);
    assert!(!exchange.is_finished());
    assert_eq!(exchange.finish(), None);
    let exchange = Exchange::new(2).advance(Reply::Allocated);
    assert!(!exchange.is_finished());
    assert_eq!(exchange.finish(), None);
}

#[test]
fn reply_that_answers_nothing_is_ignored() {
    let exchange = Exchange::new(2);
    let exchange = exchange.advance(Reply::Released);
    assert_eq!(exchange.request(), Request::Allocate { elements: 2, bytes: 16 });
    let exchange = exchange.advance(Reply::Copied {
        positions: bits(&[1.0, 2.0]),
        speeds: bits(&[1.0, 2.0]),
    });
    assert_eq!(exchange.request(), Request::Allocate { elements: 2, bytes: 16 });
    let exchange = exchange.advance(Reply::Allocated);
    let exchange = exchange.advance(Reply::Allocated);
    assert_eq!(exchange.request(), Request::Read { buffered: true });
}

#[test]
fn copy_of_the_wrong_length_is_not_taken() {
    let exchange = Exchange::new(3)
        .advance(Reply::Allocated)
        .advance(Reply::Returned { code: 0, positions_null: false, speeds_null: false });
    assert_eq!(exchange.request(), Request::Copy { elements: 3 });
    let exchange = exchange.advance(Reply::Copied {
        positions: bits(&[1.0, 2.0]),
        speeds: bits(&[1.0, 2.0, 3.0]),
    });
    assert_eq!(exchange.request(), Request::Copy { elements: 3 });
    let exchange = exchange.advance(Reply::Copied {
        positions: bits(&[1.0, 2.0, 3.0]),
        speeds: bits(&[1.0, 2.0, 3.0, 4.0]),
    });
    assert_eq!(exchange.request(), Request::Copy { elements: 3 });
    let exchange = exchange.advance(Reply::Copied {
        positions: bits(&[1.0, 2.0, 3.0]),
        speeds: bits(&[4.0, 5.0, 6.0]),
    });
    assert_eq!(exchange.request(), Request::Release);
}

#[test]
fn finished_exchange_stays_finished() {
    let exchange = Exchange::new(0).advance(Reply::Returned {
        code: 3,
        positions_null: false,
        speeds_null: false,
    });
    assert!(exchange.is_finished());
    let exchange = exchange
        .advance(Reply::Allocated)
        .advance(Reply::Returned { code: 0, positions_null: false, speeds_null: false })
        .advance(Reply::Released);
    assert_eq!(exchange.request(), Request::Done);
    assert_eq!(exchange.finish(), Some(Err(ReadError::Failed(3))));
}
