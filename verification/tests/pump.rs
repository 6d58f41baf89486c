use mdk::pump::{
    InputAction, InputEvent, InputPump, OutputAction, OutputEvent, OutputPump, WriteError,
    IDLE_DELAY_NANOS,
};

/// Runs the input pump against a local input that yields `reads` in turn and
/// a remote sink that accepts a byte where `sink_ok` says so. Returns what
/// reached the sink and how many times the pump rested.
fn pump_input(reads: &[Option<u8>], sink_ok: &dyn Fn(usize) -> bool) -> (Vec<u8>, usize) {
    let mut arrived = Vec::new();
    let mut offered = 0usize;
    let mut rests = 0usize;
    let mut next_read = 0usize;
    let mut action = InputPump::start();
    loop {
        let event = match action {
            InputAction::Poll => {
                if next_read == reads.len() {
                    return (arrived, rests);
                }
                let read = reads[next_read];
                next_read += 1;
                match read {
                    Some(byte) => InputEvent::Byte(byte),
                    None => InputEvent::NoInput,
                }
            }
            InputAction::Forward(byte) => {
                let ok = sink_ok(offered);
                offered += 1;
                if ok {
                    arrived.push(byte);
                    InputEvent::Forwarded
                } else {
                    InputEvent::ForwardFailed
                }
            }
            InputAction::Sleep(nanos) => {
                assert_eq!(nanos, IDLE_DELAY_NANOS);
                rests += 1;
                InputEvent::Woke
            }
        };
        action = InputPump::step(event);
    }
}

#[test]
fn input_pump_starts_by_polling() {
    assert_eq!(InputPump::start(), InputAction::Poll);
}

#[test]
fn input_pump_forwards_the_byte_it_read() {
    assert_eq!(InputPump::step(InputEvent::Byte(b'a')), InputAction::Forward(b'a'));
    assert_eq!(InputPump::step(InputEvent::Byte(0)), InputAction::Forward(0));
    assert_eq!(InputPump::step(InputEvent::Byte(255)), InputAction::Forward(255));
    assert_eq!(InputPump::step(InputEvent::Byte(3)), InputAction::Forward(3));
}

#[test]
fn input_pump_rests_ten_nanoseconds_without_input() {
    assert_eq!(IDLE_DELAY_NANOS, 10);
    assert_eq!(InputPump::step(InputEvent::NoInput), InputAction::Sleep(10));
    assert_eq!(InputPump::step(InputEvent::ReadFailed), InputAction::Sleep(10));
}

#[test]
fn input_pump_polls_again_after_every_outcome() {
    assert_eq!(InputPump::step(InputEvent::Forwarded), InputAction::Poll);
    assert_eq!(InputPump::step(InputEvent::ForwardFailed), InputAction::Poll);
    assert_eq!(InputPump::step(InputEvent::Woke), InputAction::Poll);
}

#[test]
fn input_pump_preserves_bytes_and_order() {
    let reads = [
        None,
        Some(b'l'),
        Some(b's'),
        None,
        None,
        Some(b' '),
        Some(b'-'),
        Some(b'l'),
        None,
        Some(b'\r'),
        Some(3),
        Some(0),
        Some(255),
        None,
    ];
    let (arrived, rests) = pump_input(&reads, &|_| true);
    assert_eq!(arrived, vec![b'l', b's', b' ', b'-', b'l', b'\r', 3, 0, 255]);
    assert_eq!(rests, 5);
}

#[test]
fn input_pump_forwards_every_byte_value() {
    let reads: Vec<Option<u8>> = (0..=255u8).map(Some).collect();
    let (arrived, rests) = pump_input(&reads, &|_| true);
    let expected: Vec<u8> = (0..=255u8).collect();
    assert_eq!(arrived, expected);
    assert_eq!(rests, 0);
}

#[test]
fn input_pump_with_no_input_forwards_nothing() {
    let (arrived, rests) = pump_input(&[None, None, None], &|_| true);
    assert_eq!(arrived, Vec::<u8>::new());
    assert_eq!(rests, 3);
    let (arrived, rests) = pump_input(&[], &|_| true);
    assert_eq!(arrived, Vec::<u8>::new());
    assert_eq!(rests, 0);
}

#[test]
fn input_pump_survives_a_sink_that_refuses() {
    let reads = [Some(b'a'), Some(b'b'), Some(b'c'), Some(b'd')];
    let (arrived, _) = pump_input(&reads, &|n| n != 1);
    assert_eq!(arrived, vec![b'a', b'c', b'd']);
    let (arrived, _) = pump_input(&reads, &|_| false);
    assert_eq!(arrived, Vec::<u8>::new());
}

/// Runs the output pump against a remote that yields `chunks` and then
/// closes, and a local sink whose write number `fail_write` or flush number
/// `fail_flush` fails. Returns the sink's contents, the operations seen by
/// the sink, and the pump's result.
fn pump_output(
    chunks: &[&[u8]],
    fail_write: Option<usize>,
    fail_flush: Option<usize>,
) -> (Vec<u8>, Vec<String>, Result<(), WriteError>, OutputPump) {
    let mut sink = Vec::new();
    let mut seen = Vec::new();
    let mut writes = 0usize;
    let mut flushes = 0usize;
    let mut next_chunk = 0usize;
    let (mut pump, mut action) = OutputPump::start();
    loop {
        let event = match action {
            OutputAction::Await => {
                if next_chunk == chunks.len() {
                    OutputEvent::Closed
                } else {
                    next_chunk += 1;
                    OutputEvent::Chunk(chunks[next_chunk - 1].to_vec())
                }
            }
            OutputAction::Write(bytes) => {
                writes += 1;
                if fail_write == Some(writes - 1) {
                    OutputEvent::WriteFailed(format!("write {} failed", writes - 1))
                } else {
                    sink.extend_from_slice(&bytes);
                    seen.push(format!("write {}", bytes.len()));
                    OutputEvent::Written
                }
            }
            OutputAction::Flush => {
                flushes += 1;
                if fail_flush == Some(flushes - 1) {
                    OutputEvent::WriteFailed(format!("flush {} failed", flushes - 1))
                } else {
                    seen.push("flush".to_string());
                    OutputEvent::Flushed
                }
            }
            OutputAction::Complete(result) => return (sink, seen, result, pump),
        };
        action = match pump.step(event) {
            Some(action) => action,
            None => panic!("the pump refused an event that answers its own action"),
        };
    }
}

#[test]
fn output_pump_starts_by_waiting() {
    let (pump, action) = OutputPump::start();
    assert_eq!(pump, OutputPump::AwaitingChunk);
    assert_eq!(action, OutputAction::Await);
    assert!(!pump.is_finished());
}

#[test]
fn output_pump_writes_chunks_in_order_and_flushes_each() {
    let (sink, seen, result, pump) = pump_output(&[b"hello\n", b"world\n"], None, None);
    assert_eq!(sink, b"hello\nworld\n".to_vec());
    assert_eq!(seen, vec!["write 6", "flush", "write 6", "flush"]);
    assert_eq!(result, Ok(()));
    assert_eq!(pump, OutputPump::Drained);
    assert!(pump.is_finished());
}

#[test]
fn output_pump_with_no_output_completes_at_once() {
    let (sink, seen, result, pump) = pump_output(&[], None, None);
    assert_eq!(sink, Vec::<u8>::new());
    assert_eq!(seen, Vec::<String>::new());
    assert_eq!(result, Ok(()));
    assert_eq!(pump, OutputPump::Drained);
}

#[test]
fn output_pump_passes_on_empty_and_binary_chunks() {
    let binary: Vec<u8> = (0..=255u8).collect();
    let (sink, seen, result, _) = pump_output(&[b"", &binary, b"\x1b[0m"], None, None);
    let mut expected = binary.clone();
    expected.extend_from_slice(b"\x1b[0m");
    assert_eq!(sink, expected);
    assert_eq!(seen, vec!["write 0", "flush", "write 256", "flush", "write 4", "flush"]);
    assert_eq!(result, Ok(()));
}

#[test]
fn output_pump_stops_at_a_failed_write() {
    let (sink, seen, result, pump) = pump_output(&[b"one", b"two", b"three"], Some(1), None);
    assert_eq!(sink, b"one".to_vec());
    assert_eq!(seen, vec!["write 3", "flush"]);
    assert_eq!(result, Err(WriteError { cause: "write 1 failed".to_string() }));
    assert_eq!(pump, OutputPump::Broken);
    assert!(pump.is_finished());
}

#[test]
fn output_pump_stops_at_a_failed_flush() {
    let (sink, seen, result, pump) = pump_output(&[b"one", b"two"], None, Some(0));
    assert_eq!(sink, b"one".to_vec());
    assert_eq!(seen, vec!["write 3"]);
    assert_eq!(result, Err(WriteError { cause: "flush 0 failed".to_string() }));
    assert_eq!(pump, OutputPump::Broken);
}

#[test]
fn output_pump_step_by_step() {
    let (mut pump, _) = OutputPump::start();
    assert_eq!(
        pump.step(OutputEvent::Chunk(b"ab".to_vec())),
        Some(OutputAction::Write(b"ab".to_vec()))
    );
    assert_eq!(pump, OutputPump::Writing);
    assert_eq!(pump.step(OutputEvent::Written), Some(OutputAction::Flush));
    assert_eq!(pump, OutputPump::Flushing);
    assert_eq!(pump.step(OutputEvent::Flushed), Some(OutputAction::Await));
    assert_eq!(pump, OutputPump::AwaitingChunk);
    assert_eq!(pump.step(OutputEvent::Closed), Some(OutputAction::Complete(Ok(()))));
    assert_eq!(pump, OutputPump::Drained);
}

#[test]
fn output_pump_refuses_what_is_out_of_turn() {
    let (mut pump, _) = OutputPump::start();
    assert_eq!(pump.step(OutputEvent::Written), None);
    assert_eq!(pump.step(OutputEvent::Flushed), None);
    assert_eq!(pump.step(OutputEvent::WriteFailed("x".to_string())), None);
    assert_eq!(pump, OutputPump::AwaitingChunk);

    pump.step(OutputEvent::Chunk(vec![1]));
    assert_eq!(pump.step(OutputEvent::Chunk(vec![2])), None);
    assert_eq!(pump.step(OutputEvent::Closed), None);
    assert_eq!(pump.step(OutputEvent::Flushed), None);
    assert_eq!(pump, OutputPump::Writing);

    pump.step(OutputEvent::Written);
    assert_eq!(pump.step(OutputEvent::Written), None);
    assert_eq!(pump.step(OutputEvent::Chunk(vec![2])), None);
    assert_eq!(pump.step(OutputEvent::Closed), None);
    assert_eq!(pump, OutputPump::Flushing);
}

#[test]
fn output_pump_does_nothing_once_it_has_stopped() {
    let mut drained = OutputPump::Drained;
    assert_eq!(drained.step(OutputEvent::Chunk(vec![1])), None);
    assert_eq!(drained.step(OutputEvent::Closed), None);
    assert_eq!(drained, OutputPump::Drained);
    let mut broken = OutputPump::Broken;
    assert_eq!(broken.step(OutputEvent::Written), None);
    assert_eq!(broken.step(OutputEvent::Flushed), None);
    assert_eq!(broken, OutputPump::Broken);
}

#[test]
fn write_error_duplicate_is_equal() {
    let error = WriteError { cause: "broken pipe".to_string() };
    assert_eq!(error.duplicate(), error);
}
