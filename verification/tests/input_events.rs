use ferrink::input_event::{
    DecodedInputEvent, InputEventDecodeError, InputEventDecoder, InputEventTimeline,
    InputEventTimelineError,
};
use ferrink::nonzero::NonZeroU32;
use ferrink::probe::{Endianness, InputEventAbi};
use ferrink::trace::{MAX_INPUT_TRACE_DURATION_MILLIS, MAX_INPUT_TRACE_EVENTS};

fn abi32() -> InputEventAbi {
    InputEventAbi {
        pointer_width_bits: 32,
        libc_timeval_bytes: 8,
        libc_input_event_bytes: 16,
    }
}

fn abi64() -> InputEventAbi {
    InputEventAbi {
        pointer_width_bits: 64,
        libc_timeval_bytes: 16,
        libc_input_event_bytes: 24,
    }
}

fn non_zero(value: u32) -> NonZeroU32 {
    NonZeroU32::new(value).unwrap()
}

fn record32(seconds: i32, micros: i32, event_type: u16, code: u16, value: i32) -> [u8; 16] {
    let mut record = [0; 16];
    record[0..4].copy_from_slice(&seconds.to_le_bytes());
    record[4..8].copy_from_slice(&micros.to_le_bytes());
    record[8..10].copy_from_slice(&event_type.to_le_bytes());
    record[10..12].copy_from_slice(&code.to_le_bytes());
    record[12..16].copy_from_slice(&value.to_le_bytes());
    record
}

fn record64(seconds: i64, micros: i64, event_type: u16, code: u16, value: i32) -> [u8; 24] {
    let mut record = [0; 24];
    record[0..8].copy_from_slice(&seconds.to_be_bytes());
    record[8..16].copy_from_slice(&micros.to_be_bytes());
    record[16..18].copy_from_slice(&event_type.to_be_bytes());
    record[18..20].copy_from_slice(&code.to_be_bytes());
    record[20..24].copy_from_slice(&value.to_be_bytes());
    record
}

#[test]
fn decoder_rejects_unreviewed_abi_shapes_and_limits() {
    let mut invalid = abi32();
    invalid.libc_input_event_bytes = 24;
    assert!(matches!(
        InputEventDecoder::try_new(invalid, Endianness::Little, non_zero(1)),
        Err(InputEventDecodeError::UnsupportedAbi { .. })
    ));
    assert!(matches!(
        InputEventDecoder::try_new(
            abi32(),
            Endianness::Little,
            non_zero(MAX_INPUT_TRACE_EVENTS + 1)
        ),
        Err(InputEventDecodeError::RecordLimitAboveMaximum { .. })
    ));
}

#[test]
fn thirty_two_bit_records_survive_arbitrary_split_reads() {
    let first = record32(10, 20, 3, 53, 400);
    let second = record32(10, 30, 0, 0, 0);
    let mut combined = Vec::from(first);
    combined.extend_from_slice(&second);
    let mut decoder =
        InputEventDecoder::try_new(abi32(), Endianness::Little, non_zero(2)).unwrap();

    assert!(decoder.push(&combined[..5]).unwrap().is_empty());
    assert_eq!(decoder.partial_bytes(), 5);
    let decoded = decoder.push(&combined[5..19]).unwrap();
    assert_eq!(
        decoded,
        vec![DecodedInputEvent {
            timestamp_micros: 10_000_020,
            event_type: 3,
            code: 53,
            value: 400,
        }]
    );
    assert_eq!(decoder.partial_bytes(), 3);
    assert_eq!(decoder.push(&combined[19..]).unwrap().len(), 1);
    assert_eq!(decoder.decoded_records(), 2);
    decoder.finish().unwrap();
}

#[test]
fn sixty_four_bit_big_endian_records_decode_without_native_layout_assumptions() {
    let record = record64(2, 500_000, 1, 330, -1);
    let mut decoder =
        InputEventDecoder::try_new(abi64(), Endianness::Big, non_zero(1)).unwrap();
    assert_eq!(decoder.record_bytes(), 24);
    assert_eq!(
        decoder.push(&record).unwrap(),
        vec![DecodedInputEvent {
            timestamp_micros: 2_500_000,
            event_type: 1,
            code: 330,
            value: -1,
        }]
    );
}

#[test]
fn invalid_timestamp_and_record_limit_fail_atomically() {
    let invalid = record32(1, 1_000_000, 0, 0, 0);
    let valid = record32(1, 999_999, 0, 0, 0);
    let mut decoder =
        InputEventDecoder::try_new(abi32(), Endianness::Little, non_zero(1)).unwrap();
    let before = decoder.clone();
    assert!(matches!(
        decoder.push(&invalid),
        Err(InputEventDecodeError::InvalidTimestamp { .. })
    ));
    assert_eq!(decoder, before);
    assert_eq!(decoder.push(&valid).unwrap().len(), 1);

    let before = decoder.clone();
    assert!(matches!(
        decoder.push(&valid),
        Err(InputEventDecodeError::RecordLimitExceeded { .. })
    ));
    assert_eq!(decoder, before);
}

#[test]
fn truncated_records_are_reported_and_can_be_discarded_at_reopen() {
    let record = record32(1, 2, 3, 54, 500);
    let mut decoder =
        InputEventDecoder::try_new(abi32(), Endianness::Little, non_zero(2)).unwrap();
    decoder.push(&record[..7]).unwrap();
    assert_eq!(
        decoder.finish(),
        Err(InputEventDecodeError::TruncatedRecord {
            observed: 7,
            expected: 16,
        })
    );
    assert_eq!(decoder.discard_partial_record(), 7);
    assert_eq!(decoder.discard_partial_record(), 0);
    decoder.finish().unwrap();
    assert_eq!(decoder.push(&record).unwrap().len(), 1);
}

#[test]
fn record_budget_renewal_preserves_partial_stream_bytes() {
    let first = record32(1, 2, 3, 54, 500);
    let second = record32(1, 3, 0, 0, 0);
    let mut decoder =
        InputEventDecoder::try_new(abi32(), Endianness::Little, non_zero(1)).unwrap();

    let mut chunk = Vec::from(first);
    chunk.extend_from_slice(&second[..7]);
    assert_eq!(decoder.push(&chunk).unwrap().len(), 1);
    assert_eq!(decoder.decoded_records(), 1);
    assert_eq!(decoder.partial_bytes(), 7);

    assert_eq!(decoder.renew_record_budget(), 1);
    assert_eq!(decoder.decoded_records(), 0);
    assert_eq!(decoder.partial_bytes(), 7);
    assert_eq!(decoder.push(&second[7..]).unwrap().len(), 1);
    assert_eq!(decoder.decoded_records(), 1);
    decoder.finish().unwrap();
}

#[test]
fn timeline_normalizes_offsets_and_rejects_decrease_or_excess_duration() {
    assert_eq!(
        InputEventTimeline::try_new(non_zero(MAX_INPUT_TRACE_DURATION_MILLIS + 1)),
        Err(InputEventTimelineError::DurationAboveMaximum {
            declared_millis: MAX_INPUT_TRACE_DURATION_MILLIS + 1,
            maximum_millis: MAX_INPUT_TRACE_DURATION_MILLIS,
        })
    );
    let mut timeline = InputEventTimeline::try_new(non_zero(10)).unwrap();
    let event = DecodedInputEvent {
        timestamp_micros: 1_000_000,
        event_type: 3,
        code: 53,
        value: 10,
    };
    assert_eq!(timeline.normalize(event).unwrap().offset_micros, 0);
    assert_eq!(
        timeline
            .normalize(DecodedInputEvent {
                timestamp_micros: 1_010_000,
                ..event
            })
            .unwrap()
            .offset_micros,
        10_000
    );

    let before = timeline;
    assert!(matches!(
        timeline.normalize(DecodedInputEvent {
            timestamp_micros: 1_009_999,
            ..event
        }),
        Err(InputEventTimelineError::DecreasingTimestamp { .. })
    ));
    assert_eq!(timeline, before);
    assert!(matches!(
        timeline.normalize(DecodedInputEvent {
            timestamp_micros: 1_010_001,
            ..event
        }),
        Err(InputEventTimelineError::DurationExceeded { .. })
    ));
    assert_eq!(timeline, before);

    timeline.reset();
    assert_eq!(timeline.normalize(event).unwrap().offset_micros, 0);
}

#[test]
fn any_split_of_a_stream_decodes_to_the_same_events() {
    let mut stream = Vec::new();
    for number in 0..4 {
        stream.extend_from_slice(&record32(1, number, 3, 53, 100 + number));
    }
    let mut whole = InputEventDecoder::try_new(abi32(), Endianness::Little, non_zero(8)).unwrap();
    let expected = whole.push(&stream).unwrap();
    assert_eq!(expected.len(), 4);
    for at in 0..=stream.len() {
        let mut decoder =
            InputEventDecoder::try_new(abi32(), Endianness::Little, non_zero(8)).unwrap();
        let mut events = decoder.push(&stream[..at]).unwrap();
        events.extend(decoder.push(&stream[at..]).unwrap());
        assert_eq!(events, expected);
        assert_eq!(decoder, whole);
    }
}

#[test]
fn timestamps_must_be_normalized_and_representable() {
    let mut decoder = InputEventDecoder::try_new(abi64(), Endianness::Big, non_zero(4)).unwrap();
    assert_eq!(
        decoder.push(&record64(-1, 0, 0, 0, 0)),
        Err(InputEventDecodeError::InvalidTimestamp {
            record_index: 0,
            seconds: -1,
            microseconds: 0,
        })
    );
    assert_eq!(
        decoder.push(&record64(i64::MAX, 0, 0, 0, 0)),
        Err(InputEventDecodeError::TimestampOverflow { record_index: 0 })
    );
    assert_eq!(decoder.decoded_records(), 0);
    assert_eq!(decoder.partial_bytes(), 0);
}

#[test]
fn decoding_failures_are_described() {
    let mut abi = abi32();
    abi.libc_input_event_bytes = 20;
    for (error, message) in [
        (
            InputEventDecodeError::UnsupportedAbi { abi },
            "unsupported input_event ABI: pointer 32, timeval 8, record 20 bytes",
        ),
        (
            InputEventDecodeError::RecordLimitAboveMaximum {
                declared: 10_001,
                maximum: 10_000,
            },
            "input record limit 10001 exceeds 10000",
        ),
        (
            InputEventDecodeError::RecordLimitExceeded {
                decoded: 1,
                incoming: 2,
                maximum: 2,
            },
            "1 decoded plus 2 incoming records exceeds 2",
        ),
        (
            InputEventDecodeError::InputLengthOverflow,
            "input chunk length overflow",
        ),
        (
            InputEventDecodeError::InvalidTimestamp {
                record_index: 3,
                seconds: -4,
                microseconds: 5,
            },
            "input record 3 has invalid timestamp -4.5",
        ),
        (
            InputEventDecodeError::TimestampOverflow { record_index: 6 },
            "input record 6 timestamp overflow",
        ),
        (
            InputEventDecodeError::TruncatedRecord {
                observed: 7,
                expected: 16,
            },
            "input stream ended with 7 of 16 record bytes",
        ),
        (
            InputEventDecodeError::InternalRecordSize {
                observed: 7,
                expected: 16,
            },
            "input decoder received 7 bytes for a 16-byte record",
        ),
    ] {
        assert_eq!(error.message(), message);
    }
    for (error, message) in [
        (
            InputEventTimelineError::DurationAboveMaximum {
                declared_millis: 30_001,
                maximum_millis: 30_000,
            },
            "input duration 30001 ms exceeds 30000 ms",
        ),
        (
            InputEventTimelineError::DecreasingTimestamp {
                previous_micros: 9,
                observed_micros: 8,
            },
            "input timestamp 8 precedes 9",
        ),
        (
            InputEventTimelineError::DurationExceeded {
                observed_micros: 11,
                maximum_micros: 10,
            },
            "input offset 11 us exceeds 10 us",
        ),
    ] {
        assert_eq!(error.message(), message);
    }
}
