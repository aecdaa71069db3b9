//! Bounded decoding of raw Linux `input_event` byte streams.

use crate::bytes::{read_i32, read_i64, read_u16};
use crate::nonzero::NonZeroU32;
use crate::probe::{Endianness, InputEventAbi};
use crate::text::{push_decimal, push_signed_decimal};
use crate::trace::{InputTraceEvent, MAX_INPUT_TRACE_DURATION_MILLIS, MAX_INPUT_TRACE_EVENTS};
use vstd::prelude::*;
use vstd::slice::slice_subrange;

verus! {

/// One complete raw Linux input event with an absolute timestamp.
#[derive(Debug, Clone, Copy, PartialEq, Eq, Structural)]
pub struct DecodedInputEvent {
    /// Kernel timestamp converted to microseconds without changing its clock.
    pub timestamp_micros: u64,
    /// Linux input event type.
    pub event_type: u16,
    /// Linux input event code.
    pub code: u16,
    /// Signed Linux input event value.
    pub value: i32,
}

/// The layout of one raw event record.
#[derive(Debug, Clone, Copy, PartialEq, Eq, Structural)]
pub enum InputEventRecordLayout {
    /// Two 32-bit time fields, then type, code and value: 16 bytes.
    Bits32,
    /// Two 64-bit time fields, then type, code and value: 24 bytes.
    Bits64,
}

/// A rejected raw input-event stream or record.
#[derive(Debug, Clone, Copy, PartialEq, Eq, Structural)]
#[allow(inconsistent_fields)]
#[non_exhaustive]
pub enum InputEventDecodeError {
    /// The declared C ABI was not one of the two known Linux layouts.
    UnsupportedAbi { abi: InputEventAbi },
    /// The record limit exceeded the hard trace bound.
    RecordLimitAboveMaximum { declared: u32, maximum: u32 },
    /// A read chunk would exceed the declared record limit.
    RecordLimitExceeded { decoded: u32, incoming: u32, maximum: u32 },
    /// Combining a chunk and partial record overflowed `usize`.
    InputLengthOverflow,
    /// A complete record contained a negative or invalid `timeval`.
    InvalidTimestamp { record_index: u32, seconds: i64, microseconds: i64 },
    /// Converting a valid `timeval` to microseconds overflowed.
    TimestampOverflow { record_index: u32 },
    /// The stream ended with only part of a record.
    TruncatedRecord { observed: usize, expected: usize },
    /// An internal caller supplied a slice of the wrong record size.
    InternalRecordSize { observed: usize, expected: usize },
}

impl InputEventDecodeError {
    /// The operator-facing description of the error.
    pub open spec fn spec_message(self) -> Seq<char> {
        match self {
            InputEventDecodeError::UnsupportedAbi { abi } => {
                "unsupported input_event ABI: pointer "@ + crate::text::decimal(
                    abi.pointer_width_bits as nat,
                ) + ", timeval "@ + crate::text::decimal(abi.libc_timeval_bytes as nat)
                    + ", record "@ + crate::text::decimal(abi.libc_input_event_bytes as nat)
                    + " bytes"@
            },
            InputEventDecodeError::RecordLimitAboveMaximum { declared, maximum } => {
                "input record limit "@ + crate::text::decimal(declared as nat) + " exceeds "@
                    + crate::text::decimal(maximum as nat)
            },
            InputEventDecodeError::RecordLimitExceeded { decoded, incoming, maximum } => {
                crate::text::decimal(decoded as nat) + " decoded plus "@ + crate::text::decimal(
                    incoming as nat,
                ) + " incoming records exceeds "@ + crate::text::decimal(maximum as nat)
            },
            InputEventDecodeError::InputLengthOverflow => "input chunk length overflow"@,
            InputEventDecodeError::InvalidTimestamp { record_index, seconds, microseconds } => {
                "input record "@ + crate::text::decimal(record_index as nat)
                    + " has invalid timestamp "@ + crate::text::signed_decimal(seconds as int)
                    + "."@ + crate::text::signed_decimal(microseconds as int)
            },
            InputEventDecodeError::TimestampOverflow { record_index } => {
                "input record "@ + crate::text::decimal(record_index as nat)
                    + " timestamp overflow"@
            },
            InputEventDecodeError::TruncatedRecord { observed, expected } => {
                "input stream ended with "@ + crate::text::decimal(observed as nat) + " of "@
                    + crate::text::decimal(expected as nat) + " record bytes"@
            },
            InputEventDecodeError::InternalRecordSize { observed, expected } => {
                "input decoder received "@ + crate::text::decimal(observed as nat)
                    + " bytes for a "@ + crate::text::decimal(expected as nat) + "-byte record"@
            },
        }
    }

    /// Describes the error for an operator.
    pub fn message(&self) -> (message: String)
        ensures
            message@ == self.spec_message(),
    {
        let mut message: String = String::new();
        match *self {
            InputEventDecodeError::UnsupportedAbi { abi } => {
                message.append("unsupported input_event ABI: pointer ");
                push_decimal(&mut message, abi.pointer_width_bits as u64);
                message.append(", timeval ");
                push_decimal(&mut message, abi.libc_timeval_bytes as u64);
                message.append(", record ");
                push_decimal(&mut message, abi.libc_input_event_bytes as u64);
                message.append(" bytes");
            },
            InputEventDecodeError::RecordLimitAboveMaximum { declared, maximum } => {
                message.append("input record limit ");
                push_decimal(&mut message, declared as u64);
                message.append(" exceeds ");
                push_decimal(&mut message, maximum as u64);
            },
            InputEventDecodeError::RecordLimitExceeded { decoded, incoming, maximum } => {
                push_decimal(&mut message, decoded as u64);
                message.append(" decoded plus ");
                push_decimal(&mut message, incoming as u64);
                message.append(" incoming records exceeds ");
                push_decimal(&mut message, maximum as u64);
            },
            InputEventDecodeError::InputLengthOverflow => {
                message.append("input chunk length overflow");
            },
            InputEventDecodeError::InvalidTimestamp { record_index, seconds, microseconds } => {
                message.append("input record ");
                push_decimal(&mut message, record_index as u64);
                message.append(" has invalid timestamp ");
                push_signed_decimal(&mut message, seconds);
                message.append(".");
                push_signed_decimal(&mut message, microseconds);
            },
            InputEventDecodeError::TimestampOverflow { record_index } => {
                message.append("input record ");
                push_decimal(&mut message, record_index as u64);
                message.append(" timestamp overflow");
            },
            InputEventDecodeError::TruncatedRecord { observed, expected } => {
                message.append("input stream ended with ");
                push_decimal(&mut message, observed as u64);
                message.append(" of ");
                push_decimal(&mut message, expected as u64);
                message.append(" record bytes");
            },
            InputEventDecodeError::InternalRecordSize { observed, expected } => {
                message.append("input decoder received ");
                push_decimal(&mut message, observed as u64);
                message.append(" bytes for a ");
                push_decimal(&mut message, expected as u64);
                message.append("-byte record");
            },
        }
        assert(message@ =~= self.spec_message());
        message
    }
}

impl InputEventRecordLayout {
    /// The layout that an ABI names, if it names one.
    pub open spec fn of_abi(abi: InputEventAbi) -> Result<
        InputEventRecordLayout,
        InputEventDecodeError,
    > {
        if abi.pointer_width_bits == 32 && abi.libc_timeval_bytes == 8
            && abi.libc_input_event_bytes == 16 {
            Ok(InputEventRecordLayout::Bits32)
        } else if abi.pointer_width_bits == 64 && abi.libc_timeval_bytes == 16
            && abi.libc_input_event_bytes == 24 {
            Ok(InputEventRecordLayout::Bits64)
        } else {
            Err(InputEventDecodeError::UnsupportedAbi { abi })
        }
    }

    /// Names the layout of an ABI.
    pub fn try_from_abi(abi: InputEventAbi) -> (result: Result<Self, InputEventDecodeError>)
        ensures
            result == Self::of_abi(abi),
    {
        if abi.pointer_width_bits == 32 && abi.libc_timeval_bytes == 8
            && abi.libc_input_event_bytes == 16 {
            Ok(InputEventRecordLayout::Bits32)
        } else if abi.pointer_width_bits == 64 && abi.libc_timeval_bytes == 16
            && abi.libc_input_event_bytes == 24 {
            Ok(InputEventRecordLayout::Bits64)
        } else {
            Err(InputEventDecodeError::UnsupportedAbi { abi })
        }
    }

    /// The bytes of one record.
    pub open spec fn spec_record_bytes(self) -> usize {
        match self {
            InputEventRecordLayout::Bits32 => 16,
            InputEventRecordLayout::Bits64 => 24,
        }
    }

    /// Returns the bytes of one record.
    #[verifier::when_used_as_spec(spec_record_bytes)]
    pub fn record_bytes(self) -> (bytes: usize)
        ensures
            bytes == self.spec_record_bytes(),
    {
        match self {
            InputEventRecordLayout::Bits32 => 16,
            InputEventRecordLayout::Bits64 => 24,
        }
    }

    /// The seconds field of a record.
    pub open spec fn seconds(self, order: Endianness, record: Seq<u8>) -> int {
        match self {
            InputEventRecordLayout::Bits32 => crate::bytes::i32_at(order, record, 0),
            InputEventRecordLayout::Bits64 => crate::bytes::i64_at(order, record, 0),
        }
    }

    /// The microseconds field of a record.
    pub open spec fn microseconds(self, order: Endianness, record: Seq<u8>) -> int {
        match self {
            InputEventRecordLayout::Bits32 => crate::bytes::i32_at(order, record, 4),
            InputEventRecordLayout::Bits64 => crate::bytes::i64_at(order, record, 8),
        }
    }

    /// What one complete record says, or why it is invalid.
    pub open spec fn decoded(self, order: Endianness, record: Seq<u8>, record_index: u32) -> Result<
        DecodedInputEvent,
        InputEventDecodeError,
    > {
        let seconds = self.seconds(order, record);
        let microseconds = self.microseconds(order, record);
        let timestamp = seconds * 1_000_000 + microseconds;
        let fields: int = match self {
            InputEventRecordLayout::Bits32 => 8,
            InputEventRecordLayout::Bits64 => 16,
        };
        if seconds < 0 || !(0 <= microseconds < 1_000_000) {
            Err(
                InputEventDecodeError::InvalidTimestamp {
                    record_index,
                    seconds: seconds as i64,
                    microseconds: microseconds as i64,
                },
            )
        } else if timestamp > u64::MAX {
            Err(InputEventDecodeError::TimestampOverflow { record_index })
        } else {
            Ok(
                DecodedInputEvent {
                    timestamp_micros: timestamp as u64,
                    event_type: crate::bytes::u16_at(order, record, fields) as u16,
                    code: crate::bytes::u16_at(order, record, fields + 2) as u16,
                    value: crate::bytes::i32_at(order, record, fields + 4) as i32,
                },
            )
        }
    }

    /// Decodes one record.
    pub fn decode(self, byte_order: Endianness, record: &[u8], record_index: u32) -> (result:
        Result<DecodedInputEvent, InputEventDecodeError>)
        ensures
            record@.len() != self.record_bytes() ==> result == Err::<DecodedInputEvent, _>(
                InputEventDecodeError::InternalRecordSize {
                    observed: record@.len() as usize,
                    expected: self.record_bytes(),
                },
            ),
            record@.len() == self.record_bytes() ==> result == self.decoded(
                byte_order,
                record@,
                record_index,
            ),
    {
        if record.len() != self.record_bytes() {
            return Err(
                InputEventDecodeError::InternalRecordSize {
                    observed: record.len(),
                    expected: self.record_bytes(),
                },
            );
        }
        let (seconds, microseconds, fields): (i64, i64, usize) = match self {
            InputEventRecordLayout::Bits32 => (
                read_i32(byte_order, record, 0) as i64,
                read_i32(byte_order, record, 4) as i64,
                8,
            ),
            InputEventRecordLayout::Bits64 => (
                read_i64(byte_order, record, 0),
                read_i64(byte_order, record, 8),
                16,
            ),
        };
        if seconds < 0 || microseconds < 0 || microseconds >= 1_000_000 {
            return Err(
                InputEventDecodeError::InvalidTimestamp { record_index, seconds, microseconds },
            );
        }
        let whole: u64 = match (seconds as u64).checked_mul(1_000_000) {
            Some(whole) => whole,
            None => {
                return Err(InputEventDecodeError::TimestampOverflow { record_index });
            },
        };
        let timestamp_micros: u64 = match whole.checked_add(microseconds as u64) {
            Some(timestamp_micros) => timestamp_micros,
            None => {
                return Err(InputEventDecodeError::TimestampOverflow { record_index });
            },
        };
        Ok(
            DecodedInputEvent {
                timestamp_micros,
                event_type: read_u16(byte_order, record, fields),
                code: read_u16(byte_order, record, fields + 2),
                value: read_i32(byte_order, record, fields + 4),
            },
        )
    }
}

/// The events of every complete record at the beginning of `stream`, or the
/// first invalid one; the first record has the index `first`.
pub open spec fn decoded_stream(
    layout: InputEventRecordLayout,
    order: Endianness,
    stream: Seq<u8>,
    first: int,
) -> Result<Seq<DecodedInputEvent>, InputEventDecodeError>
    decreases stream.len(),
{
    let size = layout.record_bytes() as int;
    if stream.len() < size {
        Ok(seq![])
    } else {
        match layout.decoded(order, stream.take(size), first as u32) {
            Err(error) => Err(error),
            Ok(event) => match decoded_stream(layout, order, stream.skip(size), first + 1) {
                Err(error) => Err(error),
                Ok(rest) => Ok(seq![event] + rest),
            },
        }
    }
}

/// The state of a decoder.
pub struct DecoderState {
    /// Record layout.
    pub layout: InputEventRecordLayout,
    /// Byte order.
    pub byte_order: Endianness,
    /// Largest number of records of one budget.
    pub maximum_records: u32,
    /// Records emitted in the current budget.
    pub decoded_records: u32,
    /// Bytes of an incomplete record.
    pub partial: Seq<u8>,
}

impl DecoderState {
    /// What every decoder satisfies: less than one record is held back, and
    /// the budget is not overdrawn.
    pub open spec fn bounded(self) -> bool {
        &&& self.partial.len() < self.layout.record_bytes()
        &&& self.decoded_records <= self.maximum_records <= MAX_INPUT_TRACE_EVENTS
    }

    /// How many records are complete once `bytes` have arrived.
    pub open spec fn incoming(self, bytes: Seq<u8>) -> int {
        (self.partial.len() + bytes.len()) as int / self.layout.record_bytes() as int
    }

    /// The events that `bytes` complete and the state after them, or why the
    /// bytes are refused.
    pub open spec fn after(self, bytes: Seq<u8>) -> Result<
        (DecoderState, Seq<DecodedInputEvent>),
        InputEventDecodeError,
    > {
        let stream = self.partial + bytes;
        let incoming = self.incoming(bytes);
        if stream.len() > usize::MAX {
            Err(InputEventDecodeError::InputLengthOverflow)
        } else if self.decoded_records + incoming > self.maximum_records {
            Err(
                InputEventDecodeError::RecordLimitExceeded {
                    decoded: self.decoded_records,
                    incoming: if incoming > u32::MAX {
                        u32::MAX
                    } else {
                        incoming as u32
                    },
                    maximum: self.maximum_records,
                },
            )
        } else {
            match decoded_stream(
                self.layout,
                self.byte_order,
                stream,
                self.decoded_records as int,
            ) {
                Err(error) => Err(error),
                Ok(events) => Ok(
                    (
                        DecoderState {
                            decoded_records: (self.decoded_records + incoming) as u32,
                            partial: stream.skip(incoming * self.layout.record_bytes()),
                            ..self
                        },
                        events,
                    ),
                ),
            }
        }
    }
}

/// Incrementally decodes complete Linux input records from arbitrary read
/// chunks.
///
/// The decoder holds back at most one incomplete record. Every [`Self::push`]
/// is atomic: invalid bytes or an exceeded event bound leave it unchanged.
#[derive(Debug, PartialEq, Eq)]
pub struct InputEventDecoder {
    layout: InputEventRecordLayout,
    byte_order: Endianness,
    maximum_records: NonZeroU32,
    decoded_records: u32,
    partial: Vec<u8>,
}

impl View for InputEventDecoder {
    type V = DecoderState;

    closed spec fn view(&self) -> DecoderState {
        DecoderState {
            layout: self.layout,
            byte_order: self.byte_order,
            maximum_records: self.maximum_records@,
            decoded_records: self.decoded_records,
            partial: self.partial@,
        }
    }
}

impl Clone for InputEventDecoder {
    fn clone(&self) -> (copy: Self)
        ensures
            copy@ == self@,
    {
        proof {
            use_type_invariant(self);
        }
        let mut partial: Vec<u8> = Vec::new();
        push_bytes(&mut partial, self.partial.as_slice());
        assert(partial@ =~= self.partial@);
        InputEventDecoder {
            layout: self.layout,
            byte_order: self.byte_order,
            maximum_records: self.maximum_records,
            decoded_records: self.decoded_records,
            partial,
        }
    }
}

impl InputEventDecoder {
    #[verifier::type_invariant]
    spec fn inv(&self) -> bool {
        self@.bounded()
    }

    /// Creates a bounded decoder for a known ABI.
    pub fn try_new(
        abi: InputEventAbi,
        byte_order: Endianness,
        maximum_records: NonZeroU32,
    ) -> (result: Result<Self, InputEventDecodeError>)
        ensures
            match result {
                Ok(decoder) => {
                    &&& InputEventRecordLayout::of_abi(abi) == Ok::<_, InputEventDecodeError>(
                        decoder@.layout,
                    )
                    &&& maximum_records@ <= MAX_INPUT_TRACE_EVENTS
                    &&& decoder@.byte_order == byte_order
                    &&& decoder@.maximum_records == maximum_records@
                    &&& decoder@.decoded_records == 0
                    &&& decoder@.partial == Seq::<u8>::empty()
                    &&& decoder@.bounded()
                },
                Err(error) => {
                    ||| InputEventRecordLayout::of_abi(abi) == Err::<InputEventRecordLayout, _>(
                        error,
                    )
                    ||| InputEventRecordLayout::of_abi(abi) is Ok && maximum_records@
                        > MAX_INPUT_TRACE_EVENTS && error
                        == (InputEventDecodeError::RecordLimitAboveMaximum {
                        declared: maximum_records@,
                        maximum: MAX_INPUT_TRACE_EVENTS,
                    })
                },
            },
    {
        let layout: InputEventRecordLayout = InputEventRecordLayout::try_from_abi(abi)?;
        if maximum_records.get() > MAX_INPUT_TRACE_EVENTS {
            return Err(
                InputEventDecodeError::RecordLimitAboveMaximum {
                    declared: maximum_records.get(),
                    maximum: MAX_INPUT_TRACE_EVENTS,
                },
            );
        }
        Ok(
            InputEventDecoder {
                layout,
                byte_order,
                maximum_records,
                decoded_records: 0,
                partial: Vec::new(),
            },
        )
    }

    /// Returns the raw record size of the ABI.
    pub fn record_bytes(&self) -> (bytes: usize)
        ensures
            bytes == self@.layout.record_bytes(),
            self@.bounded(),
    {
        proof {
            use_type_invariant(self);
        }
        self.layout.record_bytes()
    }

    /// Returns the number of complete records emitted in the current budget.
    pub fn decoded_records(&self) -> (records: u32)
        ensures
            records == self@.decoded_records,
            self@.bounded(),
    {
        proof {
            use_type_invariant(self);
        }
        self.decoded_records
    }

    /// Starts a fresh bounded record budget without changing stream state.
    ///
    /// Long-running consumers may call this before the configured bound is
    /// exhausted. Any incomplete record bytes remain buffered so renewal can
    /// never splice, discard, or reinterpret the input stream. Bounded trace
    /// capture must not call this method.
    pub fn renew_record_budget(&mut self) -> (completed: u32)
        ensures
            completed == old(self)@.decoded_records,
            final(self)@ == (DecoderState { decoded_records: 0, ..old(self)@ }),
            final(self)@.bounded(),
    {
        proof {
            use_type_invariant(&*self);
        }
        let completed: u32 = self.decoded_records;
        self.decoded_records = 0;
        completed
    }

    /// Returns how many bytes are retained for an incomplete record.
    pub fn partial_bytes(&self) -> (bytes: usize)
        ensures
            bytes == self@.partial.len(),
            self@.bounded(),
    {
        proof {
            use_type_invariant(self);
        }
        self.partial.len()
    }

    /// Decodes every complete record in a read chunk and retains its suffix.
    ///
    /// A chunk that would exceed the record bound or that completes an invalid
    /// record leaves the decoder unchanged.
    pub fn push(&mut self, bytes: &[u8]) -> (result: Result<
        Vec<DecodedInputEvent>,
        InputEventDecodeError,
    >)
        ensures
            final(self)@.bounded(),
            match result {
                Ok(events) => old(self)@.after(bytes@) == Ok::<_, InputEventDecodeError>(
                    (final(self)@, events@),
                ),
                Err(error) => final(self)@ == old(self)@ && old(self)@.after(bytes@) == Err::<
                    (DecoderState, Seq<DecodedInputEvent>),
                    _,
                >(error),
            },
    {
        proof {
            use_type_invariant(&*self);
        }
        let record_bytes: usize = self.layout.record_bytes();
        let combined: usize = match self.partial.len().checked_add(bytes.len()) {
            Some(combined) => combined,
            None => {
                return Err(InputEventDecodeError::InputLengthOverflow);
            },
        };
        let incoming: usize = combined / record_bytes;
        assert(incoming as int == self@.incoming(bytes@));
        let maximum: u32 = self.maximum_records.get();
        let incoming_records: u32 = match u32::try_from(incoming) {
            Ok(incoming_records) => incoming_records,
            Err(_) => {
                return Err(
                    InputEventDecodeError::RecordLimitExceeded {
                        decoded: self.decoded_records,
                        incoming: u32::MAX,
                        maximum,
                    },
                );
            },
        };
        let total_records: u32 = match self.decoded_records.checked_add(incoming_records) {
            Some(total_records) => total_records,
            None => {
                return Err(
                    InputEventDecodeError::RecordLimitExceeded {
                        decoded: self.decoded_records,
                        incoming: incoming_records,
                        maximum,
                    },
                );
            },
        };
        if total_records > maximum {
            return Err(
                InputEventDecodeError::RecordLimitExceeded {
                    decoded: self.decoded_records,
                    incoming: incoming_records,
                    maximum,
                },
            );
        }
        let mut stream: Vec<u8> = Vec::with_capacity(combined);
        push_bytes(&mut stream, self.partial.as_slice());
        push_bytes(&mut stream, bytes);
        assert(stream@ =~= self@.partial + bytes@);
        let (events, at): (Vec<DecodedInputEvent>, usize) = match decode_stream(
            self.layout,
            self.byte_order,
            stream.as_slice(),
            self.decoded_records,
        ) {
            Ok(decoded) => decoded,
            Err(error) => {
                return Err(error);
            },
        };
        let kept: &[u8] = slice_subrange(stream.as_slice(), at, stream.len());
        let mut partial: Vec<u8> = Vec::new();
        push_bytes(&mut partial, kept);
        assert(partial@ =~= stream@.skip(at as int));
        self.decoded_records = total_records;
        self.partial = partial;
        Ok(events)
    }

    /// Reports whether the stream ends on a complete record boundary.
    pub fn finish(&self) -> (result: Result<(), InputEventDecodeError>)
        ensures
            result == (if self@.partial.len() == 0 {
                Ok(())
            } else {
                Err(
                    InputEventDecodeError::TruncatedRecord {
                        observed: self@.partial.len() as usize,
                        expected: self@.layout.record_bytes(),
                    },
                )
            }),
    {
        if self.partial.is_empty() {
            Ok(())
        } else {
            Err(
                InputEventDecodeError::TruncatedRecord {
                    observed: self.partial.len(),
                    expected: self.record_bytes(),
                },
            )
        }
    }

    /// Drops bytes from an interrupted record while preserving the event count.
    ///
    /// This is intended for a device-loss/reopen boundary so bytes from two
    /// device instances can never be combined into one event.
    pub fn discard_partial_record(&mut self) -> (discarded: usize)
        ensures
            discarded == old(self)@.partial.len(),
            final(self)@ == (DecoderState { partial: Seq::<u8>::empty(), ..old(self)@ }),
            final(self)@.bounded(),
    {
        proof {
            use_type_invariant(&*self);
        }
        let discarded: usize = self.partial.len();
        self.partial = Vec::new();
        discarded
    }
}

/// Decodes every complete record of `stream` and says where the last one ends.
fn decode_stream(
    layout: InputEventRecordLayout,
    byte_order: Endianness,
    stream: &[u8],
    first: u32,
) -> (result: Result<(Vec<DecodedInputEvent>, usize), InputEventDecodeError>)
    requires
        first + stream@.len() as int / layout.record_bytes() as int <= u32::MAX,
    ensures
        match result {
            Ok((events, end)) => {
                &&& decoded_stream(layout, byte_order, stream@, first as int) == Ok::<
                    _,
                    InputEventDecodeError,
                >(events@)
                &&& end == (stream@.len() as int / layout.record_bytes() as int)
                    * layout.record_bytes()
                &&& end <= stream@.len() < end + layout.record_bytes()
            },
            Err(error) => decoded_stream(layout, byte_order, stream@, first as int) == Err::<
                Seq<DecodedInputEvent>,
                _,
            >(error),
        },
{
    let size: usize = layout.record_bytes();
    let mut events: Vec<DecodedInputEvent> = Vec::new();
    let mut at: usize = 0;
    let ghost whole = decoded_stream(layout, byte_order, stream@, first as int);
    let ghost count = stream@.len() as int / size as int;
    assert(stream@.skip(0) =~= stream@);
    assert(followed(events@, whole) == whole) by {
        if whole is Ok {
            assert(events@ + whole->Ok_0 =~= whole->Ok_0);
        }
    }
    while stream.len() - at >= size
        invariant
            at <= stream@.len(),
            size == layout.record_bytes(),
            at == events@.len() * size,
            count == stream@.len() as int / size as int,
            first + count <= u32::MAX,
            whole == decoded_stream(layout, byte_order, stream@, first as int),
            whole == followed(
                events@,
                decoded_stream(
                    layout,
                    byte_order,
                    stream@.skip(at as int),
                    first + events@.len(),
                ),
            ),
        decreases stream.len() - at,
    {
        let ghost before = events@;
        let record: &[u8] = slice_subrange(stream, at, at + size);
        proof {
            stream_takes_one(layout, byte_order, stream@, at as int, first + before.len());
        }
        assert(before.len() < count) by (nonlinear_arith)
            requires
                size > 0,
                count == stream@.len() as int / size as int,
                before.len() * size + size <= stream@.len(),
        ;
        let event: DecodedInputEvent = match layout.decode(
            byte_order,
            record,
            first + events.len() as u32,
        ) {
            Ok(event) => event,
            Err(error) => {
                return Err(error);
            },
        };
        events.push(event);
        at = at + size;
        proof {
            followed_by_one(
                before,
                event,
                decoded_stream(
                    layout,
                    byte_order,
                    stream@.skip(at as int),
                    first + events@.len(),
                ),
            );
            assert(at == events@.len() * size) by (nonlinear_arith)
                requires
                    at == before.len() * size + size,
                    events@.len() == before.len() + 1,
            ;
        }
    }
    proof {
        assert(decoded_stream(layout, byte_order, stream@.skip(at as int), first + events@.len())
            == Ok::<Seq<DecodedInputEvent>, InputEventDecodeError>(seq![]));
        assert(events@ + Seq::<DecodedInputEvent>::empty() =~= events@);
        assert(at == count * size) by (nonlinear_arith)
            requires
                size > 0,
                count == stream@.len() as int / size as int,
                at == events@.len() * size,
                0 <= stream@.len() - at < size,
        ;
    }
    Ok((events, at))
}

/// What follows in a stream at `at` is one record, and what follows behind it.
proof fn stream_takes_one(
    layout: InputEventRecordLayout,
    order: Endianness,
    stream: Seq<u8>,
    at: int,
    index: int,
)
    requires
        0 <= at <= at + layout.record_bytes() <= stream.len(),
    ensures
        ({
            let size = layout.record_bytes() as int;
            decoded_stream(layout, order, stream.skip(at), index) == (match layout.decoded(
                order,
                stream.subrange(at, at + size),
                index as u32,
            ) {
                Err(error) => Err::<Seq<DecodedInputEvent>, InputEventDecodeError>(error),
                Ok(event) => followed(
                    seq![event],
                    decoded_stream(layout, order, stream.skip(at + size), index + 1),
                ),
            })
        }),
{
    let size = layout.record_bytes() as int;
    let rest = stream.skip(at);
    assert(stream.subrange(at, at + size) =~= rest.take(size));
    assert(rest.skip(size) =~= stream.skip(at + size));
}

proof fn followed_by_one(
    first: Seq<DecodedInputEvent>,
    event: DecodedInputEvent,
    rest: Result<Seq<DecodedInputEvent>, InputEventDecodeError>,
)
    ensures
        followed(first, followed(seq![event], rest)) == followed(first.push(event), rest),
{
    if rest is Ok {
        assert(first + (seq![event] + rest->Ok_0) =~= first.push(event) + rest->Ok_0);
    }
}

fn push_bytes(out: &mut Vec<u8>, bytes: &[u8])
    ensures
        final(out)@ == old(out)@ + bytes@,
{
    for i in 0..bytes.len()
        invariant
            out@ == old(out)@ + bytes@.take(i as int),
    {
        out.push(bytes[i]);
        assert(bytes@.take(i + 1) =~= bytes@.take(i as int).push(bytes@[i as int]));
    }
    assert(bytes@.take(bytes@.len() as int) =~= bytes@);
}

/// `first` and then what `rest` holds, or the error of `rest`.
pub open spec fn followed(
    first: Seq<DecodedInputEvent>,
    rest: Result<Seq<DecodedInputEvent>, InputEventDecodeError>,
) -> Result<Seq<DecodedInputEvent>, InputEventDecodeError> {
    match rest {
        Err(error) => Err(error),
        Ok(rest) => Ok(first + rest),
    }
}

/// Whole records decode independently of what follows them.
#[verifier::rlimit(60)]
#[verifier::spinoff_prover]
proof fn decoded_records_then_rest(
    layout: InputEventRecordLayout,
    order: Endianness,
    head: Seq<u8>,
    tail: Seq<u8>,
    count: int,
    first: int,
)
    requires
        count >= 0,
        head.len() == count * layout.record_bytes(),
    ensures
        decoded_stream(layout, order, head + tail, first) == (match decoded_stream(
            layout,
            order,
            head,
            first,
        ) {
            Err(error) => Err(error),
            Ok(events) => followed(
                events,
                decoded_stream(layout, order, tail, first + count),
            ),
        }),
    decreases count,
{
    let size = layout.record_bytes() as int;
    if count == 0 {
        assert(head + tail =~= tail);
        let rest = decoded_stream(layout, order, tail, first);
        assert(decoded_stream(layout, order, head, first) == Ok::<
            Seq<DecodedInputEvent>,
            InputEventDecodeError,
        >(seq![]));
        if rest is Ok {
            assert(Seq::<DecodedInputEvent>::empty() + rest->Ok_0 =~= rest->Ok_0);
        }
    } else {
        assert(head.len() == (count - 1) * size + size) by (nonlinear_arith)
            requires
                head.len() == count * size,
        ;
        assert((count - 1) * size >= 0) by (nonlinear_arith)
            requires
                count >= 1,
                size >= 0,
        ;
        assert((head + tail).take(size) =~= head.take(size));
        assert((head + tail).skip(size) =~= head.skip(size) + tail);
        decoded_records_then_rest(layout, order, head.skip(size), tail, count - 1, first + 1);
        let one = layout.decoded(order, head.take(size), first as u32);
        let more = decoded_stream(layout, order, head.skip(size), first + 1);
        let rest = decoded_stream(layout, order, tail, first + count);
        if one is Ok && more is Ok && rest is Ok {
            assert(seq![one->Ok_0] + (more->Ok_0 + rest->Ok_0) =~= (seq![one->Ok_0]
                + more->Ok_0) + rest->Ok_0);
        }
    }
}

/// How many records two chunks hold together.
proof fn record_counts_add_up(held: int, more: int, size: int) -> (counts: (int, int))
    requires
        held >= 0,
        more >= 0,
        size > 0,
    ensures
        counts.0 == held / size,
        counts.0 >= 0,
        counts.1 == (held - counts.0 * size + more) / size,
        counts.1 >= 0,
        0 <= held - counts.0 * size < size,
        0 <= counts.0 * size <= held,
        0 <= counts.1 * size <= held - counts.0 * size + more,
        (held + more) / size == counts.0 + counts.1,
        (counts.0 + counts.1) * size == counts.0 * size + counts.1 * size,
{
    let first = held / size;
    let kept = held - first * size;
    let second = (kept + more) / size;
    vstd::arithmetic::div_mod::lemma_fundamental_div_mod(held, size);
    vstd::arithmetic::mul::lemma_mul_is_commutative(first, size);
    vstd::arithmetic::div_mod::lemma_fundamental_div_mod(kept + more, size);
    vstd::arithmetic::mul::lemma_mul_is_commutative(second, size);
    vstd::arithmetic::div_mod::lemma_div_pos_is_pos(held, size);
    vstd::arithmetic::div_mod::lemma_div_pos_is_pos(kept + more, size);
    vstd::arithmetic::mul::lemma_mul_nonnegative(first, size);
    vstd::arithmetic::mul::lemma_mul_nonnegative(second, size);
    vstd::arithmetic::mul::lemma_mul_is_distributive_add_other_way(size, first, second);
    vstd::arithmetic::div_mod::lemma_fundamental_div_mod_converse(
        held + more,
        size,
        first + second,
        (kept + more) % size,
    );
    (first, second)
}

/// Decoding a stream and what follows it, in terms of the incomplete record
/// that the stream leaves.
#[verifier::rlimit(60)]
#[verifier::spinoff_prover]
proof fn decoded_stream_then_more(
    layout: InputEventRecordLayout,
    order: Endianness,
    stream: Seq<u8>,
    more: Seq<u8>,
    count: int,
    first: int,
)
    requires
        count >= 0,
        0 <= count * layout.record_bytes() <= stream.len(),
        stream.len() - count * layout.record_bytes() < layout.record_bytes(),
    ensures
        decoded_stream(layout, order, stream + more, first) == (match decoded_stream(
            layout,
            order,
            stream,
            first,
        ) {
            Err(error) => Err(error),
            Ok(events) => followed(
                events,
                decoded_stream(
                    layout,
                    order,
                    stream.skip(count * layout.record_bytes()) + more,
                    first + count,
                ),
            ),
        }),
{
    let end = count * layout.record_bytes();
    let head = stream.take(end);
    let kept = stream.skip(end);
    assert(stream =~= head + kept);
    assert(stream + more =~= head + (kept + more));
    decoded_records_then_rest(layout, order, head, kept, count, first);
    decoded_records_then_rest(layout, order, head, kept + more, count, first);
    let whole = decoded_stream(layout, order, head, first);
    assert(decoded_stream(layout, order, kept, first + count) == Ok::<
        Seq<DecodedInputEvent>,
        InputEventDecodeError,
    >(seq![]));
    if whole is Ok {
        assert(whole->Ok_0 + Seq::<DecodedInputEvent>::empty() =~= whole->Ok_0);
    }
}

/// Where a read ends makes no difference: two chunks are accepted one after the
/// other exactly when they are accepted as one, with the same events and the
/// same state after them.
#[verifier::rlimit(100)]
#[verifier::spinoff_prover]
pub proof fn law_split_reads_make_no_difference(state: DecoderState, a: Seq<u8>, b: Seq<u8>)
    requires
        state.bounded(),
        state.partial.len() + a.len() + b.len() <= usize::MAX,
    ensures
        state.after(a + b) is Ok <==> state.after(a) is Ok && state.after(a)->Ok_0.0.after(
            b,
        ) is Ok,
        state.after(a + b) is Ok ==> {
            let (middle, events_a) = state.after(a)->Ok_0;
            let (end, events_b) = middle.after(b)->Ok_0;
            state.after(a + b) == Ok::<_, InputEventDecodeError>((end, events_a + events_b))
        },
{
    let size = state.layout.record_bytes() as int;
    let stream = state.partial + a;
    let (n1, n2) = record_counts_add_up(stream.len() as int, b.len() as int, size);
    let kept = stream.skip(n1 * size);
    assert(state.partial + (a + b) =~= stream + b);
    decoded_stream_then_more(
        state.layout,
        state.byte_order,
        stream,
        b,
        n1,
        state.decoded_records as int,
    );
    assert((stream + b).skip((n1 + n2) * size) =~= (kept + b).skip(n2 * size));
    assert(state.incoming(a) == n1);
    assert(state.incoming(a + b) == n1 + n2);
    if state.after(a) is Ok {
        let middle = state.after(a)->Ok_0.0;
        assert(middle.partial == kept);
        assert(middle.incoming(b) == n2);
    }
}

/// The state of a timeline.
pub struct TimelineState {
    /// Longest offset that is accepted.
    pub maximum_micros: u64,
    /// Timestamps of the first and of the latest accepted event.
    pub span: Option<TimelineSpan>,
}

/// The time between two accepted events.
pub struct TimelineSpan {
    /// Timestamp of the first accepted event.
    pub first: u64,
    /// Timestamp of the latest accepted event.
    pub latest: u64,
}

impl TimelineState {
    /// The offset of an event and the state after it, or why it is refused.
    pub open spec fn after(self, event: DecodedInputEvent) -> Result<
        (TimelineState, InputTraceEvent),
        InputEventTimelineError,
    > {
        let timestamp = event.timestamp_micros;
        let first = if self.span is Some {
            self.span->0.first
        } else {
            timestamp
        };
        let offset = timestamp - first;
        if self.span is Some && timestamp < self.span->0.latest {
            Err(
                InputEventTimelineError::DecreasingTimestamp {
                    previous_micros: self.span->0.latest,
                    observed_micros: timestamp,
                },
            )
        } else if offset > self.maximum_micros {
            Err(
                InputEventTimelineError::DurationExceeded {
                    observed_micros: offset as u64,
                    maximum_micros: self.maximum_micros,
                },
            )
        } else {
            Ok(
                (
                    TimelineState { span: Some(TimelineSpan { first, latest: timestamp }), ..self },
                    InputTraceEvent {
                        offset_micros: offset as u64,
                        event_type: event.event_type,
                        code: event.code,
                        value: event.value,
                    },
                ),
            )
        }
    }
}

/// Converts absolute decoded timestamps into one bounded trace timeline.
#[derive(Debug, Clone, Copy, PartialEq, Eq, Structural)]
pub struct InputEventTimeline {
    maximum_duration_micros: u64,
    first_timestamp_micros: Option<u64>,
    previous_timestamp_micros: Option<u64>,
}

impl View for InputEventTimeline {
    type V = TimelineState;

    closed spec fn view(&self) -> TimelineState {
        TimelineState {
            maximum_micros: self.maximum_duration_micros,
            span: match (self.first_timestamp_micros, self.previous_timestamp_micros) {
                (Some(first), Some(latest)) => Some(TimelineSpan { first, latest }),
                _ => None,
            },
        }
    }
}

impl InputEventTimeline {
    #[verifier::type_invariant]
    spec fn inv(self) -> bool {
        match (self.first_timestamp_micros, self.previous_timestamp_micros) {
            (None, None) => true,
            (Some(first), Some(previous)) => first <= previous,
            _ => false,
        }
    }

    /// Creates a timeline with the same hard duration bound as input traces.
    pub fn try_new(maximum_duration_millis: NonZeroU32) -> (result: Result<
        Self,
        InputEventTimelineError,
    >)
        ensures
            match result {
                Ok(timeline) => maximum_duration_millis@ <= MAX_INPUT_TRACE_DURATION_MILLIS
                    && timeline@ == (TimelineState {
                    maximum_micros: (maximum_duration_millis@ * 1_000) as u64,
                    span: None,
                }),
                Err(error) => maximum_duration_millis@ > MAX_INPUT_TRACE_DURATION_MILLIS && error
                    == (InputEventTimelineError::DurationAboveMaximum {
                    declared_millis: maximum_duration_millis@,
                    maximum_millis: MAX_INPUT_TRACE_DURATION_MILLIS,
                }),
            },
    {
        if maximum_duration_millis.get() > MAX_INPUT_TRACE_DURATION_MILLIS {
            return Err(
                InputEventTimelineError::DurationAboveMaximum {
                    declared_millis: maximum_duration_millis.get(),
                    maximum_millis: MAX_INPUT_TRACE_DURATION_MILLIS,
                },
            );
        }
        Ok(
            InputEventTimeline {
                maximum_duration_micros: maximum_duration_millis.get() as u64 * 1_000,
                first_timestamp_micros: None,
                previous_timestamp_micros: None,
            },
        )
    }

    /// Converts one decoded event to a monotonic offset from the first event.
    ///
    /// A refused event leaves the timeline unchanged.
    pub fn normalize(&mut self, event: DecodedInputEvent) -> (result: Result<
        InputTraceEvent,
        InputEventTimelineError,
    >)
        ensures
            match result {
                Ok(normalized) => old(self)@.after(event) == Ok::<_, InputEventTimelineError>(
                    (final(self)@, normalized),
                ),
                Err(error) => *final(self) == *old(self) && old(self)@.after(event) == Err::<
                    (TimelineState, InputTraceEvent),
                    _,
                >(error),
            },
    {
        proof {
            use_type_invariant(&*self);
        }
        if let Some(previous) = self.previous_timestamp_micros {
            if event.timestamp_micros < previous {
                return Err(
                    InputEventTimelineError::DecreasingTimestamp {
                        previous_micros: previous,
                        observed_micros: event.timestamp_micros,
                    },
                );
            }
        }
        let first: u64 = match self.first_timestamp_micros {
            Some(first) => first,
            None => event.timestamp_micros,
        };
        let offset_micros: u64 = event.timestamp_micros - first;
        if offset_micros > self.maximum_duration_micros {
            return Err(
                InputEventTimelineError::DurationExceeded {
                    observed_micros: offset_micros,
                    maximum_micros: self.maximum_duration_micros,
                },
            );
        }
        *self =
        InputEventTimeline {
            maximum_duration_micros: self.maximum_duration_micros,
            first_timestamp_micros: Some(first),
            previous_timestamp_micros: Some(event.timestamp_micros),
        };
        Ok(
            InputTraceEvent {
                offset_micros,
                event_type: event.event_type,
                code: event.code,
                value: event.value,
            },
        )
    }

    /// Clears the clock origin for a new bounded capture.
    pub fn reset(&mut self)
        ensures
            final(self)@ == (TimelineState { span: None, ..old(self)@ }),
    {
        *self =
        InputEventTimeline {
            maximum_duration_micros: self.maximum_duration_micros,
            first_timestamp_micros: None,
            previous_timestamp_micros: None,
        };
    }
}

/// A decoded event that cannot belong to the bounded trace timeline.
#[derive(Debug, Clone, Copy, PartialEq, Eq, Structural)]
#[non_exhaustive]
pub enum InputEventTimelineError {
    /// The declared duration exceeded the hard trace bound.
    DurationAboveMaximum { declared_millis: u32, maximum_millis: u32 },
    /// An event timestamp moved backwards.
    DecreasingTimestamp { previous_micros: u64, observed_micros: u64 },
    /// An event occurred after the declared capture duration.
    DurationExceeded { observed_micros: u64, maximum_micros: u64 },
}

impl InputEventTimelineError {
    /// The operator-facing description of the error.
    pub open spec fn spec_message(self) -> Seq<char> {
        match self {
            InputEventTimelineError::DurationAboveMaximum { declared_millis, maximum_millis } => {
                "input duration "@ + crate::text::decimal(declared_millis as nat)
                    + " ms exceeds "@ + crate::text::decimal(maximum_millis as nat) + " ms"@
            },
            InputEventTimelineError::DecreasingTimestamp { previous_micros, observed_micros } => {
                "input timestamp "@ + crate::text::decimal(observed_micros as nat) + " precedes "@
                    + crate::text::decimal(previous_micros as nat)
            },
            InputEventTimelineError::DurationExceeded { observed_micros, maximum_micros } => {
                "input offset "@ + crate::text::decimal(observed_micros as nat) + " us exceeds "@
                    + crate::text::decimal(maximum_micros as nat) + " us"@
            },
        }
    }

    /// Describes the error for an operator.
    pub fn message(&self) -> (message: String)
        ensures
            message@ == self.spec_message(),
    {
        let mut message: String = String::new();
        match *self {
            InputEventTimelineError::DurationAboveMaximum { declared_millis, maximum_millis } => {
                message.append("input duration ");
                push_decimal(&mut message, declared_millis as u64);
                message.append(" ms exceeds ");
                push_decimal(&mut message, maximum_millis as u64);
                message.append(" ms");
            },
            InputEventTimelineError::DecreasingTimestamp { previous_micros, observed_micros } => {
                message.append("input timestamp ");
                push_decimal(&mut message, observed_micros);
                message.append(" precedes ");
                push_decimal(&mut message, previous_micros);
            },
            InputEventTimelineError::DurationExceeded { observed_micros, maximum_micros } => {
                message.append("input offset ");
                push_decimal(&mut message, observed_micros);
                message.append(" us exceeds ");
                push_decimal(&mut message, maximum_micros);
                message.append(" us");
            },
        }
        assert(message@ =~= self.spec_message());
        message
    }
}

/// Offsets on one timeline never decrease and never pass its bound.
pub proof fn law_offsets_never_decrease(
    state: TimelineState,
    earlier: DecodedInputEvent,
    later: DecodedInputEvent,
)
    requires
        state.span is Some ==> state.span->0.first <= state.span->0.latest,
        state.after(earlier) is Ok,
        state.after(earlier)->Ok_0.0.after(later) is Ok,
    ensures
        ({
            let (middle, first) = state.after(earlier)->Ok_0;
            let (_, second) = middle.after(later)->Ok_0;
            &&& first.offset_micros <= second.offset_micros
            &&& second.offset_micros <= state.maximum_micros
            &&& second.offset_micros - first.offset_micros == later.timestamp_micros
                - earlier.timestamp_micros
        }),
{
}

// ---------------------------------------------------------------------------
// What the bytes of a record mean
// ---------------------------------------------------------------------------
/// The two layouts of the kernel: a 32-bit one of 16 bytes with two times of 4,
/// and a 64-bit one of 24 with two times of 8. No other is known.
pub proof fn law_layouts_are_those_of_the_kernel(abi: InputEventAbi)
    ensures
        ({
            let layout = InputEventRecordLayout::of_abi(abi);
            let sizes = (
                abi.pointer_width_bits,
                abi.libc_timeval_bytes,
                abi.libc_input_event_bytes,
            );
            &&& layout == Ok::<_, InputEventDecodeError>(InputEventRecordLayout::Bits32)
                <==> sizes == (32u16, 8u16, 16u16)
            &&& layout == Ok::<_, InputEventDecodeError>(InputEventRecordLayout::Bits64)
                <==> sizes == (64u16, 16u16, 24u16)
            &&& layout matches Ok(known) ==> known.record_bytes() == abi.libc_input_event_bytes
            &&& layout matches Err(error) ==> error == (InputEventDecodeError::UnsupportedAbi {
                abi,
            })
        }),
{
}

/// A record begins with its seconds and its microseconds; then come the event
/// type, the code and the signed value, with nothing in between and nothing
/// behind. The time of the event counts the two together in microseconds.
pub proof fn law_records_hold_time_type_code_and_value(
    layout: InputEventRecordLayout,
    order: Endianness,
    record: Seq<u8>,
    record_index: u32,
)
    ensures
        layout.decoded(order, record, record_index) matches Ok(event) ==> {
            let time = match layout {
                InputEventRecordLayout::Bits32 => 4int,
                InputEventRecordLayout::Bits64 => 8int,
            };
            let seconds = match layout {
                InputEventRecordLayout::Bits32 => crate::bytes::i32_at(order, record, 0),
                InputEventRecordLayout::Bits64 => crate::bytes::i64_at(order, record, 0),
            };
            let microseconds = match layout {
                InputEventRecordLayout::Bits32 => crate::bytes::i32_at(order, record, time),
                InputEventRecordLayout::Bits64 => crate::bytes::i64_at(order, record, time),
            };
            &&& layout.record_bytes() == 2 * time + 8
            &&& seconds >= 0
            &&& 0 <= microseconds <= 999_999
            &&& event.timestamp_micros == seconds * 1_000_000 + microseconds
            &&& event.event_type == crate::bytes::u16_at(order, record, 2 * time)
            &&& event.code == crate::bytes::u16_at(order, record, 2 * time + 2)
            &&& event.value == crate::bytes::i32_at(order, record, 2 * time + 4)
        },
{
    crate::bytes::law_bytes_are_positional(record, 8);
    crate::bytes::law_bytes_are_positional(record, 10);
    crate::bytes::law_bytes_are_positional(record, 16);
    crate::bytes::law_bytes_are_positional(record, 18);
    crate::bytes::law_signs_are_the_highest_bit(order, record, 12);
    crate::bytes::law_signs_are_the_highest_bit(order, record, 20);
}

/// A record is refused where its time is negative, where its microseconds are a
/// second or more, or where it is too large to count in microseconds; the error
/// names the record.
pub proof fn law_impossible_times_are_refused(
    layout: InputEventRecordLayout,
    order: Endianness,
    record: Seq<u8>,
    record_index: u32,
)
    ensures
        ({
            let seconds = layout.seconds(order, record);
            let microseconds = layout.microseconds(order, record);
            &&& layout.decoded(order, record, record_index) is Ok <==> 0 <= seconds && 0
                <= microseconds < 1_000_000 && seconds * 1_000_000 + microseconds
                < 0x1_0000_0000_0000_0000
            &&& match layout.decoded(order, record, record_index) {
                Ok(_) => true,
                Err(InputEventDecodeError::InvalidTimestamp { record_index: named, .. }) => named
                    == record_index && !(0 <= seconds && 0 <= microseconds < 1_000_000),
                Err(InputEventDecodeError::TimestampOverflow { record_index: named }) => named
                    == record_index,
                Err(_) => false,
            }
        }),
{
}

/// A stream is decoded record by record: its n-th event is that of its n-th
/// record, and there are as many as whole records.
pub proof fn law_streams_are_decoded_record_by_record(
    layout: InputEventRecordLayout,
    order: Endianness,
    stream: Seq<u8>,
    first: int,
    k: int,
)
    requires
        decoded_stream(layout, order, stream, first) is Ok,
        0 <= k < decoded_stream(layout, order, stream, first)->Ok_0.len(),
    ensures
        ({
            let events = decoded_stream(layout, order, stream, first)->Ok_0;
            let size = layout.record_bytes() as int;
            &&& events.len() * size <= stream.len() < events.len() * size + size
            &&& 0 <= k * size && k * size + size <= stream.len()
            &&& layout.decoded(
                order,
                stream.subrange(k * size, k * size + size),
                (first + k) as u32,
            ) == Ok::<_, InputEventDecodeError>(events[k])
        }),
{
    let size = layout.record_bytes() as int;
    whole_records_are_counted(layout, order, stream, first);
    let events = decoded_stream(layout, order, stream, first)->Ok_0;
    assert(0 <= k * size && k * size + size <= events.len() * size) by (nonlinear_arith)
        requires
            0 <= k < events.len(),
            size > 0,
    ;
    record_is_decoded(layout, order, stream, first, k, k * size);
    reveal(reads_as);
}

/// Whether a record decodes to an event.
#[verifier::opaque]
spec fn reads_as(
    layout: InputEventRecordLayout,
    order: Endianness,
    record: Seq<u8>,
    index: u32,
    event: DecodedInputEvent,
) -> bool {
    layout.decoded(order, record, index) == Ok::<_, InputEventDecodeError>(event)
}

proof fn whole_records_are_counted(
    layout: InputEventRecordLayout,
    order: Endianness,
    stream: Seq<u8>,
    first: int,
)
    requires
        decoded_stream(layout, order, stream, first) is Ok,
    ensures
        ({
            let n = decoded_stream(layout, order, stream, first)->Ok_0.len();
            let size = layout.record_bytes() as int;
            n * size <= stream.len() < n * size + size
        }),
    decreases stream.len(),
{
    let size = layout.record_bytes() as int;
    if stream.len() >= size {
        let rest = stream.skip(size);
        whole_records_are_counted(layout, order, rest, first + 1);
        one_more_times(decoded_stream(layout, order, rest, first + 1)->Ok_0.len() as int, size);
    } else {
        assert(0 * size == 0);
    }
}

proof fn one_record_is_taken(
    layout: InputEventRecordLayout,
    order: Endianness,
    stream: Seq<u8>,
    first: int,
)
    requires
        decoded_stream(layout, order, stream, first) is Ok,
        stream.len() >= layout.record_bytes(),
    ensures
        ({
            let events = decoded_stream(layout, order, stream, first)->Ok_0;
            let size = layout.record_bytes() as int;
            let rest = decoded_stream(layout, order, stream.skip(size), first + 1);
            &&& rest is Ok
            &&& events.len() == rest->Ok_0.len() + 1
            &&& events.skip(1) == rest->Ok_0
            &&& reads_as(layout, order, stream.take(size), first as u32, events[0])
        }),
{
    reveal(reads_as);
    let size = layout.record_bytes() as int;
    let events = decoded_stream(layout, order, stream, first)->Ok_0;
    let rest = decoded_stream(layout, order, stream.skip(size), first + 1)->Ok_0;
    assert(events.skip(1) =~= rest);
}

proof fn record_is_decoded(
    layout: InputEventRecordLayout,
    order: Endianness,
    stream: Seq<u8>,
    first: int,
    k: int,
    at: int,
)
    requires
        decoded_stream(layout, order, stream, first) is Ok,
        0 <= k < decoded_stream(layout, order, stream, first)->Ok_0.len(),
        at == k * layout.record_bytes(),
        0 <= at,
        at + layout.record_bytes() <= stream.len(),
    ensures
        reads_as(
            layout,
            order,
            stream.subrange(at, at + layout.record_bytes()),
            (first + k) as u32,
            decoded_stream(layout, order, stream, first)->Ok_0[k],
        ),
    decreases k,
{
    let size = layout.record_bytes() as int;
    one_record_is_taken(layout, order, stream, first);
    let events = decoded_stream(layout, order, stream, first)->Ok_0;
    if k == 0 {
        assert(0 * size == 0);
        assert(stream.subrange(0, size) =~= stream.take(size));
    } else {
        one_more_times(k - 1, size);
        let rest = stream.skip(size);
        assert(at - size == (k - 1) * size);
        assert(0 <= (k - 1) * size) by (nonlinear_arith)
            requires
                k >= 1,
                size > 0,
        ;
        record_is_decoded(layout, order, rest, first + 1, k - 1, at - size);
        assert(rest.subrange(at - size, at) =~= stream.subrange(at, at + size));
        assert(events[k] == events.skip(1)[k - 1]);
    }
}

proof fn one_more_times(n: int, size: int)
    ensures
        (n + 1) * size == n * size + size,
{
    assert((n + 1) * size == n * size + size) by (nonlinear_arith);
}

/// A read gives the events of all whole records, together with the bytes that
/// were left over, counts them, and keeps the rest, which is less than a record.
/// A read that would pass the record limit gives nothing at all.
pub proof fn law_reads_give_whole_records(state: DecoderState, bytes: Seq<u8>, k: int)
    requires
        state.bounded(),
        state.partial.len() + bytes.len() <= usize::MAX,
        0 <= k,
    ensures
        ({
            let size = state.layout.record_bytes() as int;
            let stream = state.partial + bytes;
            &&& state.after(bytes) matches Ok((next, events)) ==> {
                &&& events.len() * size + next.partial.len() == stream.len()
                &&& next.partial.len() < size
                &&& next.partial == stream.skip(stream.len() - next.partial.len())
                &&& next.decoded_records == state.decoded_records + events.len()
                &&& next.decoded_records <= next.maximum_records
                &&& next.layout == state.layout
                &&& next.byte_order == state.byte_order
                &&& next.maximum_records == state.maximum_records
                &&& k < events.len() ==> state.layout.decoded(
                    state.byte_order,
                    stream.subrange(k * size, k * size + size),
                    (state.decoded_records + k) as u32,
                ) == Ok::<_, InputEventDecodeError>(events[k])
            }
            &&& state.decoded_records * size + stream.len() >= (state.maximum_records + 1) * size
                ==> state.after(bytes) is Err
        }),
{
    let size = state.layout.record_bytes() as int;
    let stream = state.partial + bytes;
    let incoming = state.incoming(bytes);
    vstd::arithmetic::div_mod::lemma_fundamental_div_mod(stream.len() as int, size);
    assert(size * incoming == incoming * size) by (nonlinear_arith);
    if let Ok((next, events)) = state.after(bytes) {
        let first = state.decoded_records as int;
        whole_records_are_counted(state.layout, state.byte_order, stream, first);
        if k < events.len() {
            law_streams_are_decoded_record_by_record(
                state.layout,
                state.byte_order,
                stream,
                first,
                k,
            );
        }
        let n = events.len() as int;
        assert(n == incoming) by (nonlinear_arith)
            requires
                n * size <= stream.len() < n * size + size,
                incoming * size <= stream.len() < incoming * size + size,
                size > 0,
        ;
    }
    if state.decoded_records * size + stream.len() >= (state.maximum_records + 1) * size {
        let held = state.decoded_records as int;
        let maximum = state.maximum_records as int;
        assert(held + incoming > maximum) by (nonlinear_arith)
            requires
                held * size + stream.len() >= (maximum + 1) * size,
                stream.len() < incoming * size + size,
                size > 0,
        ;
    }
}

/// The first event of a timeline lies at offset 0, each later one at its
/// distance from the first, and everything but the time stays as it was. An
/// event before the last one is refused, and so is one past the duration.
pub proof fn law_offsets_are_counted_from_the_first(
    state: TimelineState,
    event: DecodedInputEvent,
)
    ensures
        match state.after(event) {
            Ok((next, normalized)) => {
                &&& normalized.event_type == event.event_type
                &&& normalized.code == event.code
                &&& normalized.value == event.value
                &&& next.maximum_micros == state.maximum_micros
                &&& next.span is Some && next.span->0.latest == event.timestamp_micros
                &&& state.span is None ==> normalized.offset_micros == 0 && next.span->0.first
                    == event.timestamp_micros
                &&& state.span is Some ==> event.timestamp_micros >= state.span->0.latest
                    && next.span->0.first == state.span->0.first && (state.span->0.first
                    <= event.timestamp_micros ==> normalized.offset_micros
                    == event.timestamp_micros - state.span->0.first)
                &&& state.span is Some && state.span->0.first <= event.timestamp_micros
                    ==> event.timestamp_micros - state.span->0.first <= state.maximum_micros
            },
            Err(InputEventTimelineError::DecreasingTimestamp { previous_micros, observed_micros })
            => state.span is Some && previous_micros == state.span->0.latest && observed_micros
                == event.timestamp_micros && observed_micros < previous_micros,
            Err(InputEventTimelineError::DurationExceeded { maximum_micros, .. }) => state.span
                is Some && maximum_micros == state.maximum_micros && event.timestamp_micros
                - state.span->0.first > maximum_micros,
            Err(_) => false,
        },
{
}

/// Each message names what is wrong with a stream, with the values at fault.
pub proof fn law_decoding_messages_tell_what_is_wrong(told: InputEventDecodeError)
    ensures
        told matches InputEventDecodeError::UnsupportedAbi { abi } ==> told.spec_message()
            == "unsupported input_event ABI: pointer "@
            + crate::text::decimal(abi.pointer_width_bits as nat)
            + ", timeval "@
            + crate::text::decimal(abi.libc_timeval_bytes as nat)
            + ", record "@
            + crate::text::decimal(abi.libc_input_event_bytes as nat)
            + " bytes"@,
        told matches InputEventDecodeError::RecordLimitAboveMaximum { declared, maximum }
            ==> told.spec_message()
            == "input record limit "@
            + crate::text::decimal(declared as nat)
            + " exceeds "@
            + crate::text::decimal(maximum as nat),
        told matches InputEventDecodeError::RecordLimitExceeded { decoded, incoming, maximum }
            ==> told.spec_message()
            == crate::text::decimal(decoded as nat)
            + " decoded plus "@
            + crate::text::decimal(incoming as nat)
            + " incoming records exceeds "@
            + crate::text::decimal(maximum as nat),
        told matches InputEventDecodeError::InputLengthOverflow ==> told.spec_message()
            == "input chunk length overflow"@,
        told matches InputEventDecodeError::InvalidTimestamp { record_index, seconds, microseconds }
            ==> told.spec_message()
            == "input record "@
            + crate::text::decimal(record_index as nat)
            + " has invalid timestamp "@
            + crate::text::signed_decimal(seconds as int)
            + "."@
            + crate::text::signed_decimal(microseconds as int),
        told matches InputEventDecodeError::TimestampOverflow { record_index }
            ==> told.spec_message()
            == "input record "@
            + crate::text::decimal(record_index as nat)
            + " timestamp overflow"@,
        told matches InputEventDecodeError::TruncatedRecord { observed, expected }
            ==> told.spec_message()
            == "input stream ended with "@
            + crate::text::decimal(observed as nat)
            + " of "@
            + crate::text::decimal(expected as nat)
            + " record bytes"@,
        told matches InputEventDecodeError::InternalRecordSize { observed, expected }
            ==> told.spec_message()
            == "input decoder received "@
            + crate::text::decimal(observed as nat)
            + " bytes for a "@
            + crate::text::decimal(expected as nat)
            + "-byte record"@,
{
}

/// Each message names what is wrong with a time, with the values at fault.
pub proof fn law_timeline_messages_tell_what_is_wrong(told: InputEventTimelineError)
    ensures
        told matches InputEventTimelineError::DurationAboveMaximum {
            declared_millis,
            maximum_millis,
        }
            ==> told.spec_message()
            == "input duration "@
            + crate::text::decimal(declared_millis as nat)
            + " ms exceeds "@
            + crate::text::decimal(maximum_millis as nat)
            + " ms"@,
        told matches InputEventTimelineError::DecreasingTimestamp {
            previous_micros,
            observed_micros,
        }
            ==> told.spec_message()
            == "input timestamp "@
            + crate::text::decimal(observed_micros as nat)
            + " precedes "@
            + crate::text::decimal(previous_micros as nat),
        told matches InputEventTimelineError::DurationExceeded { observed_micros, maximum_micros }
            ==> told.spec_message()
            == "input offset "@
            + crate::text::decimal(observed_micros as nat)
            + " us exceeds "@
            + crate::text::decimal(maximum_micros as nat)
            + " us"@,
{
}

} // verus!
