//! Sanitized input traces and the replay of touch contacts.

use crate::nonzero::NonZeroU32;
use crate::probe::{InputDeviceId, InputEventAbi, ProbeWarning, RedactionMetadata};
use crate::string_map::StringMap;
use crate::text::{
    holds_text, push_decimal, push_signed_decimal, push_text, str_eq, strip_prefix, to_chars,
    CharSet,
};
use crate::transform::{DisplayPoint, InputTransform, RawPoint, TransformError};
use crate::wording::quote;
use std::collections::BTreeMap;
use vstd::prelude::*;

verus! {

/// The version of the input trace format.
pub const INPUT_TRACE_SCHEMA_VERSION: u32 = 1;

/// The redaction policy that every trace declares.
pub const CHARACTERIZATION_REDACTION_POLICY: &'static str = "ferrink-characterization-v1";

/// The largest serialized input trace that is accepted.
pub const MAX_INPUT_TRACE_JSON_BYTES: usize = 1_048_576;

/// The longest capture that may be declared.
pub const MAX_INPUT_TRACE_DURATION_MILLIS: u32 = 30_000;

/// The largest number of events that may be declared.
pub const MAX_INPUT_TRACE_EVENTS: u32 = 10_000;

/// Synchronization events.
pub const EV_SYN: u16 = 0;

/// Key events.
pub const EV_KEY: u16 = 1;

/// Absolute axis events.
pub const EV_ABS: u16 = 3;

/// End of one batch of events.
pub const SYN_REPORT: u16 = 0;

/// Single-touch X axis.
pub const ABS_X: u16 = 0;

/// Single-touch Y axis.
pub const ABS_Y: u16 = 1;

/// Selected contact slot.
pub const ABS_MT_SLOT: u16 = 47;

/// X axis of the selected contact.
pub const ABS_MT_POSITION_X: u16 = 53;

/// Y axis of the selected contact.
pub const ABS_MT_POSITION_Y: u16 = 54;

/// Tracking number of the selected contact.
pub const ABS_MT_TRACKING_ID: u16 = 57;

/// Pressure of the selected contact.
pub const ABS_MT_PRESSURE: u16 = 58;

/// Finger tool key.
pub const BTN_TOOL_FINGER: u16 = 325;

/// Touch key.
pub const BTN_TOUCH: u16 = 330;

/// The number of contact slots.
pub const MAX_TOUCH_SLOTS: i32 = 256;

/// The kinds of data that every trace must leave out, in the order in which
/// they are checked.
pub open spec fn required_categories() -> Seq<&'static str> {
    seq![
        "full_serial_numbers",
        "network_credentials_and_ssids",
        "tokens_and_account_data",
        "ssh_keys",
        "document_names",
        "process_command_lines",
        "key_text",
    ]
}

pub(crate) fn required_redaction_categories() -> (list: Vec<&'static str>)
    ensures
        list@ == required_categories(),
{
    let list: Vec<&'static str> =
        vec![
        "full_serial_numbers",
        "network_credentials_and_ssids",
        "tokens_and_account_data",
        "ssh_keys",
        "document_names",
        "process_command_lines",
        "key_text",
    ];
    assert(list@ =~= required_categories());
    list
}

/// Returns the redaction metadata of a new trace.
pub fn characterization_redaction_metadata() -> (metadata: RedactionMetadata)
    ensures
        metadata.enabled,
        metadata.policy@ == CHARACTERIZATION_REDACTION_POLICY@,
        crate::text::texts(metadata.excluded_categories@) == required_categories().map_values(
            |category: &'static str| category@,
        ),
{
    let required: Vec<&'static str> = required_redaction_categories();
    let mut excluded_categories: Vec<String> = Vec::new();
    let ghost expected = required_categories().map_values(|category: &'static str| category@);
    for i in 0..required.len()
        invariant
            required@ == required_categories(),
            expected == required_categories().map_values(|category: &'static str| category@),
            crate::text::texts(excluded_categories@) == expected.take(i as int),
    {
        push_text(&mut excluded_categories, required[i]);
        assert(expected.take(i + 1) =~= expected.take(i as int).push(required@[i as int]@));
    }
    assert(expected.take(expected.len() as int) =~= expected);
    RedactionMetadata {
        enabled: true,
        policy: CHARACTERIZATION_REDACTION_POLICY.to_owned(),
        excluded_categories,
    }
}

/// Identity of the selected input device.
#[derive(Debug, Clone, PartialEq, Eq)]
pub struct InputDeviceFingerprint {
    /// Event device path.
    pub device: String,
    /// Kernel device name, redacted by the collector.
    pub name: Option<String>,
    /// Bus/vendor/product/version identifiers.
    pub id: InputDeviceId,
    /// Kernel capability bitsets copied from the passive report.
    pub capabilities: StringMap<String>,
}

/// A Linux event type and code.
#[derive(Debug, Clone, Copy, PartialEq, Eq, PartialOrd, Ord, Structural)]
pub struct InputEventCode {
    /// Linux input event type.
    pub event_type: u16,
    /// Linux input event code within `event_type`.
    pub code: u16,
}

/// Capture bounds declared before an input trace starts.
#[derive(Debug, Clone, Copy, PartialEq, Eq, Structural)]
pub struct InputTraceLimits {
    /// Maximum wall duration of the capture.
    pub max_duration_millis: NonZeroU32,
    /// Maximum number of serialized events.
    pub max_events: NonZeroU32,
}

/// One raw Linux input event with a monotonic offset from capture start.
#[derive(Debug, Clone, Copy, PartialEq, Eq, Structural)]
pub struct InputTraceEvent {
    /// Monotonic microseconds since capture start.
    pub offset_micros: u64,
    /// Linux input event type.
    pub event_type: u16,
    /// Linux input event code.
    pub code: u16,
    /// Signed Linux input event value.
    pub value: i32,
}

/// Why a bounded input capture stopped.
#[derive(Debug, Clone, Copy, PartialEq, Eq, Structural)]
pub enum InputTraceStopReason {
    /// The reviewed interaction completed.
    Completed,
    /// The declared duration limit was reached.
    DurationLimit,
    /// The declared event limit was reached.
    EventLimit,
    /// The selected device disappeared.
    DeviceRemoved,
    /// A read failed before completion.
    ReadError,
    /// The operator stopped capture from the foreground session.
    OperatorStopped,
}

/// A sanitized, bounded input trace.
#[derive(Debug, Clone, PartialEq, Eq)]
pub struct InputTrace {
    /// Version of this trace format.
    pub schema_version: u32,
    /// Mandatory redaction contract.
    pub redaction: RedactionMetadata,
    /// Exact profile ID.
    pub profile_id: String,
    /// Selected device fingerprint from passive evidence.
    pub device: InputDeviceFingerprint,
    /// Layout used to decode raw event records.
    pub input_event_abi: InputEventAbi,
    /// Raw-to-display mapping.
    pub transform: InputTransform,
    /// Bounds declared before capture.
    pub limits: InputTraceLimits,
    /// Touch-only codes approved before capture.
    pub allowed_events: Vec<InputEventCode>,
    /// Monotonic bounded event sequence.
    pub events: Vec<InputTraceEvent>,
    /// Why capture stopped.
    pub stop_reason: InputTraceStopReason,
    /// Redacted bounded warnings.
    pub warnings: Vec<ProbeWarning>,
}

/// One way in which an input trace is invalid.
#[derive(Debug, Clone, PartialEq, Eq)]
#[allow(inconsistent_fields)]
#[non_exhaustive]
pub enum InputTraceValidationError {
    /// Schema version is not implemented.
    UnsupportedSchema { observed: u32 },
    /// Redaction was disabled.
    RedactionDisabled,
    /// Redaction policy did not match this schema.
    UnexpectedRedactionPolicy,
    /// One mandatory privacy category was absent.
    MissingRedactionCategory { category: &'static str },
    /// Profile ID was empty or contained unsafe characters.
    InvalidProfileId,
    /// Device path was not a numbered `/dev/input/event*` path.
    InvalidDevicePath,
    /// Event ABI fields were not internally consistent.
    InvalidInputEventAbi,
    /// Declared duration exceeded the hard schema bound.
    DurationLimitAboveMaximum { declared: u32, maximum: u32 },
    /// Declared event count exceeded the hard schema bound.
    EventLimitAboveMaximum { declared: u32, maximum: u32 },
    /// No event code was reviewed before capture.
    MissingAllowedEvents,
    /// A declared event code is outside the touch-only schema.
    DisallowedCodeDeclaration { event_type: u16, code: u16 },
    /// A declared event code was repeated.
    DuplicateAllowedEvent { event_type: u16, code: u16 },
    /// Serialized event count exceeded the declared bound.
    TooManyEvents { observed: usize, declared: u32 },
    /// A monotonic offset decreased.
    DecreasingOffset { index: usize },
    /// An event occurred after the declared duration.
    EventPastDuration { index: usize },
    /// An event was not in the reviewed per-trace allowlist.
    UndeclaredEvent { index: usize, event_type: u16, code: u16 },
}

impl InputTraceValidationError {
    /// The rendering of the error in a message.
    pub open spec fn rendered(self) -> Seq<char> {
        match self {
            InputTraceValidationError::UnsupportedSchema { observed } => {
                "UnsupportedSchema { observed: "@
                    + crate::text::decimal(observed as nat)
                    + " }"@
            },
            InputTraceValidationError::RedactionDisabled => "RedactionDisabled"@,
            InputTraceValidationError::UnexpectedRedactionPolicy => "UnexpectedRedactionPolicy"@,
            InputTraceValidationError::MissingRedactionCategory { category } => {
                "MissingRedactionCategory { category: "@
                    + crate::wording::quoted(category@)
                    + " }"@
            },
            InputTraceValidationError::InvalidProfileId => "InvalidProfileId"@,
            InputTraceValidationError::InvalidDevicePath => "InvalidDevicePath"@,
            InputTraceValidationError::InvalidInputEventAbi => "InvalidInputEventAbi"@,
            InputTraceValidationError::DurationLimitAboveMaximum { declared, maximum } => {
                "DurationLimitAboveMaximum { declared: "@
                    + crate::text::decimal(declared as nat)
                    + ", maximum: "@
                    + crate::text::decimal(maximum as nat)
                    + " }"@
            },
            InputTraceValidationError::EventLimitAboveMaximum { declared, maximum } => {
                "EventLimitAboveMaximum { declared: "@
                    + crate::text::decimal(declared as nat)
                    + ", maximum: "@
                    + crate::text::decimal(maximum as nat)
                    + " }"@
            },
            InputTraceValidationError::MissingAllowedEvents => "MissingAllowedEvents"@,
            InputTraceValidationError::DisallowedCodeDeclaration { event_type, code } => {
                "DisallowedCodeDeclaration { event_type: "@
                    + crate::text::decimal(event_type as nat)
                    + ", code: "@
                    + crate::text::decimal(code as nat)
                    + " }"@
            },
            InputTraceValidationError::DuplicateAllowedEvent { event_type, code } => {
                "DuplicateAllowedEvent { event_type: "@
                    + crate::text::decimal(event_type as nat)
                    + ", code: "@
                    + crate::text::decimal(code as nat)
                    + " }"@
            },
            InputTraceValidationError::TooManyEvents { observed, declared } => {
                "TooManyEvents { observed: "@
                    + crate::text::decimal(observed as nat)
                    + ", declared: "@
                    + crate::text::decimal(declared as nat)
                    + " }"@
            },
            InputTraceValidationError::DecreasingOffset { index } => {
                "DecreasingOffset { index: "@
                    + crate::text::decimal(index as nat)
                    + " }"@
            },
            InputTraceValidationError::EventPastDuration { index } => {
                "EventPastDuration { index: "@
                    + crate::text::decimal(index as nat)
                    + " }"@
            },
            InputTraceValidationError::UndeclaredEvent { index, event_type, code } => {
                "UndeclaredEvent { index: "@
                    + crate::text::decimal(index as nat)
                    + ", event_type: "@
                    + crate::text::decimal(event_type as nat)
                    + ", code: "@
                    + crate::text::decimal(code as nat)
                    + " }"@
            },
        }
    }

    /// Renders the error for a message.
    pub fn render(&self) -> (text: String)
        ensures
            text@ == self.rendered(),
    {
        let mut text: String = String::new();
        match self {
            InputTraceValidationError::UnsupportedSchema { observed } => {
                text.append("UnsupportedSchema { observed: ");
                push_decimal(&mut text, *observed as u64);
                text.append(" }");
            },
            InputTraceValidationError::RedactionDisabled => {
                text.append("RedactionDisabled");
            },
            InputTraceValidationError::UnexpectedRedactionPolicy => {
                text.append("UnexpectedRedactionPolicy");
            },
            InputTraceValidationError::MissingRedactionCategory { category } => {
                text.append("MissingRedactionCategory { category: ");
                text.append(quote(category).as_str());
                text.append(" }");
            },
            InputTraceValidationError::InvalidProfileId => {
                text.append("InvalidProfileId");
            },
            InputTraceValidationError::InvalidDevicePath => {
                text.append("InvalidDevicePath");
            },
            InputTraceValidationError::InvalidInputEventAbi => {
                text.append("InvalidInputEventAbi");
            },
            InputTraceValidationError::DurationLimitAboveMaximum { declared, maximum } => {
                text.append("DurationLimitAboveMaximum { declared: ");
                push_decimal(&mut text, *declared as u64);
                text.append(", maximum: ");
                push_decimal(&mut text, *maximum as u64);
                text.append(" }");
            },
            InputTraceValidationError::EventLimitAboveMaximum { declared, maximum } => {
                text.append("EventLimitAboveMaximum { declared: ");
                push_decimal(&mut text, *declared as u64);
                text.append(", maximum: ");
                push_decimal(&mut text, *maximum as u64);
                text.append(" }");
            },
            InputTraceValidationError::MissingAllowedEvents => {
                text.append("MissingAllowedEvents");
            },
            InputTraceValidationError::DisallowedCodeDeclaration { event_type, code } => {
                text.append("DisallowedCodeDeclaration { event_type: ");
                push_decimal(&mut text, *event_type as u64);
                text.append(", code: ");
                push_decimal(&mut text, *code as u64);
                text.append(" }");
            },
            InputTraceValidationError::DuplicateAllowedEvent { event_type, code } => {
                text.append("DuplicateAllowedEvent { event_type: ");
                push_decimal(&mut text, *event_type as u64);
                text.append(", code: ");
                push_decimal(&mut text, *code as u64);
                text.append(" }");
            },
            InputTraceValidationError::TooManyEvents { observed, declared } => {
                text.append("TooManyEvents { observed: ");
                push_decimal(&mut text, *observed as u64);
                text.append(", declared: ");
                push_decimal(&mut text, *declared as u64);
                text.append(" }");
            },
            InputTraceValidationError::DecreasingOffset { index } => {
                text.append("DecreasingOffset { index: ");
                push_decimal(&mut text, *index as u64);
                text.append(" }");
            },
            InputTraceValidationError::EventPastDuration { index } => {
                text.append("EventPastDuration { index: ");
                push_decimal(&mut text, *index as u64);
                text.append(" }");
            },
            InputTraceValidationError::UndeclaredEvent { index, event_type, code } => {
                text.append("UndeclaredEvent { index: ");
                push_decimal(&mut text, *index as u64);
                text.append(", event_type: ");
                push_decimal(&mut text, *event_type as u64);
                text.append(", code: ");
                push_decimal(&mut text, *code as u64);
                text.append(" }");
            },
        }
        assert(text@ =~= self.rendered());
        text
    }
}

/// The renderings of a list of errors, in square brackets.
pub open spec fn rendered_errors(errors: Seq<InputTraceValidationError>) -> Seq<char> {
    "["@ + crate::text::joined(
        errors.map_values(|error: InputTraceValidationError| error.rendered()),
        ", "@,
    ) + "]"@
}

/// Appends the renderings of a list of errors, in square brackets.
pub(crate) fn push_errors(out: &mut String, errors: &Vec<InputTraceValidationError>)
    ensures
        final(out)@ == old(out)@ + rendered_errors(errors@),
{
    let ghost all = errors@.map_values(|error: InputTraceValidationError| error.rendered());
    out.append("[");
    let ghost opened = out@;
    assert(opened + crate::text::joined(all.take(0), ", "@) =~= opened);
    for i in 0..errors.len()
        invariant
            all == errors@.map_values(|error: InputTraceValidationError| error.rendered()),
            out@ == opened + crate::text::joined(all.take(i as int), ", "@),
    {
        assert(all.take(i + 1).drop_last() =~= all.take(i as int));
        assert(all.take(i + 1).last() == errors@[i as int].rendered());
        if i > 0 {
            out.append(", ");
        }
        out.append(errors[i].render().as_str());
        assert(out@ =~= opened + crate::text::joined(all.take(i + 1), ", "@));
    }
    assert(all.take(all.len() as int) =~= all);
    out.append("]");
    assert(out@ =~= old(out)@ + rendered_errors(errors@));
}

/// Failure reading or validating a serialized input trace.
#[derive(Debug, Clone, PartialEq, Eq)]
#[non_exhaustive]
pub enum InputTraceError {
    /// Serialized input exceeded the fixed byte limit.
    InputTooLarge { bytes: usize, maximum: usize },
    /// JSON syntax or shape was invalid.
    Json(String),
    /// The data violated trace invariants.
    Validation(Vec<InputTraceValidationError>),
}

impl InputTraceError {
    /// The operator-facing description of the error.
    pub open spec fn spec_message(self) -> Seq<char> {
        match self {
            InputTraceError::InputTooLarge { bytes, maximum } => {
                "input trace is "@ + crate::text::decimal(bytes as nat) + " bytes; maximum is "@
                    + crate::text::decimal(maximum as nat)
            },
            InputTraceError::Json(error) => "invalid input trace JSON: "@ + error@,
            InputTraceError::Validation(errors) => {
                "invalid input trace: "@ + rendered_errors(errors@)
            },
        }
    }

    /// Describes the error for an operator.
    pub fn message(&self) -> (message: String)
        ensures
            message@ == self.spec_message(),
    {
        let mut message: String = String::new();
        match self {
            InputTraceError::InputTooLarge { bytes, maximum } => {
                message.append("input trace is ");
                push_decimal(&mut message, *bytes as u64);
                message.append(" bytes; maximum is ");
                push_decimal(&mut message, *maximum as u64);
            },
            InputTraceError::Json(error) => {
                message.append("invalid input trace JSON: ");
                message.append(error.as_str());
            },
            InputTraceError::Validation(errors) => {
                message.append("invalid input trace: ");
                push_errors(&mut message, errors);
            },
        }
        assert(message@ =~= self.spec_message());
        message
    }
}

impl InputTrace {
    /// Accepts or refuses a serialized trace by its size.
    pub fn check_size(bytes: usize) -> (result: Result<(), InputTraceError>)
        ensures
            match result {
                Ok(()) => bytes <= MAX_INPUT_TRACE_JSON_BYTES,
                Err(error) => bytes > MAX_INPUT_TRACE_JSON_BYTES && error
                    == (InputTraceError::InputTooLarge {
                    bytes,
                    maximum: MAX_INPUT_TRACE_JSON_BYTES,
                }),
            },
    {
        if bytes > MAX_INPUT_TRACE_JSON_BYTES {
            return Err(
                InputTraceError::InputTooLarge { bytes, maximum: MAX_INPUT_TRACE_JSON_BYTES },
            );
        }
        Ok(())
    }

    /// Takes the outcome of reading a JSON document, and accepts a trace that
    /// keeps every rule.
    pub fn from_parsed(parsed: Result<Self, String>) -> (result: Result<Self, InputTraceError>)
        ensures
            match (parsed, result) {
                (Err(error), Err(InputTraceError::Json(reported))) => reported@ == error@,
                (Ok(trace), Err(InputTraceError::Validation(errors))) => {
                    &&& errors@.len() > 0
                    &&& trace.is_told_by(errors@)
                },
                (Ok(trace), Ok(accepted)) => trace.violations().len() == 0 && accepted == trace,
                _ => false,
            },
    {
        match parsed {
            Ok(trace) => match trace.validate() {
                Ok(()) => Ok(trace),
                Err(errors) => Err(InputTraceError::Validation(errors)),
            },
            Err(error) => Err(InputTraceError::Json(error)),
        }
    }
}

/// Whether a profile ID is 1 to 128 lower-case letters, digits, hyphens and
/// underscores.
pub open spec fn is_profile_id(value: Seq<char>) -> bool {
    1 <= value.len() <= 128 && CharSet::ProfileId.covers(value)
}

/// Whether `value` is `prefix` followed by decimal digits and nothing else.
pub open spec fn is_numbered(value: Seq<char>, prefix: Seq<char>) -> bool {
    &&& value.len() > prefix.len()
    &&& crate::text::begins(value, prefix)
    &&& CharSet::Digit.covers(value.skip(prefix.len() as int))
}

/// Whether the layout is one of the two known ones.
pub open spec fn is_known_event_abi(abi: InputEventAbi) -> bool {
    ||| abi == (InputEventAbi {
        pointer_width_bits: 32,
        libc_timeval_bytes: 8,
        libc_input_event_bytes: 16,
    })
    ||| abi == (InputEventAbi {
        pointer_width_bits: 64,
        libc_timeval_bytes: 16,
        libc_input_event_bytes: 24,
    })
}

/// Whether an event code can appear in a touch trace.
pub open spec fn is_touch_code(event_type: u16, code: u16) -> bool {
    ||| event_type == EV_SYN && code == SYN_REPORT
    ||| event_type == EV_KEY && (code == BTN_TOOL_FINGER || code == BTN_TOUCH)
    ||| event_type == EV_ABS && (code == ABS_X || code == ABS_Y || code == ABS_MT_SLOT || code
        == ABS_MT_POSITION_X || code == ABS_MT_POSITION_Y || code == ABS_MT_TRACKING_ID || code
        == ABS_MT_PRESSURE)
}

/// Which of the first `n` required categories the metadata does not list.
pub open spec fn missing_categories(excluded: Seq<Seq<char>>, n: int) -> Seq<
    InputTraceValidationError,
>
    decreases n,
{
    if n <= 0 {
        seq![]
    } else {
        let category = required_categories()[n - 1];
        let before = missing_categories(excluded, n - 1);
        if excluded.contains(category@) {
            before
        } else {
            before.push(InputTraceValidationError::MissingRedactionCategory { category })
        }
    }
}

/// What is wrong with the first `n` declared event codes.
pub open spec fn code_violations(allowed: Seq<InputEventCode>, n: int) -> Seq<
    InputTraceValidationError,
>
    decreases n,
{
    if n <= 0 {
        seq![]
    } else {
        let code = allowed[n - 1];
        let disallowed = if is_touch_code(code.event_type, code.code) {
            seq![]
        } else {
            seq![
                InputTraceValidationError::DisallowedCodeDeclaration {
                    event_type: code.event_type,
                    code: code.code,
                },
            ]
        };
        let duplicate = if allowed.take(n - 1).contains(code) {
            seq![
                InputTraceValidationError::DuplicateAllowedEvent {
                    event_type: code.event_type,
                    code: code.code,
                },
            ]
        } else {
            seq![]
        };
        code_violations(allowed, n - 1) + disallowed + duplicate
    }
}

/// `error` where `wrong` holds, and nothing where it does not.
pub open spec fn when_wrong<E>(wrong: bool, error: E) -> Seq<E> {
    if wrong {
        seq![error]
    } else {
        seq![]
    }
}

/// What is wrong with the event at `i`.
pub open spec fn violations_at(
    allowed: Seq<InputEventCode>,
    maximum_offset: int,
    events: Seq<InputTraceEvent>,
    i: int,
) -> Seq<InputTraceValidationError> {
    let event = events[i];
    when_wrong(
        i > 0 && event.offset_micros < events[i - 1].offset_micros,
        InputTraceValidationError::DecreasingOffset { index: i as usize },
    ) + when_wrong(
        event.offset_micros > maximum_offset,
        InputTraceValidationError::EventPastDuration { index: i as usize },
    ) + when_wrong(
        !allowed.contains(InputEventCode { event_type: event.event_type, code: event.code }),
        InputTraceValidationError::UndeclaredEvent {
            index: i as usize,
            event_type: event.event_type,
            code: event.code,
        },
    )
}

/// What is wrong with the first `n` events.
pub open spec fn event_violations(
    allowed: Seq<InputEventCode>,
    maximum_offset: int,
    events: Seq<InputTraceEvent>,
    n: int,
) -> Seq<InputTraceValidationError>
    decreases n,
{
    if n <= 0 {
        seq![]
    } else {
        event_violations(allowed, maximum_offset, events, n - 1) + violations_at(
            allowed,
            maximum_offset,
            events,
            n - 1,
        )
    }
}

impl InputTrace {
    /// What is wrong with schema, privacy, profile, device and event layout, in
    /// the order in which it is reported.
    pub open spec fn header_violations(&self) -> Seq<InputTraceValidationError> {
        when_wrong(
            self.schema_version != INPUT_TRACE_SCHEMA_VERSION,
            InputTraceValidationError::UnsupportedSchema { observed: self.schema_version },
        ) + when_wrong(
            !self.redaction.enabled,
            InputTraceValidationError::RedactionDisabled,
        ) + when_wrong(
            self.redaction.policy@ != CHARACTERIZATION_REDACTION_POLICY@,
            InputTraceValidationError::UnexpectedRedactionPolicy,
        ) + missing_categories(
            crate::text::texts(self.redaction.excluded_categories@),
            required_categories().len() as int,
        ) + when_wrong(
            !is_profile_id(self.profile_id@),
            InputTraceValidationError::InvalidProfileId,
        ) + when_wrong(
            !is_numbered(self.device.device@, "/dev/input/event"@),
            InputTraceValidationError::InvalidDevicePath,
        ) + when_wrong(
            !is_known_event_abi(self.input_event_abi),
            InputTraceValidationError::InvalidInputEventAbi,
        )
    }

    /// Whether the errors are exactly what is wrong before the limits.
    pub open spec fn header_is_told_by(&self, errors: Seq<InputTraceValidationError>) -> bool {
        errors == self.header_violations()
    }

    /// Everything that is wrong with the trace, in the order in which it is
    /// reported.
    #[verifier::opaque]
    pub open spec fn violations(&self) -> Seq<InputTraceValidationError> {
        let duration = self.limits.max_duration_millis@;
        let limit = self.limits.max_events@;
        self.header_violations() + when_wrong(
            duration > MAX_INPUT_TRACE_DURATION_MILLIS,
            InputTraceValidationError::DurationLimitAboveMaximum {
                declared: duration,
                maximum: MAX_INPUT_TRACE_DURATION_MILLIS,
            },
        ) + when_wrong(
            limit > MAX_INPUT_TRACE_EVENTS,
            InputTraceValidationError::EventLimitAboveMaximum {
                declared: limit,
                maximum: MAX_INPUT_TRACE_EVENTS,
            },
        ) + when_wrong(
            self.allowed_events@.len() == 0,
            InputTraceValidationError::MissingAllowedEvents,
        ) + code_violations(self.allowed_events@, self.allowed_events@.len() as int) + when_wrong(
            self.events@.len() > limit,
            InputTraceValidationError::TooManyEvents {
                observed: self.events@.len() as usize,
                declared: limit,
            },
        ) + event_violations(
            self.allowed_events@,
            duration * 1_000,
            self.events@,
            self.events@.len() as int,
        )
    }

    /// Whether the errors are exactly what is wrong with the trace.
    pub open spec fn is_told_by(&self, errors: Seq<InputTraceValidationError>) -> bool {
        errors == self.violations()
    }

    #[verifier::spinoff_prover]
    #[verifier::rlimit(40)]
    fn check_header(&self) -> (errors: Vec<InputTraceValidationError>)
        ensures
            self.header_is_told_by(errors@),
    {
        let mut errors: Vec<InputTraceValidationError> = Vec::new();
        let schema: bool = self.schema_version != INPUT_TRACE_SCHEMA_VERSION;
        note(
            &mut errors,
            schema,
            InputTraceValidationError::UnsupportedSchema { observed: self.schema_version },
        );
        assert(errors@ =~= when_wrong(
            schema,
            InputTraceValidationError::UnsupportedSchema { observed: self.schema_version },
        ));
        note(
            &mut errors,
            !self.redaction.enabled,
            InputTraceValidationError::RedactionDisabled,
        );
        note(
            &mut errors,
            !str_eq(self.redaction.policy.as_str(), CHARACTERIZATION_REDACTION_POLICY),
            InputTraceValidationError::UnexpectedRedactionPolicy,
        );
        check_categories(&self.redaction.excluded_categories, &mut errors);
        note(
            &mut errors,
            !valid_profile_id(self.profile_id.as_str()),
            InputTraceValidationError::InvalidProfileId,
        );
        note(
            &mut errors,
            !numbered(self.device.device.as_str(), "/dev/input/event"),
            InputTraceValidationError::InvalidDevicePath,
        );
        note(
            &mut errors,
            !valid_input_event_abi(self.input_event_abi),
            InputTraceValidationError::InvalidInputEventAbi,
        );
        errors
    }

    /// Checks schema, privacy, bounds, event codes and event order.
    ///
    /// Every violation is reported.
    #[verifier::spinoff_prover]
    #[verifier::rlimit(40)]
    pub fn validate(&self) -> (result: Result<(), Vec<InputTraceValidationError>>)
        ensures
            match result {
                Ok(()) => self.violations().len() == 0,
                Err(errors) => errors@.len() > 0 && self.is_told_by(errors@),
            },
    {
        proof {
            reveal(InputTrace::violations);
        }
        let mut errors: Vec<InputTraceValidationError> = self.check_header();
        let duration_limit: u32 = self.limits.max_duration_millis.get();
        let event_limit: u32 = self.limits.max_events.get();
        let maximum_offset: u64 = duration_limit as u64 * 1_000;
        note(
            &mut errors,
            duration_limit > MAX_INPUT_TRACE_DURATION_MILLIS,
            InputTraceValidationError::DurationLimitAboveMaximum {
                declared: duration_limit,
                maximum: MAX_INPUT_TRACE_DURATION_MILLIS,
            },
        );
        note(
            &mut errors,
            event_limit > MAX_INPUT_TRACE_EVENTS,
            InputTraceValidationError::EventLimitAboveMaximum {
                declared: event_limit,
                maximum: MAX_INPUT_TRACE_EVENTS,
            },
        );
        note(
            &mut errors,
            self.allowed_events.is_empty(),
            InputTraceValidationError::MissingAllowedEvents,
        );
        check_codes(&self.allowed_events, &mut errors);
        note(
            &mut errors,
            self.events.len() > event_limit as usize,
            InputTraceValidationError::TooManyEvents {
                observed: self.events.len(),
                declared: event_limit,
            },
        );
        check_events(&self.allowed_events, maximum_offset, &self.events, &mut errors);
        if errors.is_empty() {
            Ok(())
        } else {
            Err(errors)
        }
    }

    /// Replays the touch events into logical display events.
    ///
    /// Secondary contacts never release the selected primary contact, and
    /// coordinates received before a tracking ID are retained until the next
    /// synchronization report.
    pub fn replay_touch(&self) -> (result: Result<Vec<LogicalTouchEvent>, InputReplayError>)
        ensures
            match result {
                Ok(output) => self.violations().len() == 0 && replayed(
                    TouchState::initial(self.transform),
                    self.events@,
                    self.events@.len() as int,
                ) is Ok && output@ == replayed(
                    TouchState::initial(self.transform),
                    self.events@,
                    self.events@.len() as int,
                )->Ok_0.1,
                Err(InputReplayError::InvalidTrace(errors)) => self.violations().len() > 0
                    && self.is_told_by(errors@),
                Err(error) => self.violations().len() == 0 && replayed(
                    TouchState::initial(self.transform),
                    self.events@,
                    self.events@.len() as int,
                ) == Err::<(TouchState, Seq<LogicalTouchEvent>), InputReplayError>(error),
            },
    {
        match self.validate() {
            Ok(()) => {},
            Err(errors) => {
                return Err(InputReplayError::InvalidTrace(errors));
            },
        }
        self.replay_events()
    }

    fn replay_events(&self) -> (result: Result<Vec<LogicalTouchEvent>, InputReplayError>)
        ensures
            ({
                let expected = replayed(
                    TouchState::initial(self.transform),
                    self.events@,
                    self.events@.len() as int,
                );
                match result {
                    Ok(output) => expected is Ok && output@ == expected->Ok_0.1,
                    Err(error) => expected is Err && error == expected->Err_0 && !(error
                        is InvalidTrace),
                }
            }),
    {
        let mut tracker: TouchTracker = TouchTracker::new(self.transform);
        let mut output: Vec<LogicalTouchEvent> = Vec::new();
        let ghost start = TouchState::initial(self.transform);
        for i in 0..self.events.len()
            invariant
                start == TouchState::initial(self.transform),
                replayed(start, self.events@, i as int) == Ok::<_, InputReplayError>(
                    (tracker@, output@),
                ),
        {
            let event: InputTraceEvent = self.events[i];
            match tracker.push(event.event_type, event.code, event.value) {
                Ok(Some(contact)) => {
                    output.push(
                        LogicalTouchEvent {
                            offset_micros: event.offset_micros,
                            phase: contact.phase,
                            point: contact.point,
                        },
                    );
                },
                Ok(None) => {},
                Err(error) => {
                    proof {
                        replay_error_is_final(
                            start,
                            self.events@,
                            i + 1,
                            self.events@.len() as int,
                            error,
                        );
                    }
                    return Err(error);
                },
            }
        }
        Ok(output)
    }
}

/// Appends `error` where `wrong` holds.
pub(crate) fn note<E>(errors: &mut Vec<E>, wrong: bool, error: E)
    ensures
        final(errors)@ == old(errors)@ + when_wrong(wrong, error),
{
    if wrong {
        errors.push(error);
    }
    assert(errors@ =~= old(errors)@ + when_wrong(wrong, error));
}

fn check_categories(excluded: &Vec<String>, errors: &mut Vec<InputTraceValidationError>)
    ensures
        final(errors)@ == old(errors)@ + missing_categories(
            crate::text::texts(excluded@),
            required_categories().len() as int,
        ),
{
    let required: Vec<&'static str> = required_redaction_categories();
    let ghost listed = crate::text::texts(excluded@);
    for i in 0..required.len()
        invariant
            required@ == required_categories(),
            listed == crate::text::texts(excluded@),
            errors@ == old(errors)@ + missing_categories(listed, i as int),
    {
        if !holds_text(excluded, required[i]) {
            errors.push(
                InputTraceValidationError::MissingRedactionCategory { category: required[i] },
            );
        }
        assert(errors@ =~= old(errors)@ + missing_categories(listed, i + 1));
    }
}

fn check_codes(allowed: &Vec<InputEventCode>, errors: &mut Vec<InputTraceValidationError>)
    ensures
        final(errors)@ == old(errors)@ + code_violations(allowed@, allowed@.len() as int),
{
    for i in 0..allowed.len()
        invariant
            errors@ == old(errors)@ + code_violations(allowed@, i as int),
    {
        let code: InputEventCode = allowed[i];
        if !safe_touch_code(code) {
            errors.push(
                InputTraceValidationError::DisallowedCodeDeclaration {
                    event_type: code.event_type,
                    code: code.code,
                },
            );
        }
        if declares(allowed, i, code) {
            errors.push(
                InputTraceValidationError::DuplicateAllowedEvent {
                    event_type: code.event_type,
                    code: code.code,
                },
            );
        }
        assert(errors@ =~= old(errors)@ + code_violations(allowed@, i + 1));
    }
}

fn check_events(
    allowed: &Vec<InputEventCode>,
    maximum_offset: u64,
    events: &Vec<InputTraceEvent>,
    errors: &mut Vec<InputTraceValidationError>,
)
    ensures
        final(errors)@ == old(errors)@ + event_violations(
            allowed@,
            maximum_offset as int,
            events@,
            events@.len() as int,
        ),
{
    assert(errors@ =~= old(errors)@ + event_violations(
        allowed@,
        maximum_offset as int,
        events@,
        0,
    ));
    for i in 0..events.len()
        invariant
            errors@ == old(errors)@ + event_violations(
                allowed@,
                maximum_offset as int,
                events@,
                i as int,
            ),
    {
        let ghost before = event_violations(allowed@, maximum_offset as int, events@, i as int);
        let ghost here = violations_at(allowed@, maximum_offset as int, events@, i as int);
        check_event(allowed, maximum_offset, events, i, errors);
        assert(old(errors)@ + (before + here) =~= (old(errors)@ + before) + here);
    }
}

fn check_event(
    allowed: &Vec<InputEventCode>,
    maximum_offset: u64,
    events: &Vec<InputTraceEvent>,
    i: usize,
    errors: &mut Vec<InputTraceValidationError>,
)
    requires
        i < events@.len(),
    ensures
        final(errors)@ == old(errors)@ + violations_at(
            allowed@,
            maximum_offset as int,
            events@,
            i as int,
        ),
{
    let event: InputTraceEvent = events[i];
    let code: InputEventCode = InputEventCode { event_type: event.event_type, code: event.code };
    note(
        errors,
        i > 0 && event.offset_micros < events[i - 1].offset_micros,
        InputTraceValidationError::DecreasingOffset { index: i },
    );
    note(
        errors,
        event.offset_micros > maximum_offset,
        InputTraceValidationError::EventPastDuration { index: i },
    );
    assert(allowed@.take(allowed@.len() as int) =~= allowed@);
    note(
        errors,
        !declares(allowed, allowed.len(), code),
        InputTraceValidationError::UndeclaredEvent {
            index: i,
            event_type: event.event_type,
            code: event.code,
        },
    );
    assert(errors@ =~= old(errors)@ + violations_at(
        allowed@,
        maximum_offset as int,
        events@,
        i as int,
    ));
}

/// Whether `code` is among the first `n` declared codes.
fn declares(allowed: &Vec<InputEventCode>, n: usize, code: InputEventCode) -> (found: bool)
    requires
        n <= allowed@.len(),
    ensures
        found == allowed@.take(n as int).contains(code),
{
    for i in 0..n
        invariant
            n <= allowed@.len(),
            forall|j: int| 0 <= j < i ==> allowed@[j] != code,
    {
        if allowed[i] == code {
            assert(allowed@.take(n as int)[i as int] == code);
            return true;
        }
    }
    false
}

pub(crate) fn valid_profile_id(value: &str) -> (valid: bool)
    ensures
        valid == is_profile_id(value@),
{
    let chars: Vec<char> = to_chars(value);
    1 <= chars.len() && chars.len() <= 128 && CharSet::ProfileId.test_all(chars.as_slice())
}

pub(crate) fn numbered(value: &str, prefix: &str) -> (valid: bool)
    ensures
        valid == is_numbered(value@, prefix@),
{
    let chars: Vec<char> = to_chars(value);
    match strip_prefix(chars.as_slice(), prefix) {
        Some(rest) => rest.len() > 0 && CharSet::Digit.test_all(rest),
        None => false,
    }
}

fn valid_input_event_abi(abi: InputEventAbi) -> (valid: bool)
    ensures
        valid == is_known_event_abi(abi),
{
    (abi.pointer_width_bits == 32 && abi.libc_timeval_bytes == 8 && abi.libc_input_event_bytes
        == 16) || (abi.pointer_width_bits == 64 && abi.libc_timeval_bytes == 16
        && abi.libc_input_event_bytes == 24)
}

fn safe_touch_code(code: InputEventCode) -> (safe: bool)
    ensures
        safe == is_touch_code(code.event_type, code.code),
{
    let event_type: u16 = code.event_type;
    let code: u16 = code.code;
    (event_type == EV_SYN && code == SYN_REPORT) || (event_type == EV_KEY && (code
        == BTN_TOOL_FINGER || code == BTN_TOUCH)) || (event_type == EV_ABS && (code == ABS_X
        || code == ABS_Y || code == ABS_MT_SLOT || code == ABS_MT_POSITION_X || code
        == ABS_MT_POSITION_Y || code == ABS_MT_TRACKING_ID || code == ABS_MT_PRESSURE))
}

/// Phase of a logical contact.
#[derive(Debug, Clone, Copy, PartialEq, Eq, Structural)]
pub enum LogicalTouchPhase {
    /// Primary contact became complete and active.
    Pressed,
    /// Primary contact coordinates changed.
    Moved,
    /// Primary contact ended.
    Released,
}

/// One logical contact update.
#[derive(Debug, Clone, Copy, PartialEq, Eq, Structural)]
pub struct TouchContactEvent {
    /// Logical contact phase.
    pub phase: LogicalTouchPhase,
    /// Transformed point inside the output display extent.
    pub point: DisplayPoint,
}

/// One logical display-space touch event produced at `SYN_REPORT`.
#[derive(Debug, Clone, Copy, PartialEq, Eq, Structural)]
pub struct LogicalTouchEvent {
    /// Monotonic offset of the synchronization report.
    pub offset_micros: u64,
    /// Logical contact phase.
    pub phase: LogicalTouchPhase,
    /// Transformed point inside the output display extent.
    pub point: DisplayPoint,
}

/// Why touch events could not be replayed.
#[derive(Debug)]
#[non_exhaustive]
pub enum InputReplayError {
    /// Trace validation failed before replay.
    InvalidTrace(Vec<InputTraceValidationError>),
    /// Slot value was negative or above the schema bound.
    InvalidSlot { value: i32 },
    /// Tracking ID was less than `-1`.
    InvalidTrackingId { value: i32 },
    /// A live slot's tracking ID changed without a release.
    TrackingIdReplaced { slot: i32 },
    /// The event is not a touch event.
    InvalidState,
    /// Coordinate mapping failed.
    Transform(TransformError),
}

impl InputReplayError {
    /// The operator-facing description of the error.
    pub open spec fn spec_message(self) -> Seq<char> {
        match self {
            InputReplayError::InvalidTrace(errors) => {
                "invalid input trace: "@ + rendered_errors(errors@)
            },
            InputReplayError::InvalidSlot { value } => {
                "invalid touch slot "@ + crate::text::signed_decimal(value as int)
            },
            InputReplayError::InvalidTrackingId { value } => {
                "invalid touch tracking ID "@ + crate::text::signed_decimal(value as int)
            },
            InputReplayError::TrackingIdReplaced { slot } => {
                "tracking ID replaced without release in slot "@ + crate::text::signed_decimal(
                    slot as int,
                )
            },
            InputReplayError::InvalidState => "contradictory touch replay state"@,
            InputReplayError::Transform(error) => {
                "touch transform failed: "@ + error.spec_message()
            },
        }
    }

    /// Describes the error for an operator.
    pub fn message(&self) -> (message: String)
        ensures
            message@ == self.spec_message(),
    {
        let mut message: String = String::new();
        match self {
            InputReplayError::InvalidTrace(errors) => {
                message.append("invalid input trace: ");
                push_errors(&mut message, errors);
            },
            InputReplayError::InvalidSlot { value } => {
                message.append("invalid touch slot ");
                push_signed_decimal(&mut message, *value as i64);
            },
            InputReplayError::InvalidTrackingId { value } => {
                message.append("invalid touch tracking ID ");
                push_signed_decimal(&mut message, *value as i64);
            },
            InputReplayError::TrackingIdReplaced { slot } => {
                message.append("tracking ID replaced without release in slot ");
                push_signed_decimal(&mut message, *slot as i64);
            },
            InputReplayError::InvalidState => {
                message.append("contradictory touch replay state");
            },
            InputReplayError::Transform(error) => {
                message.append("touch transform failed: ");
                message.append(error.message().as_str());
            },
        }
        assert(message@ =~= self.spec_message());
        message
    }
}

impl From<TransformError> for InputReplayError {
    fn from(error: TransformError) -> (failure: Self) {
        InputReplayError::Transform(error)
    }
}

impl vstd::std_specs::convert::FromSpecImpl<TransformError> for InputReplayError {
    open spec fn obeys_from_spec() -> bool {
        true
    }

    open spec fn from_spec(error: TransformError) -> Self {
        InputReplayError::Transform(error)
    }
}

/// What is known of one contact slot.
#[derive(Debug, Clone, Copy, PartialEq, Eq, Structural)]
pub struct SlotState {
    /// The tracking number, while the contact lives.
    pub tracking_id: Option<i32>,
    /// The last raw X value.
    pub raw_x: Option<i32>,
    /// The last raw Y value.
    pub raw_y: Option<i32>,
    /// Whether something changed since the last report.
    pub dirty: bool,
    /// Whether the contact was reported as pressed.
    pub reported: bool,
    /// Whether the contact ends with the next synchronization.
    pub pending_release: bool,
}

impl SlotState {
    /// A slot of which nothing is known.
    pub open spec fn blank() -> SlotState {
        SlotState {
            tracking_id: None,
            raw_x: None,
            raw_y: None,
            dirty: false,
            reported: false,
            pending_release: false,
        }
    }

    /// The slot after its raw X value became `value`.
    pub open spec fn moved_x(self, value: i32) -> SlotState {
        SlotState {
            raw_x: Some(value),
            dirty: self.dirty || self.raw_x != Some(value),
            ..self
        }
    }

    /// The slot after its raw Y value became `value`.
    pub open spec fn moved_y(self, value: i32) -> SlotState {
        SlotState {
            raw_y: Some(value),
            dirty: self.dirty || self.raw_y != Some(value),
            ..self
        }
    }

    /// The slot after its contact ended.
    pub open spec fn released(self) -> SlotState {
        SlotState { tracking_id: None, pending_release: true, dirty: true, ..self }
    }

    /// The slot after its contact got the tracking number `value`.
    pub open spec fn with_tracking(self, value: i32) -> SlotState {
        SlotState { tracking_id: Some(value), pending_release: false, dirty: true, ..self }
    }

    /// The slot after its contact was reported.
    pub open spec fn told(self) -> SlotState {
        SlotState { reported: true, dirty: false, ..self }
    }
}

/// The state of a touch tracker.
pub struct TouchState {
    /// Raw-to-display mapping.
    pub transform: InputTransform,
    /// Slot that contact events speak of.
    pub current_slot: i32,
    /// Slot of the contact that is reported.
    pub primary_slot: Option<i32>,
    /// What is known of each slot.
    pub slots: Map<i32, SlotState>,
}

impl TouchState {
    /// The state before the first event.
    pub open spec fn initial(transform: InputTransform) -> TouchState {
        TouchState { transform, current_slot: 0, primary_slot: None, slots: Map::empty() }
    }

    /// What every reachable state satisfies: the primary contact has a slot,
    /// only that contact was reported, and a reported contact has both
    /// coordinates and is either alive or about to be released.
    pub open spec fn consistent(self) -> bool {
        &&& self.primary_slot is Some ==> self.slots.contains_key(self.primary_slot->0)
        &&& forall|slot: i32| #[trigger]
            self.slots.contains_key(slot) && self.slots[slot].reported ==> {
                &&& self.primary_slot == Some(slot)
                &&& self.slots[slot].raw_x is Some
                &&& self.slots[slot].raw_y is Some
                &&& self.slots[slot].tracking_id is Some || self.slots[slot].pending_release
            }
    }

    /// The slot's state, blank when nothing is known of it.
    pub open spec fn slot(self, slot: i32) -> SlotState {
        if self.slots.contains_key(slot) {
            self.slots[slot]
        } else {
            SlotState::blank()
        }
    }

    /// Whether a press was reported whose release was not.
    pub open spec fn engaged(self) -> bool {
        self.primary_slot is Some && self.slot(self.primary_slot->0).reported
    }

    /// The display point of a slot with both coordinates.
    pub open spec fn point(self, state: SlotState) -> DisplayPoint {
        let (x, y) = self.transform.mapped(
            RawPoint { x: state.raw_x->0, y: state.raw_y->0 },
        );
        DisplayPoint { x: x as u32, y: y as u32 }
    }

    /// The state after the X coordinate of `slot` became `value`.
    pub open spec fn after_x(self, slot: i32, value: i32) -> TouchState {
        TouchState {
            slots: self.slots.insert(slot, self.slot(slot).moved_x(value)),
            ..self
        }
    }

    /// The state after the Y coordinate of `slot` became `value`.
    pub open spec fn after_y(self, slot: i32, value: i32) -> TouchState {
        TouchState {
            slots: self.slots.insert(slot, self.slot(slot).moved_y(value)),
            ..self
        }
    }

    /// The state after the tracking number of the selected slot became `value`.
    pub open spec fn after_tracking(self, value: i32) -> Result<TouchState, InputReplayError> {
        let slot = self.current_slot;
        if value < -1 {
            Err(InputReplayError::InvalidTrackingId { value })
        } else if value == -1 {
            if self.primary_slot == Some(slot) {
                Ok(
                    TouchState {
                        slots: self.slots.insert(slot, self.slot(slot).released()),
                        ..self
                    },
                )
            } else {
                Ok(TouchState { slots: self.slots.remove(slot), ..self })
            }
        } else if self.slot(slot).tracking_id is Some && self.slot(slot).tracking_id->0
            != value {
            Err(InputReplayError::TrackingIdReplaced { slot })
        } else {
            Ok(
                TouchState {
                    slots: self.slots.insert(slot, self.slot(slot).with_tracking(value)),
                    primary_slot: if self.primary_slot is None {
                        Some(slot)
                    } else {
                        self.primary_slot
                    },
                    ..self
                },
            )
        }
    }

    /// The state after a synchronization report, and the contact update that
    /// it makes.
    pub open spec fn after_report(self) -> (TouchState, Option<TouchContactEvent>) {
        if self.primary_slot is None {
            (self, None)
        } else {
            let primary = self.primary_slot->0;
            let state = self.slot(primary);
            if state.pending_release {
                (
                    TouchState {
                        slots: self.slots.remove(primary),
                        primary_slot: None,
                        ..self
                    },
                    if state.reported {
                        Some(
                            TouchContactEvent {
                                phase: LogicalTouchPhase::Released,
                                point: self.point(state),
                            },
                        )
                    } else {
                        None
                    },
                )
            } else if state.tracking_id is None || state.raw_x is None || state.raw_y
                is None || (state.reported && !state.dirty) {
                (self, None)
            } else {
                (
                    TouchState { slots: self.slots.insert(primary, state.told()), ..self },
                    Some(
                        TouchContactEvent {
                            phase: if state.reported {
                                LogicalTouchPhase::Moved
                            } else {
                                LogicalTouchPhase::Pressed
                            },
                            point: self.point(state),
                        },
                    ),
                )
            }
        }
    }

    /// The state after one event and the contact update that it makes, or why
    /// the event is refused.
    pub open spec fn after(self, event_type: u16, code: u16, value: i32) -> Result<
        (TouchState, Option<TouchContactEvent>),
        InputReplayError,
    > {
        if event_type == EV_SYN && code == SYN_REPORT {
            Ok(self.after_report())
        } else if event_type == EV_ABS && code == ABS_MT_SLOT {
            if 0 <= value < MAX_TOUCH_SLOTS {
                Ok((TouchState { current_slot: value, ..self }, None))
            } else {
                Err(InputReplayError::InvalidSlot { value })
            }
        } else if event_type == EV_ABS && code == ABS_MT_POSITION_X {
            Ok((self.after_x(self.current_slot, value), None))
        } else if event_type == EV_ABS && code == ABS_MT_POSITION_Y {
            Ok((self.after_y(self.current_slot, value), None))
        } else if event_type == EV_ABS && code == ABS_MT_TRACKING_ID {
            match self.after_tracking(value) {
                Ok(state) => Ok((state, None)),
                Err(error) => Err(error),
            }
        } else if event_type == EV_ABS && code == ABS_X {
            Ok((self.after_x(0, value), None))
        } else if event_type == EV_ABS && code == ABS_Y {
            Ok((self.after_y(0, value), None))
        } else if is_touch_code(event_type, code) {
            Ok((self, None))
        } else {
            Err(InputReplayError::InvalidState)
        }
    }
}

/// The state and the logical events after the first `n` events, or the first
/// refusal.
pub open spec fn replayed(start: TouchState, events: Seq<InputTraceEvent>, n: int) -> Result<
    (TouchState, Seq<LogicalTouchEvent>),
    InputReplayError,
>
    decreases n,
{
    if n <= 0 {
        Ok((start, seq![]))
    } else {
        match replayed(start, events, n - 1) {
            Err(error) => Err(error),
            Ok((state, output)) => {
                let event = events[n - 1];
                match state.after(event.event_type, event.code, event.value) {
                    Err(error) => Err(error),
                    Ok((next, None)) => Ok((next, output)),
                    Ok((next, Some(contact))) => Ok(
                        (
                            next,
                            output.push(
                                LogicalTouchEvent {
                                    offset_micros: event.offset_micros,
                                    phase: contact.phase,
                                    point: contact.point,
                                },
                            ),
                        ),
                    ),
                }
            },
        }
    }
}

proof fn replay_error_is_final(
    start: TouchState,
    events: Seq<InputTraceEvent>,
    n: int,
    end: int,
    error: InputReplayError,
)
    requires
        n <= end,
        replayed(start, events, n) == Err::<(TouchState, Seq<LogicalTouchEvent>), _>(error),
    ensures
        replayed(start, events, end) == Err::<(TouchState, Seq<LogicalTouchEvent>), _>(error),
    decreases end - n,
{
    if n < end {
        if n <= 0 {
            assert(replayed(start, events, n) is Ok);
        }
        replay_error_is_final(start, events, n, end - 1, error);
    }
}

/// Incremental touch state for a live or replayed event stream.
///
/// Coordinates received before the first tracking ID are retained, one primary
/// contact owns the pointer until release, and secondary-slot movement or
/// release cannot move or release that pointer.
#[derive(Debug)]
pub struct TouchTracker {
    transform: InputTransform,
    current_slot: i32,
    primary_slot: Option<i32>,
    slots: BTreeMap<i32, SlotState>,
}

impl View for TouchTracker {
    type V = TouchState;

    closed spec fn view(&self) -> TouchState {
        TouchState {
            transform: self.transform,
            current_slot: self.current_slot,
            primary_slot: self.primary_slot,
            slots: self.slots@,
        }
    }
}

impl Clone for TouchTracker {
    fn clone(&self) -> (copy: Self)
        ensures
            copy@ == self@,
    {
        proof {
            use_type_invariant(self);
        }
        let slots: BTreeMap<i32, SlotState> = self.slots.clone();
        assert(slots@ =~= self.slots@);
        TouchTracker {
            transform: self.transform,
            current_slot: self.current_slot,
            primary_slot: self.primary_slot,
            slots,
        }
    }
}

impl TouchTracker {
    #[verifier::type_invariant]
    spec fn inv(&self) -> bool {
        self@.consistent()
    }

    /// Creates empty touch state for one coordinate transform.
    pub fn new(transform: InputTransform) -> (tracker: Self)
        ensures
            tracker@ == TouchState::initial(transform),
    {
        TouchTracker {
            transform,
            current_slot: 0,
            primary_slot: None,
            slots: BTreeMap::new(),
        }
    }

    /// Applies one decoded Linux event and emits at most one synchronized
    /// contact update.
    ///
    /// A refused event leaves the tracker as it was.
    pub fn push(&mut self, event_type: u16, code: u16, value: i32) -> (result: Result<
        Option<TouchContactEvent>,
        InputReplayError,
    >)
        ensures
            match result {
                Ok(contact) => old(self)@.after(event_type, code, value) == Ok::<
                    _,
                    InputReplayError,
                >((final(self)@, contact)),
                Err(error) => final(self)@ == old(self)@ && old(self)@.after(
                    event_type,
                    code,
                    value,
                ) == Err::<(TouchState, Option<TouchContactEvent>), _>(error),
            },
            final(self)@.consistent(),
    {
        proof {
            use_type_invariant(&*self);
        }
        if event_type == EV_SYN && code == SYN_REPORT {
            self.synchronize()
        } else if event_type == EV_ABS && code == ABS_MT_SLOT {
            self.select_slot(value)
        } else if event_type == EV_ABS && code == ABS_MT_POSITION_X {
            let slot: i32 = self.current_slot;
            self.update_x(slot, value);
            Ok(None)
        } else if event_type == EV_ABS && code == ABS_MT_POSITION_Y {
            let slot: i32 = self.current_slot;
            self.update_y(slot, value);
            Ok(None)
        } else if event_type == EV_ABS && code == ABS_MT_TRACKING_ID {
            match self.update_tracking(value) {
                Ok(()) => Ok(None),
                Err(error) => Err(error),
            }
        } else if event_type == EV_ABS && code == ABS_X {
            self.update_x(0, value);
            Ok(None)
        } else if event_type == EV_ABS && code == ABS_Y {
            self.update_y(0, value);
            Ok(None)
        } else if (event_type == EV_ABS && code == ABS_MT_PRESSURE) || (event_type == EV_KEY && (
        code == BTN_TOOL_FINGER || code == BTN_TOUCH)) {
            Ok(None)
        } else {
            Err(InputReplayError::InvalidState)
        }
    }

    fn select_slot(&mut self, slot: i32) -> (result: Result<
        Option<TouchContactEvent>,
        InputReplayError,
    >)
        ensures
            match result {
                Ok(contact) => contact is None && 0 <= slot < MAX_TOUCH_SLOTS && final(self)@ == (
                TouchState { current_slot: slot, ..old(self)@ }),
                Err(error) => !(0 <= slot < MAX_TOUCH_SLOTS) && final(self)@ == old(self)@
                    && error == (InputReplayError::InvalidSlot { value: slot }),
            },
    {
        proof {
            use_type_invariant(&*self);
        }
        if slot < 0 || slot >= MAX_TOUCH_SLOTS {
            return Err(InputReplayError::InvalidSlot { value: slot });
        }
        self.current_slot = slot;
        Ok(None)
    }

    fn slot_state(&self, slot: i32) -> (state: SlotState)
        ensures
            state == self@.slot(slot),
    {
        match self.slots.get(&slot) {
            Some(state) => *state,
            None => SlotState {
                tracking_id: None,
                raw_x: None,
                raw_y: None,
                dirty: false,
                reported: false,
                pending_release: false,
            },
        }
    }

    fn store(&mut self, slot: i32, state: SlotState)
        requires
            state.reported ==> old(self)@.primary_slot == Some(slot) && state.raw_x is Some
                && state.raw_y is Some && (state.tracking_id is Some || state.pending_release),
        ensures
            final(self)@ == (TouchState { slots: old(self)@.slots.insert(slot, state), ..old(
                self,
            )@ }),
    {
        proof {
            use_type_invariant(&*self);
        }
        let mut held: TouchTracker = TouchTracker::new(self.transform);
        core::mem::swap(&mut held, self);
        let TouchTracker { transform, current_slot, primary_slot, mut slots } = held;
        slots.insert(slot, state);
        *self = TouchTracker { transform, current_slot, primary_slot, slots };
    }

    fn forget(&mut self, slot: i32)
        requires
            old(self)@.primary_slot != Some(slot),
        ensures
            final(self)@ == (TouchState { slots: old(self)@.slots.remove(slot), ..old(self)@ }),
    {
        proof {
            use_type_invariant(&*self);
        }
        let mut held: TouchTracker = TouchTracker::new(self.transform);
        core::mem::swap(&mut held, self);
        let TouchTracker { transform, current_slot, primary_slot, mut slots } = held;
        slots.remove(&slot);
        *self = TouchTracker { transform, current_slot, primary_slot, slots };
    }

    fn drop_primary(&mut self, slot: i32)
        requires
            old(self)@.primary_slot == Some(slot),
        ensures
            final(self)@ == (TouchState {
                slots: old(self)@.slots.remove(slot),
                primary_slot: None,
                ..old(self)@
            }),
    {
        proof {
            use_type_invariant(&*self);
        }
        let mut held: TouchTracker = TouchTracker::new(self.transform);
        core::mem::swap(&mut held, self);
        let TouchTracker { transform, current_slot, mut slots, .. } = held;
        slots.remove(&slot);
        *self = TouchTracker { transform, current_slot, primary_slot: None, slots };
    }

    fn update_x(&mut self, slot: i32, value: i32)
        ensures
            final(self)@ == old(self)@.after_x(slot, value),
    {
        let mut state: SlotState = self.slot_state(slot);
        proof {
            use_type_invariant(&*self);
        }
        state.dirty = state.dirty || state.raw_x != Some(value);
        state.raw_x = Some(value);
        self.store(slot, state);
    }

    fn update_y(&mut self, slot: i32, value: i32)
        ensures
            final(self)@ == old(self)@.after_y(slot, value),
    {
        let mut state: SlotState = self.slot_state(slot);
        proof {
            use_type_invariant(&*self);
        }
        state.dirty = state.dirty || state.raw_y != Some(value);
        state.raw_y = Some(value);
        self.store(slot, state);
    }

    fn update_tracking(&mut self, value: i32) -> (result: Result<(), InputReplayError>)
        ensures
            match result {
                Ok(()) => old(self)@.after_tracking(value) == Ok::<TouchState, InputReplayError>(
                    final(self)@,
                ),
                Err(error) => final(self)@ == old(self)@ && old(self)@.after_tracking(value)
                    == Err::<TouchState, InputReplayError>(error),
            },
    {
        proof {
            use_type_invariant(&*self);
        }
        if value < -1 {
            return Err(InputReplayError::InvalidTrackingId { value });
        }
        let slot: i32 = self.current_slot;
        if value == -1 {
            if self.primary_slot == Some(slot) {
                let mut state: SlotState = self.slot_state(slot);
                state.tracking_id = None;
                state.pending_release = true;
                state.dirty = true;
                self.store(slot, state);
            } else {
                self.forget(slot);
            }
            return Ok(());
        }
        let mut state: SlotState = self.slot_state(slot);
        if let Some(tracking_id) = state.tracking_id {
            if tracking_id != value {
                return Err(InputReplayError::TrackingIdReplaced { slot });
            }
        }
        state.tracking_id = Some(value);
        state.pending_release = false;
        state.dirty = true;
        self.store(slot, state);
        if self.primary_slot.is_none() {
            self.primary_slot = Some(slot);
        }
        Ok(())
    }

    fn synchronize(&mut self) -> (result: Result<Option<TouchContactEvent>, InputReplayError>)
        ensures
            result is Ok,
            (final(self)@, result->Ok_0) == old(self)@.after_report(),
    {
        proof {
            use_type_invariant(&*self);
        }
        let primary_slot: i32 = match self.primary_slot {
            Some(primary_slot) => primary_slot,
            None => {
                return Ok(None);
            },
        };
        let mut state: SlotState = self.slot_state(primary_slot);
        if state.pending_release {
            let event: Option<TouchContactEvent> = if state.reported {
                let point: DisplayPoint = self.map_state(state)?;
                Some(TouchContactEvent { phase: LogicalTouchPhase::Released, point })
            } else {
                None
            };
            self.drop_primary(primary_slot);
            return Ok(event);
        }
        if state.tracking_id.is_none() || state.raw_x.is_none() || state.raw_y.is_none() {
            return Ok(None);
        }
        let phase: LogicalTouchPhase = if !state.reported {
            LogicalTouchPhase::Pressed
        } else if state.dirty {
            LogicalTouchPhase::Moved
        } else {
            return Ok(None);
        };
        let point: DisplayPoint = self.map_state(state)?;
        state.reported = true;
        state.dirty = false;
        self.store(primary_slot, state);
        Ok(Some(TouchContactEvent { phase, point }))
    }

    fn map_state(&self, state: SlotState) -> (result: Result<DisplayPoint, InputReplayError>)
        requires
            state.raw_x is Some,
            state.raw_y is Some,
        ensures
            result is Ok,
            result->Ok_0 == self@.point(state),
    {
        let x: i32 = match state.raw_x {
            Some(x) => x,
            None => {
                return Err(InputReplayError::InvalidState);
            },
        };
        let y: i32 = match state.raw_y {
            Some(y) => y,
            None => {
                return Err(InputReplayError::InvalidState);
            },
        };
        match self.transform.map(RawPoint { x, y }) {
            Ok(point) => Ok(point),
            Err(error) => Err(InputReplayError::Transform(error)),
        }
    }
}

/// Every event keeps the tracker consistent: the primary contact has a slot and
/// a reported contact has both coordinates.
pub proof fn law_events_keep_consistency(
    state: TouchState,
    event_type: u16,
    code: u16,
    value: i32,
)
    requires
        state.consistent(),
        state.after(event_type, code, value) is Ok,
    ensures
        state.after(event_type, code, value)->Ok_0.0.consistent(),
{
}

/// While another slot is selected, no coordinate and no tracking number moves
/// or releases the primary contact, and nothing is reported.
pub proof fn law_secondary_contacts_leave_the_primary_alone(
    state: TouchState,
    code: u16,
    value: i32,
)
    requires
        state.primary_slot is Some,
        state.current_slot != state.primary_slot->0,
        code == ABS_MT_POSITION_X || code == ABS_MT_POSITION_Y || code == ABS_MT_TRACKING_ID,
        state.after(EV_ABS, code, value) is Ok,
    ensures
        ({
            let (next, contact) = state.after(EV_ABS, code, value)->Ok_0;
            &&& contact is None
            &&& next.primary_slot == state.primary_slot
            &&& next.slot(state.primary_slot->0) == state.slot(state.primary_slot->0)
            &&& next.engaged() == state.engaged()
        }),
{
}

/// Coordinates that arrive before a tracking number are kept: the number alone
/// makes the contact primary, and the next report presses at those coordinates.
pub proof fn law_coordinates_before_tracking_are_kept(state: TouchState, x: i32, y: i32, id: i32)
    requires
        state.primary_slot is None,
        !state.slots.contains_key(state.current_slot),
        id >= 0,
    ensures
        ({
            let with_x = state.after(EV_ABS, ABS_MT_POSITION_X, x)->Ok_0.0;
            let with_y = with_x.after(EV_ABS, ABS_MT_POSITION_Y, y)->Ok_0.0;
            let live = with_y.after(EV_ABS, ABS_MT_TRACKING_ID, id)->Ok_0.0;
            let (next, contact) = live.after(EV_SYN, SYN_REPORT, 0)->Ok_0;
            let (px, py) = state.transform.mapped(RawPoint { x, y });
            &&& contact == Some(
                TouchContactEvent {
                    phase: LogicalTouchPhase::Pressed,
                    point: DisplayPoint { x: px as u32, y: py as u32 },
                },
            )
            &&& next.engaged()
        }),
{
}

/// A press begins an engagement, a move keeps it and a release ends it; an
/// event without a contact update changes nothing about it.
pub proof fn law_phases_follow_the_engagement(
    state: TouchState,
    event_type: u16,
    code: u16,
    value: i32,
)
    requires
        state.consistent(),
        state.after(event_type, code, value) is Ok,
    ensures
        ({
            let (next, contact) = state.after(event_type, code, value)->Ok_0;
            match contact {
                None => next.engaged() == state.engaged(),
                Some(contact) => match contact.phase {
                    LogicalTouchPhase::Pressed => !state.engaged() && next.engaged(),
                    LogicalTouchPhase::Moved => state.engaged() && next.engaged(),
                    LogicalTouchPhase::Released => state.engaged() && !next.engaged(),
                },
            }
        }),
{
}

/// Whether the phases are presses, each followed by its moves and its release,
/// the last one perhaps still open; `engaged` says whether it is.
pub open spec fn phases_alternate(output: Seq<LogicalTouchEvent>, engaged: bool) -> bool
    decreases output.len(),
{
    if output.len() == 0 {
        !engaged
    } else {
        match output.last().phase {
            LogicalTouchPhase::Pressed => engaged && phases_alternate(output.drop_last(), false),
            LogicalTouchPhase::Moved => engaged && phases_alternate(output.drop_last(), true),
            LogicalTouchPhase::Released => !engaged && phases_alternate(
                output.drop_last(),
                true,
            ),
        }
    }
}

/// Every replay reports presses, each followed by its moves and its release.
pub proof fn law_replayed_phases_alternate(
    transform: InputTransform,
    events: Seq<InputTraceEvent>,
    n: int,
)
    requires
        replayed(TouchState::initial(transform), events, n) is Ok,
    ensures
        ({
            let (state, output) = replayed(TouchState::initial(transform), events, n)->Ok_0;
            state.consistent() && phases_alternate(output, state.engaged())
        }),
    decreases n,
{
    let start = TouchState::initial(transform);
    if n > 0 {
        law_replayed_phases_alternate(transform, events, n - 1);
        let (state, output) = replayed(start, events, n - 1)->Ok_0;
        let event = events[n - 1];
        law_events_keep_consistency(state, event.event_type, event.code, event.value);
        law_phases_follow_the_engagement(state, event.event_type, event.code, event.value);
        let (next, contact) = state.after(event.event_type, event.code, event.value)->Ok_0;
        if contact is Some {
            let all = replayed(start, events, n)->Ok_0.1;
            assert(all.drop_last() =~= output);
        }
    }
}

/// Whether an event belongs to a contact other than that of `primary`: it selects
/// another slot, speaks of the selected one, or ends a report.
pub open spec fn is_secondary(event: InputTraceEvent, primary: i32) -> bool {
    ||| event.event_type == EV_SYN && event.code == SYN_REPORT
    ||| event.event_type == EV_ABS && event.code == ABS_MT_SLOT && event.value != primary
    ||| event.event_type == EV_ABS && (event.code == ABS_MT_POSITION_X || event.code
        == ABS_MT_POSITION_Y || event.code == ABS_MT_TRACKING_ID)
}

/// However many events of other contacts arrive, a pressed primary contact is
/// neither moved nor released by them: nothing is reported, and all that is
/// known of the contact stays.
pub proof fn law_secondary_runs_leave_the_primary_alone(
    start: TouchState,
    events: Seq<InputTraceEvent>,
    n: int,
)
    requires
        0 <= n <= events.len(),
        start.engaged(),
        start.current_slot != start.primary_slot->0,
        !start.slot(start.primary_slot->0).dirty,
        !start.slot(start.primary_slot->0).pending_release,
        forall|i: int|
            0 <= i < n ==> is_secondary(#[trigger] events[i], start.primary_slot->0),
        replayed(start, events, n) is Ok,
    ensures
        ({
            let (state, output) = replayed(start, events, n)->Ok_0;
            &&& output.len() == 0
            &&& state.primary_slot == start.primary_slot
            &&& state.current_slot != start.primary_slot->0
            &&& state.slot(start.primary_slot->0) == start.slot(start.primary_slot->0)
            &&& state.engaged()
        }),
    decreases n,
{
    if n > 0 {
        law_secondary_runs_leave_the_primary_alone(start, events, n - 1);
        assert(is_secondary(events[n - 1], start.primary_slot->0));
    }
}

/// The logical events of a replay come at offsets that never decrease, when
/// those of the raw events do not.
pub proof fn law_replayed_offsets_never_decrease(
    start: TouchState,
    events: Seq<InputTraceEvent>,
    n: int,
)
    requires
        0 <= n <= events.len(),
        forall|i: int, j: int|
            0 <= i <= j < events.len() ==> events[i].offset_micros <= events[j].offset_micros,
        replayed(start, events, n) is Ok,
    ensures
        ({
            let output = replayed(start, events, n)->Ok_0.1;
            &&& forall|i: int, j: int|
                0 <= i <= j < output.len() ==> output[i].offset_micros <= output[j].offset_micros
            &&& output.len() > 0 ==> n > 0 && output.last().offset_micros <= events[n
                - 1].offset_micros
        }),
    decreases n,
{
    if n > 0 {
        law_replayed_offsets_never_decrease(start, events, n - 1);
    }
}

// ---------------------------------------------------------------------------
// What the events of a contact amount to
// ---------------------------------------------------------------------------
/// The event types and codes are those of the Linux input subsystem.
pub proof fn law_codes_are_those_of_the_kernel()
    ensures
        EV_SYN == 0 && EV_KEY == 1 && EV_ABS == 3,
        SYN_REPORT == 0,
        ABS_X == 0x00 && ABS_Y == 0x01,
        ABS_MT_SLOT == 0x2f,
        ABS_MT_POSITION_X == 0x35 && ABS_MT_POSITION_Y == 0x36,
        ABS_MT_TRACKING_ID == 0x39 && ABS_MT_PRESSURE == 0x3a,
        BTN_TOOL_FINGER == 0x145 && BTN_TOUCH == 0x14a,
{
}

/// A coordinate that changes under a pressed finger is told by the next report:
/// the contact has moved, to the point of its current raw coordinates, of which
/// the other one is as it was.
pub proof fn law_a_drag_is_reported_as_a_move(
    state: TouchState,
    code: u16,
    value: i32,
    report: i32,
)
    requires
        state.consistent(),
        state.engaged(),
        !state.slot(state.primary_slot->0).pending_release,
        code == ABS_MT_POSITION_X || code == ABS_MT_POSITION_Y || code == ABS_X || code == ABS_Y,
        if code == ABS_X || code == ABS_Y {
            state.primary_slot == Some(0i32)
        } else {
            state.primary_slot == Some(state.current_slot)
        },
        if code == ABS_X || code == ABS_MT_POSITION_X {
            state.slot(state.primary_slot->0).raw_x != Some(value)
        } else {
            state.slot(state.primary_slot->0).raw_y != Some(value)
        },
    ensures
        state.after(EV_ABS, code, value) matches Ok((touched, None)) && touched.after(
            EV_SYN,
            SYN_REPORT,
            report,
        ) matches Ok((next, Some(contact))) && {
            let before = state.slot(state.primary_slot->0);
            let x = if code == ABS_X || code == ABS_MT_POSITION_X {
                value
            } else {
                before.raw_x->0
            };
            let y = if code == ABS_X || code == ABS_MT_POSITION_X {
                before.raw_y->0
            } else {
                value
            };
            let (px, py) = state.transform.mapped(RawPoint { x, y });
            &&& contact.phase == LogicalTouchPhase::Moved
            &&& contact.point.x == px as u32
            &&& contact.point.y == py as u32
            &&& next.engaged()
            &&& next.primary_slot == state.primary_slot
            &&& next.slot(state.primary_slot->0).raw_x == Some(x)
            &&& next.slot(state.primary_slot->0).raw_y == Some(y)
        },
{
}

/// A finger that is lifted is told once, at the point where it was last: the
/// next report releases the contact there, nothing is pressed afterwards, and
/// further reports are silent.
pub proof fn law_a_lifted_finger_is_released_once(state: TouchState, report: i32, again: i32)
    requires
        state.consistent(),
        state.engaged(),
        state.primary_slot == Some(state.current_slot),
    ensures
        state.after(EV_ABS, ABS_MT_TRACKING_ID, -1i32) matches Ok((lifted, None)) && lifted.after(
            EV_SYN,
            SYN_REPORT,
            report,
        ) matches Ok((next, Some(contact))) && {
            let before = state.slot(state.current_slot);
            let (px, py) = state.transform.mapped(
                RawPoint { x: before.raw_x->0, y: before.raw_y->0 },
            );
            &&& contact.phase == LogicalTouchPhase::Released
            &&& contact.point.x == px as u32
            &&& contact.point.y == py as u32
            &&& !next.engaged()
            &&& next.primary_slot is None
            &&& !next.slots.contains_key(state.current_slot)
            &&& next.after(EV_SYN, SYN_REPORT, again) == Ok::<_, InputReplayError>(
                (next, None::<TouchContactEvent>),
            )
        },
{
}

/// A finger that is lifted before it was reported is never reported.
pub proof fn law_an_unreported_touch_leaves_no_contact(state: TouchState, report: i32)
    requires
        state.primary_slot == Some(state.current_slot),
        !state.engaged(),
    ensures
        state.after(EV_ABS, ABS_MT_TRACKING_ID, -1i32) matches Ok((lifted, None)) && lifted.after(
            EV_SYN,
            SYN_REPORT,
            report,
        ) matches Ok((next, None)) && next.primary_slot is None && !next.slots.contains_key(
            state.current_slot,
        ),
{
}

/// A primary contact with a tracking number and both coordinates is pressed by
/// the next report, at the point of these coordinates; while one of them is
/// missing, the report is silent and nothing changes.
pub proof fn law_a_complete_contact_is_pressed(state: TouchState, report: i32)
    requires
        state.primary_slot is Some,
        !state.slot(state.primary_slot->0).reported,
        !state.slot(state.primary_slot->0).pending_release,
    ensures
        ({
            let contact = state.slot(state.primary_slot->0);
            let complete = contact.tracking_id is Some && contact.raw_x is Some
                && contact.raw_y is Some;
            let (px, py) = state.transform.mapped(
                RawPoint { x: contact.raw_x->0, y: contact.raw_y->0 },
            );
            &&& complete ==> (state.after(EV_SYN, SYN_REPORT, report) matches Ok(
                (next, Some(told)),
            ) && told.phase == LogicalTouchPhase::Pressed && told.point.x == px as u32
                && told.point.y == py as u32 && next.engaged())
            &&& !complete ==> state.after(EV_SYN, SYN_REPORT, report) == Ok::<_, InputReplayError>(
                (state, None::<TouchContactEvent>),
            )
        }),
{
}

/// Reports tell news only: a second report in a row is silent and changes
/// nothing, and so is one after a coordinate that is what it was.
pub proof fn law_reports_tell_news_only(state: TouchState, code: u16, report: i32, again: i32)
    requires
        state.consistent(),
    ensures
        state.after(EV_SYN, SYN_REPORT, report) is Ok,
        ({
            let next = state.after(EV_SYN, SYN_REPORT, report)->Ok_0.0;
            next.after(EV_SYN, SYN_REPORT, again) == Ok::<_, InputReplayError>(
                (next, None::<TouchContactEvent>),
            )
        }),
        ({
            let next = state.after(EV_SYN, SYN_REPORT, report)->Ok_0.0;
            let held = next.slot(next.current_slot);
            let value = if code == ABS_MT_POSITION_X {
                held.raw_x
            } else {
                held.raw_y
            };
            (code == ABS_MT_POSITION_X || code == ABS_MT_POSITION_Y) && value is Some
                && next.engaged() ==> {
                let same = next.after(EV_ABS, code, value->0)->Ok_0.0;
                same.after(EV_SYN, SYN_REPORT, again) is Ok && same.after(
                    EV_SYN,
                    SYN_REPORT,
                    again,
                )->Ok_0.1 is None
            }
        }),
{
}

/// A slot between 0 and 255 can be selected, and no other. Coordinates and
/// tracking numbers then belong to that slot: they are kept there, and every
/// other slot stays as it was.
pub proof fn law_contact_events_belong_to_the_selected_slot(
    state: TouchState,
    slot: i32,
    code: u16,
    value: i32,
    other: i32,
)
    requires
        code == ABS_MT_POSITION_X || code == ABS_MT_POSITION_Y || code == ABS_MT_TRACKING_ID,
        other != slot,
    ensures
        state.after(EV_ABS, ABS_MT_SLOT, slot) is Ok <==> 0 <= slot <= 255,
        !(0 <= slot <= 255) ==> state.after(EV_ABS, ABS_MT_SLOT, slot) == Err::<
            (TouchState, Option<TouchContactEvent>),
            _,
        >(InputReplayError::InvalidSlot { value: slot }),
        state.after(EV_ABS, ABS_MT_SLOT, slot) matches Ok((selected, contact)) ==> {
            &&& contact is None
            &&& selected.primary_slot == state.primary_slot
            &&& forall|any: i32| selected.slot(any) == state.slot(any)
            &&& selected.after(EV_ABS, code, value) matches Ok((next, told)) ==> {
                &&& told is None
                &&& next.current_slot == slot
                &&& next.slot(other) == state.slot(other)
                &&& code == ABS_MT_POSITION_X ==> next.slot(slot).raw_x == Some(value)
                    && next.slot(slot).raw_y == state.slot(slot).raw_y
                &&& code == ABS_MT_POSITION_Y ==> next.slot(slot).raw_y == Some(value)
                    && next.slot(slot).raw_x == state.slot(slot).raw_x
                &&& code != ABS_MT_TRACKING_ID ==> next.slot(slot).tracking_id == state.slot(
                    slot,
                ).tracking_id && next.primary_slot == state.primary_slot
                &&& code == ABS_MT_TRACKING_ID && value >= 0 ==> next.slot(slot).tracking_id
                    == Some(value) && next.slot(slot).raw_x == state.slot(slot).raw_x && next.slot(
                    slot,
                ).raw_y == state.slot(slot).raw_y
            }
        },
{
}

/// The single-touch axes speak of slot 0, whichever slot is selected.
pub proof fn law_single_touch_axes_speak_of_slot_zero(
    state: TouchState,
    value: i32,
    other: i32,
)
    requires
        other != 0,
    ensures
        state.after(EV_ABS, ABS_X, value) matches Ok((next, None)) && next.slot(0).raw_x == Some(
            value,
        ) && next.slot(0).raw_y == state.slot(0).raw_y && next.slot(other) == state.slot(other)
            && next.current_slot == state.current_slot && next.primary_slot
            == state.primary_slot,
        state.after(EV_ABS, ABS_Y, value) matches Ok((next, None)) && next.slot(0).raw_y == Some(
            value,
        ) && next.slot(0).raw_x == state.slot(0).raw_x && next.slot(other) == state.slot(other)
            && next.current_slot == state.current_slot && next.primary_slot
            == state.primary_slot,
{
}

/// A tracking number below -1 is refused, and so is a second number for a live
/// contact; every other number is taken. The first contact to get one owns the
/// pointer, and keeps it while others get theirs.
pub proof fn law_tracking_numbers_name_contacts(state: TouchState, value: i32)
    ensures
        value < -1 ==> state.after(EV_ABS, ABS_MT_TRACKING_ID, value) == Err::<
            (TouchState, Option<TouchContactEvent>),
            _,
        >(InputReplayError::InvalidTrackingId { value }),
        value >= 0 ==> match state.slot(state.current_slot).tracking_id {
            Some(live) => live != value ==> state.after(EV_ABS, ABS_MT_TRACKING_ID, value)
                == Err::<(TouchState, Option<TouchContactEvent>), _>(
                InputReplayError::TrackingIdReplaced { slot: state.current_slot },
            ),
            None => true,
        },
        value >= 0 && (state.slot(state.current_slot).tracking_id is None || state.slot(
            state.current_slot,
        ).tracking_id == Some(value)) ==> (state.after(
            EV_ABS,
            ABS_MT_TRACKING_ID,
            value,
        ) matches Ok((next, None)) && !next.slot(state.current_slot).pending_release
            && next.primary_slot == (
        if state.primary_slot is Some {
            state.primary_slot
        } else {
            Some(state.current_slot)
        })),
        state.primary_slot != Some(state.current_slot) ==> (state.after(
            EV_ABS,
            ABS_MT_TRACKING_ID,
            -1i32,
        ) matches Ok((next, None)) && !next.slots.contains_key(state.current_slot)
            && next.primary_slot == state.primary_slot),
{
}

/// Pressure and the touch keys change nothing, and every event that no touch
/// panel sends is refused.
pub proof fn law_other_events_change_nothing(
    state: TouchState,
    event_type: u16,
    code: u16,
    value: i32,
)
    ensures
        (event_type == 3 && code == 58) || (event_type == 1 && (code == 325 || code == 330))
            ==> state.after(event_type, code, value) == Ok::<_, InputReplayError>(
            (state, None::<TouchContactEvent>),
        ),
        !(event_type == 0 && code == 0) && !(event_type == 1 && (code == 325 || code == 330)) && !(
        event_type == 3 && (code == 0 || code == 1 || code == 47 || code == 53 || code == 54
            || code == 57 || code == 58)) ==> state.after(event_type, code, value) == Err::<
            (TouchState, Option<TouchContactEvent>),
            _,
        >(InputReplayError::InvalidState),
{
}

/// Every event of a replay is what one synchronization report told at that
/// report's own offset, and a replay that goes on keeps what it told before.
pub proof fn law_replayed_events_come_from_reports(
    start: TouchState,
    events: Seq<InputTraceEvent>,
    n: int,
    k: int,
)
    requires
        0 <= n <= events.len(),
        replayed(start, events, n) is Ok,
        0 <= k < replayed(start, events, n)->Ok_0.1.len(),
    ensures
        exists|j: int|
            0 <= j < n && (#[trigger] events[j]).event_type == 0 && events[j].code == 0
                && events[j].offset_micros == replayed(start, events, n)->Ok_0.1[k].offset_micros
                && replayed(start, events, j) is Ok && replayed(start, events, j)->Ok_0.0.after(
                0,
                0,
                events[j].value,
            ) is Ok && replayed(start, events, j)->Ok_0.0.after(0, 0, events[j].value)->Ok_0.1
                == Some(
                TouchContactEvent {
                    phase: replayed(start, events, n)->Ok_0.1[k].phase,
                    point: replayed(start, events, n)->Ok_0.1[k].point,
                },
            ),
        forall|m: int|
            0 <= m <= n ==> (#[trigger] replayed(start, events, m)) is Ok && replayed(
                start,
                events,
                m,
            )->Ok_0.1.len() <= replayed(start, events, n)->Ok_0.1.len(),
    decreases n,
{
    if n > 0 {
        replays_grow(start, events, n);
        let before = replayed(start, events, n - 1)->Ok_0.1;
        if k < before.len() {
            law_replayed_events_come_from_reports(start, events, n - 1, k);
            assert(replayed(start, events, n)->Ok_0.1[k] == before[k]);
        } else {
            let event = events[n - 1];
            assert(event.event_type == 0 && event.code == 0);
        }
    }
}

proof fn replays_grow(start: TouchState, events: Seq<InputTraceEvent>, n: int)
    requires
        0 <= n,
        replayed(start, events, n) is Ok,
    ensures
        forall|m: int|
            0 <= m <= n ==> (#[trigger] replayed(start, events, m)) is Ok && replayed(
                start,
                events,
                m,
            )->Ok_0.1.len() <= replayed(start, events, n)->Ok_0.1.len(),
    decreases n,
{
    if n > 0 {
        replays_grow(start, events, n - 1);
    }
}

// ---------------------------------------------------------------------------
// What a valid trace is
// ---------------------------------------------------------------------------
proof fn nothing_missing(excluded: Seq<Seq<char>>, n: int)
    requires
        0 <= n <= required_categories().len(),
    ensures
        missing_categories(excluded, n).len() == 0 <==> forall|i: int|
            0 <= i < n ==> excluded.contains((#[trigger] required_categories()[i])@),
    decreases n,
{
    if n > 0 {
        nothing_missing(excluded, n - 1);
    }
}

/// The seven categories that a trace must leave out.
pub open spec fn leaves_out_everything_private(excluded: Seq<Seq<char>>) -> bool {
    &&& excluded.contains("full_serial_numbers"@)
    &&& excluded.contains("network_credentials_and_ssids"@)
    &&& excluded.contains("tokens_and_account_data"@)
    &&& excluded.contains("ssh_keys"@)
    &&& excluded.contains("document_names"@)
    &&& excluded.contains("process_command_lines"@)
    &&& excluded.contains("key_text"@)
}

pub(crate) proof fn private_categories_are_these(excluded: Seq<Seq<char>>)
    ensures
        (forall|i: int|
            0 <= i < required_categories().len() ==> excluded.contains(
                (#[trigger] required_categories()[i])@,
            )) <==> leaves_out_everything_private(excluded),
        required_categories().len() == 7,
{
    let all = required_categories();
    assert(all[0]@ == "full_serial_numbers"@);
    assert(all[1]@ == "network_credentials_and_ssids"@);
    assert(all[2]@ == "tokens_and_account_data"@);
    assert(all[3]@ == "ssh_keys"@);
    assert(all[4]@ == "document_names"@);
    assert(all[5]@ == "process_command_lines"@);
    assert(all[6]@ == "key_text"@);
    if leaves_out_everything_private(excluded) {
        assert forall|i: int| 0 <= i < all.len() implies excluded.contains(
            (#[trigger] all[i])@,
        ) by {
            assert(i == 0 || i == 1 || i == 2 || i == 3 || i == 4 || i == 5 || i == 6);
        }
    }
}

proof fn codes_are_fine(allowed: Seq<InputEventCode>, n: int)
    requires
        0 <= n <= allowed.len(),
    ensures
        code_violations(allowed, n).len() == 0 <==> {
            &&& forall|i: int|
                0 <= i < n ==> is_touch_code((#[trigger] allowed[i]).event_type, allowed[i].code)
            &&& forall|i: int, j: int| 0 <= i < j < n ==> allowed[i] != allowed[j]
        },
    decreases n,
{
    if n > 0 {
        codes_are_fine(allowed, n - 1);
        let last = allowed[n - 1];
        let front = allowed.take(n - 1);
        if front.contains(last) {
            let i = choose|i: int| 0 <= i < front.len() && front[i] == last;
            assert(allowed[i] == last);
        } else {
            assert forall|i: int| 0 <= i < n - 1 implies allowed[i] != last by {
                assert(front[i] == allowed[i]);
            }
        }
    }
}

/// Whether an event keeps every rule.
spec fn event_is_fine(
    allowed: Seq<InputEventCode>,
    maximum_offset: int,
    events: Seq<InputTraceEvent>,
    i: int,
) -> bool {
    &&& i > 0 ==> events[i - 1].offset_micros <= events[i].offset_micros
    &&& events[i].offset_micros <= maximum_offset
    &&& allowed.contains(
        InputEventCode { event_type: events[i].event_type, code: events[i].code },
    )
}

proof fn events_are_fine(
    allowed: Seq<InputEventCode>,
    maximum_offset: int,
    events: Seq<InputTraceEvent>,
    n: int,
)
    requires
        0 <= n <= events.len(),
    ensures
        event_violations(allowed, maximum_offset, events, n).len() == 0 <==> forall|i: int|
            0 <= i < n ==> #[trigger] event_is_fine(allowed, maximum_offset, events, i),
    decreases n,
{
    if n > 0 {
        events_are_fine(allowed, maximum_offset, events, n - 1);
        assert(violations_at(allowed, maximum_offset, events, n - 1).len() == 0 <==> event_is_fine(
            allowed,
            maximum_offset,
            events,
            n - 1,
        ));
        if event_violations(allowed, maximum_offset, events, n).len() == 0 {
            assert forall|i: int| 0 <= i < n implies #[trigger] event_is_fine(
                allowed,
                maximum_offset,
                events,
                i,
            ) by {
                if i < n - 1 {
                    assert(event_violations(allowed, maximum_offset, events, n - 1).len() == 0);
                }
            }
        }
    }
}

proof fn fine_events_are_in_order(
    allowed: Seq<InputEventCode>,
    maximum_offset: int,
    events: Seq<InputTraceEvent>,
    i: int,
    j: int,
)
    requires
        0 <= i <= j < events.len(),
        forall|k: int|
            0 <= k < events.len() ==> #[trigger] event_is_fine(
                allowed,
                maximum_offset,
                events,
                k,
            ),
    ensures
        events[i].offset_micros <= events[j].offset_micros,
    decreases j - i,
{
    if i < j {
        fine_events_are_in_order(allowed, maximum_offset, events, i, j - 1);
        assert(event_is_fine(allowed, maximum_offset, events, j));
    }
}

/// Whether the events of a trace come in the order of their offsets, within the
/// duration, and of declared codes only.
pub open spec fn events_keep_order(
    allowed: Seq<InputEventCode>,
    maximum_offset: int,
    events: Seq<InputTraceEvent>,
) -> bool {
    &&& forall|i: int, j: int|
        0 <= i <= j < events.len() ==> events[i].offset_micros <= events[j].offset_micros
    &&& forall|i: int|
        0 <= i < events.len() ==> (#[trigger] events[i]).offset_micros <= maximum_offset
            && allowed.contains(
            InputEventCode { event_type: events[i].event_type, code: events[i].code },
        )
}

proof fn fine_events_keep_order(
    allowed: Seq<InputEventCode>,
    maximum_offset: int,
    events: Seq<InputTraceEvent>,
)
    ensures
        event_violations(allowed, maximum_offset, events, events.len() as int).len() == 0
            <==> events_keep_order(allowed, maximum_offset, events),
{
    events_are_fine(allowed, maximum_offset, events, events.len() as int);
    if event_violations(allowed, maximum_offset, events, events.len() as int).len() == 0 {
        assert forall|i: int, j: int| 0 <= i <= j < events.len() implies events[i].offset_micros
            <= events[j].offset_micros by {
            fine_events_are_in_order(allowed, maximum_offset, events, i, j);
        }
        assert forall|i: int| 0 <= i < events.len() implies (#[trigger] events[i]).offset_micros
            <= maximum_offset && allowed.contains(
            InputEventCode { event_type: events[i].event_type, code: events[i].code },
        ) by {
            assert(event_is_fine(allowed, maximum_offset, events, i));
        }
    }
    if events_keep_order(allowed, maximum_offset, events) {
        assert forall|i: int| 0 <= i < events.len() implies #[trigger] event_is_fine(
            allowed,
            maximum_offset,
            events,
            i,
        ) by {
            let _ = events[i];
            if i > 0 {
                assert(events[i - 1].offset_micros <= events[i].offset_micros);
            }
        }
    }
}

/// A trace is valid exactly when it has the known schema, is redacted under the
/// known policy with everything private left out, names its profile and its
/// event device, has the event layout of a kernel, keeps its limits within 30
/// seconds and 10,000 events, declares touch codes, at least one and none twice,
/// and holds no more events than declared, in the order of their offsets, within
/// its duration, and of declared codes only.
#[verifier::spinoff_prover]
#[verifier::rlimit(40)]
pub proof fn law_valid_traces_keep_every_rule(trace: InputTrace)
    ensures
        trace.violations().len() == 0 <==> {
            let id = trace.profile_id@;
            let device = trace.device.device@;
            let abi = trace.input_event_abi;
            let sizes = (
                abi.pointer_width_bits,
                abi.libc_timeval_bytes,
                abi.libc_input_event_bytes,
            );
            let allowed = trace.allowed_events@;
            let events = trace.events@;
            &&& trace.schema_version == 1
            &&& trace.redaction.enabled
            &&& trace.redaction.policy@ == "ferrink-characterization-v1"@
            &&& leaves_out_everything_private(
                crate::text::texts(trace.redaction.excluded_categories@),
            )
            &&& 1 <= id.len() <= 128 && CharSet::ProfileId.covers(id)
            &&& device.len() > 16 && device.take(16) == "/dev/input/event"@
                && CharSet::Digit.covers(device.skip(16))
            &&& sizes == (32u16, 8u16, 16u16) || sizes == (64u16, 16u16, 24u16)
            &&& trace.limits.max_duration_millis@ <= 30_000
            &&& trace.limits.max_events@ <= 10_000
            &&& allowed.len() > 0
            &&& forall|i: int|
                0 <= i < allowed.len() ==> {
                    let event_type = (#[trigger] allowed[i]).event_type;
                    let code = allowed[i].code;
                    ||| event_type == 0 && code == 0
                    ||| event_type == 1 && (code == 0x145 || code == 0x14a)
                    ||| event_type == 3 && (code == 0 || code == 1 || code == 0x2f || code == 0x35
                        || code == 0x36 || code == 0x39 || code == 0x3a)
                }
            &&& forall|i: int, j: int| 0 <= i < j < allowed.len() ==> allowed[i] != allowed[j]
            &&& events.len() <= trace.limits.max_events@
            &&& events_keep_order(allowed, trace.limits.max_duration_millis@ * 1_000, events)
        },
{
    reveal(InputTrace::violations);
    let excluded = crate::text::texts(trace.redaction.excluded_categories@);
    nothing_missing(excluded, required_categories().len() as int);
    private_categories_are_these(excluded);
    codes_are_fine(trace.allowed_events@, trace.allowed_events@.len() as int);
    fine_events_keep_order(
        trace.allowed_events@,
        trace.limits.max_duration_millis@ * 1_000,
        trace.events@,
    );
    reveal_strlit("/dev/input/event");
    let device = trace.device.device@;
    assert("/dev/input/event"@.len() == 16);
    if device.len() > 16 {
        assert(device.subrange(0, 16) =~= device.take(16));
    }
    assert(header_is_fine(trace) <==> trace.header_violations().len() == 0);
}

/// Whether the header of a trace keeps every rule.
spec fn header_is_fine(trace: InputTrace) -> bool {
    &&& trace.schema_version == INPUT_TRACE_SCHEMA_VERSION
    &&& trace.redaction.enabled
    &&& trace.redaction.policy@ == CHARACTERIZATION_REDACTION_POLICY@
    &&& missing_categories(
        crate::text::texts(trace.redaction.excluded_categories@),
        required_categories().len() as int,
    ).len() == 0
    &&& is_profile_id(trace.profile_id@)
    &&& is_numbered(trace.device.device@, "/dev/input/event"@)
    &&& is_known_event_abi(trace.input_event_abi)
}

/// Every error that is reported of an event is one of that event: it lies before
/// the one it follows, past the duration, or is of a code that is not declared.
pub proof fn law_event_errors_name_their_event(
    allowed: Seq<InputEventCode>,
    maximum_offset: int,
    events: Seq<InputTraceEvent>,
    n: int,
    k: int,
)
    requires
        0 <= n <= events.len() <= usize::MAX,
        0 <= k < event_violations(allowed, maximum_offset, events, n).len(),
    ensures
        match event_violations(allowed, maximum_offset, events, n)[k] {
            InputTraceValidationError::DecreasingOffset { index } => 1 <= index < n
                && events[index as int].offset_micros < events[index - 1].offset_micros,
            InputTraceValidationError::EventPastDuration { index } => index < n
                && events[index as int].offset_micros > maximum_offset,
            InputTraceValidationError::UndeclaredEvent { index, event_type, code } => index < n
                && events[index as int].event_type == event_type && events[index as int].code
                == code && !allowed.contains(InputEventCode { event_type, code }),
            _ => false,
        },
    decreases n,
{
    if n > 0 {
        let before = event_violations(allowed, maximum_offset, events, n - 1);
        let all = event_violations(allowed, maximum_offset, events, n);
        if k < before.len() {
            law_event_errors_name_their_event(allowed, maximum_offset, events, n - 1, k);
            assert(all[k] == before[k]);
        } else {
            assert(all[k] == violations_at(allowed, maximum_offset, events, n - 1)[k
                - before.len()]);
        }
    }
}

/// An error is reported exactly when something is wrong, and is the only one.
pub(crate) proof fn one_error_is_held<E>(wrong: bool, error: E)
    ensures
        forall|e: E| #[trigger] when_wrong(wrong, error).contains(e) <==> wrong && e == error,
{
    let list = when_wrong(wrong, error);
    if wrong {
        assert(list[0] == error);
    }
}

proof fn missing_categories_are_named(
    excluded: Seq<Seq<char>>,
    n: int,
    error: InputTraceValidationError,
)
    requires
        0 <= n <= required_categories().len(),
    ensures
        missing_categories(excluded, n).contains(error) <==> exists|i: int|
            0 <= i < n && !excluded.contains((#[trigger] required_categories()[i])@) && error == (
            InputTraceValidationError::MissingRedactionCategory {
                category: required_categories()[i],
            }),
    decreases n,
{
    if n > 0 {
        missing_categories_are_named(excluded, n - 1, error);
        let before = missing_categories(excluded, n - 1);
        let category = required_categories()[n - 1];
        let told = InputTraceValidationError::MissingRedactionCategory { category };
        if excluded.contains(category@) {
            assert(missing_categories(excluded, n) == before);
        } else {
            assert(missing_categories(excluded, n) =~= before + seq![told]);
            crate::text::either_list_holds(before, seq![told]);
            assert(seq![told].contains(error) <==> error == told) by {
                assert(seq![told][0] == told);
            }
        }
        if before.contains(error) {
            let i = choose|i: int|
                0 <= i < n - 1 && !excluded.contains((#[trigger] required_categories()[i])@)
                    && error == (InputTraceValidationError::MissingRedactionCategory {
                    category: required_categories()[i],
                });
            assert(!excluded.contains(required_categories()[i]@));
        }
    }
}

/// Each error before the limits is reported exactly when its own rule is broken,
/// and holds what broke it.
pub proof fn law_header_errors_tell_what_is_wrong(
    trace: InputTrace,
    error: InputTraceValidationError,
)
    ensures
        trace.header_violations().contains(error) <==> match error {
            InputTraceValidationError::UnsupportedSchema { observed } => observed
                == trace.schema_version && observed != 1,
            InputTraceValidationError::RedactionDisabled => !trace.redaction.enabled,
            InputTraceValidationError::UnexpectedRedactionPolicy => trace.redaction.policy@
                != "ferrink-characterization-v1"@,
            InputTraceValidationError::MissingRedactionCategory { category } => {
                &&& required_categories().contains(category)
                &&& !crate::text::texts(trace.redaction.excluded_categories@).contains(category@)
            },
            InputTraceValidationError::InvalidProfileId => !is_profile_id(trace.profile_id@),
            InputTraceValidationError::InvalidDevicePath => !is_numbered(
                trace.device.device@,
                "/dev/input/event"@,
            ),
            InputTraceValidationError::InvalidInputEventAbi => !is_known_event_abi(
                trace.input_event_abi,
            ),
            _ => false,
        },
{
    let excluded = crate::text::texts(trace.redaction.excluded_categories@);
    let n = required_categories().len() as int;
    let schema = when_wrong(
        trace.schema_version != INPUT_TRACE_SCHEMA_VERSION,
        InputTraceValidationError::UnsupportedSchema { observed: trace.schema_version },
    );
    let disabled = when_wrong(
        !trace.redaction.enabled,
        InputTraceValidationError::RedactionDisabled,
    );
    let policy = when_wrong(
        trace.redaction.policy@ != CHARACTERIZATION_REDACTION_POLICY@,
        InputTraceValidationError::UnexpectedRedactionPolicy,
    );
    let missing = missing_categories(excluded, n);
    let profile = when_wrong(
        !is_profile_id(trace.profile_id@),
        InputTraceValidationError::InvalidProfileId,
    );
    let path = when_wrong(
        !is_numbered(trace.device.device@, "/dev/input/event"@),
        InputTraceValidationError::InvalidDevicePath,
    );
    let abi = when_wrong(
        !is_known_event_abi(trace.input_event_abi),
        InputTraceValidationError::InvalidInputEventAbi,
    );
    one_error_is_held(
        trace.schema_version != INPUT_TRACE_SCHEMA_VERSION,
        InputTraceValidationError::UnsupportedSchema { observed: trace.schema_version },
    );
    one_error_is_held(!trace.redaction.enabled, InputTraceValidationError::RedactionDisabled);
    one_error_is_held(
        trace.redaction.policy@ != CHARACTERIZATION_REDACTION_POLICY@,
        InputTraceValidationError::UnexpectedRedactionPolicy,
    );
    one_error_is_held(
        !is_profile_id(trace.profile_id@),
        InputTraceValidationError::InvalidProfileId,
    );
    one_error_is_held(
        !is_numbered(trace.device.device@, "/dev/input/event"@),
        InputTraceValidationError::InvalidDevicePath,
    );
    one_error_is_held(
        !is_known_event_abi(trace.input_event_abi),
        InputTraceValidationError::InvalidInputEventAbi,
    );
    missing_categories_are_named(excluded, n, error);
    crate::text::either_list_holds(schema, disabled);
    crate::text::either_list_holds(schema + disabled, policy);
    crate::text::either_list_holds(schema + disabled + policy, missing);
    crate::text::either_list_holds(schema + disabled + policy + missing, profile);
    crate::text::either_list_holds(schema + disabled + policy + missing + profile, path);
    crate::text::either_list_holds(schema + disabled + policy + missing + profile + path, abi);
    if let InputTraceValidationError::MissingRedactionCategory { category } = error {
        if required_categories().contains(category) {
            let i = choose|i: int|
                0 <= i < required_categories().len() && required_categories()[i] == category;
            assert(required_categories()[i] == category);
        }
    }
}

proof fn codes_are_told(
    allowed: Seq<InputEventCode>,
    n: int,
    error: InputTraceValidationError,
)
    requires
        0 <= n <= allowed.len(),
    ensures
        code_violations(allowed, n).contains(error) <==> match error {
            InputTraceValidationError::DisallowedCodeDeclaration { event_type, code } => {
                !is_touch_code(event_type, code) && exists|i: int|
                    0 <= i < n && #[trigger] allowed[i] == (InputEventCode { event_type, code })
            },
            InputTraceValidationError::DuplicateAllowedEvent { event_type, code } => {
                exists|i: int, j: int|
                    0 <= i < j < n && #[trigger] allowed[i] == (InputEventCode {
                        event_type,
                        code,
                    }) && #[trigger] allowed[j] == allowed[i]
            },
            _ => false,
        },
    decreases n,
{
    if n > 0 {
        codes_are_told(allowed, n - 1, error);
        let before = code_violations(allowed, n - 1);
        let last = allowed[n - 1];
        let disallowed = when_wrong(
            !is_touch_code(last.event_type, last.code),
            InputTraceValidationError::DisallowedCodeDeclaration {
                event_type: last.event_type,
                code: last.code,
            },
        );
        let duplicate = when_wrong(
            allowed.take(n - 1).contains(last),
            InputTraceValidationError::DuplicateAllowedEvent {
                event_type: last.event_type,
                code: last.code,
            },
        );
        assert(code_violations(allowed, n) =~= before + disallowed + duplicate);
        one_error_is_held(
            !is_touch_code(last.event_type, last.code),
            InputTraceValidationError::DisallowedCodeDeclaration {
                event_type: last.event_type,
                code: last.code,
            },
        );
        one_error_is_held(
            allowed.take(n - 1).contains(last),
            InputTraceValidationError::DuplicateAllowedEvent {
                event_type: last.event_type,
                code: last.code,
            },
        );
        crate::text::either_list_holds(before, disallowed);
        crate::text::either_list_holds(before + disallowed, duplicate);
        if allowed.take(n - 1).contains(last) {
            let earlier = allowed.take(n - 1);
            let i = choose|i: int| 0 <= i < earlier.len() && earlier[i] == last;
            assert(allowed[i] == last && allowed[n - 1] == allowed[i]);
        }
        if let InputTraceValidationError::DuplicateAllowedEvent { event_type, code } = error {
            let told = InputEventCode { event_type, code };
            if exists|i: int, j: int|
                0 <= i < j < n && #[trigger] allowed[i] == told && #[trigger] allowed[j]
                    == allowed[i] {
                let (i, j) = choose|i: int, j: int|
                    0 <= i < j < n && #[trigger] allowed[i] == told && #[trigger] allowed[j]
                        == allowed[i];
                if j == n - 1 {
                    assert(allowed.take(n - 1)[i] == last);
                } else {
                    assert(allowed[i] == told && allowed[j] == allowed[i]);
                }
            }
        }
    }
}

proof fn events_are_told(
    allowed: Seq<InputEventCode>,
    maximum_offset: int,
    events: Seq<InputTraceEvent>,
    n: int,
    error: InputTraceValidationError,
)
    requires
        0 <= n <= events.len() <= usize::MAX,
    ensures
        event_violations(allowed, maximum_offset, events, n).contains(error) <==> match error {
            InputTraceValidationError::DecreasingOffset { index } => 1 <= index < n
                && events[index as int].offset_micros < events[index - 1].offset_micros,
            InputTraceValidationError::EventPastDuration { index } => index < n
                && events[index as int].offset_micros > maximum_offset,
            InputTraceValidationError::UndeclaredEvent { index, event_type, code } => index < n
                && events[index as int].event_type == event_type && events[index as int].code
                == code && !allowed.contains(InputEventCode { event_type, code }),
            _ => false,
        },
    decreases n,
{
    if n > 0 {
        events_are_told(allowed, maximum_offset, events, n - 1, error);
        let i = n - 1;
        let event = events[i];
        let before = event_violations(allowed, maximum_offset, events, i);
        let decreasing = InputTraceValidationError::DecreasingOffset { index: i as usize };
        let late = InputTraceValidationError::EventPastDuration { index: i as usize };
        let undeclared = InputTraceValidationError::UndeclaredEvent {
            index: i as usize,
            event_type: event.event_type,
            code: event.code,
        };
        let code = InputEventCode { event_type: event.event_type, code: event.code };
        let falls = i > 0 && event.offset_micros < events[i - 1].offset_micros;
        let past = event.offset_micros > maximum_offset;
        one_error_is_held(falls, decreasing);
        one_error_is_held(past, late);
        one_error_is_held(!allowed.contains(code), undeclared);
        let first = when_wrong(falls, decreasing);
        let second = when_wrong(past, late);
        let third = when_wrong(!allowed.contains(code), undeclared);
        crate::text::either_list_holds(first, second);
        crate::text::either_list_holds(first + second, third);
        crate::text::either_list_holds(before, first + second + third);
        assert(event_violations(allowed, maximum_offset, events, n) == before + (first + second
            + third));
    }
}

/// Each error of a trace is reported exactly when its own rule is broken, and
/// holds what broke it.
#[verifier::spinoff_prover]
#[verifier::rlimit(40)]
pub proof fn law_trace_errors_tell_what_is_wrong(
    trace: InputTrace,
    error: InputTraceValidationError,
)
    requires
        trace.events@.len() <= usize::MAX,
    ensures
        trace.violations().contains(error) <==> match error {
            InputTraceValidationError::DurationLimitAboveMaximum { declared, maximum } => declared
                == trace.limits.max_duration_millis@ && declared > 30_000 && maximum == 30_000,
            InputTraceValidationError::EventLimitAboveMaximum { declared, maximum } => declared
                == trace.limits.max_events@ && declared > 10_000 && maximum == 10_000,
            InputTraceValidationError::MissingAllowedEvents => trace.allowed_events@.len() == 0,
            InputTraceValidationError::DisallowedCodeDeclaration { event_type, code } => {
                !is_touch_code(event_type, code) && trace.allowed_events@.contains(
                    InputEventCode { event_type, code },
                )
            },
            InputTraceValidationError::DuplicateAllowedEvent { event_type, code } => {
                exists|i: int, j: int|
                    0 <= i < j < trace.allowed_events@.len() && #[trigger] trace.allowed_events@[i]
                        == (InputEventCode { event_type, code })
                        && #[trigger] trace.allowed_events@[j] == trace.allowed_events@[i]
            },
            InputTraceValidationError::TooManyEvents { observed, declared } => observed
                == trace.events@.len() && declared == trace.limits.max_events@ && observed
                > declared,
            InputTraceValidationError::DecreasingOffset { index } => 1 <= index
                < trace.events@.len() && trace.events@[index as int].offset_micros
                < trace.events@[index - 1].offset_micros,
            InputTraceValidationError::EventPastDuration { index } => index < trace.events@.len()
                && trace.events@[index as int].offset_micros > trace.limits.max_duration_millis@
                * 1_000,
            InputTraceValidationError::UndeclaredEvent { index, event_type, code } => index
                < trace.events@.len() && trace.events@[index as int].event_type == event_type
                && trace.events@[index as int].code == code && !trace.allowed_events@.contains(
                InputEventCode { event_type, code },
            ),
            _ => trace.header_violations().contains(error),
        },
{
    reveal(InputTrace::violations);
    law_header_errors_tell_what_is_wrong(trace, error);
    let duration = trace.limits.max_duration_millis@;
    let limit = trace.limits.max_events@;
    let allowed = trace.allowed_events@;
    let events = trace.events@;
    let long = InputTraceValidationError::DurationLimitAboveMaximum {
        declared: duration,
        maximum: MAX_INPUT_TRACE_DURATION_MILLIS,
    };
    let many = InputTraceValidationError::EventLimitAboveMaximum {
        declared: limit,
        maximum: MAX_INPUT_TRACE_EVENTS,
    };
    let over = InputTraceValidationError::TooManyEvents {
        observed: events.len() as usize,
        declared: limit,
    };
    one_error_is_held(duration > MAX_INPUT_TRACE_DURATION_MILLIS, long);
    one_error_is_held(limit > MAX_INPUT_TRACE_EVENTS, many);
    one_error_is_held(allowed.len() == 0, InputTraceValidationError::MissingAllowedEvents);
    one_error_is_held(events.len() > limit, over);
    codes_are_told(allowed, allowed.len() as int, error);
    events_are_told(allowed, duration * 1_000, events, events.len() as int, error);
    let a = trace.header_violations();
    let b = when_wrong(duration > MAX_INPUT_TRACE_DURATION_MILLIS, long);
    let c = when_wrong(limit > MAX_INPUT_TRACE_EVENTS, many);
    let d = when_wrong(allowed.len() == 0, InputTraceValidationError::MissingAllowedEvents);
    let e = code_violations(allowed, allowed.len() as int);
    let f = when_wrong(events.len() > limit, over);
    let g = event_violations(allowed, duration * 1_000, events, events.len() as int);
    crate::text::either_list_holds(a, b);
    crate::text::either_list_holds(a + b, c);
    crate::text::either_list_holds(a + b + c, d);
    crate::text::either_list_holds(a + b + c + d, e);
    crate::text::either_list_holds(a + b + c + d + e, f);
    crate::text::either_list_holds(a + b + c + d + e + f, g);
    assert(trace.violations() == a + b + c + d + e + f + g);
    if let InputTraceValidationError::DisallowedCodeDeclaration { event_type, code } = error {
        let told = InputEventCode { event_type, code };
        if allowed.contains(told) {
            let i = choose|i: int| 0 <= i < allowed.len() && allowed[i] == told;
            assert(allowed[i] == told);
        }
    }
}

/// What is told of a trace is all that is wrong with it, from the header on.
pub proof fn law_everything_wrong_is_told(
    trace: InputTrace,
    errors: Seq<InputTraceValidationError>,
)
    requires
        trace.is_told_by(errors),
        trace.events@.len() <= usize::MAX,
    ensures
        errors == trace.violations(),
        forall|error: InputTraceValidationError| #[trigger]
            trace.header_violations().contains(error) ==> errors.contains(error),
{
    assert forall|error: InputTraceValidationError| #[trigger]
        trace.header_violations().contains(error) implies errors.contains(error) by {
        law_header_errors_tell_what_is_wrong(trace, error);
        law_trace_errors_tell_what_is_wrong(trace, error);
    }
}

/// Each message names what is wrong with an event, with the values at fault.
pub proof fn law_replay_messages_tell_what_is_wrong(told: InputReplayError)
    ensures
        told matches InputReplayError::InvalidTrace(errors) ==> told.spec_message()
            == "invalid input trace: "@
            + rendered_errors(errors@),
        told matches InputReplayError::InvalidSlot { value } ==> told.spec_message()
            == "invalid touch slot "@
            + crate::text::signed_decimal(value as int),
        told matches InputReplayError::InvalidTrackingId { value } ==> told.spec_message()
            == "invalid touch tracking ID "@
            + crate::text::signed_decimal(value as int),
        told matches InputReplayError::TrackingIdReplaced { slot } ==> told.spec_message()
            == "tracking ID replaced without release in slot "@
            + crate::text::signed_decimal(slot as int),
        told matches InputReplayError::InvalidState ==> told.spec_message()
            == "contradictory touch replay state"@,
        told matches InputReplayError::Transform(error) ==> told.spec_message()
            == "touch transform failed: "@
            + error.spec_message(),
{
}

/// At first nothing is known: no slot is touched, moved or reported, slot zero is
/// selected, and there is no primary contact.
pub proof fn law_nothing_is_known_at_first(transform: InputTransform, slot: i32)
    ensures
        ({
            let state = TouchState::initial(transform);
            let known = state.slot(slot);
            &&& state.current_slot == 0 && state.primary_slot is None
            &&& state.transform == transform
            &&& known.tracking_id is None && known.raw_x is None && known.raw_y is None
            &&& !known.dirty && !known.reported && !known.pending_release
        }),
{
}

} // verus!
