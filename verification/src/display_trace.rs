//! Display characterization results.

use crate::nonzero::{NonZeroU16, NonZeroU32, NonZeroU64};
use crate::probe::{PixelLayout, ProbeWarning, RedactionMetadata};
use crate::text::{holds_text, push_decimal, str_eq};
use crate::trace::{
    note, numbered, required_redaction_categories, valid_profile_id,
    CHARACTERIZATION_REDACTION_POLICY,
};
use crate::transform::{DisplayExtent, QuarterTurn};
use crate::wording::quote;
use vstd::prelude::*;

verus! {

/// The version of the display trace format.
pub const DISPLAY_TRACE_SCHEMA_VERSION: u32 = 1;

/// The largest serialized display trace that is accepted.
pub const MAX_DISPLAY_TRACE_JSON_BYTES: usize = 65_536;

/// The number of attempts that a trace holds.
pub const MAX_DISPLAY_TRACE_ATTEMPTS: usize = 1;

/// The largest region of an attempt.
pub const MAX_DISPLAY_TRACE_REGION_PIXELS: u64 = 4_096;

/// The longest completion wait.
pub const MAX_DISPLAY_WAIT_MILLIS: u32 = 5_000;

/// How a framebuffer is opened.
#[derive(Debug, Clone, Copy, PartialEq, Eq, Structural)]
pub enum DisplayPlanOpenMode {
    /// Open without write access.
    ReadOnly,
}

/// What may be done with framebuffer pixel memory.
#[derive(Debug, Clone, Copy, PartialEq, Eq, Structural)]
pub enum FramebufferMemoryAccess {
    /// It is neither mapped, read nor written.
    NoAccess,
}

/// Framebuffer properties that must match passive evidence.
#[derive(Debug, Clone, PartialEq, Eq)]
pub struct FramebufferFingerprint {
    /// Framebuffer path.
    pub device: String,
    /// Kernel driver identifier.
    pub driver_id: String,
    /// Visible pixel extent.
    pub visible: DisplayExtent,
    /// Virtual framebuffer pixel extent.
    pub virtual_extent: DisplayExtent,
    /// Kernel-reported line stride in bytes.
    pub line_length: NonZeroU32,
    /// Kernel-reported framebuffer memory length in bytes.
    pub memory_length: NonZeroU32,
    /// Bits per pixel.
    pub bits_per_pixel: NonZeroU32,
    /// Passive pixel layout classification.
    pub pixel_layout: PixelLayout,
    /// Checked Linux framebuffer rotation.
    pub rotation: QuarterTurn,
}

/// A non-empty display update rectangle.
#[derive(Debug, Clone, Copy, PartialEq, Eq, Structural)]
pub struct DisplayRegion {
    /// Horizontal origin in visible pixels.
    pub x: u32,
    /// Vertical origin in visible pixels.
    pub y: u32,
    /// Non-zero width in pixels.
    pub width: NonZeroU32,
    /// Non-zero height in pixels.
    pub height: NonZeroU32,
}

/// Kindle MXCFB request layout family.
#[derive(Debug, Clone, Copy, PartialEq, Eq, Structural)]
pub enum DisplayUpdateAbiKind {
    /// Legacy 72-byte request layout.
    Legacy72,
    /// Rex 80-byte request layout.
    Rex80,
    /// Zelda 88-byte request layout.
    Zelda88,
}

impl DisplayUpdateAbiKind {
    /// The request size of the family.
    pub open spec fn spec_request_size(self) -> u32 {
        match self {
            DisplayUpdateAbiKind::Legacy72 => 72,
            DisplayUpdateAbiKind::Rex80 => 80,
            DisplayUpdateAbiKind::Zelda88 => 88,
        }
    }

    /// The ioctl number of the family.
    pub open spec fn spec_request_ioctl(self) -> u64 {
        match self {
            DisplayUpdateAbiKind::Legacy72 => 0x4048_462e,
            DisplayUpdateAbiKind::Rex80 => 0x4050_462e,
            DisplayUpdateAbiKind::Zelda88 => 0x4058_462e,
        }
    }

    /// Returns the request size for this ABI family.
    #[verifier::when_used_as_spec(spec_request_size)]
    pub fn expected_request_size(self) -> (size: u32)
        ensures
            size == self.spec_request_size(),
    {
        match self {
            DisplayUpdateAbiKind::Legacy72 => 72,
            DisplayUpdateAbiKind::Rex80 => 80,
            DisplayUpdateAbiKind::Zelda88 => 88,
        }
    }

    /// Returns the Kindle ioctl number for this request layout.
    #[verifier::when_used_as_spec(spec_request_ioctl)]
    pub fn expected_request_ioctl(self) -> (ioctl: u64)
        ensures
            ioctl == self.spec_request_ioctl(),
    {
        match self {
            DisplayUpdateAbiKind::Legacy72 => 0x4048_462e,
            DisplayUpdateAbiKind::Rex80 => 0x4050_462e,
            DisplayUpdateAbiKind::Zelda88 => 0x4058_462e,
        }
    }
}

impl DisplayUpdateAbiKind {
    /// The name of the value.
    pub open spec fn spec_name(self) -> Seq<char> {
        match self {
            DisplayUpdateAbiKind::Legacy72 => "Legacy72"@,
            DisplayUpdateAbiKind::Rex80 => "Rex80"@,
            DisplayUpdateAbiKind::Zelda88 => "Zelda88"@,
        }
    }

    /// Returns the name of the value.
    pub fn name(self) -> (name: &'static str)
        ensures
            name@ == self.spec_name(),
    {
        match self {
            DisplayUpdateAbiKind::Legacy72 => "Legacy72",
            DisplayUpdateAbiKind::Rex80 => "Rex80",
            DisplayUpdateAbiKind::Zelda88 => "Zelda88",
        }
    }
}

/// The ioctl number of every family carries its request size: it is the number
/// of a 14-bit size field above the `F` group and the request `0x2e`.
pub proof fn law_ioctl_carries_the_request_size(kind: DisplayUpdateAbiKind)
    ensures
        kind.expected_request_ioctl() == 0x4000_0000 + kind.expected_request_size() * 0x1_0000
            + 0x462e,
{
}

/// ABI name and independently recorded request size.
#[derive(Debug, Clone, Copy, PartialEq, Eq, Structural)]
pub struct DisplayUpdateAbi {
    /// Layout name.
    pub kind: DisplayUpdateAbiKind,
    /// Size supplied to the ioctl encoder.
    pub request_size: NonZeroU32,
}

/// A bounded completion-marker wait requested before execution.
#[derive(Debug, Clone, Copy, PartialEq, Eq, Structural)]
pub struct DisplayWaitPlan {
    /// Maximum wait duration.
    pub timeout_millis: NonZeroU32,
}

/// Exact display operation.
#[derive(Debug, Clone, Copy, PartialEq, Eq)]
pub struct DisplayUpdatePlan {
    /// Framebuffer descriptor access mode.
    pub open_mode: DisplayPlanOpenMode,
    /// Permitted framebuffer pixel-memory access.
    pub memory_access: FramebufferMemoryAccess,
    /// Small visible test region.
    pub region: DisplayRegion,
    /// MXCFB request layout and size.
    pub abi: DisplayUpdateAbi,
    /// Fully encoded ioctl request number.
    pub request_ioctl: NonZeroU64,
    /// Exact waveform mode value.
    pub waveform_mode: u32,
    /// Exact partial/full update mode value.
    pub update_mode: u32,
    /// Exact driver temperature value.
    pub temperature: i32,
    /// Exact update flags.
    pub flags: u32,
    /// Exact dither mode.
    pub dither_mode: i32,
    /// Exact quantization bit setting.
    pub quant_bit: i32,
    /// Whether every alternate-buffer field was zero.
    pub alternate_buffer_zeroed: bool,
    /// Exact grayscale/color histogram modes.
    pub histogram_modes: [u32; 2],
    /// Exact PXP/EPDC timestamp fields.
    pub timestamps: [u32; 2],
    /// Unique non-zero update marker.
    pub marker: NonZeroU32,
    /// Optional bounded completion wait.
    pub wait: Option<DisplayWaitPlan>,
}

/// Live checks completed before an active display request.
#[derive(Debug, Clone, Copy, PartialEq, Eq, Structural)]
pub enum DisplayPreflight {
    /// Synthetic or host-only trace for which no live checks were performed.
    NotPerformed,
    /// Every separately prompted live condition was answered.
    Confirmed {
        /// An operator was physically at the device.
        operator_present: bool,
        /// The stock UI was readable and responsive.
        stock_ui_healthy: bool,
        /// An independent maintenance connection was healthy.
        maintenance_connection_healthy: bool,
        /// Power was adequate and the device was not entering sleep.
        power_adequate_and_awake: bool,
        /// No update, reboot, shutdown, USB, or storage transition was active.
        no_transition_or_update: bool,
        /// The create-new output target and bounded space were ready.
        output_ready: bool,
        /// A fresh passive report passed exact validation.
        fresh_passive_report: bool,
    },
}

/// Result of submitting one update request.
#[derive(Debug, Clone, Copy, PartialEq, Eq, Structural)]
pub enum DisplaySubmissionResult {
    /// The kernel accepted the request.
    Submitted,
    /// Opening the exact framebuffer path failed before submission.
    OpenError { errno: NonZeroU16 },
    /// Submission failed with a positive errno value.
    Error { errno: NonZeroU16 },
}

/// Result of a requested marker-completion wait.
#[derive(Debug, Clone, Copy, PartialEq, Eq, Structural)]
pub enum DisplayCompletionResult {
    /// The marker completed before the timeout.
    Completed,
    /// The bounded wait expired.
    TimedOut,
    /// The wait failed with a positive errno value.
    Error { errno: NonZeroU16 },
}

/// Bounded operator observation of the physical panel.
#[derive(Debug, Clone, Copy, PartialEq, Eq, Structural)]
pub enum DisplayObservation {
    /// No physical observation was recorded.
    NotObserved,
    /// The physical panel did not visibly change.
    Unchanged,
    /// The requested region visibly updated.
    Updated,
    /// The panel visibly flashed.
    Flashed,
    /// The panel showed corruption or an unsafe artifact.
    Corrupted,
    /// The operator could not confidently classify the physical result.
    Uncertain,
}

/// Operator-confirmed stock UI condition after an active attempt.
#[derive(Debug, Clone, Copy, PartialEq, Eq, Structural)]
pub enum DisplayStockHealth {
    /// Synthetic or interrupted trace without a post-run check.
    NotChecked,
    /// The stock UI remained readable and responsive.
    Healthy,
    /// The stock UI was visibly or functionally unhealthy.
    Unhealthy,
    /// The operator could not confidently establish stock health.
    Uncertain,
}

/// One attempted update and its exact results.
#[derive(Debug, Clone, Copy, PartialEq, Eq)]
pub struct DisplayUpdateAttempt {
    /// Operation planned before submission.
    pub plan: DisplayUpdatePlan,
    /// Submission result or errno.
    pub submission: DisplaySubmissionResult,
    /// Completion result when a wait was requested and submission succeeded.
    pub completion: Option<DisplayCompletionResult>,
    /// Bounded physical observation.
    pub observation: DisplayObservation,
}

/// A sanitized, bounded display characterization result.
#[derive(Debug, Clone, PartialEq, Eq)]
pub struct DisplayTrace {
    /// Version of this trace format.
    pub schema_version: u32,
    /// Mandatory redaction contract.
    pub redaction: RedactionMetadata,
    /// Exact profile ID.
    pub profile_id: String,
    /// Framebuffer fingerprint from passive evidence.
    pub framebuffer: FramebufferFingerprint,
    /// Live confirmations collected before opening the framebuffer.
    pub preflight: DisplayPreflight,
    /// Attempted operations: exactly one.
    pub attempts: Vec<DisplayUpdateAttempt>,
    /// Stock UI health after the attempted operation.
    pub post_run_stock_health: DisplayStockHealth,
    /// Redacted bounded warnings.
    pub warnings: Vec<ProbeWarning>,
}

/// One way in which a display trace is invalid.
#[derive(Debug, Clone, PartialEq, Eq)]
#[allow(inconsistent_fields)]
#[non_exhaustive]
pub enum DisplayTraceValidationError {
    /// Schema version is not implemented.
    UnsupportedSchema { observed: u32 },
    /// Redaction was disabled.
    RedactionDisabled,
    /// Redaction policy did not match this schema.
    UnexpectedRedactionPolicy,
    /// One mandatory privacy category was absent.
    MissingRedactionCategory { category: &'static str },
    /// Profile ID was empty, too long, or contained unsafe characters.
    InvalidProfileId,
    /// Framebuffer path was not a numbered `/dev/fb*` path.
    InvalidFramebufferPath,
    /// Virtual geometry was smaller than visible geometry.
    InvalidVirtualExtent,
    /// Stride was too short for visible geometry and bit depth.
    InvalidLineLength,
    /// Memory length was too short for stride and virtual height.
    InvalidMemoryLength,
    /// The trace did not contain exactly one attempt.
    InvalidAttemptCount { observed: usize, required: usize },
    /// Region arithmetic overflowed.
    RegionOverflow { index: usize },
    /// Region exceeded the visible framebuffer.
    RegionOutOfBounds { index: usize },
    /// Region exceeded the small-patch limit.
    RegionAboveMaximum { index: usize, pixels: u64, maximum: u64 },
    /// ABI name and request size contradicted each other.
    InvalidRequestSize { index: usize, observed: u32, expected: u32 },
    /// ABI name and ioctl request number contradicted each other.
    InvalidRequestIoctl { index: usize, observed: u64, expected: u64 },
    /// A confirmed preflight contained at least one false condition.
    IncompletePreflight,
    /// Completion wait exceeded the timeout bound.
    WaitAboveMaximum { index: usize, observed: u32, maximum: u32 },
    /// Completion result was inconsistent with submission and wait plan.
    InconsistentCompletion { index: usize },
}

impl DisplayTraceValidationError {
    /// The rendering of the error in a message.
    pub open spec fn rendered(self) -> Seq<char> {
        match self {
            DisplayTraceValidationError::UnsupportedSchema { observed } => {
                "UnsupportedSchema { observed: "@
                    + crate::text::decimal(observed as nat)
                    + " }"@
            },
            DisplayTraceValidationError::RedactionDisabled => "RedactionDisabled"@,
            DisplayTraceValidationError::UnexpectedRedactionPolicy => "UnexpectedRedactionPolicy"@,
            DisplayTraceValidationError::MissingRedactionCategory { category } => {
                "MissingRedactionCategory { category: "@
                    + crate::wording::quoted(category@)
                    + " }"@
            },
            DisplayTraceValidationError::InvalidProfileId => "InvalidProfileId"@,
            DisplayTraceValidationError::InvalidFramebufferPath => "InvalidFramebufferPath"@,
            DisplayTraceValidationError::InvalidVirtualExtent => "InvalidVirtualExtent"@,
            DisplayTraceValidationError::InvalidLineLength => "InvalidLineLength"@,
            DisplayTraceValidationError::InvalidMemoryLength => "InvalidMemoryLength"@,
            DisplayTraceValidationError::InvalidAttemptCount { observed, required } => {
                "InvalidAttemptCount { observed: "@
                    + crate::text::decimal(observed as nat)
                    + ", required: "@
                    + crate::text::decimal(required as nat)
                    + " }"@
            },
            DisplayTraceValidationError::RegionOverflow { index } => {
                "RegionOverflow { index: "@
                    + crate::text::decimal(index as nat)
                    + " }"@
            },
            DisplayTraceValidationError::RegionOutOfBounds { index } => {
                "RegionOutOfBounds { index: "@
                    + crate::text::decimal(index as nat)
                    + " }"@
            },
            DisplayTraceValidationError::RegionAboveMaximum { index, pixels, maximum } => {
                "RegionAboveMaximum { index: "@
                    + crate::text::decimal(index as nat)
                    + ", pixels: "@
                    + crate::text::decimal(pixels as nat)
                    + ", maximum: "@
                    + crate::text::decimal(maximum as nat)
                    + " }"@
            },
            DisplayTraceValidationError::InvalidRequestSize { index, observed, expected } => {
                "InvalidRequestSize { index: "@
                    + crate::text::decimal(index as nat)
                    + ", observed: "@
                    + crate::text::decimal(observed as nat)
                    + ", expected: "@
                    + crate::text::decimal(expected as nat)
                    + " }"@
            },
            DisplayTraceValidationError::InvalidRequestIoctl { index, observed, expected } => {
                "InvalidRequestIoctl { index: "@
                    + crate::text::decimal(index as nat)
                    + ", observed: "@
                    + crate::text::decimal(observed as nat)
                    + ", expected: "@
                    + crate::text::decimal(expected as nat)
                    + " }"@
            },
            DisplayTraceValidationError::IncompletePreflight => "IncompletePreflight"@,
            DisplayTraceValidationError::WaitAboveMaximum { index, observed, maximum } => {
                "WaitAboveMaximum { index: "@
                    + crate::text::decimal(index as nat)
                    + ", observed: "@
                    + crate::text::decimal(observed as nat)
                    + ", maximum: "@
                    + crate::text::decimal(maximum as nat)
                    + " }"@
            },
            DisplayTraceValidationError::InconsistentCompletion { index } => {
                "InconsistentCompletion { index: "@
                    + crate::text::decimal(index as nat)
                    + " }"@
            },
        }
    }

    /// Renders the error for a message.
    pub fn render(&self) -> (text: String)
        ensures
            text@ == self.rendered(),
    {
        let mut text: String = String::new();
        match self {
            DisplayTraceValidationError::UnsupportedSchema { observed } => {
                text.append("UnsupportedSchema { observed: ");
                push_decimal(&mut text, *observed as u64);
                text.append(" }");
            },
            DisplayTraceValidationError::RedactionDisabled => {
                text.append("RedactionDisabled");
            },
            DisplayTraceValidationError::UnexpectedRedactionPolicy => {
                text.append("UnexpectedRedactionPolicy");
            },
            DisplayTraceValidationError::MissingRedactionCategory { category } => {
                text.append("MissingRedactionCategory { category: ");
                text.append(quote(category).as_str());
                text.append(" }");
            },
            DisplayTraceValidationError::InvalidProfileId => {
                text.append("InvalidProfileId");
            },
            DisplayTraceValidationError::InvalidFramebufferPath => {
                text.append("InvalidFramebufferPath");
            },
            DisplayTraceValidationError::InvalidVirtualExtent => {
                text.append("InvalidVirtualExtent");
            },
            DisplayTraceValidationError::InvalidLineLength => {
                text.append("InvalidLineLength");
            },
            DisplayTraceValidationError::InvalidMemoryLength => {
                text.append("InvalidMemoryLength");
            },
            DisplayTraceValidationError::InvalidAttemptCount { observed, required } => {
                text.append("InvalidAttemptCount { observed: ");
                push_decimal(&mut text, *observed as u64);
                text.append(", required: ");
                push_decimal(&mut text, *required as u64);
                text.append(" }");
            },
            DisplayTraceValidationError::RegionOverflow { index } => {
                text.append("RegionOverflow { index: ");
                push_decimal(&mut text, *index as u64);
                text.append(" }");
            },
            DisplayTraceValidationError::RegionOutOfBounds { index } => {
                text.append("RegionOutOfBounds { index: ");
                push_decimal(&mut text, *index as u64);
                text.append(" }");
            },
            DisplayTraceValidationError::RegionAboveMaximum { index, pixels, maximum } => {
                text.append("RegionAboveMaximum { index: ");
                push_decimal(&mut text, *index as u64);
                text.append(", pixels: ");
                push_decimal(&mut text, *pixels as u64);
                text.append(", maximum: ");
                push_decimal(&mut text, *maximum as u64);
                text.append(" }");
            },
            DisplayTraceValidationError::InvalidRequestSize { index, observed, expected } => {
                text.append("InvalidRequestSize { index: ");
                push_decimal(&mut text, *index as u64);
                text.append(", observed: ");
                push_decimal(&mut text, *observed as u64);
                text.append(", expected: ");
                push_decimal(&mut text, *expected as u64);
                text.append(" }");
            },
            DisplayTraceValidationError::InvalidRequestIoctl { index, observed, expected } => {
                text.append("InvalidRequestIoctl { index: ");
                push_decimal(&mut text, *index as u64);
                text.append(", observed: ");
                push_decimal(&mut text, *observed as u64);
                text.append(", expected: ");
                push_decimal(&mut text, *expected as u64);
                text.append(" }");
            },
            DisplayTraceValidationError::IncompletePreflight => {
                text.append("IncompletePreflight");
            },
            DisplayTraceValidationError::WaitAboveMaximum { index, observed, maximum } => {
                text.append("WaitAboveMaximum { index: ");
                push_decimal(&mut text, *index as u64);
                text.append(", observed: ");
                push_decimal(&mut text, *observed as u64);
                text.append(", maximum: ");
                push_decimal(&mut text, *maximum as u64);
                text.append(" }");
            },
            DisplayTraceValidationError::InconsistentCompletion { index } => {
                text.append("InconsistentCompletion { index: ");
                push_decimal(&mut text, *index as u64);
                text.append(" }");
            },
        }
        assert(text@ =~= self.rendered());
        text
    }
}

/// The renderings of a list of errors, in square brackets.
pub open spec fn rendered_errors(errors: Seq<DisplayTraceValidationError>) -> Seq<char> {
    "["@ + crate::text::joined(
        errors.map_values(|error: DisplayTraceValidationError| error.rendered()),
        ", "@,
    ) + "]"@
}

/// Appends the renderings of a list of errors, in square brackets.
pub(crate) fn push_errors(out: &mut String, errors: &Vec<DisplayTraceValidationError>)
    ensures
        final(out)@ == old(out)@ + rendered_errors(errors@),
{
    let ghost all = errors@.map_values(|error: DisplayTraceValidationError| error.rendered());
    out.append("[");
    let ghost opened = out@;
    assert(opened + crate::text::joined(all.take(0), ", "@) =~= opened);
    for i in 0..errors.len()
        invariant
            all == errors@.map_values(|error: DisplayTraceValidationError| error.rendered()),
            out@ == opened + crate::text::joined(all.take(i as int), ", "@),
    {
        assert(all.take(i + 1).drop_last() =~= all.take(i as int));
        assert(all.take(i + 1).last() == errors@[i as int].rendered());
        if i > 0 {
            out.append(", ");
        }
        out.append(errors[i].render().as_str());
        assert(out@ =~= opened + crate::text::joined(all.take(i + 1), ", "@));
    }
    assert(all.take(all.len() as int) =~= all);
    out.append("]");
    assert(out@ =~= old(out)@ + rendered_errors(errors@));
}

/// Failure reading or validating a serialized display trace.
#[derive(Debug, Clone, PartialEq, Eq)]
#[non_exhaustive]
pub enum DisplayTraceError {
    /// Serialized input exceeded the fixed byte limit.
    InputTooLarge { bytes: usize, maximum: usize },
    /// JSON syntax or shape was invalid.
    Json(String),
    /// The data violated trace invariants.
    Validation(Vec<DisplayTraceValidationError>),
}

impl DisplayTraceError {
    /// The operator-facing description of the error.
    pub open spec fn spec_message(self) -> Seq<char> {
        match self {
            DisplayTraceError::InputTooLarge { bytes, maximum } => {
                "display trace is "@ + crate::text::decimal(bytes as nat) + " bytes; maximum is "@
                    + crate::text::decimal(maximum as nat)
            },
            DisplayTraceError::Json(error) => "invalid display trace JSON: "@ + error@,
            DisplayTraceError::Validation(errors) => {
                "invalid display trace: "@ + rendered_errors(errors@)
            },
        }
    }

    /// Describes the error for an operator.
    pub fn message(&self) -> (message: String)
        ensures
            message@ == self.spec_message(),
    {
        let mut message: String = String::new();
        match self {
            DisplayTraceError::InputTooLarge { bytes, maximum } => {
                message.append("display trace is ");
                push_decimal(&mut message, *bytes as u64);
                message.append(" bytes; maximum is ");
                push_decimal(&mut message, *maximum as u64);
            },
            DisplayTraceError::Json(error) => {
                message.append("invalid display trace JSON: ");
                message.append(error.as_str());
            },
            DisplayTraceError::Validation(errors) => {
                message.append("invalid display trace: ");
                push_errors(&mut message, errors);
            },
        }
        assert(message@ =~= self.spec_message());
        message
    }
}

impl DisplayTrace {
    /// Accepts or refuses a serialized trace by its size.
    pub fn check_size(bytes: usize) -> (result: Result<(), DisplayTraceError>)
        ensures
            match result {
                Ok(()) => bytes <= MAX_DISPLAY_TRACE_JSON_BYTES,
                Err(error) => bytes > MAX_DISPLAY_TRACE_JSON_BYTES && error
                    == (DisplayTraceError::InputTooLarge {
                    bytes,
                    maximum: MAX_DISPLAY_TRACE_JSON_BYTES,
                }),
            },
    {
        if bytes > MAX_DISPLAY_TRACE_JSON_BYTES {
            return Err(
                DisplayTraceError::InputTooLarge { bytes, maximum: MAX_DISPLAY_TRACE_JSON_BYTES },
            );
        }
        Ok(())
    }

    /// Takes the outcome of reading a JSON document, and accepts a trace that
    /// keeps every rule.
    pub fn from_parsed(parsed: Result<Self, String>) -> (result: Result<Self, DisplayTraceError>)
        ensures
            match (parsed, result) {
                (Err(error), Err(DisplayTraceError::Json(reported))) => reported@ == error@,
                (Ok(trace), Err(DisplayTraceError::Validation(errors))) => {
                    &&& errors@.len() > 0
                    &&& errors@ == trace.violations()
                },
                (Ok(trace), Ok(accepted)) => trace.violations().len() == 0 && accepted == trace,
                _ => false,
            },
    {
        match parsed {
            Ok(trace) => match trace.validate() {
                Ok(()) => Ok(trace),
                Err(errors) => Err(DisplayTraceError::Validation(errors)),
            },
            Err(error) => Err(DisplayTraceError::Json(error)),
        }
    }
}

/// Which of the first `n` required categories the metadata does not list.
pub open spec fn missing_categories(excluded: Seq<Seq<char>>, n: int) -> Seq<
    DisplayTraceValidationError,
>
    decreases n,
{
    if n <= 0 {
        seq![]
    } else {
        let category = crate::trace::required_categories()[n - 1];
        missing_categories(excluded, n - 1) + crate::trace::when_wrong(
            !excluded.contains(category@),
            DisplayTraceValidationError::MissingRedactionCategory { category },
        )
    }
}

/// What is wrong with the redaction metadata.
pub open spec fn redaction_violations(redaction: RedactionMetadata) -> Seq<
    DisplayTraceValidationError,
> {
    crate::trace::when_wrong(
        !redaction.enabled,
        DisplayTraceValidationError::RedactionDisabled,
    ) + crate::trace::when_wrong(
        redaction.policy@ != CHARACTERIZATION_REDACTION_POLICY@,
        DisplayTraceValidationError::UnexpectedRedactionPolicy,
    ) + missing_categories(
        crate::text::texts(redaction.excluded_categories@),
        crate::trace::required_categories().len() as int,
    )
}

/// What is wrong with the framebuffer fingerprint.
pub open spec fn fingerprint_violations(framebuffer: FramebufferFingerprint) -> Seq<
    DisplayTraceValidationError,
> {
    crate::trace::when_wrong(
        !crate::trace::is_numbered(framebuffer.device@, "/dev/fb"@),
        DisplayTraceValidationError::InvalidFramebufferPath,
    ) + crate::trace::when_wrong(
        framebuffer.virtual_extent.width() < framebuffer.visible.width()
            || framebuffer.virtual_extent.height() < framebuffer.visible.height(),
        DisplayTraceValidationError::InvalidVirtualExtent,
    ) + crate::trace::when_wrong(
        framebuffer.line_length@ < (framebuffer.visible.width() * framebuffer.bits_per_pixel@ + 7)
            / 8,
        DisplayTraceValidationError::InvalidLineLength,
    ) + crate::trace::when_wrong(
        framebuffer.memory_length@ < framebuffer.line_length@
            * framebuffer.virtual_extent.height(),
        DisplayTraceValidationError::InvalidMemoryLength,
    )
}

/// Whether no live check was performed, or every one was answered with yes.
pub open spec fn is_complete(preflight: DisplayPreflight) -> bool {
    match preflight {
        DisplayPreflight::NotPerformed => true,
        DisplayPreflight::Confirmed {
            operator_present,
            stock_ui_healthy,
            maintenance_connection_healthy,
            power_adequate_and_awake,
            no_transition_or_update,
            output_ready,
            fresh_passive_report,
        } => {
            operator_present && stock_ui_healthy && maintenance_connection_healthy
                && power_adequate_and_awake && no_transition_or_update && output_ready
                && fresh_passive_report
        },
    }
}

/// Whether a completion result is there exactly when a submitted request asked
/// for one.
pub open spec fn completion_fits(attempt: DisplayUpdateAttempt) -> bool {
    attempt.completion is Some <==> attempt.submission == DisplaySubmissionResult::Submitted
        && attempt.plan.wait is Some
}

/// The errors in `before`, and after them what is wrong with one attempt.
pub open spec fn with_attempt_violations(
    before: Seq<DisplayTraceValidationError>,
    index: usize,
    attempt: DisplayUpdateAttempt,
    framebuffer: FramebufferFingerprint,
) -> Seq<DisplayTraceValidationError> {
    let plan = attempt.plan;
    let right = plan.region.x + plan.region.width@;
    let bottom = plan.region.y + plan.region.height@;
    let overflow = right > u32::MAX || bottom > u32::MAX;
    let pixels = plan.region.width@ * plan.region.height@;
    before + crate::trace::when_wrong(
        overflow,
        DisplayTraceValidationError::RegionOverflow { index },
    ) + crate::trace::when_wrong(
        !overflow && (right > framebuffer.visible.width() || bottom
            > framebuffer.visible.height()),
        DisplayTraceValidationError::RegionOutOfBounds { index },
    ) + crate::trace::when_wrong(
        pixels > MAX_DISPLAY_TRACE_REGION_PIXELS,
        DisplayTraceValidationError::RegionAboveMaximum {
            index,
            pixels: pixels as u64,
            maximum: MAX_DISPLAY_TRACE_REGION_PIXELS,
        },
    ) + crate::trace::when_wrong(
        plan.abi.request_size@ != plan.abi.kind.expected_request_size(),
        DisplayTraceValidationError::InvalidRequestSize {
            index,
            observed: plan.abi.request_size@,
            expected: plan.abi.kind.expected_request_size(),
        },
    ) + crate::trace::when_wrong(
        plan.request_ioctl@ != plan.abi.kind.expected_request_ioctl(),
        DisplayTraceValidationError::InvalidRequestIoctl {
            index,
            observed: plan.request_ioctl@,
            expected: plan.abi.kind.expected_request_ioctl(),
        },
    ) + crate::trace::when_wrong(
        plan.wait is Some && plan.wait->0.timeout_millis@ > MAX_DISPLAY_WAIT_MILLIS,
        DisplayTraceValidationError::WaitAboveMaximum {
            index,
            observed: plan.wait->0.timeout_millis@,
            maximum: MAX_DISPLAY_WAIT_MILLIS,
        },
    ) + crate::trace::when_wrong(
        !completion_fits(attempt),
        DisplayTraceValidationError::InconsistentCompletion { index },
    )
}

/// The errors in `before`, and after them what is wrong with the first `n`
/// attempts.
pub open spec fn with_all_attempt_violations(
    before: Seq<DisplayTraceValidationError>,
    attempts: Seq<DisplayUpdateAttempt>,
    framebuffer: FramebufferFingerprint,
    n: int,
) -> Seq<DisplayTraceValidationError>
    decreases n,
{
    if n <= 0 {
        before
    } else {
        with_attempt_violations(
            with_all_attempt_violations(before, attempts, framebuffer, n - 1),
            (n - 1) as usize,
            attempts[n - 1],
            framebuffer,
        )
    }
}

impl DisplayTrace {
    /// Everything that is wrong with the trace, in the order in which it is
    /// reported.
    pub open spec fn violations(&self) -> Seq<DisplayTraceValidationError> {
        with_all_attempt_violations(
            self.header_violations(),
            self.attempts@,
            self.framebuffer,
            self.attempts@.len() as int,
        )
    }

    /// What is wrong apart from the attempts themselves.
    pub open spec fn header_violations(&self) -> Seq<DisplayTraceValidationError> {
        crate::trace::when_wrong(
            self.schema_version != DISPLAY_TRACE_SCHEMA_VERSION,
            DisplayTraceValidationError::UnsupportedSchema { observed: self.schema_version },
        ) + redaction_violations(self.redaction) + crate::trace::when_wrong(
            !crate::trace::is_profile_id(self.profile_id@),
            DisplayTraceValidationError::InvalidProfileId,
        ) + fingerprint_violations(self.framebuffer) + crate::trace::when_wrong(
            !is_complete(self.preflight),
            DisplayTraceValidationError::IncompletePreflight,
        ) + crate::trace::when_wrong(
            self.attempts@.len() != MAX_DISPLAY_TRACE_ATTEMPTS,
            DisplayTraceValidationError::InvalidAttemptCount {
                observed: self.attempts@.len() as usize,
                required: MAX_DISPLAY_TRACE_ATTEMPTS,
            },
        )
    }

    /// Checks schema, privacy, fingerprint, request, bounds and results.
    ///
    /// Every violation is reported.
    pub fn validate(&self) -> (result: Result<(), Vec<DisplayTraceValidationError>>)
        ensures
            match result {
                Ok(()) => self.violations().len() == 0,
                Err(errors) => errors@.len() > 0 && errors@ == self.violations(),
            },
    {
        let mut errors: Vec<DisplayTraceValidationError> = Vec::new();
        let schema: bool = self.schema_version != DISPLAY_TRACE_SCHEMA_VERSION;
        note(
            &mut errors,
            schema,
            DisplayTraceValidationError::UnsupportedSchema { observed: self.schema_version },
        );
        assert(errors@ =~= crate::trace::when_wrong(
            schema,
            DisplayTraceValidationError::UnsupportedSchema { observed: self.schema_version },
        ));
        validate_redaction(&self.redaction, &mut errors);
        note(
            &mut errors,
            !valid_profile_id(self.profile_id.as_str()),
            DisplayTraceValidationError::InvalidProfileId,
        );
        validate_framebuffer(&self.framebuffer, &mut errors);
        note(
            &mut errors,
            !preflight_is_complete(self.preflight),
            DisplayTraceValidationError::IncompletePreflight,
        );
        note(
            &mut errors,
            self.attempts.len() != MAX_DISPLAY_TRACE_ATTEMPTS,
            DisplayTraceValidationError::InvalidAttemptCount {
                observed: self.attempts.len(),
                required: MAX_DISPLAY_TRACE_ATTEMPTS,
            },
        );
        validate_attempts(&self.attempts, &self.framebuffer, &mut errors);
        if errors.is_empty() {
            Ok(())
        } else {
            Err(errors)
        }
    }
}

fn validate_redaction(
    redaction: &RedactionMetadata,
    errors: &mut Vec<DisplayTraceValidationError>,
)
    ensures
        final(errors)@ == old(errors)@ + redaction_violations(*redaction),
{
    note(errors, !redaction.enabled, DisplayTraceValidationError::RedactionDisabled);
    note(
        errors,
        !str_eq(redaction.policy.as_str(), CHARACTERIZATION_REDACTION_POLICY),
        DisplayTraceValidationError::UnexpectedRedactionPolicy,
    );
    let required: Vec<&'static str> = required_redaction_categories();
    let ghost listed = crate::text::texts(redaction.excluded_categories@);
    let ghost head = errors@;
    assert(head =~= head + missing_categories(listed, 0));
    for i in 0..required.len()
        invariant
            required@ == crate::trace::required_categories(),
            listed == crate::text::texts(redaction.excluded_categories@),
            errors@ == head + missing_categories(listed, i as int),
    {
        let missing: bool = !holds_text(&redaction.excluded_categories, required[i]);
        note(
            errors,
            missing,
            DisplayTraceValidationError::MissingRedactionCategory { category: required[i] },
        );
        assert(errors@ =~= head + missing_categories(listed, i + 1));
    }
    assert(errors@ =~= old(errors)@ + redaction_violations(*redaction));
}

fn validate_framebuffer(
    framebuffer: &FramebufferFingerprint,
    errors: &mut Vec<DisplayTraceValidationError>,
)
    ensures
        final(errors)@ == old(errors)@ + fingerprint_violations(*framebuffer),
{
    let width: u32 = framebuffer.visible.width();
    let height: u32 = framebuffer.virtual_extent.height();
    let depth: u32 = framebuffer.bits_per_pixel.get();
    let line: u32 = framebuffer.line_length.get();
    let memory: u32 = framebuffer.memory_length.get();
    assert(0 <= width * depth <= 0xffff_ffff * 0xffff_ffff) by (nonlinear_arith)
        requires
            0 <= width <= 0xffff_ffff,
            0 <= depth <= 0xffff_ffff,
    ;
    assert(0 <= line * height <= 0xffff_ffff * 0xffff_ffff) by (nonlinear_arith)
        requires
            0 <= line <= 0xffff_ffff,
            0 <= height <= 0xffff_ffff,
    ;
    note(
        errors,
        !numbered(framebuffer.device.as_str(), "/dev/fb"),
        DisplayTraceValidationError::InvalidFramebufferPath,
    );
    note(
        errors,
        framebuffer.virtual_extent.width() < width || height < framebuffer.visible.height(),
        DisplayTraceValidationError::InvalidVirtualExtent,
    );
    note(
        errors,
        (line as u64) < (width as u64 * depth as u64 + 7) / 8,
        DisplayTraceValidationError::InvalidLineLength,
    );
    note(
        errors,
        (memory as u64) < line as u64 * height as u64,
        DisplayTraceValidationError::InvalidMemoryLength,
    );
    assert(errors@ =~= old(errors)@ + fingerprint_violations(*framebuffer));
}

fn preflight_is_complete(preflight: DisplayPreflight) -> (complete: bool)
    ensures
        complete == is_complete(preflight),
{
    match preflight {
        DisplayPreflight::NotPerformed => true,
        DisplayPreflight::Confirmed {
            operator_present,
            stock_ui_healthy,
            maintenance_connection_healthy,
            power_adequate_and_awake,
            no_transition_or_update,
            output_ready,
            fresh_passive_report,
        } => {
            operator_present && stock_ui_healthy && maintenance_connection_healthy
                && power_adequate_and_awake && no_transition_or_update && output_ready
                && fresh_passive_report
        },
    }
}

fn validate_attempts(
    attempts: &Vec<DisplayUpdateAttempt>,
    framebuffer: &FramebufferFingerprint,
    errors: &mut Vec<DisplayTraceValidationError>,
)
    ensures
        final(errors)@ == with_all_attempt_violations(
            old(errors)@,
            attempts@,
            *framebuffer,
            attempts@.len() as int,
        ),
{
    for i in 0..attempts.len()
        invariant
            errors@ == with_all_attempt_violations(
                old(errors)@,
                attempts@,
                *framebuffer,
                i as int,
            ),
    {
        validate_attempt(i, &attempts[i], framebuffer, errors);
    }
}

fn validate_attempt(
    index: usize,
    attempt: &DisplayUpdateAttempt,
    framebuffer: &FramebufferFingerprint,
    errors: &mut Vec<DisplayTraceValidationError>,
)
    ensures
        final(errors)@ == with_attempt_violations(old(errors)@, index, *attempt, *framebuffer),
{
    let region: DisplayRegion = attempt.plan.region;
    let width: u32 = region.width.get();
    let height: u32 = region.height.get();
    let right: Option<u32> = region.x.checked_add(width);
    let bottom: Option<u32> = region.y.checked_add(height);
    let (overflow, outside): (bool, bool) = match (right, bottom) {
        (Some(right), Some(bottom)) => (
            false,
            right > framebuffer.visible.width() || bottom > framebuffer.visible.height(),
        ),
        _ => (true, false),
    };
    note(errors, overflow, DisplayTraceValidationError::RegionOverflow { index });
    note(errors, outside, DisplayTraceValidationError::RegionOutOfBounds { index });
    assert(0 <= width * height <= 0xffff_ffff * 0xffff_ffff) by (nonlinear_arith)
        requires
            0 <= width <= 0xffff_ffff,
            0 <= height <= 0xffff_ffff,
    ;
    let pixels: u64 = width as u64 * height as u64;
    note(
        errors,
        pixels > MAX_DISPLAY_TRACE_REGION_PIXELS,
        DisplayTraceValidationError::RegionAboveMaximum {
            index,
            pixels,
            maximum: MAX_DISPLAY_TRACE_REGION_PIXELS,
        },
    );
    let kind: DisplayUpdateAbiKind = attempt.plan.abi.kind;
    let observed_size: u32 = attempt.plan.abi.request_size.get();
    note(
        errors,
        observed_size != kind.expected_request_size(),
        DisplayTraceValidationError::InvalidRequestSize {
            index,
            observed: observed_size,
            expected: kind.expected_request_size(),
        },
    );
    let observed_ioctl: u64 = attempt.plan.request_ioctl.get();
    note(
        errors,
        observed_ioctl != kind.expected_request_ioctl(),
        DisplayTraceValidationError::InvalidRequestIoctl {
            index,
            observed: observed_ioctl,
            expected: kind.expected_request_ioctl(),
        },
    );
    let ghost so_far = errors@;
    if let Some(wait) = attempt.plan.wait {
        note(
            errors,
            wait.timeout_millis.get() > MAX_DISPLAY_WAIT_MILLIS,
            DisplayTraceValidationError::WaitAboveMaximum {
                index,
                observed: wait.timeout_millis.get(),
                maximum: MAX_DISPLAY_WAIT_MILLIS,
            },
        );
    }
    assert(errors@ =~= so_far + crate::trace::when_wrong(
        attempt.plan.wait is Some && attempt.plan.wait->0.timeout_millis@
            > MAX_DISPLAY_WAIT_MILLIS,
        DisplayTraceValidationError::WaitAboveMaximum {
            index,
            observed: attempt.plan.wait->0.timeout_millis@,
            maximum: MAX_DISPLAY_WAIT_MILLIS,
        },
    ));
    let asked: bool = attempt.submission == DisplaySubmissionResult::Submitted
        && attempt.plan.wait.is_some();
    note(
        errors,
        attempt.completion.is_some() != asked,
        DisplayTraceValidationError::InconsistentCompletion { index },
    );
}

// ---------------------------------------------------------------------------
// What a valid trace is
// ---------------------------------------------------------------------------
proof fn nothing_missing(excluded: Seq<Seq<char>>, n: int)
    requires
        0 <= n <= crate::trace::required_categories().len(),
    ensures
        missing_categories(excluded, n).len() == 0 <==> forall|i: int|
            0 <= i < n ==> excluded.contains((#[trigger] crate::trace::required_categories()[i])@),
    decreases n,
{
    if n > 0 {
        nothing_missing(excluded, n - 1);
    }
}

/// The redaction of a trace is fine exactly when it is on, follows the known
/// policy and leaves out everything private.
pub proof fn law_redaction_leaves_out_everything_private(redaction: RedactionMetadata)
    ensures
        redaction_violations(redaction).len() == 0 <==> {
            &&& redaction.enabled
            &&& redaction.policy@ == "ferrink-characterization-v1"@
            &&& crate::trace::leaves_out_everything_private(
                crate::text::texts(redaction.excluded_categories@),
            )
        },
{
    let excluded = crate::text::texts(redaction.excluded_categories@);
    nothing_missing(excluded, crate::trace::required_categories().len() as int);
    crate::trace::private_categories_are_these(excluded);
}

/// A framebuffer is fine exactly when its device has a number, its virtual
/// extent holds the visible one, a line holds the bits of a visible row, and
/// memory holds every line.
pub proof fn law_fingerprints_fit(framebuffer: FramebufferFingerprint)
    ensures
        fingerprint_violations(framebuffer).len() == 0 <==> {
            let device = framebuffer.device@;
            &&& device.len() > 7 && device.take(7) == "/dev/fb"@
            &&& crate::text::CharSet::Digit.covers(device.skip(7))
            &&& framebuffer.visible.width() <= framebuffer.virtual_extent.width()
            &&& framebuffer.visible.height() <= framebuffer.virtual_extent.height()
            &&& framebuffer.visible.width() * framebuffer.bits_per_pixel@ <= 8
                * framebuffer.line_length@
            &&& framebuffer.line_length@ * framebuffer.virtual_extent.height()
                <= framebuffer.memory_length@
        },
{
    reveal_strlit("/dev/fb");
    let device = framebuffer.device@;
    assert("/dev/fb"@.len() == 7);
    if device.len() > 7 {
        assert(device.subrange(0, 7) =~= device.take(7));
    }
    let bits = framebuffer.visible.width() * framebuffer.bits_per_pixel@;
    let line = framebuffer.line_length@ as int;
    assert(line < (bits + 7) / 8 <==> 8 * line < bits);
}

/// An attempt is fine exactly when its region lies inside of the visible surface
/// and has at most 4,096 pixels, its request has the size and the ioctl of its
/// ABI, it waits at most five seconds, and it has a completion exactly when it
/// was submitted and waited for.
pub proof fn law_attempts_keep_their_bounds(
    before: Seq<DisplayTraceValidationError>,
    index: usize,
    attempt: DisplayUpdateAttempt,
    framebuffer: FramebufferFingerprint,
)
    ensures
        with_attempt_violations(before, index, attempt, framebuffer) == before <==> {
            let plan = attempt.plan;
            &&& plan.region.x + plan.region.width@ <= framebuffer.visible.width()
            &&& plan.region.y + plan.region.height@ <= framebuffer.visible.height()
            &&& plan.region.width@ * plan.region.height@ <= 4_096
            &&& plan.abi.request_size@ == (match plan.abi.kind {
                DisplayUpdateAbiKind::Legacy72 => 72u32,
                DisplayUpdateAbiKind::Rex80 => 80u32,
                DisplayUpdateAbiKind::Zelda88 => 88u32,
            })
            &&& plan.request_ioctl@ == 0x4000_462e + 0x1_0000 * plan.abi.request_size@
            &&& plan.wait is Some ==> plan.wait->0.timeout_millis@ <= 5_000
            &&& attempt.completion is Some <==> attempt.submission
                == DisplaySubmissionResult::Submitted && plan.wait is Some
        },
        with_attempt_violations(before, index, attempt, framebuffer).len() >= before.len(),
        with_attempt_violations(before, index, attempt, framebuffer).len() == before.len()
            ==> with_attempt_violations(before, index, attempt, framebuffer) == before,
{
    let all = with_attempt_violations(before, index, attempt, framebuffer);
    assert(all.len() >= before.len());
    if all.len() == before.len() {
        assert(all =~= before);
    }
}

/// A display trace is valid exactly when it has the known schema, its redaction
/// and its framebuffer are fine, it names its profile, everything of a preflight
/// that was performed was confirmed, and its one attempt keeps its bounds.
#[verifier::spinoff_prover]
#[verifier::rlimit(60)]
pub proof fn law_valid_traces_keep_every_rule(trace: DisplayTrace)
    ensures
        trace.violations().len() == 0 <==> {
            let id = trace.profile_id@;
            &&& trace.schema_version == 1
            &&& redaction_violations(trace.redaction).len() == 0
            &&& 1 <= id.len() <= 128 && crate::text::CharSet::ProfileId.covers(id)
            &&& fingerprint_violations(trace.framebuffer).len() == 0
            &&& trace.preflight == DisplayPreflight::NotPerformed || trace.preflight == (
            DisplayPreflight::Confirmed {
                operator_present: true,
                stock_ui_healthy: true,
                maintenance_connection_healthy: true,
                power_adequate_and_awake: true,
                no_transition_or_update: true,
                output_ready: true,
                fresh_passive_report: true,
            })
            &&& trace.attempts@.len() == 1
            &&& with_attempt_violations(
                seq![],
                0,
                trace.attempts@[0],
                trace.framebuffer,
            ).len() == 0
        },
{
    headers_are_fine(trace);
    let header = trace.header_violations();
    let n = trace.attempts@.len() as int;
    attempts_only_add(header, trace.attempts@, trace.framebuffer, n);
    if header.len() == 0 {
        assert(header =~= Seq::<DisplayTraceValidationError>::empty());
        assert(n == 1);
        assert(with_all_attempt_violations(header, trace.attempts@, trace.framebuffer, 0)
            == header);
        assert(trace.violations() == with_attempt_violations(
            header,
            0,
            trace.attempts@[0],
            trace.framebuffer,
        ));
    }
}

/// Whether everything but the attempts of a trace keeps every rule.
spec fn header_is_fine(trace: DisplayTrace) -> bool {
    let id = trace.profile_id@;
    &&& trace.schema_version == 1
    &&& redaction_violations(trace.redaction).len() == 0
    &&& 1 <= id.len() <= 128 && crate::text::CharSet::ProfileId.covers(id)
    &&& fingerprint_violations(trace.framebuffer).len() == 0
    &&& trace.preflight == DisplayPreflight::NotPerformed || trace.preflight == (
    DisplayPreflight::Confirmed {
        operator_present: true,
        stock_ui_healthy: true,
        maintenance_connection_healthy: true,
        power_adequate_and_awake: true,
        no_transition_or_update: true,
        output_ready: true,
        fresh_passive_report: true,
    })
    &&& trace.attempts@.len() == 1
}

#[verifier::spinoff_prover]
proof fn headers_are_fine(trace: DisplayTrace)
    ensures
        trace.header_violations().len() == 0 <==> header_is_fine(trace),
{
    assert(is_complete(trace.preflight) <==> trace.preflight == DisplayPreflight::NotPerformed
        || trace.preflight == (DisplayPreflight::Confirmed {
        operator_present: true,
        stock_ui_healthy: true,
        maintenance_connection_healthy: true,
        power_adequate_and_awake: true,
        no_transition_or_update: true,
        output_ready: true,
        fresh_passive_report: true,
    }));
    let a = redaction_violations(trace.redaction).len();
    let b = fingerprint_violations(trace.framebuffer).len();
    assert(trace.header_violations().len() >= a + b);
}

proof fn attempts_only_add(
    before: Seq<DisplayTraceValidationError>,
    attempts: Seq<DisplayUpdateAttempt>,
    framebuffer: FramebufferFingerprint,
    n: int,
)
    ensures
        with_all_attempt_violations(before, attempts, framebuffer, n).len() >= before.len(),
    decreases n,
{
    if n > 0 {
        attempts_only_add(before, attempts, framebuffer, n - 1);
    }
}

/// Each error of an attempt is reported exactly when its own rule is broken, with
/// the number of the attempt and what broke it; what was reported before stays.
#[verifier::spinoff_prover]
#[verifier::rlimit(40)]
pub proof fn law_attempt_errors_tell_what_is_wrong(
    before: Seq<DisplayTraceValidationError>,
    at: usize,
    attempt: DisplayUpdateAttempt,
    framebuffer: FramebufferFingerprint,
    error: DisplayTraceValidationError,
)
    ensures
        with_attempt_violations(before, at, attempt, framebuffer).contains(error)
            <==> before.contains(error) || {
            let plan = attempt.plan;
            let right = plan.region.x + plan.region.width@;
            let bottom = plan.region.y + plan.region.height@;
            let overflow = right > 0xffff_ffff || bottom > 0xffff_ffff;
            match error {
                DisplayTraceValidationError::RegionOverflow { index } => index == at && overflow,
                DisplayTraceValidationError::RegionOutOfBounds { index } => index == at
                    && !overflow && (right > framebuffer.visible.width() || bottom
                    > framebuffer.visible.height()),
                DisplayTraceValidationError::RegionAboveMaximum { index, pixels, maximum } => index
                    == at && pixels == plan.region.width@ * plan.region.height@ && pixels > 4_096
                    && maximum == 4_096,
                DisplayTraceValidationError::InvalidRequestSize { index, observed, expected } => {
                    index == at && observed == plan.abi.request_size@ && observed != expected
                        && expected == (match plan.abi.kind {
                        DisplayUpdateAbiKind::Legacy72 => 72u32,
                        DisplayUpdateAbiKind::Rex80 => 80u32,
                        DisplayUpdateAbiKind::Zelda88 => 88u32,
                    })
                },
                DisplayTraceValidationError::InvalidRequestIoctl { index, observed, expected } => {
                    index == at && observed == plan.request_ioctl@ && observed != expected
                        && expected == (match plan.abi.kind {
                        DisplayUpdateAbiKind::Legacy72 => 0x4048_462eu64,
                        DisplayUpdateAbiKind::Rex80 => 0x4050_462eu64,
                        DisplayUpdateAbiKind::Zelda88 => 0x4058_462eu64,
                    })
                },
                DisplayTraceValidationError::WaitAboveMaximum { index, observed, maximum } => {
                    index == at && plan.wait is Some && observed
                        == plan.wait->0.timeout_millis@ && observed > 5_000 && maximum == 5_000
                },
                DisplayTraceValidationError::InconsistentCompletion { index } => index == at && !(
                attempt.completion is Some <==> attempt.submission
                    == DisplaySubmissionResult::Submitted && plan.wait is Some),
                _ => false,
            }
        },
{
    let plan = attempt.plan;
    let index = at;
    let right = plan.region.x + plan.region.width@;
    let bottom = plan.region.y + plan.region.height@;
    let overflow = right > u32::MAX || bottom > u32::MAX;
    let outside = !overflow && (right > framebuffer.visible.width() || bottom
        > framebuffer.visible.height());
    let pixels = plan.region.width@ * plan.region.height@;
    assert(0 <= pixels <= 0xffff_ffff * 0xffff_ffff) by (nonlinear_arith)
        requires
            pixels == plan.region.width@ * plan.region.height@,
            0 <= plan.region.width@ <= 0xffff_ffff,
            0 <= plan.region.height@ <= 0xffff_ffff,
    ;
    let large = DisplayTraceValidationError::RegionAboveMaximum {
        index,
        pixels: pixels as u64,
        maximum: MAX_DISPLAY_TRACE_REGION_PIXELS,
    };
    let size = DisplayTraceValidationError::InvalidRequestSize {
        index,
        observed: plan.abi.request_size@,
        expected: plan.abi.kind.expected_request_size(),
    };
    let ioctl = DisplayTraceValidationError::InvalidRequestIoctl {
        index,
        observed: plan.request_ioctl@,
        expected: plan.abi.kind.expected_request_ioctl(),
    };
    let wait = DisplayTraceValidationError::WaitAboveMaximum {
        index,
        observed: plan.wait->0.timeout_millis@,
        maximum: MAX_DISPLAY_WAIT_MILLIS,
    };
    let sized = plan.abi.request_size@ != plan.abi.kind.expected_request_size();
    let numbered = plan.request_ioctl@ != plan.abi.kind.expected_request_ioctl();
    let waits = plan.wait is Some && plan.wait->0.timeout_millis@ > MAX_DISPLAY_WAIT_MILLIS;
    let a = crate::trace::when_wrong(
        overflow,
        DisplayTraceValidationError::RegionOverflow { index },
    );
    let b = crate::trace::when_wrong(
        outside,
        DisplayTraceValidationError::RegionOutOfBounds { index },
    );
    let c = crate::trace::when_wrong(pixels > MAX_DISPLAY_TRACE_REGION_PIXELS, large);
    let d = crate::trace::when_wrong(sized, size);
    let e = crate::trace::when_wrong(numbered, ioctl);
    let f = crate::trace::when_wrong(waits, wait);
    let g = crate::trace::when_wrong(
        !completion_fits(attempt),
        DisplayTraceValidationError::InconsistentCompletion { index },
    );
    crate::trace::one_error_is_held(
        overflow,
        DisplayTraceValidationError::RegionOverflow { index },
    );
    crate::trace::one_error_is_held(
        outside,
        DisplayTraceValidationError::RegionOutOfBounds { index },
    );
    crate::trace::one_error_is_held(pixels > MAX_DISPLAY_TRACE_REGION_PIXELS, large);
    crate::trace::one_error_is_held(sized, size);
    crate::trace::one_error_is_held(numbered, ioctl);
    crate::trace::one_error_is_held(waits, wait);
    crate::trace::one_error_is_held(
        !completion_fits(attempt),
        DisplayTraceValidationError::InconsistentCompletion { index },
    );
    crate::text::either_list_holds(before, a);
    crate::text::either_list_holds(before + a, b);
    crate::text::either_list_holds(before + a + b, c);
    crate::text::either_list_holds(before + a + b + c, d);
    crate::text::either_list_holds(before + a + b + c + d, e);
    crate::text::either_list_holds(before + a + b + c + d + e, f);
    crate::text::either_list_holds(before + a + b + c + d + e + f, g);
    assert(with_attempt_violations(before, at, attempt, framebuffer) == before + a + b + c + d + e
        + f + g);
}

/// Each error of a fingerprint is reported exactly when its own rule is broken.
pub proof fn law_fingerprint_errors_tell_what_is_wrong(
    framebuffer: FramebufferFingerprint,
    error: DisplayTraceValidationError,
)
    ensures
        fingerprint_violations(framebuffer).contains(error) <==> match error {
            DisplayTraceValidationError::InvalidFramebufferPath => !crate::trace::is_numbered(
                framebuffer.device@,
                "/dev/fb"@,
            ),
            DisplayTraceValidationError::InvalidVirtualExtent => !(
            framebuffer.virtual_extent.width() >= framebuffer.visible.width()
                && framebuffer.virtual_extent.height() >= framebuffer.visible.height()),
            DisplayTraceValidationError::InvalidLineLength => 8 * framebuffer.line_length@
                < framebuffer.visible.width() * framebuffer.bits_per_pixel@,
            DisplayTraceValidationError::InvalidMemoryLength => framebuffer.memory_length@
                < framebuffer.line_length@ * framebuffer.virtual_extent.height(),
            _ => false,
        },
{
    let path = !crate::trace::is_numbered(framebuffer.device@, "/dev/fb"@);
    let extent = framebuffer.virtual_extent.width() < framebuffer.visible.width()
        || framebuffer.virtual_extent.height() < framebuffer.visible.height();
    let line = framebuffer.line_length@ < (framebuffer.visible.width()
        * framebuffer.bits_per_pixel@ + 7) / 8;
    let memory = framebuffer.memory_length@ < framebuffer.line_length@
        * framebuffer.virtual_extent.height();
    crate::trace::one_error_is_held(path, DisplayTraceValidationError::InvalidFramebufferPath);
    crate::trace::one_error_is_held(extent, DisplayTraceValidationError::InvalidVirtualExtent);
    crate::trace::one_error_is_held(line, DisplayTraceValidationError::InvalidLineLength);
    crate::trace::one_error_is_held(memory, DisplayTraceValidationError::InvalidMemoryLength);
    let a = crate::trace::when_wrong(path, DisplayTraceValidationError::InvalidFramebufferPath);
    let b = crate::trace::when_wrong(extent, DisplayTraceValidationError::InvalidVirtualExtent);
    let c = crate::trace::when_wrong(line, DisplayTraceValidationError::InvalidLineLength);
    let d = crate::trace::when_wrong(memory, DisplayTraceValidationError::InvalidMemoryLength);
    crate::text::either_list_holds(a, b);
    crate::text::either_list_holds(a + b, c);
    crate::text::either_list_holds(a + b + c, d);
}

/// A preflight is complete when it was not performed, or all of its seven
/// answers are yes.
pub proof fn law_preflights_answer_everything(preflight: DisplayPreflight)
    ensures
        is_complete(preflight) <==> match preflight {
            DisplayPreflight::NotPerformed => true,
            DisplayPreflight::Confirmed {
                operator_present,
                stock_ui_healthy,
                maintenance_connection_healthy,
                power_adequate_and_awake,
                no_transition_or_update,
                output_ready,
                fresh_passive_report,
            } => !(!operator_present || !stock_ui_healthy || !maintenance_connection_healthy
                || !power_adequate_and_awake || !no_transition_or_update || !output_ready
                || !fresh_passive_report),
        },
{
}

/// Attempts add their errors one after the other, each with its own number.
pub proof fn law_attempts_are_told_in_order(
    before: Seq<DisplayTraceValidationError>,
    attempts: Seq<DisplayUpdateAttempt>,
    framebuffer: FramebufferFingerprint,
    n: int,
)
    requires
        0 < n <= attempts.len(),
    ensures
        with_all_attempt_violations(before, attempts, framebuffer, 0) == before,
        with_all_attempt_violations(before, attempts, framebuffer, n) == with_attempt_violations(
            with_all_attempt_violations(before, attempts, framebuffer, n - 1),
            (n - 1) as usize,
            attempts[n - 1],
            framebuffer,
        ),
{
}

} // verus!
