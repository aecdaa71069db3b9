//! Offline-only validation of a synthetic reference active display plan.
//!
//! This module accepts already collected strings and data structures. It has no
//! device adapter and cannot open or operate on a framebuffer.

use crate::display_trace::{
    DisplayPlanOpenMode, DisplayRegion, DisplayUpdateAbi, DisplayUpdateAbiKind,
    FramebufferMemoryAccess,
};
use crate::nonzero::{NonZeroU32, NonZeroU64};
use crate::probe::{
    FramebufferCapability, InputEventAbi, PixelBitfield, PixelLayout, ProbeReport, SourcedValue,
};
use crate::profile::{
    DeviceProfile, EvidenceLevel, ProfileEvaluationStatus, ProfileReviewStatus,
};
use crate::redaction::REDACTION_POLICY;
use crate::text::{
    holds_text, optional_is, push_decimal, push_signed_decimal, str_eq, test_occurs, to_chars,
};
use crate::wording::{push_quoted_list, quote};
use vstd::prelude::*;

verus! {

/// Active display plan schema understood by this crate.
pub const ACTIVE_DISPLAY_PLAN_SCHEMA_VERSION: u32 = 1;

/// Hard maximum serialized plan size.
pub const MAX_ACTIVE_DISPLAY_PLAN_JSON_BYTES: usize = 65_536;

/// Single-use identifier for the synthetic reference mechanism test.
pub const REFERENCE_PORTRAIT_DISPLAY_MECHANISM_PLAN_ID: &'static str =
    "reference-portrait-display-mechanism-v1";

/// Synthetic profile to which the test plan is pinned.
pub const REFERENCE_PORTRAIT_DISPLAY_MECHANISM_PROFILE_ID: &'static str = "reference-portrait";

/// Reviewed collector version.
pub const REQUIRED_PROBE_VERSION: &'static str = "0.0.1";

/// Reviewed model prefix.
pub const REQUIRED_SERIAL_PREFIX: &'static str = "TEST";

/// Reviewed firmware version.
pub const REQUIRED_FIRMWARE_SUBSTRING: &'static str = "0.0.1-test";

/// Reviewed kernel release.
pub const REQUIRED_KERNEL_RELEASE: &'static str = "reference-kernel-portrait";

/// Reviewed machine name.
pub const REQUIRED_MACHINE: &'static str = "armv7l";

/// Directory that holds the output.
pub const REQUIRED_OUTPUT_PARENT: &'static str = "/mnt/us/ferrink/evidence";

/// Reviewed ioctl number.
pub const REQUIRED_REQUEST_IOCTL: u64 = 0x4058_462e;

/// Reviewed waveform.
pub const REQUIRED_WAVEFORM_MODE: u32 = 257;

/// Reviewed update mode.
pub const REQUIRED_UPDATE_MODE: u32 = 0;

/// Marker of the plan.
pub const REQUIRED_MARKER: u32 = 0x464b_0001;

/// Reviewed temperature value.
pub const REQUIRED_TEMPERATURE: i32 = 0x1000;

/// Exact passive evidence the active plan must see again before execution.
#[derive(Debug, Clone, PartialEq, Eq)]
pub struct ActiveDisplayEvidenceMatch {
    /// Version of the passive collector whose semantics were reviewed.
    pub probe_version: String,
    /// Short, non-secret model prefix from the redacted report.
    pub serial_prefix: String,
    /// Required substring in at least one sourced firmware value.
    pub firmware_contains: String,
    /// Exact reviewed kernel release.
    pub kernel_release: String,
    /// Exact reviewed machine string.
    pub machine: String,
    /// Exact libc event layout, retained as an architecture guard.
    pub input_event_abi: InputEventAbi,
    /// Full non-secret framebuffer capability expected at the selected path.
    pub framebuffer: FramebufferCapability,
}

/// Exact request fields authorized by the mechanism plan.
#[derive(Debug, Clone, PartialEq, Eq)]
pub struct ActiveDisplayRequestPlan {
    /// Framebuffer path to which the request would be submitted.
    pub device: String,
    /// Descriptor access mode.
    pub open_mode: DisplayPlanOpenMode,
    /// Permitted access to framebuffer pixel memory.
    pub memory_access: FramebufferMemoryAccess,
    /// Fully encoded ioctl request number.
    pub request_ioctl: NonZeroU64,
    /// Small visible update region.
    pub region: DisplayRegion,
    /// Reviewed request layout and size.
    pub abi: DisplayUpdateAbi,
    /// Driver waveform number.
    pub waveform_mode: u32,
    /// Driver update mode number.
    pub update_mode: u32,
    /// Non-zero marker unique to this single-use plan.
    pub marker: NonZeroU32,
    /// Driver temperature value.
    pub temperature: i32,
    /// Update flags.
    pub flags: u32,
    /// Dither mode.
    pub dither_mode: i32,
    /// Quantization bit setting.
    pub quant_bit: i32,
    /// Whether every alternate-buffer field is zero.
    pub alternate_buffer_zeroed: bool,
    /// Zelda grayscale and color histogram modes.
    pub histogram_modes: [u32; 2],
    /// Zelda PXP and EPDC timestamps.
    pub timestamps: [u32; 2],
    /// A completion wait in milliseconds; absent in the reviewed plan.
    pub completion_wait_millis: Option<NonZeroU32>,
    /// Hard request-attempt limit.
    pub maximum_attempts: NonZeroU32,
}

/// Immutable, offline-validated definition of one active display request.
#[derive(Debug, Clone, PartialEq, Eq)]
pub struct ActiveDisplayPlan {
    /// Plan schema version.
    pub schema_version: u32,
    /// Single-use reviewed plan identifier.
    pub plan_id: String,
    /// Must remain true; attempted requests consume this plan.
    pub single_use: bool,
    /// Exact reviewed profile identifier.
    pub profile_id: String,
    /// Passive evidence required before any later active adapter may proceed.
    pub evidence: ActiveDisplayEvidenceMatch,
    /// Pre-existing userstore directory under which create-new output belongs.
    pub output_parent: String,
    /// Exact bounded display request.
    pub request: ActiveDisplayRequestPlan,
}

/// Failure reading or validating an offline active-display plan.
#[derive(Debug, Clone, PartialEq, Eq)]
#[non_exhaustive]
pub enum ActiveDisplayPlanError {
    /// Serialized input exceeded the fixed byte limit.
    InputTooLarge { bytes: usize, maximum: usize },
    /// JSON syntax or shape was invalid.
    Json(String),
    /// The plan differed from the reviewed definition.
    Validation(Vec<ActiveDisplayPlanValidationError>),
}

/// A fail-closed mismatch found during offline validation.
#[derive(Debug, Clone, PartialEq, Eq)]
#[non_exhaustive]
pub enum ActiveDisplayPlanValidationError {
    /// One immutable value did not match the reviewed plan or evidence.
    Mismatch { field: &'static str, expected: String, observed: String },
    /// The reviewed profile failed its own validation.
    InvalidProfile(Vec<String>),
    /// The passive report failed its own validation.
    InvalidReport(Vec<String>),
    /// The general profile matcher did not report a full match.
    ProfileEvaluation { missing: Vec<String>, mismatches: Vec<String> },
    /// Every probe warning is rejected, because unknown warning codes cannot
    /// safely be classified as irrelevant to the display.
    ProbeWarningsPresent { count: usize },
}

/// What a mismatch says.
pub enum PlanIssue {
    /// One value did not match.
    Mismatch { field: Seq<char>, expected: Seq<char>, observed: Seq<char> },
    /// The profile failed its own validation.
    InvalidProfile { errors: Seq<Seq<char>> },
    /// The report failed its own validation.
    InvalidReport { errors: Seq<Seq<char>> },
    /// Profile and report did not match.
    ProfileEvaluation { missing: Seq<Seq<char>>, mismatches: Seq<Seq<char>> },
    /// The report holds warnings.
    ProbeWarningsPresent { count: nat },
}

impl View for ActiveDisplayPlanValidationError {
    type V = PlanIssue;

    open spec fn view(&self) -> PlanIssue {
        match *self {
            ActiveDisplayPlanValidationError::Mismatch { field, expected, observed } => {
                PlanIssue::Mismatch { field: field@, expected: expected@, observed: observed@ }
            },
            ActiveDisplayPlanValidationError::InvalidProfile(errors) => {
                PlanIssue::InvalidProfile { errors: crate::text::texts(errors@) }
            },
            ActiveDisplayPlanValidationError::InvalidReport(errors) => {
                PlanIssue::InvalidReport { errors: crate::text::texts(errors@) }
            },
            ActiveDisplayPlanValidationError::ProfileEvaluation { missing, mismatches } => {
                PlanIssue::ProfileEvaluation {
                    missing: crate::text::texts(missing@),
                    mismatches: crate::text::texts(mismatches@),
                }
            },
            ActiveDisplayPlanValidationError::ProbeWarningsPresent { count } => {
                PlanIssue::ProbeWarningsPresent { count: count as nat }
            },
        }
    }
}

/// What each of the errors says.
pub open spec fn issues(errors: Seq<ActiveDisplayPlanValidationError>) -> Seq<PlanIssue> {
    errors.map_values(|error: ActiveDisplayPlanValidationError| error@)
}

impl PlanIssue {
    /// The rendering of the issue in a message.
    pub open spec fn rendered(self) -> Seq<char> {
        match self {
            PlanIssue::Mismatch { field, expected, observed } => {
                "Mismatch { field: "@ + crate::wording::quoted(field) + ", expected: "@
                    + crate::wording::quoted(expected) + ", observed: "@ + crate::wording::quoted(
                    observed,
                ) + " }"@
            },
            PlanIssue::InvalidProfile { errors } => {
                "InvalidProfile("@ + crate::wording::quoted_list(errors) + ")"@
            },
            PlanIssue::InvalidReport { errors } => {
                "InvalidReport("@ + crate::wording::quoted_list(errors) + ")"@
            },
            PlanIssue::ProfileEvaluation { missing, mismatches } => {
                "ProfileEvaluation { missing: "@ + crate::wording::quoted_list(missing)
                    + ", mismatches: "@ + crate::wording::quoted_list(mismatches) + " }"@
            },
            PlanIssue::ProbeWarningsPresent { count } => {
                "ProbeWarningsPresent { count: "@ + crate::text::decimal(count) + " }"@
            },
        }
    }
}

impl ActiveDisplayPlanValidationError {
    /// Renders the error for a message.
    pub fn render(&self) -> (text: String)
        ensures
            text@ == self@.rendered(),
    {
        let mut text: String = String::new();
        match self {
            ActiveDisplayPlanValidationError::Mismatch { field, expected, observed } => {
                text.append("Mismatch { field: ");
                text.append(quote(field).as_str());
                text.append(", expected: ");
                text.append(quote(expected.as_str()).as_str());
                text.append(", observed: ");
                text.append(quote(observed.as_str()).as_str());
                text.append(" }");
            },
            ActiveDisplayPlanValidationError::InvalidProfile(errors) => {
                text.append("InvalidProfile(");
                push_quoted_list(&mut text, errors);
                text.append(")");
            },
            ActiveDisplayPlanValidationError::InvalidReport(errors) => {
                text.append("InvalidReport(");
                push_quoted_list(&mut text, errors);
                text.append(")");
            },
            ActiveDisplayPlanValidationError::ProfileEvaluation { missing, mismatches } => {
                text.append("ProfileEvaluation { missing: ");
                push_quoted_list(&mut text, missing);
                text.append(", mismatches: ");
                push_quoted_list(&mut text, mismatches);
                text.append(" }");
            },
            ActiveDisplayPlanValidationError::ProbeWarningsPresent { count } => {
                text.append("ProbeWarningsPresent { count: ");
                push_decimal(&mut text, *count as u64);
                text.append(" }");
            },
        }
        assert(text@ =~= self@.rendered());
        text
    }
}

/// The renderings of a list of issues, in square brackets.
pub open spec fn rendered_issues(list: Seq<PlanIssue>) -> Seq<char> {
    "["@ + crate::text::joined(list.map_values(|issue: PlanIssue| issue.rendered()), ", "@) + "]"@
}

impl ActiveDisplayPlanError {
    /// The operator-facing description of the error.
    pub open spec fn spec_message(self) -> Seq<char> {
        match self {
            ActiveDisplayPlanError::InputTooLarge { bytes, maximum } => {
                "active display plan is "@ + crate::text::decimal(bytes as nat)
                    + " bytes; maximum is "@ + crate::text::decimal(maximum as nat)
            },
            ActiveDisplayPlanError::Json(error) => "invalid active display plan JSON: "@ + error@,
            ActiveDisplayPlanError::Validation(errors) => {
                "invalid active display plan: "@ + rendered_issues(issues(errors@))
            },
        }
    }

    /// Describes the error for an operator.
    pub fn message(&self) -> (message: String)
        ensures
            message@ == self.spec_message(),
    {
        let mut message: String = String::new();
        match self {
            ActiveDisplayPlanError::InputTooLarge { bytes, maximum } => {
                message.append("active display plan is ");
                push_decimal(&mut message, *bytes as u64);
                message.append(" bytes; maximum is ");
                push_decimal(&mut message, *maximum as u64);
            },
            ActiveDisplayPlanError::Json(error) => {
                message.append("invalid active display plan JSON: ");
                message.append(error.as_str());
            },
            ActiveDisplayPlanError::Validation(errors) => {
                message.append("invalid active display plan: ");
                push_issues(&mut message, errors);
            },
        }
        assert(message@ =~= self.spec_message());
        message
    }
}

fn push_issues(out: &mut String, errors: &Vec<ActiveDisplayPlanValidationError>)
    ensures
        final(out)@ == old(out)@ + rendered_issues(issues(errors@)),
{
    let ghost all = issues(errors@).map_values(|issue: PlanIssue| issue.rendered());
    out.append("[");
    let ghost opened = out@;
    assert(opened + crate::text::joined(all.take(0), ", "@) =~= opened);
    for i in 0..errors.len()
        invariant
            all == issues(errors@).map_values(|issue: PlanIssue| issue.rendered()),
            out@ == opened + crate::text::joined(all.take(i as int), ", "@),
    {
        assert(all.take(i + 1).drop_last() =~= all.take(i as int));
        assert(all.take(i + 1).last() == errors@[i as int]@.rendered());
        if i > 0 {
            out.append(", ");
        }
        out.append(errors[i].render().as_str());
        assert(out@ =~= opened + crate::text::joined(all.take(i + 1), ", "@));
    }
    assert(all.take(all.len() as int) =~= all);
    out.append("]");
    assert(out@ =~= old(out)@ + rendered_issues(issues(errors@)));
}

/// One issue, when something is wrong; nothing otherwise.
pub open spec fn when(wrong: bool, issue: PlanIssue) -> Seq<PlanIssue> {
    if wrong {
        seq![issue]
    } else {
        seq![]
    }
}

/// A mismatch of the field, when something is wrong.
pub open spec fn differs(
    wrong: bool,
    field: Seq<char>,
    expected: Seq<char>,
    observed: Seq<char>,
) -> Seq<PlanIssue> {
    when(wrong, PlanIssue::Mismatch { field, expected, observed })
}

// ---------------------------------------------------------------------------
// Rendering of values
// ---------------------------------------------------------------------------
/// `true` or `false`.
pub open spec fn shown_flag(value: bool) -> Seq<char> {
    if value {
        "true"@
    } else {
        "false"@
    }
}

/// A rendering in `Some(..)`, or `None`.
pub open spec fn shown_option(value: Option<Seq<char>>) -> Seq<char> {
    match value {
        Some(value) => "Some("@ + value + ")"@,
        None => "None"@,
    }
}

/// The rendering of a quoted text in `Some(..)`, or `None`.
pub open spec fn shown_optional_text(value: Option<Seq<char>>) -> Seq<char> {
    match value {
        Some(value) => shown_option(Some(crate::wording::quoted(value))),
        None => shown_option(None),
    }
}

/// Two numbers in square brackets.
pub open spec fn shown_pair(value: [u32; 2]) -> Seq<char> {
    "["@ + crate::text::decimal(value@[0] as nat) + ", "@ + crate::text::decimal(
        value@[1] as nat,
    ) + "]"@
}

/// The rendering of a layout of input events.
pub open spec fn shown_event_abi(abi: InputEventAbi) -> Seq<char> {
    "InputEventAbi { pointer_width_bits: "@ + crate::text::decimal(abi.pointer_width_bits as nat)
        + ", libc_timeval_bytes: "@ + crate::text::decimal(abi.libc_timeval_bytes as nat)
        + ", libc_input_event_bytes: "@ + crate::text::decimal(abi.libc_input_event_bytes as nat)
        + " }"@
}

/// The rendering of a color position.
pub open spec fn shown_bitfield(field: PixelBitfield) -> Seq<char> {
    "PixelBitfield { offset: "@ + crate::text::decimal(field.offset as nat) + ", length: "@
        + crate::text::decimal(field.length as nat) + ", msb_right: "@ + crate::text::decimal(
        field.msb_right as nat,
    ) + " }"@
}

/// The rendering of a framebuffer's geometry.
pub open spec fn shown_geometry(framebuffer: FramebufferCapability) -> Seq<char> {
    ", visible_width: "@ + crate::text::decimal(framebuffer.visible_width as nat)
        + ", visible_height: "@ + crate::text::decimal(framebuffer.visible_height as nat)
        + ", virtual_width: "@ + crate::text::decimal(framebuffer.virtual_width as nat)
        + ", virtual_height: "@ + crate::text::decimal(framebuffer.virtual_height as nat)
        + ", x_offset: "@ + crate::text::decimal(framebuffer.x_offset as nat) + ", y_offset: "@
        + crate::text::decimal(framebuffer.y_offset as nat) + ", line_length: "@
        + crate::text::decimal(framebuffer.line_length as nat) + ", memory_length: "@
        + crate::text::decimal(framebuffer.memory_length as nat)
}

/// The rendering of a framebuffer's pixels.
pub open spec fn shown_pixels(framebuffer: FramebufferCapability) -> Seq<char> {
    ", bits_per_pixel: "@ + crate::text::decimal(framebuffer.bits_per_pixel as nat)
        + ", grayscale: "@ + crate::text::decimal(framebuffer.grayscale as nat)
        + ", pixel_layout: "@ + framebuffer.pixel_layout.spec_name() + ", rotation: "@
        + crate::text::decimal(framebuffer.rotation as nat) + ", red: "@ + shown_bitfield(
        framebuffer.red,
    ) + ", green: "@ + shown_bitfield(framebuffer.green) + ", blue: "@ + shown_bitfield(
        framebuffer.blue,
    ) + ", transparency: "@ + shown_bitfield(framebuffer.transparency)
}

/// The rendering of a framebuffer.
pub open spec fn shown_framebuffer(framebuffer: FramebufferCapability) -> Seq<char> {
    "FramebufferCapability { device: "@ + crate::wording::quoted(framebuffer.device@)
        + ", driver_id: "@ + crate::wording::quoted(framebuffer.driver_id@) + shown_geometry(
        framebuffer,
    ) + shown_pixels(framebuffer) + " }"@
}

/// The rendering of a value and its source.
pub open spec fn shown_sourced(value: SourcedValue) -> Seq<char> {
    "SourcedValue { source: "@ + crate::wording::quoted(value.source@) + ", value: "@
        + crate::wording::quoted(value.value@) + " }"@
}

/// The rendering of a list of values and their sources.
pub open spec fn shown_sourced_list(values: Seq<SourcedValue>) -> Seq<char> {
    "["@ + crate::text::joined(
        values.map_values(|value: SourcedValue| shown_sourced(value)),
        ", "@,
    ) + "]"@
}

fn show_number(value: u64) -> (r: String)
    ensures
        r@ == crate::text::decimal(value as nat),
{
    let mut r: String = String::new();
    push_decimal(&mut r, value);
    assert(r@ =~= crate::text::decimal(value as nat));
    r
}

fn show_signed(value: i64) -> (r: String)
    ensures
        r@ == crate::text::signed_decimal(value as int),
{
    let mut r: String = String::new();
    push_signed_decimal(&mut r, value);
    assert(r@ =~= crate::text::signed_decimal(value as int));
    r
}

fn show_flag(value: bool) -> (r: String)
    ensures
        r@ == shown_flag(value),
{
    if value {
        "true".to_owned()
    } else {
        "false".to_owned()
    }
}

fn show_some(value: &str) -> (r: String)
    ensures
        r@ == shown_option(Some(value@)),
{
    let mut r: String = "Some(".to_owned();
    r.append(value);
    r.append(")");
    r
}

fn show_optional_text(value: &Option<String>) -> (r: String)
    ensures
        r@ == shown_optional_text(crate::text::optional_text(*value)),
{
    match value {
        Some(value) => show_some(quote(value.as_str()).as_str()),
        None => "None".to_owned(),
    }
}

fn show_pair(value: [u32; 2]) -> (r: String)
    ensures
        r@ == shown_pair(value),
{
    let mut r: String = "[".to_owned();
    push_decimal(&mut r, value[0] as u64);
    r.append(", ");
    push_decimal(&mut r, value[1] as u64);
    r.append("]");
    r
}

fn show_list(list: &Vec<String>) -> (r: String)
    ensures
        r@ == crate::wording::quoted_list(crate::text::texts(list@)),
{
    let mut r: String = String::new();
    push_quoted_list(&mut r, list);
    assert(r@ =~= crate::wording::quoted_list(crate::text::texts(list@)));
    r
}

fn show_event_abi(abi: InputEventAbi) -> (r: String)
    ensures
        r@ == shown_event_abi(abi),
{
    let mut r: String = "InputEventAbi { pointer_width_bits: ".to_owned();
    push_decimal(&mut r, abi.pointer_width_bits as u64);
    r.append(", libc_timeval_bytes: ");
    push_decimal(&mut r, abi.libc_timeval_bytes as u64);
    r.append(", libc_input_event_bytes: ");
    push_decimal(&mut r, abi.libc_input_event_bytes as u64);
    r.append(" }");
    r
}

fn show_bitfield(field: PixelBitfield) -> (r: String)
    ensures
        r@ == shown_bitfield(field),
{
    let mut r: String = "PixelBitfield { offset: ".to_owned();
    push_decimal(&mut r, field.offset as u64);
    r.append(", length: ");
    push_decimal(&mut r, field.length as u64);
    r.append(", msb_right: ");
    push_decimal(&mut r, field.msb_right as u64);
    r.append(" }");
    r
}

#[verifier::rlimit(30)]
fn show_geometry(framebuffer: &FramebufferCapability) -> (r: String)
    ensures
        r@ == shown_geometry(*framebuffer),
{
    let mut r: String = ", visible_width: ".to_owned();
    push_decimal(&mut r, framebuffer.visible_width as u64);
    r.append(", visible_height: ");
    push_decimal(&mut r, framebuffer.visible_height as u64);
    r.append(", virtual_width: ");
    push_decimal(&mut r, framebuffer.virtual_width as u64);
    r.append(", virtual_height: ");
    push_decimal(&mut r, framebuffer.virtual_height as u64);
    r.append(", x_offset: ");
    push_decimal(&mut r, framebuffer.x_offset as u64);
    r.append(", y_offset: ");
    push_decimal(&mut r, framebuffer.y_offset as u64);
    r.append(", line_length: ");
    push_decimal(&mut r, framebuffer.line_length as u64);
    r.append(", memory_length: ");
    push_decimal(&mut r, framebuffer.memory_length as u64);
    r
}

#[verifier::rlimit(30)]
fn show_pixels(framebuffer: &FramebufferCapability) -> (r: String)
    ensures
        r@ == shown_pixels(*framebuffer),
{
    let mut r: String = ", bits_per_pixel: ".to_owned();
    push_decimal(&mut r, framebuffer.bits_per_pixel as u64);
    r.append(", grayscale: ");
    push_decimal(&mut r, framebuffer.grayscale as u64);
    r.append(", pixel_layout: ");
    r.append(framebuffer.pixel_layout.name());
    r.append(", rotation: ");
    push_decimal(&mut r, framebuffer.rotation as u64);
    r.append(", red: ");
    r.append(show_bitfield(framebuffer.red).as_str());
    r.append(", green: ");
    r.append(show_bitfield(framebuffer.green).as_str());
    r.append(", blue: ");
    r.append(show_bitfield(framebuffer.blue).as_str());
    r.append(", transparency: ");
    r.append(show_bitfield(framebuffer.transparency).as_str());
    r
}

fn show_framebuffer(framebuffer: &FramebufferCapability) -> (r: String)
    ensures
        r@ == shown_framebuffer(*framebuffer),
{
    let mut r: String = "FramebufferCapability { device: ".to_owned();
    r.append(quote(framebuffer.device.as_str()).as_str());
    r.append(", driver_id: ");
    r.append(quote(framebuffer.driver_id.as_str()).as_str());
    r.append(show_geometry(framebuffer).as_str());
    r.append(show_pixels(framebuffer).as_str());
    r.append(" }");
    r
}

fn show_sourced_list(values: &Vec<SourcedValue>) -> (r: String)
    ensures
        r@ == shown_sourced_list(values@),
{
    let ghost all = values@.map_values(|value: SourcedValue| shown_sourced(value));
    let mut r: String = "[".to_owned();
    let ghost opened = r@;
    assert(opened + crate::text::joined(all.take(0), ", "@) =~= opened);
    for i in 0..values.len()
        invariant
            all == values@.map_values(|value: SourcedValue| shown_sourced(value)),
            r@ == opened + crate::text::joined(all.take(i as int), ", "@),
    {
        assert(all.take(i + 1).drop_last() =~= all.take(i as int));
        assert(all.take(i + 1).last() == shown_sourced(values@[i as int]));
        if i > 0 {
            r.append(", ");
        }
        r.append(show_sourced(&values[i]).as_str());
        assert(r@ =~= opened + crate::text::joined(all.take(i + 1), ", "@));
    }
    assert(all.take(all.len() as int) =~= all);
    r.append("]");
    r
}

fn show_sourced(value: &SourcedValue) -> (r: String)
    ensures
        r@ == shown_sourced(*value),
{
    let mut r: String = "SourcedValue { source: ".to_owned();
    r.append(quote(value.source.as_str()).as_str());
    r.append(", value: ");
    r.append(quote(value.value.as_str()).as_str());
    r.append(" }");
    r
}

// ---------------------------------------------------------------------------
// Comparison of values
// ---------------------------------------------------------------------------
fn report(
    errors: &mut Vec<ActiveDisplayPlanValidationError>,
    wrong: bool,
    error: ActiveDisplayPlanValidationError,
)
    ensures
        issues(final(errors)@) == issues(old(errors)@) + when(wrong, error@),
{
    let ghost issue = error@;
    if wrong {
        errors.push(error);
    }
    assert(issues(errors@) =~= issues(old(errors)@) + when(wrong, issue));
}

fn compare(
    errors: &mut Vec<ActiveDisplayPlanValidationError>,
    wrong: bool,
    field: &'static str,
    expected: String,
    observed: String,
)
    ensures
        issues(final(errors)@) == issues(old(errors)@) + differs(
            wrong,
            field@,
            expected@,
            observed@,
        ),
{
    report(
        errors,
        wrong,
        ActiveDisplayPlanValidationError::Mismatch { field, expected, observed },
    );
}

/// The issue of two numbers that should be equal.
pub open spec fn number_issue(field: Seq<char>, expected: int, observed: int) -> Seq<PlanIssue> {
    differs(
        expected != observed,
        field,
        crate::text::signed_decimal(expected),
        crate::text::signed_decimal(observed),
    )
}

fn compare_number(
    errors: &mut Vec<ActiveDisplayPlanValidationError>,
    field: &'static str,
    expected: u64,
    observed: u64,
)
    ensures
        issues(final(errors)@) == issues(old(errors)@) + number_issue(
            field@,
            expected as int,
            observed as int,
        ),
{
    compare(errors, expected != observed, field, show_number(expected), show_number(observed));
}

fn compare_signed(
    errors: &mut Vec<ActiveDisplayPlanValidationError>,
    field: &'static str,
    expected: i32,
    observed: i32,
)
    ensures
        issues(final(errors)@) == issues(old(errors)@) + number_issue(
            field@,
            expected as int,
            observed as int,
        ),
{
    compare(
        errors,
        expected != observed,
        field,
        show_signed(expected as i64),
        show_signed(observed as i64),
    );
}

/// The issue of two texts that should be equal.
pub open spec fn text_issue(
    field: Seq<char>,
    expected: Seq<char>,
    observed: Seq<char>,
) -> Seq<PlanIssue> {
    differs(
        expected != observed,
        field,
        crate::wording::quoted(expected),
        crate::wording::quoted(observed),
    )
}

fn compare_text(
    errors: &mut Vec<ActiveDisplayPlanValidationError>,
    field: &'static str,
    expected: &str,
    observed: &str,
)
    ensures
        issues(final(errors)@) == issues(old(errors)@) + text_issue(field@, expected@, observed@),
{
    compare(errors, !str_eq(expected, observed), field, quote(expected), quote(observed));
}

/// The issue of a text that should be there and equal another.
pub open spec fn optional_text_issue(
    field: Seq<char>,
    expected: Seq<char>,
    observed: Option<Seq<char>>,
) -> Seq<PlanIssue> {
    differs(
        observed != Some(expected),
        field,
        shown_optional_text(Some(expected)),
        shown_optional_text(observed),
    )
}

fn compare_optional_text(
    errors: &mut Vec<ActiveDisplayPlanValidationError>,
    field: &'static str,
    expected: &str,
    observed: &Option<String>,
)
    ensures
        issues(final(errors)@) == issues(old(errors)@) + optional_text_issue(
            field@,
            expected@,
            crate::text::optional_text(*observed),
        ),
{
    compare(
        errors,
        !optional_is(observed, expected),
        field,
        show_some(quote(expected).as_str()),
        show_optional_text(observed),
    );
}

/// The issue of two flags that should be equal.
pub open spec fn flag_issue(field: Seq<char>, expected: bool, observed: bool) -> Seq<PlanIssue> {
    differs(expected != observed, field, shown_flag(expected), shown_flag(observed))
}

fn compare_flag(
    errors: &mut Vec<ActiveDisplayPlanValidationError>,
    field: &'static str,
    expected: bool,
    observed: bool,
)
    ensures
        issues(final(errors)@) == issues(old(errors)@) + flag_issue(field@, expected, observed),
{
    compare(errors, expected != observed, field, show_flag(expected), show_flag(observed));
}

/// The issue of a list that should hold exactly one text.
pub open spec fn single_issue(
    field: Seq<char>,
    expected: Seq<char>,
    observed: Seq<Seq<char>>,
) -> Seq<PlanIssue> {
    differs(
        observed != seq![expected],
        field,
        crate::wording::quoted_list(seq![expected]),
        crate::wording::quoted_list(observed),
    )
}

fn compare_single(
    errors: &mut Vec<ActiveDisplayPlanValidationError>,
    field: &'static str,
    expected: &str,
    observed: &Vec<String>,
)
    ensures
        issues(final(errors)@) == issues(old(errors)@) + single_issue(
            field@,
            expected@,
            crate::text::texts(observed@),
        ),
{
    let mut single: Vec<String> = Vec::new();
    crate::text::push_text(&mut single, expected);
    assert(crate::text::texts(single@) =~= seq![expected@]);
    let same: bool = observed.len() == 1 && str_eq(observed[0].as_str(), expected);
    assert(same == (crate::text::texts(observed@) == seq![expected@])) by {
        if same {
            assert(crate::text::texts(observed@) =~= seq![expected@]);
        }
        if crate::text::texts(observed@) == seq![expected@] {
            assert(crate::text::texts(observed@).len() == 1);
            assert(crate::text::texts(observed@)[0] == expected@);
        }
    }
    compare(errors, !same, field, show_list(&single), show_list(observed));
}

/// Issues that come after nothing are those issues.
proof fn nothing_comes_first()
    ensures
        forall|s: Seq<PlanIssue>| #[trigger] (Seq::<PlanIssue>::empty() + s) == s,
{
    assert forall|s: Seq<PlanIssue>| #[trigger] (Seq::<PlanIssue>::empty() + s) == s by {
        assert(Seq::<PlanIssue>::empty() + s =~= s);
    }
}

/// Appends the errors of one part to those of the parts before it.
fn absorb(
    errors: &mut Vec<ActiveDisplayPlanValidationError>,
    more: Vec<ActiveDisplayPlanValidationError>,
)
    ensures
        issues(final(errors)@) == issues(old(errors)@) + issues(more@),
{
    let ghost added = more@;
    let mut more: Vec<ActiveDisplayPlanValidationError> = more;
    errors.append(&mut more);
    assert(issues(errors@) =~= issues(old(errors)@) + issues(added));
}

/// The bits of an 8-bit gray channel.
pub open spec fn gray_bits() -> PixelBitfield {
    PixelBitfield { offset: 0, length: 8, msb_right: 0 }
}

/// No bits at all.
pub open spec fn no_bits() -> PixelBitfield {
    PixelBitfield { offset: 0, length: 0, msb_right: 0 }
}

/// The issue of two color positions that should be equal.
pub open spec fn bitfield_issue(
    field: Seq<char>,
    expected: PixelBitfield,
    observed: PixelBitfield,
) -> Seq<PlanIssue> {
    differs(expected != observed, field, shown_bitfield(expected), shown_bitfield(observed))
}

fn compare_bitfield(
    errors: &mut Vec<ActiveDisplayPlanValidationError>,
    field: &'static str,
    expected: PixelBitfield,
    observed: PixelBitfield,
)
    ensures
        issues(final(errors)@) == issues(old(errors)@) + bitfield_issue(field@, expected, observed),
{
    compare(errors, expected != observed, field, show_bitfield(expected), show_bitfield(observed));
}

/// The issue of two layouts of input events that should be equal.
pub open spec fn event_abi_issue(
    field: Seq<char>,
    expected: InputEventAbi,
    observed: InputEventAbi,
) -> Seq<PlanIssue> {
    differs(expected != observed, field, shown_event_abi(expected), shown_event_abi(observed))
}

fn compare_event_abi(
    errors: &mut Vec<ActiveDisplayPlanValidationError>,
    field: &'static str,
    expected: InputEventAbi,
    observed: InputEventAbi,
)
    ensures
        issues(final(errors)@) == issues(old(errors)@) + event_abi_issue(
            field@,
            expected,
            observed,
        ),
{
    compare(
        errors,
        expected != observed,
        field,
        show_event_abi(expected),
        show_event_abi(observed),
    );
}

/// The issue of two pairs that should be equal.
pub open spec fn pair_issue(
    field: Seq<char>,
    expected: [u32; 2],
    observed: [u32; 2],
) -> Seq<PlanIssue> {
    differs(expected@ != observed@, field, shown_pair(expected), shown_pair(observed))
}

fn compare_pair(
    errors: &mut Vec<ActiveDisplayPlanValidationError>,
    field: &'static str,
    expected: [u32; 2],
    observed: [u32; 2],
)
    ensures
        issues(final(errors)@) == issues(old(errors)@) + pair_issue(field@, expected, observed),
{
    let same: bool = expected[0] == observed[0] && expected[1] == observed[1];
    assert(same ==> expected@ =~= observed@);
    compare(errors, !same, field, show_pair(expected), show_pair(observed));
}

/// The 32-bit layout of input events.
pub open spec fn narrow_event_abi() -> InputEventAbi {
    InputEventAbi { pointer_width_bits: 32, libc_timeval_bytes: 8, libc_input_event_bytes: 16 }
}

fn required_input_event_abi() -> (abi: InputEventAbi)
    ensures
        abi == narrow_event_abi(),
{
    InputEventAbi { pointer_width_bits: 32, libc_timeval_bytes: 8, libc_input_event_bytes: 16 }
}

/// Where a framebuffer differs from the reviewed one.
pub open spec fn framebuffer_issues(framebuffer: FramebufferCapability) -> Seq<PlanIssue> {
    text_issue("evidence.framebuffer.device"@, "/dev/fb0"@, framebuffer.device@)
        + text_issue("evidence.framebuffer.driver_id"@, "mxc_epdc_fb"@, framebuffer.driver_id@)
        + number_issue(
            "evidence.framebuffer.visible_width"@,
            1264,
            framebuffer.visible_width as int,
        )
        + number_issue(
            "evidence.framebuffer.visible_height"@,
            1680,
            framebuffer.visible_height as int,
        )
        + number_issue(
            "evidence.framebuffer.virtual_width"@,
            1280,
            framebuffer.virtual_width as int,
        )
        + number_issue(
            "evidence.framebuffer.virtual_height"@,
            3584,
            framebuffer.virtual_height as int,
        )
        + number_issue("evidence.framebuffer.x_offset"@, 0, framebuffer.x_offset as int)
        + number_issue("evidence.framebuffer.y_offset"@, 0, framebuffer.y_offset as int)
        + number_issue(
            "evidence.framebuffer.line_length"@,
            1280,
            framebuffer.line_length as int,
        )
        + number_issue(
            "evidence.framebuffer.memory_length"@,
            4_587_520,
            framebuffer.memory_length as int,
        )
        + number_issue(
            "evidence.framebuffer.bits_per_pixel"@,
            8,
            framebuffer.bits_per_pixel as int,
        )
        + number_issue("evidence.framebuffer.grayscale"@, 1, framebuffer.grayscale as int)
        + differs(
            framebuffer.pixel_layout != PixelLayout::Grayscale8,
            "evidence.framebuffer.pixel_layout"@,
            "Grayscale8"@,
            framebuffer.pixel_layout.spec_name(),
        )
        + number_issue("evidence.framebuffer.rotation"@, 0, framebuffer.rotation as int)
        + bitfield_issue("evidence.framebuffer.red"@, gray_bits(), framebuffer.red)
        + bitfield_issue("evidence.framebuffer.green"@, gray_bits(), framebuffer.green)
        + bitfield_issue("evidence.framebuffer.blue"@, gray_bits(), framebuffer.blue)
        + bitfield_issue("evidence.framebuffer.transparency"@, no_bits(), framebuffer.transparency)
}

#[verifier::rlimit(30)]
fn compare_framebuffer(framebuffer: &FramebufferCapability) -> (errors: Vec<
    ActiveDisplayPlanValidationError,
>)
    ensures
        issues(errors@) == framebuffer_issues(*framebuffer),
{
    let mut errors: Vec<ActiveDisplayPlanValidationError> = Vec::new();
    assert(issues(errors@) =~= Seq::<PlanIssue>::empty());
    proof {
        nothing_comes_first();
    }
    compare_text(
        &mut errors,
        "evidence.framebuffer.device",
        "/dev/fb0",
        framebuffer.device.as_str(),
    );
    compare_text(
        &mut errors,
        "evidence.framebuffer.driver_id",
        "mxc_epdc_fb",
        framebuffer.driver_id.as_str(),
    );
    compare_number(
        &mut errors,
        "evidence.framebuffer.visible_width",
        1264,
        framebuffer.visible_width as u64,
    );
    compare_number(
        &mut errors,
        "evidence.framebuffer.visible_height",
        1680,
        framebuffer.visible_height as u64,
    );
    compare_number(
        &mut errors,
        "evidence.framebuffer.virtual_width",
        1280,
        framebuffer.virtual_width as u64,
    );
    compare_number(
        &mut errors,
        "evidence.framebuffer.virtual_height",
        3584,
        framebuffer.virtual_height as u64,
    );
    compare_number(
        &mut errors,
        "evidence.framebuffer.x_offset",
        0,
        framebuffer.x_offset as u64,
    );
    compare_number(
        &mut errors,
        "evidence.framebuffer.y_offset",
        0,
        framebuffer.y_offset as u64,
    );
    compare_number(
        &mut errors,
        "evidence.framebuffer.line_length",
        1280,
        framebuffer.line_length as u64,
    );
    compare_number(
        &mut errors,
        "evidence.framebuffer.memory_length",
        4_587_520,
        framebuffer.memory_length as u64,
    );
    compare_number(
        &mut errors,
        "evidence.framebuffer.bits_per_pixel",
        8,
        framebuffer.bits_per_pixel as u64,
    );
    compare_number(
        &mut errors,
        "evidence.framebuffer.grayscale",
        1,
        framebuffer.grayscale as u64,
    );
    compare(
        &mut errors,
        framebuffer.pixel_layout != PixelLayout::Grayscale8,
        "evidence.framebuffer.pixel_layout",
        "Grayscale8".to_owned(),
        framebuffer.pixel_layout.name().to_owned(),
    );
    compare_number(
        &mut errors,
        "evidence.framebuffer.rotation",
        0,
        framebuffer.rotation as u64,
    );
    compare_bitfield(
        &mut errors,
        "evidence.framebuffer.red",
        PixelBitfield { offset: 0, length: 8, msb_right: 0 },
        framebuffer.red,
    );
    compare_bitfield(
        &mut errors,
        "evidence.framebuffer.green",
        PixelBitfield { offset: 0, length: 8, msb_right: 0 },
        framebuffer.green,
    );
    compare_bitfield(
        &mut errors,
        "evidence.framebuffer.blue",
        PixelBitfield { offset: 0, length: 8, msb_right: 0 },
        framebuffer.blue,
    );
    compare_bitfield(
        &mut errors,
        "evidence.framebuffer.transparency",
        PixelBitfield { offset: 0, length: 0, msb_right: 0 },
        framebuffer.transparency,
    );
    errors
}

/// The issue of a completion wait that should not be there.
pub open spec fn wait_issue(observed: Option<NonZeroU32>) -> Seq<PlanIssue> {
    differs(
        observed is Some,
        "request.completion_wait_millis"@,
        "None"@,
        shown_option(Some(crate::text::decimal(observed->0@ as nat))),
    )
}

fn compare_wait(
    errors: &mut Vec<ActiveDisplayPlanValidationError>,
    observed: Option<NonZeroU32>,
)
    ensures
        issues(final(errors)@) == issues(old(errors)@) + wait_issue(observed),
{
    if let Some(wait) = observed {
        compare(
            errors,
            true,
            "request.completion_wait_millis",
            "None".to_owned(),
            show_some(show_number(wait.get() as u64).as_str()),
        );
    }
    assert(issues(errors@) =~= issues(old(errors)@) + wait_issue(observed));
}

/// Where a request differs from the reviewed one.
pub open spec fn request_issues(request: ActiveDisplayRequestPlan) -> Seq<PlanIssue> {
    text_issue("request.device"@, "/dev/fb0"@, request.device@)
        + number_issue(
            "request.request_ioctl"@,
            REQUIRED_REQUEST_IOCTL as int,
            request.request_ioctl@ as int,
        )
        + number_issue("request.region.x"@, 600, request.region.x as int)
        + number_issue("request.region.y"@, 808, request.region.y as int)
        + number_issue("request.region.width"@, 64, request.region.width@ as int)
        + number_issue("request.region.height"@, 64, request.region.height@ as int)
        + differs(
            request.abi.kind != DisplayUpdateAbiKind::Zelda88,
            "request.abi.kind"@,
            "Zelda88"@,
            request.abi.kind.spec_name(),
        )
        + number_issue("request.abi.request_size"@, 88, request.abi.request_size@ as int)
        + number_issue(
            "request.waveform_mode"@,
            REQUIRED_WAVEFORM_MODE as int,
            request.waveform_mode as int,
        )
        + number_issue(
            "request.update_mode"@,
            REQUIRED_UPDATE_MODE as int,
            request.update_mode as int,
        )
        + number_issue("request.marker"@, REQUIRED_MARKER as int, request.marker@ as int)
        + number_issue(
            "request.temperature"@,
            REQUIRED_TEMPERATURE as int,
            request.temperature as int,
        )
        + number_issue("request.flags"@, 0, request.flags as int)
        + number_issue("request.dither_mode"@, 0, request.dither_mode as int)
        + number_issue("request.quant_bit"@, 0, request.quant_bit as int)
        + flag_issue("request.alternate_buffer_zeroed"@, true, request.alternate_buffer_zeroed)
        + pair_issue("request.histogram_modes"@, [0u32, 0u32], request.histogram_modes)
        + pair_issue("request.timestamps"@, [0u32, 0u32], request.timestamps)
        + wait_issue(request.completion_wait_millis)
        + number_issue("request.maximum_attempts"@, 1, request.maximum_attempts@ as int)
}

#[verifier::rlimit(30)]
fn compare_request(request: &ActiveDisplayRequestPlan) -> (errors: Vec<
    ActiveDisplayPlanValidationError,
>)
    ensures
        issues(errors@) == request_issues(*request),
{
    let mut errors: Vec<ActiveDisplayPlanValidationError> = Vec::new();
    assert(issues(errors@) =~= Seq::<PlanIssue>::empty());
    proof {
        nothing_comes_first();
    }
    compare_text(&mut errors, "request.device", "/dev/fb0", request.device.as_str());
    compare_number(
        &mut errors,
        "request.request_ioctl",
        REQUIRED_REQUEST_IOCTL as u64,
        request.request_ioctl.get() as u64,
    );
    compare_number(&mut errors, "request.region.x", 600, request.region.x as u64);
    compare_number(&mut errors, "request.region.y", 808, request.region.y as u64);
    compare_number(
        &mut errors,
        "request.region.width",
        64,
        request.region.width.get() as u64,
    );
    compare_number(
        &mut errors,
        "request.region.height",
        64,
        request.region.height.get() as u64,
    );
    compare(
        &mut errors,
        request.abi.kind != DisplayUpdateAbiKind::Zelda88,
        "request.abi.kind",
        "Zelda88".to_owned(),
        request.abi.kind.name().to_owned(),
    );
    compare_number(
        &mut errors,
        "request.abi.request_size",
        88,
        request.abi.request_size.get() as u64,
    );
    compare_number(
        &mut errors,
        "request.waveform_mode",
        REQUIRED_WAVEFORM_MODE as u64,
        request.waveform_mode as u64,
    );
    compare_number(
        &mut errors,
        "request.update_mode",
        REQUIRED_UPDATE_MODE as u64,
        request.update_mode as u64,
    );
    compare_number(
        &mut errors,
        "request.marker",
        REQUIRED_MARKER as u64,
        request.marker.get() as u64,
    );
    compare_signed(&mut errors, "request.temperature", REQUIRED_TEMPERATURE, request.temperature);
    compare_number(&mut errors, "request.flags", 0, request.flags as u64);
    compare_signed(&mut errors, "request.dither_mode", 0, request.dither_mode);
    compare_signed(&mut errors, "request.quant_bit", 0, request.quant_bit);
    compare_flag(
        &mut errors,
        "request.alternate_buffer_zeroed",
        true,
        request.alternate_buffer_zeroed,
    );
    compare_pair(&mut errors, "request.histogram_modes", [0u32, 0u32], request.histogram_modes);
    compare_pair(&mut errors, "request.timestamps", [0u32, 0u32], request.timestamps);
    compare_wait(&mut errors, request.completion_wait_millis);
    compare_number(
        &mut errors,
        "request.maximum_attempts",
        1,
        request.maximum_attempts.get() as u64,
    );
    errors
}

/// Where a plan differs from the reviewed one.
pub open spec fn definition_issues(plan: ActiveDisplayPlan) -> Seq<PlanIssue> {
    number_issue(
        "schema_version"@,
        ACTIVE_DISPLAY_PLAN_SCHEMA_VERSION as int,
        plan.schema_version as int,
    )
        + text_issue("plan_id"@, REFERENCE_PORTRAIT_DISPLAY_MECHANISM_PLAN_ID@, plan.plan_id@)
        + flag_issue("single_use"@, true, plan.single_use)
        + text_issue(
            "profile_id"@,
            REFERENCE_PORTRAIT_DISPLAY_MECHANISM_PROFILE_ID@,
            plan.profile_id@,
        )
        + text_issue(
            "evidence.probe_version"@,
            REQUIRED_PROBE_VERSION@,
            plan.evidence.probe_version@,
        )
        + text_issue(
            "evidence.serial_prefix"@,
            REQUIRED_SERIAL_PREFIX@,
            plan.evidence.serial_prefix@,
        )
        + text_issue(
            "evidence.firmware_contains"@,
            REQUIRED_FIRMWARE_SUBSTRING@,
            plan.evidence.firmware_contains@,
        )
        + text_issue(
            "evidence.kernel_release"@,
            REQUIRED_KERNEL_RELEASE@,
            plan.evidence.kernel_release@,
        )
        + text_issue("evidence.machine"@, REQUIRED_MACHINE@, plan.evidence.machine@)
        + event_abi_issue(
            "evidence.input_event_abi"@,
            narrow_event_abi(),
            plan.evidence.input_event_abi,
        )
        + framebuffer_issues(plan.evidence.framebuffer)
        + text_issue("output_parent"@, REQUIRED_OUTPUT_PARENT@, plan.output_parent@)
        + request_issues(plan.request)
}

#[verifier::rlimit(30)]
fn compare_definition(plan: &ActiveDisplayPlan) -> (errors: Vec<
    ActiveDisplayPlanValidationError,
>)
    ensures
        issues(errors@) == definition_issues(*plan),
{
    let mut errors: Vec<ActiveDisplayPlanValidationError> = Vec::new();
    assert(issues(errors@) =~= Seq::<PlanIssue>::empty());
    proof {
        nothing_comes_first();
    }
    compare_number(
        &mut errors,
        "schema_version",
        ACTIVE_DISPLAY_PLAN_SCHEMA_VERSION as u64,
        plan.schema_version as u64,
    );
    compare_text(
        &mut errors,
        "plan_id",
        REFERENCE_PORTRAIT_DISPLAY_MECHANISM_PLAN_ID,
        plan.plan_id.as_str(),
    );
    compare_flag(&mut errors, "single_use", true, plan.single_use);
    compare_text(
        &mut errors,
        "profile_id",
        REFERENCE_PORTRAIT_DISPLAY_MECHANISM_PROFILE_ID,
        plan.profile_id.as_str(),
    );
    compare_text(
        &mut errors,
        "evidence.probe_version",
        REQUIRED_PROBE_VERSION,
        plan.evidence.probe_version.as_str(),
    );
    compare_text(
        &mut errors,
        "evidence.serial_prefix",
        REQUIRED_SERIAL_PREFIX,
        plan.evidence.serial_prefix.as_str(),
    );
    compare_text(
        &mut errors,
        "evidence.firmware_contains",
        REQUIRED_FIRMWARE_SUBSTRING,
        plan.evidence.firmware_contains.as_str(),
    );
    compare_text(
        &mut errors,
        "evidence.kernel_release",
        REQUIRED_KERNEL_RELEASE,
        plan.evidence.kernel_release.as_str(),
    );
    compare_text(&mut errors, "evidence.machine", REQUIRED_MACHINE, plan.evidence.machine.as_str());
    compare_event_abi(
        &mut errors,
        "evidence.input_event_abi",
        required_input_event_abi(),
        plan.evidence.input_event_abi,
    );
    absorb(&mut errors, compare_framebuffer(&plan.evidence.framebuffer));
    compare_text(&mut errors, "output_parent", REQUIRED_OUTPUT_PARENT, plan.output_parent.as_str());
    absorb(&mut errors, compare_request(&plan.request));
    errors
}

/// The issue of a pixel layout that should be there and equal another.
pub open spec fn layout_issue(expected: PixelLayout, observed: Option<PixelLayout>) -> Seq<
    PlanIssue,
> {
    differs(
        observed != Some(expected),
        "profile.display.pixel_layout"@,
        shown_option(Some(expected.spec_name())),
        shown_option(
            match observed {
                Some(layout) => Some(layout.spec_name()),
                None => None,
            },
        ),
    )
}

fn compare_layout(
    errors: &mut Vec<ActiveDisplayPlanValidationError>,
    expected: PixelLayout,
    observed: Option<PixelLayout>,
)
    ensures
        issues(final(errors)@) == issues(old(errors)@) + layout_issue(expected, observed),
{
    let (same, shown): (bool, String) = match observed {
        Some(layout) => (layout == expected, show_some(layout.name())),
        None => (false, "None".to_owned()),
    };
    compare(
        errors,
        !same,
        "profile.display.pixel_layout",
        show_some(expected.name()),
        shown,
    );
}

/// The issue of a rotation that should be there and equal another.
pub open spec fn rotation_issue(expected: u32, observed: Option<u32>) -> Seq<PlanIssue> {
    differs(
        observed != Some(expected),
        "profile.display.rotation"@,
        shown_option(Some(crate::text::decimal(expected as nat))),
        shown_option(
            match observed {
                Some(rotation) => Some(crate::text::decimal(rotation as nat)),
                None => None,
            },
        ),
    )
}

fn compare_rotation(
    errors: &mut Vec<ActiveDisplayPlanValidationError>,
    expected: u32,
    observed: Option<u32>,
)
    ensures
        issues(final(errors)@) == issues(old(errors)@) + rotation_issue(expected, observed),
{
    let (same, shown): (bool, String) = match observed {
        Some(rotation) => (
            rotation == expected,
            show_some(show_number(rotation as u64).as_str()),
        ),
        None => (false, "None".to_owned()),
    };
    compare(
        errors,
        !same,
        "profile.display.rotation",
        show_some(show_number(expected as u64).as_str()),
        shown,
    );
}

/// Where a profile differs from the evidence of a plan.
pub open spec fn profile_issues(plan: ActiveDisplayPlan, profile: DeviceProfile) -> Seq<PlanIssue> {
    text_issue("profile.id"@, plan.profile_id@, profile.id@)
        + differs(
            profile.review_status != ProfileReviewStatus::ObservedForeground,
            "profile.review_status"@,
            "ObservedForeground"@,
            profile.review_status.spec_name(),
        )
        + single_issue(
            "profile.identity.serial_prefixes"@,
            plan.evidence.serial_prefix@,
            crate::text::texts(profile.identity.serial_prefixes@),
        )
        + single_issue(
            "profile.identity.firmware_versions"@,
            plan.evidence.firmware_contains@,
            crate::text::texts(profile.identity.firmware_versions@),
        )
        + number_issue(
            "profile.display.width"@,
            plan.evidence.framebuffer.visible_width as int,
            profile.display.width as int,
        )
        + number_issue(
            "profile.display.height"@,
            plan.evidence.framebuffer.visible_height as int,
            profile.display.height as int,
        )
        + number_issue(
            "profile.display.bits_per_pixel"@,
            plan.evidence.framebuffer.bits_per_pixel as int,
            profile.display.bits_per_pixel as int,
        )
        + layout_issue(plan.evidence.framebuffer.pixel_layout, profile.display.pixel_layout)
        + rotation_issue(plan.evidence.framebuffer.rotation, profile.display.rotation)
        + optional_text_issue(
            "profile.display.epdc_update_abi"@,
            "zelda-88"@,
            crate::text::optional_text(profile.display.epdc_update_abi),
        )
        + flag_issue(
            "profile.requirements.multitouch_axes"@,
            true,
            profile.requirements.multitouch_axes,
        )
        + flag_issue(
            "profile.requirements.rtc_wakealarm"@,
            false,
            profile.requirements.rtc_wakealarm,
        )
        + flag_issue(
            "profile.requirements.suspend_to_mem"@,
            false,
            profile.requirements.suspend_to_mem,
        )
        + differs(
            profile.evidence.level != EvidenceLevel::Observed,
            "profile.evidence.level"@,
            "Observed"@,
            profile.evidence.level.spec_name(),
        )
}

#[verifier::rlimit(30)]
fn compare_profile(plan: &ActiveDisplayPlan, profile: &DeviceProfile) -> (errors: Vec<
    ActiveDisplayPlanValidationError,
>)
    ensures
        issues(errors@) == profile_issues(*plan, *profile),
{
    let mut errors: Vec<ActiveDisplayPlanValidationError> = Vec::new();
    assert(issues(errors@) =~= Seq::<PlanIssue>::empty());
    proof {
        nothing_comes_first();
    }
    compare_text(&mut errors, "profile.id", plan.profile_id.as_str(), profile.id.as_str());
    compare(
        &mut errors,
        profile.review_status != ProfileReviewStatus::ObservedForeground,
        "profile.review_status",
        "ObservedForeground".to_owned(),
        profile.review_status.name().to_owned(),
    );
    compare_single(
        &mut errors,
        "profile.identity.serial_prefixes",
        plan.evidence.serial_prefix.as_str(),
        &profile.identity.serial_prefixes,
    );
    compare_single(
        &mut errors,
        "profile.identity.firmware_versions",
        plan.evidence.firmware_contains.as_str(),
        &profile.identity.firmware_versions,
    );
    compare_number(
        &mut errors,
        "profile.display.width",
        plan.evidence.framebuffer.visible_width as u64,
        profile.display.width as u64,
    );
    compare_number(
        &mut errors,
        "profile.display.height",
        plan.evidence.framebuffer.visible_height as u64,
        profile.display.height as u64,
    );
    compare_number(
        &mut errors,
        "profile.display.bits_per_pixel",
        plan.evidence.framebuffer.bits_per_pixel as u64,
        profile.display.bits_per_pixel as u64,
    );
    compare_layout(
        &mut errors,
        plan.evidence.framebuffer.pixel_layout,
        profile.display.pixel_layout,
    );
    compare_rotation(&mut errors, plan.evidence.framebuffer.rotation, profile.display.rotation);
    compare_optional_text(
        &mut errors,
        "profile.display.epdc_update_abi",
        "zelda-88",
        &profile.display.epdc_update_abi,
    );
    compare_flag(
        &mut errors,
        "profile.requirements.multitouch_axes",
        true,
        profile.requirements.multitouch_axes,
    );
    compare_flag(
        &mut errors,
        "profile.requirements.rtc_wakealarm",
        false,
        profile.requirements.rtc_wakealarm,
    );
    compare_flag(
        &mut errors,
        "profile.requirements.suspend_to_mem",
        false,
        profile.requirements.suspend_to_mem,
    );
    compare(
        &mut errors,
        profile.evidence.level != EvidenceLevel::Observed,
        "profile.evidence.level",
        "Observed".to_owned(),
        profile.evidence.level.name().to_owned(),
    );
    errors
}

/// The kinds of data that a probe report must leave out.
pub open spec fn probe_categories() -> Seq<&'static str> {
    seq![
        "full_serial_numbers",
        "network_credentials_and_ssids",
        "tokens_and_account_data",
        "ssh_keys",
        "document_names",
        "process_command_lines",
    ]
}

/// `contains` and a quoted text.
pub open spec fn containing(s: Seq<char>) -> Seq<char> {
    "contains "@ + crate::wording::quoted(s)
}

fn show_containing(s: &str) -> (r: String)
    ensures
        r@ == crate::wording::quoted(containing(s@)),
{
    let mut r: String = "contains ".to_owned();
    r.append(quote(s).as_str());
    quote(r.as_str())
}

/// Which of the first `n` categories a report does not list.
pub open spec fn category_issues(excluded: Seq<Seq<char>>, n: int) -> Seq<PlanIssue>
    decreases n,
{
    if n <= 0 {
        seq![]
    } else {
        category_issues(excluded, n - 1) + differs(
            !excluded.contains(probe_categories()[n - 1]@),
            "report.redaction.excluded_categories"@,
            crate::wording::quoted(containing(probe_categories()[n - 1]@)),
            crate::wording::quoted_list(excluded),
        )
    }
}

fn compare_categories(excluded: &Vec<String>) -> (errors: Vec<
    ActiveDisplayPlanValidationError,
>)
    ensures
        issues(errors@) == category_issues(crate::text::texts(excluded@), 6),
{
    let mut errors: Vec<ActiveDisplayPlanValidationError> = Vec::new();
    let required: [&'static str; 6] = [
        "full_serial_numbers",
        "network_credentials_and_ssids",
        "tokens_and_account_data",
        "ssh_keys",
        "document_names",
        "process_command_lines",
    ];
    assert(required@ =~= probe_categories());
    assert(issues(errors@) =~= category_issues(crate::text::texts(excluded@), 0));
    for i in 0..6usize
        invariant
            required@ == probe_categories(),
            issues(errors@) == category_issues(crate::text::texts(excluded@), i as int),
    {
        compare(
            &mut errors,
            !holds_text(excluded, required[i]),
            "report.redaction.excluded_categories",
            show_containing(required[i]),
            show_list(excluded),
        );
    }
    errors
}

/// Whether some firmware line holds `version`.
pub open spec fn firmware_holds(firmware: Seq<SourcedValue>, version: Seq<char>) -> bool {
    exists|i: int|
        0 <= i < firmware.len() && crate::text::occurs((#[trigger] firmware[i]).value@, version)
}

fn test_firmware(firmware: &Vec<SourcedValue>, version: &str) -> (found: bool)
    ensures
        found == firmware_holds(firmware@, version@),
{
    for i in 0..firmware.len()
        invariant
            forall|j: int|
                0 <= j < i ==> !crate::text::occurs((#[trigger] firmware@[j]).value@, version@),
    {
        let value: Vec<char> = to_chars(firmware[i].value.as_str());
        if test_occurs(value.as_slice(), version) {
            return true;
        }
    }
    false
}

/// The framebuffers of a report at the path of a request.
pub open spec fn framebuffers_at(
    framebuffers: Seq<FramebufferCapability>,
    device: Seq<char>,
) -> Seq<FramebufferCapability> {
    framebuffers.filter(|framebuffer: FramebufferCapability| framebuffer.device@ == device)
}

/// Where the framebuffer at the path of the request differs from the evidence.
pub open spec fn selected_framebuffer_issues(
    plan: ActiveDisplayPlan,
    framebuffers: Seq<FramebufferCapability>,
) -> Seq<PlanIssue> {
    let found = framebuffers_at(framebuffers, plan.request.device@);
    if found.len() != 1 {
        differs(
            true,
            "report.framebuffers.selected_device_count"@,
            crate::wording::quoted("1"@),
            crate::text::decimal(found.len()),
        )
    } else {
        differs(
            !found[0].same_as(plan.evidence.framebuffer),
            "report.framebuffers[/dev/fb0]"@,
            shown_framebuffer(plan.evidence.framebuffer),
            shown_framebuffer(found[0]),
        )
    }
}

fn compare_selected_framebuffer(
    errors: &mut Vec<ActiveDisplayPlanValidationError>,
    plan: &ActiveDisplayPlan,
    framebuffers: &Vec<FramebufferCapability>,
)
    ensures
        issues(final(errors)@) == issues(old(errors)@) + selected_framebuffer_issues(
            *plan,
            framebuffers@,
        ),
{
    let ghost pred = |framebuffer: FramebufferCapability|
        framebuffer.device@ == plan.request.device@;
    let mut first: usize = 0;
    let mut count: usize = 0;
    proof {
        reveal(Seq::filter);
    }
    for i in 0..framebuffers.len()
        invariant
            pred == (|framebuffer: FramebufferCapability|
                framebuffer.device@ == plan.request.device@),
            count <= i,
            count == framebuffers@.take(i as int).filter(pred).len(),
            count > 0 ==> first < i && framebuffers@[first as int] == framebuffers@.take(
                i as int,
            ).filter(pred)[0],
    {
        proof {
            reveal(Seq::filter);
        }
        assert(framebuffers@.take(i + 1).drop_last() =~= framebuffers@.take(i as int));
        if str_eq(framebuffers[i].device.as_str(), plan.request.device.as_str()) {
            if count == 0 {
                first = i;
            }
            count = count + 1;
        }
    }
    assert(framebuffers@.take(framebuffers@.len() as int) =~= framebuffers@);
    if count != 1 {
        compare(
            errors,
            true,
            "report.framebuffers.selected_device_count",
            quote("1"),
            show_number(count as u64),
        );
    } else {
        compare(
            errors,
            !framebuffers[first].test_same(&plan.evidence.framebuffer),
            "report.framebuffers[/dev/fb0]",
            show_framebuffer(&plan.evidence.framebuffer),
            show_framebuffer(&framebuffers[first]),
        );
    }
}

/// Where a report differs from the evidence of a plan.
pub open spec fn report_issues(plan: ActiveDisplayPlan, passive: ProbeReport) -> Seq<PlanIssue> {
    text_issue("report.probe_version"@, plan.evidence.probe_version@, passive.probe_version@)
        + text_issue("report.redaction.policy"@, REDACTION_POLICY@, passive.redaction.policy@)
        + category_issues(crate::text::texts(passive.redaction.excluded_categories@), 6)
        + optional_text_issue(
            "report.identity.serial_prefix"@,
            plan.evidence.serial_prefix@,
            crate::text::optional_text(passive.identity.serial_prefix),
        )
        + differs(
            !firmware_holds(passive.system.firmware@, plan.evidence.firmware_contains@),
            "report.system.firmware"@,
            crate::wording::quoted(containing(plan.evidence.firmware_contains@)),
            crate::wording::quoted(shown_sourced_list(passive.system.firmware@)),
        )
        + optional_text_issue(
            "report.system.kernel_release"@,
            plan.evidence.kernel_release@,
            crate::text::optional_text(passive.system.kernel_release),
        )
        + optional_text_issue(
            "report.system.machine"@,
            plan.evidence.machine@,
            crate::text::optional_text(passive.system.machine),
        )
        + event_abi_issue(
            "report.system.input_event_abi"@,
            plan.evidence.input_event_abi,
            passive.system.input_event_abi,
        )
        + selected_framebuffer_issues(plan, passive.framebuffers@)
        + when(
            passive.warnings@.len() > 0,
            PlanIssue::ProbeWarningsPresent { count: passive.warnings@.len() },
        )
}

#[verifier::rlimit(30)]
fn compare_report(plan: &ActiveDisplayPlan, passive: &ProbeReport) -> (errors: Vec<
    ActiveDisplayPlanValidationError,
>)
    ensures
        issues(errors@) == report_issues(*plan, *passive),
{
    let mut errors: Vec<ActiveDisplayPlanValidationError> = Vec::new();
    assert(issues(errors@) =~= Seq::<PlanIssue>::empty());
    proof {
        nothing_comes_first();
    }
    compare_text(
        &mut errors,
        "report.probe_version",
        plan.evidence.probe_version.as_str(),
        passive.probe_version.as_str(),
    );
    compare_text(
        &mut errors,
        "report.redaction.policy",
        REDACTION_POLICY,
        passive.redaction.policy.as_str(),
    );
    absorb(&mut errors, compare_categories(&passive.redaction.excluded_categories));
    compare_optional_text(
        &mut errors,
        "report.identity.serial_prefix",
        plan.evidence.serial_prefix.as_str(),
        &passive.identity.serial_prefix,
    );
    compare(
        &mut errors,
        !test_firmware(&passive.system.firmware, plan.evidence.firmware_contains.as_str()),
        "report.system.firmware",
        show_containing(plan.evidence.firmware_contains.as_str()),
        quote(show_sourced_list(&passive.system.firmware).as_str()),
    );
    compare_optional_text(
        &mut errors,
        "report.system.kernel_release",
        plan.evidence.kernel_release.as_str(),
        &passive.system.kernel_release,
    );
    compare_optional_text(
        &mut errors,
        "report.system.machine",
        plan.evidence.machine.as_str(),
        &passive.system.machine,
    );
    compare_event_abi(
        &mut errors,
        "report.system.input_event_abi",
        plan.evidence.input_event_abi,
        passive.system.input_event_abi,
    );
    compare_selected_framebuffer(&mut errors, plan, &passive.framebuffers);
    report(
        &mut errors,
        passive.warnings.len() > 0,
        ActiveDisplayPlanValidationError::ProbeWarningsPresent { count: passive.warnings.len() },
    );
    errors
}

/// Every mismatch of a plan with a profile and a report, in the order in which
/// they are reported.
pub open spec fn all_issues(
    plan: ActiveDisplayPlan,
    profile: DeviceProfile,
    passive: ProbeReport,
) -> Seq<PlanIssue> {
    definition_issues(plan) + when(
        profile.violations().len() > 0,
        PlanIssue::InvalidProfile { errors: profile.violations() },
    ) + when(
        passive.violations().len() > 0,
        PlanIssue::InvalidReport { errors: passive.violations() },
    ) + profile_issues(plan, profile) + when(
        profile.outcome(passive) != ProfileEvaluationStatus::Match,
        PlanIssue::ProfileEvaluation {
            missing: profile.missing_from(passive),
            mismatches: profile.mismatches_with(passive),
        },
    ) + report_issues(plan, passive)
}

impl ActiveDisplayPlan {
    /// Accepts or refuses a serialized plan by its size.
    pub fn check_size(bytes: usize) -> (result: Result<(), ActiveDisplayPlanError>)
        ensures
            match result {
                Ok(()) => bytes <= MAX_ACTIVE_DISPLAY_PLAN_JSON_BYTES,
                Err(error) => bytes > MAX_ACTIVE_DISPLAY_PLAN_JSON_BYTES && error
                    == (ActiveDisplayPlanError::InputTooLarge {
                    bytes,
                    maximum: MAX_ACTIVE_DISPLAY_PLAN_JSON_BYTES,
                }),
            },
    {
        if bytes > MAX_ACTIVE_DISPLAY_PLAN_JSON_BYTES {
            return Err(
                ActiveDisplayPlanError::InputTooLarge {
                    bytes,
                    maximum: MAX_ACTIVE_DISPLAY_PLAN_JSON_BYTES,
                },
            );
        }
        Ok(())
    }

    /// Takes the outcome of reading a JSON document, and accepts the plan that
    /// is exactly the reviewed one.
    pub fn from_parsed(parsed: Result<Self, String>) -> (result: Result<
        Self,
        ActiveDisplayPlanError,
    >)
        ensures
            match (parsed, result) {
                (Err(error), Err(ActiveDisplayPlanError::Json(reported))) => reported@ == error@,
                (Ok(plan), Err(ActiveDisplayPlanError::Validation(errors))) => {
                    &&& errors@.len() > 0
                    &&& issues(errors@) == definition_issues(plan)
                },
                (Ok(plan), Ok(accepted)) => {
                    &&& definition_issues(plan).len() == 0
                    &&& accepted == plan
                },
                _ => false,
            },
    {
        match parsed {
            Ok(plan) => match plan.validate_definition() {
                Ok(()) => Ok(plan),
                Err(errors) => Err(ActiveDisplayPlanError::Validation(errors)),
            },
            Err(error) => Err(ActiveDisplayPlanError::Json(error)),
        }
    }

    /// Validates every immutable field of the reviewed plan.
    ///
    /// Every field that differs is reported.
    pub fn validate_definition(&self) -> (result: Result<
        (),
        Vec<ActiveDisplayPlanValidationError>,
    >)
        ensures
            match result {
                Ok(()) => definition_issues(*self).len() == 0,
                Err(errors) => errors@.len() > 0 && issues(errors@) == definition_issues(*self),
            },
    {
        finish(compare_definition(self))
    }

    /// Checks this exact plan against a reviewed profile and passive report.
    ///
    /// Live stock-health, connection, battery, update, mount, and
    /// operator-presence checks are not made here. Every mismatch is reported.
    #[verifier::rlimit(30)]
    pub fn validate_against(&self, profile: &DeviceProfile, report: &ProbeReport) -> (result:
        Result<(), Vec<ActiveDisplayPlanValidationError>>)
        ensures
            match result {
                Ok(()) => all_issues(*self, *profile, *report).len() == 0,
                Err(errors) => {
                    &&& errors@.len() > 0
                    &&& issues(errors@) == all_issues(*self, *profile, *report)
                },
            },
    {
        let mut errors: Vec<ActiveDisplayPlanValidationError> = compare_definition(self);
        let ghost start = issues(errors@);
        match profile.validate() {
            Err(profile_errors) => {
                assert(crate::text::texts(profile_errors@).len() == profile_errors@.len());
                self::report(
                    &mut errors,
                    true,
                    ActiveDisplayPlanValidationError::InvalidProfile(profile_errors),
                );
            },
            Ok(()) => {},
        }
        assert(issues(errors@) =~= start + when(
            profile.violations().len() > 0,
            PlanIssue::InvalidProfile { errors: profile.violations() },
        ));
        let ghost start = issues(errors@);
        match report.validate() {
            Err(report_errors) => {
                assert(crate::text::texts(report_errors@).len() == report_errors@.len());
                self::report(
                    &mut errors,
                    true,
                    ActiveDisplayPlanValidationError::InvalidReport(report_errors),
                );
            },
            Ok(()) => {},
        }
        assert(issues(errors@) =~= start + when(
            report.violations().len() > 0,
            PlanIssue::InvalidReport { errors: report.violations() },
        ));
        absorb(&mut errors, compare_profile(self, profile));
        let evaluation = profile.evaluate(report);
        let wrong: bool = evaluation.status != ProfileEvaluationStatus::Match;
        self::report(
            &mut errors,
            wrong,
            ActiveDisplayPlanValidationError::ProfileEvaluation {
                missing: evaluation.missing,
                mismatches: evaluation.mismatches,
            },
        );
        absorb(&mut errors, compare_report(self, report));
        finish(errors)
    }
}

fn finish(errors: Vec<ActiveDisplayPlanValidationError>) -> (result: Result<
    (),
    Vec<ActiveDisplayPlanValidationError>,
>)
    ensures
        match result {
            Ok(()) => issues(errors@).len() == 0,
            Err(reported) => reported@.len() > 0 && reported@ == errors@,
        },
{
    assert(issues(errors@).len() == errors@.len());
    if errors.is_empty() {
        Ok(())
    } else {
        Err(errors)
    }
}

/// A plan that passes against a profile and a report is exactly the reviewed
/// one, and the two match each other.
pub proof fn law_passing_plans_are_reviewed_and_match(
    plan: ActiveDisplayPlan,
    profile: DeviceProfile,
    passive: ProbeReport,
)
    requires
        all_issues(plan, profile, passive).len() == 0,
    ensures
        definition_issues(plan).len() == 0,
        profile.violations().len() == 0,
        passive.violations().len() == 0,
        profile.outcome(passive) == ProfileEvaluationStatus::Match,
        passive.warnings@.len() == 0,
{
    assert(report_issues(plan, passive).len() == 0);
}

/// A report with warnings never passes.
pub proof fn law_warnings_never_pass(
    plan: ActiveDisplayPlan,
    profile: DeviceProfile,
    passive: ProbeReport,
)
    requires
        passive.warnings@.len() > 0,
    ensures
        all_issues(plan, profile, passive).len() > 0,
{
    assert(report_issues(plan, passive).len() > 0);
}

// ---------------------------------------------------------------------------
// What a plan must be
// ---------------------------------------------------------------------------
/// Values are compared as wholes: an issue is raised exactly where two differ,
/// and it names the field, what was expected and what was observed.
pub proof fn law_issues_name_what_differs(
    field: Seq<char>,
    expected: int,
    observed: int,
    wanted: Seq<char>,
    seen: Seq<char>,
    answer: Option<Seq<char>>,
)
    ensures
        expected == observed <==> number_issue(field, expected, observed).len() == 0,
        expected != observed ==> number_issue(field, expected, observed) == seq![
            PlanIssue::Mismatch {
                field,
                expected: crate::text::signed_decimal(expected),
                observed: crate::text::signed_decimal(observed),
            },
        ],
        wanted == seen <==> text_issue(field, wanted, seen).len() == 0,
        wanted != seen ==> text_issue(field, wanted, seen) == seq![
            PlanIssue::Mismatch {
                field,
                expected: crate::wording::quoted(wanted),
                observed: crate::wording::quoted(seen),
            },
        ],
        answer == Some(wanted) <==> optional_text_issue(field, wanted, answer).len() == 0,
        answer is None ==> optional_text_issue(field, wanted, answer) == seq![
            PlanIssue::Mismatch {
                field,
                expected: "Some("@ + crate::wording::quoted(wanted) + ")"@,
                observed: "None"@,
            },
        ],
        single_issue(field, wanted, seq![wanted]).len() == 0,
        single_issue(field, wanted, Seq::<Seq<char>>::empty()).len() == 1,
        single_issue(field, wanted, seq![wanted, seen]).len() == 1,
        wanted != seen ==> single_issue(field, wanted, seq![seen]).len() == 1,
        shown_flag(true) == "true"@ && shown_flag(false) == "false"@,
        flag_issue(field, true, true).len() == 0 && flag_issue(field, false, false).len() == 0,
        flag_issue(field, true, false).len() == 1 && flag_issue(field, false, true).len() == 1,
{
    assert(Seq::<Seq<char>>::empty().len() == 0 && seq![wanted].len() == 1);
    assert(seq![wanted, seen].len() == 2);
    if wanted != seen {
        assert(seq![seen][0] != seq![wanted][0]);
    }
}

/// A plan is for one framebuffer: a gray one of 1264 by 1680 pixels in lines of
/// 1280 bytes, not turned.
pub proof fn law_plans_are_for_one_framebuffer(framebuffer: FramebufferCapability)
    ensures
        framebuffer_issues(framebuffer).len() == 0 <==> {
            let gray = |field: PixelBitfield, length: u32|
                field.offset == 0 && field.length == length && field.msb_right == 0;
            &&& framebuffer.device@ == "/dev/fb0"@
            &&& framebuffer.driver_id@ == "mxc_epdc_fb"@
            &&& framebuffer.visible_width == 1264 && framebuffer.visible_height == 1680
            &&& framebuffer.virtual_width == 1280 && framebuffer.virtual_height == 3584
            &&& framebuffer.x_offset == 0 && framebuffer.y_offset == 0
            &&& framebuffer.line_length == 1280 && framebuffer.memory_length == 4_587_520
            &&& framebuffer.bits_per_pixel == 8 && framebuffer.grayscale == 1
            &&& framebuffer.pixel_layout == PixelLayout::Grayscale8
            &&& framebuffer.rotation == 0
            &&& gray(framebuffer.red, 8) && gray(framebuffer.green, 8) && gray(
                framebuffer.blue,
                8,
            ) && gray(framebuffer.transparency, 0)
        },
{
}

/// A plan asks once, without waiting, for one region of 64 by 64 pixels, in the
/// widest update layout and with nothing else set.
pub proof fn law_plans_make_one_request(request: ActiveDisplayRequestPlan)
    ensures
        request_issues(request).len() == 0 <==> {
            &&& request.device@ == "/dev/fb0"@
            &&& request.request_ioctl@ == 0x4058_462e
            &&& request.region.x == 600 && request.region.y == 808
            &&& request.region.width@ == 64 && request.region.height@ == 64
            &&& request.abi.kind == DisplayUpdateAbiKind::Zelda88
            &&& request.abi.request_size@ == 88
            &&& request.waveform_mode == 257 && request.update_mode == 0
            &&& request.marker@ == 0x464b_0001
            &&& request.temperature == 4096
            &&& request.flags == 0 && request.dither_mode == 0 && request.quant_bit == 0
            &&& request.alternate_buffer_zeroed
            &&& request.histogram_modes@[0] == 0 && request.histogram_modes@[1] == 0
            &&& request.timestamps@[0] == 0 && request.timestamps@[1] == 0
            &&& request.completion_wait_millis is None
            &&& request.maximum_attempts@ == 1
        },
{
    assert([0u32, 0u32]@ =~= seq![0u32, 0u32]);
    let modes = request.histogram_modes@;
    let times = request.timestamps@;
    if modes[0] == 0 && modes[1] == 0 {
        assert(modes =~= seq![0u32, 0u32]);
    }
    if times[0] == 0 && times[1] == 0 {
        assert(times =~= seq![0u32, 0u32]);
    }
}

/// There is one plan: its definition is fine exactly when it is the reference
/// plan, for the reference device.
pub proof fn law_there_is_one_plan(plan: ActiveDisplayPlan)
    ensures
        definition_issues(plan).len() == 0 <==> {
            let abi = plan.evidence.input_event_abi;
            &&& plan.schema_version == 1
            &&& plan.plan_id@ == "reference-portrait-display-mechanism-v1"@
            &&& plan.single_use
            &&& plan.profile_id@ == "reference-portrait"@
            &&& plan.evidence.probe_version@ == "0.0.1"@
            &&& plan.evidence.serial_prefix@ == "TEST"@
            &&& plan.evidence.firmware_contains@ == "0.0.1-test"@
            &&& plan.evidence.kernel_release@ == "reference-kernel-portrait"@
            &&& plan.evidence.machine@ == "armv7l"@
            &&& abi.pointer_width_bits == 32 && abi.libc_timeval_bytes == 8
                && abi.libc_input_event_bytes == 16
            &&& framebuffer_issues(plan.evidence.framebuffer).len() == 0
            &&& plan.output_parent@ == "/mnt/us/ferrink/evidence"@
            &&& request_issues(plan.request).len() == 0
        },
{
}

/// A profile agrees with a plan exactly when it is the one that the plan names,
/// observed but not more, with the plan's identity and display and no
/// requirement but touch.
pub proof fn law_profiles_agree_with_the_plan(plan: ActiveDisplayPlan, profile: DeviceProfile)
    ensures
        profile_issues(plan, profile).len() == 0 <==> {
            let prefixes = crate::text::texts(profile.identity.serial_prefixes@);
            let versions = crate::text::texts(profile.identity.firmware_versions@);
            let framebuffer = plan.evidence.framebuffer;
            &&& profile.id@ == plan.profile_id@
            &&& profile.review_status == ProfileReviewStatus::ObservedForeground
            &&& prefixes.len() == 1 && prefixes[0] == plan.evidence.serial_prefix@
            &&& versions.len() == 1 && versions[0] == plan.evidence.firmware_contains@
            &&& profile.display.width == framebuffer.visible_width
            &&& profile.display.height == framebuffer.visible_height
            &&& profile.display.bits_per_pixel == framebuffer.bits_per_pixel
            &&& profile.display.pixel_layout == Some(framebuffer.pixel_layout)
            &&& profile.display.rotation == Some(framebuffer.rotation)
            &&& crate::text::optional_text(profile.display.epdc_update_abi) == Some("zelda-88"@)
            &&& profile.requirements.multitouch_axes
            &&& !profile.requirements.rtc_wakealarm && !profile.requirements.suspend_to_mem
            &&& profile.evidence.level == EvidenceLevel::Observed
        },
{
    let prefixes = crate::text::texts(profile.identity.serial_prefixes@);
    let versions = crate::text::texts(profile.identity.firmware_versions@);
    if prefixes.len() == 1 {
        assert(prefixes =~= seq![prefixes[0]]);
    }
    if versions.len() == 1 {
        assert(versions =~= seq![versions[0]]);
    }
}

proof fn all_categories_are_excluded(excluded: Seq<Seq<char>>)
    ensures
        category_issues(excluded, 6).len() == 0 <==> {
            &&& excluded.contains("full_serial_numbers"@)
            &&& excluded.contains("network_credentials_and_ssids"@)
            &&& excluded.contains("tokens_and_account_data"@)
            &&& excluded.contains("ssh_keys"@)
            &&& excluded.contains("document_names"@)
            &&& excluded.contains("process_command_lines"@)
        },
{
    reveal_with_fuel(category_issues, 7);
}

/// A report agrees with a plan exactly when it leaves out everything private, has
/// the plan's identity and system, one framebuffer at the plan's device that is
/// the plan's, and no warning.
pub proof fn law_reports_agree_with_the_plan(plan: ActiveDisplayPlan, passive: ProbeReport)
    ensures
        report_issues(plan, passive).len() == 0 <==> {
            let excluded = crate::text::texts(passive.redaction.excluded_categories@);
            let found = passive.framebuffers@.filter(
                |framebuffer: FramebufferCapability|
                    framebuffer.device@ == plan.request.device@,
            );
            &&& passive.probe_version@ == plan.evidence.probe_version@
            &&& passive.redaction.policy@ == REDACTION_POLICY@
            &&& excluded.contains("full_serial_numbers"@)
            &&& excluded.contains("network_credentials_and_ssids"@)
            &&& excluded.contains("tokens_and_account_data"@)
            &&& excluded.contains("ssh_keys"@)
            &&& excluded.contains("document_names"@)
            &&& excluded.contains("process_command_lines"@)
            &&& crate::text::optional_text(passive.identity.serial_prefix) == Some(
                plan.evidence.serial_prefix@,
            )
            &&& exists|i: int|
                0 <= i < passive.system.firmware@.len() && crate::text::occurs(
                    (#[trigger] passive.system.firmware@[i]).value@,
                    plan.evidence.firmware_contains@,
                )
            &&& crate::text::optional_text(passive.system.kernel_release) == Some(
                plan.evidence.kernel_release@,
            )
            &&& crate::text::optional_text(passive.system.machine) == Some(
                plan.evidence.machine@,
            )
            &&& passive.system.input_event_abi == plan.evidence.input_event_abi
            &&& found.len() == 1 && found[0].same_as(plan.evidence.framebuffer)
            &&& passive.warnings@.len() == 0
        },
{
    all_categories_are_excluded(crate::text::texts(passive.redaction.excluded_categories@));
}

/// A plan passes exactly when it is the reference plan, profile and report are
/// valid and agree with it, and the report matches the profile.
pub proof fn law_plans_pass_when_everything_agrees(
    plan: ActiveDisplayPlan,
    profile: DeviceProfile,
    passive: ProbeReport,
)
    ensures
        all_issues(plan, profile, passive).len() == 0 <==> {
            &&& definition_issues(plan).len() == 0
            &&& profile.violations().len() == 0
            &&& passive.violations().len() == 0
            &&& profile_issues(plan, profile).len() == 0
            &&& profile.outcome(passive) == ProfileEvaluationStatus::Match
            &&& report_issues(plan, passive).len() == 0
        },
{
}

/// An issue of the framebuffer is that of one of its fields, under its name.
#[verifier::spinoff_prover]
#[verifier::rlimit(40)]
pub proof fn law_framebuffer_issues_name_their_fields(
    framebuffer: FramebufferCapability,
    issue: PlanIssue,
)
    ensures
        framebuffer_issues(framebuffer).contains(issue) <==> {
            ||| text_issue(
                "evidence.framebuffer.device"@,
                "/dev/fb0"@,
                framebuffer.device@,
            ).contains(issue)
            ||| text_issue(
                "evidence.framebuffer.driver_id"@,
                "mxc_epdc_fb"@,
                framebuffer.driver_id@,
            ).contains(issue)
            ||| number_issue(
                "evidence.framebuffer.visible_width"@,
                1264,
                framebuffer.visible_width as int,
            ).contains(issue)
            ||| number_issue(
                "evidence.framebuffer.visible_height"@,
                1680,
                framebuffer.visible_height as int,
            ).contains(issue)
            ||| number_issue(
                "evidence.framebuffer.virtual_width"@,
                1280,
                framebuffer.virtual_width as int,
            ).contains(issue)
            ||| number_issue(
                "evidence.framebuffer.virtual_height"@,
                3584,
                framebuffer.virtual_height as int,
            ).contains(issue)
            ||| number_issue(
                "evidence.framebuffer.x_offset"@,
                0,
                framebuffer.x_offset as int,
            ).contains(issue)
            ||| number_issue(
                "evidence.framebuffer.y_offset"@,
                0,
                framebuffer.y_offset as int,
            ).contains(issue)
            ||| number_issue(
                "evidence.framebuffer.line_length"@,
                1280,
                framebuffer.line_length as int,
            ).contains(issue)
            ||| number_issue(
                "evidence.framebuffer.memory_length"@,
                4_587_520,
                framebuffer.memory_length as int,
            ).contains(issue)
            ||| number_issue(
                "evidence.framebuffer.bits_per_pixel"@,
                8,
                framebuffer.bits_per_pixel as int,
            ).contains(issue)
            ||| number_issue(
                "evidence.framebuffer.grayscale"@,
                1,
                framebuffer.grayscale as int,
            ).contains(issue)
            ||| differs(
                framebuffer.pixel_layout != PixelLayout::Grayscale8,
                "evidence.framebuffer.pixel_layout"@,
                "Grayscale8"@,
                framebuffer.pixel_layout.spec_name(),
            ).contains(issue)
            ||| number_issue(
                "evidence.framebuffer.rotation"@,
                0,
                framebuffer.rotation as int,
            ).contains(issue)
            ||| bitfield_issue(
                "evidence.framebuffer.red"@,
                gray_bits(),
                framebuffer.red,
            ).contains(issue)
            ||| bitfield_issue(
                "evidence.framebuffer.green"@,
                gray_bits(),
                framebuffer.green,
            ).contains(issue)
            ||| bitfield_issue(
                "evidence.framebuffer.blue"@,
                gray_bits(),
                framebuffer.blue,
            ).contains(issue)
            ||| bitfield_issue(
                "evidence.framebuffer.transparency"@,
                no_bits(),
                framebuffer.transparency,
            ).contains(issue)
        },
{
    let part_1 = text_issue("evidence.framebuffer.device"@, "/dev/fb0"@, framebuffer.device@);
    let part_2 = text_issue(
        "evidence.framebuffer.driver_id"@,
        "mxc_epdc_fb"@,
        framebuffer.driver_id@,
    );
    let part_3 = number_issue(
        "evidence.framebuffer.visible_width"@,
        1264,
        framebuffer.visible_width as int,
    );
    let part_4 = number_issue(
        "evidence.framebuffer.visible_height"@,
        1680,
        framebuffer.visible_height as int,
    );
    let part_5 = number_issue(
        "evidence.framebuffer.virtual_width"@,
        1280,
        framebuffer.virtual_width as int,
    );
    let part_6 = number_issue(
        "evidence.framebuffer.virtual_height"@,
        3584,
        framebuffer.virtual_height as int,
    );
    let part_7 = number_issue("evidence.framebuffer.x_offset"@, 0, framebuffer.x_offset as int);
    let part_8 = number_issue("evidence.framebuffer.y_offset"@, 0, framebuffer.y_offset as int);
    let part_9 = number_issue(
        "evidence.framebuffer.line_length"@,
        1280,
        framebuffer.line_length as int,
    );
    let part_10 = number_issue(
        "evidence.framebuffer.memory_length"@,
        4_587_520,
        framebuffer.memory_length as int,
    );
    let part_11 = number_issue(
        "evidence.framebuffer.bits_per_pixel"@,
        8,
        framebuffer.bits_per_pixel as int,
    );
    let part_12 = number_issue("evidence.framebuffer.grayscale"@, 1, framebuffer.grayscale as int);
    let part_13 = differs(
        framebuffer.pixel_layout != PixelLayout::Grayscale8,
        "evidence.framebuffer.pixel_layout"@,
        "Grayscale8"@,
        framebuffer.pixel_layout.spec_name(),
    );
    let part_14 = number_issue("evidence.framebuffer.rotation"@, 0, framebuffer.rotation as int);
    let part_15 = bitfield_issue("evidence.framebuffer.red"@, gray_bits(), framebuffer.red);
    let part_16 = bitfield_issue("evidence.framebuffer.green"@, gray_bits(), framebuffer.green);
    let part_17 = bitfield_issue("evidence.framebuffer.blue"@, gray_bits(), framebuffer.blue);
    let part_18 = bitfield_issue(
        "evidence.framebuffer.transparency"@,
        no_bits(),
        framebuffer.transparency,
    );
    let upto_2 = part_1 + part_2;
    crate::text::either_list_holds(part_1, part_2);
    let upto_3 = upto_2 + part_3;
    crate::text::either_list_holds(upto_2, part_3);
    let upto_4 = upto_3 + part_4;
    crate::text::either_list_holds(upto_3, part_4);
    let upto_5 = upto_4 + part_5;
    crate::text::either_list_holds(upto_4, part_5);
    let upto_6 = upto_5 + part_6;
    crate::text::either_list_holds(upto_5, part_6);
    let upto_7 = upto_6 + part_7;
    crate::text::either_list_holds(upto_6, part_7);
    let upto_8 = upto_7 + part_8;
    crate::text::either_list_holds(upto_7, part_8);
    let upto_9 = upto_8 + part_9;
    crate::text::either_list_holds(upto_8, part_9);
    let upto_10 = upto_9 + part_10;
    crate::text::either_list_holds(upto_9, part_10);
    let upto_11 = upto_10 + part_11;
    crate::text::either_list_holds(upto_10, part_11);
    let upto_12 = upto_11 + part_12;
    crate::text::either_list_holds(upto_11, part_12);
    let upto_13 = upto_12 + part_13;
    crate::text::either_list_holds(upto_12, part_13);
    let upto_14 = upto_13 + part_14;
    crate::text::either_list_holds(upto_13, part_14);
    let upto_15 = upto_14 + part_15;
    crate::text::either_list_holds(upto_14, part_15);
    let upto_16 = upto_15 + part_16;
    crate::text::either_list_holds(upto_15, part_16);
    let upto_17 = upto_16 + part_17;
    crate::text::either_list_holds(upto_16, part_17);
    let upto_18 = upto_17 + part_18;
    crate::text::either_list_holds(upto_17, part_18);
    assert(framebuffer_issues(framebuffer) == upto_18);
}

/// An issue of the request is that of one of its fields, under its name.
#[verifier::spinoff_prover]
#[verifier::rlimit(40)]
pub proof fn law_request_issues_name_their_fields(
    request: ActiveDisplayRequestPlan,
    issue: PlanIssue,
)
    ensures
        request_issues(request).contains(issue) <==> {
            ||| text_issue("request.device"@, "/dev/fb0"@, request.device@).contains(issue)
            ||| number_issue(
                "request.request_ioctl"@,
                0x4058_462e,
                request.request_ioctl@ as int,
            ).contains(issue)
            ||| number_issue("request.region.x"@, 600, request.region.x as int).contains(issue)
            ||| number_issue("request.region.y"@, 808, request.region.y as int).contains(issue)
            ||| number_issue(
                "request.region.width"@,
                64,
                request.region.width@ as int,
            ).contains(issue)
            ||| number_issue(
                "request.region.height"@,
                64,
                request.region.height@ as int,
            ).contains(issue)
            ||| differs(
                request.abi.kind != DisplayUpdateAbiKind::Zelda88,
                "request.abi.kind"@,
                "Zelda88"@,
                request.abi.kind.spec_name(),
            ).contains(issue)
            ||| number_issue(
                "request.abi.request_size"@,
                88,
                request.abi.request_size@ as int,
            ).contains(issue)
            ||| number_issue(
                "request.waveform_mode"@,
                257,
                request.waveform_mode as int,
            ).contains(issue)
            ||| number_issue(
                "request.update_mode"@,
                0,
                request.update_mode as int,
            ).contains(issue)
            ||| number_issue("request.marker"@, 0x464b_0001, request.marker@ as int).contains(issue)
            ||| number_issue(
                "request.temperature"@,
                0x1000,
                request.temperature as int,
            ).contains(issue)
            ||| number_issue("request.flags"@, 0, request.flags as int).contains(issue)
            ||| number_issue("request.dither_mode"@, 0, request.dither_mode as int).contains(issue)
            ||| number_issue("request.quant_bit"@, 0, request.quant_bit as int).contains(issue)
            ||| flag_issue(
                "request.alternate_buffer_zeroed"@,
                true,
                request.alternate_buffer_zeroed,
            ).contains(issue)
            ||| pair_issue(
                "request.histogram_modes"@,
                [0u32, 0u32],
                request.histogram_modes,
            ).contains(issue)
            ||| pair_issue("request.timestamps"@, [0u32, 0u32], request.timestamps).contains(issue)
            ||| wait_issue(request.completion_wait_millis).contains(issue)
            ||| number_issue(
                "request.maximum_attempts"@,
                1,
                request.maximum_attempts@ as int,
            ).contains(issue)
        },
{
    let part_1 = text_issue("request.device"@, "/dev/fb0"@, request.device@);
    let part_2 = number_issue(
        "request.request_ioctl"@,
        REQUIRED_REQUEST_IOCTL as int,
        request.request_ioctl@ as int,
    );
    let part_3 = number_issue("request.region.x"@, 600, request.region.x as int);
    let part_4 = number_issue("request.region.y"@, 808, request.region.y as int);
    let part_5 = number_issue("request.region.width"@, 64, request.region.width@ as int);
    let part_6 = number_issue("request.region.height"@, 64, request.region.height@ as int);
    let part_7 = differs(
        request.abi.kind != DisplayUpdateAbiKind::Zelda88,
        "request.abi.kind"@,
        "Zelda88"@,
        request.abi.kind.spec_name(),
    );
    let part_8 = number_issue("request.abi.request_size"@, 88, request.abi.request_size@ as int);
    let part_9 = number_issue(
        "request.waveform_mode"@,
        REQUIRED_WAVEFORM_MODE as int,
        request.waveform_mode as int,
    );
    let part_10 = number_issue(
        "request.update_mode"@,
        REQUIRED_UPDATE_MODE as int,
        request.update_mode as int,
    );
    let part_11 = number_issue("request.marker"@, REQUIRED_MARKER as int, request.marker@ as int);
    let part_12 = number_issue(
        "request.temperature"@,
        REQUIRED_TEMPERATURE as int,
        request.temperature as int,
    );
    let part_13 = number_issue("request.flags"@, 0, request.flags as int);
    let part_14 = number_issue("request.dither_mode"@, 0, request.dither_mode as int);
    let part_15 = number_issue("request.quant_bit"@, 0, request.quant_bit as int);
    let part_16 = flag_issue(
        "request.alternate_buffer_zeroed"@,
        true,
        request.alternate_buffer_zeroed,
    );
    let part_17 = pair_issue("request.histogram_modes"@, [0u32, 0u32], request.histogram_modes);
    let part_18 = pair_issue("request.timestamps"@, [0u32, 0u32], request.timestamps);
    let part_19 = wait_issue(request.completion_wait_millis);
    let part_20 = number_issue("request.maximum_attempts"@, 1, request.maximum_attempts@ as int);
    let upto_2 = part_1 + part_2;
    crate::text::either_list_holds(part_1, part_2);
    let upto_3 = upto_2 + part_3;
    crate::text::either_list_holds(upto_2, part_3);
    let upto_4 = upto_3 + part_4;
    crate::text::either_list_holds(upto_3, part_4);
    let upto_5 = upto_4 + part_5;
    crate::text::either_list_holds(upto_4, part_5);
    let upto_6 = upto_5 + part_6;
    crate::text::either_list_holds(upto_5, part_6);
    let upto_7 = upto_6 + part_7;
    crate::text::either_list_holds(upto_6, part_7);
    let upto_8 = upto_7 + part_8;
    crate::text::either_list_holds(upto_7, part_8);
    let upto_9 = upto_8 + part_9;
    crate::text::either_list_holds(upto_8, part_9);
    let upto_10 = upto_9 + part_10;
    crate::text::either_list_holds(upto_9, part_10);
    let upto_11 = upto_10 + part_11;
    crate::text::either_list_holds(upto_10, part_11);
    let upto_12 = upto_11 + part_12;
    crate::text::either_list_holds(upto_11, part_12);
    let upto_13 = upto_12 + part_13;
    crate::text::either_list_holds(upto_12, part_13);
    let upto_14 = upto_13 + part_14;
    crate::text::either_list_holds(upto_13, part_14);
    let upto_15 = upto_14 + part_15;
    crate::text::either_list_holds(upto_14, part_15);
    let upto_16 = upto_15 + part_16;
    crate::text::either_list_holds(upto_15, part_16);
    let upto_17 = upto_16 + part_17;
    crate::text::either_list_holds(upto_16, part_17);
    let upto_18 = upto_17 + part_18;
    crate::text::either_list_holds(upto_17, part_18);
    let upto_19 = upto_18 + part_19;
    crate::text::either_list_holds(upto_18, part_19);
    let upto_20 = upto_19 + part_20;
    crate::text::either_list_holds(upto_19, part_20);
    assert(request_issues(request) == upto_20);
}

/// An issue of the definition is that of one of its fields, under its name.
#[verifier::spinoff_prover]
#[verifier::rlimit(40)]
pub proof fn law_definition_issues_name_their_fields(
    plan: ActiveDisplayPlan,
    issue: PlanIssue,
)
    ensures
        definition_issues(plan).contains(issue) <==> {
            ||| number_issue(
                "schema_version"@,
                1,
                plan.schema_version as int,
            ).contains(issue)
            ||| text_issue(
                "plan_id"@,
                "reference-portrait-display-mechanism-v1"@,
                plan.plan_id@,
            ).contains(issue)
            ||| flag_issue("single_use"@, true, plan.single_use).contains(issue)
            ||| text_issue(
                "profile_id"@,
                "reference-portrait"@,
                plan.profile_id@,
            ).contains(issue)
            ||| text_issue(
                "evidence.probe_version"@,
                "0.0.1"@,
                plan.evidence.probe_version@,
            ).contains(issue)
            ||| text_issue(
                "evidence.serial_prefix"@,
                "TEST"@,
                plan.evidence.serial_prefix@,
            ).contains(issue)
            ||| text_issue(
                "evidence.firmware_contains"@,
                "0.0.1-test"@,
                plan.evidence.firmware_contains@,
            ).contains(issue)
            ||| text_issue(
                "evidence.kernel_release"@,
                "reference-kernel-portrait"@,
                plan.evidence.kernel_release@,
            ).contains(issue)
            ||| text_issue("evidence.machine"@, "armv7l"@, plan.evidence.machine@).contains(issue)
            ||| event_abi_issue(
                "evidence.input_event_abi"@,
                narrow_event_abi(),
                plan.evidence.input_event_abi,
            ).contains(issue)
            ||| framebuffer_issues(plan.evidence.framebuffer).contains(issue)
            ||| text_issue(
                "output_parent"@,
                "/mnt/us/ferrink/evidence"@,
                plan.output_parent@,
            ).contains(issue)
            ||| request_issues(plan.request).contains(issue)
        },
{
    let part_1 = number_issue(
        "schema_version"@,
        ACTIVE_DISPLAY_PLAN_SCHEMA_VERSION as int,
        plan.schema_version as int,
    );
    let part_2 = text_issue(
        "plan_id"@,
        REFERENCE_PORTRAIT_DISPLAY_MECHANISM_PLAN_ID@,
        plan.plan_id@,
    );
    let part_3 = flag_issue("single_use"@, true, plan.single_use);
    let part_4 = text_issue(
        "profile_id"@,
        REFERENCE_PORTRAIT_DISPLAY_MECHANISM_PROFILE_ID@,
        plan.profile_id@,
    );
    let part_5 = text_issue(
        "evidence.probe_version"@,
        REQUIRED_PROBE_VERSION@,
        plan.evidence.probe_version@,
    );
    let part_6 = text_issue(
        "evidence.serial_prefix"@,
        REQUIRED_SERIAL_PREFIX@,
        plan.evidence.serial_prefix@,
    );
    let part_7 = text_issue(
        "evidence.firmware_contains"@,
        REQUIRED_FIRMWARE_SUBSTRING@,
        plan.evidence.firmware_contains@,
    );
    let part_8 = text_issue(
        "evidence.kernel_release"@,
        REQUIRED_KERNEL_RELEASE@,
        plan.evidence.kernel_release@,
    );
    let part_9 = text_issue("evidence.machine"@, REQUIRED_MACHINE@, plan.evidence.machine@);
    let part_10 = event_abi_issue(
        "evidence.input_event_abi"@,
        narrow_event_abi(),
        plan.evidence.input_event_abi,
    );
    let part_11 = framebuffer_issues(plan.evidence.framebuffer);
    let part_12 = text_issue("output_parent"@, REQUIRED_OUTPUT_PARENT@, plan.output_parent@);
    let part_13 = request_issues(plan.request);
    let upto_2 = part_1 + part_2;
    crate::text::either_list_holds(part_1, part_2);
    let upto_3 = upto_2 + part_3;
    crate::text::either_list_holds(upto_2, part_3);
    let upto_4 = upto_3 + part_4;
    crate::text::either_list_holds(upto_3, part_4);
    let upto_5 = upto_4 + part_5;
    crate::text::either_list_holds(upto_4, part_5);
    let upto_6 = upto_5 + part_6;
    crate::text::either_list_holds(upto_5, part_6);
    let upto_7 = upto_6 + part_7;
    crate::text::either_list_holds(upto_6, part_7);
    let upto_8 = upto_7 + part_8;
    crate::text::either_list_holds(upto_7, part_8);
    let upto_9 = upto_8 + part_9;
    crate::text::either_list_holds(upto_8, part_9);
    let upto_10 = upto_9 + part_10;
    crate::text::either_list_holds(upto_9, part_10);
    let upto_11 = upto_10 + part_11;
    crate::text::either_list_holds(upto_10, part_11);
    let upto_12 = upto_11 + part_12;
    crate::text::either_list_holds(upto_11, part_12);
    let upto_13 = upto_12 + part_13;
    crate::text::either_list_holds(upto_12, part_13);
    assert(definition_issues(plan) == upto_13);
}

/// An issue of the profile is that of one of its fields, under its name.
#[verifier::spinoff_prover]
#[verifier::rlimit(40)]
pub proof fn law_profile_issues_name_their_fields(
    plan: ActiveDisplayPlan,
    profile: DeviceProfile,
    issue: PlanIssue,
)
    ensures
        profile_issues(plan, profile).contains(issue) <==> {
            ||| text_issue("profile.id"@, plan.profile_id@, profile.id@).contains(issue)
            ||| differs(
                profile.review_status != ProfileReviewStatus::ObservedForeground,
                "profile.review_status"@,
                "ObservedForeground"@,
                profile.review_status.spec_name(),
            ).contains(issue)
            ||| single_issue(
                "profile.identity.serial_prefixes"@,
                plan.evidence.serial_prefix@,
                crate::text::texts(profile.identity.serial_prefixes@),
            ).contains(issue)
            ||| single_issue(
                "profile.identity.firmware_versions"@,
                plan.evidence.firmware_contains@,
                crate::text::texts(profile.identity.firmware_versions@),
            ).contains(issue)
            ||| number_issue(
                "profile.display.width"@,
                plan.evidence.framebuffer.visible_width as int,
                profile.display.width as int,
            ).contains(issue)
            ||| number_issue(
                "profile.display.height"@,
                plan.evidence.framebuffer.visible_height as int,
                profile.display.height as int,
            ).contains(issue)
            ||| number_issue(
                "profile.display.bits_per_pixel"@,
                plan.evidence.framebuffer.bits_per_pixel as int,
                profile.display.bits_per_pixel as int,
            ).contains(issue)
            ||| layout_issue(
                plan.evidence.framebuffer.pixel_layout,
                profile.display.pixel_layout,
            ).contains(issue)
            ||| rotation_issue(
                plan.evidence.framebuffer.rotation,
                profile.display.rotation,
            ).contains(issue)
            ||| optional_text_issue(
                "profile.display.epdc_update_abi"@,
                "zelda-88"@,
                crate::text::optional_text(profile.display.epdc_update_abi),
            ).contains(issue)
            ||| flag_issue(
                "profile.requirements.multitouch_axes"@,
                true,
                profile.requirements.multitouch_axes,
            ).contains(issue)
            ||| flag_issue(
                "profile.requirements.rtc_wakealarm"@,
                false,
                profile.requirements.rtc_wakealarm,
            ).contains(issue)
            ||| flag_issue(
                "profile.requirements.suspend_to_mem"@,
                false,
                profile.requirements.suspend_to_mem,
            ).contains(issue)
            ||| differs(
                profile.evidence.level != EvidenceLevel::Observed,
                "profile.evidence.level"@,
                "Observed"@,
                profile.evidence.level.spec_name(),
            ).contains(issue)
        },
{
    let part_1 = text_issue("profile.id"@, plan.profile_id@, profile.id@);
    let part_2 = differs(
        profile.review_status != ProfileReviewStatus::ObservedForeground,
        "profile.review_status"@,
        "ObservedForeground"@,
        profile.review_status.spec_name(),
    );
    let part_3 = single_issue(
        "profile.identity.serial_prefixes"@,
        plan.evidence.serial_prefix@,
        crate::text::texts(profile.identity.serial_prefixes@),
    );
    let part_4 = single_issue(
        "profile.identity.firmware_versions"@,
        plan.evidence.firmware_contains@,
        crate::text::texts(profile.identity.firmware_versions@),
    );
    let part_5 = number_issue(
        "profile.display.width"@,
        plan.evidence.framebuffer.visible_width as int,
        profile.display.width as int,
    );
    let part_6 = number_issue(
        "profile.display.height"@,
        plan.evidence.framebuffer.visible_height as int,
        profile.display.height as int,
    );
    let part_7 = number_issue(
        "profile.display.bits_per_pixel"@,
        plan.evidence.framebuffer.bits_per_pixel as int,
        profile.display.bits_per_pixel as int,
    );
    let part_8 = layout_issue(plan.evidence.framebuffer.pixel_layout, profile.display.pixel_layout);
    let part_9 = rotation_issue(plan.evidence.framebuffer.rotation, profile.display.rotation);
    let part_10 = optional_text_issue(
        "profile.display.epdc_update_abi"@,
        "zelda-88"@,
        crate::text::optional_text(profile.display.epdc_update_abi),
    );
    let part_11 = flag_issue(
        "profile.requirements.multitouch_axes"@,
        true,
        profile.requirements.multitouch_axes,
    );
    let part_12 = flag_issue(
        "profile.requirements.rtc_wakealarm"@,
        false,
        profile.requirements.rtc_wakealarm,
    );
    let part_13 = flag_issue(
        "profile.requirements.suspend_to_mem"@,
        false,
        profile.requirements.suspend_to_mem,
    );
    let part_14 = differs(
        profile.evidence.level != EvidenceLevel::Observed,
        "profile.evidence.level"@,
        "Observed"@,
        profile.evidence.level.spec_name(),
    );
    let upto_2 = part_1 + part_2;
    crate::text::either_list_holds(part_1, part_2);
    let upto_3 = upto_2 + part_3;
    crate::text::either_list_holds(upto_2, part_3);
    let upto_4 = upto_3 + part_4;
    crate::text::either_list_holds(upto_3, part_4);
    let upto_5 = upto_4 + part_5;
    crate::text::either_list_holds(upto_4, part_5);
    let upto_6 = upto_5 + part_6;
    crate::text::either_list_holds(upto_5, part_6);
    let upto_7 = upto_6 + part_7;
    crate::text::either_list_holds(upto_6, part_7);
    let upto_8 = upto_7 + part_8;
    crate::text::either_list_holds(upto_7, part_8);
    let upto_9 = upto_8 + part_9;
    crate::text::either_list_holds(upto_8, part_9);
    let upto_10 = upto_9 + part_10;
    crate::text::either_list_holds(upto_9, part_10);
    let upto_11 = upto_10 + part_11;
    crate::text::either_list_holds(upto_10, part_11);
    let upto_12 = upto_11 + part_12;
    crate::text::either_list_holds(upto_11, part_12);
    let upto_13 = upto_12 + part_13;
    crate::text::either_list_holds(upto_12, part_13);
    let upto_14 = upto_13 + part_14;
    crate::text::either_list_holds(upto_13, part_14);
    assert(profile_issues(plan, profile) == upto_14);
}

/// An issue of the report is that of one of its fields, under its name.
#[verifier::spinoff_prover]
#[verifier::rlimit(40)]
pub proof fn law_report_issues_name_their_fields(
    plan: ActiveDisplayPlan,
    passive: ProbeReport,
    issue: PlanIssue,
)
    ensures
        report_issues(plan, passive).contains(issue) <==> {
            ||| text_issue(
                "report.probe_version"@,
                plan.evidence.probe_version@,
                passive.probe_version@,
            ).contains(issue)
            ||| text_issue(
                "report.redaction.policy"@,
                REDACTION_POLICY@,
                passive.redaction.policy@,
            ).contains(issue)
            ||| category_issues(
                crate::text::texts(passive.redaction.excluded_categories@),
                6,
            ).contains(issue)
            ||| optional_text_issue(
                "report.identity.serial_prefix"@,
                plan.evidence.serial_prefix@,
                crate::text::optional_text(passive.identity.serial_prefix),
            ).contains(issue)
            ||| differs(
                !firmware_holds(passive.system.firmware@, plan.evidence.firmware_contains@),
                "report.system.firmware"@,
                crate::wording::quoted(containing(plan.evidence.firmware_contains@)),
                crate::wording::quoted(shown_sourced_list(passive.system.firmware@)),
            ).contains(issue)
            ||| optional_text_issue(
                "report.system.kernel_release"@,
                plan.evidence.kernel_release@,
                crate::text::optional_text(passive.system.kernel_release),
            ).contains(issue)
            ||| optional_text_issue(
                "report.system.machine"@,
                plan.evidence.machine@,
                crate::text::optional_text(passive.system.machine),
            ).contains(issue)
            ||| event_abi_issue(
                "report.system.input_event_abi"@,
                plan.evidence.input_event_abi,
                passive.system.input_event_abi,
            ).contains(issue)
            ||| selected_framebuffer_issues(plan, passive.framebuffers@).contains(issue)
            ||| self::when(
                passive.warnings@.len() > 0,
                PlanIssue::ProbeWarningsPresent { count: passive.warnings@.len() },
            ).contains(issue)
        },
{
    let part_1 = text_issue(
        "report.probe_version"@,
        plan.evidence.probe_version@,
        passive.probe_version@,
    );
    let part_2 = text_issue(
        "report.redaction.policy"@,
        REDACTION_POLICY@,
        passive.redaction.policy@,
    );
    let part_3 = category_issues(crate::text::texts(passive.redaction.excluded_categories@), 6);
    let part_4 = optional_text_issue(
        "report.identity.serial_prefix"@,
        plan.evidence.serial_prefix@,
        crate::text::optional_text(passive.identity.serial_prefix),
    );
    let part_5 = differs(
        !firmware_holds(passive.system.firmware@, plan.evidence.firmware_contains@),
        "report.system.firmware"@,
        crate::wording::quoted(containing(plan.evidence.firmware_contains@)),
        crate::wording::quoted(shown_sourced_list(passive.system.firmware@)),
    );
    let part_6 = optional_text_issue(
        "report.system.kernel_release"@,
        plan.evidence.kernel_release@,
        crate::text::optional_text(passive.system.kernel_release),
    );
    let part_7 = optional_text_issue(
        "report.system.machine"@,
        plan.evidence.machine@,
        crate::text::optional_text(passive.system.machine),
    );
    let part_8 = event_abi_issue(
        "report.system.input_event_abi"@,
        plan.evidence.input_event_abi,
        passive.system.input_event_abi,
    );
    let part_9 = selected_framebuffer_issues(plan, passive.framebuffers@);
    let part_10 = self::when(
        passive.warnings@.len() > 0,
        PlanIssue::ProbeWarningsPresent { count: passive.warnings@.len() },
    );
    let upto_2 = part_1 + part_2;
    crate::text::either_list_holds(part_1, part_2);
    let upto_3 = upto_2 + part_3;
    crate::text::either_list_holds(upto_2, part_3);
    let upto_4 = upto_3 + part_4;
    crate::text::either_list_holds(upto_3, part_4);
    let upto_5 = upto_4 + part_5;
    crate::text::either_list_holds(upto_4, part_5);
    let upto_6 = upto_5 + part_6;
    crate::text::either_list_holds(upto_5, part_6);
    let upto_7 = upto_6 + part_7;
    crate::text::either_list_holds(upto_6, part_7);
    let upto_8 = upto_7 + part_8;
    crate::text::either_list_holds(upto_7, part_8);
    let upto_9 = upto_8 + part_9;
    crate::text::either_list_holds(upto_8, part_9);
    let upto_10 = upto_9 + part_10;
    crate::text::either_list_holds(upto_9, part_10);
    assert(report_issues(plan, passive) == upto_10);
}

/// A category that is not left out is named as one that must be.
pub proof fn law_missing_categories_are_named(excluded: Seq<Seq<char>>, i: int)
    requires
        0 <= i < 6,
    ensures
        probe_categories().len() == 6,
        !excluded.contains(probe_categories()[i]@) ==> category_issues(excluded, 6).contains(
            PlanIssue::Mismatch {
                field: "report.redaction.excluded_categories"@,
                expected: crate::wording::quoted(
                    "contains "@ + crate::wording::quoted(probe_categories()[i]@),
                ),
                observed: crate::wording::quoted_list(excluded),
            },
        ),
{
    if !excluded.contains(probe_categories()[i]@) {
        named_category_stays(excluded, i, 6);
    }
}

proof fn named_category_stays(excluded: Seq<Seq<char>>, i: int, n: int)
    requires
        0 <= i < n <= 6,
        !excluded.contains(probe_categories()[i]@),
    ensures
        category_issues(excluded, n).contains(
            PlanIssue::Mismatch {
                field: "report.redaction.excluded_categories"@,
                expected: crate::wording::quoted(containing(probe_categories()[i]@)),
                observed: crate::wording::quoted_list(excluded),
            },
        ),
    decreases n,
{
    let told = differs(
        !excluded.contains(probe_categories()[n - 1]@),
        "report.redaction.excluded_categories"@,
        crate::wording::quoted(containing(probe_categories()[n - 1]@)),
        crate::wording::quoted_list(excluded),
    );
    crate::text::either_list_holds(category_issues(excluded, n - 1), told);
    if i < n - 1 {
        named_category_stays(excluded, i, n - 1);
    } else {
        assert(told[0] == (PlanIssue::Mismatch {
            field: "report.redaction.excluded_categories"@,
            expected: crate::wording::quoted(containing(probe_categories()[i]@)),
            observed: crate::wording::quoted_list(excluded),
        }));
    }
}

} // verus!
