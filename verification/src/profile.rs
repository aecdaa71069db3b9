//! Reviewed device profiles and their comparison with probe reports.

use crate::display_trace::DisplayUpdateAbiKind;
use crate::nonzero::NonZeroU32;
use crate::probe::{
    FramebufferCapability, InputAxisCapability, InputDeviceCapability, PixelLayout, ProbeReport,
    RtcCapability, SourcedValue,
};
use crate::refresh::RefreshCapabilities;
use crate::text::{holds_text, optional_is, push_decimal, test_occurs, to_chars, CharSet};
use crate::transform::QuarterTurn;
use crate::wording::{byte_len, note_string, note_text, push_joined, remark};
use vstd::prelude::*;

verus! {

/// The version of the profile format.
pub const PROFILE_SCHEMA_VERSION: u32 = 1;

/// A reviewed description of one device model.
#[derive(Debug, Clone, PartialEq, Eq)]
pub struct DeviceProfile {
    /// Version of the profile format.
    pub schema_version: u32,
    /// Identifier of the profile.
    pub id: String,
    /// Name shown to people.
    pub display_name: String,
    /// How far the review has come.
    pub review_status: ProfileReviewStatus,
    /// What identifies the device.
    pub identity: IdentityMatch,
    /// The display that is expected.
    pub display: DisplayMatch,
    /// What the device must be capable of.
    pub requirements: CapabilityRequirements,
    /// Reviewed runtime policy, if there is one.
    pub runtime: Option<RuntimeSelection>,
    /// Where the profile comes from.
    pub evidence: ProfileEvidence,
}

/// How far the review of a profile has come.
#[derive(Debug, Clone, Copy, PartialEq, Eq, Structural)]
pub enum ProfileReviewStatus {
    /// Evidence is still missing.
    EvidencePending,
    /// Observed in the foreground only.
    ObservedForeground,
    /// Supported.
    Supported,
}

impl ProfileReviewStatus {
    /// The name of the value.
    pub open spec fn spec_name(self) -> Seq<char> {
        match self {
            ProfileReviewStatus::EvidencePending => "EvidencePending"@,
            ProfileReviewStatus::ObservedForeground => "ObservedForeground"@,
            ProfileReviewStatus::Supported => "Supported"@,
        }
    }

    /// Returns the name of the value.
    pub fn name(self) -> (name: &'static str)
        ensures
            name@ == self.spec_name(),
    {
        match self {
            ProfileReviewStatus::EvidencePending => "EvidencePending",
            ProfileReviewStatus::ObservedForeground => "ObservedForeground",
            ProfileReviewStatus::Supported => "Supported",
        }
    }
}

/// What identifies a device.
#[derive(Debug, Clone, PartialEq, Eq)]
pub struct IdentityMatch {
    /// Reviewed model prefixes of serial numbers.
    pub serial_prefixes: Vec<String>,
    /// Reviewed firmware versions; none means any.
    pub firmware_versions: Vec<String>,
}

/// The display that a profile expects.
#[derive(Debug, Clone, PartialEq, Eq)]
pub struct DisplayMatch {
    /// Visible width in pixels.
    pub width: u32,
    /// Visible height in pixels.
    pub height: u32,
    /// Bits of one pixel.
    pub bits_per_pixel: u32,
    /// How a pixel is encoded, if that matters.
    pub pixel_layout: Option<PixelLayout>,
    /// Kernel rotation value, if that matters.
    pub rotation: Option<u32>,
    /// Name of the display update request layout.
    pub epdc_update_abi: Option<String>,
}

/// What a device must be capable of.
#[derive(Debug, Clone, Copy, PartialEq, Eq, Structural)]
pub struct CapabilityRequirements {
    /// Both multitouch position axes.
    pub multitouch_axes: bool,
    /// A wake alarm.
    pub rtc_wakealarm: bool,
    /// Suspending to memory.
    pub suspend_to_mem: bool,
}

impl Default for CapabilityRequirements {
    fn default() -> (requirements: Self)
        ensures
            requirements == (CapabilityRequirements {
                multitouch_axes: false,
                rtc_wakealarm: false,
                suspend_to_mem: false,
            }),
    {
        CapabilityRequirements {
            multitouch_axes: false,
            rtc_wakealarm: false,
            suspend_to_mem: false,
        }
    }
}

/// Optional reviewed policy required to resolve a passive report at runtime.
///
/// A profile without it is valid, but cannot be resolved.
#[derive(Debug, Clone, PartialEq, Eq)]
pub struct RuntimeSelection {
    /// How to select exactly one framebuffer from the fresh report.
    pub framebuffer: RuntimeFramebufferSelection,
    /// How to select and transform exactly one touch device.
    pub touch: RuntimeTouchSelection,
    /// Reviewed update capability, absent when no exact update ABI is known.
    pub refresh: Option<RuntimeRefreshSelection>,
    /// Reviewed stock-return mechanism, absent until its live card passes.
    pub stock_repaint: Option<StockRepaintMechanism>,
}

/// Exact vendor-facing action reviewed for restoring the stock presentation.
#[derive(Debug, Clone, Copy, PartialEq, Eq, Structural)]
pub enum StockRepaintMechanism {
    /// Execute `/usr/bin/xrefresh -d :0.0` without a shell or inherited environment.
    XrefreshDisplay0,
}

/// Reviewed framebuffer identity independent of its current numbered path.
#[derive(Debug, Clone, PartialEq, Eq)]
pub struct RuntimeFramebufferSelection {
    /// Exact non-secret kernel framebuffer driver identifier.
    pub driver_id: String,
}

/// Reviewed touchscreen identity, axes, and logical transform policy.
#[derive(Debug, Clone, PartialEq, Eq)]
pub struct RuntimeTouchSelection {
    /// Exact redacted kernel input-device name.
    pub name: String,
    /// Absolute axis used as raw touch X.
    pub x_axis_code: u16,
    /// Absolute axis used as raw touch Y.
    pub y_axis_code: u16,
    /// Whether the reviewed logical mapping swaps X and Y.
    pub swap_xy: bool,
    /// Whether logical X is mirrored before rotation.
    pub invert_x: bool,
    /// Whether logical Y is mirrored before rotation.
    pub invert_y: bool,
    /// Explicit input-coordinate rotation, independent of framebuffer metadata.
    pub rotation: QuarterTurn,
}

/// Reviewed generic refresh capability tied to one exact update ABI.
#[derive(Debug, Clone, Copy, PartialEq, Eq, Structural)]
pub struct RuntimeRefreshSelection {
    /// Exact request layout selected by the reviewed profile.
    pub update_abi: DisplayUpdateAbiKind,
    /// Whether partial updates have sufficient foreground evidence.
    pub partial: bool,
    /// Whether full/clean updates have sufficient foreground evidence.
    pub full: bool,
    /// Optional reviewed upper bound for completion-marker waiting.
    pub maximum_completion_wait_millis: Option<NonZeroU32>,
}

/// Where a profile comes from.
#[derive(Debug, Clone, PartialEq, Eq)]
pub struct ProfileEvidence {
    /// How strong the evidence is.
    pub level: EvidenceLevel,
    /// Where it was found.
    pub source: String,
    /// Remarks.
    pub notes: Vec<String>,
}

/// How strong the evidence for a profile is.
#[derive(Debug, Clone, Copy, PartialEq, Eq, Structural)]
pub enum EvidenceLevel {
    /// Seen on a device.
    Observed,
    /// Reported by others.
    Reported,
    /// Not yet gathered.
    Planned,
}

impl EvidenceLevel {
    /// The name of the value.
    pub open spec fn spec_name(self) -> Seq<char> {
        match self {
            EvidenceLevel::Observed => "Observed"@,
            EvidenceLevel::Reported => "Reported"@,
            EvidenceLevel::Planned => "Planned"@,
        }
    }

    /// Returns the name of the value.
    pub fn name(self) -> (name: &'static str)
        ensures
            name@ == self.spec_name(),
    {
        match self {
            EvidenceLevel::Observed => "Observed",
            EvidenceLevel::Reported => "Reported",
            EvidenceLevel::Planned => "Planned",
        }
    }
}

/// Outcome of comparing a profile with a report.
#[derive(Debug, Clone, Copy, PartialEq, Eq, Structural)]
pub enum ProfileEvaluationStatus {
    /// Everything fits.
    Match,
    /// Nothing contradicts the profile, but something is missing.
    MissingCapabilities,
    /// Something contradicts the profile.
    Mismatch,
}

impl ProfileEvaluationStatus {
    /// The name of the outcome.
    pub open spec fn spec_name(self) -> Seq<char> {
        match self {
            ProfileEvaluationStatus::Match => "Match"@,
            ProfileEvaluationStatus::MissingCapabilities => "MissingCapabilities"@,
            ProfileEvaluationStatus::Mismatch => "Mismatch"@,
        }
    }

    /// Returns the name of the outcome.
    pub fn name(self) -> (name: &'static str)
        ensures
            name@ == self.spec_name(),
    {
        match self {
            ProfileEvaluationStatus::Match => "Match",
            ProfileEvaluationStatus::MissingCapabilities => "MissingCapabilities",
            ProfileEvaluationStatus::Mismatch => "Mismatch",
        }
    }
}

/// What came of comparing a profile with a report.
#[derive(Debug, Clone, PartialEq, Eq)]
pub struct ProfileEvaluation {
    /// The outcome.
    pub status: ProfileEvaluationStatus,
    /// What the report does not hold.
    pub missing: Vec<String>,
    /// What contradicts the profile.
    pub mismatches: Vec<String>,
}

/// Why a profile could not be loaded.
#[derive(Debug, Clone, PartialEq, Eq)]
pub enum ProfileParseError {
    /// The text is not a TOML document of the right shape.
    Toml(String),
    /// The profile violates its own rules.
    Validation(Vec<String>),
}

impl ProfileParseError {
    /// The operator-facing description of the error.
    pub open spec fn spec_message(self) -> Seq<char> {
        match self {
            ProfileParseError::Toml(error) => "invalid TOML: "@ + error@,
            ProfileParseError::Validation(errors) => {
                "invalid profile: "@ + crate::text::joined(crate::text::texts(errors@), "; "@)
            },
        }
    }

    /// Describes the error for an operator.
    pub fn message(&self) -> (message: String)
        ensures
            message@ == self.spec_message(),
    {
        let mut message: String = String::new();
        match self {
            ProfileParseError::Toml(error) => {
                message.append("invalid TOML: ");
                message.append(error.as_str());
            },
            ProfileParseError::Validation(errors) => {
                message.append("invalid profile: ");
                push_joined(&mut message, errors, "; ");
            },
        }
        assert(message@ =~= self.spec_message());
        message
    }
}

/// The profile name of a request layout.
pub open spec fn abi_name(kind: DisplayUpdateAbiKind) -> Seq<char> {
    match kind {
        DisplayUpdateAbiKind::Legacy72 => "legacy-72"@,
        DisplayUpdateAbiKind::Rex80 => "rex-80"@,
        DisplayUpdateAbiKind::Zelda88 => "zelda-88"@,
    }
}

/// Returns the profile name of a request layout.
pub fn update_abi_profile_name(kind: DisplayUpdateAbiKind) -> (name: &'static str)
    ensures
        name@ == abi_name(kind),
{
    match kind {
        DisplayUpdateAbiKind::Legacy72 => "legacy-72",
        DisplayUpdateAbiKind::Rex80 => "rex-80",
        DisplayUpdateAbiKind::Zelda88 => "zelda-88",
    }
}

/// Whether a framebuffer driver name is acceptable in a profile.
pub open spec fn is_driver_id(id: Seq<char>) -> bool {
    1 <= id.len() <= 64 && CharSet::DriverName.covers(id)
}

/// Whether a touch device name is acceptable in a profile.
pub open spec fn is_touch_name(name: Seq<char>) -> bool {
    name.len() > 0 && crate::wording::byte_length(name) <= 128 && !CharSet::Control.meets(name)
}

impl RuntimeSelection {
    /// What is wrong with the selection for the given display.
    pub open spec fn violations(&self, display: DisplayMatch) -> Seq<Seq<char>> {
        remark(
            !is_driver_id(self.framebuffer.driver_id@),
            "runtime framebuffer driver_id must use 1-64 ASCII letters, digits, or '_'"@,
        ) + remark(
            !is_touch_name(self.touch.name@),
            "runtime touch name must be 1-128 non-control characters"@,
        ) + remark(
            self.touch.x_axis_code == self.touch.y_axis_code,
            "runtime touch X and Y axis codes must differ"@,
        ) + remark(
            self.refresh is Some && !self.refresh->0.partial && !self.refresh->0.full,
            "runtime refresh must enable partial or full updates"@,
        ) + remark(
            self.refresh is Some && crate::text::optional_text(display.epdc_update_abi) != Some(
                abi_name(self.refresh->0.update_abi),
            ),
            "runtime refresh ABI "@ + abi_name(self.refresh->0.update_abi)
                + " does not match profile display ABI"@,
        )
    }
}

impl DisplayMatch {
    /// Whether a framebuffer is the expected display.
    pub open spec fn fits(self, framebuffer: FramebufferCapability) -> bool {
        &&& framebuffer.visible_width == self.width
        &&& framebuffer.visible_height == self.height
        &&& framebuffer.bits_per_pixel == self.bits_per_pixel
        &&& self.pixel_layout is None || self.pixel_layout == Some(framebuffer.pixel_layout)
        &&& self.rotation is None || self.rotation == Some(framebuffer.rotation)
    }

    /// Tests whether a framebuffer is the expected display.
    pub(crate) fn test_fits(&self, framebuffer: &FramebufferCapability) -> (held: bool)
        ensures
            held == self.fits(*framebuffer),
    {
        let layout: bool = match self.pixel_layout {
            Some(layout) => framebuffer.pixel_layout == layout,
            None => true,
        };
        let rotation: bool = match self.rotation {
            Some(rotation) => framebuffer.rotation == rotation,
            None => true,
        };
        framebuffer.visible_width == self.width && framebuffer.visible_height == self.height
            && framebuffer.bits_per_pixel == self.bits_per_pixel && layout && rotation
    }
}

/// Whether a device has an absolute axis with the given code.
pub open spec fn has_axis(axes: Seq<InputAxisCapability>, code: u16) -> bool {
    exists|i: int| 0 <= i < axes.len() && (#[trigger] axes[i]).code == code
}

/// Whether a device has both multitouch position axes.
pub open spec fn has_multitouch(input: InputDeviceCapability) -> bool {
    has_axis(input.axes@, 0x35) && has_axis(input.axes@, 0x36)
}

/// Whether a firmware line holds one of the reviewed versions.
pub open spec fn names_version(value: Seq<char>, versions: Seq<Seq<char>>) -> bool {
    exists|i: int| 0 <= i < versions.len() && crate::text::occurs(value, #[trigger] versions[i])
}

/// Whether some firmware line holds one of the reviewed versions.
pub open spec fn firmware_is_reviewed(
    firmware: Seq<SourcedValue>,
    versions: Seq<Seq<char>>,
) -> bool {
    exists|i: int|
        0 <= i < firmware.len() && names_version((#[trigger] firmware[i]).value@, versions)
}

impl DeviceProfile {
    /// Everything that is wrong with the profile, in the order in which it is
    /// reported.
    pub open spec fn violations(&self) -> Seq<Seq<char>> {
        remark(
            self.schema_version != PROFILE_SCHEMA_VERSION,
            "unsupported profile schema version "@ + crate::text::decimal(
                self.schema_version as nat,
            ),
        ) + remark(
            self.id@.len() == 0 || !CharSet::ProfileId.covers(self.id@),
            "profile id must use lowercase ASCII letters, digits, '-' or '_'"@,
        ) + remark(
            self.identity.serial_prefixes@.len() == 0 && self.review_status
                != ProfileReviewStatus::EvidencePending,
            "at least one reviewed serial prefix is required"@,
        ) + remark(
            self.display.width == 0 || self.display.height == 0,
            "profile display geometry must be non-zero"@,
        ) + remark(
            self.display.bits_per_pixel == 0,
            "profile bits_per_pixel must be non-zero"@,
        ) + (match self.runtime {
            Some(runtime) => runtime.violations(self.display),
            None => seq![],
        })
    }

    /// Takes the outcome of reading a TOML document, and accepts a profile
    /// that keeps its own rules.
    pub fn from_parsed(parsed: Result<Self, String>) -> (result: Result<Self, ProfileParseError>)
        ensures
            match (parsed, result) {
                (Err(error), Err(ProfileParseError::Toml(reported))) => reported@ == error@,
                (Ok(profile), Err(ProfileParseError::Validation(errors))) => {
                    &&& errors@.len() > 0
                    &&& crate::text::texts(errors@) == profile.violations()
                },
                (Ok(profile), Ok(accepted)) => {
                    &&& profile.violations().len() == 0
                    &&& accepted == profile
                },
                _ => false,
            },
    {
        match parsed {
            Ok(profile) => match profile.validate() {
                Ok(()) => Ok(profile),
                Err(errors) => Err(ProfileParseError::Validation(errors)),
            },
            Err(error) => Err(ProfileParseError::Toml(error)),
        }
    }

    /// Checks the rules that every profile keeps.
    ///
    /// Every violation is reported.
    pub fn validate(&self) -> (result: Result<(), Vec<String>>)
        ensures
            match result {
                Ok(()) => self.violations().len() == 0,
                Err(errors) => errors@.len() > 0 && crate::text::texts(errors@)
                    == self.violations(),
            },
    {
        let mut errors: Vec<String> = Vec::new();
        let mut version: String = "unsupported profile schema version ".to_owned();
        push_decimal(&mut version, self.schema_version as u64);
        let ghost version_text = version@;
        let wrong: bool = self.schema_version != PROFILE_SCHEMA_VERSION;
        note_string(&mut errors, wrong, version);
        assert(crate::text::texts(errors@) =~= remark(wrong, version_text));
        let id: Vec<char> = to_chars(self.id.as_str());
        note_text(
            &mut errors,
            id.len() == 0 || !CharSet::ProfileId.test_all(id.as_slice()),
            "profile id must use lowercase ASCII letters, digits, '-' or '_'",
        );
        note_text(
            &mut errors,
            self.identity.serial_prefixes.len() == 0 && self.review_status
                != ProfileReviewStatus::EvidencePending,
            "at least one reviewed serial prefix is required",
        );
        note_text(
            &mut errors,
            self.display.width == 0 || self.display.height == 0,
            "profile display geometry must be non-zero",
        );
        note_text(
            &mut errors,
            self.display.bits_per_pixel == 0,
            "profile bits_per_pixel must be non-zero",
        );
        let ghost so_far = crate::text::texts(errors@);
        match &self.runtime {
            Some(runtime) => {
                let mut more: Vec<String> = validate_runtime_selection(runtime, &self.display);
                let ghost before = errors@;
                let ghost added = more@;
                errors.append(&mut more);
                assert(crate::text::texts(before + added) =~= so_far + crate::text::texts(added));
            },
            None => {
                assert(so_far =~= so_far + seq![]);
            },
        }
        if errors.is_empty() {
            assert(crate::text::texts(errors@).len() == 0);
            Ok(())
        } else {
            assert(crate::text::texts(errors@).len() == errors@.len());
            Err(errors)
        }
    }

    /// What the report does not hold, in the order in which it is reported.
    pub open spec fn missing_from(&self, report: ProbeReport) -> Seq<Seq<char>> {
        remark(
            self.identity.serial_prefixes@.len() == 0,
            "profile.identity.serial_prefixes"@,
        ) + remark(
            self.identity.serial_prefixes@.len() != 0 && report.identity.serial_prefix is None,
            "identity.serial_prefix"@,
        ) + remark(
            self.identity.firmware_versions@.len() != 0 && report.system.firmware@.len() == 0,
            "system.firmware"@,
        ) + remark(report.framebuffers@.len() == 0, "framebuffers"@) + remark(
            self.requirements.multitouch_axes && !(exists|i: int|
                0 <= i < report.inputs@.len() && has_multitouch(#[trigger] report.inputs@[i])),
            "input.abs_mt_position_x_y"@,
        ) + remark(
            self.requirements.rtc_wakealarm && !(exists|i: int|
                0 <= i < report.power.rtcs@.len() && (
                #[trigger] report.power.rtcs@[i]).wakealarm is Some),
            "power.rtc_wakealarm"@,
        ) + remark(
            self.requirements.suspend_to_mem && !crate::text::texts(
                report.power.suspend.states@,
            ).contains("mem"@),
            "power.suspend_mem"@,
        )
    }

    /// What contradicts the profile, in the order in which it is reported.
    pub open spec fn mismatches_with(&self, report: ProbeReport) -> Seq<Seq<char>> {
        remark(
            self.identity.serial_prefixes@.len() != 0 && report.identity.serial_prefix is Some
                && !crate::text::texts(self.identity.serial_prefixes@).contains(
                report.identity.serial_prefix->0@,
            ),
            "serial prefix "@ + report.identity.serial_prefix->0@ + " is not reviewed"@,
        ) + remark(
            self.identity.firmware_versions@.len() != 0 && report.system.firmware@.len() != 0
                && !firmware_is_reviewed(
                report.system.firmware@,
                crate::text::texts(self.identity.firmware_versions@),
            ),
            "firmware is not reviewed by this profile"@,
        ) + remark(
            report.framebuffers@.len() != 0 && !(exists|i: int|
                0 <= i < report.framebuffers@.len() && self.display.fits(
                    #[trigger] report.framebuffers@[i],
                )),
            "framebuffer geometry or pixel capability does not match"@,
        )
    }

    /// The outcome of comparing the profile with a report: a contradiction
    /// outweighs what is missing.
    pub open spec fn outcome(&self, report: ProbeReport) -> ProfileEvaluationStatus {
        if self.mismatches_with(report).len() > 0 {
            ProfileEvaluationStatus::Mismatch
        } else if self.missing_from(report).len() > 0 {
            ProfileEvaluationStatus::MissingCapabilities
        } else {
            ProfileEvaluationStatus::Match
        }
    }

    /// Compares the profile with a report.
    pub fn evaluate(&self, report: &ProbeReport) -> (evaluation: ProfileEvaluation)
        ensures
            crate::text::texts(evaluation.missing@) == self.missing_from(*report),
            crate::text::texts(evaluation.mismatches@) == self.mismatches_with(*report),
            evaluation.status == self.outcome(*report),
    {
        let missing: Vec<String> = self.evaluate_missing(report);
        let mismatches: Vec<String> = self.evaluate_mismatches(report);
        assert(crate::text::texts(missing@).len() == missing@.len());
        assert(crate::text::texts(mismatches@).len() == mismatches@.len());
        let status: ProfileEvaluationStatus = if mismatches.len() > 0 {
            ProfileEvaluationStatus::Mismatch
        } else if missing.len() > 0 {
            ProfileEvaluationStatus::MissingCapabilities
        } else {
            ProfileEvaluationStatus::Match
        };
        ProfileEvaluation { status, missing, mismatches }
    }

    fn evaluate_missing(&self, report: &ProbeReport) -> (missing: Vec<String>)
        ensures
            crate::text::texts(missing@) == self.missing_from(*report),
    {
        let mut missing: Vec<String> = Vec::new();
        let unreviewed: bool = self.identity.serial_prefixes.len() == 0;
        note_text(&mut missing, unreviewed, "profile.identity.serial_prefixes");
        assert(crate::text::texts(missing@) =~= remark(
            unreviewed,
            "profile.identity.serial_prefixes"@,
        ));
        note_text(
            &mut missing,
            !unreviewed && report.identity.serial_prefix.is_none(),
            "identity.serial_prefix",
        );
        note_text(
            &mut missing,
            self.identity.firmware_versions.len() != 0 && report.system.firmware.len() == 0,
            "system.firmware",
        );
        note_text(&mut missing, report.framebuffers.len() == 0, "framebuffers");
        note_text(
            &mut missing,
            self.requirements.multitouch_axes && !any_multitouch(&report.inputs),
            "input.abs_mt_position_x_y",
        );
        note_text(
            &mut missing,
            self.requirements.rtc_wakealarm && !any_wakealarm(&report.power.rtcs),
            "power.rtc_wakealarm",
        );
        note_text(
            &mut missing,
            self.requirements.suspend_to_mem && !holds_text(&report.power.suspend.states, "mem"),
            "power.suspend_mem",
        );
        missing
    }

    fn evaluate_mismatches(&self, report: &ProbeReport) -> (mismatches: Vec<String>)
        ensures
            crate::text::texts(mismatches@) == self.mismatches_with(*report),
    {
        let mut mismatches: Vec<String> = Vec::new();
        let reviewed: bool = self.identity.serial_prefixes.len() != 0;
        match &report.identity.serial_prefix {
            Some(prefix) => {
                let mut text: String = "serial prefix ".to_owned();
                text.append(prefix.as_str());
                text.append(" is not reviewed");
                note_string(
                    &mut mismatches,
                    reviewed && !holds_text(&self.identity.serial_prefixes, prefix.as_str()),
                    text,
                );
            },
            None => {},
        }
        assert(crate::text::texts(mismatches@) =~= remark(
            self.identity.serial_prefixes@.len() != 0 && report.identity.serial_prefix is Some
                && !crate::text::texts(self.identity.serial_prefixes@).contains(
                report.identity.serial_prefix->0@,
            ),
            "serial prefix "@ + report.identity.serial_prefix->0@ + " is not reviewed"@,
        ));
        note_text(
            &mut mismatches,
            self.identity.firmware_versions.len() != 0 && report.system.firmware.len() != 0
                && !test_firmware(&report.system.firmware, &self.identity.firmware_versions),
            "firmware is not reviewed by this profile",
        );
        note_text(
            &mut mismatches,
            report.framebuffers.len() != 0 && !any_fits(&self.display, &report.framebuffers),
            "framebuffer geometry or pixel capability does not match",
        );
        mismatches
    }
}

fn any_fits(display: &DisplayMatch, framebuffers: &Vec<FramebufferCapability>) -> (found: bool)
    ensures
        found == exists|i: int|
            0 <= i < framebuffers@.len() && display.fits(#[trigger] framebuffers@[i]),
{
    for i in 0..framebuffers.len()
        invariant
            forall|j: int| 0 <= j < i ==> !display.fits(#[trigger] framebuffers@[j]),
    {
        if display.test_fits(&framebuffers[i]) {
            return true;
        }
    }
    false
}

fn test_axis(axes: &Vec<InputAxisCapability>, code: u16) -> (found: bool)
    ensures
        found == has_axis(axes@, code),
{
    for i in 0..axes.len()
        invariant
            forall|j: int| 0 <= j < i ==> (#[trigger] axes@[j]).code != code,
    {
        if axes[i].code == code {
            return true;
        }
    }
    false
}

fn any_multitouch(inputs: &Vec<InputDeviceCapability>) -> (found: bool)
    ensures
        found == exists|i: int| 0 <= i < inputs@.len() && has_multitouch(#[trigger] inputs@[i]),
{
    for i in 0..inputs.len()
        invariant
            forall|j: int| 0 <= j < i ==> !has_multitouch(#[trigger] inputs@[j]),
    {
        if test_axis(&inputs[i].axes, 0x35) && test_axis(&inputs[i].axes, 0x36) {
            assert(has_multitouch(inputs@[i as int]));
            return true;
        }
    }
    false
}

fn any_wakealarm(rtcs: &Vec<RtcCapability>) -> (found: bool)
    ensures
        found == exists|i: int| 0 <= i < rtcs@.len() && (#[trigger] rtcs@[i]).wakealarm is Some,
{
    for i in 0..rtcs.len()
        invariant
            forall|j: int| 0 <= j < i ==> (#[trigger] rtcs@[j]).wakealarm is None,
    {
        if rtcs[i].wakealarm.is_some() {
            return true;
        }
    }
    false
}

fn test_version(value: &str, versions: &Vec<String>) -> (found: bool)
    ensures
        found == names_version(value@, crate::text::texts(versions@)),
{
    let chars: Vec<char> = to_chars(value);
    let ghost all = crate::text::texts(versions@);
    for i in 0..versions.len()
        invariant
            chars@ == value@,
            all == crate::text::texts(versions@),
            forall|j: int| 0 <= j < i ==> !crate::text::occurs(value@, #[trigger] all[j]),
    {
        assert(all[i as int] == versions@[i as int]@);
        if test_occurs(chars.as_slice(), versions[i].as_str()) {
            return true;
        }
    }
    false
}

fn test_firmware(firmware: &Vec<SourcedValue>, versions: &Vec<String>) -> (found: bool)
    ensures
        found == firmware_is_reviewed(firmware@, crate::text::texts(versions@)),
{
    for i in 0..firmware.len()
        invariant
            forall|j: int|
                0 <= j < i ==> !names_version(
                    (#[trigger] firmware@[j]).value@,
                    crate::text::texts(versions@),
                ),
    {
        if test_version(firmware[i].value.as_str(), versions) {
            return true;
        }
    }
    false
}

fn validate_runtime_selection(
    runtime: &RuntimeSelection,
    display: &DisplayMatch,
) -> (errors: Vec<String>)
    ensures
        crate::text::texts(errors@) == runtime.violations(*display),
{
    let mut errors: Vec<String> = Vec::new();
    let driver: Vec<char> = to_chars(runtime.framebuffer.driver_id.as_str());
    let bad_driver: bool = driver.len() == 0 || driver.len() > 64 || !CharSet::DriverName.test_all(
        driver.as_slice(),
    );
    note_text(
        &mut errors,
        bad_driver,
        "runtime framebuffer driver_id must use 1-64 ASCII letters, digits, or '_'",
    );
    assert(crate::text::texts(errors@) =~= remark(
        bad_driver,
        "runtime framebuffer driver_id must use 1-64 ASCII letters, digits, or '_'"@,
    ));
    let name: Vec<char> = to_chars(runtime.touch.name.as_str());
    note_text(
        &mut errors,
        name.len() == 0 || byte_len(runtime.touch.name.as_str()) > 128
            || CharSet::Control.test_any(name.as_slice()),
        "runtime touch name must be 1-128 non-control characters",
    );
    note_text(
        &mut errors,
        runtime.touch.x_axis_code == runtime.touch.y_axis_code,
        "runtime touch X and Y axis codes must differ",
    );
    let ghost so_far = crate::text::texts(errors@);
    match runtime.refresh {
        Some(refresh) => {
            let empty: bool = RefreshCapabilities::try_new(
                refresh.partial,
                refresh.full,
                refresh.maximum_completion_wait_millis,
            ).is_err();
            note_text(&mut errors, empty, "runtime refresh must enable partial or full updates");
            let expected: &'static str = update_abi_profile_name(refresh.update_abi);
            let mut text: String = "runtime refresh ABI ".to_owned();
            text.append(expected);
            text.append(" does not match profile display ABI");
            note_string(&mut errors, !optional_is(&display.epdc_update_abi, expected), text);
        },
        None => {
            assert(so_far + Seq::<Seq<char>>::empty() + Seq::<Seq<char>>::empty() =~= so_far);
        },
    }
    errors
}

/// A report that holds everything the profile asks for, and nothing that
/// contradicts it, matches.
pub proof fn law_match_means_nothing_missing_or_wrong(profile: DeviceProfile, report: ProbeReport)
    ensures
        profile.outcome(report) == ProfileEvaluationStatus::Match <==> {
            &&& profile.missing_from(report).len() == 0
            &&& profile.mismatches_with(report).len() == 0
        },
{
}

/// A matching report has a reviewed serial prefix and a framebuffer that fits
/// the expected display.
pub proof fn law_match_is_reviewed(profile: DeviceProfile, report: ProbeReport)
    requires
        profile.outcome(report) == ProfileEvaluationStatus::Match,
    ensures
        report.identity.serial_prefix is Some,
        crate::text::texts(profile.identity.serial_prefixes@).contains(
            report.identity.serial_prefix->0@,
        ),
        exists|i: int|
            0 <= i < report.framebuffers@.len() && profile.display.fits(
                #[trigger] report.framebuffers@[i],
            ),
{
}

// ---------------------------------------------------------------------------
// What a profile must say, and what it matches
// ---------------------------------------------------------------------------
/// A runtime selection is fine exactly when its driver has a name of 1 to 64
/// letters, digits and underscores, its touch device one of 1 to 128 bytes
/// without controls, its axes differ, and its refresh, where it has one, enables
/// a mode and has the update ABI that the display names.
pub proof fn law_runtime_selections_are_complete(runtime: RuntimeSelection, display: DisplayMatch)
    ensures
        runtime.violations(display).len() == 0 <==> {
            let driver = runtime.framebuffer.driver_id@;
            let touch = runtime.touch.name@;
            &&& 1 <= driver.len() <= 64 && CharSet::DriverName.covers(driver)
            &&& touch.len() > 0 && vstd::utf8::encode_utf8(touch).len() <= 128
            &&& forall|i: int| 0 <= i < touch.len() ==> !CharSet::Control.has(#[trigger] touch[i])
            &&& runtime.touch.x_axis_code != runtime.touch.y_axis_code
            &&& runtime.refresh matches Some(refresh) ==> {
                &&& refresh.partial || refresh.full
                &&& crate::text::optional_text(display.epdc_update_abi) == Some(
                    match refresh.update_abi {
                        DisplayUpdateAbiKind::Legacy72 => "legacy-72"@,
                        DisplayUpdateAbiKind::Rex80 => "rex-80"@,
                        DisplayUpdateAbiKind::Zelda88 => "zelda-88"@,
                    },
                )
            }
        },
{
    let touch = runtime.touch.name@;
    assert(!CharSet::Control.meets(touch) <==> forall|i: int|
        0 <= i < touch.len() ==> !CharSet::Control.has(#[trigger] touch[i]));
}

/// A profile is valid exactly when it has the known schema, an id of lower-case
/// letters, digits, dashes and underscores, a reviewed serial prefix unless its
/// evidence is pending, a display with extent and depth, and a runtime
/// selection, where it has one, that is complete.
pub proof fn law_valid_profiles_are_complete(profile: DeviceProfile)
    ensures
        profile.violations().len() == 0 <==> {
            &&& profile.schema_version == 1
            &&& profile.id@.len() > 0 && CharSet::ProfileId.covers(profile.id@)
            &&& profile.review_status == ProfileReviewStatus::EvidencePending
                || profile.identity.serial_prefixes@.len() > 0
            &&& profile.display.width > 0 && profile.display.height > 0
            &&& profile.display.bits_per_pixel > 0
            &&& profile.runtime matches Some(runtime) ==> runtime.violations(
                profile.display,
            ).len() == 0
        },
{
    if let Some(runtime) = profile.runtime {
        assert(profile.violations().len() >= runtime.violations(profile.display).len());
    }
}

/// A framebuffer fits a display when it has its width, its height and its depth,
/// and its pixel layout and its rotation where these are stated.
pub proof fn law_displays_fit_by_geometry(
    display: DisplayMatch,
    framebuffer: FramebufferCapability,
)
    ensures
        display.fits(framebuffer) <==> {
            &&& (display.width, display.height, display.bits_per_pixel) == (
                framebuffer.visible_width,
                framebuffer.visible_height,
                framebuffer.bits_per_pixel,
            )
            &&& display.pixel_layout matches Some(layout) ==> layout == framebuffer.pixel_layout
            &&& display.rotation matches Some(rotation) ==> rotation == framebuffer.rotation
        },
{
}

/// A report matches a profile exactly when its serial prefix is one of the
/// profile's, one of its firmware texts names a reviewed version where the
/// profile names any, one of its framebuffers fits the display, and it has every
/// required capability: a device with both multi-touch position axes, a clock
/// with a wake alarm, and suspension to memory.
pub proof fn law_matches_have_everything(profile: DeviceProfile, report: ProbeReport)
    ensures
        profile.outcome(report) == ProfileEvaluationStatus::Match <==> {
            let prefixes = crate::text::texts(profile.identity.serial_prefixes@);
            let versions = crate::text::texts(profile.identity.firmware_versions@);
            &&& report.identity.serial_prefix is Some
            &&& prefixes.contains(report.identity.serial_prefix->0@)
            &&& versions.len() > 0 ==> exists|i: int, j: int|
                0 <= i < report.system.firmware@.len() && 0 <= j < versions.len()
                    && crate::text::occurs(
                    (#[trigger] report.system.firmware@[i]).value@,
                    #[trigger] versions[j],
                )
            &&& exists|i: int|
                0 <= i < report.framebuffers@.len() && profile.display.fits(
                    #[trigger] report.framebuffers@[i],
                )
            &&& profile.requirements.multitouch_axes ==> exists|i: int|
                0 <= i < report.inputs@.len() && has_axis(
                    (#[trigger] report.inputs@[i]).axes@,
                    0x35,
                ) && has_axis(report.inputs@[i].axes@, 0x36)
            &&& profile.requirements.rtc_wakealarm ==> exists|i: int|
                0 <= i < report.power.rtcs@.len() && (
                #[trigger] report.power.rtcs@[i]).wakealarm is Some
            &&& profile.requirements.suspend_to_mem ==> crate::text::texts(
                report.power.suspend.states@,
            ).contains("mem"@)
        },
{
    let prefixes = crate::text::texts(profile.identity.serial_prefixes@);
    let versions = crate::text::texts(profile.identity.firmware_versions@);
    let firmware = report.system.firmware@;
    let inputs = report.inputs@;
    assert(prefixes.len() == profile.identity.serial_prefixes@.len());
    assert(versions.len() == profile.identity.firmware_versions@.len());
    if report.identity.serial_prefix is Some && prefixes.contains(
        report.identity.serial_prefix->0@,
    ) {
        let i = choose|i: int|
            0 <= i < prefixes.len() && prefixes[i] == report.identity.serial_prefix->0@;
        assert(prefixes.len() > 0);
    }
    if firmware_is_reviewed(firmware, versions) {
        let i = choose|i: int|
            0 <= i < firmware.len() && names_version((#[trigger] firmware[i]).value@, versions);
        let j = choose|j: int|
            0 <= j < versions.len() && crate::text::occurs(
                firmware[i].value@,
                #[trigger] versions[j],
            );
        assert(crate::text::occurs(firmware[i].value@, versions[j]));
    }
    if exists|i: int, j: int|
        0 <= i < firmware.len() && 0 <= j < versions.len() && crate::text::occurs(
            (#[trigger] firmware[i]).value@,
            #[trigger] versions[j],
        ) {
        let (i, j) = choose|i: int, j: int|
            0 <= i < firmware.len() && 0 <= j < versions.len() && crate::text::occurs(
                (#[trigger] firmware[i]).value@,
                #[trigger] versions[j],
            );
        assert(names_version(firmware[i].value@, versions));
        assert(firmware_is_reviewed(firmware, versions));
    }
    if exists|i: int| 0 <= i < inputs.len() && has_multitouch(#[trigger] inputs[i]) {
        let i = choose|i: int| 0 <= i < inputs.len() && has_multitouch(#[trigger] inputs[i]);
        assert(has_axis(inputs[i].axes@, 0x35) && has_axis(inputs[i].axes@, 0x36));
    }
    if exists|i: int|
        0 <= i < inputs.len() && has_axis((#[trigger] inputs[i]).axes@, 0x35) && has_axis(
            inputs[i].axes@,
            0x36,
        ) {
        let i = choose|i: int|
            0 <= i < inputs.len() && has_axis((#[trigger] inputs[i]).axes@, 0x35) && has_axis(
                inputs[i].axes@,
                0x36,
            );
        assert(has_multitouch(inputs[i]));
    }
    if exists|i: int|
        0 <= i < report.framebuffers@.len() && profile.display.fits(
            #[trigger] report.framebuffers@[i],
        ) {
        assert(report.framebuffers@.len() > 0);
    }
}

/// What contradicts a profile outweighs what is missing: a report is a mismatch
/// exactly when it has a serial prefix, firmware or framebuffers of which none
/// is reviewed.
pub proof fn law_contradictions_are_mismatches(profile: DeviceProfile, report: ProbeReport)
    ensures
        profile.outcome(report) == ProfileEvaluationStatus::Mismatch <==> {
            let prefixes = crate::text::texts(profile.identity.serial_prefixes@);
            let versions = crate::text::texts(profile.identity.firmware_versions@);
            ||| prefixes.len() > 0 && report.identity.serial_prefix is Some && !prefixes.contains(
                report.identity.serial_prefix->0@,
            )
            ||| versions.len() > 0 && report.system.firmware@.len() > 0 && !firmware_is_reviewed(
                report.system.firmware@,
                versions,
            )
            ||| report.framebuffers@.len() > 0 && forall|i: int|
                0 <= i < report.framebuffers@.len() ==> !profile.display.fits(
                    #[trigger] report.framebuffers@[i],
                )
        },
{
}

proof fn remarks_are_held(list: Seq<Seq<char>>, wrong: bool, text: Seq<char>)
    ensures
        wrong ==> (list + remark(wrong, text)).contains(text),
        forall|e: Seq<char>| #[trigger]
            list.contains(e) ==> (list + remark(wrong, text)).contains(e),
{
    crate::text::either_list_holds(list, remark(wrong, text));
    if wrong {
        assert(remark(wrong, text)[0] == text);
    }
}

/// What is missing from a report is named: what the profile or the report does
/// not say, and each capability that is required and not there.
pub proof fn law_missing_capabilities_are_named(profile: DeviceProfile, report: ProbeReport)
    ensures
        ({
            let missing = profile.missing_from(report);
            let known = profile.identity.serial_prefixes@.len() > 0;
            &&& !known ==> missing.contains("profile.identity.serial_prefixes"@)
            &&& known && report.identity.serial_prefix is None ==> missing.contains(
                "identity.serial_prefix"@,
            )
            &&& profile.identity.firmware_versions@.len() > 0 && report.system.firmware@.len() == 0
                ==> missing.contains("system.firmware"@)
            &&& report.framebuffers@.len() == 0 ==> missing.contains("framebuffers"@)
            &&& profile.requirements.multitouch_axes && (forall|i: int|
                0 <= i < report.inputs@.len() ==> !(has_axis(
                    (#[trigger] report.inputs@[i]).axes@,
                    0x35,
                ) && has_axis(report.inputs@[i].axes@, 0x36))) ==> missing.contains(
                "input.abs_mt_position_x_y"@,
            )
            &&& profile.requirements.rtc_wakealarm && (forall|i: int|
                0 <= i < report.power.rtcs@.len() ==> (
                #[trigger] report.power.rtcs@[i]).wakealarm is None) ==> missing.contains(
                "power.rtc_wakealarm"@,
            )
            &&& profile.requirements.suspend_to_mem && !crate::text::texts(
                report.power.suspend.states@,
            ).contains("mem"@) ==> missing.contains("power.suspend_mem"@)
            &&& missing.len() <= 6
        }),
{
    let multitouch = profile.requirements.multitouch_axes && !(exists|i: int|
        0 <= i < report.inputs@.len() && has_multitouch(#[trigger] report.inputs@[i]));
    let alarm = profile.requirements.rtc_wakealarm && !(exists|i: int|
        0 <= i < report.power.rtcs@.len() && (#[trigger] report.power.rtcs@[i]).wakealarm is Some);
    let suspend = profile.requirements.suspend_to_mem && !crate::text::texts(
        report.power.suspend.states@,
    ).contains("mem"@);
    let none = Seq::<Seq<char>>::empty();
    let no_prefix = profile.identity.serial_prefixes@.len() == 0;
    let no_serial = profile.identity.serial_prefixes@.len() != 0 && report.identity.serial_prefix
        is None;
    let no_firmware = profile.identity.firmware_versions@.len() != 0
        && report.system.firmware@.len() == 0;
    let no_framebuffer = report.framebuffers@.len() == 0;
    let a = remark(no_prefix, "profile.identity.serial_prefixes"@);
    let b = a + remark(no_serial, "identity.serial_prefix"@);
    let c = b + remark(no_firmware, "system.firmware"@);
    let d = c + remark(no_framebuffer, "framebuffers"@);
    let e = d + remark(multitouch, "input.abs_mt_position_x_y"@);
    let f = e + remark(alarm, "power.rtc_wakealarm"@);
    remarks_are_held(none, no_prefix, "profile.identity.serial_prefixes"@);
    assert(none + a =~= a);
    remarks_are_held(a, no_serial, "identity.serial_prefix"@);
    remarks_are_held(b, no_firmware, "system.firmware"@);
    remarks_are_held(c, no_framebuffer, "framebuffers"@);
    remarks_are_held(d, multitouch, "input.abs_mt_position_x_y"@);
    remarks_are_held(e, alarm, "power.rtc_wakealarm"@);
    remarks_are_held(f, suspend, "power.suspend_mem"@);
    assert(profile.missing_from(report) == f + remark(suspend, "power.suspend_mem"@));
    if forall|i: int|
        0 <= i < report.inputs@.len() ==> !(has_axis((#[trigger] report.inputs@[i]).axes@, 0x35)
            && has_axis(report.inputs@[i].axes@, 0x36)) {
        assert forall|i: int| 0 <= i < report.inputs@.len() implies !has_multitouch(
            #[trigger] report.inputs@[i],
        ) by {}
    }
}

/// What contradicts a profile is named: a serial prefix, firmware or framebuffers
/// that are not the reviewed ones.
pub proof fn law_contradictions_are_named(profile: DeviceProfile, report: ProbeReport)
    ensures
        ({
            let named = profile.mismatches_with(report);
            let prefixes = crate::text::texts(profile.identity.serial_prefixes@);
            &&& prefixes.len() > 0 && report.identity.serial_prefix is Some && !prefixes.contains(
                report.identity.serial_prefix->0@,
            ) ==> named.contains(
                "serial prefix "@ + report.identity.serial_prefix->0@ + " is not reviewed"@,
            )
            &&& profile.identity.firmware_versions@.len() > 0 && report.system.firmware@.len() > 0
                && !firmware_is_reviewed(
                report.system.firmware@,
                crate::text::texts(profile.identity.firmware_versions@),
            ) ==> named.contains("firmware is not reviewed by this profile"@)
            &&& report.framebuffers@.len() > 0 && (forall|i: int|
                0 <= i < report.framebuffers@.len() ==> !profile.display.fits(
                    #[trigger] report.framebuffers@[i],
                )) ==> named.contains("framebuffer geometry or pixel capability does not match"@)
            &&& named.len() <= 3
        }),
{
    let prefixes = crate::text::texts(profile.identity.serial_prefixes@);
    let serial = profile.identity.serial_prefixes@.len() != 0 && report.identity.serial_prefix
        is Some && !prefixes.contains(report.identity.serial_prefix->0@);
    let firmware = profile.identity.firmware_versions@.len() != 0 && report.system.firmware@.len()
        != 0 && !firmware_is_reviewed(
        report.system.firmware@,
        crate::text::texts(profile.identity.firmware_versions@),
    );
    let framebuffer = report.framebuffers@.len() != 0 && !(exists|i: int|
        0 <= i < report.framebuffers@.len() && profile.display.fits(
            #[trigger] report.framebuffers@[i],
        ));
    let text = "serial prefix "@ + report.identity.serial_prefix->0@ + " is not reviewed"@;
    let none = Seq::<Seq<char>>::empty();
    let a = remark(serial, text);
    let b = a + remark(firmware, "firmware is not reviewed by this profile"@);
    remarks_are_held(none, serial, text);
    assert(none + a =~= a);
    remarks_are_held(a, firmware, "firmware is not reviewed by this profile"@);
    remarks_are_held(b, framebuffer, "framebuffer geometry or pixel capability does not match"@);
}

/// Each rule that a profile breaks is named, and those of its runtime selection
/// are among them.
pub proof fn law_broken_rules_are_named(profile: DeviceProfile)
    ensures
        ({
            let named = profile.violations();
            &&& profile.schema_version != 1 ==> named.contains(
                "unsupported profile schema version "@ + crate::text::decimal(
                    profile.schema_version as nat,
                ),
            )
            &&& profile.id@.len() == 0 || !CharSet::ProfileId.covers(profile.id@)
                ==> named.contains(
                "profile id must use lowercase ASCII letters, digits, '-' or '_'"@,
            )
            &&& profile.identity.serial_prefixes@.len() == 0 && profile.review_status
                != ProfileReviewStatus::EvidencePending ==> named.contains(
                "at least one reviewed serial prefix is required"@,
            )
            &&& profile.display.width == 0 || profile.display.height == 0 ==> named.contains(
                "profile display geometry must be non-zero"@,
            )
            &&& profile.display.bits_per_pixel == 0 ==> named.contains(
                "profile bits_per_pixel must be non-zero"@,
            )
            &&& profile.runtime matches Some(runtime) ==> forall|text: Seq<char>| #[trigger]
                runtime.violations(profile.display).contains(text) ==> named.contains(text)
        }),
{
    let schema = profile.schema_version != PROFILE_SCHEMA_VERSION;
    let told = "unsupported profile schema version "@ + crate::text::decimal(
        profile.schema_version as nat,
    );
    let id = profile.id@.len() == 0 || !CharSet::ProfileId.covers(profile.id@);
    let prefix = profile.identity.serial_prefixes@.len() == 0 && profile.review_status
        != ProfileReviewStatus::EvidencePending;
    let extent = profile.display.width == 0 || profile.display.height == 0;
    let depth = profile.display.bits_per_pixel == 0;
    let none = Seq::<Seq<char>>::empty();
    let a = remark(schema, told);
    let b = a + remark(id, "profile id must use lowercase ASCII letters, digits, '-' or '_'"@);
    let c = b + remark(prefix, "at least one reviewed serial prefix is required"@);
    let d = c + remark(extent, "profile display geometry must be non-zero"@);
    let e = d + remark(depth, "profile bits_per_pixel must be non-zero"@);
    let more = match profile.runtime {
        Some(runtime) => runtime.violations(profile.display),
        None => none,
    };
    remarks_are_held(none, schema, told);
    assert(none + a =~= a);
    remarks_are_held(a, id, "profile id must use lowercase ASCII letters, digits, '-' or '_'"@);
    remarks_are_held(b, prefix, "at least one reviewed serial prefix is required"@);
    remarks_are_held(c, extent, "profile display geometry must be non-zero"@);
    remarks_are_held(d, depth, "profile bits_per_pixel must be non-zero"@);
    crate::text::either_list_holds(e, more);
    assert(profile.violations() == e + more);
}

/// Each rule that a runtime selection breaks is named.
pub proof fn law_broken_selections_are_named(runtime: RuntimeSelection, display: DisplayMatch)
    ensures
        ({
            let named = runtime.violations(display);
            &&& !is_driver_id(runtime.framebuffer.driver_id@) ==> named.contains(
                "runtime framebuffer driver_id must use 1-64 ASCII letters, digits, or '_'"@,
            )
            &&& !is_touch_name(runtime.touch.name@) ==> named.contains(
                "runtime touch name must be 1-128 non-control characters"@,
            )
            &&& runtime.touch.x_axis_code == runtime.touch.y_axis_code ==> named.contains(
                "runtime touch X and Y axis codes must differ"@,
            )
            &&& runtime.refresh is Some && !runtime.refresh->0.partial && !runtime.refresh->0.full
                ==> named.contains("runtime refresh must enable partial or full updates"@)
            &&& runtime.refresh is Some && crate::text::optional_text(display.epdc_update_abi)
                != Some(abi_name(runtime.refresh->0.update_abi)) ==> named.contains(
                "runtime refresh ABI "@ + abi_name(runtime.refresh->0.update_abi)
                    + " does not match profile display ABI"@,
            )
        }),
{
    let driver = !is_driver_id(runtime.framebuffer.driver_id@);
    let touch = !is_touch_name(runtime.touch.name@);
    let axes = runtime.touch.x_axis_code == runtime.touch.y_axis_code;
    let modes = runtime.refresh is Some && !runtime.refresh->0.partial
        && !runtime.refresh->0.full;
    let abi = runtime.refresh is Some && crate::text::optional_text(display.epdc_update_abi)
        != Some(abi_name(runtime.refresh->0.update_abi));
    let told = "runtime refresh ABI "@ + abi_name(runtime.refresh->0.update_abi)
        + " does not match profile display ABI"@;
    let one = "runtime framebuffer driver_id must use 1-64 ASCII letters, digits, or '_'"@;
    let two = "runtime touch name must be 1-128 non-control characters"@;
    let three = "runtime touch X and Y axis codes must differ"@;
    let four = "runtime refresh must enable partial or full updates"@;
    let none = Seq::<Seq<char>>::empty();
    let a = remark(driver, one);
    let b = a + remark(touch, two);
    let c = b + remark(axes, three);
    let d = c + remark(modes, four);
    remarks_are_held(none, driver, one);
    assert(none + a =~= a);
    remarks_are_held(a, touch, two);
    remarks_are_held(b, axes, three);
    remarks_are_held(c, modes, four);
    remarks_are_held(d, abi, told);
    assert(runtime.violations(display) == d + remark(abi, told));
}

} // verus!
