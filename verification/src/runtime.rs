//! Fail-closed resolution from reviewed profiles and passive reports.

use crate::display_trace::DisplayUpdateAbiKind;
use crate::framebuffer::{FramebufferLayoutError, Gray8FramebufferLayout};
use crate::input_event::{InputEventDecodeError, InputEventDecoder, InputEventRecordLayout};
use crate::nonzero::NonZeroU32;
use crate::probe::{
    ElfClass, Endianness, FramebufferCapability, InputAxisCapability, InputDeviceCapability,
    InputEventAbi, ProbeReport,
};
use crate::profile::{
    DeviceProfile, ProfileEvaluation, ProfileEvaluationStatus, ProfileReviewStatus,
    RuntimeRefreshSelection, RuntimeSelection, StockRepaintMechanism,
};
use crate::refresh::{RefreshCapabilities, RefreshCapabilityError, RefreshMode};
use crate::text::{optional_is, push_decimal, push_signed_decimal, str_eq};
use crate::trace::numbered;
use crate::transform::{AxisRange, DisplayExtent, InputTransform, QuarterTurn, TransformError};
use crate::wording::push_quoted_list;
use vstd::prelude::*;

verus! {

/// Maximum integration authority carried by a resolved profile.
#[derive(Debug, Clone, Copy, PartialEq, Eq, Structural)]
pub enum RuntimeAuthority {
    /// Manual foreground execution only; never a boot-default claim.
    ForegroundOnly,
    /// The profile itself has passed the separately defined support gates.
    SupportedProfile,
}

/// Reviewed refresh capability resolved for one exact request ABI.
#[derive(Debug, Clone, Copy, PartialEq, Eq, Structural)]
pub struct ResolvedRefreshConfig {
    update_abi: DisplayUpdateAbiKind,
    capabilities: RefreshCapabilities,
}

impl ResolvedRefreshConfig {
    /// The request layout.
    pub closed spec fn spec_update_abi(self) -> DisplayUpdateAbiKind {
        self.update_abi
    }

    /// The refresh capability.
    pub closed spec fn spec_capabilities(self) -> RefreshCapabilities {
        self.capabilities
    }

    /// Returns the exact reviewed request layout.
    #[verifier::when_used_as_spec(spec_update_abi)]
    pub fn update_abi(self) -> (abi: DisplayUpdateAbiKind)
        ensures
            abi == self.spec_update_abi(),
    {
        self.update_abi
    }

    /// Returns the toolkit-neutral reviewed refresh capability.
    #[verifier::when_used_as_spec(spec_capabilities)]
    pub fn capabilities(self) -> (capabilities: RefreshCapabilities)
        ensures
            capabilities == self.spec_capabilities(),
    {
        self.capabilities
    }

    /// Whether the configuration offers exactly what was selected.
    pub open spec fn offers(self, selection: RuntimeRefreshSelection) -> bool {
        &&& self.update_abi() == selection.update_abi
        &&& self.capabilities().supports(RefreshMode::Partial) == selection.partial
        &&& self.capabilities().supports(RefreshMode::Full) == selection.full
        &&& self.capabilities().maximum_completion_wait_millis()
            == selection.maximum_completion_wait_millis
    }
}

/// Fully resolved host-side runtime configuration for one passive report.
///
/// Construction validates all owned values. This type opens no paths and
/// carries no standing authorization to perform device I/O.
#[derive(Debug, Clone, PartialEq, Eq)]
pub struct ResolvedRuntimeDevice {
    profile_id: String,
    authority: RuntimeAuthority,
    framebuffer_path: String,
    framebuffer_capability: FramebufferCapability,
    framebuffer_layout: Gray8FramebufferLayout,
    framebuffer_rotation: QuarterTurn,
    input_path: String,
    input_name: String,
    input_capability: InputDeviceCapability,
    input_event_abi: InputEventAbi,
    input_endianness: Endianness,
    input_transform: InputTransform,
    refresh: Option<ResolvedRefreshConfig>,
    stock_repaint: Option<StockRepaintMechanism>,
}

/// The framebuffers of a report that a profile selects.
pub open spec fn selected_framebuffers(
    profile: DeviceProfile,
    runtime: RuntimeSelection,
    report: ProbeReport,
) -> Seq<FramebufferCapability> {
    report.framebuffers@.filter(
        |framebuffer: FramebufferCapability|
            framebuffer.driver_id@ == runtime.framebuffer.driver_id@ && profile.display.fits(
                framebuffer,
            ),
    )
}

/// The touch devices of a report that a profile selects.
pub open spec fn selected_touches(
    runtime: RuntimeSelection,
    report: ProbeReport,
) -> Seq<InputDeviceCapability> {
    report.inputs@.filter(
        |input: InputDeviceCapability|
            crate::text::optional_text(input.name) == Some(runtime.touch.name@),
    )
}

/// The axes of a device with the given code.
pub open spec fn selected_axes(input: InputDeviceCapability, code: u16) -> Seq<
    InputAxisCapability,
> {
    input.axes@.filter(|axis: InputAxisCapability| axis.code == code)
}

/// Why the axis with the given code cannot be used, if it cannot.
pub open spec fn axis_problem(input: InputDeviceCapability, code: u16) -> Option<
    RuntimeResolutionError,
> {
    let axes = selected_axes(input, code);
    if axes.len() == 0 {
        Some(RuntimeResolutionError::TouchAxisNotFound { code })
    } else if axes.len() > 1 {
        Some(RuntimeResolutionError::TouchAxisAmbiguous { code, count: axes.len() as usize })
    } else if axes[0].minimum >= axes[0].maximum {
        Some(
            RuntimeResolutionError::TouchAxisRange {
                code,
                minimum: axes[0].minimum,
                maximum: axes[0].maximum,
            },
        )
    } else {
        None
    }
}

/// Whether an executable's word size fits the pointer width of its input
/// events.
pub open spec fn class_fits(class: ElfClass, pointer_width_bits: u16) -> bool {
    match class {
        ElfClass::Elf32 => pointer_width_bits == 32,
        ElfClass::Elf64 => pointer_width_bits == 64,
    }
}

/// Whether profile and report keep their own rules.
pub open spec fn inputs_are_valid(profile: DeviceProfile, report: ProbeReport) -> bool {
    profile.violations().len() == 0 && report.violations().len() == 0
}

/// What stands against a resolution before the two are compared.
pub open spec fn review_problem(profile: DeviceProfile, report: ProbeReport) -> Option<
    RuntimeResolutionError,
> {
    if report.warnings@.len() > 0 {
        Some(
            RuntimeResolutionError::ProbeWarningsPresent { count: report.warnings@.len() as usize },
        )
    } else if profile.review_status == ProfileReviewStatus::EvidencePending {
        Some(RuntimeResolutionError::ProfileEvidencePending)
    } else {
        None
    }
}

/// What stands against the selected framebuffer.
pub open spec fn framebuffer_problem(
    profile: DeviceProfile,
    runtime: RuntimeSelection,
    report: ProbeReport,
) -> Option<RuntimeResolutionError> {
    let framebuffers = selected_framebuffers(profile, runtime, report);
    if framebuffers.len() == 0 {
        Some(RuntimeResolutionError::FramebufferNotFound)
    } else if framebuffers.len() > 1 {
        Some(RuntimeResolutionError::FramebufferAmbiguous { count: framebuffers.len() as usize })
    } else if !crate::trace::is_numbered(framebuffers[0].device@, "/dev/fb"@) {
        Some(RuntimeResolutionError::InvalidFramebufferPath)
    } else {
        match crate::framebuffer::capability_problem(framebuffers[0]) {
            Some(error) => Some(RuntimeResolutionError::FramebufferLayout(error)),
            None => match QuarterTurn::of_linux_framebuffer(framebuffers[0].rotation) {
                Err(error) => Some(RuntimeResolutionError::FramebufferRotation(error)),
                Ok(_) => None,
            },
        }
    }
}

/// What stands against the selected touch device.
pub open spec fn touch_problem(runtime: RuntimeSelection, report: ProbeReport) -> Option<
    RuntimeResolutionError,
> {
    let touches = selected_touches(runtime, report);
    if touches.len() == 0 {
        Some(RuntimeResolutionError::TouchNotFound)
    } else if touches.len() > 1 {
        Some(RuntimeResolutionError::TouchAmbiguous { count: touches.len() as usize })
    } else if !crate::trace::is_numbered(touches[0].device@, "/dev/input/event"@) {
        Some(RuntimeResolutionError::InvalidInputPath)
    } else if axis_problem(touches[0], runtime.touch.x_axis_code) is Some {
        axis_problem(touches[0], runtime.touch.x_axis_code)
    } else {
        axis_problem(touches[0], runtime.touch.y_axis_code)
    }
}

/// What stands against the layout of input events.
pub open spec fn event_problem(report: ProbeReport) -> Option<RuntimeResolutionError> {
    match report.system.executable_abi {
        None => Some(RuntimeResolutionError::ExecutableAbiMissing),
        Some(executable) => {
            let abi = report.system.input_event_abi;
            if !class_fits(executable.class, abi.pointer_width_bits) {
                Some(
                    RuntimeResolutionError::ExecutableInputAbiMismatch {
                        class: executable.class,
                        pointer_width_bits: abi.pointer_width_bits,
                    },
                )
            } else {
                match InputEventRecordLayout::of_abi(abi) {
                    Err(error) => Some(RuntimeResolutionError::InputEventAbi(error)),
                    Ok(_) => None,
                }
            }
        },
    }
}

/// What stands against a resolution once profile and report match.
pub open spec fn selection_problem(profile: DeviceProfile, report: ProbeReport) -> Option<
    RuntimeResolutionError,
> {
    match profile.runtime {
        None => Some(RuntimeResolutionError::RuntimePolicyMissing),
        Some(runtime) => if framebuffer_problem(profile, runtime, report) is Some {
            framebuffer_problem(profile, runtime, report)
        } else if touch_problem(runtime, report) is Some {
            touch_problem(runtime, report)
        } else {
            event_problem(report)
        },
    }
}

/// One more item passes the filter, or none.
proof fn filter_one_more<A>(s: Seq<A>, pred: spec_fn(A) -> bool, i: int)
    requires
        0 <= i < s.len(),
    ensures
        s.take(i + 1).filter(pred) == (if pred(s[i]) {
            s.take(i).filter(pred).push(s[i])
        } else {
            s.take(i).filter(pred)
        }),
{
    reveal(Seq::filter);
    assert(s.take(i + 1).drop_last() =~= s.take(i));
}

proof fn filter_none<A>(s: Seq<A>, pred: spec_fn(A) -> bool)
    ensures
        s.take(0).filter(pred).len() == 0,
{
    reveal(Seq::filter);
}

fn select_framebuffer<'a>(
    profile: &DeviceProfile,
    report: &'a ProbeReport,
    runtime: &RuntimeSelection,
) -> (result: Result<&'a FramebufferCapability, RuntimeResolutionError>)
    ensures
        ({
            let framebuffers = selected_framebuffers(*profile, *runtime, *report);
            match result {
                Ok(framebuffer) => framebuffers.len() == 1 && framebuffers[0] == *framebuffer,
                Err(error) => framebuffers.len() != 1 && Some(error) == framebuffer_problem(
                    *profile,
                    *runtime,
                    *report,
                ),
            }
        }),
{
    let ghost pred = |framebuffer: FramebufferCapability|
        framebuffer.driver_id@ == runtime.framebuffer.driver_id@ && profile.display.fits(
            framebuffer,
        );
    let all: &'a Vec<FramebufferCapability> = &report.framebuffers;
    let mut first: usize = 0;
    let mut count: usize = 0;
    proof {
        filter_none(all@, pred);
    }
    for i in 0..all.len()
        invariant
            pred == (|framebuffer: FramebufferCapability|
                framebuffer.driver_id@ == runtime.framebuffer.driver_id@ && profile.display.fits(
                    framebuffer,
                )),
            count <= i,
            count == all@.take(i as int).filter(pred).len(),
            count > 0 ==> first < i && all@[first as int] == all@.take(i as int).filter(pred)[0],
    {
        proof {
            filter_one_more(all@, pred, i as int);
        }
        if str_eq(all[i].driver_id.as_str(), runtime.framebuffer.driver_id.as_str())
            && profile.display.test_fits(&all[i]) {
            if count == 0 {
                first = i;
            }
            count = count + 1;
        }
    }
    assert(all@.take(all@.len() as int) =~= all@);
    if count == 0 {
        Err(RuntimeResolutionError::FramebufferNotFound)
    } else if count == 1 {
        Ok(&all[first])
    } else {
        Err(RuntimeResolutionError::FramebufferAmbiguous { count })
    }
}

fn select_touch<'a>(report: &'a ProbeReport, runtime: &RuntimeSelection) -> (result: Result<
    &'a InputDeviceCapability,
    RuntimeResolutionError,
>)
    ensures
        ({
            let touches = selected_touches(*runtime, *report);
            match result {
                Ok(input) => touches.len() == 1 && touches[0] == *input,
                Err(error) => touches.len() != 1 && Some(error) == touch_problem(*runtime, *report),
            }
        }),
{
    let ghost pred = |input: InputDeviceCapability|
        crate::text::optional_text(input.name) == Some(runtime.touch.name@);
    let all: &'a Vec<InputDeviceCapability> = &report.inputs;
    let mut first: usize = 0;
    let mut count: usize = 0;
    proof {
        filter_none(all@, pred);
    }
    for i in 0..all.len()
        invariant
            pred == (|input: InputDeviceCapability|
                crate::text::optional_text(input.name) == Some(runtime.touch.name@)),
            count <= i,
            count == all@.take(i as int).filter(pred).len(),
            count > 0 ==> first < i && all@[first as int] == all@.take(i as int).filter(pred)[0],
    {
        proof {
            filter_one_more(all@, pred, i as int);
        }
        if optional_is(&all[i].name, runtime.touch.name.as_str()) {
            if count == 0 {
                first = i;
            }
            count = count + 1;
        }
    }
    assert(all@.take(all@.len() as int) =~= all@);
    if count == 0 {
        Err(RuntimeResolutionError::TouchNotFound)
    } else if count == 1 {
        Ok(&all[first])
    } else {
        Err(RuntimeResolutionError::TouchAmbiguous { count })
    }
}

fn select_axis(input: &InputDeviceCapability, code: u16) -> (result: Result<
    AxisRange,
    RuntimeResolutionError,
>)
    ensures
        match result {
            Ok(range) => {
                &&& axis_problem(*input, code) is None
                &&& range.minimum() == selected_axes(*input, code)[0].minimum
                &&& range.maximum() == selected_axes(*input, code)[0].maximum
            },
            Err(error) => axis_problem(*input, code) == Some(error),
        },
{
    let ghost pred = |axis: InputAxisCapability| axis.code == code;
    let all: &Vec<InputAxisCapability> = &input.axes;
    let mut first: usize = 0;
    let mut count: usize = 0;
    proof {
        filter_none(all@, pred);
    }
    for i in 0..all.len()
        invariant
            pred == (|axis: InputAxisCapability| axis.code == code),
            count <= i,
            count == all@.take(i as int).filter(pred).len(),
            count > 0 ==> first < i && all@[first as int] == all@.take(i as int).filter(pred)[0],
    {
        proof {
            filter_one_more(all@, pred, i as int);
        }
        if all[i].code == code {
            if count == 0 {
                first = i;
            }
            count = count + 1;
        }
    }
    assert(all@.take(all@.len() as int) =~= all@);
    if count == 0 {
        return Err(RuntimeResolutionError::TouchAxisNotFound { code });
    }
    if count > 1 {
        return Err(RuntimeResolutionError::TouchAxisAmbiguous { code, count });
    }
    let minimum: i32 = all[first].minimum;
    let maximum: i32 = all[first].maximum;
    match AxisRange::try_new(minimum, maximum) {
        Ok(range) => Ok(range),
        Err(_) => Err(RuntimeResolutionError::TouchAxisRange { code, minimum, maximum }),
    }
}

/// Returns the extent that becomes `visible` when it is turned.
fn extent_before_rotation(visible: DisplayExtent, rotation: QuarterTurn) -> (extent: DisplayExtent)
    ensures
        (extent.width() as int, extent.height() as int) == crate::transform::rotated_extent(
            visible.width() as int,
            visible.height() as int,
            rotation,
        ),
        crate::transform::rotated_extent(extent.width() as int, extent.height() as int, rotation)
            == (visible.width() as int, visible.height() as int),
{
    match rotation {
        QuarterTurn::Upright | QuarterTurn::UpsideDown => visible,
        QuarterTurn::Clockwise | QuarterTurn::CounterClockwise => {
            DisplayExtent::new(visible.non_zero_height(), visible.non_zero_width())
        },
    }
}

fn resolve_refresh(selection: RuntimeRefreshSelection) -> (result: Result<
    ResolvedRefreshConfig,
    RuntimeResolutionError,
>)
    ensures
        match result {
            Ok(config) => (selection.partial || selection.full) && config.offers(selection),
            Err(error) => !selection.partial && !selection.full && error
                == RuntimeResolutionError::RefreshCapability(
                RefreshCapabilityError::NoRefreshModes,
            ),
        },
{
    match RefreshCapabilities::try_new(
        selection.partial,
        selection.full,
        selection.maximum_completion_wait_millis,
    ) {
        Ok(capabilities) => Ok(
            ResolvedRefreshConfig { update_abi: selection.update_abi, capabilities },
        ),
        Err(error) => Err(RuntimeResolutionError::RefreshCapability(error)),
    }
}

/// The transform is the reviewed one, and ends at the visible display.
pub open spec fn is_reviewed_transform(
    transform: InputTransform,
    runtime: RuntimeSelection,
    input: InputDeviceCapability,
    framebuffer: FramebufferCapability,
) -> bool {
    let x = selected_axes(input, runtime.touch.x_axis_code)[0];
    let y = selected_axes(input, runtime.touch.y_axis_code)[0];
    &&& transform.raw_x().minimum() == x.minimum
    &&& transform.raw_x().maximum() == x.maximum
    &&& transform.raw_y().minimum() == y.minimum
    &&& transform.raw_y().maximum() == y.maximum
    &&& transform.swap_xy() == runtime.touch.swap_xy
    &&& transform.invert_x() == runtime.touch.invert_x
    &&& transform.invert_y() == runtime.touch.invert_y
    &&& transform.rotation() == runtime.touch.rotation
    &&& crate::transform::rotated_extent(
        transform.display().width() as int,
        transform.display().height() as int,
        transform.rotation(),
    ) == (framebuffer.visible_width as int, framebuffer.visible_height as int)
}

/// The layout is that of the framebuffer.
pub open spec fn is_layout_of(
    layout: Gray8FramebufferLayout,
    framebuffer: FramebufferCapability,
) -> bool {
    &&& layout.visible().width() == framebuffer.visible_width
    &&& layout.visible().height() == framebuffer.visible_height
    &&& layout.virtual_extent().width() == framebuffer.virtual_width
    &&& layout.virtual_extent().height() == framebuffer.virtual_height
    &&& layout.x_offset() == framebuffer.x_offset
    &&& layout.y_offset() == framebuffer.y_offset
    &&& layout.line_length() == framebuffer.line_length
    &&& layout.memory_length() == framebuffer.memory_length
}

/// A valid profile with a refresh selection enables a refresh mode.
proof fn valid_profiles_enable_a_mode(profile: DeviceProfile)
    requires
        profile.violations().len() == 0,
        profile.runtime is Some,
        profile.runtime->0.refresh is Some,
    ensures
        profile.runtime->0.refresh->0.partial || profile.runtime->0.refresh->0.full,
{
    let runtime = profile.runtime->0;
    let violations = runtime.violations(profile.display);
    assert(profile.violations().len() >= violations.len());
}

impl ResolvedRuntimeDevice {
    /// The profile identifier.
    pub closed spec fn spec_profile_id(&self) -> Seq<char> {
        self.profile_id@
    }

    /// The authority.
    pub closed spec fn spec_authority(&self) -> RuntimeAuthority {
        self.authority
    }

    /// The framebuffer path.
    pub closed spec fn spec_framebuffer_path(&self) -> Seq<char> {
        self.framebuffer_path@
    }

    /// The selected framebuffer.
    pub closed spec fn spec_framebuffer_capability(&self) -> FramebufferCapability {
        self.framebuffer_capability
    }

    /// The memory layout.
    pub closed spec fn spec_framebuffer_layout(&self) -> Gray8FramebufferLayout {
        self.framebuffer_layout
    }

    /// The framebuffer rotation.
    pub closed spec fn spec_framebuffer_rotation(&self) -> QuarterTurn {
        self.framebuffer_rotation
    }

    /// The input path.
    pub closed spec fn spec_input_path(&self) -> Seq<char> {
        self.input_path@
    }

    /// The input name.
    pub closed spec fn spec_input_name(&self) -> Seq<char> {
        self.input_name@
    }

    /// The selected input device.
    pub closed spec fn spec_input_capability(&self) -> InputDeviceCapability {
        self.input_capability
    }

    /// The layout of input events.
    pub closed spec fn spec_input_event_abi(&self) -> InputEventAbi {
        self.input_event_abi
    }

    /// The byte order of input events.
    pub closed spec fn spec_input_endianness(&self) -> Endianness {
        self.input_endianness
    }

    /// The touch transform.
    pub closed spec fn spec_input_transform(&self) -> InputTransform {
        self.input_transform
    }

    /// The refresh configuration.
    pub closed spec fn spec_refresh(&self) -> Option<ResolvedRefreshConfig> {
        self.refresh
    }

    /// The stock-return action.
    pub closed spec fn spec_stock_repaint(&self) -> Option<StockRepaintMechanism> {
        self.stock_repaint
    }

    /// Whether the device is the one that profile and report describe.
    pub open spec fn is_resolution_of(&self, profile: DeviceProfile, report: ProbeReport) -> bool {
        let runtime = profile.runtime->0;
        let framebuffer = selected_framebuffers(profile, runtime, report)[0];
        let input = selected_touches(runtime, report)[0];
        &&& self.spec_profile_id() == profile.id@
        &&& self.spec_authority() == (if profile.review_status == ProfileReviewStatus::Supported {
            RuntimeAuthority::SupportedProfile
        } else {
            RuntimeAuthority::ForegroundOnly
        })
        &&& self.spec_framebuffer_path() == framebuffer.device@
        &&& self.spec_framebuffer_capability() == framebuffer
        &&& is_layout_of(self.spec_framebuffer_layout(), framebuffer)
        &&& QuarterTurn::of_linux_framebuffer(framebuffer.rotation) == Ok::<_, TransformError>(
            self.spec_framebuffer_rotation(),
        )
        &&& self.spec_input_path() == input.device@
        &&& self.spec_input_name() == runtime.touch.name@
        &&& self.spec_input_capability().same_as(input)
        &&& self.spec_input_event_abi() == report.system.input_event_abi
        &&& self.spec_input_endianness() == report.system.executable_abi->0.endianness
        &&& is_reviewed_transform(self.spec_input_transform(), runtime, input, framebuffer)
        &&& match (self.spec_refresh(), runtime.refresh) {
            (Some(config), Some(selection)) => config.offers(selection),
            (None, None) => true,
            _ => false,
        }
        &&& self.spec_stock_repaint() == runtime.stock_repaint
    }

    /// Resolves one reviewed profile against one fresh passive report.
    ///
    /// The selection is unique and fail-closed: report warnings, incomplete
    /// review, missing runtime policy, ambiguous devices, invalid paths,
    /// unsupported layout or ABI, missing axes and profile mismatches all fail.
    pub fn resolve(profile: &DeviceProfile, report: &ProbeReport) -> (result: Result<
        Self,
        RuntimeResolutionError,
    >)
        ensures
            match result {
                Ok(device) => {
                    &&& inputs_are_valid(*profile, *report)
                    &&& review_problem(*profile, *report) is None
                    &&& profile.outcome(*report) == ProfileEvaluationStatus::Match
                    &&& selection_problem(*profile, *report) is None
                    &&& device.is_resolution_of(*profile, *report)
                },
                Err(RuntimeResolutionError::InvalidProfile(errors)) => {
                    &&& profile.violations().len() > 0
                    &&& crate::text::texts(errors@) == profile.violations()
                },
                Err(RuntimeResolutionError::InvalidReport(errors)) => {
                    &&& profile.violations().len() == 0
                    &&& report.violations().len() > 0
                    &&& crate::text::texts(errors@) == report.violations()
                },
                Err(RuntimeResolutionError::ProfileDidNotMatch(evaluation)) => {
                    &&& inputs_are_valid(*profile, *report)
                    &&& review_problem(*profile, *report) is None
                    &&& profile.outcome(*report) != ProfileEvaluationStatus::Match
                    &&& evaluation.status == profile.outcome(*report)
                    &&& crate::text::texts(evaluation.missing@) == profile.missing_from(*report)
                    &&& crate::text::texts(evaluation.mismatches@) == profile.mismatches_with(
                        *report,
                    )
                },
                Err(error) => {
                    &&& inputs_are_valid(*profile, *report)
                    &&& review_problem(*profile, *report) == Some(error) || {
                        &&& review_problem(*profile, *report) is None
                        &&& profile.outcome(*report) == ProfileEvaluationStatus::Match
                        &&& selection_problem(*profile, *report) == Some(error)
                    }
                },
            },
    {
        if let Err(errors) = profile.validate() {
            return Err(RuntimeResolutionError::InvalidProfile(errors));
        }
        if let Err(errors) = report.validate() {
            return Err(RuntimeResolutionError::InvalidReport(errors));
        }
        if report.warnings.len() > 0 {
            return Err(
                RuntimeResolutionError::ProbeWarningsPresent { count: report.warnings.len() },
            );
        }
        let authority: RuntimeAuthority = match profile.review_status {
            ProfileReviewStatus::EvidencePending => {
                return Err(RuntimeResolutionError::ProfileEvidencePending);
            },
            ProfileReviewStatus::ObservedForeground => RuntimeAuthority::ForegroundOnly,
            ProfileReviewStatus::Supported => RuntimeAuthority::SupportedProfile,
        };
        let evaluation: ProfileEvaluation = profile.evaluate(report);
        if evaluation.status != ProfileEvaluationStatus::Match {
            return Err(RuntimeResolutionError::ProfileDidNotMatch(evaluation));
        }
        match &profile.runtime {
            Some(runtime) => Self::resolve_selection(profile, report, runtime, authority),
            None => Err(RuntimeResolutionError::RuntimePolicyMissing),
        }
    }

    /// Resolves a matching profile whose runtime policy is known.
    fn resolve_selection(
        profile: &DeviceProfile,
        report: &ProbeReport,
        runtime: &RuntimeSelection,
        authority: RuntimeAuthority,
    ) -> (result: Result<Self, RuntimeResolutionError>)
        requires
            profile.violations().len() == 0,
            profile.runtime == Some(*runtime),
            authority == (if profile.review_status == ProfileReviewStatus::Supported {
                RuntimeAuthority::SupportedProfile
            } else {
                RuntimeAuthority::ForegroundOnly
            }),
        ensures
            match result {
                Ok(device) => {
                    &&& selection_problem(*profile, *report) is None
                    &&& device.is_resolution_of(*profile, *report)
                },
                Err(error) => {
                    &&& selection_problem(*profile, *report) == Some(error)
                    &&& !(error is InvalidProfile)
                    &&& !(error is InvalidReport)
                    &&& !(error is ProfileDidNotMatch)
                },
            },
    {
        let framebuffer: &FramebufferCapability = match select_framebuffer(
            profile,
            report,
            runtime,
        ) {
            Ok(framebuffer) => framebuffer,
            Err(error) => {
                return Err(error);
            },
        };
        if !numbered(framebuffer.device.as_str(), "/dev/fb") {
            return Err(RuntimeResolutionError::InvalidFramebufferPath);
        }
        let framebuffer_layout: Gray8FramebufferLayout =
            match Gray8FramebufferLayout::try_from_capability(framebuffer) {
            Ok(layout) => layout,
            Err(error) => {
                return Err(RuntimeResolutionError::FramebufferLayout(error));
            },
        };
        let framebuffer_rotation: QuarterTurn = match QuarterTurn::try_from_linux_framebuffer(
            framebuffer.rotation,
        ) {
            Ok(rotation) => rotation,
            Err(error) => {
                return Err(RuntimeResolutionError::FramebufferRotation(error));
            },
        };
        assert(framebuffer_problem(*profile, *runtime, *report) is None);
        let input: &InputDeviceCapability = match select_touch(report, runtime) {
            Ok(input) => input,
            Err(error) => {
                return Err(error);
            },
        };
        if !numbered(input.device.as_str(), "/dev/input/event") {
            return Err(RuntimeResolutionError::InvalidInputPath);
        }
        let raw_x: AxisRange = match select_axis(input, runtime.touch.x_axis_code) {
            Ok(range) => range,
            Err(error) => {
                return Err(error);
            },
        };
        let raw_y: AxisRange = match select_axis(input, runtime.touch.y_axis_code) {
            Ok(range) => range,
            Err(error) => {
                return Err(error);
            },
        };
        assert(touch_problem(*runtime, *report) is None);
        let extent: DisplayExtent = extent_before_rotation(
            framebuffer_layout.visible(),
            runtime.touch.rotation,
        );
        let input_transform: InputTransform = InputTransform::new(raw_x, raw_y, extent)
            .with_swap_xy(runtime.touch.swap_xy)
            .with_invert_x(runtime.touch.invert_x)
            .with_invert_y(runtime.touch.invert_y)
            .with_rotation(runtime.touch.rotation);
        let output: DisplayExtent = input_transform.output_extent();
        proof {
            DisplayExtent::dimensions_determine_extent(output, framebuffer_layout.visible());
        }
        if output != framebuffer_layout.visible() {
            return Err(RuntimeResolutionError::InputOutputExtentMismatch);
        }
        let (class, endianness): (ElfClass, Endianness) = match &report.system.executable_abi {
            Some(executable) => (executable.class, executable.endianness),
            None => {
                return Err(RuntimeResolutionError::ExecutableAbiMissing);
            },
        };
        let abi: InputEventAbi = report.system.input_event_abi;
        let fits: bool = match class {
            ElfClass::Elf32 => abi.pointer_width_bits == 32,
            ElfClass::Elf64 => abi.pointer_width_bits == 64,
        };
        if !fits {
            return Err(
                RuntimeResolutionError::ExecutableInputAbiMismatch {
                    class,
                    pointer_width_bits: abi.pointer_width_bits,
                },
            );
        }
        if let Err(error) = InputEventDecoder::try_new(abi, endianness, NonZeroU32::one()) {
            return Err(RuntimeResolutionError::InputEventAbi(error));
        }
        let refresh: Option<ResolvedRefreshConfig> = match runtime.refresh {
            Some(selection) => {
                proof {
                    valid_profiles_enable_a_mode(*profile);
                }
                match resolve_refresh(selection) {
                    Ok(config) => Some(config),
                    Err(error) => {
                        return Err(error);
                    },
                }
            },
            None => None,
        };
        Ok(
            ResolvedRuntimeDevice {
                profile_id: profile.id.clone(),
                authority,
                framebuffer_path: framebuffer.device.clone(),
                framebuffer_capability: framebuffer.copy(),
                framebuffer_layout,
                framebuffer_rotation,
                input_path: input.device.clone(),
                input_name: runtime.touch.name.clone(),
                input_capability: input.copy(),
                input_event_abi: abi,
                input_endianness: endianness,
                input_transform,
                refresh,
                stock_repaint: runtime.stock_repaint,
            },
        )
    }

    /// Returns the reviewed profile identifier.
    pub fn profile_id(&self) -> (id: &str)
        ensures
            id@ == self.spec_profile_id(),
    {
        self.profile_id.as_str()
    }

    /// Returns the maximum integration authority of this resolution.
    pub fn authority(&self) -> (authority: RuntimeAuthority)
        ensures
            authority == self.spec_authority(),
    {
        self.authority
    }

    /// Returns the current numbered framebuffer path from the passive report.
    pub fn framebuffer_path(&self) -> (path: &str)
        ensures
            path@ == self.spec_framebuffer_path(),
    {
        self.framebuffer_path.as_str()
    }

    /// Returns the exact passive framebuffer capability selected at resolution.
    ///
    /// A concrete adapter must query and compare this snapshot again after
    /// opening the descriptor and before mapping or writing framebuffer memory.
    pub fn framebuffer_capability(&self) -> (capability: &FramebufferCapability)
        ensures
            *capability == self.spec_framebuffer_capability(),
    {
        &self.framebuffer_capability
    }

    /// Returns the validated Gray8 layout.
    pub fn framebuffer_layout(&self) -> (layout: Gray8FramebufferLayout)
        ensures
            layout == self.spec_framebuffer_layout(),
    {
        self.framebuffer_layout
    }

    /// Returns checked framebuffer rotation metadata.
    pub fn framebuffer_rotation(&self) -> (rotation: QuarterTurn)
        ensures
            rotation == self.spec_framebuffer_rotation(),
    {
        self.framebuffer_rotation
    }

    /// Returns the current numbered input path from the passive report.
    pub fn input_path(&self) -> (path: &str)
        ensures
            path@ == self.spec_input_path(),
    {
        self.input_path.as_str()
    }

    /// Returns the exact reviewed kernel input name.
    pub fn input_name(&self) -> (name: &str)
        ensures
            name@ == self.spec_input_name(),
    {
        self.input_name.as_str()
    }

    /// Returns the exact passive input capability selected at resolution.
    ///
    /// A concrete adapter must query and compare this snapshot again after
    /// opening the descriptor and before reading events or requesting a grab.
    pub fn input_capability(&self) -> (capability: &InputDeviceCapability)
        ensures
            *capability == self.spec_input_capability(),
    {
        &self.input_capability
    }

    /// Returns the probed raw-event ABI.
    pub fn input_event_abi(&self) -> (abi: InputEventAbi)
        ensures
            abi == self.spec_input_event_abi(),
    {
        self.input_event_abi
    }

    /// Returns the byte order used by the raw-event decoder.
    pub fn input_endianness(&self) -> (endianness: Endianness)
        ensures
            endianness == self.spec_input_endianness(),
    {
        self.input_endianness
    }

    /// Returns the reviewed raw-touch to physical-display transform.
    pub fn input_transform(&self) -> (transform: InputTransform)
        ensures
            transform == self.spec_input_transform(),
    {
        self.input_transform
    }

    /// Returns reviewed refresh readiness, absent when the exact ABI is open.
    pub fn refresh(&self) -> (refresh: Option<ResolvedRefreshConfig>)
        ensures
            refresh == self.spec_refresh(),
    {
        self.refresh
    }

    /// Returns the live-reviewed stock-return action, if one has passed.
    pub fn stock_repaint(&self) -> (stock_repaint: Option<StockRepaintMechanism>)
        ensures
            stock_repaint == self.spec_stock_repaint(),
    {
        self.stock_repaint
    }
}

/// A touch that a resolved device maps always lands on its visible display.
pub proof fn law_resolved_touches_land_on_the_display(
    device: ResolvedRuntimeDevice,
    profile: DeviceProfile,
    report: ProbeReport,
    raw: crate::transform::RawPoint,
)
    requires
        selection_problem(profile, report) is None,
        device.is_resolution_of(profile, report),
    ensures
        0 <= device.spec_input_transform().mapped(raw).0
            < device.spec_framebuffer_capability().visible_width,
        0 <= device.spec_input_transform().mapped(raw).1
            < device.spec_framebuffer_capability().visible_height,
{
    let runtime = profile.runtime->0;
    let input = selected_touches(runtime, report)[0];
    let framebuffer = selected_framebuffers(profile, runtime, report)[0];
    assert(framebuffer_problem(profile, runtime, report) is None);
    assert(touch_problem(runtime, report) is None);
    assert(axis_problem(input, runtime.touch.x_axis_code) is None);
    assert(axis_problem(input, runtime.touch.y_axis_code) is None);
    assert(crate::framebuffer::capability_problem(framebuffer) is None);
    crate::transform::law_mapping_stays_inside(device.spec_input_transform(), raw);
}

/// Nothing is resolved from a report with warnings, from a profile whose
/// evidence is pending, or from two that do not match.
pub proof fn law_resolution_fails_closed(profile: DeviceProfile, report: ProbeReport)
    requires
        report.warnings@.len() > 0 || profile.review_status
            == ProfileReviewStatus::EvidencePending,
    ensures
        review_problem(profile, report) is Some,
{
}

/// A profile/report pair that cannot produce a safe runtime configuration.
#[derive(Debug, PartialEq, Eq)]
#[allow(inconsistent_fields)]
#[non_exhaustive]
pub enum RuntimeResolutionError {
    /// The profile object violated its own schema invariants.
    InvalidProfile(Vec<String>),
    /// The passive report violated its own schema invariants.
    InvalidReport(Vec<String>),
    /// A report with diagnostic warnings cannot enable a runtime path.
    ProbeWarningsPresent { count: usize },
    /// Evidence-pending profiles cannot be resolved for execution.
    ProfileEvidencePending,
    /// Identity, firmware, display, or required capabilities did not match.
    ProfileDidNotMatch(ProfileEvaluation),
    /// The profile has no runtime policy.
    RuntimePolicyMissing,
    /// No framebuffer matched both profile geometry and reviewed driver.
    FramebufferNotFound,
    /// More than one framebuffer matched the reviewed selection.
    FramebufferAmbiguous { count: usize },
    /// The selected framebuffer path was not a numbered `/dev/fb*` path.
    InvalidFramebufferPath,
    /// The selected framebuffer could not form a Gray8 memory layout.
    FramebufferLayout(FramebufferLayoutError),
    /// The selected framebuffer reported an unsupported rotation value.
    FramebufferRotation(TransformError),
    /// No input device had the exact reviewed kernel name.
    TouchNotFound,
    /// More than one input device had the exact reviewed kernel name.
    TouchAmbiguous { count: usize },
    /// The selected device lacked one reviewed absolute axis.
    TouchAxisNotFound { code: u16 },
    /// The selected device repeated one reviewed absolute axis.
    TouchAxisAmbiguous { code: u16, count: usize },
    /// A selected axis did not have a usable inclusive range.
    TouchAxisRange { code: u16, minimum: i32, maximum: i32 },
    /// The selected input path was not a numbered `/dev/input/event*` path.
    InvalidInputPath,
    /// The configured transform did not end at the physical visible extent.
    InputOutputExtentMismatch,
    /// The passive report did not include executable byte-order/class data.
    ExecutableAbiMissing,
    /// ELF class and libc input-event pointer width contradicted each other.
    ExecutableInputAbiMismatch { class: ElfClass, pointer_width_bits: u16 },
    /// The recorded raw input-event ABI was unsupported.
    InputEventAbi(InputEventDecodeError),
    /// The runtime refresh capability was internally empty.
    RefreshCapability(RefreshCapabilityError),
}

/// The rendering of an evaluation in a message.
pub open spec fn rendered_evaluation(evaluation: ProfileEvaluation) -> Seq<char> {
    "ProfileEvaluation { status: "@ + evaluation.status.spec_name() + ", missing: "@
        + crate::wording::quoted_list(crate::text::texts(evaluation.missing@)) + ", mismatches: "@
        + crate::wording::quoted_list(crate::text::texts(evaluation.mismatches@)) + " }"@
}

impl RuntimeResolutionError {
    /// The operator-facing description of the error.
    pub open spec fn spec_message(self) -> Seq<char> {
        match self {
            RuntimeResolutionError::InvalidProfile(errors) => {
                "invalid profile: "@ + crate::wording::quoted_list(crate::text::texts(errors@))
            },
            RuntimeResolutionError::InvalidReport(errors) => {
                "invalid report: "@ + crate::wording::quoted_list(crate::text::texts(errors@))
            },
            RuntimeResolutionError::ProbeWarningsPresent { count } => {
                "probe report contains "@ + crate::text::decimal(count as nat) + " warnings"@
            },
            RuntimeResolutionError::ProfileEvidencePending => {
                "profile evidence is still pending"@
            },
            RuntimeResolutionError::ProfileDidNotMatch(evaluation) => {
                "profile did not match report: "@ + rendered_evaluation(evaluation)
            },
            RuntimeResolutionError::RuntimePolicyMissing => "runtime profile policy is missing"@,
            RuntimeResolutionError::FramebufferNotFound => "reviewed framebuffer was not found"@,
            RuntimeResolutionError::FramebufferAmbiguous { count } => {
                "reviewed framebuffer matched "@ + crate::text::decimal(count as nat)
                    + " devices"@
            },
            RuntimeResolutionError::InvalidFramebufferPath => {
                "selected framebuffer path is invalid"@
            },
            RuntimeResolutionError::FramebufferLayout(error) => {
                "framebuffer layout is invalid: "@ + error.spec_message()
            },
            RuntimeResolutionError::FramebufferRotation(error) => {
                "framebuffer rotation is invalid: "@ + error.spec_message()
            },
            RuntimeResolutionError::TouchNotFound => "reviewed touch device was not found"@,
            RuntimeResolutionError::TouchAmbiguous { count } => {
                "reviewed touch name matched "@ + crate::text::decimal(count as nat)
                    + " devices"@
            },
            RuntimeResolutionError::TouchAxisNotFound { code } => {
                "reviewed touch axis "@ + crate::text::decimal(code as nat) + " was not found"@
            },
            RuntimeResolutionError::TouchAxisAmbiguous { code, count } => {
                "reviewed touch axis "@ + crate::text::decimal(code as nat) + " appeared "@
                    + crate::text::decimal(count as nat) + " times"@
            },
            RuntimeResolutionError::TouchAxisRange { code, minimum, maximum } => {
                "touch axis "@ + crate::text::decimal(code as nat) + " has invalid range "@
                    + crate::text::signed_decimal(minimum as int) + "..="@
                    + crate::text::signed_decimal(maximum as int)
            },
            RuntimeResolutionError::InvalidInputPath => "selected input path is invalid"@,
            RuntimeResolutionError::InputOutputExtentMismatch => {
                "input transform output does not match visible display"@
            },
            RuntimeResolutionError::ExecutableAbiMissing => {
                "executable ABI is missing from the report"@
            },
            RuntimeResolutionError::ExecutableInputAbiMismatch { class, pointer_width_bits } => {
                "executable class "@ + class.spec_name() + " contradicts "@
                    + crate::text::decimal(pointer_width_bits as nat) + "-bit input ABI"@
            },
            RuntimeResolutionError::InputEventAbi(error) => {
                "input event ABI is invalid: "@ + error.spec_message()
            },
            RuntimeResolutionError::RefreshCapability(_) => {
                "refresh capability is invalid: at least one refresh mode is required"@
            },
        }
    }

    /// Describes the error for an operator.
    pub fn message(&self) -> (message: String)
        ensures
            message@ == self.spec_message(),
    {
        let mut message: String = String::new();
        match self {
            RuntimeResolutionError::InvalidProfile(errors) => {
                message.append("invalid profile: ");
                push_quoted_list(&mut message, errors);
            },
            RuntimeResolutionError::InvalidReport(errors) => {
                message.append("invalid report: ");
                push_quoted_list(&mut message, errors);
            },
            RuntimeResolutionError::ProbeWarningsPresent { count } => {
                message.append("probe report contains ");
                push_decimal(&mut message, *count as u64);
                message.append(" warnings");
            },
            RuntimeResolutionError::ProfileEvidencePending => {
                message.append("profile evidence is still pending");
            },
            RuntimeResolutionError::ProfileDidNotMatch(evaluation) => {
                message.append("profile did not match report: ");
                push_evaluation(&mut message, evaluation);
            },
            RuntimeResolutionError::RuntimePolicyMissing => {
                message.append("runtime profile policy is missing");
            },
            RuntimeResolutionError::FramebufferNotFound => {
                message.append("reviewed framebuffer was not found");
            },
            RuntimeResolutionError::FramebufferAmbiguous { count } => {
                message.append("reviewed framebuffer matched ");
                push_decimal(&mut message, *count as u64);
                message.append(" devices");
            },
            RuntimeResolutionError::InvalidFramebufferPath => {
                message.append("selected framebuffer path is invalid");
            },
            RuntimeResolutionError::FramebufferLayout(error) => {
                message.append("framebuffer layout is invalid: ");
                message.append(error.message().as_str());
            },
            RuntimeResolutionError::FramebufferRotation(error) => {
                message.append("framebuffer rotation is invalid: ");
                message.append(error.message().as_str());
            },
            RuntimeResolutionError::TouchNotFound => {
                message.append("reviewed touch device was not found");
            },
            RuntimeResolutionError::TouchAmbiguous { count } => {
                message.append("reviewed touch name matched ");
                push_decimal(&mut message, *count as u64);
                message.append(" devices");
            },
            RuntimeResolutionError::TouchAxisNotFound { code } => {
                message.append("reviewed touch axis ");
                push_decimal(&mut message, *code as u64);
                message.append(" was not found");
            },
            RuntimeResolutionError::TouchAxisAmbiguous { code, count } => {
                message.append("reviewed touch axis ");
                push_decimal(&mut message, *code as u64);
                message.append(" appeared ");
                push_decimal(&mut message, *count as u64);
                message.append(" times");
            },
            RuntimeResolutionError::TouchAxisRange { code, minimum, maximum } => {
                message.append("touch axis ");
                push_decimal(&mut message, *code as u64);
                message.append(" has invalid range ");
                push_signed_decimal(&mut message, *minimum as i64);
                message.append("..=");
                push_signed_decimal(&mut message, *maximum as i64);
            },
            RuntimeResolutionError::InvalidInputPath => {
                message.append("selected input path is invalid");
            },
            RuntimeResolutionError::InputOutputExtentMismatch => {
                message.append("input transform output does not match visible display");
            },
            RuntimeResolutionError::ExecutableAbiMissing => {
                message.append("executable ABI is missing from the report");
            },
            RuntimeResolutionError::ExecutableInputAbiMismatch { class, pointer_width_bits } => {
                message.append("executable class ");
                message.append(class.name());
                message.append(" contradicts ");
                push_decimal(&mut message, *pointer_width_bits as u64);
                message.append("-bit input ABI");
            },
            RuntimeResolutionError::InputEventAbi(error) => {
                message.append("input event ABI is invalid: ");
                message.append(error.message().as_str());
            },
            RuntimeResolutionError::RefreshCapability(_) => {
                message.append(
                    "refresh capability is invalid: at least one refresh mode is required",
                );
            },
        }
        assert(message@ =~= self.spec_message());
        message
    }
}

fn push_evaluation(message: &mut String, evaluation: &ProfileEvaluation)
    ensures
        final(message)@ == old(message)@ + rendered_evaluation(*evaluation),
{
    message.append("ProfileEvaluation { status: ");
    message.append(evaluation.status.name());
    message.append(", missing: ");
    push_quoted_list(message, &evaluation.missing);
    message.append(", mismatches: ");
    push_quoted_list(message, &evaluation.mismatches);
    message.append(" }");
    assert(message@ =~= old(message)@ + rendered_evaluation(*evaluation));
}

// ---------------------------------------------------------------------------
// What is selected
// ---------------------------------------------------------------------------
/// Where a filter leaves one item, that item is the only one that passes it.
proof fn only_one_passes<A>(s: Seq<A>, pred: spec_fn(A) -> bool)
    ensures
        s.filter(pred).len() == 0 <==> forall|i: int| 0 <= i < s.len() ==> !pred(#[trigger] s[i]),
        s.filter(pred).len() == 1 ==> exists|i: int|
            0 <= i < s.len() && pred(#[trigger] s[i]) && s[i] == s.filter(pred)[0] && forall|j: int|
                0 <= j < s.len() && j != i ==> !pred(#[trigger] s[j]),
    decreases s.len(),
{
    reveal(Seq::filter);
    if s.len() > 0 {
        let front = s.drop_last();
        only_one_passes(front, pred);
        let kept = front.filter(pred);
        assert(forall|i: int| 0 <= i < front.len() ==> #[trigger] front[i] == s[i]);
        if pred(s.last()) {
            assert(s.filter(pred) == kept.push(s.last()));
            assert(pred(s[s.len() - 1]));
            if s.filter(pred).len() == 1 {
                let i = s.len() - 1;
                assert forall|j: int| 0 <= j < s.len() && j != i implies !pred(
                    #[trigger] s[j],
                ) by {
                    assert(!pred(front[j]));
                }
                assert(s[i] == s.filter(pred)[0]);
            }
        } else {
            assert(s.filter(pred) == kept);
            if kept.len() == 1 {
                let i = choose|i: int|
                    0 <= i < front.len() && pred(#[trigger] front[i]) && front[i] == kept[0]
                        && forall|j: int|
                        0 <= j < front.len() && j != i ==> !pred(#[trigger] front[j]);
                assert(pred(s[i]) && s[i] == kept[0]);
                assert forall|j: int| 0 <= j < s.len() && j != i implies !pred(
                    #[trigger] s[j],
                ) by {
                    if j < front.len() {
                        assert(!pred(front[j]));
                    }
                }
            }
            if kept.len() == 0 {
                assert forall|i: int| 0 <= i < s.len() implies !pred(#[trigger] s[i]) by {
                    if i < front.len() {
                        assert(!pred(front[i]));
                    }
                }
            }
            if forall|i: int| 0 <= i < s.len() ==> !pred(#[trigger] s[i]) {
                assert forall|i: int| 0 <= i < front.len() implies !pred(#[trigger] front[i]) by {
                    assert(!pred(s[i]));
                }
            }
        }
    }
}

/// A resolved device draws on the one framebuffer of the report that has the
/// reviewed driver and fits the profile's display; there is no other, its path
/// is a numbered framebuffer, and its layout and rotation are its own.
pub proof fn law_the_framebuffer_is_the_only_one(
    device: ResolvedRuntimeDevice,
    profile: DeviceProfile,
    report: ProbeReport,
)
    requires
        selection_problem(profile, report) is None,
        device.is_resolution_of(profile, report),
    ensures
        exists|i: int|
            {
                let chosen = #[trigger] report.framebuffers@[i];
                &&& 0 <= i < report.framebuffers@.len()
                &&& device.spec_framebuffer_capability() == chosen
                &&& device.spec_framebuffer_path() == chosen.device@
                &&& chosen.driver_id@ == profile.runtime->0.framebuffer.driver_id@
                &&& profile.display.fits(chosen)
                &&& chosen.bits_per_pixel == 8
                &&& chosen.device@.len() > 7 && chosen.device@.take(7) == "/dev/fb"@
                &&& forall|j: int|
                    0 <= j < report.framebuffers@.len() && j != i ==> !((
                    #[trigger] report.framebuffers@[j]).driver_id@
                        == profile.runtime->0.framebuffer.driver_id@ && profile.display.fits(
                        report.framebuffers@[j],
                    ))
            },
        ({
            let chosen = device.spec_framebuffer_capability();
            let layout = device.spec_framebuffer_layout();
            &&& layout.visible().width() == chosen.visible_width
            &&& layout.visible().height() == chosen.visible_height
            &&& layout.virtual_extent().width() == chosen.virtual_width
            &&& layout.virtual_extent().height() == chosen.virtual_height
            &&& layout.x_offset() == chosen.x_offset
            &&& layout.y_offset() == chosen.y_offset
            &&& layout.line_length() == chosen.line_length
            &&& layout.memory_length() == chosen.memory_length
        }),
{
    let runtime = profile.runtime->0;
    let pred = |framebuffer: FramebufferCapability|
        framebuffer.driver_id@ == runtime.framebuffer.driver_id@ && profile.display.fits(
            framebuffer,
        );
    let all = report.framebuffers@;
    assert(framebuffer_problem(profile, runtime, report) is None);
    assert(selected_framebuffers(profile, runtime, report) == all.filter(pred));
    only_one_passes(all, pred);
    let i = choose|i: int|
        0 <= i < all.len() && pred(#[trigger] all[i]) && all[i] == all.filter(pred)[0]
            && forall|j: int| 0 <= j < all.len() && j != i ==> !pred(#[trigger] all[j]);
    let chosen = all[i];
    reveal_strlit("/dev/fb");
    assert("/dev/fb"@.len() == 7);
    assert(crate::framebuffer::capability_problem(chosen) is None);
    assert(chosen.device@.subrange(0, 7) =~= chosen.device@.take(7));
    assert forall|j: int| 0 <= j < all.len() && j != i implies !((
    #[trigger] all[j]).driver_id@ == runtime.framebuffer.driver_id@ && profile.display.fits(
        all[j],
    )) by {
        assert(!pred(all[j]));
    }
}

/// A resolved device listens to the one input of the report that has the
/// reviewed name, at a numbered event path, and its touches are mapped from the
/// ranges of the two reviewed axes of that input, with the reviewed swap,
/// inversions and turn.
pub proof fn law_the_touch_device_is_the_only_one(
    device: ResolvedRuntimeDevice,
    profile: DeviceProfile,
    report: ProbeReport,
)
    requires
        selection_problem(profile, report) is None,
        device.is_resolution_of(profile, report),
    ensures
        exists|i: int|
            {
                let chosen = #[trigger] report.inputs@[i];
                &&& 0 <= i < report.inputs@.len()
                &&& device.spec_input_path() == chosen.device@
                &&& crate::text::optional_text(chosen.name) == Some(
                    profile.runtime->0.touch.name@,
                )
                &&& chosen.device@.len() > 16 && chosen.device@.take(16) == "/dev/input/event"@
                &&& forall|j: int|
                    0 <= j < report.inputs@.len() && j != i ==> crate::text::optional_text((
                    #[trigger] report.inputs@[j]).name) != Some(profile.runtime->0.touch.name@)
                &&& exists|x: int|
                    {
                        let axis = #[trigger] chosen.axes@[x];
                        &&& 0 <= x < chosen.axes@.len()
                        &&& axis.code == profile.runtime->0.touch.x_axis_code
                        &&& axis.minimum == device.spec_input_transform().raw_x().minimum()
                        &&& axis.maximum == device.spec_input_transform().raw_x().maximum()
                        &&& axis.minimum < axis.maximum
                    }
                &&& exists|y: int|
                    {
                        let axis = #[trigger] chosen.axes@[y];
                        &&& 0 <= y < chosen.axes@.len()
                        &&& axis.code == profile.runtime->0.touch.y_axis_code
                        &&& axis.minimum == device.spec_input_transform().raw_y().minimum()
                        &&& axis.maximum == device.spec_input_transform().raw_y().maximum()
                        &&& axis.minimum < axis.maximum
                    }
            },
        device.spec_input_transform().swap_xy() == profile.runtime->0.touch.swap_xy,
        device.spec_input_transform().invert_x() == profile.runtime->0.touch.invert_x,
        device.spec_input_transform().invert_y() == profile.runtime->0.touch.invert_y,
        device.spec_input_transform().rotation() == profile.runtime->0.touch.rotation,
        device.spec_input_name() == profile.runtime->0.touch.name@,
{
    let runtime = profile.runtime->0;
    let pred = |input: InputDeviceCapability|
        crate::text::optional_text(input.name) == Some(runtime.touch.name@);
    let all = report.inputs@;
    assert(framebuffer_problem(profile, runtime, report) is None);
    assert(touch_problem(runtime, report) is None);
    assert(selected_touches(runtime, report) == all.filter(pred));
    only_one_passes(all, pred);
    let i = choose|i: int|
        0 <= i < all.len() && pred(#[trigger] all[i]) && all[i] == all.filter(pred)[0]
            && forall|j: int| 0 <= j < all.len() && j != i ==> !pred(#[trigger] all[j]);
    let chosen = all[i];
    reveal_strlit("/dev/input/event");
    assert("/dev/input/event"@.len() == 16);
    assert(chosen.device@.subrange(0, 16) =~= chosen.device@.take(16));
    assert forall|j: int| 0 <= j < all.len() && j != i implies crate::text::optional_text((
    #[trigger] all[j]).name) != Some(runtime.touch.name@) by {
        assert(!pred(all[j]));
    }
    law_axes_are_the_only_ones(chosen, runtime.touch.x_axis_code);
    law_axes_are_the_only_ones(chosen, runtime.touch.y_axis_code);
}

/// An axis is usable exactly when the input has it once and its minimum lies
/// below its maximum.
pub proof fn law_axes_are_the_only_ones(input: InputDeviceCapability, code: u16)
    ensures
        axis_problem(input, code) is None ==> exists|i: int|
            {
                let axis = #[trigger] input.axes@[i];
                &&& 0 <= i < input.axes@.len()
                &&& axis.code == code
                &&& axis.minimum < axis.maximum
                &&& axis == selected_axes(input, code)[0]
                &&& forall|j: int|
                    0 <= j < input.axes@.len() && j != i ==> (#[trigger] input.axes@[j]).code
                        != code
            },
        axis_problem(input, code) == Some(RuntimeResolutionError::TouchAxisNotFound { code })
            <==> forall|i: int|
            0 <= i < input.axes@.len() ==> (#[trigger] input.axes@[i]).code != code,
{
    let pred = |axis: InputAxisCapability| axis.code == code;
    let all = input.axes@;
    assert(selected_axes(input, code) == all.filter(pred));
    only_one_passes(all, pred);
    assert((forall|i: int| 0 <= i < all.len() ==> !pred(#[trigger] all[i])) <==> (forall|i: int|
        0 <= i < all.len() ==> (#[trigger] all[i]).code != code)) by {
        if forall|i: int| 0 <= i < all.len() ==> !pred(#[trigger] all[i]) {
            assert forall|i: int| 0 <= i < all.len() implies (#[trigger] all[i]).code != code by {
                assert(!pred(all[i]));
            }
        }
    }
    if axis_problem(input, code) is None {
        let i = choose|i: int|
            0 <= i < all.len() && pred(#[trigger] all[i]) && all[i] == all.filter(pred)[0]
                && forall|j: int| 0 <= j < all.len() && j != i ==> !pred(#[trigger] all[j]);
        assert forall|j: int| 0 <= j < all.len() && j != i implies (#[trigger] all[j]).code
            != code by {
            assert(!pred(all[j]));
        }
        assert(all[i].code == code && all[i].minimum < all[i].maximum);
    }
}

/// Events can be read exactly when the executable is known and its class, the
/// pointer width and the record layout are all those of 32 or all of 64 bits.
pub proof fn law_event_layouts_agree_with_the_executable(report: ProbeReport)
    ensures
        event_problem(report) is None <==> (report.system.executable_abi matches Some(executable)
            && {
            let abi = report.system.input_event_abi;
            let sizes = (
                abi.pointer_width_bits,
                abi.libc_timeval_bytes,
                abi.libc_input_event_bytes,
            );
            match executable.class {
                ElfClass::Elf32 => sizes == (32u16, 8u16, 16u16),
                ElfClass::Elf64 => sizes == (64u16, 16u16, 24u16),
            }
        }),
{
}

/// Only a profile that is supported gives full authority, and nothing is
/// resolved with warnings, without evidence, or without a runtime policy.
pub proof fn law_authority_comes_from_review(
    device: ResolvedRuntimeDevice,
    profile: DeviceProfile,
    report: ProbeReport,
)
    ensures
        review_problem(profile, report) is None <==> report.warnings@.len() == 0
            && profile.review_status != ProfileReviewStatus::EvidencePending,
        selection_problem(profile, report) is None ==> profile.runtime is Some,
        device.is_resolution_of(profile, report) ==> {
            &&& device.spec_authority() == RuntimeAuthority::SupportedProfile
                <==> profile.review_status == ProfileReviewStatus::Supported
            &&& device.spec_profile_id() == profile.id@
            &&& device.spec_input_event_abi() == report.system.input_event_abi
            &&& device.spec_input_endianness() == report.system.executable_abi->0.endianness
            &&& device.spec_stock_repaint() == profile.runtime->0.stock_repaint
            &&& device.spec_refresh() is Some <==> profile.runtime->0.refresh is Some
        },
        device.is_resolution_of(profile, report) && device.spec_refresh() is Some ==> {
            let config = device.spec_refresh()->0;
            let selection = profile.runtime->0.refresh->0;
            &&& config.update_abi() == selection.update_abi
            &&& config.capabilities().supports(RefreshMode::Partial) == selection.partial
            &&& config.capabilities().supports(RefreshMode::Full) == selection.full
            &&& config.capabilities().maximum_completion_wait_millis()
                == selection.maximum_completion_wait_millis
        },
{
}

/// The transform of a resolved device covers the framebuffer: turned as
/// reviewed, its display has the framebuffer's visible extent.
pub proof fn law_touches_cover_the_visible_extent(
    device: ResolvedRuntimeDevice,
    profile: DeviceProfile,
    report: ProbeReport,
)
    requires
        device.is_resolution_of(profile, report),
    ensures
        ({
            let display = device.spec_input_transform().display();
            let framebuffer = device.spec_framebuffer_capability();
            match device.spec_input_transform().rotation() {
                QuarterTurn::Upright | QuarterTurn::UpsideDown => display.width()
                    == framebuffer.visible_width && display.height()
                    == framebuffer.visible_height,
                QuarterTurn::Clockwise | QuarterTurn::CounterClockwise => display.width()
                    == framebuffer.visible_height && display.height()
                    == framebuffer.visible_width,
            }
        }),
        QuarterTurn::of_linux_framebuffer(device.spec_framebuffer_capability().rotation) == Ok::<
            _,
            TransformError,
        >(device.spec_framebuffer_rotation()),
{
}

/// Nothing that fits is not found, and more than one that fits is ambiguous: a
/// resolution names how many there are.
pub proof fn law_selections_are_unambiguous(
    profile: DeviceProfile,
    runtime: RuntimeSelection,
    report: ProbeReport,
)
    requires
        report.framebuffers@.len() <= usize::MAX,
        report.inputs@.len() <= usize::MAX,
    ensures
        framebuffer_problem(profile, runtime, report) == Some(
            RuntimeResolutionError::FramebufferNotFound,
        ) <==> forall|i: int|
            0 <= i < report.framebuffers@.len() ==> !((
            #[trigger] report.framebuffers@[i]).driver_id@ == runtime.framebuffer.driver_id@
                && profile.display.fits(report.framebuffers@[i])),
        touch_problem(runtime, report) == Some(RuntimeResolutionError::TouchNotFound)
            <==> forall|i: int|
            0 <= i < report.inputs@.len() ==> crate::text::optional_text((
            #[trigger] report.inputs@[i]).name) != Some(runtime.touch.name@),
        framebuffer_problem(profile, runtime, report) matches Some(
            RuntimeResolutionError::FramebufferAmbiguous { count },
        ) ==> count >= 2 && count == report.framebuffers@.filter(
            |framebuffer: FramebufferCapability|
                framebuffer.driver_id@ == runtime.framebuffer.driver_id@ && profile.display.fits(
                    framebuffer,
                ),
        ).len(),
        touch_problem(runtime, report) matches Some(
            RuntimeResolutionError::TouchAmbiguous { count },
        ) ==> count >= 2 && count == report.inputs@.filter(
            |input: InputDeviceCapability|
                crate::text::optional_text(input.name) == Some(runtime.touch.name@),
        ).len(),
{
    broadcast use vstd::seq_lib::group_filter_ensures;

    let fits = |framebuffer: FramebufferCapability|
        framebuffer.driver_id@ == runtime.framebuffer.driver_id@ && profile.display.fits(
            framebuffer,
        );
    let named = |input: InputDeviceCapability|
        crate::text::optional_text(input.name) == Some(runtime.touch.name@);
    let screens = report.framebuffers@;
    let inputs = report.inputs@;
    assert(selected_framebuffers(profile, runtime, report) == screens.filter(fits));
    assert(selected_touches(runtime, report) == inputs.filter(named));
    only_one_passes(screens, fits);
    only_one_passes(inputs, named);
    if screens.filter(fits).len() == 0 {
        assert forall|i: int| 0 <= i < screens.len() implies !((#[trigger] screens[i]).driver_id@
            == runtime.framebuffer.driver_id@ && profile.display.fits(screens[i])) by {
            assert(!fits(screens[i]));
        }
    }
    if inputs.filter(named).len() == 0 {
        assert forall|i: int| 0 <= i < inputs.len() implies crate::text::optional_text((
        #[trigger] inputs[i]).name) != Some(runtime.touch.name@) by {
            assert(!named(inputs[i]));
        }
    }
    axis_errors_are_not_of_the_device(inputs.filter(named)[0], runtime.touch.x_axis_code);
    axis_errors_are_not_of_the_device(inputs.filter(named)[0], runtime.touch.y_axis_code);
}

proof fn axis_errors_are_not_of_the_device(input: InputDeviceCapability, code: u16)
    ensures
        axis_problem(input, code) matches Some(error) ==> !(error is TouchNotFound) && !(error
            is TouchAmbiguous),
{
}

/// What stands against a resolution is told in order: the policy, the
/// framebuffer, the touch device and its axes from X to Y, and the events.
pub proof fn law_problems_are_told_in_order(profile: DeviceProfile, report: ProbeReport)
    ensures
        profile.runtime is None ==> selection_problem(profile, report) == Some(
            RuntimeResolutionError::RuntimePolicyMissing,
        ),
        profile.runtime matches Some(runtime) ==> {
            let framebuffer = framebuffer_problem(profile, runtime, report);
            let touch = touch_problem(runtime, report);
            &&& framebuffer is Some ==> selection_problem(profile, report) == framebuffer
            &&& framebuffer is None && touch is Some ==> selection_problem(profile, report)
                == touch
            &&& framebuffer is None && touch is None ==> selection_problem(profile, report)
                == event_problem(report)
        },
        report.system.executable_abi is None ==> event_problem(report) == Some(
            RuntimeResolutionError::ExecutableAbiMissing,
        ),
        report.warnings@.len() > 0 && report.warnings@.len() <= usize::MAX ==> (review_problem(
            profile,
            report,
        ) matches Some(RuntimeResolutionError::ProbeWarningsPresent { count }) && count
            == report.warnings@.len()),
        report.warnings@.len() == 0 && profile.review_status
            == ProfileReviewStatus::EvidencePending ==> review_problem(profile, report) == Some(
            RuntimeResolutionError::ProfileEvidencePending,
        ),
{
}

/// Each message names what stands against a resolution, with the values at fault.
pub proof fn law_resolution_messages_tell_what_stands_against(told: RuntimeResolutionError)
    ensures
        told matches RuntimeResolutionError::InvalidProfile(errors) ==> told.spec_message()
            == "invalid profile: "@
            + crate::wording::quoted_list(crate::text::texts(errors@)),
        told matches RuntimeResolutionError::InvalidReport(errors) ==> told.spec_message()
            == "invalid report: "@
            + crate::wording::quoted_list(crate::text::texts(errors@)),
        told matches RuntimeResolutionError::ProbeWarningsPresent { count } ==> told.spec_message()
            == "probe report contains "@
            + crate::text::decimal(count as nat)
            + " warnings"@,
        told matches RuntimeResolutionError::ProfileEvidencePending ==> told.spec_message()
            == "profile evidence is still pending"@,
        told matches RuntimeResolutionError::ProfileDidNotMatch(evaluation) ==> told.spec_message()
            == "profile did not match report: "@
            + rendered_evaluation(evaluation),
        told matches RuntimeResolutionError::RuntimePolicyMissing ==> told.spec_message()
            == "runtime profile policy is missing"@,
        told matches RuntimeResolutionError::FramebufferNotFound ==> told.spec_message()
            == "reviewed framebuffer was not found"@,
        told matches RuntimeResolutionError::FramebufferAmbiguous { count } ==> told.spec_message()
            == "reviewed framebuffer matched "@
            + crate::text::decimal(count as nat)
            + " devices"@,
        told matches RuntimeResolutionError::InvalidFramebufferPath ==> told.spec_message()
            == "selected framebuffer path is invalid"@,
        told matches RuntimeResolutionError::FramebufferLayout(error) ==> told.spec_message()
            == "framebuffer layout is invalid: "@
            + error.spec_message(),
        told matches RuntimeResolutionError::FramebufferRotation(error) ==> told.spec_message()
            == "framebuffer rotation is invalid: "@
            + error.spec_message(),
        told matches RuntimeResolutionError::TouchNotFound ==> told.spec_message()
            == "reviewed touch device was not found"@,
        told matches RuntimeResolutionError::TouchAmbiguous { count } ==> told.spec_message()
            == "reviewed touch name matched "@
            + crate::text::decimal(count as nat)
            + " devices"@,
        told matches RuntimeResolutionError::TouchAxisNotFound { code } ==> told.spec_message()
            == "reviewed touch axis "@
            + crate::text::decimal(code as nat)
            + " was not found"@,
        told matches RuntimeResolutionError::TouchAxisAmbiguous { code, count }
            ==> told.spec_message()
            == "reviewed touch axis "@
            + crate::text::decimal(code as nat)
            + " appeared "@
            + crate::text::decimal(count as nat)
            + " times"@,
        told matches RuntimeResolutionError::TouchAxisRange { code, minimum, maximum }
            ==> told.spec_message()
            == "touch axis "@
            + crate::text::decimal(code as nat)
            + " has invalid range "@
            + crate::text::signed_decimal(minimum as int)
            + "..="@
            + crate::text::signed_decimal(maximum as int),
        told matches RuntimeResolutionError::InvalidInputPath ==> told.spec_message()
            == "selected input path is invalid"@,
        told matches RuntimeResolutionError::InputOutputExtentMismatch ==> told.spec_message()
            == "input transform output does not match visible display"@,
        told matches RuntimeResolutionError::ExecutableAbiMissing ==> told.spec_message()
            == "executable ABI is missing from the report"@,
        told matches RuntimeResolutionError::ExecutableInputAbiMismatch {
            class,
            pointer_width_bits,
        }
            ==> told.spec_message()
            == "executable class "@
            + class.spec_name()
            + " contradicts "@
            + crate::text::decimal(pointer_width_bits as nat)
            + "-bit input ABI"@,
        told matches RuntimeResolutionError::InputEventAbi(error) ==> told.spec_message()
            == "input event ABI is invalid: "@
            + error.spec_message(),
        told matches RuntimeResolutionError::RefreshCapability(_) ==> told.spec_message()
            == "refresh capability is invalid: at least one refresh mode is required"@,
{
}

/// Profile and report are compared only where neither breaks a rule of its own.
pub proof fn law_only_valid_inputs_are_compared(profile: DeviceProfile, report: ProbeReport)
    ensures
        inputs_are_valid(profile, report) <==> profile.violations() == Seq::<Seq<char>>::empty()
            && report.violations() == Seq::<Seq<char>>::empty(),
{
    if profile.violations().len() == 0 {
        assert(profile.violations() =~= Seq::<Seq<char>>::empty());
    }
    if report.violations().len() == 0 {
        assert(report.violations() =~= Seq::<Seq<char>>::empty());
    }
}

} // verus!
