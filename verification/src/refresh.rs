//! Toolkit-neutral display refresh requests and failures.

use crate::display_trace::DisplayRegion;
use crate::nonzero::{NonZeroU16, NonZeroU32};
use crate::text::push_decimal;
use crate::transform::{CoordinateAxis, DisplayExtent};
use vstd::prelude::*;

verus! {

/// Whether an E Ink update uses the interactive or cleaning path.
#[derive(Debug, Clone, Copy, PartialEq, Eq, Structural)]
pub enum RefreshMode {
    /// Update only the requested region without requiring a cleaning waveform.
    Partial,
    /// Use the backend's full/clean update policy for the region.
    Full,
}

impl RefreshMode {
    /// The name of the mode.
    pub open spec fn spec_name(self) -> Seq<char> {
        match self {
            RefreshMode::Partial => "Partial"@,
            RefreshMode::Full => "Full"@,
        }
    }

    /// Returns the name of the mode.
    pub fn name(self) -> (name: &'static str)
        ensures
            name@ == self.spec_name(),
    {
        match self {
            RefreshMode::Partial => "Partial",
            RefreshMode::Full => "Full",
        }
    }
}

/// Whether a caller needs positive completion evidence after submission.
#[derive(Debug, Clone, Copy, PartialEq, Eq, Structural)]
pub enum RefreshCompletionPolicy {
    /// Return after the backend accepts the update request.
    DoNotWait,
    /// Wait no longer than the supplied duration for the update marker.
    Wait {
        /// Strict upper bound for the completion operation.
        timeout_millis: NonZeroU32,
    },
}

/// A visible display region.
#[derive(Debug, Clone, Copy, PartialEq, Eq, Structural)]
pub struct RefreshRegion {
    x: u32,
    y: u32,
    width: NonZeroU32,
    height: NonZeroU32,
}

impl RefreshRegion {
    #[verifier::type_invariant]
    spec fn inv(self) -> bool {
        &&& self.x + self.width@ <= u32::MAX
        &&& self.y + self.height@ <= u32::MAX
    }

    /// The horizontal origin.
    pub closed spec fn spec_x(self) -> u32 {
        self.x
    }

    /// The vertical origin.
    pub closed spec fn spec_y(self) -> u32 {
        self.y
    }

    /// The width in pixels.
    pub closed spec fn spec_width(self) -> u32 {
        self.width@
    }

    /// The height in pixels.
    pub closed spec fn spec_height(self) -> u32 {
        self.height@
    }

    /// Whether the region covers the pixel at `px`, `py`.
    pub open spec fn covers(self, px: int, py: int) -> bool {
        &&& self.x() <= px < self.x() + self.width()
        &&& self.y() <= py < self.y() + self.height()
    }

    /// Builds a non-empty region inside `visible`.
    ///
    /// A zero dimension is reported before an overflow, and that before a
    /// region that leaves the display.
    pub fn try_new(x: u32, y: u32, width: u32, height: u32, visible: DisplayExtent) -> (result:
        Result<Self, RefreshRequestError>)
        ensures
            match result {
                Ok(region) => {
                    &&& region.x() == x && region.y() == y
                    &&& region.width() == width && region.height() == height
                    &&& width != 0 && height != 0
                    &&& x + width <= visible.width()
                    &&& y + height <= visible.height()
                },
                Err(error) => error == (if width == 0 {
                    RefreshRequestError::ZeroRegionExtent { axis: CoordinateAxis::X }
                } else if height == 0 {
                    RefreshRequestError::ZeroRegionExtent { axis: CoordinateAxis::Y }
                } else if x + width > u32::MAX || y + height > u32::MAX {
                    RefreshRequestError::RegionOverflow
                } else {
                    RefreshRequestError::RegionOutOfBounds { display: visible }
                }) && (width == 0 || height == 0 || x + width > visible.width() || y + height
                    > visible.height()),
            },
    {
        let width = match NonZeroU32::new(width) {
            Some(width) => width,
            None => {
                return Err(RefreshRequestError::ZeroRegionExtent { axis: CoordinateAxis::X });
            },
        };
        let height = match NonZeroU32::new(height) {
            Some(height) => height,
            None => {
                return Err(RefreshRequestError::ZeroRegionExtent { axis: CoordinateAxis::Y });
            },
        };
        let right: u32 = match x.checked_add(width.get()) {
            Some(right) => right,
            None => {
                return Err(RefreshRequestError::RegionOverflow);
            },
        };
        let bottom: u32 = match y.checked_add(height.get()) {
            Some(bottom) => bottom,
            None => {
                return Err(RefreshRequestError::RegionOverflow);
            },
        };
        if right > visible.width() || bottom > visible.height() {
            return Err(RefreshRequestError::RegionOutOfBounds { display: visible });
        }
        Ok(RefreshRegion { x, y, width, height })
    }

    /// Intersects an unsigned dirty rectangle with `visible`.
    ///
    /// Returns `None` for an empty rectangle or one completely outside the
    /// display. Endpoint overflow is clipped to the display edge.
    pub fn clipped(x: u32, y: u32, width: u32, height: u32, visible: DisplayExtent) -> (result:
        Option<Self>)
        ensures
            result is None <==> width == 0 || height == 0 || x >= visible.width() || y
                >= visible.height(),
            match result {
                Some(region) => {
                    &&& region.x() == x && region.y() == y
                    &&& x + region.width() == (if x + width <= visible.width() {
                        x + width
                    } else {
                        visible.width() as int
                    })
                    &&& y + region.height() == (if y + height <= visible.height() {
                        y + height
                    } else {
                        visible.height() as int
                    })
                },
                None => true,
            },
    {
        if width == 0 || height == 0 || x >= visible.width() || y >= visible.height() {
            return None;
        }
        let mut right: u32 = x.saturating_add(width);
        if right > visible.width() {
            right = visible.width();
        }
        let mut bottom: u32 = y.saturating_add(height);
        if bottom > visible.height() {
            bottom = visible.height();
        }
        match Self::try_new(x, y, right - x, bottom - y, visible) {
            Ok(region) => Some(region),
            Err(_) => None,
        }
    }

    /// Returns a region covering the complete visible display.
    pub fn full(visible: DisplayExtent) -> (region: Self)
        ensures
            region.x() == 0,
            region.y() == 0,
            region.width() == visible.width(),
            region.height() == visible.height(),
    {
        RefreshRegion {
            x: 0,
            y: 0,
            width: visible.non_zero_width(),
            height: visible.non_zero_height(),
        }
    }

    /// Returns the horizontal origin in visible pixels.
    #[verifier::when_used_as_spec(spec_x)]
    pub fn x(self) -> (x: u32)
        ensures
            x == self.spec_x(),
            self.spec_x() + self.spec_width() <= u32::MAX,
    {
        proof {
            use_type_invariant(&self);
        }
        self.x
    }

    /// Returns the vertical origin in visible pixels.
    #[verifier::when_used_as_spec(spec_y)]
    pub fn y(self) -> (y: u32)
        ensures
            y == self.spec_y(),
            self.spec_y() + self.spec_height() <= u32::MAX,
    {
        proof {
            use_type_invariant(&self);
        }
        self.y
    }

    /// Returns the non-zero width in pixels.
    #[verifier::when_used_as_spec(spec_width)]
    pub fn width(self) -> (width: u32)
        ensures
            width == self.spec_width(),
            width != 0,
            self.spec_x() + self.spec_width() <= u32::MAX,
    {
        proof {
            use_type_invariant(&self);
        }
        self.width.get()
    }

    /// Returns the non-zero height in pixels.
    #[verifier::when_used_as_spec(spec_height)]
    pub fn height(self) -> (height: u32)
        ensures
            height == self.spec_height(),
            height != 0,
            self.spec_y() + self.spec_height() <= u32::MAX,
    {
        proof {
            use_type_invariant(&self);
        }
        self.height.get()
    }

    /// Returns the region area without overflowing a 64-bit count.
    pub fn pixel_count(self) -> (pixels: u64)
        ensures
            pixels == self.width() * self.height(),
    {
        let width: u32 = self.width.get();
        let height: u32 = self.height.get();
        assert(0 <= width * height <= 0xffff_ffff * 0xffff_ffff) by (nonlinear_arith)
            requires
                0 <= width <= 0xffff_ffff,
                0 <= height <= 0xffff_ffff,
        ;
        width as u64 * height as u64
    }

    /// Two regions with the same origin and dimensions are the same region.
    pub proof fn getters_determine_region(a: Self, b: Self)
        requires
            a.x() == b.x(),
            a.y() == b.y(),
            a.width() == b.width(),
            a.height() == b.height(),
        ensures
            a == b,
    {
        NonZeroU32::view_is_injective(a.width, b.width);
        NonZeroU32::view_is_injective(a.height, b.height);
    }

    /// The rectangle of the region.
    pub closed spec fn rectangle(self) -> DisplayRegion {
        DisplayRegion { x: self.x, y: self.y, width: self.width, height: self.height }
    }

    /// The rectangle has the origin and the dimensions of the region.
    pub proof fn rectangle_is_the_region(self)
        ensures
            self.rectangle().x == self.x(),
            self.rectangle().y == self.y(),
            self.rectangle().width@ == self.width(),
            self.rectangle().height@ == self.height(),
    {
    }
}

impl From<RefreshRegion> for DisplayRegion {
    fn from(region: RefreshRegion) -> (rectangle: Self) {
        DisplayRegion {
            x: region.x,
            y: region.y,
            width: region.width,
            height: region.height,
        }
    }
}

impl vstd::std_specs::convert::FromSpecImpl<RefreshRegion> for DisplayRegion {
    open spec fn obeys_from_spec() -> bool {
        true
    }

    open spec fn from_spec(region: RefreshRegion) -> Self {
        region.rectangle()
    }
}

/// A clipped region covers exactly the pixels that lie both in the dirty
/// rectangle and on the display.
pub proof fn law_clipping_is_intersection(
    region: RefreshRegion,
    x: u32,
    y: u32,
    width: u32,
    height: u32,
    visible: DisplayExtent,
    px: int,
    py: int,
)
    requires
        x < visible.width(),
        y < visible.height(),
        region.x() == x,
        region.y() == y,
        x + region.width() == (if x + width <= visible.width() {
            x + width
        } else {
            visible.width() as int
        }),
        y + region.height() == (if y + height <= visible.height() {
            y + height
        } else {
            visible.height() as int
        }),
    ensures
        region.covers(px, py) <==> x <= px < x + width && y <= py < y + height && px
            < visible.width() && py < visible.height(),
{
}

/// A toolkit-independent display update request.
#[derive(Debug, Clone, Copy, PartialEq, Eq, Structural)]
pub struct RefreshRequest {
    region: RefreshRegion,
    mode: RefreshMode,
    completion: RefreshCompletionPolicy,
}

impl RefreshRequest {
    /// The region.
    pub closed spec fn spec_region(self) -> RefreshRegion {
        self.region
    }

    /// The update mode.
    pub closed spec fn spec_mode(self) -> RefreshMode {
        self.mode
    }

    /// The completion policy.
    pub closed spec fn spec_completion(self) -> RefreshCompletionPolicy {
        self.completion
    }

    /// Creates a request from a visible region.
    pub fn new(
        region: RefreshRegion,
        mode: RefreshMode,
        completion: RefreshCompletionPolicy,
    ) -> (request: Self)
        ensures
            request.region() == region,
            request.mode() == mode,
            request.completion() == completion,
    {
        RefreshRequest { region, mode, completion }
    }

    /// Returns the visible region.
    #[verifier::when_used_as_spec(spec_region)]
    pub fn region(self) -> (region: RefreshRegion)
        ensures
            region == self.spec_region(),
    {
        self.region
    }

    /// Returns the requested update mode.
    #[verifier::when_used_as_spec(spec_mode)]
    pub fn mode(self) -> (mode: RefreshMode)
        ensures
            mode == self.spec_mode(),
    {
        self.mode
    }

    /// Returns the requested completion policy.
    #[verifier::when_used_as_spec(spec_completion)]
    pub fn completion(self) -> (completion: RefreshCompletionPolicy)
        ensures
            completion == self.spec_completion(),
    {
        self.completion
    }
}

/// Refresh operations exposed by a concrete display backend.
#[derive(Debug, Clone, Copy, PartialEq, Eq, Structural)]
pub struct RefreshCapabilities {
    partial: bool,
    full: bool,
    maximum_completion_wait_millis: Option<NonZeroU32>,
}

impl RefreshCapabilities {
    /// Whether `mode` is available.
    pub closed spec fn spec_supports(self, mode: RefreshMode) -> bool {
        match mode {
            RefreshMode::Partial => self.partial,
            RefreshMode::Full => self.full,
        }
    }

    /// The longest completion wait, if waiting is available.
    pub closed spec fn spec_maximum_wait(self) -> Option<NonZeroU32> {
        self.maximum_completion_wait_millis
    }

    /// Constructs a non-empty refresh capability set.
    ///
    /// A missing maximum completion duration means that completion waiting is
    /// not available.
    pub fn try_new(
        partial: bool,
        full: bool,
        maximum_completion_wait_millis: Option<NonZeroU32>,
    ) -> (result: Result<Self, RefreshCapabilityError>)
        ensures
            match result {
                Ok(capabilities) => {
                    &&& partial || full
                    &&& capabilities.supports(RefreshMode::Partial) == partial
                    &&& capabilities.supports(RefreshMode::Full) == full
                    &&& capabilities.maximum_completion_wait_millis()
                        == maximum_completion_wait_millis
                },
                Err(error) => !partial && !full && error == RefreshCapabilityError::NoRefreshModes,
            },
    {
        if !partial && !full {
            return Err(RefreshCapabilityError::NoRefreshModes);
        }
        Ok(RefreshCapabilities { partial, full, maximum_completion_wait_millis })
    }

    /// Returns whether `mode` is available.
    #[verifier::when_used_as_spec(spec_supports)]
    pub fn supports(self, mode: RefreshMode) -> (supported: bool)
        ensures
            supported == self.spec_supports(mode),
    {
        match mode {
            RefreshMode::Partial => self.partial,
            RefreshMode::Full => self.full,
        }
    }

    /// Returns the completion-wait bound, if any.
    #[verifier::when_used_as_spec(spec_maximum_wait)]
    pub fn maximum_completion_wait_millis(self) -> (maximum: Option<NonZeroU32>)
        ensures
            maximum == self.spec_maximum_wait(),
    {
        self.maximum_completion_wait_millis
    }

    /// What is wrong with a request, if anything is.
    pub open spec fn verdict(self, request: RefreshRequest) -> Result<(), RefreshRequestError> {
        if !self.supports(request.mode()) {
            Err(RefreshRequestError::UnsupportedMode { mode: request.mode() })
        } else {
            match (request.completion(), self.maximum_completion_wait_millis()) {
                (RefreshCompletionPolicy::DoNotWait, _) => Ok(()),
                (RefreshCompletionPolicy::Wait { .. }, None) => Err(
                    RefreshRequestError::CompletionWaitUnsupported,
                ),
                (RefreshCompletionPolicy::Wait { timeout_millis }, Some(maximum)) => {
                    if timeout_millis@ > maximum@ {
                        Err(
                            RefreshRequestError::CompletionWaitAboveMaximum {
                                observed_millis: timeout_millis,
                                maximum_millis: maximum,
                            },
                        )
                    } else {
                        Ok(())
                    }
                },
            }
        }
    }

    /// Checks a request against the mode and completion capabilities.
    pub fn validate(self, request: RefreshRequest) -> (result: Result<(), RefreshRequestError>)
        ensures
            result == self.verdict(request),
    {
        if !self.supports(request.mode) {
            return Err(RefreshRequestError::UnsupportedMode { mode: request.mode });
        }
        let timeout_millis: NonZeroU32 = match request.completion {
            RefreshCompletionPolicy::Wait { timeout_millis } => timeout_millis,
            RefreshCompletionPolicy::DoNotWait => {
                return Ok(());
            },
        };
        let maximum: NonZeroU32 = match self.maximum_completion_wait_millis {
            Some(maximum) => maximum,
            None => {
                return Err(RefreshRequestError::CompletionWaitUnsupported);
            },
        };
        if timeout_millis.get() > maximum.get() {
            return Err(
                RefreshRequestError::CompletionWaitAboveMaximum {
                    observed_millis: timeout_millis,
                    maximum_millis: maximum,
                },
            );
        }
        Ok(())
    }
}

/// A non-zero update marker that cannot be confused with another integer ID.
#[derive(Debug, Clone, Copy, PartialEq, Eq, Ord, Hash, Structural)]
pub struct UpdateMarker(NonZeroU32);

impl View for UpdateMarker {
    type V = u32;

    closed spec fn view(&self) -> u32 {
        self.0@
    }
}

impl PartialOrd for UpdateMarker {
    fn partial_cmp(&self, other: &Self) -> (order: Option<core::cmp::Ordering>) {
        let mine: u32 = self.0.get();
        let others: u32 = other.0.get();
        if mine < others {
            Some(core::cmp::Ordering::Less)
        } else if mine == others {
            Some(core::cmp::Ordering::Equal)
        } else {
            Some(core::cmp::Ordering::Greater)
        }
    }
}

impl vstd::std_specs::cmp::PartialOrdSpecImpl for UpdateMarker {
    open spec fn obeys_partial_cmp_spec() -> bool {
        true
    }

    open spec fn partial_cmp_spec(&self, other: &Self) -> Option<core::cmp::Ordering> {
        if self@ < other@ {
            Some(core::cmp::Ordering::Less)
        } else if self@ == other@ {
            Some(core::cmp::Ordering::Equal)
        } else {
            Some(core::cmp::Ordering::Greater)
        }
    }
}

/// Markers are told apart and ordered by their integers.
pub proof fn law_markers_follow_their_integers(a: UpdateMarker, b: UpdateMarker)
    ensures
        a == b <==> a@ == b@,
        vstd::std_specs::cmp::PartialOrdSpec::partial_cmp_spec(&a, &b) == Some(
            core::cmp::Ordering::Less,
        ) <==> a@ < b@,
        vstd::std_specs::cmp::PartialOrdSpec::partial_cmp_spec(&a, &b) == Some(
            core::cmp::Ordering::Equal,
        ) <==> a == b,
{
    if a@ == b@ {
        NonZeroU32::view_is_injective(a.0, b.0);
    }
}

impl UpdateMarker {
    /// Returns the integer passed to the platform update ABI.
    pub fn get(self) -> (marker: u32)
        ensures
            marker == self@,
            marker != 0,
    {
        self.0.get()
    }
}

/// Allocates sequential, non-zero update markers for one backend instance.
#[derive(Debug, Clone, Copy, PartialEq, Eq, Structural)]
pub struct UpdateMarkerSequence {
    next: NonZeroU32,
}

impl View for UpdateMarkerSequence {
    type V = u32;

    /// The marker that is allocated next.
    closed spec fn view(&self) -> u32 {
        self.next@
    }
}

impl Default for UpdateMarkerSequence {
    fn default() -> (sequence: Self)
        ensures
            sequence@ == 1,
    {
        UpdateMarkerSequence { next: NonZeroU32::one() }
    }
}

/// The marker that follows `marker`; zero is never used.
pub open spec fn following_marker(marker: u32) -> u32 {
    if marker == u32::MAX {
        1
    } else {
        (marker + 1) as u32
    }
}

impl UpdateMarkerSequence {
    /// Starts a sequence at an explicitly restored non-zero value.
    pub fn starting_at(next: NonZeroU32) -> (sequence: Self)
        ensures
            sequence@ == next@,
    {
        UpdateMarkerSequence { next }
    }

    /// Allocates the current marker and advances, wrapping `u32::MAX` to one.
    pub fn allocate(&mut self) -> (marker: UpdateMarker)
        ensures
            marker@ == old(self)@,
            marker@ != 0,
            final(self)@ == following_marker(old(self)@),
    {
        let marker: UpdateMarker = UpdateMarker(self.next);
        let current: u32 = self.next.get();
        let following: u32 = if current == u32::MAX {
            1
        } else {
            current + 1
        };
        if let Some(next) = NonZeroU32::new(following) {
            self.next = next;
        }
        marker
    }
}

/// The marker after `n` allocations.
pub open spec fn marker_after(start: u32, n: nat) -> u32
    decreases n,
{
    if n == 0 {
        start
    } else {
        following_marker(marker_after(start, (n - 1) as nat))
    }
}

/// The marker after `n` allocations is found by counting round the non-zero
/// 32-bit numbers.
proof fn marker_counts_round(start: u32, n: nat)
    requires
        start != 0,
    ensures
        marker_after(start, n) == (start - 1 + n) % 0xffff_ffff + 1,
    decreases n,
{
    if n > 0 {
        marker_counts_round(start, (n - 1) as nat);
        let before = start - 1 + (n - 1);
        assert((before + 1) % 0xffff_ffff == if before % 0xffff_ffff == 0xffff_fffe {
            0int
        } else {
            before % 0xffff_ffff + 1
        });
    }
}

/// Markers are never zero, and no marker comes again before every other
/// non-zero number was used.
pub proof fn law_markers_are_non_zero_and_distinct(start: u32, i: nat, j: nat)
    requires
        start != 0,
        i < j < i + 0xffff_ffff,
    ensures
        marker_after(start, i) != 0,
        marker_after(start, i) != marker_after(start, j),
{
    marker_counts_round(start, i);
    marker_counts_round(start, j);
    let a = start - 1 + i;
    let b = start - 1 + j;
    if a % 0xffff_ffff == b % 0xffff_ffff {
        vstd::arithmetic::div_mod::lemma_fundamental_div_mod(a, 0xffff_ffff);
        vstd::arithmetic::div_mod::lemma_fundamental_div_mod(b, 0xffff_ffff);
        assert(b - a == 0xffff_ffff * (b / 0xffff_ffff - a / 0xffff_ffff));
    }
}

/// Invalid refresh capabilities.
#[derive(Debug, Clone, Copy, PartialEq, Eq, Structural)]
#[non_exhaustive]
pub enum RefreshCapabilityError {
    /// A display backend exposed neither partial nor full updates.
    NoRefreshModes,
}

impl RefreshCapabilityError {
    /// Describes the error for an operator.
    pub fn message(&self) -> (message: String)
        ensures
            message@ == "at least one refresh mode is required"@,
    {
        "at least one refresh mode is required".to_owned()
    }
}

/// A refresh request that cannot be safely submitted.
#[derive(Debug, Clone, Copy, PartialEq, Eq, Structural)]
#[non_exhaustive]
pub enum RefreshRequestError {
    /// One region dimension was zero.
    ZeroRegionExtent { axis: CoordinateAxis },
    /// Region endpoint arithmetic overflowed.
    RegionOverflow,
    /// The region exceeded the visible display.
    RegionOutOfBounds { display: DisplayExtent },
    /// The requested update mode is not available.
    UnsupportedMode { mode: RefreshMode },
    /// Completion waiting is not available.
    CompletionWaitUnsupported,
    /// The requested completion wait exceeded the bound.
    CompletionWaitAboveMaximum { observed_millis: NonZeroU32, maximum_millis: NonZeroU32 },
}

impl RefreshRequestError {
    /// The operator-facing description of the error.
    pub open spec fn spec_message(self) -> Seq<char> {
        match self {
            RefreshRequestError::ZeroRegionExtent { axis } => {
                "refresh region "@ + axis.spec_name() + " extent must be non-zero"@
            },
            RefreshRequestError::RegionOverflow => "refresh region arithmetic overflow"@,
            RefreshRequestError::RegionOutOfBounds { display } => {
                "refresh region exceeds "@ + crate::text::decimal(display.width() as nat) + "x"@
                    + crate::text::decimal(display.height() as nat) + " display"@
            },
            RefreshRequestError::UnsupportedMode { mode } => {
                "refresh mode "@ + mode.spec_name() + " is not supported"@
            },
            RefreshRequestError::CompletionWaitUnsupported => {
                "refresh completion wait is not supported"@
            },
            RefreshRequestError::CompletionWaitAboveMaximum { observed_millis, maximum_millis } => {
                "refresh completion wait "@ + crate::text::decimal(observed_millis@ as nat)
                    + " ms exceeds "@ + crate::text::decimal(maximum_millis@ as nat)
                    + " ms maximum"@
            },
        }
    }

    /// Describes the error for an operator.
    pub fn message(&self) -> (message: String)
        ensures
            message@ == self.spec_message(),
    {
        let mut message: String = String::new();
        match *self {
            RefreshRequestError::ZeroRegionExtent { axis } => {
                message.append("refresh region ");
                message.append(axis.name());
                message.append(" extent must be non-zero");
            },
            RefreshRequestError::RegionOverflow => {
                message.append("refresh region arithmetic overflow");
            },
            RefreshRequestError::RegionOutOfBounds { display } => {
                message.append("refresh region exceeds ");
                push_decimal(&mut message, display.width() as u64);
                message.append("x");
                push_decimal(&mut message, display.height() as u64);
                message.append(" display");
            },
            RefreshRequestError::UnsupportedMode { mode } => {
                message.append("refresh mode ");
                message.append(mode.name());
                message.append(" is not supported");
            },
            RefreshRequestError::CompletionWaitUnsupported => {
                message.append("refresh completion wait is not supported");
            },
            RefreshRequestError::CompletionWaitAboveMaximum { observed_millis, maximum_millis } => {
                message.append("refresh completion wait ");
                push_decimal(&mut message, observed_millis.get() as u64);
                message.append(" ms exceeds ");
                push_decimal(&mut message, maximum_millis.get() as u64);
                message.append(" ms maximum");
            },
        }
        assert(message@ =~= self.spec_message());
        message
    }
}

/// A failure of a display backend.
#[derive(Debug, Clone, Copy, PartialEq, Eq, Structural)]
#[non_exhaustive]
pub enum RefreshError {
    /// The request failed validation before platform I/O.
    InvalidRequest(RefreshRequestError),
    /// The framebuffer could not be opened or acquired.
    DeviceUnavailable { errno: Option<NonZeroU16> },
    /// The platform rejected an update submission.
    SubmissionFailed { marker: UpdateMarker, errno: Option<NonZeroU16> },
    /// Waiting for the submitted marker failed.
    CompletionFailed { marker: UpdateMarker, errno: Option<NonZeroU16> },
    /// The submitted marker did not complete within its strict bound.
    CompletionTimedOut { marker: UpdateMarker, timeout_millis: NonZeroU32 },
}

/// ` with errno ` and the number, or nothing.
pub open spec fn errno_suffix(errno: Option<NonZeroU16>) -> Seq<char> {
    match errno {
        Some(errno) => " with errno "@ + crate::text::decimal(errno@ as nat),
        None => Seq::empty(),
    }
}

fn push_errno(message: &mut String, errno: Option<NonZeroU16>)
    ensures
        final(message)@ == old(message)@ + errno_suffix(errno),
{
    if let Some(errno) = errno {
        message.append(" with errno ");
        push_decimal(message, errno.get() as u64);
    }
    assert(message@ =~= old(message)@ + errno_suffix(errno));
}

impl RefreshError {
    /// The operator-facing description of the error.
    pub open spec fn spec_message(self) -> Seq<char> {
        match self {
            RefreshError::InvalidRequest(error) => {
                "invalid refresh request: "@ + error.spec_message()
            },
            RefreshError::DeviceUnavailable { errno } => {
                "display device is unavailable"@ + errno_suffix(errno)
            },
            RefreshError::SubmissionFailed { marker, errno } => {
                "refresh marker "@ + crate::text::decimal(marker@ as nat) + " submission failed"@
                    + errno_suffix(errno)
            },
            RefreshError::CompletionFailed { marker, errno } => {
                "refresh marker "@ + crate::text::decimal(marker@ as nat) + " completion failed"@
                    + errno_suffix(errno)
            },
            RefreshError::CompletionTimedOut { marker, timeout_millis } => {
                "refresh marker "@ + crate::text::decimal(marker@ as nat)
                    + " did not complete within "@ + crate::text::decimal(timeout_millis@ as nat)
                    + " ms"@
            },
        }
    }

    /// Describes the error for an operator.
    pub fn message(&self) -> (message: String)
        ensures
            message@ == self.spec_message(),
    {
        let mut message: String = String::new();
        match *self {
            RefreshError::InvalidRequest(error) => {
                message.append("invalid refresh request: ");
                message.append(error.message().as_str());
            },
            RefreshError::DeviceUnavailable { errno } => {
                message.append("display device is unavailable");
                push_errno(&mut message, errno);
            },
            RefreshError::SubmissionFailed { marker, errno } => {
                message.append("refresh marker ");
                push_decimal(&mut message, marker.get() as u64);
                message.append(" submission failed");
                push_errno(&mut message, errno);
            },
            RefreshError::CompletionFailed { marker, errno } => {
                message.append("refresh marker ");
                push_decimal(&mut message, marker.get() as u64);
                message.append(" completion failed");
                push_errno(&mut message, errno);
            },
            RefreshError::CompletionTimedOut { marker, timeout_millis } => {
                message.append("refresh marker ");
                push_decimal(&mut message, marker.get() as u64);
                message.append(" did not complete within ");
                push_decimal(&mut message, timeout_millis.get() as u64);
                message.append(" ms");
            },
        }
        assert(message@ =~= self.spec_message());
        message
    }

    /// Returns the request error behind the failure, if there is one.
    pub fn source(&self) -> (source: Option<RefreshRequestError>)
        ensures
            source == (match *self {
                RefreshError::InvalidRequest(error) => Some(error),
                _ => None,
            }),
    {
        match *self {
            RefreshError::InvalidRequest(error) => Some(error),
            _ => None,
        }
    }
}

impl From<RefreshRequestError> for RefreshError {
    fn from(error: RefreshRequestError) -> (failure: Self) {
        RefreshError::InvalidRequest(error)
    }
}

impl vstd::std_specs::convert::FromSpecImpl<RefreshRequestError> for RefreshError {
    open spec fn obeys_from_spec() -> bool {
        true
    }

    open spec fn from_spec(error: RefreshRequestError) -> Self {
        RefreshError::InvalidRequest(error)
    }
}

/// A request is accepted exactly when its mode is supported and it does not
/// wait, or waits no longer than the backend can; what is refused is named.
pub proof fn law_requests_are_accepted_within_the_capabilities(
    capabilities: RefreshCapabilities,
    request: RefreshRequest,
)
    ensures
        capabilities.verdict(request) is Ok <==> {
            &&& capabilities.supports(request.mode())
            &&& request.completion() matches RefreshCompletionPolicy::Wait { timeout_millis } ==> (
            capabilities.maximum_completion_wait_millis() matches Some(maximum)
                && timeout_millis@ <= maximum@)
        },
        match capabilities.verdict(request) {
            Ok(()) => true,
            Err(RefreshRequestError::UnsupportedMode { mode }) => mode == request.mode()
                && !capabilities.supports(mode),
            Err(RefreshRequestError::CompletionWaitUnsupported) => request.completion() is Wait
                && capabilities.maximum_completion_wait_millis() is None,
            Err(
                RefreshRequestError::CompletionWaitAboveMaximum { observed_millis, maximum_millis },
            ) => request.completion() == (RefreshCompletionPolicy::Wait {
                timeout_millis: observed_millis,
            }) && capabilities.maximum_completion_wait_millis() == Some(maximum_millis)
                && observed_millis@ > maximum_millis@,
            Err(_) => false,
        },
{
}

/// Markers count up by one and go round from the largest number to one.
pub proof fn law_markers_count_up_and_go_round(marker: u32)
    ensures
        marker < u32::MAX ==> following_marker(marker) == marker + 1,
        following_marker(u32::MAX) == 1,
{
}

/// A region covers the pixels from its origin on, as many in each direction as
/// it is wide and high.
pub proof fn law_regions_cover_their_rectangle(region: RefreshRegion, px: int, py: int)
    ensures
        region.covers(px, py) <==> 0 <= px - region.x() < region.width() && 0 <= py - region.y()
            < region.height(),
{
}

/// Each message names what is wrong with a request, with the values at fault.
pub proof fn law_request_messages_tell_what_is_wrong(told: RefreshRequestError)
    ensures
        told matches RefreshRequestError::ZeroRegionExtent { axis } ==> told.spec_message()
            == "refresh region "@
            + axis.spec_name()
            + " extent must be non-zero"@,
        told matches RefreshRequestError::RegionOverflow ==> told.spec_message()
            == "refresh region arithmetic overflow"@,
        told matches RefreshRequestError::RegionOutOfBounds { display } ==> told.spec_message()
            == "refresh region exceeds "@
            + crate::text::decimal(display.width() as nat)
            + "x"@
            + crate::text::decimal(display.height() as nat)
            + " display"@,
        told matches RefreshRequestError::UnsupportedMode { mode } ==> told.spec_message()
            == "refresh mode "@
            + mode.spec_name()
            + " is not supported"@,
        told matches RefreshRequestError::CompletionWaitUnsupported ==> told.spec_message()
            == "refresh completion wait is not supported"@,
        told matches RefreshRequestError::CompletionWaitAboveMaximum {
            observed_millis,
            maximum_millis,
        }
            ==> told.spec_message()
            == "refresh completion wait "@
            + crate::text::decimal(observed_millis@ as nat)
            + " ms exceeds "@
            + crate::text::decimal(maximum_millis@ as nat)
            + " ms maximum"@,
{
}

/// Each message names what failed, with the values at fault.
pub proof fn law_refresh_messages_tell_what_failed(told: RefreshError)
    ensures
        told matches RefreshError::InvalidRequest(error) ==> told.spec_message()
            == "invalid refresh request: "@
            + error.spec_message(),
        told matches RefreshError::DeviceUnavailable { errno } ==> told.spec_message()
            == "display device is unavailable"@
            + errno_suffix(errno),
        told matches RefreshError::SubmissionFailed { marker, errno } ==> told.spec_message()
            == "refresh marker "@
            + crate::text::decimal(marker@ as nat)
            + " submission failed"@
            + errno_suffix(errno),
        told matches RefreshError::CompletionFailed { marker, errno } ==> told.spec_message()
            == "refresh marker "@
            + crate::text::decimal(marker@ as nat)
            + " completion failed"@
            + errno_suffix(errno),
        told matches RefreshError::CompletionTimedOut { marker, timeout_millis }
            ==> told.spec_message()
            == "refresh marker "@
            + crate::text::decimal(marker@ as nat)
            + " did not complete within "@
            + crate::text::decimal(timeout_millis@ as nat)
            + " ms"@,
{
}

} // verus!
