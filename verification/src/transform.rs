//! Display geometry and the mapping from raw input axes to display pixels.

use crate::nonzero::NonZeroU32;
use crate::text::{push_decimal, push_signed_decimal};
use vstd::prelude::*;

verus! {

/// A display coordinate axis.
#[derive(Debug, Clone, Copy, PartialEq, Eq, Structural)]
pub enum CoordinateAxis {
    /// Horizontal display extent.
    X,
    /// Vertical display extent.
    Y,
}

impl CoordinateAxis {
    /// The lower-case letter that names the axis.
    pub open spec fn spec_name(self) -> Seq<char> {
        match self {
            CoordinateAxis::X => "x"@,
            CoordinateAxis::Y => "y"@,
        }
    }

    /// Returns the lower-case letter that names the axis.
    pub fn name(self) -> (name: &'static str)
        ensures
            name@ == self.spec_name(),
    {
        match self {
            CoordinateAxis::X => "x",
            CoordinateAxis::Y => "y",
        }
    }
}

/// Why a coordinate transform could not be built or applied.
#[derive(Debug, Clone, Copy, PartialEq, Eq, Structural)]
#[non_exhaustive]
pub enum TransformError {
    /// An inclusive raw axis range had no usable span.
    InvalidAxisRange { minimum: i32, maximum: i32 },
    /// A display extent was zero.
    ZeroDisplayExtent { axis: CoordinateAxis },
    /// A Linux framebuffer rotation value was not one of `0..=3`.
    UnsupportedFramebufferRotation { value: u32 },
    /// An intermediate value could not be represented safely.
    ArithmeticOverflow,
}

impl TransformError {
    /// The operator-facing description of the error.
    pub open spec fn spec_message(self) -> Seq<char> {
        match self {
            TransformError::InvalidAxisRange { minimum, maximum } => {
                "invalid inclusive axis range "@ + crate::text::signed_decimal(minimum as int)
                    + "..="@ + crate::text::signed_decimal(maximum as int)
            },
            TransformError::ZeroDisplayExtent { axis } => {
                "display "@ + axis.spec_name() + " extent must be non-zero"@
            },
            TransformError::UnsupportedFramebufferRotation { value } => {
                "unsupported framebuffer rotation "@ + crate::text::decimal(value as nat)
            },
            TransformError::ArithmeticOverflow => "coordinate arithmetic overflow"@,
        }
    }

    /// Describes the error for an operator.
    pub fn message(&self) -> (message: String)
        ensures
            message@ == self.spec_message(),
    {
        let mut message: String = String::new();
        match *self {
            TransformError::InvalidAxisRange { minimum, maximum } => {
                message.append("invalid inclusive axis range ");
                push_signed_decimal(&mut message, minimum as i64);
                message.append("..=");
                push_signed_decimal(&mut message, maximum as i64);
            },
            TransformError::ZeroDisplayExtent { axis } => {
                message.append("display ");
                message.append(axis.name());
                message.append(" extent must be non-zero");
            },
            TransformError::UnsupportedFramebufferRotation { value } => {
                message.append("unsupported framebuffer rotation ");
                push_decimal(&mut message, value as u64);
            },
            TransformError::ArithmeticOverflow => {
                message.append("coordinate arithmetic overflow");
            },
        }
        assert(message@ =~= self.spec_message());
        message
    }
}

/// A non-zero display extent in pixels.
#[derive(Debug, Clone, Copy, PartialEq, Eq, Structural)]
pub struct DisplayExtent {
    width: NonZeroU32,
    height: NonZeroU32,
}

impl DisplayExtent {
    /// The horizontal pixel count.
    pub closed spec fn spec_width(self) -> u32 {
        self.width@
    }

    /// The vertical pixel count.
    pub closed spec fn spec_height(self) -> u32 {
        self.height@
    }

    /// Builds an extent from dimensions that are already known to be non-zero.
    pub fn new(width: NonZeroU32, height: NonZeroU32) -> (extent: Self)
        ensures
            extent.width() == width@,
            extent.height() == height@,
    {
        Self { width, height }
    }

    /// Builds an extent from ordinary integers.
    ///
    /// The width is examined first: a zero width is reported even when the
    /// height is zero too.
    pub fn try_new(width: u32, height: u32) -> (result: Result<Self, TransformError>)
        ensures
            match result {
                Ok(extent) => width != 0 && height != 0 && extent.width() == width
                    && extent.height() == height,
                Err(error) => if width == 0 {
                    error == (TransformError::ZeroDisplayExtent { axis: CoordinateAxis::X })
                } else {
                    height == 0 && error == (TransformError::ZeroDisplayExtent {
                        axis: CoordinateAxis::Y,
                    })
                },
            },
    {
        let width = match NonZeroU32::new(width) {
            Some(width) => width,
            None => {
                return Err(TransformError::ZeroDisplayExtent { axis: CoordinateAxis::X });
            },
        };
        let height = match NonZeroU32::new(height) {
            Some(height) => height,
            None => {
                return Err(TransformError::ZeroDisplayExtent { axis: CoordinateAxis::Y });
            },
        };
        Ok(Self::new(width, height))
    }

    /// Returns the horizontal pixel count.
    #[verifier::when_used_as_spec(spec_width)]
    pub fn width(self) -> (width: u32)
        ensures
            width == self.spec_width(),
            width != 0,
    {
        self.width.get()
    }

    /// Returns the vertical pixel count.
    #[verifier::when_used_as_spec(spec_height)]
    pub fn height(self) -> (height: u32)
        ensures
            height == self.spec_height(),
            height != 0,
    {
        self.height.get()
    }

    pub(crate) fn non_zero_width(self) -> (width: NonZeroU32)
        ensures
            width@ == self.width(),
    {
        self.width
    }

    pub(crate) fn non_zero_height(self) -> (height: NonZeroU32)
        ensures
            height@ == self.height(),
    {
        self.height
    }

    /// Two extents with the same dimensions are the same extent.
    pub proof fn dimensions_determine_extent(a: Self, b: Self)
        requires
            a.width() == b.width(),
            a.height() == b.height(),
        ensures
            a == b,
    {
        NonZeroU32::view_is_injective(a.width, b.width);
        NonZeroU32::view_is_injective(a.height, b.height);
    }
}

/// A non-empty inclusive range reported by an input axis.
#[derive(Debug, Clone, Copy, PartialEq, Eq, Structural)]
pub struct AxisRange {
    minimum: i32,
    maximum: i32,
}

impl AxisRange {
    #[verifier::type_invariant]
    spec fn inv(self) -> bool {
        self.minimum < self.maximum
    }

    /// The inclusive minimum.
    pub closed spec fn spec_minimum(self) -> i32 {
        self.minimum
    }

    /// The inclusive maximum.
    pub closed spec fn spec_maximum(self) -> i32 {
        self.maximum
    }

    /// Builds an inclusive raw input range; `minimum` must be strictly less
    /// than `maximum`.
    pub fn try_new(minimum: i32, maximum: i32) -> (result: Result<Self, TransformError>)
        ensures
            match result {
                Ok(range) => minimum < maximum && range.minimum() == minimum && range.maximum()
                    == maximum,
                Err(error) => minimum >= maximum && error == (TransformError::InvalidAxisRange {
                    minimum,
                    maximum,
                }),
            },
    {
        if minimum >= maximum {
            return Err(TransformError::InvalidAxisRange { minimum, maximum });
        }
        Ok(Self { minimum, maximum })
    }

    /// Returns the inclusive minimum.
    #[verifier::when_used_as_spec(spec_minimum)]
    pub fn minimum(self) -> (minimum: i32)
        ensures
            minimum == self.spec_minimum(),
            minimum < self.maximum(),
    {
        proof {
            use_type_invariant(&self);
        }
        self.minimum
    }

    /// Returns the inclusive maximum.
    #[verifier::when_used_as_spec(spec_maximum)]
    pub fn maximum(self) -> (maximum: i32)
        ensures
            maximum == self.spec_maximum(),
            self.minimum() < maximum,
    {
        proof {
            use_type_invariant(&self);
        }
        self.maximum
    }
}

/// A display rotation in quarter turns.
#[derive(Debug, Clone, Copy, PartialEq, Eq, Structural)]
pub enum QuarterTurn {
    /// No rotation.
    Upright,
    /// Ninety degrees clockwise.
    Clockwise,
    /// One hundred eighty degrees.
    UpsideDown,
    /// Ninety degrees counter-clockwise.
    CounterClockwise,
}

impl Default for QuarterTurn {
    fn default() -> (turn: Self)
        ensures
            turn == QuarterTurn::Upright,
    {
        QuarterTurn::Upright
    }
}

impl QuarterTurn {
    /// The rotation that a Linux `FB_ROTATE_*` value names, if it names one.
    pub open spec fn of_linux_framebuffer(value: u32) -> Result<QuarterTurn, TransformError> {
        if value == 0 {
            Ok(QuarterTurn::Upright)
        } else if value == 1 {
            Ok(QuarterTurn::Clockwise)
        } else if value == 2 {
            Ok(QuarterTurn::UpsideDown)
        } else if value == 3 {
            Ok(QuarterTurn::CounterClockwise)
        } else {
            Err(TransformError::UnsupportedFramebufferRotation { value })
        }
    }

    /// Names the rotation of a Linux `FB_ROTATE_*` value; only `0..=3` have one.
    pub fn try_from_linux_framebuffer(value: u32) -> (result: Result<Self, TransformError>)
        ensures
            result == Self::of_linux_framebuffer(value),
    {
        match value {
            0 => Ok(QuarterTurn::Upright),
            1 => Ok(QuarterTurn::Clockwise),
            2 => Ok(QuarterTurn::UpsideDown),
            3 => Ok(QuarterTurn::CounterClockwise),
            _ => Err(TransformError::UnsupportedFramebufferRotation { value }),
        }
    }
}

impl TryFrom<u32> for QuarterTurn {
    type Error = TransformError;

    fn try_from(value: u32) -> (result: Result<Self, TransformError>) {
        Self::try_from_linux_framebuffer(value)
    }
}

impl vstd::std_specs::convert::TryFromSpecImpl<u32> for QuarterTurn {
    open spec fn obeys_try_from_spec() -> bool {
        true
    }

    open spec fn try_from_spec(value: u32) -> Result<Self, TransformError> {
        Self::of_linux_framebuffer(value)
    }
}

/// A signed sample from two raw input axes.
#[derive(Debug, Clone, Copy, PartialEq, Eq, Structural)]
pub struct RawPoint {
    /// Raw X-axis value.
    pub x: i32,
    /// Raw Y-axis value.
    pub y: i32,
}

/// A pixel coordinate.
#[derive(Debug, Clone, Copy, PartialEq, Eq, Structural)]
pub struct DisplayPoint {
    /// Horizontal pixel coordinate.
    pub x: u32,
    /// Vertical pixel coordinate.
    pub y: u32,
}

/// `value` moved to the nearest end of `low..=high` when it lies outside.
pub open spec fn clamped(value: int, low: int, high: int) -> int {
    if value < low {
        low
    } else if value > high {
        high
    } else {
        value
    }
}

/// The pixel, out of `extent`, that a raw value of the inclusive range
/// `minimum..=maximum` stands for: the range is stretched linearly so that its
/// ends meet the first and the last pixel, and fractions are rounded down.
pub open spec fn normalized(value: int, minimum: int, maximum: int, extent: int) -> int {
    (clamped(value, minimum, maximum) - minimum) * (extent - 1) / (maximum - minimum)
}

/// The position of a pixel of a `width` by `height` display after `turn`.
pub open spec fn rotated(x: int, y: int, width: int, height: int, turn: QuarterTurn) -> (int, int) {
    match turn {
        QuarterTurn::Upright => (x, y),
        QuarterTurn::Clockwise => (height - 1 - y, x),
        QuarterTurn::UpsideDown => (width - 1 - x, height - 1 - y),
        QuarterTurn::CounterClockwise => (y, width - 1 - x),
    }
}

/// The width and height of a display after `turn`.
pub open spec fn rotated_extent(width: int, height: int, turn: QuarterTurn) -> (int, int) {
    match turn {
        QuarterTurn::Upright | QuarterTurn::UpsideDown => (width, height),
        QuarterTurn::Clockwise | QuarterTurn::CounterClockwise => (height, width),
    }
}

/// The settings of a mapping.
#[derive(Debug, Clone, Copy, PartialEq, Eq, Structural)]
pub struct InputTransformParts {
    /// The declared range of raw X values.
    pub raw_x: AxisRange,
    /// The declared range of raw Y values.
    pub raw_y: AxisRange,
    /// The display extent before rotation.
    pub display: DisplayExtent,
    /// Whether raw X and Y feed the opposite display axes.
    pub swap_xy: bool,
    /// Whether the unrotated X coordinate is mirrored.
    pub invert_x: bool,
    /// Whether the unrotated Y coordinate is mirrored.
    pub invert_y: bool,
    /// The final rotation.
    pub rotation: QuarterTurn,
}

/// A mapping from two raw axes to display pixels.
#[derive(Debug, Clone, Copy, PartialEq, Eq, Structural)]
pub struct InputTransform {
    raw_x: AxisRange,
    raw_y: AxisRange,
    display: DisplayExtent,
    swap_xy: bool,
    invert_x: bool,
    invert_y: bool,
    rotation: QuarterTurn,
}

impl InputTransform {
    /// The declared range of raw X values.
    pub closed spec fn raw_x(self) -> AxisRange {
        self.raw_x
    }

    /// The declared range of raw Y values.
    pub closed spec fn raw_y(self) -> AxisRange {
        self.raw_y
    }

    /// The display extent before rotation.
    pub closed spec fn display(self) -> DisplayExtent {
        self.display
    }

    /// Whether raw X and Y feed the opposite display axes.
    pub closed spec fn swap_xy(self) -> bool {
        self.swap_xy
    }

    /// Whether the unrotated X coordinate is mirrored.
    pub closed spec fn invert_x(self) -> bool {
        self.invert_x
    }

    /// Whether the unrotated Y coordinate is mirrored.
    pub closed spec fn invert_y(self) -> bool {
        self.invert_y
    }

    /// The final rotation.
    pub closed spec fn rotation(self) -> QuarterTurn {
        self.rotation
    }

    /// Creates an upright transform with no swap or inversion.
    pub fn new(raw_x: AxisRange, raw_y: AxisRange, display: DisplayExtent) -> (transform: Self)
        ensures
            transform.raw_x() == raw_x,
            transform.raw_y() == raw_y,
            transform.display() == display,
            !transform.swap_xy(),
            !transform.invert_x(),
            !transform.invert_y(),
            transform.rotation() == QuarterTurn::Upright,
    {
        Self {
            raw_x,
            raw_y,
            display,
            swap_xy: false,
            invert_x: false,
            invert_y: false,
            rotation: QuarterTurn::Upright,
        }
    }

    /// Sets whether raw X and Y are assigned to the opposite display axes.
    pub fn with_swap_xy(self, swap_xy: bool) -> (transform: Self)
        ensures
            transform.swap_xy() == swap_xy,
            transform.raw_x() == self.raw_x(),
            transform.raw_y() == self.raw_y(),
            transform.display() == self.display(),
            transform.invert_x() == self.invert_x(),
            transform.invert_y() == self.invert_y(),
            transform.rotation() == self.rotation(),
    {
        Self { swap_xy, ..self }
    }

    /// Sets whether the unrotated display X coordinate is inverted.
    pub fn with_invert_x(self, invert_x: bool) -> (transform: Self)
        ensures
            transform.invert_x() == invert_x,
            transform.raw_x() == self.raw_x(),
            transform.raw_y() == self.raw_y(),
            transform.display() == self.display(),
            transform.swap_xy() == self.swap_xy(),
            transform.invert_y() == self.invert_y(),
            transform.rotation() == self.rotation(),
    {
        Self { invert_x, ..self }
    }

    /// Sets whether the unrotated display Y coordinate is inverted.
    pub fn with_invert_y(self, invert_y: bool) -> (transform: Self)
        ensures
            transform.invert_y() == invert_y,
            transform.raw_x() == self.raw_x(),
            transform.raw_y() == self.raw_y(),
            transform.display() == self.display(),
            transform.swap_xy() == self.swap_xy(),
            transform.invert_x() == self.invert_x(),
            transform.rotation() == self.rotation(),
    {
        Self { invert_y, ..self }
    }

    /// Sets the final display rotation.
    pub fn with_rotation(self, rotation: QuarterTurn) -> (transform: Self)
        ensures
            transform.rotation() == rotation,
            transform.raw_x() == self.raw_x(),
            transform.raw_y() == self.raw_y(),
            transform.display() == self.display(),
            transform.swap_xy() == self.swap_xy(),
            transform.invert_x() == self.invert_x(),
            transform.invert_y() == self.invert_y(),
    {
        Self { rotation, ..self }
    }

    /// Two mappings with the same settings are the same mapping.
    pub proof fn settings_determine_transform(a: Self, b: Self)
        requires
            a.raw_x() == b.raw_x(),
            a.raw_y() == b.raw_y(),
            a.display() == b.display(),
            a.swap_xy() == b.swap_xy(),
            a.invert_x() == b.invert_x(),
            a.invert_y() == b.invert_y(),
            a.rotation() == b.rotation(),
        ensures
            a == b,
    {
    }

    /// Returns the settings of the mapping.
    pub fn parts(self) -> (parts: InputTransformParts)
        ensures
            parts.raw_x == self.raw_x(),
            parts.raw_y == self.raw_y(),
            parts.display == self.display(),
            parts.swap_xy == self.swap_xy(),
            parts.invert_x == self.invert_x(),
            parts.invert_y == self.invert_y(),
            parts.rotation == self.rotation(),
    {
        InputTransformParts {
            raw_x: self.raw_x,
            raw_y: self.raw_y,
            display: self.display,
            swap_xy: self.swap_xy,
            invert_x: self.invert_x,
            invert_y: self.invert_y,
            rotation: self.rotation,
        }
    }

    /// Returns the display extent after rotation.
    pub fn output_extent(self) -> (extent: DisplayExtent)
        ensures
            (extent.width() as int, extent.height() as int) == rotated_extent(
                self.display().width() as int,
                self.display().height() as int,
                self.rotation(),
            ),
    {
        match self.rotation {
            QuarterTurn::Upright | QuarterTurn::UpsideDown => self.display,
            QuarterTurn::Clockwise | QuarterTurn::CounterClockwise => {
                DisplayExtent::new(self.display.height, self.display.width)
            },
        }
    }

    /// The unrotated pixel of a raw sample: each display axis takes its raw
    /// axis stretched over the display, mirrored where asked.
    pub open spec fn unrotated(self, raw: RawPoint) -> (int, int) {
        let width = self.display().width() as int;
        let height = self.display().height() as int;
        let (for_x, range_x, for_y, range_y) = if self.swap_xy() {
            (raw.y, self.raw_y(), raw.x, self.raw_x())
        } else {
            (raw.x, self.raw_x(), raw.y, self.raw_y())
        };
        let x = normalized(
            for_x as int,
            range_x.minimum() as int,
            range_x.maximum() as int,
            width,
        );
        let y = normalized(
            for_y as int,
            range_y.minimum() as int,
            range_y.maximum() as int,
            height,
        );
        (
            if self.invert_x() {
                width - 1 - x
            } else {
                x
            },
            if self.invert_y() {
                height - 1 - y
            } else {
                y
            },
        )
    }

    /// The pixel of a raw sample.
    pub open spec fn mapped(self, raw: RawPoint) -> (int, int) {
        let (x, y) = self.unrotated(raw);
        rotated(
            x,
            y,
            self.display().width() as int,
            self.display().height() as int,
            self.rotation(),
        )
    }

    /// Maps a raw sample into a pixel coordinate inside [`Self::output_extent`].
    ///
    /// Values outside the declared raw ranges are clamped. Swap and inversion
    /// are applied before the final quarter-turn. The arithmetic is wide enough
    /// for every range and extent, so the mapping always succeeds.
    pub fn map(self, raw: RawPoint) -> (result: Result<DisplayPoint, TransformError>)
        ensures
            result is Ok,
            (result->Ok_0.x as int, result->Ok_0.y as int) == self.mapped(raw),
            ({
                let (width, height) = rotated_extent(
                    self.display().width() as int,
                    self.display().height() as int,
                    self.rotation(),
                );
                result->Ok_0.x < width && result->Ok_0.y < height
            }),
    {
        let width: u32 = self.display.width();
        let height: u32 = self.display.height();
        let (mut x, mut y): (u32, u32) = if self.swap_xy {
            (
                normalize(raw.y, self.raw_y, self.display.width)?,
                normalize(raw.x, self.raw_x, self.display.height)?,
            )
        } else {
            (
                normalize(raw.x, self.raw_x, self.display.width)?,
                normalize(raw.y, self.raw_y, self.display.height)?,
            )
        };
        if self.invert_x {
            x = width - 1 - x;
        }
        if self.invert_y {
            y = height - 1 - y;
        }
        Ok(
            match self.rotation {
                QuarterTurn::Upright => DisplayPoint { x, y },
                QuarterTurn::Clockwise => DisplayPoint { x: height - 1 - y, y: x },
                QuarterTurn::UpsideDown => DisplayPoint {
                    x: width - 1 - x,
                    y: height - 1 - y,
                },
                QuarterTurn::CounterClockwise => DisplayPoint { x: y, y: width - 1 - x },
            },
        )
    }
}

fn normalize(value: i32, range: AxisRange, extent: NonZeroU32) -> (result: Result<
    u32,
    TransformError,
>)
    ensures
        result is Ok,
        result->Ok_0 == normalized(
            value as int,
            range.minimum() as int,
            range.maximum() as int,
            extent@ as int,
        ),
        result->Ok_0 < extent@,
{
    let minimum: i32 = range.minimum();
    let maximum: i32 = range.maximum();
    let clamped_value: i32 = if value < minimum {
        minimum
    } else if value > maximum {
        maximum
    } else {
        value
    };
    let offset: u128 = (clamped_value as i64 - minimum as i64) as u128;
    let span: u128 = (maximum as i64 - minimum as i64) as u128;
    let last_pixel: u128 = (extent.get() - 1) as u128;
    proof {
        law_normalization_stays_inside(
            value as int,
            minimum as int,
            maximum as int,
            extent@ as int,
        );
        assert(offset * last_pixel <= 0xffff_ffff * 0xffff_ffff) by (nonlinear_arith)
            requires
                0 <= offset <= 0xffff_ffff,
                0 <= last_pixel <= 0xffff_ffff,
        ;
    }
    let scaled: u128 = match offset.checked_mul(last_pixel) {
        Some(product) => product / span,
        None => {
            return Err(TransformError::ArithmeticOverflow);
        },
    };
    match u32::try_from(scaled) {
        Ok(pixel) => Ok(pixel),
        Err(_) => Err(TransformError::ArithmeticOverflow),
    }
}

/// Every raw value, also one outside its declared range, normalizes to a pixel
/// of the extent.
pub proof fn law_normalization_stays_inside(value: int, minimum: int, maximum: int, extent: int)
    requires
        minimum < maximum,
        extent > 0,
    ensures
        0 <= normalized(value, minimum, maximum, extent) < extent,
{
    let offset = clamped(value, minimum, maximum) - minimum;
    let span = maximum - minimum;
    let last = extent - 1;
    assert(0 <= offset * last) by (nonlinear_arith)
        requires
            0 <= offset,
            0 <= last,
    ;
    assert(offset * last <= span * last) by (nonlinear_arith)
        requires
            offset <= span,
            0 <= last,
    ;
    assert(0 <= offset * last / span <= last) by (nonlinear_arith)
        requires
            0 <= offset * last <= span * last,
            span > 0,
    ;
}

/// The ends of a raw range, and everything beyond them, normalize to the first
/// and the last pixel.
pub proof fn law_normalization_meets_the_ends(value: int, minimum: int, maximum: int, extent: int)
    requires
        minimum < maximum,
        extent > 0,
    ensures
        value <= minimum ==> normalized(value, minimum, maximum, extent) == 0,
        value >= maximum ==> normalized(value, minimum, maximum, extent) == extent - 1,
{
    let span = maximum - minimum;
    let last = extent - 1;
    assert(0 * last / span == 0) by (nonlinear_arith)
        requires
            span > 0,
    ;
    assert(span * last / span == last) by (nonlinear_arith)
        requires
            span > 0,
    ;
}

/// Normalization never reverses the order of two raw values.
pub proof fn law_normalization_is_monotone(
    first: int,
    second: int,
    minimum: int,
    maximum: int,
    extent: int,
)
    requires
        minimum < maximum,
        extent > 0,
        first <= second,
    ensures
        normalized(first, minimum, maximum, extent) <= normalized(
            second,
            minimum,
            maximum,
            extent,
        ),
{
    let a = clamped(first, minimum, maximum) - minimum;
    let b = clamped(second, minimum, maximum) - minimum;
    let span = maximum - minimum;
    let last = extent - 1;
    assert(a * last <= b * last) by (nonlinear_arith)
        requires
            a <= b,
            0 <= last,
    ;
    vstd::arithmetic::div_mod::lemma_div_is_ordered(a * last, b * last, span);
}

/// Every raw sample maps to a pixel inside the rotated extent.
pub proof fn law_mapping_stays_inside(transform: InputTransform, raw: RawPoint)
    requires
        transform.raw_x().minimum() < transform.raw_x().maximum(),
        transform.raw_y().minimum() < transform.raw_y().maximum(),
        transform.display().width() != 0,
        transform.display().height() != 0,
    ensures
        ({
            let (x, y) = transform.mapped(raw);
            let (width, height) = rotated_extent(
                transform.display().width() as int,
                transform.display().height() as int,
                transform.rotation(),
            );
            0 <= x < width && 0 <= y < height
        }),
{
    let width = transform.display().width() as int;
    let height = transform.display().height() as int;
    let (for_x, range_x, for_y, range_y) = if transform.swap_xy() {
        (raw.y, transform.raw_y(), raw.x, transform.raw_x())
    } else {
        (raw.x, transform.raw_x(), raw.y, transform.raw_y())
    };
    law_normalization_stays_inside(
        for_x as int,
        range_x.minimum() as int,
        range_x.maximum() as int,
        width,
    );
    law_normalization_stays_inside(
        for_y as int,
        range_y.minimum() as int,
        range_y.maximum() as int,
        height,
    );
}

/// A clockwise and a counter-clockwise quarter turn undo each other, in either
/// order, on every pixel and on the extent.
pub proof fn law_opposite_quarter_turns_cancel(x: int, y: int, width: int, height: int)
    ensures
        ({
            let (tx, ty) = rotated(x, y, width, height, QuarterTurn::Clockwise);
            let (tw, th) = rotated_extent(width, height, QuarterTurn::Clockwise);
            &&& rotated(tx, ty, tw, th, QuarterTurn::CounterClockwise) == (x, y)
            &&& rotated_extent(tw, th, QuarterTurn::CounterClockwise) == (width, height)
        }),
        ({
            let (tx, ty) = rotated(x, y, width, height, QuarterTurn::CounterClockwise);
            let (tw, th) = rotated_extent(width, height, QuarterTurn::CounterClockwise);
            &&& rotated(tx, ty, tw, th, QuarterTurn::Clockwise) == (x, y)
            &&& rotated_extent(tw, th, QuarterTurn::Clockwise) == (width, height)
        }),
{
}

/// Two clockwise quarter turns turn the display upside down.
pub proof fn law_two_quarter_turns_make_a_half_turn(x: int, y: int, width: int, height: int)
    ensures
        ({
            let (tx, ty) = rotated(x, y, width, height, QuarterTurn::Clockwise);
            let (tw, th) = rotated_extent(width, height, QuarterTurn::Clockwise);
            rotated(tx, ty, tw, th, QuarterTurn::Clockwise) == rotated(
                x,
                y,
                width,
                height,
                QuarterTurn::UpsideDown,
            )
        }),
{
}

// ---------------------------------------------------------------------------
// What the settings of a transform do
// ---------------------------------------------------------------------------
/// A raw value between the ends of its range keeps its share of the extent,
/// rounded down; one beyond an end counts as that end.
pub proof fn law_normalization_keeps_proportions(
    value: int,
    minimum: int,
    maximum: int,
    extent: int,
)
    requires
        minimum < maximum,
        extent > 0,
    ensures
        minimum <= value <= maximum ==> {
            let pixel = normalized(value, minimum, maximum, extent);
            &&& pixel * (maximum - minimum) <= (value - minimum) * (extent - 1)
            &&& (value - minimum) * (extent - 1) < (pixel + 1) * (maximum - minimum)
        },
        value < minimum ==> normalized(value, minimum, maximum, extent) == normalized(
            minimum,
            minimum,
            maximum,
            extent,
        ),
        value > maximum ==> normalized(value, minimum, maximum, extent) == normalized(
            maximum,
            minimum,
            maximum,
            extent,
        ),
{
    if minimum <= value <= maximum {
        let share = (value - minimum) * (extent - 1);
        let span = maximum - minimum;
        let pixel = share / span;
        vstd::arithmetic::div_mod::lemma_fundamental_div_mod(share, span);
        assert(pixel * span == span * pixel) by (nonlinear_arith);
        assert((pixel + 1) * span == span * pixel + span) by (nonlinear_arith);
    }
}

/// Without a turn, the display's X follows the raw X axis and its Y the raw Y
/// axis, or the other way round where the axes are swapped. The raw minimum of
/// the axis that is followed lies on the first pixel and its maximum on the
/// last, or the other way round where that display axis is inverted.
pub proof fn law_axes_follow_the_settings(transform: InputTransform, raw: RawPoint)
    requires
        transform.raw_x().minimum() < transform.raw_x().maximum(),
        transform.raw_y().minimum() < transform.raw_y().maximum(),
        transform.display().width() != 0,
        transform.display().height() != 0,
        transform.rotation() == QuarterTurn::Upright,
    ensures
        ({
            let (x, y) = transform.mapped(raw);
            let last_x = transform.display().width() - 1;
            let last_y = transform.display().height() - 1;
            let range_for_x = if transform.swap_xy() {
                transform.raw_y()
            } else {
                transform.raw_x()
            };
            let range_for_y = if transform.swap_xy() {
                transform.raw_x()
            } else {
                transform.raw_y()
            };
            let for_x = if transform.swap_xy() {
                raw.y
            } else {
                raw.x
            };
            let for_y = if transform.swap_xy() {
                raw.x
            } else {
                raw.y
            };
            &&& for_x <= range_for_x.minimum() ==> x == (if transform.invert_x() {
                last_x
            } else {
                0
            })
            &&& for_x >= range_for_x.maximum() ==> x == (if transform.invert_x() {
                0
            } else {
                last_x
            })
            &&& for_y <= range_for_y.minimum() ==> y == (if transform.invert_y() {
                last_y
            } else {
                0
            })
            &&& for_y >= range_for_y.maximum() ==> y == (if transform.invert_y() {
                0
            } else {
                last_y
            })
        }),
{
    let (for_x, range_x, for_y, range_y) = if transform.swap_xy() {
        (raw.y, transform.raw_y(), raw.x, transform.raw_x())
    } else {
        (raw.x, transform.raw_x(), raw.y, transform.raw_y())
    };
    law_normalization_meets_the_ends(
        for_x as int,
        range_x.minimum() as int,
        range_x.maximum() as int,
        transform.display().width() as int,
    );
    law_normalization_meets_the_ends(
        for_y as int,
        range_y.minimum() as int,
        range_y.maximum() as int,
        transform.display().height() as int,
    );
}

/// Without a turn, each display coordinate is the share that its raw axis has
/// of its range, counted from the other end where the display axis is inverted.
pub proof fn law_points_keep_their_share_of_the_display(transform: InputTransform, raw: RawPoint)
    requires
        transform.rotation() == QuarterTurn::Upright,
    ensures
        ({
            let (x, y) = transform.mapped(raw);
            let width = transform.display().width() as int;
            let height = transform.display().height() as int;
            let from_left = if transform.invert_x() {
                width - 1 - x
            } else {
                x
            };
            let from_top = if transform.invert_y() {
                height - 1 - y
            } else {
                y
            };
            let along_x = |extent: int|
                normalized(
                    raw.x as int,
                    transform.raw_x().minimum() as int,
                    transform.raw_x().maximum() as int,
                    extent,
                );
            let along_y = |extent: int|
                normalized(
                    raw.y as int,
                    transform.raw_y().minimum() as int,
                    transform.raw_y().maximum() as int,
                    extent,
                );
            if transform.swap_xy() {
                from_left == along_y(width) && from_top == along_x(height)
            } else {
                from_left == along_x(width) && from_top == along_y(height)
            }
        }),
{
}

/// A turn is applied last: a turned transform maps a raw point to where the
/// turn takes the point of the same transform without it.
pub proof fn law_turns_come_last(turned: InputTransform, upright: InputTransform, raw: RawPoint)
    requires
        turned.raw_x() == upright.raw_x(),
        turned.raw_y() == upright.raw_y(),
        turned.display() == upright.display(),
        turned.swap_xy() == upright.swap_xy(),
        turned.invert_x() == upright.invert_x(),
        turned.invert_y() == upright.invert_y(),
        upright.rotation() == QuarterTurn::Upright,
    ensures
        ({
            let (x, y) = upright.mapped(raw);
            let width = turned.display().width() as int;
            let height = turned.display().height() as int;
            turned.mapped(raw) == rotated(x, y, width, height, turned.rotation())
        }),
{
}

/// A clockwise quarter turn makes columns of rows: what stood in the top row
/// stands in the right column, and what stood in the left column stands in the
/// top row. An upright display is left alone.
pub proof fn law_clockwise_turns_go_clockwise(x: int, y: int, width: int, height: int)
    ensures
        rotated(x, y, width, height, QuarterTurn::Upright) == (x, y),
        rotated_extent(width, height, QuarterTurn::Upright) == (width, height),
        rotated_extent(width, height, QuarterTurn::Clockwise) == (height, width),
        rotated(x, 0, width, height, QuarterTurn::Clockwise) == (height - 1, x),
        rotated(0, y, width, height, QuarterTurn::Clockwise) == (height - 1 - y, 0int),
        rotated(x, y, width, height, QuarterTurn::Clockwise).1 == x,
        rotated(x, y, width, height, QuarterTurn::Clockwise).0 + y == height - 1,
{
}

/// The rotation numbers of a Linux framebuffer count clockwise quarter turns:
/// each number turns as the one before it and once more, zero does not turn, and
/// from four on there is none.
pub proof fn law_framebuffer_rotations_count_quarter_turns(
    value: u32,
    x: int,
    y: int,
    width: int,
    height: int,
)
    ensures
        QuarterTurn::of_linux_framebuffer(0) == Ok::<_, TransformError>(QuarterTurn::Upright),
        value >= 4 ==> QuarterTurn::of_linux_framebuffer(value) == Err::<QuarterTurn, _>(
            TransformError::UnsupportedFramebufferRotation { value },
        ),
        value < 3 ==> {
            let turn = QuarterTurn::of_linux_framebuffer(value)->Ok_0;
            let next = QuarterTurn::of_linux_framebuffer((value + 1) as u32)->Ok_0;
            let (tx, ty) = rotated(x, y, width, height, turn);
            let (tw, th) = rotated_extent(width, height, turn);
            &&& QuarterTurn::of_linux_framebuffer(value) is Ok
            &&& QuarterTurn::of_linux_framebuffer((value + 1) as u32) is Ok
            &&& rotated(x, y, width, height, next) == rotated(
                tx,
                ty,
                tw,
                th,
                QuarterTurn::Clockwise,
            )
            &&& rotated_extent(width, height, next) == rotated_extent(
                tw,
                th,
                QuarterTurn::Clockwise,
            )
        },
{
}

/// Each message names what is wrong with a transform, with the values at fault.
pub proof fn law_transform_messages_tell_what_is_wrong(told: TransformError)
    ensures
        told matches TransformError::InvalidAxisRange { minimum, maximum } ==> told.spec_message()
            == "invalid inclusive axis range "@
            + crate::text::signed_decimal(minimum as int)
            + "..="@
            + crate::text::signed_decimal(maximum as int),
        told matches TransformError::ZeroDisplayExtent { axis } ==> told.spec_message()
            == "display "@
            + axis.spec_name()
            + " extent must be non-zero"@,
        told matches TransformError::UnsupportedFramebufferRotation { value }
            ==> told.spec_message()
            == "unsupported framebuffer rotation "@
            + crate::text::decimal(value as nat),
        told matches TransformError::ArithmeticOverflow ==> told.spec_message()
            == "coordinate arithmetic overflow"@,
{
}

} // verus!
