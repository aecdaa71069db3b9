//! Fail-closed 8-bit grayscale framebuffer layout and memory-slice writes.

use crate::nonzero::NonZeroU32;
use crate::probe::{FramebufferCapability, PixelLayout};
use crate::refresh::RefreshRegion;
use crate::text::push_decimal;
use crate::transform::DisplayExtent;
use vstd::prelude::*;

verus! {

/// One toolkit-neutral 24-bit RGB source pixel.
#[derive(Debug, Clone, Copy, PartialEq, Eq, Structural)]
pub struct Rgb8Pixel {
    /// Red channel.
    pub red: u8,
    /// Green channel.
    pub green: u8,
    /// Blue channel.
    pub blue: u8,
}

impl Default for Rgb8Pixel {
    fn default() -> (black: Self)
        ensures
            black.red == 0 && black.green == 0 && black.blue == 0,
    {
        Rgb8Pixel { red: 0, green: 0, blue: 0 }
    }
}

impl Rgb8Pixel {
    /// Perceptual luminance from 0 to 255, rounded to the nearest integer.
    pub open spec fn luminance(self) -> int {
        (77 * self.red + 150 * self.green + 29 * self.blue + 128) / 256
    }
}

/// Conversion policy from RGB renderer output to an 8-bit grayscale panel.
#[derive(Debug, Clone, Copy, PartialEq, Eq, Structural)]
pub enum Gray8Conversion {
    /// Preserve an integer approximation of perceptual luminance.
    Grayscale,
    /// Quantize luminance to black or white at the inclusive threshold.
    Bilevel {
        /// Luminance values at or above this threshold become white.
        threshold: u8,
    },
}

impl Gray8Conversion {
    /// The panel byte for a source pixel.
    pub open spec fn panel_byte(self, pixel: Rgb8Pixel) -> u8 {
        match self {
            Gray8Conversion::Grayscale => pixel.luminance() as u8,
            Gray8Conversion::Bilevel { threshold } => if pixel.luminance() >= threshold {
                255
            } else {
                0
            },
        }
    }

    /// Converts one source pixel.
    pub fn convert(self, pixel: Rgb8Pixel) -> (byte: u8)
        ensures
            byte == self.panel_byte(pixel),
    {
        let weighted: u32 = pixel.red as u32 * 77 + pixel.green as u32 * 150 + pixel.blue as u32
            * 29 + 128;
        let luminance: u8 = (weighted / 256) as u8;
        match self {
            Gray8Conversion::Grayscale => luminance,
            Gray8Conversion::Bilevel { threshold } => if luminance >= threshold {
                255
            } else {
                0
            },
        }
    }
}

/// A pixel with three equal channels keeps its value as luminance.
pub proof fn law_grays_keep_their_value(level: u8)
    ensures
        Gray8Conversion::Grayscale.panel_byte(
            Rgb8Pixel { red: level, green: level, blue: level },
        ) == level,
{
}

/// A pixel that is at least as bright in every channel is at least as bright
/// on the panel, whatever the conversion.
pub proof fn law_conversion_is_monotone(
    conversion: Gray8Conversion,
    darker: Rgb8Pixel,
    brighter: Rgb8Pixel,
)
    requires
        darker.red <= brighter.red,
        darker.green <= brighter.green,
        darker.blue <= brighter.blue,
    ensures
        conversion.panel_byte(darker) <= conversion.panel_byte(brighter),
{
}

/// A validated byte layout for an 8-bit grayscale Linux framebuffer.
#[derive(Debug, Clone, Copy, PartialEq, Eq, Structural)]
pub struct Gray8FramebufferLayout {
    visible: DisplayExtent,
    virtual_extent: DisplayExtent,
    x_offset: u32,
    y_offset: u32,
    line_length: NonZeroU32,
    memory_length: NonZeroU32,
}

/// What is wrong with a layout, if anything is.
pub open spec fn layout_problem(
    visible: DisplayExtent,
    virtual_extent: DisplayExtent,
    x_offset: u32,
    y_offset: u32,
    line_length: u32,
    memory_length: u32,
) -> Option<FramebufferLayoutError> {
    if x_offset + visible.width() > u32::MAX || y_offset + visible.height() > u32::MAX {
        Some(FramebufferLayoutError::VisibleOffsetOverflow)
    } else if x_offset + visible.width() > virtual_extent.width() || y_offset + visible.height()
        > virtual_extent.height() {
        Some(FramebufferLayoutError::VisibleOutsideVirtual)
    } else if line_length < virtual_extent.width() {
        Some(
            FramebufferLayoutError::LineLengthTooShort {
                observed: line_length,
                minimum: virtual_extent.width(),
            },
        )
    } else if memory_length < line_length * virtual_extent.height() {
        Some(
            FramebufferLayoutError::MemoryLengthTooShort {
                observed: memory_length,
                minimum: (line_length * virtual_extent.height()) as u64,
            },
        )
    } else {
        None
    }
}

/// What is wrong with the layout that a capability describes, if anything is.
pub open spec fn capability_problem(capability: FramebufferCapability) -> Option<
    FramebufferLayoutError,
> {
    if capability.bits_per_pixel != 8 || capability.pixel_layout != PixelLayout::Grayscale8 {
        Some(
            FramebufferLayoutError::UnsupportedPixelFormat {
                bits_per_pixel: capability.bits_per_pixel,
                pixel_layout: capability.pixel_layout,
            },
        )
    } else if capability.visible_width == 0 || capability.visible_height == 0 {
        Some(FramebufferLayoutError::InvalidVisibleExtent)
    } else if capability.virtual_width == 0 || capability.virtual_height == 0 {
        Some(FramebufferLayoutError::InvalidVirtualExtent)
    } else if capability.line_length == 0 {
        Some(FramebufferLayoutError::ZeroLineLength)
    } else if capability.memory_length == 0 {
        Some(FramebufferLayoutError::ZeroMemoryLength)
    } else if capability.x_offset + capability.visible_width > u32::MAX || capability.y_offset
        + capability.visible_height > u32::MAX {
        Some(FramebufferLayoutError::VisibleOffsetOverflow)
    } else if capability.x_offset + capability.visible_width > capability.virtual_width
        || capability.y_offset + capability.visible_height > capability.virtual_height {
        Some(FramebufferLayoutError::VisibleOutsideVirtual)
    } else if capability.line_length < capability.virtual_width {
        Some(
            FramebufferLayoutError::LineLengthTooShort {
                observed: capability.line_length,
                minimum: capability.virtual_width,
            },
        )
    } else if capability.memory_length < capability.line_length * capability.virtual_height {
        Some(
            FramebufferLayoutError::MemoryLengthTooShort {
                observed: capability.memory_length,
                minimum: (capability.line_length * capability.virtual_height) as u64,
            },
        )
    } else {
        None
    }
}

impl Gray8FramebufferLayout {
    #[verifier::type_invariant]
    spec fn inv(self) -> bool {
        &&& self.x_offset + self.visible.width() <= self.virtual_extent.width()
        &&& self.y_offset + self.visible.height() <= self.virtual_extent.height()
        &&& self.virtual_extent.width() <= self.line_length@
        &&& self.line_length@ * self.virtual_extent.height() <= self.memory_length@
    }

    /// The visible extent.
    pub closed spec fn spec_visible(self) -> DisplayExtent {
        self.visible
    }

    /// The virtual extent.
    pub closed spec fn spec_virtual_extent(self) -> DisplayExtent {
        self.virtual_extent
    }

    /// The visible horizontal offset.
    pub closed spec fn spec_x_offset(self) -> u32 {
        self.x_offset
    }

    /// The visible vertical offset.
    pub closed spec fn spec_y_offset(self) -> u32 {
        self.y_offset
    }

    /// The bytes from one row to the next.
    pub closed spec fn spec_line_length(self) -> u32 {
        self.line_length@
    }

    /// The bytes of framebuffer memory.
    pub closed spec fn spec_memory_length(self) -> u32 {
        self.memory_length@
    }

    /// Validates a grayscale framebuffer layout without opening or mapping it.
    pub fn try_new(
        visible: DisplayExtent,
        virtual_extent: DisplayExtent,
        x_offset: u32,
        y_offset: u32,
        line_length: NonZeroU32,
        memory_length: NonZeroU32,
    ) -> (result: Result<Self, FramebufferLayoutError>)
        ensures
            match result {
                Ok(layout) => {
                    &&& layout_problem(
                        visible,
                        virtual_extent,
                        x_offset,
                        y_offset,
                        line_length@,
                        memory_length@,
                    ) is None
                    &&& layout.visible() == visible
                    &&& layout.virtual_extent() == virtual_extent
                    &&& layout.x_offset() == x_offset
                    &&& layout.y_offset() == y_offset
                    &&& layout.line_length() == line_length@
                    &&& layout.memory_length() == memory_length@
                },
                Err(error) => layout_problem(
                    visible,
                    virtual_extent,
                    x_offset,
                    y_offset,
                    line_length@,
                    memory_length@,
                ) == Some(error),
            },
    {
        let right: u32 = match x_offset.checked_add(visible.width()) {
            Some(right) => right,
            None => {
                return Err(FramebufferLayoutError::VisibleOffsetOverflow);
            },
        };
        let bottom: u32 = match y_offset.checked_add(visible.height()) {
            Some(bottom) => bottom,
            None => {
                return Err(FramebufferLayoutError::VisibleOffsetOverflow);
            },
        };
        if right > virtual_extent.width() || bottom > virtual_extent.height() {
            return Err(FramebufferLayoutError::VisibleOutsideVirtual);
        }
        let line: u32 = line_length.get();
        let rows: u32 = virtual_extent.height();
        if line < virtual_extent.width() {
            return Err(
                FramebufferLayoutError::LineLengthTooShort {
                    observed: line,
                    minimum: virtual_extent.width(),
                },
            );
        }
        assert(0 <= line * rows <= 0xffff_ffff * 0xffff_ffff) by (nonlinear_arith)
            requires
                0 <= line <= 0xffff_ffff,
                0 <= rows <= 0xffff_ffff,
        ;
        let minimum: u64 = line as u64 * rows as u64;
        if (memory_length.get() as u64) < minimum {
            return Err(
                FramebufferLayoutError::MemoryLengthTooShort {
                    observed: memory_length.get(),
                    minimum,
                },
            );
        }
        Ok(
            Gray8FramebufferLayout {
                visible,
                virtual_extent,
                x_offset,
                y_offset,
                line_length,
                memory_length,
            },
        )
    }

    /// Builds a validated layout from one passive framebuffer capability.
    ///
    /// Only a complete 8-bit grayscale layout with non-zero extents, stride and
    /// memory length is accepted.
    pub fn try_from_capability(capability: &FramebufferCapability) -> (result: Result<
        Self,
        FramebufferLayoutError,
    >)
        ensures
            match result {
                Ok(layout) => {
                    &&& capability_problem(*capability) is None
                    &&& layout.visible().width() == capability.visible_width
                    &&& layout.visible().height() == capability.visible_height
                    &&& layout.virtual_extent().width() == capability.virtual_width
                    &&& layout.virtual_extent().height() == capability.virtual_height
                    &&& layout.x_offset() == capability.x_offset
                    &&& layout.y_offset() == capability.y_offset
                    &&& layout.line_length() == capability.line_length
                    &&& layout.memory_length() == capability.memory_length
                },
                Err(error) => capability_problem(*capability) == Some(error),
            },
    {
        if capability.bits_per_pixel != 8 || capability.pixel_layout != PixelLayout::Grayscale8 {
            return Err(
                FramebufferLayoutError::UnsupportedPixelFormat {
                    bits_per_pixel: capability.bits_per_pixel,
                    pixel_layout: capability.pixel_layout,
                },
            );
        }
        let visible = match DisplayExtent::try_new(
            capability.visible_width,
            capability.visible_height,
        ) {
            Ok(visible) => visible,
            Err(_) => {
                return Err(FramebufferLayoutError::InvalidVisibleExtent);
            },
        };
        let virtual_extent = match DisplayExtent::try_new(
            capability.virtual_width,
            capability.virtual_height,
        ) {
            Ok(virtual_extent) => virtual_extent,
            Err(_) => {
                return Err(FramebufferLayoutError::InvalidVirtualExtent);
            },
        };
        let line_length = match NonZeroU32::new(capability.line_length) {
            Some(line_length) => line_length,
            None => {
                return Err(FramebufferLayoutError::ZeroLineLength);
            },
        };
        let memory_length = match NonZeroU32::new(capability.memory_length) {
            Some(memory_length) => memory_length,
            None => {
                return Err(FramebufferLayoutError::ZeroMemoryLength);
            },
        };
        Self::try_new(
            visible,
            virtual_extent,
            capability.x_offset,
            capability.y_offset,
            line_length,
            memory_length,
        )
    }

    /// What every layout keeps: the visible part lies inside the virtual extent,
    /// a row holds the virtual width, and memory holds every row.
    pub open spec fn fits(self) -> bool {
        &&& self.x_offset() + self.visible().width() <= self.virtual_extent().width()
        &&& self.y_offset() + self.visible().height() <= self.virtual_extent().height()
        &&& self.virtual_extent().width() <= self.line_length()
        &&& self.line_length() * self.virtual_extent().height() <= self.memory_length()
    }

    /// Returns the visible display extent in physical framebuffer coordinates.
    #[verifier::when_used_as_spec(spec_visible)]
    pub fn visible(self) -> (visible: DisplayExtent)
        ensures
            visible == self.spec_visible(),
            self.fits(),
    {
        proof {
            use_type_invariant(&self);
        }
        self.visible
    }

    /// Returns the complete virtual framebuffer extent.
    #[verifier::when_used_as_spec(spec_virtual_extent)]
    pub fn virtual_extent(self) -> (virtual_extent: DisplayExtent)
        ensures
            virtual_extent == self.spec_virtual_extent(),
            self.fits(),
    {
        proof {
            use_type_invariant(&self);
        }
        self.virtual_extent
    }

    /// Returns the visible horizontal offset inside the virtual framebuffer.
    #[verifier::when_used_as_spec(spec_x_offset)]
    pub fn x_offset(self) -> (offset: u32)
        ensures
            offset == self.spec_x_offset(),
            self.fits(),
    {
        proof {
            use_type_invariant(&self);
        }
        self.x_offset
    }

    /// Returns the visible vertical offset inside the virtual framebuffer.
    #[verifier::when_used_as_spec(spec_y_offset)]
    pub fn y_offset(self) -> (offset: u32)
        ensures
            offset == self.spec_y_offset(),
            self.fits(),
    {
        proof {
            use_type_invariant(&self);
        }
        self.y_offset
    }

    /// Returns the kernel-reported byte stride for one virtual row.
    #[verifier::when_used_as_spec(spec_line_length)]
    pub fn line_length(self) -> (length: u32)
        ensures
            length == self.spec_line_length(),
            self.fits(),
    {
        proof {
            use_type_invariant(&self);
        }
        self.line_length.get()
    }

    /// Returns the kernel-reported framebuffer memory length.
    #[verifier::when_used_as_spec(spec_memory_length)]
    pub fn memory_length(self) -> (length: u32)
        ensures
            length == self.spec_memory_length(),
            self.fits(),
    {
        proof {
            use_type_invariant(&self);
        }
        self.memory_length.get()
    }

    /// Why a write is refused, if it is.
    pub open spec fn write_problem(
        self,
        target_length: nat,
        region: RefreshRegion,
        source_length: nat,
        source_stride: u32,
    ) -> Option<FramebufferWriteError> {
        let required_source = (region.height() - 1) * source_stride + region.width();
        if region.x() + region.width() > self.visible().width() || region.y()
            + region.height() > self.visible().height() {
            Some(FramebufferWriteError::RegionOutsideLayout)
        } else if source_stride < region.width() {
            Some(
                FramebufferWriteError::SourceStrideTooShort {
                    observed: source_stride,
                    minimum: region.width(),
                },
            )
        } else if required_source > usize::MAX {
            Some(FramebufferWriteError::ArithmeticOverflow)
        } else if source_length < required_source {
            Some(
                FramebufferWriteError::SourceTooShort {
                    observed: source_length as usize,
                    minimum: required_source as usize,
                },
            )
        } else if target_length < self.memory_length() {
            Some(
                FramebufferWriteError::TargetTooShort {
                    observed: target_length as usize,
                    minimum: self.memory_length() as usize,
                },
            )
        } else {
            None
        }
    }

    /// The column of the region that a memory byte belongs to, if it lies
    /// between 0 and the region's width.
    pub open spec fn region_column(self, region: RefreshRegion, address: int) -> int {
        address % (self.line_length() as int) - (self.x_offset() + region.x())
    }

    /// The row of the region that a memory byte belongs to, if it lies between
    /// 0 and the region's height.
    pub open spec fn region_row(self, region: RefreshRegion, address: int) -> int {
        address / (self.line_length() as int) - (self.y_offset() + region.y())
    }

    /// Whether a memory byte belongs to the region.
    pub open spec fn addresses(self, region: RefreshRegion, address: int) -> bool {
        &&& 0 <= self.region_column(region, address) < region.width()
        &&& 0 <= self.region_row(region, address) < region.height()
    }

    /// The memory after a write: every byte of the region holds its converted
    /// source pixel, and every other byte is unchanged.
    pub open spec fn painted(
        self,
        target: Seq<u8>,
        region: RefreshRegion,
        source: Seq<Rgb8Pixel>,
        source_stride: u32,
        conversion: Gray8Conversion,
    ) -> Seq<u8> {
        Seq::new(
            target.len(),
            |address: int|
                if self.addresses(region, address) {
                    conversion.panel_byte(
                        source[self.region_row(region, address) * source_stride
                            + self.region_column(region, address)],
                    )
                } else {
                    target[address]
                },
        )
    }

    /// Converts and writes one validated physical dirty region into memory.
    ///
    /// The target is an ordinary byte slice; this function does not open or map
    /// a framebuffer and does not submit a refresh. `source_stride_pixels`
    /// permits a renderer row to contain padding. All bounds are checked before
    /// the first target byte is changed: on error, `target` is unchanged.
    pub fn write_rgb8_region(
        self,
        target: &mut [u8],
        region: RefreshRegion,
        source: &[Rgb8Pixel],
        source_stride_pixels: NonZeroU32,
        conversion: Gray8Conversion,
    ) -> (result: Result<(), FramebufferWriteError>)
        ensures
            match result {
                Ok(()) => {
                    &&& self.write_problem(
                        old(target)@.len(),
                        region,
                        source@.len(),
                        source_stride_pixels@,
                    ) is None
                    &&& final(target)@ == self.painted(
                        old(target)@,
                        region,
                        source@,
                        source_stride_pixels@,
                        conversion,
                    )
                },
                Err(error) => {
                    &&& self.write_problem(
                        old(target)@.len(),
                        region,
                        source@.len(),
                        source_stride_pixels@,
                    ) == Some(error)
                    &&& final(target)@ == old(target)@
                },
            },
    {
        let width: u32 = region.width();
        let height: u32 = region.height();
        let stride: u32 = source_stride_pixels.get();
        let right: u32 = region.x() + width;
        let bottom: u32 = region.y() + height;
        if right > self.visible.width() || bottom > self.visible.height() {
            return Err(FramebufferWriteError::RegionOutsideLayout);
        }
        if stride < width {
            return Err(
                FramebufferWriteError::SourceStrideTooShort { observed: stride, minimum: width },
            );
        }
        let required_source: usize = match ((height - 1) as usize).checked_mul(stride as usize) {
            Some(offset) => match offset.checked_add(width as usize) {
                Some(required) => required,
                None => {
                    return Err(FramebufferWriteError::ArithmeticOverflow);
                },
            },
            None => {
                return Err(FramebufferWriteError::ArithmeticOverflow);
            },
        };
        if source.len() < required_source {
            return Err(
                FramebufferWriteError::SourceTooShort {
                    observed: source.len(),
                    minimum: required_source,
                },
            );
        }
        let required_target: usize = self.memory_length.get() as usize;
        if target.len() < required_target {
            return Err(
                FramebufferWriteError::TargetTooShort {
                    observed: target.len(),
                    minimum: required_target,
                },
            );
        }
        self.paint(target, region, source, stride, conversion);
        Ok(())
    }

    /// Writes a region whose bounds were checked.
    fn paint(
        self,
        target: &mut [u8],
        region: RefreshRegion,
        source: &[Rgb8Pixel],
        stride: u32,
        conversion: Gray8Conversion,
    )
        requires
            self.write_problem(old(target)@.len(), region, source@.len(), stride) is None,
        ensures
            final(target)@ == self.painted(old(target)@, region, source@, stride, conversion),
    {
        proof {
            use_type_invariant(&self);
        }
        let width: usize = region.width() as usize;
        let height: usize = region.height() as usize;
        let line: usize = self.line_length.get() as usize;
        let left: usize = (self.x_offset + region.x()) as usize;
        let top: usize = (self.y_offset + region.y()) as usize;
        let stride: usize = stride as usize;
        let target_length: usize = target.len();
        let source_length: usize = source.len();
        let ghost before = target@;
        let ghost painted = self.painted(before, region, source@, stride as u32, conversion);
        for row in 0..height
            invariant
                target@.len() == before.len() == painted.len() == target_length,
source@.len() == source_length,
                painted == self.painted(before, region, source@, stride as u32, conversion),
                width == region.width(),
                height == region.height(),
                line == self.line_length() == self.line_length@,
                left == self.x_offset() + region.x(),
                top == self.y_offset() + region.y(),
                0 < width,
                0 < height,
                left + width <= line,
                top + height <= self.virtual_extent.height(),
                line * self.virtual_extent.height() <= self.memory_length@ <= before.len(),
                (height - 1) * stride + width <= source@.len(),
                0 < line <= u32::MAX,
                stride <= u32::MAX,
                forall|a: int|
                    0 <= a < before.len() ==> #[trigger] target@[a] == (if self.region_row(
                        region,
                        a,
                    ) < row {
                        painted[a]
                    } else {
                        before[a]
                    }),
        {
            assert(row * stride <= (height - 1) * stride) by (nonlinear_arith)
                requires
                    0 <= row <= height - 1,
                    0 <= stride,
            ;
            assert((top + row) * line + line <= line * self.virtual_extent.height())
                by (nonlinear_arith)
                requires
                    0 <= top + row,
                    top + row + 1 <= self.virtual_extent.height(),
                    0 <= line,
            ;
            assert(0 <= row * stride) by (nonlinear_arith)
                requires
                    0 <= row,
                    0 <= stride,
            ;
            assert(0 <= (top + row) * line) by (nonlinear_arith)
                requires
                    0 <= top + row,
                    0 <= line,
            ;
            let source_start: usize = row * stride;
            let target_start: usize = (top + row) * line + left;
            for column in 0..width
                invariant
                    target@.len() == before.len() == painted.len() == target_length,
source@.len() == source_length,
                    painted == self.painted(before, region, source@, stride as u32, conversion),
                    width == region.width(),
                    height == region.height(),
                    line == self.line_length() == self.line_length@,
                    left == self.x_offset() + region.x(),
                    top == self.y_offset() + region.y(),
                    left + width <= line,
                    0 < line,
                    0 <= row < height,
                    stride <= u32::MAX,
                    source_start == row * stride,
                    target_start == (top + row) * line + left,
                    target_start + width <= before.len(),
                    source_start + width <= source@.len(),
                    forall|a: int|
                        0 <= a < before.len() ==> #[trigger] target@[a] == (if self.region_row(
                            region,
                            a,
                        ) < row || (self.region_row(region, a) == row && self.region_column(
                            region,
                            a,
                        ) < column) {
                            painted[a]
                        } else {
                            before[a]
                        }),
            {
                let ghost address = target_start + column;
                let ghost earlier = target@;
                assert(0 <= left + column < line);
                assert(address / (line as int) == top + row && address % (line as int) == left
                    + column) by {
                    vstd::arithmetic::div_mod::lemma_fundamental_div_mod_converse(
                        address,
                        line as int,
                        top + row,
                        left + column,
                    );
                }
                target[target_start + column] = conversion.convert(
                    source[source_start + column],
                );
                assert(painted[address] == conversion.panel_byte(
                    source@[row * stride + column],
                ));
                assert forall|a: int| 0 <= a < before.len() implies #[trigger] target@[a] == (
                if self.region_row(region, a) < row || (self.region_row(region, a) == row
                    && self.region_column(region, a) < column + 1) {
                    painted[a]
                } else {
                    before[a]
                }) by {
                    vstd::arithmetic::div_mod::lemma_fundamental_div_mod(a, line as int);
                    if a != address {
                        assert(target@[a] == earlier[a]);
                        if self.region_row(region, a) == row && self.region_column(region, a)
                            == column {
                            assert(a / (line as int) == top + row);
                            assert(a == line * (top + row) + (left + column));
                            assert(line * (top + row) == (top + row) * line) by (nonlinear_arith);
                            assert(false);
                        }
                    }
                }
            }
            assert forall|a: int| 0 <= a < before.len() implies #[trigger] target@[a] == (
            if self.region_row(region, a) < row + 1 {
                painted[a]
            } else {
                before[a]
            }) by {
                if self.region_row(region, a) == row && self.region_column(region, a) >= width {
                    assert(painted[a] == before[a]);
                }
            }
        }
        assert(target@ =~= painted) by {
            assert forall|a: int| 0 <= a < before.len() implies target@[a] == painted[a] by {
                if self.region_row(region, a) >= height {
                    assert(painted[a] == before[a]);
                }
            }
        }
    }
}

/// A write leaves every byte outside the visible rows and columns alone:
/// the padding of each line and the rows outside the visible surface.
pub proof fn law_writes_stay_visible(
    layout: Gray8FramebufferLayout,
    target: Seq<u8>,
    region: RefreshRegion,
    source: Seq<Rgb8Pixel>,
    source_stride: u32,
    conversion: Gray8Conversion,
    address: int,
)
    requires
        layout.write_problem(target.len(), region, source.len(), source_stride) is None,
        0 <= address < target.len(),
        address % (layout.line_length() as int) < layout.x_offset() || address % (
        layout.line_length() as int) >= layout.x_offset() + layout.visible().width() || address / (
        layout.line_length() as int) < layout.y_offset() || address / (layout.line_length() as int)
            >= layout.y_offset() + layout.visible().height(),
    ensures
        layout.painted(target, region, source, source_stride, conversion)[address]
            == target[address],
{
}

/// Writing the same region twice with the same pixels is writing it once.
pub proof fn law_writing_twice_is_writing_once(
    layout: Gray8FramebufferLayout,
    target: Seq<u8>,
    region: RefreshRegion,
    source: Seq<Rgb8Pixel>,
    source_stride: u32,
    conversion: Gray8Conversion,
)
    ensures
        ({
            let once = layout.painted(target, region, source, source_stride, conversion);
            layout.painted(once, region, source, source_stride, conversion) == once
        }),
{
    let once = layout.painted(target, region, source, source_stride, conversion);
    assert(layout.painted(once, region, source, source_stride, conversion) =~= once);
}

/// An invalid passive framebuffer layout.
#[derive(Debug, Clone, Copy, PartialEq, Eq, Structural)]
#[allow(inconsistent_fields)]
#[non_exhaustive]
pub enum FramebufferLayoutError {
    /// The capability was not exactly 8-bit grayscale.
    UnsupportedPixelFormat { bits_per_pixel: u32, pixel_layout: PixelLayout },
    /// Visible width or height was zero.
    InvalidVisibleExtent,
    /// Virtual width or height was zero.
    InvalidVirtualExtent,
    /// Kernel line stride was zero.
    ZeroLineLength,
    /// Kernel framebuffer memory length was zero.
    ZeroMemoryLength,
    /// Adding a visible offset and dimension overflowed.
    VisibleOffsetOverflow,
    /// The offset visible surface left the virtual surface.
    VisibleOutsideVirtual,
    /// A virtual row did not fit in the reported byte stride.
    LineLengthTooShort { observed: u32, minimum: u32 },
    /// The reported memory could not hold every virtual row.
    MemoryLengthTooShort { observed: u32, minimum: u64 },
    /// An intermediate layout calculation overflowed.
    ArithmeticOverflow,
}

impl FramebufferLayoutError {
    /// The operator-facing description of the error.
    pub open spec fn spec_message(self) -> Seq<char> {
        match self {
            FramebufferLayoutError::UnsupportedPixelFormat { bits_per_pixel, pixel_layout } => {
                "unsupported framebuffer format: "@ + crate::text::decimal(bits_per_pixel as nat)
                    + " bpp "@ + pixel_layout.spec_name()
            },
            FramebufferLayoutError::InvalidVisibleExtent => "visible extent must be non-zero"@,
            FramebufferLayoutError::InvalidVirtualExtent => "virtual extent must be non-zero"@,
            FramebufferLayoutError::ZeroLineLength => "framebuffer line length must be non-zero"@,
            FramebufferLayoutError::ZeroMemoryLength => {
                "framebuffer memory length must be non-zero"@
            },
            FramebufferLayoutError::VisibleOffsetOverflow => {
                "visible framebuffer offset arithmetic overflow"@
            },
            FramebufferLayoutError::VisibleOutsideVirtual => {
                "visible framebuffer leaves the virtual extent"@
            },
            FramebufferLayoutError::LineLengthTooShort { observed, minimum } => {
                "framebuffer line length "@ + crate::text::decimal(observed as nat)
                    + " is shorter than "@ + crate::text::decimal(minimum as nat)
            },
            FramebufferLayoutError::MemoryLengthTooShort { observed, minimum } => {
                "framebuffer memory length "@ + crate::text::decimal(observed as nat)
                    + " is shorter than "@ + crate::text::decimal(minimum as nat)
            },
            FramebufferLayoutError::ArithmeticOverflow => {
                "framebuffer layout arithmetic overflow"@
            },
        }
    }

    /// Describes the error for an operator.
    pub fn message(&self) -> (message: String)
        ensures
            message@ == self.spec_message(),
    {
        let mut message: String = String::new();
        match *self {
            FramebufferLayoutError::UnsupportedPixelFormat { bits_per_pixel, pixel_layout } => {
                message.append("unsupported framebuffer format: ");
                push_decimal(&mut message, bits_per_pixel as u64);
                message.append(" bpp ");
                message.append(pixel_layout.name());
            },
            FramebufferLayoutError::InvalidVisibleExtent => {
                message.append("visible extent must be non-zero");
            },
            FramebufferLayoutError::InvalidVirtualExtent => {
                message.append("virtual extent must be non-zero");
            },
            FramebufferLayoutError::ZeroLineLength => {
                message.append("framebuffer line length must be non-zero");
            },
            FramebufferLayoutError::ZeroMemoryLength => {
                message.append("framebuffer memory length must be non-zero");
            },
            FramebufferLayoutError::VisibleOffsetOverflow => {
                message.append("visible framebuffer offset arithmetic overflow");
            },
            FramebufferLayoutError::VisibleOutsideVirtual => {
                message.append("visible framebuffer leaves the virtual extent");
            },
            FramebufferLayoutError::LineLengthTooShort { observed, minimum } => {
                message.append("framebuffer line length ");
                push_decimal(&mut message, observed as u64);
                message.append(" is shorter than ");
                push_decimal(&mut message, minimum as u64);
            },
            FramebufferLayoutError::MemoryLengthTooShort { observed, minimum } => {
                message.append("framebuffer memory length ");
                push_decimal(&mut message, observed as u64);
                message.append(" is shorter than ");
                push_decimal(&mut message, minimum);
            },
            FramebufferLayoutError::ArithmeticOverflow => {
                message.append("framebuffer layout arithmetic overflow");
            },
        }
        assert(message@ =~= self.spec_message());
        message
    }
}

/// A rejected memory-slice pixel write.
#[derive(Debug, Clone, Copy, PartialEq, Eq, Structural)]
#[allow(inconsistent_fields)]
#[non_exhaustive]
pub enum FramebufferWriteError {
    /// The region was validated for a different or larger display.
    RegionOutsideLayout,
    /// The source row stride was shorter than the dirty-region width.
    SourceStrideTooShort { observed: u32, minimum: u32 },
    /// The source slice could not hold every requested dirty row.
    SourceTooShort { observed: usize, minimum: usize },
    /// The target slice was shorter than the validated framebuffer mapping.
    TargetTooShort { observed: usize, minimum: usize },
    /// Address or length arithmetic could not be represented safely.
    ArithmeticOverflow,
}

impl FramebufferWriteError {
    /// The operator-facing description of the error.
    pub open spec fn spec_message(self) -> Seq<char> {
        match self {
            FramebufferWriteError::RegionOutsideLayout => {
                "dirty region leaves the framebuffer layout"@
            },
            FramebufferWriteError::SourceStrideTooShort { observed, minimum } => {
                "source stride "@ + crate::text::decimal(observed as nat)
                    + " pixels is shorter than "@ + crate::text::decimal(minimum as nat)
            },
            FramebufferWriteError::SourceTooShort { observed, minimum } => {
                "source contains "@ + crate::text::decimal(observed as nat) + " pixels; at least "@
                    + crate::text::decimal(minimum as nat) + " are required"@
            },
            FramebufferWriteError::TargetTooShort { observed, minimum } => {
                "target contains "@ + crate::text::decimal(observed as nat) + " bytes; at least "@
                    + crate::text::decimal(minimum as nat) + " are required"@
            },
            FramebufferWriteError::ArithmeticOverflow => "framebuffer write arithmetic overflow"@,
        }
    }

    /// Describes the error for an operator.
    pub fn message(&self) -> (message: String)
        ensures
            message@ == self.spec_message(),
    {
        let mut message: String = String::new();
        match *self {
            FramebufferWriteError::RegionOutsideLayout => {
                message.append("dirty region leaves the framebuffer layout");
            },
            FramebufferWriteError::SourceStrideTooShort { observed, minimum } => {
                message.append("source stride ");
                push_decimal(&mut message, observed as u64);
                message.append(" pixels is shorter than ");
                push_decimal(&mut message, minimum as u64);
            },
            FramebufferWriteError::SourceTooShort { observed, minimum } => {
                message.append("source contains ");
                push_decimal(&mut message, observed as u64);
                message.append(" pixels; at least ");
                push_decimal(&mut message, minimum as u64);
                message.append(" are required");
            },
            FramebufferWriteError::TargetTooShort { observed, minimum } => {
                message.append("target contains ");
                push_decimal(&mut message, observed as u64);
                message.append(" bytes; at least ");
                push_decimal(&mut message, minimum as u64);
                message.append(" are required");
            },
            FramebufferWriteError::ArithmeticOverflow => {
                message.append("framebuffer write arithmetic overflow");
            },
        }
        assert(message@ =~= self.spec_message());
        message
    }
}

// ---------------------------------------------------------------------------
// Where pixels go, and what they become
// ---------------------------------------------------------------------------
/// After an accepted write, the pixel in row `row` and column `column` of the
/// source stands in that row and column of the region, counted from the visible
/// surface, as the byte that it converts to. It is read and written inside of
/// the two slices, and the memory keeps its length.
pub proof fn law_every_pixel_lands_in_its_place(
    layout: Gray8FramebufferLayout,
    target: Seq<u8>,
    region: RefreshRegion,
    source: Seq<Rgb8Pixel>,
    source_stride: u32,
    conversion: Gray8Conversion,
    row: int,
    column: int,
)
    requires
        layout.fits(),
        layout.write_problem(target.len(), region, source.len(), source_stride) is None,
        0 <= row < region.height(),
        0 <= column < region.width(),
    ensures
        ({
            let painted = layout.painted(target, region, source, source_stride, conversion);
            let from = row * source_stride + column;
            let to = (layout.y_offset() + region.y() + row) * layout.line_length()
                + layout.x_offset() + region.x() + column;
            &&& painted.len() == target.len()
            &&& 0 <= from < source.len()
            &&& 0 <= to < target.len()
            &&& painted[to] == conversion.panel_byte(source[from])
        }),
{
    let line = layout.line_length() as int;
    let top = layout.y_offset() + region.y() + row;
    let left = layout.x_offset() + region.x() + column;
    let to = top * line + left;
    let rows = layout.virtual_extent().height() as int;
    assert(0 <= top < rows);
    assert(0 <= left < line);
    assert(0 <= top * line && top * line + line <= line * rows) by (nonlinear_arith)
        requires
            0 <= top < rows,
            0 < line,
    ;
    vstd::arithmetic::div_mod::lemma_fundamental_div_mod_converse(to, line, top, left);
    assert(0 <= row * source_stride <= (region.height() - 1) * source_stride)
        by (nonlinear_arith)
        requires
            0 <= row <= region.height() - 1,
            0 <= source_stride,
    ;
}

/// A write changes nothing but the bytes that the region's pixels land on.
pub proof fn law_every_other_byte_stays(
    layout: Gray8FramebufferLayout,
    target: Seq<u8>,
    region: RefreshRegion,
    source: Seq<Rgb8Pixel>,
    source_stride: u32,
    conversion: Gray8Conversion,
    address: int,
)
    requires
        layout.fits(),
        layout.line_length() > 0,
        0 <= address < target.len(),
        forall|row: int, column: int|
            0 <= row < region.height() && 0 <= column < region.width() ==> address
                != #[trigger] ((layout.y_offset() + region.y() + row) * layout.line_length())
                + #[trigger] (layout.x_offset() + region.x() + column),
    ensures
        layout.painted(target, region, source, source_stride, conversion)[address]
            == target[address],
{
    if layout.addresses(region, address) {
        let line = layout.line_length() as int;
        let row = layout.region_row(region, address);
        let column = layout.region_column(region, address);
        vstd::arithmetic::div_mod::lemma_fundamental_div_mod(address, line);
        let top = layout.y_offset() + region.y() + row;
        assert(line * (address / line) == top * line) by (nonlinear_arith)
            requires
                address / line == top,
        ;
        let left = layout.x_offset() + region.x() + column;
        assert(address == (layout.y_offset() + region.y() + row) * layout.line_length() + left);
    }
}

/// The gray of a pixel is the weighted mean of its channels, in 77, 150 and 29
/// parts of 256, rounded to the nearest integer. The two-tone conversion makes
/// white of every gray from the threshold on, and black of the others.
pub proof fn law_gray_is_the_nearest_weighted_mean(pixel: Rgb8Pixel, threshold: u8)
    ensures
        ({
            let gray = Gray8Conversion::Grayscale.panel_byte(pixel);
            let weighted = 77 * pixel.red + 150 * pixel.green + 29 * pixel.blue;
            &&& -128 <= weighted - 256 * gray < 128
            &&& gray >= threshold ==> (Gray8Conversion::Bilevel { threshold }).panel_byte(pixel)
                == 255
            &&& gray < threshold ==> (Gray8Conversion::Bilevel { threshold }).panel_byte(pixel)
                == 0
        }),
{
}

/// A layout is accepted exactly when the visible part lies inside the virtual
/// extent, a line holds a virtual row, and memory holds every line.
pub proof fn law_layouts_are_accepted_when_they_fit(
    visible: DisplayExtent,
    virtual_extent: DisplayExtent,
    x_offset: u32,
    y_offset: u32,
    line_length: u32,
    memory_length: u32,
)
    ensures
        layout_problem(
            visible,
            virtual_extent,
            x_offset,
            y_offset,
            line_length,
            memory_length,
        ) is None <==> {
            &&& x_offset + visible.width() <= virtual_extent.width()
            &&& y_offset + visible.height() <= virtual_extent.height()
            &&& virtual_extent.width() <= line_length
            &&& line_length * virtual_extent.height() <= memory_length
        },
{
}

/// A capability makes a layout exactly when it is 8-bit gray, has non-zero
/// extents, and its extents, line and memory fit into each other; what is
/// refused is named by its own error.
pub proof fn law_capabilities_are_accepted_when_they_fit(capability: FramebufferCapability)
    ensures
        capability_problem(capability) is None <==> {
            &&& capability.bits_per_pixel == 8
            &&& capability.pixel_layout == PixelLayout::Grayscale8
            &&& capability.visible_width > 0 && capability.visible_height > 0
            &&& capability.virtual_width > 0 && capability.virtual_height > 0
            &&& capability.line_length > 0 && capability.memory_length > 0
            &&& capability.x_offset + capability.visible_width <= capability.virtual_width
            &&& capability.y_offset + capability.visible_height <= capability.virtual_height
            &&& capability.virtual_width <= capability.line_length
            &&& capability.line_length * capability.virtual_height <= capability.memory_length
        },
        match capability_problem(capability) {
            Some(FramebufferLayoutError::UnsupportedPixelFormat { bits_per_pixel, pixel_layout }) =>
            bits_per_pixel == capability.bits_per_pixel && pixel_layout == capability.pixel_layout
                && !(bits_per_pixel == 8 && pixel_layout == PixelLayout::Grayscale8),
            Some(FramebufferLayoutError::InvalidVisibleExtent) => capability.visible_width == 0
                || capability.visible_height == 0,
            Some(FramebufferLayoutError::InvalidVirtualExtent) => capability.virtual_width == 0
                || capability.virtual_height == 0,
            Some(FramebufferLayoutError::ZeroLineLength) => capability.line_length == 0,
            Some(FramebufferLayoutError::ZeroMemoryLength) => capability.memory_length == 0,
            Some(FramebufferLayoutError::VisibleOffsetOverflow) => capability.x_offset
                + capability.visible_width >= 0x1_0000_0000 || capability.y_offset
                + capability.visible_height >= 0x1_0000_0000,
            Some(FramebufferLayoutError::VisibleOutsideVirtual) => capability.x_offset
                + capability.visible_width > capability.virtual_width || capability.y_offset
                + capability.visible_height > capability.virtual_height,
            Some(FramebufferLayoutError::LineLengthTooShort { observed, minimum }) => observed
                == capability.line_length && minimum == capability.virtual_width && observed
                < minimum,
            Some(FramebufferLayoutError::MemoryLengthTooShort { observed, .. }) => observed
                == capability.memory_length && observed < capability.line_length
                * capability.virtual_height,
            Some(FramebufferLayoutError::ArithmeticOverflow) => false,
            None => true,
        },
{
    assert(0 <= capability.line_length * capability.virtual_height) by (nonlinear_arith);
}

/// A write is accepted exactly when the region lies inside of the visible
/// surface, a source row holds the region's width, the source holds the last
/// row as far as the region reaches, and the target holds the memory.
pub proof fn law_writes_are_accepted_when_they_fit(
    layout: Gray8FramebufferLayout,
    target_length: nat,
    region: RefreshRegion,
    source_length: nat,
    source_stride: u32,
)
    requires
        source_length <= usize::MAX,
    ensures
        layout.write_problem(target_length, region, source_length, source_stride) is None <==> {
            &&& region.x() + region.width() <= layout.visible().width()
            &&& region.y() + region.height() <= layout.visible().height()
            &&& region.width() <= source_stride
            &&& (region.height() - 1) * source_stride + region.width() <= source_length
            &&& layout.memory_length() <= target_length
        },
{
}

/// Each message names what is wrong with a layout, with the values at fault.
pub proof fn law_layout_messages_tell_what_is_wrong(told: FramebufferLayoutError)
    ensures
        told matches FramebufferLayoutError::UnsupportedPixelFormat { bits_per_pixel, pixel_layout }
            ==> told.spec_message()
            == "unsupported framebuffer format: "@
            + crate::text::decimal(bits_per_pixel as nat)
            + " bpp "@
            + pixel_layout.spec_name(),
        told matches FramebufferLayoutError::InvalidVisibleExtent ==> told.spec_message()
            == "visible extent must be non-zero"@,
        told matches FramebufferLayoutError::InvalidVirtualExtent ==> told.spec_message()
            == "virtual extent must be non-zero"@,
        told matches FramebufferLayoutError::ZeroLineLength ==> told.spec_message()
            == "framebuffer line length must be non-zero"@,
        told matches FramebufferLayoutError::ZeroMemoryLength ==> told.spec_message()
            == "framebuffer memory length must be non-zero"@,
        told matches FramebufferLayoutError::VisibleOffsetOverflow ==> told.spec_message()
            == "visible framebuffer offset arithmetic overflow"@,
        told matches FramebufferLayoutError::VisibleOutsideVirtual ==> told.spec_message()
            == "visible framebuffer leaves the virtual extent"@,
        told matches FramebufferLayoutError::LineLengthTooShort { observed, minimum }
            ==> told.spec_message()
            == "framebuffer line length "@
            + crate::text::decimal(observed as nat)
            + " is shorter than "@
            + crate::text::decimal(minimum as nat),
        told matches FramebufferLayoutError::MemoryLengthTooShort { observed, minimum }
            ==> told.spec_message()
            == "framebuffer memory length "@
            + crate::text::decimal(observed as nat)
            + " is shorter than "@
            + crate::text::decimal(minimum as nat),
        told matches FramebufferLayoutError::ArithmeticOverflow ==> told.spec_message()
            == "framebuffer layout arithmetic overflow"@,
{
}

/// Each message names what is wrong with a write, with the values at fault.
pub proof fn law_write_messages_tell_what_is_wrong(told: FramebufferWriteError)
    ensures
        told matches FramebufferWriteError::RegionOutsideLayout ==> told.spec_message()
            == "dirty region leaves the framebuffer layout"@,
        told matches FramebufferWriteError::SourceStrideTooShort { observed, minimum }
            ==> told.spec_message()
            == "source stride "@
            + crate::text::decimal(observed as nat)
            + " pixels is shorter than "@
            + crate::text::decimal(minimum as nat),
        told matches FramebufferWriteError::SourceTooShort { observed, minimum }
            ==> told.spec_message()
            == "source contains "@
            + crate::text::decimal(observed as nat)
            + " pixels; at least "@
            + crate::text::decimal(minimum as nat)
            + " are required"@,
        told matches FramebufferWriteError::TargetTooShort { observed, minimum }
            ==> told.spec_message()
            == "target contains "@
            + crate::text::decimal(observed as nat)
            + " bytes; at least "@
            + crate::text::decimal(minimum as nat)
            + " are required"@,
        told matches FramebufferWriteError::ArithmeticOverflow ==> told.spec_message()
            == "framebuffer write arithmetic overflow"@,
{
}

} // verus!
