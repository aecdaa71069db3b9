use ferrink::framebuffer::{
    FramebufferLayoutError, FramebufferWriteError, Gray8Conversion, Gray8FramebufferLayout,
    Rgb8Pixel,
};
use ferrink::nonzero::NonZeroU32;
use ferrink::probe::{FramebufferCapability, PixelBitfield, PixelLayout};
use ferrink::refresh::RefreshRegion;
use ferrink::transform::DisplayExtent;

fn non_zero(value: u32) -> NonZeroU32 {
    NonZeroU32::new(value).unwrap()
}

fn layout() -> Gray8FramebufferLayout {
    Gray8FramebufferLayout::try_new(
        DisplayExtent::try_new(3, 2).unwrap(),
        DisplayExtent::try_new(5, 3).unwrap(),
        1,
        1,
        non_zero(8),
        non_zero(24),
    )
    .unwrap()
}

fn source_pixels() -> [Rgb8Pixel; 7] {
    [
        Rgb8Pixel {
            red: 0,
            green: 0,
            blue: 0,
        },
        Rgb8Pixel {
            red: 255,
            green: 0,
            blue: 0,
        },
        Rgb8Pixel {
            red: 0,
            green: 255,
            blue: 0,
        },
        Rgb8Pixel::default(),
        Rgb8Pixel {
            red: 0,
            green: 0,
            blue: 255,
        },
        Rgb8Pixel {
            red: 128,
            green: 128,
            blue: 128,
        },
        Rgb8Pixel {
            red: 255,
            green: 255,
            blue: 255,
        },
    ]
}

#[test]
fn layout_rejects_offsets_stride_and_memory_that_cannot_hold_visible_rows() {
    let visible = DisplayExtent::try_new(3, 2).unwrap();
    let virtual_extent = DisplayExtent::try_new(5, 3).unwrap();
    assert_eq!(
        Gray8FramebufferLayout::try_new(
            visible,
            virtual_extent,
            3,
            0,
            non_zero(8),
            non_zero(24),
        ),
        Err(FramebufferLayoutError::VisibleOutsideVirtual)
    );
    assert_eq!(
        Gray8FramebufferLayout::try_new(
            visible,
            virtual_extent,
            0,
            0,
            non_zero(4),
            non_zero(24),
        ),
        Err(FramebufferLayoutError::LineLengthTooShort {
            observed: 4,
            minimum: 5,
        })
    );
    assert_eq!(
        Gray8FramebufferLayout::try_new(
            visible,
            virtual_extent,
            0,
            0,
            non_zero(8),
            non_zero(23),
        ),
        Err(FramebufferLayoutError::MemoryLengthTooShort {
            observed: 23,
            minimum: 24,
        })
    );
}

#[test]
fn grayscale_write_honors_source_stride_virtual_offset_and_target_padding() {
    let mut target = [0xaa; 24];
    let region = RefreshRegion::full(layout().visible());
    layout()
        .write_rgb8_region(
            &mut target,
            region,
            &source_pixels(),
            non_zero(4),
            Gray8Conversion::Grayscale,
        )
        .unwrap();

    let mut expected = [0xaa; 24];
    expected[9..12].copy_from_slice(&[0, 77, 149]);
    expected[17..20].copy_from_slice(&[29, 128, 255]);
    assert_eq!(target, expected);
}

#[test]
fn bilevel_write_quantizes_at_the_inclusive_threshold() {
    let mut target = [0xaa; 24];
    let region = RefreshRegion::try_new(0, 0, 3, 1, layout().visible()).unwrap();
    let source = [
        Rgb8Pixel {
            red: 127,
            green: 127,
            blue: 127,
        },
        Rgb8Pixel {
            red: 128,
            green: 128,
            blue: 128,
        },
        Rgb8Pixel {
            red: 255,
            green: 255,
            blue: 255,
        },
    ];
    layout()
        .write_rgb8_region(
            &mut target,
            region,
            &source,
            non_zero(3),
            Gray8Conversion::Bilevel { threshold: 128 },
        )
        .unwrap();
    assert_eq!(&target[9..12], &[0, 255, 255]);
}

#[test]
fn every_error_is_detected_before_the_target_changes() {
    let region = RefreshRegion::full(layout().visible());
    let cases = [
        (
            vec![Rgb8Pixel::default(); 6],
            non_zero(4),
            vec![0xaa; 24],
            FramebufferWriteError::SourceTooShort {
                observed: 6,
                minimum: 7,
            },
        ),
        (
            source_pixels().to_vec(),
            non_zero(2),
            vec![0xaa; 24],
            FramebufferWriteError::SourceStrideTooShort {
                observed: 2,
                minimum: 3,
            },
        ),
        (
            source_pixels().to_vec(),
            non_zero(4),
            vec![0xaa; 23],
            FramebufferWriteError::TargetTooShort {
                observed: 23,
                minimum: 24,
            },
        ),
    ];

    for (source, stride, mut target, expected_error) in cases {
        let before = target.clone();
        assert_eq!(
            layout().write_rgb8_region(
                &mut target,
                region,
                &source,
                stride,
                Gray8Conversion::Grayscale,
            ),
            Err(expected_error)
        );
        assert_eq!(target, before);
    }

    let larger_display = DisplayExtent::try_new(4, 3).unwrap();
    let foreign_region = RefreshRegion::full(larger_display);
    let source = vec![Rgb8Pixel::default(); 12];
    let mut target = vec![0xaa; 24];
    let before = target.clone();
    assert_eq!(
        layout().write_rgb8_region(
            &mut target,
            foreign_region,
            &source,
            non_zero(4),
            Gray8Conversion::Grayscale,
        ),
        Err(FramebufferWriteError::RegionOutsideLayout)
    );
    assert_eq!(target, before);
}

#[test]
fn layouts_reject_offsets_that_wrap_and_formats_that_are_not_gray() {
    let extent = DisplayExtent::try_new(3, 2).unwrap();
    assert_eq!(
        Gray8FramebufferLayout::try_new(
            extent,
            extent,
            u32::MAX,
            0,
            non_zero(8),
            non_zero(24),
        ),
        Err(FramebufferLayoutError::VisibleOffsetOverflow)
    );
    let field = PixelBitfield {
        offset: 0,
        length: 8,
        msb_right: 0,
    };
    let gray = FramebufferCapability {
        device: "/dev/fb0".to_owned(),
        driver_id: "test".to_owned(),
        visible_width: 3,
        visible_height: 2,
        virtual_width: 5,
        virtual_height: 3,
        x_offset: 1,
        y_offset: 1,
        line_length: 8,
        memory_length: 24,
        bits_per_pixel: 8,
        grayscale: 1,
        pixel_layout: PixelLayout::Grayscale8,
        rotation: 0,
        red: field,
        green: field,
        blue: field,
        transparency: field,
    };
    assert_eq!(
        Gray8FramebufferLayout::try_from_capability(&gray),
        Ok(layout())
    );
    let cases = [
        (
            FramebufferCapability {
                bits_per_pixel: 16,
                ..gray.clone()
            },
            FramebufferLayoutError::UnsupportedPixelFormat {
                bits_per_pixel: 16,
                pixel_layout: PixelLayout::Grayscale8,
            },
        ),
        (
            FramebufferCapability {
                visible_width: 0,
                ..gray.clone()
            },
            FramebufferLayoutError::InvalidVisibleExtent,
        ),
        (
            FramebufferCapability {
                virtual_height: 0,
                ..gray.clone()
            },
            FramebufferLayoutError::InvalidVirtualExtent,
        ),
        (
            FramebufferCapability {
                line_length: 0,
                ..gray.clone()
            },
            FramebufferLayoutError::ZeroLineLength,
        ),
        (
            FramebufferCapability {
                memory_length: 0,
                ..gray.clone()
            },
            FramebufferLayoutError::ZeroMemoryLength,
        ),
    ];
    for (capability, error) in cases {
        assert_eq!(
            Gray8FramebufferLayout::try_from_capability(&capability),
            Err(error)
        );
    }
}

#[test]
fn conversion_keeps_grays_and_is_monotone() {
    let mut previous = 0;
    for gray in 0..=255 {
        let pixel = Rgb8Pixel {
            red: gray,
            green: gray,
            blue: gray,
        };
        assert_eq!(Gray8Conversion::Grayscale.convert(pixel), gray);
        let brighter = Gray8Conversion::Grayscale.convert(Rgb8Pixel { red: gray, ..pixel });
        assert!(brighter >= previous);
        previous = brighter;
    }
    assert_eq!(
        Gray8Conversion::Grayscale.convert(Rgb8Pixel {
            red: 10,
            green: 20,
            blue: 30,
        }),
        18
    );
}

#[test]
fn writing_twice_is_writing_once() {
    let region = RefreshRegion::full(layout().visible());
    let mut once = [0xaa; 24];
    layout()
        .write_rgb8_region(
            &mut once,
            region,
            &source_pixels(),
            non_zero(4),
            Gray8Conversion::Grayscale,
        )
        .unwrap();
    let mut twice = once;
    layout()
        .write_rgb8_region(
            &mut twice,
            region,
            &source_pixels(),
            non_zero(4),
            Gray8Conversion::Grayscale,
        )
        .unwrap();
    assert_eq!(once, twice);
}

#[test]
fn framebuffer_failures_are_described() {
    for (error, message) in [
        (
            FramebufferLayoutError::UnsupportedPixelFormat {
                bits_per_pixel: 16,
                pixel_layout: PixelLayout::PackedRgb,
            },
            "unsupported framebuffer format: 16 bpp PackedRgb",
        ),
        (
            FramebufferLayoutError::InvalidVisibleExtent,
            "visible extent must be non-zero",
        ),
        (
            FramebufferLayoutError::InvalidVirtualExtent,
            "virtual extent must be non-zero",
        ),
        (
            FramebufferLayoutError::ZeroLineLength,
            "framebuffer line length must be non-zero",
        ),
        (
            FramebufferLayoutError::ZeroMemoryLength,
            "framebuffer memory length must be non-zero",
        ),
        (
            FramebufferLayoutError::VisibleOffsetOverflow,
            "visible framebuffer offset arithmetic overflow",
        ),
        (
            FramebufferLayoutError::VisibleOutsideVirtual,
            "visible framebuffer leaves the virtual extent",
        ),
        (
            FramebufferLayoutError::LineLengthTooShort {
                observed: 4,
                minimum: 5,
            },
            "framebuffer line length 4 is shorter than 5",
        ),
        (
            FramebufferLayoutError::MemoryLengthTooShort {
                observed: 23,
                minimum: 24,
            },
            "framebuffer memory length 23 is shorter than 24",
        ),
        (
            FramebufferLayoutError::ArithmeticOverflow,
            "framebuffer layout arithmetic overflow",
        ),
    ] {
        assert_eq!(error.message(), message);
    }
    for (error, message) in [
        (
            FramebufferWriteError::RegionOutsideLayout,
            "dirty region leaves the framebuffer layout",
        ),
        (
            FramebufferWriteError::SourceStrideTooShort {
                observed: 2,
                minimum: 3,
            },
            "source stride 2 pixels is shorter than 3",
        ),
        (
            FramebufferWriteError::SourceTooShort {
                observed: 6,
                minimum: 7,
            },
            "source contains 6 pixels; at least 7 are required",
        ),
        (
            FramebufferWriteError::TargetTooShort {
                observed: 23,
                minimum: 24,
            },
            "target contains 23 bytes; at least 24 are required",
        ),
        (
            FramebufferWriteError::ArithmeticOverflow,
            "framebuffer write arithmetic overflow",
        ),
    ] {
        assert_eq!(error.message(), message);
    }
}
