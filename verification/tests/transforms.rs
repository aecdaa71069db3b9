use ferrink::transform::{
    AxisRange, CoordinateAxis, DisplayExtent, DisplayPoint, InputTransform, QuarterTurn, RawPoint,
    TransformError,
};

fn transform(width: u32, height: u32) -> InputTransform {
    InputTransform::new(
        AxisRange::try_new(0, 2).unwrap(),
        AxisRange::try_new(0, 1).unwrap(),
        DisplayExtent::try_new(width, height).unwrap(),
    )
}

#[test]
fn axis_ranges_and_display_extents_reject_empty_domains() {
    assert!(matches!(
        AxisRange::try_new(4, 4),
        Err(TransformError::InvalidAxisRange { .. })
    ));
    assert!(matches!(
        AxisRange::try_new(5, 4),
        Err(TransformError::InvalidAxisRange { .. })
    ));
    assert!(matches!(
        DisplayExtent::try_new(0, 10),
        Err(TransformError::ZeroDisplayExtent {
            axis: CoordinateAxis::X
        })
    ));
    assert!(matches!(
        DisplayExtent::try_new(10, 0),
        Err(TransformError::ZeroDisplayExtent {
            axis: CoordinateAxis::Y
        })
    ));
}

#[test]
fn normalization_maps_endpoints_and_clamps_out_of_range_values() {
    let transform = InputTransform::new(
        AxisRange::try_new(-10, 10).unwrap(),
        AxisRange::try_new(100, 200).unwrap(),
        DisplayExtent::try_new(101, 51).unwrap(),
    );

    assert_eq!(
        transform.map(RawPoint { x: -20, y: 50 }).unwrap(),
        DisplayPoint { x: 0, y: 0 }
    );
    assert_eq!(
        transform.map(RawPoint { x: 0, y: 150 }).unwrap(),
        DisplayPoint { x: 50, y: 25 }
    );
    assert_eq!(
        transform.map(RawPoint { x: 20, y: 250 }).unwrap(),
        DisplayPoint { x: 100, y: 50 }
    );
}

#[test]
fn swap_and_inversion_are_applied_before_rotation() {
    let transform = transform(3, 2)
        .with_swap_xy(true)
        .with_invert_x(true)
        .with_invert_y(true);

    assert_eq!(
        transform.map(RawPoint { x: 0, y: 0 }).unwrap(),
        DisplayPoint { x: 2, y: 1 }
    );
    assert_eq!(
        transform.map(RawPoint { x: 2, y: 1 }).unwrap(),
        DisplayPoint { x: 0, y: 0 }
    );
}

#[test]
fn quarter_turns_keep_points_inside_the_rotated_extent() {
    let raw = RawPoint { x: 0, y: 0 };
    let upright = transform(3, 2);
    assert_eq!(upright.map(raw).unwrap(), DisplayPoint { x: 0, y: 0 });
    assert_eq!(
        upright.output_extent(),
        DisplayExtent::try_new(3, 2).unwrap()
    );

    let clockwise = upright.with_rotation(QuarterTurn::Clockwise);
    assert_eq!(clockwise.map(raw).unwrap(), DisplayPoint { x: 1, y: 0 });
    assert_eq!(
        clockwise.output_extent(),
        DisplayExtent::try_new(2, 3).unwrap()
    );

    let upside_down = upright.with_rotation(QuarterTurn::UpsideDown);
    assert_eq!(upside_down.map(raw).unwrap(), DisplayPoint { x: 2, y: 1 });

    let counter_clockwise = upright.with_rotation(QuarterTurn::CounterClockwise);
    assert_eq!(
        counter_clockwise.map(raw).unwrap(),
        DisplayPoint { x: 0, y: 2 }
    );
    assert_eq!(
        counter_clockwise.output_extent(),
        DisplayExtent::try_new(2, 3).unwrap()
    );
}

#[test]
fn every_raw_corner_maps_to_the_expected_corner_for_all_rotations() {
    let base = transform(3, 2);
    let raw_corners = [
        RawPoint { x: 0, y: 0 },
        RawPoint { x: 2, y: 0 },
        RawPoint { x: 0, y: 1 },
        RawPoint { x: 2, y: 1 },
    ];
    let cases = [
        (
            QuarterTurn::Upright,
            [
                DisplayPoint { x: 0, y: 0 },
                DisplayPoint { x: 2, y: 0 },
                DisplayPoint { x: 0, y: 1 },
                DisplayPoint { x: 2, y: 1 },
            ],
        ),
        (
            QuarterTurn::Clockwise,
            [
                DisplayPoint { x: 1, y: 0 },
                DisplayPoint { x: 1, y: 2 },
                DisplayPoint { x: 0, y: 0 },
                DisplayPoint { x: 0, y: 2 },
            ],
        ),
        (
            QuarterTurn::UpsideDown,
            [
                DisplayPoint { x: 2, y: 1 },
                DisplayPoint { x: 0, y: 1 },
                DisplayPoint { x: 2, y: 0 },
                DisplayPoint { x: 0, y: 0 },
            ],
        ),
        (
            QuarterTurn::CounterClockwise,
            [
                DisplayPoint { x: 0, y: 2 },
                DisplayPoint { x: 0, y: 0 },
                DisplayPoint { x: 1, y: 2 },
                DisplayPoint { x: 1, y: 0 },
            ],
        ),
    ];

    for (rotation, expected) in cases {
        let transform = base.with_rotation(rotation);
        for (raw, expected) in raw_corners.into_iter().zip(expected) {
            assert_eq!(transform.map(raw).unwrap(), expected);
        }
    }
}

#[test]
fn swap_and_mirror_calibration_cases_have_distinct_corner_results() {
    let upper_right = RawPoint { x: 2, y: 0 };
    let base = transform(3, 2);
    let cases = [
        (base, DisplayPoint { x: 2, y: 0 }),
        (base.with_swap_xy(true), DisplayPoint { x: 0, y: 1 }),
        (base.with_invert_x(true), DisplayPoint { x: 0, y: 0 }),
        (base.with_invert_y(true), DisplayPoint { x: 2, y: 1 }),
        (
            base.with_swap_xy(true).with_invert_x(true),
            DisplayPoint { x: 2, y: 1 },
        ),
        (
            base.with_swap_xy(true).with_invert_y(true),
            DisplayPoint { x: 0, y: 0 },
        ),
    ];

    for (transform, expected) in cases {
        assert_eq!(transform.map(upper_right).unwrap(), expected);
    }
}

#[test]
fn framebuffer_rotation_conversion_is_checked() {
    assert_eq!(QuarterTurn::try_from(0).unwrap(), QuarterTurn::Upright);
    assert_eq!(
        QuarterTurn::try_from(3).unwrap(),
        QuarterTurn::CounterClockwise
    );
    assert!(matches!(
        QuarterTurn::try_from(4),
        Err(TransformError::UnsupportedFramebufferRotation { value: 4 })
    ));
}

#[test]
fn full_i32_axis_range_maps_to_full_u32_display_extent_without_overflow() {
    let transform = InputTransform::new(
        AxisRange::try_new(i32::MIN, i32::MAX).unwrap(),
        AxisRange::try_new(i32::MIN, i32::MAX).unwrap(),
        DisplayExtent::try_new(u32::MAX, u32::MAX).unwrap(),
    );

    assert_eq!(
        transform
            .map(RawPoint {
                x: i32::MAX,
                y: i32::MAX,
            })
            .unwrap(),
        DisplayPoint {
            x: u32::MAX - 1,
            y: u32::MAX - 1,
        }
    );
}

#[test]
fn transform_failures_are_described() {
    for (error, message) in [
        (
            AxisRange::try_new(-3, -4).unwrap_err(),
            "invalid inclusive axis range -3..=-4",
        ),
        (
            DisplayExtent::try_new(0, 0).unwrap_err(),
            "display x extent must be non-zero",
        ),
        (
            DisplayExtent::try_new(1, 0).unwrap_err(),
            "display y extent must be non-zero",
        ),
        (
            QuarterTurn::try_from(9).unwrap_err(),
            "unsupported framebuffer rotation 9",
        ),
        (
            TransformError::ArithmeticOverflow,
            "coordinate arithmetic overflow",
        ),
    ] {
        assert_eq!(error.message(), message);
    }
}

#[test]
fn mapped_points_stay_inside_the_output_extent() {
    for rotation in [
        QuarterTurn::Upright,
        QuarterTurn::Clockwise,
        QuarterTurn::UpsideDown,
        QuarterTurn::CounterClockwise,
    ] {
        let transform = transform(7, 3).with_swap_xy(true).with_rotation(rotation);
        let extent = transform.output_extent();
        for x in -2..5 {
            for y in -2..5 {
                let point = transform.map(RawPoint { x, y }).unwrap();
                assert!(point.x < extent.width() && point.y < extent.height());
            }
        }
    }
}
