use ferrink::display_trace::DisplayRegion;
use ferrink::nonzero::{NonZeroU16, NonZeroU32};
use ferrink::refresh::{
    RefreshCapabilities, RefreshCapabilityError, RefreshCompletionPolicy, RefreshError,
    RefreshMode, RefreshRegion, RefreshRequest, RefreshRequestError, UpdateMarkerSequence,
};
use ferrink::transform::{CoordinateAxis, DisplayExtent};

fn visible() -> DisplayExtent {
    DisplayExtent::try_new(1264, 1680).unwrap()
}

fn non_zero(value: u32) -> NonZeroU32 {
    NonZeroU32::new(value).unwrap()
}

#[test]
fn refresh_regions_are_non_empty_and_inside_the_visible_display() {
    let region = RefreshRegion::try_new(1200, 1600, 64, 80, visible()).unwrap();
    assert_eq!(region.x(), 1200);
    assert_eq!(region.y(), 1600);
    assert_eq!(region.width(), 64);
    assert_eq!(region.height(), 80);
    assert_eq!(region.pixel_count(), 5_120);

    assert!(matches!(
        RefreshRegion::try_new(0, 0, 0, 1, visible()),
        Err(RefreshRequestError::ZeroRegionExtent {
            axis: CoordinateAxis::X
        })
    ));
    assert!(matches!(
        RefreshRegion::try_new(0, 0, 1, 0, visible()),
        Err(RefreshRequestError::ZeroRegionExtent {
            axis: CoordinateAxis::Y
        })
    ));
    assert!(matches!(
        RefreshRegion::try_new(u32::MAX, 0, 1, 1, visible()),
        Err(RefreshRequestError::RegionOverflow)
    ));
    assert!(matches!(
        RefreshRegion::try_new(1263, 1679, 2, 1, visible()),
        Err(RefreshRequestError::RegionOutOfBounds { .. })
    ));
}

#[test]
fn full_region_exactly_covers_the_visible_display() {
    let region = RefreshRegion::full(visible());
    assert_eq!(region.x(), 0);
    assert_eq!(region.y(), 0);
    assert_eq!(region.width(), 1264);
    assert_eq!(region.height(), 1680);
    assert_eq!(region.pixel_count(), 2_123_520);
    assert_eq!(DisplayRegion::from(region).width.get(), 1264);
}

#[test]
fn dirty_regions_clip_explicitly_without_wrapping() {
    assert_eq!(
        RefreshRegion::clipped(1200, 1600, 100, 100, visible()),
        Some(RefreshRegion::try_new(1200, 1600, 64, 80, visible()).unwrap())
    );
    assert_eq!(
        RefreshRegion::clipped(1200, 1600, u32::MAX, u32::MAX, visible()),
        Some(RefreshRegion::try_new(1200, 1600, 64, 80, visible()).unwrap())
    );
    assert_eq!(RefreshRegion::clipped(1264, 0, 1, 1, visible()), None);
    assert_eq!(RefreshRegion::clipped(0, 0, 0, 1, visible()), None);
}

#[test]
fn refresh_capabilities_reject_unreviewed_modes_and_waits() {
    assert_eq!(
        RefreshCapabilities::try_new(false, false, None),
        Err(RefreshCapabilityError::NoRefreshModes)
    );

    let partial_only = RefreshCapabilities::try_new(true, false, None).unwrap();
    let region = RefreshRegion::try_new(0, 0, 64, 64, visible()).unwrap();
    let full = RefreshRequest::new(
        region,
        RefreshMode::Full,
        RefreshCompletionPolicy::DoNotWait,
    );
    assert_eq!(
        partial_only.validate(full),
        Err(RefreshRequestError::UnsupportedMode {
            mode: RefreshMode::Full
        })
    );

    let wait = RefreshRequest::new(
        region,
        RefreshMode::Partial,
        RefreshCompletionPolicy::Wait {
            timeout_millis: non_zero(1),
        },
    );
    assert_eq!(
        partial_only.validate(wait),
        Err(RefreshRequestError::CompletionWaitUnsupported)
    );
}

#[test]
fn refresh_capabilities_enforce_the_completion_bound() {
    let capabilities = RefreshCapabilities::try_new(true, true, Some(non_zero(5_000))).unwrap();
    let region = RefreshRegion::try_new(0, 0, 64, 64, visible()).unwrap();
    let accepted = RefreshRequest::new(
        region,
        RefreshMode::Partial,
        RefreshCompletionPolicy::Wait {
            timeout_millis: non_zero(5_000),
        },
    );
    capabilities.validate(accepted).unwrap();

    let excessive = RefreshRequest::new(
        region,
        RefreshMode::Partial,
        RefreshCompletionPolicy::Wait {
            timeout_millis: non_zero(5_001),
        },
    );
    assert_eq!(
        capabilities.validate(excessive),
        Err(RefreshRequestError::CompletionWaitAboveMaximum {
            observed_millis: non_zero(5_001),
            maximum_millis: non_zero(5_000),
        })
    );
}

#[test]
fn update_markers_start_at_one_and_wrap_without_emitting_zero() {
    let mut markers = UpdateMarkerSequence::default();
    assert_eq!(markers.allocate().get(), 1);
    assert_eq!(markers.allocate().get(), 2);

    let mut wrapping = UpdateMarkerSequence::starting_at(non_zero(u32::MAX));
    assert_eq!(wrapping.allocate().get(), u32::MAX);
    assert_eq!(wrapping.allocate().get(), 1);
    assert_eq!(wrapping.allocate().get(), 2);
}

#[test]
fn markers_are_equal_and_ordered_as_their_integers() {
    let mut markers = UpdateMarkerSequence::starting_at(non_zero(6));
    let six = markers.allocate();
    let seven = markers.allocate();
    assert_eq!(six, UpdateMarkerSequence::starting_at(non_zero(6)).allocate());
    assert_ne!(six, seven);
    assert!(six < seven);
    assert!(!(seven < six) && !(six < six));
    assert_eq!(six.max(seven), seven);
    assert_ne!(six.get(), 0);
}

#[test]
fn refresh_failures_preserve_stage_marker_and_errno() {
    let marker = UpdateMarkerSequence::default().allocate();
    let errno = NonZeroU16::new(22);
    let failure = RefreshError::SubmissionFailed { marker, errno };

    assert_eq!(
        failure.message(),
        "refresh marker 1 submission failed with errno 22"
    );
    assert!(failure.source().is_none());

    let request = RefreshRequestError::CompletionWaitUnsupported;
    let failure = RefreshError::from(request);
    assert!(failure.source().is_some());
}

#[test]
fn refresh_failures_are_described() {
    let marker = UpdateMarkerSequence::starting_at(non_zero(7)).allocate();
    for (error, message) in [
        (
            RefreshRequestError::ZeroRegionExtent {
                axis: CoordinateAxis::Y,
            },
            "refresh region y extent must be non-zero",
        ),
        (
            RefreshRequestError::RegionOverflow,
            "refresh region arithmetic overflow",
        ),
        (
            RefreshRequestError::RegionOutOfBounds { display: visible() },
            "refresh region exceeds 1264x1680 display",
        ),
        (
            RefreshRequestError::UnsupportedMode {
                mode: RefreshMode::Full,
            },
            "refresh mode Full is not supported",
        ),
        (
            RefreshRequestError::CompletionWaitUnsupported,
            "refresh completion wait is not supported",
        ),
        (
            RefreshRequestError::CompletionWaitAboveMaximum {
                observed_millis: non_zero(5_001),
                maximum_millis: non_zero(5_000),
            },
            "refresh completion wait 5001 ms exceeds 5000 ms maximum",
        ),
    ] {
        assert_eq!(error.message(), message);
        assert_eq!(
            RefreshError::from(error).message(),
            format!("invalid refresh request: {message}")
        );
    }
    assert_eq!(
        RefreshCapabilityError::NoRefreshModes.message(),
        "at least one refresh mode is required"
    );
    for (error, message) in [
        (
            RefreshError::DeviceUnavailable { errno: None },
            "display device is unavailable",
        ),
        (
            RefreshError::DeviceUnavailable {
                errno: NonZeroU16::new(2),
            },
            "display device is unavailable with errno 2",
        ),
        (
            RefreshError::CompletionFailed {
                marker,
                errno: NonZeroU16::new(5),
            },
            "refresh marker 7 completion failed with errno 5",
        ),
        (
            RefreshError::CompletionTimedOut {
                marker,
                timeout_millis: non_zero(20),
            },
            "refresh marker 7 did not complete within 20 ms",
        ),
    ] {
        assert_eq!(error.message(), message);
        assert!(error.source().is_none());
    }
}
