use lumina::frame::{acquire_recovery, initial_extent, resize_applies, AcquireAction, SurfaceFailure};

#[test]
fn resize_ignores_zero_sides() {
    assert!(resize_applies(1280, 720));
    assert!(!resize_applies(0, 720));
    assert!(!resize_applies(1280, 0));
    assert!(!resize_applies(0, 0));
}

#[test]
fn lost_or_outdated_surface_is_reconfigured_when_it_has_an_area() {
    assert_eq!(acquire_recovery(SurfaceFailure::Lost, 800, 600), AcquireAction::ReconfigureAndSkip);
    assert_eq!(acquire_recovery(SurfaceFailure::Outdated, 800, 600), AcquireAction::ReconfigureAndSkip);
    assert_eq!(acquire_recovery(SurfaceFailure::Lost, 0, 600), AcquireAction::Skip);
    assert_eq!(acquire_recovery(SurfaceFailure::Outdated, 800, 0), AcquireAction::Skip);
}

#[test]
fn timeout_skips_and_out_of_memory_is_fatal() {
    assert_eq!(acquire_recovery(SurfaceFailure::Timeout, 800, 600), AcquireAction::Skip);
    assert_eq!(acquire_recovery(SurfaceFailure::Timeout, 0, 0), AcquireAction::Skip);
    assert_eq!(acquire_recovery(SurfaceFailure::OutOfMemory, 800, 600), AcquireAction::Fatal);
    assert_eq!(acquire_recovery(SurfaceFailure::OutOfMemory, 0, 0), AcquireAction::Fatal);
}

#[test]
fn initial_extent_raises_zero_sides_to_one() {
    assert_eq!(initial_extent(1280, 720), (1280, 720));
    assert_eq!(initial_extent(0, 720), (1, 720));
    assert_eq!(initial_extent(1280, 0), (1280, 1));
    assert_eq!(initial_extent(0, 0), (1, 1));
}
