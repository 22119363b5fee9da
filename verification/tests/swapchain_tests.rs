use render_core::device::{ColorFormat, ColorSpace, SurfaceFormat};
use render_core::errors::{FrameError, InitError};
use render_core::swapchain::{
    choose_extent, choose_min_image_count, Extent2d, SurfaceCapabilities, SwapchainState,
    UNDEFINED_DIMENSION,
};
use render_core::teardown::{swapchain_teardown_ops, TeardownOp};

fn caps(min: u32, max: u32, extent: Extent2d) -> SurfaceCapabilities {
    SurfaceCapabilities { min_image_count: min, max_image_count: max, current_extent: extent }
}

fn fixed(width: u32, height: u32) -> Extent2d {
    Extent2d { width, height }
}

fn undefined_extent() -> Extent2d {
    Extent2d { width: UNDEFINED_DIMENSION, height: UNDEFINED_DIMENSION }
}

fn srgb() -> SurfaceFormat {
    SurfaceFormat { format: ColorFormat::B8g8r8a8Srgb, color_space: ColorSpace::SrgbNonlinear }
}

#[test]
fn image_count_is_min_plus_one_when_unbounded() {
    assert_eq!(choose_min_image_count(caps(2, 0, fixed(1, 1))), 3);
    assert_eq!(choose_min_image_count(caps(1, 0, fixed(1, 1))), 2);
}

#[test]
fn image_count_is_clamped_to_bounded_maximum() {
    assert_eq!(choose_min_image_count(caps(2, 8, fixed(1, 1))), 3);
    assert_eq!(choose_min_image_count(caps(3, 3, fixed(1, 1))), 3);
    assert_eq!(choose_min_image_count(caps(2, 3, fixed(1, 1))), 3);
}

#[test]
fn extent_follows_window_only_for_the_sentinel() {
    let window = fixed(640, 480);
    assert_eq!(choose_extent(caps(2, 0, undefined_extent()), window), window);
    assert_eq!(choose_extent(caps(2, 0, fixed(800, 600)), window), fixed(800, 600));
    // One sentinel dimension alone is not the undefined extent.
    let half = Extent2d { width: UNDEFINED_DIMENSION, height: 600 };
    assert_eq!(choose_extent(caps(2, 0, half), window), half);
}

#[test]
fn swapchain_state_holds_one_view_per_image() {
    let images = vec![101, 102, 103];
    let views = vec![201, 202, 203];
    let state = SwapchainState::new(
        caps(2, 3, undefined_extent()),
        fixed(640, 480),
        srgb(),
        77,
        &images,
        &views,
    )
    .unwrap();
    assert_eq!(state.image_count(), 3);
    assert_eq!(state.image_extent, fixed(640, 480));
    assert_eq!(state.requested_count, 3);
    assert_eq!(state.swapchain, 77);
    assert_eq!(state.get_image(0).unwrap(), (101, 201));
    assert_eq!(state.get_image(2).unwrap(), (103, 203));
    assert_eq!(state.get_image(3), Err(FrameError::InvalidImageIndex));
    assert_eq!(state.views(), views);
}

#[test]
fn swapchain_state_rejects_mismatched_chain() {
    let r = SwapchainState::new(
        caps(2, 3, fixed(100, 100)),
        fixed(640, 480),
        srgb(),
        77,
        &vec![101, 102, 103],
        &vec![201, 202],
    );
    assert_eq!(r.err().unwrap(), InitError::SwapchainCreation);
}

#[test]
fn swapchain_state_rejects_short_chain() {
    // Three images were requested (2 + 1), the driver handed back two.
    let r = SwapchainState::new(
        caps(2, 0, fixed(100, 100)),
        fixed(640, 480),
        srgb(),
        77,
        &vec![101, 102],
        &vec![201, 202],
    );
    assert_eq!(r.err().unwrap(), InitError::SwapchainCreation);
}

#[test]
fn swapchain_teardown_destroys_views_before_the_chain() {
    let state = SwapchainState::new(
        caps(1, 2, fixed(100, 100)),
        fixed(640, 480),
        srgb(),
        9,
        &vec![11, 12],
        &vec![21, 22],
    )
    .unwrap();
    let ops = swapchain_teardown_ops(&state);
    assert_eq!(
        ops,
        vec![
            TeardownOp::DestroyImageView { view: 21 },
            TeardownOp::DestroyImageView { view: 22 },
            TeardownOp::DestroySwapchain { swapchain: 9 },
        ]
    );
    // The images themselves are never destroyed.
    assert!(ops.iter().all(|op| !matches!(op, TeardownOp::FreeAllocation { .. })));
}
