use rayca_vk::swapchain::{
    get_prerotation_turns, swapchain_extent, Size2, SurfaceCapabilities, Swapchain,
    TRANSFORM_IDENTITY, TRANSFORM_ROTATE_180, TRANSFORM_ROTATE_270, TRANSFORM_ROTATE_90,
};

fn caps(transform: u32) -> SurfaceCapabilities {
    SurfaceCapabilities {
        min_image_extent: Size2::new(64, 64),
        max_image_extent: Size2::new(1920, 1080),
        current_transform: transform,
    }
}

#[test]
fn extent_within_limits_is_kept() {
    assert_eq!(swapchain_extent(&caps(TRANSFORM_IDENTITY), Size2::new(800, 600)), Size2::new(800, 600));
}

#[test]
fn extent_is_clamped_to_limits() {
    assert_eq!(swapchain_extent(&caps(TRANSFORM_IDENTITY), Size2::new(10, 5000)), Size2::new(64, 1080));
    assert_eq!(swapchain_extent(&caps(TRANSFORM_IDENTITY), Size2::new(4000, 0)), Size2::new(1920, 64));
}

#[test]
fn rotated_surface_swaps_width_and_height() {
    assert_eq!(swapchain_extent(&caps(TRANSFORM_ROTATE_90), Size2::new(600, 800)), Size2::new(800, 600));
    assert_eq!(swapchain_extent(&caps(TRANSFORM_ROTATE_270), Size2::new(600, 800)), Size2::new(800, 600));
    assert_eq!(swapchain_extent(&caps(TRANSFORM_ROTATE_180), Size2::new(600, 800)), Size2::new(600, 800));
    assert_eq!(swapchain_extent(&caps(TRANSFORM_ROTATE_90), Size2::new(2000, 100)), Size2::new(100, 1080));
}

#[test]
fn prerotation_turns_follow_transform() {
    assert_eq!(get_prerotation_turns(TRANSFORM_IDENTITY), 0);
    assert_eq!(get_prerotation_turns(TRANSFORM_ROTATE_90), 1);
    assert_eq!(get_prerotation_turns(TRANSFORM_ROTATE_180), 2);
    assert_eq!(get_prerotation_turns(TRANSFORM_ROTATE_270), 3);
    assert_eq!(get_prerotation_turns(TRANSFORM_ROTATE_90 | TRANSFORM_ROTATE_180), 0);
}

#[test]
fn swapchain_records_extent_and_transform() {
    let sc = Swapchain::new(5, 3, &caps(TRANSFORM_ROTATE_90), Size2::new(480, 640));
    assert_eq!(sc.swapchain, 5);
    assert_eq!(sc.image_count, 3);
    assert_eq!(sc.extent, Size2::new(640, 480));
    assert_eq!(sc.current_transform, TRANSFORM_ROTATE_90);
}
