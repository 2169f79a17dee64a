use rayca_vk::image::{
    get_aspect_from_format, is_depth_format, ASPECT_COLOR, ASPECT_DEPTH, FORMAT_D24_UNORM_S8_UINT,
    FORMAT_D32_SFLOAT,
};

#[test]
fn depth_formats_get_depth_aspect() {
    assert!(is_depth_format(FORMAT_D32_SFLOAT));
    assert!(is_depth_format(FORMAT_D24_UNORM_S8_UINT));
    assert!(!is_depth_format(37));
    assert!(!is_depth_format(125));
    assert_eq!(get_aspect_from_format(FORMAT_D32_SFLOAT), ASPECT_DEPTH);
    assert_eq!(get_aspect_from_format(37), ASPECT_COLOR);
}
