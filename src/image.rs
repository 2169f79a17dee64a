use vstd::prelude::*;

verus! {

/// Depth format codes, as the device API numbers them.
pub const FORMAT_D16_UNORM: i32 = 124;
pub const FORMAT_D32_SFLOAT: i32 = 126;
pub const FORMAT_D16_UNORM_S8_UINT: i32 = 128;
pub const FORMAT_D24_UNORM_S8_UINT: i32 = 129;
pub const FORMAT_D32_SFLOAT_S8_UINT: i32 = 130;

/// Image aspect bits.
pub const ASPECT_COLOR: u32 = 0x1;
pub const ASPECT_DEPTH: u32 = 0x2;

pub open spec fn depth_format(format: i32) -> bool {
    format == FORMAT_D16_UNORM || format == FORMAT_D16_UNORM_S8_UINT || format
        == FORMAT_D24_UNORM_S8_UINT || format == FORMAT_D32_SFLOAT || format
        == FORMAT_D32_SFLOAT_S8_UINT
}

/// Whether an attachment of this format holds depth.
pub fn is_depth_format(format: i32) -> (r: bool)
    ensures
        r == depth_format(format),
{
    format == FORMAT_D16_UNORM || format == FORMAT_D16_UNORM_S8_UINT || format
        == FORMAT_D24_UNORM_S8_UINT || format == FORMAT_D32_SFLOAT || format
        == FORMAT_D32_SFLOAT_S8_UINT
}

/// The aspect that views of an image of this format cover: depth for depth
/// formats, color for any other.
pub fn get_aspect_from_format(format: i32) -> (r: u32)
    ensures
        r == (if depth_format(format) {
            ASPECT_DEPTH
        } else {
            ASPECT_COLOR
        }),
{
    if is_depth_format(format) {
        ASPECT_DEPTH
    } else {
        ASPECT_COLOR
    }
}

} // verus!
