use vstd::prelude::*;

verus! {

/// Surface transform bits, as the presentation engine reports them.
pub const TRANSFORM_IDENTITY: u32 = 0x1;
pub const TRANSFORM_ROTATE_90: u32 = 0x2;
pub const TRANSFORM_ROTATE_180: u32 = 0x4;
pub const TRANSFORM_ROTATE_270: u32 = 0x8;

/// A width and a height in pixels.
#[derive(Clone, Copy, Debug, PartialEq, Eq, Structural, Hash)]
pub struct Size2 {
    pub width: u32,
    pub height: u32,
}

impl Size2 {
    pub fn new(width: u32, height: u32) -> (r: Size2)
        ensures
            r == (Size2 { width, height }),
    {
        Size2 { width, height }
    }
}

/// What the surface reports of the images it can present.
#[derive(Clone, Copy, Debug, PartialEq, Eq, Structural)]
pub struct SurfaceCapabilities {
    pub min_image_extent: Size2,
    pub max_image_extent: Size2,
    /// The surface's current transform bits.
    pub current_transform: u32,
}

/// `v` brought into `[lo, hi]`; where the bounds cross, the lower one wins.
pub open spec fn clamp(v: u32, lo: u32, hi: u32) -> u32 {
    if v < lo {
        lo
    } else if v > hi {
        if hi < lo {
            lo
        } else {
            hi
        }
    } else {
        v
    }
}

/// Whether the transform turns the surface by a quarter or three quarters.
pub open spec fn is_rotated(transform: u32) -> bool {
    transform & TRANSFORM_ROTATE_90 != 0 || transform & TRANSFORM_ROTATE_270 != 0
}

/// The requested size in the surface's native orientation.
pub open spec fn native_size(transform: u32, size: Size2) -> Size2 {
    if is_rotated(transform) {
        Size2 { width: size.height, height: size.width }
    } else {
        size
    }
}

/// The extent of the images of a presentation surface rebuilt for `size`.
pub open spec fn extent_for(caps: SurfaceCapabilities, size: Size2) -> Size2 {
    let n = native_size(caps.current_transform, size);
    Size2 {
        width: clamp(n.width, caps.min_image_extent.width, caps.max_image_extent.width),
        height: clamp(n.height, caps.min_image_extent.height, caps.max_image_extent.height),
    }
}

fn clamp_exec(v: u32, lo: u32, hi: u32) -> (r: u32)
    ensures
        r == clamp(v, lo, hi),
{
    if v < lo {
        lo
    } else if v > hi {
        if hi < lo {
            lo
        } else {
            hi
        }
    } else {
        v
    }
}

/// The image extent for a requested size: width and height swap where the
/// surface is turned by a quarter or three quarters, so that images keep the
/// native orientation, and each is then clamped to the surface's limits.
pub fn swapchain_extent(caps: &SurfaceCapabilities, size: Size2) -> (r: Size2)
    ensures
        r == extent_for(*caps, size),
{
    let t = caps.current_transform;
    let n = if t & TRANSFORM_ROTATE_90 != 0 || t & TRANSFORM_ROTATE_270 != 0 {
        Size2::new(size.height, size.width)
    } else {
        size
    };
    Size2::new(
        clamp_exec(n.width, caps.min_image_extent.width, caps.max_image_extent.width),
        clamp_exec(n.height, caps.min_image_extent.height, caps.max_image_extent.height),
    )
}

/// Quarter turns, clockwise, that undo the surface transform at the final
/// composition step: one for a quarter turn, two for a half, three for three
/// quarters, none for any other transform.
pub open spec fn prerotation_turns(transform: u32) -> u32 {
    if transform == TRANSFORM_ROTATE_90 {
        1
    } else if transform == TRANSFORM_ROTATE_180 {
        2
    } else if transform == TRANSFORM_ROTATE_270 {
        3
    } else {
        0
    }
}

/// The pre-rotation applied to the presentation pass only, in quarter turns;
/// the angle in radians is minus a half pi per turn.
pub fn get_prerotation_turns(current_transform: u32) -> (r: u32)
    ensures
        r == prerotation_turns(current_transform),
        r < 4,
{
    if current_transform == TRANSFORM_ROTATE_90 {
        1
    } else if current_transform == TRANSFORM_ROTATE_180 {
        2
    } else if current_transform == TRANSFORM_ROTATE_270 {
        3
    } else {
        0
    }
}

/// The chain of presentable images: its raw handle, image count, extent and transform.
#[derive(Clone, Copy, Debug, PartialEq, Eq, Structural)]
pub struct Swapchain {
    pub swapchain: u64,
    pub image_count: usize,
    pub extent: Size2,
    pub current_transform: u32,
}

impl Swapchain {
    /// A chain of `image_count` images made for `size` on a surface with `caps`.
    pub fn new(swapchain: u64, image_count: usize, caps: &SurfaceCapabilities, size: Size2) -> (r:
        Swapchain)
        ensures
            r.swapchain == swapchain,
            r.image_count == image_count,
            r.extent == extent_for(*caps, size),
            r.current_transform == caps.current_transform,
    {
        Swapchain {
            swapchain,
            image_count,
            extent: swapchain_extent(caps, size),
            current_transform: caps.current_transform,
        }
    }
}

} // verus!
