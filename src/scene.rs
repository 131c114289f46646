//! The one-node scene a view publishes each frame.

use vstd::prelude::*;
use crate::geometry::{Point, Rectangle, Size};

verus! {

/// Id of the image resource that holds the frame's pixels.
pub const CONTENT_RESOURCE_ID: u32 = 1;

/// Id of the node that shows the image.
pub const ROOT_NODE_ID: u32 = 0;

/// Bytes per pixel of the shared buffer (premultiplied ARGB, 8 bits each).
pub const BYTES_PER_PIXEL: u64 = 4;

/// A size whose dimensions are not negative.
pub open spec fn size_valid(size: Size) -> bool {
    size.width >= 0 && size.height >= 0
}

/// Bytes in a tightly packed frame of `size`.
pub open spec fn frame_len(size: Size) -> int {
    size.width * size.height * 4
}

/// Bytes in a tightly packed frame of `size`: four per pixel.
pub fn frame_bytes(size: Size) -> (r: u64)
    requires
        size_valid(size),
    ensures
        r == frame_len(size),
{
    let w = size.width as u64;
    let h = size.height as u64;
    assert(w * h * 4 <= u64::MAX) by (nonlinear_arith)
        requires
            w <= i32::MAX,
            h <= i32::MAX,
    ;
    w * h * BYTES_PER_PIXEL
}

/// The image a frame's pixels form in the shared buffer.
#[derive(Clone, Copy, Debug, PartialEq, Eq, Structural)]
pub struct ImageResource {
    pub size: Size,
    /// Bytes from one row to the next.
    pub stride: u64,
    /// Where the first pixel lies in the buffer.
    pub offset: u64,
}

/// A node that shows one image over a rectangle and takes the hits there.
#[derive(Clone, Copy, Debug, PartialEq, Eq, Structural)]
pub struct ImageNode {
    pub content_rect: Rectangle,
    pub hit_rect: Rectangle,
    /// Whether hits inside `hit_rect` stop at this node.
    pub opaque: bool,
    pub image_resource_id: u32,
}

/// One scene change: one image resource and one node that shows it.
#[derive(Clone, Copy, Debug, PartialEq, Eq, Structural)]
pub struct SceneUpdate {
    pub resource_id: u32,
    pub resource: ImageResource,
    pub node_id: u32,
    pub node: ImageNode,
}

/// What a publication is tagged with.
#[derive(Clone, Copy, Debug, PartialEq, Eq, Structural)]
pub struct SceneMetadata {
    pub version: u32,
    pub presentation_time: i64,
}

/// The rectangle that covers a view of `size`.
pub open spec fn viewport(size: Size) -> Rectangle {
    Rectangle { origin: Point { x: 0, y: 0 }, size }
}

/// The update that shows a frame of `size` over the whole view, opaque to hits.
pub open spec fn full_view_update(size: Size) -> SceneUpdate {
    SceneUpdate {
        resource_id: CONTENT_RESOURCE_ID,
        resource: ImageResource {
            size,
            stride: (size.width * 4) as u64,
            offset: 0,
        },
        node_id: ROOT_NODE_ID,
        node: ImageNode {
            content_rect: viewport(size),
            hit_rect: viewport(size),
            opaque: true,
            image_resource_id: CONTENT_RESOURCE_ID,
        },
    }
}

/// Builds the update that shows a frame of `size` over the whole view.
pub fn full_view_scene_update(size: Size) -> (r: SceneUpdate)
    requires
        size_valid(size),
    ensures
        r == full_view_update(size),
{
    let viewport = Rectangle { origin: Point { x: 0, y: 0 }, size };
    SceneUpdate {
        resource_id: CONTENT_RESOURCE_ID,
        resource: ImageResource {
            size,
            stride: size.width as u64 * BYTES_PER_PIXEL,
            offset: 0,
        },
        node_id: ROOT_NODE_ID,
        node: ImageNode {
            content_rect: viewport,
            hit_rect: viewport,
            opaque: true,
            image_resource_id: CONTENT_RESOURCE_ID,
        },
    }
}

} // verus!
