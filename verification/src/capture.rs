//! The capture engine: display selection, translation of global screen
//! coordinates into a display's local space, and the crop-and-encode step
//! that turns a captured frame into a transport-safe string.

use crate::codec::base64_chars;
use crate::codec::image_to_base64_png;
use crate::codec::png_bytes;
use crate::raster::crop_extent;
use crate::raster::crop_image;
use crate::raster::crop_pixels;
use crate::raster::crop_start;
use crate::raster::Image;
use vstd::prelude::*;

verus! {

/// Bounds of one display in global screen coordinates.
pub struct DisplayBounds {
    pub x: i32,
    pub y: i32,
    pub width: u32,
    pub height: u32,
}

/// A capture request cannot be served: enumeration came back empty, the
/// origin lies on no display, the OS capture primitive failed, or the
/// cropped frame could not be serialized.
#[derive(Debug, Clone, PartialEq, Eq)]
pub enum CaptureError {
    NoDisplaysFound,
    NoContainingDisplay,
    CaptureFailed,
    EncodeFailed,
}

/// A display contains the point iff the point lies within its half-open
/// pixel bounds on both axes.
pub open spec fn display_contains(d: DisplayBounds, x: int, y: int) -> bool {
    &&& d.x <= x < d.x + d.width
    &&& d.y <= y < d.y + d.height
}

/// Pick the display whose bounds contain the point `(x, y)`, preferring
/// the first match in enumeration order.
pub fn select_display(displays: &Vec<DisplayBounds>, x: i32, y: i32) -> (r: Result<
    usize,
    CaptureError,
>)
    ensures
        displays@.len() == 0 ==> r == Err::<usize, CaptureError>(CaptureError::NoDisplaysFound),
        r matches Ok(i) ==> {
            &&& i < displays@.len()
            &&& display_contains(displays@[i as int], x as int, y as int)
            &&& forall|j: int|
                0 <= j < i ==> !display_contains(displays@[j], x as int, y as int)
        },
        (displays@.len() > 0 && forall|j: int|
            0 <= j < displays@.len() ==> !display_contains(displays@[j], x as int, y as int))
            ==> r == Err::<usize, CaptureError>(CaptureError::NoContainingDisplay),
        r matches Err(e) ==> (e == CaptureError::NoDisplaysFound || e
            == CaptureError::NoContainingDisplay),
        r is Err <==> (displays@.len() == 0 || forall|j: int|
            0 <= j < displays@.len() ==> !display_contains(displays@[j], x as int, y as int)),
{
    if displays.len() == 0 {
        return Err(CaptureError::NoDisplaysFound);
    }
    let mut i: usize = 0;
    while i < displays.len()
        invariant
            i <= displays@.len(),
            forall|j: int| 0 <= j < i ==> !display_contains(displays@[j], x as int, y as int),
        decreases displays@.len() - i,
    {
        let d = &displays[i];
        if d.x <= x && (x as i64) < d.x as i64 + d.width as i64 && d.y <= y && (y as i64) < d.y
            as i64 + d.height as i64 {
            return Ok(i);
        }
        i = i + 1;
    }
    Err(CaptureError::NoContainingDisplay)
}

/// A global coordinate expressed in a display's local space, floored at the
/// display's near edge.
pub open spec fn local_offset(v: int, origin: int) -> int {
    if v >= origin {
        v - origin
    } else {
        0
    }
}

/// Translate one global coordinate into the local space of the display that
/// starts at `origin`.
pub fn local_coord(v: i32, origin: i32) -> (r: u32)
    ensures
        r == local_offset(v as int, origin as int),
{
    let d: i64 = v as i64 - origin as i64;
    if d <= 0 {
        0
    } else {
        d as u32
    }
}

/// The transport string that a capture of `frame` yields for the global
/// rectangle `(x, y, width, height)` on display `d`: the frame is cropped at
/// the rectangle's display-local position, clamped to the frame, then
/// PNG-encoded and base64-wrapped.
pub open spec fn captured_area_encoding(
    frame: Image,
    d: DisplayBounds,
    x: int,
    y: int,
    width: int,
    height: int,
) -> Seq<char> {
    let lx = local_offset(x, d.x as int);
    let ly = local_offset(y, d.y as int);
    let cw = crop_extent(frame.width as int, lx, width);
    let ch = crop_extent(frame.height as int, ly, height);
    base64_chars(
        png_bytes(
            cw as u32,
            ch as u32,
            crop_pixels(
                frame,
                crop_start(frame.width as int, lx),
                crop_start(frame.height as int, ly),
                cw,
                ch,
            ),
        ),
    )
}

/// Crop the captured frame of display `d` to the requested global rectangle
/// and encode the result for transport. The crop itself cannot fail, and the
/// serializer succeeds on every non-empty crop, so the result is determined
/// by the inputs alone: success is owed whenever both clamped extents are
/// positive, and every error is a failure of the serializer.
pub fn encode_area(
    frame: &Image,
    d: &DisplayBounds,
    x: i32,
    y: i32,
    width: u32,
    height: u32,
) -> (r: Result<String, CaptureError>)
    requires
        frame.wf(),
    ensures
        r matches Ok(s) ==> s@ == captured_area_encoding(
            *frame,
            *d,
            x as int,
            y as int,
            width as int,
            height as int,
        ),
        r matches Err(e) ==> e == CaptureError::EncodeFailed,
        crop_extent(frame.width as int, local_offset(x as int, d.x as int), width as int) > 0
            && crop_extent(frame.height as int, local_offset(y as int, d.y as int), height as int)
            > 0 ==> r is Ok,
{
    let lx = local_coord(x, d.x);
    let ly = local_coord(y, d.y);
    let cropped = crop_image(frame, lx, ly, width, height);
    image_to_base64_png(&cropped)
}

/// A rectangle that lies fully inside its display is returned at exactly the
/// requested size: clamping never shrinks it.
pub proof fn lemma_inside_rect_keeps_extent(
    d: DisplayBounds,
    frame: Image,
    x: int,
    y: int,
    width: int,
    height: int,
)
    requires
        frame.width == d.width,
        frame.height == d.height,
        0 <= width,
        0 <= height,
        d.x <= x,
        x + width <= d.x + d.width,
        d.y <= y,
        y + height <= d.y + d.height,
    ensures
        crop_extent(frame.width as int, local_offset(x, d.x as int), width) == width,
        crop_extent(frame.height as int, local_offset(y, d.y as int), height) == height,
{
}

/// A rectangle whose origin lies on the display but which runs past its
/// right or bottom edge is clamped to what the display still offers past the
/// local offset — and so never exceeds the captured frame.
pub proof fn lemma_past_edge_clamps_to_display(
    d: DisplayBounds,
    frame: Image,
    x: int,
    y: int,
    width: int,
    height: int,
)
    requires
        frame.width == d.width,
        frame.height == d.height,
        0 <= width,
        0 <= height,
        display_contains(d, x, y),
    ensures
        x + width > d.x + d.width ==> crop_extent(
            frame.width as int,
            local_offset(x, d.x as int),
            width,
        ) == d.width - local_offset(x, d.x as int),
        y + height > d.y + d.height ==> crop_extent(
            frame.height as int,
            local_offset(y, d.y as int),
            height,
        ) == d.height - local_offset(y, d.y as int),
        crop_extent(frame.width as int, local_offset(x, d.x as int), width) <= frame.width,
        crop_extent(frame.height as int, local_offset(y, d.y as int), height) <= frame.height,
{
}

} // verus!
