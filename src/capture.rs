//! The capture region: a rectangle in global screen coordinates, or the
//! reset value that stands for the entire primary screen; and the request
//! that a region becomes on the display that holds it.

use vstd::prelude::*;

verus! {

/// A point in global screen coordinates.
pub type Point = (i32, i32);

/// The stored capture rectangle. Top-left equal to bottom-right (the reset
/// value has both at the origin) means that no region is set.
#[derive(Clone, Copy, Debug, PartialEq, Eq)]
pub struct CaptureArea {
    pub top_left: Point,
    pub bottom_right: Point,
}

/// The value a capture area is reset to.
pub open spec fn reset_area() -> CaptureArea {
    CaptureArea { top_left: (0, 0), bottom_right: (0, 0) }
}

/// Whether a region is set, rather than the entire screen.
pub open spec fn region_is_set(area: CaptureArea) -> bool {
    area.top_left.0 != area.bottom_right.0 || area.top_left.1 != area.bottom_right.1
}

/// A rectangle whose bottom-right lies strictly below and right of its
/// top-left.
pub open spec fn non_degenerate(top_left: Point, bottom_right: Point) -> bool {
    top_left.0 < bottom_right.0 && top_left.1 < bottom_right.1
}

impl CaptureArea {
    /// The reset value: the entire primary screen.
    pub fn new() -> (area: CaptureArea)
        ensures
            area == reset_area(),
    {
        CaptureArea { top_left: (0, 0), bottom_right: (0, 0) }
    }
}

/// Resets the region, so that the entire primary screen is captured.
pub fn init_capture_area(area: &mut CaptureArea)
    ensures
        *final(area) == reset_area(),
{
    *area = CaptureArea::new();
}

/// Stores a new region.
pub fn set_capture_area(area: &mut CaptureArea, top_left: Point, bottom_right: Point)
    ensures
        *final(area) == (CaptureArea { top_left, bottom_right }),
{
    area.top_left = top_left;
    area.bottom_right = bottom_right;
}

/// Whether a region is set; false for the reset value.
pub fn is_capture_area_valid(area: &CaptureArea) -> (valid: bool)
    ensures
        valid == region_is_set(*area),
{
    area.top_left.0 != area.bottom_right.0 || area.top_left.1 != area.bottom_right.1
}

/// What the next capture covers.
#[derive(Clone, Copy, Debug, PartialEq, Eq)]
pub enum CaptureTarget {
    /// The primary screen, located at the point (0, 0).
    EntireScreen,
    /// The stored rectangle.
    Region { top_left: Point, bottom_right: Point },
}

/// The capture target for the stored area; `None` (the store could not be
/// read) falls back to the entire screen.
pub fn capture_target(area: Option<CaptureArea>) -> (t: CaptureTarget)
    ensures
        t == match area {
            Some(a) => if region_is_set(a) {
                CaptureTarget::Region { top_left: a.top_left, bottom_right: a.bottom_right }
            } else {
                CaptureTarget::EntireScreen
            },
            None => CaptureTarget::EntireScreen,
        },
{
    match area {
        Some(a) => {
            if is_capture_area_valid(&a) {
                CaptureTarget::Region { top_left: a.top_left, bottom_right: a.bottom_right }
            } else {
                CaptureTarget::EntireScreen
            }
        },
        None => CaptureTarget::EntireScreen,
    }
}

/// A rectangle in the coordinates of the display that holds it.
#[derive(Clone, Copy, Debug, PartialEq, Eq, Structural)]
pub struct RegionRequest {
    pub x: i32,
    pub y: i32,
    pub width: u32,
    pub height: u32,
}

#[derive(Clone, Copy, Debug, PartialEq, Eq)]
pub enum CaptureError {
    /// Bottom-right does not lie strictly below and right of top-left.
    InvalidRectangle,
    /// The region's offset from its display does not fit in `i32`.
    OutOfRange,
}

/// Expresses a region given in global coordinates in the coordinates of the
/// display whose top-left corner is `display_origin`.
pub fn region_request(top_left: Point, bottom_right: Point, display_origin: Point) -> (r: Result<
    RegionRequest,
    CaptureError,
>)
    ensures
        !non_degenerate(top_left, bottom_right) <==> r == Err::<RegionRequest, CaptureError>(
            CaptureError::InvalidRectangle,
        ),
        non_degenerate(top_left, bottom_right) ==> (r == Err::<RegionRequest, CaptureError>(
            CaptureError::OutOfRange,
        ) <==> !(i32::MIN <= top_left.0 - display_origin.0 <= i32::MAX && i32::MIN <= top_left.1
            - display_origin.1 <= i32::MAX)),
        r matches Ok(req) ==> {
            &&& req.x == top_left.0 - display_origin.0
            &&& req.y == top_left.1 - display_origin.1
            &&& req.width == bottom_right.0 - top_left.0
            &&& req.height == bottom_right.1 - top_left.1
        },
{
    if !(top_left.0 < bottom_right.0 && top_left.1 < bottom_right.1) {
        return Err(CaptureError::InvalidRectangle);
    }
    let x = top_left.0 as i64 - display_origin.0 as i64;
    let y = top_left.1 as i64 - display_origin.1 as i64;
    if x < i32::MIN as i64 || x > i32::MAX as i64 || y < i32::MIN as i64 || y > i32::MAX as i64 {
        return Err(CaptureError::OutOfRange);
    }
    let width = (bottom_right.0 as i64 - top_left.0 as i64) as u32;
    let height = (bottom_right.1 as i64 - top_left.1 as i64) as u32;
    Ok(RegionRequest { x: x as i32, y: y as i32, width, height })
}

/// The region switch: no region is set exactly when top-left equals
/// bottom-right; a reset area is unset; any non-degenerate rectangle that
/// is stored counts as set.
pub proof fn lemma_region_sentinel(top_left: Point, bottom_right: Point)
    ensures
        !region_is_set(CaptureArea { top_left, bottom_right }) <==> top_left == bottom_right,
        !region_is_set(reset_area()),
        non_degenerate(top_left, bottom_right) ==> region_is_set(CaptureArea { top_left, bottom_right }),
{
}

} // verus!
