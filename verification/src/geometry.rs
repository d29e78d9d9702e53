//! Rectangles, points and sizes in screen pixels, and the conversions
//! between a client-area size and the size of the whole window.

use vstd::prelude::*;

verus! {

/// A position in screen pixels.
#[derive(Clone, Copy, Debug, PartialEq, Eq, Structural)]
pub struct Point {
    pub x: i32,
    pub y: i32,
}

/// Four edges in screen pixels.
#[derive(Clone, Copy, Debug, PartialEq, Eq, Structural)]
pub struct Rect {
    pub left: i32,
    pub top: i32,
    pub right: i32,
    pub bottom: i32,
}

/// A width and a height in physical pixels.
#[derive(Clone, Copy, Debug, PartialEq, Eq, Structural)]
pub struct PhysicalSize {
    pub width: u32,
    pub height: u32,
}

/// The pixels that window chrome adds on each side of a client area.
#[derive(Clone, Copy, Debug, PartialEq, Eq, Structural)]
pub struct Insets {
    pub left: i32,
    pub top: i32,
    pub right: i32,
    pub bottom: i32,
}

/// The 32-bit signed integer with the same bit pattern as `v`.
pub open spec fn reinterpret_i32(v: u32) -> i32 {
    if v <= 0x7fff_ffff {
        v as i32
    } else {
        (v - 0x1_0000_0000) as i32
    }
}

/// The distance from `low` to `high` as an unsigned 32-bit number, modulo 2^32.
pub open spec fn span(low: i32, high: i32) -> u32 {
    if high >= low {
        (high - low) as u32
    } else {
        (high - low + 0x1_0000_0000) as u32
    }
}

/// The rectangle at the origin that stands for a wanted client area.
pub open spec fn spec_desired_rect(width: u32, height: u32) -> Rect {
    Rect { left: 0, top: 0, right: reinterpret_i32(width), bottom: reinterpret_i32(height) }
}

/// The outer size that belongs to a wanted client size: the span of the
/// adjusted rectangle, or of the wanted rectangle itself where the system
/// gave no adjusted one.
pub open spec fn spec_adjust_size(size: PhysicalSize, adjusted: Option<Rect>) -> PhysicalSize {
    let rect = match adjusted {
        Some(r) => r,
        None => spec_desired_rect(size.width, size.height),
    };
    PhysicalSize { width: span(rect.left, rect.right), height: span(rect.top, rect.bottom) }
}

impl Rect {
    /// The right edge is not left of the left edge, nor the bottom above the top.
    pub open spec fn well_formed(self) -> bool {
        self.right >= self.left && self.bottom >= self.top
    }

    /// Whether the rectangle moved by (`dx`, `dy`) still has 32-bit edges.
    pub open spec fn can_offset(self, dx: i32, dy: i32) -> bool {
        &&& i32::MIN <= self.left + dx <= i32::MAX
        &&& i32::MIN <= self.right + dx <= i32::MAX
        &&& i32::MIN <= self.top + dy <= i32::MAX
        &&& i32::MIN <= self.bottom + dy <= i32::MAX
    }

    /// The rectangle moved by (`dx`, `dy`).
    pub open spec fn offset_by(self, dx: i32, dy: i32) -> Rect {
        Rect {
            left: (self.left + dx) as i32,
            top: (self.top + dy) as i32,
            right: (self.right + dx) as i32,
            bottom: (self.bottom + dy) as i32,
        }
    }

    /// Whether the rectangle grown by `insets` still has 32-bit edges.
    pub open spec fn can_inflate(self, insets: Insets) -> bool {
        &&& i32::MIN <= self.left - insets.left <= i32::MAX
        &&& i32::MIN <= self.top - insets.top <= i32::MAX
        &&& i32::MIN <= self.right + insets.right <= i32::MAX
        &&& i32::MIN <= self.bottom + insets.bottom <= i32::MAX
    }

    /// The rectangle grown outwards by `insets` on each side.
    pub open spec fn inflated(self, insets: Insets) -> Rect {
        Rect {
            left: (self.left - insets.left) as i32,
            top: (self.top - insets.top) as i32,
            right: (self.right + insets.right) as i32,
            bottom: (self.bottom + insets.bottom) as i32,
        }
    }

    /// The rectangle moved by (`dx`, `dy`).
    pub fn offset(self, dx: i32, dy: i32) -> (moved: Rect)
        requires
            self.can_offset(dx, dy),
        ensures
            moved == self.offset_by(dx, dy),
            moved.well_formed() == self.well_formed(),
    {
        Rect {
            left: self.left + dx,
            top: self.top + dy,
            right: self.right + dx,
            bottom: self.bottom + dy,
        }
    }

    /// Moves the rectangle by (`dx`, `dy`), or gives `None` where an edge
    /// would leave the 32-bit range.
    pub fn checked_offset(self, dx: i32, dy: i32) -> (moved: Option<Rect>)
        ensures
            moved == (if self.can_offset(dx, dy) {
                Some(self.offset_by(dx, dy))
            } else {
                None
            }),
    {
        let left = self.left.checked_add(dx);
        let top = self.top.checked_add(dy);
        let right = self.right.checked_add(dx);
        let bottom = self.bottom.checked_add(dy);
        match (left, top, right, bottom) {
            (Some(left), Some(top), Some(right), Some(bottom)) => Some(
                Rect { left, top, right, bottom },
            ),
            _ => None,
        }
    }
}

/// Reads the bits of an unsigned 32-bit number as a signed one.
fn to_signed(v: u32) -> (s: i32)
    ensures
        s == reinterpret_i32(v),
{
    if v <= 0x7fff_ffff {
        v as i32
    } else {
        (v as i64 - 0x1_0000_0000) as i32
    }
}

/// The distance from `low` to `high`, modulo 2^32.
fn span_of(low: i32, high: i32) -> (d: u32)
    ensures
        d == span(low, high),
{
    let d: i64 = high as i64 - low as i64;
    if d >= 0 {
        d as u32
    } else {
        (d + 0x1_0000_0000) as u32
    }
}

/// The rectangle with its top-left corner at the origin whose right and
/// bottom edges are the wanted client width and height.
pub fn desired_rect(width: u32, height: u32) -> (rect: Rect)
    ensures
        rect == spec_desired_rect(width, height),
        width <= i32::MAX && height <= i32::MAX ==> rect.well_formed() && rect.right == width
            && rect.bottom == height,
{
    Rect { left: 0, top: 0, right: to_signed(width), bottom: to_signed(height) }
}

/// The size of the whole window for a wanted client size.
///
/// `adjusted` is what the system made of `desired_rect(size.width,
/// size.height)`, or `None` where its adjustment failed; the wanted size is
/// then handed back unchanged.
pub fn adjust_size(size: PhysicalSize, adjusted: Option<Rect>) -> (outer: PhysicalSize)
    ensures
        outer == spec_adjust_size(size, adjusted),
        adjusted is None ==> outer == size,
        adjusted matches Some(r) ==> (r.well_formed() ==> outer.width == r.right - r.left
            && outer.height == r.bottom - r.top),
{
    let wanted = desired_rect(size.width, size.height);
    let rect = match adjusted {
        Some(r) => r,
        None => wanted,
    };
    PhysicalSize { width: span_of(rect.left, rect.right), height: span_of(rect.top, rect.bottom) }
}

/// Growing a wanted client rectangle by fixed chrome insets and taking the
/// outer size, then taking the insets off again, gives back the client
/// size, whenever the outer size is one that 32 bits can hold.
pub proof fn lemma_outer_size_round_trip(width: u32, height: u32, insets: Insets)
    requires
        spec_desired_rect(width, height).can_inflate(insets),
        0 <= width + insets.left + insets.right <= u32::MAX,
        0 <= height + insets.top + insets.bottom <= u32::MAX,
    ensures
        ({
            let size = PhysicalSize { width, height };
            let outer = spec_adjust_size(
                size,
                Some(spec_desired_rect(width, height).inflated(insets)),
            );
            &&& outer.width - (insets.left + insets.right) == width
            &&& outer.height - (insets.top + insets.bottom) == height
        }),
{
}

} // verus!
