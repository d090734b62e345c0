//! Plain-value geometry and sprite descriptions.
//!
//! A sprite names its texture by an identity handle plus the texture
//! properties the renderer reads (extent and whether the format is a
//! single-channel mask). The caller keeps the affine transform of each
//! sprite on its side and applies it to the local-space quad corners the
//! synthesizer emits; everything the library reasons about is integral.

use vstd::prelude::*;

verus! {

/// An RGBA tint, one byte per channel. Normalization to the unit interval
/// happens on the caller's side, at upload time.
#[derive(Clone, Copy, Debug, PartialEq, Eq, Structural)]
pub struct Color {
    pub r: u8,
    pub g: u8,
    pub b: u8,
    pub a: u8,
}

/// Represents a rectangle.
#[derive(Clone, Copy, Debug, PartialEq, Eq, Structural)]
pub struct Rect {
    /// X coordinate of the top-left corner.
    pub x: i32,
    /// Y coordinate of the top-left corner.
    pub y: i32,
    /// Width of the rectangle.
    pub width: u32,
    /// Height of the rectangle.
    pub height: u32,
}

/// The x coordinate of a rectangle's bottom-right corner, as an unbounded
/// integer.
pub open spec fn rect_right(r: Rect) -> int {
    r.x + r.width
}

/// The y coordinate of a rectangle's bottom-right corner, as an unbounded
/// integer.
pub open spec fn rect_bottom(r: Rect) -> int {
    r.y + r.height
}

impl Rect {
    /// Creates a new rectangle.
    pub fn new(x: i32, y: i32, width: u32, height: u32) -> (r: Self)
        ensures
            r == (Rect { x, y, width, height }),
    {
        Rect { x, y, width, height }
    }

    /// Gets the x coordinate of the top-left corner.
    pub fn left(&self) -> (r: i32)
        ensures
            r == self.x,
    {
        self.x
    }

    /// Gets the y coordinate of the top-left corner.
    pub fn top(&self) -> (r: i32)
        ensures
            r == self.y,
    {
        self.y
    }

    /// Gets the x coordinate of the bottom-right corner.
    pub fn right(&self) -> (r: i32)
        requires
            rect_right(*self) <= i32::MAX,
        ensures
            r == rect_right(*self),
    {
        ((self.x as i64) + (self.width as i64)) as i32
    }

    /// Gets the y coordinate of the bottom-right corner.
    pub fn bottom(&self) -> (r: i32)
        requires
            rect_bottom(*self) <= i32::MAX,
        ensures
            r == rect_bottom(*self),
    {
        ((self.y as i64) + (self.height as i64)) as i32
    }
}

/// What the renderer reads of a texture: an identity handle and the
/// properties that feed the per-group uniform record. Two sprites land in
/// the same draw call only if their textures' `id`s are equal; the caller
/// assigns one `id` per live texture object.
#[derive(Clone, Copy, Debug, PartialEq, Eq, Structural)]
pub struct TextureInfo {
    /// Identity of the texture object, not of its contents.
    pub id: u64,
    /// Width of the texture in pixels.
    pub width: u32,
    /// Height of the texture in pixels.
    pub height: u32,
    /// True when the pixel format is single-channel, so the shader treats
    /// the texture as an alpha mask.
    pub is_mask: bool,
}

/// A sprite to draw: a source region of a texture, tinted. The affine
/// transform that places the quad on the target stays with the caller and
/// is applied to the local-space corners the synthesizer emits.
#[derive(Clone, Copy, Debug, PartialEq, Eq, Structural)]
pub struct Sprite {
    /// The texture to draw from.
    pub texture: TextureInfo,
    /// Source rectangle from the texture to draw from.
    pub src: Rect,
    /// Tint.
    pub tint: Color,
}

/// The source rectangle's far corner stays within coordinate range, so the
/// texture coordinates of all four quad corners exist as 32-bit values.
pub open spec fn src_fits(s: Sprite) -> bool {
    rect_right(s.src) <= i32::MAX && rect_bottom(s.src) <= i32::MAX
}

} // verus!
