use vstd::prelude::*;

verus! {

/// A width and height in device pixels.
#[derive(Clone, Copy, Debug, PartialEq, Eq, Structural)]
pub struct Size2 {
    pub width: i32,
    pub height: i32,
}

/// An axis-aligned box given by its two corners.
#[derive(Clone, Copy, Debug, PartialEq, Eq, Structural)]
pub struct Rect {
    pub min_x: i32,
    pub min_y: i32,
    pub max_x: i32,
    pub max_y: i32,
}

/// What the engine learns about the window it draws into.
#[derive(Clone, Copy, Debug, PartialEq, Eq, Structural)]
pub struct EmbedderCoordinates {
    pub hidpi_factor: i32,
    pub screen_size: Size2,
    pub available_screen_size: Size2,
    pub window_rect: Rect,
    pub framebuffer: Size2,
    pub viewport: Rect,
}

/// A reported dimension; a negative one means "not laid out yet" and counts as zero.
pub open spec fn laid_out(d: i32) -> i32 {
    if d < 0 { 0 } else { d }
}

pub open spec fn size_spec(w: i32, h: i32) -> Size2 {
    Size2 { width: laid_out(w), height: laid_out(h) }
}

/// The box at the origin that has the given size.
pub open spec fn box_at_origin(s: Size2) -> Rect {
    Rect { min_x: 0, min_y: 0, max_x: s.width, max_y: s.height }
}

/// The geometry of a surface of `w` by `h` pixels at scale `scale`: the surface
/// stands in for the screen, and window, framebuffer and viewport all cover it.
pub open spec fn coordinates_spec(w: i32, h: i32, scale: i32) -> EmbedderCoordinates {
    let s = size_spec(w, h);
    EmbedderCoordinates {
        hidpi_factor: scale,
        screen_size: s,
        available_screen_size: s,
        window_rect: box_at_origin(s),
        framebuffer: s,
        viewport: box_at_origin(s),
    }
}

pub fn rect_from_size(s: Size2) -> (r: Rect)
    ensures
        r == box_at_origin(s),
{
    Rect { min_x: 0, min_y: 0, max_x: s.width, max_y: s.height }
}

/// Computes the geometry of a surface from its current size and scale.
pub fn coordinates_for(w: i32, h: i32, scale: i32) -> (r: EmbedderCoordinates)
    ensures
        r == coordinates_spec(w, h, scale),
{
    let size = Size2 { width: if w < 0 { 0 } else { w }, height: if h < 0 { 0 } else { h } };
    EmbedderCoordinates {
        hidpi_factor: scale,
        screen_size: size,
        available_screen_size: size,
        window_rect: rect_from_size(size),
        framebuffer: size,
        viewport: rect_from_size(size),
    }
}

/// For every laid-out size, window and viewport are boxes of exactly that size
/// at the origin, and the framebuffer has that size.
pub proof fn lemma_geometry_covers_surface(w: i32, h: i32, scale: i32)
    requires
        w >= 0,
        h >= 0,
    ensures
        ({
            let c = coordinates_spec(w, h, scale);
            &&& c.window_rect == (Rect { min_x: 0, min_y: 0, max_x: w, max_y: h })
            &&& c.viewport == (Rect { min_x: 0, min_y: 0, max_x: w, max_y: h })
            &&& c.framebuffer == (Size2 { width: w, height: h })
        }),
{
}

} // verus!
