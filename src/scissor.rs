//! Clip rectangles of draw commands and the scissor rectangles they become.
use vstd::prelude::*;

verus! {

/// A draw command's clip rectangle in framebuffer pixels: corners `(x, y)` and
/// `(z, w)`. It may reach outside the framebuffer, or have its corners swapped.
#[derive(Clone, Copy, Debug, PartialEq, Eq, Structural)]
pub struct ClipRect {
    pub x: i32,
    pub y: i32,
    pub z: i32,
    pub w: i32,
}

/// A scissor rectangle: origin `(x, y)` and extent `(w, h)`, in framebuffer pixels.
#[derive(Clone, Copy, Debug, PartialEq, Eq, Structural)]
pub struct Scissor {
    pub x: u16,
    pub y: u16,
    pub w: u16,
    pub h: u16,
}

/// `v` brought into `[0, hi]`.
pub open spec fn clamp_spec(v: int, hi: int) -> int {
    if v < 0 {
        0
    } else if v > hi {
        hi
    } else {
        v
    }
}

pub open spec fn min_spec(a: int, b: int) -> int {
    if a <= b {
        a
    } else {
        b
    }
}

pub open spec fn max_spec(a: int, b: int) -> int {
    if a >= b {
        a
    } else {
        b
    }
}

/// The interval between `a` and `b` clamped into `[0, hi]`, as (start, length).
pub open spec fn clamped_span(a: int, b: int, hi: int) -> (int, int) {
    let lo = clamp_spec(min_spec(a, b), hi);
    let up = clamp_spec(max_spec(a, b), hi);
    (lo, up - lo)
}

/// The scissor that a clip rectangle gives in a framebuffer of `fb_width` by `fb_height`.
pub open spec fn scissor_spec(clip: ClipRect, fb_width: u16, fb_height: u16) -> Scissor {
    let (x, w) = clamped_span(clip.x as int, clip.z as int, fb_width as int);
    let (y, h) = clamped_span(clip.y as int, clip.w as int, fb_height as int);
    Scissor { x: x as u16, y: y as u16, w: w as u16, h: h as u16 }
}

fn clamp_to(v: i32, hi: u16) -> (r: u16)
    ensures
        r as int == clamp_spec(v as int, hi as int),
{
    if v < 0 {
        0
    } else if v > hi as i32 {
        hi
    } else {
        v as u16
    }
}

fn clamped_span_exec(a: i32, b: i32, hi: u16) -> (r: (u16, u16))
    ensures
        (r.0 as int, r.1 as int) == clamped_span(a as int, b as int, hi as int),
{
    let (lo, up) = if a <= b {
        (a, b)
    } else {
        (b, a)
    };
    let lo = clamp_to(lo, hi);
    let up = clamp_to(up, hi);
    (lo, up - lo)
}

/// The scissor for `clip` in a framebuffer of `fb_width` by `fb_height` pixels: the
/// rectangle between the clip corners, clamped into `[0, fb_width] × [0, fb_height]`.
/// It always lies inside the framebuffer, and a clip rectangle that already does is
/// kept as it is.
pub fn clamp_scissor(clip: ClipRect, fb_width: u16, fb_height: u16) -> (r: Scissor)
    ensures
        r == scissor_spec(clip, fb_width, fb_height),
        r.x + r.w <= fb_width,
        r.y + r.h <= fb_height,
        0 <= clip.x <= clip.z <= fb_width ==> r.x == clip.x && r.w == clip.z - clip.x,
        0 <= clip.y <= clip.w <= fb_height ==> r.y == clip.y && r.h == clip.w - clip.y,
{
    let (x, w) = clamped_span_exec(clip.x, clip.z, fb_width);
    let (y, h) = clamped_span_exec(clip.y, clip.w, fb_height);
    Scissor { x, y, w, h }
}

} // verus!
