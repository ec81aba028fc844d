//! Exact geometry of the viewer.
//!
//! The visualization draws a full-screen quad whose corners lie at
//! normalized device coordinates (±1, ±1); the fragment stage multiplies a
//! corner by half the scale pair to obtain a complex coordinate. The scale
//! pair is chosen from the viewport aspect ratio so that the disk of radius
//! 2 centered at the origin is always visible: the short axis of the window
//! spans exactly [-2, 2] and the long axis is widened in proportion.
//!
//! Pointer positions run through the inverse of that mapping, so the
//! parameter produced by a click is exactly the complex coordinate rendered
//! under the pointer. Everything here is exact rational arithmetic.

use vstd::prelude::*;

verus! {

/// An exact rational value `num / den`. The denominator is always at least 1.
#[derive(Clone, Copy, Debug)]
pub struct Rat {
    pub num: i64,
    pub den: u32,
}

impl Rat {
    /// The denominator is positive, so the value is well defined.
    pub open spec fn wf(self) -> bool {
        self.den >= 1
    }

    /// The rational denotes exactly the integer `i`.
    pub open spec fn is_int(self, i: int) -> bool {
        self.num as int == i * (self.den as int)
    }
}

/// A rational number used only inside specifications, wide enough to hold
/// any intermediate product of the mapping algebra.
pub struct SpecRat {
    pub num: int,
    pub den: int,
}

impl SpecRat {
    /// The rational denotes exactly the integer `i`.
    pub open spec fn is_int(self, i: int) -> bool {
        self.den != 0 && self.num == i * self.den
    }
}

/// The specification-level value of an executable rational.
pub open spec fn model(r: Rat) -> SpecRat {
    SpecRat { num: r.num as int, den: r.den as int }
}

/// Viewport dimensions in pixels.
#[derive(Clone, Copy, Debug)]
pub struct Dimensions {
    pub width: u32,
    pub height: u32,
}

impl Dimensions {
    /// Both extents are positive; every aspect ratio derived from the
    /// dimensions is then well defined.
    pub open spec fn wf(self) -> bool {
        self.width >= 1 && self.height >= 1
    }
}

/// A zero extent reported by the window system is clamped to 1.
pub open spec fn spec_clamp(v: u32) -> u32 {
    if v == 0 { 1u32 } else { v }
}

impl Dimensions {
    /// Dimensions as reported on a resize, with degenerate extents clamped
    /// to 1 so that no later aspect computation divides by zero.
    pub fn clamped(width: u32, height: u32) -> (d: Dimensions)
        ensures
            d.width == spec_clamp(width),
            d.height == spec_clamp(height),
            d.wf(),
    {
        Dimensions {
            width: if width == 0 { 1 } else { width },
            height: if height == 0 { 1 } else { height },
        }
    }
}

/// The complex parameter of the iterated map, as exact rationals.
#[derive(Clone, Copy, Debug)]
pub struct ComplexParameter {
    pub re: Rat,
    pub im: Rat,
}

impl ComplexParameter {
    pub open spec fn wf(self) -> bool {
        self.re.wf() && self.im.wf()
    }
}

/// The per-frame scale pair handed to the draw call: a normalized quad
/// corner times half a scale factor is a complex coordinate.
#[derive(Clone, Copy, Debug)]
pub struct GeometryMapping {
    pub scale_x: Rat,
    pub scale_y: Rat,
}

impl GeometryMapping {
    pub open spec fn wf(self) -> bool {
        self.scale_x.wf() && self.scale_y.wf()
    }
}

/// Horizontal scale factor: 2 for a portrait viewport, 2·(width/height)
/// otherwise, so the widened axis keeps the short axis span of [-2, 2].
pub open spec fn scale_x_spec(d: Dimensions) -> Rat {
    if d.width < d.height {
        Rat { num: 2, den: 1 }
    } else {
        Rat { num: (2 * d.width) as i64, den: d.height }
    }
}

/// Vertical scale factor: 2·(height/width) for a portrait viewport,
/// 2 otherwise.
pub open spec fn scale_y_spec(d: Dimensions) -> Rat {
    if d.width < d.height {
        Rat { num: (2 * d.height) as i64, den: d.width }
    } else {
        Rat { num: 2, den: 1 }
    }
}

/// The geometry mapping for the current viewport.
pub fn mapping_for(d: Dimensions) -> (m: GeometryMapping)
    requires
        d.wf(),
    ensures
        m.scale_x == scale_x_spec(d),
        m.scale_y == scale_y_spec(d),
        m.wf(),
{
    if d.width < d.height {
        GeometryMapping {
            scale_x: Rat { num: 2, den: 1 },
            scale_y: Rat { num: 2 * (d.height as i64), den: d.width },
        }
    } else {
        GeometryMapping {
            scale_x: Rat { num: 2 * (d.width as i64), den: d.height },
            scale_y: Rat { num: 2, den: 1 },
        }
    }
}

/// Real part of the parameter under the pointer at pixel column `x`:
/// (x/width − 1/2) · 2 · aspect when the window is wider than high,
/// (x/width − 1/2) · 2 otherwise — as one exact fraction.
pub open spec fn param_re_spec(d: Dimensions, x: u32) -> Rat {
    if d.width > d.height {
        Rat { num: (2 * x - d.width) as i64, den: d.height }
    } else {
        Rat { num: (2 * x - d.width) as i64, den: d.width }
    }
}

/// Imaginary part of the parameter under the pointer at pixel row `y`:
/// (y/height − 1/2) · 2 when the window is wider than high,
/// (y/height − 1/2) · 2 / aspect otherwise — as one exact fraction.
pub open spec fn param_im_spec(d: Dimensions, y: u32) -> Rat {
    if d.width > d.height {
        Rat { num: (2 * y - d.height) as i64, den: d.height }
    } else {
        Rat { num: (2 * y - d.height) as i64, den: d.width }
    }
}

/// The normalized device coordinate whose complex coordinate under the
/// scale factor `s` is `c`: the forward rendering mapping sends an ndc
/// value n to n·s/2, so this is 2·c/s.
pub open spec fn ndc_of_complex(c: SpecRat, s: SpecRat) -> SpecRat {
    SpecRat { num: 2 * c.num * s.den, den: c.den * s.num }
}

/// The pixel coordinate of a normalized device coordinate across an extent
/// of `e` pixels: (n + 1)·e/2, sending ndc -1 to pixel 0 and ndc 1 to
/// pixel e.
pub open spec fn pixel_of_ndc(n: SpecRat, e: int) -> SpecRat {
    SpecRat { num: (n.num + n.den) * e, den: 2 * n.den }
}

/// Disk containment: for every non-degenerate viewport both scale factors
/// are at least 2. A quad corner multiplied by the mapping therefore lands
/// at least 2 away from both coordinate axes, so the disk of radius 2
/// centered at the origin is never clipped, whatever the aspect ratio; the
/// complex coordinates rendered under the corners lie at least 1 away from
/// both axes.
pub proof fn lemma_disk_containment(d: Dimensions)
    requires
        d.wf(),
    ensures
        scale_x_spec(d).num as int >= 2 * (scale_x_spec(d).den as int),
        scale_y_spec(d).num as int >= 2 * (scale_y_spec(d).den as int),
        scale_x_spec(d).wf() && scale_y_spec(d).wf(),
{
}

/// Mapping invertibility: converting a pixel position to the complex
/// parameter via the pointer mapping and sending that parameter back
/// through the forward rendering mapping (pixel to ndc to complex, here
/// inverted complex to ndc to pixel) recovers the original pixel exactly.
pub proof fn lemma_mapping_invertible(d: Dimensions, x: u32, y: u32)
    requires
        d.wf(),
    ensures
        pixel_of_ndc(
            ndc_of_complex(model(param_re_spec(d, x)), model(scale_x_spec(d))),
            d.width as int,
        ).is_int(x as int),
        pixel_of_ndc(
            ndc_of_complex(model(param_im_spec(d, y)), model(scale_y_spec(d))),
            d.height as int,
        ).is_int(y as int),
{
    let w = d.width as int;
    let h = d.height as int;
    let xi = x as int;
    let yi = y as int;
    if d.width > d.height {
        // pointer denominators h; scale pair (2w/h, 2).
        assert((2 * (2 * xi - w) * h + h * (2 * w)) * w == xi * (2 * (h * (2 * w))))
            by (nonlinear_arith);
        assert(2 * (h * (2 * w)) != 0) by (nonlinear_arith)
            requires w >= 1 && h >= 1;
        assert((2 * (2 * yi - h) * 1 + h * 2) * h == yi * (2 * (h * 2))) by (nonlinear_arith);
        assert(2 * (h * 2) != 0) by (nonlinear_arith)
            requires h >= 1;
    } else if d.width == d.height {
        // pointer denominators w; scale pair (2w/h, 2) with w == h.
        assert((2 * (2 * xi - w) * h + w * (2 * w)) * w == xi * (2 * (w * (2 * w))))
            by (nonlinear_arith)
            requires w == h;
        assert(2 * (w * (2 * w)) != 0) by (nonlinear_arith)
            requires w >= 1;
        assert((2 * (2 * yi - h) * 1 + w * 2) * h == yi * (2 * (w * 2))) by (nonlinear_arith)
            requires w == h;
        assert(2 * (w * 2) != 0) by (nonlinear_arith)
            requires w >= 1;
    } else {
        // pointer denominators w; scale pair (2, 2h/w).
        assert((2 * (2 * xi - w) * 1 + w * 2) * w == xi * (2 * (w * 2))) by (nonlinear_arith);
        assert(2 * (w * 2) != 0) by (nonlinear_arith)
            requires w >= 1;
        assert((2 * (2 * yi - h) * w + w * (2 * h)) * h == yi * (2 * (w * (2 * h))))
            by (nonlinear_arith);
        assert(2 * (w * (2 * h)) != 0) by (nonlinear_arith)
            requires w >= 1 && h >= 1;
    }
}

/// The complex parameter under the pointer at pixel position (x, y),
/// keeping the radius-2 disk centered in the image.
pub fn pointer_to_param(d: Dimensions, x: u32, y: u32) -> (c: ComplexParameter)
    requires
        d.wf(),
    ensures
        c.re == param_re_spec(d, x),
        c.im == param_im_spec(d, y),
        c.wf(),
{
    let re_num: i64 = 2 * (x as i64) - (d.width as i64);
    let im_num: i64 = 2 * (y as i64) - (d.height as i64);
    if d.width > d.height {
        ComplexParameter {
            re: Rat { num: re_num, den: d.height },
            im: Rat { num: im_num, den: d.height },
        }
    } else {
        ComplexParameter {
            re: Rat { num: re_num, den: d.width },
            im: Rat { num: im_num, den: d.width },
        }
    }
}

} // verus!

