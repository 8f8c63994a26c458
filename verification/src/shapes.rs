use vstd::prelude::*;
use crate::fixed::{half, to_pixels, two_fifths, whole_pixels};
use crate::scene::{coord_ok, Color, DrawOp, Icon};

verus! {

/// The key icon, as SVG.
pub const SVG_KEY: &'static str = "<svg xmlns=\"http://www.w3.org/2000/svg\" width=\"24\" height=\"24\" viewBox=\"0 0 24 24\" fill=\"none\" stroke=\"white\" stroke-width=\"2\" stroke-linecap=\"round\" stroke-linejoin=\"round\"><path d=\"m15.5 7.5 2.3 2.3a1 1 0 0 0 1.4 0l2.1-2.1a1 1 0 0 0 0-1.4L19 4\"/><path d=\"m21 2-9.6 9.6\"/><circle cx=\"7.5\" cy=\"15.5\" r=\"5.5\"/></svg>";

/// The clock icon, as SVG.
pub const SVG_CLOCK: &'static str = "<svg xmlns=\"http://www.w3.org/2000/svg\" width=\"24\" height=\"24\" viewBox=\"0 0 24 24\" fill=\"none\" stroke=\"white\" stroke-width=\"2\" stroke-linecap=\"round\" stroke-linejoin=\"round\"><circle cx=\"12\" cy=\"12\" r=\"10\"/><polyline points=\"12,6 12,12 16,14\"/></svg>";

/// The metronome icon, as SVG.
pub const SVG_METRONOME: &'static str = "<svg xmlns=\"http://www.w3.org/2000/svg\" viewBox=\"0 0 1280 1280\"><g><path fill=\"#FFFFFF\" d=\"M703.47,886.75l-428.38-463.1c-9.94-10.75-26.71-11.4-37.46-1.46l-41.85,38.72c-10.75,9.94-11.4,26.71-1.46,37.46l428.38,463.1c9.94,10.75,26.71,11.4,37.46,1.46l41.85-38.72C712.76,914.27,713.41,897.5,703.47,886.75z\"/><polygon fill=\"#FFFFFF\" points=\"817.7,135.5 484.43,135.5 392.26,471.63 470.09,555.77 558.65,232.81 743.36,232.81 965.35,1047.19 335.33,1047.19 400.45,809.71 322.62,725.58 207.75,1144.5 1092.73,1144.5\"/></g></svg>";


impl Icon {
    pub open spec fn svg_source(self) -> Seq<char> {
        match self {
            Icon::Key => SVG_KEY@,
            Icon::Clock => SVG_CLOCK@,
            Icon::Metronome => SVG_METRONOME@,
        }
    }

    /// The SVG text of the icon.
    pub fn svg(self) -> (source: &'static str)
        ensures
            source@ == self.svg_source(),
    {
        match self {
            Icon::Key => SVG_KEY,
            Icon::Clock => SVG_CLOCK,
            Icon::Metronome => SVG_METRONOME,
        }
    }
}

/// An icon at (`x`, `y`), rasterised to a square of the whole pixels in
/// `size`.
pub open spec fn icon_op(icon: Icon, x: i64, y: i64, size: i64) -> DrawOp {
    DrawOp::Icon { icon, x, y, size: whole_pixels(size as int) }
}

/// An icon at a place, in a size.
pub fn draw_svg_icon(icon: Icon, x: i64, y: i64, size: i64) -> (op: DrawOp)
    ensures
        op == icon_op(icon, x, y, size),
{
    DrawOp::Icon { icon, x, y, size: to_pixels(size) }
}

/// The key icon.
pub fn draw_key_icon(x: i64, y: i64, size: i64) -> (op: DrawOp)
    ensures
        op == icon_op(Icon::Key, x, y, size),
{
    draw_svg_icon(Icon::Key, x, y, size)
}

/// The metronome icon.
pub fn draw_metronome_icon(x: i64, y: i64, size: i64) -> (op: DrawOp)
    ensures
        op == icon_op(Icon::Metronome, x, y, size),
{
    draw_svg_icon(Icon::Metronome, x, y, size)
}

/// The clock icon.
pub fn draw_clock_icon(x: i64, y: i64, size: i64) -> (op: DrawOp)
    ensures
        op == icon_op(Icon::Clock, x, y, size),
{
    draw_svg_icon(Icon::Clock, x, y, size)
}

/// A five-pointed star: its five tips lie on the circle of radius `radius`
/// around the centre, its five notches on the circle of four tenths of that
/// radius.
pub open spec fn star_op(cx: i64, cy: i64, radius: i64, color: Color) -> DrawOp {
    DrawOp::Star { cx, cy, outer: radius, inner: ((2 * radius) / 5) as i64, color }
}

/// A five-pointed star around a centre.
pub fn draw_star(cx: i64, cy: i64, radius: i64, color: Color) -> (op: DrawOp)
    requires
        coord_ok(radius as int),
    ensures
        op == star_op(cx, cy, radius, color),
{
    DrawOp::Star { cx, cy, outer: radius, inner: two_fifths(radius), color }
}

/// A corner of a star's outline, in polar form around the centre: the angle
/// in degrees, measured clockwise on screen from the positive x axis, and the
/// distance from the centre.
#[derive(Debug, Clone, Copy, PartialEq, Eq, Structural)]
pub struct PolarPoint {
    pub degrees: i64,
    pub radius: i64,
}

/// The `index`-th of the ten corners of a star. The first is the upper tip;
/// each next one lies 36 degrees further, tips and notches in turn.
pub open spec fn star_corner(index: int, outer: i64, inner: i64) -> PolarPoint {
    PolarPoint { degrees: (index * 36 - 90) as i64, radius: if index % 2 == 0 { outer } else { inner } }
}

/// The ten corners of a star's outline, in drawing order.
pub fn star_outline(outer: i64, inner: i64) -> (corners: Vec<PolarPoint>)
    ensures
        corners@.len() == 10,
        forall|i: int| 0 <= i < 10 ==> corners@[i] == star_corner(i, outer, inner),
{
    let mut corners: Vec<PolarPoint> = Vec::new();
    let mut i: i64 = 0;
    while i < 10
        invariant
            0 <= i <= 10,
            corners@.len() == i,
            forall|k: int| 0 <= k < i ==> corners@[k] == star_corner(k, outer, inner),
        decreases 10 - i,
    {
        let radius = if i % 2 == 0 { outer } else { inner };
        corners.push(PolarPoint { degrees: i * 36 - 90, radius });
        i += 1;
    }
    corners
}

/// A triangle that points right, inscribed in a box of side `size` around
/// (`cx`, `cy`): its base, on the left, is as tall as the box, and it is
/// eight tenths of the box wide.
pub open spec fn arrow_op(cx: i64, cy: i64, size: i64, color: Color) -> DrawOp {
    let half_height = size / 2;
    let half_width = (2 * size) / 5;
    DrawOp::Triangle {
        ax: (cx - half_width) as i64,
        ay: (cy - half_height) as i64,
        bx: (cx + half_width) as i64,
        by: cy,
        cx: (cx - half_width) as i64,
        cy: (cy + half_height) as i64,
        color,
    }
}

/// A triangle that points right.
pub fn draw_arrow(cx: i64, cy: i64, size: i64, color: Color) -> (op: DrawOp)
    requires
        coord_ok(cx as int),
        coord_ok(cy as int),
        coord_ok(size as int),
    ensures
        op == arrow_op(cx, cy, size, color),
{
    let half_height = half(size);
    let half_width = two_fifths(size);
    DrawOp::Triangle {
        ax: cx - half_width,
        ay: cy - half_height,
        bx: cx + half_width,
        by: cy,
        cx: cx - half_width,
        cy: cy + half_height,
        color,
    }
}

} // verus!
