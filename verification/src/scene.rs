use vstd::prelude::*;
use crate::fonts::{FontAsset, FontPlan, FontWeight};
use crate::geometry::CropDimensions;
use crate::ratings::Difficulty;

verus! {

/// Lengths and coordinates on the canvas are whole numbers of thousandths of
/// a pixel, so that the fractions of the fixed layouts (a logo 461.4 pixels
/// wide, a star whose inner radius is 3.6 pixels) are held exactly.
pub const UNITS_PER_PIXEL: i64 = 1000;

/// The largest magnitude of a coordinate that the drawing functions accept:
/// 2^50 thousandths of a pixel. Sums of a few of them stay far from the ends
/// of `i64`.
pub const COORD_LIMIT: i64 = 0x4_0000_0000_0000;

pub open spec fn coord_ok(v: int) -> bool {
    -COORD_LIMIT <= v <= COORD_LIMIT
}

/// A colour with eight bits per channel.
#[derive(Debug, Clone, Copy, PartialEq, Eq, Structural)]
pub struct Color {
    pub a: u8,
    pub r: u8,
    pub g: u8,
    pub b: u8,
}

impl Color {
    pub open spec fn argb(a: u8, r: u8, g: u8, b: u8) -> Color {
        Color { a, r, g, b }
    }

    pub open spec fn rgb(r: u8, g: u8, b: u8) -> Color {
        Color { a: 255, r, g, b }
    }

    pub open spec fn spec_white() -> Color {
        Color { a: 255, r: 255, g: 255, b: 255 }
    }

    pub open spec fn spec_black() -> Color {
        Color { a: 255, r: 0, g: 0, b: 0 }
    }

    pub open spec fn spec_gray() -> Color {
        Color { a: 255, r: 0x88, g: 0x88, b: 0x88 }
    }

    pub open spec fn spec_transparent() -> Color {
        Color { a: 0, r: 0, g: 0, b: 0 }
    }

    #[verifier::when_used_as_spec(argb)]
    pub fn from_argb(a: u8, r: u8, g: u8, b: u8) -> (c: Color)
        ensures
            c == Color::argb(a, r, g, b),
    {
        Color { a, r, g, b }
    }

    #[verifier::when_used_as_spec(rgb)]
    pub fn from_rgb(r: u8, g: u8, b: u8) -> (c: Color)
        ensures
            c == Color::rgb(r, g, b),
    {
        Color { a: 255, r, g, b }
    }

    #[verifier::when_used_as_spec(spec_white)]
    pub fn white() -> (c: Color)
        ensures
            c == Color::spec_white(),
    {
        Color { a: 255, r: 255, g: 255, b: 255 }
    }

    #[verifier::when_used_as_spec(spec_black)]
    pub fn black() -> (c: Color)
        ensures
            c == Color::spec_black(),
    {
        Color { a: 255, r: 0, g: 0, b: 0 }
    }

    #[verifier::when_used_as_spec(spec_gray)]
    pub fn gray() -> (c: Color)
        ensures
            c == Color::spec_gray(),
    {
        Color { a: 255, r: 0x88, g: 0x88, b: 0x88 }
    }

    #[verifier::when_used_as_spec(spec_transparent)]
    pub fn transparent() -> (c: Color)
        ensures
            c == Color::spec_transparent(),
    {
        Color { a: 0, r: 0, g: 0, b: 0 }
    }
}

/// An axis-aligned rectangle on the canvas.
#[derive(Debug, Clone, Copy, PartialEq, Eq, Structural)]
pub struct Rect {
    pub x: i64,
    pub y: i64,
    pub w: i64,
    pub h: i64,
}

impl Rect {
    pub open spec fn xywh(x: i64, y: i64, w: i64, h: i64) -> Rect {
        Rect { x, y, w, h }
    }

    #[verifier::when_used_as_spec(xywh)]
    pub fn from_xywh(x: i64, y: i64, w: i64, h: i64) -> (r: Rect)
        ensures
            r == Rect::xywh(x, y, w, h),
    {
        Rect { x, y, w, h }
    }
}

/// A rectangle whose four corners are rounded by the same radii.
#[derive(Debug, Clone, Copy, PartialEq, Eq, Structural)]
pub struct RoundRect {
    pub rect: Rect,
    pub rx: i64,
    pub ry: i64,
}

impl RoundRect {
    pub open spec fn rect_xy(rect: Rect, rx: i64, ry: i64) -> RoundRect {
        RoundRect { rect, rx, ry }
    }

    #[verifier::when_used_as_spec(rect_xy)]
    pub fn new_rect_xy(rect: Rect, rx: i64, ry: i64) -> (r: RoundRect)
        ensures
            r == RoundRect::rect_xy(rect, rx, ry),
    {
        RoundRect { rect, rx, ry }
    }
}

/// How a shape is painted. `stroke_width` is 0 for a filled shape and the
/// line width for an outlined one; `blur_sigma` is 0 for a sharp shape and
/// the standard deviation of a Gaussian blur otherwise.
#[derive(Debug, Clone, Copy, PartialEq, Eq, Structural)]
pub struct Paint {
    pub color: Color,
    pub anti_alias: bool,
    pub stroke_width: i64,
    pub blur_sigma: i64,
}

impl Paint {
    /// Opaque black, filled, sharp, without anti-aliasing.
    pub open spec fn plain() -> Paint {
        Paint { color: Color::spec_black(), anti_alias: false, stroke_width: 0, blur_sigma: 0 }
    }

    pub open spec fn fill(color: Color) -> Paint {
        Paint { color, anti_alias: false, stroke_width: 0, blur_sigma: 0 }
    }

    pub open spec fn smooth(color: Color) -> Paint {
        Paint { color, anti_alias: true, stroke_width: 0, blur_sigma: 0 }
    }

    pub open spec fn stroke(color: Color, width: i64) -> Paint {
        Paint { color, anti_alias: false, stroke_width: width, blur_sigma: 0 }
    }

    pub open spec fn blurred(color: Color, sigma: i64) -> Paint {
        Paint { color, anti_alias: false, stroke_width: 0, blur_sigma: sigma }
    }

    #[verifier::when_used_as_spec(plain)]
    pub fn default_paint() -> (p: Paint)
        ensures
            p == Paint::plain(),
    {
        Paint { color: Color::black(), anti_alias: false, stroke_width: 0, blur_sigma: 0 }
    }

    #[verifier::when_used_as_spec(fill)]
    pub fn filled(color: Color) -> (p: Paint)
        ensures
            p == Paint::fill(color),
    {
        Paint { color, anti_alias: false, stroke_width: 0, blur_sigma: 0 }
    }

    #[verifier::when_used_as_spec(smooth)]
    pub fn smooth_fill(color: Color) -> (p: Paint)
        ensures
            p == Paint::smooth(color),
    {
        Paint { color, anti_alias: true, stroke_width: 0, blur_sigma: 0 }
    }

    #[verifier::when_used_as_spec(stroke)]
    pub fn outline(color: Color, width: i64) -> (p: Paint)
        ensures
            p == Paint::stroke(color, width),
    {
        Paint { color, anti_alias: false, stroke_width: width, blur_sigma: 0 }
    }

    #[verifier::when_used_as_spec(blurred)]
    pub fn with_blur(color: Color, sigma: i64) -> (p: Paint)
        ensures
            p == Paint::blurred(color, sigma),
    {
        Paint { color, anti_alias: false, stroke_width: 0, blur_sigma: sigma }
    }
}

/// The bitmaps a scene may draw from.
#[derive(Debug, Clone, Copy, PartialEq, Eq, Structural)]
pub enum ImageId {
    Cover,
    Background,
    Logo,
}

/// The embedded vector icons.
#[derive(Debug, Clone, Copy, PartialEq, Eq, Structural)]
pub enum Icon {
    Key,
    Metronome,
    Clock,
}

/// The pieces of text a scene may show. A scene names the slot; the text that
/// fills it comes from the generator's inputs.
#[derive(Debug, Clone, Copy, PartialEq, Eq, Structural)]
pub enum TextSlot {
    SongAuthor,
    SongName,
    SongSubName,
    MappedBy,
    MapId,
    Bpm,
    Duration,
    Rating(Difficulty),
    OldRating,
    NewRating,
    DifficultyLabel,
    Month,
}

/// The colour of a run of text: a solid colour, or the half-transparent
/// black of a drop shadow.
#[derive(Debug, Clone, Copy, PartialEq, Eq, Structural)]
pub enum TextColor {
    Solid(Color),
    Shadow,
}

/// The three families of a fallback chain, first choice first.
#[derive(Debug, Clone, Copy, PartialEq, Eq, Structural)]
pub enum FamilyChain {
    /// Torus Pro, Segoe UI, Arial.
    Torus,
    /// Heebo, Segoe UI, Arial.
    Heebo,
}

/// How a single-line paragraph is laid out.
#[derive(Debug, Clone, Copy, PartialEq, Eq, Structural)]
pub struct ParagraphStyle {
    pub families: FamilyChain,
    /// The Torus Pro file registered for its family name.
    pub torus: FontAsset,
    /// The Heebo file registered for its family name.
    pub heebo: FontAsset,
    pub size: i64,
    pub weight: FontWeight,
    pub color: Color,
    /// With a maximum width the text is held to one line of that width and
    /// ends in an ellipsis where it does not fit. Without one it is laid out
    /// unconstrained: on one line, however long, never cut and never
    /// wrapped.
    pub max_width: Option<i64>,
}

/// One drawing step. A scene is a list of these, drawn in order.
#[derive(Debug, Clone, Copy, PartialEq, Eq, Structural)]
pub enum DrawOp {
    Clear { color: Color },
    Save,
    Restore,
    Translate { dx: i64, dy: i64 },
    /// Uniform scaling; 1000 leaves sizes as they are.
    Scale { factor: i64 },
    ClipRoundRect { shape: RoundRect, anti_alias: bool },
    /// Draws `image`, or the part `src` of it, into `dst`.
    Image { image: ImageId, src: Option<CropDimensions>, dst: Rect, blur_sigma: i64 },
    RoundRect { shape: RoundRect, paint: Paint },
    /// A rectangle filled with a two-stop linear gradient that runs from its
    /// top left corner to its bottom right corner.
    GradientRect { rect: Rect, from: Color, to: Color },
    Circle { cx: i64, cy: i64, radius: i64, paint: Paint },
    /// One run of text in one font, its baseline starting at (`x`, `y`).
    Text { slot: TextSlot, x: i64, y: i64, font: FontPlan, color: TextColor },
    /// A single-line paragraph whose top left corner is (`x`, `top`).
    Paragraph { slot: TextSlot, x: i64, top: i64, style: ParagraphStyle },
    /// An icon rasterised to `size` x `size` pixels, its top left at (`x`, `y`).
    Icon { icon: Icon, x: i64, y: i64, size: u32 },
    /// A five-pointed star around (`cx`, `cy`).
    Star { cx: i64, cy: i64, outer: i64, inner: i64, color: Color },
    /// A filled triangle.
    Triangle { ax: i64, ay: i64, bx: i64, by: i64, cx: i64, cy: i64, color: Color },
}

impl DrawOp {
    /// The step blurs what it draws.
    pub open spec fn is_blurred(self) -> bool {
        match self {
            DrawOp::Image { blur_sigma, .. } => blur_sigma != 0,
            DrawOp::RoundRect { paint, .. } => paint.blur_sigma != 0,
            DrawOp::Circle { paint, .. } => paint.blur_sigma != 0,
            _ => false,
        }
    }
}

/// No step of `ops` satisfies `unwanted`.
pub open spec fn free_of(ops: Seq<DrawOp>, unwanted: spec_fn(DrawOp) -> bool) -> bool {
    forall|i: int| 0 <= i < ops.len() ==> !unwanted(#[trigger] ops[i])
}

/// What holds of no step of two lists holds of no step of the two in a row.
pub proof fn lemma_free_of_append(a: Seq<DrawOp>, b: Seq<DrawOp>, unwanted: spec_fn(DrawOp) -> bool)
    requires
        free_of(a, unwanted),
        free_of(b, unwanted),
    ensures
        free_of(a + b, unwanted),
{
    assert forall|i: int| 0 <= i < (a + b).len() implies !unwanted(#[trigger] (a + b)[i]) by {
        if i < a.len() {
            assert((a + b)[i] == a[i]);
        } else {
            assert((a + b)[i] == b[i - a.len()]);
        }
    }
}

impl DrawOp {
    /// What the step shows, wherever it shows it: the step with the place
    /// of its text or star struck out.
    pub open spec fn unplaced(self) -> DrawOp {
        match self {
            DrawOp::Text { slot, x, y, font, color } => DrawOp::Text { slot, x: 0, y: 0, font, color },
            DrawOp::Paragraph { slot, x, top, style } => DrawOp::Paragraph {
                slot,
                x: 0,
                top: 0,
                style,
            },
            DrawOp::Star { cx, cy, outer, inner, color } => DrawOp::Star {
                cx: 0,
                cy: 0,
                outer,
                inner,
                color,
            },
            other => other,
        }
    }
}

/// Two lists of steps show the same, step by step, and differ at most in
/// where they place their text and stars.
pub open spec fn same_look(a: Seq<DrawOp>, b: Seq<DrawOp>) -> bool {
    &&& a.len() == b.len()
    &&& forall|i: int| 0 <= i < a.len() ==> (#[trigger] a[i]).unplaced() == b[i].unplaced()
}

/// Lists that look the same, followed by lists that look the same, look the
/// same.
pub proof fn lemma_same_look_append(a1: Seq<DrawOp>, b1: Seq<DrawOp>, a2: Seq<DrawOp>, b2: Seq<DrawOp>)
    requires
        same_look(a1, a2),
        same_look(b1, b2),
    ensures
        same_look(a1 + b1, a2 + b2),
{
    assert forall|i: int| 0 <= i < (a1 + b1).len() implies (#[trigger] (a1 + b1)[i]).unplaced() == (a2
        + b2)[i].unplaced() by {
        if i < a1.len() {
            assert((a1 + b1)[i] == a1[i]);
            assert((a2 + b2)[i] == a2[i]);
        } else {
            assert((a1 + b1)[i] == b1[i - a1.len()]);
            assert((a2 + b2)[i] == b2[i - a2.len()]);
        }
    }
}

/// A finished composition: the canvas size in pixels and the steps that
/// fill it.
#[derive(Debug, Clone)]
pub struct Scene {
    pub width: i32,
    pub height: i32,
    pub ops: Vec<DrawOp>,
}

} // verus!
