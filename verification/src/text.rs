use vstd::prelude::*;
use crate::fixed::fifth;
use crate::fonts::{get_heebo_typeface, get_torus_typeface, heebo_asset, torus_asset, FontPlan, FontWeight};
use crate::scene::{coord_ok, Color, DrawOp, FamilyChain, ParagraphStyle, TextColor, TextSlot};

verus! {

/// What ends a line that was cut short.
pub const ELLIPSIS: &'static str = "\u{2026}";

impl FamilyChain {
    pub open spec fn spec_names(self) -> Seq<Seq<char>> {
        match self {
            FamilyChain::Torus => seq!["Torus Pro"@, "Segoe UI"@, "Arial"@],
            FamilyChain::Heebo => seq!["Heebo"@, "Segoe UI"@, "Arial"@],
        }
    }

    /// The family names, first choice first.
    pub fn names(self) -> (names: Vec<&'static str>)
        ensures
            names@.len() == 3,
            forall|i: int| 0 <= i < 3 ==> (#[trigger] names@[i])@ == self.spec_names()[i],
    {
        let mut names: Vec<&'static str> = Vec::new();
        match self {
            FamilyChain::Torus => {
                names.push("Torus Pro");
            },
            FamilyChain::Heebo => {
                names.push("Heebo");
            },
        }
        names.push("Segoe UI");
        names.push("Arial");
        names
    }
}

/// The style of a fallback paragraph. Both embedded families are registered
/// at the asked weight, upright. With a maximum width the text is held to
/// one line of that width and cut with an ellipsis; without one the style
/// sets no bound, and the text is laid out unconstrained.
pub open spec fn paragraph_style(
    families: FamilyChain,
    size: i64,
    weight: FontWeight,
    color: Color,
    max_width: Option<i64>,
) -> ParagraphStyle {
    ParagraphStyle {
        families,
        torus: torus_asset(weight, false),
        heebo: heebo_asset(weight),
        size,
        weight,
        color,
        max_width,
    }
}

/// Where the top of a paragraph goes so that its text sits on the baseline
/// `y`: one line height above it, lowered by a fifth of the font size.
pub open spec fn paragraph_top(y: int, line_height: int, size: int) -> int {
    y - line_height + size / 5
}

pub open spec fn fallback_text(
    slot: TextSlot,
    x: i64,
    y: i64,
    families: FamilyChain,
    size: i64,
    weight: FontWeight,
    color: Color,
    max_width: Option<i64>,
    line_height: u32,
) -> DrawOp {
    DrawOp::Paragraph {
        slot,
        x,
        top: paragraph_top(y as int, line_height as int, size as int) as i64,
        style: paragraph_style(families, size, weight, color, max_width),
    }
}

/// A single-line paragraph with font fallback, placed by its baseline.
/// `line_height` is the height the paragraph has once laid out in this style.
pub fn draw_text_with_fallback(
    slot: TextSlot,
    x: i64,
    y: i64,
    families: FamilyChain,
    font_size: i64,
    font_weight: FontWeight,
    color: Color,
    max_width: Option<i64>,
    line_height: u32,
) -> (op: DrawOp)
    requires
        coord_ok(y as int),
        coord_ok(font_size as int),
    ensures
        op == fallback_text(slot, x, y, families, font_size, font_weight, color, max_width, line_height),
{
    let style = ParagraphStyle {
        families,
        torus: get_torus_typeface(font_weight, false),
        heebo: get_heebo_typeface(font_weight),
        size: font_size,
        weight: font_weight,
        color,
        max_width,
    };
    let lift: i64 = line_height as i64;
    let top = y - lift + fifth(font_size);
    DrawOp::Paragraph { slot, x, top, style }
}

/// A run of text over its drop shadow: with a positive offset the shadow is
/// drawn first, shifted right and down by the offset, then the text itself.
pub open spec fn shadowed_text(
    slot: TextSlot,
    x: i64,
    y: i64,
    font: FontPlan,
    color: Color,
    shadow_offset: i64,
) -> Seq<DrawOp> {
    let main = DrawOp::Text { slot, x, y, font, color: TextColor::Solid(color) };
    if shadow_offset > 0 {
        seq![
            DrawOp::Text {
                slot,
                x: (x + shadow_offset) as i64,
                y: (y + shadow_offset) as i64,
                font,
                color: TextColor::Shadow,
            },
            main,
        ]
    } else {
        seq![main]
    }
}

/// A run of text over its drop shadow.
pub fn draw_text_with_shadow(
    slot: TextSlot,
    x: i64,
    y: i64,
    font: FontPlan,
    color: Color,
    shadow_offset: i64,
) -> (ops: Vec<DrawOp>)
    requires
        coord_ok(x as int),
        coord_ok(y as int),
        coord_ok(shadow_offset as int),
    ensures
        ops@ == shadowed_text(slot, x, y, font, color, shadow_offset),
{
    let mut ops: Vec<DrawOp> = Vec::new();
    if shadow_offset > 0 {
        ops.push(DrawOp::Text {
            slot,
            x: x + shadow_offset,
            y: y + shadow_offset,
            font,
            color: TextColor::Shadow,
        });
    }
    ops.push(DrawOp::Text { slot, x, y, font, color: TextColor::Solid(color) });
    assert(ops@ =~= shadowed_text(slot, x, y, font, color, shadow_offset));
    ops
}

} // verus!
