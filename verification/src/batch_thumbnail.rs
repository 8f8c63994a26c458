use vstd::prelude::*;
use crate::fixed::half;
use crate::fonts::{font_plan, load_font, FontPlan, FontStyle, FontWeight};
use crate::geometry::{calculate_crop_dimensions, cover_crop, ImageSize};
use crate::scene::{lemma_same_look_append, same_look, Color, DrawOp, ImageId, Rect, Scene, TextSlot};
use crate::text::{draw_text_with_shadow, shadowed_text};

verus! {

/// How the background is moved and scaled before it is drawn. The scale is
/// in thousandths, the offsets in thousandths of a pixel; what is left out
/// leaves the background as it is.
#[derive(Debug, Clone, Copy, PartialEq, Eq, Structural)]
pub struct BackgroundTransform {
    pub scale: Option<i64>,
    pub x: Option<i64>,
    pub y: Option<i64>,
}

pub const BATCH_WIDTH: i32 = 1920;

pub const BATCH_HEIGHT: i32 = 1080;

pub open spec fn value_or(value: Option<i64>, fallback: i64) -> i64 {
    match value {
        Some(v) => v,
        None => fallback,
    }
}

/// The background layer: the 16:9 crop of the background over the whole
/// canvas, moved and then scaled if a transform is given.
pub open spec fn batch_background(image: ImageSize, transform: Option<BackgroundTransform>) -> Seq<DrawOp> {
    let picture = DrawOp::Image {
        image: ImageId::Background,
        src: Some(cover_crop(image.width as int, image.height as int, 16, 9)),
        dst: Rect { x: 0, y: 0, w: 1920_000, h: 1080_000 },
        blur_sigma: 0,
    };
    match transform {
        Some(t) => seq![
            DrawOp::Save,
            DrawOp::Translate { dx: value_or(t.x, 0), dy: value_or(t.y, 0) },
            DrawOp::Scale { factor: value_or(t.scale, 1000) },
            picture,
            DrawOp::Restore,
        ],
        None => seq![DrawOp::Save, picture, DrawOp::Restore],
    }
}

/// The logo at full size, centred at the top.
pub open spec fn batch_logo() -> Seq<DrawOp> {
    seq![
        DrawOp::Image {
            image: ImageId::Logo,
            src: None,
            dst: Rect { x: 191_000, y: 100_000, w: 1_538_000, h: 262_000 },
            blur_sigma: 0,
        },
    ]
}

/// The font of the title.
pub open spec fn batch_title_font() -> FontPlan {
    font_plan("Aller"@, 130_000, FontWeight::Bold, false)
}

/// The title in white over its shadow, centred by its measured width.
pub open spec fn batch_title(text_width: u32) -> Seq<DrawOp> {
    shadowed_text(
        TextSlot::Month,
        ((1920_000 - text_width) / 2) as i64,
        760_000,
        batch_title_font(),
        Color::spec_white(),
        3_000,
    )
}

/// The whole thumbnail, in drawing order.
pub open spec fn batch_scene(
    image: ImageSize,
    transform: Option<BackgroundTransform>,
    text_width: u32,
) -> Seq<DrawOp> {
    batch_background(image, transform) + batch_logo() + batch_title(text_width)
}

/// The measured width of the title only moves it: whatever it is, the
/// thumbnail has the same steps and its title is set in the same font.
pub proof fn lemma_width_only_moves(
    image: ImageSize,
    transform: Option<BackgroundTransform>,
    w1: u32,
    w2: u32,
)
    ensures
        same_look(batch_scene(image, transform, w1), batch_scene(image, transform, w2)),
{
    let ground = batch_background(image, transform) + batch_logo();
    assert(same_look(ground, ground));
    assert(same_look(batch_title(w1), batch_title(w2)));
    lemma_same_look_append(ground, batch_title(w1), ground, batch_title(w2));
}

/// The font that the title is set and measured in.
pub fn title_font() -> (font: FontPlan)
    ensures
        font == batch_title_font(),
{
    load_font("Aller", 130_000, FontStyle::bold())
}

/// Composes the thumbnail of a monthly batch video: 1920 x 1080 pixels, the
/// 16:9 crop of the background under the logo and the title.
/// `text_width` is what the title measures in its font.
/// `logo` is what decoding the logo gave, its size or the fault. A logo that
/// did not decode fails the whole thumbnail with that fault: no thumbnail
/// without its logo is composed.
pub fn render_batch_thumbnail(
    image: ImageSize,
    transform: Option<BackgroundTransform>,
    logo: Result<ImageSize, String>,
    text_width: u32,
) -> (scene: Result<Scene, String>)
    ensures
        match logo {
            Ok(_) => {
                &&& scene is Ok
                &&& scene->Ok_0.width == BATCH_WIDTH
                &&& scene->Ok_0.height == BATCH_HEIGHT
                &&& scene->Ok_0.ops@ == batch_scene(image, transform, text_width)
            },
            Err(fault) => scene is Err && scene->Err_0@ == fault@,
        },
{
    match logo {
        Ok(_) => {},
        Err(fault) => {
            return Err(fault);
        },
    }
    let mut ops: Vec<DrawOp> = Vec::new();
    ops.push(DrawOp::Save);
    match transform {
        Some(t) => {
            let dx = match t.x {
                Some(v) => v,
                None => 0,
            };
            let dy = match t.y {
                Some(v) => v,
                None => 0,
            };
            let factor = match t.scale {
                Some(v) => v,
                None => 1000,
            };
            ops.push(DrawOp::Translate { dx, dy });
            ops.push(DrawOp::Scale { factor });
        },
        None => {},
    }
    ops.push(
        DrawOp::Image {
            image: ImageId::Background,
            src: Some(calculate_crop_dimensions(image.width, image.height)),
            dst: Rect::from_xywh(0, 0, 1920_000, 1080_000),
            blur_sigma: 0,
        },
    );
    ops.push(DrawOp::Restore);
    assert(ops@ =~= batch_background(image, transform));
    ops.push(
        DrawOp::Image {
            image: ImageId::Logo,
            src: None,
            dst: Rect::from_xywh(191_000, 100_000, 1_538_000, 262_000),
            blur_sigma: 0,
        },
    );
    assert(ops@ =~= batch_background(image, transform) + batch_logo());
    let reach: i64 = text_width as i64;
    let x = half(1920_000 - reach);
    let mut title = draw_text_with_shadow(TextSlot::Month, x, 760_000, title_font(), Color::white(), 3_000);
    ops.append(&mut title);
    Ok(Scene { width: BATCH_WIDTH, height: BATCH_HEIGHT, ops })
}

} // verus!
