use vstd::prelude::*;
use crate::fixed::half;
use crate::fonts::{font_plan, load_font, FontPlan, FontStyle, FontWeight};
use crate::geometry::{calculate_square_crop_dimensions, cover_crop, ImageSize};
use crate::scene::{lemma_same_look_append, same_look, Color, DrawOp, ImageId, Rect, Scene, TextSlot};
use crate::text::{draw_text_with_shadow, shadowed_text};

verus! {

/// How the background is moved and scaled before it is drawn. The scale is
/// in thousandths, the offsets in thousandths of a pixel; what is left out
/// leaves the background as it is.
#[derive(Debug, Clone, Copy, PartialEq, Eq, Structural)]
pub struct PlaylistBackgroundTransform {
    pub scale: Option<i64>,
    pub x: Option<i64>,
    pub y: Option<i64>,
}

pub const PLAYLIST_WIDTH: i32 = 512;

pub const PLAYLIST_HEIGHT: i32 = 512;

pub open spec fn value_or(value: Option<i64>, fallback: i64) -> i64 {
    match value {
        Some(v) => v,
        None => fallback,
    }
}

/// The background layer: the square crop of the background over the whole
/// canvas, moved and then scaled if a transform is given.
pub open spec fn playlist_background(image: ImageSize, transform: Option<PlaylistBackgroundTransform>) -> Seq<DrawOp> {
    let picture = DrawOp::Image {
        image: ImageId::Background,
        src: Some(cover_crop(image.width as int, image.height as int, 1, 1)),
        dst: Rect { x: 0, y: 0, w: 512_000, h: 512_000 },
        blur_sigma: 0,
    };
    match transform {
        Some(t) => seq![
            DrawOp::Save,
            DrawOp::Translate { dx: value_or(t.x, 0), dy: value_or(t.y, 0) },
            DrawOp::Scale { factor: value_or(t.scale, 1000) },
            picture,
            DrawOp::Restore,
        ],
        None => seq![DrawOp::Save, picture, DrawOp::Restore],
    }
}

/// The logo at three tenths of its size, centred at the top.
pub open spec fn playlist_logo() -> Seq<DrawOp> {
    seq![
        DrawOp::Image {
            image: ImageId::Logo,
            src: None,
            dst: Rect { x: 25_300, y: 50_000, w: 461_400, h: 78_600 },
            blur_sigma: 0,
        },
    ]
}

/// The font of the title.
pub open spec fn playlist_title_font() -> FontPlan {
    font_plan("Aller"@, 54_000, FontWeight::Regular, true)
}

/// The title in white over its shadow, centred by its measured width.
pub open spec fn playlist_title(text_width: u32) -> Seq<DrawOp> {
    shadowed_text(
        TextSlot::Month,
        ((512_000 - text_width) / 2) as i64,
        460_000,
        playlist_title_font(),
        Color::spec_white(),
        2_000,
    )
}

/// The whole thumbnail, in drawing order.
pub open spec fn playlist_scene(
    image: ImageSize,
    transform: Option<PlaylistBackgroundTransform>,
    text_width: u32,
) -> Seq<DrawOp> {
    playlist_background(image, transform) + playlist_logo() + playlist_title(text_width)
}

/// The measured width of the title only moves it: whatever it is, the
/// thumbnail has the same steps and its title is set in the same font.
pub proof fn lemma_width_only_moves(
    image: ImageSize,
    transform: Option<PlaylistBackgroundTransform>,
    w1: u32,
    w2: u32,
)
    ensures
        same_look(playlist_scene(image, transform, w1), playlist_scene(image, transform, w2)),
{
    let ground = playlist_background(image, transform) + playlist_logo();
    assert(same_look(ground, ground));
    assert(same_look(playlist_title(w1), playlist_title(w2)));
    lemma_same_look_append(ground, playlist_title(w1), ground, playlist_title(w2));
}

/// The font that the title is set and measured in.
pub fn title_font() -> (font: FontPlan)
    ensures
        font == playlist_title_font(),
{
    load_font("Aller", 54_000, FontStyle::italic())
}

/// Composes the thumbnail of a playlist: 512 x 512 pixels, the
/// square crop of the background under the logo and the title.
/// `text_width` is what the title measures in its font.
/// `logo` is what decoding the logo gave, its size or the fault. A logo that
/// did not decode fails the whole thumbnail with that fault: no thumbnail
/// without its logo is composed.
pub fn render_playlist_thumbnail(
    image: ImageSize,
    transform: Option<PlaylistBackgroundTransform>,
    logo: Result<ImageSize, String>,
    text_width: u32,
) -> (scene: Result<Scene, String>)
    ensures
        match logo {
            Ok(_) => {
                &&& scene is Ok
                &&& scene->Ok_0.width == PLAYLIST_WIDTH
                &&& scene->Ok_0.height == PLAYLIST_HEIGHT
                &&& scene->Ok_0.ops@ == playlist_scene(image, transform, text_width)
            },
            Err(fault) => scene is Err && scene->Err_0@ == fault@,
        },
{
    match logo {
        Ok(_) => {},
        Err(fault) => {
            return Err(fault);
        },
    }
    let mut ops: Vec<DrawOp> = Vec::new();
    ops.push(DrawOp::Save);
    match transform {
        Some(t) => {
            let dx = match t.x {
                Some(v) => v,
                None => 0,
            };
            let dy = match t.y {
                Some(v) => v,
                None => 0,
            };
            let factor = match t.scale {
                Some(v) => v,
                None => 1000,
            };
            ops.push(DrawOp::Translate { dx, dy });
            ops.push(DrawOp::Scale { factor });
        },
        None => {},
    }
    ops.push(
        DrawOp::Image {
            image: ImageId::Background,
            src: Some(calculate_square_crop_dimensions(image.width, image.height)),
            dst: Rect::from_xywh(0, 0, 512_000, 512_000),
            blur_sigma: 0,
        },
    );
    ops.push(DrawOp::Restore);
    assert(ops@ =~= playlist_background(image, transform));
    ops.push(
        DrawOp::Image {
            image: ImageId::Logo,
            src: None,
            dst: Rect::from_xywh(25_300, 50_000, 461_400, 78_600),
            blur_sigma: 0,
        },
    );
    assert(ops@ =~= playlist_background(image, transform) + playlist_logo());
    let reach: i64 = text_width as i64;
    let x = half(512_000 - reach);
    let mut title = draw_text_with_shadow(TextSlot::Month, x, 460_000, title_font(), Color::white(), 2_000);
    ops.append(&mut title);
    Ok(Scene { width: PLAYLIST_WIDTH, height: PLAYLIST_HEIGHT, ops })
}

} // verus!
