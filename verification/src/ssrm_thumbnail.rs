use vstd::prelude::*;
use vstd::string::StringExecFns;
use crate::card::{has_subtitle, shows_subtitle};
use crate::fixed::half;
use crate::fonts::{font_plan, load_font, FontPlan, FontStyle, FontWeight};
use crate::geometry::{calculate_crop_dimensions, calculate_square_crop, cover_crop, ImageSize};
use crate::ratings::{
    classify, difficulty_color, difficulty_name, get_difficulty_color, get_difficulty_name,
    rating_kind, text_of_ref, Difficulty, RatingKind, SsrmStarRating,
};
use crate::scene::{
    lemma_same_look_append, same_look, Color, DrawOp, FamilyChain, ImageId, Paint, Rect, RoundRect, Scene, TextColor, TextSlot,
};
use crate::shapes::{draw_star, star_op};
use crate::text::{draw_text_with_fallback, fallback_text};

verus! {

/// What a video thumbnail says about a map.
#[derive(Debug, Clone)]
pub struct SsrmMapMetadata {
    pub song_author_name: String,
    pub song_name: String,
    pub song_sub_name: Option<String>,
    pub level_author_name: String,
}

/// One published version of a map.
#[derive(Debug, Clone)]
pub struct SsrmMapVersion {
    pub cover_url: String,
}

/// A map as a video thumbnail shows it.
#[derive(Debug, Clone)]
pub struct SsrmMapInfo {
    pub metadata: SsrmMapMetadata,
    pub versions: Vec<SsrmMapVersion>,
}

/// What the text of a video thumbnail measures, in thousandths of a pixel:
/// the height of each paragraph once laid out, and the width of the
/// difficulty label.
#[derive(Debug, Clone, Copy, PartialEq, Eq, Structural)]
pub struct SsrmMeasures {
    pub author_height: u32,
    pub title_height: u32,
    pub subtitle_height: u32,
    pub mapper_height: u32,
    pub label_width: u32,
}

pub const SSRM_WIDTH: i32 = 1920;

pub const SSRM_HEIGHT: i32 = 1080;

/// How many dots the divider has.
pub const DIVIDER_DOTS: usize = 17;

/// The cover of the first version; a map without versions has none.
pub fn ssrm_cover_url(map: &SsrmMapInfo) -> (url: Result<&str, String>)
    ensures
        map.versions@.len() > 0 ==> url is Ok && url->Ok_0@ == map.versions@[0].cover_url@,
        map.versions@.len() == 0 ==> url is Err && url->Err_0@ == "No cover URL available"@,
{
    if map.versions.len() > 0 {
        Ok(map.versions[0].cover_url.as_str())
    } else {
        Err(String::from_str("No cover URL available"))
    }
}

/// The rating that a thumbnail shows: the entry under the chosen key.
pub fn chosen_rating<'a>(ratings: &'a SsrmStarRating, chosen_diff: &str) -> (entry: Option<&'a String>)
    ensures
        text_of_ref(entry) == ratings@.lookup(chosen_diff@),
{
    match Difficulty::from_key(chosen_diff) {
        Some(difficulty) => ratings.get(difficulty),
        None => None,
    }
}

/// The bytes that the backdrop is decoded from: those fetched for it, or the
/// cover's where fetching them failed.
pub fn background_or_cover(background: Option<Vec<u8>>, cover: &Vec<u8>) -> (bytes: Vec<u8>)
    ensures
        bytes@ == match background {
            Some(fetched) => fetched@,
            None => cover@,
        },
{
    match background {
        Some(fetched) => fetched,
        None => cover.clone(),
    }
}

/// The text that fills a slot of a video thumbnail. The difficulty label is
/// the difficulty's name, a space and the rating. Slots that a thumbnail
/// does not have are empty.
pub open spec fn ssrm_text(
    map: SsrmMapInfo,
    chosen_diff: Seq<char>,
    rating: Option<Seq<char>>,
    slot: TextSlot,
) -> Seq<char> {
    match slot {
        TextSlot::SongAuthor => map.metadata.song_author_name@,
        TextSlot::SongName => map.metadata.song_name@,
        TextSlot::SongSubName => match map.metadata.song_sub_name {
            Some(text) => text@,
            None => Seq::empty(),
        },
        TextSlot::MappedBy => "Mapped by "@ + map.metadata.level_author_name@,
        TextSlot::DifficultyLabel => match rating {
            Some(text) => difficulty_name(chosen_diff) + " "@ + text,
            None => Seq::empty(),
        },
        _ => Seq::empty(),
    }
}

/// The text that fills a slot of a video thumbnail.
pub fn ssrm_slot_text(
    map: &SsrmMapInfo,
    chosen_diff: &str,
    rating: Option<&String>,
    slot: TextSlot,
) -> (text: String)
    ensures
        text@ == ssrm_text(*map, chosen_diff@, text_of_ref(rating), slot),
{
    match slot {
        TextSlot::SongAuthor => map.metadata.song_author_name.clone(),
        TextSlot::SongName => map.metadata.song_name.clone(),
        TextSlot::SongSubName => match &map.metadata.song_sub_name {
            Some(text) => text.clone(),
            None => String::new(),
        },
        TextSlot::MappedBy => {
            let mut text = String::from_str("Mapped by ");
            text.append(map.metadata.level_author_name.as_str());
            text
        },
        TextSlot::DifficultyLabel => match rating {
            Some(value) => {
                let mut text = String::from_str(get_difficulty_name(chosen_diff));
                text.append(" ");
                text.append(value.as_str());
                text
            },
            None => String::new(),
        },
        _ => String::new(),
    }
}

/// The rounded frame that holds everything but the gradient.
pub open spec fn ssrm_frame() -> RoundRect {
    RoundRect { rect: Rect { x: 20_000, y: 20_000, w: 1_880_000, h: 1_040_000 }, rx: 50_000, ry: 50_000 }
}

/// The rounded square of the cover art.
pub open spec fn ssrm_cover_frame() -> RoundRect {
    RoundRect { rect: Rect { x: 75_000, y: 495_000, w: 510_000, h: 510_000 }, rx: 50_000, ry: 50_000 }
}

/// The backdrop: a gradient from blue to red over the whole canvas, and on
/// it, clipped to the frame, the 16:9 crop of the background, blurred.
pub open spec fn ssrm_backdrop(background: ImageSize) -> Seq<DrawOp> {
    seq![
        DrawOp::GradientRect {
            rect: Rect { x: 0, y: 0, w: 1_920_000, h: 1_080_000 },
            from: Color::rgb(15, 8, 208),
            to: Color::rgb(155, 11, 57),
        },
        DrawOp::Save,
        DrawOp::ClipRoundRect { shape: ssrm_frame(), anti_alias: true },
        DrawOp::Image {
            image: ImageId::Background,
            src: Some(cover_crop(background.width as int, background.height as int, 16, 9)),
            dst: Rect { x: 0, y: 0, w: 1_920_000, h: 1_080_000 },
            blur_sigma: 10_000,
        },
        DrawOp::Restore,
    ]
}

/// The dark panel on the left, the square crop of the cover in its rounded
/// frame, and the white outlines of the cover and of the whole.
pub open spec fn ssrm_panel(cover: ImageSize) -> Seq<DrawOp> {
    seq![
        DrawOp::Save,
        DrawOp::RoundRect {
            shape: RoundRect {
                rect: Rect { x: 20_000, y: 20_000, w: 620_000, h: 1_040_000 },
                rx: 50_000,
                ry: 50_000,
            },
            paint: Paint::fill(Color::rgb(20, 20, 20)),
        },
        DrawOp::Restore,
        DrawOp::Save,
        DrawOp::ClipRoundRect { shape: ssrm_cover_frame(), anti_alias: true },
        DrawOp::Image {
            image: ImageId::Cover,
            src: Some(cover_crop(cover.width as int, cover.height as int, 1, 1)),
            dst: Rect { x: 75_000, y: 495_000, w: 510_000, h: 510_000 },
            blur_sigma: 0,
        },
        DrawOp::Restore,
        DrawOp::RoundRect {
            shape: ssrm_cover_frame(),
            paint: Paint::stroke(Color::spec_white(), 10_000),
        },
        DrawOp::RoundRect { shape: ssrm_frame(), paint: Paint::stroke(Color::spec_white(), 10_000) },
    ]
}

/// One line of a thumbnail's text: white Heebo, at most 560 pixels wide.
pub open spec fn ssrm_line(slot: TextSlot, y: i64, size: i64, weight: FontWeight, line_height: u32) -> DrawOp {
    fallback_text(
        slot,
        50_000,
        y,
        FamilyChain::Heebo,
        size,
        weight,
        Color::spec_white(),
        Some(560_000i64),
        line_height,
    )
}

/// Artist, title, subtitle if shown, and mapper.
pub open spec fn ssrm_titles(subtitle: bool, m: SsrmMeasures) -> Seq<DrawOp> {
    let head = seq![
        ssrm_line(TextSlot::SongAuthor, 95_000, 48_000, FontWeight::Regular, m.author_height),
        ssrm_line(TextSlot::SongName, 160_000, 56_000, FontWeight::Bold, m.title_height),
    ];
    let foot = seq![
        ssrm_line(TextSlot::MappedBy, 295_000, 40_000, FontWeight::Regular, m.mapper_height),
    ];
    if subtitle {
        head + seq![
            ssrm_line(TextSlot::SongSubName, 220_000, 48_000, FontWeight::Regular, m.subtitle_height),
        ] + foot
    } else {
        head + foot
    }
}

/// The font of the difficulty label.
pub open spec fn ssrm_label_font() -> FontPlan {
    font_plan("Heebo"@, 48_000, FontWeight::Bold, false)
}

/// The difficulty box: nothing for a rating that is not shown; else a box
/// in the difficulty's colour with the label centred on x = 330, alone for a
/// word and with a star after it for a number.
pub open spec fn ssrm_rating_box(color: Color, kind: RatingKind, width: u32) -> Seq<DrawOp> {
    let frame = DrawOp::RoundRect {
        shape: RoundRect {
            rect: Rect { x: 75_000, y: 360_000, w: 510_000, h: 100_000 },
            rx: 25_000,
            ry: 25_000,
        },
        paint: Paint::fill(color),
    };
    match kind {
        RatingKind::Absent => Seq::empty(),
        RatingKind::Sentinel => seq![
            frame,
            DrawOp::Text {
                slot: TextSlot::DifficultyLabel,
                x: (330_000 - width / 2) as i64,
                y: 425_000,
                font: ssrm_label_font(),
                color: TextColor::Solid(Color::spec_white()),
            },
        ],
        RatingKind::Numeric => {
            let start = 330_000 - (width + 8_000 + 40_000) / 2;
            seq![
                frame,
                DrawOp::Text {
                    slot: TextSlot::DifficultyLabel,
                    x: start as i64,
                    y: 425_000,
                    font: ssrm_label_font(),
                    color: TextColor::Solid(Color::spec_white()),
                },
                star_op((start + width + 8_000 + 20_000) as i64, 410_000, 20_000, Color::spec_white()),
            ]
        },
    }
}

/// One dot of the divider.
pub open spec fn divider_dot(color: Color, index: int) -> DrawOp {
    DrawOp::Circle {
        cx: 640_000,
        cy: (50_000 + index * 61_000) as i64,
        radius: 15_000,
        paint: Paint::smooth(color),
    }
}

/// The dotted divider right of the panel: seventeen dots at even steps.
pub open spec fn ssrm_divider(color: Color) -> Seq<DrawOp> {
    Seq::new(DIVIDER_DOTS as nat, |i: int| divider_dot(color, i))
}

/// The whole thumbnail, in drawing order.
pub open spec fn ssrm_scene(
    subtitle: bool,
    color: Color,
    kind: RatingKind,
    cover: ImageSize,
    background: ImageSize,
    m: SsrmMeasures,
) -> Seq<DrawOp> {
    ssrm_backdrop(background) + ssrm_panel(cover) + ssrm_titles(subtitle, m) + ssrm_rating_box(
        color,
        kind,
        m.label_width,
    ) + ssrm_divider(color)
}

/// The measures of a thumbnail's text only move things: whatever they are,
/// the thumbnail has the same steps, its text is set in the same fonts and
/// styles, and only where text and stars are placed depends on them.
pub proof fn lemma_measures_only_move(
    subtitle: bool,
    color: Color,
    kind: RatingKind,
    cover: ImageSize,
    background: ImageSize,
    m1: SsrmMeasures,
    m2: SsrmMeasures,
)
    ensures
        same_look(
            ssrm_scene(subtitle, color, kind, cover, background, m1),
            ssrm_scene(subtitle, color, kind, cover, background, m2),
        ),
{
    let backdrop = ssrm_backdrop(background);
    let panel = ssrm_panel(cover);
    let divider = ssrm_divider(color);
    assert(same_look(backdrop, backdrop));
    assert(same_look(panel, panel));
    assert(same_look(divider, divider));
    assert(same_look(ssrm_titles(subtitle, m1), ssrm_titles(subtitle, m2)));
    assert(same_look(
        ssrm_rating_box(color, kind, m1.label_width),
        ssrm_rating_box(color, kind, m2.label_width),
    ));
    lemma_same_look_append(backdrop, panel, backdrop, panel);
    lemma_same_look_append(
        backdrop + panel,
        ssrm_titles(subtitle, m1),
        backdrop + panel,
        ssrm_titles(subtitle, m2),
    );
    lemma_same_look_append(
        backdrop + panel + ssrm_titles(subtitle, m1),
        ssrm_rating_box(color, kind, m1.label_width),
        backdrop + panel + ssrm_titles(subtitle, m2),
        ssrm_rating_box(color, kind, m2.label_width),
    );
    lemma_same_look_append(
        backdrop + panel + ssrm_titles(subtitle, m1) + ssrm_rating_box(color, kind, m1.label_width),
        divider,
        backdrop + panel + ssrm_titles(subtitle, m2) + ssrm_rating_box(color, kind, m2.label_width),
        divider,
    );
}

/// The font that the difficulty label is set and measured in.
pub fn label_font() -> (font: FontPlan)
    ensures
        font == ssrm_label_font(),
{
    load_font("Heebo", 48_000, FontStyle::bold())
}

fn push_backdrop(ops: &mut Vec<DrawOp>, background: ImageSize)
    ensures
        final(ops)@ == old(ops)@ + ssrm_backdrop(background),
{
    let canvas = Rect::from_xywh(0, 0, 1_920_000, 1_080_000);
    ops.push(
        DrawOp::GradientRect {
            rect: canvas,
            from: Color::from_rgb(15, 8, 208),
            to: Color::from_rgb(155, 11, 57),
        },
    );
    ops.push(DrawOp::Save);
    ops.push(
        DrawOp::ClipRoundRect {
            shape: RoundRect::new_rect_xy(
                Rect::from_xywh(20_000, 20_000, 1_880_000, 1_040_000),
                50_000,
                50_000,
            ),
            anti_alias: true,
        },
    );
    ops.push(
        DrawOp::Image {
            image: ImageId::Background,
            src: Some(calculate_crop_dimensions(background.width, background.height)),
            dst: canvas,
            blur_sigma: 10_000,
        },
    );
    ops.push(DrawOp::Restore);
    assert(ops@ =~= old(ops)@ + ssrm_backdrop(background));
}

fn push_panel(ops: &mut Vec<DrawOp>, cover: ImageSize)
    ensures
        final(ops)@ == old(ops)@ + ssrm_panel(cover),
{
    let frame = RoundRect::new_rect_xy(
        Rect::from_xywh(20_000, 20_000, 1_880_000, 1_040_000),
        50_000,
        50_000,
    );
    let cover_frame = RoundRect::new_rect_xy(
        Rect::from_xywh(75_000, 495_000, 510_000, 510_000),
        50_000,
        50_000,
    );
    ops.push(DrawOp::Save);
    ops.push(
        DrawOp::RoundRect {
            shape: RoundRect::new_rect_xy(
                Rect::from_xywh(20_000, 20_000, 620_000, 1_040_000),
                50_000,
                50_000,
            ),
            paint: Paint::filled(Color::from_rgb(20, 20, 20)),
        },
    );
    ops.push(DrawOp::Restore);
    ops.push(DrawOp::Save);
    ops.push(DrawOp::ClipRoundRect { shape: cover_frame, anti_alias: true });
    ops.push(
        DrawOp::Image {
            image: ImageId::Cover,
            src: Some(calculate_square_crop(cover.width, cover.height)),
            dst: Rect::from_xywh(75_000, 495_000, 510_000, 510_000),
            blur_sigma: 0,
        },
    );
    ops.push(DrawOp::Restore);
    ops.push(DrawOp::RoundRect { shape: cover_frame, paint: Paint::outline(Color::white(), 10_000) });
    ops.push(DrawOp::RoundRect { shape: frame, paint: Paint::outline(Color::white(), 10_000) });
    assert(ops@ =~= old(ops)@ + ssrm_panel(cover));
}

fn line(slot: TextSlot, y: i64, size: i64, weight: FontWeight, line_height: u32) -> (op: DrawOp)
    requires
        0 <= y <= 1_080_000,
        0 <= size <= 100_000,
    ensures
        op == ssrm_line(slot, y, size, weight, line_height),
{
    draw_text_with_fallback(
        slot,
        50_000,
        y,
        FamilyChain::Heebo,
        size,
        weight,
        Color::white(),
        Some(560_000),
        line_height,
    )
}

fn push_titles(ops: &mut Vec<DrawOp>, subtitle: bool, m: &SsrmMeasures)
    ensures
        final(ops)@ == old(ops)@ + ssrm_titles(subtitle, *m),
{
    ops.push(line(TextSlot::SongAuthor, 95_000, 48_000, FontWeight::Regular, m.author_height));
    ops.push(line(TextSlot::SongName, 160_000, 56_000, FontWeight::Bold, m.title_height));
    if subtitle {
        ops.push(line(TextSlot::SongSubName, 220_000, 48_000, FontWeight::Regular, m.subtitle_height));
    }
    ops.push(line(TextSlot::MappedBy, 295_000, 40_000, FontWeight::Regular, m.mapper_height));
    assert(ops@ =~= old(ops)@ + ssrm_titles(subtitle, *m));
}

fn push_rating_box(ops: &mut Vec<DrawOp>, color: Color, kind: RatingKind, width: u32)
    ensures
        final(ops)@ == old(ops)@ + ssrm_rating_box(color, kind, width),
{
    let reach: i64 = width as i64;
    let frame = DrawOp::RoundRect {
        shape: RoundRect::new_rect_xy(Rect::from_xywh(75_000, 360_000, 510_000, 100_000), 25_000, 25_000),
        paint: Paint::filled(color),
    };
    match kind {
        RatingKind::Absent => {},
        RatingKind::Sentinel => {
            ops.push(frame);
            ops.push(
                DrawOp::Text {
                    slot: TextSlot::DifficultyLabel,
                    x: 330_000 - half(reach),
                    y: 425_000,
                    font: label_font(),
                    color: TextColor::Solid(Color::white()),
                },
            );
        },
        RatingKind::Numeric => {
            let start: i64 = 330_000 - half(reach + 8_000 + 40_000);
            ops.push(frame);
            ops.push(
                DrawOp::Text {
                    slot: TextSlot::DifficultyLabel,
                    x: start,
                    y: 425_000,
                    font: label_font(),
                    color: TextColor::Solid(Color::white()),
                },
            );
            ops.push(draw_star(start + reach + 8_000 + 20_000, 410_000, 20_000, Color::white()));
        },
    }
    assert(ops@ =~= old(ops)@ + ssrm_rating_box(color, kind, width));
}

fn push_divider(ops: &mut Vec<DrawOp>, color: Color)
    ensures
        final(ops)@ == old(ops)@ + ssrm_divider(color),
{
    let mut i: usize = 0;
    while i < DIVIDER_DOTS
        invariant
            i <= DIVIDER_DOTS,
            ops@.len() == old(ops)@.len() + i,
            forall|k: int| 0 <= k < old(ops)@.len() ==> ops@[k] == old(ops)@[k],
            forall|k: int| 0 <= k < i ==> ops@[old(ops)@.len() + k] == divider_dot(color, k),
        decreases DIVIDER_DOTS - i,
    {
        let step: i64 = i as i64;
        ops.push(
            DrawOp::Circle {
                cx: 640_000,
                cy: 50_000 + step * 61_000,
                radius: 15_000,
                paint: Paint::smooth_fill(color),
            },
        );
        i += 1;
    }
    assert(ops@ =~= old(ops)@ + ssrm_divider(color));
}

/// Composes the video thumbnail of a map: 1920 x 1080 pixels, the rating
/// box only for a rating that is shown, everything tinted by the colour of
/// the chosen difficulty.
pub fn render_ssrm_thumbnail(
    map: &SsrmMapInfo,
    chosen_diff: &str,
    rating: Option<&String>,
    cover: ImageSize,
    background: ImageSize,
    measures: &SsrmMeasures,
) -> (scene: Scene)
    ensures
        scene.width == SSRM_WIDTH,
        scene.height == SSRM_HEIGHT,
        scene.ops@ == ssrm_scene(
            shows_subtitle(map.metadata.song_sub_name),
            difficulty_color(chosen_diff@),
            rating_kind(text_of_ref(rating)),
            cover,
            background,
            *measures,
        ),
{
    let color = get_difficulty_color(chosen_diff);
    let mut ops: Vec<DrawOp> = Vec::new();
    push_backdrop(&mut ops, background);
    push_panel(&mut ops, cover);
    push_titles(&mut ops, has_subtitle(&map.metadata.song_sub_name), measures);
    push_rating_box(&mut ops, color, classify(rating), measures.label_width);
    push_divider(&mut ops, color);
    proof {
        let backdrop = ssrm_backdrop(background);
        assert(Seq::<DrawOp>::empty() + backdrop =~= backdrop);
    }
    Scene { width: SSRM_WIDTH, height: SSRM_HEIGHT, ops }
}

} // verus!
