use vstd::prelude::*;
use vstd::string::StringExecFns;
use crate::card::{has_subtitle, shows_subtitle};
use crate::decimal::{rating_change, rating_trend, RatingChange};
use crate::fixed::half;
use crate::fonts::{font_plan, load_font_with_weight, FontPlan, FontWeight};
use crate::ratings::{
    classify, difficulty_color, get_difficulty_color, rating_kind, text_of_ref, RatingKind,
};
use crate::scene::{
    lemma_same_look_append, same_look, Color, DrawOp, FamilyChain, ImageId, Paint, Rect, RoundRect, Scene, TextColor, TextSlot,
};
use crate::shapes::{arrow_op, draw_arrow, draw_star, star_op};
use crate::text::{draw_text_with_fallback, fallback_text};

verus! {

/// What a reweight card says about a map.
#[derive(Debug, Clone)]
pub struct ReweightMapMetadata {
    pub song_author_name: String,
    pub song_name: String,
    pub song_sub_name: Option<String>,
    pub level_author_name: String,
}

/// One published version of a map.
#[derive(Debug, Clone)]
pub struct ReweightMapVersion {
    pub cover_url: String,
}

/// A map as a reweight card shows it.
#[derive(Debug, Clone)]
pub struct ReweightMapInfo {
    pub metadata: ReweightMapMetadata,
    pub versions: Vec<ReweightMapVersion>,
}

/// What the text of a reweight card measures, in thousandths of a pixel:
/// the height of each paragraph once laid out, and the width of the old and
/// of the new rating.
#[derive(Debug, Clone, Copy, PartialEq, Eq, Structural)]
pub struct ReweightMeasures {
    pub author_height: u32,
    pub title_height: u32,
    pub subtitle_height: u32,
    pub mapper_height: u32,
    pub old_width: u32,
    pub new_width: u32,
}

pub const REWEIGHT_WIDTH: i32 = 600;

pub const REWEIGHT_HEIGHT: i32 = 270;

/// The cover of the first version; a map without versions has none.
pub fn reweight_cover_url(map: &ReweightMapInfo) -> (url: Result<&str, String>)
    ensures
        map.versions@.len() > 0 ==> url is Ok && url->Ok_0@ == map.versions@[0].cover_url@,
        map.versions@.len() == 0 ==> url is Err && url->Err_0@ == "No cover URL available"@,
{
    if map.versions.len() > 0 {
        Ok(map.versions[0].cover_url.as_str())
    } else {
        Err(String::from_str("No cover URL available"))
    }
}

/// The text that fills a slot of a reweight card. Slots that it does not
/// have are empty.
pub open spec fn reweight_text(
    map: ReweightMapInfo,
    old_rating: Option<Seq<char>>,
    new_rating: Option<Seq<char>>,
    slot: TextSlot,
) -> Seq<char> {
    match slot {
        TextSlot::SongAuthor => map.metadata.song_author_name@,
        TextSlot::SongName => map.metadata.song_name@,
        TextSlot::SongSubName => match map.metadata.song_sub_name {
            Some(text) => text@,
            None => Seq::empty(),
        },
        TextSlot::MappedBy => "Mapped by "@ + map.metadata.level_author_name@,
        TextSlot::OldRating => match old_rating {
            Some(text) => text,
            None => Seq::empty(),
        },
        TextSlot::NewRating => match new_rating {
            Some(text) => text,
            None => Seq::empty(),
        },
        _ => Seq::empty(),
    }
}

/// The text that fills a slot of a reweight card.
pub fn reweight_slot_text(
    map: &ReweightMapInfo,
    old_rating: Option<&String>,
    new_rating: Option<&String>,
    slot: TextSlot,
) -> (text: String)
    ensures
        text@ == reweight_text(*map, text_of_ref(old_rating), text_of_ref(new_rating), slot),
{
    match slot {
        TextSlot::SongAuthor => map.metadata.song_author_name.clone(),
        TextSlot::SongName => map.metadata.song_name.clone(),
        TextSlot::SongSubName => match &map.metadata.song_sub_name {
            Some(text) => text.clone(),
            None => String::new(),
        },
        TextSlot::MappedBy => {
            let mut text = String::from_str("Mapped by ");
            text.append(map.metadata.level_author_name.as_str());
            text
        },
        TextSlot::OldRating => match old_rating {
            Some(text) => text.clone(),
            None => String::new(),
        },
        TextSlot::NewRating => match new_rating {
            Some(text) => text.clone(),
            None => String::new(),
        },
        _ => String::new(),
    }
}

/// The accent of a change: green for a buff, red for a nerf, grey where
/// nothing changed.
pub open spec fn accent(change: RatingChange) -> Color {
    match change {
        RatingChange::Buff => Color::rgb(22, 163, 74),
        RatingChange::Nerf => Color::rgb(220, 38, 38),
        RatingChange::Same => Color::spec_gray(),
    }
}

/// The accent of a change.
pub fn accent_color(change: RatingChange) -> (color: Color)
    ensures
        color == accent(change),
{
    match change {
        RatingChange::Buff => Color::from_rgb(22, 163, 74),
        RatingChange::Nerf => Color::from_rgb(220, 38, 38),
        RatingChange::Same => Color::gray(),
    }
}

/// The glow behind the card's content: a blurred panel in the accent of the
/// change at a tenth of its strength, and nothing where nothing changed.
pub open spec fn glow(change: RatingChange) -> Seq<DrawOp> {
    let panel = RoundRect {
        rect: Rect { x: 40_000, y: 40_000, w: 520_000, h: 190_000 },
        rx: 20_000,
        ry: 20_000,
    };
    match change {
        RatingChange::Buff => seq![
            DrawOp::RoundRect {
                shape: panel,
                paint: Paint::blurred(Color::argb(26, 22, 163, 74), 20_000),
            },
        ],
        RatingChange::Nerf => seq![
            DrawOp::RoundRect {
                shape: panel,
                paint: Paint::blurred(Color::argb(26, 220, 38, 38), 20_000),
            },
        ],
        RatingChange::Same => Seq::empty(),
    }
}

/// The start of a reweight card: a transparent canvas, the dark rounded
/// ground, the glow, and the cover in its rounded inset.
pub open spec fn reweight_ground(change: RatingChange) -> Seq<DrawOp> {
    let inset = Rect { x: 20_000, y: 20_000, w: 230_000, h: 230_000 };
    seq![
        DrawOp::Clear { color: Color::spec_transparent() },
        DrawOp::RoundRect {
            shape: RoundRect {
                rect: Rect { x: 0, y: 0, w: 600_000, h: 270_000 },
                rx: 40_000,
                ry: 40_000,
            },
            paint: Paint::fill(Color::argb(77, 0, 0, 0)),
        },
    ] + glow(change) + seq![
        DrawOp::Save,
        DrawOp::ClipRoundRect {
            shape: RoundRect { rect: inset, rx: 20_000, ry: 20_000 },
            anti_alias: true,
        },
        DrawOp::Image { image: ImageId::Cover, src: None, dst: inset, blur_sigma: 0 },
        DrawOp::Restore,
    ]
}

/// One line of a reweight card's text: Torus Pro, at most 300 pixels wide.
pub open spec fn reweight_line(
    slot: TextSlot,
    y: i64,
    size: i64,
    weight: FontWeight,
    color: Color,
    line_height: u32,
) -> DrawOp {
    fallback_text(slot, 270_000, y, FamilyChain::Torus, size, weight, color, Some(300_000i64), line_height)
}

/// Artist, title, subtitle if shown (in light grey), and mapper.
pub open spec fn reweight_titles(subtitle: bool, m: ReweightMeasures) -> Seq<DrawOp> {
    let white = Color::spec_white();
    let head = seq![
        reweight_line(TextSlot::SongAuthor, 55_000, 24_000, FontWeight::Light, white, m.author_height),
        reweight_line(TextSlot::SongName, 90_000, 30_000, FontWeight::Bold, white, m.title_height),
    ];
    let foot = seq![
        reweight_line(TextSlot::MappedBy, 170_000, 20_000, FontWeight::Medium, white, m.mapper_height),
    ];
    if subtitle {
        head + seq![
            reweight_line(
                TextSlot::SongSubName,
                120_000,
                20_000,
                FontWeight::Regular,
                Color::rgb(200, 200, 200),
                m.subtitle_height,
            ),
        ] + foot
    } else {
        head + foot
    }
}

/// The font of the two ratings.
pub open spec fn reweight_rating_font() -> FontPlan {
    font_plan("Torus Pro"@, 24_000, FontWeight::Bold, false)
}

/// One rating chip: a box in the difficulty's colour around `center`, and
/// in it, centred, the rating with a star after it.
pub open spec fn rating_chip(slot: TextSlot, center: int, color: Color, width: u32) -> Seq<DrawOp> {
    let start = center - (width + 10_000 + 4_000) / 2;
    seq![
        DrawOp::RoundRect {
            shape: RoundRect {
                rect: Rect { x: (center - 50_000) as i64, y: 201_000, w: 100_000, h: 34_000 },
                rx: 10_000,
                ry: 10_000,
            },
            paint: Paint::fill(color),
        },
        DrawOp::Text {
            slot,
            x: start as i64,
            y: 226_000,
            font: reweight_rating_font(),
            color: TextColor::Solid(Color::spec_white()),
        },
        star_op((start + width + 4_000 + 5_000) as i64, 218_000, 10_000, Color::spec_white()),
    ]
}

/// The comparison: the old rating's chip, an arrow in the accent of the
/// change, the new rating's chip. It is left out unless both ratings are
/// shown.
pub open spec fn comparison(
    compared: bool,
    color: Color,
    change: RatingChange,
    m: ReweightMeasures,
) -> Seq<DrawOp> {
    if compared {
        rating_chip(TextSlot::OldRating, 320_000, color, m.old_width) + seq![
            arrow_op(405_000, 218_000, 20_000, accent(change)),
        ] + rating_chip(TextSlot::NewRating, 490_000, color, m.new_width)
    } else {
        Seq::empty()
    }
}

/// Whether the two ratings are set side by side: both must be shown.
pub open spec fn is_compared(old_rating: Option<Seq<char>>, new_rating: Option<Seq<char>>) -> bool {
    rating_kind(old_rating) != RatingKind::Absent && rating_kind(new_rating) != RatingKind::Absent
}

/// The whole reweight card, in drawing order.
pub open spec fn reweight_scene(
    subtitle: bool,
    color: Color,
    change: RatingChange,
    compared: bool,
    m: ReweightMeasures,
) -> Seq<DrawOp> {
    reweight_ground(change) + reweight_titles(subtitle, m) + comparison(compared, color, change, m)
}

/// The measures of a reweight card's text only move things: whatever they
/// are, the card has the same steps, its text is set in the same fonts and
/// styles, and only where text and stars are placed depends on them.
pub proof fn lemma_measures_only_move(
    subtitle: bool,
    color: Color,
    change: RatingChange,
    compared: bool,
    m1: ReweightMeasures,
    m2: ReweightMeasures,
)
    ensures
        same_look(
            reweight_scene(subtitle, color, change, compared, m1),
            reweight_scene(subtitle, color, change, compared, m2),
        ),
{
    let ground = reweight_ground(change);
    assert(same_look(ground, ground));
    assert(same_look(reweight_titles(subtitle, m1), reweight_titles(subtitle, m2)));
    if compared {
        let old1 = rating_chip(TextSlot::OldRating, 320_000, color, m1.old_width);
        let old2 = rating_chip(TextSlot::OldRating, 320_000, color, m2.old_width);
        let new1 = rating_chip(TextSlot::NewRating, 490_000, color, m1.new_width);
        let new2 = rating_chip(TextSlot::NewRating, 490_000, color, m2.new_width);
        let arrow = seq![arrow_op(405_000, 218_000, 20_000, accent(change))];
        assert(same_look(old1, old2));
        assert(same_look(new1, new2));
        assert(same_look(arrow, arrow));
        lemma_same_look_append(old1, arrow, old2, arrow);
        lemma_same_look_append(old1 + arrow, new1, old2 + arrow, new2);
    }
    assert(same_look(comparison(compared, color, change, m1), comparison(compared, color, change, m2)));
    lemma_same_look_append(ground, reweight_titles(subtitle, m1), ground, reweight_titles(subtitle, m2));
    lemma_same_look_append(
        ground + reweight_titles(subtitle, m1),
        comparison(compared, color, change, m1),
        ground + reweight_titles(subtitle, m2),
        comparison(compared, color, change, m2),
    );
}

/// The font that the two ratings are set and measured in.
pub fn rating_font() -> (font: FontPlan)
    ensures
        font == reweight_rating_font(),
{
    load_font_with_weight("Torus Pro", 24_000, 700)
}

fn push_ground(ops: &mut Vec<DrawOp>, change: RatingChange)
    ensures
        final(ops)@ == old(ops)@ + reweight_ground(change),
{
    let inset = Rect::from_xywh(20_000, 20_000, 230_000, 230_000);
    let panel = RoundRect::new_rect_xy(Rect::from_xywh(40_000, 40_000, 520_000, 190_000), 20_000, 20_000);
    ops.push(DrawOp::Clear { color: Color::transparent() });
    ops.push(
        DrawOp::RoundRect {
            shape: RoundRect::new_rect_xy(Rect::from_xywh(0, 0, 600_000, 270_000), 40_000, 40_000),
            paint: Paint::filled(Color::from_argb(77, 0, 0, 0)),
        },
    );
    match change {
        RatingChange::Buff => {
            ops.push(
                DrawOp::RoundRect {
                    shape: panel,
                    paint: Paint::with_blur(Color::from_argb(26, 22, 163, 74), 20_000),
                },
            );
        },
        RatingChange::Nerf => {
            ops.push(
                DrawOp::RoundRect {
                    shape: panel,
                    paint: Paint::with_blur(Color::from_argb(26, 220, 38, 38), 20_000),
                },
            );
        },
        RatingChange::Same => {},
    }
    ops.push(DrawOp::Save);
    ops.push(
        DrawOp::ClipRoundRect { shape: RoundRect::new_rect_xy(inset, 20_000, 20_000), anti_alias: true },
    );
    ops.push(DrawOp::Image { image: ImageId::Cover, src: None, dst: inset, blur_sigma: 0 });
    ops.push(DrawOp::Restore);
    assert(ops@ =~= old(ops)@ + reweight_ground(change));
}

fn line(slot: TextSlot, y: i64, size: i64, weight: FontWeight, color: Color, line_height: u32) -> (op: DrawOp)
    requires
        0 <= y <= 270_000,
        0 <= size <= 100_000,
    ensures
        op == reweight_line(slot, y, size, weight, color, line_height),
{
    draw_text_with_fallback(
        slot,
        270_000,
        y,
        FamilyChain::Torus,
        size,
        weight,
        color,
        Some(300_000),
        line_height,
    )
}

fn push_titles(ops: &mut Vec<DrawOp>, subtitle: bool, m: &ReweightMeasures)
    ensures
        final(ops)@ == old(ops)@ + reweight_titles(subtitle, *m),
{
    let white = Color::white();
    ops.push(line(TextSlot::SongAuthor, 55_000, 24_000, FontWeight::Light, white, m.author_height));
    ops.push(line(TextSlot::SongName, 90_000, 30_000, FontWeight::Bold, white, m.title_height));
    if subtitle {
        ops.push(
            line(
                TextSlot::SongSubName,
                120_000,
                20_000,
                FontWeight::Regular,
                Color::from_rgb(200, 200, 200),
                m.subtitle_height,
            ),
        );
    }
    ops.push(line(TextSlot::MappedBy, 170_000, 20_000, FontWeight::Medium, white, m.mapper_height));
    assert(ops@ =~= old(ops)@ + reweight_titles(subtitle, *m));
}

fn push_chip(ops: &mut Vec<DrawOp>, slot: TextSlot, center: i64, color: Color, width: u32)
    requires
        0 <= center <= 600_000,
    ensures
        final(ops)@ == old(ops)@ + rating_chip(slot, center as int, color, width),
{
    let reach: i64 = width as i64;
    let start: i64 = center - half(reach + 10_000 + 4_000);
    ops.push(
        DrawOp::RoundRect {
            shape: RoundRect::new_rect_xy(
                Rect::from_xywh(center - 50_000, 201_000, 100_000, 34_000),
                10_000,
                10_000,
            ),
            paint: Paint::filled(color),
        },
    );
    ops.push(
        DrawOp::Text {
            slot,
            x: start,
            y: 226_000,
            font: rating_font(),
            color: TextColor::Solid(Color::white()),
        },
    );
    ops.push(draw_star(start + reach + 4_000 + 5_000, 218_000, 10_000, Color::white()));
    assert(ops@ =~= old(ops)@ + rating_chip(slot, center as int, color, width));
}

fn push_comparison(
    ops: &mut Vec<DrawOp>,
    compared: bool,
    color: Color,
    change: RatingChange,
    m: &ReweightMeasures,
)
    ensures
        final(ops)@ == old(ops)@ + comparison(compared, color, change, *m),
{
    if compared {
        push_chip(ops, TextSlot::OldRating, 320_000, color, m.old_width);
        ops.push(draw_arrow(405_000, 218_000, 20_000, accent_color(change)));
        push_chip(ops, TextSlot::NewRating, 490_000, color, m.new_width);
    }
    assert(ops@ =~= old(ops)@ + comparison(compared, color, change, *m));
}

/// Composes the reweight card of a map: 600 x 270 pixels. The glow and the
/// arrow take the accent of the change from the old to the new rating; the
/// two ratings are set side by side only if both are shown.
pub fn render_reweight_card(
    map: &ReweightMapInfo,
    old_rating: Option<&String>,
    new_rating: Option<&String>,
    chosen_diff: &str,
    measures: &ReweightMeasures,
) -> (scene: Scene)
    ensures
        scene.width == REWEIGHT_WIDTH,
        scene.height == REWEIGHT_HEIGHT,
        scene.ops@ == reweight_scene(
            shows_subtitle(map.metadata.song_sub_name),
            difficulty_color(chosen_diff@),
            rating_trend(text_of_ref(old_rating), text_of_ref(new_rating)),
            is_compared(text_of_ref(old_rating), text_of_ref(new_rating)),
            *measures,
        ),
{
    let color = get_difficulty_color(chosen_diff);
    let change = rating_change(old_rating, new_rating);
    let compared = match classify(old_rating) {
        RatingKind::Absent => false,
        _ => match classify(new_rating) {
            RatingKind::Absent => false,
            _ => true,
        },
    };
    let mut ops: Vec<DrawOp> = Vec::new();
    push_ground(&mut ops, change);
    push_titles(&mut ops, has_subtitle(&map.metadata.song_sub_name), measures);
    push_comparison(&mut ops, compared, color, change, measures);
    proof {
        let ground = reweight_ground(change);
        assert(Seq::<DrawOp>::empty() + ground =~= ground);
    }
    Scene { width: REWEIGHT_WIDTH, height: REWEIGHT_HEIGHT, ops }
}

} // verus!
