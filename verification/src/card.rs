use vstd::prelude::*;
use vstd::string::StringExecFns;
use crate::fonts::{font_plan, load_font, FontPlan, FontStyle, FontWeight};
use crate::format::{duration_text, format_duration, format_tempo, tempo_text};
use crate::geometry::{cover_placement, place_to_cover, ImageSize};
use crate::ratings::{Difficulty, RatingKind, RatingKinds, RatingSet, StarRating};
use crate::scene::{
    free_of, lemma_free_of_append, lemma_same_look_append, same_look, Color, DrawOp, FamilyChain, Icon, ImageId, Paint, Rect, RoundRect,
    Scene, TextColor, TextSlot,
};
use crate::shapes::{draw_svg_icon, draw_star, icon_op, star_op};
use crate::text::{draw_text_with_fallback, fallback_text};

verus! {

/// What a card says about a map.
#[derive(Debug, Clone)]
pub struct MapMetadata {
    pub song_author_name: String,
    pub song_name: String,
    pub song_sub_name: Option<String>,
    pub level_author_name: String,
    /// In seconds.
    pub duration: i32,
    /// In thousandths of a beat per minute.
    pub bpm: i64,
}

/// One published version of a map.
#[derive(Debug, Clone)]
pub struct MapVersion {
    pub cover_url: String,
    pub hash: String,
}

/// A map as a card shows it.
#[derive(Debug, Clone)]
pub struct MapInfo {
    pub id: String,
    pub metadata: MapMetadata,
    pub versions: Vec<MapVersion>,
}

/// The measured width of each rating's text, in thousandths of a pixel. The
/// width of an entry that is not shown is not read.
#[derive(Debug, Clone, Copy, PartialEq, Eq, Structural)]
pub struct RatingWidths {
    pub es: u32,
    pub nor: u32,
    pub hard: u32,
    pub ex: u32,
    pub exp: u32,
}

impl RatingWidths {
    pub open spec fn spec_width(self, difficulty: Difficulty) -> u32 {
        match difficulty {
            Difficulty::Easy => self.es,
            Difficulty::Normal => self.nor,
            Difficulty::Hard => self.hard,
            Difficulty::Expert => self.ex,
            Difficulty::ExpertPlus => self.exp,
        }
    }

    /// The measured width of a difficulty's rating.
    #[verifier::when_used_as_spec(spec_width)]
    pub fn width(self, difficulty: Difficulty) -> (width: u32)
        ensures
            width == self.spec_width(difficulty),
    {
        match difficulty {
            Difficulty::Easy => self.es,
            Difficulty::Normal => self.nor,
            Difficulty::Hard => self.hard,
            Difficulty::Expert => self.ex,
            Difficulty::ExpertPlus => self.exp,
        }
    }
}

/// What the text of a card measures, in thousandths of a pixel: the height
/// of each paragraph once laid out, and the width of each run that is placed
/// by its width.
#[derive(Debug, Clone, Copy, PartialEq, Eq, Structural)]
pub struct CardMeasures {
    pub author_height: u32,
    pub title_height: u32,
    pub subtitle_height: u32,
    pub mapper_height: u32,
    pub id_width: u32,
    pub tempo_width: u32,
    pub duration_width: u32,
    pub ratings: RatingWidths,
}

pub const CARD_WIDTH: i32 = 900;

pub const CARD_HEIGHT: i32 = 300;

/// A subtitle is shown when there is one and it is not empty.
pub open spec fn shows_subtitle(sub_name: Option<String>) -> bool {
    match sub_name {
        Some(text) => text@.len() > 0,
        None => false,
    }
}

/// Tells whether a subtitle is shown.
pub fn has_subtitle(sub_name: &Option<String>) -> (shown: bool)
    ensures
        shown == shows_subtitle(*sub_name),
{
    match sub_name {
        Some(text) => !text.as_str().is_empty(),
        None => false,
    }
}

/// The cover of the first version; a map without versions has none.
pub fn first_cover_url(map: &MapInfo) -> (url: Result<&str, String>)
    ensures
        map.versions@.len() > 0 ==> url is Ok && url->Ok_0@ == map.versions@[0].cover_url@,
        map.versions@.len() == 0 ==> url is Err && url->Err_0@ == "No cover URL available"@,
{
    if map.versions.len() > 0 {
        Ok(map.versions[0].cover_url.as_str())
    } else {
        Err(String::from_str("No cover URL available"))
    }
}

/// The text that fills a slot of a card. Slots that a card does not have
/// are empty.
pub open spec fn card_text(map: MapInfo, ratings: RatingSet, slot: TextSlot) -> Seq<char> {
    match slot {
        TextSlot::SongAuthor => map.metadata.song_author_name@,
        TextSlot::SongName => map.metadata.song_name@,
        TextSlot::SongSubName => match map.metadata.song_sub_name {
            Some(text) => text@,
            None => Seq::empty(),
        },
        TextSlot::MappedBy => "Mapped by "@ + map.metadata.level_author_name@,
        TextSlot::MapId => map.id@,
        TextSlot::Bpm => tempo_text(map.metadata.bpm as int),
        TextSlot::Duration => duration_text(map.metadata.duration as int),
        TextSlot::Rating(difficulty) => match ratings.value(difficulty) {
            Some(text) => text,
            None => Seq::empty(),
        },
        _ => Seq::empty(),
    }
}

/// The text that fills a slot of a card.
pub fn card_slot_text(map: &MapInfo, ratings: &StarRating, slot: TextSlot) -> (text: String)
    ensures
        text@ == card_text(*map, ratings@, slot),
{
    match slot {
        TextSlot::SongAuthor => map.metadata.song_author_name.clone(),
        TextSlot::SongName => map.metadata.song_name.clone(),
        TextSlot::SongSubName => match &map.metadata.song_sub_name {
            Some(text) => text.clone(),
            None => String::new(),
        },
        TextSlot::MappedBy => {
            let mut text = String::from_str("Mapped by ");
            text.append(map.metadata.level_author_name.as_str());
            text
        },
        TextSlot::MapId => map.id.clone(),
        TextSlot::Bpm => format_tempo(map.metadata.bpm),
        TextSlot::Duration => format_duration(map.metadata.duration),
        TextSlot::Rating(difficulty) => match ratings.get(difficulty) {
            Some(text) => text.clone(),
            None => String::new(),
        },
        _ => String::new(),
    }
}

/// The rounded outline of the whole card.
pub open spec fn card_outline() -> RoundRect {
    RoundRect { rect: Rect { x: 0, y: 0, w: 900_000, h: 300_000 }, rx: 20_000, ry: 20_000 }
}

/// The veil that darkens the blurred backdrop.
pub open spec fn card_veil() -> DrawOp {
    DrawOp::RoundRect { shape: card_outline(), paint: Paint::fill(Color::argb(102, 0, 0, 0)) }
}

/// The blurred, darkened backdrop: the cover, scaled to fill the card and
/// blurred, under a veil of black at four tenths opacity.
pub open spec fn card_backdrop(cover: ImageSize) -> Seq<DrawOp> {
    seq![
        DrawOp::Image {
            image: ImageId::Cover,
            src: None,
            dst: cover_placement(900, 300, cover.width as int, cover.height as int),
            blur_sigma: 10_000,
        },
        card_veil(),
    ]
}

/// The start of a card: a transparent canvas clipped to the card's outline,
/// and the backdrop on it if one is wanted.
pub open spec fn card_frame(use_background: bool, cover: ImageSize) -> Seq<DrawOp> {
    let start = seq![
        DrawOp::Clear { color: Color::spec_transparent() },
        DrawOp::ClipRoundRect { shape: card_outline(), anti_alias: true },
    ];
    if use_background {
        start + card_backdrop(cover)
    } else {
        start
    }
}

/// The cover art in its rounded inset, and the panel behind the text.
pub open spec fn card_inset() -> Seq<DrawOp> {
    let inset = Rect { x: 20_000, y: 20_000, w: 260_000, h: 260_000 };
    seq![
        DrawOp::Save,
        DrawOp::ClipRoundRect {
            shape: RoundRect { rect: inset, rx: 10_000, ry: 10_000 },
            anti_alias: true,
        },
        DrawOp::Image { image: ImageId::Cover, src: None, dst: inset, blur_sigma: 0 },
        DrawOp::Restore,
        DrawOp::RoundRect {
            shape: RoundRect {
                rect: Rect { x: 300_000, y: 20_000, w: 580_000, h: 180_000 },
                rx: 10_000,
                ry: 10_000,
            },
            paint: Paint::fill(Color::argb(51, 0, 0, 0)),
        },
    ]
}

/// One line of the card's left column: white Torus Pro, at most 380 pixels
/// wide.
pub open spec fn card_line(slot: TextSlot, y: i64, size: i64, weight: FontWeight, line_height: u32) -> DrawOp {
    fallback_text(
        slot,
        320_000,
        y,
        FamilyChain::Torus,
        size,
        weight,
        Color::spec_white(),
        Some(380_000i64),
        line_height,
    )
}

/// The left column: artist, title, subtitle if shown, and mapper.
pub open spec fn card_titles(subtitle: bool, m: CardMeasures) -> Seq<DrawOp> {
    let head = seq![
        card_line(TextSlot::SongAuthor, 55_000, 24_000, FontWeight::Regular, m.author_height),
        card_line(TextSlot::SongName, 90_000, 30_000, FontWeight::Heavy, m.title_height),
    ];
    let foot = seq![
        card_line(TextSlot::MappedBy, 180_000, 20_000, FontWeight::SemiBold, m.mapper_height),
    ];
    if subtitle {
        head + seq![
            card_line(TextSlot::SongSubName, 125_000, 20_000, FontWeight::Medium, m.subtitle_height),
        ] + foot
    } else {
        head + foot
    }
}

/// The font of the right column.
pub open spec fn card_fact_font() -> FontPlan {
    font_plan("Torus Pro"@, 24_000, FontWeight::Regular, false)
}

/// A fact of the right column: its text ends at x = 830, and its icon
/// stands right of it.
pub open spec fn card_fact(slot: TextSlot, icon: Icon, baseline: i64, width: u32) -> Seq<DrawOp> {
    seq![
        DrawOp::Text {
            slot,
            x: (830_000 - width) as i64,
            y: baseline,
            font: card_fact_font(),
            color: TextColor::Solid(Color::spec_white()),
        },
        icon_op(icon, 840_000, (baseline - 21_000) as i64, 24_000),
    ]
}

/// The right column: map id, tempo and duration, each with its icon.
pub open spec fn card_facts(m: CardMeasures) -> Seq<DrawOp> {
    card_fact(TextSlot::MapId, Icon::Key, 55_000, m.id_width) + card_fact(
        TextSlot::Bpm,
        Icon::Metronome,
        85_000,
        m.tempo_width,
    ) + card_fact(TextSlot::Duration, Icon::Clock, 115_000, m.duration_width)
}

/// The font of a rating: smaller for a word than for a number.
pub open spec fn rating_font(kind: RatingKind) -> FontPlan {
    if kind == RatingKind::Sentinel {
        font_plan("Torus Pro"@, 20_000, FontWeight::Bold, false)
    } else {
        font_plan("Torus Pro"@, 28_000, FontWeight::Bold, false)
    }
}

/// The box of one difficulty at `x`: nothing for an entry that is not
/// shown; else a box in the difficulty's colour holding, centred, either the
/// word alone or the number with a star after it.
pub open spec fn rating_box(difficulty: Difficulty, kind: RatingKind, width: u32, x: int) -> Seq<DrawOp> {
    let frame = DrawOp::RoundRect {
        shape: RoundRect {
            rect: Rect { x: x as i64, y: 220_000, w: 107_000, h: 50_000 },
            rx: 10_000,
            ry: 10_000,
        },
        paint: Paint::fill(difficulty.spec_color()),
    };
    match kind {
        RatingKind::Absent => Seq::empty(),
        RatingKind::Sentinel => seq![
            frame,
            DrawOp::Text {
                slot: TextSlot::Rating(difficulty),
                x: (x + (107_000 - width) / 2) as i64,
                y: 252_000,
                font: rating_font(kind),
                color: TextColor::Solid(Color::spec_white()),
            },
        ],
        RatingKind::Numeric => {
            let start = x + (107_000 - (width + 18_000 + 4_000)) / 2;
            seq![
                frame,
                DrawOp::Text {
                    slot: TextSlot::Rating(difficulty),
                    x: start as i64,
                    y: 252_000,
                    font: rating_font(kind),
                    color: TextColor::Solid(Color::spec_white()),
                },
                star_op((start + width + 4_000 + 9_000) as i64, 244_000, 9_000, Color::spec_white()),
            ]
        },
    }
}

/// Where the next box starts: 118 pixels further if this one is shown.
pub open spec fn after_box(kind: RatingKind, x: int) -> int {
    if kind == RatingKind::Absent {
        x
    } else {
        x + 118_000
    }
}

/// The boxes of the difficulties from the `from`-th on, the first of them
/// at `x`: the box of that difficulty, then the boxes of those after it,
/// which start where that box ends.
pub open spec fn boxes_from(kinds: RatingKinds, widths: RatingWidths, from: int, x: int) -> Seq<DrawOp>
    decreases 5 - from,
{
    if from < 0 || from >= 5 {
        Seq::empty()
    } else {
        let difficulty = Difficulty::in_order(from);
        rating_box(difficulty, kinds.kind(difficulty), widths.width(difficulty), x) + boxes_from(
            kinds,
            widths,
            from + 1,
            after_box(kinds.kind(difficulty), x),
        )
    }
}

/// The row of difficulty boxes: one box for each entry that is shown, in the
/// order of the difficulties, from x = 300 rightwards without gaps for the
/// entries that are not shown.
pub open spec fn card_boxes(kinds: RatingKinds, widths: RatingWidths) -> Seq<DrawOp> {
    boxes_from(kinds, widths, 0, 300_000)
}

/// Two steps are the `index`-th step of the box of one difficulty at one
/// place, drawn with the widths `r1` and `r2`.
pub open spec fn steps_of_box(
    kinds: RatingKinds,
    r1: RatingWidths,
    r2: RatingWidths,
    s1: DrawOp,
    s2: DrawOp,
    difficulty: Difficulty,
    x: int,
    index: int,
) -> bool {
    let b1 = rating_box(difficulty, kinds.kind(difficulty), r1.width(difficulty), x);
    let b2 = rating_box(difficulty, kinds.kind(difficulty), r2.width(difficulty), x);
    &&& 0 <= index < b1.len()
    &&& b1.len() == b2.len()
    &&& s1 == b1[index]
    &&& s2 == b2[index]
}

/// A row of boxes is made of its boxes and of nothing else: every step of it
/// is a step of the box of one difficulty. Rows for the same entries have the
/// same number of steps whatever the measured widths are, and a step of one
/// is, in the other, the same step of the same box. So what holds of every
/// step of every box holds of every step of a row.
pub proof fn lemma_row_is_made_of_boxes(
    kinds: RatingKinds,
    r1: RatingWidths,
    r2: RatingWidths,
    from: int,
    x: int,
    at: int,
)
    requires
        0 <= from <= 5,
    ensures
        boxes_from(kinds, r1, from, x).len() == boxes_from(kinds, r2, from, x).len(),
        0 <= at < boxes_from(kinds, r1, from, x).len() ==> exists|d: Difficulty, bx: int, j: int|
            steps_of_box(
                kinds,
                r1,
                r2,
                boxes_from(kinds, r1, from, x)[at],
                boxes_from(kinds, r2, from, x)[at],
                d,
                bx,
                j,
            ),
    decreases 5 - from,
{
    if from < 5 {
        let d = Difficulty::in_order(from);
        let b1 = rating_box(d, kinds.kind(d), r1.width(d), x);
        let b2 = rating_box(d, kinds.kind(d), r2.width(d), x);
        let next = after_box(kinds.kind(d), x);
        let rest1 = boxes_from(kinds, r1, from + 1, next);
        let rest2 = boxes_from(kinds, r2, from + 1, next);
        lemma_box_steps(d, kinds.kind(d), r1.width(d), x);
        lemma_box_steps(d, kinds.kind(d), r2.width(d), x);
        lemma_row_is_made_of_boxes(kinds, r1, r2, from + 1, next, at - b1.len());
        assert(boxes_from(kinds, r1, from, x) == b1 + rest1);
        assert(boxes_from(kinds, r2, from, x) == b2 + rest2);
        if 0 <= at < b1.len() {
            assert((b1 + rest1)[at] == b1[at]);
            assert((b2 + rest2)[at] == b2[at]);
            assert(steps_of_box(kinds, r1, r2, (b1 + rest1)[at], (b2 + rest2)[at], d, x, at));
        } else if b1.len() <= at < (b1 + rest1).len() {
            let inner = at - b1.len();
            assert((b1 + rest1)[at] == rest1[inner]);
            assert((b2 + rest2)[at] == rest2[inner]);
            let (d2, bx, j) = choose|d2: Difficulty, bx: int, j: int|
                steps_of_box(kinds, r1, r2, rest1[inner], rest2[inner], d2, bx, j);
            assert(steps_of_box(kinds, r1, r2, (b1 + rest1)[at], (b2 + rest2)[at], d2, bx, j));
        }
    }
}

/// What holds of no step of any box holds of no step of a row.
proof fn lemma_row_is_free_of(kinds: RatingKinds, widths: RatingWidths, unwanted: spec_fn(DrawOp) -> bool)
    requires
        forall|d: Difficulty, x: int|
            free_of(#[trigger] rating_box(d, kinds.kind(d), widths.width(d), x), unwanted),
    ensures
        free_of(card_boxes(kinds, widths), unwanted),
{
    let row = card_boxes(kinds, widths);
    assert forall|at: int| 0 <= at < row.len() implies !unwanted(#[trigger] row[at]) by {
        lemma_row_is_made_of_boxes(kinds, widths, widths, 0, 300_000, at);
        let (d, bx, j) = choose|d: Difficulty, bx: int, j: int|
            steps_of_box(kinds, widths, widths, row[at], row[at], d, bx, j);
        assert(free_of(rating_box(d, kinds.kind(d), widths.width(d), bx), unwanted));
    }
}

/// The whole card, in drawing order.
pub open spec fn card_scene(
    subtitle: bool,
    kinds: RatingKinds,
    use_background: bool,
    cover: ImageSize,
    m: CardMeasures,
) -> Seq<DrawOp> {
    card_frame(use_background, cover) + card_inset() + card_titles(subtitle, m) + card_facts(m)
        + card_boxes(kinds, m.ratings)
}

/// A step of the backdrop: one that blurs, or the veil that darkens.
pub open spec fn backdrop_effect(op: DrawOp) -> bool {
    op.is_blurred() || op == card_veil()
}

/// A record of ratings in which every entry is missing or empty gives a card
/// without a single difficulty box: the row of boxes holds no drawing step,
/// and the card ends with its right column.
pub proof fn lemma_no_ratings_no_boxes(
    ratings: RatingSet,
    subtitle: bool,
    use_background: bool,
    cover: ImageSize,
    m: CardMeasures,
)
    requires
        forall|d: Difficulty|
            (#[trigger] ratings.value(d)) is None || ratings.value(d)->0.len() == 0,
    ensures
        card_boxes(ratings.kinds(), m.ratings) == Seq::<DrawOp>::empty(),
        card_scene(subtitle, ratings.kinds(), use_background, cover, m) == card_frame(
            use_background,
            cover,
        ) + card_inset() + card_titles(subtitle, m) + card_facts(m),
{
    let kinds = ratings.kinds();
    let row = card_boxes(kinds, m.ratings);
    assert forall|d: Difficulty| kinds.kind(d) == RatingKind::Absent by {
        assert(ratings.value(d) is None || ratings.value(d)->0.len() == 0);
    }
    if row.len() > 0 {
        lemma_row_is_made_of_boxes(kinds, m.ratings, m.ratings, 0, 300_000, 0);
        let (d, bx, j) = choose|d: Difficulty, bx: int, j: int|
            steps_of_box(kinds, m.ratings, m.ratings, row[0], row[0], d, bx, j);
        assert(rating_box(d, kinds.kind(d), m.ratings.width(d), bx).len() == 0);
    }
    assert(row =~= Seq::<DrawOp>::empty());
    let rest = card_frame(use_background, cover) + card_inset() + card_titles(subtitle, m)
        + card_facts(m);
    assert(rest + Seq::<DrawOp>::empty() =~= rest);
}

/// The row of boxes holds one box for each entry that is shown: two steps
/// for a word, three for a number with its star, none for an entry that is
/// not shown.
pub proof fn lemma_box_steps(difficulty: Difficulty, kind: RatingKind, width: u32, x: int)
    ensures
        rating_box(difficulty, kind, width, x).len() == match kind {
            RatingKind::Absent => 0nat,
            RatingKind::Sentinel => 2nat,
            RatingKind::Numeric => 3nat,
        },
        kind != RatingKind::Absent ==> rating_box(difficulty, kind, width, x)[0] is RoundRect,
{
}

proof fn lemma_box_is_plain(difficulty: Difficulty, kind: RatingKind, width: u32, x: int)
    ensures
        free_of(rating_box(difficulty, kind, width, x), |op: DrawOp| backdrop_effect(op)),
{
    let ops = rating_box(difficulty, kind, width, x);
    assert forall|i: int| 0 <= i < ops.len() implies !backdrop_effect(#[trigger] ops[i]) by {
        match kind {
            RatingKind::Absent => {},
            RatingKind::Sentinel => {
                assert(ops[0] != card_veil());
            },
            RatingKind::Numeric => {
                assert(ops[0] != card_veil());
            },
        }
    }
}

/// A card made without the backdrop holds no step that blurs and no veil
/// that darkens, whatever the map, its ratings and its cover are.
pub proof fn lemma_plain_card_has_no_backdrop(
    subtitle: bool,
    kinds: RatingKinds,
    cover: ImageSize,
    m: CardMeasures,
)
    ensures
        free_of(card_scene(subtitle, kinds, false, cover, m), |op: DrawOp| backdrop_effect(op)),
{
    let unwanted = |op: DrawOp| backdrop_effect(op);
    let frame = card_frame(false, cover);
    let inset = card_inset();
    let titles = card_titles(subtitle, m);
    let facts = card_facts(m);
    assert(free_of(frame, unwanted));
    assert(free_of(inset, unwanted)) by {
        assert(inset[4] != card_veil());
    }
    assert(free_of(titles, unwanted));
    assert(free_of(facts, unwanted));
    assert forall|d: Difficulty, x: int|
        free_of(#[trigger] rating_box(d, kinds.kind(d), m.ratings.width(d), x), unwanted) by {
        lemma_box_is_plain(d, kinds.kind(d), m.ratings.width(d), x);
    }
    lemma_row_is_free_of(kinds, m.ratings, unwanted);
    lemma_free_of_append(frame, inset, unwanted);
    lemma_free_of_append(frame + inset, titles, unwanted);
    lemma_free_of_append(frame + inset + titles, facts, unwanted);
    lemma_free_of_append(frame + inset + titles + facts, card_boxes(kinds, m.ratings), unwanted);
}

/// A line of text that is not held to one line of 380 pixels, cut with an
/// ellipsis where it does not fit.
pub open spec fn unbounded_line(op: DrawOp) -> bool {
    match op {
        DrawOp::Paragraph { style, .. } => style.max_width != Some(380_000i64),
        _ => false,
    }
}

/// Every paragraph of a card is held to one line of 380 pixels and cut with
/// an ellipsis where it does not fit, whatever the map says.
pub proof fn lemma_card_lines_are_bounded(
    subtitle: bool,
    kinds: RatingKinds,
    use_background: bool,
    cover: ImageSize,
    m: CardMeasures,
)
    ensures
        free_of(card_scene(subtitle, kinds, use_background, cover, m), |op: DrawOp| unbounded_line(op)),
{
    let unwanted = |op: DrawOp| unbounded_line(op);
    let frame = card_frame(use_background, cover);
    let inset = card_inset();
    let titles = card_titles(subtitle, m);
    let facts = card_facts(m);
    assert(free_of(frame, unwanted));
    assert(free_of(inset, unwanted));
    assert(free_of(titles, unwanted));
    assert(free_of(facts, unwanted));
    assert forall|d: Difficulty, x: int|
        free_of(#[trigger] rating_box(d, kinds.kind(d), m.ratings.width(d), x), unwanted) by {}
    lemma_row_is_free_of(kinds, m.ratings, unwanted);
    lemma_free_of_append(frame, inset, unwanted);
    lemma_free_of_append(frame + inset, titles, unwanted);
    lemma_free_of_append(frame + inset + titles, facts, unwanted);
    lemma_free_of_append(frame + inset + titles + facts, card_boxes(kinds, m.ratings), unwanted);
}

/// The title of a card is its second line, set in heavy Torus Pro at 30
/// points.
pub proof fn lemma_card_title_line(subtitle: bool, m: CardMeasures)
    ensures
        card_titles(subtitle, m)[1] == card_line(
            TextSlot::SongName,
            90_000,
            30_000,
            FontWeight::Heavy,
            m.title_height,
        ),
        card_titles(subtitle, m)[1] is Paragraph,
        card_titles(subtitle, m)[1]->Paragraph_style.max_width == Some(380_000i64),
{
}

/// A card made with the backdrop draws it right after the clip: the blurred
/// cover first, the veil over it.
pub proof fn lemma_backdrop_comes_first(
    subtitle: bool,
    kinds: RatingKinds,
    cover: ImageSize,
    m: CardMeasures,
)
    ensures
        card_scene(subtitle, kinds, true, cover, m).len() >= 4,
        card_scene(subtitle, kinds, true, cover, m)[2].is_blurred(),
        card_scene(subtitle, kinds, true, cover, m)[3] == card_veil(),
{
    let frame = card_frame(true, cover);
    assert(frame.len() == 4);
    let rest = card_inset() + card_titles(subtitle, m) + card_facts(m) + card_boxes(kinds, m.ratings);
    vstd::seq_lib::lemma_concat_associative(frame, card_inset(), card_titles(subtitle, m));
    vstd::seq_lib::lemma_concat_associative(frame, card_inset() + card_titles(subtitle, m), card_facts(m));
    vstd::seq_lib::lemma_concat_associative(
        frame,
        card_inset() + card_titles(subtitle, m) + card_facts(m),
        card_boxes(kinds, m.ratings),
    );
    assert(card_scene(subtitle, kinds, true, cover, m) == frame + rest);
    assert((frame + rest)[2] == frame[2]);
    assert((frame + rest)[3] == frame[3]);
}

proof fn lemma_box_looks_the_same(difficulty: Difficulty, kind: RatingKind, w1: u32, w2: u32, x: int)
    ensures
        same_look(rating_box(difficulty, kind, w1, x), rating_box(difficulty, kind, w2, x)),
{
}

proof fn lemma_boxes_look_the_same(kinds: RatingKinds, r1: RatingWidths, r2: RatingWidths)
    ensures
        same_look(card_boxes(kinds, r1), card_boxes(kinds, r2)),
{
    let row1 = card_boxes(kinds, r1);
    let row2 = card_boxes(kinds, r2);
    lemma_row_is_made_of_boxes(kinds, r1, r2, 0, 300_000, 0);
    assert forall|at: int| 0 <= at < row1.len() implies (#[trigger] row1[at]).unplaced()
        == row2[at].unplaced() by {
        lemma_row_is_made_of_boxes(kinds, r1, r2, 0, 300_000, at);
        let (d, bx, j) = choose|d: Difficulty, bx: int, j: int|
            steps_of_box(kinds, r1, r2, row1[at], row2[at], d, bx, j);
        lemma_box_looks_the_same(d, kinds.kind(d), r1.width(d), r2.width(d), bx);
    }
}

proof fn lemma_columns_look_the_same(subtitle: bool, m1: CardMeasures, m2: CardMeasures)
    ensures
        same_look(card_titles(subtitle, m1), card_titles(subtitle, m2)),
        same_look(card_facts(m1), card_facts(m2)),
{
}

/// The measures of a card's text only move things: whatever they are, the
/// card has the same steps, its text is set in the same fonts and styles,
/// and only where text and stars are placed depends on them. So a card
/// composed with any measures tells which text is to be measured in which
/// font.
pub proof fn lemma_measures_only_move(
    subtitle: bool,
    kinds: RatingKinds,
    use_background: bool,
    cover: ImageSize,
    m1: CardMeasures,
    m2: CardMeasures,
)
    ensures
        same_look(
            card_scene(subtitle, kinds, use_background, cover, m1),
            card_scene(subtitle, kinds, use_background, cover, m2),
        ),
{
    let start = card_frame(use_background, cover) + card_inset();
    let t1 = card_titles(subtitle, m1);
    let t2 = card_titles(subtitle, m2);
    let f1 = card_facts(m1);
    let f2 = card_facts(m2);
    let b1 = card_boxes(kinds, m1.ratings);
    let b2 = card_boxes(kinds, m2.ratings);
    assert(same_look(start, start));
    lemma_columns_look_the_same(subtitle, m1, m2);
    lemma_boxes_look_the_same(kinds, m1.ratings, m2.ratings);
    lemma_same_look_append(start, t1, start, t2);
    lemma_same_look_append(start + t1, f1, start + t2, f2);
    lemma_same_look_append(start + t1 + f1, b1, start + t2 + f2, b2);
}

/// The font that the right column is set and measured in.
pub fn fact_font() -> (font: FontPlan)
    ensures
        font == card_fact_font(),
{
    load_font("Torus Pro", 24_000, FontStyle::normal())
}

/// The font that a rating of a kind is set and measured in.
pub fn font_for_rating(kind: RatingKind) -> (font: FontPlan)
    ensures
        font == rating_font(kind),
{
    match kind {
        RatingKind::Sentinel => load_font("Torus Pro", 20_000, FontStyle::bold()),
        _ => load_font("Torus Pro", 28_000, FontStyle::bold()),
    }
}

fn push_frame(ops: &mut Vec<DrawOp>, use_background: bool, cover: ImageSize)
    ensures
        final(ops)@ == old(ops)@ + card_frame(use_background, cover),
{
    let outline = RoundRect::new_rect_xy(Rect::from_xywh(0, 0, 900_000, 300_000), 20_000, 20_000);
    ops.push(DrawOp::Clear { color: Color::transparent() });
    ops.push(DrawOp::ClipRoundRect { shape: outline, anti_alias: true });
    if use_background {
        ops.push(
            DrawOp::Image {
                image: ImageId::Cover,
                src: None,
                dst: place_to_cover(900, 300, cover),
                blur_sigma: 10_000,
            },
        );
        ops.push(
            DrawOp::RoundRect { shape: outline, paint: Paint::filled(Color::from_argb(102, 0, 0, 0)) },
        );
    }
    assert(ops@ =~= old(ops)@ + card_frame(use_background, cover));
}

fn push_inset(ops: &mut Vec<DrawOp>)
    ensures
        final(ops)@ == old(ops)@ + card_inset(),
{
    let inset = Rect::from_xywh(20_000, 20_000, 260_000, 260_000);
    ops.push(DrawOp::Save);
    ops.push(
        DrawOp::ClipRoundRect { shape: RoundRect::new_rect_xy(inset, 10_000, 10_000), anti_alias: true },
    );
    ops.push(DrawOp::Image { image: ImageId::Cover, src: None, dst: inset, blur_sigma: 0 });
    ops.push(DrawOp::Restore);
    ops.push(
        DrawOp::RoundRect {
            shape: RoundRect::new_rect_xy(
                Rect::from_xywh(300_000, 20_000, 580_000, 180_000),
                10_000,
                10_000,
            ),
            paint: Paint::filled(Color::from_argb(51, 0, 0, 0)),
        },
    );
    assert(ops@ =~= old(ops)@ + card_inset());
}

fn line(slot: TextSlot, y: i64, size: i64, weight: FontWeight, line_height: u32) -> (op: DrawOp)
    requires
        0 <= y <= 300_000,
        0 <= size <= 100_000,
    ensures
        op == card_line(slot, y, size, weight, line_height),
{
    draw_text_with_fallback(
        slot,
        320_000,
        y,
        FamilyChain::Torus,
        size,
        weight,
        Color::white(),
        Some(380_000),
        line_height,
    )
}

fn push_titles(ops: &mut Vec<DrawOp>, subtitle: bool, m: &CardMeasures)
    ensures
        final(ops)@ == old(ops)@ + card_titles(subtitle, *m),
{
    ops.push(line(TextSlot::SongAuthor, 55_000, 24_000, FontWeight::Regular, m.author_height));
    ops.push(line(TextSlot::SongName, 90_000, 30_000, FontWeight::Heavy, m.title_height));
    if subtitle {
        ops.push(line(TextSlot::SongSubName, 125_000, 20_000, FontWeight::Medium, m.subtitle_height));
    }
    ops.push(line(TextSlot::MappedBy, 180_000, 20_000, FontWeight::SemiBold, m.mapper_height));
    assert(ops@ =~= old(ops)@ + card_titles(subtitle, *m));
}

fn push_fact(ops: &mut Vec<DrawOp>, slot: TextSlot, icon: Icon, baseline: i64, width: u32)
    requires
        0 <= baseline <= 300_000,
    ensures
        final(ops)@ == old(ops)@ + card_fact(slot, icon, baseline, width),
{
    let reach: i64 = width as i64;
    ops.push(
        DrawOp::Text {
            slot,
            x: 830_000 - reach,
            y: baseline,
            font: fact_font(),
            color: TextColor::Solid(Color::white()),
        },
    );
    ops.push(draw_svg_icon(icon, 840_000, baseline - 21_000, 24_000));
    assert(ops@ =~= old(ops)@ + card_fact(slot, icon, baseline, width));
}

fn push_facts(ops: &mut Vec<DrawOp>, m: &CardMeasures)
    ensures
        final(ops)@ == old(ops)@ + card_facts(*m),
{
    push_fact(ops, TextSlot::MapId, Icon::Key, 55_000, m.id_width);
    push_fact(ops, TextSlot::Bpm, Icon::Metronome, 85_000, m.tempo_width);
    push_fact(ops, TextSlot::Duration, Icon::Clock, 115_000, m.duration_width);
    assert(ops@ =~= old(ops)@ + card_facts(*m));
}

fn push_box(ops: &mut Vec<DrawOp>, difficulty: Difficulty, kind: RatingKind, width: u32, x: i64) -> (next: i64)
    requires
        0 <= x <= 1_000_000,
    ensures
        final(ops)@ == old(ops)@ + rating_box(difficulty, kind, width, x as int),
        next == after_box(kind, x as int),
{
    let reach: i64 = width as i64;
    match kind {
        RatingKind::Absent => {
            assert(ops@ =~= old(ops)@ + rating_box(difficulty, kind, width, x as int));
            x
        },
        RatingKind::Sentinel => {
            ops.push(
                DrawOp::RoundRect {
                    shape: RoundRect::new_rect_xy(Rect::from_xywh(x, 220_000, 107_000, 50_000), 10_000, 10_000),
                    paint: Paint::filled(difficulty.color()),
                },
            );
            ops.push(
                DrawOp::Text {
                    slot: TextSlot::Rating(difficulty),
                    x: x + crate::fixed::half(107_000 - reach),
                    y: 252_000,
                    font: font_for_rating(kind),
                    color: TextColor::Solid(Color::white()),
                },
            );
            assert(ops@ =~= old(ops)@ + rating_box(difficulty, kind, width, x as int));
            x + 118_000
        },
        RatingKind::Numeric => {
            let start: i64 = x + crate::fixed::half(107_000 - (reach + 18_000 + 4_000));
            ops.push(
                DrawOp::RoundRect {
                    shape: RoundRect::new_rect_xy(Rect::from_xywh(x, 220_000, 107_000, 50_000), 10_000, 10_000),
                    paint: Paint::filled(difficulty.color()),
                },
            );
            ops.push(
                DrawOp::Text {
                    slot: TextSlot::Rating(difficulty),
                    x: start,
                    y: 252_000,
                    font: font_for_rating(kind),
                    color: TextColor::Solid(Color::white()),
                },
            );
            ops.push(draw_star(start + reach + 4_000 + 9_000, 244_000, 9_000, Color::white()));
            assert(ops@ =~= old(ops)@ + rating_box(difficulty, kind, width, x as int));
            x + 118_000
        },
    }
}

fn push_boxes(ops: &mut Vec<DrawOp>, kinds: RatingKinds, widths: &RatingWidths)
    ensures
        final(ops)@ == old(ops)@ + card_boxes(kinds, *widths),
{
    let mut from: usize = 0;
    let mut x: i64 = 300_000;
    while from < 5
        invariant
            from <= 5,
            300_000 <= x <= 300_000 + 118_000 * from,
            ops@ + boxes_from(kinds, *widths, from as int, x as int) == old(ops)@ + card_boxes(
                kinds,
                *widths,
            ),
        decreases 5 - from,
    {
        let difficulty = Difficulty::at(from);
        let kind = kinds.kind(difficulty);
        let width = widths.width(difficulty);
        let ghost before = ops@;
        let next = push_box(ops, difficulty, kind, width, x);
        proof {
            vstd::seq_lib::lemma_concat_associative(
                before,
                rating_box(difficulty, kind, width, x as int),
                boxes_from(kinds, *widths, from + 1, next as int),
            );
        }
        x = next;
        from += 1;
    }
    assert(ops@ + Seq::<DrawOp>::empty() =~= ops@);
}

/// Composes the card of a map: 900 x 300 pixels, the backdrop only if
/// `use_background` is set, a box for each rating that is shown.
pub fn render_card(
    map: &MapInfo,
    ratings: &StarRating,
    use_background: bool,
    cover: ImageSize,
    measures: &CardMeasures,
) -> (scene: Scene)
    ensures
        scene.width == CARD_WIDTH,
        scene.height == CARD_HEIGHT,
        scene.ops@ == card_scene(
            shows_subtitle(map.metadata.song_sub_name),
            ratings@.kinds(),
            use_background,
            cover,
            *measures,
        ),
{
    let mut ops: Vec<DrawOp> = Vec::new();
    push_frame(&mut ops, use_background, cover);
    push_inset(&mut ops);
    push_titles(&mut ops, has_subtitle(&map.metadata.song_sub_name), measures);
    push_facts(&mut ops, measures);
    push_boxes(&mut ops, ratings.kinds(), &measures.ratings);
    proof {
        let frame = card_frame(use_background, cover);
        assert(Seq::<DrawOp>::empty() + frame =~= frame);
    }
    Scene { width: CARD_WIDTH, height: CARD_HEIGHT, ops }
}

} // verus!
