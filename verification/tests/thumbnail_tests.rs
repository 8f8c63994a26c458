use image_gen::batch_thumbnail::{render_batch_thumbnail, BackgroundTransform};
use image_gen::fonts::{FontAsset, FontPlan, FontWeight};
use image_gen::geometry::{CropDimensions, ImageSize};
use image_gen::playlist_thumbnail::{render_playlist_thumbnail, PlaylistBackgroundTransform};
use image_gen::scene::{
    Color, DrawOp, FamilyChain, ImageId, Paint, Rect, RoundRect, TextColor, TextSlot,
};
use image_gen::ssrm_thumbnail::{
    background_or_cover, chosen_rating, label_font, render_ssrm_thumbnail, ssrm_cover_url,
    ssrm_slot_text, SsrmMapInfo, SsrmMapMetadata, SsrmMapVersion, SsrmMeasures,
};
use image_gen::ratings::SsrmStarRating;

const WHITE: Color = Color { a: 255, r: 255, g: 255, b: 255 };

fn logo() -> Result<ImageSize, String> {
    Ok(ImageSize { width: 1538, height: 262 })
}

fn aller(size: i64, weight: FontWeight, italic: bool) -> FontPlan {
    FontPlan { embedded: Some(FontAsset::AllerItalic), size, weight, italic }
}

#[test]
fn playlist_thumbnail_of_a_landscape_photo() {
    let scene = render_playlist_thumbnail(ImageSize { width: 1024, height: 768 }, None, logo(), 200_000).unwrap();
    assert_eq!((scene.width, scene.height), (512, 512));
    let font = aller(54_000, FontWeight::Regular, true);
    assert_eq!(image_gen::playlist_thumbnail::title_font(), font);
    assert_eq!(
        scene.ops,
        vec![
            DrawOp::Save,
            DrawOp::Image {
                image: ImageId::Background,
                src: Some(CropDimensions { sx: 256, sy: 0, sw: 1536, sh: 1536, den: 2 }),
                dst: Rect { x: 0, y: 0, w: 512_000, h: 512_000 },
                blur_sigma: 0,
            },
            DrawOp::Restore,
            DrawOp::Image {
                image: ImageId::Logo,
                src: None,
                dst: Rect { x: 25_300, y: 50_000, w: 461_400, h: 78_600 },
                blur_sigma: 0,
            },
            DrawOp::Text { slot: TextSlot::Month, x: 158_000, y: 462_000, font, color: TextColor::Shadow },
            DrawOp::Text { slot: TextSlot::Month, x: 156_000, y: 460_000, font, color: TextColor::Solid(WHITE) },
        ]
    );
    match scene.ops[1] {
        DrawOp::Image { src: Some(c), .. } => {
            assert_eq!((c.sx / c.den, c.sy / c.den, c.sw / c.den, c.sh / c.den), (128, 0, 768, 768));
        },
        _ => panic!("no background"),
    }
}

#[test]
fn playlist_thumbnail_with_a_transform() {
    let t = PlaylistBackgroundTransform { scale: Some(1_500), x: None, y: Some(-20_000) };
    let scene = render_playlist_thumbnail(ImageSize { width: 10, height: 40 }, Some(t), logo(), 0).unwrap();
    assert_eq!(
        &scene.ops[..5],
        &[
            DrawOp::Save,
            DrawOp::Translate { dx: 0, dy: -20_000 },
            DrawOp::Scale { factor: 1_500 },
            DrawOp::Image {
                image: ImageId::Background,
                src: Some(CropDimensions { sx: 0, sy: 30, sw: 20, sh: 20, den: 2 }),
                dst: Rect { x: 0, y: 0, w: 512_000, h: 512_000 },
                blur_sigma: 0,
            },
            DrawOp::Restore,
        ]
    );
    assert_eq!(scene.ops.len(), 8);
    assert_eq!(
        scene.ops[5],
        DrawOp::Image {
            image: ImageId::Logo,
            src: None,
            dst: Rect { x: 25_300, y: 50_000, w: 461_400, h: 78_600 },
            blur_sigma: 0,
        }
    );
}

#[test]
fn thumbnail_fails_with_the_logo() {
    let fault = "Failed to decode image: unsupported format".to_string();
    let size = ImageSize { width: 1024, height: 768 };
    let batch = render_batch_thumbnail(size, None, Err(fault.clone()), 100_000);
    assert_eq!(batch.unwrap_err(), fault);
    let t = BackgroundTransform { scale: Some(2_000), x: None, y: None };
    let batch = render_batch_thumbnail(size, Some(t), Err(String::new()), 0);
    assert_eq!(batch.unwrap_err(), "");
    let playlist = render_playlist_thumbnail(size, None, Err(fault.clone()), 100_000);
    assert_eq!(playlist.unwrap_err(), fault);
    let other = "Failed to create skia image from decoded data".to_string();
    let playlist = render_playlist_thumbnail(size, None, Err(other.clone()), 0);
    assert_eq!(playlist.unwrap_err(), other);
}

#[test]
fn thumbnail_with_its_logo_always_draws_it() {
    for size in [ImageSize { width: 1, height: 1 }, ImageSize { width: 4000, height: 10 }] {
        let batch = render_batch_thumbnail(size, None, logo(), 0).unwrap();
        let playlist = render_playlist_thumbnail(size, None, Ok(ImageSize { width: 3, height: 3 }), 0).unwrap();
        for scene in [batch, playlist] {
            let logos = scene.ops.iter().filter(|op| matches!(op, DrawOp::Image { image: ImageId::Logo, .. })).count();
            assert_eq!(logos, 1);
        }
    }
}

#[test]
fn empty_transform_leaves_the_background_as_it_is() {
    let t = BackgroundTransform { scale: None, x: None, y: None };
    let scene = render_batch_thumbnail(ImageSize { width: 1920, height: 1080 }, Some(t), logo(), 0).unwrap();
    assert_eq!(scene.ops[1], DrawOp::Translate { dx: 0, dy: 0 });
    assert_eq!(scene.ops[2], DrawOp::Scale { factor: 1_000 });
}

#[test]
fn batch_thumbnail() {
    let t = BackgroundTransform { scale: Some(2_000), x: Some(5_500), y: Some(7_000) };
    let scene = render_batch_thumbnail(ImageSize { width: 2000, height: 1000 }, Some(t), logo(), 700_001).unwrap();
    assert_eq!((scene.width, scene.height), (1920, 1080));
    let font = aller(130_000, FontWeight::Bold, false);
    assert_eq!(image_gen::batch_thumbnail::title_font(), font);
    assert_eq!(
        scene.ops,
        vec![
            DrawOp::Save,
            DrawOp::Translate { dx: 5_500, dy: 7_000 },
            DrawOp::Scale { factor: 2_000 },
            DrawOp::Image {
                image: ImageId::Background,
                src: Some(CropDimensions { sx: 2000, sy: 0, sw: 32000, sh: 18000, den: 18 }),
                dst: Rect { x: 0, y: 0, w: 1_920_000, h: 1_080_000 },
                blur_sigma: 0,
            },
            DrawOp::Restore,
            DrawOp::Image {
                image: ImageId::Logo,
                src: None,
                dst: Rect { x: 191_000, y: 100_000, w: 1_538_000, h: 262_000 },
                blur_sigma: 0,
            },
            // (1920000 - 700001) / 2 = 609999.5, rounded down
            DrawOp::Text { slot: TextSlot::Month, x: 612_999, y: 763_000, font, color: TextColor::Shadow },
            DrawOp::Text { slot: TextSlot::Month, x: 609_999, y: 760_000, font, color: TextColor::Solid(WHITE) },
        ]
    );
}

fn ssrm_map(sub: Option<&str>) -> SsrmMapInfo {
    SsrmMapInfo {
        metadata: SsrmMapMetadata {
            song_author_name: "Artist".to_string(),
            song_name: "Song".to_string(),
            song_sub_name: sub.map(|s| s.to_string()),
            level_author_name: "Mapper".to_string(),
        },
        versions: vec![SsrmMapVersion { cover_url: "cover.png".to_string() }],
    }
}

fn ssrm_measures() -> SsrmMeasures {
    SsrmMeasures { author_height: 60_000, title_height: 70_000, subtitle_height: 60_000, mapper_height: 50_000, label_width: 300_000 }
}

#[test]
fn video_thumbnail_layers() {
    let rating = "9.5".to_string();
    let scene = render_ssrm_thumbnail(
        &ssrm_map(None),
        "EXP",
        Some(&rating),
        ImageSize { width: 300, height: 200 },
        ImageSize { width: 1000, height: 1000 },
        &ssrm_measures(),
    );
    assert_eq!((scene.width, scene.height), (1920, 1080));
    let purple = Color { a: 255, r: 126, g: 34, b: 206 };
    let frame = RoundRect { rect: Rect { x: 20_000, y: 20_000, w: 1_880_000, h: 1_040_000 }, rx: 50_000, ry: 50_000 };
    let cover_frame = RoundRect { rect: Rect { x: 75_000, y: 495_000, w: 510_000, h: 510_000 }, rx: 50_000, ry: 50_000 };
    let canvas = Rect { x: 0, y: 0, w: 1_920_000, h: 1_080_000 };
    let outline = Paint { color: WHITE, anti_alias: false, stroke_width: 10_000, blur_sigma: 0 };
    assert_eq!(
        &scene.ops[..14],
        &[
            DrawOp::GradientRect { rect: canvas, from: Color { a: 255, r: 15, g: 8, b: 208 }, to: Color { a: 255, r: 155, g: 11, b: 57 } },
            DrawOp::Save,
            DrawOp::ClipRoundRect { shape: frame, anti_alias: true },
            DrawOp::Image {
                image: ImageId::Background,
                src: Some(CropDimensions { sx: 0, sy: 7000, sw: 32000, sh: 18000, den: 32 }),
                dst: canvas,
                blur_sigma: 10_000,
            },
            DrawOp::Restore,
            DrawOp::Save,
            DrawOp::RoundRect {
                shape: RoundRect { rect: Rect { x: 20_000, y: 20_000, w: 620_000, h: 1_040_000 }, rx: 50_000, ry: 50_000 },
                paint: Paint { color: Color { a: 255, r: 20, g: 20, b: 20 }, anti_alias: false, stroke_width: 0, blur_sigma: 0 },
            },
            DrawOp::Restore,
            DrawOp::Save,
            DrawOp::ClipRoundRect { shape: cover_frame, anti_alias: true },
            DrawOp::Image {
                image: ImageId::Cover,
                src: Some(CropDimensions { sx: 100, sy: 0, sw: 400, sh: 400, den: 2 }),
                dst: Rect { x: 75_000, y: 495_000, w: 510_000, h: 510_000 },
                blur_sigma: 0,
            },
            DrawOp::Restore,
            DrawOp::RoundRect { shape: cover_frame, paint: outline },
            DrawOp::RoundRect { shape: frame, paint: outline },
        ]
    );
    let font = FontPlan { embedded: Some(FontAsset::HeeboBold), size: 48_000, weight: FontWeight::Bold, italic: false };
    assert_eq!(label_font(), font);
    assert_eq!(
        &scene.ops[17..20],
        &[
            DrawOp::RoundRect {
                shape: RoundRect { rect: Rect { x: 75_000, y: 360_000, w: 510_000, h: 100_000 }, rx: 25_000, ry: 25_000 },
                paint: Paint { color: purple, anti_alias: false, stroke_width: 0, blur_sigma: 0 },
            },
            // 330000 - (300000 + 48000) / 2
            DrawOp::Text { slot: TextSlot::DifficultyLabel, x: 156_000, y: 425_000, font, color: TextColor::Solid(WHITE) },
            DrawOp::Star { cx: 156_000 + 300_000 + 28_000, cy: 410_000, outer: 20_000, inner: 8_000, color: WHITE },
        ]
    );
    let dots = &scene.ops[20..];
    assert_eq!(dots.len(), 17);
    for (i, dot) in dots.iter().enumerate() {
        assert_eq!(
            *dot,
            DrawOp::Circle {
                cx: 640_000,
                cy: 50_000 + 61_000 * i as i64,
                radius: 15_000,
                paint: Paint { color: purple, anti_alias: true, stroke_width: 0, blur_sigma: 0 },
            }
        );
    }
    assert_eq!(dots[16], DrawOp::Circle { cx: 640_000, cy: 1_026_000, radius: 15_000, paint: Paint { color: purple, anti_alias: true, stroke_width: 0, blur_sigma: 0 } });
}

#[test]
fn video_thumbnail_lines_are_cut_at_560_pixels() {
    let scene = render_ssrm_thumbnail(
        &ssrm_map(Some("Sub")),
        "ES",
        None,
        ImageSize { width: 1, height: 1 },
        ImageSize { width: 1, height: 1 },
        &ssrm_measures(),
    );
    let lines: Vec<(TextSlot, i64, i64, i64, FontWeight, FamilyChain, Option<i64>)> = scene
        .ops
        .iter()
        .filter_map(|op| match op {
            DrawOp::Paragraph { slot, x, top, style } => Some((*slot, *x, *top, style.size, style.weight, style.families, style.max_width)),
            _ => None,
        })
        .collect();
    assert_eq!(
        lines,
        vec![
            (TextSlot::SongAuthor, 50_000, 95_000 - 60_000 + 9_600, 48_000, FontWeight::Regular, FamilyChain::Heebo, Some(560_000)),
            (TextSlot::SongName, 50_000, 160_000 - 70_000 + 11_200, 56_000, FontWeight::Bold, FamilyChain::Heebo, Some(560_000)),
            (TextSlot::SongSubName, 50_000, 220_000 - 60_000 + 9_600, 48_000, FontWeight::Regular, FamilyChain::Heebo, Some(560_000)),
            (TextSlot::MappedBy, 50_000, 295_000 - 50_000 + 8_000, 40_000, FontWeight::Regular, FamilyChain::Heebo, Some(560_000)),
        ]
    );
}

#[test]
fn video_thumbnail_without_a_rating_has_no_box() {
    for rating in [None, Some(String::new())] {
        let scene = render_ssrm_thumbnail(
            &ssrm_map(None),
            "ES",
            rating.as_ref(),
            ImageSize { width: 1, height: 1 },
            ImageSize { width: 1, height: 1 },
            &ssrm_measures(),
        );
        assert_eq!(scene.ops.len(), 14 + 3 + 17);
        assert!(scene.ops.iter().all(|op| !matches!(op, DrawOp::Text { .. } | DrawOp::Star { .. })));
    }
}

#[test]
fn video_thumbnail_shows_a_word_without_a_star() {
    let rating = "Qualified".to_string();
    let scene = render_ssrm_thumbnail(
        &ssrm_map(None),
        "nothing",
        Some(&rating),
        ImageSize { width: 1, height: 1 },
        ImageSize { width: 1, height: 1 },
        &ssrm_measures(),
    );
    assert_eq!(scene.ops.len(), 14 + 3 + 2 + 17);
    assert!(scene.ops.iter().all(|op| !matches!(op, DrawOp::Star { .. })));
    match scene.ops[18] {
        DrawOp::Text { x, y, .. } => assert_eq!((x, y), (180_000, 425_000)),
        _ => panic!("no label"),
    }
    let gray = Color { a: 255, r: 0x88, g: 0x88, b: 0x88 };
    match scene.ops[17] {
        DrawOp::RoundRect { paint, .. } => assert_eq!(paint.color, gray),
        _ => panic!("no box"),
    }
}

#[test]
fn video_thumbnail_slots() {
    let m = ssrm_map(None);
    let rating = "9.5".to_string();
    assert_eq!(ssrm_slot_text(&m, "EXP", Some(&rating), TextSlot::DifficultyLabel), "Expert+ 9.5");
    assert_eq!(ssrm_slot_text(&m, "ES", Some(&rating), TextSlot::DifficultyLabel), "Easy 9.5");
    assert_eq!(ssrm_slot_text(&m, "other", Some(&rating), TextSlot::DifficultyLabel), " 9.5");
    assert_eq!(ssrm_slot_text(&m, "EXP", None, TextSlot::DifficultyLabel), "");
    assert_eq!(ssrm_slot_text(&m, "EXP", None, TextSlot::MappedBy), "Mapped by Mapper");
    assert_eq!(ssrm_slot_text(&m, "EXP", None, TextSlot::SongSubName), "");
    assert_eq!(ssrm_slot_text(&m, "EXP", None, TextSlot::SongAuthor), "Artist");
    assert_eq!(ssrm_slot_text(&m, "EXP", None, TextSlot::SongName), "Song");
    assert_eq!(ssrm_slot_text(&m, "EXP", None, TextSlot::MapId), "");
}

#[test]
fn video_thumbnail_inputs() {
    let mut m = ssrm_map(None);
    assert_eq!(ssrm_cover_url(&m), Ok("cover.png"));
    m.versions.clear();
    assert_eq!(ssrm_cover_url(&m), Err("No cover URL available".to_string()));
    let ratings = SsrmStarRating { es: None, nor: Some("2".to_string()), hard: None, ex: None, exp: Some("9".to_string()) };
    assert_eq!(chosen_rating(&ratings, "NOR"), Some(&"2".to_string()));
    assert_eq!(chosen_rating(&ratings, "EXP"), Some(&"9".to_string()));
    assert_eq!(chosen_rating(&ratings, "ES"), None);
    assert_eq!(chosen_rating(&ratings, "nor"), None);
    let cover = vec![1u8, 2, 3];
    assert_eq!(background_or_cover(Some(vec![9u8]), &cover), vec![9u8]);
    assert_eq!(background_or_cover(None, &cover), vec![1u8, 2, 3]);
}
