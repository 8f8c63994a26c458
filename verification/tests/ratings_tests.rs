use image_gen::decimal::{parse_decimal, rating_change, RatingChange};
use image_gen::ratings::{
    classify, get_difficulty_color, get_difficulty_name, get_new_rating, get_rating, Difficulty,
    NewStarRatings, OldStarRatings, RatingKind, RatingKinds, SsrmStarRating, StarRating,
};
use image_gen::scene::Color;

fn text(s: &str) -> Option<String> {
    Some(s.to_string())
}

fn change(old: Option<&str>, new: Option<&str>) -> RatingChange {
    let old = old.map(|s| s.to_string());
    let new = new.map(|s| s.to_string());
    rating_change(old.as_ref(), new.as_ref())
}

#[test]
fn keys_name_difficulties() {
    assert_eq!(Difficulty::from_key("ES"), Some(Difficulty::Easy));
    assert_eq!(Difficulty::from_key("NOR"), Some(Difficulty::Normal));
    assert_eq!(Difficulty::from_key("HARD"), Some(Difficulty::Hard));
    assert_eq!(Difficulty::from_key("EX"), Some(Difficulty::Expert));
    assert_eq!(Difficulty::from_key("EXP"), Some(Difficulty::ExpertPlus));
    assert_eq!(Difficulty::from_key("es"), None);
    assert_eq!(Difficulty::from_key("EXPERT"), None);
    assert_eq!(Difficulty::from_key(""), None);
    for d in [Difficulty::Easy, Difficulty::Normal, Difficulty::Hard, Difficulty::Expert,
        Difficulty::ExpertPlus]
    {
        assert_eq!(Difficulty::from_key(d.key()), Some(d));
    }
}

#[test]
fn difficulty_names() {
    assert_eq!(get_difficulty_name("ES"), "Easy");
    assert_eq!(get_difficulty_name("NOR"), "Normal");
    assert_eq!(get_difficulty_name("HARD"), "Hard");
    assert_eq!(get_difficulty_name("EX"), "Expert");
    assert_eq!(get_difficulty_name("EXP"), "Expert+");
    assert_eq!(get_difficulty_name("Lawless"), "");
}

#[test]
fn difficulty_colors() {
    assert_eq!(get_difficulty_color("ES"), Color { a: 255, r: 22, g: 163, b: 74 });
    assert_eq!(get_difficulty_color("NOR"), Color { a: 255, r: 59, g: 130, b: 246 });
    assert_eq!(get_difficulty_color("HARD"), Color { a: 255, r: 249, g: 115, b: 22 });
    assert_eq!(get_difficulty_color("EX"), Color { a: 255, r: 220, g: 38, b: 38 });
    assert_eq!(get_difficulty_color("EXP"), Color { a: 255, r: 126, g: 34, b: 206 });
    assert_eq!(get_difficulty_color("?"), Color { a: 255, r: 0x88, g: 0x88, b: 0x88 });
}

#[test]
fn ratings_are_found_by_key() {
    let old = OldStarRatings { es: text("1.5"), nor: None, hard: text("5.2"), ex: text(""), exp: text("11") };
    assert_eq!(get_rating(&old, "ES"), Some(&"1.5".to_string()));
    assert_eq!(get_rating(&old, "NOR"), None);
    assert_eq!(get_rating(&old, "HARD"), Some(&"5.2".to_string()));
    assert_eq!(get_rating(&old, "EX"), Some(&"".to_string()));
    assert_eq!(get_rating(&old, "EXP"), Some(&"11".to_string()));
    assert_eq!(get_rating(&old, "hard"), None);
    let new = NewStarRatings { es: None, nor: text("2"), hard: text("6.8"), ex: None, exp: None };
    assert_eq!(get_new_rating(&new, "HARD"), Some(&"6.8".to_string()));
    assert_eq!(get_new_rating(&new, "NOR"), Some(&"2".to_string()));
    assert_eq!(get_new_rating(&new, "ES"), None);
    assert_eq!(get_new_rating(&new, "unknown"), None);
}

#[test]
fn entries_by_difficulty() {
    let r = SsrmStarRating { es: text("a"), nor: text("b"), hard: text("c"), ex: text("d"), exp: text("e") };
    assert_eq!(r.get(Difficulty::Easy), Some(&"a".to_string()));
    assert_eq!(r.get(Difficulty::Normal), Some(&"b".to_string()));
    assert_eq!(r.get(Difficulty::Hard), Some(&"c".to_string()));
    assert_eq!(r.get(Difficulty::Expert), Some(&"d".to_string()));
    assert_eq!(r.get(Difficulty::ExpertPlus), Some(&"e".to_string()));
}

#[test]
fn kinds_of_entries() {
    assert_eq!(classify(None), RatingKind::Absent);
    assert_eq!(classify(Some(&"".to_string())), RatingKind::Absent);
    assert_eq!(classify(Some(&"Unranked".to_string())), RatingKind::Sentinel);
    assert_eq!(classify(Some(&"Qualified".to_string())), RatingKind::Sentinel);
    assert_eq!(classify(Some(&"unranked".to_string())), RatingKind::Numeric);
    assert_eq!(classify(Some(&"5.2".to_string())), RatingKind::Numeric);
    let r = StarRating { es: text("5.2"), nor: None, hard: text(""), ex: text("Unranked"), exp: text("12.34") };
    assert_eq!(
        r.kinds(),
        RatingKinds {
            es: RatingKind::Numeric,
            nor: RatingKind::Absent,
            hard: RatingKind::Absent,
            ex: RatingKind::Sentinel,
            exp: RatingKind::Numeric,
        }
    );
    assert_eq!(r.kinds().kind(Difficulty::Expert), RatingKind::Sentinel);
}

#[test]
fn numerals_are_taken_apart() {
    let d = parse_decimal("-12.50").unwrap();
    assert!(d.negative);
    assert_eq!(d.whole, vec!['1', '2']);
    assert_eq!(d.fraction, vec!['5', '0']);
    let d = parse_decimal("+7").unwrap();
    assert!(!d.negative);
    assert_eq!(d.whole, vec!['7']);
    assert!(d.fraction.is_empty());
    let d = parse_decimal(".5").unwrap();
    assert!(d.whole.is_empty());
    assert_eq!(d.fraction, vec!['5']);
    let d = parse_decimal("5.").unwrap();
    assert_eq!(d.whole, vec!['5']);
    assert!(d.fraction.is_empty());
}

#[test]
fn what_is_no_numeral() {
    for s in ["", "+", "-", ".", "+.", "1.2.3", "1e5", "abc", " 5", "5 ", "--5", "5-", "Unranked",
        "inf", "NaN", "1,5", "\u{664}"]
    {
        assert!(parse_decimal(s).is_none(), "{:?}", s);
    }
}

#[test]
fn higher_new_rating_is_a_buff() {
    assert_eq!(change(Some("5.2"), Some("6.8")), RatingChange::Buff);
}

#[test]
fn lower_new_rating_is_a_nerf() {
    assert_eq!(change(Some("6.8"), Some("5.2")), RatingChange::Nerf);
}

#[test]
fn equal_ratings_are_no_change() {
    assert_eq!(change(Some("5.2"), Some("5.2")), RatingChange::Same);
    assert_eq!(change(Some("5.20"), Some("5.2")), RatingChange::Same);
    assert_eq!(change(Some("05.2"), Some("5.2000")), RatingChange::Same);
    assert_eq!(change(Some("0"), Some("-0.0")), RatingChange::Same);
    assert_eq!(change(Some("5"), Some("5.")), RatingChange::Same);
    assert_eq!(change(Some(".5"), Some("0.5")), RatingChange::Same);
}

#[test]
fn ratings_of_different_lengths() {
    assert_eq!(change(Some("9.99"), Some("10")), RatingChange::Buff);
    assert_eq!(change(Some("10"), Some("9.99")), RatingChange::Nerf);
    assert_eq!(change(Some("5.2"), Some("5.21")), RatingChange::Buff);
    assert_eq!(change(Some("5.21"), Some("5.2")), RatingChange::Nerf);
    assert_eq!(change(Some("0.09"), Some("0.1")), RatingChange::Buff);
    assert_eq!(change(Some("12345678901234567890123456789.1"), Some("12345678901234567890123456789.2")), RatingChange::Buff);
    assert_eq!(change(Some("5.20000000000000000000000001"), Some("5.2")), RatingChange::Nerf);
}

#[test]
fn negative_ratings() {
    assert_eq!(change(Some("-1"), Some("1")), RatingChange::Buff);
    assert_eq!(change(Some("1"), Some("-1")), RatingChange::Nerf);
    assert_eq!(change(Some("-2"), Some("-1")), RatingChange::Buff);
    assert_eq!(change(Some("-1"), Some("-2")), RatingChange::Nerf);
    assert_eq!(change(Some("-1.5"), Some("-1.50")), RatingChange::Same);
    assert_eq!(change(Some("-0"), Some("0.1")), RatingChange::Buff);
    assert_eq!(change(Some("0.1"), Some("-0")), RatingChange::Nerf);
}

#[test]
fn missing_and_wordy_ratings_count_as_zero() {
    assert_eq!(change(None, None), RatingChange::Same);
    assert_eq!(change(None, Some("5")), RatingChange::Buff);
    assert_eq!(change(Some("5"), None), RatingChange::Nerf);
    assert_eq!(change(Some("Unranked"), Some("5")), RatingChange::Buff);
    assert_eq!(change(Some("5"), Some("Qualified")), RatingChange::Nerf);
    assert_eq!(change(Some("Unranked"), Some("Qualified")), RatingChange::Same);
    assert_eq!(change(Some(""), Some("0")), RatingChange::Same);
    assert_eq!(change(Some("x"), Some("-3")), RatingChange::Nerf);
}

#[test]
fn change_agrees_with_float_comparison_on_ratings() {
    let values = ["0", "0.5", "1", "2.75", "5.2", "6.8", "9.99", "10", "12.34", "13.0"];
    for a in values {
        for b in values {
            let (x, y): (f32, f32) = (a.parse().unwrap(), b.parse().unwrap());
            let expected = if y > x {
                RatingChange::Buff
            } else if y < x {
                RatingChange::Nerf
            } else {
                RatingChange::Same
            };
            assert_eq!(change(Some(a), Some(b)), expected, "{} -> {}", a, b);
        }
    }
}

#[test]
fn difficulties_in_layout_order() {
    assert_eq!(Difficulty::at(0), Difficulty::Easy);
    assert_eq!(Difficulty::at(1), Difficulty::Normal);
    assert_eq!(Difficulty::at(2), Difficulty::Hard);
    assert_eq!(Difficulty::at(3), Difficulty::Expert);
    assert_eq!(Difficulty::at(4), Difficulty::ExpertPlus);
    assert_eq!(Difficulty::at(5), Difficulty::ExpertPlus);
    assert_eq!(Difficulty::at(usize::MAX), Difficulty::ExpertPlus);
}
