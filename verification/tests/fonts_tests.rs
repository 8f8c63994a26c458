use image_gen::fonts::{
    get_heebo_typeface, get_torus_typeface, load_custom_font, load_font, load_font_with_weight,
    match_embedded_family, EmbeddedFamily, FontAsset, FontCandidate, FontPlan, FontStyle,
    FontWeight, Slant, SystemFamily,
};

#[test]
fn weights_on_the_usual_scale() {
    assert_eq!(FontWeight::Thin.to_weight(), 100);
    assert_eq!(FontWeight::Light.to_weight(), 300);
    assert_eq!(FontWeight::Regular.to_weight(), 400);
    assert_eq!(FontWeight::Medium.to_weight(), 500);
    assert_eq!(FontWeight::SemiBold.to_weight(), 600);
    assert_eq!(FontWeight::Bold.to_weight(), 700);
    assert_eq!(FontWeight::Heavy.to_weight(), 800);
}

#[test]
fn raw_weights_fall_under_the_nearest_lighter_preset() {
    assert_eq!(FontWeight::from_value(100), FontWeight::Thin);
    assert_eq!(FontWeight::from_value(101), FontWeight::Thin);
    assert_eq!(FontWeight::from_value(200), FontWeight::Thin);
    assert_eq!(FontWeight::from_value(299), FontWeight::Thin);
    assert_eq!(FontWeight::from_value(300), FontWeight::Light);
    assert_eq!(FontWeight::from_value(399), FontWeight::Light);
    assert_eq!(FontWeight::from_value(400), FontWeight::Regular);
    assert_eq!(FontWeight::from_value(450), FontWeight::Regular);
    assert_eq!(FontWeight::from_value(500), FontWeight::Medium);
    assert_eq!(FontWeight::from_value(599), FontWeight::Medium);
    assert_eq!(FontWeight::from_value(600), FontWeight::SemiBold);
    assert_eq!(FontWeight::from_value(699), FontWeight::SemiBold);
    assert_eq!(FontWeight::from_value(700), FontWeight::Bold);
    assert_eq!(FontWeight::from_value(701), FontWeight::Bold);
    assert_eq!(FontWeight::from_value(799), FontWeight::Bold);
    assert_eq!(FontWeight::from_value(800), FontWeight::Heavy);
    assert_eq!(FontWeight::from_value(900), FontWeight::Heavy);
    assert_eq!(FontWeight::from_value(i32::MAX), FontWeight::Heavy);
}

#[test]
fn what_is_lighter_than_every_preset_is_thin() {
    assert_eq!(FontWeight::from_value(99), FontWeight::Thin);
    assert_eq!(FontWeight::from_value(0), FontWeight::Thin);
    assert_eq!(FontWeight::from_value(-5), FontWeight::Thin);
    assert_eq!(FontWeight::from_value(i32::MIN), FontWeight::Thin);
}

#[test]
fn weight_without_a_file_takes_the_nearest_lighter_file() {
    let size = 24_000;
    assert_eq!(
        load_font_with_weight("Torus Pro", size, 200),
        load_custom_font("Torus Pro", size, FontWeight::Thin, false)
    );
    assert_eq!(load_font_with_weight("Torus Pro", size, 200).embedded, Some(FontAsset::TorusThin));
    assert_eq!(
        load_font_with_weight("Torus Pro", size, 650),
        load_custom_font("Torus Pro", size, FontWeight::SemiBold, false)
    );
    assert_eq!(
        load_font_with_weight("Heebo", size, 799),
        load_custom_font("Heebo", size, FontWeight::Bold, false)
    );
}

#[test]
fn every_preset_is_its_own_bucket() {
    for w in [FontWeight::Thin, FontWeight::Light, FontWeight::Regular, FontWeight::Medium,
        FontWeight::SemiBold, FontWeight::Bold, FontWeight::Heavy]
    {
        assert_eq!(FontWeight::from_value(w.to_weight()), w);
    }
}

#[test]
fn torus_has_no_medium_cut() {
    assert_eq!(get_torus_typeface(FontWeight::Medium, false), FontAsset::TorusRegular);
    assert_eq!(get_torus_typeface(FontWeight::Medium, true), FontAsset::TorusItalic);
    assert_eq!(get_torus_typeface(FontWeight::Regular, true), FontAsset::TorusItalic);
    assert_eq!(get_torus_typeface(FontWeight::SemiBold, true), FontAsset::TorusSemiBoldItalic);
    assert_eq!(get_torus_typeface(FontWeight::Thin, false), FontAsset::TorusThin);
    assert_eq!(get_torus_typeface(FontWeight::Heavy, false), FontAsset::TorusHeavy);
}

#[test]
fn heebo_uses_black_for_heavy() {
    assert_eq!(get_heebo_typeface(FontWeight::Heavy), FontAsset::HeeboBlack);
    assert_eq!(get_heebo_typeface(FontWeight::Medium), FontAsset::HeeboMedium);
    assert_eq!(get_heebo_typeface(FontWeight::Thin), FontAsset::HeeboThin);
}

#[test]
fn families_are_found_by_name_whatever_the_case() {
    assert_eq!(match_embedded_family("Torus Pro"), Some(EmbeddedFamily::Torus));
    assert_eq!(match_embedded_family("TORUS"), Some(EmbeddedFamily::Torus));
    assert_eq!(match_embedded_family("my-tOrUs-font"), Some(EmbeddedFamily::Torus));
    assert_eq!(match_embedded_family("Heebo"), Some(EmbeddedFamily::Heebo));
    assert_eq!(match_embedded_family("Aller"), Some(EmbeddedFamily::Aller));
    assert_eq!(match_embedded_family("aller heebo"), Some(EmbeddedFamily::Heebo));
    assert_eq!(match_embedded_family("heebo torus"), Some(EmbeddedFamily::Torus));
    assert_eq!(match_embedded_family("Arial"), None);
    assert_eq!(match_embedded_family(""), None);
    assert_eq!(match_embedded_family("toru"), None);
    assert_eq!(match_embedded_family("t-o-r-u-s"), None);
    assert_eq!(match_embedded_family("\u{e9}torus"), Some(EmbeddedFamily::Torus));
}

#[test]
fn embedded_family_gives_an_embedded_file() {
    let plan = load_custom_font("Torus Pro", 24_000, FontWeight::SemiBold, true);
    assert_eq!(
        plan,
        FontPlan {
            embedded: Some(FontAsset::TorusSemiBoldItalic),
            size: 24_000,
            weight: FontWeight::SemiBold,
            italic: true,
        }
    );
    let plan = load_custom_font("Heebo", 48_000, FontWeight::Bold, true);
    assert_eq!(plan.embedded, Some(FontAsset::HeeboBold));
    let plan = load_custom_font("Aller", 48_000, FontWeight::Bold, false);
    assert_eq!(plan.embedded, Some(FontAsset::AllerItalic));
}

#[test]
fn other_family_is_left_to_the_system() {
    let plan = load_custom_font("Comic Sans", 12_000, FontWeight::Light, true);
    assert_eq!(plan.embedded, None);
    assert_eq!(
        plan.candidates(),
        vec![
            FontCandidate::System { family: SystemFamily::SegoeUi, weight: 300, italic: true },
            FontCandidate::System { family: SystemFamily::Arial, weight: 300, italic: true },
            FontCandidate::System { family: SystemFamily::Helvetica, weight: 300, italic: true },
            FontCandidate::System { family: SystemFamily::SansSerif, weight: 300, italic: true },
            FontCandidate::BuiltinDefault,
        ]
    );
}

#[test]
fn cascade_starts_with_the_embedded_file_and_ends_with_the_default() {
    let plan = load_custom_font("torus", 30_000, FontWeight::Heavy, false);
    let list = plan.candidates();
    assert_eq!(list.len(), 6);
    assert_eq!(list[0], FontCandidate::Embedded(FontAsset::TorusHeavy));
    assert_eq!(list[1], FontCandidate::System { family: SystemFamily::SegoeUi, weight: 800, italic: false });
    assert_eq!(list[5], FontCandidate::BuiltinDefault);
}

#[test]
fn system_family_names() {
    assert_eq!(SystemFamily::SegoeUi.name(), "Segoe UI");
    assert_eq!(SystemFamily::Arial.name(), "Arial");
    assert_eq!(SystemFamily::Helvetica.name(), "Helvetica");
    assert_eq!(SystemFamily::SansSerif.name(), "sans-serif");
}

#[test]
fn styles_give_weight_and_slant() {
    let normal = load_font("Torus Pro", 24_000, FontStyle::normal());
    assert_eq!(normal.weight, FontWeight::Regular);
    assert!(!normal.italic);
    assert_eq!(normal.embedded, Some(FontAsset::TorusRegular));
    let bold = load_font("Torus Pro", 24_000, FontStyle::bold());
    assert_eq!(bold.weight, FontWeight::Bold);
    assert!(!bold.italic);
    assert_eq!(bold.embedded, Some(FontAsset::TorusBold));
    let italic = load_font("Torus Pro", 24_000, FontStyle::italic());
    assert_eq!(italic.weight, FontWeight::Regular);
    assert!(italic.italic);
    assert_eq!(italic.embedded, Some(FontAsset::TorusItalic));
    let both = load_font("Torus Pro", 24_000, FontStyle::bold_italic());
    assert_eq!(both.weight, FontWeight::Bold);
    assert!(both.italic);
    assert_eq!(both.embedded, Some(FontAsset::TorusBoldItalic));
}

#[test]
fn unusual_style_counts_as_regular_upright() {
    let style = FontStyle { weight: 700, width: 3, slant: Slant::Upright };
    let plan = load_font("Heebo", 10_000, style);
    assert_eq!(plan.weight, FontWeight::Regular);
    assert!(!plan.italic);
    let style = FontStyle { weight: 400, width: 5, slant: Slant::Oblique };
    let plan = load_font("Heebo", 10_000, style);
    assert_eq!(plan.weight, FontWeight::Regular);
    assert!(!plan.italic);
}

#[test]
fn raw_weight_gives_an_upright_face() {
    let plan = load_font_with_weight("Torus Pro", 24_000, 700);
    assert_eq!(
        plan,
        FontPlan { embedded: Some(FontAsset::TorusBold), size: 24_000, weight: FontWeight::Bold, italic: false }
    );
    let plan = load_font_with_weight("Torus Pro", 24_000, 500);
    assert_eq!(plan.embedded, Some(FontAsset::TorusRegular));
    assert_eq!(plan.weight, FontWeight::Medium);
    let plan = load_font_with_weight("Torus Pro", 24_000, 450);
    assert_eq!(plan.embedded, Some(FontAsset::TorusRegular));
    assert_eq!(plan.weight, FontWeight::Regular);
}
