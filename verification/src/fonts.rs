use vstd::prelude::*;
use crate::strings::{chars_of, contains_ignore_case, contains_ignoring_case};

verus! {

/// The weights a caller may ask a face for.
#[derive(Debug, Clone, Copy, PartialEq, Eq, Structural)]
pub enum FontWeight {
    Thin,
    Light,
    Regular,
    Medium,
    SemiBold,
    Bold,
    Heavy,
}

impl FontWeight {
    /// The weight on the usual scale from 100 to 900.
    pub open spec fn weight_value(self) -> int {
        match self {
            FontWeight::Thin => 100,
            FontWeight::Light => 300,
            FontWeight::Regular => 400,
            FontWeight::Medium => 500,
            FontWeight::SemiBold => 600,
            FontWeight::Bold => 700,
            FontWeight::Heavy => 800,
        }
    }

    /// The preset that a raw weight falls under: the heaviest preset that
    /// is not heavier than `value`, so that a weight without a preset of its
    /// own falls back to the nearest lighter one. What is lighter than every
    /// preset counts as `Thin`.
    pub open spec fn preset_for(value: int) -> FontWeight {
        if value < 300 {
            FontWeight::Thin
        } else if value < 400 {
            FontWeight::Light
        } else if value < 500 {
            FontWeight::Regular
        } else if value < 600 {
            FontWeight::Medium
        } else if value < 700 {
            FontWeight::SemiBold
        } else if value < 800 {
            FontWeight::Bold
        } else {
            FontWeight::Heavy
        }
    }

    /// The weight on the usual scale from 100 to 900.
    pub fn to_weight(self) -> (w: i32)
        ensures
            w == self.weight_value(),
    {
        match self {
            FontWeight::Thin => 100,
            FontWeight::Light => 300,
            FontWeight::Regular => 400,
            FontWeight::Medium => 500,
            FontWeight::SemiBold => 600,
            FontWeight::Bold => 700,
            FontWeight::Heavy => 800,
        }
    }

    /// The preset that a raw weight falls under.
    pub fn from_value(value: i32) -> (weight: FontWeight)
        ensures
            weight == FontWeight::preset_for(value as int),
    {
        if value < 300 {
            FontWeight::Thin
        } else if value < 400 {
            FontWeight::Light
        } else if value < 500 {
            FontWeight::Regular
        } else if value < 600 {
            FontWeight::Medium
        } else if value < 700 {
            FontWeight::SemiBold
        } else if value < 800 {
            FontWeight::Bold
        } else {
            FontWeight::Heavy
        }
    }
}

#[derive(Debug, Clone, Copy, PartialEq, Eq, Structural)]
pub enum Slant {
    Upright,
    Italic,
    Oblique,
}

/// A typographic style as a host font manager understands it: weight on the
/// 100 to 900 scale, width class (5 is normal) and slant.
#[derive(Debug, Clone, Copy, PartialEq, Eq, Structural)]
pub struct FontStyle {
    pub weight: i32,
    pub width: i32,
    pub slant: Slant,
}

impl FontStyle {
    pub open spec fn spec_normal() -> FontStyle {
        FontStyle { weight: 400, width: 5, slant: Slant::Upright }
    }

    pub open spec fn spec_bold() -> FontStyle {
        FontStyle { weight: 700, width: 5, slant: Slant::Upright }
    }

    pub open spec fn spec_italic() -> FontStyle {
        FontStyle { weight: 400, width: 5, slant: Slant::Italic }
    }

    pub open spec fn spec_bold_italic() -> FontStyle {
        FontStyle { weight: 700, width: 5, slant: Slant::Italic }
    }

    #[verifier::when_used_as_spec(spec_normal)]
    pub fn normal() -> (style: FontStyle)
        ensures
            style == FontStyle::spec_normal(),
    {
        FontStyle { weight: 400, width: 5, slant: Slant::Upright }
    }

    #[verifier::when_used_as_spec(spec_bold)]
    pub fn bold() -> (style: FontStyle)
        ensures
            style == FontStyle::spec_bold(),
    {
        FontStyle { weight: 700, width: 5, slant: Slant::Upright }
    }

    #[verifier::when_used_as_spec(spec_italic)]
    pub fn italic() -> (style: FontStyle)
        ensures
            style == FontStyle::spec_italic(),
    {
        FontStyle { weight: 400, width: 5, slant: Slant::Italic }
    }

    #[verifier::when_used_as_spec(spec_bold_italic)]
    pub fn bold_italic() -> (style: FontStyle)
        ensures
            style == FontStyle::spec_bold_italic(),
    {
        FontStyle { weight: 700, width: 5, slant: Slant::Italic }
    }

    /// The weight preset that `load_font` reads out of a style: bold for the
    /// two bold styles, regular for every other style.
    pub open spec fn preset_weight(self) -> FontWeight {
        if self == FontStyle::spec_bold() || self == FontStyle::spec_bold_italic() {
            FontWeight::Bold
        } else {
            FontWeight::Regular
        }
    }

    /// Whether `load_font` reads the style as italic.
    pub open spec fn preset_italic(self) -> bool {
        self == FontStyle::spec_italic() || self == FontStyle::spec_bold_italic()
    }
}

/// The font files that ship with the library.
#[derive(Debug, Clone, Copy, PartialEq, Eq, Structural)]
pub enum FontAsset {
    TorusThin,
    TorusLight,
    TorusRegular,
    TorusSemiBold,
    TorusBold,
    TorusHeavy,
    TorusItalic,
    TorusThinItalic,
    TorusLightItalic,
    TorusSemiBoldItalic,
    TorusBoldItalic,
    TorusHeavyItalic,
    AllerItalic,
    HeeboThin,
    HeeboExtraLight,
    HeeboLight,
    HeeboRegular,
    HeeboMedium,
    HeeboSemiBold,
    HeeboBold,
    HeeboExtraBold,
    HeeboBlack,
}

/// The families that have embedded files.
#[derive(Debug, Clone, Copy, PartialEq, Eq, Structural)]
pub enum EmbeddedFamily {
    Torus,
    Heebo,
    Aller,
}

/// The Torus Pro file for a weight and slant. Torus Pro has no medium cut:
/// medium falls back to the regular file of the same slant.
pub open spec fn torus_asset(weight: FontWeight, italic: bool) -> FontAsset {
    if italic {
        match weight {
            FontWeight::Thin => FontAsset::TorusThinItalic,
            FontWeight::Light => FontAsset::TorusLightItalic,
            FontWeight::Regular => FontAsset::TorusItalic,
            FontWeight::Medium => FontAsset::TorusItalic,
            FontWeight::SemiBold => FontAsset::TorusSemiBoldItalic,
            FontWeight::Bold => FontAsset::TorusBoldItalic,
            FontWeight::Heavy => FontAsset::TorusHeavyItalic,
        }
    } else {
        match weight {
            FontWeight::Thin => FontAsset::TorusThin,
            FontWeight::Light => FontAsset::TorusLight,
            FontWeight::Regular => FontAsset::TorusRegular,
            FontWeight::Medium => FontAsset::TorusRegular,
            FontWeight::SemiBold => FontAsset::TorusSemiBold,
            FontWeight::Bold => FontAsset::TorusBold,
            FontWeight::Heavy => FontAsset::TorusHeavy,
        }
    }
}

/// The Heebo file for a weight. Heebo has no italics, and its heaviest cut,
/// Black, serves for `Heavy`.
pub open spec fn heebo_asset(weight: FontWeight) -> FontAsset {
    match weight {
        FontWeight::Thin => FontAsset::HeeboThin,
        FontWeight::Light => FontAsset::HeeboLight,
        FontWeight::Regular => FontAsset::HeeboRegular,
        FontWeight::Medium => FontAsset::HeeboMedium,
        FontWeight::SemiBold => FontAsset::HeeboSemiBold,
        FontWeight::Bold => FontAsset::HeeboBold,
        FontWeight::Heavy => FontAsset::HeeboBlack,
    }
}

/// The embedded file that stands for a family at a weight and slant. Aller
/// ships as one italic file, whatever is asked for.
pub open spec fn embedded_asset(family: EmbeddedFamily, weight: FontWeight, italic: bool) -> FontAsset {
    match family {
        EmbeddedFamily::Torus => torus_asset(weight, italic),
        EmbeddedFamily::Heebo => heebo_asset(weight),
        EmbeddedFamily::Aller => FontAsset::AllerItalic,
    }
}

/// The Torus Pro file for a weight and slant.
pub fn get_torus_typeface(weight: FontWeight, italic: bool) -> (asset: FontAsset)
    ensures
        asset == torus_asset(weight, italic),
{
    if italic {
        match weight {
            FontWeight::Thin => FontAsset::TorusThinItalic,
            FontWeight::Light => FontAsset::TorusLightItalic,
            FontWeight::Regular => FontAsset::TorusItalic,
            FontWeight::Medium => FontAsset::TorusItalic,
            FontWeight::SemiBold => FontAsset::TorusSemiBoldItalic,
            FontWeight::Bold => FontAsset::TorusBoldItalic,
            FontWeight::Heavy => FontAsset::TorusHeavyItalic,
        }
    } else {
        match weight {
            FontWeight::Thin => FontAsset::TorusThin,
            FontWeight::Light => FontAsset::TorusLight,
            FontWeight::Regular => FontAsset::TorusRegular,
            FontWeight::Medium => FontAsset::TorusRegular,
            FontWeight::SemiBold => FontAsset::TorusSemiBold,
            FontWeight::Bold => FontAsset::TorusBold,
            FontWeight::Heavy => FontAsset::TorusHeavy,
        }
    }
}

/// The Heebo file for a weight.
pub fn get_heebo_typeface(weight: FontWeight) -> (asset: FontAsset)
    ensures
        asset == heebo_asset(weight),
{
    match weight {
        FontWeight::Thin => FontAsset::HeeboThin,
        FontWeight::Light => FontAsset::HeeboLight,
        FontWeight::Regular => FontAsset::HeeboRegular,
        FontWeight::Medium => FontAsset::HeeboMedium,
        FontWeight::SemiBold => FontAsset::HeeboSemiBold,
        FontWeight::Bold => FontAsset::HeeboBold,
        FontWeight::Heavy => FontAsset::HeeboBlack,
    }
}

pub open spec fn torus_pattern() -> Seq<char> {
    seq!['t', 'o', 'r', 'u', 's']
}

pub open spec fn heebo_pattern() -> Seq<char> {
    seq!['h', 'e', 'e', 'b', 'o']
}

pub open spec fn aller_pattern() -> Seq<char> {
    seq!['a', 'l', 'l', 'e', 'r']
}

/// The embedded family that a family name asks for: the first of Torus,
/// Heebo and Aller whose name stands in it, ASCII case set aside.
pub open spec fn embedded_family(name: Seq<char>) -> Option<EmbeddedFamily> {
    if contains_ignoring_case(name, torus_pattern()) {
        Some(EmbeddedFamily::Torus)
    } else if contains_ignoring_case(name, heebo_pattern()) {
        Some(EmbeddedFamily::Heebo)
    } else if contains_ignoring_case(name, aller_pattern()) {
        Some(EmbeddedFamily::Aller)
    } else {
        None
    }
}

/// The embedded family that a family name asks for.
pub fn match_embedded_family(family_name: &str) -> (family: Option<EmbeddedFamily>)
    ensures
        family == embedded_family(family_name@),
{
    let name = chars_of(family_name);
    let torus: Vec<char> = vec!['t', 'o', 'r', 'u', 's'];
    let heebo: Vec<char> = vec!['h', 'e', 'e', 'b', 'o'];
    let aller: Vec<char> = vec!['a', 'l', 'l', 'e', 'r'];
    assert(torus@ == torus_pattern());
    assert(heebo@ == heebo_pattern());
    assert(aller@ == aller_pattern());
    if contains_ignore_case(&name, &torus) {
        Some(EmbeddedFamily::Torus)
    } else if contains_ignore_case(&name, &heebo) {
        Some(EmbeddedFamily::Heebo)
    } else if contains_ignore_case(&name, &aller) {
        Some(EmbeddedFamily::Aller)
    } else {
        None
    }
}

/// The families that a host font manager is asked for, in this order, when
/// no embedded file serves.
#[derive(Debug, Clone, Copy, PartialEq, Eq, Structural)]
pub enum SystemFamily {
    SegoeUi,
    Arial,
    Helvetica,
    SansSerif,
}

impl SystemFamily {
    pub open spec fn spec_name(self) -> Seq<char> {
        match self {
            SystemFamily::SegoeUi => "Segoe UI"@,
            SystemFamily::Arial => "Arial"@,
            SystemFamily::Helvetica => "Helvetica"@,
            SystemFamily::SansSerif => "sans-serif"@,
        }
    }

    /// The name that the host knows the family by.
    pub fn name(self) -> (name: &'static str)
        ensures
            name@ == self.spec_name(),
    {
        match self {
            SystemFamily::SegoeUi => "Segoe UI",
            SystemFamily::Arial => "Arial",
            SystemFamily::Helvetica => "Helvetica",
            SystemFamily::SansSerif => "sans-serif",
        }
    }
}

/// One face to try. A resolver walks a list of these and takes the first
/// that the host can supply.
#[derive(Debug, Clone, Copy, PartialEq, Eq, Structural)]
pub enum FontCandidate {
    /// An embedded file.
    Embedded(FontAsset),
    /// A family of the host, matched with a weight (100 to 900) and slant at
    /// normal width.
    System { family: SystemFamily, weight: i32, italic: bool },
    /// The face that the host always has.
    BuiltinDefault,
}

/// What `load_custom_font` resolved: the embedded file to try first, if the
/// family name asks for one, and the size, weight and slant that the system
/// fallbacks are matched with.
#[derive(Debug, Clone, Copy, PartialEq, Eq, Structural)]
pub struct FontPlan {
    pub embedded: Option<FontAsset>,
    /// In thousandths of a point.
    pub size: i64,
    pub weight: FontWeight,
    pub italic: bool,
}

/// The plan for a family name at a size, weight and slant.
pub open spec fn font_plan(name: Seq<char>, size: i64, weight: FontWeight, italic: bool) -> FontPlan {
    FontPlan {
        embedded: match embedded_family(name) {
            Some(family) => Some(embedded_asset(family, weight, italic)),
            None => None,
        },
        size,
        weight,
        italic,
    }
}

impl FontPlan {
    /// The faces to try, in order: the embedded file if there is one, then
    /// the four system families, then the built-in default.
    pub open spec fn cascade(self) -> Seq<FontCandidate> {
        let system = seq![
            FontCandidate::System { family: SystemFamily::SegoeUi, weight: self.weight.weight_value() as i32, italic: self.italic },
            FontCandidate::System { family: SystemFamily::Arial, weight: self.weight.weight_value() as i32, italic: self.italic },
            FontCandidate::System { family: SystemFamily::Helvetica, weight: self.weight.weight_value() as i32, italic: self.italic },
            FontCandidate::System { family: SystemFamily::SansSerif, weight: self.weight.weight_value() as i32, italic: self.italic },
            FontCandidate::BuiltinDefault,
        ];
        match self.embedded {
            Some(asset) => seq![FontCandidate::Embedded(asset)] + system,
            None => system,
        }
    }

    /// The faces to try, in order.
    pub fn candidates(&self) -> (list: Vec<FontCandidate>)
        ensures
            list@ == self.cascade(),
    {
        let weight = self.weight.to_weight();
        let mut list: Vec<FontCandidate> = Vec::new();
        match self.embedded {
            Some(asset) => {
                list.push(FontCandidate::Embedded(asset));
            },
            None => {},
        }
        list.push(FontCandidate::System { family: SystemFamily::SegoeUi, weight, italic: self.italic });
        list.push(FontCandidate::System { family: SystemFamily::Arial, weight, italic: self.italic });
        list.push(FontCandidate::System { family: SystemFamily::Helvetica, weight, italic: self.italic });
        list.push(FontCandidate::System { family: SystemFamily::SansSerif, weight, italic: self.italic });
        list.push(FontCandidate::BuiltinDefault);
        assert(list@ =~= self.cascade());
        list
    }
}

/// Resolves a family name, weight and slant to a plan. Embedded families
/// are found by name; every other name leaves the plan to the system
/// fallbacks.
pub fn load_custom_font(family_name: &str, size: i64, weight: FontWeight, italic: bool) -> (plan: FontPlan)
    ensures
        plan == font_plan(family_name@, size, weight, italic),
{
    let embedded = match match_embedded_family(family_name) {
        Some(EmbeddedFamily::Torus) => Some(get_torus_typeface(weight, italic)),
        Some(EmbeddedFamily::Heebo) => Some(get_heebo_typeface(weight)),
        Some(EmbeddedFamily::Aller) => Some(FontAsset::AllerItalic),
        None => None,
    };
    FontPlan { embedded, size, weight, italic }
}

/// Resolves a family name with a style: the two bold styles give bold,
/// every other style regular; the two italic styles give italic.
pub fn load_font(family_name: &str, size: i64, style: FontStyle) -> (plan: FontPlan)
    ensures
        plan == font_plan(family_name@, size, style.preset_weight(), style.preset_italic()),
{
    let is_bold = style == FontStyle::bold();
    let is_bold_italic = style == FontStyle::bold_italic();
    let is_italic = style == FontStyle::italic();
    let weight = if is_bold || is_bold_italic {
        FontWeight::Bold
    } else {
        FontWeight::Regular
    };
    let italic = is_italic || is_bold_italic;
    load_custom_font(family_name, size, weight, italic)
}

/// Resolves a family name with a raw weight; the face is upright.
pub fn load_font_with_weight(family_name: &str, size: i64, weight_value: i32) -> (plan: FontPlan)
    ensures
        plan == font_plan(family_name@, size, FontWeight::preset_for(weight_value as int), false),
{
    load_custom_font(family_name, size, FontWeight::from_value(weight_value), false)
}

/// Every preset is the preset of its own weight, and a weight between two
/// presets falls under the lighter of the two.
pub proof fn lemma_preset_is_nearest_lighter(value: int)
    ensures
        forall|w: FontWeight| #[trigger] FontWeight::preset_for(w.weight_value()) == w,
        value >= 100 ==> FontWeight::preset_for(value).weight_value() <= value,
        forall|w: FontWeight|
            #[trigger] w.weight_value() <= value ==> w.weight_value() <= FontWeight::preset_for(
                value,
            ).weight_value(),
{
}

/// The cascade always ends in the built-in default, so resolving a font
/// never comes away empty, whatever the host has installed.
pub proof fn lemma_cascade_is_total(plan: FontPlan)
    ensures
        plan.cascade().len() >= 5,
        plan.cascade().last() == FontCandidate::BuiltinDefault,
        plan.embedded is Some ==> plan.cascade()[0] == FontCandidate::Embedded(plan.embedded->0),
{
}

} // verus!
