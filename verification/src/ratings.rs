use vstd::prelude::*;
use crate::scene::Color;
use crate::strings::str_equals;

verus! {

/// The five difficulties, in the order in which they are laid out.
#[derive(Debug, Clone, Copy, PartialEq, Eq, Structural)]
pub enum Difficulty {
    Easy,
    Normal,
    Hard,
    Expert,
    ExpertPlus,
}

impl Difficulty {
    /// The key under which the difficulty stands in a record of ratings.
    pub open spec fn spec_key(self) -> Seq<char> {
        match self {
            Difficulty::Easy => "ES"@,
            Difficulty::Normal => "NOR"@,
            Difficulty::Hard => "HARD"@,
            Difficulty::Expert => "EX"@,
            Difficulty::ExpertPlus => "EXP"@,
        }
    }

    /// The difficulty that a key names; no other key names one.
    pub open spec fn of_key(key: Seq<char>) -> Option<Difficulty> {
        if key == "ES"@ {
            Some(Difficulty::Easy)
        } else if key == "NOR"@ {
            Some(Difficulty::Normal)
        } else if key == "HARD"@ {
            Some(Difficulty::Hard)
        } else if key == "EX"@ {
            Some(Difficulty::Expert)
        } else if key == "EXP"@ {
            Some(Difficulty::ExpertPlus)
        } else {
            None
        }
    }

    pub open spec fn spec_name(self) -> Seq<char> {
        match self {
            Difficulty::Easy => "Easy"@,
            Difficulty::Normal => "Normal"@,
            Difficulty::Hard => "Hard"@,
            Difficulty::Expert => "Expert"@,
            Difficulty::ExpertPlus => "Expert+"@,
        }
    }

    pub open spec fn spec_color(self) -> Color {
        match self {
            Difficulty::Easy => Color::rgb(22, 163, 74),
            Difficulty::Normal => Color::rgb(59, 130, 246),
            Difficulty::Hard => Color::rgb(249, 115, 22),
            Difficulty::Expert => Color::rgb(220, 38, 38),
            Difficulty::ExpertPlus => Color::rgb(126, 34, 206),
        }
    }

    /// The difficulties in the order in which they are laid out, counted
    /// from 0; whatever follows the fourth is the last.
    pub open spec fn in_order(index: int) -> Difficulty {
        if index <= 0 {
            Difficulty::Easy
        } else if index == 1 {
            Difficulty::Normal
        } else if index == 2 {
            Difficulty::Hard
        } else if index == 3 {
            Difficulty::Expert
        } else {
            Difficulty::ExpertPlus
        }
    }

    /// The difficulty at a place in the layout order.
    pub fn at(index: usize) -> (difficulty: Difficulty)
        ensures
            difficulty == Difficulty::in_order(index as int),
    {
        if index == 0 {
            Difficulty::Easy
        } else if index == 1 {
            Difficulty::Normal
        } else if index == 2 {
            Difficulty::Hard
        } else if index == 3 {
            Difficulty::Expert
        } else {
            Difficulty::ExpertPlus
        }
    }

    pub fn key(self) -> (key: &'static str)
        ensures
            key@ == self.spec_key(),
    {
        match self {
            Difficulty::Easy => "ES",
            Difficulty::Normal => "NOR",
            Difficulty::Hard => "HARD",
            Difficulty::Expert => "EX",
            Difficulty::ExpertPlus => "EXP",
        }
    }

    pub fn from_key(key: &str) -> (difficulty: Option<Difficulty>)
        ensures
            difficulty == Difficulty::of_key(key@),
    {
        if str_equals(key, "ES") {
            Some(Difficulty::Easy)
        } else if str_equals(key, "NOR") {
            Some(Difficulty::Normal)
        } else if str_equals(key, "HARD") {
            Some(Difficulty::Hard)
        } else if str_equals(key, "EX") {
            Some(Difficulty::Expert)
        } else if str_equals(key, "EXP") {
            Some(Difficulty::ExpertPlus)
        } else {
            None
        }
    }

    pub fn name(self) -> (name: &'static str)
        ensures
            name@ == self.spec_name(),
    {
        match self {
            Difficulty::Easy => "Easy",
            Difficulty::Normal => "Normal",
            Difficulty::Hard => "Hard",
            Difficulty::Expert => "Expert",
            Difficulty::ExpertPlus => "Expert+",
        }
    }

    pub fn color(self) -> (color: Color)
        ensures
            color == self.spec_color(),
    {
        match self {
            Difficulty::Easy => Color::from_rgb(22, 163, 74),
            Difficulty::Normal => Color::from_rgb(59, 130, 246),
            Difficulty::Hard => Color::from_rgb(249, 115, 22),
            Difficulty::Expert => Color::from_rgb(220, 38, 38),
            Difficulty::ExpertPlus => Color::from_rgb(126, 34, 206),
        }
    }
}

/// The display name of the difficulty that `diff` names, empty for any
/// other key.
pub open spec fn difficulty_name(diff: Seq<char>) -> Seq<char> {
    match Difficulty::of_key(diff) {
        Some(d) => d.spec_name(),
        None => ""@,
    }
}

/// The colour of the difficulty that `diff` names, grey for any other key.
pub open spec fn difficulty_color(diff: Seq<char>) -> Color {
    match Difficulty::of_key(diff) {
        Some(d) => d.spec_color(),
        None => Color::spec_gray(),
    }
}

/// The display name of the difficulty under a key.
pub fn get_difficulty_name(diff: &str) -> (name: &'static str)
    ensures
        name@ == difficulty_name(diff@),
{
    match Difficulty::from_key(diff) {
        Some(d) => d.name(),
        None => "",
    }
}

/// The colour of the difficulty under a key.
pub fn get_difficulty_color(diff: &str) -> (color: Color)
    ensures
        color == difficulty_color(diff@),
{
    match Difficulty::from_key(diff) {
        Some(d) => d.color(),
        None => Color::gray(),
    }
}

pub open spec fn text_of(entry: Option<String>) -> Option<Seq<char>> {
    match entry {
        Some(s) => Some(s@),
        None => None,
    }
}

pub open spec fn text_of_ref(entry: Option<&String>) -> Option<Seq<char>> {
    match entry {
        Some(s) => Some(s@),
        None => None,
    }
}

/// How one entry of a record of ratings is shown.
#[derive(Debug, Clone, Copy, PartialEq, Eq, Structural)]
pub enum RatingKind {
    /// No entry, or an empty one: nothing is drawn for it.
    Absent,
    /// One of the two words that stand in place of a number; shown as plain
    /// text.
    Sentinel,
    /// Anything else; shown as a number followed by a star.
    Numeric,
}

pub open spec fn rating_kind(entry: Option<Seq<char>>) -> RatingKind {
    match entry {
        None => RatingKind::Absent,
        Some(text) => if text.len() == 0 {
            RatingKind::Absent
        } else if text == "Unranked"@ || text == "Qualified"@ {
            RatingKind::Sentinel
        } else {
            RatingKind::Numeric
        },
    }
}

/// The kind of each of the five entries.
#[derive(Debug, Clone, Copy, PartialEq, Eq, Structural)]
pub struct RatingKinds {
    pub es: RatingKind,
    pub nor: RatingKind,
    pub hard: RatingKind,
    pub ex: RatingKind,
    pub exp: RatingKind,
}

impl RatingKinds {
    pub open spec fn spec_kind(self, difficulty: Difficulty) -> RatingKind {
        match difficulty {
            Difficulty::Easy => self.es,
            Difficulty::Normal => self.nor,
            Difficulty::Hard => self.hard,
            Difficulty::Expert => self.ex,
            Difficulty::ExpertPlus => self.exp,
        }
    }

    #[verifier::when_used_as_spec(spec_kind)]
    pub fn kind(self, difficulty: Difficulty) -> (kind: RatingKind)
        ensures
            kind == self.spec_kind(difficulty),
    {
        match difficulty {
            Difficulty::Easy => self.es,
            Difficulty::Normal => self.nor,
            Difficulty::Hard => self.hard,
            Difficulty::Expert => self.ex,
            Difficulty::ExpertPlus => self.exp,
        }
    }

    /// No entry is shown.
    pub open spec fn all_absent(self) -> bool {
        &&& self.es == RatingKind::Absent
        &&& self.nor == RatingKind::Absent
        &&& self.hard == RatingKind::Absent
        &&& self.ex == RatingKind::Absent
        &&& self.exp == RatingKind::Absent
    }
}

/// A record of ratings as plain text: for each difficulty the entry, if
/// there is one.
pub struct RatingSet {
    pub es: Option<Seq<char>>,
    pub nor: Option<Seq<char>>,
    pub hard: Option<Seq<char>>,
    pub ex: Option<Seq<char>>,
    pub exp: Option<Seq<char>>,
}

impl RatingSet {
    pub open spec fn value(self, difficulty: Difficulty) -> Option<Seq<char>> {
        match difficulty {
            Difficulty::Easy => self.es,
            Difficulty::Normal => self.nor,
            Difficulty::Hard => self.hard,
            Difficulty::Expert => self.ex,
            Difficulty::ExpertPlus => self.exp,
        }
    }

    /// The entry under a key; a key that names no difficulty has none.
    pub open spec fn lookup(self, key: Seq<char>) -> Option<Seq<char>> {
        match Difficulty::of_key(key) {
            Some(difficulty) => self.value(difficulty),
            None => None,
        }
    }

    pub open spec fn kinds(self) -> RatingKinds {
        RatingKinds {
            es: rating_kind(self.es),
            nor: rating_kind(self.nor),
            hard: rating_kind(self.hard),
            ex: rating_kind(self.ex),
            exp: rating_kind(self.exp),
        }
    }
}

/// Tells how an entry is shown.
pub fn classify(entry: Option<&String>) -> (kind: RatingKind)
    ensures
        kind == rating_kind(text_of_ref(entry)),
{
    match entry {
        None => RatingKind::Absent,
        Some(text) => {
            if text.as_str().is_empty() {
                RatingKind::Absent
            } else if str_equals(text.as_str(), "Unranked") || str_equals(text.as_str(), "Qualified") {
                RatingKind::Sentinel
            } else {
                RatingKind::Numeric
            }
        },
    }
}

/// The star ratings of a map, by difficulty, as a card shows them.
#[derive(Debug, Clone)]
pub struct StarRating {
    pub es: Option<String>,
    pub nor: Option<String>,
    pub hard: Option<String>,
    pub ex: Option<String>,
    pub exp: Option<String>,
}

impl View for StarRating {
    type V = RatingSet;

    open spec fn view(&self) -> RatingSet {
        RatingSet {
            es: text_of(self.es),
            nor: text_of(self.nor),
            hard: text_of(self.hard),
            ex: text_of(self.ex),
            exp: text_of(self.exp),
        }
    }
}

impl StarRating {
    /// The entry of a difficulty, if the record has one.
    pub fn get(&self, difficulty: Difficulty) -> (entry: Option<&String>)
        ensures
            text_of_ref(entry) == self@.value(difficulty),
    {
        match difficulty {
            Difficulty::Easy => self.es.as_ref(),
            Difficulty::Normal => self.nor.as_ref(),
            Difficulty::Hard => self.hard.as_ref(),
            Difficulty::Expert => self.ex.as_ref(),
            Difficulty::ExpertPlus => self.exp.as_ref(),
        }
    }

    /// How each difficulty is shown.
    pub fn kinds(&self) -> (kinds: RatingKinds)
        ensures
            kinds == self@.kinds(),
    {
        RatingKinds {
            es: classify(self.es.as_ref()),
            nor: classify(self.nor.as_ref()),
            hard: classify(self.hard.as_ref()),
            ex: classify(self.ex.as_ref()),
            exp: classify(self.exp.as_ref()),
        }
    }
}

/// The star ratings of a map before a reweight.
#[derive(Debug, Clone)]
pub struct OldStarRatings {
    pub es: Option<String>,
    pub nor: Option<String>,
    pub hard: Option<String>,
    pub ex: Option<String>,
    pub exp: Option<String>,
}

impl View for OldStarRatings {
    type V = RatingSet;

    open spec fn view(&self) -> RatingSet {
        RatingSet {
            es: text_of(self.es),
            nor: text_of(self.nor),
            hard: text_of(self.hard),
            ex: text_of(self.ex),
            exp: text_of(self.exp),
        }
    }
}

impl OldStarRatings {
    /// The entry of a difficulty, if the record has one.
    pub fn get(&self, difficulty: Difficulty) -> (entry: Option<&String>)
        ensures
            text_of_ref(entry) == self@.value(difficulty),
    {
        match difficulty {
            Difficulty::Easy => self.es.as_ref(),
            Difficulty::Normal => self.nor.as_ref(),
            Difficulty::Hard => self.hard.as_ref(),
            Difficulty::Expert => self.ex.as_ref(),
            Difficulty::ExpertPlus => self.exp.as_ref(),
        }
    }

    /// How each difficulty is shown.
    pub fn kinds(&self) -> (kinds: RatingKinds)
        ensures
            kinds == self@.kinds(),
    {
        RatingKinds {
            es: classify(self.es.as_ref()),
            nor: classify(self.nor.as_ref()),
            hard: classify(self.hard.as_ref()),
            ex: classify(self.ex.as_ref()),
            exp: classify(self.exp.as_ref()),
        }
    }
}

/// The star ratings of a map after a reweight.
#[derive(Debug, Clone)]
pub struct NewStarRatings {
    pub es: Option<String>,
    pub nor: Option<String>,
    pub hard: Option<String>,
    pub ex: Option<String>,
    pub exp: Option<String>,
}

impl View for NewStarRatings {
    type V = RatingSet;

    open spec fn view(&self) -> RatingSet {
        RatingSet {
            es: text_of(self.es),
            nor: text_of(self.nor),
            hard: text_of(self.hard),
            ex: text_of(self.ex),
            exp: text_of(self.exp),
        }
    }
}

impl NewStarRatings {
    /// The entry of a difficulty, if the record has one.
    pub fn get(&self, difficulty: Difficulty) -> (entry: Option<&String>)
        ensures
            text_of_ref(entry) == self@.value(difficulty),
    {
        match difficulty {
            Difficulty::Easy => self.es.as_ref(),
            Difficulty::Normal => self.nor.as_ref(),
            Difficulty::Hard => self.hard.as_ref(),
            Difficulty::Expert => self.ex.as_ref(),
            Difficulty::ExpertPlus => self.exp.as_ref(),
        }
    }

    /// How each difficulty is shown.
    pub fn kinds(&self) -> (kinds: RatingKinds)
        ensures
            kinds == self@.kinds(),
    {
        RatingKinds {
            es: classify(self.es.as_ref()),
            nor: classify(self.nor.as_ref()),
            hard: classify(self.hard.as_ref()),
            ex: classify(self.ex.as_ref()),
            exp: classify(self.exp.as_ref()),
        }
    }
}

/// The star ratings of a map, as a video thumbnail shows them.
#[derive(Debug, Clone)]
pub struct SsrmStarRating {
    pub es: Option<String>,
    pub nor: Option<String>,
    pub hard: Option<String>,
    pub ex: Option<String>,
    pub exp: Option<String>,
}

impl View for SsrmStarRating {
    type V = RatingSet;

    open spec fn view(&self) -> RatingSet {
        RatingSet {
            es: text_of(self.es),
            nor: text_of(self.nor),
            hard: text_of(self.hard),
            ex: text_of(self.ex),
            exp: text_of(self.exp),
        }
    }
}

impl SsrmStarRating {
    /// The entry of a difficulty, if the record has one.
    pub fn get(&self, difficulty: Difficulty) -> (entry: Option<&String>)
        ensures
            text_of_ref(entry) == self@.value(difficulty),
    {
        match difficulty {
            Difficulty::Easy => self.es.as_ref(),
            Difficulty::Normal => self.nor.as_ref(),
            Difficulty::Hard => self.hard.as_ref(),
            Difficulty::Expert => self.ex.as_ref(),
            Difficulty::ExpertPlus => self.exp.as_ref(),
        }
    }

    /// How each difficulty is shown.
    pub fn kinds(&self) -> (kinds: RatingKinds)
        ensures
            kinds == self@.kinds(),
    {
        RatingKinds {
            es: classify(self.es.as_ref()),
            nor: classify(self.nor.as_ref()),
            hard: classify(self.hard.as_ref()),
            ex: classify(self.ex.as_ref()),
            exp: classify(self.exp.as_ref()),
        }
    }
}

/// The old rating under the key `diff`.
pub fn get_rating<'a>(ratings: &'a OldStarRatings, diff: &str) -> (entry: Option<&'a String>)
    ensures
        text_of_ref(entry) == ratings@.lookup(diff@),
{
    match Difficulty::from_key(diff) {
        Some(difficulty) => ratings.get(difficulty),
        None => None,
    }
}

/// The new rating under the key `diff`.
pub fn get_new_rating<'a>(ratings: &'a NewStarRatings, diff: &str) -> (entry: Option<&'a String>)
    ensures
        text_of_ref(entry) == ratings@.lookup(diff@),
{
    match Difficulty::from_key(diff) {
        Some(difficulty) => ratings.get(difficulty),
        None => None,
    }
}

/// Each key names its own difficulty, so no two difficulties share a key.
pub proof fn lemma_key_names_difficulty(d: Difficulty)
    ensures
        Difficulty::of_key(d.spec_key()) == Some(d),
{
    reveal_strlit("ES");
    reveal_strlit("NOR");
    reveal_strlit("HARD");
    reveal_strlit("EX");
    reveal_strlit("EXP");
    assert("ES"@.len() == 2);
    assert("NOR"@.len() == 3);
    assert("HARD"@.len() == 4);
    assert("EX"@.len() == 2);
    assert("EXP"@.len() == 3);
    assert("ES"@[1] != "EX"@[1]);
    assert("NOR"@[0] != "EXP"@[0]);
}

} // verus!
