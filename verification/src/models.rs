//! The domain: ratings, sexes and the other small enumerations, and the records kept
//! of harvests, grinds and challenges. The species and the reserves have files of
//! their own and are named here as well.

use crate::ambient::{local_timestamp, random_name};
pub use crate::reserve::{
    populated, populated_reserves, reserve_species, reserve_species_table, species_of, species_on,
    Reserve,
};
pub use crate::species::Species;
use crate::text::{fmt_model, same_text, title_case};
use vstd::prelude::*;
use vstd::std_specs::cmp::PartialEqSpecImpl;
use vstd::std_specs::convert::FromSpecImpl;
use vstd::string::StrSliceExecFns;

verus! {

/// The medal that a harvest earned.
#[derive(Clone, Copy, Debug, PartialEq, Eq, Structural, Hash)]
pub enum Rating {
    All,
    GreatOne,
    Diamond,
    Gold,
    Silver,
    Bronze,
    Unrated,
    Unknown,
}

impl Rating {
    /// The name under which the variant is stored.
    pub open spec fn ident_spec(self) -> Seq<char> {
        match self {
            Rating::All => "All"@,
            Rating::GreatOne => "GreatOne"@,
            Rating::Diamond => "Diamond"@,
            Rating::Gold => "Gold"@,
            Rating::Silver => "Silver"@,
            Rating::Bronze => "Bronze"@,
            Rating::Unrated => "None"@,
            Rating::Unknown => "Unknown"@,
        }
    }

    /// The name under which the variant is stored.
    pub fn ident(&self) -> (name: &'static str)
        ensures
            name@ == self.ident_spec(),
    {
        match self {
            Rating::All => "All",
            Rating::GreatOne => "GreatOne",
            Rating::Diamond => "Diamond",
            Rating::Gold => "Gold",
            Rating::Silver => "Silver",
            Rating::Bronze => "Bronze",
            Rating::Unrated => "None",
            Rating::Unknown => "Unknown",
        }
    }

    /// Every variant, in the order of declaration.
    pub open spec fn all_spec() -> Seq<Rating> {
        seq![
            Rating::All,
            Rating::GreatOne,
            Rating::Diamond,
            Rating::Gold,
            Rating::Silver,
            Rating::Bronze,
            Rating::Unrated,
            Rating::Unknown,
        ]
    }

    /// Every variant, in the order of declaration.
    pub fn all() -> (list: Vec<Rating>)
        ensures
            list@ == Rating::all_spec(),
    {
        let mut list: Vec<Rating> = Vec::new();
        list.push(Rating::All);
        list.push(Rating::GreatOne);
        list.push(Rating::Diamond);
        list.push(Rating::Gold);
        list.push(Rating::Silver);
        list.push(Rating::Bronze);
        list.push(Rating::Unrated);
        list.push(Rating::Unknown);
        list
    }

    /// The name for display: the variant's name in title case.
    pub fn to_string(&self) -> (text: String)
        ensures
            text@ == title_case(self.ident_spec()),
    {
        fmt_model(self.ident())
    }

    /// The variant that is stored under the name `text`, if there is one.
    pub open spec fn parse_ident(text: Seq<char>) -> Option<Rating> {
        if text == "All"@ {
            Some(Rating::All)
        } else if text == "GreatOne"@ {
            Some(Rating::GreatOne)
        } else if text == "Diamond"@ {
            Some(Rating::Diamond)
        } else if text == "Gold"@ {
            Some(Rating::Gold)
        } else if text == "Silver"@ {
            Some(Rating::Silver)
        } else if text == "Bronze"@ {
            Some(Rating::Bronze)
        } else if text == "None"@ {
            Some(Rating::Unrated)
        } else if text == "Unknown"@ {
            Some(Rating::Unknown)
        } else {
            None
        }
    }

    /// Reads a name as it is stored; nothing if no variant is stored under it.
    pub fn from_ident(text: &str) -> (found: Option<Rating>)
        ensures
            found == Rating::parse_ident(text@),
    {
        if same_text(text, "All") {
            Some(Rating::All)
        } else if same_text(text, "GreatOne") {
            Some(Rating::GreatOne)
        } else if same_text(text, "Diamond") {
            Some(Rating::Diamond)
        } else if same_text(text, "Gold") {
            Some(Rating::Gold)
        } else if same_text(text, "Silver") {
            Some(Rating::Silver)
        } else if same_text(text, "Bronze") {
            Some(Rating::Bronze)
        } else if same_text(text, "None") {
            Some(Rating::Unrated)
        } else if same_text(text, "Unknown") {
            Some(Rating::Unknown)
        } else {
            None
        }
    }

    /// The variant that is shown as `text`, if there is one.
    pub open spec fn parse(text: Seq<char>) -> Option<Rating> {
        if text == "All"@ {
            Some(Rating::All)
        } else if text == "Great One"@ {
            Some(Rating::GreatOne)
        } else if text == "Diamond"@ {
            Some(Rating::Diamond)
        } else if text == "Gold"@ {
            Some(Rating::Gold)
        } else if text == "Silver"@ {
            Some(Rating::Silver)
        } else if text == "Bronze"@ {
            Some(Rating::Bronze)
        } else if text == "None"@ {
            Some(Rating::Unrated)
        } else if text == "Unknown"@ {
            Some(Rating::Unknown)
        } else {
            None
        }
    }

    /// Reads a name as it is shown; nothing if no variant is shown under it.
    pub fn from_str(text: &str) -> (found: Option<Rating>)
        ensures
            found == Rating::parse(text@),
    {
        if same_text(text, "All") {
            Some(Rating::All)
        } else if same_text(text, "Great One") {
            Some(Rating::GreatOne)
        } else if same_text(text, "Diamond") {
            Some(Rating::Diamond)
        } else if same_text(text, "Gold") {
            Some(Rating::Gold)
        } else if same_text(text, "Silver") {
            Some(Rating::Silver)
        } else if same_text(text, "Bronze") {
            Some(Rating::Bronze)
        } else if same_text(text, "None") {
            Some(Rating::Unrated)
        } else if same_text(text, "Unknown") {
            Some(Rating::Unknown)
        } else {
            None
        }
    }
}

/// The rank of a rating, higher for the better medal. The wildcard ranks with the unknown.
pub open spec fn rating_rank(rating: Rating) -> int {
    match rating {
        Rating::GreatOne => 6,
        Rating::Diamond => 5,
        Rating::Gold => 4,
        Rating::Silver => 3,
        Rating::Bronze => 2,
        Rating::Unrated => 1,
        Rating::Unknown => 0,
        Rating::All => 0,
    }
}

/// The rank of a rating, from 0 for the unknown to 6 for the great one.
pub fn ratings_to_i32(rating: &Rating) -> (rank: i32)
    ensures
        rank == rating_rank(*rating),
{
    match rating {
        Rating::GreatOne => 6,
        Rating::Diamond => 5,
        Rating::Gold => 4,
        Rating::Silver => 3,
        Rating::Bronze => 2,
        Rating::Unrated => 1,
        Rating::Unknown => 0,
        _ => 0,
    }
}

/// The weapon class of a challenge.
#[derive(Clone, Copy, Debug, PartialEq, Eq, Structural, Hash)]
pub enum Weapon {
    Unknown,
}

impl Weapon {
    /// The name under which the variant is stored.
    pub open spec fn ident_spec(self) -> Seq<char> {
        match self {
            Weapon::Unknown => "Unknown"@,
        }
    }

    /// The name under which the variant is stored.
    pub fn ident(&self) -> (name: &'static str)
        ensures
            name@ == self.ident_spec(),
    {
        match self {
            Weapon::Unknown => "Unknown",
        }
    }

    /// Every variant, in the order of declaration.
    pub open spec fn all_spec() -> Seq<Weapon> {
        seq![
            Weapon::Unknown,
        ]
    }

    /// Every variant, in the order of declaration.
    pub fn all() -> (list: Vec<Weapon>)
        ensures
            list@ == Weapon::all_spec(),
    {
        let mut list: Vec<Weapon> = Vec::new();
        list.push(Weapon::Unknown);
        list
    }

    /// The name for display: the variant's name in title case.
    pub fn to_string(&self) -> (text: String)
        ensures
            text@ == title_case(self.ident_spec()),
    {
        fmt_model(self.ident())
    }

    /// The variant that is stored under the name `text`, if there is one.
    pub open spec fn parse_ident(text: Seq<char>) -> Option<Weapon> {
        if text == "Unknown"@ {
            Some(Weapon::Unknown)
        } else {
            None
        }
    }

    /// Reads a name as it is stored; nothing if no variant is stored under it.
    pub fn from_ident(text: &str) -> (found: Option<Weapon>)
        ensures
            found == Weapon::parse_ident(text@),
    {
        if same_text(text, "Unknown") {
            Some(Weapon::Unknown)
        } else {
            None
        }
    }

    /// The variant that is shown as `text`, if there is one.
    pub open spec fn parse(text: Seq<char>) -> Option<Weapon> {
        if text == "Unknown"@ {
            Some(Weapon::Unknown)
        } else {
            None
        }
    }

    /// Reads a name as it is shown; nothing if no variant is shown under it.
    pub fn from_str(text: &str) -> (found: Option<Weapon>)
        ensures
            found == Weapon::parse(text@),
    {
        if same_text(text, "Unknown") {
            Some(Weapon::Unknown)
        } else {
            None
        }
    }
}

/// The field by which the trophy table is ordered.
#[derive(Clone, Copy, Debug, PartialEq, Eq, Structural, Hash)]
pub enum SortBy {
    Date,
    Score,
    Weight,
    Rating,
    ShotDistance,
}

impl SortBy {
    /// The name under which the variant is stored.
    pub open spec fn ident_spec(self) -> Seq<char> {
        match self {
            SortBy::Date => "Date"@,
            SortBy::Score => "Score"@,
            SortBy::Weight => "Weight"@,
            SortBy::Rating => "Rating"@,
            SortBy::ShotDistance => "ShotDistance"@,
        }
    }

    /// The name under which the variant is stored.
    pub fn ident(&self) -> (name: &'static str)
        ensures
            name@ == self.ident_spec(),
    {
        match self {
            SortBy::Date => "Date",
            SortBy::Score => "Score",
            SortBy::Weight => "Weight",
            SortBy::Rating => "Rating",
            SortBy::ShotDistance => "ShotDistance",
        }
    }

    /// Every variant, in the order of declaration.
    pub open spec fn all_spec() -> Seq<SortBy> {
        seq![
            SortBy::Date,
            SortBy::Score,
            SortBy::Weight,
            SortBy::Rating,
            SortBy::ShotDistance,
        ]
    }

    /// Every variant, in the order of declaration.
    pub fn all() -> (list: Vec<SortBy>)
        ensures
            list@ == SortBy::all_spec(),
    {
        let mut list: Vec<SortBy> = Vec::new();
        list.push(SortBy::Date);
        list.push(SortBy::Score);
        list.push(SortBy::Weight);
        list.push(SortBy::Rating);
        list.push(SortBy::ShotDistance);
        list
    }

    /// The name for display: the variant's name in title case.
    pub fn to_string(&self) -> (text: String)
        ensures
            text@ == title_case(self.ident_spec()),
    {
        fmt_model(self.ident())
    }

    /// The variant that is stored under the name `text`, if there is one.
    pub open spec fn parse_ident(text: Seq<char>) -> Option<SortBy> {
        if text == "Date"@ {
            Some(SortBy::Date)
        } else if text == "Score"@ {
            Some(SortBy::Score)
        } else if text == "Weight"@ {
            Some(SortBy::Weight)
        } else if text == "Rating"@ {
            Some(SortBy::Rating)
        } else if text == "ShotDistance"@ {
            Some(SortBy::ShotDistance)
        } else {
            None
        }
    }

    /// Reads a name as it is stored; nothing if no variant is stored under it.
    pub fn from_ident(text: &str) -> (found: Option<SortBy>)
        ensures
            found == SortBy::parse_ident(text@),
    {
        if same_text(text, "Date") {
            Some(SortBy::Date)
        } else if same_text(text, "Score") {
            Some(SortBy::Score)
        } else if same_text(text, "Weight") {
            Some(SortBy::Weight)
        } else if same_text(text, "Rating") {
            Some(SortBy::Rating)
        } else if same_text(text, "ShotDistance") {
            Some(SortBy::ShotDistance)
        } else {
            None
        }
    }
}

/// The sex of a harvested animal.
#[derive(Clone, Copy, Debug, PartialEq, Eq, Structural, Hash)]
pub enum Gender {
    All,
    Male,
    Female,
    Unknown,
}

impl Gender {
    /// The name under which the variant is stored.
    pub open spec fn ident_spec(self) -> Seq<char> {
        match self {
            Gender::All => "All"@,
            Gender::Male => "Male"@,
            Gender::Female => "Female"@,
            Gender::Unknown => "Unknown"@,
        }
    }

    /// The name under which the variant is stored.
    pub fn ident(&self) -> (name: &'static str)
        ensures
            name@ == self.ident_spec(),
    {
        match self {
            Gender::All => "All",
            Gender::Male => "Male",
            Gender::Female => "Female",
            Gender::Unknown => "Unknown",
        }
    }

    /// Every variant, in the order of declaration.
    pub open spec fn all_spec() -> Seq<Gender> {
        seq![
            Gender::All,
            Gender::Male,
            Gender::Female,
            Gender::Unknown,
        ]
    }

    /// Every variant, in the order of declaration.
    pub fn all() -> (list: Vec<Gender>)
        ensures
            list@ == Gender::all_spec(),
    {
        let mut list: Vec<Gender> = Vec::new();
        list.push(Gender::All);
        list.push(Gender::Male);
        list.push(Gender::Female);
        list.push(Gender::Unknown);
        list
    }

    /// The name for display: the variant's name in title case.
    pub fn to_string(&self) -> (text: String)
        ensures
            text@ == title_case(self.ident_spec()),
    {
        fmt_model(self.ident())
    }

    /// The variant that is stored under the name `text`, if there is one.
    pub open spec fn parse_ident(text: Seq<char>) -> Option<Gender> {
        if text == "All"@ {
            Some(Gender::All)
        } else if text == "Male"@ {
            Some(Gender::Male)
        } else if text == "Female"@ {
            Some(Gender::Female)
        } else if text == "Unknown"@ {
            Some(Gender::Unknown)
        } else {
            None
        }
    }

    /// Reads a name as it is stored; nothing if no variant is stored under it.
    pub fn from_ident(text: &str) -> (found: Option<Gender>)
        ensures
            found == Gender::parse_ident(text@),
    {
        if same_text(text, "All") {
            Some(Gender::All)
        } else if same_text(text, "Male") {
            Some(Gender::Male)
        } else if same_text(text, "Female") {
            Some(Gender::Female)
        } else if same_text(text, "Unknown") {
            Some(Gender::Unknown)
        } else {
            None
        }
    }

    /// The variant that is shown as `text`, if there is one.
    pub open spec fn parse(text: Seq<char>) -> Option<Gender> {
        if text == "All"@ {
            Some(Gender::All)
        } else if text == "Male"@ {
            Some(Gender::Male)
        } else if text == "Female"@ {
            Some(Gender::Female)
        } else if text == "Unknown"@ {
            Some(Gender::Unknown)
        } else {
            None
        }
    }

    /// Reads a name as it is shown; nothing if no variant is shown under it.
    pub fn from_str(text: &str) -> (found: Option<Gender>)
        ensures
            found == Gender::parse(text@),
    {
        if same_text(text, "All") {
            Some(Gender::All)
        } else if same_text(text, "Male") {
            Some(Gender::Male)
        } else if same_text(text, "Female") {
            Some(Gender::Female)
        } else if same_text(text, "Unknown") {
            Some(Gender::Unknown)
        } else {
            None
        }
    }
}

/// A yes/no answer that is stored and shown as a word.
#[derive(Clone, Copy, Debug, PartialEq, Eq, Structural, Hash)]
pub enum Boolean {
    True,
    False,
}

impl Boolean {
    /// The name under which the variant is stored.
    pub open spec fn ident_spec(self) -> Seq<char> {
        match self {
            Boolean::True => "True"@,
            Boolean::False => "False"@,
        }
    }

    /// The name under which the variant is stored.
    pub fn ident(&self) -> (name: &'static str)
        ensures
            name@ == self.ident_spec(),
    {
        match self {
            Boolean::True => "True",
            Boolean::False => "False",
        }
    }

    /// Every variant, in the order of declaration.
    pub open spec fn all_spec() -> Seq<Boolean> {
        seq![
            Boolean::True,
            Boolean::False,
        ]
    }

    /// Every variant, in the order of declaration.
    pub fn all() -> (list: Vec<Boolean>)
        ensures
            list@ == Boolean::all_spec(),
    {
        let mut list: Vec<Boolean> = Vec::new();
        list.push(Boolean::True);
        list.push(Boolean::False);
        list
    }

    /// The name for display: the variant's name in title case.
    pub fn to_string(&self) -> (text: String)
        ensures
            text@ == title_case(self.ident_spec()),
    {
        fmt_model(self.ident())
    }

    /// The variant that is stored under the name `text`, if there is one.
    pub open spec fn parse_ident(text: Seq<char>) -> Option<Boolean> {
        if text == "True"@ {
            Some(Boolean::True)
        } else if text == "False"@ {
            Some(Boolean::False)
        } else {
            None
        }
    }

    /// Reads a name as it is stored; nothing if no variant is stored under it.
    pub fn from_ident(text: &str) -> (found: Option<Boolean>)
        ensures
            found == Boolean::parse_ident(text@),
    {
        if same_text(text, "True") {
            Some(Boolean::True)
        } else if same_text(text, "False") {
            Some(Boolean::False)
        } else {
            None
        }
    }

    /// The variant that is shown as `text`, if there is one.
    pub open spec fn parse(text: Seq<char>) -> Option<Boolean> {
        if text == "True"@ {
            Some(Boolean::True)
        } else if text == "False"@ {
            Some(Boolean::False)
        } else {
            None
        }
    }

    /// Reads a name as it is shown; nothing if no variant is shown under it.
    pub fn from_str(text: &str) -> (found: Option<Boolean>)
        ensures
            found == Boolean::parse(text@),
    {
        if same_text(text, "True") {
            Some(Boolean::True)
        } else if same_text(text, "False") {
            Some(Boolean::False)
        } else {
            None
        }
    }
}

impl From<bool> for Boolean {
    /// `True` for `true`, `False` for `false`.
    fn from(b: bool) -> (word: Boolean) {
        if b {
            Boolean::True
        } else {
            Boolean::False
        }
    }
}

impl FromSpecImpl<bool> for Boolean {
    open spec fn obeys_from_spec() -> bool {
        true
    }

    open spec fn from_spec(b: bool) -> Boolean {
        if b {
            Boolean::True
        } else {
            Boolean::False
        }
    }
}

/// The columns of the trophy table.
#[derive(Clone, Copy, Debug, PartialEq, Eq, Structural, Hash)]
pub enum TrophyCols {
    Species,
    Reserve,
    Rating,
    Score,
    Weight,
    Fur,
    Gender,
    Date,
    Cash,
    XP,
    SessionScore,
    Integrity,
    Tracking,
    WeaponScore,
    ShotDistance,
    ShotDamage,
    Mods,
    Grind,
}

impl TrophyCols {
    /// The name under which the variant is stored.
    pub open spec fn ident_spec(self) -> Seq<char> {
        match self {
            TrophyCols::Species => "Species"@,
            TrophyCols::Reserve => "Reserve"@,
            TrophyCols::Rating => "Rating"@,
            TrophyCols::Score => "Score"@,
            TrophyCols::Weight => "Weight"@,
            TrophyCols::Fur => "Fur"@,
            TrophyCols::Gender => "Gender"@,
            TrophyCols::Date => "Date"@,
            TrophyCols::Cash => "Cash"@,
            TrophyCols::XP => "XP"@,
            TrophyCols::SessionScore => "SessionScore"@,
            TrophyCols::Integrity => "Integrity"@,
            TrophyCols::Tracking => "Tracking"@,
            TrophyCols::WeaponScore => "WeaponScore"@,
            TrophyCols::ShotDistance => "ShotDistance"@,
            TrophyCols::ShotDamage => "ShotDamage"@,
            TrophyCols::Mods => "Mods"@,
            TrophyCols::Grind => "Grind"@,
        }
    }

    /// The name under which the variant is stored.
    pub fn ident(&self) -> (name: &'static str)
        ensures
            name@ == self.ident_spec(),
    {
        match self {
            TrophyCols::Species => "Species",
            TrophyCols::Reserve => "Reserve",
            TrophyCols::Rating => "Rating",
            TrophyCols::Score => "Score",
            TrophyCols::Weight => "Weight",
            TrophyCols::Fur => "Fur",
            TrophyCols::Gender => "Gender",
            TrophyCols::Date => "Date",
            TrophyCols::Cash => "Cash",
            TrophyCols::XP => "XP",
            TrophyCols::SessionScore => "SessionScore",
            TrophyCols::Integrity => "Integrity",
            TrophyCols::Tracking => "Tracking",
            TrophyCols::WeaponScore => "WeaponScore",
            TrophyCols::ShotDistance => "ShotDistance",
            TrophyCols::ShotDamage => "ShotDamage",
            TrophyCols::Mods => "Mods",
            TrophyCols::Grind => "Grind",
        }
    }

    /// Every variant, in the order of declaration.
    pub open spec fn all_spec() -> Seq<TrophyCols> {
        seq![
            TrophyCols::Species,
            TrophyCols::Reserve,
            TrophyCols::Rating,
            TrophyCols::Score,
            TrophyCols::Weight,
            TrophyCols::Fur,
            TrophyCols::Gender,
            TrophyCols::Date,
            TrophyCols::Cash,
            TrophyCols::XP,
            TrophyCols::SessionScore,
            TrophyCols::Integrity,
            TrophyCols::Tracking,
            TrophyCols::WeaponScore,
            TrophyCols::ShotDistance,
            TrophyCols::ShotDamage,
            TrophyCols::Mods,
            TrophyCols::Grind,
        ]
    }

    /// Every variant, in the order of declaration.
    pub fn all() -> (list: Vec<TrophyCols>)
        ensures
            list@ == TrophyCols::all_spec(),
    {
        let mut list: Vec<TrophyCols> = Vec::new();
        list.push(TrophyCols::Species);
        list.push(TrophyCols::Reserve);
        list.push(TrophyCols::Rating);
        list.push(TrophyCols::Score);
        list.push(TrophyCols::Weight);
        list.push(TrophyCols::Fur);
        list.push(TrophyCols::Gender);
        list.push(TrophyCols::Date);
        list.push(TrophyCols::Cash);
        list.push(TrophyCols::XP);
        list.push(TrophyCols::SessionScore);
        list.push(TrophyCols::Integrity);
        list.push(TrophyCols::Tracking);
        list.push(TrophyCols::WeaponScore);
        list.push(TrophyCols::ShotDistance);
        list.push(TrophyCols::ShotDamage);
        list.push(TrophyCols::Mods);
        list.push(TrophyCols::Grind);
        list
    }

    /// The name for display: the variant's name in title case.
    pub fn to_string(&self) -> (text: String)
        ensures
            text@ == title_case(self.ident_spec()),
    {
        fmt_model(self.ident())
    }

    /// The variant that is stored under the name `text`, if there is one.
    pub open spec fn parse_ident(text: Seq<char>) -> Option<TrophyCols> {
        if text == "Species"@ {
            Some(TrophyCols::Species)
        } else if text == "Reserve"@ {
            Some(TrophyCols::Reserve)
        } else if text == "Rating"@ {
            Some(TrophyCols::Rating)
        } else if text == "Score"@ {
            Some(TrophyCols::Score)
        } else if text == "Weight"@ {
            Some(TrophyCols::Weight)
        } else if text == "Fur"@ {
            Some(TrophyCols::Fur)
        } else if text == "Gender"@ {
            Some(TrophyCols::Gender)
        } else if text == "Date"@ {
            Some(TrophyCols::Date)
        } else if text == "Cash"@ {
            Some(TrophyCols::Cash)
        } else if text == "XP"@ {
            Some(TrophyCols::XP)
        } else if text == "SessionScore"@ {
            Some(TrophyCols::SessionScore)
        } else if text == "Integrity"@ {
            Some(TrophyCols::Integrity)
        } else if text == "Tracking"@ {
            Some(TrophyCols::Tracking)
        } else if text == "WeaponScore"@ {
            Some(TrophyCols::WeaponScore)
        } else if text == "ShotDistance"@ {
            Some(TrophyCols::ShotDistance)
        } else if text == "ShotDamage"@ {
            Some(TrophyCols::ShotDamage)
        } else if text == "Mods"@ {
            Some(TrophyCols::Mods)
        } else if text == "Grind"@ {
            Some(TrophyCols::Grind)
        } else {
            None
        }
    }

    /// Reads a name as it is stored; nothing if no variant is stored under it.
    pub fn from_ident(text: &str) -> (found: Option<TrophyCols>)
        ensures
            found == TrophyCols::parse_ident(text@),
    {
        if same_text(text, "Species") {
            Some(TrophyCols::Species)
        } else if same_text(text, "Reserve") {
            Some(TrophyCols::Reserve)
        } else if same_text(text, "Rating") {
            Some(TrophyCols::Rating)
        } else if same_text(text, "Score") {
            Some(TrophyCols::Score)
        } else if same_text(text, "Weight") {
            Some(TrophyCols::Weight)
        } else if same_text(text, "Fur") {
            Some(TrophyCols::Fur)
        } else if same_text(text, "Gender") {
            Some(TrophyCols::Gender)
        } else if same_text(text, "Date") {
            Some(TrophyCols::Date)
        } else if same_text(text, "Cash") {
            Some(TrophyCols::Cash)
        } else if same_text(text, "XP") {
            Some(TrophyCols::XP)
        } else if same_text(text, "SessionScore") {
            Some(TrophyCols::SessionScore)
        } else if same_text(text, "Integrity") {
            Some(TrophyCols::Integrity)
        } else if same_text(text, "Tracking") {
            Some(TrophyCols::Tracking)
        } else if same_text(text, "WeaponScore") {
            Some(TrophyCols::WeaponScore)
        } else if same_text(text, "ShotDistance") {
            Some(TrophyCols::ShotDistance)
        } else if same_text(text, "ShotDamage") {
            Some(TrophyCols::ShotDamage)
        } else if same_text(text, "Mods") {
            Some(TrophyCols::Mods)
        } else if same_text(text, "Grind") {
            Some(TrophyCols::Grind)
        } else {
            None
        }
    }

    /// The variant that is shown as `text`, if there is one.
    pub open spec fn parse(text: Seq<char>) -> Option<TrophyCols> {
        if text == "Species"@ {
            Some(TrophyCols::Species)
        } else if text == "Reserve"@ {
            Some(TrophyCols::Reserve)
        } else if text == "Rating"@ {
            Some(TrophyCols::Rating)
        } else if text == "Score"@ {
            Some(TrophyCols::Score)
        } else if text == "Weight"@ {
            Some(TrophyCols::Weight)
        } else if text == "Fur"@ {
            Some(TrophyCols::Fur)
        } else if text == "Gender"@ {
            Some(TrophyCols::Gender)
        } else if text == "Date"@ {
            Some(TrophyCols::Date)
        } else if text == "Cash"@ {
            Some(TrophyCols::Cash)
        } else if text == "Xp"@ {
            Some(TrophyCols::XP)
        } else if text == "Session Score"@ {
            Some(TrophyCols::SessionScore)
        } else if text == "Integrity"@ {
            Some(TrophyCols::Integrity)
        } else if text == "Tracking"@ {
            Some(TrophyCols::Tracking)
        } else if text == "Weapon Score"@ {
            Some(TrophyCols::WeaponScore)
        } else if text == "Shot Distance"@ {
            Some(TrophyCols::ShotDistance)
        } else if text == "Shot Damage"@ {
            Some(TrophyCols::ShotDamage)
        } else if text == "Mods"@ {
            Some(TrophyCols::Mods)
        } else if text == "Grind"@ {
            Some(TrophyCols::Grind)
        } else {
            None
        }
    }

    /// Reads a name as it is shown; nothing if no variant is shown under it.
    pub fn from_str(text: &str) -> (found: Option<TrophyCols>)
        ensures
            found == TrophyCols::parse(text@),
    {
        if same_text(text, "Species") {
            Some(TrophyCols::Species)
        } else if same_text(text, "Reserve") {
            Some(TrophyCols::Reserve)
        } else if same_text(text, "Rating") {
            Some(TrophyCols::Rating)
        } else if same_text(text, "Score") {
            Some(TrophyCols::Score)
        } else if same_text(text, "Weight") {
            Some(TrophyCols::Weight)
        } else if same_text(text, "Fur") {
            Some(TrophyCols::Fur)
        } else if same_text(text, "Gender") {
            Some(TrophyCols::Gender)
        } else if same_text(text, "Date") {
            Some(TrophyCols::Date)
        } else if same_text(text, "Cash") {
            Some(TrophyCols::Cash)
        } else if same_text(text, "Xp") {
            Some(TrophyCols::XP)
        } else if same_text(text, "Session Score") {
            Some(TrophyCols::SessionScore)
        } else if same_text(text, "Integrity") {
            Some(TrophyCols::Integrity)
        } else if same_text(text, "Tracking") {
            Some(TrophyCols::Tracking)
        } else if same_text(text, "Weapon Score") {
            Some(TrophyCols::WeaponScore)
        } else if same_text(text, "Shot Distance") {
            Some(TrophyCols::ShotDistance)
        } else if same_text(text, "Shot Damage") {
            Some(TrophyCols::ShotDamage)
        } else if same_text(text, "Mods") {
            Some(TrophyCols::Mods)
        } else if same_text(text, "Grind") {
            Some(TrophyCols::Grind)
        } else {
            None
        }
    }
}

/// The place of a column in the trophy table, counted from the left.
pub open spec fn column_position(col: TrophyCols) -> int {
    match col {
        TrophyCols::Species => 0,
        TrophyCols::Reserve => 1,
        TrophyCols::Rating => 2,
        TrophyCols::Score => 3,
        TrophyCols::Weight => 4,
        TrophyCols::Fur => 5,
        TrophyCols::Gender => 6,
        TrophyCols::Date => 7,
        TrophyCols::Cash => 8,
        TrophyCols::XP => 9,
        TrophyCols::SessionScore => 10,
        TrophyCols::Integrity => 11,
        TrophyCols::Tracking => 12,
        TrophyCols::WeaponScore => 13,
        TrophyCols::ShotDistance => 14,
        TrophyCols::ShotDamage => 15,
        TrophyCols::Mods => 16,
        TrophyCols::Grind => 17,
    }
}

/// The place of a column in the trophy table, counted from the left.
pub fn trophy_col_order(col: &TrophyCols) -> (position: i32)
    ensures
        position == column_position(*col),
{
    match col {
        TrophyCols::Species => 0,
        TrophyCols::Reserve => 1,
        TrophyCols::Rating => 2,
        TrophyCols::Score => 3,
        TrophyCols::Weight => 4,
        TrophyCols::Fur => 5,
        TrophyCols::Gender => 6,
        TrophyCols::Date => 7,
        TrophyCols::Cash => 8,
        TrophyCols::XP => 9,
        TrophyCols::SessionScore => 10,
        TrophyCols::Integrity => 11,
        TrophyCols::Tracking => 12,
        TrophyCols::WeaponScore => 13,
        TrophyCols::ShotDistance => 14,
        TrophyCols::ShotDamage => 15,
        TrophyCols::Mods => 16,
        TrophyCols::Grind => 17,
    }
}

/// A harvest that was decoded and accepted. The measurements are single-precision
/// numbers, each held as its IEEE-754 bit pattern.
#[derive(Debug)]
pub struct Trophy {
    pub id: u32,
    pub species: Species,
    pub reserve: Reserve,
    pub rating: Rating,
    pub score: u32,
    pub weight: u32,
    pub fur: String,
    pub date: String,
    pub gender: Gender,
    pub cash: i32,
    pub xp: i32,
    pub session_score: i32,
    pub integrity: Boolean,
    pub tracking: u32,
    pub weapon_score: u32,
    pub shot_distance: u32,
    pub shot_damage: u32,
    pub mods: Boolean,
    pub grind: Option<String>,
}

/// What a trophy says, with its texts as sequences of characters.
pub struct TrophyView {
    pub id: u32,
    pub species: Species,
    pub reserve: Reserve,
    pub rating: Rating,
    pub score: u32,
    pub weight: u32,
    pub fur: Seq<char>,
    pub date: Seq<char>,
    pub gender: Gender,
    pub cash: i32,
    pub xp: i32,
    pub session_score: i32,
    pub integrity: Boolean,
    pub tracking: u32,
    pub weapon_score: u32,
    pub shot_distance: u32,
    pub shot_damage: u32,
    pub mods: Boolean,
    pub grind: Option<Seq<char>>,
}

impl View for Trophy {
    type V = TrophyView;

    open spec fn view(&self) -> TrophyView {
        TrophyView {
            id: self.id,
            species: self.species,
            reserve: self.reserve,
            rating: self.rating,
            score: self.score,
            weight: self.weight,
            fur: self.fur@,
            date: self.date@,
            gender: self.gender,
            cash: self.cash,
            xp: self.xp,
            session_score: self.session_score,
            integrity: self.integrity,
            tracking: self.tracking,
            weapon_score: self.weapon_score,
            shot_distance: self.shot_distance,
            shot_damage: self.shot_damage,
            mods: self.mods,
            grind: match self.grind {
                Some(names) => Some(names@),
                None => None,
            },
        }
    }
}

impl DeepView for Trophy {
    type V = TrophyView;

    open spec fn deep_view(&self) -> TrophyView {
        self@
    }
}

impl TrophyView {
    /// A harvest counts as a trophy only if both its species and its reserve were recognised.
    pub open spec fn valid(self) -> bool {
        self.species != Species::Unknown && self.reserve != Reserve::Unknown
    }
}

impl Trophy {
    /// Whether the harvest counts as a trophy: its species and its reserve were recognised.
    pub fn valid(&self) -> (valid: bool)
        ensures
            valid == self@.valid(),
    {
        self.species != Species::Unknown && self.reserve != Reserve::Unknown
    }

}

impl Clone for Trophy {
    /// A copy that says the same.
    fn clone(&self) -> (copy: Trophy)
        ensures
            copy@ == self@,
    {
        Trophy {
            id: self.id,
            species: self.species,
            reserve: self.reserve,
            rating: self.rating,
            score: self.score,
            weight: self.weight,
            fur: self.fur.clone(),
            date: self.date.clone(),
            gender: self.gender,
            cash: self.cash,
            xp: self.xp,
            session_score: self.session_score,
            integrity: self.integrity,
            tracking: self.tracking,
            weapon_score: self.weapon_score,
            shot_distance: self.shot_distance,
            shot_damage: self.shot_damage,
            mods: self.mods,
            grind: match &self.grind {
                Some(names) => Some(names.clone()),
                None => None,
            },
        }
    }
}

/// The choices that narrow and order the trophy table.
pub struct TrophyFilter {
    pub species: Species,
    pub reserve: Reserve,
    pub rating: Rating,
    pub gender: Gender,
    pub grind: String,
    pub sort_by: SortBy,
}

impl Default for TrophyFilter {
    /// The filter that lets every trophy through, newest first.
    fn default() -> (filter: TrophyFilter)
        ensures
            filter.species == Species::All,
            filter.reserve == Reserve::All,
            filter.rating == Rating::All,
            filter.gender == Gender::All,
            filter.grind@ == Seq::<char>::empty(),
            filter.sort_by == SortBy::Date,
    {
        TrophyFilter {
            species: Species::All,
            reserve: Reserve::All,
            rating: Rating::All,
            gender: Gender::All,
            grind: String::new(),
            sort_by: SortBy::Date,
        }
    }
}

/// A long-running goal: kills of one species on one reserve, counted under a name.
#[derive(Debug)]
pub struct Grind {
    pub name: String,
    pub species: Species,
    pub reserve: Reserve,
    pub active: bool,
    pub start: String,
    pub kills: i64,
    pub is_deleted: bool,
}

/// What a grind says, with its texts as sequences of characters.
pub struct GrindView {
    pub name: Seq<char>,
    pub species: Species,
    pub reserve: Reserve,
    pub active: bool,
    pub start: Seq<char>,
    pub kills: i64,
    pub is_deleted: bool,
}

impl View for Grind {
    type V = GrindView;

    open spec fn view(&self) -> GrindView {
        GrindView {
            name: self.name@,
            species: self.species,
            reserve: self.reserve,
            active: self.active,
            start: self.start@,
            kills: self.kills,
            is_deleted: self.is_deleted,
        }
    }
}

impl DeepView for Grind {
    type V = GrindView;

    open spec fn deep_view(&self) -> GrindView {
        self@
    }
}

impl Default for Grind {
    /// A sample grind under a random name, a number of one to ten digits, started now.
    fn default() -> (grind: Grind)
        ensures
            1 <= grind.name@.len() <= 10,
            forall|i: int| 0 <= i < grind.name@.len() ==> '0' <= #[trigger] grind.name@[i] <= '9',
            grind.species == Species::RedDeer,
            grind.reserve == Reserve::HirschfeldenHuntingReserve,
            !grind.active,
            grind.kills == 69,
            !grind.is_deleted,
    {
        Grind {
            name: random_name(),
            species: Species::RedDeer,
            reserve: Reserve::HirschfeldenHuntingReserve,
            active: false,
            start: local_timestamp(),
            kills: 69,
            is_deleted: false,
        }
    }
}

/// Whether one of `grinds` goes by `name`.
pub open spec fn name_taken(name: Seq<char>, grinds: Seq<GrindView>) -> bool {
    exists|i: int| 0 <= i < grinds.len() && (#[trigger] grinds[i]).name == name
}

impl GrindView {
    /// A grind can be started if it has a name that no other grind bears, and names a
    /// real species and a real reserve.
    pub open spec fn valid(self, grinds: Seq<GrindView>) -> bool {
        &&& self.name.len() > 0
        &&& self.species != Species::All
        &&& self.reserve != Reserve::All
        &&& self.species != Species::Unknown
        &&& self.reserve != Reserve::Unknown
        &&& !name_taken(self.name, grinds)
    }
}

impl Grind {
    /// Whether one of `grinds` goes by `name`.
    pub fn grind_exists(name: String, grinds: &Vec<Grind>) -> (exists: bool)
        ensures
            exists == name_taken(name@, grinds.deep_view()),
    {
        let mut i: usize = 0;
        while i < grinds.len()
            invariant
                i <= grinds.len(),
                forall|k: int| 0 <= k < i ==> (#[trigger] grinds.deep_view()[k]).name != name@,
            decreases grinds.len() - i,
        {
            assert(grinds.deep_view()[i as int] == grinds[i as int]@);
            if grinds[i].name == name {
                return true;
            }
            i += 1;
        }
        false
    }

    /// Whether the grind can be started beside `grinds`.
    pub fn valid(&self, grinds: &Vec<Grind>) -> (valid: bool)
        ensures
            valid == self@.valid(grinds.deep_view()),
    {
        self.name.as_str().unicode_len() > 0 && self.species != Species::All && self.reserve
            != Reserve::All && self.species != Species::Unknown && self.reserve
            != Reserve::Unknown && !Grind::grind_exists(self.name.clone(), grinds)
    }

}

impl Clone for Grind {
    /// A copy that says the same.
    fn clone(&self) -> (copy: Grind)
        ensures
            copy@ == self@,
    {
        Grind {
            name: self.name.clone(),
            species: self.species,
            reserve: self.reserve,
            active: self.active,
            start: self.start.clone(),
            kills: self.kills,
            is_deleted: self.is_deleted,
        }
    }
}

/// The notice that a harvest counted towards the grind of this name.
#[derive(Debug)]
pub struct GrindKill {
    pub name: String,
}

impl View for GrindKill {
    type V = Seq<char>;

    open spec fn view(&self) -> Seq<char> {
        self.name@
    }
}

impl DeepView for GrindKill {
    type V = Seq<char>;

    open spec fn deep_view(&self) -> Seq<char> {
        self.name@
    }
}

/// A goal set for the hunter: so many kills that meet the conditions. The weight and
/// the score are single-precision numbers, each held as its IEEE-754 bit pattern.
#[derive(Debug)]
pub struct Challenge {
    pub name: String,
    pub description: String,
    pub start: String,
    pub species: Species,
    pub reserve: Reserve,
    pub rating: Rating,
    pub gender: Gender,
    pub weapon: Weapon,
    pub mods: Boolean,
    pub public: Boolean,
    pub shot_damage: u32,
    pub shot_distance: u32,
    pub tracking: u32,
    pub kills: u32,
    pub kills_remaining: u32,
    pub total_shots: u32,
    pub weight: u32,
    pub score: u32,
}

/// What a challenge says, with its texts as sequences of characters.
pub struct ChallengeView {
    pub name: Seq<char>,
    pub description: Seq<char>,
    pub start: Seq<char>,
    pub species: Species,
    pub reserve: Reserve,
    pub rating: Rating,
    pub gender: Gender,
    pub weapon: Weapon,
    pub mods: Boolean,
    pub public: Boolean,
    pub shot_damage: u32,
    pub shot_distance: u32,
    pub tracking: u32,
    pub kills: u32,
    pub kills_remaining: u32,
    pub total_shots: u32,
    pub weight: u32,
    pub score: u32,
}

impl View for Challenge {
    type V = ChallengeView;

    open spec fn view(&self) -> ChallengeView {
        ChallengeView {
            name: self.name@,
            description: self.description@,
            start: self.start@,
            species: self.species,
            reserve: self.reserve,
            rating: self.rating,
            gender: self.gender,
            weapon: self.weapon,
            mods: self.mods,
            public: self.public,
            shot_damage: self.shot_damage,
            shot_distance: self.shot_distance,
            tracking: self.tracking,
            kills: self.kills,
            kills_remaining: self.kills_remaining,
            total_shots: self.total_shots,
            weight: self.weight,
            score: self.score,
        }
    }
}

impl DeepView for Challenge {
    type V = ChallengeView;

    open spec fn deep_view(&self) -> ChallengeView {
        self@
    }
}

impl ChallengeView {
    /// A challenge can be taken up if it has a name and asks for at least one kill.
    pub open spec fn valid(self) -> bool {
        self.name.len() > 0 && self.kills > 0
    }

    /// The challenge that nobody has filled in yet.
    pub open spec fn blank() -> ChallengeView {
        ChallengeView {
            name: Seq::empty(),
            description: Seq::empty(),
            start: Seq::empty(),
            species: Species::Unknown,
            reserve: Reserve::Unknown,
            rating: Rating::Unknown,
            gender: Gender::Unknown,
            weapon: Weapon::Unknown,
            mods: Boolean::False,
            public: Boolean::False,
            shot_damage: 0,
            shot_distance: 0,
            tracking: 0,
            kills: 1,
            kills_remaining: 1,
            total_shots: 0,
            weight: 0,
            score: 0,
        }
    }
}

impl Default for Challenge {
    /// The challenge that nobody has filled in yet.
    fn default() -> (challenge: Challenge)
        ensures
            challenge@ == ChallengeView::blank(),
    {
        Challenge {
            name: String::new(),
            description: String::new(),
            start: String::new(),
            species: Species::Unknown,
            reserve: Reserve::Unknown,
            rating: Rating::Unknown,
            gender: Gender::Unknown,
            weapon: Weapon::Unknown,
            mods: Boolean::False,
            public: Boolean::False,
            shot_damage: 0,
            shot_distance: 0,
            tracking: 0,
            kills: 1,
            kills_remaining: 1,
            total_shots: 0,
            weight: 0,
            score: 0,
        }
    }
}

impl Challenge {
    /// Whether the challenge can be taken up: it has a name and asks for at least one kill.
    pub fn valid(&self) -> (valid: bool)
        ensures
            valid == self@.valid(),
    {
        self.name.as_str().unicode_len() > 0 && self.kills > 0
    }

}

impl Clone for Challenge {
    /// A copy that says the same.
    fn clone(&self) -> (copy: Challenge)
        ensures
            copy@ == self@,
    {
        Challenge {
            name: self.name.clone(),
            description: self.description.clone(),
            start: self.start.clone(),
            species: self.species,
            reserve: self.reserve,
            rating: self.rating,
            gender: self.gender,
            weapon: self.weapon,
            mods: self.mods,
            public: self.public,
            shot_damage: self.shot_damage,
            shot_distance: self.shot_distance,
            tracking: self.tracking,
            kills: self.kills,
            kills_remaining: self.kills_remaining,
            total_shots: self.total_shots,
            weight: self.weight,
            score: self.score,
        }
    }
}

/// How far a challenge has come: of `total_kills` asked for by all its parts,
/// `kills_completed` are done.
#[derive(Debug)]
pub struct ChallengeSummary {
    pub name: String,
    pub description: String,
    pub start: String,
    pub kills_completed: u64,
    pub total_kills: u64,
    pub is_deleted: bool,
}

/// What a summary says, with its texts as sequences of characters.
pub struct ChallengeSummaryView {
    pub name: Seq<char>,
    pub description: Seq<char>,
    pub start: Seq<char>,
    pub kills_completed: u64,
    pub total_kills: u64,
    pub is_deleted: bool,
}

impl View for ChallengeSummary {
    type V = ChallengeSummaryView;

    open spec fn view(&self) -> ChallengeSummaryView {
        ChallengeSummaryView {
            name: self.name@,
            description: self.description@,
            start: self.start@,
            kills_completed: self.kills_completed,
            total_kills: self.total_kills,
            is_deleted: self.is_deleted,
        }
    }
}

impl ChallengeSummaryView {
    /// The summary of nothing.
    pub open spec fn blank() -> ChallengeSummaryView {
        ChallengeSummaryView {
            name: Seq::empty(),
            description: Seq::empty(),
            start: Seq::empty(),
            kills_completed: 0,
            total_kills: 0,
            is_deleted: false,
        }
    }
}

impl Default for ChallengeSummary {
    /// The summary of nothing.
    fn default() -> (summary: ChallengeSummary)
        ensures
            summary@ == ChallengeSummaryView::blank(),
    {
        ChallengeSummary {
            name: String::new(),
            description: String::new(),
            start: String::new(),
            kills_completed: 0,
            total_kills: 0,
            is_deleted: false,
        }
    }
}

impl PartialEq for Challenge {
    fn eq(&self, other: &Challenge) -> (same: bool) {
        self.name == other.name && self.description == other.description && self.start
            == other.start && self.species == other.species && self.reserve == other.reserve
            && self.rating == other.rating && self.gender == other.gender && self.weapon
            == other.weapon && self.mods == other.mods && self.public == other.public
            && self.shot_damage == other.shot_damage && self.shot_distance == other.shot_distance
            && self.tracking == other.tracking && self.kills == other.kills && self.kills_remaining
            == other.kills_remaining && self.total_shots == other.total_shots && self.weight
            == other.weight && self.score == other.score
    }
}

impl PartialEqSpecImpl for Challenge {
    open spec fn obeys_eq_spec() -> bool {
        true
    }

    open spec fn eq_spec(&self, other: &Challenge) -> bool {
        self@ == other@
    }
}

impl PartialEq for Trophy {
    fn eq(&self, other: &Trophy) -> (same: bool) {
        let same_grind = match (&self.grind, &other.grind) {
            (Some(mine), Some(theirs)) => *mine == *theirs,
            (None, None) => true,
            _ => false,
        };
        self.id == other.id && self.species == other.species && self.reserve == other.reserve
            && self.rating == other.rating && self.score == other.score && self.weight
            == other.weight && self.fur == other.fur && self.date == other.date && self.gender
            == other.gender && self.cash == other.cash && self.xp == other.xp
            && self.session_score == other.session_score && self.integrity == other.integrity
            && self.tracking == other.tracking && self.weapon_score == other.weapon_score
            && self.shot_distance == other.shot_distance && self.shot_damage == other.shot_damage
            && self.mods == other.mods && same_grind
    }
}

impl PartialEqSpecImpl for Trophy {
    open spec fn obeys_eq_spec() -> bool {
        true
    }

    open spec fn eq_spec(&self, other: &Trophy) -> bool {
        self@ == other@
    }
}

impl PartialEq for Grind {
    fn eq(&self, other: &Grind) -> (same: bool) {
        self.name == other.name && self.species == other.species && self.reserve == other.reserve
            && self.active == other.active && self.start == other.start && self.kills
            == other.kills && self.is_deleted == other.is_deleted
    }
}

impl PartialEqSpecImpl for Grind {
    open spec fn obeys_eq_spec() -> bool {
        true
    }

    open spec fn eq_spec(&self, other: &Grind) -> bool {
        self@ == other@
    }
}

impl PartialEq for ChallengeSummary {
    fn eq(&self, other: &ChallengeSummary) -> (same: bool) {
        self.name == other.name && self.description == other.description && self.start
            == other.start && self.kills_completed == other.kills_completed && self.total_kills
            == other.total_kills && self.is_deleted == other.is_deleted
    }
}

impl PartialEqSpecImpl for ChallengeSummary {
    open spec fn obeys_eq_spec() -> bool {
        true
    }

    open spec fn eq_spec(&self, other: &ChallengeSummary) -> bool {
        self@ == other@
    }
}

} // verus!
