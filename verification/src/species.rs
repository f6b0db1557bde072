//! The species of the game.

use crate::text::{fmt_model, same_text, title_case};
use vstd::prelude::*;

verus! {

/// The animals that the game knows, with `All` for "any" and `Unknown` for a name that was not recognised.
#[derive(Clone, Copy, Debug, PartialEq, Eq, Structural, Hash)]
pub enum Species {
    All,
    AmericanAlligator,
    AntelopeJackrabbit,
    AxisDeer,
    Banteng,
    BeciteIbex,
    BighornSheep,
    BlackBear,
    BlackGrouse,
    Blackbuck,
    BlacktailDeer,
    BlueWildebeest,
    Bobcat,
    BobwhiteQuail,
    BrownBear,
    CanadaGoose,
    CapeBuffalo,
    Caribou,
    Chamois,
    CinnamonTeal,
    CollaredPeccary,
    CommonRaccoon,
    Coyote,
    EasternCottontailRabbit,
    EasternGrayKangaroo,
    EasternWildTurkey,
    EurasianLynx,
    EurasianTeal,
    EurasianWigeon,
    EuropeanBison,
    EuropeanHare,
    EuropeanRabbit,
    FallowDeer,
    FeralGoat,
    FeralPig,
    Gemsbok,
    Goldeneye,
    GrayFox,
    GrayWolf,
    GredosIbex,
    GreenWingedTeal,
    GreylagGoose,
    GrizzlyBear,
    HarlequinDuck,
    HazelGrouse,
    HogDeer,
    IberianMouflon,
    IberianWolf,
    JavanRusa,
    LesserKudu,
    Lion,
    MagpieGoose,
    Mallard,
    MerriamTurkey,
    MexicanBobcat,
    Moose,
    MountainGoat,
    MountainHare,
    MuleDeer,
    PlainsBison,
    Pronghorn,
    Puma,
    RaccoonDog,
    RedDeer,
    RedFox,
    Reindeer,
    RingNeckedPheasant,
    RioGrandeTurkey,
    RockPtarmigan,
    RockymountainElk,
    RoeDeer,
    RondaIbex,
    RooseveltElk,
    SaltwaterCrocodile,
    Sambar,
    ScrubHare,
    SiberianMuskDeer,
    SideStripedJackal,
    SikaDeer,
    SoutheasternSpanishIbex,
    Springbok,
    StubbedQuail,
    TuftedDuck,
    TundraBeanGoose,
    Warthog,
    WaterBuffalo,
    WesternCapercaillie,
    WhitetailDeer,
    WhiteTailedJackrabbit,
    WildBoar,
    WillowPtarmigan,
    Unknown,
}

impl Species {
    /// The name under which the variant is stored.
    pub open spec fn ident_spec(self) -> Seq<char> {
        match self {
            Species::All => "All"@,
            Species::AmericanAlligator => "AmericanAlligator"@,
            Species::AntelopeJackrabbit => "AntelopeJackrabbit"@,
            Species::AxisDeer => "AxisDeer"@,
            Species::Banteng => "Banteng"@,
            Species::BeciteIbex => "BeciteIbex"@,
            Species::BighornSheep => "BighornSheep"@,
            Species::BlackBear => "BlackBear"@,
            Species::BlackGrouse => "BlackGrouse"@,
            Species::Blackbuck => "Blackbuck"@,
            Species::BlacktailDeer => "BlacktailDeer"@,
            Species::BlueWildebeest => "BlueWildebeest"@,
            Species::Bobcat => "Bobcat"@,
            Species::BobwhiteQuail => "BobwhiteQuail"@,
            Species::BrownBear => "BrownBear"@,
            Species::CanadaGoose => "CanadaGoose"@,
            Species::CapeBuffalo => "CapeBuffalo"@,
            Species::Caribou => "Caribou"@,
            Species::Chamois => "Chamois"@,
            Species::CinnamonTeal => "CinnamonTeal"@,
            Species::CollaredPeccary => "CollaredPeccary"@,
            Species::CommonRaccoon => "CommonRaccoon"@,
            Species::Coyote => "Coyote"@,
            Species::EasternCottontailRabbit => "EasternCottontailRabbit"@,
            Species::EasternGrayKangaroo => "EasternGrayKangaroo"@,
            Species::EasternWildTurkey => "EasternWildTurkey"@,
            Species::EurasianLynx => "EurasianLynx"@,
            Species::EurasianTeal => "EurasianTeal"@,
            Species::EurasianWigeon => "EurasianWigeon"@,
            Species::EuropeanBison => "EuropeanBison"@,
            Species::EuropeanHare => "EuropeanHare"@,
            Species::EuropeanRabbit => "EuropeanRabbit"@,
            Species::FallowDeer => "FallowDeer"@,
            Species::FeralGoat => "FeralGoat"@,
            Species::FeralPig => "FeralPig"@,
            Species::Gemsbok => "Gemsbok"@,
            Species::Goldeneye => "Goldeneye"@,
            Species::GrayFox => "GrayFox"@,
            Species::GrayWolf => "GrayWolf"@,
            Species::GredosIbex => "GredosIbex"@,
            Species::GreenWingedTeal => "GreenWingedTeal"@,
            Species::GreylagGoose => "GreylagGoose"@,
            Species::GrizzlyBear => "GrizzlyBear"@,
            Species::HarlequinDuck => "HarlequinDuck"@,
            Species::HazelGrouse => "HazelGrouse"@,
            Species::HogDeer => "HogDeer"@,
            Species::IberianMouflon => "IberianMouflon"@,
            Species::IberianWolf => "IberianWolf"@,
            Species::JavanRusa => "JavanRusa"@,
            Species::LesserKudu => "LesserKudu"@,
            Species::Lion => "Lion"@,
            Species::MagpieGoose => "MagpieGoose"@,
            Species::Mallard => "Mallard"@,
            Species::MerriamTurkey => "MerriamTurkey"@,
            Species::MexicanBobcat => "MexicanBobcat"@,
            Species::Moose => "Moose"@,
            Species::MountainGoat => "MountainGoat"@,
            Species::MountainHare => "MountainHare"@,
            Species::MuleDeer => "MuleDeer"@,
            Species::PlainsBison => "PlainsBison"@,
            Species::Pronghorn => "Pronghorn"@,
            Species::Puma => "Puma"@,
            Species::RaccoonDog => "RaccoonDog"@,
            Species::RedDeer => "RedDeer"@,
            Species::RedFox => "RedFox"@,
            Species::Reindeer => "Reindeer"@,
            Species::RingNeckedPheasant => "RingNeckedPheasant"@,
            Species::RioGrandeTurkey => "RioGrandeTurkey"@,
            Species::RockPtarmigan => "RockPtarmigan"@,
            Species::RockymountainElk => "RockymountainElk"@,
            Species::RoeDeer => "RoeDeer"@,
            Species::RondaIbex => "RondaIbex"@,
            Species::RooseveltElk => "RooseveltElk"@,
            Species::SaltwaterCrocodile => "SaltwaterCrocodile"@,
            Species::Sambar => "Sambar"@,
            Species::ScrubHare => "ScrubHare"@,
            Species::SiberianMuskDeer => "SiberianMuskDeer"@,
            Species::SideStripedJackal => "SideStripedJackal"@,
            Species::SikaDeer => "SikaDeer"@,
            Species::SoutheasternSpanishIbex => "SoutheasternSpanishIbex"@,
            Species::Springbok => "Springbok"@,
            Species::StubbedQuail => "StubbedQuail"@,
            Species::TuftedDuck => "TuftedDuck"@,
            Species::TundraBeanGoose => "TundraBeanGoose"@,
            Species::Warthog => "Warthog"@,
            Species::WaterBuffalo => "WaterBuffalo"@,
            Species::WesternCapercaillie => "WesternCapercaillie"@,
            Species::WhitetailDeer => "WhitetailDeer"@,
            Species::WhiteTailedJackrabbit => "WhiteTailedJackrabbit"@,
            Species::WildBoar => "WildBoar"@,
            Species::WillowPtarmigan => "WillowPtarmigan"@,
            Species::Unknown => "Unknown"@,
        }
    }

    /// The name under which the variant is stored.
    pub fn ident(&self) -> (name: &'static str)
        ensures
            name@ == self.ident_spec(),
    {
        match self {
            Species::All => "All",
            Species::AmericanAlligator => "AmericanAlligator",
            Species::AntelopeJackrabbit => "AntelopeJackrabbit",
            Species::AxisDeer => "AxisDeer",
            Species::Banteng => "Banteng",
            Species::BeciteIbex => "BeciteIbex",
            Species::BighornSheep => "BighornSheep",
            Species::BlackBear => "BlackBear",
            Species::BlackGrouse => "BlackGrouse",
            Species::Blackbuck => "Blackbuck",
            Species::BlacktailDeer => "BlacktailDeer",
            Species::BlueWildebeest => "BlueWildebeest",
            Species::Bobcat => "Bobcat",
            Species::BobwhiteQuail => "BobwhiteQuail",
            Species::BrownBear => "BrownBear",
            Species::CanadaGoose => "CanadaGoose",
            Species::CapeBuffalo => "CapeBuffalo",
            Species::Caribou => "Caribou",
            Species::Chamois => "Chamois",
            Species::CinnamonTeal => "CinnamonTeal",
            Species::CollaredPeccary => "CollaredPeccary",
            Species::CommonRaccoon => "CommonRaccoon",
            Species::Coyote => "Coyote",
            Species::EasternCottontailRabbit => "EasternCottontailRabbit",
            Species::EasternGrayKangaroo => "EasternGrayKangaroo",
            Species::EasternWildTurkey => "EasternWildTurkey",
            Species::EurasianLynx => "EurasianLynx",
            Species::EurasianTeal => "EurasianTeal",
            Species::EurasianWigeon => "EurasianWigeon",
            Species::EuropeanBison => "EuropeanBison",
            Species::EuropeanHare => "EuropeanHare",
            Species::EuropeanRabbit => "EuropeanRabbit",
            Species::FallowDeer => "FallowDeer",
            Species::FeralGoat => "FeralGoat",
            Species::FeralPig => "FeralPig",
            Species::Gemsbok => "Gemsbok",
            Species::Goldeneye => "Goldeneye",
            Species::GrayFox => "GrayFox",
            Species::GrayWolf => "GrayWolf",
            Species::GredosIbex => "GredosIbex",
            Species::GreenWingedTeal => "GreenWingedTeal",
            Species::GreylagGoose => "GreylagGoose",
            Species::GrizzlyBear => "GrizzlyBear",
            Species::HarlequinDuck => "HarlequinDuck",
            Species::HazelGrouse => "HazelGrouse",
            Species::HogDeer => "HogDeer",
            Species::IberianMouflon => "IberianMouflon",
            Species::IberianWolf => "IberianWolf",
            Species::JavanRusa => "JavanRusa",
            Species::LesserKudu => "LesserKudu",
            Species::Lion => "Lion",
            Species::MagpieGoose => "MagpieGoose",
            Species::Mallard => "Mallard",
            Species::MerriamTurkey => "MerriamTurkey",
            Species::MexicanBobcat => "MexicanBobcat",
            Species::Moose => "Moose",
            Species::MountainGoat => "MountainGoat",
            Species::MountainHare => "MountainHare",
            Species::MuleDeer => "MuleDeer",
            Species::PlainsBison => "PlainsBison",
            Species::Pronghorn => "Pronghorn",
            Species::Puma => "Puma",
            Species::RaccoonDog => "RaccoonDog",
            Species::RedDeer => "RedDeer",
            Species::RedFox => "RedFox",
            Species::Reindeer => "Reindeer",
            Species::RingNeckedPheasant => "RingNeckedPheasant",
            Species::RioGrandeTurkey => "RioGrandeTurkey",
            Species::RockPtarmigan => "RockPtarmigan",
            Species::RockymountainElk => "RockymountainElk",
            Species::RoeDeer => "RoeDeer",
            Species::RondaIbex => "RondaIbex",
            Species::RooseveltElk => "RooseveltElk",
            Species::SaltwaterCrocodile => "SaltwaterCrocodile",
            Species::Sambar => "Sambar",
            Species::ScrubHare => "ScrubHare",
            Species::SiberianMuskDeer => "SiberianMuskDeer",
            Species::SideStripedJackal => "SideStripedJackal",
            Species::SikaDeer => "SikaDeer",
            Species::SoutheasternSpanishIbex => "SoutheasternSpanishIbex",
            Species::Springbok => "Springbok",
            Species::StubbedQuail => "StubbedQuail",
            Species::TuftedDuck => "TuftedDuck",
            Species::TundraBeanGoose => "TundraBeanGoose",
            Species::Warthog => "Warthog",
            Species::WaterBuffalo => "WaterBuffalo",
            Species::WesternCapercaillie => "WesternCapercaillie",
            Species::WhitetailDeer => "WhitetailDeer",
            Species::WhiteTailedJackrabbit => "WhiteTailedJackrabbit",
            Species::WildBoar => "WildBoar",
            Species::WillowPtarmigan => "WillowPtarmigan",
            Species::Unknown => "Unknown",
        }
    }

    /// The variant declared at place `i`, counted from 0; the last one for any other `i`.
    pub open spec fn at_spec(i: int) -> Species {
        if i == 0 {
            Species::All
        } else if i == 1 {
            Species::AmericanAlligator
        } else if i == 2 {
            Species::AntelopeJackrabbit
        } else if i == 3 {
            Species::AxisDeer
        } else if i == 4 {
            Species::Banteng
        } else if i == 5 {
            Species::BeciteIbex
        } else if i == 6 {
            Species::BighornSheep
        } else if i == 7 {
            Species::BlackBear
        } else if i == 8 {
            Species::BlackGrouse
        } else if i == 9 {
            Species::Blackbuck
        } else if i == 10 {
            Species::BlacktailDeer
        } else if i == 11 {
            Species::BlueWildebeest
        } else if i == 12 {
            Species::Bobcat
        } else if i == 13 {
            Species::BobwhiteQuail
        } else if i == 14 {
            Species::BrownBear
        } else if i == 15 {
            Species::CanadaGoose
        } else if i == 16 {
            Species::CapeBuffalo
        } else if i == 17 {
            Species::Caribou
        } else if i == 18 {
            Species::Chamois
        } else if i == 19 {
            Species::CinnamonTeal
        } else if i == 20 {
            Species::CollaredPeccary
        } else if i == 21 {
            Species::CommonRaccoon
        } else if i == 22 {
            Species::Coyote
        } else if i == 23 {
            Species::EasternCottontailRabbit
        } else if i == 24 {
            Species::EasternGrayKangaroo
        } else if i == 25 {
            Species::EasternWildTurkey
        } else if i == 26 {
            Species::EurasianLynx
        } else if i == 27 {
            Species::EurasianTeal
        } else if i == 28 {
            Species::EurasianWigeon
        } else if i == 29 {
            Species::EuropeanBison
        } else if i == 30 {
            Species::EuropeanHare
        } else if i == 31 {
            Species::EuropeanRabbit
        } else if i == 32 {
            Species::FallowDeer
        } else if i == 33 {
            Species::FeralGoat
        } else if i == 34 {
            Species::FeralPig
        } else if i == 35 {
            Species::Gemsbok
        } else if i == 36 {
            Species::Goldeneye
        } else if i == 37 {
            Species::GrayFox
        } else if i == 38 {
            Species::GrayWolf
        } else if i == 39 {
            Species::GredosIbex
        } else if i == 40 {
            Species::GreenWingedTeal
        } else if i == 41 {
            Species::GreylagGoose
        } else if i == 42 {
            Species::GrizzlyBear
        } else if i == 43 {
            Species::HarlequinDuck
        } else if i == 44 {
            Species::HazelGrouse
        } else if i == 45 {
            Species::HogDeer
        } else if i == 46 {
            Species::IberianMouflon
        } else if i == 47 {
            Species::IberianWolf
        } else if i == 48 {
            Species::JavanRusa
        } else if i == 49 {
            Species::LesserKudu
        } else if i == 50 {
            Species::Lion
        } else if i == 51 {
            Species::MagpieGoose
        } else if i == 52 {
            Species::Mallard
        } else if i == 53 {
            Species::MerriamTurkey
        } else if i == 54 {
            Species::MexicanBobcat
        } else if i == 55 {
            Species::Moose
        } else if i == 56 {
            Species::MountainGoat
        } else if i == 57 {
            Species::MountainHare
        } else if i == 58 {
            Species::MuleDeer
        } else if i == 59 {
            Species::PlainsBison
        } else if i == 60 {
            Species::Pronghorn
        } else if i == 61 {
            Species::Puma
        } else if i == 62 {
            Species::RaccoonDog
        } else if i == 63 {
            Species::RedDeer
        } else if i == 64 {
            Species::RedFox
        } else if i == 65 {
            Species::Reindeer
        } else if i == 66 {
            Species::RingNeckedPheasant
        } else if i == 67 {
            Species::RioGrandeTurkey
        } else if i == 68 {
            Species::RockPtarmigan
        } else if i == 69 {
            Species::RockymountainElk
        } else if i == 70 {
            Species::RoeDeer
        } else if i == 71 {
            Species::RondaIbex
        } else if i == 72 {
            Species::RooseveltElk
        } else if i == 73 {
            Species::SaltwaterCrocodile
        } else if i == 74 {
            Species::Sambar
        } else if i == 75 {
            Species::ScrubHare
        } else if i == 76 {
            Species::SiberianMuskDeer
        } else if i == 77 {
            Species::SideStripedJackal
        } else if i == 78 {
            Species::SikaDeer
        } else if i == 79 {
            Species::SoutheasternSpanishIbex
        } else if i == 80 {
            Species::Springbok
        } else if i == 81 {
            Species::StubbedQuail
        } else if i == 82 {
            Species::TuftedDuck
        } else if i == 83 {
            Species::TundraBeanGoose
        } else if i == 84 {
            Species::Warthog
        } else if i == 85 {
            Species::WaterBuffalo
        } else if i == 86 {
            Species::WesternCapercaillie
        } else if i == 87 {
            Species::WhitetailDeer
        } else if i == 88 {
            Species::WhiteTailedJackrabbit
        } else if i == 89 {
            Species::WildBoar
        } else if i == 90 {
            Species::WillowPtarmigan
        } else {
            Species::Unknown
        }
    }

    /// The variant declared at place `i`, counted from 0; the last one for any other `i`.
    pub fn at(i: usize) -> (variant: Species)
        ensures
            variant == Species::at_spec(i as int),
    {
        if i == 0 {
            Species::All
        } else if i == 1 {
            Species::AmericanAlligator
        } else if i == 2 {
            Species::AntelopeJackrabbit
        } else if i == 3 {
            Species::AxisDeer
        } else if i == 4 {
            Species::Banteng
        } else if i == 5 {
            Species::BeciteIbex
        } else if i == 6 {
            Species::BighornSheep
        } else if i == 7 {
            Species::BlackBear
        } else if i == 8 {
            Species::BlackGrouse
        } else if i == 9 {
            Species::Blackbuck
        } else if i == 10 {
            Species::BlacktailDeer
        } else if i == 11 {
            Species::BlueWildebeest
        } else if i == 12 {
            Species::Bobcat
        } else if i == 13 {
            Species::BobwhiteQuail
        } else if i == 14 {
            Species::BrownBear
        } else if i == 15 {
            Species::CanadaGoose
        } else if i == 16 {
            Species::CapeBuffalo
        } else if i == 17 {
            Species::Caribou
        } else if i == 18 {
            Species::Chamois
        } else if i == 19 {
            Species::CinnamonTeal
        } else if i == 20 {
            Species::CollaredPeccary
        } else if i == 21 {
            Species::CommonRaccoon
        } else if i == 22 {
            Species::Coyote
        } else if i == 23 {
            Species::EasternCottontailRabbit
        } else if i == 24 {
            Species::EasternGrayKangaroo
        } else if i == 25 {
            Species::EasternWildTurkey
        } else if i == 26 {
            Species::EurasianLynx
        } else if i == 27 {
            Species::EurasianTeal
        } else if i == 28 {
            Species::EurasianWigeon
        } else if i == 29 {
            Species::EuropeanBison
        } else if i == 30 {
            Species::EuropeanHare
        } else if i == 31 {
            Species::EuropeanRabbit
        } else if i == 32 {
            Species::FallowDeer
        } else if i == 33 {
            Species::FeralGoat
        } else if i == 34 {
            Species::FeralPig
        } else if i == 35 {
            Species::Gemsbok
        } else if i == 36 {
            Species::Goldeneye
        } else if i == 37 {
            Species::GrayFox
        } else if i == 38 {
            Species::GrayWolf
        } else if i == 39 {
            Species::GredosIbex
        } else if i == 40 {
            Species::GreenWingedTeal
        } else if i == 41 {
            Species::GreylagGoose
        } else if i == 42 {
            Species::GrizzlyBear
        } else if i == 43 {
            Species::HarlequinDuck
        } else if i == 44 {
            Species::HazelGrouse
        } else if i == 45 {
            Species::HogDeer
        } else if i == 46 {
            Species::IberianMouflon
        } else if i == 47 {
            Species::IberianWolf
        } else if i == 48 {
            Species::JavanRusa
        } else if i == 49 {
            Species::LesserKudu
        } else if i == 50 {
            Species::Lion
        } else if i == 51 {
            Species::MagpieGoose
        } else if i == 52 {
            Species::Mallard
        } else if i == 53 {
            Species::MerriamTurkey
        } else if i == 54 {
            Species::MexicanBobcat
        } else if i == 55 {
            Species::Moose
        } else if i == 56 {
            Species::MountainGoat
        } else if i == 57 {
            Species::MountainHare
        } else if i == 58 {
            Species::MuleDeer
        } else if i == 59 {
            Species::PlainsBison
        } else if i == 60 {
            Species::Pronghorn
        } else if i == 61 {
            Species::Puma
        } else if i == 62 {
            Species::RaccoonDog
        } else if i == 63 {
            Species::RedDeer
        } else if i == 64 {
            Species::RedFox
        } else if i == 65 {
            Species::Reindeer
        } else if i == 66 {
            Species::RingNeckedPheasant
        } else if i == 67 {
            Species::RioGrandeTurkey
        } else if i == 68 {
            Species::RockPtarmigan
        } else if i == 69 {
            Species::RockymountainElk
        } else if i == 70 {
            Species::RoeDeer
        } else if i == 71 {
            Species::RondaIbex
        } else if i == 72 {
            Species::RooseveltElk
        } else if i == 73 {
            Species::SaltwaterCrocodile
        } else if i == 74 {
            Species::Sambar
        } else if i == 75 {
            Species::ScrubHare
        } else if i == 76 {
            Species::SiberianMuskDeer
        } else if i == 77 {
            Species::SideStripedJackal
        } else if i == 78 {
            Species::SikaDeer
        } else if i == 79 {
            Species::SoutheasternSpanishIbex
        } else if i == 80 {
            Species::Springbok
        } else if i == 81 {
            Species::StubbedQuail
        } else if i == 82 {
            Species::TuftedDuck
        } else if i == 83 {
            Species::TundraBeanGoose
        } else if i == 84 {
            Species::Warthog
        } else if i == 85 {
            Species::WaterBuffalo
        } else if i == 86 {
            Species::WesternCapercaillie
        } else if i == 87 {
            Species::WhitetailDeer
        } else if i == 88 {
            Species::WhiteTailedJackrabbit
        } else if i == 89 {
            Species::WildBoar
        } else if i == 90 {
            Species::WillowPtarmigan
        } else {
            Species::Unknown
        }
    }

    /// Every variant, in the order of declaration.
    pub open spec fn all_spec() -> Seq<Species> {
        Seq::new(92, |i: int| Species::at_spec(i))
    }

    /// Every variant, in the order of declaration.
    pub fn all() -> (list: Vec<Species>)
        ensures
            list@ == Species::all_spec(),
    {
        let mut list: Vec<Species> = Vec::new();
        let mut i: usize = 0;
        while i < 92
            invariant
                i <= 92,
                list@ == Seq::new(i as nat, |k: int| Species::at_spec(k)),
            decreases 92 - i,
        {
            list.push(Species::at(i));
            i += 1;
        }
        list
    }

    /// The name for display: the variant's name in title case.
    pub fn to_string(&self) -> (text: String)
        ensures
            text@ == title_case(self.ident_spec()),
    {
        fmt_model(self.ident())
    }

    /// The variant that is stored under the name `text`, if there is one.
    pub open spec fn parse_ident(text: Seq<char>) -> Option<Species> {
        if text == "All"@ {
            Some(Species::All)
        } else if text == "AmericanAlligator"@ {
            Some(Species::AmericanAlligator)
        } else if text == "AntelopeJackrabbit"@ {
            Some(Species::AntelopeJackrabbit)
        } else if text == "AxisDeer"@ {
            Some(Species::AxisDeer)
        } else if text == "Banteng"@ {
            Some(Species::Banteng)
        } else if text == "BeciteIbex"@ {
            Some(Species::BeciteIbex)
        } else if text == "BighornSheep"@ {
            Some(Species::BighornSheep)
        } else if text == "BlackBear"@ {
            Some(Species::BlackBear)
        } else if text == "BlackGrouse"@ {
            Some(Species::BlackGrouse)
        } else if text == "Blackbuck"@ {
            Some(Species::Blackbuck)
        } else if text == "BlacktailDeer"@ {
            Some(Species::BlacktailDeer)
        } else if text == "BlueWildebeest"@ {
            Some(Species::BlueWildebeest)
        } else if text == "Bobcat"@ {
            Some(Species::Bobcat)
        } else if text == "BobwhiteQuail"@ {
            Some(Species::BobwhiteQuail)
        } else if text == "BrownBear"@ {
            Some(Species::BrownBear)
        } else if text == "CanadaGoose"@ {
            Some(Species::CanadaGoose)
        } else if text == "CapeBuffalo"@ {
            Some(Species::CapeBuffalo)
        } else if text == "Caribou"@ {
            Some(Species::Caribou)
        } else if text == "Chamois"@ {
            Some(Species::Chamois)
        } else if text == "CinnamonTeal"@ {
            Some(Species::CinnamonTeal)
        } else if text == "CollaredPeccary"@ {
            Some(Species::CollaredPeccary)
        } else if text == "CommonRaccoon"@ {
            Some(Species::CommonRaccoon)
        } else if text == "Coyote"@ {
            Some(Species::Coyote)
        } else if text == "EasternCottontailRabbit"@ {
            Some(Species::EasternCottontailRabbit)
        } else if text == "EasternGrayKangaroo"@ {
            Some(Species::EasternGrayKangaroo)
        } else if text == "EasternWildTurkey"@ {
            Some(Species::EasternWildTurkey)
        } else if text == "EurasianLynx"@ {
            Some(Species::EurasianLynx)
        } else if text == "EurasianTeal"@ {
            Some(Species::EurasianTeal)
        } else if text == "EurasianWigeon"@ {
            Some(Species::EurasianWigeon)
        } else if text == "EuropeanBison"@ {
            Some(Species::EuropeanBison)
        } else if text == "EuropeanHare"@ {
            Some(Species::EuropeanHare)
        } else if text == "EuropeanRabbit"@ {
            Some(Species::EuropeanRabbit)
        } else if text == "FallowDeer"@ {
            Some(Species::FallowDeer)
        } else if text == "FeralGoat"@ {
            Some(Species::FeralGoat)
        } else if text == "FeralPig"@ {
            Some(Species::FeralPig)
        } else if text == "Gemsbok"@ {
            Some(Species::Gemsbok)
        } else if text == "Goldeneye"@ {
            Some(Species::Goldeneye)
        } else if text == "GrayFox"@ {
            Some(Species::GrayFox)
        } else if text == "GrayWolf"@ {
            Some(Species::GrayWolf)
        } else if text == "GredosIbex"@ {
            Some(Species::GredosIbex)
        } else if text == "GreenWingedTeal"@ {
            Some(Species::GreenWingedTeal)
        } else if text == "GreylagGoose"@ {
            Some(Species::GreylagGoose)
        } else if text == "GrizzlyBear"@ {
            Some(Species::GrizzlyBear)
        } else if text == "HarlequinDuck"@ {
            Some(Species::HarlequinDuck)
        } else if text == "HazelGrouse"@ {
            Some(Species::HazelGrouse)
        } else if text == "HogDeer"@ {
            Some(Species::HogDeer)
        } else if text == "IberianMouflon"@ {
            Some(Species::IberianMouflon)
        } else if text == "IberianWolf"@ {
            Some(Species::IberianWolf)
        } else if text == "JavanRusa"@ {
            Some(Species::JavanRusa)
        } else if text == "LesserKudu"@ {
            Some(Species::LesserKudu)
        } else if text == "Lion"@ {
            Some(Species::Lion)
        } else if text == "MagpieGoose"@ {
            Some(Species::MagpieGoose)
        } else if text == "Mallard"@ {
            Some(Species::Mallard)
        } else if text == "MerriamTurkey"@ {
            Some(Species::MerriamTurkey)
        } else if text == "MexicanBobcat"@ {
            Some(Species::MexicanBobcat)
        } else if text == "Moose"@ {
            Some(Species::Moose)
        } else if text == "MountainGoat"@ {
            Some(Species::MountainGoat)
        } else if text == "MountainHare"@ {
            Some(Species::MountainHare)
        } else if text == "MuleDeer"@ {
            Some(Species::MuleDeer)
        } else if text == "PlainsBison"@ {
            Some(Species::PlainsBison)
        } else if text == "Pronghorn"@ {
            Some(Species::Pronghorn)
        } else if text == "Puma"@ {
            Some(Species::Puma)
        } else if text == "RaccoonDog"@ {
            Some(Species::RaccoonDog)
        } else if text == "RedDeer"@ {
            Some(Species::RedDeer)
        } else if text == "RedFox"@ {
            Some(Species::RedFox)
        } else if text == "Reindeer"@ {
            Some(Species::Reindeer)
        } else if text == "RingNeckedPheasant"@ {
            Some(Species::RingNeckedPheasant)
        } else if text == "RioGrandeTurkey"@ {
            Some(Species::RioGrandeTurkey)
        } else if text == "RockPtarmigan"@ {
            Some(Species::RockPtarmigan)
        } else if text == "RockymountainElk"@ {
            Some(Species::RockymountainElk)
        } else if text == "RoeDeer"@ {
            Some(Species::RoeDeer)
        } else if text == "RondaIbex"@ {
            Some(Species::RondaIbex)
        } else if text == "RooseveltElk"@ {
            Some(Species::RooseveltElk)
        } else if text == "SaltwaterCrocodile"@ {
            Some(Species::SaltwaterCrocodile)
        } else if text == "Sambar"@ {
            Some(Species::Sambar)
        } else if text == "ScrubHare"@ {
            Some(Species::ScrubHare)
        } else if text == "SiberianMuskDeer"@ {
            Some(Species::SiberianMuskDeer)
        } else if text == "SideStripedJackal"@ {
            Some(Species::SideStripedJackal)
        } else if text == "SikaDeer"@ {
            Some(Species::SikaDeer)
        } else if text == "SoutheasternSpanishIbex"@ {
            Some(Species::SoutheasternSpanishIbex)
        } else if text == "Springbok"@ {
            Some(Species::Springbok)
        } else if text == "StubbedQuail"@ {
            Some(Species::StubbedQuail)
        } else if text == "TuftedDuck"@ {
            Some(Species::TuftedDuck)
        } else if text == "TundraBeanGoose"@ {
            Some(Species::TundraBeanGoose)
        } else if text == "Warthog"@ {
            Some(Species::Warthog)
        } else if text == "WaterBuffalo"@ {
            Some(Species::WaterBuffalo)
        } else if text == "WesternCapercaillie"@ {
            Some(Species::WesternCapercaillie)
        } else if text == "WhitetailDeer"@ {
            Some(Species::WhitetailDeer)
        } else if text == "WhiteTailedJackrabbit"@ {
            Some(Species::WhiteTailedJackrabbit)
        } else if text == "WildBoar"@ {
            Some(Species::WildBoar)
        } else if text == "WillowPtarmigan"@ {
            Some(Species::WillowPtarmigan)
        } else if text == "Unknown"@ {
            Some(Species::Unknown)
        } else {
            None
        }
    }

    /// Reads a name as it is stored; nothing if no variant is stored under it.
    pub fn from_ident(text: &str) -> (found: Option<Species>)
        ensures
            found == Species::parse_ident(text@),
    {
        if same_text(text, "All") {
            Some(Species::All)
        } else if same_text(text, "AmericanAlligator") {
            Some(Species::AmericanAlligator)
        } else if same_text(text, "AntelopeJackrabbit") {
            Some(Species::AntelopeJackrabbit)
        } else if same_text(text, "AxisDeer") {
            Some(Species::AxisDeer)
        } else if same_text(text, "Banteng") {
            Some(Species::Banteng)
        } else if same_text(text, "BeciteIbex") {
            Some(Species::BeciteIbex)
        } else if same_text(text, "BighornSheep") {
            Some(Species::BighornSheep)
        } else if same_text(text, "BlackBear") {
            Some(Species::BlackBear)
        } else if same_text(text, "BlackGrouse") {
            Some(Species::BlackGrouse)
        } else if same_text(text, "Blackbuck") {
            Some(Species::Blackbuck)
        } else if same_text(text, "BlacktailDeer") {
            Some(Species::BlacktailDeer)
        } else if same_text(text, "BlueWildebeest") {
            Some(Species::BlueWildebeest)
        } else if same_text(text, "Bobcat") {
            Some(Species::Bobcat)
        } else if same_text(text, "BobwhiteQuail") {
            Some(Species::BobwhiteQuail)
        } else if same_text(text, "BrownBear") {
            Some(Species::BrownBear)
        } else if same_text(text, "CanadaGoose") {
            Some(Species::CanadaGoose)
        } else if same_text(text, "CapeBuffalo") {
            Some(Species::CapeBuffalo)
        } else if same_text(text, "Caribou") {
            Some(Species::Caribou)
        } else if same_text(text, "Chamois") {
            Some(Species::Chamois)
        } else if same_text(text, "CinnamonTeal") {
            Some(Species::CinnamonTeal)
        } else if same_text(text, "CollaredPeccary") {
            Some(Species::CollaredPeccary)
        } else if same_text(text, "CommonRaccoon") {
            Some(Species::CommonRaccoon)
        } else if same_text(text, "Coyote") {
            Some(Species::Coyote)
        } else if same_text(text, "EasternCottontailRabbit") {
            Some(Species::EasternCottontailRabbit)
        } else if same_text(text, "EasternGrayKangaroo") {
            Some(Species::EasternGrayKangaroo)
        } else if same_text(text, "EasternWildTurkey") {
            Some(Species::EasternWildTurkey)
        } else if same_text(text, "EurasianLynx") {
            Some(Species::EurasianLynx)
        } else if same_text(text, "EurasianTeal") {
            Some(Species::EurasianTeal)
        } else if same_text(text, "EurasianWigeon") {
            Some(Species::EurasianWigeon)
        } else if same_text(text, "EuropeanBison") {
            Some(Species::EuropeanBison)
        } else if same_text(text, "EuropeanHare") {
            Some(Species::EuropeanHare)
        } else if same_text(text, "EuropeanRabbit") {
            Some(Species::EuropeanRabbit)
        } else if same_text(text, "FallowDeer") {
            Some(Species::FallowDeer)
        } else if same_text(text, "FeralGoat") {
            Some(Species::FeralGoat)
        } else if same_text(text, "FeralPig") {
            Some(Species::FeralPig)
        } else if same_text(text, "Gemsbok") {
            Some(Species::Gemsbok)
        } else if same_text(text, "Goldeneye") {
            Some(Species::Goldeneye)
        } else if same_text(text, "GrayFox") {
            Some(Species::GrayFox)
        } else if same_text(text, "GrayWolf") {
            Some(Species::GrayWolf)
        } else if same_text(text, "GredosIbex") {
            Some(Species::GredosIbex)
        } else if same_text(text, "GreenWingedTeal") {
            Some(Species::GreenWingedTeal)
        } else if same_text(text, "GreylagGoose") {
            Some(Species::GreylagGoose)
        } else if same_text(text, "GrizzlyBear") {
            Some(Species::GrizzlyBear)
        } else if same_text(text, "HarlequinDuck") {
            Some(Species::HarlequinDuck)
        } else if same_text(text, "HazelGrouse") {
            Some(Species::HazelGrouse)
        } else if same_text(text, "HogDeer") {
            Some(Species::HogDeer)
        } else if same_text(text, "IberianMouflon") {
            Some(Species::IberianMouflon)
        } else if same_text(text, "IberianWolf") {
            Some(Species::IberianWolf)
        } else if same_text(text, "JavanRusa") {
            Some(Species::JavanRusa)
        } else if same_text(text, "LesserKudu") {
            Some(Species::LesserKudu)
        } else if same_text(text, "Lion") {
            Some(Species::Lion)
        } else if same_text(text, "MagpieGoose") {
            Some(Species::MagpieGoose)
        } else if same_text(text, "Mallard") {
            Some(Species::Mallard)
        } else if same_text(text, "MerriamTurkey") {
            Some(Species::MerriamTurkey)
        } else if same_text(text, "MexicanBobcat") {
            Some(Species::MexicanBobcat)
        } else if same_text(text, "Moose") {
            Some(Species::Moose)
        } else if same_text(text, "MountainGoat") {
            Some(Species::MountainGoat)
        } else if same_text(text, "MountainHare") {
            Some(Species::MountainHare)
        } else if same_text(text, "MuleDeer") {
            Some(Species::MuleDeer)
        } else if same_text(text, "PlainsBison") {
            Some(Species::PlainsBison)
        } else if same_text(text, "Pronghorn") {
            Some(Species::Pronghorn)
        } else if same_text(text, "Puma") {
            Some(Species::Puma)
        } else if same_text(text, "RaccoonDog") {
            Some(Species::RaccoonDog)
        } else if same_text(text, "RedDeer") {
            Some(Species::RedDeer)
        } else if same_text(text, "RedFox") {
            Some(Species::RedFox)
        } else if same_text(text, "Reindeer") {
            Some(Species::Reindeer)
        } else if same_text(text, "RingNeckedPheasant") {
            Some(Species::RingNeckedPheasant)
        } else if same_text(text, "RioGrandeTurkey") {
            Some(Species::RioGrandeTurkey)
        } else if same_text(text, "RockPtarmigan") {
            Some(Species::RockPtarmigan)
        } else if same_text(text, "RockymountainElk") {
            Some(Species::RockymountainElk)
        } else if same_text(text, "RoeDeer") {
            Some(Species::RoeDeer)
        } else if same_text(text, "RondaIbex") {
            Some(Species::RondaIbex)
        } else if same_text(text, "RooseveltElk") {
            Some(Species::RooseveltElk)
        } else if same_text(text, "SaltwaterCrocodile") {
            Some(Species::SaltwaterCrocodile)
        } else if same_text(text, "Sambar") {
            Some(Species::Sambar)
        } else if same_text(text, "ScrubHare") {
            Some(Species::ScrubHare)
        } else if same_text(text, "SiberianMuskDeer") {
            Some(Species::SiberianMuskDeer)
        } else if same_text(text, "SideStripedJackal") {
            Some(Species::SideStripedJackal)
        } else if same_text(text, "SikaDeer") {
            Some(Species::SikaDeer)
        } else if same_text(text, "SoutheasternSpanishIbex") {
            Some(Species::SoutheasternSpanishIbex)
        } else if same_text(text, "Springbok") {
            Some(Species::Springbok)
        } else if same_text(text, "StubbedQuail") {
            Some(Species::StubbedQuail)
        } else if same_text(text, "TuftedDuck") {
            Some(Species::TuftedDuck)
        } else if same_text(text, "TundraBeanGoose") {
            Some(Species::TundraBeanGoose)
        } else if same_text(text, "Warthog") {
            Some(Species::Warthog)
        } else if same_text(text, "WaterBuffalo") {
            Some(Species::WaterBuffalo)
        } else if same_text(text, "WesternCapercaillie") {
            Some(Species::WesternCapercaillie)
        } else if same_text(text, "WhitetailDeer") {
            Some(Species::WhitetailDeer)
        } else if same_text(text, "WhiteTailedJackrabbit") {
            Some(Species::WhiteTailedJackrabbit)
        } else if same_text(text, "WildBoar") {
            Some(Species::WildBoar)
        } else if same_text(text, "WillowPtarmigan") {
            Some(Species::WillowPtarmigan)
        } else if same_text(text, "Unknown") {
            Some(Species::Unknown)
        } else {
            None
        }
    }

    /// The variant that is shown as `text`, if there is one.
    pub open spec fn parse(text: Seq<char>) -> Option<Species> {
        if text == "All"@ {
            Some(Species::All)
        } else if text == "American Alligator"@ {
            Some(Species::AmericanAlligator)
        } else if text == "Antelope Jackrabbit"@ {
            Some(Species::AntelopeJackrabbit)
        } else if text == "Axis Deer"@ {
            Some(Species::AxisDeer)
        } else if text == "Banteng"@ {
            Some(Species::Banteng)
        } else if text == "Becite Ibex"@ {
            Some(Species::BeciteIbex)
        } else if text == "Bighorn Sheep"@ {
            Some(Species::BighornSheep)
        } else if text == "Black Bear"@ {
            Some(Species::BlackBear)
        } else if text == "Black Grouse"@ {
            Some(Species::BlackGrouse)
        } else if text == "Blackbuck"@ {
            Some(Species::Blackbuck)
        } else if text == "Blacktail Deer"@ {
            Some(Species::BlacktailDeer)
        } else if text == "Blue Wildebeest"@ {
            Some(Species::BlueWildebeest)
        } else if text == "Bobcat"@ {
            Some(Species::Bobcat)
        } else if text == "Bobwhite Quail"@ {
            Some(Species::BobwhiteQuail)
        } else if text == "Brown Bear"@ {
            Some(Species::BrownBear)
        } else if text == "Canada Goose"@ {
            Some(Species::CanadaGoose)
        } else if text == "Cape Buffalo"@ {
            Some(Species::CapeBuffalo)
        } else if text == "Caribou"@ {
            Some(Species::Caribou)
        } else if text == "Chamois"@ {
            Some(Species::Chamois)
        } else if text == "Cinnamon Teal"@ {
            Some(Species::CinnamonTeal)
        } else if text == "Collared Peccary"@ {
            Some(Species::CollaredPeccary)
        } else if text == "Common Raccoon"@ {
            Some(Species::CommonRaccoon)
        } else if text == "Coyote"@ {
            Some(Species::Coyote)
        } else if text == "Eastern Cottontail Rabbit"@ {
            Some(Species::EasternCottontailRabbit)
        } else if text == "Eastern Gray Kangaroo"@ {
            Some(Species::EasternGrayKangaroo)
        } else if text == "Eastern Wild Turkey"@ {
            Some(Species::EasternWildTurkey)
        } else if text == "Eurasian Lynx"@ {
            Some(Species::EurasianLynx)
        } else if text == "Eurasian Teal"@ {
            Some(Species::EurasianTeal)
        } else if text == "Eurasian Wigeon"@ {
            Some(Species::EurasianWigeon)
        } else if text == "European Bison"@ {
            Some(Species::EuropeanBison)
        } else if text == "European Hare"@ {
            Some(Species::EuropeanHare)
        } else if text == "European Rabbit"@ {
            Some(Species::EuropeanRabbit)
        } else if text == "Fallow Deer"@ {
            Some(Species::FallowDeer)
        } else if text == "Feral Goat"@ {
            Some(Species::FeralGoat)
        } else if text == "Feral Pig"@ {
            Some(Species::FeralPig)
        } else if text == "Gemsbok"@ {
            Some(Species::Gemsbok)
        } else if text == "Goldeneye"@ {
            Some(Species::Goldeneye)
        } else if text == "Gray Fox"@ {
            Some(Species::GrayFox)
        } else if text == "Gray Wolf"@ {
            Some(Species::GrayWolf)
        } else if text == "Gredos Ibex"@ {
            Some(Species::GredosIbex)
        } else if text == "Green Winged Teal"@ {
            Some(Species::GreenWingedTeal)
        } else if text == "Greylag Goose"@ {
            Some(Species::GreylagGoose)
        } else if text == "Grizzly Bear"@ {
            Some(Species::GrizzlyBear)
        } else if text == "Harlequin Duck"@ {
            Some(Species::HarlequinDuck)
        } else if text == "Hazel Grouse"@ {
            Some(Species::HazelGrouse)
        } else if text == "Hog Deer"@ {
            Some(Species::HogDeer)
        } else if text == "Iberian Mouflon"@ {
            Some(Species::IberianMouflon)
        } else if text == "Iberian Wolf"@ {
            Some(Species::IberianWolf)
        } else if text == "Javan Rusa"@ {
            Some(Species::JavanRusa)
        } else if text == "Lesser Kudu"@ {
            Some(Species::LesserKudu)
        } else if text == "Lion"@ {
            Some(Species::Lion)
        } else if text == "Magpie Goose"@ {
            Some(Species::MagpieGoose)
        } else if text == "Mallard"@ {
            Some(Species::Mallard)
        } else if text == "Merriam Turkey"@ {
            Some(Species::MerriamTurkey)
        } else if text == "Mexican Bobcat"@ {
            Some(Species::MexicanBobcat)
        } else if text == "Moose"@ {
            Some(Species::Moose)
        } else if text == "Mountain Goat"@ {
            Some(Species::MountainGoat)
        } else if text == "Mountain Hare"@ {
            Some(Species::MountainHare)
        } else if text == "Mule Deer"@ {
            Some(Species::MuleDeer)
        } else if text == "Plains Bison"@ {
            Some(Species::PlainsBison)
        } else if text == "Pronghorn"@ {
            Some(Species::Pronghorn)
        } else if text == "Puma"@ {
            Some(Species::Puma)
        } else if text == "Raccoon Dog"@ {
            Some(Species::RaccoonDog)
        } else if text == "Red Deer"@ {
            Some(Species::RedDeer)
        } else if text == "Red Fox"@ {
            Some(Species::RedFox)
        } else if text == "Reindeer"@ {
            Some(Species::Reindeer)
        } else if text == "Ring Necked Pheasant"@ {
            Some(Species::RingNeckedPheasant)
        } else if text == "Rio Grande Turkey"@ {
            Some(Species::RioGrandeTurkey)
        } else if text == "Rock Ptarmigan"@ {
            Some(Species::RockPtarmigan)
        } else if text == "Rockymountain Elk"@ {
            Some(Species::RockymountainElk)
        } else if text == "Roe Deer"@ {
            Some(Species::RoeDeer)
        } else if text == "Ronda Ibex"@ {
            Some(Species::RondaIbex)
        } else if text == "Roosevelt Elk"@ {
            Some(Species::RooseveltElk)
        } else if text == "Saltwater Crocodile"@ {
            Some(Species::SaltwaterCrocodile)
        } else if text == "Sambar"@ {
            Some(Species::Sambar)
        } else if text == "Scrub Hare"@ {
            Some(Species::ScrubHare)
        } else if text == "Siberian Musk Deer"@ {
            Some(Species::SiberianMuskDeer)
        } else if text == "Side Striped Jackal"@ {
            Some(Species::SideStripedJackal)
        } else if text == "Sika Deer"@ {
            Some(Species::SikaDeer)
        } else if text == "Southeastern Spanish Ibex"@ {
            Some(Species::SoutheasternSpanishIbex)
        } else if text == "Springbok"@ {
            Some(Species::Springbok)
        } else if text == "Stubbed Quail"@ {
            Some(Species::StubbedQuail)
        } else if text == "Tufted Duck"@ {
            Some(Species::TuftedDuck)
        } else if text == "Tundra Bean Goose"@ {
            Some(Species::TundraBeanGoose)
        } else if text == "Warthog"@ {
            Some(Species::Warthog)
        } else if text == "Water Buffalo"@ {
            Some(Species::WaterBuffalo)
        } else if text == "Western Capercaillie"@ {
            Some(Species::WesternCapercaillie)
        } else if text == "Whitetail Deer"@ {
            Some(Species::WhitetailDeer)
        } else if text == "White Tailed Jackrabbit"@ {
            Some(Species::WhiteTailedJackrabbit)
        } else if text == "Wild Boar"@ {
            Some(Species::WildBoar)
        } else if text == "Willow Ptarmigan"@ {
            Some(Species::WillowPtarmigan)
        } else if text == "Unknown"@ {
            Some(Species::Unknown)
        } else {
            None
        }
    }

    /// Reads a name as it is shown; nothing if no variant is shown under it.
    pub fn from_str(text: &str) -> (found: Option<Species>)
        ensures
            found == Species::parse(text@),
    {
        if same_text(text, "All") {
            Some(Species::All)
        } else if same_text(text, "American Alligator") {
            Some(Species::AmericanAlligator)
        } else if same_text(text, "Antelope Jackrabbit") {
            Some(Species::AntelopeJackrabbit)
        } else if same_text(text, "Axis Deer") {
            Some(Species::AxisDeer)
        } else if same_text(text, "Banteng") {
            Some(Species::Banteng)
        } else if same_text(text, "Becite Ibex") {
            Some(Species::BeciteIbex)
        } else if same_text(text, "Bighorn Sheep") {
            Some(Species::BighornSheep)
        } else if same_text(text, "Black Bear") {
            Some(Species::BlackBear)
        } else if same_text(text, "Black Grouse") {
            Some(Species::BlackGrouse)
        } else if same_text(text, "Blackbuck") {
            Some(Species::Blackbuck)
        } else if same_text(text, "Blacktail Deer") {
            Some(Species::BlacktailDeer)
        } else if same_text(text, "Blue Wildebeest") {
            Some(Species::BlueWildebeest)
        } else if same_text(text, "Bobcat") {
            Some(Species::Bobcat)
        } else if same_text(text, "Bobwhite Quail") {
            Some(Species::BobwhiteQuail)
        } else if same_text(text, "Brown Bear") {
            Some(Species::BrownBear)
        } else if same_text(text, "Canada Goose") {
            Some(Species::CanadaGoose)
        } else if same_text(text, "Cape Buffalo") {
            Some(Species::CapeBuffalo)
        } else if same_text(text, "Caribou") {
            Some(Species::Caribou)
        } else if same_text(text, "Chamois") {
            Some(Species::Chamois)
        } else if same_text(text, "Cinnamon Teal") {
            Some(Species::CinnamonTeal)
        } else if same_text(text, "Collared Peccary") {
            Some(Species::CollaredPeccary)
        } else if same_text(text, "Common Raccoon") {
            Some(Species::CommonRaccoon)
        } else if same_text(text, "Coyote") {
            Some(Species::Coyote)
        } else if same_text(text, "Eastern Cottontail Rabbit") {
            Some(Species::EasternCottontailRabbit)
        } else if same_text(text, "Eastern Gray Kangaroo") {
            Some(Species::EasternGrayKangaroo)
        } else if same_text(text, "Eastern Wild Turkey") {
            Some(Species::EasternWildTurkey)
        } else if same_text(text, "Eurasian Lynx") {
            Some(Species::EurasianLynx)
        } else if same_text(text, "Eurasian Teal") {
            Some(Species::EurasianTeal)
        } else if same_text(text, "Eurasian Wigeon") {
            Some(Species::EurasianWigeon)
        } else if same_text(text, "European Bison") {
            Some(Species::EuropeanBison)
        } else if same_text(text, "European Hare") {
            Some(Species::EuropeanHare)
        } else if same_text(text, "European Rabbit") {
            Some(Species::EuropeanRabbit)
        } else if same_text(text, "Fallow Deer") {
            Some(Species::FallowDeer)
        } else if same_text(text, "Feral Goat") {
            Some(Species::FeralGoat)
        } else if same_text(text, "Feral Pig") {
            Some(Species::FeralPig)
        } else if same_text(text, "Gemsbok") {
            Some(Species::Gemsbok)
        } else if same_text(text, "Goldeneye") {
            Some(Species::Goldeneye)
        } else if same_text(text, "Gray Fox") {
            Some(Species::GrayFox)
        } else if same_text(text, "Gray Wolf") {
            Some(Species::GrayWolf)
        } else if same_text(text, "Gredos Ibex") {
            Some(Species::GredosIbex)
        } else if same_text(text, "Green Winged Teal") {
            Some(Species::GreenWingedTeal)
        } else if same_text(text, "Greylag Goose") {
            Some(Species::GreylagGoose)
        } else if same_text(text, "Grizzly Bear") {
            Some(Species::GrizzlyBear)
        } else if same_text(text, "Harlequin Duck") {
            Some(Species::HarlequinDuck)
        } else if same_text(text, "Hazel Grouse") {
            Some(Species::HazelGrouse)
        } else if same_text(text, "Hog Deer") {
            Some(Species::HogDeer)
        } else if same_text(text, "Iberian Mouflon") {
            Some(Species::IberianMouflon)
        } else if same_text(text, "Iberian Wolf") {
            Some(Species::IberianWolf)
        } else if same_text(text, "Javan Rusa") {
            Some(Species::JavanRusa)
        } else if same_text(text, "Lesser Kudu") {
            Some(Species::LesserKudu)
        } else if same_text(text, "Lion") {
            Some(Species::Lion)
        } else if same_text(text, "Magpie Goose") {
            Some(Species::MagpieGoose)
        } else if same_text(text, "Mallard") {
            Some(Species::Mallard)
        } else if same_text(text, "Merriam Turkey") {
            Some(Species::MerriamTurkey)
        } else if same_text(text, "Mexican Bobcat") {
            Some(Species::MexicanBobcat)
        } else if same_text(text, "Moose") {
            Some(Species::Moose)
        } else if same_text(text, "Mountain Goat") {
            Some(Species::MountainGoat)
        } else if same_text(text, "Mountain Hare") {
            Some(Species::MountainHare)
        } else if same_text(text, "Mule Deer") {
            Some(Species::MuleDeer)
        } else if same_text(text, "Plains Bison") {
            Some(Species::PlainsBison)
        } else if same_text(text, "Pronghorn") {
            Some(Species::Pronghorn)
        } else if same_text(text, "Puma") {
            Some(Species::Puma)
        } else if same_text(text, "Raccoon Dog") {
            Some(Species::RaccoonDog)
        } else if same_text(text, "Red Deer") {
            Some(Species::RedDeer)
        } else if same_text(text, "Red Fox") {
            Some(Species::RedFox)
        } else if same_text(text, "Reindeer") {
            Some(Species::Reindeer)
        } else if same_text(text, "Ring Necked Pheasant") {
            Some(Species::RingNeckedPheasant)
        } else if same_text(text, "Rio Grande Turkey") {
            Some(Species::RioGrandeTurkey)
        } else if same_text(text, "Rock Ptarmigan") {
            Some(Species::RockPtarmigan)
        } else if same_text(text, "Rockymountain Elk") {
            Some(Species::RockymountainElk)
        } else if same_text(text, "Roe Deer") {
            Some(Species::RoeDeer)
        } else if same_text(text, "Ronda Ibex") {
            Some(Species::RondaIbex)
        } else if same_text(text, "Roosevelt Elk") {
            Some(Species::RooseveltElk)
        } else if same_text(text, "Saltwater Crocodile") {
            Some(Species::SaltwaterCrocodile)
        } else if same_text(text, "Sambar") {
            Some(Species::Sambar)
        } else if same_text(text, "Scrub Hare") {
            Some(Species::ScrubHare)
        } else if same_text(text, "Siberian Musk Deer") {
            Some(Species::SiberianMuskDeer)
        } else if same_text(text, "Side Striped Jackal") {
            Some(Species::SideStripedJackal)
        } else if same_text(text, "Sika Deer") {
            Some(Species::SikaDeer)
        } else if same_text(text, "Southeastern Spanish Ibex") {
            Some(Species::SoutheasternSpanishIbex)
        } else if same_text(text, "Springbok") {
            Some(Species::Springbok)
        } else if same_text(text, "Stubbed Quail") {
            Some(Species::StubbedQuail)
        } else if same_text(text, "Tufted Duck") {
            Some(Species::TuftedDuck)
        } else if same_text(text, "Tundra Bean Goose") {
            Some(Species::TundraBeanGoose)
        } else if same_text(text, "Warthog") {
            Some(Species::Warthog)
        } else if same_text(text, "Water Buffalo") {
            Some(Species::WaterBuffalo)
        } else if same_text(text, "Western Capercaillie") {
            Some(Species::WesternCapercaillie)
        } else if same_text(text, "Whitetail Deer") {
            Some(Species::WhitetailDeer)
        } else if same_text(text, "White Tailed Jackrabbit") {
            Some(Species::WhiteTailedJackrabbit)
        } else if same_text(text, "Wild Boar") {
            Some(Species::WildBoar)
        } else if same_text(text, "Willow Ptarmigan") {
            Some(Species::WillowPtarmigan)
        } else if same_text(text, "Unknown") {
            Some(Species::Unknown)
        } else {
            None
        }
    }
}

impl Species {
    /// A species that an animal can belong to: neither the wildcard nor the unknown.
    pub open spec fn is_real_spec(self) -> bool {
        self != Species::All && self != Species::Unknown
    }

    /// Whether this is a species that an animal can belong to.
    pub fn is_real(&self) -> (answer: bool)
        ensures
            answer == self.is_real_spec(),
    {
        *self != Species::All && *self != Species::Unknown
    }
}

} // verus!
