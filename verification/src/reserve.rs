//! The reserves of the game, and the species that live on each.

use crate::species::Species;
use crate::text::{fmt_model, same_text, title_case};
use vstd::prelude::*;

verus! {

/// The hunting reserves of the game, with `All` for "any" and `Unknown` for a name that was not recognised.
#[derive(Clone, Copy, Debug, PartialEq, Eq, Structural, Hash)]
pub enum Reserve {
    All,
    HirschfeldenHuntingReserve,
    LaytonLakeDistrict,
    MedvedTaigaNationalPark,
    VurhongaSavanna,
    ParqueFernando,
    YukonValleyNatureReserve,
    CuatroColinasGameReserve,
    SilverRidgePeaks,
    TeAwaroaNationalPark,
    RanchoDelArroyo,
    MississippiAcresPreserve,
    RevontuliCoast,
    NewEnglandMountains,
    EmeraldCoastAustralia,
    Unknown,
}

impl Reserve {
    /// The name under which the variant is stored.
    pub open spec fn ident_spec(self) -> Seq<char> {
        match self {
            Reserve::All => "All"@,
            Reserve::HirschfeldenHuntingReserve => "HirschfeldenHuntingReserve"@,
            Reserve::LaytonLakeDistrict => "LaytonLakeDistrict"@,
            Reserve::MedvedTaigaNationalPark => "MedvedTaigaNationalPark"@,
            Reserve::VurhongaSavanna => "VurhongaSavanna"@,
            Reserve::ParqueFernando => "ParqueFernando"@,
            Reserve::YukonValleyNatureReserve => "YukonValleyNatureReserve"@,
            Reserve::CuatroColinasGameReserve => "CuatroColinasGameReserve"@,
            Reserve::SilverRidgePeaks => "SilverRidgePeaks"@,
            Reserve::TeAwaroaNationalPark => "TeAwaroaNationalPark"@,
            Reserve::RanchoDelArroyo => "RanchoDelArroyo"@,
            Reserve::MississippiAcresPreserve => "MississippiAcresPreserve"@,
            Reserve::RevontuliCoast => "RevontuliCoast"@,
            Reserve::NewEnglandMountains => "NewEnglandMountains"@,
            Reserve::EmeraldCoastAustralia => "EmeraldCoastAustralia"@,
            Reserve::Unknown => "Unknown"@,
        }
    }

    /// The name under which the variant is stored.
    pub fn ident(&self) -> (name: &'static str)
        ensures
            name@ == self.ident_spec(),
    {
        match self {
            Reserve::All => "All",
            Reserve::HirschfeldenHuntingReserve => "HirschfeldenHuntingReserve",
            Reserve::LaytonLakeDistrict => "LaytonLakeDistrict",
            Reserve::MedvedTaigaNationalPark => "MedvedTaigaNationalPark",
            Reserve::VurhongaSavanna => "VurhongaSavanna",
            Reserve::ParqueFernando => "ParqueFernando",
            Reserve::YukonValleyNatureReserve => "YukonValleyNatureReserve",
            Reserve::CuatroColinasGameReserve => "CuatroColinasGameReserve",
            Reserve::SilverRidgePeaks => "SilverRidgePeaks",
            Reserve::TeAwaroaNationalPark => "TeAwaroaNationalPark",
            Reserve::RanchoDelArroyo => "RanchoDelArroyo",
            Reserve::MississippiAcresPreserve => "MississippiAcresPreserve",
            Reserve::RevontuliCoast => "RevontuliCoast",
            Reserve::NewEnglandMountains => "NewEnglandMountains",
            Reserve::EmeraldCoastAustralia => "EmeraldCoastAustralia",
            Reserve::Unknown => "Unknown",
        }
    }

    /// Every variant, in the order of declaration.
    pub open spec fn all_spec() -> Seq<Reserve> {
        seq![
            Reserve::All,
            Reserve::HirschfeldenHuntingReserve,
            Reserve::LaytonLakeDistrict,
            Reserve::MedvedTaigaNationalPark,
            Reserve::VurhongaSavanna,
            Reserve::ParqueFernando,
            Reserve::YukonValleyNatureReserve,
            Reserve::CuatroColinasGameReserve,
            Reserve::SilverRidgePeaks,
            Reserve::TeAwaroaNationalPark,
            Reserve::RanchoDelArroyo,
            Reserve::MississippiAcresPreserve,
            Reserve::RevontuliCoast,
            Reserve::NewEnglandMountains,
            Reserve::EmeraldCoastAustralia,
            Reserve::Unknown,
        ]
    }

    /// Every variant, in the order of declaration.
    pub fn all() -> (list: Vec<Reserve>)
        ensures
            list@ == Reserve::all_spec(),
    {
        let mut list: Vec<Reserve> = Vec::new();
        list.push(Reserve::All);
        list.push(Reserve::HirschfeldenHuntingReserve);
        list.push(Reserve::LaytonLakeDistrict);
        list.push(Reserve::MedvedTaigaNationalPark);
        list.push(Reserve::VurhongaSavanna);
        list.push(Reserve::ParqueFernando);
        list.push(Reserve::YukonValleyNatureReserve);
        list.push(Reserve::CuatroColinasGameReserve);
        list.push(Reserve::SilverRidgePeaks);
        list.push(Reserve::TeAwaroaNationalPark);
        list.push(Reserve::RanchoDelArroyo);
        list.push(Reserve::MississippiAcresPreserve);
        list.push(Reserve::RevontuliCoast);
        list.push(Reserve::NewEnglandMountains);
        list.push(Reserve::EmeraldCoastAustralia);
        list.push(Reserve::Unknown);
        list
    }

    /// The name for display: the variant's name in title case.
    pub fn to_string(&self) -> (text: String)
        ensures
            text@ == title_case(self.ident_spec()),
    {
        fmt_model(self.ident())
    }

    /// The variant that is stored under the name `text`, if there is one.
    pub open spec fn parse_ident(text: Seq<char>) -> Option<Reserve> {
        if text == "All"@ {
            Some(Reserve::All)
        } else if text == "HirschfeldenHuntingReserve"@ {
            Some(Reserve::HirschfeldenHuntingReserve)
        } else if text == "LaytonLakeDistrict"@ {
            Some(Reserve::LaytonLakeDistrict)
        } else if text == "MedvedTaigaNationalPark"@ {
            Some(Reserve::MedvedTaigaNationalPark)
        } else if text == "VurhongaSavanna"@ {
            Some(Reserve::VurhongaSavanna)
        } else if text == "ParqueFernando"@ {
            Some(Reserve::ParqueFernando)
        } else if text == "YukonValleyNatureReserve"@ {
            Some(Reserve::YukonValleyNatureReserve)
        } else if text == "CuatroColinasGameReserve"@ {
            Some(Reserve::CuatroColinasGameReserve)
        } else if text == "SilverRidgePeaks"@ {
            Some(Reserve::SilverRidgePeaks)
        } else if text == "TeAwaroaNationalPark"@ {
            Some(Reserve::TeAwaroaNationalPark)
        } else if text == "RanchoDelArroyo"@ {
            Some(Reserve::RanchoDelArroyo)
        } else if text == "MississippiAcresPreserve"@ {
            Some(Reserve::MississippiAcresPreserve)
        } else if text == "RevontuliCoast"@ {
            Some(Reserve::RevontuliCoast)
        } else if text == "NewEnglandMountains"@ {
            Some(Reserve::NewEnglandMountains)
        } else if text == "EmeraldCoastAustralia"@ {
            Some(Reserve::EmeraldCoastAustralia)
        } else if text == "Unknown"@ {
            Some(Reserve::Unknown)
        } else {
            None
        }
    }

    /// Reads a name as it is stored; nothing if no variant is stored under it.
    pub fn from_ident(text: &str) -> (found: Option<Reserve>)
        ensures
            found == Reserve::parse_ident(text@),
    {
        if same_text(text, "All") {
            Some(Reserve::All)
        } else if same_text(text, "HirschfeldenHuntingReserve") {
            Some(Reserve::HirschfeldenHuntingReserve)
        } else if same_text(text, "LaytonLakeDistrict") {
            Some(Reserve::LaytonLakeDistrict)
        } else if same_text(text, "MedvedTaigaNationalPark") {
            Some(Reserve::MedvedTaigaNationalPark)
        } else if same_text(text, "VurhongaSavanna") {
            Some(Reserve::VurhongaSavanna)
        } else if same_text(text, "ParqueFernando") {
            Some(Reserve::ParqueFernando)
        } else if same_text(text, "YukonValleyNatureReserve") {
            Some(Reserve::YukonValleyNatureReserve)
        } else if same_text(text, "CuatroColinasGameReserve") {
            Some(Reserve::CuatroColinasGameReserve)
        } else if same_text(text, "SilverRidgePeaks") {
            Some(Reserve::SilverRidgePeaks)
        } else if same_text(text, "TeAwaroaNationalPark") {
            Some(Reserve::TeAwaroaNationalPark)
        } else if same_text(text, "RanchoDelArroyo") {
            Some(Reserve::RanchoDelArroyo)
        } else if same_text(text, "MississippiAcresPreserve") {
            Some(Reserve::MississippiAcresPreserve)
        } else if same_text(text, "RevontuliCoast") {
            Some(Reserve::RevontuliCoast)
        } else if same_text(text, "NewEnglandMountains") {
            Some(Reserve::NewEnglandMountains)
        } else if same_text(text, "EmeraldCoastAustralia") {
            Some(Reserve::EmeraldCoastAustralia)
        } else if same_text(text, "Unknown") {
            Some(Reserve::Unknown)
        } else {
            None
        }
    }

    /// The variant that is shown as `text`, if there is one.
    pub open spec fn parse(text: Seq<char>) -> Option<Reserve> {
        if text == "All"@ {
            Some(Reserve::All)
        } else if text == "Hirschfelden Hunting Reserve"@ {
            Some(Reserve::HirschfeldenHuntingReserve)
        } else if text == "Layton Lake District"@ {
            Some(Reserve::LaytonLakeDistrict)
        } else if text == "Medved Taiga National Park"@ {
            Some(Reserve::MedvedTaigaNationalPark)
        } else if text == "Vurhonga Savanna"@ {
            Some(Reserve::VurhongaSavanna)
        } else if text == "Parque Fernando"@ {
            Some(Reserve::ParqueFernando)
        } else if text == "Yukon Valley Nature Reserve"@ {
            Some(Reserve::YukonValleyNatureReserve)
        } else if text == "Cuatro Colinas Game Reserve"@ {
            Some(Reserve::CuatroColinasGameReserve)
        } else if text == "Silver Ridge Peaks"@ {
            Some(Reserve::SilverRidgePeaks)
        } else if text == "Te Awaroa National Park"@ {
            Some(Reserve::TeAwaroaNationalPark)
        } else if text == "Rancho Del Arroyo"@ {
            Some(Reserve::RanchoDelArroyo)
        } else if text == "Mississippi Acres Preserve"@ {
            Some(Reserve::MississippiAcresPreserve)
        } else if text == "Revontuli Coast"@ {
            Some(Reserve::RevontuliCoast)
        } else if text == "New England Mountains"@ {
            Some(Reserve::NewEnglandMountains)
        } else if text == "Emerald Coast Australia"@ {
            Some(Reserve::EmeraldCoastAustralia)
        } else if text == "Unknown"@ {
            Some(Reserve::Unknown)
        } else {
            None
        }
    }

    /// Reads a name as it is shown; nothing if no variant is shown under it.
    pub fn from_str(text: &str) -> (found: Option<Reserve>)
        ensures
            found == Reserve::parse(text@),
    {
        if same_text(text, "All") {
            Some(Reserve::All)
        } else if same_text(text, "Hirschfelden Hunting Reserve") {
            Some(Reserve::HirschfeldenHuntingReserve)
        } else if same_text(text, "Layton Lake District") {
            Some(Reserve::LaytonLakeDistrict)
        } else if same_text(text, "Medved Taiga National Park") {
            Some(Reserve::MedvedTaigaNationalPark)
        } else if same_text(text, "Vurhonga Savanna") {
            Some(Reserve::VurhongaSavanna)
        } else if same_text(text, "Parque Fernando") {
            Some(Reserve::ParqueFernando)
        } else if same_text(text, "Yukon Valley Nature Reserve") {
            Some(Reserve::YukonValleyNatureReserve)
        } else if same_text(text, "Cuatro Colinas Game Reserve") {
            Some(Reserve::CuatroColinasGameReserve)
        } else if same_text(text, "Silver Ridge Peaks") {
            Some(Reserve::SilverRidgePeaks)
        } else if same_text(text, "Te Awaroa National Park") {
            Some(Reserve::TeAwaroaNationalPark)
        } else if same_text(text, "Rancho Del Arroyo") {
            Some(Reserve::RanchoDelArroyo)
        } else if same_text(text, "Mississippi Acres Preserve") {
            Some(Reserve::MississippiAcresPreserve)
        } else if same_text(text, "Revontuli Coast") {
            Some(Reserve::RevontuliCoast)
        } else if same_text(text, "New England Mountains") {
            Some(Reserve::NewEnglandMountains)
        } else if same_text(text, "Emerald Coast Australia") {
            Some(Reserve::EmeraldCoastAustralia)
        } else if same_text(text, "Unknown") {
            Some(Reserve::Unknown)
        } else {
            None
        }
    }
}

/// The species that live on a reserve, in the order in which the game lists them.
/// The wildcard and the unknown reserve have none.
pub open spec fn species_on(reserve: Reserve) -> Seq<Species> {
    match reserve {
        Reserve::HirschfeldenHuntingReserve => seq![
            Species::WildBoar,
            Species::EuropeanRabbit,
            Species::FallowDeer,
            Species::RedFox,
            Species::RingNeckedPheasant,
            Species::RedDeer,
        ],
        Reserve::LaytonLakeDistrict => seq![
            Species::Moose,
            Species::WhiteTailedJackrabbit,
            Species::Mallard,
            Species::EasternWildTurkey,
            Species::BlackBear,
            Species::RooseveltElk,
            Species::Coyote,
            Species::BlacktailDeer,
            Species::WhitetailDeer,
        ],
        Reserve::MedvedTaigaNationalPark => seq![
            Species::SiberianMuskDeer,
            Species::Moose,
            Species::WildBoar,
            Species::Reindeer,
            Species::EurasianLynx,
            Species::BrownBear,
            Species::WesternCapercaillie,
            Species::GrayWolf,
        ],
        Reserve::VurhongaSavanna => seq![
            Species::EurasianWigeon,
            Species::BlueWildebeest,
            Species::SideStripedJackal,
            Species::Gemsbok,
            Species::LesserKudu,
            Species::ScrubHare,
            Species::Lion,
            Species::Warthog,
            Species::CapeBuffalo,
            Species::Springbok,
        ],
        Reserve::ParqueFernando => seq![
            Species::RedDeer,
            Species::WaterBuffalo,
            Species::Puma,
            Species::Blackbuck,
            Species::CinnamonTeal,
            Species::CollaredPeccary,
            Species::MuleDeer,
            Species::AxisDeer,
        ],
        Reserve::YukonValleyNatureReserve => seq![
            Species::HarlequinDuck,
            Species::Moose,
            Species::RedFox,
            Species::Caribou,
            Species::CanadaGoose,
            Species::GrizzlyBear,
            Species::GrayWolf,
            Species::PlainsBison,
        ],
        Reserve::CuatroColinasGameReserve => seq![
            Species::SoutheasternSpanishIbex,
            Species::IberianWolf,
            Species::RedDeer,
            Species::IberianMouflon,
            Species::WildBoar,
            Species::BeciteIbex,
            Species::EuropeanHare,
            Species::RoeDeer,
            Species::RondaIbex,
            Species::RingNeckedPheasant,
            Species::GredosIbex,
        ],
        Reserve::SilverRidgePeaks => seq![
            Species::Pronghorn,
            Species::Puma,
            Species::MountainGoat,
            Species::BighornSheep,
            Species::EasternWildTurkey,
            Species::BlackBear,
            Species::MuleDeer,
            Species::RockymountainElk,
            Species::PlainsBison,
        ],
        Reserve::TeAwaroaNationalPark => seq![
            Species::RedDeer,
            Species::EuropeanRabbit,
            Species::FeralPig,
            Species::FallowDeer,
            Species::Chamois,
            Species::Mallard,
            Species::EasternWildTurkey,
            Species::SikaDeer,
            Species::FeralGoat,
        ],
        Reserve::RanchoDelArroyo => seq![
            Species::MexicanBobcat,
            Species::RioGrandeTurkey,
            Species::Pronghorn,
            Species::BighornSheep,
            Species::CollaredPeccary,
            Species::AntelopeJackrabbit,
            Species::MuleDeer,
            Species::Coyote,
            Species::RingNeckedPheasant,
            Species::WhitetailDeer,
        ],
        Reserve::MississippiAcresPreserve => seq![
            Species::FeralPig,
            Species::CommonRaccoon,
            Species::EasternCottontailRabbit,
            Species::BobwhiteQuail,
            Species::EasternWildTurkey,
            Species::GrayFox,
            Species::BlackBear,
            Species::AmericanAlligator,
            Species::GreenWingedTeal,
            Species::WhitetailDeer,
        ],
        Reserve::RevontuliCoast => seq![
            Species::Mallard,
            Species::RockPtarmigan,
            Species::EurasianWigeon,
            Species::Moose,
            Species::Goldeneye,
            Species::MountainHare,
            Species::TuftedDuck,
            Species::BlackGrouse,
            Species::TundraBeanGoose,
            Species::WillowPtarmigan,
            Species::EurasianLynx,
            Species::HazelGrouse,
            Species::BrownBear,
            Species::EurasianTeal,
            Species::WesternCapercaillie,
            Species::CanadaGoose,
            Species::GreylagGoose,
            Species::WhitetailDeer,
            Species::RaccoonDog,
        ],
        Reserve::NewEnglandMountains => seq![
            Species::Mallard,
            Species::Moose,
            Species::Goldeneye,
            Species::CommonRaccoon,
            Species::EasternCottontailRabbit,
            Species::BobwhiteQuail,
            Species::EasternWildTurkey,
            Species::GrayFox,
            Species::RedFox,
            Species::BlackBear,
            Species::Bobcat,
            Species::Coyote,
            Species::RingNeckedPheasant,
            Species::GreenWingedTeal,
            Species::WhitetailDeer,
        ],
        Reserve::EmeraldCoastAustralia => seq![
            Species::HogDeer,
            Species::FallowDeer,
            Species::RedDeer,
            Species::FeralPig,
            Species::MagpieGoose,
            Species::EasternGrayKangaroo,
            Species::RedFox,
            Species::Sambar,
            Species::Banteng,
            Species::SaltwaterCrocodile,
            Species::FeralGoat,
            Species::StubbedQuail,
            Species::AxisDeer,
            Species::JavanRusa,
        ],
        Reserve::All => seq![],
        Reserve::Unknown => seq![],
    }
}

/// The reserves that have a list of species, in the order of the table.
pub open spec fn populated_reserves() -> Seq<Reserve> {
    seq![
        Reserve::HirschfeldenHuntingReserve,
        Reserve::LaytonLakeDistrict,
        Reserve::MedvedTaigaNationalPark,
        Reserve::VurhongaSavanna,
        Reserve::ParqueFernando,
        Reserve::YukonValleyNatureReserve,
        Reserve::CuatroColinasGameReserve,
        Reserve::SilverRidgePeaks,
        Reserve::TeAwaroaNationalPark,
        Reserve::RanchoDelArroyo,
        Reserve::MississippiAcresPreserve,
        Reserve::RevontuliCoast,
        Reserve::NewEnglandMountains,
        Reserve::EmeraldCoastAustralia,
    ]
}

/// The table of reserves and their species: one row for each populated reserve.
pub open spec fn reserve_species_table() -> Seq<(Reserve, Seq<Species>)> {
    Seq::new(populated_reserves().len(), |i: int| (populated_reserves()[i], species_on(populated_reserves()[i])))
}

/// The reserves that have a list of species, in the order of the table.
pub fn populated() -> (list: Vec<Reserve>)
    ensures
        list@ == populated_reserves(),
{
    let mut list: Vec<Reserve> = Vec::new();
    list.push(Reserve::HirschfeldenHuntingReserve);
    list.push(Reserve::LaytonLakeDistrict);
    list.push(Reserve::MedvedTaigaNationalPark);
    list.push(Reserve::VurhongaSavanna);
    list.push(Reserve::ParqueFernando);
    list.push(Reserve::YukonValleyNatureReserve);
    list.push(Reserve::CuatroColinasGameReserve);
    list.push(Reserve::SilverRidgePeaks);
    list.push(Reserve::TeAwaroaNationalPark);
    list.push(Reserve::RanchoDelArroyo);
    list.push(Reserve::MississippiAcresPreserve);
    list.push(Reserve::RevontuliCoast);
    list.push(Reserve::NewEnglandMountains);
    list.push(Reserve::EmeraldCoastAustralia);
    list
}

/// The species of one reserve, or nothing for a reserve that has no list.
pub fn species_of(reserve: Reserve) -> (list: Option<Vec<Species>>)
    ensures
        list is Some <==> populated_reserves().contains(reserve),
        list is Some ==> list->0@ == species_on(reserve),
{
    let mut list: Vec<Species> = Vec::new();
    match reserve {
        Reserve::HirschfeldenHuntingReserve => {
            list.push(Species::WildBoar);
            list.push(Species::EuropeanRabbit);
            list.push(Species::FallowDeer);
            list.push(Species::RedFox);
            list.push(Species::RingNeckedPheasant);
            list.push(Species::RedDeer);
        },
        Reserve::LaytonLakeDistrict => {
            list.push(Species::Moose);
            list.push(Species::WhiteTailedJackrabbit);
            list.push(Species::Mallard);
            list.push(Species::EasternWildTurkey);
            list.push(Species::BlackBear);
            list.push(Species::RooseveltElk);
            list.push(Species::Coyote);
            list.push(Species::BlacktailDeer);
            list.push(Species::WhitetailDeer);
        },
        Reserve::MedvedTaigaNationalPark => {
            list.push(Species::SiberianMuskDeer);
            list.push(Species::Moose);
            list.push(Species::WildBoar);
            list.push(Species::Reindeer);
            list.push(Species::EurasianLynx);
            list.push(Species::BrownBear);
            list.push(Species::WesternCapercaillie);
            list.push(Species::GrayWolf);
        },
        Reserve::VurhongaSavanna => {
            list.push(Species::EurasianWigeon);
            list.push(Species::BlueWildebeest);
            list.push(Species::SideStripedJackal);
            list.push(Species::Gemsbok);
            list.push(Species::LesserKudu);
            list.push(Species::ScrubHare);
            list.push(Species::Lion);
            list.push(Species::Warthog);
            list.push(Species::CapeBuffalo);
            list.push(Species::Springbok);
        },
        Reserve::ParqueFernando => {
            list.push(Species::RedDeer);
            list.push(Species::WaterBuffalo);
            list.push(Species::Puma);
            list.push(Species::Blackbuck);
            list.push(Species::CinnamonTeal);
            list.push(Species::CollaredPeccary);
            list.push(Species::MuleDeer);
            list.push(Species::AxisDeer);
        },
        Reserve::YukonValleyNatureReserve => {
            list.push(Species::HarlequinDuck);
            list.push(Species::Moose);
            list.push(Species::RedFox);
            list.push(Species::Caribou);
            list.push(Species::CanadaGoose);
            list.push(Species::GrizzlyBear);
            list.push(Species::GrayWolf);
            list.push(Species::PlainsBison);
        },
        Reserve::CuatroColinasGameReserve => {
            list.push(Species::SoutheasternSpanishIbex);
            list.push(Species::IberianWolf);
            list.push(Species::RedDeer);
            list.push(Species::IberianMouflon);
            list.push(Species::WildBoar);
            list.push(Species::BeciteIbex);
            list.push(Species::EuropeanHare);
            list.push(Species::RoeDeer);
            list.push(Species::RondaIbex);
            list.push(Species::RingNeckedPheasant);
            list.push(Species::GredosIbex);
        },
        Reserve::SilverRidgePeaks => {
            list.push(Species::Pronghorn);
            list.push(Species::Puma);
            list.push(Species::MountainGoat);
            list.push(Species::BighornSheep);
            list.push(Species::EasternWildTurkey);
            list.push(Species::BlackBear);
            list.push(Species::MuleDeer);
            list.push(Species::RockymountainElk);
            list.push(Species::PlainsBison);
        },
        Reserve::TeAwaroaNationalPark => {
            list.push(Species::RedDeer);
            list.push(Species::EuropeanRabbit);
            list.push(Species::FeralPig);
            list.push(Species::FallowDeer);
            list.push(Species::Chamois);
            list.push(Species::Mallard);
            list.push(Species::EasternWildTurkey);
            list.push(Species::SikaDeer);
            list.push(Species::FeralGoat);
        },
        Reserve::RanchoDelArroyo => {
            list.push(Species::MexicanBobcat);
            list.push(Species::RioGrandeTurkey);
            list.push(Species::Pronghorn);
            list.push(Species::BighornSheep);
            list.push(Species::CollaredPeccary);
            list.push(Species::AntelopeJackrabbit);
            list.push(Species::MuleDeer);
            list.push(Species::Coyote);
            list.push(Species::RingNeckedPheasant);
            list.push(Species::WhitetailDeer);
        },
        Reserve::MississippiAcresPreserve => {
            list.push(Species::FeralPig);
            list.push(Species::CommonRaccoon);
            list.push(Species::EasternCottontailRabbit);
            list.push(Species::BobwhiteQuail);
            list.push(Species::EasternWildTurkey);
            list.push(Species::GrayFox);
            list.push(Species::BlackBear);
            list.push(Species::AmericanAlligator);
            list.push(Species::GreenWingedTeal);
            list.push(Species::WhitetailDeer);
        },
        Reserve::RevontuliCoast => {
            list.push(Species::Mallard);
            list.push(Species::RockPtarmigan);
            list.push(Species::EurasianWigeon);
            list.push(Species::Moose);
            list.push(Species::Goldeneye);
            list.push(Species::MountainHare);
            list.push(Species::TuftedDuck);
            list.push(Species::BlackGrouse);
            list.push(Species::TundraBeanGoose);
            list.push(Species::WillowPtarmigan);
            list.push(Species::EurasianLynx);
            list.push(Species::HazelGrouse);
            list.push(Species::BrownBear);
            list.push(Species::EurasianTeal);
            list.push(Species::WesternCapercaillie);
            list.push(Species::CanadaGoose);
            list.push(Species::GreylagGoose);
            list.push(Species::WhitetailDeer);
            list.push(Species::RaccoonDog);
        },
        Reserve::NewEnglandMountains => {
            list.push(Species::Mallard);
            list.push(Species::Moose);
            list.push(Species::Goldeneye);
            list.push(Species::CommonRaccoon);
            list.push(Species::EasternCottontailRabbit);
            list.push(Species::BobwhiteQuail);
            list.push(Species::EasternWildTurkey);
            list.push(Species::GrayFox);
            list.push(Species::RedFox);
            list.push(Species::BlackBear);
            list.push(Species::Bobcat);
            list.push(Species::Coyote);
            list.push(Species::RingNeckedPheasant);
            list.push(Species::GreenWingedTeal);
            list.push(Species::WhitetailDeer);
        },
        Reserve::EmeraldCoastAustralia => {
            list.push(Species::HogDeer);
            list.push(Species::FallowDeer);
            list.push(Species::RedDeer);
            list.push(Species::FeralPig);
            list.push(Species::MagpieGoose);
            list.push(Species::EasternGrayKangaroo);
            list.push(Species::RedFox);
            list.push(Species::Sambar);
            list.push(Species::Banteng);
            list.push(Species::SaltwaterCrocodile);
            list.push(Species::FeralGoat);
            list.push(Species::StubbedQuail);
            list.push(Species::AxisDeer);
            list.push(Species::JavanRusa);
        },
        Reserve::All | Reserve::Unknown => {
            return None;
        },
    }
    Some(list)
}

/// The table as the program holds it: one row for each populated reserve. The rows
/// stand in the order of the table, so that a walk over it meets the reserves in the
/// same order every time.
pub fn reserve_species() -> (table: Vec<(Reserve, Vec<Species>)>)
    ensures
        table@.len() == reserve_species_table().len(),
        forall|i: int|
            0 <= i < table@.len() ==> (#[trigger] table@[i]).0 == reserve_species_table()[i].0
                && table@[i].1@ == reserve_species_table()[i].1,
{
    let reserves = populated();
    let mut table: Vec<(Reserve, Vec<Species>)> = Vec::new();
    let mut i: usize = 0;
    while i < reserves.len()
        invariant
            reserves@ == populated_reserves(),
            i <= reserves.len(),
            table@.len() == i,
            forall|k: int|
                0 <= k < i ==> (#[trigger] table@[k]).0 == reserve_species_table()[k].0
                    && table@[k].1@ == reserve_species_table()[k].1,
        decreases reserves.len() - i,
    {
        let reserve = reserves[i];
        match species_of(reserve) {
            Some(list) => {
                table.push((reserve, list));
            },
            None => {},
        }
        i += 1;
    }
    table
}

} // verus!
