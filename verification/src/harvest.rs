//! Decoding of the harvest record: what the game holds of the latest kill, read field by
//! field into a candidate for a trophy.

use crate::fur::{fur_name, get_fur_name};
use crate::memory::{advance_spec, lemma_advance_zero, MemorySource};
use crate::models::{Boolean, Gender, Rating, Reserve, Species};
use crate::offsets::{chain_target, shot_links, Chain, Offsets, NO_SESSION};
use crate::reader::{
    byte_at, field, int_at, le32, pointer_at, read_byte, read_float, read_int, read_mem,
    read_string, read_usize, signed32, text_at, word_at, Pointer,
};
use crate::text::{display_form, to_display_form, valid_string, valid_text};
use vstd::prelude::*;

verus! {

/// The rating that the game's code stands for.
pub open spec fn rating_of(code: u8) -> Rating {
    if code == 0 {
        Rating::Diamond
    } else if code == 1 {
        Rating::Gold
    } else if code == 2 {
        Rating::Silver
    } else if code == 3 {
        Rating::Bronze
    } else if code == 4 {
        Rating::Unrated
    } else {
        Rating::GreatOne
    }
}

/// The rating that the game's code stands for: 0 to 4 for diamond down to none, any
/// other code for the great one.
pub fn decode_rating(code: u8) -> (rating: Rating)
    ensures
        rating == rating_of(code),
{
    match code {
        0 => Rating::Diamond,
        1 => Rating::Gold,
        2 => Rating::Silver,
        3 => Rating::Bronze,
        4 => Rating::Unrated,
        _ => Rating::GreatOne,
    }
}

/// The sex that the game's code stands for.
pub open spec fn gender_of(code: i32) -> Gender {
    if code == 1 {
        Gender::Male
    } else {
        Gender::Female
    }
}

/// The sex that the game's code stands for: 1 for male, any other code for female.
pub fn decode_gender(code: i32) -> (gender: Gender)
    ensures
        gender == gender_of(code),
{
    match code {
        1 => Gender::Male,
        _ => Gender::Female,
    }
}

/// The species that a name, as it stands in memory, spells; unknown if it spells none.
pub open spec fn species_of(text: Seq<char>) -> Species {
    match Species::parse(text) {
        Some(species) => species,
        None => Species::Unknown,
    }
}

/// The reserve that a name, as it stands in memory, spells; unknown if it spells none.
pub open spec fn reserve_of(text: Seq<char>) -> Reserve {
    match Reserve::parse(text) {
        Some(reserve) => reserve,
        None => Reserve::Unknown,
    }
}

/// The session score in the harvest record, or the sign for "no session" where it
/// cannot be read.
pub open spec fn session_score_at(memory: Map<int, u8>, harvest: u64) -> i32 {
    match field(memory, harvest, Offsets::known().session_score, 4) {
        Some(bytes) => signed32(le32(bytes)) as i32,
        None => NO_SESSION,
    }
}

/// Reads the session score; the sign for "no session" where it cannot be read.
pub fn read_session_score<M: MemorySource>(memory: &M, harvest: u64) -> (score: i32)
    ensures
        score == session_score_at(memory.bytes(), harvest),
{
    let offsets = Offsets::new();
    match read_mem(memory, harvest, offsets.session_score, 4) {
        Some(_) => read_int(memory, harvest, offsets.session_score),
        None => NO_SESSION,
    }
}

/// The name of the species as it stands in memory. It is written inside the record;
/// where what stands there does not show as a name, the record holds a pointer to it.
pub open spec fn species_text(memory: Map<int, u8>, harvest: u64) -> Seq<char> {
    let inline = text_at(memory, advance_spec(harvest, Offsets::known().species as int));
    if valid_text(display_form(inline)) {
        inline
    } else {
        text_at(memory, pointer_at(memory, harvest, Offsets::known().species))
    }
}

/// The name of the reserve as it stands in memory. The record holds a pointer to it;
/// where what stands there does not show as a name, it is written inside the record.
pub open spec fn reserve_text(memory: Map<int, u8>, harvest: u64) -> Seq<char> {
    let pointed = text_at(memory, pointer_at(memory, harvest, Offsets::known().reserve));
    if valid_text(display_form(pointed)) {
        pointed
    } else {
        text_at(memory, advance_spec(harvest, Offsets::known().reserve as int))
    }
}

/// What was decoded of one harvest. The measurements are single-precision numbers,
/// each held as its bit pattern; a field that could not be read holds zero.
#[derive(Debug)]
pub struct TrophyCandidate {
    pub species: Species,
    pub reserve: Reserve,
    pub rating: Rating,
    pub score: u32,
    pub weight: u32,
    pub fur: String,
    pub gender: Gender,
    pub cash: i32,
    pub xp: i32,
    pub session_score: i32,
    pub integrity: Boolean,
    pub tracking: u32,
    pub weapon_score: u32,
    pub shot_distance: u32,
    pub shot_damage: u32,
    /// The name of the species as it is shown.
    pub species_name: String,
    /// The name of the reserve as it is shown.
    pub reserve_name: String,
}

/// What a candidate says, with its texts as sequences of characters.
pub struct TrophyCandidateView {
    pub species: Species,
    pub reserve: Reserve,
    pub rating: Rating,
    pub score: u32,
    pub weight: u32,
    pub fur: Seq<char>,
    pub gender: Gender,
    pub cash: i32,
    pub xp: i32,
    pub session_score: i32,
    pub integrity: Boolean,
    pub tracking: u32,
    pub weapon_score: u32,
    pub shot_distance: u32,
    pub shot_damage: u32,
    pub species_name: Seq<char>,
    pub reserve_name: Seq<char>,
}

impl View for TrophyCandidate {
    type V = TrophyCandidateView;

    open spec fn view(&self) -> TrophyCandidateView {
        TrophyCandidateView {
            species: self.species,
            reserve: self.reserve,
            rating: self.rating,
            score: self.score,
            weight: self.weight,
            fur: self.fur@,
            gender: self.gender,
            cash: self.cash,
            xp: self.xp,
            session_score: self.session_score,
            integrity: self.integrity,
            tracking: self.tracking,
            weapon_score: self.weapon_score,
            shot_distance: self.shot_distance,
            shot_damage: self.shot_damage,
            species_name: self.species_name@,
            reserve_name: self.reserve_name@,
        }
    }
}

impl DeepView for TrophyCandidate {
    type V = TrophyCandidateView;

    open spec fn deep_view(&self) -> TrophyCandidateView {
        self@
    }
}

/// The address of the shot record.
pub open spec fn shot_base_address(memory: Map<int, u8>, base_address: u64) -> u64 {
    chain_target(memory, base_address, shot_links(), 0)
}

/// Finds the shot record: four links from the module's base.
pub fn get_shot_base_address<M: MemorySource>(base_address: u64, memory: &M) -> (address: u64)
    ensures
        address == shot_base_address(memory.bytes(), base_address),
{
    Chain::shot().resolve(memory, base_address)
}

/// The candidate that the memory holds: the record at `harvest`, with the tracking
/// distance, the fur name and the shot taken from where `base_address` leads.
pub open spec fn candidate_at(
    memory: Map<int, u8>,
    base_address: u64,
    harvest: u64,
) -> TrophyCandidateView {
    let offsets = Offsets::known();
    let shot = shot_base_address(memory, base_address);
    TrophyCandidateView {
        species: species_of(species_text(memory, harvest)),
        reserve: reserve_of(reserve_text(memory, harvest)),
        rating: rating_of(byte_at(memory, harvest, offsets.rating)),
        score: word_at(memory, harvest, offsets.score),
        weight: word_at(memory, harvest, offsets.weight),
        fur: fur_name(memory, base_address, int_at(memory, harvest, offsets.fur_offset)),
        gender: gender_of(int_at(memory, harvest, offsets.gender)),
        cash: int_at(memory, harvest, offsets.cash),
        xp: int_at(memory, harvest, offsets.xp),
        session_score: session_score_at(memory, harvest),
        integrity: if byte_at(memory, harvest, offsets.integrity) == 1 {
            Boolean::True
        } else {
            Boolean::False
        },
        tracking: word_at(memory, base_address, offsets.tracking),
        weapon_score: word_at(memory, shot, offsets.weapon_score),
        shot_distance: word_at(memory, shot, offsets.shot_distance),
        shot_damage: word_at(memory, shot, offsets.shot_damage),
        species_name: display_form(species_text(memory, harvest)),
        reserve_name: display_form(reserve_text(memory, harvest)),
    }
}

/// Reads the name of the species as it stands in memory.
pub fn read_species_text<M: MemorySource>(memory: &M, harvest: u64) -> (text: String)
    ensures
        text@ == species_text(memory.bytes(), harvest),
{
    let offsets = Offsets::new();
    let inline = read_string(memory, harvest, offsets.species, false);
    let shown = to_display_form(&inline);
    if valid_string(&shown) {
        inline
    } else {
        let pointed = read_usize(memory, harvest, offsets.species);
        proof {
            lemma_advance_zero(pointed);
        }
        read_string(memory, pointed, 0x0, false)
    }
}

/// Reads the name of the reserve as it stands in memory.
pub fn read_reserve_text<M: MemorySource>(memory: &M, harvest: u64) -> (text: String)
    ensures
        text@ == reserve_text(memory.bytes(), harvest),
{
    let offsets = Offsets::new();
    let at = Pointer::new(harvest).add(memory, offsets.reserve).address();
    proof {
        lemma_advance_zero(at);
    }
    let pointed = read_string(memory, at, 0x0, false);
    let shown = to_display_form(&pointed);
    if valid_string(&shown) {
        pointed
    } else {
        read_string(memory, harvest, offsets.reserve, false)
    }
}

/// Reads every field of the harvest. A field that cannot be read comes out as zero,
/// a name that is not recognised as unknown; neither stops the reading of the rest.
pub fn assemble<M: MemorySource>(
    memory: &M,
    base_address: u64,
    harvest: u64,
) -> (candidate: TrophyCandidate)
    ensures
        candidate@ == candidate_at(memory.bytes(), base_address, harvest),
{
    let offsets = Offsets::new();
    let shot = get_shot_base_address(base_address, memory);
    let trophy_species = read_species_text(memory, harvest);
    let species = match Species::from_str(trophy_species.as_str()) {
        Some(species) => species,
        None => Species::Unknown,
    };
    let trophy_reserve = read_reserve_text(memory, harvest);
    let reserve = match Reserve::from_str(trophy_reserve.as_str()) {
        Some(reserve) => reserve,
        None => Reserve::Unknown,
    };
    let fur_key = read_int(memory, harvest, offsets.fur_offset);
    TrophyCandidate {
        species,
        reserve,
        rating: decode_rating(read_byte(memory, harvest, offsets.rating)),
        score: read_float(memory, harvest, offsets.score),
        weight: read_float(memory, harvest, offsets.weight),
        fur: get_fur_name(memory, base_address, fur_key),
        gender: decode_gender(read_int(memory, harvest, offsets.gender)),
        cash: read_int(memory, harvest, offsets.cash),
        xp: read_int(memory, harvest, offsets.xp),
        session_score: read_session_score(memory, harvest),
        integrity: Boolean::from(read_byte(memory, harvest, offsets.integrity) == 1),
        tracking: read_float(memory, base_address, offsets.tracking),
        weapon_score: read_float(memory, shot, offsets.weapon_score),
        shot_distance: read_float(memory, shot, offsets.shot_distance),
        shot_damage: read_float(memory, shot, offsets.shot_damage),
        species_name: to_display_form(&trophy_species),
        reserve_name: to_display_form(&trophy_reserve),
    }
}

} // verus!
