//! Registration: the rules by which a decoded harvest becomes a trophy on record, or
//! is turned away.

use crate::ambient::local_timestamp;
use crate::data::{
    can_count_all, can_save, grinds_to_add, names_to_add, on_record, save_trophy, trophy_exists,
    with_kills,
};
use crate::game_monitor::Monitor;
use crate::harvest::{candidate_at, session_score_at, TrophyCandidate, TrophyCandidateView};
use crate::offsets::Offsets;
use crate::reader::word_at;
use crate::models::{Boolean, Grind, GrindKill, GrindView, Reserve, Species, Trophy, TrophyView};
use crate::text::{join, joined};
use vstd::prelude::*;
use vstd::string::StringExecFns;

verus! {

/// What was decided of a harvest.
#[derive(Clone, Copy, Debug, PartialEq, Eq, Structural)]
pub enum Verdict {
    /// The species or the reserve was not recognised.
    Rejected,
    /// A trophy with this identity is on record already.
    Duplicate,
    /// The harvest was put on record.
    Stored,
}

/// What a registration asks of the caller.
#[derive(Debug)]
pub struct Registration {
    pub verdict: Verdict,
    /// A line for the status channel.
    pub status: String,
    /// The trophy, for the trophy channel, if it was put on record.
    pub trophy: Option<Trophy>,
    /// One notice for each grind that the trophy was counted for, for the grind channel.
    pub grind_kills: Vec<GrindKill>,
}

/// The verdict on `trophy`, given what is on record.
pub open spec fn verdict_of(trophy: TrophyView, trophies: Seq<TrophyView>) -> Verdict {
    if !trophy.valid() {
        Verdict::Rejected
    } else if on_record(trophy.id, trophies) {
        Verdict::Duplicate
    } else {
        Verdict::Stored
    }
}

/// The record after the registration of `trophy`.
pub open spec fn trophies_after(trophy: TrophyView, trophies: Seq<TrophyView>) -> Seq<TrophyView> {
    if verdict_of(trophy, trophies) == Verdict::Stored {
        trophies.push(trophy)
    } else {
        trophies
    }
}

/// The names of the grinds that are told of `trophy`.
pub open spec fn notices_for(
    trophy: TrophyView,
    trophies: Seq<TrophyView>,
    grinds: Seq<GrindView>,
) -> Seq<Seq<char>> {
    if verdict_of(trophy, trophies) == Verdict::Stored {
        names_to_add(grinds, trophy.species, trophy.reserve)
    } else {
        Seq::empty()
    }
}

/// The grinds after the registration of `trophy`.
pub open spec fn grinds_after(
    trophy: TrophyView,
    trophies: Seq<TrophyView>,
    grinds: Seq<GrindView>,
) -> Seq<GrindView> {
    with_kills(grinds, notices_for(trophy, trophies, grinds))
}

/// The status line that goes with a verdict.
pub open spec fn status_of(
    verdict: Verdict,
    species_name: Seq<char>,
    reserve_name: Seq<char>,
) -> Seq<char> {
    match verdict {
        Verdict::Rejected => "Problem processing trophy with name "@ + species_name,
        Verdict::Duplicate => "Trophy is already saved"@,
        Verdict::Stored => "Stored "@ + species_name + " trophy from "@ + reserve_name,
    }
}

/// Whether `trophy` can be registered: if it is to be put on record, every grind
/// towards which it counts has room for its kill. Nothing is asked for a harvest that
/// is turned away.
pub open spec fn can_register(
    trophy: TrophyView,
    trophies: Seq<TrophyView>,
    grinds: Seq<GrindView>,
) -> bool {
    verdict_of(trophy, trophies) == Verdict::Stored ==> can_count_all(
        grinds,
        names_to_add(grinds, trophy.species, trophy.reserve),
    )
}

/// Registers a harvest. One whose species or reserve is unknown is turned away, and so is
/// one whose identity is on record already; neither changes the record or the grinds,
/// and neither is sent on. Any other harvest is put on record, counted for the grinds
/// that it matches, and sent on together with one notice for each such grind. The
/// names are those under which the harvest is spoken of in the status line.
pub fn register(
    trophy: Trophy,
    species_name: &String,
    reserve_name: &String,
    trophies: &mut Vec<Trophy>,
    grinds: &mut Vec<Grind>,
) -> (report: Registration)
    requires
        can_register(trophy@, old(trophies).deep_view(), old(grinds).deep_view()),
    ensures
        report.verdict == verdict_of(trophy@, old(trophies).deep_view()),
        report.status@ == status_of(report.verdict, species_name@, reserve_name@),
        final(trophies).deep_view() == trophies_after(trophy@, old(trophies).deep_view()),
        final(grinds).deep_view() == grinds_after(
            trophy@,
            old(trophies).deep_view(),
            old(grinds).deep_view(),
        ),
        report.trophy is Some <==> report.verdict == Verdict::Stored,
        report.trophy is Some ==> report.trophy->0@ == trophy@,
        report.grind_kills.deep_view() == notices_for(
            trophy@,
            old(trophies).deep_view(),
            old(grinds).deep_view(),
        ),
        trophy.species == Species::Unknown || trophy.reserve == Reserve::Unknown ==> report.verdict
            == Verdict::Rejected && final(trophies).deep_view() == old(trophies).deep_view()
            && final(grinds).deep_view() == old(grinds).deep_view() && report.trophy is None
            && report.grind_kills.deep_view().len() == 0,
        on_record(trophy.id, old(trophies).deep_view()) ==> report.verdict != Verdict::Stored
            && final(trophies).deep_view() == old(trophies).deep_view() && report.trophy is None,
{
    if !trophy.valid() {
        let mut status = String::from_str("Problem processing trophy with name ");
        status.append(species_name.as_str());
        return Registration {
            verdict: Verdict::Rejected,
            status,
            trophy: None,
            grind_kills: Vec::new(),
        };
    }
    if trophy_exists(&trophy, trophies) {
        return Registration {
            verdict: Verdict::Duplicate,
            status: String::from_str("Trophy is already saved"),
            trophy: None,
            grind_kills: Vec::new(),
        };
    }
    let grind_kills = save_trophy(&trophy, trophies, grinds);
    let mut status = String::from_str("Stored ");
    status.append(species_name.as_str());
    status.append(" trophy from ");
    status.append(reserve_name.as_str());
    Registration { verdict: Verdict::Stored, status, trophy: Some(trophy), grind_kills }
}

/// Whether `register` can be asked for this harvest. A harvest that is turned away
/// can always be registered: it counts for nothing. One that is put on record can be
/// registered if its kill can be counted for every grind towards which it counts.
pub fn has_room(trophy: &Trophy, trophies: &Vec<Trophy>, grinds: &Vec<Grind>) -> (answer: bool)
    ensures
        answer == can_register(trophy@, trophies.deep_view(), grinds.deep_view()),
{
    !trophy.valid() || trophy_exists(trophy, trophies) || can_save(
        grinds,
        &trophy.species,
        &trophy.reserve,
    )
}

/// The grinds that a harvest belongs to, as one text: the names of the grinds that it
/// counts towards, separated by a slash; nothing if there is none.
pub open spec fn grind_label(
    grinds: Seq<GrindView>,
    species: Species,
    reserve: Reserve,
) -> Option<Seq<char>> {
    let names = names_to_add(grinds, species, reserve);
    if names.len() > 0 {
        Some(joined(names, "/"@))
    } else {
        None
    }
}

/// The trophy that a candidate becomes, once it is given its identity, its date, the
/// damage of the shot in percent, and the word on whether the game runs with mods.
pub open spec fn trophy_of(
    candidate: TrophyCandidateView,
    id: u32,
    date: Seq<char>,
    shot_damage: u32,
    mods: bool,
    grinds: Seq<GrindView>,
) -> TrophyView {
    TrophyView {
        id,
        species: candidate.species,
        reserve: candidate.reserve,
        rating: candidate.rating,
        score: candidate.score,
        weight: candidate.weight,
        fur: candidate.fur,
        date,
        gender: candidate.gender,
        cash: candidate.cash,
        xp: candidate.xp,
        session_score: candidate.session_score,
        integrity: candidate.integrity,
        tracking: candidate.tracking,
        weapon_score: candidate.weapon_score,
        shot_distance: candidate.shot_distance,
        shot_damage,
        mods: if mods {
            Boolean::True
        } else {
            Boolean::False
        },
        grind: grind_label(grinds, candidate.species, candidate.reserve),
    }
}

impl TrophyCandidate {
    /// Makes the trophy, dated `date`.
    pub fn into_trophy_at(
        self,
        id: u32,
        date: String,
        shot_damage: u32,
        mods: bool,
        grinds: &Vec<Grind>,
    ) -> (trophy: Trophy)
        ensures
            trophy@ == trophy_of(self@, id, date@, shot_damage, mods, grinds.deep_view()),
    {
        let grind_trophy = grinds_to_add(grinds, &self.species, &self.reserve);
        let grind = if grind_trophy.len() > 0 {
            Some(join(&grind_trophy, "/"))
        } else {
            None
        };
        Trophy {
            id,
            species: self.species,
            reserve: self.reserve,
            rating: self.rating,
            score: self.score,
            weight: self.weight,
            fur: self.fur,
            date,
            gender: self.gender,
            cash: self.cash,
            xp: self.xp,
            session_score: self.session_score,
            integrity: self.integrity,
            tracking: self.tracking,
            weapon_score: self.weapon_score,
            shot_distance: self.shot_distance,
            shot_damage,
            mods: Boolean::from(mods),
            grind,
        }
    }

    /// Makes the trophy, dated now by the clock of this machine.
    pub fn into_trophy(
        self,
        id: u32,
        shot_damage: u32,
        mods: bool,
        grinds: &Vec<Grind>,
    ) -> (trophy: Trophy)
        ensures
            trophy@ == trophy_of(self@, id, trophy.date@, shot_damage, mods, grinds.deep_view()),
    {
        self.into_trophy_at(id, local_timestamp(), shot_damage, mods, grinds)
    }
}

/// No harvest of an unknown species or on an unknown reserve reaches the record or
/// the grinds, whatever else it says.
pub proof fn law_unknown_is_never_stored(
    trophy: TrophyView,
    trophies: Seq<TrophyView>,
    grinds: Seq<GrindView>,
)
    requires
        trophy.species == Species::Unknown || trophy.reserve == Reserve::Unknown,
    ensures
        verdict_of(trophy, trophies) == Verdict::Rejected,
        trophies_after(trophy, trophies) == trophies,
        grinds_after(trophy, trophies, grinds) == grinds,
        notices_for(trophy, trophies, grinds).len() == 0,
{
}

/// Of two harvests with the same identity, the second is not put on record once the
/// first has been registered: it is a duplicate if it is valid, and the record stays
/// as the first left it.
pub proof fn law_same_identity_is_stored_once(
    first: TrophyView,
    second: TrophyView,
    trophies: Seq<TrophyView>,
)
    requires
        first.id == second.id,
        first.valid(),
    ensures
        verdict_of(second, trophies_after(first, trophies)) != Verdict::Stored,
        second.valid() ==> verdict_of(second, trophies_after(first, trophies)) == Verdict::Duplicate,
        trophies_after(second, trophies_after(first, trophies)) == trophies_after(first, trophies),
{
    let after = trophies_after(first, trophies);
    if verdict_of(first, trophies) == Verdict::Stored {
        assert(after[trophies.len() as int].id == second.id);
    }
}

/// A look that finds a new harvest of a known species on a known reserve yields that
/// harvest as its candidate. Made into a trophy under an identity that is not on
/// record, it is put on record once, with the weight and the session score that the
/// look saw, and every grind towards which it counts is told once; a second delivery of
/// the same trophy is a duplicate.
pub proof fn law_new_harvest_is_stored_once(
    monitor: Monitor,
    memory: Map<int, u8>,
    id: u32,
    date: Seq<char>,
    shot_damage: u32,
    mods: bool,
    trophies: Seq<TrophyView>,
    grinds: Seq<GrindView>,
)
    requires
        monitor.triggers(memory),
        candidate_at(memory, monitor.base_address, monitor.harvest_base_address).species
            != Species::Unknown,
        candidate_at(memory, monitor.base_address, monitor.harvest_base_address).reserve
            != Reserve::Unknown,
        !on_record(id, trophies),
    ensures
        ({
            let candidate = candidate_at(memory, monitor.base_address, monitor.harvest_base_address);
            let trophy = trophy_of(candidate, id, date, shot_damage, mods, grinds);
            &&& monitor.poll_report(memory).candidate == Some(candidate)
            &&& trophy.id == id
            &&& trophy.species == candidate.species
            &&& trophy.reserve == candidate.reserve
            &&& trophy.weight == word_at(
                memory,
                monitor.harvest_base_address,
                Offsets::known().weight,
            )
            &&& trophy.session_score == session_score_at(memory, monitor.harvest_base_address)
            &&& verdict_of(trophy, trophies) == Verdict::Stored
            &&& trophies_after(trophy, trophies) == trophies.push(trophy)
            &&& notices_for(trophy, trophies, grinds) == names_to_add(
                grinds,
                candidate.species,
                candidate.reserve,
            )
            &&& grinds_after(trophy, trophies, grinds) == with_kills(
                grinds,
                names_to_add(grinds, candidate.species, candidate.reserve),
            )
            &&& verdict_of(trophy, trophies_after(trophy, trophies)) == Verdict::Duplicate
            &&& trophies_after(trophy, trophies_after(trophy, trophies)) == trophies.push(trophy)
        }),
{
    let candidate = candidate_at(memory, monitor.base_address, monitor.harvest_base_address);
    let trophy = trophy_of(candidate, id, date, shot_damage, mods, grinds);
    law_same_identity_is_stored_once(trophy, trophy, trophies);
}

} // verus!
