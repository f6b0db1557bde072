//! Challenges: how one that names "all" species or "all" reserves is spread out
//! into one challenge for each combination, how its progress is summed up, and the
//! name of the file it is kept in.

use crate::models::{
    populated, populated_reserves, species_of, species_on, Challenge, ChallengeSummary,
    ChallengeSummaryView, ChallengeView, Reserve, Species,
};
use crate::text::{
    alphanumeric, is_alphanumeric, lowercase, push_char, title_case, to_lowercase, to_title_case,
};
use vstd::prelude::*;
use vstd::string::StrSliceExecFns;
use vstd::string::StringExecFns;

verus! {

/// The real species of a list, in order.
pub open spec fn real_among(list: Seq<Species>) -> Seq<Species>
    decreases list.len(),
{
    if list.len() == 0 {
        Seq::empty()
    } else if list.last().is_real_spec() {
        real_among(list.drop_last()).push(list.last())
    } else {
        real_among(list.drop_last())
    }
}

/// The reserves of a list but the unknown one, in order.
pub open spec fn known_among(list: Seq<Reserve>) -> Seq<Reserve>
    decreases list.len(),
{
    if list.len() == 0 {
        Seq::empty()
    } else if list.last() != Reserve::Unknown {
        known_among(list.drop_last()).push(list.last())
    } else {
        known_among(list.drop_last())
    }
}

/// The reserves of a list on which `species` lives, in order.
pub open spec fn reserves_with(species: Species, list: Seq<Reserve>) -> Seq<Reserve>
    decreases list.len(),
{
    if list.len() == 0 {
        Seq::empty()
    } else if species_on(list.last()).contains(species) {
        reserves_with(species, list.drop_last()).push(list.last())
    } else {
        reserves_with(species, list.drop_last())
    }
}

/// One copy of `challenge` for each species of the list.
pub open spec fn with_species(challenge: ChallengeView, list: Seq<Species>) -> Seq<ChallengeView> {
    list.map_values(|species: Species| ChallengeView { species, ..challenge })
}

/// One copy of `challenge` for each reserve of the list.
pub open spec fn with_reserves(challenge: ChallengeView, list: Seq<Reserve>) -> Seq<ChallengeView> {
    list.map_values(|reserve: Reserve| ChallengeView { reserve, ..challenge })
}

/// One copy of `challenge` for each reserve and each species of the lists, reserve by
/// reserve.
pub open spec fn with_each(
    challenge: ChallengeView,
    reserves: Seq<Reserve>,
    species: Seq<Species>,
) -> Seq<ChallengeView>
    decreases reserves.len(),
{
    if reserves.len() == 0 {
        Seq::empty()
    } else {
        with_each(challenge, reserves.drop_last(), species) + with_species(
            ChallengeView { reserve: reserves.last(), ..challenge },
            species,
        )
    }
}

/// The challenges that `challenge` stands for. An invalid one stands for none. "All
/// species" on a given reserve stands for the species of that reserve, and on the
/// unknown reserve for every real species. "All reserves" for a given species stands
/// for the reserves where it lives, and for the unknown species for every reserve but
/// the unknown one. "All" of both stands for every such reserve with every real
/// species. Any other challenge stands for itself.
pub open spec fn expanded(challenge: ChallengeView) -> Seq<ChallengeView> {
    if !challenge.valid() {
        Seq::empty()
    } else if challenge.species == Species::All && challenge.reserve != Reserve::All {
        if challenge.reserve != Reserve::Unknown {
            with_species(challenge, species_on(challenge.reserve))
        } else {
            with_species(challenge, real_among(Species::all_spec()))
        }
    } else if challenge.reserve == Reserve::All && challenge.species != Species::All {
        if challenge.species == Species::Unknown {
            with_reserves(challenge, known_among(Reserve::all_spec()))
        } else {
            with_reserves(challenge, reserves_with(challenge.species, populated_reserves()))
        }
    } else if challenge.reserve == Reserve::All && challenge.species == Species::All {
        with_each(challenge, known_among(Reserve::all_spec()), real_among(Species::all_spec()))
    } else {
        seq![challenge]
    }
}

/// Every real species, in the order of declaration.
pub fn real_species() -> (list: Vec<Species>)
    ensures
        list@ == real_among(Species::all_spec()),
{
    let all = Species::all();
    let mut list: Vec<Species> = Vec::new();
    let mut i: usize = 0;
    while i < all.len()
        invariant
            i <= all.len(),
            list@ == real_among(all@.take(i as int)),
        decreases all.len() - i,
    {
        assert(all@.take(i + 1).drop_last() =~= all@.take(i as int));
        if all[i].is_real() {
            list.push(all[i]);
        }
        i += 1;
    }
    assert(all@.take(i as int) =~= all@);
    list
}

/// Every reserve but the unknown one, in the order of declaration.
pub fn known_reserves() -> (list: Vec<Reserve>)
    ensures
        list@ == known_among(Reserve::all_spec()),
{
    let all = Reserve::all();
    let mut list: Vec<Reserve> = Vec::new();
    let mut i: usize = 0;
    while i < all.len()
        invariant
            i <= all.len(),
            list@ == known_among(all@.take(i as int)),
        decreases all.len() - i,
    {
        assert(all@.take(i + 1).drop_last() =~= all@.take(i as int));
        if all[i] != Reserve::Unknown {
            list.push(all[i]);
        }
        i += 1;
    }
    assert(all@.take(i as int) =~= all@);
    list
}

fn lives_on(species: Species, reserve: Reserve) -> (answer: bool)
    ensures
        answer == species_on(reserve).contains(species),
{
    match species_of(reserve) {
        Some(list) => {
            let mut i: usize = 0;
            while i < list.len()
                invariant
                    i <= list.len(),
                    list@ == species_on(reserve),
                    forall|k: int| 0 <= k < i ==> list@[k] != species,
                decreases list.len() - i,
            {
                if list[i] == species {
                    return true;
                }
                i += 1;
            }
            false
        },
        None => {
            false
        },
    }
}

/// The reserves on which `species` lives, in the order of the table.
pub fn reserves_of(species: Species) -> (list: Vec<Reserve>)
    ensures
        list@ == reserves_with(species, populated_reserves()),
{
    let all = populated();
    let mut list: Vec<Reserve> = Vec::new();
    let mut i: usize = 0;
    while i < all.len()
        invariant
            i <= all.len(),
            list@ == reserves_with(species, all@.take(i as int)),
        decreases all.len() - i,
    {
        assert(all@.take(i + 1).drop_last() =~= all@.take(i as int));
        if lives_on(species, all[i]) {
            list.push(all[i]);
        }
        i += 1;
    }
    assert(all@.take(i as int) =~= all@);
    list
}

fn spread_species(challenge: &Challenge, list: &Vec<Species>, challenges: &mut Vec<Challenge>)
    ensures
        final(challenges).deep_view() == old(challenges).deep_view() + with_species(challenge@, list@),
{
    let mut i: usize = 0;
    while i < list.len()
        invariant
            i <= list.len(),
            challenges.deep_view() == old(challenges).deep_view() + with_species(
                challenge@,
                list@.take(i as int),
            ),
        decreases list.len() - i,
    {
        let mut c = challenge.clone();
        c.species = list[i];
        let ghost before = challenges.deep_view();
        challenges.push(c);
        assert(before.push(c@) =~= old(challenges).deep_view() + with_species(
            challenge@,
            list@.take(i + 1),
        ));
        i += 1;
    }
}

fn spread_reserves(challenge: &Challenge, list: &Vec<Reserve>, challenges: &mut Vec<Challenge>)
    ensures
        final(challenges).deep_view() == old(challenges).deep_view() + with_reserves(challenge@, list@),
{
    let mut i: usize = 0;
    while i < list.len()
        invariant
            i <= list.len(),
            challenges.deep_view() == old(challenges).deep_view() + with_reserves(
                challenge@,
                list@.take(i as int),
            ),
        decreases list.len() - i,
    {
        let mut c = challenge.clone();
        c.reserve = list[i];
        let ghost before = challenges.deep_view();
        challenges.push(c);
        assert(before.push(c@) =~= old(challenges).deep_view() + with_reserves(
            challenge@,
            list@.take(i + 1),
        ));
        i += 1;
    }
}

/// Spreads a challenge out into the challenges that it stands for.
pub fn process_challenge(challenge: &Challenge) -> (challenges: Vec<Challenge>)
    ensures
        challenges.deep_view() == expanded(challenge@),
{
    let mut challenges: Vec<Challenge> = Vec::new();
    if !challenge.valid() {
        return challenges;
    }
    if challenge.species == Species::All && challenge.reserve != Reserve::All {
        if challenge.reserve != Reserve::Unknown {
            match species_of(challenge.reserve) {
                Some(list) => {
                    spread_species(challenge, &list, &mut challenges);
                },
                None => {
                },
            }
        } else {
            let list = real_species();
            spread_species(challenge, &list, &mut challenges);
        }
    } else if challenge.reserve == Reserve::All && challenge.species != Species::All {
        let list = if challenge.species == Species::Unknown {
            known_reserves()
        } else {
            reserves_of(challenge.species)
        };
        spread_reserves(challenge, &list, &mut challenges);
    } else if challenge.reserve == Reserve::All && challenge.species == Species::All {
        let reserves = known_reserves();
        let species = real_species();
        let mut i: usize = 0;
        while i < reserves.len()
            invariant
                i <= reserves.len(),
                challenges.deep_view() == with_each(challenge@, reserves@.take(i as int), species@),
            decreases reserves.len() - i,
        {
            assert(reserves@.take(i + 1).drop_last() =~= reserves@.take(i as int));
            let mut c = challenge.clone();
            c.reserve = reserves[i];
            spread_species(&c, &species, &mut challenges);
            i += 1;
        }
        assert(reserves@.take(i as int) =~= reserves@);
    } else {
        let copy = challenge.clone();
        challenges.push(copy);
    }
    challenges
}

/// The kills asked for by the challenges of a list, taken together.
pub open spec fn kills_asked(challenges: Seq<ChallengeView>) -> int
    decreases challenges.len(),
{
    if challenges.len() == 0 {
        0
    } else {
        kills_asked(challenges.drop_last()) + challenges.last().kills
    }
}

/// The kills still open in the challenges of a list, taken together.
pub open spec fn kills_open(challenges: Seq<ChallengeView>) -> int
    decreases challenges.len(),
{
    if challenges.len() == 0 {
        0
    } else {
        kills_open(challenges.drop_last()) + challenges.last().kills_remaining
    }
}

/// Whether the parts of a challenge can be summed up: taken together they have no
/// more kills open than they ask for, and the kills they ask for can be counted in 64
/// bits.
pub open spec fn summable(challenges: Seq<ChallengeView>) -> bool {
    kills_open(challenges) <= kills_asked(challenges) <= u64::MAX
}

/// The summary of the parts of one challenge: the name, in title case, the description
/// and the start of the first part, and the kills of all parts. The summary of no
/// parts is blank.
pub open spec fn summary_of(challenges: Seq<ChallengeView>) -> ChallengeSummaryView {
    if challenges.len() == 0 {
        ChallengeSummaryView::blank()
    } else {
        ChallengeSummaryView {
            name: title_case(challenges[0].name),
            description: challenges[0].description,
            start: challenges[0].start,
            kills_completed: (kills_asked(challenges) - kills_open(challenges)) as u64,
            total_kills: kills_asked(challenges) as u64,
            is_deleted: false,
        }
    }
}

/// The kills that the parts ask for and the kills that are still open, each taken
/// together.
fn count_kills(challenges: &Vec<Challenge>) -> (totals: (u128, u128))
    ensures
        totals.0 == kills_asked(challenges.deep_view()),
        totals.1 == kills_open(challenges.deep_view()),
{
    let mut total_kills: u128 = 0;
    let mut total_kills_remaining: u128 = 0;
    let mut i: usize = 0;
    while i < challenges.len()
        invariant
            i <= challenges.len(),
            total_kills == kills_asked(challenges.deep_view().take(i as int)),
            total_kills_remaining == kills_open(challenges.deep_view().take(i as int)),
            total_kills <= i * 0xFFFF_FFFF,
            total_kills_remaining <= i * 0xFFFF_FFFF,
        decreases challenges.len() - i,
    {
        let ghost next = challenges.deep_view().take(i + 1);
        assert(next.drop_last() =~= challenges.deep_view().take(i as int));
        total_kills += challenges[i].kills as u128;
        total_kills_remaining += challenges[i].kills_remaining as u128;
        i += 1;
    }
    assert(challenges.deep_view().take(i as int) =~= challenges.deep_view());
    (total_kills, total_kills_remaining)
}

/// Whether `into_summary` can be asked for these parts.
pub fn can_summarise(challenges: &Vec<Challenge>) -> (answer: bool)
    ensures
        answer == summable(challenges.deep_view()),
{
    let totals = count_kills(challenges);
    totals.1 <= totals.0 && totals.0 <= u64::MAX as u128
}

/// Sums up the parts of one challenge.
pub fn into_summary(challenges: &Vec<Challenge>) -> (summary: ChallengeSummary)
    requires
        summable(challenges.deep_view()),
    ensures
        summary@ == summary_of(challenges.deep_view()),
{
    if challenges.len() == 0 {
        return ChallengeSummary::default();
    }
    let totals = count_kills(challenges);
    let total_kills = totals.0 as u64;
    let kills_completed = (totals.0 - totals.1) as u64;
    ChallengeSummary {
        name: to_title_case(challenges[0].name.as_str()),
        description: challenges[0].description.clone(),
        start: challenges[0].start.clone(),
        kills_completed,
        total_kills,
        is_deleted: false,
    }
}

/// The name of the file for a challenge of this name: every character that is neither
/// a letter nor a digit becomes an underscore, the rest is put in lower case, and
/// ".csv" is put behind.
pub open spec fn file_name(name: Seq<char>) -> Seq<char> {
    lowercase(name.map_values(|c: char| if alphanumeric(c) { c } else { '_' })) + ".csv"@
}

/// The name of the file for a challenge of this name.
pub fn convert_challenge_name(name: &String) -> (file: String)
    ensures
        file@ == file_name(name@),
{
    let source = name.as_str();
    let n = source.unicode_len();
    let mut plain = String::new();
    let mut i: usize = 0;
    while i < n
        invariant
            n == source@.len(),
            source@ == name@,
            i <= n,
            plain@ == name@.take(i as int).map_values(
                |c: char| if alphanumeric(c) { c } else { '_' },
            ),
        decreases n - i,
    {
        let c = source.get_char(i);
        if is_alphanumeric(c) {
            push_char(&mut plain, c);
        } else {
            push_char(&mut plain, '_');
        }
        i += 1;
    }
    assert(name@.take(n as int) =~= name@);
    let mut file = to_lowercase(plain.as_str());
    file.append(".csv");
    file
}

/// The name of the file in which a challenge is kept.
pub fn create_challenge_filename(challenge: &Challenge) -> (file: String)
    ensures
        file@ == file_name(challenge.name@),
{
    convert_challenge_name(&challenge.name)
}

} // verus!
