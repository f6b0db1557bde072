//! The book-keeping: the list of trophies and the list of grinds, as they are held in
//! memory between a load and a save.

use crate::models::{Grind, GrindKill, GrindView, Reserve, Species, Trophy, TrophyView};
use vstd::prelude::*;

verus! {

/// Whether a trophy with identity `id` is on record.
pub open spec fn on_record(id: u32, trophies: Seq<TrophyView>) -> bool {
    exists|i: int| 0 <= i < trophies.len() && (#[trigger] trophies[i]).id == id
}

/// Whether a trophy with the identity of `trophy` is on record already.
pub fn trophy_exists(trophy: &Trophy, trophies: &Vec<Trophy>) -> (exists: bool)
    ensures
        exists == on_record(trophy.id, trophies.deep_view()),
{
    let mut i: usize = 0;
    while i < trophies.len()
        invariant
            i <= trophies.len(),
            forall|k: int| 0 <= k < i ==> (#[trigger] trophies.deep_view()[k]).id != trophy.id,
        decreases trophies.len() - i,
    {
        assert(trophies.deep_view()[i as int] == trophies[i as int]@);
        if trophies[i].id == trophy.id {
            return true;
        }
        i += 1;
    }
    false
}

/// Whether a harvest of `species` on `reserve` counts towards `grind`.
pub open spec fn counts_towards(grind: GrindView, species: Species, reserve: Reserve) -> bool {
    grind.species == species && grind.reserve == reserve && grind.active
}

/// The names of the grinds towards which a harvest of `species` on `reserve` counts,
/// in the order of the list.
pub open spec fn names_to_add(
    grinds: Seq<GrindView>,
    species: Species,
    reserve: Reserve,
) -> Seq<Seq<char>>
    decreases grinds.len(),
{
    if grinds.len() == 0 {
        Seq::empty()
    } else if counts_towards(grinds.last(), species, reserve) {
        names_to_add(grinds.drop_last(), species, reserve).push(grinds.last().name)
    } else {
        names_to_add(grinds.drop_last(), species, reserve)
    }
}

/// The names to add are those of the grinds towards which the harvest counts, one for
/// each such grind and in the order of the list; no other grind is named.
pub proof fn law_names_are_those_of_matching_grinds(
    grinds: Seq<GrindView>,
    species: Species,
    reserve: Reserve,
)
    ensures
        names_to_add(grinds, species, reserve) == grinds.filter(
            |grind: GrindView| counts_towards(grind, species, reserve),
        ).map_values(|grind: GrindView| grind.name),
    decreases grinds.len(),
{
    reveal(Seq::filter);
    if grinds.len() > 0 {
        law_names_are_those_of_matching_grinds(grinds.drop_last(), species, reserve);
    }
}

/// The names of the active grinds for `species` on `reserve`, in the order of the list.
pub fn grinds_to_add(
    grinds: &Vec<Grind>,
    species: &Species,
    reserve: &Reserve,
) -> (names: Vec<String>)
    ensures
        names.deep_view() == names_to_add(grinds.deep_view(), *species, *reserve),
{
    let mut names: Vec<String> = Vec::new();
    let mut i: usize = 0;
    while i < grinds.len()
        invariant
            i <= grinds.len(),
            names.deep_view() == names_to_add(grinds.deep_view().take(i as int), *species, *reserve),
        decreases grinds.len() - i,
    {
        let ghost done = grinds.deep_view().take(i as int);
        let ghost next = grinds.deep_view().take(i + 1);
        assert(next.drop_last() =~= done);
        let g = &grinds[i];
        if g.species == *species && g.reserve == *reserve && g.active == true {
            names.push(g.name.clone());
        }
        i += 1;
    }
    assert(grinds.deep_view().take(i as int) =~= grinds.deep_view());
    names
}

/// Puts `grind` at the end of the list.
pub fn add_grind(grinds: &mut Vec<Grind>, grind: Grind)
    ensures
        final(grinds).deep_view() == old(grinds).deep_view().push(grind@),
{
    grinds.push(grind);
}

/// The list without the grinds that go by `name`.
pub open spec fn without_name(grinds: Seq<GrindView>, name: Seq<char>) -> Seq<GrindView>
    decreases grinds.len(),
{
    if grinds.len() == 0 {
        Seq::empty()
    } else if grinds.last().name != name {
        without_name(grinds.drop_last(), name).push(grinds.last())
    } else {
        without_name(grinds.drop_last(), name)
    }
}

/// Takes every grind that goes by `name` off the list. The others stay, in order.
pub fn remove_grind(grinds: &mut Vec<Grind>, name: String)
    ensures
        final(grinds).deep_view() == without_name(old(grinds).deep_view(), name@),
{
    let mut new_grinds: Vec<Grind> = Vec::new();
    let mut i: usize = 0;
    while i < grinds.len()
        invariant
            i <= grinds.len(),
            *grinds == *old(grinds),
            new_grinds.deep_view() == without_name(grinds.deep_view().take(i as int), name@),
        decreases grinds.len() - i,
    {
        let ghost done = grinds.deep_view().take(i as int);
        let ghost next = grinds.deep_view().take(i + 1);
        assert(next.drop_last() =~= done);
        if grinds[i].name != name {
            let copy = grinds[i].clone();
            new_grinds.push(copy);
        }
        i += 1;
    }
    assert(grinds.deep_view().take(i as int) =~= grinds.deep_view());
    *grinds = new_grinds;
}

/// The list with every grind that goes by `name` switched on or off.
pub open spec fn with_activity(
    grinds: Seq<GrindView>,
    name: Seq<char>,
    active: bool,
) -> Seq<GrindView> {
    grinds.map_values(
        |g: GrindView|
            if g.name == name {
                GrindView { active, ..g }
            } else {
                g
            },
    )
}

/// Switches every grind that goes by `name` on or off. Nothing else changes.
pub fn set_grind_active(grinds: &mut Vec<Grind>, name: String, active: bool)
    ensures
        final(grinds).deep_view() == with_activity(old(grinds).deep_view(), name@, active),
{
    let mut i: usize = 0;
    let n = grinds.len();
    while i < n
        invariant
            i <= n,
            n == grinds.len(),
            grinds.len() == old(grinds).len(),
            forall|k: int|
                0 <= k < i ==> (#[trigger] grinds.deep_view()[k]) == with_activity(
                    old(grinds).deep_view(),
                    name@,
                    active,
                )[k],
            forall|k: int| i <= k < n ==> (#[trigger] grinds.deep_view()[k]) == old(grinds).deep_view()[k],
        decreases n - i,
    {
        assert(grinds.deep_view()[i as int] == grinds[i as int]@);
        if grinds[i].name == name {
            let mut changed = grinds[i].clone();
            changed.active = active;
            let ghost before = grinds.deep_view();
            grinds.set(i, changed);
            assert(forall|k: int|
                0 <= k < n && k != i ==> (#[trigger] grinds.deep_view()[k]) == before[k]);
        }
        i += 1;
    }
}

/// Switches the grinds that go by `name` off.
pub fn stop_grind(grinds: &mut Vec<Grind>, name: String)
    ensures
        final(grinds).deep_view() == with_activity(old(grinds).deep_view(), name@, false),
{
    set_grind_active(grinds, name, false);
}

/// Switches the grinds that go by `name` on.
pub fn start_grind(grinds: &mut Vec<Grind>, name: String)
    ensures
        final(grinds).deep_view() == with_activity(old(grinds).deep_view(), name@, true),
{
    set_grind_active(grinds, name, true);
}

/// The list with one more kill on every grind that goes by `name`.
pub open spec fn with_kill(grinds: Seq<GrindView>, name: Seq<char>) -> Seq<GrindView> {
    grinds.map_values(
        |g: GrindView|
            if g.name == name {
                GrindView { kills: (g.kills + 1) as i64, ..g }
            } else {
                g
            },
    )
}

/// Whether a kill can be counted for `name`: no grind that goes by it stands at the
/// highest count.
pub open spec fn can_count(grinds: Seq<GrindView>, name: Seq<char>) -> bool {
    forall|k: int|
        0 <= k < grinds.len() && (#[trigger] grinds[k]).name == name ==> grinds[k].kills < i64::MAX
}

/// Whether a kill can be counted for `name`.
pub fn can_add_kill(grinds: &Vec<Grind>, name: &String) -> (answer: bool)
    ensures
        answer == can_count(grinds.deep_view(), name@),
{
    let mut i: usize = 0;
    while i < grinds.len()
        invariant
            i <= grinds.len(),
            forall|k: int|
                0 <= k < i && (#[trigger] grinds.deep_view()[k]).name == name@
                    ==> grinds.deep_view()[k].kills < i64::MAX,
        decreases grinds.len() - i,
    {
        assert(grinds.deep_view()[i as int] == grinds[i as int]@);
        if grinds[i].name == *name && grinds[i].kills == i64::MAX {
            return false;
        }
        i += 1;
    }
    true
}

/// Counts one more kill on every grind that goes by `name`. Nothing else changes.
pub fn add_kill(grinds: &mut Vec<Grind>, name: &String)
    requires
        can_count(old(grinds).deep_view(), name@),
    ensures
        final(grinds).deep_view() == with_kill(old(grinds).deep_view(), name@),
{
    let mut i: usize = 0;
    let n = grinds.len();
    while i < n
        invariant
            i <= n,
            n == grinds.len(),
            grinds.len() == old(grinds).len(),
            can_count(old(grinds).deep_view(), name@),
            forall|k: int|
                0 <= k < i ==> (#[trigger] grinds.deep_view()[k]) == with_kill(
                    old(grinds).deep_view(),
                    name@,
                )[k],
            forall|k: int| i <= k < n ==> (#[trigger] grinds.deep_view()[k]) == old(grinds).deep_view()[k],
        decreases n - i,
    {
        assert(grinds.deep_view()[i as int] == grinds[i as int]@);
        if grinds[i].name == *name {
            let mut changed = grinds[i].clone();
            changed.kills = changed.kills + 1;
            let ghost before = grinds.deep_view();
            grinds.set(i, changed);
            assert(forall|k: int|
                0 <= k < n && k != i ==> (#[trigger] grinds.deep_view()[k]) == before[k]);
        }
        i += 1;
    }
}

/// The list after a kill was counted for each of `names` in turn.
pub open spec fn with_kills(grinds: Seq<GrindView>, names: Seq<Seq<char>>) -> Seq<GrindView>
    decreases names.len(),
{
    if names.len() == 0 {
        grinds
    } else {
        with_kill(with_kills(grinds, names.drop_last()), names.last())
    }
}

/// How often `name` stands in `names`.
pub open spec fn occurrences(names: Seq<Seq<char>>, name: Seq<char>) -> nat
    decreases names.len(),
{
    if names.len() == 0 {
        0
    } else {
        occurrences(names.drop_last(), name) + if names.last() == name {
            1nat
        } else {
            0nat
        }
    }
}

/// Whether a kill can be counted for each of `names` in turn: every grind has room
/// for as many kills as there are names that equal its own.
pub open spec fn can_count_all(grinds: Seq<GrindView>, names: Seq<Seq<char>>) -> bool {
    forall|k: int|
        0 <= k < grinds.len() ==> (#[trigger] grinds[k]).kills + occurrences(names, grinds[k].name)
            <= i64::MAX
}

/// A name stands in the first names of a list at most as often as in the whole list.
pub proof fn lemma_occurrences_of_prefix(names: Seq<Seq<char>>, upto: int, name: Seq<char>)
    requires
        0 <= upto <= names.len(),
    ensures
        occurrences(names.take(upto), name) <= occurrences(names, name),
    decreases names.len(),
{
    if upto == names.len() {
        assert(names.take(upto) =~= names);
    } else {
        assert(names.drop_last().take(upto) =~= names.take(upto));
        lemma_occurrences_of_prefix(names.drop_last(), upto, name);
    }
}

/// After a kill was counted for each of `names`, every grind has as many kills more
/// as there are names that equal its own, and is otherwise as it was.
pub proof fn lemma_with_kills(grinds: Seq<GrindView>, names: Seq<Seq<char>>)
    requires
        can_count_all(grinds, names),
    ensures
        with_kills(grinds, names).len() == grinds.len(),
        forall|k: int|
            0 <= k < grinds.len() ==> (#[trigger] with_kills(grinds, names)[k]) == (GrindView {
                kills: (grinds[k].kills + occurrences(names, grinds[k].name)) as i64,
                ..grinds[k]
            }),
    decreases names.len(),
{
    if names.len() > 0 {
        lemma_with_kills(grinds, names.drop_last());
    }
}

/// Whether the kill of a harvest of `species` on `reserve` can be counted for every
/// grind towards which it counts.
pub fn can_save(grinds: &Vec<Grind>, species: &Species, reserve: &Reserve) -> (answer: bool)
    ensures
        answer == can_count_all(
            grinds.deep_view(),
            names_to_add(grinds.deep_view(), *species, *reserve),
        ),
{
    let names = grinds_to_add(grinds, species, reserve);
    let mut i: usize = 0;
    while i < grinds.len()
        invariant
            i <= grinds.len(),
            names.deep_view() == names_to_add(grinds.deep_view(), *species, *reserve),
            forall|k: int|
                0 <= k < i ==> (#[trigger] grinds.deep_view()[k]).kills + occurrences(
                    names.deep_view(),
                    grinds.deep_view()[k].name,
                ) <= i64::MAX,
        decreases grinds.len() - i,
    {
        assert(grinds.deep_view()[i as int] == grinds[i as int]@);
        let due = count_name(&names, &grinds[i].name);
        if (grinds[i].kills as i128) + (due as i128) > i64::MAX as i128 {
            return false;
        }
        i += 1;
    }
    true
}

fn count_name(names: &Vec<String>, name: &String) -> (count: usize)
    ensures
        count == occurrences(names.deep_view(), name@),
{
    let mut count: usize = 0;
    let mut i: usize = 0;
    while i < names.len()
        invariant
            i <= names.len(),
            count <= i,
            count == occurrences(names.deep_view().take(i as int), name@),
        decreases names.len() - i,
    {
        let ghost next = names.deep_view().take(i + 1);
        assert(next.drop_last() =~= names.deep_view().take(i as int));
        if names[i] == *name {
            count += 1;
        }
        i += 1;
    }
    assert(names.deep_view().take(i as int) =~= names.deep_view());
    count
}

/// Puts a copy of `trophy` on record and counts the kill for every grind towards which
/// it counts. Returns one notice for each such grind, in the order of the list.
pub fn save_trophy(
    trophy: &Trophy,
    trophies: &mut Vec<Trophy>,
    grinds: &mut Vec<Grind>,
) -> (notices: Vec<GrindKill>)
    requires
        can_count_all(
            old(grinds).deep_view(),
            names_to_add(old(grinds).deep_view(), trophy.species, trophy.reserve),
        ),
    ensures
        final(trophies).deep_view() == old(trophies).deep_view().push(trophy@),
        final(grinds).deep_view() == with_kills(
            old(grinds).deep_view(),
            names_to_add(old(grinds).deep_view(), trophy.species, trophy.reserve),
        ),
        notices.deep_view() == names_to_add(old(grinds).deep_view(), trophy.species, trophy.reserve),
{
    let copy = trophy.clone();
    trophies.push(copy);
    let names = grinds_to_add(grinds, &trophy.species, &trophy.reserve);
    let mut notices: Vec<GrindKill> = Vec::new();
    let mut i: usize = 0;
    while i < names.len()
        invariant
            i <= names.len(),
            can_count_all(old(grinds).deep_view(), names.deep_view()),
            grinds.deep_view() == with_kills(old(grinds).deep_view(), names.deep_view().take(i as int)),
            notices.deep_view() == names.deep_view().take(i as int),
        decreases names.len() - i,
    {
        let ghost before = old(grinds).deep_view();
        let ghost done = names.deep_view().take(i as int);
        let ghost next = names.deep_view().take(i + 1);
        assert(next.drop_last() =~= done);
        proof {
            assert forall|k: int| 0 <= k < before.len() implies (#[trigger] before[k]).kills
                + occurrences(done, before[k].name) <= i64::MAX by {
                lemma_occurrences_of_prefix(names.deep_view(), i as int, before[k].name);
            }
            lemma_with_kills(before, done);
            assert forall|k: int|
                0 <= k < before.len() && (#[trigger] grinds.deep_view()[k]).name
                    == names[i as int]@ implies grinds.deep_view()[k].kills < i64::MAX by {
                lemma_occurrences_of_prefix(names.deep_view(), i + 1, before[k].name);
            }
        }
        add_kill(grinds, &names[i]);
        notices.push(GrindKill { name: names[i].clone() });
        i += 1;
    }
    assert(names.deep_view().take(i as int) =~= names.deep_view());
    notices
}

} // verus!
