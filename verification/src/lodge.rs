//! What the lodge shows: the trophies that pass the filter, in the order asked for;
//! the species to choose from; the columns of the table; and the counts under each
//! reserve and species.

use crate::models::{
    rating_rank, ratings_to_i32, species_of, species_on, Gender, Rating, Reserve, SortBy, Species,
    Trophy, TrophyCols, TrophyFilter, TrophyView,
};
use crate::text::{
    lemma_lex_order_chains, lemma_lex_order_flips, lex_order, pieces, split, text_order, title_case,
};
use vstd::prelude::*;

verus! {

/// Whether one of the grinds that a trophy belongs to, their names separated by
/// slashes, is `grind`.
pub open spec fn belongs_to(label: Option<Seq<char>>, grind: Seq<char>) -> bool {
    match label {
        Some(names) => pieces(names, '/').contains(grind),
        None => false,
    }
}

/// Whether a trophy passes the filter. A wildcard, and an empty grind, let every
/// trophy pass.
pub open spec fn passes(filter: TrophyFilter, trophy: TrophyView) -> bool {
    &&& filter.species == Species::All || trophy.species == filter.species
    &&& filter.reserve == Reserve::All || trophy.reserve == filter.reserve
    &&& filter.rating == Rating::All || trophy.rating == filter.rating
    &&& filter.gender == Gender::All || trophy.gender == filter.gender
    &&& filter.grind@.len() == 0 || belongs_to(trophy.grind, filter.grind@)
}

/// The trophies of a list that pass the filter, in order.
pub open spec fn passing(filter: TrophyFilter, trophies: Seq<TrophyView>) -> Seq<TrophyView>
    decreases trophies.len(),
{
    if trophies.len() == 0 {
        Seq::empty()
    } else if passes(filter, trophies.last()) {
        passing(filter, trophies.drop_last()).push(trophies.last())
    } else {
        passing(filter, trophies.drop_last())
    }
}

/// Whether a bit pattern stands for a number, finite or infinite, rather than for
/// "not a number".
pub open spec fn is_number(pattern: u32) -> bool {
    pattern % 0x8000_0000 <= 0x7F80_0000
}

/// A whole number that orders single-precision numbers as their values do: greater
/// for the greater value, and the same for both zeros.
pub open spec fn magnitude(pattern: u32) -> int {
    if pattern < 0x8000_0000 {
        pattern as int
    } else {
        0x8000_0000 - pattern
    }
}

/// Whether `first` goes ahead of `second` in the order asked for: the later date,
/// the higher score, weight, rating or distance goes first.
pub open spec fn goes_ahead(first: TrophyView, second: TrophyView, order: SortBy) -> bool {
    match order {
        SortBy::Date => lex_order(first.date, second.date) > 0,
        SortBy::Score => magnitude(first.score) > magnitude(second.score),
        SortBy::Weight => magnitude(first.weight) > magnitude(second.weight),
        SortBy::Rating => rating_rank(first.rating) > rating_rank(second.rating),
        SortBy::ShotDistance => magnitude(first.shot_distance) > magnitude(second.shot_distance),
    }
}

/// Whether a trophy can be put in the order asked for: the number it is ordered by
/// must be a number.
pub open spec fn sortable(trophy: TrophyView, order: SortBy) -> bool {
    match order {
        SortBy::Date => true,
        SortBy::Score => is_number(trophy.score),
        SortBy::Weight => is_number(trophy.weight),
        SortBy::Rating => true,
        SortBy::ShotDistance => is_number(trophy.shot_distance),
    }
}

/// The place of a newcomer in an ordered list: in front of the first trophy, from
/// `from` on, that it goes ahead of, and at the end if there is none.
pub open spec fn slot(list: Seq<TrophyView>, newcomer: TrophyView, order: SortBy, from: int) -> int
    decreases list.len() - from,
{
    if from >= list.len() {
        list.len() as int
    } else if goes_ahead(newcomer, list[from], order) {
        from
    } else {
        slot(list, newcomer, order, from + 1)
    }
}

/// The list in the order asked for. Trophies that tie keep the order in which they
/// stood: each trophy in turn takes its place behind those that came before it and
/// do not yield to it.
pub open spec fn arranged(list: Seq<TrophyView>, order: SortBy) -> Seq<TrophyView>
    decreases list.len(),
{
    if list.len() == 0 {
        Seq::empty()
    } else {
        let head = arranged(list.drop_last(), order);
        head.insert(slot(head, list.last(), order, 0), list.last())
    }
}

/// Whether no trophy of the list stands behind one that it goes ahead of.
pub open spec fn ordered(list: Seq<TrophyView>, order: SortBy) -> bool {
    forall|i: int, j: int| 0 <= i < j < list.len() ==> !goes_ahead(list[j], list[i], order)
}

proof fn lemma_ahead_chains(first: TrophyView, second: TrophyView, third: TrophyView, order: SortBy)
    requires
        goes_ahead(first, second, order),
        !goes_ahead(third, second, order),
    ensures
        !goes_ahead(third, first, order),
        !goes_ahead(second, first, order),
{
    if order == SortBy::Date {
        lemma_lex_order_flips(first.date, second.date);
        lemma_lex_order_flips(third.date, first.date);
        lemma_lex_order_chains(third.date, second.date, first.date);
    }
}

proof fn lemma_slot(list: Seq<TrophyView>, newcomer: TrophyView, order: SortBy, from: int)
    requires
        0 <= from <= list.len(),
    ensures
        from <= slot(list, newcomer, order, from) <= list.len(),
        forall|i: int|
            from <= i < slot(list, newcomer, order, from) ==> !goes_ahead(newcomer, #[trigger] list[i], order),
        slot(list, newcomer, order, from) < list.len() ==> goes_ahead(
            newcomer,
            list[slot(list, newcomer, order, from)],
            order,
        ),
    decreases list.len() - from,
{
    if from < list.len() && !goes_ahead(newcomer, list[from], order) {
        lemma_slot(list, newcomer, order, from + 1);
    }
}

/// The arranged list holds the trophies of the list, each as often as the list does,
/// and none of them stands behind one that it goes ahead of.
pub proof fn law_arranged_is_ordered(list: Seq<TrophyView>, order: SortBy)
    ensures
        arranged(list, order).to_multiset() == list.to_multiset(),
        arranged(list, order).len() == list.len(),
        ordered(arranged(list, order), order),
    decreases list.len(),
{
    broadcast use vstd::seq_lib::to_multiset_build, vstd::seq_lib::to_multiset_remove;

    if list.len() == 0 {
        assert(arranged(list, order) =~= list);
    } else {
        let rest = list.drop_last();
        let newcomer = list.last();
        let head = arranged(rest, order);
        law_arranged_is_ordered(rest, order);
        lemma_slot(head, newcomer, order, 0);
        let place = slot(head, newcomer, order, 0);
        let all = head.insert(place, newcomer);
        assert(all.remove(place) =~= head);
        assert(all[place] == newcomer);
        assert(list =~= rest.push(newcomer));
        assert(all.to_multiset() =~= head.to_multiset().insert(newcomer)) by {
            all.to_multiset_ensures();
            assert(all.contains(newcomer));
        }
        assert forall|i: int, j: int| 0 <= i < j < all.len() implies !goes_ahead(
            all[j],
            all[i],
            order,
        ) by {
            if i == place {
                if j - 1 == place {
                    lemma_lex_order_flips(head[place].date, head[place].date);
                }
                lemma_ahead_chains(newcomer, head[place], head[j - 1], order);
            } else if j == place {
                assert(all[i] == head[i]);
            } else {
                let a = if i < place { i } else { i - 1 };
                let b = if j < place { j } else { j - 1 };
                assert(all[i] == head[a] && all[j] == head[b]);
            }
        }
    }
}

fn magnitude_of(pattern: u32) -> (value: i64)
    ensures
        value == magnitude(pattern),
{
    if pattern < 0x8000_0000 {
        pattern as i64
    } else {
        0x8000_0000i64 - (pattern as i64)
    }
}

fn is_ahead(first: &Trophy, second: &Trophy, order: SortBy) -> (ahead: bool)
    ensures
        ahead == goes_ahead(first@, second@, order),
{
    match order {
        SortBy::Date => text_order(first.date.as_str(), second.date.as_str()) > 0,
        SortBy::Score => magnitude_of(first.score) > magnitude_of(second.score),
        SortBy::Weight => magnitude_of(first.weight) > magnitude_of(second.weight),
        SortBy::Rating => ratings_to_i32(&first.rating) > ratings_to_i32(&second.rating),
        SortBy::ShotDistance => magnitude_of(first.shot_distance) > magnitude_of(
            second.shot_distance,
        ),
    }
}

fn in_grind(trophy: &Trophy, grind: &String) -> (answer: bool)
    ensures
        answer == belongs_to(trophy@.grind, grind@),
{
    match &trophy.grind {
        Some(grinds) => {
            let parts = split(grinds.as_str(), '/');
            let mut i: usize = 0;
            while i < parts.len()
                invariant
                    i <= parts.len(),
                    trophy@.grind == Some(grinds@),
                    parts.deep_view() == pieces(grinds@, '/'),
                    forall|k: int| 0 <= k < i ==> parts.deep_view()[k] != grind@,
                decreases parts.len() - i,
            {
                if parts[i] == *grind {
                    assert(pieces(grinds@, '/')[i as int] == grind@);
                    return true;
                }
                i += 1;
            }
            false
        },
        None => false,
    }
}

fn is_passing(filter: &TrophyFilter, trophy: &Trophy) -> (answer: bool)
    ensures
        answer == passes(*filter, trophy@),
{
    (filter.species == Species::All || trophy.species == filter.species) && (filter.reserve
        == Reserve::All || trophy.reserve == filter.reserve) && (filter.rating == Rating::All
        || trophy.rating == filter.rating) && (filter.gender == Gender::All || trophy.gender
        == filter.gender) && (filter.grind.as_str().unicode_len() == 0 || in_grind(
        trophy,
        &filter.grind,
    ))
}

/// Whether every trophy of the list that passes the filter can be put in the order
/// that the filter asks for.
pub open spec fn all_sortable(filter: TrophyFilter, trophies: Seq<TrophyView>) -> bool {
    forall|i: int|
        0 <= i < trophies.len() && passes(filter, #[trigger] trophies[i]) ==> sortable(
            trophies[i],
            filter.sort_by,
        )
}

fn is_sortable(trophy: &Trophy, order: SortBy) -> (answer: bool)
    ensures
        answer == sortable(trophy@, order),
{
    match order {
        SortBy::Date => true,
        SortBy::Score => trophy.score % 0x8000_0000 <= 0x7F80_0000,
        SortBy::Weight => trophy.weight % 0x8000_0000 <= 0x7F80_0000,
        SortBy::Rating => true,
        SortBy::ShotDistance => trophy.shot_distance % 0x8000_0000 <= 0x7F80_0000,
    }
}

/// Whether `filter_data` can be asked for these trophies under this filter.
pub fn can_sort(trophy_filter: &TrophyFilter, data: &Vec<Trophy>) -> (answer: bool)
    ensures
        answer == all_sortable(*trophy_filter, data.deep_view()),
{
    let mut i: usize = 0;
    while i < data.len()
        invariant
            i <= data.len(),
            forall|k: int|
                0 <= k < i && passes(*trophy_filter, #[trigger] data.deep_view()[k]) ==> sortable(
                    data.deep_view()[k],
                    trophy_filter.sort_by,
                ),
        decreases data.len() - i,
    {
        assert(data.deep_view()[i as int] == data[i as int]@);
        if is_passing(trophy_filter, &data[i]) && !is_sortable(&data[i], trophy_filter.sort_by) {
            return false;
        }
        i += 1;
    }
    true
}

/// The trophies that pass the filter, in the order that the filter asks for. Where
/// the order is by a number, that number must be a number in every trophy that passes.
pub fn filter_data(trophy_filter: &TrophyFilter, data: Vec<Trophy>) -> (shown: Vec<Trophy>)
    requires
        all_sortable(*trophy_filter, data.deep_view()),
    ensures
        shown.deep_view() == arranged(
            passing(*trophy_filter, data.deep_view()),
            trophy_filter.sort_by,
        ),
{
    let order = trophy_filter.sort_by;
    let mut shown: Vec<Trophy> = Vec::new();
    let mut i: usize = 0;
    while i < data.len()
        invariant
            i <= data.len(),
            order == trophy_filter.sort_by,
            shown.deep_view() == arranged(
                passing(*trophy_filter, data.deep_view().take(i as int)),
                order,
            ),
        decreases data.len() - i,
    {
        let ghost done = data.deep_view().take(i as int);
        let ghost next = data.deep_view().take(i + 1);
        assert(next.drop_last() =~= done);
        if is_passing(trophy_filter, &data[i]) {
            let ghost kept = passing(*trophy_filter, done);
            assert(passing(*trophy_filter, next).drop_last() =~= kept);
            let ghost head = shown.deep_view();
            let mut at: usize = 0;
            while at < shown.len() && !is_ahead(&data[i], &shown[at], order)
                invariant
                    at <= shown.len(),
                    i < data.len(),
                    head == shown.deep_view(),
                    slot(head, data[i as int]@, order, 0) == slot(head, data[i as int]@, order, at as int),
                decreases shown.len() - at,
            {
                at += 1;
            }
            let copy = data[i].clone();
            shown.insert(at, copy);
        }
        i += 1;
    }
    assert(data.deep_view().take(i as int) =~= data.deep_view());
    shown
}

/// The species to choose from on a reserve: every species where the reserve is the
/// wildcard or unknown, else the wildcard, the species of the reserve, and the unknown.
pub open spec fn species_choice(reserve: Reserve) -> Seq<Species> {
    if reserve == Reserve::All || reserve == Reserve::Unknown {
        Species::all_spec()
    } else {
        seq![Species::All] + species_on(reserve) + seq![Species::Unknown]
    }
}

/// The species to choose from on a reserve.
pub fn get_species(reserve: Reserve) -> (choice: Vec<Species>)
    ensures
        choice@ == species_choice(reserve),
{
    match species_of(reserve) {
        Some(list) => {
            let mut species = list;
            species.insert(0, Species::All);
            species.push(Species::Unknown);
            species
        },
        None => Species::all(),
    }
}

/// The columns that are shown unless the user chooses otherwise.
pub open spec fn first_columns() -> Seq<TrophyCols> {
    seq![
        TrophyCols::Species,
        TrophyCols::Reserve,
        TrophyCols::Rating,
        TrophyCols::Score,
        TrophyCols::Weight,
        TrophyCols::ShotDistance,
        TrophyCols::ShotDamage,
        TrophyCols::Fur,
    ]
}

/// The names under which columns are shown.
pub open spec fn column_names(cols: Seq<TrophyCols>) -> Seq<Seq<char>> {
    cols.map_values(|col: TrophyCols| title_case(col.ident_spec()))
}

fn names_of(cols: &Vec<TrophyCols>) -> (names: Vec<String>)
    ensures
        names.deep_view() == column_names(cols@),
{
    let mut names: Vec<String> = Vec::new();
    let mut i: usize = 0;
    while i < cols.len()
        invariant
            i <= cols.len(),
            names.deep_view() == column_names(cols@.take(i as int)),
        decreases cols.len() - i,
    {
        let ghost before = names.deep_view();
        let name = cols[i].to_string();
        names.push(name);
        assert(column_names(cols@.take(i + 1)) =~= before.push(title_case(cols@[i as int].ident_spec())));
        i += 1;
    }
    names
}

/// The names of all columns, from the left.
pub fn available_cols() -> (names: Vec<String>)
    ensures
        names.deep_view() == column_names(TrophyCols::all_spec()),
{
    names_of(&TrophyCols::all())
}

/// The names of the columns that are shown at first.
pub fn default_cols() -> (names: Vec<String>)
    ensures
        names.deep_view() == column_names(first_columns()),
{
    let mut cols: Vec<TrophyCols> = Vec::new();
    cols.push(TrophyCols::Species);
    cols.push(TrophyCols::Reserve);
    cols.push(TrophyCols::Rating);
    cols.push(TrophyCols::Score);
    cols.push(TrophyCols::Weight);
    cols.push(TrophyCols::ShotDistance);
    cols.push(TrophyCols::ShotDamage);
    cols.push(TrophyCols::Fur);
    names_of(&cols)
}

/// How many trophies there are, and how many of them are diamonds and great ones.
#[derive(Debug)]
pub struct Tally {
    pub total: usize,
    pub diamonds: usize,
    pub great_ones: usize,
}

/// The number of trophies of a list that were taken on `reserve`, of `species` if one
/// is given, and with `rating` if one is given.
pub open spec fn count(
    trophies: Seq<TrophyView>,
    reserve: Reserve,
    species: Option<Species>,
    rating: Option<Rating>,
) -> nat
    decreases trophies.len(),
{
    if trophies.len() == 0 {
        0
    } else {
        let last = trophies.last();
        let counted = last.reserve == reserve && (species is None || species == Some(last.species))
            && (rating is None || rating == Some(last.rating));
        count(trophies.drop_last(), reserve, species, rating) + if counted {
            1nat
        } else {
            0nat
        }
    }
}

fn tally(trophies: &Vec<Trophy>, reserve: &Reserve, species: Option<Species>) -> (tally: Tally)
    ensures
        tally.total == count(trophies.deep_view(), *reserve, species, None),
        tally.diamonds == count(trophies.deep_view(), *reserve, species, Some(Rating::Diamond)),
        tally.great_ones == count(trophies.deep_view(), *reserve, species, Some(Rating::GreatOne)),
{
    let mut total: usize = 0;
    let mut diamonds: usize = 0;
    let mut great_ones: usize = 0;
    let mut i: usize = 0;
    while i < trophies.len()
        invariant
            i <= trophies.len(),
            total <= i,
            diamonds <= i,
            great_ones <= i,
            total == count(trophies.deep_view().take(i as int), *reserve, species, None),
            diamonds == count(
                trophies.deep_view().take(i as int),
                *reserve,
                species,
                Some(Rating::Diamond),
            ),
            great_ones == count(
                trophies.deep_view().take(i as int),
                *reserve,
                species,
                Some(Rating::GreatOne),
            ),
        decreases trophies.len() - i,
    {
        let ghost next = trophies.deep_view().take(i + 1);
        assert(next.drop_last() =~= trophies.deep_view().take(i as int));
        let t = &trophies[i];
        let of_species = match species {
            Some(wanted) => t.species == wanted,
            None => true,
        };
        if t.reserve == *reserve && of_species {
            total += 1;
            if t.rating == Rating::Diamond {
                diamonds += 1;
            }
            if t.rating == Rating::GreatOne {
                great_ones += 1;
            }
        }
        i += 1;
    }
    assert(trophies.deep_view().take(i as int) =~= trophies.deep_view());
    Tally { total, diamonds, great_ones }
}

/// The counts that stand under a reserve.
pub fn reserve_summary(reserve: &Reserve, trophies: &Vec<Trophy>) -> (tally: Tally)
    ensures
        tally.total == count(trophies.deep_view(), *reserve, None, None),
        tally.diamonds == count(trophies.deep_view(), *reserve, None, Some(Rating::Diamond)),
        tally.great_ones == count(trophies.deep_view(), *reserve, None, Some(Rating::GreatOne)),
{
    tally(trophies, reserve, None)
}

/// The counts that stand under a species of a reserve.
pub fn species_summary(
    reserve: &Reserve,
    species: &Species,
    trophies: &Vec<Trophy>,
) -> (tally: Tally)
    ensures
        tally.total == count(trophies.deep_view(), *reserve, Some(*species), None),
        tally.diamonds == count(
            trophies.deep_view(),
            *reserve,
            Some(*species),
            Some(Rating::Diamond),
        ),
        tally.great_ones == count(
            trophies.deep_view(),
            *reserve,
            Some(*species),
            Some(Rating::GreatOne),
        ),
{
    tally(trophies, reserve, Some(*species))
}

} // verus!
