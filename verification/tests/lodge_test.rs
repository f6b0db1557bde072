use trophy_lodge::lodge::{
    available_cols, can_sort, default_cols, filter_data, get_species, reserve_summary,
    species_summary,
};
use trophy_lodge::models::{
    Boolean, Gender, Rating, Reserve, SortBy, Species, Trophy, TrophyFilter,
};
use trophy_lodge::text::split;

fn trophy(
    tag: &str,
    species: Species,
    reserve: Reserve,
    rating: Rating,
    gender: Gender,
    score: f32,
    weight: f32,
    distance: f32,
    date: &str,
    grind: Option<&str>,
) -> Trophy {
    Trophy {
        id: (score + weight).to_bits(),
        species,
        reserve,
        rating,
        score: score.to_bits(),
        weight: weight.to_bits(),
        fur: tag.to_string(),
        date: date.to_string(),
        gender,
        cash: 0,
        xp: 0,
        session_score: 0,
        integrity: Boolean::True,
        tracking: 0,
        weapon_score: 0,
        shot_distance: distance.to_bits(),
        shot_damage: 0,
        mods: Boolean::False,
        grind: grind.map(|g| g.to_string()),
    }
}

fn sample() -> Vec<Trophy> {
    let (female, male) = (Gender::Female, Gender::Male);
    let (layton, revontuli) = (Reserve::LaytonLakeDistrict, Reserve::RevontuliCoast);
    let (moose, deer) = (Species::Moose, Species::WhitetailDeer);
    vec![
        trophy("a", deer, layton, Rating::Gold, male, 120.5, 80.0, 150.0, "2024-05-01T10:00:00+02:00", Some("deer")),
        trophy("b", moose, layton, Rating::Diamond, female, 250.0, 500.0, 90.5, "2024-05-03T10:00:00+02:00", None),
        trophy("c", deer, revontuli, Rating::GreatOne, male, 999.0, 95.5, 300.0, "2024-04-01T10:00:00+02:00", Some("deer/far deer")),
        trophy("d", deer, layton, Rating::Gold, female, 120.5, 60.0, 20.0, "2024-05-02T10:00:00+02:00", Some("more deer")),
        trophy("e", moose, revontuli, Rating::Unrated, male, 10.0, 500.0, 150.0, "2024-05-03T10:00:00+02:00", Some("")),
        trophy("f", deer, layton, Rating::Diamond, male, -5.0, 0.0, -0.0, "2023-12-31T23:59:59+02:00", Some("x/deer/y")),
    ]
}

fn tags(trophies: &Vec<Trophy>) -> String {
    trophies.iter().map(|t| t.fur.as_str()).collect::<Vec<&str>>().join("")
}

fn filter(sort_by: SortBy) -> TrophyFilter {
    let mut f = TrophyFilter::default();
    f.sort_by = sort_by;
    f
}

#[test]
fn open_filter_shows_everything_newest_first() {
    let shown = filter_data(&TrophyFilter::default(), sample());
    assert_eq!(tags(&shown), "bedacf");
}

#[test]
fn order_by_score_weight_rating_and_distance() {
    assert_eq!(tags(&filter_data(&filter(SortBy::Score), sample())), "cbadef");
    assert_eq!(tags(&filter_data(&filter(SortBy::Weight), sample())), "becadf");
    assert_eq!(tags(&filter_data(&filter(SortBy::Rating), sample())), "cbfade");
    assert_eq!(tags(&filter_data(&filter(SortBy::ShotDistance), sample())), "caebdf");
}

#[test]
fn order_is_that_of_a_stable_sort() {
    for sort_by in SortBy::all() {
        let mut expected = sample();
        match sort_by {
            SortBy::Date => expected.sort_by(|a, b| b.date.cmp(&a.date)),
            SortBy::Score => expected.sort_by(|a, b| {
                f32::from_bits(b.score).partial_cmp(&f32::from_bits(a.score)).unwrap()
            }),
            SortBy::Weight => expected.sort_by(|a, b| {
                f32::from_bits(b.weight).partial_cmp(&f32::from_bits(a.weight)).unwrap()
            }),
            SortBy::Rating => expected.sort_by(|a, b| b.rating.cmp(&a.rating)),
            SortBy::ShotDistance => expected.sort_by(|a, b| {
                f32::from_bits(b.shot_distance).partial_cmp(&f32::from_bits(a.shot_distance)).unwrap()
            }),
        }
        assert_eq!(filter_data(&filter(sort_by), sample()), expected);
    }
}

#[test]
fn negative_numbers_and_both_zeros_are_ordered_by_value() {
    let numbers = [3.5f32, -0.0, 0.0, -2.0, f32::INFINITY, -7.25, f32::NEG_INFINITY, 1.0e-40, -1.0e-40, 3.5];
    let data: Vec<Trophy> = numbers
        .iter()
        .enumerate()
        .map(|(i, n)| {
            trophy(&i.to_string(), Species::Moose, Reserve::All, Rating::Gold, Gender::Male, *n, 0.0, 0.0, "", None)
        })
        .collect();
    assert!(can_sort(&filter(SortBy::Score), &data));
    assert_eq!(tags(&filter_data(&filter(SortBy::Score), data)), "4097128356");
}

#[test]
fn filter_by_species_reserve_rating_and_gender() {
    let mut f = TrophyFilter::default();
    f.species = Species::WhitetailDeer;
    assert_eq!(tags(&filter_data(&f, sample())), "dacf");
    f.reserve = Reserve::LaytonLakeDistrict;
    assert_eq!(tags(&filter_data(&f, sample())), "daf");
    f.rating = Rating::Gold;
    assert_eq!(tags(&filter_data(&f, sample())), "da");
    f.gender = Gender::Female;
    assert_eq!(tags(&filter_data(&f, sample())), "d");
    f.gender = Gender::Unknown;
    assert_eq!(tags(&filter_data(&f, sample())), "");
    let mut f = TrophyFilter::default();
    f.rating = Rating::Diamond;
    f.sort_by = SortBy::Weight;
    assert_eq!(tags(&filter_data(&f, sample())), "bf");
    assert!(filter_data(&TrophyFilter::default(), Vec::new()).is_empty());
}

#[test]
fn filter_by_grind_looks_at_each_name() {
    let mut f = TrophyFilter::default();
    f.grind = "deer".to_string();
    assert_eq!(tags(&filter_data(&f, sample())), "acf");
    f.grind = "far deer".to_string();
    assert_eq!(tags(&filter_data(&f, sample())), "c");
    f.grind = "more".to_string();
    assert_eq!(tags(&filter_data(&f, sample())), "");
    f.grind = "deer/far deer".to_string();
    assert_eq!(tags(&filter_data(&f, sample())), "");
    f.grind = "y".to_string();
    assert_eq!(tags(&filter_data(&f, sample())), "f");
}

#[test]
fn text_is_split_at_every_separator() {
    assert_eq!(split("a/b", '/'), vec!["a", "b"]);
    assert_eq!(split("", '/'), vec![""]);
    assert_eq!(split("/", '/'), vec!["", ""]);
    assert_eq!(split("a//b/", '/'), vec!["a", "", "b", ""]);
    assert_eq!(split("no separator", '/'), vec!["no separator"]);
    for text in ["", "/", "a/b", "//x//", "deer/far deer/\u{e9}"] {
        let expected: Vec<String> = text.split('/').map(|p| p.to_string()).collect();
        assert_eq!(split(text, '/'), expected);
    }
}

#[test]
fn not_a_number_cannot_be_sorted_by() {
    let mut data = sample();
    data[1].score = f32::NAN.to_bits();
    assert!(!can_sort(&filter(SortBy::Score), &data));
    assert!(can_sort(&filter(SortBy::Weight), &data));
    assert!(can_sort(&filter(SortBy::Date), &data));
    assert!(can_sort(&filter(SortBy::Rating), &data));
    let mut deer_only = filter(SortBy::Score);
    deer_only.species = Species::WhitetailDeer;
    assert!(can_sort(&deer_only, &data));
    data[2].shot_distance = 0xFFC0_0000;
    assert!(!can_sort(&filter(SortBy::ShotDistance), &data));
    data[2].shot_distance = f32::NEG_INFINITY.to_bits();
    assert!(can_sort(&filter(SortBy::ShotDistance), &data));
}

#[test]
fn species_to_choose_from() {
    assert_eq!(get_species(Reserve::All), Species::all());
    assert_eq!(get_species(Reserve::Unknown), Species::all());
    assert_eq!(
        get_species(Reserve::HirschfeldenHuntingReserve),
        vec![
            Species::All,
            Species::WildBoar,
            Species::EuropeanRabbit,
            Species::FallowDeer,
            Species::RedFox,
            Species::RingNeckedPheasant,
            Species::RedDeer,
            Species::Unknown,
        ]
    );
}

#[test]
fn columns_by_name() {
    assert_eq!(
        default_cols(),
        vec!["Species", "Reserve", "Rating", "Score", "Weight", "Shot Distance", "Shot Damage", "Fur"]
    );
    assert_eq!(
        available_cols(),
        vec![
            "Species", "Reserve", "Rating", "Score", "Weight", "Fur", "Gender", "Date", "Cash",
            "Xp", "Session Score", "Integrity", "Tracking", "Weapon Score", "Shot Distance",
            "Shot Damage", "Mods", "Grind",
        ]
    );
}

#[test]
fn counts_under_reserves_and_species() {
    let data = sample();
    let layton = reserve_summary(&Reserve::LaytonLakeDistrict, &data);
    assert_eq!((layton.total, layton.diamonds, layton.great_ones), (4, 2, 0));
    let revontuli = reserve_summary(&Reserve::RevontuliCoast, &data);
    assert_eq!((revontuli.total, revontuli.diamonds, revontuli.great_ones), (2, 0, 1));
    let none = reserve_summary(&Reserve::ParqueFernando, &data);
    assert_eq!((none.total, none.diamonds, none.great_ones), (0, 0, 0));
    let deer = species_summary(&Reserve::LaytonLakeDistrict, &Species::WhitetailDeer, &data);
    assert_eq!((deer.total, deer.diamonds, deer.great_ones), (3, 1, 0));
    let far_deer = species_summary(&Reserve::RevontuliCoast, &Species::WhitetailDeer, &data);
    assert_eq!((far_deer.total, far_deer.diamonds, far_deer.great_ones), (1, 0, 1));
    let empty = species_summary(&Reserve::RevontuliCoast, &Species::WhitetailDeer, &Vec::new());
    assert_eq!((empty.total, empty.diamonds, empty.great_ones), (0, 0, 0));
}
