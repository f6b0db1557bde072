use chrono::Local;
use convert_case::{Case, Casing};
use trophy_lodge::challenges::{
    can_summarise, create_challenge_filename, into_summary, known_reserves, process_challenge,
    real_species, reserves_of,
};
use trophy_lodge::models::{
    species_of, Boolean, Challenge, ChallengeSummary, Gender, Rating, Reserve, Species,
};

fn percent(summary: &ChallengeSummary) -> f32 {
    if summary.total_kills == 0 {
        0.0
    } else {
        summary.kills_completed as f32 / summary.total_kills as f32
    }
}

#[test]
fn test_all_diamond_challenge() {
    let mut challenge = Challenge::default();
    challenge.name = "challenge".to_string();
    challenge.species = Species::All;
    challenge.rating = Rating::Diamond;
    challenge.gender = Gender::Male;
    challenge.mods = Boolean::True;
    challenge.kills = 2;

    let mut expected = Vec::new();
    for s in Species::all() {
        if !s.is_real() {
            continue;
        }
        let mut c = challenge.clone();
        c.species = s;
        expected.push(c);
    }
    let actual = process_challenge(&challenge);
    assert_eq!(expected, actual);
}

#[test]
fn test_diamond_kills() {
    let mut challenge = Challenge::default();
    challenge.name = "challenge".to_string();
    challenge.rating = Rating::Diamond;
    challenge.kills = 10;
    let expected = vec![challenge.clone()];
    let actual = process_challenge(&challenge);
    assert_eq!(expected, actual);
}

#[test]
fn test_species_on_reserve() {
    let mut challenge = Challenge::default();
    challenge.name = "challenge".to_string();
    challenge.species = Species::WhitetailDeer;
    challenge.reserve = Reserve::LaytonLakeDistrict;
    challenge.kills = 10;
    let expected = vec![challenge.clone()];
    let actual = process_challenge(&challenge);
    assert_eq!(expected, actual);
}

#[test]
fn test_all_species_on_reserve() {
    let mut challenge = Challenge::default();
    challenge.name = "challenge".to_string();
    challenge.species = Species::All;
    challenge.reserve = Reserve::LaytonLakeDistrict;
    challenge.kills = 10;
    let mut expected = Vec::new();
    let r_species = species_of(challenge.reserve).unwrap();
    for species in r_species {
        let mut c = Challenge::default();
        c.name = "challenge".to_string();
        c.species = species.clone();
        c.reserve = Reserve::LaytonLakeDistrict;
        c.kills = challenge.kills;
        expected.push(c);
    }
    let actual = process_challenge(&challenge);
    assert_eq!(expected, actual);
}

#[test]
fn test_species_on_all_reserves() {
    let mut challenge = Challenge::default();
    challenge.name = "challenge".to_string();
    challenge.species = Species::WhitetailDeer;
    challenge.reserve = Reserve::All;

    let mut expected = Vec::new();
    let reserves = vec![
        Reserve::LaytonLakeDistrict,
        Reserve::RanchoDelArroyo,
        Reserve::MississippiAcresPreserve,
        Reserve::RevontuliCoast,
        Reserve::NewEnglandMountains,
    ];
    for r in reserves {
        let mut c = challenge.clone();
        c.reserve = r;
        expected.push(c);
    }
    let mut actual = process_challenge(&challenge);
    expected.sort_by(|a, b| a.cmp(b));
    actual.sort_by(|a, b| a.cmp(b));
    assert_eq!(expected, actual);
}

#[test]
fn test_all_reserves_without_species() {
    let mut challenge = Challenge::default();
    challenge.name = "challenge".to_string();
    challenge.reserve = Reserve::All;

    let mut expected = Vec::new();
    for r in Reserve::all() {
        if r == Reserve::Unknown {
            continue;
        }
        let mut c = challenge.clone();
        c.reserve = r;
        expected.push(c);
    }
    let mut actual = process_challenge(&challenge);
    expected.sort_by(|a, b| a.cmp(b));
    actual.sort_by(|a, b| a.cmp(b));
    assert_eq!(expected, actual);
}

#[test]
fn test_all_reserves_all_species() {
    let mut challenge = Challenge::default();
    challenge.name = "challenge".to_string();
    challenge.reserve = Reserve::All;
    challenge.species = Species::All;

    let mut expected = Vec::new();
    for r in Reserve::all() {
        if r == Reserve::Unknown {
            continue;
        }
        for s in Species::all() {
            if !s.is_real() {
                continue;
            }
            let mut c = challenge.clone();
            c.reserve = r;
            c.species = s;
            expected.push(c);
        }
    }
    let mut actual = process_challenge(&challenge);
    expected.sort_by(|a, b| a.cmp(b));
    actual.sort_by(|a, b| a.cmp(b));
    assert_eq!(expected, actual);
}

#[test]
fn test_no_challenge() {
    let mut challenge = Challenge::default();
    challenge.kills = 0;
    let expected: Vec<Challenge> = Vec::new();
    let actual = process_challenge(&challenge);
    assert_eq!(expected, actual);
}

#[test]
fn test_no_summary() {
    let challenges = Vec::new();
    let expected = ChallengeSummary {
        name: "".to_string(),
        description: "".to_string(),
        start: "".to_string(),
        kills_completed: 0,
        total_kills: 0,
        is_deleted: false,
    };
    let actual = into_summary(&challenges);
    assert_eq!(expected, actual);
    assert_eq!(percent(&actual), 0.0);
}

#[test]
fn test_challenges_into_summary() {
    let name = "my test challenge".to_string();
    let description = name.clone();
    let start = Local::now().to_rfc3339();
    let mut challenges = Vec::new();
    let mut challenge_criteria_a = Challenge::default();
    challenge_criteria_a.species = Species::WhitetailDeer;
    challenge_criteria_a.reserve = Reserve::LaytonLakeDistrict;
    challenge_criteria_a.name = name.clone();
    challenge_criteria_a.description = description.clone();
    challenge_criteria_a.start = start.clone();
    challenge_criteria_a.kills_remaining = 0;

    let mut challenge_criteria_b = Challenge::default();
    challenge_criteria_b.species = Species::WhitetailDeer;
    challenge_criteria_b.reserve = Reserve::RevontuliCoast;
    challenge_criteria_b.name = name.clone();
    challenge_criteria_b.description = description.clone();
    challenge_criteria_b.start = start.clone();

    challenges.extend(vec![challenge_criteria_a, challenge_criteria_b]);

    let expected = ChallengeSummary {
        name: name.to_case(Case::Title),
        description,
        start,
        kills_completed: 1,
        total_kills: 2,
        is_deleted: false,
    };
    let actual = into_summary(&challenges);
    assert_eq!(expected, actual);
    assert_eq!(actual.name, "My Test Challenge");
    assert_eq!(percent(&actual), 0.5);
}

#[test]
fn test_challenge_filename() {
    let mut challenge = Challenge::default();
    challenge.name = "My_test-challenge for you".to_string();
    let expected = "my_test_challenge_for_you.csv".to_string();
    let actual = create_challenge_filename(&challenge);
    assert_eq!(expected, actual);
}

#[test]
fn challenge_without_a_name_stands_for_none() {
    let mut challenge = Challenge::default();
    challenge.kills = 3;
    assert!(!challenge.valid());
    assert!(process_challenge(&challenge).is_empty());
}

#[test]
fn all_species_on_unknown_reserve_is_every_real_species() {
    let mut challenge = Challenge::default();
    challenge.name = "c".to_string();
    challenge.species = Species::All;
    let actual = process_challenge(&challenge);
    assert_eq!(actual.len(), 90);
    assert_eq!(actual[0].species, Species::AmericanAlligator);
    assert_eq!(actual[89].species, Species::WillowPtarmigan);
    assert!(actual.iter().all(|c| c.reserve == Reserve::Unknown));
}

#[test]
fn all_of_both_goes_reserve_by_reserve() {
    let mut challenge = Challenge::default();
    challenge.name = "c".to_string();
    challenge.species = Species::All;
    challenge.reserve = Reserve::All;
    let actual = process_challenge(&challenge);
    assert_eq!(actual.len(), 15 * 90);
    assert_eq!(actual[0].reserve, Reserve::All);
    assert_eq!(actual[0].species, Species::AmericanAlligator);
    assert_eq!(actual[89].reserve, Reserve::All);
    assert_eq!(actual[90].reserve, Reserve::HirschfeldenHuntingReserve);
    assert_eq!(actual[90].species, Species::AmericanAlligator);
}

#[test]
fn species_lists_for_spreading() {
    assert_eq!(real_species().len(), 90);
    assert_eq!(known_reserves().len(), 15);
    assert_eq!(
        reserves_of(Species::WhitetailDeer),
        vec![
            Reserve::LaytonLakeDistrict,
            Reserve::RanchoDelArroyo,
            Reserve::MississippiAcresPreserve,
            Reserve::RevontuliCoast,
            Reserve::NewEnglandMountains,
        ]
    );
    assert!(reserves_of(Species::Unknown).is_empty());
}

#[test]
fn filename_keeps_letters_and_digits_of_other_alphabets() {
    let name = "Ärger 4 Ünïcode!".to_string();
    let mut challenge = Challenge::default();
    challenge.name = name;
    assert_eq!(create_challenge_filename(&challenge), "ärger_4_ünïcode_.csv");
}

#[test]
fn parts_are_summed_up_where_the_totals_allow() {
    let part = |kills: u32, kills_remaining: u32| {
        let mut c = Challenge::default();
        c.name = "sum".to_string();
        c.kills = kills;
        c.kills_remaining = kills_remaining;
        c
    };
    // one part has more kills open than it asks for, the parts together have not
    let uneven = vec![part(1, 3), part(10, 2)];
    assert!(can_summarise(&uneven));
    let summary = into_summary(&uneven);
    assert_eq!(summary.total_kills, 11);
    assert_eq!(summary.kills_completed, 6);
    assert!(!can_summarise(&vec![part(1, 3), part(1, 0)]));
    assert!(can_summarise(&Vec::new()));
    // parts that ask for nothing
    let idle = vec![part(0, 0)];
    assert!(can_summarise(&idle));
    let summary = into_summary(&idle);
    assert_eq!((summary.kills_completed, summary.total_kills), (0, 0));
    // totals beyond 32 bits
    let many = vec![part(u32::MAX, 0), part(u32::MAX, 1), part(7, 0)];
    assert!(can_summarise(&many));
    let summary = into_summary(&many);
    assert_eq!(summary.total_kills, 2 * (u32::MAX as u64) + 7);
    assert_eq!(summary.kills_completed, 2 * (u32::MAX as u64) + 6);
}
