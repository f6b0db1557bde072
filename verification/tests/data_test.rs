use trophy_lodge::data::{
    add_grind, add_kill, can_add_kill, can_save, grinds_to_add, remove_grind, save_trophy,
    set_grind_active, start_grind, stop_grind, trophy_exists,
};
use trophy_lodge::models::{Boolean, Gender, Grind, Rating, Reserve, Species, Trophy};

fn grind(name: &str, species: Species, reserve: Reserve, active: bool, kills: i64) -> Grind {
    Grind {
        name: name.to_string(),
        species,
        reserve,
        active,
        start: "2024-01-01T00:00:00+00:00".to_string(),
        kills,
        is_deleted: false,
    }
}

fn trophy(id: f32, species: Species, reserve: Reserve) -> Trophy {
    Trophy {
        id: id.to_bits(),
        species,
        reserve,
        rating: Rating::Gold,
        score: 120.5f32.to_bits(),
        weight: 185.3f32.to_bits(),
        fur: "Brown".to_string(),
        date: "2024-05-01T10:00:00+02:00".to_string(),
        gender: Gender::Male,
        cash: 300,
        xp: 450,
        session_score: 42,
        integrity: Boolean::True,
        tracking: 12.0f32.to_bits(),
        weapon_score: 90.0f32.to_bits(),
        shot_distance: 150.0f32.to_bits(),
        shot_damage: 85.0f32.to_bits(),
        mods: Boolean::False,
        grind: None,
    }
}

fn sample() -> Vec<Grind> {
    vec![
        grind("moose", Species::Moose, Reserve::LaytonLakeDistrict, true, 3),
        grind("deer", Species::WhitetailDeer, Reserve::LaytonLakeDistrict, true, 0),
        grind("old deer", Species::WhitetailDeer, Reserve::LaytonLakeDistrict, false, 7),
        grind("more deer", Species::WhitetailDeer, Reserve::LaytonLakeDistrict, true, 10),
        grind("far deer", Species::WhitetailDeer, Reserve::RevontuliCoast, true, 1),
    ]
}

#[test]
fn harvest_counts_towards_active_grinds_of_its_species_and_reserve() {
    let grinds = sample();
    assert_eq!(
        grinds_to_add(&grinds, &Species::WhitetailDeer, &Reserve::LaytonLakeDistrict),
        vec!["deer".to_string(), "more deer".to_string()]
    );
    assert_eq!(
        grinds_to_add(&grinds, &Species::Moose, &Reserve::LaytonLakeDistrict),
        vec!["moose".to_string()]
    );
    assert!(grinds_to_add(&grinds, &Species::Moose, &Reserve::RevontuliCoast).is_empty());
    assert!(grinds_to_add(&grinds, &Species::All, &Reserve::All).is_empty());
    assert!(grinds_to_add(&Vec::new(), &Species::Moose, &Reserve::LaytonLakeDistrict).is_empty());
}

#[test]
fn added_grind_goes_to_the_end() {
    let mut grinds = sample();
    let new = grind("lynx", Species::EurasianLynx, Reserve::RevontuliCoast, false, 0);
    add_grind(&mut grinds, new.clone());
    assert_eq!(grinds.len(), 6);
    assert_eq!(grinds[5], new);
    assert_eq!(grinds[..5], sample()[..]);
}

#[test]
fn removed_grind_leaves_the_others_in_order() {
    let mut grinds = sample();
    remove_grind(&mut grinds, "deer".to_string());
    let names: Vec<&str> = grinds.iter().map(|g| g.name.as_str()).collect();
    assert_eq!(names, vec!["moose", "old deer", "more deer", "far deer"]);
    remove_grind(&mut grinds, "nobody".to_string());
    assert_eq!(grinds.len(), 4);
    grinds.push(grind("moose", Species::Moose, Reserve::RevontuliCoast, true, 0));
    remove_grind(&mut grinds, "moose".to_string());
    let names: Vec<&str> = grinds.iter().map(|g| g.name.as_str()).collect();
    assert_eq!(names, vec!["old deer", "more deer", "far deer"]);
    let mut none: Vec<Grind> = Vec::new();
    remove_grind(&mut none, "moose".to_string());
    assert!(none.is_empty());
}

#[test]
fn activity_is_switched_by_name() {
    let mut grinds = sample();
    set_grind_active(&mut grinds, "old deer".to_string(), true);
    let mut expected = sample();
    expected[2].active = true;
    assert_eq!(grinds, expected);
    stop_grind(&mut grinds, "moose".to_string());
    expected[0].active = false;
    assert_eq!(grinds, expected);
    start_grind(&mut grinds, "moose".to_string());
    expected[0].active = true;
    assert_eq!(grinds, expected);
    stop_grind(&mut grinds, "nobody".to_string());
    assert_eq!(grinds, expected);
}

#[test]
fn kill_is_counted_on_every_grind_of_the_name() {
    let mut grinds = sample();
    grinds.push(grind("deer", Species::Moose, Reserve::RevontuliCoast, false, 40));
    add_kill(&mut grinds, &"deer".to_string());
    let kills: Vec<i64> = grinds.iter().map(|g| g.kills).collect();
    assert_eq!(kills, vec![3, 1, 7, 10, 1, 41]);
    add_kill(&mut grinds, &"nobody".to_string());
    let kills: Vec<i64> = grinds.iter().map(|g| g.kills).collect();
    assert_eq!(kills, vec![3, 1, 7, 10, 1, 41]);
}

#[test]
fn trophy_is_on_record_by_identity() {
    let trophies = vec![
        trophy(1.5, Species::Moose, Reserve::LaytonLakeDistrict),
        trophy(1068.8, Species::WhitetailDeer, Reserve::LaytonLakeDistrict),
    ];
    assert!(trophy_exists(&trophy(1068.8, Species::RedDeer, Reserve::ParqueFernando), &trophies));
    assert!(trophy_exists(&trophy(1.5, Species::Moose, Reserve::LaytonLakeDistrict), &trophies));
    assert!(!trophy_exists(&trophy(1068.9, Species::WhitetailDeer, Reserve::LaytonLakeDistrict), &trophies));
    assert!(!trophy_exists(&trophy(1.5, Species::Moose, Reserve::LaytonLakeDistrict), &Vec::new()));
}

#[test]
fn saved_trophy_is_recorded_and_counted() {
    let mut trophies = vec![trophy(1.5, Species::Moose, Reserve::LaytonLakeDistrict)];
    let mut grinds = sample();
    let new = trophy(1068.8, Species::WhitetailDeer, Reserve::LaytonLakeDistrict);
    let notices = save_trophy(&new, &mut trophies, &mut grinds);
    assert_eq!(trophies.len(), 2);
    assert_eq!(trophies[1], new);
    let names: Vec<&str> = notices.iter().map(|n| n.name.as_str()).collect();
    assert_eq!(names, vec!["deer", "more deer"]);
    let kills: Vec<i64> = grinds.iter().map(|g| g.kills).collect();
    assert_eq!(kills, vec![3, 1, 7, 11, 1]);
}

#[test]
fn saved_trophy_without_a_grind_sends_no_notice() {
    let mut trophies = Vec::new();
    let mut grinds = sample();
    let new = trophy(7.0, Species::RedFox, Reserve::HirschfeldenHuntingReserve);
    let notices = save_trophy(&new, &mut trophies, &mut grinds);
    assert!(notices.is_empty());
    assert_eq!(trophies, vec![new]);
    assert_eq!(grinds, sample());
}

#[test]
fn grinds_of_one_name_are_counted_once_for_each_match() {
    let mut trophies = Vec::new();
    let mut grinds = vec![
        grind("twin", Species::Moose, Reserve::LaytonLakeDistrict, true, 0),
        grind("twin", Species::Moose, Reserve::LaytonLakeDistrict, true, 5),
        grind("twin", Species::RedDeer, Reserve::ParqueFernando, false, 9),
    ];
    let notices = save_trophy(&trophy(3.0, Species::Moose, Reserve::LaytonLakeDistrict), &mut trophies, &mut grinds);
    assert_eq!(notices.len(), 2);
    let kills: Vec<i64> = grinds.iter().map(|g| g.kills).collect();
    assert_eq!(kills, vec![2, 7, 11]);
}

#[test]
fn kill_is_counted_beside_a_grind_at_the_highest_count() {
    let mut grinds = vec![
        grind("a", Species::Moose, Reserve::LaytonLakeDistrict, true, i64::MAX),
        grind("b", Species::Moose, Reserve::LaytonLakeDistrict, true, 0),
    ];
    assert!(can_add_kill(&grinds, &"b".to_string()));
    assert!(can_add_kill(&grinds, &"nobody".to_string()));
    assert!(!can_add_kill(&grinds, &"a".to_string()));
    add_kill(&mut grinds, &"b".to_string());
    let kills: Vec<i64> = grinds.iter().map(|g| g.kills).collect();
    assert_eq!(kills, vec![i64::MAX, 1]);
    grinds[1].kills = i64::MAX - 1;
    assert!(can_add_kill(&grinds, &"b".to_string()));
    add_kill(&mut grinds, &"b".to_string());
    assert_eq!(grinds[1].kills, i64::MAX);
    assert!(!can_add_kill(&grinds, &"b".to_string()));
}

#[test]
fn trophy_is_saved_beside_a_grind_at_the_highest_count() {
    let mut trophies = Vec::new();
    let mut grinds = vec![
        grind("moose", Species::Moose, Reserve::LaytonLakeDistrict, true, i64::MAX),
        grind("deer", Species::WhitetailDeer, Reserve::LaytonLakeDistrict, true, i64::MAX - 1),
        grind("old deer", Species::WhitetailDeer, Reserve::LaytonLakeDistrict, false, i64::MAX),
    ];
    assert!(can_save(&grinds, &Species::WhitetailDeer, &Reserve::LaytonLakeDistrict));
    assert!(!can_save(&grinds, &Species::Moose, &Reserve::LaytonLakeDistrict));
    assert!(can_save(&grinds, &Species::Moose, &Reserve::RevontuliCoast));
    let new = trophy(5.0, Species::WhitetailDeer, Reserve::LaytonLakeDistrict);
    let notices = save_trophy(&new, &mut trophies, &mut grinds);
    assert_eq!(notices.len(), 1);
    assert_eq!(notices[0].name, "deer");
    let kills: Vec<i64> = grinds.iter().map(|g| g.kills).collect();
    assert_eq!(kills, vec![i64::MAX, i64::MAX, i64::MAX]);
    assert!(!can_save(&grinds, &Species::WhitetailDeer, &Reserve::LaytonLakeDistrict));
}

#[test]
fn grinds_of_one_name_need_room_for_each_of_them() {
    let twins = |kills: i64| {
        vec![
            grind("twin", Species::Moose, Reserve::LaytonLakeDistrict, true, kills),
            grind("twin", Species::Moose, Reserve::LaytonLakeDistrict, true, 0),
        ]
    };
    assert!(can_save(&twins(i64::MAX - 2), &Species::Moose, &Reserve::LaytonLakeDistrict));
    assert!(!can_save(&twins(i64::MAX - 1), &Species::Moose, &Reserve::LaytonLakeDistrict));
    let mut grinds = twins(i64::MAX - 2);
    let mut trophies = Vec::new();
    let new = trophy(5.0, Species::Moose, Reserve::LaytonLakeDistrict);
    assert_eq!(save_trophy(&new, &mut trophies, &mut grinds).len(), 2);
    assert_eq!(grinds[0].kills, i64::MAX);
    assert_eq!(grinds[1].kills, 2);
}
