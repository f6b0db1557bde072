use trophy_lodge::game_monitor::{is_nonzero, Monitor, Phase, POLL_SECONDS, RETRY_SECONDS};
use trophy_lodge::registration::{has_room, register, Verdict};
use trophy_lodge::harvest::{
    assemble, decode_gender, decode_rating, get_shot_base_address, read_reserve_text,
    read_session_score, read_species_text, TrophyCandidate,
};
use trophy_lodge::memory::MemoryImage;
use trophy_lodge::models::{Boolean, Gender, Grind, Rating, Reserve, Species, Trophy};
use trophy_lodge::offsets::{is_plausible_address, NO_SESSION};

const BASE: u64 = 0x1_4000_0000;
const HARVEST_BLOCK: u64 = 0x2_0000_0000;
const HARVEST: u64 = HARVEST_BLOCK + 0x280;
const RESERVE_TEXT: u64 = 0x2_5000_0000;
const SPECIES_TEXT: u64 = 0x2_6000_0000;
const USER_BLOCK: u64 = 0x2_7000_0000;
const SHOT_1: u64 = 0x2_8000_0000;
const SHOT_2: u64 = 0x2_8100_0000;
const SHOT_3: u64 = 0x2_8200_0000;
const SHOT: u64 = 0x2_8300_0000;
const FUR_1: u64 = 0x2_9000_0000;
const FUR_2: u64 = 0x2_9100_0000;
const FUR_TABLE: u64 = 0x3_0000_0000;
const FUR_POOL: u64 = 0x3_1000_0000;

struct Scene {
    session_score: Option<i32>,
    weight: f32,
    species: &'static str,
    reserve: &'static str,
    rating: u8,
    gender: i32,
    score: f32,
    tracking: f32,
    cash: i32,
    xp: i32,
    integrity: u8,
    fur_key: i32,
    user: &'static str,
}

fn scene(session_score: i32, weight: f32) -> Scene {
    Scene {
        session_score: Some(session_score),
        weight,
        species: "Whitetail Deer",
        reserve: "Layton Lake District",
        rating: 1,
        gender: 1,
        score: 120.5,
        tracking: 12.0,
        cash: 300,
        xp: 450,
        integrity: 1,
        fur_key: 22,
        user: "hunter_one",
    }
}

fn text(s: &str) -> Vec<u8> {
    let mut bytes = s.as_bytes().to_vec();
    bytes.push(0);
    bytes
}

fn game(s: &Scene) -> MemoryImage {
    let mut m = MemoryImage::new();
    m.capture(BASE + 0x023D1EF0, HARVEST_BLOCK.to_le_bytes().to_vec());
    m.capture(BASE + 0x023A5580, USER_BLOCK.to_le_bytes().to_vec());
    m.capture(USER_BLOCK + 0x390, text(s.user));
    m.capture(BASE + 0x28, s.tracking.to_le_bytes().to_vec());
    // the harvest record, zero where nothing is written
    m.capture(HARVEST, vec![0u8; 0xB0]);
    m.capture(HARVEST, text(s.species));
    m.capture(HARVEST + 0x20, s.gender.to_le_bytes().to_vec());
    m.capture(HARVEST + 0x24, s.weight.to_le_bytes().to_vec());
    m.capture(HARVEST + 0x34, s.xp.to_le_bytes().to_vec());
    m.capture(HARVEST + 0x38, s.cash.to_le_bytes().to_vec());
    m.capture(HARVEST + 0x3C, s.score.to_le_bytes().to_vec());
    m.capture(HARVEST + 0x4C, vec![s.integrity]);
    m.capture(HARVEST + 0x50, s.fur_key.to_le_bytes().to_vec());
    m.capture(HARVEST + 0x60, RESERVE_TEXT.to_le_bytes().to_vec());
    m.capture(RESERVE_TEXT, text(s.reserve));
    m.capture(HARVEST + 0xAC, vec![s.rating]);
    if let Some(score) = s.session_score {
        m.capture(HARVEST + 0xB0, score.to_le_bytes().to_vec());
    }
    // the shot record
    m.capture(BASE + 0x023C9B78, SHOT_1.to_le_bytes().to_vec());
    m.capture(SHOT_1 + 0x30, SHOT_2.to_le_bytes().to_vec());
    m.capture(SHOT_2 + 0xD8, SHOT_3.to_le_bytes().to_vec());
    m.capture(SHOT_3 + 0x260, SHOT.to_le_bytes().to_vec());
    m.capture(SHOT + 0x18, 95.5f32.to_le_bytes().to_vec());
    m.capture(SHOT + 0x1C, 150.25f32.to_le_bytes().to_vec());
    m.capture(SHOT + 0x20, 0.85f32.to_le_bytes().to_vec());
    // the first fur table, with two records
    m.capture(BASE + 0x0227B640, FUR_1.to_le_bytes().to_vec());
    m.capture(FUR_1, FUR_2.to_le_bytes().to_vec());
    m.capture(FUR_2 + 0x10, (FUR_TABLE - 0x10).to_le_bytes().to_vec());
    m.capture(FUR_TABLE, FUR_POOL.to_le_bytes().to_vec());
    let mut records = Vec::new();
    for (key, offset) in [(11i32, 0i32), (22, 0x20)] {
        records.extend_from_slice(&key.to_le_bytes());
        records.extend_from_slice(&offset.to_le_bytes());
    }
    m.capture(FUR_TABLE + 0x160, records);
    m.capture(FUR_POOL, text("dark-brown"));
    m.capture(FUR_POOL + 0x20, text("albino"));
    m
}

fn polling(last_session_score: Option<i32>, last_weight: f32, game_open: bool) -> Monitor {
    Monitor {
        phase: Phase::Polling,
        base_address: BASE,
        harvest_base_address: HARVEST,
        game_open,
        last_session_score,
        last_weight: last_weight.to_bits(),
    }
}

fn grind(name: &str, species: Species, reserve: Reserve, active: bool, kills: i64) -> Grind {
    Grind {
        name: name.to_string(),
        species,
        reserve,
        active,
        start: "2024-01-01T00:00:00+00:00".to_string(),
        kills,
        is_deleted: false,
    }
}

/// What the program around the library does with a candidate: the identity is the sum
/// of five of its numbers, the damage is turned into percent.
fn finish(candidate: TrophyCandidate, grinds: &Vec<Grind>) -> (Trophy, String, String) {
    let id = f32::from_bits(candidate.score)
        + f32::from_bits(candidate.weight)
        + f32::from_bits(candidate.tracking)
        + candidate.cash as f32
        + candidate.xp as f32;
    let damage = f32::from_bits(candidate.shot_damage) * 100.0;
    let species_name = candidate.species_name.clone();
    let reserve_name = candidate.reserve_name.clone();
    let trophy = candidate.into_trophy_at(
        id.to_bits(),
        "2024-05-01T10:00:00+02:00".to_string(),
        damage.to_bits(),
        false,
        grinds,
    );
    (trophy, species_name, reserve_name)
}

#[test]
fn new_monitor_searches_for_the_process() {
    let m = Monitor::new();
    assert_eq!(m.phase, Phase::SearchingForProcess);
    assert!(!m.game_open);
    assert_eq!(m.last_session_score, None);
    assert_eq!(m.last_weight, 0.0f32.to_bits());
}

#[test]
fn absent_process_is_waited_for() {
    let mut m = Monitor::new();
    let tick = m.process_searched(None);
    assert_eq!(m.phase, Phase::SearchingForProcess);
    assert_eq!(tick.status, Some("Waiting for game...".to_string()));
    assert_eq!(tick.pause_seconds, 2);
    assert_eq!(RETRY_SECONDS, 2);
    assert!(tick.user.is_none());
    assert!(tick.candidate.is_none());
}

#[test]
fn found_process_is_probed_next() {
    let mut m = Monitor::new();
    m.last_session_score = Some(5);
    m.last_weight = 3.0f32.to_bits();
    m.game_open = true;
    let tick = m.process_searched(Some(BASE));
    assert_eq!(m.phase, Phase::WaitingForPlayableState);
    assert_eq!(m.base_address, BASE);
    assert_eq!(m.last_session_score, None);
    assert_eq!(m.last_weight, 0);
    assert!(!m.game_open);
    assert!(tick.status.is_none());
    assert_eq!(tick.pause_seconds, 0);
}

#[test]
fn game_that_is_still_loading_is_probed_again() {
    let mut m = Monitor::new();
    m.process_searched(Some(BASE));
    let tick = m.probe(&MemoryImage::new());
    assert_eq!(m.phase, Phase::WaitingForPlayableState);
    assert_eq!(tick.status, Some("Waiting for game to be fully loaded...".to_string()));
    assert_eq!(tick.pause_seconds, 2);
    let mut low = MemoryImage::new();
    low.capture(BASE + 0x023D1EF0, (1000u64 - 0x280).to_le_bytes().to_vec());
    let tick = m.probe(&low);
    assert_eq!(m.phase, Phase::WaitingForPlayableState);
    assert_eq!(tick.pause_seconds, 2);
}

#[test]
fn loaded_game_is_attached_to() {
    let mut m = Monitor::new();
    m.process_searched(Some(BASE));
    let tick = m.probe(&game(&scene(0, 0.0)));
    assert_eq!(m.phase, Phase::Polling);
    assert_eq!(m.harvest_base_address, HARVEST);
    assert_eq!(
        tick.status,
        Some(format!("Attached to game: {:X} {:X}. Waiting for kill.", BASE, HARVEST))
    );
    assert_eq!(tick.status, Some("Attached to game: 140000000 200000280. Waiting for kill.".to_string()));
    assert_eq!(tick.pause_seconds, 0);
    let mut at_the_edge = MemoryImage::new();
    at_the_edge.capture(BASE + 0x023D1EF0, (1001u64 - 0x280).to_le_bytes().to_vec());
    let mut m = Monitor::new();
    m.process_searched(Some(BASE));
    m.probe(&at_the_edge);
    assert_eq!(m.phase, Phase::Polling);
    assert_eq!(m.harvest_base_address, 1001);
}

#[test]
fn plausible_addresses_lie_above_a_thousand() {
    assert!(!is_plausible_address(0));
    assert!(!is_plausible_address(0x280));
    assert!(!is_plausible_address(1000));
    assert!(is_plausible_address(1001));
    assert!(is_plausible_address(u64::MAX));
}

#[test]
fn steps_out_of_turn_change_nothing() {
    let mut m = Monitor::new();
    let tick = m.poll(&game(&scene(42, 185.3)));
    assert_eq!(m.phase, Phase::SearchingForProcess);
    assert!(tick.status.is_none() && tick.user.is_none() && tick.candidate.is_none());
    let tick = m.probe(&game(&scene(42, 185.3)));
    assert_eq!(m.phase, Phase::SearchingForProcess);
    assert!(tick.status.is_none());
    let mut m = polling(Some(1), 2.0, true);
    let tick = m.process_searched(Some(0x1234));
    assert_eq!(m.phase, Phase::Polling);
    assert_eq!(m.base_address, BASE);
    assert!(tick.status.is_none());
    let tick = m.process_searched(None);
    assert!(tick.status.is_none());
    assert_eq!(tick.pause_seconds, 0);
}

#[test]
fn unchanged_session_score_yields_no_candidate() {
    // the score was 0 at the last look and is 0 now
    let mut m = polling(Some(0), 0.0, true);
    let tick = m.poll(&game(&scene(0, 185.3)));
    assert!(tick.candidate.is_none());
    assert!(tick.status.is_none());
    assert_eq!(tick.user, Some("hunter_one".to_string()));
    assert_eq!(tick.pause_seconds, 3);
    assert_eq!(POLL_SECONDS, 3);
    assert_eq!(m.phase, Phase::Polling);
    // two looks in a row at a game that stands still
    let mut m = Monitor::new();
    m.process_searched(Some(BASE));
    m.probe(&game(&scene(0, 0.0)));
    let first = m.poll(&game(&scene(0, 0.0)));
    let second = m.poll(&game(&scene(0, 0.0)));
    assert!(first.candidate.is_none() && second.candidate.is_none());
    assert!(first.status.is_none() && second.status.is_none());
    assert_eq!(second.user, Some("hunter_one".to_string()));
}

#[test]
fn new_score_and_new_weight_yield_one_trophy() {
    let mut m = Monitor::new();
    m.process_searched(Some(BASE));
    m.probe(&game(&scene(0, 0.0)));
    let quiet = m.poll(&game(&scene(0, 0.0)));
    assert!(quiet.candidate.is_none());
    assert_eq!(m.last_session_score, Some(0));
    let tick = m.poll(&game(&scene(42, 185.3)));
    assert_eq!(m.last_session_score, Some(42));
    assert_eq!(m.last_weight, 185.3f32.to_bits());
    let candidate = tick.candidate.expect("a candidate");
    assert_eq!(candidate.species, Species::WhitetailDeer);
    assert_eq!(candidate.reserve, Reserve::LaytonLakeDistrict);
    assert_eq!(candidate.species_name, "Whitetail Deer");
    assert_eq!(candidate.reserve_name, "Layton Lake District");
    assert_eq!(candidate.rating, Rating::Gold);
    assert_eq!(candidate.gender, Gender::Male);
    assert_eq!(f32::from_bits(candidate.weight), 185.3);
    assert_eq!(f32::from_bits(candidate.score), 120.5);
    assert_eq!(f32::from_bits(candidate.tracking), 12.0);
    assert_eq!(candidate.cash, 300);
    assert_eq!(candidate.xp, 450);
    assert_eq!(candidate.session_score, 42);
    assert_eq!(candidate.integrity, Boolean::True);
    assert_eq!(candidate.fur, "Albino");
    assert_eq!(f32::from_bits(candidate.weapon_score), 95.5);
    assert_eq!(f32::from_bits(candidate.shot_distance), 150.25);
    assert_eq!(f32::from_bits(candidate.shot_damage), 0.85);

    let mut trophies: Vec<Trophy> = Vec::new();
    let mut grinds = vec![
        grind("deer", Species::WhitetailDeer, Reserve::LaytonLakeDistrict, true, 4),
        grind("moose", Species::Moose, Reserve::LaytonLakeDistrict, true, 1),
        grind("more deer", Species::WhitetailDeer, Reserve::LaytonLakeDistrict, true, 0),
        grind("old deer", Species::WhitetailDeer, Reserve::LaytonLakeDistrict, false, 9),
    ];
    let (trophy, species_name, reserve_name) = finish(candidate, &grinds);
    assert!(has_room(&trophy, &trophies, &grinds));
    assert_eq!(f32::from_bits(trophy.id), 120.5 + 185.3 + 12.0 + 300.0 + 450.0);
    assert_eq!(trophy.grind, Some("deer/more deer".to_string()));
    assert_eq!(f32::from_bits(trophy.shot_damage), 0.85f32 * 100.0);
    assert_eq!(trophy.mods, Boolean::False);
    assert_eq!(trophy.date, "2024-05-01T10:00:00+02:00");
    let report = register(trophy.clone(), &species_name, &reserve_name, &mut trophies, &mut grinds);
    assert_eq!(report.verdict, Verdict::Stored);
    assert_eq!(report.status, "Stored Whitetail Deer trophy from Layton Lake District");
    assert_eq!(report.trophy, Some(trophy.clone()));
    assert_eq!(trophies, vec![trophy]);
    let notices: Vec<&str> = report.grind_kills.iter().map(|k| k.name.as_str()).collect();
    assert_eq!(notices, vec!["deer", "more deer"]);
    let kills: Vec<i64> = grinds.iter().map(|g| g.kills).collect();
    assert_eq!(kills, vec![5, 1, 1, 9]);
}

#[test]
fn trophy_without_a_matching_grind_sends_no_notice() {
    let mut m = polling(Some(0), 0.0, true);
    let candidate = m.poll(&game(&scene(42, 185.3))).candidate.expect("a candidate");
    let mut trophies = Vec::new();
    let mut grinds = vec![grind("moose", Species::Moose, Reserve::LaytonLakeDistrict, true, 1)];
    let (trophy, species_name, reserve_name) = finish(candidate, &grinds);
    assert_eq!(trophy.grind, None);
    let report = register(trophy, &species_name, &reserve_name, &mut trophies, &mut grinds);
    assert_eq!(report.verdict, Verdict::Stored);
    assert!(report.grind_kills.is_empty());
    assert_eq!(trophies.len(), 1);
    assert_eq!(grinds[0].kills, 1);
}

#[test]
fn garbage_species_yields_no_trophy_and_one_status() {
    let mut garbage = scene(42, 185.3);
    garbage.species = "Qx Zzyzx";
    let mut m = polling(Some(0), 0.0, true);
    let tick = m.poll(&game(&garbage));
    let candidate = tick.candidate.expect("a candidate");
    assert_eq!(candidate.species, Species::Unknown);
    assert_eq!(candidate.reserve, Reserve::LaytonLakeDistrict);
    // the last-seen values are kept whatever becomes of the candidate
    assert_eq!(m.last_session_score, Some(42));
    assert_eq!(m.last_weight, 185.3f32.to_bits());
    let mut trophies = Vec::new();
    let mut grinds = vec![grind("any", Species::Unknown, Reserve::LaytonLakeDistrict, true, 0)];
    let (trophy, species_name, reserve_name) = finish(candidate, &grinds);
    let report = register(trophy, &species_name, &reserve_name, &mut trophies, &mut grinds);
    assert_eq!(report.verdict, Verdict::Rejected);
    assert_eq!(report.status, "Problem processing trophy with name Qx Zzyzx");
    assert!(report.trophy.is_none());
    assert!(report.grind_kills.is_empty());
    assert!(trophies.is_empty());
    assert_eq!(grinds[0].kills, 0);
}

#[test]
fn unknown_reserve_is_turned_away_too() {
    let mut lost = scene(42, 185.3);
    lost.reserve = "Atlantis";
    let mut m = polling(Some(0), 0.0, true);
    let candidate = m.poll(&game(&lost)).candidate.expect("a candidate");
    assert_eq!(candidate.species, Species::WhitetailDeer);
    assert_eq!(candidate.reserve, Reserve::Unknown);
    let mut trophies = Vec::new();
    let mut grinds = Vec::new();
    let (trophy, species_name, reserve_name) = finish(candidate, &grinds);
    let report = register(trophy, &species_name, &reserve_name, &mut trophies, &mut grinds);
    assert_eq!(report.verdict, Verdict::Rejected);
    assert_eq!(report.status, "Problem processing trophy with name Whitetail Deer");
    assert!(trophies.is_empty());
}

#[test]
fn same_candidate_twice_is_stored_once() {
    let mut trophies = Vec::new();
    let mut grinds = vec![grind("deer", Species::WhitetailDeer, Reserve::LaytonLakeDistrict, true, 0)];
    // the score flaps back and forth over the same harvest
    let mut m = polling(Some(0), 0.0, true);
    let first = m.poll(&game(&scene(42, 185.3))).candidate.expect("a candidate");
    assert!(m.poll(&game(&scene(0, 0.0))).candidate.is_none());
    let second = m.poll(&game(&scene(42, 185.3))).candidate.expect("a candidate again");
    let (trophy, species_name, reserve_name) = finish(first, &grinds);
    let report = register(trophy, &species_name, &reserve_name, &mut trophies, &mut grinds);
    assert_eq!(report.verdict, Verdict::Stored);
    let (trophy, species_name, reserve_name) = finish(second, &grinds);
    let report = register(trophy, &species_name, &reserve_name, &mut trophies, &mut grinds);
    assert_eq!(report.verdict, Verdict::Duplicate);
    assert_eq!(report.status, "Trophy is already saved");
    assert!(report.trophy.is_none());
    assert!(report.grind_kills.is_empty());
    assert_eq!(trophies.len(), 1);
    assert_eq!(grinds[0].kills, 1);
}

#[test]
fn same_identity_is_a_duplicate_whatever_else_differs() {
    let mut trophies = Vec::new();
    let mut grinds = Vec::new();
    let mut m = polling(Some(0), 0.0, true);
    let (first, a, b) = finish(m.poll(&game(&scene(42, 185.3))).candidate.unwrap(), &grinds);
    let mut other = first.clone();
    other.species = Species::Moose;
    other.fur = "Piebald".to_string();
    assert_eq!(register(first, &a, &b, &mut trophies, &mut grinds).verdict, Verdict::Stored);
    assert_eq!(register(other, &a, &b, &mut trophies, &mut grinds).verdict, Verdict::Duplicate);
    assert_eq!(trophies.len(), 1);
}

#[test]
fn candidate_needs_a_new_score_and_a_new_weight_that_is_not_zero() {
    let cases: [(Option<i32>, f32, bool, i32, f32, bool); 12] = [
        // last score, last weight, session seen, score, weight, candidate
        (Some(0), 0.0, true, 42, 185.3, true),
        (Some(42), 0.0, true, 42, 185.3, false),
        (Some(0), 185.3, true, 42, 185.3, false),
        (Some(0), 90.0, true, 42, 0.0, false),
        (Some(0), 90.0, true, 42, -0.0, false),
        (Some(0), 90.0, true, 42, 185.3, true),
        (Some(0), 0.0, true, 42, -5.0, true),
        (None, 0.0, false, 42, 185.3, true),
        (None, 0.0, false, 0, 185.3, true),
        (None, 0.0, false, 0, 0.0, false),
        (Some(-1), 0.0, false, 7, 1.0, true),
        (Some(7), 0.0, false, -1, 1.0, false),
    ];
    for (last_score, last_weight, open, score, weight, expected) in cases {
        let mut m = polling(last_score, last_weight, open);
        let tick = m.poll(&game(&scene(score, weight)));
        assert_eq!(
            tick.candidate.is_some(),
            expected,
            "{:?} {} {} {} {}",
            last_score,
            last_weight,
            open,
            score,
            weight
        );
        assert_eq!(m.last_session_score, Some(score));
        assert_eq!(m.last_weight, weight.to_bits());
    }
}

#[test]
fn zero_has_two_patterns() {
    assert!(!is_nonzero(0.0f32.to_bits()));
    assert!(!is_nonzero((-0.0f32).to_bits()));
    assert!(is_nonzero(185.3f32.to_bits()));
    assert!(is_nonzero((-1.0f32).to_bits()));
    assert!(is_nonzero(f32::NAN.to_bits()));
    assert!(is_nonzero(1));
}

#[test]
fn end_of_session_closes_the_monitor_for_good() {
    let mut m = Monitor::new();
    m.process_searched(Some(BASE));
    m.probe(&game(&scene(0, 0.0)));
    m.poll(&game(&scene(0, 0.0)));
    assert!(m.game_open);
    let tick = m.poll(&game(&scene(-1, 185.3)));
    assert_eq!(m.phase, Phase::ProcessClosed);
    assert_eq!(tick.status, Some("Game has been closed. No longer tracking.".to_string()));
    assert!(tick.user.is_none());
    assert!(tick.candidate.is_none());
    let closed = m;
    for _ in 0..3 {
        let tick = m.poll(&game(&scene(42, 185.3)));
        assert!(tick.status.is_none() && tick.user.is_none() && tick.candidate.is_none());
        assert_eq!(tick.pause_seconds, 0);
        let tick = m.probe(&game(&scene(42, 185.3)));
        assert!(tick.status.is_none() && tick.user.is_none() && tick.candidate.is_none());
        let tick = m.process_searched(Some(BASE));
        assert!(tick.status.is_none() && tick.user.is_none() && tick.candidate.is_none());
        let tick = m.process_searched(None);
        assert!(tick.status.is_none());
        assert_eq!(m.phase, Phase::ProcessClosed);
        assert_eq!(m.last_session_score, closed.last_session_score);
        assert_eq!(m.last_weight, closed.last_weight);
    }
}

#[test]
fn unreadable_score_ends_a_session_that_was_seen() {
    let mut gone = scene(0, 185.3);
    gone.session_score = None;
    assert_eq!(read_session_score(&game(&gone), HARVEST), NO_SESSION);
    assert_eq!(read_session_score(&game(&scene(17, 1.0)), HARVEST), 17);
    assert_eq!(read_session_score(&MemoryImage::new(), HARVEST), -1);
    let mut m = polling(Some(0), 0.0, true);
    let tick = m.poll(&MemoryImage::new());
    assert_eq!(m.phase, Phase::ProcessClosed);
    assert!(tick.candidate.is_none() && tick.user.is_none());
}

#[test]
fn no_session_before_any_was_seen_keeps_polling() {
    let mut m = polling(None, 0.0, false);
    let tick = m.poll(&game(&scene(-1, 185.3)));
    assert_eq!(m.phase, Phase::Polling);
    assert!(!m.game_open);
    assert!(tick.candidate.is_none());
    assert_eq!(tick.user, Some("hunter_one".to_string()));
    assert!(tick.status.is_none());
    let tick = m.poll(&game(&scene(3, 185.3)));
    assert!(m.game_open);
    assert!(tick.candidate.is_none());
    let tick = m.poll(&game(&scene(4, 90.0)));
    assert!(tick.candidate.is_some());
}

#[test]
fn user_name_is_sent_raw_at_every_look() {
    let mut named = scene(0, 0.0);
    named.user = "some-hunter_42";
    let mut m = polling(Some(0), 0.0, true);
    assert_eq!(m.poll(&game(&named)).user, Some("some-hunter_42".to_string()));
    let mut nameless = MemoryImage::new();
    nameless.capture(HARVEST + 0xB0, 5i32.to_le_bytes().to_vec());
    let mut m = polling(Some(0), 0.0, true);
    assert_eq!(m.poll(&nameless).user, Some(String::new()));
}

#[test]
fn rating_and_gender_codes() {
    assert_eq!(decode_rating(0), Rating::Diamond);
    assert_eq!(decode_rating(1), Rating::Gold);
    assert_eq!(decode_rating(2), Rating::Silver);
    assert_eq!(decode_rating(3), Rating::Bronze);
    assert_eq!(decode_rating(4), Rating::Unrated);
    assert_eq!(decode_rating(5), Rating::GreatOne);
    assert_eq!(decode_rating(255), Rating::GreatOne);
    assert_eq!(decode_gender(1), Gender::Male);
    assert_eq!(decode_gender(0), Gender::Female);
    assert_eq!(decode_gender(2), Gender::Female);
    assert_eq!(decode_gender(-1), Gender::Female);
}

#[test]
fn record_that_cannot_be_read_is_assembled_from_zeros() {
    let candidate = assemble(&MemoryImage::new(), BASE, HARVEST);
    assert_eq!(candidate.species, Species::Unknown);
    assert_eq!(candidate.reserve, Reserve::Unknown);
    assert_eq!(candidate.rating, Rating::Diamond);
    assert_eq!(candidate.gender, Gender::Female);
    assert_eq!(candidate.score, 0);
    assert_eq!(candidate.weight, 0);
    assert_eq!(candidate.cash, 0);
    assert_eq!(candidate.xp, 0);
    assert_eq!(candidate.session_score, -1);
    assert_eq!(candidate.integrity, Boolean::False);
    assert_eq!(candidate.tracking, 0);
    assert_eq!(candidate.weapon_score, 0);
    assert_eq!(candidate.species_name, "");
    assert_eq!(candidate.reserve_name, "");
    assert_eq!(candidate.fur, "");
}

#[test]
fn part_of_the_record_is_enough_for_the_rest() {
    let mut m = MemoryImage::new();
    m.capture(HARVEST, text("Moose"));
    m.capture(HARVEST + 0x50, 99i32.to_le_bytes().to_vec());
    m.capture(HARVEST + 0xAC, vec![3]);
    let candidate = assemble(&m, BASE, HARVEST);
    assert_eq!(candidate.species, Species::Moose);
    assert_eq!(candidate.species_name, "Moose");
    assert_eq!(candidate.reserve, Reserve::Unknown);
    assert_eq!(candidate.rating, Rating::Bronze);
    assert_eq!(candidate.fur, "Unknown");
    assert_eq!(candidate.integrity, Boolean::False);
}

#[test]
fn names_are_matched_as_they_stand_in_memory() {
    let mut hyphened = scene(42, 185.3);
    hyphened.species = "whitetail-deer";
    let candidate = assemble(&game(&hyphened), BASE, HARVEST);
    assert_eq!(candidate.species_name, "Whitetail Deer");
    assert_eq!(candidate.species, Species::Unknown);
    assert_eq!(read_species_text(&game(&hyphened), HARVEST), "whitetail-deer");
}

#[test]
fn species_name_is_found_behind_a_pointer_where_it_is_not_written_in_the_record() {
    let mut m = game(&scene(42, 185.3));
    m.capture(HARVEST, SPECIES_TEXT.to_le_bytes().to_vec());
    m.capture(SPECIES_TEXT, text("Southeastern Spanish Ibex"));
    assert_eq!(read_species_text(&m, HARVEST), "Southeastern Spanish Ibex");
    let candidate = assemble(&m, BASE, HARVEST);
    assert_eq!(candidate.species, Species::SoutheasternSpanishIbex);
    assert_eq!(candidate.species_name, "Southeastern Spanish Ibex");
}

#[test]
fn reserve_name_is_read_from_the_record_where_the_pointer_leads_to_none() {
    let mut m = game(&scene(42, 185.3));
    m.capture(HARVEST + 0x60, text("Revontuli Coast"));
    assert_eq!(read_reserve_text(&m, HARVEST), "Revontuli Coast");
    assert_eq!(assemble(&m, BASE, HARVEST).reserve, Reserve::RevontuliCoast);
    assert_eq!(read_reserve_text(&game(&scene(42, 185.3)), HARVEST), "Layton Lake District");
}

#[test]
fn shot_record_is_found_through_four_links() {
    assert_eq!(get_shot_base_address(BASE, &game(&scene(0, 0.0))), SHOT);
    assert_eq!(get_shot_base_address(BASE, &MemoryImage::new()), 0);
}

#[test]
fn integrity_is_true_for_code_one_only() {
    for (code, expected) in [(0u8, Boolean::False), (1, Boolean::True), (2, Boolean::False), (255, Boolean::False)] {
        let mut s = scene(42, 185.3);
        s.integrity = code;
        assert_eq!(assemble(&game(&s), BASE, HARVEST).integrity, expected);
    }
}

#[test]
fn trophy_is_dated_by_the_clock() {
    let candidate = assemble(&game(&scene(42, 185.3)), BASE, HARVEST);
    let trophy = candidate.into_trophy(7.5f32.to_bits(), 85.0f32.to_bits(), true, &Vec::new());
    assert_eq!(trophy.id, 7.5f32.to_bits());
    assert_eq!(trophy.mods, Boolean::True);
    assert_eq!(trophy.species, Species::WhitetailDeer);
    assert_eq!(trophy.grind, None);
    assert!(chrono::DateTime::parse_from_rfc3339(&trophy.date).is_ok());
}

fn deer(id: f32, species: Species) -> Trophy {
    Trophy {
        id: id.to_bits(),
        species,
        reserve: Reserve::LaytonLakeDistrict,
        rating: Rating::Gold,
        score: 120.5f32.to_bits(),
        weight: 185.3f32.to_bits(),
        fur: "Albino".to_string(),
        date: "2024-05-01T10:00:00+02:00".to_string(),
        gender: Gender::Male,
        cash: 300,
        xp: 450,
        session_score: 42,
        integrity: Boolean::True,
        tracking: 12.0f32.to_bits(),
        weapon_score: 0,
        shot_distance: 0,
        shot_damage: 0,
        mods: Boolean::False,
        grind: None,
    }
}

#[test]
fn room_is_asked_of_the_grinds_that_are_counted_only() {
    let none: Vec<Trophy> = Vec::new();
    let trophy = deer(1.0, Species::WhitetailDeer);
    let full_moose = grind("moose", Species::Moose, Reserve::LaytonLakeDistrict, true, i64::MAX);
    let full_deer = grind("deer", Species::WhitetailDeer, Reserve::LaytonLakeDistrict, true, i64::MAX);
    let resting_deer = grind("old", Species::WhitetailDeer, Reserve::LaytonLakeDistrict, false, i64::MAX);
    let almost = grind("deer", Species::WhitetailDeer, Reserve::LaytonLakeDistrict, true, i64::MAX - 1);
    assert!(has_room(&trophy, &none, &Vec::new()));
    assert!(has_room(&trophy, &none, &vec![full_moose.clone(), resting_deer.clone()]));
    assert!(has_room(&trophy, &none, &vec![almost.clone()]));
    assert!(!has_room(&trophy, &none, &vec![full_deer.clone()]));
    // two grinds of one name are each counted once for each of them
    assert!(!has_room(&trophy, &none, &vec![almost.clone(), almost.clone()]));
    // a grind that is not counted itself shares the name of one that is
    let namesake = grind("deer", Species::Moose, Reserve::RevontuliCoast, false, i64::MAX);
    assert!(!has_room(&trophy, &none, &vec![almost.clone(), namesake]));
    // a harvest that is turned away counts for nothing
    assert!(has_room(&deer(1.0, Species::Unknown), &none, &vec![full_deer.clone()]));
    assert!(has_room(&trophy, &vec![deer(1.0, Species::Moose)], &vec![full_deer.clone()]));
}

#[test]
fn harvest_that_is_turned_away_is_registered_beside_a_full_counter() {
    let mut trophies = vec![deer(1.0, Species::Moose)];
    let mut grinds = vec![
        grind("deer", Species::WhitetailDeer, Reserve::LaytonLakeDistrict, true, i64::MAX),
        grind("any", Species::Unknown, Reserve::LaytonLakeDistrict, true, i64::MAX),
    ];
    let name = "Whitetail Deer".to_string();
    let place = "Layton Lake District".to_string();
    let unknown = deer(2.0, Species::Unknown);
    let report = register(unknown, &"Qx".to_string(), &place, &mut trophies, &mut grinds);
    assert_eq!(report.verdict, Verdict::Rejected);
    assert_eq!(report.status, "Problem processing trophy with name Qx");
    assert!(report.trophy.is_none() && report.grind_kills.is_empty());
    let again = deer(1.0, Species::WhitetailDeer);
    let report = register(again, &name, &place, &mut trophies, &mut grinds);
    assert_eq!(report.verdict, Verdict::Duplicate);
    assert_eq!(report.status, "Trophy is already saved");
    assert!(report.trophy.is_none() && report.grind_kills.is_empty());
    assert_eq!(trophies.len(), 1);
    assert_eq!(grinds[0].kills, i64::MAX);
    assert_eq!(grinds[1].kills, i64::MAX);
}

#[test]
fn second_delivery_is_a_duplicate_though_the_first_filled_the_counter() {
    let mut trophies = Vec::new();
    let mut grinds =
        vec![grind("deer", Species::WhitetailDeer, Reserve::LaytonLakeDistrict, true, i64::MAX - 1)];
    let name = "Whitetail Deer".to_string();
    let place = "Layton Lake District".to_string();
    let trophy = deer(3.0, Species::WhitetailDeer);
    assert!(has_room(&trophy, &trophies, &grinds));
    let first = register(trophy.clone(), &name, &place, &mut trophies, &mut grinds);
    assert_eq!(first.verdict, Verdict::Stored);
    assert_eq!(grinds[0].kills, i64::MAX);
    assert!(has_room(&trophy, &trophies, &grinds));
    let second = register(trophy, &name, &place, &mut trophies, &mut grinds);
    assert_eq!(second.verdict, Verdict::Duplicate);
    assert_eq!(trophies.len(), 1);
    assert_eq!(grinds[0].kills, i64::MAX);
}
