use hqm_core::positions::{setup_position, HQMFaceoffPosition, HQMPositionMap};
use hqm_core::types::{HQMServerPlayerIndex, HQMTeam};

#[test]
fn test1() {
    let c = HQMFaceoffPosition::C;
    let lw = HQMFaceoffPosition::LW;
    let rw = HQMFaceoffPosition::RW;
    let g = HQMFaceoffPosition::G;

    let mut res1 = HQMPositionMap::new();
    let players = vec![(HQMServerPlayerIndex(0), None)];
    setup_position(&mut res1, players.as_ref(), HQMTeam::Red);
    assert_eq!(res1.get(HQMServerPlayerIndex(0)).unwrap().1, HQMFaceoffPosition::C);

    let mut res1 = HQMPositionMap::new();
    let players = vec![(HQMServerPlayerIndex(0), Some(c))];
    setup_position(&mut res1, players.as_ref(), HQMTeam::Red);
    assert_eq!(res1.get(HQMServerPlayerIndex(0)).unwrap().1, HQMFaceoffPosition::C);

    let mut res1 = HQMPositionMap::new();
    let players = vec![(HQMServerPlayerIndex(0), Some(lw))];
    setup_position(&mut res1, players.as_ref(), HQMTeam::Red);
    assert_eq!(res1.get(HQMServerPlayerIndex(0)).unwrap().1, HQMFaceoffPosition::C);

    let mut res1 = HQMPositionMap::new();
    let players = vec![(HQMServerPlayerIndex(0), Some(g))];
    setup_position(&mut res1, players.as_ref(), HQMTeam::Red);
    assert_eq!(res1.get(HQMServerPlayerIndex(0)).unwrap().1, HQMFaceoffPosition::C);

    let mut res1 = HQMPositionMap::new();
    let players = vec![
        (HQMServerPlayerIndex(0usize), Some(c)),
        (HQMServerPlayerIndex(1), Some(lw)),
    ];
    setup_position(&mut res1, players.as_ref(), HQMTeam::Red);
    assert_eq!(res1.get(HQMServerPlayerIndex(0)).unwrap().1, HQMFaceoffPosition::C);
    assert_eq!(res1.get(HQMServerPlayerIndex(1)).unwrap().1, HQMFaceoffPosition::LW);

    let mut res1 = HQMPositionMap::new();
    let players = vec![
        (HQMServerPlayerIndex(0), None),
        (HQMServerPlayerIndex(1), Some(lw)),
    ];
    setup_position(&mut res1, players.as_ref(), HQMTeam::Red);
    assert_eq!(res1.get(HQMServerPlayerIndex(0)).unwrap().1, HQMFaceoffPosition::C);
    assert_eq!(res1.get(HQMServerPlayerIndex(1)).unwrap().1, HQMFaceoffPosition::LW);

    let mut res1 = HQMPositionMap::new();
    let players = vec![
        (HQMServerPlayerIndex(0), Some(rw)),
        (HQMServerPlayerIndex(1), Some(lw)),
    ];
    setup_position(&mut res1, players.as_ref(), HQMTeam::Red);
    assert_eq!(res1.get(HQMServerPlayerIndex(0)).unwrap().1, HQMFaceoffPosition::C);
    assert_eq!(res1.get(HQMServerPlayerIndex(1)).unwrap().1, HQMFaceoffPosition::LW);

    let mut res1 = HQMPositionMap::new();
    let players = vec![
        (HQMServerPlayerIndex(0), Some(g)),
        (HQMServerPlayerIndex(1), Some(lw)),
    ];
    setup_position(&mut res1, players.as_ref(), HQMTeam::Red);
    assert_eq!(res1.get(HQMServerPlayerIndex(0)).unwrap().1, HQMFaceoffPosition::G);
    assert_eq!(res1.get(HQMServerPlayerIndex(1)).unwrap().1, HQMFaceoffPosition::C);

    let mut res1 = HQMPositionMap::new();
    let players = vec![
        (HQMServerPlayerIndex(0usize), Some(c)),
        (HQMServerPlayerIndex(1), Some(c)),
    ];
    setup_position(&mut res1, players.as_ref(), HQMTeam::Red);
    assert_eq!(res1.get(HQMServerPlayerIndex(0)).unwrap().1, HQMFaceoffPosition::C);
    assert_eq!(res1.get(HQMServerPlayerIndex(1)).unwrap().1, HQMFaceoffPosition::LW);
}

#[test]
fn faceoff_spot_center_default_rink() {
    let rink = hqm_core::spots::default_rink();
    let spot = hqm_core::spots::get_faceoff_spot(
        &rink,
        hqm_core::types::HQMRinkFaceoffSpot::Center,
    );
    assert_eq!(spot.center_position.x, 1500);
    assert_eq!(spot.center_position.y, 0);
    assert_eq!(spot.center_position.z, 3050);
    assert!(!spot.red_defensive_zone);
    assert!(!spot.blue_defensive_zone);
    assert!(!spot.red_left);
    assert!(!spot.red_right);
}

#[test]
fn faceoff_spot_defensive_zone_red() {
    let rink = hqm_core::spots::default_rink();
    let spot = hqm_core::spots::get_faceoff_spot(
        &rink,
        hqm_core::types::HQMRinkFaceoffSpot::DefensiveZone(
            HQMTeam::Red,
            hqm_core::types::HQMRinkSide::Left,
        ),
    );
    assert_eq!(spot.center_position.x, 800);
    assert_eq!(spot.center_position.z, 5100);
    assert!(spot.red_defensive_zone);
    assert!(!spot.blue_defensive_zone);
    assert!(spot.red_left);
}

#[test]
fn goalie_placement_and_center_offset() {
    let rink = hqm_core::spots::default_rink();
    let spot = hqm_core::spots::get_faceoff_spot(
        &rink,
        hqm_core::types::HQMRinkFaceoffSpot::Center,
    );
    let (gpos, grot) = hqm_core::spots::faceoff_player_position(
        &rink,
        &spot,
        HQMTeam::Blue,
        HQMFaceoffPosition::G,
    );
    assert_eq!(gpos.x, 1500);
    assert_eq!(gpos.y, 150);
    assert_eq!(gpos.z, 500);
    assert_eq!(grot, hqm_core::spots::ROT_BLUE_CDEG);

    let (cpos, crot) = hqm_core::spots::faceoff_player_position(
        &rink,
        &spot,
        HQMTeam::Red,
        HQMFaceoffPosition::C,
    );
    assert_eq!(cpos.x, 1500);
    assert_eq!(cpos.y, 150);
    assert_eq!(cpos.z, 3050 + 275);
    assert_eq!(crot, hqm_core::spots::ROT_RED_CDEG);

    let (bpos, _) = hqm_core::spots::faceoff_player_position(
        &rink,
        &spot,
        HQMTeam::Blue,
        HQMFaceoffPosition::C,
    );
    assert_eq!(bpos.z, 3050 - 275);
}

#[test]
fn spawnpoint_positions() {
    let rink = hqm_core::spots::default_rink();
    let (pos, rot) = hqm_core::spots::get_spawnpoint(
        &rink,
        HQMTeam::Red,
        hqm_core::types::HQMSpawnPoint::Center,
    );
    assert_eq!(pos.x, 1500);
    assert_eq!(pos.y, 200);
    assert_eq!(pos.z, 3050 + 300);
    assert_eq!(rot, 0);
    let (pos, rot) = hqm_core::spots::get_spawnpoint(
        &rink,
        HQMTeam::Blue,
        hqm_core::types::HQMSpawnPoint::Bench,
    );
    assert_eq!(pos.x, 50);
    assert_eq!(pos.z, 3050 - 400);
    assert_eq!(rot, hqm_core::spots::ROT_BENCH_CDEG);
}
