use hqm_core::engine::{HQMMatch, HQMSimulationEvent};
use hqm_core::game::{HQMGameObject, HQMMessage};
use hqm_core::server::{HQMServer, HQMServerConfiguration};
use hqm_core::spots::{default_rink, HQMCmPoint};
use hqm_core::touch::HQMCmPosition;
use hqm_core::types::{
    HQMIcingConfiguration, HQMIcingStatus, HQMMatchConfiguration, HQMMatchEvent, HQMObjectIndex,
    HQMOffsideConfiguration, HQMOffsideLineConfiguration, HQMOffsideStatus, HQMPassPosition,
    HQMRinkFaceoffSpot, HQMRinkSide, HQMServerPlayerIndex, HQMTeam, HQMTwoLinePassConfiguration,
    HQMTwoLinePassStatus,
};

fn server_config() -> HQMServerConfiguration {
    HQMServerConfiguration {
        server_name: b"test server".to_vec(),
        port: 27585,
        public: false,
        player_max: 16,
        team_max: 8,
        force_team_size_parity: false,
        welcome: vec![],
        password: b"SECRET-REDACTED".to_vec(),
        entry_point_red: HQMCmPoint { x: 1500, y: 200, z: 3350 },
        entry_point_blue: HQMCmPoint { x: 1500, y: 200, z: 2750 },
        entry_rotation_red_cdeg: 0,
        entry_rotation_blue_cdeg: 18000,
    }
}

fn match_config() -> HQMMatchConfiguration {
    HQMMatchConfiguration {
        time_period: 300,
        time_warmup: 120,
        time_break: 10,
        time_intermission: 15,
        mercy: 0,
        first_to: 0,
        periods: 3,
        offside: HQMOffsideConfiguration::Off,
        icing: HQMIcingConfiguration::Off,
        offside_line: HQMOffsideLineConfiguration::OffensiveBlue,
        twoline_pass: HQMTwoLinePassConfiguration::Off,
        warmup_pucks: 1,
        blue_line_location_cm: 2286,
        use_mph: false,
        goal_replay: false,
    }
}

/// A server with a red player in slot 0 and a blue player in slot 1, both
/// on the ice, a puck object, and the clock running in period 1.
fn setup(cfg: HQMMatchConfiguration) -> (HQMServer, HQMMatch, HQMObjectIndex) {
    let mut server = HQMServer::new(server_config(), default_rink());
    assert!(server.add_player(b"alpha".to_vec(), 1001));
    assert!(server.add_player(b"bravo".to_vec(), 1002));
    assert!(server.set_team(0, HQMTeam::Red));
    assert!(server.set_team(1, HQMTeam::Blue));
    let puck = server
        .game
        .world
        .create_puck_object(HQMCmPosition { x_cm: 1500, y_cm: 150, z_cm: 3050 })
        .unwrap();
    server.game.period = 1;
    server.game.time = 30000;
    let m = HQMMatch::new(cfg);
    (server, m, puck)
}

fn skater_of(server: &HQMServer, slot: usize) -> HQMObjectIndex {
    server.players[slot].as_ref().unwrap().skater.unwrap()
}

fn set_skater_flags(server: &mut HQMServer, obj: HQMObjectIndex, offensive: bool, mid: bool) {
    if let HQMGameObject::Player(mut sk) = server.game.world.objects[obj.0] {
        sk.in_offensive_zone = offensive;
        sk.past_mid_line = mid;
        server.game.world.objects[obj.0] = HQMGameObject::Player(sk);
    } else {
        panic!("no skater in that slot");
    }
}

fn set_puck(server: &mut HQMServer, obj: HQMObjectIndex, x_cm: u32, speed_mmpt: u32) {
    if let HQMGameObject::Puck(mut p) = server.game.world.objects[obj.0] {
        p.pos.x_cm = x_cm;
        p.speed_mmpt = speed_mmpt;
        server.game.world.objects[obj.0] = HQMGameObject::Puck(p);
    } else {
        panic!("no puck in that slot");
    }
}

fn last_chat_of(server: &HQMServer, slot: usize) -> Vec<u8> {
    let msgs = &server.players[slot].as_ref().unwrap().messages;
    for m in msgs.iter().rev() {
        if let HQMMessage::Chat { player_index: None, message } = m {
            return message.clone();
        }
    }
    panic!("no server chat found");
}

#[test]
fn basic_goal() {
    let (mut server, mut m, puck) = setup(match_config());
    let red_skater = skater_of(&server, 0);
    set_puck(&mut server, puck, 1500, 200);

    let events = vec![
        HQMSimulationEvent::PuckTouch { player: red_skater, puck },
        HQMSimulationEvent::PuckEnteredNet { team: HQMTeam::Red, puck },
    ];
    let match_events = m.after_tick(&mut server, &events);

    assert_eq!(server.game.red_score, 1);
    assert_eq!(server.game.blue_score, 0);
    assert_eq!(m.next_faceoff_spot, HQMRinkFaceoffSpot::Center);
    // pause timer counts from time_break * 100, minus the tick that passed
    assert_eq!(m.pause_timer, 10 * 100 - 1);
    assert_eq!(match_events.len(), 1);
    match &match_events[0] {
        HQMMatchEvent::Goal { team, goal, assist, .. } => {
            assert_eq!(*team, HQMTeam::Red);
            assert_eq!(*goal, Some(HQMServerPlayerIndex(0)));
            assert_eq!(*assist, None);
        },
    }
}

#[test]
fn assist_within_window() {
    let mut cfg = match_config();
    cfg.periods = 3;
    let (mut server, mut m, puck) = setup(cfg);
    assert!(server.add_player(b"charlie".to_vec(), 1003));
    assert!(server.set_team(2, HQMTeam::Red));
    let a_skater = skater_of(&server, 0);
    let b_skater = skater_of(&server, 2);

    server.game.time = 2000;
    let _ = m.after_tick(
        &mut server,
        &vec![HQMSimulationEvent::PuckTouch { player: a_skater, puck }],
    );
    // 900 centiseconds later the second player touches and scores
    server.game.time = 1100;
    let events = vec![
        HQMSimulationEvent::PuckTouch { player: b_skater, puck },
        HQMSimulationEvent::PuckEnteredNet { team: HQMTeam::Red, puck },
    ];
    let match_events = m.after_tick(&mut server, &events);
    assert_eq!(match_events.len(), 1);
    match &match_events[0] {
        HQMMatchEvent::Goal { goal, assist, .. } => {
            assert_eq!(*goal, Some(HQMServerPlayerIndex(2)));
            assert_eq!(*assist, Some(HQMServerPlayerIndex(0)));
        },
    }
}

#[test]
fn assist_window_expired() {
    let (mut server, mut m, puck) = setup(match_config());
    assert!(server.add_player(b"charlie".to_vec(), 1003));
    assert!(server.set_team(2, HQMTeam::Red));
    let a_skater = skater_of(&server, 0);
    let b_skater = skater_of(&server, 2);

    server.game.time = 2000;
    let _ = m.after_tick(
        &mut server,
        &vec![HQMSimulationEvent::PuckTouch { player: a_skater, puck }],
    );
    // 1100 centiseconds later: outside the ten-second assist window
    server.game.time = 900;
    let events = vec![
        HQMSimulationEvent::PuckTouch { player: b_skater, puck },
        HQMSimulationEvent::PuckEnteredNet { team: HQMTeam::Red, puck },
    ];
    let match_events = m.after_tick(&mut server, &events);
    assert_eq!(match_events.len(), 1);
    match &match_events[0] {
        HQMMatchEvent::Goal { goal, assist, .. } => {
            assert_eq!(*goal, Some(HQMServerPlayerIndex(2)));
            assert_eq!(*assist, None);
        },
    }
}

#[test]
fn delayed_offside_waved_off() {
    let mut cfg = match_config();
    cfg.offside = HQMOffsideConfiguration::Delayed;
    cfg.offside_line = HQMOffsideLineConfiguration::OffensiveBlue;
    let (mut server, mut m, puck) = setup(cfg);
    assert!(server.add_player(b"yankee".to_vec(), 1003));
    assert!(server.set_team(2, HQMTeam::Red));
    let x_skater = skater_of(&server, 0);
    let y_skater = skater_of(&server, 2);

    // player Y is already past the blue line when the puck enters the zone
    set_skater_flags(&mut server, y_skater, true, true);
    let events = vec![
        HQMSimulationEvent::PuckTouch { player: x_skater, puck },
        HQMSimulationEvent::PuckEnteredOffensiveZone { team: HQMTeam::Red, puck },
    ];
    let _ = m.after_tick(&mut server, &events);
    match m.offside_status {
        HQMOffsideStatus::Warning(team, _, _, _) => assert_eq!(team, HQMTeam::Red),
        ref other => panic!("expected a warning, got {:?}", other),
    }

    // Y retreats to the neutral zone; the warning is waved off that tick
    set_skater_flags(&mut server, y_skater, false, false);
    let _ = m.after_tick(&mut server, &vec![]);
    assert_eq!(m.offside_status, HQMOffsideStatus::InOffensiveZone(HQMTeam::Red));
    assert_eq!(last_chat_of(&server, 0), b"Offside waved off".to_vec());
}

#[test]
fn icing_touch_mode() {
    let mut cfg = match_config();
    cfg.icing = HQMIcingConfiguration::Touch;
    let (mut server, mut m, puck) = setup(cfg);
    let red_skater = skater_of(&server, 0);
    let blue_skater = skater_of(&server, 1);
    set_puck(&mut server, puck, 1000, 100);

    let events = vec![
        HQMSimulationEvent::PuckTouch { player: red_skater, puck },
        HQMSimulationEvent::PuckReachedDefensiveLine { team: HQMTeam::Red, puck },
        HQMSimulationEvent::PuckPassedGoalLine { team: HQMTeam::Red, puck },
    ];
    let _ = m.after_tick(&mut server, &events);
    assert_eq!(
        m.icing_status,
        HQMIcingStatus::Warning(HQMTeam::Red, HQMRinkSide::Left)
    );
    assert_eq!(last_chat_of(&server, 0), b"Icing warning".to_vec());

    // a blue (non-goalie) touch calls the icing against red
    let _ = m.after_tick(
        &mut server,
        &vec![HQMSimulationEvent::PuckTouch { player: blue_skater, puck }],
    );
    assert_eq!(m.icing_status, HQMIcingStatus::Icing(HQMTeam::Red));
    assert_eq!(
        m.next_faceoff_spot,
        HQMRinkFaceoffSpot::DefensiveZone(HQMTeam::Red, HQMRinkSide::Left)
    );
    assert_eq!(last_chat_of(&server, 0), b"Icing".to_vec());
}

#[test]
fn twoline_pass_double() {
    let mut cfg = match_config();
    cfg.twoline_pass = HQMTwoLinePassConfiguration::Double;
    let (mut server, mut m, puck) = setup(cfg);
    assert!(server.add_player(b"delta".to_vec(), 1003));
    assert!(server.set_team(2, HQMTeam::Red));
    let passer = skater_of(&server, 0);
    let receiver = skater_of(&server, 2);
    set_puck(&mut server, puck, 1000, 100);

    // the team-mate is already past the centre line when the puck crosses
    set_skater_flags(&mut server, receiver, false, true);
    let events = vec![
        HQMSimulationEvent::PuckTouch { player: passer, puck },
        HQMSimulationEvent::PuckReachedDefensiveLine { team: HQMTeam::Red, puck },
        HQMSimulationEvent::PuckPassedCenterLine { team: HQMTeam::Red, puck },
    ];
    let _ = m.after_tick(&mut server, &events);
    match &m.twoline_pass_status {
        HQMTwoLinePassStatus::Warning(team, side, from, offenders) => {
            assert_eq!(*team, HQMTeam::Red);
            assert_eq!(*side, HQMRinkSide::Left);
            assert_eq!(*from, HQMPassPosition::ReachedOwnBlue);
            assert_eq!(offenders, &vec![HQMServerPlayerIndex(2)]);
        },
        other => panic!("expected a warning, got {:?}", other),
    }
    assert_eq!(last_chat_of(&server, 0), b"Two-line pass warning".to_vec());

    // the offender touches the puck: the two-line pass is called
    let _ = m.after_tick(
        &mut server,
        &vec![HQMSimulationEvent::PuckTouch { player: receiver, puck }],
    );
    assert_eq!(m.twoline_pass_status, HQMTwoLinePassStatus::Offside(HQMTeam::Red));
    assert_eq!(
        m.next_faceoff_spot,
        HQMRinkFaceoffSpot::DefensiveZone(HQMTeam::Red, HQMRinkSide::Left)
    );
    assert_eq!(last_chat_of(&server, 0), b"Two-line pass".to_vec());
}

#[test]
fn no_goal_during_offside_warning() {
    let mut cfg = match_config();
    cfg.offside = HQMOffsideConfiguration::Delayed;
    let (mut server, mut m, puck) = setup(cfg);
    assert!(server.add_player(b"yankee".to_vec(), 1003));
    assert!(server.set_team(2, HQMTeam::Red));
    let x_skater = skater_of(&server, 0);
    let y_skater = skater_of(&server, 2);
    set_skater_flags(&mut server, y_skater, true, true);

    let events = vec![
        HQMSimulationEvent::PuckTouch { player: x_skater, puck },
        HQMSimulationEvent::PuckEnteredOffensiveZone { team: HQMTeam::Red, puck },
        HQMSimulationEvent::PuckEnteredNet { team: HQMTeam::Red, puck },
    ];
    let match_events = m.after_tick(&mut server, &events);
    // the net entry converts the warning into the offside call, not a goal
    assert_eq!(server.game.red_score, 0);
    assert!(match_events.is_empty());
    assert_eq!(m.offside_status, HQMOffsideStatus::Offside(HQMTeam::Red));
    assert_eq!(last_chat_of(&server, 0), b"Offside".to_vec());
}

#[test]
fn game_clock_counts_down_and_game_over_is_monotone() {
    let mut cfg = match_config();
    cfg.mercy = 1;
    let (mut server, mut m, puck) = setup(cfg);
    let red_skater = skater_of(&server, 0);

    let t0 = server.game.time;
    let _ = m.after_tick(&mut server, &vec![]);
    assert_eq!(server.game.time, t0 - 1);

    // a goal under the one-goal mercy rule ends the game
    let events = vec![
        HQMSimulationEvent::PuckTouch { player: red_skater, puck },
        HQMSimulationEvent::PuckEnteredNet { team: HQMTeam::Red, puck },
    ];
    let _ = m.after_tick(&mut server, &events);
    assert!(server.game.game_over);
    let id = server.game.game_id;
    let _ = m.after_tick(&mut server, &vec![]);
    assert!(server.game.game_over || server.game.game_id != id);
}

#[test]
fn pass_position_is_captured_once() {
    let (mut server, mut m, puck) = setup(match_config());
    let red_skater = skater_of(&server, 0);
    let events = vec![
        HQMSimulationEvent::PuckTouch { player: red_skater, puck },
        HQMSimulationEvent::PuckReachedDefensiveLine { team: HQMTeam::Red, puck },
        HQMSimulationEvent::PuckReachedCenterLine { team: HQMTeam::Red, puck },
    ];
    let _ = m.after_tick(&mut server, &events);
    let pass = m.pass.unwrap();
    assert_eq!(pass.from, Some(HQMPassPosition::ReachedOwnBlue));
    assert_eq!(pass.team, HQMTeam::Red);
    assert_eq!(pass.player, HQMServerPlayerIndex(0));
}

#[test]
fn touch_ledger_coalesces_and_stays_bounded() {
    let (mut server, mut m, puck) = setup(match_config());
    assert!(server.add_player(b"charlie".to_vec(), 1003));
    assert!(server.set_team(2, HQMTeam::Red));
    let a = skater_of(&server, 0);
    let b = skater_of(&server, 2);

    // repeated touches by the same player coalesce into one entry
    let _ = m.after_tick(
        &mut server,
        &vec![
            HQMSimulationEvent::PuckTouch { player: a, puck },
            HQMSimulationEvent::PuckTouch { player: a, puck },
        ],
    );
    assert_eq!(m.puck_touches[puck.0].len(), 1);

    // alternating touches never grow the ledger past sixteen entries
    for _ in 0..20 {
        let _ = m.after_tick(
            &mut server,
            &vec![
                HQMSimulationEvent::PuckTouch { player: a, puck },
                HQMSimulationEvent::PuckTouch { player: b, puck },
            ],
        );
    }
    assert!(m.puck_touches[puck.0].len() <= 16);
    for w in m.puck_touches[puck.0].windows(2) {
        assert!(w[0].player_index != w[1].player_index || w[0].team != w[1].team);
    }
}

#[test]
fn period_end_opens_intermission() {
    let (mut server, mut m, _puck) = setup(match_config());
    server.game.time = 1;
    let _ = m.after_tick(&mut server, &vec![]);
    assert_eq!(server.game.time, 0);
    assert_eq!(server.game.period, 2);
    assert_eq!(m.pause_timer, 15 * 100);
    assert_eq!(m.next_faceoff_spot, HQMRinkFaceoffSpot::Center);
}
