use hqm_core::commands::{packet_is_stale, parse_u32_bytes};
use hqm_core::engine::{HQMMatch, HQMSimulationEvent};
use hqm_core::game::{HQMMessage, HQMPlayerInput};
use hqm_core::server::{HQMServer, HQMServerConfiguration};
use hqm_core::spots::{default_rink, HQMCmPoint};
use hqm_core::types::{
    HQMIcingConfiguration, HQMMatchConfiguration, HQMOffsideConfiguration,
    HQMOffsideLineConfiguration, HQMTeam, HQMTwoLinePassConfiguration,
};

fn server_config() -> HQMServerConfiguration {
    HQMServerConfiguration {
        server_name: b"session test".to_vec(),
        port: 27585,
        public: false,
        player_max: 4,
        team_max: 2,
        force_team_size_parity: false,
        welcome: vec![b"welcome!".to_vec()],
        password: b"SECRET-REDACTED".to_vec(),
        entry_point_red: HQMCmPoint { x: 1500, y: 200, z: 3350 },
        entry_point_blue: HQMCmPoint { x: 1500, y: 200, z: 2750 },
        entry_rotation_red_cdeg: 0,
        entry_rotation_blue_cdeg: 18000,
    }
}

fn match_config() -> HQMMatchConfiguration {
    HQMMatchConfiguration {
        time_period: 300,
        time_warmup: 120,
        time_break: 10,
        time_intermission: 15,
        mercy: 0,
        first_to: 0,
        periods: 3,
        offside: HQMOffsideConfiguration::Off,
        icing: HQMIcingConfiguration::Off,
        offside_line: HQMOffsideLineConfiguration::OffensiveBlue,
        twoline_pass: HQMTwoLinePassConfiguration::Off,
        warmup_pucks: 2,
        blue_line_location_cm: 2286,
        use_mph: false,
        goal_replay: false,
    }
}

fn join_datagram(name: &[u8]) -> Vec<u8> {
    let mut w = hqm_core::bitio::HQMMessageWriter::new();
    w.write_bits(8, 0x48);
    w.write_bits(8, 0x6f);
    w.write_bits(8, 0x63);
    w.write_bits(8, 0x6b);
    w.write_bits(8, 2);
    w.write_bits(8, 55);
    let mut padded = name.to_vec();
    while padded.len() < 32 {
        padded.push(0);
    }
    for b in padded {
        w.write_bits(8, b as u32);
    }
    w.get_bytes()
}

#[test]
fn join_and_exit_lifecycle() {
    let mut server = HQMServer::new(server_config(), default_rink());
    let mut m = HQMMatch::new(match_config());

    let reply = server.handle_message(&mut m, 7001, &join_datagram(b"alice"));
    assert!(reply.is_none());
    assert_eq!(server.player_count(), 1);
    let p = server.players[0].as_ref().unwrap();
    assert_eq!(p.player_name, b"alice".to_vec());
    assert_eq!(p.team, HQMTeam::Spec);
    // the newcomer got the roster update and the welcome line
    assert!(p.messages.iter().any(|msg| matches!(
        msg,
        HQMMessage::Chat { player_index: None, message } if message == &b"welcome!".to_vec()
    )));

    // a second join from the same address is ignored
    let _ = server.handle_message(&mut m, 7001, &join_datagram(b"alice2"));
    assert_eq!(server.player_count(), 1);

    let mut exit = b"Hock".to_vec();
    exit.push(7);
    let _ = server.handle_message(&mut m, 7001, &exit);
    assert_eq!(server.player_count(), 0);
}

#[test]
fn banned_or_disabled_join_is_ignored() {
    let mut server = HQMServer::new(server_config(), default_rink());
    server.ban_list.push(9999);
    let mut m = HQMMatch::new(match_config());
    let _ = server.handle_message(&mut m, 9999, &join_datagram(b"evil"));
    assert_eq!(server.player_count(), 0);

    server.allow_join = false;
    let _ = server.handle_message(&mut m, 1234, &join_datagram(b"late"));
    assert_eq!(server.player_count(), 0);
}

#[test]
fn info_request_is_answered() {
    let mut server = HQMServer::new(server_config(), default_rink());
    let mut m = HQMMatch::new(match_config());
    let mut req = b"Hock".to_vec();
    req.push(0);
    req.push(55);
    req.extend_from_slice(&[0x78, 0x56, 0x34, 0x12]);
    let reply = server.handle_message(&mut m, 5000, &req).unwrap();
    assert_eq!(&reply[0..4], b"Hock");
    assert_eq!(reply[4], 1);
    assert_eq!(reply[5], 55);
    assert_eq!(&reply[6..10], &[0x78, 0x56, 0x34, 0x12]);
}

#[test]
fn stale_packet_guard() {
    assert!(packet_is_stale(5, 10));
    assert!(!packet_is_stale(10, 10));
    assert!(!packet_is_stale(11, 10));
    // an old packet far behind is taken as a wraparound and accepted
    assert!(!packet_is_stale(0, 100_000));
}

#[test]
fn player_update_applies_input_and_guard() {
    let mut server = HQMServer::new(server_config(), default_rink());
    let mut m = HQMMatch::new(match_config());
    assert!(server.add_player(b"alice".to_vec(), 7001));

    let input = HQMPlayerInput { keys: 4, ..Default::default() };
    server.player_update(&mut m, 7001, 0, 1, input, None, 50, 3, None);
    let p = server.players[0].as_ref().unwrap();
    assert_eq!(p.packet, 50);
    assert_eq!(p.msgpos, 3);
    assert_eq!(p.input.keys, 4);

    // an older packet within the window is dropped
    let input2 = HQMPlayerInput { keys: 8, ..Default::default() };
    server.player_update(&mut m, 7001, 0, 1, input2, None, 49, 4, None);
    let p = server.players[0].as_ref().unwrap();
    assert_eq!(p.packet, 50);
    assert_eq!(p.input.keys, 4);
}

#[test]
fn team_switch_via_input_keys() {
    let mut server = HQMServer::new(server_config(), default_rink());
    assert!(server.add_player(b"alice".to_vec(), 7001));
    {
        let p = server.players[0].as_mut().unwrap();
        p.input.keys = 0x4;  // join red
    }
    server.move_players_between_teams();
    let p = server.players[0].as_ref().unwrap();
    assert_eq!(p.team, HQMTeam::Red);
    assert!(p.skater.is_some());

    // spectating despawns and starts the cooldown
    {
        let p = server.players[0].as_mut().unwrap();
        p.input.keys = 0x20;
    }
    server.move_players_between_teams();
    let p = server.players[0].as_ref().unwrap();
    assert_eq!(p.team, HQMTeam::Spec);
    assert!(p.skater.is_none());
    assert_eq!(p.team_switch_timer, 500);

    // during the cooldown a join request is ignored
    {
        let p = server.players[0].as_mut().unwrap();
        p.input.keys = 0x4;
    }
    server.move_players_between_teams();
    let p = server.players[0].as_ref().unwrap();
    assert_eq!(p.team, HQMTeam::Spec);
}

#[test]
fn inactivity_timeout_removes_session() {
    let mut server = HQMServer::new(server_config(), default_rink());
    assert!(server.add_player(b"ghost".to_vec(), 7001));
    for _ in 0..499 {
        server.remove_inactive_players();
    }
    assert_eq!(server.player_count(), 1);
    server.remove_inactive_players();
    assert_eq!(server.player_count(), 0);
}

#[test]
fn admin_login_and_set_score() {
    let mut server = HQMServer::new(server_config(), default_rink());
    let mut m = HQMMatch::new(match_config());
    assert!(server.add_player(b"root".to_vec(), 7001));

    // a wrong password does nothing
    server.process_message(&mut m, b"/admin wrong".to_vec(), 0);
    assert!(!server.players[0].as_ref().unwrap().is_admin);
    // non-admins cannot set scores
    server.process_message(&mut m, b"/set redscore 3".to_vec(), 0);
    assert_eq!(server.game.red_score, 0);

    server.process_message(&mut m, b"/admin SECRET-REDACTED".to_vec(), 0);
    assert!(server.players[0].as_ref().unwrap().is_admin);
    server.process_message(&mut m, b"/set redscore 3".to_vec(), 0);
    assert_eq!(server.game.red_score, 3);
    server.process_message(&mut m, b"/set clock 2:30".to_vec(), 0);
    assert_eq!(server.game.time, 15000);
    server.process_message(&mut m, b"/disablejoin".to_vec(), 0);
    assert!(!server.allow_join);
}

#[test]
fn set_hand_applies_to_caller() {
    let mut server = HQMServer::new(server_config(), default_rink());
    let mut m = HQMMatch::new(match_config());
    assert!(server.add_player(b"alice".to_vec(), 7001));
    assert_eq!(
        server.players[0].as_ref().unwrap().hand,
        hqm_core::game::HQMSkaterHand::Right
    );
    server.process_message(&mut m, b"/lefty".to_vec(), 0);
    assert_eq!(
        server.players[0].as_ref().unwrap().hand,
        hqm_core::game::HQMSkaterHand::Left
    );
    server.process_message(&mut m, b"/set hand right".to_vec(), 0);
    assert_eq!(
        server.players[0].as_ref().unwrap().hand,
        hqm_core::game::HQMSkaterHand::Right
    );
}

#[test]
fn chat_broadcast_unless_muted() {
    let mut server = HQMServer::new(server_config(), default_rink());
    let mut m = HQMMatch::new(match_config());
    assert!(server.add_player(b"alice".to_vec(), 7001));
    assert!(server.add_player(b"bob".to_vec(), 7002));

    server.process_message(&mut m, b"hello".to_vec(), 0);
    let msgs = &server.players[1].as_ref().unwrap().messages;
    assert!(msgs.iter().any(|msg| matches!(
        msg,
        HQMMessage::Chat { player_index: Some(idx), message }
            if idx.0 == 0 && message == &b"hello".to_vec()
    )));

    let before = server.players[1].as_ref().unwrap().messages.len();
    server.is_muted = true;
    server.process_message(&mut m, b"silenced".to_vec(), 0);
    assert_eq!(server.players[1].as_ref().unwrap().messages.len(), before);
}

#[test]
fn tick_produces_snapshots() {
    let mut server = HQMServer::new(server_config(), default_rink());
    let mut m = HQMMatch::new(match_config());
    assert!(server.add_player(b"alice".to_vec(), 7001));
    // a client that acked the current game id gets a snapshot
    server.players[0].as_mut().unwrap().game_id = server.game.game_id;
    server.game.period = 1;
    server.game.time = 30000;

    let run = server.pre_tick(&mut m);
    assert!(run);
    let events: Vec<HQMSimulationEvent> = vec![];
    let step_before = server.game.game_step;
    let (datagrams, match_events) = server.post_tick(&mut m, &events);
    assert!(match_events.is_empty());
    assert_eq!(datagrams.len(), 1);
    let (addr, data) = &datagrams[0];
    assert_eq!(*addr, 7001);
    assert_eq!(&data[0..4], b"Hock");
    assert_eq!(data[4], 5);
    assert_eq!(server.game.game_step, step_before.wrapping_add(1));

    // a client on another game id gets the mismatch notice instead
    server.players[0].as_mut().unwrap().game_id = server.game.game_id.wrapping_add(7);
    let (datagrams, _) = server.post_tick(&mut m, &events);
    assert_eq!(datagrams[0].1[4], 6);
}

#[test]
fn parse_u32_cases() {
    assert_eq!(parse_u32_bytes(b"0"), Some(0));
    assert_eq!(parse_u32_bytes(b"4294967295"), Some(u32::MAX));
    assert_eq!(parse_u32_bytes(b"4294967296"), None);
    assert_eq!(parse_u32_bytes(b""), None);
    assert_eq!(parse_u32_bytes(b"12a"), None);
    assert_eq!(parse_u32_bytes(b"300"), Some(300));
}

#[test]
fn empty_server_resets_between_games() {
    let mut server = HQMServer::new(server_config(), default_rink());
    let mut m = HQMMatch::new(match_config());
    server.game.active = true;
    let id = server.game.game_id;
    let run = server.pre_tick(&mut m);
    assert!(!run);
    assert_ne!(server.game.game_id, id);
    assert_eq!(server.game.time, 120 * 100);
    assert!(server.allow_join);
}
