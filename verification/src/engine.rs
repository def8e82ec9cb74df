//! The match rules engine: three coupled state machines (icing, offside,
//! two-line pass) gated by the pass tracker and the puck-touch ledger, the
//! tick clock with periods and intermissions, goal and assist attribution,
//! and faceoff resolution.

use vstd::prelude::*;
use vstd::string::StrSliceExecFns;
use vstd::string::StringSliceAdditionalSpecFns;

use crate::game::{HQMGameObject, HQMMessage};
use crate::positions::HQMFaceoffPosition;
use crate::server::{
    lemma_server_chats_broadcast_trans, server_chats_broadcast,
    spec_has_players_in_offensive_zone_from, HQMServer, server_wf,
};
use crate::touch::{touches_wf, HQMPuckTouch};
use crate::types::{
    match_config_wf, pass_position_le, HQMIcingConfiguration, HQMIcingStatus,
    HQMMatchConfiguration, HQMMatchEvent, HQMObjectIndex, HQMOffsideConfiguration,
    HQMOffsideLineConfiguration, HQMOffsideStatus, HQMPass, HQMPassPosition, HQMRinkFaceoffSpot,
    HQMRinkSide, HQMServerPlayerIndex, HQMTeam, HQMTwoLinePassConfiguration,
    HQMTwoLinePassStatus,
};

verus! {

/// An event reported by the simulation for one tick, in emission order.
/// Line-crossing events carry the team whose attack the crossing advances.
#[derive(Debug, Clone, Copy, PartialEq, Eq, Structural)]
pub enum HQMSimulationEvent {
    PuckTouch { player: HQMObjectIndex, puck: HQMObjectIndex },
    PuckEnteredNet { team: HQMTeam, puck: HQMObjectIndex },
    PuckReachedDefensiveLine { team: HQMTeam, puck: HQMObjectIndex },
    PuckPassedDefensiveLine { team: HQMTeam, puck: HQMObjectIndex },
    PuckReachedCenterLine { team: HQMTeam, puck: HQMObjectIndex },
    PuckPassedCenterLine { team: HQMTeam, puck: HQMObjectIndex },
    PuckReachedOffensiveZone { team: HQMTeam, puck: HQMObjectIndex },
    PuckEnteredOffensiveZone { team: HQMTeam, puck: HQMObjectIndex },
    PuckPassedGoalLine { team: HQMTeam, puck: HQMObjectIndex },
}

/// An event is well-formed when the team it names is on the ice.
pub open spec fn event_wf(e: HQMSimulationEvent) -> bool {
    match e {
        HQMSimulationEvent::PuckTouch { .. } => true,
        HQMSimulationEvent::PuckEnteredNet { team, .. } => team != HQMTeam::Spec,
        HQMSimulationEvent::PuckReachedDefensiveLine { team, .. } => team != HQMTeam::Spec,
        HQMSimulationEvent::PuckPassedDefensiveLine { team, .. } => team != HQMTeam::Spec,
        HQMSimulationEvent::PuckReachedCenterLine { team, .. } => team != HQMTeam::Spec,
        HQMSimulationEvent::PuckPassedCenterLine { team, .. } => team != HQMTeam::Spec,
        HQMSimulationEvent::PuckReachedOffensiveZone { team, .. } => team != HQMTeam::Spec,
        HQMSimulationEvent::PuckEnteredOffensiveZone { team, .. } => team != HQMTeam::Spec,
        HQMSimulationEvent::PuckPassedGoalLine { team, .. } => team != HQMTeam::Spec,
    }
}

/// The match rules engine's own state, alongside the server's game state.
pub struct HQMMatch {
    pub config: HQMMatchConfiguration,
    pub paused: bool,
    pub pause_timer: u32,
    pub is_pause_goal: bool,
    pub next_faceoff_spot: HQMRinkFaceoffSpot,
    pub icing_status: HQMIcingStatus,
    pub offside_status: HQMOffsideStatus,
    pub twoline_pass_status: HQMTwoLinePassStatus,
    pub pass: Option<HQMPass>,
    /// Preferred faceoff position per session slot.
    pub preferred_positions: Vec<Option<HQMFaceoffPosition>>,
    pub started_as_goalie: Vec<HQMServerPlayerIndex>,
    pub faceoff_game_step: u32,
    pub step_where_period_ended: u32,
    pub too_late_printed_this_period: bool,
    pub start_next_replay: Option<(u32, u32, Option<HQMServerPlayerIndex>)>,
    /// One touch ledger per world object slot (pucks use theirs).
    pub puck_touches: Vec<Vec<HQMPuckTouch>>,
}

/// The engine invariant: a sane configuration, one preferred-position
/// entry per session slot, one ledger per object slot, every ledger
/// well-formed, and pending rule states naming on-ice teams only.
pub open spec fn match_wf(m: HQMMatch) -> bool {
    &&& match_config_wf(m.config)
    &&& m.preferred_positions@.len() == 64
    &&& m.puck_touches@.len() == 32
    &&& forall|i: int| 0 <= i < 32 ==> touches_wf(#[trigger] m.puck_touches@[i]@)
}

impl HQMMatch {
    /// A fresh engine for a match configuration.
    pub fn new(config: HQMMatchConfiguration) -> (m: HQMMatch)
        requires
            match_config_wf(config),
        ensures
            match_wf(m),
            m.config == config,
            !m.paused,
            m.pause_timer == 0,
            !m.is_pause_goal,
            m.next_faceoff_spot == HQMRinkFaceoffSpot::Center,
            m.icing_status == HQMIcingStatus::No,
            m.offside_status == HQMOffsideStatus::Neutral,
            m.twoline_pass_status == HQMTwoLinePassStatus::No,
            m.pass is None,
            m.started_as_goalie@.len() == 0,
            m.faceoff_game_step == 0,
            m.step_where_period_ended == 0,
            !m.too_late_printed_this_period,
            m.start_next_replay is None,
            forall|i: int| 0 <= i < 32 ==> (#[trigger] m.puck_touches@[i])@.len() == 0,
            forall|i: int| 0 <= i < 64 ==> (#[trigger] m.preferred_positions@[i]) is None,
    {
        let mut preferred_positions: Vec<Option<HQMFaceoffPosition>> = Vec::new();
        let mut i: usize = 0;
        while i < 64
            invariant
                i <= 64,
                preferred_positions@.len() == i,
                forall|j: int| 0 <= j < i ==> (#[trigger] preferred_positions@[j]) is None,
            decreases 64 - i,
        {
            preferred_positions.push(None);
            i += 1;
        }
        let mut puck_touches: Vec<Vec<HQMPuckTouch>> = Vec::new();
        let mut i: usize = 0;
        while i < 32
            invariant
                i <= 32,
                puck_touches@.len() == i,
                forall|j: int| 0 <= j < i ==> (#[trigger] puck_touches@[j])@.len() == 0,
            decreases 32 - i,
        {
            puck_touches.push(Vec::new());
            i += 1;
        }
        HQMMatch {
            config,
            paused: false,
            pause_timer: 0,
            is_pause_goal: false,
            next_faceoff_spot: HQMRinkFaceoffSpot::Center,
            icing_status: HQMIcingStatus::No,
            offside_status: HQMOffsideStatus::Neutral,
            twoline_pass_status: HQMTwoLinePassStatus::No,
            pass: None,
            preferred_positions,
            started_as_goalie: Vec::new(),
            faceoff_game_step: 0,
            step_where_period_ended: 0,
            too_late_printed_this_period: false,
            start_next_replay: None,
            puck_touches,
        }
    }
}

/// First index at or after `i` holding `x`, or -1.
pub open spec fn index_of_player(s: Seq<HQMServerPlayerIndex>, x: HQMServerPlayerIndex, i: int) -> int
    decreases s.len() - i,
{
    if i < 0 || i >= s.len() {
        -1
    } else if s[i] == x {
        i
    } else {
        index_of_player(s, x, i + 1)
    }
}

/// Whether the list holds the player at or after `i`.
pub open spec fn list_has_player(
    s: Seq<HQMServerPlayerIndex>,
    x: HQMServerPlayerIndex,
    i: int,
) -> bool {
    index_of_player(s, x, i) >= 0
}

fn find_player_in_list(v: &Vec<HQMServerPlayerIndex>, x: HQMServerPlayerIndex, i: usize) -> (r:
    Option<usize>)
    requires
        i <= v@.len(),
    ensures
        r is Some <==> index_of_player(v@, x, i as int) >= 0,
        r is Some ==> r.unwrap() as int == index_of_player(v@, x, i as int) && r.unwrap()
            < v@.len(),
    decreases v@.len() - i,
{
    if i >= v.len() {
        None
    } else if v[i] == x {
        Some(i)
    } else {
        find_player_in_list(v, x, i + 1)
    }
}

/// Whether a player list holds the given player.
pub fn player_list_contains(v: &Vec<HQMServerPlayerIndex>, x: HQMServerPlayerIndex) -> (r: bool)
    ensures
        r == list_has_player(v@, x, 0),
{
    find_player_in_list(v, x, 0).is_some()
}

impl HQMMatch {
    /// Forget that a player started the current faceoff as goalie.
    pub fn clear_started_goalie(&mut self, player_index: HQMServerPlayerIndex)
        ensures
            ({
                let f = index_of_player(old(self).started_as_goalie@, player_index, 0);
                &&& f >= 0 ==> final(self).started_as_goalie@ == old(self).started_as_goalie@.remove(f)
                &&& f < 0 ==> final(self).started_as_goalie@ == old(self).started_as_goalie@
            }),
            equal_but_goalies(*old(self), *final(self)),
    {
        match find_player_in_list(&self.started_as_goalie, player_index, 0) {
            Some(x) => {
                self.started_as_goalie.remove(x);
            },
            None => {},
        }
    }

    /// Forget a departing player's goalie mark and preferred position.
    pub fn cleanup_player(&mut self, player_index: HQMServerPlayerIndex)
        requires
            match_wf(*old(self)),
        ensures
            match_wf(*final(self)),
            ({
                let f = index_of_player(old(self).started_as_goalie@, player_index, 0);
                &&& f >= 0 ==> final(self).started_as_goalie@ == old(self).started_as_goalie@.remove(f)
                &&& f < 0 ==> final(self).started_as_goalie@ == old(self).started_as_goalie@
            }),
            player_index.0 < 64 ==> final(self).preferred_positions@ == old(self).preferred_positions@.update(player_index.0 as int, Option::None),
            player_index.0 >= 64 ==> final(self).preferred_positions@ == old(self).preferred_positions@,
    {
        match find_player_in_list(&self.started_as_goalie, player_index, 0) {
            Some(x) => {
                self.started_as_goalie.remove(x);
            },
            None => {},
        }
        if player_index.0 < 64 {
            self.preferred_positions.set(player_index.0, None);
        }
    }

    /// Advance the pass record on a line crossing: the `from` position is
    /// captured only once, on the first crossing of the same team's pass.
    pub fn update_pass(&mut self, team: HQMTeam, p: HQMPassPosition)
        ensures
            final(self).pass == spec_update_pass(old(self).pass, team, p),
            equal_but_pass(*old(self), *final(self)),
    {
        let update = match &self.pass {
            Some(pass) => pass.team == team && pass.from.is_none(),
            None => false,
        };
        if update {
            if let Some(pass) = &self.pass {
                self.pass = Some(
                    HQMPass { team: pass.team, side: pass.side, from: Some(p), player: pass.player },
                );
            }
        }
    }
}

/// The pass record after a line crossing by `team` at position `p`.
pub open spec fn spec_update_pass(
    pass: Option<HQMPass>,
    team: HQMTeam,
    p: HQMPassPosition,
) -> Option<HQMPass> {
    match pass {
        Some(pass) => if pass.team == team && pass.from is None {
            Some(HQMPass { team: pass.team, side: pass.side, from: Some(p), player: pass.player })
        } else {
            Some(pass)
        },
        None => None,
    }
}

/// A pass's recorded `from` position never moves backwards: updating can
/// only turn an unset position into a set one and never changes a set one,
/// so the positions a single pass record holds over time are monotone
/// non-decreasing.
pub proof fn lemma_pass_from_monotone(pass: Option<HQMPass>, team: HQMTeam, p: HQMPassPosition)
    ensures
        ({
            let after = spec_update_pass(pass, team, p);
            &&& (pass is Some <==> after is Some)
            &&& pass is Some ==> {
                let b = pass.unwrap();
                let a = after.unwrap();
                &&& a.team == b.team
                &&& a.side == b.side
                &&& a.player == b.player
                &&& (b.from is Some ==> a.from == b.from)
                &&& (b.from is None ==> a.from is None || a.from == Some(p))
                &&& (b.from is Some && a.from is Some ==> pass_position_le(
                    b.from.unwrap(),
                    a.from.unwrap(),
                ))
            }
        }),
{
}

/// Two engine states that differ at most in the pass record.
pub open spec fn equal_but_pass(a: HQMMatch, b: HQMMatch) -> bool {
    &&& a.config == b.config
    &&& a.paused == b.paused
    &&& a.pause_timer == b.pause_timer
    &&& a.is_pause_goal == b.is_pause_goal
    &&& a.next_faceoff_spot == b.next_faceoff_spot
    &&& a.icing_status == b.icing_status
    &&& a.offside_status == b.offside_status
    &&& a.twoline_pass_status == b.twoline_pass_status
    &&& a.preferred_positions == b.preferred_positions
    &&& a.started_as_goalie == b.started_as_goalie
    &&& a.faceoff_game_step == b.faceoff_game_step
    &&& a.step_where_period_ended == b.step_where_period_ended
    &&& a.too_late_printed_this_period == b.too_late_printed_this_period
    &&& a.start_next_replay == b.start_next_replay
    &&& a.puck_touches == b.puck_touches
}

/// Two engine states that differ at most in the goalie list and the
/// preferred positions.
pub open spec fn equal_but_goalies(a: HQMMatch, b: HQMMatch) -> bool {
    &&& a.config == b.config
    &&& a.paused == b.paused
    &&& a.pause_timer == b.pause_timer
    &&& a.is_pause_goal == b.is_pause_goal
    &&& a.next_faceoff_spot == b.next_faceoff_spot
    &&& a.icing_status == b.icing_status
    &&& a.offside_status == b.offside_status
    &&& a.twoline_pass_status == b.twoline_pass_status
    &&& a.pass == b.pass
    &&& a.faceoff_game_step == b.faceoff_game_step
    &&& a.step_where_period_ended == b.step_where_period_ended
    &&& a.too_late_printed_this_period == b.too_late_printed_this_period
    &&& a.start_next_replay == b.start_next_replay
    &&& a.puck_touches == b.puck_touches
}


/// The pause length, in ticks, that a rule call or a goal imposes.
pub open spec fn spec_time_break(c: HQMMatchConfiguration) -> u32 {
    (c.time_break * 100) as u32
}

/// The intermission length in ticks.
pub open spec fn spec_time_intermission(c: HQMMatchConfiguration) -> u32 {
    (c.time_intermission * 100) as u32
}

/// The period length in ticks.
pub open spec fn spec_time_period(c: HQMMatchConfiguration) -> u32 {
    (c.time_period * 100) as u32
}

/// Messages grew on every session and none of the new ones announces a
/// goal for any team; scores did not move.
pub open spec fn no_goals_emitted(a: HQMServer, b: HQMServer) -> bool {
    &&& b.players@.len() == a.players@.len()
    &&& forall|t: HQMTeam, i: int|
        0 <= i < a.players@.len() && a.players@[i] is Some ==> #[trigger] crate::game::no_goal_msg_added(
            a.players@[i].unwrap().messages@,
            b.players@[i].unwrap().messages@,
            t,
        )
    &&& forall|i: int|
        0 <= i < a.players@.len() ==> ((#[trigger] b.players@[i]) is Some <==> a.players@[i] is Some)
    &&& b.game.red_score == a.game.red_score
    &&& b.game.blue_score == a.game.blue_score
}

/// The server fields the rule machines never touch.
pub open spec fn server_rules_frame(a: HQMServer, b: HQMServer) -> bool {
    &&& b.game_alloc == a.game_alloc
    &&& b.game.rules_state == a.game.rules_state
    &&& b.game.time == a.game.time
    &&& b.game.period == a.game.period
    &&& b.game.game_over == a.game.game_over
    &&& b.game.game_id == a.game.game_id
    &&& b.game.game_step == a.game.game_step
    &&& b.game.world == a.game.world
    &&& b.game.paused == a.game.paused
    &&& forall|i: int|
        0 <= i < a.players@.len() && a.players@[i] is Some ==> crate::server::equal_but_messages(
            (#[trigger] a.players@[i]).unwrap(),
            b.players@[i].unwrap(),
        )
}

/// The faceoff spot that a non-self-touch offside or a two-line pass puts
/// the puck on: behind the offending team when the pass began at or behind
/// their own blue line, the neutral-zone spot when it began at or behind
/// centre, otherwise centre ice.
pub open spec fn spec_rule_faceoff_spot(
    team: HQMTeam,
    side: HQMRinkSide,
    position: HQMPassPosition,
) -> HQMRinkFaceoffSpot {
    if pass_position_le(position, HQMPassPosition::ReachedOwnBlue) {
        HQMRinkFaceoffSpot::DefensiveZone(team, side)
    } else if pass_position_le(position, HQMPassPosition::ReachedCenter) {
        HQMRinkFaceoffSpot::Offside(team, side)
    } else {
        HQMRinkFaceoffSpot::Center
    }
}

impl HQMMatch {
    /// Call icing against `team`: faceoff in their defensive zone on
    /// `side`, play paused for the break, and the call announced.
    pub fn call_icing(&mut self, server: &mut HQMServer, team: HQMTeam, side: HQMRinkSide)
        requires
            match_wf(*old(self)),
        ensures
            match_wf(*final(self)),
            final(self).icing_status == HQMIcingStatus::Icing(team),
            final(self).next_faceoff_spot == HQMRinkFaceoffSpot::DefensiveZone(team, side),
            final(self).pause_timer == spec_time_break(old(self).config),
            final(self).offside_status == old(self).offside_status,
            final(self).twoline_pass_status == old(self).twoline_pass_status,
            final(self).pass == old(self).pass,
            final(self).config == old(self).config,
            final(self).puck_touches == old(self).puck_touches,
            final(self).started_as_goalie == old(self).started_as_goalie,
            final(self).preferred_positions == old(self).preferred_positions,
            final(self).start_next_replay == old(self).start_next_replay,
            final(self).is_pause_goal == old(self).is_pause_goal,
            final(self).paused == old(self).paused,
            final(self).faceoff_game_step == old(self).faceoff_game_step,
            final(self).step_where_period_ended == old(self).step_where_period_ended,
            final(self).too_late_printed_this_period == old(self).too_late_printed_this_period,
            no_goals_emitted(*old(server), *final(server)),
            server_rules_frame(*old(server), *final(server)),
            server_chats_broadcast(
                old(server).players@,
                final(server).players@,
                Option::None,
                seq!["Icing".spec_bytes()],
            ),
    {
        let time_break = self.config.time_break * 100;
        self.next_faceoff_spot = HQMRinkFaceoffSpot::DefensiveZone(team, side);
        self.pause_timer = time_break;
        self.icing_status = HQMIcingStatus::Icing(team);
        server.add_server_chat_message("Icing".as_bytes_vec());
    }

    /// Call offside against `team`: the faceoff spot depends on whether the
    /// offender touched their own pass and where the pass began; play
    /// pauses for the break and the call is announced.
    pub fn call_offside(
        &mut self,
        server: &mut HQMServer,
        team: HQMTeam,
        side: HQMRinkSide,
        position: Option<HQMPassPosition>,
        self_touch: bool,
    )
        requires
            match_wf(*old(self)),
        ensures
            match_wf(*final(self)),
            final(self).offside_status == HQMOffsideStatus::Offside(team),
            final(self).pause_timer == spec_time_break(old(self).config),
            final(self).next_faceoff_spot == (if self_touch {
                match old(self).config.offside_line {
                    HQMOffsideLineConfiguration::OffensiveBlue => HQMRinkFaceoffSpot::Offside(
                        spec_other_team(team),
                        side,
                    ),
                    HQMOffsideLineConfiguration::Center => HQMRinkFaceoffSpot::Center,
                }
            } else {
                match position {
                    Some(p) => spec_rule_faceoff_spot(team, side, p),
                    None => HQMRinkFaceoffSpot::Center,
                }
            }),
            final(self).icing_status == old(self).icing_status,
            final(self).twoline_pass_status == old(self).twoline_pass_status,
            final(self).pass == old(self).pass,
            final(self).config == old(self).config,
            final(self).puck_touches == old(self).puck_touches,
            final(self).started_as_goalie == old(self).started_as_goalie,
            final(self).preferred_positions == old(self).preferred_positions,
            final(self).start_next_replay == old(self).start_next_replay,
            final(self).is_pause_goal == old(self).is_pause_goal,
            final(self).paused == old(self).paused,
            final(self).faceoff_game_step == old(self).faceoff_game_step,
            final(self).step_where_period_ended == old(self).step_where_period_ended,
            final(self).too_late_printed_this_period == old(self).too_late_printed_this_period,
            no_goals_emitted(*old(server), *final(server)),
            server_rules_frame(*old(server), *final(server)),
            server_chats_broadcast(
                old(server).players@,
                final(server).players@,
                Option::None,
                seq!["Offside".spec_bytes()],
            ),
    {
        let time_break = self.config.time_break * 100;
        let faceoff_spot = if self_touch {
            match self.config.offside_line {
                HQMOffsideLineConfiguration::OffensiveBlue => HQMRinkFaceoffSpot::Offside(
                    team.get_other_team(),
                    side,
                ),
                HQMOffsideLineConfiguration::Center => HQMRinkFaceoffSpot::Center,
            }
        } else {
            match position {
                Some(p) => if p.le(HQMPassPosition::ReachedOwnBlue) {
                    HQMRinkFaceoffSpot::DefensiveZone(team, side)
                } else if p.le(HQMPassPosition::ReachedCenter) {
                    HQMRinkFaceoffSpot::Offside(team, side)
                } else {
                    HQMRinkFaceoffSpot::Center
                },
                None => HQMRinkFaceoffSpot::Center,
            }
        };
        self.next_faceoff_spot = faceoff_spot;
        self.pause_timer = time_break;
        self.offside_status = HQMOffsideStatus::Offside(team);
        server.add_server_chat_message("Offside".as_bytes_vec());
    }

    /// Call a two-line pass against `team`: the faceoff spot follows the
    /// same rule as a non-self-touch offside.
    pub fn call_twoline_pass(
        &mut self,
        server: &mut HQMServer,
        team: HQMTeam,
        side: HQMRinkSide,
        position: HQMPassPosition,
    )
        requires
            match_wf(*old(self)),
        ensures
            match_wf(*final(self)),
            final(self).twoline_pass_status == HQMTwoLinePassStatus::Offside(team),
            final(self).pause_timer == spec_time_break(old(self).config),
            final(self).next_faceoff_spot == spec_rule_faceoff_spot(team, side, position),
            final(self).icing_status == old(self).icing_status,
            final(self).offside_status == old(self).offside_status,
            final(self).pass == old(self).pass,
            final(self).config == old(self).config,
            final(self).puck_touches == old(self).puck_touches,
            final(self).started_as_goalie == old(self).started_as_goalie,
            final(self).preferred_positions == old(self).preferred_positions,
            final(self).start_next_replay == old(self).start_next_replay,
            final(self).is_pause_goal == old(self).is_pause_goal,
            final(self).paused == old(self).paused,
            final(self).faceoff_game_step == old(self).faceoff_game_step,
            final(self).step_where_period_ended == old(self).step_where_period_ended,
            final(self).too_late_printed_this_period == old(self).too_late_printed_this_period,
            no_goals_emitted(*old(server), *final(server)),
            server_rules_frame(*old(server), *final(server)),
            server_chats_broadcast(
                old(server).players@,
                final(server).players@,
                Option::None,
                seq!["Two-line pass".spec_bytes()],
            ),
    {
        let time_break = self.config.time_break * 100;
        let faceoff_spot = if position.le(HQMPassPosition::ReachedOwnBlue) {
            HQMRinkFaceoffSpot::DefensiveZone(team, side)
        } else if position.le(HQMPassPosition::ReachedCenter) {
            HQMRinkFaceoffSpot::Offside(team, side)
        } else {
            HQMRinkFaceoffSpot::Center
        };
        self.next_faceoff_spot = faceoff_spot;
        self.pause_timer = time_break;
        self.twoline_pass_status = HQMTwoLinePassStatus::Offside(team);
        server.add_server_chat_message("Two-line pass".as_bytes_vec());
    }

    /// Clear a pending two-line warning when the other team moves the puck
    /// across a line.
    pub fn check_wave_off_twoline(&mut self, server: &mut HQMServer, team: HQMTeam)
        requires
            match_wf(*old(self)),
        ensures
            match_wf(*final(self)),
            final(self).twoline_pass_status == (match old(self).twoline_pass_status {
                HQMTwoLinePassStatus::Warning(warning_team, _, _, _) => if team != warning_team {
                    HQMTwoLinePassStatus::No
                } else {
                    old(self).twoline_pass_status
                },
                _ => old(self).twoline_pass_status,
            }),
            equal_but_twoline(*old(self), *final(self)),
            no_goals_emitted(*old(server), *final(server)),
            server_rules_frame(*old(server), *final(server)),
            ({
                let cleared = match old(self).twoline_pass_status {
                    HQMTwoLinePassStatus::Warning(warning_team, _, _, _) => team != warning_team,
                    _ => false,
                };
                if cleared {
                    server_chats_broadcast(
                        old(server).players@,
                        final(server).players@,
                        Option::None,
                        seq!["Two-line pass waved off".spec_bytes()],
                    )
                } else {
                    *final(server) == *old(server)
                }
            }),
    {
        let clear = match &self.twoline_pass_status {
            HQMTwoLinePassStatus::Warning(warning_team, _, _, _) => team != *warning_team,
            _ => false,
        };
        if clear {
            self.twoline_pass_status = HQMTwoLinePassStatus::No;
            server.add_server_chat_message("Two-line pass waved off".as_bytes_vec());
        }
    }

    /// On the puck coming back across the defensive line in offensive-blue
    /// mode: clear any offside state to neutral, announcing a waive-off
    /// when it cancels the other team's warning.
    pub fn handle_puck_passed_defensive_line(&mut self, server: &mut HQMServer, team: HQMTeam)
        requires
            match_wf(*old(self)),
        ensures
            match_wf(*final(self)),
            final(self).offside_status == (if !(old(self).offside_status is Offside) && old(self).config.offside_line == HQMOffsideLineConfiguration::OffensiveBlue {
                HQMOffsideStatus::Neutral
            } else {
                old(self).offside_status
            }),
            equal_but_offside(*old(self), *final(self)),
            no_goals_emitted(*old(server), *final(server)),
            server_rules_frame(*old(server), *final(server)),
            ({
                let waved = !(old(self).offside_status is Offside) && old(self).config.offside_line == HQMOffsideLineConfiguration::OffensiveBlue && (match old(self).offside_status {
                    HQMOffsideStatus::Warning(t, _, _, _) => spec_other_team(team) == t,
                    _ => false,
                });
                if waved {
                    server_chats_broadcast(
                        old(server).players@,
                        final(server).players@,
                        Option::None,
                        seq!["Offside waved off".spec_bytes()],
                    )
                } else {
                    *final(server) == *old(server)
                }
            }),
    {
        let is_offside = matches!(&self.offside_status, HQMOffsideStatus::Offside(_));
        if !is_offside && self.config.offside_line == HQMOffsideLineConfiguration::OffensiveBlue {
            let wave = match &self.offside_status {
                HQMOffsideStatus::Warning(t, _, _, _) => team.get_other_team() == *t,
                _ => false,
            };
            if wave {
                server.add_server_chat_message("Offside waved off".as_bytes_vec());
            }
            self.offside_status = HQMOffsideStatus::Neutral;
        }
    }
}

/// The opposing team.
pub open spec fn spec_other_team(t: HQMTeam) -> HQMTeam {
    match t {
        HQMTeam::Red => HQMTeam::Blue,
        HQMTeam::Blue => HQMTeam::Red,
        HQMTeam::Spec => HQMTeam::Spec,
    }
}

/// Two engine states that differ at most in the two-line pass status.
pub open spec fn equal_but_twoline(a: HQMMatch, b: HQMMatch) -> bool {
    &&& a.config == b.config
    &&& a.paused == b.paused
    &&& a.pause_timer == b.pause_timer
    &&& a.is_pause_goal == b.is_pause_goal
    &&& a.next_faceoff_spot == b.next_faceoff_spot
    &&& a.icing_status == b.icing_status
    &&& a.offside_status == b.offside_status
    &&& a.pass == b.pass
    &&& a.preferred_positions == b.preferred_positions
    &&& a.started_as_goalie == b.started_as_goalie
    &&& a.faceoff_game_step == b.faceoff_game_step
    &&& a.step_where_period_ended == b.step_where_period_ended
    &&& a.too_late_printed_this_period == b.too_late_printed_this_period
    &&& a.start_next_replay == b.start_next_replay
    &&& a.puck_touches == b.puck_touches
}

/// Two engine states that differ at most in the offside status.
pub open spec fn equal_but_offside(a: HQMMatch, b: HQMMatch) -> bool {
    &&& a.config == b.config
    &&& a.paused == b.paused
    &&& a.pause_timer == b.pause_timer
    &&& a.is_pause_goal == b.is_pause_goal
    &&& a.next_faceoff_spot == b.next_faceoff_spot
    &&& a.icing_status == b.icing_status
    &&& a.twoline_pass_status == b.twoline_pass_status
    &&& a.pass == b.pass
    &&& a.preferred_positions == b.preferred_positions
    &&& a.started_as_goalie == b.started_as_goalie
    &&& a.faceoff_game_step == b.faceoff_game_step
    &&& a.step_where_period_ended == b.step_where_period_ended
    &&& a.too_late_printed_this_period == b.too_late_printed_this_period
    &&& a.start_next_replay == b.start_next_replay
    &&& a.puck_touches == b.puck_touches
}



/// Two engine states that differ at most in the offside status, the pause
/// timer and the pending faceoff spot (what calling offside changes).
pub open spec fn equal_but_offside_call(a: HQMMatch, b: HQMMatch) -> bool {
    &&& a.config == b.config
    &&& a.paused == b.paused
    &&& a.is_pause_goal == b.is_pause_goal
    &&& a.icing_status == b.icing_status
    &&& a.twoline_pass_status == b.twoline_pass_status
    &&& a.pass == b.pass
    &&& a.preferred_positions == b.preferred_positions
    &&& a.started_as_goalie == b.started_as_goalie
    &&& a.faceoff_game_step == b.faceoff_game_step
    &&& a.step_where_period_ended == b.step_where_period_ended
    &&& a.too_late_printed_this_period == b.too_late_printed_this_period
    &&& a.start_next_replay == b.start_next_replay
    &&& a.puck_touches == b.puck_touches
}

/// Chaining two no-goal, rules-frame steps yields one.
pub proof fn lemma_rules_step_trans(a: HQMServer, b: HQMServer, c: HQMServer)
    requires
        no_goals_emitted(a, b),
        server_rules_frame(a, b),
        no_goals_emitted(b, c),
        server_rules_frame(b, c),
    ensures
        no_goals_emitted(a, c),
        server_rules_frame(a, c),
{
    assert forall|t: HQMTeam, i: int|
        0 <= i < a.players@.len() && a.players@[i] is Some implies #[trigger] crate::game::no_goal_msg_added(
        a.players@[i].unwrap().messages@,
        c.players@[i].unwrap().messages@,
        t,
    ) by {
        assert(crate::game::no_goal_msg_added(
            a.players@[i].unwrap().messages@,
            b.players@[i].unwrap().messages@,
            t,
        ));
        assert(crate::game::no_goal_msg_added(
            b.players@[i].unwrap().messages@,
            c.players@[i].unwrap().messages@,
            t,
        ));
    }
    assert forall|i: int|
        0 <= i < a.players@.len() && a.players@[i] is Some implies crate::server::equal_but_messages(
        (#[trigger] a.players@[i]).unwrap(),
        c.players@[i].unwrap(),
    ) by {
        assert(crate::server::equal_but_messages(a.players@[i].unwrap(), b.players@[i].unwrap()));
        assert(crate::server::equal_but_messages(b.players@[i].unwrap(), c.players@[i].unwrap()));
    }
}

/// Which side of the rink a puck position falls on.
pub open spec fn spec_touch_side(x_cm: u32, rink: crate::spots::HQMRink) -> HQMRinkSide {
    if x_cm <= (rink.width_cm / 2) as u32 {
        HQMRinkSide::Left
    } else {
        HQMRinkSide::Right
    }
}

/// The players of `team` other than `ignore` whose feet are past the given
/// line, in slot order, scanning at or after `i`.
pub open spec fn spec_players_past_line(
    server: HQMServer,
    team: HQMTeam,
    line: crate::server::HQMLineKind,
    ignore: HQMServerPlayerIndex,
    i: int,
) -> Seq<HQMServerPlayerIndex>
    decreases server.players@.len() - i,
{
    if i < 0 || i >= server.players@.len() {
        Seq::empty()
    } else {
        let rest = spec_players_past_line(server, team, line, ignore, i + 1);
        if HQMServerPlayerIndex(i as usize) != ignore && server.players@[i] is Some
            && crate::server::spec_is_past_line(server, server.players@[i].unwrap(), team, line) {
            seq![HQMServerPlayerIndex(i as usize)] + rest
        } else {
            rest
        }
    }
}

fn players_past_line_from(
    server: &HQMServer,
    team: HQMTeam,
    line: crate::server::HQMLineKind,
    ignore: HQMServerPlayerIndex,
    i: usize,
) -> (r: Vec<HQMServerPlayerIndex>)
    requires
        i <= server.players@.len(),
    ensures
        r@ == spec_players_past_line(*server, team, line, ignore, i as int),
    decreases server.players@.len() - i,
{
    if i >= server.players.len() {
        Vec::new()
    } else {
        let here = if HQMServerPlayerIndex(i) != ignore {
            match &server.players[i] {
                Some(p) => crate::server::is_past_line(server, p, team, line),
                None => false,
            }
        } else {
            false
        };
        let rest = players_past_line_from(server, team, line, ignore, i + 1);
        if here {
            let mut v: Vec<HQMServerPlayerIndex> = Vec::new();
            v.push(HQMServerPlayerIndex(i));
            let mut k: usize = 0;
            while k < rest.len()
                invariant
                    k <= rest@.len(),
                    v@.len() == k + 1,
                    v@[0] == HQMServerPlayerIndex(i as usize),
                    forall|j: int| 0 <= j < k ==> v@[j + 1] == rest@[j],
                decreases rest@.len() - k,
            {
                v.push(rest[k]);
                k += 1;
            }
            assert(v@ =~= seq![HQMServerPlayerIndex(i as usize)] + rest@);
            v
        } else {
            rest
        }
    }
}

impl HQMMatch {
    /// Collect the players of `team`, other than the passer, past the
    /// relevant line; if any, raise the two-line pass warning.
    pub fn check_twoline_pass(
        &mut self,
        server: &mut HQMServer,
        team: HQMTeam,
        side: HQMRinkSide,
        from: HQMPassPosition,
        pass_player: HQMServerPlayerIndex,
        is_offensive_line: bool,
    )
        requires
            match_wf(*old(self)),
        ensures
            match_wf(*final(self)),
            ({
                let line = if is_offensive_line {
                    crate::server::HQMLineKind::Offensive
                } else {
                    crate::server::HQMLineKind::Mid
                };
                let offenders = spec_players_past_line(*old(server), team, line, pass_player, 0);
                if offenders.len() > 0 {
                    match final(self).twoline_pass_status {
                        HQMTwoLinePassStatus::Warning(t, s, f, ref list) => t == team && s == side
                            && f == from && list@ == offenders,
                        _ => false,
                    }
                } else {
                    final(self).twoline_pass_status == old(self).twoline_pass_status
                }
            }),
            ({
                let line = if is_offensive_line {
                    crate::server::HQMLineKind::Offensive
                } else {
                    crate::server::HQMLineKind::Mid
                };
                let offenders = spec_players_past_line(*old(server), team, line, pass_player, 0);
                if offenders.len() > 0 {
                    server_chats_broadcast(
                        old(server).players@,
                        final(server).players@,
                        Option::None,
                        seq!["Two-line pass warning".spec_bytes()],
                    )
                } else {
                    *final(server) == *old(server)
                }
            }),
            equal_but_twoline(*old(self), *final(self)),
            no_goals_emitted(*old(server), *final(server)),
            server_rules_frame(*old(server), *final(server)),
    {
        let line = if is_offensive_line {
            crate::server::HQMLineKind::Offensive
        } else {
            crate::server::HQMLineKind::Mid
        };
        let players_past_line = players_past_line_from(server, team, line, pass_player, 0);
        if players_past_line.len() > 0 {
            self.twoline_pass_status = HQMTwoLinePassStatus::Warning(
                team,
                side,
                from,
                players_past_line,
            );
            server.add_server_chat_message("Two-line pass warning".as_bytes_vec());
        }
    }

    /// The puck has entered the offside zone for `team`: raise or call
    /// offside when the pass came from that team and a team-mate of the
    /// passer is already past the line, else just note the puck's zone.
    pub fn puck_into_offside_zone(&mut self, server: &mut HQMServer, team: HQMTeam)
        requires
            match_wf(*old(self)),
        ensures
            match_wf(*final(self)),
            old(self).offside_status == HQMOffsideStatus::InOffensiveZone(team) ==> *final(self)
                == *old(self) && no_goals_emitted(*old(server), *final(server))
                && server_rules_frame(*old(server), *final(server)),
            old(self).offside_status != HQMOffsideStatus::InOffensiveZone(team) ==> ({
                let trigger_pass = match old(self).pass {
                    Some(p) => p.team == team && spec_has_players_in_offensive_zone_from(
                        *old(server),
                        team,
                        Some(p.player),
                        0,
                    ),
                    None => false,
                };
                &&& !trigger_pass ==> final(self).offside_status
                    == HQMOffsideStatus::InOffensiveZone(team) && equal_but_offside(
                    *old(self),
                    *final(self),
                ) && *final(server) == *old(server)
                &&& trigger_pass ==> ({
                    let p = old(self).pass.unwrap();
                    match old(self).config.offside {
                        HQMOffsideConfiguration::Delayed => final(self).offside_status
                            == HQMOffsideStatus::Warning(team, p.side, p.from, p.player)
                            && equal_but_offside(*old(self), *final(self)) && no_goals_emitted(
                            *old(server),
                            *final(server),
                        ) && server_rules_frame(*old(server), *final(server))
                            && server_chats_broadcast(
                            old(server).players@,
                            final(server).players@,
                            Option::None,
                            seq!["Offside warning".spec_bytes()],
                        ),
                        HQMOffsideConfiguration::Immediate => final(self).offside_status
                            == HQMOffsideStatus::Offside(team) && final(self).pause_timer
                            == spec_time_break(old(self).config) && final(self).next_faceoff_spot
                            == (match p.from {
                            Some(f) => spec_rule_faceoff_spot(team, p.side, f),
                            None => HQMRinkFaceoffSpot::Center,
                        }) && equal_but_offside_call(*old(self), *final(self))
                            && no_goals_emitted(*old(server), *final(server))
                            && server_rules_frame(*old(server), *final(server))
                            && server_chats_broadcast(
                            old(server).players@,
                            final(server).players@,
                            Option::None,
                            seq!["Offside".spec_bytes()],
                        ),
                        HQMOffsideConfiguration::Off => final(self).offside_status
                            == HQMOffsideStatus::InOffensiveZone(team) && equal_but_offside(
                            *old(self),
                            *final(self),
                        ) && *final(server) == *old(server),
                    }
                })
            }),
    {
        if self.offside_status == HQMOffsideStatus::InOffensiveZone(team) {
            return ;
        }
        let pass_info = match &self.pass {
            Some(p) => Some((p.team, p.side, p.from, p.player)),
            None => None,
        };
        if let Some((pass_team, side, transition, player)) = pass_info {
            if pass_team == team && crate::server::has_players_in_offensive_zone(
                server,
                team,
                Some(player),
            ) {
                match self.config.offside {
                    HQMOffsideConfiguration::Delayed => {
                        self.offside_status = HQMOffsideStatus::Warning(
                            team,
                            side,
                            transition,
                            player,
                        );
                        server.add_server_chat_message("Offside warning".as_bytes_vec());
                    },
                    HQMOffsideConfiguration::Immediate => {
                        self.call_offside(server, team, side, transition, false);
                    },
                    HQMOffsideConfiguration::Off => {
                        self.offside_status = HQMOffsideStatus::InOffensiveZone(team);
                    },
                }
            } else {
                self.offside_status = HQMOffsideStatus::InOffensiveZone(team);
            }
        } else {
            self.offside_status = HQMOffsideStatus::InOffensiveZone(team);
        }
    }

    /// The puck crossed the centre line towards `team`'s offensive half:
    /// run the centre-line offside check and the regular two-line check.
    pub fn handle_puck_entered_offensive_half(&mut self, server: &mut HQMServer, team: HQMTeam)
        requires
            match_wf(*old(self)),
        ensures
            match_wf(*final(self)),
            no_goals_emitted(*old(server), *final(server)),
            server_rules_frame(*old(server), *final(server)),
            final(self).icing_status == old(self).icing_status,
            final(self).pass == old(self).pass,
            final(self).puck_touches == old(self).puck_touches,
            final(self).config == old(self).config,
            final(self).paused == old(self).paused,
            final(self).started_as_goalie == old(self).started_as_goalie,
            final(self).preferred_positions == old(self).preferred_positions,
            final(self).pause_timer == old(self).pause_timer || final(self).pause_timer % 100
                == 0,
    {
        let is_offside = matches!(&self.offside_status, HQMOffsideStatus::Offside(_));
        if !is_offside && self.config.offside_line == HQMOffsideLineConfiguration::Center {
            self.puck_into_offside_zone(server, team);
        }
        let ghost mid1 = *server;
        proof {
            lemma_rules_step_trans(*old(server), mid1, mid1);
        }
        let waved = match &self.offside_status {
            HQMOffsideStatus::Warning(warning_team, _, _, _) => *warning_team != team,
            _ => false,
        };
        if waved {
            server.add_server_chat_message("Offside waved off".as_bytes_vec());
        }
        let ghost mid2 = *server;
        proof {
            lemma_rules_step_trans(*old(server), mid1, mid2);
        }
        let pass_info = match &self.pass {
            Some(p) => match p.from {
                Some(from) => Some((p.team, p.side, from, p.player)),
                None => None,
            },
            None => None,
        };
        if let Some((pass_team, side, from, pass_player)) = pass_info {
            if matches!(&self.twoline_pass_status, HQMTwoLinePassStatus::No) && pass_team == team {
                let is_regular_twoline_pass_active = self.config.twoline_pass
                    == HQMTwoLinePassConfiguration::Double || self.config.twoline_pass
                    == HQMTwoLinePassConfiguration::On;
                if from.le(HQMPassPosition::ReachedOwnBlue) && is_regular_twoline_pass_active {
                    self.check_twoline_pass(server, team, side, from, pass_player, false);
                    proof {
                        lemma_rules_step_trans(*old(server), mid2, *server);
                    }
                }
            }
        }
    }

    /// The puck entered `team`'s offensive zone: run the blue-line offside
    /// check and the forward and three-line two-line checks.
    pub fn handle_puck_entered_offensive_zone(&mut self, server: &mut HQMServer, team: HQMTeam)
        requires
            match_wf(*old(self)),
        ensures
            match_wf(*final(self)),
            no_goals_emitted(*old(server), *final(server)),
            server_rules_frame(*old(server), *final(server)),
            final(self).icing_status == old(self).icing_status,
            final(self).pass == old(self).pass,
            final(self).puck_touches == old(self).puck_touches,
            final(self).config == old(self).config,
            final(self).paused == old(self).paused,
            final(self).started_as_goalie == old(self).started_as_goalie,
            final(self).preferred_positions == old(self).preferred_positions,
            final(self).pause_timer == old(self).pause_timer || final(self).pause_timer % 100
                == 0,
    {
        let is_offside = matches!(&self.offside_status, HQMOffsideStatus::Offside(_));
        if !is_offside && self.config.offside_line == HQMOffsideLineConfiguration::OffensiveBlue {
            self.puck_into_offside_zone(server, team);
        }
        let ghost mid2 = *server;
        proof {
            lemma_rules_step_trans(*old(server), mid2, mid2);
        }
        let pass_info = match &self.pass {
            Some(p) => match p.from {
                Some(from) => Some((p.team, p.side, from, p.player)),
                None => None,
            },
            None => None,
        };
        if let Some((pass_team, side, from, pass_player)) = pass_info {
            if matches!(&self.twoline_pass_status, HQMTwoLinePassStatus::No) && pass_team == team {
                let is_forward_twoline_pass_active = self.config.twoline_pass
                    == HQMTwoLinePassConfiguration::Double || self.config.twoline_pass
                    == HQMTwoLinePassConfiguration::Forward;
                let is_threeline_pass_active = self.config.twoline_pass
                    == HQMTwoLinePassConfiguration::ThreeLine;
                if (from.le(HQMPassPosition::ReachedCenter) && is_forward_twoline_pass_active) || (
                from.le(HQMPassPosition::ReachedOwnBlue) && is_threeline_pass_active) {
                    self.check_twoline_pass(server, team, side, from, pass_player, true);
                    proof {
                        lemma_rules_step_trans(*old(server), mid2, *server);
                    }
                }
            }
        }
    }

    /// The puck crossed the goal line at the far end for `team`: with a
    /// pass from behind centre by the same team this is icing (a warning
    /// in touch mode, called immediately in no-touch mode).
    pub fn handle_puck_passed_goal_line(&mut self, server: &mut HQMServer, team: HQMTeam)
        requires
            match_wf(*old(self)),
        ensures
            match_wf(*final(self)),
            ({
                let applies = match old(self).pass {
                    Some(p) => match p.from {
                        Some(transition) => p.team == team && pass_position_le(
                            transition,
                            HQMPassPosition::ReachedCenter,
                        ),
                        None => false,
                    },
                    None => false,
                };
                if applies {
                    let side = old(self).pass.unwrap().side;
                    match old(self).config.icing {
                        HQMIcingConfiguration::Touch => final(self).icing_status
                            == HQMIcingStatus::Warning(team, side) && final(self).pause_timer
                            == old(self).pause_timer && final(self).next_faceoff_spot == old(self).next_faceoff_spot
                            && server_chats_broadcast(
                            old(server).players@,
                            final(server).players@,
                            Option::None,
                            seq!["Icing warning".spec_bytes()],
                        ),
                        HQMIcingConfiguration::NoTouch => final(self).icing_status
                            == HQMIcingStatus::Icing(team) && final(self).pause_timer
                            == spec_time_break(old(self).config) && final(self).next_faceoff_spot
                            == HQMRinkFaceoffSpot::DefensiveZone(team, side)
                            && server_chats_broadcast(
                            old(server).players@,
                            final(server).players@,
                            Option::None,
                            seq!["Icing".spec_bytes()],
                        ),
                        HQMIcingConfiguration::Off => final(self).icing_status == old(self).icing_status && final(self).pause_timer == old(self).pause_timer
                            && final(self).next_faceoff_spot == old(self).next_faceoff_spot
                            && *final(server) == *old(server),
                    }
                } else {
                    final(self).icing_status == old(self).icing_status && final(self).pause_timer
                        == old(self).pause_timer && final(self).next_faceoff_spot == old(self).next_faceoff_spot
                        && *final(server) == *old(server)
                }
            }),
            final(self).offside_status == old(self).offside_status,
            final(self).twoline_pass_status == old(self).twoline_pass_status,
            final(self).pass == old(self).pass,
            final(self).config == old(self).config,
            final(self).paused == old(self).paused,
            final(self).puck_touches == old(self).puck_touches,
            final(self).started_as_goalie == old(self).started_as_goalie,
            final(self).preferred_positions == old(self).preferred_positions,
            no_goals_emitted(*old(server), *final(server)),
            server_rules_frame(*old(server), *final(server)),
    {
        let pass_info = match &self.pass {
            Some(p) => match p.from {
                Some(transition) => Some((p.team, p.side, transition)),
                None => None,
            },
            None => None,
        };
        if let Some((icing_team, side, transition)) = pass_info {
            if team == icing_team && transition.le(HQMPassPosition::ReachedCenter) {
                match self.config.icing {
                    HQMIcingConfiguration::Touch => {
                        self.icing_status = HQMIcingStatus::Warning(team, side);
                        server.add_server_chat_message("Icing warning".as_bytes_vec());
                    },
                    HQMIcingConfiguration::NoTouch => {
                        self.call_icing(server, team, side);
                    },
                    HQMIcingConfiguration::Off => {},
                }
            }
        }
    }
}


/// The decimal digits of a number, most significant first.
pub open spec fn dec_digits(n: nat) -> Seq<u8>
    decreases n,
{
    if n < 10 {
        seq![(48 + n) as u8]
    } else {
        dec_digits(n / 10).push((48 + n % 10) as u8)
    }
}

/// Append the decimal digits of `n`.
pub fn push_decimal(v: &mut Vec<u8>, n: u64)
    ensures
        final(v)@ == old(v)@.add(dec_digits(n as nat)),
    decreases n,
{
    if n < 10 {
        v.push(48 + n as u8);
        assert(v@ =~= old(v)@.add(dec_digits(n as nat)));
    } else {
        push_decimal(v, n / 10);
        v.push(48 + (n % 10) as u8);
        assert(v@ =~= old(v)@.add(dec_digits(n as nat)));
    }
}

/// A two-digit zero-padded number below 100.
pub open spec fn two_digits(n: nat) -> Seq<u8> {
    seq![(48 + n / 10) as u8, (48 + n % 10) as u8]
}

/// A clock remainder as text: "S.CC" where `time` is in centiseconds.
pub open spec fn clock_text(time: u32) -> Seq<u8> {
    dec_digits((time / 100) as nat) + seq![46u8] + two_digits((time % 100) as nat)
}

/// Build "S.CC" followed by a phrase.
pub fn clock_message(time: u32, suffix: &str) -> (r: Vec<u8>)
    ensures
        r@ == clock_text(time).add(suffix.spec_bytes()),
{
    let mut v: Vec<u8> = Vec::new();
    push_decimal(&mut v, (time / 100) as u64);
    v.push(46);
    let centi = time % 100;
    v.push(48 + (centi / 10) as u8);
    v.push(48 + (centi % 10) as u8);
    assert(v@ =~= clock_text(time));
    let sb = suffix.as_bytes();
    let mut i: usize = 0;
    while i < sb.len()
        invariant
            i <= sb@.len(),
            v@ =~= clock_text(time).add(sb@.take(i as int)),
            sb@ == suffix.spec_bytes(),
        decreases sb@.len() - i,
    {
        v.push(sb[i]);
        i += 1;
    }
    assert(v@ =~= clock_text(time).add(suffix.spec_bytes()));
    v
}

/// A puck speed in tenths of the configured display unit. The simulation
/// reports speeds in millimetres per tick; one metre per tick is 223.693
/// miles per hour or 360 kilometres per hour.
pub open spec fn speed_tenths(v_mm: u32, use_mph: bool) -> u64 {
    if use_mph {
        ((v_mm as int) * 223693 / 100000) as u64
    } else {
        ((v_mm as int) * 36 / 10) as u64
    }
}

/// The display unit's name.
pub open spec fn unit_text(use_mph: bool) -> Seq<u8> {
    if use_mph {
        "mph".spec_bytes()
    } else {
        "km/h".spec_bytes()
    }
}

/// A speed as "T.U" in tenths of a unit.
pub open spec fn speed_text(tenths: u64) -> Seq<u8> {
    dec_digits((tenths / 10) as nat) + seq![46u8] + seq![(48 + tenths % 10) as u8]
}

/// The goal announcement: the speed across the line, and when a scorer is
/// known the speed the puck left their stick with.
pub open spec fn goal_message_text(
    speed_across_tenths: u64,
    from_stick_tenths: Option<u64>,
    use_mph: bool,
) -> Seq<u8> {
    let head = "Goal scored, ".spec_bytes() + speed_text(speed_across_tenths) + seq![32u8]
        + unit_text(use_mph) + " across line".spec_bytes();
    match from_stick_tenths {
        Some(t) => head + ", ".spec_bytes() + speed_text(t) + seq![32u8] + unit_text(use_mph)
            + " from stick".spec_bytes(),
        None => head,
    }
}

/// Convert a speed in millimetres per tick to display tenths.
pub fn convert_speed(v_mm: u32, use_mph: bool) -> (r: u64)
    ensures
        r == speed_tenths(v_mm, use_mph),
{
    if use_mph {
        (v_mm as u64) * 223693 / 100000
    } else {
        (v_mm as u64) * 36 / 10
    }
}

fn push_str_bytes_loop(v: &mut Vec<u8>, s: &str)
    ensures
        final(v)@ == old(v)@.add(s.spec_bytes()),
{
    let sb = s.as_bytes();
    let mut i: usize = 0;
    while i < sb.len()
        invariant
            i <= sb@.len(),
            v@ =~= old(v)@.add(sb@.take(i as int)),
            sb@ == s.spec_bytes(),
        decreases sb@.len() - i,
    {
        v.push(sb[i]);
        i += 1;
    }
    assert(v@ =~= old(v)@.add(s.spec_bytes()));
}

fn push_speed_text(v: &mut Vec<u8>, tenths: u64)
    ensures
        final(v)@ == old(v)@.add(speed_text(tenths)),
{
    push_decimal(v, tenths / 10);
    v.push(46);
    v.push(48 + (tenths % 10) as u8);
    assert(v@ =~= old(v)@.add(speed_text(tenths)));
}

/// Build the goal announcement text.
pub fn goal_message(speed_across_tenths: u64, from_stick_tenths: Option<u64>, use_mph: bool) -> (r:
    Vec<u8>)
    ensures
        r@ == goal_message_text(speed_across_tenths, from_stick_tenths, use_mph),
{
    let mut v: Vec<u8> = Vec::new();
    push_str_bytes_loop(&mut v, "Goal scored, ");
    push_speed_text(&mut v, speed_across_tenths);
    v.push(32);
    if use_mph {
        push_str_bytes_loop(&mut v, "mph");
    } else {
        push_str_bytes_loop(&mut v, "km/h");
    }
    push_str_bytes_loop(&mut v, " across line");
    match from_stick_tenths {
        Some(t) => {
            push_str_bytes_loop(&mut v, ", ");
            push_speed_text(&mut v, t);
            v.push(32);
            if use_mph {
                push_str_bytes_loop(&mut v, "mph");
            } else {
                push_str_bytes_loop(&mut v, "km/h");
            }
            push_str_bytes_loop(&mut v, " from stick");
            assert(v@ =~= goal_message_text(speed_across_tenths, from_stick_tenths, use_mph));
        },
        None => {
            assert(v@ =~= goal_message_text(speed_across_tenths, from_stick_tenths, use_mph));
        },
    }
    v
}

/// Whether the game is over for the given scores and period: regulation
/// finished with a lead, a mercy-rule gap, or a first-to score reached.
pub open spec fn spec_game_over(
    cfg: HQMMatchConfiguration,
    period: u32,
    red_score: u32,
    blue_score: u32,
) -> bool {
    ||| (period > cfg.periods && red_score != blue_score)
    ||| (cfg.mercy > 0 && (sat_sub_u32(red_score, blue_score) >= cfg.mercy || sat_sub_u32(
        blue_score,
        red_score,
    ) >= cfg.mercy))
    ||| (cfg.first_to > 0 && (red_score >= cfg.first_to || blue_score >= cfg.first_to))
}

/// Saturating subtraction.
pub open spec fn sat_sub_u32(a: u32, b: u32) -> u32 {
    if a >= b {
        (a - b) as u32
    } else {
        0
    }
}

/// A finished game stays finished when only the period advances.
pub proof fn lemma_game_over_monotone_period(
    cfg: HQMMatchConfiguration,
    p1: u32,
    p2: u32,
    red: u32,
    blue: u32,
)
    requires
        spec_game_over(cfg, p1, red, blue),
        p2 >= p1,
    ensures
        spec_game_over(cfg, p2, red, blue),
{
}

impl HQMMatch {
    /// Re-evaluate whether the game is over; on the transition the pause
    /// timer is stretched to the intermission (game just ended) or the
    /// break (game resumed).
    pub fn update_game_over(&mut self, server: &mut HQMServer)
        requires
            match_wf(*old(self)),
        ensures
            match_wf(*final(self)),
            final(server).game.game_over == spec_game_over(
                old(self).config,
                old(server).game.period,
                old(server).game.red_score,
                old(server).game.blue_score,
            ),
            final(self).pause_timer == ({
                let was = old(server).game.game_over;
                let now = spec_game_over(
                    old(self).config,
                    old(server).game.period,
                    old(server).game.red_score,
                    old(server).game.blue_score,
                );
                if now && !was {
                    if old(self).pause_timer >= spec_time_intermission(old(self).config) {
                        old(self).pause_timer
                    } else {
                        spec_time_intermission(old(self).config)
                    }
                } else if !now && was {
                    if old(self).pause_timer >= spec_time_break(old(self).config) {
                        old(self).pause_timer
                    } else {
                        spec_time_break(old(self).config)
                    }
                } else {
                    old(self).pause_timer
                }
            }),
            equal_but_pause_timer(*old(self), *final(self)),
            final(server).players@ == old(server).players@,
            final(server).game.red_score == old(server).game.red_score,
            final(server).game.blue_score == old(server).game.blue_score,
            final(server).game.time == old(server).game.time,
            final(server).game.period == old(server).game.period,
            final(server).game.game_id == old(server).game.game_id,
            final(server).game.game_step == old(server).game.game_step,
            final(server).game.world == old(server).game.world,
            final(server).game.global_messages == old(server).game.global_messages,
            final(server).game_alloc == old(server).game_alloc,
            final(server).config == old(server).config,
            final(server).game.rules_state == old(server).game.rules_state,
    {
        let time_gameover = self.config.time_intermission * 100;
        let time_break = self.config.time_break * 100;

        let red_score = server.game.red_score;
        let blue_score = server.game.blue_score;
        let old_game_over = server.game.game_over;
        let first = server.game.period > self.config.periods && red_score != blue_score;
        let red_lead = if red_score >= blue_score {
            red_score - blue_score
        } else {
            0
        };
        let blue_lead = if blue_score >= red_score {
            blue_score - red_score
        } else {
            0
        };
        let second = self.config.mercy > 0 && (red_lead >= self.config.mercy || blue_lead
            >= self.config.mercy);
        let third = self.config.first_to > 0 && (red_score >= self.config.first_to || blue_score
            >= self.config.first_to);
        server.game.game_over = first || second || third;
        if server.game.game_over && !old_game_over {
            if self.pause_timer < time_gameover {
                self.pause_timer = time_gameover;
            }
        } else if !server.game.game_over && old_game_over {
            if self.pause_timer < time_break {
                self.pause_timer = time_break;
            }
        }
    }
}

/// Two engine states that differ at most in the pause timer.
pub open spec fn equal_but_pause_timer(a: HQMMatch, b: HQMMatch) -> bool {
    &&& a.config == b.config
    &&& a.paused == b.paused
    &&& a.is_pause_goal == b.is_pause_goal
    &&& a.next_faceoff_spot == b.next_faceoff_spot
    &&& a.icing_status == b.icing_status
    &&& a.offside_status == b.offside_status
    &&& a.twoline_pass_status == b.twoline_pass_status
    &&& a.pass == b.pass
    &&& a.preferred_positions == b.preferred_positions
    &&& a.started_as_goalie == b.started_as_goalie
    &&& a.faceoff_game_step == b.faceoff_game_step
    &&& a.step_where_period_ended == b.step_where_period_ended
    &&& a.too_late_printed_this_period == b.too_late_printed_this_period
    &&& a.start_next_replay == b.start_next_replay
    &&& a.puck_touches == b.puck_touches
}



/// Where a goal replay starts: up to six seconds back, but never before
/// the faceoff.
pub open spec fn spec_replay_start(faceoff_step: u32, game_step: u32) -> u32 {
    if faceoff_step >= sat_sub_u32(game_step, 600) {
        faceoff_step
    } else {
        sat_sub_u32(game_step, 600)
    }
}

/// The chat lines a goal produces: the goal text with its converted
/// speeds, and the remaining time when under ten seconds.
pub open spec fn spec_goal_texts(
    speed_across_line: u32,
    from_stick: Option<u32>,
    use_mph: bool,
    time: u32,
) -> Seq<Seq<u8>> {
    let head = goal_message_text(
        speed_tenths(speed_across_line, use_mph),
        match from_stick {
            Some(v) => Some(speed_tenths(v, use_mph)),
            None => None,
        },
        use_mph,
    );
    if time < 1000 {
        seq![head] + seq![clock_text(time) + " seconds left".spec_bytes()]
    } else {
        seq![head]
    }
}

/// Every session saw the goal: its queue grew by the goal announcement
/// followed by the given chat lines, and nothing else about it changed.
pub open spec fn goal_broadcast(
    a: Seq<Option<crate::server::HQMConnectedPlayer>>,
    b: Seq<Option<crate::server::HQMConnectedPlayer>>,
    team: HQMTeam,
    goal: Option<HQMServerPlayerIndex>,
    assist: Option<HQMServerPlayerIndex>,
    texts: Seq<Seq<u8>>,
) -> bool {
    &&& a.len() == b.len()
    &&& forall|i: int| 0 <= i < a.len() ==> ((#[trigger] b[i]) is Some <==> a[i] is Some)
    &&& forall|i: int|
        0 <= i < a.len() && a[i] is Some ==> {
            let ma = (#[trigger] a[i]).unwrap().messages@;
            let mb = b[i].unwrap().messages@;
            &&& mb.len() == ma.len() + 1 + texts.len()
            &&& (forall|j: int| 0 <= j < ma.len() ==> mb[j] == ma[j])
            &&& crate::game::is_goal_announcement(mb[ma.len() as int], team, goal, assist)
            &&& (forall|k: int|
                0 <= k < texts.len() ==> crate::game::is_chat_line(
                    #[trigger] mb[ma.len() + 1 + k],
                    Option::None,
                    texts[k],
                ))
            &&& crate::server::equal_but_messages(a[i].unwrap(), b[i].unwrap())
        }
}

/// A goal announcement followed by a chat broadcast is a goal broadcast.
proof fn lemma_goal_broadcast_build(
    a: Seq<Option<crate::server::HQMConnectedPlayer>>,
    b: Seq<Option<crate::server::HQMConnectedPlayer>>,
    c: Seq<Option<crate::server::HQMConnectedPlayer>>,
    team: HQMTeam,
    goal: Option<HQMServerPlayerIndex>,
    assist: Option<HQMServerPlayerIndex>,
    texts: Seq<Seq<u8>>,
)
    requires
        a.len() == b.len(),
        forall|i: int| 0 <= i < a.len() ==> ((#[trigger] b[i]) is Some <==> a[i] is Some),
        forall|i: int|
            0 <= i < a.len() && a[i] is Some ==> {
                let ma = (#[trigger] a[i]).unwrap().messages@;
                let mb = b[i].unwrap().messages@;
                &&& mb.len() == ma.len() + 1
                &&& (forall|j: int| 0 <= j < ma.len() ==> mb[j] == ma[j])
                &&& crate::game::is_goal_announcement(mb.last(), team, goal, assist)
                &&& crate::server::equal_but_messages(a[i].unwrap(), b[i].unwrap())
            },
        server_chats_broadcast(b, c, Option::None, texts),
    ensures
        goal_broadcast(a, c, team, goal, assist, texts),
{
    assert forall|i: int| 0 <= i < a.len() && a[i] is Some implies {
        let ma = (#[trigger] a[i]).unwrap().messages@;
        let mb = c[i].unwrap().messages@;
        &&& mb.len() == ma.len() + 1 + texts.len()
        &&& (forall|j: int| 0 <= j < ma.len() ==> mb[j] == ma[j])
        &&& crate::game::is_goal_announcement(mb[ma.len() as int], team, goal, assist)
        &&& (forall|k: int|
            0 <= k < texts.len() ==> crate::game::is_chat_line(
                #[trigger] mb[ma.len() + 1 + k],
                Option::None,
                texts[k],
            ))
        &&& crate::server::equal_but_messages(a[i].unwrap(), c[i].unwrap())
    } by {
        let ma = a[i].unwrap().messages@;
        let mid = b[i].unwrap().messages@;
        let mb = c[i].unwrap().messages@;
        assert(crate::game::chats_appended(mid, mb, Option::None, texts));
        assert(crate::game::is_goal_announcement(mid.last(), team, goal, assist));
        assert(mb[ma.len() as int] == mid[ma.len() as int]);
        assert forall|k: int|
            0 <= k < texts.len() implies crate::game::is_chat_line(
            #[trigger] mb[ma.len() + 1 + k],
            Option::None,
            texts[k],
        ) by {
            assert(crate::game::is_chat_line(mb[mid.len() + k], Option::None, texts[k]));
        }
        assert(crate::server::equal_but_messages(a[i].unwrap(), b[i].unwrap()));
        assert(crate::server::equal_but_messages(b[i].unwrap(), c[i].unwrap()));
    }
}

/// Whether the batch holds a net entry.
pub open spec fn has_net_event(events: Seq<HQMSimulationEvent>) -> bool {
    exists|i: int| 0 <= i < events.len() && (#[trigger] events[i]) is PuckEnteredNet
}

/// A score after one more goal.
pub open spec fn sat_inc(a: u32) -> u32 {
    if a < u32::MAX {
        (a + 1) as u32
    } else {
        a
    }
}

/// What the pause timer shows right after a goal: the break, stretched by
/// the game-over transition, and shortened (but never below four seconds)
/// when a replay is about to play.
pub open spec fn spec_pause_after_goal(
    cfg: HQMMatchConfiguration,
    was_over: bool,
    now_over: bool,
) -> u32 {
    let base = spec_time_break(cfg);
    let stretched = if now_over && !was_over {
        if base >= spec_time_intermission(cfg) {
            base
        } else {
            spec_time_intermission(cfg)
        }
    } else {
        base
    };
    if cfg.goal_replay {
        if sat_sub_u32(stretched, 800) >= 400 {
            sat_sub_u32(stretched, 800)
        } else {
            400
        }
    } else {
        stretched
    }
}

impl HQMMatch {
    /// Award a goal to `team`: bump the score, resolve scorer and assist
    /// from the puck's touch ledger, announce the goal and the remaining
    /// time, pause for the break, re-evaluate game over, and schedule the
    /// replay when enabled.
    #[verifier::rlimit(100)]
    pub fn call_goal(
        &mut self,
        server: &mut HQMServer,
        team: HQMTeam,
        puck_index: HQMObjectIndex,
    ) -> (event: HQMMatchEvent)
        requires
            match_wf(*old(self)),
            crate::server::server_wf(*old(server)),
            team == HQMTeam::Red || team == HQMTeam::Blue,
        ensures
            match_wf(*final(self)),
            team == HQMTeam::Red ==> final(server).game.red_score == sat_inc(
                old(server).game.red_score,
            ) && final(server).game.blue_score == old(server).game.blue_score,
            team == HQMTeam::Blue ==> final(server).game.blue_score == sat_inc(
                old(server).game.blue_score,
            ) && final(server).game.red_score == old(server).game.red_score,
            final(self).next_faceoff_spot == HQMRinkFaceoffSpot::Center,
            final(self).is_pause_goal,
            final(self).pause_timer == spec_pause_after_goal(
                old(self).config,
                old(server).game.game_over,
                final(server).game.game_over,
            ),
            final(server).game.game_over == spec_game_over(
                old(self).config,
                old(server).game.period,
                final(server).game.red_score,
                final(server).game.blue_score,
            ),
            final(self).icing_status == old(self).icing_status,
            final(self).offside_status == old(self).offside_status,
            final(self).twoline_pass_status == old(self).twoline_pass_status,
            final(self).pass == old(self).pass,
            final(self).puck_touches == old(self).puck_touches,
            final(self).preferred_positions == old(self).preferred_positions,
            final(self).started_as_goalie == old(self).started_as_goalie,
            final(self).config == old(self).config,
            final(self).paused == old(self).paused,
            final(self).faceoff_game_step == old(self).faceoff_game_step,
            final(self).step_where_period_ended == old(self).step_where_period_ended,
            final(self).too_late_printed_this_period == old(self).too_late_printed_this_period,
            !old(self).config.goal_replay ==> final(self).start_next_replay == old(self).start_next_replay,
            crate::server::players_msgs_append_only(old(server).players@, final(server).players@),
            final(server).game.time == old(server).game.time,
            final(server).game.period == old(server).game.period,
            final(server).game.game_id == old(server).game.game_id,
            final(server).game.game_step == old(server).game.game_step,
            final(server).game.world == old(server).game.world,
            final(server).game_alloc == old(server).game_alloc,
            ({
                let valid = puck_index.0 < 32 && old(server).game.world.objects@[puck_index.0 as int] is Puck;
                let puck_speed = match (if puck_index.0 < 32 {
                    old(server).game.world.objects@[puck_index.0 as int]
                } else {
                    HQMGameObject::Empty
                }) {
                    HQMGameObject::Puck(p) => p.speed_mmpt,
                    _ => 0,
                };
                let touches = if puck_index.0 < 32 {
                    old(self).puck_touches@[puck_index.0 as int]@
                } else {
                    Seq::<HQMPuckTouch>::empty()
                };
                let k = crate::touch::scorer_idx_from(touches, team, 0);
                match event {
                    HQMMatchEvent::Goal {
                        team: et,
                        goal,
                        assist,
                        speed,
                        speed_across_line,
                        time,
                        period,
                    } => {
                        &&& et == team
                        &&& time == old(server).game.time
                        &&& period == old(server).game.period
                        &&& (valid ==> {
                            &&& (goal is Some <==> k >= 0)
                            &&& (k >= 0 ==> goal == Some(touches[k].player_index) && speed
                                == Some(touches[k].puck_speed) && assist
                                == crate::touch::assist_from(
                                touches,
                                team,
                                touches[k].player_index,
                                touches[k].first_time,
                                k + 1,
                            ))
                        })
                        &&& (!valid ==> goal is None && assist is None && speed is None
                            && speed_across_line == 0)
                        &&& (valid ==> speed_across_line == puck_speed)
                        &&& goal_broadcast(
                            old(server).players@,
                            final(server).players@,
                            et,
                            goal,
                            assist,
                            spec_goal_texts(
                                speed_across_line,
                                speed,
                                old(self).config.use_mph,
                                old(server).game.time,
                            ),
                        )
                        &&& (old(self).config.goal_replay ==> final(self).start_next_replay
                            == Some(
                            (
                                spec_replay_start(
                                    old(self).faceoff_game_step,
                                    old(server).game.game_step,
                                ),
                                old(server).game.game_step.wrapping_add(200),
                                if goal is Some {
                                    goal
                                } else if valid && touches.len() > 0 {
                                    Some(touches[0].player_index)
                                } else {
                                    Option::None
                                },
                            ),
                        ))
                    },
                }
            }),
    {
        let time_break = self.config.time_break * 100;

        match team {
            HQMTeam::Red => {
                if server.game.red_score < u32::MAX {
                    server.game.red_score = server.game.red_score + 1;
                }
            },
            HQMTeam::Blue => {
                if server.game.blue_score < u32::MAX {
                    server.game.blue_score = server.game.blue_score + 1;
                }
            },
            HQMTeam::Spec => {},
        }

        self.next_faceoff_spot = HQMRinkFaceoffSpot::Center;

        let puck = server.game.world.get_puck(puck_index);
        let (goal_scorer_index, assist_index, puck_speed_across_line, puck_speed_from_stick,
            last_touch): (
            Option<HQMServerPlayerIndex>,
            Option<HQMServerPlayerIndex>,
            u32,
            Option<u32>,
            Option<HQMServerPlayerIndex>,
        ) = match puck {
            Some(p) => {
                let att = crate::touch::get_goal_attribution(&self.puck_touches[puck_index.0], team);
                (
                    att.goal_scorer_index,
                    att.assist_index,
                    p.speed_mmpt,
                    att.puck_speed_from_stick,
                    att.last_touch,
                )
            },
            None => (None, None, 0, None, None),
        };

        let goal_msg = HQMMessage::Goal {
            team,
            goal_player_index: goal_scorer_index,
            assist_player_index: assist_index,
        };
        server.add_global_message(
            HQMMessage::Goal {
                team,
                goal_player_index: goal_scorer_index,
                assist_player_index: assist_index,
            },
            true,
        );
        let ghost s1 = *server;
        proof {
            assert forall|i: int|
                0 <= i < old(server).players@.len() && old(server).players@[i] is Some implies {
                let ma = (#[trigger] old(server).players@[i]).unwrap().messages@;
                let mb = s1.players@[i].unwrap().messages@;
                &&& mb.len() == ma.len() + 1
                &&& (forall|j: int| 0 <= j < ma.len() ==> mb[j] == ma[j])
                &&& crate::game::is_goal_announcement(
                    mb.last(),
                    team,
                    goal_scorer_index,
                    assist_index,
                )
                &&& crate::server::equal_but_messages(
                    old(server).players@[i].unwrap(),
                    s1.players@[i].unwrap(),
                )
            } by {
                assert(crate::game::message_eq(
                    s1.players@[i].unwrap().messages@.last(),
                    goal_msg,
                ));
            }
        }

        let across_tenths = convert_speed(puck_speed_across_line, self.config.use_mph);
        let stick_tenths = match puck_speed_from_stick {
            Some(v) => Some(convert_speed(v, self.config.use_mph)),
            None => None,
        };
        let text = goal_message(across_tenths, stick_tenths, self.config.use_mph);
        let ghost head_text = text@;
        server.add_server_chat_message(text);
        let ghost s2 = *server;

        let ghost texts = spec_goal_texts(
            puck_speed_across_line,
            puck_speed_from_stick,
            self.config.use_mph,
            server.game.time,
        );
        if server.game.time < 1000 {
            let msg = clock_message(server.game.time, " seconds left");
            server.add_server_chat_message(msg);
            proof {
                crate::server::lemma_server_chats_broadcast_trans(
                    s1.players@,
                    s2.players@,
                    server.players@,
                    Option::None,
                    seq![head_text],
                    seq![crate::engine::clock_text(server.game.time) + " seconds left".spec_bytes()],
                );
                assert(texts =~= seq![head_text] + seq![
                    crate::engine::clock_text(server.game.time) + " seconds left".spec_bytes(),
                ]);
            }
        } else {
            proof {
                assert(texts =~= seq![head_text]);
            }
        }
        proof {
            assert(crate::server::server_chats_broadcast(
                s1.players@,
                server.players@,
                Option::None,
                texts,
            ));
            lemma_goal_broadcast_build(
                old(server).players@,
                s1.players@,
                server.players@,
                team,
                goal_scorer_index,
                assist_index,
                texts,
            );
        }

        self.pause_timer = time_break;
        self.is_pause_goal = true;

        self.update_game_over(server);

        let gamestep = server.game.game_step;

        if self.config.goal_replay {
            let force_view = match goal_scorer_index {
                Some(g) => Some(g),
                None => last_touch,
            };
            let back = if gamestep >= 600 {
                gamestep - 600
            } else {
                0
            };
            let start = if self.faceoff_game_step >= back {
                self.faceoff_game_step
            } else {
                back
            };
            self.start_next_replay = Some((start, gamestep.wrapping_add(200), force_view));

            let shrunk = if self.pause_timer >= 800 {
                self.pause_timer - 800
            } else {
                0
            };
            self.pause_timer = if shrunk >= 400 {
                shrunk
            } else {
                400
            };
        }
        HQMMatchEvent::Goal {
            team,
            time: server.game.time,
            period: server.game.period,
            goal: goal_scorer_index,
            assist: assist_index,
            speed: puck_speed_from_stick,
            speed_across_line: puck_speed_across_line,
        }
    }

    /// A net entry for `team`: suppressed entirely while offside is
    /// called; converted into the offside call while `team`'s own warning
    /// is pending; otherwise a goal.
    pub fn handle_puck_entered_net(
        &mut self,
        server: &mut HQMServer,
        events: &mut Vec<HQMMatchEvent>,
        team: HQMTeam,
        puck: HQMObjectIndex,
    )
        requires
            match_wf(*old(self)),
            crate::server::server_wf(*old(server)),
            team == HQMTeam::Red || team == HQMTeam::Blue,
        ensures
            match_wf(*final(self)),
            ({
                match old(self).offside_status {
                    HQMOffsideStatus::Warning(offside_team, side, position, _) => if offside_team
                        == team {
                        &&& final(self).offside_status == HQMOffsideStatus::Offside(team)
                        &&& final(self).pause_timer == spec_time_break(old(self).config)
                        &&& final(self).next_faceoff_spot == (match position {
                            Some(p) => spec_rule_faceoff_spot(team, side, p),
                            None => HQMRinkFaceoffSpot::Center,
                        })
                        &&& final(self).icing_status == old(self).icing_status
                        &&& final(self).twoline_pass_status == old(self).twoline_pass_status
                        &&& final(self).pass == old(self).pass
                        &&& final(self).puck_touches == old(self).puck_touches
                        &&& final(self).config == old(self).config
                        &&& final(self).paused == old(self).paused
                        &&& final(events)@ == old(events)@
                        &&& no_goals_emitted(*old(server), *final(server))
                        &&& server_rules_frame(*old(server), *final(server))
                        &&& server_chats_broadcast(
                            old(server).players@,
                            final(server).players@,
                            Option::None,
                            seq!["Offside".spec_bytes()],
                        )
                    } else {
                        goal_awarded(*old(self), *final(self), *old(server), *final(server), old(events)@, final(events)@, team, puck)
                    },
                    HQMOffsideStatus::Offside(_) => {
                        &&& *final(self) == *old(self)
                        &&& *final(server) == *old(server)
                        &&& final(events)@ == old(events)@
                    },
                    _ => goal_awarded(*old(self), *final(self), *old(server), *final(server), old(events)@, final(events)@, team, puck),
                }
            }),
    {
        let warning_info = match &self.offside_status {
            HQMOffsideStatus::Warning(offside_team, side, position, _) => Some(
                (*offside_team, *side, *position),
            ),
            _ => None,
        };
        let is_offside_called = matches!(&self.offside_status, HQMOffsideStatus::Offside(_));
        if let Some((offside_team, side, position)) = warning_info {
            if offside_team == team {
                self.call_offside(server, team, side, position, false);
                return ;
            }
        }
        if is_offside_called {
            return ;
        }
        let e = self.call_goal(server, team, puck);
        events.push(e);
    }
}

/// What awarding a goal guarantees: the scoring team's score moved up by
/// one, exactly one goal event was appended, and the rule statuses were
/// left alone.
pub open spec fn goal_awarded(
    m0: HQMMatch,
    m1: HQMMatch,
    s0: HQMServer,
    s1: HQMServer,
    ev0: Seq<HQMMatchEvent>,
    ev1: Seq<HQMMatchEvent>,
    team: HQMTeam,
    puck: HQMObjectIndex,
) -> bool {
    &&& (team == HQMTeam::Red ==> s1.game.red_score == sat_inc(s0.game.red_score)
        && s1.game.blue_score == s0.game.blue_score)
    &&& (team == HQMTeam::Blue ==> s1.game.blue_score == sat_inc(s0.game.blue_score)
        && s1.game.red_score == s0.game.red_score)
    &&& m1.next_faceoff_spot == HQMRinkFaceoffSpot::Center
    &&& m1.is_pause_goal
    &&& m1.pause_timer == spec_pause_after_goal(m0.config, s0.game.game_over, s1.game.game_over)
    &&& m1.icing_status == m0.icing_status
    &&& m1.offside_status == m0.offside_status
    &&& m1.twoline_pass_status == m0.twoline_pass_status
    &&& m1.pass == m0.pass
    &&& m1.puck_touches == m0.puck_touches
    &&& m1.config == m0.config
    &&& m1.paused == m0.paused
    &&& s1.game.game_over == spec_game_over(
        m0.config,
        s0.game.period,
        s1.game.red_score,
        s1.game.blue_score,
    )
    &&& ev1.len() == ev0.len() + 1
    &&& (forall|i: int| 0 <= i < ev0.len() ==> ev1[i] == ev0[i])
    &&& (match ev1.last() {
        HQMMatchEvent::Goal { team: et, time, period, .. } => et == team && time == s0.game.time
            && period == s0.game.period,
    })
    &&& crate::server::players_msgs_append_only(s0.players@, s1.players@)
    &&& s1.game.time == s0.game.time
    &&& s1.game.period == s0.game.period
    &&& s1.game.game_id == s0.game.game_id
    &&& s1.game.game_step == s0.game.game_step
    &&& s1.game.world == s0.game.world
    &&& s1.game_alloc == s0.game_alloc
}



/// The icing stage of a puck touch while a warning is pending: an
/// opposing non-goalie touch calls the icing against the warned team (a
/// defensive-zone faceoff); a same-team or goalie touch waives it with no
/// faceoff scheduled. `prefix` carries chat lines already broadcast by
/// the two-line stage of the same touch.
pub open spec fn spec_touch_icing(
    m0: HQMMatch,
    m1: HQMMatch,
    a: Seq<Option<crate::server::HQMConnectedPlayer>>,
    b: Seq<Option<crate::server::HQMConnectedPlayer>>,
    touching_team: HQMTeam,
    player_index: HQMServerPlayerIndex,
    prefix: Seq<Seq<u8>>,
) -> bool {
    match m0.icing_status {
        HQMIcingStatus::Warning(t, s) => if touching_team != t && !list_has_player(
            m0.started_as_goalie@,
            player_index,
            0,
        ) {
            &&& m1.icing_status == HQMIcingStatus::Icing(spec_other_team(touching_team))
            &&& m1.pause_timer == spec_time_break(m0.config)
            &&& m1.next_faceoff_spot == HQMRinkFaceoffSpot::DefensiveZone(
                spec_other_team(touching_team),
                s,
            )
            &&& server_chats_broadcast(a, b, Option::None, prefix + seq!["Icing".spec_bytes()])
        } else {
            &&& m1.icing_status == HQMIcingStatus::No
            &&& m1.pause_timer == m0.pause_timer
            &&& m1.next_faceoff_spot == m0.next_faceoff_spot
            &&& server_chats_broadcast(
                a,
                b,
                Option::None,
                prefix + seq!["Icing waved off".spec_bytes()],
            )
        },
        _ => {
            &&& m1.icing_status == m0.icing_status
            &&& m1.pause_timer == m0.pause_timer
            &&& m1.next_faceoff_spot == m0.next_faceoff_spot
            &&& server_chats_broadcast(a, b, Option::None, prefix)
        },
    }
}

/// The two-line stage of a puck touch, followed by the icing stage: an
/// offender's touch calls the two-line pass (and skips icing); any other
/// touch clears a pending warning with its announcement, then the icing
/// stage runs.
pub open spec fn spec_touch_twoline_icing(
    m0: HQMMatch,
    m1: HQMMatch,
    a: Seq<Option<crate::server::HQMConnectedPlayer>>,
    b: Seq<Option<crate::server::HQMConnectedPlayer>>,
    touching_team: HQMTeam,
    player_index: HQMServerPlayerIndex,
) -> bool {
    match m0.twoline_pass_status {
        HQMTwoLinePassStatus::Warning(t, s, pos, ref list) => if t == touching_team
            && list_has_player(list@, player_index, 0) {
            &&& m1.twoline_pass_status == HQMTwoLinePassStatus::Offside(t)
            &&& m1.pause_timer == spec_time_break(m0.config)
            &&& m1.next_faceoff_spot == spec_rule_faceoff_spot(t, s, pos)
            &&& m1.icing_status == m0.icing_status
            &&& server_chats_broadcast(
                a,
                b,
                Option::None,
                seq!["Two-line pass".spec_bytes()],
            )
        } else {
            &&& m1.twoline_pass_status is No
            &&& spec_touch_icing(
                m0,
                m1,
                a,
                b,
                touching_team,
                player_index,
                seq!["Two-line pass waved off".spec_bytes()],
            )
        },
        _ => {
            &&& m1.twoline_pass_status == m0.twoline_pass_status
            &&& spec_touch_icing(m0, m1, a, b, touching_team, player_index, Seq::empty())
        },
    }
}

impl HQMMatch {
    /// A player touched a puck: record the touch in the ledger, open a new
    /// pass, and enforce or waive any pending offside, two-line pass and
    /// icing warnings, in that order of precedence.
    pub fn handle_puck_touch(
        &mut self,
        server: &mut HQMServer,
        player: HQMObjectIndex,
        puck_index: HQMObjectIndex,
    )
        requires
            match_wf(*old(self)),
            crate::server::server_wf(*old(server)),
            crate::spots::rink_wf(old(server).game.world.rink),
        ensures
            match_wf(*final(self)),
            no_goals_emitted(*old(server), *final(server)),
            server_rules_frame(*old(server), *final(server)),
            final(self).config == old(self).config,
            final(self).paused == old(self).paused,
            final(self).preferred_positions == old(self).preferred_positions,
            final(self).started_as_goalie == old(self).started_as_goalie,
            ({
                let slot = crate::server::player_slot_with_object(old(server).players@, player, 0);
                let puck_ok = puck_index.0 < 32 && old(server).game.world.objects@[puck_index.0 as int] is Puck;
                if slot < 0 || !puck_ok || !(old(server).players@[slot].unwrap().team
                    == HQMTeam::Red || old(server).players@[slot].unwrap().team
                    == HQMTeam::Blue) {
                    *final(self) == *old(self) && *final(server) == *old(server)
                } else {
                    let player_index = HQMServerPlayerIndex(slot as usize);
                    let touching_team = old(server).players@[slot].unwrap().team;
                    let pk = (match old(server).game.world.objects@[puck_index.0 as int] {
                        HQMGameObject::Puck(p) => p,
                        _ => arbitrary(),
                    });
                    let side = spec_touch_side(pk.pos.x_cm, old(server).game.world.rink);
                    &&& final(self).puck_touches@[puck_index.0 as int]@
                        == crate::touch::spec_add_touch(
                        old(self).puck_touches@[puck_index.0 as int]@,
                        player_index,
                        player,
                        touching_team,
                        pk.pos,
                        pk.speed_mmpt,
                        old(server).game.time,
                    )
                    &&& (forall|j: int|
                        0 <= j < 32 && j != puck_index.0 ==> (#[trigger] final(self).puck_touches@[j]) == old(self).puck_touches@[j])
                    &&& final(self).pass == Some(
                        HQMPass { team: touching_team, side, from: None, player: player_index },
                    )
                    &&& (match old(self).offside_status {
                        HQMOffsideStatus::Warning(t, s, pos, warn_player) => if t == touching_team {
                            &&& final(self).offside_status == HQMOffsideStatus::Offside(t)
                            &&& final(self).pause_timer == spec_time_break(old(self).config)
                            &&& final(self).next_faceoff_spot == (if player_index == warn_player {
                                match old(self).config.offside_line {
                                    HQMOffsideLineConfiguration::OffensiveBlue => HQMRinkFaceoffSpot::Offside(
                                        spec_other_team(t),
                                        s,
                                    ),
                                    HQMOffsideLineConfiguration::Center => HQMRinkFaceoffSpot::Center,
                                }
                            } else {
                                match pos {
                                    Some(p) => spec_rule_faceoff_spot(t, s, p),
                                    None => HQMRinkFaceoffSpot::Center,
                                }
                            })
                            &&& final(self).icing_status == old(self).icing_status
                            &&& final(self).twoline_pass_status == old(self).twoline_pass_status
                            &&& server_chats_broadcast(
                                old(server).players@,
                                final(server).players@,
                                Option::None,
                                seq!["Offside".spec_bytes()],
                            )
                        } else {
                            &&& final(self).offside_status == old(self).offside_status
                            &&& spec_touch_twoline_icing(
                                *old(self),
                                *final(self),
                                old(server).players@,
                                final(server).players@,
                                touching_team,
                                player_index,
                            )
                        },
                        _ => {
                            &&& final(self).offside_status == old(self).offside_status
                            &&& spec_touch_twoline_icing(
                                *old(self),
                                *final(self),
                                old(server).players@,
                                final(server).players@,
                                touching_team,
                                player_index,
                            )
                        },
                    })
                }
            }),
    {
        let resolved = server.get_from_object_index(player);
        if let Some((player_index, touching_team)) = resolved {
            if touching_team != HQMTeam::Red && touching_team != HQMTeam::Blue {
                // a spectator-owned skater cannot open a pass or a ledger run
                return ;
            }
            if let Some(puck) = server.game.world.get_puck(puck_index) {
                let time = server.game.time;
                crate::touch::add_touch(
                    &mut self.puck_touches[puck_index.0],
                    player_index,
                    player,
                    touching_team,
                    puck.pos,
                    puck.speed_mmpt,
                    time,
                );
                let half = (server.game.world.rink.width_cm / 2) as u32;
                let side = if puck.pos.x_cm <= half {
                    HQMRinkSide::Left
                } else {
                    HQMRinkSide::Right
                };
                self.pass = Some(
                    HQMPass { team: touching_team, side, from: None, player: player_index },
                );

                let other_team = touching_team.get_other_team();
                let ghost s_mid = *server;

                let offside_warning = match &self.offside_status {
                    HQMOffsideStatus::Warning(t, s, pos, i) => Some((*t, *s, *pos, *i)),
                    _ => None,
                };
                if let Some((t, warn_side, position, warn_player)) = offside_warning {
                    if t == touching_team {
                        let self_touch = player_index == warn_player;
                        self.call_offside(server, touching_team, warn_side, position, self_touch);
                        return ;
                    }
                }
                let twoline_warning = match &self.twoline_pass_status {
                    HQMTwoLinePassStatus::Warning(t, s, pos, i) => Some(
                        (*t, *s, *pos, player_list_contains(i, player_index)),
                    ),
                    _ => None,
                };
                if let Some((t, warn_side, position, offender)) = twoline_warning {
                    if t == touching_team && offender {
                        self.call_twoline_pass(server, touching_team, warn_side, position);
                        return ;
                    } else {
                        self.twoline_pass_status = HQMTwoLinePassStatus::No;
                        server.add_server_chat_message("Two-line pass waved off".as_bytes_vec());
                    }
                }
                let ghost s_mid2 = *server;
                proof {
                    lemma_rules_step_trans(*old(server), s_mid, s_mid2);
                }
                let icing_warning = match &self.icing_status {
                    HQMIcingStatus::Warning(t, s) => Some((*t, *s)),
                    _ => None,
                };
                if let Some((t, warn_side)) = icing_warning {
                    if touching_team != t && !player_list_contains(
                        &self.started_as_goalie,
                        player_index,
                    ) {
                        self.call_icing(server, other_team, warn_side);
                        proof {
                            lemma_rules_step_trans(*old(server), s_mid2, *server);
                            lemma_touch_chat_chain(
                                *old(self),
                                old(server).players@,
                                s_mid2.players@,
                                server.players@,
                                seq!["Icing".spec_bytes()],
                            );
                        }
                    } else {
                        self.icing_status = HQMIcingStatus::No;
                        server.add_server_chat_message("Icing waved off".as_bytes_vec());
                        proof {
                            lemma_rules_step_trans(*old(server), s_mid2, *server);
                            lemma_touch_chat_chain(
                                *old(self),
                                old(server).players@,
                                s_mid2.players@,
                                server.players@,
                                seq!["Icing waved off".spec_bytes()],
                            );
                        }
                    }
                } else {
                    proof {
                        if old(self).twoline_pass_status is Warning {
                            assert(server_chats_broadcast(
                                old(server).players@,
                                server.players@,
                                Option::None,
                                seq!["Two-line pass waved off".spec_bytes()],
                            ));
                        } else {
                            crate::server::lemma_server_chats_broadcast_refl(
                                server.players@,
                                Option::None,
                            );
                        }
                        assert(Seq::<Seq<u8>>::empty() + seq!["Two-line pass waved off".spec_bytes()]
                            =~= seq!["Two-line pass waved off".spec_bytes()]);
                    }
                }
            }
        }
    }
}

/// Chain the two-line stage's possible wave-off line with the icing
/// stage's line into the cascade's combined broadcast.
proof fn lemma_touch_chat_chain(
    m0: HQMMatch,
    a: Seq<Option<crate::server::HQMConnectedPlayer>>,
    b: Seq<Option<crate::server::HQMConnectedPlayer>>,
    c: Seq<Option<crate::server::HQMConnectedPlayer>>,
    icing_line: Seq<Seq<u8>>,
)
    requires
        icing_line.len() == 1,
        server_chats_broadcast(b, c, Option::None, icing_line),
        m0.twoline_pass_status is Warning ==> server_chats_broadcast(
            a,
            b,
            Option::None,
            seq!["Two-line pass waved off".spec_bytes()],
        ),
        !(m0.twoline_pass_status is Warning) ==> a == b,
    ensures
        m0.twoline_pass_status is Warning ==> server_chats_broadcast(
            a,
            c,
            Option::None,
            seq!["Two-line pass waved off".spec_bytes()] + icing_line,
        ),
        !(m0.twoline_pass_status is Warning) ==> server_chats_broadcast(
            a,
            c,
            Option::None,
            Seq::<Seq<u8>>::empty() + icing_line,
        ),
{
    if m0.twoline_pass_status is Warning {
        crate::server::lemma_server_chats_broadcast_trans(
            a,
            b,
            c,
            Option::None,
            seq!["Two-line pass waved off".spec_bytes()],
            icing_line,
        );
    } else {
        assert(Seq::<Seq<u8>>::empty() + icing_line =~= icing_line);
    }
}


/// The roster of `team`: every occupied slot on that team, in slot order,
/// with its preferred position.
pub open spec fn spec_team_roster(
    players: Seq<Option<crate::server::HQMConnectedPlayer>>,
    preferred: Seq<Option<HQMFaceoffPosition>>,
    team: HQMTeam,
    i: int,
) -> Seq<crate::positions::HQMRosterEntry>
    decreases players.len() - i,
{
    if i < 0 || i >= players.len() {
        Seq::empty()
    } else {
        let rest = spec_team_roster(players, preferred, team, i + 1);
        if players[i] is Some && players[i].unwrap().team == team {
            let pref = if 0 <= i < preferred.len() {
                preferred[i]
            } else {
                None
            };
            seq![(HQMServerPlayerIndex(i as usize), pref)] + rest
        } else {
            rest
        }
    }
}

fn team_roster_from(
    players: &Vec<Option<crate::server::HQMConnectedPlayer>>,
    preferred: &Vec<Option<HQMFaceoffPosition>>,
    team: HQMTeam,
    i: usize,
) -> (r: Vec<crate::positions::HQMRosterEntry>)
    requires
        i <= players@.len(),
    ensures
        r@ == spec_team_roster(players@, preferred@, team, i as int),
    decreases players@.len() - i,
{
    if i >= players.len() {
        Vec::new()
    } else {
        let here: Option<crate::positions::HQMRosterEntry> = match &players[i] {
            Some(p) => if p.team == team {
                let pref = if i < preferred.len() {
                    preferred[i]
                } else {
                    None
                };
                Some((HQMServerPlayerIndex(i), pref))
            } else {
                None
            },
            None => None,
        };
        let rest = team_roster_from(players, preferred, team, i + 1);
        match here {
            Some(e) => {
                let mut v: Vec<crate::positions::HQMRosterEntry> = Vec::new();
                v.push(e);
                let mut k: usize = 0;
                while k < rest.len()
                    invariant
                        k <= rest@.len(),
                        v@.len() == k + 1,
                        v@[0] == e,
                        forall|j: int| 0 <= j < k ==> v@[j + 1] == rest@[j],
                    decreases rest@.len() - k,
                {
                    v.push(rest[k]);
                    k += 1;
                }
                assert(v@ =~= seq![e] + rest@);
                v
            },
            None => rest,
        }
    }
}

/// Assign faceoff positions to everyone on the ice: the red roster is
/// placed first, then the blue roster, each by `setup_position`.
pub fn get_faceoff_positions(
    players: &Vec<Option<crate::server::HQMConnectedPlayer>>,
    preferred_positions: &Vec<Option<HQMFaceoffPosition>>,
) -> (r: crate::positions::HQMPositionMap)
    ensures
        r@ == crate::positions::spec_setup_position(
            crate::positions::spec_setup_position(
                Seq::empty(),
                spec_team_roster(players@, preferred_positions@, HQMTeam::Red, 0),
                HQMTeam::Red,
            ),
            spec_team_roster(players@, preferred_positions@, HQMTeam::Blue, 0),
            HQMTeam::Blue,
        ),
{
    let red_players = team_roster_from(players, preferred_positions, HQMTeam::Red, 0);
    let blue_players = team_roster_from(players, preferred_positions, HQMTeam::Blue, 0);
    let mut res = crate::positions::HQMPositionMap::new();
    crate::positions::setup_position(&mut res, red_players.as_slice(), HQMTeam::Red);
    crate::positions::setup_position(&mut res, blue_players.as_slice(), HQMTeam::Blue);
    res
}

/// The offside status right after a faceoff at a spot: in a zone when the
/// spot lies behind a blue line, else neutral. Red attacks low z.
pub open spec fn spec_faceoff_offside_status(
    rink: crate::spots::HQMRink,
    center_z: i32,
) -> HQMOffsideStatus {
    if center_z < rink.blue_line_distance_cm {
        HQMOffsideStatus::InOffensiveZone(HQMTeam::Red)
    } else if center_z > rink.length_cm - rink.blue_line_distance_cm {
        HQMOffsideStatus::InOffensiveZone(HQMTeam::Blue)
    } else {
        HQMOffsideStatus::Neutral
    }
}


/// The `i`-th warmup puck: the row is centred on the mid-line, 0.8 m
/// apart, 1.5 m up.
pub open spec fn spec_warmup_puck(n: usize, i: int) -> crate::game::HQMPuck {
    crate::game::HQMPuck {
        pos: crate::touch::HQMCmPosition {
            x_cm: (1500 - 40 * ((n - 1) as int) + 80 * i) as u32,
            y_cm: 150,
            z_cm: 3050,
        },
        speed_mmpt: 0,
        packet: crate::game::HQMPuckPacket { pos_x: 0, pos_y: 0, pos_z: 0, rot_a: 0, rot_b: 0 },
    }
}

/// In a table whose slots before `i` are filled and whose slots from `i`
/// on are empty, the first empty slot from `k` is `i`.
proof fn lemma_first_empty_slot(objs: Seq<HQMGameObject>, k: int, i: int)
    requires
        0 <= k <= i < objs.len(),
        forall|j: int| k <= j < i ==> (#[trigger] objs[j]) != HQMGameObject::Empty,
        objs[i] == HQMGameObject::Empty,
    ensures
        crate::game::empty_slot_from(objs, k) == i,
    decreases i - k,
{
    if k < i {
        lemma_first_empty_slot(objs, k + 1, i);
    }
}

impl HQMMatch {
    /// Perform the pending faceoff: clear pucks and ledgers, spawn the
    /// puck at the spot, place every rostered player at their assigned
    /// position, record the goalies, and reset the rule machines.
    pub fn do_faceoff(&mut self, server: &mut HQMServer)
        requires
            match_wf(*old(self)),
            crate::server::server_wf(*old(server)),
            crate::spots::rink_wf(old(server).game.world.rink),
        ensures
            match_wf(*final(self)),
            crate::server::server_wf(*final(server)),
            final(self).icing_status == HQMIcingStatus::No,
            final(self).twoline_pass_status == HQMTwoLinePassStatus::No,
            final(self).pass is None,
            final(self).offside_status == spec_faceoff_offside_status(
                old(server).game.world.rink,
                crate::spots::spec_faceoff_spot_center(
                    old(server).game.world.rink,
                    old(self).next_faceoff_spot,
                ).z,
            ),
            final(self).faceoff_game_step == old(server).game.game_step,
            forall|i: int| 0 <= i < 32 ==> (#[trigger] final(self).puck_touches@[i])@.len() == 0,
            final(self).config == old(self).config,
            final(self).pause_timer == old(self).pause_timer,
            final(self).next_faceoff_spot == old(self).next_faceoff_spot,
            final(self).paused == old(self).paused,
            final(self).is_pause_goal == old(self).is_pause_goal,
            final(self).preferred_positions == old(self).preferred_positions,
            final(server).game.red_score == old(server).game.red_score,
            final(server).game.blue_score == old(server).game.blue_score,
            final(server).game.time == old(server).game.time,
            final(server).game.period == old(server).game.period,
            final(server).game.game_over == old(server).game.game_over,
            final(server).game.game_id == old(server).game.game_id,
            final(server).game.game_step == old(server).game.game_step,
            final(server).game_alloc == old(server).game_alloc,
            final(server).game.world.rink == old(server).game.world.rink,
            crate::server::players_msgs_append_only(old(server).players@, final(server).players@),
    {
        let positions = get_faceoff_positions(&server.players, &self.preferred_positions);

        server.game.world.clear_pucks();
        let mut i: usize = 0;
        while i < 32
            invariant
                i <= 32,
                self.puck_touches@.len() == 32,
                self.config == old(self).config,
                match_config_wf(self.config),
                self.paused == old(self).paused,
                self.pause_timer == old(self).pause_timer,
                self.is_pause_goal == old(self).is_pause_goal,
                self.next_faceoff_spot == old(self).next_faceoff_spot,
                self.preferred_positions == old(self).preferred_positions,
                self.started_as_goalie == old(self).started_as_goalie,
                self.preferred_positions@.len() == 64,
                forall|j: int| 0 <= j < i ==> (#[trigger] self.puck_touches@[j])@.len() == 0,
                forall|j: int|
                    i <= j < 32 ==> touches_wf((#[trigger] self.puck_touches@[j])@),
            decreases 32 - i,
        {
            self.puck_touches.set(i, Vec::new());
            i += 1;
        }

        let rink = server.game.world.rink;
        let spot = crate::spots::get_faceoff_spot(&rink, self.next_faceoff_spot);
        let c = spot.center_position;

        let puck_pos = crate::touch::HQMCmPosition {
            x_cm: c.x as u32,
            y_cm: (c.y + 150) as u32,
            z_cm: c.z as u32,
        };
        let _ = server.game.world.create_puck_object(puck_pos);

        self.started_as_goalie.clear();
        let n = positions.len();
        let mut k: usize = 0;
        while k < n
            invariant
                k <= n,
                n == positions@.len(),
                crate::server::server_wf(*server),
                crate::server::players_msgs_append_only(old(server).players@, server.players@),
                server.game.red_score == old(server).game.red_score,
                server.game.blue_score == old(server).game.blue_score,
                server.game.time == old(server).game.time,
                server.game.period == old(server).game.period,
                server.game.game_over == old(server).game.game_over,
                server.game.game_id == old(server).game.game_id,
                server.game.game_step == old(server).game.game_step,
                server.game_alloc == old(server).game_alloc,
                server.game.world.rink == old(server).game.world.rink,
                crate::spots::rink_wf(server.game.world.rink),
                crate::spots::rink_wf(rink),
                crate::spots::spot_in_rink(rink, spot),
                spot == crate::spots::spec_faceoff_spot(
                    old(server).game.world.rink,
                    old(self).next_faceoff_spot,
                ),
                self.config == old(self).config,
                match_config_wf(self.config),
                self.paused == old(self).paused,
                self.pause_timer == old(self).pause_timer,
                self.is_pause_goal == old(self).is_pause_goal,
                self.next_faceoff_spot == old(self).next_faceoff_spot,
                self.preferred_positions == old(self).preferred_positions,
                self.preferred_positions@.len() == 64,
                self.puck_touches@.len() == 32,
                forall|j: int| 0 <= j < 32 ==> (#[trigger] self.puck_touches@[j])@.len() == 0,
            decreases n - k,
        {
            let (player_index, (team, faceoff_position)) = positions.entry_at(k);
            if (matches!(team, HQMTeam::Red) || matches!(team, HQMTeam::Blue)) && player_index.0
                < 64 {
                let (player_position, player_rotation) = crate::spots::faceoff_player_position(
                    &rink,
                    &spot,
                    team,
                    faceoff_position,
                );
                let ghost pre_spawn = *server;
                let _ = server.spawn_skater(
                    player_index.0,
                    team,
                    player_position,
                    player_rotation,
                );
                proof {
                    crate::server::lemma_players_append_chain(
                        old(server).players@,
                        pre_spawn.players@,
                        server.players@,
                    );
                }
                if faceoff_position == HQMFaceoffPosition::G {
                    self.started_as_goalie.push(player_index);
                }
            }
            k += 1;
        }

        self.icing_status = HQMIcingStatus::No;
        self.offside_status = if c.z < rink.blue_line_distance_cm {
            HQMOffsideStatus::InOffensiveZone(HQMTeam::Red)
        } else if c.z > rink.length_cm - rink.blue_line_distance_cm {
            HQMOffsideStatus::InOffensiveZone(HQMTeam::Blue)
        } else {
            HQMOffsideStatus::Neutral
        };
        self.twoline_pass_status = HQMTwoLinePassStatus::No;
        self.pass = None;

        self.faceoff_game_step = server.game.game_step;
    }

    /// Build the next game: a fresh world with the warmup pucks lined up
    /// at centre ice and the warmup clock running; the engine's own rule
    /// state is reset.
    pub fn create_game(&mut self) -> (g: crate::server::HQMGame)
        requires
            match_wf(*old(self)),
        ensures
            match_wf(*final(self)),
            !final(self).paused,
            final(self).pause_timer == 0,
            final(self).next_faceoff_spot == HQMRinkFaceoffSpot::Center,
            final(self).icing_status == HQMIcingStatus::No,
            final(self).offside_status == HQMOffsideStatus::Neutral,
            final(self).twoline_pass_status == HQMTwoLinePassStatus::No,
            final(self).start_next_replay is None,
            final(self).config == old(self).config,
            final(self).preferred_positions == old(self).preferred_positions,
            final(self).is_pause_goal == old(self).is_pause_goal,
            final(self).pass == old(self).pass,
            final(self).started_as_goalie == old(self).started_as_goalie,
            final(self).faceoff_game_step == old(self).faceoff_game_step,
            final(self).step_where_period_ended == old(self).step_where_period_ended,
            final(self).too_late_printed_this_period == old(self).too_late_printed_this_period,
            final(self).puck_touches == old(self).puck_touches,
            g.red_score == 0 && g.blue_score == 0,
            g.period == 0,
            g.time == old(self).config.time_warmup * 100,
            !g.game_over,
            crate::game::world_wf(g.world),
            g.world.rink.length_cm == 6100 && g.world.rink.width_cm == 3000
                && g.world.rink.blue_line_distance_cm == old(self).config.blue_line_location_cm as i32,
            crate::spots::rink_wf(g.world.rink),
            forall|i: int|
                0 <= i < old(self).config.warmup_pucks ==> (#[trigger] g.world.objects@[i])
                    == HQMGameObject::Puck(spec_warmup_puck(old(self).config.warmup_pucks, i)),
            forall|i: int|
                old(self).config.warmup_pucks <= i < 32 ==> (#[trigger] g.world.objects@[i])
                    == HQMGameObject::Empty,
    {
        self.paused = false;
        self.pause_timer = 0;
        self.next_faceoff_spot = HQMRinkFaceoffSpot::Center;
        self.icing_status = HQMIcingStatus::No;
        self.offside_status = HQMOffsideStatus::Neutral;
        self.twoline_pass_status = HQMTwoLinePassStatus::No;
        self.start_next_replay = None;

        let warmup_pucks = self.config.warmup_pucks;

        let rink = crate::spots::HQMRink {
            length_cm: 6100,
            width_cm: 3000,
            blue_line_distance_cm: self.config.blue_line_location_cm as i32,
        };
        let mut game = crate::server::new_game_state(0, rink);
        let puck_line_start: u32 = if warmup_pucks >= 1 {
            1500 - 40 * ((warmup_pucks as u32) - 1)
        } else {
            1500
        };

        let mut i: usize = 0;
        while i < warmup_pucks
            invariant
                i <= warmup_pucks,
                warmup_pucks <= 32,
                warmup_pucks >= 1 ==> puck_line_start == 1500 - 40 * ((warmup_pucks - 1) as int),
                260 <= puck_line_start <= 1500,
                game.world.objects@.len() == 32,
                game.world.rink == rink,
                game.red_score == 0 && game.blue_score == 0,
                game.period == 0,
                !game.game_over,
                game.game_id == 0,
                game.time == 0,
                forall|j: int|
                    0 <= j < i ==> (#[trigger] game.world.objects@[j]) == HQMGameObject::Puck(
                        spec_warmup_puck(warmup_pucks, j),
                    ),
                forall|j: int|
                    i <= j < 32 ==> (#[trigger] game.world.objects@[j]) == HQMGameObject::Empty,
            decreases warmup_pucks - i,
        {
            let pos = crate::touch::HQMCmPosition {
                x_cm: puck_line_start + 80 * (i as u32),
                y_cm: 150,
                z_cm: 3050,
            };
            proof {
                lemma_first_empty_slot(game.world.objects@, 0, i as int);
            }
            let _ = game.world.create_puck_object(pos);
            i += 1;
        }
        game.time = self.config.time_warmup * 100;
        game
    }
}



/// Two server states that agree on everything except the game clock and
/// the goal-message timer.
pub open spec fn server_same_but_clock(a: HQMServer, b: HQMServer) -> bool {
    &&& b.players@ == a.players@
    &&& b.ban_list == a.ban_list
    &&& b.allow_join == a.allow_join
    &&& b.config == a.config
    &&& b.game_alloc == a.game_alloc
    &&& b.is_muted == a.is_muted
    &&& b.replay_queue == a.replay_queue
    &&& b.game.game_id == a.game.game_id
    &&& b.game.red_score == a.game.red_score
    &&& b.game.blue_score == a.game.blue_score
    &&& b.game.period == a.game.period
    &&& b.game.game_over == a.game.game_over
    &&& b.game.paused == a.game.paused
    &&& b.game.rules_state == a.game.rules_state
    &&& b.game.packet == a.game.packet
    &&& b.game.game_step == a.game.game_step
    &&& b.game.active == a.game.active
    &&& b.game.global_messages == a.game.global_messages
    &&& b.game.world == a.game.world
}

/// What the pause timer shows after the period-end game-over check, which
/// starts from the freshly opened intermission.
pub open spec fn spec_pause_after_period_end(cfg: HQMMatchConfiguration, was: bool, now: bool) -> u32 {
    let base = spec_time_intermission(cfg);
    if now && !was {
        base
    } else if !now && was {
        if base >= spec_time_break(cfg) {
            base
        } else {
            spec_time_break(cfg)
        }
    } else {
        base
    }
}



/// Every pause the rule machines start is a whole number of seconds.
proof fn lemma_time_break_mod(cfg: HQMMatchConfiguration)
    requires
        match_config_wf(cfg),
    ensures
        spec_time_break(cfg) % 100 == 0,
        spec_time_intermission(cfg) % 100 == 0,
{
}

/// The pause a goal leaves behind is a whole number of seconds too.
proof fn lemma_pause_after_goal_mod(cfg: HQMMatchConfiguration)
    requires
        match_config_wf(cfg),
    ensures
        forall|w: bool, n: bool| #[trigger] spec_pause_after_goal(cfg, w, n) % 100 == 0,
{
    assert forall|w: bool, n: bool| #[trigger] spec_pause_after_goal(cfg, w, n) % 100 == 0 by {
        lemma_time_break_mod(cfg);
    }
}

/// The condition that discards the rest of a tick's event batch: a pause
/// has begun, the period or the game has ended, or warmup never started.
pub open spec fn spec_tick_interrupted(m: HQMMatch, s: HQMServer) -> bool {
    m.pause_timer > 0 || s.game.time == 0 || s.game.game_over || s.game.period == 0
}

/// The rules summary shown to clients, derived from the three machines.
pub open spec fn spec_rules_state(
    icing: HQMIcingStatus,
    offside: HQMOffsideStatus,
    twoline: HQMTwoLinePassStatus,
) -> crate::types::HQMRulesState {
    if offside is Offside || twoline is Offside {
        crate::types::HQMRulesState::Offside
    } else if icing is Icing {
        crate::types::HQMRulesState::Icing
    } else {
        crate::types::HQMRulesState::Regular {
            offside_warning: offside is Warning || twoline is Warning,
            icing_warning: icing is Warning,
        }
    }
}

/// The zone predicate only reads team, skater ownership and the world,
/// so message-only changes and an untouched world preserve it.
proof fn lemma_zone_check_stable(s1: HQMServer, s2: HQMServer, team: HQMTeam, i: int)
    requires
        s1.players@.len() == s2.players@.len(),
        forall|j: int|
            0 <= j < s1.players@.len() ==> ((#[trigger] s2.players@[j]) is Some <==> s1.players@[j] is Some),
        forall|j: int|
            0 <= j < s1.players@.len() && s1.players@[j] is Some
                ==> crate::server::equal_but_messages(
                (#[trigger] s1.players@[j]).unwrap(),
                s2.players@[j].unwrap(),
            ),
        s2.game.world == s1.game.world,
        0 <= i,
    ensures
        spec_has_players_in_offensive_zone_from(s1, team, Option::None, i)
            == spec_has_players_in_offensive_zone_from(s2, team, Option::None, i),
    decreases s1.players@.len() - i,
{
    if i < s1.players@.len() {
        lemma_zone_check_stable(s1, s2, team, i + 1);
    }
}

/// The game-over flag is only raised coherently: whenever it is set, the
/// configured ending condition actually holds of the current score and
/// period.
pub open spec fn game_over_coherent(m: HQMMatch, s: HQMServer) -> bool {
    s.game.game_over ==> spec_game_over(m.config, s.game.period, s.game.red_score, s.game.blue_score)
}

/// Chaining per-player message extension.
pub proof fn lemma_append_only_trans(
    a: Seq<Option<crate::server::HQMConnectedPlayer>>,
    b: Seq<Option<crate::server::HQMConnectedPlayer>>,
    c: Seq<Option<crate::server::HQMConnectedPlayer>>,
)
    requires
        crate::server::players_msgs_append_only(a, b),
        crate::server::players_msgs_append_only(b, c),
    ensures
        crate::server::players_msgs_append_only(a, c),
{
    assert forall|i: int|
        0 <= i < a.len() && a[i] is Some implies crate::game::msgs_append_only(
        (#[trigger] a[i]).unwrap().messages@,
        c[i].unwrap().messages@,
    ) by {
        assert(crate::game::msgs_append_only(a[i].unwrap().messages@, b[i].unwrap().messages@));
        assert(crate::game::msgs_append_only(b[i].unwrap().messages@, c[i].unwrap().messages@));
    }
}

/// Emitting no goal messages in particular extends every queue.
pub proof fn lemma_no_goals_gives_append(a: HQMServer, b: HQMServer)
    requires
        no_goals_emitted(a, b),
    ensures
        crate::server::players_msgs_append_only(a.players@, b.players@),
{
    assert forall|i: int|
        0 <= i < a.players@.len() && a.players@[i] is Some implies crate::game::msgs_append_only(
        (#[trigger] a.players@[i]).unwrap().messages@,
        b.players@[i].unwrap().messages@,
    ) by {
        assert(crate::game::no_goal_msg_added(
            a.players@[i].unwrap().messages@,
            b.players@[i].unwrap().messages@,
            HQMTeam::Red,
        ));
    }
}

impl HQMMatch {
    /// Advance the tick clock: while a pause is pending count it down and,
    /// when it expires, start the next game (after a game over) or restore
    /// the clock and hold the faceoff; otherwise run the game clock down
    /// and open the intermission at the period's end. The goal-message
    /// timer mirrors the pause timer during a goal pause.
    pub fn update_clock(&mut self, server: &mut HQMServer)
        requires
            match_wf(*old(self)),
            crate::server::server_wf(*old(server)),
            crate::spots::rink_wf(old(server).game.world.rink),
            game_over_coherent(*old(self), *old(server)),
            old(server).game.game_id == old(server).game_alloc,
        ensures
            match_wf(*final(self)),
            crate::server::server_wf(*final(server)),
            crate::spots::rink_wf(final(server).game.world.rink),
            game_over_coherent(*final(self), *final(server)),
            final(server).game.game_id == final(server).game_alloc,
            final(self).config == old(self).config,
            final(server).game.time <= old(server).game.time || (old(server).game.time == 0
                && final(server).game.time == spec_time_period(old(self).config)) || final(server).game.game_id != old(server).game.game_id,
            old(server).game.game_over && final(server).game.game_id == old(server).game.game_id
                ==> final(server).game.game_over,
            final(server).game.game_id == old(server).game.game_id ==> crate::server::players_msgs_append_only(
                old(server).players@,
                final(server).players@,
            ),
            final(server).game.game_id == old(server).game.game_id ==> final(server).game.game_step
                == old(server).game.game_step,
            final(self).paused == old(self).paused,
            final(server).game.goal_message_timer == (if final(self).is_pause_goal {
                final(self).pause_timer
            } else {
                0u32
            }),
            old(self).paused ==> *final(self) == *old(self) && server_same_but_clock(
                *old(server),
                *final(server),
            ) && final(server).game.time == old(server).game.time,
            !old(self).paused && old(self).pause_timer == 0 ==> ({
                let t1 = sat_sub_u32(old(server).game.time, 1);
                &&& final(server).game.time == t1
                &&& (t1 != 0 ==> *final(self) == *old(self) && server_same_but_clock(
                    *old(server),
                    *final(server),
                ))
                &&& (t1 == 0 ==> {
                    let p1 = sat_inc(old(server).game.period);
                    let was = old(server).game.game_over;
                    let now = spec_game_over(
                        old(self).config,
                        p1,
                        old(server).game.red_score,
                        old(server).game.blue_score,
                    );
                    &&& final(server).game.period == p1
                    &&& !final(self).is_pause_goal
                    &&& final(self).step_where_period_ended == old(server).game.game_step
                    &&& !final(self).too_late_printed_this_period
                    &&& final(self).next_faceoff_spot == HQMRinkFaceoffSpot::Center
                    &&& final(server).game.game_over == now
                    &&& final(self).pause_timer == spec_pause_after_period_end(
                        old(self).config,
                        was,
                        now,
                    )
                    &&& final(server).game.red_score == old(server).game.red_score
                    &&& final(server).game.blue_score == old(server).game.blue_score
                    &&& final(server).game.game_id == old(server).game.game_id
                    &&& final(server).players@ == old(server).players@
                    &&& final(server).game.world == old(server).game.world
                    &&& final(server).game.rules_state == old(server).game.rules_state
                    &&& final(self).icing_status == old(self).icing_status
                    &&& final(self).offside_status == old(self).offside_status
                    &&& final(self).twoline_pass_status == old(self).twoline_pass_status
                    &&& final(self).pass == old(self).pass
                    &&& final(self).puck_touches == old(self).puck_touches
                })
            }),
            !old(self).paused && old(self).pause_timer > 0 ==> ({
                let p = (old(self).pause_timer - 1) as u32;
                &&& final(self).pause_timer == p || (p == 0 && old(server).game.game_over)
                &&& (p > 0 ==> final(self).pause_timer == p && equal_but_pause_timer(
                    *old(self),
                    *final(self),
                ) && server_same_but_clock(*old(server), *final(server)) && final(server).game.time == old(server).game.time)
                &&& (p == 0 ==> !final(self).is_pause_goal && (if old(server).game.game_over {
                    &&& final(server).game.game_id == old(server).game_alloc.wrapping_add(1)
                    &&& final(server).game_alloc == old(server).game_alloc.wrapping_add(1)
                    &&& final(server).game.red_score == 0
                    &&& final(server).game.blue_score == 0
                    &&& final(server).game.period == 0
                    &&& !final(server).game.game_over
                    &&& final(server).game.time == old(self).config.time_warmup * 100
                    &&& final(self).pause_timer == 0
                    &&& final(self).icing_status == HQMIcingStatus::No
                    &&& final(self).offside_status == HQMOffsideStatus::Neutral
                    &&& final(self).twoline_pass_status == HQMTwoLinePassStatus::No
                    &&& final(self).next_faceoff_spot == HQMRinkFaceoffSpot::Center
                    &&& final(self).start_next_replay is None
                } else {
                    &&& final(server).game.time == (if old(server).game.time == 0 {
                        spec_time_period(old(self).config)
                    } else {
                        old(server).game.time
                    })
                    &&& final(self).pause_timer == 0
                    &&& final(self).icing_status == HQMIcingStatus::No
                    &&& final(self).twoline_pass_status == HQMTwoLinePassStatus::No
                    &&& final(self).pass is None
                    &&& final(self).offside_status == spec_faceoff_offside_status(
                        old(server).game.world.rink,
                        crate::spots::spec_faceoff_spot_center(
                            old(server).game.world.rink,
                            old(self).next_faceoff_spot,
                        ).z,
                    )
                    &&& final(self).faceoff_game_step == old(server).game.game_step
                    &&& (forall|i: int|
                        0 <= i < 32 ==> (#[trigger] final(self).puck_touches@[i])@.len() == 0)
                    &&& final(server).game.game_id == old(server).game.game_id
                    &&& final(server).game.red_score == old(server).game.red_score
                    &&& final(server).game.blue_score == old(server).game.blue_score
                    &&& final(server).game.period == old(server).game.period
                    &&& final(server).game.game_over == old(server).game.game_over
                }))
            }),
    {
        let period_length = self.config.time_period * 100;
        let intermission_time = self.config.time_intermission * 100;

        if !self.paused {
            if self.pause_timer > 0 {
                self.pause_timer = self.pause_timer - 1;
                if self.pause_timer == 0 {
                    self.is_pause_goal = false;
                    if server.game.game_over {
                        let g = self.create_game();
                        server.new_game(g);
                        proof {
                            assert(server.game.game_id != old(server).game.game_id);
                        }
                    } else {
                        if server.game.time == 0 {
                            server.game.time = period_length;
                        }
                        self.do_faceoff(server);
                    }
                }
            } else {
                server.game.time = if server.game.time >= 1 {
                    server.game.time - 1
                } else {
                    0
                };
                if server.game.time == 0 {
                    if server.game.period < u32::MAX {
                        server.game.period = server.game.period + 1;
                    }
                    self.pause_timer = intermission_time;
                    self.is_pause_goal = false;
                    self.step_where_period_ended = server.game.game_step;
                    self.too_late_printed_this_period = false;
                    self.next_faceoff_spot = HQMRinkFaceoffSpot::Center;
                    proof {
                        if old(server).game.game_over {
                            lemma_game_over_monotone_period(
                                self.config,
                                old(server).game.period,
                                server.game.period,
                                server.game.red_score,
                                server.game.blue_score,
                            );
                        }
                    }
                    self.update_game_over(server);
                }
            }
        }
        server.game.goal_message_timer = if self.is_pause_goal {
            self.pause_timer
        } else {
            0
        };
    }

    /// After the final horn, a puck still entering the net within three
    /// seconds draws the "too late" line, once per period.
    pub fn handle_events_end_of_period(
        &mut self,
        server: &mut HQMServer,
        events: &Vec<HQMSimulationEvent>,
    )
        requires
            match_wf(*old(self)),
        ensures
            match_wf(*final(self)),
            no_goals_emitted(*old(server), *final(server)),
            server_rules_frame(*old(server), *final(server)),
            final(self).icing_status == old(self).icing_status,
            final(self).offside_status == old(self).offside_status,
            final(self).twoline_pass_status == old(self).twoline_pass_status,
            final(self).pass == old(self).pass,
            final(self).pause_timer == old(self).pause_timer,
            final(self).config == old(self).config,
            final(self).puck_touches == old(self).puck_touches,
            final(self).paused == old(self).paused,
            old(self).too_late_printed_this_period ==> final(self).too_late_printed_this_period,
            ({
                let t = sat_sub_u32(old(server).game.game_step, old(self).step_where_period_ended);
                let fires = !old(self).too_late_printed_this_period && has_net_event(events@) && t
                    <= 300;
                if fires {
                    final(self).too_late_printed_this_period && server_chats_broadcast(
                        old(server).players@,
                        final(server).players@,
                        Option::None,
                        seq![clock_text(t) + " seconds too late!".spec_bytes()],
                    )
                } else {
                    *final(server) == *old(server) && final(self).too_late_printed_this_period
                        == old(self).too_late_printed_this_period
                }
            }),
    {
        let ghost t_spec = sat_sub_u32(old(server).game.game_step, old(self).step_where_period_ended);
        let n = events.len();
        let mut i: usize = 0;
        while i < n
            invariant
                i <= n,
                n == events@.len(),
                match_wf(*self),
                no_goals_emitted(*old(server), *server),
                server_rules_frame(*old(server), *server),
                self.icing_status == old(self).icing_status,
                self.offside_status == old(self).offside_status,
                self.twoline_pass_status == old(self).twoline_pass_status,
                self.pass == old(self).pass,
                self.pause_timer == old(self).pause_timer,
                self.config == old(self).config,
                self.puck_touches == old(self).puck_touches,
                self.paused == old(self).paused,
                self.step_where_period_ended == old(self).step_where_period_ended,
                server.game.game_step == old(server).game.game_step,
                t_spec == sat_sub_u32(
                    old(server).game.game_step,
                    old(self).step_where_period_ended,
                ),
                old(self).too_late_printed_this_period ==> self.too_late_printed_this_period
                    && *server == *old(server),
                !old(self).too_late_printed_this_period && t_spec > 300 ==> *server == *old(server)
                    && !self.too_late_printed_this_period,
                !old(self).too_late_printed_this_period && t_spec <= 300 ==> (
                if self.too_late_printed_this_period {
                    server_chats_broadcast(
                        old(server).players@,
                        server.players@,
                        Option::None,
                        seq![clock_text(t_spec) + " seconds too late!".spec_bytes()],
                    ) && (exists|j: int|
                        0 <= j < i && (#[trigger] events@[j]) is PuckEnteredNet)
                } else {
                    *server == *old(server) && (forall|j: int|
                        0 <= j < i ==> !((#[trigger] events@[j]) is PuckEnteredNet))
                }),
            decreases n - i,
        {
            if matches!(events[i], HQMSimulationEvent::PuckEnteredNet { .. }) {
                let time = if server.game.game_step >= self.step_where_period_ended {
                    server.game.game_step - self.step_where_period_ended
                } else {
                    0
                };
                proof {
                    assert(time == t_spec);
                    assert(events@[i as int] is PuckEnteredNet);
                }
                if time <= 300 && !self.too_late_printed_this_period {
                    self.too_late_printed_this_period = true;
                    let msg = clock_message(time, " seconds too late!");
                    let ghost prev = *server;
                    server.add_server_chat_message(msg);
                    proof {
                        lemma_rules_step_trans(*old(server), prev, *server);
                        assert(crate::server::server_chats_broadcast(
                            prev.players@,
                            server.players@,
                            Option::None,
                            seq![clock_text(t_spec) + " seconds too late!".spec_bytes()],
                        ));
                        assert(prev.players@ == old(server).players@);
                    }
                }
            }
            i += 1;
        }
        proof {
            if !old(self).too_late_printed_this_period && has_net_event(events@) && t_spec
                <= 300 && !self.too_late_printed_this_period {
                let j = choose|j: int|
                    0 <= j < events@.len() && (#[trigger] events@[j]) is PuckEnteredNet;
                assert(false);
            }
        }
    }

    /// Dispatch one tick's simulation events in order; any event that
    /// starts a pause, ends the period or ends the game discards the rest
    /// of the batch.
    pub fn handle_events(
        &mut self,
        server: &mut HQMServer,
        events: &Vec<HQMSimulationEvent>,
        match_events: &mut Vec<HQMMatchEvent>,
    ) -> (n_processed: Ghost<int>)
        requires
            match_wf(*old(self)),
            crate::server::server_wf(*old(server)),
            crate::spots::rink_wf(old(server).game.world.rink),
            forall|i: int| 0 <= i < events@.len() ==> event_wf(#[trigger] events@[i]),
            game_over_coherent(*old(self), *old(server)),
        ensures
            match_wf(*final(self)),
            crate::server::server_wf(*final(server)),
            game_over_coherent(*final(self), *final(server)),
            crate::server::players_msgs_append_only(old(server).players@, final(server).players@),
            final(server).game.time == old(server).game.time,
            final(server).game.period == old(server).game.period,
            final(server).game.game_id == old(server).game.game_id,
            final(server).game.game_step == old(server).game.game_step,
            final(server).game.world == old(server).game.world,
            final(server).game_alloc == old(server).game_alloc,
            final(self).config == old(self).config,
            final(self).paused == old(self).paused,
            final(self).pause_timer == old(self).pause_timer || final(self).pause_timer % 100
                == 0,
            0 <= n_processed@ <= events@.len(),
            n_processed@ < events@.len() ==> spec_tick_interrupted(*final(self), *final(server)),
            !spec_tick_interrupted(*final(self), *final(server)) ==> n_processed@
                == events@.len(),
            events@.len() > 0 ==> n_processed@ >= 1,
    {
        let n = events.len();
        let mut i: usize = 0;
        while i < n
            invariant
                i <= n,
                n == events@.len(),
                forall|j: int| 0 <= j < events@.len() ==> event_wf(#[trigger] events@[j]),
                match_wf(*self),
                self.pause_timer == old(self).pause_timer || self.pause_timer % 100 == 0,
                i > 0 ==> !spec_tick_interrupted(*self, *server),
                crate::server::server_wf(*server),
                crate::spots::rink_wf(server.game.world.rink),
                game_over_coherent(*self, *server),
                crate::server::players_msgs_append_only(old(server).players@, server.players@),
                server.game.time == old(server).game.time,
                server.game.period == old(server).game.period,
                server.game.game_id == old(server).game.game_id,
                server.game.game_step == old(server).game.game_step,
                server.game.world == old(server).game.world,
                server.game_alloc == old(server).game_alloc,
                self.config == old(self).config,
                self.paused == old(self).paused,
            decreases n - i,
        {
            let ghost pre = *server;
            let event = events[i];
            match event {
                HQMSimulationEvent::PuckEnteredNet { team, puck } => {
                    self.handle_puck_entered_net(server, match_events, team, puck);
                },
                HQMSimulationEvent::PuckTouch { player, puck } => {
                    self.handle_puck_touch(server, player, puck);
                },
                HQMSimulationEvent::PuckReachedDefensiveLine { team, puck: _ } => {
                    self.check_wave_off_twoline(server, team);
                    self.update_pass(team, HQMPassPosition::ReachedOwnBlue);
                },
                HQMSimulationEvent::PuckPassedDefensiveLine { team, puck: _ } => {
                    self.update_pass(team, HQMPassPosition::PassedOwnBlue);
                    self.handle_puck_passed_defensive_line(server, team);
                },
                HQMSimulationEvent::PuckReachedCenterLine { team, puck: _ } => {
                    self.check_wave_off_twoline(server, team);
                    self.update_pass(team, HQMPassPosition::ReachedCenter);
                },
                HQMSimulationEvent::PuckPassedCenterLine { team, puck: _ } => {
                    self.update_pass(team, HQMPassPosition::PassedCenter);
                    self.handle_puck_entered_offensive_half(server, team);
                },
                HQMSimulationEvent::PuckReachedOffensiveZone { team, puck: _ } => {
                    self.update_pass(team, HQMPassPosition::ReachedOffensive);
                },
                HQMSimulationEvent::PuckEnteredOffensiveZone { team, puck: _ } => {
                    self.update_pass(team, HQMPassPosition::PassedOffensive);
                    self.handle_puck_entered_offensive_zone(server, team);
                },
                HQMSimulationEvent::PuckPassedGoalLine { team, puck: _ } => {
                    self.handle_puck_passed_goal_line(server, team);
                },
            }
            proof {
                if no_goals_emitted(pre, *server) {
                    lemma_no_goals_gives_append(pre, *server);
                }
                if *server == pre {
                    crate::server::lemma_players_append_refl(pre.players@, server.players@);
                }
                lemma_handle_event_step(pre, *server, old(server).players@);
                lemma_time_break_mod(self.config);
                lemma_pause_after_goal_mod(self.config);
            }
            if self.pause_timer > 0 || server.game.time == 0 || server.game.game_over
                || server.game.period == 0 {
                return Ghost((i + 1) as int);
            }
            i += 1;
        }
        Ghost(n as int)
    }
}

/// One event step keeps the message queues growing: whichever handler ran,
/// it only appended messages.
proof fn lemma_handle_event_step(
    pre: HQMServer,
    post: HQMServer,
    base: Seq<Option<crate::server::HQMConnectedPlayer>>,
)
    requires
        crate::server::players_msgs_append_only(base, pre.players@),
        crate::server::players_msgs_append_only(pre.players@, post.players@),
    ensures
        crate::server::players_msgs_append_only(base, post.players@),
{
    lemma_append_only_trans(base, pre.players@, post.players@);
}



impl HQMMatch {
    /// The rules summary of the current machine states.
    pub fn compute_rules_state(&self) -> (r: crate::types::HQMRulesState)
        ensures
            r == spec_rules_state(self.icing_status, self.offside_status, self.twoline_pass_status),
    {
        let offside_called = matches!(&self.offside_status, HQMOffsideStatus::Offside(_));
        let twoline_called = matches!(&self.twoline_pass_status, HQMTwoLinePassStatus::Offside(_));
        let icing_called = matches!(&self.icing_status, HQMIcingStatus::Icing(_));
        if offside_called || twoline_called {
            crate::types::HQMRulesState::Offside
        } else if icing_called {
            crate::types::HQMRulesState::Icing
        } else {
            let icing_warning = matches!(&self.icing_status, HQMIcingStatus::Warning(_, _));
            let offside_warning = matches!(
                &self.offside_status,
                HQMOffsideStatus::Warning(_, _, _, _),
            ) || matches!(&self.twoline_pass_status, HQMTwoLinePassStatus::Warning(_, _, _, _));
            crate::types::HQMRulesState::Regular { offside_warning, icing_warning }
        }
    }

    /// The per-tick delayed-offside waive-off: a pending warning whose
    /// team no longer has anyone in the offensive zone turns into
    /// `InOffensiveZone` and is announced; anything else is untouched.
    pub fn waive_offside_if_zone_empty(&mut self, server: &mut HQMServer)
        requires
            match_wf(*old(self)),
        ensures
            match_wf(*final(self)),
            ({
                match old(self).offside_status {
                    HQMOffsideStatus::Warning(team, _, _, _) => if !spec_has_players_in_offensive_zone_from(
                        *old(server),
                        team,
                        Option::None,
                        0,
                    ) {
                        &&& final(self).offside_status == HQMOffsideStatus::InOffensiveZone(team)
                        &&& equal_but_offside(*old(self), *final(self))
                        &&& server_chats_broadcast(
                            old(server).players@,
                            final(server).players@,
                            Option::None,
                            seq!["Offside waved off".spec_bytes()],
                        )
                        &&& no_goals_emitted(*old(server), *final(server))
                        &&& server_rules_frame(*old(server), *final(server))
                    } else {
                        *final(self) == *old(self) && *final(server) == *old(server)
                    },
                    _ => *final(self) == *old(self) && *final(server) == *old(server),
                }
            }),
    {
        let warning_team = match &self.offside_status {
            HQMOffsideStatus::Warning(team, _, _, _) => Some(*team),
            _ => None,
        };
        if let Some(team) = warning_team {
            if !crate::server::has_players_in_offensive_zone(server, team, None) {
                self.offside_status = HQMOffsideStatus::InOffensiveZone(team);
                server.add_server_chat_message("Offside waved off".as_bytes_vec());
            }
        }
    }

    /// Release a finished goal replay: once the recorded window has fully
    /// elapsed, hand the exact (start, end, camera) request to the replay
    /// queue, announce it, and clear the pending marker; otherwise nothing
    /// changes.
    pub fn flush_due_replay(&mut self, server: &mut HQMServer)
        requires
            match_wf(*old(self)),
        ensures
            match_wf(*final(self)),
            ({
                match old(self).start_next_replay {
                    Some((start_replay, end_replay, force_view)) => if end_replay <= old(
                        server,
                    ).game.game_step {
                        &&& final(server).replay_queue@ == old(server).replay_queue@.push(
                            (start_replay, end_replay, force_view),
                        )
                        &&& final(self).start_next_replay is None
                        &&& equal_but_replay(*old(self), *final(self))
                        &&& server_chats_broadcast(
                            old(server).players@,
                            final(server).players@,
                            Option::None,
                            seq!["Goal replay".spec_bytes()],
                        )
                        &&& no_goals_emitted(*old(server), *final(server))
                        &&& server_rules_frame(*old(server), *final(server))
                    } else {
                        *final(self) == *old(self) && *final(server) == *old(server)
                    },
                    None => *final(self) == *old(self) && *final(server) == *old(server),
                }
            }),
    {
        let replay = self.start_next_replay;
        if let Some((start_replay, end_replay, force_view)) = replay {
            if end_replay <= server.game.game_step {
                server.replay_queue.push((start_replay, end_replay, force_view));
                server.add_server_chat_message("Goal replay".as_bytes_vec());
                self.start_next_replay = None;
            }
        }
    }
}

/// Two engine states that differ at most in the pending replay marker.
pub open spec fn equal_but_replay(a: HQMMatch, b: HQMMatch) -> bool {
    &&& a.config == b.config
    &&& a.paused == b.paused
    &&& a.pause_timer == b.pause_timer
    &&& a.is_pause_goal == b.is_pause_goal
    &&& a.next_faceoff_spot == b.next_faceoff_spot
    &&& a.icing_status == b.icing_status
    &&& a.offside_status == b.offside_status
    &&& a.twoline_pass_status == b.twoline_pass_status
    &&& a.pass == b.pass
    &&& a.preferred_positions == b.preferred_positions
    &&& a.started_as_goalie == b.started_as_goalie
    &&& a.faceoff_game_step == b.faceoff_game_step
    &&& a.step_where_period_ended == b.step_where_period_ended
    &&& a.too_late_printed_this_period == b.too_late_printed_this_period
    &&& a.puck_touches == b.puck_touches
}

impl HQMMatch {
    /// One tick of the match controller: handle the tick's simulation
    /// events (or the "too late" check right after the horn), run the
    /// per-tick offside waive-off, refresh the rules summary, advance the
    /// clock, and release a finished goal replay. Within one game the
    /// clock never goes up except for the period reset, a finished game
    /// stays finished, and message queues only grow.
    pub fn after_tick(
        &mut self,
        server: &mut HQMServer,
        events: &Vec<HQMSimulationEvent>,
    ) -> (match_events: Vec<HQMMatchEvent>)
        requires
            match_wf(*old(self)),
            crate::server::server_wf(*old(server)),
            crate::spots::rink_wf(old(server).game.world.rink),
            forall|i: int| 0 <= i < events@.len() ==> event_wf(#[trigger] events@[i]),
            game_over_coherent(*old(self), *old(server)),
            old(server).game.game_id == old(server).game_alloc,
        ensures
            match_wf(*final(self)),
            crate::server::server_wf(*final(server)),
            crate::spots::rink_wf(final(server).game.world.rink),
            game_over_coherent(*final(self), *final(server)),
            final(server).game.game_id == final(server).game_alloc,
            final(server).game.time <= old(server).game.time || (old(server).game.time == 0
                && final(server).game.time == spec_time_period(old(self).config)) || final(server).game.game_id != old(server).game.game_id,
            old(server).game.game_over && final(server).game.game_id == old(server).game.game_id
                ==> final(server).game.game_over,
            final(server).game.game_id == old(server).game.game_id ==> crate::server::players_msgs_append_only(
                old(server).players@,
                final(server).players@,
            ),
            final(self).config == old(self).config,
            ({
                let end_of_period = old(server).game.time == 0 && old(server).game.period > 1;
                let gated = !end_of_period && (old(self).pause_timer > 0 || old(server).game.time
                    == 0 || old(server).game.game_over || old(server).game.period == 0 || old(self).paused);
                let dispatch = !end_of_period && !gated;
                &&& (end_of_period || gated ==> match_events@.len() == 0)
                &&& (gated && old(self).pause_timer != 1 ==> final(self).icing_status == old(self).icing_status
                    && final(self).offside_status == old(self).offside_status && final(self).twoline_pass_status
                    == old(self).twoline_pass_status && final(self).pass == old(self).pass
                    && final(self).puck_touches == old(self).puck_touches && final(server).game.rules_state
                    == old(server).game.rules_state && final(server).game.red_score == old(server).game.red_score
                    && final(server).game.blue_score == old(server).game.blue_score)
                &&& (dispatch ==> final(server).game.game_id == old(server).game.game_id && final(server).game.rules_state
                    == spec_rules_state(
                    final(self).icing_status,
                    final(self).offside_status,
                    final(self).twoline_pass_status,
                ))
                &&& (dispatch ==> (match final(self).offside_status {
                    HQMOffsideStatus::Warning(team, _, _, _) => spec_has_players_in_offensive_zone_from(
                        *final(server),
                        team,
                        Option::None,
                        0,
                    ),
                    _ => true,
                }))
            }),
    {
        let mut match_events: Vec<HQMMatchEvent> = Vec::new();
        let ghost mut s_after_waive = *server;
        if server.game.time == 0 && server.game.period > 1 {
            self.handle_events_end_of_period(server, events);
            proof {
                lemma_no_goals_gives_append(*old(server), *server);
            }
        } else if self.pause_timer > 0 || server.game.time == 0 || server.game.game_over
            || server.game.period == 0 || self.paused {
            // the tick is frozen: no event dispatch
        } else {
            let _n_processed = self.handle_events(server, events, &mut match_events);

            let ghost mid_events = *server;
            self.waive_offside_if_zone_empty(server);
            proof {
                if mid_events != *server {
                    lemma_no_goals_gives_append(mid_events, *server);
                }
                crate::server::lemma_players_append_chain(
                    old(server).players@,
                    mid_events.players@,
                    server.players@,
                );
            }
            proof {
                s_after_waive = *server;
            }

            let rules_state = self.compute_rules_state();
            server.game.rules_state = rules_state;
        }

        let ghost mid_clock = *server;
        self.update_clock(server);
        proof {
            if server.game.game_id == old(server).game.game_id {
                crate::server::lemma_players_append_chain(
                    old(server).players@,
                    mid_clock.players@,
                    server.players@,
                );
            }
        }
        let ghost m_post_clock = *self;
        let ghost s_post_clock = *server;

        let ghost mid_flush = *server;
        self.flush_due_replay(server);
        proof {
            if mid_flush != *server {
                lemma_no_goals_gives_append(mid_flush, *server);
            }
            if server.game.game_id == old(server).game.game_id {
                crate::server::lemma_players_append_chain(
                    old(server).players@,
                    mid_flush.players@,
                    server.players@,
                );
            }
            let end_of_period = old(server).game.time == 0 && old(server).game.period > 1;
            let gated = !end_of_period && (old(self).pause_timer > 0 || old(server).game.time == 0
                || old(server).game.game_over || old(server).game.period == 0 || old(self).paused);
            if !end_of_period && !gated {
                match m_post_clock.offside_status {
                    HQMOffsideStatus::Warning(team, _side, _pos, _pl) => {
                        lemma_zone_check_stable(s_after_waive, mid_clock, team, 0);
                        lemma_zone_check_stable(mid_clock, s_post_clock, team, 0);
                        lemma_zone_check_stable(s_post_clock, *server, team, 0);
                    },
                    _ => {},
                }
            }
        }
        match_events
    }
}

} // verus!
