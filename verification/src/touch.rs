//! The puck-touch ledger: an insertion-ordered bounded history of which
//! player touched which puck when, newest entry at the front, capped at 16
//! entries, with consecutive same-player-same-team touches coalesced.
//! Goal and assist attribution scans this ledger.

use vstd::prelude::*;

use crate::types::{HQMObjectIndex, HQMServerPlayerIndex, HQMTeam};

verus! {

/// Position on the rink in integer centimetres.
#[derive(Debug, Clone, Copy, PartialEq, Eq, Structural)]
pub struct HQMCmPosition {
    pub x_cm: u32,
    pub y_cm: u32,
    pub z_cm: u32,
}

/// One entry of the puck-touch ledger. Times are in centiseconds of game
/// clock; the puck speed is in millimetres per tick.
#[derive(Debug, Clone, Copy, PartialEq, Eq, Structural)]
pub struct HQMPuckTouch {
    pub player_index: HQMServerPlayerIndex,
    pub skater_index: HQMObjectIndex,
    pub team: HQMTeam,
    pub puck_pos: HQMCmPosition,
    pub puck_speed: u32,
    pub first_time: u32,
    pub last_time: u32,
}

/// Well-formedness of a ledger: at most 16 entries and no two adjacent
/// entries with the same (player, team) pair (those are coalesced).
pub open spec fn touches_wf(s: Seq<HQMPuckTouch>) -> bool {
    &&& s.len() <= 16
    &&& forall|i: int|
        0 <= i < s.len() - 1 ==> !(#[trigger] s[i].player_index == s[i + 1].player_index
            && s[i].team == s[i + 1].team)
}

/// The ledger after recording a touch: if the front entry is by the same
/// player and team it is updated in place, otherwise the ledger is cut to
/// 15 entries and a fresh entry is pushed to the front.
pub open spec fn spec_add_touch(
    s: Seq<HQMPuckTouch>,
    player_index: HQMServerPlayerIndex,
    skater_index: HQMObjectIndex,
    team: HQMTeam,
    puck_pos: HQMCmPosition,
    puck_speed: u32,
    time: u32,
) -> Seq<HQMPuckTouch> {
    if s.len() > 0 && s[0].player_index == player_index && s[0].team == team {
        s.update(
            0,
            HQMPuckTouch {
                player_index: s[0].player_index,
                skater_index: s[0].skater_index,
                team: s[0].team,
                puck_pos,
                puck_speed,
                first_time: s[0].first_time,
                last_time: time,
            },
        )
    } else {
        seq![
            HQMPuckTouch {
                player_index,
                skater_index,
                team,
                puck_pos,
                puck_speed,
                first_time: time,
                last_time: time,
            },
        ] + s.take(if s.len() <= 15 { s.len() as int } else { 15 })
    }
}

/// Record a touch in a ledger, coalescing a repeated touch by the same
/// player and keeping the ledger bounded at 16 entries.
pub fn add_touch(
    touches: &mut Vec<HQMPuckTouch>,
    player_index: HQMServerPlayerIndex,
    skater_index: HQMObjectIndex,
    team: HQMTeam,
    puck_pos: HQMCmPosition,
    puck_speed: u32,
    time: u32,
)
    ensures
        final(touches)@ == spec_add_touch(
            old(touches)@,
            player_index,
            skater_index,
            team,
            puck_pos,
            puck_speed,
            time,
        ),
        touches_wf(old(touches)@) ==> touches_wf(final(touches)@),
{
    let same_front = touches.len() > 0 && {
        let front = &touches[0];
        front.player_index == player_index && front.team == team
    };
    if same_front {
        let old_front = touches[0];
        touches.set(
            0,
            HQMPuckTouch {
                player_index: old_front.player_index,
                skater_index: old_front.skater_index,
                team: old_front.team,
                puck_pos,
                puck_speed,
                first_time: old_front.first_time,
                last_time: time,
            },
        );
    } else {
        if touches.len() > 15 {
            touches.truncate(15);
        }
        touches.insert(
            0,
            HQMPuckTouch {
                player_index,
                skater_index,
                team,
                puck_pos,
                puck_speed,
                first_time: time,
                last_time: time,
            },
        );
        assert(touches@ =~= spec_add_touch(
            old(touches)@,
            player_index,
            skater_index,
            team,
            puck_pos,
            puck_speed,
            time,
        ));
    }
}

/// Index of the first ledger entry at or after `i` whose team is `team`,
/// or -1 when there is none. The front of the ledger is index 0, so this
/// finds the most recent touch by that team.
pub open spec fn scorer_idx_from(s: Seq<HQMPuckTouch>, team: HQMTeam, i: int) -> int
    decreases s.len() - i,
{
    if i < 0 || i >= s.len() {
        -1
    } else if s[i].team == team {
        i
    } else {
        scorer_idx_from(s, team, i + 1)
    }
}

/// The assist: scanning at or after `i`, skip entries of other teams;
/// a further entry by the scorer only refreshes the scorer's first-touch
/// time `f`; the first entry by a different player of the scoring team is
/// the assist, provided its last touch came within 1000 centiseconds of
/// `f`, and the scan stops there either way.
pub open spec fn assist_from(
    s: Seq<HQMPuckTouch>,
    team: HQMTeam,
    scorer: HQMServerPlayerIndex,
    f: u32,
    i: int,
) -> Option<HQMServerPlayerIndex>
    decreases s.len() - i,
{
    if i < 0 || i >= s.len() {
        None
    } else if s[i].team == team {
        if s[i].player_index == scorer {
            assist_from(s, team, scorer, s[i].first_time, i + 1)
        } else if s[i].last_time >= f && s[i].last_time - f <= 1000 {
            Some(s[i].player_index)
        } else if s[i].last_time < f {
            // saturating difference is 0, within the window
            Some(s[i].player_index)
        } else {
            None
        }
    } else {
        assist_from(s, team, scorer, f, i + 1)
    }
}

/// Everything goal attribution reads off a ledger for a scoring team:
/// the scorer (most recent toucher of that team), the assist, the puck
/// speed stored on the scorer's touch entry, and the most recent toucher
/// of either team (for the replay camera).
pub struct HQMGoalAttribution {
    pub goal_scorer_index: Option<HQMServerPlayerIndex>,
    pub assist_index: Option<HQMServerPlayerIndex>,
    pub puck_speed_from_stick: Option<u32>,
    pub last_touch: Option<HQMServerPlayerIndex>,
}

/// Walk the ledger suffix starting at `i` looking for the assist.
fn assist_rec(
    touches: &Vec<HQMPuckTouch>,
    team: HQMTeam,
    scorer: HQMServerPlayerIndex,
    f: u32,
    i: usize,
) -> (r: Option<HQMServerPlayerIndex>)
    requires
        i <= touches@.len(),
    ensures
        r == assist_from(touches@, team, scorer, f, i as int),
    decreases touches@.len() - i,
{
    if i >= touches.len() {
        None
    } else {
        let t = &touches[i];
        if t.team == team {
            if t.player_index == scorer {
                assist_rec(touches, team, scorer, t.first_time, i + 1)
            } else {
                let diff = if t.last_time >= f {
                    t.last_time - f
                } else {
                    0
                };
                if diff <= 1000 {
                    Some(t.player_index)
                } else {
                    None
                }
            }
        } else {
            assist_rec(touches, team, scorer, f, i + 1)
        }
    }
}

/// Walk the ledger suffix starting at `i` looking for the scorer.
fn scorer_rec(touches: &Vec<HQMPuckTouch>, team: HQMTeam, i: usize) -> (r: Option<usize>)
    requires
        i <= touches@.len(),
    ensures
        r is Some <==> scorer_idx_from(touches@, team, i as int) >= 0,
        r is Some ==> r.unwrap() as int == scorer_idx_from(touches@, team, i as int)
            && r.unwrap() < touches@.len(),
    decreases touches@.len() - i,
{
    if i >= touches.len() {
        None
    } else if touches[i].team == team {
        Some(i)
    } else {
        scorer_rec(touches, team, i + 1)
    }
}

/// Resolve goal attribution for `team` from a puck's touch ledger: the
/// scorer is the most recent toucher of that team; the assist is the next
/// distinct player of that team whose touch fell within the 1000-centisecond
/// window of the scorer's (possibly refreshed) first touch.
pub fn get_goal_attribution(touches: &Vec<HQMPuckTouch>, team: HQMTeam) -> (r: HQMGoalAttribution)
    ensures
        r.last_touch == (if touches@.len() > 0 {
            Some(touches@[0].player_index)
        } else {
            Option::<HQMServerPlayerIndex>::None
        }),
        ({
            let k = scorer_idx_from(touches@, team, 0);
            &&& (r.goal_scorer_index is Some <==> k >= 0)
            &&& k >= 0 ==> {
                &&& r.goal_scorer_index == Some(touches@[k].player_index)
                &&& r.puck_speed_from_stick == Some(touches@[k].puck_speed)
                &&& r.assist_index == assist_from(
                    touches@,
                    team,
                    touches@[k].player_index,
                    touches@[k].first_time,
                    k + 1,
                )
            }
            &&& k < 0 ==> r.assist_index is None && r.puck_speed_from_stick is None
        }),
{
    let last_touch = if touches.len() > 0 {
        Some(touches[0].player_index)
    } else {
        None
    };
    match scorer_rec(touches, team, 0) {
        Some(k) => {
            let scorer = touches[k].player_index;
            let first_time = touches[k].first_time;
            let speed = touches[k].puck_speed;
            let assist = assist_rec(touches, team, scorer, first_time, k + 1);
            HQMGoalAttribution {
                goal_scorer_index: Some(scorer),
                assist_index: assist,
                puck_speed_from_stick: Some(speed),
                last_touch,
            }
        },
        None => HQMGoalAttribution {
            goal_scorer_index: None,
            assist_index: None,
            puck_speed_from_stick: None,
            last_touch,
        },
    }
}

} // verus!
