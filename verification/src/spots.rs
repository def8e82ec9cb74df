//! Rink geometry in integer centimetres: faceoff spot centres, per-position
//! skater placements around a spot, and team spawn points. Rotations are in
//! hundredths of a degree about the vertical axis; red faces 0, blue 18000.

use vstd::prelude::*;

use crate::positions::HQMFaceoffPosition;
use crate::types::{HQMRinkFaceoffSpot, HQMRinkSide, HQMSpawnPoint, HQMTeam};

verus! {

/// A point on the rink in integer centimetres. The x axis runs across the
/// rink's width, y is up, z runs along its length (red defends high z).
#[derive(Debug, Clone, Copy, PartialEq, Eq, Structural)]
pub struct HQMCmPoint {
    pub x: i32,
    pub y: i32,
    pub z: i32,
}

/// Rotation of the red team's facing.
pub const ROT_RED_CDEG: u32 = 0;

/// Rotation of the blue team's facing: a half turn.
pub const ROT_BLUE_CDEG: u32 = 18000;

/// Rotation of a bench spawn: three quarter turns.
pub const ROT_BENCH_CDEG: u32 = 27000;

/// The rink dimensions the rules engine reads.
#[derive(Debug, Clone, Copy, PartialEq, Eq, Structural)]
pub struct HQMRink {
    pub length_cm: i32,
    pub width_cm: i32,
    pub blue_line_distance_cm: i32,
}

/// Machine bounds on a rink: wide and long enough for every named spot to
/// be computed without overflow or underflow.
pub open spec fn rink_wf(r: HQMRink) -> bool {
    &&& 1800 <= r.width_cm <= 100_000
    &&& 2200 <= r.length_cm <= 100_000
    &&& 0 <= r.blue_line_distance_cm
    &&& r.blue_line_distance_cm + 150 <= r.length_cm
}

/// The standard rink: 61 m by 30 m, blue lines 22.86 m from the end boards.
pub fn default_rink() -> (r: HQMRink)
    ensures
        r == (HQMRink { length_cm: 6100, width_cm: 3000, blue_line_distance_cm: 2286 }),
        rink_wf(r),
{
    HQMRink { length_cm: 6100, width_cm: 3000, blue_line_distance_cm: 2286 }
}

/// Centre point of a named faceoff spot.
pub open spec fn spec_faceoff_spot_center(rink: HQMRink, spot: HQMRinkFaceoffSpot) -> HQMCmPoint {
    let center_x = rink.width_cm / 2;
    match spot {
        HQMRinkFaceoffSpot::Center => HQMCmPoint {
            x: center_x as i32,
            y: 0,
            z: (rink.length_cm / 2) as i32,
        },
        HQMRinkFaceoffSpot::DefensiveZone(team, side) => HQMCmPoint {
            x: if side == HQMRinkSide::Left {
                (center_x - 700) as i32
            } else {
                (center_x + 700) as i32
            },
            y: 0,
            z: if team == HQMTeam::Red {
                (rink.length_cm - 1000) as i32
            } else {
                1000
            },
        },
        HQMRinkFaceoffSpot::Offside(team, side) => HQMCmPoint {
            x: if side == HQMRinkSide::Left {
                (center_x - 700) as i32
            } else {
                (center_x + 700) as i32
            },
            y: 0,
            z: if team == HQMTeam::Red {
                (rink.length_cm - (rink.blue_line_distance_cm + 150)) as i32
            } else {
                (rink.blue_line_distance_cm + 150) as i32
            },
        },
    }
}

/// A resolved faceoff spot: its centre and the zone and board-proximity
/// flags that compress some placements.
#[derive(Debug, Clone, Copy, PartialEq, Eq, Structural)]
pub struct HQMFaceoffSpot {
    pub center_position: HQMCmPoint,
    pub red_defensive_zone: bool,
    pub blue_defensive_zone: bool,
    pub red_left: bool,
    pub red_right: bool,
}

/// The flags derived from a spot centre: a spot within 11 m of an end is in
/// that end's defensive zone, and one within 9 m of a side board compresses
/// the near-side wingers.
pub open spec fn spec_faceoff_spot(rink: HQMRink, spot: HQMRinkFaceoffSpot) -> HQMFaceoffSpot {
    let c = spec_faceoff_spot_center(rink, spot);
    HQMFaceoffSpot {
        center_position: c,
        red_defensive_zone: c.z > rink.length_cm - 1100,
        blue_defensive_zone: c.z < 1100,
        red_left: c.x < 900,
        red_right: c.x > rink.width_cm - 900,
    }
}

/// Resolve a named faceoff spot on a rink.
pub fn get_faceoff_spot(rink: &HQMRink, spot: HQMRinkFaceoffSpot) -> (r: HQMFaceoffSpot)
    requires
        rink_wf(*rink),
    ensures
        r == spec_faceoff_spot(*rink, spot),
{
    let center_x = rink.width_cm / 2;
    let c = match spot {
        HQMRinkFaceoffSpot::Center => HQMCmPoint { x: center_x, y: 0, z: rink.length_cm / 2 },
        HQMRinkFaceoffSpot::DefensiveZone(team, side) => HQMCmPoint {
            x: if side == HQMRinkSide::Left {
                center_x - 700
            } else {
                center_x + 700
            },
            y: 0,
            z: if team == HQMTeam::Red {
                rink.length_cm - 1000
            } else {
                1000
            },
        },
        HQMRinkFaceoffSpot::Offside(team, side) => HQMCmPoint {
            x: if side == HQMRinkSide::Left {
                center_x - 700
            } else {
                center_x + 700
            },
            y: 0,
            z: if team == HQMTeam::Red {
                rink.length_cm - (rink.blue_line_distance_cm + 150)
            } else {
                rink.blue_line_distance_cm + 150
            },
        },
    };
    HQMFaceoffSpot {
        center_position: c,
        red_defensive_zone: c.z > rink.length_cm - 1100,
        blue_defensive_zone: c.z < 1100,
        red_left: c.x < 900,
        red_right: c.x > rink.width_cm - 900,
    }
}

/// Local offset of a position relative to a spot centre, before the team's
/// facing is applied. `is_defensive_zone` pulls the defencemen in, and the
/// board-proximity flags pull the near-side wingers and middles in.
pub open spec fn spec_position_offset(
    position: HQMFaceoffPosition,
    is_defensive_zone: bool,
    is_close_to_left: bool,
    is_close_to_right: bool,
) -> HQMCmPoint {
    let winger_z: i32 = 400;
    let m_z: i32 = 725;
    let d_z: i32 = if is_defensive_zone {
        825
    } else {
        1000
    };
    match position {
        HQMFaceoffPosition::C => HQMCmPoint { x: 0, y: 150, z: 275 },
        HQMFaceoffPosition::LM => HQMCmPoint { x: -200i32, y: 150, z: m_z },
        HQMFaceoffPosition::RM => HQMCmPoint { x: 200, y: 150, z: m_z },
        HQMFaceoffPosition::LW => HQMCmPoint { x: -500i32, y: 150, z: winger_z },
        HQMFaceoffPosition::RW => HQMCmPoint { x: 500, y: 150, z: winger_z },
        HQMFaceoffPosition::LD => HQMCmPoint { x: -200i32, y: 150, z: d_z },
        HQMFaceoffPosition::RD => HQMCmPoint { x: 200, y: 150, z: d_z },
        HQMFaceoffPosition::LLM => HQMCmPoint {
            x: if is_close_to_left && is_defensive_zone {
                -300i32
            } else {
                -500i32
            },
            y: 150,
            z: m_z,
        },
        HQMFaceoffPosition::RRM => HQMCmPoint {
            x: if is_close_to_right && is_defensive_zone {
                300
            } else {
                500
            },
            y: 150,
            z: m_z,
        },
        HQMFaceoffPosition::LLD => HQMCmPoint {
            x: if is_close_to_left && is_defensive_zone {
                -300i32
            } else {
                -500i32
            },
            y: 150,
            z: d_z,
        },
        HQMFaceoffPosition::RRD => HQMCmPoint {
            x: if is_close_to_right && is_defensive_zone {
                300
            } else {
                500
            },
            y: 150,
            z: d_z,
        },
        HQMFaceoffPosition::CM => HQMCmPoint { x: 0, y: 150, z: m_z },
        HQMFaceoffPosition::CD => HQMCmPoint { x: 0, y: 150, z: d_z },
        HQMFaceoffPosition::LW2 => HQMCmPoint { x: -600i32, y: 150, z: winger_z },
        HQMFaceoffPosition::RW2 => HQMCmPoint { x: 600, y: 150, z: winger_z },
        HQMFaceoffPosition::LLW => if is_close_to_left {
            HQMCmPoint { x: -650i32, y: 150, z: 300 }
        } else {
            HQMCmPoint { x: -1000i32, y: 150, z: winger_z }
        },
        HQMFaceoffPosition::RRW => if is_close_to_right {
            HQMCmPoint { x: 650, y: 150, z: 300 }
        } else {
            HQMCmPoint { x: 1000, y: 150, z: winger_z }
        },
        HQMFaceoffPosition::G => HQMCmPoint { x: 0, y: 0, z: 0 },
    }
}

/// Where a team's goalie stands: 5 m out from their own goal line.
pub open spec fn spec_goalie_position(rink: HQMRink, team: HQMTeam) -> HQMCmPoint {
    HQMCmPoint {
        x: (rink.width_cm / 2) as i32,
        y: 150,
        z: if team == HQMTeam::Red {
            (rink.length_cm - 500) as i32
        } else {
            500
        },
    }
}

/// World placement of a position at a spot for a team: the goalie stands at
/// the fixed goalie point; anyone else stands at the spot centre plus the
/// local offset rotated by the team's facing (blue mirrors x and z).
pub open spec fn spec_faceoff_player_position(
    rink: HQMRink,
    spot: HQMFaceoffSpot,
    team: HQMTeam,
    position: HQMFaceoffPosition,
) -> (HQMCmPoint, u32) {
    let rot: u32 = if team == HQMTeam::Red {
        ROT_RED_CDEG
    } else {
        ROT_BLUE_CDEG
    };
    if position == HQMFaceoffPosition::G {
        (spec_goalie_position(rink, team), rot)
    } else {
        let off = spec_position_offset(
            position,
            if team == HQMTeam::Red {
                spot.red_defensive_zone
            } else {
                spot.blue_defensive_zone
            },
            if team == HQMTeam::Red {
                spot.red_left
            } else {
                spot.red_right
            },
            if team == HQMTeam::Red {
                spot.red_right
            } else {
                spot.red_left
            },
        );
        let c = spot.center_position;
        if team == HQMTeam::Red {
            (
                HQMCmPoint {
                    x: (c.x + off.x) as i32,
                    y: (c.y + off.y) as i32,
                    z: (c.z + off.z) as i32,
                },
                rot,
            )
        } else {
            (
                HQMCmPoint {
                    x: (c.x - off.x) as i32,
                    y: (c.y + off.y) as i32,
                    z: (c.z - off.z) as i32,
                },
                rot,
            )
        }
    }
}

/// Bounds under which a spot's centre stays well inside `i32` arithmetic.
pub open spec fn spot_in_rink(rink: HQMRink, spot: HQMFaceoffSpot) -> bool {
    &&& -200_000 <= spot.center_position.x <= 200_000
    &&& -200_000 <= spot.center_position.y <= 200_000
    &&& -200_000 <= spot.center_position.z <= 200_000
}

/// Compute the world placement of one position at a resolved spot.
pub fn faceoff_player_position(
    rink: &HQMRink,
    spot: &HQMFaceoffSpot,
    team: HQMTeam,
    position: HQMFaceoffPosition,
) -> (r: (HQMCmPoint, u32))
    requires
        rink_wf(*rink),
        spot_in_rink(*rink, *spot),
        team == HQMTeam::Red || team == HQMTeam::Blue,
    ensures
        r == spec_faceoff_player_position(*rink, *spot, team, position),
{
    let rot: u32 = if team == HQMTeam::Red {
        ROT_RED_CDEG
    } else {
        ROT_BLUE_CDEG
    };
    if position == HQMFaceoffPosition::G {
        let z = if team == HQMTeam::Red {
            rink.length_cm - 500
        } else {
            500
        };
        (HQMCmPoint { x: rink.width_cm / 2, y: 150, z }, rot)
    } else {
        let is_defensive_zone = if team == HQMTeam::Red {
            spot.red_defensive_zone
        } else {
            spot.blue_defensive_zone
        };
        let is_close_to_left = if team == HQMTeam::Red {
            spot.red_left
        } else {
            spot.red_right
        };
        let is_close_to_right = if team == HQMTeam::Red {
            spot.red_right
        } else {
            spot.red_left
        };
        let off = position_offset(position, is_defensive_zone, is_close_to_left, is_close_to_right);
        let c = spot.center_position;
        if team == HQMTeam::Red {
            (HQMCmPoint { x: c.x + off.x, y: c.y + off.y, z: c.z + off.z }, rot)
        } else {
            (HQMCmPoint { x: c.x - off.x, y: c.y + off.y, z: c.z - off.z }, rot)
        }
    }
}

fn position_offset(
    position: HQMFaceoffPosition,
    is_defensive_zone: bool,
    is_close_to_left: bool,
    is_close_to_right: bool,
) -> (r: HQMCmPoint)
    ensures
        r == spec_position_offset(position, is_defensive_zone, is_close_to_left, is_close_to_right),
        -1000 <= r.x <= 1000 && 0 <= r.y <= 150 && 0 <= r.z <= 1000,
{
    let winger_z: i32 = 400;
    let m_z: i32 = 725;
    let d_z: i32 = if is_defensive_zone {
        825
    } else {
        1000
    };
    match position {
        HQMFaceoffPosition::C => HQMCmPoint { x: 0, y: 150, z: 275 },
        HQMFaceoffPosition::LM => HQMCmPoint { x: -200i32, y: 150, z: m_z },
        HQMFaceoffPosition::RM => HQMCmPoint { x: 200, y: 150, z: m_z },
        HQMFaceoffPosition::LW => HQMCmPoint { x: -500i32, y: 150, z: winger_z },
        HQMFaceoffPosition::RW => HQMCmPoint { x: 500, y: 150, z: winger_z },
        HQMFaceoffPosition::LD => HQMCmPoint { x: -200i32, y: 150, z: d_z },
        HQMFaceoffPosition::RD => HQMCmPoint { x: 200, y: 150, z: d_z },
        HQMFaceoffPosition::LLM => HQMCmPoint {
            x: if is_close_to_left && is_defensive_zone {
                -300i32
            } else {
                -500i32
            },
            y: 150,
            z: m_z,
        },
        HQMFaceoffPosition::RRM => HQMCmPoint {
            x: if is_close_to_right && is_defensive_zone {
                300
            } else {
                500
            },
            y: 150,
            z: m_z,
        },
        HQMFaceoffPosition::LLD => HQMCmPoint {
            x: if is_close_to_left && is_defensive_zone {
                -300i32
            } else {
                -500i32
            },
            y: 150,
            z: d_z,
        },
        HQMFaceoffPosition::RRD => HQMCmPoint {
            x: if is_close_to_right && is_defensive_zone {
                300
            } else {
                500
            },
            y: 150,
            z: d_z,
        },
        HQMFaceoffPosition::CM => HQMCmPoint { x: 0, y: 150, z: m_z },
        HQMFaceoffPosition::CD => HQMCmPoint { x: 0, y: 150, z: d_z },
        HQMFaceoffPosition::LW2 => HQMCmPoint { x: -600i32, y: 150, z: winger_z },
        HQMFaceoffPosition::RW2 => HQMCmPoint { x: 600, y: 150, z: winger_z },
        HQMFaceoffPosition::LLW => if is_close_to_left {
            HQMCmPoint { x: -650i32, y: 150, z: 300 }
        } else {
            HQMCmPoint { x: -1000i32, y: 150, z: winger_z }
        },
        HQMFaceoffPosition::RRW => if is_close_to_right {
            HQMCmPoint { x: 650, y: 150, z: 300 }
        } else {
            HQMCmPoint { x: 1000, y: 150, z: winger_z }
        },
        HQMFaceoffPosition::G => HQMCmPoint { x: 0, y: 0, z: 0 },
    }
}

/// Where a player entering a team first appears.
pub open spec fn spec_spawnpoint(
    rink: HQMRink,
    team: HQMTeam,
    spawn_point: HQMSpawnPoint,
) -> (HQMCmPoint, u32) {
    let half_z = rink.length_cm / 2;
    match team {
        HQMTeam::Red => match spawn_point {
            HQMSpawnPoint::Center => (
                HQMCmPoint { x: (rink.width_cm / 2) as i32, y: 200, z: (half_z + 300) as i32 },
                ROT_RED_CDEG,
            ),
            HQMSpawnPoint::Bench => (
                HQMCmPoint { x: 50, y: 200, z: (half_z + 400) as i32 },
                ROT_BENCH_CDEG,
            ),
        },
        _ => match spawn_point {
            HQMSpawnPoint::Center => (
                HQMCmPoint { x: (rink.width_cm / 2) as i32, y: 200, z: (half_z - 300) as i32 },
                ROT_BLUE_CDEG,
            ),
            HQMSpawnPoint::Bench => (
                HQMCmPoint { x: 50, y: 200, z: (half_z - 400) as i32 },
                ROT_BENCH_CDEG,
            ),
        },
    }
}

/// Compute a team's spawn point on a rink.
pub fn get_spawnpoint(rink: &HQMRink, team: HQMTeam, spawn_point: HQMSpawnPoint) -> (r: (
    HQMCmPoint,
    u32,
))
    requires
        rink_wf(*rink),
    ensures
        r == spec_spawnpoint(*rink, team, spawn_point),
{
    let half_z = rink.length_cm / 2;
    match team {
        HQMTeam::Red => match spawn_point {
            HQMSpawnPoint::Center => (
                HQMCmPoint { x: rink.width_cm / 2, y: 200, z: half_z + 300 },
                ROT_RED_CDEG,
            ),
            HQMSpawnPoint::Bench => (
                HQMCmPoint { x: 50, y: 200, z: half_z + 400 },
                ROT_BENCH_CDEG,
            ),
        },
        _ => match spawn_point {
            HQMSpawnPoint::Center => (
                HQMCmPoint { x: rink.width_cm / 2, y: 200, z: half_z - 300 },
                ROT_BLUE_CDEG,
            ),
            HQMSpawnPoint::Bench => (
                HQMCmPoint { x: 50, y: 200, z: half_z - 400 },
                ROT_BENCH_CDEG,
            ),
        },
    }
}

} // verus!
