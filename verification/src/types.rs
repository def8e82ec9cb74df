//! Core data model of the match rules engine: teams, rink sides, faceoff
//! spots, pass tracking, rule-machine statuses and the match configuration.

use vstd::prelude::*;

verus! {

/// Index of a connected player in the server's slot table.
#[derive(Debug, Clone, Copy, PartialEq, Eq, Structural)]
pub struct HQMServerPlayerIndex(pub usize);

/// Index of a game object (skater or puck) in the world's object table.
#[derive(Debug, Clone, Copy, PartialEq, Eq, Structural)]
pub struct HQMObjectIndex(pub usize);

/// A team. `Red` and `Blue` are opposing; `Spec` (spectator) is not on ice.
#[derive(Debug, Clone, Copy, PartialEq, Eq, Structural)]
pub enum HQMTeam {
    Red,
    Blue,
    Spec,
}

impl HQMTeam {
    /// The opposing team; spectators have no opponent.
    pub fn get_other_team(self) -> (r: HQMTeam)
        ensures
            self == HQMTeam::Red ==> r == HQMTeam::Blue,
            self == HQMTeam::Blue ==> r == HQMTeam::Red,
            self == HQMTeam::Spec ==> r == HQMTeam::Spec,
    {
        match self {
            HQMTeam::Red => HQMTeam::Blue,
            HQMTeam::Blue => HQMTeam::Red,
            HQMTeam::Spec => HQMTeam::Spec,
        }
    }

    /// The wire encoding of a team: red 0, blue 1, spectator all-ones.
    pub fn get_num(self) -> (r: u32)
        ensures
            r == team_num(self),
    {
        match self {
            HQMTeam::Red => 0,
            HQMTeam::Blue => 1,
            HQMTeam::Spec => u32::MAX,
        }
    }

    /// Whether this team is actually on the ice.
    pub fn is_on_ice(self) -> (r: bool)
        ensures
            r == (self != HQMTeam::Spec),
    {
        match self {
            HQMTeam::Red => true,
            HQMTeam::Blue => true,
            HQMTeam::Spec => false,
        }
    }
}

/// Wire encoding of a team.
pub open spec fn team_num(t: HQMTeam) -> u32 {
    match t {
        HQMTeam::Red => 0,
        HQMTeam::Blue => 1,
        HQMTeam::Spec => u32::MAX,
    }
}

/// Rink half along the width axis, relative to the red defensive zone.
#[derive(Debug, Clone, Copy, PartialEq, Eq, Structural)]
pub enum HQMRinkSide {
    Left,
    Right,
}

/// A named faceoff location: centre ice, a defensive-zone spot, or a
/// neutral-zone ("offside") spot, the latter two per team and side.
#[derive(Debug, Clone, Copy, PartialEq, Eq, Structural)]
pub enum HQMRinkFaceoffSpot {
    Center,
    DefensiveZone(HQMTeam, HQMRinkSide),
    Offside(HQMTeam, HQMRinkSide),
}

/// How far a pass has travelled, as the furthest line the puck has reached.
/// Totally ordered by `pass_position_rank`.
#[derive(Debug, Clone, Copy, PartialEq, Eq, Structural)]
pub enum HQMPassPosition {
    NoLine,
    ReachedOwnBlue,
    PassedOwnBlue,
    ReachedCenter,
    PassedCenter,
    ReachedOffensive,
    PassedOffensive,
}

/// Rank in the total order of pass positions.
pub open spec fn pass_position_rank(p: HQMPassPosition) -> int {
    match p {
        HQMPassPosition::NoLine => 0,
        HQMPassPosition::ReachedOwnBlue => 1,
        HQMPassPosition::PassedOwnBlue => 2,
        HQMPassPosition::ReachedCenter => 3,
        HQMPassPosition::PassedCenter => 4,
        HQMPassPosition::ReachedOffensive => 5,
        HQMPassPosition::PassedOffensive => 6,
    }
}

/// `a <= b` in the pass-position order.
pub open spec fn pass_position_le(a: HQMPassPosition, b: HQMPassPosition) -> bool {
    pass_position_rank(a) <= pass_position_rank(b)
}

impl HQMPassPosition {
    /// Rank in the total order of pass positions.
    pub fn rank(self) -> (r: u8)
        ensures
            r as int == pass_position_rank(self),
    {
        match self {
            HQMPassPosition::NoLine => 0,
            HQMPassPosition::ReachedOwnBlue => 1,
            HQMPassPosition::PassedOwnBlue => 2,
            HQMPassPosition::ReachedCenter => 3,
            HQMPassPosition::PassedCenter => 4,
            HQMPassPosition::ReachedOffensive => 5,
            HQMPassPosition::PassedOffensive => 6,
        }
    }

    /// `self <= other` in the pass-position order.
    pub fn le(self, other: HQMPassPosition) -> (r: bool)
        ensures
            r == pass_position_le(self, other),
    {
        self.rank() <= other.rank()
    }
}

/// The record spanning a single puck possession: which team and player the
/// puck came from, on which side of the rink, and (once known) the furthest
/// line it had reached when the pass began.
#[derive(Debug, Clone, Copy, PartialEq, Eq, Structural)]
pub struct HQMPass {
    pub team: HQMTeam,
    pub side: HQMRinkSide,
    pub from: Option<HQMPassPosition>,
    pub player: HQMServerPlayerIndex,
}

/// Icing rule variant.
#[derive(Debug, Clone, Copy, PartialEq, Eq, Structural)]
pub enum HQMIcingConfiguration {
    Off,
    Touch,
    NoTouch,
}

/// Offside rule variant.
#[derive(Debug, Clone, Copy, PartialEq, Eq, Structural)]
pub enum HQMOffsideConfiguration {
    Off,
    Delayed,
    Immediate,
}

/// Two-line pass rule variant.
#[derive(Debug, Clone, Copy, PartialEq, Eq, Structural)]
pub enum HQMTwoLinePassConfiguration {
    Off,
    On,
    Forward,
    Double,
    ThreeLine,
}

/// Which line bounds the offside zone: the offensive blue line or centre.
#[derive(Debug, Clone, Copy, PartialEq, Eq, Structural)]
pub enum HQMOffsideLineConfiguration {
    OffensiveBlue,
    Center,
}

/// Where a player entering a team spawns.
#[derive(Debug, Clone, Copy, PartialEq, Eq, Structural)]
pub enum HQMSpawnPoint {
    Center,
    Bench,
}

/// Icing machine state. `Warning` means the puck crossed the opponent's goal
/// line untouched after originating from behind centre, awaiting a touch.
#[derive(Debug, Clone, PartialEq, Eq, Structural)]
pub enum HQMIcingStatus {
    No,
    Warning(HQMTeam, HQMRinkSide),
    Icing(HQMTeam),
}

/// Offside machine state. `InOffensiveZone` suppresses new warnings until
/// the puck leaves the zone; `Warning` records the pass that caused it.
#[derive(Debug, Clone, PartialEq, Eq, Structural)]
pub enum HQMOffsideStatus {
    Neutral,
    InOffensiveZone(HQMTeam),
    Warning(HQMTeam, HQMRinkSide, Option<HQMPassPosition>, HQMServerPlayerIndex),
    Offside(HQMTeam),
}

/// Two-line pass machine state; a `Warning` lists the offending players.
#[derive(Debug, Clone, PartialEq, Eq)]
pub enum HQMTwoLinePassStatus {
    No,
    Warning(HQMTeam, HQMRinkSide, HQMPassPosition, Vec<HQMServerPlayerIndex>),
    Offside(HQMTeam),
}

/// Rules summary derived each tick for the clients.
#[derive(Debug, Clone, Copy, PartialEq, Eq, Structural)]
pub enum HQMRulesState {
    Regular { offside_warning: bool, icing_warning: bool },
    Offside,
    Icing,
}

/// Immutable per-game match configuration. All times are in seconds (they
/// are multiplied by 100 to become centisecond tick counts), all distances
/// in integer centimetres.
#[derive(Debug, Clone, Copy, PartialEq, Eq, Structural)]
pub struct HQMMatchConfiguration {
    pub time_period: u32,
    pub time_warmup: u32,
    pub time_break: u32,
    pub time_intermission: u32,
    pub mercy: u32,
    pub first_to: u32,
    pub periods: u32,
    pub offside: HQMOffsideConfiguration,
    pub icing: HQMIcingConfiguration,
    pub offside_line: HQMOffsideLineConfiguration,
    pub twoline_pass: HQMTwoLinePassConfiguration,
    pub warmup_pucks: usize,
    pub blue_line_location_cm: u32,
    pub use_mph: bool,
    pub goal_replay: bool,
}

/// The machine limit on configured times: each is multiplied by 100 to get
/// ticks, and the product must fit in a `u32`.
pub open spec fn match_config_wf(c: HQMMatchConfiguration) -> bool {
    &&& c.time_period <= 42_000_000
    &&& c.time_warmup <= 42_000_000
    &&& c.time_break <= 42_000_000
    &&& c.time_intermission <= 42_000_000
    &&& c.warmup_pucks <= 32
    &&& c.blue_line_location_cm <= 5950
}

/// A match event reported to the embedding server loop. Speeds are in
/// millimetres per tick, as handed in by the simulation.
#[derive(Debug, Clone, Copy, PartialEq, Eq, Structural)]
pub enum HQMMatchEvent {
    Goal {
        team: HQMTeam,
        goal: Option<HQMServerPlayerIndex>,
        assist: Option<HQMServerPlayerIndex>,
        speed: Option<u32>,
        speed_across_line: u32,
        time: u32,
        period: u32,
    },
}

} // verus!
