//! Faceoff position assignment: mapping each rostered player to one of the
//! 18 named skater positions, honouring preferences when possible and
//! guaranteeing that someone takes centre.

use vstd::prelude::*;

use crate::types::{HQMServerPlayerIndex, HQMTeam};

verus! {

/// The 18 named faceoff positions.
#[derive(Debug, Clone, Copy, PartialEq, Eq, Structural)]
pub enum HQMFaceoffPosition {
    C,
    LW,
    RW,
    LD,
    RD,
    G,
    LM,
    RM,
    LLM,
    RRM,
    LLD,
    RRD,
    CM,
    CD,
    LW2,
    RW2,
    LLW,
    RRW,
}

/// The position pool in its canonical order.
pub open spec fn allowed_positions() -> Seq<HQMFaceoffPosition> {
    seq![
        HQMFaceoffPosition::C,
        HQMFaceoffPosition::LW,
        HQMFaceoffPosition::RW,
        HQMFaceoffPosition::LD,
        HQMFaceoffPosition::RD,
        HQMFaceoffPosition::G,
        HQMFaceoffPosition::LM,
        HQMFaceoffPosition::RM,
        HQMFaceoffPosition::LLM,
        HQMFaceoffPosition::RRM,
        HQMFaceoffPosition::LLD,
        HQMFaceoffPosition::RRD,
        HQMFaceoffPosition::CM,
        HQMFaceoffPosition::CD,
        HQMFaceoffPosition::LW2,
        HQMFaceoffPosition::RW2,
        HQMFaceoffPosition::LLW,
        HQMFaceoffPosition::RRW,
    ]
}

/// Build the position pool.
pub fn make_allowed_positions() -> (v: Vec<HQMFaceoffPosition>)
    ensures
        v@ =~= allowed_positions(),
{
    let mut v: Vec<HQMFaceoffPosition> = Vec::new();
    v.push(HQMFaceoffPosition::C);
    v.push(HQMFaceoffPosition::LW);
    v.push(HQMFaceoffPosition::RW);
    v.push(HQMFaceoffPosition::LD);
    v.push(HQMFaceoffPosition::RD);
    v.push(HQMFaceoffPosition::G);
    v.push(HQMFaceoffPosition::LM);
    v.push(HQMFaceoffPosition::RM);
    v.push(HQMFaceoffPosition::LLM);
    v.push(HQMFaceoffPosition::RRM);
    v.push(HQMFaceoffPosition::LLD);
    v.push(HQMFaceoffPosition::RRD);
    v.push(HQMFaceoffPosition::CM);
    v.push(HQMFaceoffPosition::CD);
    v.push(HQMFaceoffPosition::LW2);
    v.push(HQMFaceoffPosition::RW2);
    v.push(HQMFaceoffPosition::LLW);
    v.push(HQMFaceoffPosition::RRW);
    v
}

/// One assignment: a player, the team they play for, and their position.
pub type HQMPositionEntry = (HQMServerPlayerIndex, (HQMTeam, HQMFaceoffPosition));

/// First index at or after `i` whose key is `k`, or -1.
pub open spec fn pm_find(s: Seq<HQMPositionEntry>, k: HQMServerPlayerIndex, i: int) -> int
    decreases s.len() - i,
{
    if i < 0 || i >= s.len() {
        -1
    } else if s[i].0 == k {
        i
    } else {
        pm_find(s, k, i + 1)
    }
}

/// Insert or replace the assignment of player `k`.
pub open spec fn pm_insert(
    s: Seq<HQMPositionEntry>,
    k: HQMServerPlayerIndex,
    v: (HQMTeam, HQMFaceoffPosition),
) -> Seq<HQMPositionEntry> {
    let f = pm_find(s, k, 0);
    if f >= 0 {
        s.update(f, (k, v))
    } else {
        s.push((k, v))
    }
}

/// The assignments produced so far, as an association list with one entry
/// per player (insertion replaces the earlier entry for the same player).
pub struct HQMPositionMap {
    entries: Vec<HQMPositionEntry>,
}

impl HQMPositionMap {
    /// The underlying assignment list.
    pub closed spec fn view(&self) -> Seq<HQMPositionEntry> {
        self.entries@
    }

    /// An empty assignment.
    pub fn new() -> (r: HQMPositionMap)
        ensures
            r@ =~= Seq::<HQMPositionEntry>::empty(),
    {
        HQMPositionMap { entries: Vec::new() }
    }

    /// How many players are assigned.
    pub fn len(&self) -> (r: usize)
        ensures
            r == self@.len(),
    {
        self.entries.len()
    }

    /// The entry at a list index.
    pub fn entry_at(&self, i: usize) -> (r: HQMPositionEntry)
        requires
            i < self@.len(),
        ensures
            r == self@[i as int],
    {
        self.entries[i]
    }

    fn find_from(&self, k: HQMServerPlayerIndex, i: usize) -> (r: Option<usize>)
        requires
            i <= self@.len(),
        ensures
            r is Some <==> pm_find(self@, k, i as int) >= 0,
            r is Some ==> r.unwrap() as int == pm_find(self@, k, i as int) && r.unwrap()
                < self@.len(),
        decreases self@.len() - i,
    {
        if i >= self.entries.len() {
            None
        } else if self.entries[i].0 == k {
            Some(i)
        } else {
            self.find_from(k, i + 1)
        }
    }

    /// Look up a player's assignment.
    pub fn get(&self, k: HQMServerPlayerIndex) -> (r: Option<(HQMTeam, HQMFaceoffPosition)>)
        ensures
            r is Some <==> pm_find(self@, k, 0) >= 0,
            r is Some ==> r == Some(self@[pm_find(self@, k, 0)].1),
    {
        match self.find_from(k, 0) {
            Some(i) => Some(self.entries[i].1),
            None => None,
        }
    }

    /// Whether a player is assigned.
    pub fn contains_key(&self, k: HQMServerPlayerIndex) -> (r: bool)
        ensures
            r <==> pm_find(self@, k, 0) >= 0,
    {
        self.find_from(k, 0).is_some()
    }

    /// Assign a player, replacing any earlier assignment.
    pub fn insert(&mut self, k: HQMServerPlayerIndex, v: (HQMTeam, HQMFaceoffPosition))
        ensures
            final(self)@ == pm_insert(old(self)@, k, v),
    {
        match self.find_from(k, 0) {
            Some(i) => {
                self.entries.set(i, (k, v));
            },
            None => {
                self.entries.push((k, v));
            },
        }
    }
}

/// First index at or after `i` of position `p` in the pool, or -1.
pub open spec fn pos_find(s: Seq<HQMFaceoffPosition>, p: HQMFaceoffPosition, i: int) -> int
    decreases s.len() - i,
{
    if i < 0 || i >= s.len() {
        -1
    } else if s[i] == p {
        i
    } else {
        pos_find(s, p, i + 1)
    }
}

fn pool_find(avail: &Vec<HQMFaceoffPosition>, p: HQMFaceoffPosition, i: usize) -> (r: Option<
    usize,
>)
    requires
        i <= avail@.len(),
    ensures
        r is Some <==> pos_find(avail@, p, i as int) >= 0,
        r is Some ==> r.unwrap() as int == pos_find(avail@, p, i as int) && r.unwrap()
            < avail@.len(),
    decreases avail@.len() - i,
{
    if i >= avail.len() {
        None
    } else if avail[i] == p {
        Some(i)
    } else {
        pool_find(avail, p, i + 1)
    }
}

/// A roster entry: a player and their optional preferred position.
pub type HQMRosterEntry = (HQMServerPlayerIndex, Option<HQMFaceoffPosition>);

/// Round one: give each player their preferred position while available.
pub open spec fn spec_round_preferred(
    entries: Seq<HQMPositionEntry>,
    avail: Seq<HQMFaceoffPosition>,
    players: Seq<HQMRosterEntry>,
    team: HQMTeam,
    i: int,
) -> (Seq<HQMPositionEntry>, Seq<HQMFaceoffPosition>)
    decreases players.len() - i,
{
    if i < 0 || i >= players.len() {
        (entries, avail)
    } else {
        match players[i].1 {
            Some(p) => {
                let f = pos_find(avail, p, 0);
                if f >= 0 {
                    spec_round_preferred(
                        pm_insert(entries, players[i].0, (team, p)),
                        avail.remove(f),
                        players,
                        team,
                        i + 1,
                    )
                } else {
                    spec_round_preferred(entries, avail, players, team, i + 1)
                }
            },
            None => spec_round_preferred(entries, avail, players, team, i + 1),
        }
    }
}

/// Round two: every still-unassigned player takes centre if free, else any
/// remaining position, else (pool exhausted) their preference or centre.
pub open spec fn spec_round_fill(
    entries: Seq<HQMPositionEntry>,
    avail: Seq<HQMFaceoffPosition>,
    players: Seq<HQMRosterEntry>,
    team: HQMTeam,
    i: int,
) -> (Seq<HQMPositionEntry>, Seq<HQMFaceoffPosition>)
    decreases players.len() - i,
{
    if i < 0 || i >= players.len() {
        (entries, avail)
    } else if pm_find(entries, players[i].0, 0) >= 0 {
        spec_round_fill(entries, avail, players, team, i + 1)
    } else {
        let fc = pos_find(avail, HQMFaceoffPosition::C, 0);
        if fc >= 0 {
            spec_round_fill(
                pm_insert(entries, players[i].0, (team, HQMFaceoffPosition::C)),
                avail.remove(fc),
                players,
                team,
                i + 1,
            )
        } else if avail.len() > 0 {
            spec_round_fill(
                pm_insert(entries, players[i].0, (team, avail[0])),
                avail.remove(0),
                players,
                team,
                i + 1,
            )
        } else {
            let p = match players[i].1 {
                Some(p) => p,
                None => HQMFaceoffPosition::C,
            };
            spec_round_fill(pm_insert(entries, players[i].0, (team, p)), avail, players, team, i + 1)
        }
    }
}

/// The player who is moved onto centre when centre went unassigned: the
/// first player of the roster not currently holding goal, or failing that
/// the first player.
pub open spec fn spec_centre_candidate(
    entries: Seq<HQMPositionEntry>,
    players: Seq<HQMRosterEntry>,
    i: int,
    found_first: Option<HQMServerPlayerIndex>,
) -> Option<HQMServerPlayerIndex>
    decreases players.len() - i,
{
    if i < 0 || i >= players.len() {
        found_first
    } else {
        let cand = match found_first {
            Some(c) => Some(c),
            None => Some(players[i].0),
        };
        let f = pm_find(entries, players[i].0, 0);
        if f >= 0 && entries[f].1.1 != HQMFaceoffPosition::G {
            Some(players[i].0)
        } else {
            spec_centre_candidate(entries, players, i + 1, cand)
        }
    }
}

/// The complete assignment pass for one team's roster.
pub open spec fn spec_setup_position(
    entries: Seq<HQMPositionEntry>,
    players: Seq<HQMRosterEntry>,
    team: HQMTeam,
) -> Seq<HQMPositionEntry> {
    let (e1, a1) = spec_round_preferred(entries, allowed_positions(), players, team, 0);
    let (e2, a2) = spec_round_fill(e1, a1, players, team, 0);
    if pos_find(a2, HQMFaceoffPosition::C, 0) >= 0 {
        match spec_centre_candidate(e2, players, 0, None) {
            Some(k) => pm_insert(e2, k, (team, HQMFaceoffPosition::C)),
            None => e2,
        }
    } else {
        e2
    }
}

fn round_preferred(
    positions: &mut HQMPositionMap,
    avail: &mut Vec<HQMFaceoffPosition>,
    players: &[HQMRosterEntry],
    team: HQMTeam,
    i: usize,
)
    requires
        i <= players@.len(),
    ensures
        (final(positions)@, final(avail)@) == spec_round_preferred(
            old(positions)@,
            old(avail)@,
            players@,
            team,
            i as int,
        ),
    decreases players@.len() - i,
{
    if i >= players.len() {
        return ;
    }
    let (player_index, player_position) = players[i];
    if let Some(p) = player_position {
        if let Some(x) = pool_find(avail, p, 0) {
            avail.remove(x);
            positions.insert(player_index, (team, p));
        }
    }
    round_preferred(positions, avail, players, team, i + 1);
}

fn round_fill(
    positions: &mut HQMPositionMap,
    avail: &mut Vec<HQMFaceoffPosition>,
    players: &[HQMRosterEntry],
    team: HQMTeam,
    i: usize,
)
    requires
        i <= players@.len(),
    ensures
        (final(positions)@, final(avail)@) == spec_round_fill(
            old(positions)@,
            old(avail)@,
            players@,
            team,
            i as int,
        ),
    decreases players@.len() - i,
{
    if i >= players.len() {
        return ;
    }
    let (player_index, player_position) = players[i];
    if !positions.contains_key(player_index) {
        if let Some(x) = pool_find(avail, HQMFaceoffPosition::C, 0) {
            avail.remove(x);
            positions.insert(player_index, (team, HQMFaceoffPosition::C));
        } else if avail.len() > 0 {
            let p = avail.remove(0);
            positions.insert(player_index, (team, p));
        } else {
            let p = match player_position {
                Some(p) => p,
                None => HQMFaceoffPosition::C,
            };
            positions.insert(player_index, (team, p));
        }
    }
    round_fill(positions, avail, players, team, i + 1);
}

fn centre_candidate(
    positions: &HQMPositionMap,
    players: &[HQMRosterEntry],
    i: usize,
    found_first: Option<HQMServerPlayerIndex>,
) -> (r: Option<HQMServerPlayerIndex>)
    requires
        i <= players@.len(),
    ensures
        r == spec_centre_candidate(positions@, players@, i as int, found_first),
    decreases players@.len() - i,
{
    if i >= players.len() {
        return found_first;
    }
    let (player_index, _) = players[i];
    let cand = match found_first {
        Some(c) => Some(c),
        None => Some(player_index),
    };
    match positions.get(player_index) {
        Some((_, pos)) if pos != HQMFaceoffPosition::G => Some(player_index),
        _ => centre_candidate(positions, players, i + 1, cand),
    }
}

/// Assign faceoff positions to one team's roster: first preferences, then
/// fill (centre first), and finally make sure centre is taken by moving the
/// first non-goalie onto it if it went unassigned.
pub fn setup_position(
    positions: &mut HQMPositionMap,
    players: &[HQMRosterEntry],
    team: HQMTeam,
)
    ensures
        final(positions)@ == spec_setup_position(old(positions)@, players@, team),
{
    let mut avail = make_allowed_positions();
    round_preferred(positions, &mut avail, players, team, 0);
    round_fill(positions, &mut avail, players, team, 0);
    if pool_find(&avail, HQMFaceoffPosition::C, 0).is_some() {
        if let Some(k) = centre_candidate(positions, players, 0, None) {
            positions.insert(k, (team, HQMFaceoffPosition::C));
        }
    }
}

} // verus!
