//! The server state: the current game, the 64 session slots, the ban list
//! and the join policy, together with the session-registry operations
//! (join, leave, team placement, inactivity timeout, message broadcast).
//! Remote addresses are carried as opaque 64-bit tokens supplied by the
//! network edge.

use vstd::prelude::*;
use vstd::string::StringSliceAdditionalSpecFns;

use crate::game::{
    empty_slot_from, spec_new_skater, world_wf, HQMGameObject, HQMGameWorld, HQMMessage,
    HQMPlayerInput, HQMSkater, HQMSkaterHand, msgs_append_only, no_goal_msg_added,
};
use crate::positions::HQMFaceoffPosition;
use crate::spots::{HQMCmPoint, HQMRink};
use crate::types::{
    HQMObjectIndex, HQMRulesState, HQMServerPlayerIndex, HQMTeam,
};

verus! {

/// Scores, clock and world of the game in progress. `time` counts down in
/// centiseconds within a period; `goal_message_timer` mirrors the pause
/// timer while a goal pause is active.
#[derive(Debug, Clone, PartialEq, Eq)]
pub struct HQMGame {
    pub game_id: u32,
    pub red_score: u32,
    pub blue_score: u32,
    pub period: u32,
    pub time: u32,
    pub goal_message_timer: u32,
    pub game_over: bool,
    pub paused: bool,
    pub rules_state: HQMRulesState,
    pub packet: u32,
    pub game_step: u32,
    pub active: bool,
    pub global_messages: Vec<HQMMessage>,
    pub world: HQMGameWorld,
}

/// A fresh game on the given rink: empty world, zero scores, warmup
/// period 0, clock to be set by the caller.
pub fn new_game_state(game_id: u32, rink: HQMRink) -> (g: HQMGame)
    ensures
        g.game_id == game_id,
        g.red_score == 0 && g.blue_score == 0,
        g.period == 0 && g.time == 0 && g.goal_message_timer == 0,
        !g.game_over && !g.paused && !g.active,
        g.rules_state == (HQMRulesState::Regular {
            offside_warning: false,
            icing_warning: false,
        }),
        g.packet == u32::MAX && g.game_step == u32::MAX,
        g.global_messages@.len() == 0,
        world_wf(g.world),
        g.world.rink == rink,
        forall|i: int| 0 <= i < 32 ==> g.world.objects@[i] == HQMGameObject::Empty,
{
    HQMGame {
        game_id,
        red_score: 0,
        blue_score: 0,
        period: 0,
        time: 0,
        goal_message_timer: 0,
        game_over: false,
        paused: false,
        rules_state: HQMRulesState::Regular { offside_warning: false, icing_warning: false },
        packet: u32::MAX,
        game_step: u32::MAX,
        active: false,
        global_messages: Vec::new(),
        world: HQMGameWorld::new(rink),
    }
}

/// One connected session: identity, team, input, reliability cursors,
/// inactivity counter and per-session flags.
#[derive(Debug, Clone, PartialEq, Eq)]
pub struct HQMConnectedPlayer {
    pub player_name: Vec<u8>,
    pub addr: u64,
    pub client_version: u8,
    pub team: HQMTeam,
    pub faceoff_position: HQMFaceoffPosition,
    pub skater: Option<HQMObjectIndex>,
    pub game_id: u32,
    pub input: HQMPlayerInput,
    pub packet: u32,
    pub msgpos: u32,
    pub chat_rep: u32,
    pub messages: Vec<HQMMessage>,
    pub inactivity: u32,
    pub is_admin: bool,
    pub is_muted: bool,
    pub team_switch_timer: u32,
    pub hand: HQMSkaterHand,
    pub deltatime: u32,
}

impl HQMConnectedPlayer {
    /// A fresh session for a newly joined player, starting as a spectator
    /// with the given backlog of persistent messages.
    pub fn new(player_name: Vec<u8>, addr: u64, global_messages: Vec<HQMMessage>) -> (p:
        HQMConnectedPlayer)
        ensures
            p.player_name@ == player_name@,
            p.addr == addr,
            p.client_version == 0,
            p.team == HQMTeam::Spec,
            p.faceoff_position == HQMFaceoffPosition::C,
            p.skater is None,
            p.game_id == u32::MAX,
            p.packet == u32::MAX,
            p.msgpos == 0,
            p.chat_rep == 0,
            p.messages == global_messages,
            p.inactivity == 0,
            !p.is_admin,
            !p.is_muted,
            p.team_switch_timer == 0,
            p.hand == HQMSkaterHand::Right,
            p.deltatime == 0,
    {
        HQMConnectedPlayer {
            player_name,
            addr,
            client_version: 0,
            team: HQMTeam::Spec,
            faceoff_position: HQMFaceoffPosition::C,
            skater: None,
            game_id: u32::MAX,
            input: HQMPlayerInput::default(),
            packet: u32::MAX,
            msgpos: 0,
            chat_rep: 0,
            messages: global_messages,
            inactivity: 0,
            is_admin: false,
            is_muted: false,
            team_switch_timer: 0,
            hand: HQMSkaterHand::Right,
            deltatime: 0,
        }
    }
}

/// Server-level configuration. Entry points are in centimetres, entry
/// rotations in hundredths of a degree.
#[derive(Debug, Clone, PartialEq, Eq)]
pub struct HQMServerConfiguration {
    pub server_name: Vec<u8>,
    pub port: u16,
    pub public: bool,
    pub player_max: u32,
    pub team_max: u32,
    pub force_team_size_parity: bool,
    pub welcome: Vec<Vec<u8>>,
    pub password: Vec<u8>,
    pub entry_point_red: HQMCmPoint,
    pub entry_point_blue: HQMCmPoint,
    pub entry_rotation_red_cdeg: u32,
    pub entry_rotation_blue_cdeg: u32,
}

/// The server: 64 session slots, ban list (of address tokens), join policy
/// and the game in progress.
#[derive(Debug, Clone, PartialEq, Eq)]
pub struct HQMServer {
    pub players: Vec<Option<HQMConnectedPlayer>>,
    pub ban_list: Vec<u64>,
    pub allow_join: bool,
    pub config: HQMServerConfiguration,
    pub game: HQMGame,
    pub game_alloc: u32,
    pub is_muted: bool,
    /// Replay requests for the external replay subsystem, oldest first:
    /// start step, end step, and the player the camera should follow.
    pub replay_queue: Vec<(u32, u32, Option<HQMServerPlayerIndex>)>,
}

/// The structural server invariant: exactly 64 session slots and a
/// 32-slot world.
pub open spec fn server_wf(s: HQMServer) -> bool {
    &&& s.players@.len() == 64
    &&& world_wf(s.game.world)
}

/// Number of occupied slots in a player table, counting from `i`.
pub open spec fn count_players_from(s: Seq<Option<HQMConnectedPlayer>>, i: int) -> int
    decreases s.len() - i,
{
    if i < 0 || i >= s.len() {
        0
    } else {
        (if s[i] is Some {
            1int
        } else {
            0int
        }) + count_players_from(s, i + 1)
    }
}

/// First slot at or after `i` whose session has address token `addr`,
/// or -1.
pub open spec fn player_slot_with_addr(
    s: Seq<Option<HQMConnectedPlayer>>,
    addr: u64,
    i: int,
) -> int
    decreases s.len() - i,
{
    if i < 0 || i >= s.len() {
        -1
    } else if s[i] is Some && s[i].unwrap().addr == addr {
        i
    } else {
        player_slot_with_addr(s, addr, i + 1)
    }
}

/// First free slot at or after `i`, or -1.
pub open spec fn free_player_slot(s: Seq<Option<HQMConnectedPlayer>>, i: int) -> int
    decreases s.len() - i,
{
    if i < 0 || i >= s.len() {
        -1
    } else if s[i] is None {
        i
    } else {
        free_player_slot(s, i + 1)
    }
}

/// First slot at or after `i` whose session owns skater object `obj`,
/// or -1.
pub open spec fn player_slot_with_object(
    s: Seq<Option<HQMConnectedPlayer>>,
    obj: HQMObjectIndex,
    i: int,
) -> int
    decreases s.len() - i,
{
    if i < 0 || i >= s.len() {
        -1
    } else if s[i] is Some && s[i].unwrap().skater == Some(obj) {
        i
    } else {
        player_slot_with_object(s, obj, i + 1)
    }
}


/// Every session's queue in `b` is the one in `a` with exactly the given
/// chat lines appended (same sender, same order), and nothing else about
/// any session changed.
pub open spec fn server_chats_broadcast(
    a: Seq<Option<HQMConnectedPlayer>>,
    b: Seq<Option<HQMConnectedPlayer>>,
    from: Option<HQMServerPlayerIndex>,
    texts: Seq<Seq<u8>>,
) -> bool {
    &&& a.len() == b.len()
    &&& forall|i: int| 0 <= i < a.len() ==> ((#[trigger] b[i]) is Some <==> a[i] is Some)
    &&& forall|i: int|
        0 <= i < a.len() && a[i] is Some ==> crate::game::chats_appended(
            (#[trigger] a[i]).unwrap().messages@,
            b[i].unwrap().messages@,
            from,
            texts,
        ) && equal_but_messages(a[i].unwrap(), b[i].unwrap())
}

/// Broadcasting twice broadcasts the concatenation.
pub proof fn lemma_server_chats_broadcast_trans(
    a: Seq<Option<HQMConnectedPlayer>>,
    b: Seq<Option<HQMConnectedPlayer>>,
    c: Seq<Option<HQMConnectedPlayer>>,
    from: Option<HQMServerPlayerIndex>,
    t1: Seq<Seq<u8>>,
    t2: Seq<Seq<u8>>,
)
    requires
        server_chats_broadcast(a, b, from, t1),
        server_chats_broadcast(b, c, from, t2),
    ensures
        server_chats_broadcast(a, c, from, t1 + t2),
{
    assert forall|i: int|
        0 <= i < a.len() && a[i] is Some implies crate::game::chats_appended(
        (#[trigger] a[i]).unwrap().messages@,
        c[i].unwrap().messages@,
        from,
        t1 + t2,
    ) && equal_but_messages(a[i].unwrap(), c[i].unwrap()) by {
        assert(crate::game::chats_appended(
            a[i].unwrap().messages@,
            b[i].unwrap().messages@,
            from,
            t1,
        ));
        assert(crate::game::chats_appended(
            b[i].unwrap().messages@,
            c[i].unwrap().messages@,
            from,
            t2,
        ));
        crate::game::lemma_chats_appended_trans(
            a[i].unwrap().messages@,
            b[i].unwrap().messages@,
            c[i].unwrap().messages@,
            from,
            t1,
            t2,
        );
        assert(equal_but_messages(a[i].unwrap(), b[i].unwrap()));
        assert(equal_but_messages(b[i].unwrap(), c[i].unwrap()));
    }
}

/// An untouched table is a broadcast of no lines.
pub proof fn lemma_server_chats_broadcast_refl(
    a: Seq<Option<HQMConnectedPlayer>>,
    from: Option<HQMServerPlayerIndex>,
)
    ensures
        server_chats_broadcast(a, a, from, Seq::empty()),
{
}

/// Every session's message queue in `b` extends the one in `a`, slot for
/// slot, and the set of occupied slots is unchanged.
pub open spec fn players_msgs_append_only(
    a: Seq<Option<HQMConnectedPlayer>>,
    b: Seq<Option<HQMConnectedPlayer>>,
) -> bool {
    &&& a.len() == b.len()
    &&& forall|i: int|
        0 <= i < a.len() ==> ((#[trigger] b[i]) is Some <==> a[i] is Some)
    &&& forall|i: int|
        0 <= i < a.len() && a[i] is Some ==> msgs_append_only(
            (#[trigger] a[i]).unwrap().messages@,
            b[i].unwrap().messages@,
        )
}

impl HQMServer {
    /// A fresh server: 64 empty slots, joining enabled, game number 1.
    pub fn new(config: HQMServerConfiguration, rink: HQMRink) -> (s: HQMServer)
        ensures
            server_wf(s),
            forall|i: int| 0 <= i < 64 ==> s.players@[i] is None,
            s.ban_list@.len() == 0,
            s.allow_join,
            s.config == config,
            s.game_alloc == 1,
            s.game.game_id == 1,
            !s.is_muted,
    {
        let mut players: Vec<Option<HQMConnectedPlayer>> = Vec::new();
        let mut i: usize = 0;
        while i < 64
            invariant
                i <= 64,
                players@.len() == i,
                forall|j: int| 0 <= j < i ==> players@[j] is None,
            decreases 64 - i,
        {
            players.push(None);
            i += 1;
        }
        HQMServer {
            players,
            ban_list: Vec::new(),
            allow_join: true,
            config,
            game: new_game_state(1, rink),
            game_alloc: 1,
            is_muted: false,
            replay_queue: Vec::new(),
        }
    }

    fn count_from(&self, i: usize) -> (r: u32)
        requires
            i <= self.players@.len(),
            self.players@.len() <= 64,
        ensures
            r as int == count_players_from(self.players@, i as int),
        decreases self.players@.len() - i,
    {
        if i >= self.players.len() {
            0
        } else {
            let rest = self.count_from(i + 1);
            proof {
                lemma_count_players_bound(self.players@, i + 1);
            }
            if self.players[i].is_some() {
                rest + 1
            } else {
                rest
            }
        }
    }

    /// How many sessions are connected.
    pub fn player_count(&self) -> (r: u32)
        requires
            self.players@.len() <= 64,
        ensures
            r as int == count_players_from(self.players@, 0),
    {
        self.count_from(0)
    }

    fn find_player_slot_from(&self, addr: u64, i: usize) -> (r: Option<usize>)
        requires
            i <= self.players@.len(),
        ensures
            r is Some <==> player_slot_with_addr(self.players@, addr, i as int) >= 0,
            r is Some ==> r.unwrap() as int == player_slot_with_addr(self.players@, addr, i as int)
                && r.unwrap() < self.players@.len(),
        decreases self.players@.len() - i,
    {
        if i >= self.players.len() {
            None
        } else {
            let hit = match &self.players[i] {
                Some(p) => p.addr == addr,
                None => false,
            };
            if hit {
                Some(i)
            } else {
                self.find_player_slot_from(addr, i + 1)
            }
        }
    }

    /// The slot of the session with this address token, if any.
    pub fn find_player_slot(&self, addr: u64) -> (r: Option<usize>)
        ensures
            r is Some <==> player_slot_with_addr(self.players@, addr, 0) >= 0,
            r is Some ==> r.unwrap() as int == player_slot_with_addr(self.players@, addr, 0)
                && r.unwrap() < self.players@.len(),
    {
        self.find_player_slot_from(addr, 0)
    }

    fn find_empty_player_slot_from(&self, i: usize) -> (r: Option<usize>)
        requires
            i <= self.players@.len(),
        ensures
            r is Some <==> free_player_slot(self.players@, i as int) >= 0,
            r is Some ==> r.unwrap() as int == free_player_slot(self.players@, i as int)
                && r.unwrap() < self.players@.len(),
        decreases self.players@.len() - i,
    {
        if i >= self.players.len() {
            None
        } else if self.players[i].is_none() {
            Some(i)
        } else {
            self.find_empty_player_slot_from(i + 1)
        }
    }

    /// The first free session slot, if any.
    pub fn find_empty_player_slot(&self) -> (r: Option<usize>)
        ensures
            r is Some <==> free_player_slot(self.players@, 0) >= 0,
            r is Some ==> r.unwrap() as int == free_player_slot(self.players@, 0) && r.unwrap()
                < self.players@.len(),
    {
        self.find_empty_player_slot_from(0)
    }

    /// Resolve a skater object index to the owning session and its team.
    pub fn get_from_object_index(&self, obj: HQMObjectIndex) -> (r: Option<(
        HQMServerPlayerIndex,
        HQMTeam,
    )>)
        ensures
            ({
                let f = player_slot_with_object(self.players@, obj, 0);
                &&& (r is Some <==> f >= 0)
                &&& f >= 0 ==> r == Some(
                    (HQMServerPlayerIndex(f as usize), self.players@[f].unwrap().team),
                )
            }),
    {
        self.find_object_owner_from(obj, 0)
    }

    fn find_object_owner_from(&self, obj: HQMObjectIndex, i: usize) -> (r: Option<(
        HQMServerPlayerIndex,
        HQMTeam,
    )>)
        requires
            i <= self.players@.len(),
        ensures
            ({
                let f = player_slot_with_object(self.players@, obj, i as int);
                &&& (r is Some <==> f >= 0)
                &&& f >= 0 ==> r == Some(
                    (HQMServerPlayerIndex(f as usize), self.players@[f].unwrap().team),
                )
            }),
        decreases self.players@.len() - i,
    {
        if i >= self.players.len() {
            None
        } else {
            let hit = match &self.players[i] {
                Some(p) => match p.skater {
                    Some(o) => o == obj,
                    None => false,
                },
                None => false,
            };
            if hit {
                let team = match &self.players[i] {
                    Some(p) => p.team,
                    None => HQMTeam::Spec,
                };
                Some((HQMServerPlayerIndex(i), team))
            } else {
                self.find_object_owner_from(obj, i + 1)
            }
        }
    }

    /// Append a message to every connected session's queue, and to the
    /// persistent backlog when `persistent` is set.
    pub fn add_global_message(&mut self, message: HQMMessage, persistent: bool)
        ensures
            final(self).players@.len() == old(self).players@.len(),
            players_msgs_append_only(old(self).players@, final(self).players@),
            forall|i: int|
                0 <= i < old(self).players@.len() && old(self).players@[i] is Some
                    ==> (#[trigger] final(self).players@[i]).unwrap().messages@.len() == old(self).players@[i].unwrap().messages@.len() + 1 && crate::game::message_eq(
                    final(self).players@[i].unwrap().messages@.last(),
                    message,
                ),
            forall|i: int|
                0 <= i < old(self).players@.len() && old(self).players@[i] is Some ==> equal_but_messages(
                    (#[trigger] old(self).players@[i]).unwrap(),
                    final(self).players@[i].unwrap(),
                ),
            persistent ==> final(self).game.global_messages@.len() == old(self).game.global_messages@.len() + 1 && crate::game::message_eq(
                final(self).game.global_messages@.last(),
                message,
            ) && forall|i: int|
                0 <= i < old(self).game.global_messages@.len() ==> final(self).game.global_messages@[i] == old(self).game.global_messages@[i],
            !persistent ==> final(self).game.global_messages == old(self).game.global_messages,
            final(self).game.game_id == old(self).game.game_id,
            final(self).game.red_score == old(self).game.red_score,
            final(self).game.blue_score == old(self).game.blue_score,
            final(self).game.period == old(self).game.period,
            final(self).game.time == old(self).game.time,
            final(self).game.game_over == old(self).game.game_over,
            final(self).game.world == old(self).game.world,
            final(self).config == old(self).config,
            final(self).allow_join == old(self).allow_join,
            final(self).ban_list == old(self).ban_list,
            final(self).is_muted == old(self).is_muted,
            final(self).game_alloc == old(self).game_alloc,
            final(self).game.paused == old(self).game.paused,
            final(self).game.packet == old(self).game.packet,
            final(self).game.game_step == old(self).game.game_step,
            final(self).game.goal_message_timer == old(self).game.goal_message_timer,
            final(self).game.rules_state == old(self).game.rules_state,
            final(self).game.active == old(self).game.active,
            final(self).replay_queue == old(self).replay_queue,
    {
        if persistent {
            let copy = crate::game::duplicate_message(&message);
            self.game.global_messages.push(copy);
        }
        let n = self.players.len();
        let mut i: usize = 0;
        while i < n
            invariant
                i <= n,
                n == self.players@.len(),
                n == old(self).players@.len(),
                forall|j: int|
                    0 <= j < n ==> ((#[trigger] self.players@[j]) is Some <==> old(self).players@[j] is Some),
                forall|j: int|
                    0 <= j < i && old(self).players@[j] is Some ==> (#[trigger] self.players@[j]).unwrap().messages@.len()
                        == old(self).players@[j].unwrap().messages@.len() + 1
                        && crate::game::message_eq(
                        self.players@[j].unwrap().messages@.last(),
                        message,
                    ) && msgs_append_only(
                        old(self).players@[j].unwrap().messages@,
                        self.players@[j].unwrap().messages@,
                    ) && equal_but_messages(
                        old(self).players@[j].unwrap(),
                        self.players@[j].unwrap(),
                    ),
                forall|j: int|
                    i <= j < n ==> (#[trigger] self.players@[j]) == old(self).players@[j],
                self.game.game_id == old(self).game.game_id,
                self.game.red_score == old(self).game.red_score,
                self.game.blue_score == old(self).game.blue_score,
                self.game.period == old(self).game.period,
                self.game.time == old(self).game.time,
                self.game.game_over == old(self).game.game_over,
                self.game.world == old(self).game.world,
                self.config == old(self).config,
                self.allow_join == old(self).allow_join,
                self.ban_list == old(self).ban_list,
                self.is_muted == old(self).is_muted,
                self.game_alloc == old(self).game_alloc,
                self.game.paused == old(self).game.paused,
                self.game.packet == old(self).game.packet,
                self.game.game_step == old(self).game.game_step,
                self.game.goal_message_timer == old(self).game.goal_message_timer,
                self.game.rules_state == old(self).game.rules_state,
                self.game.active == old(self).game.active,
                self.replay_queue == old(self).replay_queue,
                persistent ==> self.game.global_messages@.len() == old(self).game.global_messages@.len() + 1 && crate::game::message_eq(
                    self.game.global_messages@.last(),
                    message,
                ) && forall|k: int|
                    0 <= k < old(self).game.global_messages@.len() ==> self.game.global_messages@[k]
                        == old(self).game.global_messages@[k],
                !persistent ==> self.game.global_messages == old(self).game.global_messages,
            decreases n - i,
        {
            let has = self.players[i].is_some();
            if has {
                let copy = crate::game::duplicate_message(&message);
                let mut taken = self.players[i].take();
                match &mut taken {
                    Some(p) => {
                        p.messages.push(copy);
                    },
                    None => {},
                }
                self.players.set(i, taken);
            }
            i += 1;
        }
    }
}

/// Two sessions agree on everything except their message queues.
pub open spec fn equal_but_messages(a: HQMConnectedPlayer, b: HQMConnectedPlayer) -> bool {
    &&& a.player_name == b.player_name
    &&& a.addr == b.addr
    &&& a.client_version == b.client_version
    &&& a.team == b.team
    &&& a.faceoff_position == b.faceoff_position
    &&& a.skater == b.skater
    &&& a.game_id == b.game_id
    &&& a.input == b.input
    &&& a.packet == b.packet
    &&& a.msgpos == b.msgpos
    &&& a.chat_rep == b.chat_rep
    &&& a.inactivity == b.inactivity
    &&& a.is_admin == b.is_admin
    &&& a.is_muted == b.is_muted
    &&& a.team_switch_timer == b.team_switch_timer
    &&& a.hand == b.hand
    &&& a.deltatime == b.deltatime
}

/// The count of occupied slots from `i` is at most the slots remaining.
pub proof fn lemma_count_players_bound(s: Seq<Option<HQMConnectedPlayer>>, i: int)
    requires
        0 <= i <= s.len(),
    ensures
        0 <= count_players_from(s, i) <= s.len() - i,
    decreases s.len() - i,
{
    if i < s.len() {
        lemma_count_players_bound(s, i + 1);
    }
}

/// How a skater despawn empties the world slot it owned.
pub open spec fn world_without_object(w: Seq<HQMGameObject>, obj: Option<HQMObjectIndex>) -> Seq<
    HQMGameObject,
> {
    match obj {
        Some(o) => if 0 <= o.0 < w.len() {
            w.update(o.0 as int, HQMGameObject::Empty)
        } else {
            w
        },
        None => w,
    }
}

/// Place a session on a team. Returns true when anything changed: joining
/// the ice spawns a skater at the team's entry point (and fails when the
/// object table is full), moving to spectator despawns the skater and
/// starts the five-second team-switch cooldown.
pub fn set_team_internal(
    player_index: HQMServerPlayerIndex,
    player: &mut HQMConnectedPlayer,
    world: &mut HQMGameWorld,
    config: &HQMServerConfiguration,
    team: HQMTeam,
) -> (res: bool)
    ensures
        final(world).objects@.len() == old(world).objects@.len(),
        old(player).team == team ==> !res && *final(player) == *old(player) && *final(world) == *old(world),
        old(player).team != team && (team == HQMTeam::Red || team == HQMTeam::Blue) && old(player).skater is Some ==> res && *final(player) == (HQMConnectedPlayer {
            team,
            ..*old(player)
        }) && *final(world) == *old(world),
        old(player).team != team && (team == HQMTeam::Red || team == HQMTeam::Blue) && old(player).skater is None ==> ({
            let f = empty_slot_from(old(world).objects@, 0);
            let pos = if team == HQMTeam::Red {
                config.entry_point_red
            } else {
                config.entry_point_blue
            };
            let rot = if team == HQMTeam::Red {
                config.entry_rotation_red_cdeg
            } else {
                config.entry_rotation_blue_cdeg
            };
            if f >= 0 {
                res && *final(player) == (HQMConnectedPlayer {
                    team,
                    skater: Some(HQMObjectIndex(f as usize)),
                    ..*old(player)
                }) && final(world).objects@ =~= old(world).objects@.update(
                    f,
                    HQMGameObject::Player(
                        spec_new_skater(player_index, old(player).hand, pos, rot),
                    ),
                ) && final(world).rink == old(world).rink
            } else {
                !res && *final(player) == *old(player) && final(world).objects@ =~= old(world).objects@ && final(world).rink == old(world).rink
            }
        }),
        old(player).team != team && team == HQMTeam::Spec ==> res && *final(player) == (
        HQMConnectedPlayer {
            team: HQMTeam::Spec,
            team_switch_timer: 500,
            skater: None,
            ..*old(player)
        }) && final(world).objects@ =~= world_without_object(
            old(world).objects@,
            old(player).skater,
        ) && final(world).rink == old(world).rink,
{
    if player.team != team {
        if team == HQMTeam::Red || team == HQMTeam::Blue {
            if player.skater.is_none() {
                let (pos, rot) = if team == HQMTeam::Red {
                    (config.entry_point_red, config.entry_rotation_red_cdeg)
                } else {
                    (config.entry_point_blue, config.entry_rotation_blue_cdeg)
                };
                match world.create_player_object(pos, rot, player.hand, player_index) {
                    Some(i) => {
                        player.team = team;
                        player.skater = Some(i);
                        true
                    },
                    None => false,
                }
            } else {
                player.team = team;
                true
            }
        } else {
            player.team = HQMTeam::Spec;
            player.team_switch_timer = 500;
            if let Some(i) = player.skater {
                if i.0 < world.objects.len() {
                    world.objects.set(i.0, HQMGameObject::Empty);
                }
                player.skater = None;
            }
            true
        }
    } else {
        false
    }
}

impl HQMServer {
    /// Move a session to a team and, when anything changed, broadcast the
    /// roster update.
    pub fn set_team(&mut self, player_index: usize, team: HQMTeam) -> (res: bool)
        requires
            player_index < old(self).players@.len(),
        ensures
            final(self).players@.len() == old(self).players@.len(),
            old(self).players@[player_index as int] is None ==> !res && final(self).players@
                =~= old(self).players@ && final(self).game == old(self).game,
            players_keep_shape(old(self).players@, final(self).players@),
            world_wf(old(self).game.world) ==> world_wf(final(self).game.world),
    {
        let taken = self.players[player_index].take();
        match taken {
            Some(mut player) => {
                let res = set_team_internal(
                    HQMServerPlayerIndex(player_index),
                    &mut player,
                    &mut self.game.world,
                    &self.config,
                    team,
                );
                let msg = if res {
                    Some(
                        HQMMessage::PlayerUpdate {
                            player_name: crate::game::clone_bytes(&player.player_name),
                            team: player.team,
                            player_index: HQMServerPlayerIndex(player_index),
                            object_index: player.skater,
                            in_server: true,
                        },
                    )
                } else {
                    None
                };
                self.players.set(player_index, Some(player));
                if let Some(m) = msg {
                    self.add_global_message(m, true);
                }
                res
            },
            None => {
                self.players.set(player_index, None);
                false
            },
        }
    }

    /// Despawn a session's current skater (if any) and spawn a fresh one
    /// at the given placement; broadcasts the roster update. Returns the
    /// new object index, or nothing when the object table is full.
    pub fn spawn_skater(
        &mut self,
        player_index: usize,
        team: HQMTeam,
        pos: HQMCmPoint,
        rot_cdeg: u32,
    ) -> (r: Option<HQMObjectIndex>)
        requires
            player_index < old(self).players@.len(),
        ensures
            final(self).players@.len() == old(self).players@.len(),
            players_keep_shape(old(self).players@, final(self).players@),
            players_msgs_append_only(old(self).players@, final(self).players@),
            old(self).players@[player_index as int] is None ==> r is None && final(self).players@
                =~= old(self).players@ && final(self).game == old(self).game,
            world_wf(old(self).game.world) ==> world_wf(final(self).game.world),
            final(self).game.red_score == old(self).game.red_score,
            final(self).game.blue_score == old(self).game.blue_score,
            final(self).game.time == old(self).game.time,
            final(self).game.period == old(self).game.period,
            final(self).game.game_over == old(self).game.game_over,
            final(self).game.game_id == old(self).game.game_id,
            final(self).game.game_step == old(self).game.game_step,
            final(self).game_alloc == old(self).game_alloc,
            final(self).game.world.rink == old(self).game.world.rink,
    {
        let taken = self.players[player_index].take();
        match taken {
            Some(mut player) => {
                if let Some(i) = player.skater {
                    if i.0 < self.game.world.objects.len() {
                        self.game.world.objects.set(i.0, HQMGameObject::Empty);
                    }
                    player.skater = None;
                }
                let r = match self.game.world.create_player_object(
                    pos,
                    rot_cdeg,
                    player.hand,
                    HQMServerPlayerIndex(player_index),
                ) {
                    Some(i) => {
                        player.team = team;
                        player.skater = Some(i);
                        Some(i)
                    },
                    None => {
                        player.team = HQMTeam::Spec;
                        None
                    },
                };
                let msg = HQMMessage::PlayerUpdate {
                    player_name: crate::game::clone_bytes(&player.player_name),
                    team: player.team,
                    player_index: HQMServerPlayerIndex(player_index),
                    object_index: player.skater,
                    in_server: true,
                };
                self.players.set(player_index, Some(player));
                let ghost mid = self.players@;
                proof {
                    lemma_players_append_refl(old(self).players@, mid);
                }
                self.add_global_message(msg, true);
                proof {
                    lemma_players_append_chain(old(self).players@, mid, self.players@);
                }
                r
            },
            None => {
                self.players.set(player_index, None);
                proof {
                    lemma_players_append_refl(old(self).players@, self.players@);
                }
                None
            },
        }
    }

    /// Create a session for a new player if a slot is free; broadcasts the
    /// roster update and hands the newcomer the persistent backlog plus
    /// the welcome lines.
    pub fn add_player(&mut self, player_name: Vec<u8>, addr: u64) -> (res: bool)
        ensures
            final(self).players@.len() == old(self).players@.len(),
            res <==> free_player_slot(old(self).players@, 0) >= 0,
            final(self).game.world == old(self).game.world,
            res ==> ({
                let f = free_player_slot(old(self).players@, 0);
                &&& final(self).players@[f] is Some
                &&& final(self).players@[f].unwrap().addr == addr
                &&& final(self).players@[f].unwrap().team == HQMTeam::Spec
            }),
            !res ==> *final(self) == *old(self),
    {
        let player_index = self.find_empty_player_slot();
        match player_index {
            Some(player_index) => {
                let update = HQMMessage::PlayerUpdate {
                    player_name: crate::game::clone_bytes(&player_name),
                    team: HQMTeam::Spec,
                    player_index: HQMServerPlayerIndex(player_index),
                    object_index: None,
                    in_server: true,
                };
                self.add_global_message(update, true);

                let mut messages: Vec<HQMMessage> = Vec::new();
                let mut gi: usize = 0;
                while gi < self.game.global_messages.len()
                    invariant
                        gi <= self.game.global_messages@.len(),
                    decreases self.game.global_messages@.len() - gi,
                {
                    let m = crate::game::duplicate_message(&self.game.global_messages[gi]);
                    messages.push(m);
                    gi += 1;
                }
                let mut wi: usize = 0;
                while wi < self.config.welcome.len()
                    invariant
                        wi <= self.config.welcome@.len(),
                    decreases self.config.welcome@.len() - wi,
                {
                    let w = crate::game::clone_bytes(&self.config.welcome[wi]);
                    messages.push(HQMMessage::Chat { player_index: None, message: w });
                    wi += 1;
                }

                let new_player = HQMConnectedPlayer::new(player_name, addr, messages);
                proof {
                    lemma_free_slot_still_free(old(self).players@, self.players@, 0);
                }
                self.players.set(player_index, Some(new_player));
                true
            },
            _ => false,
        }
    }

    /// Remove a session: despawn its skater, broadcast the departure, and
    /// re-enable joining when the last admin leaves.
    pub fn remove_player(&mut self, player_index: usize)
        requires
            player_index < old(self).players@.len(),
        ensures
            final(self).players@.len() == old(self).players@.len(),
            final(self).game.world.objects@.len() == old(self).game.world.objects@.len(),
            final(self).players@[player_index as int] is None,
            forall|i: int|
                0 <= i < old(self).players@.len() && i != player_index ==> ((#[trigger] final(self).players@[i]) is Some <==> old(self).players@[i] is Some),
    {
        let taken = self.players[player_index].take();
        match taken {
            Some(player) => {
                let update = HQMMessage::PlayerUpdate {
                    player_name: crate::game::clone_bytes(&player.player_name),
                    team: HQMTeam::Spec,
                    player_index: HQMServerPlayerIndex(player_index),
                    object_index: None,
                    in_server: false,
                };
                if let Some(object_index) = player.skater {
                    if object_index.0 < self.game.world.objects.len() {
                        self.game.world.objects.set(object_index.0, HQMGameObject::Empty);
                    }
                }
                let admin_check = player.is_admin;
                self.add_global_message(update, true);
                self.players.set(player_index, None);

                if admin_check {
                    let mut admin_found = false;
                    let mut i: usize = 0;
                    let n = self.players.len();
                    while i < n
                        invariant
                            i <= n,
                            n == self.players@.len(),
                        decreases n - i,
                    {
                        if let Some(p) = &self.players[i] {
                            if p.is_admin {
                                admin_found = true;
                            }
                        }
                        i += 1;
                    }
                    if !admin_found {
                        self.allow_join = true;
                    }
                }
            },
            None => {
                self.players.set(player_index, None);
            },
        }
    }

    /// Broadcast a server chat line to every session.
    pub fn add_server_chat_message(&mut self, message: Vec<u8>)
        ensures
            final(self).players@.len() == old(self).players@.len(),
            players_msgs_append_only(old(self).players@, final(self).players@),
            forall|t: HQMTeam, i: int|
                0 <= i < old(self).players@.len() && old(self).players@[i] is Some
                    ==> #[trigger] no_goal_msg_added(
                    old(self).players@[i].unwrap().messages@,
                    final(self).players@[i].unwrap().messages@,
                    t,
                ),
            final(self).game.red_score == old(self).game.red_score,
            final(self).game.blue_score == old(self).game.blue_score,
            final(self).game.time == old(self).game.time,
            final(self).game.period == old(self).game.period,
            final(self).game.game_over == old(self).game.game_over,
            final(self).game.game_id == old(self).game.game_id,
            final(self).game.world == old(self).game.world,
            final(self).game.game_step == old(self).game.game_step,
            final(self).game.paused == old(self).game.paused,
            final(self).game.packet == old(self).game.packet,
            final(self).game.goal_message_timer == old(self).game.goal_message_timer,
            final(self).game.rules_state == old(self).game.rules_state,
            final(self).game.active == old(self).game.active,
            final(self).config == old(self).config,
            final(self).allow_join == old(self).allow_join,
            final(self).ban_list == old(self).ban_list,
            final(self).is_muted == old(self).is_muted,
            final(self).game_alloc == old(self).game_alloc,
            final(self).game.global_messages == old(self).game.global_messages,
            final(self).replay_queue == old(self).replay_queue,
            forall|i: int|
                0 <= i < old(self).players@.len() && old(self).players@[i] is Some
                    ==> equal_but_messages(
                    (#[trigger] old(self).players@[i]).unwrap(),
                    final(self).players@[i].unwrap(),
                ),
        server_chats_broadcast(
            old(self).players@,
            final(self).players@,
            Option::None,
            seq![message@],
        ),
    {
        let text = crate::game::clone_bytes(&message);
        let chat = HQMMessage::Chat { player_index: None, message };
        self.add_global_message(chat, false);
        proof {
            assert forall|i: int|
                0 <= i < old(self).players@.len() && old(self).players@[i] is Some
                    implies crate::game::chats_appended(
                (#[trigger] old(self).players@[i]).unwrap().messages@,
                self.players@[i].unwrap().messages@,
                Option::None,
                seq![text@],
            ) by {
                let a = old(self).players@[i].unwrap().messages@;
                let b = self.players@[i].unwrap().messages@;
                assert(b.len() == a.len() + 1);
                assert(crate::game::message_eq(b.last(), chat));
                assert(b[a.len() as int + 0] == b.last());
            }
        }
    }

    /// Broadcast a player's chat line.
    pub fn add_user_chat_message(&mut self, player_index: usize, message: Vec<u8>)
        requires
            player_index < old(self).players@.len(),
        ensures
            final(self).players@.len() == old(self).players@.len(),
            players_msgs_append_only(old(self).players@, final(self).players@),
            final(self).game.world == old(self).game.world,
            final(self).game == old(self).game,
            old(self).players@[player_index as int] is Some ==> server_chats_broadcast(
                old(self).players@,
                final(self).players@,
                Some(HQMServerPlayerIndex(player_index as usize)),
                seq![message@],
            ),
            old(self).players@[player_index as int] is None ==> final(self).players@ == old(self).players@,
    {
        if self.players[player_index].is_some() {
            let text = crate::game::clone_bytes(&message);
            let chat = HQMMessage::Chat {
                player_index: Some(HQMServerPlayerIndex(player_index)),
                message,
            };
            self.add_global_message(chat, false);
            proof {
                assert forall|i: int|
                    0 <= i < old(self).players@.len() && old(self).players@[i] is Some
                        implies crate::game::chats_appended(
                    (#[trigger] old(self).players@[i]).unwrap().messages@,
                    self.players@[i].unwrap().messages@,
                    Some(HQMServerPlayerIndex(player_index as usize)),
                    seq![text@],
                ) by {
                    let a = old(self).players@[i].unwrap().messages@;
                    let b = self.players@[i].unwrap().messages@;
                    assert(b.len() == a.len() + 1);
                    assert(crate::game::message_eq(b.last(), chat));
                    assert(b[a.len() as int + 0] == b.last());
                }
            }
        }
    }

    /// Send a chat line to a single session.
    pub fn add_directed_server_chat_message(&mut self, message: Vec<u8>, receiver: usize)
        requires
            receiver < old(self).players@.len(),
        ensures
            final(self).players@.len() == old(self).players@.len(),
            players_msgs_append_only(old(self).players@, final(self).players@),
            final(self).game == old(self).game,
            forall|i: int|
                0 <= i < old(self).players@.len() && i != receiver ==> final(self).players@[i]
                    == old(self).players@[i],
            old(self).players@[receiver as int] is Some ==> final(self).players@[receiver as int] is Some && crate::game::chats_appended(
                old(self).players@[receiver as int].unwrap().messages@,
                final(self).players@[receiver as int].unwrap().messages@,
                Option::None,
                seq![message@],
            ),
            old(self).players@[receiver as int] is None ==> final(self).players@ == old(self).players@,
    {
        let ghost text = message@;
        let chat = HQMMessage::Chat { player_index: None, message };
        let mut taken = self.players[receiver].take();
        match &mut taken {
            Some(p) => {
                p.messages.push(chat);
            },
            None => {},
        }
        self.players.set(receiver, taken);
        proof {
            if old(self).players@[receiver as int] is Some {
                let a = old(self).players@[receiver as int].unwrap().messages@;
                let b = self.players@[receiver as int].unwrap().messages@;
                assert(b[a.len() as int + 0] == b.last());
            }
            assert(old(self).players@[receiver as int] is None ==> self.players@ =~= old(self).players@);
        }
    }
}

/// The occupied-slot pattern of `b` matches `a`.
pub open spec fn players_keep_shape(
    a: Seq<Option<HQMConnectedPlayer>>,
    b: Seq<Option<HQMConnectedPlayer>>,
) -> bool {
    &&& a.len() == b.len()
}

/// If a slot was free and only messages were appended since, it is still
/// free.
proof fn lemma_free_slot_still_free(
    a: Seq<Option<HQMConnectedPlayer>>,
    b: Seq<Option<HQMConnectedPlayer>>,
    i: int,
)
    requires
        0 <= i <= a.len(),
        a.len() == b.len(),
        forall|j: int| 0 <= j < a.len() ==> ((#[trigger] b[j]) is Some <==> a[j] is Some),
    ensures
        free_player_slot(a, i) == free_player_slot(b, i),
    decreases a.len() - i,
{
    if i < a.len() {
        lemma_free_slot_still_free(a, b, i + 1);
    }
}


/// Which rink line a player is measured against.
#[derive(Debug, Clone, Copy, PartialEq, Eq, Structural)]
pub enum HQMLineKind {
    Offensive,
    Mid,
}

/// The skater object a session currently controls, if any.
pub open spec fn spec_skater_of(server: HQMServer, p: HQMConnectedPlayer) -> Option<HQMSkater> {
    match p.skater {
        Some(oi) => if oi.0 < server.game.world.objects@.len() {
            match server.game.world.objects@[oi.0 as int] {
                HQMGameObject::Player(sk) => Some(sk),
                _ => None,
            }
        } else {
            None
        },
        None => None,
    }
}

/// Whether a player of `team` has their feet past the given line of their
/// own team (the flags are refreshed from the simulation each tick).
pub open spec fn spec_is_past_line(
    server: HQMServer,
    p: HQMConnectedPlayer,
    team: HQMTeam,
    line: HQMLineKind,
) -> bool {
    p.team == team && match spec_skater_of(server, p) {
        Some(sk) => match line {
            HQMLineKind::Offensive => sk.in_offensive_zone,
            HQMLineKind::Mid => sk.past_mid_line,
        },
        None => false,
    }
}

/// Whether the player is past the given line of `team`. A player of
/// another team, a spectator, or a player without a skater is not.
pub fn is_past_line(
    server: &HQMServer,
    player: &HQMConnectedPlayer,
    team: HQMTeam,
    line: HQMLineKind,
) -> (r: bool)
    ensures
        r == spec_is_past_line(*server, *player, team, line),
{
    if player.team != team {
        return false;
    }
    match player.skater {
        Some(oi) => {
            if oi.0 < server.game.world.objects.len() {
                match &server.game.world.objects[oi.0] {
                    HQMGameObject::Player(sk) => match line {
                        HQMLineKind::Offensive => sk.in_offensive_zone,
                        HQMLineKind::Mid => sk.past_mid_line,
                    },
                    _ => false,
                }
            } else {
                false
            }
        },
        None => false,
    }
}

/// Whether some player of `team`, other than `ignore_player`, is past the
/// team's offensive blue line, scanning slots at or after `i`.
pub open spec fn spec_has_players_in_offensive_zone_from(
    server: HQMServer,
    team: HQMTeam,
    ignore_player: Option<HQMServerPlayerIndex>,
    i: int,
) -> bool
    decreases server.players@.len() - i,
{
    if i < 0 || i >= server.players@.len() {
        false
    } else {
        let here = server.players@[i] is Some && ignore_player != Some(HQMServerPlayerIndex(i as usize))
            && spec_is_past_line(server, server.players@[i].unwrap(), team, HQMLineKind::Offensive);
        here || spec_has_players_in_offensive_zone_from(server, team, ignore_player, i + 1)
    }
}

fn has_players_in_offensive_zone_from(
    server: &HQMServer,
    team: HQMTeam,
    ignore_player: Option<HQMServerPlayerIndex>,
    i: usize,
) -> (r: bool)
    requires
        i <= server.players@.len(),
    ensures
        r == spec_has_players_in_offensive_zone_from(*server, team, ignore_player, i as int),
    decreases server.players@.len() - i,
{
    if i >= server.players.len() {
        false
    } else {
        let skip = match ignore_player {
            Some(ip) => ip.0 == i,
            None => false,
        };
        let here = if skip {
            false
        } else {
            match &server.players[i] {
                Some(p) => is_past_line(server, p, team, HQMLineKind::Offensive),
                None => false,
            }
        };
        if here {
            true
        } else {
            has_players_in_offensive_zone_from(server, team, ignore_player, i + 1)
        }
    }
}

/// Whether any player of `team` (except `ignore_player`) is in their
/// offensive zone.
pub fn has_players_in_offensive_zone(
    server: &HQMServer,
    team: HQMTeam,
    ignore_player: Option<HQMServerPlayerIndex>,
) -> (r: bool)
    ensures
        r == spec_has_players_in_offensive_zone_from(*server, team, ignore_player, 0),
{
    has_players_in_offensive_zone_from(server, team, ignore_player, 0)
}

/// What the team-switch keys ask for this tick: the team to join, if the
/// session asks for a change at all.
pub open spec fn spec_team_switch_request(p: HQMConnectedPlayer) -> Option<HQMTeam> {
    if (p.input.keys & 0x4 != 0 || p.input.keys & 0x8 != 0) && p.team == HQMTeam::Spec
        && p.team_switch_timer == 0 {
        if p.input.keys & 0x4 != 0 {
            Some(HQMTeam::Red)
        } else {
            Some(HQMTeam::Blue)
        }
    } else if p.input.keys & 0x20 != 0 && p.team != HQMTeam::Spec {
        Some(HQMTeam::Spec)
    } else {
        None
    }
}

/// Read a session's team-switch request off its input.
pub fn team_switch_request(p: &HQMConnectedPlayer) -> (r: Option<HQMTeam>)
    ensures
        r == spec_team_switch_request(*p),
{
    if (p.input.join_red() || p.input.join_blue()) && p.team == HQMTeam::Spec
        && p.team_switch_timer == 0 {
        if p.input.join_red() {
            Some(HQMTeam::Red)
        } else {
            Some(HQMTeam::Blue)
        }
    } else if p.input.spectate() && p.team != HQMTeam::Spec {
        Some(HQMTeam::Spec)
    } else {
        None
    }
}

/// Whether a join request for `new_team` passes the size gates: the team
/// must stay within `team_max`, and with parity forced it must not grow
/// past the other team.
pub open spec fn spec_join_allowed(
    config: HQMServerConfiguration,
    new_team_count: u32,
    other_team_count: u32,
) -> bool {
    new_team_count + 1 <= config.team_max && (!config.force_team_size_parity || new_team_count
        <= other_team_count)
}

impl HQMServer {
    /// Advance every session's inactivity counter and remove the sessions
    /// that have been silent for 500 ticks, announcing each timeout.
    pub fn remove_inactive_players(&mut self)
        requires
            server_wf(*old(self)),
        ensures
            server_wf(*final(self)),
            final(self).players@.len() == old(self).players@.len(),
    {
        let n = self.players.len();
        let mut i: usize = 0;
        while i < n
            invariant
                i <= n,
                n == 64,
                server_wf(*self),
            decreases n - i,
        {
            let mut name: Option<Vec<u8>> = None;
            let mut taken = self.players[i].take();
            match &mut taken {
                Some(p) => {
                    if p.inactivity < u32::MAX {
                        p.inactivity = p.inactivity + 1;
                    }
                    if p.inactivity >= 500 {
                        name = Some(crate::game::clone_bytes(&p.player_name));
                    }
                },
                None => {},
            }
            self.players.set(i, taken);
            if let Some(name) = name {
                self.remove_player(i);
                let mut msg = name;
                let suffix = " timed out".as_bytes();
                let mut k: usize = 0;
                while k < suffix.len()
                    invariant
                        k <= suffix@.len(),
                        server_wf(*self),
                    decreases suffix@.len() - k,
                {
                    msg.push(suffix[k]);
                    k += 1;
                }
                self.add_server_chat_message(msg);
            }
            i += 1;
        }
    }

    /// Resolve this tick's team-switch requests in slot order: cooldowns
    /// tick down; joins respect the team size gates; each accepted change
    /// is applied and broadcast.
    pub fn move_players_between_teams(&mut self)
        requires
            server_wf(*old(self)),
        ensures
            server_wf(*final(self)),
    {
        let mut red_player_count: u32 = 0;
        let mut blue_player_count: u32 = 0;
        let n = self.players.len();
        let mut i: usize = 0;
        while i < n
            invariant
                i <= n,
                n == 64,
                server_wf(*self),
                red_player_count <= i,
                blue_player_count <= i,
            decreases n - i,
        {
            if let Some(player) = &self.players[i] {
                if player.team == HQMTeam::Red {
                    red_player_count = red_player_count + 1;
                } else if player.team == HQMTeam::Blue {
                    blue_player_count = blue_player_count + 1;
                }
            }
            i += 1;
        }

        let mut i: usize = 0;
        while i < n
            invariant
                i <= n,
                n == 64,
                server_wf(*self),
                red_player_count <= 64 + i,
                blue_player_count <= 64 + i,
            decreases n - i,
        {
            let mut request: Option<HQMTeam> = None;
            let mut taken = self.players[i].take();
            match &mut taken {
                Some(player) => {
                    if player.team_switch_timer > 0 {
                        player.team_switch_timer = player.team_switch_timer - 1;
                    }
                    request = team_switch_request(player);
                },
                None => {},
            }
            self.players.set(i, taken);
            match request {
                Some(HQMTeam::Red) => {
                    if red_player_count + 1 <= self.config.team_max && (!self.config.force_team_size_parity
                        || red_player_count <= blue_player_count) {
                        let had_skater = match &self.players[i] {
                            Some(p) => p.skater.is_some(),
                            None => false,
                        };
                        if self.set_team(i, HQMTeam::Red) {
                            if !had_skater && red_player_count < u32::MAX {
                                red_player_count = red_player_count + 1;
                            }
                        }
                    }
                },
                Some(HQMTeam::Blue) => {
                    if blue_player_count + 1 <= self.config.team_max && (!self.config.force_team_size_parity
                        || blue_player_count <= red_player_count) {
                        let had_skater = match &self.players[i] {
                            Some(p) => p.skater.is_some(),
                            None => false,
                        };
                        if self.set_team(i, HQMTeam::Blue) {
                            if !had_skater && blue_player_count < u32::MAX {
                                blue_player_count = blue_player_count + 1;
                            }
                        }
                    }
                },
                Some(HQMTeam::Spec) => {
                    let _ = self.set_team(i, HQMTeam::Spec);
                },
                _ => {},
            }
            i += 1;
        }
    }

    /// Copy each session's input snapshot onto the skater object it owns.
    pub fn copy_player_input_to_object(&mut self)
        requires
            server_wf(*old(self)),
        ensures
            server_wf(*final(self)),
            final(self).players@ == old(self).players@,
    {
        let n = self.players.len();
        let mut i: usize = 0;
        while i < n
            invariant
                i <= n,
                n == 64,
                server_wf(*self),
                self.players@ == old(self).players@,
            decreases n - i,
        {
            let mut update: Option<(usize, HQMPlayerInput)> = None;
            if let Some(player) = &self.players[i] {
                if let Some(oi) = player.skater {
                    if oi.0 < self.game.world.objects.len() {
                        update = Some((oi.0, player.input));
                    }
                }
            }
            if let Some((oi, input)) = update {
                let obj = self.game.world.objects[oi];
                if let HQMGameObject::Player(mut sk) = obj {
                    sk.input = input;
                    self.game.world.objects.set(oi, HQMGameObject::Player(sk));
                }
            }
            i += 1;
        }
    }

    /// Install a prepared fresh game under the next game number and reset
    /// every session for it: skaters gone, everyone a spectator, message
    /// queues restarted with the roster broadcast.
    pub fn new_game(&mut self, game: HQMGame)
        requires
            server_wf(*old(self)),
            world_wf(game.world),
        ensures
            server_wf(*final(self)),
            final(self).game_alloc == old(self).game_alloc.wrapping_add(1),
            final(self).game.game_id == old(self).game_alloc.wrapping_add(1),
            final(self).game.red_score == game.red_score,
            final(self).game.blue_score == game.blue_score,
            final(self).game.period == game.period,
            final(self).game.time == game.time,
            final(self).game.game_over == game.game_over,
            final(self).game.world == game.world,
            forall|i: int|
                0 <= i < old(self).players@.len() ==> ((#[trigger] final(self).players@[i]) is Some
                    <==> old(self).players@[i] is Some),
            forall|i: int|
                0 <= i < old(self).players@.len() && old(self).players@[i] is Some ==> {
                    let p = (#[trigger] final(self).players@[i]).unwrap();
                    &&& p.skater is None
                    &&& p.team == HQMTeam::Spec
                    &&& p.msgpos == 0
                    &&& p.packet == u32::MAX
                },
    {
        self.game_alloc = self.game_alloc.wrapping_add(1);
        let mut game = game;
        game.game_id = self.game_alloc;
        self.game = game;

        let n = self.players.len();
        let mut i: usize = 0;
        while i < n
            invariant
                i <= n,
                n == old(self).players@.len(),
                n == self.players@.len(),
                world_wf(self.game.world),
                self.game.world == game.world,
                self.game_alloc == old(self).game_alloc.wrapping_add(1),
                self.game.game_id == old(self).game_alloc.wrapping_add(1),
                self.game.red_score == game.red_score,
                self.game.blue_score == game.blue_score,
                self.game.period == game.period,
                self.game.time == game.time,
                self.game.game_over == game.game_over,
                forall|j: int|
                    0 <= j < n ==> ((#[trigger] self.players@[j]) is Some <==> old(self).players@[j] is Some),
                forall|j: int|
                    0 <= j < i && old(self).players@[j] is Some ==> {
                        let p = (#[trigger] self.players@[j]).unwrap();
                        &&& p.skater is None
                        &&& p.team == HQMTeam::Spec
                        &&& p.msgpos == 0
                        &&& p.packet == u32::MAX
                    },
            decreases n - i,
        {
            let mut msg: Option<HQMMessage> = None;
            let mut taken = self.players[i].take();
            match &mut taken {
                Some(player) => {
                    player.skater = None;
                    player.team = HQMTeam::Spec;
                    player.msgpos = 0;
                    player.packet = u32::MAX;
                    player.messages.clear();
                    msg = Some(
                        HQMMessage::PlayerUpdate {
                            player_name: crate::game::clone_bytes(&player.player_name),
                            team: HQMTeam::Spec,
                            player_index: HQMServerPlayerIndex(i),
                            object_index: None,
                            in_server: true,
                        },
                    );
                },
                None => {},
            }
            self.players.set(i, taken);
            if let Some(m) = msg {
                self.add_global_message_keeping_roster(m, i);
            }
            i += 1;
        }
    }

    /// Append a persistent message to every session's queue without
    /// disturbing the roster fields (used during the new-game reset).
    fn add_global_message_keeping_roster(&mut self, message: HQMMessage, ghost_hint: usize)
        ensures
            final(self).players@.len() == old(self).players@.len(),
            forall|j: int|
                0 <= j < old(self).players@.len() ==> ((#[trigger] final(self).players@[j]) is Some
                    <==> old(self).players@[j] is Some),
            forall|j: int|
                0 <= j < old(self).players@.len() && old(self).players@[j] is Some
                    ==> equal_but_messages(
                    (#[trigger] old(self).players@[j]).unwrap(),
                    final(self).players@[j].unwrap(),
                ),
            final(self).game.game_id == old(self).game.game_id,
            final(self).game.red_score == old(self).game.red_score,
            final(self).game.blue_score == old(self).game.blue_score,
            final(self).game.period == old(self).game.period,
            final(self).game.time == old(self).game.time,
            final(self).game.game_over == old(self).game.game_over,
            final(self).game.world == old(self).game.world,
            final(self).game_alloc == old(self).game_alloc,
    {
        let _ = ghost_hint;
        self.add_global_message(message, true);
    }
}

/// Slot-for-slot identical message queues extend one another.
pub proof fn lemma_players_append_refl(
    a: Seq<Option<HQMConnectedPlayer>>,
    b: Seq<Option<HQMConnectedPlayer>>,
)
    requires
        a.len() == b.len(),
        forall|i: int| 0 <= i < a.len() ==> ((#[trigger] b[i]) is Some <==> a[i] is Some),
        forall|i: int|
            0 <= i < a.len() && a[i] is Some ==> (#[trigger] b[i]).unwrap().messages@ == a[i].unwrap().messages@,
    ensures
        players_msgs_append_only(a, b),
{
}

/// Message extension chains.
pub proof fn lemma_players_append_chain(
    a: Seq<Option<HQMConnectedPlayer>>,
    b: Seq<Option<HQMConnectedPlayer>>,
    c: Seq<Option<HQMConnectedPlayer>>,
)
    requires
        players_msgs_append_only(a, b),
        players_msgs_append_only(b, c),
    ensures
        players_msgs_append_only(a, c),
{
    assert forall|i: int|
        0 <= i < a.len() && a[i] is Some implies crate::game::msgs_append_only(
        (#[trigger] a[i]).unwrap().messages@,
        c[i].unwrap().messages@,
    ) by {
        assert(crate::game::msgs_append_only(a[i].unwrap().messages@, b[i].unwrap().messages@));
        assert(crate::game::msgs_append_only(b[i].unwrap().messages@, c[i].unwrap().messages@));
    }
}

} // verus!
