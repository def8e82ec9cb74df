//! The server's own state: the game (scores, clock, world objects), the
//! per-connection session slots, and the broadcast message queues. The
//! floating-point world lives outside; objects here carry the integer data
//! the rules and the wire codec read (centimetre positions, speeds in
//! millimetres per tick, and the quantised packet fields).

use vstd::prelude::*;

use crate::spots::{HQMCmPoint, HQMRink};
use crate::touch::HQMCmPosition;
use crate::types::{HQMObjectIndex, HQMRulesState, HQMServerPlayerIndex, HQMTeam};
use crate::positions::HQMFaceoffPosition;

verus! {

/// Which hand a skater holds the stick in.
#[derive(Debug, Clone, Copy, PartialEq, Eq, Structural)]
pub enum HQMSkaterHand {
    Left,
    Right,
}

/// A client's input snapshot. The eight analogue channels are carried as
/// raw 32-bit patterns straight off the wire; only `keys` is interpreted
/// by the server logic.
#[derive(Debug, Clone, Copy, PartialEq, Eq, Structural)]
pub struct HQMPlayerInput {
    pub stick_angle_bits: u32,
    pub turn_bits: u32,
    pub unknown_bits: u32,
    pub fwbw_bits: u32,
    pub stick_bits_0: u32,
    pub stick_bits_1: u32,
    pub head_rot_bits: u32,
    pub body_rot_bits: u32,
    pub keys: u32,
}

/// The all-zero input.
pub open spec fn spec_input_default() -> HQMPlayerInput {
    HQMPlayerInput {
        stick_angle_bits: 0,
        turn_bits: 0,
        unknown_bits: 0,
        fwbw_bits: 0,
        stick_bits_0: 0,
        stick_bits_1: 0,
        head_rot_bits: 0,
        body_rot_bits: 0,
        keys: 0,
    }
}

impl Default for HQMPlayerInput {
    /// The all-zero input.
    fn default() -> (r: Self)
        ensures
            r == spec_input_default(),
    {
        HQMPlayerInput {
            stick_angle_bits: 0,
            turn_bits: 0,
            unknown_bits: 0,
            fwbw_bits: 0,
            stick_bits_0: 0,
            stick_bits_1: 0,
            head_rot_bits: 0,
            body_rot_bits: 0,
            keys: 0,
        }
    }
}

impl HQMPlayerInput {
    /// The "join red" key is held.
    pub fn join_red(&self) -> (r: bool)
        ensures
            r == (self.keys & 0x4 != 0),
    {
        self.keys & 0x4 != 0
    }

    /// The "join blue" key is held.
    pub fn join_blue(&self) -> (r: bool)
        ensures
            r == (self.keys & 0x8 != 0),
    {
        self.keys & 0x8 != 0
    }

    /// The "spectate" key is held.
    pub fn spectate(&self) -> (r: bool)
        ensures
            r == (self.keys & 0x20 != 0),
    {
        self.keys & 0x20 != 0
    }
}

/// Quantised wire fields of a puck, as handed in by the simulation.
#[derive(Debug, Clone, Copy, PartialEq, Eq, Structural)]
pub struct HQMPuckPacket {
    pub pos_x: u32,
    pub pos_y: u32,
    pub pos_z: u32,
    pub rot_a: u32,
    pub rot_b: u32,
}

/// Quantised wire fields of a skater, as handed in by the simulation.
#[derive(Debug, Clone, Copy, PartialEq, Eq, Structural)]
pub struct HQMSkaterPacket {
    pub pos_x: u32,
    pub pos_y: u32,
    pub pos_z: u32,
    pub rot_a: u32,
    pub rot_b: u32,
    pub stick_pos_x: u32,
    pub stick_pos_y: u32,
    pub stick_pos_z: u32,
    pub stick_rot_a: u32,
    pub stick_rot_b: u32,
    pub head_rot: u32,
    pub body_rot: u32,
}

/// A puck object: its centimetre position, its speed in millimetres per
/// tick, and its latest quantised packet fields.
#[derive(Debug, Clone, Copy, PartialEq, Eq, Structural)]
pub struct HQMPuck {
    pub pos: HQMCmPosition,
    pub speed_mmpt: u32,
    pub packet: HQMPuckPacket,
}

/// A skater object: who owns it, the stick hand, the line flags the rules
/// read (refreshed from the simulation each tick), its input copy, where it
/// was placed, and its latest quantised packet fields.
#[derive(Debug, Clone, Copy, PartialEq, Eq, Structural)]
pub struct HQMSkater {
    pub owner: HQMServerPlayerIndex,
    pub hand: HQMSkaterHand,
    pub input: HQMPlayerInput,
    /// The skater's feet are past their team's offensive blue line.
    pub in_offensive_zone: bool,
    /// The skater's feet are past the centre line, towards the opponent.
    pub past_mid_line: bool,
    pub placed_pos: HQMCmPoint,
    pub placed_rot_cdeg: u32,
    pub packet: HQMSkaterPacket,
}

/// One world object slot.
#[derive(Debug, Clone, Copy, PartialEq, Eq, Structural)]
pub enum HQMGameObject {
    Empty,
    Puck(HQMPuck),
    Player(HQMSkater),
}

/// One slot of the per-client object packet list.
#[derive(Debug, Clone, Copy, PartialEq, Eq, Structural)]
pub enum HQMObjectPacket {
    Empty,
    Puck(HQMPuckPacket),
    Skater(HQMSkaterPacket),
}

/// The world as the rules engine sees it: 32 object slots and the rink.
#[derive(Debug, Clone, PartialEq, Eq)]
pub struct HQMGameWorld {
    pub objects: Vec<HQMGameObject>,
    pub rink: HQMRink,
}

/// A world is well-formed when it has exactly 32 object slots.
pub open spec fn world_wf(w: HQMGameWorld) -> bool {
    w.objects@.len() == 32
}

/// First empty object slot at or after `i`, or -1.
pub open spec fn empty_slot_from(s: Seq<HQMGameObject>, i: int) -> int
    decreases s.len() - i,
{
    if i < 0 || i >= s.len() {
        -1
    } else if s[i] == HQMGameObject::Empty {
        i
    } else {
        empty_slot_from(s, i + 1)
    }
}

impl HQMGameWorld {
    /// A world with 32 empty slots.
    pub fn new(rink: HQMRink) -> (r: HQMGameWorld)
        ensures
            world_wf(r),
            r.rink == rink,
            forall|i: int| 0 <= i < 32 ==> r.objects@[i] == HQMGameObject::Empty,
    {
        let mut objects: Vec<HQMGameObject> = Vec::new();
        let mut i: usize = 0;
        while i < 32
            invariant
                i <= 32,
                objects@.len() == i,
                forall|j: int| 0 <= j < i ==> objects@[j] == HQMGameObject::Empty,
            decreases 32 - i,
        {
            objects.push(HQMGameObject::Empty);
            i += 1;
        }
        HQMGameWorld { objects, rink }
    }

    fn find_empty_slot(&self, i: usize) -> (r: Option<usize>)
        requires
            i <= self.objects@.len(),
        ensures
            r is Some <==> empty_slot_from(self.objects@, i as int) >= 0,
            r is Some ==> r.unwrap() as int == empty_slot_from(self.objects@, i as int)
                && r.unwrap() < self.objects@.len(),
        decreases self.objects@.len() - i,
    {
        if i >= self.objects.len() {
            None
        } else if matches!(self.objects[i], HQMGameObject::Empty) {
            Some(i)
        } else {
            self.find_empty_slot(i + 1)
        }
    }

    /// Create a puck in the first empty slot, if any.
    pub fn create_puck_object(&mut self, pos: HQMCmPosition) -> (r: Option<HQMObjectIndex>)
        ensures
            final(self).objects@.len() == old(self).objects@.len(),
            ({
                let f = empty_slot_from(old(self).objects@, 0);
                &&& final(self).rink == old(self).rink
                &&& (r is Some <==> f >= 0)
                &&& f >= 0 ==> r == Some(HQMObjectIndex(f as usize)) && final(self).objects@
                    =~= old(self).objects@.update(
                    f,
                    HQMGameObject::Puck(
                        HQMPuck {
                            pos,
                            speed_mmpt: 0,
                            packet: HQMPuckPacket { pos_x: 0, pos_y: 0, pos_z: 0, rot_a: 0, rot_b: 0 },
                        },
                    ),
                )
                &&& f < 0 ==> final(self).objects@ =~= old(self).objects@
            }),
    {
        match self.find_empty_slot(0) {
            Some(i) => {
                self.objects.set(
                    i,
                    HQMGameObject::Puck(
                        HQMPuck {
                            pos,
                            speed_mmpt: 0,
                            packet: HQMPuckPacket { pos_x: 0, pos_y: 0, pos_z: 0, rot_a: 0, rot_b: 0 },
                        },
                    ),
                );
                Some(HQMObjectIndex(i))
            },
            None => None,
        }
    }

    /// Create a skater in the first empty slot, if any.
    pub fn create_player_object(
        &mut self,
        pos: HQMCmPoint,
        rot_cdeg: u32,
        hand: HQMSkaterHand,
        owner: HQMServerPlayerIndex,
    ) -> (r: Option<HQMObjectIndex>)
        ensures
            final(self).objects@.len() == old(self).objects@.len(),
            ({
                let f = empty_slot_from(old(self).objects@, 0);
                &&& final(self).rink == old(self).rink
                &&& (r is Some <==> f >= 0)
                &&& f >= 0 ==> r == Some(HQMObjectIndex(f as usize)) && final(self).objects@
                    =~= old(self).objects@.update(
                    f,
                    HQMGameObject::Player(spec_new_skater(owner, hand, pos, rot_cdeg)),
                )
                &&& f < 0 ==> final(self).objects@ =~= old(self).objects@
            }),
    {
        match self.find_empty_slot(0) {
            Some(i) => {
                self.objects.set(
                    i,
                    HQMGameObject::Player(
                        HQMSkater {
                            owner,
                            hand,
                            input: HQMPlayerInput::default(),
                            in_offensive_zone: false,
                            past_mid_line: false,
                            placed_pos: pos,
                            placed_rot_cdeg: rot_cdeg,
                            packet: zero_skater_packet(),
                        },
                    ),
                );
                Some(HQMObjectIndex(i))
            },
            None => None,
        }
    }

    /// Empty every puck slot.
    pub fn clear_pucks(&mut self)
        ensures
            final(self).rink == old(self).rink,
            final(self).objects@.len() == old(self).objects@.len(),
            forall|i: int|
                0 <= i < old(self).objects@.len() ==> final(self).objects@[i] == (
                if old(self).objects@[i] is Puck {
                    HQMGameObject::Empty
                } else {
                    old(self).objects@[i]
                }),
    {
        let n = self.objects.len();
        let mut i: usize = 0;
        while i < n
            invariant
                i <= n,
                n == self.objects@.len(),
                self.rink == old(self).rink,
                forall|j: int|
                    0 <= j < i ==> self.objects@[j] == (if old(self).objects@[j] is Puck {
                        HQMGameObject::Empty
                    } else {
                        old(self).objects@[j]
                    }),
                forall|j: int| i <= j < n ==> self.objects@[j] == old(self).objects@[j],
            decreases n - i,
        {
            if matches!(self.objects[i], HQMGameObject::Puck(_)) {
                self.objects.set(i, HQMGameObject::Empty);
            }
            i += 1;
        }
    }

    /// Read a puck slot.
    pub fn get_puck(&self, index: HQMObjectIndex) -> (r: Option<HQMPuck>)
        ensures
            r == (if index.0 < self.objects@.len() && self.objects@[index.0 as int] is Puck {
                match self.objects@[index.0 as int] {
                    HQMGameObject::Puck(p) => Some(p),
                    _ => None,
                }
            } else {
                None
            }),
    {
        if index.0 < self.objects.len() {
            match self.objects[index.0] {
                HQMGameObject::Puck(p) => Some(p),
                _ => None,
            }
        } else {
            None
        }
    }
}

/// A fresh skater as created at a placement.
pub open spec fn spec_new_skater(
    owner: HQMServerPlayerIndex,
    hand: HQMSkaterHand,
    pos: HQMCmPoint,
    rot_cdeg: u32,
) -> HQMSkater {
    HQMSkater {
        owner,
        hand,
        input: spec_input_default(),
        in_offensive_zone: false,
        past_mid_line: false,
        placed_pos: pos,
        placed_rot_cdeg: rot_cdeg,
        packet: spec_zero_skater_packet(),
    }
}

/// The zero-filled skater packet a fresh skater starts with.
pub open spec fn spec_zero_skater_packet() -> HQMSkaterPacket {
    HQMSkaterPacket {
        pos_x: 0,
        pos_y: 0,
        pos_z: 0,
        rot_a: 0,
        rot_b: 0,
        stick_pos_x: 0,
        stick_pos_y: 0,
        stick_pos_z: 0,
        stick_rot_a: 0,
        stick_rot_b: 0,
        head_rot: 0,
        body_rot: 0,
    }
}

/// Build the zero-filled skater packet.
pub fn zero_skater_packet() -> (r: HQMSkaterPacket)
    ensures
        r == spec_zero_skater_packet(),
{
    HQMSkaterPacket {
        pos_x: 0,
        pos_y: 0,
        pos_z: 0,
        rot_a: 0,
        rot_b: 0,
        stick_pos_x: 0,
        stick_pos_y: 0,
        stick_pos_z: 0,
        stick_rot_a: 0,
        stick_rot_b: 0,
        head_rot: 0,
        body_rot: 0,
    }
}

/// Extract the per-slot packet list the snapshot writer sends.
pub fn get_packets(objects: &Vec<HQMGameObject>) -> (r: Vec<HQMObjectPacket>)
    requires
        objects@.len() >= 32,
    ensures
        r@.len() == 32,
        forall|i: int|
            0 <= i < 32 ==> r@[i] == (match objects@[i] {
                HQMGameObject::Puck(puck) => HQMObjectPacket::Puck(puck.packet),
                HQMGameObject::Player(skater) => HQMObjectPacket::Skater(skater.packet),
                HQMGameObject::Empty => HQMObjectPacket::Empty,
            }),
{
    let mut packets: Vec<HQMObjectPacket> = Vec::new();
    let mut i: usize = 0;
    while i < 32
        invariant
            i <= 32,
            objects@.len() >= 32,
            packets@.len() == i,
            forall|j: int|
                0 <= j < i ==> packets@[j] == (match objects@[j] {
                    HQMGameObject::Puck(puck) => HQMObjectPacket::Puck(puck.packet),
                    HQMGameObject::Player(skater) => HQMObjectPacket::Skater(skater.packet),
                    HQMGameObject::Empty => HQMObjectPacket::Empty,
                }),
        decreases 32 - i,
    {
        let packet = match &objects[i] {
            HQMGameObject::Puck(puck) => HQMObjectPacket::Puck(puck.packet),
            HQMGameObject::Player(skater) => HQMObjectPacket::Skater(skater.packet),
            HQMGameObject::Empty => HQMObjectPacket::Empty,
        };
        packets.push(packet);
        i += 1;
    }
    packets
}

/// A broadcast message: chat, a goal announcement, or a roster update.
#[derive(Debug, Clone, PartialEq, Eq)]
pub enum HQMMessage {
    Chat { player_index: Option<HQMServerPlayerIndex>, message: Vec<u8> },
    Goal {
        team: HQMTeam,
        goal_player_index: Option<HQMServerPlayerIndex>,
        assist_player_index: Option<HQMServerPlayerIndex>,
    },
    PlayerUpdate {
        player_name: Vec<u8>,
        team: HQMTeam,
        player_index: HQMServerPlayerIndex,
        object_index: Option<HQMObjectIndex>,
        in_server: bool,
    },
}

/// Structural equality of messages, with byte payloads compared by view.
pub open spec fn message_eq(a: HQMMessage, b: HQMMessage) -> bool {
    match (a, b) {
        (
            HQMMessage::Chat { player_index: pa, message: ma },
            HQMMessage::Chat { player_index: pb, message: mb },
        ) => pa == pb && ma@ == mb@,
        (
            HQMMessage::Goal { team: ta, goal_player_index: ga, assist_player_index: aa },
            HQMMessage::Goal { team: tb, goal_player_index: gb, assist_player_index: ab },
        ) => ta == tb && ga == gb && aa == ab,
        (
            HQMMessage::PlayerUpdate {
                player_name: na,
                team: ta,
                player_index: pa,
                object_index: oa,
                in_server: ia,
            },
            HQMMessage::PlayerUpdate {
                player_name: nb,
                team: tb,
                player_index: pb,
                object_index: ob,
                in_server: ib,
            },
        ) => na@ == nb@ && ta == tb && pa == pb && oa == ob && ia == ib,
        _ => false,
    }
}


/// Whether a message is the goal announcement with the given fields.
pub open spec fn is_goal_announcement(
    m: HQMMessage,
    team: HQMTeam,
    goal: Option<crate::types::HQMServerPlayerIndex>,
    assist: Option<crate::types::HQMServerPlayerIndex>,
) -> bool {
    match m {
        HQMMessage::Goal { team: t, goal_player_index: g, assist_player_index: a } => t == team
            && g == goal && a == assist,
        _ => false,
    }
}

/// Whether a message is a goal announcement for the given team.
pub open spec fn is_goal_message_for(m: HQMMessage, team: HQMTeam) -> bool {
    match m {
        HQMMessage::Goal { team: t, .. } => t == team,
        _ => false,
    }
}


/// Whether a message is a chat line from the given sender (the server
/// itself when `from` is nothing) with exactly the given bytes.
pub open spec fn is_chat_line(
    m: HQMMessage,
    from: Option<crate::types::HQMServerPlayerIndex>,
    text: Seq<u8>,
) -> bool {
    match m {
        HQMMessage::Chat { player_index, message } => player_index == from && message@ == text,
        _ => false,
    }
}

/// Whether a message is the roster update with the given fields.
pub open spec fn is_roster_update(
    m: HQMMessage,
    name: Seq<u8>,
    team: HQMTeam,
    player_index: crate::types::HQMServerPlayerIndex,
    object_index: Option<crate::types::HQMObjectIndex>,
    in_server: bool,
) -> bool {
    match m {
        HQMMessage::PlayerUpdate {
            player_name: n,
            team: t,
            player_index: p,
            object_index: o,
            in_server: s,
        } => n@ == name && t == team && p == player_index && o == object_index && s == in_server,
        _ => false,
    }
}

/// `b` is `a` with exactly the given chat lines appended, all from the
/// same sender, in order.
pub open spec fn chats_appended(
    a: Seq<HQMMessage>,
    b: Seq<HQMMessage>,
    from: Option<crate::types::HQMServerPlayerIndex>,
    texts: Seq<Seq<u8>>,
) -> bool {
    &&& b.len() == a.len() + texts.len()
    &&& forall|i: int| 0 <= i < a.len() ==> b[i] == a[i]
    &&& forall|k: int| 0 <= k < texts.len() ==> is_chat_line(#[trigger] b[a.len() + k], from, texts[k])
}

/// Appending chat lines twice appends their concatenation.
pub proof fn lemma_chats_appended_trans(
    a: Seq<HQMMessage>,
    b: Seq<HQMMessage>,
    c: Seq<HQMMessage>,
    from: Option<crate::types::HQMServerPlayerIndex>,
    t1: Seq<Seq<u8>>,
    t2: Seq<Seq<u8>>,
)
    requires
        chats_appended(a, b, from, t1),
        chats_appended(b, c, from, t2),
    ensures
        chats_appended(a, c, from, t1 + t2),
{
    assert forall|k: int| 0 <= k < (t1 + t2).len() implies is_chat_line(
        #[trigger] c[a.len() + k],
        from,
        (t1 + t2)[k],
    ) by {
        if k < t1.len() {
            assert(c[a.len() + k] == b[a.len() + k]);
        } else {
            assert(c[b.len() + (k - t1.len())] == c[a.len() + k]);
            assert(is_chat_line(c[b.len() + (k - t1.len())], from, t2[k - t1.len()]));
        }
    }
}

/// `b` extends `a`: `a` is a prefix of `b`.
pub open spec fn msgs_append_only(a: Seq<HQMMessage>, b: Seq<HQMMessage>) -> bool {
    &&& a.len() <= b.len()
    &&& forall|i: int| 0 <= i < a.len() ==> b[i] == a[i]
}

/// `b` extends `a` and none of the appended messages is a goal
/// announcement for `team`.
pub open spec fn no_goal_msg_added(a: Seq<HQMMessage>, b: Seq<HQMMessage>, team: HQMTeam) -> bool {
    &&& msgs_append_only(a, b)
    &&& forall|i: int| a.len() <= i < b.len() ==> !is_goal_message_for(#[trigger] b[i], team)
}

/// Copy a message.
pub fn duplicate_message(m: &HQMMessage) -> (r: HQMMessage)
    ensures
        message_eq(r, *m),
{
    match m {
        HQMMessage::Chat { player_index, message } => HQMMessage::Chat {
            player_index: *player_index,
            message: clone_bytes(message),
        },
        HQMMessage::Goal { team, goal_player_index, assist_player_index } => HQMMessage::Goal {
            team: *team,
            goal_player_index: *goal_player_index,
            assist_player_index: *assist_player_index,
        },
        HQMMessage::PlayerUpdate { player_name, team, player_index, object_index, in_server } => {
            HQMMessage::PlayerUpdate {
                player_name: clone_bytes(player_name),
                team: *team,
                player_index: *player_index,
                object_index: *object_index,
                in_server: *in_server,
            }
        },
    }
}

/// Append a suffix to a byte vector.
pub fn push_all_bytes(v: &mut Vec<u8>, suffix: &[u8])
    ensures
        final(v)@ == old(v)@ + suffix@,
{
    let mut i: usize = 0;
    while i < suffix.len()
        invariant
            i <= suffix@.len(),
            v@ =~= old(v)@ + suffix@.take(i as int),
        decreases suffix@.len() - i,
    {
        v.push(suffix[i]);
        i += 1;
    }
    assert(v@ =~= old(v)@ + suffix@);
}

/// Copy a byte vector.
pub fn clone_bytes(v: &Vec<u8>) -> (r: Vec<u8>)
    ensures
        r@ == v@,
{
    let mut r: Vec<u8> = Vec::new();
    let mut i: usize = 0;
    while i < v.len()
        invariant
            i <= v@.len(),
            r@ =~= v@.take(i as int),
        decreases v@.len() - i,
    {
        r.push(v[i]);
        i += 1;
    }
    assert(r@ =~= v@);
    r
}

} // verus!
