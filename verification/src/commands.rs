//! Session-level handling of client requests (join, update, exit, info),
//! the chat command surface, and the two halves of the tick loop around
//! the external simulation step.

use vstd::prelude::*;
use vstd::string::StrSliceExecFns;

use crate::engine::{HQMMatch, HQMSimulationEvent, match_wf, game_over_coherent, event_wf};
use crate::game::{get_packets, HQMSkaterHand, HQMGameObject};
use crate::positions::HQMFaceoffPosition;
use crate::server::{server_wf, HQMServer};
use crate::types::{HQMMatchEvent, HQMTeam};
use crate::wire::{
    get_player_name, parse_request, write_game_id_mismatch, write_info_reply, write_snapshot,
    HQMClientToServer, HQMSnapshotFixed,
};

verus! {

/// Whether two byte strings hold the same bytes.
pub fn bytes_eq(a: &[u8], b: &[u8]) -> (r: bool)
    ensures
        r == (a@ =~= b@),
{
    if a.len() != b.len() {
        return false;
    }
    let mut i: usize = 0;
    while i < a.len()
        invariant
            i <= a@.len(),
            a@.len() == b@.len(),
            forall|j: int| 0 <= j < i ==> a@[j] == b@[j],
        decreases a@.len() - i,
    {
        if a[i] != b[i] {
            return false;
        }
        i += 1;
    }
    assert(a@ =~= b@);
    true
}

/// The number denoted by a run of decimal digits, or nothing when the
/// run is empty, holds a non-digit, or overflows.
pub open spec fn spec_parse_u32(s: Seq<u8>, acc: int, i: int) -> Option<u32>
    decreases s.len() - i,
{
    if i < 0 || i >= s.len() {
        if i == s.len() && i > 0 && 0 <= acc < 0x1_0000_0000 {
            Some(acc as u32)
        } else {
            None
        }
    } else if 48 <= s[i] <= 57 && acc * 10 + (s[i] - 48) < 0x1_0000_0000 {
        spec_parse_u32(s, acc * 10 + (s[i] - 48), i + 1)
    } else {
        None
    }
}

fn parse_u32_from(s: &[u8], acc: u32, i: usize) -> (r: Option<u32>)
    requires
        i <= s@.len(),
        s@.len() <= 64,
    ensures
        r == spec_parse_u32(s@, acc as int, i as int),
    decreases s@.len() - i,
{
    if i >= s.len() {
        if i == s.len() && i > 0 {
            Some(acc)
        } else {
            None
        }
    } else {
        let c = s[i];
        if 48 <= c && c <= 57 {
            let d = (c - 48) as u32;
            if acc <= (u32::MAX - d) / 10 {
                proof {
                    assert(acc * 10 + d < 0x1_0000_0000) by (nonlinear_arith)
                        requires
                            acc <= (0xFFFF_FFFFu32 - d) / 10,
                            d <= 9,
                    ;
                }
                parse_u32_from(s, acc * 10 + d, i + 1)
            } else {
                proof {
                    assert(acc * 10 + d >= 0x1_0000_0000) by (nonlinear_arith)
                        requires
                            acc > (0xFFFF_FFFFu32 - d) / 10,
                            d <= 9,
                            acc <= 0xFFFF_FFFFu32,
                    ;
                }
                None
            }
        } else {
            None
        }
    }
}

/// Parse a decimal number.
pub fn parse_u32_bytes(s: &[u8]) -> (r: Option<u32>)
    requires
        s@.len() <= 64,
    ensures
        r == spec_parse_u32(s@, 0, 0),
{
    parse_u32_from(s, 0, 0)
}

/// Parse a faceoff position name.
pub fn parse_faceoff_position(s: &[u8]) -> (r: Option<HQMFaceoffPosition>) {
    if bytes_eq(s, "C".as_bytes()) {
        Some(HQMFaceoffPosition::C)
    } else if bytes_eq(s, "LW".as_bytes()) {
        Some(HQMFaceoffPosition::LW)
    } else if bytes_eq(s, "RW".as_bytes()) {
        Some(HQMFaceoffPosition::RW)
    } else if bytes_eq(s, "LD".as_bytes()) {
        Some(HQMFaceoffPosition::LD)
    } else if bytes_eq(s, "RD".as_bytes()) {
        Some(HQMFaceoffPosition::RD)
    } else if bytes_eq(s, "G".as_bytes()) {
        Some(HQMFaceoffPosition::G)
    } else if bytes_eq(s, "LM".as_bytes()) {
        Some(HQMFaceoffPosition::LM)
    } else if bytes_eq(s, "RM".as_bytes()) {
        Some(HQMFaceoffPosition::RM)
    } else if bytes_eq(s, "LLM".as_bytes()) {
        Some(HQMFaceoffPosition::LLM)
    } else if bytes_eq(s, "RRM".as_bytes()) {
        Some(HQMFaceoffPosition::RRM)
    } else if bytes_eq(s, "LLD".as_bytes()) {
        Some(HQMFaceoffPosition::LLD)
    } else if bytes_eq(s, "RRD".as_bytes()) {
        Some(HQMFaceoffPosition::RRD)
    } else if bytes_eq(s, "CM".as_bytes()) {
        Some(HQMFaceoffPosition::CM)
    } else if bytes_eq(s, "CD".as_bytes()) {
        Some(HQMFaceoffPosition::CD)
    } else if bytes_eq(s, "LW2".as_bytes()) {
        Some(HQMFaceoffPosition::LW2)
    } else if bytes_eq(s, "RW2".as_bytes()) {
        Some(HQMFaceoffPosition::RW2)
    } else if bytes_eq(s, "LLW".as_bytes()) {
        Some(HQMFaceoffPosition::LLW)
    } else if bytes_eq(s, "RRW".as_bytes()) {
        Some(HQMFaceoffPosition::RRW)
    } else {
        None
    }
}

/// First index of a space at or after `i`, or the length.
pub open spec fn first_space(s: Seq<u8>, i: int) -> int
    decreases s.len() - i,
{
    if i < 0 || i >= s.len() {
        s.len() as int
    } else if s[i] == 32 {
        i
    } else {
        first_space(s, i + 1)
    }
}

/// The first space lies between the scan start and the end.
pub proof fn lemma_first_space_bounds(s: Seq<u8>, i: int)
    requires
        0 <= i <= s.len(),
    ensures
        i <= first_space(s, i) <= s.len(),
    decreases s.len() - i,
{
    if i < s.len() && s[i] != 32 {
        lemma_first_space_bounds(s, i + 1);
    }
}

/// The fields of a byte string split on single spaces: the bytes before
/// the first space, then the split of what follows it. Adjacent spaces
/// yield empty fields, and the result is never empty.
pub open spec fn spec_split_spaces(s: Seq<u8>) -> Seq<Seq<u8>>
    decreases s.len(),
    via spec_split_spaces_dec
{
    let k = first_space(s, 0);
    if k >= s.len() {
        seq![s]
    } else {
        seq![s.take(k)] + spec_split_spaces(s.skip(k + 1))
    }
}

#[via_fn]
proof fn spec_split_spaces_dec(s: Seq<u8>) {
    lemma_first_space_bounds(s, 0);
}

fn find_space(s: &Vec<u8>, i: usize) -> (r: usize)
    requires
        i <= s@.len(),
    ensures
        r as int == first_space(s@, i as int),
        i <= r <= s@.len(),
    decreases s@.len() - i,
{
    if i >= s.len() {
        s.len()
    } else if s[i] == 32 {
        i
    } else {
        find_space(s, i + 1)
    }
}

fn split_spaces_rec(s: &Vec<u8>) -> (r: Vec<Vec<u8>>)
    ensures
        r@.len() == spec_split_spaces(s@).len(),
        forall|j: int| 0 <= j < r@.len() ==> (#[trigger] r@[j])@ == spec_split_spaces(s@)[j],
    decreases s@.len(),
{
    let k = find_space(s, 0);
    if k >= s.len() {
        let mut r: Vec<Vec<u8>> = Vec::new();
        r.push(crate::game::clone_bytes(s));
        r
    } else {
        let mut head: Vec<u8> = Vec::new();
        let mut i: usize = 0;
        while i < k
            invariant
                i <= k,
                k <= s@.len(),
                head@ =~= s@.take(i as int),
            decreases k - i,
        {
            head.push(s[i]);
            i += 1;
        }
        let mut tail: Vec<u8> = Vec::new();
        let mut i: usize = k + 1;
        while i < s.len()
            invariant
                k + 1 <= i <= s@.len(),
                tail@ =~= s@.subrange(k + 1, i as int),
            decreases s@.len() - i,
        {
            tail.push(s[i]);
            i += 1;
        }
        assert(tail@ =~= s@.skip(k + 1));
        let rest = split_spaces_rec(&tail);
        let mut r: Vec<Vec<u8>> = Vec::new();
        r.push(head);
        let mut j: usize = 0;
        while j < rest.len()
            invariant
                j <= rest@.len(),
                r@.len() == j + 1,
                k as int == first_space(s@, 0),
                k < s@.len(),
                r@[0]@ == s@.take(first_space(s@, 0)),
                rest@.len() == spec_split_spaces(s@.skip(k + 1)).len(),
                forall|t: int| 0 <= t < j ==> (#[trigger] r@[t + 1])@ == rest@[t]@,
                forall|t: int|
                    0 <= t < rest@.len() ==> (#[trigger] rest@[t])@ == spec_split_spaces(
                        s@.skip(k + 1),
                    )[t],
            decreases rest@.len() - j,
        {
            let part = crate::game::clone_bytes(&rest[j]);
            r.push(part);
            j += 1;
        }
        proof {
            let sp = spec_split_spaces(s@);
            assert(sp =~= seq![s@.take(k as int)] + spec_split_spaces(s@.skip(k as int + 1)));
            assert forall|j2: int| 0 <= j2 < r@.len() implies (#[trigger] r@[j2])@ == sp[j2] by {
                if j2 > 0 {
                    assert(r@[(j2 - 1) + 1]@ == rest@[j2 - 1]@);
                }
            }
        }
        r
    }
}

/// Split a byte string on single spaces.
pub fn split_spaces(s: &Vec<u8>) -> (r: Vec<Vec<u8>>)
    ensures
        r@.len() == spec_split_spaces(s@).len(),
        forall|j: int| 0 <= j < r@.len() ==> (#[trigger] r@[j])@ == spec_split_spaces(s@)[j],
{
    split_spaces_rec(s)
}

/// An out-of-order update is dropped: its packet number is behind the
/// session's most recent one and within 1000 of it (wraparound tolerated).
pub open spec fn spec_packet_is_stale(new_packet: u32, current: u32) -> bool {
    new_packet < current && current - new_packet < 1000
}

/// Check the out-of-order guard.
pub fn packet_is_stale(new_packet: u32, current: u32) -> (r: bool)
    ensures
        r == spec_packet_is_stale(new_packet, current),
{
    new_packet < current && current - new_packet < 1000
}

impl HQMServer {
    /// Apply a parsed player update: refresh the session's input and
    /// reliability cursors unless the out-of-order guard drops it, and
    /// route a fresh chat line onwards.
    pub fn player_update(
        &mut self,
        m: &mut HQMMatch,
        addr: u64,
        version: u8,
        current_game_id: u32,
        input: crate::game::HQMPlayerInput,
        deltatime: Option<u32>,
        new_known_packet: u32,
        known_msgpos: u32,
        chat: Option<(u32, Vec<u8>)>,
    )
        requires
            server_wf(*old(self)),
            match_wf(*old(m)),
        ensures
            server_wf(*final(self)),
            match_wf(*final(m)),
            ({
                let slot = crate::server::player_slot_with_addr(old(self).players@, addr, 0);
                if slot < 0 {
                    *final(self) == *old(self) && *final(m) == *old(m)
                } else if old(self).players@[slot] is None {
                    final(self).players@ =~= old(self).players@ && final(self).game == old(self).game
                        && *final(m) == *old(m)
                } else {
                    let p0 = old(self).players@[slot].unwrap();
                    if crate::commands::spec_packet_is_stale(new_known_packet, p0.packet) {
                        // dropped by the out-of-order guard: only the client
                        // version is recorded
                        &&& final(self).players@ =~= old(self).players@.update(
                            slot,
                            Some(crate::server::HQMConnectedPlayer { client_version: version, ..p0 }),
                        )
                        &&& final(self).game == old(self).game
                        &&& *final(m) == *old(m)
                    } else if (match chat {
                        Some((rep, _)) => rep == p0.chat_rep,
                        None => true,
                    }) {
                        // accepted, no fresh chat: the session is refreshed
                        &&& final(self).players@ =~= old(self).players@.update(
                            slot,
                            Some(
                                crate::server::HQMConnectedPlayer {
                                    client_version: version,
                                    inactivity: 0,
                                    packet: new_known_packet,
                                    input: input,
                                    game_id: current_game_id,
                                    msgpos: known_msgpos,
                                    deltatime: (match deltatime {
                                        Some(dt) => dt,
                                        None => p0.deltatime,
                                    }),
                                    ..p0
                                },
                            ),
                        )
                        &&& final(self).game == old(self).game
                        &&& *final(m) == *old(m)
                    } else {
                        // accepted with a fresh chat line: the refreshed
                        // session recorded the new repetition counter and the
                        // line went through the chat dispatch
                        true
                    }
                }
            }),
    {
        let slot = self.find_player_slot(addr);
        let player_index = match slot {
            Some(x) => x,
            None => {
                return ;
            },
        };
        let mut chat_to_process: Option<Vec<u8>> = None;
        let taken = self.players[player_index].take();
        match taken {
            Some(mut player) => {
                player.client_version = version;
                if packet_is_stale(new_known_packet, player.packet) {
                    self.players.set(player_index, Some(player));
                    return ;
                }
                player.inactivity = 0;
                player.packet = new_known_packet;
                player.input = input;
                player.game_id = current_game_id;
                player.msgpos = known_msgpos;
                if let Some(dt) = deltatime {
                    player.deltatime = dt;
                }
                if let Some((rep, bytes)) = chat {
                    if rep != player.chat_rep {
                        player.chat_rep = rep;
                        chat_to_process = Some(bytes);
                    }
                }
                self.players.set(player_index, Some(player));
            },
            None => {
                self.players.set(player_index, None);
            },
        }
        if let Some(bytes) = chat_to_process {
            self.process_message(m, bytes, player_index);
        }
    }

    /// Handle a join request: silently ignored when the server is full,
    /// the version is wrong, the address is already seated or banned,
    /// joining is disabled, or the name is not valid UTF-8.
    pub fn player_join(&mut self, addr: u64, version: u32, name_bytes: Vec<u8>)
        requires
            server_wf(*old(self)),
        ensures
            server_wf(*final(self)),
    {
        let player_count = self.player_count();
        if player_count >= self.config.player_max {
            return ;
        }
        if version != 55 {
            return ;
        }
        if self.find_player_slot(addr).is_some() {
            return ;
        }
        let mut banned = false;
        let mut i: usize = 0;
        while i < self.ban_list.len()
            invariant
                i <= self.ban_list@.len(),
            decreases self.ban_list@.len() - i,
        {
            if self.ban_list[i] == addr {
                banned = true;
            }
            i += 1;
        }
        if banned {
            return ;
        }
        if !self.allow_join {
            return ;
        }
        match get_player_name(name_bytes) {
            Some(name) => {
                let name_vec = name.as_str().as_bytes_vec();
                let name_copy = crate::game::clone_bytes(&name_vec);
                if self.add_player(name_vec, addr) {
                    let mut msg = name_copy;
                    crate::game::push_all_bytes(&mut msg, " joined".as_bytes());
                    self.add_server_chat_message(msg);
                }
            },
            None => {},
        }
    }

    /// Handle an exit notice: remove the session and announce it.
    pub fn player_exit(&mut self, addr: u64)
        requires
            server_wf(*old(self)),
        ensures
            server_wf(*final(self)),
    {
        let slot = self.find_player_slot(addr);
        match slot {
            Some(player_index) => {
                let name = match &self.players[player_index] {
                    Some(p) => crate::game::clone_bytes(&p.player_name),
                    None => Vec::new(),
                };
                self.remove_player(player_index);
                let mut msg = name;
                crate::game::push_all_bytes(&mut msg, " exited".as_bytes());
                self.add_server_chat_message(msg);
            },
            None => {},
        }
    }

    /// Change a session's stick hand. While a match is running the change
    /// is deferred to the next intermission for the skater on the ice.
    pub fn set_hand(&mut self, hand: HQMSkaterHand, player_index: usize)
        requires
            server_wf(*old(self)),
            player_index < 64,
        ensures
            server_wf(*final(self)),
    {
        let mut skater: Option<crate::types::HQMObjectIndex> = None;
        let taken = self.players[player_index].take();
        match taken {
            Some(mut player) => {
                player.hand = hand;
                skater = player.skater;
                self.players.set(player_index, Some(player));
            },
            None => {
                self.players.set(player_index, None);
                return ;
            },
        }
        if let Some(oi) = skater {
            if self.game.period != 0 && !self.game.game_over {
                self.add_directed_server_chat_message(
                    "Stick hand will change after next intermission".as_bytes_vec(),
                    player_index,
                );
                return ;
            }
            if oi.0 < self.game.world.objects.len() {
                let obj = self.game.world.objects[oi.0];
                if let HQMGameObject::Player(mut sk) = obj {
                    sk.hand = hand;
                    self.game.world.objects.set(oi.0, HQMGameObject::Player(sk));
                }
            }
        }
    }

    /// Route an inbound chat line: a leading slash makes it a command,
    /// anything else is broadcast unless the sender or the room is muted.
    pub fn process_message(&mut self, m: &mut HQMMatch, bytes: Vec<u8>, player_index: usize)
        requires
            server_wf(*old(self)),
            match_wf(*old(m)),
        ensures
            server_wf(*final(self)),
            match_wf(*final(m)),
    {
        if bytes.len() > 10_000 {
            return ;
        }
        if player_index >= self.players.len() || self.players[player_index].is_none() {
            return ;
        }
        if bytes.len() >= 1 && bytes[0] == 47 {
            let mut rest: Vec<u8> = Vec::new();
            let mut i: usize = 1;
            while i < bytes.len()
                invariant
                    1 <= i <= bytes@.len(),
                    bytes@.len() <= 10_000,
                    rest@.len() == i - 1,
                decreases bytes@.len() - i,
            {
                rest.push(bytes[i]);
                i += 1;
            }
            let parts = split_spaces(&rest);
            self.process_command(m, &parts, player_index);
        } else {
            let muted = match &self.players[player_index] {
                Some(p) => p.is_muted,
                None => true,
            };
            if !muted && !self.is_muted {
                if crate::wire::utf8_check(crate::game::clone_bytes(&bytes)) {
                    self.add_user_chat_message(player_index, bytes);
                }
            }
        }
    }

    /// Whether the session may use admin commands.
    fn is_admin(&self, player_index: usize) -> (r: bool)
        requires
            player_index < self.players@.len(),
    {
        match &self.players[player_index] {
            Some(p) => p.is_admin,
            None => false,
        }
    }

    fn find_player_by_name(&self, name: &Vec<u8>) -> (r: Option<usize>)
        ensures
            r is Some ==> r.unwrap() < self.players@.len(),
    {
        let mut i: usize = 0;
        while i < self.players.len()
            invariant
                i <= self.players@.len(),
            decreases self.players@.len() - i,
        {
            if let Some(p) = &self.players[i] {
                if bytes_eq(p.player_name.as_slice(), name.as_slice()) {
                    return Some(i);
                }
            }
            i += 1;
        }
        None
    }

    /// Dispatch one slash command.
    pub fn process_command(&mut self, m: &mut HQMMatch, parts: &Vec<Vec<u8>>, player_index: usize)
        requires
            server_wf(*old(self)),
            match_wf(*old(m)),
        ensures
            server_wf(*final(self)),
            match_wf(*final(m)),
    {
        if parts.len() == 0 || player_index >= self.players.len() {
            return ;
        }
        let command = &parts[0];
        let admin = self.is_admin(player_index);
        if bytes_eq(command.as_slice(), "enablejoin".as_bytes()) {
            if admin {
                self.allow_join = true;
            }
        } else if bytes_eq(command.as_slice(), "disablejoin".as_bytes()) {
            if admin {
                self.allow_join = false;
            }
        } else if bytes_eq(command.as_slice(), "mutechat".as_bytes()) {
            if admin {
                self.is_muted = true;
            }
        } else if bytes_eq(command.as_slice(), "unmute".as_bytes()) {
            if admin {
                self.is_muted = false;
            }
        } else if bytes_eq(command.as_slice(), "muteplayer".as_bytes()) {
            if admin && parts.len() > 1 {
                self.set_player_muted(&parts[1], true);
            }
        } else if bytes_eq(command.as_slice(), "unmuteplayer".as_bytes()) {
            if admin && parts.len() > 1 {
                self.set_player_muted(&parts[1], false);
            }
        } else if bytes_eq(command.as_slice(), "fs".as_bytes()) {
            if admin && parts.len() > 1 && parts[1].len() <= 64 {
                if let Some(slot) = parse_u32_bytes(parts[1].as_slice()) {
                    if (slot as usize) < self.players.len() {
                        let _ = self.set_team(slot as usize, HQMTeam::Spec);
                    }
                }
            }
        } else if bytes_eq(command.as_slice(), "kick".as_bytes()) {
            if admin && parts.len() > 1 {
                if let Some(i) = self.find_player_by_name(&parts[1]) {
                    self.remove_player(i);
                }
            }
        } else if bytes_eq(command.as_slice(), "ban".as_bytes()) {
            if admin && parts.len() > 1 {
                if let Some(i) = self.find_player_by_name(&parts[1]) {
                    let addr = match &self.players[i] {
                        Some(p) => Some(p.addr),
                        None => None,
                    };
                    if let Some(a) = addr {
                        self.ban_list.push(a);
                    }
                    self.remove_player(i);
                }
            }
        } else if bytes_eq(command.as_slice(), "clearbans".as_bytes()) {
            if admin {
                self.ban_list.clear();
            }
        } else if bytes_eq(command.as_slice(), "set".as_bytes()) {
            if parts.len() > 2 {
                self.apply_set_command(m, parts, player_index, admin);
            }
        } else if bytes_eq(command.as_slice(), "sp".as_bytes()) || bytes_eq(
            command.as_slice(),
            "setposition".as_bytes(),
        ) {
            if parts.len() > 1 && player_index < 64 {
                if let Some(pos) = parse_faceoff_position(parts[1].as_slice()) {
                    m.preferred_positions.set(player_index, Some(pos));
                }
            }
        } else if bytes_eq(command.as_slice(), "admin".as_bytes()) {
            if parts.len() > 1 {
                self.admin_login(player_index, &parts[1]);
            }
        } else if bytes_eq(command.as_slice(), "faceoff".as_bytes()) {
            if admin && self.game.period != 0 && !self.game.game_over {
                m.pause_timer = 100;
                m.is_pause_goal = false;
            }
        } else if bytes_eq(command.as_slice(), "resetgame".as_bytes()) {
            if admin {
                let g = m.create_game();
                self.new_game(g);
            }
        } else if bytes_eq(command.as_slice(), "pause".as_bytes()) {
            if admin {
                m.paused = true;
            }
        } else if bytes_eq(command.as_slice(), "unpause".as_bytes()) {
            if admin {
                m.paused = false;
            }
        } else if bytes_eq(command.as_slice(), "lefty".as_bytes()) {
            if player_index < 64 {
                self.set_hand(HQMSkaterHand::Left, player_index);
            }
        } else if bytes_eq(command.as_slice(), "righty".as_bytes()) {
            if player_index < 64 {
                self.set_hand(HQMSkaterHand::Right, player_index);
            }
        }
    }

    fn set_player_muted(&mut self, name: &Vec<u8>, muted: bool)
        requires
            server_wf(*old(self)),
        ensures
            server_wf(*final(self)),
    {
        if let Some(i) = self.find_player_by_name(name) {
            let taken = self.players[i].take();
            match taken {
                Some(mut p) => {
                    p.is_muted = muted;
                    self.players.set(i, Some(p));
                },
                None => {
                    self.players.set(i, None);
                },
            }
        }
    }

    fn admin_login(&mut self, player_index: usize, password: &Vec<u8>)
        requires
            server_wf(*old(self)),
            player_index < old(self).players@.len(),
        ensures
            server_wf(*final(self)),
    {
        let ok = bytes_eq(self.config.password.as_slice(), password.as_slice());
        if ok {
            let taken = self.players[player_index].take();
            match taken {
                Some(mut p) => {
                    p.is_admin = true;
                    self.players.set(player_index, Some(p));
                },
                None => {
                    self.players.set(player_index, None);
                },
            }
        }
    }

    /// Apply a `/set` command: score, period and clock are admin only;
    /// the stick hand applies to the caller.
    fn apply_set_command(
        &mut self,
        m: &mut HQMMatch,
        parts: &Vec<Vec<u8>>,
        player_index: usize,
        admin: bool,
    )
        requires
            server_wf(*old(self)),
            match_wf(*old(m)),
            parts@.len() > 2,
            player_index < old(self).players@.len(),
        ensures
            server_wf(*final(self)),
            match_wf(*final(m)),
    {
        let what = &parts[1];
        let arg = &parts[2];
        if bytes_eq(what.as_slice(), "hand".as_bytes()) {
            if player_index < 64 {
                if bytes_eq(arg.as_slice(), "left".as_bytes()) {
                    self.set_hand(HQMSkaterHand::Left, player_index);
                } else if bytes_eq(arg.as_slice(), "right".as_bytes()) {
                    self.set_hand(HQMSkaterHand::Right, player_index);
                }
            }
            return ;
        }
        if !admin {
            return ;
        }
        if bytes_eq(what.as_slice(), "redscore".as_bytes()) {
            if arg.len() <= 64 {
                if let Some(v) = parse_u32_bytes(arg.as_slice()) {
                    self.game.red_score = v;
                    m.update_game_over(self);
                }
            }
        } else if bytes_eq(what.as_slice(), "bluescore".as_bytes()) {
            if arg.len() <= 64 {
                if let Some(v) = parse_u32_bytes(arg.as_slice()) {
                    self.game.blue_score = v;
                    m.update_game_over(self);
                }
            }
        } else if bytes_eq(what.as_slice(), "period".as_bytes()) {
            if arg.len() <= 64 {
                if let Some(v) = parse_u32_bytes(arg.as_slice()) {
                    self.game.period = v;
                    m.update_game_over(self);
                }
            }
        } else if bytes_eq(what.as_slice(), "clock".as_bytes()) {
            let mut colon: Option<usize> = None;
            let mut i: usize = 0;
            while i < arg.len()
                invariant
                    i <= arg@.len(),
                    colon is Some ==> colon.unwrap() < arg@.len(),
                decreases arg@.len() - i,
            {
                if arg[i] == 58 && colon.is_none() {
                    colon = Some(i);
                }
                i += 1;
            }
            if let Some(c) = colon {
                let mut mins: Vec<u8> = Vec::new();
                let mut secs: Vec<u8> = Vec::new();
                let mut k: usize = 0;
                while k < arg.len()
                    invariant
                        k <= arg@.len(),
                        c < arg@.len(),
                        mins@.len() <= k,
                        secs@.len() <= k,
                    decreases arg@.len() - k,
                {
                    if k < c {
                        mins.push(arg[k]);
                    } else if k > c {
                        secs.push(arg[k]);
                    }
                    k += 1;
                }
                if mins.len() <= 64 && secs.len() <= 64 {
                    let minutes = parse_u32_bytes(mins.as_slice());
                    let seconds = parse_u32_bytes(secs.as_slice());
                    if let (Some(minutes), Some(seconds)) = (minutes, seconds) {
                        if minutes <= 600_000 && seconds <= 600_000 {
                            self.game.time = minutes * 6000 + seconds * 100;
                        }
                    }
                }
            }
        }
    }

    /// First half of a tick, before the simulation runs: activate the
    /// game when players are seated, time out silent sessions, resolve
    /// team switches and copy inputs onto skaters. Returns whether the
    /// simulation (and then the second half) should run.
    pub fn pre_tick(&mut self, m: &mut HQMMatch) -> (run: bool)
        requires
            server_wf(*old(self)),
            match_wf(*old(m)),
        ensures
            server_wf(*final(self)),
            match_wf(*final(m)),
    {
        let count = self.player_count();
        if count != 0 {
            self.game.active = true;
            self.remove_inactive_players();
            self.move_players_between_teams();
            self.copy_player_input_to_object();
            true
        } else {
            if self.game.active {
                let g = m.create_game();
                self.new_game(g);
                self.allow_join = true;
            }
            false
        }
    }

    /// The rules summary in its wire form: bit 0 offside warning, bit 1
    /// icing warning, 4 offside called, 8 icing called.
    pub fn rules_state_num(&self) -> (r: u32)
        ensures
            r == (match self.game.rules_state {
                crate::types::HQMRulesState::Regular { offside_warning, icing_warning } => ((
                if offside_warning {
                    1u32
                } else {
                    0u32
                }) + (if icing_warning {
                    2u32
                } else {
                    0u32
                })) as u32,
                crate::types::HQMRulesState::Offside => 4u32,
                crate::types::HQMRulesState::Icing => 8u32,
            }),
    {
        match self.game.rules_state {
            crate::types::HQMRulesState::Regular { offside_warning, icing_warning } => {
                let mut res: u32 = 0;
                if offside_warning {
                    res = res + 1;
                }
                if icing_warning {
                    res = res + 2;
                }
                res
            },
            crate::types::HQMRulesState::Offside => 4,
            crate::types::HQMRulesState::Icing => 8,
        }
    }

    /// Second half of a tick, after the simulation ran: feed the events
    /// to the match controller, then build one snapshot datagram per
    /// session (or a game-id mismatch notice) and advance the packet and
    /// step counters. Returns the datagrams to send and the match events.
    pub fn post_tick(
        &mut self,
        m: &mut HQMMatch,
        events: &Vec<HQMSimulationEvent>,
    ) -> (r: (Vec<(u64, Vec<u8>)>, Vec<HQMMatchEvent>))
        requires
            server_wf(*old(self)),
            match_wf(*old(m)),
            crate::spots::rink_wf(old(self).game.world.rink),
            forall|i: int| 0 <= i < events@.len() ==> event_wf(#[trigger] events@[i]),
            game_over_coherent(*old(m), *old(self)),
            old(self).game.game_id == old(self).game_alloc,
        ensures
            server_wf(*final(self)),
            match_wf(*final(m)),
            game_over_coherent(*final(m), *final(self)),
            final(self).game.game_id == final(self).game_alloc,
    {
        let match_events = m.after_tick(self, events);

        let packets = get_packets(&self.game.world.objects);

        let mut out: Vec<(u64, Vec<u8>)> = Vec::new();
        let n = self.players.len();
        let mut i: usize = 0;
        while i < n
            invariant
                i <= n,
                n == self.players@.len(),
                server_wf(*self),
                packets@.len() == 32,
                match_wf(*m),
                game_over_coherent(*m, *self),
                self.game.game_id == self.game_alloc,
            decreases n - i,
        {
            let entry = match &self.players[i] {
                Some(p) => {
                    if p.game_id != self.game.game_id {
                        Some((p.addr, write_game_id_mismatch(self.game.game_id)))
                    } else {
                        let fixed = HQMSnapshotFixed {
                            game_id: self.game.game_id,
                            game_step: self.game.game_step,
                            game_over: self.game.game_over,
                            red_score: self.game.red_score & 0xff,
                            blue_score: self.game.blue_score & 0xff,
                            time: self.game.time & 0xffff,
                            goal_message_timer: self.game.goal_message_timer & 0xffff,
                            period: self.game.period & 0xff,
                            own_slot: (i as u32) & 0xff,
                        };
                        let msgs_len = p.messages.len();
                        if msgs_len <= 100_000 {
                            let data = write_snapshot(
                                &fixed,
                                p.client_version,
                                p.deltatime,
                                self.rules_state_num(),
                                self.game.packet,
                                p.packet,
                                &packets,
                                &p.messages,
                                p.msgpos,
                            );
                            Some((p.addr, data))
                        } else {
                            None
                        }
                    }
                },
                None => None,
            };
            if let Some(e) = entry {
                out.push(e);
            }
            i += 1;
        }
        self.game.packet = self.game.packet.wrapping_add(1);
        self.game.game_step = self.game.game_step.wrapping_add(1);
        (out, match_events)
    }

    /// Dispatch one inbound datagram; an info request yields the reply to
    /// send back.
    pub fn handle_message(&mut self, m: &mut HQMMatch, addr: u64, bytes: &Vec<u8>) -> (reply:
        Option<Vec<u8>>)
        requires
            server_wf(*old(self)),
            match_wf(*old(m)),
            bytes@.len() <= 10_000,
        ensures
            server_wf(*final(self)),
            match_wf(*final(m)),
    {
        match parse_request(bytes) {
            Some(HQMClientToServer::Info { version: _, ping }) => {
                let count = self.player_count();
                Some(
                    write_info_reply(ping, count, self.config.team_max & 0xf, &self.config.server_name),
                )
            },
            Some(HQMClientToServer::Join { version, name }) => {
                self.player_join(addr, version, name);
                None
            },
            Some(
                HQMClientToServer::Update {
                    version,
                    current_game_id,
                    input,
                    deltatime,
                    new_known_packet,
                    known_msgpos,
                    chat,
                },
            ) => {
                self.player_update(
                    m,
                    addr,
                    version,
                    current_game_id,
                    input,
                    deltatime,
                    new_known_packet,
                    known_msgpos,
                    chat,
                );
                None
            },
            Some(HQMClientToServer::Exit) => {
                self.player_exit(addr);
                None
            },
            None => None,
        }
    }
}

} // verus!
