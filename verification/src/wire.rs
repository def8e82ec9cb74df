//! The datagram layouts: the snapshot the server broadcasts every tick,
//! the info reply, the game-id mismatch notice, and the client requests
//! the server parses. The layout spec functions below say, bit for bit,
//! what each frame holds, and the round-trip results show that decoding
//! an encoded frame reproduces its integer fields.

use vstd::prelude::*;
use vstd::arithmetic::power2::pow2;

use crate::bitio::{
    aligned_up, bits_val, bitseq32, byte_bit, lemma_bits_roundtrip, lemma_bits_val_congruent,
    HQMMessageReader, HQMMessageWriter,
};
use crate::game::{HQMMessage, HQMObjectPacket, HQMPlayerInput, HQMPuckPacket, HQMSkaterPacket};
use crate::types::HQMServerPlayerIndex;

verus! {

/// The frame magic: the four bytes of "Hock".
pub open spec fn magic_bits() -> Seq<bool> {
    bitseq32(0x48, 8) + bitseq32(0x6f, 8) + bitseq32(0x63, 8) + bitseq32(0x6b, 8)
}

/// Write the frame magic.
pub fn write_magic(w: &mut HQMMessageWriter)
    requires
        old(w).wf(),
        old(w)@.len() % 8 == 0,
        old(w)@.len() + 64 <= 700_000_000,
    ensures
        final(w).wf(),
        final(w)@ =~= old(w)@ + magic_bits(),
        final(w)@.len() == old(w)@.len() + 32,
{
    w.write_bits(8, 0x48);
    w.write_bits(8, 0x6f);
    w.write_bits(8, 0x63);
    w.write_bits(8, 0x6b);
}

/// The fixed, always-present integer fields of a tick snapshot.
#[derive(Debug, Clone, Copy, PartialEq, Eq, Structural)]
pub struct HQMSnapshotFixed {
    pub game_id: u32,
    pub game_step: u32,
    pub game_over: bool,
    pub red_score: u32,
    pub blue_score: u32,
    pub time: u32,
    pub goal_message_timer: u32,
    pub period: u32,
    pub own_slot: u32,
}

/// Whether the fixed fields fit their wire widths.
pub open spec fn snapshot_fixed_in_range(f: HQMSnapshotFixed) -> bool {
    &&& f.red_score < 256
    &&& f.blue_score < 256
    &&& f.time < 65536
    &&& f.goal_message_timer < 65536
    &&& f.period < 256
    &&& f.own_slot < 256
}

/// The bits of the fixed snapshot part: magic, command byte 5, game id,
/// game step, the game-over bit, both scores, clock, goal timer, period
/// and the receiver's own slot.
pub open spec fn snapshot_fixed_bits(f: HQMSnapshotFixed) -> Seq<bool> {
    magic_bits() + bitseq32(5, 8) + bitseq32(f.game_id, 32) + bitseq32(f.game_step, 32)
        + bitseq32(
        if f.game_over {
            1
        } else {
            0
        },
        1,
    ) + bitseq32(f.red_score, 8) + bitseq32(f.blue_score, 8) + bitseq32(f.time, 16) + bitseq32(
        f.goal_message_timer,
        16,
    ) + bitseq32(f.period, 8) + bitseq32(f.own_slot, 8)
}

/// Write the fixed snapshot part onto a byte-aligned writer.
pub fn write_snapshot_fixed(w: &mut HQMMessageWriter, f: &HQMSnapshotFixed)
    requires
        old(w).wf(),
        old(w)@.len() % 8 == 0,
        old(w)@.len() + 400 <= 700_000_000,
    ensures
        final(w).wf(),
        final(w)@ =~= old(w)@ + snapshot_fixed_bits(*f),
        final(w)@.len() == old(w)@.len() + 169,
{
    write_magic(w);
    w.write_bits(8, 5);
    w.write_bits(32, f.game_id);
    w.write_bits(32, f.game_step);
    w.write_bits(
        1,
        if f.game_over {
            1
        } else {
            0
        },
    );
    w.write_bits(8, f.red_score);
    w.write_bits(8, f.blue_score);
    w.write_bits(16, f.time);
    w.write_bits(16, f.goal_message_timer);
    w.write_bits(8, f.period);
    w.write_bits(8, f.own_slot);
    assert(final(w)@ =~= old(w)@ + snapshot_fixed_bits(*f));
}

/// Parse the fixed snapshot part from the head of a datagram, returning
/// the values carried at each field's position.
pub fn parse_snapshot_fixed(r: &mut HQMMessageReader) -> (f: HQMSnapshotFixed)
    requires
        old(r).wf(),
        old(r).cursor() == 0,
        old(r).stream().len() >= 169,
    ensures
        final(r).wf(),
        final(r).stream() == old(r).stream(),
        final(r).cursor() == 169,
        ({
            let s = old(r).stream();
            &&& f.game_id as int == bits_val(s, 40, 32)
            &&& f.game_step as int == bits_val(s, 72, 32)
            &&& f.game_over == s[104]
            &&& f.red_score as int == bits_val(s, 105, 8)
            &&& f.blue_score as int == bits_val(s, 113, 8)
            &&& f.time as int == bits_val(s, 121, 16)
            &&& f.goal_message_timer as int == bits_val(s, 137, 16)
            &&& f.period as int == bits_val(s, 153, 8)
            &&& f.own_slot as int == bits_val(s, 161, 8)
        }),
{
    let _magic = r.read_bits(32);
    let _cmd = r.read_bits(8);
    let game_id = r.read_bits(32);
    let game_step = r.read_bits(32);
    let game_over = r.read_bits(1) == 1;
    proof {
        assert(bits_val(old(r).stream(), 105, 0) == 0);
        assert(bits_val(old(r).stream(), 104, 1) == (if old(r).stream()[104] {
            1int
        } else {
            0int
        }));
    }
    let red_score = r.read_bits(8);
    let blue_score = r.read_bits(8);
    let time = r.read_bits(16);
    let goal_message_timer = r.read_bits(16);
    let period = r.read_bits(8);
    let own_slot = r.read_bits(8);
    HQMSnapshotFixed {
        game_id,
        game_step,
        game_over,
        red_score,
        blue_score,
        time,
        goal_message_timer,
        period,
        own_slot,
    }
}

/// A value written into a larger stream is read back from its offset.
pub proof fn lemma_field_roundtrip(s: Seq<bool>, off: int, v: u32, n: int)
    requires
        0 <= n <= 32,
        (v as int) < pow2(n as nat),
        0 <= off,
        off + n <= s.len(),
        forall|i: int| 0 <= i < n ==> s[#[trigger] (off + i)] == bitseq32(v, n)[i],
    ensures
        bits_val(s, off, n) == v as int,
{
    lemma_bits_val_congruent(s, bitseq32(v, n), off, 0, n);
    lemma_bits_roundtrip(v, n);
}

/// Decoding an encoded snapshot reproduces every fixed integer field
/// bit-exactly: the parsed values at the wire offsets equal the encoded
/// fields whenever they fit their wire widths.
pub proof fn lemma_snapshot_fixed_roundtrip(f: HQMSnapshotFixed, rest: Seq<bool>)
    requires
        snapshot_fixed_in_range(f),
    ensures
        ({
            let s = snapshot_fixed_bits(f) + rest;
            &&& s.len() >= 169
            &&& bits_val(s, 40, 32) == f.game_id as int
            &&& bits_val(s, 72, 32) == f.game_step as int
            &&& s[104] == f.game_over
            &&& bits_val(s, 105, 8) == f.red_score as int
            &&& bits_val(s, 113, 8) == f.blue_score as int
            &&& bits_val(s, 121, 16) == f.time as int
            &&& bits_val(s, 137, 16) == f.goal_message_timer as int
            &&& bits_val(s, 153, 8) == f.period as int
            &&& bits_val(s, 161, 8) == f.own_slot as int
        }),
{
    let s = snapshot_fixed_bits(f) + rest;
    vstd::arithmetic::power2::lemma2_to64();
    assert forall|i: int| 0 <= i < 32 implies s[#[trigger] (40 + i)] == bitseq32(f.game_id, 32)[i]
        by {}
    lemma_field_roundtrip(s, 40, f.game_id, 32);
    assert forall|i: int| 0 <= i < 32 implies s[#[trigger] (72 + i)] == bitseq32(
        f.game_step,
        32,
    )[i] by {}
    lemma_field_roundtrip(s, 72, f.game_step, 32);
    assert(s[104] == bitseq32(
        if f.game_over {
            1u32
        } else {
            0u32
        },
        1,
    )[0]);
    assert(crate::bitio::u32_bit(1u32, 0)) by (bit_vector);
    assert(!crate::bitio::u32_bit(0u32, 0)) by (bit_vector);
    assert forall|i: int| 0 <= i < 8 implies s[#[trigger] (105 + i)] == bitseq32(
        f.red_score,
        8,
    )[i] by {}
    lemma_field_roundtrip(s, 105, f.red_score, 8);
    assert forall|i: int| 0 <= i < 8 implies s[#[trigger] (113 + i)] == bitseq32(
        f.blue_score,
        8,
    )[i] by {}
    lemma_field_roundtrip(s, 113, f.blue_score, 8);
    assert forall|i: int| 0 <= i < 16 implies s[#[trigger] (121 + i)] == bitseq32(f.time, 16)[i]
        by {}
    lemma_field_roundtrip(s, 121, f.time, 16);
    assert forall|i: int| 0 <= i < 16 implies s[#[trigger] (137 + i)] == bitseq32(
        f.goal_message_timer,
        16,
    )[i] by {}
    lemma_field_roundtrip(s, 137, f.goal_message_timer, 16);
    assert forall|i: int| 0 <= i < 8 implies s[#[trigger] (153 + i)] == bitseq32(f.period, 8)[i]
        by {}
    lemma_field_roundtrip(s, 153, f.period, 8);
    assert forall|i: int| 0 <= i < 8 implies s[#[trigger] (161 + i)] == bitseq32(f.own_slot, 8)[i]
        by {}
    lemma_field_roundtrip(s, 161, f.own_slot, 8);
}

/// The 7-bit-per-byte encoding of a chat payload.
pub open spec fn chat_bits(bytes: Seq<u8>) -> Seq<bool>
    decreases bytes.len(),
{
    if bytes.len() == 0 {
        Seq::empty()
    } else {
        bitseq32(bytes[0] as u32, 7) + chat_bits(bytes.drop_first())
    }
}

/// The payload read back from 7-bit groups.
pub open spec fn chat_vals(s: Seq<bool>, pos: int, count: int) -> Seq<u8>
    decreases count,
{
    if count <= 0 {
        Seq::empty()
    } else {
        seq![bits_val(s, pos, 7) as u8] + chat_vals(s, pos + 7, count - 1)
    }
}

/// The chat encoding is 7 bits per byte.
pub proof fn lemma_chat_bits_len(bytes: Seq<u8>)
    ensures
        chat_bits(bytes).len() == 7 * bytes.len(),
    decreases bytes.len(),
{
    if bytes.len() > 0 {
        lemma_chat_bits_len(bytes.drop_first());
    }
}

/// Chat bytes below 128 survive the 7-bit-per-byte encoding unchanged:
/// decoding the groups of an encoded payload reproduces the payload, for
/// any stream that carries the encoding at `pos`.
pub proof fn lemma_chat_roundtrip(bytes: Seq<u8>, s: Seq<bool>, pos: int)
    requires
        forall|k: int| 0 <= k < bytes.len() ==> bytes[k] < 128,
        0 <= pos,
        pos + 7 * bytes.len() <= s.len(),
        forall|i: int| 0 <= i < 7 * bytes.len() ==> s[#[trigger] (pos + i)] == chat_bits(bytes)[i],
    ensures
        chat_vals(s, pos, bytes.len() as int) == bytes,
    decreases bytes.len(),
{
    if bytes.len() > 0 {
        let b0 = bytes[0];
        lemma_chat_bits_len(bytes.drop_first());
        assert forall|i: int| 0 <= i < 7 implies s[#[trigger] (pos + i)] == bitseq32(
            b0 as u32,
            7,
        )[i] by {
            assert(chat_bits(bytes)[i] == bitseq32(b0 as u32, 7)[i]);
        }
        vstd::arithmetic::power2::lemma2_to64();
        lemma_field_roundtrip(s, pos, b0 as u32, 7);
        assert forall|i: int|
            0 <= i < 7 * bytes.drop_first().len() implies s[#[trigger] (pos + 7 + i)] == chat_bits(
            bytes.drop_first(),
        )[i] by {
            assert(s[pos + (7 + i)] == chat_bits(bytes)[7 + i]);
            assert(chat_bits(bytes)[7 + i] == chat_bits(bytes.drop_first())[i]);
        }
        lemma_chat_roundtrip(bytes.drop_first(), s, pos + 7);
        assert(chat_vals(s, pos, bytes.len() as int) =~= bytes) by {
            assert(chat_vals(s, pos + 7, bytes.len() - 1) == bytes.drop_first());
            assert(bits_val(s, pos, 7) == b0 as int);
        }
    } else {
        assert(chat_vals(s, pos, 0) =~= bytes);
    }
}

/// Write a chat payload, 7 bits per byte.
pub fn write_chat_payload(w: &mut HQMMessageWriter, bytes: &[u8], size: usize)
    requires
        old(w).wf(),
        size <= bytes@.len(),
        size <= 64,
        old(w)@.len() + 7 * size <= 700_000_000,
    ensures
        final(w).wf(),
        final(w)@ =~= old(w)@ + chat_bits(bytes@.take(size as int)),
        final(w)@.len() == old(w)@.len() + 7 * size,
{
    proof {
        lemma_chat_bits_len(bytes@.take(size as int));
    }
    let mut i: usize = 0;
    while i < size
        invariant
            i <= size,
            size <= bytes@.len(),
            size <= 64,
            w.wf(),
            w@.len() == old(w)@.len() + 7 * i,
            old(w)@.len() + 7 * size <= 700_000_000,
            w@ =~= old(w)@ + chat_bits(bytes@.take(i as int)),
        decreases size - i,
    {
        w.write_bits(7, bytes[i] as u32);
        proof {
            lemma_chat_bits_append(bytes@, i as int);
            lemma_chat_bits_len(bytes@.take(i as int));
            lemma_chat_bits_len(bytes@.take(i as int + 1));
        }
        i += 1;
    }
}

/// Appending one byte to a payload appends its 7 bits to the encoding.
pub proof fn lemma_chat_bits_append(bytes: Seq<u8>, i: int)
    requires
        0 <= i < bytes.len(),
    ensures
        chat_bits(bytes.take(i + 1)) =~= chat_bits(bytes.take(i)) + bitseq32(bytes[i] as u32, 7),
    decreases i,
{
    if i == 0 {
        assert(bytes.take(1) =~= seq![bytes[0]]);
        assert(chat_bits(seq![bytes[0]]).len() == 7) by {
            lemma_chat_bits_len(seq![bytes[0]]);
        }
        assert(seq![bytes[0]].drop_first() =~= Seq::<u8>::empty());
    } else {
        assert(bytes.take(i + 1).drop_first() =~= bytes.drop_first().take(i));
        assert(bytes.take(i).drop_first() =~= bytes.drop_first().take(i - 1));
        assert(bytes.take(i + 1)[0] == bytes[0]);
        assert(bytes.take(i)[0] == bytes[0]);
        lemma_chat_bits_append(bytes.drop_first(), i - 1);
        assert(bytes.drop_first()[i - 1] == bytes[i]);
    }
}

/// Read `count` 7-bit groups of a chat payload.
pub fn read_chat_payload(r: &mut HQMMessageReader, count: usize) -> (bytes: Vec<u8>)
    requires
        old(r).wf(),
        count <= 64,
        old(r).cursor() + 7 * count <= old(r).stream().len(),
    ensures
        final(r).wf(),
        final(r).stream() == old(r).stream(),
        final(r).cursor() == old(r).cursor() + 7 * count,
        bytes@ == chat_vals(old(r).stream(), old(r).cursor(), count as int),
        bytes@.len() == count,
{
    let mut bytes: Vec<u8> = Vec::new();
    let mut i: usize = 0;
    while i < count
        invariant
            i <= count,
            count <= 64,
            r.wf(),
            r.stream() == old(r).stream(),
            r.cursor() == old(r).cursor() + 7 * i,
            old(r).cursor() + 7 * count <= old(r).stream().len(),
            bytes@.len() == i,
            bytes@ =~= chat_vals(old(r).stream(), old(r).cursor(), i as int),
        decreases count - i,
    {
        let v = r.read_bits(7);
        proof {
            vstd::arithmetic::power2::lemma2_to64();
        }
        bytes.push(v as u8);
        proof {
            lemma_chat_vals_snoc(old(r).stream(), old(r).cursor(), i as int);
        }
        i += 1;
    }
    bytes
}

/// Reading one more 7-bit group extends the decoded payload by one byte.
pub proof fn lemma_chat_vals_snoc(s: Seq<bool>, pos: int, i: int)
    requires
        i >= 0,
    ensures
        chat_vals(s, pos, i + 1) =~= chat_vals(s, pos, i).push(
            bits_val(s, pos + 7 * i, 7) as u8,
        ),
    decreases i,
{
    if i == 0 {
        assert(chat_vals(s, pos, 0) =~= Seq::<u8>::empty());
        assert(chat_vals(s, pos + 7, 0) =~= Seq::<u8>::empty());
        assert(chat_vals(s, pos, 1) =~= seq![bits_val(s, pos, 7) as u8]);
    } else {
        lemma_chat_vals_snoc(s, pos + 7, i - 1);
        assert(pos + 7 + 7 * (i - 1) == pos + 7 * i) by {
            assert(7 * i == 7 + 7 * (i - 1)) by (nonlinear_arith);
        }
        assert(chat_vals(s, pos, i + 1) =~= seq![bits_val(s, pos, 7) as u8] + chat_vals(
            s,
            pos + 7,
            i,
        ));
        assert(chat_vals(s, pos, i) =~= seq![bits_val(s, pos, 7) as u8] + chat_vals(
            s,
            pos + 7,
            i - 1,
        ));
    }
}


/// `p` is a bit-level prefix of the byte buffer `bytes`.
pub open spec fn stream_prefix_is(bytes: Seq<u8>, p: Seq<bool>) -> bool {
    &&& p.len() <= bytes.len() * 8
    &&& forall|i: int| 0 <= i < p.len() ==> byte_bit(bytes[i / 8], i % 8) == p[i]
}

/// `p` is a prefix of `s`.
pub open spec fn seq_is_prefix(p: Seq<bool>, s: Seq<bool>) -> bool {
    &&& p.len() <= s.len()
    &&& forall|i: int| 0 <= i < p.len() ==> s[i] == p[i]
}

/// The byte buffer carries the bit pattern `p` starting at bit `off`.
pub open spec fn stream_has_at(bytes: Seq<u8>, p: Seq<bool>, off: int) -> bool {
    &&& 0 <= off
    &&& off + p.len() <= bytes.len() * 8
    &&& forall|i: int| 0 <= i < p.len() ==> byte_bit(bytes[(off + i) / 8], (off + i) % 8) == p[i]
}

/// Where the object section starts in a snapshot, per client version.
pub open spec fn snapshot_objects_offset(client_version: u8) -> int {
    if client_version >= 2 {
        304
    } else if client_version == 1 {
        272
    } else {
        240
    }
}

/// Appending one slot to an object list appends its bits.
pub proof fn lemma_objects_bits_snoc(ps: Seq<HQMObjectPacket>, i: int)
    requires
        0 <= i < ps.len(),
    ensures
        objects_bits(ps.take(i + 1)) =~= objects_bits(ps.take(i)) + object_bits(ps[i]),
    decreases i,
{
    if i == 0 {
        assert(ps.take(1) =~= seq![ps[0]]);
        assert(seq![ps[0]].drop_first() =~= Seq::<HQMObjectPacket>::empty());
        assert(ps.take(0) =~= Seq::<HQMObjectPacket>::empty());
    } else {
        assert(ps.take(i + 1).drop_first() =~= ps.drop_first().take(i));
        assert(ps.take(i).drop_first() =~= ps.drop_first().take(i - 1));
        assert(ps.take(i + 1)[0] == ps[0]);
        assert(ps.take(i)[0] == ps[0]);
        lemma_objects_bits_snoc(ps.drop_first(), i - 1);
        assert(ps.drop_first()[i - 1] == ps[i]);
    }
}

/// Write `n` bytes: the buffer's bytes first, zero-padded to length `n`.
pub fn write_bytes_aligned_padded(w: &mut HQMMessageWriter, n: usize, bytes: &Vec<u8>)
    requires
        old(w).wf(),
        n <= 1000,
        old(w)@.len() + 16 * n + 16 <= 700_000_000,
    ensures
        final(w).wf(),
        final(w)@.len() <= old(w)@.len() + 8 + 8 * n,
        final(w)@.len() >= old(w)@.len(),
        seq_is_prefix(old(w)@, final(w)@),
{
    w.align();
    let mut i: usize = 0;
    while i < n
        invariant
            i <= n,
            n <= 1000,
            w.wf(),
            w@.len() <= old(w)@.len() + 8 + 8 * i,
            w@.len() >= old(w)@.len(),
            old(w)@.len() + 16 * n + 16 <= 700_000_000,
            seq_is_prefix(old(w)@, w@),
        decreases n - i,
    {
        let b: u8 = if i < bytes.len() {
            bytes[i]
        } else {
            0
        };
        let ghost prev = w@;
        w.write_bits(8, b as u32);
        proof {
            assert(seq_is_prefix(old(w)@, w@));
        }
        i += 1;
    }
}

/// The game-id mismatch notice (command 6).
pub open spec fn mismatch_bits(game_id: u32) -> Seq<bool> {
    magic_bits() + bitseq32(6, 8) + bitseq32(game_id, 32)
}

/// Build the game-id mismatch notice a client gets when its update names
/// another game.
pub fn write_game_id_mismatch(game_id: u32) -> (r: Vec<u8>)
    ensures
        stream_prefix_is(r@, mismatch_bits(game_id)),
        r@.len() == 9,
{
    let mut w = HQMMessageWriter::new();
    write_magic(&mut w);
    w.write_bits(8, 6);
    w.write_bits(32, game_id);
    assert(w@ =~= mismatch_bits(game_id));
    let r = w.get_bytes();
    r
}

/// The head of the info reply (command 1): version 55 and the echoed
/// ping token.
pub open spec fn info_reply_head_bits(ping: u32) -> Seq<bool> {
    magic_bits() + bitseq32(1, 8) + bitseq32(55, 8) + bitseq32(ping, 32)
}

/// Build the info reply: protocol version, the echoed ping token, the
/// player count, the team size limit and the padded server name.
pub fn write_info_reply(
    ping: u32,
    player_count: u32,
    team_max: u32,
    server_name: &Vec<u8>,
) -> (r: Vec<u8>)
    ensures
        stream_prefix_is(r@, info_reply_head_bits(ping)),
        r@.len() <= 100,
{
    let mut w = HQMMessageWriter::new();
    write_magic(&mut w);
    w.write_bits(8, 1);
    w.write_bits(8, 55);
    w.write_bits(32, ping);
    assert(w@ =~= info_reply_head_bits(ping));
    w.write_bits(8, player_count);
    assert(seq_is_prefix(info_reply_head_bits(ping), w@));
    w.write_bits(4, 4);
    assert(seq_is_prefix(info_reply_head_bits(ping), w@));
    w.write_bits(4, team_max);
    assert(seq_is_prefix(info_reply_head_bits(ping), w@));
    write_bytes_aligned_padded(&mut w, 32, server_name);
    assert(seq_is_prefix(info_reply_head_bits(ping), w@));
    let r = w.get_bytes();
    r
}

/// Write one object slot of the snapshot.
pub fn write_object_packet(w: &mut HQMMessageWriter, packet: &HQMObjectPacket)
    requires
        old(w).wf(),
        old(w)@.len() + 400 <= 700_000_000,
    ensures
        final(w).wf(),
        final(w)@ =~= old(w)@ + object_bits(*packet),
        final(w)@.len() <= old(w)@.len() + 250,
        final(w)@.len() >= old(w)@.len() + 1,
        seq_is_prefix(old(w)@, final(w)@),
{
    match packet {
        HQMObjectPacket::Puck(puck) => {
            w.write_bits(1, 1);
            w.write_bits(2, 1);
            w.write_bits(17, puck.pos_x);
            w.write_bits(17, puck.pos_y);
            w.write_bits(17, puck.pos_z);
            w.write_bits(31, puck.rot_a);
            w.write_bits(31, puck.rot_b);
        },
        HQMObjectPacket::Skater(skater) => {
            w.write_bits(1, 1);
            w.write_bits(2, 0);
            w.write_bits(17, skater.pos_x);
            w.write_bits(17, skater.pos_y);
            w.write_bits(17, skater.pos_z);
            w.write_bits(31, skater.rot_a);
            w.write_bits(31, skater.rot_b);
            w.write_bits(13, skater.stick_pos_x);
            w.write_bits(13, skater.stick_pos_y);
            w.write_bits(13, skater.stick_pos_z);
            w.write_bits(25, skater.stick_rot_a);
            w.write_bits(25, skater.stick_rot_b);
            w.write_bits(16, skater.head_rot);
            w.write_bits(16, skater.body_rot);
        },
        HQMObjectPacket::Empty => {
            w.write_bits(1, 0);
        },
    }
}

/// Write one queued message of the snapshot tail.
fn write_message(w: &mut HQMMessageWriter, message: &HQMMessage)
    requires
        old(w).wf(),
        old(w)@.len() + 1000 <= 700_000_000,
    ensures
        final(w).wf(),
        final(w)@.len() <= old(w)@.len() + 600,
        final(w)@.len() >= old(w)@.len(),
        seq_is_prefix(old(w)@, final(w)@),
{
    match message {
        HQMMessage::Chat { player_index, message } => {
            w.write_bits(6, 2);
            let idx: u32 = match player_index {
                Some(x) => x.0 as u32,
                None => u32::MAX,
            };
            w.write_bits(6, idx);
            let size = if message.len() < 63 {
                message.len()
            } else {
                63
            };
            w.write_bits(6, size as u32);
            write_chat_payload(w, message.as_slice(), size);
            proof {
                lemma_chat_bits_len(message@.take(size as int));
            }
        },
        HQMMessage::Goal { team, goal_player_index, assist_player_index } => {
            w.write_bits(6, 1);
            w.write_bits(2, team.get_num());
            let g: u32 = match goal_player_index {
                Some(x) => x.0 as u32,
                None => u32::MAX,
            };
            w.write_bits(6, g);
            let a: u32 = match assist_player_index {
                Some(x) => x.0 as u32,
                None => u32::MAX,
            };
            w.write_bits(6, a);
        },
        HQMMessage::PlayerUpdate { player_name, team, player_index, object_index, in_server } => {
            w.write_bits(6, 0);
            w.write_bits(6, player_index.0 as u32);
            w.write_bits(
                1,
                if *in_server {
                    1
                } else {
                    0
                },
            );
            w.write_bits(2, team.get_num());
            let oi: u32 = match object_index {
                Some(x) => x.0 as u32,
                None => u32::MAX,
            };
            w.write_bits(6, oi);
            let mut i: usize = 0;
            while i < 31
                invariant
                    i <= 31,
                    w.wf(),
                    w@.len() <= old(w)@.len() + 27 + 7 * i,
                    w@.len() >= old(w)@.len(),
                    old(w)@.len() + 1000 <= 700_000_000,
                    seq_is_prefix(old(w)@, w@),
                decreases 31 - i,
            {
                let v: u32 = if i < player_name.len() {
                    player_name[i] as u32
                } else {
                    0
                };
                w.write_bits(7, v);
                i += 1;
            }
        },
    }
}

/// Build the per-client tick snapshot (command 5): the fixed fields, then
/// the client-version extras, the packet acknowledgements, the 32 object
/// slots, and up to 15 messages starting at the client's cursor.
pub fn write_snapshot(
    fixed: &HQMSnapshotFixed,
    client_version: u8,
    deltatime: u32,
    rules_num: u32,
    world_packet: u32,
    client_packet: u32,
    packets: &Vec<HQMObjectPacket>,
    messages: &Vec<HQMMessage>,
    msgpos: u32,
) -> (r: Vec<u8>)
    requires
        packets@.len() == 32,
        messages@.len() <= 100_000,
    ensures
        stream_prefix_is(r@, snapshot_fixed_bits(*fixed)),
        stream_has_at(r@, objects_bits(packets@), snapshot_objects_offset(client_version)),
        r@.len() <= 4096 + 100,
{
    let mut w = HQMMessageWriter::new();
    write_snapshot_fixed(&mut w, fixed);
    assert(seq_is_prefix(snapshot_fixed_bits(*fixed), w@));

    if client_version > 0 {
        w.write_u32_aligned(deltatime);
    }
    if client_version > 1 {
        w.write_u32_aligned(rules_num);
    }
    w.write_u32_aligned(world_packet);
    w.write_u32_aligned(client_packet);
    assert(w@.len() == snapshot_objects_offset(client_version));
    let ghost base = w@;

    let mut i: usize = 0;
    while i < 32
        invariant
            i <= 32,
            w.wf(),
            packets@.len() == 32,
            w@.len() <= 600 + 250 * i,
            seq_is_prefix(snapshot_fixed_bits(*fixed), w@),
            base.len() == snapshot_objects_offset(client_version),
            w@ =~= base + objects_bits(packets@.take(i as int)),
        decreases 32 - i,
    {
        write_object_packet(&mut w, &packets[i]);
        proof {
            lemma_objects_bits_snoc(packets@, i as int);
        }
        i += 1;
    }
    assert(packets@.take(32) =~= packets@);
    assert(w@ =~= base + objects_bits(packets@));

    let pos2 = if (msgpos as usize) <= messages.len() {
        msgpos as usize
    } else {
        messages.len()
    };
    let remaining = if messages.len() - pos2 < 15 {
        messages.len() - pos2
    } else {
        15
    };
    w.write_bits(4, remaining as u32);
    assert(seq_is_prefix(base + objects_bits(packets@), w@));
    w.write_bits(16, msgpos);
    assert(seq_is_prefix(base + objects_bits(packets@), w@));

    let mut k: usize = 0;
    while k < remaining
        invariant
            k <= remaining,
            remaining <= 15,
            pos2 + remaining <= messages@.len(),
            w.wf(),
            pos2 <= 100_000,
            w@.len() <= 8640 + 600 * k,
            seq_is_prefix(snapshot_fixed_bits(*fixed), w@),
            base.len() == snapshot_objects_offset(client_version),
            seq_is_prefix(base + objects_bits(packets@), w@),
        decreases remaining - k,
    {
        write_message(&mut w, &messages[pos2 + k]);
        k += 1;
    }
    let ghost bits = w@;
    let r = w.get_bytes();
    proof {
        assert(stream_prefix_is(r@, snapshot_fixed_bits(*fixed)));
        let off = snapshot_objects_offset(client_version);
        let ob = objects_bits(packets@);
        assert(off + ob.len() <= bits.len());
        assert(bits.len() <= r@.len() * 8);
        assert forall|i: int|
            0 <= i < ob.len() implies byte_bit(r@[(off + i) / 8], (off + i) % 8) == ob[i] by {
            assert(bits[off + i] == (base + ob)[off + i]);
            assert((base + ob)[off + i] == ob[i]);
            assert(bits[off + i] == byte_bit(r@[(off + i) / 8], (off + i) % 8));
        }
        assert(stream_has_at(r@, ob, off));
    }
    r
}

/// A parsed client request.
pub enum HQMClientToServer {
    Info { version: u32, ping: u32 },
    Join { version: u32, name: Vec<u8> },
    Update {
        version: u8,
        current_game_id: u32,
        input: HQMPlayerInput,
        deltatime: Option<u32>,
        new_known_packet: u32,
        known_msgpos: u32,
        chat: Option<(u32, Vec<u8>)>,
    },
    Exit,
}

/// Parse a datagram from a client. Malformed datagrams (bad magic, bad
/// command, or truncated) yield nothing and must be discarded silently.
#[verifier::rlimit(100)]
pub fn parse_request(bytes: &Vec<u8>) -> (r: Option<HQMClientToServer>)
    requires
        bytes@.len() <= 10_000,
{
    if bytes.len() < 5 {
        return None;
    }
    let mut reader = HQMMessageReader::new(bytes.as_slice());
    let magic = reader.read_bits(32);
    if magic != 0x6b636f48 {
        return None;
    }
    let command = reader.read_bits(8);
    match command {
        0 => {
            if reader.bits_left() < 8 {
                return None;
            }
            let version = reader.read_bits(8);
            if !reader.can_read_aligned(32) {
                return None;
            }
            let ping = reader.read_u32_aligned();
            Some(HQMClientToServer::Info { version, ping })
        },
        2 => {
            if reader.bits_left() < 8 {
                return None;
            }
            let version = reader.read_bits(8);
            if !reader.can_read_aligned(8 * 32) {
                return None;
            }
            let name = reader.read_bytes_aligned(32);
            Some(HQMClientToServer::Join { version, name })
        },
        4 | 8 | 16 => {
            let version: u8 = if command == 4 {
                0
            } else if command == 8 {
                1
            } else {
                2
            };
            let fixed_words: usize = 10 + (if version > 0 {
                1
            } else {
                0
            }) + 1;
            if !reader.can_read_aligned(32 * fixed_words + 16 + 8) {
                return None;
            }
            let current_game_id = reader.read_u32_aligned();
            let stick_angle_bits = reader.read_u32_aligned();
            let turn_bits = reader.read_u32_aligned();
            let unknown_bits = reader.read_u32_aligned();
            let fwbw_bits = reader.read_u32_aligned();
            let stick_bits_0 = reader.read_u32_aligned();
            let stick_bits_1 = reader.read_u32_aligned();
            let head_rot_bits = reader.read_u32_aligned();
            let body_rot_bits = reader.read_u32_aligned();
            let keys = reader.read_u32_aligned();
            let input = HQMPlayerInput {
                stick_angle_bits,
                turn_bits,
                unknown_bits,
                fwbw_bits,
                stick_bits_0,
                stick_bits_1,
                head_rot_bits,
                body_rot_bits,
                keys,
            };
            let deltatime = if version > 0 {
                Some(reader.read_u32_aligned())
            } else {
                None
            };
            let new_known_packet = reader.read_u32_aligned();
            let known_msgpos = reader.read_u16_aligned();
            if reader.bits_left() < 1 {
                return None;
            }
            let has_chat_msg = reader.read_bits(1) == 1;
            let chat = if has_chat_msg {
                if reader.bits_left() < 11 {
                    return None;
                }
                let chat_rep = reader.read_bits(3);
                let byte_num = reader.read_bits(8) as usize;
                proof {
                    vstd::arithmetic::power2::lemma2_to64();
                }
                if !reader.can_read_aligned(8 * byte_num) {
                    return None;
                }
                let message = reader.read_bytes_aligned(byte_num);
                Some((chat_rep, message))
            } else {
                None
            };
            Some(
                HQMClientToServer::Update {
                    version,
                    current_game_id,
                    input,
                    deltatime,
                    new_known_packet,
                    known_msgpos,
                    chat,
                },
            )
        },
        7 => Some(HQMClientToServer::Exit),
        _ => None,
    }
}

/// Relies on `String::from_utf8`: succeeds exactly on valid UTF-8 and
/// decodes the bytes to their character sequence.
#[verifier::external_body]
fn string_from_utf8(v: Vec<u8>) -> (r: Option<String>)
    ensures
        r is Some <==> vstd::utf8::valid_utf8(v@),
        r is Some ==> r.unwrap()@ == vstd::utf8::decode_utf8(v@),
{
    match String::from_utf8(v) {
        Ok(s) => Some(s),
        Err(_) => None,
    }
}

/// Whether a byte payload is valid UTF-8 in its entirety.
pub fn utf8_check(v: Vec<u8>) -> (r: bool)
    ensures
        r == vstd::utf8::valid_utf8(v@),
{
    string_from_utf8(v).is_some()
}

/// The name bytes up to the first NUL terminator.
pub open spec fn name_prefix(bytes: Seq<u8>) -> Seq<u8> {
    bytes.take(first_nul(bytes, 0))
}

/// Index of the first NUL at or after `i`, or the length.
pub open spec fn first_nul(s: Seq<u8>, i: int) -> int
    decreases s.len() - i,
{
    if i < 0 || i >= s.len() {
        s.len() as int
    } else if s[i] == 0 {
        i
    } else {
        first_nul(s, i + 1)
    }
}

fn find_first_nul(bytes: &Vec<u8>, i: usize) -> (r: usize)
    requires
        i <= bytes@.len(),
    ensures
        r as int == first_nul(bytes@, i as int),
        r <= bytes@.len(),
    decreases bytes@.len() - i,
{
    if i >= bytes.len() {
        bytes.len()
    } else if bytes[i] == 0 {
        i
    } else {
        find_first_nul(bytes, i + 1)
    }
}

/// Decode a player name: the bytes up to the first NUL must be valid
/// UTF-8, else the join request is rejected.
pub fn get_player_name(bytes: Vec<u8>) -> (r: Option<String>)
    ensures
        r is Some <==> vstd::utf8::valid_utf8(name_prefix(bytes@)),
        r is Some ==> r.unwrap()@ == vstd::utf8::decode_utf8(name_prefix(bytes@)),
{
    let cut = find_first_nul(&bytes, 0);
    let mut prefix: Vec<u8> = Vec::new();
    let mut i: usize = 0;
    while i < cut
        invariant
            i <= cut,
            cut <= bytes@.len(),
            prefix@ =~= bytes@.take(i as int),
        decreases cut - i,
    {
        prefix.push(bytes[i]);
        i += 1;
    }
    assert(prefix@ =~= name_prefix(bytes@));
    string_from_utf8(prefix)
}


/// The bits of one object slot: absent, a puck, or a skater.
pub open spec fn object_bits(p: HQMObjectPacket) -> Seq<bool> {
    match p {
        HQMObjectPacket::Empty => bitseq32(0, 1),
        HQMObjectPacket::Puck(k) => bitseq32(1, 1) + bitseq32(1, 2) + bitseq32(k.pos_x, 17)
            + bitseq32(k.pos_y, 17) + bitseq32(k.pos_z, 17) + bitseq32(k.rot_a, 31) + bitseq32(
            k.rot_b,
            31,
        ),
        HQMObjectPacket::Skater(k) => bitseq32(1, 1) + bitseq32(0, 2) + bitseq32(k.pos_x, 17)
            + bitseq32(k.pos_y, 17) + bitseq32(k.pos_z, 17) + bitseq32(k.rot_a, 31) + bitseq32(
            k.rot_b,
            31,
        ) + bitseq32(k.stick_pos_x, 13) + bitseq32(k.stick_pos_y, 13) + bitseq32(
            k.stick_pos_z,
            13,
        ) + bitseq32(k.stick_rot_a, 25) + bitseq32(k.stick_rot_b, 25) + bitseq32(k.head_rot, 16)
            + bitseq32(k.body_rot, 16),
    }
}

/// Width in bits of one object slot.
pub open spec fn object_bits_len(p: HQMObjectPacket) -> int {
    match p {
        HQMObjectPacket::Empty => 1,
        HQMObjectPacket::Puck(_) => 116,
        HQMObjectPacket::Skater(_) => 237,
    }
}

/// The bits of a whole object list.
pub open spec fn objects_bits(ps: Seq<HQMObjectPacket>) -> Seq<bool>
    decreases ps.len(),
{
    if ps.len() == 0 {
        Seq::empty()
    } else {
        object_bits(ps[0]) + objects_bits(ps.drop_first())
    }
}

/// Whether an object's fields fit their wire widths.
pub open spec fn object_in_range(p: HQMObjectPacket) -> bool {
    match p {
        HQMObjectPacket::Empty => true,
        HQMObjectPacket::Puck(k) => k.pos_x < 0x20000 && k.pos_y < 0x20000 && k.pos_z < 0x20000
            && k.rot_a < 0x80000000 && k.rot_b < 0x80000000,
        HQMObjectPacket::Skater(k) => k.pos_x < 0x20000 && k.pos_y < 0x20000 && k.pos_z < 0x20000
            && k.rot_a < 0x80000000 && k.rot_b < 0x80000000 && k.stick_pos_x < 0x2000
            && k.stick_pos_y < 0x2000 && k.stick_pos_z < 0x2000 && k.stick_rot_a < 0x2000000
            && k.stick_rot_b < 0x2000000 && k.head_rot < 0x10000 && k.body_rot < 0x10000,
    }
}

/// What decoding one object slot at `pos` yields, and where the next slot
/// starts.
pub open spec fn spec_parse_object(s: Seq<bool>, pos: int) -> (HQMObjectPacket, int) {
    if bits_val(s, pos, 1) == 0 {
        (HQMObjectPacket::Empty, pos + 1)
    } else if bits_val(s, pos + 1, 2) == 1 {
        (
            HQMObjectPacket::Puck(
                HQMPuckPacket {
                    pos_x: bits_val(s, pos + 3, 17) as u32,
                    pos_y: bits_val(s, pos + 20, 17) as u32,
                    pos_z: bits_val(s, pos + 37, 17) as u32,
                    rot_a: bits_val(s, pos + 54, 31) as u32,
                    rot_b: bits_val(s, pos + 85, 31) as u32,
                },
            ),
            pos + 116,
        )
    } else {
        (
            HQMObjectPacket::Skater(
                HQMSkaterPacket {
                    pos_x: bits_val(s, pos + 3, 17) as u32,
                    pos_y: bits_val(s, pos + 20, 17) as u32,
                    pos_z: bits_val(s, pos + 37, 17) as u32,
                    rot_a: bits_val(s, pos + 54, 31) as u32,
                    rot_b: bits_val(s, pos + 85, 31) as u32,
                    stick_pos_x: bits_val(s, pos + 116, 13) as u32,
                    stick_pos_y: bits_val(s, pos + 129, 13) as u32,
                    stick_pos_z: bits_val(s, pos + 142, 13) as u32,
                    stick_rot_a: bits_val(s, pos + 155, 25) as u32,
                    stick_rot_b: bits_val(s, pos + 180, 25) as u32,
                    head_rot: bits_val(s, pos + 205, 16) as u32,
                    body_rot: bits_val(s, pos + 221, 16) as u32,
                },
            ),
            pos + 237,
        )
    }
}

/// What decoding `n` object slots at `pos` yields.
pub open spec fn spec_parse_objects(s: Seq<bool>, pos: int, n: int) -> Seq<HQMObjectPacket>
    decreases n,
{
    if n <= 0 {
        Seq::empty()
    } else {
        let (p, next) = spec_parse_object(s, pos);
        seq![p] + spec_parse_objects(s, next, n - 1)
    }
}

/// Decode one object slot.
pub fn read_object_packet(r: &mut HQMMessageReader) -> (p: HQMObjectPacket)
    requires
        old(r).wf(),
        old(r).cursor() + 237 <= old(r).stream().len(),
    ensures
        final(r).wf(),
        final(r).stream() == old(r).stream(),
        (p, final(r).cursor()) == spec_parse_object(old(r).stream(), old(r).cursor()),
{
    let present = r.read_bits(1);
    if present == 0 {
        return HQMObjectPacket::Empty;
    }
    let kind = r.read_bits(2);
    let pos_x = r.read_bits(17);
    let pos_y = r.read_bits(17);
    let pos_z = r.read_bits(17);
    let rot_a = r.read_bits(31);
    let rot_b = r.read_bits(31);
    if kind == 1 {
        HQMObjectPacket::Puck(HQMPuckPacket { pos_x, pos_y, pos_z, rot_a, rot_b })
    } else {
        let stick_pos_x = r.read_bits(13);
        let stick_pos_y = r.read_bits(13);
        let stick_pos_z = r.read_bits(13);
        let stick_rot_a = r.read_bits(25);
        let stick_rot_b = r.read_bits(25);
        let head_rot = r.read_bits(16);
        let body_rot = r.read_bits(16);
        HQMObjectPacket::Skater(
            HQMSkaterPacket {
                pos_x,
                pos_y,
                pos_z,
                rot_a,
                rot_b,
                stick_pos_x,
                stick_pos_y,
                stick_pos_z,
                stick_rot_a,
                stick_rot_b,
                head_rot,
                body_rot,
            },
        )
    }
}

/// Decoding one encoded object slot reproduces it.
pub proof fn lemma_object_roundtrip(p: HQMObjectPacket, s: Seq<bool>, pos: int)
    requires
        object_in_range(p),
        0 <= pos,
        pos + object_bits_len(p) <= s.len(),
        forall|i: int|
            0 <= i < object_bits_len(p) ==> s[#[trigger] (pos + i)] == object_bits(p)[i],
    ensures
        spec_parse_object(s, pos) == (p, pos + object_bits_len(p)),
{
    vstd::arithmetic::power2::lemma2_to64();
    let b = object_bits(p);
    match p {
        HQMObjectPacket::Empty => {
            assert(s[pos + 0] == object_bits(p)[0]);
            assert(s[pos] == bitseq32(0, 1)[0]);
            assert(!crate::bitio::u32_bit(0u32, 0)) by (bit_vector);
            assert(bits_val(s, pos + 1, 0) == 0);
            assert(bits_val(s, pos, 1) == 0);
        },
        HQMObjectPacket::Puck(k) => {
            assert(s[pos + 0] == object_bits(p)[0]);
            assert(s[pos] == bitseq32(1, 1)[0]);
            assert(crate::bitio::u32_bit(1u32, 0)) by (bit_vector);
            assert(bits_val(s, pos + 1, 0) == 0);
            assert(bits_val(s, pos, 1) == 1);
            assert forall|i: int| 0 <= i < 2 implies s[#[trigger] (pos + 1 + i)] == bitseq32(
                1,
                2,
            )[i] by {
                assert(s[pos + (1 + i)] == b[1 + i]);
            }
            lemma_field_roundtrip(s, pos + 1, 1, 2);
            assert forall|i: int| 0 <= i < 17 implies s[#[trigger] (pos + 3 + i)] == bitseq32(
                k.pos_x,
                17,
            )[i] by {
                assert(s[pos + (3 + i)] == b[3 + i]);
            }
            lemma_field_roundtrip(s, pos + 3, k.pos_x, 17);
            assert forall|i: int| 0 <= i < 17 implies s[#[trigger] (pos + 20 + i)] == bitseq32(
                k.pos_y,
                17,
            )[i] by {
                assert(s[pos + (20 + i)] == b[20 + i]);
            }
            lemma_field_roundtrip(s, pos + 20, k.pos_y, 17);
            assert forall|i: int| 0 <= i < 17 implies s[#[trigger] (pos + 37 + i)] == bitseq32(
                k.pos_z,
                17,
            )[i] by {
                assert(s[pos + (37 + i)] == b[37 + i]);
            }
            lemma_field_roundtrip(s, pos + 37, k.pos_z, 17);
            assert forall|i: int| 0 <= i < 31 implies s[#[trigger] (pos + 54 + i)] == bitseq32(
                k.rot_a,
                31,
            )[i] by {
                assert(s[pos + (54 + i)] == b[54 + i]);
            }
            lemma_field_roundtrip(s, pos + 54, k.rot_a, 31);
            assert forall|i: int| 0 <= i < 31 implies s[#[trigger] (pos + 85 + i)] == bitseq32(
                k.rot_b,
                31,
            )[i] by {
                assert(s[pos + (85 + i)] == b[85 + i]);
            }
            lemma_field_roundtrip(s, pos + 85, k.rot_b, 31);
        },
        HQMObjectPacket::Skater(k) => {
            assert(s[pos + 0] == object_bits(p)[0]);
            assert(s[pos] == bitseq32(1, 1)[0]);
            assert(crate::bitio::u32_bit(1u32, 0)) by (bit_vector);
            assert(bits_val(s, pos + 1, 0) == 0);
            assert(bits_val(s, pos, 1) == 1);
            assert forall|i: int| 0 <= i < 2 implies s[#[trigger] (pos + 1 + i)] == bitseq32(
                0,
                2,
            )[i] by {
                assert(s[pos + (1 + i)] == b[1 + i]);
            }
            lemma_field_roundtrip(s, pos + 1, 0, 2);
            assert forall|i: int| 0 <= i < 17 implies s[#[trigger] (pos + 3 + i)] == bitseq32(
                k.pos_x,
                17,
            )[i] by {
                assert(s[pos + (3 + i)] == b[3 + i]);
            }
            lemma_field_roundtrip(s, pos + 3, k.pos_x, 17);
            assert forall|i: int| 0 <= i < 17 implies s[#[trigger] (pos + 20 + i)] == bitseq32(
                k.pos_y,
                17,
            )[i] by {
                assert(s[pos + (20 + i)] == b[20 + i]);
            }
            lemma_field_roundtrip(s, pos + 20, k.pos_y, 17);
            assert forall|i: int| 0 <= i < 17 implies s[#[trigger] (pos + 37 + i)] == bitseq32(
                k.pos_z,
                17,
            )[i] by {
                assert(s[pos + (37 + i)] == b[37 + i]);
            }
            lemma_field_roundtrip(s, pos + 37, k.pos_z, 17);
            assert forall|i: int| 0 <= i < 31 implies s[#[trigger] (pos + 54 + i)] == bitseq32(
                k.rot_a,
                31,
            )[i] by {
                assert(s[pos + (54 + i)] == b[54 + i]);
            }
            lemma_field_roundtrip(s, pos + 54, k.rot_a, 31);
            assert forall|i: int| 0 <= i < 31 implies s[#[trigger] (pos + 85 + i)] == bitseq32(
                k.rot_b,
                31,
            )[i] by {
                assert(s[pos + (85 + i)] == b[85 + i]);
            }
            lemma_field_roundtrip(s, pos + 85, k.rot_b, 31);
            assert forall|i: int| 0 <= i < 13 implies s[#[trigger] (pos + 116 + i)] == bitseq32(
                k.stick_pos_x,
                13,
            )[i] by {
                assert(s[pos + (116 + i)] == b[116 + i]);
            }
            lemma_field_roundtrip(s, pos + 116, k.stick_pos_x, 13);
            assert forall|i: int| 0 <= i < 13 implies s[#[trigger] (pos + 129 + i)] == bitseq32(
                k.stick_pos_y,
                13,
            )[i] by {
                assert(s[pos + (129 + i)] == b[129 + i]);
            }
            lemma_field_roundtrip(s, pos + 129, k.stick_pos_y, 13);
            assert forall|i: int| 0 <= i < 13 implies s[#[trigger] (pos + 142 + i)] == bitseq32(
                k.stick_pos_z,
                13,
            )[i] by {
                assert(s[pos + (142 + i)] == b[142 + i]);
            }
            lemma_field_roundtrip(s, pos + 142, k.stick_pos_z, 13);
            assert forall|i: int| 0 <= i < 25 implies s[#[trigger] (pos + 155 + i)] == bitseq32(
                k.stick_rot_a,
                25,
            )[i] by {
                assert(s[pos + (155 + i)] == b[155 + i]);
            }
            lemma_field_roundtrip(s, pos + 155, k.stick_rot_a, 25);
            assert forall|i: int| 0 <= i < 25 implies s[#[trigger] (pos + 180 + i)] == bitseq32(
                k.stick_rot_b,
                25,
            )[i] by {
                assert(s[pos + (180 + i)] == b[180 + i]);
            }
            lemma_field_roundtrip(s, pos + 180, k.stick_rot_b, 25);
            assert forall|i: int| 0 <= i < 16 implies s[#[trigger] (pos + 205 + i)] == bitseq32(
                k.head_rot,
                16,
            )[i] by {
                assert(s[pos + (205 + i)] == b[205 + i]);
            }
            lemma_field_roundtrip(s, pos + 205, k.head_rot, 16);
            assert forall|i: int| 0 <= i < 16 implies s[#[trigger] (pos + 221 + i)] == bitseq32(
                k.body_rot,
                16,
            )[i] by {
                assert(s[pos + (221 + i)] == b[221 + i]);
            }
            lemma_field_roundtrip(s, pos + 221, k.body_rot, 16);
        },
    }
}

/// Decoding an encoded object list reproduces every slot: together with
/// the fixed-header result this extends the snapshot round trip to the
/// object section's integer fields.
pub proof fn lemma_objects_roundtrip(ps: Seq<HQMObjectPacket>, s: Seq<bool>, pos: int)
    requires
        forall|k: int| 0 <= k < ps.len() ==> object_in_range(#[trigger] ps[k]),
        0 <= pos,
        pos + objects_bits(ps).len() <= s.len(),
        forall|i: int|
            0 <= i < objects_bits(ps).len() ==> s[#[trigger] (pos + i)] == objects_bits(ps)[i],
    ensures
        spec_parse_objects(s, pos, ps.len() as int) == ps,
    decreases ps.len(),
{
    if ps.len() > 0 {
        let head = ps[0];
        let hb = object_bits(head);
        let tail = ps.drop_first();
        assert(objects_bits(ps) =~= hb + objects_bits(tail));
        assert(hb.len() == object_bits_len(head)) by {
            match head {
                HQMObjectPacket::Empty => {},
                HQMObjectPacket::Puck(_) => {},
                HQMObjectPacket::Skater(_) => {},
            }
        }
        assert forall|i: int| 0 <= i < object_bits_len(head) implies s[#[trigger] (pos + i)]
            == hb[i] by {
            assert(s[pos + i] == objects_bits(ps)[i]);
        }
        lemma_object_roundtrip(head, s, pos);
        let next = pos + object_bits_len(head);
        assert forall|i: int|
            0 <= i < objects_bits(tail).len() implies s[#[trigger] (next + i)] == objects_bits(
            tail,
        )[i] by {
            assert(s[pos + (hb.len() + i)] == objects_bits(ps)[hb.len() + i]);
        }
        lemma_objects_roundtrip(tail, s, next);
        assert(spec_parse_objects(s, pos, ps.len() as int) =~= seq![head] + spec_parse_objects(
            s,
            next,
            ps.len() - 1,
        ));
        assert(ps =~= seq![head] + tail);
    } else {
        assert(spec_parse_objects(s, pos, 0) =~= ps);
    }
}

} // verus!
