//! Encoding and decoding of the 52-byte state packet.
//!
//! One packet is thirteen 32-bit words, each stored little-endian:
//! player x, player y, flip flag, portal x, portal y, portal rotation,
//! animation frame x, animation frame y (role-shifted), animation frame
//! width, animation frame height, block x, block y, block carried flag.
//! Single-precision fields travel as their bit patterns; the flip flag is
//! the only field that decoding validates.

use crate::portal::Portal;
use vstd::bytes::*;
use vstd::prelude::*;

verus! {

/// Number of bytes in one state packet.
pub const PACKET_SIZE: usize = 52;

/// Number of 32-bit words in one state packet.
pub const PACKET_WORDS: usize = 13;

/// The two fixed peer roles of the point-to-point link.  The role selects
/// the local/remote endpoint pair, which portal is transmitted, and the
/// vertical shift applied to the animation frame.
#[derive(Copy, Clone, PartialEq, Eq, Structural, Debug)]
pub enum Mode {
    MultiplayerPlayer1,
    MultiplayerPlayer2,
}

/// Decoding failure: the only validated field is the flip flag, which must
/// be a 4-byte encoding of 0 or 1.
#[derive(Copy, Clone, PartialEq, Eq, Structural, Debug)]
pub enum DecodeError {
    FlipOutOfDomain,
}

/// The local player fields that enter a packet.  The position is carried as
/// the bit patterns of the two single-precision coordinates; the animation
/// frame rectangle is carried as-is.
#[derive(Copy, Clone, PartialEq, Eq, Structural, Debug)]
pub struct PlayerData {
    pub x_bits: u32,
    pub y_bits: u32,
    pub flip: bool,
    pub anim_x: i32,
    pub anim_y: i32,
    pub anim_w: u32,
    pub anim_h: u32,
}

/// The carried-block fields that enter a packet.
#[derive(Copy, Clone, PartialEq, Eq, Structural, Debug)]
pub struct BlockData {
    pub x: i32,
    pub y: i32,
    pub carried: bool,
}

/// The fixed loopback port pair of a role, as (local, remote).  The first
/// role binds 34254 and sends to 34255; the second the reverse — together
/// they form a private two-party channel.
pub fn role_ports(mode: Mode) -> (r: (u16, u16))
    ensures
        r == (match mode {
            Mode::MultiplayerPlayer1 => (34254u16, 34255u16),
            Mode::MultiplayerPlayer2 => (34255u16, 34254u16),
        }),
{
    match mode {
        Mode::MultiplayerPlayer1 => (34254, 34255),
        Mode::MultiplayerPlayer2 => (34255, 34254),
    }
}

/// The 32-bit word stored at word index `k` of a packet.
pub open spec fn word_at(s: Seq<u8>, k: int) -> u32
    recommends
        0 <= k,
        4 * k + 4 <= s.len(),
{
    spec_u32_from_le_bytes(s.subrange(4 * k, 4 * k + 4))
}

/// The animation-frame y value as it travels on the wire: unshifted for the
/// first role, shifted by twice the frame height for the second (a fixed
/// visual-indexing convention of the renderer on the receiving side).
pub open spec fn anim_y_wire(p: PlayerData, mode: Mode) -> int {
    match mode {
        Mode::MultiplayerPlayer1 => p.anim_y as int,
        Mode::MultiplayerPlayer2 => 2 * (p.anim_h as int) + p.anim_y as int,
    }
}

/// The wire shift of the second role must stay within the 32-bit signed
/// range (the first role never shifts): both the doubled frame height and
/// the shifted y value must fit.
pub open spec fn anim_y_fits(p: PlayerData, mode: Mode) -> bool {
    match mode {
        Mode::MultiplayerPlayer1 => true,
        Mode::MultiplayerPlayer2 => 2 * (p.anim_h as int) <= i32::MAX && i32::MIN <= anim_y_wire(
            p,
            mode,
        ) <= i32::MAX,
    }
}

/// Which of the controller's two portals a peer transmits: the first role
/// sends portal 0, the second portal 1.
pub open spec fn wire_portal_index(mode: Mode) -> int {
    match mode {
        Mode::MultiplayerPlayer1 => 0,
        Mode::MultiplayerPlayer2 => 1,
    }
}

/// The thirteen 32-bit words of a packet, in wire order.
pub open spec fn packet_words(p: PlayerData, portal: Portal, b: BlockData, mode: Mode) -> Seq<
    u32,
> {
    seq![
        p.x_bits,
        p.y_bits,
        if p.flip { 1u32 } else { 0u32 },
        portal.x,
        portal.y,
        portal.rotation,
        p.anim_x as u32,
        (anim_y_wire(p, mode) as i32) as u32,
        p.anim_w,
        p.anim_h,
        b.x as u32,
        b.y as u32,
        if b.carried { 1u32 } else { 0u32 },
    ]
}

/// Reads the 32-bit little-endian word at byte offset `4 * k`.
fn read_word(buf: &[u8], k: usize) -> (r: u32)
    requires
        buf@.len() == PACKET_SIZE,
        k < PACKET_WORDS,
    ensures
        r == word_at(buf@, k as int),
{
    let s = vstd::slice::slice_subrange(buf, 4 * k, 4 * k + 4);
    u32_from_le_bytes(s)
}

/// Encodes one snapshot as a 52-byte packet.  The portal transmitted is the
/// one owned by the given role; the animation y field carries the
/// role-dependent shift.
pub fn pack_data(player: &PlayerData, portals: &Vec<Portal>, block: &BlockData, mode: Mode) -> (r:
    Vec<u8>)
    requires
        portals@.len() >= 2,
        anim_y_fits(*player, mode),
    ensures
        r@.len() == PACKET_SIZE,
        forall|k: int|
            0 <= k < PACKET_WORDS ==> word_at(r@, k) == packet_words(
                *player,
                portals@[wire_portal_index(mode)],
                *block,
                mode,
            )[k],
{
    let portal = match mode {
        Mode::MultiplayerPlayer1 => portals[0],
        Mode::MultiplayerPlayer2 => portals[1],
    };
    let anim_y = match mode {
        Mode::MultiplayerPlayer1 => player.anim_y,
        Mode::MultiplayerPlayer2 => (2 * player.anim_h) as i32 + player.anim_y,
    };
    let mut words: Vec<u32> = Vec::new();
    words.push(player.x_bits);
    words.push(player.y_bits);
    words.push(if player.flip { 1u32 } else { 0u32 });
    words.push(portal.x);
    words.push(portal.y);
    words.push(portal.rotation);
    words.push(#[verifier::truncate] (player.anim_x as u32));
    words.push(#[verifier::truncate] (anim_y as u32));
    words.push(player.anim_w);
    words.push(player.anim_h);
    words.push(#[verifier::truncate] (block.x as u32));
    words.push(#[verifier::truncate] (block.y as u32));
    words.push(if block.carried { 1u32 } else { 0u32 });
    let ghost target = packet_words(*player, portals@[wire_portal_index(mode)], *block, mode);
    proof {
        assert(portal == portals@[wire_portal_index(mode)]);
        assert(anim_y as int == anim_y_wire(*player, mode));
        assert(words@ =~= target);
    }
    let mut out: Vec<u8> = Vec::new();
    let mut i: usize = 0;
    while i < PACKET_WORDS
        invariant
            i <= PACKET_WORDS,
            words@ == target,
            words@.len() == PACKET_WORDS,
            out@.len() == 4 * i,
            forall|k: int| 0 <= k < i ==> word_at(out@, k) == target[k],
        decreases PACKET_WORDS - i,
    {
        let mut wb = u32_to_le_bytes(words[i]);
        let ghost prev = out@;
        out.append(&mut wb);
        proof {
            lemma_auto_spec_u32_to_from_le_bytes();
            assert forall|k: int| 0 <= k < i + 1 implies word_at(out@, k) == target[k] by {
                if k < i {
                    assert(out@.subrange(4 * k, 4 * k + 4) =~= prev.subrange(4 * k, 4 * k + 4));
                } else {
                    assert(out@.subrange(4 * k, 4 * k + 4) =~= spec_u32_to_le_bytes(
                        target[i as int],
                    ));
                }
            }
        }
        i += 1;
    }
    out
}

/// Extracts the player fields from a packet: the position bit patterns, the
/// flip flag, and the animation frame rectangle.  Fails exactly when the
/// flip word is neither 0 nor 1; no field is returned in that case.
pub fn unpack_player_data(buf: &[u8]) -> (r: Result<
    (u32, u32, bool, i32, i32, u32, u32),
    DecodeError,
>)
    requires
        buf@.len() == PACKET_SIZE,
    ensures
        r is Ok <==> (word_at(buf@, 2) == 0 || word_at(buf@, 2) == 1),
        r is Ok ==> r->Ok_0 == (
            word_at(buf@, 0),
            word_at(buf@, 1),
            word_at(buf@, 2) == 1,
            word_at(buf@, 6) as i32,
            word_at(buf@, 7) as i32,
            word_at(buf@, 8),
            word_at(buf@, 9),
        ),
        r is Err ==> r->Err_0 == DecodeError::FlipOutOfDomain,
{
    let x_bits = read_word(buf, 0);
    let y_bits = read_word(buf, 1);
    let flip = read_word(buf, 2);
    if flip != 1 && flip != 0 {
        return Err(DecodeError::FlipOutOfDomain);
    }
    let flip = flip == 1;
    let ax = read_word(buf, 6) as i32;
    let ay = read_word(buf, 7) as i32;
    let aw = read_word(buf, 8);
    let ah = read_word(buf, 9);
    Ok((x_bits, y_bits, flip, ax, ay, aw, ah))
}

/// Extracts the portal pose from a packet: the bit patterns of x, y and
/// rotation, unchecked.
pub fn unpack_portal_data(buf: &[u8]) -> (r: (u32, u32, u32))
    requires
        buf@.len() == PACKET_SIZE,
    ensures
        r == (word_at(buf@, 3), word_at(buf@, 4), word_at(buf@, 5)),
{
    let x = read_word(buf, 3);
    let y = read_word(buf, 4);
    let rotation = read_word(buf, 5);
    (x, y, rotation)
}

/// Extracts the block pose from a packet: x, y (signed), and the carried
/// flag, which is true exactly when the stored word is nonzero.
pub fn unpack_block_data(buf: &[u8]) -> (r: (i32, i32, bool))
    requires
        buf@.len() == PACKET_SIZE,
    ensures
        r.0 == word_at(buf@, 10) as i32,
        r.1 == word_at(buf@, 11) as i32,
        r.2 == (word_at(buf@, 12) as i32 != 0),
{
    let block_x = read_word(buf, 10) as i32;
    let block_y = read_word(buf, 11) as i32;
    let carried = read_word(buf, 12) as i32;
    let carried = match carried {
        0 => false,
        _ => true,
    };
    (block_x, block_y, carried)
}

/// Round trip: a packet that carries the words of a snapshot decodes back to
/// that snapshot, field for field.  Decoding always succeeds on an encoded
/// packet, reproduces the player position bit patterns, flip flag and
/// animation rectangle (the y field carrying the role shift of the encoding
/// side), the transmitted portal pose, and the block pose.
pub proof fn lemma_round_trip(
    buf: Seq<u8>,
    p: PlayerData,
    portal: Portal,
    b: BlockData,
    mode: Mode,
)
    requires
        buf.len() == PACKET_SIZE,
        anim_y_fits(p, mode),
        forall|k: int| 0 <= k < PACKET_WORDS ==> word_at(buf, k) == packet_words(
            p,
            portal,
            b,
            mode,
        )[k],
    ensures
        word_at(buf, 2) == 0 || word_at(buf, 2) == 1,
        word_at(buf, 0) == p.x_bits,
        word_at(buf, 1) == p.y_bits,
        (word_at(buf, 2) == 1) == p.flip,
        word_at(buf, 6) as i32 == p.anim_x,
        word_at(buf, 7) as i32 == anim_y_wire(p, mode),
        word_at(buf, 8) == p.anim_w,
        word_at(buf, 9) == p.anim_h,
        word_at(buf, 3) == portal.x,
        word_at(buf, 4) == portal.y,
        word_at(buf, 5) == portal.rotation,
        word_at(buf, 10) as i32 == b.x,
        word_at(buf, 11) as i32 == b.y,
        (word_at(buf, 12) as i32 != 0) == b.carried,
{
    let ws = packet_words(p, portal, b, mode);
    assert(word_at(buf, 0) == ws[0]);
    assert(word_at(buf, 1) == ws[1]);
    assert(word_at(buf, 2) == ws[2]);
    assert(word_at(buf, 3) == ws[3]);
    assert(word_at(buf, 4) == ws[4]);
    assert(word_at(buf, 5) == ws[5]);
    assert(word_at(buf, 6) == ws[6]);
    assert(word_at(buf, 7) == ws[7]);
    assert(word_at(buf, 8) == ws[8]);
    assert(word_at(buf, 9) == ws[9]);
    assert(word_at(buf, 10) == ws[10]);
    assert(word_at(buf, 11) == ws[11]);
    assert(word_at(buf, 12) == ws[12]);
    let ax = p.anim_x;
    assert((ax as u32) as i32 == ax) by (bit_vector);
    let ay = (anim_y_wire(p, mode) as i32);
    assert((ay as u32) as i32 == ay) by (bit_vector);
    let bx = b.x;
    assert((bx as u32) as i32 == bx) by (bit_vector);
    let by = b.y;
    assert((by as u32) as i32 == by) by (bit_vector);
}

} // verus!
