//! Server-side readers of client payloads, and the laws that they read back
//! what the client packets encode.
use vstd::prelude::*;
use vstd::utf8::{decode_utf8, encode_utf8, valid_utf8};
use crate::bytes::{le16, le32, str16, read_le16, read_le32, get_u16, get_u32, lemma_read_le16, lemma_read_le32};
use crate::enums::MirDirection;
use crate::packets::Packet;
use crate::packets::client::{
    AttackPacket, BuyItemPacket, CallNpcPacket, ChatPacket, ChangePasswordClientPacket,
    DeleteCharacterClientPacket, LoginClientPacket, NewAccountClientPacket,
    NewCharacterClientPacket, RunPacket, SellItemPacket, StartGameClientPacket, TurnPacket,
    WalkPacket,
};

verus! {

broadcast use {vstd::utf8::encode_utf8_decode_utf8, vstd::utf8::encode_utf8_valid_utf8};

/// What `String::from_utf8_lossy` makes of a byte sequence.
pub uninterp spec fn lossy_utf8(bytes: Seq<u8>) -> Seq<char>;

/// `String::from_utf8_lossy(bytes).to_string()`: the text of `bytes`, with each
/// invalid sequence replaced by U+FFFD. Its result is named `lossy_utf8`; for
/// valid UTF-8 the standard library documents that the text is the bytes'
/// own decoding, which is stated. What it makes of invalid bytes is left unsaid.
#[verifier::external_body]
fn utf8_lossy(bytes: &[u8]) -> (r: String)
    ensures
        r@ == lossy_utf8(bytes@),
        valid_utf8(bytes@) ==> r@ == decode_utf8(bytes@),
{
    String::from_utf8_lossy(bytes).to_string()
}

/// The direction a byte stands for; any value above 7 reads as `Down`.
pub open spec fn spec_direction_from_byte(v: u8) -> MirDirection {
    match MirDirection::spec_from_code(v) {
        Some(d) => d,
        None => MirDirection::Down,
    }
}

/// The text a server reads from string bytes: their UTF-8 decoding when valid,
/// else what `String::from_utf8_lossy` makes of them.
pub open spec fn text_of(bytes: Seq<u8>) -> Seq<char> {
    if valid_utf8(bytes) {
        decode_utf8(bytes)
    } else {
        lossy_utf8(bytes)
    }
}

/// Reads string bytes as text.
pub fn read_text(bytes: &[u8]) -> (r: String)
    ensures
        r@ == text_of(bytes@),
{
    utf8_lossy(bytes)
}

/// Reads a direction byte; values above 7 read as `Down`.
pub fn direction_from_byte(v: u8) -> (r: MirDirection)
    ensures
        r == spec_direction_from_byte(v),
{
    match MirDirection::from_code(v) {
        Some(d) => d,
        None => MirDirection::Down,
    }
}

/// A one-byte direction payload (walk, run, turn): `None` when empty.
pub open spec fn spec_parse_direction(p: Seq<u8>) -> Option<MirDirection> {
    if p.len() < 1 {
        None
    } else {
        Some(spec_direction_from_byte(p[0]))
    }
}

pub fn parse_direction(payload: &[u8]) -> (r: Option<MirDirection>)
    ensures
        r == spec_parse_direction(payload@),
{
    if payload.len() < 1 {
        None
    } else {
        Some(direction_from_byte(payload[0]))
    }
}

/// An attack payload: `(direction, spell byte)`; `None` when shorter than two bytes.
pub open spec fn spec_parse_attack(p: Seq<u8>) -> Option<(MirDirection, u8)> {
    if p.len() < 2 {
        None
    } else {
        Some((spec_direction_from_byte(p[0]), p[1]))
    }
}

pub fn parse_attack(payload: &[u8]) -> (r: Option<(MirDirection, u8)>)
    ensures
        r == spec_parse_attack(payload@),
{
    if payload.len() < 2 {
        None
    } else {
        Some((direction_from_byte(payload[0]), payload[1]))
    }
}

/// A chat payload `[len: u16][text]`: the text, `None` when cut short.
pub open spec fn spec_parse_chat(p: Seq<u8>) -> Option<Seq<char>> {
    if p.len() < 2 {
        None
    } else {
        let n = read_le16(p[0], p[1]);
        if p.len() < 2 + n {
            None
        } else {
            Some(text_of(p.subrange(2, 2 + n)))
        }
    }
}

pub fn parse_chat(payload: &[u8]) -> (r: Option<String>)
    ensures
        spec_parse_chat(payload@) matches Some(t) ==> r matches Some(s) && s@ == t,
        spec_parse_chat(payload@) is None ==> r is None,
{
    if payload.len() < 2 {
        return None;
    }
    let n = get_u16(payload, 0) as usize;
    if payload.len() < 2 + n {
        return None;
    }
    let (_, rest) = payload.split_at(2);
    let (text, _) = rest.split_at(n);
    proof {
        assert(text@ =~= payload@.subrange(2, 2 + n));
    }
    Some(read_text(text))
}

/// Two length-prefixed strings `[len: u16][a][len: u16][b]` (login, new
/// account, change password); `None` when cut short.
pub open spec fn spec_parse_credentials(p: Seq<u8>) -> Option<(Seq<char>, Seq<char>)> {
    if p.len() < 4 {
        None
    } else {
        let n1 = read_le16(p[0], p[1]);
        if p.len() < 2 + n1 + 2 {
            None
        } else {
            let off = 2 + n1;
            let n2 = read_le16(p[off], p[off + 1]);
            if p.len() < off + 2 + n2 {
                None
            } else {
                Some(
                    (
                        text_of(p.subrange(2, off)),
                        text_of(p.subrange(off + 2, off + 2 + n2)),
                    ),
                )
            }
        }
    }
}

pub fn parse_credentials(payload: &[u8]) -> (r: Option<(String, String)>)
    ensures
        spec_parse_credentials(payload@) matches Some((a, b)) ==> r matches Some((x, y)) && x@
            == a && y@ == b,
        spec_parse_credentials(payload@) is None ==> r is None,
{
    if payload.len() < 4 {
        return None;
    }
    let n1 = get_u16(payload, 0) as usize;
    if payload.len() < 2 + n1 + 2 {
        return None;
    }
    let off = 2 + n1;
    let n2 = get_u16(payload, off) as usize;
    if payload.len() < off + 2 + n2 {
        return None;
    }
    let (_, rest) = payload.split_at(2);
    let (first, _) = rest.split_at(n1);
    let (_, rest2) = payload.split_at(off + 2);
    let (second, _) = rest2.split_at(n2);
    proof {
        assert(first@ =~= payload@.subrange(2, off as int));
        assert(second@ =~= payload@.subrange(off + 2, off + 2 + n2));
    }
    Some((read_text(first), read_text(second)))
}

/// A new character payload `[len: u16][name][class: u8][gender: u8]`;
/// `None` when cut short.
pub open spec fn spec_parse_new_character(p: Seq<u8>) -> Option<(Seq<char>, u8, u8)> {
    if p.len() < 4 {
        None
    } else {
        let n = read_le16(p[0], p[1]);
        if p.len() < 2 + n + 2 {
            None
        } else {
            Some((text_of(p.subrange(2, 2 + n)), p[2 + n], p[3 + n]))
        }
    }
}

pub fn parse_new_character(payload: &[u8]) -> (r: Option<(String, u8, u8)>)
    ensures
        spec_parse_new_character(payload@) matches Some((n, c, g)) ==> r matches Some((
            name,
            class,
            gender,
        )) && name@ == n && class == c && gender == g,
        spec_parse_new_character(payload@) is None ==> r is None,
{
    if payload.len() < 4 {
        return None;
    }
    let n = get_u16(payload, 0) as usize;
    if payload.len() < 2 + n + 2 {
        return None;
    }
    let (_, rest) = payload.split_at(2);
    let (name, _) = rest.split_at(n);
    proof {
        assert(name@ =~= payload@.subrange(2, 2 + n));
    }
    Some((read_text(name), payload[2 + n], payload[3 + n]))
}

/// A `[char_index: u32]` payload (delete character, start game); `None` when
/// shorter than four bytes.
pub open spec fn spec_parse_char_index(p: Seq<u8>) -> Option<u32> {
    if p.len() < 4 {
        None
    } else {
        Some(read_le32(p[0], p[1], p[2], p[3]))
    }
}

pub fn parse_char_index(payload: &[u8]) -> (r: Option<u32>)
    ensures
        r == spec_parse_char_index(payload@),
{
    if payload.len() < 4 {
        None
    } else {
        Some(get_u32(payload, 0))
    }
}

/// A `[npc_id: u16]` payload; `None` when shorter than two bytes.
pub open spec fn spec_parse_call_npc(p: Seq<u8>) -> Option<u16> {
    if p.len() < 2 {
        None
    } else {
        Some(read_le16(p[0], p[1]))
    }
}

pub fn parse_call_npc(payload: &[u8]) -> (r: Option<u16>)
    ensures
        r == spec_parse_call_npc(payload@),
{
    if payload.len() < 2 {
        None
    } else {
        Some(get_u16(payload, 0))
    }
}

/// A buy payload `[npc_id][item_id][count]` (each `u16`); `None` when shorter
/// than six bytes.
pub open spec fn spec_parse_buy_item(p: Seq<u8>) -> Option<(u16, u16, u16)> {
    if p.len() < 6 {
        None
    } else {
        Some((read_le16(p[0], p[1]), read_le16(p[2], p[3]), read_le16(p[4], p[5])))
    }
}

pub fn parse_buy_item(payload: &[u8]) -> (r: Option<(u16, u16, u16)>)
    ensures
        r == spec_parse_buy_item(payload@),
{
    if payload.len() < 6 {
        None
    } else {
        Some((get_u16(payload, 0), get_u16(payload, 2), get_u16(payload, 4)))
    }
}

/// A sell payload `[slot: u8][item_uid: u32][count: u16]`; `None` when shorter
/// than seven bytes.
pub open spec fn spec_parse_sell_item(p: Seq<u8>) -> Option<(u8, u32, u16)> {
    if p.len() < 7 {
        None
    } else {
        Some((p[0], read_le32(p[1], p[2], p[3], p[4]), read_le16(p[5], p[6])))
    }
}

pub fn parse_sell_item(payload: &[u8]) -> (r: Option<(u8, u32, u16)>)
    ensures
        r == spec_parse_sell_item(payload@),
{
    if payload.len() < 7 {
        None
    } else {
        Some((payload[0], get_u32(payload, 1), get_u16(payload, 5)))
    }
}

// ---------------------------------------------------------------------------
// Laws: what a client packet encodes, the server reads back.
// ---------------------------------------------------------------------------

/// A string's bytes read back, when they fit the `u16` length field.
proof fn lemma_str16_read(s: Seq<char>, rest: Seq<u8>)
    requires
        encode_utf8(s).len() <= 65535,
    ensures
        ({
            let p = str16(s) + rest;
            let n = read_le16(p[0], p[1]);
            &&& n == encode_utf8(s).len()
            &&& p.len() == 2 + n + rest.len()
            &&& p.subrange(2, 2 + n) == encode_utf8(s)
            &&& p.subrange(2 + n, p.len() as int) == rest
            &&& text_of(p.subrange(2, 2 + n)) == s
        }),
{
    let b = encode_utf8(s);
    let p = str16(s) + rest;
    lemma_read_le16((b.len() % 65536) as u16);
    assert(p[0] == le16((b.len() % 65536) as u16)[0]);
    assert(p[1] == le16((b.len() % 65536) as u16)[1]);
    assert(p.subrange(2, 2 + b.len() as int) =~= b);
    assert(p.subrange(2 + b.len() as int, p.len() as int) =~= rest);
}

/// Walking, running and turning read back the direction sent.
pub proof fn law_direction_roundtrip(w: WalkPacket, r: RunPacket, t: TurnPacket)
    ensures
        spec_parse_direction(w.spec_payload()) == Some(w.direction),
        spec_parse_direction(r.spec_payload()) == Some(r.direction),
        spec_parse_direction(t.spec_payload()) == Some(t.direction),
{
}

/// An attack reads back its direction and its spell's wire value.
pub proof fn law_attack_roundtrip(a: AttackPacket)
    ensures
        spec_parse_attack(a.spec_payload()) == Some((a.direction, a.spell.spec_code())),
{
}

/// A chat line reads back as the text sent, when its UTF-8 form fits the
/// `u16` length field.
pub proof fn law_chat_roundtrip(c: ChatPacket)
    requires
        encode_utf8(c.message@).len() <= 65535,
    ensures
        spec_parse_chat(c.spec_payload()) == Some(c.message@),
{
    lemma_str16_read(c.message@, Seq::empty());
    assert(c.spec_payload() =~= str16(c.message@) + Seq::empty());
}

/// A length-prefixed string read back at any offset.
proof fn lemma_str16_at(a: Seq<u8>, s: Seq<char>, rest: Seq<u8>)
    requires
        encode_utf8(s).len() <= 65535,
    ensures
        ({
            let q = a + str16(s) + rest;
            let k = a.len() as int;
            let n = read_le16(q[k], q[k + 1]);
            &&& n == encode_utf8(s).len()
            &&& q.len() == k + 2 + n + rest.len()
            &&& q.subrange(k + 2, k + 2 + n) == encode_utf8(s)
            &&& text_of(q.subrange(k + 2, k + 2 + n)) == s
        }),
{
    let b = encode_utf8(s);
    let q = a + str16(s) + rest;
    let k = a.len() as int;
    lemma_read_le16((b.len() % 65536) as u16);
    assert(q[k] == le16((b.len() % 65536) as u16)[0]);
    assert(q[k + 1] == le16((b.len() % 65536) as u16)[1]);
    assert(q.subrange(k + 2, k + 2 + b.len()) =~= b);
}

/// Logging in, creating an account and changing a password read back the two
/// strings sent, when each one's UTF-8 form fits the `u16` length field.
pub proof fn law_credentials_roundtrip(
    l: LoginClientPacket,
    a: NewAccountClientPacket,
    c: ChangePasswordClientPacket,
)
    requires
        encode_utf8(l.username@).len() <= 65535,
        encode_utf8(l.password@).len() <= 65535,
        encode_utf8(a.username@).len() <= 65535,
        encode_utf8(a.password@).len() <= 65535,
        encode_utf8(c.old_password@).len() <= 65535,
        encode_utf8(c.new_password@).len() <= 65535,
    ensures
        spec_parse_credentials(l.spec_payload()) == Some((l.username@, l.password@)),
        spec_parse_credentials(a.spec_payload()) == Some((a.username@, a.password@)),
        spec_parse_credentials(c.spec_payload()) == Some((c.old_password@, c.new_password@)),
{
    lemma_credentials(l.username@, l.password@);
    lemma_credentials(a.username@, a.password@);
    lemma_credentials(c.old_password@, c.new_password@);
}

proof fn lemma_credentials(x: Seq<char>, y: Seq<char>)
    requires
        encode_utf8(x).len() <= 65535,
        encode_utf8(y).len() <= 65535,
    ensures
        spec_parse_credentials(str16(x) + str16(y)) == Some((x, y)),
{
    let p = str16(x) + str16(y);
    lemma_str16_at(Seq::empty(), x, str16(y));
    assert(Seq::<u8>::empty() + str16(x) + str16(y) =~= p);
    lemma_str16_at(str16(x), y, Seq::empty());
    assert(str16(x) + str16(y) + Seq::<u8>::empty() =~= p);
}

/// Creating a character reads back the name, class and gender sent, when the
/// name's UTF-8 form fits the `u16` length field.
pub proof fn law_new_character_roundtrip(c: NewCharacterClientPacket)
    requires
        encode_utf8(c.name@).len() <= 65535,
    ensures
        spec_parse_new_character(c.spec_payload()) == Some((c.name@, c.class, c.gender)),
{
    lemma_str16_at(Seq::empty(), c.name@, seq![c.class, c.gender]);
    assert(Seq::<u8>::empty() + str16(c.name@) + seq![c.class, c.gender] =~= c.spec_payload());
}

/// Deleting a character and starting the game read back the index sent.
pub proof fn law_char_index_roundtrip(d: DeleteCharacterClientPacket, s: StartGameClientPacket)
    ensures
        spec_parse_char_index(d.spec_payload()) == Some(d.char_index),
        spec_parse_char_index(s.spec_payload()) == Some(s.char_index),
{
    lemma_read_le32(d.char_index);
    lemma_read_le32(s.char_index);
}

/// Calling, buying from and selling to an NPC read back the fields sent.
pub proof fn law_shop_requests_roundtrip(c: CallNpcPacket, b: BuyItemPacket, s: SellItemPacket)
    ensures
        spec_parse_call_npc(c.spec_payload()) == Some(c.npc_id),
        spec_parse_buy_item(b.spec_payload()) == Some((b.npc_id, b.item_id, b.count)),
        spec_parse_sell_item(s.spec_payload()) == Some((s.slot, s.item_uid, s.count)),
{
    lemma_read_le16(c.npc_id);
    lemma_read_le16(b.npc_id);
    lemma_read_le16(b.item_id);
    lemma_read_le16(b.count);
    lemma_read_le32(s.item_uid);
    lemma_read_le16(s.count);
    let bp = b.spec_payload();
    assert(bp[2] == le16(b.item_id)[0] && bp[3] == le16(b.item_id)[1]);
    assert(bp[4] == le16(b.count)[0] && bp[5] == le16(b.count)[1]);
    let sp = s.spec_payload();
    assert(sp[1] == le32(s.item_uid)[0] && sp[2] == le32(s.item_uid)[1]);
    assert(sp[3] == le32(s.item_uid)[2] && sp[4] == le32(s.item_uid)[3]);
    assert(sp[5] == le16(s.count)[0] && sp[6] == le16(s.count)[1]);
}

} // verus!
