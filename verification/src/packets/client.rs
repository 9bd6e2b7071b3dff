//! Packets sent by the client.
use vstd::prelude::*;
use crate::bytes::{le16, le32, str16, push_u16, push_u32, push_str16};
use crate::enums::{MirDirection, Spell};
use crate::error::NetError;
use crate::opcodes::ClientOpcode;
use crate::packets::{Packet, PacketCodec};

verus! {

/// Heartbeat (client to server). Empty payload.
#[derive(Debug, Clone)]
pub struct KeepAlivePacket;

impl Packet for KeepAlivePacket {
    open spec fn spec_id(&self) -> u16 {
        ClientOpcode::KeepAlive.spec_id()
    }

    open spec fn spec_payload(&self) -> Seq<u8> {
        Seq::empty()
    }

    fn packet_id(&self) -> (id: u16) {
        ClientOpcode::KeepAlive.id()
    }

    fn encode(&self) -> (r: Result<Vec<u8>, NetError>) {
        let mut p: Vec<u8> = Vec::new();
        proof {
            assert(p@ =~= self.spec_payload());
        }
        PacketCodec::encode(self.packet_id(), p.as_slice())
    }
}

/// Walk one step (client to server). Payload: `[direction: u8]`.
#[derive(Debug, Clone)]
pub struct WalkPacket {
    pub direction: MirDirection,
}

impl WalkPacket {
    pub fn new(direction: MirDirection) -> (r: Self)
        ensures
            r.direction == direction,
    {
        WalkPacket { direction }
    }
}

impl Packet for WalkPacket {
    open spec fn spec_id(&self) -> u16 {
        ClientOpcode::Walk.spec_id()
    }

    open spec fn spec_payload(&self) -> Seq<u8> {
        seq![self.direction.spec_code()]
    }

    fn packet_id(&self) -> (id: u16) {
        ClientOpcode::Walk.id()
    }

    fn encode(&self) -> (r: Result<Vec<u8>, NetError>) {
        let mut p: Vec<u8> = Vec::new();
        p.push(self.direction.code());
        proof {
            assert(p@ =~= self.spec_payload());
        }
        PacketCodec::encode(self.packet_id(), p.as_slice())
    }
}

/// Run (client to server). Payload: `[direction: u8]`.
#[derive(Debug, Clone)]
pub struct RunPacket {
    pub direction: MirDirection,
}

impl RunPacket {
    pub fn new(direction: MirDirection) -> (r: Self)
        ensures
            r.direction == direction,
    {
        RunPacket { direction }
    }
}

impl Packet for RunPacket {
    open spec fn spec_id(&self) -> u16 {
        ClientOpcode::Run.spec_id()
    }

    open spec fn spec_payload(&self) -> Seq<u8> {
        seq![self.direction.spec_code()]
    }

    fn packet_id(&self) -> (id: u16) {
        ClientOpcode::Run.id()
    }

    fn encode(&self) -> (r: Result<Vec<u8>, NetError>) {
        let mut p: Vec<u8> = Vec::new();
        p.push(self.direction.code());
        proof {
            assert(p@ =~= self.spec_payload());
        }
        PacketCodec::encode(self.packet_id(), p.as_slice())
    }
}

/// Attack (client to server). Payload: `[direction: u8][spell: u8]`.
#[derive(Debug, Clone)]
pub struct AttackPacket {
    pub direction: MirDirection,
    pub spell: Spell,
}

impl AttackPacket {
    pub fn new(direction: MirDirection, spell: Spell) -> (r: Self)
        ensures
            r.direction == direction,
            r.spell == spell,
    {
        AttackPacket { direction, spell }
    }
}

impl Packet for AttackPacket {
    open spec fn spec_id(&self) -> u16 {
        ClientOpcode::Attack.spec_id()
    }

    open spec fn spec_payload(&self) -> Seq<u8> {
        seq![self.direction.spec_code()] + seq![self.spell.spec_code()]
    }

    fn packet_id(&self) -> (id: u16) {
        ClientOpcode::Attack.id()
    }

    fn encode(&self) -> (r: Result<Vec<u8>, NetError>) {
        let mut p: Vec<u8> = Vec::new();
        p.push(self.direction.code());
        p.push(self.spell.code());
        proof {
            assert(p@ =~= self.spec_payload());
        }
        PacketCodec::encode(self.packet_id(), p.as_slice())
    }
}

/// Chat line (client to server). Payload: `[len: u16 LE][message: UTF-8]`.
#[derive(Debug, Clone)]
pub struct ChatPacket {
    pub message: String,
}

impl ChatPacket {
    pub fn new(message: String) -> (r: Self)
        ensures
            r.message == message,
    {
        ChatPacket { message }
    }
}

impl Packet for ChatPacket {
    open spec fn spec_id(&self) -> u16 {
        ClientOpcode::Chat.spec_id()
    }

    open spec fn spec_payload(&self) -> Seq<u8> {
        str16(self.message@)
    }

    fn packet_id(&self) -> (id: u16) {
        ClientOpcode::Chat.id()
    }

    fn encode(&self) -> (r: Result<Vec<u8>, NetError>) {
        let mut p: Vec<u8> = Vec::new();
        push_str16(&mut p, self.message.as_str());
        proof {
            assert(p@ =~= self.spec_payload());
        }
        PacketCodec::encode(self.packet_id(), p.as_slice())
    }
}

/// Turn in place (client to server). Payload: `[direction: u8]`.
#[derive(Debug, Clone)]
pub struct TurnPacket {
    pub direction: MirDirection,
}

impl TurnPacket {
    pub fn new(direction: MirDirection) -> (r: Self)
        ensures
            r.direction == direction,
    {
        TurnPacket { direction }
    }
}

impl Packet for TurnPacket {
    open spec fn spec_id(&self) -> u16 {
        ClientOpcode::Turn.spec_id()
    }

    open spec fn spec_payload(&self) -> Seq<u8> {
        seq![self.direction.spec_code()]
    }

    fn packet_id(&self) -> (id: u16) {
        ClientOpcode::Turn.id()
    }

    fn encode(&self) -> (r: Result<Vec<u8>, NetError>) {
        let mut p: Vec<u8> = Vec::new();
        p.push(self.direction.code());
        proof {
            assert(p@ =~= self.spec_payload());
        }
        PacketCodec::encode(self.packet_id(), p.as_slice())
    }
}

/// Log out (client to server). Empty payload.
#[derive(Debug, Clone)]
pub struct LogOutPacket;

impl Packet for LogOutPacket {
    open spec fn spec_id(&self) -> u16 {
        ClientOpcode::LogOut.spec_id()
    }

    open spec fn spec_payload(&self) -> Seq<u8> {
        Seq::empty()
    }

    fn packet_id(&self) -> (id: u16) {
        ClientOpcode::LogOut.id()
    }

    fn encode(&self) -> (r: Result<Vec<u8>, NetError>) {
        let mut p: Vec<u8> = Vec::new();
        proof {
            assert(p@ =~= self.spec_payload());
        }
        PacketCodec::encode(self.packet_id(), p.as_slice())
    }
}

/// Move an item between grid cells (client to server). Payload: `[grid_from: u8][grid_to: u8]`.
#[derive(Debug, Clone)]
pub struct MoveItemPacket {
    pub grid_from: u8,
    pub grid_to: u8,
}

impl MoveItemPacket {
    pub fn new(grid_from: u8, grid_to: u8) -> (r: Self)
        ensures
            r.grid_from == grid_from,
            r.grid_to == grid_to,
    {
        MoveItemPacket { grid_from, grid_to }
    }
}

impl Packet for MoveItemPacket {
    open spec fn spec_id(&self) -> u16 {
        ClientOpcode::MoveItem.spec_id()
    }

    open spec fn spec_payload(&self) -> Seq<u8> {
        seq![self.grid_from] + seq![self.grid_to]
    }

    fn packet_id(&self) -> (id: u16) {
        ClientOpcode::MoveItem.id()
    }

    fn encode(&self) -> (r: Result<Vec<u8>, NetError>) {
        let mut p: Vec<u8> = Vec::new();
        p.push(self.grid_from);
        p.push(self.grid_to);
        proof {
            assert(p@ =~= self.spec_payload());
        }
        PacketCodec::encode(self.packet_id(), p.as_slice())
    }
}

/// Pick up an item (client to server). Empty payload.
#[derive(Debug, Clone)]
pub struct PickUpPacket;

impl Packet for PickUpPacket {
    open spec fn spec_id(&self) -> u16 {
        ClientOpcode::PickUp.spec_id()
    }

    open spec fn spec_payload(&self) -> Seq<u8> {
        Seq::empty()
    }

    fn packet_id(&self) -> (id: u16) {
        ClientOpcode::PickUp.id()
    }

    fn encode(&self) -> (r: Result<Vec<u8>, NetError>) {
        let mut p: Vec<u8> = Vec::new();
        proof {
            assert(p@ =~= self.spec_payload());
        }
        PacketCodec::encode(self.packet_id(), p.as_slice())
    }
}

/// Storage request (client to server). Empty payload.
#[derive(Debug, Clone)]
pub struct UserStoragePacket;

impl Packet for UserStoragePacket {
    open spec fn spec_id(&self) -> u16 {
        ClientOpcode::ChangeAMode.spec_id()
    }

    open spec fn spec_payload(&self) -> Seq<u8> {
        Seq::empty()
    }

    fn packet_id(&self) -> (id: u16) {
        ClientOpcode::ChangeAMode.id()
    }

    fn encode(&self) -> (r: Result<Vec<u8>, NetError>) {
        let mut p: Vec<u8> = Vec::new();
        proof {
            assert(p@ =~= self.spec_payload());
        }
        PacketCodec::encode(self.packet_id(), p.as_slice())
    }
}

/// Log in (client to server).
/// Payload: `[len: u16 LE][username][len: u16 LE][password]`.
#[derive(Debug, Clone)]
pub struct LoginClientPacket {
    pub username: String,
    pub password: String,
}

impl LoginClientPacket {
    pub fn new(username: String, password: String) -> (r: Self)
        ensures
            r.username == username,
            r.password == password,
    {
        LoginClientPacket { username, password }
    }
}

impl Packet for LoginClientPacket {
    open spec fn spec_id(&self) -> u16 {
        ClientOpcode::Login.spec_id()
    }

    open spec fn spec_payload(&self) -> Seq<u8> {
        str16(self.username@) + str16(self.password@)
    }

    fn packet_id(&self) -> (id: u16) {
        ClientOpcode::Login.id()
    }

    fn encode(&self) -> (r: Result<Vec<u8>, NetError>) {
        let mut p: Vec<u8> = Vec::new();
        push_str16(&mut p, self.username.as_str());
        push_str16(&mut p, self.password.as_str());
        proof {
            assert(p@ =~= self.spec_payload());
        }
        PacketCodec::encode(self.packet_id(), p.as_slice())
    }
}

/// Create an account (client to server).
/// Payload: `[len: u16 LE][username][len: u16 LE][password]`.
#[derive(Debug, Clone)]
pub struct NewAccountClientPacket {
    pub username: String,
    pub password: String,
}

impl NewAccountClientPacket {
    pub fn new(username: String, password: String) -> (r: Self)
        ensures
            r.username == username,
            r.password == password,
    {
        NewAccountClientPacket { username, password }
    }
}

impl Packet for NewAccountClientPacket {
    open spec fn spec_id(&self) -> u16 {
        ClientOpcode::NewAccount.spec_id()
    }

    open spec fn spec_payload(&self) -> Seq<u8> {
        str16(self.username@) + str16(self.password@)
    }

    fn packet_id(&self) -> (id: u16) {
        ClientOpcode::NewAccount.id()
    }

    fn encode(&self) -> (r: Result<Vec<u8>, NetError>) {
        let mut p: Vec<u8> = Vec::new();
        push_str16(&mut p, self.username.as_str());
        push_str16(&mut p, self.password.as_str());
        proof {
            assert(p@ =~= self.spec_payload());
        }
        PacketCodec::encode(self.packet_id(), p.as_slice())
    }
}

/// Change the password (client to server).
/// Payload: `[len: u16 LE][old password][len: u16 LE][new password]`.
#[derive(Debug, Clone)]
pub struct ChangePasswordClientPacket {
    pub old_password: String,
    pub new_password: String,
}

impl ChangePasswordClientPacket {
    pub fn new(old_password: String, new_password: String) -> (r: Self)
        ensures
            r.old_password == old_password,
            r.new_password == new_password,
    {
        ChangePasswordClientPacket { old_password, new_password }
    }
}

impl Packet for ChangePasswordClientPacket {
    open spec fn spec_id(&self) -> u16 {
        ClientOpcode::ChangePassword.spec_id()
    }

    open spec fn spec_payload(&self) -> Seq<u8> {
        str16(self.old_password@) + str16(self.new_password@)
    }

    fn packet_id(&self) -> (id: u16) {
        ClientOpcode::ChangePassword.id()
    }

    fn encode(&self) -> (r: Result<Vec<u8>, NetError>) {
        let mut p: Vec<u8> = Vec::new();
        push_str16(&mut p, self.old_password.as_str());
        push_str16(&mut p, self.new_password.as_str());
        proof {
            assert(p@ =~= self.spec_payload());
        }
        PacketCodec::encode(self.packet_id(), p.as_slice())
    }
}

/// Create a character (client to server).
/// Payload: `[len: u16 LE][name][class: u8][gender: u8]`.
#[derive(Debug, Clone)]
pub struct NewCharacterClientPacket {
    pub name: String,
    pub class: u8,
    pub gender: u8,
}

impl NewCharacterClientPacket {
    pub fn new(name: String, class: u8, gender: u8) -> (r: Self)
        ensures
            r.name == name,
            r.class == class,
            r.gender == gender,
    {
        NewCharacterClientPacket { name, class, gender }
    }
}

impl Packet for NewCharacterClientPacket {
    open spec fn spec_id(&self) -> u16 {
        ClientOpcode::NewCharacter.spec_id()
    }

    open spec fn spec_payload(&self) -> Seq<u8> {
        str16(self.name@) + seq![self.class] + seq![self.gender]
    }

    fn packet_id(&self) -> (id: u16) {
        ClientOpcode::NewCharacter.id()
    }

    fn encode(&self) -> (r: Result<Vec<u8>, NetError>) {
        let mut p: Vec<u8> = Vec::new();
        push_str16(&mut p, self.name.as_str());
        p.push(self.class);
        p.push(self.gender);
        proof {
            assert(p@ =~= self.spec_payload());
        }
        PacketCodec::encode(self.packet_id(), p.as_slice())
    }
}

/// Delete a character (client to server). Payload: `[char_index: u32 LE]`.
#[derive(Debug, Clone)]
pub struct DeleteCharacterClientPacket {
    pub char_index: u32,
}

impl DeleteCharacterClientPacket {
    pub fn new(char_index: u32) -> (r: Self)
        ensures
            r.char_index == char_index,
    {
        DeleteCharacterClientPacket { char_index }
    }
}

impl Packet for DeleteCharacterClientPacket {
    open spec fn spec_id(&self) -> u16 {
        ClientOpcode::DeleteCharacter.spec_id()
    }

    open spec fn spec_payload(&self) -> Seq<u8> {
        le32(self.char_index)
    }

    fn packet_id(&self) -> (id: u16) {
        ClientOpcode::DeleteCharacter.id()
    }

    fn encode(&self) -> (r: Result<Vec<u8>, NetError>) {
        let mut p: Vec<u8> = Vec::new();
        push_u32(&mut p, self.char_index);
        proof {
            assert(p@ =~= self.spec_payload());
        }
        PacketCodec::encode(self.packet_id(), p.as_slice())
    }
}

/// Enter the game with a character (client to server). Payload: `[char_index: u32 LE]`.
#[derive(Debug, Clone)]
pub struct StartGameClientPacket {
    pub char_index: u32,
}

impl StartGameClientPacket {
    pub fn new(char_index: u32) -> (r: Self)
        ensures
            r.char_index == char_index,
    {
        StartGameClientPacket { char_index }
    }
}

impl Packet for StartGameClientPacket {
    open spec fn spec_id(&self) -> u16 {
        ClientOpcode::StartGame.spec_id()
    }

    open spec fn spec_payload(&self) -> Seq<u8> {
        le32(self.char_index)
    }

    fn packet_id(&self) -> (id: u16) {
        ClientOpcode::StartGame.id()
    }

    fn encode(&self) -> (r: Result<Vec<u8>, NetError>) {
        let mut p: Vec<u8> = Vec::new();
        push_u32(&mut p, self.char_index);
        proof {
            assert(p@ =~= self.spec_payload());
        }
        PacketCodec::encode(self.packet_id(), p.as_slice())
    }
}

/// Talk to an NPC (client to server). Payload: `[npc_id: u16 LE]`.
#[derive(Debug, Clone)]
pub struct CallNpcPacket {
    pub npc_id: u16,
}

impl CallNpcPacket {
    pub fn new(npc_id: u16) -> (r: Self)
        ensures
            r.npc_id == npc_id,
    {
        CallNpcPacket { npc_id }
    }
}

impl Packet for CallNpcPacket {
    open spec fn spec_id(&self) -> u16 {
        ClientOpcode::CallNPC.spec_id()
    }

    open spec fn spec_payload(&self) -> Seq<u8> {
        le16(self.npc_id)
    }

    fn packet_id(&self) -> (id: u16) {
        ClientOpcode::CallNPC.id()
    }

    fn encode(&self) -> (r: Result<Vec<u8>, NetError>) {
        let mut p: Vec<u8> = Vec::new();
        push_u16(&mut p, self.npc_id);
        proof {
            assert(p@ =~= self.spec_payload());
        }
        PacketCodec::encode(self.packet_id(), p.as_slice())
    }
}

/// Buy from an NPC (client to server).
/// Payload: `[npc_id: u16 LE][item_id: u16 LE][count: u16 LE]`.
#[derive(Debug, Clone)]
pub struct BuyItemPacket {
    pub npc_id: u16,
    pub item_id: u16,
    pub count: u16,
}

impl BuyItemPacket {
    pub fn new(npc_id: u16, item_id: u16, count: u16) -> (r: Self)
        ensures
            r.npc_id == npc_id,
            r.item_id == item_id,
            r.count == count,
    {
        BuyItemPacket { npc_id, item_id, count }
    }
}

impl Packet for BuyItemPacket {
    open spec fn spec_id(&self) -> u16 {
        ClientOpcode::BuyItem.spec_id()
    }

    open spec fn spec_payload(&self) -> Seq<u8> {
        le16(self.npc_id) + le16(self.item_id) + le16(self.count)
    }

    fn packet_id(&self) -> (id: u16) {
        ClientOpcode::BuyItem.id()
    }

    fn encode(&self) -> (r: Result<Vec<u8>, NetError>) {
        let mut p: Vec<u8> = Vec::new();
        push_u16(&mut p, self.npc_id);
        push_u16(&mut p, self.item_id);
        push_u16(&mut p, self.count);
        proof {
            assert(p@ =~= self.spec_payload());
        }
        PacketCodec::encode(self.packet_id(), p.as_slice())
    }
}

/// Sell to an NPC (client to server).
/// Payload: `[slot: u8][item_uid: u32 LE][count: u16 LE]`.
#[derive(Debug, Clone)]
pub struct SellItemPacket {
    pub slot: u8,
    pub item_uid: u32,
    pub count: u16,
}

impl SellItemPacket {
    pub fn new(slot: u8, item_uid: u32, count: u16) -> (r: Self)
        ensures
            r.slot == slot,
            r.item_uid == item_uid,
            r.count == count,
    {
        SellItemPacket { slot, item_uid, count }
    }
}

impl Packet for SellItemPacket {
    open spec fn spec_id(&self) -> u16 {
        ClientOpcode::SellItem.spec_id()
    }

    open spec fn spec_payload(&self) -> Seq<u8> {
        seq![self.slot] + le32(self.item_uid) + le16(self.count)
    }

    fn packet_id(&self) -> (id: u16) {
        ClientOpcode::SellItem.id()
    }

    fn encode(&self) -> (r: Result<Vec<u8>, NetError>) {
        let mut p: Vec<u8> = Vec::new();
        p.push(self.slot);
        push_u32(&mut p, self.item_uid);
        push_u16(&mut p, self.count);
        proof {
            assert(p@ =~= self.spec_payload());
        }
        PacketCodec::encode(self.packet_id(), p.as_slice())
    }
}

/// The item-move payload is the source slot then the target slot, one byte
/// each.
pub proof fn law_move_item_layout(p: MoveItemPacket)
    ensures
        p.spec_payload() == seq![p.grid_from, p.grid_to],
{
    assert(p.spec_payload() =~= seq![p.grid_from, p.grid_to]);
}

} // verus!
