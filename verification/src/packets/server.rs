//! Packets sent by the server.
use vstd::prelude::*;
use vstd::utf8::encode_utf8;
use crate::bytes::{
    i32_at, le16, le32, le64, le_i32, lemma_i32_at, lemma_u16_at, lemma_u32_at, lemma_u64_at, push_i32, push_str16, push_u16,
    push_u32, push_u64, str16, u16_at, u32_at, u64_at,
};
use crate::enums::{ChatType, MirClass, MirDirection, MirGender};
use crate::error::NetError;
use crate::opcodes::ServerOpcode;
use crate::packets::{Packet, PacketCodec};
use crate::types::Point;

verus! {

/// Heartbeat reply (server to client). Empty payload.
#[derive(Debug, Clone)]
pub struct ServerKeepAlivePacket;

impl Packet for ServerKeepAlivePacket {
    open spec fn spec_id(&self) -> u16 {
        ServerOpcode::KeepAlive.spec_id()
    }

    open spec fn spec_payload(&self) -> Seq<u8> {
        Seq::empty()
    }

    fn packet_id(&self) -> (id: u16) {
        ServerOpcode::KeepAlive.id()
    }

    fn encode(&self) -> (r: Result<Vec<u8>, NetError>) {
        let mut p: Vec<u8> = Vec::new();
        proof {
            assert(p@ =~= self.spec_payload());
        }
        PacketCodec::encode(self.packet_id(), p.as_slice())
    }
}

/// Connected (server to client); starts the client handshake. Empty payload.
#[derive(Debug, Clone)]
pub struct ServerConnectedPacket;

impl Packet for ServerConnectedPacket {
    open spec fn spec_id(&self) -> u16 {
        ServerOpcode::Connected.spec_id()
    }

    open spec fn spec_payload(&self) -> Seq<u8> {
        Seq::empty()
    }

    fn packet_id(&self) -> (id: u16) {
        ServerOpcode::Connected.id()
    }

    fn encode(&self) -> (r: Result<Vec<u8>, NetError>) {
        let mut p: Vec<u8> = Vec::new();
        proof {
            assert(p@ =~= self.spec_payload());
        }
        PacketCodec::encode(self.packet_id(), p.as_slice())
    }
}

/// Disconnect (server to client). Payload: `[reason: u8]`.
#[derive(Debug, Clone)]
pub struct DisconnectPacket {
    pub reason: u8,
}

impl DisconnectPacket {
    pub fn new(reason: u8) -> (r: Self)
        ensures
            r.reason == reason,
    {
        DisconnectPacket { reason }
    }
}

impl Packet for DisconnectPacket {
    open spec fn spec_id(&self) -> u16 {
        ServerOpcode::Disconnect.spec_id()
    }

    open spec fn spec_payload(&self) -> Seq<u8> {
        seq![self.reason]
    }

    fn packet_id(&self) -> (id: u16) {
        ServerOpcode::Disconnect.id()
    }

    fn encode(&self) -> (r: Result<Vec<u8>, NetError>) {
        let mut p: Vec<u8> = Vec::new();
        p.push(self.reason);
        proof {
            assert(p@ =~= self.spec_payload());
        }
        PacketCodec::encode(self.packet_id(), p.as_slice())
    }
}

/// Player location (server to client).
/// Payload: `[x: i32 LE][y: i32 LE][direction: u8]`.
#[derive(Debug, Clone)]
pub struct UserLocationPacket {
    pub location: Point,
    pub direction: MirDirection,
}

impl UserLocationPacket {
    pub fn new(location: Point, direction: MirDirection) -> (r: Self)
        ensures
            r.location == location,
            r.direction == direction,
    {
        UserLocationPacket { location, direction }
    }
}

impl Packet for UserLocationPacket {
    open spec fn spec_id(&self) -> u16 {
        ServerOpcode::UserLocation.spec_id()
    }

    open spec fn spec_payload(&self) -> Seq<u8> {
        (le_i32(self.location.x) + le_i32(self.location.y)) + seq![self.direction.spec_code()]
    }

    fn packet_id(&self) -> (id: u16) {
        ServerOpcode::UserLocation.id()
    }

    fn encode(&self) -> (r: Result<Vec<u8>, NetError>) {
        let mut p: Vec<u8> = Vec::new();
        push_i32(&mut p, self.location.x);
        push_i32(&mut p, self.location.y);
        p.push(self.direction.code());
        proof {
            assert(p@ =~= self.spec_payload());
        }
        PacketCodec::encode(self.packet_id(), p.as_slice())
    }
}

/// A player object (server to client).
/// Payload: `[object_id: u32 LE][len: u16 LE][name][class: u8][gender: u8][x: i32 LE][y: i32 LE][direction: u8]`.
#[derive(Debug, Clone)]
pub struct ObjectPlayerPacket {
    pub object_id: u32,
    pub name: String,
    pub class: MirClass,
    pub gender: MirGender,
    pub location: Point,
    pub direction: MirDirection,
}

impl ObjectPlayerPacket {
    pub fn new(object_id: u32, name: String, class: MirClass, gender: MirGender, location: Point, direction: MirDirection) -> (r: Self)
        ensures
            r.object_id == object_id,
            r.name == name,
            r.class == class,
            r.gender == gender,
            r.location == location,
            r.direction == direction,
    {
        ObjectPlayerPacket { object_id, name, class, gender, location, direction }
    }
}

impl Packet for ObjectPlayerPacket {
    open spec fn spec_id(&self) -> u16 {
        ServerOpcode::ObjectPlayer.spec_id()
    }

    open spec fn spec_payload(&self) -> Seq<u8> {
        le32(self.object_id) + str16(self.name@) + seq![self.class.spec_code()] + seq![self.gender.spec_code()] + (le_i32(self.location.x) + le_i32(self.location.y)) + seq![self.direction.spec_code()]
    }

    fn packet_id(&self) -> (id: u16) {
        ServerOpcode::ObjectPlayer.id()
    }

    fn encode(&self) -> (r: Result<Vec<u8>, NetError>) {
        let mut p: Vec<u8> = Vec::new();
        push_u32(&mut p, self.object_id);
        push_str16(&mut p, self.name.as_str());
        p.push(self.class.code());
        p.push(self.gender.code());
        push_i32(&mut p, self.location.x);
        push_i32(&mut p, self.location.y);
        p.push(self.direction.code());
        proof {
            assert(p@ =~= self.spec_payload());
        }
        PacketCodec::encode(self.packet_id(), p.as_slice())
    }
}

/// Remove an object (server to client). Payload: `[object_id: u32 LE]`.
#[derive(Debug, Clone)]
pub struct ObjectRemovePacket {
    pub object_id: u32,
}

impl ObjectRemovePacket {
    pub fn new(object_id: u32) -> (r: Self)
        ensures
            r.object_id == object_id,
    {
        ObjectRemovePacket { object_id }
    }
}

impl Packet for ObjectRemovePacket {
    open spec fn spec_id(&self) -> u16 {
        ServerOpcode::ObjectRemove.spec_id()
    }

    open spec fn spec_payload(&self) -> Seq<u8> {
        le32(self.object_id)
    }

    fn packet_id(&self) -> (id: u16) {
        ServerOpcode::ObjectRemove.id()
    }

    fn encode(&self) -> (r: Result<Vec<u8>, NetError>) {
        let mut p: Vec<u8> = Vec::new();
        push_u32(&mut p, self.object_id);
        proof {
            assert(p@ =~= self.spec_payload());
        }
        PacketCodec::encode(self.packet_id(), p.as_slice())
    }
}

/// Chat line (server to client). Payload: `[len: u16 LE][message][chat_type: u8]`.
#[derive(Debug, Clone)]
pub struct ServerChatPacket {
    pub message: String,
    pub chat_type: ChatType,
}

impl ServerChatPacket {
    pub fn new(message: String, chat_type: ChatType) -> (r: Self)
        ensures
            r.message == message,
            r.chat_type == chat_type,
    {
        ServerChatPacket { message, chat_type }
    }
}

impl Packet for ServerChatPacket {
    open spec fn spec_id(&self) -> u16 {
        ServerOpcode::Chat.spec_id()
    }

    open spec fn spec_payload(&self) -> Seq<u8> {
        str16(self.message@) + seq![self.chat_type.spec_code()]
    }

    fn packet_id(&self) -> (id: u16) {
        ServerOpcode::Chat.id()
    }

    fn encode(&self) -> (r: Result<Vec<u8>, NetError>) {
        let mut p: Vec<u8> = Vec::new();
        push_str16(&mut p, self.message.as_str());
        p.push(self.chat_type.code());
        proof {
            assert(p@ =~= self.spec_payload());
        }
        PacketCodec::encode(self.packet_id(), p.as_slice())
    }
}

/// Game message (server to client).
/// Payload: `[len: u16 LE][message][chat_type: u8][type: u8]`.
#[derive(Debug, Clone)]
pub struct GameMessagePacket {
    pub message: String,
    pub chat_type: ChatType,
    pub message_type: u8,
}

impl GameMessagePacket {
    pub fn new(message: String, chat_type: ChatType, message_type: u8) -> (r: Self)
        ensures
            r.message == message,
            r.chat_type == chat_type,
            r.message_type == message_type,
    {
        GameMessagePacket { message, chat_type, message_type }
    }
}

impl Packet for GameMessagePacket {
    open spec fn spec_id(&self) -> u16 {
        ServerOpcode::SendOutputMessage.spec_id()
    }

    open spec fn spec_payload(&self) -> Seq<u8> {
        str16(self.message@) + seq![self.chat_type.spec_code()] + seq![self.message_type]
    }

    fn packet_id(&self) -> (id: u16) {
        ServerOpcode::SendOutputMessage.id()
    }

    fn encode(&self) -> (r: Result<Vec<u8>, NetError>) {
        let mut p: Vec<u8> = Vec::new();
        push_str16(&mut p, self.message.as_str());
        p.push(self.chat_type.code());
        p.push(self.message_type);
        proof {
            assert(p@ =~= self.spec_payload());
        }
        PacketCodec::encode(self.packet_id(), p.as_slice())
    }
}

/// Map information (server to client).
/// Payload: `[map_id: u16 LE][width: u16 LE][height: u16 LE][len: u16 LE][title][len: u16 LE][filename]`.
#[derive(Debug, Clone)]
pub struct MapInformationPacket {
    pub map_id: u16,
    pub width: u16,
    pub height: u16,
    pub title: String,
    pub filename: String,
}

impl MapInformationPacket {
    pub fn new(map_id: u16, width: u16, height: u16, title: String, filename: String) -> (r: Self)
        ensures
            r.map_id == map_id,
            r.width == width,
            r.height == height,
            r.title == title,
            r.filename == filename,
    {
        MapInformationPacket { map_id, width, height, title, filename }
    }
}

impl Packet for MapInformationPacket {
    open spec fn spec_id(&self) -> u16 {
        ServerOpcode::MapInformation.spec_id()
    }

    open spec fn spec_payload(&self) -> Seq<u8> {
        le16(self.map_id) + le16(self.width) + le16(self.height) + str16(self.title@) + str16(self.filename@)
    }

    fn packet_id(&self) -> (id: u16) {
        ServerOpcode::MapInformation.id()
    }

    fn encode(&self) -> (r: Result<Vec<u8>, NetError>) {
        let mut p: Vec<u8> = Vec::new();
        push_u16(&mut p, self.map_id);
        push_u16(&mut p, self.width);
        push_u16(&mut p, self.height);
        push_str16(&mut p, self.title.as_str());
        push_str16(&mut p, self.filename.as_str());
        proof {
            assert(p@ =~= self.spec_payload());
        }
        PacketCodec::encode(self.packet_id(), p.as_slice())
    }
}

/// Time of day (server to client). Payload: `[light: u8]`.
#[derive(Debug, Clone)]
pub struct TimeOfDayPacket {
    pub light: u8,
}

impl TimeOfDayPacket {
    pub fn new(light: u8) -> (r: Self)
        ensures
            r.light == light,
    {
        TimeOfDayPacket { light }
    }
}

impl Packet for TimeOfDayPacket {
    open spec fn spec_id(&self) -> u16 {
        ServerOpcode::TimeOfDay.spec_id()
    }

    open spec fn spec_payload(&self) -> Seq<u8> {
        seq![self.light]
    }

    fn packet_id(&self) -> (id: u16) {
        ServerOpcode::TimeOfDay.id()
    }

    fn encode(&self) -> (r: Result<Vec<u8>, NetError>) {
        let mut p: Vec<u8> = Vec::new();
        p.push(self.light);
        proof {
            assert(p@ =~= self.spec_payload());
        }
        PacketCodec::encode(self.packet_id(), p.as_slice())
    }
}

/// Login result (server to client). Payload: `[result: u8]`:
/// 0 success, 1 failure, 2 no such account, 3 wrong password.
#[derive(Debug, Clone)]
pub struct LoginResponsePacket {
    pub result: u8,
}

impl LoginResponsePacket {
    pub fn new(result: u8) -> (r: Self)
        ensures
            r.result == result,
    {
        LoginResponsePacket { result }
    }
}

impl Packet for LoginResponsePacket {
    open spec fn spec_id(&self) -> u16 {
        ServerOpcode::Login.spec_id()
    }

    open spec fn spec_payload(&self) -> Seq<u8> {
        seq![self.result]
    }

    fn packet_id(&self) -> (id: u16) {
        ServerOpcode::Login.id()
    }

    fn encode(&self) -> (r: Result<Vec<u8>, NetError>) {
        let mut p: Vec<u8> = Vec::new();
        p.push(self.result);
        proof {
            assert(p@ =~= self.spec_payload());
        }
        PacketCodec::encode(self.packet_id(), p.as_slice())
    }
}

/// Login refused, account banned (server to client). Empty payload.
#[derive(Debug, Clone)]
pub struct LoginBannedPacket;

impl Packet for LoginBannedPacket {
    open spec fn spec_id(&self) -> u16 {
        ServerOpcode::LoginBanned.spec_id()
    }

    open spec fn spec_payload(&self) -> Seq<u8> {
        Seq::empty()
    }

    fn packet_id(&self) -> (id: u16) {
        ServerOpcode::LoginBanned.id()
    }

    fn encode(&self) -> (r: Result<Vec<u8>, NetError>) {
        let mut p: Vec<u8> = Vec::new();
        proof {
            assert(p@ =~= self.spec_payload());
        }
        PacketCodec::encode(self.packet_id(), p.as_slice())
    }
}

/// Login succeeded (server to client). Payload: `[account_id: u32 LE][char_count: u8]`.
#[derive(Debug, Clone)]
pub struct LoginSuccessPacket {
    pub account_id: u32,
    pub char_count: u8,
}

impl LoginSuccessPacket {
    pub fn new(account_id: u32, char_count: u8) -> (r: Self)
        ensures
            r.account_id == account_id,
            r.char_count == char_count,
    {
        LoginSuccessPacket { account_id, char_count }
    }
}

impl Packet for LoginSuccessPacket {
    open spec fn spec_id(&self) -> u16 {
        ServerOpcode::LoginSuccess.spec_id()
    }

    open spec fn spec_payload(&self) -> Seq<u8> {
        le32(self.account_id) + seq![self.char_count]
    }

    fn packet_id(&self) -> (id: u16) {
        ServerOpcode::LoginSuccess.id()
    }

    fn encode(&self) -> (r: Result<Vec<u8>, NetError>) {
        let mut p: Vec<u8> = Vec::new();
        push_u32(&mut p, self.account_id);
        p.push(self.char_count);
        proof {
            assert(p@ =~= self.spec_payload());
        }
        PacketCodec::encode(self.packet_id(), p.as_slice())
    }
}

/// Character creation result (server to client). Payload: `[result: u8]`.
#[derive(Debug, Clone)]
pub struct NewCharacterResponsePacket {
    pub result: u8,
}

impl NewCharacterResponsePacket {
    pub fn new(result: u8) -> (r: Self)
        ensures
            r.result == result,
    {
        NewCharacterResponsePacket { result }
    }
}

impl Packet for NewCharacterResponsePacket {
    open spec fn spec_id(&self) -> u16 {
        ServerOpcode::NewCharacter.spec_id()
    }

    open spec fn spec_payload(&self) -> Seq<u8> {
        seq![self.result]
    }

    fn packet_id(&self) -> (id: u16) {
        ServerOpcode::NewCharacter.id()
    }

    fn encode(&self) -> (r: Result<Vec<u8>, NetError>) {
        let mut p: Vec<u8> = Vec::new();
        p.push(self.result);
        proof {
            assert(p@ =~= self.spec_payload());
        }
        PacketCodec::encode(self.packet_id(), p.as_slice())
    }
}

/// A character of the account (server to client).
/// Payload: `[len: u16 LE][name][class: u8][gender: u8][level: u16 LE][hp: u32 LE][mp: u32 LE][max_hp: u32 LE][max_mp: u32 LE][char_id: u32 LE]`.
#[derive(Debug, Clone)]
pub struct NewCharacterSuccessPacket {
    pub name: String,
    pub class: u8,
    pub gender: u8,
    pub level: u16,
    pub hp: u32,
    pub mp: u32,
    pub max_hp: u32,
    pub max_mp: u32,
    pub char_id: u32,
}

impl NewCharacterSuccessPacket {
    pub fn new(name: String, class: u8, gender: u8, level: u16, hp: u32, mp: u32, max_hp: u32, max_mp: u32) -> (r: Self)
        ensures
            r.name == name,
            r.class == class,
            r.gender == gender,
            r.level == level,
            r.hp == hp,
            r.mp == mp,
            r.max_hp == max_hp,
            r.max_mp == max_mp,
            r.char_id == 0,
    {
        NewCharacterSuccessPacket { name, class, gender, level, hp, mp, max_hp, max_mp, char_id: 0 }
    }
}

impl NewCharacterSuccessPacket {
    /// Sets the character id, keeping every other field.
    pub fn with_id(self, char_id: u32) -> (r: Self)
        ensures
            r.char_id == char_id,
            r.name == self.name && r.class == self.class && r.gender == self.gender,
            r.level == self.level && r.hp == self.hp && r.mp == self.mp,
            r.max_hp == self.max_hp && r.max_mp == self.max_mp,
    {
        let mut s = self;
        s.char_id = char_id;
        s
    }
}

impl Packet for NewCharacterSuccessPacket {
    open spec fn spec_id(&self) -> u16 {
        ServerOpcode::NewCharacterSuccess.spec_id()
    }

    open spec fn spec_payload(&self) -> Seq<u8> {
        str16(self.name@) + seq![self.class] + seq![self.gender] + le16(self.level) + le32(self.hp) + le32(self.mp) + le32(self.max_hp) + le32(self.max_mp) + le32(self.char_id)
    }

    fn packet_id(&self) -> (id: u16) {
        ServerOpcode::NewCharacterSuccess.id()
    }

    fn encode(&self) -> (r: Result<Vec<u8>, NetError>) {
        let mut p: Vec<u8> = Vec::new();
        push_str16(&mut p, self.name.as_str());
        p.push(self.class);
        p.push(self.gender);
        push_u16(&mut p, self.level);
        push_u32(&mut p, self.hp);
        push_u32(&mut p, self.mp);
        push_u32(&mut p, self.max_hp);
        push_u32(&mut p, self.max_mp);
        push_u32(&mut p, self.char_id);
        proof {
            assert(p@ =~= self.spec_payload());
        }
        PacketCodec::encode(self.packet_id(), p.as_slice())
    }
}

/// Character deletion result (server to client). Payload: `[result: u8]`.
#[derive(Debug, Clone)]
pub struct DeleteCharacterResponsePacket {
    pub result: u8,
}

impl DeleteCharacterResponsePacket {
    pub fn new(result: u8) -> (r: Self)
        ensures
            r.result == result,
    {
        DeleteCharacterResponsePacket { result }
    }
}

impl Packet for DeleteCharacterResponsePacket {
    open spec fn spec_id(&self) -> u16 {
        ServerOpcode::DeleteCharacter.spec_id()
    }

    open spec fn spec_payload(&self) -> Seq<u8> {
        seq![self.result]
    }

    fn packet_id(&self) -> (id: u16) {
        ServerOpcode::DeleteCharacter.id()
    }

    fn encode(&self) -> (r: Result<Vec<u8>, NetError>) {
        let mut p: Vec<u8> = Vec::new();
        p.push(self.result);
        proof {
            assert(p@ =~= self.spec_payload());
        }
        PacketCodec::encode(self.packet_id(), p.as_slice())
    }
}

/// Character deleted (server to client). Payload: `[char_index: u32 LE]`.
#[derive(Debug, Clone)]
pub struct DeleteCharacterSuccessPacket {
    pub char_index: u32,
}

impl DeleteCharacterSuccessPacket {
    pub fn new(char_index: u32) -> (r: Self)
        ensures
            r.char_index == char_index,
    {
        DeleteCharacterSuccessPacket { char_index }
    }
}

impl Packet for DeleteCharacterSuccessPacket {
    open spec fn spec_id(&self) -> u16 {
        ServerOpcode::DeleteCharacterSuccess.spec_id()
    }

    open spec fn spec_payload(&self) -> Seq<u8> {
        le32(self.char_index)
    }

    fn packet_id(&self) -> (id: u16) {
        ServerOpcode::DeleteCharacterSuccess.id()
    }

    fn encode(&self) -> (r: Result<Vec<u8>, NetError>) {
        let mut p: Vec<u8> = Vec::new();
        push_u32(&mut p, self.char_index);
        proof {
            assert(p@ =~= self.spec_payload());
        }
        PacketCodec::encode(self.packet_id(), p.as_slice())
    }
}

/// Start game result (server to client). Payload: `[result: u8]`.
#[derive(Debug, Clone)]
pub struct StartGameResponsePacket {
    pub result: u8,
}

impl StartGameResponsePacket {
    pub fn new(result: u8) -> (r: Self)
        ensures
            r.result == result,
    {
        StartGameResponsePacket { result }
    }
}

impl Packet for StartGameResponsePacket {
    open spec fn spec_id(&self) -> u16 {
        ServerOpcode::StartGame.spec_id()
    }

    open spec fn spec_payload(&self) -> Seq<u8> {
        seq![self.result]
    }

    fn packet_id(&self) -> (id: u16) {
        ServerOpcode::StartGame.id()
    }

    fn encode(&self) -> (r: Result<Vec<u8>, NetError>) {
        let mut p: Vec<u8> = Vec::new();
        p.push(self.result);
        proof {
            assert(p@ =~= self.spec_payload());
        }
        PacketCodec::encode(self.packet_id(), p.as_slice())
    }
}

/// Start game refused (server to client). Payload: `[len: u16 LE][reason]`.
#[derive(Debug, Clone)]
pub struct StartGameBannedPacket {
    pub reason: String,
}

impl StartGameBannedPacket {
    pub fn new(reason: String) -> (r: Self)
        ensures
            r.reason == reason,
    {
        StartGameBannedPacket { reason }
    }
}

impl Packet for StartGameBannedPacket {
    open spec fn spec_id(&self) -> u16 {
        ServerOpcode::StartGameBanned.spec_id()
    }

    open spec fn spec_payload(&self) -> Seq<u8> {
        str16(self.reason@)
    }

    fn packet_id(&self) -> (id: u16) {
        ServerOpcode::StartGameBanned.id()
    }

    fn encode(&self) -> (r: Result<Vec<u8>, NetError>) {
        let mut p: Vec<u8> = Vec::new();
        push_str16(&mut p, self.reason.as_str());
        proof {
            assert(p@ =~= self.spec_payload());
        }
        PacketCodec::encode(self.packet_id(), p.as_slice())
    }
}

/// Start game delayed (server to client). Payload: `[seconds: u32 LE]`.
#[derive(Debug, Clone)]
pub struct StartGameDelayPacket {
    pub seconds: u32,
}

impl StartGameDelayPacket {
    pub fn new(seconds: u32) -> (r: Self)
        ensures
            r.seconds == seconds,
    {
        StartGameDelayPacket { seconds }
    }
}

impl Packet for StartGameDelayPacket {
    open spec fn spec_id(&self) -> u16 {
        ServerOpcode::StartGameDelay.spec_id()
    }

    open spec fn spec_payload(&self) -> Seq<u8> {
        le32(self.seconds)
    }

    fn packet_id(&self) -> (id: u16) {
        ServerOpcode::StartGameDelay.id()
    }

    fn encode(&self) -> (r: Result<Vec<u8>, NetError>) {
        let mut p: Vec<u8> = Vec::new();
        push_u32(&mut p, self.seconds);
        proof {
            assert(p@ =~= self.spec_payload());
        }
        PacketCodec::encode(self.packet_id(), p.as_slice())
    }
}

/// Account creation result (server to client). Payload: `[result: u8]`.
#[derive(Debug, Clone)]
pub struct NewAccountResponsePacket {
    pub result: u8,
}

impl NewAccountResponsePacket {
    pub fn new(result: u8) -> (r: Self)
        ensures
            r.result == result,
    {
        NewAccountResponsePacket { result }
    }
}

impl Packet for NewAccountResponsePacket {
    open spec fn spec_id(&self) -> u16 {
        ServerOpcode::NewAccount.spec_id()
    }

    open spec fn spec_payload(&self) -> Seq<u8> {
        seq![self.result]
    }

    fn packet_id(&self) -> (id: u16) {
        ServerOpcode::NewAccount.id()
    }

    fn encode(&self) -> (r: Result<Vec<u8>, NetError>) {
        let mut p: Vec<u8> = Vec::new();
        p.push(self.result);
        proof {
            assert(p@ =~= self.spec_payload());
        }
        PacketCodec::encode(self.packet_id(), p.as_slice())
    }
}

/// Password change result (server to client). Payload: `[result: u8]`.
#[derive(Debug, Clone)]
pub struct ChangePasswordResponsePacket {
    pub result: u8,
}

impl ChangePasswordResponsePacket {
    pub fn new(result: u8) -> (r: Self)
        ensures
            r.result == result,
    {
        ChangePasswordResponsePacket { result }
    }
}

impl Packet for ChangePasswordResponsePacket {
    open spec fn spec_id(&self) -> u16 {
        ServerOpcode::ChangePassword.spec_id()
    }

    open spec fn spec_payload(&self) -> Seq<u8> {
        seq![self.result]
    }

    fn packet_id(&self) -> (id: u16) {
        ServerOpcode::ChangePassword.id()
    }

    fn encode(&self) -> (r: Result<Vec<u8>, NetError>) {
        let mut p: Vec<u8> = Vec::new();
        p.push(self.result);
        proof {
            assert(p@ =~= self.spec_payload());
        }
        PacketCodec::encode(self.packet_id(), p.as_slice())
    }
}

/// Password change refused (server to client). Empty payload.
#[derive(Debug, Clone)]
pub struct ChangePasswordBannedPacket;

impl Packet for ChangePasswordBannedPacket {
    open spec fn spec_id(&self) -> u16 {
        ServerOpcode::ChangePasswordBanned.spec_id()
    }

    open spec fn spec_payload(&self) -> Seq<u8> {
        Seq::empty()
    }

    fn packet_id(&self) -> (id: u16) {
        ServerOpcode::ChangePasswordBanned.id()
    }

    fn encode(&self) -> (r: Result<Vec<u8>, NetError>) {
        let mut p: Vec<u8> = Vec::new();
        proof {
            assert(p@ =~= self.spec_payload());
        }
        PacketCodec::encode(self.packet_id(), p.as_slice())
    }
}

/// An object walked (server to client).
/// Payload: `[object_id: u32 LE][x: i32 LE][y: i32 LE][direction: u8]`.
#[derive(Debug, Clone)]
pub struct ObjectWalkPacket {
    pub object_id: u32,
    pub location: Point,
    pub direction: MirDirection,
}

impl ObjectWalkPacket {
    pub fn new(object_id: u32, location: Point, direction: MirDirection) -> (r: Self)
        ensures
            r.object_id == object_id,
            r.location == location,
            r.direction == direction,
    {
        ObjectWalkPacket { object_id, location, direction }
    }
}

impl Packet for ObjectWalkPacket {
    open spec fn spec_id(&self) -> u16 {
        ServerOpcode::ObjectWalk.spec_id()
    }

    open spec fn spec_payload(&self) -> Seq<u8> {
        le32(self.object_id) + (le_i32(self.location.x) + le_i32(self.location.y)) + seq![self.direction.spec_code()]
    }

    fn packet_id(&self) -> (id: u16) {
        ServerOpcode::ObjectWalk.id()
    }

    fn encode(&self) -> (r: Result<Vec<u8>, NetError>) {
        let mut p: Vec<u8> = Vec::new();
        push_u32(&mut p, self.object_id);
        push_i32(&mut p, self.location.x);
        push_i32(&mut p, self.location.y);
        p.push(self.direction.code());
        proof {
            assert(p@ =~= self.spec_payload());
        }
        PacketCodec::encode(self.packet_id(), p.as_slice())
    }
}

/// An object turned (server to client). Payload: `[object_id: u32 LE][direction: u8]`.
#[derive(Debug, Clone)]
pub struct ObjectTurnPacket {
    pub object_id: u32,
    pub direction: MirDirection,
}

impl ObjectTurnPacket {
    pub fn new(object_id: u32, direction: MirDirection) -> (r: Self)
        ensures
            r.object_id == object_id,
            r.direction == direction,
    {
        ObjectTurnPacket { object_id, direction }
    }
}

impl Packet for ObjectTurnPacket {
    open spec fn spec_id(&self) -> u16 {
        ServerOpcode::ObjectTurn.spec_id()
    }

    open spec fn spec_payload(&self) -> Seq<u8> {
        le32(self.object_id) + seq![self.direction.spec_code()]
    }

    fn packet_id(&self) -> (id: u16) {
        ServerOpcode::ObjectTurn.id()
    }

    fn encode(&self) -> (r: Result<Vec<u8>, NetError>) {
        let mut p: Vec<u8> = Vec::new();
        push_u32(&mut p, self.object_id);
        p.push(self.direction.code());
        proof {
            assert(p@ =~= self.spec_payload());
        }
        PacketCodec::encode(self.packet_id(), p.as_slice())
    }
}

/// An object attacked (server to client).
/// Payload: `[object_id: u32 LE][direction: u8][spell: u8]`.
#[derive(Debug, Clone)]
pub struct ObjectAttackPacket {
    pub object_id: u32,
    pub direction: MirDirection,
    pub spell: u8,
}

impl ObjectAttackPacket {
    pub fn new(object_id: u32, direction: MirDirection, spell: u8) -> (r: Self)
        ensures
            r.object_id == object_id,
            r.direction == direction,
            r.spell == spell,
    {
        ObjectAttackPacket { object_id, direction, spell }
    }
}

impl Packet for ObjectAttackPacket {
    open spec fn spec_id(&self) -> u16 {
        ServerOpcode::ObjectAttack.spec_id()
    }

    open spec fn spec_payload(&self) -> Seq<u8> {
        le32(self.object_id) + seq![self.direction.spec_code()] + seq![self.spell]
    }

    fn packet_id(&self) -> (id: u16) {
        ServerOpcode::ObjectAttack.id()
    }

    fn encode(&self) -> (r: Result<Vec<u8>, NetError>) {
        let mut p: Vec<u8> = Vec::new();
        push_u32(&mut p, self.object_id);
        p.push(self.direction.code());
        p.push(self.spell);
        proof {
            assert(p@ =~= self.spec_payload());
        }
        PacketCodec::encode(self.packet_id(), p.as_slice())
    }
}

/// An object was struck (server to client).
/// Payload: `[object_id: u32 LE][attacker_id: u32 LE]`.
#[derive(Debug, Clone)]
pub struct ObjectStruckPacket {
    pub object_id: u32,
    pub attacker_id: u32,
}

impl ObjectStruckPacket {
    pub fn new(object_id: u32, attacker_id: u32) -> (r: Self)
        ensures
            r.object_id == object_id,
            r.attacker_id == attacker_id,
    {
        ObjectStruckPacket { object_id, attacker_id }
    }
}

impl Packet for ObjectStruckPacket {
    open spec fn spec_id(&self) -> u16 {
        ServerOpcode::ObjectStruck.spec_id()
    }

    open spec fn spec_payload(&self) -> Seq<u8> {
        le32(self.object_id) + le32(self.attacker_id)
    }

    fn packet_id(&self) -> (id: u16) {
        ServerOpcode::ObjectStruck.id()
    }

    fn encode(&self) -> (r: Result<Vec<u8>, NetError>) {
        let mut p: Vec<u8> = Vec::new();
        push_u32(&mut p, self.object_id);
        push_u32(&mut p, self.attacker_id);
        proof {
            assert(p@ =~= self.spec_payload());
        }
        PacketCodec::encode(self.packet_id(), p.as_slice())
    }
}

/// Damage shown over an object (server to client).
/// Payload: `[object_id: u32 LE][damage: u32 LE][damage_type: u8]`.
#[derive(Debug, Clone)]
pub struct DamageIndicatorPacket {
    pub object_id: u32,
    pub damage: u32,
    pub damage_type: u8,
}

impl DamageIndicatorPacket {
    pub fn new(object_id: u32, damage: u32, damage_type: u8) -> (r: Self)
        ensures
            r.object_id == object_id,
            r.damage == damage,
            r.damage_type == damage_type,
    {
        DamageIndicatorPacket { object_id, damage, damage_type }
    }
}

impl Packet for DamageIndicatorPacket {
    open spec fn spec_id(&self) -> u16 {
        ServerOpcode::DamageIndicator.spec_id()
    }

    open spec fn spec_payload(&self) -> Seq<u8> {
        le32(self.object_id) + le32(self.damage) + seq![self.damage_type]
    }

    fn packet_id(&self) -> (id: u16) {
        ServerOpcode::DamageIndicator.id()
    }

    fn encode(&self) -> (r: Result<Vec<u8>, NetError>) {
        let mut p: Vec<u8> = Vec::new();
        push_u32(&mut p, self.object_id);
        push_u32(&mut p, self.damage);
        p.push(self.damage_type);
        proof {
            assert(p@ =~= self.spec_payload());
        }
        PacketCodec::encode(self.packet_id(), p.as_slice())
    }
}

/// An item was picked up (server to client).
/// Payload: `[item_id: u32 LE][len: u16 LE][item_name]`.
#[derive(Debug, Clone)]
pub struct GainedItemPacket {
    pub item_id: u32,
    pub item_name: String,
}

impl GainedItemPacket {
    pub fn new(item_id: u32, item_name: String) -> (r: Self)
        ensures
            r.item_id == item_id,
            r.item_name == item_name,
    {
        GainedItemPacket { item_id, item_name }
    }
}

impl Packet for GainedItemPacket {
    open spec fn spec_id(&self) -> u16 {
        ServerOpcode::GainedItem.spec_id()
    }

    open spec fn spec_payload(&self) -> Seq<u8> {
        le32(self.item_id) + str16(self.item_name@)
    }

    fn packet_id(&self) -> (id: u16) {
        ServerOpcode::GainedItem.id()
    }

    fn encode(&self) -> (r: Result<Vec<u8>, NetError>) {
        let mut p: Vec<u8> = Vec::new();
        push_u32(&mut p, self.item_id);
        push_str16(&mut p, self.item_name.as_str());
        proof {
            assert(p@ =~= self.spec_payload());
        }
        PacketCodec::encode(self.packet_id(), p.as_slice())
    }
}

/// An item lies on the ground (server to client).
/// Payload: `[object_id: u32 LE][item_id: u16 LE][x: i32 LE][y: i32 LE]`.
#[derive(Debug, Clone)]
pub struct ObjectItemPacket {
    pub object_id: u32,
    pub item_id: u16,
    pub location: Point,
}

impl ObjectItemPacket {
    pub fn new(object_id: u32, item_id: u16, location: Point) -> (r: Self)
        ensures
            r.object_id == object_id,
            r.item_id == item_id,
            r.location == location,
    {
        ObjectItemPacket { object_id, item_id, location }
    }
}

impl Packet for ObjectItemPacket {
    open spec fn spec_id(&self) -> u16 {
        ServerOpcode::ObjectItem.spec_id()
    }

    open spec fn spec_payload(&self) -> Seq<u8> {
        le32(self.object_id) + le16(self.item_id) + (le_i32(self.location.x) + le_i32(self.location.y))
    }

    fn packet_id(&self) -> (id: u16) {
        ServerOpcode::ObjectItem.id()
    }

    fn encode(&self) -> (r: Result<Vec<u8>, NetError>) {
        let mut p: Vec<u8> = Vec::new();
        push_u32(&mut p, self.object_id);
        push_u16(&mut p, self.item_id);
        push_i32(&mut p, self.location.x);
        push_i32(&mut p, self.location.y);
        proof {
            assert(p@ =~= self.spec_payload());
        }
        PacketCodec::encode(self.packet_id(), p.as_slice())
    }
}

/// A monster object (server to client).
/// Payload: `[object_id: u32 LE][monster_id: u16 LE][len: u16 LE][name][x: i32 LE][y: i32 LE][direction: u8][max_hp: u32 LE]`.
#[derive(Debug, Clone)]
pub struct ObjectMonsterPacket {
    pub object_id: u32,
    pub monster_id: u16,
    pub name: String,
    pub location: Point,
    pub direction: MirDirection,
    pub max_hp: u32,
}

impl ObjectMonsterPacket {
    pub fn new(object_id: u32, monster_id: u16, name: String, location: Point, direction: MirDirection, max_hp: u32) -> (r: Self)
        ensures
            r.object_id == object_id,
            r.monster_id == monster_id,
            r.name == name,
            r.location == location,
            r.direction == direction,
            r.max_hp == max_hp,
    {
        ObjectMonsterPacket { object_id, monster_id, name, location, direction, max_hp }
    }
}

impl Packet for ObjectMonsterPacket {
    open spec fn spec_id(&self) -> u16 {
        ServerOpcode::ObjectMonster.spec_id()
    }

    open spec fn spec_payload(&self) -> Seq<u8> {
        le32(self.object_id) + le16(self.monster_id) + str16(self.name@) + (le_i32(self.location.x) + le_i32(self.location.y)) + seq![self.direction.spec_code()] + le32(self.max_hp)
    }

    fn packet_id(&self) -> (id: u16) {
        ServerOpcode::ObjectMonster.id()
    }

    fn encode(&self) -> (r: Result<Vec<u8>, NetError>) {
        let mut p: Vec<u8> = Vec::new();
        push_u32(&mut p, self.object_id);
        push_u16(&mut p, self.monster_id);
        push_str16(&mut p, self.name.as_str());
        push_i32(&mut p, self.location.x);
        push_i32(&mut p, self.location.y);
        p.push(self.direction.code());
        push_u32(&mut p, self.max_hp);
        proof {
            assert(p@ =~= self.spec_payload());
        }
        PacketCodec::encode(self.packet_id(), p.as_slice())
    }
}

/// Experience gained (server to client). Payload: `[amount: u32 LE]`.
#[derive(Debug, Clone)]
pub struct GainExperiencePacket {
    pub amount: u32,
}

impl GainExperiencePacket {
    pub fn new(amount: u32) -> (r: Self)
        ensures
            r.amount == amount,
    {
        GainExperiencePacket { amount }
    }
}

impl Packet for GainExperiencePacket {
    open spec fn spec_id(&self) -> u16 {
        ServerOpcode::GainExperience.spec_id()
    }

    open spec fn spec_payload(&self) -> Seq<u8> {
        le32(self.amount)
    }

    fn packet_id(&self) -> (id: u16) {
        ServerOpcode::GainExperience.id()
    }

    fn encode(&self) -> (r: Result<Vec<u8>, NetError>) {
        let mut p: Vec<u8> = Vec::new();
        push_u32(&mut p, self.amount);
        proof {
            assert(p@ =~= self.spec_payload());
        }
        PacketCodec::encode(self.packet_id(), p.as_slice())
    }
}

/// The player died (server to client). Payload: `[object_id: u32 LE]`.
#[derive(Debug, Clone)]
pub struct DeathPacket {
    pub object_id: u32,
}

impl DeathPacket {
    pub fn new(object_id: u32) -> (r: Self)
        ensures
            r.object_id == object_id,
    {
        DeathPacket { object_id }
    }
}

impl Packet for DeathPacket {
    open spec fn spec_id(&self) -> u16 {
        ServerOpcode::Death.spec_id()
    }

    open spec fn spec_payload(&self) -> Seq<u8> {
        le32(self.object_id)
    }

    fn packet_id(&self) -> (id: u16) {
        ServerOpcode::Death.id()
    }

    fn encode(&self) -> (r: Result<Vec<u8>, NetError>) {
        let mut p: Vec<u8> = Vec::new();
        push_u32(&mut p, self.object_id);
        proof {
            assert(p@ =~= self.spec_payload());
        }
        PacketCodec::encode(self.packet_id(), p.as_slice())
    }
}

/// An object died (server to client). Payload: `[object_id: u32 LE]`.
#[derive(Debug, Clone)]
pub struct ObjectDiedPacket {
    pub object_id: u32,
}

impl ObjectDiedPacket {
    pub fn new(object_id: u32) -> (r: Self)
        ensures
            r.object_id == object_id,
    {
        ObjectDiedPacket { object_id }
    }
}

impl Packet for ObjectDiedPacket {
    open spec fn spec_id(&self) -> u16 {
        ServerOpcode::ObjectDied.spec_id()
    }

    open spec fn spec_payload(&self) -> Seq<u8> {
        le32(self.object_id)
    }

    fn packet_id(&self) -> (id: u16) {
        ServerOpcode::ObjectDied.id()
    }

    fn encode(&self) -> (r: Result<Vec<u8>, NetError>) {
        let mut p: Vec<u8> = Vec::new();
        push_u32(&mut p, self.object_id);
        proof {
            assert(p@ =~= self.spec_payload());
        }
        PacketCodec::encode(self.packet_id(), p.as_slice())
    }
}

/// The player changed map (server to client). Payload: `[map_id: u16 LE]`.
#[derive(Debug, Clone)]
pub struct MapChangedPacket {
    pub map_id: u16,
}

impl MapChangedPacket {
    pub fn new(map_id: u16) -> (r: Self)
        ensures
            r.map_id == map_id,
    {
        MapChangedPacket { map_id }
    }
}

impl Packet for MapChangedPacket {
    open spec fn spec_id(&self) -> u16 {
        ServerOpcode::MapChanged.spec_id()
    }

    open spec fn spec_payload(&self) -> Seq<u8> {
        le16(self.map_id)
    }

    fn packet_id(&self) -> (id: u16) {
        ServerOpcode::MapChanged.id()
    }

    fn encode(&self) -> (r: Result<Vec<u8>, NetError>) {
        let mut p: Vec<u8> = Vec::new();
        push_u16(&mut p, self.map_id);
        proof {
            assert(p@ =~= self.spec_payload());
        }
        PacketCodec::encode(self.packet_id(), p.as_slice())
    }
}

/// Level changed (server to client). Payload: `[level: u16 LE][experience: u64 LE]`.
#[derive(Debug, Clone)]
pub struct LevelChangedPacket {
    pub level: u16,
    pub experience: u64,
}

impl LevelChangedPacket {
    pub fn new(level: u16, experience: u64) -> (r: Self)
        ensures
            r.level == level,
            r.experience == experience,
    {
        LevelChangedPacket { level, experience }
    }
}

impl Packet for LevelChangedPacket {
    open spec fn spec_id(&self) -> u16 {
        ServerOpcode::LevelChanged.spec_id()
    }

    open spec fn spec_payload(&self) -> Seq<u8> {
        le16(self.level) + le64(self.experience)
    }

    fn packet_id(&self) -> (id: u16) {
        ServerOpcode::LevelChanged.id()
    }

    fn encode(&self) -> (r: Result<Vec<u8>, NetError>) {
        let mut p: Vec<u8> = Vec::new();
        push_u16(&mut p, self.level);
        push_u64(&mut p, self.experience);
        proof {
            assert(p@ =~= self.spec_payload());
        }
        PacketCodec::encode(self.packet_id(), p.as_slice())
    }
}

/// Health changed (server to client). Payload: `[hp: u32 LE][max_hp: u32 LE]`.
#[derive(Debug, Clone)]
pub struct HealthChangedPacket {
    pub hp: u32,
    pub max_hp: u32,
}

impl HealthChangedPacket {
    pub fn new(hp: u32, max_hp: u32) -> (r: Self)
        ensures
            r.hp == hp,
            r.max_hp == max_hp,
    {
        HealthChangedPacket { hp, max_hp }
    }
}

impl Packet for HealthChangedPacket {
    open spec fn spec_id(&self) -> u16 {
        ServerOpcode::HealthChanged.spec_id()
    }

    open spec fn spec_payload(&self) -> Seq<u8> {
        le32(self.hp) + le32(self.max_hp)
    }

    fn packet_id(&self) -> (id: u16) {
        ServerOpcode::HealthChanged.id()
    }

    fn encode(&self) -> (r: Result<Vec<u8>, NetError>) {
        let mut p: Vec<u8> = Vec::new();
        push_u32(&mut p, self.hp);
        push_u32(&mut p, self.max_hp);
        proof {
            assert(p@ =~= self.spec_payload());
        }
        PacketCodec::encode(self.packet_id(), p.as_slice())
    }
}

/// NPC reply (server to client). Payload: `[response: u8]`.
#[derive(Debug, Clone)]
pub struct NPCResponsePacket {
    pub response: u8,
}

impl NPCResponsePacket {
    pub fn new(response: u8) -> (r: Self)
        ensures
            r.response == response,
    {
        NPCResponsePacket { response }
    }
}

impl Packet for NPCResponsePacket {
    open spec fn spec_id(&self) -> u16 {
        ServerOpcode::NPCResponse.spec_id()
    }

    open spec fn spec_payload(&self) -> Seq<u8> {
        seq![self.response]
    }

    fn packet_id(&self) -> (id: u16) {
        ServerOpcode::NPCResponse.id()
    }

    fn encode(&self) -> (r: Result<Vec<u8>, NetError>) {
        let mut p: Vec<u8> = Vec::new();
        p.push(self.response);
        proof {
            assert(p@ =~= self.spec_payload());
        }
        PacketCodec::encode(self.packet_id(), p.as_slice())
    }
}

/// An item an NPC sells.
#[derive(Debug, Clone)]
pub struct NPCGoodsItem {
    pub item_id: u16,
    pub price: u32,
    pub name: String,
}

/// Encoding of one goods entry: `[item_id: u16 LE][price: u32 LE][len: u16 LE][name]`.
pub open spec fn goods_entry(g: NPCGoodsItem) -> Seq<u8> {
    le16(g.item_id) + le32(g.price) + str16(g.name@)
}

/// Encoding of the first `n` goods entries, in order.
pub open spec fn goods_entries(goods: Seq<NPCGoodsItem>, n: int) -> Seq<u8>
    decreases n,
{
    if n <= 0 {
        Seq::empty()
    } else {
        goods_entries(goods, n - 1) + goods_entry(goods[n - 1])
    }
}

/// The goods list of an NPC (server to client).
/// Payload: `[npc_id: u16 LE][count: u16 LE]` then, per item,
/// `[item_id: u16 LE][price: u32 LE][len: u16 LE][name]`.
#[derive(Debug, Clone)]
pub struct NPCGoodsPacket {
    pub npc_id: u16,
    pub goods: Vec<NPCGoodsItem>,
}

impl NPCGoodsPacket {
    pub fn new(npc_id: u16, goods: Vec<NPCGoodsItem>) -> (r: Self)
        ensures
            r.npc_id == npc_id,
            r.goods@ == goods@,
    {
        NPCGoodsPacket { npc_id, goods }
    }
}

impl Packet for NPCGoodsPacket {
    open spec fn spec_id(&self) -> u16 {
        ServerOpcode::NPCGoods.spec_id()
    }

    open spec fn spec_payload(&self) -> Seq<u8> {
        le16(self.npc_id) + le16((self.goods@.len() % 65536) as u16) + goods_entries(
            self.goods@,
            self.goods@.len() as int,
        )
    }

    fn packet_id(&self) -> (id: u16) {
        ServerOpcode::NPCGoods.id()
    }

    fn encode(&self) -> (r: Result<Vec<u8>, NetError>) {
        let mut p: Vec<u8> = Vec::new();
        push_u16(&mut p, self.npc_id);
        push_u16(&mut p, (self.goods.len() % 65536) as u16);
        let ghost head = p@;
        let mut i: usize = 0;
        while i < self.goods.len()
            invariant
                i <= self.goods@.len(),
                p@ == head + goods_entries(self.goods@, i as int),
            decreases self.goods@.len() - i,
        {
            let item = &self.goods[i];
            push_u16(&mut p, item.item_id);
            push_u32(&mut p, item.price);
            push_str16(&mut p, item.name.as_str());
            i = i + 1;
        }
        proof {
            assert(p@ =~= self.spec_payload());
        }
        PacketCodec::encode(self.packet_id(), p.as_slice())
    }
}

/// The user-location payload holds the x coordinate in bytes 0..4, the y
/// coordinate in bytes 4..8 (little-endian `i32`s) and the direction code
/// in byte 8, and nothing more.
pub proof fn law_user_location_layout(p: UserLocationPacket)
    ensures
        p.spec_payload().len() == 9,
        i32_at(p.spec_payload(), 0) == p.location.x,
        i32_at(p.spec_payload(), 4) == p.location.y,
        p.spec_payload()[8] == p.direction.spec_code(),
{
    let s = p.spec_payload();
    assert(s.subrange(0, 4) =~= le_i32(p.location.x));
    assert(s.subrange(4, 8) =~= le_i32(p.location.y));
    lemma_i32_at(s, 0, p.location.x);
    lemma_i32_at(s, 4, p.location.y);
}

/// The `ObjectPlayerPacket` payload holds, in order and with nothing more:
/// object id, name, class code, gender code, x, y, direction code,
/// each at the offset its predecessors leave (integers little-endian, text
/// as a byte count then its UTF-8 bytes).
pub proof fn law_object_player_layout(p: ObjectPlayerPacket)
    ensures
        ({
            let s = p.spec_payload();
            let n0 = encode_utf8(p.name@).len() as int;
            &&& s.len() == n0 + 17
            &&& u32_at(s, 0) == p.object_id
            &&& u16_at(s, 4) == (n0 % 65536) as u16
            &&& s.subrange(6, n0 + 6) == encode_utf8(p.name@)
            &&& s[n0 + 6] == p.class.spec_code()
            &&& s[n0 + 7] == p.gender.spec_code()
            &&& i32_at(s, n0 + 8) == p.location.x
            &&& i32_at(s, n0 + 12) == p.location.y
            &&& s[n0 + 16] == p.direction.spec_code()
        }),
{
    let s = p.spec_payload();
    let n0 = encode_utf8(p.name@).len() as int;
    assert(s.subrange(0, 4) =~= le32(p.object_id));
    lemma_u32_at(s, 0, p.object_id);
    assert(s.subrange(4, 6) =~= le16((n0 % 65536) as u16));
    lemma_u16_at(s, 4, (n0 % 65536) as u16);
    assert(s.subrange(6, n0 + 6) =~= encode_utf8(p.name@));
    assert(s.subrange(n0 + 8, n0 + 12) =~= le_i32(p.location.x));
    lemma_i32_at(s, n0 + 8, p.location.x);
    assert(s.subrange(n0 + 12, n0 + 16) =~= le_i32(p.location.y));
    lemma_i32_at(s, n0 + 12, p.location.y);
}

/// The `ObjectRemovePacket` payload holds, in order and with nothing more:
/// object id,
/// each at the offset its predecessors leave (integers little-endian, text
/// as a byte count then its UTF-8 bytes).
pub proof fn law_object_remove_layout(p: ObjectRemovePacket)
    ensures
        ({
            let s = p.spec_payload();

            &&& s.len() == 4
            &&& u32_at(s, 0) == p.object_id
        }),
{
    let s = p.spec_payload();

    assert(s.subrange(0, 4) =~= le32(p.object_id));
    lemma_u32_at(s, 0, p.object_id);
}

/// The `ServerChatPacket` payload holds, in order and with nothing more:
/// message, chat type code,
/// each at the offset its predecessors leave (integers little-endian, text
/// as a byte count then its UTF-8 bytes).
pub proof fn law_server_chat_layout(p: ServerChatPacket)
    ensures
        ({
            let s = p.spec_payload();
            let n0 = encode_utf8(p.message@).len() as int;
            &&& s.len() == n0 + 3
            &&& u16_at(s, 0) == (n0 % 65536) as u16
            &&& s.subrange(2, n0 + 2) == encode_utf8(p.message@)
            &&& s[n0 + 2] == p.chat_type.spec_code()
        }),
{
    let s = p.spec_payload();
    let n0 = encode_utf8(p.message@).len() as int;
    assert(s.subrange(0, 2) =~= le16((n0 % 65536) as u16));
    lemma_u16_at(s, 0, (n0 % 65536) as u16);
    assert(s.subrange(2, n0 + 2) =~= encode_utf8(p.message@));
}

/// The `GameMessagePacket` payload holds, in order and with nothing more:
/// message, chat type code, message type,
/// each at the offset its predecessors leave (integers little-endian, text
/// as a byte count then its UTF-8 bytes).
pub proof fn law_game_message_layout(p: GameMessagePacket)
    ensures
        ({
            let s = p.spec_payload();
            let n0 = encode_utf8(p.message@).len() as int;
            &&& s.len() == n0 + 4
            &&& u16_at(s, 0) == (n0 % 65536) as u16
            &&& s.subrange(2, n0 + 2) == encode_utf8(p.message@)
            &&& s[n0 + 2] == p.chat_type.spec_code()
            &&& s[n0 + 3] == p.message_type
        }),
{
    let s = p.spec_payload();
    let n0 = encode_utf8(p.message@).len() as int;
    assert(s.subrange(0, 2) =~= le16((n0 % 65536) as u16));
    lemma_u16_at(s, 0, (n0 % 65536) as u16);
    assert(s.subrange(2, n0 + 2) =~= encode_utf8(p.message@));
}

/// The `MapInformationPacket` payload holds, in order and with nothing more:
/// map id, width, height, title, filename,
/// each at the offset its predecessors leave (integers little-endian, text
/// as a byte count then its UTF-8 bytes).
pub proof fn law_map_information_layout(p: MapInformationPacket)
    ensures
        ({
            let s = p.spec_payload();
            let n0 = encode_utf8(p.title@).len() as int;
            let n1 = encode_utf8(p.filename@).len() as int;
            &&& s.len() == n0 + n1 + 10
            &&& u16_at(s, 0) == p.map_id
            &&& u16_at(s, 2) == p.width
            &&& u16_at(s, 4) == p.height
            &&& u16_at(s, 6) == (n0 % 65536) as u16
            &&& s.subrange(8, n0 + 8) == encode_utf8(p.title@)
            &&& u16_at(s, n0 + 8) == (n1 % 65536) as u16
            &&& s.subrange(n0 + 10, n0 + n1 + 10) == encode_utf8(p.filename@)
        }),
{
    let s = p.spec_payload();
    let n0 = encode_utf8(p.title@).len() as int;
    let n1 = encode_utf8(p.filename@).len() as int;
    assert(s.subrange(0, 2) =~= le16(p.map_id));
    lemma_u16_at(s, 0, p.map_id);
    assert(s.subrange(2, 4) =~= le16(p.width));
    lemma_u16_at(s, 2, p.width);
    assert(s.subrange(4, 6) =~= le16(p.height));
    lemma_u16_at(s, 4, p.height);
    assert(s.subrange(6, 8) =~= le16((n0 % 65536) as u16));
    lemma_u16_at(s, 6, (n0 % 65536) as u16);
    assert(s.subrange(8, n0 + 8) =~= encode_utf8(p.title@));
    assert(s.subrange(n0 + 8, n0 + 10) =~= le16((n1 % 65536) as u16));
    lemma_u16_at(s, n0 + 8, (n1 % 65536) as u16);
    assert(s.subrange(n0 + 10, n0 + n1 + 10) =~= encode_utf8(p.filename@));
}

/// The `LoginSuccessPacket` payload holds, in order and with nothing more:
/// account id, char count,
/// each at the offset its predecessors leave (integers little-endian, text
/// as a byte count then its UTF-8 bytes).
pub proof fn law_login_success_layout(p: LoginSuccessPacket)
    ensures
        ({
            let s = p.spec_payload();

            &&& s.len() == 5
            &&& u32_at(s, 0) == p.account_id
            &&& s[4] == p.char_count
        }),
{
    let s = p.spec_payload();

    assert(s.subrange(0, 4) =~= le32(p.account_id));
    lemma_u32_at(s, 0, p.account_id);
}

/// The `NewCharacterSuccessPacket` payload holds, in order and with nothing more:
/// name, class, gender, level, hp, mp, max hp, max mp, char id,
/// each at the offset its predecessors leave (integers little-endian, text
/// as a byte count then its UTF-8 bytes).
pub proof fn law_new_character_success_layout(p: NewCharacterSuccessPacket)
    ensures
        ({
            let s = p.spec_payload();
            let n0 = encode_utf8(p.name@).len() as int;
            &&& s.len() == n0 + 26
            &&& u16_at(s, 0) == (n0 % 65536) as u16
            &&& s.subrange(2, n0 + 2) == encode_utf8(p.name@)
            &&& s[n0 + 2] == p.class
            &&& s[n0 + 3] == p.gender
            &&& u16_at(s, n0 + 4) == p.level
            &&& u32_at(s, n0 + 6) == p.hp
            &&& u32_at(s, n0 + 10) == p.mp
            &&& u32_at(s, n0 + 14) == p.max_hp
            &&& u32_at(s, n0 + 18) == p.max_mp
            &&& u32_at(s, n0 + 22) == p.char_id
        }),
{
    let s = p.spec_payload();
    let n0 = encode_utf8(p.name@).len() as int;
    assert(s.subrange(0, 2) =~= le16((n0 % 65536) as u16));
    lemma_u16_at(s, 0, (n0 % 65536) as u16);
    assert(s.subrange(2, n0 + 2) =~= encode_utf8(p.name@));
    assert(s.subrange(n0 + 4, n0 + 6) =~= le16(p.level));
    lemma_u16_at(s, n0 + 4, p.level);
    assert(s.subrange(n0 + 6, n0 + 10) =~= le32(p.hp));
    lemma_u32_at(s, n0 + 6, p.hp);
    assert(s.subrange(n0 + 10, n0 + 14) =~= le32(p.mp));
    lemma_u32_at(s, n0 + 10, p.mp);
    assert(s.subrange(n0 + 14, n0 + 18) =~= le32(p.max_hp));
    lemma_u32_at(s, n0 + 14, p.max_hp);
    assert(s.subrange(n0 + 18, n0 + 22) =~= le32(p.max_mp));
    lemma_u32_at(s, n0 + 18, p.max_mp);
    assert(s.subrange(n0 + 22, n0 + 26) =~= le32(p.char_id));
    lemma_u32_at(s, n0 + 22, p.char_id);
}

/// The `DeleteCharacterSuccessPacket` payload holds, in order and with nothing more:
/// char index,
/// each at the offset its predecessors leave (integers little-endian, text
/// as a byte count then its UTF-8 bytes).
pub proof fn law_delete_character_success_layout(p: DeleteCharacterSuccessPacket)
    ensures
        ({
            let s = p.spec_payload();

            &&& s.len() == 4
            &&& u32_at(s, 0) == p.char_index
        }),
{
    let s = p.spec_payload();

    assert(s.subrange(0, 4) =~= le32(p.char_index));
    lemma_u32_at(s, 0, p.char_index);
}

/// The `StartGameBannedPacket` payload holds, in order and with nothing more:
/// reason,
/// each at the offset its predecessors leave (integers little-endian, text
/// as a byte count then its UTF-8 bytes).
pub proof fn law_start_game_banned_layout(p: StartGameBannedPacket)
    ensures
        ({
            let s = p.spec_payload();
            let n0 = encode_utf8(p.reason@).len() as int;
            &&& s.len() == n0 + 2
            &&& u16_at(s, 0) == (n0 % 65536) as u16
            &&& s.subrange(2, n0 + 2) == encode_utf8(p.reason@)
        }),
{
    let s = p.spec_payload();
    let n0 = encode_utf8(p.reason@).len() as int;
    assert(s.subrange(0, 2) =~= le16((n0 % 65536) as u16));
    lemma_u16_at(s, 0, (n0 % 65536) as u16);
    assert(s.subrange(2, n0 + 2) =~= encode_utf8(p.reason@));
}

/// The `StartGameDelayPacket` payload holds, in order and with nothing more:
/// seconds,
/// each at the offset its predecessors leave (integers little-endian, text
/// as a byte count then its UTF-8 bytes).
pub proof fn law_start_game_delay_layout(p: StartGameDelayPacket)
    ensures
        ({
            let s = p.spec_payload();

            &&& s.len() == 4
            &&& u32_at(s, 0) == p.seconds
        }),
{
    let s = p.spec_payload();

    assert(s.subrange(0, 4) =~= le32(p.seconds));
    lemma_u32_at(s, 0, p.seconds);
}

/// The `ObjectWalkPacket` payload holds, in order and with nothing more:
/// object id, x, y, direction code,
/// each at the offset its predecessors leave (integers little-endian, text
/// as a byte count then its UTF-8 bytes).
pub proof fn law_object_walk_layout(p: ObjectWalkPacket)
    ensures
        ({
            let s = p.spec_payload();

            &&& s.len() == 13
            &&& u32_at(s, 0) == p.object_id
            &&& i32_at(s, 4) == p.location.x
            &&& i32_at(s, 8) == p.location.y
            &&& s[12] == p.direction.spec_code()
        }),
{
    let s = p.spec_payload();

    assert(s.subrange(0, 4) =~= le32(p.object_id));
    lemma_u32_at(s, 0, p.object_id);
    assert(s.subrange(4, 8) =~= le_i32(p.location.x));
    lemma_i32_at(s, 4, p.location.x);
    assert(s.subrange(8, 12) =~= le_i32(p.location.y));
    lemma_i32_at(s, 8, p.location.y);
}

/// The `ObjectTurnPacket` payload holds, in order and with nothing more:
/// object id, direction code,
/// each at the offset its predecessors leave (integers little-endian, text
/// as a byte count then its UTF-8 bytes).
pub proof fn law_object_turn_layout(p: ObjectTurnPacket)
    ensures
        ({
            let s = p.spec_payload();

            &&& s.len() == 5
            &&& u32_at(s, 0) == p.object_id
            &&& s[4] == p.direction.spec_code()
        }),
{
    let s = p.spec_payload();

    assert(s.subrange(0, 4) =~= le32(p.object_id));
    lemma_u32_at(s, 0, p.object_id);
}

/// The `ObjectAttackPacket` payload holds, in order and with nothing more:
/// object id, direction code, spell,
/// each at the offset its predecessors leave (integers little-endian, text
/// as a byte count then its UTF-8 bytes).
pub proof fn law_object_attack_layout(p: ObjectAttackPacket)
    ensures
        ({
            let s = p.spec_payload();

            &&& s.len() == 6
            &&& u32_at(s, 0) == p.object_id
            &&& s[4] == p.direction.spec_code()
            &&& s[5] == p.spell
        }),
{
    let s = p.spec_payload();

    assert(s.subrange(0, 4) =~= le32(p.object_id));
    lemma_u32_at(s, 0, p.object_id);
}

/// The `ObjectStruckPacket` payload holds, in order and with nothing more:
/// object id, attacker id,
/// each at the offset its predecessors leave (integers little-endian, text
/// as a byte count then its UTF-8 bytes).
pub proof fn law_object_struck_layout(p: ObjectStruckPacket)
    ensures
        ({
            let s = p.spec_payload();

            &&& s.len() == 8
            &&& u32_at(s, 0) == p.object_id
            &&& u32_at(s, 4) == p.attacker_id
        }),
{
    let s = p.spec_payload();

    assert(s.subrange(0, 4) =~= le32(p.object_id));
    lemma_u32_at(s, 0, p.object_id);
    assert(s.subrange(4, 8) =~= le32(p.attacker_id));
    lemma_u32_at(s, 4, p.attacker_id);
}

/// The `DamageIndicatorPacket` payload holds, in order and with nothing more:
/// object id, damage, damage type,
/// each at the offset its predecessors leave (integers little-endian, text
/// as a byte count then its UTF-8 bytes).
pub proof fn law_damage_indicator_layout(p: DamageIndicatorPacket)
    ensures
        ({
            let s = p.spec_payload();

            &&& s.len() == 9
            &&& u32_at(s, 0) == p.object_id
            &&& u32_at(s, 4) == p.damage
            &&& s[8] == p.damage_type
        }),
{
    let s = p.spec_payload();

    assert(s.subrange(0, 4) =~= le32(p.object_id));
    lemma_u32_at(s, 0, p.object_id);
    assert(s.subrange(4, 8) =~= le32(p.damage));
    lemma_u32_at(s, 4, p.damage);
}

/// The `GainedItemPacket` payload holds, in order and with nothing more:
/// item id, item name,
/// each at the offset its predecessors leave (integers little-endian, text
/// as a byte count then its UTF-8 bytes).
pub proof fn law_gained_item_layout(p: GainedItemPacket)
    ensures
        ({
            let s = p.spec_payload();
            let n0 = encode_utf8(p.item_name@).len() as int;
            &&& s.len() == n0 + 6
            &&& u32_at(s, 0) == p.item_id
            &&& u16_at(s, 4) == (n0 % 65536) as u16
            &&& s.subrange(6, n0 + 6) == encode_utf8(p.item_name@)
        }),
{
    let s = p.spec_payload();
    let n0 = encode_utf8(p.item_name@).len() as int;
    assert(s.subrange(0, 4) =~= le32(p.item_id));
    lemma_u32_at(s, 0, p.item_id);
    assert(s.subrange(4, 6) =~= le16((n0 % 65536) as u16));
    lemma_u16_at(s, 4, (n0 % 65536) as u16);
    assert(s.subrange(6, n0 + 6) =~= encode_utf8(p.item_name@));
}

/// The `ObjectItemPacket` payload holds, in order and with nothing more:
/// object id, item id, x, y,
/// each at the offset its predecessors leave (integers little-endian, text
/// as a byte count then its UTF-8 bytes).
pub proof fn law_object_item_layout(p: ObjectItemPacket)
    ensures
        ({
            let s = p.spec_payload();

            &&& s.len() == 14
            &&& u32_at(s, 0) == p.object_id
            &&& u16_at(s, 4) == p.item_id
            &&& i32_at(s, 6) == p.location.x
            &&& i32_at(s, 10) == p.location.y
        }),
{
    let s = p.spec_payload();

    assert(s.subrange(0, 4) =~= le32(p.object_id));
    lemma_u32_at(s, 0, p.object_id);
    assert(s.subrange(4, 6) =~= le16(p.item_id));
    lemma_u16_at(s, 4, p.item_id);
    assert(s.subrange(6, 10) =~= le_i32(p.location.x));
    lemma_i32_at(s, 6, p.location.x);
    assert(s.subrange(10, 14) =~= le_i32(p.location.y));
    lemma_i32_at(s, 10, p.location.y);
}

/// The `ObjectMonsterPacket` payload holds, in order and with nothing more:
/// object id, monster id, name, x, y, direction code, max hp,
/// each at the offset its predecessors leave (integers little-endian, text
/// as a byte count then its UTF-8 bytes).
pub proof fn law_object_monster_layout(p: ObjectMonsterPacket)
    ensures
        ({
            let s = p.spec_payload();
            let n0 = encode_utf8(p.name@).len() as int;
            &&& s.len() == n0 + 21
            &&& u32_at(s, 0) == p.object_id
            &&& u16_at(s, 4) == p.monster_id
            &&& u16_at(s, 6) == (n0 % 65536) as u16
            &&& s.subrange(8, n0 + 8) == encode_utf8(p.name@)
            &&& i32_at(s, n0 + 8) == p.location.x
            &&& i32_at(s, n0 + 12) == p.location.y
            &&& s[n0 + 16] == p.direction.spec_code()
            &&& u32_at(s, n0 + 17) == p.max_hp
        }),
{
    let s = p.spec_payload();
    let n0 = encode_utf8(p.name@).len() as int;
    assert(s.subrange(0, 4) =~= le32(p.object_id));
    lemma_u32_at(s, 0, p.object_id);
    assert(s.subrange(4, 6) =~= le16(p.monster_id));
    lemma_u16_at(s, 4, p.monster_id);
    assert(s.subrange(6, 8) =~= le16((n0 % 65536) as u16));
    lemma_u16_at(s, 6, (n0 % 65536) as u16);
    assert(s.subrange(8, n0 + 8) =~= encode_utf8(p.name@));
    assert(s.subrange(n0 + 8, n0 + 12) =~= le_i32(p.location.x));
    lemma_i32_at(s, n0 + 8, p.location.x);
    assert(s.subrange(n0 + 12, n0 + 16) =~= le_i32(p.location.y));
    lemma_i32_at(s, n0 + 12, p.location.y);
    assert(s.subrange(n0 + 17, n0 + 21) =~= le32(p.max_hp));
    lemma_u32_at(s, n0 + 17, p.max_hp);
}

/// The `GainExperiencePacket` payload holds, in order and with nothing more:
/// amount,
/// each at the offset its predecessors leave (integers little-endian, text
/// as a byte count then its UTF-8 bytes).
pub proof fn law_gain_experience_layout(p: GainExperiencePacket)
    ensures
        ({
            let s = p.spec_payload();

            &&& s.len() == 4
            &&& u32_at(s, 0) == p.amount
        }),
{
    let s = p.spec_payload();

    assert(s.subrange(0, 4) =~= le32(p.amount));
    lemma_u32_at(s, 0, p.amount);
}

/// The `DeathPacket` payload holds, in order and with nothing more:
/// object id,
/// each at the offset its predecessors leave (integers little-endian, text
/// as a byte count then its UTF-8 bytes).
pub proof fn law_death_layout(p: DeathPacket)
    ensures
        ({
            let s = p.spec_payload();

            &&& s.len() == 4
            &&& u32_at(s, 0) == p.object_id
        }),
{
    let s = p.spec_payload();

    assert(s.subrange(0, 4) =~= le32(p.object_id));
    lemma_u32_at(s, 0, p.object_id);
}

/// The `ObjectDiedPacket` payload holds, in order and with nothing more:
/// object id,
/// each at the offset its predecessors leave (integers little-endian, text
/// as a byte count then its UTF-8 bytes).
pub proof fn law_object_died_layout(p: ObjectDiedPacket)
    ensures
        ({
            let s = p.spec_payload();

            &&& s.len() == 4
            &&& u32_at(s, 0) == p.object_id
        }),
{
    let s = p.spec_payload();

    assert(s.subrange(0, 4) =~= le32(p.object_id));
    lemma_u32_at(s, 0, p.object_id);
}

/// The `MapChangedPacket` payload holds, in order and with nothing more:
/// map id,
/// each at the offset its predecessors leave (integers little-endian, text
/// as a byte count then its UTF-8 bytes).
pub proof fn law_map_changed_layout(p: MapChangedPacket)
    ensures
        ({
            let s = p.spec_payload();

            &&& s.len() == 2
            &&& u16_at(s, 0) == p.map_id
        }),
{
    let s = p.spec_payload();

    assert(s.subrange(0, 2) =~= le16(p.map_id));
    lemma_u16_at(s, 0, p.map_id);
}

/// The `LevelChangedPacket` payload holds, in order and with nothing more:
/// level, experience,
/// each at the offset its predecessors leave (integers little-endian, text
/// as a byte count then its UTF-8 bytes).
pub proof fn law_level_changed_layout(p: LevelChangedPacket)
    ensures
        ({
            let s = p.spec_payload();

            &&& s.len() == 10
            &&& u16_at(s, 0) == p.level
            &&& u64_at(s, 2) == p.experience
        }),
{
    let s = p.spec_payload();

    assert(s.subrange(0, 2) =~= le16(p.level));
    lemma_u16_at(s, 0, p.level);
    assert(s.subrange(2, 10) =~= le64(p.experience));
    lemma_u64_at(s, 2, p.experience);
}

/// The `HealthChangedPacket` payload holds, in order and with nothing more:
/// hp, max hp,
/// each at the offset its predecessors leave (integers little-endian, text
/// as a byte count then its UTF-8 bytes).
pub proof fn law_health_changed_layout(p: HealthChangedPacket)
    ensures
        ({
            let s = p.spec_payload();

            &&& s.len() == 8
            &&& u32_at(s, 0) == p.hp
            &&& u32_at(s, 4) == p.max_hp
        }),
{
    let s = p.spec_payload();

    assert(s.subrange(0, 4) =~= le32(p.hp));
    lemma_u32_at(s, 0, p.hp);
    assert(s.subrange(4, 8) =~= le32(p.max_hp));
    lemma_u32_at(s, 4, p.max_hp);
}

/// The goods payload starts with the NPC id in bytes 0..2 and the number of
/// goods (modulo 65536) in bytes 2..4; each item then holds its id, its
/// price and its name, in the order the goods are listed.
pub proof fn law_npc_goods_layout(p: NPCGoodsPacket)
    ensures
        ({
            let s = p.spec_payload();
            &&& u16_at(s, 0) == p.npc_id
            &&& u16_at(s, 2) == (p.goods@.len() % 65536) as u16
            &&& s.subrange(4, s.len() as int) == goods_entries(p.goods@, p.goods@.len() as int)
        }),
{
    let s = p.spec_payload();
    assert(s.subrange(0, 2) =~= le16(p.npc_id));
    lemma_u16_at(s, 0, p.npc_id);
    assert(s.subrange(2, 4) =~= le16((p.goods@.len() % 65536) as u16));
    lemma_u16_at(s, 2, (p.goods@.len() % 65536) as u16);
    assert(s.subrange(4, s.len() as int) =~= goods_entries(p.goods@, p.goods@.len() as int));
}

/// One goods entry holds the item id in bytes 0..2, the price in bytes
/// 2..6, then its name as a byte count and its UTF-8 bytes.
pub proof fn law_goods_entry_layout(g: NPCGoodsItem)
    ensures
        ({
            let s = goods_entry(g);
            let n = encode_utf8(g.name@).len() as int;
            &&& s.len() == n + 8
            &&& u16_at(s, 0) == g.item_id
            &&& u32_at(s, 2) == g.price
            &&& u16_at(s, 6) == (n % 65536) as u16
            &&& s.subrange(8, n + 8) == encode_utf8(g.name@)
        }),
{
    let s = goods_entry(g);
    let n = encode_utf8(g.name@).len() as int;
    assert(s.subrange(0, 2) =~= le16(g.item_id));
    lemma_u16_at(s, 0, g.item_id);
    assert(s.subrange(2, 6) =~= le32(g.price));
    lemma_u32_at(s, 2, g.price);
    assert(s.subrange(6, 8) =~= le16((n % 65536) as u16));
    lemma_u16_at(s, 6, (n % 65536) as u16);
    assert(s.subrange(8, n + 8) =~= encode_utf8(g.name@));
}

} // verus!
