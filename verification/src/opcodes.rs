//! Packet identifiers of the protocol.
use vstd::prelude::*;

verus! {

/// Identifiers of packets sent by the client.
#[derive(Debug, Clone, Copy, PartialEq, Eq, Structural)]
pub enum ClientOpcode {
    ClientVersion,
    Disconnect,
    KeepAlive,
    NewAccount,
    ChangePassword,
    Login,
    NewCharacter,
    DeleteCharacter,
    StartGame,
    LogOut,
    Turn,
    Walk,
    Run,
    Chat,
    MoveItem,
    PickUp,
    ChangeAMode,
    Attack,
    CallNPC,
    BuyItem,
    SellItem,
}

impl ClientOpcode {
    /// The opcode's number on the wire.
    pub open spec fn spec_id(self) -> u16 {
        match self {
            ClientOpcode::ClientVersion => 0,
            ClientOpcode::Disconnect => 1,
            ClientOpcode::KeepAlive => 2,
            ClientOpcode::NewAccount => 3,
            ClientOpcode::ChangePassword => 4,
            ClientOpcode::Login => 5,
            ClientOpcode::NewCharacter => 6,
            ClientOpcode::DeleteCharacter => 7,
            ClientOpcode::StartGame => 8,
            ClientOpcode::LogOut => 9,
            ClientOpcode::Turn => 10,
            ClientOpcode::Walk => 11,
            ClientOpcode::Run => 12,
            ClientOpcode::Chat => 13,
            ClientOpcode::MoveItem => 14,
            ClientOpcode::PickUp => 33,
            ClientOpcode::ChangeAMode => 35,
            ClientOpcode::Attack => 38,
            ClientOpcode::CallNPC => 41,
            ClientOpcode::BuyItem => 43,
            ClientOpcode::SellItem => 44,
        }
    }

    /// The numeric packet id.
    pub fn id(self) -> (r: u16)
        ensures
            r == self.spec_id(),
    {
        match self {
            ClientOpcode::ClientVersion => 0,
            ClientOpcode::Disconnect => 1,
            ClientOpcode::KeepAlive => 2,
            ClientOpcode::NewAccount => 3,
            ClientOpcode::ChangePassword => 4,
            ClientOpcode::Login => 5,
            ClientOpcode::NewCharacter => 6,
            ClientOpcode::DeleteCharacter => 7,
            ClientOpcode::StartGame => 8,
            ClientOpcode::LogOut => 9,
            ClientOpcode::Turn => 10,
            ClientOpcode::Walk => 11,
            ClientOpcode::Run => 12,
            ClientOpcode::Chat => 13,
            ClientOpcode::MoveItem => 14,
            ClientOpcode::PickUp => 33,
            ClientOpcode::ChangeAMode => 35,
            ClientOpcode::Attack => 38,
            ClientOpcode::CallNPC => 41,
            ClientOpcode::BuyItem => 43,
            ClientOpcode::SellItem => 44,
        }
    }
}

/// Identifiers of packets sent by the server.
#[derive(Debug, Clone, Copy, PartialEq, Eq, Structural)]
pub enum ServerOpcode {
    Connected,
    ClientVersion,
    Disconnect,
    KeepAlive,
    NewAccount,
    ChangePassword,
    ChangePasswordBanned,
    Login,
    LoginBanned,
    LoginSuccess,
    NewCharacter,
    NewCharacterSuccess,
    DeleteCharacter,
    DeleteCharacterSuccess,
    StartGame,
    StartGameBanned,
    StartGameDelay,
    MapInformation,
    UserLocation,
    ObjectPlayer,
    ObjectRemove,
    ObjectTurn,
    ObjectWalk,
    Chat,
    ObjectAttack,
    ObjectStruck,
    DamageIndicator,
    Death,
    ObjectDied,
    GainedItem,
    ObjectItem,
    ObjectMonster,
    GainExperience,
    LevelChanged,
    HealthChanged,
    MapChanged,
    TimeOfDay,
    NPCResponse,
    NPCGoods,
    SendOutputMessage,
}

impl ServerOpcode {
    /// The opcode's number on the wire.
    pub open spec fn spec_id(self) -> u16 {
        match self {
            ServerOpcode::Connected => 0,
            ServerOpcode::ClientVersion => 1,
            ServerOpcode::Disconnect => 2,
            ServerOpcode::KeepAlive => 3,
            ServerOpcode::NewAccount => 4,
            ServerOpcode::ChangePassword => 5,
            ServerOpcode::ChangePasswordBanned => 6,
            ServerOpcode::Login => 7,
            ServerOpcode::LoginBanned => 8,
            ServerOpcode::LoginSuccess => 9,
            ServerOpcode::NewCharacter => 10,
            ServerOpcode::NewCharacterSuccess => 11,
            ServerOpcode::DeleteCharacter => 12,
            ServerOpcode::DeleteCharacterSuccess => 13,
            ServerOpcode::StartGame => 14,
            ServerOpcode::StartGameBanned => 15,
            ServerOpcode::StartGameDelay => 16,
            ServerOpcode::MapInformation => 17,
            ServerOpcode::UserLocation => 21,
            ServerOpcode::ObjectPlayer => 22,
            ServerOpcode::ObjectRemove => 23,
            ServerOpcode::ObjectTurn => 24,
            ServerOpcode::ObjectWalk => 25,
            ServerOpcode::Chat => 27,
            ServerOpcode::ObjectAttack => 37,
            ServerOpcode::ObjectStruck => 39,
            ServerOpcode::DamageIndicator => 40,
            ServerOpcode::Death => 44,
            ServerOpcode::ObjectDied => 45,
            ServerOpcode::GainedItem => 48,
            ServerOpcode::ObjectItem => 50,
            ServerOpcode::ObjectMonster => 54,
            ServerOpcode::GainExperience => 58,
            ServerOpcode::LevelChanged => 59,
            ServerOpcode::HealthChanged => 62,
            ServerOpcode::MapChanged => 66,
            ServerOpcode::TimeOfDay => 70,
            ServerOpcode::NPCResponse => 81,
            ServerOpcode::NPCGoods => 84,
            ServerOpcode::SendOutputMessage => 96,
        }
    }

    /// The numeric packet id.
    pub fn id(self) -> (r: u16)
        ensures
            r == self.spec_id(),
    {
        match self {
            ServerOpcode::Connected => 0,
            ServerOpcode::ClientVersion => 1,
            ServerOpcode::Disconnect => 2,
            ServerOpcode::KeepAlive => 3,
            ServerOpcode::NewAccount => 4,
            ServerOpcode::ChangePassword => 5,
            ServerOpcode::ChangePasswordBanned => 6,
            ServerOpcode::Login => 7,
            ServerOpcode::LoginBanned => 8,
            ServerOpcode::LoginSuccess => 9,
            ServerOpcode::NewCharacter => 10,
            ServerOpcode::NewCharacterSuccess => 11,
            ServerOpcode::DeleteCharacter => 12,
            ServerOpcode::DeleteCharacterSuccess => 13,
            ServerOpcode::StartGame => 14,
            ServerOpcode::StartGameBanned => 15,
            ServerOpcode::StartGameDelay => 16,
            ServerOpcode::MapInformation => 17,
            ServerOpcode::UserLocation => 21,
            ServerOpcode::ObjectPlayer => 22,
            ServerOpcode::ObjectRemove => 23,
            ServerOpcode::ObjectTurn => 24,
            ServerOpcode::ObjectWalk => 25,
            ServerOpcode::Chat => 27,
            ServerOpcode::ObjectAttack => 37,
            ServerOpcode::ObjectStruck => 39,
            ServerOpcode::DamageIndicator => 40,
            ServerOpcode::Death => 44,
            ServerOpcode::ObjectDied => 45,
            ServerOpcode::GainedItem => 48,
            ServerOpcode::ObjectItem => 50,
            ServerOpcode::ObjectMonster => 54,
            ServerOpcode::GainExperience => 58,
            ServerOpcode::LevelChanged => 59,
            ServerOpcode::HealthChanged => 62,
            ServerOpcode::MapChanged => 66,
            ServerOpcode::TimeOfDay => 70,
            ServerOpcode::NPCResponse => 81,
            ServerOpcode::NPCGoods => 84,
            ServerOpcode::SendOutputMessage => 96,
        }
    }
}

} // verus!
