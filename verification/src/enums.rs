//! Enumerations shared by client and server, each with its wire value.
use vstd::prelude::*;

verus! {

/// 职业
#[derive(Debug, Clone, Copy, PartialEq, Eq, Hash, Structural)]
pub enum MirClass {
    Warrior,
    Wizard,
    Taoist,
    Assassin,
    Archer,
}

impl MirClass {
    /// The wire value of each variant.
    pub open spec fn spec_code(self) -> u8 {
        match self {
            MirClass::Warrior => 0,
            MirClass::Wizard => 1,
            MirClass::Taoist => 2,
            MirClass::Assassin => 3,
            MirClass::Archer => 4,
        }
    }

    /// The variant whose wire value is `v`, if any.
    pub open spec fn spec_from_code(v: u8) -> Option<Self> {
        if v == 0 { Some(MirClass::Warrior) }
        else if v == 1 { Some(MirClass::Wizard) }
        else if v == 2 { Some(MirClass::Taoist) }
        else if v == 3 { Some(MirClass::Assassin) }
        else if v == 4 { Some(MirClass::Archer) }
        else { None }
    }

    /// Returns the wire value; reading it back gives this variant.
    pub fn code(self) -> (r: u8)
        ensures
            r == self.spec_code(),
            Self::spec_from_code(r) == Some(self),
    {
        match self {
            MirClass::Warrior => 0,
            MirClass::Wizard => 1,
            MirClass::Taoist => 2,
            MirClass::Assassin => 3,
            MirClass::Archer => 4,
        }
    }

    /// Reads a wire value: the variant it stands for, `None` for any other value.
    pub fn from_code(v: u8) -> (r: Option<Self>)
        ensures
            r == Self::spec_from_code(v),
            r matches Some(e) ==> e.spec_code() == v,
    {
        if v == 0 { Some(MirClass::Warrior) }
        else if v == 1 { Some(MirClass::Wizard) }
        else if v == 2 { Some(MirClass::Taoist) }
        else if v == 3 { Some(MirClass::Assassin) }
        else if v == 4 { Some(MirClass::Archer) }
        else { None }
    }
}

/// 性别
#[derive(Debug, Clone, Copy, PartialEq, Eq, Hash, Structural)]
pub enum MirGender {
    Male,
    Female,
}

impl MirGender {
    /// The wire value of each variant.
    pub open spec fn spec_code(self) -> u8 {
        match self {
            MirGender::Male => 0,
            MirGender::Female => 1,
        }
    }

    /// The variant whose wire value is `v`, if any.
    pub open spec fn spec_from_code(v: u8) -> Option<Self> {
        if v == 0 { Some(MirGender::Male) }
        else if v == 1 { Some(MirGender::Female) }
        else { None }
    }

    /// Returns the wire value; reading it back gives this variant.
    pub fn code(self) -> (r: u8)
        ensures
            r == self.spec_code(),
            Self::spec_from_code(r) == Some(self),
    {
        match self {
            MirGender::Male => 0,
            MirGender::Female => 1,
        }
    }

    /// Reads a wire value: the variant it stands for, `None` for any other value.
    pub fn from_code(v: u8) -> (r: Option<Self>)
        ensures
            r == Self::spec_from_code(v),
            r matches Some(e) ==> e.spec_code() == v,
    {
        if v == 0 { Some(MirGender::Male) }
        else if v == 1 { Some(MirGender::Female) }
        else { None }
    }
}

/// 方向（8 方向）
#[derive(Debug, Clone, Copy, PartialEq, Eq, Hash, Structural)]
pub enum MirDirection {
    Up,
    UpRight,
    Right,
    DownRight,
    Down,
    DownLeft,
    Left,
    UpLeft,
}

impl MirDirection {
    /// The wire value of each variant.
    pub open spec fn spec_code(self) -> u8 {
        match self {
            MirDirection::Up => 0,
            MirDirection::UpRight => 1,
            MirDirection::Right => 2,
            MirDirection::DownRight => 3,
            MirDirection::Down => 4,
            MirDirection::DownLeft => 5,
            MirDirection::Left => 6,
            MirDirection::UpLeft => 7,
        }
    }

    /// The variant whose wire value is `v`, if any.
    pub open spec fn spec_from_code(v: u8) -> Option<Self> {
        if v == 0 { Some(MirDirection::Up) }
        else if v == 1 { Some(MirDirection::UpRight) }
        else if v == 2 { Some(MirDirection::Right) }
        else if v == 3 { Some(MirDirection::DownRight) }
        else if v == 4 { Some(MirDirection::Down) }
        else if v == 5 { Some(MirDirection::DownLeft) }
        else if v == 6 { Some(MirDirection::Left) }
        else if v == 7 { Some(MirDirection::UpLeft) }
        else { None }
    }

    /// Returns the wire value; reading it back gives this variant.
    pub fn code(self) -> (r: u8)
        ensures
            r == self.spec_code(),
            Self::spec_from_code(r) == Some(self),
    {
        match self {
            MirDirection::Up => 0,
            MirDirection::UpRight => 1,
            MirDirection::Right => 2,
            MirDirection::DownRight => 3,
            MirDirection::Down => 4,
            MirDirection::DownLeft => 5,
            MirDirection::Left => 6,
            MirDirection::UpLeft => 7,
        }
    }

    /// Reads a wire value: the variant it stands for, `None` for any other value.
    pub fn from_code(v: u8) -> (r: Option<Self>)
        ensures
            r == Self::spec_from_code(v),
            r matches Some(e) ==> e.spec_code() == v,
    {
        if v == 0 { Some(MirDirection::Up) }
        else if v == 1 { Some(MirDirection::UpRight) }
        else if v == 2 { Some(MirDirection::Right) }
        else if v == 3 { Some(MirDirection::DownRight) }
        else if v == 4 { Some(MirDirection::Down) }
        else if v == 5 { Some(MirDirection::DownLeft) }
        else if v == 6 { Some(MirDirection::Left) }
        else if v == 7 { Some(MirDirection::UpLeft) }
        else { None }
    }
}

/// 对象类型
#[derive(Debug, Clone, Copy, PartialEq, Eq, Hash, Structural)]
pub enum ObjectType {
    NotSet,
    Player,
    Item,
    Merchant,
    Spell,
    Monster,
    Deco,
    Creature,
    Hero,
}

impl ObjectType {
    /// The wire value of each variant.
    pub open spec fn spec_code(self) -> u8 {
        match self {
            ObjectType::NotSet => 0,
            ObjectType::Player => 1,
            ObjectType::Item => 2,
            ObjectType::Merchant => 3,
            ObjectType::Spell => 4,
            ObjectType::Monster => 5,
            ObjectType::Deco => 6,
            ObjectType::Creature => 7,
            ObjectType::Hero => 8,
        }
    }

    /// The variant whose wire value is `v`, if any.
    pub open spec fn spec_from_code(v: u8) -> Option<Self> {
        if v == 0 { Some(ObjectType::NotSet) }
        else if v == 1 { Some(ObjectType::Player) }
        else if v == 2 { Some(ObjectType::Item) }
        else if v == 3 { Some(ObjectType::Merchant) }
        else if v == 4 { Some(ObjectType::Spell) }
        else if v == 5 { Some(ObjectType::Monster) }
        else if v == 6 { Some(ObjectType::Deco) }
        else if v == 7 { Some(ObjectType::Creature) }
        else if v == 8 { Some(ObjectType::Hero) }
        else { None }
    }

    /// Returns the wire value; reading it back gives this variant.
    pub fn code(self) -> (r: u8)
        ensures
            r == self.spec_code(),
            Self::spec_from_code(r) == Some(self),
    {
        match self {
            ObjectType::NotSet => 0,
            ObjectType::Player => 1,
            ObjectType::Item => 2,
            ObjectType::Merchant => 3,
            ObjectType::Spell => 4,
            ObjectType::Monster => 5,
            ObjectType::Deco => 6,
            ObjectType::Creature => 7,
            ObjectType::Hero => 8,
        }
    }

    /// Reads a wire value: the variant it stands for, `None` for any other value.
    pub fn from_code(v: u8) -> (r: Option<Self>)
        ensures
            r == Self::spec_from_code(v),
            r matches Some(e) ==> e.spec_code() == v,
    {
        if v == 0 { Some(ObjectType::NotSet) }
        else if v == 1 { Some(ObjectType::Player) }
        else if v == 2 { Some(ObjectType::Item) }
        else if v == 3 { Some(ObjectType::Merchant) }
        else if v == 4 { Some(ObjectType::Spell) }
        else if v == 5 { Some(ObjectType::Monster) }
        else if v == 6 { Some(ObjectType::Deco) }
        else if v == 7 { Some(ObjectType::Creature) }
        else if v == 8 { Some(ObjectType::Hero) }
        else { None }
    }
}

/// 动作
#[derive(Debug, Clone, Copy, PartialEq, Eq, Hash, Structural)]
pub enum MirAction {
    Standing,
    Walking,
    Running,
    Pushed,
    DashL,
    DashR,
    DashFail,
    Stance,
    Stance2,
    Attack1,
    Attack2,
    Attack3,
    Attack4,
    Attack5,
    AttackRange1,
    AttackRange2,
    AttackRange3,
    Special,
    Struck,
    Harvest,
    Spell,
    Die,
    Dead,
    Skeleton,
    Show,
    Hide,
    Stoned,
    Appear,
    Revive,
    SitDown,
    Mine,
    Sneek,
    DashAttack,
    Lunge,
    WalkingBow,
    RunningBow,
    Jump,
    MountStanding,
    MountWalking,
    MountRunning,
    MountStruck,
    MountAttack,
    FishingCast,
    FishingWait,
    FishingReel,
}

impl MirAction {
    /// The wire value of each variant.
    pub open spec fn spec_code(self) -> u8 {
        match self {
            MirAction::Standing => 0,
            MirAction::Walking => 1,
            MirAction::Running => 2,
            MirAction::Pushed => 3,
            MirAction::DashL => 4,
            MirAction::DashR => 5,
            MirAction::DashFail => 6,
            MirAction::Stance => 7,
            MirAction::Stance2 => 8,
            MirAction::Attack1 => 9,
            MirAction::Attack2 => 10,
            MirAction::Attack3 => 11,
            MirAction::Attack4 => 12,
            MirAction::Attack5 => 13,
            MirAction::AttackRange1 => 14,
            MirAction::AttackRange2 => 15,
            MirAction::AttackRange3 => 16,
            MirAction::Special => 17,
            MirAction::Struck => 18,
            MirAction::Harvest => 19,
            MirAction::Spell => 20,
            MirAction::Die => 21,
            MirAction::Dead => 22,
            MirAction::Skeleton => 23,
            MirAction::Show => 24,
            MirAction::Hide => 25,
            MirAction::Stoned => 26,
            MirAction::Appear => 27,
            MirAction::Revive => 28,
            MirAction::SitDown => 29,
            MirAction::Mine => 30,
            MirAction::Sneek => 31,
            MirAction::DashAttack => 32,
            MirAction::Lunge => 33,
            MirAction::WalkingBow => 34,
            MirAction::RunningBow => 35,
            MirAction::Jump => 36,
            MirAction::MountStanding => 37,
            MirAction::MountWalking => 38,
            MirAction::MountRunning => 39,
            MirAction::MountStruck => 40,
            MirAction::MountAttack => 41,
            MirAction::FishingCast => 42,
            MirAction::FishingWait => 43,
            MirAction::FishingReel => 44,
        }
    }

    /// The variant whose wire value is `v`, if any.
    pub open spec fn spec_from_code(v: u8) -> Option<Self> {
        if v == 0 { Some(MirAction::Standing) }
        else if v == 1 { Some(MirAction::Walking) }
        else if v == 2 { Some(MirAction::Running) }
        else if v == 3 { Some(MirAction::Pushed) }
        else if v == 4 { Some(MirAction::DashL) }
        else if v == 5 { Some(MirAction::DashR) }
        else if v == 6 { Some(MirAction::DashFail) }
        else if v == 7 { Some(MirAction::Stance) }
        else if v == 8 { Some(MirAction::Stance2) }
        else if v == 9 { Some(MirAction::Attack1) }
        else if v == 10 { Some(MirAction::Attack2) }
        else if v == 11 { Some(MirAction::Attack3) }
        else if v == 12 { Some(MirAction::Attack4) }
        else if v == 13 { Some(MirAction::Attack5) }
        else if v == 14 { Some(MirAction::AttackRange1) }
        else if v == 15 { Some(MirAction::AttackRange2) }
        else if v == 16 { Some(MirAction::AttackRange3) }
        else if v == 17 { Some(MirAction::Special) }
        else if v == 18 { Some(MirAction::Struck) }
        else if v == 19 { Some(MirAction::Harvest) }
        else if v == 20 { Some(MirAction::Spell) }
        else if v == 21 { Some(MirAction::Die) }
        else if v == 22 { Some(MirAction::Dead) }
        else if v == 23 { Some(MirAction::Skeleton) }
        else if v == 24 { Some(MirAction::Show) }
        else if v == 25 { Some(MirAction::Hide) }
        else if v == 26 { Some(MirAction::Stoned) }
        else if v == 27 { Some(MirAction::Appear) }
        else if v == 28 { Some(MirAction::Revive) }
        else if v == 29 { Some(MirAction::SitDown) }
        else if v == 30 { Some(MirAction::Mine) }
        else if v == 31 { Some(MirAction::Sneek) }
        else if v == 32 { Some(MirAction::DashAttack) }
        else if v == 33 { Some(MirAction::Lunge) }
        else if v == 34 { Some(MirAction::WalkingBow) }
        else if v == 35 { Some(MirAction::RunningBow) }
        else if v == 36 { Some(MirAction::Jump) }
        else if v == 37 { Some(MirAction::MountStanding) }
        else if v == 38 { Some(MirAction::MountWalking) }
        else if v == 39 { Some(MirAction::MountRunning) }
        else if v == 40 { Some(MirAction::MountStruck) }
        else if v == 41 { Some(MirAction::MountAttack) }
        else if v == 42 { Some(MirAction::FishingCast) }
        else if v == 43 { Some(MirAction::FishingWait) }
        else if v == 44 { Some(MirAction::FishingReel) }
        else { None }
    }

    /// Returns the wire value; reading it back gives this variant.
    pub fn code(self) -> (r: u8)
        ensures
            r == self.spec_code(),
            Self::spec_from_code(r) == Some(self),
    {
        match self {
            MirAction::Standing => 0,
            MirAction::Walking => 1,
            MirAction::Running => 2,
            MirAction::Pushed => 3,
            MirAction::DashL => 4,
            MirAction::DashR => 5,
            MirAction::DashFail => 6,
            MirAction::Stance => 7,
            MirAction::Stance2 => 8,
            MirAction::Attack1 => 9,
            MirAction::Attack2 => 10,
            MirAction::Attack3 => 11,
            MirAction::Attack4 => 12,
            MirAction::Attack5 => 13,
            MirAction::AttackRange1 => 14,
            MirAction::AttackRange2 => 15,
            MirAction::AttackRange3 => 16,
            MirAction::Special => 17,
            MirAction::Struck => 18,
            MirAction::Harvest => 19,
            MirAction::Spell => 20,
            MirAction::Die => 21,
            MirAction::Dead => 22,
            MirAction::Skeleton => 23,
            MirAction::Show => 24,
            MirAction::Hide => 25,
            MirAction::Stoned => 26,
            MirAction::Appear => 27,
            MirAction::Revive => 28,
            MirAction::SitDown => 29,
            MirAction::Mine => 30,
            MirAction::Sneek => 31,
            MirAction::DashAttack => 32,
            MirAction::Lunge => 33,
            MirAction::WalkingBow => 34,
            MirAction::RunningBow => 35,
            MirAction::Jump => 36,
            MirAction::MountStanding => 37,
            MirAction::MountWalking => 38,
            MirAction::MountRunning => 39,
            MirAction::MountStruck => 40,
            MirAction::MountAttack => 41,
            MirAction::FishingCast => 42,
            MirAction::FishingWait => 43,
            MirAction::FishingReel => 44,
        }
    }

    /// Reads a wire value: the variant it stands for, `None` for any other value.
    pub fn from_code(v: u8) -> (r: Option<Self>)
        ensures
            r == Self::spec_from_code(v),
            r matches Some(e) ==> e.spec_code() == v,
    {
        if v == 0 { Some(MirAction::Standing) }
        else if v == 1 { Some(MirAction::Walking) }
        else if v == 2 { Some(MirAction::Running) }
        else if v == 3 { Some(MirAction::Pushed) }
        else if v == 4 { Some(MirAction::DashL) }
        else if v == 5 { Some(MirAction::DashR) }
        else if v == 6 { Some(MirAction::DashFail) }
        else if v == 7 { Some(MirAction::Stance) }
        else if v == 8 { Some(MirAction::Stance2) }
        else if v == 9 { Some(MirAction::Attack1) }
        else if v == 10 { Some(MirAction::Attack2) }
        else if v == 11 { Some(MirAction::Attack3) }
        else if v == 12 { Some(MirAction::Attack4) }
        else if v == 13 { Some(MirAction::Attack5) }
        else if v == 14 { Some(MirAction::AttackRange1) }
        else if v == 15 { Some(MirAction::AttackRange2) }
        else if v == 16 { Some(MirAction::AttackRange3) }
        else if v == 17 { Some(MirAction::Special) }
        else if v == 18 { Some(MirAction::Struck) }
        else if v == 19 { Some(MirAction::Harvest) }
        else if v == 20 { Some(MirAction::Spell) }
        else if v == 21 { Some(MirAction::Die) }
        else if v == 22 { Some(MirAction::Dead) }
        else if v == 23 { Some(MirAction::Skeleton) }
        else if v == 24 { Some(MirAction::Show) }
        else if v == 25 { Some(MirAction::Hide) }
        else if v == 26 { Some(MirAction::Stoned) }
        else if v == 27 { Some(MirAction::Appear) }
        else if v == 28 { Some(MirAction::Revive) }
        else if v == 29 { Some(MirAction::SitDown) }
        else if v == 30 { Some(MirAction::Mine) }
        else if v == 31 { Some(MirAction::Sneek) }
        else if v == 32 { Some(MirAction::DashAttack) }
        else if v == 33 { Some(MirAction::Lunge) }
        else if v == 34 { Some(MirAction::WalkingBow) }
        else if v == 35 { Some(MirAction::RunningBow) }
        else if v == 36 { Some(MirAction::Jump) }
        else if v == 37 { Some(MirAction::MountStanding) }
        else if v == 38 { Some(MirAction::MountWalking) }
        else if v == 39 { Some(MirAction::MountRunning) }
        else if v == 40 { Some(MirAction::MountStruck) }
        else if v == 41 { Some(MirAction::MountAttack) }
        else if v == 42 { Some(MirAction::FishingCast) }
        else if v == 43 { Some(MirAction::FishingWait) }
        else if v == 44 { Some(MirAction::FishingReel) }
        else { None }
    }
}

/// 格子属性
#[derive(Debug, Clone, Copy, PartialEq, Eq, Hash, Structural)]
pub enum CellAttribute {
    Walk,
    HighWall,
    LowWall,
}

impl CellAttribute {
    /// The wire value of each variant.
    pub open spec fn spec_code(self) -> u8 {
        match self {
            CellAttribute::Walk => 0,
            CellAttribute::HighWall => 1,
            CellAttribute::LowWall => 2,
        }
    }

    /// The variant whose wire value is `v`, if any.
    pub open spec fn spec_from_code(v: u8) -> Option<Self> {
        if v == 0 { Some(CellAttribute::Walk) }
        else if v == 1 { Some(CellAttribute::HighWall) }
        else if v == 2 { Some(CellAttribute::LowWall) }
        else { None }
    }

    /// Returns the wire value; reading it back gives this variant.
    pub fn code(self) -> (r: u8)
        ensures
            r == self.spec_code(),
            Self::spec_from_code(r) == Some(self),
    {
        match self {
            CellAttribute::Walk => 0,
            CellAttribute::HighWall => 1,
            CellAttribute::LowWall => 2,
        }
    }

    /// Reads a wire value: the variant it stands for, `None` for any other value.
    pub fn from_code(v: u8) -> (r: Option<Self>)
        ensures
            r == Self::spec_from_code(v),
            r matches Some(e) ==> e.spec_code() == v,
    {
        if v == 0 { Some(CellAttribute::Walk) }
        else if v == 1 { Some(CellAttribute::HighWall) }
        else if v == 2 { Some(CellAttribute::LowWall) }
        else { None }
    }
}

/// 光照设置
#[derive(Debug, Clone, Copy, PartialEq, Eq, Hash, Structural)]
pub enum LightSetting {
    Normal,
    Dawn,
    Day,
    Evening,
    Night,
}

impl LightSetting {
    /// The wire value of each variant.
    pub open spec fn spec_code(self) -> u8 {
        match self {
            LightSetting::Normal => 0,
            LightSetting::Dawn => 1,
            LightSetting::Day => 2,
            LightSetting::Evening => 3,
            LightSetting::Night => 4,
        }
    }

    /// The variant whose wire value is `v`, if any.
    pub open spec fn spec_from_code(v: u8) -> Option<Self> {
        if v == 0 { Some(LightSetting::Normal) }
        else if v == 1 { Some(LightSetting::Dawn) }
        else if v == 2 { Some(LightSetting::Day) }
        else if v == 3 { Some(LightSetting::Evening) }
        else if v == 4 { Some(LightSetting::Night) }
        else { None }
    }

    /// Returns the wire value; reading it back gives this variant.
    pub fn code(self) -> (r: u8)
        ensures
            r == self.spec_code(),
            Self::spec_from_code(r) == Some(self),
    {
        match self {
            LightSetting::Normal => 0,
            LightSetting::Dawn => 1,
            LightSetting::Day => 2,
            LightSetting::Evening => 3,
            LightSetting::Night => 4,
        }
    }

    /// Reads a wire value: the variant it stands for, `None` for any other value.
    pub fn from_code(v: u8) -> (r: Option<Self>)
        ensures
            r == Self::spec_from_code(v),
            r matches Some(e) ==> e.spec_code() == v,
    {
        if v == 0 { Some(LightSetting::Normal) }
        else if v == 1 { Some(LightSetting::Dawn) }
        else if v == 2 { Some(LightSetting::Day) }
        else if v == 3 { Some(LightSetting::Evening) }
        else if v == 4 { Some(LightSetting::Night) }
        else { None }
    }
}

/// 聊天类型
#[derive(Debug, Clone, Copy, PartialEq, Eq, Hash, Structural)]
pub enum ChatType {
    Normal,
    Shout,
    System,
    Hint,
    Announcement,
    Group,
    WhisperIn,
    WhisperOut,
    Guild,
    Trainer,
    LevelUp,
    System2,
    Relationship,
    Mentor,
    Shout2,
    Shout3,
    LineMessage,
}

impl ChatType {
    /// The wire value of each variant.
    pub open spec fn spec_code(self) -> u8 {
        match self {
            ChatType::Normal => 0,
            ChatType::Shout => 1,
            ChatType::System => 2,
            ChatType::Hint => 3,
            ChatType::Announcement => 4,
            ChatType::Group => 5,
            ChatType::WhisperIn => 6,
            ChatType::WhisperOut => 7,
            ChatType::Guild => 8,
            ChatType::Trainer => 9,
            ChatType::LevelUp => 10,
            ChatType::System2 => 11,
            ChatType::Relationship => 12,
            ChatType::Mentor => 13,
            ChatType::Shout2 => 14,
            ChatType::Shout3 => 15,
            ChatType::LineMessage => 16,
        }
    }

    /// The variant whose wire value is `v`, if any.
    pub open spec fn spec_from_code(v: u8) -> Option<Self> {
        if v == 0 { Some(ChatType::Normal) }
        else if v == 1 { Some(ChatType::Shout) }
        else if v == 2 { Some(ChatType::System) }
        else if v == 3 { Some(ChatType::Hint) }
        else if v == 4 { Some(ChatType::Announcement) }
        else if v == 5 { Some(ChatType::Group) }
        else if v == 6 { Some(ChatType::WhisperIn) }
        else if v == 7 { Some(ChatType::WhisperOut) }
        else if v == 8 { Some(ChatType::Guild) }
        else if v == 9 { Some(ChatType::Trainer) }
        else if v == 10 { Some(ChatType::LevelUp) }
        else if v == 11 { Some(ChatType::System2) }
        else if v == 12 { Some(ChatType::Relationship) }
        else if v == 13 { Some(ChatType::Mentor) }
        else if v == 14 { Some(ChatType::Shout2) }
        else if v == 15 { Some(ChatType::Shout3) }
        else if v == 16 { Some(ChatType::LineMessage) }
        else { None }
    }

    /// Returns the wire value; reading it back gives this variant.
    pub fn code(self) -> (r: u8)
        ensures
            r == self.spec_code(),
            Self::spec_from_code(r) == Some(self),
    {
        match self {
            ChatType::Normal => 0,
            ChatType::Shout => 1,
            ChatType::System => 2,
            ChatType::Hint => 3,
            ChatType::Announcement => 4,
            ChatType::Group => 5,
            ChatType::WhisperIn => 6,
            ChatType::WhisperOut => 7,
            ChatType::Guild => 8,
            ChatType::Trainer => 9,
            ChatType::LevelUp => 10,
            ChatType::System2 => 11,
            ChatType::Relationship => 12,
            ChatType::Mentor => 13,
            ChatType::Shout2 => 14,
            ChatType::Shout3 => 15,
            ChatType::LineMessage => 16,
        }
    }

    /// Reads a wire value: the variant it stands for, `None` for any other value.
    pub fn from_code(v: u8) -> (r: Option<Self>)
        ensures
            r == Self::spec_from_code(v),
            r matches Some(e) ==> e.spec_code() == v,
    {
        if v == 0 { Some(ChatType::Normal) }
        else if v == 1 { Some(ChatType::Shout) }
        else if v == 2 { Some(ChatType::System) }
        else if v == 3 { Some(ChatType::Hint) }
        else if v == 4 { Some(ChatType::Announcement) }
        else if v == 5 { Some(ChatType::Group) }
        else if v == 6 { Some(ChatType::WhisperIn) }
        else if v == 7 { Some(ChatType::WhisperOut) }
        else if v == 8 { Some(ChatType::Guild) }
        else if v == 9 { Some(ChatType::Trainer) }
        else if v == 10 { Some(ChatType::LevelUp) }
        else if v == 11 { Some(ChatType::System2) }
        else if v == 12 { Some(ChatType::Relationship) }
        else if v == 13 { Some(ChatType::Mentor) }
        else if v == 14 { Some(ChatType::Shout2) }
        else if v == 15 { Some(ChatType::Shout3) }
        else if v == 16 { Some(ChatType::LineMessage) }
        else { None }
    }
}

/// 物品类型
#[derive(Debug, Clone, Copy, PartialEq, Eq, Hash, Structural)]
pub enum ItemType {
    Nothing,
    Weapon,
    Armour,
    Helmet,
    Necklace,
    Bracelet,
    Ring,
    Amulet,
    Belt,
    Boots,
    Stone,
    Torch,
    Potion,
    Ore,
    Meat,
    CraftingMaterial,
    Scroll,
    Gem,
    Mount,
    Book,
    Script,
    Reins,
    Bells,
    Saddle,
    Ribbon,
    Mask,
    Food,
    Hook,
    Float,
    Bait,
    Finder,
    Reel,
    Fish,
    Quest,
    Awakening,
    Pets,
    Transform,
    Deco,
    Socket,
    MonsterSpawn,
    SiegeAmmo,
    SealedHero,
}

impl ItemType {
    /// The wire value of each variant.
    pub open spec fn spec_code(self) -> u8 {
        match self {
            ItemType::Nothing => 0,
            ItemType::Weapon => 1,
            ItemType::Armour => 2,
            ItemType::Helmet => 4,
            ItemType::Necklace => 5,
            ItemType::Bracelet => 6,
            ItemType::Ring => 7,
            ItemType::Amulet => 8,
            ItemType::Belt => 9,
            ItemType::Boots => 10,
            ItemType::Stone => 11,
            ItemType::Torch => 12,
            ItemType::Potion => 13,
            ItemType::Ore => 14,
            ItemType::Meat => 15,
            ItemType::CraftingMaterial => 16,
            ItemType::Scroll => 17,
            ItemType::Gem => 18,
            ItemType::Mount => 19,
            ItemType::Book => 20,
            ItemType::Script => 21,
            ItemType::Reins => 22,
            ItemType::Bells => 23,
            ItemType::Saddle => 24,
            ItemType::Ribbon => 25,
            ItemType::Mask => 26,
            ItemType::Food => 27,
            ItemType::Hook => 28,
            ItemType::Float => 29,
            ItemType::Bait => 30,
            ItemType::Finder => 31,
            ItemType::Reel => 32,
            ItemType::Fish => 33,
            ItemType::Quest => 34,
            ItemType::Awakening => 35,
            ItemType::Pets => 36,
            ItemType::Transform => 37,
            ItemType::Deco => 38,
            ItemType::Socket => 39,
            ItemType::MonsterSpawn => 40,
            ItemType::SiegeAmmo => 41,
            ItemType::SealedHero => 42,
        }
    }

    /// The variant whose wire value is `v`, if any.
    pub open spec fn spec_from_code(v: u8) -> Option<Self> {
        if v == 0 { Some(ItemType::Nothing) }
        else if v == 1 { Some(ItemType::Weapon) }
        else if v == 2 { Some(ItemType::Armour) }
        else if v == 4 { Some(ItemType::Helmet) }
        else if v == 5 { Some(ItemType::Necklace) }
        else if v == 6 { Some(ItemType::Bracelet) }
        else if v == 7 { Some(ItemType::Ring) }
        else if v == 8 { Some(ItemType::Amulet) }
        else if v == 9 { Some(ItemType::Belt) }
        else if v == 10 { Some(ItemType::Boots) }
        else if v == 11 { Some(ItemType::Stone) }
        else if v == 12 { Some(ItemType::Torch) }
        else if v == 13 { Some(ItemType::Potion) }
        else if v == 14 { Some(ItemType::Ore) }
        else if v == 15 { Some(ItemType::Meat) }
        else if v == 16 { Some(ItemType::CraftingMaterial) }
        else if v == 17 { Some(ItemType::Scroll) }
        else if v == 18 { Some(ItemType::Gem) }
        else if v == 19 { Some(ItemType::Mount) }
        else if v == 20 { Some(ItemType::Book) }
        else if v == 21 { Some(ItemType::Script) }
        else if v == 22 { Some(ItemType::Reins) }
        else if v == 23 { Some(ItemType::Bells) }
        else if v == 24 { Some(ItemType::Saddle) }
        else if v == 25 { Some(ItemType::Ribbon) }
        else if v == 26 { Some(ItemType::Mask) }
        else if v == 27 { Some(ItemType::Food) }
        else if v == 28 { Some(ItemType::Hook) }
        else if v == 29 { Some(ItemType::Float) }
        else if v == 30 { Some(ItemType::Bait) }
        else if v == 31 { Some(ItemType::Finder) }
        else if v == 32 { Some(ItemType::Reel) }
        else if v == 33 { Some(ItemType::Fish) }
        else if v == 34 { Some(ItemType::Quest) }
        else if v == 35 { Some(ItemType::Awakening) }
        else if v == 36 { Some(ItemType::Pets) }
        else if v == 37 { Some(ItemType::Transform) }
        else if v == 38 { Some(ItemType::Deco) }
        else if v == 39 { Some(ItemType::Socket) }
        else if v == 40 { Some(ItemType::MonsterSpawn) }
        else if v == 41 { Some(ItemType::SiegeAmmo) }
        else if v == 42 { Some(ItemType::SealedHero) }
        else { None }
    }

    /// Returns the wire value; reading it back gives this variant.
    pub fn code(self) -> (r: u8)
        ensures
            r == self.spec_code(),
            Self::spec_from_code(r) == Some(self),
    {
        match self {
            ItemType::Nothing => 0,
            ItemType::Weapon => 1,
            ItemType::Armour => 2,
            ItemType::Helmet => 4,
            ItemType::Necklace => 5,
            ItemType::Bracelet => 6,
            ItemType::Ring => 7,
            ItemType::Amulet => 8,
            ItemType::Belt => 9,
            ItemType::Boots => 10,
            ItemType::Stone => 11,
            ItemType::Torch => 12,
            ItemType::Potion => 13,
            ItemType::Ore => 14,
            ItemType::Meat => 15,
            ItemType::CraftingMaterial => 16,
            ItemType::Scroll => 17,
            ItemType::Gem => 18,
            ItemType::Mount => 19,
            ItemType::Book => 20,
            ItemType::Script => 21,
            ItemType::Reins => 22,
            ItemType::Bells => 23,
            ItemType::Saddle => 24,
            ItemType::Ribbon => 25,
            ItemType::Mask => 26,
            ItemType::Food => 27,
            ItemType::Hook => 28,
            ItemType::Float => 29,
            ItemType::Bait => 30,
            ItemType::Finder => 31,
            ItemType::Reel => 32,
            ItemType::Fish => 33,
            ItemType::Quest => 34,
            ItemType::Awakening => 35,
            ItemType::Pets => 36,
            ItemType::Transform => 37,
            ItemType::Deco => 38,
            ItemType::Socket => 39,
            ItemType::MonsterSpawn => 40,
            ItemType::SiegeAmmo => 41,
            ItemType::SealedHero => 42,
        }
    }

    /// Reads a wire value: the variant it stands for, `None` for any other value.
    pub fn from_code(v: u8) -> (r: Option<Self>)
        ensures
            r == Self::spec_from_code(v),
            r matches Some(e) ==> e.spec_code() == v,
    {
        if v == 0 { Some(ItemType::Nothing) }
        else if v == 1 { Some(ItemType::Weapon) }
        else if v == 2 { Some(ItemType::Armour) }
        else if v == 4 { Some(ItemType::Helmet) }
        else if v == 5 { Some(ItemType::Necklace) }
        else if v == 6 { Some(ItemType::Bracelet) }
        else if v == 7 { Some(ItemType::Ring) }
        else if v == 8 { Some(ItemType::Amulet) }
        else if v == 9 { Some(ItemType::Belt) }
        else if v == 10 { Some(ItemType::Boots) }
        else if v == 11 { Some(ItemType::Stone) }
        else if v == 12 { Some(ItemType::Torch) }
        else if v == 13 { Some(ItemType::Potion) }
        else if v == 14 { Some(ItemType::Ore) }
        else if v == 15 { Some(ItemType::Meat) }
        else if v == 16 { Some(ItemType::CraftingMaterial) }
        else if v == 17 { Some(ItemType::Scroll) }
        else if v == 18 { Some(ItemType::Gem) }
        else if v == 19 { Some(ItemType::Mount) }
        else if v == 20 { Some(ItemType::Book) }
        else if v == 21 { Some(ItemType::Script) }
        else if v == 22 { Some(ItemType::Reins) }
        else if v == 23 { Some(ItemType::Bells) }
        else if v == 24 { Some(ItemType::Saddle) }
        else if v == 25 { Some(ItemType::Ribbon) }
        else if v == 26 { Some(ItemType::Mask) }
        else if v == 27 { Some(ItemType::Food) }
        else if v == 28 { Some(ItemType::Hook) }
        else if v == 29 { Some(ItemType::Float) }
        else if v == 30 { Some(ItemType::Bait) }
        else if v == 31 { Some(ItemType::Finder) }
        else if v == 32 { Some(ItemType::Reel) }
        else if v == 33 { Some(ItemType::Fish) }
        else if v == 34 { Some(ItemType::Quest) }
        else if v == 35 { Some(ItemType::Awakening) }
        else if v == 36 { Some(ItemType::Pets) }
        else if v == 37 { Some(ItemType::Transform) }
        else if v == 38 { Some(ItemType::Deco) }
        else if v == 39 { Some(ItemType::Socket) }
        else if v == 40 { Some(ItemType::MonsterSpawn) }
        else if v == 41 { Some(ItemType::SiegeAmmo) }
        else if v == 42 { Some(ItemType::SealedHero) }
        else { None }
    }
}

/// 装备槽位
#[derive(Debug, Clone, Copy, PartialEq, Eq, Hash, Structural)]
pub enum EquipmentSlot {
    Weapon,
    Armour,
    Helmet,
    Torch,
    Necklace,
    BraceletL,
    BraceletR,
    RingL,
    RingR,
    Amulet,
    Belt,
    Boots,
    Stone,
    Mount,
}

impl EquipmentSlot {
    /// The wire value of each variant.
    pub open spec fn spec_code(self) -> u8 {
        match self {
            EquipmentSlot::Weapon => 0,
            EquipmentSlot::Armour => 1,
            EquipmentSlot::Helmet => 2,
            EquipmentSlot::Torch => 3,
            EquipmentSlot::Necklace => 4,
            EquipmentSlot::BraceletL => 5,
            EquipmentSlot::BraceletR => 6,
            EquipmentSlot::RingL => 7,
            EquipmentSlot::RingR => 8,
            EquipmentSlot::Amulet => 9,
            EquipmentSlot::Belt => 10,
            EquipmentSlot::Boots => 11,
            EquipmentSlot::Stone => 12,
            EquipmentSlot::Mount => 13,
        }
    }

    /// The variant whose wire value is `v`, if any.
    pub open spec fn spec_from_code(v: u8) -> Option<Self> {
        if v == 0 { Some(EquipmentSlot::Weapon) }
        else if v == 1 { Some(EquipmentSlot::Armour) }
        else if v == 2 { Some(EquipmentSlot::Helmet) }
        else if v == 3 { Some(EquipmentSlot::Torch) }
        else if v == 4 { Some(EquipmentSlot::Necklace) }
        else if v == 5 { Some(EquipmentSlot::BraceletL) }
        else if v == 6 { Some(EquipmentSlot::BraceletR) }
        else if v == 7 { Some(EquipmentSlot::RingL) }
        else if v == 8 { Some(EquipmentSlot::RingR) }
        else if v == 9 { Some(EquipmentSlot::Amulet) }
        else if v == 10 { Some(EquipmentSlot::Belt) }
        else if v == 11 { Some(EquipmentSlot::Boots) }
        else if v == 12 { Some(EquipmentSlot::Stone) }
        else if v == 13 { Some(EquipmentSlot::Mount) }
        else { None }
    }

    /// Returns the wire value; reading it back gives this variant.
    pub fn code(self) -> (r: u8)
        ensures
            r == self.spec_code(),
            Self::spec_from_code(r) == Some(self),
    {
        match self {
            EquipmentSlot::Weapon => 0,
            EquipmentSlot::Armour => 1,
            EquipmentSlot::Helmet => 2,
            EquipmentSlot::Torch => 3,
            EquipmentSlot::Necklace => 4,
            EquipmentSlot::BraceletL => 5,
            EquipmentSlot::BraceletR => 6,
            EquipmentSlot::RingL => 7,
            EquipmentSlot::RingR => 8,
            EquipmentSlot::Amulet => 9,
            EquipmentSlot::Belt => 10,
            EquipmentSlot::Boots => 11,
            EquipmentSlot::Stone => 12,
            EquipmentSlot::Mount => 13,
        }
    }

    /// Reads a wire value: the variant it stands for, `None` for any other value.
    pub fn from_code(v: u8) -> (r: Option<Self>)
        ensures
            r == Self::spec_from_code(v),
            r matches Some(e) ==> e.spec_code() == v,
    {
        if v == 0 { Some(EquipmentSlot::Weapon) }
        else if v == 1 { Some(EquipmentSlot::Armour) }
        else if v == 2 { Some(EquipmentSlot::Helmet) }
        else if v == 3 { Some(EquipmentSlot::Torch) }
        else if v == 4 { Some(EquipmentSlot::Necklace) }
        else if v == 5 { Some(EquipmentSlot::BraceletL) }
        else if v == 6 { Some(EquipmentSlot::BraceletR) }
        else if v == 7 { Some(EquipmentSlot::RingL) }
        else if v == 8 { Some(EquipmentSlot::RingR) }
        else if v == 9 { Some(EquipmentSlot::Amulet) }
        else if v == 10 { Some(EquipmentSlot::Belt) }
        else if v == 11 { Some(EquipmentSlot::Boots) }
        else if v == 12 { Some(EquipmentSlot::Stone) }
        else if v == 13 { Some(EquipmentSlot::Mount) }
        else { None }
    }
}

/// 攻击模式
#[derive(Debug, Clone, Copy, PartialEq, Eq, Hash, Structural)]
pub enum AttackMode {
    Peace,
    Group,
    Guild,
    EnemyGuild,
    RedBrown,
    All,
}

impl AttackMode {
    /// The wire value of each variant.
    pub open spec fn spec_code(self) -> u8 {
        match self {
            AttackMode::Peace => 0,
            AttackMode::Group => 1,
            AttackMode::Guild => 2,
            AttackMode::EnemyGuild => 3,
            AttackMode::RedBrown => 4,
            AttackMode::All => 5,
        }
    }

    /// The variant whose wire value is `v`, if any.
    pub open spec fn spec_from_code(v: u8) -> Option<Self> {
        if v == 0 { Some(AttackMode::Peace) }
        else if v == 1 { Some(AttackMode::Group) }
        else if v == 2 { Some(AttackMode::Guild) }
        else if v == 3 { Some(AttackMode::EnemyGuild) }
        else if v == 4 { Some(AttackMode::RedBrown) }
        else if v == 5 { Some(AttackMode::All) }
        else { None }
    }

    /// Returns the wire value; reading it back gives this variant.
    pub fn code(self) -> (r: u8)
        ensures
            r == self.spec_code(),
            Self::spec_from_code(r) == Some(self),
    {
        match self {
            AttackMode::Peace => 0,
            AttackMode::Group => 1,
            AttackMode::Guild => 2,
            AttackMode::EnemyGuild => 3,
            AttackMode::RedBrown => 4,
            AttackMode::All => 5,
        }
    }

    /// Reads a wire value: the variant it stands for, `None` for any other value.
    pub fn from_code(v: u8) -> (r: Option<Self>)
        ensures
            r == Self::spec_from_code(v),
            r matches Some(e) ==> e.spec_code() == v,
    {
        if v == 0 { Some(AttackMode::Peace) }
        else if v == 1 { Some(AttackMode::Group) }
        else if v == 2 { Some(AttackMode::Guild) }
        else if v == 3 { Some(AttackMode::EnemyGuild) }
        else if v == 4 { Some(AttackMode::RedBrown) }
        else if v == 5 { Some(AttackMode::All) }
        else { None }
    }
}

/// 宠物模式
#[derive(Debug, Clone, Copy, PartialEq, Eq, Hash, Structural)]
pub enum PetMode {
    Both,
    MoveOnly,
    AttackOnly,
    NotSet,
    FocusMasterTarget,
}

impl PetMode {
    /// The wire value of each variant.
    pub open spec fn spec_code(self) -> u8 {
        match self {
            PetMode::Both => 0,
            PetMode::MoveOnly => 1,
            PetMode::AttackOnly => 2,
            PetMode::NotSet => 3,
            PetMode::FocusMasterTarget => 4,
        }
    }

    /// The variant whose wire value is `v`, if any.
    pub open spec fn spec_from_code(v: u8) -> Option<Self> {
        if v == 0 { Some(PetMode::Both) }
        else if v == 1 { Some(PetMode::MoveOnly) }
        else if v == 2 { Some(PetMode::AttackOnly) }
        else if v == 3 { Some(PetMode::NotSet) }
        else if v == 4 { Some(PetMode::FocusMasterTarget) }
        else { None }
    }

    /// Returns the wire value; reading it back gives this variant.
    pub fn code(self) -> (r: u8)
        ensures
            r == self.spec_code(),
            Self::spec_from_code(r) == Some(self),
    {
        match self {
            PetMode::Both => 0,
            PetMode::MoveOnly => 1,
            PetMode::AttackOnly => 2,
            PetMode::NotSet => 3,
            PetMode::FocusMasterTarget => 4,
        }
    }

    /// Reads a wire value: the variant it stands for, `None` for any other value.
    pub fn from_code(v: u8) -> (r: Option<Self>)
        ensures
            r == Self::spec_from_code(v),
            r matches Some(e) ==> e.spec_code() == v,
    {
        if v == 0 { Some(PetMode::Both) }
        else if v == 1 { Some(PetMode::MoveOnly) }
        else if v == 2 { Some(PetMode::AttackOnly) }
        else if v == 3 { Some(PetMode::NotSet) }
        else if v == 4 { Some(PetMode::FocusMasterTarget) }
        else { None }
    }
}

/// 怪物稀有度
#[derive(Debug, Clone, Copy, PartialEq, Eq, Hash, Structural)]
pub enum MonsterType {
    Normal,
    Uncommon,
    Rare,
    Elite,
}

impl MonsterType {
    /// The wire value of each variant.
    pub open spec fn spec_code(self) -> u8 {
        match self {
            MonsterType::Normal => 0,
            MonsterType::Uncommon => 1,
            MonsterType::Rare => 2,
            MonsterType::Elite => 3,
        }
    }

    /// The variant whose wire value is `v`, if any.
    pub open spec fn spec_from_code(v: u8) -> Option<Self> {
        if v == 0 { Some(MonsterType::Normal) }
        else if v == 1 { Some(MonsterType::Uncommon) }
        else if v == 2 { Some(MonsterType::Rare) }
        else if v == 3 { Some(MonsterType::Elite) }
        else { None }
    }

    /// Returns the wire value; reading it back gives this variant.
    pub fn code(self) -> (r: u8)
        ensures
            r == self.spec_code(),
            Self::spec_from_code(r) == Some(self),
    {
        match self {
            MonsterType::Normal => 0,
            MonsterType::Uncommon => 1,
            MonsterType::Rare => 2,
            MonsterType::Elite => 3,
        }
    }

    /// Reads a wire value: the variant it stands for, `None` for any other value.
    pub fn from_code(v: u8) -> (r: Option<Self>)
        ensures
            r == Self::spec_from_code(v),
            r matches Some(e) ==> e.spec_code() == v,
    {
        if v == 0 { Some(MonsterType::Normal) }
        else if v == 1 { Some(MonsterType::Uncommon) }
        else if v == 2 { Some(MonsterType::Rare) }
        else if v == 3 { Some(MonsterType::Elite) }
        else { None }
    }
}

/// 防御类型
#[derive(Debug, Clone, Copy, PartialEq, Eq, Hash, Structural)]
pub enum DefenceType {
    ACAgility,
    AC,
    MACAgility,
    MAC,
    Agility,
    Repulsion,
    NotSet,
}

impl DefenceType {
    /// The wire value of each variant.
    pub open spec fn spec_code(self) -> u8 {
        match self {
            DefenceType::ACAgility => 0,
            DefenceType::AC => 1,
            DefenceType::MACAgility => 2,
            DefenceType::MAC => 3,
            DefenceType::Agility => 4,
            DefenceType::Repulsion => 5,
            DefenceType::NotSet => 6,
        }
    }

    /// The variant whose wire value is `v`, if any.
    pub open spec fn spec_from_code(v: u8) -> Option<Self> {
        if v == 0 { Some(DefenceType::ACAgility) }
        else if v == 1 { Some(DefenceType::AC) }
        else if v == 2 { Some(DefenceType::MACAgility) }
        else if v == 3 { Some(DefenceType::MAC) }
        else if v == 4 { Some(DefenceType::Agility) }
        else if v == 5 { Some(DefenceType::Repulsion) }
        else if v == 6 { Some(DefenceType::NotSet) }
        else { None }
    }

    /// Returns the wire value; reading it back gives this variant.
    pub fn code(self) -> (r: u8)
        ensures
            r == self.spec_code(),
            Self::spec_from_code(r) == Some(self),
    {
        match self {
            DefenceType::ACAgility => 0,
            DefenceType::AC => 1,
            DefenceType::MACAgility => 2,
            DefenceType::MAC => 3,
            DefenceType::Agility => 4,
            DefenceType::Repulsion => 5,
            DefenceType::NotSet => 6,
        }
    }

    /// Reads a wire value: the variant it stands for, `None` for any other value.
    pub fn from_code(v: u8) -> (r: Option<Self>)
        ensures
            r == Self::spec_from_code(v),
            r matches Some(e) ==> e.spec_code() == v,
    {
        if v == 0 { Some(DefenceType::ACAgility) }
        else if v == 1 { Some(DefenceType::AC) }
        else if v == 2 { Some(DefenceType::MACAgility) }
        else if v == 3 { Some(DefenceType::MAC) }
        else if v == 4 { Some(DefenceType::Agility) }
        else if v == 5 { Some(DefenceType::Repulsion) }
        else if v == 6 { Some(DefenceType::NotSet) }
        else { None }
    }
}

/// Buff 类型
#[derive(Debug, Clone, Copy, PartialEq, Eq, Hash, Structural)]
pub enum BuffType {
    NotSet,
    TemporalFlux,
    Hiding,
    Haste,
    SwiftFeet,
    Fury,
    SoulShield,
    BlessedArmour,
    LightBody,
    UltimateEnhancer,
    ProtectionField,
    Rage,
    Curse,
    MoonLight,
    DarkBody,
    Concentration,
    VampireShot,
    PoisonShot,
    CounterAttack,
    MentalState,
    EnergyShield,
    MagicBooster,
    PetEnhancer,
    ImmortalSkin,
    MagicShield,
    ElementalBarrier,
    HornedArcherBuff,
    ColdArcherBuff,
    GeneralMeowMeowShield,
    RhinoPriestDebuff,
    PowerBeadBuff,
    HornedWarriorShield,
    HornedCommanderShield,
    Blindness,
    GameMaster,
    General,
    Exp,
    Drop,
    Gold,
    BagWeight,
    Transform,
    Lover,
    Mentee,
    Mentor,
    Guild,
    Prison,
    Rested,
    Skill,
    ClearRing,
    Newbie,
    Impact,
    Magic,
    Taoist,
    Storm,
    HealthAid,
    ManaAid,
    Defence,
    MagicDefence,
    WonderDrug,
    Knapsack,
}

impl BuffType {
    /// The wire value of each variant.
    pub open spec fn spec_code(self) -> u8 {
        match self {
            BuffType::NotSet => 0,
            BuffType::TemporalFlux => 1,
            BuffType::Hiding => 2,
            BuffType::Haste => 3,
            BuffType::SwiftFeet => 4,
            BuffType::Fury => 5,
            BuffType::SoulShield => 6,
            BuffType::BlessedArmour => 7,
            BuffType::LightBody => 8,
            BuffType::UltimateEnhancer => 9,
            BuffType::ProtectionField => 10,
            BuffType::Rage => 11,
            BuffType::Curse => 12,
            BuffType::MoonLight => 13,
            BuffType::DarkBody => 14,
            BuffType::Concentration => 15,
            BuffType::VampireShot => 16,
            BuffType::PoisonShot => 17,
            BuffType::CounterAttack => 18,
            BuffType::MentalState => 19,
            BuffType::EnergyShield => 20,
            BuffType::MagicBooster => 21,
            BuffType::PetEnhancer => 22,
            BuffType::ImmortalSkin => 23,
            BuffType::MagicShield => 24,
            BuffType::ElementalBarrier => 25,
            BuffType::HornedArcherBuff => 50,
            BuffType::ColdArcherBuff => 51,
            BuffType::GeneralMeowMeowShield => 52,
            BuffType::RhinoPriestDebuff => 53,
            BuffType::PowerBeadBuff => 54,
            BuffType::HornedWarriorShield => 55,
            BuffType::HornedCommanderShield => 56,
            BuffType::Blindness => 57,
            BuffType::GameMaster => 100,
            BuffType::General => 101,
            BuffType::Exp => 102,
            BuffType::Drop => 103,
            BuffType::Gold => 104,
            BuffType::BagWeight => 105,
            BuffType::Transform => 106,
            BuffType::Lover => 107,
            BuffType::Mentee => 108,
            BuffType::Mentor => 109,
            BuffType::Guild => 110,
            BuffType::Prison => 111,
            BuffType::Rested => 112,
            BuffType::Skill => 113,
            BuffType::ClearRing => 114,
            BuffType::Newbie => 115,
            BuffType::Impact => 200,
            BuffType::Magic => 201,
            BuffType::Taoist => 202,
            BuffType::Storm => 203,
            BuffType::HealthAid => 204,
            BuffType::ManaAid => 205,
            BuffType::Defence => 206,
            BuffType::MagicDefence => 207,
            BuffType::WonderDrug => 208,
            BuffType::Knapsack => 209,
        }
    }

    /// The variant whose wire value is `v`, if any.
    pub open spec fn spec_from_code(v: u8) -> Option<Self> {
        if v == 0 { Some(BuffType::NotSet) }
        else if v == 1 { Some(BuffType::TemporalFlux) }
        else if v == 2 { Some(BuffType::Hiding) }
        else if v == 3 { Some(BuffType::Haste) }
        else if v == 4 { Some(BuffType::SwiftFeet) }
        else if v == 5 { Some(BuffType::Fury) }
        else if v == 6 { Some(BuffType::SoulShield) }
        else if v == 7 { Some(BuffType::BlessedArmour) }
        else if v == 8 { Some(BuffType::LightBody) }
        else if v == 9 { Some(BuffType::UltimateEnhancer) }
        else if v == 10 { Some(BuffType::ProtectionField) }
        else if v == 11 { Some(BuffType::Rage) }
        else if v == 12 { Some(BuffType::Curse) }
        else if v == 13 { Some(BuffType::MoonLight) }
        else if v == 14 { Some(BuffType::DarkBody) }
        else if v == 15 { Some(BuffType::Concentration) }
        else if v == 16 { Some(BuffType::VampireShot) }
        else if v == 17 { Some(BuffType::PoisonShot) }
        else if v == 18 { Some(BuffType::CounterAttack) }
        else if v == 19 { Some(BuffType::MentalState) }
        else if v == 20 { Some(BuffType::EnergyShield) }
        else if v == 21 { Some(BuffType::MagicBooster) }
        else if v == 22 { Some(BuffType::PetEnhancer) }
        else if v == 23 { Some(BuffType::ImmortalSkin) }
        else if v == 24 { Some(BuffType::MagicShield) }
        else if v == 25 { Some(BuffType::ElementalBarrier) }
        else if v == 50 { Some(BuffType::HornedArcherBuff) }
        else if v == 51 { Some(BuffType::ColdArcherBuff) }
        else if v == 52 { Some(BuffType::GeneralMeowMeowShield) }
        else if v == 53 { Some(BuffType::RhinoPriestDebuff) }
        else if v == 54 { Some(BuffType::PowerBeadBuff) }
        else if v == 55 { Some(BuffType::HornedWarriorShield) }
        else if v == 56 { Some(BuffType::HornedCommanderShield) }
        else if v == 57 { Some(BuffType::Blindness) }
        else if v == 100 { Some(BuffType::GameMaster) }
        else if v == 101 { Some(BuffType::General) }
        else if v == 102 { Some(BuffType::Exp) }
        else if v == 103 { Some(BuffType::Drop) }
        else if v == 104 { Some(BuffType::Gold) }
        else if v == 105 { Some(BuffType::BagWeight) }
        else if v == 106 { Some(BuffType::Transform) }
        else if v == 107 { Some(BuffType::Lover) }
        else if v == 108 { Some(BuffType::Mentee) }
        else if v == 109 { Some(BuffType::Mentor) }
        else if v == 110 { Some(BuffType::Guild) }
        else if v == 111 { Some(BuffType::Prison) }
        else if v == 112 { Some(BuffType::Rested) }
        else if v == 113 { Some(BuffType::Skill) }
        else if v == 114 { Some(BuffType::ClearRing) }
        else if v == 115 { Some(BuffType::Newbie) }
        else if v == 200 { Some(BuffType::Impact) }
        else if v == 201 { Some(BuffType::Magic) }
        else if v == 202 { Some(BuffType::Taoist) }
        else if v == 203 { Some(BuffType::Storm) }
        else if v == 204 { Some(BuffType::HealthAid) }
        else if v == 205 { Some(BuffType::ManaAid) }
        else if v == 206 { Some(BuffType::Defence) }
        else if v == 207 { Some(BuffType::MagicDefence) }
        else if v == 208 { Some(BuffType::WonderDrug) }
        else if v == 209 { Some(BuffType::Knapsack) }
        else { None }
    }

    /// Returns the wire value; reading it back gives this variant.
    pub fn code(self) -> (r: u8)
        ensures
            r == self.spec_code(),
            Self::spec_from_code(r) == Some(self),
    {
        match self {
            BuffType::NotSet => 0,
            BuffType::TemporalFlux => 1,
            BuffType::Hiding => 2,
            BuffType::Haste => 3,
            BuffType::SwiftFeet => 4,
            BuffType::Fury => 5,
            BuffType::SoulShield => 6,
            BuffType::BlessedArmour => 7,
            BuffType::LightBody => 8,
            BuffType::UltimateEnhancer => 9,
            BuffType::ProtectionField => 10,
            BuffType::Rage => 11,
            BuffType::Curse => 12,
            BuffType::MoonLight => 13,
            BuffType::DarkBody => 14,
            BuffType::Concentration => 15,
            BuffType::VampireShot => 16,
            BuffType::PoisonShot => 17,
            BuffType::CounterAttack => 18,
            BuffType::MentalState => 19,
            BuffType::EnergyShield => 20,
            BuffType::MagicBooster => 21,
            BuffType::PetEnhancer => 22,
            BuffType::ImmortalSkin => 23,
            BuffType::MagicShield => 24,
            BuffType::ElementalBarrier => 25,
            BuffType::HornedArcherBuff => 50,
            BuffType::ColdArcherBuff => 51,
            BuffType::GeneralMeowMeowShield => 52,
            BuffType::RhinoPriestDebuff => 53,
            BuffType::PowerBeadBuff => 54,
            BuffType::HornedWarriorShield => 55,
            BuffType::HornedCommanderShield => 56,
            BuffType::Blindness => 57,
            BuffType::GameMaster => 100,
            BuffType::General => 101,
            BuffType::Exp => 102,
            BuffType::Drop => 103,
            BuffType::Gold => 104,
            BuffType::BagWeight => 105,
            BuffType::Transform => 106,
            BuffType::Lover => 107,
            BuffType::Mentee => 108,
            BuffType::Mentor => 109,
            BuffType::Guild => 110,
            BuffType::Prison => 111,
            BuffType::Rested => 112,
            BuffType::Skill => 113,
            BuffType::ClearRing => 114,
            BuffType::Newbie => 115,
            BuffType::Impact => 200,
            BuffType::Magic => 201,
            BuffType::Taoist => 202,
            BuffType::Storm => 203,
            BuffType::HealthAid => 204,
            BuffType::ManaAid => 205,
            BuffType::Defence => 206,
            BuffType::MagicDefence => 207,
            BuffType::WonderDrug => 208,
            BuffType::Knapsack => 209,
        }
    }

    /// Reads a wire value: the variant it stands for, `None` for any other value.
    pub fn from_code(v: u8) -> (r: Option<Self>)
        ensures
            r == Self::spec_from_code(v),
            r matches Some(e) ==> e.spec_code() == v,
    {
        if v == 0 { Some(BuffType::NotSet) }
        else if v == 1 { Some(BuffType::TemporalFlux) }
        else if v == 2 { Some(BuffType::Hiding) }
        else if v == 3 { Some(BuffType::Haste) }
        else if v == 4 { Some(BuffType::SwiftFeet) }
        else if v == 5 { Some(BuffType::Fury) }
        else if v == 6 { Some(BuffType::SoulShield) }
        else if v == 7 { Some(BuffType::BlessedArmour) }
        else if v == 8 { Some(BuffType::LightBody) }
        else if v == 9 { Some(BuffType::UltimateEnhancer) }
        else if v == 10 { Some(BuffType::ProtectionField) }
        else if v == 11 { Some(BuffType::Rage) }
        else if v == 12 { Some(BuffType::Curse) }
        else if v == 13 { Some(BuffType::MoonLight) }
        else if v == 14 { Some(BuffType::DarkBody) }
        else if v == 15 { Some(BuffType::Concentration) }
        else if v == 16 { Some(BuffType::VampireShot) }
        else if v == 17 { Some(BuffType::PoisonShot) }
        else if v == 18 { Some(BuffType::CounterAttack) }
        else if v == 19 { Some(BuffType::MentalState) }
        else if v == 20 { Some(BuffType::EnergyShield) }
        else if v == 21 { Some(BuffType::MagicBooster) }
        else if v == 22 { Some(BuffType::PetEnhancer) }
        else if v == 23 { Some(BuffType::ImmortalSkin) }
        else if v == 24 { Some(BuffType::MagicShield) }
        else if v == 25 { Some(BuffType::ElementalBarrier) }
        else if v == 50 { Some(BuffType::HornedArcherBuff) }
        else if v == 51 { Some(BuffType::ColdArcherBuff) }
        else if v == 52 { Some(BuffType::GeneralMeowMeowShield) }
        else if v == 53 { Some(BuffType::RhinoPriestDebuff) }
        else if v == 54 { Some(BuffType::PowerBeadBuff) }
        else if v == 55 { Some(BuffType::HornedWarriorShield) }
        else if v == 56 { Some(BuffType::HornedCommanderShield) }
        else if v == 57 { Some(BuffType::Blindness) }
        else if v == 100 { Some(BuffType::GameMaster) }
        else if v == 101 { Some(BuffType::General) }
        else if v == 102 { Some(BuffType::Exp) }
        else if v == 103 { Some(BuffType::Drop) }
        else if v == 104 { Some(BuffType::Gold) }
        else if v == 105 { Some(BuffType::BagWeight) }
        else if v == 106 { Some(BuffType::Transform) }
        else if v == 107 { Some(BuffType::Lover) }
        else if v == 108 { Some(BuffType::Mentee) }
        else if v == 109 { Some(BuffType::Mentor) }
        else if v == 110 { Some(BuffType::Guild) }
        else if v == 111 { Some(BuffType::Prison) }
        else if v == 112 { Some(BuffType::Rested) }
        else if v == 113 { Some(BuffType::Skill) }
        else if v == 114 { Some(BuffType::ClearRing) }
        else if v == 115 { Some(BuffType::Newbie) }
        else if v == 200 { Some(BuffType::Impact) }
        else if v == 201 { Some(BuffType::Magic) }
        else if v == 202 { Some(BuffType::Taoist) }
        else if v == 203 { Some(BuffType::Storm) }
        else if v == 204 { Some(BuffType::HealthAid) }
        else if v == 205 { Some(BuffType::ManaAid) }
        else if v == 206 { Some(BuffType::Defence) }
        else if v == 207 { Some(BuffType::MagicDefence) }
        else if v == 208 { Some(BuffType::WonderDrug) }
        else if v == 209 { Some(BuffType::Knapsack) }
        else { None }
    }
}

/// Buff 堆叠类型
#[derive(Debug, Clone, Copy, PartialEq, Eq, Hash, Structural)]
pub enum BuffStackType {
    NotSet,
    ResetDuration,
    StackDuration,
    StackStat,
    StackStatAndDuration,
    Infinite,
    ResetStat,
    ResetStatAndDuration,
}

impl BuffStackType {
    /// The wire value of each variant.
    pub open spec fn spec_code(self) -> u8 {
        match self {
            BuffStackType::NotSet => 0,
            BuffStackType::ResetDuration => 1,
            BuffStackType::StackDuration => 2,
            BuffStackType::StackStat => 3,
            BuffStackType::StackStatAndDuration => 4,
            BuffStackType::Infinite => 5,
            BuffStackType::ResetStat => 6,
            BuffStackType::ResetStatAndDuration => 7,
        }
    }

    /// The variant whose wire value is `v`, if any.
    pub open spec fn spec_from_code(v: u8) -> Option<Self> {
        if v == 0 { Some(BuffStackType::NotSet) }
        else if v == 1 { Some(BuffStackType::ResetDuration) }
        else if v == 2 { Some(BuffStackType::StackDuration) }
        else if v == 3 { Some(BuffStackType::StackStat) }
        else if v == 4 { Some(BuffStackType::StackStatAndDuration) }
        else if v == 5 { Some(BuffStackType::Infinite) }
        else if v == 6 { Some(BuffStackType::ResetStat) }
        else if v == 7 { Some(BuffStackType::ResetStatAndDuration) }
        else { None }
    }

    /// Returns the wire value; reading it back gives this variant.
    pub fn code(self) -> (r: u8)
        ensures
            r == self.spec_code(),
            Self::spec_from_code(r) == Some(self),
    {
        match self {
            BuffStackType::NotSet => 0,
            BuffStackType::ResetDuration => 1,
            BuffStackType::StackDuration => 2,
            BuffStackType::StackStat => 3,
            BuffStackType::StackStatAndDuration => 4,
            BuffStackType::Infinite => 5,
            BuffStackType::ResetStat => 6,
            BuffStackType::ResetStatAndDuration => 7,
        }
    }

    /// Reads a wire value: the variant it stands for, `None` for any other value.
    pub fn from_code(v: u8) -> (r: Option<Self>)
        ensures
            r == Self::spec_from_code(v),
            r matches Some(e) ==> e.spec_code() == v,
    {
        if v == 0 { Some(BuffStackType::NotSet) }
        else if v == 1 { Some(BuffStackType::ResetDuration) }
        else if v == 2 { Some(BuffStackType::StackDuration) }
        else if v == 3 { Some(BuffStackType::StackStat) }
        else if v == 4 { Some(BuffStackType::StackStatAndDuration) }
        else if v == 5 { Some(BuffStackType::Infinite) }
        else if v == 6 { Some(BuffStackType::ResetStat) }
        else if v == 7 { Some(BuffStackType::ResetStatAndDuration) }
        else { None }
    }
}

/// 技能
#[derive(Debug, Clone, Copy, PartialEq, Eq, Hash, Structural)]
pub enum Spell {
    NotSet,
    Fencing,
    Slaying,
    Thrusting,
    HalfMoon,
    ShoulderDash,
    TwinDrakeBlade,
    Entrapment,
    FlamingSword,
    LionRoar,
    CrossHalfMoon,
    BladeAvalanche,
    ProtectionField,
    Rage,
    CounterAttack,
    SlashingBurst,
    Fury,
    ImmortalSkin,
    FireBall,
    Repulsion,
    ElectricShock,
    GreatFireBall,
    HellFire,
    ThunderBolt,
    Teleport,
    FireBang,
    FireWall,
    Lightning,
    FrostCrunch,
    ThunderStorm,
    MagicShield,
    TurnUndead,
    Vampirism,
    IceStorm,
    FlameDisruptor,
    Mirroring,
    FlameField,
    Blizzard,
    MagicBooster,
    MeteorStrike,
    IceThrust,
    FastMove,
    StormEscape,
    Healing,
    SpiritSword,
    Poisoning,
    SoulFireBall,
    SummonSkeleton,
    Hiding,
    MassHiding,
    SoulShield,
    Revelation,
    BlessedArmour,
    EnergyRepulsor,
    TrapHexagon,
    Purification,
    MassHealing,
    Hallucination,
    UltimateEnhancer,
    SummonShinsu,
    Reincarnation,
    SummonHolyDeva,
    Curse,
    Plague,
    PoisonCloud,
    EnergyShield,
    PetEnhancer,
    HealingCircle,
    FatalSword,
    DoubleSlash,
    Haste,
    FlashDash,
    LightBody,
    HeavenlySword,
    FireBurst,
    Trap,
    PoisonSword,
    MoonLight,
    MPEater,
    SwiftFeet,
    DarkBody,
    Hemorrhage,
    CrescentSlash,
    MoonMist,
    CatTongue,
    Focus,
    StraightShot,
    DoubleShot,
    ExplosiveTrap,
    DelayedExplosion,
    Meditation,
    BackStep,
    ElementalShot,
    Concentration,
    Stonetrap,
    ElementalBarrier,
    SummonVampire,
    VampireShot,
    SummonToad,
    PoisonShot,
    CrippleShot,
    SummonSnakes,
    NapalmShot,
    OneWithNature,
    BindingShot,
    MentalState,
    Blink,
    Portal,
    BattleCry,
    FireBounce,
    MeteorShower,
    DigOutZombie,
    Rubble,
    MapLightning,
    MapLava,
    MapQuake1,
    MapQuake2,
    DigOutArmadillo,
    GeneralMeowMeowThunder,
    StoneGolemQuake,
    EarthGolemPile,
    TreeQueenRoot,
    TreeQueenMassRoots,
    TreeQueenGroundRoots,
    TucsonGeneralRock,
    FlyingStatueIceTornado,
    DarkOmaKingNuke,
    HornedSorcererDustTornado,
    HornedCommanderRockFall,
    HornedCommanderRockSpike,
}

impl Spell {
    /// The wire value of each variant.
    pub open spec fn spec_code(self) -> u8 {
        match self {
            Spell::NotSet => 0,
            Spell::Fencing => 1,
            Spell::Slaying => 2,
            Spell::Thrusting => 3,
            Spell::HalfMoon => 4,
            Spell::ShoulderDash => 5,
            Spell::TwinDrakeBlade => 6,
            Spell::Entrapment => 7,
            Spell::FlamingSword => 8,
            Spell::LionRoar => 9,
            Spell::CrossHalfMoon => 10,
            Spell::BladeAvalanche => 11,
            Spell::ProtectionField => 12,
            Spell::Rage => 13,
            Spell::CounterAttack => 14,
            Spell::SlashingBurst => 15,
            Spell::Fury => 16,
            Spell::ImmortalSkin => 17,
            Spell::FireBall => 31,
            Spell::Repulsion => 32,
            Spell::ElectricShock => 33,
            Spell::GreatFireBall => 34,
            Spell::HellFire => 35,
            Spell::ThunderBolt => 36,
            Spell::Teleport => 37,
            Spell::FireBang => 38,
            Spell::FireWall => 39,
            Spell::Lightning => 40,
            Spell::FrostCrunch => 41,
            Spell::ThunderStorm => 42,
            Spell::MagicShield => 43,
            Spell::TurnUndead => 44,
            Spell::Vampirism => 45,
            Spell::IceStorm => 46,
            Spell::FlameDisruptor => 47,
            Spell::Mirroring => 48,
            Spell::FlameField => 49,
            Spell::Blizzard => 50,
            Spell::MagicBooster => 51,
            Spell::MeteorStrike => 52,
            Spell::IceThrust => 53,
            Spell::FastMove => 54,
            Spell::StormEscape => 55,
            Spell::Healing => 61,
            Spell::SpiritSword => 62,
            Spell::Poisoning => 63,
            Spell::SoulFireBall => 64,
            Spell::SummonSkeleton => 65,
            Spell::Hiding => 67,
            Spell::MassHiding => 68,
            Spell::SoulShield => 69,
            Spell::Revelation => 70,
            Spell::BlessedArmour => 71,
            Spell::EnergyRepulsor => 72,
            Spell::TrapHexagon => 73,
            Spell::Purification => 74,
            Spell::MassHealing => 75,
            Spell::Hallucination => 76,
            Spell::UltimateEnhancer => 77,
            Spell::SummonShinsu => 78,
            Spell::Reincarnation => 79,
            Spell::SummonHolyDeva => 80,
            Spell::Curse => 81,
            Spell::Plague => 82,
            Spell::PoisonCloud => 83,
            Spell::EnergyShield => 84,
            Spell::PetEnhancer => 85,
            Spell::HealingCircle => 86,
            Spell::FatalSword => 91,
            Spell::DoubleSlash => 92,
            Spell::Haste => 93,
            Spell::FlashDash => 94,
            Spell::LightBody => 95,
            Spell::HeavenlySword => 96,
            Spell::FireBurst => 97,
            Spell::Trap => 98,
            Spell::PoisonSword => 99,
            Spell::MoonLight => 100,
            Spell::MPEater => 101,
            Spell::SwiftFeet => 102,
            Spell::DarkBody => 103,
            Spell::Hemorrhage => 104,
            Spell::CrescentSlash => 105,
            Spell::MoonMist => 106,
            Spell::CatTongue => 107,
            Spell::Focus => 121,
            Spell::StraightShot => 122,
            Spell::DoubleShot => 123,
            Spell::ExplosiveTrap => 124,
            Spell::DelayedExplosion => 125,
            Spell::Meditation => 126,
            Spell::BackStep => 127,
            Spell::ElementalShot => 128,
            Spell::Concentration => 129,
            Spell::Stonetrap => 130,
            Spell::ElementalBarrier => 131,
            Spell::SummonVampire => 132,
            Spell::VampireShot => 133,
            Spell::SummonToad => 134,
            Spell::PoisonShot => 135,
            Spell::CrippleShot => 136,
            Spell::SummonSnakes => 137,
            Spell::NapalmShot => 138,
            Spell::OneWithNature => 139,
            Spell::BindingShot => 140,
            Spell::MentalState => 141,
            Spell::Blink => 151,
            Spell::Portal => 152,
            Spell::BattleCry => 153,
            Spell::FireBounce => 154,
            Spell::MeteorShower => 155,
            Spell::DigOutZombie => 200,
            Spell::Rubble => 201,
            Spell::MapLightning => 202,
            Spell::MapLava => 203,
            Spell::MapQuake1 => 204,
            Spell::MapQuake2 => 205,
            Spell::DigOutArmadillo => 206,
            Spell::GeneralMeowMeowThunder => 207,
            Spell::StoneGolemQuake => 208,
            Spell::EarthGolemPile => 209,
            Spell::TreeQueenRoot => 210,
            Spell::TreeQueenMassRoots => 211,
            Spell::TreeQueenGroundRoots => 212,
            Spell::TucsonGeneralRock => 213,
            Spell::FlyingStatueIceTornado => 214,
            Spell::DarkOmaKingNuke => 215,
            Spell::HornedSorcererDustTornado => 216,
            Spell::HornedCommanderRockFall => 217,
            Spell::HornedCommanderRockSpike => 218,
        }
    }

    /// The variant whose wire value is `v`, if any.
    pub open spec fn spec_from_code(v: u8) -> Option<Self> {
        if v == 0 { Some(Spell::NotSet) }
        else if v == 1 { Some(Spell::Fencing) }
        else if v == 2 { Some(Spell::Slaying) }
        else if v == 3 { Some(Spell::Thrusting) }
        else if v == 4 { Some(Spell::HalfMoon) }
        else if v == 5 { Some(Spell::ShoulderDash) }
        else if v == 6 { Some(Spell::TwinDrakeBlade) }
        else if v == 7 { Some(Spell::Entrapment) }
        else if v == 8 { Some(Spell::FlamingSword) }
        else if v == 9 { Some(Spell::LionRoar) }
        else if v == 10 { Some(Spell::CrossHalfMoon) }
        else if v == 11 { Some(Spell::BladeAvalanche) }
        else if v == 12 { Some(Spell::ProtectionField) }
        else if v == 13 { Some(Spell::Rage) }
        else if v == 14 { Some(Spell::CounterAttack) }
        else if v == 15 { Some(Spell::SlashingBurst) }
        else if v == 16 { Some(Spell::Fury) }
        else if v == 17 { Some(Spell::ImmortalSkin) }
        else if v == 31 { Some(Spell::FireBall) }
        else if v == 32 { Some(Spell::Repulsion) }
        else if v == 33 { Some(Spell::ElectricShock) }
        else if v == 34 { Some(Spell::GreatFireBall) }
        else if v == 35 { Some(Spell::HellFire) }
        else if v == 36 { Some(Spell::ThunderBolt) }
        else if v == 37 { Some(Spell::Teleport) }
        else if v == 38 { Some(Spell::FireBang) }
        else if v == 39 { Some(Spell::FireWall) }
        else if v == 40 { Some(Spell::Lightning) }
        else if v == 41 { Some(Spell::FrostCrunch) }
        else if v == 42 { Some(Spell::ThunderStorm) }
        else if v == 43 { Some(Spell::MagicShield) }
        else if v == 44 { Some(Spell::TurnUndead) }
        else if v == 45 { Some(Spell::Vampirism) }
        else if v == 46 { Some(Spell::IceStorm) }
        else if v == 47 { Some(Spell::FlameDisruptor) }
        else if v == 48 { Some(Spell::Mirroring) }
        else if v == 49 { Some(Spell::FlameField) }
        else if v == 50 { Some(Spell::Blizzard) }
        else if v == 51 { Some(Spell::MagicBooster) }
        else if v == 52 { Some(Spell::MeteorStrike) }
        else if v == 53 { Some(Spell::IceThrust) }
        else if v == 54 { Some(Spell::FastMove) }
        else if v == 55 { Some(Spell::StormEscape) }
        else if v == 61 { Some(Spell::Healing) }
        else if v == 62 { Some(Spell::SpiritSword) }
        else if v == 63 { Some(Spell::Poisoning) }
        else if v == 64 { Some(Spell::SoulFireBall) }
        else if v == 65 { Some(Spell::SummonSkeleton) }
        else if v == 67 { Some(Spell::Hiding) }
        else if v == 68 { Some(Spell::MassHiding) }
        else if v == 69 { Some(Spell::SoulShield) }
        else if v == 70 { Some(Spell::Revelation) }
        else if v == 71 { Some(Spell::BlessedArmour) }
        else if v == 72 { Some(Spell::EnergyRepulsor) }
        else if v == 73 { Some(Spell::TrapHexagon) }
        else if v == 74 { Some(Spell::Purification) }
        else if v == 75 { Some(Spell::MassHealing) }
        else if v == 76 { Some(Spell::Hallucination) }
        else if v == 77 { Some(Spell::UltimateEnhancer) }
        else if v == 78 { Some(Spell::SummonShinsu) }
        else if v == 79 { Some(Spell::Reincarnation) }
        else if v == 80 { Some(Spell::SummonHolyDeva) }
        else if v == 81 { Some(Spell::Curse) }
        else if v == 82 { Some(Spell::Plague) }
        else if v == 83 { Some(Spell::PoisonCloud) }
        else if v == 84 { Some(Spell::EnergyShield) }
        else if v == 85 { Some(Spell::PetEnhancer) }
        else if v == 86 { Some(Spell::HealingCircle) }
        else if v == 91 { Some(Spell::FatalSword) }
        else if v == 92 { Some(Spell::DoubleSlash) }
        else if v == 93 { Some(Spell::Haste) }
        else if v == 94 { Some(Spell::FlashDash) }
        else if v == 95 { Some(Spell::LightBody) }
        else if v == 96 { Some(Spell::HeavenlySword) }
        else if v == 97 { Some(Spell::FireBurst) }
        else if v == 98 { Some(Spell::Trap) }
        else if v == 99 { Some(Spell::PoisonSword) }
        else if v == 100 { Some(Spell::MoonLight) }
        else if v == 101 { Some(Spell::MPEater) }
        else if v == 102 { Some(Spell::SwiftFeet) }
        else if v == 103 { Some(Spell::DarkBody) }
        else if v == 104 { Some(Spell::Hemorrhage) }
        else if v == 105 { Some(Spell::CrescentSlash) }
        else if v == 106 { Some(Spell::MoonMist) }
        else if v == 107 { Some(Spell::CatTongue) }
        else if v == 121 { Some(Spell::Focus) }
        else if v == 122 { Some(Spell::StraightShot) }
        else if v == 123 { Some(Spell::DoubleShot) }
        else if v == 124 { Some(Spell::ExplosiveTrap) }
        else if v == 125 { Some(Spell::DelayedExplosion) }
        else if v == 126 { Some(Spell::Meditation) }
        else if v == 127 { Some(Spell::BackStep) }
        else if v == 128 { Some(Spell::ElementalShot) }
        else if v == 129 { Some(Spell::Concentration) }
        else if v == 130 { Some(Spell::Stonetrap) }
        else if v == 131 { Some(Spell::ElementalBarrier) }
        else if v == 132 { Some(Spell::SummonVampire) }
        else if v == 133 { Some(Spell::VampireShot) }
        else if v == 134 { Some(Spell::SummonToad) }
        else if v == 135 { Some(Spell::PoisonShot) }
        else if v == 136 { Some(Spell::CrippleShot) }
        else if v == 137 { Some(Spell::SummonSnakes) }
        else if v == 138 { Some(Spell::NapalmShot) }
        else if v == 139 { Some(Spell::OneWithNature) }
        else if v == 140 { Some(Spell::BindingShot) }
        else if v == 141 { Some(Spell::MentalState) }
        else if v == 151 { Some(Spell::Blink) }
        else if v == 152 { Some(Spell::Portal) }
        else if v == 153 { Some(Spell::BattleCry) }
        else if v == 154 { Some(Spell::FireBounce) }
        else if v == 155 { Some(Spell::MeteorShower) }
        else if v == 200 { Some(Spell::DigOutZombie) }
        else if v == 201 { Some(Spell::Rubble) }
        else if v == 202 { Some(Spell::MapLightning) }
        else if v == 203 { Some(Spell::MapLava) }
        else if v == 204 { Some(Spell::MapQuake1) }
        else if v == 205 { Some(Spell::MapQuake2) }
        else if v == 206 { Some(Spell::DigOutArmadillo) }
        else if v == 207 { Some(Spell::GeneralMeowMeowThunder) }
        else if v == 208 { Some(Spell::StoneGolemQuake) }
        else if v == 209 { Some(Spell::EarthGolemPile) }
        else if v == 210 { Some(Spell::TreeQueenRoot) }
        else if v == 211 { Some(Spell::TreeQueenMassRoots) }
        else if v == 212 { Some(Spell::TreeQueenGroundRoots) }
        else if v == 213 { Some(Spell::TucsonGeneralRock) }
        else if v == 214 { Some(Spell::FlyingStatueIceTornado) }
        else if v == 215 { Some(Spell::DarkOmaKingNuke) }
        else if v == 216 { Some(Spell::HornedSorcererDustTornado) }
        else if v == 217 { Some(Spell::HornedCommanderRockFall) }
        else if v == 218 { Some(Spell::HornedCommanderRockSpike) }
        else { None }
    }

    /// Returns the wire value; reading it back gives this variant.
    pub fn code(self) -> (r: u8)
        ensures
            r == self.spec_code(),
            Self::spec_from_code(r) == Some(self),
    {
        match self {
            Spell::NotSet => 0,
            Spell::Fencing => 1,
            Spell::Slaying => 2,
            Spell::Thrusting => 3,
            Spell::HalfMoon => 4,
            Spell::ShoulderDash => 5,
            Spell::TwinDrakeBlade => 6,
            Spell::Entrapment => 7,
            Spell::FlamingSword => 8,
            Spell::LionRoar => 9,
            Spell::CrossHalfMoon => 10,
            Spell::BladeAvalanche => 11,
            Spell::ProtectionField => 12,
            Spell::Rage => 13,
            Spell::CounterAttack => 14,
            Spell::SlashingBurst => 15,
            Spell::Fury => 16,
            Spell::ImmortalSkin => 17,
            Spell::FireBall => 31,
            Spell::Repulsion => 32,
            Spell::ElectricShock => 33,
            Spell::GreatFireBall => 34,
            Spell::HellFire => 35,
            Spell::ThunderBolt => 36,
            Spell::Teleport => 37,
            Spell::FireBang => 38,
            Spell::FireWall => 39,
            Spell::Lightning => 40,
            Spell::FrostCrunch => 41,
            Spell::ThunderStorm => 42,
            Spell::MagicShield => 43,
            Spell::TurnUndead => 44,
            Spell::Vampirism => 45,
            Spell::IceStorm => 46,
            Spell::FlameDisruptor => 47,
            Spell::Mirroring => 48,
            Spell::FlameField => 49,
            Spell::Blizzard => 50,
            Spell::MagicBooster => 51,
            Spell::MeteorStrike => 52,
            Spell::IceThrust => 53,
            Spell::FastMove => 54,
            Spell::StormEscape => 55,
            Spell::Healing => 61,
            Spell::SpiritSword => 62,
            Spell::Poisoning => 63,
            Spell::SoulFireBall => 64,
            Spell::SummonSkeleton => 65,
            Spell::Hiding => 67,
            Spell::MassHiding => 68,
            Spell::SoulShield => 69,
            Spell::Revelation => 70,
            Spell::BlessedArmour => 71,
            Spell::EnergyRepulsor => 72,
            Spell::TrapHexagon => 73,
            Spell::Purification => 74,
            Spell::MassHealing => 75,
            Spell::Hallucination => 76,
            Spell::UltimateEnhancer => 77,
            Spell::SummonShinsu => 78,
            Spell::Reincarnation => 79,
            Spell::SummonHolyDeva => 80,
            Spell::Curse => 81,
            Spell::Plague => 82,
            Spell::PoisonCloud => 83,
            Spell::EnergyShield => 84,
            Spell::PetEnhancer => 85,
            Spell::HealingCircle => 86,
            Spell::FatalSword => 91,
            Spell::DoubleSlash => 92,
            Spell::Haste => 93,
            Spell::FlashDash => 94,
            Spell::LightBody => 95,
            Spell::HeavenlySword => 96,
            Spell::FireBurst => 97,
            Spell::Trap => 98,
            Spell::PoisonSword => 99,
            Spell::MoonLight => 100,
            Spell::MPEater => 101,
            Spell::SwiftFeet => 102,
            Spell::DarkBody => 103,
            Spell::Hemorrhage => 104,
            Spell::CrescentSlash => 105,
            Spell::MoonMist => 106,
            Spell::CatTongue => 107,
            Spell::Focus => 121,
            Spell::StraightShot => 122,
            Spell::DoubleShot => 123,
            Spell::ExplosiveTrap => 124,
            Spell::DelayedExplosion => 125,
            Spell::Meditation => 126,
            Spell::BackStep => 127,
            Spell::ElementalShot => 128,
            Spell::Concentration => 129,
            Spell::Stonetrap => 130,
            Spell::ElementalBarrier => 131,
            Spell::SummonVampire => 132,
            Spell::VampireShot => 133,
            Spell::SummonToad => 134,
            Spell::PoisonShot => 135,
            Spell::CrippleShot => 136,
            Spell::SummonSnakes => 137,
            Spell::NapalmShot => 138,
            Spell::OneWithNature => 139,
            Spell::BindingShot => 140,
            Spell::MentalState => 141,
            Spell::Blink => 151,
            Spell::Portal => 152,
            Spell::BattleCry => 153,
            Spell::FireBounce => 154,
            Spell::MeteorShower => 155,
            Spell::DigOutZombie => 200,
            Spell::Rubble => 201,
            Spell::MapLightning => 202,
            Spell::MapLava => 203,
            Spell::MapQuake1 => 204,
            Spell::MapQuake2 => 205,
            Spell::DigOutArmadillo => 206,
            Spell::GeneralMeowMeowThunder => 207,
            Spell::StoneGolemQuake => 208,
            Spell::EarthGolemPile => 209,
            Spell::TreeQueenRoot => 210,
            Spell::TreeQueenMassRoots => 211,
            Spell::TreeQueenGroundRoots => 212,
            Spell::TucsonGeneralRock => 213,
            Spell::FlyingStatueIceTornado => 214,
            Spell::DarkOmaKingNuke => 215,
            Spell::HornedSorcererDustTornado => 216,
            Spell::HornedCommanderRockFall => 217,
            Spell::HornedCommanderRockSpike => 218,
        }
    }

    /// Reads a wire value: the variant it stands for, `None` for any other value.
    pub fn from_code(v: u8) -> (r: Option<Self>)
        ensures
            r == Self::spec_from_code(v),
            r matches Some(e) ==> e.spec_code() == v,
    {
        if v == 0 { Some(Spell::NotSet) }
        else if v == 1 { Some(Spell::Fencing) }
        else if v == 2 { Some(Spell::Slaying) }
        else if v == 3 { Some(Spell::Thrusting) }
        else if v == 4 { Some(Spell::HalfMoon) }
        else if v == 5 { Some(Spell::ShoulderDash) }
        else if v == 6 { Some(Spell::TwinDrakeBlade) }
        else if v == 7 { Some(Spell::Entrapment) }
        else if v == 8 { Some(Spell::FlamingSword) }
        else if v == 9 { Some(Spell::LionRoar) }
        else if v == 10 { Some(Spell::CrossHalfMoon) }
        else if v == 11 { Some(Spell::BladeAvalanche) }
        else if v == 12 { Some(Spell::ProtectionField) }
        else if v == 13 { Some(Spell::Rage) }
        else if v == 14 { Some(Spell::CounterAttack) }
        else if v == 15 { Some(Spell::SlashingBurst) }
        else if v == 16 { Some(Spell::Fury) }
        else if v == 17 { Some(Spell::ImmortalSkin) }
        else if v == 31 { Some(Spell::FireBall) }
        else if v == 32 { Some(Spell::Repulsion) }
        else if v == 33 { Some(Spell::ElectricShock) }
        else if v == 34 { Some(Spell::GreatFireBall) }
        else if v == 35 { Some(Spell::HellFire) }
        else if v == 36 { Some(Spell::ThunderBolt) }
        else if v == 37 { Some(Spell::Teleport) }
        else if v == 38 { Some(Spell::FireBang) }
        else if v == 39 { Some(Spell::FireWall) }
        else if v == 40 { Some(Spell::Lightning) }
        else if v == 41 { Some(Spell::FrostCrunch) }
        else if v == 42 { Some(Spell::ThunderStorm) }
        else if v == 43 { Some(Spell::MagicShield) }
        else if v == 44 { Some(Spell::TurnUndead) }
        else if v == 45 { Some(Spell::Vampirism) }
        else if v == 46 { Some(Spell::IceStorm) }
        else if v == 47 { Some(Spell::FlameDisruptor) }
        else if v == 48 { Some(Spell::Mirroring) }
        else if v == 49 { Some(Spell::FlameField) }
        else if v == 50 { Some(Spell::Blizzard) }
        else if v == 51 { Some(Spell::MagicBooster) }
        else if v == 52 { Some(Spell::MeteorStrike) }
        else if v == 53 { Some(Spell::IceThrust) }
        else if v == 54 { Some(Spell::FastMove) }
        else if v == 55 { Some(Spell::StormEscape) }
        else if v == 61 { Some(Spell::Healing) }
        else if v == 62 { Some(Spell::SpiritSword) }
        else if v == 63 { Some(Spell::Poisoning) }
        else if v == 64 { Some(Spell::SoulFireBall) }
        else if v == 65 { Some(Spell::SummonSkeleton) }
        else if v == 67 { Some(Spell::Hiding) }
        else if v == 68 { Some(Spell::MassHiding) }
        else if v == 69 { Some(Spell::SoulShield) }
        else if v == 70 { Some(Spell::Revelation) }
        else if v == 71 { Some(Spell::BlessedArmour) }
        else if v == 72 { Some(Spell::EnergyRepulsor) }
        else if v == 73 { Some(Spell::TrapHexagon) }
        else if v == 74 { Some(Spell::Purification) }
        else if v == 75 { Some(Spell::MassHealing) }
        else if v == 76 { Some(Spell::Hallucination) }
        else if v == 77 { Some(Spell::UltimateEnhancer) }
        else if v == 78 { Some(Spell::SummonShinsu) }
        else if v == 79 { Some(Spell::Reincarnation) }
        else if v == 80 { Some(Spell::SummonHolyDeva) }
        else if v == 81 { Some(Spell::Curse) }
        else if v == 82 { Some(Spell::Plague) }
        else if v == 83 { Some(Spell::PoisonCloud) }
        else if v == 84 { Some(Spell::EnergyShield) }
        else if v == 85 { Some(Spell::PetEnhancer) }
        else if v == 86 { Some(Spell::HealingCircle) }
        else if v == 91 { Some(Spell::FatalSword) }
        else if v == 92 { Some(Spell::DoubleSlash) }
        else if v == 93 { Some(Spell::Haste) }
        else if v == 94 { Some(Spell::FlashDash) }
        else if v == 95 { Some(Spell::LightBody) }
        else if v == 96 { Some(Spell::HeavenlySword) }
        else if v == 97 { Some(Spell::FireBurst) }
        else if v == 98 { Some(Spell::Trap) }
        else if v == 99 { Some(Spell::PoisonSword) }
        else if v == 100 { Some(Spell::MoonLight) }
        else if v == 101 { Some(Spell::MPEater) }
        else if v == 102 { Some(Spell::SwiftFeet) }
        else if v == 103 { Some(Spell::DarkBody) }
        else if v == 104 { Some(Spell::Hemorrhage) }
        else if v == 105 { Some(Spell::CrescentSlash) }
        else if v == 106 { Some(Spell::MoonMist) }
        else if v == 107 { Some(Spell::CatTongue) }
        else if v == 121 { Some(Spell::Focus) }
        else if v == 122 { Some(Spell::StraightShot) }
        else if v == 123 { Some(Spell::DoubleShot) }
        else if v == 124 { Some(Spell::ExplosiveTrap) }
        else if v == 125 { Some(Spell::DelayedExplosion) }
        else if v == 126 { Some(Spell::Meditation) }
        else if v == 127 { Some(Spell::BackStep) }
        else if v == 128 { Some(Spell::ElementalShot) }
        else if v == 129 { Some(Spell::Concentration) }
        else if v == 130 { Some(Spell::Stonetrap) }
        else if v == 131 { Some(Spell::ElementalBarrier) }
        else if v == 132 { Some(Spell::SummonVampire) }
        else if v == 133 { Some(Spell::VampireShot) }
        else if v == 134 { Some(Spell::SummonToad) }
        else if v == 135 { Some(Spell::PoisonShot) }
        else if v == 136 { Some(Spell::CrippleShot) }
        else if v == 137 { Some(Spell::SummonSnakes) }
        else if v == 138 { Some(Spell::NapalmShot) }
        else if v == 139 { Some(Spell::OneWithNature) }
        else if v == 140 { Some(Spell::BindingShot) }
        else if v == 141 { Some(Spell::MentalState) }
        else if v == 151 { Some(Spell::Blink) }
        else if v == 152 { Some(Spell::Portal) }
        else if v == 153 { Some(Spell::BattleCry) }
        else if v == 154 { Some(Spell::FireBounce) }
        else if v == 155 { Some(Spell::MeteorShower) }
        else if v == 200 { Some(Spell::DigOutZombie) }
        else if v == 201 { Some(Spell::Rubble) }
        else if v == 202 { Some(Spell::MapLightning) }
        else if v == 203 { Some(Spell::MapLava) }
        else if v == 204 { Some(Spell::MapQuake1) }
        else if v == 205 { Some(Spell::MapQuake2) }
        else if v == 206 { Some(Spell::DigOutArmadillo) }
        else if v == 207 { Some(Spell::GeneralMeowMeowThunder) }
        else if v == 208 { Some(Spell::StoneGolemQuake) }
        else if v == 209 { Some(Spell::EarthGolemPile) }
        else if v == 210 { Some(Spell::TreeQueenRoot) }
        else if v == 211 { Some(Spell::TreeQueenMassRoots) }
        else if v == 212 { Some(Spell::TreeQueenGroundRoots) }
        else if v == 213 { Some(Spell::TucsonGeneralRock) }
        else if v == 214 { Some(Spell::FlyingStatueIceTornado) }
        else if v == 215 { Some(Spell::DarkOmaKingNuke) }
        else if v == 216 { Some(Spell::HornedSorcererDustTornado) }
        else if v == 217 { Some(Spell::HornedCommanderRockFall) }
        else if v == 218 { Some(Spell::HornedCommanderRockSpike) }
        else { None }
    }
}

/// 技能效果
#[derive(Debug, Clone, Copy, PartialEq, Eq, Hash, Structural)]
pub enum SpellEffect {
    NotSet,
    FatalSword,
    Teleport,
    Healing,
    RedMoonEvil,
    TwinDrakeBlade,
    MagicShieldUp,
    MagicShieldDown,
    GreatFoxSpirit,
    Entrapment,
    Reflect,
    Critical,
    Mine,
    ElementalBarrierUp,
    ElementalBarrierDown,
    DelayedExplosion,
    MPEater,
    Hemorrhage,
    Bleeding,
    AwakeningSuccess,
    AwakeningFail,
    AwakeningMiss,
    AwakeningHit,
    StormEscape,
    TurtleKing,
    Behemoth,
    Stunned,
    IcePillar,
    KingGuard,
    KingGuard2,
    DeathCrawlerBreath,
    FlamingMutantWeb,
    FurbolgWarriorCritical,
    Tester,
    MoonMist,
}

impl SpellEffect {
    /// The wire value of each variant.
    pub open spec fn spec_code(self) -> u8 {
        match self {
            SpellEffect::NotSet => 0,
            SpellEffect::FatalSword => 1,
            SpellEffect::Teleport => 2,
            SpellEffect::Healing => 3,
            SpellEffect::RedMoonEvil => 4,
            SpellEffect::TwinDrakeBlade => 5,
            SpellEffect::MagicShieldUp => 6,
            SpellEffect::MagicShieldDown => 7,
            SpellEffect::GreatFoxSpirit => 8,
            SpellEffect::Entrapment => 9,
            SpellEffect::Reflect => 10,
            SpellEffect::Critical => 11,
            SpellEffect::Mine => 12,
            SpellEffect::ElementalBarrierUp => 13,
            SpellEffect::ElementalBarrierDown => 14,
            SpellEffect::DelayedExplosion => 15,
            SpellEffect::MPEater => 16,
            SpellEffect::Hemorrhage => 17,
            SpellEffect::Bleeding => 18,
            SpellEffect::AwakeningSuccess => 19,
            SpellEffect::AwakeningFail => 20,
            SpellEffect::AwakeningMiss => 21,
            SpellEffect::AwakeningHit => 22,
            SpellEffect::StormEscape => 23,
            SpellEffect::TurtleKing => 24,
            SpellEffect::Behemoth => 25,
            SpellEffect::Stunned => 26,
            SpellEffect::IcePillar => 27,
            SpellEffect::KingGuard => 28,
            SpellEffect::KingGuard2 => 29,
            SpellEffect::DeathCrawlerBreath => 30,
            SpellEffect::FlamingMutantWeb => 31,
            SpellEffect::FurbolgWarriorCritical => 32,
            SpellEffect::Tester => 33,
            SpellEffect::MoonMist => 34,
        }
    }

    /// The variant whose wire value is `v`, if any.
    pub open spec fn spec_from_code(v: u8) -> Option<Self> {
        if v == 0 { Some(SpellEffect::NotSet) }
        else if v == 1 { Some(SpellEffect::FatalSword) }
        else if v == 2 { Some(SpellEffect::Teleport) }
        else if v == 3 { Some(SpellEffect::Healing) }
        else if v == 4 { Some(SpellEffect::RedMoonEvil) }
        else if v == 5 { Some(SpellEffect::TwinDrakeBlade) }
        else if v == 6 { Some(SpellEffect::MagicShieldUp) }
        else if v == 7 { Some(SpellEffect::MagicShieldDown) }
        else if v == 8 { Some(SpellEffect::GreatFoxSpirit) }
        else if v == 9 { Some(SpellEffect::Entrapment) }
        else if v == 10 { Some(SpellEffect::Reflect) }
        else if v == 11 { Some(SpellEffect::Critical) }
        else if v == 12 { Some(SpellEffect::Mine) }
        else if v == 13 { Some(SpellEffect::ElementalBarrierUp) }
        else if v == 14 { Some(SpellEffect::ElementalBarrierDown) }
        else if v == 15 { Some(SpellEffect::DelayedExplosion) }
        else if v == 16 { Some(SpellEffect::MPEater) }
        else if v == 17 { Some(SpellEffect::Hemorrhage) }
        else if v == 18 { Some(SpellEffect::Bleeding) }
        else if v == 19 { Some(SpellEffect::AwakeningSuccess) }
        else if v == 20 { Some(SpellEffect::AwakeningFail) }
        else if v == 21 { Some(SpellEffect::AwakeningMiss) }
        else if v == 22 { Some(SpellEffect::AwakeningHit) }
        else if v == 23 { Some(SpellEffect::StormEscape) }
        else if v == 24 { Some(SpellEffect::TurtleKing) }
        else if v == 25 { Some(SpellEffect::Behemoth) }
        else if v == 26 { Some(SpellEffect::Stunned) }
        else if v == 27 { Some(SpellEffect::IcePillar) }
        else if v == 28 { Some(SpellEffect::KingGuard) }
        else if v == 29 { Some(SpellEffect::KingGuard2) }
        else if v == 30 { Some(SpellEffect::DeathCrawlerBreath) }
        else if v == 31 { Some(SpellEffect::FlamingMutantWeb) }
        else if v == 32 { Some(SpellEffect::FurbolgWarriorCritical) }
        else if v == 33 { Some(SpellEffect::Tester) }
        else if v == 34 { Some(SpellEffect::MoonMist) }
        else { None }
    }

    /// Returns the wire value; reading it back gives this variant.
    pub fn code(self) -> (r: u8)
        ensures
            r == self.spec_code(),
            Self::spec_from_code(r) == Some(self),
    {
        match self {
            SpellEffect::NotSet => 0,
            SpellEffect::FatalSword => 1,
            SpellEffect::Teleport => 2,
            SpellEffect::Healing => 3,
            SpellEffect::RedMoonEvil => 4,
            SpellEffect::TwinDrakeBlade => 5,
            SpellEffect::MagicShieldUp => 6,
            SpellEffect::MagicShieldDown => 7,
            SpellEffect::GreatFoxSpirit => 8,
            SpellEffect::Entrapment => 9,
            SpellEffect::Reflect => 10,
            SpellEffect::Critical => 11,
            SpellEffect::Mine => 12,
            SpellEffect::ElementalBarrierUp => 13,
            SpellEffect::ElementalBarrierDown => 14,
            SpellEffect::DelayedExplosion => 15,
            SpellEffect::MPEater => 16,
            SpellEffect::Hemorrhage => 17,
            SpellEffect::Bleeding => 18,
            SpellEffect::AwakeningSuccess => 19,
            SpellEffect::AwakeningFail => 20,
            SpellEffect::AwakeningMiss => 21,
            SpellEffect::AwakeningHit => 22,
            SpellEffect::StormEscape => 23,
            SpellEffect::TurtleKing => 24,
            SpellEffect::Behemoth => 25,
            SpellEffect::Stunned => 26,
            SpellEffect::IcePillar => 27,
            SpellEffect::KingGuard => 28,
            SpellEffect::KingGuard2 => 29,
            SpellEffect::DeathCrawlerBreath => 30,
            SpellEffect::FlamingMutantWeb => 31,
            SpellEffect::FurbolgWarriorCritical => 32,
            SpellEffect::Tester => 33,
            SpellEffect::MoonMist => 34,
        }
    }

    /// Reads a wire value: the variant it stands for, `None` for any other value.
    pub fn from_code(v: u8) -> (r: Option<Self>)
        ensures
            r == Self::spec_from_code(v),
            r matches Some(e) ==> e.spec_code() == v,
    {
        if v == 0 { Some(SpellEffect::NotSet) }
        else if v == 1 { Some(SpellEffect::FatalSword) }
        else if v == 2 { Some(SpellEffect::Teleport) }
        else if v == 3 { Some(SpellEffect::Healing) }
        else if v == 4 { Some(SpellEffect::RedMoonEvil) }
        else if v == 5 { Some(SpellEffect::TwinDrakeBlade) }
        else if v == 6 { Some(SpellEffect::MagicShieldUp) }
        else if v == 7 { Some(SpellEffect::MagicShieldDown) }
        else if v == 8 { Some(SpellEffect::GreatFoxSpirit) }
        else if v == 9 { Some(SpellEffect::Entrapment) }
        else if v == 10 { Some(SpellEffect::Reflect) }
        else if v == 11 { Some(SpellEffect::Critical) }
        else if v == 12 { Some(SpellEffect::Mine) }
        else if v == 13 { Some(SpellEffect::ElementalBarrierUp) }
        else if v == 14 { Some(SpellEffect::ElementalBarrierDown) }
        else if v == 15 { Some(SpellEffect::DelayedExplosion) }
        else if v == 16 { Some(SpellEffect::MPEater) }
        else if v == 17 { Some(SpellEffect::Hemorrhage) }
        else if v == 18 { Some(SpellEffect::Bleeding) }
        else if v == 19 { Some(SpellEffect::AwakeningSuccess) }
        else if v == 20 { Some(SpellEffect::AwakeningFail) }
        else if v == 21 { Some(SpellEffect::AwakeningMiss) }
        else if v == 22 { Some(SpellEffect::AwakeningHit) }
        else if v == 23 { Some(SpellEffect::StormEscape) }
        else if v == 24 { Some(SpellEffect::TurtleKing) }
        else if v == 25 { Some(SpellEffect::Behemoth) }
        else if v == 26 { Some(SpellEffect::Stunned) }
        else if v == 27 { Some(SpellEffect::IcePillar) }
        else if v == 28 { Some(SpellEffect::KingGuard) }
        else if v == 29 { Some(SpellEffect::KingGuard2) }
        else if v == 30 { Some(SpellEffect::DeathCrawlerBreath) }
        else if v == 31 { Some(SpellEffect::FlamingMutantWeb) }
        else if v == 32 { Some(SpellEffect::FurbolgWarriorCritical) }
        else if v == 33 { Some(SpellEffect::Tester) }
        else if v == 34 { Some(SpellEffect::MoonMist) }
        else { None }
    }
}

/// 伤害类型
#[derive(Debug, Clone, Copy, PartialEq, Eq, Hash, Structural)]
pub enum DamageType {
    Hit,
    Miss,
    Critical,
}

impl DamageType {
    /// The wire value of each variant.
    pub open spec fn spec_code(self) -> u8 {
        match self {
            DamageType::Hit => 0,
            DamageType::Miss => 1,
            DamageType::Critical => 2,
        }
    }

    /// The variant whose wire value is `v`, if any.
    pub open spec fn spec_from_code(v: u8) -> Option<Self> {
        if v == 0 { Some(DamageType::Hit) }
        else if v == 1 { Some(DamageType::Miss) }
        else if v == 2 { Some(DamageType::Critical) }
        else { None }
    }

    /// Returns the wire value; reading it back gives this variant.
    pub fn code(self) -> (r: u8)
        ensures
            r == self.spec_code(),
            Self::spec_from_code(r) == Some(self),
    {
        match self {
            DamageType::Hit => 0,
            DamageType::Miss => 1,
            DamageType::Critical => 2,
        }
    }

    /// Reads a wire value: the variant it stands for, `None` for any other value.
    pub fn from_code(v: u8) -> (r: Option<Self>)
        ensures
            r == Self::spec_from_code(v),
            r matches Some(e) ==> e.spec_code() == v,
    {
        if v == 0 { Some(DamageType::Hit) }
        else if v == 1 { Some(DamageType::Miss) }
        else if v == 2 { Some(DamageType::Critical) }
        else { None }
    }
}

/// 网格类型（背包、装备等）
#[derive(Debug, Clone, Copy, PartialEq, Eq, Hash, Structural)]
pub enum MirGridType {
    NotSet,
    Inventory,
    Equipment,
    Trade,
    Storage,
    BuyBack,
    DropPanel,
    Inspect,
    TrustMerchant,
    GuildStorage,
    GuestTrade,
    Mount,
    Fishing,
    QuestInventory,
    AwakenItem,
    Mail,
    Refine,
    Renting,
    GuestRenting,
    Craft,
    Socket,
    HeroEquipment,
    HeroInventory,
    HeroHPItem,
    HeroMPItem,
}

impl MirGridType {
    /// The wire value of each variant.
    pub open spec fn spec_code(self) -> u8 {
        match self {
            MirGridType::NotSet => 0,
            MirGridType::Inventory => 1,
            MirGridType::Equipment => 2,
            MirGridType::Trade => 3,
            MirGridType::Storage => 4,
            MirGridType::BuyBack => 5,
            MirGridType::DropPanel => 6,
            MirGridType::Inspect => 7,
            MirGridType::TrustMerchant => 8,
            MirGridType::GuildStorage => 9,
            MirGridType::GuestTrade => 10,
            MirGridType::Mount => 11,
            MirGridType::Fishing => 12,
            MirGridType::QuestInventory => 13,
            MirGridType::AwakenItem => 14,
            MirGridType::Mail => 15,
            MirGridType::Refine => 16,
            MirGridType::Renting => 17,
            MirGridType::GuestRenting => 18,
            MirGridType::Craft => 19,
            MirGridType::Socket => 20,
            MirGridType::HeroEquipment => 21,
            MirGridType::HeroInventory => 22,
            MirGridType::HeroHPItem => 23,
            MirGridType::HeroMPItem => 24,
        }
    }

    /// The variant whose wire value is `v`, if any.
    pub open spec fn spec_from_code(v: u8) -> Option<Self> {
        if v == 0 { Some(MirGridType::NotSet) }
        else if v == 1 { Some(MirGridType::Inventory) }
        else if v == 2 { Some(MirGridType::Equipment) }
        else if v == 3 { Some(MirGridType::Trade) }
        else if v == 4 { Some(MirGridType::Storage) }
        else if v == 5 { Some(MirGridType::BuyBack) }
        else if v == 6 { Some(MirGridType::DropPanel) }
        else if v == 7 { Some(MirGridType::Inspect) }
        else if v == 8 { Some(MirGridType::TrustMerchant) }
        else if v == 9 { Some(MirGridType::GuildStorage) }
        else if v == 10 { Some(MirGridType::GuestTrade) }
        else if v == 11 { Some(MirGridType::Mount) }
        else if v == 12 { Some(MirGridType::Fishing) }
        else if v == 13 { Some(MirGridType::QuestInventory) }
        else if v == 14 { Some(MirGridType::AwakenItem) }
        else if v == 15 { Some(MirGridType::Mail) }
        else if v == 16 { Some(MirGridType::Refine) }
        else if v == 17 { Some(MirGridType::Renting) }
        else if v == 18 { Some(MirGridType::GuestRenting) }
        else if v == 19 { Some(MirGridType::Craft) }
        else if v == 20 { Some(MirGridType::Socket) }
        else if v == 21 { Some(MirGridType::HeroEquipment) }
        else if v == 22 { Some(MirGridType::HeroInventory) }
        else if v == 23 { Some(MirGridType::HeroHPItem) }
        else if v == 24 { Some(MirGridType::HeroMPItem) }
        else { None }
    }

    /// Returns the wire value; reading it back gives this variant.
    pub fn code(self) -> (r: u8)
        ensures
            r == self.spec_code(),
            Self::spec_from_code(r) == Some(self),
    {
        match self {
            MirGridType::NotSet => 0,
            MirGridType::Inventory => 1,
            MirGridType::Equipment => 2,
            MirGridType::Trade => 3,
            MirGridType::Storage => 4,
            MirGridType::BuyBack => 5,
            MirGridType::DropPanel => 6,
            MirGridType::Inspect => 7,
            MirGridType::TrustMerchant => 8,
            MirGridType::GuildStorage => 9,
            MirGridType::GuestTrade => 10,
            MirGridType::Mount => 11,
            MirGridType::Fishing => 12,
            MirGridType::QuestInventory => 13,
            MirGridType::AwakenItem => 14,
            MirGridType::Mail => 15,
            MirGridType::Refine => 16,
            MirGridType::Renting => 17,
            MirGridType::GuestRenting => 18,
            MirGridType::Craft => 19,
            MirGridType::Socket => 20,
            MirGridType::HeroEquipment => 21,
            MirGridType::HeroInventory => 22,
            MirGridType::HeroHPItem => 23,
            MirGridType::HeroMPItem => 24,
        }
    }

    /// Reads a wire value: the variant it stands for, `None` for any other value.
    pub fn from_code(v: u8) -> (r: Option<Self>)
        ensures
            r == Self::spec_from_code(v),
            r matches Some(e) ==> e.spec_code() == v,
    {
        if v == 0 { Some(MirGridType::NotSet) }
        else if v == 1 { Some(MirGridType::Inventory) }
        else if v == 2 { Some(MirGridType::Equipment) }
        else if v == 3 { Some(MirGridType::Trade) }
        else if v == 4 { Some(MirGridType::Storage) }
        else if v == 5 { Some(MirGridType::BuyBack) }
        else if v == 6 { Some(MirGridType::DropPanel) }
        else if v == 7 { Some(MirGridType::Inspect) }
        else if v == 8 { Some(MirGridType::TrustMerchant) }
        else if v == 9 { Some(MirGridType::GuildStorage) }
        else if v == 10 { Some(MirGridType::GuestTrade) }
        else if v == 11 { Some(MirGridType::Mount) }
        else if v == 12 { Some(MirGridType::Fishing) }
        else if v == 13 { Some(MirGridType::QuestInventory) }
        else if v == 14 { Some(MirGridType::AwakenItem) }
        else if v == 15 { Some(MirGridType::Mail) }
        else if v == 16 { Some(MirGridType::Refine) }
        else if v == 17 { Some(MirGridType::Renting) }
        else if v == 18 { Some(MirGridType::GuestRenting) }
        else if v == 19 { Some(MirGridType::Craft) }
        else if v == 20 { Some(MirGridType::Socket) }
        else if v == 21 { Some(MirGridType::HeroEquipment) }
        else if v == 22 { Some(MirGridType::HeroInventory) }
        else if v == 23 { Some(MirGridType::HeroHPItem) }
        else if v == 24 { Some(MirGridType::HeroMPItem) }
        else { None }
    }
}

/// 面板类型
#[derive(Debug, Clone, Copy, PartialEq, Eq, Hash, Structural)]
pub enum PanelType {
    Buy,
    BuySub,
    Craft,
    Sell,
    Repair,
    SpecialRepair,
    Consign,
    Refine,
    CheckRefine,
    Disassemble,
    Downgrade,
    Reset,
    CollectRefine,
    ReplaceWedRing,
}

impl PanelType {
    /// The wire value of each variant.
    pub open spec fn spec_code(self) -> u8 {
        match self {
            PanelType::Buy => 0,
            PanelType::BuySub => 1,
            PanelType::Craft => 2,
            PanelType::Sell => 3,
            PanelType::Repair => 4,
            PanelType::SpecialRepair => 5,
            PanelType::Consign => 6,
            PanelType::Refine => 7,
            PanelType::CheckRefine => 8,
            PanelType::Disassemble => 9,
            PanelType::Downgrade => 10,
            PanelType::Reset => 11,
            PanelType::CollectRefine => 12,
            PanelType::ReplaceWedRing => 13,
        }
    }

    /// The variant whose wire value is `v`, if any.
    pub open spec fn spec_from_code(v: u8) -> Option<Self> {
        if v == 0 { Some(PanelType::Buy) }
        else if v == 1 { Some(PanelType::BuySub) }
        else if v == 2 { Some(PanelType::Craft) }
        else if v == 3 { Some(PanelType::Sell) }
        else if v == 4 { Some(PanelType::Repair) }
        else if v == 5 { Some(PanelType::SpecialRepair) }
        else if v == 6 { Some(PanelType::Consign) }
        else if v == 7 { Some(PanelType::Refine) }
        else if v == 8 { Some(PanelType::CheckRefine) }
        else if v == 9 { Some(PanelType::Disassemble) }
        else if v == 10 { Some(PanelType::Downgrade) }
        else if v == 11 { Some(PanelType::Reset) }
        else if v == 12 { Some(PanelType::CollectRefine) }
        else if v == 13 { Some(PanelType::ReplaceWedRing) }
        else { None }
    }

    /// Returns the wire value; reading it back gives this variant.
    pub fn code(self) -> (r: u8)
        ensures
            r == self.spec_code(),
            Self::spec_from_code(r) == Some(self),
    {
        match self {
            PanelType::Buy => 0,
            PanelType::BuySub => 1,
            PanelType::Craft => 2,
            PanelType::Sell => 3,
            PanelType::Repair => 4,
            PanelType::SpecialRepair => 5,
            PanelType::Consign => 6,
            PanelType::Refine => 7,
            PanelType::CheckRefine => 8,
            PanelType::Disassemble => 9,
            PanelType::Downgrade => 10,
            PanelType::Reset => 11,
            PanelType::CollectRefine => 12,
            PanelType::ReplaceWedRing => 13,
        }
    }

    /// Reads a wire value: the variant it stands for, `None` for any other value.
    pub fn from_code(v: u8) -> (r: Option<Self>)
        ensures
            r == Self::spec_from_code(v),
            r matches Some(e) ==> e.spec_code() == v,
    {
        if v == 0 { Some(PanelType::Buy) }
        else if v == 1 { Some(PanelType::BuySub) }
        else if v == 2 { Some(PanelType::Craft) }
        else if v == 3 { Some(PanelType::Sell) }
        else if v == 4 { Some(PanelType::Repair) }
        else if v == 5 { Some(PanelType::SpecialRepair) }
        else if v == 6 { Some(PanelType::Consign) }
        else if v == 7 { Some(PanelType::Refine) }
        else if v == 8 { Some(PanelType::CheckRefine) }
        else if v == 9 { Some(PanelType::Disassemble) }
        else if v == 10 { Some(PanelType::Downgrade) }
        else if v == 11 { Some(PanelType::Reset) }
        else if v == 12 { Some(PanelType::CollectRefine) }
        else if v == 13 { Some(PanelType::ReplaceWedRing) }
        else { None }
    }
}

/// 所需类型
#[derive(Debug, Clone, Copy, PartialEq, Eq, Hash, Structural)]
pub enum RequiredType {
    Level,
    MaxAC,
    MaxMAC,
    MaxDC,
    MaxMC,
    MaxSC,
    MaxLevel,
    MinAC,
    MinMAC,
    MinDC,
    MinMC,
    MinSC,
}

impl RequiredType {
    /// The wire value of each variant.
    pub open spec fn spec_code(self) -> u8 {
        match self {
            RequiredType::Level => 0,
            RequiredType::MaxAC => 1,
            RequiredType::MaxMAC => 2,
            RequiredType::MaxDC => 3,
            RequiredType::MaxMC => 4,
            RequiredType::MaxSC => 5,
            RequiredType::MaxLevel => 6,
            RequiredType::MinAC => 7,
            RequiredType::MinMAC => 8,
            RequiredType::MinDC => 9,
            RequiredType::MinMC => 10,
            RequiredType::MinSC => 11,
        }
    }

    /// The variant whose wire value is `v`, if any.
    pub open spec fn spec_from_code(v: u8) -> Option<Self> {
        if v == 0 { Some(RequiredType::Level) }
        else if v == 1 { Some(RequiredType::MaxAC) }
        else if v == 2 { Some(RequiredType::MaxMAC) }
        else if v == 3 { Some(RequiredType::MaxDC) }
        else if v == 4 { Some(RequiredType::MaxMC) }
        else if v == 5 { Some(RequiredType::MaxSC) }
        else if v == 6 { Some(RequiredType::MaxLevel) }
        else if v == 7 { Some(RequiredType::MinAC) }
        else if v == 8 { Some(RequiredType::MinMAC) }
        else if v == 9 { Some(RequiredType::MinDC) }
        else if v == 10 { Some(RequiredType::MinMC) }
        else if v == 11 { Some(RequiredType::MinSC) }
        else { None }
    }

    /// Returns the wire value; reading it back gives this variant.
    pub fn code(self) -> (r: u8)
        ensures
            r == self.spec_code(),
            Self::spec_from_code(r) == Some(self),
    {
        match self {
            RequiredType::Level => 0,
            RequiredType::MaxAC => 1,
            RequiredType::MaxMAC => 2,
            RequiredType::MaxDC => 3,
            RequiredType::MaxMC => 4,
            RequiredType::MaxSC => 5,
            RequiredType::MaxLevel => 6,
            RequiredType::MinAC => 7,
            RequiredType::MinMAC => 8,
            RequiredType::MinDC => 9,
            RequiredType::MinMC => 10,
            RequiredType::MinSC => 11,
        }
    }

    /// Reads a wire value: the variant it stands for, `None` for any other value.
    pub fn from_code(v: u8) -> (r: Option<Self>)
        ensures
            r == Self::spec_from_code(v),
            r matches Some(e) ==> e.spec_code() == v,
    {
        if v == 0 { Some(RequiredType::Level) }
        else if v == 1 { Some(RequiredType::MaxAC) }
        else if v == 2 { Some(RequiredType::MaxMAC) }
        else if v == 3 { Some(RequiredType::MaxDC) }
        else if v == 4 { Some(RequiredType::MaxMC) }
        else if v == 5 { Some(RequiredType::MaxSC) }
        else if v == 6 { Some(RequiredType::MaxLevel) }
        else if v == 7 { Some(RequiredType::MinAC) }
        else if v == 8 { Some(RequiredType::MinMAC) }
        else if v == 9 { Some(RequiredType::MinDC) }
        else if v == 10 { Some(RequiredType::MinMC) }
        else if v == 11 { Some(RequiredType::MinSC) }
        else { None }
    }
}

/// 游戏阶段（从 MirConnection 逻辑推断）
#[derive(Debug, Clone, Copy, PartialEq, Eq, Hash, Structural)]
pub enum GameStage {
    NotSet,
    Login,
    SelectChar,
    Loading,
    Game,
}

impl GameStage {
    /// The wire value of each variant.
    pub open spec fn spec_code(self) -> u8 {
        match self {
            GameStage::NotSet => 0,
            GameStage::Login => 1,
            GameStage::SelectChar => 2,
            GameStage::Loading => 3,
            GameStage::Game => 4,
        }
    }

    /// The variant whose wire value is `v`, if any.
    pub open spec fn spec_from_code(v: u8) -> Option<Self> {
        if v == 0 { Some(GameStage::NotSet) }
        else if v == 1 { Some(GameStage::Login) }
        else if v == 2 { Some(GameStage::SelectChar) }
        else if v == 3 { Some(GameStage::Loading) }
        else if v == 4 { Some(GameStage::Game) }
        else { None }
    }

    /// Returns the wire value; reading it back gives this variant.
    pub fn code(self) -> (r: u8)
        ensures
            r == self.spec_code(),
            Self::spec_from_code(r) == Some(self),
    {
        match self {
            GameStage::NotSet => 0,
            GameStage::Login => 1,
            GameStage::SelectChar => 2,
            GameStage::Loading => 3,
            GameStage::Game => 4,
        }
    }

    /// Reads a wire value: the variant it stands for, `None` for any other value.
    pub fn from_code(v: u8) -> (r: Option<Self>)
        ensures
            r == Self::spec_from_code(v),
            r matches Some(e) ==> e.spec_code() == v,
    {
        if v == 0 { Some(GameStage::NotSet) }
        else if v == 1 { Some(GameStage::Login) }
        else if v == 2 { Some(GameStage::SelectChar) }
        else if v == 3 { Some(GameStage::Loading) }
        else if v == 4 { Some(GameStage::Game) }
        else { None }
    }
}

/// 英雄行为
#[derive(Debug, Clone, Copy, PartialEq, Eq, Hash, Structural)]
pub enum HeroBehaviour {
    Attack,
    CounterAttack,
    Follow,
    Custom,
}

impl HeroBehaviour {
    /// The wire value of each variant.
    pub open spec fn spec_code(self) -> u8 {
        match self {
            HeroBehaviour::Attack => 0,
            HeroBehaviour::CounterAttack => 1,
            HeroBehaviour::Follow => 2,
            HeroBehaviour::Custom => 3,
        }
    }

    /// The variant whose wire value is `v`, if any.
    pub open spec fn spec_from_code(v: u8) -> Option<Self> {
        if v == 0 { Some(HeroBehaviour::Attack) }
        else if v == 1 { Some(HeroBehaviour::CounterAttack) }
        else if v == 2 { Some(HeroBehaviour::Follow) }
        else if v == 3 { Some(HeroBehaviour::Custom) }
        else { None }
    }

    /// Returns the wire value; reading it back gives this variant.
    pub fn code(self) -> (r: u8)
        ensures
            r == self.spec_code(),
            Self::spec_from_code(r) == Some(self),
    {
        match self {
            HeroBehaviour::Attack => 0,
            HeroBehaviour::CounterAttack => 1,
            HeroBehaviour::Follow => 2,
            HeroBehaviour::Custom => 3,
        }
    }

    /// Reads a wire value: the variant it stands for, `None` for any other value.
    pub fn from_code(v: u8) -> (r: Option<Self>)
        ensures
            r == Self::spec_from_code(v),
            r matches Some(e) ==> e.spec_code() == v,
    {
        if v == 0 { Some(HeroBehaviour::Attack) }
        else if v == 1 { Some(HeroBehaviour::CounterAttack) }
        else if v == 2 { Some(HeroBehaviour::Follow) }
        else if v == 3 { Some(HeroBehaviour::Custom) }
        else { None }
    }
}

/// 英雄生成状态
#[derive(Debug, Clone, Copy, PartialEq, Eq, Hash, Structural)]
pub enum HeroSpawnState {
    NotSet,
    Unsummoned,
    Summoned,
    Dead,
}

impl HeroSpawnState {
    /// The wire value of each variant.
    pub open spec fn spec_code(self) -> u8 {
        match self {
            HeroSpawnState::NotSet => 0,
            HeroSpawnState::Unsummoned => 1,
            HeroSpawnState::Summoned => 2,
            HeroSpawnState::Dead => 3,
        }
    }

    /// The variant whose wire value is `v`, if any.
    pub open spec fn spec_from_code(v: u8) -> Option<Self> {
        if v == 0 { Some(HeroSpawnState::NotSet) }
        else if v == 1 { Some(HeroSpawnState::Unsummoned) }
        else if v == 2 { Some(HeroSpawnState::Summoned) }
        else if v == 3 { Some(HeroSpawnState::Dead) }
        else { None }
    }

    /// Returns the wire value; reading it back gives this variant.
    pub fn code(self) -> (r: u8)
        ensures
            r == self.spec_code(),
            Self::spec_from_code(r) == Some(self),
    {
        match self {
            HeroSpawnState::NotSet => 0,
            HeroSpawnState::Unsummoned => 1,
            HeroSpawnState::Summoned => 2,
            HeroSpawnState::Dead => 3,
        }
    }

    /// Reads a wire value: the variant it stands for, `None` for any other value.
    pub fn from_code(v: u8) -> (r: Option<Self>)
        ensures
            r == Self::spec_from_code(v),
            r matches Some(e) ==> e.spec_code() == v,
    {
        if v == 0 { Some(HeroSpawnState::NotSet) }
        else if v == 1 { Some(HeroSpawnState::Unsummoned) }
        else if v == 2 { Some(HeroSpawnState::Summoned) }
        else if v == 3 { Some(HeroSpawnState::Dead) }
        else { None }
    }
}

/// 征服类型
#[derive(Debug, Clone, Copy, PartialEq, Eq, Hash, Structural)]
pub enum ConquestType {
    Request,
    Auto,
    Forced,
}

impl ConquestType {
    /// The wire value of each variant.
    pub open spec fn spec_code(self) -> u8 {
        match self {
            ConquestType::Request => 0,
            ConquestType::Auto => 1,
            ConquestType::Forced => 2,
        }
    }

    /// The variant whose wire value is `v`, if any.
    pub open spec fn spec_from_code(v: u8) -> Option<Self> {
        if v == 0 { Some(ConquestType::Request) }
        else if v == 1 { Some(ConquestType::Auto) }
        else if v == 2 { Some(ConquestType::Forced) }
        else { None }
    }

    /// Returns the wire value; reading it back gives this variant.
    pub fn code(self) -> (r: u8)
        ensures
            r == self.spec_code(),
            Self::spec_from_code(r) == Some(self),
    {
        match self {
            ConquestType::Request => 0,
            ConquestType::Auto => 1,
            ConquestType::Forced => 2,
        }
    }

    /// Reads a wire value: the variant it stands for, `None` for any other value.
    pub fn from_code(v: u8) -> (r: Option<Self>)
        ensures
            r == Self::spec_from_code(v),
            r matches Some(e) ==> e.spec_code() == v,
    {
        if v == 0 { Some(ConquestType::Request) }
        else if v == 1 { Some(ConquestType::Auto) }
        else if v == 2 { Some(ConquestType::Forced) }
        else { None }
    }
}

/// 门状态
#[derive(Debug, Clone, Copy, PartialEq, Eq, Hash, Structural)]
pub enum DoorState {
    Closed,
    Opening,
    Open,
    Closing,
}

impl DoorState {
    /// The wire value of each variant.
    pub open spec fn spec_code(self) -> u8 {
        match self {
            DoorState::Closed => 0,
            DoorState::Opening => 1,
            DoorState::Open => 2,
            DoorState::Closing => 3,
        }
    }

    /// The variant whose wire value is `v`, if any.
    pub open spec fn spec_from_code(v: u8) -> Option<Self> {
        if v == 0 { Some(DoorState::Closed) }
        else if v == 1 { Some(DoorState::Opening) }
        else if v == 2 { Some(DoorState::Open) }
        else if v == 3 { Some(DoorState::Closing) }
        else { None }
    }

    /// Returns the wire value; reading it back gives this variant.
    pub fn code(self) -> (r: u8)
        ensures
            r == self.spec_code(),
            Self::spec_from_code(r) == Some(self),
    {
        match self {
            DoorState::Closed => 0,
            DoorState::Opening => 1,
            DoorState::Open => 2,
            DoorState::Closing => 3,
        }
    }

    /// Reads a wire value: the variant it stands for, `None` for any other value.
    pub fn from_code(v: u8) -> (r: Option<Self>)
        ensures
            r == Self::spec_from_code(v),
            r matches Some(e) ==> e.spec_code() == v,
    {
        if v == 0 { Some(DoorState::Closed) }
        else if v == 1 { Some(DoorState::Opening) }
        else if v == 2 { Some(DoorState::Open) }
        else if v == 3 { Some(DoorState::Closing) }
        else { None }
    }
}

/// 智能生物类型
#[derive(Debug, Clone, Copy, PartialEq, Eq, Hash, Structural)]
pub enum IntelligentCreatureType {
    BabyPig,
    Chick,
    Kitten,
    BabySkeleton,
    Baekdon,
    Wimaen,
    BlackKitten,
    BabyDragon,
    OlympicFlame,
    BabySnowMan,
    Frog,
    BabyMonkey,
    AngryBird,
    Foxey,
    MedicalRat,
    NotSet,
}

impl IntelligentCreatureType {
    /// The wire value of each variant.
    pub open spec fn spec_code(self) -> u8 {
        match self {
            IntelligentCreatureType::BabyPig => 0,
            IntelligentCreatureType::Chick => 1,
            IntelligentCreatureType::Kitten => 2,
            IntelligentCreatureType::BabySkeleton => 3,
            IntelligentCreatureType::Baekdon => 4,
            IntelligentCreatureType::Wimaen => 5,
            IntelligentCreatureType::BlackKitten => 6,
            IntelligentCreatureType::BabyDragon => 7,
            IntelligentCreatureType::OlympicFlame => 8,
            IntelligentCreatureType::BabySnowMan => 9,
            IntelligentCreatureType::Frog => 10,
            IntelligentCreatureType::BabyMonkey => 11,
            IntelligentCreatureType::AngryBird => 12,
            IntelligentCreatureType::Foxey => 13,
            IntelligentCreatureType::MedicalRat => 14,
            IntelligentCreatureType::NotSet => 99,
        }
    }

    /// The variant whose wire value is `v`, if any.
    pub open spec fn spec_from_code(v: u8) -> Option<Self> {
        if v == 0 { Some(IntelligentCreatureType::BabyPig) }
        else if v == 1 { Some(IntelligentCreatureType::Chick) }
        else if v == 2 { Some(IntelligentCreatureType::Kitten) }
        else if v == 3 { Some(IntelligentCreatureType::BabySkeleton) }
        else if v == 4 { Some(IntelligentCreatureType::Baekdon) }
        else if v == 5 { Some(IntelligentCreatureType::Wimaen) }
        else if v == 6 { Some(IntelligentCreatureType::BlackKitten) }
        else if v == 7 { Some(IntelligentCreatureType::BabyDragon) }
        else if v == 8 { Some(IntelligentCreatureType::OlympicFlame) }
        else if v == 9 { Some(IntelligentCreatureType::BabySnowMan) }
        else if v == 10 { Some(IntelligentCreatureType::Frog) }
        else if v == 11 { Some(IntelligentCreatureType::BabyMonkey) }
        else if v == 12 { Some(IntelligentCreatureType::AngryBird) }
        else if v == 13 { Some(IntelligentCreatureType::Foxey) }
        else if v == 14 { Some(IntelligentCreatureType::MedicalRat) }
        else if v == 99 { Some(IntelligentCreatureType::NotSet) }
        else { None }
    }

    /// Returns the wire value; reading it back gives this variant.
    pub fn code(self) -> (r: u8)
        ensures
            r == self.spec_code(),
            Self::spec_from_code(r) == Some(self),
    {
        match self {
            IntelligentCreatureType::BabyPig => 0,
            IntelligentCreatureType::Chick => 1,
            IntelligentCreatureType::Kitten => 2,
            IntelligentCreatureType::BabySkeleton => 3,
            IntelligentCreatureType::Baekdon => 4,
            IntelligentCreatureType::Wimaen => 5,
            IntelligentCreatureType::BlackKitten => 6,
            IntelligentCreatureType::BabyDragon => 7,
            IntelligentCreatureType::OlympicFlame => 8,
            IntelligentCreatureType::BabySnowMan => 9,
            IntelligentCreatureType::Frog => 10,
            IntelligentCreatureType::BabyMonkey => 11,
            IntelligentCreatureType::AngryBird => 12,
            IntelligentCreatureType::Foxey => 13,
            IntelligentCreatureType::MedicalRat => 14,
            IntelligentCreatureType::NotSet => 99,
        }
    }

    /// Reads a wire value: the variant it stands for, `None` for any other value.
    pub fn from_code(v: u8) -> (r: Option<Self>)
        ensures
            r == Self::spec_from_code(v),
            r matches Some(e) ==> e.spec_code() == v,
    {
        if v == 0 { Some(IntelligentCreatureType::BabyPig) }
        else if v == 1 { Some(IntelligentCreatureType::Chick) }
        else if v == 2 { Some(IntelligentCreatureType::Kitten) }
        else if v == 3 { Some(IntelligentCreatureType::BabySkeleton) }
        else if v == 4 { Some(IntelligentCreatureType::Baekdon) }
        else if v == 5 { Some(IntelligentCreatureType::Wimaen) }
        else if v == 6 { Some(IntelligentCreatureType::BlackKitten) }
        else if v == 7 { Some(IntelligentCreatureType::BabyDragon) }
        else if v == 8 { Some(IntelligentCreatureType::OlympicFlame) }
        else if v == 9 { Some(IntelligentCreatureType::BabySnowMan) }
        else if v == 10 { Some(IntelligentCreatureType::Frog) }
        else if v == 11 { Some(IntelligentCreatureType::BabyMonkey) }
        else if v == 12 { Some(IntelligentCreatureType::AngryBird) }
        else if v == 13 { Some(IntelligentCreatureType::Foxey) }
        else if v == 14 { Some(IntelligentCreatureType::MedicalRat) }
        else if v == 99 { Some(IntelligentCreatureType::NotSet) }
        else { None }
    }
}

/// 坐骑槽位
#[derive(Debug, Clone, Copy, PartialEq, Eq, Hash, Structural)]
pub enum MountSlot {
    Reins,
    Bells,
    Saddle,
    Ribbon,
    Mask,
}

impl MountSlot {
    /// The wire value of each variant.
    pub open spec fn spec_code(self) -> u8 {
        match self {
            MountSlot::Reins => 0,
            MountSlot::Bells => 1,
            MountSlot::Saddle => 2,
            MountSlot::Ribbon => 3,
            MountSlot::Mask => 4,
        }
    }

    /// The variant whose wire value is `v`, if any.
    pub open spec fn spec_from_code(v: u8) -> Option<Self> {
        if v == 0 { Some(MountSlot::Reins) }
        else if v == 1 { Some(MountSlot::Bells) }
        else if v == 2 { Some(MountSlot::Saddle) }
        else if v == 3 { Some(MountSlot::Ribbon) }
        else if v == 4 { Some(MountSlot::Mask) }
        else { None }
    }

    /// Returns the wire value; reading it back gives this variant.
    pub fn code(self) -> (r: u8)
        ensures
            r == self.spec_code(),
            Self::spec_from_code(r) == Some(self),
    {
        match self {
            MountSlot::Reins => 0,
            MountSlot::Bells => 1,
            MountSlot::Saddle => 2,
            MountSlot::Ribbon => 3,
            MountSlot::Mask => 4,
        }
    }

    /// Reads a wire value: the variant it stands for, `None` for any other value.
    pub fn from_code(v: u8) -> (r: Option<Self>)
        ensures
            r == Self::spec_from_code(v),
            r matches Some(e) ==> e.spec_code() == v,
    {
        if v == 0 { Some(MountSlot::Reins) }
        else if v == 1 { Some(MountSlot::Bells) }
        else if v == 2 { Some(MountSlot::Saddle) }
        else if v == 3 { Some(MountSlot::Ribbon) }
        else if v == 4 { Some(MountSlot::Mask) }
        else { None }
    }
}

/// 钓鱼槽位
#[derive(Debug, Clone, Copy, PartialEq, Eq, Hash, Structural)]
pub enum FishingSlot {
    Hook,
    Float,
    Bait,
    Finder,
    Reel,
}

impl FishingSlot {
    /// The wire value of each variant.
    pub open spec fn spec_code(self) -> u8 {
        match self {
            FishingSlot::Hook => 0,
            FishingSlot::Float => 1,
            FishingSlot::Bait => 2,
            FishingSlot::Finder => 3,
            FishingSlot::Reel => 4,
        }
    }

    /// The variant whose wire value is `v`, if any.
    pub open spec fn spec_from_code(v: u8) -> Option<Self> {
        if v == 0 { Some(FishingSlot::Hook) }
        else if v == 1 { Some(FishingSlot::Float) }
        else if v == 2 { Some(FishingSlot::Bait) }
        else if v == 3 { Some(FishingSlot::Finder) }
        else if v == 4 { Some(FishingSlot::Reel) }
        else { None }
    }

    /// Returns the wire value; reading it back gives this variant.
    pub fn code(self) -> (r: u8)
        ensures
            r == self.spec_code(),
            Self::spec_from_code(r) == Some(self),
    {
        match self {
            FishingSlot::Hook => 0,
            FishingSlot::Float => 1,
            FishingSlot::Bait => 2,
            FishingSlot::Finder => 3,
            FishingSlot::Reel => 4,
        }
    }

    /// Reads a wire value: the variant it stands for, `None` for any other value.
    pub fn from_code(v: u8) -> (r: Option<Self>)
        ensures
            r == Self::spec_from_code(v),
            r matches Some(e) ==> e.spec_code() == v,
    {
        if v == 0 { Some(FishingSlot::Hook) }
        else if v == 1 { Some(FishingSlot::Float) }
        else if v == 2 { Some(FishingSlot::Bait) }
        else if v == 3 { Some(FishingSlot::Finder) }
        else if v == 4 { Some(FishingSlot::Reel) }
        else { None }
    }
}

/// 物品套装
#[derive(Debug, Clone, Copy, PartialEq, Eq, Hash, Structural)]
pub enum ItemSet {
    NotSet,
    Spirit,
    Recall,
    RedOrchid,
    RedFlower,
    Smash,
    HwanDevil,
    Purity,
    FiveString,
    Mundane,
    NokChi,
    TaoProtect,
    Mir,
    Bone,
    Bug,
    WhiteGold,
    WhiteGoldH,
    RedJade,
    RedJadeH,
    Nephrite,
    NephriteH,
    Whisker1,
    Whisker2,
    Whisker3,
    Whisker4,
    Whisker5,
    Hyeolryong,
    Monitor,
    Oppressive,
    Paeok,
    Sulgwan,
    BlueFrost,
    DarkGhost,
    BlueFrostH,
}

impl ItemSet {
    /// The wire value of each variant.
    pub open spec fn spec_code(self) -> u8 {
        match self {
            ItemSet::NotSet => 0,
            ItemSet::Spirit => 1,
            ItemSet::Recall => 2,
            ItemSet::RedOrchid => 3,
            ItemSet::RedFlower => 4,
            ItemSet::Smash => 5,
            ItemSet::HwanDevil => 6,
            ItemSet::Purity => 7,
            ItemSet::FiveString => 8,
            ItemSet::Mundane => 9,
            ItemSet::NokChi => 10,
            ItemSet::TaoProtect => 11,
            ItemSet::Mir => 12,
            ItemSet::Bone => 13,
            ItemSet::Bug => 14,
            ItemSet::WhiteGold => 15,
            ItemSet::WhiteGoldH => 16,
            ItemSet::RedJade => 17,
            ItemSet::RedJadeH => 18,
            ItemSet::Nephrite => 19,
            ItemSet::NephriteH => 20,
            ItemSet::Whisker1 => 21,
            ItemSet::Whisker2 => 22,
            ItemSet::Whisker3 => 23,
            ItemSet::Whisker4 => 24,
            ItemSet::Whisker5 => 25,
            ItemSet::Hyeolryong => 26,
            ItemSet::Monitor => 27,
            ItemSet::Oppressive => 28,
            ItemSet::Paeok => 29,
            ItemSet::Sulgwan => 30,
            ItemSet::BlueFrost => 31,
            ItemSet::DarkGhost => 38,
            ItemSet::BlueFrostH => 39,
        }
    }

    /// The variant whose wire value is `v`, if any.
    pub open spec fn spec_from_code(v: u8) -> Option<Self> {
        if v == 0 { Some(ItemSet::NotSet) }
        else if v == 1 { Some(ItemSet::Spirit) }
        else if v == 2 { Some(ItemSet::Recall) }
        else if v == 3 { Some(ItemSet::RedOrchid) }
        else if v == 4 { Some(ItemSet::RedFlower) }
        else if v == 5 { Some(ItemSet::Smash) }
        else if v == 6 { Some(ItemSet::HwanDevil) }
        else if v == 7 { Some(ItemSet::Purity) }
        else if v == 8 { Some(ItemSet::FiveString) }
        else if v == 9 { Some(ItemSet::Mundane) }
        else if v == 10 { Some(ItemSet::NokChi) }
        else if v == 11 { Some(ItemSet::TaoProtect) }
        else if v == 12 { Some(ItemSet::Mir) }
        else if v == 13 { Some(ItemSet::Bone) }
        else if v == 14 { Some(ItemSet::Bug) }
        else if v == 15 { Some(ItemSet::WhiteGold) }
        else if v == 16 { Some(ItemSet::WhiteGoldH) }
        else if v == 17 { Some(ItemSet::RedJade) }
        else if v == 18 { Some(ItemSet::RedJadeH) }
        else if v == 19 { Some(ItemSet::Nephrite) }
        else if v == 20 { Some(ItemSet::NephriteH) }
        else if v == 21 { Some(ItemSet::Whisker1) }
        else if v == 22 { Some(ItemSet::Whisker2) }
        else if v == 23 { Some(ItemSet::Whisker3) }
        else if v == 24 { Some(ItemSet::Whisker4) }
        else if v == 25 { Some(ItemSet::Whisker5) }
        else if v == 26 { Some(ItemSet::Hyeolryong) }
        else if v == 27 { Some(ItemSet::Monitor) }
        else if v == 28 { Some(ItemSet::Oppressive) }
        else if v == 29 { Some(ItemSet::Paeok) }
        else if v == 30 { Some(ItemSet::Sulgwan) }
        else if v == 31 { Some(ItemSet::BlueFrost) }
        else if v == 38 { Some(ItemSet::DarkGhost) }
        else if v == 39 { Some(ItemSet::BlueFrostH) }
        else { None }
    }

    /// Returns the wire value; reading it back gives this variant.
    pub fn code(self) -> (r: u8)
        ensures
            r == self.spec_code(),
            Self::spec_from_code(r) == Some(self),
    {
        match self {
            ItemSet::NotSet => 0,
            ItemSet::Spirit => 1,
            ItemSet::Recall => 2,
            ItemSet::RedOrchid => 3,
            ItemSet::RedFlower => 4,
            ItemSet::Smash => 5,
            ItemSet::HwanDevil => 6,
            ItemSet::Purity => 7,
            ItemSet::FiveString => 8,
            ItemSet::Mundane => 9,
            ItemSet::NokChi => 10,
            ItemSet::TaoProtect => 11,
            ItemSet::Mir => 12,
            ItemSet::Bone => 13,
            ItemSet::Bug => 14,
            ItemSet::WhiteGold => 15,
            ItemSet::WhiteGoldH => 16,
            ItemSet::RedJade => 17,
            ItemSet::RedJadeH => 18,
            ItemSet::Nephrite => 19,
            ItemSet::NephriteH => 20,
            ItemSet::Whisker1 => 21,
            ItemSet::Whisker2 => 22,
            ItemSet::Whisker3 => 23,
            ItemSet::Whisker4 => 24,
            ItemSet::Whisker5 => 25,
            ItemSet::Hyeolryong => 26,
            ItemSet::Monitor => 27,
            ItemSet::Oppressive => 28,
            ItemSet::Paeok => 29,
            ItemSet::Sulgwan => 30,
            ItemSet::BlueFrost => 31,
            ItemSet::DarkGhost => 38,
            ItemSet::BlueFrostH => 39,
        }
    }

    /// Reads a wire value: the variant it stands for, `None` for any other value.
    pub fn from_code(v: u8) -> (r: Option<Self>)
        ensures
            r == Self::spec_from_code(v),
            r matches Some(e) ==> e.spec_code() == v,
    {
        if v == 0 { Some(ItemSet::NotSet) }
        else if v == 1 { Some(ItemSet::Spirit) }
        else if v == 2 { Some(ItemSet::Recall) }
        else if v == 3 { Some(ItemSet::RedOrchid) }
        else if v == 4 { Some(ItemSet::RedFlower) }
        else if v == 5 { Some(ItemSet::Smash) }
        else if v == 6 { Some(ItemSet::HwanDevil) }
        else if v == 7 { Some(ItemSet::Purity) }
        else if v == 8 { Some(ItemSet::FiveString) }
        else if v == 9 { Some(ItemSet::Mundane) }
        else if v == 10 { Some(ItemSet::NokChi) }
        else if v == 11 { Some(ItemSet::TaoProtect) }
        else if v == 12 { Some(ItemSet::Mir) }
        else if v == 13 { Some(ItemSet::Bone) }
        else if v == 14 { Some(ItemSet::Bug) }
        else if v == 15 { Some(ItemSet::WhiteGold) }
        else if v == 16 { Some(ItemSet::WhiteGoldH) }
        else if v == 17 { Some(ItemSet::RedJade) }
        else if v == 18 { Some(ItemSet::RedJadeH) }
        else if v == 19 { Some(ItemSet::Nephrite) }
        else if v == 20 { Some(ItemSet::NephriteH) }
        else if v == 21 { Some(ItemSet::Whisker1) }
        else if v == 22 { Some(ItemSet::Whisker2) }
        else if v == 23 { Some(ItemSet::Whisker3) }
        else if v == 24 { Some(ItemSet::Whisker4) }
        else if v == 25 { Some(ItemSet::Whisker5) }
        else if v == 26 { Some(ItemSet::Hyeolryong) }
        else if v == 27 { Some(ItemSet::Monitor) }
        else if v == 28 { Some(ItemSet::Oppressive) }
        else if v == 29 { Some(ItemSet::Paeok) }
        else if v == 30 { Some(ItemSet::Sulgwan) }
        else if v == 31 { Some(ItemSet::BlueFrost) }
        else if v == 38 { Some(ItemSet::DarkGhost) }
        else if v == 39 { Some(ItemSet::BlueFrostH) }
        else { None }
    }
}

/// 物品品质
#[derive(Debug, Clone, Copy, PartialEq, Eq, Hash, Structural)]
pub enum ItemGrade {
    NotSet,
    Common,
    Rare,
    Legendary,
    Mythical,
    Heroic,
}

impl ItemGrade {
    /// The wire value of each variant.
    pub open spec fn spec_code(self) -> u8 {
        match self {
            ItemGrade::NotSet => 0,
            ItemGrade::Common => 1,
            ItemGrade::Rare => 2,
            ItemGrade::Legendary => 3,
            ItemGrade::Mythical => 4,
            ItemGrade::Heroic => 5,
        }
    }

    /// The variant whose wire value is `v`, if any.
    pub open spec fn spec_from_code(v: u8) -> Option<Self> {
        if v == 0 { Some(ItemGrade::NotSet) }
        else if v == 1 { Some(ItemGrade::Common) }
        else if v == 2 { Some(ItemGrade::Rare) }
        else if v == 3 { Some(ItemGrade::Legendary) }
        else if v == 4 { Some(ItemGrade::Mythical) }
        else if v == 5 { Some(ItemGrade::Heroic) }
        else { None }
    }

    /// Returns the wire value; reading it back gives this variant.
    pub fn code(self) -> (r: u8)
        ensures
            r == self.spec_code(),
            Self::spec_from_code(r) == Some(self),
    {
        match self {
            ItemGrade::NotSet => 0,
            ItemGrade::Common => 1,
            ItemGrade::Rare => 2,
            ItemGrade::Legendary => 3,
            ItemGrade::Mythical => 4,
            ItemGrade::Heroic => 5,
        }
    }

    /// Reads a wire value: the variant it stands for, `None` for any other value.
    pub fn from_code(v: u8) -> (r: Option<Self>)
        ensures
            r == Self::spec_from_code(v),
            r matches Some(e) ==> e.spec_code() == v,
    {
        if v == 0 { Some(ItemGrade::NotSet) }
        else if v == 1 { Some(ItemGrade::Common) }
        else if v == 2 { Some(ItemGrade::Rare) }
        else if v == 3 { Some(ItemGrade::Legendary) }
        else if v == 4 { Some(ItemGrade::Mythical) }
        else if v == 5 { Some(ItemGrade::Heroic) }
        else { None }
    }
}

/// 任务类型
#[derive(Debug, Clone, Copy, PartialEq, Eq, Hash, Structural)]
pub enum QuestType {
    General,
    Daily,
    Repeatable,
    Story,
}

impl QuestType {
    /// The wire value of each variant.
    pub open spec fn spec_code(self) -> u8 {
        match self {
            QuestType::General => 0,
            QuestType::Daily => 1,
            QuestType::Repeatable => 2,
            QuestType::Story => 3,
        }
    }

    /// The variant whose wire value is `v`, if any.
    pub open spec fn spec_from_code(v: u8) -> Option<Self> {
        if v == 0 { Some(QuestType::General) }
        else if v == 1 { Some(QuestType::Daily) }
        else if v == 2 { Some(QuestType::Repeatable) }
        else if v == 3 { Some(QuestType::Story) }
        else { None }
    }

    /// Returns the wire value; reading it back gives this variant.
    pub fn code(self) -> (r: u8)
        ensures
            r == self.spec_code(),
            Self::spec_from_code(r) == Some(self),
    {
        match self {
            QuestType::General => 0,
            QuestType::Daily => 1,
            QuestType::Repeatable => 2,
            QuestType::Story => 3,
        }
    }

    /// Reads a wire value: the variant it stands for, `None` for any other value.
    pub fn from_code(v: u8) -> (r: Option<Self>)
        ensures
            r == Self::spec_from_code(v),
            r matches Some(e) ==> e.spec_code() == v,
    {
        if v == 0 { Some(QuestType::General) }
        else if v == 1 { Some(QuestType::Daily) }
        else if v == 2 { Some(QuestType::Repeatable) }
        else if v == 3 { Some(QuestType::Story) }
        else { None }
    }
}

/// 任务图标
#[derive(Debug, Clone, Copy, PartialEq, Eq, Hash, Structural)]
pub enum QuestIcon {
    NotSet,
    QuestionWhite,
    ExclamationYellow,
    QuestionYellow,
    ExclamationBlue,
    QuestionBlue,
    ExclamationGreen,
    QuestionGreen,
}

impl QuestIcon {
    /// The wire value of each variant.
    pub open spec fn spec_code(self) -> u8 {
        match self {
            QuestIcon::NotSet => 0,
            QuestIcon::QuestionWhite => 1,
            QuestIcon::ExclamationYellow => 2,
            QuestIcon::QuestionYellow => 3,
            QuestIcon::ExclamationBlue => 5,
            QuestIcon::QuestionBlue => 6,
            QuestIcon::ExclamationGreen => 52,
            QuestIcon::QuestionGreen => 53,
        }
    }

    /// The variant whose wire value is `v`, if any.
    pub open spec fn spec_from_code(v: u8) -> Option<Self> {
        if v == 0 { Some(QuestIcon::NotSet) }
        else if v == 1 { Some(QuestIcon::QuestionWhite) }
        else if v == 2 { Some(QuestIcon::ExclamationYellow) }
        else if v == 3 { Some(QuestIcon::QuestionYellow) }
        else if v == 5 { Some(QuestIcon::ExclamationBlue) }
        else if v == 6 { Some(QuestIcon::QuestionBlue) }
        else if v == 52 { Some(QuestIcon::ExclamationGreen) }
        else if v == 53 { Some(QuestIcon::QuestionGreen) }
        else { None }
    }

    /// Returns the wire value; reading it back gives this variant.
    pub fn code(self) -> (r: u8)
        ensures
            r == self.spec_code(),
            Self::spec_from_code(r) == Some(self),
    {
        match self {
            QuestIcon::NotSet => 0,
            QuestIcon::QuestionWhite => 1,
            QuestIcon::ExclamationYellow => 2,
            QuestIcon::QuestionYellow => 3,
            QuestIcon::ExclamationBlue => 5,
            QuestIcon::QuestionBlue => 6,
            QuestIcon::ExclamationGreen => 52,
            QuestIcon::QuestionGreen => 53,
        }
    }

    /// Reads a wire value: the variant it stands for, `None` for any other value.
    pub fn from_code(v: u8) -> (r: Option<Self>)
        ensures
            r == Self::spec_from_code(v),
            r matches Some(e) ==> e.spec_code() == v,
    {
        if v == 0 { Some(QuestIcon::NotSet) }
        else if v == 1 { Some(QuestIcon::QuestionWhite) }
        else if v == 2 { Some(QuestIcon::ExclamationYellow) }
        else if v == 3 { Some(QuestIcon::QuestionYellow) }
        else if v == 5 { Some(QuestIcon::ExclamationBlue) }
        else if v == 6 { Some(QuestIcon::QuestionBlue) }
        else if v == 52 { Some(QuestIcon::ExclamationGreen) }
        else if v == 53 { Some(QuestIcon::QuestionGreen) }
        else { None }
    }
}

/// 任务状态
#[derive(Debug, Clone, Copy, PartialEq, Eq, Hash, Structural)]
pub enum QuestState {
    Add,
    Update,
    Remove,
}

impl QuestState {
    /// The wire value of each variant.
    pub open spec fn spec_code(self) -> u8 {
        match self {
            QuestState::Add => 0,
            QuestState::Update => 1,
            QuestState::Remove => 2,
        }
    }

    /// The variant whose wire value is `v`, if any.
    pub open spec fn spec_from_code(v: u8) -> Option<Self> {
        if v == 0 { Some(QuestState::Add) }
        else if v == 1 { Some(QuestState::Update) }
        else if v == 2 { Some(QuestState::Remove) }
        else { None }
    }

    /// Returns the wire value; reading it back gives this variant.
    pub fn code(self) -> (r: u8)
        ensures
            r == self.spec_code(),
            Self::spec_from_code(r) == Some(self),
    {
        match self {
            QuestState::Add => 0,
            QuestState::Update => 1,
            QuestState::Remove => 2,
        }
    }

    /// Reads a wire value: the variant it stands for, `None` for any other value.
    pub fn from_code(v: u8) -> (r: Option<Self>)
        ensures
            r == Self::spec_from_code(v),
            r matches Some(e) ==> e.spec_code() == v,
    {
        if v == 0 { Some(QuestState::Add) }
        else if v == 1 { Some(QuestState::Update) }
        else if v == 2 { Some(QuestState::Remove) }
        else { None }
    }
}

/// 任务动作
#[derive(Debug, Clone, Copy, PartialEq, Eq, Hash, Structural)]
pub enum QuestAction {
    TimeExpired,
}

impl QuestAction {
    /// The wire value of each variant.
    pub open spec fn spec_code(self) -> u8 {
        match self {
            QuestAction::TimeExpired => 0,
        }
    }

    /// The variant whose wire value is `v`, if any.
    pub open spec fn spec_from_code(v: u8) -> Option<Self> {
        if v == 0 { Some(QuestAction::TimeExpired) }
        else { None }
    }

    /// Returns the wire value; reading it back gives this variant.
    pub fn code(self) -> (r: u8)
        ensures
            r == self.spec_code(),
            Self::spec_from_code(r) == Some(self),
    {
        match self {
            QuestAction::TimeExpired => 0,
        }
    }

    /// Reads a wire value: the variant it stands for, `None` for any other value.
    pub fn from_code(v: u8) -> (r: Option<Self>)
        ensures
            r == Self::spec_from_code(v),
            r matches Some(e) ==> e.spec_code() == v,
    {
        if v == 0 { Some(QuestAction::TimeExpired) }
        else { None }
    }
}

/// 默认 NPC 类型
#[derive(Debug, Clone, Copy, PartialEq, Eq, Hash, Structural)]
pub enum DefaultNPCType {
    Login,
    LevelUp,
    UseItem,
    MapCoord,
    MapEnter,
    Die,
    Trigger,
    CustomCommand,
    OnAcceptQuest,
    OnFinishQuest,
    Daily,
    Client,
}

impl DefaultNPCType {
    /// The wire value of each variant.
    pub open spec fn spec_code(self) -> u8 {
        match self {
            DefaultNPCType::Login => 0,
            DefaultNPCType::LevelUp => 1,
            DefaultNPCType::UseItem => 2,
            DefaultNPCType::MapCoord => 3,
            DefaultNPCType::MapEnter => 4,
            DefaultNPCType::Die => 5,
            DefaultNPCType::Trigger => 6,
            DefaultNPCType::CustomCommand => 7,
            DefaultNPCType::OnAcceptQuest => 8,
            DefaultNPCType::OnFinishQuest => 9,
            DefaultNPCType::Daily => 10,
            DefaultNPCType::Client => 11,
        }
    }

    /// The variant whose wire value is `v`, if any.
    pub open spec fn spec_from_code(v: u8) -> Option<Self> {
        if v == 0 { Some(DefaultNPCType::Login) }
        else if v == 1 { Some(DefaultNPCType::LevelUp) }
        else if v == 2 { Some(DefaultNPCType::UseItem) }
        else if v == 3 { Some(DefaultNPCType::MapCoord) }
        else if v == 4 { Some(DefaultNPCType::MapEnter) }
        else if v == 5 { Some(DefaultNPCType::Die) }
        else if v == 6 { Some(DefaultNPCType::Trigger) }
        else if v == 7 { Some(DefaultNPCType::CustomCommand) }
        else if v == 8 { Some(DefaultNPCType::OnAcceptQuest) }
        else if v == 9 { Some(DefaultNPCType::OnFinishQuest) }
        else if v == 10 { Some(DefaultNPCType::Daily) }
        else if v == 11 { Some(DefaultNPCType::Client) }
        else { None }
    }

    /// Returns the wire value; reading it back gives this variant.
    pub fn code(self) -> (r: u8)
        ensures
            r == self.spec_code(),
            Self::spec_from_code(r) == Some(self),
    {
        match self {
            DefaultNPCType::Login => 0,
            DefaultNPCType::LevelUp => 1,
            DefaultNPCType::UseItem => 2,
            DefaultNPCType::MapCoord => 3,
            DefaultNPCType::MapEnter => 4,
            DefaultNPCType::Die => 5,
            DefaultNPCType::Trigger => 6,
            DefaultNPCType::CustomCommand => 7,
            DefaultNPCType::OnAcceptQuest => 8,
            DefaultNPCType::OnFinishQuest => 9,
            DefaultNPCType::Daily => 10,
            DefaultNPCType::Client => 11,
        }
    }

    /// Reads a wire value: the variant it stands for, `None` for any other value.
    pub fn from_code(v: u8) -> (r: Option<Self>)
        ensures
            r == Self::spec_from_code(v),
            r matches Some(e) ==> e.spec_code() == v,
    {
        if v == 0 { Some(DefaultNPCType::Login) }
        else if v == 1 { Some(DefaultNPCType::LevelUp) }
        else if v == 2 { Some(DefaultNPCType::UseItem) }
        else if v == 3 { Some(DefaultNPCType::MapCoord) }
        else if v == 4 { Some(DefaultNPCType::MapEnter) }
        else if v == 5 { Some(DefaultNPCType::Die) }
        else if v == 6 { Some(DefaultNPCType::Trigger) }
        else if v == 7 { Some(DefaultNPCType::CustomCommand) }
        else if v == 8 { Some(DefaultNPCType::OnAcceptQuest) }
        else if v == 9 { Some(DefaultNPCType::OnFinishQuest) }
        else if v == 10 { Some(DefaultNPCType::Daily) }
        else if v == 11 { Some(DefaultNPCType::Client) }
        else { None }
    }
}

/// 征服游戏模式
#[derive(Debug, Clone, Copy, PartialEq, Eq, Hash, Structural)]
pub enum ConquestGame {
    CapturePalace,
    KingOfHill,
    Random,
    Classic,
    ControlPoints,
}

impl ConquestGame {
    /// The wire value of each variant.
    pub open spec fn spec_code(self) -> u8 {
        match self {
            ConquestGame::CapturePalace => 0,
            ConquestGame::KingOfHill => 1,
            ConquestGame::Random => 2,
            ConquestGame::Classic => 3,
            ConquestGame::ControlPoints => 4,
        }
    }

    /// The variant whose wire value is `v`, if any.
    pub open spec fn spec_from_code(v: u8) -> Option<Self> {
        if v == 0 { Some(ConquestGame::CapturePalace) }
        else if v == 1 { Some(ConquestGame::KingOfHill) }
        else if v == 2 { Some(ConquestGame::Random) }
        else if v == 3 { Some(ConquestGame::Classic) }
        else if v == 4 { Some(ConquestGame::ControlPoints) }
        else { None }
    }

    /// Returns the wire value; reading it back gives this variant.
    pub fn code(self) -> (r: u8)
        ensures
            r == self.spec_code(),
            Self::spec_from_code(r) == Some(self),
    {
        match self {
            ConquestGame::CapturePalace => 0,
            ConquestGame::KingOfHill => 1,
            ConquestGame::Random => 2,
            ConquestGame::Classic => 3,
            ConquestGame::ControlPoints => 4,
        }
    }

    /// Reads a wire value: the variant it stands for, `None` for any other value.
    pub fn from_code(v: u8) -> (r: Option<Self>)
        ensures
            r == Self::spec_from_code(v),
            r matches Some(e) ==> e.spec_code() == v,
    {
        if v == 0 { Some(ConquestGame::CapturePalace) }
        else if v == 1 { Some(ConquestGame::KingOfHill) }
        else if v == 2 { Some(ConquestGame::Random) }
        else if v == 3 { Some(ConquestGame::Classic) }
        else if v == 4 { Some(ConquestGame::ControlPoints) }
        else { None }
    }
}

/// 智能生物拾取模式
#[derive(Debug, Clone, Copy, PartialEq, Eq, Hash, Structural)]
pub enum IntelligentCreaturePickupMode {
    Automatic,
    SemiAutomatic,
}

impl IntelligentCreaturePickupMode {
    /// The wire value of each variant.
    pub open spec fn spec_code(self) -> u8 {
        match self {
            IntelligentCreaturePickupMode::Automatic => 0,
            IntelligentCreaturePickupMode::SemiAutomatic => 1,
        }
    }

    /// The variant whose wire value is `v`, if any.
    pub open spec fn spec_from_code(v: u8) -> Option<Self> {
        if v == 0 { Some(IntelligentCreaturePickupMode::Automatic) }
        else if v == 1 { Some(IntelligentCreaturePickupMode::SemiAutomatic) }
        else { None }
    }

    /// Returns the wire value; reading it back gives this variant.
    pub fn code(self) -> (r: u8)
        ensures
            r == self.spec_code(),
            Self::spec_from_code(r) == Some(self),
    {
        match self {
            IntelligentCreaturePickupMode::Automatic => 0,
            IntelligentCreaturePickupMode::SemiAutomatic => 1,
        }
    }

    /// Reads a wire value: the variant it stands for, `None` for any other value.
    pub fn from_code(v: u8) -> (r: Option<Self>)
        ensures
            r == Self::spec_from_code(v),
            r matches Some(e) ==> e.spec_code() == v,
    {
        if v == 0 { Some(IntelligentCreaturePickupMode::Automatic) }
        else if v == 1 { Some(IntelligentCreaturePickupMode::SemiAutomatic) }
        else { None }
    }
}

/// 技能开关状态
#[derive(Debug, Clone, Copy, PartialEq, Eq, Hash, Structural)]
pub enum SpellToggleState {
    NotSet,
    False,
    True,
}

impl SpellToggleState {
    /// The wire value of each variant.
    pub open spec fn spec_code(self) -> i8 {
        match self {
            SpellToggleState::NotSet => -1i8,
            SpellToggleState::False => 0,
            SpellToggleState::True => 1,
        }
    }

    /// The variant whose wire value is `v`, if any.
    pub open spec fn spec_from_code(v: i8) -> Option<Self> {
        if v == -1i8 { Some(SpellToggleState::NotSet) }
        else if v == 0 { Some(SpellToggleState::False) }
        else if v == 1 { Some(SpellToggleState::True) }
        else { None }
    }

    /// Returns the wire value; reading it back gives this variant.
    pub fn code(self) -> (r: i8)
        ensures
            r == self.spec_code(),
            Self::spec_from_code(r) == Some(self),
    {
        match self {
            SpellToggleState::NotSet => -1i8,
            SpellToggleState::False => 0,
            SpellToggleState::True => 1,
        }
    }

    /// Reads a wire value: the variant it stands for, `None` for any other value.
    pub fn from_code(v: i8) -> (r: Option<Self>)
        ensures
            r == Self::spec_from_code(v),
            r matches Some(e) ==> e.spec_code() == v,
    {
        if v == -1i8 { Some(SpellToggleState::NotSet) }
        else if v == 0 { Some(SpellToggleState::False) }
        else if v == 1 { Some(SpellToggleState::True) }
        else { None }
    }
}

/// 市场收集模式
#[derive(Debug, Clone, Copy, PartialEq, Eq, Hash, Structural)]
pub enum MarketCollectionMode {
    Any,
    Sold,
    Expired,
}

impl MarketCollectionMode {
    /// The wire value of each variant.
    pub open spec fn spec_code(self) -> u8 {
        match self {
            MarketCollectionMode::Any => 0,
            MarketCollectionMode::Sold => 1,
            MarketCollectionMode::Expired => 2,
        }
    }

    /// The variant whose wire value is `v`, if any.
    pub open spec fn spec_from_code(v: u8) -> Option<Self> {
        if v == 0 { Some(MarketCollectionMode::Any) }
        else if v == 1 { Some(MarketCollectionMode::Sold) }
        else if v == 2 { Some(MarketCollectionMode::Expired) }
        else { None }
    }

    /// Returns the wire value; reading it back gives this variant.
    pub fn code(self) -> (r: u8)
        ensures
            r == self.spec_code(),
            Self::spec_from_code(r) == Some(self),
    {
        match self {
            MarketCollectionMode::Any => 0,
            MarketCollectionMode::Sold => 1,
            MarketCollectionMode::Expired => 2,
        }
    }

    /// Reads a wire value: the variant it stands for, `None` for any other value.
    pub fn from_code(v: u8) -> (r: Option<Self>)
        ensures
            r == Self::spec_from_code(v),
            r matches Some(e) ==> e.spec_code() == v,
    {
        if v == 0 { Some(MarketCollectionMode::Any) }
        else if v == 1 { Some(MarketCollectionMode::Sold) }
        else if v == 2 { Some(MarketCollectionMode::Expired) }
        else { None }
    }
}

/// 鼠标光标
#[derive(Debug, Clone, Copy, PartialEq, Eq, Hash, Structural)]
pub enum MouseCursor {
    NotSet,
    Default,
    Attack,
    AttackRed,
    NPCTalk,
    TextPrompt,
    Trash,
    Upgrade,
}

impl MouseCursor {
    /// The wire value of each variant.
    pub open spec fn spec_code(self) -> u8 {
        match self {
            MouseCursor::NotSet => 0,
            MouseCursor::Default => 1,
            MouseCursor::Attack => 2,
            MouseCursor::AttackRed => 3,
            MouseCursor::NPCTalk => 4,
            MouseCursor::TextPrompt => 5,
            MouseCursor::Trash => 6,
            MouseCursor::Upgrade => 7,
        }
    }

    /// The variant whose wire value is `v`, if any.
    pub open spec fn spec_from_code(v: u8) -> Option<Self> {
        if v == 0 { Some(MouseCursor::NotSet) }
        else if v == 1 { Some(MouseCursor::Default) }
        else if v == 2 { Some(MouseCursor::Attack) }
        else if v == 3 { Some(MouseCursor::AttackRed) }
        else if v == 4 { Some(MouseCursor::NPCTalk) }
        else if v == 5 { Some(MouseCursor::TextPrompt) }
        else if v == 6 { Some(MouseCursor::Trash) }
        else if v == 7 { Some(MouseCursor::Upgrade) }
        else { None }
    }

    /// Returns the wire value; reading it back gives this variant.
    pub fn code(self) -> (r: u8)
        ensures
            r == self.spec_code(),
            Self::spec_from_code(r) == Some(self),
    {
        match self {
            MouseCursor::NotSet => 0,
            MouseCursor::Default => 1,
            MouseCursor::Attack => 2,
            MouseCursor::AttackRed => 3,
            MouseCursor::NPCTalk => 4,
            MouseCursor::TextPrompt => 5,
            MouseCursor::Trash => 6,
            MouseCursor::Upgrade => 7,
        }
    }

    /// Reads a wire value: the variant it stands for, `None` for any other value.
    pub fn from_code(v: u8) -> (r: Option<Self>)
        ensures
            r == Self::spec_from_code(v),
            r matches Some(e) ==> e.spec_code() == v,
    {
        if v == 0 { Some(MouseCursor::NotSet) }
        else if v == 1 { Some(MouseCursor::Default) }
        else if v == 2 { Some(MouseCursor::Attack) }
        else if v == 3 { Some(MouseCursor::AttackRed) }
        else if v == 4 { Some(MouseCursor::NPCTalk) }
        else if v == 5 { Some(MouseCursor::TextPrompt) }
        else if v == 6 { Some(MouseCursor::Trash) }
        else if v == 7 { Some(MouseCursor::Upgrade) }
        else { None }
    }
}

/// 市场物品类型
#[derive(Debug, Clone, Copy, PartialEq, Eq, Hash, Structural)]
pub enum MarketItemType {
    Consign,
    Auction,
    GameShop,
}

impl MarketItemType {
    /// The wire value of each variant.
    pub open spec fn spec_code(self) -> u8 {
        match self {
            MarketItemType::Consign => 0,
            MarketItemType::Auction => 1,
            MarketItemType::GameShop => 2,
        }
    }

    /// The variant whose wire value is `v`, if any.
    pub open spec fn spec_from_code(v: u8) -> Option<Self> {
        if v == 0 { Some(MarketItemType::Consign) }
        else if v == 1 { Some(MarketItemType::Auction) }
        else if v == 2 { Some(MarketItemType::GameShop) }
        else { None }
    }

    /// Returns the wire value; reading it back gives this variant.
    pub fn code(self) -> (r: u8)
        ensures
            r == self.spec_code(),
            Self::spec_from_code(r) == Some(self),
    {
        match self {
            MarketItemType::Consign => 0,
            MarketItemType::Auction => 1,
            MarketItemType::GameShop => 2,
        }
    }

    /// Reads a wire value: the variant it stands for, `None` for any other value.
    pub fn from_code(v: u8) -> (r: Option<Self>)
        ensures
            r == Self::spec_from_code(v),
            r matches Some(e) ==> e.spec_code() == v,
    {
        if v == 0 { Some(MarketItemType::Consign) }
        else if v == 1 { Some(MarketItemType::Auction) }
        else if v == 2 { Some(MarketItemType::GameShop) }
        else { None }
    }
}

/// 市场面板类型
#[derive(Debug, Clone, Copy, PartialEq, Eq, Hash, Structural)]
pub enum MarketPanelType {
    Market,
    Consign,
    Auction,
    GameShop,
}

impl MarketPanelType {
    /// The wire value of each variant.
    pub open spec fn spec_code(self) -> u8 {
        match self {
            MarketPanelType::Market => 0,
            MarketPanelType::Consign => 1,
            MarketPanelType::Auction => 2,
            MarketPanelType::GameShop => 3,
        }
    }

    /// The variant whose wire value is `v`, if any.
    pub open spec fn spec_from_code(v: u8) -> Option<Self> {
        if v == 0 { Some(MarketPanelType::Market) }
        else if v == 1 { Some(MarketPanelType::Consign) }
        else if v == 2 { Some(MarketPanelType::Auction) }
        else if v == 3 { Some(MarketPanelType::GameShop) }
        else { None }
    }

    /// Returns the wire value; reading it back gives this variant.
    pub fn code(self) -> (r: u8)
        ensures
            r == self.spec_code(),
            Self::spec_from_code(r) == Some(self),
    {
        match self {
            MarketPanelType::Market => 0,
            MarketPanelType::Consign => 1,
            MarketPanelType::Auction => 2,
            MarketPanelType::GameShop => 3,
        }
    }

    /// Reads a wire value: the variant it stands for, `None` for any other value.
    pub fn from_code(v: u8) -> (r: Option<Self>)
        ensures
            r == Self::spec_from_code(v),
            r matches Some(e) ==> e.spec_code() == v,
    {
        if v == 0 { Some(MarketPanelType::Market) }
        else if v == 1 { Some(MarketPanelType::Consign) }
        else if v == 2 { Some(MarketPanelType::Auction) }
        else if v == 3 { Some(MarketPanelType::GameShop) }
        else { None }
    }
}

/// 市场价格过滤
#[derive(Debug, Clone, Copy, PartialEq, Eq, Hash, Structural)]
pub enum MarketPriceFilter {
    Normal,
    High,
    Low,
}

impl MarketPriceFilter {
    /// The wire value of each variant.
    pub open spec fn spec_code(self) -> u8 {
        match self {
            MarketPriceFilter::Normal => 0,
            MarketPriceFilter::High => 1,
            MarketPriceFilter::Low => 2,
        }
    }

    /// The variant whose wire value is `v`, if any.
    pub open spec fn spec_from_code(v: u8) -> Option<Self> {
        if v == 0 { Some(MarketPriceFilter::Normal) }
        else if v == 1 { Some(MarketPriceFilter::High) }
        else if v == 2 { Some(MarketPriceFilter::Low) }
        else { None }
    }

    /// Returns the wire value; reading it back gives this variant.
    pub fn code(self) -> (r: u8)
        ensures
            r == self.spec_code(),
            Self::spec_from_code(r) == Some(self),
    {
        match self {
            MarketPriceFilter::Normal => 0,
            MarketPriceFilter::High => 1,
            MarketPriceFilter::Low => 2,
        }
    }

    /// Reads a wire value: the variant it stands for, `None` for any other value.
    pub fn from_code(v: u8) -> (r: Option<Self>)
        ensures
            r == Self::spec_from_code(v),
            r matches Some(e) ==> e.spec_code() == v,
    {
        if v == 0 { Some(MarketPriceFilter::Normal) }
        else if v == 1 { Some(MarketPriceFilter::High) }
        else if v == 2 { Some(MarketPriceFilter::Low) }
        else { None }
    }
}

/// 混合模式
#[derive(Debug, Clone, Copy, PartialEq, Eq, Hash, Structural)]
pub enum BlendMode {
    NONE,
    NORMAL,
    LIGHT,
    LIGHTINV,
    INVNORMAL,
    INVLIGHT,
    INVLIGHTINV,
    INVCOLOR,
    INVBACKGROUND,
}

impl BlendMode {
    /// The wire value of each variant.
    pub open spec fn spec_code(self) -> i8 {
        match self {
            BlendMode::NONE => -1i8,
            BlendMode::NORMAL => 0,
            BlendMode::LIGHT => 1,
            BlendMode::LIGHTINV => 2,
            BlendMode::INVNORMAL => 3,
            BlendMode::INVLIGHT => 4,
            BlendMode::INVLIGHTINV => 5,
            BlendMode::INVCOLOR => 6,
            BlendMode::INVBACKGROUND => 7,
        }
    }

    /// The variant whose wire value is `v`, if any.
    pub open spec fn spec_from_code(v: i8) -> Option<Self> {
        if v == -1i8 { Some(BlendMode::NONE) }
        else if v == 0 { Some(BlendMode::NORMAL) }
        else if v == 1 { Some(BlendMode::LIGHT) }
        else if v == 2 { Some(BlendMode::LIGHTINV) }
        else if v == 3 { Some(BlendMode::INVNORMAL) }
        else if v == 4 { Some(BlendMode::INVLIGHT) }
        else if v == 5 { Some(BlendMode::INVLIGHTINV) }
        else if v == 6 { Some(BlendMode::INVCOLOR) }
        else if v == 7 { Some(BlendMode::INVBACKGROUND) }
        else { None }
    }

    /// Returns the wire value; reading it back gives this variant.
    pub fn code(self) -> (r: i8)
        ensures
            r == self.spec_code(),
            Self::spec_from_code(r) == Some(self),
    {
        match self {
            BlendMode::NONE => -1i8,
            BlendMode::NORMAL => 0,
            BlendMode::LIGHT => 1,
            BlendMode::LIGHTINV => 2,
            BlendMode::INVNORMAL => 3,
            BlendMode::INVLIGHT => 4,
            BlendMode::INVLIGHTINV => 5,
            BlendMode::INVCOLOR => 6,
            BlendMode::INVBACKGROUND => 7,
        }
    }

    /// Reads a wire value: the variant it stands for, `None` for any other value.
    pub fn from_code(v: i8) -> (r: Option<Self>)
        ensures
            r == Self::spec_from_code(v),
            r matches Some(e) ==> e.spec_code() == v,
    {
        if v == -1i8 { Some(BlendMode::NONE) }
        else if v == 0 { Some(BlendMode::NORMAL) }
        else if v == 1 { Some(BlendMode::LIGHT) }
        else if v == 2 { Some(BlendMode::LIGHTINV) }
        else if v == 3 { Some(BlendMode::INVNORMAL) }
        else if v == 4 { Some(BlendMode::INVLIGHT) }
        else if v == 5 { Some(BlendMode::INVLIGHTINV) }
        else if v == 6 { Some(BlendMode::INVCOLOR) }
        else if v == 7 { Some(BlendMode::INVBACKGROUND) }
        else { None }
    }
}

/// 觉醒类型
#[derive(Debug, Clone, Copy, PartialEq, Eq, Hash, Structural)]
pub enum AwakeType {
    NotSet,
    DC,
    MC,
    SC,
    AC,
    MAC,
    HPMP,
}

impl AwakeType {
    /// The wire value of each variant.
    pub open spec fn spec_code(self) -> u8 {
        match self {
            AwakeType::NotSet => 0,
            AwakeType::DC => 1,
            AwakeType::MC => 2,
            AwakeType::SC => 3,
            AwakeType::AC => 4,
            AwakeType::MAC => 5,
            AwakeType::HPMP => 6,
        }
    }

    /// The variant whose wire value is `v`, if any.
    pub open spec fn spec_from_code(v: u8) -> Option<Self> {
        if v == 0 { Some(AwakeType::NotSet) }
        else if v == 1 { Some(AwakeType::DC) }
        else if v == 2 { Some(AwakeType::MC) }
        else if v == 3 { Some(AwakeType::SC) }
        else if v == 4 { Some(AwakeType::AC) }
        else if v == 5 { Some(AwakeType::MAC) }
        else if v == 6 { Some(AwakeType::HPMP) }
        else { None }
    }

    /// Returns the wire value; reading it back gives this variant.
    pub fn code(self) -> (r: u8)
        ensures
            r == self.spec_code(),
            Self::spec_from_code(r) == Some(self),
    {
        match self {
            AwakeType::NotSet => 0,
            AwakeType::DC => 1,
            AwakeType::MC => 2,
            AwakeType::SC => 3,
            AwakeType::AC => 4,
            AwakeType::MAC => 5,
            AwakeType::HPMP => 6,
        }
    }

    /// Reads a wire value: the variant it stands for, `None` for any other value.
    pub fn from_code(v: u8) -> (r: Option<Self>)
        ensures
            r == Self::spec_from_code(v),
            r matches Some(e) ==> e.spec_code() == v,
    {
        if v == 0 { Some(AwakeType::NotSet) }
        else if v == 1 { Some(AwakeType::DC) }
        else if v == 2 { Some(AwakeType::MC) }
        else if v == 3 { Some(AwakeType::SC) }
        else if v == 4 { Some(AwakeType::AC) }
        else if v == 5 { Some(AwakeType::MAC) }
        else if v == 6 { Some(AwakeType::HPMP) }
        else { None }
    }
}

/// 输出消息类型
#[derive(Debug, Clone, Copy, PartialEq, Eq, Hash, Structural)]
pub enum OutputMessageType {
    Normal,
    Quest,
    Guild,
}

impl OutputMessageType {
    /// The wire value of each variant.
    pub open spec fn spec_code(self) -> u8 {
        match self {
            OutputMessageType::Normal => 0,
            OutputMessageType::Quest => 1,
            OutputMessageType::Guild => 2,
        }
    }

    /// The variant whose wire value is `v`, if any.
    pub open spec fn spec_from_code(v: u8) -> Option<Self> {
        if v == 0 { Some(OutputMessageType::Normal) }
        else if v == 1 { Some(OutputMessageType::Quest) }
        else if v == 2 { Some(OutputMessageType::Guild) }
        else { None }
    }

    /// Returns the wire value; reading it back gives this variant.
    pub fn code(self) -> (r: u8)
        ensures
            r == self.spec_code(),
            Self::spec_from_code(r) == Some(self),
    {
        match self {
            OutputMessageType::Normal => 0,
            OutputMessageType::Quest => 1,
            OutputMessageType::Guild => 2,
        }
    }

    /// Reads a wire value: the variant it stands for, `None` for any other value.
    pub fn from_code(v: u8) -> (r: Option<Self>)
        ensures
            r == Self::spec_from_code(v),
            r matches Some(e) ==> e.spec_code() == v,
    {
        if v == 0 { Some(OutputMessageType::Normal) }
        else if v == 1 { Some(OutputMessageType::Quest) }
        else if v == 2 { Some(OutputMessageType::Guild) }
        else { None }
    }
}

/// 精炼值类型
#[derive(Debug, Clone, Copy, PartialEq, Eq, Hash, Structural)]
pub enum RefinedValue {
    NotSet,
    DC,
    MC,
    SC,
}

impl RefinedValue {
    /// The wire value of each variant.
    pub open spec fn spec_code(self) -> u8 {
        match self {
            RefinedValue::NotSet => 0,
            RefinedValue::DC => 1,
            RefinedValue::MC => 2,
            RefinedValue::SC => 3,
        }
    }

    /// The variant whose wire value is `v`, if any.
    pub open spec fn spec_from_code(v: u8) -> Option<Self> {
        if v == 0 { Some(RefinedValue::NotSet) }
        else if v == 1 { Some(RefinedValue::DC) }
        else if v == 2 { Some(RefinedValue::MC) }
        else if v == 3 { Some(RefinedValue::SC) }
        else { None }
    }

    /// Returns the wire value; reading it back gives this variant.
    pub fn code(self) -> (r: u8)
        ensures
            r == self.spec_code(),
            Self::spec_from_code(r) == Some(self),
    {
        match self {
            RefinedValue::NotSet => 0,
            RefinedValue::DC => 1,
            RefinedValue::MC => 2,
            RefinedValue::SC => 3,
        }
    }

    /// Reads a wire value: the variant it stands for, `None` for any other value.
    pub fn from_code(v: u8) -> (r: Option<Self>)
        ensures
            r == Self::spec_from_code(v),
            r matches Some(e) ==> e.spec_code() == v,
    {
        if v == 0 { Some(RefinedValue::NotSet) }
        else if v == 1 { Some(RefinedValue::DC) }
        else if v == 2 { Some(RefinedValue::MC) }
        else if v == 3 { Some(RefinedValue::SC) }
        else { None }
    }
}

} // verus!
