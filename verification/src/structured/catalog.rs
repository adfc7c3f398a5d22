//! The catalog of packet types: for each type its name and the fields that
//! make up its payload, in the order in which they are written.

use vstd::prelude::*;
use crate::adapters::Prefix;
use crate::structured::schema::{DataType, FieldType};

verus! {

/// The number of packet types.
pub const PACKET_TYPES: u8 = 93;

/// The number of packet types that the server sends; they come first.
pub const SERVER_PACKET_TYPES: u8 = 48;

/// A packet type.
///
/// This represents an internal equivalent to the packet IDs of the game.
/// However, while a packet type is represented as a byte by its index, that
/// byte is not equal to the packet ID on the wire. Instead, a
/// `PacketMappings` instance should be used to convert between the two.
#[derive(Debug, Clone, Copy, PartialEq, Eq, Hash, Structural)]
#[allow(missing_docs)]
pub enum PacketType {
    // Packets sent by the server.
    ArenaDeath,
    ImminentArenaWave,
    ActivePet,
    DeletePetMessage,
    HatchPetMessage,
    PetYard,
    AccountList,
    AllyShoot,
    Aoe,
    BuyResult,
    ClientStat,
    CreateSuccess,
    Damage,
    Death,
    EnemyShoot,
    EvolvedPet,
    Failure,
    File,
    GlobalNotification,
    Goto,
    GuildResult,
    InvResult,
    InvitedToGuild,
    KeyInfoResponse,
    MapInfo,
    NameResult,
    NewAbilityMessage,
    NewTick,
    Notification,
    PasswordPrompt,
    Pic,
    Ping,
    PlaySound,
    QuestObjId,
    QuestRedeemResponse,
    RealmHeroesResponse,
    Reconnect,
    ReskinUnlock,
    ServerPlayerShoot,
    ShowEffect,
    Text,
    TradeAccepted,
    TradeChanged,
    TradeDone,
    TradeRequested,
    TradeStart,
    Update,
    VerifyEmail,
    // Packets sent by the client.
    EnterArena,
    QuestRedeem,
    PetUpgradeRequest,
    ReskinPet,
    AcceptTrade,
    ActivePetUpdateRequest,
    AoeAck,
    Buy,
    CancelTrade,
    ChangeGuildRank,
    ChangePetSkin,
    ChangeTrade,
    CheckCredits,
    ChooseName,
    Create,
    CreateGuild,
    EditAccountList,
    EnemyHit,
    Escape,
    GoToQuestRoom,
    GotoAck,
    GroundDamage,
    GuildInvite,
    GuildRemove,
    Hello,
    InvDrop,
    InvSwap,
    JoinGuild,
    KeyInfoRequest,
    Load,
    Move,
    OtherHit,
    PlayerHit,
    PlayerShoot,
    PlayerText,
    Pong,
    RequestTrade,
    ResetDailyQuests,
    Reskin,
    SetCondition,
    ShootAck,
    SquareHit,
    Teleport,
    UseItem,
    UsePortal,
}

impl PacketType {
    /// The index of this packet type in the catalog.
    pub open spec fn spec_index(self) -> u8 {
        match self {
            PacketType::ArenaDeath => 0,
            PacketType::ImminentArenaWave => 1,
            PacketType::ActivePet => 2,
            PacketType::DeletePetMessage => 3,
            PacketType::HatchPetMessage => 4,
            PacketType::PetYard => 5,
            PacketType::AccountList => 6,
            PacketType::AllyShoot => 7,
            PacketType::Aoe => 8,
            PacketType::BuyResult => 9,
            PacketType::ClientStat => 10,
            PacketType::CreateSuccess => 11,
            PacketType::Damage => 12,
            PacketType::Death => 13,
            PacketType::EnemyShoot => 14,
            PacketType::EvolvedPet => 15,
            PacketType::Failure => 16,
            PacketType::File => 17,
            PacketType::GlobalNotification => 18,
            PacketType::Goto => 19,
            PacketType::GuildResult => 20,
            PacketType::InvResult => 21,
            PacketType::InvitedToGuild => 22,
            PacketType::KeyInfoResponse => 23,
            PacketType::MapInfo => 24,
            PacketType::NameResult => 25,
            PacketType::NewAbilityMessage => 26,
            PacketType::NewTick => 27,
            PacketType::Notification => 28,
            PacketType::PasswordPrompt => 29,
            PacketType::Pic => 30,
            PacketType::Ping => 31,
            PacketType::PlaySound => 32,
            PacketType::QuestObjId => 33,
            PacketType::QuestRedeemResponse => 34,
            PacketType::RealmHeroesResponse => 35,
            PacketType::Reconnect => 36,
            PacketType::ReskinUnlock => 37,
            PacketType::ServerPlayerShoot => 38,
            PacketType::ShowEffect => 39,
            PacketType::Text => 40,
            PacketType::TradeAccepted => 41,
            PacketType::TradeChanged => 42,
            PacketType::TradeDone => 43,
            PacketType::TradeRequested => 44,
            PacketType::TradeStart => 45,
            PacketType::Update => 46,
            PacketType::VerifyEmail => 47,
            PacketType::EnterArena => 48,
            PacketType::QuestRedeem => 49,
            PacketType::PetUpgradeRequest => 50,
            PacketType::ReskinPet => 51,
            PacketType::AcceptTrade => 52,
            PacketType::ActivePetUpdateRequest => 53,
            PacketType::AoeAck => 54,
            PacketType::Buy => 55,
            PacketType::CancelTrade => 56,
            PacketType::ChangeGuildRank => 57,
            PacketType::ChangePetSkin => 58,
            PacketType::ChangeTrade => 59,
            PacketType::CheckCredits => 60,
            PacketType::ChooseName => 61,
            PacketType::Create => 62,
            PacketType::CreateGuild => 63,
            PacketType::EditAccountList => 64,
            PacketType::EnemyHit => 65,
            PacketType::Escape => 66,
            PacketType::GoToQuestRoom => 67,
            PacketType::GotoAck => 68,
            PacketType::GroundDamage => 69,
            PacketType::GuildInvite => 70,
            PacketType::GuildRemove => 71,
            PacketType::Hello => 72,
            PacketType::InvDrop => 73,
            PacketType::InvSwap => 74,
            PacketType::JoinGuild => 75,
            PacketType::KeyInfoRequest => 76,
            PacketType::Load => 77,
            PacketType::Move => 78,
            PacketType::OtherHit => 79,
            PacketType::PlayerHit => 80,
            PacketType::PlayerShoot => 81,
            PacketType::PlayerText => 82,
            PacketType::Pong => 83,
            PacketType::RequestTrade => 84,
            PacketType::ResetDailyQuests => 85,
            PacketType::Reskin => 86,
            PacketType::SetCondition => 87,
            PacketType::ShootAck => 88,
            PacketType::SquareHit => 89,
            PacketType::Teleport => 90,
            PacketType::UseItem => 91,
            PacketType::UsePortal => 92,
        }
    }

    /// The packet type at an index of the catalog, if the catalog is that
    /// long.
    pub open spec fn of_index(index: u8) -> Option<PacketType> {
        match index {
            0 => Some(PacketType::ArenaDeath),
            1 => Some(PacketType::ImminentArenaWave),
            2 => Some(PacketType::ActivePet),
            3 => Some(PacketType::DeletePetMessage),
            4 => Some(PacketType::HatchPetMessage),
            5 => Some(PacketType::PetYard),
            6 => Some(PacketType::AccountList),
            7 => Some(PacketType::AllyShoot),
            8 => Some(PacketType::Aoe),
            9 => Some(PacketType::BuyResult),
            10 => Some(PacketType::ClientStat),
            11 => Some(PacketType::CreateSuccess),
            12 => Some(PacketType::Damage),
            13 => Some(PacketType::Death),
            14 => Some(PacketType::EnemyShoot),
            15 => Some(PacketType::EvolvedPet),
            16 => Some(PacketType::Failure),
            17 => Some(PacketType::File),
            18 => Some(PacketType::GlobalNotification),
            19 => Some(PacketType::Goto),
            20 => Some(PacketType::GuildResult),
            21 => Some(PacketType::InvResult),
            22 => Some(PacketType::InvitedToGuild),
            23 => Some(PacketType::KeyInfoResponse),
            24 => Some(PacketType::MapInfo),
            25 => Some(PacketType::NameResult),
            26 => Some(PacketType::NewAbilityMessage),
            27 => Some(PacketType::NewTick),
            28 => Some(PacketType::Notification),
            29 => Some(PacketType::PasswordPrompt),
            30 => Some(PacketType::Pic),
            31 => Some(PacketType::Ping),
            32 => Some(PacketType::PlaySound),
            33 => Some(PacketType::QuestObjId),
            34 => Some(PacketType::QuestRedeemResponse),
            35 => Some(PacketType::RealmHeroesResponse),
            36 => Some(PacketType::Reconnect),
            37 => Some(PacketType::ReskinUnlock),
            38 => Some(PacketType::ServerPlayerShoot),
            39 => Some(PacketType::ShowEffect),
            40 => Some(PacketType::Text),
            41 => Some(PacketType::TradeAccepted),
            42 => Some(PacketType::TradeChanged),
            43 => Some(PacketType::TradeDone),
            44 => Some(PacketType::TradeRequested),
            45 => Some(PacketType::TradeStart),
            46 => Some(PacketType::Update),
            47 => Some(PacketType::VerifyEmail),
            48 => Some(PacketType::EnterArena),
            49 => Some(PacketType::QuestRedeem),
            50 => Some(PacketType::PetUpgradeRequest),
            51 => Some(PacketType::ReskinPet),
            52 => Some(PacketType::AcceptTrade),
            53 => Some(PacketType::ActivePetUpdateRequest),
            54 => Some(PacketType::AoeAck),
            55 => Some(PacketType::Buy),
            56 => Some(PacketType::CancelTrade),
            57 => Some(PacketType::ChangeGuildRank),
            58 => Some(PacketType::ChangePetSkin),
            59 => Some(PacketType::ChangeTrade),
            60 => Some(PacketType::CheckCredits),
            61 => Some(PacketType::ChooseName),
            62 => Some(PacketType::Create),
            63 => Some(PacketType::CreateGuild),
            64 => Some(PacketType::EditAccountList),
            65 => Some(PacketType::EnemyHit),
            66 => Some(PacketType::Escape),
            67 => Some(PacketType::GoToQuestRoom),
            68 => Some(PacketType::GotoAck),
            69 => Some(PacketType::GroundDamage),
            70 => Some(PacketType::GuildInvite),
            71 => Some(PacketType::GuildRemove),
            72 => Some(PacketType::Hello),
            73 => Some(PacketType::InvDrop),
            74 => Some(PacketType::InvSwap),
            75 => Some(PacketType::JoinGuild),
            76 => Some(PacketType::KeyInfoRequest),
            77 => Some(PacketType::Load),
            78 => Some(PacketType::Move),
            79 => Some(PacketType::OtherHit),
            80 => Some(PacketType::PlayerHit),
            81 => Some(PacketType::PlayerShoot),
            82 => Some(PacketType::PlayerText),
            83 => Some(PacketType::Pong),
            84 => Some(PacketType::RequestTrade),
            85 => Some(PacketType::ResetDailyQuests),
            86 => Some(PacketType::Reskin),
            87 => Some(PacketType::SetCondition),
            88 => Some(PacketType::ShootAck),
            89 => Some(PacketType::SquareHit),
            90 => Some(PacketType::Teleport),
            91 => Some(PacketType::UseItem),
            92 => Some(PacketType::UsePortal),
            _ => None,
        }
    }

    /// The name of this packet type.
    pub open spec fn spec_name(self) -> &'static str {
        match self {
            PacketType::ArenaDeath => "ArenaDeath",
            PacketType::ImminentArenaWave => "ImminentArenaWave",
            PacketType::ActivePet => "ActivePet",
            PacketType::DeletePetMessage => "DeletePetMessage",
            PacketType::HatchPetMessage => "HatchPetMessage",
            PacketType::PetYard => "PetYard",
            PacketType::AccountList => "AccountList",
            PacketType::AllyShoot => "AllyShoot",
            PacketType::Aoe => "Aoe",
            PacketType::BuyResult => "BuyResult",
            PacketType::ClientStat => "ClientStat",
            PacketType::CreateSuccess => "CreateSuccess",
            PacketType::Damage => "Damage",
            PacketType::Death => "Death",
            PacketType::EnemyShoot => "EnemyShoot",
            PacketType::EvolvedPet => "EvolvedPet",
            PacketType::Failure => "Failure",
            PacketType::File => "File",
            PacketType::GlobalNotification => "GlobalNotification",
            PacketType::Goto => "Goto",
            PacketType::GuildResult => "GuildResult",
            PacketType::InvResult => "InvResult",
            PacketType::InvitedToGuild => "InvitedToGuild",
            PacketType::KeyInfoResponse => "KeyInfoResponse",
            PacketType::MapInfo => "MapInfo",
            PacketType::NameResult => "NameResult",
            PacketType::NewAbilityMessage => "NewAbilityMessage",
            PacketType::NewTick => "NewTick",
            PacketType::Notification => "Notification",
            PacketType::PasswordPrompt => "PasswordPrompt",
            PacketType::Pic => "Pic",
            PacketType::Ping => "Ping",
            PacketType::PlaySound => "PlaySound",
            PacketType::QuestObjId => "QuestObjId",
            PacketType::QuestRedeemResponse => "QuestRedeemResponse",
            PacketType::RealmHeroesResponse => "RealmHeroesResponse",
            PacketType::Reconnect => "Reconnect",
            PacketType::ReskinUnlock => "ReskinUnlock",
            PacketType::ServerPlayerShoot => "ServerPlayerShoot",
            PacketType::ShowEffect => "ShowEffect",
            PacketType::Text => "Text",
            PacketType::TradeAccepted => "TradeAccepted",
            PacketType::TradeChanged => "TradeChanged",
            PacketType::TradeDone => "TradeDone",
            PacketType::TradeRequested => "TradeRequested",
            PacketType::TradeStart => "TradeStart",
            PacketType::Update => "Update",
            PacketType::VerifyEmail => "VerifyEmail",
            PacketType::EnterArena => "EnterArena",
            PacketType::QuestRedeem => "QuestRedeem",
            PacketType::PetUpgradeRequest => "PetUpgradeRequest",
            PacketType::ReskinPet => "ReskinPet",
            PacketType::AcceptTrade => "AcceptTrade",
            PacketType::ActivePetUpdateRequest => "ActivePetUpdateRequest",
            PacketType::AoeAck => "AoeAck",
            PacketType::Buy => "Buy",
            PacketType::CancelTrade => "CancelTrade",
            PacketType::ChangeGuildRank => "ChangeGuildRank",
            PacketType::ChangePetSkin => "ChangePetSkin",
            PacketType::ChangeTrade => "ChangeTrade",
            PacketType::CheckCredits => "CheckCredits",
            PacketType::ChooseName => "ChooseName",
            PacketType::Create => "Create",
            PacketType::CreateGuild => "CreateGuild",
            PacketType::EditAccountList => "EditAccountList",
            PacketType::EnemyHit => "EnemyHit",
            PacketType::Escape => "Escape",
            PacketType::GoToQuestRoom => "GoToQuestRoom",
            PacketType::GotoAck => "GotoAck",
            PacketType::GroundDamage => "GroundDamage",
            PacketType::GuildInvite => "GuildInvite",
            PacketType::GuildRemove => "GuildRemove",
            PacketType::Hello => "Hello",
            PacketType::InvDrop => "InvDrop",
            PacketType::InvSwap => "InvSwap",
            PacketType::JoinGuild => "JoinGuild",
            PacketType::KeyInfoRequest => "KeyInfoRequest",
            PacketType::Load => "Load",
            PacketType::Move => "Move",
            PacketType::OtherHit => "OtherHit",
            PacketType::PlayerHit => "PlayerHit",
            PacketType::PlayerShoot => "PlayerShoot",
            PacketType::PlayerText => "PlayerText",
            PacketType::Pong => "Pong",
            PacketType::RequestTrade => "RequestTrade",
            PacketType::ResetDailyQuests => "ResetDailyQuests",
            PacketType::Reskin => "Reskin",
            PacketType::SetCondition => "SetCondition",
            PacketType::ShootAck => "ShootAck",
            PacketType::SquareHit => "SquareHit",
            PacketType::Teleport => "Teleport",
            PacketType::UseItem => "UseItem",
            PacketType::UsePortal => "UsePortal",
        }
    }

    /// The types of the fields of a packet of this type, in the order in
    /// which they are written.
    pub open spec fn schema(self) -> Seq<FieldType> {
        match self {
            PacketType::ArenaDeath => seq![FieldType::U32],
            PacketType::ImminentArenaWave => seq![FieldType::U32],
            PacketType::ActivePet => seq![FieldType::U32],
            PacketType::DeletePetMessage => seq![FieldType::U32],
            PacketType::HatchPetMessage => seq![
                FieldType::Str(Prefix::U16),
                FieldType::U32,
                FieldType::U32,
            ],
            PacketType::PetYard => seq![FieldType::U32],
            PacketType::AccountList => seq![
                FieldType::U32,
                FieldType::List(Prefix::U16, Box::new(FieldType::Str(Prefix::U16))),
                FieldType::U32,
            ],
            PacketType::AllyShoot => seq![
                FieldType::U8,
                FieldType::U32,
                FieldType::U16,
                FieldType::F32,
                FieldType::Bool,
            ],
            PacketType::Aoe => seq![
                FieldType::Data(DataType::WorldPosData),
                FieldType::F32,
                FieldType::U16,
                FieldType::U8,
                FieldType::F32,
                FieldType::U16,
                FieldType::U32,
                FieldType::Bool,
            ],
            PacketType::BuyResult => seq![FieldType::I32, FieldType::Str(Prefix::U16)],
            PacketType::ClientStat => seq![FieldType::Str(Prefix::U16), FieldType::U32],
            PacketType::CreateSuccess => seq![FieldType::U32, FieldType::U32],
            PacketType::Damage => seq![
                FieldType::U32,
                FieldType::Bytes(Prefix::U8),
                FieldType::U16,
                FieldType::Bool,
                FieldType::Bool,
                FieldType::U8,
                FieldType::U32,
            ],
            PacketType::Death => seq![
                FieldType::Str(Prefix::U16),
                FieldType::U32,
                FieldType::Str(Prefix::U16),
                FieldType::U32,
                FieldType::I32,
            ],
            PacketType::EnemyShoot => seq![
                FieldType::U8,
                FieldType::U32,
                FieldType::U8,
                FieldType::Data(DataType::WorldPosData),
                FieldType::F32,
                FieldType::U16,
                FieldType::Optional(Box::new(FieldType::U8)),
                FieldType::Optional(Box::new(FieldType::F32)),
            ],
            PacketType::EvolvedPet => seq![
                FieldType::U32,
                FieldType::U32,
                FieldType::U32,
            ],
            PacketType::Failure => seq![
                FieldType::U32,
                FieldType::Str(Prefix::U16),
                FieldType::Str(Prefix::U16),
                FieldType::Str(Prefix::U16),
            ],
            PacketType::File => seq![FieldType::Str(Prefix::U16), FieldType::Str(Prefix::U32)],
            PacketType::GlobalNotification => seq![FieldType::U32, FieldType::Str(Prefix::U16)],
            PacketType::Goto => seq![FieldType::U32, FieldType::Data(DataType::WorldPosData)],
            PacketType::GuildResult => seq![FieldType::Bool, FieldType::Str(Prefix::U16)],
            PacketType::InvResult => seq![FieldType::I32],
            PacketType::InvitedToGuild => seq![FieldType::Str(Prefix::U16), FieldType::Str(Prefix::U16)],
            PacketType::KeyInfoResponse => seq![
                FieldType::Str(Prefix::U16),
                FieldType::Str(Prefix::U16),
                FieldType::Str(Prefix::U16),
            ],
            PacketType::MapInfo => seq![
                FieldType::U32,
                FieldType::I32,
                FieldType::Str(Prefix::U16),
                FieldType::Str(Prefix::U16),
                FieldType::U32,
                FieldType::U32,
                FieldType::U32,
                FieldType::Bool,
                FieldType::Bool,
                FieldType::U16,
                FieldType::Str(Prefix::U16),
                FieldType::U32,
                FieldType::List(Prefix::U16, Box::new(FieldType::Str(Prefix::U32))),
                FieldType::List(Prefix::U16, Box::new(FieldType::Str(Prefix::U32))),
            ],
            PacketType::NameResult => seq![FieldType::Bool, FieldType::Str(Prefix::U16)],
            PacketType::NewAbilityMessage => seq![FieldType::I32],
            PacketType::NewTick => seq![
                FieldType::U32,
                FieldType::U32,
                FieldType::List(Prefix::U16, Box::new(FieldType::Data(DataType::ObjectStatusData))),
            ],
            PacketType::Notification => seq![
                FieldType::U32,
                FieldType::Str(Prefix::U16),
                FieldType::U32,
            ],
            PacketType::PasswordPrompt => seq![FieldType::I32],
            PacketType::Pic => seq![
                FieldType::U32,
                FieldType::U32,
                FieldType::Remaining,
            ],
            PacketType::Ping => seq![FieldType::U32],
            PacketType::PlaySound => seq![FieldType::U32, FieldType::U8],
            PacketType::QuestObjId => seq![FieldType::U32],
            PacketType::QuestRedeemResponse => seq![FieldType::Bool, FieldType::Str(Prefix::U16)],
            PacketType::RealmHeroesResponse => seq![FieldType::U32],
            PacketType::Reconnect => seq![
                FieldType::Str(Prefix::U16),
                FieldType::Str(Prefix::U16),
                FieldType::Str(Prefix::U16),
                FieldType::U32,
                FieldType::U32,
                FieldType::U32,
                FieldType::Bool,
                FieldType::Bytes(Prefix::U16),
            ],
            PacketType::ReskinUnlock => seq![FieldType::U32, FieldType::U32],
            PacketType::ServerPlayerShoot => seq![
                FieldType::U8,
                FieldType::U32,
                FieldType::U32,
                FieldType::Data(DataType::WorldPosData),
                FieldType::F32,
                FieldType::U16,
            ],
            PacketType::ShowEffect => seq![
                FieldType::U8,
                FieldType::U32,
                FieldType::Data(DataType::WorldPosData),
                FieldType::Data(DataType::WorldPosData),
                FieldType::U32,
                FieldType::F32,
            ],
            PacketType::Text => seq![
                FieldType::Str(Prefix::U16),
                FieldType::U32,
                FieldType::U32,
                FieldType::U8,
                FieldType::Str(Prefix::U16),
                FieldType::Str(Prefix::U16),
                FieldType::Str(Prefix::U16),
                FieldType::Bool,
                FieldType::U32,
            ],
            PacketType::TradeAccepted => seq![
                FieldType::List(Prefix::U16, Box::new(FieldType::Bool)),
                FieldType::List(Prefix::U16, Box::new(FieldType::Bool)),
            ],
            PacketType::TradeChanged => seq![FieldType::List(Prefix::U16, Box::new(FieldType::Bool))],
            PacketType::TradeDone => seq![FieldType::U32, FieldType::Str(Prefix::U16)],
            PacketType::TradeRequested => seq![FieldType::Str(Prefix::U16)],
            PacketType::TradeStart => seq![
                FieldType::List(Prefix::U16, Box::new(FieldType::Data(DataType::TradeItem))),
                FieldType::Str(Prefix::U16),
                FieldType::List(Prefix::U16, Box::new(FieldType::Data(DataType::TradeItem))),
            ],
            PacketType::Update => seq![
                FieldType::List(Prefix::U16, Box::new(FieldType::Data(DataType::GroundTileData))),
                FieldType::List(Prefix::U16, Box::new(FieldType::Data(DataType::ObjectData))),
                FieldType::List(Prefix::U16, Box::new(FieldType::I32)),
            ],
            PacketType::VerifyEmail => seq![FieldType::Unit],
            PacketType::EnterArena => seq![FieldType::U32],
            PacketType::QuestRedeem => seq![
                FieldType::Str(Prefix::U16),
                FieldType::U32,
                FieldType::List(Prefix::U16, Box::new(FieldType::Data(DataType::SlotObjectData))),
            ],
            PacketType::PetUpgradeRequest => seq![
                FieldType::U8,
                FieldType::U32,
                FieldType::U32,
                FieldType::U32,
                FieldType::U8,
                FieldType::List(Prefix::U16, Box::new(FieldType::Data(DataType::SlotObjectData))),
            ],
            PacketType::ReskinPet => seq![
                FieldType::U32,
                FieldType::U32,
                FieldType::Data(DataType::SlotObjectData),
            ],
            PacketType::AcceptTrade => seq![
                FieldType::List(Prefix::U16, Box::new(FieldType::Bool)),
                FieldType::List(Prefix::U16, Box::new(FieldType::Bool)),
            ],
            PacketType::ActivePetUpdateRequest => seq![FieldType::U8, FieldType::U32],
            PacketType::AoeAck => seq![FieldType::U32, FieldType::Data(DataType::WorldPosData)],
            PacketType::Buy => seq![FieldType::U32, FieldType::U32],
            PacketType::CancelTrade => seq![FieldType::Unit],
            PacketType::ChangeGuildRank => seq![FieldType::Str(Prefix::U16), FieldType::U32],
            PacketType::ChangePetSkin => seq![
                FieldType::U32,
                FieldType::U32,
                FieldType::U32,
            ],
            PacketType::ChangeTrade => seq![FieldType::List(Prefix::U16, Box::new(FieldType::Bool))],
            PacketType::CheckCredits => seq![FieldType::Unit],
            PacketType::ChooseName => seq![FieldType::Str(Prefix::U16)],
            PacketType::Create => seq![
                FieldType::U16,
                FieldType::U16,
                FieldType::Bool,
            ],
            PacketType::CreateGuild => seq![FieldType::Str(Prefix::U16)],
            PacketType::EditAccountList => seq![
                FieldType::U32,
                FieldType::Bool,
                FieldType::U32,
            ],
            PacketType::EnemyHit => seq![
                FieldType::U32,
                FieldType::U8,
                FieldType::U32,
                FieldType::Bool,
            ],
            PacketType::Escape => seq![FieldType::Unit],
            PacketType::GoToQuestRoom => seq![FieldType::Unit],
            PacketType::GotoAck => seq![FieldType::U32],
            PacketType::GroundDamage => seq![FieldType::U32, FieldType::Data(DataType::WorldPosData)],
            PacketType::GuildInvite => seq![FieldType::Str(Prefix::U16)],
            PacketType::GuildRemove => seq![FieldType::Str(Prefix::U16)],
            PacketType::Hello => seq![
                FieldType::Str(Prefix::U16),
                FieldType::U32,
                FieldType::Str(Prefix::U16),
                FieldType::U32,
                FieldType::Str(Prefix::U16),
                FieldType::U32,
                FieldType::Str(Prefix::U16),
                FieldType::U32,
                FieldType::Bytes(Prefix::U16),
                FieldType::Str(Prefix::U32),
                FieldType::Str(Prefix::U16),
                FieldType::Str(Prefix::U16),
                FieldType::Str(Prefix::U16),
                FieldType::Str(Prefix::U16),
                FieldType::Str(Prefix::U16),
                FieldType::Str(Prefix::U16),
                FieldType::Str(Prefix::U16),
                FieldType::Str(Prefix::U16),
            ],
            PacketType::InvDrop => seq![FieldType::Data(DataType::SlotObjectData)],
            PacketType::InvSwap => seq![
                FieldType::U32,
                FieldType::Data(DataType::WorldPosData),
                FieldType::Data(DataType::SlotObjectData),
                FieldType::Data(DataType::SlotObjectData),
            ],
            PacketType::JoinGuild => seq![FieldType::Str(Prefix::U16)],
            PacketType::KeyInfoRequest => seq![FieldType::U32],
            PacketType::Load => seq![
                FieldType::U32,
                FieldType::Bool,
                FieldType::Bool,
            ],
            PacketType::Move => seq![
                FieldType::U32,
                FieldType::U32,
                FieldType::Data(DataType::WorldPosData),
                FieldType::List(Prefix::U16, Box::new(FieldType::Data(DataType::WorldPosData))),
            ],
            PacketType::OtherHit => seq![
                FieldType::U32,
                FieldType::U8,
                FieldType::U32,
                FieldType::U32,
            ],
            PacketType::PlayerHit => seq![FieldType::U8, FieldType::U32],
            PacketType::PlayerShoot => seq![
                FieldType::U32,
                FieldType::U8,
                FieldType::U16,
                FieldType::Data(DataType::WorldPosData),
                FieldType::F32,
                FieldType::U16,
                FieldType::U16,
            ],
            PacketType::PlayerText => seq![FieldType::Str(Prefix::U16)],
            PacketType::Pong => seq![FieldType::U32, FieldType::U32],
            PacketType::RequestTrade => seq![FieldType::Str(Prefix::U16)],
            PacketType::ResetDailyQuests => seq![FieldType::Unit],
            PacketType::Reskin => seq![FieldType::U32],
            PacketType::SetCondition => seq![FieldType::U8, FieldType::F32],
            PacketType::ShootAck => seq![FieldType::U32],
            PacketType::SquareHit => seq![
                FieldType::U32,
                FieldType::U8,
                FieldType::U32,
            ],
            PacketType::Teleport => seq![FieldType::U32],
            PacketType::UseItem => seq![
                FieldType::U32,
                FieldType::Data(DataType::SlotObjectData),
                FieldType::Data(DataType::WorldPosData),
                FieldType::U8,
            ],
            PacketType::UsePortal => seq![FieldType::U32],
        }
    }

    /// The names of the fields of a packet of this type, in the order in
    /// which they are written.
    pub open spec fn spec_field_names(self) -> Seq<&'static str> {
        match self {
            PacketType::ArenaDeath => seq!["cost"],
            PacketType::ImminentArenaWave => seq!["current_runtime"],
            PacketType::ActivePet => seq!["instance_id"],
            PacketType::DeletePetMessage => seq!["pet_id"],
            PacketType::HatchPetMessage => seq!["pet_name", "pet_skin", "item_type"],
            PacketType::PetYard => seq!["typ"],
            PacketType::AccountList => seq!["account_list_id", "account_ids", "lock_action"],
            PacketType::AllyShoot => seq!["bullet_id", "owner_id", "container_type", "angle", "bard"],
            PacketType::Aoe => seq![
                "pos",
                "radius",
                "damage",
                "effect",
                "duration",
                "orig_type",
                "color",
                "armor_pierce",
            ],
            PacketType::BuyResult => seq!["result", "result_string"],
            PacketType::ClientStat => seq!["name", "value"],
            PacketType::CreateSuccess => seq!["object_id", "char_id"],
            PacketType::Damage => seq![
                "target_id",
                "effects",
                "damage_amount",
                "kill",
                "armor_pierce",
                "bullet_id",
                "object_id",
            ],
            PacketType::Death => seq![
                "account_id",
                "char_id",
                "killed_by",
                "zombie_type",
                "zombie_id",
            ],
            PacketType::EnemyShoot => seq![
                "bullet_id",
                "owner_id",
                "bullet_type",
                "starting_pos",
                "angle",
                "damage",
                "num_shots",
                "angle_inc",
            ],
            PacketType::EvolvedPet => seq!["pet_id", "initial_skin", "final_skin"],
            PacketType::Failure => seq![
                "error_id",
                "error_description",
                "error_place",
                "error_connection_id",
            ],
            PacketType::File => seq!["filename", "file"],
            PacketType::GlobalNotification => seq!["typ", "text"],
            PacketType::Goto => seq!["object_id", "pos"],
            PacketType::GuildResult => seq!["success", "line_builder_json"],
            PacketType::InvResult => seq!["result"],
            PacketType::InvitedToGuild => seq!["name", "guild_name"],
            PacketType::KeyInfoResponse => seq!["name", "description", "creator"],
            PacketType::MapInfo => seq![
                "width",
                "height",
                "name",
                "display_name",
                "fp",
                "background",
                "difficulty",
                "allow_player_teleport",
                "show_displays",
                "max_players",
                "connection_guid",
                "game_opened_time",
                "client_xml",
                "extra_xml",
            ],
            PacketType::NameResult => seq!["success", "error_text"],
            PacketType::NewAbilityMessage => seq!["typ"],
            PacketType::NewTick => seq!["tick_id", "tick_time", "statuses"],
            PacketType::Notification => seq!["object_id", "message", "color"],
            PacketType::PasswordPrompt => seq!["clean_password_status"],
            PacketType::Pic => seq!["width", "height", "bitmap"],
            PacketType::Ping => seq!["serial"],
            PacketType::PlaySound => seq!["owner_id", "sound_id"],
            PacketType::QuestObjId => seq!["object_id"],
            PacketType::QuestRedeemResponse => seq!["ok", "message"],
            PacketType::RealmHeroesResponse => seq!["number_of_realm_heroes"],
            PacketType::Reconnect => seq![
                "name",
                "host",
                "stats",
                "port",
                "game_id",
                "key_time",
                "is_from_arena",
                "key",
            ],
            PacketType::ReskinUnlock => seq!["skin_id", "is_pet_skin"],
            PacketType::ServerPlayerShoot => seq![
                "bullet_id",
                "owner_id",
                "container_type",
                "starting_pos",
                "angle",
                "damage",
            ],
            PacketType::ShowEffect => seq![
                "effect_type",
                "target_object_id",
                "pos1",
                "pos2",
                "color",
                "duration",
            ],
            PacketType::Text => seq![
                "name",
                "object_id",
                "num_stars",
                "bubble_time",
                "recipient",
                "text",
                "clean_text",
                "is_supporter",
                "star_bg",
            ],
            PacketType::TradeAccepted => seq!["my_offer", "your_offer"],
            PacketType::TradeChanged => seq!["offer"],
            PacketType::TradeDone => seq!["code", "description"],
            PacketType::TradeRequested => seq!["name"],
            PacketType::TradeStart => seq!["my_items", "your_name", "your_items"],
            PacketType::Update => seq!["tiles", "new_objs", "drops"],
            PacketType::VerifyEmail => seq!["_empty"],
            PacketType::EnterArena => seq!["currency"],
            PacketType::QuestRedeem => seq!["quest_id", "item", "slots"],
            PacketType::PetUpgradeRequest => seq![
                "pet_trans_type",
                "pid1",
                "pid2",
                "object_id",
                "payment_trans_type",
                "slots",
            ],
            PacketType::ReskinPet => seq!["pet_instance_id", "picked_new_pet_type", "slot"],
            PacketType::AcceptTrade => seq!["my_offer", "your_offer"],
            PacketType::ActivePetUpdateRequest => seq!["command_type", "instance_id"],
            PacketType::AoeAck => seq!["time", "position"],
            PacketType::Buy => seq!["object_id", "quantity"],
            PacketType::CancelTrade => seq!["_empty"],
            PacketType::ChangeGuildRank => seq!["name", "guild_rank"],
            PacketType::ChangePetSkin => seq!["pet_id", "skin_type", "currency"],
            PacketType::ChangeTrade => seq!["offer"],
            PacketType::CheckCredits => seq!["_empty"],
            PacketType::ChooseName => seq!["name"],
            PacketType::Create => seq!["class_type", "skin_type", "is_challenger"],
            PacketType::CreateGuild => seq!["name"],
            PacketType::EditAccountList => seq!["account_list_id", "add", "object_id"],
            PacketType::EnemyHit => seq!["time", "bullet_id", "target_id", "kill"],
            PacketType::Escape => seq!["empty"],
            PacketType::GoToQuestRoom => seq!["empty"],
            PacketType::GotoAck => seq!["time"],
            PacketType::GroundDamage => seq!["time", "position"],
            PacketType::GuildInvite => seq!["name"],
            PacketType::GuildRemove => seq!["name"],
            PacketType::Hello => seq![
                "build_version",
                "game_id",
                "guid",
                "rand1",
                "password",
                "rand2",
                "secret",
                "key_time",
                "key",
                "map_json",
                "entry_tag",
                "game_net",
                "game_net_user_id",
                "play_platform",
                "platform_token",
                "user_token",
                "unknown",
                "previous_connection_guid",
            ],
            PacketType::InvDrop => seq!["slot_object"],
            PacketType::InvSwap => seq!["time", "position", "slot1", "slot2"],
            PacketType::JoinGuild => seq!["guild_name"],
            PacketType::KeyInfoRequest => seq!["item_type"],
            PacketType::Load => seq!["char_id", "is_from_arena", "is_challenger"],
            PacketType::Move => seq!["tick_id", "time", "new_position", "records"],
            PacketType::OtherHit => seq!["time", "bullet_id", "object_id", "target_id"],
            PacketType::PlayerHit => seq!["bullet_id", "object_id"],
            PacketType::PlayerShoot => seq![
                "time",
                "bullet_id",
                "container_type",
                "starting_pos",
                "angle",
                "speed_mult",
                "life_mult",
            ],
            PacketType::PlayerText => seq!["text"],
            PacketType::Pong => seq!["serial", "time"],
            PacketType::RequestTrade => seq!["name"],
            PacketType::ResetDailyQuests => seq!["empty"],
            PacketType::Reskin => seq!["skin_id"],
            PacketType::SetCondition => seq!["condition_effect", "condition_duration"],
            PacketType::ShootAck => seq!["time"],
            PacketType::SquareHit => seq!["time", "bullet_id", "object_id"],
            PacketType::Teleport => seq!["object_id"],
            PacketType::UseItem => seq!["time", "slot", "item_use_pos", "use_type"],
            PacketType::UsePortal => seq!["object_id"],
        }
    }

    /// The index of this packet type in the catalog.
    #[verifier::when_used_as_spec(spec_index)]
    pub fn index(self) -> (r: u8)
        ensures
            r == self.spec_index(),
            r < PACKET_TYPES,
    {
        match self {
            PacketType::ArenaDeath => 0,
            PacketType::ImminentArenaWave => 1,
            PacketType::ActivePet => 2,
            PacketType::DeletePetMessage => 3,
            PacketType::HatchPetMessage => 4,
            PacketType::PetYard => 5,
            PacketType::AccountList => 6,
            PacketType::AllyShoot => 7,
            PacketType::Aoe => 8,
            PacketType::BuyResult => 9,
            PacketType::ClientStat => 10,
            PacketType::CreateSuccess => 11,
            PacketType::Damage => 12,
            PacketType::Death => 13,
            PacketType::EnemyShoot => 14,
            PacketType::EvolvedPet => 15,
            PacketType::Failure => 16,
            PacketType::File => 17,
            PacketType::GlobalNotification => 18,
            PacketType::Goto => 19,
            PacketType::GuildResult => 20,
            PacketType::InvResult => 21,
            PacketType::InvitedToGuild => 22,
            PacketType::KeyInfoResponse => 23,
            PacketType::MapInfo => 24,
            PacketType::NameResult => 25,
            PacketType::NewAbilityMessage => 26,
            PacketType::NewTick => 27,
            PacketType::Notification => 28,
            PacketType::PasswordPrompt => 29,
            PacketType::Pic => 30,
            PacketType::Ping => 31,
            PacketType::PlaySound => 32,
            PacketType::QuestObjId => 33,
            PacketType::QuestRedeemResponse => 34,
            PacketType::RealmHeroesResponse => 35,
            PacketType::Reconnect => 36,
            PacketType::ReskinUnlock => 37,
            PacketType::ServerPlayerShoot => 38,
            PacketType::ShowEffect => 39,
            PacketType::Text => 40,
            PacketType::TradeAccepted => 41,
            PacketType::TradeChanged => 42,
            PacketType::TradeDone => 43,
            PacketType::TradeRequested => 44,
            PacketType::TradeStart => 45,
            PacketType::Update => 46,
            PacketType::VerifyEmail => 47,
            PacketType::EnterArena => 48,
            PacketType::QuestRedeem => 49,
            PacketType::PetUpgradeRequest => 50,
            PacketType::ReskinPet => 51,
            PacketType::AcceptTrade => 52,
            PacketType::ActivePetUpdateRequest => 53,
            PacketType::AoeAck => 54,
            PacketType::Buy => 55,
            PacketType::CancelTrade => 56,
            PacketType::ChangeGuildRank => 57,
            PacketType::ChangePetSkin => 58,
            PacketType::ChangeTrade => 59,
            PacketType::CheckCredits => 60,
            PacketType::ChooseName => 61,
            PacketType::Create => 62,
            PacketType::CreateGuild => 63,
            PacketType::EditAccountList => 64,
            PacketType::EnemyHit => 65,
            PacketType::Escape => 66,
            PacketType::GoToQuestRoom => 67,
            PacketType::GotoAck => 68,
            PacketType::GroundDamage => 69,
            PacketType::GuildInvite => 70,
            PacketType::GuildRemove => 71,
            PacketType::Hello => 72,
            PacketType::InvDrop => 73,
            PacketType::InvSwap => 74,
            PacketType::JoinGuild => 75,
            PacketType::KeyInfoRequest => 76,
            PacketType::Load => 77,
            PacketType::Move => 78,
            PacketType::OtherHit => 79,
            PacketType::PlayerHit => 80,
            PacketType::PlayerShoot => 81,
            PacketType::PlayerText => 82,
            PacketType::Pong => 83,
            PacketType::RequestTrade => 84,
            PacketType::ResetDailyQuests => 85,
            PacketType::Reskin => 86,
            PacketType::SetCondition => 87,
            PacketType::ShootAck => 88,
            PacketType::SquareHit => 89,
            PacketType::Teleport => 90,
            PacketType::UseItem => 91,
            PacketType::UsePortal => 92,
        }
    }

    /// The packet type at an index of the catalog, if the catalog is that
    /// long.
    pub fn from_index(index: u8) -> (r: Option<PacketType>)
        ensures
            r == PacketType::of_index(index),
            r is Some <==> index < PACKET_TYPES,
    {
        match index {
            0 => Some(PacketType::ArenaDeath),
            1 => Some(PacketType::ImminentArenaWave),
            2 => Some(PacketType::ActivePet),
            3 => Some(PacketType::DeletePetMessage),
            4 => Some(PacketType::HatchPetMessage),
            5 => Some(PacketType::PetYard),
            6 => Some(PacketType::AccountList),
            7 => Some(PacketType::AllyShoot),
            8 => Some(PacketType::Aoe),
            9 => Some(PacketType::BuyResult),
            10 => Some(PacketType::ClientStat),
            11 => Some(PacketType::CreateSuccess),
            12 => Some(PacketType::Damage),
            13 => Some(PacketType::Death),
            14 => Some(PacketType::EnemyShoot),
            15 => Some(PacketType::EvolvedPet),
            16 => Some(PacketType::Failure),
            17 => Some(PacketType::File),
            18 => Some(PacketType::GlobalNotification),
            19 => Some(PacketType::Goto),
            20 => Some(PacketType::GuildResult),
            21 => Some(PacketType::InvResult),
            22 => Some(PacketType::InvitedToGuild),
            23 => Some(PacketType::KeyInfoResponse),
            24 => Some(PacketType::MapInfo),
            25 => Some(PacketType::NameResult),
            26 => Some(PacketType::NewAbilityMessage),
            27 => Some(PacketType::NewTick),
            28 => Some(PacketType::Notification),
            29 => Some(PacketType::PasswordPrompt),
            30 => Some(PacketType::Pic),
            31 => Some(PacketType::Ping),
            32 => Some(PacketType::PlaySound),
            33 => Some(PacketType::QuestObjId),
            34 => Some(PacketType::QuestRedeemResponse),
            35 => Some(PacketType::RealmHeroesResponse),
            36 => Some(PacketType::Reconnect),
            37 => Some(PacketType::ReskinUnlock),
            38 => Some(PacketType::ServerPlayerShoot),
            39 => Some(PacketType::ShowEffect),
            40 => Some(PacketType::Text),
            41 => Some(PacketType::TradeAccepted),
            42 => Some(PacketType::TradeChanged),
            43 => Some(PacketType::TradeDone),
            44 => Some(PacketType::TradeRequested),
            45 => Some(PacketType::TradeStart),
            46 => Some(PacketType::Update),
            47 => Some(PacketType::VerifyEmail),
            48 => Some(PacketType::EnterArena),
            49 => Some(PacketType::QuestRedeem),
            50 => Some(PacketType::PetUpgradeRequest),
            51 => Some(PacketType::ReskinPet),
            52 => Some(PacketType::AcceptTrade),
            53 => Some(PacketType::ActivePetUpdateRequest),
            54 => Some(PacketType::AoeAck),
            55 => Some(PacketType::Buy),
            56 => Some(PacketType::CancelTrade),
            57 => Some(PacketType::ChangeGuildRank),
            58 => Some(PacketType::ChangePetSkin),
            59 => Some(PacketType::ChangeTrade),
            60 => Some(PacketType::CheckCredits),
            61 => Some(PacketType::ChooseName),
            62 => Some(PacketType::Create),
            63 => Some(PacketType::CreateGuild),
            64 => Some(PacketType::EditAccountList),
            65 => Some(PacketType::EnemyHit),
            66 => Some(PacketType::Escape),
            67 => Some(PacketType::GoToQuestRoom),
            68 => Some(PacketType::GotoAck),
            69 => Some(PacketType::GroundDamage),
            70 => Some(PacketType::GuildInvite),
            71 => Some(PacketType::GuildRemove),
            72 => Some(PacketType::Hello),
            73 => Some(PacketType::InvDrop),
            74 => Some(PacketType::InvSwap),
            75 => Some(PacketType::JoinGuild),
            76 => Some(PacketType::KeyInfoRequest),
            77 => Some(PacketType::Load),
            78 => Some(PacketType::Move),
            79 => Some(PacketType::OtherHit),
            80 => Some(PacketType::PlayerHit),
            81 => Some(PacketType::PlayerShoot),
            82 => Some(PacketType::PlayerText),
            83 => Some(PacketType::Pong),
            84 => Some(PacketType::RequestTrade),
            85 => Some(PacketType::ResetDailyQuests),
            86 => Some(PacketType::Reskin),
            87 => Some(PacketType::SetCondition),
            88 => Some(PacketType::ShootAck),
            89 => Some(PacketType::SquareHit),
            90 => Some(PacketType::Teleport),
            91 => Some(PacketType::UseItem),
            92 => Some(PacketType::UsePortal),
            _ => None,
        }
    }

    /// The name of this packet type.
    #[verifier::when_used_as_spec(spec_name)]
    pub fn name(self) -> (r: &'static str)
        ensures
            r == self.spec_name(),
    {
        match self {
            PacketType::ArenaDeath => "ArenaDeath",
            PacketType::ImminentArenaWave => "ImminentArenaWave",
            PacketType::ActivePet => "ActivePet",
            PacketType::DeletePetMessage => "DeletePetMessage",
            PacketType::HatchPetMessage => "HatchPetMessage",
            PacketType::PetYard => "PetYard",
            PacketType::AccountList => "AccountList",
            PacketType::AllyShoot => "AllyShoot",
            PacketType::Aoe => "Aoe",
            PacketType::BuyResult => "BuyResult",
            PacketType::ClientStat => "ClientStat",
            PacketType::CreateSuccess => "CreateSuccess",
            PacketType::Damage => "Damage",
            PacketType::Death => "Death",
            PacketType::EnemyShoot => "EnemyShoot",
            PacketType::EvolvedPet => "EvolvedPet",
            PacketType::Failure => "Failure",
            PacketType::File => "File",
            PacketType::GlobalNotification => "GlobalNotification",
            PacketType::Goto => "Goto",
            PacketType::GuildResult => "GuildResult",
            PacketType::InvResult => "InvResult",
            PacketType::InvitedToGuild => "InvitedToGuild",
            PacketType::KeyInfoResponse => "KeyInfoResponse",
            PacketType::MapInfo => "MapInfo",
            PacketType::NameResult => "NameResult",
            PacketType::NewAbilityMessage => "NewAbilityMessage",
            PacketType::NewTick => "NewTick",
            PacketType::Notification => "Notification",
            PacketType::PasswordPrompt => "PasswordPrompt",
            PacketType::Pic => "Pic",
            PacketType::Ping => "Ping",
            PacketType::PlaySound => "PlaySound",
            PacketType::QuestObjId => "QuestObjId",
            PacketType::QuestRedeemResponse => "QuestRedeemResponse",
            PacketType::RealmHeroesResponse => "RealmHeroesResponse",
            PacketType::Reconnect => "Reconnect",
            PacketType::ReskinUnlock => "ReskinUnlock",
            PacketType::ServerPlayerShoot => "ServerPlayerShoot",
            PacketType::ShowEffect => "ShowEffect",
            PacketType::Text => "Text",
            PacketType::TradeAccepted => "TradeAccepted",
            PacketType::TradeChanged => "TradeChanged",
            PacketType::TradeDone => "TradeDone",
            PacketType::TradeRequested => "TradeRequested",
            PacketType::TradeStart => "TradeStart",
            PacketType::Update => "Update",
            PacketType::VerifyEmail => "VerifyEmail",
            PacketType::EnterArena => "EnterArena",
            PacketType::QuestRedeem => "QuestRedeem",
            PacketType::PetUpgradeRequest => "PetUpgradeRequest",
            PacketType::ReskinPet => "ReskinPet",
            PacketType::AcceptTrade => "AcceptTrade",
            PacketType::ActivePetUpdateRequest => "ActivePetUpdateRequest",
            PacketType::AoeAck => "AoeAck",
            PacketType::Buy => "Buy",
            PacketType::CancelTrade => "CancelTrade",
            PacketType::ChangeGuildRank => "ChangeGuildRank",
            PacketType::ChangePetSkin => "ChangePetSkin",
            PacketType::ChangeTrade => "ChangeTrade",
            PacketType::CheckCredits => "CheckCredits",
            PacketType::ChooseName => "ChooseName",
            PacketType::Create => "Create",
            PacketType::CreateGuild => "CreateGuild",
            PacketType::EditAccountList => "EditAccountList",
            PacketType::EnemyHit => "EnemyHit",
            PacketType::Escape => "Escape",
            PacketType::GoToQuestRoom => "GoToQuestRoom",
            PacketType::GotoAck => "GotoAck",
            PacketType::GroundDamage => "GroundDamage",
            PacketType::GuildInvite => "GuildInvite",
            PacketType::GuildRemove => "GuildRemove",
            PacketType::Hello => "Hello",
            PacketType::InvDrop => "InvDrop",
            PacketType::InvSwap => "InvSwap",
            PacketType::JoinGuild => "JoinGuild",
            PacketType::KeyInfoRequest => "KeyInfoRequest",
            PacketType::Load => "Load",
            PacketType::Move => "Move",
            PacketType::OtherHit => "OtherHit",
            PacketType::PlayerHit => "PlayerHit",
            PacketType::PlayerShoot => "PlayerShoot",
            PacketType::PlayerText => "PlayerText",
            PacketType::Pong => "Pong",
            PacketType::RequestTrade => "RequestTrade",
            PacketType::ResetDailyQuests => "ResetDailyQuests",
            PacketType::Reskin => "Reskin",
            PacketType::SetCondition => "SetCondition",
            PacketType::ShootAck => "ShootAck",
            PacketType::SquareHit => "SquareHit",
            PacketType::Teleport => "Teleport",
            PacketType::UseItem => "UseItem",
            PacketType::UsePortal => "UsePortal",
        }
    }

    /// The names of the fields of a packet of this type, in the order in
    /// which they are written.
    #[verifier::rlimit(50)]
    pub fn field_names(self) -> (r: Vec<&'static str>)
        ensures
            r@ == self.spec_field_names(),
            r@.len() == self.schema().len(),
    {
        let r = match self {
            PacketType::ArenaDeath => vec!["cost"],
            PacketType::ImminentArenaWave => vec!["current_runtime"],
            PacketType::ActivePet => vec!["instance_id"],
            PacketType::DeletePetMessage => vec!["pet_id"],
            PacketType::HatchPetMessage => vec!["pet_name", "pet_skin", "item_type"],
            PacketType::PetYard => vec!["typ"],
            PacketType::AccountList => vec!["account_list_id", "account_ids", "lock_action"],
            PacketType::AllyShoot => vec!["bullet_id", "owner_id", "container_type", "angle", "bard"],
            PacketType::Aoe => vec![
                "pos",
                "radius",
                "damage",
                "effect",
                "duration",
                "orig_type",
                "color",
                "armor_pierce",
            ],
            PacketType::BuyResult => vec!["result", "result_string"],
            PacketType::ClientStat => vec!["name", "value"],
            PacketType::CreateSuccess => vec!["object_id", "char_id"],
            PacketType::Damage => vec![
                "target_id",
                "effects",
                "damage_amount",
                "kill",
                "armor_pierce",
                "bullet_id",
                "object_id",
            ],
            PacketType::Death => vec![
                "account_id",
                "char_id",
                "killed_by",
                "zombie_type",
                "zombie_id",
            ],
            PacketType::EnemyShoot => vec![
                "bullet_id",
                "owner_id",
                "bullet_type",
                "starting_pos",
                "angle",
                "damage",
                "num_shots",
                "angle_inc",
            ],
            PacketType::EvolvedPet => vec!["pet_id", "initial_skin", "final_skin"],
            PacketType::Failure => vec![
                "error_id",
                "error_description",
                "error_place",
                "error_connection_id",
            ],
            PacketType::File => vec!["filename", "file"],
            PacketType::GlobalNotification => vec!["typ", "text"],
            PacketType::Goto => vec!["object_id", "pos"],
            PacketType::GuildResult => vec!["success", "line_builder_json"],
            PacketType::InvResult => vec!["result"],
            PacketType::InvitedToGuild => vec!["name", "guild_name"],
            PacketType::KeyInfoResponse => vec!["name", "description", "creator"],
            PacketType::MapInfo => vec![
                "width",
                "height",
                "name",
                "display_name",
                "fp",
                "background",
                "difficulty",
                "allow_player_teleport",
                "show_displays",
                "max_players",
                "connection_guid",
                "game_opened_time",
                "client_xml",
                "extra_xml",
            ],
            PacketType::NameResult => vec!["success", "error_text"],
            PacketType::NewAbilityMessage => vec!["typ"],
            PacketType::NewTick => vec!["tick_id", "tick_time", "statuses"],
            PacketType::Notification => vec!["object_id", "message", "color"],
            PacketType::PasswordPrompt => vec!["clean_password_status"],
            PacketType::Pic => vec!["width", "height", "bitmap"],
            PacketType::Ping => vec!["serial"],
            PacketType::PlaySound => vec!["owner_id", "sound_id"],
            PacketType::QuestObjId => vec!["object_id"],
            PacketType::QuestRedeemResponse => vec!["ok", "message"],
            PacketType::RealmHeroesResponse => vec!["number_of_realm_heroes"],
            PacketType::Reconnect => vec![
                "name",
                "host",
                "stats",
                "port",
                "game_id",
                "key_time",
                "is_from_arena",
                "key",
            ],
            PacketType::ReskinUnlock => vec!["skin_id", "is_pet_skin"],
            PacketType::ServerPlayerShoot => vec![
                "bullet_id",
                "owner_id",
                "container_type",
                "starting_pos",
                "angle",
                "damage",
            ],
            PacketType::ShowEffect => vec![
                "effect_type",
                "target_object_id",
                "pos1",
                "pos2",
                "color",
                "duration",
            ],
            PacketType::Text => vec![
                "name",
                "object_id",
                "num_stars",
                "bubble_time",
                "recipient",
                "text",
                "clean_text",
                "is_supporter",
                "star_bg",
            ],
            PacketType::TradeAccepted => vec!["my_offer", "your_offer"],
            PacketType::TradeChanged => vec!["offer"],
            PacketType::TradeDone => vec!["code", "description"],
            PacketType::TradeRequested => vec!["name"],
            PacketType::TradeStart => vec!["my_items", "your_name", "your_items"],
            PacketType::Update => vec!["tiles", "new_objs", "drops"],
            PacketType::VerifyEmail => vec!["_empty"],
            PacketType::EnterArena => vec!["currency"],
            PacketType::QuestRedeem => vec!["quest_id", "item", "slots"],
            PacketType::PetUpgradeRequest => vec![
                "pet_trans_type",
                "pid1",
                "pid2",
                "object_id",
                "payment_trans_type",
                "slots",
            ],
            PacketType::ReskinPet => vec!["pet_instance_id", "picked_new_pet_type", "slot"],
            PacketType::AcceptTrade => vec!["my_offer", "your_offer"],
            PacketType::ActivePetUpdateRequest => vec!["command_type", "instance_id"],
            PacketType::AoeAck => vec!["time", "position"],
            PacketType::Buy => vec!["object_id", "quantity"],
            PacketType::CancelTrade => vec!["_empty"],
            PacketType::ChangeGuildRank => vec!["name", "guild_rank"],
            PacketType::ChangePetSkin => vec!["pet_id", "skin_type", "currency"],
            PacketType::ChangeTrade => vec!["offer"],
            PacketType::CheckCredits => vec!["_empty"],
            PacketType::ChooseName => vec!["name"],
            PacketType::Create => vec!["class_type", "skin_type", "is_challenger"],
            PacketType::CreateGuild => vec!["name"],
            PacketType::EditAccountList => vec!["account_list_id", "add", "object_id"],
            PacketType::EnemyHit => vec!["time", "bullet_id", "target_id", "kill"],
            PacketType::Escape => vec!["empty"],
            PacketType::GoToQuestRoom => vec!["empty"],
            PacketType::GotoAck => vec!["time"],
            PacketType::GroundDamage => vec!["time", "position"],
            PacketType::GuildInvite => vec!["name"],
            PacketType::GuildRemove => vec!["name"],
            PacketType::Hello => vec![
                "build_version",
                "game_id",
                "guid",
                "rand1",
                "password",
                "rand2",
                "secret",
                "key_time",
                "key",
                "map_json",
                "entry_tag",
                "game_net",
                "game_net_user_id",
                "play_platform",
                "platform_token",
                "user_token",
                "unknown",
                "previous_connection_guid",
            ],
            PacketType::InvDrop => vec!["slot_object"],
            PacketType::InvSwap => vec!["time", "position", "slot1", "slot2"],
            PacketType::JoinGuild => vec!["guild_name"],
            PacketType::KeyInfoRequest => vec!["item_type"],
            PacketType::Load => vec!["char_id", "is_from_arena", "is_challenger"],
            PacketType::Move => vec!["tick_id", "time", "new_position", "records"],
            PacketType::OtherHit => vec!["time", "bullet_id", "object_id", "target_id"],
            PacketType::PlayerHit => vec!["bullet_id", "object_id"],
            PacketType::PlayerShoot => vec![
                "time",
                "bullet_id",
                "container_type",
                "starting_pos",
                "angle",
                "speed_mult",
                "life_mult",
            ],
            PacketType::PlayerText => vec!["text"],
            PacketType::Pong => vec!["serial", "time"],
            PacketType::RequestTrade => vec!["name"],
            PacketType::ResetDailyQuests => vec!["empty"],
            PacketType::Reskin => vec!["skin_id"],
            PacketType::SetCondition => vec!["condition_effect", "condition_duration"],
            PacketType::ShootAck => vec!["time"],
            PacketType::SquareHit => vec!["time", "bullet_id", "object_id"],
            PacketType::Teleport => vec!["object_id"],
            PacketType::UseItem => vec!["time", "slot", "item_use_pos", "use_type"],
            PacketType::UsePortal => vec!["object_id"],
        };
        assert(r@ =~= self.spec_field_names());
        r
    }

    /// The types of the fields of a packet of this type, in the order in
    /// which they are written.
    #[verifier::rlimit(50)]
    pub fn fields(self) -> (r: Vec<FieldType>)
        ensures
            r@ == self.schema(),
    {
        let r = match self {
            PacketType::ArenaDeath => vec![FieldType::U32],
            PacketType::ImminentArenaWave => vec![FieldType::U32],
            PacketType::ActivePet => vec![FieldType::U32],
            PacketType::DeletePetMessage => vec![FieldType::U32],
            PacketType::HatchPetMessage => vec![
                FieldType::Str(Prefix::U16),
                FieldType::U32,
                FieldType::U32,
            ],
            PacketType::PetYard => vec![FieldType::U32],
            PacketType::AccountList => vec![
                FieldType::U32,
                FieldType::List(Prefix::U16, Box::new(FieldType::Str(Prefix::U16))),
                FieldType::U32,
            ],
            PacketType::AllyShoot => vec![
                FieldType::U8,
                FieldType::U32,
                FieldType::U16,
                FieldType::F32,
                FieldType::Bool,
            ],
            PacketType::Aoe => vec![
                FieldType::Data(DataType::WorldPosData),
                FieldType::F32,
                FieldType::U16,
                FieldType::U8,
                FieldType::F32,
                FieldType::U16,
                FieldType::U32,
                FieldType::Bool,
            ],
            PacketType::BuyResult => vec![FieldType::I32, FieldType::Str(Prefix::U16)],
            PacketType::ClientStat => vec![FieldType::Str(Prefix::U16), FieldType::U32],
            PacketType::CreateSuccess => vec![FieldType::U32, FieldType::U32],
            PacketType::Damage => vec![
                FieldType::U32,
                FieldType::Bytes(Prefix::U8),
                FieldType::U16,
                FieldType::Bool,
                FieldType::Bool,
                FieldType::U8,
                FieldType::U32,
            ],
            PacketType::Death => vec![
                FieldType::Str(Prefix::U16),
                FieldType::U32,
                FieldType::Str(Prefix::U16),
                FieldType::U32,
                FieldType::I32,
            ],
            PacketType::EnemyShoot => vec![
                FieldType::U8,
                FieldType::U32,
                FieldType::U8,
                FieldType::Data(DataType::WorldPosData),
                FieldType::F32,
                FieldType::U16,
                FieldType::Optional(Box::new(FieldType::U8)),
                FieldType::Optional(Box::new(FieldType::F32)),
            ],
            PacketType::EvolvedPet => vec![
                FieldType::U32,
                FieldType::U32,
                FieldType::U32,
            ],
            PacketType::Failure => vec![
                FieldType::U32,
                FieldType::Str(Prefix::U16),
                FieldType::Str(Prefix::U16),
                FieldType::Str(Prefix::U16),
            ],
            PacketType::File => vec![FieldType::Str(Prefix::U16), FieldType::Str(Prefix::U32)],
            PacketType::GlobalNotification => vec![FieldType::U32, FieldType::Str(Prefix::U16)],
            PacketType::Goto => vec![FieldType::U32, FieldType::Data(DataType::WorldPosData)],
            PacketType::GuildResult => vec![FieldType::Bool, FieldType::Str(Prefix::U16)],
            PacketType::InvResult => vec![FieldType::I32],
            PacketType::InvitedToGuild => vec![FieldType::Str(Prefix::U16), FieldType::Str(Prefix::U16)],
            PacketType::KeyInfoResponse => vec![
                FieldType::Str(Prefix::U16),
                FieldType::Str(Prefix::U16),
                FieldType::Str(Prefix::U16),
            ],
            PacketType::MapInfo => vec![
                FieldType::U32,
                FieldType::I32,
                FieldType::Str(Prefix::U16),
                FieldType::Str(Prefix::U16),
                FieldType::U32,
                FieldType::U32,
                FieldType::U32,
                FieldType::Bool,
                FieldType::Bool,
                FieldType::U16,
                FieldType::Str(Prefix::U16),
                FieldType::U32,
                FieldType::List(Prefix::U16, Box::new(FieldType::Str(Prefix::U32))),
                FieldType::List(Prefix::U16, Box::new(FieldType::Str(Prefix::U32))),
            ],
            PacketType::NameResult => vec![FieldType::Bool, FieldType::Str(Prefix::U16)],
            PacketType::NewAbilityMessage => vec![FieldType::I32],
            PacketType::NewTick => vec![
                FieldType::U32,
                FieldType::U32,
                FieldType::List(Prefix::U16, Box::new(FieldType::Data(DataType::ObjectStatusData))),
            ],
            PacketType::Notification => vec![
                FieldType::U32,
                FieldType::Str(Prefix::U16),
                FieldType::U32,
            ],
            PacketType::PasswordPrompt => vec![FieldType::I32],
            PacketType::Pic => vec![
                FieldType::U32,
                FieldType::U32,
                FieldType::Remaining,
            ],
            PacketType::Ping => vec![FieldType::U32],
            PacketType::PlaySound => vec![FieldType::U32, FieldType::U8],
            PacketType::QuestObjId => vec![FieldType::U32],
            PacketType::QuestRedeemResponse => vec![FieldType::Bool, FieldType::Str(Prefix::U16)],
            PacketType::RealmHeroesResponse => vec![FieldType::U32],
            PacketType::Reconnect => vec![
                FieldType::Str(Prefix::U16),
                FieldType::Str(Prefix::U16),
                FieldType::Str(Prefix::U16),
                FieldType::U32,
                FieldType::U32,
                FieldType::U32,
                FieldType::Bool,
                FieldType::Bytes(Prefix::U16),
            ],
            PacketType::ReskinUnlock => vec![FieldType::U32, FieldType::U32],
            PacketType::ServerPlayerShoot => vec![
                FieldType::U8,
                FieldType::U32,
                FieldType::U32,
                FieldType::Data(DataType::WorldPosData),
                FieldType::F32,
                FieldType::U16,
            ],
            PacketType::ShowEffect => vec![
                FieldType::U8,
                FieldType::U32,
                FieldType::Data(DataType::WorldPosData),
                FieldType::Data(DataType::WorldPosData),
                FieldType::U32,
                FieldType::F32,
            ],
            PacketType::Text => vec![
                FieldType::Str(Prefix::U16),
                FieldType::U32,
                FieldType::U32,
                FieldType::U8,
                FieldType::Str(Prefix::U16),
                FieldType::Str(Prefix::U16),
                FieldType::Str(Prefix::U16),
                FieldType::Bool,
                FieldType::U32,
            ],
            PacketType::TradeAccepted => vec![
                FieldType::List(Prefix::U16, Box::new(FieldType::Bool)),
                FieldType::List(Prefix::U16, Box::new(FieldType::Bool)),
            ],
            PacketType::TradeChanged => vec![FieldType::List(Prefix::U16, Box::new(FieldType::Bool))],
            PacketType::TradeDone => vec![FieldType::U32, FieldType::Str(Prefix::U16)],
            PacketType::TradeRequested => vec![FieldType::Str(Prefix::U16)],
            PacketType::TradeStart => vec![
                FieldType::List(Prefix::U16, Box::new(FieldType::Data(DataType::TradeItem))),
                FieldType::Str(Prefix::U16),
                FieldType::List(Prefix::U16, Box::new(FieldType::Data(DataType::TradeItem))),
            ],
            PacketType::Update => vec![
                FieldType::List(Prefix::U16, Box::new(FieldType::Data(DataType::GroundTileData))),
                FieldType::List(Prefix::U16, Box::new(FieldType::Data(DataType::ObjectData))),
                FieldType::List(Prefix::U16, Box::new(FieldType::I32)),
            ],
            PacketType::VerifyEmail => vec![FieldType::Unit],
            PacketType::EnterArena => vec![FieldType::U32],
            PacketType::QuestRedeem => vec![
                FieldType::Str(Prefix::U16),
                FieldType::U32,
                FieldType::List(Prefix::U16, Box::new(FieldType::Data(DataType::SlotObjectData))),
            ],
            PacketType::PetUpgradeRequest => vec![
                FieldType::U8,
                FieldType::U32,
                FieldType::U32,
                FieldType::U32,
                FieldType::U8,
                FieldType::List(Prefix::U16, Box::new(FieldType::Data(DataType::SlotObjectData))),
            ],
            PacketType::ReskinPet => vec![
                FieldType::U32,
                FieldType::U32,
                FieldType::Data(DataType::SlotObjectData),
            ],
            PacketType::AcceptTrade => vec![
                FieldType::List(Prefix::U16, Box::new(FieldType::Bool)),
                FieldType::List(Prefix::U16, Box::new(FieldType::Bool)),
            ],
            PacketType::ActivePetUpdateRequest => vec![FieldType::U8, FieldType::U32],
            PacketType::AoeAck => vec![FieldType::U32, FieldType::Data(DataType::WorldPosData)],
            PacketType::Buy => vec![FieldType::U32, FieldType::U32],
            PacketType::CancelTrade => vec![FieldType::Unit],
            PacketType::ChangeGuildRank => vec![FieldType::Str(Prefix::U16), FieldType::U32],
            PacketType::ChangePetSkin => vec![
                FieldType::U32,
                FieldType::U32,
                FieldType::U32,
            ],
            PacketType::ChangeTrade => vec![FieldType::List(Prefix::U16, Box::new(FieldType::Bool))],
            PacketType::CheckCredits => vec![FieldType::Unit],
            PacketType::ChooseName => vec![FieldType::Str(Prefix::U16)],
            PacketType::Create => vec![
                FieldType::U16,
                FieldType::U16,
                FieldType::Bool,
            ],
            PacketType::CreateGuild => vec![FieldType::Str(Prefix::U16)],
            PacketType::EditAccountList => vec![
                FieldType::U32,
                FieldType::Bool,
                FieldType::U32,
            ],
            PacketType::EnemyHit => vec![
                FieldType::U32,
                FieldType::U8,
                FieldType::U32,
                FieldType::Bool,
            ],
            PacketType::Escape => vec![FieldType::Unit],
            PacketType::GoToQuestRoom => vec![FieldType::Unit],
            PacketType::GotoAck => vec![FieldType::U32],
            PacketType::GroundDamage => vec![FieldType::U32, FieldType::Data(DataType::WorldPosData)],
            PacketType::GuildInvite => vec![FieldType::Str(Prefix::U16)],
            PacketType::GuildRemove => vec![FieldType::Str(Prefix::U16)],
            PacketType::Hello => vec![
                FieldType::Str(Prefix::U16),
                FieldType::U32,
                FieldType::Str(Prefix::U16),
                FieldType::U32,
                FieldType::Str(Prefix::U16),
                FieldType::U32,
                FieldType::Str(Prefix::U16),
                FieldType::U32,
                FieldType::Bytes(Prefix::U16),
                FieldType::Str(Prefix::U32),
                FieldType::Str(Prefix::U16),
                FieldType::Str(Prefix::U16),
                FieldType::Str(Prefix::U16),
                FieldType::Str(Prefix::U16),
                FieldType::Str(Prefix::U16),
                FieldType::Str(Prefix::U16),
                FieldType::Str(Prefix::U16),
                FieldType::Str(Prefix::U16),
            ],
            PacketType::InvDrop => vec![FieldType::Data(DataType::SlotObjectData)],
            PacketType::InvSwap => vec![
                FieldType::U32,
                FieldType::Data(DataType::WorldPosData),
                FieldType::Data(DataType::SlotObjectData),
                FieldType::Data(DataType::SlotObjectData),
            ],
            PacketType::JoinGuild => vec![FieldType::Str(Prefix::U16)],
            PacketType::KeyInfoRequest => vec![FieldType::U32],
            PacketType::Load => vec![
                FieldType::U32,
                FieldType::Bool,
                FieldType::Bool,
            ],
            PacketType::Move => vec![
                FieldType::U32,
                FieldType::U32,
                FieldType::Data(DataType::WorldPosData),
                FieldType::List(Prefix::U16, Box::new(FieldType::Data(DataType::WorldPosData))),
            ],
            PacketType::OtherHit => vec![
                FieldType::U32,
                FieldType::U8,
                FieldType::U32,
                FieldType::U32,
            ],
            PacketType::PlayerHit => vec![FieldType::U8, FieldType::U32],
            PacketType::PlayerShoot => vec![
                FieldType::U32,
                FieldType::U8,
                FieldType::U16,
                FieldType::Data(DataType::WorldPosData),
                FieldType::F32,
                FieldType::U16,
                FieldType::U16,
            ],
            PacketType::PlayerText => vec![FieldType::Str(Prefix::U16)],
            PacketType::Pong => vec![FieldType::U32, FieldType::U32],
            PacketType::RequestTrade => vec![FieldType::Str(Prefix::U16)],
            PacketType::ResetDailyQuests => vec![FieldType::Unit],
            PacketType::Reskin => vec![FieldType::U32],
            PacketType::SetCondition => vec![FieldType::U8, FieldType::F32],
            PacketType::ShootAck => vec![FieldType::U32],
            PacketType::SquareHit => vec![
                FieldType::U32,
                FieldType::U8,
                FieldType::U32,
            ],
            PacketType::Teleport => vec![FieldType::U32],
            PacketType::UseItem => vec![
                FieldType::U32,
                FieldType::Data(DataType::SlotObjectData),
                FieldType::Data(DataType::WorldPosData),
                FieldType::U8,
            ],
            PacketType::UsePortal => vec![FieldType::U32],
        };
        assert(r@ =~= self.schema());
        r
    }

    /// Whether the server sends packets of this type, rather than the client.
    pub fn is_server(self) -> (r: bool)
        ensures
            r == (self.spec_index() < SERVER_PACKET_TYPES),
    {
        self.index() < SERVER_PACKET_TYPES
    }

    /// All packet types, in the order of the catalog.
    #[verifier::rlimit(50)]
    pub fn values() -> (r: Vec<PacketType>)
        ensures
            r@.len() == PACKET_TYPES,
            forall|i: int| 0 <= i < r@.len() ==> (#[trigger] r@[i]).spec_index() == i,
    {
        let mut all: Vec<PacketType> = Vec::new();
        let mut i: u8 = 0;
        while i < PACKET_TYPES
            invariant
                i <= PACKET_TYPES,
                all@.len() == i,
                forall|k: int| 0 <= k < all@.len() ==> (#[trigger] all@[k]).spec_index() == k,
            decreases PACKET_TYPES - i,
        {
            match PacketType::from_index(i) {
                Some(packet_type) => {
                    proof {
                        PacketType::lemma_of_index(i);
                    }
                    all.push(packet_type);
                },
                None => {},
            }
            i = i + 1;
        }
        all
    }

    /// Each packet type has an index of its own, and the two conversions
    /// are inverse to each other.
    pub proof fn lemma_index(self)
        ensures
            PacketType::of_index(self.spec_index()) == Some(self),
            self.spec_index() < PACKET_TYPES,
    {
    }

    /// An index that stands for a packet type is the index of that type.
    pub proof fn lemma_of_index(index: u8)
        ensures
            PacketType::of_index(index) is Some <==> index < PACKET_TYPES,
            PacketType::of_index(index) matches Some(t) ==> t.spec_index() == index,
    {
    }
}

} // verus!
