//! The stats of game objects: the type of a stat, which is one byte on the
//! wire, and the value that comes with it.

use vstd::prelude::*;

verus! {

/// The type of a stat specified by a `StatData`.
///
/// Most stat types are associated with integer data, but some are associated
/// with strings - such as `StatType::NAME_STAT`. This can be checked with
/// `StatType::is_string`.
#[derive(Debug, Clone, Copy, PartialEq, Eq, Hash, Structural)]
#[allow(non_camel_case_types, missing_docs)]
pub enum StatType {
    MAX_HP_STAT,
    HP_STAT,
    SIZE_STAT,
    MAX_MP_STAT,
    MP_STAT,
    NEXT_LEVEL_EXP_STAT,
    EXP_STAT,
    LEVEL_STAT,
    ATTACK_STAT,
    DEFENSE_STAT,
    SPEED_STAT,
    INVENTORY_0_STAT,
    INVENTORY_1_STAT,
    INVENTORY_2_STAT,
    INVENTORY_3_STAT,
    INVENTORY_4_STAT,
    INVENTORY_5_STAT,
    INVENTORY_6_STAT,
    INVENTORY_7_STAT,
    INVENTORY_8_STAT,
    INVENTORY_9_STAT,
    INVENTORY_10_STAT,
    INVENTORY_11_STAT,
    VITALITY_STAT,
    WISDOM_STAT,
    DEXTERITY_STAT,
    CONDITION_STAT,
    NUM_STARS_STAT,
    NAME_STAT,
    TEX1_STAT,
    TEX2_STAT,
    MERCHANDISE_TYPE_STAT,
    CREDITS_STAT,
    MERCHANDISE_PRICE_STAT,
    ACTIVE_STAT,
    ACCOUNT_ID_STAT,
    FAME_STAT,
    MERCHANDISE_CURRENCY_STAT,
    CONNECT_STAT,
    MERCHANDISE_COUNT_STAT,
    MERCHANDISE_MINS_LEFT_STAT,
    MERCHANDISE_DISCOUNT_STAT,
    MERCHANDISE_RANK_REQ_STAT,
    MAX_HP_BOOST_STAT,
    MAX_MP_BOOST_STAT,
    ATTACK_BOOST_STAT,
    DEFENSE_BOOST_STAT,
    SPEED_BOOST_STAT,
    VITALITY_BOOST_STAT,
    WISDOM_BOOST_STAT,
    DEXTERITY_BOOST_STAT,
    OWNER_ACCOUNT_ID_STAT,
    RANK_REQUIRED_STAT,
    NAME_CHOSEN_STAT,
    CURR_FAME_STAT,
    NEXT_CLASS_QUEST_FAME_STAT,
    LEGENDARY_RANK_STAT,
    SINK_LEVEL_STAT,
    ALT_TEXTURE_STAT,
    GUILD_NAME_STAT,
    GUILD_RANK_STAT,
    BREATH_STAT,
    XP_BOOSTED_STAT,
    XP_TIMER_STAT,
    LD_TIMER_STAT,
    LT_TIMER_STAT,
    HEALTH_POTION_STACK_STAT,
    MAGIC_POTION_STACK_STAT,
    BACKPACK_0_STAT,
    BACKPACK_1_STAT,
    BACKPACK_2_STAT,
    BACKPACK_3_STAT,
    BACKPACK_4_STAT,
    BACKPACK_5_STAT,
    BACKPACK_6_STAT,
    BACKPACK_7_STAT,
    HASBACKPACK_STAT,
    TEXTURE_STAT,
    PET_INSTANCEID_STAT,
    PET_NAME_STAT,
    PET_TYPE_STAT,
    PET_RARITY_STAT,
    PET_MAXABILITYPOWER_STAT,
    PET_FAMILY_STAT,
    PET_FIRSTABILITY_POINT_STAT,
    PET_SECONDABILITY_POINT_STAT,
    PET_THIRDABILITY_POINT_STAT,
    PET_FIRSTABILITY_POWER_STAT,
    PET_SECONDABILITY_POWER_STAT,
    PET_THIRDABILITY_POWER_STAT,
    PET_FIRSTABILITY_TYPE_STAT,
    PET_SECONDABILITY_TYPE_STAT,
    PET_THIRDABILITY_TYPE_STAT,
    NEW_CON_STAT,
    FORTUNE_TOKEN_STAT,
    SUPPORTER_POINTS_STAT,
    SUPPORTER_STAT,
    CHALLENGER_STARBG_STAT,
    PROJECTILE_SPEED_MULT,
    PROJECTILE_LIFE_MULT,
}

impl StatType {
    /// The byte that stands for this stat type on the wire.
    pub open spec fn byte(self) -> u8 {
        match self {
            StatType::MAX_HP_STAT => 0,
            StatType::HP_STAT => 1,
            StatType::SIZE_STAT => 2,
            StatType::MAX_MP_STAT => 3,
            StatType::MP_STAT => 4,
            StatType::NEXT_LEVEL_EXP_STAT => 5,
            StatType::EXP_STAT => 6,
            StatType::LEVEL_STAT => 7,
            StatType::ATTACK_STAT => 20,
            StatType::DEFENSE_STAT => 21,
            StatType::SPEED_STAT => 22,
            StatType::INVENTORY_0_STAT => 8,
            StatType::INVENTORY_1_STAT => 9,
            StatType::INVENTORY_2_STAT => 10,
            StatType::INVENTORY_3_STAT => 11,
            StatType::INVENTORY_4_STAT => 12,
            StatType::INVENTORY_5_STAT => 13,
            StatType::INVENTORY_6_STAT => 14,
            StatType::INVENTORY_7_STAT => 15,
            StatType::INVENTORY_8_STAT => 16,
            StatType::INVENTORY_9_STAT => 17,
            StatType::INVENTORY_10_STAT => 18,
            StatType::INVENTORY_11_STAT => 19,
            StatType::VITALITY_STAT => 26,
            StatType::WISDOM_STAT => 27,
            StatType::DEXTERITY_STAT => 28,
            StatType::CONDITION_STAT => 29,
            StatType::NUM_STARS_STAT => 30,
            StatType::NAME_STAT => 31,
            StatType::TEX1_STAT => 32,
            StatType::TEX2_STAT => 33,
            StatType::MERCHANDISE_TYPE_STAT => 34,
            StatType::CREDITS_STAT => 35,
            StatType::MERCHANDISE_PRICE_STAT => 36,
            StatType::ACTIVE_STAT => 37,
            StatType::ACCOUNT_ID_STAT => 38,
            StatType::FAME_STAT => 39,
            StatType::MERCHANDISE_CURRENCY_STAT => 40,
            StatType::CONNECT_STAT => 41,
            StatType::MERCHANDISE_COUNT_STAT => 42,
            StatType::MERCHANDISE_MINS_LEFT_STAT => 43,
            StatType::MERCHANDISE_DISCOUNT_STAT => 44,
            StatType::MERCHANDISE_RANK_REQ_STAT => 45,
            StatType::MAX_HP_BOOST_STAT => 46,
            StatType::MAX_MP_BOOST_STAT => 47,
            StatType::ATTACK_BOOST_STAT => 48,
            StatType::DEFENSE_BOOST_STAT => 49,
            StatType::SPEED_BOOST_STAT => 50,
            StatType::VITALITY_BOOST_STAT => 51,
            StatType::WISDOM_BOOST_STAT => 52,
            StatType::DEXTERITY_BOOST_STAT => 53,
            StatType::OWNER_ACCOUNT_ID_STAT => 54,
            StatType::RANK_REQUIRED_STAT => 55,
            StatType::NAME_CHOSEN_STAT => 56,
            StatType::CURR_FAME_STAT => 57,
            StatType::NEXT_CLASS_QUEST_FAME_STAT => 58,
            StatType::LEGENDARY_RANK_STAT => 59,
            StatType::SINK_LEVEL_STAT => 60,
            StatType::ALT_TEXTURE_STAT => 61,
            StatType::GUILD_NAME_STAT => 62,
            StatType::GUILD_RANK_STAT => 63,
            StatType::BREATH_STAT => 64,
            StatType::XP_BOOSTED_STAT => 65,
            StatType::XP_TIMER_STAT => 66,
            StatType::LD_TIMER_STAT => 67,
            StatType::LT_TIMER_STAT => 68,
            StatType::HEALTH_POTION_STACK_STAT => 69,
            StatType::MAGIC_POTION_STACK_STAT => 70,
            StatType::BACKPACK_0_STAT => 71,
            StatType::BACKPACK_1_STAT => 72,
            StatType::BACKPACK_2_STAT => 73,
            StatType::BACKPACK_3_STAT => 74,
            StatType::BACKPACK_4_STAT => 75,
            StatType::BACKPACK_5_STAT => 76,
            StatType::BACKPACK_6_STAT => 77,
            StatType::BACKPACK_7_STAT => 78,
            StatType::HASBACKPACK_STAT => 79,
            StatType::TEXTURE_STAT => 80,
            StatType::PET_INSTANCEID_STAT => 81,
            StatType::PET_NAME_STAT => 82,
            StatType::PET_TYPE_STAT => 83,
            StatType::PET_RARITY_STAT => 84,
            StatType::PET_MAXABILITYPOWER_STAT => 85,
            StatType::PET_FAMILY_STAT => 86,
            StatType::PET_FIRSTABILITY_POINT_STAT => 87,
            StatType::PET_SECONDABILITY_POINT_STAT => 88,
            StatType::PET_THIRDABILITY_POINT_STAT => 89,
            StatType::PET_FIRSTABILITY_POWER_STAT => 90,
            StatType::PET_SECONDABILITY_POWER_STAT => 91,
            StatType::PET_THIRDABILITY_POWER_STAT => 92,
            StatType::PET_FIRSTABILITY_TYPE_STAT => 93,
            StatType::PET_SECONDABILITY_TYPE_STAT => 94,
            StatType::PET_THIRDABILITY_TYPE_STAT => 95,
            StatType::NEW_CON_STAT => 96,
            StatType::FORTUNE_TOKEN_STAT => 97,
            StatType::SUPPORTER_POINTS_STAT => 98,
            StatType::SUPPORTER_STAT => 99,
            StatType::CHALLENGER_STARBG_STAT => 100,
            StatType::PROJECTILE_SPEED_MULT => 102,
            StatType::PROJECTILE_LIFE_MULT => 103,
        }
    }

    /// The stat type that a byte stands for, if any.
    pub open spec fn of_byte(byte: u8) -> Option<StatType> {
        match byte {
            0 => Some(StatType::MAX_HP_STAT),
            1 => Some(StatType::HP_STAT),
            2 => Some(StatType::SIZE_STAT),
            3 => Some(StatType::MAX_MP_STAT),
            4 => Some(StatType::MP_STAT),
            5 => Some(StatType::NEXT_LEVEL_EXP_STAT),
            6 => Some(StatType::EXP_STAT),
            7 => Some(StatType::LEVEL_STAT),
            8 => Some(StatType::INVENTORY_0_STAT),
            9 => Some(StatType::INVENTORY_1_STAT),
            10 => Some(StatType::INVENTORY_2_STAT),
            11 => Some(StatType::INVENTORY_3_STAT),
            12 => Some(StatType::INVENTORY_4_STAT),
            13 => Some(StatType::INVENTORY_5_STAT),
            14 => Some(StatType::INVENTORY_6_STAT),
            15 => Some(StatType::INVENTORY_7_STAT),
            16 => Some(StatType::INVENTORY_8_STAT),
            17 => Some(StatType::INVENTORY_9_STAT),
            18 => Some(StatType::INVENTORY_10_STAT),
            19 => Some(StatType::INVENTORY_11_STAT),
            20 => Some(StatType::ATTACK_STAT),
            21 => Some(StatType::DEFENSE_STAT),
            22 => Some(StatType::SPEED_STAT),
            26 => Some(StatType::VITALITY_STAT),
            27 => Some(StatType::WISDOM_STAT),
            28 => Some(StatType::DEXTERITY_STAT),
            29 => Some(StatType::CONDITION_STAT),
            30 => Some(StatType::NUM_STARS_STAT),
            31 => Some(StatType::NAME_STAT),
            32 => Some(StatType::TEX1_STAT),
            33 => Some(StatType::TEX2_STAT),
            34 => Some(StatType::MERCHANDISE_TYPE_STAT),
            35 => Some(StatType::CREDITS_STAT),
            36 => Some(StatType::MERCHANDISE_PRICE_STAT),
            37 => Some(StatType::ACTIVE_STAT),
            38 => Some(StatType::ACCOUNT_ID_STAT),
            39 => Some(StatType::FAME_STAT),
            40 => Some(StatType::MERCHANDISE_CURRENCY_STAT),
            41 => Some(StatType::CONNECT_STAT),
            42 => Some(StatType::MERCHANDISE_COUNT_STAT),
            43 => Some(StatType::MERCHANDISE_MINS_LEFT_STAT),
            44 => Some(StatType::MERCHANDISE_DISCOUNT_STAT),
            45 => Some(StatType::MERCHANDISE_RANK_REQ_STAT),
            46 => Some(StatType::MAX_HP_BOOST_STAT),
            47 => Some(StatType::MAX_MP_BOOST_STAT),
            48 => Some(StatType::ATTACK_BOOST_STAT),
            49 => Some(StatType::DEFENSE_BOOST_STAT),
            50 => Some(StatType::SPEED_BOOST_STAT),
            51 => Some(StatType::VITALITY_BOOST_STAT),
            52 => Some(StatType::WISDOM_BOOST_STAT),
            53 => Some(StatType::DEXTERITY_BOOST_STAT),
            54 => Some(StatType::OWNER_ACCOUNT_ID_STAT),
            55 => Some(StatType::RANK_REQUIRED_STAT),
            56 => Some(StatType::NAME_CHOSEN_STAT),
            57 => Some(StatType::CURR_FAME_STAT),
            58 => Some(StatType::NEXT_CLASS_QUEST_FAME_STAT),
            59 => Some(StatType::LEGENDARY_RANK_STAT),
            60 => Some(StatType::SINK_LEVEL_STAT),
            61 => Some(StatType::ALT_TEXTURE_STAT),
            62 => Some(StatType::GUILD_NAME_STAT),
            63 => Some(StatType::GUILD_RANK_STAT),
            64 => Some(StatType::BREATH_STAT),
            65 => Some(StatType::XP_BOOSTED_STAT),
            66 => Some(StatType::XP_TIMER_STAT),
            67 => Some(StatType::LD_TIMER_STAT),
            68 => Some(StatType::LT_TIMER_STAT),
            69 => Some(StatType::HEALTH_POTION_STACK_STAT),
            70 => Some(StatType::MAGIC_POTION_STACK_STAT),
            71 => Some(StatType::BACKPACK_0_STAT),
            72 => Some(StatType::BACKPACK_1_STAT),
            73 => Some(StatType::BACKPACK_2_STAT),
            74 => Some(StatType::BACKPACK_3_STAT),
            75 => Some(StatType::BACKPACK_4_STAT),
            76 => Some(StatType::BACKPACK_5_STAT),
            77 => Some(StatType::BACKPACK_6_STAT),
            78 => Some(StatType::BACKPACK_7_STAT),
            79 => Some(StatType::HASBACKPACK_STAT),
            80 => Some(StatType::TEXTURE_STAT),
            81 => Some(StatType::PET_INSTANCEID_STAT),
            82 => Some(StatType::PET_NAME_STAT),
            83 => Some(StatType::PET_TYPE_STAT),
            84 => Some(StatType::PET_RARITY_STAT),
            85 => Some(StatType::PET_MAXABILITYPOWER_STAT),
            86 => Some(StatType::PET_FAMILY_STAT),
            87 => Some(StatType::PET_FIRSTABILITY_POINT_STAT),
            88 => Some(StatType::PET_SECONDABILITY_POINT_STAT),
            89 => Some(StatType::PET_THIRDABILITY_POINT_STAT),
            90 => Some(StatType::PET_FIRSTABILITY_POWER_STAT),
            91 => Some(StatType::PET_SECONDABILITY_POWER_STAT),
            92 => Some(StatType::PET_THIRDABILITY_POWER_STAT),
            93 => Some(StatType::PET_FIRSTABILITY_TYPE_STAT),
            94 => Some(StatType::PET_SECONDABILITY_TYPE_STAT),
            95 => Some(StatType::PET_THIRDABILITY_TYPE_STAT),
            96 => Some(StatType::NEW_CON_STAT),
            97 => Some(StatType::FORTUNE_TOKEN_STAT),
            98 => Some(StatType::SUPPORTER_POINTS_STAT),
            99 => Some(StatType::SUPPORTER_STAT),
            100 => Some(StatType::CHALLENGER_STARBG_STAT),
            102 => Some(StatType::PROJECTILE_SPEED_MULT),
            103 => Some(StatType::PROJECTILE_LIFE_MULT),
            _ => None,
        }
    }

    /// Whether the data of this stat type is a string rather than an integer.
    pub open spec fn string_valued(self) -> bool {
        match self {
            StatType::NAME_STAT
            | StatType::ACCOUNT_ID_STAT
            | StatType::OWNER_ACCOUNT_ID_STAT
            | StatType::GUILD_NAME_STAT
            | StatType::PET_NAME_STAT => true,
            _ => false,
        }
    }

    /// Each stat type has a byte of its own, and the two conversions are
    /// inverse to each other.
    pub proof fn lemma_byte_roundtrip(self)
        ensures
            StatType::of_byte(self.byte()) == Some(self),
    {
    }

    /// A byte that stands for a stat type is the byte of that stat type.
    pub proof fn lemma_of_byte_roundtrip(byte: u8)
        ensures
            StatType::of_byte(byte) matches Some(t) ==> t.byte() == byte,
    {
    }

    /// Convert a byte to a `StatType`, returning `None` on invalid types.
    pub fn from_byte(byte: u8) -> (r: Option<Self>)
        ensures
            r == StatType::of_byte(byte),
    {
        match byte {
            0 => Some(StatType::MAX_HP_STAT),
            1 => Some(StatType::HP_STAT),
            2 => Some(StatType::SIZE_STAT),
            3 => Some(StatType::MAX_MP_STAT),
            4 => Some(StatType::MP_STAT),
            5 => Some(StatType::NEXT_LEVEL_EXP_STAT),
            6 => Some(StatType::EXP_STAT),
            7 => Some(StatType::LEVEL_STAT),
            8 => Some(StatType::INVENTORY_0_STAT),
            9 => Some(StatType::INVENTORY_1_STAT),
            10 => Some(StatType::INVENTORY_2_STAT),
            11 => Some(StatType::INVENTORY_3_STAT),
            12 => Some(StatType::INVENTORY_4_STAT),
            13 => Some(StatType::INVENTORY_5_STAT),
            14 => Some(StatType::INVENTORY_6_STAT),
            15 => Some(StatType::INVENTORY_7_STAT),
            16 => Some(StatType::INVENTORY_8_STAT),
            17 => Some(StatType::INVENTORY_9_STAT),
            18 => Some(StatType::INVENTORY_10_STAT),
            19 => Some(StatType::INVENTORY_11_STAT),
            20 => Some(StatType::ATTACK_STAT),
            21 => Some(StatType::DEFENSE_STAT),
            22 => Some(StatType::SPEED_STAT),
            26 => Some(StatType::VITALITY_STAT),
            27 => Some(StatType::WISDOM_STAT),
            28 => Some(StatType::DEXTERITY_STAT),
            29 => Some(StatType::CONDITION_STAT),
            30 => Some(StatType::NUM_STARS_STAT),
            31 => Some(StatType::NAME_STAT),
            32 => Some(StatType::TEX1_STAT),
            33 => Some(StatType::TEX2_STAT),
            34 => Some(StatType::MERCHANDISE_TYPE_STAT),
            35 => Some(StatType::CREDITS_STAT),
            36 => Some(StatType::MERCHANDISE_PRICE_STAT),
            37 => Some(StatType::ACTIVE_STAT),
            38 => Some(StatType::ACCOUNT_ID_STAT),
            39 => Some(StatType::FAME_STAT),
            40 => Some(StatType::MERCHANDISE_CURRENCY_STAT),
            41 => Some(StatType::CONNECT_STAT),
            42 => Some(StatType::MERCHANDISE_COUNT_STAT),
            43 => Some(StatType::MERCHANDISE_MINS_LEFT_STAT),
            44 => Some(StatType::MERCHANDISE_DISCOUNT_STAT),
            45 => Some(StatType::MERCHANDISE_RANK_REQ_STAT),
            46 => Some(StatType::MAX_HP_BOOST_STAT),
            47 => Some(StatType::MAX_MP_BOOST_STAT),
            48 => Some(StatType::ATTACK_BOOST_STAT),
            49 => Some(StatType::DEFENSE_BOOST_STAT),
            50 => Some(StatType::SPEED_BOOST_STAT),
            51 => Some(StatType::VITALITY_BOOST_STAT),
            52 => Some(StatType::WISDOM_BOOST_STAT),
            53 => Some(StatType::DEXTERITY_BOOST_STAT),
            54 => Some(StatType::OWNER_ACCOUNT_ID_STAT),
            55 => Some(StatType::RANK_REQUIRED_STAT),
            56 => Some(StatType::NAME_CHOSEN_STAT),
            57 => Some(StatType::CURR_FAME_STAT),
            58 => Some(StatType::NEXT_CLASS_QUEST_FAME_STAT),
            59 => Some(StatType::LEGENDARY_RANK_STAT),
            60 => Some(StatType::SINK_LEVEL_STAT),
            61 => Some(StatType::ALT_TEXTURE_STAT),
            62 => Some(StatType::GUILD_NAME_STAT),
            63 => Some(StatType::GUILD_RANK_STAT),
            64 => Some(StatType::BREATH_STAT),
            65 => Some(StatType::XP_BOOSTED_STAT),
            66 => Some(StatType::XP_TIMER_STAT),
            67 => Some(StatType::LD_TIMER_STAT),
            68 => Some(StatType::LT_TIMER_STAT),
            69 => Some(StatType::HEALTH_POTION_STACK_STAT),
            70 => Some(StatType::MAGIC_POTION_STACK_STAT),
            71 => Some(StatType::BACKPACK_0_STAT),
            72 => Some(StatType::BACKPACK_1_STAT),
            73 => Some(StatType::BACKPACK_2_STAT),
            74 => Some(StatType::BACKPACK_3_STAT),
            75 => Some(StatType::BACKPACK_4_STAT),
            76 => Some(StatType::BACKPACK_5_STAT),
            77 => Some(StatType::BACKPACK_6_STAT),
            78 => Some(StatType::BACKPACK_7_STAT),
            79 => Some(StatType::HASBACKPACK_STAT),
            80 => Some(StatType::TEXTURE_STAT),
            81 => Some(StatType::PET_INSTANCEID_STAT),
            82 => Some(StatType::PET_NAME_STAT),
            83 => Some(StatType::PET_TYPE_STAT),
            84 => Some(StatType::PET_RARITY_STAT),
            85 => Some(StatType::PET_MAXABILITYPOWER_STAT),
            86 => Some(StatType::PET_FAMILY_STAT),
            87 => Some(StatType::PET_FIRSTABILITY_POINT_STAT),
            88 => Some(StatType::PET_SECONDABILITY_POINT_STAT),
            89 => Some(StatType::PET_THIRDABILITY_POINT_STAT),
            90 => Some(StatType::PET_FIRSTABILITY_POWER_STAT),
            91 => Some(StatType::PET_SECONDABILITY_POWER_STAT),
            92 => Some(StatType::PET_THIRDABILITY_POWER_STAT),
            93 => Some(StatType::PET_FIRSTABILITY_TYPE_STAT),
            94 => Some(StatType::PET_SECONDABILITY_TYPE_STAT),
            95 => Some(StatType::PET_THIRDABILITY_TYPE_STAT),
            96 => Some(StatType::NEW_CON_STAT),
            97 => Some(StatType::FORTUNE_TOKEN_STAT),
            98 => Some(StatType::SUPPORTER_POINTS_STAT),
            99 => Some(StatType::SUPPORTER_STAT),
            100 => Some(StatType::CHALLENGER_STARBG_STAT),
            102 => Some(StatType::PROJECTILE_SPEED_MULT),
            103 => Some(StatType::PROJECTILE_LIFE_MULT),
            _ => None,
        }
    }

    /// Convert this `StatType` to a byte.
    pub fn to_byte(self) -> (r: u8)
        ensures
            r == self.byte(),
    {
        match self {
            StatType::MAX_HP_STAT => 0,
            StatType::HP_STAT => 1,
            StatType::SIZE_STAT => 2,
            StatType::MAX_MP_STAT => 3,
            StatType::MP_STAT => 4,
            StatType::NEXT_LEVEL_EXP_STAT => 5,
            StatType::EXP_STAT => 6,
            StatType::LEVEL_STAT => 7,
            StatType::ATTACK_STAT => 20,
            StatType::DEFENSE_STAT => 21,
            StatType::SPEED_STAT => 22,
            StatType::INVENTORY_0_STAT => 8,
            StatType::INVENTORY_1_STAT => 9,
            StatType::INVENTORY_2_STAT => 10,
            StatType::INVENTORY_3_STAT => 11,
            StatType::INVENTORY_4_STAT => 12,
            StatType::INVENTORY_5_STAT => 13,
            StatType::INVENTORY_6_STAT => 14,
            StatType::INVENTORY_7_STAT => 15,
            StatType::INVENTORY_8_STAT => 16,
            StatType::INVENTORY_9_STAT => 17,
            StatType::INVENTORY_10_STAT => 18,
            StatType::INVENTORY_11_STAT => 19,
            StatType::VITALITY_STAT => 26,
            StatType::WISDOM_STAT => 27,
            StatType::DEXTERITY_STAT => 28,
            StatType::CONDITION_STAT => 29,
            StatType::NUM_STARS_STAT => 30,
            StatType::NAME_STAT => 31,
            StatType::TEX1_STAT => 32,
            StatType::TEX2_STAT => 33,
            StatType::MERCHANDISE_TYPE_STAT => 34,
            StatType::CREDITS_STAT => 35,
            StatType::MERCHANDISE_PRICE_STAT => 36,
            StatType::ACTIVE_STAT => 37,
            StatType::ACCOUNT_ID_STAT => 38,
            StatType::FAME_STAT => 39,
            StatType::MERCHANDISE_CURRENCY_STAT => 40,
            StatType::CONNECT_STAT => 41,
            StatType::MERCHANDISE_COUNT_STAT => 42,
            StatType::MERCHANDISE_MINS_LEFT_STAT => 43,
            StatType::MERCHANDISE_DISCOUNT_STAT => 44,
            StatType::MERCHANDISE_RANK_REQ_STAT => 45,
            StatType::MAX_HP_BOOST_STAT => 46,
            StatType::MAX_MP_BOOST_STAT => 47,
            StatType::ATTACK_BOOST_STAT => 48,
            StatType::DEFENSE_BOOST_STAT => 49,
            StatType::SPEED_BOOST_STAT => 50,
            StatType::VITALITY_BOOST_STAT => 51,
            StatType::WISDOM_BOOST_STAT => 52,
            StatType::DEXTERITY_BOOST_STAT => 53,
            StatType::OWNER_ACCOUNT_ID_STAT => 54,
            StatType::RANK_REQUIRED_STAT => 55,
            StatType::NAME_CHOSEN_STAT => 56,
            StatType::CURR_FAME_STAT => 57,
            StatType::NEXT_CLASS_QUEST_FAME_STAT => 58,
            StatType::LEGENDARY_RANK_STAT => 59,
            StatType::SINK_LEVEL_STAT => 60,
            StatType::ALT_TEXTURE_STAT => 61,
            StatType::GUILD_NAME_STAT => 62,
            StatType::GUILD_RANK_STAT => 63,
            StatType::BREATH_STAT => 64,
            StatType::XP_BOOSTED_STAT => 65,
            StatType::XP_TIMER_STAT => 66,
            StatType::LD_TIMER_STAT => 67,
            StatType::LT_TIMER_STAT => 68,
            StatType::HEALTH_POTION_STACK_STAT => 69,
            StatType::MAGIC_POTION_STACK_STAT => 70,
            StatType::BACKPACK_0_STAT => 71,
            StatType::BACKPACK_1_STAT => 72,
            StatType::BACKPACK_2_STAT => 73,
            StatType::BACKPACK_3_STAT => 74,
            StatType::BACKPACK_4_STAT => 75,
            StatType::BACKPACK_5_STAT => 76,
            StatType::BACKPACK_6_STAT => 77,
            StatType::BACKPACK_7_STAT => 78,
            StatType::HASBACKPACK_STAT => 79,
            StatType::TEXTURE_STAT => 80,
            StatType::PET_INSTANCEID_STAT => 81,
            StatType::PET_NAME_STAT => 82,
            StatType::PET_TYPE_STAT => 83,
            StatType::PET_RARITY_STAT => 84,
            StatType::PET_MAXABILITYPOWER_STAT => 85,
            StatType::PET_FAMILY_STAT => 86,
            StatType::PET_FIRSTABILITY_POINT_STAT => 87,
            StatType::PET_SECONDABILITY_POINT_STAT => 88,
            StatType::PET_THIRDABILITY_POINT_STAT => 89,
            StatType::PET_FIRSTABILITY_POWER_STAT => 90,
            StatType::PET_SECONDABILITY_POWER_STAT => 91,
            StatType::PET_THIRDABILITY_POWER_STAT => 92,
            StatType::PET_FIRSTABILITY_TYPE_STAT => 93,
            StatType::PET_SECONDABILITY_TYPE_STAT => 94,
            StatType::PET_THIRDABILITY_TYPE_STAT => 95,
            StatType::NEW_CON_STAT => 96,
            StatType::FORTUNE_TOKEN_STAT => 97,
            StatType::SUPPORTER_POINTS_STAT => 98,
            StatType::SUPPORTER_STAT => 99,
            StatType::CHALLENGER_STARBG_STAT => 100,
            StatType::PROJECTILE_SPEED_MULT => 102,
            StatType::PROJECTILE_LIFE_MULT => 103,
        }
    }

    /// Check whether the given stat type is a string.
    pub fn is_string(self) -> (r: bool)
        ensures
            r == self.string_valued(),
    {
        match self {
            StatType::NAME_STAT
            | StatType::ACCOUNT_ID_STAT
            | StatType::OWNER_ACCOUNT_ID_STAT
            | StatType::GUILD_NAME_STAT
            | StatType::PET_NAME_STAT => true,
            _ => false,
        }
    }
}

/// A stat of a game object: its type, and a string or an integer according
/// to the type.
#[derive(Debug, Clone, PartialEq, Eq)]
pub enum StatData {
    String(StatType, String),
    Integer(StatType, i32),
}

/// The mathematical value of a `StatData`.
pub enum StatModel {
    String(StatType, Seq<char>),
    Integer(StatType, i32),
}

impl StatModel {
    /// The type of this stat.
    pub open spec fn stat_type(self) -> StatType {
        match self {
            StatModel::String(t, _) => t,
            StatModel::Integer(t, _) => t,
        }
    }

    /// Whether the value is of the kind that the stat type calls for. Only
    /// such a stat is read back as it was written.
    pub open spec fn well_typed(self) -> bool {
        match self {
            StatModel::String(t, _) => t.string_valued(),
            StatModel::Integer(t, _) => !t.string_valued(),
        }
    }
}

impl View for StatData {
    type V = StatModel;

    open spec fn view(&self) -> StatModel {
        match *self {
            StatData::String(t, s) => StatModel::String(t, s@),
            StatData::Integer(t, i) => StatModel::Integer(t, i),
        }
    }
}

impl DeepView for StatData {
    type V = StatModel;

    open spec fn deep_view(&self) -> StatModel {
        self@
    }
}

impl StatData {
    /// The type of this stat.
    pub fn stat_type(&self) -> (r: StatType)
        ensures
            r == self@.stat_type(),
    {
        match self {
            StatData::String(t, _) => *t,
            StatData::Integer(t, _) => *t,
        }
    }
}

} // verus!
