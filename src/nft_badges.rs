//! Achievement badges: rarity tiers, badge kinds with their names and icons,
//! and badge ids.
use vstd::prelude::*;
use vstd::string::*;
use vstd::utf8::encode_utf8;
use crate::core_types::{digest_prefix, WalletAddress};
use crate::hashing::{
    append_bytes, decimal_bytes, decimal_of, hex_encode, hex_of, le_bytes, sha256, sha256_of,
    u64_le_bytes,
};

verus! {

/// Badge rarity tiers, rarest first.
#[derive(Debug, Clone, Copy, PartialEq, Eq, Structural)]
pub enum BadgeTier {
    /// One-time achievements.
    Legendary,
    /// Exceptional achievements.
    Epic,
    /// Significant milestones.
    Rare,
    /// Notable achievements.
    Uncommon,
    /// Entry-level badges.
    Common,
}

/// The display color of a tier.
pub open spec fn tier_color(t: BadgeTier) -> Seq<char> {
    match t {
        BadgeTier::Legendary => "#FFD700"@,
        BadgeTier::Epic => "#9370DB"@,
        BadgeTier::Rare => "#4169E1"@,
        BadgeTier::Uncommon => "#32CD32"@,
        BadgeTier::Common => "#C0C0C0"@,
    }
}

/// The star count of a tier.
pub open spec fn tier_stars(t: BadgeTier) -> u8 {
    match t {
        BadgeTier::Legendary => 5,
        BadgeTier::Epic => 4,
        BadgeTier::Rare => 3,
        BadgeTier::Uncommon => 2,
        BadgeTier::Common => 1,
    }
}

impl BadgeTier {
    /// The display color (gold, purple, blue, green, silver).
    pub fn color(&self) -> (r: &'static str)
        ensures
            r@ == tier_color(*self),
    {
        match self {
            BadgeTier::Legendary => "#FFD700",
            BadgeTier::Epic => "#9370DB",
            BadgeTier::Rare => "#4169E1",
            BadgeTier::Uncommon => "#32CD32",
            BadgeTier::Common => "#C0C0C0",
        }
    }

    /// The star count, five for the rarest.
    pub fn stars(&self) -> (r: u8)
        ensures
            r == tier_stars(*self),
    {
        match self {
            BadgeTier::Legendary => 5,
            BadgeTier::Epic => 4,
            BadgeTier::Rare => 3,
            BadgeTier::Uncommon => 2,
            BadgeTier::Common => 1,
        }
    }
}

/// Badge type definitions
#[derive(Debug, Clone, PartialEq, Eq, Hash)]
pub enum BadgeType {
    // === Genesis Badges (Legendary) ===
    /// First 100 miners on RustChain
    GenesisMiner,
    /// Mined the actual genesis block
    FirstBlock,
    /// Founding team member
    Flamekeeper,

    // === Hardware Badges (Epic/Rare) ===
    /// Mining with 30+ year old hardware
    AncientSiliconKeeper,
    /// Mining with 25+ year old hardware
    SacredSiliconGuardian,
    /// Mining with 20+ year old hardware
    VintageCollector,
    /// Mining with unique/rare hardware model
    MuseumPiece,
    /// Mining with pre-internet hardware (pre-1990)
    DialUpWarrior,

    // === Achievement Badges ===
    /// Mined 100+ blocks
    BlockCenturion,
    /// Mined 1,000+ blocks
    BlockLegion,
    /// Mined 10,000+ blocks
    BlockImmortal,
    /// Earned 1,000+ RTC
    RTCMillionaire,
    /// Earned 10,000+ RTC
    RTCBillionaire,
    /// Mining for 30+ consecutive days
    DedicationMedal,
    /// Mining for 365+ consecutive days
    YearOfAntiquity,

    // === Community Badges ===
    /// Helped 10+ new miners get started
    CommunityBuilder,
    /// Contributed to RustChain codebase
    Developer,
    /// Found and reported a bug
    BugHunter,
    /// Provided hardware for testing
    HardwareDonor,

    // === Special Event Badges ===
    /// Participated in specific event
    EventParticipant(String),
    /// Won a competition
    CompetitionWinner(String),

    // === Hardware Diversity ===
    /// Mining with PowerPC hardware
    PowerPCPioneer,
    /// Mining with Alpha hardware
    AlphaDreamer,
    /// Mining with SPARC hardware
    SunWorshipper,
    /// Mining with MIPS hardware
    MIPSMaster,
    /// Mining with ARM (vintage) hardware
    ARMedAndDangerous,
    /// Mining with 68k hardware
    Motorolan,
}

/// The display name of a badge.
pub open spec fn badge_name(b: BadgeType) -> Seq<char> {
    match b {
        BadgeType::GenesisMiner => "Genesis Miner"@,
        BadgeType::FirstBlock => "First Block"@,
        BadgeType::Flamekeeper => "Flamekeeper"@,
        BadgeType::AncientSiliconKeeper => "Ancient Silicon Keeper"@,
        BadgeType::SacredSiliconGuardian => "Sacred Silicon Guardian"@,
        BadgeType::VintageCollector => "Vintage Collector"@,
        BadgeType::MuseumPiece => "Museum Piece"@,
        BadgeType::DialUpWarrior => "Dial-Up Warrior"@,
        BadgeType::BlockCenturion => "Block Centurion"@,
        BadgeType::BlockLegion => "Block Legion"@,
        BadgeType::BlockImmortal => "Block Immortal"@,
        BadgeType::RTCMillionaire => "RTC Millionaire"@,
        BadgeType::RTCBillionaire => "RTC Billionaire"@,
        BadgeType::DedicationMedal => "Dedication Medal"@,
        BadgeType::YearOfAntiquity => "Year of Antiquity"@,
        BadgeType::CommunityBuilder => "Community Builder"@,
        BadgeType::Developer => "Developer"@,
        BadgeType::BugHunter => "Bug Hunter"@,
        BadgeType::HardwareDonor => "Hardware Donor"@,
        BadgeType::EventParticipant(s) => "Event: "@ + s@,
        BadgeType::CompetitionWinner(s) => "Winner: "@ + s@,
        BadgeType::PowerPCPioneer => "PowerPC Pioneer"@,
        BadgeType::AlphaDreamer => "Alpha Dreamer"@,
        BadgeType::SunWorshipper => "Sun Worshipper"@,
        BadgeType::MIPSMaster => "MIPS Master"@,
        BadgeType::ARMedAndDangerous => "ARMed & Dangerous"@,
        BadgeType::Motorolan => "Motorolan"@,
    }
}

/// The description of a badge.
pub open spec fn badge_description(b: BadgeType) -> Seq<char> {
    match b {
        BadgeType::GenesisMiner => "One of the first 100 miners on RustChain"@,
        BadgeType::FirstBlock => "Mined the genesis block"@,
        BadgeType::Flamekeeper => "Founding team member keeping the flame alive"@,
        BadgeType::AncientSiliconKeeper => "Mining with 30+ year old hardware"@,
        BadgeType::SacredSiliconGuardian => "Mining with 25+ year old hardware"@,
        BadgeType::VintageCollector => "Mining with 20+ year old hardware"@,
        BadgeType::MuseumPiece => "Mining with hardware older than the internet"@,
        BadgeType::DialUpWarrior => "Mining like it's 1995"@,
        BadgeType::BlockCenturion => "Mined 100+ blocks"@,
        BadgeType::BlockLegion => "Mined 1,000+ blocks"@,
        BadgeType::BlockImmortal => "Mined 10,000+ blocks"@,
        BadgeType::RTCMillionaire => "Earned 1,000+ RTC"@,
        BadgeType::RTCBillionaire => "Earned 10,000+ RTC"@,
        BadgeType::DedicationMedal => "Mining for 30+ consecutive days"@,
        BadgeType::YearOfAntiquity => "Mining for 365+ consecutive days"@,
        BadgeType::CommunityBuilder => "Helped 10+ new miners get started"@,
        BadgeType::Developer => "Contributed to RustChain codebase"@,
        BadgeType::BugHunter => "Found and reported a bug"@,
        BadgeType::HardwareDonor => "Provided hardware for testing"@,
        BadgeType::EventParticipant(s) => "Participated in "@ + s@,
        BadgeType::CompetitionWinner(s) => "Won the "@ + s@ + " competition"@,
        BadgeType::PowerPCPioneer => "Mining with PowerPC architecture"@,
        BadgeType::AlphaDreamer => "Mining with DEC Alpha architecture"@,
        BadgeType::SunWorshipper => "Mining with SPARC architecture"@,
        BadgeType::MIPSMaster => "Mining with MIPS architecture"@,
        BadgeType::ARMedAndDangerous => "Mining with vintage ARM hardware"@,
        BadgeType::Motorolan => "Mining with Motorola 68k architecture"@,
    }
}

/// The rarity tier of a badge.
pub open spec fn badge_tier(b: BadgeType) -> BadgeTier {
    match b {
        BadgeType::GenesisMiner => BadgeTier::Legendary,
        BadgeType::FirstBlock => BadgeTier::Legendary,
        BadgeType::Flamekeeper => BadgeTier::Legendary,
        BadgeType::AncientSiliconKeeper => BadgeTier::Epic,
        BadgeType::SacredSiliconGuardian => BadgeTier::Rare,
        BadgeType::VintageCollector => BadgeTier::Rare,
        BadgeType::MuseumPiece => BadgeTier::Legendary,
        BadgeType::DialUpWarrior => BadgeTier::Rare,
        BadgeType::BlockCenturion => BadgeTier::Rare,
        BadgeType::BlockLegion => BadgeTier::Epic,
        BadgeType::BlockImmortal => BadgeTier::Legendary,
        BadgeType::RTCMillionaire => BadgeTier::Epic,
        BadgeType::RTCBillionaire => BadgeTier::Legendary,
        BadgeType::DedicationMedal => BadgeTier::Rare,
        BadgeType::YearOfAntiquity => BadgeTier::Epic,
        BadgeType::CommunityBuilder => BadgeTier::Uncommon,
        BadgeType::Developer => BadgeTier::Rare,
        BadgeType::BugHunter => BadgeTier::Uncommon,
        BadgeType::HardwareDonor => BadgeTier::Rare,
        BadgeType::EventParticipant(_) => BadgeTier::Common,
        BadgeType::CompetitionWinner(_) => BadgeTier::Rare,
        BadgeType::PowerPCPioneer => BadgeTier::Rare,
        BadgeType::AlphaDreamer => BadgeTier::Epic,
        BadgeType::SunWorshipper => BadgeTier::Epic,
        BadgeType::MIPSMaster => BadgeTier::Rare,
        BadgeType::ARMedAndDangerous => BadgeTier::Uncommon,
        BadgeType::Motorolan => BadgeTier::Epic,
    }
}

/// The tag of a badge kind that goes into its id: the variant name, and for
/// the event and competition badges the name with its text quoted in
/// parentheses.
pub open spec fn badge_tag(b: BadgeType) -> Seq<char> {
    match b {
        BadgeType::GenesisMiner => "GenesisMiner"@,
        BadgeType::FirstBlock => "FirstBlock"@,
        BadgeType::Flamekeeper => "Flamekeeper"@,
        BadgeType::AncientSiliconKeeper => "AncientSiliconKeeper"@,
        BadgeType::SacredSiliconGuardian => "SacredSiliconGuardian"@,
        BadgeType::VintageCollector => "VintageCollector"@,
        BadgeType::MuseumPiece => "MuseumPiece"@,
        BadgeType::DialUpWarrior => "DialUpWarrior"@,
        BadgeType::BlockCenturion => "BlockCenturion"@,
        BadgeType::BlockLegion => "BlockLegion"@,
        BadgeType::BlockImmortal => "BlockImmortal"@,
        BadgeType::RTCMillionaire => "RTCMillionaire"@,
        BadgeType::RTCBillionaire => "RTCBillionaire"@,
        BadgeType::DedicationMedal => "DedicationMedal"@,
        BadgeType::YearOfAntiquity => "YearOfAntiquity"@,
        BadgeType::CommunityBuilder => "CommunityBuilder"@,
        BadgeType::Developer => "Developer"@,
        BadgeType::BugHunter => "BugHunter"@,
        BadgeType::HardwareDonor => "HardwareDonor"@,
        BadgeType::EventParticipant(s) => "EventParticipant(\""@ + s@ + "\")"@,
        BadgeType::CompetitionWinner(s) => "CompetitionWinner(\""@ + s@ + "\")"@,
        BadgeType::PowerPCPioneer => "PowerPCPioneer"@,
        BadgeType::AlphaDreamer => "AlphaDreamer"@,
        BadgeType::SunWorshipper => "SunWorshipper"@,
        BadgeType::MIPSMaster => "MIPSMaster"@,
        BadgeType::ARMedAndDangerous => "ARMedAndDangerous"@,
        BadgeType::Motorolan => "Motorolan"@,
    }
}

/// The icon of a badge.
pub open spec fn badge_icon(b: BadgeType) -> Seq<char> {
    match b {
        BadgeType::GenesisMiner => "⛏️"@,
        BadgeType::FirstBlock => "🎯"@,
        BadgeType::Flamekeeper => "🔥"@,
        BadgeType::AncientSiliconKeeper => "🏛️"@,
        BadgeType::SacredSiliconGuardian => "👑"@,
        BadgeType::VintageCollector => "🏆"@,
        BadgeType::MuseumPiece => "🗿"@,
        BadgeType::DialUpWarrior => "📞"@,
        BadgeType::BlockCenturion => "💯"@,
        BadgeType::BlockLegion => "⚔️"@,
        BadgeType::BlockImmortal => "🌟"@,
        BadgeType::RTCMillionaire => "💰"@,
        BadgeType::RTCBillionaire => "💎"@,
        BadgeType::DedicationMedal => "🎖️"@,
        BadgeType::YearOfAntiquity => "📅"@,
        BadgeType::CommunityBuilder => "🤝"@,
        BadgeType::Developer => "👨‍💻"@,
        BadgeType::BugHunter => "🐛"@,
        BadgeType::HardwareDonor => "🎁"@,
        BadgeType::EventParticipant(_) => "🎪"@,
        BadgeType::CompetitionWinner(_) => "🏅"@,
        BadgeType::PowerPCPioneer => "🍎"@,
        BadgeType::AlphaDreamer => "🔷"@,
        BadgeType::SunWorshipper => "☀️"@,
        BadgeType::MIPSMaster => "🎮"@,
        BadgeType::ARMedAndDangerous => "💪"@,
        BadgeType::Motorolan => "📱"@,
    }
}

impl BadgeType {
    /// The display name.
    pub fn name(&self) -> (r: String)
        ensures
            r@ == badge_name(*self),
    {
        match self {
            BadgeType::GenesisMiner => String::from_str("Genesis Miner"),
            BadgeType::FirstBlock => String::from_str("First Block"),
            BadgeType::Flamekeeper => String::from_str("Flamekeeper"),
            BadgeType::AncientSiliconKeeper => String::from_str("Ancient Silicon Keeper"),
            BadgeType::SacredSiliconGuardian => String::from_str("Sacred Silicon Guardian"),
            BadgeType::VintageCollector => String::from_str("Vintage Collector"),
            BadgeType::MuseumPiece => String::from_str("Museum Piece"),
            BadgeType::DialUpWarrior => String::from_str("Dial-Up Warrior"),
            BadgeType::BlockCenturion => String::from_str("Block Centurion"),
            BadgeType::BlockLegion => String::from_str("Block Legion"),
            BadgeType::BlockImmortal => String::from_str("Block Immortal"),
            BadgeType::RTCMillionaire => String::from_str("RTC Millionaire"),
            BadgeType::RTCBillionaire => String::from_str("RTC Billionaire"),
            BadgeType::DedicationMedal => String::from_str("Dedication Medal"),
            BadgeType::YearOfAntiquity => String::from_str("Year of Antiquity"),
            BadgeType::CommunityBuilder => String::from_str("Community Builder"),
            BadgeType::Developer => String::from_str("Developer"),
            BadgeType::BugHunter => String::from_str("Bug Hunter"),
            BadgeType::HardwareDonor => String::from_str("Hardware Donor"),
            BadgeType::EventParticipant(s) => String::from_str("Event: ").concat(s.as_str()),
            BadgeType::CompetitionWinner(s) => String::from_str("Winner: ").concat(s.as_str()),
            BadgeType::PowerPCPioneer => String::from_str("PowerPC Pioneer"),
            BadgeType::AlphaDreamer => String::from_str("Alpha Dreamer"),
            BadgeType::SunWorshipper => String::from_str("Sun Worshipper"),
            BadgeType::MIPSMaster => String::from_str("MIPS Master"),
            BadgeType::ARMedAndDangerous => String::from_str("ARMed & Dangerous"),
            BadgeType::Motorolan => String::from_str("Motorolan"),
        }
    }

    /// The description.
    pub fn description(&self) -> (r: String)
        ensures
            r@ == badge_description(*self),
    {
        match self {
            BadgeType::GenesisMiner => String::from_str("One of the first 100 miners on RustChain"),
            BadgeType::FirstBlock => String::from_str("Mined the genesis block"),
            BadgeType::Flamekeeper => String::from_str("Founding team member keeping the flame alive"),
            BadgeType::AncientSiliconKeeper => String::from_str("Mining with 30+ year old hardware"),
            BadgeType::SacredSiliconGuardian => String::from_str("Mining with 25+ year old hardware"),
            BadgeType::VintageCollector => String::from_str("Mining with 20+ year old hardware"),
            BadgeType::MuseumPiece => String::from_str("Mining with hardware older than the internet"),
            BadgeType::DialUpWarrior => String::from_str("Mining like it's 1995"),
            BadgeType::BlockCenturion => String::from_str("Mined 100+ blocks"),
            BadgeType::BlockLegion => String::from_str("Mined 1,000+ blocks"),
            BadgeType::BlockImmortal => String::from_str("Mined 10,000+ blocks"),
            BadgeType::RTCMillionaire => String::from_str("Earned 1,000+ RTC"),
            BadgeType::RTCBillionaire => String::from_str("Earned 10,000+ RTC"),
            BadgeType::DedicationMedal => String::from_str("Mining for 30+ consecutive days"),
            BadgeType::YearOfAntiquity => String::from_str("Mining for 365+ consecutive days"),
            BadgeType::CommunityBuilder => String::from_str("Helped 10+ new miners get started"),
            BadgeType::Developer => String::from_str("Contributed to RustChain codebase"),
            BadgeType::BugHunter => String::from_str("Found and reported a bug"),
            BadgeType::HardwareDonor => String::from_str("Provided hardware for testing"),
            BadgeType::EventParticipant(s) => String::from_str("Participated in ").concat(s.as_str()),
            BadgeType::CompetitionWinner(s) => String::from_str("Won the ").concat(s.as_str()).concat(" competition"),
            BadgeType::PowerPCPioneer => String::from_str("Mining with PowerPC architecture"),
            BadgeType::AlphaDreamer => String::from_str("Mining with DEC Alpha architecture"),
            BadgeType::SunWorshipper => String::from_str("Mining with SPARC architecture"),
            BadgeType::MIPSMaster => String::from_str("Mining with MIPS architecture"),
            BadgeType::ARMedAndDangerous => String::from_str("Mining with vintage ARM hardware"),
            BadgeType::Motorolan => String::from_str("Mining with Motorola 68k architecture"),
        }
    }

    /// The rarity tier.
    pub fn tier(&self) -> (r: BadgeTier)
        ensures
            r == badge_tier(*self),
    {
        match self {
            BadgeType::GenesisMiner => BadgeTier::Legendary,
            BadgeType::FirstBlock => BadgeTier::Legendary,
            BadgeType::Flamekeeper => BadgeTier::Legendary,
            BadgeType::AncientSiliconKeeper => BadgeTier::Epic,
            BadgeType::SacredSiliconGuardian => BadgeTier::Rare,
            BadgeType::VintageCollector => BadgeTier::Rare,
            BadgeType::MuseumPiece => BadgeTier::Legendary,
            BadgeType::DialUpWarrior => BadgeTier::Rare,
            BadgeType::BlockCenturion => BadgeTier::Rare,
            BadgeType::BlockLegion => BadgeTier::Epic,
            BadgeType::BlockImmortal => BadgeTier::Legendary,
            BadgeType::RTCMillionaire => BadgeTier::Epic,
            BadgeType::RTCBillionaire => BadgeTier::Legendary,
            BadgeType::DedicationMedal => BadgeTier::Rare,
            BadgeType::YearOfAntiquity => BadgeTier::Epic,
            BadgeType::CommunityBuilder => BadgeTier::Uncommon,
            BadgeType::Developer => BadgeTier::Rare,
            BadgeType::BugHunter => BadgeTier::Uncommon,
            BadgeType::HardwareDonor => BadgeTier::Rare,
            BadgeType::EventParticipant(_) => BadgeTier::Common,
            BadgeType::CompetitionWinner(_) => BadgeTier::Rare,
            BadgeType::PowerPCPioneer => BadgeTier::Rare,
            BadgeType::AlphaDreamer => BadgeTier::Epic,
            BadgeType::SunWorshipper => BadgeTier::Epic,
            BadgeType::MIPSMaster => BadgeTier::Rare,
            BadgeType::ARMedAndDangerous => BadgeTier::Uncommon,
            BadgeType::Motorolan => BadgeTier::Epic,
        }
    }

    /// The tag of this badge kind that goes into its id.
    pub fn tag(&self) -> (r: String)
        ensures
            r@ == badge_tag(*self),
    {
        match self {
            BadgeType::GenesisMiner => String::from_str("GenesisMiner"),
            BadgeType::FirstBlock => String::from_str("FirstBlock"),
            BadgeType::Flamekeeper => String::from_str("Flamekeeper"),
            BadgeType::AncientSiliconKeeper => String::from_str("AncientSiliconKeeper"),
            BadgeType::SacredSiliconGuardian => String::from_str("SacredSiliconGuardian"),
            BadgeType::VintageCollector => String::from_str("VintageCollector"),
            BadgeType::MuseumPiece => String::from_str("MuseumPiece"),
            BadgeType::DialUpWarrior => String::from_str("DialUpWarrior"),
            BadgeType::BlockCenturion => String::from_str("BlockCenturion"),
            BadgeType::BlockLegion => String::from_str("BlockLegion"),
            BadgeType::BlockImmortal => String::from_str("BlockImmortal"),
            BadgeType::RTCMillionaire => String::from_str("RTCMillionaire"),
            BadgeType::RTCBillionaire => String::from_str("RTCBillionaire"),
            BadgeType::DedicationMedal => String::from_str("DedicationMedal"),
            BadgeType::YearOfAntiquity => String::from_str("YearOfAntiquity"),
            BadgeType::CommunityBuilder => String::from_str("CommunityBuilder"),
            BadgeType::Developer => String::from_str("Developer"),
            BadgeType::BugHunter => String::from_str("BugHunter"),
            BadgeType::HardwareDonor => String::from_str("HardwareDonor"),
            BadgeType::EventParticipant(s) => String::from_str("EventParticipant(\"").concat(s.as_str()).concat("\")"),
            BadgeType::CompetitionWinner(s) => String::from_str("CompetitionWinner(\"").concat(s.as_str()).concat("\")"),
            BadgeType::PowerPCPioneer => String::from_str("PowerPCPioneer"),
            BadgeType::AlphaDreamer => String::from_str("AlphaDreamer"),
            BadgeType::SunWorshipper => String::from_str("SunWorshipper"),
            BadgeType::MIPSMaster => String::from_str("MIPSMaster"),
            BadgeType::ARMedAndDangerous => String::from_str("ARMedAndDangerous"),
            BadgeType::Motorolan => String::from_str("Motorolan"),
        }
    }

    /// The icon.
    pub fn icon(&self) -> (r: &'static str)
        ensures
            r@ == badge_icon(*self),
    {
        match self {
            BadgeType::GenesisMiner => "⛏️",
            BadgeType::FirstBlock => "🎯",
            BadgeType::Flamekeeper => "🔥",
            BadgeType::AncientSiliconKeeper => "🏛️",
            BadgeType::SacredSiliconGuardian => "👑",
            BadgeType::VintageCollector => "🏆",
            BadgeType::MuseumPiece => "🗿",
            BadgeType::DialUpWarrior => "📞",
            BadgeType::BlockCenturion => "💯",
            BadgeType::BlockLegion => "⚔️",
            BadgeType::BlockImmortal => "🌟",
            BadgeType::RTCMillionaire => "💰",
            BadgeType::RTCBillionaire => "💎",
            BadgeType::DedicationMedal => "🎖️",
            BadgeType::YearOfAntiquity => "📅",
            BadgeType::CommunityBuilder => "🤝",
            BadgeType::Developer => "👨‍💻",
            BadgeType::BugHunter => "🐛",
            BadgeType::HardwareDonor => "🎁",
            BadgeType::EventParticipant(_) => "🎪",
            BadgeType::CompetitionWinner(_) => "🏅",
            BadgeType::PowerPCPioneer => "🍎",
            BadgeType::AlphaDreamer => "🔷",
            BadgeType::SunWorshipper => "☀️",
            BadgeType::MIPSMaster => "🎮",
            BadgeType::ARMedAndDangerous => "💪",
            BadgeType::Motorolan => "📱",
        }
    }

}

/// A badge id.
#[derive(Debug, Clone, PartialEq, Eq, Hash)]
pub struct BadgeId(pub String);

/// The short code of a badge kind in its id.
pub open spec fn badge_prefix(b: BadgeType) -> Seq<char> {
    match b {
        BadgeType::GenesisMiner => "GEN"@,
        BadgeType::FirstBlock => "FBK"@,
        BadgeType::Flamekeeper => "FLM"@,
        BadgeType::AncientSiliconKeeper => "ASK"@,
        BadgeType::BlockCenturion => "BC1"@,
        BadgeType::BlockLegion => "BL1"@,
        BadgeType::BlockImmortal => "BIM"@,
        _ => "RTC"@,
    }
}

/// The bytes hashed into a badge id: the owner, the block (eight bytes,
/// little-endian) and the kind's tag.
pub open spec fn badge_id_preimage(b: BadgeType, owner: Seq<char>, block: u64) -> Seq<u8> {
    encode_utf8(owner) + le_bytes(block as nat, 8) + encode_utf8(badge_tag(b))
}

/// The id of a badge: `RTC-`, the kind's code, `-` and the hex of the first
/// eight bytes of the digest of its preimage.
pub open spec fn badge_id_of(b: BadgeType, owner: Seq<char>, block: u64) -> Seq<char> {
    "RTC-"@ + badge_prefix(b) + "-"@ + hex_of(
        sha256_of(badge_id_preimage(b, owner, block)).subrange(0, 8),
    )
}

impl BadgeType {
    /// The short code of this kind in badge ids.
    pub fn prefix(&self) -> (r: &'static str)
        ensures
            r@ == badge_prefix(*self),
    {
        match self {
            BadgeType::GenesisMiner => "GEN",
            BadgeType::FirstBlock => "FBK",
            BadgeType::Flamekeeper => "FLM",
            BadgeType::AncientSiliconKeeper => "ASK",
            BadgeType::BlockCenturion => "BC1",
            BadgeType::BlockLegion => "BL1",
            BadgeType::BlockImmortal => "BIM",
            _ => "RTC",
        }
    }
}

impl BadgeId {
    /// The id of a badge of the given kind earned by `owner` at `block`.
    pub fn generate(badge_type: &BadgeType, owner: &WalletAddress, block: u64) -> (r: Self)
        ensures
            r.0@ == badge_id_of(*badge_type, owner.0@, block),
    {
        let mut data: Vec<u8> = Vec::new();
        append_bytes(&mut data, owner.0.as_str().as_bytes());
        let block_bytes = u64_le_bytes(block);
        append_bytes(&mut data, block_bytes.as_slice());
        let tag = badge_type.tag();
        append_bytes(&mut data, tag.as_str().as_bytes());
        proof {
            assert(data@ =~= badge_id_preimage(*badge_type, owner.0@, block));
        }
        let hash = sha256(data.as_slice());
        let short = digest_prefix(&hash, 8);
        let short_hex = hex_encode(short.as_slice());
        let text = String::from_str("RTC-").concat(badge_type.prefix()).concat("-").concat(
            short_hex.as_str(),
        );
        BadgeId(text)
    }
}

/// A minted badge.
#[derive(Debug, Clone)]
pub struct Badge {
    pub id: BadgeId,
    pub badge_type: BadgeType,
    pub owner: WalletAddress,
    pub earned_block: u64,
    pub earned_timestamp: u64,
    pub badge_hash: [u8; 32],
    pub ipfs_hash: Option<String>,
    pub metadata: BadgeMetadata,
}

/// One entry of a badge's achievement data.
#[derive(Debug, Clone)]
pub struct AchievementEntry {
    pub key: String,
    pub value: String,
}

/// Badge metadata.
#[derive(Debug, Clone)]
pub struct BadgeMetadata {
    pub hardware_model: Option<String>,
    pub hardware_age: Option<u32>,
    /// Achievement data, at most one entry per key.
    pub achievement_data: Vec<AchievementEntry>,
    pub svg_data: Option<String>,
}

/// Minting errors.
#[derive(Debug)]
pub enum MintError {
    AlreadyMinted(BadgeId),
    InvalidCriteria(String),
}

/// Decides which badges a miner has earned.
#[derive(Debug)]
pub struct BadgeCriteriaChecker {
    /// Miners first seen below this height earn the genesis badge.
    pub genesis_cutoff_block: u64,
    /// Founder wallets.
    pub flamekeepers: Vec<WalletAddress>,
}

impl BadgeCriteriaChecker {
    /// A checker with the genesis cutoff at block 100 and the four founder
    /// wallets.
    pub fn new() -> (r: Self)
        ensures
            r.genesis_cutoff_block == 100,
            r.flamekeepers@.len() == 4,
            r.flamekeepers@[0].0@ == "RTC1FlamekeeperScottEternalGuardian0x00"@,
            r.flamekeepers@[1].0@ == "RTC2EngineerDogeCryptoArchitect0x01"@,
            r.flamekeepers@[2].0@ == "RTC3QuantumSophiaElyaConsciousness0x02"@,
            r.flamekeepers@[3].0@ == "RTC4VintageWhispererHardwareRevival0x03"@,
    {
        let mut flamekeepers: Vec<WalletAddress> = Vec::new();
        flamekeepers.push(WalletAddress::new("RTC1FlamekeeperScottEternalGuardian0x00"));
        flamekeepers.push(WalletAddress::new("RTC2EngineerDogeCryptoArchitect0x01"));
        flamekeepers.push(WalletAddress::new("RTC3QuantumSophiaElyaConsciousness0x02"));
        flamekeepers.push(WalletAddress::new("RTC4VintageWhispererHardwareRevival0x03"));
        BadgeCriteriaChecker { genesis_cutoff_block: 100, flamekeepers }
    }
}

/// The position of a badge kind in the list of kinds.
pub open spec fn badge_kind(b: BadgeType) -> u8 {
    match b {
        BadgeType::GenesisMiner => 0,
        BadgeType::FirstBlock => 1,
        BadgeType::Flamekeeper => 2,
        BadgeType::AncientSiliconKeeper => 3,
        BadgeType::SacredSiliconGuardian => 4,
        BadgeType::VintageCollector => 5,
        BadgeType::MuseumPiece => 6,
        BadgeType::DialUpWarrior => 7,
        BadgeType::BlockCenturion => 8,
        BadgeType::BlockLegion => 9,
        BadgeType::BlockImmortal => 10,
        BadgeType::RTCMillionaire => 11,
        BadgeType::RTCBillionaire => 12,
        BadgeType::DedicationMedal => 13,
        BadgeType::YearOfAntiquity => 14,
        BadgeType::CommunityBuilder => 15,
        BadgeType::Developer => 16,
        BadgeType::BugHunter => 17,
        BadgeType::HardwareDonor => 18,
        BadgeType::EventParticipant(_) => 19,
        BadgeType::CompetitionWinner(_) => 20,
        BadgeType::PowerPCPioneer => 21,
        BadgeType::AlphaDreamer => 22,
        BadgeType::SunWorshipper => 23,
        BadgeType::MIPSMaster => 24,
        BadgeType::ARMedAndDangerous => 25,
        BadgeType::Motorolan => 26,
    }
}

/// Whether two badges are of the same kind, with the same text for the event
/// and competition badges.
pub open spec fn same_badge(a: BadgeType, b: BadgeType) -> bool {
    match (a, b) {
        (BadgeType::EventParticipant(x), BadgeType::EventParticipant(y)) => x@ == y@,
        (BadgeType::CompetitionWinner(x), BadgeType::CompetitionWinner(y)) => x@ == y@,
        _ => badge_kind(a) == badge_kind(b),
    }
}

impl BadgeType {
    /// The position of this kind in the list of kinds.
    pub fn kind(&self) -> (r: u8)
        ensures
            r == badge_kind(*self),
    {
        match self {
            BadgeType::GenesisMiner => 0,
            BadgeType::FirstBlock => 1,
            BadgeType::Flamekeeper => 2,
            BadgeType::AncientSiliconKeeper => 3,
            BadgeType::SacredSiliconGuardian => 4,
            BadgeType::VintageCollector => 5,
            BadgeType::MuseumPiece => 6,
            BadgeType::DialUpWarrior => 7,
            BadgeType::BlockCenturion => 8,
            BadgeType::BlockLegion => 9,
            BadgeType::BlockImmortal => 10,
            BadgeType::RTCMillionaire => 11,
            BadgeType::RTCBillionaire => 12,
            BadgeType::DedicationMedal => 13,
            BadgeType::YearOfAntiquity => 14,
            BadgeType::CommunityBuilder => 15,
            BadgeType::Developer => 16,
            BadgeType::BugHunter => 17,
            BadgeType::HardwareDonor => 18,
            BadgeType::EventParticipant(_) => 19,
            BadgeType::CompetitionWinner(_) => 20,
            BadgeType::PowerPCPioneer => 21,
            BadgeType::AlphaDreamer => 22,
            BadgeType::SunWorshipper => 23,
            BadgeType::MIPSMaster => 24,
            BadgeType::ARMedAndDangerous => 25,
            BadgeType::Motorolan => 26,
        }
    }

    /// Whether `other` is the same badge.
    pub fn same_as(&self, other: &BadgeType) -> (r: bool)
        ensures
            r == same_badge(*self, *other),
    {
        match (self, other) {
            (BadgeType::EventParticipant(x), BadgeType::EventParticipant(y)) => *x == *y,
            (BadgeType::CompetitionWinner(x), BadgeType::CompetitionWinner(y)) => *x == *y,
            _ => self.kind() == other.kind(),
        }
    }
}

/// Stats of a miner, for awarding badges.
#[derive(Debug, Clone)]
pub struct MinerStats {
    pub wallet: WalletAddress,
    pub first_seen_block: u64,
    pub blocks_mined: u64,
    /// Tokens earned, in smallest units.
    pub rtc_earned: u64,
    pub consecutive_days: u64,
    pub hardware_age_years: u32,
    pub hardware_model: String,
    pub architecture: String,
    pub helped_miners_count: u32,
}

/// Lowercase form of a text.
pub uninterp spec fn lower_of(s: Seq<char>) -> Seq<char>;

/// Relies on `str::to_lowercase`: the lowercase form depends on the text alone.
#[verifier::external_body]
fn lowercase(s: &str) -> (r: String)
    ensures
        r@ == lower_of(s@),
{
    s.to_lowercase()
}

/// Whether `needle` occurs in `hay`.
pub open spec fn contains_bytes(hay: Seq<u8>, needle: Seq<u8>) -> bool {
    exists|i: int| 0 <= i <= hay.len() - needle.len() && #[trigger] hay.subrange(i, i + needle.len()) == needle
}

/// Whether the bytes of `needle` occur in `hay`.
pub fn find_bytes(hay: &[u8], needle: &[u8]) -> (r: bool)
    ensures
        r == contains_bytes(hay@, needle@),
{
    if needle.len() > hay.len() {
        return false;
    }
    let n = hay.len();
    let last = n - needle.len();
    let mut i: usize = 0;
    loop
        invariant
            n == hay@.len(),
            last == hay@.len() - needle@.len(),
            needle@.len() <= hay@.len(),
            i <= last,
            forall|k: int| 0 <= k < i ==> #[trigger] hay@.subrange(k, k + needle@.len()) != needle@,
        decreases last - i,
    {
        let mut j: usize = 0;
        let mut same = true;
        while j < needle.len()
            invariant
                n == hay@.len(),
                i <= last,
                last == hay@.len() - needle@.len(),
                needle@.len() <= hay@.len(),
                j <= needle@.len(),
                same == forall|m: int| 0 <= m < j ==> hay@[i + m] == needle@[m],
            decreases needle@.len() - j,
        {
            if hay[i + j] != needle[j] {
                same = false;
            }
            j = j + 1;
        }
        if same {
            proof {
                assert(hay@.subrange(i as int, i + needle@.len()) =~= needle@);
            }
            return true;
        }
        proof {
            let m = choose|m: int| 0 <= m < needle@.len() && hay@[i + m] != needle@[m];
            assert(hay@.subrange(i as int, i + needle@.len())[m] != needle@[m]);
        }
        if i == last {
            return false;
        }
        i = i + 1;
    }
}

/// Whether the wallet is a founder's.
pub open spec fn is_flamekeeper(fs: Seq<WalletAddress>, w: WalletAddress) -> bool {
    exists|i: int| 0 <= i < fs.len() && (#[trigger] fs[i]).0@ == w.0@
}

/// An optional badge as a sequence of at most one.
pub open spec fn badge_if(c: bool, b: BadgeType) -> Seq<BadgeType> {
    if c {
        seq![b]
    } else {
        Seq::empty()
    }
}

/// The hardware age badge: 30, 25 or 20 years and up.
pub open spec fn age_badges(age: u32) -> Seq<BadgeType> {
    if age >= 30 {
        seq![BadgeType::AncientSiliconKeeper]
    } else if age >= 25 {
        seq![BadgeType::SacredSiliconGuardian]
    } else if age >= 20 {
        seq![BadgeType::VintageCollector]
    } else {
        Seq::empty()
    }
}

/// The block count badge: 10_000, 1_000 or 100 blocks and up.
pub open spec fn block_badges(n: u64) -> Seq<BadgeType> {
    if n >= 10000 {
        seq![BadgeType::BlockImmortal]
    } else if n >= 1000 {
        seq![BadgeType::BlockLegion]
    } else if n >= 100 {
        seq![BadgeType::BlockCenturion]
    } else {
        Seq::empty()
    }
}

/// The earnings badge: 10_000 or 1_000 whole tokens and up.
pub open spec fn token_badges(n: u64) -> Seq<BadgeType> {
    if n >= 1_000_000_000_000 {
        seq![BadgeType::RTCBillionaire]
    } else if n >= 100_000_000_000 {
        seq![BadgeType::RTCMillionaire]
    } else {
        Seq::empty()
    }
}

/// The dedication badge: 365 or 30 consecutive days and up.
pub open spec fn dedication_badges(days: u64) -> Seq<BadgeType> {
    if days >= 365 {
        seq![BadgeType::YearOfAntiquity]
    } else if days >= 30 {
        seq![BadgeType::DedicationMedal]
    } else {
        Seq::empty()
    }
}

/// Whether lowercase text names the given family.
pub open spec fn lower_has(lower: Seq<char>, family: Seq<char>) -> bool {
    contains_bytes(encode_utf8(lower), encode_utf8(family))
}

/// The architecture badge for a lowercase architecture name, by the first
/// family it names: PowerPC, Alpha, SPARC, MIPS, 68k.
pub open spec fn arch_badges_of_lower(lower: Seq<char>) -> Seq<BadgeType> {
    if lower_has(lower, "powerpc"@) || lower_has(lower, "ppc"@) {
        seq![BadgeType::PowerPCPioneer]
    } else if lower_has(lower, "alpha"@) {
        seq![BadgeType::AlphaDreamer]
    } else if lower_has(lower, "sparc"@) {
        seq![BadgeType::SunWorshipper]
    } else if lower_has(lower, "mips"@) {
        seq![BadgeType::MIPSMaster]
    } else if lower_has(lower, "68k"@) || lower_has(lower, "m68k"@) {
        seq![BadgeType::Motorolan]
    } else {
        Seq::empty()
    }
}

/// The architecture badge: the one its lowercase form names.
pub open spec fn arch_badges(arch: Seq<char>) -> Seq<BadgeType> {
    arch_badges_of_lower(lower_of(arch))
}

/// The badges a miner has earned, in the order they are checked: genesis,
/// first block, founder, hardware age, museum piece, blocks mined, tokens
/// earned, dedication, community, architecture.
pub open spec fn earned_badges(c: BadgeCriteriaChecker, s: MinerStats) -> Seq<BadgeType> {
    badge_if(s.first_seen_block < c.genesis_cutoff_block, BadgeType::GenesisMiner) + badge_if(
        s.first_seen_block == 0,
        BadgeType::FirstBlock,
    ) + badge_if(is_flamekeeper(c.flamekeepers@, s.wallet), BadgeType::Flamekeeper) + age_badges(
        s.hardware_age_years,
    ) + badge_if(s.hardware_age_years >= 35, BadgeType::MuseumPiece) + block_badges(
        s.blocks_mined,
    ) + token_badges(s.rtc_earned) + dedication_badges(s.consecutive_days) + badge_if(
        s.helped_miners_count >= 10,
        BadgeType::CommunityBuilder,
    ) + arch_badges(s.architecture@)
}

/// Appends the badges of a section.
fn push_section(v: &mut Vec<BadgeType>, b: Option<BadgeType>)
    ensures
        final(v)@ == old(v)@ + match b {
            Some(x) => seq![x],
            None => Seq::empty(),
        },
{
    match b {
        Some(x) => v.push(x),
        None => {},
    }
    proof {
        assert(final(v)@ =~= old(v)@ + match b {
            Some(x) => seq![x],
            None => Seq::<BadgeType>::empty(),
        });
    }
}

/// The badge sequence of an optional badge.
pub open spec fn opt_seq(b: Option<BadgeType>) -> Seq<BadgeType> {
    match b {
        Some(x) => seq![x],
        None => Seq::empty(),
    }
}

fn age_badge(age: u32) -> (r: Option<BadgeType>)
    ensures
        opt_seq(r) == age_badges(age),
{
    if age >= 30 {
        Some(BadgeType::AncientSiliconKeeper)
    } else if age >= 25 {
        Some(BadgeType::SacredSiliconGuardian)
    } else if age >= 20 {
        Some(BadgeType::VintageCollector)
    } else {
        None
    }
}

fn block_badge(n: u64) -> (r: Option<BadgeType>)
    ensures
        opt_seq(r) == block_badges(n),
{
    if n >= 10000 {
        Some(BadgeType::BlockImmortal)
    } else if n >= 1000 {
        Some(BadgeType::BlockLegion)
    } else if n >= 100 {
        Some(BadgeType::BlockCenturion)
    } else {
        None
    }
}

fn token_badge(n: u64) -> (r: Option<BadgeType>)
    ensures
        opt_seq(r) == token_badges(n),
{
    if n >= 1_000_000_000_000 {
        Some(BadgeType::RTCBillionaire)
    } else if n >= 100_000_000_000 {
        Some(BadgeType::RTCMillionaire)
    } else {
        None
    }
}

fn dedication_badge(days: u64) -> (r: Option<BadgeType>)
    ensures
        opt_seq(r) == dedication_badges(days),
{
    if days >= 365 {
        Some(BadgeType::YearOfAntiquity)
    } else if days >= 30 {
        Some(BadgeType::DedicationMedal)
    } else {
        None
    }
}

fn arch_badge(architecture: &String) -> (r: Option<BadgeType>)
    ensures
        opt_seq(r) == arch_badges(architecture@),
{
    let lower = lowercase(architecture.as_str());
    architecture_badge(lower.as_str())
}

/// The architecture badge for an architecture name already in lowercase.
pub fn architecture_badge(lower: &str) -> (r: Option<BadgeType>)
    ensures
        opt_seq(r) == arch_badges_of_lower(lower@),
{
    let a = lower.as_bytes();
    if find_bytes(a, "powerpc".as_bytes()) || find_bytes(a, "ppc".as_bytes()) {
        Some(BadgeType::PowerPCPioneer)
    } else if find_bytes(a, "alpha".as_bytes()) {
        Some(BadgeType::AlphaDreamer)
    } else if find_bytes(a, "sparc".as_bytes()) {
        Some(BadgeType::SunWorshipper)
    } else if find_bytes(a, "mips".as_bytes()) {
        Some(BadgeType::MIPSMaster)
    } else if find_bytes(a, "68k".as_bytes()) || find_bytes(a, "m68k".as_bytes()) {
        Some(BadgeType::Motorolan)
    } else {
        None
    }
}

fn flag_badge(c: bool, b: BadgeType) -> (r: Option<BadgeType>)
    ensures
        opt_seq(r) == badge_if(c, b),
{
    if c {
        Some(b)
    } else {
        None
    }
}

impl BadgeCriteriaChecker {
    fn is_founder(&self, w: &WalletAddress) -> (r: bool)
        ensures
            r == is_flamekeeper(self.flamekeepers@, *w),
    {
        let mut i: usize = 0;
        while i < self.flamekeepers.len()
            invariant
                i <= self.flamekeepers@.len(),
                forall|k: int| 0 <= k < i ==> (#[trigger] self.flamekeepers@[k]).0@ != w.0@,
            decreases self.flamekeepers@.len() - i,
        {
            if self.flamekeepers[i].0 == w.0 {
                return true;
            }
            i = i + 1;
        }
        false
    }

    /// The badges a miner qualifies for.
    pub fn check_all_badges(&self, stats: &MinerStats) -> (r: Vec<BadgeType>)
        ensures
            r@ == earned_badges(*self, *stats),
    {
        let mut earned: Vec<BadgeType> = Vec::new();
        push_section(
            &mut earned,
            flag_badge(stats.first_seen_block < self.genesis_cutoff_block, BadgeType::GenesisMiner),
        );
        push_section(&mut earned, flag_badge(stats.first_seen_block == 0, BadgeType::FirstBlock));
        let founder = self.is_founder(&stats.wallet);
        push_section(&mut earned, flag_badge(founder, BadgeType::Flamekeeper));
        push_section(&mut earned, age_badge(stats.hardware_age_years));
        push_section(&mut earned, flag_badge(stats.hardware_age_years >= 35, BadgeType::MuseumPiece));
        push_section(&mut earned, block_badge(stats.blocks_mined));
        push_section(&mut earned, token_badge(stats.rtc_earned));
        push_section(&mut earned, dedication_badge(stats.consecutive_days));
        push_section(
            &mut earned,
            flag_badge(stats.helped_miners_count >= 10, BadgeType::CommunityBuilder),
        );
        push_section(&mut earned, arch_badge(&stats.architecture));
        earned
    }
}


impl BadgeType {
    /// A copy of this badge kind.
    pub fn duplicate(&self) -> (r: BadgeType)
        ensures
            r == *self,
    {
        match self {
            BadgeType::GenesisMiner => BadgeType::GenesisMiner,
            BadgeType::FirstBlock => BadgeType::FirstBlock,
            BadgeType::Flamekeeper => BadgeType::Flamekeeper,
            BadgeType::AncientSiliconKeeper => BadgeType::AncientSiliconKeeper,
            BadgeType::SacredSiliconGuardian => BadgeType::SacredSiliconGuardian,
            BadgeType::VintageCollector => BadgeType::VintageCollector,
            BadgeType::MuseumPiece => BadgeType::MuseumPiece,
            BadgeType::DialUpWarrior => BadgeType::DialUpWarrior,
            BadgeType::BlockCenturion => BadgeType::BlockCenturion,
            BadgeType::BlockLegion => BadgeType::BlockLegion,
            BadgeType::BlockImmortal => BadgeType::BlockImmortal,
            BadgeType::RTCMillionaire => BadgeType::RTCMillionaire,
            BadgeType::RTCBillionaire => BadgeType::RTCBillionaire,
            BadgeType::DedicationMedal => BadgeType::DedicationMedal,
            BadgeType::YearOfAntiquity => BadgeType::YearOfAntiquity,
            BadgeType::CommunityBuilder => BadgeType::CommunityBuilder,
            BadgeType::Developer => BadgeType::Developer,
            BadgeType::BugHunter => BadgeType::BugHunter,
            BadgeType::HardwareDonor => BadgeType::HardwareDonor,
            BadgeType::EventParticipant(s) => BadgeType::EventParticipant(s.clone()),
            BadgeType::CompetitionWinner(s) => BadgeType::CompetitionWinner(s.clone()),
            BadgeType::PowerPCPioneer => BadgeType::PowerPCPioneer,
            BadgeType::AlphaDreamer => BadgeType::AlphaDreamer,
            BadgeType::SunWorshipper => BadgeType::SunWorshipper,
            BadgeType::MIPSMaster => BadgeType::MIPSMaster,
            BadgeType::ARMedAndDangerous => BadgeType::ARMedAndDangerous,
            BadgeType::Motorolan => BadgeType::Motorolan,
        }
    }
}

/// A badge already minted to a wallet.
#[derive(Debug, Clone)]
pub struct MintRecord {
    pub owner: WalletAddress,
    pub badge_type: BadgeType,
    pub id: BadgeId,
}

/// Whether a record is of the given badge and owner.
pub open spec fn record_matches(m: MintRecord, b: BadgeType, owner: WalletAddress) -> bool {
    same_badge(m.badge_type, b) && m.owner.0@ == owner.0@
}

/// The first record of the given badge and owner.
pub open spec fn find_record(ms: Seq<MintRecord>, b: BadgeType, owner: WalletAddress) -> Option<
    MintRecord,
>
    decreases ms.len(),
{
    if ms.len() == 0 {
        None
    } else if record_matches(ms[0], b, owner) {
        Some(ms[0])
    } else {
        find_record(ms.drop_first(), b, owner)
    }
}

/// The bytes hashed into a badge's on-chain hash: `id:owner:tag:block`, the
/// block in decimal.
pub open spec fn badge_hash_preimage(id: Seq<char>, owner: Seq<char>, b: BadgeType, block: u64) -> Seq<
    u8,
> {
    encode_utf8(id) + seq![58u8] + encode_utf8(owner) + seq![58u8] + encode_utf8(badge_tag(b))
        + seq![58u8] + decimal_of(block as nat)
}

/// Mints badges, at most one of each kind per wallet.
#[derive(Debug)]
pub struct BadgeMinter {
    minted_badges: Vec<MintRecord>,
    checker: BadgeCriteriaChecker,
}

impl BadgeMinter {
    /// The badges minted so far, in order.
    pub closed spec fn minted(&self) -> Seq<MintRecord> {
        self.minted_badges@
    }

    /// The criteria the minter awards by.
    pub closed spec fn criteria(&self) -> BadgeCriteriaChecker {
        self.checker
    }

    /// A minter that has minted nothing, with the standard criteria.
    pub fn new() -> (r: Self)
        ensures
            r.minted().len() == 0,
            r.criteria().genesis_cutoff_block == 100,
            r.criteria().flamekeepers@.len() == 4,
    {
        BadgeMinter { minted_badges: Vec::new(), checker: BadgeCriteriaChecker::new() }
    }

    fn find_minted(&self, b: &BadgeType, owner: &WalletAddress) -> (r: Option<usize>)
        ensures
            match find_record(self.minted(), *b, *owner) {
                Some(m) => r matches Some(i) && i < self.minted().len() && self.minted()[i as int]
                    == m,
                None => r is None,
            },
    {
        let ms = &self.minted_badges;
        let mut i: usize = 0;
        proof {
            assert(ms@.subrange(0, ms@.len() as int) == ms@);
        }
        while i < ms.len()
            invariant
                ms == &self.minted_badges,
                i <= ms@.len(),
                find_record(ms@, *b, *owner) == find_record(
                    ms@.subrange(i as int, ms@.len() as int),
                    *b,
                    *owner,
                ),
            decreases ms@.len() - i,
        {
            let ghost rest = ms@.subrange(i as int, ms@.len() as int);
            if ms[i].badge_type.same_as(b) && ms[i].owner.0 == owner.0 {
                return Some(i);
            }
            proof {
                assert(rest.drop_first() == ms@.subrange(i + 1, ms@.len() as int));
            }
            i = i + 1;
        }
        None
    }

    /// Mints a badge of the given kind to `owner`, unless that wallet already
    /// holds one.
    pub fn mint_badge(&mut self, badge_type: BadgeType, owner: WalletAddress, block: u64, timestamp: u64) -> (r:
        Result<Badge, MintError>)
        ensures
            match find_record(old(self).minted(), badge_type, owner) {
                Some(m) => r is Err && r->Err_0 is AlreadyMinted && r->Err_0->AlreadyMinted_0.0@
                    == m.id.0@ && final(self).minted() == old(self).minted(),
                None => {
                    &&& r is Ok
                    &&& r->Ok_0.id.0@ == badge_id_of(badge_type, owner.0@, block)
                    &&& r->Ok_0.badge_type == badge_type
                    &&& r->Ok_0.owner == owner
                    &&& r->Ok_0.earned_block == block
                    &&& r->Ok_0.earned_timestamp == timestamp
                    &&& r->Ok_0.badge_hash@ == sha256_of(
                        badge_hash_preimage(r->Ok_0.id.0@, owner.0@, badge_type, block),
                    )
                    &&& r->Ok_0.ipfs_hash is None
                    &&& final(self).minted().len() == old(self).minted().len() + 1
                    &&& final(self).minted().drop_last() == old(self).minted()
                    &&& record_matches(final(self).minted().last(), badge_type, owner)
                    &&& final(self).minted().last().id.0@ == r->Ok_0.id.0@
                },
            },
            final(self).criteria() == old(self).criteria(),
    {
        match self.find_minted(&badge_type, &owner) {
            Some(i) => {
                let existing = BadgeId(self.minted_badges[i].id.0.clone());
                return Err(MintError::AlreadyMinted(existing));
            },
            None => {},
        }
        let id = BadgeId::generate(&badge_type, &owner, block);
        let mut data: Vec<u8> = Vec::new();
        append_bytes(&mut data, id.0.as_str().as_bytes());
        data.push(58u8);
        append_bytes(&mut data, owner.0.as_str().as_bytes());
        data.push(58u8);
        let tag = badge_type.tag();
        append_bytes(&mut data, tag.as_str().as_bytes());
        data.push(58u8);
        let block_text = decimal_bytes(block);
        append_bytes(&mut data, block_text.as_slice());
        proof {
            assert(data@ =~= badge_hash_preimage(id.0@, owner.0@, badge_type, block));
        }
        let badge_hash = sha256(data.as_slice());
        let record = MintRecord {
            owner: WalletAddress(owner.0.clone()),
            badge_type: badge_type.duplicate(),
            id: BadgeId(id.0.clone()),
        };
        proof {
            assert(same_badge(badge_type, badge_type));
        }
        self.minted_badges.push(record);
        proof {
            assert(self.minted_badges@.drop_last() =~= old(self).minted_badges@);
        }
        Ok(
            Badge {
                id,
                badge_type,
                owner,
                earned_block: block,
                earned_timestamp: timestamp,
                badge_hash,
                ipfs_hash: None,
                metadata: BadgeMetadata {
                    hardware_model: None,
                    hardware_age: None,
                    achievement_data: Vec::new(),
                    svg_data: None,
                },
            },
        )
    }

    /// Mints every badge the miner qualifies for and does not hold yet, in the
    /// order of `check_all_badges`.
    pub fn process_miner(&mut self, stats: &MinerStats, block: u64, timestamp: u64) -> (r: Vec<Badge>)
        ensures
            r@.len() <= earned_badges(old(self).criteria(), *stats).len(),
            forall|i: int| 0 <= i < r@.len() ==> (#[trigger] r@[i]).owner.0@ == stats.wallet.0@
                && r@[i].earned_block == block && r@[i].earned_timestamp == timestamp,
            final(self).criteria() == old(self).criteria(),
    {
        let eligible = self.checker.check_all_badges(stats);
        let mut minted: Vec<Badge> = Vec::new();
        let mut i: usize = 0;
        while i < eligible.len()
            invariant
                eligible@ == earned_badges(old(self).criteria(), *stats),
                self.criteria() == old(self).criteria(),
                i <= eligible@.len(),
                minted@.len() <= i,
                forall|k: int| 0 <= k < minted@.len() ==> (#[trigger] minted@[k]).owner.0@
                    == stats.wallet.0@ && minted@[k].earned_block == block
                    && minted@[k].earned_timestamp == timestamp,
            decreases eligible@.len() - i,
        {
            let b = eligible[i].duplicate();
            match self.mint_badge(b, WalletAddress(stats.wallet.0.clone()), block, timestamp) {
                Ok(badge) => minted.push(badge),
                Err(_) => {},
            }
            i = i + 1;
        }
        minted
    }
}


/// `n` stars.
pub open spec fn stars_text(n: nat) -> Seq<char>
    decreases n,
{
    if n == 0 {
        Seq::empty()
    } else {
        stars_text((n - 1) as nat) + "\u{2b50}"@
    }
}

/// The SVG image of a badge: its tier's color, its icon, name and
/// description, one star per tier star and its id.
pub open spec fn badge_svg(b: Badge) -> Seq<char> {
    "<?xml version=\"1.0\" encoding=\"UTF-8\"?>\n<svg width=\"300\" height=\"350\" xmlns=\"http://www.w3.org/2000/svg\">\n  <defs>\n    <linearGradient id=\"grad1\" x1=\"0%\" y1=\"0%\" x2=\"0%\" y2=\"100%\">\n      <stop offset=\"0%\" style=\"stop-color:"@ + tier_color(badge_tier(b.badge_type)) + ";stop-opacity:1\" />\n      <stop offset=\"100%\" style=\"stop-color:"@ + tier_color(badge_tier(b.badge_type)) + ";stop-opacity:0.7\" />\n    </linearGradient>\n  </defs>\n\n  <!-- Badge background -->\n  <rect x=\"10\" y=\"10\" width=\"280\" height=\"330\" rx=\"20\" ry=\"20\"\n        fill=\"url(#grad1)\" stroke=\""@ + tier_color(badge_tier(b.badge_type)) + "\" stroke-width=\"4\"/>\n\n  <!-- Inner frame -->\n  <rect x=\"20\" y=\"20\" width=\"260\" height=\"310\" rx=\"15\" ry=\"15\"\n        fill=\"none\" stroke=\"#FFFFFF\" stroke-width=\"2\" opacity=\"0.5\"/>\n\n  <!-- Icon background -->\n  <circle cx=\"150\" cy=\"100\" r=\"60\" fill=\"#FFFFFF\" opacity=\"0.2\"/>\n\n  <!-- Icon -->\n  <text x=\"150\" y=\"120\" font-family=\"Arial\" font-size=\"60\" text-anchor=\"middle\" fill=\"#FFFFFF\">\n    "@ + badge_icon(b.badge_type) + "\n  </text>\n\n  <!-- Badge name -->\n  <text x=\"150\" y=\"200\" font-family=\"Arial Black\" font-size=\"18\" text-anchor=\"middle\" fill=\"#FFFFFF\">\n    "@ + badge_name(b.badge_type) + "\n  </text>\n\n  <!-- Description -->\n  <text x=\"150\" y=\"240\" font-family=\"Arial\" font-size=\"12\" text-anchor=\"middle\" fill=\"#FFFFFF\" opacity=\"0.9\">\n    "@ + badge_description(b.badge_type) + "\n  </text>\n\n  <!-- Stars -->\n  <text x=\"150\" y=\"290\" font-family=\"Arial\" font-size=\"24\" text-anchor=\"middle\" fill=\"#FFD700\">\n    "@ + stars_text(tier_stars(badge_tier(b.badge_type)) as nat) + "\n  </text>\n\n  <!-- Badge ID -->\n  <text x=\"150\" y=\"320\" font-family=\"monospace\" font-size=\"10\" text-anchor=\"middle\" fill=\"#FFFFFF\" opacity=\"0.6\">\n    "@ + b.id.0@ + "\n  </text>\n</svg>"@
}

/// Draws badges as SVG images.
#[derive(Debug)]
pub struct BadgeSvgGenerator;

fn star_line(n: u8) -> (r: String)
    ensures
        r@ == stars_text(n as nat),
{
    let mut s = String::new();
    let mut i: u8 = 0;
    while i < n
        invariant
            i <= n,
            s@ == stars_text(i as nat),
        decreases n - i,
    {
        s.append("\u{2b50}");
        i = i + 1;
    }
    s
}

impl BadgeSvgGenerator {
    /// The SVG image of a badge.
    pub fn generate(badge: &Badge) -> (r: String)
        ensures
            r@ == badge_svg(*badge),
    {
        let tier = badge.badge_type.tier();
        let color = tier.color();
        let stars = star_line(tier.stars());
        let icon = badge.badge_type.icon();
        let name = badge.badge_type.name();
        let description = badge.badge_type.description();
        let mut svg = String::from_str("<?xml version=\"1.0\" encoding=\"UTF-8\"?>\n<svg width=\"300\" height=\"350\" xmlns=\"http://www.w3.org/2000/svg\">\n  <defs>\n    <linearGradient id=\"grad1\" x1=\"0%\" y1=\"0%\" x2=\"0%\" y2=\"100%\">\n      <stop offset=\"0%\" style=\"stop-color:");
        svg.append(color);
        svg.append(";stop-opacity:1\" />\n      <stop offset=\"100%\" style=\"stop-color:");
        svg.append(color);
        svg.append(";stop-opacity:0.7\" />\n    </linearGradient>\n  </defs>\n\n  <!-- Badge background -->\n  <rect x=\"10\" y=\"10\" width=\"280\" height=\"330\" rx=\"20\" ry=\"20\"\n        fill=\"url(#grad1)\" stroke=\"");
        svg.append(color);
        svg.append("\" stroke-width=\"4\"/>\n\n  <!-- Inner frame -->\n  <rect x=\"20\" y=\"20\" width=\"260\" height=\"310\" rx=\"15\" ry=\"15\"\n        fill=\"none\" stroke=\"#FFFFFF\" stroke-width=\"2\" opacity=\"0.5\"/>\n\n  <!-- Icon background -->\n  <circle cx=\"150\" cy=\"100\" r=\"60\" fill=\"#FFFFFF\" opacity=\"0.2\"/>\n\n  <!-- Icon -->\n  <text x=\"150\" y=\"120\" font-family=\"Arial\" font-size=\"60\" text-anchor=\"middle\" fill=\"#FFFFFF\">\n    ");
        svg.append(icon);
        svg.append("\n  </text>\n\n  <!-- Badge name -->\n  <text x=\"150\" y=\"200\" font-family=\"Arial Black\" font-size=\"18\" text-anchor=\"middle\" fill=\"#FFFFFF\">\n    ");
        svg.append(name.as_str());
        svg.append("\n  </text>\n\n  <!-- Description -->\n  <text x=\"150\" y=\"240\" font-family=\"Arial\" font-size=\"12\" text-anchor=\"middle\" fill=\"#FFFFFF\" opacity=\"0.9\">\n    ");
        svg.append(description.as_str());
        svg.append("\n  </text>\n\n  <!-- Stars -->\n  <text x=\"150\" y=\"290\" font-family=\"Arial\" font-size=\"24\" text-anchor=\"middle\" fill=\"#FFD700\">\n    ");
        svg.append(stars.as_str());
        svg.append("\n  </text>\n\n  <!-- Badge ID -->\n  <text x=\"150\" y=\"320\" font-family=\"monospace\" font-size=\"10\" text-anchor=\"middle\" fill=\"#FFFFFF\" opacity=\"0.6\">\n    ");
        svg.append(badge.id.0.as_str());
        svg.append("\n  </text>\n</svg>");
        proof {
            assert(svg@ =~= badge_svg(*badge));
        }
        svg
    }
}

} // verus!
