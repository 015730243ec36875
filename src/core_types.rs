//! The chain's shared data: hardware tiers, wallets, hashes, proofs, blocks and
//! token amounts.
use vstd::prelude::*;
use vstd::string::*;
use vstd::utf8::encode_utf8;
use crate::hashing::{append_bytes, hex_encode, hex_of, sha256, sha256_of};

verus! {

/// Total supply of tokens: 2^23 whole tokens.
pub const TOTAL_SUPPLY: u64 = 8_388_608;

/// Length of a block window in seconds.
pub const BLOCK_TIME_SECONDS: u64 = 120;

/// Chain id of the main network.
pub const CHAIN_ID: u64 = 2718;

/// Multipliers are fixed-point numbers in hundredths: 350 stands for 3.5x.
pub const MULTIPLIER_SCALE: u32 = 100;

/// Hardware tiers by age, oldest first.
#[derive(Debug, Clone, Copy, PartialEq, Eq, Structural)]
pub enum HardwareTier {
    /// 30 years and older (3.5x).
    Ancient,
    /// 25 to 29 years (3.0x).
    Sacred,
    /// 20 to 24 years (2.5x).
    Vintage,
    /// 15 to 19 years (2.0x).
    Classic,
    /// 10 to 14 years (1.5x).
    Retro,
    /// 5 to 9 years (1.0x).
    Modern,
    /// 0 to 4 years (0.5x).
    Recent,
}

/// The tier of hardware that is `years` old: half-open bins of five years,
/// each boundary belonging to the older tier.
pub open spec fn tier_of(years: int) -> HardwareTier {
    if years >= 30 {
        HardwareTier::Ancient
    } else if years >= 25 {
        HardwareTier::Sacred
    } else if years >= 20 {
        HardwareTier::Vintage
    } else if years >= 15 {
        HardwareTier::Classic
    } else if years >= 10 {
        HardwareTier::Retro
    } else if years >= 5 {
        HardwareTier::Modern
    } else {
        HardwareTier::Recent
    }
}

/// The reward multiplier of a tier, in hundredths.
pub open spec fn multiplier_of(t: HardwareTier) -> nat {
    match t {
        HardwareTier::Ancient => 350,
        HardwareTier::Sacred => 300,
        HardwareTier::Vintage => 250,
        HardwareTier::Classic => 200,
        HardwareTier::Retro => 150,
        HardwareTier::Modern => 100,
        HardwareTier::Recent => 50,
    }
}

/// The display name of a tier.
pub open spec fn tier_name(t: HardwareTier) -> Seq<char> {
    match t {
        HardwareTier::Ancient => "Ancient Silicon"@,
        HardwareTier::Sacred => "Sacred Silicon"@,
        HardwareTier::Vintage => "Vintage Era"@,
        HardwareTier::Classic => "Classic Era"@,
        HardwareTier::Retro => "Retro Tech"@,
        HardwareTier::Modern => "Modern Hardware"@,
        HardwareTier::Recent => "Recent Hardware"@,
    }
}

impl HardwareTier {
    /// The mining multiplier of this tier, in hundredths.
    pub fn multiplier(&self) -> (r: u32)
        ensures
            r == multiplier_of(*self),
    {
        match self {
            HardwareTier::Ancient => 350,
            HardwareTier::Sacred => 300,
            HardwareTier::Vintage => 250,
            HardwareTier::Classic => 200,
            HardwareTier::Retro => 150,
            HardwareTier::Modern => 100,
            HardwareTier::Recent => 50,
        }
    }

    /// The tier of hardware that is `years` old.
    pub fn from_age(years: u32) -> (r: Self)
        ensures
            r == tier_of(years as int),
    {
        if years >= 30 {
            HardwareTier::Ancient
        } else if years >= 25 {
            HardwareTier::Sacred
        } else if years >= 20 {
            HardwareTier::Vintage
        } else if years >= 15 {
            HardwareTier::Classic
        } else if years >= 10 {
            HardwareTier::Retro
        } else if years >= 5 {
            HardwareTier::Modern
        } else {
            HardwareTier::Recent
        }
    }

    /// The display name of this tier.
    pub fn name(&self) -> (r: &'static str)
        ensures
            r@ == tier_name(*self),
    {
        match self {
            HardwareTier::Ancient => "Ancient Silicon",
            HardwareTier::Sacred => "Sacred Silicon",
            HardwareTier::Vintage => "Vintage Era",
            HardwareTier::Classic => "Classic Era",
            HardwareTier::Retro => "Retro Tech",
            HardwareTier::Modern => "Modern Hardware",
            HardwareTier::Recent => "Recent Hardware",
        }
    }
}

/// A wallet address.
#[derive(Debug, Clone, PartialEq, Eq, Hash)]
pub struct WalletAddress(pub String);

/// A well-formed address: its UTF-8 form starts with `RTC` and is at least 20
/// bytes long.
pub open spec fn wallet_is_valid(s: Seq<char>) -> bool {
    let b = encode_utf8(s);
    &&& b.len() >= 20
    &&& b[0] == 82u8
    &&& b[1] == 84u8
    &&& b[2] == 67u8
}

/// The address derived from a public key: `RTC` and the hex of the first 20
/// bytes of the key's digest.
pub open spec fn address_of_key(key: Seq<u8>) -> Seq<char> {
    "RTC"@ + hex_of(sha256_of(key).subrange(0, 20))
}

/// Copies the first `n` bytes of a digest.
pub fn digest_prefix(d: &[u8; 32], n: usize) -> (r: Vec<u8>)
    requires
        n <= 32,
    ensures
        r@ == d@.subrange(0, n as int),
{
    let mut v: Vec<u8> = Vec::new();
    let mut i: usize = 0;
    while i < n
        invariant
            i <= n,
            n <= 32,
            d@.len() == 32,
            v@ == d@.subrange(0, i as int),
        decreases n - i,
    {
        v.push(d[i]);
        i = i + 1;
        proof {
            assert(d@.subrange(0, i as int) == d@.subrange(0, i - 1 as int).push(d@[i - 1]));
        }
    }
    v
}

impl WalletAddress {
    /// An address holding the given text.
    pub fn new(address: &str) -> (r: Self)
        ensures
            r.0@ == address@,
    {
        WalletAddress(address.to_owned())
    }

    /// Whether the address has the `RTC` prefix and at least 20 bytes.
    pub fn is_valid(&self) -> (r: bool)
        ensures
            r == wallet_is_valid(self.0@),
    {
        let b = self.0.as_str().as_bytes();
        b.len() >= 20 && b[0] == 82u8 && b[1] == 84u8 && b[2] == 67u8
    }

    /// The address that belongs to a public key.
    pub fn from_public_key(public_key: &[u8]) -> (r: Self)
        ensures
            r.0@ == address_of_key(public_key@),
    {
        let hash = sha256(public_key);
        let prefix = digest_prefix(&hash, 20);
        let hex = hex_encode(prefix.as_slice());
        let text = String::from_str("RTC").concat(hex.as_str());
        WalletAddress(text)
    }
}

/// A 32-byte block hash.
#[derive(Debug, Clone, PartialEq, Eq, Hash)]
pub struct BlockHash(pub [u8; 32]);

/// The bytes whose digest is the genesis hash.
pub open spec fn genesis_seed() -> Seq<u8> {
    encode_utf8("RustChain Genesis - Proof of Antiquity"@) + encode_utf8(
        "Every vintage machine has quantum potential"@,
    )
}

impl BlockHash {
    /// A hash holding the given bytes.
    pub fn from_bytes(bytes: [u8; 32]) -> (r: Self)
        ensures
            r.0 == bytes,
    {
        BlockHash(bytes)
    }

    /// Lowercase hex text of the hash.
    pub fn to_hex(&self) -> (r: String)
        ensures
            r@ == hex_of(self.0@),
    {
        hex_encode(&self.0)
    }

    /// The hash of the genesis block.
    pub fn genesis() -> (r: Self)
        ensures
            r.0@ == sha256_of(genesis_seed()),
    {
        let mut seed: Vec<u8> = Vec::new();
        append_bytes(&mut seed, "RustChain Genesis - Proof of Antiquity".as_bytes());
        append_bytes(&mut seed, "Every vintage machine has quantum potential".as_bytes());
        BlockHash(sha256(seed.as_slice()))
    }
}

/// A 32-byte transaction hash.
#[derive(Debug, Clone, PartialEq, Eq, Hash)]
pub struct TxHash(pub [u8; 32]);

/// One measured instruction timing, in cycles.
#[derive(Debug, Clone)]
pub struct InstructionTiming {
    pub instruction: String,
    pub cycles: u64,
}

/// Hardware characteristics reported for the anti-emulation check.
#[derive(Debug, Clone)]
pub struct HardwareCharacteristics {
    /// CPU model string.
    pub cpu_model: String,
    /// CPU family number.
    pub cpu_family: u32,
    /// CPU flags and features.
    pub cpu_flags: Vec<String>,
    /// Cache sizes in KB.
    pub cache_sizes: CacheSizes,
    /// Instruction timing measurements, at most one per instruction.
    pub instruction_timings: Vec<InstructionTiming>,
    /// Unique hardware identifier.
    pub unique_id: String,
}

/// Cache sizes in KB.
#[derive(Debug, Clone, Copy)]
pub struct CacheSizes {
    pub l1_data: u32,
    pub l1_instruction: u32,
    pub l2: u32,
    pub l3: Option<u32>,
}

/// A miner's proof of antiquity.
#[derive(Debug, Clone)]
pub struct MiningProof {
    /// The miner's wallet.
    pub wallet: WalletAddress,
    /// The hardware it mines with.
    pub hardware: HardwareInfo,
    /// Anti-emulation hash.
    pub anti_emulation_hash: [u8; 32],
    /// When the proof was made.
    pub timestamp: u64,
    /// Nonce for uniqueness.
    pub nonce: u64,
}

/// Hardware information for mining.
#[derive(Debug, Clone)]
pub struct HardwareInfo {
    /// Model name.
    pub model: String,
    /// Generation or family.
    pub generation: String,
    /// Age in years.
    pub age_years: u32,
    /// Declared tier.
    pub tier: HardwareTier,
    /// Declared multiplier, in hundredths.
    pub multiplier: u32,
    /// Optional detailed characteristics.
    pub characteristics: Option<HardwareCharacteristics>,
}

/// A multiplier raised by the founder bonus of 10%, rounded down and held at
/// the largest `u32`.
pub open spec fn with_bonus(m: nat) -> nat {
    if m * 110 / 100 > u32::MAX {
        u32::MAX as nat
    } else {
        m * 110 / 100
    }
}

impl HardwareInfo {
    /// Hardware info whose tier and multiplier follow from its age.
    pub fn new(model: String, generation: String, age_years: u32) -> (r: Self)
        ensures
            r.model == model,
            r.generation == generation,
            r.age_years == age_years,
            r.tier == tier_of(age_years as int),
            r.multiplier == multiplier_of(r.tier),
            r.characteristics is None,
    {
        let tier = HardwareTier::from_age(age_years);
        HardwareInfo {
            model,
            generation,
            age_years,
            tier,
            multiplier: tier.multiplier(),
            characteristics: None,
        }
    }

    /// The same hardware with the founder bonus applied to its multiplier.
    pub fn with_founder_bonus(self) -> (r: Self)
        ensures
            r.multiplier == with_bonus(self.multiplier as nat),
            r.model == self.model,
            r.generation == self.generation,
            r.age_years == self.age_years,
            r.tier == self.tier,
            r.characteristics == self.characteristics,
    {
        let raised: u64 = self.multiplier as u64 * 110 / 100;
        let m: u32 = if raised > u32::MAX as u64 {
            u32::MAX
        } else {
            raised as u32
        };
        HardwareInfo { multiplier: m, ..self }
    }
}

/// A sealed block.
#[derive(Debug, Clone)]
pub struct Block {
    /// Height (0 is the genesis block).
    pub height: u64,
    /// The block's hash.
    pub hash: BlockHash,
    /// The previous block's hash.
    pub previous_hash: BlockHash,
    /// When the block was sealed.
    pub timestamp: u64,
    /// The miners rewarded in this block, in order of submission.
    pub miners: Vec<BlockMiner>,
    /// Total reward handed out.
    pub total_reward: u64,
    /// Merkle root over the miner entries.
    pub merkle_root: [u8; 32],
    /// State root (all zero).
    pub state_root: [u8; 32],
}

/// A miner's entry in a block.
#[derive(Debug, Clone)]
pub struct BlockMiner {
    /// Wallet address.
    pub wallet: WalletAddress,
    /// Hardware model.
    pub hardware: String,
    /// Multiplier earned, in hundredths.
    pub multiplier: u32,
    /// Reward earned, in smallest units.
    pub reward: u64,
}

/// A token amount in smallest units (eight decimals).
#[derive(Debug, Clone, Copy, PartialEq, Eq, PartialOrd, Ord, Structural)]
pub struct TokenAmount(pub u64);

/// One whole token in smallest units.
pub const ONE_RTC: u64 = 100_000_000;

impl TokenAmount {
    /// Sum of two amounts, or `None` on overflow.
    pub fn checked_add(self, other: Self) -> (r: Option<Self>)
        ensures
            self.0 + other.0 <= u64::MAX ==> r == Some(TokenAmount((self.0 + other.0) as u64)),
            self.0 + other.0 > u64::MAX ==> r is None,
    {
        match self.0.checked_add(other.0) {
            Some(v) => Some(TokenAmount(v)),
            None => None,
        }
    }

    /// Difference of two amounts, or `None` when `other` is larger.
    pub fn checked_sub(self, other: Self) -> (r: Option<Self>)
        ensures
            other.0 <= self.0 ==> r == Some(TokenAmount((self.0 - other.0) as u64)),
            other.0 > self.0 ==> r is None,
    {
        match self.0.checked_sub(other.0) {
            Some(v) => Some(TokenAmount(v)),
            None => None,
        }
    }
}

/// Transaction kinds.
#[derive(Debug, Clone)]
pub enum TransactionType {
    /// Token transfer.
    Transfer { from: WalletAddress, to: WalletAddress, amount: TokenAmount },
    /// Mining reward.
    MiningReward { miner: WalletAddress, amount: TokenAmount, block_height: u64 },
    /// Badge award.
    BadgeAward { recipient: WalletAddress, badge_type: String, badge_id: String },
    /// Stake of tokens.
    Stake { wallet: WalletAddress, amount: TokenAmount },
}

/// A transaction.
#[derive(Debug, Clone)]
pub struct Transaction {
    /// Transaction hash.
    pub hash: TxHash,
    /// Kind and data.
    pub tx_type: TransactionType,
    /// Timestamp.
    pub timestamp: u64,
    /// Signature.
    pub signature: Vec<u8>,
    /// Fee paid.
    pub fee: TokenAmount,
}

/// Tiers never lose multiplier with age: older hardware earns at least as
/// much as newer hardware.
pub proof fn lemma_tier_multiplier_monotone(newer: int, older: int)
    requires
        0 <= newer <= older,
    ensures
        multiplier_of(tier_of(newer)) <= multiplier_of(tier_of(older)),
{
}

/// The seven tiers partition the ages: each age falls in exactly the half-open
/// bin of its tier, so a boundary age belongs to the older tier.
pub proof fn lemma_tier_bins(years: int)
    requires
        years >= 0,
    ensures
        tier_of(years) == HardwareTier::Ancient <==> 30 <= years,
        tier_of(years) == HardwareTier::Sacred <==> 25 <= years < 30,
        tier_of(years) == HardwareTier::Vintage <==> 20 <= years < 25,
        tier_of(years) == HardwareTier::Classic <==> 15 <= years < 20,
        tier_of(years) == HardwareTier::Retro <==> 10 <= years < 15,
        tier_of(years) == HardwareTier::Modern <==> 5 <= years < 10,
        tier_of(years) == HardwareTier::Recent <==> 0 <= years < 5,
{
}

} // verus!
