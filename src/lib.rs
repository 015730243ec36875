//! Proof-of-antiquity consensus: hardware tiers, proof intake and block
//! sealing, the anti-emulation verifiers that score hardware authenticity, and
//! the network, badge, governance and bridge layers around them.
pub mod core_types;
pub mod deep_entropy;
pub mod ergo_bridge;
pub mod governance;
pub mod hashing;
pub mod merkle;
pub mod network;
pub mod nft_badges;
pub mod proof_of_antiquity;
pub mod rewards;

pub use core_types::{
    Block, BlockHash, BlockMiner, CacheSizes, HardwareCharacteristics, HardwareInfo, HardwareTier,
    MiningProof, TokenAmount, Transaction, TransactionType, TxHash, WalletAddress,
    BLOCK_TIME_SECONDS, CHAIN_ID, TOTAL_SUPPLY,
};
pub use deep_entropy::{Challenge, DeepEntropyVerifier, EntropyProof, EntropyScores, VerificationResult};
pub use network::{
    Message, NetworkManager, NodeCapabilities, PeerId, PeerInfo, DEFAULT_PORT, MTLS_PORT,
    PROTOCOL_VERSION,
};
pub use nft_badges::{Badge, BadgeCriteriaChecker, BadgeId, BadgeMinter, BadgeTier, BadgeType, MinerStats};
pub use proof_of_antiquity::{
    BlockStatus, ProofError, ProofOfAntiquity, SubmitResult, ValidatedProof, BLOCK_REWARD,
};
