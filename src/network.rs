//! Peer bookkeeping of the node network: peer identities, connections and
//! their reputation, block propagation and the REST endpoints.
use vstd::prelude::*;
use vstd::string::*;
use crate::core_types::{
    Block, BlockHash, HardwareInfo, MiningProof, TokenAmount, Transaction, WalletAddress,
};
use crate::hashing::{append_bytes, bytes_equal, hex_encode, hex_of, sha256, sha256_of};
use crate::proof_of_antiquity::current_timestamp;

verus! {

/// Protocol version.
pub const PROTOCOL_VERSION: u32 = 1;

/// Default port of a node.
pub const DEFAULT_PORT: u16 = 8085;

/// mTLS port for vintage hardware.
pub const MTLS_PORT: u16 = 4443;

/// Maximum connected peers.
pub const MAX_PEERS: usize = 50;

/// Seconds without a ping after which a peer is stale.
pub const PEER_TIMEOUT_SECS: u64 = 120;

/// Block propagation timeout in seconds.
pub const BLOCK_PROPAGATION_TIMEOUT_SECS: u64 = 30;

/// Seconds a seen block is remembered.
pub const SEEN_BLOCK_RETENTION_SECS: u64 = 3600;

/// Reputation of a newly connected peer.
pub const INITIAL_REPUTATION: u32 = 50;

/// Highest reputation.
pub const MAX_REPUTATION: u32 = 100;

/// A peer's identity: the digest of its public key.
#[derive(Debug, Clone, Copy, PartialEq, Eq, Hash)]
pub struct PeerId(pub [u8; 32]);

/// The bytes hashed into a peer id.
pub open spec fn peer_id_preimage(public_key: Seq<u8>) -> Seq<u8> {
    vstd::utf8::encode_utf8("rustchain-peer-id:"@) + public_key
}

impl PeerId {
    /// The id of the peer with the given public key.
    pub fn from_public_key(public_key: &[u8]) -> (r: Self)
        ensures
            r.0@ == sha256_of(peer_id_preimage(public_key@)),
    {
        let mut data: Vec<u8> = Vec::new();
        append_bytes(&mut data, "rustchain-peer-id:".as_bytes());
        append_bytes(&mut data, public_key);
        PeerId(sha256(data.as_slice()))
    }

    /// Hex text of the first 16 bytes, for display.
    pub fn to_hex(&self) -> (r: String)
        ensures
            r@ == hex_of(self.0@.subrange(0, 16)),
    {
        let prefix = crate::core_types::digest_prefix(&self.0, 16);
        hex_encode(prefix.as_slice())
    }
}

/// Capabilities a node announces.
#[derive(Debug, Clone, Copy, PartialEq, Eq, Structural)]
pub struct NodeCapabilities {
    pub archive_node: bool,
    pub validator: bool,
    pub mtls_enabled: bool,
    pub miner: bool,
    pub vintage_attestation: bool,
    pub max_block_height: u64,
}

/// The capabilities of a plain validating node.
pub open spec fn default_capabilities() -> NodeCapabilities {
    NodeCapabilities {
        archive_node: false,
        validator: true,
        mtls_enabled: false,
        miner: false,
        vintage_attestation: false,
        max_block_height: 0,
    }
}

impl Default for NodeCapabilities {
    fn default() -> (r: Self)
        ensures
            r == default_capabilities(),
    {
        NodeCapabilities {
            archive_node: false,
            validator: true,
            mtls_enabled: false,
            miner: false,
            vintage_attestation: false,
            max_block_height: 0,
        }
    }
}

/// Hello message of a new connection.
#[derive(Debug, Clone)]
pub struct HelloMessage {
    pub version: u32,
    pub chain_id: u64,
    pub best_block_height: u64,
    pub best_block_hash: BlockHash,
    pub capabilities: NodeCapabilities,
    pub public_key: Vec<u8>,
    pub timestamp: u64,
}

/// Answer to a hello.
#[derive(Debug, Clone)]
pub struct HelloAckMessage {
    pub version: u32,
    pub peer_id: PeerId,
    pub needs_sync: bool,
    pub timestamp: u64,
}

/// Chain information.
#[derive(Debug, Clone)]
pub struct ChainInfoMessage {
    pub chain_id: u64,
    pub block_height: u64,
    pub best_block_hash: BlockHash,
    pub total_minted: TokenAmount,
    pub mining_pool: TokenAmount,
    pub registered_miners: u64,
    pub genesis_hash: BlockHash,
}

/// Request for a range of blocks.
#[derive(Debug, Clone, Copy)]
pub struct GetBlocksRequest {
    pub start_height: u64,
    /// Number of blocks (at most 100).
    pub count: u32,
}

/// Mining status of the block being assembled.
#[derive(Debug, Clone, Copy)]
pub struct MiningStatusMessage {
    pub current_block_height: u64,
    pub pending_proofs: u32,
    /// Sum of the pending multipliers, in hundredths.
    pub total_multipliers: u64,
    pub time_remaining_secs: u64,
    pub accepting_proofs: bool,
}

/// What a node knows of a peer.
#[derive(Debug, Clone)]
pub struct PeerInfo {
    pub peer_id: PeerId,
    pub address: String,
    pub port: u16,
    pub capabilities: NodeCapabilities,
    pub last_seen: u64,
    pub is_vintage: bool,
}

/// Attestation from vintage hardware over mTLS.
#[derive(Debug, Clone)]
pub struct VintageAttestationMessage {
    pub wallet: WalletAddress,
    pub hardware: HardwareInfo,
    pub cert_hash: [u8; 32],
    pub anti_emulation_hash: [u8; 32],
    pub entropy_data: Vec<u8>,
    pub timestamp: u64,
    pub signature: Vec<u8>,
}

/// Challenge for vintage hardware.
#[derive(Debug, Clone)]
pub struct VintageChallengeMessage {
    pub nonce: [u8; 32],
    pub operations: Vec<u8>,
    /// Expected timing range in microseconds: lower and upper bound.
    pub expected_timing_min: u64,
    pub expected_timing_max: u64,
    pub expires_at: u64,
}

/// Answer to a vintage challenge.
#[derive(Debug, Clone)]
pub struct VintageChallengeResponseMessage {
    pub challenge_nonce: [u8; 32],
    pub response: [u8; 32],
    pub computation_time_us: u64,
    pub entropy_samples: Vec<u8>,
}

/// Protocol messages.
#[derive(Debug, Clone)]
pub enum Message {
    Hello(HelloMessage),
    HelloAck(HelloAckMessage),
    Ping(u64),
    Pong(u64),
    Goodbye(String),
    GetChainInfo,
    ChainInfo(ChainInfoMessage),
    GetBlocks(GetBlocksRequest),
    Blocks(Vec<Block>),
    GetBlockByHash(BlockHash),
    BlockResponse(Option<Block>),
    NewTransaction(Transaction),
    GetPendingTransactions,
    PendingTransactions(Vec<Transaction>),
    NewMiningProof(MiningProof),
    GetMiningStatus,
    MiningStatus(MiningStatusMessage),
    NewBlock(Block),
    GetPeers,
    Peers(Vec<PeerInfo>),
    AnnouncePeer(PeerInfo),
    VintageAttestation(VintageAttestationMessage),
    VintageChallenge(VintageChallengeMessage),
    VintageChallengeResponse(VintageChallengeResponseMessage),
}

/// Network errors.
#[derive(Debug)]
pub enum NetworkError {
    ConnectionFailed(String),
    Timeout,
    InvalidMessage(String),
    ProtocolMismatch { expected: u32, got: u32 },
    ChainMismatch { expected: u64, got: u64 },
    PeerBanned(PeerId),
    TooManyPeers,
    InvalidSignature,
}

/// State of a connection.
#[derive(Debug, Clone, Copy, PartialEq, Eq, Structural)]
pub enum ConnectionState {
    Connecting,
    Connected,
    Syncing,
    Ready,
    Disconnecting,
    Disconnected,
}

/// A connected peer.
#[derive(Debug)]
pub struct PeerState {
    pub info: PeerInfo,
    pub state: ConnectionState,
    /// When the peer was last heard from, in seconds.
    pub last_ping: u64,
    pub pending_requests: Vec<u64>,
    /// Reputation from 0 to 100.
    pub reputation: u32,
    pub messages_sent: u64,
    pub messages_received: u64,
}

/// A known peer address.
#[derive(Debug, Clone)]
pub struct PeerAddress {
    pub address: String,
    pub port: u16,
}

/// Whether a peer state belongs to the peer `id`.
pub open spec fn is_peer(p: PeerState, id: Seq<u8>) -> bool {
    p.info.peer_id.0@ == id
}

/// The peers other than `id`, in order.
pub open spec fn without_peer(ps: Seq<PeerState>, id: Seq<u8>) -> Seq<PeerState> {
    ps.filter(|p: PeerState| !is_peer(p, id))
}

/// Whether the peer `id` is among `ps`.
pub open spec fn has_peer(ps: Seq<PeerState>, id: Seq<u8>) -> bool {
    exists|i: int| 0 <= i < ps.len() && is_peer(#[trigger] ps[i], id)
}

/// Whether `id` is among the banned ids.
pub open spec fn is_banned(bs: Seq<PeerId>, id: Seq<u8>) -> bool {
    exists|i: int| 0 <= i < bs.len() && (#[trigger] bs[i]).0@ == id
}

/// Whether a peer has not pinged for longer than the timeout at time `now`.
pub open spec fn is_stale(p: PeerState, now: u64) -> bool {
    now > p.last_ping && now - p.last_ping > PEER_TIMEOUT_SECS
}

/// The peers that are not stale at time `now`, in order.
pub open spec fn live_peers(ps: Seq<PeerState>, now: u64) -> Seq<PeerState> {
    ps.filter(|p: PeerState| !is_stale(p, now))
}

/// The ids of the ready peers other than `exclude`, in order.
pub open spec fn broadcast_ids(ps: Seq<PeerState>, exclude: Option<Seq<u8>>) -> Seq<PeerId>
    decreases ps.len(),
{
    if ps.len() == 0 {
        Seq::empty()
    } else {
        let rest = broadcast_ids(ps.drop_last(), exclude);
        let p = ps.last();
        if p.state == ConnectionState::Ready && !(exclude is Some && is_peer(p, exclude->0)) {
            rest.push(p.info.peer_id)
        } else {
            rest
        }
    }
}

/// Reputation moved by `delta` and held within 0 to 100.
pub open spec fn clamped_reputation(rep: int, delta: int) -> int {
    if rep + delta < 0 {
        0
    } else if rep + delta > MAX_REPUTATION {
        MAX_REPUTATION as int
    } else {
        rep + delta
    }
}

/// The network manager: connected peers, known addresses and banned ids.
#[derive(Debug)]
pub struct NetworkManager {
    pub local_peer_id: PeerId,
    pub capabilities: NodeCapabilities,
    /// Connected peers, one state per id.
    pub peers: Vec<PeerState>,
    /// Known peer addresses, without repetition.
    pub known_peers: Vec<PeerAddress>,
    /// Banned peer ids.
    pub banned_peers: Vec<PeerId>,
    /// The last message id handed out.
    pub message_id_counter: u64,
}

/// Copies the peer states whose ids differ from `id`, in order.
fn retain_other_peers(ps: Vec<PeerState>, id: &PeerId) -> (r: Vec<PeerState>)
    ensures
        r@ == without_peer(ps@, id.0@),
{
    let ghost orig = ps@;
    let mut out: Vec<PeerState> = Vec::new();
    let mut rest = ps;
    let n = rest.len();
    let mut i: usize = 0;
    proof {
        assert(orig.take(0) =~= Seq::<PeerState>::empty());
        reveal(Seq::filter);
    }
    while rest.len() > 0
        invariant
            i + rest@.len() == n,
            n == orig.len(),
            rest@ == orig.subrange(i as int, n as int),
            out@ == orig.take(i as int).filter(|p: PeerState| !is_peer(p, id.0@)),
        decreases rest@.len(),
    {
        let p = rest.remove(0);
        proof {
            assert(p == orig[i as int]);
            assert(orig.take(i + 1) == orig.take(i as int).push(p));
            orig.take(i as int).lemma_filter_push(p, |p: PeerState| !is_peer(p, id.0@));
        }
        if !bytes_equal(&p.info.peer_id.0, &id.0) {
            out.push(p);
        }
        i = i + 1;
    }
    proof {
        assert(orig.take(n as int) == orig);
    }
    out
}

} // verus!

verus! {

/// Whether a peer state is a fresh connection to `info` made at `now`.
pub open spec fn fresh_peer(p: PeerState, info: PeerInfo, now: u64) -> bool {
    &&& p.info == info
    &&& p.state == ConnectionState::Connected
    &&& p.last_ping == now
    &&& p.pending_requests@.len() == 0
    &&& p.reputation == INITIAL_REPUTATION
    &&& p.messages_sent == 0
    &&& p.messages_received == 0
}

/// Whether an address is among the known ones.
pub open spec fn has_address(ks: Seq<PeerAddress>, address: Seq<char>, port: u16) -> bool {
    exists|i: int| 0 <= i < ks.len() && (#[trigger] ks[i]).address@ == address && ks[i].port == port
}

/// The known addresses with `a` added unless already there.
pub open spec fn with_address(ks: Seq<PeerAddress>, a: PeerAddress) -> Seq<PeerAddress> {
    if has_address(ks, a.address@, a.port) {
        ks
    } else {
        ks.push(a)
    }
}

/// The banned ids with `id` added unless already there.
pub open spec fn with_ban(bs: Seq<PeerId>, id: PeerId) -> Seq<PeerId> {
    if is_banned(bs, id.0@) {
        bs
    } else {
        bs.push(id)
    }
}

/// The index of the first state of peer `id`.
pub open spec fn first_peer_index(ps: Seq<PeerState>, id: Seq<u8>, i: int) -> bool {
    &&& 0 <= i < ps.len()
    &&& is_peer(ps[i], id)
    &&& forall|j: int| 0 <= j < i ==> !is_peer(#[trigger] ps[j], id)
}

/// The infos of the ready peers, in order.
pub open spec fn ready_infos(ps: Seq<PeerState>) -> Seq<PeerInfo>
    decreases ps.len(),
{
    if ps.len() == 0 {
        Seq::empty()
    } else if ps.last().state == ConnectionState::Ready {
        ready_infos(ps.drop_last()).push(ps.last().info)
    } else {
        ready_infos(ps.drop_last())
    }
}

fn copy_info(p: &PeerInfo) -> (r: PeerInfo)
    ensures
        r == *p,
{
    PeerInfo {
        peer_id: p.peer_id,
        address: p.address.clone(),
        port: p.port,
        capabilities: p.capabilities,
        last_seen: p.last_seen,
        is_vintage: p.is_vintage,
    }
}

fn add_known(ks: &mut Vec<PeerAddress>, a: PeerAddress)
    ensures
        final(ks)@ == with_address(old(ks)@, a),
{
    let mut i: usize = 0;
    while i < ks.len()
        invariant
            i <= ks@.len(),
            forall|k: int|
                0 <= k < i ==> !((#[trigger] ks@[k]).address@ == a.address@ && ks@[k].port
                    == a.port),
        decreases ks@.len() - i,
    {
        if ks[i].address == a.address && ks[i].port == a.port {
            return;
        }
        i = i + 1;
    }
    ks.push(a);
}

fn retain_live_peers(ps: Vec<PeerState>, now: u64) -> (r: Vec<PeerState>)
    ensures
        r@ == live_peers(ps@, now),
{
    let ghost orig = ps@;
    let mut out: Vec<PeerState> = Vec::new();
    let mut rest = ps;
    let n = rest.len();
    let mut i: usize = 0;
    proof {
        assert(orig.take(0) =~= Seq::<PeerState>::empty());
        reveal(Seq::filter);
    }
    while rest.len() > 0
        invariant
            i + rest@.len() == n,
            n == orig.len(),
            rest@ == orig.subrange(i as int, n as int),
            out@ == orig.take(i as int).filter(|p: PeerState| !is_stale(p, now)),
        decreases rest@.len(),
    {
        let p = rest.remove(0);
        proof {
            assert(p == orig[i as int]);
            assert(orig.take(i + 1) == orig.take(i as int).push(p));
            orig.take(i as int).lemma_filter_push(p, |p: PeerState| !is_stale(p, now));
        }
        if !(now > p.last_ping && now - p.last_ping > PEER_TIMEOUT_SECS) {
            out.push(p);
        }
        i = i + 1;
    }
    proof {
        assert(orig.take(n as int) == orig);
    }
    out
}

impl NetworkManager {
    /// A manager for the node with the given key, with no peers yet.
    pub fn new(public_key: &[u8], capabilities: NodeCapabilities) -> (r: Self)
        ensures
            r.local_peer_id.0@ == sha256_of(peer_id_preimage(public_key@)),
            r.capabilities == capabilities,
            r.peers@.len() == 0,
            r.known_peers@.len() == 0,
            r.banned_peers@.len() == 0,
            r.message_id_counter == 0,
    {
        NetworkManager {
            local_peer_id: PeerId::from_public_key(public_key),
            capabilities,
            peers: Vec::new(),
            known_peers: Vec::new(),
            banned_peers: Vec::new(),
            message_id_counter: 0,
        }
    }

    /// How connecting `info` at `now` relates the manager before and after.
    pub open spec fn add_peer_post(
        &self,
        post: Self,
        info: PeerInfo,
        now: u64,
        r: Result<(), NetworkError>,
    ) -> bool {
        if self.peers@.len() >= MAX_PEERS {
            r matches Err(NetworkError::TooManyPeers) && post == *self
        } else if is_banned(self.banned_peers@, info.peer_id.0@) {
            r matches Err(NetworkError::PeerBanned(b)) && b == info.peer_id && post == *self
        } else {
            &&& r is Ok
            &&& post.peers@.len() > 0
            &&& post.peers@ == without_peer(self.peers@, info.peer_id.0@).push(post.peers@.last())
            &&& fresh_peer(post.peers@.last(), info, now)
            &&& post.known_peers@ == with_address(
                self.known_peers@,
                PeerAddress { address: info.address, port: info.port },
            )
            &&& post.banned_peers@ == self.banned_peers@
            &&& post.local_peer_id == self.local_peer_id
            &&& post.capabilities == self.capabilities
            &&& post.message_id_counter == self.message_id_counter
        }
    }

    /// Connects a peer by the system clock's time.
    pub fn add_peer(&mut self, peer_info: PeerInfo) -> (r: Result<(), NetworkError>)
        ensures
            exists|now: u64| old(self).add_peer_post(*final(self), peer_info, now, r),
    {
        let now = current_timestamp();
        self.add_peer_at(peer_info, now)
    }

    /// Connects a peer at time `now`: refused when 50 peers are connected or
    /// the peer is banned; otherwise any earlier state of the peer is replaced
    /// by a fresh connection with reputation 50, and its address is recorded.
    pub fn add_peer_at(&mut self, peer_info: PeerInfo, now: u64) -> (r: Result<(), NetworkError>)
        ensures
            old(self).add_peer_post(*final(self), peer_info, now, r),
    {
        if self.peers.len() >= MAX_PEERS {
            return Err(NetworkError::TooManyPeers);
        }
        let id = peer_info.peer_id;
        if self.is_banned_exec(&id) {
            return Err(NetworkError::PeerBanned(id));
        }
        let address = PeerAddress { address: peer_info.address.clone(), port: peer_info.port };
        let state = PeerState {
            info: peer_info,
            state: ConnectionState::Connected,
            last_ping: now,
            pending_requests: Vec::new(),
            reputation: INITIAL_REPUTATION,
            messages_sent: 0,
            messages_received: 0,
        };
        let mut old_peers: Vec<PeerState> = Vec::new();
        std::mem::swap(&mut old_peers, &mut self.peers);
        let mut kept = retain_other_peers(old_peers, &id);
        kept.push(state);
        self.peers = kept;
        add_known(&mut self.known_peers, address);
        Ok(())
    }

    fn is_banned_exec(&self, id: &PeerId) -> (r: bool)
        ensures
            r == is_banned(self.banned_peers@, id.0@),
    {
        let mut i: usize = 0;
        while i < self.banned_peers.len()
            invariant
                i <= self.banned_peers@.len(),
                forall|k: int| 0 <= k < i ==> (#[trigger] self.banned_peers@[k]).0@ != id.0@,
            decreases self.banned_peers@.len() - i,
        {
            if bytes_equal(&self.banned_peers[i].0, &id.0) {
                return true;
            }
            i = i + 1;
        }
        false
    }

    fn find_peer(&self, id: &PeerId) -> (r: Option<usize>)
        ensures
            match r {
                Some(i) => first_peer_index(self.peers@, id.0@, i as int),
                None => !has_peer(self.peers@, id.0@),
            },
    {
        let mut i: usize = 0;
        while i < self.peers.len()
            invariant
                i <= self.peers@.len(),
                forall|k: int| 0 <= k < i ==> !is_peer(#[trigger] self.peers@[k], id.0@),
            decreases self.peers@.len() - i,
        {
            if bytes_equal(&self.peers[i].info.peer_id.0, &id.0) {
                return Some(i);
            }
            i = i + 1;
        }
        None
    }

    /// The state of the peer `id`, if connected.
    pub fn get_peer(&self, peer_id: &PeerId) -> (r: Option<&PeerState>)
        ensures
            match r {
                Some(p) => exists|i: int|
                    first_peer_index(self.peers@, peer_id.0@, i) && *p == self.peers@[i],
                None => !has_peer(self.peers@, peer_id.0@),
            },
    {
        match self.find_peer(peer_id) {
            Some(i) => Some(&self.peers[i]),
            None => None,
        }
    }

    /// Disconnects the peer `id`.
    pub fn remove_peer(&mut self, peer_id: &PeerId)
        ensures
            final(self).peers@ == without_peer(old(self).peers@, peer_id.0@),
            final(self).known_peers@ == old(self).known_peers@,
            final(self).banned_peers@ == old(self).banned_peers@,
            final(self).local_peer_id == old(self).local_peer_id,
            final(self).capabilities == old(self).capabilities,
            final(self).message_id_counter == old(self).message_id_counter,
    {
        let mut old_peers: Vec<PeerState> = Vec::new();
        std::mem::swap(&mut old_peers, &mut self.peers);
        self.peers = retain_other_peers(old_peers, peer_id);
    }

    /// Moves the reputation of the peer `id` by `delta`, within 0 to 100; a
    /// peer whose reputation reaches 0 is banned and disconnected. Unknown
    /// peers are ignored.
    pub fn update_reputation(&mut self, peer_id: &PeerId, delta: i32)
        ensures
            !has_peer(old(self).peers@, peer_id.0@) ==> *final(self) == *old(self),
            has_peer(old(self).peers@, peer_id.0@) ==> exists|i: int|
                #![trigger old(self).peers@[i]]
                first_peer_index(old(self).peers@, peer_id.0@, i) && {
                    let rep = clamped_reputation(old(self).peers@[i].reputation as int, delta as int);
                    if rep == 0 {
                        &&& final(self).peers@ == without_peer(old(self).peers@, peer_id.0@)
                        &&& final(self).banned_peers@ == with_ban(old(self).banned_peers@, *peer_id)
                    } else {
                        &&& final(self).peers@ == old(self).peers@.update(
                            i,
                            PeerState { reputation: rep as u32, ..old(self).peers@[i] },
                        )
                        &&& final(self).banned_peers@ == old(self).banned_peers@
                    }
                },
            final(self).known_peers@ == old(self).known_peers@,
            final(self).local_peer_id == old(self).local_peer_id,
            final(self).capabilities == old(self).capabilities,
            final(self).message_id_counter == old(self).message_id_counter,
    {
        let i = match self.find_peer(peer_id) {
            Some(i) => i,
            None => {
                return;
            },
        };
        let moved: i64 = self.peers[i].reputation as i64 + delta as i64;
        let rep: u32 = if moved < 0 {
            0
        } else if moved > MAX_REPUTATION as i64 {
            MAX_REPUTATION
        } else {
            moved as u32
        };
        if rep == 0 {
            let id = *peer_id;
            if !self.is_banned_exec(&id) {
                self.banned_peers.push(id);
            }
            let mut old_peers: Vec<PeerState> = Vec::new();
        std::mem::swap(&mut old_peers, &mut self.peers);
            self.peers = retain_other_peers(old_peers, peer_id);
        } else {
            let mut st = self.peers.remove(i);
            st.reputation = rep;
            self.peers.insert(i, st);
            proof {
                assert(self.peers@ =~= old(self).peers@.update(
                    i as int,
                    PeerState { reputation: rep, ..old(self).peers@[i as int] },
                ));
            }
        }
    }

    /// The ids of the ready peers other than `exclude`, in order.
    pub fn get_broadcast_peers(&self, exclude: Option<&PeerId>) -> (r: Vec<PeerId>)
        ensures
            r@ == broadcast_ids(
                self.peers@,
                match exclude {
                    Some(e) => Some(e.0@),
                    None => None,
                },
            ),
    {
        let ghost ex = match exclude {
            Some(e) => Some(e.0@),
            None => None,
        };
        let mut out: Vec<PeerId> = Vec::new();
        let mut i: usize = 0;
        proof {
            assert(self.peers@.take(0) =~= Seq::<PeerState>::empty());
        }
        while i < self.peers.len()
            invariant
                i <= self.peers@.len(),
                ex == match exclude {
                    Some(e) => Some(e.0@),
                    None => None::<Seq<u8>>,
                },
                out@ == broadcast_ids(self.peers@.take(i as int), ex),
            decreases self.peers@.len() - i,
        {
            let p = &self.peers[i];
            proof {
                assert(self.peers@.take(i + 1).drop_last() == self.peers@.take(i as int));
                assert(self.peers@.take(i + 1).last() == self.peers@[i as int]);
            }
            let excluded = match exclude {
                Some(e) => bytes_equal(&p.info.peer_id.0, &e.0),
                None => false,
            };
            if p.state == ConnectionState::Ready && !excluded {
                out.push(p.info.peer_id);
            }
            i = i + 1;
        }
        proof {
            assert(self.peers@.take(self.peers@.len() as int) == self.peers@);
        }
        out
    }

    /// The next message id: one more than the last.
    pub fn next_message_id(&mut self) -> (r: u64)
        requires
            old(self).message_id_counter < u64::MAX,
        ensures
            r == old(self).message_id_counter + 1,
            final(self).message_id_counter == r,
            final(self).peers == old(self).peers,
            final(self).known_peers == old(self).known_peers,
            final(self).banned_peers == old(self).banned_peers,
            final(self).local_peer_id == old(self).local_peer_id,
            final(self).capabilities == old(self).capabilities,
    {
        self.message_id_counter = self.message_id_counter + 1;
        self.message_id_counter
    }

    /// Disconnects the peers stale by the system clock's time.
    pub fn cleanup_stale_peers(&mut self)
        ensures
            exists|now: u64| final(self).peers@ == #[trigger] live_peers(old(self).peers@, now),
            final(self).known_peers@ == old(self).known_peers@,
            final(self).banned_peers@ == old(self).banned_peers@,
    {
        let now = current_timestamp();
        self.cleanup_stale_peers_at(now);
    }

    /// Disconnects the peers that have not pinged for more than 120 seconds
    /// at time `now`.
    pub fn cleanup_stale_peers_at(&mut self, now: u64)
        ensures
            final(self).peers@ == live_peers(old(self).peers@, now),
            final(self).known_peers@ == old(self).known_peers@,
            final(self).banned_peers@ == old(self).banned_peers@,
            final(self).local_peer_id == old(self).local_peer_id,
            final(self).capabilities == old(self).capabilities,
            final(self).message_id_counter == old(self).message_id_counter,
    {
        let mut old_peers: Vec<PeerState> = Vec::new();
        std::mem::swap(&mut old_peers, &mut self.peers);
        self.peers = retain_live_peers(old_peers, now);
    }
}

} // verus!

verus! {

/// Messages received from a peer, held at the largest `u64`.
pub open spec fn bumped(n: u64) -> u64 {
    if n == u64::MAX {
        n
    } else {
        (n + 1) as u64
    }
}

/// The peers after a message from `id` arrived at `now`: the first state of
/// the peer counts one more message and was last heard from at `now`.
pub open spec fn touched(ps: Seq<PeerState>, id: Seq<u8>, now: u64) -> Seq<PeerState> {
    if has_peer(ps, id) {
        let i = choose|i: int| first_peer_index(ps, id, i);
        ps.update(
            i,
            PeerState { messages_received: bumped(ps[i].messages_received), last_ping: now, ..ps[i] },
        )
    } else {
        ps
    }
}

proof fn lemma_first_index_unique(ps: Seq<PeerState>, id: Seq<u8>, i: int, j: int)
    requires
        first_peer_index(ps, id, i),
        first_peer_index(ps, id, j),
    ensures
        i == j,
{
    if i < j {
        assert(!is_peer(ps[i], id));
    } else if j < i {
        assert(!is_peer(ps[j], id));
    }
}

/// What answering `m` from `from` at `now` does: the sender's state is touched,
/// a ping is answered with a pong carrying the same nonce, a peer request with
/// the infos of the ready peers, an announcement records the address and a
/// goodbye disconnects the sender; every other message is left to higher
/// layers.
pub open spec fn handle_post(
    pre: NetworkManager,
    post: NetworkManager,
    from: PeerId,
    m: Message,
    now: u64,
    r: Result<Option<Message>, NetworkError>,
) -> bool {
    let mid = touched(pre.peers@, from.0@, now);
    &&& post.banned_peers@ == pre.banned_peers@
    &&& post.local_peer_id == pre.local_peer_id
    &&& post.capabilities == pre.capabilities
    &&& post.message_id_counter == pre.message_id_counter
    &&& match m {
        Message::Ping(n) => r matches Ok(Some(Message::Pong(k))) && k == n && post.peers@ == mid
            && post.known_peers@ == pre.known_peers@,
        Message::GetPeers => r matches Ok(Some(Message::Peers(v))) && v@ == ready_infos(mid)
            && post.peers@ == mid && post.known_peers@ == pre.known_peers@,
        Message::AnnouncePeer(info) => r matches Ok(None) && post.peers@ == mid
            && post.known_peers@ == with_address(
            pre.known_peers@,
            PeerAddress { address: info.address, port: info.port },
        ),
        Message::Goodbye(_) => r matches Ok(None) && post.peers@ == without_peer(mid, from.0@)
            && post.known_peers@ == pre.known_peers@,
        _ => r matches Ok(None) && post.peers@ == mid && post.known_peers@ == pre.known_peers@,
    }
}

impl NetworkManager {
    fn touch_peer(&mut self, from: &PeerId, now: u64)
        ensures
            final(self).peers@ == touched(old(self).peers@, from.0@, now),
            final(self).known_peers == old(self).known_peers,
            final(self).banned_peers == old(self).banned_peers,
            final(self).local_peer_id == old(self).local_peer_id,
            final(self).capabilities == old(self).capabilities,
            final(self).message_id_counter == old(self).message_id_counter,
    {
        match self.find_peer(from) {
            Some(i) => {
                proof {
                    let c = choose|c: int| first_peer_index(self.peers@, from.0@, c);
                    lemma_first_index_unique(self.peers@, from.0@, i as int, c);
                }
                let mut st = self.peers.remove(i);
                if st.messages_received < u64::MAX {
                    st.messages_received = st.messages_received + 1;
                }
                st.last_ping = now;
                self.peers.insert(i, st);
                proof {
                    assert(self.peers@ =~= touched(old(self).peers@, from.0@, now));
                }
            },
            None => {},
        }
    }

    fn ready_peer_infos(&self) -> (r: Vec<PeerInfo>)
        ensures
            r@ == ready_infos(self.peers@),
    {
        let mut out: Vec<PeerInfo> = Vec::new();
        let mut i: usize = 0;
        while i < self.peers.len()
            invariant
                i <= self.peers@.len(),
                out@ == ready_infos(self.peers@.take(i as int)),
            decreases self.peers@.len() - i,
        {
            proof {
                assert(self.peers@.take(i + 1).drop_last() == self.peers@.take(i as int));
                assert(self.peers@.take(i + 1).last() == self.peers@[i as int]);
            }
            if self.peers[i].state == ConnectionState::Ready {
                out.push(copy_info(&self.peers[i].info));
            }
            i = i + 1;
        }
        proof {
            assert(self.peers@.take(self.peers@.len() as int) == self.peers@);
        }
        out
    }

    /// Answers a message from a peer by the system clock's time.
    pub fn handle_message(&mut self, from: &PeerId, message: Message) -> (r: Result<
        Option<Message>,
        NetworkError,
    >)
        ensures
            exists|now: u64| #[trigger] handle_post(*old(self), *final(self), *from, message, now, r),
    {
        let now = current_timestamp();
        self.handle_message_at(from, message, now)
    }

    /// Answers a message from a peer at time `now`.
    pub fn handle_message_at(&mut self, from: &PeerId, message: Message, now: u64) -> (r: Result<
        Option<Message>,
        NetworkError,
    >)
        ensures
            handle_post(*old(self), *final(self), *from, message, now, r),
    {
        self.touch_peer(from, now);
        match message {
            Message::Ping(nonce) => Ok(Some(Message::Pong(nonce))),
            Message::GetPeers => Ok(Some(Message::Peers(self.ready_peer_infos()))),
            Message::AnnouncePeer(info) => {
                add_known(
                    &mut self.known_peers,
                    PeerAddress { address: info.address.clone(), port: info.port },
                );
                Ok(None)
            },
            Message::Goodbye(_) => {
                self.remove_peer(from);
                Ok(None)
            },
            _ => Ok(None),
        }
    }

    /// A hello carrying this node's capabilities and the given chain state,
    /// stamped by the system clock; the public key is left for the caller.
    pub fn create_hello(&self, chain_info: &ChainInfoMessage) -> (r: Message)
        ensures
            r matches Message::Hello(h) && h.version == PROTOCOL_VERSION && h.chain_id
                == chain_info.chain_id && h.best_block_height == chain_info.block_height
                && h.best_block_hash == chain_info.best_block_hash && h.capabilities
                == self.capabilities && h.public_key@.len() == 0,
    {
        Message::Hello(
            HelloMessage {
                version: PROTOCOL_VERSION,
                chain_id: chain_info.chain_id,
                best_block_height: chain_info.block_height,
                best_block_hash: BlockHash(chain_info.best_block_hash.0),
                capabilities: self.capabilities,
                public_key: Vec::new(),
                timestamp: current_timestamp(),
            },
        )
    }
}

/// A block seen at a time, in seconds.
#[derive(Debug, Clone)]
pub struct SeenBlock {
    pub hash: BlockHash,
    pub seen_at: u64,
}

/// Whether the hash is among the seen blocks.
pub open spec fn was_seen(bs: Seq<SeenBlock>, h: Seq<u8>) -> bool {
    exists|i: int| 0 <= i < bs.len() && (#[trigger] bs[i]).hash.0@ == h
}

/// The seen blocks other than `h`, in order.
pub open spec fn seen_without(bs: Seq<SeenBlock>, h: Seq<u8>) -> Seq<SeenBlock> {
    bs.filter(|b: SeenBlock| b.hash.0@ != h)
}

/// The seen blocks still within the retention window at `now`, in order.
pub open spec fn seen_recent(bs: Seq<SeenBlock>, now: u64) -> Seq<SeenBlock> {
    bs.filter(|b: SeenBlock| b.seen_at + SEEN_BLOCK_RETENTION_SECS > now)
}

/// Remembers which blocks were seen, so that none is broadcast twice.
#[derive(Debug)]
pub struct BlockPropagator {
    seen_blocks: Vec<SeenBlock>,
    pending_announcements: Vec<SeenBlock>,
}

impl BlockPropagator {
    /// The blocks seen, with when they were seen.
    pub closed spec fn seen(&self) -> Seq<SeenBlock> {
        self.seen_blocks@
    }

    /// A propagator that has seen nothing.
    pub fn new() -> (r: Self)
        ensures
            r.seen().len() == 0,
    {
        BlockPropagator { seen_blocks: Vec::new(), pending_announcements: Vec::new() }
    }

    /// Whether the block was seen.
    pub fn has_seen(&self, hash: &BlockHash) -> (r: bool)
        ensures
            r == was_seen(self.seen(), hash.0@),
    {
        let mut i: usize = 0;
        while i < self.seen_blocks.len()
            invariant
                i <= self.seen_blocks@.len(),
                forall|k: int| 0 <= k < i ==> (#[trigger] self.seen_blocks@[k]).hash.0@ != hash.0@,
            decreases self.seen_blocks@.len() - i,
        {
            if bytes_equal(&self.seen_blocks[i].hash.0, &hash.0) {
                return true;
            }
            i = i + 1;
        }
        false
    }

    /// Marks a block seen by the system clock's time.
    pub fn mark_seen(&mut self, hash: BlockHash)
        ensures
            final(self).seen().len() > 0,
            final(self).seen() == seen_without(old(self).seen(), hash.0@).push(
                final(self).seen().last(),
            ),
            final(self).seen().last().hash == hash,
    {
        let now = current_timestamp();
        self.mark_seen_at(hash, now);
    }

    /// Marks a block seen at `now`, replacing an earlier sighting.
    pub fn mark_seen_at(&mut self, hash: BlockHash, now: u64)
        ensures
            final(self).seen() == seen_without(old(self).seen(), hash.0@).push(
                SeenBlock { hash, seen_at: now },
            ),
    {
        let mut old_seen: Vec<SeenBlock> = Vec::new();
        std::mem::swap(&mut old_seen, &mut self.seen_blocks);
        let mut kept = retain_unseen(old_seen, &hash);
        kept.push(SeenBlock { hash, seen_at: now });
        self.seen_blocks = kept;
    }

    /// Forgets blocks seen more than an hour before the system clock's time.
    pub fn cleanup(&mut self)
        ensures
            exists|now: u64| final(self).seen() == #[trigger] seen_recent(old(self).seen(), now),
    {
        let now = current_timestamp();
        self.cleanup_at(now);
    }

    /// Forgets blocks seen an hour or more before `now`.
    pub fn cleanup_at(&mut self, now: u64)
        ensures
            final(self).seen() == seen_recent(old(self).seen(), now),
    {
        let mut old_seen: Vec<SeenBlock> = Vec::new();
        std::mem::swap(&mut old_seen, &mut self.seen_blocks);
        self.seen_blocks = retain_recent(old_seen, now);
    }
}

fn retain_unseen(bs: Vec<SeenBlock>, h: &BlockHash) -> (r: Vec<SeenBlock>)
    ensures
        r@ == seen_without(bs@, h.0@),
{
    let ghost orig = bs@;
    let mut out: Vec<SeenBlock> = Vec::new();
    let mut rest = bs;
    let n = rest.len();
    let mut i: usize = 0;
    proof {
        assert(orig.take(0) =~= Seq::<SeenBlock>::empty());
        reveal(Seq::filter);
    }
    while rest.len() > 0
        invariant
            i + rest@.len() == n,
            n == orig.len(),
            rest@ == orig.subrange(i as int, n as int),
            out@ == orig.take(i as int).filter(|b: SeenBlock| b.hash.0@ != h.0@),
        decreases rest@.len(),
    {
        let b = rest.remove(0);
        proof {
            assert(b == orig[i as int]);
            assert(orig.take(i + 1) == orig.take(i as int).push(b));
            orig.take(i as int).lemma_filter_push(b, |b: SeenBlock| b.hash.0@ != h.0@);
        }
        if !bytes_equal(&b.hash.0, &h.0) {
            out.push(b);
        }
        i = i + 1;
    }
    proof {
        assert(orig.take(n as int) == orig);
    }
    out
}

fn retain_recent(bs: Vec<SeenBlock>, now: u64) -> (r: Vec<SeenBlock>)
    ensures
        r@ == seen_recent(bs@, now),
{
    let ghost orig = bs@;
    let mut out: Vec<SeenBlock> = Vec::new();
    let mut rest = bs;
    let n = rest.len();
    let mut i: usize = 0;
    proof {
        assert(orig.take(0) =~= Seq::<SeenBlock>::empty());
        reveal(Seq::filter);
    }
    while rest.len() > 0
        invariant
            i + rest@.len() == n,
            n == orig.len(),
            rest@ == orig.subrange(i as int, n as int),
            out@ == orig.take(i as int).filter(
                |b: SeenBlock| b.seen_at + SEEN_BLOCK_RETENTION_SECS > now,
            ),
        decreases rest@.len(),
    {
        let b = rest.remove(0);
        proof {
            assert(b == orig[i as int]);
            assert(orig.take(i + 1) == orig.take(i as int).push(b));
            orig.take(i as int).lemma_filter_push(
                b,
                |b: SeenBlock| b.seen_at + SEEN_BLOCK_RETENTION_SECS > now,
            );
        }
        if b.seen_at as u128 + SEEN_BLOCK_RETENTION_SECS as u128 > now as u128 {
            out.push(b);
        }
        i = i + 1;
    }
    proof {
        assert(orig.take(n as int) == orig);
    }
    out
}

/// Prefix of every REST path.
pub const API_PREFIX: &'static str = "/api";

/// REST API endpoints.
#[derive(Debug, Clone)]
pub enum Endpoint {
    Stats,
    Blocks,
    BlockByHash(String),
    Wallets,
    WalletByAddress(String),
    Mine,
    Send,
    Faucet,
    Badges(String),
    HardwareVerify,
}

/// The path of an endpoint.
pub open spec fn endpoint_path(e: Endpoint) -> Seq<char> {
    match e {
        Endpoint::Stats => "/api/stats"@,
        Endpoint::Blocks => "/api/blocks"@,
        Endpoint::BlockByHash(h) => "/api/block/"@ + h@,
        Endpoint::Wallets => "/api/wallets"@,
        Endpoint::WalletByAddress(a) => "/api/wallet/"@ + a@,
        Endpoint::Mine => "/api/mine"@,
        Endpoint::Send => "/api/send"@,
        Endpoint::Faucet => "/api/faucet"@,
        Endpoint::Badges(w) => "/api/badges/"@ + w@,
        Endpoint::HardwareVerify => "/api/hardware/verify"@,
    }
}

impl Endpoint {
    /// The endpoint's path under the API prefix.
    pub fn path(&self) -> (r: String)
        ensures
            r@ == endpoint_path(*self),
    {
        match self {
            Endpoint::Stats => String::from_str("/api/stats"),
            Endpoint::Blocks => String::from_str("/api/blocks"),
            Endpoint::BlockByHash(h) => String::from_str("/api/block/").concat(h.as_str()),
            Endpoint::Wallets => String::from_str("/api/wallets"),
            Endpoint::WalletByAddress(a) => String::from_str("/api/wallet/").concat(a.as_str()),
            Endpoint::Mine => String::from_str("/api/mine"),
            Endpoint::Send => String::from_str("/api/send"),
            Endpoint::Faucet => String::from_str("/api/faucet"),
            Endpoint::Badges(w) => String::from_str("/api/badges/").concat(w.as_str()),
            Endpoint::HardwareVerify => String::from_str("/api/hardware/verify"),
        }
    }
}

} // verus!
