//! The merkle root over a block's miner entries: a binary tree of SHA-256
//! digests in which an odd last node is paired with itself.
use vstd::prelude::*;
use vstd::utf8::encode_utf8;
use crate::core_types::BlockMiner;
use crate::hashing::{append_bytes, decimal_bytes, decimal_of, sha256, sha256_of};

verus! {

/// The bytes hashed for a miner's leaf: `wallet:multiplier:reward`, the
/// numbers in decimal.
pub open spec fn leaf_preimage(m: BlockMiner) -> Seq<u8> {
    encode_utf8(m.wallet.0@) + seq![58u8] + decimal_of(m.multiplier as nat) + seq![58u8]
        + decimal_of(m.reward as nat)
}

/// The leaf digests of a miner list, in order.
pub open spec fn leaf_hashes(ms: Seq<BlockMiner>) -> Seq<Seq<u8>> {
    Seq::new(ms.len(), |i: int| sha256_of(leaf_preimage(ms[i])))
}

/// One level up the tree: the digest of each pair of nodes, the last node
/// paired with itself when the count is odd.
pub open spec fn merkle_level(hs: Seq<Seq<u8>>) -> Seq<Seq<u8>> {
    Seq::new(
        ((hs.len() + 1) / 2) as nat,
        |i: int|
            sha256_of(
                hs[2 * i] + if 2 * i + 1 < hs.len() {
                    hs[2 * i + 1]
                } else {
                    hs[2 * i]
                },
            ),
    )
}

/// The levels folded until at most one node is left.
pub open spec fn merkle_fold(hs: Seq<Seq<u8>>) -> Seq<Seq<u8>>
    decreases hs.len(),
{
    if hs.len() <= 1 {
        hs
    } else {
        merkle_fold(merkle_level(hs))
    }
}

/// The root of an empty miner list: 32 zero bytes.
pub open spec fn empty_root() -> Seq<u8> {
    Seq::new(32, |i: int| 0u8)
}

/// The merkle root of an ordered miner list.
pub open spec fn merkle_root_of(ms: Seq<BlockMiner>) -> Seq<u8> {
    if ms.len() == 0 {
        empty_root()
    } else {
        merkle_fold(leaf_hashes(ms))[0]
    }
}

/// The byte views of a list of digests.
pub open spec fn digests_view(v: Seq<[u8; 32]>) -> Seq<Seq<u8>> {
    Seq::new(v.len(), |i: int| v[i]@)
}

/// The leaf digest of one miner entry.
pub fn leaf_hash(m: &BlockMiner) -> (r: [u8; 32])
    ensures
        r@ == sha256_of(leaf_preimage(*m)),
{
    let mut data: Vec<u8> = Vec::new();
    append_bytes(&mut data, m.wallet.0.as_str().as_bytes());
    data.push(58u8);
    let mult = decimal_bytes(m.multiplier as u64);
    append_bytes(&mut data, mult.as_slice());
    data.push(58u8);
    let rew = decimal_bytes(m.reward);
    append_bytes(&mut data, rew.as_slice());
    proof {
        assert(data@ =~= leaf_preimage(*m));
    }
    sha256(data.as_slice())
}

fn next_level(hs: &Vec<[u8; 32]>) -> (r: Vec<[u8; 32]>)
    requires
        hs@.len() >= 1,
    ensures
        r@.len() == (hs@.len() + 1) / 2,
        digests_view(r@) == merkle_level(digests_view(hs@)),
{
    let n = hs.len();
    let half = n / 2 + n % 2;
    let mut out: Vec<[u8; 32]> = Vec::new();
    let mut j: usize = 0;
    while j < half
        invariant
            n == hs@.len(),
            half == (n + 1) / 2,
            j <= half,
            out@.len() == j,
            forall|k: int|
                0 <= k < j ==> #[trigger] out@[k]@ == merkle_level(digests_view(hs@))[k],
        decreases half - j,
    {
        let left = 2 * j;
        let right = if left + 1 < n {
            left + 1
        } else {
            left
        };
        let mut pair: Vec<u8> = Vec::new();
        append_bytes(&mut pair, &hs[left]);
        append_bytes(&mut pair, &hs[right]);
        let h = sha256(pair.as_slice());
        out.push(h);
        j = j + 1;
    }
    proof {
        assert(digests_view(out@) =~= merkle_level(digests_view(hs@)));
    }
    out
}

/// The merkle root of the miner entries, in their order.
pub fn calculate_merkle_root(miners: &Vec<BlockMiner>) -> (r: [u8; 32])
    ensures
        r@ == merkle_root_of(miners@),
{
    if miners.len() == 0 {
        let z = [0u8; 32];
        proof {
            assert(z@ =~= empty_root());
        }
        return z;
    }
    let mut hashes: Vec<[u8; 32]> = Vec::new();
    let mut i: usize = 0;
    while i < miners.len()
        invariant
            i <= miners@.len(),
            hashes@.len() == i,
            forall|k: int|
                0 <= k < i ==> #[trigger] hashes@[k]@ == leaf_hashes(miners@)[k],
        decreases miners@.len() - i,
    {
        let h = leaf_hash(&miners[i]);
        hashes.push(h);
        i = i + 1;
    }
    proof {
        assert(digests_view(hashes@) =~= leaf_hashes(miners@));
    }
    while hashes.len() > 1
        invariant
            hashes@.len() >= 1,
            merkle_fold(digests_view(hashes@)) == merkle_fold(leaf_hashes(miners@)),
        decreases hashes@.len(),
    {
        let next = next_level(&hashes);
        hashes = next;
    }
    hashes[0]
}

/// Merkle root determinism: two ordered miner lists whose entries serialize
/// to the same leaf bytes, position by position, have the same root.
pub proof fn lemma_merkle_root_deterministic(a: Seq<BlockMiner>, b: Seq<BlockMiner>)
    requires
        a.len() == b.len(),
        forall|i: int| 0 <= i < a.len() ==> leaf_preimage(#[trigger] a[i]) == leaf_preimage(b[i]),
    ensures
        merkle_root_of(a) == merkle_root_of(b),
{
    assert(leaf_hashes(a) =~= leaf_hashes(b));
}

} // verus!
