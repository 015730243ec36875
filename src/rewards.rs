//! Apportioning the block reward: each miner's share is proportional to its
//! multiplier and rounded down to whole smallest units.
use vstd::prelude::*;

verus! {

/// Sum of a sequence of multipliers.
pub open spec fn sum_of(ms: Seq<nat>) -> nat
    decreases ms.len(),
{
    if ms.len() == 0 {
        0
    } else {
        sum_of(ms.drop_last()) + ms.last()
    }
}

/// The reward for multiplier `m` out of `total`: `floor(reward * m / total)`.
pub open spec fn reward_share(reward: nat, m: nat, total: nat) -> nat {
    if total == 0 {
        0
    } else {
        reward * m / total
    }
}

/// Sum of the rewards of all multipliers.
pub open spec fn rewards_sum(reward: nat, ms: Seq<nat>, total: nat) -> nat
    decreases ms.len(),
{
    if ms.len() == 0 {
        0
    } else {
        rewards_sum(reward, ms.drop_last(), total) + reward_share(reward, ms.last(), total)
    }
}

/// Sum of the remainders that rounding down leaves.
pub open spec fn remainders_sum(reward: nat, ms: Seq<nat>, total: nat) -> nat
    decreases ms.len(),
{
    if ms.len() == 0 {
        0
    } else {
        remainders_sum(reward, ms.drop_last(), total) + (reward * ms.last()) % total
    }
}

proof fn lemma_split_rewards(reward: nat, ms: Seq<nat>, total: nat)
    requires
        total > 0,
    ensures
        total * rewards_sum(reward, ms, total) + remainders_sum(reward, ms, total) == reward
            * sum_of(ms),
        remainders_sum(reward, ms, total) <= ms.len() * (total - 1),
        remainders_sum(reward, ms, total) == 0 <==> forall|i: int|
            0 <= i < ms.len() ==> (reward * #[trigger] ms[i]) % total == 0,
    decreases ms.len(),
{
    if ms.len() > 0 {
        let init = ms.drop_last();
        let m = ms.last();
        lemma_split_rewards(reward, init, total);
        let q = reward * m / total;
        let rm = (reward * m) % total;
        vstd::arithmetic::div_mod::lemma_fundamental_div_mod((reward * m) as int, total as int);
        assert(total * q + rm == reward * m);
        assert(reward_share(reward, m, total) == q);
        assert(rewards_sum(reward, ms, total) == rewards_sum(reward, init, total) + q);
        assert(remainders_sum(reward, ms, total) == remainders_sum(reward, init, total) + rm);
        assert(sum_of(ms) == sum_of(init) + m);
        assert(total * (rewards_sum(reward, init, total) + q) == total * rewards_sum(
            reward,
            init,
            total,
        ) + total * q) by (nonlinear_arith);
        assert(reward * (sum_of(init) + m) == reward * sum_of(init) + reward * m) by (nonlinear_arith);
        assert(rm < total);
        let a = rewards_sum(reward, init, total);
        let b = remainders_sum(reward, init, total);
        let sm = sum_of(init);
        assert(total * (a + q) + (b + rm) == reward * (sm + m)) by (nonlinear_arith)
            requires
                total * a + b == reward * sm,
                total * q + rm == reward * m,
        ;
        assert(ms.len() * (total - 1) == init.len() * (total - 1) + (total - 1)) by (nonlinear_arith)
            requires
                ms.len() == init.len() + 1,
        ;
        if remainders_sum(reward, ms, total) == 0 {
            assert forall|i: int| 0 <= i < ms.len() implies (reward * #[trigger] ms[i]) % total
                == 0 by {
                if i < init.len() {
                    assert(init[i] == ms[i]);
                }
            }
        }
        if forall|i: int| 0 <= i < ms.len() ==> (reward * #[trigger] ms[i]) % total == 0 {
            assert forall|i: int| 0 <= i < init.len() implies (reward * #[trigger] init[i]) % total
                == 0 by {
                assert(init[i] == ms[i]);
            }
            assert((reward * ms[ms.len() - 1]) % total == 0);
        }
    } else {
        assert(sum_of(ms) == 0);
        assert(reward * sum_of(ms) == 0);
        assert(rewards_sum(reward, ms, total) == 0);
        vstd::arithmetic::mul::lemma_mul_basics(total as int);
    }
}

/// Reward conservation: when every miner gets `floor(reward * m_i / total)`
/// with `total` the sum of the multipliers, the rewards add up to at most the
/// block reward; the shortfall is below the number of miners; and nothing is
/// lost exactly when every share divides evenly.
pub proof fn lemma_reward_conservation(reward: nat, ms: Seq<nat>)
    requires
        sum_of(ms) > 0,
    ensures
        rewards_sum(reward, ms, sum_of(ms)) <= reward,
        reward - rewards_sum(reward, ms, sum_of(ms)) < ms.len(),
        rewards_sum(reward, ms, sum_of(ms)) == reward <==> forall|i: int|
            0 <= i < ms.len() ==> (reward * #[trigger] ms[i]) % sum_of(ms) == 0,
{
    let t = sum_of(ms);
    let r = rewards_sum(reward, ms, t);
    let rem = remainders_sum(reward, ms, t);
    lemma_split_rewards(reward, ms, t);
    // t * r + rem == reward * t, with 0 <= rem <= len * (t - 1)
    assert(t * r <= reward * t);
    assert(r <= reward) by (nonlinear_arith)
        requires
            t * r <= reward * t,
            t > 0,
    ;
    assert(t * (reward - r) == rem) by (nonlinear_arith)
        requires
            t * r + rem == reward * t,
            r <= reward,
    ;
    assert(ms.len() > 0);
    assert(ms.len() * (t - 1) < t * ms.len()) by (nonlinear_arith)
        requires
            ms.len() > 0,
            t > 0,
    ;
    assert(t * (reward - r) < t * ms.len());
    vstd::arithmetic::mul::lemma_mul_strict_inequality_converse(
        (reward - r) as int,
        ms.len() as int,
        t as int,
    );
    assert(r == reward <==> rem == 0) by (nonlinear_arith)
        requires
            t * (reward - r) == rem,
            t > 0,
            r <= reward,
    ;
}

} // verus!
