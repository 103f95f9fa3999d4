use vstd::prelude::*;
use vstd::arithmetic::div_mod::lemma_hoist_over_denominator;
use crate::signer::EthAddress;

verus! {

/// A transaction batch that has reached its signature threshold and waits to
/// be executed on Ethereum.
#[derive(Clone, Copy, Debug, PartialEq, Eq, Structural)]
pub struct Batch {
    pub token_contract: EthAddress,
    pub nonce: u64,
}

/// `r` holds, for each token of `eligible`, one batch of that token with the
/// highest nonce, and nothing else.
pub open spec fn is_latest_per_token(eligible: Seq<Batch>, r: Seq<Batch>) -> bool {
    &&& forall|i: int| 0 <= i < r.len() ==> eligible.contains(#[trigger] r[i])
    &&& forall|i: int, j: int|
        0 <= i < r.len() && 0 <= j < eligible.len() && #[trigger] eligible[j].token_contract
            == #[trigger] r[i].token_contract ==> eligible[j].nonce <= r[i].nonce
    &&& forall|i: int, j: int|
        0 <= i < j < r.len() ==> #[trigger] r[i].token_contract != #[trigger] r[j].token_contract
    &&& forall|j: int|
        0 <= j < eligible.len() ==> exists|i: int|
            0 <= i < r.len() && r[i].token_contract == #[trigger] eligible[j].token_contract
}

fn find_token(r: &Vec<Batch>, token: EthAddress) -> (k: Option<usize>)
    ensures
        match k {
            Some(k) => k < r@.len() && r@[k as int].token_contract == token,
            None => forall|i: int| 0 <= i < r@.len() ==> #[trigger] r@[i].token_contract != token,
        },
{
    let mut i: usize = 0;
    while i < r.len()
        invariant
            i <= r@.len(),
            forall|j: int| 0 <= j < i ==> #[trigger] r@[j].token_contract != token,
        decreases r@.len() - i,
    {
        if r[i].token_contract == token {
            return Some(i);
        }
        i = i + 1;
    }
    None
}

/// The batches one relayer cycle submits: for each token, the eligible batch
/// with the highest nonce, since executing it makes the older ones of that
/// token moot. Tokens come in the order in which they first appear.
pub fn batches_to_relay(eligible: &Vec<Batch>) -> (r: Vec<Batch>)
    ensures
        is_latest_per_token(eligible@, r@),
{
    let mut r: Vec<Batch> = Vec::new();
    let mut j: usize = 0;
    while j < eligible.len()
        invariant
            j <= eligible@.len(),
            is_latest_per_token(eligible@.subrange(0, j as int), r@),
        decreases eligible@.len() - j,
    {
        let b = eligible[j];
        let ghost pre = eligible@.subrange(0, j as int);
        let ghost post = eligible@.subrange(0, j + 1);
        let ghost prev = r@;
        assert(forall|x: int| 0 <= x < j ==> post[x] == pre[x]);
        assert(post[j as int] == b);
        match find_token(&r, b.token_contract) {
            Some(k) => {
                if r[k].nonce < b.nonce {
                    r.set(k, b);
                }
                assert forall|i: int| 0 <= i < r@.len() implies post.contains(#[trigger] r@[i]) by {
                    if r@[i] == b {
                        assert(post[j as int] == b);
                    } else {
                        assert(r@[i] == prev[i]);
                        let w = choose|w: int| 0 <= w < pre.len() && pre[w] == prev[i];
                        assert(post[w] == prev[i]);
                    }
                }
                assert forall|i: int, x: int|
                    0 <= i < r@.len() && 0 <= x < post.len() && #[trigger] post[x].token_contract
                        == #[trigger] r@[i].token_contract implies post[x].nonce
                    <= r@[i].nonce by {
                    assert(r@[i].token_contract == prev[i].token_contract);
                    if i != k {
                        assert(r@[i] == prev[i]);
                        if x == j {
                            assert(prev[k as int].token_contract == b.token_contract);
                        }
                    }
                }
                assert forall|x: int| 0 <= x < post.len() implies exists|i: int|
                    0 <= i < r@.len() && r@[i].token_contract
                        == #[trigger] post[x].token_contract by {
                    if x == j {
                        assert(r@[k as int].token_contract == b.token_contract);
                    } else {
                        let i = choose|i: int|
                            0 <= i < prev.len() && prev[i].token_contract
                                == pre[x].token_contract;
                        assert(r@[i].token_contract == prev[i].token_contract);
                    }
                }
                assert forall|i: int, i2: int| 0 <= i < i2 < r@.len() implies #[trigger] r@[i].token_contract
                    != #[trigger] r@[i2].token_contract by {
                    assert(r@[i].token_contract == prev[i].token_contract);
                    assert(r@[i2].token_contract == prev[i2].token_contract);
                }
            },
            None => {
                r.push(b);
                assert forall|i: int| 0 <= i < r@.len() implies post.contains(#[trigger] r@[i]) by {
                    if i == prev.len() {
                        assert(post[j as int] == b);
                    } else {
                        assert(r@[i] == prev[i]);
                        let w = choose|w: int| 0 <= w < pre.len() && pre[w] == prev[i];
                        assert(post[w] == prev[i]);
                    }
                }
                assert forall|i: int, x: int|
                    0 <= i < r@.len() && 0 <= x < post.len() && #[trigger] post[x].token_contract
                        == #[trigger] r@[i].token_contract implies post[x].nonce
                    <= r@[i].nonce by {
                    if i < prev.len() {
                        assert(r@[i] == prev[i]);
                    } else if x < j {
                        let i0 = choose|i0: int|
                            0 <= i0 < prev.len() && prev[i0].token_contract
                                == pre[x].token_contract;
                        assert(prev[i0].token_contract != b.token_contract);
                    }
                }
                assert forall|x: int| 0 <= x < post.len() implies exists|i: int|
                    0 <= i < r@.len() && r@[i].token_contract
                        == #[trigger] post[x].token_contract by {
                    if x == j {
                        assert(r@[prev.len() as int].token_contract == b.token_contract);
                    } else {
                        let i = choose|i: int|
                            0 <= i < prev.len() && prev[i].token_contract
                                == pre[x].token_contract;
                        assert(r@[i] == prev[i]);
                    }
                }
                assert forall|i: int, i2: int| 0 <= i < i2 < r@.len() implies #[trigger] r@[i].token_contract
                    != #[trigger] r@[i2].token_contract by {
                    assert(r@[i] == prev[i]);
                    if i2 < prev.len() {
                        assert(r@[i2] == prev[i2]);
                    }
                }
            },
        }
        j = j + 1;
    }
    assert(eligible@.subrange(0, eligible@.len() as int) == eligible@);
    r
}

/// The gas-price multiplier of the relayer, as the fraction
/// `numerator / denominator`.
#[derive(Clone, Copy, Debug, PartialEq, Eq, Structural)]
pub struct GasMultiplier {
    pub numerator: u64,
    pub denominator: u64,
}

/// The suggested gas price scaled by the multiplier, rounded down.
pub open spec fn scaled_gas_price(suggested: int, m: GasMultiplier) -> int {
    suggested * m.numerator / m.denominator as int
}

/// The gas price the relayer submits with: the chain's suggested price times
/// the multiplier, rounded down; `None` where that does not fit in 128 bits.
pub fn relay_gas_price(suggested: u128, m: GasMultiplier) -> (r: Option<u128>)
    requires
        m.denominator > 0,
    ensures
        r == if scaled_gas_price(suggested as int, m) <= u128::MAX {
            Some(scaled_gas_price(suggested as int, m) as u128)
        } else {
            None::<u128>
        },
{
    let d = m.denominator as u128;
    let n = m.numerator as u128;
    let q = suggested / d;
    let rem = suggested % d;
    assert(rem * n <= (u64::MAX as int) * (u64::MAX as int)) by (nonlinear_arith)
        requires
            rem < d,
            d <= u64::MAX,
            n <= u64::MAX,
    ;
    assert((u64::MAX as int) * (u64::MAX as int) <= u128::MAX) by (nonlinear_arith);
    let part = rem * n / d;
    proof {
        let s = suggested as int;
        assert(s == q * d + rem) by {
            vstd::arithmetic::div_mod::lemma_fundamental_div_mod(s, d as int);
        }
        assert(s * n == rem * n + (q * n) * d) by (nonlinear_arith)
            requires
                s == q * d + rem,
        ;
        lemma_hoist_over_denominator(rem * n, (q * n) as int, d as nat);
        assert(scaled_gas_price(s, m) == part + q * n);
    }
    match q.checked_mul(n) {
        None => {
            assert(q * n <= part + q * n) by {
                assert(part >= 0) by {
                    vstd::arithmetic::div_mod::lemma_div_pos_is_pos((rem * n) as int, d as int);
                }
            }
            None
        },
        Some(whole) => whole.checked_add(part),
    }
}

/// How a batch submission on Ethereum ended.
#[derive(Clone, Copy, Debug, PartialEq, Eq, Structural)]
pub enum SubmitOutcome {
    Included,
    /// Another relayer executed the batch first.
    AlreadyExecuted,
    Reverted,
    TimedOut,
    Underpriced,
}

/// What the relayer makes of a submission.
#[derive(Clone, Copy, Debug, PartialEq, Eq, Structural)]
pub enum SubmitVerdict {
    Success,
    /// Logged; the next cycle derives eligibility from chain state again.
    RetryNextCycle,
}

/// A batch that is on chain counts as relayed, whoever executed it; every
/// other outcome is transient and left to the next cycle.
pub fn submit_verdict(outcome: SubmitOutcome) -> (r: SubmitVerdict)
    ensures
        r == (if outcome == SubmitOutcome::Included || outcome == SubmitOutcome::AlreadyExecuted {
            SubmitVerdict::Success
        } else {
            SubmitVerdict::RetryNextCycle
        }),
{
    match outcome {
        SubmitOutcome::Included | SubmitOutcome::AlreadyExecuted => SubmitVerdict::Success,
        _ => SubmitVerdict::RetryNextCycle,
    }
}

} // verus!
