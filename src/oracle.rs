use vstd::prelude::*;

verus! {

/// The kinds of bridge events that the oracle attests.
#[derive(Clone, Copy, Debug, PartialEq, Eq, Structural)]
pub enum EventKind {
    Deposit,
    ValsetUpdated,
    BatchExecuted,
}

/// A bridge-contract event observed on Ethereum.
#[derive(Clone, Copy, Debug, PartialEq, Eq, Structural)]
pub struct EthEvent {
    pub kind: EventKind,
    pub block_height: u64,
    pub event_nonce: u64,
}

/// The claims of a sequence are in strictly increasing nonce order.
pub open spec fn strictly_ascending(s: Seq<EthEvent>) -> bool {
    forall|i: int, j: int| 0 <= i < j < s.len() ==> s[i].event_nonce < s[j].event_nonce
}

/// `s` holds an event of nonce `n`.
pub open spec fn has_nonce(s: Seq<EthEvent>, n: u64) -> bool {
    exists|i: int| 0 <= i < s.len() && s[i].event_nonce == n
}

/// What one oracle cycle submits, given the events it observed and the
/// highest nonce this operator has already claimed on chain: each unclaimed
/// nonce once, taken from the observed events, in ascending order.
pub open spec fn is_claim_batch(observed: Seq<EthEvent>, last_claimed: u64, r: Seq<EthEvent>) -> bool {
    &&& strictly_ascending(r)
    &&& forall|i: int| 0 <= i < r.len() ==> r[i].event_nonce > last_claimed
    &&& forall|i: int| 0 <= i < r.len() ==> observed.contains(#[trigger] r[i])
    &&& forall|i: int|
        0 <= i < observed.len() && observed[i].event_nonce > last_claimed ==> has_nonce(
            r,
            #[trigger] observed[i].event_nonce,
        )
}

/// Among the observed events, the index of one with the least nonce above
/// `floor`, if there is one.
fn least_above(observed: &Vec<EthEvent>, floor: u64) -> (r: Option<usize>)
    ensures
        match r {
            Some(k) => {
                &&& k < observed@.len()
                &&& observed@[k as int].event_nonce > floor
                &&& forall|i: int|
                    0 <= i < observed@.len() && observed@[i].event_nonce > floor
                        ==> observed@[k as int].event_nonce <= #[trigger] observed@[i].event_nonce
            },
            None => forall|i: int|
                0 <= i < observed@.len() ==> #[trigger] observed@[i].event_nonce <= floor,
        },
{
    let mut best: Option<usize> = None;
    let mut j: usize = 0;
    while j < observed.len()
        invariant
            j <= observed@.len(),
            match best {
                Some(k) => {
                    &&& k < j
                    &&& observed@[k as int].event_nonce > floor
                    &&& forall|i: int|
                        0 <= i < j && observed@[i].event_nonce > floor
                            ==> observed@[k as int].event_nonce
                            <= #[trigger] observed@[i].event_nonce
                },
                None => forall|i: int| 0 <= i < j ==> #[trigger] observed@[i].event_nonce <= floor,
            },
        decreases observed@.len() - j,
    {
        let n = observed[j].event_nonce;
        if n > floor {
            match best {
                Some(k) => {
                    if n < observed[k].event_nonce {
                        best = Some(j);
                    }
                },
                None => {
                    best = Some(j);
                },
            }
        }
        j = j + 1;
    }
    best
}

/// The claims one oracle cycle broadcasts in a single transaction: the
/// observed events whose nonce is above the highest nonce already claimed,
/// one per nonce, ordered by ascending nonce.
pub fn claims_to_submit(observed: &Vec<EthEvent>, last_claimed: u64) -> (r: Vec<EthEvent>)
    ensures
        is_claim_batch(observed@, last_claimed, r@),
{
    let mut r: Vec<EthEvent> = Vec::new();
    let mut floor: u64 = last_claimed;
    loop
        invariant
            floor >= last_claimed,
            strictly_ascending(r@),
            forall|i: int| 0 <= i < r@.len() ==> r@[i].event_nonce > last_claimed,
            forall|i: int| 0 <= i < r@.len() ==> r@[i].event_nonce <= floor,
            r@.len() > 0 ==> r@[r@.len() - 1].event_nonce == floor,
            forall|i: int| 0 <= i < r@.len() ==> observed@.contains(#[trigger] r@[i]),
            forall|i: int|
                0 <= i < observed@.len() && last_claimed < observed@[i].event_nonce <= floor
                    ==> has_nonce(r@, #[trigger] observed@[i].event_nonce),
        decreases u64::MAX - floor,
    {
        match least_above(observed, floor) {
            None => {
                return r;
            },
            Some(k) => {
                let e = observed[k];
                let ghost old_r = r@;
                r.push(e);
                assert(r@[r@.len() - 1] == e);
                assert forall|i: int|
                    0 <= i < observed@.len() && last_claimed < observed@[i].event_nonce
                        <= e.event_nonce implies has_nonce(
                    r@,
                    #[trigger] observed@[i].event_nonce,
                ) by {
                    if observed@[i].event_nonce <= floor {
                        let w = choose|w: int|
                            0 <= w < old_r.len() && old_r[w].event_nonce
                                == observed@[i].event_nonce;
                        assert(r@[w] == old_r[w]);
                    } else {
                        assert(r@[r@.len() - 1].event_nonce == observed@[i].event_nonce);
                    }
                }
                assert forall|i: int| 0 <= i < r@.len() implies observed@.contains(
                    #[trigger] r@[i],
                ) by {
                    if i < old_r.len() {
                        assert(r@[i] == old_r[i]);
                    } else {
                        assert(observed@[k as int] == r@[i]);
                    }
                }
                floor = e.event_nonce;
            },
        }
    }
}

/// Across oracle cycles: once a cycle's claims have been accepted, the chain
/// reports the last of them as the highest claimed nonce, and every claim of
/// the next cycle, whatever it observes, has a higher nonce than every claim
/// of the earlier one. Taken with the ascending order within each cycle, no
/// nonce is claimed twice and claims go out in strictly increasing order.
pub proof fn lemma_claims_increase_across_cycles(
    observed1: Seq<EthEvent>,
    last_claimed1: u64,
    batch1: Seq<EthEvent>,
    observed2: Seq<EthEvent>,
    batch2: Seq<EthEvent>,
)
    requires
        is_claim_batch(observed1, last_claimed1, batch1),
        batch1.len() > 0,
        is_claim_batch(observed2, batch1[batch1.len() - 1].event_nonce, batch2),
    ensures
        strictly_ascending(batch1 + batch2),
{
    let s = batch1 + batch2;
    assert forall|i: int, j: int| 0 <= i < j < s.len() implies s[i].event_nonce
        < s[j].event_nonce by {
        if j >= batch1.len() && i < batch1.len() {
            assert(s[i] == batch1[i]);
            assert(s[j] == batch2[j - batch1.len()]);
        } else if i >= batch1.len() {
            assert(s[i] == batch2[i - batch1.len()]);
            assert(s[j] == batch2[j - batch1.len()]);
        } else {
            assert(s[i] == batch1[i]);
            assert(s[j] == batch1[j]);
        }
    }
}

/// The inclusive range of blocks one oracle cycle fetches logs from: from the
/// block after the last checked one up to the latest block, but no more than
/// `window` blocks. `None` when no new block has appeared (or the window is
/// empty), in which case the cycle fetches nothing.
pub fn search_range(last_checked: u64, latest: u64, window: u64) -> (r: Option<(u64, u64)>)
    ensures
        r is None <==> (latest <= last_checked || window == 0),
        r matches Some((lo, hi)) ==> {
            &&& lo == last_checked + 1
            &&& hi == if latest - last_checked <= window {
                latest as int
            } else {
                last_checked + window
            }
            &&& lo <= hi
        },
{
    if latest <= last_checked || window == 0 {
        None
    } else if latest - last_checked <= window {
        Some((last_checked + 1, latest))
    } else {
        Some((last_checked + 1, last_checked + window))
    }
}

} // verus!
