use vstd::prelude::*;

verus! {

/// The kinds of Cosmos-resident objects that need this operator's Ethereum signature.
#[derive(Clone, Copy, Debug, PartialEq, Eq, Structural)]
pub enum TargetKind {
    Valset,
    Batch,
}

/// An object awaiting signatures, identified by its kind and nonce.
#[derive(Clone, Copy, Debug, PartialEq, Eq, Structural)]
pub struct SignTarget {
    pub kind: TargetKind,
    pub nonce: u64,
}

/// A 160-bit Ethereum address as two integers: its first four bytes and its
/// last sixteen, each read big-endian.
#[derive(Clone, Copy, Debug, PartialEq, Eq, Structural)]
pub struct EthAddress {
    pub high: u32,
    pub low: u128,
}

/// A signature as the chain records it: which operator signed which object.
#[derive(Clone, Copy, Debug, PartialEq, Eq, Structural)]
pub struct SignatureRecord {
    pub operator: EthAddress,
    pub target: SignTarget,
}

/// `r` is the work of one signer cycle: every pending object not yet signed,
/// once each, and nothing else.
pub open spec fn is_signing_work(pending: Seq<SignTarget>, signed: Seq<SignTarget>, r: Seq<SignTarget>) -> bool {
    &&& r.no_duplicates()
    &&& forall|t: SignTarget| r.contains(t) <==> pending.contains(t) && !signed.contains(t)
}

fn holds_target(v: &Vec<SignTarget>, t: SignTarget) -> (r: bool)
    ensures
        r == v@.contains(t),
{
    let mut i: usize = 0;
    while i < v.len()
        invariant
            i <= v@.len(),
            forall|j: int| 0 <= j < i ==> v@[j] != t,
        decreases v@.len() - i,
    {
        if v[i] == t {
            return true;
        }
        i = i + 1;
    }
    false
}

fn holds_record(v: &Vec<SignatureRecord>, t: SignatureRecord) -> (r: bool)
    ensures
        r == v@.contains(t),
{
    let mut i: usize = 0;
    while i < v.len()
        invariant
            i <= v@.len(),
            forall|j: int| 0 <= j < i ==> v@[j] != t,
        decreases v@.len() - i,
    {
        if v[i] == t {
            return true;
        }
        i = i + 1;
    }
    false
}

/// The objects one signer cycle signs: those pending that are not among the
/// ones already signed, each once, in the order they are pending.
pub fn targets_to_sign(pending: &Vec<SignTarget>, signed: &Vec<SignTarget>) -> (r: Vec<SignTarget>)
    ensures
        is_signing_work(pending@, signed@, r@),
{
    let mut r: Vec<SignTarget> = Vec::new();
    let mut i: usize = 0;
    while i < pending.len()
        invariant
            i <= pending@.len(),
            r@.no_duplicates(),
            forall|t: SignTarget|
                r@.contains(t) <==> pending@.subrange(0, i as int).contains(t) && !signed@.contains(t),
        decreases pending@.len() - i,
    {
        let t = pending[i];
        let ghost prev = r@;
        let ghost pre = pending@.subrange(0, i as int);
        let ghost post = pending@.subrange(0, i + 1);
        assert forall|u: SignTarget| post.contains(u) <==> pre.contains(u) || u == t by {
            if post.contains(u) {
                let w = choose|w: int| 0 <= w < post.len() && post[w] == u;
                if w < i {
                    assert(pre[w] == u);
                }
            }
            if pre.contains(u) {
                let w = choose|w: int| 0 <= w < pre.len() && pre[w] == u;
                assert(post[w] == u);
            }
            if u == t {
                assert(post[i as int] == u);
            }
        }
        if !holds_target(signed, t) && !holds_target(&r, t) {
            r.push(t);
            assert forall|u: SignTarget| r@.contains(u) <==> prev.contains(u) || u == t by {
                if r@.contains(u) {
                    let w = choose|w: int| 0 <= w < r@.len() && r@[w] == u;
                    if w < prev.len() {
                        assert(prev[w] == u);
                    }
                }
                if prev.contains(u) {
                    let w = choose|w: int| 0 <= w < prev.len() && prev[w] == u;
                    assert(r@[w] == u);
                }
                if u == t {
                    assert(r@[r@.len() - 1] == u);
                }
            }
        }
        assert forall|u: SignTarget| r@.contains(u) <==> post.contains(u) && !signed@.contains(u) by {
            assert(prev.contains(u) <==> pre.contains(u) && !signed@.contains(u));
            assert(post.contains(u) <==> pre.contains(u) || u == t);
            if u == t {
                assert(r@.contains(u) <==> !signed@.contains(u));
            } else {
                assert(r@.contains(u) <==> prev.contains(u));
            }
        }
        i = i + 1;
    }
    assert(pending@.subrange(0, pending@.len() as int) == pending@);
    r
}

/// Running the signer again after its signatures have landed finds nothing to
/// sign: an object already signed is never signed a second time.
pub proof fn lemma_resign_finds_nothing(
    pending: Seq<SignTarget>,
    signed: Seq<SignTarget>,
    first: Seq<SignTarget>,
    second: Seq<SignTarget>,
)
    requires
        is_signing_work(pending, signed, first),
        is_signing_work(pending, signed + first, second),
    ensures
        second.len() == 0,
{
    if second.len() > 0 {
        let t = second[0];
        assert(second.contains(t));
        if signed.contains(t) {
            let w = choose|w: int| 0 <= w < signed.len() && signed[w] == t;
            assert((signed + first)[w] == t);
        } else {
            let w = choose|w: int| 0 <= w < first.len() && first[w] == t;
            assert((signed + first)[signed.len() + w] == t);
        }
    }
}

/// Records a signature in a ledger that keeps one record per (operator,
/// object); returns whether it was new. A signature submitted again leaves
/// the ledger as it was.
pub fn record_signature(ledger: &mut Vec<SignatureRecord>, rec: SignatureRecord) -> (added: bool)
    requires
        old(ledger)@.no_duplicates(),
    ensures
        added == !old(ledger)@.contains(rec),
        final(ledger)@.no_duplicates(),
        added ==> final(ledger)@ == old(ledger)@.push(rec),
        !added ==> final(ledger)@ == old(ledger)@,
{
    if holds_record(ledger, rec) {
        false
    } else {
        ledger.push(rec);
        assert forall|i: int, j: int|
            0 <= i < j < ledger@.len() implies ledger@[i] != ledger@[j] by {
            if j == ledger@.len() - 1 {
                assert(old(ledger)@[i] == ledger@[i]);
            }
        }
        true
    }
}

} // verus!
