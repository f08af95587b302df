//! Forming, ordering and choosing ICE candidate pairs.
use vstd::prelude::*;
use crate::ice::pair::CandidatePair;
use crate::ice::state::IceConnectionState;
use crate::network::candidate::{CandidateType, IceCandidate};

verus! {

/// An ICE session established with a peer over a chosen pair.
#[derive(Debug)]
pub struct IceSession {
    pub peer: String,
    pub selected_pair: CandidatePair,
    pub established_at: String,
}

/// Forms, orders and chooses candidate pairs.
pub struct ConnectivityManager;

/// The priority that a pair of candidate types gets.
pub open spec fn pair_priority(l: CandidateType, r: CandidateType) -> u32 {
    match (l, r) {
        (CandidateType::Host, CandidateType::Host) => 100,
        (CandidateType::Host, CandidateType::ServerReflexive) => 90,
        (CandidateType::ServerReflexive, CandidateType::Host) => 90,
        (CandidateType::ServerReflexive, CandidateType::ServerReflexive) => 80,
        _ => 50,
    }
}

/// The unchecked pair of `l` and `r`.
pub open spec fn make_pair(l: IceCandidate, r: IceCandidate) -> CandidatePair {
    CandidatePair {
        local: l,
        remote: r,
        priority: pair_priority(l.candidate_type, r.candidate_type),
        state: IceConnectionState::Checking,
    }
}

/// The pairs of `l` with each remote candidate, in the remote order.
pub open spec fn pairs_with(l: IceCandidate, remote: Seq<IceCandidate>) -> Seq<CandidatePair> {
    remote.map_values(|r: IceCandidate| make_pair(l, r))
}

/// Every local/remote combination, local candidates outer and remote ones inner.
pub open spec fn all_pairs(local: Seq<IceCandidate>, remote: Seq<IceCandidate>) -> Seq<CandidatePair>
    decreases local.len(),
{
    if local.len() == 0 {
        Seq::empty()
    } else {
        all_pairs(local.drop_last(), remote) + pairs_with(local.last(), remote)
    }
}

/// Priorities do not increase along `s`.
pub open spec fn sorted_by_priority_desc(s: Seq<CandidatePair>) -> bool {
    forall|a: int, b: int| 0 <= a < b < s.len() ==> #[trigger] s[a].priority >= #[trigger] s[b].priority
}

/// The pairs of `s` with priority `p`, in their order in `s`.
pub open spec fn with_priority(s: Seq<CandidatePair>, p: u32) -> Seq<CandidatePair> {
    s.filter(priority_is(p))
}

/// The test "has priority `p`".
pub open spec fn priority_is(p: u32) -> spec_fn(CandidatePair) -> bool {
    |x: CandidatePair| x.priority == p
}

/// `t` holds the pairs of `s`, and pairs of equal priority keep their relative order.
pub open spec fn same_priority_groups(s: Seq<CandidatePair>, t: Seq<CandidatePair>) -> bool {
    forall|p: u32| #[trigger] with_priority(s, p) == with_priority(t, p)
}

/// Inserting `x` after the first `j` pairs of `q`, all later ones having a lower
/// priority, adds `x` at the end of its priority group and changes no other group.
proof fn lemma_insert_keeps_groups(q: Seq<CandidatePair>, j: int, x: CandidatePair, p: u32)
    requires
        0 <= j <= q.len(),
        forall|k: int| j <= k < q.len() ==> #[trigger] q[k].priority < x.priority,
    ensures
        with_priority(q.take(j) + seq![x] + q.skip(j), p) == (if x.priority == p {
            with_priority(q, p).push(x)
        } else {
            with_priority(q, p)
        }),
{
    let pred = priority_is(p);
    let a = q.take(j);
    let b = q.skip(j);
    assert(q =~= a + b);
    Seq::filter_distributes_over_add(a, b, pred);
    Seq::filter_distributes_over_add(a + seq![x], b, pred);
    Seq::filter_distributes_over_add(a, seq![x], pred);
    assert(seq![x].filter(pred) == (if pred(x) { seq![x] } else { Seq::<CandidatePair>::empty() })) by {
        reveal_with_fuel(Seq::filter, 2);
        assert(seq![x].drop_last() =~= Seq::<CandidatePair>::empty());
    }
    if x.priority == p {
        assert forall|k: int| 0 <= k < b.len() implies !pred(#[trigger] b[k]) by {
            assert(b[k] == q[j + k]);
        }
        b.lemma_all_neg_filter_empty(pred);
        assert(b.filter(pred) =~= Seq::<CandidatePair>::empty());
        assert(a.filter(pred) + seq![x] + b.filter(pred) =~= (a.filter(pred) + b.filter(pred)).push(x));
    } else {
        assert(a.filter(pred) + Seq::<CandidatePair>::empty() + b.filter(pred) =~= a.filter(pred) + b.filter(pred));
    }
}

/// One insertion step: placing `orig[i]` after the first `j` pairs of the sorted
/// prefix `q` keeps the prefix sorted and its priority groups those of `orig`.
proof fn lemma_insertion_step(orig: Seq<CandidatePair>, q: Seq<CandidatePair>, i: int, j: int, x: CandidatePair)
    requires
        0 <= j <= i < orig.len(),
        q.len() == i,
        x == orig[i],
        sorted_by_priority_desc(q),
        forall|p: u32| #[trigger] with_priority(orig.take(i), p) == with_priority(q, p),
        forall|k: int| j <= k < i ==> #[trigger] q[k].priority < x.priority,
        j > 0 ==> q[j - 1].priority >= x.priority,
    ensures
        sorted_by_priority_desc(q.take(j) + seq![x] + q.skip(j)),
        forall|p: u32| #[trigger] with_priority(orig.take(i + 1), p) == with_priority(q.take(j) + seq![x] + q.skip(j), p),
{
    let nq = q.take(j) + seq![x] + q.skip(j);
    assert(orig.take(i + 1) =~= orig.take(i).push(x));
    assert forall|p: u32| #[trigger] with_priority(orig.take(i + 1), p) == with_priority(nq, p) by {
        lemma_insert_keeps_groups(q, j, x, p);
        orig.take(i).lemma_filter_push(x, priority_is(p));
        assert(with_priority(orig.take(i), p) == with_priority(q, p));
        assert(priority_is(p)(x) == (x.priority == p));
    }
    assert forall|a: int, b: int| 0 <= a < b < nq.len() implies #[trigger] nq[a].priority >= #[trigger] nq[b].priority by {
        if b < j {
            assert(nq[a] == q[a] && nq[b] == q[b]);
        } else if b == j {
            assert(nq[a] == q[a]);
            assert(q[a].priority >= q[j - 1].priority);
        } else if a < j {
            assert(nq[a] == q[a] && nq[b] == q[b - 1]);
        } else if a == j {
            assert(nq[b] == q[b - 1]);
        } else {
            assert(nq[a] == q[a - 1] && nq[b] == q[b - 1]);
        }
    }
}

impl ConnectivityManager {
    /// Every local/remote combination as an unchecked pair, with the priority
    /// that its candidate types give, local candidates outer and remote ones inner.
    pub fn build_candidate_pairs(local: &[IceCandidate], remote: &[IceCandidate]) -> (pairs: Vec<
        CandidatePair,
    >)
        ensures
            pairs@ == all_pairs(local@, remote@),
    {
        let mut pairs: Vec<CandidatePair> = Vec::new();
        let n = local.len();
        let m = remote.len();
        let mut i: usize = 0;
        while i < n
            invariant
                n == local@.len(),
                m == remote@.len(),
                i <= n,
                pairs@ == all_pairs(local@.take(i as int), remote@),
            decreases n - i,
        {
            let l = &local[i];
            let mut j: usize = 0;
            while j < m
                invariant
                    n == local@.len(),
                    m == remote@.len(),
                    i < n,
                    j <= m,
                    *l == local@[i as int],
                    pairs@ == all_pairs(local@.take(i as int), remote@) + pairs_with(
                        local@[i as int],
                        remote@.take(j as int),
                    ),
                decreases m - j,
            {
                let r = &remote[j];
                let priority: u32 = match (l.candidate_type, r.candidate_type) {
                    (CandidateType::Host, CandidateType::Host) => 100,
                    (CandidateType::Host, CandidateType::ServerReflexive)
                    | (CandidateType::ServerReflexive, CandidateType::Host) => 90,
                    (CandidateType::ServerReflexive, CandidateType::ServerReflexive) => 80,
                    _ => 50,
                };
                pairs.push(CandidatePair::new(l.clone(), r.clone(), priority));
                proof {
                    assert(remote@.take(j + 1) =~= remote@.take(j as int).push(remote@[j as int]));
                    assert(pairs_with(local@[i as int], remote@.take(j + 1)) =~= pairs_with(
                        local@[i as int],
                        remote@.take(j as int),
                    ).push(make_pair(local@[i as int], remote@[j as int])));
                }
                j = j + 1;
            }
            proof {
                assert(remote@.take(m as int) =~= remote@);
                assert(local@.take(i + 1).drop_last() =~= local@.take(i as int));
            }
            i = i + 1;
        }
        proof {
            assert(local@.take(n as int) =~= local@);
        }
        pairs
    }

    /// Orders pairs by decreasing priority; pairs of equal priority keep their
    /// order, so pairs that are already ordered are left as they are.
    pub fn prioritize_pairs(pairs: &mut [CandidatePair])
        ensures
            final(pairs)@.len() == old(pairs)@.len(),
            sorted_by_priority_desc(final(pairs)@),
            same_priority_groups(old(pairs)@, final(pairs)@),
            sorted_by_priority_desc(old(pairs)@) ==> final(pairs)@ == old(pairs)@,
    {
        let ghost orig = pairs@;
        let n = pairs.len();
        let mut i: usize = 0;
        while i < n
            invariant
                n == pairs@.len(),
                orig.len() == n,
                i <= n,
                sorted_by_priority_desc(pairs@.take(i as int)),
                forall|p: u32| #[trigger] with_priority(orig.take(i as int), p) == with_priority(pairs@.take(i as int), p),
                pairs@.skip(i as int) == orig.skip(i as int),
                sorted_by_priority_desc(orig) ==> pairs@.take(i as int) == orig.take(i as int),
            decreases n - i,
        {
            let ghost q = pairs@.take(i as int);
            let ghost rest = orig.skip(i + 1);
            let ghost x = orig[i as int];
            proof {
                assert(pairs@[i as int] == orig.skip(i as int)[0]);
                assert(pairs@ =~= q.take(i as int) + seq![x] + q.skip(i as int) + rest) by {
                    assert(orig.skip(i as int) =~= seq![x] + rest);
                    assert(pairs@ =~= q + pairs@.skip(i as int));
                }
            }
            let xp = pairs[i].priority;
            let mut j: usize = i;
            while j > 0 && pairs[j - 1].priority < xp
                invariant
                    n == pairs@.len(),
                    i < n,
                    j <= i,
                    q.len() == i,
                    x.priority == xp,
                    pairs@ == q.take(j as int) + seq![x] + q.skip(j as int) + rest,
                    forall|k: int| j <= k < i ==> #[trigger] q[k].priority < xp,
                    x == orig[i as int],
                    orig.len() == n,
                    sorted_by_priority_desc(orig) && q == orig.take(i as int) ==> j == i,
                decreases j,
            {
                proof {
                    assert(pairs@[j - 1] == q[j - 1]);
                    assert(pairs@[j as int] == x);
                    if sorted_by_priority_desc(orig) && q == orig.take(i as int) {
                        assert(q[j - 1] == orig[j - 1]);
                        assert(orig[j - 1].priority >= orig[i as int].priority);
                    }
                }
                let a = pairs[j - 1].clone();
                let b = pairs[j].clone();
                pairs[j - 1] = b;
                pairs[j] = a;
                proof {
                    assert(pairs@ =~= q.take(j - 1) + seq![x] + q.skip(j - 1) + rest);
                }
                j = j - 1;
            }
            proof {
                assert(j > 0 ==> q[j - 1].priority >= xp);
                lemma_insertion_step(orig, q, i as int, j as int, x);
                assert(pairs@.take(i + 1) =~= q.take(j as int) + seq![x] + q.skip(j as int));
                assert(pairs@.skip(i + 1) =~= rest);
                if sorted_by_priority_desc(orig) {
                    assert(q.take(i as int) =~= q);
                    assert(q.skip(i as int) =~= Seq::<CandidatePair>::empty());
                    assert(orig.take(i + 1) =~= orig.take(i as int).push(orig[i as int]));
                }
            }
            i = i + 1;
        }
        proof {
            assert(pairs@.take(n as int) =~= pairs@);
            assert(orig.take(n as int) =~= orig);
        }
    }


    /// The first pair whose check connected, if any.
    pub fn select_working_pair(pairs: &[CandidatePair]) -> (res: Option<CandidatePair>)
        ensures
            match res {
                Some(p) => exists|k: int|
                    0 <= k < pairs@.len() && pairs@[k] == p && p.state == IceConnectionState::Connected
                        && forall|k2: int| 0 <= k2 < k ==> #[trigger] pairs@[k2].state != IceConnectionState::Connected,
                None => forall|k: int| 0 <= k < pairs@.len() ==> #[trigger] pairs@[k].state != IceConnectionState::Connected,
            },
    {
        let n = pairs.len();
        let mut k: usize = 0;
        while k < n
            invariant
                n == pairs@.len(),
                k <= n,
                forall|k2: int| 0 <= k2 < k ==> #[trigger] pairs@[k2].state != IceConnectionState::Connected,
            decreases n - k,
        {
            if pairs[k].state == IceConnectionState::Connected {
                return Some(pairs[k].clone());
            }
            k = k + 1;
        }
        None
    }
}

/// The priorities of pair kinds: two host candidates first, then a host with a
/// server-reflexive candidate (either way round), then two server-reflexive
/// candidates, and every pair through a relay last.
pub proof fn lemma_pair_kinds_rank(l: CandidateType, r: CandidateType)
    ensures
        pair_priority(CandidateType::Host, CandidateType::Host) > pair_priority(
            CandidateType::Host,
            CandidateType::ServerReflexive,
        ),
        pair_priority(CandidateType::Host, CandidateType::ServerReflexive) == pair_priority(
            CandidateType::ServerReflexive,
            CandidateType::Host,
        ),
        pair_priority(CandidateType::ServerReflexive, CandidateType::Host) > pair_priority(
            CandidateType::ServerReflexive,
            CandidateType::ServerReflexive,
        ),
        l == CandidateType::Relay || r == CandidateType::Relay ==> pair_priority(
            CandidateType::ServerReflexive,
            CandidateType::ServerReflexive,
        ) > pair_priority(l, r),
        !(l == CandidateType::Relay || r == CandidateType::Relay) ==> pair_priority(l, r) >= pair_priority(
            CandidateType::ServerReflexive,
            CandidateType::ServerReflexive,
        ),
{
}

/// Every pair formed from two candidate lists carries the priority of its kind.
pub proof fn lemma_pairs_carry_kind_priority(local: Seq<IceCandidate>, remote: Seq<IceCandidate>, k: int)
    requires
        0 <= k < all_pairs(local, remote).len(),
    ensures
        all_pairs(local, remote)[k].priority == pair_priority(
            all_pairs(local, remote)[k].local.candidate_type,
            all_pairs(local, remote)[k].remote.candidate_type,
        ),
    decreases local.len(),
{
    if local.len() > 0 {
        let front = all_pairs(local.drop_last(), remote);
        if k < front.len() {
            lemma_pairs_carry_kind_priority(local.drop_last(), remote, k);
        } else {
            assert(all_pairs(local, remote)[k] == pairs_with(local.last(), remote)[k - front.len()]);
        }
    }
}

/// In prioritized pairs that carry the priority of their kind, every pair of
/// two server-reflexive candidates is checked before every pair through a relay.
pub proof fn lemma_reflexive_before_relay(t: Seq<CandidatePair>, a: int, b: int)
    requires
        sorted_by_priority_desc(t),
        0 <= a < t.len(),
        0 <= b < t.len(),
        t[a].priority == pair_priority(t[a].local.candidate_type, t[a].remote.candidate_type),
        t[b].priority == pair_priority(t[b].local.candidate_type, t[b].remote.candidate_type),
        t[a].local.candidate_type == CandidateType::ServerReflexive,
        t[a].remote.candidate_type == CandidateType::ServerReflexive,
        t[b].local.candidate_type == CandidateType::Relay || t[b].remote.candidate_type == CandidateType::Relay,
    ensures
        a < b,
{
    lemma_pair_kinds_rank(t[b].local.candidate_type, t[b].remote.candidate_type);
    if b < a {
        assert(t[b].priority >= t[a].priority);
    }
}

} // verus!
