//! Choosing the best local/remote candidate pair for a connection.
use vstd::prelude::*;
use crate::error::MessengerError;
use crate::network::candidate::{CandidateType, IceCandidate};

verus! {

/// The pair of candidates chosen for a connection.
#[derive(Debug)]
pub struct SelectedCandidatePair {
    pub local: IceCandidate,
    pub remote: IceCandidate,
}

impl Clone for SelectedCandidatePair {
    fn clone(&self) -> (r: Self)
        ensures
            r == *self,
    {
        SelectedCandidatePair { local: self.local.clone(), remote: self.remote.clone() }
    }
}

/// Picks the candidate pair with the best score.
pub struct CandidateSelector;

/// The part of a pair's score that its two candidate types give: direct
/// (host) paths first, then paths through one reflexive address, then the rest.
pub open spec fn type_score(l: CandidateType, r: CandidateType) -> int {
    match (l, r) {
        (CandidateType::Host, CandidateType::Host) => 10000,
        (CandidateType::Host, CandidateType::ServerReflexive) => 8000,
        (CandidateType::ServerReflexive, CandidateType::Host) => 8000,
        (CandidateType::ServerReflexive, CandidateType::ServerReflexive) => 6000,
        _ => 4000,
    }
}

/// The score of a pair: its type score, with both priorities added as a tie-breaker.
pub open spec fn pair_score(l: IceCandidate, r: IceCandidate) -> int {
    type_score(l.candidate_type, r.candidate_type) + l.priority + r.priority
}

/// Pair `(i2, j2)` comes before pair `(i, j)` in the order in which local and
/// remote candidates are walked (local outer, remote inner).
pub open spec fn walked_before(i2: int, j2: int, i: int, j: int) -> bool {
    i2 < i || (i2 == i && j2 < j)
}

/// `(i, j)` indexes the first pair, in walking order, of the highest score.
pub open spec fn is_first_best(local: Seq<IceCandidate>, remote: Seq<IceCandidate>, i: int, j: int) -> bool {
    &&& 0 <= i < local.len()
    &&& 0 <= j < remote.len()
    &&& forall|i2: int, j2: int|
        0 <= i2 < local.len() && 0 <= j2 < remote.len() ==> #[trigger] pair_score(local[i2], remote[j2])
            <= pair_score(local[i], remote[j])
    &&& forall|i2: int, j2: int|
        0 <= i2 < local.len() && 0 <= j2 < remote.len() && walked_before(i2, j2, i, j)
            ==> #[trigger] pair_score(local[i2], remote[j2]) < pair_score(local[i], remote[j])
}

/// The score of a candidate pair.
pub fn score_pair(local: &IceCandidate, remote: &IceCandidate) -> (s: u64)
    ensures
        s == pair_score(*local, *remote),
{
    let type_score: u64 = match (local.candidate_type, remote.candidate_type) {
        (CandidateType::Host, CandidateType::Host) => 10000,
        (CandidateType::Host, CandidateType::ServerReflexive)
        | (CandidateType::ServerReflexive, CandidateType::Host) => 8000,
        (CandidateType::ServerReflexive, CandidateType::ServerReflexive) => 6000,
        _ => 4000,
    };
    type_score + (local.priority as u64) + (remote.priority as u64)
}

impl CandidateSelector {
    /// The first pair, walking local candidates and for each of them the remote
    /// ones, whose score is the highest. An empty side is refused, the local side first.
    pub fn select_best_pair(local: &[IceCandidate], remote: &[IceCandidate]) -> (res: Result<
        SelectedCandidatePair,
        MessengerError,
    >)
        ensures
            local@.len() == 0 ==> res == Err::<SelectedCandidatePair, MessengerError>(
                MessengerError::LocalCandidatesEmpty,
            ),
            local@.len() > 0 && remote@.len() == 0 ==> res == Err::<
                SelectedCandidatePair,
                MessengerError,
            >(MessengerError::RemoteCandidatesEmpty),
            local@.len() > 0 && remote@.len() > 0 ==> (res matches Ok(p) && exists|i: int, j: int|
                is_first_best(local@, remote@, i, j) && p.local == local@[i] && p.remote
                    == remote@[j]),
    {
        if local.len() == 0 {
            return Err(MessengerError::LocalCandidatesEmpty);
        }
        if remote.len() == 0 {
            return Err(MessengerError::RemoteCandidatesEmpty);
        }
        let n = local.len();
        let m = remote.len();
        let mut found = false;
        let mut bi: usize = 0;
        let mut bj: usize = 0;
        let mut best_score: u64 = 0;
        let mut i: usize = 0;
        while i < n
            invariant
                n == local@.len(),
                m == remote@.len(),
                m > 0,
                i <= n,
                found <==> i > 0,
                found ==> bi < i && bj < m && best_score == pair_score(local@[bi as int], remote@[bj as int]),
                found ==> forall|i2: int, j2: int|
                    0 <= i2 < i && 0 <= j2 < m ==> #[trigger] pair_score(local@[i2], remote@[j2])
                        <= best_score,
                found ==> forall|i2: int, j2: int|
                    0 <= i2 < n && 0 <= j2 < m && walked_before(i2, j2, bi as int, bj as int)
                        ==> #[trigger] pair_score(local@[i2], remote@[j2]) < best_score,
            decreases n - i,
        {
            let mut j: usize = 0;
            while j < m
                invariant
                    n == local@.len(),
                    m == remote@.len(),
                    i < n,
                    j <= m,
                    found <==> (i > 0 || j > 0),
                    found ==> walked_before(bi as int, bj as int, i as int, j as int) && bi < n && bj < m
                        && best_score == pair_score(local@[bi as int], remote@[bj as int]),
                    found ==> forall|i2: int, j2: int|
                        0 <= i2 < n && 0 <= j2 < m && walked_before(i2, j2, i as int, j as int)
                            ==> #[trigger] pair_score(local@[i2], remote@[j2]) <= best_score,
                    found ==> forall|i2: int, j2: int|
                        0 <= i2 < n && 0 <= j2 < m && walked_before(i2, j2, bi as int, bj as int)
                            ==> #[trigger] pair_score(local@[i2], remote@[j2]) < best_score,
                decreases m - j,
            {
                let score = score_pair(&local[i], &remote[j]);
                if !found || score > best_score {
                    found = true;
                    bi = i;
                    bj = j;
                    best_score = score;
                }
                j = j + 1;
            }
            i = i + 1;
        }
        let pair = SelectedCandidatePair { local: local[bi].clone(), remote: remote[bj].clone() };
        proof {
            assert(is_first_best(local@, remote@, bi as int, bj as int));
        }
        Ok(pair)
    }
}

/// Whether a candidate is relayed.
pub open spec fn is_relay(c: IceCandidate) -> bool {
    c.candidate_type == CandidateType::Relay
}

/// Between pairs whose priorities add up to no less, the kind of path decides
/// the score: two host candidates beat a host with a server-reflexive one,
/// which beats two server-reflexive candidates, which beat any pair through a
/// relay.
pub proof fn lemma_path_kinds_rank(l1: IceCandidate, r1: IceCandidate, l2: IceCandidate, r2: IceCandidate)
    requires
        l1.priority + r1.priority >= l2.priority + r2.priority,
    ensures
        l1.candidate_type == CandidateType::Host && r1.candidate_type == CandidateType::Host && !(
        l2.candidate_type == CandidateType::Host && r2.candidate_type == CandidateType::Host)
            ==> pair_score(l1, r1) > pair_score(l2, r2),
        (l1.candidate_type == CandidateType::Host && r1.candidate_type == CandidateType::ServerReflexive
            || l1.candidate_type == CandidateType::ServerReflexive && r1.candidate_type == CandidateType::Host)
            && l2.candidate_type == CandidateType::ServerReflexive && r2.candidate_type == CandidateType::ServerReflexive
            ==> pair_score(l1, r1) > pair_score(l2, r2),
        l1.candidate_type == CandidateType::ServerReflexive && r1.candidate_type == CandidateType::ServerReflexive
            && (is_relay(l2) || is_relay(r2)) ==> pair_score(l1, r1) > pair_score(l2, r2),
        l1.candidate_type == r1.candidate_type && l2.candidate_type == r2.candidate_type
            && l1.candidate_type == l2.candidate_type ==> pair_score(l1, r1) - pair_score(l2, r2) == (
        l1.priority + r1.priority) - (l2.priority + r2.priority),
{
}

/// The chosen pair goes through no relay when some pair of two
/// server-reflexive candidates has priorities adding up to no less.
pub proof fn lemma_best_pair_avoids_relay(
    local: Seq<IceCandidate>,
    remote: Seq<IceCandidate>,
    i: int,
    j: int,
    i2: int,
    j2: int,
)
    requires
        is_first_best(local, remote, i, j),
        0 <= i2 < local.len(),
        0 <= j2 < remote.len(),
        local[i2].candidate_type == CandidateType::ServerReflexive,
        remote[j2].candidate_type == CandidateType::ServerReflexive,
        local[i2].priority + remote[j2].priority >= local[i].priority + remote[j].priority,
    ensures
        !is_relay(local[i]),
        !is_relay(remote[j]),
{
    assert(pair_score(local[i2], remote[j2]) <= pair_score(local[i], remote[j]));
    lemma_path_kinds_rank(local[i2], remote[j2], local[i], remote[j]);
}

} // verus!
