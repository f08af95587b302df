//! The rounds of a hole-punching run and the session it leaves.
use vstd::prelude::*;
use crate::error::MessengerError;
use crate::ice::pair::CandidatePair;
use crate::punch::manager::{first_punch_for, has_punch_for, resume_result};
use crate::punch::session::PunchSession;
use crate::punch::state::PunchState;
use crate::protocol::packet::PacketType;
use crate::stamp::{is_stamp, now_rfc3339};
use crate::text::{ascii_lower, eq_ignore_ascii_case, eq_ignore_ascii_case_spec};

verus! {

/// The most probes that a hole-punching run sends.
pub const MAX_PUNCH_ATTEMPTS: usize = 10;

/// What a hole-punching run does after the probe of attempt `attempt`.
#[derive(Debug, Clone, Copy, PartialEq, Eq, Structural)]
pub enum PunchStep {
    /// Send the probe of this attempt.
    Probe(usize),
    /// Stop: the session ended in this state after this many attempts.
    Finish(PunchState, usize),
}

/// The step after attempt `attempt`, given whether the peer acknowledged it:
/// an acknowledgement establishes the session; otherwise the next attempt is
/// probed, until the tenth one has failed.
pub open spec fn next_punch_step(attempt: usize, acked: bool) -> PunchStep {
    if acked {
        PunchStep::Finish(PunchState::Established, attempt)
    } else if attempt >= MAX_PUNCH_ATTEMPTS {
        PunchStep::Finish(PunchState::Failed, attempt)
    } else {
        PunchStep::Probe((attempt + 1) as usize)
    }
}

/// What a run that waits for an acknowledgement does with a packet it received.
#[derive(Debug, Clone, Copy, PartialEq, Eq, Structural)]
pub enum AckWait {
    /// The peer acknowledged a probe.
    Acknowledged,
    /// The peer is probing too: acknowledge its probe, and count the attempt as acknowledged.
    AnswerProbe,
    /// Neither: the attempt is not acknowledged by this packet.
    Ignore,
}

/// What a waiting run does with a received packet of type `t`.
pub open spec fn ack_wait_spec(t: PacketType) -> AckWait {
    if t == PacketType::PunchAck {
        AckWait::Acknowledged
    } else if t == PacketType::PunchProbe {
        AckWait::AnswerProbe
    } else {
        AckWait::Ignore
    }
}

/// Decides what a waiting run does with a received packet of type `t`.
pub fn ack_wait_step(t: PacketType) -> (w: AckWait)
    ensures
        w == ack_wait_spec(t),
{
    if t == PacketType::PunchAck {
        AckWait::Acknowledged
    } else if t == PacketType::PunchProbe {
        AckWait::AnswerProbe
    } else {
        AckWait::Ignore
    }
}

/// How long a run waits for an acknowledgement after each probe, in milliseconds.
pub const PROBE_WINDOW_MS: u64 = 500;

/// How much longer a run waits for an acknowledgement, `elapsed_ms`
/// milliseconds after a probe: the rest of the window, none once it is over.
pub fn probe_wait(elapsed_ms: u64) -> (w: Option<u64>)
    ensures
        w == (if elapsed_ms < PROBE_WINDOW_MS { Some((PROBE_WINDOW_MS - elapsed_ms) as u64) } else { None::<u64> }),
{
    if elapsed_ms < PROBE_WINDOW_MS {
        Some(PROBE_WINDOW_MS - elapsed_ms)
    } else {
        None
    }
}

/// The first step of a run: probe attempt 1.
pub fn first_punch_step() -> (s: PunchStep)
    ensures
        s == PunchStep::Probe(1),
{
    PunchStep::Probe(1)
}

/// Decides the step after attempt `attempt` (1 to 10).
pub fn punch_step(attempt: usize, acked: bool) -> (s: PunchStep)
    requires
        1 <= attempt <= MAX_PUNCH_ATTEMPTS,
    ensures
        s == next_punch_step(attempt, acked),
{
    if acked {
        PunchStep::Finish(PunchState::Established, attempt)
    } else if attempt >= MAX_PUNCH_ATTEMPTS {
        PunchStep::Finish(PunchState::Failed, attempt)
    } else {
        PunchStep::Probe(attempt + 1)
    }
}

/// A run never probes more than ten times, and gives up only after the tenth
/// probe went unacknowledged.
pub proof fn lemma_punch_attempts_bounded(attempt: usize, acked: bool)
    requires
        1 <= attempt <= MAX_PUNCH_ATTEMPTS,
    ensures
        next_punch_step(attempt, acked) matches PunchStep::Probe(k) ==> k == attempt + 1 && k
            <= MAX_PUNCH_ATTEMPTS,
        next_punch_step(attempt, acked) matches PunchStep::Finish(s, n) ==> n == attempt && (s
            == PunchState::Failed <==> n == MAX_PUNCH_ATTEMPTS && !acked),
{
}

/// `s` without the sessions with `peer` (up to ASCII case).
pub open spec fn without_peer(s: Seq<PunchSession>, peer: Seq<char>) -> Seq<PunchSession> {
    s.filter(|x: PunchSession| !eq_ignore_ascii_case_spec(x.peer@, peer))
}

/// Records the outcome of a run with `peer` over `pair`: the sessions with that
/// peer (up to ASCII case) are dropped and the new session is appended.
pub fn complete_punch_session(
    sessions: &mut Vec<PunchSession>,
    session_id: &str,
    peer: &str,
    selected_pair: &CandidatePair,
    attempts: usize,
    state: PunchState,
) -> (ps: PunchSession)
    ensures
        ps.session_id@ == session_id@,
        ps.peer@ == peer@,
        ps.selected_pair == *selected_pair,
        ps.state == state,
        ps.attempts == attempts,
        is_stamp(ps.started_at@),
        final(sessions)@ == without_peer(old(sessions)@, peer@).push(ps),
{
    let ps = PunchSession {
        session_id: String::from_str(session_id),
        peer: String::from_str(peer),
        selected_pair: selected_pair.clone(),
        state,
        attempts,
        started_at: now_rfc3339(),
    };
    let ghost orig = sessions@;
    let mut kept: Vec<PunchSession> = Vec::new();
    let n = sessions.len();
    let mut i: usize = 0;
    while i < n
        invariant
            n == sessions@.len(),
            sessions@ == orig,
            i <= n,
            kept@ == without_peer(orig.take(i as int), peer@),
        decreases n - i,
    {
        proof {
            assert(orig.take(i + 1) =~= orig.take(i as int).push(orig[i as int]));
            orig.take(i as int).lemma_filter_push(orig[i as int], |x: PunchSession| !eq_ignore_ascii_case_spec(x.peer@, peer@));
        }
        if !eq_ignore_ascii_case(sessions[i].peer.as_str(), peer) {
            kept.push(sessions[i].clone());
        }
        i = i + 1;
    }
    proof {
        assert(orig.take(n as int) =~= orig);
    }
    kept.push(ps.clone());
    *sessions = kept;
    ps
}

/// Equality up to ASCII case is transitive.
proof fn lemma_eq_ignore_case_trans(a: Seq<char>, b: Seq<char>, c: Seq<char>)
    requires
        eq_ignore_ascii_case_spec(a, b),
        eq_ignore_ascii_case_spec(b, c),
    ensures
        eq_ignore_ascii_case_spec(a, c),
{
    assert forall|i: int| 0 <= i < a.len() implies #[trigger] ascii_lower(a[i]) == ascii_lower(c[i]) by {
        assert(ascii_lower(a[i]) == ascii_lower(b[i]));
        assert(ascii_lower(b[i]) == ascii_lower(c[i]));
    }
}

/// Equality up to ASCII case is symmetric.
proof fn lemma_eq_ignore_case_sym(a: Seq<char>, b: Seq<char>)
    requires
        eq_ignore_ascii_case_spec(a, b),
    ensures
        eq_ignore_ascii_case_spec(b, a),
{
    assert forall|i: int| 0 <= i < b.len() implies #[trigger] ascii_lower(b[i]) == ascii_lower(a[i]) by {
        assert(ascii_lower(a[i]) == ascii_lower(b[i]));
    }
}

/// After a run with `peer` is recorded, resuming the session with that peer
/// (under any ASCII case of its name) gives back the recorded session when it
/// was established, and refuses with its state when it was not.
pub proof fn lemma_resume_after_complete(
    before: Seq<PunchSession>,
    peer: Seq<char>,
    ps: PunchSession,
    query: Seq<char>,
)
    requires
        ps.peer@ == peer,
        eq_ignore_ascii_case_spec(query, peer),
    ensures
        resume_result(
            without_peer(before, peer).push(ps),
            query,
            if ps.state == PunchState::Established {
                Ok::<PunchSession, MessengerError>(ps)
            } else {
                Err::<PunchSession, MessengerError>(MessengerError::PunchNotEstablished(ps.state))
            },
        ),
{
    let pred = |x: PunchSession| !eq_ignore_ascii_case_spec(x.peer@, peer);
    let kept = without_peer(before, peer);
    let after = kept.push(ps);
    let k = kept.len() as int;
    assert forall|k2: int| 0 <= k2 < k implies !eq_ignore_ascii_case_spec(#[trigger] after[k2].peer@, query) by {
        assert(after[k2] == kept[k2]);
        before.lemma_filter_pred(pred, k2);
        if eq_ignore_ascii_case_spec(after[k2].peer@, query) {
            lemma_eq_ignore_case_trans(after[k2].peer@, query, peer);
        }
    }
    lemma_eq_ignore_case_sym(query, peer);
    assert(after[k] == ps);
    assert(first_punch_for(after, query, k));
    assert(has_punch_for(after, query));
}

} // verus!
