//! Gathering the unread messages of all conversations.
use vstd::prelude::*;
use crate::chat::models::{Direction, Message, MessageStatus, is_unread};
use crate::stamp::{UtcTime, lemma_time_le_is_instant_order, nanos_since_epoch, time_le, time_not_after};

verus! {

/// Reads across conversations.
pub struct MessageManager;

/// The unread messages of one conversation, each with its contact's name.
pub open spec fn unread_of(name: String, messages: Seq<Message>) -> Seq<(String, Message)> {
    messages.filter(unread_test()).map_values(tagged(name))
}

/// The test "is unread".
pub open spec fn unread_test() -> spec_fn(Message) -> bool {
    |m: Message| is_unread(m)
}

/// Tagging a message with its contact's name.
pub open spec fn tagged(name: String) -> spec_fn(Message) -> (String, Message) {
    |m: Message| (name, m)
}

/// The unread messages of all conversations, conversation by conversation.
pub open spec fn all_unread(convs: Seq<(String, Vec<Message>)>) -> Seq<(String, Message)>
    decreases convs.len(),
{
    if convs.len() == 0 {
        Seq::empty()
    } else {
        all_unread(convs.drop_last()) + unread_of(convs.last().0, convs.last().1@)
    }
}

/// Timestamps do not decrease along `s`.
pub open spec fn sorted_by_time(s: Seq<(String, Message)>) -> bool {
    forall|a: int, b: int| 0 <= a < b < s.len() ==> time_le(#[trigger] s[a].1.timestamp, #[trigger] s[b].1.timestamp)
}

/// The test "was sent at `t`".
pub open spec fn sent_at(t: UtcTime) -> spec_fn((String, Message)) -> bool {
    |x: (String, Message)| x.1.timestamp == t
}

/// The entries of `s` sent at `t`, in their order in `s`.
pub open spec fn with_time(s: Seq<(String, Message)>, t: UtcTime) -> Seq<(String, Message)> {
    s.filter(sent_at(t))
}

/// `t` orders the entries of `s` by time, entries of the same time keeping
/// their order in `s`.
pub open spec fn stably_sorted_from(s: Seq<(String, Message)>, t: Seq<(String, Message)>) -> bool {
    &&& sorted_by_time(t)
    &&& forall|tm: UtcTime| #[trigger] with_time(s, tm) == with_time(t, tm)
}

/// Inserting `x` after the first `j` entries of `q`, all later ones being later
/// than `x`, adds `x` at the end of its time group and changes no other group.
proof fn lemma_insert_keeps_times(q: Seq<(String, Message)>, j: int, x: (String, Message), tm: UtcTime)
    requires
        0 <= j <= q.len(),
        forall|k: int| j <= k < q.len() ==> !time_le(#[trigger] q[k].1.timestamp, x.1.timestamp),
    ensures
        with_time(q.take(j) + seq![x] + q.skip(j), tm) == (if x.1.timestamp == tm {
            with_time(q, tm).push(x)
        } else {
            with_time(q, tm)
        }),
{
    let pred = sent_at(tm);
    let a = q.take(j);
    let b = q.skip(j);
    assert(q =~= a + b);
    Seq::filter_distributes_over_add(a, b, pred);
    Seq::filter_distributes_over_add(a + seq![x], b, pred);
    Seq::filter_distributes_over_add(a, seq![x], pred);
    assert(seq![x].filter(pred) == (if pred(x) { seq![x] } else { Seq::<(String, Message)>::empty() })) by {
        reveal_with_fuel(Seq::filter, 2);
        assert(seq![x].drop_last() =~= Seq::<(String, Message)>::empty());
    }
    if x.1.timestamp == tm {
        assert forall|k: int| 0 <= k < b.len() implies !pred(#[trigger] b[k]) by {
            assert(b[k] == q[j + k]);
        }
        b.lemma_all_neg_filter_empty(pred);
        assert(b.filter(pred) =~= Seq::<(String, Message)>::empty());
        assert(a.filter(pred) + seq![x] + b.filter(pred) =~= (a.filter(pred) + b.filter(pred)).push(x));
    } else {
        assert(a.filter(pred) + Seq::<(String, Message)>::empty() + b.filter(pred) =~= a.filter(pred) + b.filter(pred));
    }
}

/// One insertion step of the stable sort by time.
proof fn lemma_time_insertion_step(orig: Seq<(String, Message)>, q: Seq<(String, Message)>, i: int, j: int, x: (String, Message))
    requires
        0 <= j <= i < orig.len(),
        q.len() == i,
        x == orig[i],
        sorted_by_time(q),
        forall|tm: UtcTime| #[trigger] with_time(orig.take(i), tm) == with_time(q, tm),
        forall|k: int| j <= k < i ==> !time_le(#[trigger] q[k].1.timestamp, x.1.timestamp),
        j > 0 ==> time_le(q[j - 1].1.timestamp, x.1.timestamp),
    ensures
        sorted_by_time(q.take(j) + seq![x] + q.skip(j)),
        forall|tm: UtcTime| #[trigger] with_time(orig.take(i + 1), tm) == with_time(q.take(j) + seq![x] + q.skip(j), tm),
{
    let nq = q.take(j) + seq![x] + q.skip(j);
    assert(orig.take(i + 1) =~= orig.take(i).push(x));
    assert forall|tm: UtcTime| #[trigger] with_time(orig.take(i + 1), tm) == with_time(nq, tm) by {
        lemma_insert_keeps_times(q, j, x, tm);
        orig.take(i).lemma_filter_push(x, sent_at(tm));
        assert(with_time(orig.take(i), tm) == with_time(q, tm));
        assert(sent_at(tm)(x) == (x.1.timestamp == tm));
    }
    assert forall|a: int, b: int| 0 <= a < b < nq.len() implies time_le(#[trigger] nq[a].1.timestamp, #[trigger] nq[b].1.timestamp) by {
        if b < j {
            assert(nq[a] == q[a] && nq[b] == q[b]);
        } else if b == j {
            assert(nq[a] == q[a]);
            assert(time_le(q[a].1.timestamp, q[j - 1].1.timestamp));
        } else if a < j {
            assert(nq[a] == q[a] && nq[b] == q[b - 1]);
        } else if a == j {
            assert(nq[b] == q[b - 1]);
        } else {
            assert(nq[a] == q[a - 1] && nq[b] == q[b - 1]);
        }
    }
}

/// Orders entries by time; entries of the same time keep their order.
fn sort_by_time(entries: &mut Vec<(String, Message)>)
    ensures
        final(entries)@.len() == old(entries)@.len(),
        stably_sorted_from(old(entries)@, final(entries)@),
{
    let ghost orig = entries@;
    let n = entries.len();
    let mut i: usize = 0;
    while i < n
        invariant
            n == entries@.len(),
            orig.len() == n,
            i <= n,
            sorted_by_time(entries@.take(i as int)),
            forall|tm: UtcTime| #[trigger] with_time(orig.take(i as int), tm) == with_time(entries@.take(i as int), tm),
            entries@.skip(i as int) == orig.skip(i as int),
        decreases n - i,
    {
        let ghost q = entries@.take(i as int);
        let ghost rest = orig.skip(i + 1);
        let ghost x = orig[i as int];
        proof {
            assert(entries@[i as int] == orig.skip(i as int)[0]);
            assert(entries@ =~= q.take(i as int) + seq![x] + q.skip(i as int) + rest) by {
                assert(orig.skip(i as int) =~= seq![x] + rest);
                assert(entries@ =~= q + entries@.skip(i as int));
            }
        }
        let xt = entries[i].1.timestamp;
        let mut j: usize = i;
        while j > 0 && !time_not_after(&entries[j - 1].1.timestamp, &xt)
            invariant
                n == entries@.len(),
                i < n,
                j <= i,
                q.len() == i,
                x.1.timestamp == xt,
                entries@ == q.take(j as int) + seq![x] + q.skip(j as int) + rest,
                forall|k: int| j <= k < i ==> !time_le(#[trigger] q[k].1.timestamp, xt),
            decreases j,
        {
            proof {
                assert(entries@[j - 1] == q[j - 1]);
                assert(entries@[j as int] == x);
            }
            let a = (entries[j - 1].0.clone(), entries[j - 1].1.clone());
            let b = (entries[j].0.clone(), entries[j].1.clone());
            entries.set(j - 1, b);
            entries.set(j, a);
            proof {
                assert(entries@ =~= q.take(j - 1) + seq![x] + q.skip(j - 1) + rest);
            }
            j = j - 1;
        }
        proof {
            assert(j > 0 ==> time_le(q[j - 1].1.timestamp, xt));
            lemma_time_insertion_step(orig, q, i as int, j as int, x);
            assert(entries@.take(i + 1) =~= q.take(j as int) + seq![x] + q.skip(j as int));
            assert(entries@.skip(i + 1) =~= rest);
        }
        i = i + 1;
    }
    proof {
        assert(entries@.take(n as int) =~= entries@);
        assert(orig.take(n as int) =~= orig);
    }
}

/// Gathered unread messages stand in the order of their instants, sub-second
/// parts included: an earlier message never follows a later one.
pub proof fn lemma_unread_in_instant_order(s: Seq<(String, Message)>, a: int, b: int)
    requires
        sorted_by_time(s),
        0 <= a < b < s.len(),
        s[a].1.timestamp.nanos < 1_000_000_000,
        s[b].1.timestamp.nanos < 1_000_000_000,
    ensures
        nanos_since_epoch(s[a].1.timestamp) <= nanos_since_epoch(s[b].1.timestamp),
{
    assert(time_le(s[a].1.timestamp, s[b].1.timestamp));
    lemma_time_le_is_instant_order(s[a].1.timestamp, s[b].1.timestamp);
}

impl MessageManager {
    /// The received messages not yet read, across the conversations (contact
    /// name and messages, in the order given), each with its contact's name,
    /// ordered by time; messages of the same time keep their gathering order.
    pub fn get_unread_messages(conversations: &[(String, Vec<Message>)]) -> (unread: Vec<(String, Message)>)
        ensures
            unread@.len() == all_unread(conversations@).len(),
            stably_sorted_from(all_unread(conversations@), unread@),
    {
        let mut unread: Vec<(String, Message)> = Vec::new();
        let n = conversations.len();
        let mut c: usize = 0;
        while c < n
            invariant
                n == conversations@.len(),
                c <= n,
                unread@ == all_unread(conversations@.take(c as int)),
            decreases n - c,
        {
            let name = &conversations[c].0;
            let messages = &conversations[c].1;
            let m = messages.len();
            let mut k: usize = 0;
            while k < m
                invariant
                    n == conversations@.len(),
                    c < n,
                    m == messages@.len(),
                    k <= m,
                    *name == conversations@[c as int].0,
                    messages@ == conversations@[c as int].1@,
                    unread@ == all_unread(conversations@.take(c as int)) + unread_of(*name, messages@.take(k as int)),
                decreases m - k,
            {
                proof {
                    let pred = unread_test();
                    let mk = tagged(*name);
                    let e = messages@[k as int];
                    let t0 = messages@.take(k as int);
                    assert(messages@.take(k + 1) =~= t0.push(e));
                    t0.lemma_filter_push(e, pred);
                    assert(pred(e) == is_unread(e));
                    if is_unread(e) {
                        assert(t0.push(e).filter(pred) == t0.filter(pred).push(e));
                        t0.filter(pred).lemma_push_map_commute(mk, e);
                        assert(mk(e) == (*name, e));
                    } else {
                        assert(t0.push(e).filter(pred) == t0.filter(pred));
                    }
                }
                let msg = &messages[k];
                if msg.direction == Direction::Incoming && msg.status != MessageStatus::Read {
                    unread.push((name.clone(), msg.clone()));
                }
                proof {
                    assert(unread_of(*name, messages@.take(k + 1)) == (if is_unread(messages@[k as int]) {
                        unread_of(*name, messages@.take(k as int)).push((*name, messages@[k as int]))
                    } else {
                        unread_of(*name, messages@.take(k as int))
                    }));
                }
                k = k + 1;
            }
            proof {
                assert(messages@.take(m as int) =~= messages@);
                assert(conversations@.take(c + 1).drop_last() =~= conversations@.take(c as int));
            }
            c = c + 1;
        }
        proof {
            assert(conversations@.take(n as int) =~= conversations@);
        }
        sort_by_time(&mut unread);
        unread
    }
}

} // verus!
