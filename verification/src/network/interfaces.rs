//! The IPv4 addresses of this machine's interfaces, as candidate addresses.
use vstd::prelude::*;
use crate::text::{chars_lt, decimal, lemma_chars_lt_irreflexive, lemma_chars_lt_total, lemma_chars_lt_transitive, push_decimal, str_eq, str_lt};

verus! {

/// An IPv4 address in the loopback block 127.0.0.0/8.
pub open spec fn is_loopback_v4(a: [u8; 4]) -> bool {
    a[0] == 127
}

/// The dotted-decimal text of an IPv4 address, as `Ipv4Addr` writes it.
pub open spec fn dotted(a: [u8; 4]) -> Seq<char> {
    decimal(a[0] as nat) + "."@ + decimal(a[1] as nat) + "."@ + decimal(a[2] as nat) + "."@ + decimal(a[3] as nat)
}

/// The dotted-decimal text of an IPv4 address.
pub fn dotted_text(a: [u8; 4]) -> (s: String)
    ensures
        s@ == dotted(a),
{
    let mut s = String::new();
    push_decimal(&mut s, a[0] as u64);
    s.append(".");
    push_decimal(&mut s, a[1] as u64);
    s.append(".");
    push_decimal(&mut s, a[2] as u64);
    s.append(".");
    push_decimal(&mut s, a[3] as u64);
    proof {
        assert(s@ =~= dotted(a));
    }
    s
}

/// Texts in strictly increasing order: sorted and without repeats.
pub open spec fn strictly_sorted(s: Seq<String>) -> bool {
    forall|a: int, b: int| 0 <= a < b < s.len() ==> chars_lt(#[trigger] s[a]@, #[trigger] s[b]@)
}

/// Some text of `s` is `x`.
pub open spec fn contains_text(s: Seq<String>, x: Seq<char>) -> bool {
    exists|k: int| 0 <= k < s.len() && #[trigger] s[k]@ == x
}

/// `t` is the text of a non-loopback address among `addrs`.
pub open spec fn is_interface_text(addrs: Seq<[u8; 4]>, t: Seq<char>) -> bool {
    exists|i: int| 0 <= i < addrs.len() && !is_loopback_v4(addrs[i]) && #[trigger] dotted(addrs[i]) == t
}

/// Inserts `t` into the strictly sorted `v` unless it is there already.
fn insert_sorted(v: &mut Vec<String>, t: String)
    requires
        strictly_sorted(old(v)@),
    ensures
        strictly_sorted(final(v)@),
        forall|x: Seq<char>| #[trigger] contains_text(final(v)@, x) <==> (x == t@ || contains_text(old(v)@, x)),
{
    let ghost before = v@;
    let n = v.len();
    let mut p: usize = 0;
    while p < n && str_lt(v[p].as_str(), t.as_str())
        invariant
            n == v@.len(),
            v@ == before,
            p <= n,
            forall|k: int| 0 <= k < p ==> chars_lt(#[trigger] v@[k]@, t@),
        decreases n - p,
    {
        p = p + 1;
    }
    if p < n && str_eq(v[p].as_str(), t.as_str()) {
        proof {
            assert forall|x: Seq<char>| x == t@ implies contains_text(v@, x) by {
                assert(v@[p as int]@ == x);
            }
        }
        return;
    }
    proof {
        if p < n {
            lemma_chars_lt_total(v@[p as int]@, t@);
        }
    }
    v.insert(p, t);
    proof {
        let after = v@;
        assert(after.len() == before.len() + 1);
        assert forall|k: int| 0 <= k < after.len() implies #[trigger] after[k] == (if k < p { before[k] } else if k == p { t } else { before[k - 1] }) by {}
        assert forall|a: int, b: int| 0 <= a < b < after.len() implies chars_lt(#[trigger] after[a]@, #[trigger] after[b]@) by {
            if b < p {
            } else if b == p {
            } else if a < p {
                lemma_chars_lt_transitive(before[a]@, t@, before[p as int]@);
                if b - 1 > p {
                    lemma_chars_lt_transitive(before[a]@, before[p as int]@, before[b - 1]@);
                }
            } else if a == p {
                if b - 1 > p {
                    lemma_chars_lt_transitive(t@, before[p as int]@, before[b - 1]@);
                }
            } else {
            }
        }
        assert forall|x: Seq<char>| #[trigger] contains_text(after, x) <==> (x == t@ || contains_text(before, x)) by {
            if contains_text(after, x) {
                let k = choose|k: int| 0 <= k < after.len() && #[trigger] after[k]@ == x;
                if k > p {
                    assert(before[k - 1]@ == x);
                } else if k < p {
                    assert(before[k]@ == x);
                }
            }
            if x == t@ {
                assert(after[p as int]@ == x);
            }
            if contains_text(before, x) {
                let k = choose|k: int| 0 <= k < before.len() && #[trigger] before[k]@ == x;
                if k < p {
                    assert(after[k]@ == x);
                } else {
                    assert(after[k + 1]@ == x);
                }
            }
        }
    }
}

/// The texts of the non-loopback IPv4 addresses among `addrs`, sorted, each
/// once.
pub fn get_local_interfaces(addrs: &[[u8; 4]]) -> (ips: Vec<String>)
    ensures
        strictly_sorted(ips@),
        forall|x: Seq<char>| #[trigger] contains_text(ips@, x) <==> is_interface_text(addrs@, x),
{
    let mut ips: Vec<String> = Vec::new();
    let n = addrs.len();
    let mut i: usize = 0;
    while i < n
        invariant
            n == addrs@.len(),
            i <= n,
            strictly_sorted(ips@),
            forall|x: Seq<char>| #[trigger] contains_text(ips@, x) <==> is_interface_text(addrs@.take(i as int), x),
        decreases n - i,
    {
        let a = addrs[i];
        proof {
            assert forall|x: Seq<char>| #[trigger] is_interface_text(addrs@.take(i + 1), x) <==> (is_interface_text(addrs@.take(i as int), x)
                || (!is_loopback_v4(a) && dotted(a) == x)) by {
                if is_interface_text(addrs@.take(i + 1), x) {
                    let j = choose|j: int| 0 <= j < i + 1 && !is_loopback_v4(addrs@.take(i + 1)[j]) && #[trigger] dotted(addrs@.take(i + 1)[j]) == x;
                    if j < i {
                        assert(addrs@.take(i as int)[j] == addrs@.take(i + 1)[j]);
                    }
                }
                if is_interface_text(addrs@.take(i as int), x) {
                    let j = choose|j: int| 0 <= j < i && !is_loopback_v4(addrs@.take(i as int)[j]) && #[trigger] dotted(addrs@.take(i as int)[j]) == x;
                    assert(addrs@.take(i + 1)[j] == addrs@.take(i as int)[j]);
                }
                if !is_loopback_v4(a) && dotted(a) == x {
                    assert(addrs@.take(i + 1)[i as int] == a);
                }
            }
        }
        if a[0] != 127 {
            let t = dotted_text(a);
            insert_sorted(&mut ips, t);
        }
        i = i + 1;
    }
    proof {
        assert(addrs@.take(n as int) =~= addrs@);
    }
    ips
}

} // verus!
