//! Which UDP ports the two sides of a candidate pair use.
//!
//! When both peers run on one machine they cannot both bind the same port: the
//! peer whose lower-cased name sorts first takes 5001 and the other 5002.
use vstd::prelude::*;
use crate::ice::pair::CandidatePair;
use crate::text::{lemma_chars_lt_total, lowercase_before, lowercase_lt, str_eq, unicode_lowercase};

verus! {

/// The port that a peer binds when the pair is not a loopback pair and it does
/// not use the pair's own port.
pub const DEFAULT_PORT: u16 = 5000;
/// The loopback port of the peer whose name sorts first.
pub const LOOPBACK_FIRST_PORT: u16 = 5001;
/// The loopback port of the peer whose name sorts second.
pub const LOOPBACK_SECOND_PORT: u16 = 5002;

/// An address that names this machine: `127.0.0.1` or `localhost`.
pub open spec fn is_loopback_host(a: Seq<char>) -> bool {
    a == "127.0.0.1"@ || a == "localhost"@
}

/// Whether `address` is `127.0.0.1` or `localhost`.
pub fn is_loopback_address(address: &str) -> (b: bool)
    ensures
        b == is_loopback_host(address@),
{
    str_eq(address, "127.0.0.1") || str_eq(address, "localhost")
}

/// Both ends of the pair name this machine.
pub open spec fn both_loopback(p: CandidatePair) -> bool {
    is_loopback_host(p.local.address@) && is_loopback_host(p.remote.address@)
}

/// Either end of the pair names this machine.
pub open spec fn either_loopback(p: CandidatePair) -> bool {
    is_loopback_host(p.local.address@) || is_loopback_host(p.remote.address@)
}

/// The (local, remote) ports of a loopback connection from `me` to `peer`.
pub open spec fn loopback_ports_spec(me: Seq<char>, peer: Seq<char>) -> (u16, u16) {
    if lowercase_lt(me, peer) {
        (LOOPBACK_FIRST_PORT, LOOPBACK_SECOND_PORT)
    } else {
        (LOOPBACK_SECOND_PORT, LOOPBACK_FIRST_PORT)
    }
}

/// The (local, remote) ports of a loopback connection from `me` to `peer`.
pub fn loopback_ports(me: &str, peer: &str) -> (r: (u16, u16))
    ensures
        r == loopback_ports_spec(me@, peer@),
{
    if lowercase_before(me, peer) {
        (LOOPBACK_FIRST_PORT, LOOPBACK_SECOND_PORT)
    } else {
        (LOOPBACK_SECOND_PORT, LOOPBACK_FIRST_PORT)
    }
}

/// The (local, remote) ports with which `me` exchanges messages with `peer` over
/// the pair: the loopback ports when both ends name this machine, else the
/// pair's own ports.
pub open spec fn message_ports_spec(p: CandidatePair, me: Seq<char>, peer: Seq<char>) -> (u16, u16) {
    if both_loopback(p) {
        loopback_ports_spec(me, peer)
    } else {
        (p.local.port, p.remote.port)
    }
}

/// The (local, remote) ports with which `me` exchanges messages with `peer`.
pub fn message_ports(pair: &CandidatePair, me: &str, peer: &str) -> (r: (u16, u16))
    ensures
        r == message_ports_spec(*pair, me@, peer@),
{
    if is_loopback_address(pair.local.address.as_str()) && is_loopback_address(
        pair.remote.address.as_str(),
    ) {
        loopback_ports(me, peer)
    } else {
        (pair.local.port, pair.remote.port)
    }
}

/// The (local, remote) ports of a transport or a hole-punching socket: as for
/// messages, except that a non-loopback socket binds the default port.
pub open spec fn socket_ports_spec(p: CandidatePair, me: Seq<char>, peer: Seq<char>) -> (u16, u16) {
    if both_loopback(p) {
        loopback_ports_spec(me, peer)
    } else {
        (DEFAULT_PORT, p.remote.port)
    }
}

/// The (local, remote) ports of a transport or a hole-punching socket.
pub fn socket_ports(pair: &CandidatePair, me: &str, peer: &str) -> (r: (u16, u16))
    ensures
        r == socket_ports_spec(*pair, me@, peer@),
{
    if is_loopback_address(pair.local.address.as_str()) && is_loopback_address(
        pair.remote.address.as_str(),
    ) {
        loopback_ports(me, peer)
    } else {
        (DEFAULT_PORT, pair.remote.port)
    }
}

/// The local port that a connectivity check binds, and the remote port to
/// which it sends on `127.0.0.1` when either end names this machine (none: the
/// check goes to the remote candidate's own address and port).
pub open spec fn check_ports_spec(p: CandidatePair, me: Seq<char>, peer: Seq<char>) -> (u16, Option<u16>) {
    if either_loopback(p) {
        (loopback_ports_spec(me, peer).0, Some(loopback_ports_spec(me, peer).1))
    } else {
        (DEFAULT_PORT, None)
    }
}

/// The ports of a connectivity check.
pub fn check_ports(pair: &CandidatePair, me: &str, peer: &str) -> (r: (u16, Option<u16>))
    ensures
        r == check_ports_spec(*pair, me@, peer@),
{
    if is_loopback_address(pair.local.address.as_str()) || is_loopback_address(
        pair.remote.address.as_str(),
    ) {
        let (l, r) = loopback_ports(me, peer);
        (l, Some(r))
    } else {
        (DEFAULT_PORT, None)
    }
}

/// Two peers on one machine whose names differ once lower-cased pick
/// complementary loopback ports: each sends to the port that the other binds.
pub proof fn lemma_loopback_ports_complementary(a: Seq<char>, b: Seq<char>)
    requires
        unicode_lowercase(a) != unicode_lowercase(b),
    ensures
        loopback_ports_spec(a, b).1 == loopback_ports_spec(b, a).0,
        loopback_ports_spec(a, b).0 == loopback_ports_spec(b, a).1,
        loopback_ports_spec(a, b).0 != loopback_ports_spec(a, b).1,
{
    lemma_chars_lt_total(unicode_lowercase(a), unicode_lowercase(b));
}

/// On a pair whose both ends name this machine, a transport or hole-punching
/// socket uses the same ports as messages and as connectivity checks: the peer
/// whose lower-cased name sorts first binds 5001 and sends to 5002, the other
/// binds 5002 and sends to 5001.
pub proof fn lemma_socket_ports_on_loopback(p: CandidatePair, me: Seq<char>, peer: Seq<char>)
    requires
        both_loopback(p),
    ensures
        socket_ports_spec(p, me, peer) == message_ports_spec(p, me, peer),
        socket_ports_spec(p, me, peer).0 == check_ports_spec(p, me, peer).0,
        check_ports_spec(p, me, peer).1 == Some(socket_ports_spec(p, me, peer).1),
        lowercase_lt(me, peer) ==> socket_ports_spec(p, me, peer) == (5001u16, 5002u16),
        !lowercase_lt(me, peer) ==> socket_ports_spec(p, me, peer) == (5002u16, 5001u16),
{
}

/// Two peers on one machine, each using a loopback pair towards the other,
/// bind different ports, and each sends to the port the other binds.
pub proof fn lemma_loopback_sockets_meet(p: CandidatePair, q: CandidatePair, a: Seq<char>, b: Seq<char>)
    requires
        both_loopback(p),
        both_loopback(q),
        unicode_lowercase(a) != unicode_lowercase(b),
    ensures
        socket_ports_spec(p, a, b).1 == socket_ports_spec(q, b, a).0,
        socket_ports_spec(q, b, a).1 == socket_ports_spec(p, a, b).0,
        socket_ports_spec(p, a, b).0 != socket_ports_spec(q, b, a).0,
        lowercase_lt(a, b) ==> socket_ports_spec(p, a, b).0 == LOOPBACK_FIRST_PORT,
{
    lemma_loopback_ports_complementary(a, b);
}

} // verus!
