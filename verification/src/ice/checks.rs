//! The decisions of a connectivity check over a candidate pair.
use vstd::prelude::*;
use crate::error::MessengerError;
use crate::ice::pair::CandidatePair;
use crate::protocol::packet::{Packet, PacketType, is_outgoing};

verus! {

/// What a connectivity check does with a packet it received.
#[derive(Debug, Clone, Copy, PartialEq, Eq, Structural)]
pub enum CheckStep {
    /// The peer answered our check: the pair is connected.
    Connected,
    /// The peer is checking too: answer it, and the pair is connected.
    AnswerAndConnect,
    /// Not a check packet: keep waiting.
    KeepWaiting,
}

/// What a connectivity check does with a received packet of type `t`.
pub open spec fn check_step_spec(t: PacketType) -> CheckStep {
    if t == PacketType::ConnectivityResponse {
        CheckStep::Connected
    } else if t == PacketType::ConnectivityCheck {
        CheckStep::AnswerAndConnect
    } else {
        CheckStep::KeepWaiting
    }
}

/// Decides what a connectivity check does with a received packet of type `t`.
pub fn check_step(t: PacketType) -> (s: CheckStep)
    ensures
        s == check_step_spec(t),
{
    if t == PacketType::ConnectivityResponse {
        CheckStep::Connected
    } else if t == PacketType::ConnectivityCheck {
        CheckStep::AnswerAndConnect
    } else {
        CheckStep::KeepWaiting
    }
}

/// The check that `sender` sends to `recipient`.
pub fn check_packet(sender: &str, recipient: &str) -> (p: Packet)
    ensures
        is_outgoing(p, PacketType::ConnectivityCheck, sender@, recipient@, Seq::empty(), "connectivity-check"@),
{
    Packet::outgoing(PacketType::ConnectivityCheck, sender, recipient, String::new(), "connectivity-check")
}

/// The answer to a check from `checker`, sent by `answerer`.
pub fn check_response_packet(answerer: &str, checker: &str) -> (p: Packet)
    ensures
        is_outgoing(p, PacketType::ConnectivityResponse, answerer@, checker@, Seq::empty(), "connectivity-response"@),
{
    Packet::outgoing(PacketType::ConnectivityResponse, answerer, checker, String::new(), "connectivity-response")
}

/// The keepalive that `sender` sends to `recipient` over a working pair.
pub fn keepalive_packet(sender: &str, recipient: &str) -> (p: Packet)
    ensures
        is_outgoing(p, PacketType::Keepalive, sender@, recipient@, Seq::empty(), "keepalive"@),
{
    Packet::outgoing(PacketType::Keepalive, sender, recipient, String::new(), "keepalive")
}

/// How long a connectivity check goes on, in milliseconds.
pub const CHECK_BUDGET_MS: u64 = 5000;
/// How long a check waits for an answer after each send, in milliseconds.
pub const CHECK_WINDOW_MS: u64 = 500;
/// The seconds between two keepalives.
pub const KEEPALIVE_INTERVAL_SECS: u64 = 15;

/// Decides, `elapsed_ms` milliseconds into a connectivity check, whether to
/// send the check again and how long to wait for an answer: again while the
/// budget lasts, waiting one window each time; none once it is spent.
pub fn check_wait(elapsed_ms: u64) -> (w: Option<u64>)
    ensures
        w == (if elapsed_ms < CHECK_BUDGET_MS { Some(CHECK_WINDOW_MS) } else { None::<u64> }),
{
    if elapsed_ms < CHECK_BUDGET_MS {
        Some(CHECK_WINDOW_MS)
    } else {
        None
    }
}

/// Where a keepalive service sends, as it starts over `pair`: to the remote
/// candidate's address and port. Refused while a service already runs.
pub fn keepalive_start(running: bool, pair: &CandidatePair) -> (res: Result<(String, u16), MessengerError>)
    ensures
        running ==> res == Err::<(String, u16), MessengerError>(MessengerError::AlreadyRunning),
        !running ==> (res matches Ok((address, port)) && address@ == pair.remote.address@ && port
            == pair.remote.port),
{
    if running {
        return Err(MessengerError::AlreadyRunning);
    }
    Ok((pair.remote.address.clone(), pair.remote.port))
}

} // verus!
