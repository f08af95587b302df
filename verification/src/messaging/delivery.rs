//! Recognising the acknowledgement of a sent message.
use vstd::prelude::*;
use crate::protocol::packet::PacketType;

verus! {

/// Sends messages and waits for their acknowledgement.
pub struct DeliveryManager;

/// How long each round of sending waits for an acknowledgement, in seconds:
/// three rounds, the wait doubling.
pub const RETRY_BACKOFF_SECS: [u64; 3] = [1, 2, 4];

/// The wait of round `round` (counted from 0), in seconds.
pub open spec fn backoff_secs(round: int) -> u64 {
    if round == 0 {
        1
    } else if round == 1 {
        2
    } else {
        4
    }
}

/// What happened while a message waits for its acknowledgement.
#[derive(Debug, Clone, Copy, PartialEq, Eq, Structural)]
pub enum DeliveryEvent {
    /// The sender is ready to start.
    Start,
    /// The current round's wait ran out without an acknowledgement.
    RoundTimedOut,
    /// A packet of this type arrived, whose payload names this message (if any).
    Received { packet_type: PacketType, acked: Option<u128> },
}

/// What the sender does next.
#[derive(Debug, Clone, Copy, PartialEq, Eq, Structural)]
pub enum DeliveryAction {
    /// Send the packet (again) and wait this many seconds for an acknowledgement.
    SendAndWait(u64),
    /// Keep waiting in the current round.
    KeepWaiting,
    /// The message was acknowledged.
    Delivered,
    /// Every round ran out: the message was not acknowledged.
    GiveUp,
}

/// The next number of rounds started, and the action, after `event` when
/// `rounds` rounds have been started so far.
pub open spec fn delivery_step_spec(rounds: int, event: DeliveryEvent, message_id: u128) -> (int, DeliveryAction) {
    match event {
        DeliveryEvent::Start | DeliveryEvent::RoundTimedOut => if rounds < 3 {
            (rounds + 1, DeliveryAction::SendAndWait(backoff_secs(rounds)))
        } else {
            (rounds, DeliveryAction::GiveUp)
        },
        DeliveryEvent::Received { packet_type, acked } => if packet_type == PacketType::MessageAck
            && acked == Some(message_id) {
            (rounds, DeliveryAction::Delivered)
        } else {
            (rounds, DeliveryAction::KeepWaiting)
        },
    }
}

/// How many times the packet is sent while `events` happen in turn, starting
/// after `rounds` rounds.
pub open spec fn sends_during(rounds: int, events: Seq<DeliveryEvent>, message_id: u128) -> int
    decreases events.len(),
{
    if events.len() == 0 {
        0
    } else {
        let (next, action) = delivery_step_spec(rounds, events[0], message_id);
        (if action is SendAndWait { 1int } else { 0int }) + sends_during(
            next,
            events.drop_first(),
            message_id,
        )
    }
}

/// Whatever happens, a message is sent at most three times in all.
pub proof fn lemma_at_most_three_sends(rounds: int, events: Seq<DeliveryEvent>, message_id: u128)
    requires
        0 <= rounds <= 3,
    ensures
        sends_during(rounds, events, message_id) <= 3 - rounds,
    decreases events.len(),
{
    if events.len() > 0 {
        let (next, _action) = delivery_step_spec(rounds, events[0], message_id);
        lemma_at_most_three_sends(next, events.drop_first(), message_id);
    }
}

impl DeliveryManager {
    /// How much longer a round of `wait_secs` seconds waits for the
    /// acknowledgement, `elapsed_ms` milliseconds after its send: the rest of
    /// the round, none once it is over.
    pub fn round_wait(wait_secs: u64, elapsed_ms: u64) -> (w: Option<u64>)
        requires
            wait_secs <= u64::MAX / 1000,
        ensures
            w == (if elapsed_ms < wait_secs * 1000 { Some((wait_secs * 1000 - elapsed_ms) as u64) } else { None::<u64> }),
    {
        let window = wait_secs * 1000;
        if elapsed_ms < window {
            Some(window - elapsed_ms)
        } else {
            None
        }
    }

    /// Decides what a sender waiting for the acknowledgement of `message_id`
    /// does after `event`, when `rounds` of the three rounds have been started.
    pub fn delivery_step(rounds: usize, event: DeliveryEvent, message_id: u128) -> (res: (
        usize,
        DeliveryAction,
    ))
        requires
            rounds <= 3,
        ensures
            (res.0 as int, res.1) == delivery_step_spec(rounds as int, event, message_id),
            res.0 <= 3,
    {
        match event {
            DeliveryEvent::Start | DeliveryEvent::RoundTimedOut => {
                if rounds < 3 {
                    let wait = RETRY_BACKOFF_SECS[rounds];
                    (rounds + 1, DeliveryAction::SendAndWait(wait))
                } else {
                    (rounds, DeliveryAction::GiveUp)
                }
            },
            DeliveryEvent::Received { packet_type, acked } => {
                if Self::acknowledges(packet_type, acked, message_id) {
                    (rounds, DeliveryAction::Delivered)
                } else {
                    (rounds, DeliveryAction::KeepWaiting)
                }
            },
        }
    }

    /// Whether an incoming packet of type `packet_type`, whose payload names the
    /// message `acked` (none when it names none), acknowledges message `message_id`.
    pub fn acknowledges(packet_type: PacketType, acked: Option<u128>, message_id: u128) -> (b: bool)
        ensures
            b == (packet_type == PacketType::MessageAck && acked == Some(message_id)),
    {
        match acked {
            Some(id) => packet_type == PacketType::MessageAck && id == message_id,
            None => false,
        }
    }
}

} // verus!
