//! Delivery and read receipts: changing the status of stored messages.
use vstd::prelude::*;
use crate::chat::models::{Direction, Message, MessageStatus, is_unread};
use crate::error::MessengerError;
use crate::messaging::manager::unread_test;
use crate::messaging::sender::{OutgoingMessage, ack_payload_json, message_id_payload};
use crate::network::endpoints::{message_ports, message_ports_spec};
use crate::protocol::packet::{Packet, PacketType, is_outgoing};
use crate::punch::manager::{find_punch_session, first_punch_for, has_punch_for};
use crate::punch::session::PunchSession;

verus! {

/// `k` indexes the first message of `s` with id `id`.
pub open spec fn first_with_id(s: Seq<Message>, id: u128, k: int) -> bool {
    &&& 0 <= k < s.len()
    &&& s[k].id == id
    &&& forall|k2: int| 0 <= k2 < k ==> #[trigger] s[k2].id != id
}

/// Some message of `s` has id `id`.
pub open spec fn has_id(s: Seq<Message>, id: u128) -> bool {
    exists|k: int| 0 <= k < s.len() && #[trigger] s[k].id == id
}

/// `m` with the status `status`.
pub open spec fn with_status(m: Message, status: MessageStatus) -> Message {
    Message { status: status, ..m }
}

/// The message id of a message.
pub open spec fn id_of() -> spec_fn(Message) -> u128 {
    |m: Message| m.id
}

/// Gives the first message with id `message_id` the status `status`; tells
/// whether there was one (the conversation then has to be saved).
pub fn update_message_status(messages: &mut Vec<Message>, message_id: u128, status: MessageStatus) -> (found: bool)
    ensures
        found == has_id(old(messages)@, message_id),
        !found ==> final(messages)@ == old(messages)@,
        found ==> exists|k: int| first_with_id(old(messages)@, message_id, k)
            && final(messages)@ == old(messages)@.update(k, with_status(old(messages)@[k], status)),
{
    let n = messages.len();
    let mut k: usize = 0;
    while k < n
        invariant
            n == messages@.len(),
            messages@ == old(messages)@,
            k <= n,
            forall|k2: int| 0 <= k2 < k ==> #[trigger] messages@[k2].id != message_id,
        decreases n - k,
    {
        if messages[k].id == message_id {
            let ghost before = messages@;
            messages[k].status = status;
            proof {
                assert(messages@ =~= before.update(k as int, with_status(before[k as int], status)));
                assert(first_with_id(before, message_id, k as int));
                assert(has_id(before, message_id));
            }
            return true;
        }
        k = k + 1;
    }
    false
}

/// Marks every received message that is not read yet as read, and gives their
/// ids in order: a read receipt goes to the peer for each.
pub fn mark_incoming_messages_read(messages: &mut Vec<Message>) -> (ids: Vec<u128>)
    ensures
        final(messages)@.len() == old(messages)@.len(),
        forall|k: int| 0 <= k < old(messages)@.len() ==> #[trigger] final(messages)@[k] == (if is_unread(old(messages)@[k]) {
            with_status(old(messages)@[k], MessageStatus::Read)
        } else {
            old(messages)@[k]
        }),
        ids@ == old(messages)@.filter(unread_test()).map_values(id_of()),
{
    let ghost orig = messages@;
    let mut ids: Vec<u128> = Vec::new();
    let n = messages.len();
    let mut k: usize = 0;
    while k < n
        invariant
            n == messages@.len(),
            orig.len() == n,
            k <= n,
            forall|j: int| 0 <= j < k ==> #[trigger] messages@[j] == (if is_unread(orig[j]) {
                with_status(orig[j], MessageStatus::Read)
            } else {
                orig[j]
            }),
            forall|j: int| k <= j < n ==> #[trigger] messages@[j] == orig[j],
            ids@ == orig.take(k as int).filter(unread_test()).map_values(id_of()),
        decreases n - k,
    {
        proof {
            let e = orig[k as int];
            let t0 = orig.take(k as int);
            assert(orig.take(k + 1) =~= t0.push(e));
            t0.lemma_filter_push(e, unread_test());
            assert(unread_test()(e) == is_unread(e));
            if is_unread(e) {
                t0.filter(unread_test()).lemma_push_map_commute(id_of(), e);
                assert(id_of()(e) == e.id);
            }
        }
        if messages[k].direction == Direction::Incoming && messages[k].status != MessageStatus::Read {
            messages[k].status = MessageStatus::Read;
            ids.push(messages[k].id);
        }
        k = k + 1;
    }
    proof {
        assert(orig.take(n as int) =~= orig);
    }
    ids
}

/// After a conversation is marked read, none of its messages is unread, and
/// nothing else about them changed but the status.
pub proof fn lemma_nothing_unread_after_marking(before: Seq<Message>, after: Seq<Message>)
    requires
        after.len() == before.len(),
        forall|k: int| 0 <= k < before.len() ==> #[trigger] after[k] == (if is_unread(before[k]) {
            with_status(before[k], MessageStatus::Read)
        } else {
            before[k]
        }),
    ensures
        forall|k: int| 0 <= k < after.len() ==> !is_unread(#[trigger] after[k]),
        forall|k: int| 0 <= k < after.len() ==> (#[trigger] after[k]).id == before[k].id && after[k].content
            == before[k].content && after[k].direction == before[k].direction,
{
    assert forall|k: int| 0 <= k < after.len() implies !is_unread(#[trigger] after[k]) by {
        assert(after[k] == (if is_unread(before[k]) { with_status(before[k], MessageStatus::Read) } else { before[k] }));
    }
}

/// Prepares the read receipt of message `message_id` from `me` to `peer`, over
/// the pair of the first hole-punching session with the peer (up to ASCII
/// case), with the ports that `me` uses towards it.
pub fn prepare_read_receipt(
    me: &str,
    peer: &str,
    message_id: u128,
    punch_sessions: &[PunchSession],
) -> (res: Result<OutgoingMessage, MessengerError>)
    ensures
        !has_punch_for(punch_sessions@, peer@) ==> res == Err::<OutgoingMessage, MessengerError>(MessengerError::PunchSessionNotFound),
        has_punch_for(punch_sessions@, peer@) ==> exists|k: int| #[trigger] first_punch_for(punch_sessions@, peer@, k) && match res {
            Ok(o) => {
                let pair = punch_sessions@[k].selected_pair;
                &&& is_outgoing(o.packet, PacketType::MessageRead, me@, peer@, ack_payload_json(message_id), "message-read"@)
                &&& (o.local_port, o.remote_port) == message_ports_spec(pair, me@, peer@)
                &&& o.local_address@ == pair.local.address@
                &&& o.remote_address@ == pair.remote.address@
            },
            Err(_) => false,
        },
{
    let k = match find_punch_session(punch_sessions, peer) {
        Some(k) => k,
        None => {
            return Err(MessengerError::PunchSessionNotFound);
        },
    };
    let pair = &punch_sessions[k].selected_pair;
    let (local_port, remote_port) = message_ports(pair, me, peer);
    let packet = Packet::outgoing(PacketType::MessageRead, me, peer, message_id_payload(message_id), "message-read");
    Ok(OutgoingMessage {
        packet,
        local_port,
        remote_port,
        local_address: pair.local.address.clone(),
        remote_address: pair.remote.address.clone(),
    })
}

} // verus!
