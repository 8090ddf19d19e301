use vstd::prelude::*;
use crate::message::ChatMessage;

verus! {

/// What the relay's single consumer does with the next item of the inbound queue.
#[derive(Debug, PartialEq, Eq)]
pub enum RelayAction {
    /// Republish the envelope, unchanged, on the broadcast topic.
    Publish(ChatMessage),
    /// Every producer is gone: the relay stops, and with it the process.
    Halt,
}

/// What the relay does with what it took from the inbound queue (`None` when
/// the queue is closed): an envelope is republished as it is; a closed queue
/// halts the relay.
pub open spec fn relay_spec(received: Option<ChatMessage>) -> RelayAction {
    match received {
        Some(m) => RelayAction::Publish(m),
        None => RelayAction::Halt,
    }
}

/// One step of the relay's single consumer.
pub fn relay_step(received: Option<ChatMessage>) -> (r: RelayAction)
    ensures
        r == relay_spec(received),
{
    match received {
        Some(m) => RelayAction::Publish(m),
        None => RelayAction::Halt,
    }
}

/// What the relay publishes, in order, while it drains `inbound` in FIFO order.
pub open spec fn published(inbound: Seq<ChatMessage>) -> Seq<ChatMessage>
    decreases inbound.len(),
{
    if inbound.len() == 0 {
        Seq::empty()
    } else {
        let last = inbound.last();
        let rest = published(inbound.drop_last());
        match relay_spec(Some(last)) {
            RelayAction::Publish(m) => rest.push(m),
            RelayAction::Halt => rest,
        }
    }
}

/// Draining the inbound queue, the relay publishes exactly the
/// envelopes that were posted, each unchanged, in the order in which the queue
/// accepted them, whatever connection posted each one.
pub proof fn lemma_relay_keeps_order(inbound: Seq<ChatMessage>)
    ensures
        published(inbound) == inbound,
    decreases inbound.len(),
{
    if inbound.len() > 0 {
        lemma_relay_keeps_order(inbound.drop_last());
        assert(inbound.drop_last().push(inbound.last()) == inbound);
    }
}

} // verus!
