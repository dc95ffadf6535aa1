//! The relay channel: the sole hand-off point between the network-facing
//! threads and the interactive loop.
//!
//! It is a multi-producer, single-consumer queue of [`Message`]. Producers
//! are the inbound listener, the detached outbound-send tasks and the
//! interactive loop itself (for local status notices); the only consumer is
//! the interactive loop, which drains it without blocking on every
//! iteration. The queue itself is `std::sync::mpsc`; what this module
//! verifies is everything the session does with what comes out of it.

use vstd::prelude::*;
use crate::message::{Message, MessageView};
use crate::session::{App, AppView};

verus! {

#[verifier::external_type_specification]
#[verifier::external_body]
#[verifier::reject_recursive_types(T)]
pub struct ExSender<T>(std::sync::mpsc::Sender<T>);

#[verifier::external_type_specification]
#[verifier::external_body]
#[verifier::reject_recursive_types(T)]
pub struct ExReceiver<T>(std::sync::mpsc::Receiver<T>);

/// Relies on `std::sync::mpsc::Sender::send`: hands the message to the
/// single consumer, preserving per-producer order, and never blocks; it
/// fails exactly when the consumer has been dropped. Returns whether the
/// consumer was still alive; the message itself crosses threads, so nothing
/// more can be promised about any later receive.
#[verifier::external_body]
pub fn relay_send(tx: &std::sync::mpsc::Sender<Message>, m: Message) -> (ok: bool) {
    tx.send(m).is_ok()
}

/// Relies on `std::sync::mpsc::Receiver::try_iter`: yields exactly the
/// messages already queued, in the order they arrived, stops as soon as the
/// queue is momentarily empty, and never blocks waiting for more. Which
/// messages are queued depends on the other threads, so nothing is promised
/// about the contents.
#[verifier::external_body]
pub fn relay_take_all(rx: &std::sync::mpsc::Receiver<Message>) -> (got: Vec<Message>) {
    rx.try_iter().collect()
}

impl App {
    /// Appends a drained batch to the history, in the batch's own order; no
    /// other part of the session is touched. An empty batch changes nothing.
    pub fn append_messages(&mut self, got: Vec<Message>)
        ensures
            final(self)@ == (AppView {
                messages: old(self)@.messages + got.deep_view(),
                ..old(self)@
            }),
    {
        let mut i: usize = 0;
        let n = got.len();
        while i < n
            invariant
                i <= n,
                n == got.len(),
                self@ == (AppView {
                    messages: old(self)@.messages + got.deep_view().take(i as int),
                    ..old(self)@
                }),
            decreases n - i,
        {
            let ghost before = self.messages.deep_view();
            let m = got[i].clone_message();
            self.messages.push(m);
            i = i + 1;
            proof {
                assert(self.messages.deep_view() =~= before.push(got.deep_view()[i - 1]));
                assert(old(self)@.messages + got.deep_view().take(i as int) =~= before.push(
                    got.deep_view()[i - 1],
                ));
            }
        }
        proof {
            assert(got.deep_view().take(n as int) =~= got.deep_view());
        }
    }

    /// Drains every message currently available on the relay into the
    /// history, in arrival order, and returns without waiting once the relay
    /// is empty. The history only grows at its end — the old history is a
    /// prefix of the new one — and no other part of the session is touched;
    /// draining an empty relay changes nothing.
    pub fn drain_relay(&mut self, rx: &std::sync::mpsc::Receiver<Message>)
        ensures
            final(self)@ == (AppView { messages: final(self)@.messages, ..old(self)@ }),
            old(self)@.messages.is_prefix_of(final(self)@.messages),
    {
        let got = relay_take_all(rx);
        self.append_messages(got);
        proof {
            assert(old(self)@.messages =~= self@.messages.take(old(self)@.messages.len() as int));
        }
    }
}

/// Messages pushed by a single producer appear in the history in the order
/// pushed: when a batch that arrived in order is appended, the existing
/// entries keep their places and the batch keeps its internal order after
/// them.
pub proof fn lemma_history_keeps_producer_order(h: Seq<MessageView>, got: Seq<MessageView>)
    ensures
        (h + got).len() == h.len() + got.len(),
        forall|i: int| 0 <= i < h.len() ==> (h + got)[i] == h[i],
        forall|i: int| 0 <= i < got.len() ==> (h + got)[h.len() + i] == got[i],
{
}

/// Draining an empty relay is a no-op: appending what an empty relay yields
/// — nothing — leaves the history exactly as it was.
pub proof fn lemma_empty_drain_is_noop(h: Seq<MessageView>)
    ensures
        h + Seq::<MessageView>::empty() == h,
{
    assert(h + Seq::<MessageView>::empty() =~= h);
}

/// A submission's "sending…" notice is pushed onto the relay by the
/// interactive loop itself, before the detached send task is spawned, and a
/// task cannot report before it starts; whatever other producers push in
/// between, the notice therefore stands strictly before the outcome entry of
/// the same submission in the drained history.
pub proof fn lemma_notice_precedes_outcome(
    h: Seq<MessageView>,
    notice: MessageView,
    between: Seq<MessageView>,
    outcome: MessageView,
)
    ensures
        ({
            let all = h + seq![notice] + between + seq![outcome];
            &&& all[h.len() as int] == notice
            &&& all[h.len() + 1 + between.len() as int] == outcome
            &&& h.len() < h.len() + 1 + between.len()
        }),
{
}

} // verus!
