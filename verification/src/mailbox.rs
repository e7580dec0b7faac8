//! Per-task bounded message queue plus at most one timer-armed deferred
//! entry.
//!
//! An immediate send appends to the FIFO queue and is rejected — never
//! silently dropped, never blocking — when the queue is at capacity.
//! Arming the deferred slot while it is occupied is likewise a recoverable
//! error.  Dispatch order within one mailbox is insertion order.

use vstd::prelude::*;

use crate::msg::MessagePacket;
use crate::util::RticError;

verus! {

/// An envelope armed to fire no earlier than the monotonic instant `when`.
#[derive(Clone, Copy, Debug)]
pub struct DeferredEntry {
    pub packet: MessagePacket,
    pub when: u64,
}

/// One task's mailbox: a bounded FIFO of envelopes, a static priority, and
/// the single deferred slot.
pub struct Mailbox {
    pub queue: Vec<MessagePacket>,
    pub capacity: usize,
    pub priority: u8,
    pub deferred: Option<DeferredEntry>,
}

impl Mailbox {
    /// The queue never exceeds its capacity and holds only well-formed
    /// envelopes.
    pub open spec fn wf(self) -> bool {
        &&& self.capacity >= 1
        &&& self.queue@.len() <= self.capacity
        &&& (forall|i: int| 0 <= i < self.queue@.len() ==> (#[trigger] self.queue@[i]).wf())
        &&& (self.deferred matches Some(e) ==> e.packet.wf())
    }

    /// A fresh mailbox of the given capacity and priority.
    pub fn new(capacity: usize, priority: u8) -> (mb: Mailbox)
        requires
            capacity >= 1,
        ensures
            mb.wf(),
            mb.queue@ == Seq::<MessagePacket>::empty(),
            mb.capacity == capacity,
            mb.priority == priority,
            mb.deferred is None,
    {
        Mailbox { queue: Vec::new(), capacity, priority, deferred: None }
    }

    /// Enqueues an envelope for immediate dispatch, in FIFO position, or
    /// rejects it if the queue is at capacity.
    pub fn send(&mut self, packet: MessagePacket) -> (r: Result<(), RticError>)
        requires
            old(self).wf(),
            packet.wf(),
        ensures
            final(self).wf(),
            final(self).capacity == old(self).capacity,
            final(self).priority == old(self).priority,
            final(self).deferred == old(self).deferred,
            old(self).queue@.len() < old(self).capacity ==> r is Ok && final(self).queue@ == old(
                self,
            ).queue@.push(packet),
            old(self).queue@.len() >= old(self).capacity ==> (r matches Err(RticError::Spawn(p))
                && p == packet) && final(self).queue@ == old(self).queue@,
    {
        if self.queue.len() < self.capacity {
            self.queue.push(packet);
            Ok(())
        } else {
            Err(RticError::Spawn(packet))
        }
    }

    /// Arms the deferred slot to fire no earlier than `when`, or rejects
    /// the request if the slot is already occupied.
    pub fn schedule(&mut self, packet: MessagePacket, when: u64) -> (r: Result<(), RticError>)
        requires
            old(self).wf(),
            packet.wf(),
        ensures
            final(self).wf(),
            final(self).capacity == old(self).capacity,
            final(self).priority == old(self).priority,
            final(self).queue@ == old(self).queue@,
            old(self).deferred is None ==> r is Ok && (final(self).deferred matches Some(e)
                && e.packet == packet && e.when == when),
            old(self).deferred is Some ==> (r matches Err(RticError::Schedule(p)) && p == packet)
                && final(self).deferred == old(self).deferred,
    {
        match self.deferred {
            None => {
                self.deferred = Some(DeferredEntry { packet, when });
                Ok(())
            },
            Some(_) => Err(RticError::Schedule(packet)),
        }
    }

    /// Removes and returns the oldest queued envelope, if any.
    pub fn pop_front(&mut self) -> (r: Option<MessagePacket>)
        requires
            old(self).wf(),
        ensures
            final(self).wf(),
            final(self).capacity == old(self).capacity,
            final(self).priority == old(self).priority,
            final(self).deferred == old(self).deferred,
            old(self).queue@.len() == 0 ==> r is None && final(self).queue@ == old(self).queue@,
            old(self).queue@.len() > 0 ==> (r matches Some(p) && p == old(self).queue@[0] && p.wf())
                && final(self).queue@ == old(self).queue@.subrange(
                1,
                old(self).queue@.len() as int,
            ),
    {
        if self.queue.len() == 0 {
            None
        } else {
            Some(self.queue.remove(0))
        }
    }

    /// Takes the deferred envelope out of its slot if its instant has been
    /// reached.
    pub fn take_due(&mut self, now: u64) -> (r: Option<MessagePacket>)
        requires
            old(self).wf(),
        ensures
            final(self).wf(),
            final(self).capacity == old(self).capacity,
            final(self).priority == old(self).priority,
            final(self).queue@ == old(self).queue@,
            match old(self).deferred {
                Some(e) => {
                    if e.when <= now {
                        r matches Some(p) && p == e.packet && p.wf() && final(self).deferred
                            is None
                    } else {
                        r is None && final(self).deferred == old(self).deferred
                    }
                },
                None => r is None && final(self).deferred is None,
            },
    {
        match self.deferred {
            Some(e) => {
                if e.when <= now {
                    self.deferred = None;
                    Some(e.packet)
                } else {
                    None
                }
            },
            None => None,
        }
    }
}

/// How a mailbox looks after one send: appended when there was room, else
/// rejected and untouched.
pub open spec fn sent_to(
    pre: Mailbox,
    post: Mailbox,
    p: MessagePacket,
    r: Result<(), RticError>,
) -> bool {
    &&& post.capacity == pre.capacity
    &&& post.priority == pre.priority
    &&& post.deferred == pre.deferred
    &&& (pre.queue@.len() < pre.capacity ==> r is Ok && post.queue@ == pre.queue@.push(p))
    &&& (pre.queue@.len() >= pre.capacity ==> (r matches Err(RticError::Spawn(q)) && q == p)
        && post.queue@ == pre.queue@)
}

/// How a mailbox looks after one schedule request: armed when the slot was
/// free, else rejected and untouched.
pub open spec fn scheduled_to(
    pre: Mailbox,
    post: Mailbox,
    p: MessagePacket,
    when: int,
    r: Result<(), RticError>,
) -> bool {
    &&& post.capacity == pre.capacity
    &&& post.priority == pre.priority
    &&& post.queue@ == pre.queue@
    &&& (pre.deferred is None ==> r is Ok && (post.deferred matches Some(e) && e.packet == p
        && e.when == when))
    &&& (pre.deferred is Some ==> (r matches Err(RticError::Schedule(q)) && q == p)
        && post.deferred == pre.deferred)
}

/// One send against a queue of the given capacity: the new queue, and
/// whether the envelope was accepted.
pub open spec fn send_result(q: Seq<MessagePacket>, cap: nat, p: MessagePacket) -> (
    Seq<MessagePacket>,
    bool,
) {
    if q.len() < cap {
        (q.push(p), true)
    } else {
        (q, false)
    }
}

/// The queue after a run of sends.
pub open spec fn send_all(q: Seq<MessagePacket>, cap: nat, ps: Seq<MessagePacket>) -> Seq<
    MessagePacket,
>
    decreases ps.len(),
{
    if ps.len() == 0 {
        q
    } else {
        send_result(send_all(q, cap, ps.drop_last()), cap, ps.last()).0
    }
}

/// Sends that fit below capacity are all accepted, in order.
pub proof fn lemma_sends_within_capacity(q: Seq<MessagePacket>, cap: nat, ps: Seq<MessagePacket>)
    requires
        q.len() + ps.len() <= cap,
    ensures
        send_all(q, cap, ps) == q + ps,
    decreases ps.len(),
{
    if ps.len() == 0 {
        assert(send_all(q, cap, ps) =~= q + ps);
    } else {
        lemma_sends_within_capacity(q, cap, ps.drop_last());
        assert((q + ps.drop_last()).push(ps.last()) =~= q + ps);
    }
}

/// Mailbox capacity law: of `N + 1` envelopes sent to an empty mailbox of
/// capacity `N`, the first `N` are accepted, and the last is rejected with
/// the queue left at length `N`, holding the first `N` in order.
pub proof fn lemma_mailbox_capacity(cap: nat, ps: Seq<MessagePacket>)
    requires
        cap >= 1,
        ps.len() == cap + 1,
    ensures
        ({
            let qn = send_all(Seq::<MessagePacket>::empty(), cap, ps.take(cap as int));
            &&& qn.len() == cap
            &&& (forall|i: int| 0 <= i < cap ==> qn[i] == ps[i])
            &&& send_result(qn, cap, ps[cap as int]).1 == false
            &&& send_result(qn, cap, ps[cap as int]).0 == qn
        }),
{
    lemma_sends_within_capacity(Seq::<MessagePacket>::empty(), cap, ps.take(cap as int));
    let qn = send_all(Seq::<MessagePacket>::empty(), cap, ps.take(cap as int));
    assert(qn =~= Seq::<MessagePacket>::empty() + ps.take(cap as int));
}

} // verus!
