//! The mailbox runtime: the fixed task topology, its bounded mailboxes and
//! deferred slots, and the dispatcher that delivers one envelope at a time
//! to its driver.
//!
//! The model is single-core and run-to-completion: a dispatched handler
//! mutates only its own resource — exclusive access needs no further
//! locking here — and hands back effects, which the dispatcher applies:
//! sends and deferred sends go to the mailboxes (a rejection is logged and
//! dropped, never fatal), peripheral actions are returned to the embedding.
//! Ready envelopes are chosen by static mailbox priority, ties in a fixed
//! order, FIFO within one mailbox; a due deferred entry fires once the
//! ready queues are drained, no earlier than its armed instant.

use vstd::prelude::*;

use crate::button;
use crate::heartbeat;
use crate::lis3dsh;
use crate::lis3dsh::Lis3dsh;
use crate::mailbox::{DeferredEntry, Mailbox};
use crate::msg;
use crate::msg::{Effect, HwAction, Message, MessagePacket, Task};
use crate::spi_drv;
use crate::spi_drv::spi1;
use crate::util;

verus! {

/// Upper bound on the monotonic instant, so that arming a deferred entry
/// can never overflow the counter.
pub const MAX_INSTANT: u64 = 0x7FFF_FFFF_FFFF_FFFF;

/// Queue capacity of the accelerometer task's mailbox.
pub const LIS_CAPACITY: usize = 4;

/// Queue capacity of the SPI task's mailbox.
pub const SPI_CAPACITY: usize = 2;

/// Queue capacity of the button task's mailbox.
pub const BUTTON_CAPACITY: usize = 1;

/// Queue capacity of the heartbeat task's mailbox.
pub const HEARTBEAT_CAPACITY: usize = 1;

/// Static priority shared by the four dispatch mailboxes.
pub const DISPATCH_PRIORITY: u8 = 2;

/// The whole node: the monotonic instant, one mailbox per task, and the
/// four driver resources.
pub struct Runtime {
    pub now: u64,
    pub heartbeat_mb: Mailbox,
    pub button_mb: Mailbox,
    pub spi1_mb: Mailbox,
    pub lis_mb: Mailbox,
    pub heartbeat: heartbeat::Data,
    pub button: button::Data,
    pub spi: spi1::Data,
    pub lis: Lis3dsh,
}

/// Abstract view of a mailbox, for stating how the dispatcher routes a
/// handler's effects.
#[verifier::ext_equal]
pub struct MailboxModel {
    pub queue: Seq<MessagePacket>,
    pub deferred: Option<DeferredEntry>,
}

pub open spec fn mailbox_model(mb: Mailbox) -> MailboxModel {
    MailboxModel { queue: mb.queue@, deferred: mb.deferred }
}

/// One effect applied to the mailbox of task `t`: a send to `t` appends
/// when there is room and is dropped at capacity; a deferred send to `t`
/// arms the slot when it is free and is dropped when it is occupied; any
/// other effect leaves the mailbox alone.
pub open spec fn effect_on_mailbox(
    m: MailboxModel,
    cap: nat,
    t: Task,
    source: Task,
    now: int,
    e: Effect,
) -> MailboxModel {
    match e {
        Effect::Send(dest, msg2) => if dest == t {
            if m.queue.len() < cap {
                MailboxModel { queue: m.queue.push(MessagePacket { source, msg: msg2 }), ..m }
            } else {
                m
            }
        } else {
            m
        },
        Effect::Schedule(dest, msg2, cycles) => if dest == t {
            if m.deferred is None {
                MailboxModel {
                    deferred: Some(
                        DeferredEntry {
                            packet: MessagePacket { source, msg: msg2 },
                            when: (now + cycles) as u64,
                        },
                    ),
                    ..m
                }
            } else {
                m
            }
        } else {
            m
        },
        Effect::Hw(_) => m,
    }
}

/// A run of effects applied to the mailbox of task `t`, in order.
pub open spec fn effects_on_mailbox(
    m: MailboxModel,
    cap: nat,
    t: Task,
    source: Task,
    now: int,
    es: Seq<Effect>,
) -> MailboxModel
    decreases es.len(),
{
    if es.len() == 0 {
        m
    } else {
        effect_on_mailbox(
            effects_on_mailbox(m, cap, t, source, now, es.drop_last()),
            cap,
            t,
            source,
            now,
            es.last(),
        )
    }
}

/// The second mailbox extends the first: same shape, the old envelopes
/// still in place and in order, and an armed deferred slot never
/// overwritten.
pub open spec fn mailbox_extended(pre: Mailbox, post: Mailbox) -> bool {
    &&& post.capacity == pre.capacity
    &&& post.priority == pre.priority
    &&& pre.queue@.len() <= post.queue@.len()
    &&& (forall|i: int| 0 <= i < pre.queue@.len() ==> post.queue@[i] == pre.queue@[i])
    &&& (pre.deferred is Some ==> post.deferred == pre.deferred)
}

/// The second queue is the first with its head removed, possibly with new
/// envelopes appended.
pub open spec fn queue_advanced(pre: Seq<MessagePacket>, post: Seq<MessagePacket>) -> bool {
    &&& post.len() >= pre.len() - 1
    &&& (forall|i: int| 0 <= i < pre.len() - 1 ==> post[i] == pre[i + 1])
}

/// The second queue is the first, possibly with new envelopes appended.
pub open spec fn queue_extended(pre: Seq<MessagePacket>, post: Seq<MessagePacket>) -> bool {
    &&& post.len() >= pre.len()
    &&& (forall|i: int| 0 <= i < pre.len() ==> post[i] == pre[i])
}

/// How the button resource moves under one delivered envelope.
pub open spec fn button_resource_step(
    d: button::DataV,
    packet: MessagePacket,
    level: bool,
) -> button::DataV {
    match packet.msg {
        Message::ButtonSample => button::sample_spec(d, level).0,
        _ => button::mb_spec(d, packet).0,
    }
}

/// How the heartbeat resource moves under one delivered envelope.
pub open spec fn heartbeat_resource_step(d: heartbeat::Data, packet: MessagePacket) -> heartbeat::Data {
    match packet.msg {
        Message::HeartbeatTick(inc) => heartbeat::tick_spec(d, inc).0,
        _ => heartbeat::mb_spec(d, packet).0,
    }
}

/// How the SPI resource moves under one delivered envelope.
pub open spec fn spi_resource_step(d: spi1::DataV, packet: MessagePacket) -> spi1::DataV {
    match packet.msg {
        Message::Spi(m) => spi1::spi_step(d, m, packet.source).0,
        _ => d,
    }
}

/// How the accelerometer resource moves under one delivered envelope.
pub open spec fn lis_resource_step(l: Lis3dsh, packet: MessagePacket) -> Lis3dsh {
    match packet.msg {
        Message::Lis3dsh(m) => lis3dsh::protocol_step(l, m, packet.source),
        _ => l,
    }
}

/// The effects the button driver emits for one delivered envelope.
pub open spec fn button_effects(d: button::DataV, packet: MessagePacket, level: bool) -> Seq<
    Effect,
> {
    match packet.msg {
        Message::ButtonSample => button::sample_spec(d, level).1,
        _ => button::mb_spec(d, packet).1,
    }
}

/// The effects the heartbeat driver emits for one delivered envelope.
pub open spec fn heartbeat_effects(d: heartbeat::Data, packet: MessagePacket) -> Seq<Effect> {
    match packet.msg {
        Message::HeartbeatTick(inc) => heartbeat::tick_spec(d, inc).1,
        _ => heartbeat::mb_spec(d, packet).1,
    }
}

/// The effects the SPI engine emits for one delivered envelope.
pub open spec fn spi_effects(d: spi1::DataV, packet: MessagePacket) -> Seq<Effect> {
    match packet.msg {
        Message::Spi(m) => spi1::spi_step(d, m, packet.source).1,
        _ => Seq::<Effect>::empty(),
    }
}

/// The resource of the addressed task has moved one driver step; every
/// other resource is untouched.
pub open spec fn dispatched_resource(
    pre: Runtime,
    post: Runtime,
    t: Task,
    packet: MessagePacket,
    level: bool,
) -> bool {
    &&& (t is Button ==> post.button@ == button_resource_step(pre.button@, packet, level)
        && post.heartbeat == pre.heartbeat && post.spi == pre.spi && post.lis == pre.lis)
    &&& (t is Heartbeat ==> post.heartbeat == heartbeat_resource_step(pre.heartbeat, packet)
        && post.button@ == pre.button@ && post.spi == pre.spi && post.lis == pre.lis)
    &&& (t is Spi1 ==> post.spi@ == spi_resource_step(pre.spi@, packet) && post.button@
        == pre.button@ && post.heartbeat == pre.heartbeat && post.lis == pre.lis)
    &&& (t is Lis3dsh ==> post.lis == lis_resource_step(pre.lis, packet) && post.button@
        == pre.button@ && post.heartbeat == pre.heartbeat && post.spi == pre.spi)
}

/// Every mailbox of the second runtime is the corresponding mailbox of the
/// first with the effect run `es`, emitted by `source`, routed into it —
/// appends and armings in order, rejections dropped.
pub open spec fn routed(pre: Runtime, post: Runtime, source: Task, es: Seq<Effect>) -> bool {
    &&& mailbox_model(post.heartbeat_mb) == effects_on_mailbox(
        mailbox_model(pre.heartbeat_mb),
        pre.heartbeat_mb.capacity as nat,
        Task::Heartbeat,
        source,
        pre.now as int,
        es,
    )
    &&& mailbox_model(post.button_mb) == effects_on_mailbox(
        mailbox_model(pre.button_mb),
        pre.button_mb.capacity as nat,
        Task::Button,
        source,
        pre.now as int,
        es,
    )
    &&& mailbox_model(post.spi1_mb) == effects_on_mailbox(
        mailbox_model(pre.spi1_mb),
        pre.spi1_mb.capacity as nat,
        Task::Spi1,
        source,
        pre.now as int,
        es,
    )
    &&& mailbox_model(post.lis_mb) == effects_on_mailbox(
        mailbox_model(pre.lis_mb),
        pre.lis_mb.capacity as nat,
        Task::Lis3dsh,
        source,
        pre.now as int,
        es,
    )
}

/// The queue capacity of the given task's mailbox.
pub open spec fn capacity_of(pre: Runtime, u: Task) -> nat {
    match u {
        Task::Heartbeat => pre.heartbeat_mb.capacity as nat,
        Task::Button => pre.button_mb.capacity as nat,
        Task::Spi1 => pre.spi1_mb.capacity as nat,
        Task::Lis3dsh => pre.lis_mb.capacity as nat,
        _ => 0,
    }
}

/// Task `u`'s mailbox after the dispatched envelope was consumed: the
/// addressed task `t` loses its queue head (ready dispatch) or its
/// deferred entry (timer dispatch); every other mailbox is untouched.
pub open spec fn consumed_model(
    pre: Runtime,
    t: Task,
    from_deferred: bool,
    u: Task,
) -> MailboxModel {
    let m = MailboxModel { queue: pre.queue_of(u), deferred: pre.deferred_of(u) };
    if u == t {
        if from_deferred {
            MailboxModel { queue: m.queue, deferred: None }
        } else {
            MailboxModel { queue: m.queue.drop_first(), deferred: m.deferred }
        }
    } else {
        m
    }
}

/// Every mailbox of the second runtime is the corresponding consumed
/// mailbox of the first with the effect run routed into it.
pub open spec fn routed_after_consume(
    pre: Runtime,
    post: Runtime,
    t: Task,
    from_deferred: bool,
    source: Task,
    es: Seq<Effect>,
) -> bool {
    &&& mailbox_model(post.heartbeat_mb) == effects_on_mailbox(
        consumed_model(pre, t, from_deferred, Task::Heartbeat),
        capacity_of(pre, Task::Heartbeat),
        Task::Heartbeat,
        source,
        pre.now as int,
        es,
    )
    &&& mailbox_model(post.button_mb) == effects_on_mailbox(
        consumed_model(pre, t, from_deferred, Task::Button),
        capacity_of(pre, Task::Button),
        Task::Button,
        source,
        pre.now as int,
        es,
    )
    &&& mailbox_model(post.spi1_mb) == effects_on_mailbox(
        consumed_model(pre, t, from_deferred, Task::Spi1),
        capacity_of(pre, Task::Spi1),
        Task::Spi1,
        source,
        pre.now as int,
        es,
    )
    &&& mailbox_model(post.lis_mb) == effects_on_mailbox(
        consumed_model(pre, t, from_deferred, Task::Lis3dsh),
        capacity_of(pre, Task::Lis3dsh),
        Task::Lis3dsh,
        source,
        pre.now as int,
        es,
    )
}

/// The effects the accelerometer driver emits for one delivered envelope,
/// as far as its contract pins them (the framed write's payload array
/// keeps it from being a spec-level function of the inputs).
pub open spec fn lis_dispatch_effects(
    l: Lis3dsh,
    rx: Seq<u8>,
    packet: MessagePacket,
    es: Seq<Effect>,
) -> bool {
    match packet.msg {
        Message::Lis3dsh(m) => lis3dsh::handler_effects_ok(l, rx, m, packet.source, es),
        _ => es =~= Seq::<Effect>::empty(),
    }
}

/// The handler's effects were routed into the mailboxes: exactly the
/// driver's effect run for the addressed task, with the accelerometer's
/// bound existentially through [`lis_dispatch_effects`].
pub open spec fn dispatched_routing(
    pre: Runtime,
    post: Runtime,
    t: Task,
    packet: MessagePacket,
    level: bool,
    from_deferred: bool,
) -> bool {
    &&& (t is Button ==> routed_after_consume(
        pre,
        post,
        t,
        from_deferred,
        t,
        button_effects(pre.button@, packet, level),
    ))
    &&& (t is Heartbeat ==> routed_after_consume(
        pre,
        post,
        t,
        from_deferred,
        t,
        heartbeat_effects(pre.heartbeat, packet),
    ))
    &&& (t is Spi1 ==> routed_after_consume(
        pre,
        post,
        t,
        from_deferred,
        t,
        spi_effects(pre.spi@, packet),
    ))
    &&& (t is Lis3dsh ==> (exists|es: Seq<Effect>|
        #[trigger] lis_dispatch_effects(pre.lis, pre.spi@.rx, packet, es)
            && routed_after_consume(pre, post, t, from_deferred, t, es)))
}

/// The peripheral actions handed back for one dispatched envelope are
/// exactly those the addressed driver's effects prescribe, in order.
pub open spec fn dispatched_actions(
    pre: Runtime,
    t: Task,
    packet: MessagePacket,
    level: bool,
    r: Option<Vec<HwAction>>,
) -> bool {
    &&& (t is Button ==> (r matches Some(acts) && acts@ == msg::hw_actions_of(
        button_effects(pre.button@, packet, level),
    )))
    &&& (t is Heartbeat ==> (r matches Some(acts) && acts@ == msg::hw_actions_of(
        heartbeat_effects(pre.heartbeat, packet),
    )))
    &&& (t is Spi1 ==> (r matches Some(acts) && acts@ == msg::hw_actions_of(
        spi_effects(pre.spi@, packet),
    )))
}

impl Runtime {
    pub open spec fn wf(self) -> bool {
        &&& self.now <= MAX_INSTANT
        &&& self.heartbeat_mb.wf()
        &&& self.button_mb.wf()
        &&& self.spi1_mb.wf()
        &&& self.lis_mb.wf()
        &&& self.heartbeat.wf()
        &&& self.button.wf()
        &&& self.spi.wf()
        &&& self.lis.wf()
    }

    /// The queue of the given task's mailbox (a pseudo-source owns none).
    pub open spec fn queue_of(self, t: Task) -> Seq<MessagePacket> {
        match t {
            Task::Heartbeat => self.heartbeat_mb.queue@,
            Task::Button => self.button_mb.queue@,
            Task::Spi1 => self.spi1_mb.queue@,
            Task::Lis3dsh => self.lis_mb.queue@,
            _ => Seq::<MessagePacket>::empty(),
        }
    }

    /// The deferred slot of the given task's mailbox.
    pub open spec fn deferred_of(self, t: Task) -> Option<DeferredEntry> {
        match t {
            Task::Heartbeat => self.heartbeat_mb.deferred,
            Task::Button => self.button_mb.deferred,
            Task::Spi1 => self.spi1_mb.deferred,
            Task::Lis3dsh => self.lis_mb.deferred,
            _ => None,
        }
    }

    /// The task whose mailbox dispatches next: the highest static priority
    /// among the non-empty queues, ties broken in a fixed order.
    pub open spec fn ready_task(self) -> Option<Task> {
        let bp = if self.button_mb.queue@.len() > 0 {
            self.button_mb.priority as int
        } else {
            -1
        };
        let hp = if self.heartbeat_mb.queue@.len() > 0 {
            self.heartbeat_mb.priority as int
        } else {
            -1
        };
        let sp = if self.spi1_mb.queue@.len() > 0 {
            self.spi1_mb.priority as int
        } else {
            -1
        };
        let lp = if self.lis_mb.queue@.len() > 0 {
            self.lis_mb.priority as int
        } else {
            -1
        };
        if bp < 0 && hp < 0 && sp < 0 && lp < 0 {
            None
        } else if bp >= hp && bp >= sp && bp >= lp {
            Some(Task::Button)
        } else if hp >= sp && hp >= lp {
            Some(Task::Heartbeat)
        } else if sp >= lp {
            Some(Task::Spi1)
        } else {
            Some(Task::Lis3dsh)
        }
    }

    /// Whether a deferred entry is due at the current instant.
    pub open spec fn deferred_due(self, t: Task) -> bool {
        self.deferred_of(t) matches Some(e) && e.when <= self.now
    }

    /// The task whose deferred entry fires next, in a fixed scan order.
    pub open spec fn due_task(self) -> Option<Task> {
        if self.deferred_due(Task::Button) {
            Some(Task::Button)
        } else if self.deferred_due(Task::Heartbeat) {
            Some(Task::Heartbeat)
        } else if self.deferred_due(Task::Spi1) {
            Some(Task::Spi1)
        } else if self.deferred_due(Task::Lis3dsh) {
            Some(Task::Lis3dsh)
        } else {
            None
        }
    }

    /// Builds the node at instant zero: empty mailboxes with the fixed
    /// topology's capacities and priorities, and freshly initialised
    /// driver resources.  `max_duty` is the PWM channel's maximum duty
    /// cycle.
    pub fn new(max_duty: u16) -> (rt: Runtime)
        requires
            max_duty % heartbeat::STEP_SIZE == 0,
            max_duty >= heartbeat::STEP_SIZE,
        ensures
            rt.wf(),
            rt.now == 0,
            rt.heartbeat_mb.queue@ == Seq::<MessagePacket>::empty(),
            rt.button_mb.queue@ == Seq::<MessagePacket>::empty(),
            rt.spi1_mb.queue@ == Seq::<MessagePacket>::empty(),
            rt.lis_mb.queue@ == Seq::<MessagePacket>::empty(),
            rt.heartbeat_mb.deferred is None,
            rt.button_mb.deferred is None,
            rt.spi1_mb.deferred is None,
            rt.lis_mb.deferred is None,
            rt.heartbeat_mb.capacity == HEARTBEAT_CAPACITY,
            rt.button_mb.capacity == BUTTON_CAPACITY,
            rt.spi1_mb.capacity == SPI_CAPACITY,
            rt.lis_mb.capacity == LIS_CAPACITY,
            rt.heartbeat.state is Off,
            rt.heartbeat.duty == 0,
            rt.heartbeat.max_duty == max_duty,
            rt.button@.state is NotPressed,
            rt.button@.cnt == 0,
            rt.spi@.state is Idling,
            rt.lis.state is Idling,
            rt.lis.config.scale is Two_G,
            rt.lis.config.data_rate is Zero,
    {
        Runtime {
            now: 0,
            heartbeat_mb: Mailbox::new(HEARTBEAT_CAPACITY, DISPATCH_PRIORITY),
            button_mb: Mailbox::new(BUTTON_CAPACITY, DISPATCH_PRIORITY),
            spi1_mb: Mailbox::new(SPI_CAPACITY, DISPATCH_PRIORITY),
            lis_mb: Mailbox::new(LIS_CAPACITY, DISPATCH_PRIORITY),
            heartbeat: heartbeat::Data::new(max_duty),
            button: button::Data::new(),
            spi: spi1::Data::new(),
            lis: Lis3dsh::new(),
        }
    }

    /// Boot sequence: turn the heartbeat on, raise the accelerometer's
    /// output data rate, and schedule a first axis read one second out.
    pub fn init(&mut self)
        requires
            old(self).wf(),
            old(self).heartbeat_mb.queue@.len() < old(self).heartbeat_mb.capacity,
            old(self).lis_mb.queue@.len() < old(self).lis_mb.capacity,
            old(self).lis_mb.deferred is None,
        ensures
            final(self).wf(),
            final(self).now == old(self).now,
            final(self).heartbeat == old(self).heartbeat,
            final(self).button == old(self).button,
            final(self).spi == old(self).spi,
            final(self).lis == old(self).lis,
            final(self).button_mb == old(self).button_mb,
            final(self).spi1_mb == old(self).spi1_mb,
            final(self).heartbeat_mb.queue@ == old(self).heartbeat_mb.queue@.push(
                MessagePacket {
                    source: Task::Init,
                    msg: Message::Heartbeat(heartbeat::Message::TurnOn),
                },
            ),
            final(self).heartbeat_mb.deferred == old(self).heartbeat_mb.deferred,
            final(self).lis_mb.queue@ == old(self).lis_mb.queue@.push(
                MessagePacket {
                    source: Task::Init,
                    msg: Message::Lis3dsh(
                        lis3dsh::Message::ChangeDataRate(lis3dsh::DataRate::OneHundredHertz),
                    ),
                },
            ),
            final(self).lis_mb.deferred matches Some(e) && e.packet == (MessagePacket {
                source: Task::Init,
                msg: Message::Lis3dsh(lis3dsh::Message::ReadAxes),
            }) && e.when == old(self).now + 1_000_000 * crate::util::CYCLES_PER_US,
    {
        let m = Message::Heartbeat(heartbeat::Message::TurnOn);
        let _ = util::send_message(self, Task::Init, &Task::Heartbeat, m);

        let m = Message::Lis3dsh(lis3dsh::Message::ChangeDataRate(lis3dsh::DataRate::OneHundredHertz));
        let _ = util::send_message(self, Task::Init, &Task::Lis3dsh, m);

        let m = Message::Lis3dsh(lis3dsh::Message::ReadAxes);
        let _ = util::schedule_message(self, Task::Init, &Task::Lis3dsh, m, 1_000_000);
    }

    /// Advances the monotonic instant.  Time never runs backward.
    pub fn advance_to(&mut self, now: u64)
        requires
            old(self).wf(),
            old(self).now <= now <= MAX_INSTANT,
        ensures
            final(self).wf(),
            final(self).now == now,
            *final(self) == (Runtime { now, ..*old(self) }),
    {
        self.now = now;
    }

    /// Entry point for the button's edge interrupt: post the press event,
    /// acknowledge the edge, and mask the line until the debounce cycle
    /// re-arms it.
    pub fn on_button_edge(&mut self) -> (acts: Vec<HwAction>)
        requires
            old(self).wf(),
        ensures
            final(self).wf(),
            final(self).now == old(self).now,
            final(self).heartbeat == old(self).heartbeat,
            final(self).button == old(self).button,
            final(self).spi == old(self).spi,
            final(self).lis == old(self).lis,
            final(self).heartbeat_mb == old(self).heartbeat_mb,
            final(self).spi1_mb == old(self).spi1_mb,
            final(self).lis_mb == old(self).lis_mb,
            crate::mailbox::sent_to(
                old(self).button_mb,
                final(self).button_mb,
                MessagePacket {
                    source: Task::Interrupt,
                    msg: Message::Button(button::Message::ButtonPressed),
                },
                if old(self).button_mb.queue@.len() < old(self).button_mb.capacity {
                    Ok(())
                } else {
                    Err(
                        crate::util::RticError::Spawn(
                            MessagePacket {
                                source: Task::Interrupt,
                                msg: Message::Button(button::Message::ButtonPressed),
                            },
                        ),
                    )
                },
            ),
            acts@ =~= seq![HwAction::ClearButtonPending, HwAction::DisableButtonInterrupt],
    {
        let m = Message::Button(button::Message::ButtonPressed);
        let _ = util::send_message(self, Task::Interrupt, &Task::Button, m);
        let mut acts: Vec<HwAction> = Vec::new();
        acts.push(HwAction::ClearButtonPending);
        acts.push(HwAction::DisableButtonInterrupt);
        acts
    }

    /// Entry point for the SPI peripheral interrupt: classify it as
    /// receive-ready (whose latched byte rides along, and whose interrupt
    /// is masked until the engine re-arms it) or transmit-empty, and post
    /// the event; anything else is posted as `Ignore`.
    pub fn on_spi_interrupt(&mut self, rxne: bool, txe: bool, rx_byte: u8) -> (acts: Vec<
        HwAction,
    >)
        requires
            old(self).wf(),
        ensures
            final(self).wf(),
            final(self).now == old(self).now,
            final(self).heartbeat == old(self).heartbeat,
            final(self).button == old(self).button,
            final(self).spi == old(self).spi,
            final(self).lis == old(self).lis,
            final(self).heartbeat_mb == old(self).heartbeat_mb,
            final(self).button_mb == old(self).button_mb,
            final(self).lis_mb == old(self).lis_mb,
            ({
                let m = if rxne {
                    spi_drv::Message::RxEvent(rx_byte)
                } else if txe {
                    spi_drv::Message::TxEvent
                } else {
                    spi_drv::Message::Ignore
                };
                let p = MessagePacket { source: Task::Interrupt, msg: Message::Spi(m) };
                let pre = old(self).spi1_mb;
                let post = final(self).spi1_mb;
                &&& (pre.queue@.len() < pre.capacity ==> post.queue@ == pre.queue@.push(p))
                &&& (pre.queue@.len() >= pre.capacity ==> post.queue@ == pre.queue@)
                &&& post.capacity == pre.capacity
                &&& post.priority == pre.priority
                &&& post.deferred == pre.deferred
            }),
            acts@ =~= if rxne {
                seq![HwAction::UnlistenRx]
            } else {
                Seq::<HwAction>::empty()
            },
    {
        let mut acts: Vec<HwAction> = Vec::new();
        let m = if rxne {
            acts.push(HwAction::UnlistenRx);
            spi_drv::Message::RxEvent(rx_byte)
        } else if txe {
            spi_drv::Message::TxEvent
        } else {
            spi_drv::Message::Ignore
        };
        let _ = util::send_message(self, Task::Interrupt, &Task::Spi1, Message::Spi(m));
        acts
    }

    /// Applies a handler's effects: immediate sends and deferred sends go
    /// to the mailboxes — a rejection is dropped, never fatal — and the
    /// peripheral actions are collected, in order, for the embedding.
    fn apply_effects(&mut self, source: Task, effects: Vec<Effect>) -> (acts: Vec<HwAction>)
        requires
            old(self).wf(),
            msg::effects_wf(effects@),
        ensures
            final(self).wf(),
            final(self).now == old(self).now,
            final(self).heartbeat == old(self).heartbeat,
            final(self).button == old(self).button,
            final(self).spi == old(self).spi,
            final(self).lis == old(self).lis,
            mailbox_extended(old(self).heartbeat_mb, final(self).heartbeat_mb),
            mailbox_extended(old(self).button_mb, final(self).button_mb),
            mailbox_extended(old(self).spi1_mb, final(self).spi1_mb),
            mailbox_extended(old(self).lis_mb, final(self).lis_mb),
            routed(*old(self), *final(self), source, effects@),
            acts@ == msg::hw_actions_of(effects@),
    {
        let mut acts: Vec<HwAction> = Vec::new();
        let mut i: usize = 0;
        while i < effects.len()
            invariant
                self.wf(),
                msg::effects_wf(effects@),
                i <= effects@.len(),
                self.now == old(self).now,
                self.heartbeat == old(self).heartbeat,
                self.button == old(self).button,
                self.spi == old(self).spi,
                self.lis == old(self).lis,
                mailbox_extended(old(self).heartbeat_mb, self.heartbeat_mb),
                mailbox_extended(old(self).button_mb, self.button_mb),
                mailbox_extended(old(self).spi1_mb, self.spi1_mb),
                mailbox_extended(old(self).lis_mb, self.lis_mb),
                routed(*old(self), *self, source, effects@.take(i as int)),
                acts@ == msg::hw_actions_of(effects@.take(i as int)),
            decreases effects@.len() - i,
        {
            proof {
                assert(effects@[i as int].wf());
                assert(effects@.take(i as int + 1).drop_last() =~= effects@.take(i as int));
            }
            let e = effects[i];
            match e {
                Effect::Send(dest, m) => {
                    let _ = util::send_message(self, source, &dest, m);
                },
                Effect::Schedule(dest, m, delay_cycles) => {
                    let _ = util::schedule_message_cycles(self, source, &dest, m, delay_cycles);
                },
                Effect::Hw(a) => {
                    acts.push(a);
                },
            }
            i += 1;
        }
        proof {
            assert(effects@.take(effects@.len() as int) =~= effects@);
        }
        acts
    }

    /// Delivers one envelope to the addressed task's driver and applies
    /// the effects.  The addressed resource moves exactly one driver step;
    /// the others are untouched; mailboxes only gain envelopes.
    pub fn deliver(&mut self, dest: Task, packet: MessagePacket, button_level: bool) -> (acts:
        Vec<HwAction>)
        requires
            old(self).wf(),
            packet.wf(),
        ensures
            final(self).wf(),
            final(self).now == old(self).now,
            mailbox_extended(old(self).heartbeat_mb, final(self).heartbeat_mb),
            mailbox_extended(old(self).button_mb, final(self).button_mb),
            mailbox_extended(old(self).spi1_mb, final(self).spi1_mb),
            mailbox_extended(old(self).lis_mb, final(self).lis_mb),
            dispatched_resource(*old(self), *final(self), dest, packet, button_level),
            dest is Button ==> acts@ == msg::hw_actions_of(
                button_effects(old(self).button@, packet, button_level),
            ) && routed(
                *old(self),
                *final(self),
                dest,
                button_effects(old(self).button@, packet, button_level),
            ),
            dest is Heartbeat ==> acts@ == msg::hw_actions_of(
                heartbeat_effects(old(self).heartbeat, packet),
            ) && routed(
                *old(self),
                *final(self),
                dest,
                heartbeat_effects(old(self).heartbeat, packet),
            ),
            dest is Spi1 ==> acts@ == msg::hw_actions_of(spi_effects(old(self).spi@, packet))
                && routed(*old(self), *final(self), dest, spi_effects(old(self).spi@, packet)),
            dest is Lis3dsh ==> (exists|es: Seq<Effect>|
                #[trigger] lis_dispatch_effects(old(self).lis, old(self).spi@.rx, packet, es)
                    && routed(*old(self), *final(self), dest, es)),
            (dest is Init || dest is Interrupt) ==> *final(self) == *old(self) && acts@
                == Seq::<HwAction>::empty(),
    {
        let eff: Vec<Effect> = match dest {
            Task::Button => {
                match packet.msg {
                    Message::ButtonSample => button::button(&mut self.button, button_level),
                    _ => button::button_mb(&mut self.button, packet),
                }
            },
            Task::Heartbeat => {
                match packet.msg {
                    Message::HeartbeatTick(inc) => heartbeat::heartbeat(&mut self.heartbeat, inc),
                    _ => heartbeat::heartbeat_mb(&mut self.heartbeat, packet),
                }
            },
            Task::Spi1 => spi1::spi1_mb(&mut self.spi, packet),
            Task::Lis3dsh => lis3dsh::lis3dsh_mb(&mut self.lis, &self.spi.rx_buffer, packet),
            Task::Init => {
                return Vec::new();
            },
            Task::Interrupt => {
                return Vec::new();
            },
        };
        let ghost geff = eff@;
        let acts = self.apply_effects(dest, eff);
        proof {
            if dest is Lis3dsh {
                assert(lis_dispatch_effects(old(self).lis, old(self).spi@.rx, packet, geff));
                assert(routed(*old(self), *self, dest, geff));
            }
        }
        acts
    }

    /// The executable mirror of [`Runtime::ready_task`].
    fn find_ready(&self) -> (r: Option<Task>)
        ensures
            r == self.ready_task(),
    {
        let bp: i32 = if self.button_mb.queue.len() > 0 {
            self.button_mb.priority as i32
        } else {
            -1
        };
        let hp: i32 = if self.heartbeat_mb.queue.len() > 0 {
            self.heartbeat_mb.priority as i32
        } else {
            -1
        };
        let sp: i32 = if self.spi1_mb.queue.len() > 0 {
            self.spi1_mb.priority as i32
        } else {
            -1
        };
        let lp: i32 = if self.lis_mb.queue.len() > 0 {
            self.lis_mb.priority as i32
        } else {
            -1
        };
        if bp < 0 && hp < 0 && sp < 0 && lp < 0 {
            None
        } else if bp >= hp && bp >= sp && bp >= lp {
            Some(Task::Button)
        } else if hp >= sp && hp >= lp {
            Some(Task::Heartbeat)
        } else if sp >= lp {
            Some(Task::Spi1)
        } else {
            Some(Task::Lis3dsh)
        }
    }

    /// The executable mirror of [`Runtime::due_task`].
    fn find_due(&self) -> (r: Option<Task>)
        ensures
            r == self.due_task(),
    {
        if self.is_due(&self.button_mb) {
            Some(Task::Button)
        } else if self.is_due(&self.heartbeat_mb) {
            Some(Task::Heartbeat)
        } else if self.is_due(&self.spi1_mb) {
            Some(Task::Spi1)
        } else if self.is_due(&self.lis_mb) {
            Some(Task::Lis3dsh)
        } else {
            None
        }
    }

    /// Whether a mailbox's deferred entry is due at the current instant.
    fn is_due(&self, mb: &Mailbox) -> (r: bool)
        ensures
            r == (mb.deferred matches Some(e) && e.when <= self.now),
    {
        match &mb.deferred {
            Some(e) => e.when <= self.now,
            None => false,
        }
    }

    /// Dispatches one envelope, if any is ready: first the ready queues in
    /// priority order, else the first due deferred entry.  Returns the
    /// peripheral actions the delivered handler asked for, or `None` when
    /// the node is quiescent.  `button_level` is the input line's current
    /// level, read by the embedding and consumed only by a button sample
    /// tick.
    pub fn step(&mut self, button_level: bool) -> (r: Option<Vec<HwAction>>)
        requires
            old(self).wf(),
        ensures
            final(self).wf(),
            final(self).now == old(self).now,
            old(self).ready_task() is None && old(self).due_task() is None ==> r is None
                && *final(self) == *old(self),
            (old(self).ready_task() is Some || old(self).due_task() is Some) ==> r is Some,
            old(self).ready_task() matches Some(t) ==> {
                &&& dispatched_resource(
                    *old(self),
                    *final(self),
                    t,
                    old(self).queue_of(t)[0],
                    button_level,
                )
                &&& dispatched_actions(
                    *old(self),
                    t,
                    old(self).queue_of(t)[0],
                    button_level,
                    r,
                )
                &&& dispatched_routing(
                    *old(self),
                    *final(self),
                    t,
                    old(self).queue_of(t)[0],
                    button_level,
                    false,
                )
                &&& queue_advanced(old(self).queue_of(t), final(self).queue_of(t))
                &&& (forall|u: Task|
                    u != t ==> queue_extended(
                        old(self).queue_of(u),
                        #[trigger] final(self).queue_of(u),
                    ))
            },
            old(self).ready_task() is None ==> (old(self).due_task() matches Some(t) ==> {
                &&& (old(self).deferred_of(t) matches Some(e) && dispatched_resource(
                    *old(self),
                    *final(self),
                    t,
                    e.packet,
                    button_level,
                ) && dispatched_actions(*old(self), t, e.packet, button_level, r)
                    && dispatched_routing(
                    *old(self),
                    *final(self),
                    t,
                    e.packet,
                    button_level,
                    true,
                ))
                &&& (forall|u: Task|
                    queue_extended(old(self).queue_of(u), #[trigger] final(self).queue_of(u)))
            }),
    {
        let ready = self.find_ready();
        match ready {
            Some(t) => {
                let popt = match t {
                    Task::Button => self.button_mb.pop_front(),
                    Task::Heartbeat => self.heartbeat_mb.pop_front(),
                    Task::Spi1 => self.spi1_mb.pop_front(),
                    Task::Lis3dsh => self.lis_mb.pop_front(),
                    _ => None,
                };
                match popt {
                    Some(p) => {
                        let ghost mid = *self;
                        let acts = self.deliver(t, p, button_level);
                        proof {
                            assert(consumed_model(*old(self), t, false, Task::Heartbeat)
                                =~= mailbox_model(mid.heartbeat_mb));
                            assert(consumed_model(*old(self), t, false, Task::Button)
                                =~= mailbox_model(mid.button_mb));
                            assert(consumed_model(*old(self), t, false, Task::Spi1)
                                =~= mailbox_model(mid.spi1_mb));
                            assert(consumed_model(*old(self), t, false, Task::Lis3dsh)
                                =~= mailbox_model(mid.lis_mb));
                            if t is Lis3dsh {
                                let es0 = choose|es: Seq<Effect>|
                                    lis_dispatch_effects(mid.lis, mid.spi@.rx, p, es) && routed(
                                        mid,
                                        *self,
                                        t,
                                        es,
                                    );
                                assert(lis_dispatch_effects(old(self).lis, old(self).spi@.rx, p, es0));
                                assert(routed_after_consume(*old(self), *self, t, false, t, es0));
                            }
                        }
                        Some(acts)
                    },
                    None => None,
                }
            },
            None => {
                let due = self.find_due();
                match due {
                    Some(t) => {
                        let popt = match t {
                            Task::Button => self.button_mb.take_due(self.now),
                            Task::Heartbeat => self.heartbeat_mb.take_due(self.now),
                            Task::Spi1 => self.spi1_mb.take_due(self.now),
                            Task::Lis3dsh => self.lis_mb.take_due(self.now),
                            _ => None,
                        };
                        match popt {
                            Some(p) => {
                                let ghost mid = *self;
                                let acts = self.deliver(t, p, button_level);
                                proof {
                                    assert(consumed_model(*old(self), t, true, Task::Heartbeat)
                                        =~= mailbox_model(mid.heartbeat_mb));
                                    assert(consumed_model(*old(self), t, true, Task::Button)
                                        =~= mailbox_model(mid.button_mb));
                                    assert(consumed_model(*old(self), t, true, Task::Spi1)
                                        =~= mailbox_model(mid.spi1_mb));
                                    assert(consumed_model(*old(self), t, true, Task::Lis3dsh)
                                        =~= mailbox_model(mid.lis_mb));
                                    if t is Lis3dsh {
                                        let es0 = choose|es: Seq<Effect>|
                                            lis_dispatch_effects(mid.lis, mid.spi@.rx, p, es)
                                                && routed(mid, *self, t, es);
                                        assert(lis_dispatch_effects(
                                            old(self).lis,
                                            old(self).spi@.rx,
                                            p,
                                            es0,
                                        ));
                                        assert(routed_after_consume(*old(self), *self, t, true, t, es0));
                                    }
                                }
                                Some(acts)
                            },
                            None => None,
                        }
                    },
                    None => None,
                }
            },
        }
    }
}

} // verus!
