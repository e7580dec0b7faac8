//! Timebase constants, the message-routing entry points, and the error
//! type of the message-passing substrate.

use vstd::prelude::*;

use crate::mailbox::{scheduled_to, sent_to};
use crate::msg::{Message, MessagePacket, Task};
use crate::runtime::Runtime;

verus! {

/// System clock frequency in Hz; the monotonic cycle counter runs at this rate.
pub const CPU_FREQ: u32 = 168_000_000;

/// Number of monotonic counter cycles per microsecond.
pub const CYCLES_PER_US: u32 = CPU_FREQ / 1_000_000;

/// Largest delay, in microseconds, whose cycle count still fits in a `u32`.
pub const MAX_DELAY_US: u32 = u32::MAX / CYCLES_PER_US;

/// Converts a delay in microseconds into monotonic counter cycles.
pub fn convert_us_to_cycles(us: u32) -> (r: u32)
    requires
        us <= MAX_DELAY_US,
    ensures
        r == us * CYCLES_PER_US,
{
    us * CYCLES_PER_US
}

/// Sends a message for immediate dispatch to the destination task's
/// mailbox.  The destination mailbox either appends it in FIFO position or
/// rejects it at capacity; a pseudo-source destination owns no mailbox and
/// always rejects.  Nothing else in the runtime changes.
pub fn send_message(rt: &mut Runtime, source: Task, dest: &Task, msg: Message) -> (r: Result<
    (),
    RticError,
>)
    requires
        old(rt).wf(),
        msg.wf(),
    ensures
        final(rt).wf(),
        final(rt).now == old(rt).now,
        final(rt).heartbeat == old(rt).heartbeat,
        final(rt).button == old(rt).button,
        final(rt).spi == old(rt).spi,
        final(rt).lis == old(rt).lis,
        ({
            let p = MessagePacket { source, msg };
            match *dest {
                Task::Init | Task::Interrupt => {
                    &&& r matches Err(RticError::NoMailbox(q)) && q == p
                    &&& *final(rt) == *old(rt)
                },
                Task::Heartbeat => {
                    &&& sent_to(old(rt).heartbeat_mb, final(rt).heartbeat_mb, p, r)
                    &&& final(rt).button_mb == old(rt).button_mb
                    &&& final(rt).spi1_mb == old(rt).spi1_mb
                    &&& final(rt).lis_mb == old(rt).lis_mb
                },
                Task::Button => {
                    &&& sent_to(old(rt).button_mb, final(rt).button_mb, p, r)
                    &&& final(rt).heartbeat_mb == old(rt).heartbeat_mb
                    &&& final(rt).spi1_mb == old(rt).spi1_mb
                    &&& final(rt).lis_mb == old(rt).lis_mb
                },
                Task::Spi1 => {
                    &&& sent_to(old(rt).spi1_mb, final(rt).spi1_mb, p, r)
                    &&& final(rt).heartbeat_mb == old(rt).heartbeat_mb
                    &&& final(rt).button_mb == old(rt).button_mb
                    &&& final(rt).lis_mb == old(rt).lis_mb
                },
                Task::Lis3dsh => {
                    &&& sent_to(old(rt).lis_mb, final(rt).lis_mb, p, r)
                    &&& final(rt).heartbeat_mb == old(rt).heartbeat_mb
                    &&& final(rt).button_mb == old(rt).button_mb
                    &&& final(rt).spi1_mb == old(rt).spi1_mb
                },
            }
        }),
{
    let p = MessagePacket { source, msg };
    match dest {
        Task::Lis3dsh => rt.lis_mb.send(p),
        Task::Heartbeat => rt.heartbeat_mb.send(p),
        Task::Button => rt.button_mb.send(p),
        Task::Spi1 => rt.spi1_mb.send(p),
        Task::Init => Err(RticError::NoMailbox(p)),
        Task::Interrupt => Err(RticError::NoMailbox(p)),
    }
}

/// Arms the destination task's deferred slot so that the message fires no
/// earlier than `micros_from_now` microseconds from the current instant.
/// A slot already armed — and a pseudo-source destination — rejects the
/// request.  Nothing else in the runtime changes.
pub fn schedule_message(
    rt: &mut Runtime,
    source: Task,
    dest: &Task,
    msg: Message,
    micros_from_now: u32,
) -> (r: Result<(), RticError>)
    requires
        old(rt).wf(),
        msg.wf(),
        micros_from_now <= MAX_DELAY_US,
    ensures
        final(rt).wf(),
        final(rt).now == old(rt).now,
        final(rt).heartbeat == old(rt).heartbeat,
        final(rt).button == old(rt).button,
        final(rt).spi == old(rt).spi,
        final(rt).lis == old(rt).lis,
        ({
            let p = MessagePacket { source, msg };
            let when = old(rt).now + micros_from_now * CYCLES_PER_US;
            match *dest {
                Task::Init | Task::Interrupt => {
                    &&& r matches Err(RticError::NoMailbox(q)) && q == p
                    &&& *final(rt) == *old(rt)
                },
                Task::Heartbeat => {
                    &&& scheduled_to(old(rt).heartbeat_mb, final(rt).heartbeat_mb, p, when, r)
                    &&& final(rt).button_mb == old(rt).button_mb
                    &&& final(rt).spi1_mb == old(rt).spi1_mb
                    &&& final(rt).lis_mb == old(rt).lis_mb
                },
                Task::Button => {
                    &&& scheduled_to(old(rt).button_mb, final(rt).button_mb, p, when, r)
                    &&& final(rt).heartbeat_mb == old(rt).heartbeat_mb
                    &&& final(rt).spi1_mb == old(rt).spi1_mb
                    &&& final(rt).lis_mb == old(rt).lis_mb
                },
                Task::Spi1 => {
                    &&& scheduled_to(old(rt).spi1_mb, final(rt).spi1_mb, p, when, r)
                    &&& final(rt).heartbeat_mb == old(rt).heartbeat_mb
                    &&& final(rt).button_mb == old(rt).button_mb
                    &&& final(rt).lis_mb == old(rt).lis_mb
                },
                Task::Lis3dsh => {
                    &&& scheduled_to(old(rt).lis_mb, final(rt).lis_mb, p, when, r)
                    &&& final(rt).heartbeat_mb == old(rt).heartbeat_mb
                    &&& final(rt).button_mb == old(rt).button_mb
                    &&& final(rt).spi1_mb == old(rt).spi1_mb
                },
            }
        }),
{
    schedule_message_cycles(rt, source, dest, msg, convert_us_to_cycles(micros_from_now))
}

/// As [`schedule_message`], with the delay given directly in monotonic
/// counter cycles.
pub fn schedule_message_cycles(
    rt: &mut Runtime,
    source: Task,
    dest: &Task,
    msg: Message,
    cycles_from_now: u32,
) -> (r: Result<(), RticError>)
    requires
        old(rt).wf(),
        msg.wf(),
    ensures
        final(rt).wf(),
        final(rt).now == old(rt).now,
        final(rt).heartbeat == old(rt).heartbeat,
        final(rt).button == old(rt).button,
        final(rt).spi == old(rt).spi,
        final(rt).lis == old(rt).lis,
        ({
            let p = MessagePacket { source, msg };
            let when = old(rt).now + cycles_from_now;
            match *dest {
                Task::Init | Task::Interrupt => {
                    &&& r matches Err(RticError::NoMailbox(q)) && q == p
                    &&& *final(rt) == *old(rt)
                },
                Task::Heartbeat => {
                    &&& scheduled_to(old(rt).heartbeat_mb, final(rt).heartbeat_mb, p, when, r)
                    &&& final(rt).button_mb == old(rt).button_mb
                    &&& final(rt).spi1_mb == old(rt).spi1_mb
                    &&& final(rt).lis_mb == old(rt).lis_mb
                },
                Task::Button => {
                    &&& scheduled_to(old(rt).button_mb, final(rt).button_mb, p, when, r)
                    &&& final(rt).heartbeat_mb == old(rt).heartbeat_mb
                    &&& final(rt).spi1_mb == old(rt).spi1_mb
                    &&& final(rt).lis_mb == old(rt).lis_mb
                },
                Task::Spi1 => {
                    &&& scheduled_to(old(rt).spi1_mb, final(rt).spi1_mb, p, when, r)
                    &&& final(rt).heartbeat_mb == old(rt).heartbeat_mb
                    &&& final(rt).button_mb == old(rt).button_mb
                    &&& final(rt).lis_mb == old(rt).lis_mb
                },
                Task::Lis3dsh => {
                    &&& scheduled_to(old(rt).lis_mb, final(rt).lis_mb, p, when, r)
                    &&& final(rt).heartbeat_mb == old(rt).heartbeat_mb
                    &&& final(rt).button_mb == old(rt).button_mb
                    &&& final(rt).spi1_mb == old(rt).spi1_mb
                },
            }
        }),
{
    let p = MessagePacket { source, msg };
    let sched_time = rt.now + cycles_from_now as u64;
    match dest {
        Task::Lis3dsh => rt.lis_mb.schedule(p, sched_time),
        Task::Heartbeat => rt.heartbeat_mb.schedule(p, sched_time),
        Task::Button => rt.button_mb.schedule(p, sched_time),
        Task::Spi1 => rt.spi1_mb.schedule(p, sched_time),
        Task::Init => Err(RticError::NoMailbox(p)),
        Task::Interrupt => Err(RticError::NoMailbox(p)),
    }
}

/// Why the runtime refused to accept a message.  Every failure is
/// recoverable: the caller logs the returned packet and drops it.
#[derive(Debug)]
pub enum RticError {
    /// The destination mailbox is at capacity; the packet was not enqueued.
    Spawn(MessagePacket),
    /// The destination's single deferred slot is already armed.
    Schedule(MessagePacket),
    /// The destination is a pseudo-source (`Init` or `Interrupt`) that owns
    /// no mailbox.
    NoMailbox(MessagePacket),
}

} // verus!
