//! The typed message bus: task identities, envelopes, and the effect
//! vocabulary through which drivers reach the world.

use vstd::prelude::*;

use crate::button;
use crate::heartbeat;
use crate::lis3dsh;
use crate::spi_drv;

verus! {

/// Every mailbox-owning actor, plus the two pseudo-sources (`Init` and
/// `Interrupt`) that only ever appear as message provenance.
#[derive(Clone, Copy, Debug, PartialEq, Eq, Structural)]
pub enum Task {
    Init,
    Interrupt,
    Heartbeat,
    Button,
    Spi1,
    Lis3dsh,
}

/// The union of every driver's event alphabet, plus the two self-scheduled
/// timer ticks (`ButtonSample` carries no data — the embedding reads the
/// input line when the tick fires; `HeartbeatTick` carries the animation's
/// direction flag).
#[derive(Clone, Copy, Debug)]
pub enum Message {
    Lis3dsh(lis3dsh::Message),
    Heartbeat(heartbeat::Message),
    Button(button::Message),
    Spi(spi_drv::Message),
    ButtonSample,
    HeartbeatTick(bool),
}

impl Message {
    /// Messages that carry a transfer command must fit the fixed buffers.
    pub open spec fn wf(self) -> bool {
        match self {
            Message::Spi(m) => m.wf(),
            _ => true,
        }
    }
}

/// A message together with the identity of the task that originated it.
#[derive(Clone, Copy, Debug)]
pub struct MessagePacket {
    pub source: Task,
    pub msg: Message,
}

impl MessagePacket {
    pub open spec fn wf(self) -> bool {
        self.msg.wf()
    }
}

/// A diagnostic value produced by a completed accelerometer command.
/// Axis readings are exact numerators over [`lis3dsh::AXIS_DIVISOR`]: the
/// physical acceleration in g is the reported value divided by the divisor.
#[derive(Clone, Copy, Debug, PartialEq, Eq, Structural)]
pub enum Reading {
    Id(u8),
    Axes(i32, i32, i32),
}

/// A peripheral-level action requested by a driver.  The core never touches
/// hardware: the embedding performs these in the order given.
#[derive(Clone, Copy, Debug, PartialEq, Eq, Structural)]
pub enum HwAction {
    /// Clock one byte out of the SPI master.
    SpiTransmit(u8),
    /// Assert the accelerometer's chip select (active low).
    ChipSelectLow,
    /// Deassert the accelerometer's chip select.
    ChipSelectHigh,
    /// Enable the SPI receive-ready interrupt.
    ListenRx,
    /// Disable the SPI receive-ready interrupt.
    UnlistenRx,
    /// Set the indicator PWM duty cycle.
    SetDuty(u16),
    /// Enable the indicator PWM output.
    EnablePwm,
    /// Disable the indicator PWM output.
    DisablePwm,
    /// Re-arm the button's edge interrupt.
    EnableButtonInterrupt,
    /// Mask the button's edge interrupt while debouncing.
    DisableButtonInterrupt,
    /// Acknowledge the button's pending edge interrupt.
    ClearButtonPending,
    /// Surface a diagnostic reading to the debug sink.
    Report(Reading),
}

/// Everything a driver handler may ask of the runtime: an immediate send,
/// a deferred send (delay in monotonic counter cycles), or a peripheral
/// action.
#[derive(Clone, Copy, Debug)]
pub enum Effect {
    Send(Task, Message),
    Schedule(Task, Message, u32),
    Hw(HwAction),
}

impl Effect {
    /// Messages handed to the runtime are well-formed.
    pub open spec fn wf(self) -> bool {
        match self {
            Effect::Send(_dest, m) => m.wf(),
            Effect::Schedule(_dest, m, _delay_cycles) => m.wf(),
            Effect::Hw(_a) => true,
        }
    }
}

/// All effects in a handler's output are well-formed.
pub open spec fn effects_wf(es: Seq<Effect>) -> bool {
    forall|i: int| 0 <= i < es.len() ==> (#[trigger] es[i]).wf()
}

/// The peripheral actions of an effect sequence, in order.
pub open spec fn hw_actions_of(es: Seq<Effect>) -> Seq<HwAction>
    decreases es.len(),
{
    if es.len() == 0 {
        Seq::empty()
    } else {
        hw_actions_of(es.drop_last()) + match es.last() {
            Effect::Hw(a) => seq![a],
            _ => Seq::<HwAction>::empty(),
        }
    }
}

} // verus!
