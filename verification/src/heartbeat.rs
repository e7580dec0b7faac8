//! Breathing-LED heartbeat driver.
//!
//! While `On`, an animation tick runs every 30 ms: the duty cycle of the
//! indicator's PWM channel walks a triangle wave, stepping by `STEP_SIZE`
//! and reversing direction at 0 and at the maximum duty.  The tick carries
//! the current direction flag and re-arms itself; when it observes `Off` it
//! disables the output and zeroes the duty cycle.

use vstd::prelude::*;

use crate::msg;
use crate::msg::{Effect, HwAction, MessagePacket, Task};
use crate::util::CYCLES_PER_US;

verus! {

/// Duty-cycle change per animation step.
pub const STEP_SIZE: u16 = 100;

/// Delay between two animation steps, in microseconds.
pub const TICK_PERIOD_US: u32 = 30_000;

/// Delay between two animation steps, in monotonic counter cycles.
pub const TICK_PERIOD_CYCLES: u32 = TICK_PERIOD_US * CYCLES_PER_US;

/// Event alphabet of the heartbeat state machine.
#[derive(Clone, Copy, Debug)]
pub enum Message {
    TurnOff,
    TurnOn,
    Toggle,
}

/// What the mailbox handler does besides moving the state machine.
#[derive(Clone, Copy, Debug, PartialEq, Eq, Structural)]
pub enum Action {
    DoNothing,
    Schedule,
}

/// Whether the breathing animation is running.
#[derive(Clone, Copy, Debug, PartialEq, Eq, Structural)]
pub enum State {
    Off,
    On,
}

impl State {
    /// Transition function of the heartbeat state machine.  Turning the
    /// animation on arms the tick; turning it off does nothing — the
    /// running tick observes `Off` and stops itself.
    pub open spec fn next_spec(self, msg: Message) -> (State, Action) {
        match (self, msg) {
            (State::Off, Message::TurnOn) => (State::On, Action::Schedule),
            (State::Off, Message::Toggle) => (State::On, Action::Schedule),
            (State::On, Message::TurnOff) => (State::Off, Action::DoNothing),
            (State::On, Message::Toggle) => (State::Off, Action::DoNothing),
            (s, _m) => (s, Action::DoNothing),
        }
    }

    /// Executable transition function; total over both alphabets.
    pub fn next(self, msg: &Message) -> (r: (State, Action))
        ensures
            r == self.next_spec(*msg),
    {
        match (self, *msg) {
            (State::Off, Message::TurnOn) => (State::On, Action::Schedule),
            (State::Off, Message::Toggle) => (State::On, Action::Schedule),
            (State::On, Message::TurnOff) => (State::Off, Action::DoNothing),
            (State::On, Message::Toggle) => (State::Off, Action::DoNothing),
            (s, _m) => (s, Action::DoNothing),
        }
    }
}

/// The transition function is total: every (state, event) pair yields a
/// defined (state, action) pair, and every pair outside the explicit table
/// leaves the state unchanged and does nothing.
pub proof fn lemma_heartbeat_transition_total(s: State, m: Message)
    ensures
        ({
            let (s2, a) = s.next_spec(m);
            ||| (s is Off && (m is TurnOn || m is Toggle) && s2 is On && a is Schedule)
            ||| (s is On && (m is TurnOff || m is Toggle) && s2 is Off && a is DoNothing)
            ||| (s2 == s && a is DoNothing)
        }),
{
}

/// State owned by the heartbeat task.  The PWM channel itself lives outside
/// the core; its duty cycle and maximum duty are mirrored here so that the
/// animation can be computed, and `HwAction::SetDuty` keeps the real channel
/// in step.
#[derive(Clone, Copy, Debug)]
pub struct Data {
    pub state: State,
    pub duty: u16,
    pub max_duty: u16,
}

impl Data {
    /// The duty cycle stays on the step grid and within range.
    pub open spec fn wf(self) -> bool {
        &&& self.duty <= self.max_duty
        &&& self.duty % STEP_SIZE == 0
        &&& self.max_duty % STEP_SIZE == 0
        &&& self.max_duty >= STEP_SIZE
    }

    /// A fresh heartbeat resource: animation off, output dark.
    pub fn new(max_duty: u16) -> (d: Data)
        requires
            max_duty % STEP_SIZE == 0,
            max_duty >= STEP_SIZE,
        ensures
            d.wf(),
            d.state is Off,
            d.duty == 0,
            d.max_duty == max_duty,
    {
        Data { state: State::Off, duty: 0, max_duty }
    }
}

/// One triangle-wave step: reverse direction when the duty cycle sits at a
/// boundary, then move one `STEP_SIZE` in the current direction.
pub open spec fn duty_step(duty: int, increment: bool, max: int) -> (int, bool) {
    let inc = if duty == 0 {
        true
    } else if duty == max {
        false
    } else {
        increment
    };
    (if inc { duty + STEP_SIZE } else { duty - STEP_SIZE }, inc)
}

/// The duty cycle and direction flag after `n` animation steps.
pub open spec fn duty_after(n: nat, duty: int, increment: bool, max: int) -> (int, bool)
    decreases n,
{
    if n == 0 {
        (duty, increment)
    } else {
        let (d, i) = duty_after((n - 1) as nat, duty, increment, max);
        duty_step(d, i, max)
    }
}

/// Advances the mirrored duty cycle by one animation step and reports the
/// PWM writes needed to realise it.
pub fn adjust_duty_cycle(data: &mut Data, increment: &mut bool) -> (eff: Vec<Effect>)
    requires
        old(data).wf(),
    ensures
        final(data).wf(),
        (final(data).duty as int, *final(increment)) == duty_step(
            old(data).duty as int,
            *old(increment),
            old(data).max_duty as int,
        ),
        final(data).state == old(data).state,
        final(data).max_duty == old(data).max_duty,
        eff@ =~= seq![
            Effect::Hw(HwAction::DisablePwm),
            Effect::Hw(HwAction::SetDuty(final(data).duty)),
            Effect::Hw(HwAction::EnablePwm),
        ],
{
    let curr_duty = data.duty;
    if curr_duty == 0 {
        *increment = true;
    } else if curr_duty == data.max_duty {
        *increment = false;
    }
    let new_duty = if *increment {
        curr_duty + STEP_SIZE
    } else {
        curr_duty - STEP_SIZE
    };
    data.duty = new_duty;
    let mut eff: Vec<Effect> = Vec::new();
    eff.push(Effect::Hw(HwAction::DisablePwm));
    eff.push(Effect::Hw(HwAction::SetDuty(new_duty)));
    eff.push(Effect::Hw(HwAction::EnablePwm));
    eff
}

/// One step of the mailbox handler: drive the state machine; a `Schedule`
/// action starts the animation at once, with the direction flag up.
pub open spec fn mb_spec(d: Data, p: MessagePacket) -> (Data, Seq<Effect>) {
    match p.msg {
        msg::Message::Heartbeat(x) => {
            let (s2, a) = d.state.next_spec(x);
            (
                Data { state: s2, ..d },
                if a is Schedule {
                    seq![
                        Effect::Schedule(Task::Heartbeat, msg::Message::HeartbeatTick(true), 0u32),
                    ]
                } else {
                    Seq::<Effect>::empty()
                },
            )
        },
        _ => (d, Seq::<Effect>::empty()),
    }
}

/// Mailbox handler of the heartbeat task.
pub fn heartbeat_mb(data: &mut Data, packet: MessagePacket) -> (eff: Vec<Effect>)
    requires
        old(data).wf(),
    ensures
        final(data).wf(),
        msg::effects_wf(eff@),
        (*final(data), eff@) == mb_spec(*old(data), packet),
{
    let mut eff: Vec<Effect> = Vec::new();
    match packet.msg {
        msg::Message::Heartbeat(x) => {
            let (s2, action) = data.state.next(&x);
            data.state = s2;
            match action {
                Action::Schedule => {
                    eff.push(
                        Effect::Schedule(Task::Heartbeat, msg::Message::HeartbeatTick(true), 0),
                    );
                },
                _ => {},
            }
            proof {
                assert(eff@ =~= mb_spec(*old(data), packet).1);
            }
        },
        _ => {},
    }
    eff
}

/// One animation tick: step the triangle wave; while `On`, re-arm the tick
/// 30 ms out carrying the possibly flipped direction flag; when `Off`,
/// disable the output and zero the duty cycle.
pub open spec fn tick_spec(d: Data, increment: bool) -> (Data, Seq<Effect>) {
    let (duty2, inc2) = duty_step(d.duty as int, increment, d.max_duty as int);
    let d2 = Data { duty: duty2 as u16, ..d };
    let base = seq![
        Effect::Hw(HwAction::DisablePwm),
        Effect::Hw(HwAction::SetDuty(duty2 as u16)),
        Effect::Hw(HwAction::EnablePwm),
    ];
    if d.state is On {
        (
            d2,
            base + seq![
                Effect::Schedule(
                    Task::Heartbeat,
                    msg::Message::HeartbeatTick(inc2),
                    TICK_PERIOD_CYCLES,
                ),
            ],
        )
    } else {
        (
            Data { duty: 0, ..d2 },
            base + seq![Effect::Hw(HwAction::DisablePwm), Effect::Hw(HwAction::SetDuty(0u16))],
        )
    }
}

/// The animation task: invoked by its self-armed tick, carrying the
/// direction flag as task-local state.
pub fn heartbeat(data: &mut Data, increment: bool) -> (eff: Vec<Effect>)
    requires
        old(data).wf(),
    ensures
        final(data).wf(),
        msg::effects_wf(eff@),
        (*final(data), eff@) == tick_spec(*old(data), increment),
{
    let mut inc = increment;
    let mut eff = adjust_duty_cycle(data, &mut inc);
    if data.state == State::On {
        eff.push(
            Effect::Schedule(Task::Heartbeat, msg::Message::HeartbeatTick(inc), TICK_PERIOD_CYCLES),
        );
    } else {
        eff.push(Effect::Hw(HwAction::DisablePwm));
        eff.push(Effect::Hw(HwAction::SetDuty(0)));
        data.duty = 0;
    }
    proof {
        assert(eff@ =~= tick_spec(*old(data), increment).1);
    }
    eff
}

/// Shape of the animation.  Starting from duty 0 moving up, the wave rises
/// by `STEP_SIZE` per step: after `k <= max/STEP_SIZE` steps the duty is
/// `STEP_SIZE * k` — in particular it reaches `max` after `max/STEP_SIZE`
/// steps — and on the step after that the direction flips down, the duty
/// falling to `2*max - STEP_SIZE*k` until it reaches 0 again after
/// `2*max/STEP_SIZE` steps in all.
pub proof fn lemma_triangle_wave(max: int, k: nat)
    requires
        max >= STEP_SIZE,
        max % (STEP_SIZE as int) == 0,
    ensures
        k <= max / (STEP_SIZE as int) ==> duty_after(k, 0, true, max) == (
            (STEP_SIZE as int) * k,
            true,
        ),
        max / (STEP_SIZE as int) < k <= 2 * (max / (STEP_SIZE as int)) ==> duty_after(
            k,
            0,
            true,
            max,
        ) == (2 * max - (STEP_SIZE as int) * k, false),
    decreases k,
{
    if k > 0 {
        lemma_triangle_wave(max, (k - 1) as nat);
    }
}

/// Running `m + n` steps is running `m`, then `n` from where that left off.
pub proof fn lemma_duty_compose(m: nat, n: nat, duty: int, increment: bool, max: int)
    ensures
        duty_after((m + n) as nat, duty, increment, max) == ({
            let (d2, i2) = duty_after(m, duty, increment, max);
            duty_after(n, d2, i2, max)
        }),
    decreases n,
{
    if n > 0 {
        lemma_duty_compose(m, (n - 1) as nat, duty, increment, max);
    }
}

/// From duty 0 the direction flag does not matter: the boundary check
/// forces the wave upward either way.
pub proof fn lemma_wave_restart(n: nat, max: int)
    requires
        n >= 1,
    ensures
        duty_after(n, 0, false, max) == duty_after(n, 0, true, max),
    decreases n,
{
    if n == 1 {
        assert(duty_after(0, 0, false, max) == (0int, false));
        assert(duty_after(0, 0, true, max) == (0int, true));
        assert(duty_after(1, 0, false, max) == duty_step(0, false, max));
        assert(duty_after(1, 0, true, max) == duty_step(0, true, max));
    } else {
        lemma_wave_restart((n - 1) as nat, max);
        assert(duty_after(n, 0, false, max) == ({
            let (d, i) = duty_after((n - 1) as nat, 0, false, max);
            duty_step(d, i, max)
        }));
        assert(duty_after(n, 0, true, max) == ({
            let (d, i) = duty_after((n - 1) as nat, 0, true, max);
            duty_step(d, i, max)
        }));
    }
}

/// The animation is periodic with period `2 * max/STEP_SIZE` steps.
pub proof fn lemma_wave_periodic(max: int, n: nat)
    requires
        max >= STEP_SIZE,
        max % (STEP_SIZE as int) == 0,
        n >= 1,
    ensures
        duty_after((n + 2 * (max / (STEP_SIZE as int))) as nat, 0, true, max) == duty_after(
            n,
            0,
            true,
            max,
        ),
{
    let p = (2 * (max / (STEP_SIZE as int))) as nat;
    lemma_triangle_wave(max, p);
    assert(duty_after(p, 0, true, max) == (0int, false));
    lemma_duty_compose(p, n, 0, true, max);
    lemma_wave_restart(n, max);
}

} // verus!
