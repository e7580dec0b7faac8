//! Debounced button driver.
//!
//! A hardware edge interrupt posts `ButtonPressed`; the driver then samples
//! the input line `SAMPLE_SIZE` times, one self-rescheduled sample every
//! 10 ms, and reports a confirmed press — by toggling the heartbeat — if and
//! only if strictly more than `SAMPLE_THRESHOLD` of the samples read high.

use vstd::prelude::*;

use crate::heartbeat;
use crate::msg;
use crate::msg::{Effect, HwAction, MessagePacket, Task};
use crate::util::CYCLES_PER_US;

verus! {

/// Number of samples taken per debounce cycle.
pub const SAMPLE_SIZE: usize = 10;

/// A press is reported when strictly more than this many samples read high.
pub const SAMPLE_THRESHOLD: usize = 5;

/// Delay between two debounce samples, in microseconds.
pub const SAMPLE_PERIOD_US: u32 = 10_000;

/// Delay between two debounce samples, in monotonic counter cycles.
pub const SAMPLE_PERIOD_CYCLES: u32 = SAMPLE_PERIOD_US * CYCLES_PER_US;

/// Event alphabet of the button state machine.
#[derive(Clone, Copy, Debug)]
pub enum Message {
    ButtonPressed,
    ButtonNotPressed,
}

/// What the mailbox handler does besides moving the state machine.
#[derive(Clone, Copy, Debug, PartialEq, Eq, Structural)]
pub enum Action {
    DoNothing,
    Schedule,
}

/// Debounce state: whether the last confirmed report was a press.
#[derive(Clone, Copy, Debug, PartialEq, Eq, Structural)]
pub enum State {
    NotPressed,
    Pressed,
}

impl State {
    /// Transition function of the button state machine.
    pub open spec fn next_spec(self, msg: Message) -> (State, Action) {
        match (self, msg) {
            (State::NotPressed, Message::ButtonPressed) => (State::Pressed, Action::Schedule),
            (State::Pressed, Message::ButtonNotPressed) => (State::NotPressed, Action::DoNothing),
            (s, _m) => (s, Action::DoNothing),
        }
    }

    /// Executable transition function; total over both alphabets.
    pub fn next(self, msg: &Message) -> (r: (State, Action))
        ensures
            r == self.next_spec(*msg),
    {
        match (self, *msg) {
            (State::NotPressed, Message::ButtonPressed) => (State::Pressed, Action::Schedule),
            (State::Pressed, Message::ButtonNotPressed) => (State::NotPressed, Action::DoNothing),
            (s, _m) => (s, Action::DoNothing),
        }
    }
}

/// The transition function is total: every (state, event) pair yields a
/// defined (state, action) pair, and every pair outside the explicit table
/// leaves the state unchanged and does nothing.
pub proof fn lemma_button_transition_total(s: State, m: Message)
    ensures
        ({
            let (s2, a) = s.next_spec(m);
            ||| (s is NotPressed && m is ButtonPressed && s2 is Pressed && a is Schedule)
            ||| (s is Pressed && m is ButtonNotPressed && s2 is NotPressed && a is DoNothing)
            ||| (s2 == s && a is DoNothing)
        }),
{
}

/// State owned by the button task.  The input pin itself lives outside the
/// core: each sample's level arrives with the tick that takes it.
pub struct Data {
    pub state: State,
    pub sample_cnt: usize,
    pub sample_data: Vec<bool>,
}

/// Abstract view of the button driver.
#[verifier::ext_equal]
pub struct DataV {
    pub state: State,
    pub cnt: int,
    pub samples: Seq<bool>,
}

impl View for Data {
    type V = DataV;

    open spec fn view(&self) -> DataV {
        DataV { state: self.state, cnt: self.sample_cnt as int, samples: self.sample_data@ }
    }
}

impl DataV {
    /// The sample buffer has its fixed size and the counter stays inside it.
    pub open spec fn wf(self) -> bool {
        &&& self.samples.len() == SAMPLE_SIZE
        &&& 0 <= self.cnt <= SAMPLE_SIZE
    }
}

impl Data {
    pub open spec fn wf(self) -> bool {
        self@.wf()
    }

    /// A fresh button resource: not pressed, empty sample buffer.
    pub fn new() -> (d: Data)
        ensures
            d.wf(),
            d@.state is NotPressed,
            d@.cnt == 0,
            forall|i: int| 0 <= i < SAMPLE_SIZE ==> d@.samples[i] == false,
    {
        let mut sample_data: Vec<bool> = Vec::new();
        while sample_data.len() < SAMPLE_SIZE
            invariant
                sample_data@.len() <= SAMPLE_SIZE,
                forall|i: int| 0 <= i < sample_data@.len() ==> sample_data@[i] == false,
            decreases SAMPLE_SIZE - sample_data@.len(),
        {
            sample_data.push(false);
        }
        Data { state: State::NotPressed, sample_cnt: 0, sample_data }
    }
}

/// Number of `true` entries in a sample sequence.
pub open spec fn count_true(s: Seq<bool>) -> int
    decreases s.len(),
{
    if s.len() == 0 {
        0
    } else {
        count_true(s.drop_last()) + if s.last() {
            1int
        } else {
            0int
        }
    }
}

/// The toggle notification sent to the heartbeat on a confirmed press.
pub open spec fn toggle_heartbeat() -> Effect {
    Effect::Send(Task::Heartbeat, msg::Message::Heartbeat(heartbeat::Message::Toggle))
}

/// One step of the mailbox handler: drive the state machine; a `Schedule`
/// action starts the debounce sampling cycle at once.
pub open spec fn mb_spec(d: DataV, p: MessagePacket) -> (DataV, Seq<Effect>) {
    match p.msg {
        msg::Message::Button(x) => {
            let (s2, a) = d.state.next_spec(x);
            (
                DataV { state: s2, ..d },
                if a is Schedule {
                    seq![Effect::Schedule(Task::Button, msg::Message::ButtonSample, 0u32)]
                } else {
                    Seq::<Effect>::empty()
                },
            )
        },
        _ => (d, Seq::<Effect>::empty()),
    }
}

/// Mailbox handler of the button task.
pub fn button_mb(data: &mut Data, packet: MessagePacket) -> (eff: Vec<Effect>)
    requires
        old(data).wf(),
    ensures
        final(data).wf(),
        msg::effects_wf(eff@),
        (final(data)@, eff@) == mb_spec(old(data)@, packet),
{
    let mut eff: Vec<Effect> = Vec::new();
    match packet.msg {
        msg::Message::Button(x) => {
            let (s2, action) = data.state.next(&x);
            data.state = s2;
            match action {
                Action::Schedule => {
                    eff.push(Effect::Schedule(Task::Button, msg::Message::ButtonSample, 0));
                },
                _ => {},
            }
            proof {
                assert(data@ =~= mb_spec(old(data)@, packet).0);
                assert(eff@ =~= mb_spec(old(data)@, packet).1);
            }
        },
        _ => {},
    }
    eff
}

/// One step of the sampling task.  While the buffer is not full, record the
/// level and re-arm the tick; once it is, report a press — by toggling the
/// heartbeat — if and only if strictly more than `SAMPLE_THRESHOLD` samples
/// were high, then reset counter and buffer, drive the synthetic
/// `ButtonNotPressed` transition, and re-arm the edge interrupt.
pub open spec fn sample_spec(d: DataV, level: bool) -> (DataV, Seq<Effect>) {
    if d.cnt < SAMPLE_SIZE {
        (
            DataV { samples: d.samples.update(d.cnt, level), cnt: d.cnt + 1, ..d },
            seq![Effect::Schedule(Task::Button, msg::Message::ButtonSample, SAMPLE_PERIOD_CYCLES)],
        )
    } else {
        let pressed = count_true(d.samples) > SAMPLE_THRESHOLD;
        let d2 = DataV {
            state: d.state.next_spec(Message::ButtonNotPressed).0,
            cnt: 0,
            samples: Seq::new(SAMPLE_SIZE as nat, |i: int| false),
        };
        (
            d2,
            (if pressed {
                seq![toggle_heartbeat()]
            } else {
                Seq::<Effect>::empty()
            }) + seq![Effect::Hw(HwAction::EnableButtonInterrupt)],
        )
    }
}

/// The sampling task: invoked by its self-armed tick, with the input
/// line's current level.
pub fn button(data: &mut Data, level: bool) -> (eff: Vec<Effect>)
    requires
        old(data).wf(),
    ensures
        final(data).wf(),
        msg::effects_wf(eff@),
        (final(data)@, eff@) == sample_spec(old(data)@, level),
{
    let mut eff: Vec<Effect> = Vec::new();
    if data.sample_cnt < SAMPLE_SIZE {
        // keep rescheduling the tick while sampling the input line
        data.sample_data[data.sample_cnt] = level;
        data.sample_cnt += 1;
        eff.push(Effect::Schedule(Task::Button, msg::Message::ButtonSample, SAMPLE_PERIOD_CYCLES));
        proof {
            assert(data@ =~= sample_spec(old(data)@, level).0);
            assert(eff@ =~= sample_spec(old(data)@, level).1);
        }
    } else {
        // check whether enough samples were high to count as a press
        let mut high: usize = 0;
        let mut i: usize = 0;
        while i < SAMPLE_SIZE
            invariant
                i <= SAMPLE_SIZE,
                high <= i,
                data == old(data),
                old(data).wf(),
                high == count_true(data.sample_data@.take(i as int)),
            decreases SAMPLE_SIZE - i,
        {
            proof {
                assert(data.sample_data@.take(i + 1).drop_last() =~= data.sample_data@.take(
                    i as int,
                ));
            }
            if data.sample_data[i] {
                high += 1;
            }
            i += 1;
        }
        proof {
            assert(data.sample_data@.take(SAMPLE_SIZE as int) =~= data.sample_data@);
        }
        if high > SAMPLE_THRESHOLD {
            eff.push(toggle_heartbeat_exec());
        }
        data.sample_cnt = 0;
        let mut j: usize = 0;
        while j < SAMPLE_SIZE
            invariant
                j <= SAMPLE_SIZE,
                data.state == old(data).state,
                data.sample_cnt == 0,
                data.sample_data@.len() == SAMPLE_SIZE,
                forall|k: int| 0 <= k < j ==> data.sample_data@[k] == false,
            decreases SAMPLE_SIZE - j,
        {
            data.sample_data[j] = false;
            j += 1;
        }
        let (s2, _) = data.state.next(&Message::ButtonNotPressed);
        data.state = s2;
        eff.push(Effect::Hw(HwAction::EnableButtonInterrupt));
        proof {
            assert(data@.samples =~= Seq::new(SAMPLE_SIZE as nat, |i: int| false));
            assert(data@ =~= sample_spec(old(data)@, level).0);
            assert(eff@ =~= sample_spec(old(data)@, level).1);
        }
    }
    eff
}

/// The heartbeat-toggle notification as an executable value.
fn toggle_heartbeat_exec() -> (e: Effect)
    ensures
        e == toggle_heartbeat(),
{
    Effect::Send(Task::Heartbeat, msg::Message::Heartbeat(heartbeat::Message::Toggle))
}

/// The driver after recording a run of samples, one tick each.
pub open spec fn feed_samples(d: DataV, samples: Seq<bool>) -> DataV
    decreases samples.len(),
{
    if samples.len() == 0 {
        d
    } else {
        sample_spec(feed_samples(d, samples.drop_last()), samples.last()).0
    }
}

/// Recording a run of samples that fits the buffer stores them in order
/// after the ones already taken, advances the counter past them, and
/// touches nothing else.
pub proof fn lemma_feed_samples(d: DataV, samples: Seq<bool>)
    requires
        d.wf(),
        d.cnt + samples.len() <= SAMPLE_SIZE,
    ensures
        ({
            let df = feed_samples(d, samples);
            &&& df.wf()
            &&& df.state == d.state
            &&& df.cnt == d.cnt + samples.len()
            &&& (forall|i: int| 0 <= i < d.cnt ==> df.samples[i] == d.samples[i])
            &&& (forall|i: int| 0 <= i < samples.len() ==> df.samples[d.cnt + i] == samples[i])
            &&& (forall|i: int|
                d.cnt + samples.len() <= i < SAMPLE_SIZE ==> df.samples[i] == d.samples[i])
        }),
    decreases samples.len(),
{
    if samples.len() > 0 {
        lemma_feed_samples(d, samples.drop_last());
        let dp = feed_samples(d, samples.drop_last());
        let df = feed_samples(d, samples);
        assert(df == sample_spec(dp, samples.last()).0);
        assert(df.samples == dp.samples.update(dp.cnt, samples.last()));
        assert forall|i: int| 0 <= i < samples.len() implies df.samples[d.cnt + i] == samples[i] by {
            if i < samples.len() - 1 {
                assert(samples.drop_last()[i] == samples[i]);
                assert(dp.samples[d.cnt + i] == samples.drop_last()[i]);
            }
        }
    }
}

/// One full debounce cycle — `SAMPLE_SIZE` recorded samples starting from
/// an empty buffer, then the tally tick — reports a press, by toggling the
/// heartbeat, if and only if strictly more than `SAMPLE_THRESHOLD` of the
/// samples were high; counter and buffer are reset to zero either way.
pub proof fn lemma_debounce_cycle(d: DataV, samples: Seq<bool>, level: bool)
    requires
        d.wf(),
        d.cnt == 0,
        samples.len() == SAMPLE_SIZE,
    ensures
        ({
            let d10 = feed_samples(d, samples);
            let (df, eff) = sample_spec(d10, level);
            &&& df.cnt == 0
            &&& (forall|i: int| 0 <= i < SAMPLE_SIZE ==> df.samples[i] == false)
            &&& (eff.contains(toggle_heartbeat()) <==> count_true(samples) > SAMPLE_THRESHOLD)
        }),
{
    lemma_feed_samples(d, samples);
    let d10 = feed_samples(d, samples);
    assert(d10.samples =~= samples);
    let (df, eff) = sample_spec(d10, level);
    if count_true(samples) > SAMPLE_THRESHOLD {
        assert(eff[0] == toggle_heartbeat());
    } else {
        assert(forall|i: int| 0 <= i < eff.len() ==> eff[i] != toggle_heartbeat());
    }
}

} // verus!
