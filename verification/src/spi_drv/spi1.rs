//! Byte-level, interrupt-driven half-duplex SPI master state machine.
//!
//! A framed read clocks out the register address, discards the first echoed
//! byte (line turnaround garbage), and stores the following `len` bytes in
//! the receive buffer.  A framed write clocks out the address and payload,
//! discarding every echoed byte.  A completed transaction parks the engine
//! in `WaitingForConfirmation` until the consumer confirms that it has read
//! the buffer — only then does the engine accept a new command.

use vstd::prelude::*;

use crate::lis3dsh;
use crate::msg;
use crate::msg::{Effect, HwAction, MessagePacket, Task};
use crate::spi_drv::{Message, Action, Read, Write, RX_BUFFER_SIZE, TX_BUFFER_SIZE};

verus! {

/// Phase of the transaction engine.
#[derive(Clone, Copy, Debug, PartialEq, Eq, Structural)]
pub enum State {
    Idling,
    Reading,
    Writing,
    WaitingForConfirmation,
}

impl State {
    /// Transition function of the engine.  A cancellation is honoured from
    /// every state; any other event that a state does not expect is
    /// rejected.
    pub open spec fn next_spec(self, msg: Message) -> (State, Action) {
        match (self, msg) {
            (State::Idling, Message::StartRead(r)) => (State::Reading, Action::StartRead(r)),
            (State::Idling, Message::StartWrite(w)) => (State::Writing, Action::StartWrite(w)),
            (State::Reading, Message::RxEvent(_)) => (State::Reading, Action::ContinueRead),
            (State::Writing, Message::RxEvent(_)) => (State::Writing, Action::ContinueWrite),
            (State::Reading, Message::FinishTransaction) => (
                State::WaitingForConfirmation,
                Action::DoNothing,
            ),
            (State::Writing, Message::FinishTransaction) => (
                State::WaitingForConfirmation,
                Action::DoNothing,
            ),
            (State::WaitingForConfirmation, Message::ReadConfirmation) => (
                State::Idling,
                Action::DoNothing,
            ),
            (State::WaitingForConfirmation, Message::WriteConfirmation) => (
                State::Idling,
                Action::DoNothing,
            ),
            (_s, Message::CancelTransaction) => (State::Idling, Action::Reset),
            (s, _m) => (s, Action::Reject),
        }
    }

    /// Executable transition function; total over both alphabets.
    pub fn next(self, msg: &Message) -> (r: (State, Action))
        ensures
            r == self.next_spec(*msg),
    {
        match (self, *msg) {
            (State::Idling, Message::StartRead(r)) => (State::Reading, Action::StartRead(r)),
            (State::Idling, Message::StartWrite(w)) => (State::Writing, Action::StartWrite(w)),
            (State::Reading, Message::RxEvent(_)) => (State::Reading, Action::ContinueRead),
            (State::Writing, Message::RxEvent(_)) => (State::Writing, Action::ContinueWrite),
            (State::Reading, Message::FinishTransaction) => (
                State::WaitingForConfirmation,
                Action::DoNothing,
            ),
            (State::Writing, Message::FinishTransaction) => (
                State::WaitingForConfirmation,
                Action::DoNothing,
            ),
            (State::WaitingForConfirmation, Message::ReadConfirmation) => (
                State::Idling,
                Action::DoNothing,
            ),
            (State::WaitingForConfirmation, Message::WriteConfirmation) => (
                State::Idling,
                Action::DoNothing,
            ),
            (_s, Message::CancelTransaction) => (State::Idling, Action::Reset),
            (s, _m) => (s, Action::Reject),
        }
    }
}

/// The transition function is total: every (state, event) pair yields a
/// defined (state, action) pair, and every pair outside the explicit table
/// leaves the state unchanged and rejects the event.
pub proof fn lemma_spi_transition_total(s: State, m: Message)
    ensures
        ({
            let (s2, a) = s.next_spec(m);
            ||| (s is Idling && m is StartRead && s2 is Reading && a is StartRead)
            ||| (s is Idling && m is StartWrite && s2 is Writing && a is StartWrite)
            ||| (s is Reading && m is RxEvent && s2 is Reading && a is ContinueRead)
            ||| (s is Writing && m is RxEvent && s2 is Writing && a is ContinueWrite)
            ||| ((s is Reading || s is Writing) && m is FinishTransaction
                && s2 is WaitingForConfirmation && a is DoNothing)
            ||| (s is WaitingForConfirmation && (m is ReadConfirmation || m is WriteConfirmation)
                && s2 is Idling && a is DoNothing)
            ||| (m is CancelTransaction && s2 is Idling && a is Reset)
            ||| (s2 == s && a is Reject)
        }),
{
}

/// Once a transaction has completed, the engine leaves
/// `WaitingForConfirmation` only for a consumer confirmation — or a forced
/// cancellation — and for nothing else.
pub proof fn lemma_waiting_until_confirmation(m: Message)
    ensures
        State::WaitingForConfirmation.next_spec(m).0 is Idling <==> (m is ReadConfirmation
            || m is WriteConfirmation || m is CancelTransaction),
        !(m is ReadConfirmation || m is WriteConfirmation || m is CancelTransaction)
            ==> State::WaitingForConfirmation.next_spec(m).0 is WaitingForConfirmation,
{
}

/// State owned by the SPI task.  The peripheral registers live outside the
/// core; the transmit and receive buffers and the byte counters are the
/// engine's own.
pub struct Data {
    pub state: State,
    /// Task that started the in-flight transaction.
    pub origin: Task,
    pub tx_buffer: Vec<u8>,
    pub rx_buffer: Vec<u8>,
    pub transfer_len: u8,
    pub bytes_transferred: u8,
}

/// Abstract view of the engine: buffers as sequences, counters as integers.
#[verifier::ext_equal]
pub struct DataV {
    pub state: State,
    pub origin: Task,
    pub tx: Seq<u8>,
    pub rx: Seq<u8>,
    pub tl: int,
    pub bt: int,
}

impl View for Data {
    type V = DataV;

    open spec fn view(&self) -> DataV {
        DataV {
            state: self.state,
            origin: self.origin,
            tx: self.tx_buffer@,
            rx: self.rx_buffer@,
            tl: self.transfer_len as int,
            bt: self.bytes_transferred as int,
        }
    }
}

impl DataV {
    /// Buffer sizes are fixed; the byte counter stays within the transfer
    /// while one is running.
    pub open spec fn wf(self) -> bool {
        &&& self.rx.len() == RX_BUFFER_SIZE
        &&& self.tx.len() == TX_BUFFER_SIZE
        &&& 0 <= self.tl <= 255
        &&& 0 <= self.bt <= 255
        &&& (self.state is Reading ==> self.bt <= self.tl)
        &&& (self.state is Writing ==> self.bt < self.tl < TX_BUFFER_SIZE)
    }
}

/// A `Vec<u8>` of `n` zero bytes.
fn zero_bytes(n: usize) -> (v: Vec<u8>)
    ensures
        v@.len() == n,
        forall|i: int| 0 <= i < n ==> v@[i] == 0u8,
{
    let mut v: Vec<u8> = Vec::new();
    while v.len() < n
        invariant
            v@.len() <= n,
            forall|i: int| 0 <= i < v@.len() ==> v@[i] == 0u8,
        decreases n - v@.len(),
    {
        v.push(0);
    }
    v
}

impl Data {
    pub open spec fn wf(self) -> bool {
        self@.wf()
    }

    /// A fresh engine: idle, zeroed buffers and counters.
    pub fn new() -> (d: Data)
        ensures
            d.wf(),
            d@.state is Idling,
            d@.origin is Init,
            d@.tl == 0,
            d@.bt == 0,
            forall|i: int| 0 <= i < RX_BUFFER_SIZE ==> d@.rx[i] == 0u8,
            forall|i: int| 0 <= i < TX_BUFFER_SIZE ==> d@.tx[i] == 0u8,
    {
        Data {
            state: State::Idling,
            origin: Task::Init,
            tx_buffer: zero_bytes(TX_BUFFER_SIZE),
            rx_buffer: zero_bytes(RX_BUFFER_SIZE),
            transfer_len: 0,
            bytes_transferred: 0,
        }
    }
}

/// The transmit buffer after a write command is framed: the register byte,
/// then the first `len` payload bytes, the rest untouched.
pub open spec fn framed_tx(tx: Seq<u8>, w: Write) -> Seq<u8> {
    Seq::new(
        tx.len(),
        |i: int|
            if i == 0 {
                w.reg
            } else if 1 <= i <= w.len {
                w.data@[i - 1]
            } else {
                tx[i]
            },
    )
}

/// The notification sent to the transaction's origin when it completes or
/// is rejected.
pub open spec fn notify(origin: Task, m: lis3dsh::Message) -> Effect {
    Effect::Send(origin, msg::Message::Lis3dsh(m))
}

/// One step of the engine: the state change, buffer and counter updates,
/// and emitted effects for a single incoming event.
pub open spec fn spi_step(d: DataV, m: Message, src: Task) -> (DataV, Seq<Effect>) {
    match (d.state, m) {
        (State::Idling, Message::StartRead(r)) => (
            DataV {
                state: State::Reading,
                origin: src,
                tx: d.tx.update(0, r.reg),
                tl: r.len as int,
                bt: 0,
                ..d
            },
            seq![
                Effect::Hw(HwAction::ListenRx),
                Effect::Hw(HwAction::ChipSelectLow),
                Effect::Hw(HwAction::SpiTransmit(r.reg)),
            ],
        ),
        (State::Idling, Message::StartWrite(w)) => (
            DataV {
                state: State::Writing,
                origin: src,
                tx: framed_tx(d.tx, w),
                tl: w.len as int,
                bt: 0,
                ..d
            },
            seq![
                Effect::Hw(HwAction::ListenRx),
                Effect::Hw(HwAction::ChipSelectLow),
                Effect::Hw(HwAction::SpiTransmit(w.reg)),
            ],
        ),
        (State::Reading, Message::RxEvent(b)) => {
            // the first received byte is line-turnaround garbage
            let rx2 = if d.bt > 0 {
                d.rx.update(d.bt - 1, b)
            } else {
                d.rx
            };
            if d.bt == d.tl {
                (
                    DataV { state: State::WaitingForConfirmation, rx: rx2, tl: 0, bt: 0, ..d },
                    seq![
                        Effect::Hw(HwAction::ChipSelectHigh),
                        notify(d.origin, lis3dsh::Message::ReadComplete),
                    ],
                )
            } else {
                (
                    DataV { rx: rx2, bt: d.bt + 1, ..d },
                    seq![Effect::Hw(HwAction::ListenRx), Effect::Hw(HwAction::SpiTransmit(0))],
                )
            }
        },
        (State::Writing, Message::RxEvent(_b)) => {
            // every echoed byte is discarded
            let bt2 = d.bt + 1;
            if bt2 == d.tl {
                (
                    DataV { state: State::WaitingForConfirmation, tl: 0, bt: 0, ..d },
                    seq![
                        Effect::Hw(HwAction::ChipSelectHigh),
                        notify(d.origin, lis3dsh::Message::WriteComplete),
                    ],
                )
            } else {
                (
                    DataV { bt: bt2, ..d },
                    seq![
                        Effect::Hw(HwAction::ListenRx),
                        Effect::Hw(HwAction::SpiTransmit(d.tx[bt2])),
                    ],
                )
            }
        },
        (State::Reading, Message::FinishTransaction) => (
            DataV { state: State::WaitingForConfirmation, ..d },
            Seq::<Effect>::empty(),
        ),
        (State::Writing, Message::FinishTransaction) => (
            DataV { state: State::WaitingForConfirmation, ..d },
            Seq::<Effect>::empty(),
        ),
        (State::WaitingForConfirmation, Message::ReadConfirmation) => (
            DataV { state: State::Idling, ..d },
            Seq::<Effect>::empty(),
        ),
        (State::WaitingForConfirmation, Message::WriteConfirmation) => (
            DataV { state: State::Idling, ..d },
            Seq::<Effect>::empty(),
        ),
        (_s, Message::CancelTransaction) => (
            DataV { state: State::Idling, tl: 0, bt: 0, ..d },
            Seq::<Effect>::empty(),
        ),
        (_s, _m) => (
            d,
            if d.origin is Lis3dsh {
                seq![notify(d.origin, lis3dsh::Message::CommandRejected)]
            } else {
                Seq::<Effect>::empty()
            },
        ),
    }
}

/// Mailbox handler of the SPI task: one incoming envelope moves the engine
/// exactly one `spi_step`.
pub fn spi1_mb(data: &mut Data, packet: MessagePacket) -> (eff: Vec<Effect>)
    requires
        old(data).wf(),
        packet.wf(),
    ensures
        final(data).wf(),
        msg::effects_wf(eff@),
        packet.msg matches msg::Message::Spi(m) ==> (final(data)@, eff@) == spi_step(
            old(data)@,
            m,
            packet.source,
        ),
        !(packet.msg matches msg::Message::Spi(_)) ==> final(data)@ == old(data)@ && eff@
            =~= Seq::<Effect>::empty(),
{
    let mut eff: Vec<Effect> = Vec::new();
    match packet.msg {
        msg::Message::Spi(x) => {
            let (s2, action) = data.state.next(&x);
            data.state = s2;
            match action {
                Action::StartRead(r) => {
                    data.origin = packet.source;
                    eff.push(Effect::Hw(HwAction::ListenRx));
                    eff.push(Effect::Hw(HwAction::ChipSelectLow));
                    data.tx_buffer[0] = r.reg;
                    data.transfer_len = r.len;
                    data.bytes_transferred = 0;
                    eff.push(Effect::Hw(HwAction::SpiTransmit(r.reg)));
                    proof {
                        assert(data@ =~= spi_step(old(data)@, x, packet.source).0);
                        assert(eff@ =~= spi_step(old(data)@, x, packet.source).1);
                    }
                },
                Action::StartWrite(w) => {
                    data.origin = packet.source;
                    eff.push(Effect::Hw(HwAction::ListenRx));
                    eff.push(Effect::Hw(HwAction::ChipSelectLow));
                    data.tx_buffer[0] = w.reg;
                    data.transfer_len = w.len;
                    data.bytes_transferred = 0;
                    let mut i: usize = 0;
                    while i < w.len as usize
                        invariant
                            w.wf(),
                            i <= w.len as usize,
                            data.state == s2,
                            data.origin == packet.source,
                            data.transfer_len == w.len,
                            data.bytes_transferred == 0,
                            data.rx_buffer@ == old(data)@.rx,
                            data.tx_buffer@.len() == TX_BUFFER_SIZE,
                            data.tx_buffer@[0] == w.reg,
                            forall|j: int| 1 <= j <= i ==> data.tx_buffer@[j] == w.data@[j - 1],
                            forall|j: int|
                                i + 1 <= j < TX_BUFFER_SIZE ==> data.tx_buffer@[j] == old(
                                    data,
                                )@.tx[j],
                        decreases w.len as usize - i,
                    {
                        data.tx_buffer[i + 1] = w.data[i];
                        i += 1;
                    }
                    eff.push(Effect::Hw(HwAction::SpiTransmit(w.reg)));
                    proof {
                        assert(data@.tx =~= framed_tx(old(data)@.tx, w));
                        assert(data@ =~= spi_step(old(data)@, x, packet.source).0);
                        assert(eff@ =~= spi_step(old(data)@, x, packet.source).1);
                    }
                },
                Action::ContinueRead => {
                    let val = if let Message::RxEvent(b) = x {
                        b
                    } else {
                        0
                    };
                    // the first byte is garbage data
                    if data.bytes_transferred > 0 {
                        let idx = data.bytes_transferred as usize - 1;
                        data.rx_buffer[idx] = val;
                    }
                    if data.bytes_transferred == data.transfer_len {
                        let (s3, _) = data.state.next(&Message::FinishTransaction);
                        data.state = s3;
                        eff.push(Effect::Hw(HwAction::ChipSelectHigh));
                        eff.push(
                            Effect::Send(
                                data.origin,
                                msg::Message::Lis3dsh(lis3dsh::Message::ReadComplete),
                            ),
                        );
                        // reset transaction
                        data.transfer_len = 0;
                        data.bytes_transferred = 0;
                        proof {
                            assert(eff@ =~= spi_step(old(data)@, x, packet.source).1);
                        }
                    } else {
                        // clock out a dummy byte to keep the transfer going
                        eff.push(Effect::Hw(HwAction::ListenRx));
                        eff.push(Effect::Hw(HwAction::SpiTransmit(0)));
                        data.bytes_transferred = data.bytes_transferred + 1;
                        proof {
                            assert(eff@ =~= spi_step(old(data)@, x, packet.source).1);
                        }
                    }
                },
                Action::ContinueWrite => {
                    // the echoed byte carries no information
                    data.bytes_transferred = data.bytes_transferred + 1;
                    if data.bytes_transferred == data.transfer_len {
                        let (s3, _) = data.state.next(&Message::FinishTransaction);
                        data.state = s3;
                        eff.push(Effect::Hw(HwAction::ChipSelectHigh));
                        eff.push(
                            Effect::Send(
                                data.origin,
                                msg::Message::Lis3dsh(lis3dsh::Message::WriteComplete),
                            ),
                        );
                        // reset transaction
                        data.transfer_len = 0;
                        data.bytes_transferred = 0;
                        proof {
                            assert(eff@ =~= spi_step(old(data)@, x, packet.source).1);
                        }
                    } else {
                        let idx = data.bytes_transferred as usize;
                        let b = data.tx_buffer[idx];
                        eff.push(Effect::Hw(HwAction::ListenRx));
                        eff.push(Effect::Hw(HwAction::SpiTransmit(b)));
                        proof {
                            assert(eff@ =~= spi_step(old(data)@, x, packet.source).1);
                        }
                    }
                },
                Action::Reject => {
                    match data.origin {
                        Task::Lis3dsh => {
                            eff.push(
                                Effect::Send(
                                    data.origin,
                                    msg::Message::Lis3dsh(lis3dsh::Message::CommandRejected),
                                ),
                            );
                            proof {
                                assert(eff@ =~= spi_step(old(data)@, x, packet.source).1);
                            }
                        },
                        _ => {},
                    }
                },
                Action::Reset => {
                    // reset variables
                    data.transfer_len = 0;
                    data.bytes_transferred = 0;
                },
                Action::DoNothing => {},
            }
        },
        _ => {},
    }
    eff
}

/// The engine after a run of receive events, one step each, all from the
/// same source.
pub open spec fn feed_rx(d: DataV, bytes: Seq<u8>, src: Task) -> DataV
    decreases bytes.len(),
{
    if bytes.len() == 0 {
        d
    } else {
        feed_rx(
            spi_step(d, Message::RxEvent(bytes[0]), src).0,
            bytes.subrange(1, bytes.len() as int),
            src,
        )
    }
}

/// Mid-transfer shape of a read: once past the discarded turnaround byte,
/// the remaining `tl - bt + 1` events land in the buffer one after the
/// other, and the last one completes the transaction.
pub proof fn lemma_feed_rx_mid(d: DataV, bytes: Seq<u8>, src: Task)
    requires
        d.wf(),
        d.state is Reading,
        1 <= d.bt <= d.tl,
        bytes.len() == d.tl - d.bt + 1,
    ensures
        ({
            let df = feed_rx(d, bytes, src);
            &&& df.wf()
            &&& df.state is WaitingForConfirmation
            &&& df.tl == 0
            &&& df.bt == 0
            &&& df.origin == d.origin
            &&& df.tx == d.tx
            &&& (forall|i: int| 0 <= i < bytes.len() ==> df.rx[d.bt - 1 + i] == bytes[i])
            &&& (forall|j: int|
                (0 <= j < d.bt - 1 || d.tl - 1 < j < RX_BUFFER_SIZE) ==> df.rx[j] == d.rx[j])
        }),
    decreases bytes.len(),
{
    let d1 = spi_step(d, Message::RxEvent(bytes[0]), src).0;
    let df = feed_rx(d, bytes, src);
    if d.bt == d.tl {
        assert(bytes.len() == 1);
        assert(feed_rx(d1, bytes.subrange(1, 1), src) == d1);
        assert(df == d1);
        assert(df.rx == d.rx.update(d.bt - 1, bytes[0]));
    } else {
        let rest = bytes.subrange(1, bytes.len() as int);
        assert(d1.state is Reading && d1.bt == d.bt + 1 && d1.tl == d.tl);
        assert(d1.rx == d.rx.update(d.bt - 1, bytes[0]));
        lemma_feed_rx_mid(d1, rest, src);
        assert(df == feed_rx(d1, rest, src));
        assert forall|i: int| 0 <= i < bytes.len() implies df.rx[d.bt - 1 + i] == bytes[i] by {
            if i == 0 {
                assert(df.rx[d.bt - 1] == d1.rx[d.bt - 1]);
            } else {
                assert(df.rx[d1.bt - 1 + (i - 1)] == rest[i - 1]);
                assert(rest[i - 1] == bytes[i]);
            }
        }
        assert forall|j: int|
            (0 <= j < d.bt - 1 || d.tl - 1 < j < RX_BUFFER_SIZE) implies df.rx[j] == d.rx[j] by {
            assert(df.rx[j] == d1.rx[j]);
        }
    }
}

/// A framed read accepted from idle — `StartRead(reg, len)` followed by
/// `len + 1` receive events — stores in the receive buffer exactly the
/// `len` bytes clocked after the first, discarded, one, and parks the
/// engine in `WaitingForConfirmation` (which only a confirmation or a
/// cancellation leaves, by `lemma_waiting_until_confirmation`).
pub proof fn lemma_read_transaction(d: DataV, r: Read, bytes: Seq<u8>, src: Task)
    requires
        d.wf(),
        d.state is Idling,
        1 <= r.len,
        bytes.len() == r.len + 1,
    ensures
        ({
            let d1 = spi_step(d, Message::StartRead(r), src).0;
            let df = feed_rx(d1, bytes, src);
            &&& df.wf()
            &&& df.state is WaitingForConfirmation
            &&& (forall|i: int| 0 <= i < r.len ==> df.rx[i] == bytes[i + 1])
        }),
{
    let d1 = spi_step(d, Message::StartRead(r), src).0;
    assert(d1.state is Reading && d1.bt == 0 && d1.tl == r.len && d1.origin == src);
    // the first event discards the turnaround byte and advances the counter
    let d2 = spi_step(d1, Message::RxEvent(bytes[0]), src).0;
    assert(d2.state is Reading && d2.bt == 1 && d2.tl == r.len);
    let rest = bytes.subrange(1, bytes.len() as int);
    assert(feed_rx(d1, bytes, src) == feed_rx(d2, rest, src));
    lemma_feed_rx_mid(d2, rest, src);
    assert forall|i: int| 0 <= i < r.len implies feed_rx(d1, bytes, src).rx[i] == bytes[i + 1] by {
        assert(feed_rx(d2, rest, src).rx[d2.bt - 1 + i] == rest[i]);
    }
}

} // verus!
