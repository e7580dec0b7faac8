//! Accelerometer command protocol.
//!
//! Commands are accepted only while `Idling`: each builds a framed register
//! read or write, forwards it to the SPI engine, arms a timeout guard
//! against itself, and moves to `Busy`.  Completions are confirmed back to
//! the engine and interpreted according to the in-flight command; a timeout
//! abandons the transaction, cancels the engine, and returns to `Idling`.

use vstd::prelude::*;

use crate::msg;
use crate::msg::{Effect, HwAction, MessagePacket, Reading, Task};
use crate::spi_drv;

verus! {

/// Timeout guard armed with every command, in monotonic counter cycles.
///
/// A command issued while the task's single deferred slot is still armed —
/// for instance while the boot-time axis read is pending there — loses its
/// guard: by the one-slot rule the second arming is rejected as a no-op.
pub const TIMEOUT: u32 = 3_000_000;

/// An axis reading of `r` raw counts at full-scale range `g` measures
/// `r * g / AXIS_DIVISOR` standard gravities; [`calculate_1g`] returns the
/// exact numerator `r * g` over this divisor.
pub const AXIS_DIVISOR: u32 = 32768;

/// Full-scale measurement range.
#[allow(non_camel_case_types)]
#[derive(Clone, Copy, Debug, PartialEq, Eq, Structural)]
pub enum Scale {
    Two_G,
    Four_G,
    Six_G,
    Eight_G,
    Sixteen_G,
}

/// Output data rate.
#[derive(Clone, Copy, Debug, PartialEq, Eq, Structural)]
pub enum DataRate {
    Zero,
    OneHundredHertz,
}

/// Event alphabet of the accelerometer protocol: five commands, the SPI
/// engine's notifications, and the self-scheduled timeout guard.
#[derive(Clone, Copy, Debug)]
pub enum Message {
    ReadID,
    ReadAxes,
    ChangeScale(Scale),
    ChangeDataRate(DataRate),
    ChangeBDU(bool),
    ReadComplete,
    WriteComplete,
    CommandRejected,
    TimeoutCheck,
}

/// Readable register addresses (read mask already applied).
#[derive(Debug)]
pub struct ReadRegister;

impl ReadRegister {
    pub const ID: u8 = 0x80 | 0x0F;
    pub const X_AXIS: u8 = 0x80 | 0x28;
    pub const Y_AXIS: u8 = 0x80 | 0x2A;
    pub const Z_AXIS: u8 = 0x80 | 0x2C;
}

/// Writable register addresses.
#[derive(Debug)]
pub struct WriteRegister;

impl WriteRegister {
    pub const CTRL_REG4: u8 = 0x20;
    pub const CTRL_REG5: u8 = 0x24;
}

/// Device configuration mirrored by the protocol, each field already in
/// its register bit position.
#[derive(Clone, Copy, Debug)]
pub struct Configuration {
    pub x_en: u8,
    pub y_en: u8,
    pub z_en: u8,
    /// Block-data-update flag, bit 3 of CTRL_REG4.
    pub bdu: u8,
    pub scale: Scale,
    pub data_rate: DataRate,
}

impl Configuration {
    /// The bit fields sit in their register positions.
    pub open spec fn wf(self) -> bool {
        &&& self.x_en == 1u8
        &&& self.y_en == 2u8
        &&& self.z_en == 4u8
        &&& (self.bdu == 0u8 || self.bdu == 8u8)
    }
}

impl Default for Configuration {
    /// All axes enabled, block data update off, smallest range, output off.
    fn default() -> (c: Configuration)
        ensures
            c.wf(),
            c.bdu == 0u8,
            c.scale is Two_G,
            c.data_rate is Zero,
    {
        Configuration {
            x_en: 1,
            y_en: 2,
            z_en: 4,
            bdu: 0,
            scale: Scale::Two_G,
            data_rate: DataRate::Zero,
        }
    }
}

/// State owned by the accelerometer task.
#[derive(Clone, Copy, Debug)]
pub struct Lis3dsh {
    pub state: State,
    pub config: Configuration,
    /// Task that issued the in-flight command.
    pub origin: Task,
    /// The in-flight command; meaningful only while `Busy`.
    pub current_process: Message,
}

impl Lis3dsh {
    pub open spec fn wf(self) -> bool {
        self.config.wf()
    }

    /// A fresh protocol resource: idle, default configuration.
    pub fn new() -> (l: Lis3dsh)
        ensures
            l.wf(),
            l.state is Idling,
            l.config.bdu == 0u8,
            l.config.scale is Two_G,
            l.config.data_rate is Zero,
            l.origin is Init,
            l.current_process is CommandRejected,
    {
        Lis3dsh {
            state: State::Idling,
            config: Configuration::default(),
            origin: Task::Init,
            current_process: Message::CommandRejected,
        }
    }
}

/// What the mailbox handler does besides moving the state machine.
#[derive(Debug)]
pub enum Action {
    DoNothing,
    StartRead(spi_drv::Read),
    StartWrite(spi_drv::Write),
    HandleData,
    LogError,
}

/// Whether a command is in flight.
#[derive(Clone, Copy, Debug, PartialEq, Eq, Structural)]
pub enum State {
    Idling,
    Busy,
}

/// The five messages that request work, as opposed to notifications.
pub open spec fn is_command(m: Message) -> bool {
    ||| m is ReadID
    ||| m is ReadAxes
    ||| m is ChangeScale
    ||| m is ChangeDataRate
    ||| m is ChangeBDU
}

/// Full-scale bits of CTRL_REG5 (positions 5:3).
pub open spec fn scale_bits(s: Scale) -> u8 {
    match s {
        Scale::Two_G => 0u8,
        Scale::Four_G => 8u8,
        Scale::Six_G => 16u8,
        Scale::Eight_G => 24u8,
        Scale::Sixteen_G => 32u8,
    }
}

/// Output-data-rate bits of CTRL_REG4 (positions 7:4).
pub open spec fn rate_bits(r: DataRate) -> u8 {
    match r {
        DataRate::Zero => 0u8,
        DataRate::OneHundredHertz => 96u8,
    }
}

/// Block-data-update bit of CTRL_REG4 (position 3).
pub open spec fn bdu_bits(b: bool) -> u8 {
    if b {
        8u8
    } else {
        0u8
    }
}

/// The CTRL_REG4 byte for a given rate bit field and configuration.
pub open spec fn ctrl_reg4_byte(rate: u8, bdu: u8, cfg: Configuration) -> u8 {
    rate | bdu | cfg.z_en | cfg.y_en | cfg.x_en
}

/// Abstract view of an [`Action`]: a register write is summarised by its
/// first payload byte, all further payload bytes being zero.
pub enum ActionModel {
    Nothing,
    StartRead { reg: u8, len: u8 },
    StartWrite { reg: u8, len: u8, first: u8 },
    Handle,
    Log,
}

/// Whether a concrete action realises an abstract one.
pub open spec fn action_matches(a: Action, m: ActionModel) -> bool {
    match m {
        ActionModel::Nothing => a is DoNothing,
        ActionModel::StartRead { reg, len } => {
            &&& a matches Action::StartRead(r)
            &&& r.reg == reg
            &&& r.len == len
        },
        ActionModel::StartWrite { reg, len, first } => {
            &&& a matches Action::StartWrite(w)
            &&& w.reg == reg
            &&& w.len == len
            &&& w.data@[0] == first
            &&& forall|i: int| 1 <= i < spi_drv::TX_BUFFER_SIZE ==> w.data@[i] == 0u8
        },
        ActionModel::Handle => a is HandleData,
        ActionModel::Log => a is LogError,
    }
}

/// Transition table of the accelerometer protocol.  Commands are served
/// only while `Idling`; a command received while `Busy` is rejected with a
/// logged error and changes nothing.
pub open spec fn next_model(s: State, m: Message, cfg: Configuration) -> (State, ActionModel) {
    match (s, m) {
        (State::Idling, Message::ReadID) => (
            State::Busy,
            ActionModel::StartRead { reg: ReadRegister::ID, len: 1 },
        ),
        (State::Idling, Message::ReadAxes) => (
            State::Busy,
            ActionModel::StartRead { reg: ReadRegister::X_AXIS, len: 6 },
        ),
        (State::Idling, Message::ChangeScale(scale)) => (
            State::Busy,
            ActionModel::StartWrite {
                reg: WriteRegister::CTRL_REG5,
                len: 2,
                first: scale_bits(scale),
            },
        ),
        (State::Idling, Message::ChangeDataRate(rate)) => (
            State::Busy,
            ActionModel::StartWrite {
                reg: WriteRegister::CTRL_REG4,
                len: 2,
                first: ctrl_reg4_byte(rate_bits(rate), cfg.bdu, cfg),
            },
        ),
        (State::Idling, Message::ChangeBDU(bdu)) => (
            State::Busy,
            ActionModel::StartWrite {
                reg: WriteRegister::CTRL_REG4,
                len: 2,
                first: ctrl_reg4_byte(rate_bits(cfg.data_rate), bdu_bits(bdu), cfg),
            },
        ),
        (State::Busy, Message::ReadComplete) => (State::Idling, ActionModel::Handle),
        (State::Busy, Message::WriteComplete) => (State::Idling, ActionModel::Handle),
        (State::Busy, Message::TimeoutCheck) => (State::Idling, ActionModel::Log),
        (s2, Message::CommandRejected) => (s2, ActionModel::Log),
        (State::Busy, Message::ReadID) => (State::Busy, ActionModel::Log),
        (State::Busy, Message::ReadAxes) => (State::Busy, ActionModel::Log),
        (State::Busy, Message::ChangeScale(_)) => (State::Busy, ActionModel::Log),
        (State::Busy, Message::ChangeDataRate(_)) => (State::Busy, ActionModel::Log),
        (State::Busy, Message::ChangeBDU(_)) => (State::Busy, ActionModel::Log),
        (s2, _m) => (s2, ActionModel::Nothing),
    }
}

impl State {
    /// Executable transition function; total over both alphabets.
    pub fn next(self, msg: &Message, lis: &Lis3dsh) -> (r: (State, Action))
        ensures
            r.0 == next_model(self, *msg, lis.config).0,
            action_matches(r.1, next_model(self, *msg, lis.config).1),
    {
        match (self, *msg) {
            (State::Idling, Message::ReadID) => (
                State::Busy,
                Action::StartRead(spi_drv::Read { reg: ReadRegister::ID, len: 1 }),
            ),
            (State::Idling, Message::ReadAxes) => {
                // auto-increment is enabled by default, so one burst starting
                // at the X axis register reads out all six axis bytes
                (
                    State::Busy,
                    Action::StartRead(spi_drv::Read { reg: ReadRegister::X_AXIS, len: 6 }),
                )
            },
            (State::Idling, Message::ChangeScale(scale)) => {
                let mut data: [u8; 10] = [0; 10];
                data[0] = scale.bits();
                (
                    State::Busy,
                    Action::StartWrite(
                        spi_drv::Write { reg: WriteRegister::CTRL_REG5, len: 2, data },
                    ),
                )
            },
            (State::Idling, Message::ChangeDataRate(rate)) => {
                let mut data: [u8; 10] = [0; 10];
                data[0] = rate.bits() | lis.config.bdu | lis.config.z_en | lis.config.y_en
                    | lis.config.x_en;
                (
                    State::Busy,
                    Action::StartWrite(
                        spi_drv::Write { reg: WriteRegister::CTRL_REG4, len: 2, data },
                    ),
                )
            },
            (State::Idling, Message::ChangeBDU(bdu)) => {
                let mut data: [u8; 10] = [0; 10];
                let b: u8 = if bdu {
                    8
                } else {
                    0
                };
                data[0] = lis.config.data_rate.bits() | b | lis.config.z_en | lis.config.y_en
                    | lis.config.x_en;
                (
                    State::Busy,
                    Action::StartWrite(
                        spi_drv::Write { reg: WriteRegister::CTRL_REG4, len: 2, data },
                    ),
                )
            },
            (State::Busy, Message::ReadComplete) => (State::Idling, Action::HandleData),
            (State::Busy, Message::WriteComplete) => (State::Idling, Action::HandleData),
            (State::Busy, Message::TimeoutCheck) => (State::Idling, Action::LogError),
            (s, Message::CommandRejected) => (s, Action::LogError),
            (State::Busy, Message::ReadID) => (State::Busy, Action::LogError),
            (State::Busy, Message::ReadAxes) => (State::Busy, Action::LogError),
            (State::Busy, Message::ChangeScale(_)) => (State::Busy, Action::LogError),
            (State::Busy, Message::ChangeDataRate(_)) => (State::Busy, Action::LogError),
            (State::Busy, Message::ChangeBDU(_)) => (State::Busy, Action::LogError),
            (s, _m) => (s, Action::DoNothing),
        }
    }
}

impl Scale {
    /// Full-scale factor in standard gravities.
    pub open spec fn factor(self) -> int {
        match self {
            Scale::Two_G => 2,
            Scale::Four_G => 4,
            Scale::Six_G => 6,
            Scale::Eight_G => 8,
            Scale::Sixteen_G => 16,
        }
    }

    /// CTRL_REG5 bit field for this range.
    pub fn bits(&self) -> (r: u8)
        ensures
            r == scale_bits(*self),
    {
        match *self {
            Scale::Two_G => 0,
            Scale::Four_G => 8,
            Scale::Six_G => 16,
            Scale::Eight_G => 24,
            Scale::Sixteen_G => 32,
        }
    }
}

impl DataRate {
    /// CTRL_REG4 bit field for this rate.
    pub fn bits(&self) -> (r: u8)
        ensures
            r == rate_bits(*self),
    {
        match *self {
            DataRate::Zero => 0,
            DataRate::OneHundredHertz => 96,
        }
    }
}

/// The signed 16-bit axis count encoded little-endian in two register bytes.
pub open spec fn axis_raw(lo: u8, hi: u8) -> int {
    let v = hi * 256 + lo;
    if v >= 32768 {
        v - 65536
    } else {
        v as int
    }
}

/// The exact axis reading as a numerator over [`AXIS_DIVISOR`].
pub open spec fn axis_value(lo: u8, hi: u8, s: Scale) -> int {
    axis_raw(lo, hi) * s.factor()
}

/// Decodes the little-endian signed 16-bit axis count.
pub fn axis_from_bytes(lo: u8, hi: u8) -> (r: i16)
    ensures
        r == axis_raw(lo, hi),
{
    let v: i32 = (hi as i32) * 256 + (lo as i32);
    if v >= 32768 {
        (v - 65536) as i16
    } else {
        v as i16
    }
}

/// Converts a raw axis count to the exact numerator of its acceleration:
/// the physical value in g is `result / AXIS_DIVISOR`.
pub fn calculate_1g(input: i16, scale: &Scale) -> (r: i32)
    ensures
        r == input * scale.factor(),
{
    match *scale {
        Scale::Two_G => (input as i32) * 2,
        Scale::Four_G => (input as i32) * 4,
        Scale::Six_G => (input as i32) * 6,
        Scale::Eight_G => (input as i32) * 8,
        Scale::Sixteen_G => (input as i32) * 16,
    }
}

/// Whether an effect forwards a framed read to the SPI engine.
pub open spec fn is_start_read(e: Effect, reg: u8, len: u8) -> bool {
    &&& e matches Effect::Send(dest, m)
    &&& dest is Spi1
    &&& m matches msg::Message::Spi(sm)
    &&& sm matches spi_drv::Message::StartRead(r)
    &&& r.reg == reg
    &&& r.len == len
}

/// Whether an effect forwards a framed write to the SPI engine, with the
/// given first payload byte and zeroes thereafter.
pub open spec fn is_start_write(e: Effect, reg: u8, len: u8, first: u8) -> bool {
    &&& e matches Effect::Send(dest, m)
    &&& dest is Spi1
    &&& m matches msg::Message::Spi(sm)
    &&& sm matches spi_drv::Message::StartWrite(w)
    &&& w.reg == reg
    &&& w.len == len
    &&& w.data@[0] == first
    &&& forall|i: int| 1 <= i < spi_drv::TX_BUFFER_SIZE ==> w.data@[i] == 0u8
}

/// The timeout guard armed alongside every forwarded command.
pub open spec fn timeout_guard() -> Effect {
    Effect::Schedule(
        Task::Lis3dsh,
        msg::Message::Lis3dsh(Message::TimeoutCheck),
        TIMEOUT,
    )
}

/// A confirmation sent back to the SPI engine to release it.
pub open spec fn confirmation(m: spi_drv::Message) -> Effect {
    Effect::Send(Task::Spi1, msg::Message::Spi(m))
}

/// The resource after one handled event: a forwarded command records its
/// requester and itself, a completion commits the configuration change it
/// acknowledged, everything else moves the state alone.  (The emitted
/// effects are pinned by the handler's own contract.)
pub open spec fn protocol_step(l: Lis3dsh, m: Message, src: Task) -> Lis3dsh {
    let (s2, am) = next_model(l.state, m, l.config);
    match am {
        ActionModel::StartRead { .. } => Lis3dsh {
            state: s2,
            origin: src,
            current_process: m,
            ..l
        },
        ActionModel::StartWrite { .. } => Lis3dsh {
            state: s2,
            origin: src,
            current_process: m,
            ..l
        },
        ActionModel::Handle => Lis3dsh {
            state: s2,
            config: match l.current_process {
                Message::ChangeScale(x) => Configuration { scale: x, ..l.config },
                Message::ChangeDataRate(r) => Configuration { data_rate: r, ..l.config },
                Message::ChangeBDU(b) => Configuration { bdu: bdu_bits(b), ..l.config },
                _ => l.config,
            },
            ..l
        },
        _ => Lis3dsh { state: s2, ..l },
    }
}

/// The effects the handler emits for one event: a forwarded command is
/// exactly one framed transfer to the SPI task followed by the timeout
/// guard; a completion is the engine's confirmation, then — for a read —
/// the decoded report; a timeout is the engine's cancellation; everything
/// else emits nothing.
pub open spec fn handler_effects_ok(
    l: Lis3dsh,
    rx: Seq<u8>,
    m: Message,
    src: Task,
    es: Seq<Effect>,
) -> bool {
    let (_s2, am) = next_model(l.state, m, l.config);
    &&& (am is Nothing ==> es =~= Seq::<Effect>::empty())
    &&& (am matches ActionModel::StartRead { reg, len } ==> {
        &&& es.len() == 2
        &&& is_start_read(es[0], reg, len)
        &&& es[1] == timeout_guard()
    })
    &&& (am matches ActionModel::StartWrite { reg, len, first } ==> {
        &&& es.len() == 2
        &&& is_start_write(es[0], reg, len, first)
        &&& es[1] == timeout_guard()
    })
    &&& (am is Log ==> (if m is TimeoutCheck {
        es =~= seq![confirmation(spi_drv::Message::CancelTransaction)]
    } else {
        es =~= Seq::<Effect>::empty()
    }))
    &&& (am is Handle ==> match l.current_process {
        Message::ReadID => es =~= seq![
            confirmation(spi_drv::Message::ReadConfirmation),
            Effect::Hw(HwAction::Report(Reading::Id(rx[0]))),
        ],
        Message::ReadAxes => {
            &&& es.len() == 2
            &&& es[0] == confirmation(spi_drv::Message::ReadConfirmation)
            &&& (es[1] matches Effect::Hw(HwAction::Report(Reading::Axes(x, y, z)))
                && x == axis_value(rx[0], rx[1], l.config.scale)
                && y == axis_value(rx[2], rx[3], l.config.scale)
                && z == axis_value(rx[4], rx[5], l.config.scale))
        },
        Message::ChangeScale(_) => es =~= seq![confirmation(spi_drv::Message::WriteConfirmation)],
        Message::ChangeDataRate(_) => es =~= seq![
            confirmation(spi_drv::Message::WriteConfirmation),
        ],
        Message::ChangeBDU(_) => es =~= seq![confirmation(spi_drv::Message::WriteConfirmation)],
        _ => es =~= Seq::<Effect>::empty(),
    })
}

/// Mailbox handler of the accelerometer task.  `rx_buffer` is the SPI
/// engine's receive buffer, read when a completed command is interpreted.
/// The resource moves by [`protocol_step`]; the emitted effects satisfy
/// [`handler_effects_ok`].
pub fn lis3dsh_mb(lis: &mut Lis3dsh, rx_buffer: &Vec<u8>, packet: MessagePacket) -> (eff: Vec<
    Effect,
>)
    requires
        old(lis).wf(),
        rx_buffer@.len() == spi_drv::RX_BUFFER_SIZE,
    ensures
        final(lis).wf(),
        msg::effects_wf(eff@),
        !(packet.msg matches msg::Message::Lis3dsh(_)) ==> *final(lis) == *old(lis) && eff@
            == Seq::<Effect>::empty(),
        packet.msg matches msg::Message::Lis3dsh(m) ==> *final(lis) == protocol_step(
            *old(lis),
            m,
            packet.source,
        ),
        packet.msg matches msg::Message::Lis3dsh(m) ==> handler_effects_ok(
            *old(lis),
            rx_buffer@,
            m,
            packet.source,
            eff@,
        ),
{
    let mut eff: Vec<Effect> = Vec::new();
    match packet.msg {
        msg::Message::Lis3dsh(m) => {
            let (s2, action) = lis.state.next(&m, lis);
            lis.state = s2;
            match action {
                Action::StartRead(reg) => {
                    lis.origin = packet.source;
                    lis.current_process = m;
                    eff.push(
                        Effect::Send(
                            Task::Spi1,
                            msg::Message::Spi(spi_drv::Message::StartRead(reg)),
                        ),
                    );
                    eff.push(
                        Effect::Schedule(
                            Task::Lis3dsh,
                            msg::Message::Lis3dsh(Message::TimeoutCheck),
                            TIMEOUT,
                        ),
                    );
                },
                Action::StartWrite(reg) => {
                    lis.origin = packet.source;
                    lis.current_process = m;
                    eff.push(
                        Effect::Send(
                            Task::Spi1,
                            msg::Message::Spi(spi_drv::Message::StartWrite(reg)),
                        ),
                    );
                    eff.push(
                        Effect::Schedule(
                            Task::Lis3dsh,
                            msg::Message::Lis3dsh(Message::TimeoutCheck),
                            TIMEOUT,
                        ),
                    );
                },
                Action::HandleData => {
                    match lis.current_process {
                        Message::ReadID => {
                            let res = rx_buffer[0];
                            // confirm the value to unblock the SPI engine
                            eff.push(
                                Effect::Send(
                                    Task::Spi1,
                                    msg::Message::Spi(spi_drv::Message::ReadConfirmation),
                                ),
                            );
                            eff.push(Effect::Hw(HwAction::Report(Reading::Id(res))));
                        },
                        Message::ReadAxes => {
                            let x_axis = axis_from_bytes(rx_buffer[0], rx_buffer[1]);
                            let y_axis = axis_from_bytes(rx_buffer[2], rx_buffer[3]);
                            let z_axis = axis_from_bytes(rx_buffer[4], rx_buffer[5]);
                            // confirm the value to unblock the SPI engine
                            eff.push(
                                Effect::Send(
                                    Task::Spi1,
                                    msg::Message::Spi(spi_drv::Message::ReadConfirmation),
                                ),
                            );
                            let x_axis = calculate_1g(x_axis, &lis.config.scale);
                            let y_axis = calculate_1g(y_axis, &lis.config.scale);
                            let z_axis = calculate_1g(z_axis, &lis.config.scale);
                            eff.push(
                                Effect::Hw(
                                    HwAction::Report(Reading::Axes(x_axis, y_axis, z_axis)),
                                ),
                            );
                        },
                        Message::ChangeScale(x) => {
                            lis.config.scale = x;
                            // confirm the value to unblock the SPI engine
                            eff.push(
                                Effect::Send(
                                    Task::Spi1,
                                    msg::Message::Spi(spi_drv::Message::WriteConfirmation),
                                ),
                            );
                        },
                        Message::ChangeDataRate(r) => {
                            lis.config.data_rate = r;
                            // confirm the value to unblock the SPI engine
                            eff.push(
                                Effect::Send(
                                    Task::Spi1,
                                    msg::Message::Spi(spi_drv::Message::WriteConfirmation),
                                ),
                            );
                        },
                        Message::ChangeBDU(b) => {
                            lis.config.bdu = if b {
                                8
                            } else {
                                0
                            };
                            // confirm the value to unblock the SPI engine
                            eff.push(
                                Effect::Send(
                                    Task::Spi1,
                                    msg::Message::Spi(spi_drv::Message::WriteConfirmation),
                                ),
                            );
                        },
                        _ => {},
                    }
                },
                Action::LogError => {
                    if let Message::TimeoutCheck = m {
                        // the engine may still be mid-transfer on the
                        // abandoned command: force it back to idle
                        eff.push(
                            Effect::Send(
                                Task::Spi1,
                                msg::Message::Spi(spi_drv::Message::CancelTransaction),
                            ),
                        );
                    }
                },
                Action::DoNothing => {},
            }
        },
        _ => {},
    }
    eff
}

/// A command received while a command is in flight is rejected: the
/// machine stays `Busy` with a logged error, and the whole resource —
/// `current_process` and `origin` included — is left untouched.
pub proof fn lemma_busy_rejects_commands(l: Lis3dsh, m: Message, src: Task)
    requires
        l.state is Busy,
        is_command(m),
    ensures
        next_model(l.state, m, l.config).0 is Busy,
        next_model(l.state, m, l.config).1 is Log,
        protocol_step(l, m, src) == l,
{
}

/// The transition table is total: every (state, event) pair yields a defined
/// (state, action) pair; pairs outside the explicit table change nothing.
pub proof fn lemma_lis3dsh_transition_total(s: State, m: Message, cfg: Configuration)
    ensures
        ({
            let (s2, am) = next_model(s, m, cfg);
            ||| (s is Idling && is_command(m) && s2 is Busy && !(am is Nothing))
            ||| (s is Busy && (m is ReadComplete || m is WriteComplete) && s2 is Idling
                && am is Handle)
            ||| (s is Busy && m is TimeoutCheck && s2 is Idling && am is Log)
            ||| (m is CommandRejected && s2 == s && am is Log)
            ||| (s is Busy && is_command(m) && s2 == s && am is Log)
            ||| (s2 == s && am is Nothing)
        }),
{
}

} // verus!
