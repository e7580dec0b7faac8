//! SPI master transaction engine: shared framing types.

pub mod spi1;

use vstd::prelude::*;

verus! {

/// Size of the receive buffer, in bytes.
pub const RX_BUFFER_SIZE: usize = 255;

/// Size of the transmit buffer, in bytes.  A transmit frame is the register
/// address byte followed by at most `TX_BUFFER_SIZE - 1` payload bytes.
pub const TX_BUFFER_SIZE: usize = 10;

/// A framed register read: clock out `reg`, then read `len` bytes back.
#[derive(Clone, Copy, Debug)]
pub struct Read {
    pub reg: u8,
    pub len: u8,
}

/// A framed register write: clock out `reg`, then the first `len` bytes of
/// `data`.
#[derive(Clone, Copy, Debug)]
pub struct Write {
    pub reg: u8,
    pub len: u8,
    pub data: [u8; TX_BUFFER_SIZE],
}

impl Write {
    /// The register byte plus the payload must fit the transmit buffer.
    pub open spec fn wf(self) -> bool {
        1 <= self.len < TX_BUFFER_SIZE
    }
}

/// Event alphabet of the transaction engine.  `RxEvent` carries the byte
/// the peripheral latched when its receive flag rose.
#[derive(Clone, Copy, Debug)]
pub enum Message {
    Ignore,
    StartRead(Read),
    StartWrite(Write),
    TxEvent,
    RxEvent(u8),
    Error,
    FinishTransaction,
    CancelTransaction,
    ReadConfirmation,
    WriteConfirmation,
}

impl Message {
    /// Commands must fit the fixed transfer buffers.  A read of any length
    /// representable in a byte fits the receive buffer — a zero-length
    /// read simply completes on its first receive event, storing nothing.
    pub open spec fn wf(self) -> bool {
        match self {
            Message::StartWrite(w) => w.wf(),
            _ => true,
        }
    }
}

/// What the engine does in response to an event.
#[derive(Clone, Copy, Debug)]
pub enum Action {
    DoNothing,
    Reset,
    Reject,
    StartRead(Read),
    StartWrite(Write),
    ContinueRead,
    ContinueWrite,
}

} // verus!
