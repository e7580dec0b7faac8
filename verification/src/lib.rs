//! Control core of an embedded sensor-and-indicator node.
//!
//! The crate models a small cooperative runtime: a fixed set of tasks, each
//! owning a bounded mailbox of typed messages plus at most one timer-armed
//! deferred entry, and a group of finite-state-machine drivers built on top
//! of it (a debounced button, a breathing-LED heartbeat, a byte-level SPI
//! master transaction engine, and an accelerometer command protocol).
//!
//! The drivers never touch hardware directly: every peripheral effect is
//! returned to the caller as an explicit `HwAction` value, and every
//! hardware event enters as a plain message.  An embedding (an interrupt
//! handler, or a simulator) performs the actions and feeds the events back.

pub mod button;
pub mod heartbeat;
pub mod lis3dsh;
pub mod mailbox;
pub mod msg;
pub mod runtime;
pub mod spi_drv;
pub mod util;
