//! The SPI transaction engine: framed reads and writes, the discarded
//! turnaround byte, and confirmation backpressure.

use sensor_node::lis3dsh;
use sensor_node::msg::{Effect, HwAction, Message, MessagePacket, Task};
use sensor_node::spi_drv;
use sensor_node::spi_drv::spi1;

fn packet(source: Task, m: spi_drv::Message) -> MessagePacket {
    MessagePacket { source, msg: Message::Spi(m) }
}

fn rx(data: &mut spi1::Data, byte: u8) -> Vec<Effect> {
    spi1::spi1_mb(data, packet(Task::Interrupt, spi_drv::Message::RxEvent(byte)))
}

#[test]
fn read_discards_first_byte_and_stores_the_rest() {
    let mut data = spi1::Data::new();
    let eff = spi1::spi1_mb(
        &mut data,
        packet(
            Task::Lis3dsh,
            spi_drv::Message::StartRead(spi_drv::Read { reg: 0xA8, len: 6 }),
        ),
    );
    assert_eq!(data.state, spi1::State::Reading);
    assert_eq!(data.origin, Task::Lis3dsh);
    assert!(matches!(eff[0], Effect::Hw(HwAction::ListenRx)));
    assert!(matches!(eff[1], Effect::Hw(HwAction::ChipSelectLow)));
    assert!(matches!(eff[2], Effect::Hw(HwAction::SpiTransmit(0xA8))));

    let clocked = [0xEE, 0x10, 0x01, 0x20, 0x02, 0x30, 0x03];
    for (k, b) in clocked.iter().enumerate() {
        let eff = rx(&mut data, *b);
        if k < clocked.len() - 1 {
            // a dummy byte keeps the transfer going
            assert_eq!(data.state, spi1::State::Reading);
            assert!(matches!(eff[0], Effect::Hw(HwAction::ListenRx)));
            assert!(matches!(eff[1], Effect::Hw(HwAction::SpiTransmit(0x00))));
        } else {
            assert_eq!(data.state, spi1::State::WaitingForConfirmation);
            assert!(matches!(eff[0], Effect::Hw(HwAction::ChipSelectHigh)));
            assert!(matches!(
                eff[1],
                Effect::Send(Task::Lis3dsh, Message::Lis3dsh(lis3dsh::Message::ReadComplete))
            ));
        }
    }
    // byte 0 (0xEE) was line turnaround garbage; bytes 1..=6 are the data
    assert_eq!(&data.rx_buffer[0..6], &clocked[1..7]);
    assert_eq!(data.transfer_len, 0);
    assert_eq!(data.bytes_transferred, 0);
}

#[test]
fn engine_waits_for_confirmation_before_idling() {
    let mut data = spi1::Data::new();
    let _ = spi1::spi1_mb(
        &mut data,
        packet(
            Task::Lis3dsh,
            spi_drv::Message::StartRead(spi_drv::Read { reg: 0x8F, len: 1 }),
        ),
    );
    let _ = rx(&mut data, 0xFF);
    let _ = rx(&mut data, 0x3F);
    assert_eq!(data.state, spi1::State::WaitingForConfirmation);
    // a new command while waiting is rejected back to the origin
    let eff = spi1::spi1_mb(
        &mut data,
        packet(
            Task::Lis3dsh,
            spi_drv::Message::StartRead(spi_drv::Read { reg: 0x8F, len: 1 }),
        ),
    );
    assert_eq!(data.state, spi1::State::WaitingForConfirmation);
    assert!(matches!(
        eff[0],
        Effect::Send(Task::Lis3dsh, Message::Lis3dsh(lis3dsh::Message::CommandRejected))
    ));
    // the confirmation releases the engine
    let eff = spi1::spi1_mb(
        &mut data,
        packet(Task::Lis3dsh, spi_drv::Message::ReadConfirmation),
    );
    assert_eq!(data.state, spi1::State::Idling);
    assert!(eff.is_empty());
}

#[test]
fn write_clocks_register_then_payload() {
    let mut data = spi1::Data::new();
    let mut payload = [0u8; 10];
    payload[0] = 0x67;
    let eff = spi1::spi1_mb(
        &mut data,
        packet(
            Task::Lis3dsh,
            spi_drv::Message::StartWrite(spi_drv::Write { reg: 0x20, len: 2, data: payload }),
        ),
    );
    assert_eq!(data.state, spi1::State::Writing);
    assert!(matches!(eff[2], Effect::Hw(HwAction::SpiTransmit(0x20))));

    // first echo: clock the first payload byte
    let eff = rx(&mut data, 0x00);
    assert_eq!(data.state, spi1::State::Writing);
    assert!(matches!(eff[1], Effect::Hw(HwAction::SpiTransmit(0x67))));

    // second echo: length met, transaction completes
    let eff = rx(&mut data, 0x00);
    assert_eq!(data.state, spi1::State::WaitingForConfirmation);
    assert!(matches!(eff[0], Effect::Hw(HwAction::ChipSelectHigh)));
    assert!(matches!(
        eff[1],
        Effect::Send(Task::Lis3dsh, Message::Lis3dsh(lis3dsh::Message::WriteComplete))
    ));

    let eff = spi1::spi1_mb(
        &mut data,
        packet(Task::Lis3dsh, spi_drv::Message::WriteConfirmation),
    );
    assert_eq!(data.state, spi1::State::Idling);
    assert!(eff.is_empty());
}

#[test]
fn cancel_forces_a_hard_reset() {
    let mut data = spi1::Data::new();
    let _ = spi1::spi1_mb(
        &mut data,
        packet(
            Task::Lis3dsh,
            spi_drv::Message::StartRead(spi_drv::Read { reg: 0xA8, len: 6 }),
        ),
    );
    let _ = rx(&mut data, 0xEE);
    let _ = rx(&mut data, 0x11);
    assert_eq!(data.state, spi1::State::Reading);
    let eff = spi1::spi1_mb(
        &mut data,
        packet(Task::Lis3dsh, spi_drv::Message::CancelTransaction),
    );
    assert_eq!(data.state, spi1::State::Idling);
    assert_eq!(data.transfer_len, 0);
    assert_eq!(data.bytes_transferred, 0);
    assert!(eff.is_empty());
}

#[test]
fn rejection_to_a_pseudo_source_sends_nothing() {
    let mut data = spi1::Data::new();
    // origin is still Init: an unexpected event is rejected silently
    let eff = spi1::spi1_mb(&mut data, packet(Task::Interrupt, spi_drv::Message::TxEvent));
    assert_eq!(data.state, spi1::State::Idling);
    assert!(eff.is_empty());
}
