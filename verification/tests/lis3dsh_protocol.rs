//! The accelerometer protocol: axis conversion, one-command-at-a-time
//! access, completions, rejections and timeout recovery.

use sensor_node::lis3dsh;
use sensor_node::lis3dsh::{calculate_1g, Lis3dsh, Scale};
use sensor_node::msg::{Effect, HwAction, Message, MessagePacket, Reading, Task};
use sensor_node::spi_drv;

fn packet(source: Task, m: lis3dsh::Message) -> MessagePacket {
    MessagePacket { source, msg: Message::Lis3dsh(m) }
}

fn rx_buffer_with(bytes: &[u8]) -> Vec<u8> {
    let mut rx = vec![0u8; spi_drv::RX_BUFFER_SIZE];
    rx[..bytes.len()].copy_from_slice(bytes);
    rx
}

#[test]
fn axis_conversion_is_exact() {
    // value = raw * g / 32768; 16384 at 2 g is exactly 1 g
    assert_eq!(calculate_1g(16384, &Scale::Two_G), 32768);
    assert_eq!(calculate_1g(16384, &Scale::Two_G) as f64 / 32768.0, 1.0);
    assert_eq!(calculate_1g(-16384, &Scale::Two_G) as f64 / 32768.0, -1.0);
    assert_eq!(calculate_1g(8192, &Scale::Four_G) as f64 / 32768.0, 1.0);
    assert_eq!(calculate_1g(1000, &Scale::Sixteen_G), 16000);
    assert_eq!(calculate_1g(i16::MIN, &Scale::Sixteen_G), -524288);
    assert_eq!(calculate_1g(0, &Scale::Six_G), 0);
}

#[test]
fn command_from_idle_forwards_and_arms_timeout() {
    let mut lis = Lis3dsh::new();
    let rx = rx_buffer_with(&[]);
    let eff = lis3dsh::lis3dsh_mb(&mut lis, &rx, packet(Task::Init, lis3dsh::Message::ReadAxes));
    assert_eq!(lis.state, lis3dsh::State::Busy);
    assert_eq!(lis.origin, Task::Init);
    assert!(matches!(lis.current_process, lis3dsh::Message::ReadAxes));
    assert_eq!(eff.len(), 2);
    assert!(matches!(
        eff[0],
        Effect::Send(
            Task::Spi1,
            Message::Spi(spi_drv::Message::StartRead(spi_drv::Read { reg: 0xA8, len: 6 })),
        )
    ));
    assert!(matches!(
        eff[1],
        Effect::Schedule(
            Task::Lis3dsh,
            Message::Lis3dsh(lis3dsh::Message::TimeoutCheck),
            3_000_000,
        )
    ));
}

#[test]
fn busy_rejects_every_command() {
    let mut lis = Lis3dsh::new();
    let rx = rx_buffer_with(&[]);
    let _ = lis3dsh::lis3dsh_mb(&mut lis, &rx, packet(Task::Init, lis3dsh::Message::ReadID));
    let origin = lis.origin;
    let commands = [
        lis3dsh::Message::ReadID,
        lis3dsh::Message::ReadAxes,
        lis3dsh::Message::ChangeScale(Scale::Four_G),
        lis3dsh::Message::ChangeDataRate(lis3dsh::DataRate::OneHundredHertz),
        lis3dsh::Message::ChangeBDU(true),
    ];
    for c in commands {
        let eff = lis3dsh::lis3dsh_mb(&mut lis, &rx, packet(Task::Button, c));
        // rejected: still busy, in-flight command and origin untouched
        assert_eq!(lis.state, lis3dsh::State::Busy);
        assert_eq!(lis.origin, origin);
        assert!(matches!(lis.current_process, lis3dsh::Message::ReadID));
        assert!(eff.is_empty());
    }
}

#[test]
fn read_axes_completion_confirms_and_reports() {
    let mut lis = Lis3dsh::new();
    // x = 16384 (1 g), y = -16384 (-1 g), z = 0, little endian
    let rx = rx_buffer_with(&[0x00, 0x40, 0x00, 0xC0, 0x00, 0x00]);
    let _ = lis3dsh::lis3dsh_mb(&mut lis, &rx, packet(Task::Init, lis3dsh::Message::ReadAxes));
    let eff = lis3dsh::lis3dsh_mb(&mut lis, &rx, packet(Task::Spi1, lis3dsh::Message::ReadComplete));
    assert_eq!(lis.state, lis3dsh::State::Idling);
    assert_eq!(eff.len(), 2);
    assert!(matches!(
        eff[0],
        Effect::Send(Task::Spi1, Message::Spi(spi_drv::Message::ReadConfirmation))
    ));
    match eff[1] {
        Effect::Hw(HwAction::Report(Reading::Axes(x, y, z))) => {
            assert_eq!(x, 32768);
            assert_eq!(y, -32768);
            assert_eq!(z, 0);
            assert_eq!(x as f64 / 32768.0, 1.0);
        }
        other => panic!("expected an axes report, got {:?}", other),
    }
}

#[test]
fn read_id_completion_reports_the_echo() {
    let mut lis = Lis3dsh::new();
    let rx = rx_buffer_with(&[0x3F]);
    let _ = lis3dsh::lis3dsh_mb(&mut lis, &rx, packet(Task::Init, lis3dsh::Message::ReadID));
    let eff = lis3dsh::lis3dsh_mb(&mut lis, &rx, packet(Task::Spi1, lis3dsh::Message::ReadComplete));
    assert_eq!(lis.state, lis3dsh::State::Idling);
    assert!(matches!(eff[1], Effect::Hw(HwAction::Report(Reading::Id(0x3F)))));
}

#[test]
fn write_completion_commits_the_configuration() {
    let mut lis = Lis3dsh::new();
    let rx = rx_buffer_with(&[]);
    let _ = lis3dsh::lis3dsh_mb(
        &mut lis,
        &rx,
        packet(Task::Init, lis3dsh::Message::ChangeScale(Scale::Eight_G)),
    );
    let eff =
        lis3dsh::lis3dsh_mb(&mut lis, &rx, packet(Task::Spi1, lis3dsh::Message::WriteComplete));
    assert_eq!(lis.state, lis3dsh::State::Idling);
    assert_eq!(lis.config.scale, Scale::Eight_G);
    assert!(matches!(
        eff[0],
        Effect::Send(Task::Spi1, Message::Spi(spi_drv::Message::WriteConfirmation))
    ));

    let _ = lis3dsh::lis3dsh_mb(&mut lis, &rx, packet(Task::Init, lis3dsh::Message::ChangeBDU(true)));
    let _ = lis3dsh::lis3dsh_mb(&mut lis, &rx, packet(Task::Spi1, lis3dsh::Message::WriteComplete));
    assert_eq!(lis.config.bdu, 0b0000_1000);
}

#[test]
fn timeout_abandons_and_cancels_the_engine() {
    let mut lis = Lis3dsh::new();
    let rx = rx_buffer_with(&[]);
    let _ = lis3dsh::lis3dsh_mb(&mut lis, &rx, packet(Task::Init, lis3dsh::Message::ReadAxes));
    let eff =
        lis3dsh::lis3dsh_mb(&mut lis, &rx, packet(Task::Lis3dsh, lis3dsh::Message::TimeoutCheck));
    assert_eq!(lis.state, lis3dsh::State::Idling);
    assert_eq!(eff.len(), 1);
    assert!(matches!(
        eff[0],
        Effect::Send(Task::Spi1, Message::Spi(spi_drv::Message::CancelTransaction))
    ));
}

#[test]
fn stale_timeout_while_idle_does_nothing() {
    let mut lis = Lis3dsh::new();
    let rx = rx_buffer_with(&[]);
    let eff =
        lis3dsh::lis3dsh_mb(&mut lis, &rx, packet(Task::Lis3dsh, lis3dsh::Message::TimeoutCheck));
    assert_eq!(lis.state, lis3dsh::State::Idling);
    assert!(eff.is_empty());
}

#[test]
fn engine_rejection_keeps_state() {
    let mut lis = Lis3dsh::new();
    let rx = rx_buffer_with(&[]);
    let _ = lis3dsh::lis3dsh_mb(&mut lis, &rx, packet(Task::Init, lis3dsh::Message::ReadID));
    let eff =
        lis3dsh::lis3dsh_mb(&mut lis, &rx, packet(Task::Spi1, lis3dsh::Message::CommandRejected));
    assert_eq!(lis.state, lis3dsh::State::Busy);
    assert!(matches!(lis.current_process, lis3dsh::Message::ReadID));
    assert!(eff.is_empty());
}
