//! Transition tables: every (state, event) pair of every state machine is
//! defined, and pairs outside the explicit tables fall to their defaults.

use sensor_node::button;
use sensor_node::heartbeat;
use sensor_node::lis3dsh;
use sensor_node::spi_drv;
use sensor_node::spi_drv::spi1;

#[test]
fn button_press_starts_sampling() {
    let (s, a) = button::State::NotPressed.next(&button::Message::ButtonPressed);
    assert_eq!(s, button::State::Pressed);
    assert_eq!(a, button::Action::Schedule);
}

#[test]
fn button_release_returns_to_not_pressed() {
    let (s, a) = button::State::Pressed.next(&button::Message::ButtonNotPressed);
    assert_eq!(s, button::State::NotPressed);
    assert_eq!(a, button::Action::DoNothing);
}

#[test]
fn button_transition_is_total() {
    let states = [button::State::NotPressed, button::State::Pressed];
    let msgs = [button::Message::ButtonPressed, button::Message::ButtonNotPressed];
    for s in states {
        for m in &msgs {
            // every pair yields a defined result; no pair panics
            let (_s2, _a) = s.next(m);
        }
    }
    // a press while already pressed is idempotent
    let (s, a) = button::State::Pressed.next(&button::Message::ButtonPressed);
    assert_eq!(s, button::State::Pressed);
    assert_eq!(a, button::Action::DoNothing);
}

#[test]
fn heartbeat_turns_on_and_schedules() {
    let (s, a) = heartbeat::State::Off.next(&heartbeat::Message::TurnOn);
    assert_eq!(s, heartbeat::State::On);
    assert_eq!(a, heartbeat::Action::Schedule);
    let (s, a) = heartbeat::State::Off.next(&heartbeat::Message::Toggle);
    assert_eq!(s, heartbeat::State::On);
    assert_eq!(a, heartbeat::Action::Schedule);
}

#[test]
fn heartbeat_turns_off_without_scheduling() {
    let (s, a) = heartbeat::State::On.next(&heartbeat::Message::TurnOff);
    assert_eq!(s, heartbeat::State::Off);
    assert_eq!(a, heartbeat::Action::DoNothing);
    let (s, a) = heartbeat::State::On.next(&heartbeat::Message::Toggle);
    assert_eq!(s, heartbeat::State::Off);
    assert_eq!(a, heartbeat::Action::DoNothing);
}

#[test]
fn heartbeat_transition_is_total() {
    let states = [heartbeat::State::Off, heartbeat::State::On];
    let msgs = [
        heartbeat::Message::TurnOff,
        heartbeat::Message::TurnOn,
        heartbeat::Message::Toggle,
    ];
    for s in states {
        for m in &msgs {
            let (_s2, _a) = s.next(m);
        }
    }
    // the defaults leave the state alone
    let (s, a) = heartbeat::State::Off.next(&heartbeat::Message::TurnOff);
    assert_eq!(s, heartbeat::State::Off);
    assert_eq!(a, heartbeat::Action::DoNothing);
    let (s, a) = heartbeat::State::On.next(&heartbeat::Message::TurnOn);
    assert_eq!(s, heartbeat::State::On);
    assert_eq!(a, heartbeat::Action::DoNothing);
}

#[test]
fn spi_transition_is_total() {
    let states = [
        spi1::State::Idling,
        spi1::State::Reading,
        spi1::State::Writing,
        spi1::State::WaitingForConfirmation,
    ];
    let msgs = [
        spi_drv::Message::Ignore,
        spi_drv::Message::StartRead(spi_drv::Read { reg: 0x8F, len: 1 }),
        spi_drv::Message::StartWrite(spi_drv::Write { reg: 0x20, len: 2, data: [0; 10] }),
        spi_drv::Message::TxEvent,
        spi_drv::Message::RxEvent(0xAB),
        spi_drv::Message::Error,
        spi_drv::Message::FinishTransaction,
        spi_drv::Message::CancelTransaction,
        spi_drv::Message::ReadConfirmation,
        spi_drv::Message::WriteConfirmation,
    ];
    for s in states {
        for m in &msgs {
            let (_s2, _a) = s.next(m);
        }
    }
}

#[test]
fn spi_cancel_resets_from_every_state() {
    let states = [
        spi1::State::Idling,
        spi1::State::Reading,
        spi1::State::Writing,
        spi1::State::WaitingForConfirmation,
    ];
    for s in states {
        let (s2, a) = s.next(&spi_drv::Message::CancelTransaction);
        assert_eq!(s2, spi1::State::Idling);
        assert!(matches!(a, spi_drv::Action::Reset));
    }
}

#[test]
fn spi_unexpected_event_is_rejected() {
    let (s2, a) = spi1::State::Reading.next(&spi_drv::Message::TxEvent);
    assert_eq!(s2, spi1::State::Reading);
    assert!(matches!(a, spi_drv::Action::Reject));
    let (s2, a) = spi1::State::Idling.next(&spi_drv::Message::RxEvent(0));
    assert_eq!(s2, spi1::State::Idling);
    assert!(matches!(a, spi_drv::Action::Reject));
}

#[test]
fn lis3dsh_transition_is_total() {
    let lis = lis3dsh::Lis3dsh::new();
    let states = [lis3dsh::State::Idling, lis3dsh::State::Busy];
    let msgs = [
        lis3dsh::Message::ReadID,
        lis3dsh::Message::ReadAxes,
        lis3dsh::Message::ChangeScale(lis3dsh::Scale::Four_G),
        lis3dsh::Message::ChangeDataRate(lis3dsh::DataRate::OneHundredHertz),
        lis3dsh::Message::ChangeBDU(true),
        lis3dsh::Message::ReadComplete,
        lis3dsh::Message::WriteComplete,
        lis3dsh::Message::CommandRejected,
        lis3dsh::Message::TimeoutCheck,
    ];
    for s in states {
        for m in &msgs {
            let (_s2, _a) = s.next(m, &lis);
        }
    }
}

#[test]
fn lis3dsh_commands_build_requests_from_idle() {
    let lis = lis3dsh::Lis3dsh::new();
    let (s, a) = lis3dsh::State::Idling.next(&lis3dsh::Message::ReadID, &lis);
    assert_eq!(s, lis3dsh::State::Busy);
    match a {
        lis3dsh::Action::StartRead(r) => {
            assert_eq!(r.reg, lis3dsh::ReadRegister::ID);
            assert_eq!(r.len, 1);
        }
        other => panic!("expected StartRead, got {:?}", other),
    }
    let (s, a) = lis3dsh::State::Idling.next(&lis3dsh::Message::ReadAxes, &lis);
    assert_eq!(s, lis3dsh::State::Busy);
    match a {
        lis3dsh::Action::StartRead(r) => {
            assert_eq!(r.reg, lis3dsh::ReadRegister::X_AXIS);
            assert_eq!(r.len, 6);
        }
        other => panic!("expected StartRead, got {:?}", other),
    }
}

#[test]
fn lis3dsh_config_writes_encode_register_bytes() {
    let lis = lis3dsh::Lis3dsh::new();
    // default configuration: all axes on, BDU off, rate off
    let (_, a) = lis3dsh::State::Idling.next(
        &lis3dsh::Message::ChangeDataRate(lis3dsh::DataRate::OneHundredHertz),
        &lis,
    );
    match a {
        lis3dsh::Action::StartWrite(w) => {
            assert_eq!(w.reg, lis3dsh::WriteRegister::CTRL_REG4);
            assert_eq!(w.len, 2);
            // 0b0110_0000 rate | 0b0111 axes
            assert_eq!(w.data[0], 0x67);
        }
        other => panic!("expected StartWrite, got {:?}", other),
    }
    let (_, a) = lis3dsh::State::Idling.next(
        &lis3dsh::Message::ChangeScale(lis3dsh::Scale::Eight_G),
        &lis,
    );
    match a {
        lis3dsh::Action::StartWrite(w) => {
            assert_eq!(w.reg, lis3dsh::WriteRegister::CTRL_REG5);
            assert_eq!(w.len, 2);
            // full-scale bits 5:3 hold 3
            assert_eq!(w.data[0], 0b0001_1000);
        }
        other => panic!("expected StartWrite, got {:?}", other),
    }
    let (_, a) = lis3dsh::State::Idling.next(&lis3dsh::Message::ChangeBDU(true), &lis);
    match a {
        lis3dsh::Action::StartWrite(w) => {
            assert_eq!(w.reg, lis3dsh::WriteRegister::CTRL_REG4);
            // BDU bit 3 | axes
            assert_eq!(w.data[0], 0b0000_1111);
        }
        other => panic!("expected StartWrite, got {:?}", other),
    }
}

#[test]
fn lis3dsh_completion_and_timeout_return_to_idle() {
    let lis = lis3dsh::Lis3dsh::new();
    let (s, a) = lis3dsh::State::Busy.next(&lis3dsh::Message::ReadComplete, &lis);
    assert_eq!(s, lis3dsh::State::Idling);
    assert!(matches!(a, lis3dsh::Action::HandleData));
    let (s, a) = lis3dsh::State::Busy.next(&lis3dsh::Message::WriteComplete, &lis);
    assert_eq!(s, lis3dsh::State::Idling);
    assert!(matches!(a, lis3dsh::Action::HandleData));
    let (s, a) = lis3dsh::State::Busy.next(&lis3dsh::Message::TimeoutCheck, &lis);
    assert_eq!(s, lis3dsh::State::Idling);
    assert!(matches!(a, lis3dsh::Action::LogError));
}
