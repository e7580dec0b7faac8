//! Debounce cycles: a press is reported if and only if strictly more than
//! half the samples read high, and each cycle leaves the driver reset.

use sensor_node::button;
use sensor_node::heartbeat;
use sensor_node::msg::{Effect, HwAction, Message, MessagePacket, Task};

fn toggles_heartbeat(e: &Effect) -> bool {
    matches!(
        e,
        Effect::Send(Task::Heartbeat, Message::Heartbeat(heartbeat::Message::Toggle))
    )
}

/// Runs one full cycle: ten recording ticks, then the tally tick.
fn run_cycle(data: &mut button::Data, samples: &[bool; 10]) -> Vec<Effect> {
    for (k, s) in samples.iter().enumerate() {
        let eff = button::button(data, *s);
        assert_eq!(data.sample_cnt, k + 1);
        assert!(matches!(
            eff[0],
            Effect::Schedule(Task::Button, Message::ButtonSample, 1_680_000)
        ));
    }
    button::button(data, false)
}

#[test]
fn six_high_samples_report_a_press() {
    let mut data = button::Data::new();
    let samples = [true, true, true, false, true, false, true, false, true, false];
    let eff = run_cycle(&mut data, &samples);
    assert_eq!(eff.len(), 2);
    assert!(toggles_heartbeat(&eff[0]));
    assert!(matches!(eff[1], Effect::Hw(HwAction::EnableButtonInterrupt)));
}

#[test]
fn five_high_samples_report_nothing() {
    let mut data = button::Data::new();
    let samples = [true, true, true, true, true, false, false, false, false, false];
    let eff = run_cycle(&mut data, &samples);
    assert_eq!(eff.len(), 1);
    assert!(matches!(eff[0], Effect::Hw(HwAction::EnableButtonInterrupt)));
}

#[test]
fn all_high_samples_report_a_press() {
    let mut data = button::Data::new();
    let eff = run_cycle(&mut data, &[true; 10]);
    assert!(eff.iter().any(toggles_heartbeat));
}

#[test]
fn all_low_samples_report_nothing() {
    let mut data = button::Data::new();
    let eff = run_cycle(&mut data, &[false; 10]);
    assert!(!eff.iter().any(toggles_heartbeat));
}

#[test]
fn cycle_resets_counter_and_buffer() {
    let mut data = button::Data::new();
    let _ = run_cycle(&mut data, &[true; 10]);
    assert_eq!(data.sample_cnt, 0);
    assert!(data.sample_data.iter().all(|s| !s));
    // the synthetic release drove the reverse transition
    assert_eq!(data.state, button::State::NotPressed);
    // a second cycle over fresh samples behaves identically
    let eff = run_cycle(&mut data, &[false; 10]);
    assert!(!eff.iter().any(toggles_heartbeat));
    assert_eq!(data.sample_cnt, 0);
}

#[test]
fn mailbox_press_event_schedules_sampling() {
    let mut data = button::Data::new();
    let packet = MessagePacket {
        source: Task::Interrupt,
        msg: Message::Button(button::Message::ButtonPressed),
    };
    let eff = button::button_mb(&mut data, packet);
    assert_eq!(data.state, button::State::Pressed);
    assert_eq!(eff.len(), 1);
    assert!(matches!(
        eff[0],
        Effect::Schedule(Task::Button, Message::ButtonSample, 0)
    ));
}

#[test]
fn mailbox_press_while_pressed_is_idempotent() {
    let mut data = button::Data::new();
    let packet = MessagePacket {
        source: Task::Interrupt,
        msg: Message::Button(button::Message::ButtonPressed),
    };
    let _ = button::button_mb(&mut data, packet);
    let packet = MessagePacket {
        source: Task::Interrupt,
        msg: Message::Button(button::Message::ButtonPressed),
    };
    let eff = button::button_mb(&mut data, packet);
    assert_eq!(data.state, button::State::Pressed);
    assert!(eff.is_empty());
}
