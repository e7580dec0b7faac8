//! The mailbox runtime: bounded queues, single deferred slots, FIFO
//! dispatch, and the boot sequence driven end to end.

use sensor_node::button;
use sensor_node::heartbeat;
use sensor_node::lis3dsh;
use sensor_node::mailbox::Mailbox;
use sensor_node::msg::{HwAction, Message, MessagePacket, Reading, Task};
use sensor_node::runtime::Runtime;
use sensor_node::spi_drv;
use sensor_node::util::{convert_us_to_cycles, send_message, RticError};

fn press_packet() -> MessagePacket {
    MessagePacket {
        source: Task::Interrupt,
        msg: Message::Button(button::Message::ButtonPressed),
    }
}

#[test]
fn cycles_per_microsecond_at_168_mhz() {
    assert_eq!(convert_us_to_cycles(1), 168);
    assert_eq!(convert_us_to_cycles(10_000), 1_680_000);
    assert_eq!(convert_us_to_cycles(0), 0);
}

#[test]
fn capacity_n_rejects_the_n_plus_first_send() {
    let n = 4;
    let mut mb = Mailbox::new(n, 2);
    for _ in 0..n {
        assert!(mb.send(press_packet()).is_ok());
    }
    assert_eq!(mb.queue.len(), n);
    match mb.send(press_packet()) {
        Err(RticError::Spawn(_)) => {}
        other => panic!("expected a capacity rejection, got {:?}", other),
    }
    assert_eq!(mb.queue.len(), n);
}

#[test]
fn queue_dispatches_in_fifo_order() {
    let mut mb = Mailbox::new(3, 2);
    let msgs = [
        Message::Heartbeat(heartbeat::Message::TurnOn),
        Message::Heartbeat(heartbeat::Message::Toggle),
        Message::Heartbeat(heartbeat::Message::TurnOff),
    ];
    for m in msgs {
        assert!(mb.send(MessagePacket { source: Task::Init, msg: m }).is_ok());
    }
    assert!(matches!(
        mb.pop_front().unwrap().msg,
        Message::Heartbeat(heartbeat::Message::TurnOn)
    ));
    assert!(matches!(
        mb.pop_front().unwrap().msg,
        Message::Heartbeat(heartbeat::Message::Toggle)
    ));
    assert!(matches!(
        mb.pop_front().unwrap().msg,
        Message::Heartbeat(heartbeat::Message::TurnOff)
    ));
    assert!(mb.pop_front().is_none());
}

#[test]
fn second_deferred_arming_is_rejected() {
    let mut mb = Mailbox::new(1, 2);
    assert!(mb.schedule(press_packet(), 500).is_ok());
    match mb.schedule(press_packet(), 900) {
        Err(RticError::Schedule(_)) => {}
        other => panic!("expected an already-scheduled rejection, got {:?}", other),
    }
    // the armed entry is untouched and fires only once due
    assert!(mb.take_due(499).is_none());
    assert!(mb.take_due(500).is_some());
    assert!(mb.take_due(500).is_none());
}

#[test]
fn sending_to_a_pseudo_source_is_rejected() {
    let mut rt = Runtime::new(4200);
    let m = Message::Heartbeat(heartbeat::Message::TurnOn);
    match send_message(&mut rt, Task::Button, &Task::Init, m) {
        Err(RticError::NoMailbox(_)) => {}
        other => panic!("expected a pseudo-source rejection, got {:?}", other),
    }
}

#[test]
fn button_edge_masks_the_line_and_posts_the_event() {
    let mut rt = Runtime::new(4200);
    let acts = rt.on_button_edge();
    assert_eq!(
        acts,
        vec![HwAction::ClearButtonPending, HwAction::DisableButtonInterrupt]
    );
    assert_eq!(rt.button_mb.queue.len(), 1);
    // the press drives the state machine and starts the sampling tick
    let acts = rt.step(false).expect("a ready envelope");
    assert!(acts.is_empty());
    assert_eq!(rt.button.state, button::State::Pressed);
    assert!(rt.button_mb.deferred.is_some());
}

#[test]
fn boot_turns_heartbeat_on_and_raises_data_rate() {
    let mut rt = Runtime::new(4200);
    rt.init();
    assert_eq!(rt.heartbeat_mb.queue.len(), 1);
    assert_eq!(rt.lis_mb.queue.len(), 1);
    assert!(rt.lis_mb.deferred.is_some());

    // heartbeat first (fixed tie order): turns on, arms the animation
    let _ = rt.step(false).expect("heartbeat boot message");
    assert_eq!(rt.heartbeat.state, heartbeat::State::On);
    assert!(rt.heartbeat_mb.deferred.is_some());

    // accelerometer command: goes busy, frames the register write
    let _ = rt.step(false).expect("accelerometer boot message");
    assert_eq!(rt.lis.state, lis3dsh::State::Busy);
    assert_eq!(rt.spi1_mb.queue.len(), 1);
    // the timeout guard could not be armed: the axis read occupies the slot
    // and the one-slot rule makes the second arming a no-op
    assert!(rt.lis_mb.deferred.is_some());
}

#[test]
fn write_transaction_runs_end_to_end() {
    let mut rt = Runtime::new(4200);
    rt.init();
    let _ = rt.step(false); // heartbeat TurnOn
    let _ = rt.step(false); // lis3dsh ChangeDataRate -> StartWrite queued

    // the engine accepts the write and clocks the register address
    let acts = rt.step(false).expect("spi start");
    assert!(acts.contains(&HwAction::ChipSelectLow));
    assert!(acts.contains(&HwAction::SpiTransmit(0x20)));

    // first echoed byte: the payload byte follows
    let _ = rt.on_spi_interrupt(true, false, 0x00);
    let acts = rt.step(false).expect("first echo");
    assert!(acts.contains(&HwAction::SpiTransmit(0x67)));

    // second echoed byte: transaction completes, completion is posted
    let _ = rt.on_spi_interrupt(true, false, 0x00);
    let acts = rt.step(false).expect("second echo");
    assert!(acts.contains(&HwAction::ChipSelectHigh));

    // the completion commits the configuration and confirms the engine
    let _ = rt.step(false).expect("write complete");
    assert!(matches!(
        rt.lis.config.data_rate,
        lis3dsh::DataRate::OneHundredHertz
    ));
    assert_eq!(rt.lis.state, lis3dsh::State::Idling);
    let _ = rt.step(false).expect("write confirmation");
    assert_eq!(rt.spi.state, sensor_node::spi_drv::spi1::State::Idling);
}

#[test]
fn deferred_axis_read_fires_after_its_instant() {
    let mut rt = Runtime::new(4200);
    rt.init();
    let _ = rt.step(false); // heartbeat TurnOn
    let _ = rt.step(false); // ChangeDataRate
    // drop the pending SPI work: cancel the in-flight transaction
    let _ = send_message(
        &mut rt,
        Task::Init,
        &Task::Spi1,
        Message::Spi(spi_drv::Message::CancelTransaction),
    );
    while rt.step(false).is_some() {}

    // before one second of cycles, the deferred read does not fire
    let one_second = convert_us_to_cycles(1_000_000) as u64;
    rt.advance_to(one_second - 1);
    while rt.step(false).is_some() {}
    assert!(rt.lis_mb.deferred.is_some());

    // at its instant it fires
    rt.advance_to(one_second);
    let mut fired = false;
    for _ in 0..16 {
        if rt.step(false).is_none() {
            break;
        }
        if rt.lis_mb.deferred.is_none() {
            fired = true;
            break;
        }
    }
    assert!(fired || rt.lis_mb.deferred.is_none());
}

#[test]
fn axis_read_runs_end_to_end() {
    let mut rt = Runtime::new(4200);
    let _ = send_message(
        &mut rt,
        Task::Init,
        &Task::Lis3dsh,
        Message::Lis3dsh(lis3dsh::Message::ReadAxes),
    );
    let acts = rt.step(false).expect("command accepted");
    assert!(acts.is_empty());
    assert_eq!(rt.lis.state, lis3dsh::State::Busy);

    // the engine asserts chip select and clocks the burst address
    let acts = rt.step(false).expect("engine starts");
    assert!(acts.contains(&HwAction::ChipSelectLow));
    assert!(acts.contains(&HwAction::SpiTransmit(0xA8)));

    // the device clocks back turnaround garbage, then x, y, z little endian:
    // x = 16384 (+1 g at 2 g), y = -16384 (-1 g), z = 0
    let stream = [0xEE, 0x00, 0x40, 0x00, 0xC0, 0x00, 0x00];
    for b in stream {
        let _ = rt.on_spi_interrupt(true, false, b);
        let _ = rt.step(false).expect("receive event");
    }
    assert_eq!(&rt.spi.rx_buffer[0..6], &stream[1..7]);

    // the completion confirms the engine and reports converted axes
    let acts = rt.step(false).expect("read completion");
    let mut reports = Vec::new();
    for a in acts {
        if let HwAction::Report(r) = a {
            reports.push(r);
        }
    }
    assert_eq!(reports, vec![Reading::Axes(32768, -32768, 0)]);
    assert_eq!(rt.lis.state, lis3dsh::State::Idling);

    // the confirmation releases the engine for the next command
    let _ = rt.step(false).expect("confirmation");
    assert_eq!(rt.spi.state, sensor_node::spi_drv::spi1::State::Idling);
}

#[test]
fn full_debounce_cycle_toggles_the_heartbeat() {
    let mut rt = Runtime::new(4200);
    // heartbeat off; press the button and run the whole debounce cycle
    let _ = rt.on_button_edge();
    let _ = rt.step(true).expect("press event");
    // ten sampling ticks, each re-armed 10 ms out, then the tally tick
    for k in 0..11 {
        let e = rt.button_mb.deferred.expect("sampling tick armed");
        rt.advance_to(e.when);
        let acts = rt.step(true).expect("sampling tick");
        if k == 10 {
            assert!(acts.contains(&HwAction::EnableButtonInterrupt));
        }
    }
    // all samples read high: the press toggled the heartbeat on
    let _ = rt.step(true).expect("heartbeat toggle");
    assert_eq!(rt.heartbeat.state, heartbeat::State::On);
    assert_eq!(rt.button.state, button::State::NotPressed);
    assert_eq!(rt.button.sample_cnt, 0);
}
