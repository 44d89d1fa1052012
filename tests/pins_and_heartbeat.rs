use heartbeat::heartbeat::{format_status_line, push_decimal};
use heartbeat::{
    blink_safe, blink_unsafe, Heartbeat, IterationOutcome, PinError, PinRegistry, Port,
    PortCommand, SerialError, Startup, BLINK_COUNT, LED_PIN, LOOP_DELAY_MS, PIN_COUNT,
};

fn fresh_registry() -> PinRegistry {
    let mut startup = Startup::new();
    startup.initialize_once().expect("first initialization succeeds")
}

fn blink_commands(pin: u8) -> Vec<PortCommand> {
    let mut v = Vec::new();
    for _ in 0..10 {
        v.push(PortCommand::Write(pin, true));
        v.push(PortCommand::Delay(50));
        v.push(PortCommand::Write(pin, false));
        v.push(PortCommand::Delay(50));
    }
    v
}

fn levels(cmds: &[PortCommand]) -> Vec<bool> {
    cmds.iter()
        .filter_map(|c| match c {
            PortCommand::Write(_, level) => Some(*level),
            _ => None,
        })
        .collect()
}

#[test]
fn initialize_once_succeeds_then_refuses() {
    let mut startup = Startup::new();
    let first = startup.initialize_once();
    assert!(first.is_ok());
    let registry = first.unwrap();
    for pin in 0..PIN_COUNT {
        assert!(!registry.is_claimed(pin));
    }
    assert_eq!(startup.initialize_once().err(), Some(PinError::AlreadyInitialized));
    assert_eq!(startup.initialize_once().err(), Some(PinError::AlreadyInitialized));
}

#[test]
fn claim_configures_pin_as_output() {
    let mut registry = fresh_registry();
    let mut port = Port::new();
    let led = registry.claim_pin(&mut port, LED_PIN).unwrap();
    assert_eq!(led.pin(), 13);
    assert!(registry.is_claimed(13));
    assert!(!registry.is_claimed(12));
    assert_eq!(port.take(), vec![PortCommand::SetOutput(13)]);
    assert_eq!(port.len(), 0);
}

#[test]
fn blink_pin_13_ten_times() {
    let mut registry = fresh_registry();
    let mut port = Port::new();
    let mut led = registry.claim_pin(&mut port, 13).unwrap();
    port.take();
    blink_safe(&mut led, &mut port);
    let cmds = port.take();
    assert_eq!(cmds, blink_commands(13));
    assert_eq!(cmds.len(), 40);
    let mut expected = Vec::new();
    for _ in 0..10 {
        expected.push(true);
        expected.push(false);
    }
    assert_eq!(levels(&cmds), expected);
    assert_eq!(BLINK_COUNT, 10);
}

#[test]
fn second_claim_of_pin_13_is_refused() {
    let mut registry = fresh_registry();
    let mut port = Port::new();
    let mut led = registry.claim_pin(&mut port, 13).unwrap();
    port.take();
    let second = registry.claim_pin(&mut port, 13);
    assert_eq!(second.err(), Some(PinError::AlreadyClaimed));
    assert_eq!(port.len(), 0);
    assert!(registry.is_claimed(13));
    led.digital_write(&mut port, true);
    led.digital_write(&mut port, false);
    assert_eq!(
        port.take(),
        vec![PortCommand::Write(13, true), PortCommand::Write(13, false)]
    );
}

#[test]
fn out_of_range_pin_is_invalid() {
    let mut registry = fresh_registry();
    let mut port = Port::new();
    assert_eq!(registry.claim_pin(&mut port, PIN_COUNT).err(), Some(PinError::InvalidPin));
    assert_eq!(registry.claim_pin(&mut port, 255).err(), Some(PinError::InvalidPin));
    assert_eq!(port.len(), 0);
    let last = registry.claim_pin(&mut port, PIN_COUNT - 1).unwrap();
    assert_eq!(last.pin(), 33);
    let first = registry.claim_pin(&mut port, 0).unwrap();
    assert_eq!(first.pin(), 0);
}

#[test]
fn release_lets_the_pin_be_claimed_again() {
    let mut registry = fresh_registry();
    let mut port = Port::new();
    let led = registry.claim_pin(&mut port, 13).unwrap();
    let other = registry.claim_pin(&mut port, 5).unwrap();
    registry.release_pin(led);
    assert!(!registry.is_claimed(13));
    assert!(registry.is_claimed(5));
    port.take();
    let again = registry.claim_pin(&mut port, 13).unwrap();
    assert_eq!(again.pin(), 13);
    assert_eq!(port.take(), vec![PortCommand::SetOutput(13)]);
    assert_eq!(other.pin(), 5);
}

#[test]
fn blink_unsafe_addresses_the_led_pin() {
    let mut port = Port::new();
    port.delay(7);
    blink_unsafe(&mut port);
    let mut expected = vec![PortCommand::Delay(7)];
    expected.extend(blink_commands(LED_PIN));
    assert_eq!(port.take(), expected);
}

#[test]
fn status_line_text() {
    let hb = Heartbeat::new();
    assert_eq!(hb.count(), 0);
    assert_eq!(hb.status_line(), b"Hello! Count: 0\n\r".to_vec());
}

#[test]
fn serial_failure_on_second_iteration() {
    let mut registry = fresh_registry();
    let mut port = Port::new();
    let mut led = registry.claim_pin(&mut port, LED_PIN).unwrap();
    port.take();
    let mut hb = Heartbeat::new();
    let mut iteration_cmds = blink_commands(LED_PIN);
    iteration_cmds.push(PortCommand::Delay(LOOP_DELAY_MS));

    assert_eq!(hb.status_line(), b"Hello! Count: 0\n\r".to_vec());
    assert_eq!(hb.complete_iteration(Ok(()), &mut led, &mut port), IterationOutcome::Reported);
    assert_eq!(port.take(), iteration_cmds);

    assert_eq!(hb.status_line(), b"Hello! Count: 1\n\r".to_vec());
    assert_eq!(
        hb.complete_iteration(Err(SerialError), &mut led, &mut port),
        IterationOutcome::SerialFailed
    );
    assert_eq!(port.take(), iteration_cmds);

    assert_eq!(hb.count(), 2);
    assert_eq!(hb.status_line(), b"Hello! Count: 2\n\r".to_vec());
    assert_eq!(hb.complete_iteration(Ok(()), &mut led, &mut port), IterationOutcome::Reported);
    assert_eq!(hb.count(), 3);
    assert_eq!(led.pin(), 13);
}

#[test]
fn counter_increments_by_one_regardless_of_serial() {
    let mut registry = fresh_registry();
    let mut port = Port::new();
    let mut led = registry.claim_pin(&mut port, 2).unwrap();
    let mut hb = Heartbeat::new();
    for i in 0u32..25 {
        assert_eq!(hb.count(), i);
        let sent = if i % 3 == 0 { Err(SerialError) } else { Ok(()) };
        hb.complete_iteration(sent, &mut led, &mut port);
        port.take();
    }
    assert_eq!(hb.count(), 25);
    assert_eq!(hb.status_line(), b"Hello! Count: 25\n\r".to_vec());
}

#[test]
fn status_line_multi_digit() {
    let mut registry = fresh_registry();
    let mut port = Port::new();
    let mut led = registry.claim_pin(&mut port, 13).unwrap();
    let mut hb = Heartbeat::new();
    for _ in 0..1007 {
        hb.complete_iteration(Ok(()), &mut led, &mut port);
    }
    assert_eq!(hb.status_line(), b"Hello! Count: 1007\n\r".to_vec());
    assert_eq!(port.len(), 1 + 1007 * 41);
}

#[test]
fn status_line_at_wrap_boundary() {
    assert_eq!(format_status_line(u32::MAX), b"Hello! Count: 4294967295\n\r".to_vec());
    let mut out = vec![b'x'];
    push_decimal(0, &mut out);
    push_decimal(90210, &mut out);
    assert_eq!(out, b"x090210".to_vec());
}
