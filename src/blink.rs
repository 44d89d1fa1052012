use vstd::prelude::*;
use crate::pins::{PinHandle, LED_PIN};
use crate::port::{Port, PortCommand};

verus! {

/// How many times one blink pattern flashes the pin.
pub const BLINK_COUNT: u32 = 10;

/// How long the pin stays high, and then low, in one flash (milliseconds).
pub const BLINK_HALF_PERIOD_MS: u32 = 50;

/// One flash of `pin`: high, wait, low, wait.
pub open spec fn flash(pin: u8) -> Seq<PortCommand> {
    seq![
        PortCommand::Write(pin, true),
        PortCommand::Delay(BLINK_HALF_PERIOD_MS),
        PortCommand::Write(pin, false),
        PortCommand::Delay(BLINK_HALF_PERIOD_MS),
    ]
}

/// `n` flashes of `pin`, one after the other.
pub open spec fn flashes(pin: u8, n: nat) -> Seq<PortCommand>
    decreases n,
{
    if n == 0 {
        Seq::empty()
    } else {
        flashes(pin, (n - 1) as nat) + flash(pin)
    }
}

/// The commands of one blink pattern on `pin`.
pub open spec fn blink_pattern(pin: u8) -> Seq<PortCommand> {
    flashes(pin, BLINK_COUNT as nat)
}

/// Blinks the pin of `led` [`BLINK_COUNT`] times, through the handle.
pub fn blink_safe(led: &mut PinHandle, port: &mut Port)
    ensures
        *final(led) == *old(led),
        final(port)@ == old(port)@ + blink_pattern(old(led).pin_spec()),
{
    let ghost pin = led.pin_spec();
    let mut i: u32 = 0;
    while i < BLINK_COUNT
        invariant
            i <= BLINK_COUNT,
            led.pin_spec() == pin,
            *led == *old(led),
            port@ == old(port)@ + flashes(pin, i as nat),
        decreases BLINK_COUNT - i,
    {
        let ghost before = port@;
        led.digital_write(port, true);
        port.delay(BLINK_HALF_PERIOD_MS);
        led.digital_write(port, false);
        port.delay(BLINK_HALF_PERIOD_MS);
        assert(port@ =~= before + flash(pin));
        i = i + 1;
        assert(flashes(pin, i as nat) == flashes(pin, (i - 1) as nat) + flash(pin));
        assert(port@ =~= old(port)@ + flashes(pin, i as nat));
    }
    assert(port@ == old(port)@ + blink_pattern(pin));
}

/// Blinks the onboard LED [`BLINK_COUNT`] times by addressing its pin
/// number directly, without holding a handle for it.
pub fn blink_unsafe(port: &mut Port)
    ensures
        final(port)@ == old(port)@ + blink_pattern(LED_PIN),
{
    let mut i: u32 = 0;
    while i < BLINK_COUNT
        invariant
            i <= BLINK_COUNT,
            port@ == old(port)@ + flashes(LED_PIN, i as nat),
        decreases BLINK_COUNT - i,
    {
        let ghost before = port@;
        port.issue(PortCommand::Write(LED_PIN, true));
        port.delay(BLINK_HALF_PERIOD_MS);
        port.issue(PortCommand::Write(LED_PIN, false));
        port.delay(BLINK_HALF_PERIOD_MS);
        assert(port@ =~= before + flash(LED_PIN));
        i = i + 1;
        assert(flashes(LED_PIN, i as nat) == flashes(LED_PIN, (i - 1) as nat) + flash(LED_PIN));
        assert(port@ =~= old(port)@ + flashes(LED_PIN, i as nat));
    }
}

} // verus!
