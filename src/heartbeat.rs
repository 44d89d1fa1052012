use vstd::prelude::*;
use crate::blink::{blink_pattern, blink_safe};
use crate::pins::PinHandle;
use crate::port::{Port, PortCommand};

verus! {

/// Pause at the end of every iteration, in milliseconds.
pub const LOOP_DELAY_MS: u32 = 2000;

/// The ASCII decimal digits of `n`, most significant first, without leading zeros.
pub open spec fn decimal(n: nat) -> Seq<u8>
    decreases n,
{
    if n < 10 {
        seq![(48 + n) as u8]
    } else {
        decimal(n / 10).push((48 + n % 10) as u8)
    }
}

/// `Hello! Count: ` in ASCII.
pub open spec fn status_prefix() -> Seq<u8> {
    seq![72u8, 101, 108, 108, 111, 33, 32, 67, 111, 117, 110, 116, 58, 32]
}

/// The line end that the serial console expects, `\n\r`.
pub open spec fn line_end() -> Seq<u8> {
    seq![10u8, 13]
}

/// The status line sent for counter value `count`.
pub open spec fn status_line(count: u32) -> Seq<u8> {
    status_prefix() + decimal(count as nat) + line_end()
}

/// Appends the decimal digits of `n` to `out`.
pub fn push_decimal(n: u32, out: &mut Vec<u8>)
    ensures
        final(out)@ == old(out)@ + decimal(n as nat),
    decreases n,
{
    if n >= 10 {
        push_decimal(n / 10, out);
    }
    out.push(48u8 + (n % 10) as u8);
    assert(final(out)@ =~= old(out)@ + decimal(n as nat));
}

/// The bytes of the status line for counter value `count`.
pub fn format_status_line(count: u32) -> (r: Vec<u8>)
    ensures
        r@ == status_line(count),
{
    let prefix: [u8; 14] = [72u8, 101, 108, 108, 111, 33, 32, 67, 111, 117, 110, 116, 58, 32];
    assert(prefix@ == status_prefix());
    let mut out: Vec<u8> = Vec::new();
    let mut i: usize = 0;
    while i < 14
        invariant
            i <= 14,
            prefix@ == status_prefix(),
            out@ == status_prefix().subrange(0, i as int),
        decreases 14 - i,
    {
        out.push(prefix[i]);
        i = i + 1;
        assert(out@ =~= status_prefix().subrange(0, i as int));
    }
    assert(out@ =~= status_prefix());
    push_decimal(count, &mut out);
    out.push(10u8);
    out.push(13u8);
    assert(out@ =~= status_line(count));
    out
}

/// The serial link refused a write.
#[derive(Debug, Clone, Copy, PartialEq, Eq, Structural)]
pub struct SerialError;

/// What the firmware must still do once an iteration is complete.
#[derive(Debug, Clone, Copy, PartialEq, Eq, Structural)]
pub enum IterationOutcome {
    /// The status line went out; nothing more to do.
    Reported,
    /// The status line was lost; log it locally and carry on.
    SerialFailed,
}

/// The counter value after `count`: one more, wrapping from `u32::MAX` to 0.
pub open spec fn next_count(count: u32) -> u32 {
    if count == u32::MAX {
        0
    } else {
        (count + 1) as u32
    }
}

/// The counter value after `n` iterations from a fresh heartbeat.
pub open spec fn count_after(n: nat) -> u32
    decreases n,
{
    if n == 0 {
        0
    } else {
        next_count(count_after((n - 1) as nat))
    }
}

/// The peripheral commands of the second half of an iteration: a blink
/// pattern on `pin`, then the loop pause.
pub open spec fn iteration_commands(pin: u8) -> Seq<PortCommand> {
    blink_pattern(pin).push(PortCommand::Delay(LOOP_DELAY_MS))
}

/// The state of the liveness loop: the value the next status line reports.
///
/// One iteration is: send `status_line()` over the serial link, then hand
/// the result to `complete_iteration`, which counts, blinks and pauses.
pub struct Heartbeat {
    count: u32,
}

impl Heartbeat {
    pub closed spec fn count_spec(&self) -> u32 {
        self.count
    }

    pub fn new() -> (r: Heartbeat)
        ensures
            r.count_spec() == 0,
    {
        Heartbeat { count: 0 }
    }

    pub fn count(&self) -> (r: u32)
        ensures
            r == self.count_spec(),
    {
        self.count
    }

    /// The line to send in this iteration.
    pub fn status_line(&self) -> (r: Vec<u8>)
        ensures
            r@ == status_line(self.count_spec()),
    {
        format_status_line(self.count)
    }

    /// Finishes the iteration whose status line was sent with result `sent`:
    /// the counter moves on by one and the LED blinks whether or not the
    /// line went out, and the loop pause follows.
    pub fn complete_iteration(
        &mut self,
        sent: Result<(), SerialError>,
        led: &mut PinHandle,
        port: &mut Port,
    ) -> (r: IterationOutcome)
        ensures
            final(self).count_spec() == next_count(old(self).count_spec()),
            *final(led) == *old(led),
            final(port)@ == old(port)@ + iteration_commands(old(led).pin_spec()),
            r == (if sent is Ok {
                IterationOutcome::Reported
            } else {
                IterationOutcome::SerialFailed
            }),
    {
        self.count = if self.count == u32::MAX {
            0
        } else {
            self.count + 1
        };
        blink_safe(led, port);
        port.delay(LOOP_DELAY_MS);
        match sent {
            Ok(()) => IterationOutcome::Reported,
            Err(_) => IterationOutcome::SerialFailed,
        }
    }
}

/// The counter takes every value in turn: after `n` iterations it is `n`
/// modulo 2^32, with no value skipped or repeated before the wrap.
pub proof fn lemma_count_after(n: nat)
    ensures
        count_after(n) as int == n % 0x1_0000_0000,
    decreases n,
{
    if n > 0 {
        lemma_count_after((n - 1) as nat);
        let m: int = 0x1_0000_0000;
        let j: int = n as int;
        let k: int = j - 1;
        assert(k % m + 1 == m ==> j % m == 0) by (nonlinear_arith)
            requires
                j == k + 1,
                m > 0,
                0 <= k,
        ;
        assert(k % m + 1 < m ==> j % m == k % m + 1) by (nonlinear_arith)
            requires
                j == k + 1,
                m > 0,
                0 <= k,
        ;
    }
}

} // verus!
