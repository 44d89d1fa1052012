use vstd::prelude::*;
use crate::port::{Port, PortCommand};

verus! {

/// Number of digital pins on the board; valid pin ids are `0..PIN_COUNT`.
pub const PIN_COUNT: u8 = 34;

/// The pin wired to the onboard LED.
pub const LED_PIN: u8 = 13;

/// Why a registry operation was refused.
#[derive(Debug, Clone, Copy, PartialEq, Eq, Structural)]
pub enum PinError {
    /// The pin id is not below [`PIN_COUNT`].
    InvalidPin,
    /// A live handle for the pin exists already.
    AlreadyClaimed,
    /// The registry was created before in this run.
    AlreadyInitialized,
}

/// What `claim_pin` returns on a registry whose claimed pins are `claimed`:
/// the pin itself on success.
pub open spec fn claim_outcome(claimed: Set<u8>, pin: u8) -> Result<u8, PinError> {
    if pin >= PIN_COUNT {
        Err(PinError::InvalidPin)
    } else if claimed.contains(pin) {
        Err(PinError::AlreadyClaimed)
    } else {
        Ok(pin)
    }
}

/// The claimed pins after `claim_pin`.
pub open spec fn claim_effect(claimed: Set<u8>, pin: u8) -> Set<u8> {
    if claim_outcome(claimed, pin) is Ok {
        claimed.insert(pin)
    } else {
        claimed
    }
}

/// The peripheral commands that `claim_pin` issues: the pin is put into
/// output mode when, and only when, the claim succeeds.
pub open spec fn claim_commands(claimed: Set<u8>, pin: u8) -> Seq<PortCommand> {
    if claim_outcome(claimed, pin) is Ok {
        seq![PortCommand::SetOutput(pin)]
    } else {
        Seq::empty()
    }
}

/// The claimed pins after the handle for `pin` is released.
pub open spec fn release_effect(claimed: Set<u8>, pin: u8) -> Set<u8> {
    claimed.remove(pin)
}

/// What `initialize_once` returns, given whether it ran before: the claimed
/// pins of the new registry on success.
pub open spec fn initialize_outcome(initialized: bool) -> Result<Set<u8>, PinError> {
    if initialized {
        Err(PinError::AlreadyInitialized)
    } else {
        Ok(Set::empty())
    }
}

/// Exclusive, configured access to one pin. It cannot be copied or cloned,
/// and only a [`PinRegistry`] makes one.
pub struct PinHandle {
    pin: u8,
}

impl PinHandle {
    /// The pin this handle owns.
    pub closed spec fn pin_spec(&self) -> u8 {
        self.pin
    }

    pub closed spec fn wf(&self) -> bool {
        self.pin < PIN_COUNT
    }

    pub fn pin(&self) -> (r: u8)
        ensures
            r == self.pin_spec(),
    {
        self.pin
    }

    /// Drives the pin high (`true`) or low (`false`).
    pub fn digital_write(&mut self, port: &mut Port, level: bool)
        ensures
            *final(self) == *old(self),
            final(port)@ == old(port)@.push(PortCommand::Write(old(self).pin_spec(), level)),
    {
        port.issue(PortCommand::Write(self.pin, level));
    }
}

/// Guards the creation of the process's one [`PinRegistry`].
pub struct Startup {
    initialized: bool,
}

impl Startup {
    /// Whether `initialize_once` has been called.
    pub closed spec fn is_initialized(&self) -> bool {
        self.initialized
    }

    pub fn new() -> (r: Startup)
        ensures
            !r.is_initialized(),
    {
        Startup { initialized: false }
    }

    /// Creates the registry, with every pin free. Only the first call
    /// succeeds; any later one is a programming error and returns
    /// `AlreadyInitialized`.
    pub fn initialize_once(&mut self) -> (r: Result<PinRegistry, PinError>)
        ensures
            final(self).is_initialized(),
            match r {
                Ok(reg) => reg.wf() && initialize_outcome(old(self).is_initialized()) == Ok::<
                    Set<u8>,
                    PinError,
                >(reg@),
                Err(e) => initialize_outcome(old(self).is_initialized()) == Err::<Set<u8>, PinError>(
                    e,
                ),
            },
    {
        if self.initialized {
            Err(PinError::AlreadyInitialized)
        } else {
            self.initialized = true;
            let reg = PinRegistry { claimed: vec![false; PIN_COUNT as usize] };
            assert(reg@ =~= Set::<u8>::empty());
            Ok(reg)
        }
    }
}

/// Tracks which pins have a live handle.
pub struct PinRegistry {
    claimed: Vec<bool>,
}

impl View for PinRegistry {
    type V = Set<u8>;

    /// The pins that are claimed.
    closed spec fn view(&self) -> Set<u8> {
        Set::new(|p: u8| p < PIN_COUNT && self.claimed@[p as int])
    }
}

impl PinRegistry {
    pub closed spec fn wf(&self) -> bool {
        self.claimed@.len() == PIN_COUNT as int
    }

    /// Every claimed pin is a valid pin.
    pub proof fn lemma_claimed_valid(&self, pin: u8)
        requires
            self@.contains(pin),
        ensures
            pin < PIN_COUNT,
    {
    }

    /// Whether `pin` has a live handle.
    pub fn is_claimed(&self, pin: u8) -> (r: bool)
        requires
            self.wf(),
        ensures
            r == self@.contains(pin),
    {
        pin < PIN_COUNT && self.claimed[pin as usize]
    }

    /// Hands out the handle for `pin` and puts the pin into output mode.
    /// Fails with `InvalidPin` for an id out of range and with
    /// `AlreadyClaimed` while another handle for the pin is alive; a refused
    /// claim changes nothing and issues no command.
    pub fn claim_pin(&mut self, port: &mut Port, pin: u8) -> (r: Result<PinHandle, PinError>)
        requires
            old(self).wf(),
        ensures
            final(self).wf(),
            final(self)@ == claim_effect(old(self)@, pin),
            final(port)@ == old(port)@ + claim_commands(old(self)@, pin),
            match r {
                Ok(h) => h.wf() && claim_outcome(old(self)@, pin) == Ok::<u8, PinError>(h.pin_spec()),
                Err(e) => claim_outcome(old(self)@, pin) == Err::<u8, PinError>(e),
            },
    {
        if pin >= PIN_COUNT {
            assert(claim_commands(old(self)@, pin) =~= Seq::<PortCommand>::empty());
            return Err(PinError::InvalidPin);
        }
        if self.claimed[pin as usize] {
            assert(claim_commands(old(self)@, pin) =~= Seq::<PortCommand>::empty());
            return Err(PinError::AlreadyClaimed);
        }
        self.claimed.set(pin as usize, true);
        assert(self@ =~= old(self)@.insert(pin));
        port.issue(PortCommand::SetOutput(pin));
        assert(final(port)@ =~= old(port)@ + claim_commands(old(self)@, pin));
        Ok(PinHandle { pin })
    }

    /// Gives up the handle, leaving its pin free to be claimed again.
    pub fn release_pin(&mut self, handle: PinHandle)
        requires
            old(self).wf(),
            handle.wf(),
        ensures
            final(self).wf(),
            final(self)@ == release_effect(old(self)@, handle.pin_spec()),
    {
        self.claimed.set(handle.pin as usize, false);
        assert(self@ =~= old(self)@.remove(handle.pin));
    }
}

/// A claim on a pin that has a live handle is refused with `AlreadyClaimed`,
/// leaves the registry as it was, and issues no command to the hardware.
pub proof fn lemma_claimed_pin_is_refused(reg: PinRegistry, pin: u8)
    requires
        reg.wf(),
        reg@.contains(pin),
    ensures
        claim_outcome(reg@, pin) == Err::<u8, PinError>(PinError::AlreadyClaimed),
        claim_effect(reg@, pin) == reg@,
        claim_commands(reg@, pin) == Seq::<PortCommand>::empty(),
{
    reg.lemma_claimed_valid(pin);
}

/// Creating the registry succeeds on the first call, with every pin free, and
/// fails with `AlreadyInitialized` on the second.
pub proof fn lemma_initialize_once_is_one_shot(startup: Startup)
    requires
        !startup.is_initialized(),
    ensures
        initialize_outcome(startup.is_initialized()) == Ok::<Set<u8>, PinError>(Set::empty()),
        initialize_outcome(true) == Err::<Set<u8>, PinError>(PinError::AlreadyInitialized),
{
}

/// Once the handle for a valid pin is released, claiming that pin again
/// succeeds, whatever else is claimed.
pub proof fn lemma_release_then_claim(reg: PinRegistry, pin: u8)
    requires
        reg.wf(),
        pin < PIN_COUNT,
    ensures
        claim_outcome(release_effect(reg@, pin), pin) == Ok::<u8, PinError>(pin),
        claim_effect(release_effect(reg@, pin), pin) == reg@.insert(pin),
{
    assert(release_effect(reg@, pin).insert(pin) =~= reg@.insert(pin));
}

} // verus!
