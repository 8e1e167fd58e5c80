//! What a channel needs around its registers: the peripheral's shared clock,
//! and the pin that carries the analog output.
//!
//! The clock is reference-counted. Every live channel holds one claim on it;
//! the peripheral is clocked while at least one claim is held.

use vstd::prelude::*;

verus! {

/// The largest number of claims that can be held on one clock.
pub const MAX_CLAIMS: u32 = 0xffff_ffff;

/// The claim count after one more claim.
pub open spec fn claimed(claims: nat) -> nat {
    claims + 1
}

/// The claim count after one claim was given back. Giving back a claim that
/// was never made changes nothing.
pub open spec fn released(claims: nat) -> nat {
    if claims > 0 {
        (claims - 1) as nat
    } else {
        0
    }
}

/// Whether a peripheral with this many claims on its clock is clocked.
pub open spec fn clocked(claims: nat) -> bool {
    claims > 0
}

/// A converter instance: the owner of the clock that its channels share.
pub trait Instance {
    /// Number of claims currently held on the clock.
    spec fn claims(&self) -> nat;

    /// Claim the clock; the first claim switches it on and resets the
    /// peripheral.
    fn enable_and_reset(&mut self)
        requires
            old(self).claims() < MAX_CLAIMS,
        ensures
            final(self).claims() == claimed(old(self).claims()),
    ;

    /// Give a claim back; the last one switches the clock off.
    fn disable(&mut self)
        ensures
            final(self).claims() == released(old(self).claims()),
    ;

    /// Whether `n` more claims fit in the count.
    fn can_claim(&self, n: u32) -> (ok: bool)
        ensures
            ok == (self.claims() + n <= MAX_CLAIMS),
    ;

    /// Whether the peripheral is clocked.
    fn is_enabled(&self) -> (on: bool)
        ensures
            on == clocked(self.claims()),
    ;
}

/// Marks a pin that can carry the output of channel `C` of instance `T`.
pub trait DacPin<T: Instance, const C: u8> {
    /// Whether the pin is in analog mode.
    spec fn is_analog(&self) -> bool;

    /// Switch the pin to analog mode.
    fn set_as_analog(&mut self)
        ensures
            final(self).is_analog(),
    ;
}

/// A converter peripheral that keeps its claim count in memory.
#[derive(Debug)]
pub struct Peripheral {
    claims: u32,
}

impl Peripheral {
    /// A peripheral that nobody has claimed: its clock is off.
    pub fn new() -> (peri: Peripheral)
        ensures
            peri.claims() == 0,
    {
        Peripheral { claims: 0 }
    }

    /// Number of claims currently held.
    pub fn live_claims(&self) -> (n: u32)
        ensures
            n == self.claims(),
    {
        self.claims
    }
}

impl Instance for Peripheral {
    closed spec fn claims(&self) -> nat {
        self.claims as nat
    }

    fn enable_and_reset(&mut self) {
        self.claims = self.claims + 1;
    }

    fn disable(&mut self) {
        if self.claims > 0 {
            self.claims = self.claims - 1;
        }
    }

    fn can_claim(&self, n: u32) -> (ok: bool) {
        n <= MAX_CLAIMS - self.claims
    }

    fn is_enabled(&self) -> (on: bool) {
        self.claims > 0
    }
}

/// The mode of a general-purpose pin.
#[derive(Debug, Copy, Clone, PartialEq, Eq, Structural)]
pub enum PinMode {
    /// Digital input, the mode after reset.
    Input,
    /// Analog: the digital stages are disconnected.
    Analog,
}

/// The pin wired to the output of channel `C` of a [`Peripheral`].
#[derive(Debug)]
pub struct OutputPin<const C: u8> {
    mode: PinMode,
}

impl<const C: u8> OutputPin<C> {
    /// The mode the pin is in.
    pub closed spec fn mode_spec(&self) -> PinMode {
        self.mode
    }

    /// A pin as it is after reset.
    pub fn new() -> (pin: Self)
        ensures
            pin.mode_spec() == PinMode::Input,
    {
        OutputPin { mode: PinMode::Input }
    }

    /// The mode the pin is in.
    pub fn mode(&self) -> (mode: PinMode)
        ensures
            mode == self.mode_spec(),
    {
        self.mode
    }
}

impl DacPin<Peripheral, 1> for OutputPin<1> {
    open spec fn is_analog(&self) -> bool {
        self.mode_spec() == PinMode::Analog
    }

    fn set_as_analog(&mut self) {
        self.mode = PinMode::Analog;
    }
}

impl DacPin<Peripheral, 2> for OutputPin<2> {
    open spec fn is_analog(&self) -> bool {
        self.mode_spec() == PinMode::Analog
    }

    fn set_as_analog(&mut self) {
        self.mode = PinMode::Analog;
    }
}

} // verus!
