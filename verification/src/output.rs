//! The pin handle that is locked to output mode.

use vstd::prelude::*;
use crate::flex::Flex;
use crate::level::Level;
use crate::mode::{Mode, OutputDrive};
use crate::pin::{AnyPin, Pin};
use crate::registers::Gpio;
use crate::sequences::Sequence;

verus! {

/// GPIO output driver.
///
/// An `Output` is a [`Flex`] that was given its first level and put into
/// output mode when it was made, and offers no way out of it: it writes and
/// reads back the output latch, and that is all. Nothing is written to the
/// registers when an `Output` goes out of scope; the pin keeps driving.
pub struct Output<T: Pin> {
    pub(crate) pin: Flex<T>,
}

impl<T: Pin> Output<T> {
    /// The identity of the pin that the handle owns.
    pub closed spec fn identity(&self) -> u8 {
        self.pin.identity()
    }

    /// The mode that the handle selected when it was made.
    pub closed spec fn mode(&self) -> Mode {
        self.pin.mode()
    }

    /// Takes the pin, puts its latch at `initial_output` and only then makes
    /// it an output with the given drive, so that the pin never drives a
    /// level that was not asked for.
    #[inline]
    pub fn new(pin: T, regs: &mut Gpio, initial_output: Level, drive: OutputDrive) -> (output:
        Self)
        ensures
            output.identity() == pin.identity(),
            output.mode() == Mode::Output(drive),
            final(regs)@ == old(regs)@.latched(pin.identity(), initial_output).ran(
                pin.identity(),
                Sequence::Output(drive),
            ),
            final(regs)@.unpacked() == old(regs)@.unpacked().latched(
                pin.identity(),
                initial_output,
            ).output_mode(pin.identity(), drive),
            final(regs)@.pin(pin.identity()).mode() == Some(Mode::Output(drive)),
            final(regs)@.pin(pin.identity()).latch == initial_output,
    {
        let mut pin = Flex::new(pin);
        match initial_output {
            Level::High => pin.set_high(regs),
            Level::Low => pin.set_low(regs),
        }
        pin.set_as_output(regs, drive);
        Output { pin }
    }

    /// Gives up the pin's type. Identity and mode are kept, and no register
    /// is touched: the pin goes on driving what it drove.
    #[inline]
    pub fn degrade(self) -> (output: Output<AnyPin>)
        ensures
            output.identity() == self.identity(),
            output.mode() == self.mode(),
    {
        Output { pin: self.pin.degrade() }
    }

    /// Set the output as high.
    #[inline]
    pub fn set_high(&mut self, regs: &mut Gpio)
        ensures
            final(regs)@ == old(regs)@.latched(old(self).identity(), Level::High),
            final(regs)@.unpacked() == old(regs)@.unpacked().latched(
                old(self).identity(),
                Level::High,
            ),
            final(regs)@.pin(old(self).identity()).latch == Level::High,
            *final(self) == *old(self),
    {
        self.pin.set_high(regs);
    }

    /// Set the output as low.
    #[inline]
    pub fn set_low(&mut self, regs: &mut Gpio)
        ensures
            final(regs)@ == old(regs)@.latched(old(self).identity(), Level::Low),
            final(regs)@.unpacked() == old(regs)@.unpacked().latched(
                old(self).identity(),
                Level::Low,
            ),
            final(regs)@.pin(old(self).identity()).latch == Level::Low,
            *final(self) == *old(self),
    {
        self.pin.set_low(regs);
    }

    /// Set the output level.
    #[inline]
    pub fn set_level(&mut self, regs: &mut Gpio, level: Level)
        ensures
            final(regs)@ == old(regs)@.latched(old(self).identity(), level),
            final(regs)@.unpacked() == old(regs)@.unpacked().latched(old(self).identity(), level),
            final(regs)@.pin(old(self).identity()).latch == level,
            *final(self) == *old(self),
    {
        self.pin.set_level(regs, level)
    }

    /// Is the output pin set as high?
    #[inline]
    pub fn is_set_high(&self, regs: &Gpio) -> (high: bool)
        ensures
            high == (regs@.pin(self.identity()).latch == Level::High),
    {
        self.pin.is_set_high(regs)
    }

    /// Is the output pin set as low?
    #[inline]
    pub fn is_set_low(&self, regs: &Gpio) -> (low: bool)
        ensures
            low == (regs@.pin(self.identity()).latch == Level::Low),
    {
        self.pin.is_set_low(regs)
    }

    /// What level output is set to
    #[inline]
    pub fn get_output_level(&self, regs: &Gpio) -> (level: Level)
        ensures
            level == regs@.pin(self.identity()).latch,
    {
        self.pin.get_output_level(regs)
    }

    /// Toggle pin output: read the latch, then write the opposite level.
    #[inline]
    pub fn toggle(&mut self, regs: &mut Gpio)
        ensures
            final(regs)@ == old(regs)@.toggled(old(self).identity()),
            final(regs)@.unpacked() == old(regs)@.unpacked().latched(
                old(self).identity(),
                old(regs)@.pin(old(self).identity()).latch.inverted(),
            ),
            final(regs)@.pin(old(self).identity()).latch == old(regs)@.pin(
                old(self).identity(),
            ).latch.inverted(),
            *final(self) == *old(self),
    {
        self.pin.toggle(regs);
    }
}

} // verus!
