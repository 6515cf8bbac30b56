//! The pin handle that is locked to input mode.

use vstd::prelude::*;
use crate::flex::Flex;
use crate::identity::remapped;
use crate::level::Level;
use crate::mode::{Mode, Pull};
use crate::pin::{AnyPin, Pin};
use crate::registers::Gpio;
use crate::sequences::Sequence;
use crate::trigger::InterruptTrigger;
use crate::view::line_key;

verus! {

/// GPIO input driver.
///
/// An `Input` is a [`Flex`] that was put into input mode when it was made and
/// offers no way out of it: it reads the pin and manages the pin's
/// interrupt, and that is all.
pub struct Input<T: Pin> {
    pub(crate) pin: Flex<T>,
}

impl<T: Pin> Input<T> {
    /// The identity of the pin that the handle owns.
    pub closed spec fn identity(&self) -> u8 {
        self.pin.identity()
    }

    /// The mode that the handle selected when it was made.
    pub closed spec fn mode(&self) -> Mode {
        self.pin.mode()
    }

    /// Takes the pin and puts it into input mode with the given pull.
    #[inline]
    pub fn new(pin: T, regs: &mut Gpio, pull: Pull) -> (input: Self)
        ensures
            input.identity() == pin.identity(),
            input.mode() == Mode::Input(pull),
            final(regs)@ == old(regs)@.ran(pin.identity(), Sequence::Input(pull)),
            final(regs)@.unpacked() == old(regs)@.unpacked().input_mode(pin.identity(), pull),
            final(regs)@.pin(pin.identity()).mode() == Some(Mode::Input(pull)),
    {
        let mut pin = Flex::new(pin);
        pin.set_as_input(regs, pull);
        Input { pin }
    }

    /// Gives up the pin's type. Identity and mode are kept, and no register
    /// is touched.
    #[inline]
    pub fn degrade(self) -> (input: Input<AnyPin>)
        ensures
            input.identity() == self.identity(),
            input.mode() == self.mode(),
    {
        Input { pin: self.pin.degrade() }
    }

    /// Is the level on the pin high?
    #[inline]
    pub fn is_high(&self, regs: &Gpio) -> (high: bool)
        ensures
            high == (regs@.pin(self.identity()).input == Level::High),
    {
        self.pin.is_high(regs)
    }

    /// Is the level on the pin low?
    #[inline]
    pub fn is_low(&self, regs: &Gpio) -> (low: bool)
        ensures
            low == (regs@.pin(self.identity()).input == Level::Low),
    {
        self.pin.is_low(regs)
    }

    /// The level on the pin.
    #[inline]
    pub fn get_level(&self, regs: &Gpio) -> (level: Level)
        ensures
            level == regs@.pin(self.identity()).input,
    {
        self.pin.get_level(regs)
    }

    /// Masks the pin's interrupt. See [`Flex::disable_interrupt`].
    #[inline]
    pub fn disable_interrupt(&mut self, regs: &mut Gpio)
        ensures
            final(regs)@ == old(regs)@.ran(old(self).identity(), Sequence::DisableInterrupt),
            final(regs)@.unpacked() == old(regs)@.unpacked().interrupt_disabled(
                old(self).identity(),
            ),
            !final(regs)@.line(line_key(old(self).identity())).enabled,
            remapped(old(self).identity()) ==> final(regs)@.ctl.intx,
            *final(self) == *old(self),
    {
        self.pin.disable_interrupt(regs);
    }

    /// Selects what raises the pin's interrupt. See [`Flex::set_trigger`].
    #[inline]
    pub fn set_trigger(&mut self, regs: &mut Gpio, trigger: InterruptTrigger)
        ensures
            final(regs)@ == old(regs)@.ran(old(self).identity(), Sequence::Trigger(trigger)),
            final(regs)@.unpacked() == old(regs)@.unpacked().trigger_selected(
                old(self).identity(),
                trigger,
            ),
            final(regs)@.trigger(old(self).identity()) == trigger,
            remapped(old(self).identity()) ==> final(regs)@.ctl.intx,
            *final(self) == *old(self),
    {
        self.pin.set_trigger(regs, trigger);
    }

    /// Unmasks the pin's interrupt, dropping a stale pending flag first. See
    /// [`Flex::enable_interrupt`].
    #[inline]
    pub fn enable_interrupt(&mut self, regs: &mut Gpio)
        ensures
            final(regs)@ == old(regs)@.ran(old(self).identity(), Sequence::EnableInterrupt),
            final(regs)@.unpacked() == old(regs)@.unpacked().interrupt_enabled(
                old(self).identity(),
            ),
            final(regs)@.line(line_key(old(self).identity())).enabled,
            !final(regs)@.line(line_key(old(self).identity())).pending,
            remapped(old(self).identity()) ==> final(regs)@.ctl.intx,
            *final(self) == *old(self),
    {
        self.pin.enable_interrupt(regs);
    }

    /// Drops the pending flag of the pin's interrupt. See
    /// [`Flex::clear_interrupt`].
    #[inline]
    pub fn clear_interrupt(&mut self, regs: &mut Gpio)
        ensures
            final(regs)@ == old(regs)@.ran(old(self).identity(), Sequence::ClearInterrupt),
            final(regs)@.unpacked() == old(regs)@.unpacked().interrupt_cleared(
                old(self).identity(),
            ),
            !final(regs)@.line(line_key(old(self).identity())).pending,
            remapped(old(self).identity()) ==> final(regs)@.ctl.intx,
            *final(self) == *old(self),
    {
        self.pin.clear_interrupt(regs);
    }
}

} // verus!
