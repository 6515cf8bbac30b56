//! The pin handle whose mode can change.

use vstd::prelude::*;
use crate::identity::remapped;
use crate::level::Level;
use crate::mode::{Mode, OutputDrive, Pull};
use crate::pin::{AnyPin, Pin};
use crate::registers::Gpio;
use crate::sealed;
use crate::sequences::Sequence;
use crate::trigger::InterruptTrigger;
use crate::view::{lemma_line_key, line_key};

verus! {

/// GPIO flexible pin.
///
/// This pin can either be a disconnected, input, or output pin. The output
/// latch keeps its value while the pin is not in output mode, so the pin's
/// level is remembered across mode changes.
///
/// The handle owns the pin and knows the mode it selected last. The
/// registers are not part of the handle: every operation is given the
/// register file to work on.
pub struct Flex<T: Pin> {
    pub(crate) pin: T,
    selected: Ghost<Mode>,
}

impl<T: Pin> Flex<T> {
    /// The identity of the pin that the handle owns.
    pub closed spec fn identity(&self) -> u8 {
        self.pin.identity()
    }

    /// The mode that was selected last through this handle.
    pub closed spec fn mode(&self) -> Mode {
        self.selected@
    }

    /// Wrap the pin in a `Flex`.
    ///
    /// The pin remains disconnected: no register is touched. The output
    /// level is whatever the latch holds, and can be changed before the pin
    /// is put into output mode.
    #[inline]
    pub fn new(pin: T) -> (flex: Self)
        ensures
            flex.identity() == pin.identity(),
            flex.mode() == Mode::Disconnected,
    {
        Flex { pin, selected: Ghost(Mode::Disconnected) }
    }

    /// Gives up the pin's type. Identity and selected mode are kept, and no
    /// register is touched.
    #[inline]
    pub fn degrade(self) -> (flex: Flex<AnyPin>)
        ensures
            flex.identity() == self.identity(),
            flex.mode() == self.mode(),
    {
        let any = self.pin.degrade();
        proof {
            any.lemma_is_its_identity();
        }
        Flex { pin: any, selected: self.selected }
    }

    /// Put the pin into input mode.
    ///
    /// Afterwards the pin's direction bit reads input and its two pull bits
    /// encode `pull`. The three writes are made with interrupts masked.
    #[inline]
    pub fn set_as_input(&mut self, regs: &mut Gpio, pull: Pull)
        ensures
            final(regs)@ == old(regs)@.ran(old(self).identity(), Sequence::Input(pull)),
            final(regs)@.unpacked() == old(regs)@.unpacked().input_mode(old(self).identity(), pull),
            final(regs)@.pin(old(self).identity()).mode() == Some(Mode::Input(pull)),
            final(self).identity() == old(self).identity(),
            final(self).mode() == Mode::Input(pull),
    {
        let id: u8 = sealed::Pin::pin_port(&self.pin);
        regs.run(id, Sequence::Input(pull));
        self.selected = Ghost(Mode::Input(pull));
        assert(regs@.pin(id) == regs@.unpacked().pins[id]);
    }

    /// Put the pin into output mode.
    ///
    /// Afterwards the pin's direction bit reads output, its strength bit
    /// encodes `drive` and its pull-up is off. The pin level will be whatever
    /// the latch held before; to begin at a specific level, call
    /// `set_high`/`set_low` on the pin first. The writes are made with
    /// interrupts masked.
    #[inline]
    pub fn set_as_output(&mut self, regs: &mut Gpio, drive: OutputDrive)
        ensures
            final(regs)@ == old(regs)@.ran(old(self).identity(), Sequence::Output(drive)),
            final(regs)@.unpacked() == old(regs)@.unpacked().output_mode(
                old(self).identity(),
                drive,
            ),
            final(regs)@.pin(old(self).identity()).mode() == Some(Mode::Output(drive)),
            final(regs)@.pin(old(self).identity()).latch == old(regs)@.pin(
                old(self).identity(),
            ).latch,
            final(self).identity() == old(self).identity(),
            final(self).mode() == Mode::Output(drive),
    {
        let id: u8 = sealed::Pin::pin_port(&self.pin);
        regs.run(id, Sequence::Output(drive));
        self.selected = Ghost(Mode::Output(drive));
        assert(regs@.pin(id) == regs@.unpacked().pins[id]);
    }

    /// Masks the pin's interrupt. The enable bit is that of the pin's
    /// interrupt line; for a remapped pin the alternate selector is set
    /// first. Runs with interrupts masked.
    #[inline]
    pub fn disable_interrupt(&mut self, regs: &mut Gpio)
        ensures
            final(regs)@ == old(regs)@.ran(old(self).identity(), Sequence::DisableInterrupt),
            final(regs)@.unpacked() == old(regs)@.unpacked().interrupt_disabled(
                old(self).identity(),
            ),
            !final(regs)@.line(line_key(old(self).identity())).enabled,
            remapped(old(self).identity()) ==> final(regs)@.ctl.intx,
            *final(self) == *old(self),
    {
        let id: u8 = sealed::Pin::pin_port(&self.pin);
        proof {
            lemma_line_key(id);
        }
        regs.run(id, Sequence::DisableInterrupt);
        assert(regs@.line(line_key(id)) == regs@.unpacked().lines[line_key(id)]);
    }

    /// Selects what raises the pin's interrupt.
    ///
    /// Level or edge goes into the mode bit of the pin's interrupt line. The
    /// polarity is given by the pin's own output latch, which is therefore
    /// put low for `LowLevel` and `FallingEdge` and high for `HighLevel` and
    /// `RisingEdge`. For a remapped pin the alternate selector is set first.
    /// Runs with interrupts masked.
    #[inline]
    pub fn set_trigger(&mut self, regs: &mut Gpio, trigger: InterruptTrigger)
        ensures
            final(regs)@ == old(regs)@.ran(old(self).identity(), Sequence::Trigger(trigger)),
            final(regs)@.unpacked() == old(regs)@.unpacked().trigger_selected(
                old(self).identity(),
                trigger,
            ),
            final(regs)@.trigger(old(self).identity()) == trigger,
            remapped(old(self).identity()) ==> final(regs)@.ctl.intx,
            *final(self) == *old(self),
    {
        let id: u8 = sealed::Pin::pin_port(&self.pin);
        proof {
            lemma_line_key(id);
        }
        regs.run(id, Sequence::Trigger(trigger));
        assert(regs@.line(line_key(id)) == regs@.unpacked().lines[line_key(id)]);
        assert(regs@.pin(id) == regs@.unpacked().pins[id]);
    }

    /// Unmasks the pin's interrupt.
    ///
    /// The pending flag of the pin's line is strobed before the enable bit is
    /// set, so that a flag latched while the interrupt was masked does not
    /// fire at once. For a remapped pin the alternate selector is set first.
    /// Runs with interrupts masked.
    #[inline]
    pub fn enable_interrupt(&mut self, regs: &mut Gpio)
        ensures
            final(regs)@ == old(regs)@.ran(old(self).identity(), Sequence::EnableInterrupt),
            final(regs)@.unpacked() == old(regs)@.unpacked().interrupt_enabled(
                old(self).identity(),
            ),
            final(regs)@.line(line_key(old(self).identity())).enabled,
            !final(regs)@.line(line_key(old(self).identity())).pending,
            remapped(old(self).identity()) ==> final(regs)@.ctl.intx,
            *final(self) == *old(self),
    {
        let id: u8 = sealed::Pin::pin_port(&self.pin);
        proof {
            lemma_line_key(id);
        }
        regs.run(id, Sequence::EnableInterrupt);
        assert(regs@.line(line_key(id)) == regs@.unpacked().lines[line_key(id)]);
    }

    /// Drops the pending flag of the pin's interrupt line by writing a one to
    /// it.
    ///
    /// The strobe alone cannot disturb a concurrent write and is made as it
    /// is. A remapped pin needs the alternate selector set first, which is a
    /// read-modify-write; for such a pin the sequence runs with interrupts
    /// masked.
    #[inline]
    pub fn clear_interrupt(&mut self, regs: &mut Gpio)
        ensures
            final(regs)@ == old(regs)@.ran(old(self).identity(), Sequence::ClearInterrupt),
            final(regs)@.unpacked() == old(regs)@.unpacked().interrupt_cleared(
                old(self).identity(),
            ),
            !final(regs)@.line(line_key(old(self).identity())).pending,
            remapped(old(self).identity()) ==> final(regs)@.ctl.intx,
            *final(self) == *old(self),
    {
        let id: u8 = sealed::Pin::pin_port(&self.pin);
        proof {
            lemma_line_key(id);
        }
        regs.run(id, Sequence::ClearInterrupt);
        assert(regs@.line(line_key(id)) == regs@.unpacked().lines[line_key(id)]);
    }

    /// Is the level on the pin high?
    #[inline]
    pub fn is_high(&self, regs: &Gpio) -> (high: bool)
        ensures
            high == (regs@.pin(self.identity()).input == Level::High),
    {
        !self.is_low(regs)
    }

    /// Is the level on the pin low?
    #[inline]
    pub fn is_low(&self, regs: &Gpio) -> (low: bool)
        ensures
            low == (regs@.pin(self.identity()).input == Level::Low),
    {
        let block = sealed::Pin::block(&self.pin, regs);
        let n: u8 = self.pin.pin();
        block.pin & (1u32 << n) == 0
    }

    /// The level on the pin.
    #[inline]
    pub fn get_level(&self, regs: &Gpio) -> (level: Level)
        ensures
            level == regs@.pin(self.identity()).input,
    {
        Level::from(self.is_high(regs))
    }

    /// Is the output latch of the pin set high?
    #[inline]
    pub fn is_set_high(&self, regs: &Gpio) -> (high: bool)
        ensures
            high == (regs@.pin(self.identity()).latch == Level::High),
    {
        !self.is_set_low(regs)
    }

    /// Is the output latch of the pin set low?
    #[inline]
    pub fn is_set_low(&self, regs: &Gpio) -> (low: bool)
        ensures
            low == (regs@.pin(self.identity()).latch == Level::Low),
    {
        let block = sealed::Pin::block(&self.pin, regs);
        let mask: u32 = 1u32 << self.pin.pin();
        block.out & mask == 0
    }

    /// What level the output latch is set to.
    #[inline]
    pub fn get_output_level(&self, regs: &Gpio) -> (level: Level)
        ensures
            level == regs@.pin(self.identity()).latch,
    {
        Level::from(self.is_set_high(regs))
    }

    /// Set the output latch high.
    #[inline]
    pub fn set_high(&mut self, regs: &mut Gpio)
        ensures
            final(regs)@ == old(regs)@.latched(old(self).identity(), Level::High),
            final(regs)@.unpacked() == old(regs)@.unpacked().latched(
                old(self).identity(),
                Level::High,
            ),
            final(regs)@.pin(old(self).identity()).latch == Level::High,
            *final(self) == *old(self),
    {
        sealed::Pin::set_high(&self.pin, regs);
    }

    /// Set the output latch low.
    #[inline]
    pub fn set_low(&mut self, regs: &mut Gpio)
        ensures
            final(regs)@ == old(regs)@.latched(old(self).identity(), Level::Low),
            final(regs)@.unpacked() == old(regs)@.unpacked().latched(
                old(self).identity(),
                Level::Low,
            ),
            final(regs)@.pin(old(self).identity()).latch == Level::Low,
            *final(self) == *old(self),
    {
        sealed::Pin::set_low(&self.pin, regs);
    }

    /// Set the output latch to `level`.
    #[inline]
    pub fn set_level(&mut self, regs: &mut Gpio, level: Level)
        ensures
            final(regs)@ == old(regs)@.latched(old(self).identity(), level),
            final(regs)@.unpacked() == old(regs)@.unpacked().latched(old(self).identity(), level),
            final(regs)@.pin(old(self).identity()).latch == level,
            *final(self) == *old(self),
    {
        match level {
            Level::Low => sealed::Pin::set_low(&self.pin, regs),
            Level::High => sealed::Pin::set_high(&self.pin, regs),
        }
    }

    /// Toggle the output latch: read it, then write the opposite level.
    ///
    /// The read and the write are two register accesses. A second context
    /// that toggles the same pin in between is not excluded.
    #[inline]
    pub fn toggle(&mut self, regs: &mut Gpio)
        ensures
            final(regs)@ == old(regs)@.toggled(old(self).identity()),
            final(regs)@.unpacked() == old(regs)@.unpacked().latched(
                old(self).identity(),
                old(regs)@.pin(old(self).identity()).latch.inverted(),
            ),
            final(regs)@.pin(old(self).identity()).latch == old(regs)@.pin(
                old(self).identity(),
            ).latch.inverted(),
            *final(self) == *old(self),
    {
        if self.is_set_low(regs) {
            self.set_high(regs)
        } else {
            self.set_low(regs)
        }
    }
}

} // verus!
