//! The internal capability of a pin.
//!
//! A pin type only has to say what its identity is. Everything else (its
//! index, its port, its register block and the primitive bit operations on its
//! configuration and latch) is derived from the identity here. Drivers of
//! other peripherals use these primitives to claim a pin; applications use the
//! handles built on top of them.

use vstd::prelude::*;
use crate::bits::WORD_BITS;
use crate::identity::{index_of, pin_index, port_number, port_of, valid, PORTS};
use crate::level::Level;
use crate::mode::{OutputDrive, Pull};
use crate::registers::{Gpio, Register, RegisterBlock};
use crate::sequences::{
    lemma_drive_selected,
    lemma_floated,
    lemma_input_mode,
    lemma_latched,
    lemma_pulled_up,
    lemma_weak_output,
};

verus! {

/// What every pin type provides, and what follows from it.
///
/// An implementation gives the identity; the other methods are derived and
/// need not be written again. None of them checks anything at run time: that
/// the identity names an existing pin is part of what `pin_port` promises.
pub trait Pin {
    /// The identity of the pin, `port * 32 + index`.
    spec fn identity(&self) -> u8;

    /// The identity of the pin. It always names a pin of port 0 or port 1.
    fn pin_port(&self) -> (id: u8)
        ensures
            id == self.identity(),
            valid(id),
    ;

    /// Number of the pin within its port.
    #[inline]
    fn _pin(&self) -> (n: u8)
        ensures
            n == index_of(self.identity()),
            n < WORD_BITS,
            valid(self.identity()),
    {
        pin_index(self.pin_port())
    }

    /// Port of the pin.
    #[inline]
    fn _port(&self) -> (port: u8)
        ensures
            port == port_of(self.identity()),
            port < PORTS,
            valid(self.identity()),
    {
        port_number(self.pin_port())
    }

    /// The register block of the pin's port.
    #[inline]
    fn block<'a>(&self, regs: &'a Gpio) -> (block: &'a RegisterBlock)
        ensures
            *block == regs@.bank(port_of(self.identity())),
    {
        regs.block(self._port())
    }

    /// Set the output as high.
    #[inline]
    fn set_high(&self, regs: &mut Gpio)
        ensures
            final(regs)@ == old(regs)@.latched(self.identity(), Level::High),
            final(regs)@.unpacked() == old(regs)@.unpacked().latched(self.identity(), Level::High),
            final(regs)@.pin(self.identity()).latch == Level::High,
    {
        let port: u8 = self._port();
        let n: u8 = self._pin();
        proof {
            lemma_latched(regs@, self.identity(), Level::High);
        }
        regs.set_bit(port, Register::Out, n);
        assert(regs@.pin(self.identity()) == regs@.unpacked().pins[self.identity()]);
    }

    /// Set the output as low.
    #[inline]
    fn set_low(&self, regs: &mut Gpio)
        ensures
            final(regs)@ == old(regs)@.latched(self.identity(), Level::Low),
            final(regs)@.unpacked() == old(regs)@.unpacked().latched(self.identity(), Level::Low),
            final(regs)@.pin(self.identity()).latch == Level::Low,
    {
        let port: u8 = self._port();
        let n: u8 = self._pin();
        proof {
            lemma_latched(regs@, self.identity(), Level::Low);
        }
        regs.set_bit(port, Register::Clr, n);
        assert(regs@.pin(self.identity()) == regs@.unpacked().pins[self.identity()]);
    }

    /// Make the pin a floating input, as an analog function needs it:
    /// pull-down, pull-up and direction are cleared in this order.
    #[inline]
    fn set_as_analog(&self, regs: &mut Gpio)
        ensures
            final(regs)@ == old(regs)@.input_mode(self.identity(), Pull::Floating),
            final(regs)@.unpacked() == old(regs)@.unpacked().input_mode(
                self.identity(),
                Pull::Floating,
            ),
    {
        let port: u8 = self._port();
        let n: u8 = self._pin();
        proof {
            lemma_input_mode(regs@, self.identity(), Pull::Floating);
        }
        regs.clear_bit(port, Register::PdDrv, n);
        regs.clear_bit(port, Register::Pu, n);
        regs.clear_bit(port, Register::Dir, n);
    }

    /// Make the pin an output of the weak drive, for a peripheral function.
    /// The pull-up bit is left as it is.
    #[inline]
    fn set_as_output_with_drive_low(&self, regs: &mut Gpio)
        ensures
            final(regs)@ == old(regs)@.weak_output(self.identity()),
            final(regs)@.unpacked() == old(regs)@.unpacked().weak_output(self.identity()),
    {
        let port: u8 = self._port();
        let n: u8 = self._pin();
        proof {
            lemma_weak_output(regs@, self.identity());
        }
        regs.set_bit(port, Register::Dir, n);
        regs.clear_bit(port, Register::PdDrv, n);
    }

    /// Make the pin a floating input: direction, pull-up and pull-down are
    /// cleared in this order.
    #[inline]
    fn set_as_input(&self, regs: &mut Gpio)
        ensures
            final(regs)@ == old(regs)@.floated(self.identity()),
            final(regs)@.unpacked() == old(regs)@.unpacked().input_mode(
                self.identity(),
                Pull::Floating,
            ),
    {
        let port: u8 = self._port();
        let n: u8 = self._pin();
        proof {
            lemma_floated(regs@, self.identity());
        }
        regs.clear_bit(port, Register::Dir, n);
        regs.clear_bit(port, Register::Pu, n);
        regs.clear_bit(port, Register::PdDrv, n);
    }

    /// Switch the pull-up on and the pull-down off. The direction is left as
    /// it is.
    #[inline]
    fn set_pullup(&self, regs: &mut Gpio)
        ensures
            final(regs)@ == old(regs)@.pulled_up(self.identity()),
            final(regs)@.unpacked() == old(regs)@.unpacked().pulled_up(self.identity()),
    {
        let port: u8 = self._port();
        let n: u8 = self._pin();
        proof {
            lemma_pulled_up(regs@, self.identity());
        }
        regs.set_bit(port, Register::Pu, n);
        regs.clear_bit(port, Register::PdDrv, n);
    }

    /// Write the drive strength bit. Nothing else of the pin is touched.
    #[inline]
    fn set_drive(&self, regs: &mut Gpio, drive: OutputDrive)
        ensures
            final(regs)@ == old(regs)@.drive_selected(self.identity(), drive),
            final(regs)@.unpacked() == old(regs)@.unpacked().drive_selected(self.identity(), drive),
    {
        let port: u8 = self._port();
        let n: u8 = self._pin();
        proof {
            lemma_drive_selected(regs@, self.identity(), drive);
        }
        match drive {
            OutputDrive::Low => {
                regs.clear_bit(port, Register::PdDrv, n);
            },
            OutputDrive::High => {
                regs.set_bit(port, Register::PdDrv, n);
            },
        }
    }
}

} // verus!
