//! The public capability of a pin, and the pin that has given up its type.

use vstd::prelude::*;
use crate::bits::WORD_BITS;
use crate::identity::{index_of, port_of, valid, PINS_PER_PORT, PORTS};
use crate::sealed;

verus! {

/// A GPIO pin.
///
/// Each bonded-out pin has a type of its own, so that two handles of
/// different type never name the same line. [`AnyPin`] is the one type that
/// can stand for any of them.
pub trait Pin: sealed::Pin + Into<AnyPin> + Sized {
    /// Number of the pin within the port (0..31)
    #[inline]
    fn pin(&self) -> (n: u8)
        ensures
            n == index_of(self.identity()),
            n < WORD_BITS,
    {
        self._pin()
    }

    /// Port of the pin
    #[inline]
    fn port(&self) -> (port: u8)
        ensures
            port == port_of(self.identity()),
            port < PORTS,
    {
        self._port()
    }

    /// Convert from the concrete pin type to the type-erased `AnyPin`. The
    /// identity is kept.
    #[inline]
    fn degrade(self) -> (any: AnyPin)
        ensures
            any == AnyPin::of(self.identity()),
    {
        AnyPin { pin_port: self.pin_port() }
    }
}

/// Type-erased GPIO pin.
///
/// It holds the identity and nothing else. Two `AnyPin` values may name the
/// same line; keeping them apart is up to whoever made them.
pub struct AnyPin {
    pin_port: u8,
}

impl AnyPin {
    #[verifier::type_invariant]
    spec fn names_a_pin(self) -> bool {
        valid(self.pin_port)
    }

    /// The identity that this pin holds.
    pub closed spec fn id(self) -> u8 {
        self.pin_port
    }

    /// The type-erased pin of identity `id`.
    pub closed spec fn of(id: u8) -> AnyPin {
        AnyPin { pin_port: id }
    }

    /// A type-erased pin is its identity and nothing more.
    pub proof fn lemma_is_its_identity(self)
        ensures
            AnyPin::of(self.id()) == self,
            forall|id: u8| #[trigger] AnyPin::of(id).id() == id,
    {
    }

    /// Makes a pin out of an identity, without any proof that no other
    /// handle of that pin exists.
    #[inline]
    pub fn steal(pin_port: u8) -> (any: AnyPin)
        requires
            valid(pin_port),
        ensures
            any == AnyPin::of(pin_port),
    {
        AnyPin { pin_port }
    }

    /// Port of the pin.
    #[inline]
    pub fn _port(&self) -> (port: u8)
        ensures
            port == port_of(self.id()),
            port < PORTS,
    {
        proof {
            use_type_invariant(self);
        }
        self.pin_port / PINS_PER_PORT
    }
}

impl Pin for AnyPin {

}

impl sealed::Pin for AnyPin {
    open spec fn identity(&self) -> u8 {
        self.id()
    }

    #[inline]
    fn pin_port(&self) -> (id: u8) {
        proof {
            use_type_invariant(self);
        }
        self.pin_port
    }
}

} // verus!
