//! The pins that the package bonds out.
//!
//! Each pin is a type of its own: [`Bonded`] with the pin's port and index
//! as type parameters, under the name that the data sheet gives the pin. A
//! value of such a type can only come out of [`Peripherals`], which holds one
//! of each.

use vstd::prelude::*;
use vstd::std_specs::convert::FromSpecImpl;
use crate::identity::{encode, identity_of, PINS_PER_PORT, PORTS};
use crate::pin::{AnyPin, Pin};
use crate::sealed;

verus! {

/// Pin `INDEX` of port `PORT`. Port A is port 0, port B is port 1.
pub struct Bonded<const PORT: u8, const INDEX: u8> {
    taken: (),
}

impl<const PORT: u8, const INDEX: u8> Bonded<PORT, INDEX> {
    #[verifier::type_invariant]
    spec fn names_a_pin(self) -> bool {
        PORT < PORTS && INDEX < PINS_PER_PORT
    }
}

impl<const PORT: u8, const INDEX: u8> sealed::Pin for Bonded<PORT, INDEX> {
    open spec fn identity(&self) -> u8 {
        identity_of(PORT, INDEX)
    }

    #[inline]
    fn pin_port(&self) -> (id: u8) {
        proof {
            use_type_invariant(self);
        }
        encode(PORT, INDEX)
    }
}

impl<const PORT: u8, const INDEX: u8> Pin for Bonded<PORT, INDEX> {

}

impl<const PORT: u8, const INDEX: u8> From<Bonded<PORT, INDEX>> for AnyPin {
    fn from(pin: Bonded<PORT, INDEX>) -> (any: AnyPin) {
        AnyPin::steal(sealed::Pin::pin_port(&pin))
    }
}

impl<const PORT: u8, const INDEX: u8> FromSpecImpl<Bonded<PORT, INDEX>> for AnyPin {
    open spec fn obeys_from_spec() -> bool {
        true
    }

    open spec fn from_spec(pin: Bonded<PORT, INDEX>) -> AnyPin {
        AnyPin::of(identity_of(PORT, INDEX))
    }
}

/// Pin 0 of port A.
pub type PA0 = Bonded<0, 0>;

/// Pin 1 of port A.
pub type PA1 = Bonded<0, 1>;

/// Pin 2 of port A.
pub type PA2 = Bonded<0, 2>;

/// Pin 3 of port A.
pub type PA3 = Bonded<0, 3>;

/// Pin 4 of port A.
pub type PA4 = Bonded<0, 4>;

/// Pin 5 of port A.
pub type PA5 = Bonded<0, 5>;

/// Pin 6 of port A.
pub type PA6 = Bonded<0, 6>;

/// Pin 7 of port A.
pub type PA7 = Bonded<0, 7>;

/// Pin 8 of port A.
pub type PA8 = Bonded<0, 8>;

/// Pin 9 of port A.
pub type PA9 = Bonded<0, 9>;

/// Pin 10 of port A.
pub type PA10 = Bonded<0, 10>;

/// Pin 11 of port A.
pub type PA11 = Bonded<0, 11>;

/// Pin 12 of port A.
pub type PA12 = Bonded<0, 12>;

/// Pin 13 of port A.
pub type PA13 = Bonded<0, 13>;

/// Pin 14 of port A.
pub type PA14 = Bonded<0, 14>;

/// Pin 15 of port A.
pub type PA15 = Bonded<0, 15>;

/// Pin 0 of port B.
pub type PB0 = Bonded<1, 0>;

/// Pin 4 of port B.
pub type PB4 = Bonded<1, 4>;

/// Pin 6 of port B.
pub type PB6 = Bonded<1, 6>;

/// Pin 7 of port B.
pub type PB7 = Bonded<1, 7>;

/// Pin 10 of port B.
pub type PB10 = Bonded<1, 10>;

/// Pin 11 of port B.
pub type PB11 = Bonded<1, 11>;

/// Pin 12 of port B.
pub type PB12 = Bonded<1, 12>;

/// Pin 13 of port B.
pub type PB13 = Bonded<1, 13>;

/// Pin 14 of port B.
pub type PB14 = Bonded<1, 14>;

/// Pin 15 of port B.
pub type PB15 = Bonded<1, 15>;

/// Pin 20 of port B.
pub type PB20 = Bonded<1, 20>;

/// Pin 21 of port B.
pub type PB21 = Bonded<1, 21>;

/// Pin 22 of port B.
pub type PB22 = Bonded<1, 22>;

/// Pin 23 of port B.
pub type PB23 = Bonded<1, 23>;

/// One handle of every bonded-out pin.
#[allow(non_snake_case)]
pub struct Peripherals {
    pub PA0: PA0,
    pub PA1: PA1,
    pub PA2: PA2,
    pub PA3: PA3,
    pub PA4: PA4,
    pub PA5: PA5,
    pub PA6: PA6,
    pub PA7: PA7,
    pub PA8: PA8,
    pub PA9: PA9,
    pub PA10: PA10,
    pub PA11: PA11,
    pub PA12: PA12,
    pub PA13: PA13,
    pub PA14: PA14,
    pub PA15: PA15,
    pub PB0: PB0,
    pub PB4: PB4,
    pub PB6: PB6,
    pub PB7: PB7,
    pub PB10: PB10,
    pub PB11: PB11,
    pub PB12: PB12,
    pub PB13: PB13,
    pub PB14: PB14,
    pub PB15: PB15,
    pub PB20: PB20,
    pub PB21: PB21,
    pub PB22: PB22,
    pub PB23: PB23,
}

impl Peripherals {
    /// Makes the handles, without any proof that they were not made before.
    /// A program calls this once, at start, and moves the pins out of the
    /// result. Each handle has the identity that its name stands for.
    pub fn steal() -> (p: Peripherals)
        ensures
            sealed::Pin::identity(&p.PA0) == 0,
            sealed::Pin::identity(&p.PA1) == 1,
            sealed::Pin::identity(&p.PA2) == 2,
            sealed::Pin::identity(&p.PA3) == 3,
            sealed::Pin::identity(&p.PA4) == 4,
            sealed::Pin::identity(&p.PA5) == 5,
            sealed::Pin::identity(&p.PA6) == 6,
            sealed::Pin::identity(&p.PA7) == 7,
            sealed::Pin::identity(&p.PA8) == 8,
            sealed::Pin::identity(&p.PA9) == 9,
            sealed::Pin::identity(&p.PA10) == 10,
            sealed::Pin::identity(&p.PA11) == 11,
            sealed::Pin::identity(&p.PA12) == 12,
            sealed::Pin::identity(&p.PA13) == 13,
            sealed::Pin::identity(&p.PA14) == 14,
            sealed::Pin::identity(&p.PA15) == 15,
            sealed::Pin::identity(&p.PB0) == 32,
            sealed::Pin::identity(&p.PB4) == 36,
            sealed::Pin::identity(&p.PB6) == 38,
            sealed::Pin::identity(&p.PB7) == 39,
            sealed::Pin::identity(&p.PB10) == 42,
            sealed::Pin::identity(&p.PB11) == 43,
            sealed::Pin::identity(&p.PB12) == 44,
            sealed::Pin::identity(&p.PB13) == 45,
            sealed::Pin::identity(&p.PB14) == 46,
            sealed::Pin::identity(&p.PB15) == 47,
            sealed::Pin::identity(&p.PB20) == 52,
            sealed::Pin::identity(&p.PB21) == 53,
            sealed::Pin::identity(&p.PB22) == 54,
            sealed::Pin::identity(&p.PB23) == 55,
    {
        Peripherals {
            PA0: Bonded { taken: () },
            PA1: Bonded { taken: () },
            PA2: Bonded { taken: () },
            PA3: Bonded { taken: () },
            PA4: Bonded { taken: () },
            PA5: Bonded { taken: () },
            PA6: Bonded { taken: () },
            PA7: Bonded { taken: () },
            PA8: Bonded { taken: () },
            PA9: Bonded { taken: () },
            PA10: Bonded { taken: () },
            PA11: Bonded { taken: () },
            PA12: Bonded { taken: () },
            PA13: Bonded { taken: () },
            PA14: Bonded { taken: () },
            PA15: Bonded { taken: () },
            PB0: Bonded { taken: () },
            PB4: Bonded { taken: () },
            PB6: Bonded { taken: () },
            PB7: Bonded { taken: () },
            PB10: Bonded { taken: () },
            PB11: Bonded { taken: () },
            PB12: Bonded { taken: () },
            PB13: Bonded { taken: () },
            PB14: Bonded { taken: () },
            PB15: Bonded { taken: () },
            PB20: Bonded { taken: () },
            PB21: Bonded { taken: () },
            PB22: Bonded { taken: () },
            PB23: Bonded { taken: () },
        }
    }
}

} // verus!
