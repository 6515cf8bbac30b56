//! The register file of the GPIO block.
//!
//! Each port has one block of pin registers: direction, pull-up enable,
//! pull-down enable or drive strength, the output latch with its two strobes,
//! and the input levels. The interrupt controller is shared by both ports and
//! holds, per port, an enable, a mode and a pending-flag register, plus the one
//! selector bit that routes pins 22 and 23 of port 1 to lines 8 and 9.
//!
//! [`Gpio`] holds an image of these registers as plain words and gives them
//! the behaviour of the hardware: which registers store what is written to
//! them, which are strobes, and which cannot be written at all. Every write
//! is also recorded in a journal, in the order in which it was made, so that
//! firmware can replay on the device what was done to the image. Nothing here
//! knows about pins beyond a bit position; no port or bit number is checked
//! beyond what the contracts demand of the caller.

use vstd::prelude::*;
use crate::bits::{assigned, mask, WORD_BITS};
use crate::identity::PORTS;
use crate::laws::lemma_reset_state;

verus! {

/// The registers that exist once per port.
#[derive(Debug, PartialEq, Eq, Structural, Clone, Copy)]
pub enum Register {
    /// Direction: a set bit makes the pin an output. Stores what is written.
    Dir,
    /// Level present on each pin. Read-only; writes are ignored.
    Pin,
    /// Output latch. Reads give the latch; a write sets the latch bits whose
    /// written bit is one.
    Out,
    /// Write-only strobe: a write clears the latch bits whose written bit is
    /// one. Reads give zero.
    Clr,
    /// Pull-up enable. Stores what is written.
    Pu,
    /// Pull-down enable of an input, drive strength of an output. Stores what
    /// is written.
    PdDrv,
    /// Interrupt enable. Stores what is written.
    IntEn,
    /// Interrupt mode: a set bit selects edge, a clear bit level. Stores what
    /// is written.
    IntMode,
    /// Pending interrupt flags, latched by the hardware. A write clears the
    /// flags whose written bit is one.
    IntIf,
}

/// One entry of the journal.
#[derive(Debug, PartialEq, Eq, Structural, Clone, Copy)]
pub enum Access {
    /// `value` was written to `register` of port `port`.
    Write { port: u8, register: Register, value: u32 },
    /// The alternate selector bit was set, by a read-modify-write of the
    /// register that holds it.
    SelectAlternate,
    /// A critical section was entered: from here on interrupts were masked.
    EnterCritical,
    /// The critical section was left.
    LeaveCritical,
}

/// The pin registers of one port.
#[derive(Debug, PartialEq, Eq, Structural, Clone, Copy)]
pub struct RegisterBlock {
    pub dir: u32,
    pub pin: u32,
    pub out: u32,
    pub pu: u32,
    pub pd_drv: u32,
}

/// The interrupt controller shared by both ports.
#[derive(Debug, PartialEq, Eq, Structural, Clone, Copy)]
pub struct InterruptController {
    pub pa_int_en: u32,
    pub pb_int_en: u32,
    pub pa_int_mode: u32,
    pub pb_int_mode: u32,
    pub pa_int_if: u32,
    pub pb_int_if: u32,
    /// Alternate selector: when set, lines 8 and 9 of port 1 belong to its
    /// pins 22 and 23.
    pub intx: bool,
}

/// The whole GPIO register file, with the journal of the writes made to it.
#[derive(Debug, PartialEq, Eq, Clone)]
pub struct Gpio {
    pub pa: RegisterBlock,
    pub pb: RegisterBlock,
    pub ctl: InterruptController,
    /// Every write made through [`Gpio::write`] and
    /// [`Gpio::select_alternate`], and the two marks of every critical section
    /// in which a sequence ran, oldest first.
    pub journal: Vec<Access>,
}

/// What a [`Gpio`] holds: the registers and the journal.
pub struct GpioState {
    pub pa: RegisterBlock,
    pub pb: RegisterBlock,
    pub ctl: InterruptController,
    pub journal: Seq<Access>,
}

impl View for Gpio {
    type V = GpioState;

    open spec fn view(&self) -> GpioState {
        GpioState { pa: self.pa, pb: self.pb, ctl: self.ctl, journal: self.journal@ }
    }
}

impl RegisterBlock {
    /// The block with every register zero.
    pub open spec fn zeroed() -> RegisterBlock {
        RegisterBlock { dir: 0, pin: 0, out: 0, pu: 0, pd_drv: 0 }
    }
}

impl InterruptController {
    /// The controller with every register zero and the selector clear.
    pub open spec fn zeroed() -> InterruptController {
        InterruptController {
            pa_int_en: 0,
            pb_int_en: 0,
            pa_int_mode: 0,
            pb_int_mode: 0,
            pa_int_if: 0,
            pb_int_if: 0,
            intx: false,
        }
    }
}

impl GpioState {
    /// The pin registers of `port`.
    pub open spec fn bank(self, port: u8) -> RegisterBlock {
        if port == 0 {
            self.pa
        } else {
            self.pb
        }
    }

    /// What a read of `register` of `port` returns.
    pub open spec fn word(self, port: u8, register: Register) -> u32 {
        match register {
            Register::Dir => self.bank(port).dir,
            Register::Pin => self.bank(port).pin,
            Register::Out => self.bank(port).out,
            Register::Clr => 0,
            Register::Pu => self.bank(port).pu,
            Register::PdDrv => self.bank(port).pd_drv,
            Register::IntEn => if port == 0 {
                self.ctl.pa_int_en
            } else {
                self.ctl.pb_int_en
            },
            Register::IntMode => if port == 0 {
                self.ctl.pa_int_mode
            } else {
                self.ctl.pb_int_mode
            },
            Register::IntIf => if port == 0 {
                self.ctl.pa_int_if
            } else {
                self.ctl.pb_int_if
            },
        }
    }

    /// The register file with the pin registers of `port` replaced.
    pub open spec fn with_bank(self, port: u8, block: RegisterBlock) -> GpioState {
        if port == 0 {
            GpioState { pa: block, ..self }
        } else {
            GpioState { pb: block, ..self }
        }
    }

    /// The register file with one more entry in its journal.
    pub open spec fn logged(self, access: Access) -> GpioState {
        GpioState { journal: self.journal.push(access), ..self }
    }

    /// The registers after `value` reached `register` of `port`, journal left
    /// aside.
    pub open spec fn stored(self, port: u8, register: Register, value: u32) -> GpioState {
        let block = self.bank(port);
        let ctl = self.ctl;
        match register {
            Register::Dir => self.with_bank(port, RegisterBlock { dir: value, ..block }),
            Register::Pin => self,
            Register::Out => self.with_bank(
                port,
                RegisterBlock { out: block.out | value, ..block },
            ),
            Register::Clr => self.with_bank(
                port,
                RegisterBlock { out: block.out & !value, ..block },
            ),
            Register::Pu => self.with_bank(port, RegisterBlock { pu: value, ..block }),
            Register::PdDrv => self.with_bank(port, RegisterBlock { pd_drv: value, ..block }),
            Register::IntEn => if port == 0 {
                GpioState { ctl: InterruptController { pa_int_en: value, ..ctl }, ..self }
            } else {
                GpioState { ctl: InterruptController { pb_int_en: value, ..ctl }, ..self }
            },
            Register::IntMode => if port == 0 {
                GpioState { ctl: InterruptController { pa_int_mode: value, ..ctl }, ..self }
            } else {
                GpioState { ctl: InterruptController { pb_int_mode: value, ..ctl }, ..self }
            },
            Register::IntIf => if port == 0 {
                let flags = ctl.pa_int_if & !value;
                GpioState { ctl: InterruptController { pa_int_if: flags, ..ctl }, ..self }
            } else {
                let flags = ctl.pb_int_if & !value;
                GpioState { ctl: InterruptController { pb_int_if: flags, ..ctl }, ..self }
            },
        }
    }

    /// The register file after a write of `value` to `register` of `port`.
    pub open spec fn written(self, port: u8, register: Register, value: u32) -> GpioState {
        self.stored(port, register, value).logged(Access::Write { port, register, value })
    }

    /// The register file after a read-modify-write of `register` of `port`
    /// that makes bit `n` equal to `on` and writes every other bit back as
    /// read.
    pub open spec fn with_bit(self, port: u8, register: Register, n: u8, on: bool) -> GpioState {
        self.written(port, register, assigned(self.word(port, register), n, on))
    }

    /// The register file after a write to `register` of `port` in which bit
    /// `n` alone is one.
    pub open spec fn strobed(self, port: u8, register: Register, n: u8) -> GpioState {
        self.written(port, register, mask(n))
    }

    /// The register file after the alternate selector was set.
    pub open spec fn alternate_selected(self) -> GpioState {
        GpioState { ctl: InterruptController { intx: true, ..self.ctl }, ..self }.logged(
            Access::SelectAlternate,
        )
    }

    /// The writes that were made after `earlier` was the state of the
    /// register file, oldest first.
    pub open spec fn since(self, earlier: GpioState) -> Seq<Access> {
        self.journal.skip(earlier.journal.len() as int)
    }

    /// Whether two register files hold the same register contents, whatever
    /// was written to reach them.
    pub open spec fn same_registers(self, other: GpioState) -> bool {
        self.pa == other.pa && self.pb == other.pb && self.ctl == other.ctl
    }

    /// The register file with the given registers and an empty journal.
    pub open spec fn of(
        pa: RegisterBlock,
        pb: RegisterBlock,
        ctl: InterruptController,
    ) -> GpioState {
        GpioState { pa, pb, ctl, journal: Seq::empty() }
    }

    /// The register file as it is after reset: every register zero, the
    /// selector clear, nothing written yet.
    pub open spec fn reset() -> GpioState {
        GpioState::of(
            RegisterBlock::zeroed(),
            RegisterBlock::zeroed(),
            InterruptController::zeroed(),
        )
    }
}

impl Gpio {
    /// The register file as it is after reset: every register zero, the
    /// selector clear, nothing written yet.
    pub fn new() -> (regs: Gpio)
        ensures
            regs@ == GpioState::reset(),
            regs@.unpacked().canonical(),
    {
        proof {
            lemma_reset_state(GpioState::reset(), 0);
        }
        let block = RegisterBlock { dir: 0, pin: 0, out: 0, pu: 0, pd_drv: 0 };
        Gpio {
            pa: block,
            pb: block,
            ctl: InterruptController {
                pa_int_en: 0,
                pb_int_en: 0,
                pa_int_mode: 0,
                pb_int_mode: 0,
                pa_int_if: 0,
                pb_int_if: 0,
                intx: false,
            },
            journal: Vec::new(),
        }
    }

    /// A register file with the given contents and nothing written yet.
    pub fn from_registers(pa: RegisterBlock, pb: RegisterBlock, ctl: InterruptController) -> (regs:
        Gpio)
        ensures
            regs@ == GpioState::of(pa, pb, ctl),
    {
        Gpio { pa, pb, ctl, journal: Vec::new() }
    }

    /// Hands out the journal and leaves an empty one behind. The registers
    /// are not touched.
    pub fn take_journal(&mut self) -> (taken: Vec<Access>)
        ensures
            taken@ == old(self)@.journal,
            final(self)@.journal == Seq::<Access>::empty(),
            final(self)@.same_registers(old(self)@),
    {
        let mut taken: Vec<Access> = Vec::new();
        core::mem::swap(&mut self.journal, &mut taken);
        taken
    }

    /// The pin registers of `port`.
    pub fn block(&self, port: u8) -> (block: &RegisterBlock)
        requires
            port < PORTS,
        ensures
            *block == self@.bank(port),
    {
        if port == 0 {
            &self.pa
        } else {
            &self.pb
        }
    }

    /// Reads `register` of `port`.
    pub fn read(&self, port: u8, register: Register) -> (value: u32)
        requires
            port < PORTS,
        ensures
            value == self@.word(port, register),
    {
        match register {
            Register::Dir => self.block(port).dir,
            Register::Pin => self.block(port).pin,
            Register::Out => self.block(port).out,
            Register::Clr => 0,
            Register::Pu => self.block(port).pu,
            Register::PdDrv => self.block(port).pd_drv,
            Register::IntEn => if port == 0 {
                self.ctl.pa_int_en
            } else {
                self.ctl.pb_int_en
            },
            Register::IntMode => if port == 0 {
                self.ctl.pa_int_mode
            } else {
                self.ctl.pb_int_mode
            },
            Register::IntIf => if port == 0 {
                self.ctl.pa_int_if
            } else {
                self.ctl.pb_int_if
            },
        }
    }

    /// Writes `value` to `register` of `port`.
    ///
    /// What the write does depends on the register: it is stored, it sets or
    /// clears latch bits, it clears pending flags, or it is ignored.
    pub fn write(&mut self, port: u8, register: Register, value: u32)
        requires
            port < PORTS,
        ensures
            final(self)@ == old(self)@.written(port, register, value),
    {
        match register {
            Register::Dir => if port == 0 {
                self.pa.dir = value;
            } else {
                self.pb.dir = value;
            },
            Register::Pin => {},
            Register::Out => if port == 0 {
                self.pa.out = self.pa.out | value;
            } else {
                self.pb.out = self.pb.out | value;
            },
            Register::Clr => if port == 0 {
                self.pa.out = self.pa.out & !value;
            } else {
                self.pb.out = self.pb.out & !value;
            },
            Register::Pu => if port == 0 {
                self.pa.pu = value;
            } else {
                self.pb.pu = value;
            },
            Register::PdDrv => if port == 0 {
                self.pa.pd_drv = value;
            } else {
                self.pb.pd_drv = value;
            },
            Register::IntEn => if port == 0 {
                self.ctl.pa_int_en = value;
            } else {
                self.ctl.pb_int_en = value;
            },
            Register::IntMode => if port == 0 {
                self.ctl.pa_int_mode = value;
            } else {
                self.ctl.pb_int_mode = value;
            },
            Register::IntIf => if port == 0 {
                self.ctl.pa_int_if = self.ctl.pa_int_if & !value;
            } else {
                self.ctl.pb_int_if = self.ctl.pb_int_if & !value;
            },
        }
        self.journal.push(Access::Write { port, register, value });
    }

    /// Sets bit `n` of `register` of `port`: reads the register, ors the bit
    /// in and writes the result back.
    pub fn set_bit(&mut self, port: u8, register: Register, n: u8)
        requires
            port < PORTS,
            n < WORD_BITS,
        ensures
            final(self)@ == old(self)@.with_bit(port, register, n, true),
    {
        let word: u32 = self.read(port, register);
        self.write(port, register, word | (1u32 << n));
    }

    /// Clears bit `n` of `register` of `port`: reads the register, masks the
    /// bit out and writes the result back.
    pub fn clear_bit(&mut self, port: u8, register: Register, n: u8)
        requires
            port < PORTS,
            n < WORD_BITS,
        ensures
            final(self)@ == old(self)@.with_bit(port, register, n, false),
    {
        let word: u32 = self.read(port, register);
        self.write(port, register, word & !(1u32 << n));
    }

    /// Writes the word whose only set bit is bit `n` to `register` of `port`,
    /// without reading the register first.
    pub fn strobe(&mut self, port: u8, register: Register, n: u8)
        requires
            port < PORTS,
            n < WORD_BITS,
        ensures
            final(self)@ == old(self)@.strobed(port, register, n),
    {
        self.write(port, register, 1u32 << n);
    }

    /// Sets the alternate selector, which hands lines 8 and 9 of port 1 to
    /// its pins 22 and 23.
    pub fn select_alternate(&mut self)
        ensures
            final(self)@ == old(self)@.alternate_selected(),
    {
        self.ctl.intx = true;
        self.journal.push(Access::SelectAlternate);
    }
}

} // verus!
