//! What the register file means, pin by pin and line by line.
//!
//! The registers pack one bit per pin into words. [`GpioView`] unpacks them:
//! for each pin identity its five configuration and level bits, for each
//! interrupt line its three controller bits, and the alternate selector. The
//! lemmas here say what a single register write does to that view.

use vstd::prelude::*;
use crate::bits::{
    is_set,
    lemma_assigned,
    lemma_mask,
    lemma_strobe,
    lemma_without_bit,
    WORD_BITS,
};
use crate::identity::{
    identity_of,
    index_of,
    interrupt_line,
    lemma_identity_decoded,
    port_of,
    remapped,
    valid,
    PORTS,
};
use crate::level::Level;
use crate::mode::{Mode, OutputDrive, Pull};
use crate::registers::{GpioState, Register};
use crate::sequences::Sequence;
use crate::trigger::InterruptTrigger;

verus! {

/// The bits of one pin in the registers of its port.
pub struct PinView {
    /// Direction bit: the pin drives its line.
    pub output: bool,
    /// Pull-up enable bit.
    pub pull_up: bool,
    /// Pull-down enable of an input, drive strength of an output.
    pub pd_drv: bool,
    /// Output latch: the level the pin drives when it is an output.
    pub latch: Level,
    /// Level present on the pin.
    pub input: Level,
}

/// The bits of one interrupt line in the controller.
pub struct LineView {
    pub enabled: bool,
    /// Mode bit: edge when set, level when clear.
    pub edge: bool,
    pub pending: bool,
}

/// The register file, unpacked.
///
/// Pins are keyed by identity. Lines are keyed the same way, by
/// `port * 32 + line`; the line of a pin is [`line_key`] of its identity.
pub struct GpioView {
    pub pins: Map<u8, PinView>,
    pub lines: Map<u8, LineView>,
    pub alternate: bool,
}

/// The key of the interrupt line that serves pin `id`.
pub open spec fn line_key(id: u8) -> u8 {
    identity_of(port_of(id), interrupt_line(id))
}

impl PinView {
    /// The electrical mode that the three configuration bits encode, if
    /// they encode one.
    ///
    /// An input may have one pull or none. An output has its pull-up bit
    /// clear, and its drive strength in the bit that an input uses for the
    /// pull-down. The two remaining combinations encode no mode.
    pub open spec fn mode(self) -> Option<Mode> {
        if self.output {
            if self.pull_up {
                None
            } else {
                Some(Mode::Output(OutputDrive::of(self.pd_drv)))
            }
        } else if self.pull_up {
            if self.pd_drv {
                None
            } else {
                Some(Mode::Input(Pull::Up))
            }
        } else if self.pd_drv {
            Some(Mode::Input(Pull::Down))
        } else {
            Some(Mode::Input(Pull::Floating))
        }
    }

    /// The pin configured as an input with the given pull.
    pub open spec fn as_input(self, pull: Pull) -> PinView {
        PinView { output: false, pull_up: pull.up(), pd_drv: pull.down(), ..self }
    }

    /// The pin configured as an output with the given drive.
    pub open spec fn as_output(self, drive: OutputDrive) -> PinView {
        PinView { output: true, pull_up: false, pd_drv: drive.strong(), ..self }
    }

    /// The pin with its output latch at `level`.
    pub open spec fn latched(self, level: Level) -> PinView {
        PinView { latch: level, ..self }
    }
}

impl GpioView {
    /// The view with one pin replaced.
    pub open spec fn with_pin(self, id: u8, pin: PinView) -> GpioView {
        GpioView { pins: self.pins.insert(id, pin), ..self }
    }

    /// The view with one line replaced.
    pub open spec fn with_line(self, key: u8, line: LineView) -> GpioView {
        GpioView { lines: self.lines.insert(key, line), ..self }
    }

    /// The view with the alternate selector set if `on`, as it was if not.
    pub open spec fn routed(self, on: bool) -> GpioView {
        GpioView { alternate: self.alternate || on, ..self }
    }

    /// The view after pin `id` was made an input with the given pull: its
    /// direction bit reads input, its pull bits encode `pull`, and its latch
    /// and input level are as they were.
    pub open spec fn input_mode(self, id: u8, pull: Pull) -> GpioView {
        self.with_pin(id, self.pins[id].as_input(pull))
    }

    /// The view after pin `id` was made an output with the given drive: its
    /// direction bit reads output, its pull-up is off, its strength bit
    /// encodes `drive`, and its latch and input level are as they were.
    pub open spec fn output_mode(self, id: u8, drive: OutputDrive) -> GpioView {
        self.with_pin(id, self.pins[id].as_output(drive))
    }

    /// The view after the latch of pin `id` was put at `level`.
    pub open spec fn latched(self, id: u8, level: Level) -> GpioView {
        self.with_pin(id, self.pins[id].latched(level))
    }

    /// The view after pin `id` was made an output of the weak drive, its
    /// pull-up bit left as it was.
    pub open spec fn weak_output(self, id: u8) -> GpioView {
        self.with_pin(id, PinView { output: true, pd_drv: false, ..self.pins[id] })
    }

    /// The view after the pull-up of pin `id` was switched on and its
    /// pull-down off, its direction left as it was.
    pub open spec fn pulled_up(self, id: u8) -> GpioView {
        self.with_pin(id, PinView { pull_up: true, pd_drv: false, ..self.pins[id] })
    }

    /// The view after the strength bit of pin `id` was written, everything
    /// else of the pin left as it was.
    pub open spec fn drive_selected(self, id: u8, drive: OutputDrive) -> GpioView {
        self.with_pin(id, PinView { pd_drv: drive.strong(), ..self.pins[id] })
    }

    /// The view after the interrupt of pin `id` was masked.
    pub open spec fn interrupt_disabled(self, id: u8) -> GpioView {
        let key = line_key(id);
        self.routed(remapped(id)).with_line(key, LineView { enabled: false, ..self.lines[key] })
    }

    /// The view after pin `id` was programmed for `trigger`: the mode bit of
    /// its line tells level from edge, and the pin's latch gives the
    /// polarity.
    pub open spec fn trigger_selected(self, id: u8, trigger: InterruptTrigger) -> GpioView {
        let key = line_key(id);
        self.routed(remapped(id)).with_line(
            key,
            LineView { edge: trigger.edge(), ..self.lines[key] },
        ).latched(id, Level::of(trigger.active_high()))
    }

    /// The view after the pending flag of pin `id` was cleared.
    pub open spec fn interrupt_cleared(self, id: u8) -> GpioView {
        let key = line_key(id);
        self.routed(remapped(id)).with_line(key, LineView { pending: false, ..self.lines[key] })
    }

    /// The view after the interrupt of pin `id` was unmasked: enabled, with
    /// no pending flag.
    pub open spec fn interrupt_enabled(self, id: u8) -> GpioView {
        let key = line_key(id);
        self.routed(remapped(id)).with_line(
            key,
            LineView { enabled: true, pending: false, ..self.lines[key] },
        )
    }

    /// The view after `sequence` ran for pin `id`.
    pub open spec fn after(self, id: u8, sequence: Sequence) -> GpioView {
        match sequence {
            Sequence::Input(pull) => self.input_mode(id, pull),
            Sequence::Output(drive) => self.output_mode(id, drive),
            Sequence::DisableInterrupt => self.interrupt_disabled(id),
            Sequence::Trigger(trigger) => self.trigger_selected(id, trigger),
            Sequence::EnableInterrupt => self.interrupt_enabled(id),
            Sequence::ClearInterrupt => self.interrupt_cleared(id),
        }
    }

    /// Whether every pin's configuration bits encode a mode.
    pub open spec fn canonical(self) -> bool {
        forall|id: u8| valid(id) ==> (#[trigger] self.pins[id]).mode() is Some
    }
}

impl GpioState {
    /// Whether bit `n` of `register` of `port` reads as set.
    pub open spec fn bit(self, port: u8, register: Register, n: u8) -> bool {
        is_set(self.word(port, register), n)
    }

    /// The bits of pin `id`.
    pub open spec fn pin(self, id: u8) -> PinView {
        let port = port_of(id);
        let n = index_of(id);
        PinView {
            output: self.bit(port, Register::Dir, n),
            pull_up: self.bit(port, Register::Pu, n),
            pd_drv: self.bit(port, Register::PdDrv, n),
            latch: Level::of(self.bit(port, Register::Out, n)),
            input: Level::of(self.bit(port, Register::Pin, n)),
        }
    }

    /// The trigger that pin `id` is programmed for: level or edge by the mode
    /// bit of its line, polarity by its own latch.
    pub open spec fn trigger(self, id: u8) -> InterruptTrigger {
        InterruptTrigger::of(self.line(line_key(id)).edge, self.pin(id).latch.high())
    }

    /// The bits of the interrupt line with key `key`.
    pub open spec fn line(self, key: u8) -> LineView {
        let port = port_of(key);
        let n = index_of(key);
        LineView {
            enabled: self.bit(port, Register::IntEn, n),
            edge: self.bit(port, Register::IntMode, n),
            pending: self.bit(port, Register::IntIf, n),
        }
    }

    /// The register file, unpacked.
    pub open spec fn unpacked(self) -> GpioView {
        GpioView {
            pins: Map::new(|id: u8| valid(id), |id: u8| self.pin(id)),
            lines: Map::new(|key: u8| valid(key), |key: u8| self.line(key)),
            alternate: self.ctl.intx,
        }
    }
}

/// Whether `after` holds every bit of every register as `before` does,
/// except that bit `n` of `register` of `port` reads `on`.
pub open spec fn one_bit_written(
    before: GpioState,
    after: GpioState,
    port: u8,
    register: Register,
    n: u8,
    on: bool,
) -> bool {
    &&& after.ctl.intx == before.ctl.intx
    &&& forall|q: u8, r: Register, m: u8|
        q < PORTS && m < WORD_BITS ==> #[trigger] after.bit(q, r, m) == (if q == port && r
            == register && m == n {
            on
        } else {
            before.bit(q, r, m)
        })
}

/// The pin bit that a configuration register holds, replaced by `on`.
pub open spec fn pin_with(pin: PinView, register: Register, on: bool) -> PinView {
    match register {
        Register::Dir => PinView { output: on, ..pin },
        Register::Pu => PinView { pull_up: on, ..pin },
        Register::PdDrv => PinView { pd_drv: on, ..pin },
        _ => pin,
    }
}

/// The line bit that a controller register holds, replaced by `on`.
pub open spec fn line_with(line: LineView, register: Register, on: bool) -> LineView {
    match register {
        Register::IntEn => LineView { enabled: on, ..line },
        Register::IntMode => LineView { edge: on, ..line },
        Register::IntIf => LineView { pending: on, ..line },
        _ => line,
    }
}

/// Whether `register` holds one configuration bit per pin.
pub open spec fn configures_pins(register: Register) -> bool {
    register == Register::Dir || register == Register::Pu || register == Register::PdDrv
}

/// Whether `register` holds one enable or mode bit per interrupt line.
pub open spec fn configures_lines(register: Register) -> bool {
    register == Register::IntEn || register == Register::IntMode
}

/// A read-modify-write that assigns one bit of a register which stores
/// what is written, or that sets one bit of the output latch, changes that
/// bit and no other bit of any register.
pub proof fn lemma_bit_assigned(regs: GpioState, port: u8, register: Register, n: u8, on: bool)
    requires
        port < PORTS,
        n < WORD_BITS,
        configures_pins(register) || configures_lines(register) || (register == Register::Out
            && on),
    ensures
        one_bit_written(regs, regs.with_bit(port, register, n, on), port, register, n, on),
{
    let next = regs.with_bit(port, register, n, on);
    let word = regs.word(port, register);
    lemma_strobe(word, n);
    assert forall|q: u8, r: Register, m: u8| q < PORTS && m < WORD_BITS implies #[trigger] next.bit(
        q,
        r,
        m,
    ) == (if q == port && r == register && m == n {
        on
    } else {
        regs.bit(q, r, m)
    }) by {
        lemma_assigned(word, n, on, m);
        lemma_mask(n, m);
    }
}

/// A strobe of one bit of the latch-clear register clears that bit of the
/// output latch and changes no other bit of any register. The
/// read-modify-write that sets the bit does the same, because the register
/// reads as zero.
pub proof fn lemma_latch_cleared(regs: GpioState, port: u8, n: u8)
    requires
        port < PORTS,
        n < WORD_BITS,
    ensures
        regs.with_bit(port, Register::Clr, n, true) == regs.strobed(port, Register::Clr, n),
        one_bit_written(
            regs,
            regs.strobed(port, Register::Clr, n),
            port,
            Register::Out,
            n,
            false,
        ),
{
    let next = regs.strobed(port, Register::Clr, n);
    let word = regs.word(port, Register::Out);
    lemma_strobe(0, n);
    assert forall|q: u8, r: Register, m: u8| q < PORTS && m < WORD_BITS implies #[trigger] next.bit(
        q,
        r,
        m,
    ) == (if q == port && r == Register::Out && m == n {
        false
    } else {
        regs.bit(q, r, m)
    }) by {
        lemma_without_bit(word, n, m);
        lemma_mask(n, m);
    }
}

/// A strobe of one bit of a pending-flag register clears that flag and
/// changes no other bit of any register.
pub proof fn lemma_flag_cleared(regs: GpioState, port: u8, n: u8)
    requires
        port < PORTS,
        n < WORD_BITS,
    ensures
        one_bit_written(
            regs,
            regs.strobed(port, Register::IntIf, n),
            port,
            Register::IntIf,
            n,
            false,
        ),
{
    let next = regs.strobed(port, Register::IntIf, n);
    let word = regs.word(port, Register::IntIf);
    assert forall|q: u8, r: Register, m: u8| q < PORTS && m < WORD_BITS implies #[trigger] next.bit(
        q,
        r,
        m,
    ) == (if q == port && r == Register::IntIf && m == n {
        false
    } else {
        regs.bit(q, r, m)
    }) by {
        lemma_without_bit(word, n, m);
    }
}

/// If one bit of a pin register was written, the view changed in that bit
/// of that pin and in nothing else.
proof fn lemma_one_pin_changed(before: GpioState, after: GpioState, id: u8, pin: PinView)
    requires
        valid(id),
        after.pin(id) == pin,
        after.ctl.intx == before.ctl.intx,
        forall|p: u8| valid(p) && p != id ==> #[trigger] after.pin(p) == before.pin(p),
        forall|key: u8| valid(key) ==> #[trigger] after.line(key) == before.line(key),
    ensures
        after.unpacked() == before.unpacked().with_pin(id, pin),
{
    assert(after.unpacked().pins =~= before.unpacked().pins.insert(id, pin));
    assert(after.unpacked().lines =~= before.unpacked().lines);
}

/// If one bit of a controller register was written, the view changed in
/// that bit of that line and in nothing else.
proof fn lemma_one_line_changed(before: GpioState, after: GpioState, key: u8, line: LineView)
    requires
        valid(key),
        after.line(key) == line,
        after.ctl.intx == before.ctl.intx,
        forall|p: u8| valid(p) ==> #[trigger] after.pin(p) == before.pin(p),
        forall|k: u8| valid(k) && k != key ==> #[trigger] after.line(k) == before.line(k),
    ensures
        after.unpacked() == before.unpacked().with_line(key, line),
{
    assert(after.unpacked().pins =~= before.unpacked().pins);
    assert(after.unpacked().lines =~= before.unpacked().lines.insert(key, line));
}

/// In the view, a written bit of pin `id` shows in that pin and a written
/// bit of line `key` in that line: no two pins and no two lines share a bit.
proof fn lemma_bits_apart(before: GpioState, after: GpioState, id: u8, register: Register, on: bool)
    requires
        valid(id),
        register != Register::Pin && register != Register::Clr,
        one_bit_written(before, after, port_of(id), register, index_of(id), on),
    ensures
        forall|p: u8| valid(p) && p != id ==> #[trigger] after.pin(p) == before.pin(p),
        forall|k: u8| valid(k) && k != id ==> #[trigger] after.line(k) == before.line(k),
        after.pin(id) == (if register == Register::Out {
            before.pin(id).latched(Level::of(on))
        } else {
            pin_with(before.pin(id), register, on)
        }),
        after.line(id) == line_with(before.line(id), register, on),
{
    lemma_identity_decoded(id);
    assert forall|p: u8| valid(p) && p != id implies #[trigger] after.pin(p) == before.pin(p) by {
        lemma_identity_decoded(p);
    }
    assert forall|k: u8| valid(k) && k != id implies #[trigger] after.line(k) == before.line(
        k,
    ) by {
        lemma_identity_decoded(k);
    }
}

/// Setting the alternate selector changes no bit of any register word.
pub proof fn lemma_alternate_selected(regs: GpioState)
    ensures
        regs.alternate_selected().unpacked() == regs.unpacked().routed(true),
        regs.alternate_selected().pa == regs.pa,
        regs.alternate_selected().pb == regs.pb,
{
    assert(regs.alternate_selected().unpacked().pins =~= regs.unpacked().pins);
    assert(regs.alternate_selected().unpacked().lines =~= regs.unpacked().lines);
}

/// Assigning the bit of pin `id` in a configuration register changes that
/// one bit of that one pin and nothing else in the view.
pub proof fn lemma_pin_configured(regs: GpioState, id: u8, register: Register, on: bool)
    requires
        valid(id),
        configures_pins(register),
    ensures
        regs.with_bit(port_of(id), register, index_of(id), on).unpacked()
            == regs.unpacked().with_pin(id, pin_with(regs.unpacked().pins[id], register, on)),
{
    let next = regs.with_bit(port_of(id), register, index_of(id), on);
    lemma_identity_decoded(id);
    lemma_bit_assigned(regs, port_of(id), register, index_of(id), on);
    lemma_bits_apart(regs, next, id, register, on);
    lemma_one_pin_changed(regs, next, id, pin_with(regs.pin(id), register, on));
}

/// Setting or clearing the latch bit of pin `id` through the two strobes
/// changes the latch of that one pin and nothing else in the view.
pub proof fn lemma_pin_latched(regs: GpioState, id: u8, level: Level)
    requires
        valid(id),
    ensures
        regs.with_bit(
            port_of(id),
            if level.high() {
                Register::Out
            } else {
                Register::Clr
            },
            index_of(id),
            true,
        ).unpacked() == regs.unpacked().with_pin(id, regs.unpacked().pins[id].latched(level)),
{
    let port = port_of(id);
    let n = index_of(id);
    lemma_identity_decoded(id);
    if level.high() {
        let next = regs.with_bit(port, Register::Out, n, true);
        lemma_bit_assigned(regs, port, Register::Out, n, true);
        lemma_bits_apart(regs, next, id, Register::Out, true);
        lemma_one_pin_changed(regs, next, id, regs.pin(id).latched(level));
    } else {
        let next = regs.with_bit(port, Register::Clr, n, true);
        lemma_latch_cleared(regs, port, n);
        lemma_bits_apart(regs, next, id, Register::Out, false);
        lemma_one_pin_changed(regs, next, id, regs.pin(id).latched(level));
    }
}

/// Assigning the enable or mode bit of line `key` changes that one bit of
/// that one line and nothing else in the view.
pub proof fn lemma_line_configured(regs: GpioState, key: u8, register: Register, on: bool)
    requires
        valid(key),
        configures_lines(register),
    ensures
        regs.with_bit(port_of(key), register, index_of(key), on).unpacked()
            == regs.unpacked().with_line(key, line_with(regs.unpacked().lines[key], register, on)),
{
    let next = regs.with_bit(port_of(key), register, index_of(key), on);
    lemma_identity_decoded(key);
    lemma_bit_assigned(regs, port_of(key), register, index_of(key), on);
    lemma_bits_apart(regs, next, key, register, on);
    lemma_one_line_changed(regs, next, key, line_with(regs.line(key), register, on));
}

/// Strobing the pending flag of line `key` clears that one flag and changes
/// nothing else in the view.
pub proof fn lemma_line_acknowledged(regs: GpioState, key: u8)
    requires
        valid(key),
    ensures
        regs.strobed(port_of(key), Register::IntIf, index_of(key)).unpacked()
            == regs.unpacked().with_line(
            key,
            LineView { pending: false, ..regs.unpacked().lines[key] },
        ),
{
    let next = regs.strobed(port_of(key), Register::IntIf, index_of(key));
    lemma_identity_decoded(key);
    lemma_flag_cleared(regs, port_of(key), index_of(key));
    lemma_bits_apart(regs, next, key, Register::IntIf, false);
    lemma_one_line_changed(regs, next, key, LineView { pending: false, ..regs.line(key) });
}

/// The line of a valid pin is a valid line of the same port, at the pin's
/// interrupt line.
pub proof fn lemma_line_key(id: u8)
    requires
        valid(id),
    ensures
        valid(line_key(id)),
        port_of(line_key(id)) == port_of(id),
        index_of(line_key(id)) == interrupt_line(id),
        interrupt_line(id) < WORD_BITS,
{
}

} // verus!
