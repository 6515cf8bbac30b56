//! The register sequences behind each pin operation.
//!
//! A pin operation is a short, fixed sequence of single-bit register writes.
//! This module states each sequence as a function from register file to
//! register file, performs it, and proves what it does to the pin and line
//! view. The sequences that read a register and write it back must not be
//! interleaved with an interrupt handler that writes the same register;
//! [`exclusive`] runs those with interrupts masked.

use vstd::prelude::*;
use crate::bits::WORD_BITS;
use crate::identity::{
    index_of,
    interrupt_line,
    is_remapped,
    line_of,
    pin_index,
    port_number,
    port_of,
    remapped,
    valid,
};
use crate::level::Level;
use crate::mode::{Mode, OutputDrive, Pull};
use crate::registers::{Access, Gpio, GpioState, Register};
use crate::trigger::InterruptTrigger;
use crate::view::{
    lemma_alternate_selected,
    lemma_line_acknowledged,
    lemma_line_configured,
    lemma_line_key,
    lemma_pin_configured,
    lemma_pin_latched,
    line_key,
    LineView,
};

verus! {

/// The sequences that a pin handle runs.
#[derive(Debug, PartialEq, Eq, Structural, Clone, Copy)]
pub enum Sequence {
    /// Make the pin an input with the given pull.
    Input(Pull),
    /// Make the pin an output with the given drive.
    Output(OutputDrive),
    /// Mask the pin's interrupt.
    DisableInterrupt,
    /// Select what raises the pin's interrupt.
    Trigger(InterruptTrigger),
    /// Drop a stale pending flag and unmask the pin's interrupt.
    EnableInterrupt,
    /// Drop the pending flag of the pin's interrupt.
    ClearInterrupt,
}

impl GpioState {
    /// The register file after the latch of pin `id` was put at `level`:
    /// a read-modify-write of the set strobe for `High`, of the clear strobe
    /// for `Low`.
    pub open spec fn latched(self, id: u8, level: Level) -> GpioState {
        self.with_bit(
            port_of(id),
            if level.high() {
                Register::Out
            } else {
                Register::Clr
            },
            index_of(id),
            true,
        )
    }

    /// The register file after the latch of pin `id` was put at the level
    /// opposite to the one it reads as.
    pub open spec fn toggled(self, id: u8) -> GpioState {
        self.latched(id, self.pin(id).latch.inverted())
    }

    /// The register file after pin `id` was made an input: pull-down, pull-up
    /// and direction bits written in this order.
    pub open spec fn input_mode(self, id: u8, pull: Pull) -> GpioState {
        let port = port_of(id);
        let n = index_of(id);
        let pulled_down = self.with_bit(port, Register::PdDrv, n, pull.down());
        let pulled_up = pulled_down.with_bit(port, Register::Pu, n, pull.up());
        pulled_up.with_bit(port, Register::Dir, n, false)
    }

    /// The register file after pin `id` was made an output: drive strength,
    /// pull-up and direction bits written in this order.
    pub open spec fn output_mode(self, id: u8, drive: OutputDrive) -> GpioState {
        let port = port_of(id);
        let n = index_of(id);
        let driven = self.with_bit(port, Register::PdDrv, n, drive.strong());
        let unpulled = driven.with_bit(port, Register::Pu, n, false);
        unpulled.with_bit(port, Register::Dir, n, true)
    }

    /// The register file after pin `id` was made a floating input by
    /// clearing its direction, pull-up and pull-down bits in this order.
    pub open spec fn floated(self, id: u8) -> GpioState {
        let port = port_of(id);
        let n = index_of(id);
        let undriven = self.with_bit(port, Register::Dir, n, false);
        let unpulled = undriven.with_bit(port, Register::Pu, n, false);
        unpulled.with_bit(port, Register::PdDrv, n, false)
    }

    /// The register file after the direction bit of pin `id` was set and its
    /// strength bit cleared, in this order.
    pub open spec fn weak_output(self, id: u8) -> GpioState {
        let port = port_of(id);
        let n = index_of(id);
        self.with_bit(port, Register::Dir, n, true).with_bit(port, Register::PdDrv, n, false)
    }

    /// The register file after the pull-up bit of pin `id` was set and its
    /// pull-down bit cleared, in this order.
    pub open spec fn pulled_up(self, id: u8) -> GpioState {
        let port = port_of(id);
        let n = index_of(id);
        self.with_bit(port, Register::Pu, n, true).with_bit(port, Register::PdDrv, n, false)
    }

    /// The register file after the strength bit of pin `id` was written.
    pub open spec fn drive_selected(self, id: u8, drive: OutputDrive) -> GpioState {
        self.with_bit(port_of(id), Register::PdDrv, index_of(id), drive.strong())
    }

    /// The register file after the interrupt line of pin `id` was made ready
    /// for use: the alternate selector is set for a remapped pin, and nothing
    /// is written for any other pin.
    pub open spec fn routed(self, id: u8) -> GpioState {
        if remapped(id) {
            self.alternate_selected()
        } else {
            self
        }
    }

    /// The register file after the interrupt of pin `id` was masked.
    pub open spec fn interrupt_disabled(self, id: u8) -> GpioState {
        self.routed(id).with_bit(port_of(id), Register::IntEn, interrupt_line(id), false)
    }

    /// The register file after pin `id` was programmed for `trigger`: the
    /// mode bit of its line, then the latch bit of the pin itself, which
    /// selects the polarity.
    pub open spec fn trigger_selected(self, id: u8, trigger: InterruptTrigger) -> GpioState {
        self.routed(id).with_bit(
            port_of(id),
            Register::IntMode,
            interrupt_line(id),
            trigger.edge(),
        ).latched(id, Level::of(trigger.active_high()))
    }

    /// The register file after the pending flag of pin `id` was strobed.
    pub open spec fn interrupt_cleared(self, id: u8) -> GpioState {
        self.routed(id).strobed(port_of(id), Register::IntIf, interrupt_line(id))
    }

    /// The register file after the interrupt of pin `id` was unmasked: the
    /// pending flag is strobed first, the enable bit set after it.
    pub open spec fn interrupt_enabled(self, id: u8) -> GpioState {
        self.interrupt_cleared(id).with_bit(port_of(id), Register::IntEn, interrupt_line(id), true)
    }

    /// The register file after the writes of `sequence` were made for pin
    /// `id`.
    pub open spec fn after(self, id: u8, sequence: Sequence) -> GpioState {
        match sequence {
            Sequence::Input(pull) => self.input_mode(id, pull),
            Sequence::Output(drive) => self.output_mode(id, drive),
            Sequence::DisableInterrupt => self.interrupt_disabled(id),
            Sequence::Trigger(trigger) => self.trigger_selected(id, trigger),
            Sequence::EnableInterrupt => self.interrupt_enabled(id),
            Sequence::ClearInterrupt => self.interrupt_cleared(id),
        }
    }

    /// The register file after the writes of `sequence` were made for pin
    /// `id` inside a critical section.
    pub open spec fn exclusively(self, id: u8, sequence: Sequence) -> GpioState {
        self.logged(Access::EnterCritical).after(id, sequence).logged(Access::LeaveCritical)
    }

    /// The register file after `sequence` ran for pin `id`, inside a critical
    /// section if it needs one.
    pub open spec fn ran(self, id: u8, sequence: Sequence) -> GpioState {
        if sequence.needs_exclusion(id) {
            self.exclusively(id, sequence)
        } else {
            self.after(id, sequence)
        }
    }
}

impl Sequence {
    /// Whether the sequence, run for pin `id`, reads a register and writes
    /// it back.
    ///
    /// All sequences do but the clearing of a pending flag, which is a single
    /// strobe, and even that one does for a remapped pin, whose alternate
    /// selector it sets first.
    pub open spec fn needs_exclusion(self, id: u8) -> bool {
        self is ClearInterrupt ==> remapped(id)
    }

    /// Tells whether the sequence, run for pin `id`, needs a critical
    /// section.
    pub fn is_exclusive(self, id: u8) -> (needed: bool)
        ensures
            needed == self.needs_exclusion(id),
    {
        match self {
            Sequence::ClearInterrupt => is_remapped(id),
            _ => true,
        }
    }
}

impl Gpio {
    /// Puts pin `id` into input mode.
    pub fn configure_input(&mut self, id: u8, pull: Pull)
        requires
            valid(id),
        ensures
            final(self)@ == old(self)@.input_mode(id, pull),
            final(self)@.unpacked() == old(self)@.unpacked().input_mode(id, pull),
    {
        proof {
            lemma_input_mode(old(self)@, id, pull);
        }
        let port: u8 = port_number(id);
        let n: u8 = pin_index(id);
        match pull {
            Pull::Floating => {
                self.clear_bit(port, Register::PdDrv, n);
                self.clear_bit(port, Register::Pu, n);
                self.clear_bit(port, Register::Dir, n);
            },
            Pull::Up => {
                self.clear_bit(port, Register::PdDrv, n);
                self.set_bit(port, Register::Pu, n);
                self.clear_bit(port, Register::Dir, n);
            },
            Pull::Down => {
                self.set_bit(port, Register::PdDrv, n);
                self.clear_bit(port, Register::Pu, n);
                self.clear_bit(port, Register::Dir, n);
            },
        }
    }

    /// Puts pin `id` into output mode. The output latch is left as it is.
    pub fn configure_output(&mut self, id: u8, drive: OutputDrive)
        requires
            valid(id),
        ensures
            final(self)@ == old(self)@.output_mode(id, drive),
            final(self)@.unpacked() == old(self)@.unpacked().output_mode(id, drive),
    {
        proof {
            lemma_output_mode(old(self)@, id, drive);
        }
        let port: u8 = port_number(id);
        let n: u8 = pin_index(id);
        match drive {
            OutputDrive::Low => {
                self.clear_bit(port, Register::PdDrv, n);
            },
            OutputDrive::High => {
                self.set_bit(port, Register::PdDrv, n);
            },
        }
        self.clear_bit(port, Register::Pu, n);
        self.set_bit(port, Register::Dir, n);
    }

    /// Makes the interrupt line of pin `id` ready for use, and gives the
    /// line's bit position.
    pub fn route(&mut self, id: u8) -> (line: u8)
        requires
            valid(id),
        ensures
            final(self)@ == old(self)@.routed(id),
            final(self)@.unpacked() == old(self)@.unpacked().routed(remapped(id)),
            line == interrupt_line(id),
            line < WORD_BITS,
    {
        proof {
            lemma_routed(old(self)@, id);
        }
        if is_remapped(id) {
            self.select_alternate();
        }
        line_of(id)
    }

    /// Masks the interrupt of pin `id`.
    pub fn mask_interrupt(&mut self, id: u8)
        requires
            valid(id),
        ensures
            final(self)@ == old(self)@.interrupt_disabled(id),
            final(self)@.unpacked() == old(self)@.unpacked().interrupt_disabled(id),
    {
        proof {
            lemma_interrupt_disabled(old(self)@, id);
        }
        let port: u8 = port_number(id);
        let line: u8 = self.route(id);
        self.clear_bit(port, Register::IntEn, line);
    }

    /// Programs pin `id` for `trigger`.
    ///
    /// The controller takes level or edge from the mode bit of the line and
    /// the polarity from the pin's own output latch, so the latch is put low
    /// for the low level and the falling edge, high for the high level and
    /// the rising edge.
    pub fn program_trigger(&mut self, id: u8, trigger: InterruptTrigger)
        requires
            valid(id),
        ensures
            final(self)@ == old(self)@.trigger_selected(id, trigger),
            final(self)@.unpacked() == old(self)@.unpacked().trigger_selected(id, trigger),
    {
        proof {
            lemma_trigger_selected(old(self)@, id, trigger);
        }
        let port: u8 = port_number(id);
        let n: u8 = pin_index(id);
        let line: u8 = self.route(id);
        if trigger.is_edge() {
            self.set_bit(port, Register::IntMode, line);
        } else {
            self.clear_bit(port, Register::IntMode, line);
        }
        if trigger.is_active_high() {
            self.set_bit(port, Register::Out, n);
        } else {
            self.set_bit(port, Register::Clr, n);
        }
    }

    /// Strobes the pending flag of pin `id`.
    pub fn acknowledge_interrupt(&mut self, id: u8)
        requires
            valid(id),
        ensures
            final(self)@ == old(self)@.interrupt_cleared(id),
            final(self)@.unpacked() == old(self)@.unpacked().interrupt_cleared(id),
    {
        proof {
            lemma_interrupt_cleared(old(self)@, id);
        }
        let port: u8 = port_number(id);
        let line: u8 = self.route(id);
        self.strobe(port, Register::IntIf, line);
    }

    /// Unmasks the interrupt of pin `id`, after dropping a pending flag that
    /// may have been latched while it was masked.
    pub fn unmask_interrupt(&mut self, id: u8)
        requires
            valid(id),
        ensures
            final(self)@ == old(self)@.interrupt_enabled(id),
            final(self)@.unpacked() == old(self)@.unpacked().interrupt_enabled(id),
    {
        proof {
            lemma_interrupt_enabled(old(self)@, id);
        }
        let port: u8 = port_number(id);
        self.acknowledge_interrupt(id);
        self.set_bit(port, Register::IntEn, line_of(id));
    }

    /// Makes the writes of `sequence` for pin `id`.
    pub fn perform(&mut self, id: u8, sequence: Sequence)
        requires
            valid(id),
        ensures
            final(self)@ == old(self)@.after(id, sequence),
            final(self)@.unpacked() == old(self)@.unpacked().after(id, sequence),
    {
        match sequence {
            Sequence::Input(pull) => self.configure_input(id, pull),
            Sequence::Output(drive) => self.configure_output(id, drive),
            Sequence::DisableInterrupt => self.mask_interrupt(id),
            Sequence::Trigger(trigger) => self.program_trigger(id, trigger),
            Sequence::EnableInterrupt => self.unmask_interrupt(id),
            Sequence::ClearInterrupt => self.acknowledge_interrupt(id),
        }
    }

    /// Makes the writes of `sequence` for pin `id` and journals that they
    /// were made inside a critical section. Only [`exclusive`] calls this,
    /// from inside one.
    fn perform_masked(&mut self, id: u8, sequence: Sequence)
        requires
            valid(id),
        ensures
            final(self)@ == old(self)@.exclusively(id, sequence),
    {
        self.journal.push(Access::EnterCritical);
        self.perform(id, sequence);
        self.journal.push(Access::LeaveCritical);
    }

    /// Runs `sequence` for pin `id`: inside a critical section if the
    /// sequence reads a register and writes it back, as it stands if it only
    /// strobes.
    pub fn run(&mut self, id: u8, sequence: Sequence)
        requires
            valid(id),
        ensures
            final(self)@ == old(self)@.ran(id, sequence),
            final(self)@.unpacked() == old(self)@.unpacked().after(id, sequence),
    {
        proof {
            lemma_ran(old(self)@, id, sequence);
        }
        if sequence.is_exclusive(id) {
            exclusive(self, id, sequence);
        } else {
            self.perform(id, sequence);
        }
    }
}

/// Putting a latch at a level through the strobes puts that pin's latch at
/// that level and changes nothing else.
pub proof fn lemma_latched(regs: GpioState, id: u8, level: Level)
    requires
        valid(id),
    ensures
        regs.latched(id, level).unpacked() == regs.unpacked().latched(id, level),
{
    lemma_pin_latched(regs, id, level);
}

/// The three writes of the input sequence configure that pin as an input
/// with the requested pull and change nothing else.
pub proof fn lemma_input_mode(regs: GpioState, id: u8, pull: Pull)
    requires
        valid(id),
    ensures
        regs.input_mode(id, pull).unpacked() == regs.unpacked().input_mode(id, pull),
{
    let port = port_of(id);
    let n = index_of(id);
    let first = regs.with_bit(port, Register::PdDrv, n, pull.down());
    let second = first.with_bit(port, Register::Pu, n, pull.up());
    lemma_pin_configured(regs, id, Register::PdDrv, pull.down());
    lemma_pin_configured(first, id, Register::Pu, pull.up());
    lemma_pin_configured(second, id, Register::Dir, false);
    assert(regs.input_mode(id, pull).unpacked().pins =~= regs.unpacked().input_mode(id, pull).pins);
}

/// The three writes of the output sequence configure that pin as an output
/// with the requested drive and change nothing else.
pub proof fn lemma_output_mode(regs: GpioState, id: u8, drive: OutputDrive)
    requires
        valid(id),
    ensures
        regs.output_mode(id, drive).unpacked() == regs.unpacked().output_mode(id, drive),
{
    let port = port_of(id);
    let n = index_of(id);
    let first = regs.with_bit(port, Register::PdDrv, n, drive.strong());
    let second = first.with_bit(port, Register::Pu, n, false);
    lemma_pin_configured(regs, id, Register::PdDrv, drive.strong());
    lemma_pin_configured(first, id, Register::Pu, false);
    lemma_pin_configured(second, id, Register::Dir, true);
    assert(
        regs.output_mode(id, drive).unpacked().pins =~= regs.unpacked().output_mode(id, drive).pins
    );
}

/// Clearing the three configuration bits of a pin in either order leaves it
/// a floating input and changes nothing else.
pub proof fn lemma_floated(regs: GpioState, id: u8)
    requires
        valid(id),
    ensures
        regs.floated(id).unpacked() == regs.unpacked().input_mode(id, Pull::Floating),
        regs.floated(id).same_registers(regs.input_mode(id, Pull::Floating)),
{
    let port = port_of(id);
    let n = index_of(id);
    let first = regs.with_bit(port, Register::Dir, n, false);
    let second = first.with_bit(port, Register::Pu, n, false);
    lemma_pin_configured(regs, id, Register::Dir, false);
    lemma_pin_configured(first, id, Register::Pu, false);
    lemma_pin_configured(second, id, Register::PdDrv, false);
    assert(
        regs.floated(id).unpacked().pins =~= regs.unpacked().input_mode(id, Pull::Floating).pins
    );
}

/// Setting the direction bit and clearing the strength bit makes the pin a
/// weak output and changes nothing else; the pull-up bit is not touched.
pub proof fn lemma_weak_output(regs: GpioState, id: u8)
    requires
        valid(id),
    ensures
        regs.weak_output(id).unpacked() == regs.unpacked().weak_output(id),
{
    let first = regs.with_bit(port_of(id), Register::Dir, index_of(id), true);
    lemma_pin_configured(regs, id, Register::Dir, true);
    lemma_pin_configured(first, id, Register::PdDrv, false);
    assert(regs.weak_output(id).unpacked().pins =~= regs.unpacked().weak_output(id).pins);
}

/// Setting the pull-up bit and clearing the pull-down bit changes those two
/// bits of the pin and nothing else.
pub proof fn lemma_pulled_up(regs: GpioState, id: u8)
    requires
        valid(id),
    ensures
        regs.pulled_up(id).unpacked() == regs.unpacked().pulled_up(id),
{
    let first = regs.with_bit(port_of(id), Register::Pu, index_of(id), true);
    lemma_pin_configured(regs, id, Register::Pu, true);
    lemma_pin_configured(first, id, Register::PdDrv, false);
    assert(regs.pulled_up(id).unpacked().pins =~= regs.unpacked().pulled_up(id).pins);
}

/// Writing the strength bit changes that bit of the pin and nothing else.
pub proof fn lemma_drive_selected(regs: GpioState, id: u8, drive: OutputDrive)
    requires
        valid(id),
    ensures
        regs.drive_selected(id, drive).unpacked() == regs.unpacked().drive_selected(id, drive),
{
    lemma_pin_configured(regs, id, Register::PdDrv, drive.strong());
}

/// Making a line ready sets the alternate selector for a remapped pin and
/// changes nothing else.
pub proof fn lemma_routed(regs: GpioState, id: u8)
    ensures
        regs.routed(id).unpacked() == regs.unpacked().routed(remapped(id)),
{
    lemma_alternate_selected(regs);
    assert(regs.unpacked().routed(false) == regs.unpacked());
}

/// Masking an interrupt clears the enable bit of the pin's line and changes
/// nothing else but the selector.
pub proof fn lemma_interrupt_disabled(regs: GpioState, id: u8)
    requires
        valid(id),
    ensures
        regs.interrupt_disabled(id).unpacked() == regs.unpacked().interrupt_disabled(id),
{
    lemma_line_key(id);
    lemma_routed(regs, id);
    lemma_line_configured(regs.routed(id), line_key(id), Register::IntEn, false);
}

/// Programming a trigger writes the mode bit of the pin's line and the latch
/// of the pin, and changes nothing else but the selector.
pub proof fn lemma_trigger_selected(regs: GpioState, id: u8, trigger: InterruptTrigger)
    requires
        valid(id),
    ensures
        regs.trigger_selected(id, trigger).unpacked() == regs.unpacked().trigger_selected(
            id,
            trigger,
        ),
{
    lemma_line_key(id);
    lemma_routed(regs, id);
    let routed = regs.routed(id);
    lemma_line_configured(routed, line_key(id), Register::IntMode, trigger.edge());
    let moded = routed.with_bit(
        port_of(id),
        Register::IntMode,
        interrupt_line(id),
        trigger.edge(),
    );
    lemma_latched(moded, id, Level::of(trigger.active_high()));
}

/// Strobing a pending flag clears the flag of the pin's line and changes
/// nothing else but the selector.
pub proof fn lemma_interrupt_cleared(regs: GpioState, id: u8)
    requires
        valid(id),
    ensures
        regs.interrupt_cleared(id).unpacked() == regs.unpacked().interrupt_cleared(id),
{
    lemma_line_key(id);
    lemma_routed(regs, id);
    lemma_line_acknowledged(regs.routed(id), line_key(id));
}

/// Unmasking an interrupt leaves the pin's line enabled with no pending
/// flag, and changes nothing else but the selector.
pub proof fn lemma_interrupt_enabled(regs: GpioState, id: u8)
    requires
        valid(id),
    ensures
        regs.interrupt_enabled(id).unpacked() == regs.unpacked().interrupt_enabled(id),
{
    lemma_line_key(id);
    lemma_interrupt_cleared(regs, id);
    let cleared = regs.interrupt_cleared(id);
    lemma_line_configured(cleared, line_key(id), Register::IntEn, true);
    assert(
        regs.interrupt_enabled(id).unpacked().lines =~= regs.unpacked().interrupt_enabled(id).lines
    );
}

/// Each sequence does to the pins and lines what its name says: unpacking the
/// registers after the sequence gives the view-level result of the sequence
/// applied to the unpacked registers before it.
pub proof fn lemma_after(regs: GpioState, id: u8, sequence: Sequence)
    requires
        valid(id),
    ensures
        regs.after(id, sequence).unpacked() == regs.unpacked().after(id, sequence),
{
    match sequence {
        Sequence::Input(pull) => lemma_input_mode(regs, id, pull),
        Sequence::Output(drive) => lemma_output_mode(regs, id, drive),
        Sequence::DisableInterrupt => lemma_interrupt_disabled(regs, id),
        Sequence::Trigger(trigger) => lemma_trigger_selected(regs, id, trigger),
        Sequence::EnableInterrupt => lemma_interrupt_enabled(regs, id),
        Sequence::ClearInterrupt => lemma_interrupt_cleared(regs, id),
    }
}

/// Running a sequence changes the view as making its writes does: the marks
/// of the critical section touch no register.
pub proof fn lemma_ran(regs: GpioState, id: u8, sequence: Sequence)
    requires
        valid(id),
    ensures
        regs.ran(id, sequence).unpacked() == regs.unpacked().after(id, sequence),
        regs.ran(id, sequence).same_registers(regs.after(id, sequence)),
{
    let entered = regs.logged(Access::EnterCritical);
    lemma_after(regs, id, sequence);
    lemma_after(entered, id, sequence);
    lemma_journal_apart(regs, entered, id, sequence);
    assert(entered.unpacked().pins =~= regs.unpacked().pins);
    assert(entered.unpacked().lines =~= regs.unpacked().lines);
    let done = entered.after(id, sequence);
    let left = done.logged(Access::LeaveCritical);
    assert(left.unpacked().pins =~= done.unpacked().pins);
    assert(left.unpacked().lines =~= done.unpacked().lines);
}

/// What a sequence does to the registers does not depend on what the journal
/// held before, and what it adds to the journal depends on the registers
/// only.
pub proof fn lemma_journal_apart(a: GpioState, b: GpioState, id: u8, sequence: Sequence)
    requires
        a.same_registers(b),
    ensures
        a.after(id, sequence).same_registers(b.after(id, sequence)),
        a.after(id, sequence).since(a) == b.after(id, sequence).since(b),
{
    assert(a.after(id, sequence).since(a) =~= b.after(id, sequence).since(b));
}

/// Makes the writes of `sequence` for pin `id` inside
/// `critical_section::with`.
///
/// `with` enters the critical section, calls the closure it is given once,
/// leaves the critical section and returns what the closure returned; it
/// panics only if the closure does. The closure here calls
/// [`Gpio::perform_masked`], so the register file ends up as that function
/// leaves it, and the two marks that it journals around the writes are put
/// there while the critical section is held.
#[verifier::external_body]
fn exclusive(regs: &mut Gpio, id: u8, sequence: Sequence)
    requires
        valid(id),
    ensures
        final(regs)@ == old(regs)@.exclusively(id, sequence),
{
    critical_section::with(|_| regs.perform_masked(id, sequence))
}

} // verus!
