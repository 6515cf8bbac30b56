//! What holds of the pin operations whatever the registers held before.
//!
//! The operations themselves state what they do to the register file. The
//! lemmas here draw the consequences that a user of the drivers relies on.

use vstd::prelude::*;
use crate::bits::{lemma_mask, lemma_rewrite, lemma_strobe, mask};
use crate::identity::{index_of, interrupt_line, port_of, remapped, valid};
use crate::level::Level;
use crate::mode::{Mode, OutputDrive, Pull};
use crate::registers::{Access, GpioState, Register};
use crate::sequences::{lemma_input_mode, lemma_latched, lemma_output_mode, lemma_ran, Sequence};
use crate::view::{lemma_line_key, line_key};

verus! {

/// Whether `added` is the journal of one critical section: it begins with
/// the entering, ends with the leaving, and holds nothing but writes in
/// between.
pub open spec fn one_critical_section(added: Seq<Access>) -> bool {
    &&& added.len() >= 2
    &&& added.first() == Access::EnterCritical
    &&& added.last() == Access::LeaveCritical
    &&& forall|k: int|
        0 < k < added.len() - 1 ==> added[k] is Write || added[k] == Access::SelectAlternate
}

/// Whether `added` sets the alternate selector as the first thing after
/// entering the critical section, and nowhere else.
pub open spec fn selects_alternate_once_and_first(added: Seq<Access>) -> bool {
    &&& added.len() >= 2
    &&& added[1] == Access::SelectAlternate
    &&& forall|k: int| 0 <= k < added.len() && k != 1 ==> added[k] != Access::SelectAlternate
}

/// Whether `added` never sets the alternate selector.
pub open spec fn never_selects_alternate(added: Seq<Access>) -> bool {
    forall|k: int| 0 <= k < added.len() ==> added[k] != Access::SelectAlternate
}

/// Whether `sequence` is one of the four that work on a pin's interrupt.
pub open spec fn concerns_interrupt(sequence: Sequence) -> bool {
    !(sequence is Input) && !(sequence is Output)
}

/// After reset every pin is a floating input with a low latch, no interrupt
/// is enabled or pending, and the alternate selector is clear.
pub proof fn lemma_reset_state(regs: GpioState, id: u8)
    requires
        valid(id),
        regs.same_registers(GpioState::reset()),
    ensures
        regs.pin(id).mode() == Some(Mode::Input(Pull::Floating)),
        regs.pin(id).latch == Level::Low,
        !regs.line(id).enabled,
        !regs.line(id).pending,
        !regs.unpacked().alternate,
        regs.unpacked().canonical(),
{
    assert forall|p: u8| valid(p) implies (#[trigger] regs.unpacked().pins[p]).mode() is Some by {
        lemma_mask(index_of(p), index_of(p));
    }
    lemma_mask(index_of(id), index_of(id));
}

/// Mode exclusivity. After a pin was made an input its direction bit reads
/// input, whatever the pull; after it was made an output its direction bit
/// reads output and its strength bit is the requested drive. Either way the
/// three configuration bits encode exactly the mode that was asked for.
pub proof fn lemma_mode_exclusive(regs: GpioState, id: u8, pull: Pull, drive: OutputDrive)
    requires
        valid(id),
    ensures
        !regs.ran(id, Sequence::Input(pull)).pin(id).output,
        regs.ran(id, Sequence::Input(pull)).pin(id).mode() == Some(Mode::Input(pull)),
        regs.ran(id, Sequence::Output(drive)).pin(id).output,
        regs.ran(id, Sequence::Output(drive)).pin(id).pd_drv == drive.strong(),
        regs.ran(id, Sequence::Output(drive)).pin(id).mode() == Some(Mode::Output(drive)),
{
    let input = regs.ran(id, Sequence::Input(pull));
    let output = regs.ran(id, Sequence::Output(drive));
    lemma_ran(regs, id, Sequence::Input(pull));
    lemma_ran(regs, id, Sequence::Output(drive));
    assert(input.pin(id) == input.unpacked().pins[id]);
    assert(output.pin(id) == output.unpacked().pins[id]);
}

/// If the configuration bits of every pin encode a mode, they still do after
/// any pin was made an input or an output.
pub proof fn lemma_modes_stay_canonical(regs: GpioState, id: u8, pull: Pull, drive: OutputDrive)
    requires
        valid(id),
        regs.unpacked().canonical(),
    ensures
        regs.ran(id, Sequence::Input(pull)).unpacked().canonical(),
        regs.ran(id, Sequence::Output(drive)).unpacked().canonical(),
{
    lemma_ran(regs, id, Sequence::Input(pull));
    lemma_ran(regs, id, Sequence::Output(drive));
    let input = regs.ran(id, Sequence::Input(pull)).unpacked();
    let output = regs.ran(id, Sequence::Output(drive)).unpacked();
    assert forall|p: u8| valid(p) implies (#[trigger] input.pins[p]).mode() is Some by {
        assert(regs.unpacked().pins[p].mode() is Some);
    }
    assert forall|p: u8| valid(p) implies (#[trigger] output.pins[p]).mode() is Some by {
        assert(regs.unpacked().pins[p].mode() is Some);
    }
}

/// Level idempotence of the latch. Putting the latch at a level twice in
/// succession leaves it reading that level, with every register as the
/// first write left it.
pub proof fn lemma_latch_twice(regs: GpioState, id: u8, level: Level)
    requires
        valid(id),
    ensures
        regs.latched(id, level).latched(id, level).pin(id).latch == level,
        regs.latched(id, level).latched(id, level).same_registers(regs.latched(id, level)),
{
    let once = regs.latched(id, level);
    let twice = once.latched(id, level);
    lemma_latched(once, id, level);
    assert(twice.pin(id) == twice.unpacked().pins[id]);
    lemma_strobe(regs.bank(port_of(id)).out, index_of(id));
    lemma_rewrite(regs.bank(port_of(id)).out, index_of(id));
    lemma_strobe(once.bank(port_of(id)).out, index_of(id));
    lemma_rewrite(once.bank(port_of(id)).out, index_of(id));
}

/// Toggling twice returns the latch to the level it had, and with it every
/// register to what it held.
pub proof fn lemma_toggle_twice(regs: GpioState, id: u8)
    requires
        valid(id),
    ensures
        regs.toggled(id).pin(id).latch == regs.pin(id).latch.inverted(),
        regs.toggled(id).toggled(id).pin(id).latch == regs.pin(id).latch,
        regs.toggled(id).toggled(id).same_registers(regs),
{
    let once = regs.toggled(id);
    let twice = once.toggled(id);
    lemma_latched(regs, id, regs.pin(id).latch.inverted());
    assert(once.pin(id) == once.unpacked().pins[id]);
    lemma_latched(once, id, once.pin(id).latch.inverted());
    assert(twice.pin(id) == twice.unpacked().pins[id]);
    assert(regs.pin(id) == regs.unpacked().pins[id]);
    lemma_strobe(regs.bank(port_of(id)).out, index_of(id));
    lemma_rewrite(regs.bank(port_of(id)).out, index_of(id));
    lemma_strobe(once.bank(port_of(id)).out, index_of(id));
    lemma_rewrite(once.bank(port_of(id)).out, index_of(id));
}

/// Interrupt remapping. Each of the four interrupt sequences works on the
/// line of the pin and on no other line: line 8 for pin 22 of port 1, line 9
/// for pin 23 of port 1, the line of the pin's own index for every other
/// pin. For the two remapped pins the sequence sets the alternate selector
/// before it writes anything else, and sets it only that once; for every
/// other pin the selector is not written at all.
pub proof fn lemma_interrupt_remapped(regs: GpioState, id: u8, sequence: Sequence)
    requires
        valid(id),
        concerns_interrupt(sequence),
    ensures
        regs.ran(id, sequence).unpacked() == regs.unpacked().after(id, sequence),
        port_of(line_key(id)) == port_of(id),
        index_of(line_key(id)) == (if remapped(id) {
            index_of(id) - 14
        } else {
            index_of(id) as int
        }),
        forall|key: u8|
            valid(key) && key != line_key(id) ==> #[trigger] regs.ran(id, sequence).line(key)
                == regs.line(key),
        remapped(id) ==> regs.ran(id, sequence).ctl.intx,
        !remapped(id) ==> regs.ran(id, sequence).ctl.intx == regs.ctl.intx,
        remapped(id) ==> selects_alternate_once_and_first(regs.ran(id, sequence).since(regs)),
        !remapped(id) ==> never_selects_alternate(regs.ran(id, sequence).since(regs)),
{
    lemma_ran(regs, id, sequence);
    lemma_line_key(id);
    let next = regs.ran(id, sequence);
    assert forall|key: u8| valid(key) && key != line_key(id) implies #[trigger] next.line(key)
        == regs.line(key) by {
        assert(next.line(key) == next.unpacked().lines[key]);
        assert(regs.line(key) == regs.unpacked().lines[key]);
    }
    let added = next.since(regs);
    let start = regs.journal.len() as int;
    assert forall|k: int| 0 <= k < added.len() implies (added[k] == Access::SelectAlternate <==> (
    remapped(id) && k == 1)) by {
        assert(added[k] == next.journal[start + k]);
    }
}

/// Critical sections. A sequence that reads a register and writes it back
/// makes all its writes inside one critical section. The one sequence that
/// is left outside is the clearing of the pending flag of a pin that is not
/// remapped, and it is a single write that strobes the pin's flag.
pub proof fn lemma_exclusion(regs: GpioState, id: u8, sequence: Sequence)
    requires
        valid(id),
    ensures
        sequence.needs_exclusion(id) ==> one_critical_section(regs.ran(id, sequence).since(regs)),
        !sequence.needs_exclusion(id) ==> regs.ran(id, sequence).since(regs) == seq![
            Access::Write {
                port: port_of(id),
                register: Register::IntIf,
                value: mask(interrupt_line(id)),
            },
        ],
{
    let next = regs.ran(id, sequence);
    let added = next.since(regs);
    let start = regs.journal.len() as int;
    if sequence.needs_exclusion(id) {
        assert(added.first() == next.journal[start]);
        assert(added.last() == next.journal[start + added.len() - 1]);
        assert forall|k: int| 0 < k < added.len() - 1 implies added[k] is Write || added[k]
            == Access::SelectAlternate by {
            assert(added[k] == next.journal[start + k]);
        }
    } else {
        assert(added =~= seq![
            Access::Write {
                port: port_of(id),
                register: Register::IntIf,
                value: mask(interrupt_line(id)),
            },
        ]);
    }
}

/// Enabling clears a stale flag. After the interrupt of a pin was unmasked
/// its line is enabled and has no pending flag, whatever was latched before;
/// the flag was strobed before the enable bit was written.
pub proof fn lemma_enable_clears_stale_flag(regs: GpioState, id: u8)
    requires
        valid(id),
    ensures
        regs.ran(id, Sequence::EnableInterrupt).line(line_key(id)).enabled,
        !regs.ran(id, Sequence::EnableInterrupt).line(line_key(id)).pending,
        ({
            let added = regs.ran(id, Sequence::EnableInterrupt).since(regs);
            let n = added.len();
            &&& n >= 4
            &&& added[n - 3] matches Access::Write { port, register, value }
            &&& port == port_of(id) && register == Register::IntIf && value == mask(
                interrupt_line(id),
            )
            &&& added[n - 2] matches Access::Write { port, register, value }
            &&& port == port_of(id) && register == Register::IntEn
        }),
{
    lemma_ran(regs, id, Sequence::EnableInterrupt);
    lemma_line_key(id);
    let next = regs.ran(id, Sequence::EnableInterrupt);
    assert(next.line(line_key(id)) == next.unpacked().lines[line_key(id)]);
    let added = next.since(regs);
    let start = regs.journal.len() as int;
    let n = added.len() as int;
    assert(added[n - 3] == next.journal[start + n - 3]);
    assert(added[n - 2] == next.journal[start + n - 2]);
}

} // verus!
