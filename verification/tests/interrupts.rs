use ch58x_gpio::flex::Flex;
use ch58x_gpio::peripherals::Peripherals;
use ch58x_gpio::pin::AnyPin;
use ch58x_gpio::registers::{Access, Gpio, Register};
use ch58x_gpio::trigger::InterruptTrigger;

const TRIGGERS: [InterruptTrigger; 4] = [
    InterruptTrigger::LowLevel,
    InterruptTrigger::HighLevel,
    InterruptTrigger::RisingEdge,
    InterruptTrigger::FallingEdge,
];

fn selector_writes(journal: &[Access]) -> usize {
    journal.iter().filter(|access| **access == Access::SelectAlternate).count()
}

#[test]
fn set_trigger_writes_the_mode_bit() {
    for trigger in TRIGGERS {
        let p = Peripherals::steal();
        let mut regs = Gpio::new();
        regs.ctl.pa_int_mode = 0x00f0;
        let mut pin = Flex::new(p.PA5);
        pin.set_trigger(&mut regs, trigger);
        let edge = matches!(trigger, InterruptTrigger::RisingEdge | InterruptTrigger::FallingEdge);
        assert_eq!(regs.ctl.pa_int_mode, if edge { 0x00f0 } else { 0x00d0 }, "{:?}", trigger);
        assert_eq!(regs.ctl.pb_int_mode, 0);
        assert!(!regs.ctl.intx);
    }
}

#[test]
fn set_trigger_puts_the_latch_at_the_polarity() {
    for trigger in TRIGGERS {
        for latch in [0u32, 0xffff_ffff] {
            let p = Peripherals::steal();
            let mut regs = Gpio::new();
            regs.pb.out = latch;
            let mut pin = Flex::new(p.PB7);
            pin.set_trigger(&mut regs, trigger);
            let high =
                matches!(trigger, InterruptTrigger::HighLevel | InterruptTrigger::RisingEdge);
            assert_eq!(regs.pb.out & (1 << 7) != 0, high, "{:?}", trigger);
            assert_eq!(regs.pb.out | (1 << 7), latch | (1 << 7));
            assert_eq!(regs.pa.out, 0);
        }
    }
}

#[test]
fn set_trigger_of_a_remapped_pin_arms_the_pin_itself() {
    let p = Peripherals::steal();
    let mut regs = Gpio::new();
    regs.pb.out = (1 << 22) | (1 << 8);
    let mut pin = Flex::new(p.PB22);
    pin.set_trigger(&mut regs, InterruptTrigger::FallingEdge);
    assert_eq!(regs.pb.out, 1 << 8);
    assert_eq!(regs.ctl.pb_int_mode, 1 << 8);
    assert!(regs.ctl.intx);
    pin.set_trigger(&mut regs, InterruptTrigger::HighLevel);
    assert_eq!(regs.pb.out, (1 << 22) | (1 << 8));
    assert_eq!(regs.ctl.pb_int_mode, 0);
}

#[test]
fn set_trigger_write_order() {
    let p = Peripherals::steal();
    let mut regs = Gpio::new();
    let mut pin = Flex::new(p.PB23);
    pin.set_trigger(&mut regs, InterruptTrigger::RisingEdge);
    assert_eq!(
        regs.journal,
        vec![
            Access::EnterCritical,
            Access::SelectAlternate,
            Access::Write { port: 1, register: Register::IntMode, value: 1 << 9 },
            Access::Write { port: 1, register: Register::Out, value: 1 << 23 },
            Access::LeaveCritical,
        ]
    );
}

#[test]
fn enable_interrupt_sets_the_enable_bit() {
    let p = Peripherals::steal();
    let mut regs = Gpio::new();
    regs.ctl.pa_int_en = 0b0001;
    let mut pin = Flex::new(p.PA10);
    pin.enable_interrupt(&mut regs);
    assert_eq!(regs.ctl.pa_int_en, (1 << 10) | 1);
    assert_eq!(regs.ctl.pb_int_en, 0);
    assert!(!regs.ctl.intx);
}

#[test]
fn enable_interrupt_drops_a_stale_flag() {
    let p = Peripherals::steal();
    let mut regs = Gpio::new();
    regs.ctl.pa_int_if = (1 << 10) | (1 << 3);
    regs.ctl.pb_int_if = 1 << 10;
    let mut pin = Flex::new(p.PA10);
    pin.enable_interrupt(&mut regs);
    assert_eq!(regs.ctl.pa_int_if & (1 << 10), 0);
    // Flags of other lines stay latched.
    assert_eq!(regs.ctl.pa_int_if, 1 << 3);
    assert_eq!(regs.ctl.pb_int_if, 1 << 10);
    assert_eq!(regs.ctl.pa_int_en, 1 << 10);
}

#[test]
fn enable_interrupt_strobes_the_flag_before_it_enables() {
    let p = Peripherals::steal();
    let mut regs = Gpio::new();
    regs.ctl.pa_int_en = 1;
    let mut pin = Flex::new(p.PA10);
    pin.enable_interrupt(&mut regs);
    assert_eq!(
        regs.journal,
        vec![
            Access::EnterCritical,
            Access::Write { port: 0, register: Register::IntIf, value: 1 << 10 },
            Access::Write { port: 0, register: Register::IntEn, value: (1 << 10) | 1 },
            Access::LeaveCritical,
        ]
    );
}

#[test]
fn disable_interrupt_clears_the_enable_bit() {
    let p = Peripherals::steal();
    let mut regs = Gpio::new();
    regs.ctl.pb_int_en = 0xffff_ffff;
    regs.ctl.pa_int_en = 0xffff_ffff;
    let mut pin = Flex::new(p.PB12);
    pin.disable_interrupt(&mut regs);
    assert_eq!(regs.ctl.pb_int_en, !(1u32 << 12));
    assert_eq!(regs.ctl.pa_int_en, 0xffff_ffff);
    pin.disable_interrupt(&mut regs);
    assert_eq!(regs.ctl.pb_int_en, !(1u32 << 12));
}

#[test]
fn clear_interrupt_drops_the_flag_of_the_line_only() {
    let p = Peripherals::steal();
    let mut regs = Gpio::new();
    regs.ctl.pa_int_if = 0xffff;
    regs.ctl.pb_int_if = 0xffff;
    let mut pin = Flex::new(p.PA14);
    pin.clear_interrupt(&mut regs);
    assert_eq!(regs.ctl.pa_int_if, 0xffff & !(1 << 14));
    assert_eq!(regs.ctl.pb_int_if, 0xffff);
    assert_eq!(
        regs.journal,
        vec![Access::Write { port: 0, register: Register::IntIf, value: 1 << 14 }]
    );
}

#[test]
fn clear_interrupt_of_a_remapped_pin_drops_the_flag_of_its_line_only() {
    let p = Peripherals::steal();
    let mut regs = Gpio::new();
    regs.ctl.pb_int_if = 0x00ff_ffff;
    let mut pin = Flex::new(p.PB23);
    pin.clear_interrupt(&mut regs);
    assert_eq!(regs.ctl.pb_int_if, 0x00ff_ffff & !(1 << 9));
    assert!(regs.ctl.intx);
    assert_eq!(
        regs.journal,
        vec![
            Access::EnterCritical,
            Access::SelectAlternate,
            Access::Write { port: 1, register: Register::IntIf, value: 1 << 9 },
            Access::LeaveCritical,
        ]
    );
}

#[test]
fn remapped_pins_are_served_by_lines_8_and_9_in_every_operation() {
    for (id, line) in [(54u8, 8u8), (55, 9)] {
        let mut regs = Gpio::new();
        regs.ctl.pb_int_if = 0xffff_ffff;
        let mut pin = Flex::new(AnyPin::steal(id));

        pin.set_trigger(&mut regs, InterruptTrigger::RisingEdge);
        assert_eq!(regs.ctl.pb_int_mode, 1 << line);

        pin.enable_interrupt(&mut regs);
        assert_eq!(regs.ctl.pb_int_en, 1 << line);
        assert_eq!(regs.ctl.pb_int_if, !(1u32 << line));

        regs.ctl.pb_int_if = 0xffff_ffff;
        pin.clear_interrupt(&mut regs);
        assert_eq!(regs.ctl.pb_int_if, !(1u32 << line));

        pin.disable_interrupt(&mut regs);
        assert_eq!(regs.ctl.pb_int_en, 0);
        pin.set_trigger(&mut regs, InterruptTrigger::LowLevel);
        assert_eq!(regs.ctl.pb_int_mode, 0);

        assert!(regs.ctl.intx);
        assert_eq!(regs.ctl.pa_int_en, 0);
        assert_eq!(regs.ctl.pa_int_mode, 0);
        assert_eq!(regs.ctl.pa_int_if, 0);
    }
}

#[test]
fn remapped_pins_set_the_selector_once_and_first() {
    for id in [54u8, 55] {
        let mut regs = Gpio::new();
        let mut pin = Flex::new(AnyPin::steal(id));
        pin.enable_interrupt(&mut regs);
        assert_eq!(regs.journal[0], Access::EnterCritical);
        assert_eq!(regs.journal[1], Access::SelectAlternate);
        assert_eq!(selector_writes(&regs.journal), 1);

        regs.journal.clear();
        pin.disable_interrupt(&mut regs);
        assert_eq!(regs.journal[0], Access::EnterCritical);
        assert_eq!(regs.journal[1], Access::SelectAlternate);
        assert_eq!(selector_writes(&regs.journal), 1);

        regs.journal.clear();
        pin.clear_interrupt(&mut regs);
        assert_eq!(regs.journal[0], Access::EnterCritical);
        assert_eq!(regs.journal[1], Access::SelectAlternate);
        assert_eq!(selector_writes(&regs.journal), 1);

        regs.journal.clear();
        pin.set_trigger(&mut regs, InterruptTrigger::FallingEdge);
        assert_eq!(regs.journal[0], Access::EnterCritical);
        assert_eq!(regs.journal[1], Access::SelectAlternate);
        assert_eq!(selector_writes(&regs.journal), 1);
    }
}

#[test]
fn every_other_pin_is_served_by_the_line_of_its_index() {
    for id in 0u8..64 {
        if id == 54 || id == 55 {
            continue;
        }
        let port = id / 32;
        let index = id % 32;
        let mut regs = Gpio::new();
        let mut pin = Flex::new(AnyPin::steal(id));
        pin.set_trigger(&mut regs, InterruptTrigger::FallingEdge);
        pin.enable_interrupt(&mut regs);
        let (mine_en, mine_mode, other_en, other_mode) = if port == 0 {
            (regs.ctl.pa_int_en, regs.ctl.pa_int_mode, regs.ctl.pb_int_en, regs.ctl.pb_int_mode)
        } else {
            (regs.ctl.pb_int_en, regs.ctl.pb_int_mode, regs.ctl.pa_int_en, regs.ctl.pa_int_mode)
        };
        assert_eq!(mine_en, 1 << index, "identity {}", id);
        assert_eq!(mine_mode, 1 << index, "identity {}", id);
        assert_eq!(other_en, 0);
        assert_eq!(other_mode, 0);
        assert!(!regs.ctl.intx, "identity {}", id);
        assert_eq!(selector_writes(&regs.journal), 0);
        pin.disable_interrupt(&mut regs);
        pin.clear_interrupt(&mut regs);
        assert!(!regs.ctl.intx);
        assert_eq!(selector_writes(&regs.journal), 0);
    }
}

#[test]
fn read_modify_write_sequences_run_in_one_critical_section() {
    for id in [0u8, 8, 40, 54, 55, 63] {
        let mut regs = Gpio::new();
        let mut pin = Flex::new(AnyPin::steal(id));
        let mut check = |regs: &mut Gpio| {
            let journal = regs.take_journal();
            assert_eq!(journal.first(), Some(&Access::EnterCritical));
            assert_eq!(journal.last(), Some(&Access::LeaveCritical));
            let inner = &journal[1..journal.len() - 1];
            assert!(!inner.is_empty());
            assert!(inner
                .iter()
                .all(|a| matches!(a, Access::Write { .. } | Access::SelectAlternate)));
        };
        pin.set_as_input(&mut regs, ch58x_gpio::mode::Pull::Up);
        check(&mut regs);
        pin.set_as_output(&mut regs, ch58x_gpio::mode::OutputDrive::Low);
        check(&mut regs);
        pin.set_trigger(&mut regs, InterruptTrigger::HighLevel);
        check(&mut regs);
        pin.enable_interrupt(&mut regs);
        check(&mut regs);
        pin.disable_interrupt(&mut regs);
        check(&mut regs);
    }
}

#[test]
fn clearing_a_flag_is_a_bare_strobe_unless_the_pin_is_remapped() {
    for id in 0u8..64 {
        let mut regs = Gpio::new();
        let mut pin = Flex::new(AnyPin::steal(id));
        pin.clear_interrupt(&mut regs);
        if id == 54 || id == 55 {
            assert_eq!(regs.journal.len(), 4, "identity {}", id);
            assert_eq!(regs.journal[0], Access::EnterCritical);
            assert_eq!(regs.journal[3], Access::LeaveCritical);
        } else {
            assert_eq!(
                regs.journal,
                vec![Access::Write {
                    port: id / 32,
                    register: Register::IntIf,
                    value: 1 << (id % 32)
                }],
                "identity {}",
                id
            );
        }
    }
}

#[test]
fn pin_22_of_port_0_is_not_remapped() {
    let mut regs = Gpio::new();
    let mut pin = Flex::new(AnyPin::steal(22));
    pin.enable_interrupt(&mut regs);
    assert_eq!(regs.ctl.pa_int_en, 1 << 22);
    assert!(!regs.ctl.intx);
}

#[test]
fn interrupt_operations_leave_the_configuration_alone() {
    let p = Peripherals::steal();
    let mut regs = Gpio::new();
    regs.pb.dir = 0x1111;
    regs.pb.pu = 0x2222;
    regs.pb.pd_drv = 0x4444;
    regs.pb.pin = 0x8888;
    let mut pin = Flex::new(p.PB22);
    pin.set_trigger(&mut regs, InterruptTrigger::HighLevel);
    pin.enable_interrupt(&mut regs);
    pin.clear_interrupt(&mut regs);
    pin.disable_interrupt(&mut regs);
    assert_eq!(
        (regs.pb.dir, regs.pb.pu, regs.pb.pd_drv, regs.pb.pin),
        (0x1111, 0x2222, 0x4444, 0x8888)
    );
}
