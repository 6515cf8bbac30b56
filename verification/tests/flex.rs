use ch58x_gpio::flex::Flex;
use ch58x_gpio::level::Level;
use ch58x_gpio::mode::{OutputDrive, Pull};
use ch58x_gpio::peripherals::Peripherals;
use ch58x_gpio::pin::AnyPin;
use ch58x_gpio::registers::{Access, Gpio, InterruptController, Register, RegisterBlock};

fn bit(word: u32, n: u8) -> bool {
    word & (1 << n) != 0
}

fn zero_controller() -> InterruptController {
    InterruptController {
        pa_int_en: 0,
        pb_int_en: 0,
        pa_int_mode: 0,
        pb_int_mode: 0,
        pa_int_if: 0,
        pb_int_if: 0,
        intx: false,
    }
}

#[test]
fn new_touches_no_register() {
    let p = Peripherals::steal();
    let regs = Gpio::new();
    let pin = Flex::new(p.PA8);
    assert_eq!(regs, Gpio::new());
    assert!(pin.is_low(&regs));
    assert!(pin.is_set_low(&regs));
}

#[test]
fn set_as_input_reads_input_for_every_pull() {
    for pull in [Pull::Floating, Pull::Up, Pull::Down] {
        let p = Peripherals::steal();
        let mut regs = Gpio::new();
        regs.pa.dir = 0xffff_ffff;
        regs.pa.pu = 0xffff_ffff;
        regs.pa.pd_drv = 0xffff_ffff;
        let mut pin = Flex::new(p.PA8);
        pin.set_as_input(&mut regs, pull);
        assert!(!bit(regs.pa.dir, 8), "{:?}", pull);
        assert_eq!(bit(regs.pa.pu, 8), pull == Pull::Up, "{:?}", pull);
        assert_eq!(bit(regs.pa.pd_drv, 8), pull == Pull::Down, "{:?}", pull);
        assert_eq!(regs.pa.dir, !(1u32 << 8));
        assert_eq!(regs.pa.pu | (1 << 8), 0xffff_ffff);
        assert_eq!(regs.pa.pd_drv | (1 << 8), 0xffff_ffff);
    }
}

#[test]
fn set_as_input_exact_registers() {
    let p = Peripherals::steal();
    let mut regs = Gpio::new();
    let mut pin = Flex::new(p.PB4);
    pin.set_as_input(&mut regs, Pull::Up);
    assert_eq!(regs.pb, RegisterBlock { dir: 0, pin: 0, out: 0, pu: 1 << 4, pd_drv: 0 });
    pin.set_as_input(&mut regs, Pull::Down);
    assert_eq!(regs.pb, RegisterBlock { dir: 0, pin: 0, out: 0, pu: 0, pd_drv: 1 << 4 });
    pin.set_as_input(&mut regs, Pull::Floating);
    assert_eq!(regs.pb, RegisterBlock { dir: 0, pin: 0, out: 0, pu: 0, pd_drv: 0 });
    assert_eq!(regs.pa, RegisterBlock { dir: 0, pin: 0, out: 0, pu: 0, pd_drv: 0 });
    assert_eq!(regs.ctl, zero_controller());
}

#[test]
fn set_as_input_writes_pull_down_then_pull_up_then_direction() {
    let p = Peripherals::steal();
    let mut regs = Gpio::new();
    regs.pa.dir = 1 << 2;
    let mut pin = Flex::new(p.PA2);
    pin.set_as_input(&mut regs, Pull::Up);
    assert_eq!(
        regs.journal,
        vec![
            Access::EnterCritical,
            Access::Write { port: 0, register: Register::PdDrv, value: 0 },
            Access::Write { port: 0, register: Register::Pu, value: 1 << 2 },
            Access::Write { port: 0, register: Register::Dir, value: 0 },
            Access::LeaveCritical,
        ]
    );
}

#[test]
fn set_as_output_reads_output_with_the_requested_drive() {
    for drive in [OutputDrive::Low, OutputDrive::High] {
        let p = Peripherals::steal();
        let mut regs = Gpio::new();
        regs.pb.pd_drv = 0x0f0f_0f0f;
        let mut pin = Flex::new(p.PB13);
        pin.set_as_output(&mut regs, drive);
        assert!(bit(regs.pb.dir, 13));
        assert_eq!(bit(regs.pb.pd_drv, 13), drive == OutputDrive::High);
        assert_eq!(regs.pb.dir, 1 << 13);
        assert_eq!(regs.pb.pd_drv & !(1 << 13), 0x0f0f_0f0f & !(1 << 13));
        assert_eq!(regs.pa, RegisterBlock { dir: 0, pin: 0, out: 0, pu: 0, pd_drv: 0 });
    }
}

#[test]
fn set_as_output_switches_the_pull_up_off() {
    let p = Peripherals::steal();
    let mut regs = Gpio::new();
    let mut pin = Flex::new(p.PA1);
    pin.set_as_input(&mut regs, Pull::Up);
    assert!(bit(regs.pa.pu, 1));
    pin.set_as_output(&mut regs, OutputDrive::Low);
    assert!(!bit(regs.pa.pu, 1));
    assert!(bit(regs.pa.dir, 1));
    assert!(!bit(regs.pa.pd_drv, 1));
}

#[test]
fn set_as_output_keeps_the_latch() {
    for latch in [0u32, 1 << 7, 0xffff_ffff] {
        let p = Peripherals::steal();
        let mut regs = Gpio::new();
        regs.pa.out = latch;
        let mut pin = Flex::new(p.PA7);
        pin.set_as_output(&mut regs, OutputDrive::High);
        assert_eq!(regs.pa.out, latch);
    }
}

#[test]
fn mode_changes_go_back_and_forth() {
    let p = Peripherals::steal();
    let mut regs = Gpio::new();
    let mut pin = Flex::new(p.PA0);
    pin.set_as_output(&mut regs, OutputDrive::High);
    assert_eq!((regs.pa.dir, regs.pa.pu, regs.pa.pd_drv), (1, 0, 1));
    pin.set_as_input(&mut regs, Pull::Down);
    assert_eq!((regs.pa.dir, regs.pa.pu, regs.pa.pd_drv), (0, 0, 1));
    pin.set_as_input(&mut regs, Pull::Up);
    assert_eq!((regs.pa.dir, regs.pa.pu, regs.pa.pd_drv), (0, 1, 0));
    pin.set_as_output(&mut regs, OutputDrive::Low);
    assert_eq!((regs.pa.dir, regs.pa.pu, regs.pa.pd_drv), (1, 0, 0));
}

#[test]
fn mode_changes_leave_other_pins_alone() {
    let p = Peripherals::steal();
    let mut regs = Gpio::new();
    let mut a = Flex::new(p.PA3);
    let mut b = Flex::new(p.PA4);
    let mut c = Flex::new(p.PB4);
    a.set_as_output(&mut regs, OutputDrive::High);
    b.set_as_input(&mut regs, Pull::Up);
    c.set_as_input(&mut regs, Pull::Down);
    assert_eq!(regs.pa.dir, 1 << 3);
    assert_eq!(regs.pa.pd_drv, 1 << 3);
    assert_eq!(regs.pa.pu, 1 << 4);
    assert_eq!(regs.pb.pd_drv, 1 << 4);
    assert_eq!(regs.pb.dir, 0);
    assert_eq!(regs.pb.pu, 0);
}

#[test]
fn input_level_follows_the_pin_register() {
    let p = Peripherals::steal();
    let mut regs = Gpio::new();
    let pin = Flex::new(p.PB11);
    assert!(pin.is_low(&regs));
    assert!(!pin.is_high(&regs));
    assert_eq!(pin.get_level(&regs), Level::Low);
    regs.pb.pin = 1 << 11;
    assert!(pin.is_high(&regs));
    assert!(!pin.is_low(&regs));
    assert_eq!(pin.get_level(&regs), Level::High);
    regs.pb.pin = !(1 << 11);
    assert!(pin.is_low(&regs));
    regs.pb.pin = 0;
    regs.pa.pin = 1 << 11;
    assert!(pin.is_low(&regs));
}

#[test]
fn set_high_twice_stays_high() {
    let p = Peripherals::steal();
    let mut regs = Gpio::new();
    let mut pin = Flex::new(p.PA12);
    pin.set_high(&mut regs);
    assert!(pin.is_set_high(&regs));
    let once = (regs.pa, regs.pb, regs.ctl);
    pin.set_high(&mut regs);
    assert!(pin.is_set_high(&regs));
    assert!(!pin.is_set_low(&regs));
    assert_eq!(pin.get_output_level(&regs), Level::High);
    assert_eq!((regs.pa, regs.pb, regs.ctl), once);
    assert_eq!(regs.pa.out, 1 << 12);
}

#[test]
fn set_low_twice_stays_low() {
    let p = Peripherals::steal();
    let mut regs = Gpio::new();
    regs.pa.out = 0xffff_ffff;
    let mut pin = Flex::new(p.PA12);
    pin.set_low(&mut regs);
    pin.set_low(&mut regs);
    assert!(pin.is_set_low(&regs));
    assert_eq!(pin.get_output_level(&regs), Level::Low);
    assert_eq!(regs.pa.out, !(1u32 << 12));
}

#[test]
fn set_level_sets_the_latch() {
    let p = Peripherals::steal();
    let mut regs = Gpio::new();
    let mut pin = Flex::new(p.PB0);
    pin.set_level(&mut regs, Level::High);
    assert_eq!(regs.pb.out, 1);
    assert_eq!(pin.get_output_level(&regs), Level::High);
    pin.set_level(&mut regs, Level::Low);
    assert_eq!(regs.pb.out, 0);
    assert_eq!(pin.get_output_level(&regs), Level::Low);
}

#[test]
fn toggle_inverts_the_latch() {
    let p = Peripherals::steal();
    let mut regs = Gpio::new();
    regs.pa.out = 0b0101;
    let mut pin = Flex::new(p.PA1);
    pin.toggle(&mut regs);
    assert_eq!(regs.pa.out, 0b0111);
    assert!(pin.is_set_high(&regs));
    pin.toggle(&mut regs);
    assert_eq!(regs.pa.out, 0b0101);
    assert!(pin.is_set_low(&regs));
}

#[test]
fn toggle_twice_returns_the_latch_to_where_it_was() {
    for latch in [0u32, 0xffff_ffff, 0x1234_5678] {
        for id in [0u8, 5, 31, 32, 54, 63] {
            let mut regs = Gpio::new();
            regs.pa.out = latch;
            regs.pb.out = latch;
            let mut pin = Flex::new(AnyPin::steal(id));
            let before = pin.is_set_high(&regs);
            pin.toggle(&mut regs);
            assert_eq!(pin.is_set_high(&regs), !before);
            pin.toggle(&mut regs);
            assert_eq!(pin.is_set_high(&regs), before);
            assert_eq!(regs.pa.out, latch);
            assert_eq!(regs.pb.out, latch);
        }
    }
}

#[test]
fn set_as_output_writes_drive_then_pull_up_then_direction() {
    let p = Peripherals::steal();
    let mut regs = Gpio::new();
    regs.pb.pu = 1 << 6;
    let mut pin = Flex::new(p.PB6);
    pin.set_as_output(&mut regs, OutputDrive::High);
    assert_eq!(
        regs.journal,
        vec![
            Access::EnterCritical,
            Access::Write { port: 1, register: Register::PdDrv, value: 1 << 6 },
            Access::Write { port: 1, register: Register::Pu, value: 0 },
            Access::Write { port: 1, register: Register::Dir, value: 1 << 6 },
            Access::LeaveCritical,
        ]
    );
}

#[test]
fn level_writes_are_made_outside_critical_sections() {
    let p = Peripherals::steal();
    let mut regs = Gpio::new();
    let mut pin = Flex::new(p.PA0);
    pin.set_high(&mut regs);
    pin.set_low(&mut regs);
    pin.set_level(&mut regs, Level::High);
    pin.toggle(&mut regs);
    assert_eq!(regs.journal.len(), 4);
    assert!(regs.journal.iter().all(|access| matches!(access, Access::Write { .. })));
}

#[test]
fn toggle_writes_one_strobe() {
    let p = Peripherals::steal();
    let mut regs = Gpio::new();
    let mut pin = Flex::new(p.PA8);
    pin.toggle(&mut regs);
    pin.toggle(&mut regs);
    assert_eq!(
        regs.journal,
        vec![
            Access::Write { port: 0, register: Register::Out, value: 1 << 8 },
            Access::Write { port: 0, register: Register::Clr, value: 1 << 8 },
        ]
    );
}

#[test]
fn level_writes_do_not_change_the_mode() {
    let p = Peripherals::steal();
    let mut regs = Gpio::new();
    let mut pin = Flex::new(p.PA8);
    pin.set_as_input(&mut regs, Pull::Up);
    let (dir, pu, pd_drv) = (regs.pa.dir, regs.pa.pu, regs.pa.pd_drv);
    pin.set_high(&mut regs);
    pin.toggle(&mut regs);
    pin.set_level(&mut regs, Level::High);
    assert_eq!((regs.pa.dir, regs.pa.pu, regs.pa.pd_drv), (dir, pu, pd_drv));
}

#[test]
fn degrade_keeps_the_pin_and_touches_no_register() {
    let p = Peripherals::steal();
    let mut regs = Gpio::new();
    let mut pin = Flex::new(p.PB23);
    pin.set_as_output(&mut regs, OutputDrive::High);
    pin.set_high(&mut regs);
    let before = regs.clone();
    let mut any = pin.degrade();
    assert_eq!(regs, before);
    assert!(any.is_set_high(&regs));
    any.set_low(&mut regs);
    assert_eq!(regs.pb.out, 0);
    assert_eq!(regs.pb.dir, 1 << 23);
}
