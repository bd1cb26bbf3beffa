use lm4f120_hal::sysctl::SysCtl;
use lm4f120_hal::timer::{Timer, TimerId};

#[test]
fn enable_pwm_configures_the_half() {
    let mut sc = SysCtl::new();
    let mut t = Timer::new(TimerId::Timer1A, &mut sc);
    // Timer1 module's clock gate is bit 1
    assert_eq!(sc.rcgctimer, 0x02);
    t.enable_pwm(4096);
    assert_eq!(t.registers.cfg, 0x4);
    assert_eq!(t.registers.tamr, 0xA);
    assert_eq!(t.registers.ilr, 4096);
    assert_eq!(t.registers.matchr, 4096);
    assert_eq!(t.registers.ctl & 0x1, 0x1);
}

#[test]
fn set_pwm_levels_are_distinct_and_increasing() {
    let mut sc = SysCtl::new();
    let mut t = Timer::new(TimerId::Timer1A, &mut sc);
    t.enable_pwm(4096);
    let levels = [1u32, 256, 512, 1024, 2048, 4096];
    let mut seen: Vec<u32> = Vec::new();
    for level in levels.iter() {
        t.set_pwm(*level);
        // the compare register takes exactly the requested level
        assert_eq!(t.registers.matchr, *level);
        assert!(t.registers.matchr <= t.registers.ilr);
        seen.push(t.registers.matchr);
    }
    for pair in seen.windows(2) {
        assert!(pair[0] < pair[1]);
    }
}

#[test]
fn set_pwm_touches_nothing_else() {
    let mut sc = SysCtl::new();
    let mut t = Timer::new(TimerId::Timer2B, &mut sc);
    assert_eq!(sc.rcgctimer, 0x04);
    t.enable_pwm(1000);
    let ctl = t.registers.ctl;
    let cfg = t.registers.cfg;
    let tamr = t.registers.tamr;
    t.set_pwm(500);
    assert_eq!(t.registers.ilr, 1000);
    assert_eq!(t.registers.ctl, ctl);
    assert_eq!(t.registers.cfg, cfg);
    assert_eq!(t.registers.tamr, tamr);
}
