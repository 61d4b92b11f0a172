use g233_devices::wdt::{
    WdtEffect, WdtState, WDT_CTRL, WDT_FEED, WDT_KEY, WDT_LOAD, WDT_LOCK, WDT_SR, WDT_VAL,
};

#[test]
fn wdt_reset_values() {
    let w = WdtState::init();
    assert_eq!(w.read(WDT_CTRL, 4, 0), 0);
    assert_eq!(w.read(WDT_LOAD, 4, 0), 0xffff);
    assert_eq!(w.read(WDT_VAL, 4, 12345), 0xffff);
    assert_eq!(w.read(WDT_SR, 4, 0), 0);
    assert_eq!(w.read(WDT_KEY, 4, 0), 0);
    assert_eq!(w.read(0x14, 4, 0), 0);
}

#[test]
fn wdt_enable_starts_countdown() {
    let mut w = WdtState::init();
    w.write(WDT_LOAD, 1000, 4, 0);
    assert_eq!(w.write(WDT_CTRL, 0x3, 4, 500), vec![WdtEffect::SetIrq(false), WdtEffect::ArmTimer(1500)]);
    assert_eq!(w.read(WDT_VAL, 4, 500), 1000);
    assert_eq!(w.read(WDT_VAL, 4, 800), 700);
    assert_eq!(w.read(WDT_VAL, 4, 1500), 0);
    assert_eq!(w.read(WDT_VAL, 4, 9000), 0);
    // a clock before the start counts as no time elapsed
    assert_eq!(w.read(WDT_VAL, 4, 100), 1000);
}

#[test]
fn wdt_feed_restarts_countdown() {
    let mut w = WdtState::init();
    w.write(WDT_LOAD, 100, 4, 0);
    w.write(WDT_CTRL, 0x1, 4, 0);
    assert_eq!(w.read(WDT_VAL, 4, 60), 40);
    assert_eq!(w.write(WDT_KEY, WDT_FEED as u64, 4, 60), vec![WdtEffect::ArmTimer(160)]);
    assert_eq!(w.read(WDT_VAL, 4, 60), 100);
    assert_eq!(w.read(WDT_VAL, 4, 110), 50);
    // other keys do nothing
    assert_eq!(w.write(WDT_KEY, 0x1234, 4, 70), vec![]);
    assert_eq!(w.read(WDT_VAL, 4, 110), 50);
}

#[test]
fn wdt_expiry_raises_interrupt() {
    let mut w = WdtState::init();
    w.write(WDT_CTRL, 0x3, 4, 0);
    assert_eq!(w.timer_handler(), vec![WdtEffect::SetIrq(true)]);
    assert_eq!(w.sr_val(), 1);
    // writing one to the status bit clears it and lowers the line
    assert_eq!(w.write(WDT_SR, 1, 4, 0), vec![WdtEffect::SetIrq(false)]);
    assert_eq!(w.sr_val(), 0);
}

#[test]
fn wdt_expiry_resets_machine() {
    let mut w = WdtState::init();
    w.write(WDT_CTRL, 0x7, 4, 0);
    assert_eq!(w.timer_handler(), vec![WdtEffect::Expire]);
    assert_eq!(w.sr_val(), 1);
}

#[test]
fn wdt_expiry_without_actions() {
    let mut w = WdtState::init();
    w.write(WDT_CTRL, 0x1, 4, 0);
    assert_eq!(w.timer_handler(), vec![]);
    assert_eq!(w.read(WDT_SR, 4, 0), 1);
    // writing zero keeps the flag
    assert_eq!(w.write(WDT_SR, 0xfffe, 4, 0), vec![WdtEffect::SetIrq(false)]);
    assert_eq!(w.sr_val(), 1);
}

#[test]
fn wdt_disable_cancels() {
    let mut w = WdtState::init();
    w.write(WDT_CTRL, 0x3, 4, 0);
    w.timer_handler();
    assert_eq!(
        w.write(WDT_CTRL, 0x2, 4, 10),
        vec![WdtEffect::SetIrq(false), WdtEffect::CancelTimer, WdtEffect::SetIrq(false)]
    );
    assert_eq!(w.sr_val(), 0);
    assert_eq!(w.read(WDT_VAL, 4, 10), 0xffff);
}

#[test]
fn wdt_lock_is_sticky() {
    let mut w = WdtState::init();
    w.write(WDT_CTRL, 0x1, 4, 0);
    assert_eq!(w.write(WDT_KEY, WDT_LOCK as u64, 4, 0), vec![]);
    assert_eq!(w.ctrl_val(), 0x9);
    assert_eq!(w.write(WDT_CTRL, 0, 4, 5), vec![]);
    assert_eq!(w.write(WDT_LOAD, 5, 4, 5), vec![]);
    assert_eq!(w.write(WDT_SR, 1, 4, 5), vec![]);
    assert_eq!(w.ctrl_val(), 0x9);
    assert_eq!(w.load_val(), 0xffff);
    // feeding still works while locked
    assert_eq!(w.write(WDT_KEY, WDT_FEED as u64, 4, 7), vec![WdtEffect::ArmTimer(7 + 0xffff)]);
    w.timer_handler();
    assert_eq!(w.ctrl_val(), 0x9);
}

#[test]
fn wdt_setters() {
    let mut w = WdtState::init();
    w.ctrl_set(0x3);
    w.load_set(10);
    w.sr_set_out();
    assert_eq!(w.update_irq(), WdtEffect::SetIrq(true));
    w.sr_set(1);
    assert_eq!(w.sr_val(), 0);
    w.feed_timer_set(40);
    assert_eq!(w.read(WDT_VAL, 4, 45), 5);
    assert_eq!(w.start_timer(50), WdtEffect::ArmTimer(60));
    assert_eq!(w.read(WDT_VAL, 4, 55), 5);
}

#[test]
fn wdt_reload_keeps_16_bits() {
    let mut w = WdtState::init();
    assert_eq!(w.write(WDT_LOAD, 0x1_0000, 4, 0), vec![]);
    assert_eq!(w.read(WDT_LOAD, 4, 0), 0);
    w.write(WDT_LOAD, 0xabcd_1234, 4, 0);
    assert_eq!(w.load_val(), 0x1234);
    w.load_set(0x0002_0010);
    assert_eq!(w.load_val(), 0x10);
    assert_eq!(w.write(WDT_CTRL, 1, 4, 100), vec![WdtEffect::SetIrq(false), WdtEffect::ArmTimer(116)]);
}

#[test]
fn wdt_write_arms_rule() {
    let mut w = WdtState::init();
    assert!(w.write_arms(WDT_CTRL, 1));
    assert!(!w.write_arms(WDT_CTRL, 2));
    assert!(w.write_arms(WDT_KEY, WDT_FEED as u64));
    assert!(!w.write_arms(WDT_KEY, WDT_LOCK as u64));
    w.write(WDT_CTRL, 1, 4, 0);
    assert!(!w.write_arms(WDT_CTRL, 1));
    w.write(WDT_KEY, WDT_LOCK as u64, 4, 0);
    w.write(WDT_CTRL, 0, 4, 0);
    assert_eq!(w.ctrl_val(), 9);
    assert!(w.write_arms(WDT_KEY, WDT_FEED as u64));
}
