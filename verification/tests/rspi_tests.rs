use g233_devices::rspi::{RspiEffect, RspiState, RSPI_CR1, RSPI_CS, RSPI_DR, RSPI_SR};

#[test]
fn rspi_reset_values() {
    let mut s = RspiState::init();
    assert_eq!(s.read(RSPI_CR1, 4), (0, vec![]));
    assert_eq!(s.read(RSPI_SR, 4), (0, vec![]));
    assert_eq!(s.read(RSPI_CS, 4), (0, vec![]));
    assert_eq!(s.post_init(), vec![RspiEffect::SetCs0(true)]);
}

#[test]
fn rspi_enable_and_disable() {
    let mut s = RspiState::init();
    // enabling raises TXE; TXE interrupt enabled
    assert_eq!(s.write(RSPI_CR1, 0x81, 4), vec![RspiEffect::SetIrq(true)]);
    assert_eq!(s.sr_val(), 2);
    // rewriting while enabled keeps the status
    s.set_sr(0x13);
    assert_eq!(s.write(RSPI_CR1, 0x01, 4), vec![RspiEffect::SetIrq(false)]);
    assert_eq!(s.sr_val(), 0x13);
    // disabling clears every flag
    assert_eq!(s.write(RSPI_CR1, 0xe0, 4), vec![RspiEffect::SetIrq(false)]);
    assert_eq!(s.sr_val(), 0);
    assert_eq!(s.cr1_val(), 0xe0);
}

#[test]
fn rspi_transfer_round_trip() {
    let mut s = RspiState::init();
    s.write(RSPI_CR1, 0x41, 4);
    assert_eq!(s.write(RSPI_DR, 0x9f, 4), vec![RspiEffect::Transfer(0x9f)]);
    assert_eq!(s.sr_val(), 0);
    assert_eq!(s.complete_transfer(0xef), vec![RspiEffect::SetIrq(true)]);
    assert_eq!(s.read(RSPI_DR, 4), (0xef, vec![RspiEffect::SetIrq(false)]));
    assert_eq!(s.read(RSPI_SR, 4), (2, vec![]));
}

#[test]
fn rspi_overrun() {
    let mut s = RspiState::init();
    s.write(RSPI_CR1, 0x21, 4);
    s.write(RSPI_DR, 1, 4);
    s.complete_transfer(1);
    s.write(RSPI_DR, 2, 4);
    assert_eq!(s.complete_transfer(2), vec![RspiEffect::SetIrq(true)]);
    assert_eq!(s.sr_val(), 0x13);
    assert_eq!(s.write(RSPI_SR, 0, 4), vec![]);
    assert_eq!(s.write(RSPI_SR, 0x10, 4), vec![RspiEffect::SetIrq(false)]);
    assert_eq!(s.sr_val(), 0x03);
}

#[test]
fn rspi_chip_select() {
    let mut s = RspiState::init();
    assert_eq!(s.write(RSPI_CS, 4, 4), vec![RspiEffect::SetIrq(false)]);
    assert_eq!(s.write(RSPI_CS, 1, 4), vec![RspiEffect::SetCs0(true), RspiEffect::SetIrq(false)]);
    assert_eq!(s.write(RSPI_CS, 2, 4), vec![RspiEffect::SetCs0(true), RspiEffect::SetIrq(false)]);
    assert_eq!(s.write(RSPI_CS, 0, 4), vec![RspiEffect::SetCs0(false), RspiEffect::SetIrq(false)]);
    assert_eq!(s.read(RSPI_CS, 4), (0, vec![]));
    s.set_cs(3);
    assert_eq!(s.cs_val(), 3);
    assert_eq!(s.update_irq(), RspiEffect::SetIrq(false));
}
