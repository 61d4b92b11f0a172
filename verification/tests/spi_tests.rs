use g233_devices::spi::{SpiEffect, SpiState, SPI_CR1, SPI_CR2, SPI_DR, SPI_SR};

#[test]
fn spi_reset_values() {
    let mut s = SpiState::init();
    assert_eq!(s.read(SPI_CR1, 4), (0, vec![]));
    assert_eq!(s.read(SPI_CR2, 4), (0, vec![]));
    assert_eq!(s.read(SPI_SR, 4), (2, vec![]));
    assert_eq!(s.read(0x10, 4), (0, vec![]));
    assert_eq!(s.post_init(), vec![SpiEffect::SetCs0(false), SpiEffect::SetCs1(true)]);
}

#[test]
fn spi_transfer_round_trip() {
    let mut s = SpiState::init();
    // enable RXNE interrupt
    assert_eq!(s.write(SPI_CR1, 0x40, 4), vec![SpiEffect::SetIrq(false)]);
    assert_eq!(s.write(SPI_DR, 0x1_0000_00a5, 4), vec![SpiEffect::Transfer(0xa5)]);
    assert_eq!(s.sr_val(), 0);
    assert_eq!(s.complete_transfer(0x5a), vec![SpiEffect::SetIrq(true)]);
    assert_eq!(s.sr_val(), 3);
    assert_eq!(s.dr_val(), 0x5a);
    assert_eq!(s.read(SPI_DR, 4), (0x5a, vec![SpiEffect::SetIrq(false)]));
    assert_eq!(s.sr_val(), 2);
    assert_eq!(s.read(SPI_DR, 4), (0x5a, vec![SpiEffect::SetIrq(false)]));
}

#[test]
fn spi_overrun_and_clear() {
    let mut s = SpiState::init();
    s.write(SPI_CR1, 0x20, 4);
    s.write(SPI_DR, 1, 4);
    s.complete_transfer(10);
    // second word before the first was read
    assert_eq!(s.write(SPI_DR, 2, 4), vec![SpiEffect::Transfer(2)]);
    assert_eq!(s.sr_val(), 0x11);
    assert_eq!(s.complete_transfer(20), vec![SpiEffect::SetIrq(true)]);
    assert_eq!(s.read(SPI_SR, 4).0, 0x13);
    // a write without bit 4 changes nothing
    assert_eq!(s.write(SPI_SR, 0x0f, 4), vec![]);
    assert_eq!(s.sr_val(), 0x13);
    assert_eq!(s.write(SPI_SR, 0x10, 4), vec![SpiEffect::SetIrq(false)]);
    assert_eq!(s.sr_val(), 0x03);
}

#[test]
fn spi_txe_interrupt() {
    let mut s = SpiState::init();
    assert_eq!(s.write(SPI_CR1, 0x80, 4), vec![SpiEffect::SetIrq(true)]);
    assert_eq!(s.update_spi(), SpiEffect::SetIrq(true));
}

#[test]
fn spi_chip_select() {
    let mut s = SpiState::init();
    assert_eq!(s.write(SPI_CR2, 0x100, 4), vec![SpiEffect::SetIrq(false)]);
    assert_eq!(
        s.write(SPI_CR2, 1, 4),
        vec![SpiEffect::SetCs0(true), SpiEffect::SetCs1(false), SpiEffect::SetIrq(false)]
    );
    assert_eq!(
        s.write(SPI_CR2, 3, 4),
        vec![SpiEffect::SetCs0(true), SpiEffect::SetCs1(true), SpiEffect::SetIrq(false)]
    );
    assert_eq!(
        s.write(SPI_CR2, 0, 4),
        vec![SpiEffect::SetCs0(false), SpiEffect::SetCs1(true), SpiEffect::SetIrq(false)]
    );
    assert_eq!(s.cr2_val(), 0);
    s.set_cr2(2);
    assert_eq!(s.post_init(), vec![SpiEffect::SetCs0(true), SpiEffect::SetCs1(true)]);
}

#[test]
fn spi_hold_reset() {
    let mut s = SpiState::init();
    s.set_cr1(0xff);
    s.set_cr2(1);
    s.set_sr(0x13);
    s.set_dr(7);
    assert_eq!(
        s.hold_reset(),
        vec![SpiEffect::SetCs0(false), SpiEffect::SetCs1(true), SpiEffect::SetIrq(false)]
    );
    assert_eq!((s.cr1_val(), s.cr2_val(), s.sr_val(), s.dr_val()), (0, 0, 2, 0));
}

#[test]
fn spi_unknown_offsets() {
    let mut s = SpiState::init();
    assert_eq!(s.write(0x20, 0xffff, 4), vec![]);
    assert_eq!((s.cr1_val(), s.cr2_val(), s.sr_val(), s.dr_val()), (0, 0, 2, 0));
}
