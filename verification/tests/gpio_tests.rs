use g233_devices::gpio::{GpioEffect, GpioState, GPIO_DIR, GPIO_IE, GPIO_IN, GPIO_IS, GPIO_OUT, GPIO_POL, GPIO_TRIG};

#[test]
fn gpio_reset_reads_zero() {
    let g = GpioState::init();
    for off in [GPIO_DIR, GPIO_OUT, GPIO_IN, GPIO_IE, GPIO_IS, GPIO_TRIG, GPIO_POL, 0x1c, 0x100] {
        assert_eq!(g.read(off, 4), 0);
    }
}

#[test]
fn gpio_read_after_write_each_register() {
    let mut g = GpioState::init();
    let regs = [GPIO_DIR, GPIO_OUT, GPIO_IE, GPIO_IS, GPIO_TRIG, GPIO_POL];
    for (k, off) in regs.iter().enumerate() {
        let v = 0x1111_0000u64 + k as u64;
        g.write(*off, v, 4);
        assert_eq!(g.read(*off, 4), v);
    }
    assert_eq!(g.dir_val(), 0x1111_0000);
    assert_eq!(g.out_val(), 0x1111_0001);
    assert_eq!(g.ie_val(), 0x1111_0002);
    assert_eq!(g.is_val(), 0x1111_0003);
    assert_eq!(g.trig_val(), 0x1111_0004);
    assert_eq!(g.pol_val(), 0x1111_0005);
}

#[test]
fn gpio_write_keeps_low_32_bits() {
    let mut g = GpioState::init();
    g.write(GPIO_OUT, 0xdead_beef_1234_5678, 4);
    assert_eq!(g.read(GPIO_OUT, 4), 0x1234_5678);
}

#[test]
fn gpio_pin_register_is_read_only() {
    let mut g = GpioState::init();
    g.write(GPIO_IN, 0xffff_ffff, 4);
    assert_eq!(g.read(GPIO_IN, 4), 0);
    assert_eq!(g.in_pins_val(), 0);
    g.write(0x40, 0xffff_ffff, 4);
    for off in [GPIO_DIR, GPIO_OUT, GPIO_IE, GPIO_IS, GPIO_TRIG, GPIO_POL] {
        assert_eq!(g.read(off, 4), 0);
    }
}

#[test]
fn gpio_pins_mix_outputs_and_inputs() {
    let mut g = GpioState::init();
    g.write(GPIO_DIR, 0x0000_00ff, 4);
    g.write(GPIO_OUT, 0x0000_0f0f, 4);
    g.handle_gpio_in(8, 1);
    g.handle_gpio_in(0, 1);
    g.handle_gpio_in(31, 7);
    // outputs 0..8 show OUT (0x0f), inputs show the external levels (bits 8 and 31)
    assert_eq!(g.get_now_pins(), 0x8000_010f);
    assert_eq!(g.read(GPIO_IN, 4), 0x8000_010f);
    assert_eq!(g.in_pins_val(), 0x8000_0101);
}

#[test]
fn gpio_input_line_falls() {
    let mut g = GpioState::init();
    g.handle_gpio_in(3, 1);
    g.handle_gpio_in(4, 1);
    g.handle_gpio_in(3, 0);
    assert_eq!(g.in_pins_val(), 0x10);
    assert_eq!(g.read(GPIO_IN, 4), 0x10);
}

#[test]
fn gpio_status_write_drives_interrupt() {
    let mut g = GpioState::init();
    assert_eq!(g.write(GPIO_IE, 0x0000_0004, 4), vec![]);
    assert_eq!(g.write(GPIO_IS, 0x0000_0003, 4), vec![GpioEffect::SetIrq(false)]);
    assert_eq!(g.write(GPIO_IS, 0x1_0000_0006, 4), vec![GpioEffect::SetIrq(true)]);
    assert_eq!(g.is_val(), 6);
    assert_eq!(g.update_irq(), GpioEffect::SetIrq(true));
    assert_eq!(g.write(GPIO_IS, 0, 4), vec![GpioEffect::SetIrq(false)]);
    assert_eq!(g.write(GPIO_DIR, 0xff, 4), vec![]);
}
