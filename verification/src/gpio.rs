use vstd::prelude::*;

use crate::bits::bit_set;

verus! {

/// Direction register: a set bit makes the pin an output.
pub const GPIO_DIR: u64 = 0x00;
/// Output data register.
pub const GPIO_OUT: u64 = 0x04;
/// Pin level register (read-only): outputs read back their driven level,
/// inputs the level applied from outside.
pub const GPIO_IN: u64 = 0x08;
/// Interrupt enable register.
pub const GPIO_IE: u64 = 0x0c;
/// Interrupt status register.
pub const GPIO_IS: u64 = 0x10;
/// Interrupt trigger-type register.
pub const GPIO_TRIG: u64 = 0x14;
/// Interrupt polarity register.
pub const GPIO_POL: u64 = 0x18;

/// What the GPIO block asks the machine to do.
#[derive(PartialEq, Eq, Structural, Debug, Clone, Copy)]
pub enum GpioEffect {
    /// Drive the interrupt line to this level.
    SetIrq(bool),
}

/// Abstract register file of the GPIO block.
pub struct GpioView {
    pub dir: u32,
    pub out: u32,
    pub in_pins: u32,
    pub ie: u32,
    pub is_reg: u32,
    pub trig: u32,
    pub pol: u32,
}

/// The GPIO block: 32 pins with direction, output, input and interrupt
/// configuration registers.
pub struct GpioState {
    dir: u32,
    out: u32,
    in_pins: u32,
    ie: u32,
    is_reg: u32,
    trig: u32,
    pol: u32,
}

impl View for GpioState {
    type V = GpioView;

    closed spec fn view(&self) -> GpioView {
        GpioView {
            dir: self.dir,
            out: self.out,
            in_pins: self.in_pins,
            ie: self.ie,
            is_reg: self.is_reg,
            trig: self.trig,
            pol: self.pol,
        }
    }
}

/// The level seen on the pins: output pins show the output register,
/// input pins the externally applied level.
pub open spec fn gpio_pins(s: GpioView) -> u32 {
    (s.out & s.dir) | (s.in_pins & !s.dir)
}

/// The register file after reset: every register is zero.
pub open spec fn gpio_reset() -> GpioView {
    GpioView { dir: 0, out: 0, in_pins: 0, ie: 0, is_reg: 0, trig: 0, pol: 0 }
}

/// The value a guest read at `offset` returns; unknown offsets read as zero.
pub open spec fn gpio_read_spec(s: GpioView, offset: u64) -> u64 {
    match offset {
        0x00 => s.dir as u64,
        0x04 => s.out as u64,
        0x08 => gpio_pins(s) as u64,
        0x0c => s.ie as u64,
        0x10 => s.is_reg as u64,
        0x14 => s.trig as u64,
        0x18 => s.pol as u64,
        _ => 0,
    }
}

/// The interrupt is high exactly when an enabled interrupt is pending.
pub open spec fn gpio_irq_level(s: GpioView) -> bool {
    s.is_reg & s.ie != 0
}

/// The register file and the effects after a guest write of `data` at
/// `offset`. Only the low 32 bits are stored; the pin register and unknown
/// offsets ignore writes. A write of the interrupt status register drives the
/// interrupt line from the new status.
pub open spec fn gpio_write_spec(s: GpioView, offset: u64, data: u64) -> (GpioView, Seq<GpioEffect>) {
    let v = data as u32;
    match offset {
        0x00 => (GpioView { dir: v, ..s }, seq![]),
        0x04 => (GpioView { out: v, ..s }, seq![]),
        0x0c => (GpioView { ie: v, ..s }, seq![]),
        0x10 => {
            let s2 = GpioView { is_reg: v, ..s };
            (s2, seq![GpioEffect::SetIrq(gpio_irq_level(s2))])
        },
        0x14 => (GpioView { trig: v, ..s }, seq![]),
        0x18 => (GpioView { pol: v, ..s }, seq![]),
        _ => (s, seq![]),
    }
}

/// The register file after the external level of input line `n` changes:
/// a nonzero `level` raises bit `n` of the input pins, zero lowers it.
pub open spec fn gpio_input_spec(s: GpioView, n: u32, level: u32) -> GpioView {
    let b = 1u32 << n;
    if level != 0 {
        GpioView { in_pins: s.in_pins | b, ..s }
    } else {
        GpioView { in_pins: s.in_pins & !b, ..s }
    }
}

/// Offsets of the registers that store what the guest writes.
pub open spec fn gpio_rw_offset(offset: u64) -> bool {
    offset == GPIO_DIR || offset == GPIO_OUT || offset == GPIO_IE || offset == GPIO_IS
        || offset == GPIO_TRIG || offset == GPIO_POL
}


/// A read of a read/write register returns the low 32 bits of what was last
/// written to it.
pub proof fn lemma_gpio_read_after_write(s: GpioView, offset: u64, data: u64)
    requires
        gpio_rw_offset(offset),
    ensures
        gpio_read_spec(gpio_write_spec(s, offset, data).0, offset) == (data as u32) as u64,
{
}

/// A write to one read/write register leaves every other read/write register
/// as it was.
pub proof fn lemma_gpio_write_frame(s: GpioView, offset: u64, data: u64, other: u64)
    requires
        gpio_rw_offset(other),
        other != offset,
    ensures
        gpio_read_spec(gpio_write_spec(s, offset, data).0, other) == gpio_read_spec(s, other),
{
}

/// Writes to the pin register and to unknown offsets change nothing and
/// have no effect.
pub proof fn lemma_gpio_ignored_writes(s: GpioView, offset: u64, data: u64)
    requires
        !gpio_rw_offset(offset),
    ensures
        gpio_write_spec(s, offset, data) == (s, Seq::<GpioEffect>::empty()),
{
}

/// A write of the interrupt status register drives the interrupt line high
/// exactly when the new status has an enabled bit; no other write drives it.
pub proof fn lemma_gpio_status_write_irq(s: GpioView, offset: u64, data: u64)
    ensures
        offset == 0x10 ==> gpio_write_spec(s, offset, data).1 == seq![
            GpioEffect::SetIrq((data as u32) & s.ie != 0),
        ],
        offset != 0x10 ==> gpio_write_spec(s, offset, data).1 == Seq::<GpioEffect>::empty(),
{
}

/// Unknown offsets read as zero.
pub proof fn lemma_gpio_unknown_reads_zero(s: GpioView, offset: u64)
    requires
        !gpio_rw_offset(offset),
        offset != GPIO_IN,
    ensures
        gpio_read_spec(s, offset) == 0,
{
}

/// Bit `i` of the pin register is the output bit for an output pin and the
/// externally applied level for an input pin.
pub proof fn lemma_gpio_pin_level(s: GpioView, i: u32)
    requires
        i < 32,
    ensures
        bit_set(gpio_read_spec(s, GPIO_IN) as u32, i) == if bit_set(s.dir, i) {
            bit_set(s.out, i)
        } else {
            bit_set(s.in_pins, i)
        },
{
    let p = gpio_pins(s);
    assert((p as u64) as u32 == p) by (bit_vector);
    let (dir, out, inp) = (s.dir, s.out, s.in_pins);
    assert(((out & dir) | (inp & !dir)) & (1u32 << i) != 0 <==> if dir & (1u32 << i) != 0 {
        out & (1u32 << i) != 0
    } else {
        inp & (1u32 << i) != 0
    }) by (bit_vector)
        requires
            i < 32,
    ;
}

/// A change of input line `n` sets bit `n` of the input pins to whether the
/// level is nonzero and leaves every other bit and every other register as
/// it was; on an input pin the new level shows in the pin register.
pub proof fn lemma_gpio_input_line(s: GpioView, n: u32, level: u32, i: u32)
    requires
        n < 32,
        i < 32,
    ensures
        bit_set(gpio_input_spec(s, n, level).in_pins, i) == if i == n {
            level != 0
        } else {
            bit_set(s.in_pins, i)
        },
        gpio_input_spec(s, n, level).dir == s.dir,
        gpio_input_spec(s, n, level).out == s.out,
        gpio_input_spec(s, n, level).ie == s.ie,
        gpio_input_spec(s, n, level).is_reg == s.is_reg,
        gpio_input_spec(s, n, level).trig == s.trig,
        gpio_input_spec(s, n, level).pol == s.pol,
        !bit_set(s.dir, n) ==> (bit_set(
            gpio_read_spec(gpio_input_spec(s, n, level), GPIO_IN) as u32,
            n,
        ) == (level != 0)),
{
    lemma_set_clear_bit(s.in_pins, n, i);
    lemma_set_clear_bit(s.in_pins, n, n);
    lemma_gpio_pin_level(gpio_input_spec(s, n, level), n);
}

proof fn lemma_set_clear_bit(x: u32, n: u32, i: u32)
    requires
        n < 32,
        i < 32,
    ensures
        bit_set(x | (1u32 << n), i) == (i == n || bit_set(x, i)),
        bit_set(x & !(1u32 << n), i) == (i != n && bit_set(x, i)),
{
    assert((x | (1u32 << n)) & (1u32 << i) != 0 <==> (i == n || x & (1u32 << i) != 0))
        by (bit_vector)
        requires
            n < 32,
            i < 32,
    ;
    assert((x & !(1u32 << n)) & (1u32 << i) != 0 <==> (i != n && x & (1u32 << i) != 0))
        by (bit_vector)
        requires
            n < 32,
            i < 32,
    ;
}

/// What each register access does, stated per register: DIR (0x00), OUT
/// (0x04), IE (0x0c), IS (0x10), TRIG (0x14) and POL (0x18) read back their
/// register; the pin register (0x08) reads the output bits of output pins
/// and the applied input levels of input pins; a write stores its low word
/// into the one register named and touches nothing else, and no guest write
/// ever changes the externally applied input levels.
pub proof fn lemma_gpio_register_access(s: GpioView, offset: u64, data: u64)
    ensures
        gpio_read_spec(s, 0x00) == s.dir as u64,
        gpio_read_spec(s, 0x04) == s.out as u64,
        gpio_read_spec(s, 0x08) == ((s.out & s.dir) | (s.in_pins & !s.dir)) as u64,
        gpio_read_spec(s, 0x0c) == s.ie as u64,
        gpio_read_spec(s, 0x10) == s.is_reg as u64,
        gpio_read_spec(s, 0x14) == s.trig as u64,
        gpio_read_spec(s, 0x18) == s.pol as u64,
        gpio_write_spec(s, offset, data).0.in_pins == s.in_pins,
        gpio_write_spec(s, 0x00, data).0 == (GpioView { dir: data as u32, ..s }),
        gpio_write_spec(s, 0x04, data).0 == (GpioView { out: data as u32, ..s }),
        gpio_write_spec(s, 0x0c, data).0 == (GpioView { ie: data as u32, ..s }),
        gpio_write_spec(s, 0x10, data).0 == (GpioView { is_reg: data as u32, ..s }),
        gpio_write_spec(s, 0x14, data).0 == (GpioView { trig: data as u32, ..s }),
        gpio_write_spec(s, 0x18, data).0 == (GpioView { pol: data as u32, ..s }),
{
}

/// An input pin keeps showing its applied level across any guest write: if
/// pin `i` is an input after the write, its bit in the pin register equals
/// the level last applied to line `i`.
pub proof fn lemma_gpio_input_survives_writes(s: GpioView, offset: u64, data: u64, i: u32)
    requires
        i < 32,
        !bit_set(gpio_write_spec(s, offset, data).0.dir, i),
    ensures
        bit_set(gpio_read_spec(gpio_write_spec(s, offset, data).0, 0x08) as u32, i) == bit_set(
            s.in_pins,
            i,
        ),
{
    lemma_gpio_pin_level(gpio_write_spec(s, offset, data).0, i);
}

/// After reset every register, the pin register included, reads zero, and
/// the interrupt is low.
pub proof fn lemma_gpio_reset_reads_zero(offset: u64)
    ensures
        gpio_read_spec(gpio_reset(), offset) == 0,
        gpio_reset().in_pins == 0,
        !gpio_irq_level(gpio_reset()),
{
    assert(((0u32 & 0u32) | (0u32 & !0u32)) == 0 && 0u32 & 0u32 == 0) by (bit_vector);
}

impl GpioState {
    /// A GPIO block in its reset state.
    pub fn init() -> (s: GpioState)
        ensures
            s@ == gpio_reset(),
    {
        GpioState { dir: 0, out: 0, in_pins: 0, ie: 0, is_reg: 0, trig: 0, pol: 0 }
    }

    /// An external input line `n` (below 32) changes to `level`.
    pub fn handle_gpio_in(&mut self, n: u32, level: u32)
        requires
            n < 32,
        ensures
            final(self)@ == gpio_input_spec(old(self)@, n, level),
    {
        let b: u32 = 1u32 << n;
        if level != 0 {
            self.in_pins = self.in_pins | b;
        } else {
            self.in_pins = self.in_pins & !b;
        }
    }

    pub fn dir_val(&self) -> (r: u32)
        ensures
            r == self@.dir,
    {
        self.dir
    }

    pub fn out_val(&self) -> (r: u32)
        ensures
            r == self@.out,
    {
        self.out
    }

    pub fn in_pins_val(&self) -> (r: u32)
        ensures
            r == self@.in_pins,
    {
        self.in_pins
    }

    pub fn ie_val(&self) -> (r: u32)
        ensures
            r == self@.ie,
    {
        self.ie
    }

    pub fn is_val(&self) -> (r: u32)
        ensures
            r == self@.is_reg,
    {
        self.is_reg
    }

    pub fn trig_val(&self) -> (r: u32)
        ensures
            r == self@.trig,
    {
        self.trig
    }

    pub fn pol_val(&self) -> (r: u32)
        ensures
            r == self@.pol,
    {
        self.pol
    }

    /// The current level of all 32 pins.
    pub fn get_now_pins(&self) -> (r: u32)
        ensures
            r == gpio_pins(self@),
    {
        let dir = self.dir_val();
        (self.out_val() & dir) | (self.in_pins_val() & !dir)
    }

    /// A guest read of `offset`.
    pub fn read(&self, offset: u64, _size: u32) -> (r: u64)
        ensures
            r == gpio_read_spec(self@, offset),
    {
        match offset {
            0x00 => self.dir_val() as u64,
            0x04 => self.out_val() as u64,
            0x08 => self.get_now_pins() as u64,
            0x0c => self.ie_val() as u64,
            0x10 => self.is_val() as u64,
            0x14 => self.trig_val() as u64,
            0x18 => self.pol_val() as u64,
            _ => 0,
        }
    }

    /// The interrupt level the current status and enable registers call for.
    pub fn update_irq(&self) -> (r: GpioEffect)
        ensures
            r == GpioEffect::SetIrq(gpio_irq_level(self@)),
    {
        GpioEffect::SetIrq((self.is_val() & self.ie_val()) != 0)
    }

    /// A guest write of `data` at `offset`: the effects, in order.
    pub fn write(&mut self, offset: u64, data: u64, _size: u32) -> (r: Vec<GpioEffect>)
        ensures
            final(self)@ == gpio_write_spec(old(self)@, offset, data).0,
            r@ == gpio_write_spec(old(self)@, offset, data).1,
    {
        let mut fx: Vec<GpioEffect> = Vec::new();
        let val = data as u32;
        match offset {
            0x00 => {
                self.dir = val;
            },
            0x04 => {
                self.out = val;
            },
            0x0c => {
                self.ie = val;
            },
            0x10 => {
                self.is_reg = val;
                fx.push(self.update_irq());
            },
            0x14 => {
                self.trig = val;
            },
            0x18 => {
                self.pol = val;
            },
            _ => {},
        }
        fx
    }
}

} // verus!
