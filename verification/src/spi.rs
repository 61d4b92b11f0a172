use vstd::prelude::*;

use crate::ssi::{
    lemma_status_clearing, lemma_transfer_status, ssi_irq_level, ssi_irq_level_spec, sr_after_data_read, sr_after_status_write,
    sr_after_transfer, sr_during_transfer, SR_OVR, SR_RXNE, SR_TXE,
};

verus! {

/// Control register 1: interrupt enables.
pub const SPI_CR1: u64 = 0x00;
/// Control register 2: the low two bits select the chip.
pub const SPI_CR2: u64 = 0x04;
/// Status register.
pub const SPI_SR: u64 = 0x08;
/// Data register.
pub const SPI_DR: u64 = 0x0c;

/// What the SPI controller asks the machine to do.
#[derive(PartialEq, Eq, Structural, Debug, Clone, Copy)]
pub enum SpiEffect {
    /// Drive the interrupt line to this level.
    SetIrq(bool),
    /// Drive chip-select line 0 (active low) to this level.
    SetCs0(bool),
    /// Drive chip-select line 1 (active low) to this level.
    SetCs1(bool),
    /// Shift this word out on the bus; the word shifted in must be handed
    /// back through `complete_transfer`.
    Transfer(u32),
}

/// Abstract register file of the SPI controller.
pub struct SpiView {
    pub cr1: u32,
    pub cr2: u32,
    pub sr: u32,
    pub dr: u32,
}

/// The SPI controller with two chip-select lines.
pub struct SpiState {
    cr1: u32,
    cr2: u32,
    sr: u32,
    dr: u32,
}

impl View for SpiState {
    type V = SpiView;

    closed spec fn view(&self) -> SpiView {
        SpiView { cr1: self.cr1, cr2: self.cr2, sr: self.sr, dr: self.dr }
    }
}

/// The register file after reset: only the transmitter-empty flag is set.
pub open spec fn spi_reset() -> SpiView {
    SpiView { cr1: 0, cr2: 0, sr: SR_TXE, dr: 0 }
}

/// The interrupt effect for the register file `s`.
pub open spec fn spi_irq(s: SpiView) -> SpiEffect {
    SpiEffect::SetIrq(ssi_irq_level_spec(s.cr1, s.sr))
}

/// Chip-select levels for selection `cs`: the selected line goes low, the
/// other high; a selection other than 0 or 1 deselects both.
pub open spec fn spi_cs_effects(cs: u32) -> Seq<SpiEffect> {
    seq![SpiEffect::SetCs0(cs != 0), SpiEffect::SetCs1(cs != 1)]
}

/// A guest read at `offset`: the value read, the new register file and the
/// effects. Reading the data register takes the received word.
pub open spec fn spi_read_spec(s: SpiView, offset: u64) -> (u64, SpiView, Seq<SpiEffect>) {
    match offset {
        0x00 => (s.cr1 as u64, s, seq![]),
        0x04 => (s.cr2 as u64, s, seq![]),
        0x08 => (s.sr as u64, s, seq![]),
        0x0c => {
            let s2 = SpiView { sr: sr_after_data_read(s.sr), ..s };
            (s.dr as u64, s2, seq![spi_irq(s2)])
        },
        _ => (0, s, seq![]),
    }
}

/// A guest write of `value` at `offset`: the new register file and the
/// effects. A write to the data register starts a transfer of its low word.
pub open spec fn spi_write_spec(s: SpiView, offset: u64, value: u64) -> (SpiView, Seq<SpiEffect>) {
    let v = value as u32;
    match offset {
        0x00 => {
            let s2 = SpiView { cr1: v, ..s };
            (s2, seq![spi_irq(s2)])
        },
        0x04 => {
            let s2 = SpiView { cr2: v, ..s };
            let cs: Seq<SpiEffect> = if v & 3 != s.cr2 & 3 {
                spi_cs_effects(v & 3)
            } else {
                seq![]
            };
            (s2, cs.push(spi_irq(s2)))
        },
        0x08 => {
            if v & SR_OVR != 0 {
                let s2 = SpiView { sr: sr_after_status_write(s.sr, v), ..s };
                (s2, seq![spi_irq(s2)])
            } else {
                (s, seq![])
            }
        },
        0x0c => (SpiView { sr: sr_during_transfer(s.sr), ..s }, seq![SpiEffect::Transfer(v)]),
        _ => (s, seq![]),
    }
}

/// The bus answered a transfer with `rx`: the word is stored in the data
/// register and both flags are raised.
pub open spec fn spi_transfer_done_spec(s: SpiView, rx: u32) -> (SpiView, Seq<SpiEffect>) {
    let s2 = SpiView { dr: rx, sr: sr_after_transfer(s.sr), ..s };
    (s2, seq![spi_irq(s2)])
}


/// Every access that reports an interrupt level reports the level called for
/// by the registers after the access, and every access other than a
/// data-register write that changes the control or status register reports
/// one; a completed transfer always reports one.
pub proof fn lemma_spi_irq_follows_registers(s: SpiView, offset: u64, value: u64, rx: u32)
    ensures
        ({
            let (s2, fx) = spi_write_spec(s, offset, value);
            &&& offset != SPI_DR ==> ((s2.cr1 != s.cr1 || s2.sr != s.sr) ==> fx.len() > 0)
            &&& offset != SPI_DR ==> (fx.len() > 0 ==> fx.last() == spi_irq(s2))
        }),
        ({
            let (_, s2, fx) = spi_read_spec(s, offset);
            &&& (s2.cr1 != s.cr1 || s2.sr != s.sr) ==> fx.len() > 0
            &&& fx.len() > 0 ==> fx.last() == spi_irq(s2)
        }),
        spi_transfer_done_spec(s, rx).1 == seq![spi_irq(spi_transfer_done_spec(s, rx).0)],
{
}

/// Writing a word to the data register and completing the transfer with the
/// received word `rx`: the word written is the one sent, the received word
/// lands in the data register, both flags are raised, an overrun is flagged
/// exactly when a received word was unread or an overrun already flagged,
/// the other status bits and the control registers are kept, and a read of
/// the data register then returns `rx` and takes it.
pub proof fn lemma_spi_transfer_round_trip(s: SpiView, value: u64, rx: u32)
    ensures
        spi_write_spec(s, SPI_DR, value).1 == seq![SpiEffect::Transfer(value as u32)],
        spi_write_spec(s, SPI_DR, value).0.sr & SR_TXE == 0,
        ({
            let s2 = spi_transfer_done_spec(spi_write_spec(s, SPI_DR, value).0, rx).0;
            &&& s2.dr == rx
            &&& s2.cr1 == s.cr1
            &&& s2.cr2 == s.cr2
            &&& s2.sr & SR_RXNE != 0
            &&& s2.sr & SR_TXE != 0
            &&& (s2.sr & SR_OVR != 0) == (s.sr & SR_RXNE != 0 || s.sr & SR_OVR != 0)
            &&& s2.sr & !(SR_RXNE | SR_TXE | SR_OVR) == s.sr & !(SR_RXNE | SR_TXE | SR_OVR)
            &&& spi_read_spec(s2, SPI_DR).0 == rx as u64
            &&& spi_read_spec(s2, SPI_DR).1.sr & SR_RXNE == 0
        }),
{
    lemma_transfer_status(s.sr);
    let s2 = spi_transfer_done_spec(spi_write_spec(s, SPI_DR, value).0, rx).0;
    lemma_status_clearing(s2.sr, 0);
}

/// Reading the data register returns the stored word, clears only the
/// receive flag and keeps the word, so a second read returns it again.
pub proof fn lemma_spi_data_read(s: SpiView)
    ensures
        spi_read_spec(s, SPI_DR).0 == s.dr as u64,
        spi_read_spec(s, SPI_DR).1.sr & SR_RXNE == 0,
        spi_read_spec(s, SPI_DR).1.sr & !SR_RXNE == s.sr & !SR_RXNE,
        spi_read_spec(s, SPI_DR).1.dr == s.dr,
        spi_read_spec(spi_read_spec(s, SPI_DR).1, SPI_DR).0 == s.dr as u64,
{
    lemma_status_clearing(s.sr, 0);
}

/// Writing a one to the overrun bit of the status register clears it and
/// keeps every other bit; a write without that bit changes nothing.
pub proof fn lemma_spi_overrun_clear(s: SpiView, value: u64)
    ensures
        (value as u32) & SR_OVR != 0 ==> {
            let (s2, fx) = spi_write_spec(s, SPI_SR, value);
            &&& s2.sr & SR_OVR == 0
            &&& s2.sr & !SR_OVR == s.sr & !SR_OVR
            &&& s2.cr1 == s.cr1 && s2.cr2 == s.cr2 && s2.dr == s.dr
            &&& fx == seq![spi_irq(s2)]
        },
        (value as u32) & SR_OVR == 0 ==> spi_write_spec(s, SPI_SR, value) == (
            s,
            Seq::<SpiEffect>::empty(),
        ),
{
    lemma_status_clearing(s.sr, value as u32);
}

/// A control-register-2 write stores the value; when the selection in its low
/// two bits changes, the chip selects are driven so that the selected line
/// is low and the other high, and never are both lines low.
pub proof fn lemma_spi_chip_select(s: SpiView, value: u64)
    ensures
        ({
            let v = value as u32;
            let (s2, fx) = spi_write_spec(s, SPI_CR2, value);
            &&& s2 == (SpiView { cr2: v, ..s })
            &&& v & 3 == s.cr2 & 3 ==> fx == seq![SpiEffect::SetIrq(ssi_irq_level_spec(s.cr1, s.sr))]
            &&& v & 3 != s.cr2 & 3 ==> {
                &&& fx.len() == 3
                &&& fx[0] == SpiEffect::SetCs0(v & 3 != 0)
                &&& fx[1] == SpiEffect::SetCs1(v & 3 != 1)
                &&& fx[2] == SpiEffect::SetIrq(ssi_irq_level_spec(s.cr1, s.sr))
                &&& !(fx[0] == SpiEffect::SetCs0(false) && fx[1] == SpiEffect::SetCs1(false))
            }
        }),
{
}

/// What each register access does, stated per register: reading CR1 (0x00),
/// CR2 (0x04) or SR (0x08) returns that register and changes nothing;
/// reading DR (0x0c) returns the received word, takes it (status per
/// `sr_after_data_read`) and reports the interrupt level; a CR1 write stores
/// the low word and reports the level; a SR write with bit 4 set applies the
/// overrun clear and reports the level, without it does nothing; a DR write
/// starts the transfer of its low word; a completed transfer stores the
/// received word and reports the level; unknown offsets read zero and ignore
/// writes. Only the named register ever changes.
pub proof fn lemma_spi_register_access(s: SpiView, offset: u64, value: u64, rx: u32)
    ensures
        spi_read_spec(s, 0x00) == (s.cr1 as u64, s, Seq::<SpiEffect>::empty()),
        spi_read_spec(s, 0x04) == (s.cr2 as u64, s, Seq::<SpiEffect>::empty()),
        spi_read_spec(s, 0x08) == (s.sr as u64, s, Seq::<SpiEffect>::empty()),
        ({
            let sr2 = sr_after_data_read(s.sr);
            spi_read_spec(s, 0x0c) == (
                s.dr as u64,
                SpiView { sr: sr2, ..s },
                seq![SpiEffect::SetIrq(ssi_irq_level_spec(s.cr1, sr2))],
            )
        }),
        offset != 0x00 && offset != 0x04 && offset != 0x08 && offset != 0x0c ==> spi_read_spec(
            s,
            offset,
        ) == (0u64, s, Seq::<SpiEffect>::empty()) && spi_write_spec(s, offset, value) == (
            s,
            Seq::<SpiEffect>::empty(),
        ),
        spi_write_spec(s, 0x00, value) == (
            SpiView { cr1: value as u32, ..s },
            seq![SpiEffect::SetIrq(ssi_irq_level_spec(value as u32, s.sr))],
        ),
        spi_write_spec(s, 0x04, value).0 == (SpiView { cr2: value as u32, ..s }),
        (value as u32) & 0x10 != 0 ==> ({
            let sr2 = sr_after_status_write(s.sr, value as u32);
            spi_write_spec(s, 0x08, value) == (
                SpiView { sr: sr2, ..s },
                seq![SpiEffect::SetIrq(ssi_irq_level_spec(s.cr1, sr2))],
            )
        }),
        (value as u32) & 0x10 == 0 ==> spi_write_spec(s, 0x08, value) == (
            s,
            Seq::<SpiEffect>::empty(),
        ),
        spi_write_spec(s, 0x0c, value) == (
            SpiView { sr: sr_during_transfer(s.sr), ..s },
            seq![SpiEffect::Transfer(value as u32)],
        ),
        ({
            let sr2 = sr_after_transfer(s.sr);
            spi_transfer_done_spec(s, rx) == (
                SpiView { dr: rx, sr: sr2, ..s },
                seq![SpiEffect::SetIrq(ssi_irq_level_spec(s.cr1, sr2))],
            )
        }),
        spi_read_spec(spi_write_spec(s, 0x00, value).0, 0x00).0 == (value as u32) as u64,
        spi_read_spec(spi_write_spec(s, 0x04, value).0, 0x04).0 == (value as u32) as u64,
{
    assert(spi_write_spec(s, 0x00, value).1 =~= seq![
        SpiEffect::SetIrq(ssi_irq_level_spec(value as u32, s.sr)),
    ]);
}

/// After reset the control registers read zero, the status register reads
/// only TXE (bit 1) and the data register holds zero. The chip-select
/// effects for a selection drive line 0 low exactly for selection 0 and
/// line 1 low exactly for selection 1, never both low.
pub proof fn lemma_spi_reset_and_select(cs: u32)
    ensures
        spi_read_spec(spi_reset(), 0x00).0 == 0,
        spi_read_spec(spi_reset(), 0x04).0 == 0,
        spi_read_spec(spi_reset(), 0x08).0 == 0x02,
        spi_reset().dr == 0,
        spi_cs_effects(cs).len() == 2,
        spi_cs_effects(cs)[0] == SpiEffect::SetCs0(cs != 0),
        spi_cs_effects(cs)[1] == SpiEffect::SetCs1(cs != 1),
        !(spi_cs_effects(cs)[0] == SpiEffect::SetCs0(false) && spi_cs_effects(cs)[1]
            == SpiEffect::SetCs1(false)),
{
}

/// The chip-select effects for selection `cs`.
fn cs_select(cs: u32) -> (r: Vec<SpiEffect>)
    ensures
        r@ == spi_cs_effects(cs),
{
    let mut fx: Vec<SpiEffect> = Vec::new();
    if cs == 0 {
        fx.push(SpiEffect::SetCs0(false));
        fx.push(SpiEffect::SetCs1(true));
    } else if cs == 1 {
        fx.push(SpiEffect::SetCs0(true));
        fx.push(SpiEffect::SetCs1(false));
    } else {
        fx.push(SpiEffect::SetCs0(true));
        fx.push(SpiEffect::SetCs1(true));
    }
    fx
}

impl SpiState {
    /// A controller in its reset state.
    pub fn init() -> (s: SpiState)
        ensures
            s@ == spi_reset(),
    {
        SpiState { cr1: 0, cr2: 0, sr: SR_TXE, dr: 0 }
    }

    /// Once the lines are wired, drive the chip selects to match the current
    /// selection.
    pub fn post_init(&self) -> (r: Vec<SpiEffect>)
        ensures
            r@ == spi_cs_effects(self@.cr2 & 3),
    {
        let cs = self.cr2_val() & 0x03;
        cs_select(cs)
    }

    /// Device reset: registers return to their reset values, chip 0 is
    /// selected and the interrupt is lowered.
    pub fn hold_reset(&mut self) -> (r: Vec<SpiEffect>)
        ensures
            final(self)@ == spi_reset(),
            r@ == seq![SpiEffect::SetCs0(false), SpiEffect::SetCs1(true), SpiEffect::SetIrq(false)],
    {
        self.cr1 = 0;
        self.cr2 = 0;
        self.sr = SR_TXE;
        self.dr = 0;
        let mut fx: Vec<SpiEffect> = Vec::new();
        fx.push(SpiEffect::SetCs0(false));
        fx.push(SpiEffect::SetCs1(true));
        fx.push(SpiEffect::SetIrq(false));
        fx
    }

    pub fn cr1_val(&self) -> (r: u32)
        ensures
            r == self@.cr1,
    {
        self.cr1
    }

    pub fn set_cr1(&mut self, val: u32)
        ensures
            final(self)@ == (SpiView { cr1: val, ..old(self)@ }),
    {
        self.cr1 = val;
    }

    pub fn cr2_val(&self) -> (r: u32)
        ensures
            r == self@.cr2,
    {
        self.cr2
    }

    pub fn set_cr2(&mut self, val: u32)
        ensures
            final(self)@ == (SpiView { cr2: val, ..old(self)@ }),
    {
        self.cr2 = val;
    }

    pub fn sr_val(&self) -> (r: u32)
        ensures
            r == self@.sr,
    {
        self.sr
    }

    pub fn set_sr(&mut self, val: u32)
        ensures
            final(self)@ == (SpiView { sr: val, ..old(self)@ }),
    {
        self.sr = val;
    }

    pub fn dr_val(&self) -> (r: u32)
        ensures
            r == self@.dr,
    {
        self.dr
    }

    pub fn set_dr(&mut self, val: u32)
        ensures
            final(self)@ == (SpiView { dr: val, ..old(self)@ }),
    {
        self.dr = val;
    }

    /// The interrupt level the current registers call for.
    pub fn update_spi(&self) -> (r: SpiEffect)
        ensures
            r == spi_irq(self@),
    {
        SpiEffect::SetIrq(ssi_irq_level(self.cr1_val(), self.sr_val()))
    }

    /// A guest read of `offset`: the value read and the effects.
    pub fn read(&mut self, offset: u64, _size: u32) -> (r: (u64, Vec<SpiEffect>))
        ensures
            r.0 == spi_read_spec(old(self)@, offset).0,
            final(self)@ == spi_read_spec(old(self)@, offset).1,
            r.1@ == spi_read_spec(old(self)@, offset).2,
    {
        let mut fx: Vec<SpiEffect> = Vec::new();
        let value: u64 = match offset {
            0x00 => self.cr1_val() as u64,
            0x04 => self.cr2_val() as u64,
            0x08 => self.sr_val() as u64,
            0x0c => {
                let data = self.dr_val();
                self.set_sr(self.sr_val() & !SR_RXNE);
                fx.push(self.update_spi());
                data as u64
            },
            _ => 0,
        };
        (value, fx)
    }

    /// A guest write of `value` at `offset`: the effects, in order.
    pub fn write(&mut self, offset: u64, value: u64, _size: u32) -> (r: Vec<SpiEffect>)
        ensures
            final(self)@ == spi_write_spec(old(self)@, offset, value).0,
            r@ == spi_write_spec(old(self)@, offset, value).1,
    {
        let val32 = value as u32;
        let mut fx: Vec<SpiEffect> = Vec::new();
        match offset {
            0x00 => {
                self.set_cr1(val32);
                fx.push(self.update_spi());
            },
            0x04 => {
                let old_cs = self.cr2_val() & 0x03;
                let new_cs = val32 & 0x03;
                if new_cs != old_cs {
                    fx = cs_select(new_cs);
                }
                self.set_cr2(val32);
                fx.push(self.update_spi());
            },
            0x08 => {
                if (val32 & SR_OVR) != 0 {
                    self.set_sr(self.sr_val() & !SR_OVR);
                    fx.push(self.update_spi());
                }
            },
            0x0c => {
                let sr_before = self.sr_val();
                if (sr_before & SR_RXNE) != 0 {
                    self.set_sr(sr_before | SR_OVR);
                }
                self.set_sr(self.sr_val() & !SR_TXE);
                fx.push(SpiEffect::Transfer(val32));
            },
            _ => {},
        }
        fx
    }

    /// The bus answered the transfer started by a data-register write with
    /// the word `rx`.
    pub fn complete_transfer(&mut self, rx: u32) -> (r: Vec<SpiEffect>)
        ensures
            final(self)@ == spi_transfer_done_spec(old(self)@, rx).0,
            r@ == spi_transfer_done_spec(old(self)@, rx).1,
    {
        self.set_dr(rx);
        self.set_sr(self.sr_val() | SR_RXNE);
        self.set_sr(self.sr_val() | SR_TXE);
        let mut fx: Vec<SpiEffect> = Vec::new();
        fx.push(self.update_spi());
        fx
    }
}

} // verus!
