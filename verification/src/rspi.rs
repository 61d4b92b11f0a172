use vstd::prelude::*;

use crate::ssi::{
    lemma_status_clearing, lemma_transfer_status, ssi_irq_level, ssi_irq_level_spec, sr_after_data_read, sr_after_status_write,
    sr_after_transfer, sr_during_transfer, SR_OVR, SR_RXNE, SR_TXE,
};

verus! {

/// Control register 1: bit 0 enables the controller, bits 5 to 7 enable
/// interrupts.
pub const RSPI_CR1: u64 = 0x00;
/// Status register.
pub const RSPI_SR: u64 = 0x04;
/// Data register.
pub const RSPI_DR: u64 = 0x08;
/// Chip-select register: the low two bits select the chip.
pub const RSPI_CS: u64 = 0x0c;

/// Control bit: the controller is enabled.
pub const CR1_SPE: u32 = 0x01;

/// What the single-chip SPI controller asks the machine to do.
#[derive(PartialEq, Eq, Structural, Debug, Clone, Copy)]
pub enum RspiEffect {
    /// Drive the interrupt line to this level.
    SetIrq(bool),
    /// Drive chip-select line 0 (active low) to this level.
    SetCs0(bool),
    /// Shift this word out on the bus; the word shifted in must be handed
    /// back through `complete_transfer`.
    Transfer(u32),
}

/// Abstract register file of the single-chip SPI controller.
pub struct RspiView {
    pub cr1: u32,
    pub cs: u32,
    pub sr: u32,
    pub dr: u32,
}

/// The SPI controller with one chip-select line.
pub struct RspiState {
    cr1: u32,
    cs: u32,
    sr: u32,
    dr: u32,
}

impl View for RspiState {
    type V = RspiView;

    closed spec fn view(&self) -> RspiView {
        RspiView { cr1: self.cr1, cs: self.cs, sr: self.sr, dr: self.dr }
    }
}

/// The register file after reset: all zero.
pub open spec fn rspi_reset() -> RspiView {
    RspiView { cr1: 0, cs: 0, sr: 0, dr: 0 }
}

/// The interrupt effect for the register file `s`.
pub open spec fn rspi_irq(s: RspiView) -> RspiEffect {
    RspiEffect::SetIrq(ssi_irq_level_spec(s.cr1, s.sr))
}

/// The status register after control register 1 changes from `old_cr1` to
/// `v`: enabling raises the transmitter-empty flag, disabling clears every
/// flag.
pub open spec fn rspi_sr_after_cr1(sr: u32, old_cr1: u32, v: u32) -> u32 {
    if v & CR1_SPE == 0 {
        0
    } else if old_cr1 & CR1_SPE == 0 {
        sr | SR_TXE
    } else {
        sr
    }
}

/// A guest read at `offset`: the value read, the new register file and the
/// effects. Reading the data register takes the received word.
pub open spec fn rspi_read_spec(s: RspiView, offset: u64) -> (u64, RspiView, Seq<RspiEffect>) {
    match offset {
        0x00 => (s.cr1 as u64, s, seq![]),
        0x04 => (s.sr as u64, s, seq![]),
        0x08 => {
            let s2 = RspiView { sr: sr_after_data_read(s.sr), ..s };
            (s.dr as u64, s2, seq![rspi_irq(s2)])
        },
        0x0c => (s.cs as u64, s, seq![]),
        _ => (0, s, seq![]),
    }
}

/// A guest write of `value` at `offset`: the new register file and the
/// effects. A write to the data register starts a transfer of its low word.
pub open spec fn rspi_write_spec(s: RspiView, offset: u64, value: u64) -> (
    RspiView,
    Seq<RspiEffect>,
) {
    let v = value as u32;
    match offset {
        0x00 => {
            let s2 = RspiView { cr1: v, sr: rspi_sr_after_cr1(s.sr, s.cr1, v), ..s };
            (s2, seq![rspi_irq(s2)])
        },
        0x04 => {
            if v & SR_OVR != 0 {
                let s2 = RspiView { sr: sr_after_status_write(s.sr, v), ..s };
                (s2, seq![rspi_irq(s2)])
            } else {
                (s, seq![])
            }
        },
        0x08 => (RspiView { sr: sr_during_transfer(s.sr), ..s }, seq![RspiEffect::Transfer(v)]),
        0x0c => {
            let s2 = RspiView { cs: v, ..s };
            let cs: Seq<RspiEffect> = if v & 3 != s.cs & 3 {
                seq![RspiEffect::SetCs0(v & 3 != 0)]
            } else {
                seq![]
            };
            (s2, cs.push(rspi_irq(s2)))
        },
        _ => (s, seq![]),
    }
}

/// The bus answered a transfer with `rx`: the word is stored in the data
/// register and both flags are raised.
pub open spec fn rspi_transfer_done_spec(s: RspiView, rx: u32) -> (RspiView, Seq<RspiEffect>) {
    let s2 = RspiView { dr: rx, sr: sr_after_transfer(s.sr), ..s };
    (s2, seq![rspi_irq(s2)])
}


/// Every access that reports an interrupt level reports the level called for
/// by the registers after the access, and every access other than a
/// data-register write that changes the control or status register reports
/// one; a completed transfer always reports one.
pub proof fn lemma_rspi_irq_follows_registers(s: RspiView, offset: u64, value: u64, rx: u32)
    ensures
        ({
            let (s2, fx) = rspi_write_spec(s, offset, value);
            &&& offset != RSPI_DR ==> ((s2.cr1 != s.cr1 || s2.sr != s.sr) ==> fx.len() > 0)
            &&& offset != RSPI_DR ==> (fx.len() > 0 ==> fx.last() == rspi_irq(s2))
        }),
        ({
            let (_, s2, fx) = rspi_read_spec(s, offset);
            &&& (s2.cr1 != s.cr1 || s2.sr != s.sr) ==> fx.len() > 0
            &&& fx.len() > 0 ==> fx.last() == rspi_irq(s2)
        }),
        rspi_transfer_done_spec(s, rx).1 == seq![rspi_irq(rspi_transfer_done_spec(s, rx).0)],
{
}

/// Writing a word to the data register and completing the transfer with the
/// received word `rx`: the word written is the one sent, the received word
/// lands in the data register, both flags are raised, an overrun is flagged
/// exactly when a received word was unread or an overrun already flagged,
/// the other status bits and the control registers are kept, and a read of
/// the data register then returns `rx` and takes it.
pub proof fn lemma_rspi_transfer_round_trip(s: RspiView, value: u64, rx: u32)
    ensures
        rspi_write_spec(s, RSPI_DR, value).1 == seq![RspiEffect::Transfer(value as u32)],
        rspi_write_spec(s, RSPI_DR, value).0.sr & SR_TXE == 0,
        ({
            let s2 = rspi_transfer_done_spec(rspi_write_spec(s, RSPI_DR, value).0, rx).0;
            &&& s2.dr == rx
            &&& s2.cr1 == s.cr1
            &&& s2.cs == s.cs
            &&& s2.sr & SR_RXNE != 0
            &&& s2.sr & SR_TXE != 0
            &&& (s2.sr & SR_OVR != 0) == (s.sr & SR_RXNE != 0 || s.sr & SR_OVR != 0)
            &&& s2.sr & !(SR_RXNE | SR_TXE | SR_OVR) == s.sr & !(SR_RXNE | SR_TXE | SR_OVR)
            &&& rspi_read_spec(s2, RSPI_DR).0 == rx as u64
            &&& rspi_read_spec(s2, RSPI_DR).1.sr & SR_RXNE == 0
        }),
{
    lemma_transfer_status(s.sr);
    let s2 = rspi_transfer_done_spec(rspi_write_spec(s, RSPI_DR, value).0, rx).0;
    lemma_status_clearing(s2.sr, 0);
}

/// Reading the data register returns the stored word, clears only the
/// receive flag and keeps the word, so a second read returns it again.
pub proof fn lemma_rspi_data_read(s: RspiView)
    ensures
        rspi_read_spec(s, RSPI_DR).0 == s.dr as u64,
        rspi_read_spec(s, RSPI_DR).1.sr & SR_RXNE == 0,
        rspi_read_spec(s, RSPI_DR).1.sr & !SR_RXNE == s.sr & !SR_RXNE,
        rspi_read_spec(s, RSPI_DR).1.dr == s.dr,
        rspi_read_spec(rspi_read_spec(s, RSPI_DR).1, RSPI_DR).0 == s.dr as u64,
{
    lemma_status_clearing(s.sr, 0);
}

/// Writing a one to the overrun bit of the status register clears it and
/// keeps every other bit; a write without that bit changes nothing.
pub proof fn lemma_rspi_overrun_clear(s: RspiView, value: u64)
    ensures
        (value as u32) & SR_OVR != 0 ==> {
            let (s2, fx) = rspi_write_spec(s, RSPI_SR, value);
            &&& s2.sr & SR_OVR == 0
            &&& s2.sr & !SR_OVR == s.sr & !SR_OVR
            &&& s2.cr1 == s.cr1 && s2.cs == s.cs && s2.dr == s.dr
            &&& fx == seq![rspi_irq(s2)]
        },
        (value as u32) & SR_OVR == 0 ==> rspi_write_spec(s, RSPI_SR, value) == (
            s,
            Seq::<RspiEffect>::empty(),
        ),
{
    lemma_status_clearing(s.sr, value as u32);
}

/// Disabling the controller clears every status flag and lowers the
/// interrupt; enabling a disabled controller raises the transmitter-empty
/// flag and keeps the other flags; rewriting an enabled controller keeps the
/// status register. The control register takes the written value.
pub proof fn lemma_rspi_enable(s: RspiView, value: u64)
    ensures
        ({
            let v = value as u32;
            let (s2, fx) = rspi_write_spec(s, RSPI_CR1, value);
            &&& s2.cr1 == v && s2.cs == s.cs && s2.dr == s.dr
            &&& v & CR1_SPE == 0 ==> s2.sr == 0 && fx == seq![RspiEffect::SetIrq(false)]
            &&& v & CR1_SPE != 0 && s.cr1 & CR1_SPE == 0 ==> s2.sr & SR_TXE != 0 && s2.sr & !SR_TXE
                == s.sr & !SR_TXE
            &&& v & CR1_SPE != 0 && s.cr1 & CR1_SPE != 0 ==> s2.sr == s.sr
        }),
{
    let (v, sr) = (value as u32, s.sr);
    assert((0u32 & 0x02u32) == 0 && (0u32 & 0x01u32) == 0 && (0u32 & 0x10u32) == 0 && (sr
        | 0x02u32) & 0x02u32 != 0 && (sr | 0x02u32) & !0x02u32 == sr & !0x02u32) by (bit_vector);
}

/// A chip-select-register write stores the value; when the selection in its
/// low two bits changes, the chip-select line goes low exactly when chip 0
/// is selected.
pub proof fn lemma_rspi_chip_select(s: RspiView, value: u64)
    ensures
        ({
            let v = value as u32;
            let (s2, fx) = rspi_write_spec(s, RSPI_CS, value);
            &&& s2 == (RspiView { cs: v, ..s })
            &&& v & 3 == s.cs & 3 ==> fx == seq![RspiEffect::SetIrq(ssi_irq_level_spec(s.cr1, s.sr))]
            &&& v & 3 != s.cs & 3 ==> fx == seq![
                RspiEffect::SetCs0(v & 3 != 0),
                RspiEffect::SetIrq(ssi_irq_level_spec(s.cr1, s.sr)),
            ]
        }),
{
}

/// What each register access does, stated per register: reading CR1 (0x00),
/// SR (0x04) or CS (0x0c) returns that register and changes nothing; reading
/// DR (0x08) returns the received word, takes it and reports the interrupt
/// level; a CR1 write stores the low word, clears the status when bit 0 is
/// clear, raises TXE (bit 1) when bit 0 goes from clear to set, and reports
/// the level; a SR write with bit 4 set applies the overrun clear and
/// reports the level, without it does nothing; a DR write starts the
/// transfer of its low word; a CS write stores the low word; a completed
/// transfer stores the received word and reports the level; unknown offsets
/// read zero and ignore writes. Only the named register ever changes.
pub proof fn lemma_rspi_register_access(s: RspiView, offset: u64, value: u64, rx: u32)
    ensures
        rspi_read_spec(s, 0x00) == (s.cr1 as u64, s, Seq::<RspiEffect>::empty()),
        rspi_read_spec(s, 0x04) == (s.sr as u64, s, Seq::<RspiEffect>::empty()),
        rspi_read_spec(s, 0x0c) == (s.cs as u64, s, Seq::<RspiEffect>::empty()),
        ({
            let sr2 = sr_after_data_read(s.sr);
            rspi_read_spec(s, 0x08) == (
                s.dr as u64,
                RspiView { sr: sr2, ..s },
                seq![RspiEffect::SetIrq(ssi_irq_level_spec(s.cr1, sr2))],
            )
        }),
        offset != 0x00 && offset != 0x04 && offset != 0x08 && offset != 0x0c ==> rspi_read_spec(
            s,
            offset,
        ) == (0u64, s, Seq::<RspiEffect>::empty()) && rspi_write_spec(s, offset, value) == (
            s,
            Seq::<RspiEffect>::empty(),
        ),
        ({
            let v = value as u32;
            let (s2, fx) = rspi_write_spec(s, 0x00, value);
            &&& s2.cr1 == v && s2.cs == s.cs && s2.dr == s.dr
            &&& v & 0x01 == 0 ==> s2.sr == 0
            &&& v & 0x01 != 0 && s.cr1 & 0x01 == 0 ==> s2.sr & 0x02 != 0 && s2.sr & !0x02u32
                == s.sr & !0x02u32
            &&& v & 0x01 != 0 && s.cr1 & 0x01 != 0 ==> s2.sr == s.sr
            &&& fx == seq![RspiEffect::SetIrq(ssi_irq_level_spec(v, s2.sr))]
        }),
        (value as u32) & 0x10 != 0 ==> ({
            let sr2 = sr_after_status_write(s.sr, value as u32);
            rspi_write_spec(s, 0x04, value) == (
                RspiView { sr: sr2, ..s },
                seq![RspiEffect::SetIrq(ssi_irq_level_spec(s.cr1, sr2))],
            )
        }),
        (value as u32) & 0x10 == 0 ==> rspi_write_spec(s, 0x04, value) == (
            s,
            Seq::<RspiEffect>::empty(),
        ),
        rspi_write_spec(s, 0x08, value) == (
            RspiView { sr: sr_during_transfer(s.sr), ..s },
            seq![RspiEffect::Transfer(value as u32)],
        ),
        rspi_write_spec(s, 0x0c, value).0 == (RspiView { cs: value as u32, ..s }),
        ({
            let sr2 = sr_after_transfer(s.sr);
            rspi_transfer_done_spec(s, rx) == (
                RspiView { dr: rx, sr: sr2, ..s },
                seq![RspiEffect::SetIrq(ssi_irq_level_spec(s.cr1, sr2))],
            )
        }),
        rspi_read_spec(rspi_write_spec(s, 0x00, value).0, 0x00).0 == (value as u32) as u64,
        rspi_read_spec(rspi_write_spec(s, 0x0c, value).0, 0x0c).0 == (value as u32) as u64,
        rspi_read_spec(rspi_reset(), 0x00).0 == 0,
        rspi_read_spec(rspi_reset(), 0x04).0 == 0,
        rspi_read_spec(rspi_reset(), 0x0c).0 == 0,
        rspi_reset().dr == 0,
{
    let sr = s.sr;
    assert((sr | 0x02u32) & 0x02u32 != 0 && (sr | 0x02u32) & !0x02u32 == sr & !0x02u32)
        by (bit_vector);
}

impl RspiState {
    /// A controller in its reset state.
    pub fn init() -> (s: RspiState)
        ensures
            s@ == rspi_reset(),
    {
        RspiState { cr1: 0, cs: 0, sr: 0, dr: 0 }
    }

    /// Once the lines are wired, the chip-select line is driven high
    /// (no chip selected).
    pub fn post_init(&self) -> (r: Vec<RspiEffect>)
        ensures
            r@ == seq![RspiEffect::SetCs0(true)],
    {
        let mut fx: Vec<RspiEffect> = Vec::new();
        fx.push(RspiEffect::SetCs0(true));
        fx
    }

    pub fn cr1_val(&self) -> (r: u32)
        ensures
            r == self@.cr1,
    {
        self.cr1
    }

    pub fn set_cr1(&mut self, val: u32)
        ensures
            final(self)@ == (RspiView { cr1: val, ..old(self)@ }),
    {
        self.cr1 = val;
    }

    pub fn cs_val(&self) -> (r: u32)
        ensures
            r == self@.cs,
    {
        self.cs
    }

    pub fn set_cs(&mut self, val: u32)
        ensures
            final(self)@ == (RspiView { cs: val, ..old(self)@ }),
    {
        self.cs = val;
    }

    pub fn sr_val(&self) -> (r: u32)
        ensures
            r == self@.sr,
    {
        self.sr
    }

    pub fn set_sr(&mut self, val: u32)
        ensures
            final(self)@ == (RspiView { sr: val, ..old(self)@ }),
    {
        self.sr = val;
    }

    pub fn dr_val(&self) -> (r: u32)
        ensures
            r == self@.dr,
    {
        self.dr
    }

    pub fn set_dr(&mut self, val: u32)
        ensures
            final(self)@ == (RspiView { dr: val, ..old(self)@ }),
    {
        self.dr = val;
    }

    /// The interrupt level the current registers call for.
    pub fn update_irq(&self) -> (r: RspiEffect)
        ensures
            r == rspi_irq(self@),
    {
        RspiEffect::SetIrq(ssi_irq_level(self.cr1_val(), self.sr_val()))
    }

    /// A guest read of `offset`: the value read and the effects.
    pub fn read(&mut self, offset: u64, _size: u32) -> (r: (u64, Vec<RspiEffect>))
        ensures
            r.0 == rspi_read_spec(old(self)@, offset).0,
            final(self)@ == rspi_read_spec(old(self)@, offset).1,
            r.1@ == rspi_read_spec(old(self)@, offset).2,
    {
        let mut fx: Vec<RspiEffect> = Vec::new();
        let value: u64 = match offset {
            0x00 => self.cr1_val() as u64,
            0x04 => self.sr_val() as u64,
            0x08 => {
                let data = self.dr_val();
                self.set_sr(self.sr_val() & !SR_RXNE);
                fx.push(self.update_irq());
                data as u64
            },
            0x0c => self.cs_val() as u64,
            _ => 0,
        };
        (value, fx)
    }

    /// A guest write of `value` at `offset`: the effects, in order.
    pub fn write(&mut self, offset: u64, value: u64, _size: u32) -> (r: Vec<RspiEffect>)
        ensures
            final(self)@ == rspi_write_spec(old(self)@, offset, value).0,
            r@ == rspi_write_spec(old(self)@, offset, value).1,
    {
        let val32 = value as u32;
        let mut fx: Vec<RspiEffect> = Vec::new();
        match offset {
            0x00 => {
                let old_cr1 = self.cr1_val();
                self.set_cr1(val32);
                if (old_cr1 & CR1_SPE) == 0 && (val32 & CR1_SPE) != 0 {
                    self.set_sr(self.sr_val() | SR_TXE);
                }
                if (val32 & CR1_SPE) == 0 {
                    self.set_sr(0);
                }
                fx.push(self.update_irq());
            },
            0x04 => {
                if (val32 & SR_OVR) != 0 {
                    self.set_sr(self.sr_val() & !SR_OVR);
                    fx.push(self.update_irq());
                }
            },
            0x08 => {
                let sr_before = self.sr_val();
                if (sr_before & SR_RXNE) != 0 {
                    self.set_sr(sr_before | SR_OVR);
                }
                self.set_sr(self.sr_val() & !SR_TXE);
                fx.push(RspiEffect::Transfer(val32));
            },
            0x0c => {
                let old_cs = self.cs_val() & 0x03;
                let new_cs = val32 & 0x03;
                if new_cs != old_cs {
                    if new_cs == 0 {
                        fx.push(RspiEffect::SetCs0(false));
                    } else {
                        fx.push(RspiEffect::SetCs0(true));
                    }
                }
                self.set_cs(val32);
                fx.push(self.update_irq());
            },
            _ => {},
        }
        fx
    }

    /// The bus answered the transfer started by a data-register write with
    /// the word `rx`.
    pub fn complete_transfer(&mut self, rx: u32) -> (r: Vec<RspiEffect>)
        ensures
            final(self)@ == rspi_transfer_done_spec(old(self)@, rx).0,
            r@ == rspi_transfer_done_spec(old(self)@, rx).1,
    {
        self.set_dr(rx);
        self.set_sr(self.sr_val() | SR_RXNE);
        self.set_sr(self.sr_val() | SR_TXE);
        let mut fx: Vec<RspiEffect> = Vec::new();
        fx.push(self.update_irq());
        fx
    }
}

} // verus!
