use vstd::prelude::*;

verus! {

/// Status bit: the data register holds a received word not yet read.
pub const SR_RXNE: u32 = 0x01;
/// Status bit: the transmitter can take a new word.
pub const SR_TXE: u32 = 0x02;
/// Status bit: a received word was overwritten before it was read.
pub const SR_OVR: u32 = 0x10;
/// Control bit: raise the interrupt on an overrun.
pub const CR1_ERRIE: u32 = 0x20;
/// Control bit: raise the interrupt while a received word waits.
pub const CR1_RXNEIE: u32 = 0x40;
/// Control bit: raise the interrupt while the transmitter is empty.
pub const CR1_TXEIE: u32 = 0x80;

/// The interrupt line of an SPI controller is high exactly when one of the
/// enabled conditions holds in the status register.
pub open spec fn ssi_irq_level_spec(cr1: u32, sr: u32) -> bool {
    (cr1 & CR1_TXEIE != 0 && sr & SR_TXE != 0) || (cr1 & CR1_RXNEIE != 0 && sr & SR_RXNE != 0)
        || (cr1 & CR1_ERRIE != 0 && sr & SR_OVR != 0)
}

/// The status register after the guest reads the data register: the
/// received word has been taken.
pub open spec fn sr_after_data_read(sr: u32) -> u32 {
    sr & !SR_RXNE
}

/// The status register while a word written to the data register is on the
/// bus: an unread received word is flagged as overrun, and the transmitter
/// is busy.
pub open spec fn sr_during_transfer(sr: u32) -> u32 {
    (if sr & SR_RXNE != 0 {
        sr | SR_OVR
    } else {
        sr
    }) & !SR_TXE
}

/// The status register once the bus has answered: a word was received and
/// the transmitter is free again.
pub open spec fn sr_after_transfer(sr: u32) -> u32 {
    sr | SR_RXNE | SR_TXE
}

/// The status register after the guest writes `v` to it: writing one to the
/// overrun bit clears it; nothing else is writable.
pub open spec fn sr_after_status_write(sr: u32, v: u32) -> u32 {
    if v & SR_OVR != 0 {
        sr & !SR_OVR
    } else {
        sr
    }
}

/// The interrupt level for control register `cr1` and status register `sr`.
pub fn ssi_irq_level(cr1: u32, sr: u32) -> (r: bool)
    ensures
        r == ssi_irq_level_spec(cr1, sr),
{
    let txe_ie = (cr1 & CR1_TXEIE) != 0;
    let rxne_ie = (cr1 & CR1_RXNEIE) != 0;
    let err_ie = (cr1 & CR1_ERRIE) != 0;
    let overrun = (sr & SR_OVR) != 0;
    let txe = (sr & SR_TXE) != 0;
    let rxne = (sr & SR_RXNE) != 0;
    (txe_ie && txe) || (rxne_ie && rxne) || (err_ie && overrun)
}

/// A completed transfer leaves both the receive and transmit flags set, keeps
/// every other status bit, and flags an overrun exactly when a received word
/// was still unread or an overrun was already flagged.
pub proof fn lemma_transfer_status(sr: u32)
    ensures
        sr_after_transfer(sr_during_transfer(sr)) & SR_RXNE != 0,
        sr_after_transfer(sr_during_transfer(sr)) & SR_TXE != 0,
        (sr_after_transfer(sr_during_transfer(sr)) & SR_OVR != 0) == (sr & SR_RXNE != 0 || sr
            & SR_OVR != 0),
        sr_after_transfer(sr_during_transfer(sr)) & !(SR_RXNE | SR_TXE | SR_OVR) == sr & !(
        SR_RXNE | SR_TXE | SR_OVR),
        sr_during_transfer(sr) & SR_TXE == 0,
{
    assert((((sr | 0x10u32) & !0x02u32) | 0x01u32 | 0x02u32) & 0x01u32 != 0) by (bit_vector);
    assert(((sr & !0x02u32) | 0x01u32 | 0x02u32) & 0x01u32 != 0) by (bit_vector);
    assert((((sr | 0x10u32) & !0x02u32) | 0x01u32 | 0x02u32) & 0x02u32 != 0) by (bit_vector);
    assert(((sr & !0x02u32) | 0x01u32 | 0x02u32) & 0x02u32 != 0) by (bit_vector);
    assert((((sr | 0x10u32) & !0x02u32) | 0x01u32 | 0x02u32) & 0x10u32 != 0) by (bit_vector);
    assert(sr & 0x01u32 == 0 ==> ((((sr & !0x02u32) | 0x01u32 | 0x02u32) & 0x10u32 != 0) == (sr
        & 0x10u32 != 0))) by (bit_vector);
    assert((((sr | 0x10u32) & !0x02u32) | 0x01u32 | 0x02u32) & !(0x01u32 | 0x02u32 | 0x10u32)
        == sr & !(0x01u32 | 0x02u32 | 0x10u32)) by (bit_vector);
    assert(((sr & !0x02u32) | 0x01u32 | 0x02u32) & !(0x01u32 | 0x02u32 | 0x10u32) == sr & !(
    0x01u32 | 0x02u32 | 0x10u32)) by (bit_vector);
    assert((sr | 0x10u32) & !0x02u32 & 0x02u32 == 0) by (bit_vector);
    assert(sr & !0x02u32 & 0x02u32 == 0) by (bit_vector);
}

/// Reading the data register clears only the receive flag; writing the status
/// register clears at most the overrun flag.
pub proof fn lemma_status_clearing(sr: u32, v: u32)
    ensures
        sr_after_data_read(sr) & SR_RXNE == 0,
        sr_after_data_read(sr) & !SR_RXNE == sr & !SR_RXNE,
        v & SR_OVR != 0 ==> sr_after_status_write(sr, v) & SR_OVR == 0,
        sr_after_status_write(sr, v) & !SR_OVR == sr & !SR_OVR,
{
    assert(sr & !0x01u32 & 0x01u32 == 0) by (bit_vector);
    assert(sr & !0x01u32 & !0x01u32 == sr & !0x01u32) by (bit_vector);
    assert(sr & !0x10u32 & 0x10u32 == 0) by (bit_vector);
    assert(sr & !0x10u32 & !0x10u32 == sr & !0x10u32) by (bit_vector);
}

/// The interrupt line is high exactly when the transmitter is empty with its
/// interrupt (bit 7) enabled, a received word waits with its interrupt
/// (bit 6) enabled, or an overrun is flagged with its interrupt (bit 5)
/// enabled; the status bits are TXE (bit 1), RXNE (bit 0) and OVR (bit 4).
/// A waiting word with its interrupt enabled raises the line whatever the
/// other bits; with no interrupt enabled, or no flag set, the line is low.
pub proof fn lemma_ssi_irq_rule(cr1: u32, sr: u32)
    ensures
        ssi_irq_level_spec(cr1, sr) == ((cr1 & 0x80 != 0 && sr & 0x02 != 0) || (cr1 & 0x40 != 0
            && sr & 0x01 != 0) || (cr1 & 0x20 != 0 && sr & 0x10 != 0)),
        cr1 & 0x40 != 0 && sr & 0x01 != 0 ==> ssi_irq_level_spec(cr1, sr),
        cr1 & 0x80 != 0 && sr & 0x02 != 0 ==> ssi_irq_level_spec(cr1, sr),
        cr1 & 0x20 != 0 && sr & 0x10 != 0 ==> ssi_irq_level_spec(cr1, sr),
        cr1 & 0xe0 == 0 ==> !ssi_irq_level_spec(cr1, sr),
        sr & 0x13 == 0 ==> !ssi_irq_level_spec(cr1, sr),
{
    assert((cr1 & 0xe0u32 == 0 ==> (cr1 & 0x80u32 == 0 && cr1 & 0x40u32 == 0 && cr1 & 0x20u32
        == 0)) && (sr & 0x13u32 == 0 ==> (sr & 0x02u32 == 0 && sr & 0x01u32 == 0 && sr & 0x10u32
        == 0))) by (bit_vector);
}

/// Each status-register rule, bit by bit: a data read clears RXNE (bit 0)
/// only; starting a transfer clears TXE (bit 1), sets OVR (bit 4) when RXNE
/// was set, and keeps every other bit; finishing it sets RXNE and TXE and
/// keeps every other bit; a status write with bit 4 set clears OVR only,
/// and one without it changes nothing.
pub proof fn lemma_ssi_status_rules(sr: u32, v: u32)
    ensures
        sr_after_data_read(sr) & 0x01 == 0,
        sr_after_data_read(sr) & !0x01u32 == sr & !0x01u32,
        sr_during_transfer(sr) & 0x02 == 0,
        (sr_during_transfer(sr) & 0x10 != 0) == (sr & 0x01 != 0 || sr & 0x10 != 0),
        sr_during_transfer(sr) & !0x12u32 == sr & !0x12u32,
        sr_after_transfer(sr) & 0x03 == 0x03,
        sr_after_transfer(sr) & !0x03u32 == sr & !0x03u32,
        v & 0x10 != 0 ==> sr_after_status_write(sr, v) & 0x10 == 0,
        v & 0x10 != 0 ==> sr_after_status_write(sr, v) & !0x10u32 == sr & !0x10u32,
        v & 0x10 == 0 ==> sr_after_status_write(sr, v) == sr,
{
    assert(sr & !0x01u32 & 0x01u32 == 0 && sr & !0x01u32 & !0x01u32 == sr & !0x01u32 && (sr
        | 0x10u32) & !0x02u32 & 0x02u32 == 0 && sr & !0x02u32 & 0x02u32 == 0 && (sr & 0x01u32
        != 0 ==> (sr | 0x10u32) & !0x02u32 & 0x10u32 != 0) && (sr & 0x01u32 == 0 ==> ((sr
        & !0x02u32 & 0x10u32 != 0) == (sr & 0x10u32 != 0))) && (sr | 0x10u32) & !0x02u32
        & !0x12u32 == sr & !0x12u32 && sr & !0x02u32 & !0x12u32 == sr & !0x12u32 && (sr | 0x01u32
        | 0x02u32) & 0x03u32 == 0x03u32 && (sr | 0x01u32 | 0x02u32) & !0x03u32 == sr & !0x03u32
        && sr & !0x10u32 & 0x10u32 == 0 && sr & !0x10u32 & !0x10u32 == sr & !0x10u32)
        by (bit_vector);
}

} // verus!
