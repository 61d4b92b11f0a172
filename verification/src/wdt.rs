use vstd::prelude::*;

verus! {

/// Control register.
pub const WDT_CTRL: u64 = 0x00;
/// Reload value register: bits 0 to 15 hold the countdown length in clock
/// ticks; the upper bits read as zero and ignore writes.
pub const WDT_LOAD: u64 = 0x04;
/// Current countdown value (read-only).
pub const WDT_VAL: u64 = 0x08;
/// Status register: bit 0 records that the countdown expired.
pub const WDT_SR: u64 = 0x0c;
/// Key register (write-only).
pub const WDT_KEY: u64 = 0x10;

/// Key that restarts the countdown.
pub const WDT_FEED: u32 = 0x5A5A_5A5A;
/// Key that locks the registers.
pub const WDT_LOCK: u32 = 0x1ACC_E551;

/// Control bit: the watchdog counts down.
pub const CTRL_EN: u32 = 0x1;
/// Control bit: expiry raises the interrupt.
pub const CTRL_IRQ_EN: u32 = 0x2;
/// Control bit: expiry resets the machine.
pub const CTRL_RESET_EN: u32 = 0x4;
/// Control bit: the registers are locked; only the key register is writable.
pub const CTRL_LOCK: u32 = 0x8;
/// Status bit: the countdown expired.
pub const SR_EXPIRED: u32 = 0x1;
/// The bits of the reload value register.
pub const LOAD_MASK: u32 = 0xffff;

/// What the watchdog asks the machine to do.
#[derive(PartialEq, Eq, Structural, Debug, Clone, Copy)]
pub enum WdtEffect {
    /// Drive the interrupt line to this level.
    SetIrq(bool),
    /// (Re)arm the countdown timer to fire at this clock time.
    ArmTimer(u64),
    /// Stop the countdown timer.
    CancelTimer,
    /// Carry out the configured watchdog action (reset the machine).
    Expire,
}

/// Abstract register file of the watchdog.
pub struct WdtView {
    pub ctrl: u32,
    pub load: u32,
    pub sr: u32,
    /// Clock time at which the countdown last started.
    pub feed_time: u64,
}

/// The watchdog timer.
pub struct WdtState {
    ctrl: u32,
    load: u32,
    sr: u32,
    feed_timer: u64,
}

impl View for WdtState {
    type V = WdtView;

    closed spec fn view(&self) -> WdtView {
        WdtView { ctrl: self.ctrl, load: self.load, sr: self.sr, feed_time: self.feed_timer }
    }
}

/// The register file after reset: disabled, reload value 0xffff.
pub open spec fn wdt_reset() -> WdtView {
    WdtView { ctrl: 0, load: 0xffff, sr: 0, feed_time: 0 }
}

/// Whether the registers are locked.
pub open spec fn wdt_locked(s: WdtView) -> bool {
    s.ctrl & CTRL_LOCK != 0
}

/// The interrupt is high exactly when the watchdog is enabled, its interrupt
/// is enabled and the expiry flag is set.
pub open spec fn wdt_irq_level(s: WdtView) -> bool {
    s.ctrl & CTRL_EN != 0 && s.ctrl & CTRL_IRQ_EN != 0 && s.sr & SR_EXPIRED != 0
}

/// The interrupt effect for the register file `s`.
pub open spec fn wdt_irq(s: WdtView) -> WdtEffect {
    WdtEffect::SetIrq(wdt_irq_level(s))
}

/// The status register after `val` is written to it: only the expiry flag
/// is kept, and writing one to it clears it.
pub open spec fn wdt_sr_after_write(sr: u32, val: u32) -> u32 {
    (sr & SR_EXPIRED) & !(val & SR_EXPIRED)
}

/// Ticks left at clock time `now`: the reload value minus the ticks since
/// the countdown started, never below zero; the reload value while disabled.
pub open spec fn wdt_remaining(s: WdtView, now: u64) -> u64 {
    if s.ctrl & CTRL_EN != 0 {
        let elapsed: u64 = if now >= s.feed_time {
            (now - s.feed_time) as u64
        } else {
            0
        };
        if elapsed >= s.load {
            0
        } else {
            (s.load - elapsed) as u64
        }
    } else {
        s.load as u64
    }
}

/// The value a guest read at `offset` returns at clock time `now`.
pub open spec fn wdt_read_spec(s: WdtView, offset: u64, now: u64) -> u64 {
    match offset {
        0x00 => s.ctrl as u64,
        0x04 => s.load as u64,
        0x08 => wdt_remaining(s, now),
        0x0c => s.sr as u64,
        _ => 0,
    }
}

/// Whether a guest write of `data` at `offset` starts the countdown.
pub open spec fn wdt_write_arms(s: WdtView, offset: u64, data: u64) -> bool {
    ||| offset == WDT_KEY && data as u32 == WDT_FEED
    ||| !wdt_locked(s) && offset == WDT_CTRL && s.ctrl & CTRL_EN == 0 && (data as u32) & CTRL_EN
        != 0
}

/// The countdown starting at clock time `now`.
pub open spec fn wdt_start(s: WdtView, now: u64) -> (WdtView, WdtEffect) {
    (WdtView { feed_time: now, ..s }, WdtEffect::ArmTimer((now + s.load) as u64))
}

/// A guest write of `data` at `offset` at clock time `now`: the new register
/// file and the effects. While locked only the key register is writable.
pub open spec fn wdt_write_spec(s: WdtView, offset: u64, data: u64, now: u64) -> (
    WdtView,
    Seq<WdtEffect>,
) {
    let v = data as u32;
    if wdt_locked(s) && offset != WDT_KEY {
        (s, seq![])
    } else {
        match offset {
            0x00 => {
                let s1 = WdtView { ctrl: v, ..s };
                if s.ctrl & CTRL_EN == 0 && v & CTRL_EN != 0 {
                    let (s2, arm) = wdt_start(s1, now);
                    (s2, seq![wdt_irq(s1), arm])
                } else if s.ctrl & CTRL_EN != 0 && v & CTRL_EN == 0 {
                    let s2 = WdtView { sr: wdt_sr_after_write(s1.sr, 1), ..s1 };
                    (s2, seq![wdt_irq(s1), WdtEffect::CancelTimer, wdt_irq(s2)])
                } else {
                    (s1, seq![wdt_irq(s1)])
                }
            },
            0x04 => (WdtView { load: v & LOAD_MASK, ..s }, seq![]),
            0x0c => {
                let s1 = WdtView { sr: wdt_sr_after_write(s.sr, v), ..s };
                (s1, seq![wdt_irq(s1)])
            },
            0x10 => {
                if v == WDT_FEED {
                    let (s1, arm) = wdt_start(s, now);
                    (s1, seq![arm])
                } else if v == WDT_LOCK {
                    (WdtView { ctrl: s.ctrl | CTRL_LOCK, ..s }, seq![])
                } else {
                    (s, seq![])
                }
            },
            _ => (s, seq![]),
        }
    }
}

/// The countdown timer fired: the expiry flag is set; then the machine is
/// reset if resets are enabled, else the interrupt is updated if enabled.
pub open spec fn wdt_timer_spec(s: WdtView) -> (WdtView, Seq<WdtEffect>) {
    let s1 = WdtView { sr: s.sr | SR_EXPIRED, ..s };
    if s.ctrl & CTRL_RESET_EN != 0 {
        (s1, seq![WdtEffect::Expire])
    } else if s.ctrl & CTRL_IRQ_EN != 0 {
        (s1, seq![wdt_irq(s1)])
    } else {
        (s1, seq![])
    }
}


/// The status register only ever holds the expiry flag and the reload value
/// only its 16 bits: starting from such a register file (as the reset one
/// is), every register write and every timer expiry keeps it so.
pub proof fn lemma_wdt_register_widths(s: WdtView, offset: u64, data: u64, now: u64)
    requires
        s.sr <= 1,
        s.load <= 0xffff,
    ensures
        wdt_write_spec(s, offset, data, now).0.sr <= 1,
        wdt_write_spec(s, offset, data, now).0.load <= 0xffff,
        wdt_timer_spec(s).0.sr <= 1,
        wdt_timer_spec(s).0.load <= 0xffff,
        wdt_reset().sr == 0,
        wdt_reset().load <= 0xffff,
{
    let (sr, v) = (s.sr, data as u32);
    assert((sr & 0x1u32) & !(v & 0x1u32) <= 1 && (sr & 0x1u32) & !(1u32 & 0x1u32) <= 1 && (sr
        <= 1 ==> (sr | 0x1u32) <= 1) && v & 0xffffu32 <= 0xffff) by (bit_vector);
}

/// Once locked, the watchdog stays locked: no write changes the control
/// register or the reload value and no expiry clears the lock bit, and a
/// write to any register but the key register changes nothing and has no
/// effect.
pub proof fn lemma_wdt_lock_sticky(s: WdtView, offset: u64, data: u64, now: u64)
    requires
        wdt_locked(s),
    ensures
        wdt_locked(wdt_write_spec(s, offset, data, now).0),
        wdt_locked(wdt_timer_spec(s).0),
        offset != WDT_KEY ==> wdt_write_spec(s, offset, data, now) == (s, Seq::<WdtEffect>::empty()),
        wdt_write_spec(s, offset, data, now).0.ctrl == s.ctrl,
        wdt_write_spec(s, offset, data, now).0.load == s.load,
        wdt_write_spec(s, offset, data, now).0.sr == s.sr,
{
    let c = s.ctrl;
    assert(c & 0x8u32 != 0 ==> (c | 0x8u32) == c) by (bit_vector);
}

/// Writing the lock key locks the registers.
pub proof fn lemma_wdt_lock_key(s: WdtView, now: u64)
    ensures
        wdt_locked(wdt_write_spec(s, WDT_KEY, WDT_LOCK as u64, now).0),
        wdt_write_spec(s, WDT_KEY, WDT_LOCK as u64, now).1 == Seq::<WdtEffect>::empty(),
{
    let c = s.ctrl;
    assert((c | 0x8u32) & 0x8u32 != 0) by (bit_vector);
    assert((WDT_LOCK as u64) as u32 == WDT_LOCK);
}

/// Feeding the watchdog at time `t` restarts the countdown: the timer is
/// armed for `t` plus the reload value, and while enabled the counter read
/// at any later time `t2` shows the reload value minus the ticks since `t`,
/// never below zero.
pub proof fn lemma_wdt_feed_countdown(s: WdtView, t: u64, t2: u64)
    requires
        t <= t2,
        t + s.load <= u64::MAX,
    ensures
        wdt_write_spec(s, WDT_KEY, WDT_FEED as u64, t).1 == seq![
            WdtEffect::ArmTimer((t + s.load) as u64),
        ],
        wdt_write_spec(s, WDT_KEY, WDT_FEED as u64, t).0 == (WdtView { feed_time: t, ..s }),
        s.ctrl & CTRL_EN != 0 ==> wdt_read_spec(
            wdt_write_spec(s, WDT_KEY, WDT_FEED as u64, t).0,
            WDT_VAL,
            t2,
        ) == (if t2 - t >= s.load {
            0
        } else {
            s.load - (t2 - t)
        }),
{
    assert((WDT_FEED as u64) as u32 == WDT_FEED);
}

/// The reload value register keeps only bits 0 to 15 of a write to an
/// unlocked watchdog, reads back as that value, and changes nothing else.
pub proof fn lemma_wdt_reload_16_bits(s: WdtView, data: u64, now: u64)
    requires
        !wdt_locked(s),
    ensures
        wdt_write_spec(s, WDT_LOAD, data, now).0 == (WdtView {
            load: (data as u32) & LOAD_MASK,
            ..s
        }),
        wdt_write_spec(s, WDT_LOAD, data, now).1 == Seq::<WdtEffect>::empty(),
        wdt_read_spec(wdt_write_spec(s, WDT_LOAD, data, now).0, WDT_LOAD, now) == ((data as u32)
            & LOAD_MASK) as u64,
{
}

/// While disabled, the counter reads as the reload value.
pub proof fn lemma_wdt_disabled_counter(s: WdtView, now: u64)
    requires
        s.ctrl & CTRL_EN == 0,
    ensures
        wdt_read_spec(s, WDT_VAL, now) == s.load as u64,
{
}

/// Enabling an unlocked, disabled watchdog starts the countdown at the time
/// of the write; disabling an enabled one stops the timer, clears the expiry
/// flag and lowers the interrupt.
pub proof fn lemma_wdt_enable_disable(s: WdtView, data: u64, now: u64)
    requires
        !wdt_locked(s),
    ensures
        s.ctrl & CTRL_EN == 0 && (data as u32) & CTRL_EN != 0 ==> {
            let (s2, fx) = wdt_write_spec(s, WDT_CTRL, data, now);
            &&& s2.feed_time == now
            &&& s2.ctrl == data as u32
            &&& fx.len() == 2
            &&& fx[1] == WdtEffect::ArmTimer((now + s.load) as u64)
        },
        s.ctrl & CTRL_EN != 0 && (data as u32) & CTRL_EN == 0 ==> {
            let (s2, fx) = wdt_write_spec(s, WDT_CTRL, data, now);
            &&& s2.ctrl == data as u32
            &&& s2.sr & SR_EXPIRED == 0
            &&& fx.len() == 3
            &&& fx[1] == WdtEffect::CancelTimer
            &&& fx[2] == WdtEffect::SetIrq(false)
        },
{
    let sr = s.sr;
    assert((sr & 0x1u32) & !(1u32 & 0x1u32) & 0x1u32 == 0) by (bit_vector);
}

/// When the countdown expires the expiry flag is set; the machine is reset
/// if resets are enabled, otherwise an enabled interrupt is raised exactly
/// when the watchdog is enabled.
pub proof fn lemma_wdt_expiry(s: WdtView)
    ensures
        wdt_timer_spec(s).0.sr & SR_EXPIRED != 0,
        s.ctrl & CTRL_RESET_EN != 0 ==> wdt_timer_spec(s).1 == seq![WdtEffect::Expire],
        s.ctrl & CTRL_RESET_EN == 0 && s.ctrl & CTRL_IRQ_EN != 0 ==> wdt_timer_spec(s).1 == seq![
            WdtEffect::SetIrq(s.ctrl & CTRL_EN != 0),
        ],
        s.ctrl & CTRL_RESET_EN == 0 && s.ctrl & CTRL_IRQ_EN == 0 ==> wdt_timer_spec(s).1
            == Seq::<WdtEffect>::empty(),
{
    let sr = s.sr;
    assert((sr | 0x1u32) & 0x1u32 != 0) by (bit_vector);
}

/// What each register access does, stated per register. Reads: CTRL (0x00),
/// LOAD (0x04) and SR (0x0c) return their register, KEY (0x10) and unknown
/// offsets read zero, and VAL (0x08) reads the reload value minus the ticks
/// since the countdown started, clamped at zero, while enabled (bit 0), and
/// the reload value otherwise or before the start time. The interrupt is
/// high exactly when enable (bit 0), interrupt enable (bit 1) and the expiry
/// flag are all set. The status-register rule keeps only the expiry flag,
/// cleared by writing a one to it.
pub proof fn lemma_wdt_reads(s: WdtView, offset: u64, now: u64, val: u32)
    ensures
        wdt_read_spec(s, 0x00, now) == s.ctrl as u64,
        wdt_read_spec(s, 0x04, now) == s.load as u64,
        wdt_read_spec(s, 0x0c, now) == s.sr as u64,
        wdt_read_spec(s, 0x10, now) == 0,
        offset != 0x00 && offset != 0x04 && offset != 0x08 && offset != 0x0c ==> wdt_read_spec(
            s,
            offset,
            now,
        ) == 0,
        s.ctrl & 0x1 == 0 ==> wdt_read_spec(s, 0x08, now) == s.load as u64,
        s.ctrl & 0x1 != 0 && now < s.feed_time ==> wdt_read_spec(s, 0x08, now) == s.load as u64,
        s.ctrl & 0x1 != 0 && now >= s.feed_time && now - s.feed_time < s.load ==> wdt_read_spec(
            s,
            0x08,
            now,
        ) == s.load - (now - s.feed_time),
        s.ctrl & 0x1 != 0 && now >= s.feed_time && now - s.feed_time >= s.load ==> wdt_read_spec(
            s,
            0x08,
            now,
        ) == 0,
        wdt_read_spec(s, 0x08, now) <= s.load,
        wdt_irq_level(s) == (s.ctrl & 0x1 != 0 && s.ctrl & 0x2 != 0 && s.sr & 0x1 != 0),
        wdt_irq(s) == WdtEffect::SetIrq(s.ctrl & 0x1 != 0 && s.ctrl & 0x2 != 0 && s.sr & 0x1 != 0),
        (wdt_sr_after_write(s.sr, val) & 0x1 != 0) == (s.sr & 0x1 != 0 && val & 0x1 == 0),
        wdt_sr_after_write(s.sr, val) & !0x1u32 == 0,
{
    let (sr, v) = (s.sr, val);
    assert(((sr & 0x1u32) & !(v & 0x1u32) & 0x1u32 != 0) == (sr & 0x1u32 != 0 && v & 0x1u32 == 0)
        && (sr & 0x1u32) & !(v & 0x1u32) & !0x1u32 == 0) by (bit_vector);
}

/// A write to the unlocked control register always stores the written low
/// word, keeps the reload value, and first reports the interrupt level for
/// the new control value. Setting bit 0 from clear starts the countdown at
/// the write's time; clearing it from set cancels the timer, clears the
/// expiry flag and lowers the interrupt; otherwise nothing else changes.
pub proof fn lemma_wdt_control_write(s: WdtView, data: u64, now: u64)
    requires
        s.ctrl & 0x8 == 0,
    ensures
        ({
            let v = data as u32;
            let (s2, fx) = wdt_write_spec(s, 0x00, data, now);
            let l1 = v & 0x1 != 0 && v & 0x2 != 0 && s.sr & 0x1 != 0;
            &&& s2.ctrl == v
            &&& s2.load == s.load
            &&& fx.len() >= 1
            &&& fx[0] == WdtEffect::SetIrq(l1)
            &&& s.ctrl & 0x1 == 0 && v & 0x1 != 0 ==> s2 == (WdtView { ctrl: v, feed_time: now, ..s })
                && fx == seq![WdtEffect::SetIrq(l1), WdtEffect::ArmTimer((now + s.load) as u64)]
            &&& s.ctrl & 0x1 != 0 && v & 0x1 == 0 ==> s2.feed_time == s.feed_time && s2.sr & 0x1
                == 0 && fx == seq![
                WdtEffect::SetIrq(l1),
                WdtEffect::CancelTimer,
                WdtEffect::SetIrq(false),
            ]
            &&& (s.ctrl & 0x1 == 0) == (v & 0x1 == 0) ==> s2 == (WdtView { ctrl: v, ..s }) && fx
                == seq![WdtEffect::SetIrq(l1)]
        }),
{
    let sr = s.sr;
    assert((sr & 0x1u32) & !(1u32 & 0x1u32) & 0x1u32 == 0) by (bit_vector);
}

/// Writes to the unlocked status register apply the write-one-to-clear rule
/// and report the interrupt level; writes to the key register work whether
/// locked or not: the feed key restarts the countdown at the write's time,
/// the lock key sets the lock bit (bit 3) and keeps the other control bits,
/// any other key changes nothing.
pub proof fn lemma_wdt_status_and_key_writes(s: WdtView, data: u64, now: u64)
    ensures
        s.ctrl & 0x8 == 0 ==> ({
            let sr2 = wdt_sr_after_write(s.sr, data as u32);
            wdt_write_spec(s, 0x0c, data, now) == (
                WdtView { sr: sr2, ..s },
                seq![WdtEffect::SetIrq(s.ctrl & 0x1 != 0 && s.ctrl & 0x2 != 0 && sr2 & 0x1 != 0)],
            )
        }),
        data as u32 == 0x5A5A_5A5A ==> wdt_write_spec(s, 0x10, data, now) == (
            WdtView { feed_time: now, ..s },
            seq![WdtEffect::ArmTimer((now + s.load) as u64)],
        ),
        data as u32 == 0x1ACC_E551 ==> ({
            let (s2, fx) = wdt_write_spec(s, 0x10, data, now);
            &&& s2.ctrl & 0x8 != 0
            &&& s2.ctrl & !0x8u32 == s.ctrl & !0x8u32
            &&& s2 == (WdtView { ctrl: s2.ctrl, ..s })
            &&& fx == Seq::<WdtEffect>::empty()
        }),
        data as u32 != 0x5A5A_5A5A && data as u32 != 0x1ACC_E551 ==> wdt_write_spec(
            s,
            0x10,
            data,
            now,
        ) == (s, Seq::<WdtEffect>::empty()),
        wdt_start(s, now) == (WdtView { feed_time: now, ..s }, WdtEffect::ArmTimer(
            (now + s.load) as u64,
        )),
{
    let c = s.ctrl;
    assert((c | 0x8u32) & 0x8u32 != 0 && (c | 0x8u32) & !0x8u32 == c & !0x8u32) by (bit_vector);
}

/// Expiry only sets the expiry flag: the control register, the reload value,
/// the countdown start and every other status bit stay as they were, so an
/// enabled watchdog whose countdown ran out still reads zero afterwards.
/// It resets the machine when bit 2 is set; otherwise with bit 1 set it
/// reports the interrupt, high exactly when bit 0 is set.
pub proof fn lemma_wdt_expiry_only_flags(s: WdtView, now: u64)
    ensures
        ({
            let (s2, fx) = wdt_timer_spec(s);
            &&& s2.ctrl == s.ctrl && s2.load == s.load && s2.feed_time == s.feed_time
            &&& s2.sr & 0x1 != 0
            &&& s2.sr & !0x1u32 == s.sr & !0x1u32
            &&& s.ctrl & 0x4 != 0 ==> fx == seq![WdtEffect::Expire]
            &&& s.ctrl & 0x4 == 0 && s.ctrl & 0x2 != 0 ==> fx == seq![
                WdtEffect::SetIrq(s.ctrl & 0x1 != 0),
            ]
            &&& s.ctrl & 0x4 == 0 && s.ctrl & 0x2 == 0 ==> fx == Seq::<WdtEffect>::empty()
            &&& s.ctrl & 0x1 != 0 && now >= s.feed_time && now - s.feed_time >= s.load
                ==> wdt_read_spec(s2, 0x08, now) == 0
        }),
{
    let sr = s.sr;
    assert((sr | 0x1u32) & 0x1u32 != 0 && (sr | 0x1u32) & !0x1u32 == sr & !0x1u32) by (bit_vector);
}

/// After reset the watchdog is disabled and unlocked, the reload value is
/// 0xffff, the status is clear and the counter reads 0xffff at any time.
pub proof fn lemma_wdt_reset_values(now: u64)
    ensures
        wdt_read_spec(wdt_reset(), 0x00, now) == 0,
        wdt_read_spec(wdt_reset(), 0x04, now) == 0xffff,
        wdt_read_spec(wdt_reset(), 0x08, now) == 0xffff,
        wdt_read_spec(wdt_reset(), 0x0c, now) == 0,
        wdt_reset().feed_time == 0,
{
    assert(0u32 & 0x1u32 == 0) by (bit_vector);
}

/// A write starts the countdown exactly when it is the feed key, or when it
/// sets bit 0 of an unlocked, disabled watchdog's control register: those
/// writes, and only those, arm the timer for the write's time plus the
/// reload value and move the countdown start to the write's time.
pub proof fn lemma_wdt_arming_rule(s: WdtView, offset: u64, data: u64, now: u64)
    ensures
        wdt_write_arms(s, offset, data) == ((offset == 0x10 && data as u32 == 0x5A5A_5A5A) || (
        s.ctrl & 0x8 == 0 && offset == 0x00 && s.ctrl & 0x1 == 0 && (data as u32) & 0x1 != 0)),
        wdt_write_arms(s, offset, data) ==> ({
            let (s2, fx) = wdt_write_spec(s, offset, data, now);
            &&& s2.feed_time == now
            &&& fx.len() >= 1
            &&& fx.last() == WdtEffect::ArmTimer((now + s.load) as u64)
        }),
        !wdt_write_arms(s, offset, data) ==> ({
            let (s2, fx) = wdt_write_spec(s, offset, data, now);
            &&& s2.feed_time == s.feed_time
            &&& forall|i: int| 0 <= i < fx.len() ==> !(fx[i] is ArmTimer)
        }),
{
}

/// The lock is bit 3 of the control register: while it is set, a write to
/// any offset but the key register changes nothing and has no effect, and
/// no write and no expiry changes the control register.
pub proof fn lemma_wdt_lock_bit(s: WdtView, offset: u64, data: u64, now: u64)
    ensures
        wdt_locked(s) == (s.ctrl & 0x8 != 0),
        s.ctrl & 0x8 != 0 && offset != 0x10 ==> wdt_write_spec(s, offset, data, now) == (
            s,
            Seq::<WdtEffect>::empty(),
        ),
        s.ctrl & 0x8 != 0 ==> wdt_write_spec(s, offset, data, now).0.ctrl == s.ctrl,
        wdt_timer_spec(s).0.ctrl == s.ctrl,
{
    if s.ctrl & 0x8 != 0 {
        lemma_wdt_lock_sticky(s, offset, data, now);
    }
}

impl WdtState {
    /// A watchdog in its reset state.
    pub fn init() -> (s: WdtState)
        ensures
            s@ == wdt_reset(),
    {
        WdtState { ctrl: 0, load: 0xffff, sr: 0, feed_timer: 0 }
    }

    pub fn ctrl_val(&self) -> (r: u32)
        ensures
            r == self@.ctrl,
    {
        self.ctrl
    }

    pub fn sr_val(&self) -> (r: u32)
        ensures
            r == self@.sr,
    {
        self.sr
    }

    pub fn load_val(&self) -> (r: u32)
        ensures
            r == self@.load,
    {
        self.load
    }

    pub fn ctrl_set(&mut self, val: u32)
        ensures
            final(self)@ == (WdtView { ctrl: val, ..old(self)@ }),
    {
        self.ctrl = val;
    }

    /// A write of `val` to the status register (write one to clear).
    pub fn sr_set(&mut self, val: u32)
        ensures
            final(self)@ == (WdtView { sr: wdt_sr_after_write(old(self)@.sr, val), ..old(self)@ }),
    {
        let old = self.sr_val() & SR_EXPIRED;
        let new = old & !(val & SR_EXPIRED);
        self.sr = new;
    }

    /// A write of `val` to the reload value register: only bits 0 to 15 are
    /// kept.
    pub fn load_set(&mut self, val: u32)
        ensures
            final(self)@ == (WdtView { load: val & LOAD_MASK, ..old(self)@ }),
    {
        self.load = val & LOAD_MASK;
    }

    pub fn feed_timer_set(&mut self, val: u64)
        ensures
            final(self)@ == (WdtView { feed_time: val, ..old(self)@ }),
    {
        self.feed_timer = val;
    }

    /// Record that the countdown expired.
    pub fn sr_set_out(&mut self)
        ensures
            final(self)@ == (WdtView { sr: old(self)@.sr | SR_EXPIRED, ..old(self)@ }),
    {
        self.sr = self.sr | SR_EXPIRED;
    }

    /// The countdown timer fired.
    pub fn timer_handler(&mut self) -> (r: Vec<WdtEffect>)
        ensures
            final(self)@ == wdt_timer_spec(old(self)@).0,
            r@ == wdt_timer_spec(old(self)@).1,
    {
        self.sr_set_out();
        let irq_en = self.ctrl_val() & CTRL_IRQ_EN != 0;
        let reset_en = self.ctrl_val() & CTRL_RESET_EN != 0;
        let mut fx: Vec<WdtEffect> = Vec::new();
        if reset_en {
            fx.push(WdtEffect::Expire);
        } else if irq_en {
            fx.push(self.update_irq());
        }
        fx
    }

    /// The interrupt level the current registers call for.
    pub fn update_irq(&self) -> (r: WdtEffect)
        ensures
            r == wdt_irq(self@),
    {
        let en = self.ctrl_val() & CTRL_EN != 0;
        let irq_en = self.ctrl_val() & CTRL_IRQ_EN != 0;
        let sr = self.sr_val();
        if en && irq_en && (sr & SR_EXPIRED) != 0 {
            WdtEffect::SetIrq(true)
        } else {
            WdtEffect::SetIrq(false)
        }
    }

    /// Whether a guest write of `data` at `offset` would start the countdown
    /// (and so needs the clock time plus the reload value to fit in 64 bits).
    pub fn write_arms(&self, offset: u64, data: u64) -> (r: bool)
        ensures
            r == wdt_write_arms(self@, offset, data),
    {
        let key = data as u32;
        (offset == WDT_KEY && key == WDT_FEED) || ((self.ctrl_val() & CTRL_LOCK) == 0 && offset
            == WDT_CTRL && (self.ctrl_val() & CTRL_EN) == 0 && (key & CTRL_EN) != 0)
    }

    /// Start the countdown at clock time `now`.
    pub fn start_timer(&mut self, now: u64) -> (r: WdtEffect)
        requires
            now + old(self)@.load <= u64::MAX,
        ensures
            final(self)@ == wdt_start(old(self)@, now).0,
            r == wdt_start(old(self)@, now).1,
    {
        self.feed_timer_set(now);
        WdtEffect::ArmTimer(now + self.load_val() as u64)
    }

    /// A guest read of `offset` at clock time `now`.
    pub fn read(&self, offset: u64, _size: u32, now: u64) -> (r: u64)
        ensures
            r == wdt_read_spec(self@, offset, now),
    {
        match offset {
            0x00 => self.ctrl_val() as u64,
            0x04 => self.load_val() as u64,
            0x08 => {
                let en = self.ctrl_val() & CTRL_EN != 0;
                if en {
                    let elapsed = now.saturating_sub(self.feed_timer);
                    let load = self.load_val() as u64;
                    if elapsed >= load {
                        0
                    } else {
                        load - elapsed
                    }
                } else {
                    self.load_val() as u64
                }
            },
            0x0c => self.sr_val() as u64,
            0x10 => 0,
            _ => 0,
        }
    }

    /// A guest write of `data` at `offset` at clock time `now`: the effects,
    /// in order.
    pub fn write(&mut self, offset: u64, data: u64, _size: u32, now: u64) -> (r: Vec<WdtEffect>)
        requires
            wdt_write_arms(old(self)@, offset, data) ==> now + old(self)@.load <= u64::MAX,
        ensures
            final(self)@ == wdt_write_spec(old(self)@, offset, data, now).0,
            r@ == wdt_write_spec(old(self)@, offset, data, now).1,
    {
        let mut fx: Vec<WdtEffect> = Vec::new();
        let locked = self.ctrl_val() & CTRL_LOCK != 0;
        if locked && offset != WDT_KEY {
            return fx;
        }
        match offset {
            0x00 => {
                let old_ctrl = self.ctrl_val();
                self.ctrl_set(data as u32);
                fx.push(self.update_irq());
                let old_en = old_ctrl & CTRL_EN != 0;
                let new_en = data as u32 & CTRL_EN != 0;
                if !old_en && new_en {
                    fx.push(self.start_timer(now));
                } else if old_en && !new_en {
                    fx.push(WdtEffect::CancelTimer);
                    self.sr_set(1);
                    fx.push(self.update_irq());
                }
            },
            0x04 => self.load_set(data as u32),
            0x0c => {
                self.sr_set(data as u32);
                fx.push(self.update_irq());
            },
            0x10 => {
                let key = data as u32;
                if key == WDT_FEED {
                    fx.push(self.start_timer(now));
                } else if key == WDT_LOCK {
                    let ctrl = self.ctrl_val();
                    self.ctrl_set(ctrl | CTRL_LOCK);
                }
            },
            _ => {},
        }
        fx
    }
}

} // verus!
