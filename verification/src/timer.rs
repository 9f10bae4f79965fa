//! General timer: prescaler, auto-reload period, trigger-output source
//! selection and counter enable.

use vstd::prelude::*;

use crate::regbank::RegisterBank;

verus! {

/// Base address of the advanced timer.
pub const TIMER0: u32 = 0x4000_0000 + 0x0001_2C00;

/// Base address of the first general timer.
pub const TIMER1: u32 = 0x4000_0000 + 0x0000_0000;

/// Base address of the second general timer.
pub const TIMER2: u32 = 0x4000_0000 + 0x0000_0400;

/// Base address of the third general timer.
pub const TIMER3: u32 = 0x4000_0000 + 0x0000_0800;

/// Base address of the fourth general timer.
pub const TIMER4: u32 = 0x4000_0000 + 0x0000_0C00;

/// Base address of the fifth general timer.
pub const TIMER5: u32 = 0x4000_0000 + 0x0000_1000;

/// Base address of the basic timer.
pub const TIMER6: u32 = 0x4000_0000 + 0x0000_1400;

/// Master-mode-control field of the second control register: bits 4
/// through 6.
pub const TIMER_CTL1_MMC: u32 = 0x70;

/// Trigger output follows the counter reset event.
pub const TIMER_TRI_OUT_SRC_RESET: u32 = 0x00;

/// Trigger output follows the counter enable event.
pub const TIMER_TRI_OUT_SRC_ENABLE: u32 = 0x10;

/// Trigger output follows the update event.
pub const TIMER_TRI_OUT_SRC_UPDATE: u32 = 0x20;

/// Trigger output follows the channel-0 capture or compare pulse.
pub const TIMER_TRI_OUT_SRC_CH0: u32 = 0x30;

/// Trigger output follows the channel-0 compare-match level.
pub const TIMER_TRI_OUT_SRC_O0CPRE: u32 = 0x40;

/// Trigger output follows the channel-1 compare-match level.
pub const TIMER_TRI_OUT_SRC_O1CPRE: u32 = 0x50;

/// Trigger output follows the channel-2 compare-match level.
pub const TIMER_TRI_OUT_SRC_O2CPRE: u32 = 0x60;

/// Trigger output follows the channel-3 compare-match level.
pub const TIMER_TRI_OUT_SRC_O3CPRE: u32 = 0x70;

/// Software-update-generation bit of the event-generation register.
pub const TIMER_SWEVG_UPG: u32 = 0x1;

/// Counter-enable bit of the first control register.
pub const TIMER_CTL0_CEN: u32 = 0x1;

/// Prescaler reload policy: strobe a software update event so the new
/// divisor takes effect immediately.
pub const TIMER_PSC_RELOAD_NOW: u32 = 0x1;

/// Prescaler reload policy: let the new divisor take effect at the next
/// natural period boundary.
pub const TIMER_PSC_RELOAD_UPDATE: u32 = 0x0000_0000;

/// A base address naming one of the timers.
pub open spec fn valid_timer_base(timerx: u32) -> bool {
    ||| timerx == TIMER0
    ||| timerx == TIMER1
    ||| timerx == TIMER2
    ||| timerx == TIMER3
    ||| timerx == TIMER4
    ||| timerx == TIMER5
    ||| timerx == TIMER6
}

/// Address of the first control register of the timer at `timerx`.
pub open spec fn spec_timer_ctl0(timerx: u32) -> u32 {
    timerx
}

/// Address of the second control register of the timer at `timerx`.
pub open spec fn spec_timer_ctl1(timerx: u32) -> u32 {
    (timerx + 0x04) as u32
}

/// Address of the event-generation register of the timer at `timerx`.
pub open spec fn spec_timer_swevg(timerx: u32) -> u32 {
    (timerx + 0x14) as u32
}

/// Address of the prescaler register of the timer at `timerx`.
pub open spec fn spec_timer_psc(timerx: u32) -> u32 {
    (timerx + 0x28) as u32
}

/// Address of the counter-auto-reload register of the timer at `timerx`.
pub open spec fn spec_timer_car(timerx: u32) -> u32 {
    (timerx + 0x2c) as u32
}

/// Write the prescaler divisor, and when `pscreload` asks for immediate
/// effect, additionally strobe the software-update-generation bit.
pub fn timer_prescaler_config(
    bank: &mut RegisterBank,
    timer_periph: u32,
    prescaler: u16,
    pscreload: u32,
)
    requires
        valid_timer_base(timer_periph),
    ensures
        forall|a: u32|
            #[trigger] final(bank).reg(a) == if a == spec_timer_psc(timer_periph) {
                prescaler as u32
            } else if a == spec_timer_swevg(timer_periph) && pscreload == TIMER_PSC_RELOAD_NOW {
                old(bank).reg(spec_timer_swevg(timer_periph)) | TIMER_SWEVG_UPG
            } else {
                old(bank).reg(a)
            },
{
    bank.write32(timer_periph + 0x28, prescaler as u32);
    if pscreload == TIMER_PSC_RELOAD_NOW {
        bank.set_bits(timer_periph + 0x14, TIMER_SWEVG_UPG);
    }
}

/// Write the auto-reload (period) value.
pub fn timer_autoreload_value_config(bank: &mut RegisterBank, timer_periph: u32, autoreload: u16)
    requires
        valid_timer_base(timer_periph),
    ensures
        forall|a: u32|
            #[trigger] final(bank).reg(a) == if a == spec_timer_car(timer_periph) {
                autoreload as u32
            } else {
                old(bank).reg(a)
            },
{
    bank.write32(timer_periph + 0x2c, autoreload as u32);
}

/// Select which internal event drives the timer's trigger output:
/// clear the master-mode-control field, then set the new source code.
pub fn timer_master_output_trigger_source_select(
    bank: &mut RegisterBank,
    timer_periph: u32,
    outrigger: u32,
)
    requires
        valid_timer_base(timer_periph),
        outrigger & !TIMER_CTL1_MMC == 0,
    ensures
        forall|a: u32|
            #[trigger] final(bank).reg(a) == if a == spec_timer_ctl1(timer_periph) {
                (old(bank).reg(spec_timer_ctl1(timer_periph)) & !TIMER_CTL1_MMC) | outrigger
            } else {
                old(bank).reg(a)
            },
{
    bank.clear_bits(timer_periph + 0x04, TIMER_CTL1_MMC);
    bank.set_bits(timer_periph + 0x04, outrigger);
}

/// Set the counter-enable bit: the timer starts counting.
pub fn timer_enable(bank: &mut RegisterBank, timer_periph: u32)
    requires
        valid_timer_base(timer_periph),
    ensures
        forall|a: u32|
            #[trigger] final(bank).reg(a) == if a == spec_timer_ctl0(timer_periph) {
                old(bank).reg(spec_timer_ctl0(timer_periph)) | TIMER_CTL0_CEN
            } else {
                old(bank).reg(a)
            },
{
    bank.set_bits(timer_periph, TIMER_CTL0_CEN);
}

} // verus!
