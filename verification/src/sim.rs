//! Simulated hardware responses for a test bank.
//!
//! The register bank stores exactly what the drivers write; it does not
//! act on it. These steps model, one event at a time, what the silicon
//! does on its own between driver calls: the converter moving a held
//! sample to its output on a software trigger, and the transfer
//! controller counting an element down (or reloading in circular mode).
//! Scenario tests drive them to observe end-to-end behaviour.

use vstd::prelude::*;

use crate::dac::{
    spec_dac_den, spec_dac_do_reg, spec_dac_dten, spec_dac_swtr, valid_dac_periph, DAC0, DAC0_DO,
    DAC0_R12DH, DAC1, DAC1_DO, DAC1_R12DH, DAC_CTL, DAC_CTL_DEN0, DAC_CTL_DEN1, DAC_CTL_DTEN0,
    DAC_CTL_DTEN1, DAC_SWT, DAC_SWT_SWTR0, DAC_SWT_SWTR1,
};
use crate::dma::{
    dma_channel_number, spec_dma_chcnt, spec_dma_chctl, valid_dma_base, DmaChannel,
    DMA_CHXCNT_CNT, DMA_CHXCTL_CHEN, DMA_CHXCTL_CMEN,
};
use crate::regbank::RegisterBank;

verus! {

/// Address of the 12-bit right-aligned holding register whose content
/// the simulated trigger moves to the channel's output register.
pub open spec fn spec_dac_held_reg(dac_periph: u32) -> u32 {
    if dac_periph == DAC0 {
        DAC0_R12DH
    } else {
        DAC1_R12DH
    }
}

/// One simulated converter response to a pending software trigger: the
/// strobe bit is consumed, and when the channel and its trigger are both
/// enabled, the low twelve bits of the right-aligned held sample appear
/// in the output register. (The 12-bit right-aligned path is the one the
/// canonical flow uses; the other holding registers are left alone.)
pub fn dac_trigger_step(bank: &mut RegisterBank, dac_periph: u32)
    ensures
        forall|a: u32|
            #[trigger] final(bank).reg(a) == if valid_dac_periph(dac_periph) && old(bank).reg(
                DAC_SWT,
            ) & spec_dac_swtr(dac_periph) == spec_dac_swtr(dac_periph) {
                if a == DAC_SWT {
                    old(bank).reg(DAC_SWT) & !spec_dac_swtr(dac_periph)
                } else if a == spec_dac_do_reg(dac_periph) && old(bank).reg(DAC_CTL)
                    & spec_dac_den(dac_periph) == spec_dac_den(dac_periph)
                    && old(bank).reg(DAC_CTL) & spec_dac_dten(dac_periph)
                    == spec_dac_dten(dac_periph) {
                    old(bank).reg(spec_dac_held_reg(dac_periph)) & 0xfff
                } else {
                    old(bank).reg(a)
                }
            } else {
                old(bank).reg(a)
            },
{
    if dac_periph == DAC0 {
        let swt: u32 = bank.read32(DAC_SWT);
        if swt & DAC_SWT_SWTR0 == DAC_SWT_SWTR0 {
            bank.write32(DAC_SWT, swt & !DAC_SWT_SWTR0);
            let ctl: u32 = bank.read32(DAC_CTL);
            if ctl & DAC_CTL_DEN0 == DAC_CTL_DEN0 && ctl & DAC_CTL_DTEN0 == DAC_CTL_DTEN0 {
                let held: u32 = bank.read32(DAC0_R12DH);
                bank.write32(DAC0_DO, held & 0xfff);
            }
        }
    } else if dac_periph == DAC1 {
        let swt: u32 = bank.read32(DAC_SWT);
        if swt & DAC_SWT_SWTR1 == DAC_SWT_SWTR1 {
            bank.write32(DAC_SWT, swt & !DAC_SWT_SWTR1);
            let ctl: u32 = bank.read32(DAC_CTL);
            if ctl & DAC_CTL_DEN1 == DAC_CTL_DEN1 && ctl & DAC_CTL_DTEN1 == DAC_CTL_DTEN1 {
                let held: u32 = bank.read32(DAC1_R12DH);
                bank.write32(DAC1_DO, held & 0xfff);
            }
        }
    }
}

/// One simulated element transfer on an enabled channel: a positive
/// element count steps down by one; a count that already reached zero
/// reloads the originally programmed count when circular mode is on
/// (the hardware latches that count when the channel starts, so the
/// caller passes it in as `latched_count`). A disabled channel does
/// nothing.
pub fn dma_transfer_step(
    bank: &mut RegisterBank,
    dma_periph: u32,
    channelx: &DmaChannel,
    latched_count: u32,
)
    requires
        valid_dma_base(dma_periph),
    ensures
        forall|a: u32|
            #[trigger] final(bank).reg(a) == if old(bank).reg(
                spec_dma_chctl(dma_periph, *channelx),
            ) & DMA_CHXCTL_CHEN == DMA_CHXCTL_CHEN && a == spec_dma_chcnt(dma_periph, *channelx) {
                let cnt = old(bank).reg(spec_dma_chcnt(dma_periph, *channelx));
                if cnt > 0 {
                    (cnt - 1) as u32
                } else if old(bank).reg(spec_dma_chctl(dma_periph, *channelx)) & DMA_CHXCTL_CMEN
                    == DMA_CHXCTL_CMEN {
                    latched_count & DMA_CHXCNT_CNT
                } else {
                    cnt
                }
            } else {
                old(bank).reg(a)
            },
{
    let ctl_addr: u32 = dma_periph + 0x08 + 0x14 * dma_channel_number(channelx);
    let cnt_addr: u32 = dma_periph + 0x14 * dma_channel_number(channelx);
    let ctl: u32 = bank.read32(ctl_addr);
    if ctl & DMA_CHXCTL_CHEN == DMA_CHXCTL_CHEN {
        let cnt: u32 = bank.read32(cnt_addr);
        if cnt > 0 {
            bank.write32(cnt_addr, cnt - 1);
        } else if ctl & DMA_CHXCTL_CMEN == DMA_CHXCTL_CMEN {
            bank.write32(cnt_addr, latched_count & DMA_CHXCNT_CNT);
        }
    }
}

} // verus!
