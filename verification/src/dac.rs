//! Dual-channel digital-to-analog converter.
//!
//! Both channels share one control register; the fields of channel one
//! sit sixteen bits above the matching fields of channel zero. An
//! operation given a channel identifier that names neither channel
//! leaves the bank untouched, mirroring the silent no-op of the
//! hardware library this layer reproduces.

use vstd::prelude::*;

use crate::rcu::{
    rcu_periph_reset_disable, rcu_periph_reset_enable, rcu_regidx_bit, APB1RST_REG_OFFSET,
    RCU_BASE,
};
use crate::regbank::RegisterBank;
use crate::register_helpers::spec_bit;

verus! {

/// Base address of the converter register block.
pub const DAC_BASE: u32 = 0x4000_0000 + 0x0000_7400;

/// Identifier of converter channel zero.
pub const DAC0: u32 = 0;

/// Identifier of converter channel one.
pub const DAC1: u32 = 1;

/// Address of the shared control register.
pub const DAC_CTL: u32 = DAC_BASE + 0x0;

/// Address of the software-trigger register (write-only strobe).
pub const DAC_SWT: u32 = DAC_BASE + 0x4;

/// Address of the 12-bit right-aligned data-holding register, channel 0.
pub const DAC0_R12DH: u32 = DAC_BASE + 0x8;

/// Address of the 12-bit left-aligned data-holding register, channel 0.
pub const DAC0_L12DH: u32 = DAC_BASE + 0xc;

/// Address of the 8-bit right-aligned data-holding register, channel 0.
pub const DAC0_R8DH: u32 = DAC_BASE + 0x10;

/// Address of the 12-bit right-aligned data-holding register, channel 1.
pub const DAC1_R12DH: u32 = DAC_BASE + 0x14;

/// Address of the 12-bit left-aligned data-holding register, channel 1.
pub const DAC1_L12DH: u32 = DAC_BASE + 0x18;

/// Address of the 8-bit right-aligned data-holding register, channel 1.
pub const DAC1_R8DH: u32 = DAC_BASE + 0x1c;

/// Address of the output (readback) register, channel 0.
pub const DAC0_DO: u32 = DAC_BASE + 0x2c;

/// Address of the output (readback) register, channel 1.
pub const DAC1_DO: u32 = DAC_BASE + 0x30;

/// Data alignment selector: 12-bit, right-justified.
pub const DAC_ALIGN_12B_R: u32 = 0;

/// Data alignment selector: 12-bit, left-justified.
pub const DAC_ALIGN_12B_L: u32 = 1;

/// Data alignment selector: 8-bit, right-justified.
pub const DAC_ALIGN_8B_R: u32 = 2;

/// Trigger-source code for the software trigger.
pub const DAC_TRIGGER_SOFTWARE: u8 = 7;

/// Wave-mode code that disables the built-in waveform generators.
pub const DAC_WAVE_DISABLE: u8 = 0;

/// Converter-enable bit, channel 0.
pub const DAC_CTL_DEN0: u32 = 0x1;

/// Converter-enable bit, channel 1.
pub const DAC_CTL_DEN1: u32 = 0x1_0000;

/// Output-buffer-off bit, channel 0 (clear means the buffer is enabled).
pub const DAC_CTL_DBOFF0: u32 = 0x2;

/// Output-buffer-off bit, channel 1 (clear means the buffer is enabled).
pub const DAC_CTL_DBOFF1: u32 = 0x2_0000;

/// Trigger-enable bit, channel 0.
pub const DAC_CTL_DTEN0: u32 = 0x4;

/// Trigger-enable bit, channel 1.
pub const DAC_CTL_DTEN1: u32 = 0x4_0000;

/// Trigger-source field (three bits), channel 0.
pub const DAC_CTL_DTSEL0: u32 = 0x38;

/// Trigger-source field (three bits), channel 1.
pub const DAC_CTL_DTSEL1: u32 = 0x38_0000;

/// Wave-mode field (two bits), channel 0.
pub const DAC_CTL_DWM0: u32 = 0xc0;

/// Wave-mode field (two bits), channel 1.
pub const DAC_CTL_DWM1: u32 = 0xc0_0000;

/// Transfer-request-enable bit, channel 0.
pub const DAC_CTL_DDMAEN0: u32 = 0x1000;

/// Transfer-request-enable bit, channel 1.
pub const DAC_CTL_DDMAEN1: u32 = 0x1000_0000;

/// Software-trigger bit, channel 0.
pub const DAC_SWT_SWTR0: u32 = 0x1;

/// Software-trigger bit, channel 1.
pub const DAC_SWT_SWTR1: u32 = 0x2;

/// An identifier that names one of the two converter channels.
pub open spec fn valid_dac_periph(dac_periph: u32) -> bool {
    dac_periph == DAC0 || dac_periph == DAC1
}

/// A recognized data-alignment selector.
pub open spec fn valid_dac_align(dac_align: u32) -> bool {
    dac_align == DAC_ALIGN_12B_R || dac_align == DAC_ALIGN_12B_L || dac_align == DAC_ALIGN_8B_R
}

/// Bit offset of the fields of channel `dac_periph` inside the shared
/// control register.
pub open spec fn dac_shift(dac_periph: u32) -> u32 {
    if dac_periph == DAC0 {
        0u32
    } else {
        16u32
    }
}

/// Converter-enable mask of channel `dac_periph`.
pub open spec fn spec_dac_den(dac_periph: u32) -> u32 {
    if dac_periph == DAC0 {
        DAC_CTL_DEN0
    } else {
        DAC_CTL_DEN1
    }
}

/// Output-buffer-off mask of channel `dac_periph`.
pub open spec fn spec_dac_dboff(dac_periph: u32) -> u32 {
    if dac_periph == DAC0 {
        DAC_CTL_DBOFF0
    } else {
        DAC_CTL_DBOFF1
    }
}

/// Trigger-enable mask of channel `dac_periph`.
pub open spec fn spec_dac_dten(dac_periph: u32) -> u32 {
    if dac_periph == DAC0 {
        DAC_CTL_DTEN0
    } else {
        DAC_CTL_DTEN1
    }
}

/// Trigger-source field mask of channel `dac_periph`.
pub open spec fn spec_dac_dtsel(dac_periph: u32) -> u32 {
    if dac_periph == DAC0 {
        DAC_CTL_DTSEL0
    } else {
        DAC_CTL_DTSEL1
    }
}

/// Wave-mode field mask of channel `dac_periph`.
pub open spec fn spec_dac_dwm(dac_periph: u32) -> u32 {
    if dac_periph == DAC0 {
        DAC_CTL_DWM0
    } else {
        DAC_CTL_DWM1
    }
}

/// Transfer-request-enable mask of channel `dac_periph`.
pub open spec fn spec_dac_ddmaen(dac_periph: u32) -> u32 {
    if dac_periph == DAC0 {
        DAC_CTL_DDMAEN0
    } else {
        DAC_CTL_DDMAEN1
    }
}

/// Software-trigger mask of channel `dac_periph`.
pub open spec fn spec_dac_swtr(dac_periph: u32) -> u32 {
    if dac_periph == DAC0 {
        DAC_SWT_SWTR0
    } else {
        DAC_SWT_SWTR1
    }
}

/// Address of the data-holding register of channel `dac_periph` for
/// alignment selector `dac_align`.
pub open spec fn spec_dac_data_reg(dac_periph: u32, dac_align: u32) -> u32 {
    if dac_periph == DAC0 {
        (DAC0_R12DH + 4 * dac_align) as u32
    } else {
        (DAC1_R12DH + 4 * dac_align) as u32
    }
}

/// Address of the output (readback) register of channel `dac_periph`.
pub open spec fn spec_dac_do_reg(dac_periph: u32) -> u32 {
    if dac_periph == DAC0 {
        DAC0_DO
    } else {
        DAC1_DO
    }
}

/// Whether channel `dac_periph` is enabled in control-register value
/// `ctl`.
pub open spec fn dac_ch_enabled(ctl: u32, dac_periph: u32) -> bool {
    ctl & spec_dac_den(dac_periph) == spec_dac_den(dac_periph)
}

/// Whether the output buffer of channel `dac_periph` is enabled in
/// control-register value `ctl` (its "off" bit is clear).
pub open spec fn dac_buffer_enabled(ctl: u32, dac_periph: u32) -> bool {
    ctl & spec_dac_dboff(dac_periph) == 0
}

/// Whether the trigger of channel `dac_periph` is enabled in
/// control-register value `ctl`.
pub open spec fn dac_trigger_enabled(ctl: u32, dac_periph: u32) -> bool {
    ctl & spec_dac_dten(dac_periph) == spec_dac_dten(dac_periph)
}

/// The trigger-source code of channel `dac_periph` in control-register
/// value `ctl`.
pub open spec fn dac_trigger_source(ctl: u32, dac_periph: u32) -> u32 {
    (ctl >> ((dac_shift(dac_periph) + 3) as u32)) & 7
}

/// The wave-mode code of channel `dac_periph` in control-register value
/// `ctl`.
pub open spec fn dac_wave_mode(ctl: u32, dac_periph: u32) -> u32 {
    (ctl >> ((dac_shift(dac_periph) + 6) as u32)) & 3
}

/// Whether transfer requests of channel `dac_periph` are enabled in
/// control-register value `ctl`.
pub open spec fn dac_dma_enabled(ctl: u32, dac_periph: u32) -> bool {
    ctl & spec_dac_ddmaen(dac_periph) == spec_dac_ddmaen(dac_periph)
}

/// Mask covering every control-register field of channel `dac_periph`
/// that this layer drives.
pub open spec fn spec_dac_field_mask(dac_periph: u32) -> u32 {
    if dac_periph == DAC0 {
        0x10ffu32
    } else {
        0x10ff_0000u32
    }
}

/// Enable the converter channel: set its enable bit, touch nothing else.
pub fn dac_enable(bank: &mut RegisterBank, dac_periph: u32)
    ensures
        forall|a: u32|
            #[trigger] final(bank).reg(a) == if valid_dac_periph(dac_periph) && a == DAC_CTL {
                old(bank).reg(DAC_CTL) | spec_dac_den(dac_periph)
            } else {
                old(bank).reg(a)
            },
{
    if dac_periph == DAC0 {
        bank.set_bits(DAC_CTL, DAC_CTL_DEN0);
    } else if dac_periph == DAC1 {
        bank.set_bits(DAC_CTL, DAC_CTL_DEN1);
    }
}

/// Disable the converter channel: clear its enable bit, touch nothing
/// else.
pub fn dac_disable(bank: &mut RegisterBank, dac_periph: u32)
    ensures
        forall|a: u32|
            #[trigger] final(bank).reg(a) == if valid_dac_periph(dac_periph) && a == DAC_CTL {
                old(bank).reg(DAC_CTL) & !spec_dac_den(dac_periph)
            } else {
                old(bank).reg(a)
            },
{
    if dac_periph == DAC0 {
        bank.clear_bits(DAC_CTL, DAC_CTL_DEN0);
    } else if dac_periph == DAC1 {
        bank.clear_bits(DAC_CTL, DAC_CTL_DEN1);
    }
}

/// Enable transfer requests for the channel: on each trigger the
/// transfer controller is asked for the next sample.
pub fn dac_dma_enable(bank: &mut RegisterBank, dac_periph: u32)
    ensures
        forall|a: u32|
            #[trigger] final(bank).reg(a) == if valid_dac_periph(dac_periph) && a == DAC_CTL {
                old(bank).reg(DAC_CTL) | spec_dac_ddmaen(dac_periph)
            } else {
                old(bank).reg(a)
            },
{
    if dac_periph == DAC0 {
        bank.set_bits(DAC_CTL, DAC_CTL_DDMAEN0);
    } else if dac_periph == DAC1 {
        bank.set_bits(DAC_CTL, DAC_CTL_DDMAEN1);
    }
}

/// Disable transfer requests for the channel.
pub fn dac_dma_disable(bank: &mut RegisterBank, dac_periph: u32)
    ensures
        forall|a: u32|
            #[trigger] final(bank).reg(a) == if valid_dac_periph(dac_periph) && a == DAC_CTL {
                old(bank).reg(DAC_CTL) & !spec_dac_ddmaen(dac_periph)
            } else {
                old(bank).reg(a)
            },
{
    if dac_periph == DAC0 {
        bank.clear_bits(DAC_CTL, DAC_CTL_DDMAEN0);
    } else if dac_periph == DAC1 {
        bank.clear_bits(DAC_CTL, DAC_CTL_DDMAEN1);
    }
}

/// Enable the channel's output buffer by clearing its "buffer off" bit:
/// the bit's sense is inverted and must stay inverted.
pub fn dac_output_buffer_enable(bank: &mut RegisterBank, dac_periph: u32)
    ensures
        forall|a: u32|
            #[trigger] final(bank).reg(a) == if valid_dac_periph(dac_periph) && a == DAC_CTL {
                old(bank).reg(DAC_CTL) & !spec_dac_dboff(dac_periph)
            } else {
                old(bank).reg(a)
            },
{
    if dac_periph == DAC0 {
        bank.clear_bits(DAC_CTL, DAC_CTL_DBOFF0);
    } else if dac_periph == DAC1 {
        bank.clear_bits(DAC_CTL, DAC_CTL_DBOFF1);
    }
}

/// Disable the channel's output buffer by setting its "buffer off" bit.
pub fn dac_output_buffer_disable(bank: &mut RegisterBank, dac_periph: u32)
    ensures
        forall|a: u32|
            #[trigger] final(bank).reg(a) == if valid_dac_periph(dac_periph) && a == DAC_CTL {
                old(bank).reg(DAC_CTL) | spec_dac_dboff(dac_periph)
            } else {
                old(bank).reg(a)
            },
{
    if dac_periph == DAC0 {
        bank.set_bits(DAC_CTL, DAC_CTL_DBOFF0);
    } else if dac_periph == DAC1 {
        bank.set_bits(DAC_CTL, DAC_CTL_DBOFF1);
    }
}

/// Enable the channel's trigger: samples move from the holding register
/// to the output on trigger events instead of immediately.
pub fn dac_trigger_enable(bank: &mut RegisterBank, dac_periph: u32)
    ensures
        forall|a: u32|
            #[trigger] final(bank).reg(a) == if valid_dac_periph(dac_periph) && a == DAC_CTL {
                old(bank).reg(DAC_CTL) | spec_dac_dten(dac_periph)
            } else {
                old(bank).reg(a)
            },
{
    if dac_periph == DAC0 {
        bank.set_bits(DAC_CTL, DAC_CTL_DTEN0);
    } else if dac_periph == DAC1 {
        bank.set_bits(DAC_CTL, DAC_CTL_DTEN1);
    }
}

/// Disable the channel's trigger.
pub fn dac_trigger_disable(bank: &mut RegisterBank, dac_periph: u32)
    ensures
        forall|a: u32|
            #[trigger] final(bank).reg(a) == if valid_dac_periph(dac_periph) && a == DAC_CTL {
                old(bank).reg(DAC_CTL) & !spec_dac_dten(dac_periph)
            } else {
                old(bank).reg(a)
            },
{
    if dac_periph == DAC0 {
        bank.clear_bits(DAC_CTL, DAC_CTL_DTEN0);
    } else if dac_periph == DAC1 {
        bank.clear_bits(DAC_CTL, DAC_CTL_DTEN1);
    }
}

/// Select the channel's wave-generation mode (zero disables the built-in
/// generators): clear the two-bit field, then set the new code.
pub fn dac_wave_mode_config(bank: &mut RegisterBank, dac_periph: u32, wave_mode: u8)
    requires
        wave_mode < 4,
    ensures
        forall|a: u32|
            #[trigger] final(bank).reg(a) == if valid_dac_periph(dac_periph) && a == DAC_CTL {
                (old(bank).reg(DAC_CTL) & !spec_dac_dwm(dac_periph)) | ((wave_mode as u32) << ((
                dac_shift(dac_periph) + 6) as u32))
            } else {
                old(bank).reg(a)
            },
{
    if dac_periph == DAC0 {
        bank.clear_bits(DAC_CTL, DAC_CTL_DWM0);
        bank.set_bits(DAC_CTL, (wave_mode as u32) << 6);
    } else if dac_periph == DAC1 {
        bank.clear_bits(DAC_CTL, DAC_CTL_DWM1);
        bank.set_bits(DAC_CTL, (wave_mode as u32) << 22);
    }
}

/// Select the channel's trigger source (code seven is the software
/// trigger). The field is written as clear-then-set so that no transient
/// mixed code ever stands in the register.
pub fn dac_trigger_source_config(bank: &mut RegisterBank, dac_periph: u32, triggersource: u8)
    requires
        triggersource < 8,
    ensures
        forall|a: u32|
            #[trigger] final(bank).reg(a) == if valid_dac_periph(dac_periph) && a == DAC_CTL {
                (old(bank).reg(DAC_CTL) & !spec_dac_dtsel(dac_periph)) | ((triggersource as u32)
                    << ((dac_shift(dac_periph) + 3) as u32))
            } else {
                old(bank).reg(a)
            },
{
    if dac_periph == DAC0 {
        bank.clear_bits(DAC_CTL, DAC_CTL_DTSEL0);
        bank.set_bits(DAC_CTL, (triggersource as u32) << 3);
    } else if dac_periph == DAC1 {
        bank.clear_bits(DAC_CTL, DAC_CTL_DTSEL1);
        bank.set_bits(DAC_CTL, (triggersource as u32) << 19);
    }
}

/// Fire the channel's software trigger: write its self-clearing strobe
/// bit to the write-only trigger register.
pub fn dac_software_trigger_enable(bank: &mut RegisterBank, dac_periph: u32)
    ensures
        forall|a: u32|
            #[trigger] final(bank).reg(a) == if valid_dac_periph(dac_periph) && a == DAC_SWT {
                spec_dac_swtr(dac_periph)
            } else {
                old(bank).reg(a)
            },
{
    if dac_periph == DAC0 {
        bank.write32(DAC_SWT, DAC_SWT_SWTR0);
    } else if dac_periph == DAC1 {
        bank.write32(DAC_SWT, DAC_SWT_SWTR1);
    }
}

/// Read back the channel's output register; an identifier naming neither
/// channel reads zero.
pub fn dac_output_value_get(bank: &RegisterBank, dac_periph: u32) -> (r: u32)
    ensures
        r == if valid_dac_periph(dac_periph) {
            bank.reg(spec_dac_do_reg(dac_periph))
        } else {
            0u32
        },
{
    if dac_periph == DAC0 {
        bank.read32(DAC0_DO)
    } else if dac_periph == DAC1 {
        bank.read32(DAC1_DO)
    } else {
        0
    }
}

/// Write one sample to the channel's data-holding register for the given
/// alignment. An unrecognized alignment selector aborts the operation:
/// the caller gets `None` and no register is written, since routing the
/// sample to an arbitrary register would corrupt the analog output with
/// no diagnostic.
pub fn dac_data_set(bank: &mut RegisterBank, dac_periph: u32, dac_align: u32, data: u16) -> (r:
    Option<()>)
    ensures
        r == if valid_dac_periph(dac_periph) && !valid_dac_align(dac_align) {
            None::<()>
        } else {
            Some(())
        },
        forall|a: u32|
            #[trigger] final(bank).reg(a) == if valid_dac_periph(dac_periph) && valid_dac_align(
                dac_align,
            ) && a == spec_dac_data_reg(dac_periph, dac_align) {
                data as u32
            } else {
                old(bank).reg(a)
            },
{
    if dac_periph == DAC0 {
        if dac_align == DAC_ALIGN_12B_R {
            bank.write32(DAC0_R12DH, data as u32);
        } else if dac_align == DAC_ALIGN_12B_L {
            bank.write32(DAC0_L12DH, data as u32);
        } else if dac_align == DAC_ALIGN_8B_R {
            bank.write32(DAC0_R8DH, data as u32);
        } else {
            return None;
        }
        Some(())
    } else if dac_periph == DAC1 {
        if dac_align == DAC_ALIGN_12B_R {
            bank.write32(DAC1_R12DH, data as u32);
        } else if dac_align == DAC_ALIGN_12B_L {
            bank.write32(DAC1_L12DH, data as u32);
        } else if dac_align == DAC_ALIGN_8B_R {
            bank.write32(DAC1_R8DH, data as u32);
        } else {
            return None;
        }
        Some(())
    } else {
        Some(())
    }
}

/// Pulse the converter family's reset line: assert it through the reset
/// and clock unit, then immediately release it. The converter's bank
/// registers themselves are not written by this call.
pub fn dac_deinit(bank: &mut RegisterBank)
    ensures
        forall|a: u32|
            #[trigger] final(bank).reg(a) == if a == RCU_BASE + APB1RST_REG_OFFSET {
                old(bank).reg((RCU_BASE + APB1RST_REG_OFFSET) as u32) & !spec_bit(29)
            } else {
                old(bank).reg(a)
            },
{
    let rcu_dacrst: u32 = rcu_regidx_bit(APB1RST_REG_OFFSET, 29);
    rcu_periph_reset_enable(bank, rcu_dacrst);
    rcu_periph_reset_disable(bank, rcu_dacrst);
    proof {
        let x = old(bank).reg((RCU_BASE + APB1RST_REG_OFFSET) as u32);
        let m = spec_bit(29);
        assert((x | m) & !m == x & !m) by (bit_vector);
    }
}

/// The canonical bring-up sequence, in the order the silicon requires:
/// reset pulse, trigger-source select, trigger enable, wave generation
/// off, output buffer on, converter on, and, when asked for, transfer
/// requests on.
///
/// Afterwards the channel is enabled, its buffer is enabled, its
/// trigger source is `triggersource`, its wave mode is disabled, and
/// every control-register bit outside the channel's own fields is
/// exactly as it was.
pub fn dac_bring_up(bank: &mut RegisterBank, dac_periph: u32, triggersource: u8, enable_dma: bool)
    requires
        valid_dac_periph(dac_periph),
        triggersource < 8,
    ensures
        dac_ch_enabled(final(bank).reg(DAC_CTL), dac_periph),
        dac_buffer_enabled(final(bank).reg(DAC_CTL), dac_periph),
        dac_trigger_enabled(final(bank).reg(DAC_CTL), dac_periph),
        dac_trigger_source(final(bank).reg(DAC_CTL), dac_periph) == triggersource,
        dac_wave_mode(final(bank).reg(DAC_CTL), dac_periph) == DAC_WAVE_DISABLE,
        enable_dma ==> dac_dma_enabled(final(bank).reg(DAC_CTL), dac_periph),
        !enable_dma ==> final(bank).reg(DAC_CTL) & spec_dac_ddmaen(dac_periph) == old(bank).reg(
            DAC_CTL,
        ) & spec_dac_ddmaen(dac_periph),
        final(bank).reg(DAC_CTL) & !spec_dac_field_mask(dac_periph) == old(bank).reg(DAC_CTL)
            & !spec_dac_field_mask(dac_periph),
        final(bank).reg((RCU_BASE + APB1RST_REG_OFFSET) as u32) == old(bank).reg(
            (RCU_BASE + APB1RST_REG_OFFSET) as u32,
        ) & !spec_bit(29),
        forall|a: u32|
            a != DAC_CTL && a != RCU_BASE + APB1RST_REG_OFFSET ==> #[trigger] final(bank).reg(a)
                == old(bank).reg(a),
{
    dac_deinit(bank);
    let ghost r0 = bank.reg(DAC_CTL);
    dac_trigger_source_config(bank, dac_periph, triggersource);
    let ghost r1 = bank.reg(DAC_CTL);
    dac_trigger_enable(bank, dac_periph);
    let ghost r2 = bank.reg(DAC_CTL);
    dac_wave_mode_config(bank, dac_periph, DAC_WAVE_DISABLE);
    let ghost r3 = bank.reg(DAC_CTL);
    dac_output_buffer_enable(bank, dac_periph);
    let ghost r4 = bank.reg(DAC_CTL);
    dac_enable(bank, dac_periph);
    let ghost r5 = bank.reg(DAC_CTL);
    if enable_dma {
        dac_dma_enable(bank, dac_periph);
    }
    proof {
        let ts = triggersource;
        let c = bank.reg(DAC_CTL);
        if dac_periph == DAC0 {
            assert(r5 & 0x1u32 == 0x1 && r5 & 0x2u32 == 0 && r5 & 0x4u32 == 0x4 && (r5 >> 3u32)
                & 7 == (ts as u32) && (r5 >> 6u32) & 3 == 0 && r5 & !0x10ffu32 == r0 & !0x10ffu32
                && r5 & 0x1000u32 == r0 & 0x1000u32) by (bit_vector)
                requires
                    ts < 8,
                    r1 == (r0 & !0x38u32) | ((ts as u32) << 3u32),
                    r2 == r1 | 0x4u32,
                    r3 == (r2 & !0xc0u32) | (0u32 << 6u32),
                    r4 == r3 & !0x2u32,
                    r5 == r4 | 0x1u32,
            ;
            if enable_dma {
                assert(c & 0x1u32 == 0x1 && c & 0x2u32 == 0 && c & 0x4u32 == 0x4 && (c >> 3u32) & 7
                    == (ts as u32) && (c >> 6u32) & 3 == 0 && c & !0x10ffu32 == r0 & !0x10ffu32 && c
                    & 0x1000u32 == 0x1000) by (bit_vector)
                    requires
                        c == r5 | 0x1000u32,
                        r5 & 0x1u32 == 0x1,
                        r5 & 0x2u32 == 0,
                        r5 & 0x4u32 == 0x4,
                        (r5 >> 3u32) & 7 == (ts as u32),
                        (r5 >> 6u32) & 3 == 0,
                        r5 & !0x10ffu32 == r0 & !0x10ffu32,
                ;
            }
        } else {
            assert(r5 & 0x10000u32 == 0x10000 && r5 & 0x20000u32 == 0 && r5 & 0x40000u32 == 0x40000
                && (r5 >> 19u32) & 7 == (ts as u32) && (r5 >> 22u32) & 3 == 0 && r5
                & !0x10ff0000u32 == r0 & !0x10ff0000u32 && r5 & 0x10000000u32 == r0
                & 0x10000000u32) by (bit_vector)
                requires
                    ts < 8,
                    r1 == (r0 & !0x380000u32) | ((ts as u32) << 19u32),
                    r2 == r1 | 0x40000u32,
                    r3 == (r2 & !0xc00000u32) | (0u32 << 22u32),
                    r4 == r3 & !0x20000u32,
                    r5 == r4 | 0x10000u32,
            ;
            if enable_dma {
                assert(c & 0x10000u32 == 0x10000 && c & 0x20000u32 == 0 && c & 0x40000u32
                    == 0x40000 && (c >> 19u32) & 7 == (ts as u32) && (c >> 22u32) & 3 == 0 && c
                    & !0x10ff0000u32 == r0 & !0x10ff0000u32 && c & 0x10000000u32
                    == 0x10000000) by (bit_vector)
                    requires
                        c == r5 | 0x10000000u32,
                        r5 & 0x10000u32 == 0x10000,
                        r5 & 0x20000u32 == 0,
                        r5 & 0x40000u32 == 0x40000,
                        (r5 >> 19u32) & 7 == (ts as u32),
                        (r5 >> 22u32) & 3 == 0,
                        r5 & !0x10ff0000u32 == r0 & !0x10ff0000u32,
                ;
            }
        }
    }
}

} // verus!
