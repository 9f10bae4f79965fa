//! Reset and clock unit: per-peripheral clock gating and reset pulses.
//!
//! Each gateable peripheral is identified by an opaque 32-bit token that
//! packs the offset of its bank register (high bits) together with its
//! bit position inside that register (low five bits).

use vstd::prelude::*;

use crate::regbank::RegisterBank;
use crate::register_helpers::{bit, spec_bit};

verus! {

/// Base address of the reset-and-clock-unit register block.
pub const RCU_BASE: u32 = 0x4001_8000 + 0x0000_9000;

/// Offset of the APB1 clock-enable register.
pub const APB1EN_REG_OFFSET: u32 = 0x1c;

/// Offset of the APB2 clock-enable register.
pub const APB2EN_REG_OFFSET: u32 = 0x18;

/// Offset of the AHB clock-enable register.
pub const AHBEN_REG_OFFSET: u32 = 0x14;

/// Offset of the APB1 reset register.
pub const APB1RST_REG_OFFSET: u32 = 0x10;

/// Clock-gate token of the first general-purpose I/O bank.
pub const RCU_GPIOA: u32 = 0x602;

/// Clock-gate token of the third general-purpose I/O bank.
pub const RCU_GPIOC: u32 = 0x604;

/// Clock-gate token of the analog converter.
pub const RCU_DAC: u32 = 0x71d;

/// Clock-gate token of the second transfer controller.
pub const RCU_DMA1: u32 = 0x501;

/// Clock-gate token of the sixth general timer.
pub const RCU_TIMER5: u32 = 0x704;

/// The token that packs register-bank offset `regidx` with bit position
/// `bitpos`.
pub open spec fn spec_regidx_bit(regidx: u32, bitpos: u32) -> u32 {
    (regidx << 6) | bitpos
}

/// The register-bank offset packed into `token`.
pub open spec fn spec_token_offset(token: u32) -> u32 {
    token >> 6
}

/// The bit position packed into `token`.
pub open spec fn spec_token_bitpos(token: u32) -> u32 {
    token & 0x1f
}

/// A legal token: its register-bank offset is below 1024. (The bit
/// position occupies five bits and cannot be out of range.)
pub open spec fn valid_rcu_token(token: u32) -> bool {
    (token >> 6) < 1024
}

/// Address of the bank register that `token` selects.
pub open spec fn spec_rcu_reg_addr(token: u32) -> u32 {
    (RCU_BASE + spec_token_offset(token)) as u32
}

/// Decoding a token recovers exactly the offset and bit position that
/// were packed into it, for every legal offset and bit position.
pub proof fn lemma_token_round_trip(offset: u32, bitpos: u32)
    requires
        offset < 1024,
        bitpos < 32,
    ensures
        spec_token_offset(spec_regidx_bit(offset, bitpos)) == offset,
        spec_token_bitpos(spec_regidx_bit(offset, bitpos)) == bitpos,
{
    assert((((offset << 6) | bitpos) >> 6) == offset && (((offset << 6) | bitpos) & 0x1f)
        == bitpos) by (bit_vector)
        requires
            offset < 1024,
            bitpos < 32,
    ;
}

/// Pack register-bank offset `regidx` and bit position `bitpos` into one
/// clock-gate token.
pub fn rcu_regidx_bit(regidx: u32, bitpos: u32) -> (token: u32)
    requires
        regidx < 1024,
        bitpos < 32,
    ensures
        token == spec_regidx_bit(regidx, bitpos),
        valid_rcu_token(token),
        spec_token_offset(token) == regidx,
        spec_token_bitpos(token) == bitpos,
{
    proof {
        lemma_token_round_trip(regidx, bitpos);
    }
    (regidx << 6) | bitpos
}

/// The bit position packed into `token`.
pub fn rcu_bit_pos(val: u32) -> (r: u32)
    ensures
        r == spec_token_bitpos(val),
        r < 32,
{
    proof {
        assert((val & 0x1f) < 32) by (bit_vector);
    }
    val & 0x1f
}

/// Address of the bank register that `token` selects.
pub fn rcu_reg_addr(periph: u32) -> (addr: u32)
    requires
        valid_rcu_token(periph),
    ensures
        addr == spec_rcu_reg_addr(periph),
{
    RCU_BASE + (periph >> 6)
}

/// Open the clock gate of the peripheral that `periph` identifies: set
/// its bit in its bank register and touch nothing else.
pub fn rcu_periph_clock_enable(bank: &mut RegisterBank, periph: u32)
    requires
        valid_rcu_token(periph),
    ensures
        forall|a: u32|
            #[trigger] final(bank).reg(a) == if a == spec_rcu_reg_addr(periph) {
                old(bank).reg(spec_rcu_reg_addr(periph)) | spec_bit(spec_token_bitpos(periph))
            } else {
                old(bank).reg(a)
            },
{
    let addr: u32 = rcu_reg_addr(periph);
    let pos: u32 = rcu_bit_pos(periph);
    let mask: u32 = bit(pos);
    bank.set_bits(addr, mask);
}

/// Assert the reset line of the peripheral that `periph_reset`
/// identifies: set its bit in its bank register and touch nothing else.
pub fn rcu_periph_reset_enable(bank: &mut RegisterBank, periph_reset: u32)
    requires
        valid_rcu_token(periph_reset),
    ensures
        forall|a: u32|
            #[trigger] final(bank).reg(a) == if a == spec_rcu_reg_addr(periph_reset) {
                old(bank).reg(spec_rcu_reg_addr(periph_reset)) | spec_bit(
                    spec_token_bitpos(periph_reset),
                )
            } else {
                old(bank).reg(a)
            },
{
    let addr: u32 = rcu_reg_addr(periph_reset);
    let pos: u32 = rcu_bit_pos(periph_reset);
    let mask: u32 = bit(pos);
    bank.set_bits(addr, mask);
}

/// Release the reset line of the peripheral that `periph_reset`
/// identifies: clear its bit in its bank register and touch nothing else.
pub fn rcu_periph_reset_disable(bank: &mut RegisterBank, periph_reset: u32)
    requires
        valid_rcu_token(periph_reset),
    ensures
        forall|a: u32|
            #[trigger] final(bank).reg(a) == if a == spec_rcu_reg_addr(periph_reset) {
                old(bank).reg(spec_rcu_reg_addr(periph_reset)) & !spec_bit(
                    spec_token_bitpos(periph_reset),
                )
            } else {
                old(bank).reg(a)
            },
{
    let addr: u32 = rcu_reg_addr(periph_reset);
    let pos: u32 = rcu_bit_pos(periph_reset);
    let mask: u32 = bit(pos);
    bank.clear_bits(addr, mask);
}

} // verus!
