//! General-purpose I/O pin configuration.
//!
//! Mode and speed of each of the sixteen pins occupy one 4-bit nibble
//! across two control registers: the first register covers pins zero
//! through seven, the second pins eight through fifteen. The two
//! pull-resistor input modes additionally touch the bit-operate
//! registers that alias the data output, after the mode write, in that
//! order — a quirk of the silicon that must not be reordered away.

use vstd::prelude::*;

use crate::regbank::RegisterBank;
use crate::register_helpers::{bit_is_set, spec_bit};

verus! {

/// Pin mode: analog input.
pub const GPIO_MODE_AIN: u32 = 0x00;

/// Pin mode: input with pull-up resistor.
pub const GPIO_MODE_IPU: u32 = 0x48;

/// Pin mode: input with pull-down resistor.
pub const GPIO_MODE_IPD: u32 = 0x28;

/// Output slew-rate code: up to 50 MHz.
pub const GPIO_OSPEED_50MHZ: u32 = 0x03;

/// Base address of the general-purpose I/O register region.
pub const GPIO_BASE: u32 = 0x4001_0000 + 0x0000_0800;

/// Base address of the first I/O bank.
pub const GPIOA: u32 = GPIO_BASE + 0x0000_0000;

/// Base address of the second I/O bank.
pub const GPIOB: u32 = GPIO_BASE + 0x0000_0400;

/// Base address of the third I/O bank.
pub const GPIOC: u32 = GPIO_BASE + 0x0000_0800;

/// Base address of the fourth I/O bank.
pub const GPIOD: u32 = GPIO_BASE + 0x0000_0c00;

/// Base address of the fifth I/O bank.
pub const GPIOE: u32 = GPIO_BASE + 0x0000_1000;

/// A base address naming one of the I/O banks.
pub open spec fn valid_gpio_base(gpiox: u32) -> bool {
    ||| gpiox == GPIOA
    ||| gpiox == GPIOB
    ||| gpiox == GPIOC
    ||| gpiox == GPIOD
    ||| gpiox == GPIOE
}

/// Address of the low control register (pins 0 through 7) of the bank
/// at `gpiox`.
pub open spec fn spec_gpio_ctl0(gpiox: u32) -> u32 {
    gpiox
}

/// Address of the high control register (pins 8 through 15) of the bank
/// at `gpiox`.
pub open spec fn spec_gpio_ctl1(gpiox: u32) -> u32 {
    (gpiox + 0x04) as u32
}

/// Address of the bit-operate set register of the bank at `gpiox`.
pub open spec fn spec_gpio_bop(gpiox: u32) -> u32 {
    (gpiox + 0x10) as u32
}

/// Address of the bit-clear register of the bank at `gpiox`.
pub open spec fn spec_gpio_bc(gpiox: u32) -> u32 {
    (gpiox + 0x14) as u32
}

/// The 4-bit code held for nibble `n` of control-register value `reg`.
pub open spec fn gpio_pin_code(reg: u32, n: u32) -> u32 {
    (reg >> ((4 * n) as u32)) & 0xf
}

/// The combined 4-bit mode/speed code: the speed is merged in only when
/// the mode's flag bit marks it as an output mode.
pub open spec fn spec_gpio_code(mode: u32, speed: u32) -> u32 {
    if mode & 0x10 != 0 {
        (mode & 0x0f) | speed
    } else {
        mode & 0x0f
    }
}

/// The highest pin index below `n` whose bit is set in `pin` (zero when
/// none is): the last pin an ascending walk over the mask visits.
pub open spec fn spec_top_pin(pin: u32, n: nat) -> u32
    decreases n,
{
    if n == 0 {
        0u32
    } else if bit_is_set(pin, (n - 1) as u32) {
        (n - 1) as u32
    } else {
        spec_top_pin(pin, (n - 1) as nat)
    }
}

/// Clearing nibble `i` of `c` and ORing in `code` sets exactly that
/// nibble to `code` and leaves every other nibble as it was.
proof fn lemma_nibble_update(c: u32, code: u32, i: u32, n: u32)
    by (bit_vector)
    requires
        i < 8,
        n < 8,
        code <= 0xf,
    ensures
        gpio_pin_code((c & !(0xfu32 << ((4 * i) as u32))) | (code << ((4 * i) as u32)), i) == code,
        n != i ==> gpio_pin_code(
            (c & !(0xfu32 << ((4 * i) as u32))) | (code << ((4 * i) as u32)),
            n,
        ) == gpio_pin_code(c, n),
{
}

/// The mask test the pin loop performs agrees with the per-bit view of
/// the pin mask, and the masked value is exactly the single pin bit.
proof fn lemma_pin_test(pin: u32, i: u32)
    by (bit_vector)
    requires
        i < 32,
    ensures
        ((1u32 << i) & pin != 0) == bit_is_set(pin, i),
        bit_is_set(pin, i) ==> (1u32 << i) & pin == spec_bit(i),
{
}

/// Configure every pin that `pin` selects to `mode` (with `speed`
/// merged in for output modes): for each selected pin, rewrite exactly
/// its nibble in the applicable control register, and for the two
/// pull-resistor input modes then write the pin's bit to the bit-operate
/// set register (pull-up) or the bit-clear register (pull-down).
#[verifier::loop_isolation(false)]
pub fn gpio_init(bank: &mut RegisterBank, gpio_periph: u32, mode: u32, speed: u32, pin: u32)
    requires
        valid_gpio_base(gpio_periph),
        speed <= 0xf,
    ensures
        forall|n: u32|
            n < 8 ==> #[trigger] gpio_pin_code(final(bank).reg(spec_gpio_ctl0(gpio_periph)), n)
                == if bit_is_set(pin, n) {
                spec_gpio_code(mode, speed)
            } else {
                gpio_pin_code(old(bank).reg(spec_gpio_ctl0(gpio_periph)), n)
            },
        forall|m: u32|
            m < 8 ==> #[trigger] gpio_pin_code(final(bank).reg(spec_gpio_ctl1(gpio_periph)), m)
                == if bit_is_set(pin, (m + 8) as u32) {
                spec_gpio_code(mode, speed)
            } else {
                gpio_pin_code(old(bank).reg(spec_gpio_ctl1(gpio_periph)), m)
            },
        (forall|n: u32| n < 8 ==> !bit_is_set(pin, n)) ==> final(bank).reg(
            spec_gpio_ctl0(gpio_periph),
        ) == old(bank).reg(spec_gpio_ctl0(gpio_periph)),
        (forall|n: u32| 8 <= n < 16 ==> !bit_is_set(pin, n)) ==> final(bank).reg(
            spec_gpio_ctl1(gpio_periph),
        ) == old(bank).reg(spec_gpio_ctl1(gpio_periph)),
        mode != GPIO_MODE_IPU ==> final(bank).reg(spec_gpio_bop(gpio_periph)) == old(bank).reg(
            spec_gpio_bop(gpio_periph),
        ),
        mode != GPIO_MODE_IPD ==> final(bank).reg(spec_gpio_bc(gpio_periph)) == old(bank).reg(
            spec_gpio_bc(gpio_periph),
        ),
        (forall|n: u32| n < 16 ==> !bit_is_set(pin, n)) ==> final(bank).reg(
            spec_gpio_bop(gpio_periph),
        ) == old(bank).reg(spec_gpio_bop(gpio_periph)),
        (forall|n: u32| n < 16 ==> !bit_is_set(pin, n)) ==> final(bank).reg(
            spec_gpio_bc(gpio_periph),
        ) == old(bank).reg(spec_gpio_bc(gpio_periph)),
        mode == GPIO_MODE_IPU && (exists|n: u32| n < 16 && bit_is_set(pin, n))
            ==> final(bank).reg(spec_gpio_bop(gpio_periph)) == spec_bit(spec_top_pin(pin, 16)),
        mode == GPIO_MODE_IPD && (exists|n: u32| n < 16 && bit_is_set(pin, n))
            ==> final(bank).reg(spec_gpio_bc(gpio_periph)) == spec_bit(spec_top_pin(pin, 16)),
        forall|a: u32|
            a != spec_gpio_ctl0(gpio_periph) && a != spec_gpio_ctl1(gpio_periph) && a
                != spec_gpio_bop(gpio_periph) && a != spec_gpio_bc(gpio_periph)
                ==> #[trigger] final(bank).reg(a) == old(bank).reg(a),
{
    let mut temp_mode: u32 = mode & 0x0f;
    if 0x00 != (mode & 0x10) {
        temp_mode = temp_mode | speed;
    }
    proof {
        assert((mode & 0x0fu32) <= 0xf && ((mode & 0x0fu32) | speed) <= 0xf) by (bit_vector)
            requires
                speed <= 0xfu32,
        ;
    }
    let ctl0_addr: u32 = gpio_periph;
    let ctl1_addr: u32 = gpio_periph + 0x04;
    let bop_addr: u32 = gpio_periph + 0x10;
    let bc_addr: u32 = gpio_periph + 0x14;

    let mut i: u32 = 0;
    while i < 8
        invariant
            i <= 8,
            forall|n: u32|
                n < i ==> #[trigger] gpio_pin_code(bank.reg(ctl0_addr), n) == if bit_is_set(
                    pin,
                    n,
                ) {
                    temp_mode
                } else {
                    gpio_pin_code(old(bank).reg(ctl0_addr), n)
                },
            forall|n: u32|
                i <= n < 8 ==> #[trigger] gpio_pin_code(bank.reg(ctl0_addr), n) == gpio_pin_code(
                    old(bank).reg(ctl0_addr),
                    n,
                ),
            (forall|n: u32| n < i ==> !bit_is_set(pin, n)) ==> bank.reg(ctl0_addr) == old(
                bank,
            ).reg(ctl0_addr),
            mode != GPIO_MODE_IPU ==> bank.reg(bop_addr) == old(bank).reg(bop_addr),
            mode != GPIO_MODE_IPD ==> bank.reg(bc_addr) == old(bank).reg(bc_addr),
            (forall|n: u32| n < i ==> !bit_is_set(pin, n)) ==> bank.reg(bop_addr) == old(bank).reg(
                bop_addr,
            ),
            (forall|n: u32| n < i ==> !bit_is_set(pin, n)) ==> bank.reg(bc_addr) == old(bank).reg(
                bc_addr,
            ),
            mode == GPIO_MODE_IPU && (exists|n: u32| n < i && bit_is_set(pin, n)) ==> bank.reg(
                bop_addr,
            ) == spec_bit(spec_top_pin(pin, i as nat)),
            mode == GPIO_MODE_IPD && (exists|n: u32| n < i && bit_is_set(pin, n)) ==> bank.reg(
                bc_addr,
            ) == spec_bit(spec_top_pin(pin, i as nat)),
            forall|a: u32|
                a != ctl0_addr && a != bop_addr && a != bc_addr ==> #[trigger] bank.reg(a) == old(
                    bank,
                ).reg(a),
        decreases 8 - i,
    {
        proof {
            lemma_pin_test(pin, i);
        }
        if (1u32 << i) & pin != 0 {
            let reg0: u32 = bank.read32(ctl0_addr);
            let reg1: u32 = reg0 & !(0xfu32 << (4 * i));
            let reg2: u32 = reg1 | (temp_mode << (4 * i));
            bank.write32(ctl0_addr, reg2);
            proof {
                assert forall|n: u32| n < 8 implies gpio_pin_code(reg2, n) == if n == i {
                    temp_mode
                } else {
                    gpio_pin_code(reg0, n)
                } by {
                    lemma_nibble_update(reg0, temp_mode, i, n);
                }
            }
            if mode == GPIO_MODE_IPD {
                bank.write32(bc_addr, (1u32 << i) & pin);
            } else if mode == GPIO_MODE_IPU {
                bank.write32(bop_addr, (1u32 << i) & pin);
            }
        }
        i = i + 1;
    }

    let mut i: u32 = 8;
    while i < 16
        invariant
            8 <= i <= 16,
            forall|n: u32|
                n < 8 ==> #[trigger] gpio_pin_code(bank.reg(ctl0_addr), n) == if bit_is_set(
                    pin,
                    n,
                ) {
                    temp_mode
                } else {
                    gpio_pin_code(old(bank).reg(ctl0_addr), n)
                },
            (forall|n: u32| n < 8 ==> !bit_is_set(pin, n)) ==> bank.reg(ctl0_addr) == old(
                bank,
            ).reg(ctl0_addr),
            forall|m: u32|
                m < i - 8 ==> #[trigger] gpio_pin_code(bank.reg(ctl1_addr), m) == if bit_is_set(
                    pin,
                    (m + 8) as u32,
                ) {
                    temp_mode
                } else {
                    gpio_pin_code(old(bank).reg(ctl1_addr), m)
                },
            forall|m: u32|
                i - 8 <= m < 8 ==> #[trigger] gpio_pin_code(bank.reg(ctl1_addr), m)
                    == gpio_pin_code(old(bank).reg(ctl1_addr), m),
            (forall|n: u32| 8 <= n < i ==> !bit_is_set(pin, n)) ==> bank.reg(ctl1_addr) == old(
                bank,
            ).reg(ctl1_addr),
            mode != GPIO_MODE_IPU ==> bank.reg(bop_addr) == old(bank).reg(bop_addr),
            mode != GPIO_MODE_IPD ==> bank.reg(bc_addr) == old(bank).reg(bc_addr),
            (forall|n: u32| n < i ==> !bit_is_set(pin, n)) ==> bank.reg(bop_addr) == old(bank).reg(
                bop_addr,
            ),
            (forall|n: u32| n < i ==> !bit_is_set(pin, n)) ==> bank.reg(bc_addr) == old(bank).reg(
                bc_addr,
            ),
            mode == GPIO_MODE_IPU && (exists|n: u32| n < i && bit_is_set(pin, n)) ==> bank.reg(
                bop_addr,
            ) == spec_bit(spec_top_pin(pin, i as nat)),
            mode == GPIO_MODE_IPD && (exists|n: u32| n < i && bit_is_set(pin, n)) ==> bank.reg(
                bc_addr,
            ) == spec_bit(spec_top_pin(pin, i as nat)),
            forall|a: u32|
                a != ctl0_addr && a != ctl1_addr && a != bop_addr && a != bc_addr
                    ==> #[trigger] bank.reg(a) == old(bank).reg(a),
        decreases 16 - i,
    {
        proof {
            lemma_pin_test(pin, i);
        }
        if (1u32 << i) & pin != 0 {
            let reg0: u32 = bank.read32(ctl1_addr);
            let reg1: u32 = reg0 & !(0xfu32 << (4 * (i - 8)));
            let reg2: u32 = reg1 | (temp_mode << (4 * (i - 8)));
            bank.write32(ctl1_addr, reg2);
            proof {
                assert forall|n: u32| n < 8 implies gpio_pin_code(reg2, n) == if n == (i - 8)
                    as u32 {
                    temp_mode
                } else {
                    gpio_pin_code(reg0, n)
                } by {
                    lemma_nibble_update(reg0, temp_mode, (i - 8) as u32, n);
                }
            }
            if mode == GPIO_MODE_IPD {
                bank.write32(bc_addr, (1u32 << i) & pin);
            } else if mode == GPIO_MODE_IPU {
                bank.write32(bop_addr, (1u32 << i) & pin);
            }
        }
        i = i + 1;
    }
}

} // verus!
