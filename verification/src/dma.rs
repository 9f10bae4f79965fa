//! Transfer controller: descriptor-programmed transfers between memory
//! and a peripheral.
//!
//! Each channel owns a register group at a fixed stride above the
//! controller base. The second controller instance restricts the legal
//! channel indices to zero through four; every per-channel operation
//! validates the pair first and performs no register write on an
//! illegal combination, so that no write lands in a neighbouring
//! peripheral's register space.

use vstd::prelude::*;

use crate::regbank::RegisterBank;

verus! {

/// Global-interrupt flag of a channel's flag group.
pub const DMA_INTF_GIF: u32 = 0x1;

/// Full-transfer-finished flag of a channel's flag group.
pub const DMA_INTF_FTFIF: u32 = 0x2;

/// Half-transfer-finished flag of a channel's flag group.
pub const DMA_INTF_HTFIF: u32 = 0x4;

/// Transfer-error flag of a channel's flag group.
pub const DMA_INTF_ERRIF: u32 = 0x8;

/// Peripheral transfer width code: eight bits.
pub const DMA_PERIPHERAL_WIDTH_8BIT: u32 = 0;

/// Memory transfer width code: eight bits.
pub const DMA_MEMORY_WIDTH_8BIT: u32 = 0;

/// Channel priority code: ultra high.
pub const DMA_PRIORITY_ULTRA_HIGH: u32 = 0x3000;

/// Keep the peripheral address fixed during the transfer.
pub const DMA_PERIPH_INCREASE_DISABLE: u8 = 0x0;

/// Step the peripheral address after every element.
pub const DMA_PERIPH_INCREASE_ENABLE: u8 = 0x1;

/// Keep the memory address fixed during the transfer.
pub const DMA_MEMORY_INCREASE_DISABLE: u8 = 0x0;

/// Step the memory address after every element.
pub const DMA_MEMORY_INCREASE_ENABLE: u8 = 0x1;

/// Transfer direction: from the peripheral into memory.
pub const DMA_PERIPHERAL_TO_MEMORY: u8 = 0x0;

/// Transfer direction: from memory into the peripheral.
pub const DMA_MEMORY_TO_PERIPHERAL: u8 = 0x1;

/// Peripheral-address-increment bit of a channel control register.
pub const DMA_CHXCTL_PNAGA: u32 = 0x40;

/// Memory-address-increment bit of a channel control register.
pub const DMA_CHXCTL_MNAGA: u32 = 0x80;

/// Channel-enable bit of a channel control register.
pub const DMA_CHXCTL_CHEN: u32 = 0x2;

/// Direction bit of a channel control register (set means memory to
/// peripheral).
pub const DMA_CHXCTL_DIR: u32 = 0x10;

/// Circular-mode (auto-reload) bit of a channel control register.
pub const DMA_CHXCTL_CMEN: u32 = 0x20;

/// Peripheral-width field (two bits) of a channel control register.
pub const DMA_CHXCTL_PWIDTH: u32 = 0x300;

/// Memory-width field (two bits) of a channel control register.
pub const DMA_CHXCTL_MWIDTH: u32 = 0xc00;

/// Priority field (two bits) of a channel control register.
pub const DMA_CHXCTL_PRIO: u32 = 0x3000;

/// Width of the element-count field of a channel counter register.
pub const DMA_CHXCNT_CNT: u32 = 0xffff;

/// Base address of the transfer-controller register region.
pub const DMA_BASE: u32 = 0x4001_8000 + 0x0000_8000;

/// Base address of the first controller instance (seven channels).
pub const DMA0: u32 = DMA_BASE + 0x0;

/// Base address of the second controller instance (five channels).
pub const DMA1: u32 = DMA_BASE + 0x0400;

/// A transfer descriptor: everything `dma_init` programs into one
/// channel's register group.
pub struct DmaParameters {
    /// Peripheral-side address.
    pub periph_addr: u32,
    /// Peripheral transfer width code, already in field position.
    pub periph_width: u32,
    /// Memory-side address.
    pub memory_addr: u32,
    /// Memory transfer width code, already in field position.
    pub memory_width: u32,
    /// Number of elements to move.
    pub number: u32,
    /// Channel priority code, already in field position.
    pub priority: u32,
    /// Whether the peripheral address steps after each element.
    pub periph_inc: u8,
    /// Whether the memory address steps after each element.
    pub memory_inc: u8,
    /// Transfer direction.
    pub direction: u8,
}

/// One of the seven transfer channels.
#[derive(Copy, Clone)]
pub enum DmaChannel {
    DmaCh0,
    DmaCh1,
    DmaCh2,
    DmaCh3,
    DmaCh4,
    DmaCh5,
    DmaCh6,
}

/// The index of `channelx`.
pub open spec fn spec_channel_num(channelx: DmaChannel) -> u32 {
    match channelx {
        DmaChannel::DmaCh0 => 0u32,
        DmaChannel::DmaCh1 => 1u32,
        DmaChannel::DmaCh2 => 2u32,
        DmaChannel::DmaCh3 => 3u32,
        DmaChannel::DmaCh4 => 4u32,
        DmaChannel::DmaCh5 => 5u32,
        DmaChannel::DmaCh6 => 6u32,
    }
}

/// A base address naming one of the controller instances.
pub open spec fn valid_dma_base(dma_periph: u32) -> bool {
    dma_periph == DMA0 || dma_periph == DMA1
}

/// A legal controller/channel pair: the second instance only has
/// channels zero through four.
pub open spec fn spec_channel_valid(dma_periph: u32, channelx: DmaChannel) -> bool {
    dma_periph == DMA1 ==> spec_channel_num(channelx) <= 4
}

/// Address of the counter register of the channel's group.
pub open spec fn spec_dma_chcnt(dma_periph: u32, channelx: DmaChannel) -> u32 {
    (dma_periph + 0x14 * spec_channel_num(channelx)) as u32
}

/// Address of the control register of the channel's group.
pub open spec fn spec_dma_chctl(dma_periph: u32, channelx: DmaChannel) -> u32 {
    (dma_periph + 0x08 + 0x14 * spec_channel_num(channelx)) as u32
}

/// Address of the peripheral-address register of the channel's group.
pub open spec fn spec_dma_chpaddr(dma_periph: u32, channelx: DmaChannel) -> u32 {
    (dma_periph + 0x10 + 0x14 * spec_channel_num(channelx)) as u32
}

/// Address of the memory-address register of the channel's group.
pub open spec fn spec_dma_chmaddr(dma_periph: u32, channelx: DmaChannel) -> u32 {
    (dma_periph + 0x14 + 0x14 * spec_channel_num(channelx)) as u32
}

/// Address of the shared flag-clear register of the controller.
pub open spec fn spec_dma_intc(dma_periph: u32) -> u32 {
    (dma_periph + 0x4) as u32
}

/// The control-register value that `dma_init` leaves behind: the width
/// and priority field group cleared and rewritten, then the two
/// increment bits, then the direction bit.
pub open spec fn spec_dma_ctl_after(ctl: u32, init_struct: DmaParameters) -> u32 {
    let widths = (ctl & !(DMA_CHXCTL_PWIDTH | DMA_CHXCTL_MWIDTH | DMA_CHXCTL_PRIO)) | (
    init_struct.periph_width | init_struct.memory_width | init_struct.priority);
    let pinc = if init_struct.periph_inc == DMA_PERIPH_INCREASE_ENABLE {
        widths | DMA_CHXCTL_PNAGA
    } else {
        widths & !DMA_CHXCTL_PNAGA
    };
    let minc = if init_struct.memory_inc == DMA_MEMORY_INCREASE_ENABLE {
        pinc | DMA_CHXCTL_MNAGA
    } else {
        pinc & !DMA_CHXCTL_MNAGA
    };
    if init_struct.direction == DMA_PERIPHERAL_TO_MEMORY {
        minc & !DMA_CHXCTL_DIR
    } else {
        minc | DMA_CHXCTL_DIR
    }
}

/// The index of `channelx`, as a register-stride multiplier.
pub fn dma_channel_number(channelx: &DmaChannel) -> (n: u32)
    ensures
        n == spec_channel_num(*channelx),
        n <= 6,
{
    match channelx {
        DmaChannel::DmaCh0 => 0u32,
        DmaChannel::DmaCh1 => 1u32,
        DmaChannel::DmaCh2 => 2u32,
        DmaChannel::DmaCh3 => 3u32,
        DmaChannel::DmaCh4 => 4u32,
        DmaChannel::DmaCh5 => 5u32,
        DmaChannel::DmaCh6 => 6u32,
    }
}

fn dma_chcnt(dma_periph: u32, channelx: &DmaChannel) -> (addr: u32)
    requires
        valid_dma_base(dma_periph),
    ensures
        addr == spec_dma_chcnt(dma_periph, *channelx),
{
    dma_periph + 0x14 * dma_channel_number(channelx)
}

fn dma_chctl(dma_periph: u32, channelx: &DmaChannel) -> (addr: u32)
    requires
        valid_dma_base(dma_periph),
    ensures
        addr == spec_dma_chctl(dma_periph, *channelx),
{
    (dma_periph + 0x08) + 0x14 * dma_channel_number(channelx)
}

fn dma_chpaddr(dma_periph: u32, channelx: &DmaChannel) -> (addr: u32)
    requires
        valid_dma_base(dma_periph),
    ensures
        addr == spec_dma_chpaddr(dma_periph, *channelx),
{
    (dma_periph + 0x10) + 0x14 * dma_channel_number(channelx)
}

fn dma_chmaddr(dma_periph: u32, channelx: &DmaChannel) -> (addr: u32)
    requires
        valid_dma_base(dma_periph),
    ensures
        addr == spec_dma_chmaddr(dma_periph, *channelx),
{
    (dma_periph + 0x14) + 0x14 * dma_channel_number(channelx)
}

fn dma_intc(dmax: u32) -> (addr: u32)
    requires
        valid_dma_base(dmax),
    ensures
        addr == spec_dma_intc(dmax),
{
    dmax + 0x4
}

/// A channel's flag mask shifted into its slot of the shared flag
/// register: four bits of stride per channel index.
fn dma_flag_add(flag: u32, shift: u32) -> (r: u32)
    requires
        shift <= 6,
    ensures
        r == flag << ((4 * shift) as u32),
{
    flag << (4 * shift)
}

/// Whether `dma_periph` and `channelx` are a legal pair: the second
/// controller instance rejects channels five and six; every other
/// combination is allowed.
pub fn dma_periph_and_channel_check(dma_periph: u32, channelx: &DmaChannel) -> (r: Option<()>)
    ensures
        r == if spec_channel_valid(dma_periph, *channelx) {
            Some(())
        } else {
            None::<()>
        },
{
    if dma_periph == DMA1 {
        match channelx {
            DmaChannel::DmaCh0 | DmaChannel::DmaCh1 | DmaChannel::DmaCh2 | DmaChannel::DmaCh3
                | DmaChannel::DmaCh4 => Some(()),
            _ => None,
        }
    } else {
        Some(())
    }
}

/// Program the channel's register group from a transfer descriptor:
/// peripheral address, memory address, element count (masked to the
/// count field width), then the control register. On an illegal
/// controller/channel pair nothing is written and the caller gets
/// `None`.
pub fn dma_init(
    bank: &mut RegisterBank,
    dma_periph: u32,
    channelx: &DmaChannel,
    init_struct: &DmaParameters,
) -> (r: Option<()>)
    requires
        valid_dma_base(dma_periph),
    ensures
        r == if spec_channel_valid(dma_periph, *channelx) {
            Some(())
        } else {
            None::<()>
        },
        forall|a: u32|
            #[trigger] final(bank).reg(a) == if spec_channel_valid(dma_periph, *channelx) {
                if a == spec_dma_chpaddr(dma_periph, *channelx) {
                    init_struct.periph_addr
                } else if a == spec_dma_chmaddr(dma_periph, *channelx) {
                    init_struct.memory_addr
                } else if a == spec_dma_chcnt(dma_periph, *channelx) {
                    init_struct.number & DMA_CHXCNT_CNT
                } else if a == spec_dma_chctl(dma_periph, *channelx) {
                    spec_dma_ctl_after(
                        old(bank).reg(spec_dma_chctl(dma_periph, *channelx)),
                        *init_struct,
                    )
                } else {
                    old(bank).reg(a)
                }
            } else {
                old(bank).reg(a)
            },
{
    if dma_periph_and_channel_check(dma_periph, channelx).is_none() {
        return None;
    }
    bank.write32(dma_chpaddr(dma_periph, channelx), init_struct.periph_addr);
    bank.write32(dma_chmaddr(dma_periph, channelx), init_struct.memory_addr);
    bank.write32(dma_chcnt(dma_periph, channelx), init_struct.number & DMA_CHXCNT_CNT);

    let ctl_addr: u32 = dma_chctl(dma_periph, channelx);
    let ctl: u32 = bank.read32(ctl_addr);
    let ctl: u32 = ctl & !(DMA_CHXCTL_PWIDTH | DMA_CHXCTL_MWIDTH | DMA_CHXCTL_PRIO);
    let ctl: u32 = ctl | (init_struct.periph_width | init_struct.memory_width
        | init_struct.priority);
    bank.write32(ctl_addr, ctl);

    if init_struct.periph_inc == DMA_PERIPH_INCREASE_ENABLE {
        bank.set_bits(ctl_addr, DMA_CHXCTL_PNAGA);
    } else {
        bank.clear_bits(ctl_addr, DMA_CHXCTL_PNAGA);
    }
    if init_struct.memory_inc == DMA_MEMORY_INCREASE_ENABLE {
        bank.set_bits(ctl_addr, DMA_CHXCTL_MNAGA);
    } else {
        bank.clear_bits(ctl_addr, DMA_CHXCTL_MNAGA);
    }
    if init_struct.direction == DMA_PERIPHERAL_TO_MEMORY {
        bank.clear_bits(ctl_addr, DMA_CHXCTL_DIR);
    } else {
        bank.set_bits(ctl_addr, DMA_CHXCTL_DIR);
    }
    Some(())
}

/// Set the channel's flags in the shared flag register: the mask lands
/// four bits higher for each channel index.
pub fn dma_flag_clear(bank: &mut RegisterBank, dma_periph: u32, channelx: &DmaChannel, flag: u32)
    requires
        valid_dma_base(dma_periph),
    ensures
        forall|a: u32|
            #[trigger] final(bank).reg(a) == if a == spec_dma_intc(dma_periph) {
                old(bank).reg(spec_dma_intc(dma_periph)) | (flag << ((4 * spec_channel_num(
                    *channelx,
                )) as u32))
            } else {
                old(bank).reg(a)
            },
{
    let shifted: u32 = dma_flag_add(flag, dma_channel_number(channelx));
    bank.set_bits(dma_intc(dma_periph), shifted);
}

/// Turn on circular mode (the element count reloads when it reaches
/// zero). On an illegal controller/channel pair nothing is written.
pub fn dma_circulation_enable(bank: &mut RegisterBank, dma_periph: u32, channelx: &DmaChannel) -> (
    r: Option<()>)
    requires
        valid_dma_base(dma_periph),
    ensures
        r == if spec_channel_valid(dma_periph, *channelx) {
            Some(())
        } else {
            None::<()>
        },
        forall|a: u32|
            #[trigger] final(bank).reg(a) == if spec_channel_valid(dma_periph, *channelx) && a
                == spec_dma_chctl(dma_periph, *channelx) {
                old(bank).reg(spec_dma_chctl(dma_periph, *channelx)) | DMA_CHXCTL_CMEN
            } else {
                old(bank).reg(a)
            },
{
    if dma_periph_and_channel_check(dma_periph, channelx).is_none() {
        return None;
    }
    bank.set_bits(dma_chctl(dma_periph, channelx), DMA_CHXCTL_CMEN);
    Some(())
}

/// Start the channel: set its enable bit. On an illegal
/// controller/channel pair nothing is written.
pub fn dma_channel_enable(bank: &mut RegisterBank, dma_periph: u32, channelx: &DmaChannel) -> (r:
    Option<()>)
    requires
        valid_dma_base(dma_periph),
    ensures
        r == if spec_channel_valid(dma_periph, *channelx) {
            Some(())
        } else {
            None::<()>
        },
        forall|a: u32|
            #[trigger] final(bank).reg(a) == if spec_channel_valid(dma_periph, *channelx) && a
                == spec_dma_chctl(dma_periph, *channelx) {
                old(bank).reg(spec_dma_chctl(dma_periph, *channelx)) | DMA_CHXCTL_CHEN
            } else {
                old(bank).reg(a)
            },
{
    if dma_periph_and_channel_check(dma_periph, channelx).is_none() {
        return None;
    }
    bank.set_bits(dma_chctl(dma_periph, channelx), DMA_CHXCTL_CHEN);
    Some(())
}

} // verus!
