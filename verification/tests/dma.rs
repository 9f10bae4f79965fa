use periph_regs::dma::{
    dma_channel_enable, dma_channel_number, dma_circulation_enable, dma_flag_clear, dma_init,
    dma_periph_and_channel_check, DmaChannel, DmaParameters, DMA0, DMA1, DMA_INTF_FTFIF,
    DMA_INTF_GIF, DMA_MEMORY_INCREASE_ENABLE, DMA_MEMORY_TO_PERIPHERAL, DMA_MEMORY_WIDTH_8BIT,
    DMA_PERIPHERAL_WIDTH_8BIT, DMA_PERIPH_INCREASE_DISABLE, DMA_PRIORITY_ULTRA_HIGH,
};
use periph_regs::regbank::RegisterBank;

fn sample_descriptor() -> DmaParameters {
    DmaParameters {
        periph_addr: 0x4000_7408,
        periph_width: DMA_PERIPHERAL_WIDTH_8BIT,
        memory_addr: 0x2000_0100,
        memory_width: DMA_MEMORY_WIDTH_8BIT,
        number: 10,
        priority: DMA_PRIORITY_ULTRA_HIGH,
        periph_inc: DMA_PERIPH_INCREASE_DISABLE,
        memory_inc: DMA_MEMORY_INCREASE_ENABLE,
        direction: DMA_MEMORY_TO_PERIPHERAL,
    }
}

#[test]
fn the_restricted_instance_rejects_channels_five_and_six() {
    assert!(dma_periph_and_channel_check(DMA1, &DmaChannel::DmaCh0).is_some());
    assert!(dma_periph_and_channel_check(DMA1, &DmaChannel::DmaCh4).is_some());
    assert!(dma_periph_and_channel_check(DMA1, &DmaChannel::DmaCh5).is_none());
    assert!(dma_periph_and_channel_check(DMA1, &DmaChannel::DmaCh6).is_none());
    assert!(dma_periph_and_channel_check(DMA0, &DmaChannel::DmaCh5).is_some());
    assert!(dma_periph_and_channel_check(DMA0, &DmaChannel::DmaCh6).is_some());
}

#[test]
fn init_on_a_rejected_pair_writes_nothing() {
    let mut bank = RegisterBank::new();
    let desc = sample_descriptor();
    assert!(dma_init(&mut bank, DMA1, &DmaChannel::DmaCh6, &desc).is_none());
    // the whole channel-register neighbourhood still reads zero
    for offset in 0x0u32..0xa0 {
        assert_eq!(bank.read32(DMA1 + 4 * offset), 0);
    }
    assert!(dma_circulation_enable(&mut bank, DMA1, &DmaChannel::DmaCh5).is_none());
    assert!(dma_channel_enable(&mut bank, DMA1, &DmaChannel::DmaCh5).is_none());
    assert_eq!(bank.read32(DMA1 + 0x08 + 0x14 * 5), 0);
}

#[test]
fn init_programs_the_channel_register_group() {
    let mut bank = RegisterBank::new();
    let desc = sample_descriptor();
    assert!(dma_init(&mut bank, DMA1, &DmaChannel::DmaCh2, &desc).is_some());

    let stride = 0x14 * 2;
    assert_eq!(bank.read32(DMA1 + 0x10 + stride), 0x4000_7408, "peripheral address");
    assert_eq!(bank.read32(DMA1 + 0x14 + stride), 0x2000_0100, "memory address");
    assert_eq!(bank.read32(DMA1 + stride), 10, "element count");
    // widths 0, ultra-high priority, memory increment, memory-to-peripheral
    assert_eq!(bank.read32(DMA1 + 0x08 + stride), 0x3000 | 0x80 | 0x10, "control");
}

#[test]
fn init_masks_the_element_count_to_its_field() {
    let mut bank = RegisterBank::new();
    let mut desc = sample_descriptor();
    desc.number = 0x12_3456;
    assert!(dma_init(&mut bank, DMA0, &DmaChannel::DmaCh6, &desc).is_some());
    assert_eq!(bank.read32(DMA0 + 0x14 * 6), 0x3456);
}

#[test]
fn init_clears_the_width_and_priority_fields_before_rewriting() {
    let mut bank = RegisterBank::new();
    let ctl_addr = DMA1 + 0x08;
    bank.write32(ctl_addr, 0xffff_ffff);
    let desc = sample_descriptor();
    assert!(dma_init(&mut bank, DMA1, &DmaChannel::DmaCh0, &desc).is_some());
    let ctl = bank.read32(ctl_addr);
    assert_eq!(ctl & 0x3f00, 0x3000, "widths cleared, priority rewritten");
    assert_eq!(ctl & 0x40, 0, "peripheral increment cleared");
    assert_eq!(ctl & 0x80, 0x80, "memory increment set");
    assert_eq!(ctl & 0x10, 0x10, "direction set to memory-to-peripheral");
    assert_eq!(ctl & 0xffff_c000, 0xffff_c000, "bits above the fields kept");
}

#[test]
fn channel_numbers_match_their_register_stride_order() {
    assert_eq!(dma_channel_number(&DmaChannel::DmaCh0), 0);
    assert_eq!(dma_channel_number(&DmaChannel::DmaCh3), 3);
    assert_eq!(dma_channel_number(&DmaChannel::DmaCh6), 6);
}

#[test]
fn flag_clear_shifts_the_mask_by_four_bits_per_channel() {
    let mut bank = RegisterBank::new();
    let flag_mask = DMA_INTF_GIF | DMA_INTF_FTFIF; // M = 0b0011
    dma_flag_clear(&mut bank, DMA1, &DmaChannel::DmaCh2, flag_mask);
    // channel 2: exactly the bits M << 8 appear in the shared register
    assert_eq!(bank.read32(DMA1 + 0x4), flag_mask << 8);

    dma_flag_clear(&mut bank, DMA1, &DmaChannel::DmaCh0, DMA_INTF_GIF);
    assert_eq!(bank.read32(DMA1 + 0x4), (flag_mask << 8) | DMA_INTF_GIF);
}

#[test]
fn circulation_and_channel_enable_set_their_bits_in_order() {
    let mut bank = RegisterBank::new();
    let ctl_addr = DMA1 + 0x08 + 0x14 * 3;
    assert!(dma_circulation_enable(&mut bank, DMA1, &DmaChannel::DmaCh3).is_some());
    assert_eq!(bank.read32(ctl_addr), 0x20);
    assert!(dma_channel_enable(&mut bank, DMA1, &DmaChannel::DmaCh3).is_some());
    assert_eq!(bank.read32(ctl_addr), 0x22);
}
