use periph_regs::dac::{
    dac_data_set, dac_enable, dac_software_trigger_enable, dac_trigger_enable, DAC0,
    DAC_ALIGN_12B_R,
};
use periph_regs::dma::{dma_channel_enable, dma_init, DmaChannel, DmaParameters, DMA0};
use periph_regs::regbank::RegisterBank;
use periph_regs::sim::{dac_trigger_step, dma_transfer_step};

#[test]
fn a_trigger_step_without_a_pending_strobe_changes_nothing() {
    let mut bank = RegisterBank::new();
    dac_enable(&mut bank, DAC0);
    dac_trigger_enable(&mut bank, DAC0);
    assert!(dac_data_set(&mut bank, DAC0, DAC_ALIGN_12B_R, 77).is_some());
    dac_trigger_step(&mut bank, DAC0);
    assert_eq!(bank.read32(0x4000_742c), 0, "no transfer without a strobe");
}

#[test]
fn a_strobe_on_a_disabled_channel_is_consumed_without_a_transfer() {
    let mut bank = RegisterBank::new();
    assert!(dac_data_set(&mut bank, DAC0, DAC_ALIGN_12B_R, 500).is_some());
    dac_software_trigger_enable(&mut bank, DAC0);
    dac_trigger_step(&mut bank, DAC0);
    assert_eq!(bank.read32(0x4000_7404), 0, "strobe consumed");
    assert_eq!(bank.read32(0x4000_742c), 0, "no transfer on a disabled channel");
}

#[test]
fn a_transferred_sample_is_clipped_to_twelve_bits() {
    let mut bank = RegisterBank::new();
    dac_enable(&mut bank, DAC0);
    dac_trigger_enable(&mut bank, DAC0);
    assert!(dac_data_set(&mut bank, DAC0, DAC_ALIGN_12B_R, 0xf123).is_some());
    dac_software_trigger_enable(&mut bank, DAC0);
    dac_trigger_step(&mut bank, DAC0);
    assert_eq!(bank.read32(0x4000_742c), 0x123);
}

#[test]
fn a_disabled_transfer_channel_does_not_count() {
    let mut bank = RegisterBank::new();
    let desc = DmaParameters {
        periph_addr: 0,
        periph_width: 0,
        memory_addr: 0,
        memory_width: 0,
        number: 4,
        priority: 0,
        periph_inc: 0,
        memory_inc: 0,
        direction: 0,
    };
    assert!(dma_init(&mut bank, DMA0, &DmaChannel::DmaCh1, &desc).is_some());
    dma_transfer_step(&mut bank, DMA0, &DmaChannel::DmaCh1, 4);
    assert_eq!(bank.read32(DMA0 + 0x14), 4, "count holds while the channel is off");
}

#[test]
fn a_non_circular_channel_stays_at_zero_after_the_last_element() {
    let mut bank = RegisterBank::new();
    let desc = DmaParameters {
        periph_addr: 0,
        periph_width: 0,
        memory_addr: 0,
        memory_width: 0,
        number: 1,
        priority: 0,
        periph_inc: 0,
        memory_inc: 0,
        direction: 0,
    };
    assert!(dma_init(&mut bank, DMA0, &DmaChannel::DmaCh0, &desc).is_some());
    assert!(dma_channel_enable(&mut bank, DMA0, &DmaChannel::DmaCh0).is_some());
    dma_transfer_step(&mut bank, DMA0, &DmaChannel::DmaCh0, 1);
    assert_eq!(bank.read32(DMA0), 0);
    dma_transfer_step(&mut bank, DMA0, &DmaChannel::DmaCh0, 1);
    assert_eq!(bank.read32(DMA0), 0);
}
