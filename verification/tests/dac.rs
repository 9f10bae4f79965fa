use periph_regs::dac::{
    dac_bring_up, dac_data_set, dac_deinit, dac_disable, dac_dma_disable, dac_dma_enable,
    dac_enable, dac_output_buffer_disable, dac_output_buffer_enable, dac_output_value_get,
    dac_software_trigger_enable, dac_trigger_disable, dac_trigger_enable,
    dac_trigger_source_config, dac_wave_mode_config, DAC0, DAC1, DAC_ALIGN_12B_L, DAC_ALIGN_12B_R,
    DAC_ALIGN_8B_R, DAC_CTL, DAC_SWT, DAC_TRIGGER_SOFTWARE, DAC_WAVE_DISABLE,
};
use periph_regs::regbank::RegisterBank;

#[test]
fn enable_and_disable_toggle_one_bit_per_channel() {
    let mut bank = RegisterBank::new();
    dac_enable(&mut bank, DAC0);
    assert_eq!(bank.read32(DAC_CTL), 0x1);
    dac_enable(&mut bank, DAC1);
    assert_eq!(bank.read32(DAC_CTL), 0x1_0001);
    dac_disable(&mut bank, DAC0);
    assert_eq!(bank.read32(DAC_CTL), 0x1_0000);
    dac_disable(&mut bank, DAC1);
    assert_eq!(bank.read32(DAC_CTL), 0);
}

#[test]
fn an_unknown_channel_identifier_is_a_silent_no_op() {
    let mut bank = RegisterBank::new();
    dac_enable(&mut bank, 7);
    dac_trigger_enable(&mut bank, 2);
    dac_output_buffer_disable(&mut bank, 99);
    assert_eq!(bank.read32(DAC_CTL), 0);
    assert_eq!(dac_output_value_get(&bank, 3), 0);
}

#[test]
fn buffer_bit_sense_is_inverted() {
    let mut bank = RegisterBank::new();
    dac_output_buffer_disable(&mut bank, DAC0);
    assert_eq!(bank.read32(DAC_CTL), 0x2);
    dac_output_buffer_enable(&mut bank, DAC0);
    assert_eq!(bank.read32(DAC_CTL), 0);
}

#[test]
fn dma_request_enable_and_disable() {
    let mut bank = RegisterBank::new();
    dac_dma_enable(&mut bank, DAC1);
    assert_eq!(bank.read32(DAC_CTL), 0x1000_0000);
    dac_dma_disable(&mut bank, DAC1);
    assert_eq!(bank.read32(DAC_CTL), 0);
}

#[test]
fn trigger_enable_and_disable() {
    let mut bank = RegisterBank::new();
    dac_trigger_enable(&mut bank, DAC0);
    assert_eq!(bank.read32(DAC_CTL), 0x4);
    dac_trigger_disable(&mut bank, DAC0);
    assert_eq!(bank.read32(DAC_CTL), 0);
}

#[test]
fn trigger_source_rewrites_only_its_field() {
    let mut bank = RegisterBank::new();
    bank.write32(DAC_CTL, 0xffff_ffff);
    dac_trigger_source_config(&mut bank, DAC0, 0b101);
    assert_eq!(bank.read32(DAC_CTL), 0xffff_ffef);
    dac_trigger_source_config(&mut bank, DAC1, 0);
    assert_eq!(bank.read32(DAC_CTL), 0xffc7_ffef);
}

#[test]
fn wave_mode_rewrites_only_its_field() {
    let mut bank = RegisterBank::new();
    bank.write32(DAC_CTL, 0xffff_ffff);
    dac_wave_mode_config(&mut bank, DAC0, DAC_WAVE_DISABLE);
    assert_eq!(bank.read32(DAC_CTL), 0xffff_ff3f);
    dac_wave_mode_config(&mut bank, DAC1, 0b10);
    assert_eq!(bank.read32(DAC_CTL), 0xffbf_ff3f);
}

#[test]
fn data_set_routes_each_alignment_to_its_register() {
    let mut bank = RegisterBank::new();
    assert!(dac_data_set(&mut bank, DAC0, DAC_ALIGN_12B_R, 0x123).is_some());
    assert!(dac_data_set(&mut bank, DAC0, DAC_ALIGN_12B_L, 0x4560).is_some());
    assert!(dac_data_set(&mut bank, DAC0, DAC_ALIGN_8B_R, 0x78).is_some());
    assert_eq!(bank.read32(0x4000_7408), 0x123);
    assert_eq!(bank.read32(0x4000_740c), 0x4560);
    assert_eq!(bank.read32(0x4000_7410), 0x78);

    assert!(dac_data_set(&mut bank, DAC1, DAC_ALIGN_12B_R, 0xabc).is_some());
    assert!(dac_data_set(&mut bank, DAC1, DAC_ALIGN_12B_L, 0xdef0).is_some());
    assert!(dac_data_set(&mut bank, DAC1, DAC_ALIGN_8B_R, 0x9a).is_some());
    assert_eq!(bank.read32(0x4000_7414), 0xabc);
    assert_eq!(bank.read32(0x4000_7418), 0xdef0);
    assert_eq!(bank.read32(0x4000_741c), 0x9a);
}

#[test]
fn data_set_with_an_unsupported_alignment_aborts_without_writing() {
    let mut bank = RegisterBank::new();
    assert!(dac_data_set(&mut bank, DAC0, 3, 0xfff).is_none());
    assert!(dac_data_set(&mut bank, DAC1, 0xdead, 0xfff).is_none());
    // zero register writes happened: every data-holding register still
    // reads as it did before
    for offset in [0x8u32, 0xc, 0x10, 0x14, 0x18, 0x1c] {
        assert_eq!(bank.read32(0x4000_7400 + offset), 0);
    }
    assert_eq!(bank.read32(DAC_CTL), 0);
    assert_eq!(bank.read32(DAC_SWT), 0);
}

#[test]
fn software_trigger_writes_the_strobe_bit() {
    let mut bank = RegisterBank::new();
    dac_software_trigger_enable(&mut bank, DAC0);
    assert_eq!(bank.read32(DAC_SWT), 0x1);
    dac_software_trigger_enable(&mut bank, DAC1);
    assert_eq!(bank.read32(DAC_SWT), 0x2);
}

#[test]
fn output_value_get_reads_the_channel_output_register() {
    let mut bank = RegisterBank::new();
    bank.write32(0x4000_742c, 0x321);
    bank.write32(0x4000_7430, 0x654);
    assert_eq!(dac_output_value_get(&bank, DAC0), 0x321);
    assert_eq!(dac_output_value_get(&bank, DAC1), 0x654);
}

#[test]
fn deinit_pulses_the_reset_line() {
    let mut bank = RegisterBank::new();
    bank.write32(0x4002_1010, 0xffff_ffff);
    dac_deinit(&mut bank);
    assert_eq!(bank.read32(0x4002_1010), 0xdfff_ffff);
    // nothing of the converter's own block is written by the pulse
    assert_eq!(bank.read32(DAC_CTL), 0);
}

#[test]
fn bring_up_leaves_the_documented_field_values() {
    let mut bank = RegisterBank::new();
    bank.write32(DAC_CTL, 0xffff_0000); // channel-1 bits must survive untouched
    dac_bring_up(&mut bank, DAC0, DAC_TRIGGER_SOFTWARE, false);
    let ctl = bank.read32(DAC_CTL);
    assert_eq!(ctl & 0x1, 0x1, "converter enabled");
    assert_eq!(ctl & 0x2, 0, "output buffer enabled (inverted bit clear)");
    assert_eq!(ctl & 0x4, 0x4, "trigger enabled");
    assert_eq!((ctl >> 3) & 7, 7, "trigger source is the software code");
    assert_eq!((ctl >> 6) & 3, 0, "wave generation disabled");
    assert_eq!(ctl & 0x1000, 0, "transfer requests stay off unless asked for");
    assert_eq!(ctl & 0xffff_0000, 0xffff_0000, "other channel untouched");
}

#[test]
fn bring_up_can_enable_transfer_requests() {
    let mut bank = RegisterBank::new();
    dac_bring_up(&mut bank, DAC1, 0, true);
    let ctl = bank.read32(DAC_CTL);
    assert_eq!(ctl & 0x1_0000, 0x1_0000);
    assert_eq!(ctl & 0x2_0000, 0);
    assert_eq!(ctl & 0x4_0000, 0x4_0000);
    assert_eq!((ctl >> 19) & 7, 0);
    assert_eq!((ctl >> 22) & 3, 0);
    assert_eq!(ctl & 0x1000_0000, 0x1000_0000);
    assert_eq!(ctl & 0xffff, 0, "channel zero untouched");
}
