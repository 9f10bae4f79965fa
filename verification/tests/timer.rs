use periph_regs::regbank::RegisterBank;
use periph_regs::timer::{
    timer_autoreload_value_config, timer_enable, timer_master_output_trigger_source_select,
    timer_prescaler_config, TIMER5, TIMER_PSC_RELOAD_NOW, TIMER_PSC_RELOAD_UPDATE,
    TIMER_TRI_OUT_SRC_UPDATE,
};

#[test]
fn prescaler_write_with_immediate_reload_strobes_the_update_bit() {
    let mut bank = RegisterBank::new();
    timer_prescaler_config(&mut bank, TIMER5, 107, TIMER_PSC_RELOAD_NOW);
    assert_eq!(bank.read32(TIMER5 + 0x28), 107);
    assert_eq!(bank.read32(TIMER5 + 0x14), 0x1);
}

#[test]
fn prescaler_write_without_immediate_reload_leaves_the_event_register() {
    let mut bank = RegisterBank::new();
    timer_prescaler_config(&mut bank, TIMER5, 9999, TIMER_PSC_RELOAD_UPDATE);
    assert_eq!(bank.read32(TIMER5 + 0x28), 9999);
    assert_eq!(bank.read32(TIMER5 + 0x14), 0);
}

#[test]
fn autoreload_value_lands_in_the_period_register() {
    let mut bank = RegisterBank::new();
    timer_autoreload_value_config(&mut bank, TIMER5, 0x2bf2);
    assert_eq!(bank.read32(TIMER5 + 0x2c), 0x2bf2);
}

#[test]
fn trigger_output_source_select_rewrites_only_its_field() {
    let mut bank = RegisterBank::new();
    bank.write32(TIMER5 + 0x04, 0xff);
    timer_master_output_trigger_source_select(&mut bank, TIMER5, TIMER_TRI_OUT_SRC_UPDATE);
    assert_eq!(bank.read32(TIMER5 + 0x04), (0xff & !0x70) | 0x20);
}

#[test]
fn enable_sets_the_counter_enable_bit() {
    let mut bank = RegisterBank::new();
    bank.write32(TIMER5, 0x80);
    timer_enable(&mut bank, TIMER5);
    assert_eq!(bank.read32(TIMER5), 0x81);
}
