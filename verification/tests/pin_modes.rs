//! Mode transitions: register programming, idempotence, and output levels.

use gpio_hal::io::IO;
use gpio_hal::pin::{InputPin, OutputPin, Pin};
use gpio_hal::regs::{RegisterFile, GPIO_OUT_SIGNAL};
use gpio_hal::types::DriveStrength;

#[test]
fn reset_state_matches_power_on_documentation() {
    let regs = RegisterFile::new();
    assert_eq!(regs.bank_read_out_en(0), 0);
    assert_eq!(regs.bank_read_out_en(1), 0);
    assert_eq!(regs.bank_read_output(0), 0);
    assert_eq!(regs.bank_read_input(1), 0);
    assert_eq!(regs.out_sel_cfg(0).out_sel, GPIO_OUT_SIGNAL);
    assert!(!regs.in_sel_cfg(7).sel);
    assert_eq!(regs.io_mux_cfg(0).fun_drv, 2);
    assert!(!regs.io_mux_cfg(0).fun_ie);
    assert_eq!(regs.pin_cfg(0).int_ena, 0);
    assert!(!regs.rtc_cfg(25).mux_sel);
}

#[test]
fn floating_input_programs_documented_fields() {
    let mut regs = RegisterFile::new();
    let io = IO::new();
    let pin = io.pins.gpio4.into_floating_input(&mut regs);
    assert_eq!(pin.number(), 4);
    let mux = regs.io_mux_cfg(4);
    assert_eq!(mux.mcu_sel, 0);
    assert!(mux.fun_ie);
    assert!(!mux.fun_wpd);
    assert!(!mux.fun_wpu);
    assert!(!mux.slp_sel);
    assert_eq!(regs.bank_read_out_en(0) & (1 << 4), 0);
    assert_eq!(regs.out_sel_cfg(4).out_sel, GPIO_OUT_SIGNAL);
}

#[test]
fn pull_transitions_leave_no_stale_pull() {
    let mut regs = RegisterFile::new();
    let io = IO::new();
    let pin = io.pins.gpio4.into_pull_up_input(&mut regs);
    assert!(regs.io_mux_cfg(4).fun_wpu);
    assert!(!regs.io_mux_cfg(4).fun_wpd);
    let pin = pin.into_pull_down_input(&mut regs);
    // The opposite pull from the previous mode must not stay asserted.
    assert!(!regs.io_mux_cfg(4).fun_wpu);
    assert!(regs.io_mux_cfg(4).fun_wpd);
    let _ = pin.into_floating_input(&mut regs);
    assert!(!regs.io_mux_cfg(4).fun_wpu);
    assert!(!regs.io_mux_cfg(4).fun_wpd);
}

#[test]
fn erratum_pins_program_rtc_domain_pulls() {
    let mut regs = RegisterFile::new();
    let io = IO::new();
    let _ = io.pins.gpio26.into_pull_up_input(&mut regs);
    assert!(regs.rtc_cfg(26).rue);
    assert!(!regs.rtc_cfg(26).rde);
    // A pin outside the erratum set leaves the RTC domain alone.
    let _ = io.pins.gpio4.into_pull_up_input(&mut regs);
    assert!(!regs.rtc_cfg(4).rue);
    assert!(!regs.rtc_cfg(4).rde);
}

#[test]
fn repeated_input_transition_is_idempotent() {
    let mut regs = RegisterFile::new();
    let io = IO::new();
    let pin = io.pins.gpio9.into_pull_down_input(&mut regs);
    let mux_once = regs.io_mux_cfg(9);
    let out_sel_once = regs.out_sel_cfg(9);
    let out_en_once = regs.bank_read_out_en(0);
    let pin_once = regs.pin_cfg(9);
    let _ = pin.into_pull_down_input(&mut regs);
    assert_eq!(regs.io_mux_cfg(9), mux_once);
    assert_eq!(regs.out_sel_cfg(9), out_sel_once);
    assert_eq!(regs.bank_read_out_en(0), out_en_once);
    assert_eq!(regs.pin_cfg(9), pin_once);
}

#[test]
fn repeated_output_transition_is_idempotent() {
    let mut regs = RegisterFile::new();
    let io = IO::new();
    let pin = io.pins.gpio10.into_open_drain_output(&mut regs);
    let mux_once = regs.io_mux_cfg(10);
    let out_sel_once = regs.out_sel_cfg(10);
    let out_en_once = regs.bank_read_out_en(0);
    let pin_once = regs.pin_cfg(10);
    let _ = pin.into_open_drain_output(&mut regs);
    assert_eq!(regs.io_mux_cfg(10), mux_once);
    assert_eq!(regs.out_sel_cfg(10), out_sel_once);
    assert_eq!(regs.bank_read_out_en(0), out_en_once);
    assert_eq!(regs.pin_cfg(10), pin_once);
}

#[test]
fn push_pull_output_programs_documented_fields() {
    let mut regs = RegisterFile::new();
    let io = IO::new();
    let _ = io.pins.gpio5.into_push_pull_output(&mut regs);
    let mux = regs.io_mux_cfg(5);
    assert_eq!(mux.mcu_sel, 0);
    assert!(!mux.fun_ie);
    assert!(!mux.fun_wpd);
    assert!(!mux.fun_wpu);
    assert_eq!(mux.fun_drv, 2);
    assert!(!mux.slp_sel);
    assert_ne!(regs.bank_read_out_en(0) & (1 << 5), 0);
    assert!(!regs.pin_cfg(5).pad_driver);
    assert_eq!(regs.out_sel_cfg(5).out_sel, GPIO_OUT_SIGNAL);
}

#[test]
fn open_drain_output_keeps_input_buffer_on() {
    let mut regs = RegisterFile::new();
    let io = IO::new();
    let _ = io.pins.gpio6.into_open_drain_output(&mut regs);
    assert!(regs.pin_cfg(6).pad_driver);
    assert!(regs.io_mux_cfg(6).fun_ie);
}

#[test]
fn alternate_transitions_program_their_codes() {
    let mut regs = RegisterFile::new();
    let io = IO::new();
    let _ = io.pins.gpio7.into_alternate_1(&mut regs);
    assert_eq!(regs.io_mux_cfg(7).mcu_sel, 1);
    let _ = io.pins.gpio8.into_alternate_2(&mut regs);
    assert_eq!(regs.io_mux_cfg(8).mcu_sel, 2);
}

#[test]
fn output_scenario_set_query_toggle() {
    let mut regs = RegisterFile::new();
    let io = IO::new();
    let pin = io.pins.gpio5.into_push_pull_output(&mut regs);
    pin.set_high(&mut regs);
    assert!(pin.is_set_high(&regs));
    pin.set_low(&mut regs);
    assert!(!pin.is_set_high(&regs));
    assert!(pin.is_set_low(&regs));
    pin.toggle(&mut regs);
    assert!(pin.is_set_high(&regs));
    pin.toggle(&mut regs);
    assert!(!pin.is_set_high(&regs));
}

#[test]
fn input_level_follows_the_driven_word() {
    let mut regs = RegisterFile::new();
    let io = IO::new();
    let pin = io.pins.gpio11.into_floating_input(&mut regs);
    assert!(!pin.is_high(&regs));
    regs.drive_input_word(0, 1 << 11);
    assert!(pin.is_high(&regs));
    assert!(!pin.is_low(&regs));
    regs.drive_input_word(0, 0);
    assert!(pin.is_low(&regs));
}

#[test]
fn open_drain_pad_is_readable_while_driven() {
    let mut regs = RegisterFile::new();
    let io = IO::new();
    let pin = io.pins.gpio15.into_open_drain_output(&mut regs);
    pin.set_high(&mut regs);
    regs.drive_input_word(0, 1 << 15);
    assert!(pin.is_high(&regs));
    regs.drive_input_word(0, 0);
    assert!(pin.is_low(&regs));
}

#[test]
fn second_bank_pins_use_their_own_words() {
    let mut regs = RegisterFile::new();
    let io = IO::new();
    let pin = io.pins.gpio33.into_push_pull_output(&mut regs);
    assert_eq!(regs.bank_read_out_en(0), 0);
    assert_eq!(regs.bank_read_out_en(1), 1 << 1);
    pin.set_high(&mut regs);
    assert_eq!(regs.bank_read_output(0), 0);
    assert_eq!(regs.bank_read_output(1), 1 << 1);
    let input = io.pins.gpio39.into_floating_input(&mut regs);
    regs.drive_input_word(1, 1 << 7);
    assert!(input.is_high(&regs));
}

#[test]
fn analog_transition_hands_the_pad_over() {
    let mut regs = RegisterFile::new();
    let io = IO::new();
    let pin = io.pins.gpio25.into_analog(&mut regs);
    assert_eq!(pin.number(), 25);
    let mux = regs.io_mux_cfg(25);
    assert!(!mux.fun_ie);
    assert!(!mux.fun_wpd);
    assert!(!mux.fun_wpu);
    assert_eq!(mux.mcu_sel, 0);
    assert_eq!(regs.bank_read_out_en(0) & (1 << 25), 0);
    assert!(!regs.pin_cfg(25).pad_driver);
    let rtc = regs.rtc_cfg(25);
    assert!(rtc.mux_sel);
    assert!(!rtc.rue);
    assert!(!rtc.rde);
    assert!(regs.iomux_clk_gate());
}

#[test]
fn output_pin_auxiliary_controls_program_their_fields() {
    let mut regs = RegisterFile::new();
    let io = IO::new();
    let pin = io.pins.gpio17.into_push_pull_output(&mut regs);
    pin.set_drive_strength(&mut regs, DriveStrength::I40mA);
    assert_eq!(regs.io_mux_cfg(17).fun_drv, 3);
    pin.set_drive_strength(&mut regs, DriveStrength::I5mA);
    assert_eq!(regs.io_mux_cfg(17).fun_drv, 0);
    pin.enable_open_drain(&mut regs, true);
    assert!(regs.pin_cfg(17).pad_driver);
    pin.enable_output(&mut regs, false);
    assert_eq!(regs.bank_read_out_en(0) & (1 << 17), 0);
    pin.enable_output(&mut regs, true);
    assert_ne!(regs.bank_read_out_en(0) & (1 << 17), 0);
    pin.set_output_high(&mut regs, true);
    assert_ne!(regs.bank_read_output(0) & (1 << 17), 0);
    pin.internal_pull_up(&mut regs, true);
    assert!(regs.io_mux_cfg(17).fun_wpu);
    pin.internal_pull_down(&mut regs, true);
    assert!(regs.io_mux_cfg(17).fun_wpd);
    pin.internal_pull_up_in_sleep_mode(&mut regs, true);
    assert!(regs.io_mux_cfg(17).mcu_wpu);
    pin.internal_pull_down_in_sleep_mode(&mut regs, true);
    assert!(regs.io_mux_cfg(17).mcu_wpd);
    pin.enable_output_in_sleep_mode(&mut regs, true);
    assert!(regs.io_mux_cfg(17).mcu_oe);
    pin.sleep_mode(&mut regs, true);
    assert!(regs.io_mux_cfg(17).slp_sel);
}

#[test]
fn input_pin_auxiliary_controls_program_their_fields() {
    let mut regs = RegisterFile::new();
    let io = IO::new();
    let pin = io.pins.gpio18.into_floating_input(&mut regs);
    pin.enable_input(&mut regs, false);
    assert!(!regs.io_mux_cfg(18).fun_ie);
    pin.enable_input(&mut regs, true);
    assert!(regs.io_mux_cfg(18).fun_ie);
    pin.enable_input_in_sleep_mode(&mut regs, true);
    assert!(regs.io_mux_cfg(18).mcu_ie);
    pin.set_to_input(&mut regs);
    assert!(regs.io_mux_cfg(18).fun_ie);
    assert!(!regs.io_mux_cfg(18).fun_wpu);
}

#[test]
fn set_alternate_function_programs_only_the_select_field() {
    let mut regs = RegisterFile::new();
    let io = IO::new();
    let pin = io.pins.gpio23.into_floating_input(&mut regs);
    let before = regs.io_mux_cfg(23);
    pin.set_alternate_function(&mut regs, gpio_hal::types::AlternateFunction::Function4);
    let after = regs.io_mux_cfg(23);
    assert_eq!(after.mcu_sel, 4);
    assert_eq!(after.fun_ie, before.fun_ie);
    assert_eq!(after.fun_drv, before.fun_drv);
}
