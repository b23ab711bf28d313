//! Signal routing: dedicated slots, the crossbar matrix, clamping,
//! disconnection, and the constant-level bindings.

use gpio_hal::io::IO;
use gpio_hal::pin::{connect_high_to_peripheral, connect_low_to_peripheral, InputPin, OutputPin};
use gpio_hal::regs::{RegisterFile, GPIO_OUT_SIGNAL, ONE_INPUT, ZERO_INPUT};
use gpio_hal::types::{InputSignal, OutputSignal};
use gpio_hal::GpioError;

#[test]
fn dedicated_input_slot_wins_and_matrix_is_untouched() {
    let mut regs = RegisterFile::new();
    let io = IO::new();
    let pin = io.pins.gpio3.into_floating_input(&mut regs);
    let before_cts = regs.in_sel_cfg(7);
    let before_last = regs.in_sel_cfg(100);
    let r = pin.connect_input_to_peripheral(&mut regs, InputSignal::Uart0Rxd);
    assert!(r.is_ok());
    // The table lists the receive line at slot 2: function select reads 2.
    assert_eq!(regs.io_mux_cfg(3).mcu_sel, 2);
    // No crossbar entry was written.
    assert_eq!(regs.in_sel_cfg(7), before_cts);
    assert_eq!(regs.in_sel_cfg(100), before_last);
    assert!(!regs.in_sel_cfg(7).sel);
}

#[test]
fn matrix_input_connection_writes_the_signal_entry() {
    let mut regs = RegisterFile::new();
    let io = IO::new();
    let pin = io.pins.gpio5.into_floating_input(&mut regs);
    let r = pin.connect_input_to_peripheral(&mut regs, InputSignal::Uart0Cts);
    assert!(r.is_ok());
    assert_eq!(regs.io_mux_cfg(5).mcu_sel, 0);
    let entry = regs.in_sel_cfg(7);
    assert!(entry.sel);
    assert!(!entry.in_inv_sel);
    assert_eq!(entry.in_sel, 5);
}

#[test]
fn forced_matrix_connection_ignores_the_dedicated_slot() {
    let mut regs = RegisterFile::new();
    let io = IO::new();
    let pin = io.pins.gpio6.into_floating_input(&mut regs);
    let r = pin.connect_input_to_peripheral_with_options(&mut regs, InputSignal::Uart1Rxd, true, true);
    assert!(r.is_ok());
    assert_eq!(regs.io_mux_cfg(6).mcu_sel, 0);
    let entry = regs.in_sel_cfg(9);
    assert!(entry.sel);
    assert!(entry.in_inv_sel);
    assert_eq!(entry.in_sel, 6);
}

#[test]
fn unroutable_input_signal_aborts_without_writing() {
    let mut regs = RegisterFile::new();
    let io = IO::new();
    let pin = io.pins.gpio5.into_floating_input(&mut regs);
    let mux_before = regs.io_mux_cfg(5);
    // The SPI clock has dedicated slots only, and none on this pin.
    let r = pin.connect_input_to_peripheral(&mut regs, InputSignal::Spi2Clk);
    assert_eq!(r, Err(GpioError::UnroutableInputSignal));
    assert_eq!(regs.io_mux_cfg(5), mux_before);
    // Forcing the matrix cannot help a signal the matrix cannot address.
    let r = pin.connect_input_to_peripheral_with_options(&mut regs, InputSignal::Spi2Clk, false, true);
    assert_eq!(r, Err(GpioError::UnroutableInputSignal));
    assert_eq!(regs.io_mux_cfg(5), mux_before);
}

#[test]
fn disconnect_then_reconnect_leaves_no_residue() {
    let mut regs = RegisterFile::new();
    let io = IO::new();
    let pin = io.pins.gpio7.into_floating_input(&mut regs);
    let r = pin.connect_input_to_peripheral_with_options(&mut regs, InputSignal::Uart0Cts, true, false);
    assert!(r.is_ok());
    assert!(regs.in_sel_cfg(7).sel);
    pin.disconnect_input_from_peripheral(&mut regs, InputSignal::Uart0Cts);
    assert!(!regs.in_sel_cfg(7).sel);
    assert_eq!(regs.io_mux_cfg(7).mcu_sel, 0);
    let r = pin.connect_input_to_peripheral(&mut regs, InputSignal::I2cSda);
    assert!(r.is_ok());
    // The new signal's entry carries only the new connection's flags.
    let entry = regs.in_sel_cfg(53);
    assert!(entry.sel);
    assert!(!entry.in_inv_sel);
    assert_eq!(entry.in_sel, 7);
    // The old signal's matrix path stays released.
    assert!(!regs.in_sel_cfg(7).sel);
}

#[test]
fn disconnect_input_spares_other_pins_on_the_same_signal() {
    let mut regs = RegisterFile::new();
    let io = IO::new();
    let a = io.pins.gpio19.into_floating_input(&mut regs);
    let b = io.pins.gpio20.into_floating_input(&mut regs);
    assert!(a.connect_input_to_peripheral(&mut regs, InputSignal::Uart0Cts).is_ok());
    assert!(b.connect_input_to_peripheral(&mut regs, InputSignal::Uart1Rxd).is_ok());
    a.disconnect_input_from_peripheral(&mut regs, InputSignal::Uart0Cts);
    // The other signal's entry, reached through another pin, is intact.
    let entry = regs.in_sel_cfg(9);
    assert!(entry.sel);
    assert_eq!(entry.in_sel, 20);
}

#[test]
fn matrix_output_connection_writes_the_pin_selector() {
    let mut regs = RegisterFile::new();
    let io = IO::new();
    let pin = io.pins.gpio5.into_push_pull_output(&mut regs);
    pin.connect_peripheral_to_output(&mut regs, OutputSignal::Uart1Txd);
    let sel = regs.out_sel_cfg(5);
    assert_eq!(sel.out_sel, 11);
    assert!(!sel.inv_sel);
    assert!(!sel.oen_sel);
    assert!(!sel.oen_inv_sel);
    assert_eq!(regs.io_mux_cfg(5).mcu_sel, 0);
}

#[test]
fn out_of_range_output_id_clamps_to_plain_gpio() {
    let mut regs = RegisterFile::new();
    let io = IO::new();
    let pin = io.pins.gpio5.into_push_pull_output(&mut regs);
    // The first UART's transmit line has no slot on this pin and no matrix
    // entry: it degrades to plain GPIO drive instead of failing.
    pin.connect_peripheral_to_output(&mut regs, OutputSignal::Uart0Txd);
    assert_eq!(regs.out_sel_cfg(5).out_sel, GPIO_OUT_SIGNAL);
}

#[test]
fn dedicated_output_slot_programs_its_function_code() {
    let mut regs = RegisterFile::new();
    let io = IO::new();
    let pin = io.pins.gpio1.into_push_pull_output(&mut regs);
    pin.connect_peripheral_to_output(&mut regs, OutputSignal::Uart0Txd);
    assert_eq!(regs.io_mux_cfg(1).mcu_sel, 2);
    let pin14 = io.pins.gpio14.into_push_pull_output(&mut regs);
    pin14.connect_peripheral_to_output(&mut regs, OutputSignal::Spi2Clk);
    assert_eq!(regs.io_mux_cfg(14).mcu_sel, 1);
}

#[test]
fn output_connection_flags_are_written_together() {
    let mut regs = RegisterFile::new();
    let io = IO::new();
    let pin = io.pins.gpio21.into_push_pull_output(&mut regs);
    pin.connect_peripheral_to_output_with_options(
        &mut regs,
        OutputSignal::Ledc0,
        true,
        true,
        true,
        false,
    );
    let sel = regs.out_sel_cfg(21);
    assert_eq!(sel.out_sel, 45);
    assert!(sel.inv_sel);
    assert!(sel.oen_inv_sel);
    assert!(sel.oen_sel);
}

#[test]
fn disconnect_output_rebinds_to_plain_gpio() {
    let mut regs = RegisterFile::new();
    let io = IO::new();
    let pin = io.pins.gpio22.into_push_pull_output(&mut regs);
    pin.connect_peripheral_to_output(&mut regs, OutputSignal::Uart0Rts);
    assert_eq!(regs.out_sel_cfg(22).out_sel, 10);
    pin.disconnect_peripheral_from_output(&mut regs);
    assert_eq!(regs.out_sel_cfg(22).out_sel, GPIO_OUT_SIGNAL);
    assert_eq!(regs.io_mux_cfg(22).mcu_sel, 0);
}

#[test]
fn constant_levels_bypass_every_pin() {
    let mut regs = RegisterFile::new();
    connect_low_to_peripheral(&mut regs, InputSignal::Uart0Cts);
    let entry = regs.in_sel_cfg(7);
    assert!(entry.sel);
    assert!(!entry.in_inv_sel);
    assert_eq!(entry.in_sel, ZERO_INPUT);
    connect_high_to_peripheral(&mut regs, InputSignal::Uart1Rxd);
    let entry = regs.in_sel_cfg(9);
    assert!(entry.sel);
    assert_eq!(entry.in_sel, ONE_INPUT);
}
