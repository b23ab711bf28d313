//! The numeric codes of signals, events, functions and drive strengths.

use gpio_hal::regs::{GPIO_OUT_SIGNAL, INPUT_SIGNAL_MAX, OUTPUT_SIGNAL_MAX};
use gpio_hal::types::{AlternateFunction, DriveStrength, Event, InputSignal, OutputSignal};

#[test]
fn input_signal_ids_split_matrix_and_dedicated() {
    assert_eq!(InputSignal::Uart0Cts.id(), 7);
    assert_eq!(InputSignal::Uart1Rxd.id(), 9);
    assert_eq!(InputSignal::Timer0Cap.id(), 33);
    assert_eq!(InputSignal::I2cSda.id(), 53);
    assert!(InputSignal::Uart0Rxd.id() > INPUT_SIGNAL_MAX);
    assert!(InputSignal::Spi2Clk.id() > INPUT_SIGNAL_MAX);
    assert!(InputSignal::Spi2Mosi.id() > INPUT_SIGNAL_MAX);
    assert!(InputSignal::Spi2Miso.id() > INPUT_SIGNAL_MAX);
}

#[test]
fn output_signal_ids_and_the_gpio_fallback() {
    assert_eq!(OutputSignal::Uart0Rts.id(), 10);
    assert_eq!(OutputSignal::Uart1Txd.id(), 11);
    assert_eq!(OutputSignal::Ledc0.id(), 45);
    // Plain GPIO drive sits exactly at the clamp bound, so clipping an
    // out-of-range id lands on "no peripheral".
    assert_eq!(OutputSignal::Gpio.id(), OUTPUT_SIGNAL_MAX);
    assert_eq!(OutputSignal::Gpio.id(), GPIO_OUT_SIGNAL);
    assert!(OutputSignal::Uart0Txd.id() > OUTPUT_SIGNAL_MAX);
}

#[test]
fn event_codes_match_the_hardware_encoding() {
    assert_eq!(Event::RisingEdge.code(), 1);
    assert_eq!(Event::FallingEdge.code(), 2);
    assert_eq!(Event::AnyEdge.code(), 3);
    assert_eq!(Event::LowLevel.code(), 4);
    assert_eq!(Event::HighLevel.code(), 5);
    assert!(Event::RisingEdge.is_edge());
    assert!(Event::FallingEdge.is_edge());
    assert!(Event::AnyEdge.is_edge());
    assert!(!Event::LowLevel.is_edge());
    assert!(!Event::HighLevel.is_edge());
}

#[test]
fn function_and_drive_codes_are_their_indices() {
    assert_eq!(AlternateFunction::Function0.code(), 0);
    assert_eq!(AlternateFunction::Function3.code(), 3);
    assert_eq!(AlternateFunction::Function5.code(), 5);
    assert_eq!(DriveStrength::I5mA.code(), 0);
    assert_eq!(DriveStrength::I10mA.code(), 1);
    assert_eq!(DriveStrength::I20mA.code(), 2);
    assert_eq!(DriveStrength::I40mA.code(), 3);
}
