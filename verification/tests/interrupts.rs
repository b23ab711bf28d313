//! The interrupt sub-state-machine and the per-core status access.

use gpio_hal::interrupt::{
    DualCoreInteruptStatusRegisterAccess,
    InteruptStatusRegisterAccess,
    SingleCoreInteruptStatusRegisterAccess,
};
use gpio_hal::io::IO;
use gpio_hal::pin::Pin;
use gpio_hal::regs::RegisterFile;
use gpio_hal::types::{gpio_intr_enable, Event};
use gpio_hal::GpioError;

#[test]
fn listen_programs_enable_and_event_type() {
    let mut regs = RegisterFile::new();
    let io = IO::new();
    let pin = io.pins.gpio12.into_floating_input(&mut regs);
    pin.listen(&mut regs, Event::HighLevel);
    let cfg = regs.pin_cfg(12);
    assert_eq!(cfg.int_ena, 1);
    assert_eq!(cfg.int_type, 5);
    assert!(!cfg.wakeup_enable);
}

#[test]
fn listen_with_options_records_every_field() {
    let mut regs = RegisterFile::new();
    let io = IO::new();
    let pin = io.pins.gpio13.into_floating_input(&mut regs);
    let r = pin.listen_with_options(&mut regs, Event::LowLevel, true, true, true);
    assert!(r.is_ok());
    let cfg = regs.pin_cfg(13);
    assert_eq!(cfg.int_ena, 3);
    assert_eq!(cfg.int_type, 4);
    assert!(cfg.wakeup_enable);
}

#[test]
fn wake_from_sleep_with_edge_event_aborts_untouched() {
    let mut regs = RegisterFile::new();
    let io = IO::new();
    let pin = io.pins.gpio12.into_floating_input(&mut regs);
    let before = regs.pin_cfg(12);
    let r = pin.listen_with_options(&mut regs, Event::RisingEdge, true, false, true);
    assert_eq!(r, Err(GpioError::InvalidInterruptConfig));
    assert_eq!(regs.pin_cfg(12), before);
    let r = pin.listen_with_options(&mut regs, Event::FallingEdge, true, false, true);
    assert_eq!(r, Err(GpioError::InvalidInterruptConfig));
    let r = pin.listen_with_options(&mut regs, Event::AnyEdge, true, false, true);
    assert_eq!(r, Err(GpioError::InvalidInterruptConfig));
    assert_eq!(regs.pin_cfg(12), before);
    // Level events may wake the core: the same request goes through.
    let r = pin.listen_with_options(&mut regs, Event::HighLevel, true, false, true);
    assert!(r.is_ok());
    assert!(regs.pin_cfg(12).wakeup_enable);
}

#[test]
fn unlisten_clears_enable_and_event_but_not_the_latch() {
    let mut regs = RegisterFile::new();
    let io = IO::new();
    let pin = io.pins.gpio14.into_floating_input(&mut regs);
    pin.listen(&mut regs, Event::LowLevel);
    regs.latch_interrupt_status(0, 1 << 14, 0);
    pin.unlisten(&mut regs);
    let cfg = regs.pin_cfg(14);
    assert_eq!(cfg.int_ena, 0);
    assert_eq!(cfg.int_type, 0);
    // Disabling future interrupts does not clear the latched status.
    assert!(pin.is_pcore_interrupt_set(&regs));
}

#[test]
fn clear_interrupt_clears_only_this_pins_bit() {
    let mut regs = RegisterFile::new();
    let io = IO::new();
    let pin = io.pins.gpio16.into_floating_input(&mut regs);
    regs.latch_interrupt_status(0, (1 << 16) | (1 << 3), 1 << 16);
    assert!(pin.is_pcore_interrupt_set(&regs));
    assert!(pin.is_pcore_non_maskable_interrupt_set(&regs));
    pin.clear_interrupt(&mut regs);
    assert!(!pin.is_pcore_interrupt_set(&regs));
    // Write-one-to-clear touches no other pin's bit.
    assert_eq!(regs.bank_int_status(0), 1 << 3);
    // The non-maskable latch is cleared by the hardware, not by this call.
    assert!(pin.is_pcore_non_maskable_interrupt_set(&regs));
}

#[test]
fn both_roles_share_the_primary_register_on_this_family() {
    let mut regs = RegisterFile::new();
    let io = IO::new();
    let pin = io.pins.gpio2.into_floating_input(&mut regs);
    regs.latch_interrupt_status(0, 1 << 2, 1 << 2);
    assert!(pin.is_acore_interrupt_set(&regs));
    assert!(pin.is_acore_non_maskable_interrupt_set(&regs));
    pin.clear_interrupt(&mut regs);
    assert!(!pin.is_acore_interrupt_set(&regs));
}

#[test]
fn second_bank_status_is_read_from_its_own_words() {
    let mut regs = RegisterFile::new();
    let io = IO::new();
    let pin = io.pins.gpio36.into_floating_input(&mut regs);
    regs.latch_interrupt_status(1, 1 << 4, 0);
    assert!(pin.is_pcore_interrupt_set(&regs));
    regs.latch_interrupt_status(0, 1 << 4, 0);
    pin.clear_interrupt(&mut regs);
    assert!(!pin.is_pcore_interrupt_set(&regs));
    // The first bank's word, set independently, is untouched.
    assert_eq!(regs.bank_int_status(0), 1 << 4);
}

#[test]
fn dual_core_variant_reads_the_secondary_registers() {
    let mut regs = RegisterFile::new();
    regs.latch_interrupt_status(0, 0xa, 0xb);
    regs.latch_acpu_interrupt_status(0, 0xc, 0xd);
    assert_eq!(DualCoreInteruptStatusRegisterAccess::pro_cpu_interrupt_status_read(&regs, 0), 0xa);
    assert_eq!(DualCoreInteruptStatusRegisterAccess::pro_cpu_nmi_status_read(&regs, 0), 0xb);
    assert_eq!(DualCoreInteruptStatusRegisterAccess::app_cpu_interrupt_status_read(&regs, 0), 0xc);
    assert_eq!(DualCoreInteruptStatusRegisterAccess::app_cpu_nmi_status_read(&regs, 0), 0xd);
}

#[test]
fn single_core_variant_ties_both_roles_together() {
    let mut regs = RegisterFile::new();
    regs.latch_interrupt_status(0, 0xa, 0xb);
    regs.latch_acpu_interrupt_status(0, 0xc, 0xd);
    assert_eq!(
        SingleCoreInteruptStatusRegisterAccess::app_cpu_interrupt_status_read(&regs, 0),
        0xa
    );
    assert_eq!(SingleCoreInteruptStatusRegisterAccess::app_cpu_nmi_status_read(&regs, 0), 0xb);
}

#[test]
fn intr_enable_encodes_both_bits() {
    assert_eq!(gpio_intr_enable(false, false), 0);
    assert_eq!(gpio_intr_enable(true, false), 1);
    assert_eq!(gpio_intr_enable(false, true), 2);
    assert_eq!(gpio_intr_enable(true, true), 3);
}
