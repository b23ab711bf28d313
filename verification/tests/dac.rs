//! The digital-to-analog converter channels.

use gpio_hal::dac::{DAC, DAC1, DAC2};
use gpio_hal::io::IO;
use gpio_hal::regs::RegisterFile;

#[test]
fn first_converter_powers_on_and_writes() {
    let mut regs = RegisterFile::new();
    let io = IO::new();
    let pin = io.pins.gpio25.into_analog(&mut regs);
    let dac = DAC1::dac(pin, &mut regs);
    assert!(dac.is_ok());
    let mut dac = dac.unwrap();
    let pad = regs.dac_cfg(false);
    assert!(pad.xpd_force);
    assert!(pad.xpd_dac);
    dac.write(&mut regs, 200);
    assert_eq!(regs.dac_cfg(false).value, 200);
    dac.write(&mut regs, 17);
    assert_eq!(regs.dac_cfg(false).value, 17);
}

#[test]
fn second_converter_uses_its_own_pad() {
    let mut regs = RegisterFile::new();
    let io = IO::new();
    let pin = io.pins.gpio26.into_analog(&mut regs);
    let dac = DAC2::dac(pin, &mut regs);
    assert!(dac.is_ok());
    let mut dac = dac.unwrap();
    dac.write(&mut regs, 99);
    assert_eq!(regs.dac_cfg(true).value, 99);
    assert_eq!(regs.dac_cfg(false).value, 0);
}

#[test]
fn converters_drive_through_the_shared_trait() {
    let mut regs = RegisterFile::new();
    let io = IO::new();
    let pin1 = io.pins.gpio25.into_analog(&mut regs);
    let pin2 = io.pins.gpio26.into_analog(&mut regs);
    let mut one = DAC1::dac(pin1, &mut regs).unwrap();
    let mut two = DAC2::dac(pin2, &mut regs).unwrap();
    DAC::write(&mut one, &mut regs, 5);
    DAC::write(&mut two, &mut regs, 6);
    assert_eq!(regs.dac_cfg(false).value, 5);
    assert_eq!(regs.dac_cfg(true).value, 6);
}
