//! The two digital-to-analog converter channels.
//!
//! Each channel drives one fixed analog-capable pin: the first converter
//! pin 25, the second pin 26. A channel is obtained by surrendering that
//! pin in analog mode, so the pad is already routed to the analog
//! subsystem; writing a value programs the converter's pad register.

use core::marker::PhantomData;
use vstd::prelude::*;
use crate::bank::BankGpioRegisterAccess;
use crate::pin::{GpioPin, Pin};
use crate::regs::{DacPadReg, RegisterFile, RegsView};
use crate::types::{Analog, IsAnalogPin};

verus! {

/// A digital-to-analog converter channel: the output voltage is the supply
/// voltage scaled by `value / 256`.
pub trait DAC {
    /// Whether this is the second converter channel.
    spec fn second(&self) -> bool;

    /// Programs the channel's 8-bit value, turning its cosine-wave
    /// generator off so the programmed value drives the pad.
    fn write(&mut self, regs: &mut RegisterFile, value: u8)
        ensures
            final(regs)@ == if old(self).second() {
                (RegsView {
                    dac2: (DacPadReg { value: value, ..old(regs)@.dac2 }),
                    dac_cw_en2: false,
                    ..old(regs)@
                })
            } else {
                (RegsView {
                    dac1: (DacPadReg { value: value, ..old(regs)@.dac1 }),
                    dac_cw_en1: false,
                    ..old(regs)@
                })
            },
            final(self).second() == old(self).second(),
    ;
}

/// Register programming shared by every handle of the first converter.
pub trait DAC1Impl: Sized {
    /// Powers the first converter on by software force, opening the
    /// converter block's clock gate.
    fn set_power(self, regs: &mut RegisterFile) -> (r: Self)
        ensures
            final(regs)@ == (RegsView {
                dac1: (DacPadReg { xpd_force: true, xpd_dac: true, ..old(regs)@.dac1 }),
                dac_clk_gate: true,
                ..old(regs)@
            }),
            r == self,
    {
        regs.dac_power_on(false);
        self
    }

    /// Programs the first converter's value, cosine-wave generator off.
    fn write(&mut self, regs: &mut RegisterFile, value: u8)
        ensures
            final(regs)@ == (RegsView {
                dac1: (DacPadReg { value: value, ..old(regs)@.dac1 }),
                dac_cw_en1: false,
                ..old(regs)@
            }),
    {
        regs.dac_write(false, value);
    }
}

/// Register programming shared by every handle of the second converter.
pub trait DAC2Impl: Sized {
    /// Powers the second converter on by software force, opening the
    /// converter block's clock gate.
    fn set_power(self, regs: &mut RegisterFile) -> (r: Self)
        ensures
            final(regs)@ == (RegsView {
                dac2: (DacPadReg { xpd_force: true, xpd_dac: true, ..old(regs)@.dac2 }),
                dac_clk_gate: true,
                ..old(regs)@
            }),
            r == self,
    {
        regs.dac_power_on(true);
        self
    }

    /// Programs the second converter's value, cosine-wave generator off.
    fn write(&mut self, regs: &mut RegisterFile, value: u8)
        ensures
            final(regs)@ == (RegsView {
                dac2: (DacPadReg { value: value, ..old(regs)@.dac2 }),
                dac_cw_en2: false,
                ..old(regs)@
            }),
    {
        regs.dac_write(true, value);
    }
}

/// The first converter channel, on pin 25.
pub struct DAC1 {
    _private: PhantomData<()>,
}

impl DAC1Impl for DAC1 {

}

impl DAC1 {
    /// Constructs the first converter from its pin, which must already be
    /// in analog mode, and powers it on.
    pub fn dac<RA: BankGpioRegisterAccess, PINTYPE: IsAnalogPin>(
        _pin: GpioPin<Analog, RA, PINTYPE>,
        regs: &mut RegisterFile,
    ) -> (r: Result<DAC1, ()>)
        requires
            _pin.pnum() == 25,
        ensures
            r is Ok,
            final(regs)@ == (RegsView {
                dac1: (DacPadReg { xpd_force: true, xpd_dac: true, ..old(regs)@.dac1 }),
                dac_clk_gate: true,
                ..old(regs)@
            }),
    {
        let dac = DAC1 { _private: PhantomData }.set_power(regs);
        Ok(dac)
    }

    /// Programs the converter's 8-bit value: the output voltage is the
    /// supply voltage scaled by `value / 256`.
    pub fn write(&mut self, regs: &mut RegisterFile, value: u8)
        ensures
            final(regs)@ == (RegsView {
                dac1: (DacPadReg { value: value, ..old(regs)@.dac1 }),
                dac_cw_en1: false,
                ..old(regs)@
            }),
    {
        DAC1Impl::write(self, regs, value)
    }
}

impl DAC for DAC1 {
    closed spec fn second(&self) -> bool {
        false
    }

    fn write(&mut self, regs: &mut RegisterFile, value: u8) {
        DAC1Impl::write(self, regs, value)
    }
}

/// The second converter channel, on pin 26.
pub struct DAC2 {
    _private: PhantomData<()>,
}

impl DAC2Impl for DAC2 {

}

impl DAC2 {
    /// Constructs the second converter from its pin, which must already be
    /// in analog mode, and powers it on.
    pub fn dac<RA: BankGpioRegisterAccess, PINTYPE: IsAnalogPin>(
        _pin: GpioPin<Analog, RA, PINTYPE>,
        regs: &mut RegisterFile,
    ) -> (r: Result<DAC2, ()>)
        requires
            _pin.pnum() == 26,
        ensures
            r is Ok,
            final(regs)@ == (RegsView {
                dac2: (DacPadReg { xpd_force: true, xpd_dac: true, ..old(regs)@.dac2 }),
                dac_clk_gate: true,
                ..old(regs)@
            }),
    {
        let dac = DAC2 { _private: PhantomData }.set_power(regs);
        Ok(dac)
    }

    /// Programs the converter's 8-bit value: the output voltage is the
    /// supply voltage scaled by `value / 256`.
    pub fn write(&mut self, regs: &mut RegisterFile, value: u8)
        ensures
            final(regs)@ == (RegsView {
                dac2: (DacPadReg { value: value, ..old(regs)@.dac2 }),
                dac_cw_en2: false,
                ..old(regs)@
            }),
    {
        DAC2Impl::write(self, regs, value)
    }
}

impl DAC for DAC2 {
    closed spec fn second(&self) -> bool {
        true
    }

    fn write(&mut self, regs: &mut RegisterFile, value: u8) {
        DAC2Impl::write(self, regs, value)
    }
}

} // verus!
