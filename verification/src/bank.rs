//! Access to the 32-pin-wide register bank a pin belongs to.
//!
//! Pins 0-31 share one set of packed control and status words, pins 32-63 a
//! second set. Each physical pin is bound to one of the two access values at
//! construction and never switches; all operations take the pin's single-bit
//! mask within the bank's words.

use vstd::prelude::*;
use crate::regs::{RegisterFile, RegsView, NUM_BANKS};

verus! {

/// Word-level operations on one register bank. The `bank` spec function
/// names which of the two banks an implementation stands for.
pub trait BankGpioRegisterAccess {
    /// Index of the bank this access value reaches.
    spec fn bank(&self) -> int;

    /// Clears bits of the bank's output-enable word.
    fn write_out_en_clear(&self, regs: &mut RegisterFile, word: u32)
        requires
            old(regs).wf(),
            0 <= self.bank() < NUM_BANKS as int,
        ensures
            final(regs)@ == (RegsView {
                out_en: old(regs)@.out_en.update(
                    self.bank(),
                    old(regs)@.out_en[self.bank()] & !word,
                ),
                ..old(regs)@
            }),
    ;

    /// Sets bits of the bank's output-enable word.
    fn write_out_en_set(&self, regs: &mut RegisterFile, word: u32)
        requires
            old(regs).wf(),
            0 <= self.bank() < NUM_BANKS as int,
        ensures
            final(regs)@ == (RegsView {
                out_en: old(regs)@.out_en.update(
                    self.bank(),
                    old(regs)@.out_en[self.bank()] | word,
                ),
                ..old(regs)@
            }),
    ;

    /// Reads the bank's sensed input-level word.
    fn read_input(&self, regs: &RegisterFile) -> (r: u32)
        requires
            regs.wf(),
            0 <= self.bank() < NUM_BANKS as int,
        ensures
            r == regs@.input[self.bank()],
    ;

    /// Reads the bank's commanded output-level word.
    fn read_output(&self, regs: &RegisterFile) -> (r: u32)
        requires
            regs.wf(),
            0 <= self.bank() < NUM_BANKS as int,
        ensures
            r == regs@.out[self.bank()],
    ;

    /// Clears bits of the bank's latched maskable interrupt status, on both
    /// cores' registers.
    fn write_interrupt_status_clear(&self, regs: &mut RegisterFile, word: u32)
        requires
            old(regs).wf(),
            0 <= self.bank() < NUM_BANKS as int,
        ensures
            final(regs)@ == (RegsView {
                int_status: old(regs)@.int_status.update(
                    self.bank(),
                    old(regs)@.int_status[self.bank()] & !word,
                ),
                acpu_int_status: old(regs)@.acpu_int_status.update(
                    self.bank(),
                    old(regs)@.acpu_int_status[self.bank()] & !word,
                ),
                ..old(regs)@
            }),
    ;

    /// Sets bits of the bank's commanded output-level word.
    fn write_output_set(&self, regs: &mut RegisterFile, word: u32)
        requires
            old(regs).wf(),
            0 <= self.bank() < NUM_BANKS as int,
        ensures
            final(regs)@ == (RegsView {
                out: old(regs)@.out.update(self.bank(), old(regs)@.out[self.bank()] | word),
                ..old(regs)@
            }),
    ;

    /// Clears bits of the bank's commanded output-level word.
    fn write_output_clear(&self, regs: &mut RegisterFile, word: u32)
        requires
            old(regs).wf(),
            0 <= self.bank() < NUM_BANKS as int,
        ensures
            final(regs)@ == (RegsView {
                out: old(regs)@.out.update(self.bank(), old(regs)@.out[self.bank()] & !word),
                ..old(regs)@
            }),
    ;
}

/// Access to the bank of pins 0-31.
pub struct Bank0GpioRegisterAccess;

/// Access to the bank of pins 32-63, absent on packages with at most 32 pins.
pub struct Bank1GpioRegisterAccess;

impl BankGpioRegisterAccess for Bank0GpioRegisterAccess {
    open spec fn bank(&self) -> int {
        0
    }

    fn write_out_en_clear(&self, regs: &mut RegisterFile, word: u32) {
        regs.bank_out_en_clear(0, word);
    }

    fn write_out_en_set(&self, regs: &mut RegisterFile, word: u32) {
        regs.bank_out_en_set(0, word);
    }

    fn read_input(&self, regs: &RegisterFile) -> (r: u32) {
        regs.bank_read_input(0)
    }

    fn read_output(&self, regs: &RegisterFile) -> (r: u32) {
        regs.bank_read_output(0)
    }

    fn write_interrupt_status_clear(&self, regs: &mut RegisterFile, word: u32) {
        regs.bank_status_clear(0, word);
    }

    fn write_output_set(&self, regs: &mut RegisterFile, word: u32) {
        regs.bank_output_set(0, word);
    }

    fn write_output_clear(&self, regs: &mut RegisterFile, word: u32) {
        regs.bank_output_clear(0, word);
    }
}

impl BankGpioRegisterAccess for Bank1GpioRegisterAccess {
    open spec fn bank(&self) -> int {
        1
    }

    fn write_out_en_clear(&self, regs: &mut RegisterFile, word: u32) {
        regs.bank_out_en_clear(1, word);
    }

    fn write_out_en_set(&self, regs: &mut RegisterFile, word: u32) {
        regs.bank_out_en_set(1, word);
    }

    fn read_input(&self, regs: &RegisterFile) -> (r: u32) {
        regs.bank_read_input(1)
    }

    fn read_output(&self, regs: &RegisterFile) -> (r: u32) {
        regs.bank_read_output(1)
    }

    fn write_interrupt_status_clear(&self, regs: &mut RegisterFile, word: u32) {
        regs.bank_status_clear(1, word);
    }

    fn write_output_set(&self, regs: &mut RegisterFile, word: u32) {
        regs.bank_output_set(1, word);
    }

    fn write_output_clear(&self, regs: &mut RegisterFile, word: u32) {
        regs.bank_output_clear(1, word);
    }
}

} // verus!
