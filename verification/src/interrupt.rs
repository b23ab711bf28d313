//! Per-core interrupt-status access.
//!
//! A pin's latched interrupt status is read on behalf of a core role:
//! primary or secondary. On single-core parts (and on parts whose two cores
//! share one status register) both roles read the primary-core register; on
//! genuine dual-core parts the secondary role reads a register of its own.
//! Which variant applies is a chip-level constant, not a runtime choice.

use vstd::prelude::*;
use crate::regs::{RegisterFile, RegsView, NUM_BANKS};

verus! {

/// Which physical status registers each core role reads. The four spec
/// functions name the words; the four methods read them.
pub trait InteruptStatusRegisterAccess {
    /// The word the primary role's maskable read returns.
    spec fn pro_word(rv: RegsView, bank: int) -> u32;

    /// The word the primary role's non-maskable read returns.
    spec fn pro_nmi_word(rv: RegsView, bank: int) -> u32;

    /// The word the secondary role's maskable read returns.
    spec fn app_word(rv: RegsView, bank: int) -> u32;

    /// The word the secondary role's non-maskable read returns.
    spec fn app_nmi_word(rv: RegsView, bank: int) -> u32;

    /// Reads the primary role's maskable interrupt status.
    fn pro_cpu_interrupt_status_read(regs: &RegisterFile, bank: usize) -> (r: u32)
        requires
            regs.wf(),
            bank < NUM_BANKS,
        ensures
            r == Self::pro_word(regs@, bank as int),
    ;

    /// Reads the primary role's non-maskable interrupt status.
    fn pro_cpu_nmi_status_read(regs: &RegisterFile, bank: usize) -> (r: u32)
        requires
            regs.wf(),
            bank < NUM_BANKS,
        ensures
            r == Self::pro_nmi_word(regs@, bank as int),
    ;

    /// Reads the secondary role's maskable interrupt status.
    fn app_cpu_interrupt_status_read(regs: &RegisterFile, bank: usize) -> (r: u32)
        requires
            regs.wf(),
            bank < NUM_BANKS,
        ensures
            r == Self::app_word(regs@, bank as int),
    ;

    /// Reads the secondary role's non-maskable interrupt status.
    fn app_cpu_nmi_status_read(regs: &RegisterFile, bank: usize) -> (r: u32)
        requires
            regs.wf(),
            bank < NUM_BANKS,
        ensures
            r == Self::app_nmi_word(regs@, bank as int),
    ;
}

/// Status access on parts where both core roles read the primary-core
/// registers.
pub struct SingleCoreInteruptStatusRegisterAccess {}

/// Status access on parts where the secondary role has registers of its own.
pub struct DualCoreInteruptStatusRegisterAccess {}

impl InteruptStatusRegisterAccess for SingleCoreInteruptStatusRegisterAccess {
    open spec fn pro_word(rv: RegsView, bank: int) -> u32 {
        rv.int_status[bank]
    }

    open spec fn pro_nmi_word(rv: RegsView, bank: int) -> u32 {
        rv.nmi_status[bank]
    }

    open spec fn app_word(rv: RegsView, bank: int) -> u32 {
        rv.int_status[bank]
    }

    open spec fn app_nmi_word(rv: RegsView, bank: int) -> u32 {
        rv.nmi_status[bank]
    }

    fn pro_cpu_interrupt_status_read(regs: &RegisterFile, bank: usize) -> (r: u32) {
        regs.bank_int_status(bank)
    }

    fn pro_cpu_nmi_status_read(regs: &RegisterFile, bank: usize) -> (r: u32) {
        regs.bank_nmi_status(bank)
    }

    fn app_cpu_interrupt_status_read(regs: &RegisterFile, bank: usize) -> (r: u32) {
        regs.bank_int_status(bank)
    }

    fn app_cpu_nmi_status_read(regs: &RegisterFile, bank: usize) -> (r: u32) {
        regs.bank_nmi_status(bank)
    }
}

impl InteruptStatusRegisterAccess for DualCoreInteruptStatusRegisterAccess {
    open spec fn pro_word(rv: RegsView, bank: int) -> u32 {
        rv.int_status[bank]
    }

    open spec fn pro_nmi_word(rv: RegsView, bank: int) -> u32 {
        rv.nmi_status[bank]
    }

    open spec fn app_word(rv: RegsView, bank: int) -> u32 {
        rv.acpu_int_status[bank]
    }

    open spec fn app_nmi_word(rv: RegsView, bank: int) -> u32 {
        rv.acpu_nmi_status[bank]
    }

    fn pro_cpu_interrupt_status_read(regs: &RegisterFile, bank: usize) -> (r: u32) {
        regs.bank_int_status(bank)
    }

    fn pro_cpu_nmi_status_read(regs: &RegisterFile, bank: usize) -> (r: u32) {
        regs.bank_nmi_status(bank)
    }

    fn app_cpu_interrupt_status_read(regs: &RegisterFile, bank: usize) -> (r: u32) {
        regs.bank_acpu_int_status(bank)
    }

    fn app_cpu_nmi_status_read(regs: &RegisterFile, bank: usize) -> (r: u32) {
        regs.bank_acpu_nmi_status(bank)
    }
}

/// Reads the four status words on behalf of a value that knows its bank,
/// through the chip's [`InteruptStatusRegisterAccess`] variant.
pub trait InterruptStatusRegisters<RegisterAccess: InteruptStatusRegisterAccess> {
    /// The bank whose status words are read.
    spec fn status_bank(&self) -> int;

    /// Reads the primary role's maskable interrupt status.
    fn pro_cpu_interrupt_status_read(&self, regs: &RegisterFile) -> (r: u32)
        requires
            regs.wf(),
            0 <= self.status_bank() < NUM_BANKS as int,
        ensures
            r == RegisterAccess::pro_word(regs@, self.status_bank()),
    ;

    /// Reads the primary role's non-maskable interrupt status.
    fn pro_cpu_nmi_status_read(&self, regs: &RegisterFile) -> (r: u32)
        requires
            regs.wf(),
            0 <= self.status_bank() < NUM_BANKS as int,
        ensures
            r == RegisterAccess::pro_nmi_word(regs@, self.status_bank()),
    ;

    /// Reads the secondary role's maskable interrupt status.
    fn app_cpu_interrupt_status_read(&self, regs: &RegisterFile) -> (r: u32)
        requires
            regs.wf(),
            0 <= self.status_bank() < NUM_BANKS as int,
        ensures
            r == RegisterAccess::app_word(regs@, self.status_bank()),
    ;

    /// Reads the secondary role's non-maskable interrupt status.
    fn app_cpu_nmi_status_read(&self, regs: &RegisterFile) -> (r: u32)
        requires
            regs.wf(),
            0 <= self.status_bank() < NUM_BANKS as int,
        ensures
            r == RegisterAccess::app_nmi_word(regs@, self.status_bank()),
    ;
}

} // verus!
