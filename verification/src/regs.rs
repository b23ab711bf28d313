//! In-memory model of the I/O subsystem's memory-mapped registers.
//!
//! The hardware exposes its configuration as a fixed set of 32-bit registers:
//! per-bank packed words (output enable, output level, input level, interrupt
//! status) and per-pin / per-signal records (pin control, output-selector,
//! input-selector, I/O-multiplexer). A [`RegisterFile`] value stands for that
//! register map; the pin layer performs every register write through the
//! field-level operations below, each with an exact contract, so the effect of
//! every pin operation on the register map is verified.
//!
//! Registers the hardware itself drives (input levels, latched interrupt
//! status) have public "hardware-side" setters, so a surrounding program can
//! feed in what the electrical world did.

use vstd::prelude::*;

verus! {

/// Number of physical pins on this chip family's largest package.
pub const NUM_PINS: usize = 40;

/// Number of 32-pin register banks (pins 0-31 and 32-63).
pub const NUM_BANKS: usize = 2;

/// Largest input-signal id the crossbar matrix can address.
pub const INPUT_SIGNAL_MAX: u16 = 100;

/// Number of per-signal input-selector registers (ids `0..=INPUT_SIGNAL_MAX`).
pub const NUM_INPUT_SELECTS: usize = 101;

/// Largest output-signal id the crossbar matrix can address.
pub const OUTPUT_SIGNAL_MAX: u16 = 128;

/// Output-selector code meaning "no peripheral, plain GPIO drive".
pub const GPIO_OUT_SIGNAL: u16 = 128;

/// Input-selector code that ties a signal to a constant low level.
pub const ZERO_INPUT: u8 = 0x30;

/// Input-selector code that ties a signal to a constant high level.
pub const ONE_INPUT: u8 = 0x38;

/// Per-pin control record: interrupt configuration and the open-drain bit.
#[derive(Clone, Copy, PartialEq, Eq, Structural, Debug)]
pub struct PinReg {
    /// Two-bit interrupt enable: bit 0 maskable, bit 1 non-maskable.
    pub int_ena: u8,
    /// Event-type code; `0` means no event selected.
    pub int_type: u8,
    /// Wake the core from light sleep on the selected event.
    pub wakeup_enable: bool,
    /// Open-drain ("pad driver") bit.
    pub pad_driver: bool,
}

/// Per-pin output-selector record of the crossbar matrix.
#[derive(Clone, Copy, PartialEq, Eq, Structural, Debug)]
pub struct OutSelReg {
    /// Output-signal id driven onto this pin; `GPIO_OUT_SIGNAL` means none.
    pub out_sel: u16,
    /// Invert the driven level.
    pub inv_sel: bool,
    /// Take the output enable from the peripheral instead of the GPIO bit.
    pub oen_sel: bool,
    /// Invert that output enable.
    pub oen_inv_sel: bool,
}

/// Per-signal input-selector record of the crossbar matrix.
#[derive(Clone, Copy, PartialEq, Eq, Structural, Debug)]
pub struct InSelReg {
    /// The matrix drives this signal (as opposed to a dedicated path).
    pub sel: bool,
    /// Invert the sampled level.
    pub in_inv_sel: bool,
    /// Pin number sampled, or `ZERO_INPUT` / `ONE_INPUT` for a constant.
    pub in_sel: u8,
}

/// Per-pin I/O-multiplexer record.
#[derive(Clone, Copy, PartialEq, Eq, Structural, Debug)]
pub struct IoMuxReg {
    /// Function-select field: which of the pin's functions drives the pad.
    pub mcu_sel: u8,
    /// Input buffer enable.
    pub fun_ie: bool,
    /// Weak pull-down enable.
    pub fun_wpd: bool,
    /// Weak pull-up enable.
    pub fun_wpu: bool,
    /// Drive strength, one of four discrete levels.
    pub fun_drv: u8,
    /// Use the sleep-mode variants of the fields below while asleep.
    pub slp_sel: bool,
    /// Input buffer enable during sleep.
    pub mcu_ie: bool,
    /// Pull-up enable during sleep.
    pub mcu_wpu: bool,
    /// Pull-down enable during sleep.
    pub mcu_wpd: bool,
    /// Output enable during sleep.
    pub mcu_oe: bool,
}

/// Per-pin record of the RTC / analog domain controller.
#[derive(Clone, Copy, PartialEq, Eq, Structural, Debug)]
pub struct RtcPinReg {
    /// Route the pad to the analog / RTC subsystem instead of digital GPIO.
    pub mux_sel: bool,
    /// RTC-domain pull-up enable.
    pub rue: bool,
    /// RTC-domain pull-down enable.
    pub rde: bool,
}

/// One digital-to-analog converter pad register.
#[derive(Clone, Copy, PartialEq, Eq, Structural, Debug)]
pub struct DacPadReg {
    /// Force the power-on state from software.
    pub xpd_force: bool,
    /// Power the converter on.
    pub xpd_dac: bool,
    /// The 8-bit value converted to a voltage.
    pub value: u8,
}

/// Mathematical view of the whole register map.
#[verifier::ext_equal]
pub struct RegsView {
    /// Output-enable word per bank.
    pub out_en: Seq<u32>,
    /// Commanded output level word per bank.
    pub out: Seq<u32>,
    /// Sensed input level word per bank (hardware-driven).
    pub input: Seq<u32>,
    /// Latched maskable interrupt status per bank, primary-core register.
    pub int_status: Seq<u32>,
    /// Latched non-maskable interrupt status per bank, primary-core register.
    pub nmi_status: Seq<u32>,
    /// Latched maskable interrupt status per bank, secondary-core register.
    pub acpu_int_status: Seq<u32>,
    /// Latched non-maskable interrupt status per bank, secondary-core register.
    pub acpu_nmi_status: Seq<u32>,
    /// Per-pin control records.
    pub pin: Seq<PinReg>,
    /// Per-pin output-selector records.
    pub out_sel: Seq<OutSelReg>,
    /// Per-signal input-selector records.
    pub in_sel: Seq<InSelReg>,
    /// Per-pin I/O-multiplexer records.
    pub io_mux: Seq<IoMuxReg>,
    /// Per-pin RTC / analog domain records.
    pub rtc: Seq<RtcPinReg>,
    /// First converter pad register.
    pub dac1: DacPadReg,
    /// Second converter pad register.
    pub dac2: DacPadReg,
    /// Cosine-wave generator enable for the first converter.
    pub dac_cw_en1: bool,
    /// Cosine-wave generator enable for the second converter.
    pub dac_cw_en2: bool,
    /// Clock gate of the digital-to-analog block.
    pub dac_clk_gate: bool,
    /// Clock gate of the I/O-multiplexer block.
    pub iomux_clk_gate: bool,
}

impl RegsView {
    /// Every register table has its hardware-given length.
    pub open spec fn wf(self) -> bool {
        &&& self.out_en.len() == NUM_BANKS
        &&& self.out.len() == NUM_BANKS
        &&& self.input.len() == NUM_BANKS
        &&& self.int_status.len() == NUM_BANKS
        &&& self.nmi_status.len() == NUM_BANKS
        &&& self.acpu_int_status.len() == NUM_BANKS
        &&& self.acpu_nmi_status.len() == NUM_BANKS
        &&& self.pin.len() == NUM_PINS
        &&& self.out_sel.len() == NUM_PINS
        &&& self.in_sel.len() == NUM_INPUT_SELECTS
        &&& self.io_mux.len() == NUM_PINS
        &&& self.rtc.len() == NUM_PINS
    }
}

/// The register bank a pin number belongs to.
pub open spec fn bank_of(num: int) -> int {
    num / 32
}

/// The pin's single-bit mask within its bank's 32-bit words.
pub open spec fn pin_mask(num: int) -> u32 {
    1u32 << ((num % 32) as u32)
}

/// The modeled register map, owned by the surrounding program and handed to
/// every pin operation by mutable reference.
pub struct RegisterFile {
    out_en: Vec<u32>,
    out: Vec<u32>,
    input: Vec<u32>,
    int_status: Vec<u32>,
    nmi_status: Vec<u32>,
    acpu_int_status: Vec<u32>,
    acpu_nmi_status: Vec<u32>,
    pin: Vec<PinReg>,
    out_sel: Vec<OutSelReg>,
    in_sel: Vec<InSelReg>,
    io_mux: Vec<IoMuxReg>,
    rtc: Vec<RtcPinReg>,
    dac1: DacPadReg,
    dac2: DacPadReg,
    dac_cw_en1: bool,
    dac_cw_en2: bool,
    dac_clk_gate: bool,
    iomux_clk_gate: bool,
}

impl View for RegisterFile {
    type V = RegsView;

    closed spec fn view(&self) -> RegsView {
        RegsView {
            out_en: self.out_en@,
            out: self.out@,
            input: self.input@,
            int_status: self.int_status@,
            nmi_status: self.nmi_status@,
            acpu_int_status: self.acpu_int_status@,
            acpu_nmi_status: self.acpu_nmi_status@,
            pin: self.pin@,
            out_sel: self.out_sel@,
            in_sel: self.in_sel@,
            io_mux: self.io_mux@,
            rtc: self.rtc@,
            dac1: self.dac1,
            dac2: self.dac2,
            dac_cw_en1: self.dac_cw_en1,
            dac_cw_en2: self.dac_cw_en2,
            dac_clk_gate: self.dac_clk_gate,
            iomux_clk_gate: self.iomux_clk_gate,
        }
    }
}

/// The I/O-multiplexer record at power-on: GPIO function, everything off,
/// default drive strength.
pub open spec fn reset_io_mux() -> IoMuxReg {
    IoMuxReg {
        mcu_sel: 0,
        fun_ie: false,
        fun_wpd: false,
        fun_wpu: false,
        fun_drv: 2,
        slp_sel: false,
        mcu_ie: false,
        mcu_wpu: false,
        mcu_wpd: false,
        mcu_oe: false,
    }
}

/// The pin control record at power-on.
pub open spec fn reset_pin_reg() -> PinReg {
    PinReg { int_ena: 0, int_type: 0, wakeup_enable: false, pad_driver: false }
}

/// The output-selector record at power-on: plain GPIO, no inversion.
pub open spec fn reset_out_sel() -> OutSelReg {
    OutSelReg { out_sel: GPIO_OUT_SIGNAL, inv_sel: false, oen_sel: false, oen_inv_sel: false }
}

/// The input-selector record at power-on: matrix path unselected.
pub open spec fn reset_in_sel() -> InSelReg {
    InSelReg { sel: false, in_inv_sel: false, in_sel: 0 }
}

/// The RTC / analog record at power-on: digital routing, pulls off.
pub open spec fn reset_rtc_reg() -> RtcPinReg {
    RtcPinReg { mux_sel: false, rue: false, rde: false }
}

/// Whether a register map view holds the documented power-on state.
pub open spec fn is_reset(rv: RegsView) -> bool {
    &&& rv.wf()
    &&& forall|b: int| 0 <= b < NUM_BANKS ==> rv.out_en[b] == 0u32
    &&& forall|b: int| 0 <= b < NUM_BANKS ==> rv.out[b] == 0u32
    &&& forall|b: int| 0 <= b < NUM_BANKS ==> rv.input[b] == 0u32
    &&& forall|b: int| 0 <= b < NUM_BANKS ==> rv.int_status[b] == 0u32
    &&& forall|b: int| 0 <= b < NUM_BANKS ==> rv.nmi_status[b] == 0u32
    &&& forall|b: int| 0 <= b < NUM_BANKS ==> rv.acpu_int_status[b] == 0u32
    &&& forall|b: int| 0 <= b < NUM_BANKS ==> rv.acpu_nmi_status[b] == 0u32
    &&& forall|i: int| 0 <= i < NUM_PINS ==> rv.pin[i] == reset_pin_reg()
    &&& forall|i: int| 0 <= i < NUM_PINS ==> rv.out_sel[i] == reset_out_sel()
    &&& forall|s: int| 0 <= s < NUM_INPUT_SELECTS ==> rv.in_sel[s] == reset_in_sel()
    &&& forall|i: int| 0 <= i < NUM_PINS ==> rv.io_mux[i] == reset_io_mux()
    &&& forall|i: int| 0 <= i < NUM_PINS ==> rv.rtc[i] == reset_rtc_reg()
    &&& rv.dac1 == (DacPadReg { xpd_force: false, xpd_dac: false, value: 0 })
    &&& rv.dac2 == (DacPadReg { xpd_force: false, xpd_dac: false, value: 0 })
    &&& !rv.dac_cw_en1
    &&& !rv.dac_cw_en2
    &&& !rv.dac_clk_gate
    &&& !rv.iomux_clk_gate
}

impl RegisterFile {
    /// Every register table has its hardware-given length.
    pub open spec fn wf(&self) -> bool {
        self@.wf()
    }

    /// Builds the register map in its documented power-on state.
    pub fn new() -> (r: RegisterFile)
        ensures
            r.wf(),
            is_reset(r@),
    {
        let mut out_en: Vec<u32> = Vec::new();
        let mut out: Vec<u32> = Vec::new();
        let mut input: Vec<u32> = Vec::new();
        let mut int_status: Vec<u32> = Vec::new();
        let mut nmi_status: Vec<u32> = Vec::new();
        let mut acpu_int_status: Vec<u32> = Vec::new();
        let mut acpu_nmi_status: Vec<u32> = Vec::new();
        let mut b: usize = 0;
        while b < NUM_BANKS
            invariant
                b <= NUM_BANKS,
                out_en@.len() == b,
                out@.len() == b,
                input@.len() == b,
                int_status@.len() == b,
                nmi_status@.len() == b,
                acpu_int_status@.len() == b,
                acpu_nmi_status@.len() == b,
                forall|j: int| 0 <= j < b ==> out_en@[j] == 0u32,
                forall|j: int| 0 <= j < b ==> out@[j] == 0u32,
                forall|j: int| 0 <= j < b ==> input@[j] == 0u32,
                forall|j: int| 0 <= j < b ==> int_status@[j] == 0u32,
                forall|j: int| 0 <= j < b ==> nmi_status@[j] == 0u32,
                forall|j: int| 0 <= j < b ==> acpu_int_status@[j] == 0u32,
                forall|j: int| 0 <= j < b ==> acpu_nmi_status@[j] == 0u32,
            decreases NUM_BANKS - b,
        {
            out_en.push(0);
            out.push(0);
            input.push(0);
            int_status.push(0);
            nmi_status.push(0);
            acpu_int_status.push(0);
            acpu_nmi_status.push(0);
            b = b + 1;
        }
        let mut pin: Vec<PinReg> = Vec::new();
        let mut out_sel: Vec<OutSelReg> = Vec::new();
        let mut io_mux: Vec<IoMuxReg> = Vec::new();
        let mut rtc: Vec<RtcPinReg> = Vec::new();
        let mut i: usize = 0;
        while i < NUM_PINS
            invariant
                i <= NUM_PINS,
                pin@.len() == i,
                out_sel@.len() == i,
                io_mux@.len() == i,
                rtc@.len() == i,
                forall|j: int| 0 <= j < i ==> pin@[j] == reset_pin_reg(),
                forall|j: int| 0 <= j < i ==> out_sel@[j] == reset_out_sel(),
                forall|j: int| 0 <= j < i ==> io_mux@[j] == reset_io_mux(),
                forall|j: int| 0 <= j < i ==> rtc@[j] == reset_rtc_reg(),
            decreases NUM_PINS - i,
        {
            pin.push(PinReg { int_ena: 0, int_type: 0, wakeup_enable: false, pad_driver: false });
            out_sel.push(
                OutSelReg {
                    out_sel: GPIO_OUT_SIGNAL,
                    inv_sel: false,
                    oen_sel: false,
                    oen_inv_sel: false,
                },
            );
            io_mux.push(
                IoMuxReg {
                    mcu_sel: 0,
                    fun_ie: false,
                    fun_wpd: false,
                    fun_wpu: false,
                    fun_drv: 2,
                    slp_sel: false,
                    mcu_ie: false,
                    mcu_wpu: false,
                    mcu_wpd: false,
                    mcu_oe: false,
                },
            );
            rtc.push(RtcPinReg { mux_sel: false, rue: false, rde: false });
            i = i + 1;
        }
        let mut in_sel: Vec<InSelReg> = Vec::new();
        let mut s: usize = 0;
        while s < NUM_INPUT_SELECTS
            invariant
                s <= NUM_INPUT_SELECTS,
                in_sel@.len() == s,
                forall|j: int| 0 <= j < s ==> in_sel@[j] == reset_in_sel(),
            decreases NUM_INPUT_SELECTS - s,
        {
            in_sel.push(InSelReg { sel: false, in_inv_sel: false, in_sel: 0 });
            s = s + 1;
        }
        RegisterFile {
            out_en,
            out,
            input,
            int_status,
            nmi_status,
            acpu_int_status,
            acpu_nmi_status,
            pin,
            out_sel,
            in_sel,
            io_mux,
            rtc,
            dac1: DacPadReg { xpd_force: false, xpd_dac: false, value: 0 },
            dac2: DacPadReg { xpd_force: false, xpd_dac: false, value: 0 },
            dac_cw_en1: false,
            dac_cw_en2: false,
            dac_clk_gate: false,
            iomux_clk_gate: false,
        }
    }
    /// Sets bits of a bank's output-enable word (write-1-to-set).
    pub(crate) fn bank_out_en_set(&mut self, bank: usize, word: u32)
        requires
            old(self).wf(),
            bank < NUM_BANKS,
        ensures
            final(self)@ == (RegsView {
                out_en: old(self)@.out_en.update(
                    bank as int,
                    old(self)@.out_en[bank as int] | word,
                ),
                ..old(self)@
            }),
    {
        let w = self.out_en[bank];
        self.out_en[bank] = w | word;
    }

    /// Clears bits of a bank's output-enable word (write-1-to-clear).
    pub(crate) fn bank_out_en_clear(&mut self, bank: usize, word: u32)
        requires
            old(self).wf(),
            bank < NUM_BANKS,
        ensures
            final(self)@ == (RegsView {
                out_en: old(self)@.out_en.update(
                    bank as int,
                    old(self)@.out_en[bank as int] & !word,
                ),
                ..old(self)@
            }),
    {
        let w = self.out_en[bank];
        self.out_en[bank] = w & !word;
    }

    /// Sets bits of a bank's output-level word (write-1-to-set).
    pub(crate) fn bank_output_set(&mut self, bank: usize, word: u32)
        requires
            old(self).wf(),
            bank < NUM_BANKS,
        ensures
            final(self)@ == (RegsView {
                out: old(self)@.out.update(bank as int, old(self)@.out[bank as int] | word),
                ..old(self)@
            }),
    {
        let w = self.out[bank];
        self.out[bank] = w | word;
    }

    /// Clears bits of a bank's output-level word (write-1-to-clear).
    pub(crate) fn bank_output_clear(&mut self, bank: usize, word: u32)
        requires
            old(self).wf(),
            bank < NUM_BANKS,
        ensures
            final(self)@ == (RegsView {
                out: old(self)@.out.update(bank as int, old(self)@.out[bank as int] & !word),
                ..old(self)@
            }),
    {
        let w = self.out[bank];
        self.out[bank] = w & !word;
    }

    /// Clears bits of a bank's latched maskable interrupt status, on both
    /// cores' registers (write-1-to-clear).
    pub(crate) fn bank_status_clear(&mut self, bank: usize, word: u32)
        requires
            old(self).wf(),
            bank < NUM_BANKS,
        ensures
            final(self)@ == (RegsView {
                int_status: old(self)@.int_status.update(
                    bank as int,
                    old(self)@.int_status[bank as int] & !word,
                ),
                acpu_int_status: old(self)@.acpu_int_status.update(
                    bank as int,
                    old(self)@.acpu_int_status[bank as int] & !word,
                ),
                ..old(self)@
            }),
    {
        let w = self.int_status[bank];
        self.int_status[bank] = w & !word;
        let w = self.acpu_int_status[bank];
        self.acpu_int_status[bank] = w & !word;
    }

    /// Reads a bank's sensed input-level word.
    pub fn bank_read_input(&self, bank: usize) -> (r: u32)
        requires
            self.wf(),
            bank < NUM_BANKS,
        ensures
            r == self@.input[bank as int],
    {
        self.input[bank]
    }

    /// Reads a bank's commanded output-level word.
    pub fn bank_read_output(&self, bank: usize) -> (r: u32)
        requires
            self.wf(),
            bank < NUM_BANKS,
        ensures
            r == self@.out[bank as int],
    {
        self.out[bank]
    }

    /// Reads a bank's output-enable word.
    pub fn bank_read_out_en(&self, bank: usize) -> (r: u32)
        requires
            self.wf(),
            bank < NUM_BANKS,
        ensures
            r == self@.out_en[bank as int],
    {
        self.out_en[bank]
    }

    /// Reads a bank's primary-core maskable interrupt-status word.
    pub fn bank_int_status(&self, bank: usize) -> (r: u32)
        requires
            self.wf(),
            bank < NUM_BANKS,
        ensures
            r == self@.int_status[bank as int],
    {
        self.int_status[bank]
    }

    /// Reads a bank's primary-core non-maskable interrupt-status word.
    pub fn bank_nmi_status(&self, bank: usize) -> (r: u32)
        requires
            self.wf(),
            bank < NUM_BANKS,
        ensures
            r == self@.nmi_status[bank as int],
    {
        self.nmi_status[bank]
    }

    /// Reads a bank's secondary-core maskable interrupt-status word.
    pub fn bank_acpu_int_status(&self, bank: usize) -> (r: u32)
        requires
            self.wf(),
            bank < NUM_BANKS,
        ensures
            r == self@.acpu_int_status[bank as int],
    {
        self.acpu_int_status[bank]
    }

    /// Reads a bank's secondary-core non-maskable interrupt-status word.
    pub fn bank_acpu_nmi_status(&self, bank: usize) -> (r: u32)
        requires
            self.wf(),
            bank < NUM_BANKS,
        ensures
            r == self@.acpu_nmi_status[bank as int],
    {
        self.acpu_nmi_status[bank]
    }

    /// Hardware side: the electrical world drives a bank's input levels.
    pub fn drive_input_word(&mut self, bank: usize, word: u32)
        requires
            old(self).wf(),
            bank < NUM_BANKS,
        ensures
            final(self)@ == (RegsView {
                input: old(self)@.input.update(bank as int, word),
                ..old(self)@
            }),
    {
        self.input[bank] = word;
    }

    /// Hardware side: edge / level detection latches primary-core interrupt
    /// status bits (or-in, as a latch does).
    pub fn latch_interrupt_status(&mut self, bank: usize, maskable: u32, non_maskable: u32)
        requires
            old(self).wf(),
            bank < NUM_BANKS,
        ensures
            final(self)@ == (RegsView {
                int_status: old(self)@.int_status.update(
                    bank as int,
                    old(self)@.int_status[bank as int] | maskable,
                ),
                nmi_status: old(self)@.nmi_status.update(
                    bank as int,
                    old(self)@.nmi_status[bank as int] | non_maskable,
                ),
                ..old(self)@
            }),
    {
        let w = self.int_status[bank];
        self.int_status[bank] = w | maskable;
        let w = self.nmi_status[bank];
        self.nmi_status[bank] = w | non_maskable;
    }

    /// Hardware side: edge / level detection latches secondary-core interrupt
    /// status bits (or-in, as a latch does).
    pub fn latch_acpu_interrupt_status(&mut self, bank: usize, maskable: u32, non_maskable: u32)
        requires
            old(self).wf(),
            bank < NUM_BANKS,
        ensures
            final(self)@ == (RegsView {
                acpu_int_status: old(self)@.acpu_int_status.update(
                    bank as int,
                    old(self)@.acpu_int_status[bank as int] | maskable,
                ),
                acpu_nmi_status: old(self)@.acpu_nmi_status.update(
                    bank as int,
                    old(self)@.acpu_nmi_status[bank as int] | non_maskable,
                ),
                ..old(self)@
            }),
    {
        let w = self.acpu_int_status[bank];
        self.acpu_int_status[bank] = w | maskable;
        let w = self.acpu_nmi_status[bank];
        self.acpu_nmi_status[bank] = w | non_maskable;
    }

    /// Programs a pin's output selector to a signal id, keeping the flags.
    pub(crate) fn set_output_signal(&mut self, num: u8, signal: u16)
        requires
            old(self).wf(),
            (num as int) < NUM_PINS,
        ensures
            final(self)@ == (RegsView {
                out_sel: old(self)@.out_sel.update(
                    num as int,
                    (OutSelReg { out_sel: signal, ..old(self)@.out_sel[num as int] }),
                ),
                ..old(self)@
            }),
    {
        let old_reg = self.out_sel[num as usize];
        self.out_sel[num as usize] = OutSelReg { out_sel: signal, ..old_reg };
    }

    /// Programs a pin's whole output selector: signal id and the three flags.
    pub(crate) fn configure_out_sel(
        &mut self,
        num: u8,
        signal: u16,
        invert: bool,
        oen: bool,
        oen_inv: bool,
    )
        requires
            old(self).wf(),
            (num as int) < NUM_PINS,
        ensures
            final(self)@ == (RegsView {
                out_sel: old(self)@.out_sel.update(
                    num as int,
                    (OutSelReg {
                        out_sel: signal,
                        inv_sel: invert,
                        oen_sel: oen,
                        oen_inv_sel: oen_inv,
                    }),
                ),
                ..old(self)@
            }),
    {
        self.out_sel[num as usize] = OutSelReg {
            out_sel: signal,
            inv_sel: invert,
            oen_sel: oen,
            oen_inv_sel: oen_inv,
        };
    }

    /// Ties a signal's matrix input to a constant level.
    pub(crate) fn set_signal_to_level(&mut self, signal: u16, high: bool)
        requires
            old(self).wf(),
            (signal as int) < NUM_INPUT_SELECTS,
        ensures
            final(self)@ == (RegsView {
                in_sel: old(self)@.in_sel.update(
                    signal as int,
                    (InSelReg {
                        sel: true,
                        in_inv_sel: false,
                        in_sel: if high {
                            ONE_INPUT
                        } else {
                            ZERO_INPUT
                        },
                    }),
                ),
                ..old(self)@
            }),
    {
        self.in_sel[signal as usize] = InSelReg {
            sel: true,
            in_inv_sel: false,
            in_sel: if high { ONE_INPUT } else { ZERO_INPUT },
        };
    }

    /// Routes a signal's matrix input from a pin, with optional inversion.
    pub(crate) fn set_in_sel(&mut self, signal: u16, invert: bool, num: u8)
        requires
            old(self).wf(),
            (signal as int) < NUM_INPUT_SELECTS,
        ensures
            final(self)@ == (RegsView {
                in_sel: old(self)@.in_sel.update(
                    signal as int,
                    (InSelReg { sel: true, in_inv_sel: invert, in_sel: num }),
                ),
                ..old(self)@
            }),
    {
        self.in_sel[signal as usize] = InSelReg { sel: true, in_inv_sel: invert, in_sel: num };
    }

    /// Releases a signal's matrix path, keeping the other fields.
    pub(crate) fn clear_func_in_sel(&mut self, signal: u16)
        requires
            old(self).wf(),
            (signal as int) < NUM_INPUT_SELECTS,
        ensures
            final(self)@ == (RegsView {
                in_sel: old(self)@.in_sel.update(
                    signal as int,
                    (InSelReg { sel: false, ..old(self)@.in_sel[signal as int] }),
                ),
                ..old(self)@
            }),
    {
        let old_reg = self.in_sel[signal as usize];
        self.in_sel[signal as usize] = InSelReg { sel: false, ..old_reg };
    }

    /// Programs a pin's interrupt fields, keeping the open-drain bit.
    pub(crate) fn set_int_enable(
        &mut self,
        num: u8,
        int_ena: u8,
        int_type: u8,
        wake_up_from_light_sleep: bool,
    )
        requires
            old(self).wf(),
            (num as int) < NUM_PINS,
        ensures
            final(self)@ == (RegsView {
                pin: old(self)@.pin.update(
                    num as int,
                    (PinReg {
                        int_ena: int_ena,
                        int_type: int_type,
                        wakeup_enable: wake_up_from_light_sleep,
                        pad_driver: old(self)@.pin[num as int].pad_driver,
                    }),
                ),
                ..old(self)@
            }),
    {
        let old_reg = self.pin[num as usize];
        self.pin[num as usize] = PinReg {
            int_ena: int_ena,
            int_type: int_type,
            wakeup_enable: wake_up_from_light_sleep,
            pad_driver: old_reg.pad_driver,
        };
    }

    /// Clears a pin's interrupt enable and event type, keeping the rest.
    pub(crate) fn clear_int_enable(&mut self, num: u8)
        requires
            old(self).wf(),
            (num as int) < NUM_PINS,
        ensures
            final(self)@ == (RegsView {
                pin: old(self)@.pin.update(
                    num as int,
                    (PinReg { int_ena: 0, int_type: 0, ..old(self)@.pin[num as int] }),
                ),
                ..old(self)@
            }),
    {
        let old_reg = self.pin[num as usize];
        self.pin[num as usize] = PinReg { int_ena: 0, int_type: 0, ..old_reg };
    }

    /// Sets or clears a pin's open-drain bit, keeping the rest.
    pub(crate) fn set_open_drain(&mut self, num: u8, open_drain: bool)
        requires
            old(self).wf(),
            (num as int) < NUM_PINS,
        ensures
            final(self)@ == (RegsView {
                pin: old(self)@.pin.update(
                    num as int,
                    (PinReg { pad_driver: open_drain, ..old(self)@.pin[num as int] }),
                ),
                ..old(self)@
            }),
    {
        let old_reg = self.pin[num as usize];
        self.pin[num as usize] = PinReg { pad_driver: open_drain, ..old_reg };
    }

    /// Programs a pin's multiplexer for an input mode: GPIO function, input
    /// buffer on, the requested pulls, sleep-select off.
    pub(crate) fn iomux_input_cfg(&mut self, num: u8, pull_down: bool, pull_up: bool)
        requires
            old(self).wf(),
            (num as int) < NUM_PINS,
        ensures
            final(self)@ == (RegsView {
                io_mux: old(self)@.io_mux.update(
                    num as int,
                    (IoMuxReg {
                        mcu_sel: 0,
                        fun_ie: true,
                        fun_wpd: pull_down,
                        fun_wpu: pull_up,
                        slp_sel: false,
                        ..old(self)@.io_mux[num as int]
                    }),
                ),
                ..old(self)@
            }),
    {
        let old_reg = self.io_mux[num as usize];
        self.io_mux[num as usize] = IoMuxReg {
            mcu_sel: 0,
            fun_ie: true,
            fun_wpd: pull_down,
            fun_wpu: pull_up,
            slp_sel: false,
            ..old_reg
        };
    }

    /// Programs a pin's multiplexer for an output mode: the given function
    /// code, input buffer only for open drain, pulls off, default drive
    /// strength, sleep-select off.
    pub(crate) fn iomux_output_cfg(&mut self, num: u8, alternate: u8, open_drain: bool)
        requires
            old(self).wf(),
            (num as int) < NUM_PINS,
        ensures
            final(self)@ == (RegsView {
                io_mux: old(self)@.io_mux.update(
                    num as int,
                    (IoMuxReg {
                        mcu_sel: alternate,
                        fun_ie: open_drain,
                        fun_wpd: false,
                        fun_wpu: false,
                        fun_drv: 2,
                        slp_sel: false,
                        ..old(self)@.io_mux[num as int]
                    }),
                ),
                ..old(self)@
            }),
    {
        let old_reg = self.io_mux[num as usize];
        self.io_mux[num as usize] = IoMuxReg {
            mcu_sel: alternate,
            fun_ie: open_drain,
            fun_wpd: false,
            fun_wpu: false,
            fun_drv: 2,
            slp_sel: false,
            ..old_reg
        };
    }

    /// Programs a pin's multiplexer for the analog subsystem: input buffer
    /// off, both pulls off, GPIO function code.
    pub(crate) fn iomux_analog_cfg(&mut self, num: u8)
        requires
            old(self).wf(),
            (num as int) < NUM_PINS,
        ensures
            final(self)@ == (RegsView {
                io_mux: old(self)@.io_mux.update(
                    num as int,
                    (IoMuxReg {
                        mcu_sel: 0,
                        fun_ie: false,
                        fun_wpd: false,
                        fun_wpu: false,
                        ..old(self)@.io_mux[num as int]
                    }),
                ),
                ..old(self)@
            }),
    {
        let old_reg = self.io_mux[num as usize];
        self.io_mux[num as usize] = IoMuxReg {
            mcu_sel: 0,
            fun_ie: false,
            fun_wpd: false,
            fun_wpu: false,
            ..old_reg
        };
    }

    /// Sets one boolean multiplexer field of a pin, keeping the rest. The
    /// field is chosen by `field`, one of the `IOMUX_FIELD_` constants.
    pub(crate) fn iomux_set_flag(&mut self, num: u8, field: u8, on: bool)
        requires
            old(self).wf(),
            (num as int) < NUM_PINS,
            field <= IOMUX_FIELD_MCU_OE,
        ensures
            final(self)@ == (RegsView {
                io_mux: old(self)@.io_mux.update(
                    num as int,
                    iomux_with_flag(old(self)@.io_mux[num as int], field, on),
                ),
                ..old(self)@
            }),
    {
        let old_reg = self.io_mux[num as usize];
        self.io_mux[num as usize] = if field == IOMUX_FIELD_FUN_IE {
            IoMuxReg { fun_ie: on, ..old_reg }
        } else if field == IOMUX_FIELD_FUN_WPD {
            IoMuxReg { fun_wpd: on, ..old_reg }
        } else if field == IOMUX_FIELD_FUN_WPU {
            IoMuxReg { fun_wpu: on, ..old_reg }
        } else if field == IOMUX_FIELD_SLP_SEL {
            IoMuxReg { slp_sel: on, ..old_reg }
        } else if field == IOMUX_FIELD_MCU_IE {
            IoMuxReg { mcu_ie: on, ..old_reg }
        } else if field == IOMUX_FIELD_MCU_WPU {
            IoMuxReg { mcu_wpu: on, ..old_reg }
        } else if field == IOMUX_FIELD_MCU_WPD {
            IoMuxReg { mcu_wpd: on, ..old_reg }
        } else {
            IoMuxReg { mcu_oe: on, ..old_reg }
        };
    }

    /// Programs a pin's function-select field, keeping the rest.
    pub(crate) fn iomux_set_mcu_sel(&mut self, num: u8, code: u8)
        requires
            old(self).wf(),
            (num as int) < NUM_PINS,
        ensures
            final(self)@ == (RegsView {
                io_mux: old(self)@.io_mux.update(
                    num as int,
                    (IoMuxReg { mcu_sel: code, ..old(self)@.io_mux[num as int] }),
                ),
                ..old(self)@
            }),
    {
        let old_reg = self.io_mux[num as usize];
        self.io_mux[num as usize] = IoMuxReg { mcu_sel: code, ..old_reg };
    }

    /// Programs a pin's drive-strength field, keeping the rest.
    pub(crate) fn iomux_set_fun_drv(&mut self, num: u8, code: u8)
        requires
            old(self).wf(),
            (num as int) < NUM_PINS,
        ensures
            final(self)@ == (RegsView {
                io_mux: old(self)@.io_mux.update(
                    num as int,
                    (IoMuxReg { fun_drv: code, ..old(self)@.io_mux[num as int] }),
                ),
                ..old(self)@
            }),
    {
        let old_reg = self.io_mux[num as usize];
        self.io_mux[num as usize] = IoMuxReg { fun_drv: code, ..old_reg };
    }

    /// Programs a pin's RTC-domain pull resistors, keeping the routing bit.
    pub(crate) fn rtc_pull_cfg(&mut self, num: u8, pull_up: bool, pull_down: bool)
        requires
            old(self).wf(),
            (num as int) < NUM_PINS,
        ensures
            final(self)@ == (RegsView {
                rtc: old(self)@.rtc.update(
                    num as int,
                    (RtcPinReg { rue: pull_up, rde: pull_down, ..old(self)@.rtc[num as int] }),
                ),
                ..old(self)@
            }),
    {
        let old_reg = self.rtc[num as usize];
        self.rtc[num as usize] = RtcPinReg { rue: pull_up, rde: pull_down, ..old_reg };
    }

    /// Routes a pin to the analog / RTC subsystem, with both pulls off.
    pub(crate) fn rtc_analog_cfg(&mut self, num: u8)
        requires
            old(self).wf(),
            (num as int) < NUM_PINS,
        ensures
            final(self)@ == (RegsView {
                rtc: old(self)@.rtc.update(
                    num as int,
                    (RtcPinReg { mux_sel: true, rue: false, rde: false }),
                ),
                ..old(self)@
            }),
    {
        self.rtc[num as usize] = RtcPinReg { mux_sel: true, rue: false, rde: false };
    }

    /// Reads back a pin's multiplexer record.
    pub fn io_mux_cfg(&self, num: u8) -> (r: IoMuxReg)
        requires
            self.wf(),
            (num as int) < NUM_PINS,
        ensures
            r == self@.io_mux[num as int],
    {
        self.io_mux[num as usize]
    }

    /// Reads back a pin's control record.
    pub fn pin_cfg(&self, num: u8) -> (r: PinReg)
        requires
            self.wf(),
            (num as int) < NUM_PINS,
        ensures
            r == self@.pin[num as int],
    {
        self.pin[num as usize]
    }

    /// Reads back a pin's output-selector record.
    pub fn out_sel_cfg(&self, num: u8) -> (r: OutSelReg)
        requires
            self.wf(),
            (num as int) < NUM_PINS,
        ensures
            r == self@.out_sel[num as int],
    {
        self.out_sel[num as usize]
    }

    /// Reads back a signal's input-selector record.
    pub fn in_sel_cfg(&self, signal: u16) -> (r: InSelReg)
        requires
            self.wf(),
            (signal as int) < NUM_INPUT_SELECTS,
        ensures
            r == self@.in_sel[signal as int],
    {
        self.in_sel[signal as usize]
    }

    /// Reads back a pin's RTC / analog domain record.
    pub fn rtc_cfg(&self, num: u8) -> (r: RtcPinReg)
        requires
            self.wf(),
            (num as int) < NUM_PINS,
        ensures
            r == self@.rtc[num as int],
    {
        self.rtc[num as usize]
    }

    /// Reads back a converter pad register.
    pub fn dac_cfg(&self, second: bool) -> (r: DacPadReg)
        ensures
            r == if second {
                self@.dac2
            } else {
                self@.dac1
            },
    {
        if second {
            self.dac2
        } else {
            self.dac1
        }
    }

    /// Powers a converter on by software force.
    pub(crate) fn dac_power_on(&mut self, second: bool)
        ensures
            final(self)@ == if second {
                (RegsView {
                    dac2: (DacPadReg { xpd_force: true, xpd_dac: true, ..old(self)@.dac2 }),
                    dac_clk_gate: true,
                    ..old(self)@
                })
            } else {
                (RegsView {
                    dac1: (DacPadReg { xpd_force: true, xpd_dac: true, ..old(self)@.dac1 }),
                    dac_clk_gate: true,
                    ..old(self)@
                })
            },
    {
        self.dac_clk_gate = true;
        if second {
            self.dac2 = DacPadReg { xpd_force: true, xpd_dac: true, ..self.dac2 };
        } else {
            self.dac1 = DacPadReg { xpd_force: true, xpd_dac: true, ..self.dac1 };
        }
    }

    /// Writes a converter's value, turning its cosine-wave generator off.
    pub(crate) fn dac_write(&mut self, second: bool, value: u8)
        ensures
            final(self)@ == if second {
                (RegsView {
                    dac2: (DacPadReg { value: value, ..old(self)@.dac2 }),
                    dac_cw_en2: false,
                    ..old(self)@
                })
            } else {
                (RegsView {
                    dac1: (DacPadReg { value: value, ..old(self)@.dac1 }),
                    dac_cw_en1: false,
                    ..old(self)@
                })
            },
    {
        if second {
            self.dac_cw_en2 = false;
            self.dac2 = DacPadReg { value: value, ..self.dac2 };
        } else {
            self.dac_cw_en1 = false;
            self.dac1 = DacPadReg { value: value, ..self.dac1 };
        }
    }

    /// Opens the clock gate of the I/O-multiplexer block.
    pub(crate) fn set_iomux_clk_gate(&mut self)
        ensures
            final(self)@ == (RegsView { iomux_clk_gate: true, ..old(self)@ }),
    {
        self.iomux_clk_gate = true;
    }

    /// Reads back the I/O-multiplexer clock gate.
    pub fn iomux_clk_gate(&self) -> (r: bool)
        ensures
            r == self@.iomux_clk_gate,
    {
        self.iomux_clk_gate
    }
}

/// Field selectors for [`RegisterFile::iomux_set_flag`].
pub const IOMUX_FIELD_FUN_IE: u8 = 0;

/// Field selector for the weak pull-down.
pub const IOMUX_FIELD_FUN_WPD: u8 = 1;

/// Field selector for the weak pull-up.
pub const IOMUX_FIELD_FUN_WPU: u8 = 2;

/// Field selector for the sleep select.
pub const IOMUX_FIELD_SLP_SEL: u8 = 3;

/// Field selector for the input enable during sleep.
pub const IOMUX_FIELD_MCU_IE: u8 = 4;

/// Field selector for the pull-up during sleep.
pub const IOMUX_FIELD_MCU_WPU: u8 = 5;

/// Field selector for the pull-down during sleep.
pub const IOMUX_FIELD_MCU_WPD: u8 = 6;

/// Field selector for the output enable during sleep.
pub const IOMUX_FIELD_MCU_OE: u8 = 7;

/// A multiplexer record with one boolean field replaced.
pub open spec fn iomux_with_flag(r: IoMuxReg, field: u8, on: bool) -> IoMuxReg {
    if field == IOMUX_FIELD_FUN_IE {
        IoMuxReg { fun_ie: on, ..r }
    } else if field == IOMUX_FIELD_FUN_WPD {
        IoMuxReg { fun_wpd: on, ..r }
    } else if field == IOMUX_FIELD_FUN_WPU {
        IoMuxReg { fun_wpu: on, ..r }
    } else if field == IOMUX_FIELD_SLP_SEL {
        IoMuxReg { slp_sel: on, ..r }
    } else if field == IOMUX_FIELD_MCU_IE {
        IoMuxReg { mcu_ie: on, ..r }
    } else if field == IOMUX_FIELD_MCU_WPU {
        IoMuxReg { mcu_wpu: on, ..r }
    } else if field == IOMUX_FIELD_MCU_WPD {
        IoMuxReg { mcu_wpd: on, ..r }
    } else {
        IoMuxReg { mcu_oe: on, ..r }
    }
}

/// Opens the clock gate that the analog entry sequence depends on.
pub fn enable_iomux_clk_gate(regs: &mut RegisterFile)
    ensures
        final(regs)@ == (RegsView { iomux_clk_gate: true, ..old(regs)@ }),
{
    regs.set_iomux_clk_gate();
}

} // verus!
