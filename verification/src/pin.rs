//! The pin state machine and the signal router.
//!
//! A [`GpioPin`] owns the register-level capability for one physical pin.
//! Its electrical mode and capability class are type parameters: a mode
//! transition consumes the pin and returns a handle of the new mode's type,
//! and operations are offered only where the capability class admits them.
//! Every transition's complete register effect is a spec-level transformer
//! of the register map view, so what a transition wrote — and what it left
//! alone — is part of its contract.

use core::marker::PhantomData;
use vstd::prelude::*;
use crate::GpioError;
use crate::bank::BankGpioRegisterAccess;
use crate::interrupt::{
    InteruptStatusRegisterAccess,
    InterruptStatusRegisters,
    SingleCoreInteruptStatusRegisterAccess,
};
use crate::regs::{
    bank_of,
    iomux_with_flag,
    pin_mask,
    InSelReg,
    IoMuxReg,
    OutSelReg,
    PinReg,
    RegisterFile,
    RegsView,
    RtcPinReg,
    GPIO_OUT_SIGNAL,
    INPUT_SIGNAL_MAX,
    IOMUX_FIELD_FUN_IE,
    IOMUX_FIELD_FUN_WPD,
    IOMUX_FIELD_FUN_WPU,
    IOMUX_FIELD_MCU_IE,
    IOMUX_FIELD_MCU_OE,
    IOMUX_FIELD_MCU_WPD,
    IOMUX_FIELD_MCU_WPU,
    IOMUX_FIELD_SLP_SEL,
    NUM_PINS,
    OUTPUT_SIGNAL_MAX,
};
use crate::types::{
    spec_drive_code,
    spec_event_code,
    spec_function_code,
    spec_input_id,
    spec_intr_enable,
    spec_is_edge,
    spec_output_id,
    AlternateFunction,
    AnalogPin,
    Alternate,
    Analog,
    DriveStrength,
    Event,
    Floating,
    Input,
    InputSignal,
    IsAnalogPin,
    IsOutputPin,
    OpenDrain,
    Output,
    OutputSignal,
    PinType,
    PullDown,
    PullUp,
    PushPull,
    AF1,
    AF2,
};

verus! {

/// Pin numbers whose weak pull resistors are additionally controlled by the
/// RTC domain: on the chip variant with the documented pull-resistor
/// erratum, the input transition programs those RTC-domain bits too, before
/// the normal multiplexer write.
pub open spec fn erratum_pull_applies(num: int) -> bool {
    (25 <= num < 28) || (32 <= num < NUM_PINS as int)
}

/// Exec mirror of [`erratum_pull_applies`].
fn errata_pull_pin(num: u8) -> (r: bool)
    ensures
        r == erratum_pull_applies(num as int),
{
    (num >= 25 && num < 28) || (num >= 32 && (num as usize) < NUM_PINS)
}

/// The register map after configuring pin `num` as an input with the given
/// weak pulls: output enable cleared, output selector rebound to plain GPIO,
/// the erratum workaround where it applies, and the multiplexer programmed
/// to the GPIO function with the input buffer on.
pub open spec fn with_input_config(rv: RegsView, num: int, pull_down: bool, pull_up: bool) -> RegsView {
    let b = bank_of(num);
    let m = pin_mask(num);
    let rv1 = RegsView { out_en: rv.out_en.update(b, rv.out_en[b] & !m), ..rv };
    let rv2 = RegsView {
        out_sel: rv1.out_sel.update(
            num,
            OutSelReg { out_sel: GPIO_OUT_SIGNAL, ..rv1.out_sel[num] },
        ),
        ..rv1
    };
    let rv3 = if erratum_pull_applies(num) {
        RegsView {
            rtc: rv2.rtc.update(num, RtcPinReg { rue: pull_up, rde: pull_down, ..rv2.rtc[num] }),
            ..rv2
        }
    } else {
        rv2
    };
    RegsView {
        io_mux: rv3.io_mux.update(
            num,
            IoMuxReg {
                mcu_sel: 0,
                fun_ie: true,
                fun_wpd: pull_down,
                fun_wpu: pull_up,
                slp_sel: false,
                ..rv3.io_mux[num]
            },
        ),
        ..rv3
    }
}

/// The register map after configuring pin `num` as an output with function
/// code `alternate`: output enable set, open-drain bit as requested, output
/// selector rebound to plain GPIO, and the multiplexer programmed with both
/// pulls off and the default drive strength. The input buffer stays on only
/// for open drain, whose pad can be read back externally.
pub open spec fn with_output_config(rv: RegsView, num: int, alternate: u8, open_drain: bool) -> RegsView {
    let b = bank_of(num);
    let m = pin_mask(num);
    let rv1 = RegsView { out_en: rv.out_en.update(b, rv.out_en[b] | m), ..rv };
    let rv2 = RegsView {
        pin: rv1.pin.update(num, PinReg { pad_driver: open_drain, ..rv1.pin[num] }),
        ..rv1
    };
    let rv3 = RegsView {
        out_sel: rv2.out_sel.update(
            num,
            OutSelReg { out_sel: GPIO_OUT_SIGNAL, ..rv2.out_sel[num] },
        ),
        ..rv2
    };
    RegsView {
        io_mux: rv3.io_mux.update(
            num,
            IoMuxReg {
                mcu_sel: alternate,
                fun_ie: open_drain,
                fun_wpd: false,
                fun_wpu: false,
                fun_drv: 2,
                slp_sel: false,
                ..rv3.io_mux[num]
            },
        ),
        ..rv3
    }
}

/// The register map after handing pin `num` to the analog subsystem: clock
/// gate opened, input buffer and both multiplexer pulls off, GPIO function
/// code, output enable cleared, open drain off, and the pad routed to the
/// RTC / analog domain with its pulls off.
pub open spec fn with_analog_config(rv: RegsView, num: int) -> RegsView {
    let b = bank_of(num);
    let m = pin_mask(num);
    let rv1 = RegsView { iomux_clk_gate: true, ..rv };
    let rv2 = RegsView {
        io_mux: rv1.io_mux.update(
            num,
            IoMuxReg {
                mcu_sel: 0,
                fun_ie: false,
                fun_wpd: false,
                fun_wpu: false,
                ..rv1.io_mux[num]
            },
        ),
        ..rv1
    };
    let rv3 = RegsView { out_en: rv2.out_en.update(b, rv2.out_en[b] & !m), ..rv2 };
    let rv4 = RegsView {
        pin: rv3.pin.update(num, PinReg { pad_driver: false, ..rv3.pin[num] }),
        ..rv3
    };
    RegsView {
        rtc: rv4.rtc.update(num, RtcPinReg { mux_sel: true, rue: false, rde: false }),
        ..rv4
    }
}

/// The register map with pin `num`'s function-select field reprogrammed.
pub open spec fn with_mcu_sel(rv: RegsView, num: int, code: u8) -> RegsView {
    RegsView {
        io_mux: rv.io_mux.update(num, IoMuxReg { mcu_sel: code, ..rv.io_mux[num] }),
        ..rv
    }
}

/// The register map with one boolean multiplexer field of pin `num` set.
pub open spec fn with_iomux_flag(rv: RegsView, num: int, field: u8, on: bool) -> RegsView {
    RegsView {
        io_mux: rv.io_mux.update(num, iomux_with_flag(rv.io_mux[num], field, on)),
        ..rv
    }
}

/// The register map with pin `num`'s interrupt fields programmed; the
/// open-drain bit is untouched.
pub open spec fn with_int_config(rv: RegsView, num: int, ena: u8, typ: u8, wake: bool) -> RegsView {
    RegsView {
        pin: rv.pin.update(
            num,
            PinReg { int_ena: ena, int_type: typ, wakeup_enable: wake, pad_driver: rv.pin[num].pad_driver },
        ),
        ..rv
    }
}

/// The register map with pin `num`'s latched maskable interrupt status
/// cleared, on both cores' registers.
pub open spec fn with_status_cleared(rv: RegsView, num: int) -> RegsView {
    let b = bank_of(num);
    let m = pin_mask(num);
    RegsView {
        int_status: rv.int_status.update(b, rv.int_status[b] & !m),
        acpu_int_status: rv.acpu_int_status.update(b, rv.acpu_int_status[b] & !m),
        ..rv
    }
}

/// The first (lowest-index) slot at or after `i` holding input signal `s`.
pub open spec fn first_input_slot(
    t: Seq<Option<InputSignal>>,
    s: InputSignal,
    i: int,
) -> Option<int>
    decreases t.len() - i,
{
    if i < 0 || i >= t.len() {
        None
    } else if t[i] == Some(s) {
        Some(i)
    } else {
        first_input_slot(t, s, i + 1)
    }
}

/// The pin's dedicated slot for input signal `s`, if its table has one.
pub open spec fn dedicated_input_slot(t: Seq<Option<InputSignal>>, s: InputSignal) -> Option<int> {
    first_input_slot(t, s, 0)
}

/// The first (lowest-index) slot at or after `i` holding output signal `s`.
pub open spec fn first_output_slot(
    t: Seq<Option<OutputSignal>>,
    s: OutputSignal,
    i: int,
) -> Option<int>
    decreases t.len() - i,
{
    if i < 0 || i >= t.len() {
        None
    } else if t[i] == Some(s) {
        Some(i)
    } else {
        first_output_slot(t, s, i + 1)
    }
}

/// The pin's dedicated slot for output signal `s`, if its table has one.
pub open spec fn dedicated_output_slot(t: Seq<Option<OutputSignal>>, s: OutputSignal) -> Option<int> {
    first_output_slot(t, s, 0)
}

/// Whether an input connection takes the dedicated path: the caller did not
/// force the matrix and the table lists the signal.
pub open spec fn input_uses_dedicated(
    t: Seq<Option<InputSignal>>,
    s: InputSignal,
    force: bool,
) -> bool {
    !force && dedicated_input_slot(t, s) is Some
}

/// The function code an input connection selects: the winning slot's index,
/// or the GPIO code when the matrix is used.
pub open spec fn input_af_code(t: Seq<Option<InputSignal>>, s: InputSignal, force: bool) -> int {
    if input_uses_dedicated(t, s, force) {
        dedicated_input_slot(t, s)->Some_0
    } else {
        0
    }
}

/// Whether the connection is possible at all: either a dedicated slot wins,
/// or the signal id is within the matrix's range.
pub open spec fn input_routable(t: Seq<Option<InputSignal>>, s: InputSignal, force: bool) -> bool {
    input_uses_dedicated(t, s, force) || spec_input_id(s) <= INPUT_SIGNAL_MAX
}

/// Whether an output connection takes the dedicated path.
pub open spec fn output_uses_dedicated(
    t: Seq<Option<OutputSignal>>,
    s: OutputSignal,
    force: bool,
) -> bool {
    !force && dedicated_output_slot(t, s) is Some
}

/// The function code an output connection selects.
pub open spec fn output_af_code(t: Seq<Option<OutputSignal>>, s: OutputSignal, force: bool) -> int {
    if output_uses_dedicated(t, s, force) {
        dedicated_output_slot(t, s)->Some_0
    } else {
        0
    }
}

/// An output signal id clipped to the matrix's range; ids beyond it degrade
/// to `GPIO_OUT_SIGNAL`, plain GPIO drive.
pub open spec fn clipped_output_id(s: OutputSignal) -> u16 {
    if spec_output_id(s) <= OUTPUT_SIGNAL_MAX {
        spec_output_id(s)
    } else {
        OUTPUT_SIGNAL_MAX
    }
}

/// The register map after connecting an input signal with id `sid` to pin
/// `num` under function code `code`: the function select is programmed, and
/// the matrix entry is written exactly when the id is within matrix range.
pub open spec fn input_connect_view(
    rv: RegsView,
    num: int,
    code: u8,
    sid: int,
    invert: bool,
) -> RegsView {
    let rv1 = with_mcu_sel(rv, num, code);
    if sid <= INPUT_SIGNAL_MAX as int {
        RegsView {
            in_sel: rv1.in_sel.update(
                sid,
                InSelReg { sel: true, in_inv_sel: invert, in_sel: num as u8 },
            ),
            ..rv1
        }
    } else {
        rv1
    }
}

/// The register map after disconnecting input signal id `sid` from pin
/// `num`: function select back to GPIO; the matrix entry, where one exists,
/// is released with its other fields kept.
pub open spec fn input_disconnect_view(rv: RegsView, num: int, sid: int) -> RegsView {
    let rv1 = with_mcu_sel(rv, num, 0);
    if sid <= INPUT_SIGNAL_MAX as int {
        RegsView {
            in_sel: rv1.in_sel.update(sid, InSelReg { sel: false, ..rv1.in_sel[sid] }),
            ..rv1
        }
    } else {
        rv1
    }
}

/// The register map after connecting an output signal to pin `num`: the
/// function select is programmed and the pin's whole output selector is
/// written — clipped signal id and all three flags.
pub open spec fn output_connect_view(
    rv: RegsView,
    num: int,
    code: u8,
    clipped: u16,
    invert: bool,
    invert_enable: bool,
    enable_from_gpio: bool,
) -> RegsView {
    let rv1 = with_mcu_sel(rv, num, code);
    RegsView {
        out_sel: rv1.out_sel.update(
            num,
            OutSelReg {
                out_sel: clipped,
                inv_sel: invert,
                oen_sel: enable_from_gpio,
                oen_inv_sel: invert_enable,
            },
        ),
        ..rv1
    }
}

/// The register map after disconnecting pin `num` from its output signal:
/// function select back to GPIO and the selector rebound to plain GPIO
/// drive, keeping the selector's flags.
pub open spec fn output_disconnect_view(rv: RegsView, num: int) -> RegsView {
    let rv1 = with_mcu_sel(rv, num, 0);
    RegsView {
        out_sel: rv1.out_sel.update(
            num,
            OutSelReg { out_sel: GPIO_OUT_SIGNAL, ..rv1.out_sel[num] },
        ),
        ..rv1
    }
}

/// One physical pin in electrical mode `MODE`, bound to register bank `RA`,
/// of capability class `PINTYPE`. Exactly one value exists per pin number;
/// the collection builder creates each once and pins are moved, never
/// copied, through transitions.
#[verifier::reject_recursive_types(MODE)]
#[verifier::reject_recursive_types(PINTYPE)]
pub struct GpioPin<MODE, RA, PINTYPE> {
    _mode: PhantomData<MODE>,
    _pintype: PhantomData<PINTYPE>,
    reg_access: RA,
    num: u8,
    af_input_signals: [Option<InputSignal>; 6],
    af_output_signals: [Option<OutputSignal>; 6],
}

impl<MODE, RA: BankGpioRegisterAccess, PINTYPE: PinType> GpioPin<MODE, RA, PINTYPE> {
    /// Builds the unique handle for pin `num`; only the collection builder
    /// calls this, once per physical pin.
    pub(crate) fn new_pin(
        reg_access: RA,
        num: u8,
        af_input_signals: [Option<InputSignal>; 6],
        af_output_signals: [Option<OutputSignal>; 6],
    ) -> (r: Self)
        requires
            (num as int) < NUM_PINS as int,
            reg_access.bank() == bank_of(num as int),
        ensures
            r.wf(),
            r.pnum() == num as int,
            r.af_in() == af_input_signals@,
            r.af_out() == af_output_signals@,
    {
        GpioPin {
            _mode: PhantomData,
            _pintype: PhantomData,
            reg_access,
            num,
            af_input_signals,
            af_output_signals,
        }
    }

    /// Clears output enable, rebinds the output selector to plain GPIO,
    /// applies the pull-resistor erratum workaround where it applies, and
    /// programs the multiplexer for an input with the given pulls.
    fn init_input(&self, regs: &mut RegisterFile, pull_down: bool, pull_up: bool)
        requires
            self.wf(),
            old(regs).wf(),
        ensures
            final(regs)@ == with_input_config(old(regs)@, self.pnum(), pull_down, pull_up),
            final(regs).wf(),
    {
        let mask = 1u32 << ((self.num % 32) as u32);
        self.reg_access.write_out_en_clear(regs, mask);
        regs.set_output_signal(self.num, GPIO_OUT_SIGNAL);
        if errata_pull_pin(self.num) {
            regs.rtc_pull_cfg(self.num, pull_up, pull_down);
        }
        regs.iomux_input_cfg(self.num, pull_down, pull_up);
        proof {
            assert(regs@ =~= with_input_config(old(regs)@, self.pnum(), pull_down, pull_up));
        }
    }

    /// Moves the pin to floating-input mode.
    pub fn into_floating_input(self, regs: &mut RegisterFile) -> (r: GpioPin<
        Input<Floating>,
        RA,
        PINTYPE,
    >)
        requires
            self.wf(),
            old(regs).wf(),
        ensures
            final(regs)@ == with_input_config(old(regs)@, self.pnum(), false, false),
            final(regs).wf(),
            r.wf(),
            r.pnum() == self.pnum(),
            r.af_in() == self.af_in(),
            r.af_out() == self.af_out(),
    {
        self.init_input(regs, false, false);
        GpioPin {
            _mode: PhantomData,
            _pintype: PhantomData,
            reg_access: self.reg_access,
            num: self.num,
            af_input_signals: self.af_input_signals,
            af_output_signals: self.af_output_signals,
        }
    }

    /// Moves the pin to pull-up-input mode.
    pub fn into_pull_up_input(self, regs: &mut RegisterFile) -> (r: GpioPin<
        Input<PullUp>,
        RA,
        PINTYPE,
    >)
        requires
            self.wf(),
            old(regs).wf(),
        ensures
            final(regs)@ == with_input_config(old(regs)@, self.pnum(), false, true),
            final(regs).wf(),
            r.wf(),
            r.pnum() == self.pnum(),
            r.af_in() == self.af_in(),
            r.af_out() == self.af_out(),
    {
        self.init_input(regs, false, true);
        GpioPin {
            _mode: PhantomData,
            _pintype: PhantomData,
            reg_access: self.reg_access,
            num: self.num,
            af_input_signals: self.af_input_signals,
            af_output_signals: self.af_output_signals,
        }
    }

    /// Moves the pin to pull-down-input mode.
    pub fn into_pull_down_input(self, regs: &mut RegisterFile) -> (r: GpioPin<
        Input<PullDown>,
        RA,
        PINTYPE,
    >)
        requires
            self.wf(),
            old(regs).wf(),
        ensures
            final(regs)@ == with_input_config(old(regs)@, self.pnum(), true, false),
            final(regs).wf(),
            r.wf(),
            r.pnum() == self.pnum(),
            r.af_in() == self.af_in(),
            r.af_out() == self.af_out(),
    {
        self.init_input(regs, true, false);
        GpioPin {
            _mode: PhantomData,
            _pintype: PhantomData,
            reg_access: self.reg_access,
            num: self.num,
            af_input_signals: self.af_input_signals,
            af_output_signals: self.af_output_signals,
        }
    }
}

impl<MODE, RA: BankGpioRegisterAccess, PINTYPE: IsOutputPin> GpioPin<MODE, RA, PINTYPE> {
    /// Sets output enable and the open-drain bit, rebinds the output
    /// selector to plain GPIO, and programs the multiplexer for an output
    /// under the given function code.
    fn init_output(&self, regs: &mut RegisterFile, alternate: u8, open_drain: bool)
        requires
            self.wf(),
            old(regs).wf(),
        ensures
            final(regs)@ == with_output_config(old(regs)@, self.pnum(), alternate, open_drain),
            final(regs).wf(),
    {
        let mask = 1u32 << ((self.num % 32) as u32);
        self.reg_access.write_out_en_set(regs, mask);
        regs.set_open_drain(self.num, open_drain);
        regs.set_output_signal(self.num, GPIO_OUT_SIGNAL);
        regs.iomux_output_cfg(self.num, alternate, open_drain);
        proof {
            assert(regs@ =~= with_output_config(old(regs)@, self.pnum(), alternate, open_drain));
        }
    }

    /// Moves the pin to push-pull-output mode.
    pub fn into_push_pull_output(self, regs: &mut RegisterFile) -> (r: GpioPin<
        Output<PushPull>,
        RA,
        PINTYPE,
    >)
        requires
            self.wf(),
            old(regs).wf(),
        ensures
            final(regs)@ == with_output_config(old(regs)@, self.pnum(), 0, false),
            final(regs).wf(),
            r.wf(),
            r.pnum() == self.pnum(),
            r.af_in() == self.af_in(),
            r.af_out() == self.af_out(),
    {
        self.init_output(regs, 0, false);
        GpioPin {
            _mode: PhantomData,
            _pintype: PhantomData,
            reg_access: self.reg_access,
            num: self.num,
            af_input_signals: self.af_input_signals,
            af_output_signals: self.af_output_signals,
        }
    }

    /// Moves the pin to open-drain-output mode.
    pub fn into_open_drain_output(self, regs: &mut RegisterFile) -> (r: GpioPin<
        Output<OpenDrain>,
        RA,
        PINTYPE,
    >)
        requires
            self.wf(),
            old(regs).wf(),
        ensures
            final(regs)@ == with_output_config(old(regs)@, self.pnum(), 0, true),
            final(regs).wf(),
            r.wf(),
            r.pnum() == self.pnum(),
            r.af_in() == self.af_in(),
            r.af_out() == self.af_out(),
    {
        self.init_output(regs, 0, true);
        GpioPin {
            _mode: PhantomData,
            _pintype: PhantomData,
            reg_access: self.reg_access,
            num: self.num,
            af_input_signals: self.af_input_signals,
            af_output_signals: self.af_output_signals,
        }
    }

    /// Moves the pin to alternate function 1, driven as an output.
    pub fn into_alternate_1(self, regs: &mut RegisterFile) -> (r: GpioPin<
        Alternate<AF1>,
        RA,
        PINTYPE,
    >)
        requires
            self.wf(),
            old(regs).wf(),
        ensures
            final(regs)@ == with_output_config(old(regs)@, self.pnum(), 1, false),
            final(regs).wf(),
            r.wf(),
            r.pnum() == self.pnum(),
            r.af_in() == self.af_in(),
            r.af_out() == self.af_out(),
    {
        self.init_output(regs, 1, false);
        GpioPin {
            _mode: PhantomData,
            _pintype: PhantomData,
            reg_access: self.reg_access,
            num: self.num,
            af_input_signals: self.af_input_signals,
            af_output_signals: self.af_output_signals,
        }
    }

    /// Moves the pin to alternate function 2, driven as an output.
    pub fn into_alternate_2(self, regs: &mut RegisterFile) -> (r: GpioPin<
        Alternate<AF2>,
        RA,
        PINTYPE,
    >)
        requires
            self.wf(),
            old(regs).wf(),
        ensures
            final(regs)@ == with_output_config(old(regs)@, self.pnum(), 2, false),
            final(regs).wf(),
            r.wf(),
            r.pnum() == self.pnum(),
            r.af_in() == self.af_in(),
            r.af_out() == self.af_out(),
    {
        self.init_output(regs, 2, false);
        GpioPin {
            _mode: PhantomData,
            _pintype: PhantomData,
            reg_access: self.reg_access,
            num: self.num,
            af_input_signals: self.af_input_signals,
            af_output_signals: self.af_output_signals,
        }
    }
}

/// The analog-entry sequence: disables the input buffer and both multiplexer
/// pulls, disables output and open drain, and routes the pad to the analog /
/// RTC subsystem with its pulls off.
fn internal_into_analog(regs: &mut RegisterFile, num: u8)
    requires
        old(regs).wf(),
        (num as int) < NUM_PINS as int,
    ensures
        final(regs)@ == with_analog_config(old(regs)@, num as int),
        final(regs).wf(),
{
    crate::regs::enable_iomux_clk_gate(regs);
    regs.iomux_analog_cfg(num);
    let mask = 1u32 << ((num % 32) as u32);
    let bank: usize = if num >= 32 {
        1
    } else {
        0
    };
    regs.bank_out_en_clear(bank, mask);
    regs.set_open_drain(num, false);
    regs.rtc_analog_cfg(num);
    proof {
        assert(regs@ =~= with_analog_config(old(regs)@, num as int));
    }
}

impl<MODE, RA: BankGpioRegisterAccess, PINTYPE: IsAnalogPin> GpioPin<MODE, RA, PINTYPE> {
    /// Hands the pin to the analog subsystem.
    pub fn into_analog(self, regs: &mut RegisterFile) -> (r: GpioPin<Analog, RA, PINTYPE>)
        requires
            self.wf(),
            old(regs).wf(),
        ensures
            final(regs)@ == with_analog_config(old(regs)@, self.pnum()),
            final(regs).wf(),
            r.wf(),
            r.pnum() == self.pnum(),
            r.af_in() == self.af_in(),
            r.af_out() == self.af_out(),
    {
        internal_into_analog(regs, self.num);
        GpioPin {
            _mode: PhantomData,
            _pintype: PhantomData,
            reg_access: self.reg_access,
            num: self.num,
            af_input_signals: self.af_input_signals,
            af_output_signals: self.af_output_signals,
        }
    }
}

impl<MODE, RA: BankGpioRegisterAccess, PINTYPE: IsAnalogPin> AnalogPin for GpioPin<
    MODE,
    RA,
    PINTYPE,
> {

}

impl<MODE, RA: BankGpioRegisterAccess, PINTYPE: PinType> GpioPin<Input<MODE>, RA, PINTYPE> {
    /// Whether the pad's sensed level is high.
    pub fn is_high(&self, regs: &RegisterFile) -> (r: bool)
        requires
            self.wf(),
            regs.wf(),
        ensures
            r == ((regs@.input[bank_of(self.pnum())] & pin_mask(self.pnum())) != 0),
    {
        self.reg_access.read_input(regs) & (1u32 << ((self.num % 32) as u32)) != 0
    }

    /// Whether the pad's sensed level is low.
    pub fn is_low(&self, regs: &RegisterFile) -> (r: bool)
        requires
            self.wf(),
            regs.wf(),
        ensures
            r == ((regs@.input[bank_of(self.pnum())] & pin_mask(self.pnum())) == 0),
    {
        !self.is_high(regs)
    }
}

impl<RA: BankGpioRegisterAccess, PINTYPE: IsOutputPin> GpioPin<Output<OpenDrain>, RA, PINTYPE> {
    /// Whether the pad's sensed level is high; an open-drain pad is readable
    /// while driven.
    pub fn is_high(&self, regs: &RegisterFile) -> (r: bool)
        requires
            self.wf(),
            regs.wf(),
        ensures
            r == ((regs@.input[bank_of(self.pnum())] & pin_mask(self.pnum())) != 0),
    {
        self.reg_access.read_input(regs) & (1u32 << ((self.num % 32) as u32)) != 0
    }

    /// Whether the pad's sensed level is low.
    pub fn is_low(&self, regs: &RegisterFile) -> (r: bool)
        requires
            self.wf(),
            regs.wf(),
        ensures
            r == ((regs@.input[bank_of(self.pnum())] & pin_mask(self.pnum())) == 0),
    {
        !self.is_high(regs)
    }
}

impl<MODE, RA: BankGpioRegisterAccess, PINTYPE: IsOutputPin> GpioPin<Output<MODE>, RA, PINTYPE> {
    /// Commands the output level high.
    pub fn set_high(&self, regs: &mut RegisterFile)
        requires
            self.wf(),
            old(regs).wf(),
        ensures
            final(regs)@ == (RegsView {
                out: old(regs)@.out.update(
                    bank_of(self.pnum()),
                    old(regs)@.out[bank_of(self.pnum())] | pin_mask(self.pnum()),
                ),
                ..old(regs)@
            }),
            final(regs).wf(),
    {
        self.reg_access.write_output_set(regs, 1u32 << ((self.num % 32) as u32));
    }

    /// Commands the output level low.
    pub fn set_low(&self, regs: &mut RegisterFile)
        requires
            self.wf(),
            old(regs).wf(),
        ensures
            final(regs)@ == (RegsView {
                out: old(regs)@.out.update(
                    bank_of(self.pnum()),
                    old(regs)@.out[bank_of(self.pnum())] & !pin_mask(self.pnum()),
                ),
                ..old(regs)@
            }),
            final(regs).wf(),
    {
        self.reg_access.write_output_clear(regs, 1u32 << ((self.num % 32) as u32));
    }

    /// Whether the last commanded output level is high; distinct from the
    /// physically sensed level.
    pub fn is_set_high(&self, regs: &RegisterFile) -> (r: bool)
        requires
            self.wf(),
            regs.wf(),
        ensures
            r == ((regs@.out[bank_of(self.pnum())] & pin_mask(self.pnum())) != 0),
    {
        self.reg_access.read_output(regs) & (1u32 << ((self.num % 32) as u32)) != 0
    }

    /// Whether the last commanded output level is low.
    pub fn is_set_low(&self, regs: &RegisterFile) -> (r: bool)
        requires
            self.wf(),
            regs.wf(),
        ensures
            r == ((regs@.out[bank_of(self.pnum())] & pin_mask(self.pnum())) == 0),
    {
        !self.is_set_high(regs)
    }

    /// Commands the opposite of the last commanded output level.
    pub fn toggle(&self, regs: &mut RegisterFile)
        requires
            self.wf(),
            old(regs).wf(),
        ensures
            final(regs)@ == (RegsView {
                out: old(regs)@.out.update(
                    bank_of(self.pnum()),
                    if old(regs)@.out[bank_of(self.pnum())] & pin_mask(self.pnum()) != 0 {
                        old(regs)@.out[bank_of(self.pnum())] & !pin_mask(self.pnum())
                    } else {
                        old(regs)@.out[bank_of(self.pnum())] | pin_mask(self.pnum())
                    },
                ),
                ..old(regs)@
            }),
            final(regs).wf(),
    {
        if self.is_set_high(regs) {
            self.set_low(regs);
        } else {
            self.set_high(regs);
        }
    }
}

/// The first dedicated slot holding `signal`, scanned by ascending index.
fn find_input_slot(t: &[Option<InputSignal>; 6], signal: InputSignal) -> (r: Option<u8>)
    ensures
        r is Some <==> dedicated_input_slot(t@, signal) is Some,
        r is Some ==> Some(r->Some_0 as int) == dedicated_input_slot(t@, signal) && r->Some_0 < 6,
{
    let mut found = false;
    let mut slot: u8 = 0;
    let mut i: usize = 6;
    while i > 0
        invariant
            i <= 6,
            t@.len() == 6,
            found ==> slot < 6 && first_input_slot(t@, signal, i as int) == Some(slot as int),
            !found ==> first_input_slot(t@, signal, i as int) is None,
        decreases i,
    {
        i = i - 1;
        let matched = match t[i] {
            Some(x) => x == signal,
            None => false,
        };
        if matched {
            found = true;
            slot = i as u8;
        }
    }
    if found {
        Some(slot)
    } else {
        None
    }
}

/// The first dedicated slot holding `signal`, scanned by ascending index.
fn find_output_slot(t: &[Option<OutputSignal>; 6], signal: OutputSignal) -> (r: Option<u8>)
    ensures
        r is Some <==> dedicated_output_slot(t@, signal) is Some,
        r is Some ==> Some(r->Some_0 as int) == dedicated_output_slot(t@, signal) && r->Some_0 < 6,
{
    let mut found = false;
    let mut slot: u8 = 0;
    let mut i: usize = 6;
    while i > 0
        invariant
            i <= 6,
            t@.len() == 6,
            found ==> slot < 6 && first_output_slot(t@, signal, i as int) == Some(slot as int),
            !found ==> first_output_slot(t@, signal, i as int) is None,
        decreases i,
    {
        i = i - 1;
        let matched = match t[i] {
            Some(x) => x == signal,
            None => false,
        };
        if matched {
            found = true;
            slot = i as u8;
        }
    }
    if found {
        Some(slot)
    } else {
        None
    }
}

/// Operations every pin offers, whatever its mode and class.
pub trait Pin {
    /// The pin's physical number.
    spec fn pnum(&self) -> int;

    /// The handle is bound to a legal pin number and to that number's bank.
    spec fn wf(&self) -> bool;

    /// The pin's immutable table of dedicated input-signal slots.
    spec fn af_in(&self) -> Seq<Option<InputSignal>>;

    /// The pin's immutable table of dedicated output-signal slots.
    spec fn af_out(&self) -> Seq<Option<OutputSignal>>;

    /// The pin's physical number.
    fn number(&self) -> (n: u8)
        requires
            self.wf(),
        ensures
            n as int == self.pnum(),
    ;

    /// Selects whether the multiplexer's sleep-mode fields apply.
    fn sleep_mode(&self, regs: &mut RegisterFile, on: bool)
        requires
            self.wf(),
            old(regs).wf(),
        ensures
            final(regs)@ == with_iomux_flag(old(regs)@, self.pnum(), IOMUX_FIELD_SLP_SEL, on),
            final(regs).wf(),
    ;

    /// Programs the pin's function-select field.
    fn set_alternate_function(&self, regs: &mut RegisterFile, alternate: AlternateFunction)
        requires
            self.wf(),
            old(regs).wf(),
        ensures
            final(regs)@ == with_mcu_sel(old(regs)@, self.pnum(), spec_function_code(alternate)),
            final(regs).wf(),
    ;

    /// Starts listening for `event` with the maskable interrupt enabled; a
    /// plain listen never requests wake-from-sleep, so it cannot be invalid.
    fn listen(&self, regs: &mut RegisterFile, event: Event)
        requires
            self.wf(),
            old(regs).wf(),
        ensures
            final(regs)@ == with_int_config(
                old(regs)@,
                self.pnum(),
                spec_intr_enable(true, false),
                spec_event_code(event),
                false,
            ),
            final(regs).wf(),
    ;

    /// Starts listening for `event` with the chosen enables. Requesting
    /// wake-from-light-sleep together with an edge-triggered event is
    /// rejected before any register is touched: edge detection is
    /// unavailable while the core sleeps.
    fn listen_with_options(
        &self,
        regs: &mut RegisterFile,
        event: Event,
        int_enable: bool,
        nmi_enable: bool,
        wake_up_from_light_sleep: bool,
    ) -> (r: Result<(), GpioError>)
        requires
            self.wf(),
            old(regs).wf(),
        ensures
            r is Ok <==> !(wake_up_from_light_sleep && spec_is_edge(event)),
            r is Err ==> r == Result::<(), GpioError>::Err(GpioError::InvalidInterruptConfig)
                && final(regs)@ == old(regs)@,
            r is Ok ==> final(regs)@ == with_int_config(
                old(regs)@,
                self.pnum(),
                spec_intr_enable(int_enable, nmi_enable),
                spec_event_code(event),
                wake_up_from_light_sleep,
            ),
            final(regs).wf(),
    ;

    /// Stops listening: clears the interrupt enable and event-type fields,
    /// leaving the latched status alone.
    fn unlisten(&self, regs: &mut RegisterFile)
        requires
            self.wf(),
            old(regs).wf(),
        ensures
            final(regs)@ == (RegsView {
                pin: old(regs)@.pin.update(
                    self.pnum(),
                    (PinReg { int_ena: 0, int_type: 0, ..old(regs)@.pin[self.pnum()] }),
                ),
                ..old(regs)@
            }),
            final(regs).wf(),
    ;

    /// Clears the pin's latched maskable interrupt status, independently of
    /// whether listening continues.
    fn clear_interrupt(&self, regs: &mut RegisterFile)
        requires
            self.wf(),
            old(regs).wf(),
        ensures
            final(regs)@ == with_status_cleared(old(regs)@, self.pnum()),
            final(regs).wf(),
    ;

    /// Whether this pin's maskable interrupt is latched for the primary
    /// core role.
    fn is_pcore_interrupt_set(&self, regs: &RegisterFile) -> (r: bool)
        requires
            self.wf(),
            regs.wf(),
        ensures
            r == ((regs@.int_status[bank_of(self.pnum())] & pin_mask(self.pnum())) != 0),
    ;

    /// Whether this pin's non-maskable interrupt is latched for the primary
    /// core role.
    fn is_pcore_non_maskable_interrupt_set(&self, regs: &RegisterFile) -> (r: bool)
        requires
            self.wf(),
            regs.wf(),
        ensures
            r == ((regs@.nmi_status[bank_of(self.pnum())] & pin_mask(self.pnum())) != 0),
    ;

    /// Whether this pin's maskable interrupt is latched for the secondary
    /// core role; on this family both roles read the primary-core register.
    fn is_acore_interrupt_set(&self, regs: &RegisterFile) -> (r: bool)
        requires
            self.wf(),
            regs.wf(),
        ensures
            r == ((regs@.int_status[bank_of(self.pnum())] & pin_mask(self.pnum())) != 0),
    ;

    /// Whether this pin's non-maskable interrupt is latched for the
    /// secondary core role.
    fn is_acore_non_maskable_interrupt_set(&self, regs: &RegisterFile) -> (r: bool)
        requires
            self.wf(),
            regs.wf(),
        ensures
            r == ((regs@.nmi_status[bank_of(self.pnum())] & pin_mask(self.pnum())) != 0),
    ;
}

/// Operations of input-capable pins, and the input half of the signal
/// router.
pub trait InputPin: Pin {
    /// Reconfigures the pin as a floating input without changing its typed
    /// mode; a transition method is the usual way.
    fn set_to_input(&self, regs: &mut RegisterFile)
        requires
            self.wf(),
            old(regs).wf(),
        ensures
            final(regs)@ == with_input_config(old(regs)@, self.pnum(), false, false),
            final(regs).wf(),
    ;

    /// Switches the pad's input buffer, independently of the mode.
    fn enable_input(&self, regs: &mut RegisterFile, on: bool)
        requires
            self.wf(),
            old(regs).wf(),
        ensures
            final(regs)@ == with_iomux_flag(old(regs)@, self.pnum(), IOMUX_FIELD_FUN_IE, on),
            final(regs).wf(),
    ;

    /// Switches the pad's input buffer during light sleep.
    fn enable_input_in_sleep_mode(&self, regs: &mut RegisterFile, on: bool)
        requires
            self.wf(),
            old(regs).wf(),
        ensures
            final(regs)@ == with_iomux_flag(old(regs)@, self.pnum(), IOMUX_FIELD_MCU_IE, on),
            final(regs).wf(),
    ;

    /// Whether the pad's sensed level is high, whatever the current mode.
    fn is_input_high(&self, regs: &RegisterFile) -> (r: bool)
        requires
            self.wf(),
            regs.wf(),
        ensures
            r == ((regs@.input[bank_of(self.pnum())] & pin_mask(self.pnum())) != 0),
    ;

    /// Connects an input signal to this pin on the most direct path, without
    /// inversion and without forcing the matrix.
    fn connect_input_to_peripheral(&self, regs: &mut RegisterFile, signal: InputSignal) -> (r:
        Result<(), GpioError>)
        requires
            self.wf(),
            old(regs).wf(),
        ensures
            r is Ok <==> input_routable(self.af_in(), signal, false),
            r is Err ==> r == Result::<(), GpioError>::Err(GpioError::UnroutableInputSignal)
                && final(regs)@ == old(regs)@,
            r is Ok ==> final(regs)@ == input_connect_view(
                old(regs)@,
                self.pnum(),
                input_af_code(self.af_in(), signal, false) as u8,
                spec_input_id(signal) as int,
                false,
            ),
            final(regs).wf(),
    ;

    /// Connects an input signal to this pin. A dedicated slot wins unless
    /// the caller forces the matrix; a signal with neither a winning slot
    /// nor a matrix entry is unroutable, and nothing is written.
    fn connect_input_to_peripheral_with_options(
        &self,
        regs: &mut RegisterFile,
        signal: InputSignal,
        invert: bool,
        force_via_gpio_mux: bool,
    ) -> (r: Result<(), GpioError>)
        requires
            self.wf(),
            old(regs).wf(),
        ensures
            r is Ok <==> input_routable(self.af_in(), signal, force_via_gpio_mux),
            r is Err ==> r == Result::<(), GpioError>::Err(GpioError::UnroutableInputSignal)
                && final(regs)@ == old(regs)@,
            r is Ok ==> final(regs)@ == input_connect_view(
                old(regs)@,
                self.pnum(),
                input_af_code(self.af_in(), signal, force_via_gpio_mux) as u8,
                spec_input_id(signal) as int,
                invert,
            ),
            final(regs).wf(),
    ;

    /// Removes a connected input signal from this pin: function select back
    /// to GPIO, and the signal's matrix entry, where one exists, released.
    /// Other pins and other signals are untouched.
    fn disconnect_input_from_peripheral(&self, regs: &mut RegisterFile, signal: InputSignal)
        requires
            self.wf(),
            old(regs).wf(),
        ensures
            final(regs)@ == input_disconnect_view(
                old(regs)@,
                self.pnum(),
                spec_input_id(signal) as int,
            ),
            final(regs).wf(),
    ;
}

/// Operations of output-capable pins, and the output half of the signal
/// router.
pub trait OutputPin: Pin {
    /// Reconfigures the pin as an open-drain output without changing its
    /// typed mode.
    fn set_to_open_drain_output(&self, regs: &mut RegisterFile)
        requires
            self.wf(),
            old(regs).wf(),
        ensures
            final(regs)@ == with_output_config(old(regs)@, self.pnum(), 0, true),
            final(regs).wf(),
    ;

    /// Reconfigures the pin as a push-pull output without changing its
    /// typed mode.
    fn set_to_push_pull_output(&self, regs: &mut RegisterFile)
        requires
            self.wf(),
            old(regs).wf(),
        ensures
            final(regs)@ == with_output_config(old(regs)@, self.pnum(), 0, false),
            final(regs).wf(),
    ;

    /// Switches the pin's output-enable bit.
    fn enable_output(&self, regs: &mut RegisterFile, on: bool)
        requires
            self.wf(),
            old(regs).wf(),
        ensures
            final(regs)@ == (RegsView {
                out_en: old(regs)@.out_en.update(
                    bank_of(self.pnum()),
                    if on {
                        old(regs)@.out_en[bank_of(self.pnum())] | pin_mask(self.pnum())
                    } else {
                        old(regs)@.out_en[bank_of(self.pnum())] & !pin_mask(self.pnum())
                    },
                ),
                ..old(regs)@
            }),
            final(regs).wf(),
    ;

    /// Commands the output level.
    fn set_output_high(&self, regs: &mut RegisterFile, high: bool)
        requires
            self.wf(),
            old(regs).wf(),
        ensures
            final(regs)@ == (RegsView {
                out: old(regs)@.out.update(
                    bank_of(self.pnum()),
                    if high {
                        old(regs)@.out[bank_of(self.pnum())] | pin_mask(self.pnum())
                    } else {
                        old(regs)@.out[bank_of(self.pnum())] & !pin_mask(self.pnum())
                    },
                ),
                ..old(regs)@
            }),
            final(regs).wf(),
    ;

    /// Programs the pad's drive strength.
    fn set_drive_strength(&self, regs: &mut RegisterFile, strength: DriveStrength)
        requires
            self.wf(),
            old(regs).wf(),
        ensures
            final(regs)@ == (RegsView {
                io_mux: old(regs)@.io_mux.update(
                    self.pnum(),
                    (IoMuxReg {
                        fun_drv: spec_drive_code(strength),
                        ..old(regs)@.io_mux[self.pnum()]
                    }),
                ),
                ..old(regs)@
            }),
            final(regs).wf(),
    ;

    /// Switches the pad's open-drain bit, independently of the mode.
    fn enable_open_drain(&self, regs: &mut RegisterFile, on: bool)
        requires
            self.wf(),
            old(regs).wf(),
        ensures
            final(regs)@ == (RegsView {
                pin: old(regs)@.pin.update(
                    self.pnum(),
                    (PinReg { pad_driver: on, ..old(regs)@.pin[self.pnum()] }),
                ),
                ..old(regs)@
            }),
            final(regs).wf(),
    ;

    /// Switches the pad's output enable during light sleep.
    fn enable_output_in_sleep_mode(&self, regs: &mut RegisterFile, on: bool)
        requires
            self.wf(),
            old(regs).wf(),
        ensures
            final(regs)@ == with_iomux_flag(old(regs)@, self.pnum(), IOMUX_FIELD_MCU_OE, on),
            final(regs).wf(),
    ;

    /// Switches the weak pull-up during light sleep.
    fn internal_pull_up_in_sleep_mode(&self, regs: &mut RegisterFile, on: bool)
        requires
            self.wf(),
            old(regs).wf(),
        ensures
            final(regs)@ == with_iomux_flag(old(regs)@, self.pnum(), IOMUX_FIELD_MCU_WPU, on),
            final(regs).wf(),
    ;

    /// Switches the weak pull-down during light sleep.
    fn internal_pull_down_in_sleep_mode(&self, regs: &mut RegisterFile, on: bool)
        requires
            self.wf(),
            old(regs).wf(),
        ensures
            final(regs)@ == with_iomux_flag(old(regs)@, self.pnum(), IOMUX_FIELD_MCU_WPD, on),
            final(regs).wf(),
    ;

    /// Connects an output signal to this pin on the most direct path, with
    /// every option off.
    fn connect_peripheral_to_output(&self, regs: &mut RegisterFile, signal: OutputSignal)
        requires
            self.wf(),
            old(regs).wf(),
        ensures
            final(regs)@ == output_connect_view(
                old(regs)@,
                self.pnum(),
                output_af_code(self.af_out(), signal, false) as u8,
                clipped_output_id(signal),
                false,
                false,
                false,
            ),
            final(regs).wf(),
    ;

    /// Connects an output signal to this pin. A dedicated slot wins unless
    /// the caller forces the matrix; an id beyond the matrix range degrades
    /// to plain GPIO drive by clipping, never to an error.
    fn connect_peripheral_to_output_with_options(
        &self,
        regs: &mut RegisterFile,
        signal: OutputSignal,
        invert: bool,
        invert_enable: bool,
        enable_from_gpio: bool,
        force_via_gpio_mux: bool,
    )
        requires
            self.wf(),
            old(regs).wf(),
        ensures
            final(regs)@ == output_connect_view(
                old(regs)@,
                self.pnum(),
                output_af_code(self.af_out(), signal, force_via_gpio_mux) as u8,
                clipped_output_id(signal),
                invert,
                invert_enable,
                enable_from_gpio,
            ),
            final(regs).wf(),
    ;

    /// Disconnects this pin from its output signal: function select back to
    /// GPIO and the pin's selector rebound to plain GPIO drive. Other pins'
    /// selectors and the input matrix are untouched.
    fn disconnect_peripheral_from_output(&self, regs: &mut RegisterFile)
        requires
            self.wf(),
            old(regs).wf(),
        ensures
            final(regs)@ == output_disconnect_view(old(regs)@, self.pnum()),
            final(regs).wf(),
    ;

    /// Switches the pad's weak pull-up, independently of the mode.
    fn internal_pull_up(&self, regs: &mut RegisterFile, on: bool)
        requires
            self.wf(),
            old(regs).wf(),
        ensures
            final(regs)@ == with_iomux_flag(old(regs)@, self.pnum(), IOMUX_FIELD_FUN_WPU, on),
            final(regs).wf(),
    ;

    /// Switches the pad's weak pull-down, independently of the mode.
    fn internal_pull_down(&self, regs: &mut RegisterFile, on: bool)
        requires
            self.wf(),
            old(regs).wf(),
        ensures
            final(regs)@ == with_iomux_flag(old(regs)@, self.pnum(), IOMUX_FIELD_FUN_WPD, on),
            final(regs).wf(),
    ;
}

impl<MODE, RA: BankGpioRegisterAccess, PINTYPE: PinType> Pin for GpioPin<MODE, RA, PINTYPE> {
    closed spec fn pnum(&self) -> int {
        self.num as int
    }

    closed spec fn wf(&self) -> bool {
        (self.num as int) < NUM_PINS as int && self.reg_access.bank() == bank_of(self.num as int)
    }

    closed spec fn af_in(&self) -> Seq<Option<InputSignal>> {
        self.af_input_signals@
    }

    closed spec fn af_out(&self) -> Seq<Option<OutputSignal>> {
        self.af_output_signals@
    }

    fn number(&self) -> (n: u8) {
        self.num
    }

    fn sleep_mode(&self, regs: &mut RegisterFile, on: bool) {
        regs.iomux_set_flag(self.num, IOMUX_FIELD_SLP_SEL, on);
    }

    fn set_alternate_function(&self, regs: &mut RegisterFile, alternate: AlternateFunction) {
        regs.iomux_set_mcu_sel(self.num, alternate.code());
    }

    fn listen(&self, regs: &mut RegisterFile, event: Event) {
        let r = self.listen_with_options(regs, event, true, false, false);
    }

    fn listen_with_options(
        &self,
        regs: &mut RegisterFile,
        event: Event,
        int_enable: bool,
        nmi_enable: bool,
        wake_up_from_light_sleep: bool,
    ) -> (r: Result<(), GpioError>) {
        if wake_up_from_light_sleep && event.is_edge() {
            return Err(GpioError::InvalidInterruptConfig);
        }
        regs.set_int_enable(
            self.num,
            crate::types::gpio_intr_enable(int_enable, nmi_enable),
            event.code(),
            wake_up_from_light_sleep,
        );
        Ok(())
    }

    fn unlisten(&self, regs: &mut RegisterFile) {
        regs.clear_int_enable(self.num);
    }

    fn clear_interrupt(&self, regs: &mut RegisterFile) {
        self.reg_access.write_interrupt_status_clear(regs, 1u32 << ((self.num % 32) as u32));
        proof {
            assert(regs@ =~= with_status_cleared(old(regs)@, self.pnum()));
        }
    }

    fn is_pcore_interrupt_set(&self, regs: &RegisterFile) -> (r: bool) {
        (self.pro_cpu_interrupt_status_read(regs) & (1u32 << ((self.num % 32) as u32))) != 0
    }

    fn is_pcore_non_maskable_interrupt_set(&self, regs: &RegisterFile) -> (r: bool) {
        (self.pro_cpu_nmi_status_read(regs) & (1u32 << ((self.num % 32) as u32))) != 0
    }

    fn is_acore_interrupt_set(&self, regs: &RegisterFile) -> (r: bool) {
        (self.app_cpu_interrupt_status_read(regs) & (1u32 << ((self.num % 32) as u32))) != 0
    }

    fn is_acore_non_maskable_interrupt_set(&self, regs: &RegisterFile) -> (r: bool) {
        (self.app_cpu_nmi_status_read(regs) & (1u32 << ((self.num % 32) as u32))) != 0
    }
}

impl<MODE, RA: BankGpioRegisterAccess, PINTYPE: PinType> InterruptStatusRegisters<
    SingleCoreInteruptStatusRegisterAccess,
> for GpioPin<MODE, RA, PINTYPE> {
    closed spec fn status_bank(&self) -> int {
        bank_of(self.num as int)
    }

    fn pro_cpu_interrupt_status_read(&self, regs: &RegisterFile) -> (r: u32) {
        let bank: usize = (self.num / 32) as usize;
        proof {
            assert(bank as int == self.status_bank());
        }
        SingleCoreInteruptStatusRegisterAccess::pro_cpu_interrupt_status_read(regs, bank)
    }

    fn pro_cpu_nmi_status_read(&self, regs: &RegisterFile) -> (r: u32) {
        let bank: usize = (self.num / 32) as usize;
        proof {
            assert(bank as int == self.status_bank());
        }
        SingleCoreInteruptStatusRegisterAccess::pro_cpu_nmi_status_read(regs, bank)
    }

    fn app_cpu_interrupt_status_read(&self, regs: &RegisterFile) -> (r: u32) {
        let bank: usize = (self.num / 32) as usize;
        proof {
            assert(bank as int == self.status_bank());
        }
        SingleCoreInteruptStatusRegisterAccess::app_cpu_interrupt_status_read(regs, bank)
    }

    fn app_cpu_nmi_status_read(&self, regs: &RegisterFile) -> (r: u32) {
        let bank: usize = (self.num / 32) as usize;
        proof {
            assert(bank as int == self.status_bank());
        }
        SingleCoreInteruptStatusRegisterAccess::app_cpu_nmi_status_read(regs, bank)
    }
}

impl<MODE, RA: BankGpioRegisterAccess, PINTYPE: PinType> InputPin for GpioPin<MODE, RA, PINTYPE> {
    fn set_to_input(&self, regs: &mut RegisterFile) {
        self.init_input(regs, false, false);
    }

    fn enable_input(&self, regs: &mut RegisterFile, on: bool) {
        regs.iomux_set_flag(self.num, IOMUX_FIELD_FUN_IE, on);
    }

    fn enable_input_in_sleep_mode(&self, regs: &mut RegisterFile, on: bool) {
        regs.iomux_set_flag(self.num, IOMUX_FIELD_MCU_IE, on);
    }

    fn is_input_high(&self, regs: &RegisterFile) -> (r: bool) {
        self.reg_access.read_input(regs) & (1u32 << ((self.num % 32) as u32)) != 0
    }

    fn connect_input_to_peripheral(&self, regs: &mut RegisterFile, signal: InputSignal) -> (r:
        Result<(), GpioError>) {
        self.connect_input_to_peripheral_with_options(regs, signal, false, false)
    }

    fn connect_input_to_peripheral_with_options(
        &self,
        regs: &mut RegisterFile,
        signal: InputSignal,
        invert: bool,
        force_via_gpio_mux: bool,
    ) -> (r: Result<(), GpioError>) {
        let mut af_code: u8 = 0;
        let mut dedicated = false;
        if !force_via_gpio_mux {
            match find_input_slot(&self.af_input_signals, signal) {
                Some(slot) => {
                    af_code = slot;
                    dedicated = true;
                },
                None => {},
            }
        }
        if !dedicated && signal.id() > INPUT_SIGNAL_MAX {
            return Err(GpioError::UnroutableInputSignal);
        }
        regs.iomux_set_mcu_sel(self.num, af_code);
        let sid = signal.id();
        if sid <= INPUT_SIGNAL_MAX {
            regs.set_in_sel(sid, invert, self.num);
        }
        proof {
            assert(regs@ =~= input_connect_view(
                old(regs)@,
                self.pnum(),
                input_af_code(self.af_in(), signal, force_via_gpio_mux) as u8,
                spec_input_id(signal) as int,
                invert,
            ));
        }
        Ok(())
    }

    fn disconnect_input_from_peripheral(&self, regs: &mut RegisterFile, signal: InputSignal) {
        regs.iomux_set_mcu_sel(self.num, 0);
        let sid = signal.id();
        if sid <= INPUT_SIGNAL_MAX {
            regs.clear_func_in_sel(sid);
        }
        proof {
            assert(regs@ =~= input_disconnect_view(
                old(regs)@,
                self.pnum(),
                spec_input_id(signal) as int,
            ));
        }
    }
}

impl<MODE, RA: BankGpioRegisterAccess, PINTYPE: IsOutputPin> OutputPin for GpioPin<
    MODE,
    RA,
    PINTYPE,
> {
    fn set_to_open_drain_output(&self, regs: &mut RegisterFile) {
        self.init_output(regs, 0, true);
    }

    fn set_to_push_pull_output(&self, regs: &mut RegisterFile) {
        self.init_output(regs, 0, false);
    }

    fn enable_output(&self, regs: &mut RegisterFile, on: bool) {
        if on {
            self.reg_access.write_out_en_set(regs, 1u32 << ((self.num % 32) as u32));
        } else {
            self.reg_access.write_out_en_clear(regs, 1u32 << ((self.num % 32) as u32));
        }
    }

    fn set_output_high(&self, regs: &mut RegisterFile, high: bool) {
        if high {
            self.reg_access.write_output_set(regs, 1u32 << ((self.num % 32) as u32));
        } else {
            self.reg_access.write_output_clear(regs, 1u32 << ((self.num % 32) as u32));
        }
    }

    fn set_drive_strength(&self, regs: &mut RegisterFile, strength: DriveStrength) {
        regs.iomux_set_fun_drv(self.num, strength.code());
    }

    fn enable_open_drain(&self, regs: &mut RegisterFile, on: bool) {
        regs.set_open_drain(self.num, on);
    }

    fn enable_output_in_sleep_mode(&self, regs: &mut RegisterFile, on: bool) {
        regs.iomux_set_flag(self.num, IOMUX_FIELD_MCU_OE, on);
    }

    fn internal_pull_up_in_sleep_mode(&self, regs: &mut RegisterFile, on: bool) {
        regs.iomux_set_flag(self.num, IOMUX_FIELD_MCU_WPU, on);
    }

    fn internal_pull_down_in_sleep_mode(&self, regs: &mut RegisterFile, on: bool) {
        regs.iomux_set_flag(self.num, IOMUX_FIELD_MCU_WPD, on);
    }

    fn connect_peripheral_to_output(&self, regs: &mut RegisterFile, signal: OutputSignal) {
        self.connect_peripheral_to_output_with_options(regs, signal, false, false, false, false);
    }

    fn connect_peripheral_to_output_with_options(
        &self,
        regs: &mut RegisterFile,
        signal: OutputSignal,
        invert: bool,
        invert_enable: bool,
        enable_from_gpio: bool,
        force_via_gpio_mux: bool,
    ) {
        let mut af_code: u8 = 0;
        if !force_via_gpio_mux {
            match find_output_slot(&self.af_output_signals, signal) {
                Some(slot) => {
                    af_code = slot;
                },
                None => {},
            }
        }
        let sid = signal.id();
        let clipped = if sid <= OUTPUT_SIGNAL_MAX {
            sid
        } else {
            OUTPUT_SIGNAL_MAX
        };
        regs.iomux_set_mcu_sel(self.num, af_code);
        regs.configure_out_sel(self.num, clipped, invert, enable_from_gpio, invert_enable);
        proof {
            assert(regs@ =~= output_connect_view(
                old(regs)@,
                self.pnum(),
                output_af_code(self.af_out(), signal, force_via_gpio_mux) as u8,
                clipped_output_id(signal),
                invert,
                invert_enable,
                enable_from_gpio,
            ));
        }
    }

    fn disconnect_peripheral_from_output(&self, regs: &mut RegisterFile) {
        regs.iomux_set_mcu_sel(self.num, 0);
        regs.set_output_signal(self.num, GPIO_OUT_SIGNAL);
        proof {
            assert(regs@ =~= output_disconnect_view(old(regs)@, self.pnum()));
        }
    }

    fn internal_pull_up(&self, regs: &mut RegisterFile, on: bool) {
        regs.iomux_set_flag(self.num, IOMUX_FIELD_FUN_WPU, on);
    }

    fn internal_pull_down(&self, regs: &mut RegisterFile, on: bool) {
        regs.iomux_set_flag(self.num, IOMUX_FIELD_FUN_WPD, on);
    }
}

/// Ties an input signal permanently to a constant low level through the
/// matrix, bypassing every pin; only signals within the matrix range have an
/// entry to program.
pub fn connect_low_to_peripheral(regs: &mut RegisterFile, signal: InputSignal)
    requires
        old(regs).wf(),
        spec_input_id(signal) <= INPUT_SIGNAL_MAX,
    ensures
        final(regs)@ == (RegsView {
            in_sel: old(regs)@.in_sel.update(
                spec_input_id(signal) as int,
                (InSelReg { sel: true, in_inv_sel: false, in_sel: crate::regs::ZERO_INPUT }),
            ),
            ..old(regs)@
        }),
        final(regs).wf(),
{
    regs.set_signal_to_level(signal.id(), false);
}

/// Ties an input signal permanently to a constant high level through the
/// matrix, bypassing every pin.
pub fn connect_high_to_peripheral(regs: &mut RegisterFile, signal: InputSignal)
    requires
        old(regs).wf(),
        spec_input_id(signal) <= INPUT_SIGNAL_MAX,
    ensures
        final(regs)@ == (RegsView {
            in_sel: old(regs)@.in_sel.update(
                spec_input_id(signal) as int,
                (InSelReg { sel: true, in_inv_sel: false, in_sel: crate::regs::ONE_INPUT }),
            ),
            ..old(regs)@
        }),
        final(regs).wf(),
{
    regs.set_signal_to_level(signal.id(), true);
}

} // verus!
