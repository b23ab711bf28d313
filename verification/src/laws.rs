//! Proved laws of the pin state machine and the signal router.
//!
//! Each proof function states a property of the register-map transformers
//! that the pin operations' contracts are written over, so what it proves
//! holds of every call of those operations, on every register state the
//! hardware admits.

use vstd::prelude::*;
use crate::pin::{
    clipped_output_id,
    erratum_pull_applies,
    input_af_code,
    input_connect_view,
    input_disconnect_view,
    input_uses_dedicated,
    output_af_code,
    output_connect_view,
    with_analog_config,
    with_input_config,
    with_output_config,
};
use crate::regs::{
    bank_of,
    pin_mask,
    InSelReg,
    RegsView,
    RtcPinReg,
    GPIO_OUT_SIGNAL,
    INPUT_SIGNAL_MAX,
    NUM_PINS,
    OUTPUT_SIGNAL_MAX,
};
use crate::types::{spec_input_id, spec_output_id, InputSignal, OutputSignal};

verus! {

/// Clearing a bit leaves it clear and every other bit as it was.
proof fn lemma_clear_bit(x: u32, k: u32, j: u32)
    requires
        k < 32,
        j < 32,
    ensures
        ((x & !(1u32 << k)) & (1u32 << k)) == 0,
        j != k ==> ((x & !(1u32 << k)) & (1u32 << j)) == (x & (1u32 << j)),
        ((x & !(1u32 << k)) & !(1u32 << k)) == (x & !(1u32 << k)),
{
    assert(((x & !(1u32 << k)) & (1u32 << k)) == 0) by (bit_vector);
    assert(j != k && k < 32 && j < 32 ==> ((x & !(1u32 << k)) & (1u32 << j)) == (x & (1u32
        << j))) by (bit_vector);
    assert(((x & !(1u32 << k)) & !(1u32 << k)) == (x & !(1u32 << k))) by (bit_vector);
}

/// Setting a bit leaves it set and every other bit as it was.
proof fn lemma_set_bit(x: u32, k: u32, j: u32)
    requires
        k < 32,
        j < 32,
    ensures
        ((x | (1u32 << k)) & (1u32 << k)) != 0,
        j != k ==> ((x | (1u32 << k)) & (1u32 << j)) == (x & (1u32 << j)),
        ((x | (1u32 << k)) | (1u32 << k)) == (x | (1u32 << k)),
{
    assert(k < 32 ==> ((x | (1u32 << k)) & (1u32 << k)) != 0) by (bit_vector);
    assert(j != k && k < 32 && j < 32 ==> ((x | (1u32 << k)) & (1u32 << j)) == (x & (1u32
        << j))) by (bit_vector);
    assert(((x | (1u32 << k)) | (1u32 << k)) == (x | (1u32 << k))) by (bit_vector);
}

/// After an input transition, the fields the mode's programming documents
/// read back exactly as documented — function select on GPIO, output enable
/// off, the requested pulls and nothing else — whatever mode held before,
/// and no other pin's records change.
pub proof fn lemma_input_config_reads_back(rv: RegsView, num: int, pd: bool, pu: bool)
    requires
        rv.wf(),
        0 <= num < NUM_PINS as int,
    ensures
        ({
            let post = with_input_config(rv, num, pd, pu);
            &&& post.io_mux[num].mcu_sel == 0
            &&& post.io_mux[num].fun_ie == true
            &&& post.io_mux[num].fun_wpd == pd
            &&& post.io_mux[num].fun_wpu == pu
            &&& post.io_mux[num].slp_sel == false
            &&& (post.out_en[bank_of(num)] & pin_mask(num)) == 0
            &&& post.out_sel[num].out_sel == GPIO_OUT_SIGNAL
            &&& (erratum_pull_applies(num) ==> post.rtc[num].rue == pu && post.rtc[num].rde == pd)
            &&& post.in_sel == rv.in_sel
            &&& post.pin == rv.pin
            &&& forall|i: int|
                0 <= i < NUM_PINS as int && i != num ==> post.io_mux[i] == rv.io_mux[i]
                    && post.out_sel[i] == rv.out_sel[i] && post.rtc[i] == rv.rtc[i]
        }),
{
    let k = (num % 32) as u32;
    lemma_clear_bit(rv.out_en[bank_of(num)], k, k);
}

/// After an output transition, the documented fields read back exactly as
/// documented: output enable on, the open-drain bit as requested, both
/// pulls off, default drive strength, the chosen function code — whatever
/// mode held before — and no other pin's records change.
pub proof fn lemma_output_config_reads_back(rv: RegsView, num: int, alternate: u8, od: bool)
    requires
        rv.wf(),
        0 <= num < NUM_PINS as int,
    ensures
        ({
            let post = with_output_config(rv, num, alternate, od);
            &&& post.io_mux[num].mcu_sel == alternate
            &&& post.io_mux[num].fun_ie == od
            &&& post.io_mux[num].fun_wpd == false
            &&& post.io_mux[num].fun_wpu == false
            &&& post.io_mux[num].fun_drv == 2
            &&& post.io_mux[num].slp_sel == false
            &&& (post.out_en[bank_of(num)] & pin_mask(num)) != 0
            &&& post.pin[num].pad_driver == od
            &&& post.out_sel[num].out_sel == GPIO_OUT_SIGNAL
            &&& post.in_sel == rv.in_sel
            &&& post.rtc == rv.rtc
            &&& forall|i: int|
                0 <= i < NUM_PINS as int && i != num ==> post.io_mux[i] == rv.io_mux[i]
                    && post.out_sel[i] == rv.out_sel[i] && post.pin[i] == rv.pin[i]
        }),
{
    let k = (num % 32) as u32;
    lemma_set_bit(rv.out_en[bank_of(num)], k, k);
}

/// After the analog transition, the pad reads back handed over: input
/// buffer off, output enable off, open drain off, both pull domains off,
/// and the pad routed to the analog subsystem.
pub proof fn lemma_analog_config_reads_back(rv: RegsView, num: int)
    requires
        rv.wf(),
        0 <= num < NUM_PINS as int,
    ensures
        ({
            let post = with_analog_config(rv, num);
            &&& post.io_mux[num].mcu_sel == 0
            &&& post.io_mux[num].fun_ie == false
            &&& post.io_mux[num].fun_wpd == false
            &&& post.io_mux[num].fun_wpu == false
            &&& (post.out_en[bank_of(num)] & pin_mask(num)) == 0
            &&& post.pin[num].pad_driver == false
            &&& post.rtc[num] == (RtcPinReg { mux_sel: true, rue: false, rde: false })
            &&& post.iomux_clk_gate == true
            &&& post.in_sel == rv.in_sel
            &&& post.out_sel == rv.out_sel
        }),
{
    let k = (num % 32) as u32;
    lemma_clear_bit(rv.out_en[bank_of(num)], k, k);
}

/// Performing the same input transition twice in a row yields register
/// state identical to performing it once.
pub proof fn lemma_input_config_idempotent(rv: RegsView, num: int, pd: bool, pu: bool)
    requires
        rv.wf(),
        0 <= num < NUM_PINS as int,
    ensures
        with_input_config(with_input_config(rv, num, pd, pu), num, pd, pu) == with_input_config(
            rv,
            num,
            pd,
            pu,
        ),
{
    let once = with_input_config(rv, num, pd, pu);
    let k = (num % 32) as u32;
    lemma_clear_bit(rv.out_en[bank_of(num)], k, k);
    assert(with_input_config(once, num, pd, pu) =~= once);
}

/// Performing the same output transition twice in a row yields register
/// state identical to performing it once.
pub proof fn lemma_output_config_idempotent(rv: RegsView, num: int, alternate: u8, od: bool)
    requires
        rv.wf(),
        0 <= num < NUM_PINS as int,
    ensures
        with_output_config(with_output_config(rv, num, alternate, od), num, alternate, od)
            == with_output_config(rv, num, alternate, od),
{
    let once = with_output_config(rv, num, alternate, od);
    let k = (num % 32) as u32;
    lemma_set_bit(rv.out_en[bank_of(num)], k, k);
    assert(with_output_config(once, num, alternate, od) =~= once);
}

/// Performing the analog transition twice in a row yields register state
/// identical to performing it once.
pub proof fn lemma_analog_config_idempotent(rv: RegsView, num: int)
    requires
        rv.wf(),
        0 <= num < NUM_PINS as int,
    ensures
        with_analog_config(with_analog_config(rv, num), num) == with_analog_config(rv, num),
{
    let once = with_analog_config(rv, num);
    let k = (num % 32) as u32;
    lemma_clear_bit(rv.out_en[bank_of(num)], k, k);
    assert(with_analog_config(once, num) =~= once);
}

/// A signal that reaches its pin through a dedicated slot — and has no
/// crossbar entry of its own — is connected without writing the crossbar:
/// only the pin's function select changes, to the winning slot's code.
pub proof fn lemma_dedicated_input_leaves_matrix_untouched(
    rv: RegsView,
    num: int,
    t: Seq<Option<InputSignal>>,
    s: InputSignal,
    invert: bool,
)
    requires
        rv.wf(),
        0 <= num < NUM_PINS as int,
        input_uses_dedicated(t, s, false),
        spec_input_id(s) > INPUT_SIGNAL_MAX,
    ensures
        ({
            let post = input_connect_view(
                rv,
                num,
                input_af_code(t, s, false) as u8,
                spec_input_id(s) as int,
                invert,
            );
            &&& post.in_sel == rv.in_sel
            &&& post.io_mux[num].mcu_sel == input_af_code(t, s, false) as u8
            &&& forall|i: int|
                0 <= i < NUM_PINS as int && i != num ==> post.io_mux[i] == rv.io_mux[i]
        }),
{
}

/// Forcing the matrix connects an in-range signal through the crossbar
/// regardless of any dedicated slot: the signal's entry is written to this
/// pin and the function select falls back to the GPIO code.
pub proof fn lemma_forced_input_writes_matrix(
    rv: RegsView,
    num: int,
    t: Seq<Option<InputSignal>>,
    s: InputSignal,
    invert: bool,
)
    requires
        rv.wf(),
        0 <= num < NUM_PINS as int,
        spec_input_id(s) <= INPUT_SIGNAL_MAX,
    ensures
        ({
            let post = input_connect_view(
                rv,
                num,
                input_af_code(t, s, true) as u8,
                spec_input_id(s) as int,
                invert,
            );
            &&& post.in_sel[spec_input_id(s) as int] == (InSelReg {
                sel: true,
                in_inv_sel: invert,
                in_sel: num as u8,
            })
            &&& post.io_mux[num].mcu_sel == 0
        }),
{
}

/// An output connection writes the pin's selector to the signal id
/// unmodified while the id is addressable, and to the clamp bound — plain
/// GPIO drive — beyond it; other pins' selectors are untouched.
pub proof fn lemma_output_id_clamped(
    rv: RegsView,
    num: int,
    t: Seq<Option<OutputSignal>>,
    s: OutputSignal,
    invert: bool,
    invert_enable: bool,
    enable_from_gpio: bool,
    force: bool,
)
    requires
        rv.wf(),
        0 <= num < NUM_PINS as int,
    ensures
        ({
            let post = output_connect_view(
                rv,
                num,
                output_af_code(t, s, force) as u8,
                clipped_output_id(s),
                invert,
                invert_enable,
                enable_from_gpio,
            );
            &&& spec_output_id(s) <= OUTPUT_SIGNAL_MAX ==> post.out_sel[num].out_sel
                == spec_output_id(s)
            &&& spec_output_id(s) > OUTPUT_SIGNAL_MAX ==> post.out_sel[num].out_sel
                == OUTPUT_SIGNAL_MAX
            &&& forall|i: int|
                0 <= i < NUM_PINS as int && i != num ==> post.out_sel[i] == rv.out_sel[i]
        }),
{
}

/// Disconnecting one signal and then connecting another to the same pin
/// leaves no residue: the new signal's crossbar entry is determined by the
/// new connection alone, and the old signal's matrix path stays released.
pub proof fn lemma_reconnect_leaves_no_residue(
    rv: RegsView,
    num: int,
    sid: int,
    sid2: int,
    code2: u8,
    invert2: bool,
)
    requires
        rv.wf(),
        0 <= num < NUM_PINS as int,
        0 <= sid <= INPUT_SIGNAL_MAX as int,
        0 <= sid2 <= INPUT_SIGNAL_MAX as int,
        sid != sid2,
    ensures
        ({
            let mid = input_disconnect_view(rv, num, sid);
            let post = input_connect_view(mid, num, code2, sid2, invert2);
            &&& post.in_sel[sid2] == (InSelReg { sel: true, in_inv_sel: invert2, in_sel: num as u8 })
            &&& post.in_sel[sid].sel == false
        }),
{
}

} // verus!
