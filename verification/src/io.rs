//! The pin collection: one handle per physical pin, built once at startup.
//!
//! The chip's fixed wiring — each pin's bank, capability class and dedicated
//! alternate-function slots — is encoded here as plain data. The builder
//! performs no decision logic: it instantiates every pin exactly once with
//! its table, so ownership of each pin's register-level capability is unique
//! by construction.

use vstd::prelude::*;
use crate::bank::{Bank0GpioRegisterAccess, Bank1GpioRegisterAccess};
use crate::pin::{GpioPin, Pin};
use crate::types::{
    InputOnlyAnalogPinType,
    InputOnlyPinType,
    InputOutputAnalogPinType,
    InputOutputPinType,
    InputSignal,
    OutputSignal,
    Unknown,
};

verus! {

/// A dedicated-slot table with no entries.
pub open spec fn no_input_slots() -> Seq<Option<InputSignal>> {
    Seq::new(6, |i: int| None)
}

/// A dedicated-slot table with no entries.
pub open spec fn no_output_slots() -> Seq<Option<OutputSignal>> {
    Seq::new(6, |i: int| None)
}

/// A dedicated-slot table whose only entry is `s` at slot `k`.
pub open spec fn one_input_slot(k: int, s: InputSignal) -> Seq<Option<InputSignal>> {
    Seq::new(
        6,
        |i: int|
            if i == k {
                Some(s)
            } else {
                None
            },
    )
}

/// A dedicated-slot table whose only entry is `s` at slot `k`.
pub open spec fn one_output_slot(k: int, s: OutputSignal) -> Seq<Option<OutputSignal>> {
    Seq::new(
        6,
        |i: int|
            if i == k {
                Some(s)
            } else {
                None
            },
    )
}

/// An empty input-slot table.
fn in_none() -> (r: [Option<InputSignal>; 6])
    ensures
        r@ == no_input_slots(),
{
    let r: [Option<InputSignal>; 6] = [None, None, None, None, None, None];
    proof {
        assert(r@ =~= no_input_slots());
    }
    r
}

/// An empty output-slot table.
fn out_none() -> (r: [Option<OutputSignal>; 6])
    ensures
        r@ == no_output_slots(),
{
    let r: [Option<OutputSignal>; 6] = [None, None, None, None, None, None];
    proof {
        assert(r@ =~= no_output_slots());
    }
    r
}

/// An input-slot table with one entry.
fn in_one(k: usize, s: InputSignal) -> (r: [Option<InputSignal>; 6])
    requires
        k < 6,
    ensures
        r@ == one_input_slot(k as int, s),
{
    let mut r: [Option<InputSignal>; 6] = [None, None, None, None, None, None];
    r[k] = Some(s);
    proof {
        assert(r@ =~= one_input_slot(k as int, s));
    }
    r
}

/// An output-slot table with one entry.
fn out_one(k: usize, s: OutputSignal) -> (r: [Option<OutputSignal>; 6])
    requires
        k < 6,
    ensures
        r@ == one_output_slot(k as int, s),
{
    let mut r: [Option<OutputSignal>; 6] = [None, None, None, None, None, None];
    r[k] = Some(s);
    proof {
        assert(r@ =~= one_output_slot(k as int, s));
    }
    r
}

/// One handle per physical pin. Pins 0-31 sit on bank 0 and pins 32-39 on
/// bank 1. Pins 25-27 are input-only with analog reach, pins 32 and 33
/// drive and reach analog, pins 34-39 only sample; the rest sample and
/// drive. The first UART and the second SPI controller have dedicated
/// slots: transmit/receive on pins 1 and 3 at slot 2, the SPI lines on pins
/// 12-14 at slot 1.
pub struct Pins {
    pub gpio0: GpioPin<Unknown, Bank0GpioRegisterAccess, InputOutputPinType>,
    pub gpio1: GpioPin<Unknown, Bank0GpioRegisterAccess, InputOutputPinType>,
    pub gpio2: GpioPin<Unknown, Bank0GpioRegisterAccess, InputOutputPinType>,
    pub gpio3: GpioPin<Unknown, Bank0GpioRegisterAccess, InputOutputPinType>,
    pub gpio4: GpioPin<Unknown, Bank0GpioRegisterAccess, InputOutputPinType>,
    pub gpio5: GpioPin<Unknown, Bank0GpioRegisterAccess, InputOutputPinType>,
    pub gpio6: GpioPin<Unknown, Bank0GpioRegisterAccess, InputOutputPinType>,
    pub gpio7: GpioPin<Unknown, Bank0GpioRegisterAccess, InputOutputPinType>,
    pub gpio8: GpioPin<Unknown, Bank0GpioRegisterAccess, InputOutputPinType>,
    pub gpio9: GpioPin<Unknown, Bank0GpioRegisterAccess, InputOutputPinType>,
    pub gpio10: GpioPin<Unknown, Bank0GpioRegisterAccess, InputOutputPinType>,
    pub gpio11: GpioPin<Unknown, Bank0GpioRegisterAccess, InputOutputPinType>,
    pub gpio12: GpioPin<Unknown, Bank0GpioRegisterAccess, InputOutputPinType>,
    pub gpio13: GpioPin<Unknown, Bank0GpioRegisterAccess, InputOutputPinType>,
    pub gpio14: GpioPin<Unknown, Bank0GpioRegisterAccess, InputOutputPinType>,
    pub gpio15: GpioPin<Unknown, Bank0GpioRegisterAccess, InputOutputPinType>,
    pub gpio16: GpioPin<Unknown, Bank0GpioRegisterAccess, InputOutputPinType>,
    pub gpio17: GpioPin<Unknown, Bank0GpioRegisterAccess, InputOutputPinType>,
    pub gpio18: GpioPin<Unknown, Bank0GpioRegisterAccess, InputOutputPinType>,
    pub gpio19: GpioPin<Unknown, Bank0GpioRegisterAccess, InputOutputPinType>,
    pub gpio20: GpioPin<Unknown, Bank0GpioRegisterAccess, InputOutputPinType>,
    pub gpio21: GpioPin<Unknown, Bank0GpioRegisterAccess, InputOutputPinType>,
    pub gpio22: GpioPin<Unknown, Bank0GpioRegisterAccess, InputOutputPinType>,
    pub gpio23: GpioPin<Unknown, Bank0GpioRegisterAccess, InputOutputPinType>,
    pub gpio24: GpioPin<Unknown, Bank0GpioRegisterAccess, InputOutputPinType>,
    pub gpio25: GpioPin<Unknown, Bank0GpioRegisterAccess, InputOnlyAnalogPinType>,
    pub gpio26: GpioPin<Unknown, Bank0GpioRegisterAccess, InputOnlyAnalogPinType>,
    pub gpio27: GpioPin<Unknown, Bank0GpioRegisterAccess, InputOnlyAnalogPinType>,
    pub gpio28: GpioPin<Unknown, Bank0GpioRegisterAccess, InputOutputPinType>,
    pub gpio29: GpioPin<Unknown, Bank0GpioRegisterAccess, InputOutputPinType>,
    pub gpio30: GpioPin<Unknown, Bank0GpioRegisterAccess, InputOutputPinType>,
    pub gpio31: GpioPin<Unknown, Bank0GpioRegisterAccess, InputOutputPinType>,
    pub gpio32: GpioPin<Unknown, Bank1GpioRegisterAccess, InputOutputAnalogPinType>,
    pub gpio33: GpioPin<Unknown, Bank1GpioRegisterAccess, InputOutputAnalogPinType>,
    pub gpio34: GpioPin<Unknown, Bank1GpioRegisterAccess, InputOnlyPinType>,
    pub gpio35: GpioPin<Unknown, Bank1GpioRegisterAccess, InputOnlyPinType>,
    pub gpio36: GpioPin<Unknown, Bank1GpioRegisterAccess, InputOnlyPinType>,
    pub gpio37: GpioPin<Unknown, Bank1GpioRegisterAccess, InputOnlyPinType>,
    pub gpio38: GpioPin<Unknown, Bank1GpioRegisterAccess, InputOnlyPinType>,
    pub gpio39: GpioPin<Unknown, Bank1GpioRegisterAccess, InputOnlyPinType>,
}

/// Every pin handle is well formed, carries its own number, and holds its
/// chip-given dedicated-slot tables.
pub open spec fn pins_wired(p: Pins) -> bool {
    &&& p.gpio0.wf() && p.gpio0.pnum() == 0
    &&& p.gpio1.wf() && p.gpio1.pnum() == 1
    &&& p.gpio2.wf() && p.gpio2.pnum() == 2
    &&& p.gpio3.wf() && p.gpio3.pnum() == 3
    &&& p.gpio4.wf() && p.gpio4.pnum() == 4
    &&& p.gpio5.wf() && p.gpio5.pnum() == 5
    &&& p.gpio6.wf() && p.gpio6.pnum() == 6
    &&& p.gpio7.wf() && p.gpio7.pnum() == 7
    &&& p.gpio8.wf() && p.gpio8.pnum() == 8
    &&& p.gpio9.wf() && p.gpio9.pnum() == 9
    &&& p.gpio10.wf() && p.gpio10.pnum() == 10
    &&& p.gpio11.wf() && p.gpio11.pnum() == 11
    &&& p.gpio12.wf() && p.gpio12.pnum() == 12
    &&& p.gpio13.wf() && p.gpio13.pnum() == 13
    &&& p.gpio14.wf() && p.gpio14.pnum() == 14
    &&& p.gpio15.wf() && p.gpio15.pnum() == 15
    &&& p.gpio16.wf() && p.gpio16.pnum() == 16
    &&& p.gpio17.wf() && p.gpio17.pnum() == 17
    &&& p.gpio18.wf() && p.gpio18.pnum() == 18
    &&& p.gpio19.wf() && p.gpio19.pnum() == 19
    &&& p.gpio20.wf() && p.gpio20.pnum() == 20
    &&& p.gpio21.wf() && p.gpio21.pnum() == 21
    &&& p.gpio22.wf() && p.gpio22.pnum() == 22
    &&& p.gpio23.wf() && p.gpio23.pnum() == 23
    &&& p.gpio24.wf() && p.gpio24.pnum() == 24
    &&& p.gpio25.wf() && p.gpio25.pnum() == 25
    &&& p.gpio26.wf() && p.gpio26.pnum() == 26
    &&& p.gpio27.wf() && p.gpio27.pnum() == 27
    &&& p.gpio28.wf() && p.gpio28.pnum() == 28
    &&& p.gpio29.wf() && p.gpio29.pnum() == 29
    &&& p.gpio30.wf() && p.gpio30.pnum() == 30
    &&& p.gpio31.wf() && p.gpio31.pnum() == 31
    &&& p.gpio32.wf() && p.gpio32.pnum() == 32
    &&& p.gpio33.wf() && p.gpio33.pnum() == 33
    &&& p.gpio34.wf() && p.gpio34.pnum() == 34
    &&& p.gpio35.wf() && p.gpio35.pnum() == 35
    &&& p.gpio36.wf() && p.gpio36.pnum() == 36
    &&& p.gpio37.wf() && p.gpio37.pnum() == 37
    &&& p.gpio38.wf() && p.gpio38.pnum() == 38
    &&& p.gpio39.wf() && p.gpio39.pnum() == 39
    &&& p.gpio1.af_out() == one_output_slot(2, OutputSignal::Uart0Txd)
    &&& p.gpio1.af_in() == no_input_slots()
    &&& p.gpio3.af_in() == one_input_slot(2, InputSignal::Uart0Rxd)
    &&& p.gpio3.af_out() == no_output_slots()
    &&& p.gpio12.af_in() == one_input_slot(1, InputSignal::Spi2Miso)
    &&& p.gpio12.af_out() == one_output_slot(1, OutputSignal::Spi2Miso)
    &&& p.gpio13.af_in() == one_input_slot(1, InputSignal::Spi2Mosi)
    &&& p.gpio13.af_out() == one_output_slot(1, OutputSignal::Spi2Mosi)
    &&& p.gpio14.af_in() == one_input_slot(1, InputSignal::Spi2Clk)
    &&& p.gpio14.af_out() == one_output_slot(1, OutputSignal::Spi2Clk)
    &&& p.gpio0.af_in() == no_input_slots() && p.gpio0.af_out() == no_output_slots()
    &&& p.gpio2.af_in() == no_input_slots() && p.gpio2.af_out() == no_output_slots()
    &&& p.gpio4.af_in() == no_input_slots() && p.gpio4.af_out() == no_output_slots()
    &&& p.gpio5.af_in() == no_input_slots() && p.gpio5.af_out() == no_output_slots()
    &&& p.gpio6.af_in() == no_input_slots() && p.gpio6.af_out() == no_output_slots()
    &&& p.gpio7.af_in() == no_input_slots() && p.gpio7.af_out() == no_output_slots()
    &&& p.gpio8.af_in() == no_input_slots() && p.gpio8.af_out() == no_output_slots()
    &&& p.gpio9.af_in() == no_input_slots() && p.gpio9.af_out() == no_output_slots()
    &&& p.gpio10.af_in() == no_input_slots() && p.gpio10.af_out() == no_output_slots()
    &&& p.gpio11.af_in() == no_input_slots() && p.gpio11.af_out() == no_output_slots()
    &&& p.gpio15.af_in() == no_input_slots() && p.gpio15.af_out() == no_output_slots()
    &&& p.gpio16.af_in() == no_input_slots() && p.gpio16.af_out() == no_output_slots()
    &&& p.gpio17.af_in() == no_input_slots() && p.gpio17.af_out() == no_output_slots()
    &&& p.gpio18.af_in() == no_input_slots() && p.gpio18.af_out() == no_output_slots()
    &&& p.gpio19.af_in() == no_input_slots() && p.gpio19.af_out() == no_output_slots()
    &&& p.gpio20.af_in() == no_input_slots() && p.gpio20.af_out() == no_output_slots()
    &&& p.gpio21.af_in() == no_input_slots() && p.gpio21.af_out() == no_output_slots()
    &&& p.gpio22.af_in() == no_input_slots() && p.gpio22.af_out() == no_output_slots()
    &&& p.gpio23.af_in() == no_input_slots() && p.gpio23.af_out() == no_output_slots()
    &&& p.gpio24.af_in() == no_input_slots() && p.gpio24.af_out() == no_output_slots()
    &&& p.gpio25.af_in() == no_input_slots() && p.gpio25.af_out() == no_output_slots()
    &&& p.gpio26.af_in() == no_input_slots() && p.gpio26.af_out() == no_output_slots()
    &&& p.gpio27.af_in() == no_input_slots() && p.gpio27.af_out() == no_output_slots()
    &&& p.gpio28.af_in() == no_input_slots() && p.gpio28.af_out() == no_output_slots()
    &&& p.gpio29.af_in() == no_input_slots() && p.gpio29.af_out() == no_output_slots()
    &&& p.gpio30.af_in() == no_input_slots() && p.gpio30.af_out() == no_output_slots()
    &&& p.gpio31.af_in() == no_input_slots() && p.gpio31.af_out() == no_output_slots()
    &&& p.gpio32.af_in() == no_input_slots() && p.gpio32.af_out() == no_output_slots()
    &&& p.gpio33.af_in() == no_input_slots() && p.gpio33.af_out() == no_output_slots()
    &&& p.gpio34.af_in() == no_input_slots() && p.gpio34.af_out() == no_output_slots()
    &&& p.gpio35.af_in() == no_input_slots() && p.gpio35.af_out() == no_output_slots()
    &&& p.gpio36.af_in() == no_input_slots() && p.gpio36.af_out() == no_output_slots()
    &&& p.gpio37.af_in() == no_input_slots() && p.gpio37.af_out() == no_output_slots()
    &&& p.gpio38.af_in() == no_input_slots() && p.gpio38.af_out() == no_output_slots()
    &&& p.gpio39.af_in() == no_input_slots() && p.gpio39.af_out() == no_output_slots()
}

/// The I/O subsystem: the one-time collection of pin handles.
pub struct IO {
    /// The pin handles, each yielded exactly once.
    pub pins: Pins,
}

impl IO {
    /// Builds the pin collection from the chip's fixed wiring table. Called
    /// once at startup; each pin handle exists exactly once.
    pub fn new() -> (io: IO)
        ensures
            pins_wired(io.pins),
    {
        let pins = Pins {
            gpio0: GpioPin::new_pin(Bank0GpioRegisterAccess, 0, in_none(), out_none()),
            gpio1: GpioPin::new_pin(
                Bank0GpioRegisterAccess,
                1,
                in_none(),
                out_one(2, OutputSignal::Uart0Txd),
            ),
            gpio2: GpioPin::new_pin(Bank0GpioRegisterAccess, 2, in_none(), out_none()),
            gpio3: GpioPin::new_pin(
                Bank0GpioRegisterAccess,
                3,
                in_one(2, InputSignal::Uart0Rxd),
                out_none(),
            ),
            gpio4: GpioPin::new_pin(Bank0GpioRegisterAccess, 4, in_none(), out_none()),
            gpio5: GpioPin::new_pin(Bank0GpioRegisterAccess, 5, in_none(), out_none()),
            gpio6: GpioPin::new_pin(Bank0GpioRegisterAccess, 6, in_none(), out_none()),
            gpio7: GpioPin::new_pin(Bank0GpioRegisterAccess, 7, in_none(), out_none()),
            gpio8: GpioPin::new_pin(Bank0GpioRegisterAccess, 8, in_none(), out_none()),
            gpio9: GpioPin::new_pin(Bank0GpioRegisterAccess, 9, in_none(), out_none()),
            gpio10: GpioPin::new_pin(Bank0GpioRegisterAccess, 10, in_none(), out_none()),
            gpio11: GpioPin::new_pin(Bank0GpioRegisterAccess, 11, in_none(), out_none()),
            gpio12: GpioPin::new_pin(
                Bank0GpioRegisterAccess,
                12,
                in_one(1, InputSignal::Spi2Miso),
                out_one(1, OutputSignal::Spi2Miso),
            ),
            gpio13: GpioPin::new_pin(
                Bank0GpioRegisterAccess,
                13,
                in_one(1, InputSignal::Spi2Mosi),
                out_one(1, OutputSignal::Spi2Mosi),
            ),
            gpio14: GpioPin::new_pin(
                Bank0GpioRegisterAccess,
                14,
                in_one(1, InputSignal::Spi2Clk),
                out_one(1, OutputSignal::Spi2Clk),
            ),
            gpio15: GpioPin::new_pin(Bank0GpioRegisterAccess, 15, in_none(), out_none()),
            gpio16: GpioPin::new_pin(Bank0GpioRegisterAccess, 16, in_none(), out_none()),
            gpio17: GpioPin::new_pin(Bank0GpioRegisterAccess, 17, in_none(), out_none()),
            gpio18: GpioPin::new_pin(Bank0GpioRegisterAccess, 18, in_none(), out_none()),
            gpio19: GpioPin::new_pin(Bank0GpioRegisterAccess, 19, in_none(), out_none()),
            gpio20: GpioPin::new_pin(Bank0GpioRegisterAccess, 20, in_none(), out_none()),
            gpio21: GpioPin::new_pin(Bank0GpioRegisterAccess, 21, in_none(), out_none()),
            gpio22: GpioPin::new_pin(Bank0GpioRegisterAccess, 22, in_none(), out_none()),
            gpio23: GpioPin::new_pin(Bank0GpioRegisterAccess, 23, in_none(), out_none()),
            gpio24: GpioPin::new_pin(Bank0GpioRegisterAccess, 24, in_none(), out_none()),
            gpio25: GpioPin::new_pin(Bank0GpioRegisterAccess, 25, in_none(), out_none()),
            gpio26: GpioPin::new_pin(Bank0GpioRegisterAccess, 26, in_none(), out_none()),
            gpio27: GpioPin::new_pin(Bank0GpioRegisterAccess, 27, in_none(), out_none()),
            gpio28: GpioPin::new_pin(Bank0GpioRegisterAccess, 28, in_none(), out_none()),
            gpio29: GpioPin::new_pin(Bank0GpioRegisterAccess, 29, in_none(), out_none()),
            gpio30: GpioPin::new_pin(Bank0GpioRegisterAccess, 30, in_none(), out_none()),
            gpio31: GpioPin::new_pin(Bank0GpioRegisterAccess, 31, in_none(), out_none()),
            gpio32: GpioPin::new_pin(Bank1GpioRegisterAccess, 32, in_none(), out_none()),
            gpio33: GpioPin::new_pin(Bank1GpioRegisterAccess, 33, in_none(), out_none()),
            gpio34: GpioPin::new_pin(Bank1GpioRegisterAccess, 34, in_none(), out_none()),
            gpio35: GpioPin::new_pin(Bank1GpioRegisterAccess, 35, in_none(), out_none()),
            gpio36: GpioPin::new_pin(Bank1GpioRegisterAccess, 36, in_none(), out_none()),
            gpio37: GpioPin::new_pin(Bank1GpioRegisterAccess, 37, in_none(), out_none()),
            gpio38: GpioPin::new_pin(Bank1GpioRegisterAccess, 38, in_none(), out_none()),
            gpio39: GpioPin::new_pin(Bank1GpioRegisterAccess, 39, in_none(), out_none()),
        };
        IO { pins }
    }
}

} // verus!
