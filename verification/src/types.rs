//! Electrical-mode tags, capability classes, peripheral signals and
//! interrupt events.
//!
//! A pin's current electrical mode and its capability class are part of its
//! type: mode transitions consume the pin and return a handle of the new
//! mode's type, and an operation a pin's hardware cannot perform (an output
//! transition on an input-only pin, say) is simply not offered for that type.

use core::marker::PhantomData;
use vstd::prelude::*;
use crate::regs::{OUTPUT_SIGNAL_MAX, GPIO_OUT_SIGNAL};

verus! {

/// Mode tag: the power-on state, before any transition.
pub struct Unknown {}

/// Mode tag: an input, refined by `Floating`, `PullUp` or `PullDown`.
pub struct Input<MODE> {
    _mode: PhantomData<MODE>,
}

/// Mode tag: an input driven by the RTC domain.
pub struct RTCInput<MODE> {
    _mode: PhantomData<MODE>,
}

/// Input refinement: no weak pull resistor.
pub struct Floating;

/// Input refinement: weak pull-down resistor on.
pub struct PullDown;

/// Input refinement: weak pull-up resistor on.
pub struct PullUp;

/// Mode tag: an output, refined by `PushPull` or `OpenDrain`.
pub struct Output<MODE> {
    _mode: PhantomData<MODE>,
}

/// Mode tag: an output driven by the RTC domain.
pub struct RTCOutput<MODE> {
    _mode: PhantomData<MODE>,
}

/// Output refinement: the pad only pulls low; it can be read back externally.
pub struct OpenDrain;

/// Output refinement: the pad drives both levels.
pub struct PushPull;

/// Mode tag: the pad is routed to the analog / RTC subsystem.
pub struct Analog;

/// Mode tag: an alternate function, refined by `AF1` or `AF2`.
pub struct Alternate<MODE> {
    _mode: PhantomData<MODE>,
}

/// Alternate-function refinement: function code 0, the GPIO function.
pub struct AF0;

/// Alternate-function refinement: function code 1.
pub struct AF1;

/// Alternate-function refinement: function code 2.
pub struct AF2;

/// An interrupt trigger condition.
#[derive(Clone, Copy, PartialEq, Eq, Structural, Debug)]
pub enum Event {
    /// Trigger on a low-to-high transition.
    RisingEdge,
    /// Trigger on a high-to-low transition.
    FallingEdge,
    /// Trigger on any transition.
    AnyEdge,
    /// Trigger while the level is low.
    LowLevel,
    /// Trigger while the level is high.
    HighLevel,
}

/// The event-type code programmed into a pin's control register.
pub open spec fn spec_event_code(e: Event) -> u8 {
    match e {
        Event::RisingEdge => 1,
        Event::FallingEdge => 2,
        Event::AnyEdge => 3,
        Event::LowLevel => 4,
        Event::HighLevel => 5,
    }
}

/// Whether an event needs edge detection, unavailable during light sleep.
pub open spec fn spec_is_edge(e: Event) -> bool {
    e == Event::RisingEdge || e == Event::FallingEdge || e == Event::AnyEdge
}

impl Event {
    /// The event-type code programmed into a pin's control register.
    pub fn code(self) -> (r: u8)
        ensures
            r == spec_event_code(self),
    {
        match self {
            Event::RisingEdge => 1,
            Event::FallingEdge => 2,
            Event::AnyEdge => 3,
            Event::LowLevel => 4,
            Event::HighLevel => 5,
        }
    }

    /// Whether this event needs edge detection, unavailable during light
    /// sleep.
    pub fn is_edge(self) -> (r: bool)
        ensures
            r == spec_is_edge(self),
    {
        match self {
            Event::RisingEdge => true,
            Event::FallingEdge => true,
            Event::AnyEdge => true,
            Event::LowLevel => false,
            Event::HighLevel => false,
        }
    }
}

/// The two-bit interrupt-enable field: bit 0 maskable, bit 1 non-maskable.
pub open spec fn spec_intr_enable(int_enable: bool, nmi_enable: bool) -> u8 {
    ((if nmi_enable {
        2int
    } else {
        0int
    }) + (if int_enable {
        1int
    } else {
        0int
    })) as u8
}

/// The two-bit interrupt-enable field: bit 0 maskable, bit 1 non-maskable.
pub fn gpio_intr_enable(int_enable: bool, nmi_enable: bool) -> (r: u8)
    ensures
        r == spec_intr_enable(int_enable, nmi_enable),
{
    (if nmi_enable {
        2u8
    } else {
        0u8
    }) + (if int_enable {
        1u8
    } else {
        0u8
    })
}

/// Output drive strength, one of four discrete levels.
#[derive(Clone, Copy, PartialEq, Eq, Structural, Debug)]
pub enum DriveStrength {
    /// Roughly 5 mA.
    I5mA,
    /// Roughly 10 mA.
    I10mA,
    /// Roughly 20 mA, the default after an output transition.
    I20mA,
    /// Roughly 40 mA.
    I40mA,
}

/// The code programmed into the drive-strength field.
pub open spec fn spec_drive_code(d: DriveStrength) -> u8 {
    match d {
        DriveStrength::I5mA => 0,
        DriveStrength::I10mA => 1,
        DriveStrength::I20mA => 2,
        DriveStrength::I40mA => 3,
    }
}

impl DriveStrength {
    /// The code programmed into the drive-strength field.
    pub fn code(self) -> (r: u8)
        ensures
            r == spec_drive_code(self),
    {
        match self {
            DriveStrength::I5mA => 0,
            DriveStrength::I10mA => 1,
            DriveStrength::I20mA => 2,
            DriveStrength::I40mA => 3,
        }
    }
}

/// One of a pin's up to six selectable functions; function 0 is the generic
/// GPIO function.
#[derive(Clone, Copy, PartialEq, Eq, Structural, Debug)]
pub enum AlternateFunction {
    /// Function code 0, the generic GPIO function.
    Function0,
    /// Function code 1.
    Function1,
    /// Function code 2.
    Function2,
    /// Function code 3.
    Function3,
    /// Function code 4.
    Function4,
    /// Function code 5.
    Function5,
}

/// The code programmed into the function-select field.
pub open spec fn spec_function_code(a: AlternateFunction) -> u8 {
    match a {
        AlternateFunction::Function0 => 0,
        AlternateFunction::Function1 => 1,
        AlternateFunction::Function2 => 2,
        AlternateFunction::Function3 => 3,
        AlternateFunction::Function4 => 4,
        AlternateFunction::Function5 => 5,
    }
}

impl AlternateFunction {
    /// The code programmed into the function-select field.
    pub fn code(self) -> (r: u8)
        ensures
            r == spec_function_code(self),
    {
        match self {
            AlternateFunction::Function0 => 0,
            AlternateFunction::Function1 => 1,
            AlternateFunction::Function2 => 2,
            AlternateFunction::Function3 => 3,
            AlternateFunction::Function4 => 4,
            AlternateFunction::Function5 => 5,
        }
    }
}

/// Marker for a pin with an RTC-domain function.
pub trait RTCPin {}

/// Marker for a pin wired to the analog subsystem.
pub trait AnalogPin {}

/// Capability class of a physical pin; a hardware fact fixed at construction.
pub trait PinType {}

/// Capability: the pad can drive an output.
pub trait IsOutputPin: PinType {}

/// Capability: the pad can sample an input.
pub trait IsInputPin: PinType {}

/// Capability: the pad can be routed to the analog subsystem.
pub trait IsAnalogPin: PinType {}

/// Class of pins that sample and drive.
pub struct InputOutputPinType;

/// Class of pins that only sample.
pub struct InputOnlyPinType;

/// Class of pins that sample, drive, and reach the analog subsystem.
pub struct InputOutputAnalogPinType;

/// Class of pins that only sample but reach the analog subsystem.
pub struct InputOnlyAnalogPinType;

impl PinType for InputOutputPinType {}

impl IsOutputPin for InputOutputPinType {}

impl IsInputPin for InputOutputPinType {}

impl PinType for InputOnlyPinType {}

impl IsInputPin for InputOnlyPinType {}

impl PinType for InputOutputAnalogPinType {}

impl IsOutputPin for InputOutputAnalogPinType {}

impl IsInputPin for InputOutputAnalogPinType {}

impl IsAnalogPin for InputOutputAnalogPinType {}

impl PinType for InputOnlyAnalogPinType {}

impl IsInputPin for InputOnlyAnalogPinType {}

impl IsAnalogPin for InputOnlyAnalogPinType {}

/// A peripheral-side input identity: a level some peripheral consumes from a
/// pin. Ids above `INPUT_SIGNAL_MAX` have no crossbar entry; such a signal
/// reaches a pin only through a dedicated alternate-function slot.
#[derive(Clone, Copy, PartialEq, Eq, Structural, Debug)]
pub enum InputSignal {
    /// Clear-to-send of the first UART (crossbar id 7).
    Uart0Cts,
    /// Receive line of the second UART (crossbar id 9).
    Uart1Rxd,
    /// Capture input of the first timer (crossbar id 33).
    Timer0Cap,
    /// Data line of the I2C controller (crossbar id 53).
    I2cSda,
    /// Receive line of the first UART; dedicated slots only (id 130).
    Uart0Rxd,
    /// Clock of the second SPI controller; dedicated slots only (id 131).
    Spi2Clk,
    /// Controller-out data of the second SPI; dedicated slots only (id 132).
    Spi2Mosi,
    /// Controller-in data of the second SPI; dedicated slots only (id 133).
    Spi2Miso,
}

/// The numeric id of an input signal.
pub open spec fn spec_input_id(s: InputSignal) -> u16 {
    match s {
        InputSignal::Uart0Cts => 7,
        InputSignal::Uart1Rxd => 9,
        InputSignal::Timer0Cap => 33,
        InputSignal::I2cSda => 53,
        InputSignal::Uart0Rxd => 130,
        InputSignal::Spi2Clk => 131,
        InputSignal::Spi2Mosi => 132,
        InputSignal::Spi2Miso => 133,
    }
}

impl InputSignal {
    /// The numeric id of this signal.
    pub fn id(self) -> (r: u16)
        ensures
            r == spec_input_id(self),
    {
        match self {
            InputSignal::Uart0Cts => 7,
            InputSignal::Uart1Rxd => 9,
            InputSignal::Timer0Cap => 33,
            InputSignal::I2cSda => 53,
            InputSignal::Uart0Rxd => 130,
            InputSignal::Spi2Clk => 131,
            InputSignal::Spi2Mosi => 132,
            InputSignal::Spi2Miso => 133,
        }
    }
}

/// A peripheral-side output identity: a level some peripheral drives onto a
/// pin. Ids above `OUTPUT_SIGNAL_MAX` have no crossbar entry; connecting one
/// without a dedicated slot degrades to plain GPIO drive, since
/// `GPIO_OUT_SIGNAL` equals the largest addressable id.
#[derive(Clone, Copy, PartialEq, Eq, Structural, Debug)]
pub enum OutputSignal {
    /// Request-to-send of the first UART (crossbar id 10).
    Uart0Rts,
    /// Transmit line of the second UART (crossbar id 11).
    Uart1Txd,
    /// First channel of the LED controller (crossbar id 45).
    Ledc0,
    /// Plain GPIO drive, "no peripheral" (id 128).
    Gpio,
    /// Transmit line of the first UART; dedicated slots only (id 135).
    Uart0Txd,
    /// Clock of the second SPI controller; dedicated slots only (id 136).
    Spi2Clk,
    /// Controller-out data of the second SPI; dedicated slots only (id 137).
    Spi2Mosi,
    /// Controller-in data of the second SPI; dedicated slots only (id 138).
    Spi2Miso,
}

/// The numeric id of an output signal.
pub open spec fn spec_output_id(s: OutputSignal) -> u16 {
    match s {
        OutputSignal::Uart0Rts => 10,
        OutputSignal::Uart1Txd => 11,
        OutputSignal::Ledc0 => 45,
        OutputSignal::Gpio => 128,
        OutputSignal::Uart0Txd => 135,
        OutputSignal::Spi2Clk => 136,
        OutputSignal::Spi2Mosi => 137,
        OutputSignal::Spi2Miso => 138,
    }
}

impl OutputSignal {
    /// The numeric id of this signal.
    pub fn id(self) -> (r: u16)
        ensures
            r == spec_output_id(self),
    {
        match self {
            OutputSignal::Uart0Rts => 10,
            OutputSignal::Uart1Txd => 11,
            OutputSignal::Ledc0 => 45,
            OutputSignal::Gpio => 128,
            OutputSignal::Uart0Txd => 135,
            OutputSignal::Spi2Clk => 136,
            OutputSignal::Spi2Mosi => 137,
            OutputSignal::Spi2Miso => 138,
        }
    }
}

/// The id of the plain-GPIO output signal equals the clamp bound, so an
/// out-of-range output id degrades to "no peripheral" exactly.
pub proof fn lemma_gpio_signal_is_clamp_bound()
    ensures
        spec_output_id(OutputSignal::Gpio) == OUTPUT_SIGNAL_MAX,
        GPIO_OUT_SIGNAL == OUTPUT_SIGNAL_MAX,
{
}

} // verus!
