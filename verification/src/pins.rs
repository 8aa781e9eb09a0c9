//! The board's named pins.

use vstd::prelude::*;
use atsamd_hal::gpio::{Floating, GpioExt, Input, Port};
use atsamd_hal::gpio::{Pa13, Pa14, Pa15, Pa16, Pa17, Pa18, Pa19, Pa2, Pa4, Pa5, Pa6, Pa7, Pb22, Pb23, Pb8, Pb9};
use atsamd_hal::target_device::PORT;

verus! {

/// Maps the pins to their board names and the numbers printed on the board.
///
/// Each field holds the pin that `crate::wiring::wired_pin` names for the
/// matching `crate::wiring::BoardPin`; every pin starts as a floating input.
pub struct Pins {
    /// Opaque port reference
    pub port: Port,
    /// Red status LED, PA13 (`BoardPin::LedR`).
    pub led_r: Pa13<Input<Floating>>,
    /// Green status LED, PA15 (`BoardPin::LedG`).
    pub led_g: Pa15<Input<Floating>>,
    /// Blue status LED, PA14 (`BoardPin::LedB`).
    pub led_b: Pa14<Input<Floating>>,
    /// SPI data from the iCE40 (MISO), PA7 (`BoardPin::Ice40Miso`).
    pub ice40_miso: Pa7<Input<Floating>>,
    /// SPI data to the iCE40 (MOSI), PA4 (`BoardPin::Ice40Mosi`).
    pub ice40_mosi: Pa4<Input<Floating>>,
    /// SPI clock of the iCE40 link, PA5 (`BoardPin::Ice40Sck`).
    pub ice40_sck: Pa5<Input<Floating>>,
    /// SPI chip select of the iCE40, PA6 (`BoardPin::Ice40Ss`).
    pub ice40_ss: Pa6<Input<Floating>>,
    /// Configuration-done signal of the iCE40, PB8 (`BoardPin::Ice40Cdone`).
    pub ice40_cdone: Pb8<Input<Floating>>,
    /// Reset line of the iCE40, PB9 (`BoardPin::Ice40Reset`).
    pub ice40_reset: Pb9<Input<Floating>>,
    /// General purpose line 0 shared with the iCE40, PA2 (`BoardPin::Ice40Io0`).
    pub ice40_io0: Pa2<Input<Floating>>,
    /// Clock output to the iCE40, PB23 (`BoardPin::Ice40Gclk`).
    pub ice40_gclk: Pb23<Input<Floating>>,
    /// User push button, PB22 (`BoardPin::Button`).
    pub button: Pb22<Input<Floating>>,
    /// SPI data from the IMU (MISO), PA19 (`BoardPin::ImuMiso`).
    pub imu_miso: Pa19<Input<Floating>>,
    /// SPI data to the IMU (MOSI), PA16 (`BoardPin::ImuMosi`).
    pub imu_mosi: Pa16<Input<Floating>>,
    /// SPI clock of the IMU link, PA17 (`BoardPin::ImuSck`).
    pub imu_sck: Pa17<Input<Floating>>,
    /// SPI chip select of the IMU, PA18 (`BoardPin::ImuSs`).
    pub imu_ss: Pa18<Input<Floating>>,
}

impl Pins {
    /// Returns the pins for the device.
    ///
    /// Calls `GpioExt::split` of `atsamd-hal` on the PORT peripheral and moves
    /// each named pin out of the resulting `Parts`.  The pins are opaque, so
    /// nothing is stated of the result beyond its type, which fixes for every
    /// field the port pin that it holds.
    #[verifier::external_body]
    pub fn new(port: PORT) -> (pins: Pins) {
        let p = port.split();
        Pins {
            port: p.port,
            led_r: p.pa13, led_g: p.pa15, led_b: p.pa14, ice40_miso: p.pa7,
            ice40_mosi: p.pa4, ice40_sck: p.pa5, ice40_ss: p.pa6, ice40_cdone: p.pb8,
            ice40_reset: p.pb9, ice40_io0: p.pa2, ice40_gclk: p.pb23, button: p.pb22,
            imu_miso: p.pa19, imu_mosi: p.pa16, imu_sck: p.pa17, imu_ss: p.pa18,
        }
    }

    /// Split the device pins into subsets
    pub fn split(self) -> (sets: Sets)
        ensures
            sets.port == self.port,
    {
        Sets { port: self.port }
    }
}

/// Sets of pins split apart by category
pub struct Sets {
    /// Port
    pub port: Port,
}

} // verus!
