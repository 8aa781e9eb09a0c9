//! Declarations of the `atsamd-hal` types that the board's pin structures
//! carry.  Each one is opaque to the verifier: the library only moves such
//! values from one owner to another and never looks inside them.

use vstd::prelude::*;

verus! {

/// The opaque handle of the GPIO port, used to reconfigure pins.
#[verifier::external_type_specification]
#[verifier::external_body]
pub struct ExGpioPort(atsamd_hal::gpio::Port);

/// The PORT peripheral as handed out by the device's peripheral access crate.
#[verifier::external_type_specification]
#[verifier::external_body]
pub struct ExPortPeripheral(atsamd_hal::target_device::PORT);

/// The input mode marker of a pin.
#[verifier::external_type_specification]
#[verifier::external_body]
#[verifier::reject_recursive_types(MODE)]
pub struct ExInput<MODE>(atsamd_hal::gpio::Input<MODE>);

/// The floating (no pull resistor) input mode.
#[verifier::external_type_specification]
#[verifier::external_body]
pub struct ExFloating(atsamd_hal::gpio::Floating);

/// Pin PA2.
#[verifier::external_type_specification]
#[verifier::external_body]
#[verifier::reject_recursive_types(MODE)]
pub struct ExPa2<MODE>(atsamd_hal::gpio::Pa2<MODE>);

/// Pin PA4.
#[verifier::external_type_specification]
#[verifier::external_body]
#[verifier::reject_recursive_types(MODE)]
pub struct ExPa4<MODE>(atsamd_hal::gpio::Pa4<MODE>);

/// Pin PA5.
#[verifier::external_type_specification]
#[verifier::external_body]
#[verifier::reject_recursive_types(MODE)]
pub struct ExPa5<MODE>(atsamd_hal::gpio::Pa5<MODE>);

/// Pin PA6.
#[verifier::external_type_specification]
#[verifier::external_body]
#[verifier::reject_recursive_types(MODE)]
pub struct ExPa6<MODE>(atsamd_hal::gpio::Pa6<MODE>);

/// Pin PA7.
#[verifier::external_type_specification]
#[verifier::external_body]
#[verifier::reject_recursive_types(MODE)]
pub struct ExPa7<MODE>(atsamd_hal::gpio::Pa7<MODE>);

/// Pin PA13.
#[verifier::external_type_specification]
#[verifier::external_body]
#[verifier::reject_recursive_types(MODE)]
pub struct ExPa13<MODE>(atsamd_hal::gpio::Pa13<MODE>);

/// Pin PA14.
#[verifier::external_type_specification]
#[verifier::external_body]
#[verifier::reject_recursive_types(MODE)]
pub struct ExPa14<MODE>(atsamd_hal::gpio::Pa14<MODE>);

/// Pin PA15.
#[verifier::external_type_specification]
#[verifier::external_body]
#[verifier::reject_recursive_types(MODE)]
pub struct ExPa15<MODE>(atsamd_hal::gpio::Pa15<MODE>);

/// Pin PA16.
#[verifier::external_type_specification]
#[verifier::external_body]
#[verifier::reject_recursive_types(MODE)]
pub struct ExPa16<MODE>(atsamd_hal::gpio::Pa16<MODE>);

/// Pin PA17.
#[verifier::external_type_specification]
#[verifier::external_body]
#[verifier::reject_recursive_types(MODE)]
pub struct ExPa17<MODE>(atsamd_hal::gpio::Pa17<MODE>);

/// Pin PA18.
#[verifier::external_type_specification]
#[verifier::external_body]
#[verifier::reject_recursive_types(MODE)]
pub struct ExPa18<MODE>(atsamd_hal::gpio::Pa18<MODE>);

/// Pin PA19.
#[verifier::external_type_specification]
#[verifier::external_body]
#[verifier::reject_recursive_types(MODE)]
pub struct ExPa19<MODE>(atsamd_hal::gpio::Pa19<MODE>);

/// Pin PB8.
#[verifier::external_type_specification]
#[verifier::external_body]
#[verifier::reject_recursive_types(MODE)]
pub struct ExPb8<MODE>(atsamd_hal::gpio::Pb8<MODE>);

/// Pin PB9.
#[verifier::external_type_specification]
#[verifier::external_body]
#[verifier::reject_recursive_types(MODE)]
pub struct ExPb9<MODE>(atsamd_hal::gpio::Pb9<MODE>);

/// Pin PB22.
#[verifier::external_type_specification]
#[verifier::external_body]
#[verifier::reject_recursive_types(MODE)]
pub struct ExPb22<MODE>(atsamd_hal::gpio::Pb22<MODE>);

/// Pin PB23.
#[verifier::external_type_specification]
#[verifier::external_body]
#[verifier::reject_recursive_types(MODE)]
pub struct ExPb23<MODE>(atsamd_hal::gpio::Pb23<MODE>);

} // verus!
