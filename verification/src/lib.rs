//! Board support for the d20 LED controller, built around an ATSAMD51G
//! microcontroller that drives an iCE40 FPGA and reads a BMX160 IMU.

pub mod hal_types;
pub mod pins;
pub mod wiring;


pub use atsamd_hal as hal;
pub use atsamd_hal::target_device as pac;
pub use pins::{Pins, Sets};

pub use wiring::{BoardPin, PinId, PortGroup};
