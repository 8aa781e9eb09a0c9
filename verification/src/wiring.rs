//! The board's wiring: which port pin of the microcontroller each named
//! board signal is connected to, as plain values.
//!
//! `crate::pins::Pins` carries the same assignment in its field types; this
//! module states it as data so that its properties can be checked.

use vstd::prelude::*;

verus! {

/// A GPIO group of the ATSAMD51G; each group has 32 lines.
#[derive(Clone, Copy, Debug, PartialEq, Eq, Structural)]
pub enum PortGroup {
    A,
    B,
}

/// One port pin of the microcontroller, such as PA13.
#[derive(Clone, Copy, Debug, PartialEq, Eq, Structural)]
pub struct PinId {
    pub group: PortGroup,
    pub number: u8,
}

impl PinId {
    /// A pin exists in a group only below line 32.
    pub open spec fn wf(self) -> bool {
        self.number < 32
    }
}

/// The named signals of the board, one for each field of `crate::pins::Pins`
/// except the port handle.
#[derive(Clone, Copy, Debug, PartialEq, Eq, Structural)]
pub enum BoardPin {
    /// Red status LED.
    LedR,
    /// Green status LED.
    LedG,
    /// Blue status LED.
    LedB,
    /// SPI data from the iCE40 (MISO).
    Ice40Miso,
    /// SPI data to the iCE40 (MOSI).
    Ice40Mosi,
    /// SPI clock of the iCE40 link.
    Ice40Sck,
    /// SPI chip select of the iCE40.
    Ice40Ss,
    /// Configuration-done signal of the iCE40.
    Ice40Cdone,
    /// Reset line of the iCE40.
    Ice40Reset,
    /// General purpose line 0 shared with the iCE40.
    Ice40Io0,
    /// Clock output to the iCE40.
    Ice40Gclk,
    /// User push button.
    Button,
    /// SPI data from the IMU (MISO).
    ImuMiso,
    /// SPI data to the IMU (MOSI).
    ImuMosi,
    /// SPI clock of the IMU link.
    ImuSck,
    /// SPI chip select of the IMU.
    ImuSs,
}

/// The port pin that a board signal is wired to.
pub open spec fn wired_pin(p: BoardPin) -> PinId {
    match p {
        BoardPin::LedR => PinId { group: PortGroup::A, number: 13 },
        BoardPin::LedG => PinId { group: PortGroup::A, number: 15 },
        BoardPin::LedB => PinId { group: PortGroup::A, number: 14 },
        BoardPin::Ice40Miso => PinId { group: PortGroup::A, number: 7 },
        BoardPin::Ice40Mosi => PinId { group: PortGroup::A, number: 4 },
        BoardPin::Ice40Sck => PinId { group: PortGroup::A, number: 5 },
        BoardPin::Ice40Ss => PinId { group: PortGroup::A, number: 6 },
        BoardPin::Ice40Cdone => PinId { group: PortGroup::B, number: 8 },
        BoardPin::Ice40Reset => PinId { group: PortGroup::B, number: 9 },
        BoardPin::Ice40Io0 => PinId { group: PortGroup::A, number: 2 },
        BoardPin::Ice40Gclk => PinId { group: PortGroup::B, number: 23 },
        BoardPin::Button => PinId { group: PortGroup::B, number: 22 },
        BoardPin::ImuMiso => PinId { group: PortGroup::A, number: 19 },
        BoardPin::ImuMosi => PinId { group: PortGroup::A, number: 16 },
        BoardPin::ImuSck => PinId { group: PortGroup::A, number: 17 },
        BoardPin::ImuSs => PinId { group: PortGroup::A, number: 18 },
    }
}

impl BoardPin {
    /// The port pin that this signal is wired to.
    pub fn pin_id(self) -> (id: PinId)
        ensures
            id == wired_pin(self),
            id.wf(),
    {
        match self {
            BoardPin::LedR => PinId { group: PortGroup::A, number: 13 },
            BoardPin::LedG => PinId { group: PortGroup::A, number: 15 },
            BoardPin::LedB => PinId { group: PortGroup::A, number: 14 },
            BoardPin::Ice40Miso => PinId { group: PortGroup::A, number: 7 },
            BoardPin::Ice40Mosi => PinId { group: PortGroup::A, number: 4 },
            BoardPin::Ice40Sck => PinId { group: PortGroup::A, number: 5 },
            BoardPin::Ice40Ss => PinId { group: PortGroup::A, number: 6 },
            BoardPin::Ice40Cdone => PinId { group: PortGroup::B, number: 8 },
            BoardPin::Ice40Reset => PinId { group: PortGroup::B, number: 9 },
            BoardPin::Ice40Io0 => PinId { group: PortGroup::A, number: 2 },
            BoardPin::Ice40Gclk => PinId { group: PortGroup::B, number: 23 },
            BoardPin::Button => PinId { group: PortGroup::B, number: 22 },
            BoardPin::ImuMiso => PinId { group: PortGroup::A, number: 19 },
            BoardPin::ImuMosi => PinId { group: PortGroup::A, number: 16 },
            BoardPin::ImuSck => PinId { group: PortGroup::A, number: 17 },
            BoardPin::ImuSs => PinId { group: PortGroup::A, number: 18 },
        }
    }
}

/// No port pin is wired to two board signals: distinct signals are
/// connected to distinct pins of the microcontroller.
pub proof fn lemma_wiring_injective(a: BoardPin, b: BoardPin)
    requires
        a != b,
    ensures
        wired_pin(a) != wired_pin(b),
{
}

/// Every board signal is wired to a pin that exists on its group.
pub proof fn lemma_wiring_wf(p: BoardPin)
    ensures
        wired_pin(p).wf(),
{
}

} // verus!
